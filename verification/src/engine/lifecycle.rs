use vstd::prelude::*;

verus! {

/// Where the application stands between its creation and its end.
///
/// The states follow each other in the order in which they are listed. An
/// application that never ran can also go from `Initialized` straight to
/// `Terminated`.
#[derive(Debug, Copy, Clone, PartialEq, Eq, Structural, Hash)]
pub enum Lifecycle {
    /// The application has not been initialized.
    Uninitialized,
    /// The application is initialized, and its main loop has not started.
    Initialized,
    /// The main loop is active.
    Running,
    /// The main loop is active and has been asked to stop.
    StopRequested,
    /// The main loop has stopped.
    Stopped,
    /// The application has released what it held. The process ends.
    Terminated,
}

/// What a call of `exit` asks of its caller.
#[derive(Debug, Copy, Clone, PartialEq, Eq, Structural)]
pub enum ExitAction {
    /// Nothing: the application is not initialized, or not any more.
    Nothing,
    /// The main loop was asked to stop. It finishes its frame and returns.
    /// The process lives on.
    SoftStop,
    /// Everything has been released: end the process with this status.
    Terminate(i32),
}

/// What the application holds and releases when it shuts down.
#[derive(Debug, Copy, Clone, PartialEq, Eq, Structural)]
pub enum Resource {
    /// The window backend.
    WindowBackend,
    /// The configuration store.
    ConfigStore,
    /// The application context itself.
    Context,
}

impl ExitAction {
    /// What is released on this action, in the order of release: nothing
    /// unless the process ends, and then the window backend before the
    /// configuration store, and the context last. This is the order in
    /// which they were acquired, reversed.
    pub open spec fn releases(self) -> Seq<Resource> {
        if self is Terminate {
            seq![Resource::WindowBackend, Resource::ConfigStore, Resource::Context]
        } else {
            Seq::empty()
        }
    }

    /// What is released on this action, in the order of release.
    pub fn release_order(&self) -> (order: Vec<Resource>)
        ensures
            order@ == self.releases(),
    {
        let mut order: Vec<Resource> = Vec::new();
        if let ExitAction::Terminate(_) = self {
            order.push(Resource::WindowBackend);
            order.push(Resource::ConfigStore);
            order.push(Resource::Context);
        }
        assert(order@ =~= self.releases());
        order
    }
}

/// What one turn of the main loop did.
#[derive(Debug, Copy, Clone, PartialEq, Eq, Structural)]
pub enum FrameOutcome {
    /// The main loop is not active: nothing was done.
    Idle,
    /// A frame went through its three stages: before, at and after
    /// rendering.
    Rendered,
    /// The window was found closed before rendering: the loop was asked to
    /// stop, and the frame was not rendered.
    Interrupted,
    /// The loop found that it was asked to stop, and stopped.
    Stopped,
}

impl Lifecycle {
    /// Whether the main loop is active.
    pub open spec fn is_running(self) -> bool {
        self == Lifecycle::Running || self == Lifecycle::StopRequested
    }

    /// Whether the application has been asked to stop.
    pub open spec fn exit_requested(self) -> bool {
        self == Lifecycle::StopRequested || self == Lifecycle::Stopped
    }

    /// Whether the application context exists.
    pub open spec fn is_initialized(self) -> bool {
        self != Lifecycle::Uninitialized && self != Lifecycle::Terminated
    }

    /// The state after an initialization which found that the directories
    /// allow a start, or do not.
    pub open spec fn after_init(self, directories_ok: bool) -> Lifecycle {
        if self == Lifecycle::Uninitialized && directories_ok {
            Lifecycle::Initialized
        } else {
            self
        }
    }

    /// The state after the main loop was entered. A loop that has stopped
    /// and is entered again still knows that it was asked to stop.
    pub open spec fn after_start(self) -> Lifecycle {
        match self {
            Lifecycle::Initialized => Lifecycle::Running,
            Lifecycle::Stopped => Lifecycle::StopRequested,
            _ => self,
        }
    }

    /// The state after one turn of the main loop, given whether the window
    /// was found closed.
    pub open spec fn after_frame(self, window_closed: bool) -> Lifecycle {
        match self {
            Lifecycle::StopRequested => Lifecycle::Stopped,
            Lifecycle::Running => if window_closed {
                Lifecycle::StopRequested
            } else {
                Lifecycle::Running
            },
            _ => self,
        }
    }

    /// What one turn of the main loop does, given whether the window was
    /// found closed.
    pub open spec fn frame_outcome(self, window_closed: bool) -> FrameOutcome {
        match self {
            Lifecycle::StopRequested => FrameOutcome::Stopped,
            Lifecycle::Running => if window_closed {
                FrameOutcome::Interrupted
            } else {
                FrameOutcome::Rendered
            },
            _ => FrameOutcome::Idle,
        }
    }

    /// The state after a call of `exit`.
    pub open spec fn after_exit(self) -> Lifecycle {
        match self {
            Lifecycle::Running => Lifecycle::StopRequested,
            Lifecycle::StopRequested => Lifecycle::StopRequested,
            Lifecycle::Initialized => Lifecycle::Terminated,
            Lifecycle::Stopped => Lifecycle::Terminated,
            _ => self,
        }
    }

    /// What a call of `exit` asks of its caller.
    pub open spec fn exit_action(self) -> ExitAction {
        match self {
            Lifecycle::Running => ExitAction::SoftStop,
            Lifecycle::StopRequested => ExitAction::SoftStop,
            Lifecycle::Initialized => ExitAction::Terminate(0),
            Lifecycle::Stopped => ExitAction::Terminate(0),
            _ => ExitAction::Nothing,
        }
    }

    /// Whether the main loop is active.
    pub fn running(self) -> (yes: bool)
        ensures
            yes == self.is_running(),
    {
        match self {
            Lifecycle::Running => true,
            Lifecycle::StopRequested => true,
            _ => false,
        }
    }

    /// Whether the application has been asked to stop.
    pub fn stop_requested(self) -> (yes: bool)
        ensures
            yes == self.exit_requested(),
    {
        match self {
            Lifecycle::StopRequested => true,
            Lifecycle::Stopped => true,
            _ => false,
        }
    }

    /// Whether the application context exists.
    pub fn initialized(self) -> (yes: bool)
        ensures
            yes == self.is_initialized(),
    {
        match self {
            Lifecycle::Uninitialized => false,
            Lifecycle::Terminated => false,
            _ => true,
        }
    }

    /// Enters the main loop.
    pub fn start(self) -> (next: Lifecycle)
        ensures
            next == self.after_start(),
    {
        match self {
            Lifecycle::Initialized => Lifecycle::Running,
            Lifecycle::Stopped => Lifecycle::StopRequested,
            _ => self,
        }
    }

    /// Takes one turn of the main loop, given whether the window was found
    /// closed.
    pub fn frame(self, window_closed: bool) -> (next: (Lifecycle, FrameOutcome))
        ensures
            next.0 == self.after_frame(window_closed),
            next.1 == self.frame_outcome(window_closed),
    {
        match self {
            Lifecycle::StopRequested => (Lifecycle::Stopped, FrameOutcome::Stopped),
            Lifecycle::Running => if window_closed {
                (Lifecycle::StopRequested, FrameOutcome::Interrupted)
            } else {
                (Lifecycle::Running, FrameOutcome::Rendered)
            },
            _ => (self, FrameOutcome::Idle),
        }
    }

    /// Handles a call of `exit`.
    pub fn exit(self) -> (next: (Lifecycle, ExitAction))
        ensures
            next.0 == self.after_exit(),
            next.1 == self.exit_action(),
    {
        match self {
            Lifecycle::Running => (Lifecycle::StopRequested, ExitAction::SoftStop),
            Lifecycle::StopRequested => (Lifecycle::StopRequested, ExitAction::SoftStop),
            Lifecycle::Initialized => (Lifecycle::Terminated, ExitAction::Terminate(0)),
            Lifecycle::Stopped => (Lifecycle::Terminated, ExitAction::Terminate(0)),
            _ => (self, ExitAction::Nothing),
        }
    }
}

/// Shutting down takes two calls of `exit`. While the main loop is active
/// the first call only asks it to stop: the application stays initialized,
/// and the loop stops at its next turn, whatever the window does. The
/// second call, now that the loop has stopped, releases everything and ends
/// the process with the status zero. A third call does nothing.
pub proof fn lemma_two_phase_exit(state: Lifecycle, window_closed: bool)
    requires
        state.is_running(),
    ensures
        state.exit_action() == ExitAction::SoftStop,
        state.after_exit() == Lifecycle::StopRequested,
        state.after_exit().is_initialized(),
        state.after_exit().frame_outcome(window_closed) == FrameOutcome::Stopped,
        state.after_exit().after_frame(window_closed) == Lifecycle::Stopped,
        !Lifecycle::Stopped.is_running(),
        Lifecycle::Stopped.exit_action() == ExitAction::Terminate(0),
        Lifecycle::Stopped.after_exit() == Lifecycle::Terminated,
        Lifecycle::Terminated.exit_action() == ExitAction::Nothing,
        Lifecycle::Terminated.after_exit() == Lifecycle::Terminated,
{
}

/// `exit` ends the process exactly when the main loop is not active and
/// the application is initialized; while the loop is active it never does.
pub proof fn lemma_exit_terminates_only_when_idle(state: Lifecycle)
    ensures
        state.exit_action() is Terminate <==> (state.is_initialized() && !state.is_running()),
        state.exit_action() is Terminate ==> state.exit_action() == ExitAction::Terminate(0),
        state.exit_action() == ExitAction::SoftStop <==> state.is_running(),
        state.after_exit() == Lifecycle::Terminated <==> (state == Lifecycle::Terminated
            || state.exit_action() is Terminate),
{
}

/// A turn of the main loop renders only while nobody has asked to stop,
/// and the loop stops at the first turn after somebody has.
pub proof fn lemma_frame_respects_stop(state: Lifecycle, window_closed: bool)
    ensures
        state.frame_outcome(window_closed) == FrameOutcome::Rendered <==> (state
            == Lifecycle::Running && !window_closed),
        state.frame_outcome(window_closed) == FrameOutcome::Stopped <==> state
            == Lifecycle::StopRequested,
        state.exit_requested() ==> state.after_frame(window_closed) == Lifecycle::Stopped,
        state.after_frame(window_closed).is_initialized() == state.is_initialized(),
{
}

} // verus!
