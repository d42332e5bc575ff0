use vstd::prelude::*;

verus! {

/// The lifecycle state of a window.
///
/// A window starts out active, moves freely between active, inactive,
/// minimized and maximized, and ends closed: a closed window stays closed.
#[derive(Debug, Copy, Clone, PartialEq, Eq, Structural, Hash)]
pub enum WindowState {
    /// The default window state.
    Active,
    /// Window is open, but not currently selected.
    Inactive,
    /// Window is minimized.
    Minimized,
    /// Window is maximized.
    Maximized,
    /// Window has been closed.
    Closed,
}

/// What the platform reports of a window between two frames.
#[derive(Debug, Copy, Clone, PartialEq, Eq, Structural)]
pub enum WindowEvent {
    /// The window gained the input focus.
    FocusGained,
    /// The window lost the input focus.
    FocusLost,
    /// The window was minimized.
    Minimized,
    /// The window was maximized.
    Maximized,
    /// The window was restored to its normal size.
    Restored,
    /// The window was moved to the given position.
    Moved(i32, i32),
    /// The window was resized to the given width and height.
    Resized(u32, u32),
    /// The user asked to close the window.
    Close,
}

impl WindowState {
    /// The state that follows `self` on `event`. A closed window stays
    /// closed; moving and resizing leave the state alone.
    pub open spec fn after(self, event: WindowEvent) -> WindowState {
        if self == WindowState::Closed {
            WindowState::Closed
        } else {
            match event {
                WindowEvent::FocusGained => WindowState::Active,
                WindowEvent::FocusLost => WindowState::Inactive,
                WindowEvent::Minimized => WindowState::Minimized,
                WindowEvent::Maximized => WindowState::Maximized,
                WindowEvent::Restored => WindowState::Active,
                WindowEvent::Moved(_, _) => self,
                WindowEvent::Resized(_, _) => self,
                WindowEvent::Close => WindowState::Closed,
            }
        }
    }

    /// The state that follows `self` on `events`, taken in order.
    pub open spec fn after_all(self, events: Seq<WindowEvent>) -> WindowState
        decreases events.len(),
    {
        if events.len() == 0 {
            self
        } else {
            self.after_all(events.drop_last()).after(events.last())
        }
    }

    /// The state that follows `self` on `event`.
    pub fn apply(self, event: WindowEvent) -> (next: WindowState)
        ensures
            next == self.after(event),
    {
        if self == WindowState::Closed {
            WindowState::Closed
        } else {
            match event {
                WindowEvent::FocusGained => WindowState::Active,
                WindowEvent::FocusLost => WindowState::Inactive,
                WindowEvent::Minimized => WindowState::Minimized,
                WindowEvent::Maximized => WindowState::Maximized,
                WindowEvent::Restored => WindowState::Active,
                WindowEvent::Moved(_, _) => self,
                WindowEvent::Resized(_, _) => self,
                WindowEvent::Close => WindowState::Closed,
            }
        }
    }

    /// Whether the window has been closed.
    pub fn is_closed(self) -> (closed: bool)
        ensures
            closed == (self == WindowState::Closed),
    {
        self == WindowState::Closed
    }
}

/// A closed window stays closed, whatever the platform reports.
pub proof fn lemma_closed_is_terminal(events: Seq<WindowEvent>)
    ensures
        WindowState::Closed.after_all(events) == WindowState::Closed,
    decreases events.len(),
{
    if events.len() > 0 {
        lemma_closed_is_terminal(events.drop_last());
    }
}

/// A window is closed after a run of events exactly when it was closed
/// before or the run holds a request to close it.
pub proof fn lemma_closed_only_on_request(state: WindowState, events: Seq<WindowEvent>)
    ensures
        state.after_all(events) == WindowState::Closed <==> (state == WindowState::Closed
            || events.contains(WindowEvent::Close)),
    decreases events.len(),
{
    if events.len() > 0 {
        let front = events.drop_last();
        lemma_closed_only_on_request(state, front);
        if events.contains(WindowEvent::Close) {
            let k = choose|k: int| 0 <= k < events.len() && events[k] == WindowEvent::Close;
            if k < front.len() {
                assert(front[k] == WindowEvent::Close);
            }
        }
        if front.contains(WindowEvent::Close) {
            let k = choose|k: int| 0 <= k < front.len() && front[k] == WindowEvent::Close;
            assert(events[k] == WindowEvent::Close);
        }
        if events.last() == WindowEvent::Close {
            assert(events[events.len() - 1] == WindowEvent::Close);
        }
    }
}

} // verus!
