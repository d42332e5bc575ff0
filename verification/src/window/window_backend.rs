use vstd::prelude::*;

use crate::window::detail::window_backend_default::{NotSupported, WindowBackendDefault};
use crate::window::detail::window_backend_plugin::WindowBackendPlugin;
use crate::window::window_config::{Position, Size, WindowConfig};
use crate::window::window_enum::{lemma_closed_only_on_request, WindowEvent, WindowState};

verus! {

/// The backend that drives the window: the inert fallback, or the engine's
/// side of a backend that a plugin provides.
///
/// Only [`WindowBackend::on_pre_render`] changes the state of the window.
#[derive(Debug, Copy, Clone)]
pub enum WindowBackend {
    /// The inert fallback.
    Fallback(WindowBackendDefault),
    /// A backend that a loaded plugin provides.
    Plugin(WindowBackendPlugin),
}

impl WindowBackend {
    /// The state of the window. That of the fallback is always active.
    pub open spec fn window_state(&self) -> WindowState {
        match self {
            WindowBackend::Fallback(_) => WindowState::Active,
            WindowBackend::Plugin(plugin) => plugin.window_state(),
        }
    }

    /// Whether this is the inert fallback.
    pub open spec fn is_fallback(&self) -> bool {
        self is Fallback
    }

    /// The native display handle that the backend has to give out. The
    /// fallback has none.
    pub open spec fn display_handle(&self) -> Option<usize> {
        match self {
            WindowBackend::Fallback(_) => None,
            WindowBackend::Plugin(plugin) => plugin.display_handle(),
        }
    }

    /// The native window handle that the backend has to give out. The
    /// fallback has none.
    pub open spec fn window_handle(&self) -> Option<usize> {
        match self {
            WindowBackend::Fallback(_) => None,
            WindowBackend::Plugin(plugin) => plugin.window_handle(),
        }
    }

    /// The backend after it has been initialized for a window of the given
    /// size at the given position.
    pub open spec fn after_init(self, size: Size, position: Position) -> WindowBackend {
        match self {
            WindowBackend::Fallback(fallback) => WindowBackend::Fallback(fallback.after_init()),
            WindowBackend::Plugin(plugin) => WindowBackend::Plugin(
                plugin.after_init(size, position),
            ),
        }
    }

    /// Whether an initialization of the backend makes the caller warn that
    /// the inert fallback is in use: the first one of the fallback does.
    pub open spec fn warns_on_init(&self) -> bool {
        match self {
            WindowBackend::Fallback(fallback) => !fallback.has_warned(),
            WindowBackend::Plugin(_) => false,
        }
    }

    /// The backend after the plugin gave out the native handles. The
    /// fallback has no handles, and stays as it is.
    pub open spec fn after_attach(self, display: Option<usize>, window: Option<usize>)
        -> WindowBackend {
        match self {
            WindowBackend::Fallback(_) => self,
            WindowBackend::Plugin(plugin) => WindowBackend::Plugin(
                plugin.after_attach(display, window),
            ),
        }
    }

    /// The backend after it has handled `events` before a frame: the
    /// fallback stays as it is, and a plugin's window takes the events in
    /// order.
    pub open spec fn after_events(self, events: Seq<WindowEvent>) -> WindowBackend {
        match self {
            WindowBackend::Fallback(_) => self,
            WindowBackend::Plugin(plugin) => WindowBackend::Plugin(plugin.after_events(events)),
        }
    }

    /// Returns the inert fallback.
    pub fn fallback() -> (backend: WindowBackend)
        ensures
            backend.is_fallback(),
            backend.window_state() == WindowState::Active,
            backend->Fallback_0 == WindowBackendDefault::new_spec(),
    {
        WindowBackend::Fallback(WindowBackendDefault::new())
    }

    /// Initializes the backend with `config`. Returns whether the caller
    /// should warn that the inert fallback is in use, which is so the first
    /// time that the fallback is initialized.
    pub fn init(&mut self, config: &WindowConfig) -> (warn: bool)
        ensures
            *final(self) == old(self).after_init(config.window_size, config.window_pos),
            warn == old(self).warns_on_init(),
            final(self).is_fallback() == old(self).is_fallback(),
            final(self).window_state() == old(self).window_state(),
    {
        proof {
            if let WindowBackend::Plugin(plugin) = *self {
                plugin.lemma_parts(config.window_size, config.window_pos, None, None);
            }
        }
        match self {
            WindowBackend::Fallback(backend) => backend.init(config),
            WindowBackend::Plugin(backend) => {
                backend.init(config);
                false
            },
        }
    }

    /// Records the native handles that the plugin gave out for the window.
    /// The fallback has no handles, and stays without.
    pub fn attach(&mut self, display: Option<usize>, window: Option<usize>)
        ensures
            *final(self) == old(self).after_attach(display, window),
            final(self).is_fallback() == old(self).is_fallback(),
            final(self).window_state() == old(self).window_state(),
    {
        match self {
            WindowBackend::Fallback(_) => {},
            WindowBackend::Plugin(backend) => backend.attach(display, window),
        }
    }

    /// The state of the window.
    pub fn get_window_state(&self) -> (state: WindowState)
        ensures
            state == self.window_state(),
    {
        match self {
            WindowBackend::Fallback(backend) => backend.get_window_state(),
            WindowBackend::Plugin(backend) => backend.get_window_state(),
        }
    }

    /// Called before a frame is rendered, with the events that the platform
    /// has queued for the window since the last frame. This is the one call
    /// that may change the state of the window.
    pub fn on_pre_render(&mut self, events: &Vec<WindowEvent>)
        ensures
            *final(self) == old(self).after_events(events@),
            final(self).is_fallback() == old(self).is_fallback(),
            final(self).window_state() == if old(self).is_fallback() {
                WindowState::Active
            } else {
                old(self).window_state().after_all(events@)
            },
    {
        match self {
            WindowBackend::Fallback(backend) => backend.on_pre_render(),
            WindowBackend::Plugin(backend) => backend.on_pre_render(events),
        }
    }

    /// Called to render a frame. Leaves the backend as it is.
    pub fn on_render(&mut self)
        ensures
            *final(self) == *old(self),
    {
        match self {
            WindowBackend::Fallback(backend) => backend.on_render(),
            WindowBackend::Plugin(backend) => backend.on_render(),
        }
    }

    /// Called after a frame was rendered. Leaves the backend as it is.
    pub fn on_post_render(&mut self)
        ensures
            *final(self) == *old(self),
    {
        match self {
            WindowBackend::Fallback(backend) => backend.on_post_render(),
            WindowBackend::Plugin(backend) => backend.on_post_render(),
        }
    }

    /// The native display handle. The fallback has none; a plugin's backend
    /// has one once the plugin gave it out.
    pub fn get_platform_display(&self) -> (handle: Result<usize, NotSupported>)
        ensures
            handle == match self.display_handle() {
                Some(h) => Ok::<usize, NotSupported>(h),
                None => Err::<usize, NotSupported>(NotSupported),
            },
    {
        match self {
            WindowBackend::Fallback(backend) => backend.get_platform_display(),
            WindowBackend::Plugin(backend) => backend.get_platform_display(),
        }
    }

    /// The native window handle. The fallback has none; a plugin's backend
    /// has one once the plugin gave it out.
    pub fn get_platform_window(&self) -> (handle: Result<usize, NotSupported>)
        ensures
            handle == match self.window_handle() {
                Some(h) => Ok::<usize, NotSupported>(h),
                None => Err::<usize, NotSupported>(NotSupported),
            },
    {
        match self {
            WindowBackend::Fallback(backend) => backend.get_platform_window(),
            WindowBackend::Plugin(backend) => backend.get_platform_window(),
        }
    }
}

/// What handling a frame's events does to the state of the window: a
/// plugin's window takes the events in order, and the fallback stays active.
pub proof fn lemma_after_events_state(before: WindowBackend, events: Seq<WindowEvent>)
    ensures
        before.after_events(events).is_fallback() == before.is_fallback(),
        before.after_events(events).window_state() == if before.is_fallback() {
            WindowState::Active
        } else {
            before.window_state().after_all(events)
        },
{
    match before {
        WindowBackend::Fallback(_) => {},
        WindowBackend::Plugin(plugin) => {
            plugin.lemma_after_events(events);
        },
    }
}

/// Initializing a backend and handing it the native handles leave the state
/// of the window as it is. So do rendering a frame and finishing it, which
/// leave the whole backend as it is: the state of the window changes only
/// where the events are handled before a frame.
pub proof fn lemma_state_changes_only_before_a_frame(
    before: WindowBackend,
    size: Size,
    position: Position,
    display: Option<usize>,
    window: Option<usize>,
)
    ensures
        before.after_init(size, position).window_state() == before.window_state(),
        before.after_init(size, position).is_fallback() == before.is_fallback(),
        before.after_attach(display, window).window_state() == before.window_state(),
        before.after_attach(display, window).is_fallback() == before.is_fallback(),
{
    match before {
        WindowBackend::Fallback(_) => {},
        WindowBackend::Plugin(plugin) => {
            plugin.lemma_parts(size, position, display, window);
        },
    }
}

/// A window is closed after a frame's events were handled only if it was
/// closed before or the events hold a request to close it; the fallback is
/// never closed; and a closed window stays closed.
pub proof fn lemma_closed_only_by_pre_render(before: WindowBackend, events: Seq<WindowEvent>)
    ensures
        before.after_events(events).window_state() == WindowState::Closed <==> (
        !before.is_fallback() && (before.window_state() == WindowState::Closed
            || events.contains(WindowEvent::Close))),
        before.window_state() == WindowState::Closed ==> before.after_events(
            events,
        ).window_state() == WindowState::Closed,
{
    lemma_after_events_state(before, events);
    lemma_closed_only_on_request(before.window_state(), events);
}

} // verus!
