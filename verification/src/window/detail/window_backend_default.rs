use vstd::prelude::*;

use crate::window::window_config::WindowConfig;
use crate::window::window_enum::WindowState;

verus! {

/// Says that a backend has no native handle to give out.
#[derive(Debug, Copy, Clone, PartialEq, Eq, Structural)]
pub struct NotSupported;

/// Used as the default window backend.
///
/// This is not a functioning backend. It stands in where a window plugin is
/// not specified or fails to load: it creates no window, reports an active
/// window for ever, and ignores every callback.
#[derive(Debug, Copy, Clone, PartialEq, Eq, Structural)]
pub struct WindowBackendDefault {
    warned: bool,
}

impl WindowBackendDefault {
    /// Whether the backend has already said that it is inert.
    pub closed spec fn has_warned(&self) -> bool {
        self.warned
    }

    /// The backend that has not been initialized yet.
    pub closed spec fn new_spec() -> WindowBackendDefault {
        WindowBackendDefault { warned: false }
    }

    /// Returns a backend that has not been initialized yet.
    pub fn new() -> (backend: WindowBackendDefault)
        ensures
            backend == Self::new_spec(),
            !backend.has_warned(),
    {
        WindowBackendDefault { warned: false }
    }

    /// The backend after it has been initialized: it has said that it is
    /// inert.
    pub closed spec fn after_init(self) -> WindowBackendDefault {
        WindowBackendDefault { warned: true }
    }

    /// Initializes the backend, which creates no window. Returns whether the
    /// caller should warn that the default backend is in use and that the
    /// application may not behave as expected: true the first time, false
    /// from then on.
    pub fn init(&mut self, config: &WindowConfig) -> (warn: bool)
        ensures
            warn == !old(self).has_warned(),
            *final(self) == old(self).after_init(),
            final(self).has_warned(),
    {
        let warn = !self.warned;
        self.warned = true;
        warn
    }

    /// The state of the window: always active.
    pub fn get_window_state(&self) -> (state: WindowState)
        ensures
            state == WindowState::Active,
    {
        WindowState::Active
    }

    /// Called before a frame is rendered. Does nothing.
    pub fn on_pre_render(&mut self)
        ensures
            *final(self) == *old(self),
    {
    }

    /// Called to render a frame. Does nothing.
    pub fn on_render(&mut self)
        ensures
            *final(self) == *old(self),
    {
    }

    /// Called after a frame was rendered. Does nothing.
    pub fn on_post_render(&mut self)
        ensures
            *final(self) == *old(self),
    {
    }

    /// The native display handle: there is none.
    pub fn get_platform_display(&self) -> (handle: Result<usize, NotSupported>)
        ensures
            handle == Err::<usize, NotSupported>(NotSupported),
    {
        Err(NotSupported)
    }

    /// The native window handle: there is none.
    pub fn get_platform_window(&self) -> (handle: Result<usize, NotSupported>)
        ensures
            handle == Err::<usize, NotSupported>(NotSupported),
    {
        Err(NotSupported)
    }
}

impl Default for WindowBackendDefault {
    fn default() -> (backend: WindowBackendDefault)
        ensures
            backend == WindowBackendDefault::new_spec(),
            !backend.has_warned(),
    {
        WindowBackendDefault::new()
    }
}

} // verus!
