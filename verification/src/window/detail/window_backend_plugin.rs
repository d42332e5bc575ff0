use vstd::prelude::*;

use crate::window::detail::window_backend_default::NotSupported;
use crate::window::window_config::{Position, Size, WindowConfig};
use crate::window::window_enum::{WindowEvent, WindowState};

verus! {

/// Where a window stands after `events`, if it stood at `position` in the
/// state `state` before: at the place of the last move that reached it
/// before it was closed.
pub open spec fn position_after(state: WindowState, position: Position, events: Seq<WindowEvent>)
    -> Position
    decreases events.len(),
{
    if events.len() == 0 {
        position
    } else {
        let before = position_after(state, position, events.drop_last());
        if state.after_all(events.drop_last()) == WindowState::Closed {
            before
        } else {
            match events.last() {
                WindowEvent::Moved(x, y) => Position { x, y },
                _ => before,
            }
        }
    }
}

/// The size of a window after `events`, if it had the size `size` in the
/// state `state` before: that of the last resize that reached it before it
/// was closed.
pub open spec fn size_after(state: WindowState, size: Size, events: Seq<WindowEvent>) -> Size
    decreases events.len(),
{
    if events.len() == 0 {
        size
    } else {
        let before = size_after(state, size, events.drop_last());
        if state.after_all(events.drop_last()) == WindowState::Closed {
            before
        } else {
            match events.last() {
                WindowEvent::Resized(width, height) => Size { width, height },
                _ => before,
            }
        }
    }
}

/// The engine's side of a window that a loaded plugin drives.
///
/// The plugin owns the native window. This value tracks what the engine has
/// to know of it: whether it was created, its state, where it stands and
/// how large it is, and the native handles that the plugin gave out.
#[derive(Debug, Copy, Clone)]
pub struct WindowBackendPlugin {
    state: WindowState,
    size: Size,
    position: Position,
    created: bool,
    display: Option<usize>,
    window: Option<usize>,
}

impl WindowBackendPlugin {
    /// The state of the window.
    pub closed spec fn window_state(&self) -> WindowState {
        self.state
    }

    /// The size of the window.
    pub closed spec fn window_size(&self) -> Size {
        self.size
    }

    /// The position of the window.
    pub closed spec fn window_position(&self) -> Position {
        self.position
    }

    /// Whether the window has been created.
    pub closed spec fn is_created(&self) -> bool {
        self.created
    }

    /// The native display handle, if the plugin gave one out.
    pub closed spec fn display_handle(&self) -> Option<usize> {
        self.display
    }

    /// The native window handle, if the plugin gave one out.
    pub closed spec fn window_handle(&self) -> Option<usize> {
        self.window
    }

    /// The backend after it has taken `events` in order: each changes the
    /// state as [`WindowState::after`] says, a move or a resize is
    /// recorded, and nothing reaches a window that is closed.
    pub closed spec fn after_events(self, events: Seq<WindowEvent>) -> WindowBackendPlugin {
        WindowBackendPlugin {
            state: self.state.after_all(events),
            position: position_after(self.state, self.position, events),
            size: size_after(self.state, self.size, events),
            ..self
        }
    }

    /// What `after_events` does to each part of the backend.
    pub proof fn lemma_after_events(self, events: Seq<WindowEvent>)
        ensures
            self.after_events(events).window_state() == self.window_state().after_all(events),
            self.after_events(events).window_position() == position_after(
                self.window_state(),
                self.window_position(),
                events,
            ),
            self.after_events(events).window_size() == size_after(
                self.window_state(),
                self.window_size(),
                events,
            ),
            self.after_events(events).is_created() == self.is_created(),
            self.after_events(events).display_handle() == self.display_handle(),
            self.after_events(events).window_handle() == self.window_handle(),
    {
    }

    /// The backend of a window that has not been created yet: the window
    /// is active, stands in the corner of the screen and has no size, and no
    /// handles are known.
    pub closed spec fn new_spec() -> WindowBackendPlugin {
        WindowBackendPlugin {
            state: WindowState::Active,
            size: Size { width: 0, height: 0 },
            position: Position { x: 0, y: 0 },
            created: false,
            display: None,
            window: None,
        }
    }

    /// The backend after it has been initialized for a window of the given
    /// size at the given position. A window is created once: a backend
    /// whose window exists stays as it is.
    pub closed spec fn after_init(self, size: Size, position: Position) -> WindowBackendPlugin {
        if self.created {
            self
        } else {
            WindowBackendPlugin { size, position, created: true, ..self }
        }
    }

    /// The backend after the plugin gave out the native handles.
    pub closed spec fn after_attach(self, display: Option<usize>, window: Option<usize>)
        -> WindowBackendPlugin {
        WindowBackendPlugin { display, window, ..self }
    }

    /// What `new_spec`, `after_init` and `after_attach` do to each part of
    /// the backend.
    pub proof fn lemma_parts(
        self,
        size: Size,
        position: Position,
        display: Option<usize>,
        window: Option<usize>,
    )
        ensures
            Self::new_spec().window_state() == WindowState::Active,
            !Self::new_spec().is_created(),
            Self::new_spec().display_handle() is None,
            Self::new_spec().window_handle() is None,
            self.after_init(size, position).window_state() == self.window_state(),
            self.after_init(size, position).is_created(),
            self.after_init(size, position).display_handle() == self.display_handle(),
            self.after_init(size, position).window_handle() == self.window_handle(),
            self.after_init(size, position).window_size() == if self.is_created() {
                self.window_size()
            } else {
                size
            },
            self.after_init(size, position).window_position() == if self.is_created() {
                self.window_position()
            } else {
                position
            },
            self.after_attach(display, window).window_state() == self.window_state(),
            self.after_attach(display, window).is_created() == self.is_created(),
            self.after_attach(display, window).display_handle() == display,
            self.after_attach(display, window).window_handle() == window,
            self.after_attach(display, window).window_size() == self.window_size(),
            self.after_attach(display, window).window_position() == self.window_position(),
    {
    }

    /// Returns the backend of a window that has not been created yet.
    pub fn new() -> (backend: WindowBackendPlugin)
        ensures
            backend == Self::new_spec(),
            backend.window_state() == WindowState::Active,
            backend.window_size() == (Size { width: 0, height: 0 }),
            backend.window_position() == (Position { x: 0, y: 0 }),
            !backend.is_created(),
            backend.display_handle() is None,
            backend.window_handle() is None,
    {
        WindowBackendPlugin {
            state: WindowState::Active,
            size: Size { width: 0, height: 0 },
            position: Position { x: 0, y: 0 },
            created: false,
            display: None,
            window: None,
        }
    }

    /// Creates the window from `config`. A window is created once: on a
    /// window that exists already the call changes nothing. Returns whether
    /// the window was created by this call.
    pub fn init(&mut self, config: &WindowConfig) -> (created: bool)
        ensures
            *final(self) == old(self).after_init(config.window_size, config.window_pos),
            created == !old(self).is_created(),
            final(self).is_created(),
            final(self).window_state() == old(self).window_state(),
            final(self).display_handle() == old(self).display_handle(),
            final(self).window_handle() == old(self).window_handle(),
            created ==> final(self).window_size() == config.window_size,
            created ==> final(self).window_position() == config.window_pos,
            !created ==> final(self).window_size() == old(self).window_size(),
            !created ==> final(self).window_position() == old(self).window_position(),
    {
        if self.created {
            false
        } else {
            self.size = config.window_size;
            self.position = config.window_pos;
            self.created = true;
            true
        }
    }

    /// Records the native handles that the plugin gave out for the window.
    pub fn attach(&mut self, display: Option<usize>, window: Option<usize>)
        ensures
            *final(self) == old(self).after_attach(display, window),
            final(self).display_handle() == display,
            final(self).window_handle() == window,
            final(self).window_state() == old(self).window_state(),
            final(self).window_size() == old(self).window_size(),
            final(self).window_position() == old(self).window_position(),
            final(self).is_created() == old(self).is_created(),
    {
        self.display = display;
        self.window = window;
    }

    /// The state of the window.
    pub fn get_window_state(&self) -> (state: WindowState)
        ensures
            state == self.window_state(),
    {
        self.state
    }

    /// The size of the window.
    pub fn get_size(&self) -> (size: Size)
        ensures
            size == self.window_size(),
    {
        self.size
    }

    /// The position of the window.
    pub fn get_position(&self) -> (position: Position)
        ensures
            position == self.window_position(),
    {
        self.position
    }

    /// Called before a frame is rendered, with the events that the platform
    /// has queued for the window since the last frame. Takes them in order:
    /// each changes the state as [`WindowState::after`] says, a move or a
    /// resize is recorded, and nothing reaches a window that is closed.
    pub fn on_pre_render(&mut self, events: &Vec<WindowEvent>)
        ensures
            *final(self) == old(self).after_events(events@),
            final(self).window_state() == old(self).window_state().after_all(events@),
            final(self).window_position() == position_after(
                old(self).window_state(),
                old(self).window_position(),
                events@,
            ),
            final(self).window_size() == size_after(
                old(self).window_state(),
                old(self).window_size(),
                events@,
            ),
            final(self).is_created() == old(self).is_created(),
            final(self).display_handle() == old(self).display_handle(),
            final(self).window_handle() == old(self).window_handle(),
    {
        let mut i: usize = 0;
        assert(events@.take(0) =~= Seq::<WindowEvent>::empty());
        while i < events.len()
            invariant
                i <= events.len(),
                self.state == old(self).state.after_all(events@.take(i as int)),
                self.position == position_after(
                    old(self).state,
                    old(self).position,
                    events@.take(i as int),
                ),
                self.size == size_after(old(self).state, old(self).size, events@.take(i as int)),
                self.created == old(self).created,
                self.display == old(self).display,
                self.window == old(self).window,
            decreases events.len() - i,
        {
            let event = events[i];
            proof {
                assert(events@.take(i + 1).drop_last() =~= events@.take(i as int));
                assert(events@.take(i + 1).last() == event);
            }
            if !self.state.is_closed() {
                match event {
                    WindowEvent::Moved(x, y) => {
                        self.position = Position { x, y };
                    },
                    WindowEvent::Resized(width, height) => {
                        self.size = Size { width, height };
                    },
                    _ => {},
                }
            }
            self.state = self.state.apply(event);
            i += 1;
        }
        assert(events@.take(events@.len() as int) =~= events@);
    }

    /// Called to render a frame. Leaves the window as it is.
    pub fn on_render(&mut self)
        ensures
            *final(self) == *old(self),
    {
    }

    /// Called after a frame was rendered. Leaves the window as it is.
    pub fn on_post_render(&mut self)
        ensures
            *final(self) == *old(self),
    {
    }

    /// The native display handle, where the plugin gave one out.
    pub fn get_platform_display(&self) -> (handle: Result<usize, NotSupported>)
        ensures
            handle == match self.display_handle() {
                Some(h) => Ok::<usize, NotSupported>(h),
                None => Err::<usize, NotSupported>(NotSupported),
            },
    {
        match self.display {
            Some(h) => Ok(h),
            None => Err(NotSupported),
        }
    }

    /// The native window handle, where the plugin gave one out.
    pub fn get_platform_window(&self) -> (handle: Result<usize, NotSupported>)
        ensures
            handle == match self.window_handle() {
                Some(h) => Ok::<usize, NotSupported>(h),
                None => Err::<usize, NotSupported>(NotSupported),
            },
    {
        match self.window {
            Some(h) => Ok(h),
            None => Err(NotSupported),
        }
    }
}

impl Default for WindowBackendPlugin {
    fn default() -> (backend: WindowBackendPlugin)
        ensures
            backend == WindowBackendPlugin::new_spec(),
            backend.window_state() == WindowState::Active,
            !backend.is_created(),
    {
        WindowBackendPlugin::new()
    }
}

} // verus!
