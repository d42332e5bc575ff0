use vstd::prelude::*;
use vstd::string::*;

verus! {

/// The size of a window, in pixels.
#[derive(Debug, Copy, Clone, PartialEq, Eq, Structural)]
pub struct Size {
    /// The width.
    pub width: u32,
    /// The height.
    pub height: u32,
}

/// The position of a window on the screen, in pixels.
#[derive(Debug, Copy, Clone, PartialEq, Eq, Structural)]
pub struct Position {
    /// The horizontal coordinate.
    pub x: i32,
    /// The vertical coordinate.
    pub y: i32,
}

/// What a [`WindowConfig`] holds, as plain text.
pub struct WindowConfigView {
    /// The window title.
    pub window_title: Seq<char>,
    /// The window size.
    pub window_size: Size,
    /// The window position.
    pub window_pos: Position,
    /// Whether the window covers the whole screen.
    pub window_is_fullscreen: bool,
    /// Whether the user may resize the window.
    pub window_is_resizable: bool,
}

/// The persisted configuration of the window.
#[derive(Debug)]
pub struct WindowConfig {
    /// The window title.
    pub window_title: String,
    /// The window size.
    pub window_size: Size,
    /// The window position.
    pub window_pos: Position,
    /// Whether the window covers the whole screen.
    pub window_is_fullscreen: bool,
    /// Whether the user may resize the window.
    pub window_is_resizable: bool,
}

impl View for WindowConfig {
    type V = WindowConfigView;

    open spec fn view(&self) -> WindowConfigView {
        WindowConfigView {
            window_title: self.window_title@,
            window_size: self.window_size,
            window_pos: self.window_pos,
            window_is_fullscreen: self.window_is_fullscreen,
            window_is_resizable: self.window_is_resizable,
        }
    }
}

/// The configuration of a window that nobody configured: an untitled
/// window of 1024 by 768 pixels in the corner of the screen, neither
/// fullscreen nor resizable.
pub open spec fn default_window_config() -> WindowConfigView {
    WindowConfigView {
        window_title: "Untitled Window"@,
        window_size: Size { width: 1024, height: 768 },
        window_pos: Position { x: 0, y: 0 },
        window_is_fullscreen: false,
        window_is_resizable: false,
    }
}

impl WindowConfig {
    /// Returns the default window configuration.
    pub fn new() -> (config: WindowConfig)
        ensures
            config@ == default_window_config(),
    {
        WindowConfig {
            window_title: "Untitled Window".to_string(),
            window_size: Size { width: 1024, height: 768 },
            window_pos: Position { x: 0, y: 0 },
            window_is_fullscreen: false,
            window_is_resizable: false,
        }
    }
}

impl Default for WindowConfig {
    fn default() -> (config: WindowConfig)
        ensures
            config@ == default_window_config(),
    {
        WindowConfig::new()
    }
}

impl Clone for WindowConfig {
    fn clone(&self) -> (copy: WindowConfig)
        ensures
            copy@ == self@,
    {
        WindowConfig {
            window_title: self.window_title.clone(),
            window_size: self.window_size,
            window_pos: self.window_pos,
            window_is_fullscreen: self.window_is_fullscreen,
            window_is_resizable: self.window_is_resizable,
        }
    }
}

} // verus!
