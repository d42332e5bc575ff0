//! The window: its configuration, its state, and the backends that drive it.

pub mod detail;
pub mod window_backend;
pub mod window_config;
pub mod window_enum;
pub mod window_factory;
pub mod window_manager;

pub use self::window_backend::WindowBackend;
pub use self::window_config::{Position, Size, WindowConfig, WindowConfigView};
pub use self::window_enum::{WindowEvent, WindowState};
pub use self::window_factory::WindowFactory;
pub use self::window_manager::{RegistrationStep, WindowInit, WindowManager};
