//! The backends that the engine itself provides.

pub mod window_backend_default;
pub mod window_backend_plugin;
pub mod window_factory_default;

pub use self::window_backend_default::{NotSupported, WindowBackendDefault};
pub use self::window_backend_plugin::WindowBackendPlugin;
pub use self::window_factory_default::WindowFactoryDefault;
