//! The engine: the application context and the backend registry.

pub mod app;
pub mod app_info;
pub mod backend;
pub mod config;
pub mod lifecycle;
pub mod plugin;
pub mod project;
pub mod project_config;

pub use self::app::{App, AppBuilder};
pub use self::app_info::{AppInfo, AppInfoView};
pub use self::backend::{BackendConfig, BackendManager};
pub use self::config::{Config, ConfigManager};
pub use self::lifecycle::{ExitAction, FrameOutcome, Lifecycle, Resource};
pub use self::plugin::{PluginState, PluginType};
pub use self::project_config::{ProjectConfig, ProjectConfigView};
