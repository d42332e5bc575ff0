//! The plugin module. Contains the plugin loader.

pub mod plugin_config;
pub mod plugin_info;
pub mod plugin_loader;

pub use self::plugin_config::PluginConfig;
pub use self::plugin_info::{PluginInfo, PluginInfoView};
pub use self::plugin_loader::{PluginError, PluginInit, PluginLoader, PluginProbe};
