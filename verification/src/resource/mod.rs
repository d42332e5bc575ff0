//! Everything related to resource loading and management.
//!
//! The resource manager is the interface of the module. The loaders each
//! take care of a single kind of resource and are reached through it.

pub mod config;
pub mod plugin;
pub mod resource_manager;

pub use self::config::{
    ConfigError, ConfigLoader, ConfigOutcome, ConfigRequest, PackageEntry, Recovery,
};
pub use self::plugin::{
    PluginConfig, PluginError, PluginInfo, PluginInit, PluginLoader, PluginProbe,
};
pub use self::resource_manager::{DirectoryPresence, ResourceManager};
