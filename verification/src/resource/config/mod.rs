//! The loading and storing of configuration files.

pub mod config_loader;

pub use self::config_loader::{
    ConfigError, ConfigLoader, ConfigOutcome, ConfigRequest, PackageEntry, Recovery,
};
