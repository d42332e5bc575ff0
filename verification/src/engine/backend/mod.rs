//! Everything needed to discover and select backend plugins.

pub mod backend_config;
pub mod backend_defaults;
pub mod backend_enum;
pub mod backend_manager;
pub mod backend_plugin;
pub mod backend_probe;
pub mod backend_proofs;

pub use self::backend_config::{Config, ConfigView};
pub use self::backend_defaults::{BackendConfig, BackendConfigView, BackendManager};
pub use self::backend_enum::{State, Type};
pub use self::backend_manager::{Manager, ScanPlan, Selection};
pub use self::backend_plugin::{Plugin, PluginView};
pub use self::backend_probe::{
    Candidate, CandidateView, EntryPoint, Exports, ExportsView, Verdict,
};
