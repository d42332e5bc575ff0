//! Bootstrap and extensibility core of a real-time application runtime.
//!
//! The crate owns the application context and its lifecycle, keeps the catalog
//! of backend plugins found on disk, selects the default backend of each
//! capability, and tracks the state of the window that a backend drives.
//!
//! Everything here works on plain values. Whoever embeds the crate talks to
//! the file system, to the loaded modules and to the platform, and reports
//! what it found: which directories exist, what each module exports, which
//! events the platform has queued for the window. The crate decides what
//! follows, and every decision carries a contract that is proved.
//!
//! * [`application`] holds the plain description of an application, a name
//!   and a version.
//! * [`engine`] holds the application context ([`engine::App`]), its
//!   lifecycle, and the backend registry ([`engine::backend::Manager`]).
//! * [`renderer`] holds the default render factory.
//! * [`window`] holds the window's configuration and state, and the backends
//!   that drive it.
//! * [`resource`] holds the resource manager with the loaders for
//!   configuration files and plugins.
//! * [`util`] holds versions, directories and the supported platforms.

pub mod application;
pub mod engine;
pub mod renderer;
pub mod resource;
pub mod util;
pub mod window;
