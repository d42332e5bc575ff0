use vstd::prelude::*;

use crate::window::detail::window_backend_default::WindowBackendDefault;
use crate::window::detail::window_backend_plugin::WindowBackendPlugin;
use crate::window::detail::window_factory_default::WindowFactoryDefault;
use crate::window::window_backend::WindowBackend;
use crate::window::window_config::{Position, Size};
use crate::window::window_enum::WindowState;

verus! {

/// Where window backends come from: the default factory, or the factory
/// that a loaded window plugin exports.
#[derive(Debug, Copy, Clone, PartialEq, Eq, Structural)]
pub enum WindowFactory {
    /// The default factory, which makes inert backends.
    Default(WindowFactoryDefault),
    /// The factory of a loaded window plugin.
    Plugin,
}

impl WindowFactory {
    /// The backend that the factory makes: the inert fallback from the
    /// default factory, and from a plugin's factory the backend of a window
    /// that has not been created yet.
    pub open spec fn product(self) -> WindowBackend {
        match self {
            WindowFactory::Default(_) => WindowBackend::Fallback(WindowBackendDefault::new_spec()),
            WindowFactory::Plugin => WindowBackend::Plugin(WindowBackendPlugin::new_spec()),
        }
    }

    /// Makes a backend.
    pub fn get_window_backend(&self) -> (backend: WindowBackend)
        ensures
            backend == self.product(),
            backend.window_state() == WindowState::Active,
            backend.is_fallback() == (*self is Default),
    {
        proof {
            WindowBackendPlugin::new_spec().lemma_parts(
                Size { width: 0, height: 0 },
                Position { x: 0, y: 0 },
                None,
                None,
            );
        }
        match self {
            WindowFactory::Default(factory) => factory.get_window_backend(),
            WindowFactory::Plugin => WindowBackend::Plugin(WindowBackendPlugin::new()),
        }
    }
}

} // verus!
