use vstd::prelude::*;

use crate::window::detail::window_backend_default::WindowBackendDefault;
use crate::window::window_backend::WindowBackend;

verus! {

/// Used as the default window factory.
///
/// This is not a functioning factory. It stands in where a window plugin is
/// not specified or fails to load, and makes inert backends.
#[derive(Debug, Copy, Clone, PartialEq, Eq, Structural)]
pub struct WindowFactoryDefault {}

impl WindowFactoryDefault {
    /// Returns the default factory.
    pub fn new() -> (factory: WindowFactoryDefault)
        ensures
            factory == (WindowFactoryDefault {  }),
    {
        WindowFactoryDefault {  }
    }

    /// Makes an inert backend that has not been initialized yet.
    pub fn get_window_backend(&self) -> (backend: WindowBackend)
        ensures
            backend == WindowBackend::Fallback(WindowBackendDefault::new_spec()),
    {
        WindowBackend::Fallback(WindowBackendDefault::new())
    }
}

impl Default for WindowFactoryDefault {
    fn default() -> (factory: WindowFactoryDefault)
        ensures
            factory == (WindowFactoryDefault {  }),
    {
        WindowFactoryDefault::new()
    }
}

} // verus!
