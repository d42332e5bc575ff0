use vstd::prelude::*;

use crate::window::detail::window_backend_default::WindowBackendDefault;
use crate::window::window_backend::WindowBackend;

verus! {

/// Used as the default render factory.
///
/// This is not a functioning factory. It stands in where a render plugin
/// is not specified or fails to load, and makes inert window backends.
#[derive(Debug, Copy, Clone, PartialEq, Eq, Structural)]
pub struct RenderFactoryDefault {}

impl RenderFactoryDefault {
    /// Returns the default render factory.
    pub fn new() -> (factory: RenderFactoryDefault)
        ensures
            factory == (RenderFactoryDefault {  }),
    {
        RenderFactoryDefault {  }
    }

    /// Makes an inert window backend that has not been initialized yet.
    pub fn get_window_backend(&self) -> (backend: WindowBackend)
        ensures
            backend == WindowBackend::Fallback(WindowBackendDefault::new_spec()),
    {
        WindowBackend::Fallback(WindowBackendDefault::new())
    }
}

impl Default for RenderFactoryDefault {
    fn default() -> (factory: RenderFactoryDefault)
        ensures
            factory == (RenderFactoryDefault {  }),
    {
        RenderFactoryDefault::new()
    }
}

} // verus!
