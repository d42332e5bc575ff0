//! The renderer: the factory from which it gets its window backend.

pub mod detail;

pub use self::detail::RenderFactoryDefault;
