//! The factories that the engine itself provides.

pub mod render_factory_default;

pub use self::render_factory_default::RenderFactoryDefault;
