use vstd::prelude::*;
use vstd::string::*;

use crate::engine::backend::backend_enum::Type;

verus! {

/// What a [`Config`] holds, as plain text.
pub struct ConfigView {
    /// The plugin directory.
    pub backend_dir: Seq<char>,
    /// The default backend of each capability, by [`Type::slot`].
    pub default_backend: Seq<Seq<char>>,
}

/// The persisted backend configuration.
pub struct Config {
    /// The directory that is searched for backend plugins.
    pub backend_dir: String,
    /// The default backend of each capability.
    ///
    /// * `Index 0` - Audio backend.
    /// * `Index 1` - Rendering backend.
    /// * `Index 2` - Window backend.
    /// * `Index 3` - Input backend.
    pub default_backend: [String; 4],
}

impl View for Config {
    type V = ConfigView;

    open spec fn view(&self) -> ConfigView {
        ConfigView {
            backend_dir: self.backend_dir@,
            default_backend: Seq::new(4, |i: int| self.default_backend@[i]@),
        }
    }
}

impl Config {
    /// The name stored as the default backend of `backend_type`.
    pub fn default_for(&self, backend_type: Type) -> (name: String)
        ensures
            name@ == self@.default_backend[backend_type.slot()],
    {
        self.default_backend[backend_type.index()].clone()
    }

    /// Stores `name` as the default backend of `backend_type`.
    pub fn set_default_for(&mut self, backend_type: Type, name: String)
        ensures
            final(self)@.backend_dir == old(self)@.backend_dir,
            final(self)@.default_backend == old(self)@.default_backend.update(
                backend_type.slot(),
                name@,
            ),
    {
        self.default_backend[backend_type.index()] = name;
    }
}

/// The defaults of a configuration in which no backend has been chosen:
/// `none` for every capability, which selects automatically.
pub open spec fn unset_defaults() -> Seq<Seq<char>> {
    seq!["none"@, "none"@, "none"@, "none"@]
}

impl Default for Config {
    fn default() -> (c: Config)
        ensures
            c@.backend_dir == "backend"@,
            c@.default_backend == unset_defaults(),
    {
        Config {
            backend_dir: "backend".to_string(),
            default_backend: [
                "none".to_string(),
                "none".to_string(),
                "none".to_string(),
                "none".to_string(),
            ],
        }
    }
}

} // verus!
