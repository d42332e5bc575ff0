use vstd::prelude::*;
use vstd::string::*;

use crate::engine::backend::backend_enum::{State, Type};
use crate::util::version::Version;

verus! {

/// What a [`Plugin`] holds, as plain text.
pub struct PluginView {
    /// The name of the backend.
    pub name: Seq<char>,
    /// The author.
    pub author: Seq<char>,
    /// Description of the backend.
    pub description: Seq<char>,
    /// The version of the backend.
    pub version: Version,
    /// Path to the plugin module.
    pub path: Seq<char>,
    /// The type of backend.
    pub backend_type: Type,
    /// The current state of the backend.
    pub state: State,
}

/// Describes one backend plugin that was found on disk.
#[derive(Debug)]
pub struct Plugin {
    /// The name of the backend.
    pub name: String,
    /// The author.
    pub author: String,
    /// Description of the backend.
    pub description: String,
    /// The version of the backend.
    pub version: Version,
    /// Path to the plugin module.
    pub path: String,
    /// The type of backend.
    pub backend_type: Type,
    /// The current state of the backend.
    pub state: State,
}

impl View for Plugin {
    type V = PluginView;

    open spec fn view(&self) -> PluginView {
        PluginView {
            name: self.name@,
            author: self.author@,
            description: self.description@,
            version: self.version,
            path: self.path@,
            backend_type: self.backend_type,
            state: self.state,
        }
    }
}

impl Clone for Plugin {
    fn clone(&self) -> (copy: Plugin)
        ensures
            copy@ == self@,
    {
        Plugin {
            name: self.name.clone(),
            author: self.author.clone(),
            description: self.description.clone(),
            version: self.version,
            path: self.path.clone(),
            backend_type: self.backend_type,
            state: self.state,
        }
    }
}

/// The descriptor that stands for "no backend of this capability":
/// every text field reads `Fallback`, the version is `0.0.0` and the state is
/// [`State::Unloaded`].
pub open spec fn fallback_view(backend_type: Type) -> PluginView {
    PluginView {
        name: "Fallback"@,
        author: "Fallback"@,
        description: "Fallback"@,
        version: Version { major: 0, minor: 0, patch: 0 },
        path: "Fallback"@,
        backend_type,
        state: State::Unloaded,
    }
}

impl Plugin {
    /// Builds the fallback descriptor of `backend_type`.
    pub fn fallback(backend_type: Type) -> (plugin: Plugin)
        ensures
            plugin@ == fallback_view(backend_type),
    {
        Plugin {
            name: "Fallback".to_string(),
            author: "Fallback".to_string(),
            description: "Fallback".to_string(),
            version: Version::new(),
            path: "Fallback".to_string(),
            backend_type,
            state: State::Unloaded,
        }
    }

    /// Whether this is a fallback descriptor rather than a plugin on disk.
    pub fn is_fallback(&self) -> (yes: bool)
        ensures
            yes == (self@ == fallback_view(self.backend_type)),
    {
        let word = "Fallback".to_string();
        self.name == word && self.author == word && self.description == word && self.path == word
            && self.version == Version::new() && self.state == State::Unloaded
    }
}

} // verus!
