use vstd::prelude::*;

use crate::engine::backend::backend_enum::{State, Type};

verus! {

/// The Plugin Type enum: what a plugin of the engine can provide.
#[derive(Debug, Copy, Clone, PartialEq, Eq, Structural, Hash)]
pub enum PluginType {
    /// Used by audio backends.
    Audio,
    /// Used by rendering backends.
    Renderer,
    /// Used by the window backends.
    Window,
}

/// Stores the current state of the plugin.
#[derive(Debug, Copy, Clone, PartialEq, Eq, Structural, Hash)]
pub enum PluginState {
    /// The plugin is unloaded.
    /// This is the default state.
    Unloaded,
    /// The plugin has been marked for loading.
    MarkedForLoad,
    /// The plugin is loaded.
    Loaded,
    /// The plugin is disabled, and cannot be used.
    /// This state is normally used when an error has occured.
    Disabled,
}

impl PluginType {
    /// The capability of the backend registry that stands for this type.
    pub open spec fn capability(self) -> Type {
        match self {
            PluginType::Audio => Type::Audio,
            PluginType::Renderer => Type::Renderer,
            PluginType::Window => Type::Window,
        }
    }

    /// The capability of the backend registry that stands for this type.
    pub fn backend_type(self) -> (backend_type: Type)
        ensures
            backend_type == self.capability(),
    {
        match self {
            PluginType::Audio => Type::Audio,
            PluginType::Renderer => Type::Renderer,
            PluginType::Window => Type::Window,
        }
    }

    /// The plugin type that stands for a capability of the backend
    /// registry. Input backends have none.
    pub fn of_backend_type(backend_type: Type) -> (plugin_type: Option<PluginType>)
        ensures
            match plugin_type {
                Some(found) => found.capability() == backend_type,
                None => backend_type == Type::Input,
            },
    {
        match backend_type {
            Type::Audio => Some(PluginType::Audio),
            Type::Renderer => Some(PluginType::Renderer),
            Type::Window => Some(PluginType::Window),
            Type::Input => None,
        }
    }
}

impl PluginState {
    /// The state of the backend registry that stands for this state. A
    /// plugin that is marked for loading is not loaded yet.
    pub open spec fn registry_state(self) -> State {
        match self {
            PluginState::Unloaded => State::Unloaded,
            PluginState::MarkedForLoad => State::Unloaded,
            PluginState::Loaded => State::Active,
            PluginState::Disabled => State::Disabled,
        }
    }

    /// The state of the backend registry that stands for this state.
    pub fn backend_state(self) -> (state: State)
        ensures
            state == self.registry_state(),
    {
        match self {
            PluginState::Unloaded => State::Unloaded,
            PluginState::MarkedForLoad => State::Unloaded,
            PluginState::Loaded => State::Active,
            PluginState::Disabled => State::Disabled,
        }
    }

    /// The plugin state that stands for a state of the backend registry.
    pub fn of_backend_state(state: State) -> (plugin_state: PluginState)
        ensures
            plugin_state.registry_state() == state,
            plugin_state != PluginState::MarkedForLoad,
    {
        match state {
            State::Unloaded => PluginState::Unloaded,
            State::Active => PluginState::Loaded,
            State::Disabled => PluginState::Disabled,
        }
    }
}

} // verus!
