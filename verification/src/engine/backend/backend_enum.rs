use vstd::prelude::*;

verus! {

/// The capability that a backend plugin implements.
#[derive(Debug, Copy, Clone, PartialEq, Eq, Structural, Hash)]
pub enum Type {
    /// Audio type.
    Audio,
    /// Renderer type.
    Renderer,
    /// Window type.
    Window,
    /// Input type.
    Input,
}

impl Type {
    /// The slot of this capability in the table of default backends.
    pub open spec fn slot(self) -> int {
        match self {
            Type::Audio => 0,
            Type::Renderer => 1,
            Type::Window => 2,
            Type::Input => 3,
        }
    }

    /// The slot of this capability in the table of default backends:
    /// audio, renderer, window, input, counted from zero.
    pub fn index(self) -> (i: usize)
        ensures
            i == self.slot(),
            i < 4,
    {
        match self {
            Type::Audio => 0,
            Type::Renderer => 1,
            Type::Window => 2,
            Type::Input => 3,
        }
    }
}

/// The lifecycle state of a backend plugin.
#[derive(Debug, Copy, Clone, PartialEq, Eq, Structural, Hash)]
pub enum State {
    /// The plugin is not loaded. Every plugin starts out like this.
    Unloaded,
    /// The plugin has been loaded and is in use.
    Active,
    /// The plugin cannot be used, usually because it failed to load.
    Disabled,
}

} // verus!
