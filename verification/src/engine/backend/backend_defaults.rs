use vstd::prelude::*;
use vstd::string::*;

use crate::engine::backend::backend_config::Config;
use crate::engine::backend::backend_enum::Type;

verus! {

/// What a [`BackendConfig`] holds, as plain text.
pub struct BackendConfigView {
    /// The backend directory.
    pub backend_dir: Seq<char>,
    /// The default window backend.
    pub default_window_backend: Seq<char>,
    /// The default rendering backend.
    pub default_rendering_backend: Seq<char>,
    /// The default audio backend.
    pub default_audio_backend: Seq<char>,
}

/// The backend configuration with one named default for each of the
/// window, the rendering and the audio backend.
#[derive(Debug)]
pub struct BackendConfig {
    /// The backend directory.
    pub backend_dir: String,
    /// The default window backend.
    pub default_window_backend: String,
    /// The default rendering backend.
    pub default_rendering_backend: String,
    /// The default audio backend.
    pub default_audio_backend: String,
}

impl View for BackendConfig {
    type V = BackendConfigView;

    open spec fn view(&self) -> BackendConfigView {
        BackendConfigView {
            backend_dir: self.backend_dir@,
            default_window_backend: self.default_window_backend@,
            default_rendering_backend: self.default_rendering_backend@,
            default_audio_backend: self.default_audio_backend@,
        }
    }
}

/// The backend configuration that nobody wrote: the directory `backend`,
/// and `fallback` for every default, which selects automatically.
pub open spec fn fallback_config() -> BackendConfigView {
    BackendConfigView {
        backend_dir: "backend"@,
        default_window_backend: "fallback"@,
        default_rendering_backend: "fallback"@,
        default_audio_backend: "fallback"@,
    }
}

impl BackendConfigView {
    /// The default that the configuration names for `backend_type`. It
    /// names none for input backends, which are selected automatically.
    pub open spec fn default_for(self, backend_type: Type) -> Seq<char> {
        match backend_type {
            Type::Audio => self.default_audio_backend,
            Type::Renderer => self.default_rendering_backend,
            Type::Window => self.default_window_backend,
            Type::Input => "fallback"@,
        }
    }
}

impl BackendConfig {
    /// The default that the configuration names for `backend_type`.
    pub fn default_for(&self, backend_type: Type) -> (name: String)
        ensures
            name@ == self@.default_for(backend_type),
    {
        match backend_type {
            Type::Audio => self.default_audio_backend.clone(),
            Type::Renderer => self.default_rendering_backend.clone(),
            Type::Window => self.default_window_backend.clone(),
            Type::Input => "fallback".to_string(),
        }
    }

    /// The same configuration with its defaults in a table, one slot for
    /// each capability, as the backend registry takes it.
    pub fn to_config(&self) -> (config: Config)
        ensures
            config@.backend_dir == self@.backend_dir,
            config@.default_backend == Seq::new(
                4,
                |i: int|
                    if i == 0 {
                        self@.default_for(Type::Audio)
                    } else if i == 1 {
                        self@.default_for(Type::Renderer)
                    } else if i == 2 {
                        self@.default_for(Type::Window)
                    } else {
                        self@.default_for(Type::Input)
                    },
            ),
    {
        let config = Config {
            backend_dir: self.backend_dir.clone(),
            default_backend: [
                self.default_for(Type::Audio),
                self.default_for(Type::Renderer),
                self.default_for(Type::Window),
                self.default_for(Type::Input),
            ],
        };
        assert(config@.default_backend =~= Seq::new(
            4,
            |i: int|
                if i == 0 {
                    self@.default_for(Type::Audio)
                } else if i == 1 {
                    self@.default_for(Type::Renderer)
                } else if i == 2 {
                    self@.default_for(Type::Window)
                } else {
                    self@.default_for(Type::Input)
                },
        ));
        config
    }
}

impl Default for BackendConfig {
    fn default() -> (config: BackendConfig)
        ensures
            config@ == fallback_config(),
    {
        BackendConfig {
            backend_dir: "backend".to_string(),
            default_window_backend: "fallback".to_string(),
            default_rendering_backend: "fallback".to_string(),
            default_audio_backend: "fallback".to_string(),
        }
    }
}

/// Keeps the backend configuration.
#[derive(Debug)]
pub struct BackendManager {
    /// The backend configuration.
    pub backend_config: BackendConfig,
}

impl BackendManager {
    /// Creates a new instance of the BackendManager, which holds the
    /// configuration that nobody wrote: no backend is preselected.
    pub fn new() -> (manager: BackendManager)
        ensures
            manager.backend_config@ == fallback_config(),
    {
        BackendManager { backend_config: BackendConfig::default() }
    }
}

impl Default for BackendManager {
    fn default() -> (manager: BackendManager)
        ensures
            manager.backend_config@ == fallback_config(),
    {
        BackendManager::new()
    }
}

} // verus!
