use vstd::prelude::*;
use vstd::string::*;

use crate::engine::backend::backend_enum::Type;
use crate::engine::backend::backend_plugin::Plugin;
use crate::resource::plugin::plugin_config::PluginConfig;
use crate::resource::plugin::plugin_info::{PluginInfo, PluginInfoView};
use crate::util::platform::Platform;

verus! {

/// Why a plugin could not be registered.
#[derive(Debug, Copy, Clone, PartialEq, Eq, Structural)]
pub enum PluginError {
    /// There is no file at the plugin's path.
    NotFound,
    /// The file could not be loaded as a module.
    LoadFailed,
    /// The module does not export `get_plugin_info`.
    MissingInfo,
    /// The module provides a window backend and does not export
    /// `get_factory`.
    MissingFactory,
    /// The engine has no use for the capability that the plugin provides.
    Unsupported,
}

/// What was found of the module at a plugin's path.
#[derive(Debug)]
pub struct PluginProbe {
    /// Whether there is a file at the path.
    pub found: bool,
    /// Whether the file could be loaded as a module.
    pub loaded: bool,
    /// What `get_plugin_info` gave, or `None` where the module does not
    /// export it.
    pub info: Option<PluginInfo>,
    /// Whether the module exports `get_factory`.
    pub has_factory: bool,
}

impl PluginProbe {
    /// The information on the plugin, or the reason why there is none: the
    /// file is looked for first, then loaded, then asked.
    pub open spec fn info_result(&self) -> Result<PluginInfoView, PluginError> {
        if !self.found {
            Err(PluginError::NotFound)
        } else if !self.loaded {
            Err(PluginError::LoadFailed)
        } else {
            match self.info {
                Some(info) => Ok(info@),
                None => Err(PluginError::MissingInfo),
            }
        }
    }

    /// Whether the plugin can be registered, or the reason why it cannot:
    /// its information has to be had, it has to provide a window backend,
    /// and it has to export the factory for it.
    pub open spec fn registration(&self) -> Result<(), PluginError> {
        match self.info_result() {
            Err(error) => Err(error),
            Ok(info) => backend_registration(info.plug_type, self.has_factory),
        }
    }
}

/// Whether a module that provides `backend_type` can be registered, or the
/// reason why it cannot: it has to provide a window backend, and it has to
/// export the factory for it.
pub open spec fn backend_registration(backend_type: Type, has_factory: bool) -> Result<
    (),
    PluginError,
> {
    if backend_type != Type::Window {
        Err(PluginError::Unsupported)
    } else if !has_factory {
        Err(PluginError::MissingFactory)
    } else {
        Ok(())
    }
}

/// The path of the module of the plugin `name` in `plugin_dir`, which ends
/// in a separator: `<plugin_dir><name><ext>`.
pub open spec fn plugin_path(plugin_dir: Seq<char>, name: Seq<char>, ext: Seq<char>) -> Seq<
    char,
> {
    plugin_dir + name + ext
}

/// The views of a list of paths, in order.
pub open spec fn path_views(paths: Seq<String>) -> Seq<Seq<char>> {
    paths.map_values(|path: String| path@)
}

/// What the initialization of the plugin loader asks of its caller.
#[derive(Debug)]
pub struct PluginInit {
    /// No stored configuration was handed in: the default one is in use and
    /// should be written to the configuration store.
    pub create_config: bool,
    /// The paths of the modules to register, in the order of the plugin
    /// list.
    pub paths: Vec<String>,
}

/// Allows for the loading of the various plugins.
pub struct PluginLoader {
    plug_ext: String,
    plug_config: PluginConfig,
    plug_list: Vec<String>,
}

impl PluginLoader {
    /// The file extension of the modules that the loader loads.
    pub closed spec fn extension(&self) -> Seq<char> {
        self.plug_ext@
    }

    /// The names of the plugins to register when the engine starts.
    pub closed spec fn configured(&self) -> Seq<Seq<char>> {
        self.plug_config.names()
    }

    /// The paths of the plugins that are registered, in the order in which
    /// they were.
    pub closed spec fn registered(&self) -> Seq<Seq<char>> {
        path_views(self.plug_list@)
    }

    /// Returns a new instance of the plugin loader, which loads the modules
    /// of `platform`, has no plugins to register and none registered.
    pub fn new(platform: Platform) -> (loader: PluginLoader)
        ensures
            loader.extension() == platform.extension_text(),
            loader.configured() == Seq::<Seq<char>>::empty(),
            loader.registered() == Seq::<Seq<char>>::empty(),
    {
        let loader = PluginLoader {
            plug_ext: platform.module_extension().to_string(),
            plug_config: PluginConfig::default(),
            plug_list: Vec::new(),
        };
        assert(loader.registered() =~= Seq::<Seq<char>>::empty());
        loader
    }

    /// Initializes the plugin loader with the stored plugin list, if there
    /// is one, and says which modules of `plugin_dir` to register.
    pub fn init(&mut self, stored: Option<PluginConfig>, plugin_dir: &str) -> (outcome: PluginInit)
        ensures
            outcome.create_config == (stored is None),
            final(self).configured() == match stored {
                Some(config) => config.names(),
                None => old(self).configured(),
            },
            final(self).extension() == old(self).extension(),
            final(self).registered() == old(self).registered(),
            path_views(outcome.paths@) == final(self).configured().map_values(
                |name: Seq<char>| plugin_path(plugin_dir@, name, final(self).extension()),
            ),
    {
        let create_config = stored.is_none();
        if let Some(config) = stored {
            self.plug_config = config;
        }
        let mut paths: Vec<String> = Vec::new();
        let mut i: usize = 0;
        let ghost ext = self.plug_ext@;
        let ghost names = self.plug_config.names();
        while i < self.plug_config.plugin_list.len()
            invariant
                i <= self.plug_config.plugin_list.len(),
                ext == self.plug_ext@,
                names == self.plug_config.names(),
                self.extension() == old(self).extension(),
                self.registered() == old(self).registered(),
                paths@.len() == i,
                forall|k: int|
                    0 <= k < i ==> (#[trigger] paths@[k])@ == plugin_path(
                        plugin_dir@,
                        names[k],
                        ext,
                    ),
            decreases self.plug_config.plugin_list.len() - i,
        {
            let mut path = plugin_dir.to_owned();
            path.append(self.plug_config.plugin_list[i].as_str());
            path.append(self.plug_ext.as_str());
            paths.push(path);
            i += 1;
        }
        assert(path_views(paths@) =~= names.map_values(
            |name: Seq<char>| plugin_path(plugin_dir@, name, ext),
        ));
        PluginInit { create_config, paths }
    }

    /// Retrieves information on a plugin from what was found of its
    /// module.
    pub fn get_plugin_info(&self, probe: &PluginProbe) -> (result: Result<PluginInfo, PluginError>)
        ensures
            match probe.info_result() {
                Ok(info) => result is Ok && result->Ok_0@ == info,
                Err(error) => result == Err::<PluginInfo, PluginError>(error),
            },
    {
        if !probe.found {
            Err(PluginError::NotFound)
        } else if !probe.loaded {
            Err(PluginError::LoadFailed)
        } else {
            match &probe.info {
                Some(info) => Ok(info.clone()),
                None => Err(PluginError::MissingInfo),
            }
        }
    }

    /// Registers a plugin with the plugin loader, given what was found of
    /// the module at `plugin_path`.
    ///
    /// A plugin is registered if its module could be loaded, says what it
    /// is, provides a window backend and exports the factory for it. Its
    /// path is then added to the registered plugins, and the caller hands
    /// the factory to the app. Otherwise the loader stays as it is.
    pub fn register_plugin(&mut self, plugin_path: &str, probe: &PluginProbe) -> (result: Result<
        (),
        PluginError,
    >)
        ensures
            result == probe.registration(),
            final(self).extension() == old(self).extension(),
            final(self).configured() == old(self).configured(),
            final(self).registered() == if result is Ok {
                old(self).registered().push(plugin_path@)
            } else {
                old(self).registered()
            },
    {
        match self.get_plugin_info(probe) {
            Err(error) => Err(error),
            Ok(info) => {
                if info.plug_type != Type::Window {
                    Err(PluginError::Unsupported)
                } else if !probe.has_factory {
                    Err(PluginError::MissingFactory)
                } else {
                    let ghost before = self.registered();
                    self.plug_list.push(plugin_path.to_owned());
                    assert(self.registered() =~= before.push(plugin_path@));
                    Ok(())
                }
            },
        }
    }

    /// Registers a backend of the catalog with the plugin loader, given
    /// whether its module exports `get_factory`.
    ///
    /// A backend is registered if it provides a window backend and exports
    /// the factory for it. Its path is then added to the registered
    /// plugins, and the caller asks the module for the factory and hands it
    /// to the app. Otherwise the loader stays as it is.
    pub fn register_backend(&mut self, backend: &Plugin, has_factory: bool) -> (result: Result<
        (),
        PluginError,
    >)
        ensures
            result == backend_registration(backend.backend_type, has_factory),
            final(self).extension() == old(self).extension(),
            final(self).configured() == old(self).configured(),
            final(self).registered() == if result is Ok {
                old(self).registered().push(backend.path@)
            } else {
                old(self).registered()
            },
    {
        if backend.backend_type != Type::Window {
            Err(PluginError::Unsupported)
        } else if !has_factory {
            Err(PluginError::MissingFactory)
        } else {
            let ghost before = self.registered();
            self.plug_list.push(backend.path.clone());
            assert(self.registered() =~= before.push(backend.path@));
            Ok(())
        }
    }

    /// Lets go of every registered plugin. The plugin list stays.
    pub fn release(&mut self)
        ensures
            final(self).registered() == Seq::<Seq<char>>::empty(),
            final(self).configured() == old(self).configured(),
            final(self).extension() == old(self).extension(),
    {
        self.plug_list.clear();
        assert(self.registered() =~= Seq::<Seq<char>>::empty());
    }

    /// The number of plugins that are registered.
    pub fn registered_count(&self) -> (count: usize)
        ensures
            count == self.registered().len(),
    {
        self.plug_list.len()
    }
}

} // verus!
