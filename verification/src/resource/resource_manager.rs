use vstd::prelude::*;
use vstd::string::*;

use crate::resource::config::config_loader::{config_path, ConfigLoader, ConfigRequest};
use crate::resource::plugin::plugin_loader::PluginLoader;
use crate::util::platform::Platform;

verus! {

/// Which of the resource manager's directories exist.
#[derive(Debug, Copy, Clone, PartialEq, Eq, Structural)]
pub struct DirectoryPresence {
    /// Whether the config directory exists.
    pub cfg_dir: bool,
    /// Whether the resource directory exists.
    pub res_dir: bool,
    /// Whether the binary directory exists.
    pub bin_dir: bool,
    /// Whether the plugin directory exists.
    pub plug_dir: bool,
}

/// The directories to create, given which exist: the missing ones, in the
/// order config, resource, binary, plugin.
pub open spec fn missing(
    presence: DirectoryPresence,
    cfg_dir: Seq<char>,
    res_dir: Seq<char>,
    bin_dir: Seq<char>,
    plug_dir: Seq<char>,
) -> Seq<Seq<char>> {
    (if presence.cfg_dir {
        Seq::<Seq<char>>::empty()
    } else {
        seq![cfg_dir]
    }) + (if presence.res_dir {
        Seq::<Seq<char>>::empty()
    } else {
        seq![res_dir]
    }) + (if presence.bin_dir {
        Seq::<Seq<char>>::empty()
    } else {
        seq![bin_dir]
    }) + (if presence.plug_dir {
        Seq::<Seq<char>>::empty()
    } else {
        seq![plug_dir]
    })
}

/// Interface for resource loading and management.
pub struct ResourceManager {
    cfg_dir: String,
    res_dir: String,
    bin_dir: String,
    plug_dir: String,
    config_loader: ConfigLoader,
    plugin_loader: PluginLoader,
}

impl ResourceManager {
    /// The config directory.
    pub closed spec fn config_directory(&self) -> Seq<char> {
        self.cfg_dir@
    }

    /// The resource directory.
    pub closed spec fn resource_directory(&self) -> Seq<char> {
        self.res_dir@
    }

    /// The binary directory.
    pub closed spec fn binary_directory(&self) -> Seq<char> {
        self.bin_dir@
    }

    /// The plugin directory.
    pub closed spec fn plugin_directory(&self) -> Seq<char> {
        self.plug_dir@
    }

    /// The plugin loader.
    pub closed spec fn plugins(&self) -> PluginLoader {
        self.plugin_loader
    }

    /// Create a new instance of the Resource Manager, with the directories
    /// `cfg/`, `res/`, `bin/` and `bin/plugins/`.
    pub fn new(platform: Platform) -> (manager: ResourceManager)
        ensures
            manager.config_directory() == "cfg/"@,
            manager.resource_directory() == "res/"@,
            manager.binary_directory() == "bin/"@,
            manager.plugin_directory() == "bin/plugins/"@,
            manager.plugins().extension() == platform.extension_text(),
            manager.plugins().configured() == Seq::<Seq<char>>::empty(),
            manager.plugins().registered() == Seq::<Seq<char>>::empty(),
    {
        ResourceManager {
            cfg_dir: "cfg/".to_string(),
            res_dir: "res/".to_string(),
            bin_dir: "bin/".to_string(),
            plug_dir: "bin/plugins/".to_string(),
            config_loader: ConfigLoader,
            plugin_loader: PluginLoader::new(platform),
        }
    }

    /// Says which directories to create, given which exist: the missing
    /// ones, in the order config, resource, binary, plugin.
    pub fn missing_directories(&self, presence: &DirectoryPresence) -> (paths: Vec<String>)
        ensures
            paths@.map_values(|path: String| path@) == missing(
                *presence,
                self.config_directory(),
                self.resource_directory(),
                self.binary_directory(),
                self.plugin_directory(),
            ),
    {
        let mut paths: Vec<String> = Vec::new();
        if !presence.cfg_dir {
            paths.push(self.cfg_dir.clone());
        }
        if !presence.res_dir {
            paths.push(self.res_dir.clone());
        }
        if !presence.bin_dir {
            paths.push(self.bin_dir.clone());
        }
        if !presence.plug_dir {
            paths.push(self.plug_dir.clone());
        }
        assert(paths@.map_values(|path: String| path@) =~= missing(
            *presence,
            self.config_directory(),
            self.resource_directory(),
            self.binary_directory(),
            self.plugin_directory(),
        ));
        paths
    }

    /// Creates a new config file in the config directory.
    pub fn new_config(&self, config_name: &str) -> (request: ConfigRequest)
        ensures
            request is WriteDefault,
            request.path() == config_path(self.config_directory(), config_name@),
    {
        self.config_loader.new_config(self.cfg_dir.as_str(), config_name)
    }

    /// Loads a config file from the config directory.
    pub fn load_config(&self, config_name: &str) -> (request: ConfigRequest)
        ensures
            request is Read,
            request.path() == config_path(self.config_directory(), config_name@),
    {
        self.config_loader.load_config(self.cfg_dir.as_str(), config_name)
    }

    /// Saves a config file to the config directory.
    pub fn save_config(&self, config_name: &str) -> (request: ConfigRequest)
        ensures
            request is Write,
            request.path() == config_path(self.config_directory(), config_name@),
    {
        self.config_loader.save_config(self.cfg_dir.as_str(), config_name)
    }

    /// Moves the config directory to `dir`, which ends in a separator.
    pub fn set_config_directory(&mut self, dir: &str)
        ensures
            final(self).config_directory() == dir@,
            final(self).resource_directory() == old(self).resource_directory(),
            final(self).binary_directory() == old(self).binary_directory(),
            final(self).plugin_directory() == old(self).plugin_directory(),
            final(self).plugins() == old(self).plugins(),
    {
        self.cfg_dir = dir.to_owned();
    }

    /// Releases the resource manager: every registered plugin is let go.
    pub fn release(&mut self)
        ensures
            final(self).plugins().registered() == Seq::<Seq<char>>::empty(),
            final(self).plugins().configured() == old(self).plugins().configured(),
            final(self).plugins().extension() == old(self).plugins().extension(),
            final(self).config_directory() == old(self).config_directory(),
            final(self).resource_directory() == old(self).resource_directory(),
            final(self).binary_directory() == old(self).binary_directory(),
            final(self).plugin_directory() == old(self).plugin_directory(),
    {
        self.plugin_loader.release();
    }

    /// Returns the config loader.
    pub fn get_config_loader(&self) -> (loader: ConfigLoader)
        ensures
            loader == ConfigLoader,
    {
        self.config_loader
    }

    /// Returns the plugin loader.
    pub fn get_plugin_loader(&self) -> (loader: &PluginLoader)
        ensures
            *loader == self.plugins(),
    {
        &self.plugin_loader
    }

    /// Returns the plugin loader, to change it.
    pub fn get_plugin_loader_mut(&mut self) -> (loader: &mut PluginLoader)
        ensures
            *loader == old(self).plugins(),
            final(self).plugins() == *final(loader),
            final(self).config_directory() == old(self).config_directory(),
            final(self).resource_directory() == old(self).resource_directory(),
            final(self).binary_directory() == old(self).binary_directory(),
            final(self).plugin_directory() == old(self).plugin_directory(),
    {
        &mut self.plugin_loader
    }

    /// The plugin directory.
    pub fn get_plugin_directory(&self) -> (path: String)
        ensures
            path@ == self.plugin_directory(),
    {
        self.plug_dir.clone()
    }

    /// The config directory.
    pub fn get_config_directory(&self) -> (path: String)
        ensures
            path@ == self.config_directory(),
    {
        self.cfg_dir.clone()
    }
}

} // verus!
