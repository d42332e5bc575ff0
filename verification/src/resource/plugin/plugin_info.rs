use vstd::prelude::*;
use vstd::string::*;

use crate::engine::backend::backend_enum::Type;
use crate::util::version::Version;

verus! {

/// What a [`PluginInfo`] holds, as plain text.
pub struct PluginInfoView {
    /// The plugin name.
    pub plug_name: Seq<char>,
    /// The plugin developer.
    pub plug_developer: Seq<char>,
    /// The plugin description.
    pub plug_description: Seq<char>,
    /// The plugin version.
    pub plug_version: Version,
    /// The capability that the plugin provides.
    pub plug_type: Type,
}

/// Stores basic information on a plugin.
#[derive(Debug)]
pub struct PluginInfo {
    /// The plugin name.
    pub plug_name: String,
    /// The plugin developer.
    pub plug_developer: String,
    /// The plugin description.
    pub plug_description: String,
    /// The plugin version.
    pub plug_version: Version,
    /// The capability that the plugin provides.
    pub plug_type: Type,
}

impl View for PluginInfo {
    type V = PluginInfoView;

    open spec fn view(&self) -> PluginInfoView {
        PluginInfoView {
            plug_name: self.plug_name@,
            plug_developer: self.plug_developer@,
            plug_description: self.plug_description@,
            plug_version: self.plug_version,
            plug_type: self.plug_type,
        }
    }
}

impl Clone for PluginInfo {
    fn clone(&self) -> (copy: PluginInfo)
        ensures
            copy@ == self@,
    {
        PluginInfo {
            plug_name: self.plug_name.clone(),
            plug_developer: self.plug_developer.clone(),
            plug_description: self.plug_description.clone(),
            plug_version: self.plug_version,
            plug_type: self.plug_type,
        }
    }
}

} // verus!
