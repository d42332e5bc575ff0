use vstd::prelude::*;
use vstd::string::*;

verus! {

/// The persisted list of the plugins to register when the engine starts.
#[derive(Debug)]
pub struct PluginConfig {
    /// The names of the plugins, without directory and extension.
    pub plugin_list: Vec<String>,
}

impl PluginConfig {
    /// The names of the plugins, in order.
    pub open spec fn names(&self) -> Seq<Seq<char>> {
        self.plugin_list@.map_values(|name: String| name@)
    }
}

impl Default for PluginConfig {
    fn default() -> (config: PluginConfig)
        ensures
            config.names() == Seq::<Seq<char>>::empty(),
    {
        let config = PluginConfig { plugin_list: Vec::new() };
        assert(config.names() =~= Seq::<Seq<char>>::empty());
        config
    }
}

} // verus!
