use vstd::prelude::*;
use vstd::string::*;

use crate::resource::config::config_loader::{ConfigError, ConfigRequest};

verus! {

/// What a [`Config`] holds, as plain text.
pub struct ConfigEntryView {
    /// The name of the config file, without directory and extension.
    pub name: Seq<char>,
    /// The path to the config file.
    pub path: Seq<char>,
}

/// One configuration file that the config manager knows.
#[derive(Debug)]
pub struct Config {
    /// The name of the config file, without directory and extension.
    pub name: String,
    /// The path to the config file.
    pub path: String,
}

impl View for Config {
    type V = ConfigEntryView;

    open spec fn view(&self) -> ConfigEntryView {
        ConfigEntryView { name: self.name@, path: self.path@ }
    }
}

/// The views of a list of paths, in order.
pub open spec fn path_views(paths: Seq<String>) -> Seq<Seq<char>> {
    paths.map_values(|path: String| path@)
}

/// Whether `configs` holds configurations that lie at some of `paths`, at
/// most one for each path, in the order of the paths.
pub open spec fn lie_at(configs: Seq<ConfigEntryView>, paths: Seq<Seq<char>>) -> bool
    decreases paths.len(),
{
    if paths.len() == 0 {
        configs.len() == 0
    } else {
        ||| lie_at(configs, paths.drop_last())
        ||| (configs.len() > 0 && configs.last().path == paths.last() && lie_at(
            configs.drop_last(),
            paths.drop_last(),
        ))
    }
}

/// The stem of the file name of `path`, as the standard library finds it.
///
/// Calls `std::path::Path::file_stem`, which goes by the path syntax of the
/// platform that the program was built for. Nothing is claimed of what it
/// gives: it may find no file name in the path, and then gives nothing.
#[verifier::external_body]
fn file_stem(path: &str) -> (stem: Option<String>) {
    match std::path::Path::new(path).file_stem() {
        Some(stem) => match stem.to_str() {
            Some(text) => Some(text.to_owned()),
            None => None,
        },
        None => None,
    }
}

impl Config {
    /// The configuration named `name` that lies at `path`, and nothing
    /// where there is no name.
    pub fn with_name(name: Option<String>, path: &str) -> (config: Option<Config>)
        ensures
            match name {
                Some(text) => config is Some && config->0@ == (ConfigEntryView {
                    name: text@,
                    path: path@,
                }),
                None => config is None,
            },
    {
        match name {
            Some(text) => Some(Config { name: text, path: path.to_owned() }),
            None => None,
        }
    }

    /// The configuration that lies at `path`. Its name is the stem of the
    /// file name, as the standard library finds it for the platform. A path
    /// in which it finds no file name gives nothing.
    pub fn from_path(path: &str) -> (config: Option<Config>)
        ensures
            config is Some ==> config->0@.path == path@,
    {
        Config::with_name(file_stem(path), path)
    }
}

/// The views of a list of configuration files, in order.
pub open spec fn config_views(configs: Seq<Config>) -> Seq<ConfigEntryView> {
    configs.map_values(|c: Config| c@)
}

/// The path of the first entry of `configs` named `name`.
pub open spec fn path_of(configs: Seq<ConfigEntryView>, name: Seq<char>) -> Option<Seq<char>>
    decreases configs.len(),
{
    if configs.len() == 0 {
        None
    } else if configs.first().name == name {
        Some(configs.first().path)
    } else {
        path_of(configs.drop_first(), name)
    }
}

/// The path at which the config manager keeps the configuration `name`:
/// `<config_dir>/<name>.json`.
pub open spec fn json_path(config_dir: Seq<char>, name: Seq<char>) -> Seq<char> {
    config_dir + "/"@ + name + ".json"@
}

/// Keeps the list of the application's configuration files.
///
/// A configuration can be loaded and saved once the manager knows it: after
/// a search of the config directory found it, or after it was created.
pub struct ConfigManager {
    config_dir: String,
    config_list: Vec<Config>,
}

impl ConfigManager {
    /// The path to the config directory.
    pub closed spec fn dir(&self) -> Seq<char> {
        self.config_dir@
    }

    /// The configuration files that the manager knows, in the order in
    /// which it learned of them.
    pub closed spec fn configs(&self) -> Seq<ConfigEntryView> {
        config_views(self.config_list@)
    }

    /// Returns a new instance of the config manager, which keeps its files
    /// in the directory `config` and knows none yet.
    pub fn new() -> (manager: ConfigManager)
        ensures
            manager.dir() == "config"@,
            manager.configs() == Seq::<ConfigEntryView>::empty(),
    {
        let manager = ConfigManager { config_dir: "config".to_string(), config_list: Vec::new() };
        assert(manager.configs() =~= Seq::<ConfigEntryView>::empty());
        manager
    }

    /// The glob pattern that finds the configuration files:
    /// `<config_dir>/*.json`.
    pub fn search_pattern(&self) -> (pattern: String)
        ensures
            pattern@ == self.dir() + "/*"@ + ".json"@,
    {
        let mut pattern = self.config_dir.clone();
        pattern.append("/*");
        pattern.append(".json");
        pattern
    }

    /// Replaces the list of known configurations by `found`.
    pub fn set_configs(&mut self, found: Vec<Config>)
        ensures
            final(self).configs() == config_views(found@),
            final(self).dir() == old(self).dir(),
    {
        self.config_list = found;
    }

    /// Replaces the list of known configurations by what a search of the
    /// config directory found. Each path in which a file name is found
    /// gives a configuration, whose name is the stem of the file name; the
    /// others are passed over.
    pub fn query_config_dir(&mut self, found: &Vec<String>)
        ensures
            lie_at(final(self).configs(), path_views(found@)),
            final(self).dir() == old(self).dir(),
    {
        let mut configs: Vec<Config> = Vec::new();
        let ghost paths = path_views(found@);
        let mut i: usize = 0;
        proof {
            assert(config_views(configs@) =~= Seq::<ConfigEntryView>::empty());
            assert(paths.take(0) =~= Seq::<Seq<char>>::empty());
        }
        while i < found.len()
            invariant
                i <= found.len(),
                paths == path_views(found@),
                lie_at(config_views(configs@), paths.take(i as int)),
            decreases found.len() - i,
        {
            proof {
                assert(paths.take(i + 1).drop_last() =~= paths.take(i as int));
                assert(paths.take(i + 1).last() == found@[i as int]@);
            }
            if let Some(config) = Config::from_path(found[i].as_str()) {
                let ghost before = config_views(configs@);
                let ghost entry = config@;
                configs.push(config);
                proof {
                    assert(config_views(configs@) =~= before.push(entry));
                    assert(config_views(configs@).drop_last() =~= before);
                    assert(config_views(configs@).last() == entry);
                }
            }
            i += 1;
        }
        assert(paths.take(found@.len() as int) =~= paths);
        self.set_configs(configs);
    }

    /// Creates a new config with the given name: the manager knows it from
    /// now on, and asks for the default value to be written to its file.
    pub fn create_config(&mut self, config_name: &str) -> (request: ConfigRequest)
        ensures
            request is WriteDefault,
            request.path() == json_path(old(self).dir(), config_name@),
            final(self).configs() == old(self).configs().push(
                ConfigEntryView {
                    name: config_name@,
                    path: json_path(old(self).dir(), config_name@),
                },
            ),
            final(self).dir() == old(self).dir(),
    {
        let mut path = self.config_dir.clone();
        path.append("/");
        path.append(config_name);
        path.append(".json");
        let ghost before = self.configs();
        self.config_list.push(Config { name: config_name.to_owned(), path: path.clone() });
        assert(self.configs() =~= before.push(
            ConfigEntryView { name: config_name@, path: path@ },
        ));
        ConfigRequest::WriteDefault(path)
    }

    /// The position of the first known configuration named `name`.
    fn position(&self, name: &String) -> (position: Option<usize>)
        ensures
            match position {
                Some(i) => i < self.configs().len() && path_of(self.configs(), name@) == Some(
                    self.configs()[i as int].path,
                ),
                None => path_of(self.configs(), name@) is None,
            },
    {
        let mut i: usize = 0;
        assert(self.configs().skip(0) =~= self.configs());
        while i < self.config_list.len()
            invariant
                i <= self.config_list.len(),
                path_of(self.configs(), name@) == path_of(self.configs().skip(i as int), name@),
            decreases self.config_list.len() - i,
        {
            proof {
                assert(self.configs().skip(i as int).first() == self.configs()[i as int]);
                assert(self.configs().skip(i as int).drop_first() =~= self.configs().skip(i + 1));
            }
            if self.config_list[i].name == *name {
                return Some(i);
            }
            i += 1;
        }
        None
    }

    /// Loads a config of a given name: asks for its file to be read, if the
    /// manager knows the configuration.
    pub fn load_config(&self, config_name: &str) -> (result: Result<ConfigRequest, ConfigError>)
        ensures
            match path_of(self.configs(), config_name@) {
                Some(path) => result is Ok && result->Ok_0 is Read && result->Ok_0.path() == path,
                None => result == Err::<ConfigRequest, ConfigError>(ConfigError::Absent),
            },
    {
        let name = config_name.to_owned();
        match self.position(&name) {
            Some(i) => Ok(ConfigRequest::Read(self.config_list[i].path.clone())),
            None => Err(ConfigError::Absent),
        }
    }

    /// Saves a config of a given name: asks for its file to be written, if
    /// the manager knows the configuration.
    pub fn save_config(&self, config_name: &str) -> (result: Result<ConfigRequest, ConfigError>)
        ensures
            match path_of(self.configs(), config_name@) {
                Some(path) => result is Ok && result->Ok_0 is Write && result->Ok_0.path() == path,
                None => result == Err::<ConfigRequest, ConfigError>(ConfigError::Absent),
            },
    {
        let name = config_name.to_owned();
        match self.position(&name) {
            Some(i) => Ok(ConfigRequest::Write(self.config_list[i].path.clone())),
            None => Err(ConfigError::Absent),
        }
    }

    /// Check if a config file exists: whether the manager knows a
    /// configuration of that name.
    pub fn config_exists(&self, config_name: &str) -> (known: bool)
        ensures
            known == (path_of(self.configs(), config_name@) is Some),
    {
        let name = config_name.to_owned();
        self.position(&name).is_some()
    }

    /// The path to the config directory.
    pub fn get_config_dir(&self) -> (dir: String)
        ensures
            dir@ == self.dir(),
    {
        self.config_dir.clone()
    }

    /// Moves the config directory to `dir`. The manager keeps what it knows.
    pub fn set_config_dir(&mut self, dir: &str)
        ensures
            final(self).dir() == dir@,
            final(self).configs() == old(self).configs(),
    {
        self.config_dir = dir.to_owned();
    }

    /// The number of configurations that the manager knows.
    pub fn config_count(&self) -> (count: usize)
        ensures
            count == self.configs().len(),
    {
        self.config_list.len()
    }

    /// Forgets every configuration.
    pub fn release(&mut self)
        ensures
            final(self).configs() == Seq::<ConfigEntryView>::empty(),
            final(self).dir() == old(self).dir(),
    {
        self.config_list.clear();
        assert(self.configs() =~= Seq::<ConfigEntryView>::empty());
    }
}

impl Default for ConfigManager {
    fn default() -> (manager: ConfigManager)
        ensures
            manager.dir() == "config"@,
            manager.configs() == Seq::<ConfigEntryView>::empty(),
    {
        ConfigManager::new()
    }
}

/// A configuration can be loaded once it has been created: after
/// `create_config`, a search for the name finds a path.
pub proof fn lemma_created_is_known(
    configs: Seq<ConfigEntryView>,
    name: Seq<char>,
    path: Seq<char>,
)
    ensures
        path_of(configs.push(ConfigEntryView { name, path }), name) is Some,
        path_of(configs, name) is None ==> path_of(
            configs.push(ConfigEntryView { name, path }),
            name,
        ) == Some(path),
    decreases configs.len(),
{
    let after = configs.push(ConfigEntryView { name, path });
    if configs.len() > 0 {
        assert(after.first() == configs.first());
        assert(after.drop_first() =~= configs.drop_first().push(ConfigEntryView { name, path }));
        lemma_created_is_known(configs.drop_first(), name, path);
    } else {
        assert(after.first() == (ConfigEntryView { name, path }));
    }
}

} // verus!
