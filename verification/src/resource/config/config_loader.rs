use vstd::prelude::*;
use vstd::string::*;

verus! {

/// Why a configuration could not be loaded or stored.
#[derive(Debug, Copy, Clone, PartialEq, Eq, Structural)]
pub enum ConfigError {
    /// There is no such configuration file.
    Absent,
    /// The file is there, but does not hold a configuration of the type
    /// that was asked for.
    Malformed,
    /// The file could not be written.
    NotWritten,
}

/// What is to be done with a configuration file.
#[derive(Debug)]
pub enum ConfigRequest {
    /// Write the default value of the configuration's type to this path.
    WriteDefault(String),
    /// Read the configuration from this path.
    Read(String),
    /// Write the configuration at hand to this path.
    Write(String),
}

impl ConfigRequest {
    /// The path that the request is about.
    pub open spec fn path(&self) -> Seq<char> {
        match self {
            ConfigRequest::WriteDefault(path) => path@,
            ConfigRequest::Read(path) => path@,
            ConfigRequest::Write(path) => path@,
        }
    }

    /// Whether the request is to read.
    pub open spec fn reads(&self) -> bool {
        self is Read
    }

    /// The path that the request is about.
    pub fn get_path(&self) -> (path: String)
        ensures
            path@ == self.path(),
    {
        match self {
            ConfigRequest::WriteDefault(path) => path.clone(),
            ConfigRequest::Read(path) => path.clone(),
            ConfigRequest::Write(path) => path.clone(),
        }
    }
}

/// How a request on a configuration file went.
#[derive(Debug, Copy, Clone, PartialEq, Eq, Structural)]
pub enum ConfigOutcome {
    /// The file was read and decoded, or written.
    Done,
    /// The file to read does not exist.
    FileAbsent,
    /// The file was read, but could not be decoded.
    FileMalformed,
    /// The file could not be written.
    WriteFailed,
}

/// What follows from a load that failed.
#[derive(Debug, Copy, Clone, PartialEq, Eq, Structural)]
pub enum Recovery {
    /// Use the default value of the configuration's type, and store it.
    CreateDefault,
    /// Use the default value, and leave the store as it is.
    UseDefault,
}

/// The path of the configuration `config_name` in the directory `cfg_dir`,
/// which ends in a separator: `<cfg_dir><config_name>.cfg`.
pub open spec fn config_path(cfg_dir: Seq<char>, config_name: Seq<char>) -> Seq<char> {
    cfg_dir + config_name + ".cfg"@
}

/// The result of a request that went as `outcome` says.
pub open spec fn settled(outcome: ConfigOutcome) -> Result<(), ConfigError> {
    match outcome {
        ConfigOutcome::Done => Ok(()),
        ConfigOutcome::FileAbsent => Err(ConfigError::Absent),
        ConfigOutcome::FileMalformed => Err(ConfigError::Malformed),
        ConfigOutcome::WriteFailed => Err(ConfigError::NotWritten),
    }
}

/// Allows the loading of configuration files.
#[derive(Debug, Copy, Clone, PartialEq, Eq, Structural)]
pub struct ConfigLoader;

impl ConfigLoader {
    /// The path of the configuration `config_name` in `cfg_dir`.
    pub fn path_of(cfg_dir: &str, config_name: &str) -> (path: String)
        ensures
            path@ == config_path(cfg_dir@, config_name@),
    {
        let mut path = cfg_dir.to_owned();
        path.append(config_name);
        path.append(".cfg");
        path
    }

    /// Creates a new config file: asks for the default value to be written
    /// to the file of `config_name`.
    pub fn new_config(&self, cfg_dir: &str, config_name: &str) -> (request: ConfigRequest)
        ensures
            request is WriteDefault,
            request.path() == config_path(cfg_dir@, config_name@),
    {
        ConfigRequest::WriteDefault(ConfigLoader::path_of(cfg_dir, config_name))
    }

    /// Loads the config file of a given name: asks for the file of
    /// `config_name` to be read.
    pub fn load_config(&self, cfg_dir: &str, config_name: &str) -> (request: ConfigRequest)
        ensures
            request is Read,
            request.path() == config_path(cfg_dir@, config_name@),
    {
        ConfigRequest::Read(ConfigLoader::path_of(cfg_dir, config_name))
    }

    /// Saves the config file of a given name: asks for the configuration at
    /// hand to be written to the file of `config_name`.
    pub fn save_config(&self, cfg_dir: &str, config_name: &str) -> (request: ConfigRequest)
        ensures
            request is Write,
            request.path() == config_path(cfg_dir@, config_name@),
    {
        ConfigRequest::Write(ConfigLoader::path_of(cfg_dir, config_name))
    }

    /// Turns the way a request went into its result. A file that is absent
    /// and a file that is malformed give different errors.
    pub fn settle(&self, outcome: ConfigOutcome) -> (result: Result<(), ConfigError>)
        ensures
            result == settled(outcome),
    {
        match outcome {
            ConfigOutcome::Done => Ok(()),
            ConfigOutcome::FileAbsent => Err(ConfigError::Absent),
            ConfigOutcome::FileMalformed => Err(ConfigError::Malformed),
            ConfigOutcome::WriteFailed => Err(ConfigError::NotWritten),
        }
    }

    /// Says how to go on after a load failed. Whatever went wrong, the
    /// caller goes on with the default value. Where the file was absent or
    /// malformed, the default is also stored in its place.
    pub fn recover(&self, error: ConfigError) -> (recovery: Recovery)
        ensures
            recovery == if error == ConfigError::NotWritten {
                Recovery::UseDefault
            } else {
                Recovery::CreateDefault
            },
    {
        match error {
            ConfigError::Absent => Recovery::CreateDefault,
            ConfigError::Malformed => Recovery::CreateDefault,
            ConfigError::NotWritten => Recovery::UseDefault,
        }
    }

    /// The path to which the entry `entry_name` of the package of default
    /// config files is unpacked in `cfg_dir`.
    pub fn unpack_path(cfg_dir: &str, entry_name: &str) -> (path: String)
        ensures
            path@ == unpack_target(cfg_dir@, entry_name@),
    {
        let mut path = cfg_dir.to_owned();
        path.append(entry_name);
        path
    }

    /// Whether some entry before `index` bears the name of the entry at
    /// `index` and is not present.
    fn absent_before(entries: &Vec<PackageEntry>, index: usize) -> (found: bool)
        requires
            index < entries@.len(),
        ensures
            found == exists|j: int|
                0 <= j < index && (#[trigger] entry_views(entries@)[j]).name == entry_views(
                    entries@,
                )[index as int].name && !entry_views(entries@)[j].present,
    {
        let mut j: usize = 0;
        while j < index
            invariant
                j <= index,
                index < entries@.len(),
                forall|k: int|
                    0 <= k < j ==> !((#[trigger] entry_views(entries@)[k]).name == entry_views(
                        entries@,
                    )[index as int].name && !entry_views(entries@)[k].present),
            decreases index - j,
        {
            if entries[j].name == entries[index].name && !entries[j].present {
                assert(entry_views(entries@)[j as int].name == entry_views(
                    entries@,
                )[index as int].name);
                return true;
            }
            j += 1;
        }
        false
    }

    /// Says which of the default config files of a resource package to
    /// unpack into `cfg_dir`: those that are not there yet, each name once.
    /// The result gives, for each entry to unpack, its index in the package
    /// and the path to unpack it to.
    pub fn init(&self, cfg_dir: &str, entries: &Vec<PackageEntry>) -> (plan: Vec<(usize, String)>)
        ensures
            unpack_views(plan@) == unpack_plan(cfg_dir@, entry_views(entries@)),
    {
        let mut plan: Vec<(usize, String)> = Vec::new();
        let mut i: usize = 0;
        let ghost views = entry_views(entries@);
        proof {
            assert(views.take(0) =~= Seq::<PackageEntryView>::empty());
            assert(unpack_views(plan@) =~= Seq::<(int, Seq<char>)>::empty());
        }
        while i < entries.len()
            invariant
                i <= entries.len(),
                views == entry_views(entries@),
                unpack_views(plan@) == unpack_plan(cfg_dir@, views.take(i as int)),
            decreases entries.len() - i,
        {
            proof {
                assert(views.take(i + 1).drop_last() =~= views.take(i as int));
                assert(views.take(i + 1).last() == entries@[i as int]@);
                assert(views.take(i + 1).len() - 1 == i);
                lemma_first_absent_in_prefix(views, i as int);
            }
            if !entries[i].present && !ConfigLoader::absent_before(entries, i) {
                let out_path = ConfigLoader::unpack_path(cfg_dir, entries[i].name.as_str());
                let ghost before = plan@;
                plan.push((i, out_path));
                assert(unpack_views(plan@) =~= unpack_views(before).push(
                    (i as int, unpack_target(cfg_dir@, entries@[i as int]@.name)),
                ));
            }
            i += 1;
        }
        proof {
            assert(views.take(entries@.len() as int) =~= views);
        }
        plan
    }
}

/// What a [`PackageEntry`] holds, as plain text.
pub struct PackageEntryView {
    /// The name of the file in the package.
    pub name: Seq<char>,
    /// Whether the config directory holds a file of that name already.
    pub present: bool,
}

/// One file of the package of default config files.
#[derive(Debug)]
pub struct PackageEntry {
    /// The name of the file in the package.
    pub name: String,
    /// Whether the config directory holds a file of that name already.
    pub present: bool,
}

impl View for PackageEntry {
    type V = PackageEntryView;

    open spec fn view(&self) -> PackageEntryView {
        PackageEntryView { name: self.name@, present: self.present }
    }
}

/// The views of the entries of a package, in order.
pub open spec fn entry_views(entries: Seq<PackageEntry>) -> Seq<PackageEntryView> {
    entries.map_values(|e: PackageEntry| e@)
}

/// The views of a list of entries to unpack, in order.
pub open spec fn unpack_views(plan: Seq<(usize, String)>) -> Seq<(int, Seq<char>)> {
    plan.map_values(|step: (usize, String)| (step.0 as int, step.1@))
}

/// The path to which an entry of the package is unpacked:
/// `<cfg_dir><entry_name>`.
pub open spec fn unpack_target(cfg_dir: Seq<char>, entry_name: Seq<char>) -> Seq<char> {
    cfg_dir + entry_name
}

/// Whether the entry at `index` is the first of its name that is not
/// present. The entries of a name that come after it find the file that it
/// was unpacked to.
pub open spec fn first_absent(entries: Seq<PackageEntryView>, index: int) -> bool {
    &&& !entries[index].present
    &&& !exists|j: int|
        0 <= j < index && (#[trigger] entries[j]).name == entries[index].name
            && !entries[j].present
}

/// Whether an entry is the first absent one of its name depends on the
/// entries up to it only.
pub proof fn lemma_first_absent_in_prefix(entries: Seq<PackageEntryView>, index: int)
    requires
        0 <= index < entries.len(),
    ensures
        first_absent(entries.take(index + 1), index) == first_absent(entries, index),
{
    let prefix = entries.take(index + 1);
    assert(prefix[index] == entries[index]);
    if exists|j: int|
        0 <= j < index && (#[trigger] prefix[j]).name == prefix[index].name && !prefix[j].present {
        let j = choose|j: int|
            0 <= j < index && (#[trigger] prefix[j]).name == prefix[index].name
                && !prefix[j].present;
        assert(entries[j] == prefix[j]);
    }
    if exists|j: int|
        0 <= j < index && (#[trigger] entries[j]).name == entries[index].name
            && !entries[j].present {
        let j = choose|j: int|
            0 <= j < index && (#[trigger] entries[j]).name == entries[index].name
                && !entries[j].present;
        assert(prefix[j] == entries[j]);
    }
}

/// The entries of a package to unpack into `cfg_dir`: of each name the
/// first entry that is not present, with its index and the path
/// `<cfg_dir><entry>`, in the order of the package.
pub open spec fn unpack_plan(cfg_dir: Seq<char>, entries: Seq<PackageEntryView>) -> Seq<
    (int, Seq<char>),
>
    decreases entries.len(),
{
    if entries.len() == 0 {
        Seq::empty()
    } else {
        let before = unpack_plan(cfg_dir, entries.drop_last());
        if first_absent(entries, entries.len() - 1) {
            before.push((entries.len() - 1, unpack_target(cfg_dir, entries.last().name)))
        } else {
            before
        }
    }
}

} // verus!
