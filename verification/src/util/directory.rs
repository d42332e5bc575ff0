use vstd::prelude::*;
use vstd::string::*;

verus! {

/// The purposes for which the engine keeps a directory.
#[derive(Debug, Copy, Clone, PartialEq, Eq, Structural, Hash)]
pub enum DirectoryRole {
    /// Resources that ship with the application.
    Resource,
    /// Binaries.
    Binary,
    /// Plugin modules.
    Plugin,
    /// Configuration files that ship with the application.
    Config,
    /// Data that the application writes and finds again on its next run.
    PersistentData,
    /// Configuration files that the application writes.
    PersistentConfig,
}

impl DirectoryRole {
    /// Whether a directory of this role has to exist before the engine
    /// starts. The others are created on demand.
    pub open spec fn must_exist(self) -> bool {
        match self {
            DirectoryRole::Resource => true,
            DirectoryRole::Binary => true,
            DirectoryRole::Plugin => true,
            DirectoryRole::Config => true,
            DirectoryRole::PersistentData => false,
            DirectoryRole::PersistentConfig => false,
        }
    }

    /// The place of this role in the order in which the directories are
    /// looked at, counted from zero.
    pub open spec fn position(self) -> int {
        match self {
            DirectoryRole::Resource => 0,
            DirectoryRole::Binary => 1,
            DirectoryRole::Plugin => 2,
            DirectoryRole::Config => 3,
            DirectoryRole::PersistentData => 4,
            DirectoryRole::PersistentConfig => 5,
        }
    }

    /// Whether a directory of this role has to exist before the engine
    /// starts.
    pub fn is_required(self) -> (required: bool)
        ensures
            required == self.must_exist(),
    {
        match self {
            DirectoryRole::Resource => true,
            DirectoryRole::Binary => true,
            DirectoryRole::Plugin => true,
            DirectoryRole::Config => true,
            DirectoryRole::PersistentData => false,
            DirectoryRole::PersistentConfig => false,
        }
    }
}

/// What was found of a directory.
#[derive(Debug, Copy, Clone, PartialEq, Eq, Structural)]
pub enum DirectoryStatus {
    /// The directory exists, and did so before the engine looked.
    Present,
    /// The directory was missing and has been created.
    Created,
    /// The directory is missing.
    Missing,
}

impl DirectoryStatus {
    /// Whether a directory of `role` in this status lets the engine start:
    /// it exists, and it was not created just now if it had to exist before.
    pub open spec fn serves(self, role: DirectoryRole) -> bool {
        self == DirectoryStatus::Present || (self == DirectoryStatus::Created
            && !role.must_exist())
    }

    /// Whether a directory of `role` in this status lets the engine start.
    pub fn allows(self, role: DirectoryRole) -> (ok: bool)
        ensures
            ok == self.serves(role),
    {
        match self {
            DirectoryStatus::Present => true,
            DirectoryStatus::Created => !role.is_required(),
            DirectoryStatus::Missing => false,
        }
    }
}

/// What to do about a directory.
#[derive(Debug, Copy, Clone, PartialEq, Eq, Structural)]
pub enum DirectoryAction {
    /// The directory exists: go on.
    Proceed,
    /// The directory is missing and may be created: create it.
    Create,
    /// The directory is missing and must not be: the engine cannot start.
    Abort,
}

/// What was found of each of the engine's directories.
#[derive(Debug, Copy, Clone, PartialEq, Eq, Structural)]
pub struct DirectoryReport {
    /// The resource directory.
    pub resource: DirectoryStatus,
    /// The binary directory.
    pub binary: DirectoryStatus,
    /// The plugin directory.
    pub plugin: DirectoryStatus,
    /// The config directory.
    pub config: DirectoryStatus,
    /// The persistent data directory.
    pub persistent_data: DirectoryStatus,
    /// The persistent config directory.
    pub persistent_config: DirectoryStatus,
}

impl DirectoryReport {
    /// What the report says of the directory of `role`.
    pub open spec fn status_of(self, role: DirectoryRole) -> DirectoryStatus {
        match role {
            DirectoryRole::Resource => self.resource,
            DirectoryRole::Binary => self.binary,
            DirectoryRole::Plugin => self.plugin,
            DirectoryRole::Config => self.config,
            DirectoryRole::PersistentData => self.persistent_data,
            DirectoryRole::PersistentConfig => self.persistent_config,
        }
    }

    /// The first directory that keeps the engine from starting, in the
    /// order resource, binary, plugin, config, persistent data, persistent
    /// config.
    pub open spec fn first_failure(self) -> Option<DirectoryRole> {
        if !self.resource.serves(DirectoryRole::Resource) {
            Some(DirectoryRole::Resource)
        } else if !self.binary.serves(DirectoryRole::Binary) {
            Some(DirectoryRole::Binary)
        } else if !self.plugin.serves(DirectoryRole::Plugin) {
            Some(DirectoryRole::Plugin)
        } else if !self.config.serves(DirectoryRole::Config) {
            Some(DirectoryRole::Config)
        } else if !self.persistent_data.serves(DirectoryRole::PersistentData) {
            Some(DirectoryRole::PersistentData)
        } else if !self.persistent_config.serves(DirectoryRole::PersistentConfig) {
            Some(DirectoryRole::PersistentConfig)
        } else {
            None
        }
    }

    /// A report in which no directory has been found yet.
    pub fn none_present() -> (report: DirectoryReport)
        ensures
            forall|role: DirectoryRole| report.status_of(role) == DirectoryStatus::Missing,
    {
        DirectoryReport {
            resource: DirectoryStatus::Missing,
            binary: DirectoryStatus::Missing,
            plugin: DirectoryStatus::Missing,
            config: DirectoryStatus::Missing,
            persistent_data: DirectoryStatus::Missing,
            persistent_config: DirectoryStatus::Missing,
        }
    }

    /// The report with `status` for the directory of `role`, and as `self`
    /// for the others.
    pub open spec fn with_status(self, role: DirectoryRole, status: DirectoryStatus)
        -> DirectoryReport {
        match role {
            DirectoryRole::Resource => DirectoryReport { resource: status, ..self },
            DirectoryRole::Binary => DirectoryReport { binary: status, ..self },
            DirectoryRole::Plugin => DirectoryReport { plugin: status, ..self },
            DirectoryRole::Config => DirectoryReport { config: status, ..self },
            DirectoryRole::PersistentData => DirectoryReport { persistent_data: status, ..self },
            DirectoryRole::PersistentConfig => DirectoryReport {
                persistent_config: status,
                ..self
            },
        }
    }

    /// Records what was found of the directory of `role`. Returns whether to
    /// go on with the next directory: a directory that keeps the engine from
    /// starting ends the search, so that nothing more is looked at or
    /// created.
    pub fn record(&mut self, role: DirectoryRole, status: DirectoryStatus) -> (go_on: bool)
        ensures
            *final(self) == old(self).with_status(role, status),
            go_on == status.serves(role),
    {
        match role {
            DirectoryRole::Resource => {
                self.resource = status;
            },
            DirectoryRole::Binary => {
                self.binary = status;
            },
            DirectoryRole::Plugin => {
                self.plugin = status;
            },
            DirectoryRole::Config => {
                self.config = status;
            },
            DirectoryRole::PersistentData => {
                self.persistent_data = status;
            },
            DirectoryRole::PersistentConfig => {
                self.persistent_config = status;
            },
        }
        status.allows(role)
    }

    /// A report in which every directory exists.
    pub fn all_present() -> (report: DirectoryReport)
        ensures
            report.first_failure() is None,
            forall|role: DirectoryRole| report.status_of(role) == DirectoryStatus::Present,
    {
        DirectoryReport {
            resource: DirectoryStatus::Present,
            binary: DirectoryStatus::Present,
            plugin: DirectoryStatus::Present,
            config: DirectoryStatus::Present,
            persistent_data: DirectoryStatus::Present,
            persistent_config: DirectoryStatus::Present,
        }
    }
}

/// The engine cannot start: the directory of this role is missing, and
/// either must not be created or could not be.
#[derive(Debug, Copy, Clone, PartialEq, Eq, Structural)]
pub struct DirectoryError {
    /// The role of the directory.
    pub role: DirectoryRole,
}

impl DirectoryError {
    /// The status with which the process ends on this error. It is not zero.
    pub fn exit_status(&self) -> (status: i32)
        ensures
            status == 1,
    {
        1
    }
}

/// Gives access to the engine's directories.
#[derive(Debug, Copy, Clone, PartialEq, Eq, Structural)]
pub struct Directory;

/// The persistent data directory of the application `name` by `developer`
/// for the user whose home directory is `home`.
pub open spec fn persistent_data_path(home: Seq<char>, developer: Seq<char>, name: Seq<char>)
    -> Seq<char> {
    home + "/."@ + developer + "/"@ + name + "/"@
}

impl Directory {
    /// The roles in the order in which their directories are looked at:
    /// resource, binary, plugin, config, persistent data, persistent config.
    pub fn roles() -> (roles: [DirectoryRole; 6])
        ensures
            roles@ == seq![
                DirectoryRole::Resource,
                DirectoryRole::Binary,
                DirectoryRole::Plugin,
                DirectoryRole::Config,
                DirectoryRole::PersistentData,
                DirectoryRole::PersistentConfig,
            ],
    {
        let roles = [
            DirectoryRole::Resource,
            DirectoryRole::Binary,
            DirectoryRole::Plugin,
            DirectoryRole::Config,
            DirectoryRole::PersistentData,
            DirectoryRole::PersistentConfig,
        ];
        assert(roles@ =~= seq![
            DirectoryRole::Resource,
            DirectoryRole::Binary,
            DirectoryRole::Plugin,
            DirectoryRole::Config,
            DirectoryRole::PersistentData,
            DirectoryRole::PersistentConfig,
        ]);
        roles
    }

    /// The path of the directory of `role`, where it does not depend on the
    /// application.
    pub open spec fn fixed_path(role: DirectoryRole) -> Seq<char> {
        match role {
            DirectoryRole::Resource => "res/"@,
            DirectoryRole::Binary => "bin/"@,
            DirectoryRole::Plugin => "bin/plugins/"@,
            _ => "config/"@,
        }
    }

    /// Returns the resource directory.
    pub fn get_resource_directory() -> (path: String)
        ensures
            path@ == "res/"@,
    {
        "res/".to_string()
    }

    /// Returns the binary directory.
    pub fn get_binary_directory() -> (path: String)
        ensures
            path@ == "bin/"@,
    {
        "bin/".to_string()
    }

    /// Returns the plugin directory.
    pub fn get_plugin_directory() -> (path: String)
        ensures
            path@ == "bin/plugins/"@,
    {
        "bin/plugins/".to_string()
    }

    /// Returns the config directory.
    pub fn get_config_directory() -> (path: String)
        ensures
            path@ == "config/"@,
    {
        "config/".to_string()
    }

    /// Returns the persistent data directory: `<home>/.<developer>/<name>/`.
    ///
    /// This is where the engine has read and write permissions, and the
    /// data persists between runs.
    pub fn get_persistent_data_directory(home: &str, developer: &str, name: &str) -> (path: String)
        ensures
            path@ == persistent_data_path(home@, developer@, name@),
    {
        let mut path = home.to_owned();
        path.append("/.");
        path.append(developer);
        path.append("/");
        path.append(name);
        path.append("/");
        path
    }

    /// Returns the persistent config directory, the folder `config/` in the
    /// persistent data directory.
    pub fn get_persistent_config_directory(home: &str, developer: &str, name: &str) -> (path:
        String)
        ensures
            path@ == persistent_data_path(home@, developer@, name@) + "config/"@,
    {
        let mut path = Directory::get_persistent_data_directory(home, developer, name);
        path.append("config/");
        path
    }

    /// Returns the directory of `role` for the application `name` by
    /// `developer` and the user whose home directory is `home`.
    pub fn get_directory(role: DirectoryRole, home: &str, developer: &str, name: &str) -> (path:
        String)
        ensures
            path@ == match role {
                DirectoryRole::PersistentData => persistent_data_path(home@, developer@, name@),
                DirectoryRole::PersistentConfig => persistent_data_path(home@, developer@, name@)
                    + "config/"@,
                _ => Directory::fixed_path(role),
            },
    {
        match role {
            DirectoryRole::Resource => Directory::get_resource_directory(),
            DirectoryRole::Binary => Directory::get_binary_directory(),
            DirectoryRole::Plugin => Directory::get_plugin_directory(),
            DirectoryRole::Config => Directory::get_config_directory(),
            DirectoryRole::PersistentData => Directory::get_persistent_data_directory(
                home,
                developer,
                name,
            ),
            DirectoryRole::PersistentConfig => Directory::get_persistent_config_directory(
                home,
                developer,
                name,
            ),
        }
    }

    /// Says what to do about the directory of `role`, given whether it
    /// is there: a missing directory is created where that is allowed, and
    /// keeps the engine from starting where it is not.
    pub fn plan(role: DirectoryRole, present: bool) -> (action: DirectoryAction)
        ensures
            action == if present {
                DirectoryAction::Proceed
            } else if role.must_exist() {
                DirectoryAction::Abort
            } else {
                DirectoryAction::Create
            },
    {
        if present {
            DirectoryAction::Proceed
        } else if role.is_required() {
            DirectoryAction::Abort
        } else {
            DirectoryAction::Create
        }
    }

    /// Checks what was found of the engine's directories. Fails with the
    /// first directory that keeps the engine from starting: one that is
    /// missing, or one that had to exist before and was created.
    pub fn check(report: &DirectoryReport) -> (result: Result<(), DirectoryError>)
        ensures
            match report.first_failure() {
                Some(role) => result == Err::<(), DirectoryError>(DirectoryError { role }),
                None => result is Ok,
            },
    {
        if !report.resource.allows(DirectoryRole::Resource) {
            Err(DirectoryError { role: DirectoryRole::Resource })
        } else if !report.binary.allows(DirectoryRole::Binary) {
            Err(DirectoryError { role: DirectoryRole::Binary })
        } else if !report.plugin.allows(DirectoryRole::Plugin) {
            Err(DirectoryError { role: DirectoryRole::Plugin })
        } else if !report.config.allows(DirectoryRole::Config) {
            Err(DirectoryError { role: DirectoryRole::Config })
        } else if !report.persistent_data.allows(DirectoryRole::PersistentData) {
            Err(DirectoryError { role: DirectoryRole::PersistentData })
        } else if !report.persistent_config.allows(DirectoryRole::PersistentConfig) {
            Err(DirectoryError { role: DirectoryRole::PersistentConfig })
        } else {
            Ok(())
        }
    }
}

/// A search that ends at the first directory that keeps the engine from
/// starting names that directory: where the directories before `role` serve
/// and that of `role` does not, the check fails with `role`, whatever the
/// report holds for the directories after it.
pub proof fn lemma_search_ends_at_first_failure(report: DirectoryReport, role: DirectoryRole)
    requires
        !report.status_of(role).serves(role),
        forall|earlier: DirectoryRole|
            earlier.position() < role.position() ==> (#[trigger] report.status_of(earlier)).serves(
                earlier,
            ),
    ensures
        report.first_failure() == Some(role),
{
    assert(DirectoryRole::Resource.position() == 0);
    assert(DirectoryRole::Binary.position() == 1);
    assert(DirectoryRole::Plugin.position() == 2);
    assert(DirectoryRole::Config.position() == 3);
    assert(DirectoryRole::PersistentData.position() == 4);
    assert(DirectoryRole::PersistentConfig.position() == 5);
    assert(report.status_of(DirectoryRole::Resource) == report.resource);
    assert(report.status_of(DirectoryRole::Binary) == report.binary);
    assert(report.status_of(DirectoryRole::Plugin) == report.plugin);
    assert(report.status_of(DirectoryRole::Config) == report.config);
    assert(report.status_of(DirectoryRole::PersistentData) == report.persistent_data);
    assert(report.status_of(DirectoryRole::PersistentConfig) == report.persistent_config);
}

/// The check passes exactly when every directory serves its role.
pub proof fn lemma_check_passes_iff_all_serve(report: DirectoryReport)
    ensures
        report.first_failure() is None <==> forall|role: DirectoryRole|
            (#[trigger] report.status_of(role)).serves(role),
{
    if report.first_failure() is None {
        assert forall|role: DirectoryRole| (#[trigger] report.status_of(role)).serves(role) by {
            match role {
                DirectoryRole::Resource => {},
                DirectoryRole::Binary => {},
                DirectoryRole::Plugin => {},
                DirectoryRole::Config => {},
                DirectoryRole::PersistentData => {},
                DirectoryRole::PersistentConfig => {},
            }
        }
    } else {
        let role = report.first_failure()->0;
        assert(!report.status_of(role).serves(role));
    }
}

} // verus!
