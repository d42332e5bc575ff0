use vstd::prelude::*;
use vstd::string::*;

use crate::engine::backend::backend_config::{unset_defaults, Config, ConfigView};
use crate::engine::backend::backend_enum::{State, Type};
use crate::engine::backend::backend_plugin::{fallback_view, Plugin, PluginView};
use crate::engine::backend::backend_probe::{
    candidate_views, descriptor, distinct_paths, has_path, lemma_scan_distinct_paths, scan,
    verdict, Candidate, CandidateView, Verdict,
};
use crate::util::platform::Platform;

verus! {

/// Whether a configured name asks for automatic selection rather than naming
/// a backend: it does where it reads `none` or `fallback`.
pub open spec fn is_auto_select(name: Seq<char>) -> bool {
    name == "none"@ || name == "fallback"@
}

/// The first entry of `catalog` whose name is `name`.
pub open spec fn first_named(catalog: Seq<PluginView>, name: Seq<char>) -> Option<PluginView>
    decreases catalog.len(),
{
    if catalog.len() == 0 {
        None
    } else if catalog.first().name == name {
        Some(catalog.first())
    } else {
        first_named(catalog.drop_first(), name)
    }
}

/// The first entry of `catalog` that implements `backend_type`.
pub open spec fn first_of_type(catalog: Seq<PluginView>, backend_type: Type) -> Option<
    PluginView,
>
    decreases catalog.len(),
{
    if catalog.len() == 0 {
        None
    } else if catalog.first().backend_type == backend_type {
        Some(catalog.first())
    } else {
        first_of_type(catalog.drop_first(), backend_type)
    }
}

/// The backend that serves `backend_type` when the configuration names
/// `configured` for it.
///
/// A configured name that does not ask for automatic selection wins if the
/// catalog holds an entry of that name. Otherwise the first entry of the
/// requested type is taken, and the fallback descriptor where there is none.
pub open spec fn resolve(catalog: Seq<PluginView>, configured: Seq<char>, backend_type: Type)
    -> PluginView {
    let by_type = match first_of_type(catalog, backend_type) {
        Some(entry) => entry,
        None => fallback_view(backend_type),
    };
    if is_auto_select(configured) {
        by_type
    } else {
        match first_named(catalog, configured) {
            Some(entry) => entry,
            None => by_type,
        }
    }
}

/// How the default backend of a capability was selected.
#[derive(Debug, Copy, Clone, PartialEq, Eq, Structural)]
pub enum Selection {
    /// The catalog holds an entry of the configured name.
    ByName,
    /// The first entry of the requested type was taken.
    ByType,
    /// The catalog holds no entry of the requested type: the application
    /// drops into fallback mode.
    Fallback,
}

/// Whether the configuration names a backend that the catalog does not
/// hold.
pub open spec fn configured_missing(catalog: Seq<PluginView>, configured: Seq<char>) -> bool {
    !is_auto_select(configured) && first_named(catalog, configured) is None
}

/// How [`resolve`] comes to its result.
pub open spec fn selection(catalog: Seq<PluginView>, configured: Seq<char>, backend_type: Type)
    -> Selection {
    if !is_auto_select(configured) && first_named(catalog, configured) is Some {
        Selection::ByName
    } else if first_of_type(catalog, backend_type) is Some {
        Selection::ByType
    } else {
        Selection::Fallback
    }
}

/// The names of the entries of `catalog` that implement `backend_type` and
/// are not disabled, in catalog order.
pub open spec fn listed(catalog: Seq<PluginView>, backend_type: Type) -> Seq<Seq<char>> {
    catalog.filter(|p: PluginView| p.backend_type == backend_type && p.state != State::Disabled)
        .map_values(|p: PluginView| p.name)
}

/// The state of a backend after an attempt to register it: active where it
/// was registered, disabled where it could not be.
pub open spec fn state_after_registration(registered: bool) -> State {
    if registered {
        State::Active
    } else {
        State::Disabled
    }
}

/// `catalog` with the state of the first entry named `name` set to `state`.
pub open spec fn with_state(catalog: Seq<PluginView>, name: Seq<char>, state: State) -> Seq<
    PluginView,
>
    decreases catalog.len(),
{
    if catalog.len() == 0 {
        catalog
    } else if catalog.first().name == name {
        catalog.update(0, PluginView { state, ..catalog.first() })
    } else {
        seq![catalog.first()] + with_state(catalog.drop_first(), name, state)
    }
}

/// The defaults after `name` was chosen for `backend_type`: the name is
/// written only if the catalog holds an entry of that name.
pub open spec fn defaults_after_set(
    catalog: Seq<PluginView>,
    defaults: Seq<Seq<char>>,
    backend_type: Type,
    name: Seq<char>,
) -> Seq<Seq<char>> {
    if first_named(catalog, name) is Some {
        defaults.update(backend_type.slot(), name)
    } else {
        defaults
    }
}

/// The views of a list of names, in order.
pub open spec fn name_views(names: Seq<String>) -> Seq<Seq<char>> {
    names.map_values(|s: String| s@)
}

/// What has to happen before the plugin directory can be searched.
#[derive(Debug)]
pub enum ScanPlan {
    /// The directory is missing: create it. There is nothing to search.
    CreateDirectory(String),
    /// Search the file system with this glob pattern, and load what it finds.
    Search(String),
}

/// Manages the discovery and the selection of backend plugins.
pub struct Manager {
    config: Config,
    backend_list: Vec<Plugin>,
    ext: String,
}

impl Manager {
    /// The catalog: the descriptors of the backends found by the last scan.
    pub closed spec fn catalog(&self) -> Seq<PluginView> {
        self.backend_list@.map_values(|p: Plugin| p@)
    }

    /// The backend configuration.
    pub closed spec fn config(&self) -> ConfigView {
        self.config@
    }

    /// The file extension of loadable modules that the manager searches for.
    pub closed spec fn extension(&self) -> Seq<char> {
        self.ext@
    }

    /// The invariant of the manager: no two catalog entries share a path.
    pub open spec fn wf(&self) -> bool {
        distinct_paths(self.catalog())
    }

    /// Creates a manager with the default configuration and an empty
    /// catalog, which searches for the modules of `platform`.
    pub fn new(platform: Platform) -> (manager: Manager)
        ensures
            manager.wf(),
            manager.catalog() == Seq::<PluginView>::empty(),
            manager.config().backend_dir == "backend"@,
            manager.config().default_backend == unset_defaults(),
            manager.extension() == platform.extension_text(),
    {
        let manager = Manager {
            config: Config::default(),
            backend_list: Vec::new(),
            ext: platform.module_extension().to_string(),
        };
        assert(manager.catalog() =~= Seq::<PluginView>::empty());
        manager
    }

    /// Puts the manager back to where [`Manager::new`] left it: the default
    /// configuration and an empty catalog. The platform stays.
    pub fn reset(&mut self)
        ensures
            final(self).wf(),
            final(self).catalog() == Seq::<PluginView>::empty(),
            final(self).config().backend_dir == "backend"@,
            final(self).config().default_backend == unset_defaults(),
            final(self).extension() == old(self).extension(),
    {
        self.config = Config::default();
        self.backend_list.clear();
        assert(self.catalog() =~= Seq::<PluginView>::empty());
    }

    /// Replaces the configuration, for instance by one read from disk.
    pub fn load_config(&mut self, config: Config)
        ensures
            final(self).config() == config@,
            final(self).catalog() == old(self).catalog(),
            final(self).extension() == old(self).extension(),
            old(self).wf() ==> final(self).wf(),
    {
        self.config = config;
    }

    /// Hands out a copy of the configuration, for instance to write it to
    /// disk.
    pub fn save_config(&self) -> (config: Config)
        ensures
            config@ == self.config(),
    {
        let config = Config {
            backend_dir: self.config.backend_dir.clone(),
            default_backend: [
                self.config.default_backend[0].clone(),
                self.config.default_backend[1].clone(),
                self.config.default_backend[2].clone(),
                self.config.default_backend[3].clone(),
            ],
        };
        assert(config@.default_backend =~= self.config@.default_backend);
        config
    }

    /// Says how to begin a scan: with the creation of the plugin directory
    /// where it does not exist, else with a search for `<dir>/*<ext>`.
    pub fn plan_query(&self, dir_exists: bool) -> (plan: ScanPlan)
        ensures
            match plan {
                ScanPlan::CreateDirectory(dir) => !dir_exists && dir@ == self.config().backend_dir,
                ScanPlan::Search(pattern) => dir_exists && pattern@ == self.config().backend_dir
                    + "/*"@ + self.extension(),
            },
    {
        if dir_exists {
            let mut pattern = self.config.backend_dir.clone();
            pattern.append("/*");
            pattern.append(self.ext.as_str());
            ScanPlan::Search(pattern)
        } else {
            ScanPlan::CreateDirectory(self.config.backend_dir.clone())
        }
    }

    /// Whether the catalog holds an entry that lies at `path`.
    fn holds_path(&self, path: &String) -> (found: bool)
        ensures
            found == has_path(self.catalog(), path@),
    {
        let mut i: usize = 0;
        while i < self.backend_list.len()
            invariant
                i <= self.backend_list.len(),
                forall|k: int| 0 <= k < i ==> (#[trigger] self.catalog()[k]).path != path@,
            decreases self.backend_list.len() - i,
        {
            if self.backend_list[i].path == *path {
                assert(self.catalog()[i as int].path == path@);
                return true;
            }
            i += 1;
        }
        false
    }

    /// Judges one candidate against the catalog as it stands.
    fn judge(&self, candidate: &Candidate) -> (v: Verdict)
        ensures
            v == verdict(self.catalog(), candidate@),
    {
        match &candidate.module {
            None => Verdict::LoadFailed,
            Some(module) => match module.first_missing() {
                Some(entry_point) => Verdict::Missing(entry_point),
                None => if self.holds_path(&candidate.path) {
                    Verdict::Duplicate
                } else {
                    Verdict::Added
                },
            },
        }
    }

    /// Rebuilds the catalog from what a search of the plugin directory gave.
    ///
    /// The old catalog is discarded. Where the directory did not exist the
    /// catalog stays empty. Otherwise each candidate is judged in turn: a
    /// file that failed to load, a module that lacks a required entry point
    /// and a path that the catalog already holds are skipped, and every
    /// other candidate is appended with the state [`State::Unloaded`]. The
    /// result says what became of each candidate.
    pub fn query_backend_dir(&mut self, dir_exists: bool, candidates: &Vec<Candidate>) -> (report:
        Vec<Verdict>)
        ensures
            final(self).wf(),
            final(self).config() == old(self).config(),
            final(self).extension() == old(self).extension(),
            !dir_exists ==> final(self).catalog() == Seq::<PluginView>::empty() && report@.len()
                == 0,
            dir_exists ==> final(self).catalog() == scan(candidate_views(candidates@)),
            dir_exists ==> report@.len() == candidates@.len(),
            dir_exists ==> forall|i: int|
                0 <= i < candidates@.len() ==> #[trigger] report@[i] == verdict(
                    scan(candidate_views(candidates@).take(i)),
                    candidate_views(candidates@)[i],
                ),
    {
        self.backend_list.clear();
        let mut report: Vec<Verdict> = Vec::new();
        assert(self.catalog() =~= Seq::<PluginView>::empty());
        if !dir_exists {
            return report;
        }
        let ghost views = candidate_views(candidates@);
        let mut i: usize = 0;
        assert(views.take(0) =~= Seq::<CandidateView>::empty());
        while i < candidates.len()
            invariant
                i <= candidates.len(),
                views == candidate_views(candidates@),
                self.config() == old(self).config(),
                self.extension() == old(self).extension(),
                self.catalog() == scan(views.take(i as int)),
                report@.len() == i,
                forall|k: int|
                    0 <= k < i ==> #[trigger] report@[k] == verdict(
                        scan(views.take(k)),
                        views[k],
                    ),
            decreases candidates.len() - i,
        {
            let candidate = &candidates[i];
            let v = self.judge(candidate);
            proof {
                assert(views.take(i + 1).drop_last() =~= views.take(i as int));
                assert(views.take(i + 1).last() == views[i as int]);
                assert(views[i as int] == candidate@);
            }
            if let Verdict::Added = v {
                if let Some(module) = &candidate.module {
                    if let (
                        Some(name),
                        Some(author),
                        Some(description),
                        Some(version),
                        Some(backend_type),
                    ) = (
                        &module.name,
                        &module.author,
                        &module.description,
                        &module.version,
                        &module.backend_type,
                    ) {
                        let plugin = Plugin {
                            name: name.clone(),
                            author: author.clone(),
                            description: description.clone(),
                            version: *version,
                            path: candidate.path.clone(),
                            backend_type: *backend_type,
                            state: State::Unloaded,
                        };
                        assert(plugin@ == descriptor(candidate@));
                        let ghost before = self.catalog();
                        self.backend_list.push(plugin);
                        assert(self.catalog() =~= before.push(descriptor(candidate@)));
                    }
                }
            }
            report.push(v);
            i += 1;
        }
        proof {
            assert(views.take(candidates@.len() as int) =~= views);
            lemma_scan_distinct_paths(views);
        }
        report
    }

    /// Lists the names of the backends of `backend_type` that are either
    /// active or unloaded, in catalog order.
    pub fn list_backends(&self, backend_type: Type) -> (names: Vec<String>)
        ensures
            name_views(names@) == listed(self.catalog(), backend_type),
    {
        let mut names: Vec<String> = Vec::new();
        let ghost keep = |p: PluginView|
            p.backend_type == backend_type && p.state != State::Disabled;
        let mut i: usize = 0;
        proof {
            reveal(Seq::filter);
            assert(self.catalog().take(0) =~= Seq::<PluginView>::empty());
            assert(name_views(names@) =~= Seq::<Seq<char>>::empty());
        }
        while i < self.backend_list.len()
            invariant
                i <= self.backend_list.len(),
                keep == (|p: PluginView|
                    p.backend_type == backend_type && p.state != State::Disabled),
                name_views(names@) == self.catalog().take(i as int).filter(keep).map_values(
                    |p: PluginView| p.name,
                ),
            decreases self.backend_list.len() - i,
        {
            let backend = &self.backend_list[i];
            proof {
                reveal(Seq::filter);
                assert(self.catalog().take(i + 1).drop_last() =~= self.catalog().take(i as int));
                assert(self.catalog().take(i + 1).last() == backend@);
            }
            if backend.backend_type == backend_type && backend.state != State::Disabled {
                let ghost before = names@;
                names.push(backend.name.clone());
                assert(name_views(names@) =~= name_views(before).push(backend@.name));
                assert(self.catalog().take(i + 1).filter(keep) == self.catalog().take(
                    i as int,
                ).filter(keep).push(backend@));
                assert(self.catalog().take(i + 1).filter(keep).map_values(|p: PluginView| p.name)
                    =~= self.catalog().take(i as int).filter(keep).map_values(
                    |p: PluginView| p.name,
                ).push(backend@.name));
            }
            i += 1;
        }
        assert(self.catalog().take(self.backend_list.len() as int) =~= self.catalog());
        names
    }

    /// The position of the first catalog entry named `name`.
    fn position_by_name(&self, name: &String) -> (position: Option<usize>)
        ensures
            match position {
                Some(i) => i < self.catalog().len() && first_named(self.catalog(), name@) == Some(
                    self.catalog()[i as int],
                ) && self.catalog()[i as int].name == name@ && forall|k: int|
                    0 <= k < i ==> (#[trigger] self.catalog()[k]).name != name@,
                None => first_named(self.catalog(), name@) is None && forall|k: int|
                    0 <= k < self.catalog().len() ==> (#[trigger] self.catalog()[k]).name != name@,
            },
    {
        let mut i: usize = 0;
        assert(self.catalog().skip(0) =~= self.catalog());
        while i < self.backend_list.len()
            invariant
                i <= self.backend_list.len(),
                first_named(self.catalog(), name@) == first_named(
                    self.catalog().skip(i as int),
                    name@,
                ),
                forall|k: int| 0 <= k < i ==> (#[trigger] self.catalog()[k]).name != name@,
            decreases self.backend_list.len() - i,
        {
            proof {
                assert(self.catalog().skip(i as int).first() == self.catalog()[i as int]);
                assert(self.catalog().skip(i as int).drop_first() =~= self.catalog().skip(i + 1));
            }
            if self.backend_list[i].name == *name {
                return Some(i);
            }
            i += 1;
        }
        None
    }

    /// The position of the first catalog entry that implements
    /// `backend_type`.
    fn position_by_type(&self, backend_type: Type) -> (position: Option<usize>)
        ensures
            match position {
                Some(i) => i < self.catalog().len() && first_of_type(self.catalog(), backend_type)
                    == Some(self.catalog()[i as int]),
                None => first_of_type(self.catalog(), backend_type) is None,
            },
    {
        let mut i: usize = 0;
        assert(self.catalog().skip(0) =~= self.catalog());
        while i < self.backend_list.len()
            invariant
                i <= self.backend_list.len(),
                first_of_type(self.catalog(), backend_type) == first_of_type(
                    self.catalog().skip(i as int),
                    backend_type,
                ),
            decreases self.backend_list.len() - i,
        {
            proof {
                assert(self.catalog().skip(i as int).first() == self.catalog()[i as int]);
                assert(self.catalog().skip(i as int).drop_first() =~= self.catalog().skip(i + 1));
            }
            if self.backend_list[i].backend_type == backend_type {
                return Some(i);
            }
            i += 1;
        }
        None
    }

    /// Gets the default backend of `backend_type`.
    ///
    /// The configured name is looked up first, unless it asks for automatic
    /// selection. Where that gives nothing the first catalog entry of the
    /// requested type is taken, and where there is none either, the fallback
    /// descriptor.
    pub fn get_default_backend(&self, backend_type: Type) -> (plugin: Plugin)
        ensures
            plugin@ == resolve(
                self.catalog(),
                self.config().default_backend[backend_type.slot()],
                backend_type,
            ),
    {
        let configured = self.config.default_for(backend_type);
        if !is_auto_select_name(&configured) {
            if let Some(i) = self.position_by_name(&configured) {
                return self.backend_list[i].clone();
            }
        }
        match self.position_by_type(backend_type) {
            Some(i) => self.backend_list[i].clone(),
            None => Plugin::fallback(backend_type),
        }
    }

    /// Says how the default backend of `backend_type` is selected, and
    /// whether the configuration names a backend that the catalog does not
    /// hold. Both are worth a warning: a configured backend that is not
    /// present, and the drop into fallback mode.
    pub fn explain_default_backend(&self, backend_type: Type) -> (how: (Selection, bool))
        ensures
            how.0 == selection(
                self.catalog(),
                self.config().default_backend[backend_type.slot()],
                backend_type,
            ),
            how.1 == configured_missing(
                self.catalog(),
                self.config().default_backend[backend_type.slot()],
            ),
    {
        let configured = self.config.default_for(backend_type);
        let named = !is_auto_select_name(&configured);
        let found = named && self.position_by_name(&configured).is_some();
        if found {
            (Selection::ByName, false)
        } else if self.position_by_type(backend_type).is_some() {
            (Selection::ByType, named)
        } else {
            (Selection::Fallback, named)
        }
    }

    /// Makes `backend_name` the default backend of `backend_type`, provided
    /// that the catalog holds a backend of that name. Returns whether it
    /// does; if not, the configuration stays as it is.
    pub fn set_default_backend(&mut self, backend_type: Type, backend_name: &str) -> (written: bool)
        ensures
            written == (first_named(old(self).catalog(), backend_name@) is Some),
            final(self).config().backend_dir == old(self).config().backend_dir,
            final(self).config().default_backend == defaults_after_set(
                old(self).catalog(),
                old(self).config().default_backend,
                backend_type,
                backend_name@,
            ),
            final(self).catalog() == old(self).catalog(),
            final(self).extension() == old(self).extension(),
            old(self).wf() ==> final(self).wf(),
    {
        let name = backend_name.to_owned();
        match self.position_by_name(&name) {
            Some(_) => {
                self.config.set_default_for(backend_type, name);
                true
            },
            None => false,
        }
    }

    /// Sets the state of the first backend named `backend_name`. Without
    /// such a backend nothing changes.
    pub fn set_backend_state(&mut self, backend_name: &str, backend_state: State)
        ensures
            final(self).catalog() == with_state(old(self).catalog(), backend_name@, backend_state),
            final(self).config() == old(self).config(),
            final(self).extension() == old(self).extension(),
            old(self).wf() ==> final(self).wf(),
    {
        let name = backend_name.to_owned();
        match self.position_by_name(&name) {
            Some(i) => {
                let ghost before = self.catalog();
                self.backend_list[i].state = backend_state;
                proof {
                    assert(self.catalog() =~= before.update(
                        i as int,
                        PluginView { state: backend_state, ..before[i as int] },
                    ));
                    lemma_with_state_at(before, name@, backend_state, i as int);
                    lemma_with_state_keeps_paths(before, name@, backend_state);
                }
            },
            None => {
                proof {
                    lemma_with_state_absent(self.catalog(), name@, backend_state);
                }
            },
        }
    }

    /// Returns a copy of the first backend named `name`, if the catalog
    /// holds one.
    pub fn get_plugin(&self, name: &str) -> (result: Result<Plugin, ()>)
        ensures
            match first_named(self.catalog(), name@) {
                Some(entry) => result is Ok && result->Ok_0@ == entry,
                None => result is Err,
            },
    {
        let wanted = name.to_owned();
        match self.position_by_name(&wanted) {
            Some(i) => Ok(self.backend_list[i].clone()),
            None => Err(()),
        }
    }

    /// Records how the registration of the backend named `backend_name`
    /// went: a backend that was registered is active from now on, and one
    /// that could not be registered is disabled.
    pub fn mark_registered(&mut self, backend_name: &str, registered: bool)
        ensures
            final(self).catalog() == with_state(
                old(self).catalog(),
                backend_name@,
                state_after_registration(registered),
            ),
            final(self).config() == old(self).config(),
            final(self).extension() == old(self).extension(),
            old(self).wf() ==> final(self).wf(),
    {
        let state = if registered {
            State::Active
        } else {
            State::Disabled
        };
        self.set_backend_state(backend_name, state);
    }

    /// The number of backends in the catalog.
    pub fn backend_count(&self) -> (count: usize)
        ensures
            count == self.catalog().len(),
    {
        self.backend_list.len()
    }

    /// A copy of the catalog entry at `index`, in scan order.
    pub fn backend_at(&self, index: usize) -> (plugin: Option<Plugin>)
        ensures
            index < self.catalog().len() ==> plugin is Some,
            index < self.catalog().len() ==> plugin->0@ == self.catalog()[index as int],
            index >= self.catalog().len() ==> plugin is None,
    {
        if index < self.backend_list.len() {
            Some(self.backend_list[index].clone())
        } else {
            None
        }
    }
}

/// Whether `name` asks for automatic selection.
pub fn is_auto_select_name(name: &String) -> (auto: bool)
    ensures
        auto == is_auto_select(name@),
{
    *name == "none".to_string() || *name == "fallback".to_string()
}

/// Where the first entry named `name` stands at `i`, `with_state` changes
/// that entry's state and nothing else.
pub proof fn lemma_with_state_at(catalog: Seq<PluginView>, name: Seq<char>, state: State, i: int)
    requires
        0 <= i < catalog.len(),
        catalog[i].name == name,
        forall|k: int| 0 <= k < i ==> (#[trigger] catalog[k]).name != name,
    ensures
        with_state(catalog, name, state) == catalog.update(
            i,
            PluginView { state, ..catalog[i] },
        ),
    decreases i,
{
    if i > 0 {
        let rest = catalog.drop_first();
        assert(catalog[0].name != name);
        assert forall|k: int| 0 <= k < i - 1 implies (#[trigger] rest[k]).name != name by {
            assert(rest[k] == catalog[k + 1]);
        }
        lemma_with_state_at(rest, name, state, i - 1);
        assert(with_state(catalog, name, state) =~= catalog.update(
            i,
            PluginView { state, ..catalog[i] },
        ));
    }
}

/// Where no entry is named `name`, `with_state` changes nothing.
pub proof fn lemma_with_state_absent(catalog: Seq<PluginView>, name: Seq<char>, state: State)
    requires
        forall|k: int| 0 <= k < catalog.len() ==> (#[trigger] catalog[k]).name != name,
    ensures
        with_state(catalog, name, state) == catalog,
    decreases catalog.len(),
{
    if catalog.len() > 0 {
        let rest = catalog.drop_first();
        assert(catalog[0].name != name);
        assert forall|k: int| 0 <= k < rest.len() implies (#[trigger] rest[k]).name != name by {
            assert(rest[k] == catalog[k + 1]);
        }
        lemma_with_state_absent(rest, name, state);
        assert(with_state(catalog, name, state) =~= catalog);
    }
}

/// `with_state` keeps the length of the catalog and the path, name and type
/// of every entry, and so the distinctness of the paths.
pub proof fn lemma_with_state_keeps_paths(catalog: Seq<PluginView>, name: Seq<char>, state: State)
    ensures
        with_state(catalog, name, state).len() == catalog.len(),
        forall|k: int|
            0 <= k < catalog.len() ==> (#[trigger] with_state(catalog, name, state)[k]).path
                == catalog[k].path && with_state(catalog, name, state)[k].name == catalog[k].name
                && with_state(catalog, name, state)[k].backend_type == catalog[k].backend_type,
        distinct_paths(catalog) ==> distinct_paths(with_state(catalog, name, state)),
    decreases catalog.len(),
{
    if catalog.len() > 0 && catalog.first().name != name {
        let rest = catalog.drop_first();
        lemma_with_state_keeps_paths(rest, name, state);
        let after = with_state(catalog, name, state);
        assert forall|k: int| 0 <= k < catalog.len() implies (#[trigger] after[k]).path
            == catalog[k].path && after[k].name == catalog[k].name && after[k].backend_type
            == catalog[k].backend_type by {
            if k > 0 {
                assert(after[k] == with_state(rest, name, state)[k - 1]);
                assert(rest[k - 1] == catalog[k]);
            }
        }
    }
    let after = with_state(catalog, name, state);
    if distinct_paths(catalog) {
        assert forall|i: int, j: int| 0 <= i < j < after.len() implies #[trigger] after[i].path
            != #[trigger] after[j].path by {
            assert(catalog[i].path != catalog[j].path);
        }
    }
}

} // verus!
