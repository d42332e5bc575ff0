use vstd::prelude::*;
use vstd::string::*;

use crate::engine::backend::backend_enum::{State, Type};
use crate::engine::backend::backend_plugin::PluginView;
use crate::util::version::Version;

verus! {

/// The entry points that a backend module has to export.
#[derive(Debug, Copy, Clone, PartialEq, Eq, Structural)]
pub enum EntryPoint {
    /// `get_name`, which gives the backend's name.
    GetName,
    /// `get_author`, which gives the backend's author.
    GetAuthor,
    /// `get_description`, which gives a short description.
    GetDescription,
    /// `get_version`, which gives the backend's version.
    GetVersion,
    /// `get_type`, which gives the capability that the backend implements.
    GetType,
}

impl EntryPoint {
    /// The symbol under which the module exports this entry point.
    pub open spec fn symbol_text(self) -> Seq<char> {
        match self {
            EntryPoint::GetName => "get_name"@,
            EntryPoint::GetAuthor => "get_author"@,
            EntryPoint::GetDescription => "get_description"@,
            EntryPoint::GetVersion => "get_version"@,
            EntryPoint::GetType => "get_type"@,
        }
    }

    /// The symbol under which the module exports this entry point.
    pub fn symbol(self) -> (name: &'static str)
        ensures
            name@ == self.symbol_text(),
    {
        match self {
            EntryPoint::GetName => "get_name",
            EntryPoint::GetAuthor => "get_author",
            EntryPoint::GetDescription => "get_description",
            EntryPoint::GetVersion => "get_version",
            EntryPoint::GetType => "get_type",
        }
    }
}

/// What an [`Exports`] holds, as plain text.
pub struct ExportsView {
    /// What `get_name` gave.
    pub name: Option<Seq<char>>,
    /// What `get_author` gave.
    pub author: Option<Seq<char>>,
    /// What `get_description` gave.
    pub description: Option<Seq<char>>,
    /// What `get_version` gave.
    pub version: Option<Version>,
    /// What `get_type` gave.
    pub backend_type: Option<Type>,
}

impl ExportsView {
    /// The first required entry point that the module lacks, in the order
    /// name, author, description, version, type.
    pub open spec fn first_missing(self) -> Option<EntryPoint> {
        if self.name is None {
            Some(EntryPoint::GetName)
        } else if self.author is None {
            Some(EntryPoint::GetAuthor)
        } else if self.description is None {
            Some(EntryPoint::GetDescription)
        } else if self.version is None {
            Some(EntryPoint::GetVersion)
        } else if self.backend_type is None {
            Some(EntryPoint::GetType)
        } else {
            None
        }
    }
}

/// What a loaded module exports: for each required entry point the value it
/// returns, or `None` where the module has no such symbol.
#[derive(Debug)]
pub struct Exports {
    /// What `get_name` gave.
    pub name: Option<String>,
    /// What `get_author` gave.
    pub author: Option<String>,
    /// What `get_description` gave.
    pub description: Option<String>,
    /// What `get_version` gave.
    pub version: Option<Version>,
    /// What `get_type` gave.
    pub backend_type: Option<Type>,
}

/// The view of an optional text.
pub open spec fn text_view(text: Option<String>) -> Option<Seq<char>> {
    match text {
        Some(s) => Some(s@),
        None => None,
    }
}

impl View for Exports {
    type V = ExportsView;

    open spec fn view(&self) -> ExportsView {
        ExportsView {
            name: text_view(self.name),
            author: text_view(self.author),
            description: text_view(self.description),
            version: self.version,
            backend_type: self.backend_type,
        }
    }
}

impl Exports {
    /// The first required entry point that the module lacks, if any.
    pub fn first_missing(&self) -> (missing: Option<EntryPoint>)
        ensures
            missing == self@.first_missing(),
    {
        if self.name.is_none() {
            Some(EntryPoint::GetName)
        } else if self.author.is_none() {
            Some(EntryPoint::GetAuthor)
        } else if self.description.is_none() {
            Some(EntryPoint::GetDescription)
        } else if self.version.is_none() {
            Some(EntryPoint::GetVersion)
        } else if self.backend_type.is_none() {
            Some(EntryPoint::GetType)
        } else {
            None
        }
    }

    /// Whether the module exports every required entry point.
    pub fn is_complete(&self) -> (complete: bool)
        ensures
            complete == (self@.first_missing() is None),
    {
        self.first_missing().is_none()
    }
}

/// What a [`Candidate`] holds, as plain text.
pub struct CandidateView {
    /// Where the file lies.
    pub path: Seq<char>,
    /// What the module exports, or `None` where it could not be loaded.
    pub module: Option<ExportsView>,
}

/// One file of the plugin directory that carries the platform's extension
/// for loadable modules, with what loading it gave.
#[derive(Debug)]
pub struct Candidate {
    /// Where the file lies.
    pub path: String,
    /// What the module exports, or `None` where it could not be loaded.
    pub module: Option<Exports>,
}

impl View for Candidate {
    type V = CandidateView;

    open spec fn view(&self) -> CandidateView {
        CandidateView {
            path: self.path@,
            module: match self.module {
                Some(m) => Some(m@),
                None => None,
            },
        }
    }
}

/// The views of a list of candidates, in order.
pub open spec fn candidate_views(candidates: Seq<Candidate>) -> Seq<CandidateView> {
    candidates.map_values(|c: Candidate| c@)
}

/// What the scan made of one candidate.
#[derive(Debug, Copy, Clone, PartialEq, Eq, Structural)]
pub enum Verdict {
    /// The module is complete and was added to the catalog.
    Added,
    /// The file could not be loaded as a module.
    LoadFailed,
    /// The module lacks this required entry point.
    Missing(EntryPoint),
    /// The catalog already holds an entry for this path.
    Duplicate,
}

/// Whether some entry of `catalog` lies at `path`.
pub open spec fn has_path(catalog: Seq<PluginView>, path: Seq<char>) -> bool {
    exists|i: int| 0 <= i < catalog.len() && #[trigger] catalog[i].path == path
}

/// Whether no two entries of `catalog` share a path.
pub open spec fn distinct_paths(catalog: Seq<PluginView>) -> bool {
    forall|i: int, j: int|
        0 <= i < j < catalog.len() ==> #[trigger] catalog[i].path != #[trigger] catalog[j].path
}

/// What the scan makes of `candidate` when the catalog so far is `catalog`.
pub open spec fn verdict(catalog: Seq<PluginView>, candidate: CandidateView) -> Verdict {
    match candidate.module {
        None => Verdict::LoadFailed,
        Some(module) => match module.first_missing() {
            Some(entry_point) => Verdict::Missing(entry_point),
            None => if has_path(catalog, candidate.path) {
                Verdict::Duplicate
            } else {
                Verdict::Added
            },
        },
    }
}

/// The catalog entry of a complete module: what its entry points gave, the
/// scanned path, and the state [`State::Unloaded`].
pub open spec fn descriptor(candidate: CandidateView) -> PluginView
    recommends
        candidate.module is Some,
        candidate.module->0.first_missing() is None,
{
    let module = candidate.module->0;
    PluginView {
        name: module.name->0,
        author: module.author->0,
        description: module.description->0,
        version: module.version->0,
        path: candidate.path,
        backend_type: module.backend_type->0,
        state: State::Unloaded,
    }
}

/// The catalog that a scan of `candidates` yields: the descriptors of the
/// candidates that are added, in the order of the candidates.
pub open spec fn scan(candidates: Seq<CandidateView>) -> Seq<PluginView>
    decreases candidates.len(),
{
    if candidates.len() == 0 {
        Seq::empty()
    } else {
        let before = scan(candidates.drop_last());
        if verdict(before, candidates.last()) == Verdict::Added {
            before.push(descriptor(candidates.last()))
        } else {
            before
        }
    }
}

/// Every catalog that a scan yields holds each path at most once.
pub proof fn lemma_scan_distinct_paths(candidates: Seq<CandidateView>)
    ensures
        distinct_paths(scan(candidates)),
    decreases candidates.len(),
{
    if candidates.len() > 0 {
        lemma_scan_distinct_paths(candidates.drop_last());
        let before = scan(candidates.drop_last());
        if verdict(before, candidates.last()) == Verdict::Added {
            let after = before.push(descriptor(candidates.last()));
            assert forall|i: int, j: int| 0 <= i < j < after.len() implies #[trigger] after[i].path
                != #[trigger] after[j].path by {
                if j == before.len() {
                    assert(before[i].path == after[i].path);
                } else {
                    assert(before[i].path != before[j].path);
                }
            }
        }
    }
}

} // verus!
