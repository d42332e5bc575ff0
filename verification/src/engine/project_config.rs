use vstd::prelude::*;
use vstd::string::*;

use crate::util::version::Version;

verus! {

/// What a [`ProjectConfig`] holds, as plain text.
pub struct ProjectConfigView {
    /// The project name.
    pub project_name: Seq<char>,
    /// The project developer.
    pub project_developer: Seq<char>,
    /// The project version.
    pub project_version: Version,
}

/// Used for the loading and saving of the project configuration.
#[derive(Debug)]
pub struct ProjectConfig {
    /// The project name.
    pub project_name: String,
    /// The project developer.
    pub project_developer: String,
    /// The project version.
    pub project_version: Version,
}

impl View for ProjectConfig {
    type V = ProjectConfigView;

    open spec fn view(&self) -> ProjectConfigView {
        ProjectConfigView {
            project_name: self.project_name@,
            project_developer: self.project_developer@,
            project_version: self.project_version,
        }
    }
}

/// The configuration of a project that nobody configured.
pub open spec fn untitled_project() -> ProjectConfigView {
    ProjectConfigView {
        project_name: "Untitled"@,
        project_developer: "Unknown"@,
        project_version: Version { major: 0, minor: 0, patch: 0 },
    }
}

impl ProjectConfig {
    /// Returns a new instance of the Project Config: the project
    /// `Untitled` by `Unknown`, in version `0.0.0`.
    pub fn new() -> (config: ProjectConfig)
        ensures
            config@ == untitled_project(),
    {
        ProjectConfig {
            project_name: "Untitled".to_string(),
            project_developer: "Unknown".to_string(),
            project_version: Version::new(),
        }
    }
}

impl Default for ProjectConfig {
    fn default() -> (config: ProjectConfig)
        ensures
            config@ == untitled_project(),
    {
        ProjectConfig::new()
    }
}

} // verus!
