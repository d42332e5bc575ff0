use vstd::prelude::*;
use vstd::string::*;

use crate::engine::app::{App, AppBuilder as ContextBuilder};
use crate::engine::app_info::AppInfoView;
use crate::engine::project_config::{untitled_project, ProjectConfig, ProjectConfigView};
use crate::util::platform::Platform;
use crate::util::version::Version;

verus! {

/// Used for building a new app instance from the identity of a project: its
/// name, its developer and its version.
///
/// The project's name and developer make the path of the persistent data
/// directory.
pub struct AppBuilder {
    project_name: String,
    project_developer: String,
    project_version: Version,
    platform: Platform,
}

impl AppBuilder {
    /// The project that the builder holds.
    pub closed spec fn project(&self) -> ProjectConfigView {
        ProjectConfigView {
            project_name: self.project_name@,
            project_developer: self.project_developer@,
            project_version: self.project_version,
        }
    }

    /// The platform whose plugin modules the app will search for.
    pub closed spec fn target(&self) -> Platform {
        self.platform
    }

    /// Returns a new app builder instance: for the project `Untitled` by
    /// `Unknown` in version `0.0.0`, on Linux.
    pub fn new() -> (builder: AppBuilder)
        ensures
            builder.project() == untitled_project(),
            builder.target() == Platform::Linux,
    {
        AppBuilder {
            project_name: "Untitled".to_string(),
            project_developer: "Unknown".to_string(),
            project_version: Version::new(),
            platform: Platform::Linux,
        }
    }

    /// Returns a builder that holds the project of a project
    /// configuration, on Linux.
    pub fn from_config(config: &ProjectConfig) -> (builder: AppBuilder)
        ensures
            builder.project() == config@,
            builder.target() == Platform::Linux,
    {
        AppBuilder {
            project_name: config.project_name.clone(),
            project_developer: config.project_developer.clone(),
            project_version: config.project_version,
            platform: Platform::Linux,
        }
    }

    /// Sets the app name.
    pub fn project_name(&mut self, name: &str) -> (builder: &mut Self)
        ensures
            builder.project() == (ProjectConfigView { project_name: name@, ..old(self).project() }),
            builder.target() == old(self).target(),
            *final(self) == *final(builder),
    {
        self.project_name = name.to_owned();
        self
    }

    /// Sets the app developer.
    pub fn project_developer(&mut self, developer: &str) -> (builder: &mut Self)
        ensures
            builder.project() == (ProjectConfigView {
                project_developer: developer@,
                ..old(self).project()
            }),
            builder.target() == old(self).target(),
            *final(self) == *final(builder),
    {
        self.project_developer = developer.to_owned();
        self
    }

    /// Sets the app version.
    pub fn project_version(&mut self, version: Version) -> (builder: &mut Self)
        ensures
            builder.project() == (ProjectConfigView {
                project_version: version,
                ..old(self).project()
            }),
            builder.target() == old(self).target(),
            *final(self) == *final(builder),
    {
        self.project_version = version;
        self
    }

    /// Sets the platform whose plugin modules the app will search for.
    pub fn platform(&mut self, platform: Platform) -> (builder: &mut Self)
        ensures
            builder.project() == old(self).project(),
            builder.target() == platform,
            *final(self) == *final(builder),
    {
        self.platform = platform;
        self
    }

    /// Builds the app: a context that carries the project's name, developer
    /// and version, names no publisher, and has not been initialized.
    /// Building an app initializes nothing.
    pub fn build(&self) -> (app: App)
        ensures
            app.info() == (AppInfoView {
                app_name: self.project().project_name,
                app_developer: self.project().project_developer,
                app_publisher: "Unknown"@,
                app_version: self.project().project_version,
            }),
            app.is_fresh(self.target()),
    {
        let mut builder = ContextBuilder::new();
        builder.name(self.project_name.as_str()).developer(self.project_developer.as_str()).version(
            self.project_version,
        ).platform(self.platform);
        builder.build()
    }
}

impl Default for AppBuilder {
    fn default() -> (builder: AppBuilder)
        ensures
            builder.project() == untitled_project(),
            builder.target() == Platform::Linux,
    {
        AppBuilder::new()
    }
}

} // verus!
