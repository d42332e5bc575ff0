use vstd::prelude::*;
use vstd::string::*;

use crate::util::version::Version;

verus! {

/// What an [`AppInfo`] holds, as plain text.
pub struct AppInfoView {
    /// The application name.
    pub app_name: Seq<char>,
    /// The application author.
    pub app_developer: Seq<char>,
    /// The application publisher.
    pub app_publisher: Seq<char>,
    /// The application version.
    pub app_version: Version,
}

/// Stores the application information: the name of the application, the
/// developer, the publisher, and the version.
#[derive(Debug)]
pub struct AppInfo {
    /// The application name.
    pub app_name: String,
    /// The application author.
    pub app_developer: String,
    /// The application publisher.
    pub app_publisher: String,
    /// The application version.
    pub app_version: Version,
}

impl View for AppInfo {
    type V = AppInfoView;

    open spec fn view(&self) -> AppInfoView {
        AppInfoView {
            app_name: self.app_name@,
            app_developer: self.app_developer@,
            app_publisher: self.app_publisher@,
            app_version: self.app_version,
        }
    }
}

/// The information of an application of which nothing is known.
pub open spec fn unknown_app() -> AppInfoView {
    AppInfoView {
        app_name: "Unknown"@,
        app_developer: "Unknown"@,
        app_publisher: "Unknown"@,
        app_version: Version { major: 0, minor: 0, patch: 0 },
    }
}

impl AppInfo {
    /// Returns a new App Info instance, with every name `Unknown` and the
    /// version `0.0.0`.
    pub fn new() -> (info: AppInfo)
        ensures
            info@ == unknown_app(),
    {
        AppInfo {
            app_name: "Unknown".to_string(),
            app_developer: "Unknown".to_string(),
            app_publisher: "Unknown".to_string(),
            app_version: Version::new(),
        }
    }
}

impl Default for AppInfo {
    fn default() -> (info: AppInfo)
        ensures
            info@ == unknown_app(),
    {
        AppInfo::new()
    }
}

impl Clone for AppInfo {
    fn clone(&self) -> (copy: AppInfo)
        ensures
            copy@ == self@,
    {
        AppInfo {
            app_name: self.app_name.clone(),
            app_developer: self.app_developer.clone(),
            app_publisher: self.app_publisher.clone(),
            app_version: self.app_version,
        }
    }
}

} // verus!
