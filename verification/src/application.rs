//! The application on its own: a name and a version.

use vstd::prelude::*;
use vstd::string::*;

use crate::util::text::{decimal_text, push_decimal};

verus! {

/// The app version.
///
/// It is set by the app builder, part by part or as a whole. Once an app is
/// built, its version cannot be changed.
#[derive(Debug, Copy, Clone, PartialEq, Eq, Structural, Hash)]
pub struct AppVersion {
    /// The major version of the application
    pub major: i32,
    /// The minor version of the application
    pub minor: i32,
    /// The patch version of the application
    pub patch: i32,
}

impl AppVersion {
    /// The version as text: the three numbers in decimal notation, with a
    /// dot between them.
    pub open spec fn text(self) -> Seq<char> {
        decimal_text(self.major as int) + seq!['.'] + decimal_text(self.minor as int) + seq!['.']
            + decimal_text(self.patch as int)
    }

    /// Formats the version as a string, as in `1.4.2`.
    pub fn to_string(&self) -> (text: String)
        ensures
            text@ == self.text(),
    {
        proof {
            reveal_strlit(".");
        }
        let mut text = String::new();
        push_decimal(&mut text, self.major);
        text.append(".");
        push_decimal(&mut text, self.minor);
        text.append(".");
        push_decimal(&mut text, self.patch);
        assert(text@ =~= self.text());
        text
    }
}

/// The version that an app has unless its builder is told otherwise: the
/// version of this crate.
pub open spec fn crate_version() -> AppVersion {
    AppVersion { major: 0, minor: 1, patch: 0 }
}

/// The app: what is known of an application, its name and its version.
pub struct App {
    name: String,
    version: AppVersion,
}

impl App {
    /// The name of the application.
    pub closed spec fn name(&self) -> Seq<char> {
        self.name@
    }

    /// The version of the application.
    pub closed spec fn version(&self) -> AppVersion {
        self.version
    }

    /// Returns the name of the application
    pub fn get_name(&self) -> (name: String)
        ensures
            name@ == self.name(),
    {
        self.name.clone()
    }

    /// Returns the version of the application
    pub fn get_version(&self) -> (version: AppVersion)
        ensures
            version == self.version(),
    {
        self.version
    }
}

/// The app builder provides an easy and straightforward way of creating and
/// configuring a new app instance.
pub struct AppBuilder {
    name: String,
    version: AppVersion,
}

impl AppBuilder {
    /// The name that the builder holds.
    pub closed spec fn app_name(&self) -> Seq<char> {
        self.name@
    }

    /// The version that the builder holds.
    pub closed spec fn app_version(&self) -> AppVersion {
        self.version
    }

    /// Creates a new instance of the app builder: for the application
    /// `Ion App` in the version of this crate.
    pub fn new() -> (builder: AppBuilder)
        ensures
            builder.app_name() == "Ion App"@,
            builder.app_version() == crate_version(),
    {
        AppBuilder {
            name: "Ion App".to_string(),
            version: AppVersion { major: 0, minor: 1, patch: 0 },
        }
    }

    /// Builds the application
    pub fn build(&self) -> (app: App)
        ensures
            app.name() == self.app_name(),
            app.version() == self.app_version(),
    {
        App { name: self.name.clone(), version: self.version }
    }

    /// Sets the application name
    pub fn name(&mut self, name: String) -> (builder: &mut AppBuilder)
        ensures
            builder.app_name() == name@,
            builder.app_version() == old(self).app_version(),
            *final(self) == *final(builder),
    {
        self.name = name;
        self
    }

    /// Sets the version
    pub fn version(&mut self, major: i32, minor: i32, patch: i32) -> (builder: &mut AppBuilder)
        ensures
            builder.app_name() == old(self).app_name(),
            builder.app_version() == (AppVersion { major, minor, patch }),
            *final(self) == *final(builder),
    {
        self.version.major = major;
        self.version.minor = minor;
        self.version.patch = patch;
        self
    }

    /// Sets the major version
    pub fn version_major(&mut self, major: i32) -> (builder: &mut AppBuilder)
        ensures
            builder.app_name() == old(self).app_name(),
            builder.app_version() == (AppVersion { major, ..old(self).app_version() }),
            *final(self) == *final(builder),
    {
        self.version.major = major;
        self
    }

    /// Sets the minor version
    pub fn version_minor(&mut self, minor: i32) -> (builder: &mut AppBuilder)
        ensures
            builder.app_name() == old(self).app_name(),
            builder.app_version() == (AppVersion { minor, ..old(self).app_version() }),
            *final(self) == *final(builder),
    {
        self.version.minor = minor;
        self
    }

    /// Sets the patch version
    pub fn version_patch(&mut self, patch: i32) -> (builder: &mut AppBuilder)
        ensures
            builder.app_name() == old(self).app_name(),
            builder.app_version() == (AppVersion { patch, ..old(self).app_version() }),
            *final(self) == *final(builder),
    {
        self.version.patch = patch;
        self
    }
}

} // verus!
