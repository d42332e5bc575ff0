use vstd::prelude::*;
use vstd::string::*;

use crate::util::text::{decimal_text, push_decimal};

verus! {

/// A semantic version: major, minor and patch number.
///
/// Versions are ordered by their major numbers, then by their minor
/// numbers, then by their patch numbers.
#[derive(Copy, Clone, Debug, PartialEq, Eq, Structural, PartialOrd, Ord, Hash)]
pub struct Version {
    /// The major version.
    pub major: i32,
    /// The minor version.
    pub minor: i32,
    /// The patch version.
    pub patch: i32,
}

impl Version {
    /// The version as text: the three numbers in decimal notation, with a
    /// dot between them.
    pub open spec fn text(self) -> Seq<char> {
        decimal_text(self.major as int) + seq!['.'] + decimal_text(self.minor as int) + seq!['.']
            + decimal_text(self.patch as int)
    }

    /// The version `0.0.0`.
    pub fn new() -> (v: Version)
        ensures
            v == (Version { major: 0, minor: 0, patch: 0 }),
    {
        Version { major: 0, minor: 0, patch: 0 }
    }

    /// Formats the version as a string, as in `1.4.2`.
    pub fn to_string(&self) -> (text: String)
        ensures
            text@ == self.text(),
    {
        proof {
            reveal_strlit(".");
        }
        let mut text = String::new();
        push_decimal(&mut text, self.major);
        text.append(".");
        push_decimal(&mut text, self.minor);
        text.append(".");
        push_decimal(&mut text, self.patch);
        assert(text@ =~= self.text());
        text
    }

    /// Whether `self` is an earlier version than `other`: the major numbers
    /// decide, then the minor numbers, then the patch numbers.
    pub open spec fn precedes(self, other: Version) -> bool {
        self.major < other.major || (self.major == other.major && (self.minor < other.minor || (
        self.minor == other.minor && self.patch < other.patch)))
    }

    /// Whether `self` is an earlier version than `other`.
    pub fn is_older_than(&self, other: &Version) -> (older: bool)
        ensures
            older == self.precedes(*other),
    {
        self.major < other.major || (self.major == other.major && (self.minor < other.minor || (
        self.minor == other.minor && self.patch < other.patch)))
    }
}

impl Default for Version {
    fn default() -> (v: Version)
        ensures
            v == (Version { major: 0, minor: 0, patch: 0 }),
    {
        Version::new()
    }
}

} // verus!
