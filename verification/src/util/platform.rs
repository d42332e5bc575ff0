use vstd::prelude::*;

verus! {

/// The operating systems that the engine runs on.
#[derive(Debug, Copy, Clone, PartialEq, Eq, Structural)]
pub enum Platform {
    /// Microsoft Windows.
    Windows,
    /// Linux.
    Linux,
    /// Apple macOS.
    MacOs,
}

impl Platform {
    /// The file extension of loadable modules on this platform, dot included.
    pub open spec fn extension_text(self) -> Seq<char> {
        match self {
            Platform::Windows => ".dll"@,
            Platform::Linux => ".so"@,
            Platform::MacOs => ".dylib"@,
        }
    }

    /// The file extension of loadable modules on this platform, dot included.
    pub fn module_extension(self) -> (ext: &'static str)
        ensures
            ext@ == self.extension_text(),
    {
        match self {
            Platform::Windows => ".dll",
            Platform::Linux => ".so",
            Platform::MacOs => ".dylib",
        }
    }
}

} // verus!
