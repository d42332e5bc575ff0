//! Small building blocks shared by the rest of the crate.

pub mod directory;
pub mod platform;
pub mod text;
pub mod version;

pub use self::directory::{
    Directory, DirectoryAction, DirectoryError, DirectoryReport, DirectoryRole, DirectoryStatus,
};
pub use self::platform::Platform;
pub use self::version::Version;
