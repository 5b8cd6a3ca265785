//! Version management for multi-package workspaces: semantic-version bumps,
//! package selection, and the ordered batch of release tasks.

pub mod cargo;
pub mod cli;
pub mod collections;
pub mod error;
pub mod git;
pub mod manifest;
pub mod packages;
pub mod paths;
pub mod process;
pub mod tasks;
pub mod text;
pub mod version;


pub use cargo::Cargo;
pub use cli::{Action, Cli};
pub use git::{Branch, Git, GitBuilder, GitFile, GitFiles, NoRootDirSet, Stash};
pub use process::{OutputExt, Process, ProcessOutput};
pub use error::{ManifestNotFoundError, VersionError, VersionErrorKind};
pub use version::{Bumpable, Incrementable, Setable};
pub use manifest::error::{
    CargoFileError, CargoFileErrorKind, ItemType, VersionLocationErrorKind, VersionlocationError,
};
pub use manifest::toml_file::{CargoFile, ReadToml, UnreadToml};
pub use manifest::version_location::{VersionLocation, VersionType};
pub use packages::{Package, PackageError, PackageName, Packages};
pub use tasks::{DisplayTasks, Task, TaskError, Tasks};
