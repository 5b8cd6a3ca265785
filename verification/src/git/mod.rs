//! Source control: branches, the files that `git status` lists, and the
//! commands that a release runs.

pub mod branch;
#[allow(clippy::module_inception)]
pub mod git;
pub mod git_file;

pub use branch::Branch;
pub use git::Git;
pub use git::GitBuilder;
pub use git::GitError;
pub use git::NoRootDirSet;
pub use git::Stash;
pub use git_file::GitFile;
pub use git_file::GitFiles;
