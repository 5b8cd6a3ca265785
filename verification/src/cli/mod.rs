//! What the command line asks for, as plain values.

pub mod action;
#[allow(clippy::module_inception)]
pub mod cli;
pub mod git_ops;
pub mod manifest;
pub mod suppress;
pub mod workspace;

pub use action::Action;
pub use cli::{Cli, DirtyError};
pub use git_ops::GitOps;
pub use manifest::Manifest;
pub use suppress::Suppress;
pub use workspace::{PackagesCli, PackagesCliModifier, Workspace};
