//! What the command line asks of git.

use crate::git::branch::Branch;
use vstd::prelude::*;

verus! {

#[derive(Debug)]
pub struct GitOps {
    /// Create a git tag. After changing the version, the Cargo.toml and
    /// Cargo.lock are committed and the tag is made on this new commit.
    pub git_tag: bool,
    /// Push tag to the branch's remote repositories.
    pub git_push: bool,
    /// Message for git commit. Defaults to the git tag.
    pub message: Option<String>,
    /// Pass force into all git operations.
    pub force: bool,
    /// Used to change branch for the execution of the program. Defaults to
    /// the current branch.
    pub branch: Branch,
}

impl GitOps {
    pub fn branch(&self) -> (b: Branch)
        ensures
            b == self.branch,
    {
        self.branch.clone()
    }
}

} // verus!
