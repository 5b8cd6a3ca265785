//! Everything that the command line asks for.

use crate::cli::action::Action;
use crate::cli::git_ops::GitOps;
use crate::cli::manifest::Manifest;
use crate::cli::suppress::Suppress;
use crate::cli::workspace::Workspace;
use crate::git::branch::Branch;
use crate::git::git_file::{git_files_text, GitFiles};
use crate::version::pre_release::Prerelease;
use crate::version::semantic::{BuildMetadata, Version};
use vstd::prelude::*;

verus! {

#[derive(Debug)]
pub struct Cli {
    /// Action to affect the package version.
    pub action: Action,
    /// Sets the pre-release segment for the new version.
    pub pre: Option<Prerelease>,
    /// Sets the build metadata for the new version.
    pub build: Option<BuildMetadata>,
    /// Runs the `cargo publish`
    pub cargo_publish: bool,
    /// What to suppress from stdout
    pub suppress: Suppress,
    /// Adds `--no-verify` to the cargo publish command.
    pub skip_verify: bool,
    /// Allows program to work in a dirty repo.
    pub allow_dirty: bool,
    pub git_ops: GitOps,
    /// All commands run as if they run in the directory of the Cargo.toml
    /// set.
    pub manifest: Manifest,
    pub workspace: Workspace,
    /// Bypass version bump checks.
    pub force_version: bool,
    /// Runs the release and takes back what can be taken back.
    pub dry_run: bool,
    /// New version to set. Ignored if action isn't set.
    pub set_version: Option<Version>,
    /// Display the tasks that will be run.
    pub display_tasks: bool,
}

/// The working directory holds changes that were not yet committed, and the
/// command line does not allow that.
#[derive(Debug)]
pub struct DirtyError {
    /// How many files hold changes.
    pub count: usize,
    /// The paths of those files, one to a line.
    pub files: String,
}

impl Cli {
    pub fn action(&self) -> (a: Action)
        ensures
            a == self.action,
    {
        self.action
    }

    pub fn allow_dirty(&self) -> (b: bool)
        ensures
            b == self.allow_dirty,
    {
        self.allow_dirty
    }

    /// Checks that the working directory may be as dirty as it is: either
    /// dirt is allowed, or no file holds changes.
    pub fn try_allow_dirty(&self, files: &GitFiles) -> (r: Result<(), DirtyError>)
        ensures
            r is Ok <==> self.allow_dirty || files@.len() == 0,
            r matches Err(e) ==> e.count == files@.len() && e.files@ == git_files_text(files@),
    {
        if self.allow_dirty {
            return Ok(());
        }
        let count = files.len();
        if count != 0 {
            Err(DirtyError { count, files: files.to_string() })
        } else {
            Ok(())
        }
    }

    pub fn dry_run(&self) -> (b: bool)
        ensures
            b == self.dry_run,
    {
        self.dry_run
    }

    pub fn git_message(&self) -> (m: Option<String>)
        ensures
            m == self.git_ops.message,
    {
        match &self.git_ops.message {
            Some(m) => Some(m.clone()),
            None => None,
        }
    }

    pub fn force_version(&self) -> (b: bool)
        ensures
            b == self.force_version,
    {
        self.force_version
    }

    pub fn git_tag(&self) -> (b: bool)
        ensures
            b == self.git_ops.git_tag,
    {
        self.git_ops.git_tag
    }

    pub fn git_push(&self) -> (b: bool)
        ensures
            b == self.git_ops.git_push,
    {
        self.git_ops.git_push
    }

    pub fn cargo_publish(&self) -> (b: bool)
        ensures
            b == self.cargo_publish,
    {
        self.cargo_publish
    }

    /// Whether `cargo publish` is to skip its checks.
    pub fn skip_verify(&self) -> (b: bool)
        ensures
            b == self.skip_verify,
    {
        self.skip_verify
    }

    pub fn git_branch(&self) -> (b: Branch)
        ensures
            b == self.git_ops.branch,
    {
        self.git_ops.branch()
    }

    pub fn is_current_branch(&self) -> (b: bool)
        ensures
            b == (self.git_ops.branch@ is Current),
    {
        self.git_ops.branch.is_current()
    }

    pub fn display_tasks(&self) -> (b: bool)
        ensures
            b == self.display_tasks,
    {
        self.display_tasks
    }

    pub fn suppress(&self) -> (s: Suppress)
        ensures
            s == self.suppress,
    {
        self.suppress
    }

    pub fn workspace(&self) -> (w: &Workspace)
        ensures
            *w == self.workspace,
    {
        &self.workspace
    }

    pub fn workspace_package(&self) -> (b: bool)
        ensures
            b == self.workspace.workspace_package,
    {
        self.workspace.workspace_package
    }

    pub fn pre(&self) -> (p: Option<&Prerelease>)
        ensures
            match p {
                Some(x) => self.pre == Some(*x),
                None => self.pre is None,
            },
    {
        self.pre.as_ref()
    }

    pub fn build(&self) -> (b: Option<&BuildMetadata>)
        ensures
            match b {
                Some(x) => self.build == Some(*x),
                None => self.build is None,
            },
    {
        self.build.as_ref()
    }

    pub fn set_version(&self) -> (v: Option<Version>)
        ensures
            match v {
                Some(x) => self.set_version matches Some(y) && x@ == y@,
                None => self.set_version is None,
            },
    {
        match &self.set_version {
            Some(v) => Some(v.clone()),
            None => None,
        }
    }
}

} // verus!
