use crate::cli::action::Action;
use crate::git::branch::{Branch, BranchView};
use crate::git::git::Stash;
use crate::packages::PackageName;
use crate::text::{clone_strings, str_eq, strings_view};
use crate::version::semantic::{Version, VersionView};
use vstd::prelude::*;
use vstd::std_specs::cmp::PartialEqSpecImpl;

verus! {

/// One atomic operation of a release.
#[derive(Debug, Hash)]
pub enum Task {
    // Display
    DisplayVersion(PackageName),
    WorkspaceTree,
    // Version adjustment
    SetVersion { package_name: PackageName, new_version: Version },
    SetWorkspace { new_version: Version },
    Bump { package_name: PackageName, bump: Action, new_version: Version },
    BumpWorkspace { bump: Action, new_version: Version },
    // Git
    GitStash { branch: Branch, stash: Stash },
    GitAdd(Vec<String>),
    GitCommit,
    GitPush { remote: String, tag: String },
    GitSwitchBranch { to: Branch, from: Branch },
    GitTag(Version),
    DeleteGitTag(Version),
    // Cargo
    WriteCargoToml(PackageName),
    CargoPublish,
    CargoGenerateLock,
}

/// A task as a mathematical value.
pub enum TaskView {
    DisplayVersion(Seq<char>),
    WorkspaceTree,
    SetVersion { package_name: Seq<char>, new_version: VersionView },
    SetWorkspace { new_version: VersionView },
    Bump { package_name: Seq<char>, bump: Action, new_version: VersionView },
    BumpWorkspace { bump: Action, new_version: VersionView },
    GitStash { branch: BranchView, stash: Stash },
    GitAdd(Seq<Seq<char>>),
    GitCommit,
    GitPush { remote: Seq<char>, tag: Seq<char> },
    GitSwitchBranch { to: BranchView, from: BranchView },
    GitTag(VersionView),
    DeleteGitTag(VersionView),
    WriteCargoToml(Seq<char>),
    CargoPublish,
    CargoGenerateLock,
}

impl View for Task {
    type V = TaskView;

    open spec fn view(&self) -> TaskView {
        match self {
            Task::DisplayVersion(n) => TaskView::DisplayVersion(n@),
            Task::WorkspaceTree => TaskView::WorkspaceTree,
            Task::SetVersion { package_name, new_version } => TaskView::SetVersion {
                package_name: package_name@,
                new_version: new_version@,
            },
            Task::SetWorkspace { new_version } => TaskView::SetWorkspace {
                new_version: new_version@,
            },
            Task::Bump { package_name, bump, new_version } => TaskView::Bump {
                package_name: package_name@,
                bump: *bump,
                new_version: new_version@,
            },
            Task::BumpWorkspace { bump, new_version } => TaskView::BumpWorkspace {
                bump: *bump,
                new_version: new_version@,
            },
            Task::GitStash { branch, stash } => TaskView::GitStash {
                branch: branch@,
                stash: *stash,
            },
            Task::GitAdd(paths) => TaskView::GitAdd(strings_view(paths@)),
            Task::GitCommit => TaskView::GitCommit,
            Task::GitPush { remote, tag } => TaskView::GitPush { remote: remote@, tag: tag@ },
            Task::GitSwitchBranch { to, from } => TaskView::GitSwitchBranch {
                to: to@,
                from: from@,
            },
            Task::GitTag(v) => TaskView::GitTag(v@),
            Task::DeleteGitTag(v) => TaskView::DeleteGitTag(v@),
            Task::WriteCargoToml(n) => TaskView::WriteCargoToml(n@),
            Task::CargoPublish => TaskView::CargoPublish,
            Task::CargoGenerateLock => TaskView::CargoGenerateLock,
        }
    }
}

impl TaskView {
    /// Whether the task changes the version of a package or of the
    /// workspace.
    pub open spec fn is_version_change(&self) -> bool {
        self is SetVersion || self is Bump || self is BumpWorkspace || self is SetWorkspace
    }

    /// Whether the task is a cleanup: it is left out of the main pass and
    /// runs only after every other task has completed. Deleting a tag is the
    /// one such task.
    pub open spec fn is_run_after_completed(&self) -> bool {
        self is DeleteGitTag
    }
}

impl Clone for Task {
    fn clone(&self) -> (r: Self)
        ensures
            r@ == self@,
    {
        match self {
            Task::DisplayVersion(n) => Task::DisplayVersion(n.clone()),
            Task::WorkspaceTree => Task::WorkspaceTree,
            Task::SetVersion { package_name, new_version } => Task::SetVersion {
                package_name: package_name.clone(),
                new_version: new_version.clone(),
            },
            Task::SetWorkspace { new_version } => Task::SetWorkspace {
                new_version: new_version.clone(),
            },
            Task::Bump { package_name, bump, new_version } => Task::Bump {
                package_name: package_name.clone(),
                bump: *bump,
                new_version: new_version.clone(),
            },
            Task::BumpWorkspace { bump, new_version } => Task::BumpWorkspace {
                bump: *bump,
                new_version: new_version.clone(),
            },
            Task::GitStash { branch, stash } => Task::GitStash {
                branch: branch.clone(),
                stash: *stash,
            },
            Task::GitAdd(paths) => Task::GitAdd(clone_strings(paths)),
            Task::GitCommit => Task::GitCommit,
            Task::GitPush { remote, tag } => Task::GitPush {
                remote: remote.clone(),
                tag: tag.clone(),
            },
            Task::GitSwitchBranch { to, from } => Task::GitSwitchBranch {
                to: to.clone(),
                from: from.clone(),
            },
            Task::GitTag(v) => Task::GitTag(v.clone()),
            Task::DeleteGitTag(v) => Task::DeleteGitTag(v.clone()),
            Task::WriteCargoToml(n) => Task::WriteCargoToml(n.clone()),
            Task::CargoPublish => Task::CargoPublish,
            Task::CargoGenerateLock => Task::CargoGenerateLock,
        }
    }
}

/// Whether two lists of strings hold the same texts in the same order.
fn string_lists_equal(a: &Vec<String>, b: &Vec<String>) -> (r: bool)
    ensures
        r == (strings_view(a@) == strings_view(b@)),
{
    if a.len() != b.len() {
        assert(strings_view(a@).len() != strings_view(b@).len());
        return false;
    }
    let mut i: usize = 0;
    while i < a.len()
        invariant
            i <= a.len(),
            a.len() == b.len(),
            forall|j: int| 0 <= j < i ==> a@[j]@ == b@[j]@,
        decreases a.len() - i,
    {
        if !str_eq(a[i].as_str(), b[i].as_str()) {
            assert(strings_view(a@)[i as int] == a@[i as int]@);
            assert(strings_view(b@)[i as int] == b@[i as int]@);
            return false;
        }
        i += 1;
    }
    assert(strings_view(a@) =~= strings_view(b@));
    true
}

impl PartialEq for Task {
    fn eq(&self, other: &Self) -> (r: bool) {
        match (self, other) {
            (Task::DisplayVersion(a), Task::DisplayVersion(b)) => a == b,
            (Task::WorkspaceTree, Task::WorkspaceTree) => true,
            (
                Task::SetVersion { package_name: n1, new_version: v1 },
                Task::SetVersion { package_name: n2, new_version: v2 },
            ) => n1 == n2 && v1 == v2,
            (Task::SetWorkspace { new_version: v1 }, Task::SetWorkspace { new_version: v2 }) => v1
                == v2,
            (
                Task::Bump { package_name: n1, bump: b1, new_version: v1 },
                Task::Bump { package_name: n2, bump: b2, new_version: v2 },
            ) => n1 == n2 && *b1 == *b2 && v1 == v2,
            (
                Task::BumpWorkspace { bump: b1, new_version: v1 },
                Task::BumpWorkspace { bump: b2, new_version: v2 },
            ) => *b1 == *b2 && v1 == v2,
            (
                Task::GitStash { branch: b1, stash: s1 },
                Task::GitStash { branch: b2, stash: s2 },
            ) => b1 == b2 && *s1 == *s2,
            (Task::GitAdd(a), Task::GitAdd(b)) => string_lists_equal(a, b),
            (Task::GitCommit, Task::GitCommit) => true,
            (
                Task::GitPush { remote: r1, tag: t1 },
                Task::GitPush { remote: r2, tag: t2 },
            ) => str_eq(r1.as_str(), r2.as_str()) && str_eq(t1.as_str(), t2.as_str()),
            (
                Task::GitSwitchBranch { to: t1, from: f1 },
                Task::GitSwitchBranch { to: t2, from: f2 },
            ) => t1 == t2 && f1 == f2,
            (Task::GitTag(a), Task::GitTag(b)) => a == b,
            (Task::DeleteGitTag(a), Task::DeleteGitTag(b)) => a == b,
            (Task::WriteCargoToml(a), Task::WriteCargoToml(b)) => a == b,
            (Task::CargoPublish, Task::CargoPublish) => true,
            (Task::CargoGenerateLock, Task::CargoGenerateLock) => true,
            _ => false,
        }
    }
}

impl Eq for Task {

}

impl PartialEqSpecImpl for Task {
    open spec fn obeys_eq_spec() -> bool {
        true
    }

    open spec fn eq_spec(&self, other: &Self) -> bool {
        self@ == other@
    }
}

impl Task {
    pub fn as_git_push(&self) -> (r: Option<&Task>)
        ensures
            r is Some <==> self@ is GitPush,
            r is Some ==> r->0@ == self@,
    {
        match self {
            Task::GitPush { .. } => Some(self),
            _ => None,
        }
    }

    pub fn is_version_change(&self) -> (b: bool)
        ensures
            b == self@.is_version_change(),
    {
        match self {
            Task::SetVersion { .. }
            | Task::Bump { .. }
            | Task::BumpWorkspace { .. }
            | Task::SetWorkspace { .. } => true,
            _ => false,
        }
    }

    /// Returns `true` if the task is [`Task::DeleteGitTag`].
    #[must_use]
    pub fn is_delete_git_tag(&self) -> (b: bool)
        ensures
            b == (self@ is DeleteGitTag),
    {
        matches!(self, Self::DeleteGitTag(..))
    }

    /// Returns `true` if the task is [`Task::DisplayVersion`].
    #[must_use]
    pub fn is_display_version(&self) -> (b: bool)
        ensures
            b == (self@ is DisplayVersion),
    {
        matches!(self, Self::DisplayVersion(..))
    }

    /// Returns `true` if the task is [`Task::GitPush`].
    #[must_use]
    pub fn is_git_push(&self) -> (b: bool)
        ensures
            b == (self@ is GitPush),
    {
        matches!(self, Self::GitPush { .. })
    }

    /// Returns `true` if the task is [`Task::GitSwitchBranch`].
    #[must_use]
    pub fn is_git_switch_branch(&self) -> (b: bool)
        ensures
            b == (self@ is GitSwitchBranch),
    {
        matches!(self, Self::GitSwitchBranch { .. })
    }

    /// Whether the task runs only after every other task has completed.
    pub fn is_run_after_completed(&self) -> (b: bool)
        ensures
            b == self@.is_run_after_completed(),
    {
        self.is_delete_git_tag()
    }
}

} // verus!
