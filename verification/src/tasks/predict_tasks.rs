//! How the batch of tasks is generated from what the command line asks for
//! and from the workspace. Nothing is run and nothing is changed here: a
//! fault of selection or of the version algebra ends the generation before
//! any task exists.

use crate::cli::action::Action;
use crate::cli::cli::{Cli, DirtyError};
use crate::cli::workspace::{excluded_packages, included_packages};
use crate::collections::entries_inserted;
use crate::error::{VersionError, VersionErrorKind};
use crate::git::branch::{Branch, BranchView};
use crate::git::git::Stash;
use crate::git::git_file::GitFiles;
use crate::manifest::toml_file::ReadToml;
use crate::manifest::version_location::VersionType;
use crate::packages::{
    package_names, packages_view, Package, PackageName, PackageView, Packages, PackagesView,
};
use crate::paths::{relative_path, relative_to};
use crate::process::Child;
use crate::tasks::task::{Task, TaskView};
use crate::tasks::tasks::{tasks_root_version, tasks_view, Tasks, TasksView};
use crate::text::{copy_str, strings_view};
use crate::version::extensions::{
    checked_bump_result, option_build_view, option_prerelease_view,
};
use crate::version::identifiers::IdentifierView;
use crate::version::pre_release::Prerelease;
use crate::version::semantic::{version_text, BuildMetadata, Version, VersionView};
use vstd::prelude::*;

verus! {

/// What surrounds the generation of tasks: the directory that paths are
/// written from, and what git says about the repository.
#[derive(Debug)]
pub struct Surroundings {
    /// The working directory.
    pub cwd: String,
    /// The files that hold changes.
    pub dirty_files: GitFiles,
    /// The branch that is checked out.
    pub current_branch: Branch,
    /// The remotes of the current branch.
    pub remotes: Vec<String>,
}

/// Why no batch of tasks could be generated, without the details.
#[derive(Debug, Clone, Copy, PartialEq, Eq, Structural)]
pub enum GenerateFault {
    /// The working directory holds changes, and that is not allowed.
    Dirty,
    /// No package is selected.
    NoPackages,
    /// A version could not be bumped.
    Version(VersionErrorKind),
    /// The version is to be set, and no version was given.
    MissingVersion,
    /// The version of the workspace is to be changed, and the workspace
    /// declares none.
    NoWorkspacePackage,
    /// No version stands for the whole workspace.
    NoRootVersion,
}

/// Why no batch of tasks could be generated.
#[derive(Debug)]
pub enum GenerateError {
    Dirty(DirtyError),
    /// No packages to modify; these are the names of the packages that are
    /// not selected.
    NoPackages { excluded: Vec<String> },
    Version(VersionError),
    MissingVersion,
    NoWorkspacePackage,
    NoRootVersion,
}

impl GenerateError {
    /// The fault that the error stands for.
    pub open spec fn fault(&self) -> GenerateFault {
        match self {
            GenerateError::Dirty(_) => GenerateFault::Dirty,
            GenerateError::NoPackages { .. } => GenerateFault::NoPackages,
            GenerateError::Version(e) => GenerateFault::Version(e.kind),
            GenerateError::MissingVersion => GenerateFault::MissingVersion,
            GenerateError::NoWorkspacePackage => GenerateFault::NoWorkspacePackage,
            GenerateError::NoRootVersion => GenerateFault::NoRootVersion,
        }
    }
}

/// The version that may be given, as a mathematical value.
pub open spec fn option_version_view(v: Option<Version>) -> Option<VersionView> {
    match v {
        Some(v) => Some(v@),
        None => None,
    }
}

/// The task that an action asks of a package: a bump with the version that
/// the bump gives, a set with the version given, or a display.
pub open spec fn task_for(
    action: Action,
    package: PackageView,
    set_version: Option<VersionView>,
    pre_release: Option<Seq<IdentifierView>>,
    build: Option<Seq<char>>,
    force_version: bool,
) -> Result<TaskView, GenerateFault> {
    match action {
        Action::Pre | Action::Patch | Action::Minor | Action::Major => match checked_bump_result(
            package.version,
            action,
            pre_release,
            build,
            force_version,
        ) {
            Ok(v) => Ok(
                TaskView::Bump { package_name: package.name, bump: action, new_version: v },
            ),
            Err(kind) => Err(GenerateFault::Version(kind)),
        },
        Action::SetVersion => match set_version {
            Some(v) => Ok(TaskView::SetVersion { package_name: package.name, new_version: v }),
            None => Err(GenerateFault::MissingVersion),
        },
        Action::Tree => Ok(TaskView::WorkspaceTree),
        Action::Print => Ok(TaskView::DisplayVersion(package.name)),
    }
}

/// The task that an action asks of the version that the workspace declares.
pub open spec fn workspace_task_for(
    action: Action,
    package: PackageView,
    set_version: Option<VersionView>,
    pre_release: Option<Seq<IdentifierView>>,
    build: Option<Seq<char>>,
    force_version: bool,
) -> Result<TaskView, GenerateFault> {
    match action {
        Action::Pre | Action::Patch | Action::Minor | Action::Major => match checked_bump_result(
            package.version,
            action,
            pre_release,
            build,
            force_version,
        ) {
            Ok(v) => Ok(TaskView::BumpWorkspace { bump: action, new_version: v }),
            Err(kind) => Err(GenerateFault::Version(kind)),
        },
        Action::SetVersion => match set_version {
            Some(v) => Ok(TaskView::SetWorkspace { new_version: v }),
            None => Err(GenerateFault::MissingVersion),
        },
        Action::Tree => Ok(TaskView::WorkspaceTree),
        Action::Print => Ok(TaskView::DisplayVersion("workspace.package"@)),
    }
}

/// A task, followed by the writing of the manifest of the package where the
/// task changes a version and the run is no dry run.
pub open spec fn with_write(task: TaskView, name: Seq<char>, dry_run: bool) -> Seq<TaskView> {
    if !dry_run && task.is_version_change() {
        seq![task, TaskView::WriteCargoToml(name)]
    } else {
        seq![task]
    }
}

/// The tasks that open the batch where another branch than the current one
/// is asked for: a stash where files hold changes, then the switch.
pub open spec fn opening_tasks(target: BranchView, current: BranchView, dirty: bool) -> Seq<
    TaskView,
> {
    if target is Named && target != current {
        (if dirty {
            seq![TaskView::GitStash { branch: current, stash: Stash::Stash }]
        } else {
            Seq::<TaskView>::empty()
        }) + seq![TaskView::GitSwitchBranch { to: target, from: current }]
    } else {
        Seq::<TaskView>::empty()
    }
}

/// The tasks that close the batch where the branch was switched: the switch
/// back, then the end of the stash where there was one.
pub open spec fn reverting_tasks(target: BranchView, current: BranchView, dirty: bool) -> Seq<
    TaskView,
> {
    if target is Named && target != current {
        seq![TaskView::GitSwitchBranch { to: current, from: target }] + (if dirty {
            seq![TaskView::GitStash { branch: current, stash: Stash::Unstash }]
        } else {
            Seq::<TaskView>::empty()
        })
    } else {
        Seq::<TaskView>::empty()
    }
}

/// The tasks of one selected package: none for a package that inherits its
/// version, else its task and the writing of its manifest.
pub open spec fn package_step(cli: Cli, package: PackageView) -> Result<
    Seq<TaskView>,
    GenerateFault,
> {
    if package.version_type == VersionType::SetByWorkspace {
        Ok(Seq::<TaskView>::empty())
    } else {
        match task_for(
            cli.action,
            package,
            option_version_view(cli.set_version),
            option_prerelease_view(cli.pre),
            option_build_view(cli.build),
            cli.force_version,
        ) {
            Ok(task) => Ok(with_write(task, package.name, cli.dry_run)),
            Err(e) => Err(e),
        }
    }
}

/// The tasks of the selected packages, in their order, or the fault of the
/// first package that has one.
pub open spec fn package_tasks(cli: Cli, included: Seq<PackageView>) -> Result<
    Seq<TaskView>,
    GenerateFault,
>
    decreases included.len(),
{
    if included.len() == 0 {
        Ok(Seq::<TaskView>::empty())
    } else {
        match package_tasks(cli, included.drop_last()) {
            Err(e) => Err(e),
            Ok(before) => match package_step(cli, included.last()) {
                Err(e) => Err(e),
                Ok(more) => Ok(before + more),
            },
        }
    }
}

/// The manifests of the selected packages that declare their own version.
pub open spec fn package_paths(included: Seq<PackageView>) -> Seq<Seq<char>>
    decreases included.len(),
{
    if included.len() == 0 {
        Seq::<Seq<char>>::empty()
    } else if included.last().version_type == VersionType::SetByWorkspace {
        package_paths(included.drop_last())
    } else {
        package_paths(included.drop_last()).push(included.last().manifest_path)
    }
}

/// Whether a selected package inherits its version from the workspace.
pub open spec fn any_inherited(included: Seq<PackageView>) -> bool {
    exists|i: int|
        0 <= i < included.len() && (#[trigger] included[i]).version_type
            == VersionType::SetByWorkspace
}

/// The tasks for the version that the workspace declares. There are some
/// where the command line asks for them or a selected package inherits its
/// version; the workspace must then declare a version.
pub open spec fn workspace_tasks(cli: Cli, w: PackagesView, included: Seq<PackageView>) -> Result<
    Seq<TaskView>,
    GenerateFault,
> {
    if !(cli.workspace.workspace_package || any_inherited(included)) {
        Ok(Seq::<TaskView>::empty())
    } else if w.workspace_package is None {
        Err(GenerateFault::NoWorkspacePackage)
    } else {
        match workspace_task_for(
            cli.action,
            w.workspace_package->0,
            option_version_view(cli.set_version),
            option_prerelease_view(cli.pre),
            option_build_view(cli.build),
            cli.force_version,
        ) {
            Ok(task) => Ok(with_write(task, w.workspace_package->0.name, cli.dry_run)),
            Err(e) => Err(e),
        }
    }
}

/// The paths as they are written from the working directory.
pub open spec fn relative_paths(paths: Seq<Seq<char>>, cwd: Seq<char>) -> Seq<Seq<char>> {
    paths.map_values(|p: Seq<char>| relative_to(p, cwd))
}

/// One push of the tag for each remote.
pub open spec fn push_tasks(remotes: Seq<Seq<char>>, tag: Seq<char>) -> Seq<TaskView> {
    remotes.map_values(|r: Seq<char>| TaskView::GitPush { remote: r, tag })
}

/// The tasks of the release itself, for the version that stands for the
/// workspace: with a tag, the lockfile is written anew, the manifests and
/// the lockfile are added, committed and tagged, and the tag is pushed to
/// each remote where a push is asked for; then the publishing; then, in a
/// dry run, the deleting of the tag, which is a cleanup.
pub open spec fn release_tasks(
    cli: Cli,
    cwd: Seq<char>,
    remotes: Seq<Seq<char>>,
    paths: Seq<Seq<char>>,
    lock: Seq<char>,
    version: VersionView,
) -> Seq<TaskView> {
    (if cli.git_ops.git_tag {
        seq![
            TaskView::CargoGenerateLock,
            TaskView::GitAdd(relative_paths(paths.push(lock), cwd)),
            TaskView::GitCommit,
            TaskView::GitTag(version),
        ] + (if cli.git_ops.git_push {
            push_tasks(remotes, version_text(version))
        } else {
            Seq::<TaskView>::empty()
        })
    } else {
        Seq::<TaskView>::empty()
    }) + (if cli.cargo_publish {
        seq![TaskView::CargoPublish]
    } else {
        Seq::<TaskView>::empty()
    }) + (if cli.dry_run {
        seq![TaskView::DeleteGitTag(version)]
    } else {
        Seq::<TaskView>::empty()
    })
}

/// The entries after the given tasks were inserted without process, in
/// order.
pub open spec fn entries_queued(entries: Seq<(TaskView, Option<Child>)>, keys: Seq<TaskView>) -> Seq<
    (TaskView, Option<Child>),
>
    decreases keys.len(),
{
    if keys.len() == 0 {
        entries
    } else {
        entries_inserted(entries_queued(entries, keys.drop_last()), keys.last(), None)
    }
}

/// Queuing tasks and then more tasks is queuing them all.
pub proof fn lemma_entries_queued(
    entries: Seq<(TaskView, Option<Child>)>,
    a: Seq<TaskView>,
    b: Seq<TaskView>,
)
    ensures
        entries_queued(entries_queued(entries, a), b) == entries_queued(entries, a + b),
    decreases b.len(),
{
    if b.len() == 0 {
        assert(a + b == a);
    } else {
        lemma_entries_queued(entries, a, b.drop_last());
        assert((a + b).drop_last() == a + b.drop_last());
        assert((a + b).last() == b.last());
    }
}

/// The tasks that come before the version of the workspace is resolved: the
/// opening, the tasks of the selected packages, and the tasks of the
/// workspace. No package selected is a fault.
pub open spec fn planned_changes(cli: Cli, w: PackagesView, env: Surroundings) -> Result<
    Seq<TaskView>,
    GenerateFault,
> {
    let included = included_packages(cli.workspace, w);
    if included.len() == 0 {
        Err(GenerateFault::NoPackages)
    } else {
        match package_tasks(cli, included) {
            Err(e) => Err(e),
            Ok(of_packages) => match workspace_tasks(cli, w, included) {
                Err(e) => Err(e),
                Ok(of_workspace) => Ok(
                    opening_tasks(
                        cli.git_ops.branch@,
                        env.current_branch@,
                        env.dirty_files@.len() > 0,
                    ) + of_packages + of_workspace,
                ),
            },
        }
    }
}

/// The batch that holds the given tasks, none of them started or completed.
pub open spec fn queued_batch(w: PackagesView, keys: Seq<TaskView>) -> TasksView {
    TasksView {
        tasks: entries_queued(Seq::<(TaskView, Option<Child>)>::empty(), keys),
        completed: Seq::<TaskView>::empty(),
        packages: w,
    }
}

/// The tasks of the whole batch, in the order in which they are inserted:
/// the changes; then, for the version that stands for the workspace once
/// the changes have run, the tasks of the release; then the way back to the
/// branch that was left.
pub open spec fn planned_tasks(cli: Cli, w: PackagesView, lock: Seq<char>, env: Surroundings) -> Result<
    Seq<TaskView>,
    GenerateFault,
> {
    if !(cli.allow_dirty || env.dirty_files@.len() == 0) {
        Err(GenerateFault::Dirty)
    } else {
        match planned_changes(cli, w, env) {
            Err(e) => Err(e),
            Ok(changes) => match tasks_root_version(queued_batch(w, changes)) {
                None => Err(GenerateFault::NoRootVersion),
                Some(version) => Ok(
                    changes + release_tasks(
                        cli,
                        env.cwd@,
                        strings_view(env.remotes@),
                        package_paths(included_packages(cli.workspace, w)),
                        lock,
                        version,
                    ) + reverting_tasks(
                        cli.git_ops.branch@,
                        env.current_branch@,
                        env.dirty_files@.len() > 0,
                    ),
                ),
            },
        }
    }
}

/// Where the tasks of the first `k` packages have a fault, the tasks of all
/// have the same.
pub proof fn lemma_package_tasks_error(cli: Cli, included: Seq<PackageView>, k: int)
    requires
        0 <= k <= included.len(),
        package_tasks(cli, included.take(k)) is Err,
    ensures
        package_tasks(cli, included) == package_tasks(cli, included.take(k)),
    decreases included.len(),
{
    if k == included.len() {
        assert(included.take(k) == included);
    } else {
        assert(included.drop_last().take(k) == included.take(k));
        lemma_package_tasks_error(cli, included.drop_last(), k);
    }
}

impl Task {
    /// The task that the action asks of the package.
    pub fn from_action(
        action: Action,
        package: &Package<ReadToml>,
        set_version: Option<Version>,
        pre_release: Option<&Prerelease>,
        build: Option<&BuildMetadata>,
        force_version: bool,
    ) -> (r: Result<Task, GenerateError>)
        ensures
            match task_for(
                action,
                package@,
                option_version_view(set_version),
                match pre_release {
                    Some(p) => Some(p@),
                    None => None,
                },
                match build {
                    Some(b) => Some(b@),
                    None => None,
                },
                force_version,
            ) {
                Ok(t) => r matches Ok(got) && got@ == t,
                Err(f) => r matches Err(e) && e.fault() == f,
            },
            r matches Err(e) ==> e is Version || e is MissingVersion,
    {
        match action {
            Action::Pre | Action::Patch | Action::Minor | Action::Major => {
                let mut new_version = package.version_owned();
                let pre = match pre_release {
                    Some(p) => Some(p.clone()),
                    None => None,
                };
                let build = match build {
                    Some(b) => Some(b.clone()),
                    None => None,
                };
                match new_version.checked_bump(action, pre, build, force_version) {
                    Ok(_) => Ok(
                        Task::Bump {
                            package_name: package.name().clone(),
                            bump: action,
                            new_version,
                        },
                    ),
                    Err(e) => Err(GenerateError::Version(e)),
                }
            },
            Action::SetVersion => match set_version {
                Some(new_version) => Ok(
                    Task::SetVersion { new_version, package_name: package.name().clone() },
                ),
                None => Err(GenerateError::MissingVersion),
            },
            Action::Tree => Ok(Task::WorkspaceTree),
            Action::Print => Ok(Task::DisplayVersion(package.name().clone())),
        }
    }

    /// The task that the action asks of the version that the workspace
    /// declares.
    pub fn from_workspace_action(
        action: Action,
        package: &Package<ReadToml>,
        set_version: Option<Version>,
        pre_release: Option<&Prerelease>,
        build: Option<&BuildMetadata>,
        force_version: bool,
    ) -> (r: Result<Task, GenerateError>)
        ensures
            match workspace_task_for(
                action,
                package@,
                option_version_view(set_version),
                match pre_release {
                    Some(p) => Some(p@),
                    None => None,
                },
                match build {
                    Some(b) => Some(b@),
                    None => None,
                },
                force_version,
            ) {
                Ok(t) => r matches Ok(got) && got@ == t,
                Err(f) => r matches Err(e) && e.fault() == f,
            },
            r matches Err(e) ==> e is Version || e is MissingVersion,
    {
        match action {
            Action::Pre | Action::Patch | Action::Minor | Action::Major => {
                let mut new_version = package.version_owned();
                let pre = match pre_release {
                    Some(p) => Some(p.clone()),
                    None => None,
                };
                let build = match build {
                    Some(b) => Some(b.clone()),
                    None => None,
                };
                match new_version.checked_bump(action, pre, build, force_version) {
                    Ok(_) => Ok(Task::BumpWorkspace { bump: action, new_version }),
                    Err(e) => Err(GenerateError::Version(e)),
                }
            },
            Action::SetVersion => match set_version {
                Some(new_version) => Ok(Task::SetWorkspace { new_version }),
                None => Err(GenerateError::MissingVersion),
            },
            Action::Tree => Ok(Task::WorkspaceTree),
            Action::Print => Ok(Task::DisplayVersion(PackageName::workspace_package())),
        }
    }
}

/// Appends a task and, where it changes a version and the run is no dry run,
/// the writing of the manifest.
fn push_with_write(list: &mut Vec<Task>, task: Task, name: &PackageName, dry_run: bool)
    ensures
        tasks_view(final(list)@) == tasks_view(old(list)@) + with_write(task@, name@, dry_run),
{
    let ghost before = tasks_view(list@);
    let write = !dry_run && task.is_version_change();
    list.push(task);
    assert(tasks_view(list@) == before.push(task@));
    if write {
        list.push(Task::WriteCargoToml(name.clone()));
        assert(tasks_view(list@) == before.push(task@).push(TaskView::WriteCargoToml(name@)));
    }
    assert(tasks_view(list@) == before + with_write(task@, name@, dry_run));
}

/// The tasks of the selected packages, the manifests that they change, and
/// whether one of the packages inherits its version.
fn plan_packages(cli: &Cli, included: &Vec<Package<ReadToml>>) -> (r: Result<
    (Vec<Task>, Vec<String>, bool),
    GenerateError,
>)
    ensures
        match package_tasks(*cli, packages_view(included@)) {
            Ok(list) => r matches Ok(got) && tasks_view(got.0@) == list && strings_view(got.1@)
                == package_paths(packages_view(included@)) && got.2 == any_inherited(
                packages_view(included@),
            ),
            Err(f) => r matches Err(e) && e.fault() == f,
        },
        r matches Err(e) ==> e is Version || e is MissingVersion,
{
    let ghost all = packages_view(included@);
    let mut list: Vec<Task> = Vec::new();
    let mut paths: Vec<String> = Vec::new();
    let mut inherited = false;
    let mut i: usize = 0;
    proof {
        assert(all.take(0) == Seq::<PackageView>::empty());
        assert(tasks_view(list@) == Seq::<TaskView>::empty());
        assert(strings_view(paths@) == Seq::<Seq<char>>::empty());
    }
    while i < included.len()
        invariant
            i <= included.len(),
            all == packages_view(included@),
            package_tasks(*cli, all.take(i as int)) == Ok::<Seq<TaskView>, GenerateFault>(
                tasks_view(list@),
            ),
            strings_view(paths@) == package_paths(all.take(i as int)),
            inherited == any_inherited(all.take(i as int)),
        decreases included.len() - i,
    {
        let package = &included[i];
        proof {
            assert(all.take(i + 1).drop_last() == all.take(i as int));
            assert(all.take(i + 1).last() == package@);
            lemma_any_inherited_push(all.take(i as int), package@);
            assert(all.take(i + 1) == all.take(i as int).push(package@));
        }
        if package.version_type() == VersionType::SetByWorkspace {
            inherited = true;
            assert(tasks_view(list@) + Seq::<TaskView>::empty() == tasks_view(list@));
        } else {
            let ghost before = strings_view(paths@);
            paths.push(package.manifest_path_owned());
            assert(strings_view(paths@) == before.push(package@.manifest_path));
            let set_to = cli.set_version();
            match Task::from_action(
                cli.action(),
                package,
                set_to,
                cli.pre(),
                cli.build(),
                cli.force_version(),
            ) {
                Ok(task) => {
                    push_with_write(&mut list, task, package.name(), cli.dry_run());
                },
                Err(e) => {
                    proof {
                        lemma_package_tasks_error(*cli, all, i + 1);
                    }
                    return Err(e);
                },
            }
        }
        i += 1;
    }
    assert(all.take(included.len() as int) == all);
    Ok((list, paths, inherited))
}

/// Whether a list with one more package holds one that inherits its
/// version.
pub proof fn lemma_any_inherited_push(included: Seq<PackageView>, package: PackageView)
    ensures
        any_inherited(included.push(package)) == (any_inherited(included) || package.version_type
            == VersionType::SetByWorkspace),
{
    let more = included.push(package);
    if any_inherited(included) {
        let i = choose|i: int|
            0 <= i < included.len() && (#[trigger] included[i]).version_type
                == VersionType::SetByWorkspace;
        assert(more[i].version_type == VersionType::SetByWorkspace);
    }
    if package.version_type == VersionType::SetByWorkspace {
        assert(more[included.len() as int].version_type == VersionType::SetByWorkspace);
    }
    if any_inherited(more) {
        let i = choose|i: int|
            0 <= i < more.len() && (#[trigger] more[i]).version_type
                == VersionType::SetByWorkspace;
        if i < included.len() {
            assert(included[i].version_type == VersionType::SetByWorkspace);
        }
    }
}

/// The tasks that open the batch.
fn plan_opening(target: &Branch, current: &Branch, dirty: bool) -> (r: Vec<Task>)
    ensures
        tasks_view(r@) == opening_tasks(target@, current@, dirty),
{
    let mut list: Vec<Task> = Vec::new();
    assert(tasks_view(list@) == Seq::<TaskView>::empty());
    if target.is_named() && !(target == current) {
        if dirty {
            list.push(Task::GitStash { branch: current.clone(), stash: Stash::Stash });
        }
        let ghost before = tasks_view(list@);
        list.push(Task::GitSwitchBranch { to: target.clone(), from: current.clone() });
        assert(tasks_view(list@) == before.push(
            TaskView::GitSwitchBranch { to: target@, from: current@ },
        ));
        assert(tasks_view(list@) == opening_tasks(target@, current@, dirty));
    }
    list
}

/// Appends the tasks that close the batch.
fn plan_reverting(list: &mut Vec<Task>, target: &Branch, current: &Branch, dirty: bool)
    ensures
        tasks_view(final(list)@) == tasks_view(old(list)@) + reverting_tasks(
            target@,
            current@,
            dirty,
        ),
{
    let ghost before = tasks_view(list@);
    if target.is_named() && !(target == current) {
        list.push(Task::GitSwitchBranch { to: current.clone(), from: target.clone() });
        assert(tasks_view(list@) == before.push(
            TaskView::GitSwitchBranch { to: current@, from: target@ },
        ));
        if dirty {
            list.push(Task::GitStash { branch: current.clone(), stash: Stash::Unstash });
            assert(tasks_view(list@) == before.push(
                TaskView::GitSwitchBranch { to: current@, from: target@ },
            ).push(TaskView::GitStash { branch: current@, stash: Stash::Unstash }));
        }
    }
    assert(tasks_view(list@) == before + reverting_tasks(target@, current@, dirty));
}

/// Appends the tasks of a list.
fn push_tasks_of(list: &mut Vec<Task>, more: &Vec<Task>)
    ensures
        tasks_view(final(list)@) == tasks_view(old(list)@) + tasks_view(more@),
{
    let ghost before = tasks_view(list@);
    let ghost all = tasks_view(more@);
    let mut i: usize = 0;
    assert(before + all.take(0) == before);
    while i < more.len()
        invariant
            i <= more.len(),
            all == tasks_view(more@),
            tasks_view(list@) == before + all.take(i as int),
        decreases more.len() - i,
    {
        let ghost now = tasks_view(list@);
        list.push(more[i].clone());
        assert(tasks_view(list@) == now.push(all[i as int]));
        assert(all.take(i + 1) == all.take(i as int).push(all[i as int]));
        i += 1;
    }
    assert(all.take(more.len() as int) == all);
}

/// The tasks of the release itself.
fn plan_release(
    cli: &Cli,
    cwd: &str,
    remotes: &Vec<String>,
    paths: &Vec<String>,
    lock: &str,
    version: &Version,
) -> (r: Vec<Task>)
    ensures
        tasks_view(r@) == release_tasks(
            *cli,
            cwd@,
            strings_view(remotes@),
            strings_view(paths@),
            lock@,
            version@,
        ),
{
    let mut list: Vec<Task> = Vec::new();
    assert(tasks_view(list@) == Seq::<TaskView>::empty());
    if cli.git_tag() {
        let mut relative: Vec<String> = Vec::new();
        let ghost given = strings_view(paths@).push(lock@);
        let mut i: usize = 0;
        assert(strings_view(relative@) == relative_paths(given.take(0), cwd@));
        while i < paths.len()
            invariant
                i <= paths.len(),
                given == strings_view(paths@).push(lock@),
                strings_view(relative@) == relative_paths(given.take(i as int), cwd@),
            decreases paths.len() - i,
        {
            let ghost before = strings_view(relative@);
            relative.push(relative_path(paths[i].as_str(), cwd));
            proof {
                assert(given[i as int] == paths@[i as int]@);
                assert(strings_view(relative@) == before.push(relative_to(given[i as int], cwd@)));
                assert(given.take(i + 1) == given.take(i as int).push(given[i as int]));
            }
            i += 1;
        }
        let ghost before = strings_view(relative@);
        relative.push(relative_path(lock, cwd));
        proof {
            assert(given[paths.len() as int] == lock@);
            assert(given.take(paths.len() + 1) == given.take(paths.len() as int).push(lock@));
            assert(given.take(paths.len() + 1) == given);
            assert(strings_view(relative@) == before.push(relative_to(lock@, cwd@)));
            assert(strings_view(relative@) == relative_paths(given, cwd@));
        }
        list.push(Task::CargoGenerateLock);
        list.push(Task::GitAdd(relative));
        list.push(Task::GitCommit);
        list.push(Task::GitTag(version.clone()));
        assert(tasks_view(list@) == seq![
            TaskView::CargoGenerateLock,
            TaskView::GitAdd(relative_paths(given, cwd@)),
            TaskView::GitCommit,
            TaskView::GitTag(version@),
        ]);
        if cli.git_push() {
            let ghost head = tasks_view(list@);
            let ghost names = strings_view(remotes@);
            let tag = version.to_string();
            let mut k: usize = 0;
            assert(head + push_tasks(names.take(0), tag@) == head);
            while k < remotes.len()
                invariant
                    k <= remotes.len(),
                    names == strings_view(remotes@),
                    tag@ == version_text(version@),
                    tasks_view(list@) == head + push_tasks(names.take(k as int), tag@),
                decreases remotes.len() - k,
            {
                let ghost now = tasks_view(list@);
                list.push(Task::GitPush { remote: remotes[k].clone(), tag: tag.clone() });
                proof {
                    assert(tasks_view(list@) == now.push(
                        TaskView::GitPush { remote: names[k as int], tag: tag@ },
                    ));
                    assert(names.take(k + 1) == names.take(k as int).push(names[k as int]));
                    assert(push_tasks(names.take(k + 1), tag@) == push_tasks(
                        names.take(k as int),
                        tag@,
                    ).push(TaskView::GitPush { remote: names[k as int], tag: tag@ }));
                }
                k += 1;
            }
            assert(names.take(remotes.len() as int) == names);
        } else {
            assert(tasks_view(list@) + Seq::<TaskView>::empty() == tasks_view(list@));
        }
    }
    let ghost tagged = tasks_view(list@);
    if cli.cargo_publish() {
        list.push(Task::CargoPublish);
        assert(tasks_view(list@) == tagged + seq![TaskView::CargoPublish]);
    } else {
        assert(tasks_view(list@) == tagged + Seq::<TaskView>::empty());
    }
    let ghost published = tasks_view(list@);
    if cli.dry_run() {
        list.push(Task::DeleteGitTag(version.clone()));
        assert(tasks_view(list@) == published + seq![TaskView::DeleteGitTag(version@)]);
    } else {
        assert(tasks_view(list@) == published + Seq::<TaskView>::empty());
    }
    list
}

impl Tasks {
    /// Puts the tasks into the batch, in order, none of them with a process.
    pub fn queue(&mut self, list: &Vec<Task>)
        ensures
            final(self)@ == (TasksView {
                tasks: entries_queued(old(self)@.tasks, tasks_view(list@)),
                ..old(self)@
            }),
    {
        let ghost all = tasks_view(list@);
        let mut i: usize = 0;
        assert(all.take(0) == Seq::<TaskView>::empty());
        while i < list.len()
            invariant
                i <= list.len(),
                all == tasks_view(list@),
                self@ == (TasksView {
                    tasks: entries_queued(old(self)@.tasks, all.take(i as int)),
                    ..old(self)@
                }),
            decreases list.len() - i,
        {
            proof {
                assert(all.take(i + 1).drop_last() == all.take(i as int));
                assert(all.take(i + 1).last() == list@[i as int]@);
            }
            self.insert(list[i].clone(), None);
            i += 1;
        }
        assert(all.take(list.len() as int) == all);
    }

    /// Generate tasks from what the command line asks for. The two flags
    /// that choose all packages and the default members exclude each other.
    pub fn generate_tasks(cli_args: &Cli, packages: Packages, env: &Surroundings) -> (r: Result<
        Self,
        GenerateError,
    >)
        requires
            !(cli_args.workspace.workspace && cli_args.workspace.default_members),
        ensures
            match planned_tasks(
                *cli_args,
                packages@,
                packages.spec_root_cargo_lock_path(),
                *env,
            ) {
                Ok(list) => r matches Ok(t) && t@ == queued_batch(packages@, list),
                Err(f) => r matches Err(e) && e.fault() == f,
            },
            r matches Err(GenerateError::NoPackages { excluded }) ==> strings_view(excluded@)
                == package_names(excluded_packages(cli_args.workspace, packages@)),
            r matches Err(GenerateError::Dirty(e)) ==> e.count == env.dirty_files@.len(),
    {
        match cli_args.try_allow_dirty(&env.dirty_files) {
            Ok(()) => {},
            Err(e) => {
                return Err(GenerateError::Dirty(e));
            },
        }
        let root_cargo_lock = copy_str(packages.root_cargo_lock_path());
        let target = cli_args.git_branch();
        let dirty = !env.dirty_files.is_empty();
        let (included, excluded) = cli_args.workspace().partition_packages_owned(&packages);
        if included.len() == 0 {
            let mut names: Vec<String> = Vec::new();
            let mut i: usize = 0;
            let ghost all = package_names(packages_view(excluded@));
            assert(strings_view(names@) == all.take(0));
            while i < excluded.len()
                invariant
                    i <= excluded.len(),
                    all == package_names(packages_view(excluded@)),
                    strings_view(names@) == all.take(i as int),
                decreases excluded.len() - i,
            {
                let ghost before = strings_view(names@);
                names.push(excluded[i].name().to_string());
                assert(strings_view(names@) == before.push(all[i as int]));
                assert(all.take(i + 1) == all.take(i as int).push(all[i as int]));
                i += 1;
            }
            assert(all.take(excluded.len() as int) == all);
            return Err(GenerateError::NoPackages { excluded: names });
        }
        let (of_packages, paths, inherited) = match plan_packages(cli_args, &included) {
            Ok(x) => x,
            Err(e) => {
                return Err(e);
            },
        };
        let mut changes = plan_opening(&target, &env.current_branch, dirty);
        push_tasks_of(&mut changes, &of_packages);
        if cli_args.workspace_package() || inherited {
            let workspace_package = match packages.workspace_package() {
                Some(p) => p,
                None => {
                    return Err(GenerateError::NoWorkspacePackage);
                },
            };
            let set_to = cli_args.set_version();
            match Task::from_workspace_action(
                cli_args.action(),
                workspace_package,
                set_to,
                cli_args.pre(),
                cli_args.build(),
                cli_args.force_version(),
            ) {
                Ok(task) => {
                    push_with_write(
                        &mut changes,
                        task,
                        workspace_package.name(),
                        cli_args.dry_run(),
                    );
                },
                Err(e) => {
                    return Err(e);
                },
            }
        } else {
            assert(tasks_view(changes@) + Seq::<TaskView>::empty() == tasks_view(changes@));
        }
        let ghost w = packages@;
        let ghost first = tasks_view(changes@);
        assert(planned_changes(*cli_args, w, *env) == Ok::<Seq<TaskView>, GenerateFault>(first));
        let mut tasks = Tasks::new(packages);
        tasks.queue(&changes);
        assert(tasks@ == queued_batch(w, first));
        let new_version = match tasks.root_version() {
            Ok(v) => v,
            Err(_) => {
                return Err(GenerateError::NoRootVersion);
            },
        };
        let mut rest = plan_release(
            cli_args,
            env.cwd.as_str(),
            &env.remotes,
            &paths,
            root_cargo_lock.as_str(),
            &new_version,
        );
        let ghost release = tasks_view(rest@);
        plan_reverting(&mut rest, &target, &env.current_branch, dirty);
        tasks.queue(&rest);
        proof {
            let back = reverting_tasks(target@, env.current_branch@, dirty);
            lemma_entries_queued(
                Seq::<(TaskView, Option<Child>)>::empty(),
                first,
                tasks_view(rest@),
            );
            assert(tasks_view(rest@) == release + back);
            assert(first + (release + back) == first + release + back);
            assert(release == release_tasks(
                *cli_args,
                env.cwd@,
                strings_view(env.remotes@),
                package_paths(included_packages(cli_args.workspace, w)),
                root_cargo_lock@,
                new_version@,
            ));
            assert(tasks@ == queued_batch(w, first + release + back));
        }
        Ok(tasks)
    }
}

} // verus!
