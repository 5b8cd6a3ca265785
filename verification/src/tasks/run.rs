//! Running the batch. A task either changes the workspace, which is done
//! here, or needs something of the world outside: a text printed, a manifest
//! written, a command run or started. What is needed is handed out as a
//! [`TaskAction`]; what came of it is handed back as an event, and the batch
//! is brought up to date.

use crate::cargo::{cargo_base, publish_args, Cargo};
use crate::cli::cli::Cli;
use crate::git::branch::BranchView;
use crate::git::git::{commit_args, git_base, push_args, with_args, Git, GitError, Stash};
use crate::manifest::toml_file::set_version_fault;
use crate::manifest::version_location::{VersionLocation, VersionType};
use crate::packages::{
    find_package, has_package, named_package, resolve_root_version, tree_text,
    with_package_version, ManifestWrite, PackageError, Packages, PackagesView,
};
use crate::process::{bytes_text, Child, Command, CommandView, Output};
use crate::tasks::task::{Task, TaskView};
use crate::tasks::tasks::{tasks_view, Pick, TaskError, Tasks, TasksView};
use crate::collections::entries_inserted;
use crate::text::{chars_of, copy_str, push_chars, string_of, strings_view};
use crate::version::semantic::{version_text, VersionView};
use vstd::prelude::*;

verus! {

/// What a task needs of the world outside.
#[derive(Debug)]
pub enum TaskAction {
    /// Nothing: the task was a change of the workspace, and it is done.
    Done,
    /// The text is to be printed, on a line of its own.
    Print(String),
    /// The version is to be written to the manifest.
    WriteManifest(ManifestWrite),
    /// The command is to be run and waited for.
    Run(Command),
    /// The command is to be started; the batch waits for it when it joins.
    Spawn(Command),
}

/// What a task needs, as a mathematical value.
pub enum TaskActionView {
    Done,
    Print(Seq<char>),
    WriteManifest { path: Seq<char>, location: VersionLocation, version: VersionView },
    Run(CommandView),
    Spawn(CommandView),
}

impl View for TaskAction {
    type V = TaskActionView;

    open spec fn view(&self) -> TaskActionView {
        match self {
            TaskAction::Done => TaskActionView::Done,
            TaskAction::Print(text) => TaskActionView::Print(text@),
            TaskAction::WriteManifest(w) => TaskActionView::WriteManifest {
                path: w.path@,
                location: w.location,
                version: w.version@,
            },
            TaskAction::Run(c) => TaskActionView::Run(c@),
            TaskAction::Spawn(c) => TaskActionView::Spawn(c@),
        }
    }
}

/// Why a task could not be run.
#[derive(Debug)]
pub enum TaskRunError {
    /// No version stands for the whole workspace.
    NoRootVersion,
    /// The task names a package that the workspace does not have, or its
    /// manifest does not take what the task asks.
    Package(PackageError),
    /// Git cannot do what the task asks.
    Git(GitError),
}

/// What an error of running a task says.
pub open spec fn run_error_text(error: TaskRunError) -> Seq<char> {
    match error {
        TaskRunError::NoRootVersion => "No version stands for the workspace"@,
        TaskRunError::Package(PackageError::PackageNameNotFound(name)) => "No package by name: "@
            + name@,
        TaskRunError::Package(_) => "The manifest does not take the version"@,
        TaskRunError::Git(_) => "Can't change branch to current branch."@,
    }
}

impl TaskRunError {
    /// What the error says.
    pub fn to_string(&self) -> (s: String)
        ensures
            s@ == run_error_text(*self),
    {
        match self {
            TaskRunError::NoRootVersion => copy_str("No version stands for the workspace"),
            TaskRunError::Package(PackageError::PackageNameNotFound(name)) => {
                let mut out = chars_of("No package by name: ");
                push_chars(&mut out, &chars_of(name.as_str()));
                string_of(&out)
            },
            TaskRunError::Package(_) => copy_str("The manifest does not take the version"),
            TaskRunError::Git(_) => copy_str("Can't change branch to current branch."),
        }
    }
}

/// The message of a commit: the message given, or the version that stands
/// for the workspace.
pub open spec fn commit_message(cli: Cli, root_version: VersionView) -> Seq<char> {
    match cli.git_ops.message {
        Some(m) => m@,
        None => version_text(root_version),
    }
}

/// The arguments of the stash that a task asks for, if it asks for one.
pub open spec fn stash_task_args(stash: Stash) -> Option<Seq<Seq<char>>> {
    match stash {
        Stash::Stash => Some(seq!["stash"@, "push"@]),
        Stash::Unstash => Some(seq!["stash"@, "pop"@]),
        Stash::Dont => None,
    }
}

/// What a task that changes nothing of the workspace needs, or nothing where
/// the task is one that changes the workspace or may fail.
pub open spec fn plain_action(
    task: TaskView,
    cli: Cli,
    git_root: Seq<char>,
    cargo_path: Option<Seq<char>>,
    root_version: VersionView,
    w: PackagesView,
) -> Option<TaskActionView> {
    let quiet = cli.suppress.includes_git();
    match task {
        TaskView::GitPush { remote, tag } => Some(
            TaskActionView::Spawn(
                with_args(git_base(git_root, quiet), push_args(tag, cli.dry_run, remote)),
            ),
        ),
        TaskView::CargoPublish => Some(
            TaskActionView::Spawn(
                CommandView {
                    args: cargo_base(cargo_path, cli.suppress.includes_cargo()).args
                        + publish_args(cli.dry_run, cli.skip_verify),
                    ..cargo_base(cargo_path, cli.suppress.includes_cargo())
                },
            ),
        ),
        TaskView::WorkspaceTree => Some(TaskActionView::Print(tree_text(w))),
        TaskView::DeleteGitTag(version) => Some(
            TaskActionView::Run(
                with_args(
                    git_base(git_root, quiet),
                    seq!["tag"@, "--delete"@, version_text(version)],
                ),
            ),
        ),
        TaskView::GitTag(version) => Some(
            TaskActionView::Run(
                with_args(git_base(git_root, quiet), seq!["tag"@, version_text(version)]),
            ),
        ),
        TaskView::GitAdd(files) => Some(
            TaskActionView::Run(with_args(git_base(git_root, false), seq!["add"@] + files)),
        ),
        TaskView::GitCommit => Some(
            TaskActionView::Run(
                with_args(
                    git_base(git_root, quiet),
                    commit_args(commit_message(cli, root_version), cli.dry_run),
                ),
            ),
        ),
        TaskView::CargoGenerateLock => Some(
            TaskActionView::Run(
                CommandView {
                    args: cargo_base(cargo_path, true).args + seq!["generate-lockfile"@],
                    ..cargo_base(cargo_path, true)
                },
            ),
        ),
        TaskView::GitStash { stash, .. } => Some(
            match stash_task_args(stash) {
                Some(args) => TaskActionView::Run(with_args(git_base(git_root, quiet), args)),
                None => TaskActionView::Done,
            },
        ),
        TaskView::GitSwitchBranch { to: BranchView::Named { local }, .. } => Some(
            TaskActionView::Run(
                with_args(git_base(git_root, quiet), seq!["checkout"@, local]),
            ),
        ),
        _ => None,
    }
}

/// The package whose version a task shows: the root package for the name of
/// the workspace package, else the package of the name.
pub open spec fn shown_package(w: PackagesView, name: Seq<char>) -> Option<int> {
    let key = if name == "workspace.package"@ {
        if w.root_package is Some {
            w.root_package->0
        } else {
            name
        }
    } else {
        name
    };
    if (name == "workspace.package"@ ==> w.root_package is Some) && find_package(w.packages, key)
        < w.packages.len() {
        Some(find_package(w.packages, key))
    } else {
        None
    }
}

/// The name and the new version of a task that changes a version.
pub open spec fn version_change(task: TaskView) -> Option<(Seq<char>, VersionView)> {
    match task {
        TaskView::SetVersion { package_name, new_version } => Some((package_name, new_version)),
        TaskView::Bump { package_name, new_version, .. } => Some((package_name, new_version)),
        TaskView::SetWorkspace { new_version } => Some(("workspace.package"@, new_version)),
        TaskView::BumpWorkspace { new_version, .. } => Some(("workspace.package"@, new_version)),
        _ => None,
    }
}

/// Whether a command that a task runs must end with success for the task to
/// have completed: every command but the adding and the committing.
pub open spec fn needs_success(task: TaskView) -> bool {
    !(task is GitAdd || task is GitCommit)
}

/// What running a task comes to, for the workspace before and after and for
/// what is handed out.
///
/// - Nothing runs where no version stands for the workspace.
/// - A task that needs something of the world outside hands that out and
///   leaves the workspace as it is.
/// - A switch to the current branch fails.
/// - A task that shows a version hands out the name and the version of the
///   package, and fails where there is no such package.
/// - A task that writes a manifest hands out what to write, and fails where
///   there is no such package or the package inherits its version.
/// - A task that changes a version gives the package the version, and fails
///   where there is no such package or its manifest holds no version to take
///   the place of.
/// - A failure leaves the workspace as it is.
pub open spec fn run_outcome(
    task: TaskView,
    cli: Cli,
    git_root: Seq<char>,
    cargo_path: Option<Seq<char>>,
    before: Packages,
    after: PackagesView,
    r: Result<TaskAction, TaskRunError>,
) -> bool {
    &&& r is Err ==> after == before@
    &&& if resolve_root_version(before@) is None {
        r matches Err(TaskRunError::NoRootVersion)
    } else {
        match plain_action(
            task,
            cli,
            git_root,
            cargo_path,
            resolve_root_version(before@)->0,
            before@,
        ) {
            Some(action) => r matches Ok(a) && a@ == action && after == before@,
            None => match task {
                TaskView::GitSwitchBranch { .. } => r matches Err(
                    TaskRunError::Git(GitError::CurrentBranch),
                ),
                TaskView::DisplayVersion(name) => match shown_package(before@, name) {
                    Some(i) => r matches Ok(TaskAction::Print(text)) && text@ == name + seq![' ']
                        + version_text(before@.packages[i].version) && after == before@,
                    None => r matches Err(
                        TaskRunError::Package(PackageError::PackageNameNotFound(n)),
                    ) && n@ == name,
                },
                TaskView::WriteCargoToml(name) => if !has_package(before@, name) {
                    r matches Err(TaskRunError::Package(PackageError::PackageNameNotFound(n)))
                        && n@ == name
                } else if named_package(before@, name).version_type
                    == VersionType::SetByWorkspace {
                    r matches Err(TaskRunError::Package(PackageError::Manifest(_)))
                } else {
                    r matches Ok(a) && a@ == (TaskActionView::WriteManifest {
                        path: named_package(before@, name).manifest_path,
                        location: if named_package(before@, name).version_type
                            == VersionType::Package {
                            VersionLocation::Package
                        } else {
                            VersionLocation::WorkspacePackage
                        },
                        version: named_package(before@, name).version,
                    }) && after == before@
                },
                _ => match version_change(task) {
                    Some((name, version)) => if has_package(before@, name) && set_version_fault(
                        before.manifest_of(name),
                    ) is None {
                        r matches Ok(TaskAction::Done) && after == with_package_version(
                            before@,
                            name,
                            version,
                        )
                    } else {
                        r matches Err(TaskRunError::Package(_))
                    },
                    None => true,
                },
            },
        }
    }
}

impl Task {
    /// Whether the command that the task runs must end with success.
    pub fn needs_success(&self) -> (b: bool)
        ensures
            b == needs_success(self@),
    {
        match self {
            Task::GitAdd(_) | Task::GitCommit => false,
            _ => true,
        }
    }

    /// Run the core function for the task: a change of the workspace is
    /// made; for anything else, what is to be done is handed out. Nothing
    /// runs where no version stands for the workspace.
    pub fn run(&self, cli_args: &Cli, packages: &mut Packages, git: &Git<String>, cargo: &Cargo) -> (r:
        Result<TaskAction, TaskRunError>)
        ensures
            final(packages).spec_root_manifest_path() == old(packages).spec_root_manifest_path(),
            final(packages).spec_root_cargo_lock_path() == old(
                packages,
            ).spec_root_cargo_lock_path(),
            run_outcome(
                self@,
                *cli_args,
                git.spec_root(),
                cargo.spec_manifest_path(),
                *old(packages),
                final(packages)@,
                r,
            ),
    {
        let root_version = match packages.root_version() {
            Ok(v) => v,
            Err(_) => {
                return Err(TaskRunError::NoRootVersion);
            },
        };
        let dry_run = cli_args.dry_run();
        let suppress = cli_args.suppress();
        match self {
            Task::GitPush { remote, tag } => Ok(
                TaskAction::Spawn(git.push(tag.as_str(), suppress, dry_run, remote.as_str())),
            ),
            Task::CargoPublish => Ok(
                TaskAction::Spawn(
                    cargo.publish(suppress.includes_cargo(), dry_run, cli_args.skip_verify()),
                ),
            ),
            Task::DisplayVersion(package_name) => {
                proof {
                    crate::packages::lemma_find_package(packages@.packages, package_name@);
                }
                match packages.get_package(package_name) {
                    Some(package) => {
                        let mut out = chars_of(package_name.as_str());
                        out.push(' ');
                        let version = package.version().to_string();
                        push_chars(&mut out, &chars_of(version.as_str()));
                        proof {
                            let i = shown_package(packages@, package_name@)->0;
                            assert(package@ == packages@.packages[i]);
                            assert(out@ == package_name@ + seq![' '] + version_text(
                                packages@.packages[i].version,
                            ));
                        }
                        Ok(TaskAction::Print(string_of(&out)))
                    },
                    None => Err(
                        TaskRunError::Package(
                            PackageError::PackageNameNotFound(package_name.clone()),
                        ),
                    ),
                }
            },
            Task::WorkspaceTree => Ok(TaskAction::Print(packages.display_tree())),
            Task::SetVersion { package_name, new_version }
            | Task::Bump { package_name, new_version, .. } => {
                match packages.set_package_version(package_name, new_version.clone()) {
                    Ok(_) => Ok(TaskAction::Done),
                    Err(e) => Err(TaskRunError::Package(e)),
                }
            },
            Task::SetWorkspace { new_version } | Task::BumpWorkspace { new_version, .. } => {
                match packages.set_workspace_package_version(new_version.clone()) {
                    Ok(_) => Ok(TaskAction::Done),
                    Err(e) => Err(TaskRunError::Package(e)),
                }
            },
            Task::DeleteGitTag(version) => {
                let mut args: Vec<String> = Vec::new();
                args.push(copy_str("--delete"));
                assert(strings_view(args@) == seq!["--delete"@]);
                let c = git.tag(version, suppress, &args);
                assert(seq!["tag"@] + seq!["--delete"@] + seq![version_text(version@)] == seq![
                    "tag"@,
                    "--delete"@,
                    version_text(version@),
                ]);
                Ok(TaskAction::Run(c))
            },
            Task::GitSwitchBranch { to, .. } => match git.checkout(to, suppress) {
                Ok(c) => Ok(TaskAction::Run(c)),
                Err(e) => Err(TaskRunError::Git(e)),
            },
            Task::WriteCargoToml(package_name) => match packages.write_cargo_file(package_name) {
                Ok(w) => Ok(TaskAction::WriteManifest(w)),
                Err(e) => Err(TaskRunError::Package(e)),
            },
            Task::GitStash { stash, .. } => {
                let mut c = git.command(suppress.includes_git());
                let ghost base = c@.args;
                match stash {
                    Stash::Stash => {
                        c.arg("stash");
                        c.arg("push");
                        assert(c@.args == base + seq!["stash"@, "push"@]);
                        Ok(TaskAction::Run(c))
                    },
                    Stash::Unstash => {
                        c.arg("stash");
                        c.arg("pop");
                        assert(c@.args == base + seq!["stash"@, "pop"@]);
                        Ok(TaskAction::Run(c))
                    },
                    Stash::Dont => Ok(TaskAction::Done),
                }
            },
            Task::GitAdd(files) => Ok(TaskAction::Run(git.add_files(files))),
            Task::GitCommit => {
                let message = match cli_args.git_message() {
                    Some(m) => m,
                    None => root_version.to_string(),
                };
                Ok(TaskAction::Run(git.commit(message.as_str(), suppress, dry_run)))
            },
            Task::GitTag(version) => {
                let args: Vec<String> = Vec::new();
                assert(strings_view(args@) == Seq::<Seq<char>>::empty());
                let c = git.tag(version, suppress, &args);
                assert(seq!["tag"@] + Seq::<Seq<char>>::empty() + seq![version_text(version@)]
                    == seq!["tag"@, version_text(version@)]);
                Ok(TaskAction::Run(c))
            },
            Task::CargoGenerateLock => Ok(TaskAction::Run(cargo.generate_lockfile())),
        }
    }
}

/// Running a task comes to the same for two workspaces that hold the same and
/// whose manifests say the same.
pub proof fn lemma_same_outcome(
    task: TaskView,
    cli: Cli,
    git_root: Seq<char>,
    cargo_path: Option<Seq<char>>,
    a: Packages,
    b: Packages,
)
    requires
        a@ == b@,
        forall|name: Seq<char>| a.manifest_of(name) == b.manifest_of(name),
    ensures
        forall|after: PackagesView, r: Result<TaskAction, TaskRunError>|
            run_outcome(task, cli, git_root, cargo_path, a, after, r) == run_outcome(
                task,
                cli,
                git_root,
                cargo_path,
                b,
                after,
                r,
            ),
{
}

/// What came of running a task.
#[derive(Debug)]
pub enum RunEvent {
    /// What the task needed was done, and nothing is left to wait for.
    Done,
    /// The command of the task was run; this is what it gave back.
    Finished(Output),
    /// The command of the task was started; this is its process.
    Spawned(Child),
    /// What the task needed could not be done; the message says why.
    Failed(String),
}

/// What came of looking at the process of a task.
#[derive(Debug)]
pub enum JoinEvent {
    /// The process still runs.
    Running,
    /// The process has ended; this is what it gave back.
    Exited(Output),
    /// The process could not be looked at; the message says why.
    WaitFailed(String),
}

/// The batch with a task completed.
pub open spec fn completed_with(v: TasksView, task: TaskView) -> TasksView {
    TasksView {
        completed: if v.completed.contains(task) {
            v.completed
        } else {
            v.completed.push(task)
        },
        ..v
    }
}

/// The batch with a task given a process, or none.
pub open spec fn with_child(v: TasksView, task: TaskView, child: Option<Child>) -> TasksView {
    TasksView { tasks: entries_inserted(v.tasks, task, child), ..v }
}

/// The message for a process that ended with the given exit code.
pub open spec fn exit_message(code: Option<i32>) -> Seq<char> {
    "Exited with code: "@ + match code {
        Some(c) => if c < 0 {
            seq!['-'] + crate::text::decimal_digits((-c) as nat)
        } else {
            crate::text::decimal_digits(c as nat)
        },
        None => crate::text::decimal_digits(0),
    }
}

/// The message for a process that ended with the given exit code.
fn exit_text(code: Option<i32>) -> (s: String)
    ensures
        s@ == exit_message(code),
{
    let mut out = chars_of("Exited with code: ");
    let c: i64 = match code {
        Some(c) => c as i64,
        None => 0,
    };
    if c < 0 {
        out.push('-');
        push_chars(&mut out, &crate::text::format_decimal((-c) as u64));
    } else {
        push_chars(&mut out, &crate::text::format_decimal(c as u64));
    }
    string_of(&out)
}

impl Tasks {
    /// Runs one task of the batch on the workspace of the batch, as
    /// [`Task::run`] runs it. A failure reports how far the batch got, with
    /// what the cause says as its message.
    pub fn run_task(&mut self, task: &Task, cli_args: &Cli, git: &Git<String>, cargo: &Cargo) -> (r:
        Result<TaskAction, TaskError>)
        ensures
            final(self)@.tasks == old(self)@.tasks,
            final(self)@.completed == old(self)@.completed,
            match r {
                Ok(action) => run_outcome(
                    task@,
                    *cli_args,
                    git.spec_root(),
                    cargo.spec_manifest_path(),
                    old(self).spec_packages(),
                    final(self)@.packages,
                    Ok(action),
                ),
                Err(e) => final(self)@ == old(self)@ && exists|cause: TaskRunError|
                    run_outcome(
                        task@,
                        *cli_args,
                        git.spec_root(),
                        cargo.spec_manifest_path(),
                        old(self).spec_packages(),
                        old(self)@.packages,
                        Err(cause),
                    ) && e.reports(old(self)@, task@, run_error_text(cause)),
            },
    {
        let mut packages = self.packages().clone();
        let ghost before = packages;
        proof {
            lemma_same_outcome(
                task@,
                *cli_args,
                git.spec_root(),
                cargo.spec_manifest_path(),
                before,
                self.spec_packages(),
            );
        }
        match task.run(cli_args, &mut packages, git, cargo) {
            Ok(action) => {
                self.set_packages(packages);
                Ok(action)
            },
            Err(e) => {
                let msg = e.to_string();
                Err(TaskError::from_tasks(&*self, task.clone(), None, msg.as_str()))
            },
        }
    }

    /// Brings the batch up to date with what came of running a task of the
    /// main pass. A task that needed nothing more has completed. A command
    /// that was run has completed the task where it ended with success, or
    /// where the task does not ask for success; else the batch fails. A
    /// command that was started gives the task its process. Anything that
    /// could not be done fails the batch.
    pub fn record_run(&mut self, task: &Task, event: RunEvent) -> (r: Result<(), TaskError>)
        ensures
            match event {
                RunEvent::Done => r is Ok && final(self)@ == completed_with(old(self)@, task@),
                RunEvent::Spawned(child) => r is Ok && final(self)@ == with_child(
                    old(self)@,
                    task@,
                    Some(child),
                ),
                RunEvent::Finished(output) => if output.status.success() || !needs_success(
                    task@,
                ) {
                    r is Ok && final(self)@ == completed_with(old(self)@, task@)
                } else {
                    r matches Err(e) && e.reports(
                        old(self)@,
                        task@,
                        exit_message(output.status.code),
                    ) && e.output@ == bytes_text(output.stderr@) && e.status_code == Some(
                        output.status,
                    ) && final(self)@ == old(self)@
                },
                RunEvent::Failed(msg) => r matches Err(e) && e.reports(old(self)@, task@, msg@)
                    && final(self)@ == old(self)@,
            },
    {
        match event {
            RunEvent::Done => {
                let _ = self.complete_task(task);
                Ok(())
            },
            RunEvent::Spawned(child) => {
                self.insert(task.clone(), Some(child));
                Ok(())
            },
            RunEvent::Finished(output) => {
                if output.status.success() || !task.needs_success() {
                    let _ = self.complete_task(task);
                    Ok(())
                } else {
                    let msg = exit_text(output.status.code());
                    Err(TaskError::from_tasks(&*self, task.clone(), Some(output), msg.as_str()))
                }
            },
            RunEvent::Failed(msg) => Err(
                TaskError::from_tasks(&*self, task.clone(), None, msg.as_str()),
            ),
        }
    }

    /// Completes the task where it waits for no process: a task of the main
    /// pass that has not completed and has no process has nothing to wait
    /// for. Says whether the task still waits for its process.
    pub fn settle(&mut self, task: &Task) -> (waiting: Option<Child>)
        ensures
            waiting == old(self)@.child_of(task@),
            waiting is Some ==> final(self)@ == old(self)@,
            waiting is None ==> final(self)@ == completed_with(old(self)@, task@),
    {
        match self.child_of(task) {
            Some(child) => Some(child),
            None => {
                let _ = self.complete_task(task);
                None
            },
        }
    }

    /// Brings the batch up to date with what came of looking at the process
    /// of a task. A process that still runs changes nothing. A process that
    /// ended with success completes its task, which lets go of the process.
    /// A process that ended otherwise, or that could not be looked at, fails
    /// the batch, and the failure reports how far the batch got.
    pub fn record_join(&mut self, task: &Task, event: JoinEvent) -> (r: Result<(), TaskError>)
        ensures
            match event {
                JoinEvent::Running => r is Ok && final(self)@ == old(self)@,
                JoinEvent::Exited(output) => if output.status.success() {
                    r is Ok && final(self)@ == completed_with(
                        with_child(old(self)@, task@, None),
                        task@,
                    )
                } else {
                    r matches Err(e) && e.reports(
                        old(self)@,
                        task@,
                        exit_message(output.status.code),
                    ) && e.output@ == bytes_text(output.stderr@) && e.status_code == Some(
                        output.status,
                    ) && final(self)@ == old(self)@
                },
                JoinEvent::WaitFailed(_) => r matches Err(e) && e.reports(old(self)@, task@, ""@)
                    && final(self)@ == old(self)@,
            },
    {
        match event {
            JoinEvent::Running => Ok(()),
            JoinEvent::Exited(output) => {
                if output.status.success() {
                    self.insert(task.clone(), None);
                    let _ = self.complete_task(task);
                    Ok(())
                } else {
                    let msg = exit_text(output.status.code());
                    Err(TaskError::from_tasks(&*self, task.clone(), Some(output), msg.as_str()))
                }
            },
            JoinEvent::WaitFailed(_) => Err(TaskError::from_tasks(&*self, task.clone(), None, "")),
        }
    }

    /// Whether the join is over: every task of the main pass has completed.
    /// The cleanup tasks are not waited for.
    pub fn join_finished(&self) -> (b: bool)
        ensures
            b == (self@.pick(Pick::Pending).len() == 0),
    {
        self.pending_tasks().len() == 0
    }
}

} // verus!
