use cargo_uv::cli::{GitOps, Manifest, Suppress, Workspace};
use cargo_uv::manifest::{InheritFlag, ManifestDocument, Section, VersionEntry};
use cargo_uv::process::{Child, ExitStatus, Output};
use cargo_uv::tasks::{
    GenerateError, JoinEvent, RunEvent, Surroundings, TaskAction, TaskRunError,
};
use cargo_uv::version::{Prerelease, Version};
use cargo_uv::{
    Action, Branch, Bumpable, Cargo, CargoFile, Cli, DisplayTasks, GitBuilder, GitFiles, Package,
    PackageName, Packages, ReadToml, Stash, Task, Tasks, VersionErrorKind, VersionLocation,
};

fn own(name: &str, version: &str) -> Package<ReadToml> {
    let file = CargoFile::new(
        format!("/ws/{name}/Cargo.toml"),
        ManifestDocument {
            package: Section::Table(VersionEntry::Text(version.to_string())),
            workspace: Section::Missing,
        },
    );
    Package::new(PackageName::new(name), Version::parse(version).unwrap(), file).unwrap()
}

fn inherited(name: &str, version: &str) -> Package<ReadToml> {
    let file = CargoFile::new(
        format!("/ws/{name}/Cargo.toml"),
        ManifestDocument {
            package: Section::Table(VersionEntry::Inherited(InheritFlag::Flag(true))),
            workspace: Section::Missing,
        },
    );
    Package::new(PackageName::new(name), Version::parse(version).unwrap(), file).unwrap()
}

fn workspace_entry(version: &str) -> Package<ReadToml> {
    Package::workspace_package(CargoFile::new(
        "/ws/Cargo.toml".to_string(),
        ManifestDocument {
            package: Section::Missing,
            workspace: Section::Table(Section::Table(VersionEntry::Text(version.to_string()))),
        },
    ))
    .unwrap()
}

fn packages(list: Vec<Package<ReadToml>>, root: Option<&str>, ws: Option<Package<ReadToml>>) -> Packages {
    Packages::new(
        "/ws".to_string(),
        "/ws/Cargo.toml".to_string(),
        "/ws/Cargo.lock".to_string(),
        list,
        root.map(PackageName::new),
        vec![],
        ws,
    )
}

fn simple_packages() -> Packages {
    packages(vec![own("simple", "0.1.0")], Some("simple"), None)
}

fn cli(action: Action) -> Cli {
    Cli {
        action,
        pre: None,
        build: None,
        cargo_publish: false,
        suppress: Suppress::Nothing,
        skip_verify: false,
        allow_dirty: false,
        git_ops: GitOps {
            git_tag: false,
            git_push: false,
            message: None,
            force: false,
            branch: Branch::Current,
        },
        manifest: Manifest { manifest_path: None },
        workspace: Workspace::default(),
        force_version: false,
        dry_run: false,
        set_version: None,
        display_tasks: false,
    }
}

fn clean_on(branch: &str, remotes: &[&str]) -> Surroundings {
    Surroundings {
        cwd: "/ws".to_string(),
        dirty_files: GitFiles::new(),
        current_branch: Branch::Named { local: branch.to_string() },
        remotes: remotes.iter().map(|s| s.to_string()).collect(),
    }
}

fn v(text: &str) -> Version {
    Version::parse(text).unwrap()
}

fn bump(name: &str, bump: Action, new: &str) -> Task {
    Task::Bump { package_name: PackageName::new(name), bump, new_version: v(new) }
}

fn write(name: &str) -> Task {
    Task::WriteCargoToml(PackageName::new(name))
}

fn exited(code: i32, stderr: &str) -> Output {
    Output { status: ExitStatus { code: Some(code) }, stdout: vec![], stderr: stderr.as_bytes().to_vec() }
}

fn task_list(packages: &Packages) -> Vec<Task> {
    let package = packages.get_root_package().expect("known that simple has a root package");
    let mut version = package.version_owned();
    let new_version = version.bump(Action::Major, None, None, false).expect("Set by hand");
    vec![
        Task::Bump { package_name: package.name().clone(), bump: Action::Major, new_version },
        Task::GitPush { remote: "origin".into(), tag: package.version().to_string() },
        Task::CargoPublish,
    ]
}

#[test]
fn maintain_insertion_order_indexset() {
    let packages = simple_packages();
    let mut insertion_order = task_list(&packages);
    let mut tasks = Tasks::new(packages.clone());
    for task in &insertion_order {
        tasks.insert(task.clone(), None);
    }
    assert_eq!(insertion_order, tasks.tasks());
    insertion_order.reverse();
    assert_ne!(insertion_order, tasks.tasks())
}

#[test]
fn inserting_a_task_twice_keeps_its_place() {
    let packages = simple_packages();
    let list = task_list(&packages);
    let mut tasks = Tasks::new(packages);
    for task in &list {
        tasks.insert(task.clone(), None);
    }
    tasks.insert(list[0].clone(), Some(Child { id: 7 }));
    assert_eq!(tasks.tasks(), list);
    assert_eq!(tasks.len(), 3);
    assert_eq!(tasks.child_of(&list[0]), Some(Child { id: 7 }));
    assert_eq!(tasks.child_of(&list[1]), None);
    assert!(tasks.contains(&list[2]));
    assert!(!tasks.contains(&Task::GitCommit));
    tasks.append(vec![(Task::GitCommit, None), (list[1].clone(), Some(Child { id: 9 }))]);
    assert_eq!(tasks.vec_keys().len(), 4);
    assert_eq!(tasks.child_of(&list[1]), Some(Child { id: 9 }));
    let copy = tasks.clone_tasks();
    assert_eq!(copy.tasks(), tasks.tasks());
    assert_eq!(copy.child_of(&list[0]), None);
}

#[test]
fn patch_release_of_the_root_package() {
    let tasks = Tasks::generate_tasks(&cli(Action::Patch), simple_packages(), &clean_on("main", &[])).unwrap();
    assert_eq!(tasks.tasks(), vec![bump("simple", Action::Patch, "0.1.1"), write("simple")]);
    assert!(tasks.completed_tasks().is_empty());
    assert_eq!(tasks.root_version().unwrap(), v("0.1.1"));
    assert_eq!(tasks.packages().root_version().unwrap(), v("0.1.0"));
}

#[test]
fn full_release_with_tag_push_and_publish() {
    let mut c = cli(Action::Minor);
    c.git_ops.git_tag = true;
    c.git_ops.git_push = true;
    c.cargo_publish = true;
    let tasks =
        Tasks::generate_tasks(&c, simple_packages(), &clean_on("main", &["origin", "backup"])).unwrap();
    assert_eq!(
        tasks.tasks(),
        vec![
            bump("simple", Action::Minor, "0.2.0"),
            write("simple"),
            Task::CargoGenerateLock,
            Task::GitAdd(vec!["simple/Cargo.toml".into(), "Cargo.lock".into()]),
            Task::GitCommit,
            Task::GitTag(v("0.2.0")),
            Task::GitPush { remote: "origin".into(), tag: "0.2.0".into() },
            Task::GitPush { remote: "backup".into(), tag: "0.2.0".into() },
            Task::CargoPublish,
        ]
    );
    assert!(tasks.run_after_completed_tasks().is_empty());
    assert_eq!(tasks.get_delete_tag(), None);
}

#[test]
fn dry_run_ends_in_the_cleanup_of_the_tag() {
    let mut c = cli(Action::Patch);
    c.git_ops.git_tag = true;
    c.dry_run = true;
    let tasks = Tasks::generate_tasks(&c, simple_packages(), &clean_on("main", &[])).unwrap();
    let list = tasks.tasks();
    assert_eq!(
        list,
        vec![
            bump("simple", Action::Patch, "0.1.1"),
            Task::CargoGenerateLock,
            Task::GitAdd(vec!["simple/Cargo.toml".into(), "Cargo.lock".into()]),
            Task::GitCommit,
            Task::GitTag(v("0.1.1")),
            Task::DeleteGitTag(v("0.1.1")),
        ]
    );
    let last = list.last().unwrap();
    assert!(last.is_delete_git_tag());
    assert!(last.is_run_after_completed());
    // the main pass leaves the cleanup out; only the cleanup pass holds it
    assert!(!tasks.main_tasks().contains(last));
    assert_eq!(tasks.main_tasks().len(), 5);
    assert_eq!(tasks.run_after_completed_tasks(), vec![Task::DeleteGitTag(v("0.1.1"))]);
    assert_eq!(tasks.get_delete_tag(), Some(Task::DeleteGitTag(v("0.1.1"))));
}

#[test]
fn push_comes_before_the_deleting_of_the_tag() {
    let mut c = cli(Action::Patch);
    c.git_ops.git_tag = true;
    c.git_ops.git_push = true;
    c.dry_run = true;
    let mut tasks = Tasks::generate_tasks(&c, simple_packages(), &clean_on("main", &["origin"])).unwrap();
    let push = Task::GitPush { remote: "origin".into(), tag: "0.1.1".into() };
    let delete = Task::DeleteGitTag(v("0.1.1"));
    let list = tasks.tasks();
    let at = |t: &Task| list.iter().position(|x| x == t).unwrap();
    assert!(at(&push) < at(&delete));
    // while the push runs, the join is not over, and the cleanup is not part of it
    for task in tasks.main_tasks() {
        let event = if task.is_git_push() { RunEvent::Spawned(Child { id: 1 }) } else { RunEvent::Done };
        tasks.record_run(&task, event).unwrap();
    }
    assert!(!tasks.join_finished());
    assert_eq!(tasks.pending_tasks(), vec![push.clone()]);
    tasks.record_join(&push, JoinEvent::Running).unwrap();
    assert!(!tasks.join_finished());
    assert!(!tasks.is_completed(&delete));
    tasks.record_join(&push, JoinEvent::Exited(exited(0, ""))).unwrap();
    assert!(tasks.join_finished());
    assert_eq!(tasks.incomplete_tasks(), vec![delete.clone()]);
    assert_eq!(tasks.run_after_completed_tasks(), vec![delete]);
}

#[test]
fn inherited_packages_share_one_workspace_task() {
    let w = packages(
        vec![inherited("a", "1.0.0"), inherited("b", "1.0.0"), own("c", "0.3.0")],
        None,
        Some(workspace_entry("1.0.0")),
    );
    let mut c = cli(Action::Minor);
    c.workspace.workspace = true;
    let tasks = Tasks::generate_tasks(&c, w, &clean_on("main", &[])).unwrap();
    assert_eq!(
        tasks.tasks(),
        vec![
            bump("c", Action::Minor, "0.4.0"),
            write("c"),
            Task::BumpWorkspace { bump: Action::Minor, new_version: v("1.1.0") },
            write("workspace.package"),
        ]
    );
    assert_eq!(tasks.version_change_tasks().len(), 2);
    // the version of the workspace stands for the batch
    assert_eq!(tasks.root_version().unwrap(), v("1.1.0"));
}

#[test]
fn set_and_print_and_tree() {
    let mut c = cli(Action::SetVersion);
    c.set_version = Some(v("5.0.0"));
    let tasks = Tasks::generate_tasks(&c, simple_packages(), &clean_on("main", &[])).unwrap();
    assert_eq!(
        tasks.tasks(),
        vec![
            Task::SetVersion { package_name: PackageName::new("simple"), new_version: v("5.0.0") },
            write("simple"),
        ]
    );
    let tasks = Tasks::generate_tasks(&cli(Action::Print), simple_packages(), &clean_on("main", &[])).unwrap();
    assert_eq!(tasks.tasks(), vec![Task::DisplayVersion(PackageName::new("simple"))]);
    let tasks = Tasks::generate_tasks(&cli(Action::Tree), simple_packages(), &clean_on("main", &[])).unwrap();
    assert_eq!(tasks.tasks(), vec![Task::WorkspaceTree]);
    let mut c = cli(Action::Print);
    c.workspace.workspace_package = true;
    let w = packages(vec![own("a", "1.0.0")], Some("a"), Some(workspace_entry("2.0.0")));
    let tasks = Tasks::generate_tasks(&c, w, &clean_on("main", &[])).unwrap();
    assert_eq!(
        tasks.tasks(),
        vec![
            Task::DisplayVersion(PackageName::new("a")),
            Task::DisplayVersion(PackageName::workspace_package()),
        ]
    );
}

#[test]
fn generation_faults() {
    let dirty = Surroundings {
        cwd: "/ws".into(),
        dirty_files: GitFiles::parse(" M src/lib.rs\n?? new.rs\n").unwrap(),
        current_branch: Branch::Named { local: "main".into() },
        remotes: vec![],
    };
    match Tasks::generate_tasks(&cli(Action::Patch), simple_packages(), &dirty) {
        Err(GenerateError::Dirty(e)) => {
            assert_eq!(e.count, 2);
            assert_eq!(e.files, "src/lib.rs\nnew.rs\n");
        }
        other => panic!("{other:?}"),
    }
    let mut allowed = cli(Action::Patch);
    allowed.allow_dirty = true;
    assert!(Tasks::generate_tasks(&allowed, simple_packages(), &dirty).is_ok());

    let mut c = cli(Action::Patch);
    c.workspace.exclude = vec!["simple".into()];
    match Tasks::generate_tasks(&c, simple_packages(), &clean_on("main", &[])) {
        Err(GenerateError::NoPackages { excluded }) => assert_eq!(excluded, vec!["simple"]),
        other => panic!("{other:?}"),
    }
    // no root package and nothing else asked for: nothing is selected
    let rootless = packages(vec![own("a", "1.0.0")], None, None);
    assert!(matches!(
        Tasks::generate_tasks(&cli(Action::Patch), rootless, &clean_on("main", &[])),
        Err(GenerateError::NoPackages { .. })
    ));

    assert!(matches!(
        Tasks::generate_tasks(&cli(Action::SetVersion), simple_packages(), &clean_on("main", &[])),
        Err(GenerateError::MissingVersion)
    ));

    let pre = packages(vec![own("p", "0.1.1-alpha.2")], Some("p"), None);
    match Tasks::generate_tasks(&cli(Action::Minor), pre.clone(), &clean_on("main", &[])) {
        Err(GenerateError::Version(e)) => assert_eq!(e.kind, VersionErrorKind::PrereleaseNotEmpty),
        other => panic!("{other:?}"),
    }
    match Tasks::generate_tasks(&cli(Action::Pre), simple_packages(), &clean_on("main", &[])) {
        Err(GenerateError::Version(e)) => assert_eq!(e.kind, VersionErrorKind::PrereleaseNotSet),
        other => panic!("{other:?}"),
    }
    let mut forced = cli(Action::Minor);
    forced.force_version = true;
    assert_eq!(
        Tasks::generate_tasks(&forced, pre, &clean_on("main", &[])).unwrap().tasks()[0],
        bump("p", Action::Minor, "0.2.0")
    );

    let mut c = cli(Action::Patch);
    c.workspace.workspace_package = true;
    assert!(matches!(
        Tasks::generate_tasks(&c, simple_packages(), &clean_on("main", &[])),
        Err(GenerateError::NoWorkspacePackage)
    ));

    let mut c = cli(Action::Patch);
    c.workspace.workspace = true;
    let apart = packages(vec![own("a", "1.0.0"), own("b", "2.0.0")], None, None);
    assert!(matches!(
        Tasks::generate_tasks(&c, apart, &clean_on("main", &[])),
        Err(GenerateError::NoRootVersion)
    ));
}

#[test]
fn overrides_reach_the_tasks() {
    let mut c = cli(Action::Minor);
    c.pre = Some(Prerelease::new("rc.1").unwrap());
    c.build = Some(cargo_uv::version::BuildMetadata::new("b7"));
    let tasks = Tasks::generate_tasks(&c, simple_packages(), &clean_on("main", &[])).unwrap();
    assert_eq!(tasks.tasks()[0], bump("simple", Action::Minor, "0.2.0-rc.1+b7"));
}

#[test]
fn another_branch_brackets_the_batch() {
    let mut c = cli(Action::Patch);
    c.allow_dirty = true;
    c.git_ops.branch = Branch::Named { local: "release".into() };
    let main = Branch::Named { local: "main".into() };
    let release = Branch::Named { local: "release".into() };
    let dirty = Surroundings {
        cwd: "/ws".into(),
        dirty_files: GitFiles::parse("M a\n").unwrap(),
        current_branch: main.clone(),
        remotes: vec![],
    };
    let tasks = Tasks::generate_tasks(&c, simple_packages(), &dirty).unwrap();
    assert_eq!(
        tasks.tasks(),
        vec![
            Task::GitStash { branch: main.clone(), stash: Stash::Stash },
            Task::GitSwitchBranch { to: release.clone(), from: main.clone() },
            bump("simple", Action::Patch, "0.1.1"),
            write("simple"),
            Task::GitSwitchBranch { to: main.clone(), from: release.clone() },
            Task::GitStash { branch: main.clone(), stash: Stash::Unstash },
        ]
    );
    assert!(tasks.get_change_branch().unwrap().is_git_switch_branch());
    let tasks = Tasks::generate_tasks(&c, simple_packages(), &clean_on("main", &[])).unwrap();
    assert_eq!(tasks.tasks().len(), 4);
    // asking for the branch that is checked out switches nothing
    let tasks = Tasks::generate_tasks(&c, simple_packages(), &clean_on("release", &[])).unwrap();
    assert_eq!(tasks.tasks().len(), 2);
    assert_eq!(tasks.get_change_branch(), None);
}

#[test]
fn three_tasks_all_complete() {
    let mut tasks = Tasks::new(simple_packages());
    let push = Task::GitPush { remote: "origin".into(), tag: "0.1.1".into() };
    let local = bump("simple", Action::Patch, "0.1.1");
    tasks.queue(&vec![local.clone(), push.clone(), Task::CargoPublish]);
    tasks.record_run(&local, RunEvent::Done).unwrap();
    tasks.record_run(&push, RunEvent::Spawned(Child { id: 10 })).unwrap();
    tasks.record_run(&Task::CargoPublish, RunEvent::Spawned(Child { id: 11 })).unwrap();
    assert_eq!(tasks.remaining_tasks_left(), 2);
    assert!(tasks.remaining_tasks());
    for task in tasks.pending_tasks() {
        assert!(tasks.settle(&task).is_some());
        tasks.record_join(&task, JoinEvent::Exited(exited(0, ""))).unwrap();
    }
    assert!(tasks.join_finished());
    assert_eq!(tasks.completed_tasks(), vec![local, push.clone(), Task::CargoPublish]);
    assert!(tasks.incomplete_tasks().is_empty());
    assert!(!tasks.remaining_tasks());
    assert_eq!(tasks.child_of(&push), None);
}

#[test]
fn one_process_fails() {
    let mut tasks = Tasks::new(simple_packages());
    let first = Task::GitPush { remote: "origin".into(), tag: "0.1.1".into() };
    let second = Task::GitPush { remote: "backup".into(), tag: "0.1.1".into() };
    tasks.queue(&vec![first.clone(), second.clone(), Task::CargoPublish]);
    tasks.record_run(&first, RunEvent::Spawned(Child { id: 1 })).unwrap();
    tasks.record_run(&second, RunEvent::Spawned(Child { id: 2 })).unwrap();
    tasks.record_join(&first, JoinEvent::Exited(exited(0, ""))).unwrap();
    let e = tasks.record_join(&second, JoinEvent::Exited(exited(128, "fatal: no remote"))).unwrap_err();
    assert_eq!(e.errored_task, second);
    assert_eq!(e.completed_tasks, vec![first]);
    assert_eq!(e.incomplete_tasks, vec![second, Task::CargoPublish]);
    assert_eq!(e.output, "fatal: no remote");
    assert_eq!(e.status_code, Some(ExitStatus { code: Some(128) }));
    assert_eq!(e.msg, "Exited with code: 128");
    let e = tasks.record_join(&Task::CargoPublish, JoinEvent::WaitFailed("gone".into())).unwrap_err();
    assert_eq!(e.output, "Unknown Ourput");
    assert_eq!(e.status_code, None);
    assert_eq!(e.msg, "");
}

#[test]
fn tasks_without_process_settle() {
    let mut tasks = Tasks::new(simple_packages());
    tasks.queue(&vec![Task::GitCommit, Task::DeleteGitTag(v("1.0.0"))]);
    assert_eq!(tasks.pending_tasks(), vec![Task::GitCommit]);
    assert_eq!(tasks.settle(&Task::GitCommit), None);
    assert!(tasks.join_finished());
    assert!(tasks.is_completed(&Task::GitCommit));
    assert!(!tasks.complete_task(&Task::GitCommit));
}

#[test]
fn commands_that_were_run() {
    let mut tasks = Tasks::new(simple_packages());
    let tag = Task::GitTag(v("1.0.0"));
    tasks.queue(&vec![Task::GitCommit, tag.clone()]);
    // a commit that ends without success still counts
    tasks.record_run(&Task::GitCommit, RunEvent::Finished(exited(1, "nothing to commit"))).unwrap();
    assert!(tasks.is_completed(&Task::GitCommit));
    let e = tasks.record_run(&tag, RunEvent::Finished(exited(-1, "tag exists"))).unwrap_err();
    assert_eq!(e.msg, "Exited with code: -1");
    assert_eq!(e.output, "tag exists");
    assert_eq!(e.completed_tasks, vec![Task::GitCommit]);
    assert_eq!(e.incomplete_tasks, vec![tag.clone()]);
    let e = tasks.record_run(&tag, RunEvent::Failed("no git".into())).unwrap_err();
    assert_eq!(e.msg, "no git");
    tasks.record_run(&tag, RunEvent::Finished(exited(0, ""))).unwrap();
    assert!(tasks.join_finished());
}

#[test]
fn running_tasks() {
    let git = GitBuilder::new().root_directory("/ws".to_string()).build();
    let cargo = Cargo::new(Some("/ws/Cargo.toml".to_string()));
    let mut c = cli(Action::Patch);
    c.dry_run = true;
    let mut w = simple_packages();
    let run = |task: Task, w: &mut Packages| task.run(&c, w, &git, &cargo);

    match run(bump("simple", Action::Patch, "0.1.1"), &mut w).unwrap() {
        TaskAction::Done => {}
        other => panic!("{other:?}"),
    }
    assert_eq!(w.get_root_package().unwrap().version(), &v("0.1.1"));
    assert!(matches!(
        run(bump("missing", Action::Patch, "0.1.1"), &mut w),
        Err(TaskRunError::Package(_))
    ));
    match run(Task::DisplayVersion(PackageName::new("simple")), &mut w).unwrap() {
        TaskAction::Print(text) => assert_eq!(text, "simple 0.1.1"),
        other => panic!("{other:?}"),
    }
    match run(write("simple"), &mut w).unwrap() {
        TaskAction::WriteManifest(m) => {
            assert_eq!(m.path, "/ws/simple/Cargo.toml");
            assert_eq!(m.location, VersionLocation::Package);
            assert_eq!(m.version, v("0.1.1"));
        }
        other => panic!("{other:?}"),
    }
    match run(Task::GitPush { remote: "origin".into(), tag: "0.1.1".into() }, &mut w).unwrap() {
        TaskAction::Spawn(cmd) => {
            assert_eq!(cmd.program, "git");
            assert_eq!(cmd.args, vec!["-C", "/ws", "push", "--dry-run", "origin", "0.1.1", "--porcelain"]);
        }
        other => panic!("{other:?}"),
    }
    match run(Task::CargoPublish, &mut w).unwrap() {
        TaskAction::Spawn(cmd) => {
            assert_eq!(cmd.program, "cargo");
            assert_eq!(
                cmd.args,
                vec!["--manifest-path", "/ws/Cargo.toml", "publish", "--dry-run", "--allow-dirty"]
            );
        }
        other => panic!("{other:?}"),
    }
    match run(Task::GitCommit, &mut w).unwrap() {
        TaskAction::Run(cmd) => {
            assert_eq!(cmd.args, vec!["-C", "/ws", "commit", "--dry-run", "--message", "0.1.1"]);
        }
        other => panic!("{other:?}"),
    }
    match run(Task::DeleteGitTag(v("0.1.1")), &mut w).unwrap() {
        TaskAction::Run(cmd) => assert_eq!(cmd.args, vec!["-C", "/ws", "tag", "--delete", "0.1.1"]),
        other => panic!("{other:?}"),
    }
    match run(Task::GitTag(v("0.1.1")), &mut w).unwrap() {
        TaskAction::Run(cmd) => assert_eq!(cmd.args, vec!["-C", "/ws", "tag", "0.1.1"]),
        other => panic!("{other:?}"),
    }
    match run(Task::GitAdd(vec!["Cargo.lock".into()]), &mut w).unwrap() {
        TaskAction::Run(cmd) => assert_eq!(cmd.args, vec!["-C", "/ws", "add", "Cargo.lock"]),
        other => panic!("{other:?}"),
    }
    match run(Task::CargoGenerateLock, &mut w).unwrap() {
        TaskAction::Run(cmd) => {
            assert_eq!(cmd.args, vec!["--manifest-path", "/ws/Cargo.toml", "generate-lockfile"])
        }
        other => panic!("{other:?}"),
    }
    match run(Task::WorkspaceTree, &mut w).unwrap() {
        TaskAction::Print(text) => assert!(text.starts_with("Workspace root: /ws\n")),
        other => panic!("{other:?}"),
    }
    let to = Branch::Named { local: "release".into() };
    match run(Task::GitSwitchBranch { to: to.clone(), from: Branch::Current }, &mut w).unwrap() {
        TaskAction::Run(cmd) => assert_eq!(cmd.args, vec!["-C", "/ws", "checkout", "release"]),
        other => panic!("{other:?}"),
    }
    assert!(matches!(
        run(Task::GitSwitchBranch { to: Branch::Current, from: to.clone() }, &mut w),
        Err(TaskRunError::Git(_))
    ));
    match run(Task::GitStash { branch: to.clone(), stash: Stash::Unstash }, &mut w).unwrap() {
        TaskAction::Run(cmd) => assert_eq!(cmd.args, vec!["-C", "/ws", "stash", "pop"]),
        other => panic!("{other:?}"),
    }
    let mut apart = packages(vec![own("a", "1.0.0"), own("b", "2.0.0")], None, None);
    assert!(matches!(run(Task::GitCommit, &mut apart), Err(TaskRunError::NoRootVersion)));
}

#[test]
fn run_task_works_on_the_workspace_of_the_batch() {
    let git = GitBuilder::new().root_directory("/ws".to_string()).build();
    let cargo = Cargo::new(None);
    let c = cli(Action::Patch);
    let mut tasks = Tasks::generate_tasks(&c, simple_packages(), &clean_on("main", &[])).unwrap();
    for task in tasks.main_tasks() {
        match tasks.run_task(&task, &c, &git, &cargo).unwrap() {
            TaskAction::Done | TaskAction::WriteManifest(_) => tasks.record_run(&task, RunEvent::Done).unwrap(),
            other => panic!("{other:?}"),
        }
    }
    assert!(tasks.join_finished());
    assert_eq!(tasks.packages().root_version().unwrap(), v("0.1.1"));
    let e = tasks.run_task(&bump("nobody", Action::Patch, "1.0.0"), &c, &git, &cargo).unwrap_err();
    assert_eq!(e.errored_task, bump("nobody", Action::Patch, "1.0.0"));
    assert_eq!(e.completed_tasks.len(), 2);
    assert_eq!(e.msg, "No package by name: nobody");
}

#[test]
fn batch_root_version_precedence() {
    let w = packages(
        vec![own("a", "1.0.0"), own("b", "1.0.0")],
        Some("a"),
        Some(workspace_entry("1.0.0")),
    );
    let mut tasks = Tasks::new(w.clone());
    assert_eq!(tasks.root_version().unwrap(), v("1.0.0"));
    tasks.queue(&vec![
        bump("b", Action::Minor, "1.1.0"),
        Task::SetWorkspace { new_version: v("3.0.0") },
        bump("a", Action::Major, "2.0.0"),
    ]);
    // the task for the root package wins
    assert_eq!(tasks.root_version().unwrap(), v("2.0.0"));
    // once it has completed, the task for the workspace wins
    tasks.complete_task(&bump("a", Action::Major, "2.0.0"));
    assert_eq!(tasks.root_version().unwrap(), v("3.0.0"));
    tasks.complete_task(&Task::SetWorkspace { new_version: v("3.0.0") });
    assert_eq!(tasks.root_version().unwrap(), v("1.1.0"));
    let mut apart = Tasks::new(w);
    apart.queue(&vec![bump("b", Action::Minor, "1.1.0"), bump("c", Action::Minor, "1.2.0")]);
    assert!(apart.root_version().is_err());
}

#[test]
fn tasks_as_text() {
    assert_eq!(bump("a", Action::Minor, "1.1.0").to_string(), "Bump minor: a -> 1.1.0");
    assert_eq!(Task::GitCommit.to_string(), "Git Commit");
    assert_eq!(
        Task::GitPush { remote: "origin".into(), tag: "1.0.0".into() }.to_string(),
        "Git Push: 1.0.0 to origin"
    );
    assert_eq!(Task::GitAdd(vec![]).to_string(), "Git Add: []");
    assert_eq!(
        Task::GitAdd(vec!["a".into(), "b".into()]).to_string(),
        "Git Add: [\n    \"a\",\n    \"b\",\n]"
    );
    assert_eq!(
        Task::GitStash { branch: Branch::Current, stash: Stash::Unstash }.to_string(),
        "Git Stash: Unstash files on ."
    );
    assert_eq!(Task::DeleteGitTag(v("1.0.0")).to_string(), "Delete Git Tag: 1.0.0");
    assert_eq!(write("a").to_string(), "Write Cargo.toml for: a");
    let mut tasks = Tasks::new(simple_packages());
    tasks.queue(&vec![Task::GitAdd(vec!["x".into()]), Task::GitCommit]);
    assert_eq!(
        DisplayTasks::new(&tasks).to_string(),
        "2 Tasks:\n├─ 1. Git Add: [\n│      \"x\",\n│  ]\n└─ 2. Git Commit\n\n"
    );
    assert_eq!(DisplayTasks::new(&tasks).tasks().len(), 2);
    assert!(Task::GitCommit.as_git_push().is_none());
    assert!(Task::DisplayVersion(PackageName::new("a")).is_display_version());
    assert!(bump("a", Action::Minor, "1.1.0").is_version_change());
}

#[test]
fn batch_partitions_its_packages() {
    let w = packages(vec![own("a", "1.0.0"), own("b", "1.0.0")], Some("a"), None);
    let tasks = Tasks::new(w);
    let (i, e) = tasks.partition_packages(&Workspace::default());
    assert_eq!(i.len(), 1);
    assert_eq!(i[0].name(), &PackageName::new("a"));
    assert_eq!(e[0].name(), &PackageName::new("b"));
    let mut all = Workspace::default();
    all.workspace = true;
    let (i, e) = tasks.partition_packages_owned(&all);
    assert_eq!((i.len(), e.len()), (2, 0));
}
