use cargo_uv::cli::Suppress;
use cargo_uv::git::GitError;
use cargo_uv::process::{Command, ExitStatus, Output, Stdio};
use cargo_uv::version::Version;
use cargo_uv::{
    Branch, Cargo, Git, GitBuilder, GitFile, GitFiles, NoRootDirSet, OutputExt, Process,
    ProcessOutput, Stash,
};

fn out(code: i32, stdout: &str, stderr: &str) -> Output {
    Output {
        status: ExitStatus { code: Some(code) },
        stdout: stdout.as_bytes().to_vec(),
        stderr: stderr.as_bytes().to_vec(),
    }
}

fn git() -> Git<String> {
    GitBuilder::new().root_directory("/repo".to_string()).build()
}

#[test]
fn display_command_correctly_using_arg() {
    let mut cmd = Command::new("git");
    cmd.arg("not");
    cmd.arg("a");
    cmd.arg("command");
    assert_eq!("git not a command", Process::display_command(&cmd).as_str());
}

#[test]
fn display_command_correctly_using_args() {
    let mut cmd = Command::new("git");
    cmd.args(&vec!["not".to_string(), "a".to_string(), "command".to_string()]);
    assert_eq!("git not a command", Process::display_command(&cmd).as_str());
    assert_eq!(Process::display_command(&Command::new("git")), "git");
    assert_eq!(cmd.get_program(), "git");
    assert_eq!(cmd.get_args().len(), 3);
}

#[test]
fn output_as_text() {
    let o = Output { status: ExitStatus { code: None }, stdout: vec![104, 105, 233], stderr: vec![] };
    assert_eq!(o.stdout(), "hié");
    assert_eq!(o.stderr(), "");
    assert!(!o.status.success());
    assert!(ExitStatus { code: Some(0) }.success());
    assert!(!ExitStatus { code: Some(1) }.success());
    assert_eq!(ExitStatus { code: Some(3) }.code(), Some(3));
    let p = ProcessOutput::Output(o);
    assert!(p.as_output().is_some());
    assert!(p.as_child().is_none());
    assert!(p.try_into_output().is_ok());
    let c = ProcessOutput::Child(cargo_uv::process::Child { id: 4 });
    assert_eq!(c.as_child().unwrap().id(), 4);
    assert!(c.try_into_output().is_err());
}

#[test]
fn branches() {
    assert_eq!(Branch::from_str("  main \n"), Branch::Named { local: "main".into() });
    assert_eq!(Branch::from_str(" . "), Branch::Current);
    assert_eq!(Branch::from_str(""), Branch::Current);
    assert_eq!(Branch::from(".".to_string()), Branch::Current);
    assert_eq!(Branch::from("dev".to_string()), Branch::Named { local: "dev".into() });
    assert_eq!(Branch::default(), Branch::Current);
    let dev = Branch::Named { local: "dev".into() };
    assert!(dev.is_named());
    assert!(!dev.is_current());
    assert_eq!(dev.as_named(), Some(&"dev".to_string()));
    assert_eq!(dev.as_ref(), "dev");
    assert_eq!(Branch::Current.to_string(), ".");
    assert_eq!(Branch::Current.as_named(), None);
    assert_eq!(dev.clone().try_into_named(), Ok("dev".to_string()));
    assert_eq!(Branch::Current.try_into_named(), Err(Branch::Current));
}

#[test]
fn git_files() {
    let f = GitFile::parse("  M  src/lib.rs  ").unwrap();
    assert_eq!(f.mode, "M");
    assert_eq!(f.path, " src/lib.rs");
    assert_eq!(f.to_string(), " src/lib.rs");
    assert!(GitFile::parse("nospace").is_none());
    assert!(GitFile::parse("").is_none());
    assert!(GitFile::parse("   ").is_none());
    let files = GitFiles::parse("M a.rs\r\n\n?? b.rs\nbroken\nA c.rs").unwrap();
    assert_eq!(files.len(), 3);
    assert_eq!(files.as_ref()[1].mode, "??");
    assert_eq!(files.to_string(), "a.rs\nb.rs\nc.rs\n");
    assert!(GitFiles::parse("").is_none());
    assert!(GitFiles::parse("\n\n").is_none());
    assert!(GitFiles::new().is_empty());
}

#[test]
fn stash_states() {
    assert!(Stash::Stash.is_stash());
    assert!(Stash::Unstash.is_unstash());
    assert!(Stash::Unstash.revert_required());
    assert!(!Stash::Dont.revert_required());
    assert_eq!(Stash::default(), Stash::Stash);
    let g = git();
    let (c, s) = g.stash(Suppress::All, Stash::Stash, &GitFiles::new());
    assert_eq!(c.unwrap().args, vec!["-C", "/repo", "stash", "pop"]);
    assert_eq!(s, Stash::Unstash);
    let dirty = GitFiles::parse("M a\n").unwrap();
    let (c, s) = g.stash(Suppress::All, Stash::Unstash, &dirty);
    assert_eq!(c.unwrap().args, vec!["-C", "/repo", "stash", "push"]);
    assert_eq!(s, Stash::Stash);
    let (c, s) = g.stash(Suppress::All, Stash::Unstash, &GitFiles::new());
    assert_eq!(c.unwrap().args, vec!["-C", "/repo", "stash"]);
    assert_eq!(s, Stash::Unstash);
    let (c, s) = g.stash(Suppress::All, Stash::Dont, &dirty);
    assert!(c.is_none());
    assert_eq!(s, Stash::Dont);
}

#[test]
fn git_commands() {
    let g = git();
    assert_eq!(g.root_directory(), "/repo");
    assert_eq!(g.generate_tag(&Version::parse("1.2.3-rc.1").unwrap()), "1.2.3-rc.1");
    let quiet = g.command(true);
    assert_eq!(quiet.stdout, Stdio::Implied);
    assert_eq!(g.command(false).stdout, Stdio::Inherit);
    assert_eq!(Git::<NoRootDirSet>::command(false).args.len(), 0);
    assert_eq!(
        g.add_cargo_files().args,
        vec!["-C", "/repo", "add", "-v", "Cargo.toml", "Cargo.lock", "./**/Cargo.toml"]
    );
    assert_eq!(g.dirty_files_command().args, vec!["-C", "/repo", "status", "--short"]);
    assert_eq!(g.remotes_command().args, vec!["-C", "/repo", "remote"]);
    assert_eq!(
        g.branch(&vec!["--remotes".to_string()]).args,
        vec!["-C", "/repo", "branch", "--remotes"]
    );
    let c = g.current_branch_command();
    assert_eq!(c.args, vec!["-C", "/repo", "branch", "--show-current"]);
    assert_eq!(c.stdout, Stdio::Piped);
    assert_eq!(
        g.commit("msg", Suppress::Git, false).args,
        vec!["-C", "/repo", "commit", "--message", "msg"]
    );
    assert_eq!(g.commit("msg", Suppress::Git, false).stdout, Stdio::Implied);
    assert_eq!(g.commit("msg", Suppress::Cargo, false).stdout, Stdio::Inherit);
    assert_eq!(
        g.push("1.0.0", Suppress::Nothing, false, "origin").args,
        vec!["-C", "/repo", "push", "origin", "1.0.0", "--porcelain"]
    );
    let b = GitBuilder::new();
    assert_eq!(b.to_string(), "No root directory set for GitBuilder.");
    assert_eq!(b.find_root_directory_command().args, vec!["rev-parse", "--show-toplevel"]);
    assert_eq!(b.find_root_directory(&out(0, "/top", "")).build().root_directory(), "/top");
}

#[test]
fn git_output() {
    let g = git();
    let files = g.dirty_files(&out(0, " M a.rs\n", "")).unwrap();
    assert_eq!(files.len(), 1);
    assert!(g.dirty_files(&out(0, "", "")).unwrap().is_empty());
    assert!(matches!(g.dirty_files(&out(1, " M a.rs\n", "")), Err(GitError::StatusFailed)));
    assert_eq!(
        g.current_branch(&out(0, "feature/x\n", "")).unwrap(),
        Branch::Named { local: "feature/x".into() }
    );
    match g.current_branch(&out(128, "", "not a repo")) {
        Err(GitError::CommandFailed(msg)) => assert_eq!(msg, "not a repo"),
        other => panic!("{other:?}"),
    }
    assert!(g.tag_result(&out(0, "", "")).is_ok());
    assert!(matches!(g.tag_result(&out(1, "", "")), Err(GitError::TagFailed)));
    assert!(g.command_result(&out(0, "", "")).is_ok());
    assert!(g.command_result(&out(2, "", "x")).is_err());
}

#[test]
fn remotes_of_the_branch() {
    let g = git();
    assert_eq!(
        g.remotes("origin\nbackup\n", "  origin/main\n  origin/dev\n  backup/main\n").unwrap(),
        vec!["origin", "backup"]
    );
    assert!(matches!(g.remotes("origin\n", ""), Err(GitError::NoRemote)));
    assert!(matches!(g.remotes("origin\n", "  main\n"), Err(GitError::NoRemote)));
    match g.remotes("origin\n", "  fork/main\n") {
        Err(GitError::UnknownRemote(name)) => assert_eq!(name, "fork"),
        other => panic!("{other:?}"),
    }
}

#[test]
fn cargo_commands() {
    let c = Cargo::new(None);
    assert_eq!(c.command(false).stdout, Stdio::Inherit);
    assert_eq!(c.command(true).stdout, Stdio::Piped);
    assert_eq!(c.publish(false, false, true).args, vec!["publish", "--no-verify", "--allow-dirty"]);
    assert_eq!(c.generate_lockfile().args, vec!["generate-lockfile"]);
    assert!(c.generate_lockfile_result(&out(0, "", "")).is_ok());
    assert_eq!(c.generate_lockfile_result(&out(1, "", "bad")), Err("bad".to_string()));
    assert_eq!(Cargo::default().command(true).args.len(), 0);
}

#[test]
fn suppress() {
    assert!(Suppress::Nothing.is_none());
    assert!(Suppress::Git.is_git());
    assert!(Suppress::Git.includes_git());
    assert!(Suppress::All.includes_git());
    assert!(!Suppress::Cargo.includes_git());
    assert!(Suppress::Cargo.is_cargo());
    assert!(Suppress::Cargo.includes_cargo());
    assert!(Suppress::All.includes_cargo());
    assert!(Suppress::All.is_all());
    assert_eq!(Suppress::default(), Suppress::Nothing);
    assert_eq!(Suppress::All.to_string(), "all");
}
