//! The commands that a release asks of git, and what their output says.
//! Nothing here runs a command: each function either says which command to
//! run, or reads the output of one that was run.

use crate::cli::suppress::Suppress;
use crate::git::branch::{Branch, BranchView};
use crate::git::git_file::{parse_git_lines, GitFiles};
use crate::process::{bytes_text, Command, CommandView, Output, OutputExt, Stdio};
use crate::collections::{
    string_set_insert, string_set_into_vec, string_set_items, string_set_new,
};
use crate::text::{
    chars_between, chars_of, copy_str, find_char, lines, lines_of, position, string_of,
    strings_contain, strings_view, trim, trim_chars, trim_end, trim_end_chars,
};
use indexmap::IndexSet;
use crate::version::semantic::{version_text, Version};
use vstd::prelude::*;

verus! {

/// Used to indicate if the Root Dir is Set and can be used.
#[derive(Debug, Clone, Copy, PartialEq, Eq)]
pub struct NoRootDirSet;

#[derive(Debug)]
pub struct GitBuilder<T> {
    root_directory: T,
}

impl GitBuilder<NoRootDirSet> {
    pub fn new() -> (b: Self) {
        Self { root_directory: NoRootDirSet }
    }

    /// The message for a builder that was given no root directory.
    pub fn to_string(&self) -> (s: String)
        ensures
            s@ == "No root directory set for GitBuilder."@,
    {
        copy_str("No root directory set for GitBuilder.")
    }
}

impl<T> GitBuilder<T> {
    /// Manually set the root directory of the project i.e. where .git lives.
    pub fn root_directory(self, path: String) -> (b: GitBuilder<String>)
        ensures
            b.spec_root() == path@,
    {
        GitBuilder { root_directory: path }
    }

    /// The command that asks git for the root directory:
    ///
    /// ```shell
    /// git rev-parse --show-toplevel
    /// ```
    pub fn find_root_directory_command(&self) -> (c: Command)
        ensures
            c@ == (CommandView {
                program: "git"@,
                args: seq!["rev-parse"@, "--show-toplevel"@],
                stdout: Stdio::Implied,
            }),
    {
        let mut git = Command::new("git");
        git.arg("rev-parse");
        git.arg("--show-toplevel");
        assert(git@.args == seq!["rev-parse"@, "--show-toplevel"@]);
        git
    }

    /// The builder with the root directory that git named in the output of
    /// the command of [`GitBuilder::find_root_directory_command`].
    pub fn find_root_directory(self, output: &Output) -> (b: GitBuilder<String>)
        ensures
            b.spec_root() == bytes_text(output.stdout@),
    {
        GitBuilder { root_directory: output.stdout() }
    }
}

impl GitBuilder<String> {
    /// The root directory that the builder was given.
    pub closed spec fn spec_root(&self) -> Seq<char> {
        self.root_directory@
    }

    pub fn build(self) -> (g: Git<String>)
        ensures
            g.spec_root() == self.spec_root(),
    {
        Git { root_directory: self.root_directory }
    }
}

#[derive(Debug)]
pub struct Git<T> {
    root_directory: T,
}

/// What went wrong with a command of git.
#[derive(Debug)]
pub enum GitError {
    /// `git status --short` failed.
    StatusFailed,
    /// `git tag` failed.
    TagFailed,
    /// No remote could be found for the current branch.
    NoRemote,
    /// A branch names a remote that `git remote` does not list.
    UnknownRemote(String),
    /// The branch to change to is the current branch.
    CurrentBranch,
    /// A command failed; this is what it wrote to its standard error.
    CommandFailed(String),
}

#[derive(Debug, PartialEq, Eq, Clone, Copy, Hash, Structural)]
pub enum Stash {
    /// Run git stash push
    Stash,
    /// Run git stash pop
    Unstash,
    /// Don't run
    Dont,
}

impl Default for Stash {
    fn default() -> (s: Stash)
        ensures
            s == Stash::Stash,
    {
        Stash::Stash
    }
}

impl Stash {
    /// Returns `true` if the stash is [`Stash::Stash`].
    #[must_use]
    pub fn is_stash(&self) -> (b: bool)
        ensures
            b == (*self == Stash::Stash),
    {
        matches!(self, Self::Stash)
    }

    /// Returns `true` if the stash is [`Stash::Unstash`].
    pub fn revert_required(&self) -> (b: bool)
        ensures
            b == (*self == Stash::Unstash),
    {
        self.is_unstash()
    }

    /// Returns `true` if the stash is [`Stash::Unstash`].
    #[must_use]
    pub fn is_unstash(&self) -> (b: bool)
        ensures
            b == (*self == Stash::Unstash),
    {
        matches!(self, Self::Unstash)
    }
}

/// The base command of git in a root directory: `git -C <root>`, with the
/// standard output of this program unless `quiet`.
pub open spec fn git_base(root: Seq<char>, quiet: bool) -> CommandView {
    CommandView {
        program: "git"@,
        args: seq!["-C"@, root],
        stdout: if quiet {
            Stdio::Implied
        } else {
            Stdio::Inherit
        },
    }
}

/// A command with more arguments.
pub open spec fn with_args(cmd: CommandView, args: Seq<Seq<char>>) -> CommandView {
    CommandView { args: cmd.args + args, ..cmd }
}

/// The arguments of `commit`.
pub open spec fn commit_args(message: Seq<char>, dry_run: bool) -> Seq<Seq<char>> {
    if dry_run {
        seq!["commit"@, "--dry-run"@, "--message"@, message]
    } else {
        seq!["commit"@, "--message"@, message]
    }
}

/// The arguments of `push`.
pub open spec fn push_args(tag: Seq<char>, dry_run: bool, remote: Seq<char>) -> Seq<Seq<char>> {
    if dry_run {
        seq!["push"@, "--dry-run"@, remote, tag, "--porcelain"@]
    } else {
        seq!["push"@, remote, tag, "--porcelain"@]
    }
}

/// What to do about the stash: the arguments of the command to run, if
/// any, and the state that the stash is in afterwards.
pub open spec fn stash_plan(state: Stash, dirty: bool) -> (Option<Seq<Seq<char>>>, Stash) {
    match state {
        Stash::Stash => (Some(seq!["stash"@, "pop"@]), Stash::Unstash),
        Stash::Unstash => if dirty {
            (Some(seq!["stash"@, "push"@]), Stash::Stash)
        } else {
            (Some(seq!["stash"@]), Stash::Unstash)
        },
        Stash::Dont => (None, Stash::Dont),
    }
}

/// Why the remotes of the current branch could not be told.
pub enum RemoteFault {
    /// A line of `git branch --remotes` names no remote, or there is no line.
    NoRemote,
    /// A line names a remote that `git remote` does not list.
    Unknown(Seq<char>),
}

/// The remote that a line of `git branch --remotes` names: what stands
/// before the first slash, without the white space around it.
pub open spec fn branch_remote(line: Seq<char>) -> Option<Seq<char>> {
    let at = position(line, '/');
    if at < 0 || at >= line.len() {
        None
    } else {
        Some(trim(line.take(at)))
    }
}

/// The remotes that the lines name, each once, in the order in which they
/// are first named. Every line must name a remote that is known.
pub open spec fn named_remotes(known: Seq<Seq<char>>, branch_lines: Seq<Seq<char>>) -> Result<
    Seq<Seq<char>>,
    RemoteFault,
>
    decreases branch_lines.len(),
{
    if branch_lines.len() == 0 {
        Ok(Seq::<Seq<char>>::empty())
    } else {
        match named_remotes(known, branch_lines.drop_last()) {
            Err(e) => Err(e),
            Ok(found) => match branch_remote(branch_lines.last()) {
                None => Err(RemoteFault::NoRemote),
                Some(remote) => if !known.contains(remote) {
                    Err(RemoteFault::Unknown(remote))
                } else if found.contains(remote) {
                    Ok(found)
                } else {
                    Ok(found.push(remote))
                },
            },
        }
    }
}

/// The remotes of the current branch, which are at least one.
pub open spec fn branch_remotes(known: Seq<Seq<char>>, branch_lines: Seq<Seq<char>>) -> Result<
    Seq<Seq<char>>,
    RemoteFault,
> {
    match named_remotes(known, branch_lines) {
        Err(e) => Err(e),
        Ok(found) => if found.len() == 0 {
            Err(RemoteFault::NoRemote)
        } else {
            Ok(found)
        },
    }
}

/// Where telling the remotes of the first `k` lines fails, telling those of
/// all lines fails in the same way.
pub proof fn lemma_named_remotes_error(known: Seq<Seq<char>>, branch_lines: Seq<Seq<char>>, k: int)
    requires
        0 <= k <= branch_lines.len(),
        named_remotes(known, branch_lines.take(k)) is Err,
    ensures
        named_remotes(known, branch_lines) == named_remotes(known, branch_lines.take(k)),
    decreases branch_lines.len(),
{
    if k == branch_lines.len() {
        assert(branch_lines.take(k) == branch_lines);
    } else {
        assert(branch_lines.drop_last().take(k) == branch_lines.take(k));
        lemma_named_remotes_error(known, branch_lines.drop_last(), k);
    }
}

/// The lines of a text, as strings.
fn line_strings(text: &str) -> (r: Vec<String>)
    ensures
        strings_view(r@) == lines(text@),
{
    let all = lines_of(&chars_of(text));
    let ghost texts = lines(text@);
    let mut r: Vec<String> = Vec::new();
    let mut k: usize = 0;
    assert(strings_view(r@) == texts.take(0));
    while k < all.len()
        invariant
            k <= all.len(),
            all@.map_values(|l: Vec<char>| l@) == texts,
            strings_view(r@) == texts.take(k as int),
        decreases all.len() - k,
    {
        let ghost before = strings_view(r@);
        r.push(string_of(&all[k]));
        assert(strings_view(r@) == before.push(texts[k as int]));
        assert(texts.take(k + 1) == texts.take(k as int).push(texts[k as int]));
        k += 1;
    }
    assert(texts.take(all.len() as int) == texts);
    r
}

/// Tells the remotes that the lines of `git branch --remotes` name.
fn collect_remotes(known: &Vec<String>, branch_lines: &Vec<Vec<char>>) -> (r: Result<
    Vec<String>,
    GitError,
>)
    ensures
        match branch_remotes(
            strings_view(known@),
            branch_lines@.map_values(|l: Vec<char>| l@),
        ) {
            Ok(found) => r matches Ok(list) && strings_view(list@) == found,
            Err(RemoteFault::NoRemote) => r matches Err(GitError::NoRemote),
            Err(RemoteFault::Unknown(name)) => r matches Err(GitError::UnknownRemote(n)) && n@
                == name,
        },
{
    let ghost names = strings_view(known@);
    let ghost texts = branch_lines@.map_values(|l: Vec<char>| l@);
    let mut found: IndexSet<String> = string_set_new();
    let mut i: usize = 0;
    assert(texts.take(0) == Seq::<Seq<char>>::empty());
    while i < branch_lines.len()
        invariant
            i <= branch_lines.len(),
            texts == branch_lines@.map_values(|l: Vec<char>| l@),
            names == strings_view(known@),
            named_remotes(names, texts.take(i as int)) == Ok::<Seq<Seq<char>>, RemoteFault>(
                string_set_items(found),
            ),
        decreases branch_lines.len() - i,
    {
        let line = &branch_lines[i];
        proof {
            assert(texts.take(i + 1).drop_last() == texts.take(i as int));
            assert(texts.take(i + 1).last() == line@);
            assert(line@.skip(0) == line@);
        }
        let at = find_char(line, '/', 0);
        if at >= line.len() {
            proof {
                assert(branch_remote(line@) is None);
                lemma_named_remotes_error(names, texts, i + 1);
            }
            return Err(GitError::NoRemote);
        }
        let before = chars_between(line, 0, at);
        assert(before@ == line@.take(at as int));
        let valid_remote = string_of(&trim_chars(&before));
        assert(branch_remote(line@) == Some(valid_remote@));
        if !strings_contain(known, valid_remote.as_str()) {
            proof {
                lemma_named_remotes_error(names, texts, i + 1);
            }
            return Err(GitError::UnknownRemote(valid_remote));
        }
        string_set_insert(&mut found, valid_remote);
        i += 1;
    }
    assert(texts.take(branch_lines.len() as int) == texts);
    let list = string_set_into_vec(found);
    if list.len() == 0 {
        Err(GitError::NoRemote)
    } else {
        Ok(list)
    }
}

impl Git<NoRootDirSet> {
    /// Base git command run in cwd.
    pub fn command(quiet: bool) -> (c: Command)
        ensures
            c@ == (CommandView {
                program: "git"@,
                args: Seq::<Seq<char>>::empty(),
                stdout: if quiet {
                    Stdio::Implied
                } else {
                    Stdio::Inherit
                },
            }),
    {
        let mut cmd = Command::new("git");
        if !quiet {
            cmd.stdout(Stdio::Inherit);
        }
        cmd
    }
}

impl Git<String> {
    /// The root directory.
    pub closed spec fn spec_root(&self) -> Seq<char> {
        self.root_directory@
    }

    /// Base git command run in set root path.
    pub fn command(&self, quiet: bool) -> (c: Command)
        ensures
            c@ == git_base(self.spec_root(), quiet),
    {
        let mut cmd = Command::new("git");
        cmd.arg("-C");
        cmd.arg(self.root_directory.as_str());
        if !quiet {
            cmd.stdout(Stdio::Inherit);
        }
        assert(cmd@.args == seq!["-C"@, self.spec_root()]);
        cmd
    }

    pub fn root_directory(&self) -> (p: &str)
        ensures
            p@ == self.spec_root(),
    {
        self.root_directory.as_str()
    }

    /// Adds all cargo files (Cargo.toml, Cargo.lock) in whole project to git.
    ///
    /// Equivalent to: `git add -v Cargo.toml Cargo.lock ./**/Cargo.toml`
    pub fn add_cargo_files(&self) -> (c: Command)
        ensures
            c@ == with_args(
                git_base(self.spec_root(), false),
                seq!["add"@, "-v"@, "Cargo.toml"@, "Cargo.lock"@, "./**/Cargo.toml"@],
            ),
    {
        let mut git = self.command(false);
        git.arg("add");
        git.arg("-v");
        git.arg("Cargo.toml");
        git.arg("Cargo.lock");
        git.arg("./**/Cargo.toml");
        assert(git@.args == git_base(self.spec_root(), false).args + seq![
            "add"@,
            "-v"@,
            "Cargo.toml"@,
            "Cargo.lock"@,
            "./**/Cargo.toml"@,
        ]);
        git
    }

    /// Adds the given files to git: `git add <files>`.
    pub fn add_files(&self, files: &Vec<String>) -> (c: Command)
        ensures
            c@ == with_args(
                git_base(self.spec_root(), false),
                seq!["add"@] + strings_view(files@),
            ),
    {
        let mut git = self.command(false);
        git.arg("add");
        git.args(files);
        assert(git@.args == git_base(self.spec_root(), false).args + (seq!["add"@] + strings_view(
            files@,
        )));
        git
    }

    /// The command that lists the dirty files: `git status --short`.
    pub fn dirty_files_command(&self) -> (c: Command)
        ensures
            c@ == with_args(git_base(self.spec_root(), true), seq!["status"@, "--short"@]),
    {
        let mut git = self.command(true);
        git.arg("status");
        git.arg("--short");
        assert(git@.args == git_base(self.spec_root(), true).args + seq![
            "status"@,
            "--short"@,
        ]);
        git
    }

    /// Generates a [`GitFiles`] of dirty files from the output of the command
    /// of [`Git::dirty_files_command`]. Only errors if the command failed.
    pub fn dirty_files(&self, output: &Output) -> (r: Result<GitFiles, GitError>)
        ensures
            !output.status.success() ==> r matches Err(GitError::StatusFailed),
            output.status.success() ==> (r matches Ok(files) && files@ == parse_git_lines(
                lines(bytes_text(output.stdout@)),
            )),
    {
        if !output.status.success() {
            return Err(GitError::StatusFailed);
        }
        let stdout = output.stdout();
        match GitFiles::parse(stdout.as_str()) {
            Some(files) => Ok(files),
            None => Ok(GitFiles::new()),
        }
    }

    /// The command that commits what is staged, with the given message.
    pub fn commit(&self, message: &str, suppress: Suppress, dry_run: bool) -> (c: Command)
        ensures
            c@ == with_args(
                git_base(self.spec_root(), suppress.includes_git()),
                commit_args(message@, dry_run),
            ),
    {
        let mut git = self.command(suppress.includes_git());
        let ghost base = git@.args;
        git.arg("commit");
        if dry_run {
            git.arg("--dry-run");
        }
        git.arg("--message");
        git.arg(message);
        assert(git@.args == base + commit_args(message@, dry_run));
        git
    }

    /// The command that tags the repository with the version, `args` going
    /// between `tag` and the tag.
    pub fn tag(&self, version: &Version, suppress: Suppress, args: &Vec<String>) -> (c: Command)
        ensures
            c@ == with_args(
                git_base(self.spec_root(), suppress.includes_git()),
                seq!["tag"@] + strings_view(args@) + seq![version_text(version@)],
            ),
    {
        let mut git = self.command(suppress.includes_git());
        let ghost base = git@.args;
        git.arg("tag");
        git.args(args);
        let tag = self.generate_tag(version);
        git.arg(tag.as_str());
        assert(git@.args == base + (seq!["tag"@] + strings_view(args@) + seq![
            version_text(version@),
        ]));
        git
    }

    /// Whether the command of [`Git::tag`] did its work.
    pub fn tag_result(&self, output: &Output) -> (r: Result<(), GitError>)
        ensures
            output.status.success() ==> r is Ok,
            !output.status.success() ==> r matches Err(GitError::TagFailed),
    {
        if !output.status.success() {
            Err(GitError::TagFailed)
        } else {
            Ok(())
        }
    }

    /// The tag of a version: the version as it is written.
    pub fn generate_tag(&self, version: &Version) -> (tag: String)
        ensures
            tag@ == version_text(version@),
    {
        version.to_string()
    }

    /// The command that pushes just the tag to the remote.
    pub fn push(&self, tag: &str, suppress: Suppress, dry_run: bool, remote: &str) -> (c: Command)
        ensures
            c@ == with_args(
                git_base(self.spec_root(), suppress.includes_git()),
                push_args(tag@, dry_run, remote@),
            ),
    {
        let mut git_push = self.command(suppress.includes_git());
        let ghost base = git_push@.args;
        git_push.arg("push");
        if dry_run {
            git_push.arg("--dry-run");
        }
        git_push.arg(remote);
        git_push.arg(tag);
        git_push.arg("--porcelain");
        assert(git_push@.args == base + push_args(tag@, dry_run, remote@));
        git_push
    }

    /// The command that lists the remotes: `git remote`.
    pub fn remotes_command(&self) -> (c: Command)
        ensures
            c@ == with_args(git_base(self.spec_root(), true), seq!["remote"@]),
    {
        let mut git = self.command(true);
        git.arg("remote");
        assert(git@.args == git_base(self.spec_root(), true).args + seq!["remote"@]);
        git
    }

    /// Returns a list of remotes for the current branch, from the output of
    /// `git remote` and the output of `git branch --remotes`.
    ///
    /// Returns an error if the list is empty.
    pub fn remotes(&self, remote_stdout: &str, branch_stdout: &str) -> (r: Result<
        Vec<String>,
        GitError,
    >)
        ensures
            match branch_remotes(lines(remote_stdout@), lines(branch_stdout@)) {
                Ok(found) => r matches Ok(list) && strings_view(list@) == found,
                Err(RemoteFault::NoRemote) => r matches Err(GitError::NoRemote),
                Err(RemoteFault::Unknown(name)) => r matches Err(GitError::UnknownRemote(n))
                    && n@ == name,
            },
    {
        let known = line_strings(remote_stdout);
        let branch_lines = lines_of(&chars_of(branch_stdout));
        collect_remotes(&known, &branch_lines)
    }

    /// The command `git branch` with any additional arguments.
    pub fn branch(&self, args: &Vec<String>) -> (c: Command)
        ensures
            c@ == with_args(
                git_base(self.spec_root(), true),
                seq!["branch"@] + strings_view(args@),
            ),
    {
        let mut git = self.command(true);
        git.arg("branch");
        git.args(args);
        assert(git@.args == git_base(self.spec_root(), true).args + (seq!["branch"@]
            + strings_view(args@)));
        git
    }

    /// The command that names the current branch:
    /// `git branch --show-current`, its output read by this program.
    pub fn current_branch_command(&self) -> (c: Command)
        ensures
            c@ == (CommandView {
                stdout: Stdio::Piped,
                ..with_args(
                    git_base(self.spec_root(), false),
                    seq!["branch"@, "--show-current"@],
                )
            }),
    {
        let mut cmd = self.command(false);
        cmd.arg("branch");
        cmd.arg("--show-current");
        cmd.stdout(Stdio::Piped);
        assert(cmd@.args == git_base(self.spec_root(), false).args + seq![
            "branch"@,
            "--show-current"@,
        ]);
        cmd
    }

    /// The current branch, from the output of the command of
    /// [`Git::current_branch_command`]: the branch named by the output
    /// without the white space at its end.
    pub fn current_branch(&self, output: &Output) -> (r: Result<Branch, GitError>)
        ensures
            output.status.success() ==> (r matches Ok(b) && b@ == (BranchView::Named {
                local: trim_end(bytes_text(output.stdout@)),
            })),
            !output.status.success() ==> (r matches Err(GitError::CommandFailed(msg)) && msg@
                == bytes_text(output.stderr@)),
    {
        if output.status.success() {
            let stdout = output.stdout();
            let name = trim_end_chars(&chars_of(stdout.as_str()));
            Ok(Branch::Named { local: string_of(&name) })
        } else {
            Err(GitError::CommandFailed(output.stderr()))
        }
    }

    /// The command that changes to a named branch: `git checkout <name>`.
    /// Fails for the current branch, to which there is no changing.
    pub fn checkout(&self, branch: &Branch, suppress: Suppress) -> (r: Result<Command, GitError>)
        ensures
            branch@ is Current ==> r matches Err(GitError::CurrentBranch),
            branch@ matches BranchView::Named { local } ==> (r matches Ok(c) && c@ == with_args(
                git_base(self.spec_root(), suppress.includes_git()),
                seq!["checkout"@, local],
            )),
    {
        match branch {
            Branch::Named { local } => {
                let mut cmd = self.command(suppress.includes_git());
                let ghost base = cmd@.args;
                cmd.arg("checkout");
                cmd.arg(local.as_str());
                assert(cmd@.args == base + seq!["checkout"@, local@]);
                Ok(cmd)
            },
            Branch::Current => Err(GitError::CurrentBranch),
        }
    }

    /// What to do about the stash, given the dirty files: the command to run,
    /// if any, and the state that the stash is in afterwards.
    ///
    /// - [`Stash::Stash`]: `git stash pop`, then [`Stash::Unstash`].
    /// - [`Stash::Unstash`]: with dirty files `git stash push`, then
    ///   [`Stash::Stash`]; without, `git stash` and the state stays.
    /// - [`Stash::Dont`]: nothing.
    pub fn stash(&self, suppress: Suppress, state: Stash, files: &GitFiles) -> (r: (
        Option<Command>,
        Stash,
    ))
        ensures
            r.1 == stash_plan(state, files@.len() > 0).1,
            match stash_plan(state, files@.len() > 0).0 {
                None => r.0 is None,
                Some(args) => r.0 matches Some(c) && c@ == with_args(
                    git_base(self.spec_root(), suppress.includes_git()),
                    args,
                ),
            },
    {
        let mut ret_stash: Stash = state;
        let mut git = self.command(suppress.includes_git());
        let ghost base = git@.args;
        git.arg("stash");
        match state {
            Stash::Stash => {
                git.arg("pop");
                ret_stash = Stash::Unstash;
                assert(git@.args == base + seq!["stash"@, "pop"@]);
            },
            Stash::Unstash => {
                if !files.is_empty() {
                    git.arg("push");
                    ret_stash = Stash::Stash;
                    assert(git@.args == base + seq!["stash"@, "push"@]);
                } else {
                    assert(git@.args == base + seq!["stash"@]);
                }
            },
            Stash::Dont => {
                return (None, state);
            },
        }
        (Some(git), ret_stash)
    }

    /// Whether a command did its work; where it did not, the error holds what
    /// the command wrote to its standard error.
    pub fn command_result(&self, output: &Output) -> (r: Result<(), GitError>)
        ensures
            output.status.success() ==> r is Ok,
            !output.status.success() ==> (r matches Err(GitError::CommandFailed(msg)) && msg@
                == bytes_text(output.stderr@)),
    {
        if output.status.success() {
            Ok(())
        } else {
            Err(GitError::CommandFailed(output.stderr()))
        }
    }
}

} // verus!
