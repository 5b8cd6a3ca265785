//! How tasks are shown: each task on a line, and the batch as a numbered
//! list.

use crate::cli::action::action_text;
use crate::git::branch::branch_text;
use crate::git::git::Stash;
use crate::tasks::task::{Task, TaskView};
use crate::tasks::tasks::{tasks_view, Tasks};
use crate::text::{
    chars_of, decimal_digits, format_decimal, join, join_chars, lines, lines_of, push_chars,
    string_of, strings_view,
};
use crate::version::semantic::version_text;
use vstd::prelude::*;

verus! {

/// The name of a state of the stash.
pub open spec fn stash_text(stash: Stash) -> Seq<char> {
    match stash {
        Stash::Stash => "Stash"@,
        Stash::Unstash => "Unstash"@,
        Stash::Dont => "Dont"@,
    }
}

/// The paths between square brackets, each on a line of its own, indented,
/// between double quotes and followed by a comma; no path at all is shown as
/// two brackets.
pub open spec fn paths_text(paths: Seq<Seq<char>>) -> Seq<char> {
    if paths.len() == 0 {
        "[]"@
    } else {
        "[\n"@ + path_lines(paths) + "]"@
    }
}

/// Each path on a line of its own, indented, between double quotes and
/// followed by a comma.
pub open spec fn path_lines(paths: Seq<Seq<char>>) -> Seq<char>
    decreases paths.len(),
{
    if paths.len() == 0 {
        Seq::<char>::empty()
    } else {
        path_lines(paths.drop_last()) + "    \""@ + paths.last() + "\",\n"@
    }
}

/// How a task is shown.
pub open spec fn task_text(task: TaskView) -> Seq<char> {
    match task {
        TaskView::DisplayVersion(package) => "Print Version: "@ + package,
        TaskView::WorkspaceTree => "Display Workspace Tree"@,
        TaskView::Bump { package_name, bump, new_version } => "Bump "@ + action_text(bump) + ": "@
            + package_name + " -> "@ + version_text(new_version),
        TaskView::BumpWorkspace { bump, .. } => "Bump Workspace Package: "@ + action_text(bump),
        TaskView::SetVersion { new_version, package_name } => "Set "@ + package_name + ": "@
            + version_text(new_version),
        TaskView::SetWorkspace { new_version } => "Set Workspace: "@ + version_text(new_version),
        TaskView::CargoPublish => "Cargo Publish"@,
        TaskView::WriteCargoToml(package) => "Write Cargo.toml for: "@ + package,
        TaskView::GitSwitchBranch { to, .. } => "Change branch: "@ + branch_text(to),
        TaskView::GitAdd(paths) => "Git Add: "@ + paths_text(paths),
        TaskView::GitStash { branch, stash } => "Git Stash: "@ + stash_text(stash)
            + " files on "@ + branch_text(branch),
        TaskView::GitPush { remote, tag } => "Git Push: "@ + tag + " to "@ + remote,
        TaskView::GitCommit => "Git Commit"@,
        TaskView::GitTag(version) => "Git Tag: "@ + version_text(version),
        TaskView::DeleteGitTag(version) => "Delete Git Tag: "@ + version_text(version),
        TaskView::CargoGenerateLock => "Cargo Generate Lockfile"@,
    }
}

impl Task {
    /// The task as it is shown.
    pub fn to_string(&self) -> (s: String)
        ensures
            s@ == task_text(self@),
    {
        let mut out: Vec<char> = Vec::new();
        match self {
            Task::DisplayVersion(package) => {
                push_chars(&mut out, &chars_of("Print Version: "));
                push_chars(&mut out, &chars_of(package.as_str()));
            },
            Task::WorkspaceTree => {
                push_chars(&mut out, &chars_of("Display Workspace Tree"));
            },
            Task::Bump { package_name, bump, new_version } => {
                push_chars(&mut out, &chars_of("Bump "));
                push_chars(&mut out, &chars_of(bump.to_string().as_str()));
                push_chars(&mut out, &chars_of(": "));
                push_chars(&mut out, &chars_of(package_name.as_str()));
                push_chars(&mut out, &chars_of(" -> "));
                push_chars(&mut out, &chars_of(new_version.to_string().as_str()));
            },
            Task::BumpWorkspace { bump, .. } => {
                push_chars(&mut out, &chars_of("Bump Workspace Package: "));
                push_chars(&mut out, &chars_of(bump.to_string().as_str()));
            },
            Task::SetVersion { new_version, package_name } => {
                push_chars(&mut out, &chars_of("Set "));
                push_chars(&mut out, &chars_of(package_name.as_str()));
                push_chars(&mut out, &chars_of(": "));
                push_chars(&mut out, &chars_of(new_version.to_string().as_str()));
            },
            Task::SetWorkspace { new_version } => {
                push_chars(&mut out, &chars_of("Set Workspace: "));
                push_chars(&mut out, &chars_of(new_version.to_string().as_str()));
            },
            Task::CargoPublish => {
                push_chars(&mut out, &chars_of("Cargo Publish"));
            },
            Task::WriteCargoToml(package) => {
                push_chars(&mut out, &chars_of("Write Cargo.toml for: "));
                push_chars(&mut out, &chars_of(package.as_str()));
            },
            Task::GitSwitchBranch { to, .. } => {
                push_chars(&mut out, &chars_of("Change branch: "));
                push_chars(&mut out, &chars_of(to.as_ref()));
            },
            Task::GitAdd(paths) => {
                push_chars(&mut out, &chars_of("Git Add: "));
                push_chars(&mut out, &write_paths(paths));
            },
            Task::GitStash { branch, stash } => {
                push_chars(&mut out, &chars_of("Git Stash: "));
                match stash {
                    Stash::Stash => push_chars(&mut out, &chars_of("Stash")),
                    Stash::Unstash => push_chars(&mut out, &chars_of("Unstash")),
                    Stash::Dont => push_chars(&mut out, &chars_of("Dont")),
                }
                push_chars(&mut out, &chars_of(" files on "));
                push_chars(&mut out, &chars_of(branch.as_ref()));
            },
            Task::GitPush { remote, tag } => {
                push_chars(&mut out, &chars_of("Git Push: "));
                push_chars(&mut out, &chars_of(tag.as_str()));
                push_chars(&mut out, &chars_of(" to "));
                push_chars(&mut out, &chars_of(remote.as_str()));
            },
            Task::GitCommit => {
                push_chars(&mut out, &chars_of("Git Commit"));
            },
            Task::GitTag(version) => {
                push_chars(&mut out, &chars_of("Git Tag: "));
                push_chars(&mut out, &chars_of(version.to_string().as_str()));
            },
            Task::DeleteGitTag(version) => {
                push_chars(&mut out, &chars_of("Delete Git Tag: "));
                push_chars(&mut out, &chars_of(version.to_string().as_str()));
            },
            Task::CargoGenerateLock => {
                push_chars(&mut out, &chars_of("Cargo Generate Lockfile"));
            },
        }
        assert(out@ == task_text(self@));
        string_of(&out)
    }
}

/// The paths as they are shown.
fn write_paths(paths: &Vec<String>) -> (out: Vec<char>)
    ensures
        out@ == paths_text(strings_view(paths@)),
{
    if paths.len() == 0 {
        return chars_of("[]");
    }
    let ghost all = strings_view(paths@);
    let mut out = chars_of("[\n");
    let mut i: usize = 0;
    proof {
        assert(all.take(0).len() == 0);
        assert("[\n"@ + path_lines(all.take(0)) == "[\n"@);
    }
    while i < paths.len()
        invariant
            i <= paths.len(),
            all == strings_view(paths@),
            out@ == "[\n"@ + path_lines(all.take(i as int)),
        decreases paths.len() - i,
    {
        proof {
            assert(all.take(i + 1).drop_last() == all.take(i as int));
            assert(all.take(i + 1).last() == paths@[i as int]@);
        }
        let ghost before = out@;
        push_chars(&mut out, &chars_of("    \""));
        push_chars(&mut out, &chars_of(paths[i].as_str()));
        push_chars(&mut out, &chars_of("\",\n"));
        assert(out@ == before + ("    \""@ + paths@[i as int]@ + "\",\n"@));
        i += 1;
    }
    assert(all.take(paths.len() as int) == all);
    push_chars(&mut out, &chars_of("]"));
    out
}

/// What goes before the lines of an item of a list that is shown as a tree.
pub trait Displayable {
    /// Before the first line of the last item.
    fn last_item_prefix() -> (s: &'static str)
        ensures
            s@ == "└─ "@,
    ;

    /// Before the first line of any other item.
    fn item_prefix() -> (s: &'static str)
        ensures
            s@ == "├─ "@,
    ;

    /// Before every further line of an item.
    fn extra_line_prefix() -> (s: &'static str)
        ensures
            s@ == "│  "@,
    ;
}

/// The batch of tasks, for display.
pub struct DisplayTasks<'a> {
    tasks: &'a Tasks,
}

impl Displayable for DisplayTasks<'_> {
    fn last_item_prefix() -> (s: &'static str) {
        "└─ "
    }

    fn item_prefix() -> (s: &'static str) {
        "├─ "
    }

    fn extra_line_prefix() -> (s: &'static str) {
        "│  "
    }
}

/// The lines of an item, each with what goes before it: the first line with
/// the branch of the item, every further line with the trunk.
pub open spec fn prefixed_lines(all: Seq<Seq<char>>, first: Seq<char>, count: int) -> Seq<Seq<char>>
    decreases count,
{
    if count <= 0 || count > all.len() {
        Seq::<Seq<char>>::empty()
    } else {
        prefixed_lines(all, first, count - 1).push(
            (if count == 1 {
                first
            } else {
                "│  "@
            }) + all[count - 1],
        )
    }
}

/// How the item of a task is shown: its number and the task, each line with
/// what goes before it; the last item is followed by an empty line.
pub open spec fn item_text(number: nat, task: TaskView, last: bool) -> Seq<char> {
    let all = lines(decimal_digits(number) + ". "@ + task_text(task) + seq!['\n']);
    join(
        prefixed_lines(
            all,
            if last {
                "└─ "@
            } else {
                "├─ "@
            },
            all.len() as int,
        ),
        '\n',
    ) + (if last {
        "\n\n"@
    } else {
        "\n"@
    })
}

/// The items of the first `count` tasks.
pub open spec fn items_text(tasks: Seq<TaskView>, count: int) -> Seq<char>
    decreases count,
{
    if count <= 0 || count > tasks.len() {
        Seq::<char>::empty()
    } else {
        items_text(tasks, count - 1) + item_text(
            count as nat,
            tasks[count - 1],
            count == tasks.len(),
        )
    }
}

/// How the batch is shown: how many tasks there are, and an item for each.
pub open spec fn batch_text(tasks: Seq<TaskView>) -> Seq<char> {
    decimal_digits(tasks.len()) + " Tasks:\n"@ + items_text(tasks, tasks.len() as int)
}

impl<'a> DisplayTasks<'a> {
    /// The batch that is shown.
    pub closed spec fn spec_tasks(&self) -> &'a Tasks {
        self.tasks
    }

    pub fn new(tasks: &'a Tasks) -> (d: Self)
        ensures
            d.spec_tasks() == tasks,
    {
        Self { tasks }
    }

    fn task_item(&self, idx: usize, task: &Task, last: bool) -> (out: Vec<char>)
        ensures
            out@ == item_text(idx as nat, task@, last),
    {
        let mut text = format_decimal(idx as u64);
        push_chars(&mut text, &chars_of(". "));
        push_chars(&mut text, &chars_of(task.to_string().as_str()));
        text.push('\n');
        assert(text@ == decimal_digits(idx as nat) + ". "@ + task_text(task@) + seq!['\n']);
        let all = lines_of(&text);
        let ghost texts = all@.map_values(|l: Vec<char>| l@);
        assert(texts == lines(text@));
        let ghost first = if last {
            "└─ "@
        } else {
            "├─ "@
        };
        let mut shown: Vec<Vec<char>> = Vec::new();
        let mut i: usize = 0;
        assert(shown@.map_values(|l: Vec<char>| l@) == prefixed_lines(texts, first, 0));
        while i < all.len()
            invariant
                i <= all.len(),
                texts == all@.map_values(|l: Vec<char>| l@),
                first == (if last {
                    "└─ "@
                } else {
                    "├─ "@
                }),
                shown@.map_values(|l: Vec<char>| l@) == prefixed_lines(texts, first, i as int),
            decreases all.len() - i,
        {
            let mut line = if i == 0 {
                if last {
                    chars_of(Self::last_item_prefix())
                } else {
                    chars_of(Self::item_prefix())
                }
            } else {
                chars_of(Self::extra_line_prefix())
            };
            push_chars(&mut line, &all[i]);
            let ghost before = shown@.map_values(|l: Vec<char>| l@);
            assert(texts[i as int] == all@[i as int]@);
            shown.push(line);
            assert(shown@.map_values(|l: Vec<char>| l@) == before.push(line@));
            i += 1;
        }
        let mut out = join_chars(&shown, '\n');
        assert(texts.len() == all.len());
        assert(out@ == join(prefixed_lines(texts, first, texts.len() as int), '\n'));
        if last {
            push_chars(&mut out, &chars_of("\n\n"));
        } else {
            push_chars(&mut out, &chars_of("\n"));
        }
        out
    }

    /// The tasks of the batch, in order.
    pub fn tasks(&self) -> (r: Vec<Task>)
        ensures
            tasks_view(r@) == self.spec_tasks()@.keys(),
    {
        self.tasks.tasks()
    }

    /// The batch as it is shown.
    pub fn to_string(&self) -> (s: String)
        ensures
            s@ == batch_text(self.spec_tasks()@.keys()),
    {
        let tasks = self.tasks();
        let ghost all = tasks_view(tasks@);
        let mut display = format_decimal(tasks.len() as u64);
        push_chars(&mut display, &chars_of(" Tasks:\n"));
        let ghost head = display@;
        let mut i: usize = 0;
        assert(head + items_text(all, 0) == head);
        while i < tasks.len()
            invariant
                i <= tasks.len(),
                all == tasks_view(tasks@),
                display@ == head + items_text(all, i as int),
            decreases tasks.len() - i,
        {
            assert(all[i as int] == tasks@[i as int]@);
            let item = self.task_item(i + 1, &tasks[i], i + 1 == tasks.len());
            let ghost before = display@;
            push_chars(&mut display, &item);
            assert(display@ == head + (items_text(all, i as int) + item@));
            i += 1;
        }
        string_of(&display)
    }
}

} // verus!
