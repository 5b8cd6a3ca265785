use crate::collections::{
    entries_inserted, entry_keys, key_index, task_map_entries, task_map_get, task_map_insert,
    task_map_keys, task_map_new, task_set_contains, task_set_insert, task_set_items, task_set_new,
    task_set_to_vec, tasks_distinct,
};
use crate::cli::workspace::{excluded_packages, included_packages, Workspace};
use crate::manifest::toml_file::ReadToml;
use crate::packages::{
    find_package, lemma_find_package, packages_view, resolve_root_version, Package, PackageError,
    Packages, PackagesView,
};
use crate::process::{bytes_text, Child, ExitStatus, Output, OutputExt};
use crate::tasks::task::{Task, TaskView};
use crate::text::copy_str;
use crate::version::semantic::{Version, VersionView};
use indexmap::{IndexMap, IndexSet};
use vstd::prelude::*;

verus! {

/// The ordered batch of tasks of a release: each task with the process that
/// runs it, if one does; the tasks that have completed; and the workspace
/// that the tasks work on.
#[derive(Debug)]
pub struct Tasks {
    tasks: IndexMap<Task, Option<Child>>,
    completed: IndexSet<Task>,
    packages: Packages,
}

/// The batch as a mathematical value.
pub struct TasksView {
    /// The tasks in the order in which they were inserted, each with its
    /// process.
    pub tasks: Seq<(TaskView, Option<Child>)>,
    /// The tasks that have completed, in the order in which they did.
    pub completed: Seq<TaskView>,
    pub packages: PackagesView,
}

impl View for Tasks {
    type V = TasksView;

    closed spec fn view(&self) -> TasksView {
        TasksView {
            tasks: task_map_entries(self.tasks),
            completed: task_set_items(self.completed),
            packages: self.packages@,
        }
    }
}

/// The ways of picking tasks from a batch.
#[derive(Debug, Clone, Copy, PartialEq, Eq, Structural)]
pub enum Pick {
    /// The tasks that have not completed.
    Incomplete,
    /// The cleanup tasks, which run after every other task has completed.
    Cleanup,
    /// The tasks of the main pass: all but the cleanup tasks.
    Main,
    /// The tasks that have not completed and change a version.
    VersionChange,
    /// The tasks that a join waits for: those of the main pass that have not
    /// completed.
    Pending,
}

/// Whether a way of picking takes a task, given the tasks that have
/// completed.
pub open spec fn picks(pick: Pick, completed: Seq<TaskView>, task: TaskView) -> bool {
    match pick {
        Pick::Incomplete => !completed.contains(task),
        Pick::Cleanup => task.is_run_after_completed(),
        Pick::Main => !task.is_run_after_completed(),
        Pick::VersionChange => !completed.contains(task) && task.is_version_change(),
        Pick::Pending => !completed.contains(task) && !task.is_run_after_completed(),
    }
}

/// The tasks that a way of picking takes, in their order.
pub open spec fn picked(keys: Seq<TaskView>, completed: Seq<TaskView>, pick: Pick) -> Seq<TaskView>
    decreases keys.len(),
{
    if keys.len() == 0 {
        Seq::<TaskView>::empty()
    } else if picks(pick, completed, keys.last()) {
        picked(keys.drop_last(), completed, pick).push(keys.last())
    } else {
        picked(keys.drop_last(), completed, pick)
    }
}

/// What is picked is what the batch holds and the pick takes.
pub proof fn lemma_picked(keys: Seq<TaskView>, completed: Seq<TaskView>, pick: Pick)
    ensures
        forall|t: TaskView| #[trigger]
            picked(keys, completed, pick).contains(t) <==> keys.contains(t) && picks(
                pick,
                completed,
                t,
            ),
        picked(keys, completed, pick).len() <= keys.len(),
    decreases keys.len(),
{
    if keys.len() > 0 {
        let rest = keys.drop_last();
        lemma_picked(rest, completed, pick);
        assert(keys == rest.push(keys.last()));
        assert forall|t: TaskView| #[trigger]
            picked(keys, completed, pick).contains(t) <==> keys.contains(t) && picks(
                pick,
                completed,
                t,
            ) by {
            crate::cli::workspace::lemma_contains_push(rest, keys.last(), t);
            crate::cli::workspace::lemma_contains_push(
                picked(rest, completed, pick),
                keys.last(),
                t,
            );
        }
    } else {
        assert forall|t: TaskView| !keys.contains(t) by {}
        assert forall|t: TaskView| !picked(keys, completed, pick).contains(t) by {}
    }
}

/// Every task of a batch belongs either to the main pass or to the cleanup,
/// and none to both.
pub proof fn lemma_main_or_cleanup(keys: Seq<TaskView>, completed: Seq<TaskView>)
    ensures
        forall|t: TaskView|
            keys.contains(t) ==> (#[trigger] picked(keys, completed, Pick::Main).contains(t)
                != picked(keys, completed, Pick::Cleanup).contains(t)),
        forall|t: TaskView| #[trigger]
            picked(keys, completed, Pick::Pending).contains(t) ==> picked(
                keys,
                completed,
                Pick::Main,
            ).contains(t) && !picked(keys, completed, Pick::Cleanup).contains(t),
{
    lemma_picked(keys, completed, Pick::Main);
    lemma_picked(keys, completed, Pick::Cleanup);
    lemma_picked(keys, completed, Pick::Pending);
}

impl TasksView {
    /// The tasks in the order in which they were inserted.
    pub open spec fn keys(&self) -> Seq<TaskView> {
        entry_keys(self.tasks)
    }

    /// The tasks that a way of picking takes.
    pub open spec fn pick(&self, pick: Pick) -> Seq<TaskView> {
        picked(self.keys(), self.completed, pick)
    }

    /// The process that the batch holds for a task, if it holds the task and
    /// a process for it.
    pub open spec fn child_of(&self, task: TaskView) -> Option<Child> {
        if 0 <= key_index(self.tasks, task) < self.tasks.len() {
            self.tasks[key_index(self.tasks, task)].1
        } else {
            None
        }
    }

    /// Whether the batch holds the task.
    pub open spec fn holds(&self, task: TaskView) -> bool {
        0 <= key_index(self.tasks, task) < self.tasks.len()
    }
}

/// The version that a task gives, where it changes a version.
pub open spec fn change_version(task: TaskView) -> VersionView {
    match task {
        TaskView::SetVersion { new_version, .. } => new_version,
        TaskView::SetWorkspace { new_version } => new_version,
        TaskView::Bump { new_version, .. } => new_version,
        TaskView::BumpWorkspace { new_version, .. } => new_version,
        _ => arbitrary(),
    }
}

/// Whether a task changes the version of the package of the given name.
pub open spec fn changes_package(task: TaskView, name: Seq<char>) -> bool {
    match task {
        TaskView::SetVersion { package_name, .. } => package_name == name,
        TaskView::Bump { package_name, .. } => package_name == name,
        _ => false,
    }
}

/// Whether a task changes the version that the workspace declares.
pub open spec fn changes_workspace(task: TaskView) -> bool {
    task is SetWorkspace || task is BumpWorkspace
}

/// The version of the first task that changes the package of the given name.
pub open spec fn first_package_change(changes: Seq<TaskView>, name: Seq<char>) -> Option<
    VersionView,
>
    decreases changes.len(),
{
    if changes.len() == 0 {
        None
    } else if changes_package(changes[0], name) {
        Some(change_version(changes[0]))
    } else {
        first_package_change(changes.drop_first(), name)
    }
}

/// The version of the first task that changes the version of the workspace.
pub open spec fn first_workspace_change(changes: Seq<TaskView>) -> Option<VersionView>
    decreases changes.len(),
{
    if changes.len() == 0 {
        None
    } else if changes_workspace(changes[0]) {
        Some(change_version(changes[0]))
    } else {
        first_workspace_change(changes.drop_first())
    }
}

/// The one version that all the tasks give, if they are at least one and
/// give the same.
pub open spec fn common_change(changes: Seq<TaskView>) -> Option<VersionView> {
    if changes.len() > 0 && forall|i: int|
        0 <= i < changes.len() ==> change_version(#[trigger] changes[i]) == change_version(
            changes[0],
        ) {
        Some(change_version(changes[0]))
    } else {
        None
    }
}

/// The name of the root package, or the empty name where the workspace has
/// none.
pub open spec fn root_name(w: PackagesView) -> Seq<char> {
    if w.root_package is Some && find_package(w.packages, w.root_package->0) < w.packages.len() {
        w.root_package->0
    } else {
        Seq::<char>::empty()
    }
}

/// The version that stands for the whole workspace once the tasks of the
/// batch have run. The workspace must have a root version to begin with.
/// Where no task that has not completed changes a version, it is that
/// version. Else, in strict precedence: the version that the first task for
/// the root package gives; the version that the first task for the workspace
/// gives; the one version that all those tasks give; else none.
pub open spec fn tasks_root_version(v: TasksView) -> Option<VersionView> {
    let changes = v.pick(Pick::VersionChange);
    if resolve_root_version(v.packages) is None {
        None
    } else if changes.len() == 0 {
        resolve_root_version(v.packages)
    } else if first_package_change(changes, root_name(v.packages)) is Some {
        first_package_change(changes, root_name(v.packages))
    } else if first_workspace_change(changes) is Some {
        first_workspace_change(changes)
    } else {
        common_change(changes)
    }
}

/// A failure of the batch: the task that failed, what it wrote, and how far
/// the batch got.
#[derive(Debug)]
pub struct TaskError {
    pub completed_tasks: Vec<Task>,
    pub incomplete_tasks: Vec<Task>,
    pub errored_task: Task,
    pub output: String,
    pub status_code: Option<ExitStatus>,
    pub msg: String,
}

/// The views of a list of tasks.
pub open spec fn tasks_view(list: Seq<Task>) -> Seq<TaskView> {
    list.map_values(|t: Task| t@)
}

impl TaskError {
    /// Whether the error reports the failure of `task` in the batch `v`.
    pub open spec fn reports(&self, v: TasksView, task: TaskView, msg: Seq<char>) -> bool {
        &&& tasks_view(self.completed_tasks@) == v.completed
        &&& tasks_view(self.incomplete_tasks@) == v.pick(Pick::Incomplete)
        &&& self.errored_task@ == task
        &&& self.msg@ == msg
    }

    pub fn from_tasks(tasks: &Tasks, errored_task: Task, output: Option<Output>, msg: &str) -> (e:
        Self)
        ensures
            e.reports(tasks@, errored_task@, msg@),
            e.output@ == match output {
                Some(o) => bytes_text(o.stderr@),
                None => "Unknown Ourput"@,
            },
            e.status_code == match output {
                Some(o) => Some(o.status),
                None => None,
            },
    {
        Self {
            completed_tasks: tasks.completed_tasks(),
            incomplete_tasks: tasks.incomplete_tasks(),
            errored_task,
            output: match &output {
                Some(o) => o.stderr(),
                None => copy_str("Unknown Ourput"),
            },
            status_code: match &output {
                Some(o) => Some(o.status),
                None => None,
            },
            msg: copy_str(msg),
        }
    }
}

impl Tasks {
    pub fn new(packages: Packages) -> (r: Self)
        ensures
            r@.tasks == Seq::<(TaskView, Option<Child>)>::empty(),
            r@.completed == Seq::<TaskView>::empty(),
            r@.packages == packages@,
    {
        Self { packages, tasks: task_map_new(), completed: task_set_new() }
    }

    /// Puts a task into the batch, with the process that runs it, if one
    /// does. A task that the batch holds already stays in its place and gets
    /// the process; a new task becomes the last.
    pub fn insert(&mut self, task: Task, child: Option<Child>)
        ensures
            final(self)@ == (TasksView {
                tasks: entries_inserted(old(self)@.tasks, task@, child),
                ..old(self)@
            }),
    {
        let _ = task_map_insert(&mut self.tasks, task, child);
    }

    /// Puts the tasks into the batch, in order.
    pub fn append(&mut self, tasks: Vec<(Task, Option<Child>)>)
        ensures
            final(self)@ == (TasksView {
                tasks: entries_appended(old(self)@.tasks, pairs_view(tasks@)),
                ..old(self)@
            }),
    {
        let ghost all = pairs_view(tasks@);
        let mut i: usize = 0;
        assert(all.take(0) == Seq::<(TaskView, Option<Child>)>::empty());
        while i < tasks.len()
            invariant
                i <= tasks.len(),
                all == pairs_view(tasks@),
                self@ == (TasksView {
                    tasks: entries_appended(old(self)@.tasks, all.take(i as int)),
                    ..old(self)@
                }),
            decreases tasks.len() - i,
        {
            proof {
                assert(all.take(i + 1).drop_last() == all.take(i as int));
                assert(all.take(i + 1).last() == (tasks@[i as int].0@, tasks@[i as int].1));
            }
            let task = tasks[i].0.clone();
            let child = tasks[i].1;
            self.insert(task, child);
            i += 1;
        }
        assert(all.take(tasks.len() as int) == all);
    }

    /// [Vec] of all task keys as [Task], in the order of the batch.
    pub fn vec_keys(&self) -> (r: Vec<Task>)
        ensures
            tasks_view(r@) == self@.keys(),
    {
        task_map_keys(&self.tasks)
    }

    /// The tasks that a way of picking takes.
    fn select(&self, pick: Pick) -> (r: Vec<Task>)
        ensures
            tasks_view(r@) == self@.pick(pick),
    {
        let keys = task_map_keys(&self.tasks);
        let ghost all = self@.keys();
        let ghost done = self@.completed;
        let mut r: Vec<Task> = Vec::new();
        let mut i: usize = 0;
        assert(all.take(0) == Seq::<TaskView>::empty());
        assert(tasks_view(r@) == picked(all.take(0), done, pick));
        while i < keys.len()
            invariant
                i <= keys.len(),
                all == tasks_view(keys@),
                done == task_set_items(self.completed),
                tasks_view(r@) == picked(all.take(i as int), done, pick),
            decreases keys.len() - i,
        {
            let k = &keys[i];
            proof {
                assert(all.take(i + 1).drop_last() == all.take(i as int));
                assert(all.take(i + 1).last() == k@);
            }
            let take = match pick {
                        Pick::Incomplete => !task_set_contains(&self.completed, k),
                Pick::Cleanup => k.is_run_after_completed(),
                Pick::Main => !k.is_run_after_completed(),
                Pick::VersionChange => !task_set_contains(&self.completed, k)
                    && k.is_version_change(),
                Pick::Pending => !task_set_contains(&self.completed, k)
                    && !k.is_run_after_completed(),
            };
            if take {
                let ghost before = tasks_view(r@);
                r.push(k.clone());
                assert(tasks_view(r@) == before.push(k@));
            }
            i += 1;
        }
        assert(all.take(keys.len() as int) == all);
        r
    }

    /// [`Vec<Task>`] of incomplete tasks.
    pub fn incomplete_tasks(&self) -> (r: Vec<Task>)
        ensures
            tasks_view(r@) == self@.pick(Pick::Incomplete),
    {
        self.select(Pick::Incomplete)
    }

    /// [`Vec<Task>`] of completed [Task].
    pub fn completed_tasks(&self) -> (r: Vec<Task>)
        ensures
            tasks_view(r@) == self@.completed,
    {
        task_set_to_vec(&self.completed)
    }

    /// Adds the task to the completed tasks.
    ///
    /// Returns if the task is newly completed.
    pub fn complete_task(&mut self, task: &Task) -> (fresh: bool)
        ensures
            fresh == !old(self)@.completed.contains(task@),
            final(self)@ == (TasksView {
                completed: if fresh {
                    old(self)@.completed.push(task@)
                } else {
                    old(self)@.completed
                },
                ..old(self)@
            }),
    {
        task_set_insert(&mut self.completed, task.clone())
    }

    /// Collects a filtered [`Vec<Task>`] that should be completed after
    /// the main tasks using [Task::is_run_after_completed] method.
    pub fn run_after_completed_tasks(&self) -> (r: Vec<Task>)
        ensures
            tasks_view(r@) == self@.pick(Pick::Cleanup),
    {
        self.select(Pick::Cleanup)
    }

    /// The tasks of the main pass, in order: all but the cleanup tasks.
    pub fn main_tasks(&self) -> (r: Vec<Task>)
        ensures
            tasks_view(r@) == self@.pick(Pick::Main),
    {
        self.select(Pick::Main)
    }

    /// The tasks that a join waits for, in order: those of the main pass
    /// that have not completed.
    pub fn pending_tasks(&self) -> (r: Vec<Task>)
        ensures
            tasks_view(r@) == self@.pick(Pick::Pending),
    {
        self.select(Pick::Pending)
    }

    /// [bool] if remaining tasks exist based on [Tasks::incomplete_tasks].
    pub fn remaining_tasks(&self) -> (b: bool)
        ensures
            b == (self@.pick(Pick::Incomplete).len() > 0),
    {
        self.incomplete_tasks().len() != 0
    }

    pub fn remaining_tasks_left(&self) -> (n: usize)
        ensures
            n == self@.pick(Pick::Incomplete).len(),
    {
        self.incomplete_tasks().len()
    }

    /// Collects a [`Vec<Task>`] of tasks that change a version of a package/s.
    pub fn version_change_tasks(&self) -> (r: Vec<Task>)
        ensures
            tasks_view(r@) == self@.pick(Pick::VersionChange),
    {
        self.select(Pick::VersionChange)
    }

    /// Gets the first [`Task::DeleteGitTag`] from the [Tasks].
    pub fn get_delete_tag(&self) -> (r: Option<Task>)
        ensures
            match r {
                Some(t) => self@.pick(Pick::Cleanup).len() > 0 && t@ == self@.pick(
                    Pick::Cleanup,
                )[0],
                None => self@.pick(Pick::Cleanup).len() == 0,
            },
    {
        let list = self.select(Pick::Cleanup);
        if list.len() > 0 {
            Some(list[0].clone())
        } else {
            None
        }
    }

    /// The tasks, in the order of the batch.
    pub fn tasks(&self) -> (r: Vec<Task>)
        ensures
            tasks_view(r@) == self@.keys(),
    {
        task_map_keys(&self.tasks)
    }

    /// The tasks, in the order of the batch.
    pub fn tasks_owned(&self) -> (r: Vec<Task>)
        ensures
            tasks_view(r@) == self@.keys(),
    {
        task_map_keys(&self.tasks)
    }

    /// How many tasks the batch holds.
    pub fn len(&self) -> (n: usize)
        ensures
            n == self@.tasks.len(),
    {
        let keys = task_map_keys(&self.tasks);
        assert(entry_keys(self@.tasks).len() == self@.tasks.len());
        assert(tasks_view(keys@).len() == keys.len());
        keys.len()
    }

    /// The process that the batch holds for the task, if it holds the task
    /// and a process for it.
    pub fn child_of(&self, task: &Task) -> (r: Option<Child>)
        ensures
            r == self@.child_of(task@),
    {
        match task_map_get(&self.tasks, task) {
            Some(c) => c,
            None => None,
        }
    }

    /// Whether the batch holds the task.
    pub fn contains(&self, task: &Task) -> (b: bool)
        ensures
            b == self@.holds(task@),
    {
        task_map_get(&self.tasks, task).is_some()
    }

    /// Whether the task has completed.
    pub fn is_completed(&self, task: &Task) -> (b: bool)
        ensures
            b == self@.completed.contains(task@),
    {
        task_set_contains(&self.completed, task)
    }

    /// The first task that switches the branch.
    pub fn get_change_branch(&self) -> (r: Option<Task>)
        ensures
            r matches Some(t) ==> (t@ is GitSwitchBranch && exists|i: int|
                0 <= i < self@.keys().len() && self@.keys()[i] == t@ && forall|j: int|
                    0 <= j < i ==> !(#[trigger] self@.keys()[j] is GitSwitchBranch)),
            r is None ==> forall|t: TaskView| self@.keys().contains(t) ==> !(t
                is GitSwitchBranch),
    {
        let keys = task_map_keys(&self.tasks);
        let ghost all = self@.keys();
        let mut i: usize = 0;
        while i < keys.len()
            invariant
                i <= keys.len(),
                all == tasks_view(keys@),
                all == self@.keys(),
                forall|j: int| 0 <= j < i ==> !(#[trigger] all[j] is GitSwitchBranch),
            decreases keys.len() - i,
        {
            assert(all[i as int] == keys@[i as int]@);
            if keys[i].is_git_switch_branch() {
                return Some(keys[i].clone());
            }
            i += 1;
        }
        assert forall|t: TaskView| self@.keys().contains(t) implies !(t is GitSwitchBranch) by {
            let k = choose|k: int| 0 <= k < all.len() && all[k] == t;
            assert(!(all[k] is GitSwitchBranch));
        }
        None
    }

    /// Partition the packages of the batch into those selected and those
    /// excluded.
    pub fn partition_packages(&self, workspace: &Workspace) -> (r: (
        Vec<&Package<ReadToml>>,
        Vec<&Package<ReadToml>>,
    ))
        requires
            !(workspace.workspace && workspace.default_members),
        ensures
            r.0@.map_values(|p: &Package<ReadToml>| p@) == included_packages(
                *workspace,
                self@.packages,
            ),
            r.1@.map_values(|p: &Package<ReadToml>| p@) == excluded_packages(
                *workspace,
                self@.packages,
            ),
    {
        workspace.partition_packages(self.packages())
    }

    /// As [`Tasks::partition_packages`], with copies of the packages.
    pub fn partition_packages_owned(&self, workspace: &Workspace) -> (r: (
        Vec<Package<ReadToml>>,
        Vec<Package<ReadToml>>,
    ))
        requires
            !(workspace.workspace && workspace.default_members),
        ensures
            packages_view(r.0@) == included_packages(*workspace, self@.packages),
            packages_view(r.1@) == excluded_packages(*workspace, self@.packages),
    {
        workspace.partition_packages_owned(self.packages())
    }

    /// The workspace of the batch.
    pub closed spec fn spec_packages(&self) -> Packages {
        self.packages
    }

    pub fn packages(&self) -> (p: &Packages)
        ensures
            p@ == self@.packages,
            *p == self.spec_packages(),
    {
        &self.packages
    }

    pub fn set_packages(&mut self, packages: Packages)
        ensures
            final(self)@ == (TasksView { packages: packages@, ..old(self)@ }),
            final(self).spec_packages() == packages,
    {
        self.packages = packages;
    }

    /// Clones tasks but without any associated [`Child`] processes.
    pub fn clone_tasks(&self) -> (r: Tasks)
        ensures
            r@.keys() == self@.keys(),
            forall|i: int| 0 <= i < r@.tasks.len() ==> (#[trigger] r@.tasks[i]).1 is None,
            r@.completed == self@.completed,
            r@.packages == self@.packages,
    {
        let keys = task_map_keys(&self.tasks);
        let done = task_set_to_vec(&self.completed);
        let mut r = Tasks::new(self.packages.clone());
        let mut i: usize = 0;
        let ghost all = self@.keys();
        proof {
            assert(all.take(0) == Seq::<TaskView>::empty());
            assert(entry_keys(r@.tasks) == all.take(0));
        }
        while i < keys.len()
            invariant
                i <= keys.len(),
                all == tasks_view(keys@),
                r@.packages == self@.packages,
                r@.completed == Seq::<TaskView>::empty(),
                entry_keys(r@.tasks) == rebuilt_keys(all.take(i as int)),
                forall|k: int| 0 <= k < r@.tasks.len() ==> (#[trigger] r@.tasks[k]).1 is None,
            decreases keys.len() - i,
        {
            let ghost before = r@.tasks;
            proof {
                assert(all.take(i + 1).drop_last() == all.take(i as int));
                assert(all.take(i + 1).last() == keys@[i as int]@);
                lemma_inserted_keys(before, keys@[i as int]@, None);
            }
            r.insert(keys[i].clone(), None);
            i += 1;
        }
        proof {
            assert(all.take(keys.len() as int) == all);
            lemma_rebuilt_distinct(all);
        }
        let mut j: usize = 0;
        let ghost finished = tasks_view(done@);
        proof {
            assert(finished.take(0) == Seq::<TaskView>::empty());
        }
        while j < done.len()
            invariant
                j <= done.len(),
                finished == tasks_view(done@),
                r@.packages == self@.packages,
                r@.keys() == self@.keys(),
                r@.completed == rebuilt_keys(finished.take(j as int)),
                forall|k: int| 0 <= k < r@.tasks.len() ==> (#[trigger] r@.tasks[k]).1 is None,
            decreases done.len() - j,
        {
            proof {
                assert(finished.take(j + 1).drop_last() == finished.take(j as int));
                assert(finished.take(j + 1).last() == done@[j as int]@);
            }
            let _ = r.complete_task(&done[j]);
            j += 1;
        }
        proof {
            assert(finished.take(done.len() as int) == finished);
            lemma_rebuilt_distinct(finished);
        }
        r
    }

    /// Order of presedence:
    /// 1. Root package version
    /// 2. `workspace.package` version
    /// 3. ws members sharing the same version ... version
    pub fn root_version(&self) -> (r: Result<Version, PackageError>)
        ensures
            match tasks_root_version(self@) {
                Some(v) => r matches Ok(got) && got@ == v,
                None => r matches Err(PackageError::NoRootVersion),
            },
    {
        let packages_root_version = match self.packages.root_version() {
            Ok(v) => v,
            Err(_) => {
                return Err(PackageError::NoRootVersion);
            },
        };
        let version_tasks = self.version_change_tasks();
        if version_tasks.len() == 0 {
            return Ok(packages_root_version);
        }
        let root_package_name = match self.packages.get_root_package() {
            Some(p) => p.name().clone(),
            None => crate::packages::PackageName::default(),
        };
        proof {
            if self@.packages.root_package is Some {
                lemma_find_package(self@.packages.packages, self@.packages.root_package->0);
            }
            assert(root_package_name@ == root_name(self@.packages));
            lemma_picked(self@.keys(), self@.completed, Pick::VersionChange);
            let changes = tasks_view(version_tasks@);
            assert forall|i: int| 0 <= i < version_tasks.len() implies (
            #[trigger] version_tasks@[i])@.is_version_change() by {
                assert(changes[i] == version_tasks@[i]@);
                assert(changes.contains(changes[i]));
            }
        }
        match first_change_for(&version_tasks, Some(root_package_name.as_str())) {
            Some(v) => {
                return Ok(v);
            },
            None => {},
        }
        match first_change_for(&version_tasks, None) {
            Some(v) => {
                return Ok(v);
            },
            None => {},
        }
        match shared_change(&version_tasks) {
            Some(v) => Ok(v),
            None => Err(PackageError::NoRootVersion),
        }
    }
}

/// The version of the first task that changes the package of the given name,
/// or, without a name, the version of the workspace.
fn first_change_for(changes: &Vec<Task>, name: Option<&str>) -> (r: Option<Version>)
    ensures
        match name {
            Some(n) => match first_package_change(tasks_view(changes@), n@) {
                Some(v) => r matches Some(got) && got@ == v,
                None => r is None,
            },
            None => match first_workspace_change(tasks_view(changes@)) {
                Some(v) => r matches Some(got) && got@ == v,
                None => r is None,
            },
        },
{
    let ghost all = tasks_view(changes@);
    let mut i: usize = 0;
    assert(all.skip(0) == all);
    while i < changes.len()
        invariant
            i <= changes.len(),
            all == tasks_view(changes@),
            match name {
                Some(n) => first_package_change(all, n@) == first_package_change(
                    all.skip(i as int),
                    n@,
                ),
                None => first_workspace_change(all) == first_workspace_change(all.skip(i as int)),
            },
        decreases changes.len() - i,
    {
        proof {
            assert(all.skip(i as int)[0] == changes@[i as int]@);
            assert(all.skip(i as int).drop_first() == all.skip(i + 1));
        }
        match (&changes[i], name) {
            (Task::SetVersion { package_name, new_version }, Some(n)) => {
                if crate::text::str_eq(package_name.as_str(), n) {
                    return Some(new_version.clone());
                }
            },
            (Task::Bump { package_name, new_version, .. }, Some(n)) => {
                if crate::text::str_eq(package_name.as_str(), n) {
                    return Some(new_version.clone());
                }
            },
            (Task::SetWorkspace { new_version }, None) => {
                return Some(new_version.clone());
            },
            (Task::BumpWorkspace { new_version, .. }, None) => {
                return Some(new_version.clone());
            },
            _ => {},
        }
        i += 1;
    }
    None
}

/// The version that a task gives, where it changes a version.
fn version_of_change(task: &Task) -> (r: Option<&Version>)
    ensures
        task@.is_version_change() ==> (r matches Some(v) && v@ == change_version(task@)),
        !task@.is_version_change() ==> r is None,
{
    match task {
        Task::SetVersion { new_version, .. } => Some(new_version),
        Task::SetWorkspace { new_version } => Some(new_version),
        Task::Bump { new_version, .. } => Some(new_version),
        Task::BumpWorkspace { new_version, .. } => Some(new_version),
        _ => None,
    }
}

/// The one version that all the tasks give.
fn shared_change(changes: &Vec<Task>) -> (r: Option<Version>)
    requires
        forall|i: int| 0 <= i < changes.len() ==> (#[trigger] changes@[i])@.is_version_change(),
    ensures
        match common_change(tasks_view(changes@)) {
            Some(v) => r matches Some(got) && got@ == v,
            None => r is None,
        },
{
    let ghost all = tasks_view(changes@);
    if changes.len() == 0 {
        return None;
    }
    let first = match version_of_change(&changes[0]) {
        Some(v) => v,
        None => {
            return None;
        },
    };
    let mut i: usize = 1;
    while i < changes.len()
        invariant
            1 <= i <= changes.len(),
            all == tasks_view(changes@),
            first@ == change_version(all[0]),
            forall|k: int| 0 <= k < changes.len() ==> (#[trigger] changes@[k])@.is_version_change(),
            forall|k: int| 0 <= k < i ==> change_version(#[trigger] all[k]) == change_version(all[0]),
        decreases changes.len() - i,
    {
        assert(all[i as int] == changes@[i as int]@);
        match version_of_change(&changes[i]) {
            Some(v) => {
                if !(v == first) {
                    assert(change_version(all[i as int]) != change_version(all[0]));
                    return None;
                }
            },
            None => {},
        }
        i += 1;
    }
    Some(first.clone())
}

/// The views of a list of tasks with their processes.
pub open spec fn pairs_view(list: Seq<(Task, Option<Child>)>) -> Seq<(TaskView, Option<Child>)> {
    list.map_values(|p: (Task, Option<Child>)| (p.0@, p.1))
}

/// The entries after the given tasks were inserted, in order.
pub open spec fn entries_appended(
    entries: Seq<(TaskView, Option<Child>)>,
    more: Seq<(TaskView, Option<Child>)>,
) -> Seq<(TaskView, Option<Child>)>
    decreases more.len(),
{
    if more.len() == 0 {
        entries
    } else {
        entries_inserted(entries_appended(entries, more.drop_last()), more.last().0, more.last().1)
    }
}

/// The tasks of a batch into which the given tasks were inserted, in order:
/// each task once, where it first stands.
pub open spec fn rebuilt_keys(keys: Seq<TaskView>) -> Seq<TaskView>
    decreases keys.len(),
{
    if keys.len() == 0 {
        Seq::<TaskView>::empty()
    } else if rebuilt_keys(keys.drop_last()).contains(keys.last()) {
        rebuilt_keys(keys.drop_last())
    } else {
        rebuilt_keys(keys.drop_last()).push(keys.last())
    }
}

/// The place that [`key_index`] gives lies within the entries or at their
/// end; it is within them exactly where they hold the task.
pub proof fn lemma_key_index(entries: Seq<(TaskView, Option<Child>)>, key: TaskView)
    ensures
        0 <= key_index(entries, key) <= entries.len(),
        key_index(entries, key) < entries.len() ==> entries[key_index(entries, key)].0 == key,
        key_index(entries, key) < entries.len() <==> entry_keys(entries).contains(key),
    decreases entries.len(),
{
    if entries.len() > 0 {
        if entries[0].0 == key {
            assert(entry_keys(entries)[0] == key);
        } else {
            let rest = entries.drop_first();
            lemma_key_index(rest, key);
            if key_index(rest, key) < rest.len() {
                assert(entries[key_index(entries, key)] == rest[key_index(rest, key)]);
                assert(entry_keys(entries)[key_index(entries, key)] == key);
            } else if entry_keys(entries).contains(key) {
                let k = choose|k: int|
                    0 <= k < entry_keys(entries).len() && entry_keys(entries)[k] == key;
                assert(entry_keys(rest)[k - 1] == key);
            }
        }
    }
}

/// No task leaves the batch: every task that the entries hold is held after
/// any task was inserted, and in the same place.
pub proof fn lemma_insert_keeps_tasks(
    entries: Seq<(TaskView, Option<Child>)>,
    key: TaskView,
    value: Option<Child>,
)
    ensures
        entries_inserted(entries, key, value).len() >= entries.len(),
        forall|i: int|
            0 <= i < entries.len() ==> (#[trigger] entries_inserted(entries, key, value)[i]).0
                == entries[i].0,
{
    lemma_key_index(entries, key);
}

/// Inserting a task leaves the tasks of the entries as they are where they
/// hold the task, and adds the task at the end where they do not.
pub proof fn lemma_inserted_keys(
    entries: Seq<(TaskView, Option<Child>)>,
    key: TaskView,
    value: Option<Child>,
)
    ensures
        entry_keys(entries_inserted(entries, key, value)) == if entry_keys(entries).contains(key) {
            entry_keys(entries)
        } else {
            entry_keys(entries).push(key)
        },
{
    lemma_key_index(entries, key);
    assert(entry_keys(entries_inserted(entries, key, value)) =~= if entry_keys(entries).contains(
        key,
    ) {
        entry_keys(entries)
    } else {
        entry_keys(entries).push(key)
    });
}

/// A batch that is built anew from tasks of which none stands twice holds
/// those tasks in their order.
pub proof fn lemma_rebuilt_distinct(keys: Seq<TaskView>)
    requires
        tasks_distinct(keys),
    ensures
        rebuilt_keys(keys) == keys,
    decreases keys.len(),
{
    if keys.len() > 0 {
        let rest = keys.drop_last();
        assert forall|i: int, j: int|
            0 <= i < rest.len() && 0 <= j < rest.len() && i != j implies rest[i] != rest[j] by {
            assert(rest[i] == keys[i]);
            assert(rest[j] == keys[j]);
        }
        lemma_rebuilt_distinct(rest);
        if rest.contains(keys.last()) {
            let k = choose|k: int| 0 <= k < rest.len() && rest[k] == keys.last();
            assert(keys[k] == keys[keys.len() - 1]);
        }
        assert(keys == rest.push(keys.last()));
    }
}

} // verus!
