//! The tasks of a release: what each one is, the ordered batch of them, how
//! the batch is generated from what the command line asks for, and how it
//! is run.

mod display;
pub use display::{
    batch_text, item_text, items_text, paths_text, task_text, DisplayTasks, Displayable,
};
mod predict_tasks;
pub use predict_tasks::{
    entries_queued, opening_tasks, package_paths, package_tasks, planned_changes, planned_tasks,
    queued_batch, release_tasks, reverting_tasks, task_for, with_write, workspace_task_for,
    workspace_tasks, GenerateError, GenerateFault, Surroundings,
};
mod run;
pub use run::{
    commit_message, completed_with, exit_message, lemma_same_outcome, needs_success,
    plain_action, run_error_text, run_outcome, shown_package, version_change, with_child, JoinEvent, RunEvent, TaskAction, TaskActionView, TaskRunError,
};
mod task;
pub use task::{Task, TaskView};
#[allow(clippy::module_inception)]
mod tasks;
pub use tasks::{
    change_version, changes_package, changes_workspace, common_change, entries_appended,
    first_package_change, first_workspace_change, lemma_insert_keeps_tasks, lemma_inserted_keys,
    lemma_key_index, lemma_main_or_cleanup, lemma_picked, pairs_view, picked, picks, rebuilt_keys, root_name,
    tasks_root_version, tasks_view, Pick, TaskError, Tasks, TasksView,
};
