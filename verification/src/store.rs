use vstd::prelude::*;
use crate::models::Label;
use crate::models::Project;
use crate::models::Task;
use crate::models::TaskLabel;
use crate::models::TimeEntry;

verus! {

/// Largest magnitude a stored timestamp may have, in seconds relative to the
/// Unix epoch. It comfortably covers every date this library's calendar
/// handles and keeps differences of two timestamps inside `i64`.
pub const TIMESTAMP_LIMIT: i64 = 10_000_000_000_000;

/// The persisted state: one vector per table, plus the id counter from which
/// every generated identifier is drawn.
pub struct Store {
    pub projects: Vec<Project>,
    pub tasks: Vec<Task>,
    pub labels: Vec<Label>,
    pub task_labels: Vec<TaskLabel>,
    pub time_entries: Vec<TimeEntry>,
    pub next_id: u128,
}

pub open spec fn spec_timestamp_ok(t: i64) -> bool {
    -TIMESTAMP_LIMIT <= t <= TIMESTAMP_LIMIT
}

/// Both rows of the task-label join that tie the same task to the same label.
pub open spec fn spec_same_pair(a: TaskLabel, b: TaskLabel) -> bool {
    a.task_id == b.task_id && a.label_id == b.label_id
}

impl Store {
    /// Every stored id was generated before the counter reached its current
    /// value.
    pub open spec fn ids_bounded(&self) -> bool {
        &&& forall|i: int|
            0 <= i < self.projects@.len() ==> (#[trigger] self.projects@[i]).id < self.next_id
        &&& forall|i: int|
            0 <= i < self.tasks@.len() ==> (#[trigger] self.tasks@[i]).id < self.next_id
        &&& forall|i: int|
            0 <= i < self.labels@.len() ==> (#[trigger] self.labels@[i]).id < self.next_id
        &&& forall|i: int|
            0 <= i < self.time_entries@.len() ==> (#[trigger] self.time_entries@[i]).id
                < self.next_id
    }

    /// Primary keys: ids are unique per table, and the join table holds no
    /// duplicate (task, label) pair.
    pub open spec fn ids_unique(&self) -> bool {
        &&& forall|i: int, j: int|
            0 <= i < j < self.projects@.len() ==> (#[trigger] self.projects@[i]).id != (
            #[trigger] self.projects@[j]).id
        &&& forall|i: int, j: int|
            0 <= i < j < self.tasks@.len() ==> (#[trigger] self.tasks@[i]).id != (
            #[trigger] self.tasks@[j]).id
        &&& forall|i: int, j: int|
            0 <= i < j < self.labels@.len() ==> (#[trigger] self.labels@[i]).id != (
            #[trigger] self.labels@[j]).id
        &&& forall|i: int, j: int|
            0 <= i < j < self.time_entries@.len() ==> (#[trigger] self.time_entries@[i]).id != (
            #[trigger] self.time_entries@[j]).id
        &&& forall|i: int, j: int|
            0 <= i < j < self.task_labels@.len() ==> !spec_same_pair(
                #[trigger] self.task_labels@[i],
                #[trigger] self.task_labels@[j],
            )
    }

    /// Stored time entries carry timestamps inside the supported range.
    pub open spec fn timestamps_bounded(&self) -> bool {
        forall|i: int|
            0 <= i < self.time_entries@.len() ==> {
                let e = #[trigger] self.time_entries@[i];
                &&& spec_timestamp_ok(e.start_time)
                &&& (e.end_time matches Some(t) ==> spec_timestamp_ok(t))
            }
    }

    pub open spec fn wf(&self) -> bool {
        &&& self.ids_bounded()
        &&& self.ids_unique()
        &&& self.timestamps_bounded()
        &&& self.next_id >= 1
    }

    /// An empty store.
    pub fn new() -> (s: Store)
        ensures
            s.wf(),
            s.projects@.len() == 0,
            s.tasks@.len() == 0,
            s.labels@.len() == 0,
            s.task_labels@.len() == 0,
            s.time_entries@.len() == 0,
            s.next_id == 1,
    {
        Store {
            projects: Vec::new(),
            tasks: Vec::new(),
            labels: Vec::new(),
            task_labels: Vec::new(),
            time_entries: Vec::new(),
            next_id: 1,
        }
    }
}

/// The tables other than `projects` are the same in both states.
pub open spec fn unchanged_but_projects(a: Store, b: Store) -> bool {
    &&& a.tasks@ == b.tasks@
    &&& a.labels@ == b.labels@
    &&& a.task_labels@ == b.task_labels@
    &&& a.time_entries@ == b.time_entries@
}

/// The tables other than `tasks` are the same in both states.
pub open spec fn unchanged_but_tasks(a: Store, b: Store) -> bool {
    &&& a.projects@ == b.projects@
    &&& a.labels@ == b.labels@
    &&& a.task_labels@ == b.task_labels@
    &&& a.time_entries@ == b.time_entries@
}

/// The tables other than `labels` are the same in both states.
pub open spec fn unchanged_but_labels(a: Store, b: Store) -> bool {
    &&& a.projects@ == b.projects@
    &&& a.tasks@ == b.tasks@
    &&& a.task_labels@ == b.task_labels@
    &&& a.time_entries@ == b.time_entries@
}

/// The tables other than `task_labels` are the same in both states.
pub open spec fn unchanged_but_task_labels(a: Store, b: Store) -> bool {
    &&& a.projects@ == b.projects@
    &&& a.tasks@ == b.tasks@
    &&& a.labels@ == b.labels@
    &&& a.time_entries@ == b.time_entries@
}

/// The tables other than `time_entries` are the same in both states.
pub open spec fn unchanged_but_time_entries(a: Store, b: Store) -> bool {
    &&& a.projects@ == b.projects@
    &&& a.tasks@ == b.tasks@
    &&& a.labels@ == b.labels@
    &&& a.task_labels@ == b.task_labels@
}

} // verus!
