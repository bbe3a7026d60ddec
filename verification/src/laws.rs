use vstd::prelude::*;
use crate::labels::label_matches;
use crate::labels::spec_has_label;
use crate::models::FieldUpdate;
use crate::models::Label;
use crate::models::NewProject;
use crate::models::NewTimeEntry;
use crate::models::Project;
use crate::models::Task;
use crate::models::TimeEntry;
use crate::models::UpdateLabelChangeset;
use crate::models::UpdateProjectChangeset;
use crate::models::UpdateProjectPayload;
use crate::models::UpdateTaskChangeset;
use crate::models::UpdateTimeEntryChangeset;
use crate::models::spec_apply_label_changeset;
use crate::models::spec_apply_project_changeset;
use crate::models::spec_apply_task_changeset;
use crate::models::spec_apply_time_entry_changeset;
use crate::models::spec_project_changeset;
use crate::projects::project_matches;
use crate::projects::spec_has_project;
use crate::projects::spec_new_project;
use crate::store::Store;
use crate::tasks::spec_has_task;
use crate::tasks::task_matches;
use crate::time_entries::entry_matches;
use crate::time_entries::spec_created_duration;
use crate::time_entries::spec_has_entry;

verus! {

/// Ownership never leaks: when the only project row carrying an id belongs
/// to another user, the caller's scoped filter does not see it, so `get`,
/// `update` and `delete` — whose contracts turn on `spec_has_project` —
/// all report not found.
pub proof fn lemma_foreign_project_invisible(s: Store, owner: u128, caller: u128, id: u128)
    requires
        s.wf(),
        exists|i: int|
            0 <= i < s.projects@.len() && (#[trigger] s.projects@[i]).id == id
                && s.projects@[i].user_id == owner,
        caller != owner,
    ensures
        !spec_has_project(s.projects@, caller, id),
{
    let i = choose|i: int|
        0 <= i < s.projects@.len() && (#[trigger] s.projects@[i]).id == id
            && s.projects@[i].user_id == owner;
    assert forall|j: int|
        0 <= j < s.projects@.len() implies !project_matches(
        #[trigger] s.projects@[j],
        caller,
        id,
    ) by {
        if j != i {
            if j < i {
                assert(s.projects@[j].id != s.projects@[i].id);
            } else {
                assert(s.projects@[i].id != s.projects@[j].id);
            }
        }
    }
}

/// Ownership never leaks for tasks; see `lemma_foreign_project_invisible`.
pub proof fn lemma_foreign_task_invisible(s: Store, owner: u128, caller: u128, id: u128)
    requires
        s.wf(),
        exists|i: int|
            0 <= i < s.tasks@.len() && (#[trigger] s.tasks@[i]).id == id && s.tasks@[i].user_id
                == owner,
        caller != owner,
    ensures
        !spec_has_task(s.tasks@, caller, id),
{
    let i = choose|i: int|
        0 <= i < s.tasks@.len() && (#[trigger] s.tasks@[i]).id == id && s.tasks@[i].user_id
            == owner;
    assert forall|j: int|
        0 <= j < s.tasks@.len() implies !task_matches(#[trigger] s.tasks@[j], caller, id) by {
        if j != i {
            if j < i {
                assert(s.tasks@[j].id != s.tasks@[i].id);
            } else {
                assert(s.tasks@[i].id != s.tasks@[j].id);
            }
        }
    }
}

/// Ownership never leaks for labels; see `lemma_foreign_project_invisible`.
pub proof fn lemma_foreign_label_invisible(s: Store, owner: u128, caller: u128, id: u128)
    requires
        s.wf(),
        exists|i: int|
            0 <= i < s.labels@.len() && (#[trigger] s.labels@[i]).id == id && s.labels@[i].user_id
                == owner,
        caller != owner,
    ensures
        !spec_has_label(s.labels@, caller, id),
{
    let i = choose|i: int|
        0 <= i < s.labels@.len() && (#[trigger] s.labels@[i]).id == id && s.labels@[i].user_id
            == owner;
    assert forall|j: int|
        0 <= j < s.labels@.len() implies !label_matches(#[trigger] s.labels@[j], caller, id) by {
        if j != i {
            if j < i {
                assert(s.labels@[j].id != s.labels@[i].id);
            } else {
                assert(s.labels@[i].id != s.labels@[j].id);
            }
        }
    }
}

/// Ownership never leaks for time entries; see
/// `lemma_foreign_project_invisible`.
pub proof fn lemma_foreign_time_entry_invisible(s: Store, owner: u128, caller: u128, id: u128)
    requires
        s.wf(),
        exists|i: int|
            0 <= i < s.time_entries@.len() && (#[trigger] s.time_entries@[i]).id == id
                && s.time_entries@[i].user_id == owner,
        caller != owner,
    ensures
        !spec_has_entry(s.time_entries@, caller, id),
{
    let i = choose|i: int|
        0 <= i < s.time_entries@.len() && (#[trigger] s.time_entries@[i]).id == id
            && s.time_entries@[i].user_id == owner;
    assert forall|j: int|
        0 <= j < s.time_entries@.len() implies !entry_matches(
        #[trigger] s.time_entries@[j],
        caller,
        id,
    ) by {
        if j != i {
            if j < i {
                assert(s.time_entries@[j].id != s.time_entries@[i].id);
            } else {
                assert(s.time_entries@[i].id != s.time_entries@[j].id);
            }
        }
    }
}

/// Round trip: after a create, a scoped get of the fresh id by the same
/// user sees exactly the created row, which carries the caller's fields and
/// the server-assigned id and timestamps. `create_project` ensures the
/// store moved from `pre` to `post` as stated here; `get_project` then
/// returns a row satisfying the left side of the final implication.
pub proof fn lemma_create_get_round_trip_project(
    pre: Store,
    post: Store,
    np: NewProject,
    now: i64,
    created: Project,
)
    requires
        pre.wf(),
        pre.next_id < u128::MAX,
        created == spec_new_project(pre.next_id, np, now),
        post.projects@ == pre.projects@.push(created),
    ensures
        spec_has_project(post.projects@, np.user_id, pre.next_id),
        created.name == np.name,
        created.color == np.color,
        created.user_id == np.user_id,
        created.created_at == now,
        created.updated_at == now,
        forall|p: Project|
            post.projects@.contains(p) && project_matches(p, np.user_id, pre.next_id) ==> p
                == created,
{
    let n = pre.projects@.len() as int;
    assert(post.projects@[n] == created);
    assert(project_matches(created, np.user_id, pre.next_id));
    assert forall|p: Project|
        post.projects@.contains(p) && project_matches(p, np.user_id, pre.next_id) implies p
        == created by {
        let j = choose|j: int| 0 <= j < post.projects@.len() && post.projects@[j] == p;
        if j < n {
            assert(pre.projects@[j].id < pre.next_id);
        }
    }
}

/// An update with an entirely empty payload still refreshes `updated_at`
/// and leaves every other field of the project unchanged.
pub proof fn lemma_empty_update_project(p: Project, now: i64)
    ensures
        ({
            let pay = UpdateProjectPayload {
                name: FieldUpdate::Unset,
                color: FieldUpdate::Unset,
            };
            let q = spec_apply_project_changeset(p, spec_project_changeset(pay, now));
            &&& q.id == p.id
            &&& q.user_id == p.user_id
            &&& q.name == p.name
            &&& q.color == p.color
            &&& q.created_at == p.created_at
            &&& q.updated_at == now
        }),
{
}

/// An update with an entirely empty changeset still refreshes `updated_at`
/// and leaves every other field of the task unchanged.
pub proof fn lemma_empty_update_task(t: Task, now: i64)
    ensures
        ({
            let cs = UpdateTaskChangeset {
                project_id: FieldUpdate::Unset,
                title: None,
                description: FieldUpdate::Unset,
                status: None,
                due_date: FieldUpdate::Unset,
                order: FieldUpdate::Unset,
                updated_at: now,
            };
            let q = spec_apply_task_changeset(t, cs);
            &&& q.id == t.id
            &&& q.user_id == t.user_id
            &&& q.project_id == t.project_id
            &&& q.title == t.title
            &&& q.description == t.description
            &&& q.status == t.status
            &&& q.due_date == t.due_date
            &&& q.order == t.order
            &&& q.created_at == t.created_at
            &&& q.updated_at == now
        }),
{
}

/// An update with an entirely empty changeset still refreshes `updated_at`
/// and leaves every other field of the label unchanged.
pub proof fn lemma_empty_update_label(l: Label, now: i64)
    ensures
        ({
            let cs = UpdateLabelChangeset {
                name: None,
                color: FieldUpdate::Unset,
                updated_at: now,
            };
            let q = spec_apply_label_changeset(l, cs);
            &&& q.id == l.id
            &&& q.user_id == l.user_id
            &&& q.name == l.name
            &&& q.color == l.color
            &&& q.created_at == l.created_at
            &&& q.updated_at == now
        }),
{
}

/// An update with an entirely empty changeset still refreshes `updated_at`
/// and leaves every other field of the time entry unchanged.
pub proof fn lemma_empty_update_time_entry(e: TimeEntry, now: i64)
    ensures
        ({
            let cs = UpdateTimeEntryChangeset {
                start_time: None,
                end_time: FieldUpdate::Unset,
                duration_seconds: FieldUpdate::Unset,
                is_pomodoro_session: None,
                updated_at: now,
            };
            let q = spec_apply_time_entry_changeset(e, cs);
            &&& q.id == e.id
            &&& q.user_id == e.user_id
            &&& q.task_id == e.task_id
            &&& q.start_time == e.start_time
            &&& q.end_time == e.end_time
            &&& q.duration_seconds == e.duration_seconds
            &&& q.is_pomodoro_session == e.is_pomodoro_session
            &&& q.created_at == e.created_at
            &&& q.updated_at == now
        }),
{
}

/// Clearing a nullable field with an explicit null stores a null, while
/// omitting the field keeps the stored value: the two payloads are
/// distinguishable however the row looked before.
pub proof fn lemma_null_distinct_from_absent(p: Project, now: i64)
    ensures
        spec_apply_project_changeset(
            p,
            UpdateProjectChangeset { name: None, color: FieldUpdate::SetNull, updated_at: now },
        ).color is None,
        spec_apply_project_changeset(
            p,
            UpdateProjectChangeset { name: None, color: FieldUpdate::Unset, updated_at: now },
        ).color == p.color,
{
}

/// The duration stored on create: a value the caller supplied always wins;
/// a missing value is derived as end minus start exactly when the end is
/// present and later than the start; otherwise nothing is stored.
pub proof fn lemma_duration_derivation(ne: NewTimeEntry)
    ensures
        ne.duration_seconds is Some ==> spec_created_duration(ne) == ne.duration_seconds,
        (ne.duration_seconds is None && (ne.end_time matches Some(end) && end > ne.start_time))
            ==> spec_created_duration(ne) == Some((ne.end_time.unwrap() - ne.start_time) as i64),
        (ne.duration_seconds is None && (ne.end_time matches Some(end) ==> end <= ne.start_time))
            ==> spec_created_duration(ne) is None,
{
}

/// Attaching a label to a task the caller does not own fails on the task
/// check before the label is ever looked at: the caller's scoped filter
/// does not see the foreign task, and `add_label_to_task` then reports the
/// task as missing whatever the label rows hold.
pub proof fn lemma_add_label_checks_task_first(
    s: Store,
    task_owner: u128,
    caller: u128,
    task_id: u128,
)
    requires
        s.wf(),
        exists|i: int|
            0 <= i < s.tasks@.len() && (#[trigger] s.tasks@[i]).id == task_id
                && s.tasks@[i].user_id == task_owner,
        caller != task_owner,
    ensures
        !spec_has_task(s.tasks@, caller, task_id),
{
    lemma_foreign_task_invisible(s, task_owner, caller, task_id);
}

/// Deleting an id the caller's scoped filter does not see reports not found
/// and leaves the store unchanged, so a repeated delete of the same id
/// reports not found again, on every call.
pub proof fn lemma_delete_missing_is_stable(pre: Store, post: Store, uid: u128, id: u128)
    requires
        !spec_has_project(pre.projects@, uid, id),
        post == pre,
    ensures
        !spec_has_project(post.projects@, uid, id),
{
}


/// Round trip for tasks: the row a create returns — its id fresh from the
/// counter — is exactly what a scoped get of that id by the same user sees
/// afterwards. `create_task` ensures the store moved from `pre` to `post` as
/// stated here; `get_task` then returns a row satisfying the left side of
/// the final implication.
pub proof fn lemma_create_get_round_trip_task(pre: Store, post: Store, created: Task)
    requires
        pre.wf(),
        created.id == pre.next_id,
        post.tasks@ == pre.tasks@.push(created),
    ensures
        spec_has_task(post.tasks@, created.user_id, created.id),
        forall|t: Task|
            post.tasks@.contains(t) && task_matches(t, created.user_id, created.id) ==> t
                == created,
{
    let n = pre.tasks@.len() as int;
    assert(post.tasks@[n] == created);
    assert(task_matches(created, created.user_id, created.id));
    assert forall|t: Task|
        post.tasks@.contains(t) && task_matches(t, created.user_id, created.id) implies t
        == created by {
        let j = choose|j: int| 0 <= j < post.tasks@.len() && post.tasks@[j] == t;
        if j < n {
            assert(pre.tasks@[j].id < pre.next_id);
        }
    }
}

/// Round trip for labels; see `lemma_create_get_round_trip_task`.
pub proof fn lemma_create_get_round_trip_label(pre: Store, post: Store, created: Label)
    requires
        pre.wf(),
        created.id == pre.next_id,
        post.labels@ == pre.labels@.push(created),
    ensures
        spec_has_label(post.labels@, created.user_id, created.id),
        forall|l: Label|
            post.labels@.contains(l) && label_matches(l, created.user_id, created.id) ==> l
                == created,
{
    let n = pre.labels@.len() as int;
    assert(post.labels@[n] == created);
    assert(label_matches(created, created.user_id, created.id));
    assert forall|l: Label|
        post.labels@.contains(l) && label_matches(l, created.user_id, created.id) implies l
        == created by {
        let j = choose|j: int| 0 <= j < post.labels@.len() && post.labels@[j] == l;
        if j < n {
            assert(pre.labels@[j].id < pre.next_id);
        }
    }
}

/// Round trip for time entries; see `lemma_create_get_round_trip_task`.
pub proof fn lemma_create_get_round_trip_time_entry(pre: Store, post: Store, created: TimeEntry)
    requires
        pre.wf(),
        created.id == pre.next_id,
        post.time_entries@ == pre.time_entries@.push(created),
    ensures
        spec_has_entry(post.time_entries@, created.user_id, created.id),
        forall|e: TimeEntry|
            post.time_entries@.contains(e) && entry_matches(e, created.user_id, created.id) ==> e
                == created,
{
    let n = pre.time_entries@.len() as int;
    assert(post.time_entries@[n] == created);
    assert(entry_matches(created, created.user_id, created.id));
    assert forall|e: TimeEntry|
        post.time_entries@.contains(e) && entry_matches(e, created.user_id, created.id) implies e
        == created by {
        let j = choose|j: int| 0 <= j < post.time_entries@.len() && post.time_entries@[j] == e;
        if j < n {
            assert(pre.time_entries@[j].id < pre.next_id);
        }
    }
}

} // verus!
