use vstd::prelude::*;
use crate::calendar::Date;
use crate::error::ServiceError;
use crate::error::msg_null_for_required_field;
use crate::error::null_for_required_field;
use crate::error::spec_bad_request;

verus! {

/// The caller's identity, pre-validated upstream and trusted as-is.
#[derive(Debug, Clone, Copy, PartialEq, Eq, Structural)]
pub struct AuthenticatedUser {
    pub id: u128,
}

/// One field of a partial update: leave the column untouched, clear it to
/// null, or set it to a value.
#[derive(Debug, Clone)]
pub enum FieldUpdate<T> {
    Unset,
    SetNull,
    SetValue(T),
}

/// What a non-nullable column receives from a `FieldUpdate`: either a new
/// value or nothing. `SetNull` is rejected before this is applied.
pub open spec fn spec_field_to_opt<T>(f: FieldUpdate<T>) -> Option<T> {
    match f {
        FieldUpdate::SetValue(v) => Some(v),
        _ => None,
    }
}

/// The new content of a nullable column after an update instruction.
pub open spec fn spec_apply_nullable<T>(cur: Option<T>, f: FieldUpdate<T>) -> Option<T> {
    match f {
        FieldUpdate::Unset => cur,
        FieldUpdate::SetNull => None,
        FieldUpdate::SetValue(v) => Some(v),
    }
}

/// The new content of a non-nullable column after an update instruction.
pub open spec fn spec_apply_required<T>(cur: T, f: Option<T>) -> T {
    match f {
        None => cur,
        Some(v) => v,
    }
}

// --- Project ---

#[derive(Debug, Clone)]
pub struct Project {
    pub id: u128,
    pub user_id: u128,
    pub name: String,
    pub color: Option<String>,
    pub created_at: i64,
    pub updated_at: i64,
}

#[derive(Debug, Clone)]
pub struct NewProject {
    pub user_id: u128,
    pub name: String,
    pub color: Option<String>,
}

#[derive(Debug, Clone)]
pub struct UpdateProjectChangeset {
    pub name: Option<String>,
    pub color: FieldUpdate<String>,
    pub updated_at: i64,
}

#[derive(Debug, Clone)]
pub struct CreateProjectPayload {
    pub name: String,
    pub color: Option<String>,
}

#[derive(Debug, Clone)]
pub struct UpdateProjectPayload {
    pub name: FieldUpdate<String>,
    pub color: FieldUpdate<String>,
}

pub open spec fn spec_apply_project_changeset(p: Project, cs: UpdateProjectChangeset) -> Project {
    Project {
        id: p.id,
        user_id: p.user_id,
        name: spec_apply_required(p.name, cs.name),
        color: spec_apply_nullable(p.color, cs.color),
        created_at: p.created_at,
        updated_at: cs.updated_at,
    }
}

pub open spec fn spec_project_changeset(p: UpdateProjectPayload, now: i64) -> UpdateProjectChangeset {
    UpdateProjectChangeset {
        name: spec_field_to_opt(p.name),
        color: p.color,
        updated_at: now,
    }
}

/// Resolves an update payload into a changeset, stamping `updated_at`.
/// An explicit null for the non-nullable `name` column is rejected.
pub fn build_project_changeset(p: &UpdateProjectPayload, now: i64) -> (r: Result<
    UpdateProjectChangeset,
    ServiceError,
>)
    ensures
        p.name is SetNull ==> (r matches Err(e) && spec_bad_request(
            e,
            msg_null_for_required_field(),
        )),
        !(p.name is SetNull) ==> r == Ok::<_, ServiceError>(spec_project_changeset(*p, now)),
{
    let name: Option<String> = match &p.name {
        FieldUpdate::Unset => None,
        FieldUpdate::SetNull => {
            return Err(null_for_required_field());
        },
        FieldUpdate::SetValue(v) => Some(v.clone()),
    };
    Ok(UpdateProjectChangeset { name, color: dup_field_string(&p.color), updated_at: now })
}

// --- Label ---

#[derive(Debug, Clone)]
pub struct Label {
    pub id: u128,
    pub user_id: u128,
    pub name: String,
    pub color: Option<String>,
    pub created_at: i64,
    pub updated_at: i64,
}

#[derive(Debug, Clone)]
pub struct NewLabel {
    pub user_id: u128,
    pub name: String,
    pub color: Option<String>,
}

#[derive(Debug, Clone)]
pub struct UpdateLabelChangeset {
    pub name: Option<String>,
    pub color: FieldUpdate<String>,
    pub updated_at: i64,
}

#[derive(Debug, Clone)]
pub struct CreateLabelPayload {
    pub name: String,
    pub color: Option<String>,
}

#[derive(Debug, Clone)]
pub struct UpdateLabelPayload {
    pub name: FieldUpdate<String>,
    pub color: FieldUpdate<String>,
}

pub open spec fn spec_apply_label_changeset(l: Label, cs: UpdateLabelChangeset) -> Label {
    Label {
        id: l.id,
        user_id: l.user_id,
        name: spec_apply_required(l.name, cs.name),
        color: spec_apply_nullable(l.color, cs.color),
        created_at: l.created_at,
        updated_at: cs.updated_at,
    }
}

pub open spec fn spec_label_changeset(p: UpdateLabelPayload, now: i64) -> UpdateLabelChangeset {
    UpdateLabelChangeset {
        name: spec_field_to_opt(p.name),
        color: p.color,
        updated_at: now,
    }
}

/// Resolves an update payload into a changeset, stamping `updated_at`.
/// An explicit null for the non-nullable `name` column is rejected.
pub fn build_label_changeset(p: &UpdateLabelPayload, now: i64) -> (r: Result<
    UpdateLabelChangeset,
    ServiceError,
>)
    ensures
        p.name is SetNull ==> (r matches Err(e) && spec_bad_request(
            e,
            msg_null_for_required_field(),
        )),
        !(p.name is SetNull) ==> r == Ok::<_, ServiceError>(spec_label_changeset(*p, now)),
{
    let name: Option<String> = match &p.name {
        FieldUpdate::Unset => None,
        FieldUpdate::SetNull => {
            return Err(null_for_required_field());
        },
        FieldUpdate::SetValue(v) => Some(v.clone()),
    };
    Ok(UpdateLabelChangeset { name, color: dup_field_string(&p.color), updated_at: now })
}

// --- Task ---

#[derive(Debug, Clone)]
pub struct Task {
    pub id: u128,
    pub user_id: u128,
    pub project_id: Option<u128>,
    pub title: String,
    pub description: Option<String>,
    pub status: String,
    pub due_date: Option<Date>,
    pub order: Option<i32>,
    pub created_at: i64,
    pub updated_at: i64,
}

#[derive(Debug, Clone)]
pub struct NewTask {
    pub user_id: u128,
    pub project_id: Option<u128>,
    pub title: String,
    pub description: Option<String>,
    pub status: Option<String>,
    pub due_date: Option<Date>,
    pub order: Option<i32>,
}

#[derive(Debug, Clone)]
pub struct UpdateTaskChangeset {
    pub project_id: FieldUpdate<u128>,
    pub title: Option<String>,
    pub description: FieldUpdate<String>,
    pub status: Option<String>,
    pub due_date: FieldUpdate<Date>,
    pub order: FieldUpdate<i32>,
    pub updated_at: i64,
}

#[derive(Debug, Clone)]
pub struct CreateTaskPayload {
    pub project_id: Option<u128>,
    pub title: String,
    pub description: Option<String>,
    pub status: Option<String>,
    pub due_date: Option<Date>,
    pub order: Option<i32>,
}

#[derive(Debug, Clone)]
pub struct UpdateTaskPayload {
    pub project_id: FieldUpdate<u128>,
    pub title: FieldUpdate<String>,
    pub description: FieldUpdate<String>,
    pub status: FieldUpdate<String>,
    pub due_date: FieldUpdate<Date>,
    pub order: FieldUpdate<i32>,
}

/// A task as served to the caller: the stored row plus its labels, which are
/// a read-time projection, not a stored field.
#[derive(Debug, Clone)]
pub struct TaskApiResponse {
    pub task: Task,
    pub labels: Vec<Label>,
}

#[derive(Debug, Clone)]
pub struct ListTasksQuery {
    pub project_id: Option<u128>,
    pub status: Option<String>,
}

pub open spec fn spec_apply_task_changeset(t: Task, cs: UpdateTaskChangeset) -> Task {
    Task {
        id: t.id,
        user_id: t.user_id,
        project_id: spec_apply_nullable(t.project_id, cs.project_id),
        title: spec_apply_required(t.title, cs.title),
        description: spec_apply_nullable(t.description, cs.description),
        status: spec_apply_required(t.status, cs.status),
        due_date: spec_apply_nullable(t.due_date, cs.due_date),
        order: spec_apply_nullable(t.order, cs.order),
        created_at: t.created_at,
        updated_at: cs.updated_at,
    }
}

pub open spec fn spec_task_changeset(p: UpdateTaskPayload, now: i64) -> UpdateTaskChangeset {
    UpdateTaskChangeset {
        project_id: p.project_id,
        title: spec_field_to_opt(p.title),
        description: p.description,
        status: spec_field_to_opt(p.status),
        due_date: p.due_date,
        order: p.order,
        updated_at: now,
    }
}

/// Resolves an update payload into a changeset, stamping `updated_at`.
/// Explicit nulls for the non-nullable `title` and `status` columns are
/// rejected.
pub fn build_task_changeset(p: &UpdateTaskPayload, now: i64) -> (r: Result<
    UpdateTaskChangeset,
    ServiceError,
>)
    ensures
        (p.title is SetNull || p.status is SetNull) ==> (r matches Err(e) && spec_bad_request(
            e,
            msg_null_for_required_field(),
        )),
        !(p.title is SetNull || p.status is SetNull) ==> r == Ok::<_, ServiceError>(
            spec_task_changeset(*p, now),
        ),
{
    let title: Option<String> = match &p.title {
        FieldUpdate::Unset => None,
        FieldUpdate::SetNull => {
            return Err(null_for_required_field());
        },
        FieldUpdate::SetValue(v) => Some(v.clone()),
    };
    let status: Option<String> = match &p.status {
        FieldUpdate::Unset => None,
        FieldUpdate::SetNull => {
            return Err(null_for_required_field());
        },
        FieldUpdate::SetValue(v) => Some(v.clone()),
    };
    Ok(
        UpdateTaskChangeset {
            project_id: dup_field_copy(&p.project_id),
            title,
            description: dup_field_string(&p.description),
            status,
            due_date: dup_field_copy(&p.due_date),
            order: dup_field_copy(&p.order),
            updated_at: now,
        },
    )
}

// --- TaskLabel ---

#[derive(Debug, Clone, Copy, PartialEq, Eq, Structural)]
pub struct TaskLabel {
    pub task_id: u128,
    pub label_id: u128,
}

#[derive(Debug, Clone, Copy, PartialEq, Eq, Structural)]
pub struct NewTaskLabelAssociation {
    pub task_id: u128,
    pub label_id: u128,
}

#[derive(Debug, Clone, Copy, PartialEq, Eq, Structural)]
pub struct AddLabelToTaskPayload {
    pub label_id: u128,
}

// --- TimeEntry ---

#[derive(Debug, Clone)]
pub struct TimeEntry {
    pub id: u128,
    pub user_id: u128,
    pub task_id: u128,
    pub start_time: i64,
    pub end_time: Option<i64>,
    pub duration_seconds: Option<i64>,
    pub is_pomodoro_session: bool,
    pub created_at: i64,
    pub updated_at: i64,
}

#[derive(Debug, Clone)]
pub struct NewTimeEntry {
    pub user_id: u128,
    pub task_id: u128,
    pub start_time: i64,
    pub end_time: Option<i64>,
    pub duration_seconds: Option<i64>,
    pub is_pomodoro_session: Option<bool>,
}

#[derive(Debug, Clone)]
pub struct UpdateTimeEntryChangeset {
    pub start_time: Option<i64>,
    pub end_time: FieldUpdate<i64>,
    pub duration_seconds: FieldUpdate<i64>,
    pub is_pomodoro_session: Option<bool>,
    pub updated_at: i64,
}

#[derive(Debug, Clone)]
pub struct CreateTimeEntryPayload {
    pub task_id: u128,
    pub start_time: i64,
    pub end_time: Option<i64>,
    pub duration_seconds: Option<i64>,
    pub is_pomodoro_session: Option<bool>,
}

#[derive(Debug, Clone)]
pub struct UpdateTimeEntryPayload {
    pub start_time: FieldUpdate<i64>,
    pub end_time: FieldUpdate<i64>,
    pub duration_seconds: FieldUpdate<i64>,
    pub is_pomodoro_session: FieldUpdate<bool>,
}

#[derive(Debug, Clone)]
pub struct ListTimeEntriesQuery {
    pub task_id: Option<u128>,
    pub date_from: Option<i64>,
    pub date_to: Option<i64>,
}

pub open spec fn spec_apply_time_entry_changeset(t: TimeEntry, cs: UpdateTimeEntryChangeset) -> TimeEntry {
    TimeEntry {
        id: t.id,
        user_id: t.user_id,
        task_id: t.task_id,
        start_time: spec_apply_required(t.start_time, cs.start_time),
        end_time: spec_apply_nullable(t.end_time, cs.end_time),
        duration_seconds: spec_apply_nullable(t.duration_seconds, cs.duration_seconds),
        is_pomodoro_session: spec_apply_required(t.is_pomodoro_session, cs.is_pomodoro_session),
        created_at: t.created_at,
        updated_at: cs.updated_at,
    }
}

pub open spec fn spec_time_entry_changeset(p: UpdateTimeEntryPayload, now: i64) -> UpdateTimeEntryChangeset {
    UpdateTimeEntryChangeset {
        start_time: spec_field_to_opt(p.start_time),
        end_time: p.end_time,
        duration_seconds: p.duration_seconds,
        is_pomodoro_session: spec_field_to_opt(p.is_pomodoro_session),
        updated_at: now,
    }
}

/// Resolves an update payload into a changeset, stamping `updated_at`.
/// Explicit nulls for the non-nullable `start_time` and
/// `is_pomodoro_session` columns are rejected. The duration derivation
/// against the stored start time happens where the stored row is at hand,
/// not here.
pub fn build_time_entry_changeset(p: &UpdateTimeEntryPayload, now: i64) -> (r: Result<
    UpdateTimeEntryChangeset,
    ServiceError,
>)
    ensures
        (p.start_time is SetNull || p.is_pomodoro_session is SetNull) ==> (r matches Err(e)
            && spec_bad_request(e, msg_null_for_required_field())),
        !(p.start_time is SetNull || p.is_pomodoro_session is SetNull) ==> r == Ok::<
            _,
            ServiceError,
        >(spec_time_entry_changeset(*p, now)),
{
    let start_time: Option<i64> = match &p.start_time {
        FieldUpdate::Unset => None,
        FieldUpdate::SetNull => {
            return Err(null_for_required_field());
        },
        FieldUpdate::SetValue(v) => Some(*v),
    };
    let is_pomodoro_session: Option<bool> = match &p.is_pomodoro_session {
        FieldUpdate::Unset => None,
        FieldUpdate::SetNull => {
            return Err(null_for_required_field());
        },
        FieldUpdate::SetValue(v) => Some(*v),
    };
    Ok(
        UpdateTimeEntryChangeset {
            start_time,
            end_time: dup_field_copy(&p.end_time),
            duration_seconds: dup_field_copy(&p.duration_seconds),
            is_pomodoro_session,
            updated_at: now,
        },
    )
}

// --- Pagination data-model hooks ---

#[derive(Debug, Clone, Copy, PartialEq, Eq, Structural)]
pub struct PaginationParams {
    pub page: i64,
    pub per_page: i64,
}

impl Default for PaginationParams {
    /// The first page, ten items at a time.
    fn default() -> (r: Self)
        ensures
            r.page == 1,
            r.per_page == 10,
    {
        PaginationParams { page: 1, per_page: 10 }
    }
}

#[derive(Debug, Clone)]
pub struct PaginatedResponse<T> {
    pub items: Vec<T>,
    pub total_items: i64,
    pub total_pages: i64,
    pub page: i64,
    pub per_page: i64,
}

// --- Copy helpers with exact contracts ---

pub fn dup_field_copy<T: Copy>(f: &FieldUpdate<T>) -> (r: FieldUpdate<T>)
    ensures
        r == *f,
{
    match f {
        FieldUpdate::Unset => FieldUpdate::Unset,
        FieldUpdate::SetNull => FieldUpdate::SetNull,
        FieldUpdate::SetValue(v) => FieldUpdate::SetValue(*v),
    }
}

pub fn dup_field_string(f: &FieldUpdate<String>) -> (r: FieldUpdate<String>)
    ensures
        r == *f,
{
    match f {
        FieldUpdate::Unset => FieldUpdate::Unset,
        FieldUpdate::SetNull => FieldUpdate::SetNull,
        FieldUpdate::SetValue(v) => FieldUpdate::SetValue(v.clone()),
    }
}

pub fn dup_opt_string(o: &Option<String>) -> (r: Option<String>)
    ensures
        r == *o,
{
    match o {
        None => None,
        Some(s) => Some(s.clone()),
    }
}

impl Project {
    /// A copy that is provably equal to the row itself.
    pub fn duplicate(&self) -> (r: Project)
        ensures
            r == *self,
    {
        Project {
            id: self.id,
            user_id: self.user_id,
            name: self.name.clone(),
            color: dup_opt_string(&self.color),
            created_at: self.created_at,
            updated_at: self.updated_at,
        }
    }
}

impl Label {
    /// A copy that is provably equal to the row itself.
    pub fn duplicate(&self) -> (r: Label)
        ensures
            r == *self,
    {
        Label {
            id: self.id,
            user_id: self.user_id,
            name: self.name.clone(),
            color: dup_opt_string(&self.color),
            created_at: self.created_at,
            updated_at: self.updated_at,
        }
    }
}

impl Task {
    /// A copy that is provably equal to the row itself.
    pub fn duplicate(&self) -> (r: Task)
        ensures
            r == *self,
    {
        Task {
            id: self.id,
            user_id: self.user_id,
            project_id: self.project_id,
            title: self.title.clone(),
            description: dup_opt_string(&self.description),
            status: self.status.clone(),
            due_date: self.due_date,
            order: self.order,
            created_at: self.created_at,
            updated_at: self.updated_at,
        }
    }
}

impl TimeEntry {
    /// A copy that is provably equal to the row itself.
    pub fn duplicate(&self) -> (r: TimeEntry)
        ensures
            r == *self,
    {
        TimeEntry {
            id: self.id,
            user_id: self.user_id,
            task_id: self.task_id,
            start_time: self.start_time,
            end_time: self.end_time,
            duration_seconds: self.duration_seconds,
            is_pomodoro_session: self.is_pomodoro_session,
            created_at: self.created_at,
            updated_at: self.updated_at,
        }
    }
}

} // verus!
