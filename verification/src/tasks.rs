use vstd::prelude::*;
use vstd::pervasive::VecAdditionalExecFns;
use vstd::string::StringExecFns;
use crate::error::ServiceError;
use crate::error::database_failure;
use crate::error::msg_database_failure;
use crate::error::msg_task_not_found;
use crate::error::spec_database_error;
use crate::error::spec_not_found;
use crate::error::task_not_found;
use crate::models::FieldUpdate;
use crate::models::Label;
use crate::models::ListTasksQuery;
use crate::models::NewTask;
use crate::models::Task;
use crate::models::TaskApiResponse;
use crate::models::TaskLabel;
use crate::models::UpdateTaskChangeset;
use crate::models::dup_opt_string;
use crate::models::spec_apply_task_changeset;
use crate::projects::find_project_idx;
use crate::projects::spec_has_project;
use crate::store::Store;
use crate::store::unchanged_but_tasks;

verus! {

/// The row belongs to the caller and carries the requested id: the uniform
/// ownership filter of every scoped task operation.
pub open spec fn task_matches(t: Task, uid: u128, id: u128) -> bool {
    t.user_id == uid && t.id == id
}

pub open spec fn spec_has_task(s: Seq<Task>, uid: u128, id: u128) -> bool {
    exists|j: int| 0 <= j < s.len() && task_matches(#[trigger] s[j], uid, id)
}

/// The join table holds a row for the given task id and label id.
pub open spec fn spec_pair_present(tls: Seq<TaskLabel>, tid: u128, lid: u128) -> bool {
    exists|k: int|
        0 <= k < tls.len() && (#[trigger] tls[k]).task_id == tid && tls[k].label_id == lid
}

/// The labels hydrated onto a task: those the join table ties to it.
pub open spec fn label_joined_to(tls: Seq<TaskLabel>, tid: u128) -> spec_fn(Label) -> bool {
    |l: Label| spec_pair_present(tls, tid, l.id)
}

/// The listing filter: owned by the caller, plus the optional equality
/// filters on project and status.
pub open spec fn task_listed_under(uid: u128, q: ListTasksQuery) -> spec_fn(Task) -> bool {
    |t: Task|
        t.user_id == uid && (q.project_id matches Some(p) ==> t.project_id == Some(p)) && (
        q.status matches Some(s) ==> t.status@ == s@)
}

/// The listing order: `order` ascending with nulls last, then `created_at`
/// descending as tiebreak.
pub open spec fn task_sort_le(a: Task, b: Task) -> bool {
    match (a.order, b.order) {
        (Some(x), Some(y)) => x < y || (x == y && a.created_at >= b.created_at),
        (Some(x), None) => true,
        (None, Some(y)) => false,
        (None, None) => a.created_at >= b.created_at,
    }
}

pub open spec fn sorted_tasks(s: Seq<Task>) -> bool {
    forall|i: int, j: int| 0 <= i <= j < s.len() ==> task_sort_le(#[trigger] s[i], #[trigger] s[j])
}

/// The tasks carried by a hydrated listing.
pub open spec fn tasks_of(s: Seq<TaskApiResponse>) -> Seq<Task> {
    s.map_values(|resp: TaskApiResponse| resp.task)
}

proof fn task_sort_le_total(a: Task, b: Task)
    ensures
        task_sort_le(a, b) || task_sort_le(b, a),
{
}

proof fn task_sort_le_trans(a: Task, b: Task, c: Task)
    requires
        task_sort_le(a, b),
        task_sort_le(b, c),
    ensures
        task_sort_le(a, c),
{
}

pub(crate) fn find_task_idx(v: &Vec<Task>, uid: u128, id: u128) -> (r: Option<usize>)
    ensures
        match r {
            Some(i) => i < v@.len() && task_matches(v@[i as int], uid, id) && (forall|j: int|
                0 <= j < i ==> !task_matches(#[trigger] v@[j], uid, id)),
            None => forall|j: int| 0 <= j < v@.len() ==> !task_matches(#[trigger] v@[j], uid, id),
        },
{
    let mut i: usize = 0;
    while i < v.len()
        invariant
            i <= v@.len(),
            forall|j: int| 0 <= j < i ==> !task_matches(#[trigger] v@[j], uid, id),
        decreases v@.len() - i,
    {
        if v[i].user_id == uid && v[i].id == id {
            return Some(i);
        }
        i = i + 1;
    }
    None
}

/// Whether the join table ties `tid` to `lid`.
pub(crate) fn pair_present(tls: &Vec<TaskLabel>, tid: u128, lid: u128) -> (r: bool)
    ensures
        r == spec_pair_present(tls@, tid, lid),
{
    let mut i: usize = 0;
    while i < tls.len()
        invariant
            i <= tls@.len(),
            forall|k: int|
                0 <= k < i ==> !((#[trigger] tls@[k]).task_id == tid && tls@[k].label_id == lid),
        decreases tls@.len() - i,
    {
        if tls[i].task_id == tid && tls[i].label_id == lid {
            return true;
        }
        i = i + 1;
    }
    false
}

/// The labels the join table ties to task `tid`, in label-table order.
pub(crate) fn labels_of_task(labels: &Vec<Label>, tls: &Vec<TaskLabel>, tid: u128) -> (r: Vec<
    Label,
>)
    ensures
        r@ == labels@.filter(label_joined_to(tls@, tid)),
{
    let mut out: Vec<Label> = Vec::new();
    let mut i: usize = 0;
    while i < labels.len()
        invariant
            i <= labels@.len(),
            out@ == labels@.take(i as int).filter(label_joined_to(tls@, tid)),
        decreases labels@.len() - i,
    {
        proof {
            labels@.lemma_take_succ_push(i as int);
            labels@.take(i as int).lemma_filter_push(labels@[i as int], label_joined_to(tls@, tid));
            assert(labels@.take(i as int + 1) == labels@.take(i as int).push(labels@[i as int]));
        }
        if pair_present(tls, tid, labels[i].id) {
            out.push(labels[i].duplicate());
        }
        i = i + 1;
    }
    proof {
        assert(labels@.take(labels@.len() as int) =~= labels@);
    }
    out
}

/// Reorders the rows into the listing order without losing or inventing any.
fn sort_tasks(v: Vec<Task>) -> (r: Vec<Task>)
    ensures
        r@.to_multiset() == v@.to_multiset(),
        sorted_tasks(r@),
{
    broadcast use vstd::seq_lib::group_to_multiset_ensures;

    let mut rest = v;
    let mut out: Vec<Task> = Vec::new();
    while rest.len() > 0
        invariant
            out@.to_multiset().add(rest@.to_multiset()) == v@.to_multiset(),
            sorted_tasks(out@),
            forall|i: int, j: int|
                0 <= i < out@.len() && 0 <= j < rest@.len() ==> task_sort_le(
                    #[trigger] out@[i],
                    #[trigger] rest@[j],
                ),
        decreases rest@.len(),
    {
        let mut m: usize = 0;
        let mut k: usize = 1;
        while k < rest.len()
            invariant
                m < k <= rest@.len(),
                rest@.len() > 0,
                forall|j: int| 0 <= j < k ==> task_sort_le(rest@[m as int], #[trigger] rest@[j]),
            decreases rest@.len() - k,
        {
            if !task_le(&rest[m], &rest[k]) {
                proof {
                    task_sort_le_total(rest@[m as int], rest@[k as int]);
                    assert forall|j: int| 0 <= j < k + 1 implies task_sort_le(
                        rest@[k as int],
                        #[trigger] rest@[j],
                    ) by {
                        if j < k {
                            task_sort_le_trans(rest@[k as int], rest@[m as int], rest@[j]);
                        }
                    }
                }
                m = k;
            }
            k = k + 1;
        }
        let ghost old_out = out@;
        let ghost old_rest = rest@;
        let t = rest.remove(m);
        out.push(t);
        proof {
            old_rest.to_multiset_ensures();
            old_out.to_multiset_ensures();
            assert(old_rest.contains(t));
            assert(old_rest.to_multiset().count(t) > 0);
            assert(out@.to_multiset() =~= old_out.to_multiset().insert(t));
            assert(rest@.to_multiset() =~= old_rest.to_multiset().remove(t));
            assert(out@.to_multiset().add(rest@.to_multiset()) =~= v@.to_multiset());
            assert forall|i: int, j: int|
                0 <= i < out@.len() && 0 <= j < rest@.len() implies task_sort_le(
                #[trigger] out@[i],
                #[trigger] rest@[j],
            ) by {
                let oj = if j < m { j } else { j + 1 };
                assert(rest@[j] == old_rest[oj]);
                if i < out@.len() - 1 {
                    assert(task_sort_le(old_out[i], old_rest[oj]));
                } else {
                    assert(task_sort_le(old_rest[m as int], old_rest[oj]));
                }
            }
            assert forall|i: int, j: int|
                0 <= i <= j < out@.len() implies task_sort_le(
                #[trigger] out@[i],
                #[trigger] out@[j],
            ) by {
                if j < out@.len() - 1 {
                    assert(task_sort_le(old_out[i], old_out[j]));
                } else if i < j {
                    assert(task_sort_le(old_out[i], old_rest[m as int]));
                }
            }
        }
    }
    out
}

fn task_le(a: &Task, b: &Task) -> (r: bool)
    ensures
        r == task_sort_le(*a, *b),
{
    match (a.order, b.order) {
        (Some(x), Some(y)) => x < y || (x == y && a.created_at >= b.created_at),
        (Some(_), None) => true,
        (None, Some(_)) => false,
        (None, None) => a.created_at >= b.created_at,
    }
}

impl Store {
    /// Inserts a task row with a server-generated id and timestamps. A task
    /// that names a project requires that project to exist and belong to the
    /// same user; otherwise the insert fails as a constraint violation.
    /// A task created without a status gets the default `"todo"`.
    pub fn create_task(&mut self, nt: NewTask, now: i64) -> (r: Result<Task, ServiceError>)
        requires
            old(self).wf(),
        ensures
            final(self).wf(),
            ({
                let fk_bad = nt.project_id matches Some(pid) && !spec_has_project(
                    old(self).projects@,
                    nt.user_id,
                    pid,
                );
                &&& (fk_bad || old(self).next_id == u128::MAX) ==> (r matches Err(e)
                    && spec_database_error(e, msg_database_failure()) && *final(self) == *old(
                    self,
                ))
                &&& (!fk_bad && old(self).next_id < u128::MAX) ==> {
                    &&& r matches Ok(t)
                    &&& final(self).tasks@ == old(self).tasks@.push(t)
                    &&& t.id == old(self).next_id
                    &&& t.user_id == nt.user_id
                    &&& t.project_id == nt.project_id
                    &&& t.title == nt.title
                    &&& t.description == nt.description
                    &&& (nt.status matches Some(s) ==> t.status == s)
                    &&& (nt.status is None ==> t.status@ == "todo"@)
                    &&& t.due_date == nt.due_date
                    &&& t.order == nt.order
                    &&& t.created_at == now
                    &&& t.updated_at == now
                    &&& final(self).next_id == old(self).next_id + 1
                    &&& unchanged_but_tasks(*old(self), *final(self))
                }
            }),
    {
        match nt.project_id {
            Some(pid) => {
                if find_project_idx(&self.projects, nt.user_id, pid).is_none() {
                    return Err(database_failure());
                }
            },
            None => {},
        }
        if self.next_id == u128::MAX {
            return Err(database_failure());
        }
        let id = self.next_id;
        let row = Task {
            id,
            user_id: nt.user_id,
            project_id: nt.project_id,
            title: nt.title,
            description: nt.description,
            status: match nt.status {
                Some(s) => s,
                None => String::from_str("todo"),
            },
            due_date: nt.due_date,
            order: nt.order,
            created_at: now,
            updated_at: now,
        };
        let out = row.duplicate();
        self.tasks.push(row);
        self.next_id = id + 1;
        Ok(out)
    }

    /// Scoped single-row lookup, hydrated with the task's labels; a missing
    /// id and a foreign-owned id are both not found.
    pub fn get_task(&self, uid: u128, id: u128) -> (r: Result<TaskApiResponse, ServiceError>)
        ensures
            r is Ok <==> spec_has_task(self.tasks@, uid, id),
            r matches Ok(resp) ==> task_matches(resp.task, uid, id) && self.tasks@.contains(
                resp.task,
            ) && resp.labels@ == self.labels@.filter(
                label_joined_to(self.task_labels@, resp.task.id),
            ),
            r matches Err(e) ==> spec_not_found(e, msg_task_not_found()),
    {
        match find_task_idx(&self.tasks, uid, id) {
            Some(i) => {
                let task = self.tasks[i].duplicate();
                let labels = labels_of_task(&self.labels, &self.task_labels, task.id);
                Ok(TaskApiResponse { task, labels })
            },
            None => Err(task_not_found()),
        }
    }

    /// The caller's tasks under the optional project and status filters,
    /// ordered by `order` ascending with nulls last and `created_at`
    /// descending as tiebreak, each hydrated with its labels.
    pub fn list_tasks(&self, uid: u128, q: &ListTasksQuery) -> (r: Vec<TaskApiResponse>)
        ensures
            tasks_of(r@).to_multiset() == self.tasks@.filter(
                task_listed_under(uid, *q),
            ).to_multiset(),
            sorted_tasks(tasks_of(r@)),
            forall|i: int|
                0 <= i < r@.len() ==> (#[trigger] r@[i]).labels@ == self.labels@.filter(
                    label_joined_to(self.task_labels@, r@[i].task.id),
                ),
    {
        let mut picked: Vec<Task> = Vec::new();
        let mut i: usize = 0;
        while i < self.tasks.len()
            invariant
                i <= self.tasks@.len(),
                picked@ == self.tasks@.take(i as int).filter(task_listed_under(uid, *q)),
            decreases self.tasks@.len() - i,
        {
            proof {
                self.tasks@.lemma_take_succ_push(i as int);
                self.tasks@.take(i as int).lemma_filter_push(
                    self.tasks@[i as int],
                    task_listed_under(uid, *q),
                );
                assert(self.tasks@.take(i as int + 1) == self.tasks@.take(i as int).push(
                    self.tasks@[i as int],
                ));
            }
            let t = &self.tasks[i];
            let project_ok = match q.project_id {
                Some(p) => match t.project_id {
                    Some(tp) => tp == p,
                    None => false,
                },
                None => true,
            };
            let status_ok = match &q.status {
                Some(s) => t.status.eq(s),
                None => true,
            };
            if t.user_id == uid && project_ok && status_ok {
                picked.push(t.duplicate());
            }
            i = i + 1;
        }
        proof {
            assert(self.tasks@.take(self.tasks@.len() as int) =~= self.tasks@);
        }
        let sorted = sort_tasks(picked);
        let mut out: Vec<TaskApiResponse> = Vec::new();
        let mut j: usize = 0;
        while j < sorted.len()
            invariant
                j <= sorted@.len(),
                tasks_of(out@) == sorted@.take(j as int),
                sorted_tasks(sorted@),
                sorted@.to_multiset() == self.tasks@.filter(
                    task_listed_under(uid, *q),
                ).to_multiset(),
                forall|i2: int|
                    0 <= i2 < out@.len() ==> (#[trigger] out@[i2]).labels@ == self.labels@.filter(
                        label_joined_to(self.task_labels@, out@[i2].task.id),
                    ),
            decreases sorted@.len() - j,
        {
            let ghost old_out = out@;
            let task = sorted[j].duplicate();
            let labels = labels_of_task(&self.labels, &self.task_labels, task.id);
            out.push(TaskApiResponse { task, labels });
            proof {
                assert(tasks_of(old_out).len() == old_out.len());
                assert(old_out.len() == j as int);
                assert(out@.len() == old_out.len() + 1);
                assert(forall|i2: int| 0 <= i2 < j ==> out@[i2] == old_out[i2]);
                assert(out@[j as int].task == sorted@[j as int]);
                assert(forall|i2: int|
                    0 <= i2 < j ==> tasks_of(old_out)[i2] == sorted@.take(j as int)[i2]);
                assert(tasks_of(out@) =~= sorted@.take(j as int + 1));
            }
            j = j + 1;
        }
        proof {
            assert(sorted@.take(sorted@.len() as int) =~= sorted@);
            assert(forall|i2: int, j2: int|
                0 <= i2 <= j2 < tasks_of(out@).len() ==> task_sort_le(
                    #[trigger] tasks_of(out@)[i2],
                    #[trigger] tasks_of(out@)[j2],
                ));
        }
        out
    }

    /// Applies only the changeset-given fields to the caller's row and
    /// returns the updated task hydrated with its labels; zero matching rows
    /// surface as not found, never as a silent no-op.
    pub fn update_task(&mut self, uid: u128, id: u128, cs: UpdateTaskChangeset) -> (r: Result<
        TaskApiResponse,
        ServiceError,
    >)
        requires
            old(self).wf(),
        ensures
            final(self).wf(),
            !spec_has_task(old(self).tasks@, uid, id) ==> (r matches Err(e) && spec_not_found(
                e,
                msg_task_not_found(),
            ) && *final(self) == *old(self)),
            spec_has_task(old(self).tasks@, uid, id) ==> exists|i: int|
                {
                    &&& 0 <= i < old(self).tasks@.len()
                    &&& task_matches(#[trigger] old(self).tasks@[i], uid, id)
                    &&& final(self).tasks@ == old(self).tasks@.update(
                        i,
                        spec_apply_task_changeset(old(self).tasks@[i], cs),
                    )
                    &&& r matches Ok(resp)
                    &&& resp.task == spec_apply_task_changeset(old(self).tasks@[i], cs)
                    &&& resp.labels@ == old(self).labels@.filter(
                        label_joined_to(old(self).task_labels@, id),
                    )
                },
            unchanged_but_tasks(*old(self), *final(self)),
            final(self).next_id == old(self).next_id,
    {
        match find_task_idx(&self.tasks, uid, id) {
            Some(i) => {
                let cur = &self.tasks[i];
                let updated = Task {
                    id: cur.id,
                    user_id: cur.user_id,
                    project_id: match cs.project_id {
                        FieldUpdate::Unset => cur.project_id,
                        FieldUpdate::SetNull => None,
                        FieldUpdate::SetValue(v) => Some(v),
                    },
                    title: match cs.title {
                        None => cur.title.clone(),
                        Some(v) => v,
                    },
                    description: match cs.description {
                        FieldUpdate::Unset => dup_opt_string(&cur.description),
                        FieldUpdate::SetNull => None,
                        FieldUpdate::SetValue(v) => Some(v),
                    },
                    status: match cs.status {
                        None => cur.status.clone(),
                        Some(v) => v,
                    },
                    due_date: match cs.due_date {
                        FieldUpdate::Unset => cur.due_date,
                        FieldUpdate::SetNull => None,
                        FieldUpdate::SetValue(v) => Some(v),
                    },
                    order: match cs.order {
                        FieldUpdate::Unset => cur.order,
                        FieldUpdate::SetNull => None,
                        FieldUpdate::SetValue(v) => Some(v),
                    },
                    created_at: cur.created_at,
                    updated_at: cs.updated_at,
                };
                let task = updated.duplicate();
                self.tasks.set(i, updated);
                proof {
                    assert forall|a: int, b: int|
                        0 <= a < b < self.tasks@.len() implies (#[trigger] self.tasks@[a]).id != (
                    #[trigger] self.tasks@[b]).id by {
                        assert(old(self).tasks@[a].id != old(self).tasks@[b].id);
                    }
                }
                let labels = labels_of_task(&self.labels, &self.task_labels, task.id);
                Ok(TaskApiResponse { task, labels })
            },
            None => Err(task_not_found()),
        }
    }

    /// Scoped delete of at most one row; zero rows deleted is not found.
    pub fn delete_task(&mut self, uid: u128, id: u128) -> (r: Result<(), ServiceError>)
        requires
            old(self).wf(),
        ensures
            final(self).wf(),
            !spec_has_task(old(self).tasks@, uid, id) ==> (r matches Err(e) && spec_not_found(
                e,
                msg_task_not_found(),
            ) && *final(self) == *old(self)),
            spec_has_task(old(self).tasks@, uid, id) ==> r is Ok && exists|i: int|
                {
                    &&& 0 <= i < old(self).tasks@.len()
                    &&& task_matches(#[trigger] old(self).tasks@[i], uid, id)
                    &&& final(self).tasks@ == old(self).tasks@.remove(i)
                },
            unchanged_but_tasks(*old(self), *final(self)),
            final(self).next_id == old(self).next_id,
    {
        match find_task_idx(&self.tasks, uid, id) {
            Some(i) => {
                self.tasks.remove(i);
                proof {
                    assert forall|a: int, b: int|
                        0 <= a < b < self.tasks@.len() implies (#[trigger] self.tasks@[a]).id != (
                    #[trigger] self.tasks@[b]).id by {
                        let oa = if a < i { a } else { a + 1 };
                        let ob = if b < i { b } else { b + 1 };
                        assert(old(self).tasks@[oa].id != old(self).tasks@[ob].id);
                    }
                    assert forall|a: int|
                        0 <= a < self.tasks@.len() implies (#[trigger] self.tasks@[a]).id
                        < self.next_id by {
                        let oa = if a < i { a } else { a + 1 };
                        assert(old(self).tasks@[oa].id < old(self).next_id);
                    }
                }
                Ok(())
            },
            None => Err(task_not_found()),
        }
    }
}

} // verus!
