use vstd::prelude::*;
use vstd::pervasive::VecAdditionalExecFns;
use crate::error::ServiceError;
use crate::error::database_failure;
use crate::error::msg_database_failure;
use crate::error::msg_null_for_required_field;
use crate::error::msg_task_not_found;
use crate::error::msg_time_entry_not_found;
use crate::error::spec_bad_request;
use crate::error::spec_database_error;
use crate::error::spec_not_found;
use crate::error::task_not_found;
use crate::error::time_entry_not_found;
use crate::models::FieldUpdate;
use crate::models::ListTimeEntriesQuery;
use crate::models::NewTimeEntry;
use crate::models::TimeEntry;
use crate::models::UpdateTimeEntryChangeset;
use crate::models::UpdateTimeEntryPayload;
use crate::models::build_time_entry_changeset;
use crate::models::dup_field_copy;
use crate::models::spec_apply_time_entry_changeset;
use crate::models::spec_time_entry_changeset;
use crate::store::Store;
use crate::store::spec_timestamp_ok;
use crate::store::unchanged_but_time_entries;
use crate::tasks::find_task_idx;
use crate::tasks::spec_has_task;

verus! {

/// The row belongs to the caller and carries the requested id: the uniform
/// ownership filter of every scoped time-entry operation.
pub open spec fn entry_matches(e: TimeEntry, uid: u128, id: u128) -> bool {
    e.user_id == uid && e.id == id
}

pub open spec fn spec_has_entry(s: Seq<TimeEntry>, uid: u128, id: u128) -> bool {
    exists|j: int| 0 <= j < s.len() && entry_matches(#[trigger] s[j], uid, id)
}

/// The listing filter: owned by the caller, plus the optional equality
/// filter on task and the optional bounds on the start time.
pub open spec fn entry_listed_under(uid: u128, q: ListTimeEntriesQuery) -> spec_fn(
    TimeEntry,
) -> bool {
    |e: TimeEntry|
        e.user_id == uid && (q.task_id matches Some(t) ==> e.task_id == t) && (
        q.date_from matches Some(f) ==> e.start_time >= f) && (q.date_to matches Some(t)
            ==> e.start_time <= t)
}

/// The listing order: most recent start first.
pub open spec fn entry_sort_le(a: TimeEntry, b: TimeEntry) -> bool {
    a.start_time >= b.start_time
}

pub open spec fn sorted_entries(s: Seq<TimeEntry>) -> bool {
    forall|i: int, j: int| 0 <= i <= j < s.len() ==> entry_sort_le(#[trigger] s[i], #[trigger] s[j])
}

/// The stored duration of a new entry: an explicitly supplied value wins;
/// otherwise, when the end time is present and later than the start, the
/// difference in whole seconds is derived; otherwise nothing is stored.
pub open spec fn spec_created_duration(ne: NewTimeEntry) -> Option<i64> {
    match ne.end_time {
        Some(end) => if ne.duration_seconds is None && end > ne.start_time {
            Some((end - ne.start_time) as i64)
        } else {
            ne.duration_seconds
        },
        None => ne.duration_seconds,
    }
}

/// The duration instruction an update resolves to: when the payload sets an
/// end time later than the stored start and supplies no explicit duration
/// value, the difference to the stored start is derived; otherwise the
/// payload's own instruction stands.
pub open spec fn spec_updated_duration(stored_start: i64, p: UpdateTimeEntryPayload) -> FieldUpdate<
    i64,
> {
    match p.end_time {
        FieldUpdate::SetValue(end) => if !(p.duration_seconds is SetValue) && end > stored_start {
            FieldUpdate::SetValue((end - stored_start) as i64)
        } else {
            p.duration_seconds
        },
        _ => p.duration_seconds,
    }
}

/// The changeset an update payload resolves to against a stored row: the
/// payload's fields, with the duration derivation applied.
pub open spec fn spec_effective_entry_changeset(
    cur: TimeEntry,
    p: UpdateTimeEntryPayload,
    now: i64,
) -> UpdateTimeEntryChangeset {
    UpdateTimeEntryChangeset {
        duration_seconds: spec_updated_duration(cur.start_time, p),
        ..spec_time_entry_changeset(p, now)
    }
}

pub(crate) fn find_entry_idx(v: &Vec<TimeEntry>, uid: u128, id: u128) -> (r: Option<usize>)
    ensures
        match r {
            Some(i) => i < v@.len() && entry_matches(v@[i as int], uid, id) && (forall|j: int|
                0 <= j < i ==> !entry_matches(#[trigger] v@[j], uid, id)),
            None => forall|j: int| 0 <= j < v@.len() ==> !entry_matches(#[trigger] v@[j], uid, id),
        },
{
    let mut i: usize = 0;
    while i < v.len()
        invariant
            i <= v@.len(),
            forall|j: int| 0 <= j < i ==> !entry_matches(#[trigger] v@[j], uid, id),
        decreases v@.len() - i,
    {
        if v[i].user_id == uid && v[i].id == id {
            return Some(i);
        }
        i = i + 1;
    }
    None
}

/// Reorders the rows into the listing order without losing or inventing any.
fn sort_entries(v: Vec<TimeEntry>) -> (r: Vec<TimeEntry>)
    ensures
        r@.to_multiset() == v@.to_multiset(),
        sorted_entries(r@),
{
    broadcast use vstd::seq_lib::group_to_multiset_ensures;

    let mut rest = v;
    let mut out: Vec<TimeEntry> = Vec::new();
    while rest.len() > 0
        invariant
            out@.to_multiset().add(rest@.to_multiset()) == v@.to_multiset(),
            sorted_entries(out@),
            forall|i: int, j: int|
                0 <= i < out@.len() && 0 <= j < rest@.len() ==> entry_sort_le(
                    #[trigger] out@[i],
                    #[trigger] rest@[j],
                ),
        decreases rest@.len(),
    {
        let mut m: usize = 0;
        let mut k: usize = 1;
        while k < rest.len()
            invariant
                m < k <= rest@.len(),
                rest@.len() > 0,
                forall|j: int| 0 <= j < k ==> entry_sort_le(rest@[m as int], #[trigger] rest@[j]),
            decreases rest@.len() - k,
        {
            if !(rest[m].start_time >= rest[k].start_time) {
                m = k;
            }
            k = k + 1;
        }
        let ghost old_out = out@;
        let ghost old_rest = rest@;
        let t = rest.remove(m);
        out.push(t);
        proof {
            old_rest.to_multiset_ensures();
            old_out.to_multiset_ensures();
            assert(old_rest.contains(t));
            assert(out@.to_multiset() =~= old_out.to_multiset().insert(t));
            assert(rest@.to_multiset() =~= old_rest.to_multiset().remove(t));
            assert(out@.to_multiset().add(rest@.to_multiset()) =~= v@.to_multiset());
            assert forall|i: int, j: int|
                0 <= i < out@.len() && 0 <= j < rest@.len() implies entry_sort_le(
                #[trigger] out@[i],
                #[trigger] rest@[j],
            ) by {
                let oj = if j < m { j } else { j + 1 };
                assert(rest@[j] == old_rest[oj]);
                if i < out@.len() - 1 {
                    assert(entry_sort_le(old_out[i], old_rest[oj]));
                } else {
                    assert(entry_sort_le(old_rest[m as int], old_rest[oj]));
                }
            }
            assert forall|i: int, j: int|
                0 <= i <= j < out@.len() implies entry_sort_le(
                #[trigger] out@[i],
                #[trigger] out@[j],
            ) by {
                if j < out@.len() - 1 {
                    assert(entry_sort_le(old_out[i], old_out[j]));
                } else if i < j {
                    assert(entry_sort_le(old_out[i], old_rest[m as int]));
                }
            }
        }
    }
    out
}

impl Store {
    /// Inserts a time entry for a task the caller owns, deriving the missing
    /// duration from the start and end times; an explicitly supplied value is
    /// never overwritten.
    pub fn create_time_entry(&mut self, ne: NewTimeEntry, now: i64) -> (r: Result<
        TimeEntry,
        ServiceError,
    >)
        requires
            old(self).wf(),
            spec_timestamp_ok(ne.start_time),
            ne.end_time matches Some(t) ==> spec_timestamp_ok(t),
        ensures
            final(self).wf(),
            !spec_has_task(old(self).tasks@, ne.user_id, ne.task_id) ==> (r matches Err(e)
                && spec_not_found(e, msg_task_not_found()) && *final(self) == *old(self)),
            spec_has_task(old(self).tasks@, ne.user_id, ne.task_id) && old(self).next_id
                == u128::MAX ==> (r matches Err(e) && spec_database_error(e, msg_database_failure())
                && *final(self) == *old(self)),
            spec_has_task(old(self).tasks@, ne.user_id, ne.task_id) && old(self).next_id
                < u128::MAX ==> {
                &&& r matches Ok(e)
                &&& final(self).time_entries@ == old(self).time_entries@.push(e)
                &&& e.id == old(self).next_id
                &&& e.user_id == ne.user_id
                &&& e.task_id == ne.task_id
                &&& e.start_time == ne.start_time
                &&& e.end_time == ne.end_time
                &&& e.duration_seconds == spec_created_duration(ne)
                &&& e.is_pomodoro_session == (ne.is_pomodoro_session matches Some(b) && b)
                &&& e.created_at == now
                &&& e.updated_at == now
                &&& final(self).next_id == old(self).next_id + 1
                &&& unchanged_but_time_entries(*old(self), *final(self))
            },
    {
        if find_task_idx(&self.tasks, ne.user_id, ne.task_id).is_none() {
            return Err(task_not_found());
        }
        if self.next_id == u128::MAX {
            return Err(database_failure());
        }
        let duration_seconds: Option<i64> = match ne.end_time {
            Some(end) => {
                if ne.duration_seconds.is_none() && end > ne.start_time {
                    Some(end - ne.start_time)
                } else {
                    ne.duration_seconds
                }
            },
            None => ne.duration_seconds,
        };
        let id = self.next_id;
        let row = TimeEntry {
            id,
            user_id: ne.user_id,
            task_id: ne.task_id,
            start_time: ne.start_time,
            end_time: ne.end_time,
            duration_seconds,
            is_pomodoro_session: match ne.is_pomodoro_session {
                Some(b) => b,
                None => false,
            },
            created_at: now,
            updated_at: now,
        };
        let out = row.duplicate();
        self.time_entries.push(row);
        self.next_id = id + 1;
        Ok(out)
    }

    /// Scoped single-row lookup: a missing id and a foreign-owned id are both
    /// not found.
    pub fn get_time_entry(&self, uid: u128, id: u128) -> (r: Result<TimeEntry, ServiceError>)
        ensures
            r is Ok <==> spec_has_entry(self.time_entries@, uid, id),
            r matches Ok(e) ==> entry_matches(e, uid, id) && self.time_entries@.contains(e),
            r matches Err(e) ==> spec_not_found(e, msg_time_entry_not_found()),
    {
        match find_entry_idx(&self.time_entries, uid, id) {
            Some(i) => Ok(self.time_entries[i].duplicate()),
            None => Err(time_entry_not_found()),
        }
    }

    /// The caller's time entries under the optional task and start-time
    /// filters, most recent start first.
    pub fn list_time_entries(&self, uid: u128, q: &ListTimeEntriesQuery) -> (r: Vec<TimeEntry>)
        ensures
            r@.to_multiset() == self.time_entries@.filter(
                entry_listed_under(uid, *q),
            ).to_multiset(),
            sorted_entries(r@),
    {
        let mut picked: Vec<TimeEntry> = Vec::new();
        let mut i: usize = 0;
        while i < self.time_entries.len()
            invariant
                i <= self.time_entries@.len(),
                picked@ == self.time_entries@.take(i as int).filter(entry_listed_under(uid, *q)),
            decreases self.time_entries@.len() - i,
        {
            proof {
                self.time_entries@.lemma_take_succ_push(i as int);
                self.time_entries@.take(i as int).lemma_filter_push(
                    self.time_entries@[i as int],
                    entry_listed_under(uid, *q),
                );
                assert(self.time_entries@.take(i as int + 1) == self.time_entries@.take(
                    i as int,
                ).push(self.time_entries@[i as int]));
            }
            let e = &self.time_entries[i];
            let task_ok = match q.task_id {
                Some(t) => e.task_id == t,
                None => true,
            };
            let from_ok = match q.date_from {
                Some(f) => e.start_time >= f,
                None => true,
            };
            let to_ok = match q.date_to {
                Some(t) => e.start_time <= t,
                None => true,
            };
            if e.user_id == uid && task_ok && from_ok && to_ok {
                picked.push(e.duplicate());
            }
            i = i + 1;
        }
        proof {
            assert(self.time_entries@.take(self.time_entries@.len() as int)
                =~= self.time_entries@);
        }
        sort_entries(picked)
    }

    /// Applies only the payload-given fields to the caller's row, deriving a
    /// missing duration from the newly set end time against the stored start
    /// time; zero matching rows surface as not found. An explicit null for a
    /// non-nullable column is rejected after the row is found.
    pub fn update_time_entry(
        &mut self,
        uid: u128,
        id: u128,
        p: &UpdateTimeEntryPayload,
        now: i64,
    ) -> (r: Result<TimeEntry, ServiceError>)
        requires
            old(self).wf(),
            p.start_time matches FieldUpdate::SetValue(t) ==> spec_timestamp_ok(t),
            p.end_time matches FieldUpdate::SetValue(t) ==> spec_timestamp_ok(t),
        ensures
            final(self).wf(),
            !spec_has_entry(old(self).time_entries@, uid, id) ==> (r matches Err(e)
                && spec_not_found(e, msg_time_entry_not_found()) && *final(self) == *old(self)),
            spec_has_entry(old(self).time_entries@, uid, id) && (p.start_time is SetNull
                || p.is_pomodoro_session is SetNull) ==> (r matches Err(e) && spec_bad_request(
                e,
                msg_null_for_required_field(),
            ) && *final(self) == *old(self)),
            spec_has_entry(old(self).time_entries@, uid, id) && !(p.start_time is SetNull
                || p.is_pomodoro_session is SetNull) ==> exists|i: int|
                {
                    &&& 0 <= i < old(self).time_entries@.len()
                    &&& entry_matches(#[trigger] old(self).time_entries@[i], uid, id)
                    &&& final(self).time_entries@ == old(self).time_entries@.update(
                        i,
                        spec_apply_time_entry_changeset(
                            old(self).time_entries@[i],
                            spec_effective_entry_changeset(old(self).time_entries@[i], *p, now),
                        ),
                    )
                    &&& r == Ok::<_, ServiceError>(
                        spec_apply_time_entry_changeset(
                            old(self).time_entries@[i],
                            spec_effective_entry_changeset(old(self).time_entries@[i], *p, now),
                        ),
                    )
                },
            unchanged_but_time_entries(*old(self), *final(self)),
            final(self).next_id == old(self).next_id,
    {
        match find_entry_idx(&self.time_entries, uid, id) {
            Some(i) => {
                let cs = match build_time_entry_changeset(p, now) {
                    Ok(cs) => cs,
                    Err(e) => {
                        return Err(e);
                    },
                };
                let cur = &self.time_entries[i];
                let duration_seconds: FieldUpdate<i64> = match p.end_time {
                    FieldUpdate::SetValue(end) => {
                        let explicit = match p.duration_seconds {
                            FieldUpdate::SetValue(_) => true,
                            _ => false,
                        };
                        if !explicit && end > cur.start_time {
                            FieldUpdate::SetValue(end - cur.start_time)
                        } else {
                            dup_field_copy(&p.duration_seconds)
                        }
                    },
                    _ => dup_field_copy(&p.duration_seconds),
                };
                let updated = TimeEntry {
                    id: cur.id,
                    user_id: cur.user_id,
                    task_id: cur.task_id,
                    start_time: match cs.start_time {
                        None => cur.start_time,
                        Some(v) => v,
                    },
                    end_time: match cs.end_time {
                        FieldUpdate::Unset => cur.end_time,
                        FieldUpdate::SetNull => None,
                        FieldUpdate::SetValue(v) => Some(v),
                    },
                    duration_seconds: match duration_seconds {
                        FieldUpdate::Unset => cur.duration_seconds,
                        FieldUpdate::SetNull => None,
                        FieldUpdate::SetValue(v) => Some(v),
                    },
                    is_pomodoro_session: match cs.is_pomodoro_session {
                        None => cur.is_pomodoro_session,
                        Some(v) => v,
                    },
                    created_at: cur.created_at,
                    updated_at: cs.updated_at,
                };
                let out = updated.duplicate();
                self.time_entries.set(i, updated);
                proof {
                    assert forall|a: int, b: int|
                        0 <= a < b < self.time_entries@.len() implies (
                    #[trigger] self.time_entries@[a]).id != (
                    #[trigger] self.time_entries@[b]).id by {
                        assert(old(self).time_entries@[a].id != old(self).time_entries@[b].id);
                    }
                }
                Ok(out)
            },
            None => Err(time_entry_not_found()),
        }
    }

    /// Scoped delete of at most one row; zero rows deleted is not found.
    pub fn delete_time_entry(&mut self, uid: u128, id: u128) -> (r: Result<(), ServiceError>)
        requires
            old(self).wf(),
        ensures
            final(self).wf(),
            !spec_has_entry(old(self).time_entries@, uid, id) ==> (r matches Err(e)
                && spec_not_found(e, msg_time_entry_not_found()) && *final(self) == *old(self)),
            spec_has_entry(old(self).time_entries@, uid, id) ==> r is Ok && exists|i: int|
                {
                    &&& 0 <= i < old(self).time_entries@.len()
                    &&& entry_matches(#[trigger] old(self).time_entries@[i], uid, id)
                    &&& final(self).time_entries@ == old(self).time_entries@.remove(i)
                },
            unchanged_but_time_entries(*old(self), *final(self)),
            final(self).next_id == old(self).next_id,
    {
        match find_entry_idx(&self.time_entries, uid, id) {
            Some(i) => {
                self.time_entries.remove(i);
                proof {
                    assert forall|a: int, b: int|
                        0 <= a < b < self.time_entries@.len() implies (
                    #[trigger] self.time_entries@[a]).id != (
                    #[trigger] self.time_entries@[b]).id by {
                        let oa = if a < i { a } else { a + 1 };
                        let ob = if b < i { b } else { b + 1 };
                        assert(old(self).time_entries@[oa].id != old(self).time_entries@[ob].id);
                    }
                    assert forall|a: int|
                        0 <= a < self.time_entries@.len() implies (
                    #[trigger] self.time_entries@[a]).id < self.next_id by {
                        let oa = if a < i { a } else { a + 1 };
                        assert(old(self).time_entries@[oa].id < old(self).next_id);
                    }
                    assert forall|a: int|
                        0 <= a < self.time_entries@.len() implies {
                        let e = #[trigger] self.time_entries@[a];
                        &&& spec_timestamp_ok(e.start_time)
                        &&& (e.end_time matches Some(t) ==> spec_timestamp_ok(t))
                    } by {
                        let oa = if a < i { a } else { a + 1 };
                        assert(self.time_entries@[a] == old(self).time_entries@[oa]);
                    }
                }
                Ok(())
            },
            None => Err(time_entry_not_found()),
        }
    }
}

} // verus!
