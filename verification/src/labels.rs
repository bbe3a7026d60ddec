use vstd::prelude::*;
use vstd::pervasive::VecAdditionalExecFns;
use crate::error::ServiceError;
use crate::error::database_failure;
use crate::error::msg_database_failure;
use crate::error::msg_label_not_found;
use crate::error::label_not_found;
use crate::error::spec_database_error;
use crate::error::spec_not_found;
use crate::models::NewLabel;
use crate::models::Label;
use crate::models::UpdateLabelChangeset;
use crate::models::FieldUpdate;
use crate::models::dup_opt_string;
use crate::models::spec_apply_label_changeset;
use crate::store::Store;
use crate::store::unchanged_but_labels;

verus! {

/// The row belongs to the caller and carries the requested id: the uniform
/// ownership filter of every scoped label operation.
pub open spec fn label_matches(p: Label, uid: u128, id: u128) -> bool {
    p.user_id == uid && p.id == id
}

pub open spec fn spec_has_label(s: Seq<Label>, uid: u128, id: u128) -> bool {
    exists|j: int| 0 <= j < s.len() && label_matches(#[trigger] s[j], uid, id)
}

/// The ownership filter of a label listing.
pub open spec fn label_owned_by(uid: u128) -> spec_fn(Label) -> bool {
    |p: Label| p.user_id == uid
}

/// The row a successful create stores and returns.
pub open spec fn spec_new_label(id: u128, np: NewLabel, now: i64) -> Label {
    Label {
        id,
        user_id: np.user_id,
        name: np.name,
        color: np.color,
        created_at: now,
        updated_at: now,
    }
}

pub(crate) fn find_label_idx(v: &Vec<Label>, uid: u128, id: u128) -> (r: Option<usize>)
    ensures
        match r {
            Some(i) => i < v@.len() && label_matches(v@[i as int], uid, id) && (forall|j: int|
                0 <= j < i ==> !label_matches(#[trigger] v@[j], uid, id)),
            None => forall|j: int| 0 <= j < v@.len() ==> !label_matches(#[trigger] v@[j], uid, id),
        },
{
    let mut i: usize = 0;
    while i < v.len()
        invariant
            i <= v@.len(),
            forall|j: int| 0 <= j < i ==> !label_matches(#[trigger] v@[j], uid, id),
        decreases v@.len() - i,
    {
        if v[i].user_id == uid && v[i].id == id {
            return Some(i);
        }
        i = i + 1;
    }
    None
}

impl Store {
    /// Inserts a label row with a server-generated id and timestamps.
    pub fn create_label(&mut self, np: NewLabel, now: i64) -> (r: Result<Label, ServiceError>)
        requires
            old(self).wf(),
        ensures
            final(self).wf(),
            old(self).next_id == u128::MAX ==> (r matches Err(e) && spec_database_error(
                e,
                msg_database_failure(),
            ) && *final(self) == *old(self)),
            old(self).next_id < u128::MAX ==> {
                &&& r == Ok::<_, ServiceError>(spec_new_label(old(self).next_id, np, now))
                &&& final(self).labels@ == old(self).labels@.push(
                    spec_new_label(old(self).next_id, np, now),
                )
                &&& final(self).next_id == old(self).next_id + 1
                &&& unchanged_but_labels(*old(self), *final(self))
            },
    {
        if self.next_id == u128::MAX {
            return Err(database_failure());
        }
        let id = self.next_id;
        let row = Label {
            id,
            user_id: np.user_id,
            name: np.name,
            color: np.color,
            created_at: now,
            updated_at: now,
        };
        let out = row.duplicate();
        self.labels.push(row);
        self.next_id = id + 1;
        Ok(out)
    }

    /// Scoped single-row lookup: a missing id and a foreign-owned id are both
    /// not found.
    pub fn get_label(&self, uid: u128, id: u128) -> (r: Result<Label, ServiceError>)
        ensures
            r is Ok <==> spec_has_label(self.labels@, uid, id),
            r matches Ok(p) ==> label_matches(p, uid, id) && self.labels@.contains(p),
            r matches Err(e) ==> spec_not_found(e, msg_label_not_found()),
    {
        match find_label_idx(&self.labels, uid, id) {
            Some(i) => Ok(self.labels[i].duplicate()),
            None => Err(label_not_found()),
        }
    }

    /// Every label of the caller, in insertion order.
    pub fn list_labels(&self, uid: u128) -> (r: Vec<Label>)
        ensures
            r@ == self.labels@.filter(label_owned_by(uid)),
    {
        let mut out: Vec<Label> = Vec::new();
        let mut i: usize = 0;
        while i < self.labels.len()
            invariant
                i <= self.labels@.len(),
                out@ == self.labels@.take(i as int).filter(label_owned_by(uid)),
            decreases self.labels@.len() - i,
        {
            proof {
                self.labels@.lemma_take_succ_push(i as int);
                self.labels@.take(i as int).lemma_filter_push(self.labels@[i as int], label_owned_by(uid));
                assert(self.labels@.take(i as int + 1) == self.labels@.take(i as int).push(
                    self.labels@[i as int],
                ));
                assert(self.labels@.take(i as int + 1).filter(label_owned_by(uid)) == (if label_owned_by(uid)(
                    self.labels@[i as int],
                ) {
                    self.labels@.take(i as int).filter(label_owned_by(uid)).push(self.labels@[i as int])
                } else {
                    self.labels@.take(i as int).filter(label_owned_by(uid))
                }));
            }
            if self.labels[i].user_id == uid {
                out.push(self.labels[i].duplicate());
            }
            i = i + 1;
        }
        proof {
            assert(self.labels@.take(self.labels@.len() as int) =~= self.labels@);
        }
        out
    }

    /// Applies only the changeset-given fields to the caller's row; zero
    /// matching rows surface as not found, never as a silent no-op.
    pub fn update_label(&mut self, uid: u128, id: u128, cs: UpdateLabelChangeset) -> (r: Result<
        Label,
        ServiceError,
    >)
        requires
            old(self).wf(),
        ensures
            final(self).wf(),
            !spec_has_label(old(self).labels@, uid, id) ==> (r matches Err(e) && spec_not_found(
                e,
                msg_label_not_found(),
            ) && *final(self) == *old(self)),
            spec_has_label(old(self).labels@, uid, id) ==> exists|i: int|
                {
                    &&& 0 <= i < old(self).labels@.len()
                    &&& label_matches(#[trigger] old(self).labels@[i], uid, id)
                    &&& final(self).labels@ == old(self).labels@.update(
                        i,
                        spec_apply_label_changeset(old(self).labels@[i], cs),
                    )
                    &&& r == Ok::<_, ServiceError>(
                        spec_apply_label_changeset(old(self).labels@[i], cs),
                    )
                },
            unchanged_but_labels(*old(self), *final(self)),
            final(self).next_id == old(self).next_id,
    {
        match find_label_idx(&self.labels, uid, id) {
            Some(i) => {
                let cur = &self.labels[i];
                let updated = Label {
                    id: cur.id,
                    user_id: cur.user_id,
                    name: match cs.name {
                        None => cur.name.clone(),
                        Some(v) => v,
                    },
                    color: match cs.color {
                        FieldUpdate::Unset => dup_opt_string(
                            &cur.color,
                        ),
                        FieldUpdate::SetNull => None,
                        FieldUpdate::SetValue(v) => Some(v),
                    },
                    created_at: cur.created_at,
                    updated_at: cs.updated_at,
                };
                let out = updated.duplicate();
                self.labels.set(i, updated);
                proof {
                    assert forall|a: int, b: int|
                        0 <= a < b < self.labels@.len() implies (#[trigger] self.labels@[a]).id
                        != (#[trigger] self.labels@[b]).id by {
                        assert(old(self).labels@[a].id != old(self).labels@[b].id);
                    }
                }
                Ok(out)
            },
            None => Err(label_not_found()),
        }
    }

    /// Scoped delete of at most one row; zero rows deleted is not found.
    pub fn delete_label(&mut self, uid: u128, id: u128) -> (r: Result<(), ServiceError>)
        requires
            old(self).wf(),
        ensures
            final(self).wf(),
            !spec_has_label(old(self).labels@, uid, id) ==> (r matches Err(e) && spec_not_found(
                e,
                msg_label_not_found(),
            ) && *final(self) == *old(self)),
            spec_has_label(old(self).labels@, uid, id) ==> r is Ok && exists|i: int|
                {
                    &&& 0 <= i < old(self).labels@.len()
                    &&& label_matches(#[trigger] old(self).labels@[i], uid, id)
                    &&& final(self).labels@ == old(self).labels@.remove(i)
                },
            unchanged_but_labels(*old(self), *final(self)),
            final(self).next_id == old(self).next_id,
    {
        match find_label_idx(&self.labels, uid, id) {
            Some(i) => {
                self.labels.remove(i);
                proof {
                    assert forall|a: int, b: int|
                        0 <= a < b < self.labels@.len() implies (#[trigger] self.labels@[a]).id
                        != (#[trigger] self.labels@[b]).id by {
                        let oa = if a < i { a } else { a + 1 };
                        let ob = if b < i { b } else { b + 1 };
                        assert(old(self).labels@[oa].id != old(self).labels@[ob].id);
                    }
                    assert forall|a: int|
                        0 <= a < self.labels@.len() implies (#[trigger] self.labels@[a]).id
                        < self.next_id by {
                        let oa = if a < i { a } else { a + 1 };
                        assert(old(self).labels@[oa].id < old(self).next_id);
                    }
                }
                Ok(())
            },
            None => Err(label_not_found()),
        }
    }
}


} // verus!
