use vstd::prelude::*;
use crate::error::ServiceError;
use crate::error::association_not_found;
use crate::error::database_failure;
use crate::error::label_not_found;
use crate::error::msg_association_not_found;
use crate::error::msg_database_failure;
use crate::error::msg_label_not_found;
use crate::error::msg_task_not_found;
use crate::error::spec_database_error;
use crate::error::spec_not_found;
use crate::error::task_not_found;
use crate::labels::find_label_idx;
use crate::labels::spec_has_label;
use crate::models::Label;
use crate::models::TaskLabel;
use crate::store::Store;
use crate::store::spec_same_pair;
use crate::store::unchanged_but_task_labels;
use crate::tasks::find_task_idx;
use crate::tasks::label_joined_to;
use crate::tasks::labels_of_task;
use crate::tasks::spec_has_task;
use crate::tasks::spec_pair_present;

verus! {

fn find_pair_idx(tls: &Vec<TaskLabel>, tid: u128, lid: u128) -> (r: Option<usize>)
    ensures
        match r {
            Some(i) => i < tls@.len() && tls@[i as int].task_id == tid && tls@[i as int].label_id
                == lid,
            None => !spec_pair_present(tls@, tid, lid),
        },
{
    let mut i: usize = 0;
    while i < tls.len()
        invariant
            i <= tls@.len(),
            forall|k: int|
                0 <= k < i ==> !((#[trigger] tls@[k]).task_id == tid && tls@[k].label_id == lid),
        decreases tls@.len() - i,
    {
        if tls[i].task_id == tid && tls[i].label_id == lid {
            return Some(i);
        }
        i = i + 1;
    }
    None
}

impl Store {
    /// Attaches an existing label to an existing task. The task's ownership
    /// is checked first, then the label's; each failure is its own not-found.
    /// Attaching a label twice violates the join table's composite key and
    /// fails as a constraint violation.
    pub fn add_label_to_task(&mut self, uid: u128, task_id: u128, label_id: u128) -> (r: Result<
        (),
        ServiceError,
    >)
        requires
            old(self).wf(),
        ensures
            final(self).wf(),
            !spec_has_task(old(self).tasks@, uid, task_id) ==> (r matches Err(e) && spec_not_found(
                e,
                msg_task_not_found(),
            ) && *final(self) == *old(self)),
            spec_has_task(old(self).tasks@, uid, task_id) && !spec_has_label(
                old(self).labels@,
                uid,
                label_id,
            ) ==> (r matches Err(e) && spec_not_found(e, msg_label_not_found()) && *final(self)
                == *old(self)),
            spec_has_task(old(self).tasks@, uid, task_id) && spec_has_label(
                old(self).labels@,
                uid,
                label_id,
            ) && spec_pair_present(old(self).task_labels@, task_id, label_id) ==> (r matches Err(e)
                && spec_database_error(e, msg_database_failure()) && *final(self) == *old(self)),
            spec_has_task(old(self).tasks@, uid, task_id) && spec_has_label(
                old(self).labels@,
                uid,
                label_id,
            ) && !spec_pair_present(old(self).task_labels@, task_id, label_id) ==> {
                &&& r is Ok
                &&& final(self).task_labels@ == old(self).task_labels@.push(
                    TaskLabel { task_id, label_id },
                )
                &&& unchanged_but_task_labels(*old(self), *final(self))
                &&& final(self).next_id == old(self).next_id
            },
    {
        if find_task_idx(&self.tasks, uid, task_id).is_none() {
            return Err(task_not_found());
        }
        if find_label_idx(&self.labels, uid, label_id).is_none() {
            return Err(label_not_found());
        }
        if find_pair_idx(&self.task_labels, task_id, label_id).is_some() {
            return Err(database_failure());
        }
        self.task_labels.push(TaskLabel { task_id, label_id });
        proof {
            assert forall|a: int, b: int|
                0 <= a < b < self.task_labels@.len() implies !spec_same_pair(
                #[trigger] self.task_labels@[a],
                #[trigger] self.task_labels@[b],
            ) by {
                if b < self.task_labels@.len() - 1 {
                    assert(!spec_same_pair(old(self).task_labels@[a], old(self).task_labels@[b]));
                }
            }
        }
        Ok(())
    }

    /// The labels attached to the caller's task, in label-table order.
    pub fn list_labels_for_task(&self, uid: u128, task_id: u128) -> (r: Result<
        Vec<Label>,
        ServiceError,
    >)
        ensures
            r is Ok <==> spec_has_task(self.tasks@, uid, task_id),
            r matches Ok(v) ==> v@ == self.labels@.filter(
                label_joined_to(self.task_labels@, task_id),
            ),
            r matches Err(e) ==> spec_not_found(e, msg_task_not_found()),
    {
        if find_task_idx(&self.tasks, uid, task_id).is_none() {
            return Err(task_not_found());
        }
        Ok(labels_of_task(&self.labels, &self.task_labels, task_id))
    }

    /// Detaches a label from the caller's task. Only the task's ownership
    /// gates the operation; the label's is not re-checked. A join row that
    /// is not there is not found.
    pub fn remove_label_from_task(&mut self, uid: u128, task_id: u128, label_id: u128) -> (r:
        Result<(), ServiceError>)
        requires
            old(self).wf(),
        ensures
            final(self).wf(),
            !spec_has_task(old(self).tasks@, uid, task_id) ==> (r matches Err(e) && spec_not_found(
                e,
                msg_task_not_found(),
            ) && *final(self) == *old(self)),
            spec_has_task(old(self).tasks@, uid, task_id) && !spec_pair_present(
                old(self).task_labels@,
                task_id,
                label_id,
            ) ==> (r matches Err(e) && spec_not_found(e, msg_association_not_found())
                && *final(self) == *old(self)),
            spec_has_task(old(self).tasks@, uid, task_id) && spec_pair_present(
                old(self).task_labels@,
                task_id,
                label_id,
            ) ==> r is Ok && exists|k: int|
                {
                    &&& 0 <= k < old(self).task_labels@.len()
                    &&& (#[trigger] old(self).task_labels@[k]).task_id == task_id
                    &&& old(self).task_labels@[k].label_id == label_id
                    &&& final(self).task_labels@ == old(self).task_labels@.remove(k)
                },
            unchanged_but_task_labels(*old(self), *final(self)),
            final(self).next_id == old(self).next_id,
    {
        if find_task_idx(&self.tasks, uid, task_id).is_none() {
            return Err(task_not_found());
        }
        match find_pair_idx(&self.task_labels, task_id, label_id) {
            Some(k) => {
                self.task_labels.remove(k);
                proof {
                    assert forall|a: int, b: int|
                        0 <= a < b < self.task_labels@.len() implies !spec_same_pair(
                        #[trigger] self.task_labels@[a],
                        #[trigger] self.task_labels@[b],
                    ) by {
                        let oa = if a < k { a } else { a + 1 };
                        let ob = if b < k { b } else { b + 1 };
                        assert(!spec_same_pair(
                            old(self).task_labels@[oa],
                            old(self).task_labels@[ob],
                        ));
                    }
                }
                Ok(())
            },
            None => Err(association_not_found()),
        }
    }
}

} // verus!
