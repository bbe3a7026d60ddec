use vstd::prelude::*;
use vstd::pervasive::VecAdditionalExecFns;
use crate::error::ServiceError;
use crate::error::database_failure;
use crate::error::msg_database_failure;
use crate::error::msg_project_not_found;
use crate::error::project_not_found;
use crate::error::spec_database_error;
use crate::error::spec_not_found;
use crate::models::NewProject;
use crate::models::Project;
use crate::models::UpdateProjectChangeset;
use crate::models::FieldUpdate;
use crate::models::dup_opt_string;
use crate::models::spec_apply_project_changeset;
use crate::store::Store;
use crate::store::unchanged_but_projects;

verus! {

/// The row belongs to the caller and carries the requested id: the uniform
/// ownership filter of every scoped project operation.
pub open spec fn project_matches(p: Project, uid: u128, id: u128) -> bool {
    p.user_id == uid && p.id == id
}

pub open spec fn spec_has_project(s: Seq<Project>, uid: u128, id: u128) -> bool {
    exists|j: int| 0 <= j < s.len() && project_matches(#[trigger] s[j], uid, id)
}

/// The ownership filter of a project listing.
pub open spec fn project_owned_by(uid: u128) -> spec_fn(Project) -> bool {
    |p: Project| p.user_id == uid
}

/// The row a successful create stores and returns.
pub open spec fn spec_new_project(id: u128, np: NewProject, now: i64) -> Project {
    Project {
        id,
        user_id: np.user_id,
        name: np.name,
        color: np.color,
        created_at: now,
        updated_at: now,
    }
}

pub(crate) fn find_project_idx(v: &Vec<Project>, uid: u128, id: u128) -> (r: Option<usize>)
    ensures
        match r {
            Some(i) => i < v@.len() && project_matches(v@[i as int], uid, id) && (forall|j: int|
                0 <= j < i ==> !project_matches(#[trigger] v@[j], uid, id)),
            None => forall|j: int| 0 <= j < v@.len() ==> !project_matches(#[trigger] v@[j], uid, id),
        },
{
    let mut i: usize = 0;
    while i < v.len()
        invariant
            i <= v@.len(),
            forall|j: int| 0 <= j < i ==> !project_matches(#[trigger] v@[j], uid, id),
        decreases v@.len() - i,
    {
        if v[i].user_id == uid && v[i].id == id {
            return Some(i);
        }
        i = i + 1;
    }
    None
}

impl Store {
    /// Inserts a project row with a server-generated id and timestamps.
    pub fn create_project(&mut self, np: NewProject, now: i64) -> (r: Result<Project, ServiceError>)
        requires
            old(self).wf(),
        ensures
            final(self).wf(),
            old(self).next_id == u128::MAX ==> (r matches Err(e) && spec_database_error(
                e,
                msg_database_failure(),
            ) && *final(self) == *old(self)),
            old(self).next_id < u128::MAX ==> {
                &&& r == Ok::<_, ServiceError>(spec_new_project(old(self).next_id, np, now))
                &&& final(self).projects@ == old(self).projects@.push(
                    spec_new_project(old(self).next_id, np, now),
                )
                &&& final(self).next_id == old(self).next_id + 1
                &&& unchanged_but_projects(*old(self), *final(self))
            },
    {
        if self.next_id == u128::MAX {
            return Err(database_failure());
        }
        let id = self.next_id;
        let row = Project {
            id,
            user_id: np.user_id,
            name: np.name,
            color: np.color,
            created_at: now,
            updated_at: now,
        };
        let out = row.duplicate();
        self.projects.push(row);
        self.next_id = id + 1;
        Ok(out)
    }

    /// Scoped single-row lookup: a missing id and a foreign-owned id are both
    /// not found.
    pub fn get_project(&self, uid: u128, id: u128) -> (r: Result<Project, ServiceError>)
        ensures
            r is Ok <==> spec_has_project(self.projects@, uid, id),
            r matches Ok(p) ==> project_matches(p, uid, id) && self.projects@.contains(p),
            r matches Err(e) ==> spec_not_found(e, msg_project_not_found()),
    {
        match find_project_idx(&self.projects, uid, id) {
            Some(i) => Ok(self.projects[i].duplicate()),
            None => Err(project_not_found()),
        }
    }

    /// Every project of the caller, in insertion order.
    pub fn list_projects(&self, uid: u128) -> (r: Vec<Project>)
        ensures
            r@ == self.projects@.filter(project_owned_by(uid)),
    {
        let mut out: Vec<Project> = Vec::new();
        let mut i: usize = 0;
        while i < self.projects.len()
            invariant
                i <= self.projects@.len(),
                out@ == self.projects@.take(i as int).filter(project_owned_by(uid)),
            decreases self.projects@.len() - i,
        {
            proof {
                self.projects@.lemma_take_succ_push(i as int);
                self.projects@.take(i as int).lemma_filter_push(self.projects@[i as int], project_owned_by(uid));
                assert(self.projects@.take(i as int + 1) == self.projects@.take(i as int).push(
                    self.projects@[i as int],
                ));
                assert(self.projects@.take(i as int + 1).filter(project_owned_by(uid)) == (if project_owned_by(uid)(
                    self.projects@[i as int],
                ) {
                    self.projects@.take(i as int).filter(project_owned_by(uid)).push(self.projects@[i as int])
                } else {
                    self.projects@.take(i as int).filter(project_owned_by(uid))
                }));
            }
            if self.projects[i].user_id == uid {
                out.push(self.projects[i].duplicate());
            }
            i = i + 1;
        }
        proof {
            assert(self.projects@.take(self.projects@.len() as int) =~= self.projects@);
        }
        out
    }

    /// Applies only the changeset-given fields to the caller's row; zero
    /// matching rows surface as not found, never as a silent no-op.
    pub fn update_project(&mut self, uid: u128, id: u128, cs: UpdateProjectChangeset) -> (r: Result<
        Project,
        ServiceError,
    >)
        requires
            old(self).wf(),
        ensures
            final(self).wf(),
            !spec_has_project(old(self).projects@, uid, id) ==> (r matches Err(e) && spec_not_found(
                e,
                msg_project_not_found(),
            ) && *final(self) == *old(self)),
            spec_has_project(old(self).projects@, uid, id) ==> exists|i: int|
                {
                    &&& 0 <= i < old(self).projects@.len()
                    &&& project_matches(#[trigger] old(self).projects@[i], uid, id)
                    &&& final(self).projects@ == old(self).projects@.update(
                        i,
                        spec_apply_project_changeset(old(self).projects@[i], cs),
                    )
                    &&& r == Ok::<_, ServiceError>(
                        spec_apply_project_changeset(old(self).projects@[i], cs),
                    )
                },
            unchanged_but_projects(*old(self), *final(self)),
            final(self).next_id == old(self).next_id,
    {
        match find_project_idx(&self.projects, uid, id) {
            Some(i) => {
                let cur = &self.projects[i];
                let updated = Project {
                    id: cur.id,
                    user_id: cur.user_id,
                    name: match cs.name {
                        None => cur.name.clone(),
                        Some(v) => v,
                    },
                    color: match cs.color {
                        FieldUpdate::Unset => dup_opt_string(
                            &cur.color,
                        ),
                        FieldUpdate::SetNull => None,
                        FieldUpdate::SetValue(v) => Some(v),
                    },
                    created_at: cur.created_at,
                    updated_at: cs.updated_at,
                };
                let out = updated.duplicate();
                self.projects.set(i, updated);
                proof {
                    assert forall|a: int, b: int|
                        0 <= a < b < self.projects@.len() implies (#[trigger] self.projects@[a]).id
                        != (#[trigger] self.projects@[b]).id by {
                        assert(old(self).projects@[a].id != old(self).projects@[b].id);
                    }
                }
                Ok(out)
            },
            None => Err(project_not_found()),
        }
    }

    /// Scoped delete of at most one row; zero rows deleted is not found.
    pub fn delete_project(&mut self, uid: u128, id: u128) -> (r: Result<(), ServiceError>)
        requires
            old(self).wf(),
        ensures
            final(self).wf(),
            !spec_has_project(old(self).projects@, uid, id) ==> (r matches Err(e) && spec_not_found(
                e,
                msg_project_not_found(),
            ) && *final(self) == *old(self)),
            spec_has_project(old(self).projects@, uid, id) ==> r is Ok && exists|i: int|
                {
                    &&& 0 <= i < old(self).projects@.len()
                    &&& project_matches(#[trigger] old(self).projects@[i], uid, id)
                    &&& final(self).projects@ == old(self).projects@.remove(i)
                },
            unchanged_but_projects(*old(self), *final(self)),
            final(self).next_id == old(self).next_id,
    {
        match find_project_idx(&self.projects, uid, id) {
            Some(i) => {
                self.projects.remove(i);
                proof {
                    assert forall|a: int, b: int|
                        0 <= a < b < self.projects@.len() implies (#[trigger] self.projects@[a]).id
                        != (#[trigger] self.projects@[b]).id by {
                        let oa = if a < i { a } else { a + 1 };
                        let ob = if b < i { b } else { b + 1 };
                        assert(old(self).projects@[oa].id != old(self).projects@[ob].id);
                    }
                    assert forall|a: int|
                        0 <= a < self.projects@.len() implies (#[trigger] self.projects@[a]).id
                        < self.next_id by {
                        let oa = if a < i { a } else { a + 1 };
                        assert(old(self).projects@[oa].id < old(self).next_id);
                    }
                }
                Ok(())
            },
            None => Err(project_not_found()),
        }
    }
}


} // verus!
