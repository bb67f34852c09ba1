//! Project registration, ownership and status: the project collaborator
//! that order-like modules query for validity and ownership.
//!
//! A project is a status-flagged record owned by one account.  Only the
//! owner may delete, reassign, close, reopen or restate it, and a deleted
//! project can never be registered again.  The validity queries other
//! modules rely on are pinned down exactly: a project is valid while its
//! status is open or reopened.

use std::collections::HashMap;

use vstd::prelude::*;

use crate::store::{index_appended, index_list, index_removed, keep_all_but, push_index, remove_from_index};
use crate::types::{AccountId, ProjectHash};

verus! {

broadcast use vstd::std_specs::hash::group_hash_axioms, vstd::seq_lib::lemma_seq_contains_after_push;

/// Status of a freshly registered project.
pub const PROJECT_OPEN: u16 = 0;

/// Status of a project reopened by its owner.
pub const PROJECT_REOPENED: u16 = 100;

/// Status of a project put on hold.
pub const PROJECT_ON_HOLD: u16 = 200;

/// Status of an abandoned project.
pub const PROJECT_ABANDONED: u16 = 300;

/// Status of a cancelled project.
pub const PROJECT_CANCELLED: u16 = 400;

/// Status of a closed project.
pub const PROJECT_CLOSED: u16 = 500;

/// Status recorded for a deleted project.
pub const PROJECT_DELETED: u16 = 999;

/// The record kept when a project is deleted: who owned it, who deleted
/// it, and the status it was archived under.
#[derive(Clone, Copy, Debug, PartialEq, Eq, Structural)]
pub struct DeletedProject {
    pub owned_by: AccountId,
    pub deleted_by: AccountId,
    pub status: u16,
}

/// Why a project operation was rejected.
#[derive(Clone, Copy, Debug, PartialEq, Eq, Structural)]
pub enum ProjectError {
    /// The project is already registered.
    AlreadyExists,
    /// The project was deleted and cannot come back.
    AlreadyDeleted,
    /// The project is not registered.
    DoesNotExist,
    /// No owner record exists for the project.
    OwnerNotFound,
    /// The caller does not own the project.
    NotTheOwner,
    /// Only a closed project can be reopened this way.
    WrongStatus,
    /// The proposed status equals the current one.
    SameStatus,
    /// The proposed status cannot follow the current one.
    StatusNotAllowed,
    /// The proposed status is not one this module administers.
    StatusNotImplemented,
}

/// A notification deposited for the host's event trail.
#[derive(Clone, Copy, Debug, PartialEq, Eq, Structural)]
pub enum ProjectNotification {
    ProjectRegistered { project_hash: ProjectHash, owner: AccountId },
    ProjectDeleted {
        project_hash: ProjectHash,
        owner: AccountId,
        deleted_by: AccountId,
        status: u16,
    },
    ProjectReassigned { project_hash: ProjectHash, new_owner: AccountId, changed_by: AccountId },
    ProjectChanged { project_hash: ProjectHash, changer: AccountId, status: u16 },
}

/// The project store: status, owner and deletion records keyed by
/// project, and the list of projects each account owns.
pub struct ProjectStore {
    /// Status code of each registered project.
    pub statuses: HashMap<ProjectHash, u16>,
    /// Owner of each registered project.
    pub owners: HashMap<ProjectHash, AccountId>,
    /// Deletion records of projects that were removed.
    pub deleted: HashMap<ProjectHash, Vec<DeletedProject>>,
    /// The projects each account owns.
    pub owner_projects: HashMap<AccountId, Vec<ProjectHash>>,
    /// The notifications deposited so far, oldest first.
    pub notifications: Vec<ProjectNotification>,
}

/// What a proposed status change yields for a given current status: the
/// status to store, or the rejection.
pub open spec fn proposed_status_outcome(current: u16, proposed: u16) -> Result<u16, ProjectError> {
    if current == PROJECT_OPEN || current == PROJECT_REOPENED {
        if proposed == PROJECT_OPEN || proposed == PROJECT_REOPENED {
            Err(ProjectError::SameStatus)
        } else if proposed == PROJECT_ON_HOLD || proposed == PROJECT_ABANDONED || proposed
            == PROJECT_CANCELLED || proposed == PROJECT_CLOSED {
            Ok(proposed)
        } else {
            Err(ProjectError::StatusNotAllowed)
        }
    } else if current == PROJECT_ON_HOLD || current == PROJECT_ABANDONED || current
        == PROJECT_CLOSED {
        if proposed == PROJECT_REOPENED {
            Ok(proposed)
        } else {
            Err(ProjectError::StatusNotAllowed)
        }
    } else {
        Err(ProjectError::StatusNotImplemented)
    }
}

/// `post` is `pre` with the status of `h` replaced and one notification
/// appended: the shape of every plain status change.
pub open spec fn status_changed(
    pre: ProjectStore,
    post: ProjectStore,
    changer: AccountId,
    h: ProjectHash,
    status: u16,
) -> bool {
    &&& post.statuses@ == pre.statuses@.insert(h, status)
    &&& post.owners == pre.owners
    &&& post.deleted == pre.deleted
    &&& post.owner_projects == pre.owner_projects
    &&& post.notifications@ == pre.notifications@.push(
        ProjectNotification::ProjectChanged { project_hash: h, changer, status },
    )
}

/// The owner gate shared by every mutation: the project must exist, its
/// owner record must be present, and the caller must be that owner.
/// Yields the error to surface, or the owner.
pub open spec fn owner_gate(
    pre: ProjectStore,
    changer: AccountId,
    h: ProjectHash,
) -> Result<AccountId, ProjectError> {
    if !pre.statuses@.contains_key(h) {
        Err(ProjectError::DoesNotExist)
    } else if !pre.owners@.contains_key(h) {
        Err(ProjectError::OwnerNotFound)
    } else if pre.owners@[h] != changer {
        Err(ProjectError::NotTheOwner)
    } else {
        Ok(pre.owners@[h])
    }
}

/// Everything a registration may do.
pub open spec fn add_project_outcome(
    pre: ProjectStore,
    post: ProjectStore,
    who: AccountId,
    h: ProjectHash,
    r: Result<(), ProjectError>,
) -> bool {
    if pre.statuses@.contains_key(h) {
        &&& r == Err::<(), ProjectError>(ProjectError::AlreadyExists)
        &&& post == pre
    } else if pre.deleted@.contains_key(h) {
        &&& r == Err::<(), ProjectError>(ProjectError::AlreadyDeleted)
        &&& post == pre
    } else {
        &&& r == Ok::<(), ProjectError>(())
        &&& post.statuses@ == pre.statuses@.insert(h, PROJECT_OPEN)
        &&& post.owners@ == pre.owners@.insert(h, who)
        &&& index_appended(pre.owner_projects@, post.owner_projects@, who, h)
        &&& post.deleted == pre.deleted
        &&& post.notifications@ == pre.notifications@.push(
            ProjectNotification::ProjectRegistered { project_hash: h, owner: who },
        )
    }
}

/// Everything a deletion may do.
pub open spec fn remove_project_outcome(
    pre: ProjectStore,
    post: ProjectStore,
    changer: AccountId,
    h: ProjectHash,
    r: Result<(), ProjectError>,
) -> bool {
    match owner_gate(pre, changer, h) {
        Err(e) => {
            &&& r == Err::<(), ProjectError>(e)
            &&& post == pre
        },
        Ok(owner) => {
            &&& r == Ok::<(), ProjectError>(())
            &&& index_removed(pre.owner_projects@, post.owner_projects@, owner, h)
            &&& post.owners@ == pre.owners@.remove(h)
            &&& post.statuses@ == pre.statuses@.remove(h)
            &&& index_appended(
                pre.deleted@,
                post.deleted@,
                h,
                DeletedProject { owned_by: owner, deleted_by: changer, status: PROJECT_DELETED },
            )
            &&& post.notifications@ == pre.notifications@.push(
                ProjectNotification::ProjectDeleted {
                    project_hash: h,
                    owner,
                    deleted_by: changer,
                    status: PROJECT_DELETED,
                },
            )
        },
    }
}

/// Everything a reassignment may do.
pub open spec fn reassign_project_outcome(
    pre: ProjectStore,
    post: ProjectStore,
    changer: AccountId,
    new_owner: AccountId,
    h: ProjectHash,
    r: Result<(), ProjectError>,
) -> bool {
    match owner_gate(pre, changer, h) {
        Err(e) => {
            &&& r == Err::<(), ProjectError>(e)
            &&& post == pre
        },
        Ok(owner) => {
            &&& r == Ok::<(), ProjectError>(())
            &&& (exists|mid: Map<AccountId, Vec<ProjectHash>>|
                #[trigger] index_removed(pre.owner_projects@, mid, owner, h)
                    && index_appended(mid, post.owner_projects@, new_owner, h))
            &&& post.owners@ == pre.owners@.insert(h, new_owner)
            &&& post.statuses == pre.statuses
            &&& post.deleted == pre.deleted
            &&& post.notifications@ == pre.notifications@.push(
                ProjectNotification::ProjectReassigned {
                    project_hash: h,
                    new_owner,
                    changed_by: changer,
                },
            )
        },
    }
}

/// Everything a close call may do: the owner may close a project
/// whatever its current status.
pub open spec fn close_project_outcome(
    pre: ProjectStore,
    post: ProjectStore,
    changer: AccountId,
    h: ProjectHash,
    r: Result<(), ProjectError>,
) -> bool {
    match owner_gate(pre, changer, h) {
        Err(e) => {
            &&& r == Err::<(), ProjectError>(e)
            &&& post == pre
        },
        Ok(owner) => {
            &&& r == Ok::<(), ProjectError>(())
            &&& status_changed(pre, post, changer, h, PROJECT_CLOSED)
        },
    }
}

/// Everything a reopen call may do: only a closed project can be
/// reopened, and the status check precedes the owner checks.
pub open spec fn reopen_project_outcome(
    pre: ProjectStore,
    post: ProjectStore,
    changer: AccountId,
    h: ProjectHash,
    r: Result<(), ProjectError>,
) -> bool {
    if !(pre.statuses@.contains_key(h) && pre.statuses@[h] == PROJECT_CLOSED) {
        &&& r == Err::<(), ProjectError>(ProjectError::WrongStatus)
        &&& post == pre
    } else if !pre.owners@.contains_key(h) {
        &&& r == Err::<(), ProjectError>(ProjectError::OwnerNotFound)
        &&& post == pre
    } else if pre.owners@[h] != changer {
        &&& r == Err::<(), ProjectError>(ProjectError::NotTheOwner)
        &&& post == pre
    } else {
        &&& r == Ok::<(), ProjectError>(())
        &&& status_changed(pre, post, changer, h, PROJECT_REOPENED)
    }
}

/// Everything a general status change may do.
pub open spec fn set_status_outcome(
    pre: ProjectStore,
    post: ProjectStore,
    changer: AccountId,
    h: ProjectHash,
    proposed: u16,
    r: Result<(), ProjectError>,
) -> bool {
    match owner_gate(pre, changer, h) {
        Err(e) => {
            &&& r == Err::<(), ProjectError>(e)
            &&& post == pre
        },
        Ok(owner) => match proposed_status_outcome(pre.statuses@[h], proposed) {
            Err(e) => {
                &&& r == Err::<(), ProjectError>(e)
                &&& post == pre
            },
            Ok(allowed) => {
                &&& r == Ok::<(), ProjectError>(())
                &&& status_changed(pre, post, changer, h, allowed)
            },
        },
    }
}

/// Registering a project preserves the registry invariant.
proof fn lemma_add_preserves_wf(pre: ProjectStore, post: ProjectStore, who: AccountId, h: ProjectHash)
    requires
        pre.wf(),
        !pre.deleted@.contains_key(h),
        post.statuses@ == pre.statuses@.insert(h, PROJECT_OPEN),
        post.owners@ == pre.owners@.insert(h, who),
        index_appended(pre.owner_projects@, post.owner_projects@, who, h),
        post.deleted == pre.deleted,
    ensures
        post.wf(),
{
    assert forall|h2: ProjectHash| #[trigger] post.owners@.contains_key(h2)
        implies index_list(post.owner_projects@, post.owners@[h2]).contains(h2) by {
        let o = post.owners@[h2];
        if h2 == h {
            assert(index_list(post.owner_projects@, who) == index_list(
                pre.owner_projects@,
                who,
            ).push(h));
        } else {
            assert(index_list(pre.owner_projects@, o).contains(h2));
            if o == who {
                assert(index_list(post.owner_projects@, o)
                    == index_list(pre.owner_projects@, o).push(h));
            } else {
                assert(index_list(post.owner_projects@, o)
                    == index_list(pre.owner_projects@, o));
            }
        }
    }
}

/// Deleting a project preserves the registry invariant.
proof fn lemma_remove_preserves_wf(
    pre: ProjectStore,
    post: ProjectStore,
    owner: AccountId,
    changer: AccountId,
    h: ProjectHash,
)
    requires
        pre.wf(),
        index_removed(pre.owner_projects@, post.owner_projects@, owner, h),
        post.owners@ == pre.owners@.remove(h),
        post.statuses@ == pre.statuses@.remove(h),
        index_appended(
            pre.deleted@,
            post.deleted@,
            h,
            DeletedProject { owned_by: owner, deleted_by: changer, status: PROJECT_DELETED },
        ),
    ensures
        post.wf(),
{
    assert forall|h2: ProjectHash| #[trigger] post.owners@.contains_key(h2)
        implies index_list(post.owner_projects@, post.owners@[h2]).contains(h2) by {
        let o = post.owners@[h2];
        let pre_list = index_list(pre.owner_projects@, o);
        assert(pre_list.contains(h2));
        if o == owner {
            let i = choose|i: int| 0 <= i < pre_list.len() && pre_list[i] == h2;
            assert(keep_all_but(h)(pre_list[i]));
            pre_list.lemma_filter_contains(keep_all_but(h), i);
            assert(index_list(post.owner_projects@, o) == pre_list.filter(
                keep_all_but(h),
            ));
        } else {
            assert(index_list(post.owner_projects@, o) == pre_list);
        }
    }
}

/// Reassigning a project preserves the registry invariant.
proof fn lemma_reassign_preserves_wf(
    pre: ProjectStore,
    post: ProjectStore,
    owner: AccountId,
    new_owner: AccountId,
    h: ProjectHash,
)
    requires
        pre.wf(),
        pre.owners@.contains_key(h),
        exists|mid: Map<AccountId, Vec<ProjectHash>>|
            #[trigger] index_removed(pre.owner_projects@, mid, owner, h) && index_appended(
                mid,
                post.owner_projects@,
                new_owner,
                h,
            ),
        post.owners@ == pre.owners@.insert(h, new_owner),
        post.statuses == pre.statuses,
        post.deleted == pre.deleted,
    ensures
        post.wf(),
{
    let mid = choose|mid: Map<AccountId, Vec<ProjectHash>>|
        #[trigger] index_removed(pre.owner_projects@, mid, owner, h) && index_appended(
            mid,
            post.owner_projects@,
            new_owner,
            h,
        );
    assert forall|h2: ProjectHash| #[trigger] post.owners@.contains_key(h2)
        implies index_list(post.owner_projects@, post.owners@[h2]).contains(h2) by {
        let o = post.owners@[h2];
        if h2 == h {
            assert(index_list(post.owner_projects@, new_owner)
                == index_list(mid, new_owner).push(h));
        } else {
            let pre_list = index_list(pre.owner_projects@, o);
            assert(pre_list.contains(h2));
            let mid_list = index_list(mid, o);
            if o == owner {
                let i = choose|i: int| 0 <= i < pre_list.len() && pre_list[i] == h2;
                assert(keep_all_but(h)(pre_list[i]));
                pre_list.lemma_filter_contains(keep_all_but(h), i);
                assert(mid_list == pre_list.filter(keep_all_but(h)));
            } else {
                assert(mid_list == pre_list);
            }
            assert(mid_list.contains(h2));
            if o == new_owner {
                assert(index_list(post.owner_projects@, o) == mid_list.push(h));
            } else {
                assert(index_list(post.owner_projects@, o) == mid_list);
            }
        }
    }
}

impl ProjectStore {
    /// The registry invariant: a project's status and owner records
    /// exist together, every registered project appears in its owner's
    /// listing, and no registered project has a deletion record.
    pub open spec fn wf(self) -> bool {
        &&& forall|h: ProjectHash| #[trigger] self.statuses@.contains_key(h)
            ==> self.owners@.contains_key(h)
        &&& forall|h: ProjectHash| #[trigger] self.owners@.contains_key(h)
            ==> self.statuses@.contains_key(h)
        &&& forall|h: ProjectHash| #[trigger] self.owners@.contains_key(h)
            ==> index_list(self.owner_projects@, self.owners@[h]).contains(h)
        &&& forall|h: ProjectHash| #[trigger] self.statuses@.contains_key(h)
            ==> !self.deleted@.contains_key(h)
    }

    /// A project store with no records and no notifications.
    pub fn new() -> (s: ProjectStore)
        ensures
            s.statuses@ == Map::<ProjectHash, u16>::empty(),
            s.owners@ == Map::<ProjectHash, AccountId>::empty(),
            s.deleted@ == Map::<ProjectHash, Vec<DeletedProject>>::empty(),
            s.owner_projects@ == Map::<AccountId, Vec<ProjectHash>>::empty(),
            s.notifications@ == Seq::<ProjectNotification>::empty(),
    {
        ProjectStore {
            statuses: HashMap::new(),
            owners: HashMap::new(),
            deleted: HashMap::new(),
            owner_projects: HashMap::new(),
            notifications: Vec::new(),
        }
    }

    /// Looks up the owner gate: existence, owner record and ownership of
    /// the caller, surfacing the first failure.
    fn check_owner(&self, changer: AccountId, h: ProjectHash) -> (r: Result<AccountId, ProjectError>)
        ensures
            r == owner_gate(*self, changer, h),
    {
        if !self.statuses.contains_key(&h) {
            return Err(ProjectError::DoesNotExist);
        }
        match self.owners.get(&h) {
            Some(owner) => {
                if *owner != changer {
                    Err(ProjectError::NotTheOwner)
                } else {
                    Ok(*owner)
                }
            },
            None => Err(ProjectError::OwnerNotFound),
        }
    }

    /// Registers a project for a signed caller, refusing a hash that is
    /// registered or was ever deleted.
    pub fn add_new_project(&mut self, who: AccountId, project_hash: ProjectHash) -> (r: Result<
        (),
        ProjectError,
    >)
        requires
            old(self).wf(),
        ensures
            final(self).wf(),
            add_project_outcome(*old(self), *final(self), who, project_hash, r),
    {
        if self.statuses.contains_key(&project_hash) {
            return Err(ProjectError::AlreadyExists);
        }
        if self.deleted.contains_key(&project_hash) {
            return Err(ProjectError::AlreadyDeleted);
        }
        self.statuses.insert(project_hash, PROJECT_OPEN);
        self.owners.insert(project_hash, who);
        push_index(&mut self.owner_projects, who, project_hash);
        self.notifications.push(
            ProjectNotification::ProjectRegistered { project_hash, owner: who },
        );
        proof {
            lemma_add_preserves_wf(*old(self), *self, who, project_hash);
        }
        Ok(())
    }

    /// Deletes a project on behalf of its owner, keeping a record of the
    /// deletion under the project's hash.
    pub fn remove_project(&mut self, changer: AccountId, project_hash: ProjectHash) -> (r: Result<
        (),
        ProjectError,
    >)
        requires
            old(self).wf(),
        ensures
            final(self).wf(),
            remove_project_outcome(*old(self), *final(self), changer, project_hash, r),
    {
        let owner: AccountId = match self.check_owner(changer, project_hash) {
            Ok(o) => o,
            Err(e) => {
                return Err(e);
            },
        };
        remove_from_index(&mut self.owner_projects, owner, project_hash);
        self.owners.remove(&project_hash);
        self.statuses.remove(&project_hash);
        push_index(
            &mut self.deleted,
            project_hash,
            DeletedProject { owned_by: owner, deleted_by: changer, status: PROJECT_DELETED },
        );
        self.notifications.push(
            ProjectNotification::ProjectDeleted {
                project_hash,
                owner,
                deleted_by: changer,
                status: PROJECT_DELETED,
            },
        );
        proof {
            lemma_remove_preserves_wf(*old(self), *self, owner, changer, project_hash);
        }
        Ok(())
    }

    /// Moves a project to a new owner on behalf of its current owner.
    pub fn reassign_project(
        &mut self,
        changer: AccountId,
        new_owner: AccountId,
        project_hash: ProjectHash,
    ) -> (r: Result<(), ProjectError>)
        requires
            old(self).wf(),
        ensures
            final(self).wf(),
            reassign_project_outcome(
                *old(self),
                *final(self),
                changer,
                new_owner,
                project_hash,
                r,
            ),
    {
        let owner: AccountId = match self.check_owner(changer, project_hash) {
            Ok(o) => o,
            Err(e) => {
                return Err(e);
            },
        };
        remove_from_index(&mut self.owner_projects, owner, project_hash);
        let ghost mid: Map<AccountId, Vec<ProjectHash>> = self.owner_projects@;
        self.owners.insert(project_hash, new_owner);
        push_index(&mut self.owner_projects, new_owner, project_hash);
        self.notifications.push(
            ProjectNotification::ProjectReassigned {
                project_hash,
                new_owner,
                changed_by: changer,
            },
        );
        proof {
            assert(index_removed(old(self).owner_projects@, mid, owner, project_hash)
                && index_appended(mid, self.owner_projects@, new_owner, project_hash));
            lemma_reassign_preserves_wf(*old(self), *self, owner, new_owner, project_hash);
        }
        Ok(())
    }

    /// Closes a project on behalf of its owner.
    pub fn close_project(&mut self, changer: AccountId, project_hash: ProjectHash) -> (r: Result<
        (),
        ProjectError,
    >)
        requires
            old(self).wf(),
        ensures
            final(self).wf(),
            close_project_outcome(*old(self), *final(self), changer, project_hash, r),
    {
        let _owner: AccountId = match self.check_owner(changer, project_hash) {
            Ok(o) => o,
            Err(e) => {
                return Err(e);
            },
        };
        self.statuses.insert(project_hash, PROJECT_CLOSED);
        self.notifications.push(
            ProjectNotification::ProjectChanged {
                project_hash,
                changer,
                status: PROJECT_CLOSED,
            },
        );
        Ok(())
    }

    /// Reopens a closed project on behalf of its owner.
    pub fn reopen_project(&mut self, changer: AccountId, project_hash: ProjectHash) -> (r: Result<
        (),
        ProjectError,
    >)
        requires
            old(self).wf(),
        ensures
            final(self).wf(),
            reopen_project_outcome(*old(self), *final(self), changer, project_hash, r),
    {
        let closed: bool = match self.statuses.get(&project_hash) {
            Some(s) => *s == PROJECT_CLOSED,
            None => false,
        };
        if !closed {
            return Err(ProjectError::WrongStatus);
        }
        let owner: AccountId = match self.owners.get(&project_hash) {
            Some(o) => *o,
            None => {
                return Err(ProjectError::OwnerNotFound);
            },
        };
        if owner != changer {
            return Err(ProjectError::NotTheOwner);
        }
        self.statuses.insert(project_hash, PROJECT_REOPENED);
        self.notifications.push(
            ProjectNotification::ProjectChanged {
                project_hash,
                changer,
                status: PROJECT_REOPENED,
            },
        );
        Ok(())
    }

    /// Applies a proposed status to a project on behalf of its owner,
    /// within the fixed transition table: an open or reopened project
    /// may be put on hold, abandoned, cancelled or closed; a held,
    /// abandoned or closed project may only be reopened.
    pub fn set_status_project(
        &mut self,
        changer: AccountId,
        project_hash: ProjectHash,
        proposed: u16,
    ) -> (r: Result<(), ProjectError>)
        requires
            old(self).wf(),
        ensures
            final(self).wf(),
            set_status_outcome(*old(self), *final(self), changer, project_hash, proposed, r),
    {
        let _owner: AccountId = match self.check_owner(changer, project_hash) {
            Ok(o) => o,
            Err(e) => {
                return Err(e);
            },
        };
        let current: u16 = match self.statuses.get(&project_hash) {
            Some(s) => *s,
            None => {
                return Err(ProjectError::DoesNotExist);
            },
        };
        let allowed: u16 = if current == PROJECT_OPEN || current == PROJECT_REOPENED {
            if proposed == PROJECT_OPEN || proposed == PROJECT_REOPENED {
                return Err(ProjectError::SameStatus);
            } else if proposed == PROJECT_ON_HOLD || proposed == PROJECT_ABANDONED || proposed
                == PROJECT_CANCELLED || proposed == PROJECT_CLOSED {
                proposed
            } else {
                return Err(ProjectError::StatusNotAllowed);
            }
        } else if current == PROJECT_ON_HOLD || current == PROJECT_ABANDONED || current
            == PROJECT_CLOSED {
            if proposed == PROJECT_REOPENED {
                proposed
            } else {
                return Err(ProjectError::StatusNotAllowed);
            }
        } else {
            return Err(ProjectError::StatusNotImplemented);
        };
        self.statuses.insert(project_hash, allowed);
        self.notifications.push(
            ProjectNotification::ProjectChanged { project_hash, changer, status: allowed },
        );
        Ok(())
    }

    /// The status of a registered project, if the hash names one.
    pub fn project_hash_status(&self, h: ProjectHash) -> (r: Option<u16>)
        ensures
            match r {
                Some(s) => self.statuses@.contains_key(h) && s == self.statuses@[h],
                None => !self.statuses@.contains_key(h),
            },
    {
        match self.statuses.get(&h) {
            Some(s) => Some(*s),
            None => None,
        }
    }

    /// The owner of a registered project, if the hash names one.
    pub fn project_hash_owner(&self, h: ProjectHash) -> (r: Option<AccountId>)
        ensures
            match r {
                Some(o) => self.owners@.contains_key(h) && o == self.owners@[h],
                None => !self.owners@.contains_key(h),
            },
    {
        match self.owners.get(&h) {
            Some(o) => Some(*o),
            None => None,
        }
    }

    /// The deletion records kept under a hash, if there are any.
    pub fn deleted_project(&self, h: ProjectHash) -> (r: Option<&Vec<DeletedProject>>)
        ensures
            match r {
                Some(list) => self.deleted@.contains_key(h) && list@ == self.deleted@[h]@,
                None => !self.deleted@.contains_key(h),
            },
    {
        self.deleted.get(&h)
    }

    /// The projects an account owns, if it owns any.
    pub fn owner_projects_list(&self, account: AccountId) -> (r: Option<&Vec<ProjectHash>>)
        ensures
            match r {
                Some(list) => self.owner_projects@.contains_key(account) && list@
                    == self.owner_projects@[account]@,
                None => !self.owner_projects@.contains_key(account),
            },
    {
        self.owner_projects.get(&account)
    }

    /// Whether the project is registered with a status of open or
    /// reopened.
    pub fn is_project_valid(&self, h: ProjectHash) -> (r: bool)
        ensures
            r == (self.statuses@.contains_key(h) && (self.statuses@[h] == PROJECT_OPEN
                || self.statuses@[h] == PROJECT_REOPENED)),
    {
        match self.statuses.get(&h) {
            Some(s) => *s == PROJECT_OPEN || *s == PROJECT_REOPENED,
            None => false,
        }
    }

    /// Whether the account owns the project.
    pub fn is_project_owner(&self, o: AccountId, h: ProjectHash) -> (r: bool)
        ensures
            r == (self.owners@.contains_key(h) && self.owners@[h] == o),
    {
        match self.owners.get(&h) {
            Some(owner) => *owner == o,
            None => false,
        }
    }

    /// Whether the project is valid and the account owns it.
    pub fn is_owner_and_project_valid(&self, o: AccountId, h: ProjectHash) -> (r: bool)
        ensures
            r == (self.statuses@.contains_key(h) && (self.statuses@[h] == PROJECT_OPEN
                || self.statuses@[h] == PROJECT_REOPENED) && self.owners@.contains_key(h)
                && self.owners@[h] == o),
    {
        if self.is_project_valid(h) {
            self.is_project_owner(o, h)
        } else {
            false
        }
    }
}

} // verus!

