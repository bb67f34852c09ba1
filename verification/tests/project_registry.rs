use totem_orders::projects::{
    DeletedProject, ProjectError, ProjectNotification, ProjectStore, PROJECT_ABANDONED,
    PROJECT_CANCELLED, PROJECT_CLOSED, PROJECT_DELETED, PROJECT_ON_HOLD, PROJECT_OPEN,
    PROJECT_REOPENED,
};

#[test]
fn registering_a_project_stores_status_owner_and_listing() {
    let mut store = ProjectStore::new();
    assert_eq!(store.add_new_project(1, 40), Ok(()));
    assert_eq!(store.project_hash_status(40), Some(PROJECT_OPEN));
    assert_eq!(store.project_hash_owner(40), Some(1));
    assert!(store.owner_projects_list(1).unwrap().contains(&40));
    assert_eq!(
        store.notifications,
        vec![ProjectNotification::ProjectRegistered { project_hash: 40, owner: 1 }]
    );
}

#[test]
fn registering_twice_is_refused() {
    let mut store = ProjectStore::new();
    assert_eq!(store.add_new_project(1, 40), Ok(()));
    assert_eq!(store.add_new_project(2, 40), Err(ProjectError::AlreadyExists));
    assert_eq!(store.project_hash_owner(40), Some(1));
}

#[test]
fn removing_a_project_keeps_a_deletion_record() {
    let mut store = ProjectStore::new();
    assert_eq!(store.add_new_project(1, 40), Ok(()));
    assert_eq!(store.remove_project(1, 40), Ok(()));
    assert_eq!(store.project_hash_status(40), None);
    assert_eq!(store.project_hash_owner(40), None);
    assert!(!store.owner_projects_list(1).unwrap().contains(&40));
    assert_eq!(
        store.deleted_project(40).unwrap().as_slice(),
        &[DeletedProject { owned_by: 1, deleted_by: 1, status: PROJECT_DELETED }]
    );
    assert_eq!(
        store.notifications.last(),
        Some(&ProjectNotification::ProjectDeleted {
            project_hash: 40,
            owner: 1,
            deleted_by: 1,
            status: PROJECT_DELETED,
        })
    );
}

#[test]
fn a_deleted_project_cannot_come_back() {
    let mut store = ProjectStore::new();
    assert_eq!(store.add_new_project(1, 40), Ok(()));
    assert_eq!(store.remove_project(1, 40), Ok(()));
    assert_eq!(store.add_new_project(1, 40), Err(ProjectError::AlreadyDeleted));
}

#[test]
fn only_the_owner_can_remove_a_project() {
    let mut store = ProjectStore::new();
    assert_eq!(store.remove_project(1, 40), Err(ProjectError::DoesNotExist));
    assert_eq!(store.add_new_project(1, 40), Ok(()));
    assert_eq!(store.remove_project(2, 40), Err(ProjectError::NotTheOwner));
    assert_eq!(store.project_hash_status(40), Some(PROJECT_OPEN));
}

#[test]
fn reassigning_moves_the_listing_to_the_new_owner() {
    let mut store = ProjectStore::new();
    assert_eq!(store.add_new_project(1, 40), Ok(()));
    assert_eq!(store.reassign_project(2, 3, 40), Err(ProjectError::NotTheOwner));
    assert_eq!(store.reassign_project(1, 3, 40), Ok(()));
    assert_eq!(store.project_hash_owner(40), Some(3));
    assert!(!store.owner_projects_list(1).unwrap().contains(&40));
    assert!(store.owner_projects_list(3).unwrap().contains(&40));
    assert_eq!(
        store.notifications.last(),
        Some(&ProjectNotification::ProjectReassigned {
            project_hash: 40,
            new_owner: 3,
            changed_by: 1,
        })
    );
}

#[test]
fn closing_and_reopening_follow_ownership() {
    let mut store = ProjectStore::new();
    assert_eq!(store.add_new_project(1, 40), Ok(()));
    assert_eq!(store.reopen_project(1, 40), Err(ProjectError::WrongStatus));
    assert_eq!(store.close_project(2, 40), Err(ProjectError::NotTheOwner));
    assert_eq!(store.close_project(1, 40), Ok(()));
    assert_eq!(store.project_hash_status(40), Some(PROJECT_CLOSED));
    assert_eq!(store.reopen_project(2, 40), Err(ProjectError::NotTheOwner));
    assert_eq!(store.reopen_project(1, 40), Ok(()));
    assert_eq!(store.project_hash_status(40), Some(PROJECT_REOPENED));
    assert_eq!(
        store.notifications.last(),
        Some(&ProjectNotification::ProjectChanged {
            project_hash: 40,
            changer: 1,
            status: PROJECT_REOPENED,
        })
    );
}

#[test]
fn status_changes_follow_the_transition_table() {
    let mut store = ProjectStore::new();
    assert_eq!(store.add_new_project(1, 40), Ok(()));
    assert_eq!(store.set_status_project(1, 40, PROJECT_OPEN), Err(ProjectError::SameStatus));
    assert_eq!(
        store.set_status_project(1, 40, PROJECT_REOPENED),
        Err(ProjectError::SameStatus)
    );
    assert_eq!(store.set_status_project(1, 40, 777), Err(ProjectError::StatusNotAllowed));
    assert_eq!(store.set_status_project(1, 40, PROJECT_ON_HOLD), Ok(()));
    assert_eq!(store.project_hash_status(40), Some(PROJECT_ON_HOLD));
    assert_eq!(
        store.set_status_project(1, 40, PROJECT_ABANDONED),
        Err(ProjectError::StatusNotAllowed)
    );
    assert_eq!(store.set_status_project(1, 40, PROJECT_REOPENED), Ok(()));
    assert_eq!(store.project_hash_status(40), Some(PROJECT_REOPENED));
    assert_eq!(store.set_status_project(1, 40, PROJECT_CANCELLED), Ok(()));
    assert_eq!(store.project_hash_status(40), Some(PROJECT_CANCELLED));
    assert_eq!(
        store.set_status_project(1, 40, PROJECT_REOPENED),
        Err(ProjectError::StatusNotImplemented)
    );
    assert_eq!(store.set_status_project(2, 40, PROJECT_REOPENED), Err(ProjectError::NotTheOwner));
}

#[test]
fn a_status_without_an_owner_record_is_reported() {
    // Assemble a store whose owner record is missing; the mutation
    // surfaces the broken record instead of touching anything.
    let mut store = ProjectStore::new();
    store.statuses.insert(40, PROJECT_OPEN);
    assert_eq!(store.remove_project(1, 40), Err(ProjectError::OwnerNotFound));
    assert_eq!(store.project_hash_status(40), Some(PROJECT_OPEN));
}

#[test]
fn validity_queries_follow_status_and_ownership() {
    let mut store = ProjectStore::new();
    assert!(!store.is_project_valid(40));
    assert!(!store.is_project_owner(1, 40));
    assert!(!store.is_owner_and_project_valid(1, 40));
    assert_eq!(store.add_new_project(1, 40), Ok(()));
    assert!(store.is_project_valid(40));
    assert!(store.is_project_owner(1, 40));
    assert!(!store.is_project_owner(2, 40));
    assert!(store.is_owner_and_project_valid(1, 40));
    assert!(!store.is_owner_and_project_valid(2, 40));
    assert_eq!(store.close_project(1, 40), Ok(()));
    assert!(!store.is_project_valid(40));
    assert!(!store.is_owner_and_project_valid(1, 40));
    assert_eq!(store.reopen_project(1, 40), Ok(()));
    assert!(store.is_project_valid(40));
}
