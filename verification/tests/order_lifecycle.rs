use totem_orders::archive::{archive_record, ArchiveError, ORDER_RECORD_TYPE};
use totem_orders::orders::{
    FixedReferenceSource, LineItem, Notification, OrderError, OrderStore, RecordingEncumbrance,
    RefusingEncumbrance, Reservation, SequentialReferenceSource,
};
use totem_orders::types::{BlockNumber, LedgerBalance};

fn committed_order(store: &mut OrderStore) -> u64 {
    // creator 1 approves their own order for fulfiller 2, amount 1000.
    let mut refs = SequentialReferenceSource { next: 100 };
    let mut enc = RecordingEncumbrance { granted: Vec::new() };
    let items = vec![LineItem { product: 5, unit_price: 500, quantity: 2 }];
    let r = store.submit_order(&mut refs, &mut enc, 1, 1, 2, 0, 1000, false, 0, 10, 20, items);
    assert_eq!(r, Ok(()));
    100
}

#[test]
fn auto_approved_closed_order_commits_everything() {
    let mut store = OrderStore::new();
    let mut refs = SequentialReferenceSource { next: 100 };
    let mut enc = RecordingEncumbrance { granted: Vec::new() };
    let items = vec![LineItem { product: 5, unit_price: 500, quantity: 2 }];
    let r = store.submit_order(
        &mut refs,
        &mut enc,
        1,
        1,
        2,
        0,
        1000,
        false,
        0,
        10,
        20,
        items.clone(),
    );
    assert_eq!(r, Ok(()));
    assert_eq!(store.status(100), Some(0));
    assert_eq!(store.approved(100), Some(1));
    assert!(store.owner(1).unwrap().contains(&100));
    assert!(store.beneficiary(2).unwrap().contains(&100));
    assert!(store.approver(1).unwrap().contains(&100));
    let header = store.order(100).unwrap();
    assert_eq!(header.creator, 1);
    assert_eq!(header.fulfiller, 2);
    assert_eq!(header.approver, 1);
    assert_eq!(header.amount, LedgerBalance { amount: 1000 });
    assert_eq!(header.deadline, BlockNumber { blocks: 10 });
    assert_eq!(header.due_date, BlockNumber { blocks: 20 });
    assert!(!header.is_open);
    assert_eq!(store.details(100).unwrap(), &items);
    assert_eq!(
        store.notifications.last(),
        Some(&Notification::OrderCreated { creator: 1, fulfiller: 2, reference: 100 })
    );
    assert!(!store
        .notifications
        .iter()
        .any(|n| matches!(n, Notification::OrderCreatedForApproval { .. })));
}

#[test]
fn auto_approval_reserves_converted_amount() {
    let mut store = OrderStore::new();
    let mut refs = SequentialReferenceSource { next: 100 };
    let mut enc = RecordingEncumbrance { granted: Vec::new() };
    let r = store.submit_order(&mut refs, &mut enc, 1, 1, 2, 0, 1000, false, 0, 10, 20, Vec::new());
    assert_eq!(r, Ok(()));
    assert_eq!(
        enc.granted,
        vec![Reservation {
            debtor: 1,
            creditor: 2,
            amount: 1000,
            deadline: BlockNumber { blocks: 10 },
        }]
    );
}

#[test]
fn pending_submission_records_approver_only() {
    // creator 1, approver 3, fulfiller 2, closed: success, but nothing of
    // the order itself is stored until the approver acts.
    let mut store = OrderStore::new();
    let mut refs = SequentialReferenceSource { next: 100 };
    let mut enc = RecordingEncumbrance { granted: Vec::new() };
    let r = store.submit_order(&mut refs, &mut enc, 1, 3, 2, 0, 1000, false, 0, 10, 20, Vec::new());
    assert_eq!(r, Ok(()));
    assert_eq!(store.status(100), None);
    assert_eq!(store.order(100), None);
    assert_eq!(store.details(100), None);
    assert_eq!(store.approved(100), Some(0));
    assert!(store.approver(3).unwrap().contains(&100));
    assert_eq!(store.owner(1), None);
    assert_eq!(store.beneficiary(2), None);
    assert!(enc.granted.is_empty());
    assert_eq!(
        store.notifications,
        vec![Notification::OrderCreatedForApproval { creator: 1, approver: 3, reference: 100 }]
    );
}

#[test]
fn pending_order_is_approved_by_its_nominated_approver() {
    // creator 1, approver 3, fulfiller 2, closed: the pending reference
    // carries its nominated approver, who can later accept it even
    // though no header exists yet.
    let mut store = OrderStore::new();
    let mut refs = SequentialReferenceSource { next: 100 };
    let mut enc = RecordingEncumbrance { granted: Vec::new() };
    let r = store.submit_order(&mut refs, &mut enc, 1, 3, 2, 0, 1000, false, 0, 10, 20, Vec::new());
    assert_eq!(r, Ok(()));
    assert_eq!(store.nominated_approver(100), Some(3));
    // Someone other than the nominated approver is still refused.
    assert_eq!(store.approve_order(4, 100, 1), Err(OrderError::NotTheApprover));
    assert_eq!(store.approved(100), Some(0));
    let a = store.approve_order(3, 100, 1);
    assert_eq!(a, Ok(()));
    assert_eq!(store.approved(100), Some(1));
    assert_eq!(store.status(100), None);
    assert_eq!(
        store.notifications.last(),
        Some(&Notification::OrderStatusUpdate { reference: 100, status: 1 })
    );
}

#[test]
fn self_dealing_closed_order_is_refused() {
    // creator, approver and fulfiller all the same account, closed order.
    let mut store = OrderStore::new();
    let mut refs = SequentialReferenceSource { next: 100 };
    let mut enc = RecordingEncumbrance { granted: Vec::new() };
    let r = store.submit_order(&mut refs, &mut enc, 1, 1, 1, 0, 1000, false, 0, 10, 20, Vec::new());
    assert_eq!(r, Err(OrderError::SelfDealingNotAllowed));
    assert_eq!(store.status(100), None);
    assert_eq!(store.approved(100), None);
    assert_eq!(store.order(100), None);
    assert_eq!(store.owner(1), None);
    assert_eq!(store.approver(1), None);
    assert!(enc.granted.is_empty());
    assert_eq!(
        store.notifications,
        vec![Notification::ErrorSelfDealing { creator: 1, reference: 100 }]
    );
}

#[test]
fn open_order_skips_the_self_dealing_check() {
    // An open order with creator == fulfiller is not self-dealing; the
    // auto-approved one still cannot commit the creator as beneficiary.
    let mut store = OrderStore::new();
    let mut refs = SequentialReferenceSource { next: 100 };
    let mut enc = RecordingEncumbrance { granted: Vec::new() };
    let r = store.submit_order(&mut refs, &mut enc, 1, 1, 1, 0, 1000, true, 0, 10, 20, Vec::new());
    assert_eq!(r, Err(OrderError::BeneficiaryMustDiffer));
    assert_eq!(
        store.notifications.last(),
        Some(&Notification::ErrorBeneficiaryMustDiffer { creator: 1, reference: 100 })
    );
    // With a distinct approver the same open order goes to pending.
    let mut store2 = OrderStore::new();
    let r2 = store2.submit_order(&mut refs, &mut enc, 1, 3, 1, 0, 1000, true, 0, 10, 20, Vec::new());
    assert_eq!(r2, Ok(()));
    assert_eq!(store2.approved(101), Some(0));
}

#[test]
fn duplicate_reference_is_refused() {
    let mut store = OrderStore::new();
    let mut refs = FixedReferenceSource { reference: 55 };
    let mut enc = RecordingEncumbrance { granted: Vec::new() };
    let first = store.submit_order(&mut refs, &mut enc, 1, 1, 2, 0, 10, false, 0, 5, 6, Vec::new());
    assert_eq!(first, Ok(()));
    let second = store.submit_order(&mut refs, &mut enc, 1, 1, 2, 0, 10, false, 0, 5, 6, Vec::new());
    assert_eq!(second, Err(OrderError::DuplicateReference));
    assert_eq!(
        store.notifications.last(),
        Some(&Notification::ErrorDuplicateReference { creator: 1, reference: 55 })
    );
    // The first order is untouched.
    assert_eq!(store.status(55), Some(0));
    assert_eq!(store.owner(1).unwrap().as_slice(), &[55]);
}

#[test]
fn negative_amount_aborts_with_nothing_stored() {
    let mut store = OrderStore::new();
    let mut refs = SequentialReferenceSource { next: 100 };
    let mut enc = RecordingEncumbrance { granted: Vec::new() };
    let r = store.submit_order(&mut refs, &mut enc, 1, 1, 2, 0, -5, false, 0, 10, 20, Vec::new());
    assert_eq!(r, Err(OrderError::NegativeAmount));
    assert_eq!(store.approved(100), None);
    assert_eq!(store.approver(1), None);
    assert!(enc.granted.is_empty());
    assert!(store.notifications.is_empty());
}

#[test]
fn refused_reservation_aborts_with_nothing_stored() {
    let mut store = OrderStore::new();
    let mut refs = SequentialReferenceSource { next: 100 };
    let mut enc = RefusingEncumbrance { code: 9 };
    let r = store.submit_order(&mut refs, &mut enc, 1, 1, 2, 0, 1000, false, 0, 10, 20, Vec::new());
    assert_eq!(
        r,
        Err(OrderError::ReservationFailed(totem_orders::orders::EncumbranceError { code: 9 }))
    );
    assert_eq!(store.status(100), None);
    assert_eq!(store.approved(100), None);
    assert_eq!(store.approver(1), None);
    assert_eq!(store.owner(1), None);
    assert!(store.notifications.is_empty());
}

#[test]
fn zero_amount_order_commits() {
    let mut store = OrderStore::new();
    let mut refs = SequentialReferenceSource { next: 100 };
    let mut enc = RecordingEncumbrance { granted: Vec::new() };
    let r = store.submit_order(&mut refs, &mut enc, 1, 1, 2, 0, 0, false, 0, 10, 20, Vec::new());
    assert_eq!(r, Ok(()));
    assert_eq!(store.order(100).unwrap().amount, LedgerBalance { amount: 0 });
    assert_eq!(enc.granted[0].amount, 0);
}

#[test]
fn empty_line_items_are_accepted() {
    let mut store = OrderStore::new();
    let reference = committed_order(&mut store);
    assert_eq!(store.details(reference).unwrap().len(), 1);
    let mut refs = SequentialReferenceSource { next: 200 };
    let mut enc = RecordingEncumbrance { granted: Vec::new() };
    let r = store.submit_order(&mut refs, &mut enc, 4, 4, 5, 0, 1, false, 0, 1, 2, Vec::new());
    assert_eq!(r, Ok(()));
    assert!(store.details(200).unwrap().is_empty());
}

#[test]
fn approval_by_non_approver_is_refused() {
    let mut store = OrderStore::new();
    let reference = committed_order(&mut store);
    let r = store.approve_order(4, reference, 1);
    assert_eq!(r, Err(OrderError::NotTheApprover));
    assert_eq!(store.approved(reference), Some(1));
    assert_eq!(
        store.notifications.last(),
        Some(&Notification::ErrorNotApprover { account: 4, reference })
    );
}

#[test]
fn approval_with_invalid_decision_is_refused() {
    let mut store = OrderStore::new();
    let reference = committed_order(&mut store);
    let r = store.approve_order(1, reference, 3);
    assert_eq!(r, Err(OrderError::InvalidStatus));
    assert_eq!(store.approved(reference), Some(1));
    assert_eq!(
        store.notifications.last(),
        Some(&Notification::ErrorApprovalStatus { reference })
    );
    let r0 = store.approve_order(1, reference, 0);
    assert_eq!(r0, Err(OrderError::InvalidStatus));
    assert_eq!(store.approved(reference), Some(1));
}

#[test]
fn approval_of_unknown_reference_is_refused() {
    let mut store = OrderStore::new();
    let r = store.approve_order(1, 77, 1);
    assert_eq!(r, Err(OrderError::ReferenceNotFound));
    assert_eq!(
        store.notifications,
        vec![Notification::ErrorReferenceNotFound { reference: 77 }]
    );
}

#[test]
fn approver_can_reject_without_touching_workflow() {
    let mut store = OrderStore::new();
    let reference = committed_order(&mut store);
    let r = store.approve_order(1, reference, 2);
    assert_eq!(r, Ok(()));
    assert_eq!(store.approved(reference), Some(2));
    assert_eq!(store.status(reference), Some(0));
    assert_eq!(store.order(reference).unwrap().creator, 1);
    assert_eq!(
        store.notifications.last(),
        Some(&Notification::OrderStatusUpdate { reference, status: 2 })
    );
    // A repeated decision re-runs the checks and lands on the same state.
    let again = store.approve_order(1, reference, 2);
    assert_eq!(again, Ok(()));
    assert_eq!(store.approved(reference), Some(2));
}

#[test]
fn archive_entry_point_validates_ownership() {
    let mut store = OrderStore::new();
    let reference = committed_order(&mut store);
    assert_eq!(store.validate_and_archive(2, reference, true), Err(OrderError::NotTheOwner));
    assert_eq!(store.archived(reference), None);
    assert_eq!(store.validate_and_archive(1, reference, true), Ok(()));
    assert_eq!(store.archived(reference), Some(true));
    assert_eq!(store.validate_and_archive(1, reference, false), Ok(()));
    assert_eq!(store.archived(reference), Some(false));
    assert_eq!(store.validate_and_archive(1, 999, true), Err(OrderError::ReferenceNotFound));
}

#[test]
fn archive_record_dispatches_on_record_type() {
    let mut store = OrderStore::new();
    let reference = committed_order(&mut store);
    assert_eq!(
        archive_record(&mut store, 1, 3000, reference, true),
        Err(ArchiveError::UnknownRecordType)
    );
    assert_eq!(
        archive_record(&mut store, 2, ORDER_RECORD_TYPE, reference, true),
        Err(ArchiveError::CannotArchive)
    );
    assert_eq!(store.archived(reference), None);
    assert_eq!(archive_record(&mut store, 1, ORDER_RECORD_TYPE, reference, true), Ok(()));
    assert_eq!(store.archived(reference), Some(true));
    assert_eq!(
        store.notifications.last(),
        Some(&Notification::RecordArchived {
            record_type: ORDER_RECORD_TYPE,
            account: 1,
            reference,
            archived: true,
        })
    );
}
