//! The order lifecycle controller: a multi-party order store with an
//! approval gate, financial encumbrance at creation, and an independent
//! approval path.
//!
//! An order is created between a creator, a nominated approver and a
//! fulfiller.  When the creator is their own approver the order is
//! auto-approved: funds are reserved through the encumbrance service and
//! the header, line items, workflow status and ownership indices are
//! committed together.  Otherwise only the approver linkage and a pending
//! approval status are recorded, and a pending-approval notification is
//! emitted; the nominated approver can then accept or reject the pending
//! reference.  A failed operation leaves the store exactly as it was,
//! apart from the audit notification that a rejected validation emits.

use std::collections::HashMap;

use vstd::prelude::*;

use crate::conversions::{to_duration, to_ledger_balance, to_unsigned};
use crate::store::{index_appended, index_list, push_index};
use crate::types::{AccountId, BlockNumber, LedgerBalance, ProductId, Reference};

verus! {

broadcast use vstd::std_specs::hash::group_hash_axioms, vstd::seq_lib::lemma_seq_contains_after_push;

/// Workflow status of a freshly committed order.
pub const WORKFLOW_SUBMITTED: u16 = 0;

/// Approval status of an order still awaiting its approver's sign-off.
pub const APPROVAL_PENDING: u16 = 0;

/// Approval status of an order accepted by its approver.
pub const APPROVAL_APPROVED: u16 = 1;

/// Approval status of an order rejected by its approver.
pub const APPROVAL_REJECTED: u16 = 2;

/// One line item of an order: a product, its unit price and a quantity.
#[derive(Clone, Copy, Debug, PartialEq, Eq, Structural)]
pub struct LineItem {
    pub product: ProductId,
    pub unit_price: i128,
    pub quantity: i128,
}

/// The header of a committed order.
#[derive(Clone, Copy, Debug, PartialEq, Eq, Structural)]
pub struct OrderHeader {
    /// The account that created the order.
    pub creator: AccountId,
    /// The account nominated to fulfil it; bound only for closed orders.
    pub fulfiller: AccountId,
    /// The account nominated to approve it.
    pub approver: AccountId,
    /// Direction flag: buy or sell.
    pub buy_or_sell: u16,
    /// The order amount in the ledger's balance representation.
    pub amount: LedgerBalance,
    /// Whether the order is open (market) or closed (bound to a fulfiller).
    pub is_open: bool,
    /// Order-type code.
    pub order_type: u16,
    /// Acceptance deadline for the fund reservation.
    pub deadline: BlockNumber,
    /// Future delivery date.
    pub due_date: BlockNumber,
}

/// Why the encumbrance service refused a reservation; carried verbatim to
/// the caller.
#[derive(Clone, Copy, Debug, PartialEq, Eq, Structural)]
pub struct EncumbranceError {
    pub code: u16,
}

/// Why an order operation was rejected.
#[derive(Clone, Copy, Debug, PartialEq, Eq, Structural)]
pub enum OrderError {
    /// A workflow status already exists for the derived reference.
    DuplicateReference,
    /// A closed order names its own creator as fulfiller.
    SelfDealingNotAllowed,
    /// An order cannot be committed with its creator as beneficiary.
    BeneficiaryMustDiffer,
    /// The amount was negative and could not be reserved.
    NegativeAmount,
    /// The encumbrance service refused the reservation.
    ReservationFailed(EncumbranceError),
    /// The reference names no record the operation could act on.
    ReferenceNotFound,
    /// The caller is not the order's nominated approver.
    NotTheApprover,
    /// The proposed approval decision is not accepted or rejected.
    InvalidStatus,
    /// The caller does not own the record it tried to archive.
    NotTheOwner,
}

/// A notification deposited for the host's event trail.
#[derive(Clone, Copy, Debug, PartialEq, Eq, Structural)]
pub enum Notification {
    /// An order was fully committed.
    OrderCreated { creator: AccountId, fulfiller: AccountId, reference: Reference },
    /// An order awaits its approver; nothing but the approval linkage was
    /// recorded.
    OrderCreatedForApproval { creator: AccountId, approver: AccountId, reference: Reference },
    /// The approval status of an order was replaced.
    OrderStatusUpdate { reference: Reference, status: u16 },
    /// A record was archived or restored on behalf of its owner.
    RecordArchived { record_type: u16, account: AccountId, reference: Reference, archived: bool },
    /// Audit: a submission was rejected because its reference was taken.
    ErrorDuplicateReference { creator: AccountId, reference: Reference },
    /// Audit: a closed order named its creator as fulfiller.
    ErrorSelfDealing { creator: AccountId, reference: Reference },
    /// Audit: an order named its creator as beneficiary.
    ErrorBeneficiaryMustDiffer { creator: AccountId, reference: Reference },
    /// Audit: an approval was attempted by an account that is not the
    /// order's approver.
    ErrorNotApprover { account: AccountId, reference: Reference },
    /// Audit: an approval carried a decision outside the accepted domain.
    ErrorApprovalStatus { reference: Reference },
    /// Audit: an approval named a reference no submission created.
    ErrorReferenceNotFound { reference: Reference },
}

/// The outcome the approval gate reports: proceed synchronously, or stop
/// after notifying the nominated approver.
#[derive(Clone, Copy, Debug, PartialEq, Eq, Structural)]
pub enum ApprovalDecision {
    Approved,
    Pending,
}

/// Produces fresh order references; collision resistance is the
/// implementation's concern, and the controller re-checks for duplicates.
pub trait ReferenceSource {
    fn new_reference(&mut self, a: AccountId, b: AccountId) -> Reference;
}

/// Reserves funds between a debtor and a creditor until a deadline.  The
/// service alone decides whether a reservation is granted; the controller
/// commits an order only once the reservation succeeded.
pub trait EncumbranceService {
    fn reserve(
        &mut self,
        debtor: AccountId,
        creditor: AccountId,
        amount: u128,
        deadline: BlockNumber,
    ) -> Result<(), EncumbranceError>;
}

/// A reference source handing out consecutive references; a substitutable
/// stand-in for the host's content-derived generator.
pub struct SequentialReferenceSource {
    pub next: Reference,
}

impl ReferenceSource for SequentialReferenceSource {
    fn new_reference(&mut self, _a: AccountId, _b: AccountId) -> Reference {
        let reference: Reference = self.next;
        self.next = self.next.wrapping_add(1);
        reference
    }
}

/// A reference source that always hands out the same reference; useful to
/// exercise the duplicate-reference rejection.
pub struct FixedReferenceSource {
    pub reference: Reference,
}

impl ReferenceSource for FixedReferenceSource {
    fn new_reference(&mut self, _a: AccountId, _b: AccountId) -> Reference {
        self.reference
    }
}

/// One reservation granted by `RecordingEncumbrance`.
#[derive(Clone, Copy, Debug, PartialEq, Eq, Structural)]
pub struct Reservation {
    pub debtor: AccountId,
    pub creditor: AccountId,
    pub amount: u128,
    pub deadline: BlockNumber,
}

/// An encumbrance service that grants every reservation and records it; a
/// substitutable stand-in for the host's prefunding module.
pub struct RecordingEncumbrance {
    pub granted: Vec<Reservation>,
}

impl EncumbranceService for RecordingEncumbrance {
    fn reserve(
        &mut self,
        debtor: AccountId,
        creditor: AccountId,
        amount: u128,
        deadline: BlockNumber,
    ) -> Result<(), EncumbranceError> {
        self.granted.push(Reservation { debtor, creditor, amount, deadline });
        Ok(())
    }
}

/// An encumbrance service that refuses every reservation with a fixed
/// error code.
pub struct RefusingEncumbrance {
    pub code: u16,
}

impl EncumbranceService for RefusingEncumbrance {
    fn reserve(
        &mut self,
        _debtor: AccountId,
        _creditor: AccountId,
        _amount: u128,
        _deadline: BlockNumber,
    ) -> Result<(), EncumbranceError> {
        Err(EncumbranceError { code: self.code })
    }
}

/// The order store: every record of the order component, keyed by account
/// or by order reference.
pub struct OrderStore {
    /// Creator role index: the orders each account created.
    pub owners: HashMap<AccountId, Vec<Reference>>,
    /// Beneficiary role index: the orders each account is to fulfil.
    pub beneficiaries: HashMap<AccountId, Vec<Reference>>,
    /// Approver role index: the orders each account is to approve.
    pub approvers: HashMap<AccountId, Vec<Reference>>,
    /// Order headers, present only for fully committed orders.
    pub orders: HashMap<Reference, OrderHeader>,
    /// Order line items, present only for fully committed orders.
    pub details: HashMap<Reference, Vec<LineItem>>,
    /// Workflow status, present only for fully committed orders.
    pub status: HashMap<Reference, u16>,
    /// Approval status, born with the reference at submission.
    pub approved: HashMap<Reference, u16>,
    /// The nominated approver of each reference, born with the approval
    /// status; for a committed order it equals the header's approver.
    pub nominated: HashMap<Reference, AccountId>,
    /// Archival flags set through the validating archive entry point.
    pub archived: HashMap<Reference, bool>,
    /// The notifications deposited so far, oldest first.
    pub notifications: Vec<Notification>,
}

/// The decision the approval gate reports for a creator and a nominated
/// approver.
pub open spec fn gate_decision(creator: AccountId, approver: AccountId) -> ApprovalDecision {
    if creator == approver {
        ApprovalDecision::Approved
    } else {
        ApprovalDecision::Pending
    }
}

/// The initial approval status written at submission: approved when
/// the creator is their own approver, pending otherwise.
pub open spec fn initial_approval_code(creator: AccountId, approver: AccountId) -> u16 {
    if creator == approver {
        APPROVAL_APPROVED
    } else {
        APPROVAL_PENDING
    }
}

/// `post` is `pre` with nothing changed but one notification appended:
/// the shape of every rejected validation.
pub open spec fn only_notified(pre: OrderStore, post: OrderStore, n: Notification) -> bool {
    &&& post.owners == pre.owners
    &&& post.beneficiaries == pre.beneficiaries
    &&& post.approvers == pre.approvers
    &&& post.orders == pre.orders
    &&& post.details == pre.details
    &&& post.status == pre.status
    &&& post.approved == pre.approved
    &&& post.nominated == pre.nominated
    &&& post.archived == pre.archived
    &&& post.notifications@ == pre.notifications@.push(n)
}

/// What the approval gate writes: the approver-index linkage and the
/// initial approval status, with every other record untouched.
pub open spec fn gate_recorded(
    pre: OrderStore,
    post: OrderStore,
    creator: AccountId,
    approver: AccountId,
    reference: Reference,
) -> bool {
    &&& index_appended(pre.approvers@, post.approvers@, approver, reference)
    &&& post.approved@ == pre.approved@.insert(reference, initial_approval_code(creator, approver))
    &&& post.nominated@ == pre.nominated@.insert(reference, approver)
    &&& post.owners == pre.owners
    &&& post.beneficiaries == pre.beneficiaries
    &&& post.orders == pre.orders
    &&& post.details == pre.details
    &&& post.status == pre.status
    &&& post.archived == pre.archived
    &&& post.notifications == pre.notifications
}

/// A pending submission: only the approver linkage and a pending
/// approval status were written, a pending-approval notification was
/// emitted, and no ledger-store record exists for the reference.
pub open spec fn pending_recorded(
    pre: OrderStore,
    post: OrderStore,
    creator: AccountId,
    approver: AccountId,
    reference: Reference,
) -> bool {
    &&& index_appended(pre.approvers@, post.approvers@, approver, reference)
    &&& post.approved@ == pre.approved@.insert(reference, APPROVAL_PENDING)
    &&& post.nominated@ == pre.nominated@.insert(reference, approver)
    &&& post.owners == pre.owners
    &&& post.beneficiaries == pre.beneficiaries
    &&& post.orders == pre.orders
    &&& post.details == pre.details
    &&& post.status == pre.status
    &&& post.archived == pre.archived
    &&& post.notifications@ == pre.notifications@.push(
        Notification::OrderCreatedForApproval { creator, approver, reference },
    )
}

/// A fully committed order: approval linkage and approved status, the
/// three ownership index entries, workflow status, header and line items
/// written as one unit, and a creation notification emitted.
pub open spec fn order_committed(
    pre: OrderStore,
    post: OrderStore,
    reference: Reference,
    header: OrderHeader,
    items: Vec<LineItem>,
) -> bool {
    &&& index_appended(pre.approvers@, post.approvers@, header.approver, reference)
    &&& post.approved@ == pre.approved@.insert(reference, APPROVAL_APPROVED)
    &&& post.nominated@ == pre.nominated@.insert(reference, header.approver)
    &&& index_appended(pre.owners@, post.owners@, header.creator, reference)
    &&& index_appended(pre.beneficiaries@, post.beneficiaries@, header.fulfiller, reference)
    &&& post.status@ == pre.status@.insert(reference, WORKFLOW_SUBMITTED)
    &&& post.orders@ == pre.orders@.insert(reference, header)
    &&& post.details@ == pre.details@.insert(reference, items)
    &&& post.archived == pre.archived
    &&& post.notifications@ == pre.notifications@.push(
        Notification::OrderCreated {
            creator: header.creator,
            fulfiller: header.fulfiller,
            reference,
        },
    )
}

/// The header a successful submission stores: the caller-supplied fields
/// with the amount and the two block offsets carried through the exact
/// ledger conversions.
pub open spec fn submitted_header(
    creator: AccountId,
    approver: AccountId,
    fulfiller: AccountId,
    buy_or_sell: u16,
    amount: i128,
    is_open: bool,
    order_type: u16,
    deadline: u64,
    due_date: u64,
) -> OrderHeader {
    OrderHeader {
        creator,
        fulfiller,
        approver,
        buy_or_sell,
        amount: crate::conversions::spec_to_ledger_balance(amount),
        is_open,
        order_type,
        deadline: crate::conversions::spec_to_duration(deadline),
        due_date: crate::conversions::spec_to_duration(due_date),
    }
}

/// Everything a submission may do for a given fresh reference, one case
/// per outcome, in the order the checks run.
pub open spec fn submit_outcome(
    pre: OrderStore,
    post: OrderStore,
    reference: Reference,
    creator: AccountId,
    approver: AccountId,
    fulfiller: AccountId,
    buy_or_sell: u16,
    amount: i128,
    is_open: bool,
    order_type: u16,
    deadline: u64,
    due_date: u64,
    order_items: Vec<LineItem>,
    r: Result<(), OrderError>,
) -> bool {
    if pre.status@.contains_key(reference) {
        &&& r == Err::<(), OrderError>(OrderError::DuplicateReference)
        &&& only_notified(pre, post, Notification::ErrorDuplicateReference { creator, reference })
    } else if !is_open && creator == fulfiller {
        &&& r == Err::<(), OrderError>(OrderError::SelfDealingNotAllowed)
        &&& only_notified(pre, post, Notification::ErrorSelfDealing { creator, reference })
    } else if creator != approver {
        &&& r == Ok::<(), OrderError>(())
        &&& pending_recorded(pre, post, creator, approver, reference)
    } else if creator == fulfiller {
        &&& r == Err::<(), OrderError>(OrderError::BeneficiaryMustDiffer)
        &&& only_notified(
            pre,
            post,
            Notification::ErrorBeneficiaryMustDiffer { creator, reference },
        )
    } else if amount < 0 {
        &&& r == Err::<(), OrderError>(OrderError::NegativeAmount)
        &&& post == pre
    } else {
        ||| {
            &&& r == Ok::<(), OrderError>(())
            &&& order_committed(
                pre,
                post,
                reference,
                submitted_header(
                    creator,
                    approver,
                    fulfiller,
                    buy_or_sell,
                    amount,
                    is_open,
                    order_type,
                    deadline,
                    due_date,
                ),
                order_items,
            )
        }
        ||| {
            &&& (exists|e: EncumbranceError|
                r == Err::<(), OrderError>(OrderError::ReservationFailed(e)))
            &&& post == pre
        }
    }
}

/// Everything an approval call may do, one case per outcome, in the
/// order the checks run.  Existence is judged by the approval status
/// record, which is born with the reference at submission, so a pending
/// order can be approved before its header exists; for a committed order
/// the nominated approver equals the header's stored approver.
pub open spec fn approve_outcome(
    pre: OrderStore,
    post: OrderStore,
    approver: AccountId,
    reference: Reference,
    decision: u16,
    r: Result<(), OrderError>,
) -> bool {
    if !pre.approved@.contains_key(reference) {
        &&& r == Err::<(), OrderError>(OrderError::ReferenceNotFound)
        &&& only_notified(pre, post, Notification::ErrorReferenceNotFound { reference })
    } else if approver != pre.nominated@[reference] {
        &&& r == Err::<(), OrderError>(OrderError::NotTheApprover)
        &&& only_notified(pre, post, Notification::ErrorNotApprover { account: approver, reference })
    } else if decision != APPROVAL_APPROVED && decision != APPROVAL_REJECTED {
        &&& r == Err::<(), OrderError>(OrderError::InvalidStatus)
        &&& only_notified(pre, post, Notification::ErrorApprovalStatus { reference })
    } else {
        &&& r == Ok::<(), OrderError>(())
        &&& post.approved@ == pre.approved@.insert(reference, decision)
        &&& post.owners == pre.owners
        &&& post.beneficiaries == pre.beneficiaries
        &&& post.approvers == pre.approvers
        &&& post.orders == pre.orders
        &&& post.details == pre.details
        &&& post.status == pre.status
        &&& post.nominated == pre.nominated
        &&& post.archived == pre.archived
        &&& post.notifications@ == pre.notifications@.push(
            Notification::OrderStatusUpdate { reference, status: decision },
        )
    }
}

/// Everything the validating archive entry point may do.
pub open spec fn archive_outcome(
    pre: OrderStore,
    post: OrderStore,
    caller: AccountId,
    reference: Reference,
    archive: bool,
    r: Result<(), OrderError>,
) -> bool {
    if !pre.orders@.contains_key(reference) {
        &&& r == Err::<(), OrderError>(OrderError::ReferenceNotFound)
        &&& post == pre
    } else if pre.orders@[reference].creator != caller {
        &&& r == Err::<(), OrderError>(OrderError::NotTheOwner)
        &&& post == pre
    } else {
        &&& r == Ok::<(), OrderError>(())
        &&& post.archived@ == pre.archived@.insert(reference, archive)
        &&& post.owners == pre.owners
        &&& post.beneficiaries == pre.beneficiaries
        &&& post.approvers == pre.approvers
        &&& post.orders == pre.orders
        &&& post.details == pre.details
        &&& post.status == pre.status
        &&& post.approved == pre.approved
        &&& post.nominated == pre.nominated
        &&& post.notifications == pre.notifications
    }
}

/// What `record_approved_order` writes, relative to the store state the
/// approval gate left behind.
pub open spec fn commit_unit_recorded(
    pre: OrderStore,
    post: OrderStore,
    reference: Reference,
    header: OrderHeader,
    items: Vec<LineItem>,
) -> bool {
    &&& index_appended(pre.owners@, post.owners@, header.creator, reference)
    &&& post.status@ == pre.status@.insert(reference, WORKFLOW_SUBMITTED)
    &&& index_appended(pre.beneficiaries@, post.beneficiaries@, header.fulfiller, reference)
    &&& post.orders@ == pre.orders@.insert(reference, header)
    &&& post.details@ == pre.details@.insert(reference, items)
    &&& post.approvers == pre.approvers
    &&& post.approved == pre.approved
    &&& post.nominated == pre.nominated
    &&& post.archived == pre.archived
    &&& post.notifications@ == pre.notifications@.push(
        Notification::OrderCreated {
            creator: header.creator,
            fulfiller: header.fulfiller,
            reference,
        },
    )
}

/// A pending submission preserves the store invariant.
proof fn lemma_pending_preserves_wf(
    pre: OrderStore,
    post: OrderStore,
    creator: AccountId,
    approver: AccountId,
    reference: Reference,
)
    requires
        pre.wf(),
        !pre.status@.contains_key(reference),
        pending_recorded(pre, post, creator, approver, reference),
    ensures
        post.wf(),
{
    assert forall|r2: Reference| #[trigger] post.orders@.contains_key(r2)
        implies post.valid_header(r2) by {
        let h = post.orders@[r2];
        assert(pre.valid_header(r2));
        assert(r2 != reference);
        if h.approver == approver {
            assert(index_list(post.approvers@, approver) == index_list(
                pre.approvers@,
                approver,
            ).push(reference));
        } else {
            assert(index_list(post.approvers@, h.approver) == index_list(
                pre.approvers@,
                h.approver,
            ));
        }
    }
}

/// A full commit preserves the store invariant, provided the header it
/// writes satisfies the header invariant.
proof fn lemma_commit_preserves_wf(
    pre: OrderStore,
    post: OrderStore,
    reference: Reference,
    header: OrderHeader,
    items: Vec<LineItem>,
)
    requires
        pre.wf(),
        order_committed(pre, post, reference, header, items),
        header.creator != header.fulfiller,
        header.amount.amount >= 0,
    ensures
        post.wf(),
{
    assert forall|r2: Reference| #[trigger] post.orders@.contains_key(r2)
        implies post.valid_header(r2) by {
        let h = post.orders@[r2];
        if r2 == reference {
            assert(index_list(post.owners@, header.creator).contains(reference));
            assert(index_list(post.beneficiaries@, header.fulfiller).contains(reference));
            assert(index_list(post.approvers@, header.approver).contains(reference));
        } else {
            assert(pre.orders@.contains_key(r2));
            assert(pre.valid_header(r2));
            if h.creator == header.creator {
                assert(index_list(post.owners@, h.creator) == index_list(
                    pre.owners@,
                    h.creator,
                ).push(reference));
            } else {
                assert(index_list(post.owners@, h.creator) == index_list(pre.owners@, h.creator));
            }
            if h.fulfiller == header.fulfiller {
                assert(index_list(post.beneficiaries@, h.fulfiller) == index_list(
                    pre.beneficiaries@,
                    h.fulfiller,
                ).push(reference));
            } else {
                assert(index_list(post.beneficiaries@, h.fulfiller) == index_list(
                    pre.beneficiaries@,
                    h.fulfiller,
                ));
            }
            if h.approver == header.approver {
                assert(index_list(post.approvers@, h.approver) == index_list(
                    pre.approvers@,
                    h.approver,
                ).push(reference));
            } else {
                assert(index_list(post.approvers@, h.approver) == index_list(
                    pre.approvers@,
                    h.approver,
                ));
            }
        }
    }
}

/// Law: whenever the creator is their own approver, a successful
/// submission has committed the header, the line items, the workflow
/// status and all three index entries in that one call, and no
/// submission of that shape ever emits a pending-approval notification.
pub proof fn lemma_auto_approval_commits(
    pre: OrderStore,
    post: OrderStore,
    reference: Reference,
    creator: AccountId,
    approver: AccountId,
    fulfiller: AccountId,
    buy_or_sell: u16,
    amount: i128,
    is_open: bool,
    order_type: u16,
    deadline: u64,
    due_date: u64,
    order_items: Vec<LineItem>,
    r: Result<(), OrderError>,
)
    requires
        pre.wf(),
        creator == approver,
        submit_outcome(
            pre,
            post,
            reference,
            creator,
            approver,
            fulfiller,
            buy_or_sell,
            amount,
            is_open,
            order_type,
            deadline,
            due_date,
            order_items,
            r,
        ),
    ensures
        r == Ok::<(), OrderError>(()) ==> {
            &&& post.orders@.contains_key(reference)
            &&& post.details@.contains_key(reference)
            &&& post.status@.contains_key(reference)
            &&& post.status@[reference] == WORKFLOW_SUBMITTED
            &&& post.approved@.contains_key(reference)
            &&& post.approved@[reference] == APPROVAL_APPROVED
            &&& index_list(post.owners@, creator).contains(reference)
            &&& index_list(post.beneficiaries@, fulfiller).contains(reference)
            &&& index_list(post.approvers@, approver).contains(reference)
        },
        forall|i: int|
            pre.notifications@.len() <= i < post.notifications@.len()
                ==> !((#[trigger] post.notifications@[i]) is OrderCreatedForApproval),
{
}

/// Law: whenever the approver differs from the creator, a successful
/// submission has emitted a pending-approval notification, recorded the
/// approver linkage and a pending approval status, and left the workflow
/// status absent for the reference, with no header and no line items
/// written.
pub proof fn lemma_pending_stops_short(
    pre: OrderStore,
    post: OrderStore,
    reference: Reference,
    creator: AccountId,
    approver: AccountId,
    fulfiller: AccountId,
    buy_or_sell: u16,
    amount: i128,
    is_open: bool,
    order_type: u16,
    deadline: u64,
    due_date: u64,
    order_items: Vec<LineItem>,
    r: Result<(), OrderError>,
)
    requires
        pre.wf(),
        creator != approver,
        submit_outcome(
            pre,
            post,
            reference,
            creator,
            approver,
            fulfiller,
            buy_or_sell,
            amount,
            is_open,
            order_type,
            deadline,
            due_date,
            order_items,
            r,
        ),
    ensures
        r == Ok::<(), OrderError>(()) ==> {
            &&& post.notifications@ == pre.notifications@.push(
                Notification::OrderCreatedForApproval { creator, approver, reference },
            )
            &&& !post.status@.contains_key(reference)
            &&& post.orders == pre.orders
            &&& post.details == pre.details
            &&& post.status == pre.status
            &&& post.approved@.contains_key(reference)
            &&& post.approved@[reference] == APPROVAL_PENDING
            &&& post.nominated@.contains_key(reference)
            &&& post.nominated@[reference] == approver
            &&& index_list(post.approvers@, approver).contains(reference)
        },
{
}

/// Law: a submission ends in exactly one of three ways: a
/// pending-approval notification with nothing of the order itself
/// stored; a fully committed order with its creation notification; or a
/// reported failure that stores no record at all.
pub proof fn lemma_submit_postcondition(
    pre: OrderStore,
    post: OrderStore,
    reference: Reference,
    creator: AccountId,
    approver: AccountId,
    fulfiller: AccountId,
    buy_or_sell: u16,
    amount: i128,
    is_open: bool,
    order_type: u16,
    deadline: u64,
    due_date: u64,
    order_items: Vec<LineItem>,
    r: Result<(), OrderError>,
)
    requires
        pre.wf(),
        submit_outcome(
            pre,
            post,
            reference,
            creator,
            approver,
            fulfiller,
            buy_or_sell,
            amount,
            is_open,
            order_type,
            deadline,
            due_date,
            order_items,
            r,
        ),
    ensures
        ({
            ||| (r == Ok::<(), OrderError>(()) && pending_recorded(
                pre,
                post,
                creator,
                approver,
                reference,
            ))
            ||| (r == Ok::<(), OrderError>(()) && order_committed(
                pre,
                post,
                reference,
                submitted_header(
                    creator,
                    approver,
                    fulfiller,
                    buy_or_sell,
                    amount,
                    is_open,
                    order_type,
                    deadline,
                    due_date,
                ),
                order_items,
            ))
            ||| (r is Err && post.owners == pre.owners && post.beneficiaries == pre.beneficiaries
                && post.approvers == pre.approvers && post.orders == pre.orders && post.details
                == pre.details && post.status == pre.status && post.approved == pre.approved
                && post.archived == pre.archived)
        }),
        r == Ok::<(), OrderError>(()) ==> (pending_recorded(pre, post, creator, approver, reference)
            <==> creator != approver),
{
}

/// Law: a closed order naming its creator as fulfiller is always refused
/// as self-dealing once its reference is fresh, with only the audit
/// notification emitted; an open order is never refused as self-dealing,
/// whoever its fulfiller is.
pub proof fn lemma_self_dealing_check(
    pre: OrderStore,
    post: OrderStore,
    reference: Reference,
    creator: AccountId,
    approver: AccountId,
    fulfiller: AccountId,
    buy_or_sell: u16,
    amount: i128,
    is_open: bool,
    order_type: u16,
    deadline: u64,
    due_date: u64,
    order_items: Vec<LineItem>,
    r: Result<(), OrderError>,
)
    requires
        pre.wf(),
        submit_outcome(
            pre,
            post,
            reference,
            creator,
            approver,
            fulfiller,
            buy_or_sell,
            amount,
            is_open,
            order_type,
            deadline,
            due_date,
            order_items,
            r,
        ),
    ensures
        (!is_open && creator == fulfiller && !pre.status@.contains_key(reference)) ==> {
            &&& r == Err::<(), OrderError>(OrderError::SelfDealingNotAllowed)
            &&& only_notified(pre, post, Notification::ErrorSelfDealing { creator, reference })
        },
        is_open ==> r != Err::<(), OrderError>(OrderError::SelfDealingNotAllowed),
{
}

/// Law: an approval attempted by an account other than the nominated
/// approver recorded at submission (the header's stored approver, once
/// the order is committed) always fails as not-the-approver and leaves
/// the approval status unchanged, with only the audit notification
/// naming the caller and the reference emitted.
pub proof fn lemma_approval_requires_approver(
    pre: OrderStore,
    post: OrderStore,
    caller: AccountId,
    reference: Reference,
    decision: u16,
    r: Result<(), OrderError>,
)
    requires
        pre.wf(),
        pre.approved@.contains_key(reference),
        caller != pre.nominated@[reference],
        approve_outcome(pre, post, caller, reference, decision, r),
    ensures
        r == Err::<(), OrderError>(OrderError::NotTheApprover),
        post.approved == pre.approved,
        only_notified(pre, post, Notification::ErrorNotApprover { account: caller, reference }),
{
}

/// Law: an approval whose decision is neither accepted nor rejected
/// always fails as an invalid status and leaves the approval status
/// unchanged, with only the audit notification emitted.
pub proof fn lemma_approval_requires_valid_decision(
    pre: OrderStore,
    post: OrderStore,
    caller: AccountId,
    reference: Reference,
    decision: u16,
    r: Result<(), OrderError>,
)
    requires
        pre.wf(),
        pre.approved@.contains_key(reference),
        caller == pre.nominated@[reference],
        decision != APPROVAL_APPROVED,
        decision != APPROVAL_REJECTED,
        approve_outcome(pre, post, caller, reference, decision, r),
    ensures
        r == Err::<(), OrderError>(OrderError::InvalidStatus),
        post.approved == pre.approved,
        only_notified(pre, post, Notification::ErrorApprovalStatus { reference }),
{
}

/// Law: the nominated approver of any submitted reference, pending or
/// committed, can always carry an accept or reject decision: the call
/// succeeds, the approval status becomes that decision, the update
/// notification is emitted, and the workflow status is untouched.
pub proof fn lemma_nominated_approver_can_decide(
    pre: OrderStore,
    post: OrderStore,
    caller: AccountId,
    reference: Reference,
    decision: u16,
    r: Result<(), OrderError>,
)
    requires
        pre.wf(),
        pre.approved@.contains_key(reference),
        caller == pre.nominated@[reference],
        decision == APPROVAL_APPROVED || decision == APPROVAL_REJECTED,
        approve_outcome(pre, post, caller, reference, decision, r),
    ensures
        r == Ok::<(), OrderError>(()),
        post.approved@ == pre.approved@.insert(reference, decision),
        post.approved@[reference] == decision,
        post.status == pre.status,
        post.orders == pre.orders,
        post.notifications@ == pre.notifications@.push(
            Notification::OrderStatusUpdate { reference, status: decision },
        ),
{
}

/// Law: the amount a committed order stores is the exact, reversible
/// ledger-balance conversion of the caller-supplied signed magnitude:
/// recovering the signed value from the stored balance returns the
/// original, and the unsigned magnitude handed to the encumbrance
/// service equals it as well; a negative magnitude on the auto-approved
/// path fails deterministically with nothing stored, never wrapped or
/// truncated.
pub proof fn lemma_stored_amount_round_trip(
    pre: OrderStore,
    post: OrderStore,
    reference: Reference,
    creator: AccountId,
    approver: AccountId,
    fulfiller: AccountId,
    buy_or_sell: u16,
    amount: i128,
    is_open: bool,
    order_type: u16,
    deadline: u64,
    due_date: u64,
    order_items: Vec<LineItem>,
    r: Result<(), OrderError>,
)
    requires
        pre.wf(),
        creator == approver,
        submit_outcome(
            pre,
            post,
            reference,
            creator,
            approver,
            fulfiller,
            buy_or_sell,
            amount,
            is_open,
            order_type,
            deadline,
            due_date,
            order_items,
            r,
        ),
    ensures
        r == Ok::<(), OrderError>(()) ==> {
            &&& amount >= 0
            &&& post.orders@.contains_key(reference)
            &&& crate::conversions::spec_from_ledger_balance(post.orders@[reference].amount)
                == amount
            &&& crate::conversions::spec_to_unsigned(amount) == Ok::<
                u128,
                crate::conversions::ConversionError,
            >(amount as u128)
        },
        (!pre.status@.contains_key(reference) && creator != fulfiller && amount < 0) ==> {
            &&& r == Err::<(), OrderError>(OrderError::NegativeAmount)
            &&& post == pre
        },
{
}

impl OrderStore {
    /// The committed header of `r` is internally consistent, covered by
    /// all three ownership indices, and agrees with the nominated
    /// approver recorded at submission.
    pub open spec fn valid_header(self, r: Reference) -> bool {
        let h = self.orders@[r];
        &&& h.creator != h.fulfiller
        &&& h.amount.amount >= 0
        &&& index_list(self.owners@, h.creator).contains(r)
        &&& index_list(self.beneficiaries@, h.fulfiller).contains(r)
        &&& index_list(self.approvers@, h.approver).contains(r)
        &&& self.nominated@.contains_key(r)
        &&& self.nominated@[r] == h.approver
    }

    /// The store invariant: a reference is never left with some but not
    /// all of header, line items, workflow status and index entries;
    /// every committed order has an approval status; the approval status
    /// and the nominated approver are born together; stored amounts are
    /// the reversible conversion of a non-negative magnitude; and status
    /// codes stay in their domains.
    pub open spec fn wf(self) -> bool {
        &&& forall|r: Reference| #[trigger] self.status@.contains_key(r)
            ==> self.orders@.contains_key(r)
        &&& forall|r: Reference| #[trigger] self.orders@.contains_key(r)
            ==> self.status@.contains_key(r)
        &&& forall|r: Reference| #[trigger] self.status@.contains_key(r)
            ==> self.details@.contains_key(r)
        &&& forall|r: Reference| #[trigger] self.details@.contains_key(r)
            ==> self.status@.contains_key(r)
        &&& forall|r: Reference| #[trigger] self.status@.contains_key(r)
            ==> self.approved@.contains_key(r)
        &&& forall|r: Reference| #[trigger] self.approved@.contains_key(r)
            ==> self.nominated@.contains_key(r)
        &&& forall|r: Reference| #[trigger] self.nominated@.contains_key(r)
            ==> self.approved@.contains_key(r)
        &&& forall|r: Reference| #[trigger] self.status@.contains_key(r) ==> self.status@[r] <= 5
        &&& forall|r: Reference| #[trigger] self.approved@.contains_key(r)
            ==> self.approved@[r] <= 2
        &&& forall|r: Reference| #[trigger] self.orders@.contains_key(r) ==> self.valid_header(r)
    }

    /// The approval gate: registers the approver-index linkage and the
    /// initial approval status unconditionally, then reports whether the
    /// submission may proceed synchronously or must stop after notifying
    /// the approver.  Total over its inputs; no error case.
    pub fn approval_gate(
        &mut self,
        creator: AccountId,
        approver: AccountId,
        reference: Reference,
    ) -> (d: ApprovalDecision)
        ensures
            d == gate_decision(creator, approver),
            gate_recorded(*old(self), *final(self), creator, approver, reference),
    {
        let code: u16 = if creator == approver {
            APPROVAL_APPROVED
        } else {
            APPROVAL_PENDING
        };
        push_index(&mut self.approvers, approver, reference);
        self.approved.insert(reference, code);
        self.nominated.insert(reference, approver);
        if creator == approver {
            ApprovalDecision::Approved
        } else {
            ApprovalDecision::Pending
        }
    }

    /// Writes the commit unit of an approved order: workflow status,
    /// creator and beneficiary index entries, header and line items, and
    /// the creation notification, all in one step.
    fn record_approved_order(
        &mut self,
        reference: Reference,
        header: OrderHeader,
        order_items: Vec<LineItem>,
    )
        ensures
            commit_unit_recorded(*old(self), *final(self), reference, header, order_items),
    {
        push_index(&mut self.owners, header.creator, reference);
        self.status.insert(reference, WORKFLOW_SUBMITTED);
        push_index(&mut self.beneficiaries, header.fulfiller, reference);
        self.orders.insert(reference, header);
        self.details.insert(reference, order_items);
        self.notifications.push(
            Notification::OrderCreated {
                creator: header.creator,
                fulfiller: header.fulfiller,
                reference,
            },
        );
    }

    /// Creates an order against a caller-supplied fresh reference.
    ///
    /// The checks run strictly in order: a duplicate reference is
    /// refused; a closed order naming its creator as fulfiller is
    /// refused; a submission whose approver is not the creator records
    /// only the approval linkage and stops after notifying; an
    /// auto-approved submission converts its amount and deadlines,
    /// reserves the funds through the encumbrance service, and only then
    /// commits header, line items, workflow status and indices as one
    /// unit.  A failed submission leaves every record as it was.
    pub fn submit_order_with_reference<E: EncumbranceService>(
        &mut self,
        funding: &mut E,
        reference: Reference,
        creator: AccountId,
        approver: AccountId,
        fulfiller: AccountId,
        buy_or_sell: u16,
        amount: i128,
        is_open: bool,
        order_type: u16,
        deadline: u64,
        due_date: u64,
        order_items: Vec<LineItem>,
    ) -> (r: Result<(), OrderError>)
        requires
            old(self).wf(),
        ensures
            final(self).wf(),
            submit_outcome(
                *old(self),
                *final(self),
                reference,
                creator,
                approver,
                fulfiller,
                buy_or_sell,
                amount,
                is_open,
                order_type,
                deadline,
                due_date,
                order_items,
                r,
            ),
    {
        if self.status.contains_key(&reference) {
            self.notifications.push(
                Notification::ErrorDuplicateReference { creator, reference },
            );
            return Err(OrderError::DuplicateReference);
        }
        if !is_open && creator == fulfiller {
            self.notifications.push(Notification::ErrorSelfDealing { creator, reference });
            return Err(OrderError::SelfDealingNotAllowed);
        }
        if creator != approver {
            match self.approval_gate(creator, approver, reference) {
                ApprovalDecision::Pending => {
                    self.notifications.push(
                        Notification::OrderCreatedForApproval { creator, approver, reference },
                    );
                    proof {
                        lemma_pending_preserves_wf(*old(self), *self, creator, approver, reference);
                    }
                    return Ok(());
                },
                ApprovalDecision::Approved => {
                    return unreached();
                },
            }
        }
        if creator == fulfiller {
            self.notifications.push(
                Notification::ErrorBeneficiaryMustDiffer { creator, reference },
            );
            return Err(OrderError::BeneficiaryMustDiffer);
        }
        let unsigned_amount: u128 = match to_unsigned(amount) {
            Ok(u) => u,
            Err(_) => {
                return Err(OrderError::NegativeAmount);
            },
        };
        let balance: LedgerBalance = to_ledger_balance(amount);
        let deadline_block: BlockNumber = to_duration(deadline);
        let due_date_block: BlockNumber = to_duration(due_date);
        let header = OrderHeader {
            creator,
            fulfiller,
            approver,
            buy_or_sell,
            amount: balance,
            is_open,
            order_type,
            deadline: deadline_block,
            due_date: due_date_block,
        };
        let reservation = funding.reserve(creator, fulfiller, unsigned_amount, deadline_block);
        self.record_reservation_outcome(reservation, reference, header, order_items)
    }

    /// What follows the fund reservation of an auto-approved submission:
    /// the order is committed as one unit when the reservation was
    /// granted, and the refusal is surfaced verbatim, with nothing
    /// stored, when it was not.
    pub fn record_reservation_outcome(
        &mut self,
        reservation: Result<(), EncumbranceError>,
        reference: Reference,
        header: OrderHeader,
        order_items: Vec<LineItem>,
    ) -> (r: Result<(), OrderError>)
        requires
            old(self).wf(),
            header.creator == header.approver,
            header.creator != header.fulfiller,
            header.amount.amount >= 0,
        ensures
            final(self).wf(),
            match reservation {
                Ok(_) => r == Ok::<(), OrderError>(()) && order_committed(
                    *old(self),
                    *final(self),
                    reference,
                    header,
                    order_items,
                ),
                Err(e) => r == Err::<(), OrderError>(OrderError::ReservationFailed(e))
                    && *final(self) == *old(self),
            },
    {
        let e = match reservation {
            Ok(_) => {
                match self.approval_gate(header.creator, header.approver, reference) {
                    ApprovalDecision::Approved => {},
                    ApprovalDecision::Pending => {
                        return unreached();
                    },
                }
                self.record_approved_order(reference, header, order_items);
                proof {
                    lemma_commit_preserves_wf(*old(self), *self, reference, header, order_items);
                }
                return Ok(());
            },
            Err(e) => e,
        };
        Err(OrderError::ReservationFailed(e))
    }

    /// Creates an order: derives a fresh reference from the creator and
    /// the approver through the reference source, then submits against
    /// it.  The emitted notification carries the derived reference.
    pub fn submit_order<G: ReferenceSource, E: EncumbranceService>(
        &mut self,
        references: &mut G,
        funding: &mut E,
        creator: AccountId,
        approver: AccountId,
        fulfiller: AccountId,
        buy_or_sell: u16,
        amount: i128,
        is_open: bool,
        order_type: u16,
        deadline: u64,
        due_date: u64,
        order_items: Vec<LineItem>,
    ) -> (r: Result<(), OrderError>)
        requires
            old(self).wf(),
        ensures
            final(self).wf(),
            exists|reference: Reference|
                submit_outcome(
                    *old(self),
                    *final(self),
                    reference,
                    creator,
                    approver,
                    fulfiller,
                    buy_or_sell,
                    amount,
                    is_open,
                    order_type,
                    deadline,
                    due_date,
                    order_items,
                    r,
                ),
    {
        let reference = references.new_reference(creator, approver);
        let r = self.submit_order_with_reference(
            funding,
            reference,
            creator,
            approver,
            fulfiller,
            buy_or_sell,
            amount,
            is_open,
            order_type,
            deadline,
            due_date,
            order_items,
        );
        r
    }

    /// Replaces the approval status of a submitted order with the
    /// approver's decision.
    ///
    /// The reference must carry an approval status record, which every
    /// submission creates, so a pending order can be approved before its
    /// header is born; the caller must be the nominated approver
    /// recorded at submission, the header's stored approver for a
    /// committed order; and the decision must be accepted or rejected.
    /// Each failed check emits its audit notification and changes
    /// nothing.  On success the approval status is removed and
    /// reinserted with the decision, and an update notification is
    /// emitted; the workflow status is never touched.
    pub fn approve_order(
        &mut self,
        approver: AccountId,
        reference: Reference,
        decision: u16,
    ) -> (r: Result<(), OrderError>)
        requires
            old(self).wf(),
        ensures
            final(self).wf(),
            approve_outcome(*old(self), *final(self), approver, reference, decision, r),
    {
        let nominated_approver: AccountId = match self.nominated.get(&reference) {
            Some(a) => *a,
            None => {
                self.notifications.push(Notification::ErrorReferenceNotFound { reference });
                return Err(OrderError::ReferenceNotFound);
            },
        };
        if approver != nominated_approver {
            self.notifications.push(
                Notification::ErrorNotApprover { account: approver, reference },
            );
            return Err(OrderError::NotTheApprover);
        }
        if decision != APPROVAL_APPROVED && decision != APPROVAL_REJECTED {
            self.notifications.push(Notification::ErrorApprovalStatus { reference });
            return Err(OrderError::InvalidStatus);
        }
        self.approved.remove(&reference);
        self.approved.insert(reference, decision);
        self.notifications.push(Notification::OrderStatusUpdate { reference, status: decision });
        proof {
            assert(self.approved@ =~= old(self).approved@.insert(reference, decision));
        }
        Ok(())
    }

    /// The orders the account created, if it created any.
    pub fn owner(&self, account: AccountId) -> (r: Option<&Vec<Reference>>)
        ensures
            match r {
                Some(list) => self.owners@.contains_key(account) && list@ == index_list(
                    self.owners@,
                    account,
                ),
                None => !self.owners@.contains_key(account),
            },
    {
        self.owners.get(&account)
    }

    /// The orders the account is to fulfil, if there are any.
    pub fn beneficiary(&self, account: AccountId) -> (r: Option<&Vec<Reference>>)
        ensures
            match r {
                Some(list) => self.beneficiaries@.contains_key(account) && list@ == index_list(
                    self.beneficiaries@,
                    account,
                ),
                None => !self.beneficiaries@.contains_key(account),
            },
    {
        self.beneficiaries.get(&account)
    }

    /// The orders the account is to approve, if there are any.
    pub fn approver(&self, account: AccountId) -> (r: Option<&Vec<Reference>>)
        ensures
            match r {
                Some(list) => self.approvers@.contains_key(account) && list@ == index_list(
                    self.approvers@,
                    account,
                ),
                None => !self.approvers@.contains_key(account),
            },
    {
        self.approvers.get(&account)
    }

    /// The header of a committed order, if the reference names one.
    pub fn order(&self, reference: Reference) -> (r: Option<OrderHeader>)
        ensures
            match r {
                Some(h) => self.orders@.contains_key(reference) && h == self.orders@[reference],
                None => !self.orders@.contains_key(reference),
            },
    {
        match self.orders.get(&reference) {
            Some(h) => Some(*h),
            None => None,
        }
    }

    /// The line items of a committed order, if the reference names one.
    pub fn details(&self, reference: Reference) -> (r: Option<&Vec<LineItem>>)
        ensures
            match r {
                Some(items) => self.details@.contains_key(reference) && items@
                    == self.details@[reference]@,
                None => !self.details@.contains_key(reference),
            },
    {
        self.details.get(&reference)
    }

    /// The workflow status of a committed order, if the reference names
    /// one.
    pub fn status(&self, reference: Reference) -> (r: Option<u16>)
        ensures
            match r {
                Some(s) => self.status@.contains_key(reference) && s == self.status@[reference],
                None => !self.status@.contains_key(reference),
            },
    {
        match self.status.get(&reference) {
            Some(s) => Some(*s),
            None => None,
        }
    }

    /// The approval status recorded for a reference, if any.
    pub fn approved(&self, reference: Reference) -> (r: Option<u16>)
        ensures
            match r {
                Some(s) => self.approved@.contains_key(reference) && s
                    == self.approved@[reference],
                None => !self.approved@.contains_key(reference),
            },
    {
        match self.approved.get(&reference) {
            Some(s) => Some(*s),
            None => None,
        }
    }

    /// The nominated approver recorded for a reference, if any.
    pub fn nominated_approver(&self, reference: Reference) -> (r: Option<AccountId>)
        ensures
            match r {
                Some(a) => self.nominated@.contains_key(reference) && a
                    == self.nominated@[reference],
                None => !self.nominated@.contains_key(reference),
            },
    {
        match self.nominated.get(&reference) {
            Some(a) => Some(*a),
            None => None,
        }
    }

    /// The archival flag recorded for a reference, if any.
    pub fn archived(&self, reference: Reference) -> (r: Option<bool>)
        ensures
            match r {
                Some(b) => self.archived@.contains_key(reference) && b
                    == self.archived@[reference],
                None => !self.archived@.contains_key(reference),
            },
    {
        match self.archived.get(&reference) {
            Some(b) => Some(*b),
            None => None,
        }
    }

    /// The validating archive entry point: flags an order record as
    /// archived, or restores it, on behalf of its creator alone.
    pub fn validate_and_archive(
        &mut self,
        caller: AccountId,
        reference: Reference,
        archive: bool,
    ) -> (r: Result<(), OrderError>)
        requires
            old(self).wf(),
        ensures
            final(self).wf(),
            archive_outcome(*old(self), *final(self), caller, reference, archive, r),
    {
        let owns: bool = match self.orders.get(&reference) {
            Some(h) => h.creator == caller,
            None => {
                return Err(OrderError::ReferenceNotFound);
            },
        };
        if !owns {
            return Err(OrderError::NotTheOwner);
        }
        self.archived.insert(reference, archive);
        Ok(())
    }

    /// An order store with no records and no notifications.
    pub fn new() -> (s: OrderStore)
        ensures
            s.owners@ == Map::<AccountId, Vec<Reference>>::empty(),
            s.beneficiaries@ == Map::<AccountId, Vec<Reference>>::empty(),
            s.approvers@ == Map::<AccountId, Vec<Reference>>::empty(),
            s.orders@ == Map::<Reference, OrderHeader>::empty(),
            s.details@ == Map::<Reference, Vec<LineItem>>::empty(),
            s.status@ == Map::<Reference, u16>::empty(),
            s.approved@ == Map::<Reference, u16>::empty(),
            s.nominated@ == Map::<Reference, AccountId>::empty(),
            s.archived@ == Map::<Reference, bool>::empty(),
            s.notifications@ == Seq::<Notification>::empty(),
    {
        OrderStore {
            owners: HashMap::new(),
            beneficiaries: HashMap::new(),
            approvers: HashMap::new(),
            orders: HashMap::new(),
            details: HashMap::new(),
            status: HashMap::new(),
            approved: HashMap::new(),
            nominated: HashMap::new(),
            archived: HashMap::new(),
            notifications: Vec::new(),
        }
    }
}

} // verus!

