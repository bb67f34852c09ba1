//! Generic record archiving: dispatches an archive request from a signed
//! caller to the module that owns the record type, and deposits the
//! archival notification on success.

use vstd::prelude::*;

use crate::orders::{Notification, OrderStore};
use crate::types::{AccountId, Reference};

verus! {

/// The record-type code whose archive handling the order store owns.
pub const ORDER_RECORD_TYPE: u16 = 4000;

/// Why an archive request was rejected.
#[derive(Clone, Copy, Debug, PartialEq, Eq, Structural)]
pub enum ArchiveError {
    /// The record type names no module with archive handling here.
    UnknownRecordType,
    /// The owning module refused: the record does not exist, or the
    /// caller does not own it.
    CannotArchive,
}

/// Everything an archive request may do, dispatching on the record type.
pub open spec fn archive_record_outcome(
    pre: OrderStore,
    post: OrderStore,
    caller: AccountId,
    record_type: u16,
    record_hash: Reference,
    archive: bool,
    r: Result<(), ArchiveError>,
) -> bool {
    if record_type != ORDER_RECORD_TYPE {
        &&& r == Err::<(), ArchiveError>(ArchiveError::UnknownRecordType)
        &&& post == pre
    } else if !(pre.orders@.contains_key(record_hash) && pre.orders@[record_hash].creator
        == caller) {
        &&& r == Err::<(), ArchiveError>(ArchiveError::CannotArchive)
        &&& post == pre
    } else {
        &&& r == Ok::<(), ArchiveError>(())
        &&& post.archived@ == pre.archived@.insert(record_hash, archive)
        &&& post.owners == pre.owners
        &&& post.beneficiaries == pre.beneficiaries
        &&& post.approvers == pre.approvers
        &&& post.orders == pre.orders
        &&& post.details == pre.details
        &&& post.status == pre.status
        &&& post.approved == pre.approved
        &&& post.notifications@ == pre.notifications@.push(
            Notification::RecordArchived {
                record_type: ORDER_RECORD_TYPE,
                account: caller,
                reference: record_hash,
                archived: archive,
            },
        )
    }
}

/// Archives or restores one record for a signed caller: the request is
/// dispatched to the module owning the record type, which validates that
/// the caller owns the record before flagging it.
pub fn archive_record(
    store: &mut OrderStore,
    caller: AccountId,
    record_type: u16,
    record_hash: Reference,
    archive: bool,
) -> (r: Result<(), ArchiveError>)
    requires
        old(store).wf(),
    ensures
        final(store).wf(),
        archive_record_outcome(*old(store), *final(store), caller, record_type, record_hash, archive, r),
{
    if record_type != ORDER_RECORD_TYPE {
        return Err(ArchiveError::UnknownRecordType);
    }
    match store.validate_and_archive(caller, record_hash, archive) {
        Ok(_) => {},
        Err(_) => {
            return Err(ArchiveError::CannotArchive);
        },
    }
    store.notifications.push(
        Notification::RecordArchived {
            record_type: ORDER_RECORD_TYPE,
            account: caller,
            reference: record_hash,
            archived: archive,
        },
    );
    Ok(())
}

} // verus!
