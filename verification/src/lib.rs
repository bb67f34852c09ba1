//! A ledger-backed order lifecycle library.
//!
//! Orders are created between a creator, a nominated approver and a
//! fulfiller, prefunded through an encumbrance service, and then approved,
//! all against an explicit key-value order store.  Verified contracts pin
//! down exactly which records every operation writes and which
//! notifications it emits.

pub mod archive;
pub mod conversions;
pub mod orders;
pub mod projects;
pub mod store;
pub mod types;
