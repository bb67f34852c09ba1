//! Plain value types shared by the order and project modules.

use vstd::prelude::*;

verus! {

/// An account identity on the ledger.
pub type AccountId = u64;

/// A content-derived identifier naming one order; the key for all other
/// order records.
pub type Reference = u64;

/// An identifier naming a product on an order line item.
pub type ProductId = u64;

/// An identifier naming one project record.
pub type ProjectHash = u64;

/// A monetary amount in the ledger's own balance representation.
#[derive(Clone, Copy, Debug, PartialEq, Eq, Structural)]
pub struct LedgerBalance {
    pub amount: i128,
}

/// A point in time measured in block heights, the ledger's duration type.
#[derive(Clone, Copy, Debug, PartialEq, Eq, Structural)]
pub struct BlockNumber {
    pub blocks: u64,
}

} // verus!
