//! The conversion adapter: lossless conversions among the signed wide
//! integer supplied by callers, the unsigned magnitude required by the
//! encumbrance service, the ledger's balance representation, and the
//! ledger's block-time duration type.

use vstd::prelude::*;

use crate::types::{BlockNumber, LedgerBalance};

verus! {

/// Why a numeric conversion was refused.
#[derive(Clone, Copy, Debug, PartialEq, Eq, Structural)]
pub enum ConversionError {
    /// A negative amount cannot be turned into an unsigned magnitude.
    NegativeAmount,
}

/// What `to_unsigned` returns for a given signed amount.
pub open spec fn spec_to_unsigned(amount: i128) -> Result<u128, ConversionError> {
    if amount >= 0 {
        Ok(amount as u128)
    } else {
        Err(ConversionError::NegativeAmount)
    }
}

/// What `to_ledger_balance` returns for a given signed amount.
pub open spec fn spec_to_ledger_balance(amount: i128) -> LedgerBalance {
    LedgerBalance { amount }
}

/// What `from_ledger_balance` returns for a given balance.
pub open spec fn spec_from_ledger_balance(balance: LedgerBalance) -> i128 {
    balance.amount
}

/// What `to_duration` returns for a given block offset.
pub open spec fn spec_to_duration(blocks: u64) -> BlockNumber {
    BlockNumber { blocks }
}

/// Converts a signed amount to the unsigned magnitude the encumbrance
/// service reserves; a negative amount is refused, never wrapped.
pub fn to_unsigned(amount: i128) -> (r: Result<u128, ConversionError>)
    ensures
        r == spec_to_unsigned(amount),
{
    if amount >= 0 {
        Ok(amount as u128)
    } else {
        Err(ConversionError::NegativeAmount)
    }
}

/// Converts a signed amount to the ledger's balance representation;
/// total and exact.
pub fn to_ledger_balance(amount: i128) -> (r: LedgerBalance)
    ensures
        r == spec_to_ledger_balance(amount),
{
    LedgerBalance { amount }
}

/// Recovers the signed amount from the ledger's balance representation;
/// total and exact.
pub fn from_ledger_balance(balance: LedgerBalance) -> (r: i128)
    ensures
        r == spec_from_ledger_balance(balance),
{
    balance.amount
}

/// Converts a block-height offset to the ledger's duration type; total
/// and exact.
pub fn to_duration(blocks: u64) -> (r: BlockNumber)
    ensures
        r == spec_to_duration(blocks),
{
    BlockNumber { blocks }
}

/// Law: converting a non-negative signed amount to its unsigned magnitude
/// succeeds with the same value, and converting it to the ledger's balance
/// representation and back returns the original amount; a negative amount
/// fails the unsigned conversion deterministically, and is never wrapped
/// or truncated.
pub proof fn lemma_conversion_round_trip(amount: i128)
    ensures
        amount >= 0 ==> spec_to_unsigned(amount) == Ok::<u128, ConversionError>(amount as u128)
            && (amount as u128) as int == amount as int,
        amount >= 0 ==> spec_from_ledger_balance(spec_to_ledger_balance(amount)) == amount,
        amount < 0 ==> spec_to_unsigned(amount) == Err::<u128, ConversionError>(
            ConversionError::NegativeAmount,
        ),
{
}

/// Law: the balance conversion is exact and reversible for every signed
/// amount, negative amounts included.
pub proof fn lemma_balance_conversion_exact(amount: i128, balance: LedgerBalance)
    ensures
        spec_from_ledger_balance(spec_to_ledger_balance(amount)) == amount,
        spec_to_ledger_balance(spec_from_ledger_balance(balance)) == balance,
{
}

} // verus!
