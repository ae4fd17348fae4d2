//! The error taxonomy of the reward economy. Every failure is reported
//! synchronously and aborts the triggering transition with no state mutation.

use vstd::prelude::*;

verus! {

/// Why a transition was rejected.
#[derive(Clone, Copy, Debug, PartialEq, Eq, Structural)]
pub enum SolCreatorError {
    /// The record to create already exists.
    AlreadyInitialized,
    /// No record is stored at the claimed address.
    NotFound,
    /// The address re-derived from a record's own stored fields disagrees
    /// with the claimed address.
    AddressMismatch,
    /// The caller is not the record's owner or the economy's authority.
    Unauthorized,
    /// A counter addition would exceed the representable range.
    ArithmeticOverflow,
    /// The redeemable amount is zero.
    NoRewardsToClaim,
    /// The token-transfer collaborator rejected the transfer.
    SettlementFailed,
}

} // verus!
