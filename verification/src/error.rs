//! The error taxonomy shared by the three operations.

use vstd::prelude::*;

verus! {

/// Why an operation was rejected. Every operation is all-or-nothing: on
/// any of these, no state change persists.
#[derive(Clone, Copy, Debug, PartialEq, Eq, Structural)]
pub enum EscrowError {
    /// The derived escrow record (or vault) address is already in use.
    AlreadyExists,
    /// A source holding lacks the amount to transfer.
    InsufficientFunds,
    /// A holding tracks a different asset than the one declared.
    AssetMismatch,
    /// A supplied account does not recompute to the expected derived
    /// address, or no derivation exists for the given inputs.
    DerivationMismatch,
    /// The signer is not allowed to move the funds in question.
    Unauthorized,
    /// An account that the operation needs does not exist (for the escrow
    /// record or vault: already consumed, or never created).
    NotFound,
}

} // verus!
