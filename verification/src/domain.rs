//! Ground types of the escrow engine and its error taxonomy.

use vstd::prelude::*;

verus! {

/// Identity of an account or of a token contract on the host ledger.
pub type AccountId = u64;

/// Unsigned magnitude of a token amount.
pub type Balance = u128;

/// Monotonically increasing chain counter (block height or timestamp).
pub type BlockNumber = u64;

/// Every public operation reports failure through one of these variants.
///
/// Callers can tell "retry with different parameters" (`InsufficientBalance`,
/// `SwapExpired`) from "this token integration is broken" (`TransferFailed`,
/// `CallFailed`) from "caller not entitled" (`Unauthorized`).
#[derive(Debug, Clone, Copy, PartialEq, Eq, Structural)]
pub enum Error {
    /// An accessor targeted a swap identifier absent from the registry.
    SwapNotFound,
    /// A balance was short of a required amount, a fill overshot the offer,
    /// or a balance query was rejected by the token contract.
    InsufficientBalance,
    /// The caller is not entitled to the attempted operation.
    Unauthorized,
    /// The current chain counter has passed the swap's expiration.
    SwapExpired,
    /// A token sub-call executed but the callee rejected the transfer.
    TransferFailed,
    /// A sub-call could not be executed or dispatched at all; this also
    /// covers resource-ceiling exhaustion and arithmetic overflow.
    CallFailed,
    /// The delegate call could not be dispatched.
    DelegateFailed,
    /// The delegate executed but reported failure.
    DelegateFunctionFailed,
}

} // verus!
