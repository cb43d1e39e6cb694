//! The swap record: a bilateral token-exchange offer awaiting fulfillment
//! or cancellation.

use vstd::prelude::*;

use crate::domain::{AccountId, Balance, BlockNumber};

verus! {

/// A stored offer: the creator escrows `amount_a` of `token_a` and asks for
/// `amount_b` of `token_b` in return.
///
/// `accepted_a` and `accepted_b` are the cumulative amounts already fulfilled
/// on each leg; both start at zero and never exceed the offered amounts while
/// the record is stored. `allowed_acceptor` optionally restricts who may
/// accept; `None` means any identity may accept.
#[derive(Debug, Clone, Copy, PartialEq, Eq, Structural)]
pub struct Swap {
    /// Identity that created the offer and owns cancellation rights.
    pub creator: AccountId,
    /// Token contract whose units the creator offers.
    pub token_a: AccountId,
    /// Token contract whose units the creator requests.
    pub token_b: AccountId,
    /// Full amount of token A the creator is offering.
    pub amount_a: Balance,
    /// Full amount of token B the creator is requesting.
    pub amount_b: Balance,
    /// Chain counter value past which the swap can no longer be accepted.
    pub expiration: BlockNumber,
    /// Cumulative amount of token A already released to acceptors.
    pub accepted_a: Balance,
    /// Cumulative amount of token B already delivered to the creator.
    pub accepted_b: Balance,
    /// Optional restriction on who may accept the offer.
    pub allowed_acceptor: Option<AccountId>,
}

/// Well-formedness of a stored record: the cumulative fills never exceed the
/// offered and requested amounts.
pub open spec fn swap_wf(s: Swap) -> bool {
    s.accepted_a <= s.amount_a && s.accepted_b <= s.amount_b
}

/// The portion of the escrowed token A still in custody: what was escrowed at
/// creation minus what fulfillment has already released to acceptors.
pub open spec fn escrow_remaining(s: Swap) -> Balance
    recommends
        swap_wf(s),
{
    (s.amount_a - s.accepted_a) as Balance
}

/// The record stored for a fresh offer: nothing fulfilled yet.
pub open spec fn fresh_swap(
    creator: AccountId,
    token_a: AccountId,
    token_b: AccountId,
    amount_a: Balance,
    amount_b: Balance,
    expiration: BlockNumber,
    allowed_acceptor: Option<AccountId>,
) -> Swap {
    Swap {
        creator,
        token_a,
        token_b,
        amount_a,
        amount_b,
        expiration,
        accepted_a: 0,
        accepted_b: 0,
        allowed_acceptor,
    }
}

/// The record after a fill of `fill_a` and `fill_b` has been applied.
pub open spec fn filled_swap(s: Swap, fill_a: Balance, fill_b: Balance) -> Swap
    recommends
        s.accepted_a + fill_a <= s.amount_a,
        s.accepted_b + fill_b <= s.amount_b,
{
    Swap {
        accepted_a: (s.accepted_a + fill_a) as Balance,
        accepted_b: (s.accepted_b + fill_b) as Balance,
        ..s
    }
}

/// A fill of `fill_a` and `fill_b` completes the offer exactly.
pub open spec fn fill_completes(s: Swap, fill_a: Balance, fill_b: Balance) -> bool {
    s.accepted_a + fill_a == s.amount_a && s.accepted_b + fill_b == s.amount_b
}

} // verus!
