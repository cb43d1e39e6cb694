//! Stateless authorization predicates over (caller, swap record, operation).

use vstd::prelude::*;

use crate::domain::AccountId;
use crate::swap::Swap;

verus! {

/// Only the creator of a swap may cancel it.
pub open spec fn cancel_allowed(caller: AccountId, s: Swap) -> bool {
    caller == s.creator
}

/// If the record restricts acceptance to one identity, only that identity
/// may accept; otherwise anyone may.
pub open spec fn accept_allowed(caller: AccountId, s: Swap) -> bool {
    match s.allowed_acceptor {
        Some(allowed) => caller == allowed,
        None => true,
    }
}

/// Decides whether `caller` may cancel the swap `s`.
pub fn may_cancel(caller: AccountId, s: &Swap) -> (r: bool)
    ensures
        r == cancel_allowed(caller, *s),
{
    caller == s.creator
}

/// Decides whether `caller` may accept (fill) the swap `s`.
pub fn may_accept(caller: AccountId, s: &Swap) -> (r: bool)
    ensures
        r == accept_allowed(caller, *s),
{
    match s.allowed_acceptor {
        Some(allowed) => caller == allowed,
        None => true,
    }
}

} // verus!
