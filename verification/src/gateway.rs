//! Capability boundary to any token contract.
//!
//! The engine never reaches a token ledger directly: every balance query and
//! transfer goes through the [`TokenGateway`] trait. Its contract states how
//! a conforming token must react — what a successful transfer does to the
//! balances, that a failed call leaves them untouched, and which error kinds
//! may surface — without promising that any particular call succeeds, since
//! the callee is an untrusted external contract.
//!
//! The effect of a transfer is written as a signed delta applied to every
//! (token, account) balance. That form stays exact even when the two ends of
//! a transfer alias each other (a self-transfer moves nothing).

use vstd::prelude::*;

use crate::domain::{AccountId, Balance, Error};

verus! {

/// Signed change that moving `amount` of `token` from `from` to `to` applies
/// to the balance of `account` in `held_token`.
pub open spec fn transfer_delta(
    held_token: AccountId,
    account: AccountId,
    token: AccountId,
    from: AccountId,
    to: AccountId,
    amount: Balance,
) -> int {
    (if held_token == token && account == from {
        -(amount as int)
    } else {
        0
    }) + (if held_token == token && account == to {
        amount as int
    } else {
        0
    })
}

/// Signed change that pulling `amount` of `token` out of `owner`'s approval
/// applies to the allowance `owner` granted for `held_token`.
pub open spec fn allowance_delta(
    held_token: AccountId,
    held_owner: AccountId,
    token: AccountId,
    owner: AccountId,
    amount: Balance,
) -> int {
    if held_token == token && held_owner == owner {
        -(amount as int)
    } else {
        0
    }
}

/// Capability surface required of any token integration.
///
/// `bal` and `allowance` are the gateway's view of the token contracts'
/// ledgers; `allowance` is the amount an owner has approved the escrow's
/// custodian to pull. Every call is synchronous and resource-bounded; a call
/// that cannot be executed surfaces `CallFailed`, one that executes but is
/// rejected by the callee surfaces `TransferFailed` (or
/// `InsufficientBalance` for balance queries).
pub trait TokenGateway: Sized {
    /// The balance of `account` in the token contract `token`.
    spec fn bal(&self, token: AccountId, account: AccountId) -> Balance;

    /// The amount `owner` approved the escrow's custodian to pull from the
    /// token contract `token`.
    spec fn allowance(&self, token: AccountId, owner: AccountId) -> Balance;

    /// Queries the balance of `account` in `token`. A successful answer is
    /// the true balance; the query itself may fail.
    fn balance_of(&self, token: AccountId, account: AccountId) -> (r: Result<Balance, Error>)
        ensures
            r matches Ok(b) ==> b == self.bal(token, account),
            r matches Err(e) ==> e == Error::InsufficientBalance || e == Error::CallFailed,
    ;

    /// Pushes `amount` of `token` from `from` to `to`. On success `from` had
    /// the funds and every balance moved by exactly the transfer's delta (so
    /// all untouched accounts and tokens kept their balances); on failure
    /// nothing moved.
    fn transfer(
        &mut self,
        token: AccountId,
        from: AccountId,
        to: AccountId,
        amount: Balance,
    ) -> (r: Result<(), Error>)
        ensures
            r is Ok ==> old(self).bal(token, from) >= amount,
            r is Ok ==> forall|t: AccountId, x: AccountId| #[trigger] final(self).bal(t, x)
                == old(self).bal(t, x) + transfer_delta(t, x, token, from, to, amount),
            r is Err ==> forall|t: AccountId, x: AccountId| #[trigger] final(self).bal(t, x)
                == old(self).bal(t, x),
            forall|t: AccountId, o: AccountId| #[trigger] final(self).allowance(t, o) == old(
                self,
            ).allowance(t, o),
            r matches Err(e) ==> e == Error::TransferFailed || e == Error::CallFailed,
    ;

    /// Pulls `amount` of `token` from `owner` to `to`, consuming a prior
    /// approval. On success `owner` had both the funds and an approval
    /// covering `amount`, the balances moved by the transfer's delta, and
    /// the approval was consumed by `amount`; on failure nothing moved.
    fn transfer_from(
        &mut self,
        token: AccountId,
        owner: AccountId,
        to: AccountId,
        amount: Balance,
    ) -> (r: Result<(), Error>)
        ensures
            r is Ok ==> old(self).bal(token, owner) >= amount && old(self).allowance(token, owner)
                >= amount,
            r is Ok ==> forall|t: AccountId, x: AccountId| #[trigger] final(self).bal(t, x)
                == old(self).bal(t, x) + transfer_delta(t, x, token, owner, to, amount),
            r is Ok ==> forall|t: AccountId, o: AccountId| #[trigger] final(self).allowance(t, o)
                == old(self).allowance(t, o) + allowance_delta(t, o, token, owner, amount),
            r is Err ==> forall|t: AccountId, x: AccountId| #[trigger] final(self).bal(t, x)
                == old(self).bal(t, x),
            r is Err ==> forall|t: AccountId, o: AccountId| #[trigger] final(self).allowance(t, o)
                == old(self).allowance(t, o),
            r matches Err(e) ==> e == Error::TransferFailed || e == Error::CallFailed,
    ;
}

/// No balance changed between the two gateway states.
pub open spec fn balances_unchanged<G: TokenGateway>(pre: G, post: G) -> bool {
    forall|t: AccountId, x: AccountId| #[trigger] post.bal(t, x) == pre.bal(t, x)
}

/// No allowance changed between the two gateway states.
pub open spec fn allowances_unchanged<G: TokenGateway>(pre: G, post: G) -> bool {
    forall|t: AccountId, o: AccountId| #[trigger] post.allowance(t, o) == pre.allowance(t, o)
}

/// Neither balances nor allowances changed between the two gateway states.
pub open spec fn gateway_unchanged<G: TokenGateway>(pre: G, post: G) -> bool {
    balances_unchanged(pre, post) && allowances_unchanged(pre, post)
}

/// A push transfer of `amount` of `token` from `from` to `to` went through:
/// `from` had the funds, every balance moved by exactly the transfer's
/// delta, and no allowance changed.
pub open spec fn balances_transferred<G: TokenGateway>(
    pre: G,
    post: G,
    token: AccountId,
    from: AccountId,
    to: AccountId,
    amount: Balance,
) -> bool {
    &&& pre.bal(token, from) >= amount
    &&& forall|t: AccountId, x: AccountId| #[trigger] post.bal(t, x) == pre.bal(t, x)
        + transfer_delta(t, x, token, from, to, amount)
    &&& allowances_unchanged(pre, post)
}

/// A pull transfer went through: `owner` had both the funds and an approval
/// covering `amount`, the balances moved by the transfer's delta, and the
/// approval was consumed by `amount`.
pub open spec fn balances_pulled<G: TokenGateway>(
    pre: G,
    post: G,
    token: AccountId,
    owner: AccountId,
    to: AccountId,
    amount: Balance,
) -> bool {
    &&& pre.bal(token, owner) >= amount
    &&& pre.allowance(token, owner) >= amount
    &&& forall|t: AccountId, x: AccountId| #[trigger] post.bal(t, x) == pre.bal(t, x)
        + transfer_delta(t, x, token, owner, to, amount)
    &&& forall|t: AccountId, o: AccountId| #[trigger] post.allowance(t, o) == pre.allowance(t, o)
        + allowance_delta(t, o, token, owner, amount)
}

} // verus!
