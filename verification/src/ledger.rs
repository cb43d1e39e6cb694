//! A verified in-memory token ledger implementing the gateway capability.
//!
//! It keeps every balance and every approval in hash tables keyed by a
//! packed (token, account) pair, answers balance queries exactly, and
//! performs transfers with the checks a conforming token must make: a push
//! is rejected when the payer lacks the funds, a pull additionally when the
//! owner's approval does not cover the amount, and either is rejected when
//! the recipient's balance would overflow. It serves both as the test double
//! for the engine and as the reference for what any gateway adapter must
//! guarantee.

use std::collections::HashMap;

use vstd::prelude::*;

use crate::domain::{AccountId, Balance, Error};
use crate::gateway::{allowance_delta, transfer_delta, TokenGateway};

verus! {

broadcast use vstd::std_specs::hash::group_hash_axioms;

/// Packs a (token, account) pair into a single table key. Tokens and
/// accounts are 64-bit identities, so the pair fits a 128-bit key exactly,
/// and distinct pairs get distinct keys.
pub open spec fn slot(token: AccountId, account: AccountId) -> u128 {
    ((token as int) * 0x1_0000_0000_0000_0000 + (account as int)) as u128
}

/// Distinct (token, account) pairs pack to distinct keys.
proof fn lemma_slot_injective(t1: AccountId, a1: AccountId, t2: AccountId, a2: AccountId)
    requires
        slot(t1, a1) == slot(t2, a2),
    ensures
        t1 == t2 && a1 == a2,
{
    let v1 = (t1 as int) * 0x1_0000_0000_0000_0000 + (a1 as int);
    let v2 = (t2 as int) * 0x1_0000_0000_0000_0000 + (a2 as int);
    assert(0 <= v1 < 0x1_0000_0000_0000_0000_0000_0000_0000_0000);
    assert(0 <= v2 < 0x1_0000_0000_0000_0000_0000_0000_0000_0000);
    assert(v1 == v2);
}

/// The amount recorded in a table for a key, zero when the key is absent.
pub open spec fn stored(m: Map<u128, u128>, k: u128) -> u128 {
    if m.contains_key(k) {
        m[k]
    } else {
        0
    }
}

/// Computes the packed table key of a (token, account) pair.
fn slot_key(token: AccountId, account: AccountId) -> (k: u128)
    ensures
        k == slot(token, account),
{
    (token as u128) * 0x1_0000_0000_0000_0000u128 + (account as u128)
}

/// Reads the amount a table records for a key, zero when absent.
fn stored_get(m: &HashMap<u128, u128>, k: u128) -> (v: u128)
    ensures
        v == stored(m@, k),
{
    match m.get(&k) {
        Some(v) => *v,
        None => 0,
    }
}

/// In-memory token ledger: balances and approvals of every token contract,
/// all starting at zero.
pub struct LedgerGateway {
    balances: HashMap<u128, u128>,
    allowances: HashMap<u128, u128>,
}

impl LedgerGateway {
    /// A ledger with every balance and every approval at zero.
    pub fn new() -> (r: LedgerGateway)
        ensures
            forall|t: AccountId, x: AccountId| #[trigger] r.bal(t, x) == 0,
            forall|t: AccountId, o: AccountId| #[trigger] r.allowance(t, o) == 0,
    {
        LedgerGateway { balances: HashMap::new(), allowances: HashMap::new() }
    }

    /// Sets the balance of `account` in `token`, leaving every other balance
    /// and every approval as it was.
    pub fn set_balance(&mut self, token: AccountId, account: AccountId, amount: Balance)
        ensures
            final(self).bal(token, account) == amount,
            forall|t: AccountId, x: AccountId|
                t != token || x != account ==> #[trigger] final(self).bal(t, x) == old(self).bal(
                    t,
                    x,
                ),
            forall|t: AccountId, o: AccountId| #[trigger] final(self).allowance(t, o) == old(
                self,
            ).allowance(t, o),
    {
        let k = slot_key(token, account);
        self.balances.insert(k, amount);
        proof {
            assert forall|t: AccountId, x: AccountId| t != token || x != account implies #[trigger]
            self.bal(t, x) == old(self).bal(t, x) by {
                if slot(t, x) == slot(token, account) {
                    lemma_slot_injective(t, x, token, account);
                }
            }
        }
    }

    /// Sets the approval `owner` grants for pulls out of `token`, leaving
    /// every balance and every other approval as it was.
    pub fn set_allowance(&mut self, token: AccountId, owner: AccountId, amount: Balance)
        ensures
            final(self).allowance(token, owner) == amount,
            forall|t: AccountId, o: AccountId|
                t != token || o != owner ==> #[trigger] final(self).allowance(t, o) == old(
                    self,
                ).allowance(t, o),
            forall|t: AccountId, x: AccountId| #[trigger] final(self).bal(t, x) == old(self).bal(
                t,
                x,
            ),
    {
        let k = slot_key(token, owner);
        self.allowances.insert(k, amount);
        proof {
            assert forall|t: AccountId, o: AccountId| t != token || o != owner implies #[trigger]
            self.allowance(t, o) == old(self).allowance(t, o) by {
                if slot(t, o) == slot(token, owner) {
                    lemma_slot_injective(t, o, token, owner);
                }
            }
        }
    }

    /// Reads the balance of `account` in `token`.
    pub fn balance(&self, token: AccountId, account: AccountId) -> (b: Balance)
        ensures
            b == self.bal(token, account),
    {
        stored_get(&self.balances, slot_key(token, account))
    }

    /// Reads the approval `owner` currently grants for pulls out of `token`.
    pub fn approved(&self, token: AccountId, owner: AccountId) -> (a: Balance)
        ensures
            a == self.allowance(token, owner),
    {
        stored_get(&self.allowances, slot_key(token, owner))
    }
}

impl TokenGateway for LedgerGateway {
    closed spec fn bal(&self, token: AccountId, account: AccountId) -> Balance {
        stored(self.balances@, slot(token, account))
    }

    closed spec fn allowance(&self, token: AccountId, owner: AccountId) -> Balance {
        stored(self.allowances@, slot(token, owner))
    }

    fn balance_of(&self, token: AccountId, account: AccountId) -> (r: Result<Balance, Error>)
        // this ledger's queries always answer, and exactly
        ensures
            r == Ok::<Balance, Error>(self.bal(token, account)),
    {
        Ok(stored_get(&self.balances, slot_key(token, account)))
    }

    fn transfer(
        &mut self,
        token: AccountId,
        from: AccountId,
        to: AccountId,
        amount: Balance,
    ) -> (r: Result<(), Error>)
        // this ledger succeeds exactly when the payer is funded and the
        // recipient's balance cannot overflow; a rejection is always the
        // callee's, never a dispatch failure
        ensures
            r is Ok <==> old(self).bal(token, from) >= amount && (from == to || old(self).bal(
                token,
                to,
            ) + amount <= Balance::MAX),
            r matches Err(e) ==> e == Error::TransferFailed,
    {
        let from_key = slot_key(token, from);
        let from_bal = stored_get(&self.balances, from_key);
        if from_bal < amount {
            return Err(Error::TransferFailed);
        }
        if from == to {
            return Ok(());
        }
        let to_key = slot_key(token, to);
        let to_bal = stored_get(&self.balances, to_key);
        if to_bal > Balance::MAX - amount {
            return Err(Error::TransferFailed);
        }
        proof {
            if slot(token, from) == slot(token, to) {
                lemma_slot_injective(token, from, token, to);
            }
        }
        self.balances.insert(from_key, from_bal - amount);
        self.balances.insert(to_key, to_bal + amount);
        proof {
            assert forall|t: AccountId, x: AccountId| #[trigger] self.bal(t, x) == old(self).bal(
                t,
                x,
            ) + transfer_delta(t, x, token, from, to, amount) by {
                if slot(t, x) == slot(token, from) {
                    lemma_slot_injective(t, x, token, from);
                }
                if slot(t, x) == slot(token, to) {
                    lemma_slot_injective(t, x, token, to);
                }
            }
        }
        Ok(())
    }

    fn transfer_from(
        &mut self,
        token: AccountId,
        owner: AccountId,
        to: AccountId,
        amount: Balance,
    ) -> (r: Result<(), Error>)
        // this ledger pulls exactly when the approval and the funds cover
        // the amount and the recipient's balance cannot overflow
        ensures
            r is Ok <==> old(self).allowance(token, owner) >= amount && old(self).bal(token, owner)
                >= amount && (owner == to || old(self).bal(token, to) + amount <= Balance::MAX),
            r matches Err(e) ==> e == Error::TransferFailed,
    {
        let allow_key = slot_key(token, owner);
        let allowed = stored_get(&self.allowances, allow_key);
        if allowed < amount {
            return Err(Error::TransferFailed);
        }
        let from_bal = stored_get(&self.balances, allow_key);
        if from_bal < amount {
            return Err(Error::TransferFailed);
        }
        if owner != to {
            let to_key = slot_key(token, to);
            let to_bal = stored_get(&self.balances, to_key);
            if to_bal > Balance::MAX - amount {
                return Err(Error::TransferFailed);
            }
            proof {
                if slot(token, owner) == slot(token, to) {
                    lemma_slot_injective(token, owner, token, to);
                }
            }
            self.balances.insert(allow_key, from_bal - amount);
            self.balances.insert(to_key, to_bal + amount);
        }
        self.allowances.insert(allow_key, allowed - amount);
        proof {
            assert forall|t: AccountId, x: AccountId| #[trigger] self.bal(t, x) == old(self).bal(
                t,
                x,
            ) + transfer_delta(t, x, token, owner, to, amount) by {
                if slot(t, x) == slot(token, owner) {
                    lemma_slot_injective(t, x, token, owner);
                }
                if slot(t, x) == slot(token, to) {
                    lemma_slot_injective(t, x, token, to);
                }
            }
            assert forall|t: AccountId, o: AccountId| #[trigger] self.allowance(t, o) == old(
                self,
            ).allowance(t, o) + allowance_delta(t, o, token, owner, amount) by {
                if slot(t, o) == slot(token, owner) {
                    lemma_slot_injective(t, o, token, owner);
                }
            }
        }
        Ok(())
    }
}

} // verus!
