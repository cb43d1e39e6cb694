//! The escrow engine: the swap lifecycle state machine.
//!
//! The engine owns the registry of open swaps, the event log, and the
//! configuration (owner, custodian identity, optional delegate). Every
//! operation takes the caller's identity and the current chain counter as
//! arguments, and reaches token ledgers only through a
//! [`TokenGateway`] capability handed in by the caller.
//!
//! Transfer model, one explicit choice per leg: funds the engine's side
//! already controls move by push — escrowing the creator's offer at
//! creation, releasing custody to an acceptor, refunding custody on
//! cancellation — while the acceptor's payment is pulled through a prior
//! approval, since the engine never controls the acceptor's funds.
//!
//! Ordering policy towards external calls: every operation validates and
//! decides first, then performs its token transfers, and mutates the
//! registry and the event log only after the decisive transfer succeeded.
//! Cancellation refunds before it removes the record, so a failed refund
//! never strands custody. Acceptance pulls the acceptor's payment before it
//! releases custody; the window between the two legs is stated explicitly
//! in the contract of `accept_swap`. A gateway holds no reference back to
//! the engine, so no token call can reenter an operation half-way through.

use vstd::prelude::*;

use crate::auth::{accept_allowed, cancel_allowed, may_accept, may_cancel};
use crate::delegate::{DelegateCallStatus, DelegateRequest, SwapDelegate};
use crate::domain::{AccountId, Balance, BlockNumber, Error};
use crate::events::{accepted_event, created_event, deleted_event};
use crate::events::{SwapAccepted, SwapCreated, SwapDeleted, SwapEvent};
use crate::gateway::{allowance_delta, transfer_delta, TokenGateway};
use crate::gateway::{balances_pulled, balances_transferred, gateway_unchanged};
use crate::registry::{lemma_records_map_membership, records_map, SwapRegistry};
use crate::swap::{escrow_remaining, fill_completes, filled_swap, fresh_swap, swap_wf, Swap};

verus! {

/// The escrow engine's whole state.
pub struct TokenSwap {
    registry: SwapRegistry,
    owner: AccountId,
    custodian: AccountId,
    delegated_contract: Option<AccountId>,
    check_balance_b: bool,
    events: Vec<SwapEvent>,
}

impl TokenSwap {
    /// The stored swap records, keyed by identifier.
    pub closed spec fn swaps(&self) -> Map<u64, Swap> {
        self.registry.records()
    }

    /// How many identifiers have been assigned so far; also the identifier
    /// the next local creation will receive.
    pub closed spec fn count(&self) -> u64 {
        self.registry.next()
    }

    /// The identity allowed to administer the engine's configuration.
    pub closed spec fn owner_id(&self) -> AccountId {
        self.owner
    }

    /// The identity holding escrowed funds in the token contracts.
    pub closed spec fn custodian_id(&self) -> AccountId {
        self.custodian
    }

    /// The configured delegate contract, if any.
    pub closed spec fn delegated(&self) -> Option<AccountId> {
        self.delegated_contract
    }

    /// Whether creation additionally validates the creator's balance of the
    /// requested token B.
    pub closed spec fn balance_b_check(&self) -> bool {
        self.check_balance_b
    }

    /// The domain events emitted so far, oldest first.
    pub closed spec fn log(&self) -> Seq<SwapEvent> {
        self.events@
    }

    /// Well-formedness: every stored record keeps its cumulative fills
    /// within the offered and requested amounts, and sits under an
    /// identifier that has already been assigned.
    pub open spec fn wf(&self) -> bool {
        forall|id: u64| #[trigger]
            self.swaps().contains_key(id) ==> swap_wf(self.swaps()[id]) && id < self.count()
    }

    /// A fresh engine: no swaps, no events, counter at 0, no delegate.
    pub fn new(owner: AccountId, custodian: AccountId, check_balance_b: bool) -> (r: TokenSwap)
        ensures
            r.wf(),
            r.swaps() == Map::<u64, Swap>::empty(),
            r.count() == 0,
            r.owner_id() == owner,
            r.custodian_id() == custodian,
            r.delegated() is None,
            r.balance_b_check() == check_balance_b,
            r.log() == Seq::<SwapEvent>::empty(),
    {
        TokenSwap {
            registry: SwapRegistry::new(),
            owner,
            custodian,
            delegated_contract: None,
            check_balance_b,
            events: Vec::new(),
        }
    }

    /// Rebuilds an engine from persisted state — the configuration, the
    /// stored records and the identifier counter — as a deployment keeps
    /// them between messages and hands them back before each operation.
    /// Each persisted record must be well-formed and sit under an
    /// already-assigned identifier, which is what every operation
    /// guarantees of the state it leaves behind. The event log starts
    /// empty: past events were already handed to the host when they were
    /// emitted.
    ///
    /// Within one operation no token call can reenter the engine, since a
    /// gateway holds no reference back to it; but a deployment persisting
    /// this state between messages must expect a reentrant message to run
    /// on the stored state. The guarantees here are per operation.
    pub fn restore(
        owner: AccountId,
        custodian: AccountId,
        check_balance_b: bool,
        delegated_contract: Option<AccountId>,
        records: Vec<(u64, Swap)>,
        next_id: u64,
    ) -> (r: TokenSwap)
        requires
            forall|i: int|
                0 <= i < records@.len() ==> swap_wf((#[trigger] records@[i]).1) && records@[i].0
                    < next_id,
        ensures
            r.wf(),
            r.swaps() == records_map(records@),
            r.count() == next_id,
            r.owner_id() == owner,
            r.custodian_id() == custodian,
            r.delegated() == delegated_contract,
            r.balance_b_check() == check_balance_b,
            r.log() == Seq::<SwapEvent>::empty(),
    {
        let ghost entries = records@;
        let engine = TokenSwap {
            registry: SwapRegistry::restore(records, next_id),
            owner,
            custodian,
            delegated_contract,
            check_balance_b,
            events: Vec::new(),
        };
        proof {
            assert forall|id: u64| #[trigger] engine.swaps().contains_key(id) implies swap_wf(
                engine.swaps()[id],
            ) && id < engine.count() by {
                lemma_records_map_membership(entries, id);
                let i = choose|i: int|
                    0 <= i < entries.len() && (#[trigger] entries[i]).0 == id && records_map(
                        entries,
                    )[id] == entries[i].1;
                assert(swap_wf(entries[i].1) && entries[i].0 < next_id);
            }
        }
        engine
    }

    /// How many swaps have been created locally so far.
    pub fn swap_count(&self) -> (c: u64)
        ensures
            c == self.count(),
    {
        self.registry.peek_next_id()
    }

    /// The record stored under `id`, if any.
    pub fn get_swap(&self, id: u64) -> (r: Option<Swap>)
        ensures
            r matches Some(s) ==> self.swaps().contains_key(id) && s == self.swaps()[id],
            r is None ==> !self.swaps().contains_key(id),
    {
        self.registry.get(id)
    }

    /// Whether a record is stored under `id`.
    pub fn contains_swap(&self, id: u64) -> (b: bool)
        ensures
            b == self.swaps().contains_key(id),
    {
        self.registry.contains(id)
    }

    /// The configured delegate contract, if any.
    pub fn delegated_contract(&self) -> (r: Option<AccountId>)
        ensures
            r == self.delegated(),
    {
        self.delegated_contract
    }

    /// The domain events emitted so far, oldest first.
    pub fn event_log(&self) -> (r: &Vec<SwapEvent>)
        ensures
            r@ == self.log(),
    {
        &self.events
    }

    /// Configures the delegate contract that future creations are forwarded
    /// to. Owner-only; any other caller is rejected with a typed error and
    /// changes nothing.
    pub fn set_delegated_contract(&mut self, caller: AccountId, contract: AccountId) -> (r: Result<
        (),
        Error,
    >)
        requires
            old(self).wf(),
        ensures
            final(self).wf(),
            final(self).swaps() == old(self).swaps(),
            final(self).count() == old(self).count(),
            final(self).log() == old(self).log(),
            final(self).owner_id() == old(self).owner_id(),
            final(self).custodian_id() == old(self).custodian_id(),
            final(self).balance_b_check() == old(self).balance_b_check(),
            r is Ok <==> caller == old(self).owner_id(),
            r is Ok ==> final(self).delegated() == Some(contract),
            r matches Err(e) ==> e == Error::Unauthorized && final(self).delegated() == old(
                self,
            ).delegated(),
    {
        if caller != self.owner {
            return Err(Error::Unauthorized);
        }
        self.delegated_contract = Some(contract);
        proof {
            lemma_wf_same_records(*old(self), *self);
        }
        Ok(())
    }

    /// Creates a swap: the creator offers `amount_a` of `token_a` for
    /// `amount_b` of `token_b`, valid until `current_counter + duration`.
    ///
    /// When a delegate contract is configured, the whole request is
    /// forwarded to it instead and nothing changes locally; the call then
    /// answers with the local counter on success, since lifecycle ownership
    /// of the forwarded swap passes to the delegate.
    ///
    /// Locally, the creator's balance of `token_a` is validated (and of
    /// `token_b` too, when that validation is configured), the expiration
    /// and the identifier counter are checked for overflow, and only then
    /// is `amount_a` escrowed from the creator to the custodian. The record
    /// is stored and the creation event emitted only after the escrow
    /// transfer succeeded; on any failure the call returns the typed error
    /// with the registry, the counter, the log and the token ledgers all
    /// untouched.
    pub fn create_swap<G: TokenGateway, D: SwapDelegate>(
        &mut self,
        gateway: &mut G,
        delegate: &mut D,
        caller: AccountId,
        current_counter: BlockNumber,
        token_a: AccountId,
        token_b: AccountId,
        amount_a: Balance,
        amount_b: Balance,
        duration: BlockNumber,
        allowed_acceptor: Option<AccountId>,
    ) -> (r: Result<u64, Error>)
        requires
            old(self).wf(),
        ensures
            final(self).wf(),
            config_unchanged(*old(self), *final(self)),
            old(self).delegated() matches Some(dc) ==> ({
                &&& engine_unchanged(*old(self), *final(self))
                &&& gateway_unchanged(*old(gateway), *final(gateway))
                &&& final(delegate).requests() == old(delegate).requests().push(
                    DelegateRequest { delegate: dc, token_a, token_b, amount_a, amount_b, duration },
                )
                &&& (r == Ok::<u64, Error>(old(self).count()) || r == Err::<u64, Error>(
                    Error::DelegateFailed,
                ) || r == Err::<u64, Error>(Error::DelegateFunctionFailed))
            }),
            old(self).delegated() is None ==> final(delegate).requests() == old(
                delegate,
            ).requests(),
            old(self).delegated() is None ==> ({
                &&& r is Err ==> engine_unchanged(*old(self), *final(self)) && gateway_unchanged(
                    *old(gateway),
                    *final(gateway),
                )
                &&& r matches Err(e) ==> e == Error::InsufficientBalance || e
                    == Error::TransferFailed || e == Error::CallFailed
                &&& r matches Ok(id) ==> ({
                    &&& id == old(self).count()
                    &&& final(self).count() == old(self).count() + 1
                    &&& current_counter + duration <= BlockNumber::MAX
                    &&& final(self).swaps() == old(self).swaps().insert(
                        id,
                        fresh_swap(
                            caller,
                            token_a,
                            token_b,
                            amount_a,
                            amount_b,
                            (current_counter + duration) as BlockNumber,
                            allowed_acceptor,
                        ),
                    )
                    &&& old(gateway).bal(token_a, caller) >= amount_a
                    &&& old(self).balance_b_check() ==> old(gateway).bal(token_b, caller)
                        >= amount_b
                    &&& balances_transferred(
                        *old(gateway),
                        *final(gateway),
                        token_a,
                        caller,
                        old(self).custodian_id(),
                        amount_a,
                    )
                    &&& final(self).log() == old(self).log().push(created_event(id, caller))
                })
                &&& old(gateway).bal(token_a, caller) < amount_a ==> (r == Err::<u64, Error>(
                    Error::InsufficientBalance,
                ) || r == Err::<u64, Error>(Error::CallFailed))
                &&& old(self).balance_b_check() && old(gateway).bal(token_b, caller) < amount_b
                    ==> (r == Err::<u64, Error>(Error::InsufficientBalance) || r == Err::<
                    u64,
                    Error,
                >(Error::CallFailed))
                &&& current_counter + duration > BlockNumber::MAX ==> (r == Err::<u64, Error>(
                    Error::InsufficientBalance,
                ) || r == Err::<u64, Error>(Error::CallFailed))
                &&& old(self).count() == u64::MAX ==> (r == Err::<u64, Error>(
                    Error::InsufficientBalance,
                ) || r == Err::<u64, Error>(Error::CallFailed))
            }),
    {
        if let Some(delegate_contract) = self.delegated_contract {
            let status = delegate.create_swap_delegate(
                delegate_contract,
                token_a,
                token_b,
                amount_a,
                amount_b,
                duration,
            );
            let count = self.registry.peek_next_id();
            proof {
                lemma_wf_same_records(*old(self), *self);
            }
            return delegated_creation_result(status, count);
        }
        let balance_a = match gateway.balance_of(token_a, caller) {
            Ok(b) => b,
            Err(e) => {
                return Err(e);
            },
        };
        let balance_b = if self.check_balance_b {
            match gateway.balance_of(token_b, caller) {
                Ok(b) => Some(b),
                Err(e) => {
                    return Err(e);
                },
            }
        } else {
            None
        };
        let count = self.registry.peek_next_id();
        let expiration = match plan_creation(
            balance_a,
            amount_a,
            balance_b,
            amount_b,
            current_counter,
            duration,
            count,
        ) {
            Ok(exp) => exp,
            Err(e) => {
                return Err(e);
            },
        };
        match gateway.transfer(token_a, caller, self.custodian, amount_a) {
            Ok(()) => {},
            Err(e) => {
                return Err(e);
            },
        }
        let id = match self.registry.allocate_next_id() {
            Ok(id) => id,
            Err(e) => {
                return Err(e);
            },
        };
        let swap = Swap {
            creator: caller,
            token_a,
            token_b,
            amount_a,
            amount_b,
            expiration,
            accepted_a: 0,
            accepted_b: 0,
            allowed_acceptor,
        };
        self.registry.insert(id, swap);
        self.events.push(SwapEvent::Created(SwapCreated { id, creator: caller }));
        proof {
            lemma_wf_after_insert(*old(self), *self, id, swap);
        }
        Ok(id)
    }

    /// Fills the swap stored under `swap_id` by `fill_a` of the offered and
    /// `fill_b` of the requested token; a full fill in one call and an
    /// incremental partial fill are the same operation.
    ///
    /// The fill is validated first: the caller must be an allowed acceptor,
    /// the swap must not be expired (`current_counter` still at most the
    /// expiration), the cumulative fills must stay within the offer, and
    /// the acceptor's balance of the requested token must cover their
    /// payment — otherwise the typed error is returned and nothing anywhere
    /// changes. A short balance is `InsufficientBalance`, so a caller can
    /// tell it from a broken token integration.
    /// Then the acceptor's payment of `fill_b` is pulled to the creator,
    /// and custody releases `fill_a` to the acceptor. Only after both legs
    /// succeeded is the record updated — or removed, once the offer is
    /// exactly completed — and an acceptance event emitted. If the second
    /// leg fails after the first succeeded, the record and log are kept
    /// untouched and only the pulled payment has moved; the contract states
    /// that window explicitly.
    pub fn accept_swap<G: TokenGateway>(
        &mut self,
        gateway: &mut G,
        caller: AccountId,
        current_counter: BlockNumber,
        swap_id: u64,
        fill_a: Balance,
        fill_b: Balance,
    ) -> (r: Result<(), Error>)
        requires
            old(self).wf(),
        ensures
            final(self).wf(),
            config_unchanged(*old(self), *final(self)),
            final(self).count() == old(self).count(),
            !old(self).swaps().contains_key(swap_id) ==> r == Err::<(), Error>(
                Error::SwapNotFound,
            ) && engine_unchanged(*old(self), *final(self)) && gateway_unchanged(
                *old(gateway),
                *final(gateway),
            ),
            old(self).swaps().contains_key(swap_id) ==> ({
                let s = old(self).swaps()[swap_id];
                &&& !accept_allowed(caller, s) ==> r == Err::<(), Error>(Error::Unauthorized)
                    && engine_unchanged(*old(self), *final(self)) && gateway_unchanged(
                    *old(gateway),
                    *final(gateway),
                )
                &&& accept_allowed(caller, s) && current_counter > s.expiration ==> r == Err::<
                    (),
                    Error,
                >(Error::SwapExpired) && engine_unchanged(*old(self), *final(self))
                    && gateway_unchanged(*old(gateway), *final(gateway))
                &&& accept_allowed(caller, s) && current_counter <= s.expiration && (s.accepted_a
                    + fill_a > s.amount_a || s.accepted_b + fill_b > s.amount_b) ==> r == Err::<
                    (),
                    Error,
                >(Error::InsufficientBalance) && engine_unchanged(*old(self), *final(self))
                    && gateway_unchanged(*old(gateway), *final(gateway))
                &&& r is Ok ==> ({
                    &&& accept_allowed(caller, s)
                    &&& current_counter <= s.expiration
                    &&& s.accepted_a + fill_a <= s.amount_a
                    &&& s.accepted_b + fill_b <= s.amount_b
                    &&& old(gateway).bal(s.token_b, caller) >= fill_b
                    &&& old(gateway).allowance(s.token_b, caller) >= fill_b
                    &&& forall|t: AccountId, x: AccountId| #[trigger] final(gateway).bal(t, x)
                        == old(gateway).bal(t, x) + transfer_delta(
                        t,
                        x,
                        s.token_b,
                        caller,
                        s.creator,
                        fill_b,
                    ) + transfer_delta(
                        t,
                        x,
                        s.token_a,
                        old(self).custodian_id(),
                        caller,
                        fill_a,
                    )
                    &&& forall|t: AccountId, o: AccountId| #[trigger] final(gateway).allowance(
                        t,
                        o,
                    ) == old(gateway).allowance(t, o) + allowance_delta(
                        t,
                        o,
                        s.token_b,
                        caller,
                        fill_b,
                    )
                    &&& final(self).swaps() == if fill_completes(s, fill_a, fill_b) {
                        old(self).swaps().remove(swap_id)
                    } else {
                        old(self).swaps().insert(swap_id, filled_swap(s, fill_a, fill_b))
                    }
                    &&& final(self).log() == old(self).log().push(accepted_event(swap_id, caller))
                })
                &&& accept_allowed(caller, s) && current_counter <= s.expiration && s.accepted_a
                    + fill_a <= s.amount_a && s.accepted_b + fill_b <= s.amount_b && old(
                    gateway,
                ).bal(s.token_b, caller) < fill_b ==> (r == Err::<(), Error>(
                    Error::InsufficientBalance,
                ) || r == Err::<(), Error>(Error::CallFailed)) && engine_unchanged(
                    *old(self),
                    *final(self),
                ) && gateway_unchanged(*old(gateway), *final(gateway))
                &&& accept_allowed(caller, s) && current_counter <= s.expiration && s.accepted_a
                    + fill_a <= s.amount_a && s.accepted_b + fill_b <= s.amount_b && r is Err
                    ==> ({
                    &&& (r == Err::<(), Error>(Error::InsufficientBalance) || r == Err::<
                        (),
                        Error,
                    >(Error::TransferFailed) || r == Err::<(), Error>(Error::CallFailed))
                    &&& final(self).swaps() == old(self).swaps()
                    &&& final(self).log() == old(self).log()
                    &&& gateway_unchanged(*old(gateway), *final(gateway)) || balances_pulled(
                        *old(gateway),
                        *final(gateway),
                        s.token_b,
                        caller,
                        s.creator,
                        fill_b,
                    )
                    &&& r == Err::<(), Error>(Error::InsufficientBalance) ==> gateway_unchanged(
                        *old(gateway),
                        *final(gateway),
                    )
                })
            }),
    {
        let s = match self.registry.get(swap_id) {
            Some(s) => s,
            None => {
                return Err(Error::SwapNotFound);
            },
        };
        proof {
            assert(swap_wf(s));
        }
        match validate_fill(&s, caller, current_counter, fill_a, fill_b) {
            Ok(()) => {},
            Err(e) => {
                return Err(e);
            },
        }
        // the acceptor must hold the payment they are about to make
        let balance_b = match gateway.balance_of(s.token_b, caller) {
            Ok(b) => b,
            Err(e) => {
                return Err(e);
            },
        };
        match check_acceptor_funds(balance_b, fill_b) {
            Ok(()) => {},
            Err(e) => {
                return Err(e);
            },
        }
        // first leg: pull the acceptor's payment of token B to the creator
        match gateway.transfer_from(s.token_b, caller, s.creator, fill_b) {
            Ok(()) => {},
            Err(e) => {
                return Err(e);
            },
        }
        let ghost pulled = *gateway;
        // second leg: release the offered token A from custody to the acceptor
        match gateway.transfer(s.token_a, self.custodian, caller, fill_a) {
            Ok(()) => {},
            Err(e) => {
                return Err(e);
            },
        }
        proof {
            assert forall|t: AccountId, x: AccountId| #[trigger] gateway.bal(t, x) == old(
                gateway,
            ).bal(t, x) + transfer_delta(t, x, s.token_b, caller, s.creator, fill_b)
                + transfer_delta(t, x, s.token_a, old(self).custodian_id(), caller, fill_a) by {
                assert(pulled.bal(t, x) == old(gateway).bal(t, x) + transfer_delta(
                    t,
                    x,
                    s.token_b,
                    caller,
                    s.creator,
                    fill_b,
                ));
            }
        }
        let updated = Swap {
            accepted_a: s.accepted_a + fill_a,
            accepted_b: s.accepted_b + fill_b,
            ..s
        };
        if updated.accepted_a == updated.amount_a && updated.accepted_b == updated.amount_b {
            self.registry.remove(swap_id);
            proof {
                lemma_wf_after_remove(*old(self), *self, swap_id);
            }
        } else {
            self.registry.insert(swap_id, updated);
            proof {
                lemma_wf_after_insert(*old(self), *self, swap_id, updated);
            }
        }
        self.events.push(SwapEvent::Accepted(SwapAccepted { id: swap_id, acceptor: caller }));
        Ok(())
    }

    /// Cancels the swap stored under `swap_id`. Creator-only. The escrow
    /// still in custody — the offered amount minus what fulfillment has
    /// already released — is refunded to the creator first; only once that
    /// refund succeeded is the record removed and a deletion event emitted.
    /// A failed refund keeps the record, so custody is never stranded.
    pub fn delete_swap<G: TokenGateway>(
        &mut self,
        gateway: &mut G,
        caller: AccountId,
        swap_id: u64,
    ) -> (r: Result<(), Error>)
        requires
            old(self).wf(),
        ensures
            final(self).wf(),
            config_unchanged(*old(self), *final(self)),
            final(self).count() == old(self).count(),
            !old(self).swaps().contains_key(swap_id) ==> r == Err::<(), Error>(
                Error::SwapNotFound,
            ) && engine_unchanged(*old(self), *final(self)) && gateway_unchanged(
                *old(gateway),
                *final(gateway),
            ),
            old(self).swaps().contains_key(swap_id) ==> ({
                let s = old(self).swaps()[swap_id];
                &&& !cancel_allowed(caller, s) ==> r == Err::<(), Error>(Error::Unauthorized)
                    && engine_unchanged(*old(self), *final(self)) && gateway_unchanged(
                    *old(gateway),
                    *final(gateway),
                )
                &&& cancel_allowed(caller, s) && r is Ok ==> ({
                    &&& balances_transferred(
                        *old(gateway),
                        *final(gateway),
                        s.token_a,
                        old(self).custodian_id(),
                        s.creator,
                        escrow_remaining(s),
                    )
                    &&& final(self).swaps() == old(self).swaps().remove(swap_id)
                    &&& final(self).log() == old(self).log().push(deleted_event(swap_id))
                })
                &&& cancel_allowed(caller, s) && r is Err ==> ({
                    &&& (r == Err::<(), Error>(Error::TransferFailed) || r == Err::<(), Error>(
                        Error::CallFailed,
                    ))
                    &&& engine_unchanged(*old(self), *final(self))
                    &&& gateway_unchanged(*old(gateway), *final(gateway))
                })
            }),
    {
        let s = match self.registry.get(swap_id) {
            Some(s) => s,
            None => {
                return Err(Error::SwapNotFound);
            },
        };
        if !may_cancel(caller, &s) {
            return Err(Error::Unauthorized);
        }
        proof {
            assert(swap_wf(s));
        }
        let refund = s.amount_a - s.accepted_a;
        match gateway.transfer(s.token_a, self.custodian, s.creator, refund) {
            Ok(()) => {},
            Err(e) => {
                return Err(e);
            },
        }
        self.registry.remove(swap_id);
        self.events.push(SwapEvent::Deleted(SwapDeleted { id: swap_id }));
        proof {
            lemma_wf_after_remove(*old(self), *self, swap_id);
        }
        Ok(())
    }
}

/// The engine's configuration (owner, custodian, delegate, optional
/// balance validation) is the same in both states.
pub open spec fn config_unchanged(pre: TokenSwap, post: TokenSwap) -> bool {
    &&& post.owner_id() == pre.owner_id()
    &&& post.custodian_id() == pre.custodian_id()
    &&& post.delegated() == pre.delegated()
    &&& post.balance_b_check() == pre.balance_b_check()
}

/// Nothing about the engine changed: configuration, records, counter and
/// event log are all as they were.
pub open spec fn engine_unchanged(pre: TokenSwap, post: TokenSwap) -> bool {
    &&& config_unchanged(pre, post)
    &&& post.swaps() == pre.swaps()
    &&& post.count() == pre.count()
    &&& post.log() == pre.log()
}

/// Bound invariant of fulfillment: in a well-formed engine — and every
/// operation returns the engine well-formed — each stored record keeps its
/// cumulative fills within the offered and requested amounts, sits under an
/// identifier below the allocation counter, and splits the escrowed amount
/// exactly into what is still in custody and what fulfillment has already
/// released.
pub proof fn lemma_record_bounds(e: TokenSwap, id: u64)
    requires
        e.wf(),
        e.swaps().contains_key(id),
    ensures
        e.swaps()[id].accepted_a <= e.swaps()[id].amount_a,
        e.swaps()[id].accepted_b <= e.swaps()[id].amount_b,
        id < e.count(),
        escrow_remaining(e.swaps()[id]) + e.swaps()[id].accepted_a == e.swaps()[id].amount_a,
{
}

/// Identifiers are assigned sequentially and never reused: a well-formed
/// engine stores no record at or above its allocation counter, so an
/// identifier the counter has not yet reached cannot name a record, and one
/// it has passed can never be assigned again.
pub proof fn lemma_identifier_fresh(e: TokenSwap, id: u64)
    requires
        e.wf(),
        id >= e.count(),
    ensures
        !e.swaps().contains_key(id),
{
}

/// Well-formedness carries over when the records are kept and the counter
/// does not move backwards.
proof fn lemma_wf_same_records(pre: TokenSwap, post: TokenSwap)
    requires
        pre.wf(),
        post.swaps() == pre.swaps(),
        post.count() >= pre.count(),
    ensures
        post.wf(),
{
    assert forall|i: u64| #[trigger] post.swaps().contains_key(i) implies swap_wf(post.swaps()[i])
        && i < post.count() by {
        assert(pre.swaps().contains_key(i));
    }
}

/// Well-formedness carries over when one well-formed record is stored under
/// an already-assigned identifier.
proof fn lemma_wf_after_insert(pre: TokenSwap, post: TokenSwap, id: u64, s: Swap)
    requires
        pre.wf(),
        post.swaps() == pre.swaps().insert(id, s),
        swap_wf(s),
        id < post.count(),
        post.count() >= pre.count(),
    ensures
        post.wf(),
{
    assert forall|i: u64| #[trigger] post.swaps().contains_key(i) implies swap_wf(post.swaps()[i])
        && i < post.count() by {
        if i != id {
            assert(pre.swaps().contains_key(i));
        }
    }
}

/// Well-formedness carries over when a record is removed.
proof fn lemma_wf_after_remove(pre: TokenSwap, post: TokenSwap, id: u64)
    requires
        pre.wf(),
        post.swaps() == pre.swaps().remove(id),
        post.count() >= pre.count(),
    ensures
        post.wf(),
{
    assert forall|i: u64| #[trigger] post.swaps().contains_key(i) implies swap_wf(post.swaps()[i])
        && i < post.count() by {
        assert(pre.swaps().contains_key(i));
    }
}

/// Maps the raw outcome of a forwarded creation onto the engine's result: a
/// completed forwarding answers with the engine's identifier counter, a
/// failure the delegate itself reported surfaces `DelegateFunctionFailed`,
/// and a call that could not be dispatched surfaces `DelegateFailed`.
pub fn delegated_creation_result(status: DelegateCallStatus, count: u64) -> (r: Result<u64, Error>)
    ensures
        r == Ok::<u64, Error>(count) <==> status == DelegateCallStatus::Completed,
        r == Err::<u64, Error>(Error::DelegateFunctionFailed) <==> status
            == DelegateCallStatus::Rejected,
        r == Err::<u64, Error>(Error::DelegateFailed) <==> status
            == DelegateCallStatus::Unreachable,
{
    match status {
        DelegateCallStatus::Completed => Ok(count),
        DelegateCallStatus::Rejected => Err(Error::DelegateFunctionFailed),
        DelegateCallStatus::Unreachable => Err(Error::DelegateFailed),
    }
}

/// Decides a creation request once the creator's balances have been
/// queried: the creator must hold the offered amount (and, when that
/// validation is configured, the requested amount), the expiration must not
/// overflow the chain counter, and an identifier must still be available.
/// Returns the expiration to store.
pub fn plan_creation(
    balance_a: Balance,
    amount_a: Balance,
    balance_b: Option<Balance>,
    amount_b: Balance,
    current_counter: BlockNumber,
    duration: BlockNumber,
    count: u64,
) -> (r: Result<BlockNumber, Error>)
    ensures
        r is Ok <==> balance_a >= amount_a && (balance_b matches Some(b) ==> b >= amount_b)
            && current_counter + duration <= BlockNumber::MAX && count < u64::MAX,
        r matches Ok(exp) ==> exp == current_counter + duration,
        r == Err::<BlockNumber, Error>(Error::InsufficientBalance) <==> balance_a < amount_a || (
        balance_a >= amount_a && (balance_b matches Some(b) && b < amount_b)),
        r == Err::<BlockNumber, Error>(Error::CallFailed) <==> balance_a >= amount_a && (
        balance_b matches Some(b) ==> b >= amount_b) && (current_counter + duration
            > BlockNumber::MAX || count == u64::MAX),
{
    if balance_a < amount_a {
        return Err(Error::InsufficientBalance);
    }
    if let Some(b) = balance_b {
        if b < amount_b {
            return Err(Error::InsufficientBalance);
        }
    }
    if duration > BlockNumber::MAX - current_counter {
        return Err(Error::CallFailed);
    }
    if count == u64::MAX {
        return Err(Error::CallFailed);
    }
    Ok(current_counter + duration)
}

/// Decides whether the acceptor's answered balance covers the payment they
/// are about to make: a short balance is the acceptor's problem, reported
/// as `InsufficientBalance`, never as a failure of the token integration.
pub fn check_acceptor_funds(balance: Balance, fill: Balance) -> (r: Result<(), Error>)
    ensures
        r is Ok <==> balance >= fill,
        r == Err::<(), Error>(Error::InsufficientBalance) <==> balance < fill,
{
    if balance < fill {
        Err(Error::InsufficientBalance)
    } else {
        Ok(())
    }
}

/// Decides a fill request against the targeted record: the caller must be
/// an allowed acceptor, the swap must not be expired, and the fill must
/// keep both cumulative legs within the offer.
pub fn validate_fill(
    s: &Swap,
    caller: AccountId,
    current_counter: BlockNumber,
    fill_a: Balance,
    fill_b: Balance,
) -> (r: Result<(), Error>)
    requires
        swap_wf(*s),
    ensures
        r is Ok <==> accept_allowed(caller, *s) && current_counter <= s.expiration && s.accepted_a
            + fill_a <= s.amount_a && s.accepted_b + fill_b <= s.amount_b,
        r == Err::<(), Error>(Error::Unauthorized) <==> !accept_allowed(caller, *s),
        r == Err::<(), Error>(Error::SwapExpired) <==> accept_allowed(caller, *s)
            && current_counter > s.expiration,
        r == Err::<(), Error>(Error::InsufficientBalance) <==> accept_allowed(caller, *s)
            && current_counter <= s.expiration && (s.accepted_a + fill_a > s.amount_a
            || s.accepted_b + fill_b > s.amount_b),
{
    if !may_accept(caller, s) {
        return Err(Error::Unauthorized);
    }
    if current_counter > s.expiration {
        return Err(Error::SwapExpired);
    }
    if fill_a > s.amount_a - s.accepted_a || fill_b > s.amount_b - s.accepted_b {
        return Err(Error::InsufficientBalance);
    }
    Ok(())
}

} // verus!
