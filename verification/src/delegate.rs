//! Capability to an optional external delegate contract.
//!
//! When an administrator configures a delegate, swap creation is forwarded
//! to the delegate's creation entry point instead of being executed locally.
//! The delegate is an untrusted external contract, so nothing is promised of
//! its answer; the engine only distinguishes a call that completed, one the
//! delegate rejected, and one that could not be dispatched at all.

use vstd::prelude::*;

use crate::domain::{AccountId, Balance, BlockNumber};

verus! {

/// Raw outcome of a forwarded creation call.
#[derive(Debug, Clone, Copy, PartialEq, Eq, Structural)]
pub enum DelegateCallStatus {
    /// The delegate executed the request and reported success.
    Completed,
    /// The delegate executed but reported failure.
    Rejected,
    /// The call could not be dispatched to the delegate at all.
    Unreachable,
}

/// The forwarded creation requests a delegate capability has seen, oldest
/// first: a ghost view of its call history.
pub type ForwardedRequests = Seq<DelegateRequest>;

/// Capability to forward a creation request to a configured delegate
/// contract. The delegate decides the outcome on its own — nothing is
/// promised of its answer — but the capability's ghost call history pins
/// that each use forwards exactly one request with exactly the given
/// arguments.
pub trait SwapDelegate: Sized {
    /// The requests forwarded so far, oldest first.
    spec fn requests(&self) -> ForwardedRequests;

    /// Forwards a full creation request to the delegate at `delegate` and
    /// reports how the call went.
    fn create_swap_delegate(
        &mut self,
        delegate: AccountId,
        token_a: AccountId,
        token_b: AccountId,
        amount_a: Balance,
        amount_b: Balance,
        duration: BlockNumber,
    ) -> (r: DelegateCallStatus)
        ensures
            final(self).requests() == old(self).requests().push(
                DelegateRequest { delegate, token_a, token_b, amount_a, amount_b, duration },
            ),
    ;
}

/// One forwarded creation request, as the delegate capability saw it.
#[derive(Debug, Clone, Copy, PartialEq, Eq, Structural)]
pub struct DelegateRequest {
    /// Address of the delegate the request was forwarded to.
    pub delegate: AccountId,
    /// Token contract whose units the creator offers.
    pub token_a: AccountId,
    /// Token contract whose units the creator requests.
    pub token_b: AccountId,
    /// Full amount of token A offered.
    pub amount_a: Balance,
    /// Full amount of token B requested.
    pub amount_b: Balance,
    /// Requested lifetime of the swap in chain-counter units.
    pub duration: BlockNumber,
}

/// A delegate double that records every forwarded request and answers each
/// with one scripted status.
pub struct RecordingDelegate {
    status: DelegateCallStatus,
    requests: Vec<DelegateRequest>,
}

impl RecordingDelegate {
    /// The status this double is scripted to answer every request with.
    pub closed spec fn scripted(&self) -> DelegateCallStatus {
        self.status
    }

    /// A double that answers every request with `status`.
    pub fn new(status: DelegateCallStatus) -> (r: RecordingDelegate)
        ensures
            r.requests() == Seq::<DelegateRequest>::empty(),
            r.scripted() == status,
    {
        RecordingDelegate { status, requests: Vec::new() }
    }

    /// The requests forwarded so far, oldest first.
    pub fn request_log(&self) -> (r: &Vec<DelegateRequest>)
        ensures
            r@ == self.requests(),
    {
        &self.requests
    }
}

impl SwapDelegate for RecordingDelegate {
    closed spec fn requests(&self) -> ForwardedRequests {
        self.requests@
    }

    fn create_swap_delegate(
        &mut self,
        delegate: AccountId,
        token_a: AccountId,
        token_b: AccountId,
        amount_a: Balance,
        amount_b: Balance,
        duration: BlockNumber,
    ) -> (r: DelegateCallStatus)
        ensures
            r == old(self).scripted(),
            final(self).scripted() == old(self).scripted(),
    {
        self.requests.push(
            DelegateRequest { delegate, token_a, token_b, amount_a, amount_b, duration },
        );
        self.status
    }
}

} // verus!
