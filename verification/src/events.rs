//! Domain events appended by the engine for an out-of-scope observer layer.

use vstd::prelude::*;

use crate::domain::AccountId;

verus! {

/// A swap was created: `id` was assigned and the offer escrowed.
#[derive(Debug, Clone, Copy, PartialEq, Eq, Structural)]
pub struct SwapCreated {
    /// Identifier assigned to the new swap.
    pub id: u64,
    /// Identity that created the offer.
    pub creator: AccountId,
}

/// A swap was accepted: one (possibly partial) fill went through.
#[derive(Debug, Clone, Copy, PartialEq, Eq, Structural)]
pub struct SwapAccepted {
    /// Identifier of the accepted swap.
    pub id: u64,
    /// Identity that performed the fill.
    pub acceptor: AccountId,
}

/// A swap was cancelled by its creator and its record removed.
#[derive(Debug, Clone, Copy, PartialEq, Eq, Structural)]
pub struct SwapDeleted {
    /// Identifier of the removed swap.
    pub id: u64,
}

/// One entry of the engine's event log.
#[derive(Debug, Clone, Copy, PartialEq, Eq, Structural)]
pub enum SwapEvent {
    /// A creation event.
    Created(SwapCreated),
    /// An acceptance event.
    Accepted(SwapAccepted),
    /// A deletion event.
    Deleted(SwapDeleted),
}

/// The event the engine appends when a swap is created.
pub open spec fn created_event(id: u64, creator: AccountId) -> SwapEvent {
    SwapEvent::Created(SwapCreated { id, creator })
}

/// The event the engine appends when a fill goes through.
pub open spec fn accepted_event(id: u64, acceptor: AccountId) -> SwapEvent {
    SwapEvent::Accepted(SwapAccepted { id, acceptor })
}

/// The event the engine appends when a swap is cancelled.
pub open spec fn deleted_event(id: u64) -> SwapEvent {
    SwapEvent::Deleted(SwapDeleted { id })
}

} // verus!
