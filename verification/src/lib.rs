//! An atomic two-party token-swap escrow engine.
//!
//! A creator offers `amount_a` units of token A in exchange for `amount_b`
//! units of token B. The offered units are held in custody by the engine's
//! custodian account until the offer is either fulfilled (fully or in
//! incremental partial fills, by one or more acceptors, before an expiration
//! counter) or cancelled by the creator.
//!
//! Token balances live in external token contracts. The engine reaches them
//! only through the [`gateway::TokenGateway`] capability trait, whose contract
//! states exactly how a conforming token must react to balance queries and
//! transfers. [`ledger::LedgerGateway`] is a verified in-memory implementation
//! of that capability; adapters for a real chain environment live outside the
//! verified library, since a cross-contract call cannot be executed here.
//!
//! Fulfillment is uniform: accepting a swap is one operation that fills both
//! legs by explicit amounts. A full fill in one call realizes the single-shot
//! acceptance policy — the completed offer is finalized and its record
//! removed — while smaller fills realize incremental partial acceptance, by
//! one or several acceptors. Creation can instead be forwarded to a
//! configured delegate contract through [`delegate::SwapDelegate`].

pub mod auth;
pub mod delegate;
pub mod domain;
pub mod engine;
pub mod events;
pub mod gateway;
pub mod ledger;
pub mod registry;
pub mod swap;
