//! Acceptance: full fills, partial fills, expiration, authorization and
//! the failure windows of the two transfer legs.

use token_swap::delegate::{DelegateCallStatus, RecordingDelegate};
use token_swap::domain::Error;
use token_swap::engine::TokenSwap;
use token_swap::events::{SwapAccepted, SwapEvent};
use token_swap::ledger::LedgerGateway;

const OWNER: u64 = 1;
const CUSTODIAN: u64 = 90;
const CREATOR: u64 = 2;
const ACCEPTOR: u64 = 3;
const TOKEN_A: u64 = 10;
const TOKEN_B: u64 = 11;

/// A creator holding 100 of token A offers 50 of it for 100 of token B,
/// with the given duration, starting at counter 0.
fn offer(duration: u64, allowed: Option<u64>) -> (TokenSwap, LedgerGateway, u64) {
    let mut engine = TokenSwap::new(OWNER, CUSTODIAN, false);
    let mut ledger = LedgerGateway::new();
    let mut delegate = RecordingDelegate::new(DelegateCallStatus::Completed);
    ledger.set_balance(TOKEN_A, CREATOR, 100);
    let id = engine
        .create_swap(
            &mut ledger,
            &mut delegate,
            CREATOR,
            0,
            TOKEN_A,
            TOKEN_B,
            50,
            100,
            duration,
            allowed,
        )
        .unwrap();
    (engine, ledger, id)
}

fn fund_acceptor(ledger: &mut LedgerGateway, acceptor: u64, amount: u128) {
    ledger.set_balance(TOKEN_B, acceptor, amount);
    ledger.set_allowance(TOKEN_B, acceptor, amount);
}

#[test]
fn full_fill_exchanges_both_legs_and_finalizes() {
    let (mut engine, mut ledger, id) = offer(10, None);
    assert_eq!(id, 0);
    assert_eq!(engine.get_swap(id).unwrap().expiration, 10);
    assert_eq!(ledger.balance(TOKEN_A, CUSTODIAN), 50);
    fund_acceptor(&mut ledger, ACCEPTOR, 100);

    let r = engine.accept_swap(&mut ledger, ACCEPTOR, 5, id, 50, 100);
    assert_eq!(r, Ok(()));
    assert_eq!(ledger.balance(TOKEN_B, CREATOR), 100);
    assert_eq!(ledger.balance(TOKEN_B, ACCEPTOR), 0);
    assert_eq!(ledger.balance(TOKEN_A, ACCEPTOR), 50);
    assert_eq!(ledger.balance(TOKEN_A, CUSTODIAN), 0);
    // the offer is exactly completed, so the record is finalized and removed
    assert!(!engine.contains_swap(id));
    assert_eq!(
        engine.event_log().last(),
        Some(&SwapEvent::Accepted(SwapAccepted { id, acceptor: ACCEPTOR }))
    );
}

#[test]
fn two_partial_fills_reach_the_requested_amount() {
    let (mut engine, mut ledger, id) = offer(10, None);
    let other: u64 = 4;
    fund_acceptor(&mut ledger, ACCEPTOR, 50);
    fund_acceptor(&mut ledger, other, 50);

    assert_eq!(engine.accept_swap(&mut ledger, ACCEPTOR, 1, id, 0, 50), Ok(()));
    let mid = engine.get_swap(id).unwrap();
    assert_eq!(mid.accepted_a, 0);
    assert_eq!(mid.accepted_b, 50);

    assert_eq!(engine.accept_swap(&mut ledger, other, 2, id, 0, 50), Ok(()));
    let full = engine.get_swap(id).unwrap();
    assert_eq!(full.accepted_b, 100);
    assert_eq!(ledger.balance(TOKEN_B, CREATOR), 100);

    // a third fill of any positive amount of token B overshoots the offer
    let third: u64 = 5;
    fund_acceptor(&mut ledger, third, 10);
    let r = engine.accept_swap(&mut ledger, third, 3, id, 0, 1);
    assert_eq!(r, Err(Error::InsufficientBalance));
    let unchanged = engine.get_swap(id).unwrap();
    assert_eq!(unchanged.accepted_a, 0);
    assert_eq!(unchanged.accepted_b, 100);
    assert_eq!(ledger.balance(TOKEN_B, third), 10);
}

#[test]
fn fills_keep_cumulative_amounts_within_the_offer() {
    let (mut engine, mut ledger, id) = offer(10, None);
    fund_acceptor(&mut ledger, ACCEPTOR, 100);

    assert_eq!(engine.accept_swap(&mut ledger, ACCEPTOR, 1, id, 20, 40), Ok(()));
    let s = engine.get_swap(id).unwrap();
    assert!(s.accepted_a <= s.amount_a && s.accepted_b <= s.amount_b);

    assert_eq!(engine.accept_swap(&mut ledger, ACCEPTOR, 2, id, 20, 40), Ok(()));
    let s = engine.get_swap(id).unwrap();
    assert!(s.accepted_a <= s.amount_a && s.accepted_b <= s.amount_b);
    assert_eq!((s.accepted_a, s.accepted_b), (40, 80));

    // overshooting either leg fails and applies no partial mutation
    let r = engine.accept_swap(&mut ledger, ACCEPTOR, 3, id, 20, 10);
    assert_eq!(r, Err(Error::InsufficientBalance));
    let s = engine.get_swap(id).unwrap();
    assert_eq!((s.accepted_a, s.accepted_b), (40, 80));
    assert_eq!(ledger.balance(TOKEN_A, ACCEPTOR), 40);
    assert_eq!(ledger.balance(TOKEN_B, CREATOR), 80);
}

#[test]
fn expired_swap_rejects_fills_and_escrow_stays_recoverable() {
    let (mut engine, mut ledger, id) = offer(5, None);
    fund_acceptor(&mut ledger, ACCEPTOR, 100);

    let r = engine.accept_swap(&mut ledger, ACCEPTOR, 7, id, 50, 100);
    assert_eq!(r, Err(Error::SwapExpired));
    assert_eq!(ledger.balance(TOKEN_B, ACCEPTOR), 100);
    assert_eq!(ledger.balance(TOKEN_A, CUSTODIAN), 50);
    assert!(engine.contains_swap(id));

    // the escrowed amount remains recoverable by the creator afterwards
    assert_eq!(engine.delete_swap(&mut ledger, CREATOR, id), Ok(()));
    assert_eq!(ledger.balance(TOKEN_A, CREATOR), 100);
    assert_eq!(ledger.balance(TOKEN_A, CUSTODIAN), 0);
}

#[test]
fn boundary_counter_equal_to_expiration_still_accepts() {
    let (mut engine, mut ledger, id) = offer(5, None);
    fund_acceptor(&mut ledger, ACCEPTOR, 100);
    assert_eq!(engine.accept_swap(&mut ledger, ACCEPTOR, 5, id, 50, 100), Ok(()));
}

#[test]
fn unknown_identifier_cannot_be_accepted() {
    let (mut engine, mut ledger, _) = offer(10, None);
    let r = engine.accept_swap(&mut ledger, ACCEPTOR, 1, 77, 1, 1);
    assert_eq!(r, Err(Error::SwapNotFound));
}

#[test]
fn restricted_offer_only_accepts_the_allowed_identity() {
    let allowed: u64 = 7;
    let (mut engine, mut ledger, id) = offer(10, Some(allowed));
    fund_acceptor(&mut ledger, ACCEPTOR, 100);
    fund_acceptor(&mut ledger, allowed, 100);

    let r = engine.accept_swap(&mut ledger, ACCEPTOR, 1, id, 50, 100);
    assert_eq!(r, Err(Error::Unauthorized));
    assert!(engine.contains_swap(id));
    assert_eq!(ledger.balance(TOKEN_B, ACCEPTOR), 100);

    assert_eq!(engine.accept_swap(&mut ledger, allowed, 1, id, 50, 100), Ok(()));
    assert_eq!(ledger.balance(TOKEN_A, allowed), 50);
}

#[test]
fn fill_with_short_balance_fails_before_any_transfer() {
    let (mut engine, mut ledger, id) = offer(10, None);
    ledger.set_balance(TOKEN_B, ACCEPTOR, 99);
    ledger.set_allowance(TOKEN_B, ACCEPTOR, 100);

    // a short balance is told apart from a broken token integration
    let r = engine.accept_swap(&mut ledger, ACCEPTOR, 1, id, 50, 100);
    assert_eq!(r, Err(Error::InsufficientBalance));
    assert!(engine.contains_swap(id));
    assert_eq!(ledger.balance(TOKEN_B, ACCEPTOR), 99);
    assert_eq!(ledger.balance(TOKEN_B, CREATOR), 0);
    assert_eq!(ledger.balance(TOKEN_A, CUSTODIAN), 50);
    assert_eq!(ledger.approved(TOKEN_B, ACCEPTOR), 100);
}

#[test]
fn fill_without_approval_fails_and_moves_nothing() {
    let (mut engine, mut ledger, id) = offer(10, None);
    ledger.set_balance(TOKEN_B, ACCEPTOR, 100);
    // no allowance granted: the pull of the payment is rejected

    let r = engine.accept_swap(&mut ledger, ACCEPTOR, 1, id, 50, 100);
    assert_eq!(r, Err(Error::TransferFailed));
    assert!(engine.contains_swap(id));
    assert_eq!(ledger.balance(TOKEN_B, ACCEPTOR), 100);
    assert_eq!(ledger.balance(TOKEN_B, CREATOR), 0);
    assert_eq!(ledger.balance(TOKEN_A, CUSTODIAN), 50);
}

#[test]
fn second_leg_failure_keeps_the_record_and_is_visible() {
    let (mut engine, mut ledger, id) = offer(10, None);
    fund_acceptor(&mut ledger, ACCEPTOR, 100);
    // an outside actor drains custody between creation and acceptance
    ledger.set_balance(TOKEN_A, CUSTODIAN, 0);

    let r = engine.accept_swap(&mut ledger, ACCEPTOR, 1, id, 50, 100);
    assert_eq!(r, Err(Error::TransferFailed));
    // the record and log are untouched; only the pulled payment has moved —
    // exactly the window the operation's contract states
    let s = engine.get_swap(id).unwrap();
    assert_eq!((s.accepted_a, s.accepted_b), (0, 0));
    assert_eq!(ledger.balance(TOKEN_B, ACCEPTOR), 0);
    assert_eq!(ledger.balance(TOKEN_B, CREATOR), 100);
    assert_eq!(ledger.balance(TOKEN_A, ACCEPTOR), 0);
}

#[test]
fn creator_may_accept_their_own_open_offer() {
    let (mut engine, mut ledger, id) = offer(10, None);
    fund_acceptor(&mut ledger, CREATOR, 100);

    assert_eq!(engine.accept_swap(&mut ledger, CREATOR, 1, id, 50, 100), Ok(()));
    assert_eq!(ledger.balance(TOKEN_A, CREATOR), 100);
    assert_eq!(ledger.balance(TOKEN_B, CREATOR), 100);
    assert!(!engine.contains_swap(id));
}
