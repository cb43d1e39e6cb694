//! The in-memory token ledger: exact balance accounting, rejection of
//! unfunded or unapproved transfers, and overflow protection.

use token_swap::domain::Error;
use token_swap::gateway::TokenGateway;
use token_swap::ledger::LedgerGateway;

const TOKEN: u64 = 10;
const OTHER_TOKEN: u64 = 11;
const ALICE: u64 = 1;
const BOB: u64 = 2;

#[test]
fn balances_start_at_zero_and_queries_answer_exactly() {
    let mut ledger = LedgerGateway::new();
    assert_eq!(ledger.balance(TOKEN, ALICE), 0);
    ledger.set_balance(TOKEN, ALICE, 75);
    assert_eq!(ledger.balance(TOKEN, ALICE), 75);
    assert_eq!(ledger.balance(OTHER_TOKEN, ALICE), 0);
    assert_eq!(ledger.balance(TOKEN, BOB), 0);
    assert_eq!(ledger.balance_of(TOKEN, ALICE), Ok(75));
}

#[test]
fn push_transfer_moves_exactly_the_amount() {
    let mut ledger = LedgerGateway::new();
    ledger.set_balance(TOKEN, ALICE, 100);

    assert_eq!(ledger.transfer(TOKEN, ALICE, BOB, 30), Ok(()));
    assert_eq!(ledger.balance(TOKEN, ALICE), 70);
    assert_eq!(ledger.balance(TOKEN, BOB), 30);
    assert_eq!(ledger.balance(OTHER_TOKEN, BOB), 0);
}

#[test]
fn push_transfer_without_funds_is_rejected() {
    let mut ledger = LedgerGateway::new();
    ledger.set_balance(TOKEN, ALICE, 10);

    assert_eq!(ledger.transfer(TOKEN, ALICE, BOB, 11), Err(Error::TransferFailed));
    assert_eq!(ledger.balance(TOKEN, ALICE), 10);
    assert_eq!(ledger.balance(TOKEN, BOB), 0);
}

#[test]
fn push_transfer_overflowing_the_recipient_is_rejected() {
    let mut ledger = LedgerGateway::new();
    ledger.set_balance(TOKEN, ALICE, 10);
    ledger.set_balance(TOKEN, BOB, u128::MAX);

    assert_eq!(ledger.transfer(TOKEN, ALICE, BOB, 1), Err(Error::TransferFailed));
    assert_eq!(ledger.balance(TOKEN, ALICE), 10);
    assert_eq!(ledger.balance(TOKEN, BOB), u128::MAX);
}

#[test]
fn self_transfer_changes_nothing_but_still_needs_funds() {
    let mut ledger = LedgerGateway::new();
    ledger.set_balance(TOKEN, ALICE, 10);

    assert_eq!(ledger.transfer(TOKEN, ALICE, ALICE, 10), Ok(()));
    assert_eq!(ledger.balance(TOKEN, ALICE), 10);
    assert_eq!(ledger.transfer(TOKEN, ALICE, ALICE, 11), Err(Error::TransferFailed));
}

#[test]
fn pull_transfer_consumes_the_approval() {
    let mut ledger = LedgerGateway::new();
    ledger.set_balance(TOKEN, ALICE, 100);
    ledger.set_allowance(TOKEN, ALICE, 40);

    assert_eq!(ledger.transfer_from(TOKEN, ALICE, BOB, 30), Ok(()));
    assert_eq!(ledger.balance(TOKEN, ALICE), 70);
    assert_eq!(ledger.balance(TOKEN, BOB), 30);
    assert_eq!(ledger.approved(TOKEN, ALICE), 10);

    // the remaining approval no longer covers another pull of 30
    assert_eq!(ledger.transfer_from(TOKEN, ALICE, BOB, 30), Err(Error::TransferFailed));
    assert_eq!(ledger.balance(TOKEN, ALICE), 70);
    assert_eq!(ledger.approved(TOKEN, ALICE), 10);
}

#[test]
fn pull_transfer_without_approval_is_rejected() {
    let mut ledger = LedgerGateway::new();
    ledger.set_balance(TOKEN, ALICE, 100);

    assert_eq!(ledger.transfer_from(TOKEN, ALICE, BOB, 1), Err(Error::TransferFailed));
    assert_eq!(ledger.balance(TOKEN, ALICE), 100);
    assert_eq!(ledger.balance(TOKEN, BOB), 0);
}

#[test]
fn tokens_do_not_interfere() {
    let mut ledger = LedgerGateway::new();
    ledger.set_balance(TOKEN, ALICE, 5);
    ledger.set_balance(OTHER_TOKEN, ALICE, 7);

    assert_eq!(ledger.transfer(TOKEN, ALICE, BOB, 5), Ok(()));
    assert_eq!(ledger.balance(OTHER_TOKEN, ALICE), 7);
    assert_eq!(ledger.balance(OTHER_TOKEN, BOB), 0);
}
