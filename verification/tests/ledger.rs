use entryx::account::{AccountId, AssetId};
use entryx::error::SettlementError;
use entryx::holdings::Transfer;
use entryx::ledger::Ledger;

const TICKET: AssetId = AssetId(1);
const COIN: AssetId = AssetId(2);
const ALICE: AccountId = AccountId(10);
const BOB: AccountId = AccountId(11);
const CAROL: AccountId = AccountId(12);

#[test]
fn new_ledger_holds_nothing() {
    let ledger = Ledger::new();
    assert_eq!(ledger.balance(TICKET, ALICE), 0);
    assert_eq!(ledger.total_supply(TICKET), 0);
}

#[test]
fn mint_raises_balance_and_supply() {
    let mut ledger = Ledger::new();
    assert_eq!(ledger.mint(COIN, ALICE, 100), Ok(()));
    assert_eq!(ledger.mint(COIN, BOB, 50), Ok(()));
    assert_eq!(ledger.mint(TICKET, BOB, 3), Ok(()));
    assert_eq!(ledger.balance(COIN, ALICE), 100);
    assert_eq!(ledger.balance(COIN, BOB), 50);
    assert_eq!(ledger.balance(TICKET, BOB), 3);
    assert_eq!(ledger.balance(TICKET, ALICE), 0);
    assert_eq!(ledger.total_supply(COIN), 150);
    assert_eq!(ledger.total_supply(TICKET), 3);
}

#[test]
fn mint_refuses_negative_and_overflow() {
    let mut ledger = Ledger::new();
    assert_eq!(ledger.mint(COIN, ALICE, -1), Err(SettlementError::TransferFailed));
    assert_eq!(ledger.mint(COIN, ALICE, i128::MAX), Ok(()));
    assert_eq!(ledger.mint(COIN, BOB, 1), Err(SettlementError::ArithmeticOverflow));
    assert_eq!(ledger.balance(COIN, BOB), 0);
    assert_eq!(ledger.total_supply(COIN), i128::MAX);
}

#[test]
fn transfer_moves_value_and_keeps_supply() {
    let mut ledger = Ledger::new();
    ledger.mint(COIN, ALICE, 100).unwrap();
    assert_eq!(ledger.transfer(COIN, ALICE, BOB, 40), Ok(()));
    assert_eq!(ledger.balance(COIN, ALICE), 60);
    assert_eq!(ledger.balance(COIN, BOB), 40);
    assert_eq!(ledger.total_supply(COIN), 100);
}

#[test]
fn transfer_to_oneself_changes_nothing() {
    let mut ledger = Ledger::new();
    ledger.mint(COIN, ALICE, 100).unwrap();
    assert_eq!(ledger.transfer(COIN, ALICE, ALICE, 100), Ok(()));
    assert_eq!(ledger.balance(COIN, ALICE), 100);
    assert_eq!(ledger.transfer(COIN, ALICE, ALICE, 101), Err(SettlementError::TransferFailed));
}

#[test]
fn transfer_refuses_shortfall_and_negative_amount() {
    let mut ledger = Ledger::new();
    ledger.mint(COIN, ALICE, 10).unwrap();
    assert_eq!(ledger.transfer(COIN, ALICE, BOB, 11), Err(SettlementError::TransferFailed));
    assert_eq!(ledger.transfer(COIN, ALICE, BOB, -1), Err(SettlementError::TransferFailed));
    assert_eq!(ledger.transfer(TICKET, ALICE, BOB, 1), Err(SettlementError::TransferFailed));
    assert_eq!(ledger.balance(COIN, ALICE), 10);
    assert_eq!(ledger.balance(COIN, BOB), 0);
}

#[test]
fn burn_lowers_balance_and_supply() {
    let mut ledger = Ledger::new();
    ledger.mint(COIN, ALICE, 10).unwrap();
    assert_eq!(ledger.burn(COIN, ALICE, 4), Ok(()));
    assert_eq!(ledger.balance(COIN, ALICE), 6);
    assert_eq!(ledger.total_supply(COIN), 6);
    assert_eq!(ledger.burn(COIN, ALICE, 7), Err(SettlementError::InsufficientFunds));
    assert_eq!(ledger.burn(COIN, ALICE, -1), Err(SettlementError::TransferFailed));
    assert_eq!(ledger.balance(COIN, ALICE), 6);
}

#[test]
fn settle_makes_all_transfers_in_order() {
    let mut ledger = Ledger::new();
    ledger.mint(COIN, ALICE, 10).unwrap();
    // Bob can pay Carol only because Alice has paid Bob first.
    let transfers = vec![
        Transfer { asset: COIN, from: ALICE, to: BOB, amount: 10 },
        Transfer { asset: COIN, from: BOB, to: CAROL, amount: 7 },
    ];
    assert_eq!(ledger.settle(&transfers), Ok(()));
    assert_eq!(ledger.balance(COIN, ALICE), 0);
    assert_eq!(ledger.balance(COIN, BOB), 3);
    assert_eq!(ledger.balance(COIN, CAROL), 7);
    assert_eq!(ledger.total_supply(COIN), 10);
}

#[test]
fn settle_makes_none_when_one_fails() {
    let mut ledger = Ledger::new();
    ledger.mint(COIN, ALICE, 10).unwrap();
    ledger.mint(TICKET, BOB, 1).unwrap();
    let transfers = vec![
        Transfer { asset: COIN, from: ALICE, to: BOB, amount: 10 },
        Transfer { asset: TICKET, from: BOB, to: ALICE, amount: 2 },
    ];
    assert_eq!(ledger.settle(&transfers), Err(SettlementError::TransferFailed));
    assert_eq!(ledger.balance(COIN, ALICE), 10);
    assert_eq!(ledger.balance(COIN, BOB), 0);
    assert_eq!(ledger.balance(TICKET, BOB), 1);
    assert_eq!(ledger.balance(TICKET, ALICE), 0);
}

#[test]
fn settle_of_nothing_succeeds() {
    let mut ledger = Ledger::new();
    assert_eq!(ledger.settle(&Vec::new()), Ok(()));
}

#[test]
fn snapshot_is_independent_copy() {
    let mut ledger = Ledger::new();
    ledger.mint(COIN, ALICE, 10).unwrap();
    let copy = ledger.snapshot();
    ledger.transfer(COIN, ALICE, BOB, 10).unwrap();
    assert_eq!(copy.balance(COIN, ALICE), 10);
    assert_eq!(ledger.balance(COIN, ALICE), 0);
}
