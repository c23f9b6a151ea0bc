use entryx::account::{AccountId, AssetId};
use entryx::error::SettlementError;
use entryx::token::ConcertTicketContract;

#[test]
fn decimals_are_zero() {
    assert_eq!(ConcertTicketContract::decimals(), 0);
}

#[test]
fn name_and_symbol_are_host_strings() {
    let env = soroban_sdk::Env::default();
    let name = ConcertTicketContract::name(&env);
    let symbol = ConcertTicketContract::symbol(&env);
    assert_eq!(name, soroban_sdk::String::from_str(&env, "ENTRYXASSET"));
    assert_eq!(symbol, soroban_sdk::String::from_str(&env, "ENTRYX"));
    assert_ne!(name, symbol);
    assert_eq!(name.len(), 11);
}

#[test]
fn mint_then_transfer_keeps_supply() {
    let mut token = ConcertTicketContract::new(AssetId(7));
    let alice = AccountId(1);
    let bob = AccountId(2);
    assert_eq!(token.mint(alice, 50), Ok(()));
    assert_eq!(token.transfer(alice, bob, 20), Ok(()));
    assert_eq!(token.balance(alice), 30);
    assert_eq!(token.balance(bob), 20);
    assert_eq!(token.transfer(alice, bob, 31), Err(SettlementError::TransferFailed));
    assert_eq!(token.balance(alice), 30);
    assert_eq!(token.balance(bob), 20);
}

#[test]
fn burn_and_clawback_destroy_tickets() {
    let mut token = ConcertTicketContract::new(AssetId(7));
    let alice = AccountId(1);
    token.mint(alice, 10).unwrap();
    assert_eq!(token.burn(alice, 3), Ok(()));
    assert_eq!(token.clawback(alice, 2), Ok(()));
    assert_eq!(token.balance(alice), 5);
    assert_eq!(token.burn(alice, 6), Err(SettlementError::InsufficientFunds));
    assert_eq!(token.clawback(alice, 6), Err(SettlementError::InsufficientFunds));
    assert_eq!(token.burn(alice, -1), Err(SettlementError::TransferFailed));
    assert_eq!(token.balance(alice), 5);
}

#[test]
fn mint_refuses_negative_amounts_and_overflow() {
    let mut token = ConcertTicketContract::new(AssetId(7));
    assert_eq!(token.mint(AccountId(1), -1), Err(SettlementError::TransferFailed));
    assert_eq!(token.mint(AccountId(1), i128::MAX), Ok(()));
    assert_eq!(token.mint(AccountId(2), 1), Err(SettlementError::ArithmeticOverflow));
    assert_eq!(token.balance(AccountId(2)), 0);
}

#[test]
fn admin_is_unset_until_set() {
    let mut token = ConcertTicketContract::new(AssetId(7));
    assert_eq!(token.admin(), None);
    token.set_admin(AccountId(9));
    assert_eq!(token.admin(), Some(AccountId(9)));
    token.set_admin(AccountId(8));
    assert_eq!(token.admin(), Some(AccountId(8)));
}
