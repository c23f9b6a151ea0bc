//! The ticket token: one asset whose units are whole tickets.

use crate::account::{AccountId, AssetId};
use crate::error::SettlementError;
use crate::host::{string_from_str, text_of};
use crate::holdings::{adjusted, moved, Holding};
use crate::ledger::Ledger;
use vstd::prelude::*;

verus! {

/// The keys under which the token keeps its records.
#[derive(Clone, Copy, Debug, PartialEq, Eq, Structural)]
pub enum DataKey {
    Admin,
    AssetInfo,
    Balance(AccountId),
}

/// The key of an allowance: who may spend from whose balance.
#[derive(Clone, Copy, Debug, PartialEq, Eq, Structural)]
pub struct AllowanceDataKey {
    pub from: AccountId,
    pub spender: AccountId,
}

/// An allowance: how much may be spent, and until which ledger it stands.
#[derive(Clone, Copy, Debug, PartialEq, Eq, Structural)]
pub struct AllowanceValue {
    pub amount: i128,
    pub expiration_ledger: u32,
}

/// A balance with its flags.
#[derive(Clone, Copy, Debug, PartialEq, Eq, Structural)]
pub struct BalanceValue {
    pub amount: i128,
    pub authorized: bool,
    pub clawback: bool,
}

/// A token of concert tickets: the balances of one asset and the account
/// that administers it.
pub struct ConcertTicketContract {
    asset: AssetId,
    administrator: Option<AccountId>,
    ledger: Ledger,
}

impl ConcertTicketContract {
    /// The balances are those of a well-formed ledger.
    pub closed spec fn wf(&self) -> bool {
        self.ledger.wf()
    }

    /// The asset that this token issues.
    pub closed spec fn asset(&self) -> AssetId {
        self.asset
    }

    /// The ledger on which the token keeps its balances.
    pub closed spec fn ledger(&self) -> Ledger {
        self.ledger
    }

    /// The balance of `id`.
    pub open spec fn balance_of(&self, id: AccountId) -> int {
        self.ledger().balance_of(self.asset(), id)
    }

    /// The number of tickets in existence.
    pub open spec fn supply(&self) -> int {
        self.ledger().supply(self.asset())
    }

    /// The administrator, if one has been set.
    pub closed spec fn admin_of(&self) -> Option<AccountId> {
        self.administrator
    }

    /// A token of `asset` with no ticket issued and no administrator.
    pub fn new(asset: AssetId) -> (token: ConcertTicketContract)
        ensures
            token.wf(),
            token.asset() == asset,
            token.admin_of() == None::<AccountId>,
            token.ledger()@ == Seq::<Holding>::empty(),
    {
        ConcertTicketContract { asset, administrator: None, ledger: Ledger::new() }
    }

    /// The number of decimals in which amounts of this token are written:
    /// none, as each ticket is a whole unit.
    pub fn decimals() -> (places: u32)
        ensures
            places == 0,
    {
        0
    }

    /// The name of this token.
    pub fn name(env: &soroban_sdk::Env) -> (name: soroban_sdk::String)
        ensures
            text_of(name) == "ENTRYXASSET"@,
    {
        string_from_str(env, "ENTRYXASSET")
    }

    /// The symbol of this token.
    pub fn symbol(env: &soroban_sdk::Env) -> (symbol: soroban_sdk::String)
        ensures
            text_of(symbol) == "ENTRYX"@,
    {
        string_from_str(env, "ENTRYX")
    }

    /// The balance of `id`: zero for an account that has never held a ticket.
    pub fn balance(&self, id: AccountId) -> (amount: i128)
        requires
            self.wf(),
        ensures
            amount == self.balance_of(id),
            amount >= 0,
    {
        self.ledger.balance(self.asset, id)
    }

    /// Moves `amount` tickets from `from` to `to`.
    ///
    /// The transfer is made exactly when the amount is not negative and
    /// `from` holds at least that many; otherwise nothing changes. The
    /// number of tickets in existence stays what it was.
    pub fn transfer(&mut self, from: AccountId, to: AccountId, amount: i128) -> (result: Result<
        (),
        SettlementError,
    >)
        requires
            old(self).wf(),
        ensures
            final(self).wf(),
            final(self).asset() == old(self).asset(),
            final(self).admin_of() == old(self).admin_of(),
            result is Ok <==> 0 <= amount <= old(self).balance_of(from),
            result is Ok ==> moved(
                old(self).ledger()@,
                final(self).ledger()@,
                old(self).asset(),
                from,
                to,
                amount as int,
            ),
            result is Ok ==> final(self).supply() == old(self).supply(),
            result is Err ==> result == Err::<(), SettlementError>(SettlementError::TransferFailed)
                && final(self).ledger()@ == old(self).ledger()@,
    {
        self.ledger.transfer(self.asset, from, to, amount)
    }

    /// Destroys `amount` tickets held by `from`.
    ///
    /// A negative amount is refused as a failed transfer and an amount above
    /// the balance as insufficient funds; nothing changes then.
    pub fn burn(&mut self, from: AccountId, amount: i128) -> (result: Result<(), SettlementError>)
        requires
            old(self).wf(),
        ensures
            final(self).wf(),
            final(self).asset() == old(self).asset(),
            final(self).admin_of() == old(self).admin_of(),
            result is Ok <==> 0 <= amount <= old(self).balance_of(from),
            result is Ok ==> adjusted(
                old(self).ledger()@,
                final(self).ledger()@,
                old(self).asset(),
                from,
                -amount,
            ),
            result is Err ==> final(self).ledger()@ == old(self).ledger()@,
            amount < 0 ==> result == Err::<(), SettlementError>(SettlementError::TransferFailed),
            amount >= 0 && old(self).balance_of(from) < amount ==> result == Err::<
                (),
                SettlementError,
            >(SettlementError::InsufficientFunds),
    {
        self.ledger.burn(self.asset, from, amount)
    }

    /// Makes `new_admin` the administrator.
    pub fn set_admin(&mut self, new_admin: AccountId)
        ensures
            final(self).admin_of() == Some(new_admin),
            final(self).asset() == old(self).asset(),
            final(self).ledger() == old(self).ledger(),
    {
        self.administrator = Some(new_admin);
    }

    /// The administrator, if one has been set.
    pub fn admin(&self) -> (admin: Option<AccountId>)
        ensures
            admin == self.admin_of(),
    {
        self.administrator
    }

    /// Issues `amount` tickets to `to`.
    ///
    /// A negative amount is refused as a failed transfer, and an amount that
    /// would take the number of tickets out of range as an overflow; nothing
    /// changes then.
    pub fn mint(&mut self, to: AccountId, amount: i128) -> (result: Result<(), SettlementError>)
        requires
            old(self).wf(),
        ensures
            final(self).wf(),
            final(self).asset() == old(self).asset(),
            final(self).admin_of() == old(self).admin_of(),
            result is Ok <==> 0 <= amount && old(self).supply() + amount <= i128::MAX,
            result is Ok ==> adjusted(
                old(self).ledger()@,
                final(self).ledger()@,
                old(self).asset(),
                to,
                amount as int,
            ),
            result is Err ==> final(self).ledger()@ == old(self).ledger()@,
            amount < 0 ==> result == Err::<(), SettlementError>(SettlementError::TransferFailed),
            amount >= 0 && old(self).supply() + amount > i128::MAX ==> result == Err::<
                (),
                SettlementError,
            >(SettlementError::ArithmeticOverflow),
    {
        self.ledger.mint(self.asset, to, amount)
    }

    /// Takes `amount` tickets back from `from` and destroys them.
    ///
    /// A negative amount is refused as a failed transfer and an amount above
    /// the balance as insufficient funds; nothing changes then.
    pub fn clawback(&mut self, from: AccountId, amount: i128) -> (result: Result<
        (),
        SettlementError,
    >)
        requires
            old(self).wf(),
        ensures
            final(self).wf(),
            final(self).asset() == old(self).asset(),
            final(self).admin_of() == old(self).admin_of(),
            result is Ok <==> 0 <= amount <= old(self).balance_of(from),
            result is Ok ==> adjusted(
                old(self).ledger()@,
                final(self).ledger()@,
                old(self).asset(),
                from,
                -amount,
            ),
            result is Err ==> final(self).ledger()@ == old(self).ledger()@,
            amount < 0 ==> result == Err::<(), SettlementError>(SettlementError::TransferFailed),
            amount >= 0 && old(self).balance_of(from) < amount ==> result == Err::<
                (),
                SettlementError,
            >(SettlementError::InsufficientFunds),
    {
        self.ledger.burn(self.asset, from, amount)
    }
}

} // verus!
