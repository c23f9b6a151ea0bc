//! A ledger of fungible balances: which account holds how much of which asset.
//!
//! The ledger only ever moves value between accounts through transfers, which
//! leave the supply of every asset unchanged. Supply changes through `mint`
//! and `burn` alone.

use crate::account::{AccountId, AssetId};
use crate::error::SettlementError;
use crate::holdings::{
    adjust_in, adjusted, amount_in, conserved, held_at, holdings_valid, lemma_adjust_in,
    lemma_amount_at, lemma_settle_in, lemma_supply_bounds, lemma_supply_prefix, lemma_transfer_in,
    moved, settle_in, settled, supply_in, transfer_in, Holding, Transfer,
};
use vstd::prelude::*;

verus! {

/// Balances of any number of assets, by account.
pub struct Ledger {
    holdings: Vec<Holding>,
}

impl Ledger {
    /// The recorded holdings, one entry for each account and asset that the
    /// ledger has seen.
    pub closed spec fn view(&self) -> Seq<Holding> {
        self.holdings@
    }

    /// Each account and asset is recorded at most once, no balance is
    /// negative, and every asset's supply is representable.
    pub open spec fn wf(&self) -> bool {
        holdings_valid(self@)
    }

    /// The balance of `account` in `asset`.
    pub open spec fn balance_of(&self, asset: AssetId, account: AccountId) -> int {
        amount_in(self@, asset, account)
    }

    /// The total of `asset` over all accounts.
    pub open spec fn supply(&self, asset: AssetId) -> int {
        supply_in(self@, asset)
    }

    /// A ledger on which nobody holds anything.
    pub fn new() -> (ledger: Ledger)
        ensures
            ledger.wf(),
            ledger@ == Seq::<Holding>::empty(),
    {
        let ledger = Ledger { holdings: Vec::new() };
        assert forall|asset: AssetId| #[trigger] supply_in(ledger@, asset) <= i128::MAX by {
            assert(supply_in(ledger@, asset) == 0);
        }
        ledger
    }

    fn position(&self, asset: AssetId, account: AccountId) -> (found: Option<usize>)
        ensures
            match found {
                Some(i) => held_at(self@, asset, account, i as int),
                None => forall|i: int| !held_at(self@, asset, account, i),
            },
    {
        let mut i: usize = 0;
        while i < self.holdings.len()
            invariant
                i <= self.holdings.len(),
                forall|k: int| 0 <= k < i ==> !held_at(self@, asset, account, k),
            decreases self.holdings.len() - i,
        {
            if self.holdings[i].asset == asset && self.holdings[i].account == account {
                return Some(i);
            }
            i += 1;
        }
        None
    }

    /// The balance of `account` in `asset`; zero for an account the ledger
    /// has never seen.
    pub fn balance(&self, asset: AssetId, account: AccountId) -> (amount: i128)
        requires
            self.wf(),
        ensures
            amount == self.balance_of(asset, account),
            amount >= 0,
    {
        match self.position(asset, account) {
            Some(i) => {
                proof {
                    lemma_amount_at(self@, i as int);
                }
                self.holdings[i].amount
            },
            None => 0,
        }
    }

    fn adjust(&mut self, asset: AssetId, account: AccountId, delta: i128)
        requires
            old(self).wf(),
            old(self).balance_of(asset, account) + delta >= 0,
            old(self).supply(asset) + delta <= i128::MAX,
        ensures
            final(self).wf(),
            final(self)@ == adjust_in(old(self)@, asset, account, delta as int),
            adjusted(old(self)@, final(self)@, asset, account, delta as int),
    {
        proof {
            lemma_adjust_in(self@, asset, account, delta as int);
            lemma_supply_bounds(self@, asset);
        }
        match self.position(asset, account) {
            Some(i) => {
                proof {
                    lemma_amount_at(self@, i as int);
                    let chosen = choose|k: int| held_at(self@, asset, account, k);
                    assert(self@[chosen].asset == self@[i as int].asset && self@[chosen].account
                        == self@[i as int].account);
                    assert(chosen == i);
                }
                let amount: i128 = self.holdings[i].amount + delta;
                self.holdings.set(i, Holding { asset, account, amount });
            },
            None => {
                self.holdings.push(Holding { asset, account, amount: delta });
            },
        }
    }

    /// Moves `amount` of `asset` from `from` to `to`.
    ///
    /// The transfer is made exactly when the amount is not negative and the
    /// sender holds at least that much; otherwise the ledger is left as it
    /// was. No transfer changes the supply of any asset.
    pub fn transfer(&mut self, asset: AssetId, from: AccountId, to: AccountId, amount: i128) -> (result:
        Result<(), SettlementError>)
        requires
            old(self).wf(),
        ensures
            final(self).wf(),
            conserved(old(self)@, final(self)@),
            result is Ok <==> 0 <= amount <= old(self).balance_of(asset, from),
            result is Ok ==> final(self)@ == transfer_in(
                old(self)@,
                (Transfer { asset, from, to, amount }),
            ),
            result is Ok ==> moved(old(self)@, final(self)@, asset, from, to, amount as int),
            result is Err ==> result == Err::<(), SettlementError>(SettlementError::TransferFailed)
                && final(self)@ == old(self)@,
    {
        if amount < 0 || self.balance(asset, from) < amount {
            return Err(SettlementError::TransferFailed);
        }
        proof {
            lemma_supply_bounds(self@, asset);
            lemma_transfer_in(self@, (Transfer { asset, from, to, amount }));
        }
        self.adjust(asset, from, -amount);
        self.adjust(asset, to, amount);
        Ok(())
    }

    /// A copy of the ledger as it stands.
    pub fn snapshot(&self) -> (copy: Ledger)
        ensures
            copy@ == self@,
    {
        let mut holdings: Vec<Holding> = Vec::new();
        let mut i: usize = 0;
        while i < self.holdings.len()
            invariant
                i <= self.holdings.len(),
                holdings@ == self.holdings@.take(i as int),
            decreases self.holdings.len() - i,
        {
            holdings.push(self.holdings[i]);
            proof {
                assert(self.holdings@.take(i + 1) =~= self.holdings@.take(i as int).push(
                    self.holdings@[i as int],
                ));
            }
            i += 1;
        }
        proof {
            assert(self.holdings@.take(i as int) =~= self.holdings@);
        }
        Ledger { holdings }
    }

    /// Makes the transfers `transfers` in order, all of them or none.
    ///
    /// Where each transfer can be made when its turn comes, all are made:
    /// every balance changes by what the transfers add to it, and no supply
    /// changes. Where one cannot, the ledger is left as it was.
    pub fn settle(&mut self, transfers: &Vec<Transfer>) -> (result: Result<(), SettlementError>)
        requires
            old(self).wf(),
        ensures
            final(self).wf(),
            conserved(old(self)@, final(self)@),
            match settle_in(old(self)@, transfers@) {
                Some(after) => result is Ok && final(self)@ == after && settled(
                    old(self)@,
                    final(self)@,
                    transfers@,
                ),
                None => result == Err::<(), SettlementError>(SettlementError::TransferFailed)
                    && final(self)@ == old(self)@,
            },
    {
        let before = self.snapshot();
        let mut i: usize = 0;
        proof {
            assert(transfers@.skip(0) =~= transfers@);
        }
        while i < transfers.len()
            invariant
                self.wf(),
                holdings_valid(old(self)@),
                before@ == old(self)@,
                i <= transfers.len(),
                settle_in(old(self)@, transfers@) == settle_in(self@, transfers@.skip(i as int)),
            decreases transfers.len() - i,
        {
            let t = transfers[i];
            proof {
                assert(transfers@.skip(i as int)[0] == t);
                assert(transfers@.skip(i as int).skip(1) =~= transfers@.skip(i + 1));
            }
            match self.transfer(t.asset, t.from, t.to, t.amount) {
                Ok(()) => {},
                Err(_) => {
                    *self = before;
                    return Err(SettlementError::TransferFailed);
                },
            }
            i += 1;
        }
        proof {
            assert(transfers@.skip(i as int).len() == 0);
            lemma_settle_in(old(self)@, transfers@);
        }
        Ok(())
    }

    /// The total of `asset` over all accounts.
    pub fn total_supply(&self, asset: AssetId) -> (total: i128)
        requires
            self.wf(),
        ensures
            total == self.supply(asset),
            total >= 0,
    {
        let mut total: i128 = 0;
        let mut i: usize = 0;
        while i < self.holdings.len()
            invariant
                self.wf(),
                i <= self.holdings.len(),
                total == supply_in(self@.take(i as int), asset),
            decreases self.holdings.len() - i,
        {
            proof {
                lemma_supply_prefix(self@, asset, i + 1);
                assert(self@.take(i + 1).drop_last() =~= self@.take(i as int));
            }
            if self.holdings[i].asset == asset {
                total = total + self.holdings[i].amount;
            }
            i += 1;
        }
        proof {
            assert(self@.take(i as int) =~= self@);
            lemma_supply_bounds(self@, asset);
        }
        total
    }

    /// Creates `amount` of `asset` on the balance of `to`.
    ///
    /// A negative amount is refused as a failed transfer, and an amount that
    /// would take the asset's supply out of range as an overflow; the ledger
    /// is then left as it was.
    pub fn mint(&mut self, asset: AssetId, to: AccountId, amount: i128) -> (result: Result<
        (),
        SettlementError,
    >)
        requires
            old(self).wf(),
        ensures
            final(self).wf(),
            result is Ok <==> 0 <= amount && old(self).supply(asset) + amount <= i128::MAX,
            result is Ok ==> adjusted(old(self)@, final(self)@, asset, to, amount as int),
            result is Err ==> final(self)@ == old(self)@,
            amount < 0 ==> result == Err::<(), SettlementError>(SettlementError::TransferFailed),
            amount >= 0 && old(self).supply(asset) + amount > i128::MAX ==> result == Err::<
                (),
                SettlementError,
            >(SettlementError::ArithmeticOverflow),
    {
        if amount < 0 {
            return Err(SettlementError::TransferFailed);
        }
        let supply: i128 = self.total_supply(asset);
        if supply > i128::MAX - amount {
            return Err(SettlementError::ArithmeticOverflow);
        }
        self.adjust(asset, to, amount);
        Ok(())
    }

    /// Destroys `amount` of `asset` on the balance of `from`.
    ///
    /// A negative amount is refused as a failed transfer, and an amount above
    /// the balance as insufficient funds; the ledger is then left as it was.
    pub fn burn(&mut self, asset: AssetId, from: AccountId, amount: i128) -> (result: Result<
        (),
        SettlementError,
    >)
        requires
            old(self).wf(),
        ensures
            final(self).wf(),
            result is Ok <==> 0 <= amount <= old(self).balance_of(asset, from),
            result is Ok ==> adjusted(old(self)@, final(self)@, asset, from, -amount),
            result is Err ==> final(self)@ == old(self)@,
            amount < 0 ==> result == Err::<(), SettlementError>(SettlementError::TransferFailed),
            amount >= 0 && old(self).balance_of(asset, from) < amount ==> result == Err::<
                (),
                SettlementError,
            >(SettlementError::InsufficientFunds),
    {
        if amount < 0 {
            return Err(SettlementError::TransferFailed);
        }
        if self.balance(asset, from) < amount {
            return Err(SettlementError::InsufficientFunds);
        }
        proof {
            lemma_supply_bounds(self@, asset);
        }
        self.adjust(asset, from, -amount);
        Ok(())
    }
}

} // verus!
