//! The auction house: every auction with its fee schedule, and the
//! operations that start, bid on, close and cancel auctions against a ledger.

use crate::account::{AccountId, AssetId};
use crate::auction::{
    after_bid, bid_refusal, bid_transfers, cancel_refusal, cancel_transfers, close_refusal,
    close_transfers, opened, plan_auction, plan_bid, plan_cancel, plan_close, start_refusal,
    start_transfers, with_status, Auction, AuctionConstraint, AuctionStatus, AuctionView,
    ConstraintDataKey, DataKey,
};
use crate::auth::Authorization;
use crate::error::SettlementError;
use crate::events::{Event, Transition};
use crate::holdings::{conserved, settle_in, settled, Holding, Transfer};
use crate::ledger::Ledger;
use vstd::prelude::*;

verus! {

/// An auction with its fee schedule, as kept by the auction house.
pub struct AuctionEntry {
    pub auction: Auction,
    pub constraint: AuctionConstraint,
}

/// What the auction house keeps of one auction.
pub struct AuctionRecord {
    pub auction: AuctionView,
    pub constraint: AuctionConstraint,
}

impl AuctionEntry {
    /// What the entry records.
    pub open spec fn view(&self) -> AuctionRecord {
        AuctionRecord { auction: self.auction@, constraint: self.constraint }
    }
}

/// Whether `records` holds an auction under `key`: one with that number,
/// owned by that owner.
pub open spec fn found(records: Seq<AuctionRecord>, key: DataKey) -> bool {
    match key {
        DataKey::Auction(owner, id) => id < records.len() && records[id as int].auction.owner
            == owner,
    }
}

/// The number in `key`.
pub open spec fn number_of(key: DataKey) -> int {
    match key {
        DataKey::Auction(_, id) => id as int,
    }
}

/// The owner in `key`.
pub open spec fn owner_of(key: DataKey) -> AccountId {
    match key {
        DataKey::Auction(owner, _) => owner,
    }
}

/// How starting an auction ends: the transfers made, or the first reason
/// for which it is refused.
pub open spec fn start_outcome(
    escrow: AccountId,
    holdings: Seq<Holding>,
    approvers: Seq<AccountId>,
    now: u64,
    owner: AccountId,
    asset: AssetId,
    quantity: int,
    event_start_time: u64,
) -> Result<Seq<Transfer>, SettlementError> {
    let transfers = start_transfers(owner, asset, escrow, quantity);
    if !approvers.contains(owner) {
        Err(SettlementError::Unauthorized)
    } else if start_refusal(now, event_start_time, quantity) is Some {
        Err(start_refusal(now, event_start_time, quantity)->Some_0)
    } else if settle_in(holdings, transfers) is None {
        Err(SettlementError::TransferFailed)
    } else {
        Ok(transfers)
    }
}

/// How a bid ends: the transfers made, or the first reason for which it is
/// refused.
pub open spec fn bid_outcome(
    records: Seq<AuctionRecord>,
    escrow: AccountId,
    holdings: Seq<Holding>,
    approvers: Seq<AccountId>,
    now: u64,
    key: DataKey,
    bidder: AccountId,
    amount: i128,
) -> Result<Seq<Transfer>, SettlementError> {
    if !approvers.contains(bidder) {
        Err(SettlementError::Unauthorized)
    } else if !found(records, key) {
        Err(SettlementError::NotFound)
    } else {
        let auction = records[number_of(key)].auction;
        let transfers = bid_transfers(auction, escrow, bidder, amount);
        if bid_refusal(auction, now, amount as int) is Some {
            Err(bid_refusal(auction, now, amount as int)->Some_0)
        } else if settle_in(holdings, transfers) is None {
            Err(SettlementError::TransferFailed)
        } else {
            Ok(transfers)
        }
    }
}

/// How closing an auction ends: the transfers made, or the first reason for
/// which it is refused.
pub open spec fn close_outcome(
    records: Seq<AuctionRecord>,
    escrow: AccountId,
    holdings: Seq<Holding>,
    approvers: Seq<AccountId>,
    key: DataKey,
) -> Result<Seq<Transfer>, SettlementError> {
    if !approvers.contains(owner_of(key)) {
        Err(SettlementError::Unauthorized)
    } else if !found(records, key) {
        Err(SettlementError::NotFound)
    } else {
        let record = records[number_of(key)];
        let transfers = close_transfers(record.auction, record.constraint, escrow);
        if close_refusal(record.auction, record.constraint) is Some {
            Err(close_refusal(record.auction, record.constraint)->Some_0)
        } else if settle_in(holdings, transfers) is None {
            Err(SettlementError::TransferFailed)
        } else {
            Ok(transfers)
        }
    }
}

/// How cancelling an auction ends: the transfers made, or the first reason
/// for which it is refused.
pub open spec fn cancel_outcome(
    records: Seq<AuctionRecord>,
    escrow: AccountId,
    holdings: Seq<Holding>,
    approvers: Seq<AccountId>,
    key: DataKey,
) -> Result<Seq<Transfer>, SettlementError> {
    if !approvers.contains(owner_of(key)) {
        Err(SettlementError::Unauthorized)
    } else if !found(records, key) {
        Err(SettlementError::NotFound)
    } else {
        let auction = records[number_of(key)].auction;
        let transfers = cancel_transfers(auction, escrow);
        if cancel_refusal(auction) is Some {
            Err(cancel_refusal(auction)->Some_0)
        } else if settle_in(holdings, transfers) is None {
            Err(SettlementError::TransferFailed)
        } else {
            Ok(transfers)
        }
    }
}

/// The auction house: the auctions in the order in which they were started,
/// each under its owner and its number, and the account that holds tickets
/// and bids in escrow. An auction is never removed and its number never used
/// again.
pub struct TicketAuctionContract {
    escrow: AccountId,
    entries: Vec<AuctionEntry>,
}

impl TicketAuctionContract {
    /// What is kept of each auction, by its number.
    pub closed spec fn view(&self) -> Seq<AuctionRecord> {
        Seq::new(self.entries@.len(), |i: int| self.entries@[i]@)
    }

    /// The account that holds tickets and bids in escrow.
    pub closed spec fn escrow_account(&self) -> AccountId {
        self.escrow
    }

    /// Every auction is well formed.
    pub open spec fn wf(&self) -> bool {
        forall|i: int| 0 <= i < self@.len() ==> (#[trigger] self@[i]).auction.wf()
    }

    /// An auction house without auctions, whose escrow is `escrow`.
    pub fn new(escrow: AccountId) -> (house: TicketAuctionContract)
        ensures
            house.wf(),
            house@ == Seq::<AuctionRecord>::empty(),
            house.escrow_account() == escrow,
    {
        let house = TicketAuctionContract { escrow, entries: Vec::new() };
        proof {
            assert(house@ =~= Seq::<AuctionRecord>::empty());
        }
        house
    }

    /// The account that holds tickets and bids in escrow.
    pub fn escrow(&self) -> (escrow: AccountId)
        ensures
            escrow == self.escrow_account(),
    {
        self.escrow
    }

    fn locate(&self, key: DataKey) -> (index: Option<usize>)
        ensures
            found(self@, key) <==> index is Some,
            index is Some ==> index->Some_0 == number_of(key) && self@[number_of(key)]
                == self.entries@[number_of(key)]@,
    {
        match key {
            DataKey::Auction(owner, id) => {
                if id >= self.entries.len() as u64 {
                    return None;
                }
                let i: usize = id as usize;
                if self.entries[i].auction.owner == owner {
                    Some(i)
                } else {
                    None
                }
            },
        }
    }

    /// The auction kept under `key`, or `NotFound`.
    pub fn view_auction(&self, key: DataKey) -> (result: Result<&Auction, SettlementError>)
        ensures
            found(self@, key) ==> result is Ok && result->Ok_0@ == self@[number_of(key)].auction,
            !found(self@, key) ==> result is Err && result->Err_0 == SettlementError::NotFound,
    {
        match self.locate(key) {
            Some(i) => Ok(&self.entries[i].auction),
            None => Err(SettlementError::NotFound),
        }
    }

    /// The fee schedule of the auction kept under `key`, or `NotFound`.
    pub fn view_constraint(&self, key: ConstraintDataKey) -> (result: Result<
        AuctionConstraint,
        SettlementError,
    >)
        ensures
            match key {
                ConstraintDataKey::AuctionConstraint(owner, id) => if found(
                    self@,
                    DataKey::Auction(owner, id),
                ) {
                    result == Ok::<AuctionConstraint, SettlementError>(self@[id as int].constraint)
                } else {
                    result == Err::<AuctionConstraint, SettlementError>(SettlementError::NotFound)
                },
            },
    {
        match key {
            ConstraintDataKey::AuctionConstraint(owner, id) => match self.locate(
                DataKey::Auction(owner, id),
            ) {
                Some(i) => Ok(self.entries[i].constraint),
                None => Err(SettlementError::NotFound),
            },
        }
    }

    /// Starts an auction of `quantity` tickets of `asset_address` and moves
    /// the tickets from the owner into escrow.
    ///
    /// The owner must have approved. The start is refused where the event
    /// begins within one grace window of `now`, and where the owner does not
    /// hold the tickets. The auction gets the next free number and is kept
    /// under its owner and that number. On every refusal the auction house
    /// and the ledger are left as they were.
    pub fn start_auction(
        &mut self,
        env: &soroban_sdk::Env,
        ledger: &mut Ledger,
        auth: &Authorization,
        now: u64,
        issuer: AccountId,
        owner: AccountId,
        asset_address: AssetId,
        native_address: AssetId,
        quantity: i128,
        starting_price: i128,
        event_start_time: u64,
        constraint: AuctionConstraint,
    ) -> (result: Result<Event<DataKey>, SettlementError>)
        requires
            old(self).wf(),
            old(ledger).wf(),
        ensures
            final(self).wf(),
            final(ledger).wf(),
            final(self).escrow_account() == old(self).escrow_account(),
            conserved(old(ledger)@, final(ledger)@),
            match start_outcome(
                old(self).escrow_account(),
                old(ledger)@,
                auth@,
                now,
                owner,
                asset_address,
                quantity as int,
                event_start_time,
            ) {
                Ok(transfers) => {
                    &&& result is Ok
                    &&& result->Ok_0.transition == Transition::AuctionStarted
                    &&& result->Ok_0.key == DataKey::Auction(owner, old(self)@.len() as u64)
                    &&& result->Ok_0.transfers@ == transfers
                    &&& final(self)@ == old(self)@.push(
                        (AuctionRecord {
                            auction: opened(
                                issuer,
                                owner,
                                asset_address,
                                native_address,
                                quantity,
                                starting_price,
                                event_start_time,
                            ),
                            constraint,
                        }),
                    )
                    &&& found(final(self)@, result->Ok_0.key)
                    &&& Some(final(ledger)@) == settle_in(old(ledger)@, transfers)
                    &&& settled(old(ledger)@, final(ledger)@, transfers)
                },
                Err(e) => {
                    &&& result is Err
                    &&& result->Err_0 == e
                    &&& final(self)@ == old(self)@
                    &&& final(ledger)@ == old(ledger)@
                },
            },
    {
        if !auth.is_approved_by(owner) {
            return Err(SettlementError::Unauthorized);
        }
        let plan = match plan_auction(
            env,
            now,
            issuer,
            owner,
            asset_address,
            native_address,
            quantity,
            starting_price,
            event_start_time,
            self.escrow,
        ) {
            Ok(p) => p,
            Err(e) => {
                return Err(e);
            },
        };
        match ledger.settle(&plan.transfers) {
            Ok(()) => {},
            Err(e) => {
                return Err(e);
            },
        }
        let id: u64 = self.entries.len() as u64;
        self.entries.push(AuctionEntry { auction: plan.auction, constraint });
        proof {
            assert(final(self)@ =~= old(self)@.push(
                (AuctionRecord {
                    auction: opened(
                        issuer,
                        owner,
                        asset_address,
                        native_address,
                        quantity,
                        starting_price,
                        event_start_time,
                    ),
                    constraint,
                }),
            ));
        }
        Ok(
            Event {
                transition: Transition::AuctionStarted,
                key: DataKey::Auction(owner, id),
                transfers: plan.transfers,
            },
        )
    }

    /// Places a bid of `bid_amount` by `bidder` on the auction kept under
    /// `key`.
    ///
    /// The bidder must have approved. The bid is refused where no such
    /// auction exists, once its end time has come, once it is closed or
    /// cancelled, and unless the bid is strictly above the highest bid so
    /// far. Otherwise the bidder pays the bid into escrow, the previous
    /// highest bidder gets their bid back in full, and the bid is recorded
    /// as the highest. Where a transfer cannot be made, none is made. On
    /// every refusal the auction house and the ledger are left as they were.
    pub fn place_bid(
        &mut self,
        ledger: &mut Ledger,
        auth: &Authorization,
        now: u64,
        key: DataKey,
        bidder: AccountId,
        bid_amount: i128,
    ) -> (result: Result<Event<DataKey>, SettlementError>)
        requires
            old(self).wf(),
            old(ledger).wf(),
        ensures
            final(self).wf(),
            final(ledger).wf(),
            final(self).escrow_account() == old(self).escrow_account(),
            conserved(old(ledger)@, final(ledger)@),
            match bid_outcome(
                old(self)@,
                old(self).escrow_account(),
                old(ledger)@,
                auth@,
                now,
                key,
                bidder,
                bid_amount,
            ) {
                Ok(transfers) => {
                    &&& result is Ok
                    &&& result->Ok_0.transition == Transition::BidPlaced
                    &&& result->Ok_0.key == key
                    &&& result->Ok_0.transfers@ == transfers
                    &&& final(self)@ == old(self)@.update(
                        number_of(key),
                        (AuctionRecord {
                            auction: after_bid(
                                old(self)@[number_of(key)].auction,
                                bidder,
                                bid_amount,
                            ),
                            constraint: old(self)@[number_of(key)].constraint,
                        }),
                    )
                    &&& final(self)@[number_of(key)].auction.highest_bid > old(
                        self,
                    )@[number_of(key)].auction.highest_bid
                    &&& Some(final(ledger)@) == settle_in(old(ledger)@, transfers)
                    &&& settled(old(ledger)@, final(ledger)@, transfers)
                },
                Err(e) => {
                    &&& result is Err
                    &&& result->Err_0 == e
                    &&& final(self)@ == old(self)@
                    &&& final(ledger)@ == old(ledger)@
                },
            },
    {
        if !auth.is_approved_by(bidder) {
            return Err(SettlementError::Unauthorized);
        }
        let i: usize = match self.locate(key) {
            Some(i) => i,
            None => {
                return Err(SettlementError::NotFound);
            },
        };
        let transfers = match plan_bid(&self.entries[i].auction, self.escrow, bidder, bid_amount, now) {
            Ok(t) => t,
            Err(e) => {
                return Err(e);
            },
        };
        match ledger.settle(&transfers) {
            Ok(()) => {},
            Err(e) => {
                return Err(e);
            },
        }
        self.entries[i].auction.record_bid(bidder, bid_amount);
        proof {
            assert(final(self)@ =~= old(self)@.update(
                number_of(key),
                (AuctionRecord {
                    auction: after_bid(old(self)@[number_of(key)].auction, bidder, bid_amount),
                    constraint: old(self)@[number_of(key)].constraint,
                }),
            ));
        }
        Ok(Event { transition: Transition::BidPlaced, key, transfers })
    }

    fn finish(
        &mut self,
        ledger: &mut Ledger,
        i: usize,
        transfers: &Vec<Transfer>,
        status: AuctionStatus,
    ) -> (result: Result<(), SettlementError>)
        requires
            old(self).wf(),
            old(ledger).wf(),
            i < old(self)@.len(),
            old(self)@[i as int].auction.status == AuctionStatus::Open,
            status != AuctionStatus::Open,
        ensures
            final(self).wf(),
            final(ledger).wf(),
            final(self).escrow_account() == old(self).escrow_account(),
            conserved(old(ledger)@, final(ledger)@),
            match settle_in(old(ledger)@, transfers@) {
                Some(after) => {
                    &&& result is Ok
                    &&& final(ledger)@ == after
                    &&& settled(old(ledger)@, final(ledger)@, transfers@)
                    &&& final(self)@ == old(self)@.update(
                        i as int,
                        (AuctionRecord {
                            auction: with_status(old(self)@[i as int].auction, status),
                            constraint: old(self)@[i as int].constraint,
                        }),
                    )
                },
                None => {
                    &&& result == Err::<(), SettlementError>(SettlementError::TransferFailed)
                    &&& final(self)@ == old(self)@
                    &&& final(ledger)@ == old(ledger)@
                },
            },
    {
        match ledger.settle(transfers) {
            Ok(()) => {},
            Err(e) => {
                return Err(e);
            },
        }
        assert(old(self)@[i as int] == old(self).entries@[i as int]@);
        self.entries[i].auction.finish(status);
        proof {
            assert(final(self)@ =~= old(self)@.update(
                i as int,
                (AuctionRecord {
                    auction: with_status(old(self)@[i as int].auction, status),
                    constraint: old(self)@[i as int].constraint,
                }),
            ));
        }
        Ok(())
    }

    /// Closes the auction kept under `key` and settles it.
    ///
    /// The owner named in the key must have approved. Closing is refused
    /// where no such auction exists, where it is already closed or
    /// cancelled, and where the fee schedule cannot split the winning bid.
    /// Without a bid, escrow returns the tickets to the owner and no funds
    /// move. With one, escrow pays the issuer's share to the issuer and the
    /// rest of the winning bid to the owner, and hands the tickets to the
    /// winner. The auction is then closed for good. Where a transfer cannot
    /// be made, none is made. On every refusal the auction house and the
    /// ledger are left as they were.
    pub fn close_auction(&mut self, ledger: &mut Ledger, auth: &Authorization, key: DataKey) -> (result:
        Result<Event<DataKey>, SettlementError>)
        requires
            old(self).wf(),
            old(ledger).wf(),
        ensures
            final(self).wf(),
            final(ledger).wf(),
            final(self).escrow_account() == old(self).escrow_account(),
            conserved(old(ledger)@, final(ledger)@),
            match close_outcome(
                old(self)@,
                old(self).escrow_account(),
                old(ledger)@,
                auth@,
                key,
            ) {
                Ok(transfers) => {
                    &&& result is Ok
                    &&& result->Ok_0.transition == Transition::AuctionClosed
                    &&& result->Ok_0.key == key
                    &&& result->Ok_0.transfers@ == transfers
                    &&& final(self)@ == old(self)@.update(
                        number_of(key),
                        (AuctionRecord {
                            auction: with_status(
                                old(self)@[number_of(key)].auction,
                                AuctionStatus::Closed,
                            ),
                            constraint: old(self)@[number_of(key)].constraint,
                        }),
                    )
                    &&& Some(final(ledger)@) == settle_in(old(ledger)@, transfers)
                    &&& settled(old(ledger)@, final(ledger)@, transfers)
                },
                Err(e) => {
                    &&& result is Err
                    &&& result->Err_0 == e
                    &&& final(self)@ == old(self)@
                    &&& final(ledger)@ == old(ledger)@
                },
            },
    {
        let owner = match key {
            DataKey::Auction(owner, _) => owner,
        };
        if !auth.is_approved_by(owner) {
            return Err(SettlementError::Unauthorized);
        }
        let i: usize = match self.locate(key) {
            Some(i) => i,
            None => {
                return Err(SettlementError::NotFound);
            },
        };
        let transfers = match plan_close(
            &self.entries[i].auction,
            &self.entries[i].constraint,
            self.escrow,
        ) {
            Ok(t) => t,
            Err(e) => {
                return Err(e);
            },
        };
        match self.finish(ledger, i, &transfers, AuctionStatus::Closed) {
            Ok(()) => Ok(Event { transition: Transition::AuctionClosed, key, transfers }),
            Err(e) => Err(e),
        }
    }

    /// Cancels the auction kept under `key`.
    ///
    /// The owner named in the key must have approved. Cancelling is refused
    /// where no such auction exists and where it is already closed or
    /// cancelled. Otherwise escrow returns the tickets to the owner and the
    /// highest bid to whoever made it, if anybody has bid, and the auction
    /// is cancelled for good. Where a transfer cannot be made, none is made.
    /// On every refusal the auction house and the ledger are left as they
    /// were.
    pub fn cancel_auction(&mut self, ledger: &mut Ledger, auth: &Authorization, key: DataKey) -> (result:
        Result<Event<DataKey>, SettlementError>)
        requires
            old(self).wf(),
            old(ledger).wf(),
        ensures
            final(self).wf(),
            final(ledger).wf(),
            final(self).escrow_account() == old(self).escrow_account(),
            conserved(old(ledger)@, final(ledger)@),
            match cancel_outcome(
                old(self)@,
                old(self).escrow_account(),
                old(ledger)@,
                auth@,
                key,
            ) {
                Ok(transfers) => {
                    &&& result is Ok
                    &&& result->Ok_0.transition == Transition::AuctionCancelled
                    &&& result->Ok_0.key == key
                    &&& result->Ok_0.transfers@ == transfers
                    &&& final(self)@ == old(self)@.update(
                        number_of(key),
                        (AuctionRecord {
                            auction: with_status(
                                old(self)@[number_of(key)].auction,
                                AuctionStatus::Cancelled,
                            ),
                            constraint: old(self)@[number_of(key)].constraint,
                        }),
                    )
                    &&& Some(final(ledger)@) == settle_in(old(ledger)@, transfers)
                    &&& settled(old(ledger)@, final(ledger)@, transfers)
                },
                Err(e) => {
                    &&& result is Err
                    &&& result->Err_0 == e
                    &&& final(self)@ == old(self)@
                    &&& final(ledger)@ == old(ledger)@
                },
            },
    {
        let owner = match key {
            DataKey::Auction(owner, _) => owner,
        };
        if !auth.is_approved_by(owner) {
            return Err(SettlementError::Unauthorized);
        }
        let i: usize = match self.locate(key) {
            Some(i) => i,
            None => {
                return Err(SettlementError::NotFound);
            },
        };
        let transfers = match plan_cancel(&self.entries[i].auction, self.escrow) {
            Ok(t) => t,
            Err(e) => {
                return Err(e);
            },
        };
        match self.finish(ledger, i, &transfers, AuctionStatus::Cancelled) {
            Ok(()) => Ok(Event { transition: Transition::AuctionCancelled, key, transfers }),
            Err(e) => Err(e),
        }
    }
}

} // verus!
