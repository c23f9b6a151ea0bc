//! Resale by auction: a fixed quantity of tickets, held in escrow, goes to
//! the highest bidder when the owner closes the auction.

use crate::account::{AccountId, AssetId};
use crate::error::SettlementError;
use crate::fees::{commission_of, compute_split, split_defined};
use crate::holdings::Transfer;
use crate::host::{entries_of, map_get, map_new, map_set, no_entries};
use crate::scale::{ticket_amount, ticket_amount_fits, ticket_amount_of};
use vstd::prelude::*;

verus! {

/// Seconds between the end of an auction and the start of its event: every
/// auction ends this long before the event begins.
pub const GRACE_WINDOW: u64 = 86_400;

/// Where an auction stands in its life.
#[derive(Clone, Copy, Debug, PartialEq, Eq, Structural)]
pub enum AuctionStatus {
    /// Bids are accepted until the end time.
    Open,
    /// Settled by the owner: terminal.
    Closed,
    /// Called off by the owner: terminal.
    Cancelled,
}

/// The key under which an auction is kept: its owner and its number.
#[derive(Clone, Copy, Debug, PartialEq, Eq, Structural)]
pub enum DataKey {
    Auction(AccountId, u64),
}

/// The key under which an auction's fee schedule is kept.
#[derive(Clone, Copy, Debug, PartialEq, Eq, Structural)]
pub enum ConstraintDataKey {
    AuctionConstraint(AccountId, u64),
}

/// The fee schedule of an auction, fixed when the auction starts.
#[derive(Clone, Copy, Debug, PartialEq, Eq, Structural)]
pub struct AuctionConstraint {
    /// Flat fee that the issuer receives when the auction is closed.
    pub publishing_fee: i128,
    /// Commission on the winning bid, in basis points.
    pub unitary_commission: i128,
}

/// An auction of a quantity of tickets.
#[derive(Debug, PartialEq, Eq)]
pub struct Auction {
    /// Who issued the tickets and receives fee and commission.
    pub issuer: AccountId,
    /// Who put the tickets up for auction.
    pub owner: AccountId,
    /// The ticket asset.
    pub asset_address: AssetId,
    /// The asset in which bids are made.
    pub native_address: AssetId,
    /// The price at which the owner opened the auction.
    pub starting_price: i128,
    /// The highest bid so far: zero while nobody has bid.
    pub highest_bid: i128,
    /// Who made the highest bid, if anybody has bid.
    pub highest_bidder: Option<AccountId>,
    /// When bidding ends.
    pub end_time: u64,
    /// How many tickets are auctioned.
    pub quantity: i128,
    /// When the event starts.
    pub event_start_time: u64,
    /// The last bid of each bidder, by the bidder's number.
    pub bids: soroban_sdk::Map<u64, i128>,
    /// Whether the auction is open, closed or cancelled.
    pub status: AuctionStatus,
}

/// What an auction records, with the bids as a mathematical map.
pub struct AuctionView {
    pub issuer: AccountId,
    pub owner: AccountId,
    pub asset_address: AssetId,
    pub native_address: AssetId,
    pub starting_price: i128,
    pub highest_bid: i128,
    pub highest_bidder: Option<AccountId>,
    pub end_time: u64,
    pub quantity: i128,
    pub event_start_time: u64,
    pub bids: Map<u64, i128>,
    pub status: AuctionStatus,
}

impl AuctionView {
    /// The quantity is not negative and can be written as a ledger amount;
    /// the auction ends one grace window before the event; and the highest
    /// bid is zero while nobody has bid, and otherwise positive and recorded
    /// as the last bid of the highest bidder.
    pub open spec fn wf(self) -> bool {
        &&& 0 <= self.quantity
        &&& ticket_amount_fits(self.quantity as int)
        &&& self.end_time + GRACE_WINDOW == self.event_start_time
        &&& match self.highest_bidder {
            None => self.highest_bid == 0,
            Some(bidder) => self.highest_bid > 0 && self.bids.contains_key(bidder.0)
                && self.bids[bidder.0] == self.highest_bid,
        }
    }
}

impl Auction {
    /// What the auction records.
    pub open spec fn view(&self) -> AuctionView {
        AuctionView {
            issuer: self.issuer,
            owner: self.owner,
            asset_address: self.asset_address,
            native_address: self.native_address,
            starting_price: self.starting_price,
            highest_bid: self.highest_bid,
            highest_bidder: self.highest_bidder,
            end_time: self.end_time,
            quantity: self.quantity,
            event_start_time: self.event_start_time,
            bids: entries_of(self.bids),
            status: self.status,
        }
    }

    /// Whether the record is well formed.
    pub fn is_well_formed(&self) -> (ok: bool)
        ensures
            ok == self@.wf(),
    {
        if self.quantity < 0 || ticket_amount(self.quantity).is_none() {
            return false;
        }
        if self.event_start_time < GRACE_WINDOW || self.event_start_time - GRACE_WINDOW
            != self.end_time {
            return false;
        }
        match self.highest_bidder {
            None => self.highest_bid == 0,
            Some(bidder) => {
                let recorded = map_get(&self.bids, bidder.0);
                self.highest_bid > 0 && recorded == Some(self.highest_bid)
            },
        }
    }

    /// The last bid of `bidder`, if they have bid.
    pub fn last_bid(&self, bidder: AccountId) -> (amount: Option<i128>)
        ensures
            amount == if self@.bids.contains_key(bidder.0) {
                Some(self@.bids[bidder.0])
            } else {
                None::<i128>
            },
    {
        map_get(&self.bids, bidder.0)
    }
}

/// The funds that escrow holds for an auction: the highest bid while the
/// auction is open, and nothing once it is closed or cancelled.
pub open spec fn escrowed_funds(auction: AuctionView) -> int {
    if auction.status == AuctionStatus::Open {
        auction.highest_bid as int
    } else {
        0
    }
}

/// The tickets that escrow holds for an auction, as a ledger amount: the
/// quantity under auction while the auction is open, and nothing once it is
/// closed or cancelled.
pub open spec fn escrowed_tickets(auction: AuctionView) -> int {
    if auction.status == AuctionStatus::Open {
        ticket_amount_of(auction.quantity as int)
    } else {
        0
    }
}

/// Why a bid of `amount` at time `now` is refused before any transfer, or
/// `None` where it is not. Time is tried first, then whether the auction is
/// still open, then the amount.
pub open spec fn bid_refusal(auction: AuctionView, now: u64, amount: int) -> Option<SettlementError> {
    if now >= auction.end_time {
        Some(SettlementError::AuctionEnded)
    } else if auction.status != AuctionStatus::Open {
        Some(SettlementError::AlreadyClosed)
    } else if amount <= auction.highest_bid {
        Some(SettlementError::BidTooLow)
    } else {
        None
    }
}

/// The transfers that settle an accepted bid, in order: the bidder pays the
/// bid into escrow, and escrow returns the previous highest bid to whoever
/// made it, if anybody had bid.
pub open spec fn bid_transfers(
    auction: AuctionView,
    escrow: AccountId,
    bidder: AccountId,
    amount: i128,
) -> Seq<Transfer> {
    let pay_in = Transfer { asset: auction.native_address, from: bidder, to: escrow, amount };
    match auction.highest_bidder {
        None => seq![pay_in],
        Some(previous) => seq![
            pay_in,
            Transfer {
                asset: auction.native_address,
                from: escrow,
                to: previous,
                amount: auction.highest_bid,
            },
        ],
    }
}

/// The auction after `bidder` has made the accepted bid `amount`.
pub open spec fn after_bid(auction: AuctionView, bidder: AccountId, amount: i128) -> AuctionView {
    AuctionView {
        highest_bid: amount,
        highest_bidder: Some(bidder),
        bids: auction.bids.insert(bidder.0, amount),
        ..auction
    }
}

/// Decides a bid of `bid_amount` by `bidder` at time `now`.
///
/// The bid is refused once the end time has come, on an auction that is no
/// longer open, and unless it is strictly above the highest bid so far.
/// Otherwise the result holds the transfers that settle it, in order.
pub fn plan_bid(
    auction: &Auction,
    escrow: AccountId,
    bidder: AccountId,
    bid_amount: i128,
    now: u64,
) -> (result: Result<Vec<Transfer>, SettlementError>)
    ensures
        match bid_refusal(auction@, now, bid_amount as int) {
            Some(e) => result is Err && result->Err_0 == e,
            None => result is Ok && result->Ok_0@ == bid_transfers(
                auction@,
                escrow,
                bidder,
                bid_amount,
            ),
        },
{
    if now >= auction.end_time {
        return Err(SettlementError::AuctionEnded);
    }
    if auction.status != AuctionStatus::Open {
        return Err(SettlementError::AlreadyClosed);
    }
    if bid_amount <= auction.highest_bid {
        return Err(SettlementError::BidTooLow);
    }
    let mut transfers: Vec<Transfer> = Vec::new();
    transfers.push(
        Transfer { asset: auction.native_address, from: bidder, to: escrow, amount: bid_amount },
    );
    match auction.highest_bidder {
        Some(previous) => {
            transfers.push(
                Transfer {
                    asset: auction.native_address,
                    from: escrow,
                    to: previous,
                    amount: auction.highest_bid,
                },
            );
        },
        None => {},
    }
    proof {
        assert(transfers@ =~= bid_transfers(auction@, escrow, bidder, bid_amount));
    }
    Ok(transfers)
}

impl Auction {
    /// Records the accepted bid `bid_amount` of `bidder`: it becomes the
    /// highest bid, its maker the highest bidder, and the bidder's last bid
    /// is noted.
    pub fn record_bid(&mut self, bidder: AccountId, bid_amount: i128)
        requires
            old(self)@.wf(),
            old(self).status == AuctionStatus::Open,
            bid_amount > old(self).highest_bid,
        ensures
            final(self)@ == after_bid(old(self)@, bidder, bid_amount),
            final(self)@.wf(),
    {
        self.highest_bid = bid_amount;
        self.highest_bidder = Some(bidder);
        map_set(&mut self.bids, bidder.0, bid_amount);
    }
}

/// What the issuer receives when an auction is closed on the winning bid
/// `bid`: the flat fee plus the commission on the bid.
pub open spec fn issuer_share_of(constraint: AuctionConstraint, bid: int) -> int {
    constraint.publishing_fee + commission_of(bid, constraint.unitary_commission as int)
}

/// Why closing an auction is refused before any transfer, or `None` where it
/// is not: the auction is no longer open, or it has a winning bid that the
/// fee schedule cannot split between issuer and owner.
pub open spec fn close_refusal(auction: AuctionView, constraint: AuctionConstraint) -> Option<
    SettlementError,
> {
    if auction.status != AuctionStatus::Open {
        Some(SettlementError::AlreadyClosed)
    } else if auction.highest_bidder is Some && (!split_defined(
        auction.highest_bid as int,
        constraint.publishing_fee as int,
        constraint.unitary_commission as int,
    ) || issuer_share_of(constraint, auction.highest_bid as int) > auction.highest_bid) {
        Some(SettlementError::InvalidFeeConfiguration)
    } else {
        None
    }
}

/// The transfers that settle the closing of an auction, in order. Without a
/// bidder, escrow returns the tickets to the owner and no funds move. With
/// one, escrow pays the issuer's share of the winning bid to the issuer and
/// the rest of it to the owner, and hands the tickets to the winner.
pub open spec fn close_transfers(
    auction: AuctionView,
    constraint: AuctionConstraint,
    escrow: AccountId,
) -> Seq<Transfer> {
    let tickets = ticket_amount_of(auction.quantity as int) as i128;
    match auction.highest_bidder {
        None => seq![
            Transfer { asset: auction.asset_address, from: escrow, to: auction.owner, amount: tickets },
        ],
        Some(winner) => seq![
            Transfer {
                asset: auction.native_address,
                from: escrow,
                to: auction.issuer,
                amount: issuer_share_of(constraint, auction.highest_bid as int) as i128,
            },
            Transfer {
                asset: auction.native_address,
                from: escrow,
                to: auction.owner,
                amount: (auction.highest_bid - issuer_share_of(
                    constraint,
                    auction.highest_bid as int,
                )) as i128,
            },
            Transfer { asset: auction.asset_address, from: escrow, to: winner, amount: tickets },
        ],
    }
}

/// The auction with its status changed to `status`.
pub open spec fn with_status(auction: AuctionView, status: AuctionStatus) -> AuctionView {
    AuctionView { status, ..auction }
}

/// Decides the closing of an auction.
///
/// Closing is refused on an auction that is no longer open, and on one whose
/// winning bid the fee schedule cannot split. Otherwise the result holds the
/// transfers that settle it, in order.
pub fn plan_close(auction: &Auction, constraint: &AuctionConstraint, escrow: AccountId) -> (result:
    Result<Vec<Transfer>, SettlementError>)
    requires
        auction@.wf(),
    ensures
        match close_refusal(auction@, *constraint) {
            Some(e) => result is Err && result->Err_0 == e,
            None => result is Ok && result->Ok_0@ == close_transfers(auction@, *constraint, escrow),
        },
{
    if auction.status != AuctionStatus::Open {
        return Err(SettlementError::AlreadyClosed);
    }
    let tickets: i128 = ticket_amount(auction.quantity).unwrap();
    let mut transfers: Vec<Transfer> = Vec::new();
    match auction.highest_bidder {
        None => {
            transfers.push(
                Transfer {
                    asset: auction.asset_address,
                    from: escrow,
                    to: auction.owner,
                    amount: tickets,
                },
            );
        },
        Some(winner) => {
            let split = match compute_split(
                auction.highest_bid,
                constraint.publishing_fee,
                constraint.unitary_commission,
            ) {
                Ok(s) => s,
                Err(_) => {
                    return Err(SettlementError::InvalidFeeConfiguration);
                },
            };
            if split.issuer_share > auction.highest_bid {
                return Err(SettlementError::InvalidFeeConfiguration);
            }
            transfers.push(
                Transfer {
                    asset: auction.native_address,
                    from: escrow,
                    to: auction.issuer,
                    amount: split.issuer_share,
                },
            );
            transfers.push(
                Transfer {
                    asset: auction.native_address,
                    from: escrow,
                    to: auction.owner,
                    amount: auction.highest_bid - split.issuer_share,
                },
            );
            transfers.push(
                Transfer { asset: auction.asset_address, from: escrow, to: winner, amount: tickets },
            );
        },
    }
    proof {
        assert(transfers@ =~= close_transfers(auction@, *constraint, escrow));
    }
    Ok(transfers)
}

/// Why cancelling an auction is refused before any transfer, or `None`
/// where it is not: only an open auction can be cancelled.
pub open spec fn cancel_refusal(auction: AuctionView) -> Option<SettlementError> {
    if auction.status != AuctionStatus::Open {
        Some(SettlementError::AlreadyClosed)
    } else {
        None
    }
}

/// The transfers that settle the cancelling of an auction, in order: escrow
/// returns the tickets to the owner, and the highest bid to whoever made it,
/// if anybody has bid.
pub open spec fn cancel_transfers(auction: AuctionView, escrow: AccountId) -> Seq<Transfer> {
    let give_back = Transfer {
        asset: auction.asset_address,
        from: escrow,
        to: auction.owner,
        amount: ticket_amount_of(auction.quantity as int) as i128,
    };
    match auction.highest_bidder {
        None => seq![give_back],
        Some(bidder) => seq![
            give_back,
            Transfer {
                asset: auction.native_address,
                from: escrow,
                to: bidder,
                amount: auction.highest_bid,
            },
        ],
    }
}

/// Decides the cancelling of an auction.
///
/// Cancelling is refused on an auction that is no longer open. Otherwise
/// the result holds the transfers that settle it, in order.
pub fn plan_cancel(auction: &Auction, escrow: AccountId) -> (result: Result<
    Vec<Transfer>,
    SettlementError,
>)
    requires
        auction@.wf(),
    ensures
        match cancel_refusal(auction@) {
            Some(e) => result is Err && result->Err_0 == e,
            None => result is Ok && result->Ok_0@ == cancel_transfers(auction@, escrow),
        },
{
    if auction.status != AuctionStatus::Open {
        return Err(SettlementError::AlreadyClosed);
    }
    let tickets: i128 = ticket_amount(auction.quantity).unwrap();
    let mut transfers: Vec<Transfer> = Vec::new();
    transfers.push(
        Transfer { asset: auction.asset_address, from: escrow, to: auction.owner, amount: tickets },
    );
    match auction.highest_bidder {
        Some(bidder) => {
            transfers.push(
                Transfer {
                    asset: auction.native_address,
                    from: escrow,
                    to: bidder,
                    amount: auction.highest_bid,
                },
            );
        },
        None => {},
    }
    proof {
        assert(transfers@ =~= cancel_transfers(auction@, escrow));
    }
    Ok(transfers)
}

impl Auction {
    /// Marks an open auction as closed or cancelled, for good.
    pub fn finish(&mut self, status: AuctionStatus)
        requires
            old(self)@.wf(),
            old(self).status == AuctionStatus::Open,
            status != AuctionStatus::Open,
        ensures
            final(self)@ == with_status(old(self)@, status),
            final(self)@.wf(),
    {
        self.status = status;
    }
}

/// Why an auction cannot start at time `now`, or `None` where it can. The
/// event must lie more than one grace window ahead; the quantity must not be
/// negative and must be writable as a ledger amount.
pub open spec fn start_refusal(now: u64, event_start_time: u64, quantity: int) -> Option<
    SettlementError,
> {
    if event_start_time - GRACE_WINDOW <= now {
        Some(SettlementError::EventTooSoon)
    } else if quantity < 0 {
        Some(SettlementError::TransferFailed)
    } else if !ticket_amount_fits(quantity) {
        Some(SettlementError::ArithmeticOverflow)
    } else {
        None
    }
}

/// The transfer that funds an auction: the owner hands the tickets to
/// escrow.
pub open spec fn start_transfers(
    owner: AccountId,
    asset: AssetId,
    escrow: AccountId,
    quantity: int,
) -> Seq<Transfer> {
    seq![Transfer { asset, from: owner, to: escrow, amount: ticket_amount_of(quantity) as i128 }]
}

/// The auction as it stands when it starts: open, without a bid, ending one
/// grace window before the event.
pub open spec fn opened(
    issuer: AccountId,
    owner: AccountId,
    asset_address: AssetId,
    native_address: AssetId,
    quantity: i128,
    starting_price: i128,
    event_start_time: u64,
) -> AuctionView {
    AuctionView {
        issuer,
        owner,
        asset_address,
        native_address,
        starting_price,
        highest_bid: 0,
        highest_bidder: None,
        end_time: (event_start_time - GRACE_WINDOW) as u64,
        quantity,
        event_start_time,
        bids: no_entries(),
        status: AuctionStatus::Open,
    }
}

/// What starting an auction comes to: the auction and the transfer that
/// funds its escrow.
#[derive(Debug, PartialEq, Eq)]
pub struct AuctionPlan {
    pub auction: Auction,
    pub transfers: Vec<Transfer>,
}

/// Decides the start of an auction at time `now`.
///
/// The start is refused where the event begins within one grace window of
/// `now`, where the quantity is negative, and where it cannot be written as
/// a ledger amount. Otherwise the plan holds the open auction, ending one
/// grace window before the event, and the one transfer that moves the
/// tickets from the owner into escrow.
pub fn plan_auction(
    env: &soroban_sdk::Env,
    now: u64,
    issuer: AccountId,
    owner: AccountId,
    asset_address: AssetId,
    native_address: AssetId,
    quantity: i128,
    starting_price: i128,
    event_start_time: u64,
    escrow: AccountId,
) -> (result: Result<AuctionPlan, SettlementError>)
    ensures
        match start_refusal(now, event_start_time, quantity as int) {
            Some(e) => result is Err && result->Err_0 == e,
            None => {
                &&& result is Ok
                &&& result->Ok_0.auction@ == opened(
                    issuer,
                    owner,
                    asset_address,
                    native_address,
                    quantity,
                    starting_price,
                    event_start_time,
                )
                &&& result->Ok_0.auction@.wf()
                &&& result->Ok_0.transfers@ == start_transfers(
                    owner,
                    asset_address,
                    escrow,
                    quantity as int,
                )
            },
        },
{
    if event_start_time < GRACE_WINDOW || event_start_time - GRACE_WINDOW <= now {
        return Err(SettlementError::EventTooSoon);
    }
    if quantity < 0 {
        return Err(SettlementError::TransferFailed);
    }
    let tickets: i128 = match ticket_amount(quantity) {
        Some(t) => t,
        None => {
            return Err(SettlementError::ArithmeticOverflow);
        },
    };
    let mut transfers: Vec<Transfer> = Vec::new();
    transfers.push(Transfer { asset: asset_address, from: owner, to: escrow, amount: tickets });
    proof {
        assert(transfers@ =~= start_transfers(owner, asset_address, escrow, quantity as int));
    }
    let auction = Auction {
        issuer,
        owner,
        asset_address,
        native_address,
        starting_price,
        highest_bid: 0,
        highest_bidder: None,
        end_time: event_start_time - GRACE_WINDOW,
        quantity,
        event_start_time,
        bids: map_new(env),
        status: AuctionStatus::Open,
    };
    Ok(AuctionPlan { auction, transfers })
}

} // verus!
