//! What holds of the settlement engine as a whole, proved from the
//! definitions that the operations' contracts are stated in.

use crate::account::{AccountId, AssetId};
use crate::auction::{
    after_bid, bid_refusal, bid_transfers, cancel_refusal, cancel_transfers, close_refusal,
    close_transfers, escrowed_funds, escrowed_tickets, issuer_share_of, opened, start_refusal,
    start_transfers, with_status, AuctionConstraint, AuctionStatus, AuctionView, DataKey,
    GRACE_WINDOW,
};
use crate::error::SettlementError;
use crate::fees::lemma_commission_by_parts;
use crate::holdings::{
    amount_in, held_at, holdings_valid, lemma_amount_at, lemma_settle_in, lemma_supply_bounds,
    net_flow, settle_in, supply_in, Holding, Transfer,
};
use crate::listing::{
    listed_tickets, listing_outcome, listing_refusal, listing_transfers, purchase_outcome,
    purchase_refusal, purchase_transfers, sale_after_purchase, SaleEntry, TicketConstraint,
    TicketSale,
};
use crate::market::{
    bid_outcome, cancel_outcome, close_outcome, found, number_of, owner_of, start_outcome,
    AuctionRecord,
};
use crate::scale::ticket_amount_of;
use vstd::prelude::*;

verus! {

/// Conservation: whatever transfers are made on a valid ledger, in whatever
/// order, the total of every asset over all accounts, escrow among them, is
/// afterwards what it was before. No value is created or destroyed.
pub proof fn law_transfers_conserve_supply(
    holdings: Seq<Holding>,
    transfers: Seq<Transfer>,
    asset: AssetId,
)
    requires
        holdings_valid(holdings),
        settle_in(holdings, transfers) is Some,
    ensures
        supply_in(settle_in(holdings, transfers)->Some_0, asset) == supply_in(holdings, asset),
        holdings_valid(settle_in(holdings, transfers)->Some_0),
{
    lemma_settle_in(holdings, transfers);
}

/// No account holds more than there is: on a valid ledger every balance lies
/// between zero and the supply of its asset.
pub proof fn law_balance_within_supply(holdings: Seq<Holding>, asset: AssetId, account: AccountId)
    requires
        holdings_valid(holdings),
    ensures
        0 <= amount_in(holdings, asset, account) <= supply_in(holdings, asset),
{
    lemma_supply_bounds(holdings, asset);
    if exists|i: int| held_at(holdings, asset, account, i) {
        let i = choose|i: int| held_at(holdings, asset, account, i);
        lemma_amount_at(holdings, i);
    }
}

/// The holdings after a series of operations, each of which hands the
/// ledger its transfers to make: an operation whose transfers can all be
/// made changes the holdings by them, and one that is refused changes
/// nothing.
pub open spec fn after_operations(holdings: Seq<Holding>, operations: Seq<Seq<Transfer>>) -> Seq<
    Holding,
>
    decreases operations.len(),
{
    if operations.len() == 0 {
        holdings
    } else {
        let before = after_operations(holdings, operations.drop_last());
        match settle_in(before, operations.last()) {
            Some(after) => after,
            None => before,
        }
    }
}

/// Conservation over time: after any series of operations on a valid
/// ledger, the total of every asset over all accounts is what it was at the
/// start.
pub proof fn law_operations_conserve_supply(
    holdings: Seq<Holding>,
    operations: Seq<Seq<Transfer>>,
    asset: AssetId,
)
    requires
        holdings_valid(holdings),
    ensures
        holdings_valid(after_operations(holdings, operations)),
        supply_in(after_operations(holdings, operations), asset) == supply_in(holdings, asset),
    decreases operations.len(),
{
    if operations.len() > 0 {
        law_operations_conserve_supply(holdings, operations.drop_last(), asset);
        let before = after_operations(holdings, operations.drop_last());
        if settle_in(before, operations.last()) is Some {
            lemma_settle_in(before, operations.last());
        }
    }
}

/// One attempt to bid: who bids, how much, when, and whether the ledger
/// could move the funds.
pub struct BidAttempt {
    pub bidder: AccountId,
    pub amount: i128,
    pub now: u64,
    pub funded: bool,
}

/// The auction after one attempt to bid: the bid is recorded where it is
/// not refused and the ledger could move the funds; otherwise nothing
/// changes.
pub open spec fn after_attempt(auction: AuctionView, attempt: BidAttempt) -> AuctionView {
    if bid_refusal(auction, attempt.now, attempt.amount as int) is None && attempt.funded {
        after_bid(auction, attempt.bidder, attempt.amount)
    } else {
        auction
    }
}

/// The auction after the attempts `attempts`, made in order.
pub open spec fn after_attempts(auction: AuctionView, attempts: Seq<BidAttempt>) -> AuctionView
    decreases attempts.len(),
{
    if attempts.len() == 0 {
        auction
    } else {
        after_attempt(after_attempts(auction, attempts.drop_last()), attempts.last())
    }
}

/// Monotonic bids, one step: an attempt to bid never lowers the recorded
/// highest bid, and one that is recorded raises it strictly.
pub proof fn law_bid_raises(auction: AuctionView, attempt: BidAttempt)
    ensures
        after_attempt(auction, attempt).highest_bid >= auction.highest_bid,
        after_attempt(auction, attempt) != auction ==> after_attempt(auction, attempt).highest_bid
            > auction.highest_bid,
        auction.wf() ==> after_attempt(auction, attempt).wf(),
{
}

/// Monotonic bids: over any sequence of attempts on one auction, the
/// recorded highest bid after a longer prefix is never below that after a
/// shorter one, and is strictly above it where the auction has changed in
/// between. So the highest bids recorded one after the other rise strictly.
pub proof fn law_bids_strictly_increase(
    auction: AuctionView,
    attempts: Seq<BidAttempt>,
    i: int,
    j: int,
)
    requires
        0 <= i <= j <= attempts.len(),
    ensures
        after_attempts(auction, attempts.take(j)).highest_bid >= after_attempts(
            auction,
            attempts.take(i),
        ).highest_bid,
        after_attempts(auction, attempts.take(j)) != after_attempts(auction, attempts.take(i))
            ==> after_attempts(auction, attempts.take(j)).highest_bid > after_attempts(
            auction,
            attempts.take(i),
        ).highest_bid,
    decreases j - i,
{
    if i < j {
        law_bids_strictly_increase(auction, attempts, i, j - 1);
        assert(attempts.take(j).drop_last() =~= attempts.take(j - 1));
        assert(attempts.take(j).last() == attempts[j - 1]);
        law_bid_raises(after_attempts(auction, attempts.take(j - 1)), attempts[j - 1]);
    }
}

/// What one transfer adds to a balance: its amount for the receiver, less
/// its amount for the sender.
proof fn lemma_net_flow_of_one(t: Transfer, asset: AssetId, who: AccountId)
    ensures
        net_flow(seq![t], asset, who) == (if t.asset == asset && t.to == who {
            t.amount as int
        } else {
            0
        }) - (if t.asset == asset && t.from == who {
            t.amount as int
        } else {
            0
        }),
{
    assert(seq![t].skip(1) =~= Seq::<Transfer>::empty());
    assert(net_flow(seq![t].skip(1), asset, who) == 0);
}

/// What two transfers add to a balance is the sum of what each adds.
proof fn lemma_net_flow_of_two(t: Transfer, u: Transfer, asset: AssetId, who: AccountId)
    ensures
        net_flow(seq![t, u], asset, who) == net_flow(seq![t], asset, who) + net_flow(
            seq![u],
            asset,
            who,
        ),
{
    assert(seq![t, u].skip(1) =~= seq![u]);
    lemma_net_flow_of_one(t, asset, who);
    lemma_net_flow_of_one(u, asset, who);
}

/// What three transfers add to a balance is the sum of what each adds.
proof fn lemma_net_flow_of_three(
    t: Transfer,
    u: Transfer,
    v: Transfer,
    asset: AssetId,
    who: AccountId,
)
    ensures
        net_flow(seq![t, u, v], asset, who) == net_flow(seq![t], asset, who) + net_flow(
            seq![u],
            asset,
            who,
        ) + net_flow(seq![v], asset, who),
{
    assert(seq![t, u, v].skip(1) =~= seq![u, v]);
    lemma_net_flow_of_two(u, v, asset, who);
    lemma_net_flow_of_one(t, asset, who);
}

/// At most one escrowed bidder: an accepted bid on a well-formed auction
/// leaves in escrow exactly the new highest bid in place of the old one, and
/// returns the old one in full to whoever made it. Stated for an escrow
/// account that is neither the bidder nor the previous bidder: escrow's
/// funds change by the new bid less the old; the previous bidder, where
/// someone else now bids, receives the whole of their bid; and the bidder
/// pays the whole of the new bid, less their own old bid where they were
/// the highest bidder already.
pub proof fn law_one_escrowed_bid(
    auction: AuctionView,
    escrow: AccountId,
    bidder: AccountId,
    amount: i128,
    now: u64,
)
    requires
        auction.wf(),
        bid_refusal(auction, now, amount as int) is None,
        escrow != bidder,
        auction.highest_bidder != Some(escrow),
    ensures
        net_flow(bid_transfers(auction, escrow, bidder, amount), auction.native_address, escrow)
            == after_bid(auction, bidder, amount).highest_bid - auction.highest_bid,
        after_bid(auction, bidder, amount).highest_bidder == Some(bidder),
        after_bid(auction, bidder, amount).highest_bid == amount,
        match auction.highest_bidder {
            Some(previous) => {
                &&& previous != bidder ==> net_flow(
                    bid_transfers(auction, escrow, bidder, amount),
                    auction.native_address,
                    previous,
                ) == auction.highest_bid
                &&& previous != bidder ==> net_flow(
                    bid_transfers(auction, escrow, bidder, amount),
                    auction.native_address,
                    bidder,
                ) == -amount
                &&& previous == bidder ==> net_flow(
                    bid_transfers(auction, escrow, bidder, amount),
                    auction.native_address,
                    bidder,
                ) == auction.highest_bid - amount
            },
            None => net_flow(
                bid_transfers(auction, escrow, bidder, amount),
                auction.native_address,
                bidder,
            ) == -amount,
        },
{
    let native = auction.native_address;
    let pay_in = Transfer { asset: native, from: bidder, to: escrow, amount };
    match auction.highest_bidder {
        Some(previous) => {
            let refund = Transfer {
                asset: native,
                from: escrow,
                to: previous,
                amount: auction.highest_bid,
            };
            lemma_net_flow_of_two(pay_in, refund, native, escrow);
            lemma_net_flow_of_two(pay_in, refund, native, previous);
            lemma_net_flow_of_two(pay_in, refund, native, bidder);
            lemma_net_flow_of_one(pay_in, native, escrow);
            lemma_net_flow_of_one(pay_in, native, previous);
            lemma_net_flow_of_one(pay_in, native, bidder);
            lemma_net_flow_of_one(refund, native, escrow);
            lemma_net_flow_of_one(refund, native, previous);
            lemma_net_flow_of_one(refund, native, bidder);
        },
        None => {
            lemma_net_flow_of_one(pay_in, native, escrow);
            lemma_net_flow_of_one(pay_in, native, bidder);
        },
    }
}

/// Escrow holds what the auction records, when it starts: the transfers
/// that start an auction put into escrow exactly the tickets under auction,
/// and no funds. Stated for an escrow account other than the owner.
pub proof fn law_escrow_tracks_start(
    issuer: AccountId,
    owner: AccountId,
    asset_address: AssetId,
    native_address: AssetId,
    quantity: i128,
    starting_price: i128,
    event_start_time: u64,
    now: u64,
    escrow: AccountId,
)
    requires
        start_refusal(now, event_start_time, quantity as int) is None,
        escrow != owner,
        asset_address != native_address,
    ensures
        ({
            let auction = opened(
                issuer,
                owner,
                asset_address,
                native_address,
                quantity,
                starting_price,
                event_start_time,
            );
            let transfers = start_transfers(owner, asset_address, escrow, quantity as int);
            &&& auction.wf()
            &&& net_flow(transfers, asset_address, escrow) == escrowed_tickets(auction)
            &&& net_flow(transfers, native_address, escrow) == escrowed_funds(auction)
        }),
{
    let t = Transfer {
        asset: asset_address,
        from: owner,
        to: escrow,
        amount: ticket_amount_of(quantity as int) as i128,
    };
    lemma_net_flow_of_one(t, asset_address, escrow);
    lemma_net_flow_of_one(t, native_address, escrow);
}

/// Escrow holds what the auction records, after a bid: the transfers that
/// settle an accepted bid change the funds in escrow by exactly the change
/// of the highest bid, and leave the tickets in escrow alone. Stated for an
/// escrow account that is neither the bidder nor the previous bidder.
pub proof fn law_escrow_tracks_bid(
    auction: AuctionView,
    escrow: AccountId,
    bidder: AccountId,
    amount: i128,
    now: u64,
)
    requires
        auction.wf(),
        bid_refusal(auction, now, amount as int) is None,
        escrow != bidder,
        auction.highest_bidder != Some(escrow),
        auction.asset_address != auction.native_address,
    ensures
        net_flow(bid_transfers(auction, escrow, bidder, amount), auction.native_address, escrow)
            == escrowed_funds(after_bid(auction, bidder, amount)) - escrowed_funds(auction),
        net_flow(bid_transfers(auction, escrow, bidder, amount), auction.asset_address, escrow)
            == escrowed_tickets(after_bid(auction, bidder, amount)) - escrowed_tickets(auction),
{
    law_one_escrowed_bid(auction, escrow, bidder, amount, now);
    let native = auction.native_address;
    let asset = auction.asset_address;
    let pay_in = Transfer { asset: native, from: bidder, to: escrow, amount };
    lemma_net_flow_of_one(pay_in, asset, escrow);
    match auction.highest_bidder {
        Some(previous) => {
            let refund = Transfer {
                asset: native,
                from: escrow,
                to: previous,
                amount: auction.highest_bid,
            };
            lemma_net_flow_of_two(pay_in, refund, asset, escrow);
            lemma_net_flow_of_one(refund, asset, escrow);
        },
        None => {},
    }
}

/// Escrow holds what the auction records, after the end: the transfers that
/// settle the closing or the cancelling of an auction take out of escrow
/// exactly the funds and the tickets that it held for the auction, and
/// leave it holding nothing for it. Stated for an escrow account that is
/// none of the parties.
pub proof fn law_escrow_tracks_settlement(
    auction: AuctionView,
    constraint: AuctionConstraint,
    escrow: AccountId,
)
    requires
        auction.wf(),
        escrow != auction.issuer,
        escrow != auction.owner,
        auction.highest_bidder != Some(escrow),
        auction.asset_address != auction.native_address,
    ensures
        close_refusal(auction, constraint) is None ==> {
            &&& net_flow(
                close_transfers(auction, constraint, escrow),
                auction.native_address,
                escrow,
            ) == escrowed_funds(with_status(auction, AuctionStatus::Closed)) - escrowed_funds(
                auction,
            )
            &&& net_flow(
                close_transfers(auction, constraint, escrow),
                auction.asset_address,
                escrow,
            ) == escrowed_tickets(with_status(auction, AuctionStatus::Closed))
                - escrowed_tickets(auction)
        },
        cancel_refusal(auction) is None ==> {
            &&& net_flow(cancel_transfers(auction, escrow), auction.native_address, escrow)
                == escrowed_funds(with_status(auction, AuctionStatus::Cancelled))
                - escrowed_funds(auction)
            &&& net_flow(cancel_transfers(auction, escrow), auction.asset_address, escrow)
                == escrowed_tickets(with_status(auction, AuctionStatus::Cancelled))
                - escrowed_tickets(auction)
        },
        escrowed_funds(with_status(auction, AuctionStatus::Closed)) == 0,
        escrowed_tickets(with_status(auction, AuctionStatus::Closed)) == 0,
        escrowed_funds(with_status(auction, AuctionStatus::Cancelled)) == 0,
        escrowed_tickets(with_status(auction, AuctionStatus::Cancelled)) == 0,
{
    let native = auction.native_address;
    let asset = auction.asset_address;
    let tickets = ticket_amount_of(auction.quantity as int) as i128;
    let give_back = Transfer { asset, from: escrow, to: auction.owner, amount: tickets };
    lemma_net_flow_of_one(give_back, native, escrow);
    lemma_net_flow_of_one(give_back, asset, escrow);
    match auction.highest_bidder {
        None => {},
        Some(winner) => {
            if close_refusal(auction, constraint) is None {
                let share = issuer_share_of(constraint, auction.highest_bid as int);
                lemma_commission_by_parts(
                    auction.highest_bid as int,
                    constraint.unitary_commission as int,
                );
                let to_issuer = Transfer {
                    asset: native,
                    from: escrow,
                    to: auction.issuer,
                    amount: share as i128,
                };
                let to_owner = Transfer {
                    asset: native,
                    from: escrow,
                    to: auction.owner,
                    amount: (auction.highest_bid - share) as i128,
                };
                let to_winner = Transfer { asset, from: escrow, to: winner, amount: tickets };
                assert(close_transfers(auction, constraint, escrow) =~= seq![
                    to_issuer,
                    to_owner,
                    to_winner,
                ]);
                lemma_net_flow_of_three(to_issuer, to_owner, to_winner, native, escrow);
                lemma_net_flow_of_three(to_issuer, to_owner, to_winner, asset, escrow);
                lemma_net_flow_of_one(to_issuer, native, escrow);
                lemma_net_flow_of_one(to_owner, native, escrow);
                lemma_net_flow_of_one(to_winner, native, escrow);
                lemma_net_flow_of_one(to_issuer, asset, escrow);
                lemma_net_flow_of_one(to_owner, asset, escrow);
                lemma_net_flow_of_one(to_winner, asset, escrow);
            }
            if cancel_refusal(auction) is None {
                let refund = Transfer {
                    asset: native,
                    from: escrow,
                    to: winner,
                    amount: auction.highest_bid,
                };
                assert(cancel_transfers(auction, escrow) =~= seq![give_back, refund]);
                lemma_net_flow_of_two(give_back, refund, native, escrow);
                lemma_net_flow_of_two(give_back, refund, asset, escrow);
                lemma_net_flow_of_one(refund, native, escrow);
                lemma_net_flow_of_one(refund, asset, escrow);
            }
        },
    }
}

/// Authorization comes first: without the approval of the account that it
/// acts for, every operation is refused as unauthorized, whatever else holds
/// of its inputs, and so changes nothing. The account is the distributor for
/// a listing, the buyer for a purchase, the owner for starting, closing and
/// cancelling an auction, and the bidder for a bid.
pub proof fn law_nothing_without_approval(
    listings: Map<u64, SaleEntry>,
    records: Seq<AuctionRecord>,
    escrow: AccountId,
    holdings: Seq<Holding>,
    approvers: Seq<AccountId>,
    party: AccountId,
    asset: AssetId,
    units: int,
    now: u64,
    event_start_time: u64,
    number: u64,
    bid_on: DataKey,
    amount: i128,
)
    requires
        !approvers.contains(party),
    ensures
        listing_outcome(listings, escrow, holdings, approvers, party, asset, units) == Err::<
            Seq<Transfer>,
            SettlementError,
        >(SettlementError::Unauthorized),
        purchase_outcome(listings, escrow, holdings, approvers, asset, party, units) == Err::<
            Seq<Transfer>,
            SettlementError,
        >(SettlementError::Unauthorized),
        start_outcome(escrow, holdings, approvers, now, party, asset, units, event_start_time)
            == Err::<Seq<Transfer>, SettlementError>(SettlementError::Unauthorized),
        bid_outcome(records, escrow, holdings, approvers, now, bid_on, party, amount) == Err::<
            Seq<Transfer>,
            SettlementError,
        >(SettlementError::Unauthorized),
        close_outcome(records, escrow, holdings, approvers, DataKey::Auction(party, number))
            == Err::<Seq<Transfer>, SettlementError>(SettlementError::Unauthorized),
        cancel_outcome(records, escrow, holdings, approvers, DataKey::Auction(party, number))
            == Err::<Seq<Transfer>, SettlementError>(SettlementError::Unauthorized),
{
}

/// Idempotent terminal states: on an auction that has been closed or
/// cancelled, closing, cancelling and bidding before the end time are all
/// refused as already closed, so that no transfer is made a second time.
pub proof fn law_terminal_states_are_final(
    records: Seq<AuctionRecord>,
    escrow: AccountId,
    holdings: Seq<Holding>,
    approvers: Seq<AccountId>,
    key: DataKey,
    bidder: AccountId,
    amount: i128,
    now: u64,
)
    requires
        found(records, key),
        records[number_of(key)].auction.status != AuctionStatus::Open,
    ensures
        approvers.contains(owner_of(key)) ==> close_outcome(
            records,
            escrow,
            holdings,
            approvers,
            key,
        ) == Err::<Seq<Transfer>, SettlementError>(SettlementError::AlreadyClosed),
        approvers.contains(owner_of(key)) ==> cancel_outcome(
            records,
            escrow,
            holdings,
            approvers,
            key,
        ) == Err::<Seq<Transfer>, SettlementError>(SettlementError::AlreadyClosed),
        approvers.contains(bidder) && now < records[number_of(key)].auction.end_time
            ==> bid_outcome(records, escrow, holdings, approvers, now, key, bidder, amount)
            == Err::<Seq<Transfer>, SettlementError>(SettlementError::AlreadyClosed),
        close_outcome(records, escrow, holdings, approvers, key) is Err,
        cancel_outcome(records, escrow, holdings, approvers, key) is Err,
        bid_outcome(records, escrow, holdings, approvers, now, key, bidder, amount) is Err,
{
}

/// Closing or cancelling twice: once an auction has been closed or
/// cancelled with success, a second call of either on the same key is
/// refused as already closed, whatever the ledger then holds.
pub proof fn law_second_settlement_refused(
    records: Seq<AuctionRecord>,
    escrow: AccountId,
    holdings: Seq<Holding>,
    later_holdings: Seq<Holding>,
    approvers: Seq<AccountId>,
    key: DataKey,
    status: AuctionStatus,
)
    requires
        close_outcome(records, escrow, holdings, approvers, key) is Ok || cancel_outcome(
            records,
            escrow,
            holdings,
            approvers,
            key,
        ) is Ok,
        status != AuctionStatus::Open,
    ensures
        ({
            let after = records.update(
                number_of(key),
                (AuctionRecord {
                    auction: with_status(records[number_of(key)].auction, status),
                    constraint: records[number_of(key)].constraint,
                }),
            );
            &&& close_outcome(after, escrow, later_holdings, approvers, key) == Err::<
                Seq<Transfer>,
                SettlementError,
            >(SettlementError::AlreadyClosed)
            &&& cancel_outcome(after, escrow, later_holdings, approvers, key) == Err::<
                Seq<Transfer>,
                SettlementError,
            >(SettlementError::AlreadyClosed)
        }),
{
}

/// Time gating of bids: a bid that its bidder has approved, on an auction
/// that exists, is refused as too late once the end time has come, whatever
/// its amount and whatever state the auction is in.
pub proof fn law_no_bid_after_end(
    records: Seq<AuctionRecord>,
    escrow: AccountId,
    holdings: Seq<Holding>,
    approvers: Seq<AccountId>,
    now: u64,
    key: DataKey,
    bidder: AccountId,
    amount: i128,
)
    requires
        approvers.contains(bidder),
        found(records, key),
        now >= records[number_of(key)].auction.end_time,
    ensures
        bid_outcome(records, escrow, holdings, approvers, now, key, bidder, amount) == Err::<
            Seq<Transfer>,
            SettlementError,
        >(SettlementError::AuctionEnded),
{
}

/// Time gating of auctions: an auction that its owner has approved cannot
/// start unless the event lies more than one grace window ahead.
pub proof fn law_no_auction_close_to_event(
    escrow: AccountId,
    holdings: Seq<Holding>,
    approvers: Seq<AccountId>,
    now: u64,
    owner: AccountId,
    asset: AssetId,
    quantity: int,
    event_start_time: u64,
)
    requires
        approvers.contains(owner),
        event_start_time - GRACE_WINDOW <= now,
    ensures
        start_outcome(escrow, holdings, approvers, now, owner, asset, quantity, event_start_time)
            == Err::<Seq<Transfer>, SettlementError>(SettlementError::EventTooSoon),
{
}

/// Inventory never negative: a purchase that is not refused leaves a
/// well-formed listing, with an inventory that is not negative and is less
/// than before by exactly the units sold.
pub proof fn law_inventory_stays_non_negative(
    sale: TicketSale,
    constraint: TicketConstraint,
    units: int,
    buyer_balance: int,
)
    requires
        sale.wf(),
        purchase_refusal(sale, constraint, units, buyer_balance) is None,
    ensures
        sale_after_purchase(sale, units).available_units >= 0,
        sale_after_purchase(sale, units).available_units == sale.available_units - units,
        sale_after_purchase(sale, units).wf(),
{
    assert(ticket_amount_of(sale.available_units - units) <= ticket_amount_of(
        sale.available_units as int,
    ));
}

/// Escrow holds what the listing records, when it is created: the transfer
/// that funds a listing puts into escrow exactly the listed inventory.
/// Stated for an escrow account other than the distributor.
pub proof fn law_escrow_tracks_listing(
    issuer: AccountId,
    distributor: AccountId,
    asset_address: AssetId,
    native_address: AssetId,
    price_per_unit: i128,
    total_units: i128,
    escrow: AccountId,
)
    requires
        listing_refusal(total_units as int) is None,
        escrow != distributor,
    ensures
        net_flow(
            listing_transfers(distributor, asset_address, escrow, total_units as int),
            asset_address,
            escrow,
        ) == listed_tickets(
            (TicketSale {
                issuer,
                distributor,
                asset_address,
                native_address,
                price_per_unit,
                available_units: total_units,
            }),
        ),
{
    let t = Transfer {
        asset: asset_address,
        from: distributor,
        to: escrow,
        amount: ticket_amount_of(total_units as int) as i128,
    };
    lemma_net_flow_of_one(t, asset_address, escrow);
}

/// Escrow passes a purchase through: of the payment asset, escrow keeps
/// nothing, the buyer pays the principal plus the flat fee, and issuer and
/// distributor together receive exactly that; of the ticket asset, the buyer
/// receives the units bought, at the ledger's scale, out of escrow, which
/// goes on holding exactly the inventory that the listing records. Stated
/// for parties that are four different accounts and two different assets.
pub proof fn law_purchase_passes_through_escrow(
    sale: TicketSale,
    constraint: TicketConstraint,
    escrow: AccountId,
    buyer: AccountId,
    units: int,
    buyer_balance: int,
)
    requires
        sale.wf(),
        purchase_refusal(sale, constraint, units, buyer_balance) is None,
        sale.asset_address != sale.native_address,
        escrow != buyer,
        escrow != sale.issuer,
        escrow != sale.distributor,
        buyer != sale.issuer,
        buyer != sale.distributor,
        sale.issuer != sale.distributor,
    ensures
        net_flow(
            purchase_transfers(sale, constraint, escrow, buyer, units),
            sale.native_address,
            escrow,
        ) == 0,
        net_flow(
            purchase_transfers(sale, constraint, escrow, buyer, units),
            sale.native_address,
            buyer,
        ) == -(units * sale.price_per_unit + constraint.service_fee),
        net_flow(
            purchase_transfers(sale, constraint, escrow, buyer, units),
            sale.native_address,
            sale.issuer,
        ) + net_flow(
            purchase_transfers(sale, constraint, escrow, buyer, units),
            sale.native_address,
            sale.distributor,
        ) == units * sale.price_per_unit + constraint.service_fee,
        net_flow(
            purchase_transfers(sale, constraint, escrow, buyer, units),
            sale.asset_address,
            buyer,
        ) == ticket_amount_of(units),
        net_flow(
            purchase_transfers(sale, constraint, escrow, buyer, units),
            sale.asset_address,
            escrow,
        ) == listed_tickets(sale_after_purchase(sale, units))
            - listed_tickets(sale),
{
    let native = sale.native_address;
    let asset = sale.asset_address;
    let ts = purchase_transfers(sale, constraint, escrow, buyer, units);
    lemma_commission_by_parts(
        units * sale.price_per_unit,
        constraint.unitary_commission as int,
    );
    assert(ts.skip(1) =~= seq![ts[1], ts[2], ts[3]]);
    assert(0 <= ticket_amount_of(units) <= ticket_amount_of(sale.available_units as int));
    lemma_net_flow_of_three(ts[1], ts[2], ts[3], native, escrow);
    lemma_net_flow_of_three(ts[1], ts[2], ts[3], native, buyer);
    lemma_net_flow_of_three(ts[1], ts[2], ts[3], native, sale.issuer);
    lemma_net_flow_of_three(ts[1], ts[2], ts[3], native, sale.distributor);
    lemma_net_flow_of_three(ts[1], ts[2], ts[3], asset, buyer);
    lemma_net_flow_of_three(ts[1], ts[2], ts[3], asset, escrow);
    lemma_net_flow_of_one(ts[1], native, escrow);
    lemma_net_flow_of_one(ts[2], native, escrow);
    lemma_net_flow_of_one(ts[3], native, escrow);
    lemma_net_flow_of_one(ts[1], native, buyer);
    lemma_net_flow_of_one(ts[2], native, buyer);
    lemma_net_flow_of_one(ts[3], native, buyer);
    lemma_net_flow_of_one(ts[1], native, sale.issuer);
    lemma_net_flow_of_one(ts[2], native, sale.issuer);
    lemma_net_flow_of_one(ts[3], native, sale.issuer);
    lemma_net_flow_of_one(ts[1], native, sale.distributor);
    lemma_net_flow_of_one(ts[2], native, sale.distributor);
    lemma_net_flow_of_one(ts[3], native, sale.distributor);
    lemma_net_flow_of_one(ts[1], asset, buyer);
    lemma_net_flow_of_one(ts[2], asset, buyer);
    lemma_net_flow_of_one(ts[3], asset, buyer);
    lemma_net_flow_of_one(ts[1], asset, escrow);
    lemma_net_flow_of_one(ts[2], asset, escrow);
    lemma_net_flow_of_one(ts[3], asset, escrow);
}

} // verus!
