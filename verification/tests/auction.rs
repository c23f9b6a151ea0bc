use entryx::account::{AccountId, AssetId};
use entryx::auction::{
    plan_auction, plan_bid, plan_cancel, plan_close, AuctionConstraint, AuctionStatus,
    ConstraintDataKey, DataKey, GRACE_WINDOW,
};
use entryx::auth::Authorization;
use entryx::error::SettlementError;
use entryx::events::Transition;
use entryx::holdings::Transfer;
use entryx::ledger::Ledger;
use entryx::market::TicketAuctionContract;
use entryx::scale::UNIT_SCALE;
use soroban_sdk::Env;

const TICKET: AssetId = AssetId(1);
const COIN: AssetId = AssetId(2);
const ESCROW: AccountId = AccountId(1);
const ISSUER: AccountId = AccountId(2);
const OWNER: AccountId = AccountId(3);
const ALICE: AccountId = AccountId(4);
const BOB: AccountId = AccountId(5);

const NOW: u64 = 1_000_000;
const EVENT: u64 = NOW + GRACE_WINDOW + 3_600;

fn fees(fee: i128, bps: i128) -> AuctionConstraint {
    AuctionConstraint { publishing_fee: fee, unitary_commission: bps }
}

fn funded_ledger() -> Ledger {
    let mut ledger = Ledger::new();
    ledger.mint(TICKET, OWNER, 4 * UNIT_SCALE).unwrap();
    ledger.mint(COIN, ALICE, 1_000).unwrap();
    ledger.mint(COIN, BOB, 1_000).unwrap();
    ledger
}

fn started(env: &Env, ledger: &mut Ledger, fee: i128, bps: i128) -> (TicketAuctionContract, DataKey) {
    let mut house = TicketAuctionContract::new(ESCROW);
    let event = house
        .start_auction(
            env,
            ledger,
            &Authorization::of(OWNER),
            NOW,
            ISSUER,
            OWNER,
            TICKET,
            COIN,
            4,
            0,
            EVENT,
            fees(fee, bps),
        )
        .unwrap();
    assert_eq!(event.transition, Transition::AuctionStarted);
    assert_eq!(
        event.transfers,
        vec![Transfer { asset: TICKET, from: OWNER, to: ESCROW, amount: 4 * UNIT_SCALE }]
    );
    (house, event.key)
}

#[test]
fn grace_window_is_one_day() {
    assert_eq!(GRACE_WINDOW, 86_400);
}

#[test]
fn start_escrows_the_tickets_and_ends_a_day_before_the_event() {
    let env = Env::default();
    let mut ledger = funded_ledger();
    let (house, key) = started(&env, &mut ledger, 2, 500);
    assert_eq!(key, DataKey::Auction(OWNER, 0));
    assert_eq!(ledger.balance(TICKET, OWNER), 0);
    assert_eq!(ledger.balance(TICKET, ESCROW), 4 * UNIT_SCALE);
    let auction = house.view_auction(key).unwrap();
    assert_eq!(auction.end_time, EVENT - 86_400);
    assert_eq!(auction.event_start_time, EVENT);
    assert_eq!(auction.highest_bid, 0);
    assert_eq!(auction.highest_bidder, None);
    assert_eq!(auction.quantity, 4);
    assert_eq!(auction.starting_price, 0);
    assert_eq!(auction.status, AuctionStatus::Open);
    assert_eq!(auction.owner, OWNER);
    assert_eq!(auction.issuer, ISSUER);
    assert_eq!(auction.bids.len(), 0);
    assert!(auction.is_well_formed());
    assert_eq!(
        house.view_constraint(ConstraintDataKey::AuctionConstraint(OWNER, 0)),
        Ok(fees(2, 500))
    );
    assert_eq!(house.escrow(), ESCROW);
}

#[test]
fn auctions_are_numbered_in_order_and_keyed_by_owner() {
    let env = Env::default();
    let mut ledger = funded_ledger();
    ledger.mint(TICKET, ALICE, UNIT_SCALE).unwrap();
    let (mut house, first) = started(&env, &mut ledger, 0, 0);
    let second = house
        .start_auction(
            &env,
            &mut ledger,
            &Authorization::of(ALICE),
            NOW,
            ISSUER,
            ALICE,
            TICKET,
            COIN,
            1,
            10,
            EVENT,
            fees(0, 0),
        )
        .unwrap()
        .key;
    assert_eq!(first, DataKey::Auction(OWNER, 0));
    assert_eq!(second, DataKey::Auction(ALICE, 1));
    assert_eq!(house.view_auction(second).unwrap().quantity, 1);
    // a number under another owner's name addresses nothing
    assert_eq!(
        house.view_auction(DataKey::Auction(ALICE, 0)).err(),
        Some(SettlementError::NotFound)
    );
    assert_eq!(
        house.view_auction(DataKey::Auction(OWNER, 1)).err(),
        Some(SettlementError::NotFound)
    );
    assert_eq!(
        house.view_auction(DataKey::Auction(OWNER, 2)).err(),
        Some(SettlementError::NotFound)
    );
    assert_eq!(
        house
            .close_auction(&mut ledger, &Authorization::of(ALICE), DataKey::Auction(ALICE, 0))
            .err(),
        Some(SettlementError::NotFound)
    );
}

#[test]
fn start_is_refused_when_the_event_is_too_soon() {
    let env = Env::default();
    let mut ledger = funded_ledger();
    let mut house = TicketAuctionContract::new(ESCROW);
    let auth = Authorization::of(OWNER);
    for event in [0, 86_399, NOW, NOW + 86_400] {
        let result = house.start_auction(
            &env, &mut ledger, &auth, NOW, ISSUER, OWNER, TICKET, COIN, 4, 0, event, fees(0, 0),
        );
        assert_eq!(result.err(), Some(SettlementError::EventTooSoon));
    }
    assert_eq!(ledger.balance(TICKET, OWNER), 4 * UNIT_SCALE);
    let result = house.start_auction(
        &env, &mut ledger, &auth, NOW, ISSUER, OWNER, TICKET, COIN, 4, 0, NOW + 86_401, fees(0, 0),
    );
    assert_eq!(result.unwrap().key, DataKey::Auction(OWNER, 0));
    assert_eq!(house.view_auction(DataKey::Auction(OWNER, 0)).unwrap().end_time, NOW + 1);
}

#[test]
fn start_needs_the_owner_and_the_tickets() {
    let env = Env::default();
    let mut ledger = funded_ledger();
    let mut house = TicketAuctionContract::new(ESCROW);
    let result = house.start_auction(
        &env,
        &mut ledger,
        &Authorization::of(ALICE),
        NOW,
        ISSUER,
        OWNER,
        TICKET,
        COIN,
        4,
        0,
        EVENT,
        fees(0, 0),
    );
    assert_eq!(result.err(), Some(SettlementError::Unauthorized));
    let result = house.start_auction(
        &env,
        &mut ledger,
        &Authorization::of(OWNER),
        NOW,
        ISSUER,
        OWNER,
        TICKET,
        COIN,
        5,
        0,
        EVENT,
        fees(0, 0),
    );
    assert_eq!(result.err(), Some(SettlementError::TransferFailed));
    assert_eq!(ledger.balance(TICKET, OWNER), 4 * UNIT_SCALE);
    assert_eq!(
        plan_auction(&env, NOW, ISSUER, OWNER, TICKET, COIN, -1, 0, EVENT, ESCROW).err(),
        Some(SettlementError::TransferFailed)
    );
    assert_eq!(
        plan_auction(&env, NOW, ISSUER, OWNER, TICKET, COIN, i128::MAX, 0, EVENT, ESCROW).err(),
        Some(SettlementError::ArithmeticOverflow)
    );
}

#[test]
fn second_bid_refunds_the_first_bidder() {
    let env = Env::default();
    let mut ledger = funded_ledger();
    let (mut house, key) = started(&env, &mut ledger, 0, 0);
    let event = house
        .place_bid(&mut ledger, &Authorization::of(ALICE), NOW, key, ALICE, 100)
        .unwrap();
    assert_eq!(event.transition, Transition::BidPlaced);
    assert_eq!(event.key, key);
    assert_eq!(
        event.transfers,
        vec![Transfer { asset: COIN, from: ALICE, to: ESCROW, amount: 100 }]
    );
    assert_eq!(ledger.balance(COIN, ALICE), 900);
    assert_eq!(ledger.balance(COIN, ESCROW), 100);
    let event = house
        .place_bid(&mut ledger, &Authorization::of(BOB), NOW + 1, key, BOB, 150)
        .unwrap();
    assert_eq!(
        event.transfers,
        vec![
            Transfer { asset: COIN, from: BOB, to: ESCROW, amount: 150 },
            Transfer { asset: COIN, from: ESCROW, to: ALICE, amount: 100 },
        ]
    );
    assert_eq!(ledger.balance(COIN, ALICE), 1_000);
    assert_eq!(ledger.balance(COIN, BOB), 850);
    assert_eq!(ledger.balance(COIN, ESCROW), 150);
    let auction = house.view_auction(key).unwrap();
    assert_eq!(auction.highest_bid, 150);
    assert_eq!(auction.highest_bidder, Some(BOB));
    assert_eq!(auction.last_bid(ALICE), Some(100));
    assert_eq!(auction.last_bid(BOB), Some(150));
    assert_eq!(auction.last_bid(OWNER), None);
    assert_eq!(auction.bids.len(), 2);
    assert!(auction.is_well_formed());
    assert_eq!(ledger.total_supply(COIN), 2_000);
}

#[test]
fn bidder_who_raises_their_own_bid_gets_the_old_one_back() {
    let env = Env::default();
    let mut ledger = funded_ledger();
    let (mut house, key) = started(&env, &mut ledger, 0, 0);
    let auth = Authorization::of(ALICE);
    house.place_bid(&mut ledger, &auth, NOW, key, ALICE, 100).unwrap();
    house.place_bid(&mut ledger, &auth, NOW, key, ALICE, 300).unwrap();
    assert_eq!(ledger.balance(COIN, ALICE), 700);
    assert_eq!(ledger.balance(COIN, ESCROW), 300);
    let auction = house.view_auction(key).unwrap();
    assert_eq!(auction.last_bid(ALICE), Some(300));
    assert_eq!(auction.bids.len(), 1);
}

#[test]
fn bid_must_be_strictly_higher() {
    let env = Env::default();
    let mut ledger = funded_ledger();
    let (mut house, key) = started(&env, &mut ledger, 0, 0);
    assert_eq!(
        house.place_bid(&mut ledger, &Authorization::of(ALICE), NOW, key, ALICE, 0).err(),
        Some(SettlementError::BidTooLow)
    );
    house.place_bid(&mut ledger, &Authorization::of(ALICE), NOW, key, ALICE, 100).unwrap();
    for amount in [100, 99, 0, -5] {
        assert_eq!(
            house.place_bid(&mut ledger, &Authorization::of(BOB), NOW, key, BOB, amount).err(),
            Some(SettlementError::BidTooLow)
        );
    }
    assert_eq!(ledger.balance(COIN, BOB), 1_000);
    assert_eq!(ledger.balance(COIN, ALICE), 900);
    assert_eq!(house.view_auction(key).unwrap().highest_bidder, Some(ALICE));
    assert!(house.place_bid(&mut ledger, &Authorization::of(BOB), NOW, key, BOB, 101).is_ok());
}

#[test]
fn bid_after_end_time_fails_and_changes_nothing() {
    let env = Env::default();
    let mut ledger = funded_ledger();
    let (mut house, key) = started(&env, &mut ledger, 0, 0);
    house.place_bid(&mut ledger, &Authorization::of(ALICE), NOW, key, ALICE, 100).unwrap();
    let end = EVENT - 86_400;
    for now in [end, end + 1, u64::MAX] {
        assert_eq!(
            house.place_bid(&mut ledger, &Authorization::of(BOB), now, key, BOB, 150).err(),
            Some(SettlementError::AuctionEnded)
        );
    }
    assert_eq!(ledger.balance(COIN, BOB), 1_000);
    assert_eq!(ledger.balance(COIN, ALICE), 900);
    assert_eq!(ledger.balance(COIN, ESCROW), 100);
    let auction = house.view_auction(key).unwrap();
    assert_eq!(auction.highest_bid, 100);
    assert_eq!(auction.highest_bidder, Some(ALICE));
    assert_eq!(auction.last_bid(BOB), None);
    assert!(house.place_bid(&mut ledger, &Authorization::of(BOB), end - 1, key, BOB, 150).is_ok());
}

#[test]
fn bid_needs_the_bidder_the_auction_and_the_funds() {
    let env = Env::default();
    let mut ledger = funded_ledger();
    let (mut house, key) = started(&env, &mut ledger, 0, 0);
    assert_eq!(
        house.place_bid(&mut ledger, &Authorization::of(ALICE), NOW, key, BOB, 100).err(),
        Some(SettlementError::Unauthorized)
    );
    assert_eq!(
        house.place_bid(
            &mut ledger,
            &Authorization::of(BOB),
            NOW,
            DataKey::Auction(OWNER, 7),
            BOB,
            100
        ).err(),
        Some(SettlementError::NotFound)
    );
    assert_eq!(
        house.place_bid(&mut ledger, &Authorization::of(BOB), NOW, key, BOB, 1_001).err(),
        Some(SettlementError::TransferFailed)
    );
    assert_eq!(house.view_auction(key).unwrap().highest_bid, 0);
    assert_eq!(ledger.balance(COIN, BOB), 1_000);
}

#[test]
fn close_without_bids_returns_the_tickets() {
    let env = Env::default();
    let mut ledger = funded_ledger();
    let (mut house, key) = started(&env, &mut ledger, 5, 500);
    let event = house.close_auction(&mut ledger, &Authorization::of(OWNER), key).unwrap();
    assert_eq!(event.transition, Transition::AuctionClosed);
    assert_eq!(event.key, key);
    assert_eq!(
        event.transfers,
        vec![Transfer { asset: TICKET, from: ESCROW, to: OWNER, amount: 4 * UNIT_SCALE }]
    );
    assert_eq!(ledger.balance(TICKET, OWNER), 4 * UNIT_SCALE);
    assert_eq!(ledger.balance(TICKET, ESCROW), 0);
    assert_eq!(ledger.balance(COIN, OWNER), 0);
    assert_eq!(ledger.balance(COIN, ISSUER), 0);
    assert_eq!(ledger.balance(COIN, ESCROW), 0);
    assert_eq!(house.view_auction(key).unwrap().status, AuctionStatus::Closed);
}

#[test]
fn close_pays_issuer_and_owner_and_hands_over_the_tickets() {
    let env = Env::default();
    let mut ledger = funded_ledger();
    let (mut house, key) = started(&env, &mut ledger, 5, 500);
    house.place_bid(&mut ledger, &Authorization::of(ALICE), NOW, key, ALICE, 100).unwrap();
    house.place_bid(&mut ledger, &Authorization::of(BOB), NOW, key, BOB, 150).unwrap();
    let event = house.close_auction(&mut ledger, &Authorization::of(OWNER), key).unwrap();
    // fee 5 plus 5% of 150, rounded down: 5 + 7 = 12
    assert_eq!(
        event.transfers,
        vec![
            Transfer { asset: COIN, from: ESCROW, to: ISSUER, amount: 12 },
            Transfer { asset: COIN, from: ESCROW, to: OWNER, amount: 138 },
            Transfer { asset: TICKET, from: ESCROW, to: BOB, amount: 4 * UNIT_SCALE },
        ]
    );
    assert_eq!(ledger.balance(COIN, ISSUER), 12);
    assert_eq!(ledger.balance(COIN, OWNER), 138);
    assert_eq!(ledger.balance(COIN, ESCROW), 0);
    assert_eq!(ledger.balance(COIN, ALICE), 1_000);
    assert_eq!(ledger.balance(COIN, BOB), 850);
    assert_eq!(ledger.balance(TICKET, BOB), 4 * UNIT_SCALE);
    assert_eq!(ledger.balance(TICKET, ESCROW), 0);
    assert_eq!(ledger.total_supply(COIN), 2_000);
    assert_eq!(ledger.total_supply(TICKET), 4 * UNIT_SCALE);
}

#[test]
fn close_fails_when_the_fee_exceeds_the_bid() {
    let env = Env::default();
    let mut ledger = funded_ledger();
    let (mut house, key) = started(&env, &mut ledger, 101, 0);
    house.place_bid(&mut ledger, &Authorization::of(ALICE), NOW, key, ALICE, 100).unwrap();
    assert_eq!(
        house.close_auction(&mut ledger, &Authorization::of(OWNER), key).err(),
        Some(SettlementError::InvalidFeeConfiguration)
    );
    assert_eq!(house.view_auction(key).unwrap().status, AuctionStatus::Open);
    assert_eq!(ledger.balance(COIN, ESCROW), 100);
    // the owner can still call the auction off
    assert!(house.cancel_auction(&mut ledger, &Authorization::of(OWNER), key).is_ok());
    assert_eq!(ledger.balance(COIN, ALICE), 1_000);
}

#[test]
fn close_and_cancel_need_the_owner() {
    let env = Env::default();
    let mut ledger = funded_ledger();
    let (mut house, key) = started(&env, &mut ledger, 0, 0);
    assert_eq!(
        house.close_auction(&mut ledger, &Authorization::of(ALICE), key).err(),
        Some(SettlementError::Unauthorized)
    );
    assert_eq!(
        house.cancel_auction(&mut ledger, &Authorization::none(), key).err(),
        Some(SettlementError::Unauthorized)
    );
    assert_eq!(house.view_auction(key).unwrap().status, AuctionStatus::Open);
    assert_eq!(ledger.balance(TICKET, ESCROW), 4 * UNIT_SCALE);
}

#[test]
fn cancel_refunds_the_standing_bid_and_returns_the_tickets() {
    let env = Env::default();
    let mut ledger = funded_ledger();
    let (mut house, key) = started(&env, &mut ledger, 5, 500);
    house.place_bid(&mut ledger, &Authorization::of(ALICE), NOW, key, ALICE, 100).unwrap();
    let event = house.cancel_auction(&mut ledger, &Authorization::of(OWNER), key).unwrap();
    assert_eq!(event.transition, Transition::AuctionCancelled);
    assert_eq!(event.key, key);
    assert_eq!(
        event.transfers,
        vec![
            Transfer { asset: TICKET, from: ESCROW, to: OWNER, amount: 4 * UNIT_SCALE },
            Transfer { asset: COIN, from: ESCROW, to: ALICE, amount: 100 },
        ]
    );
    assert_eq!(ledger.balance(COIN, ALICE), 1_000);
    assert_eq!(ledger.balance(COIN, ESCROW), 0);
    assert_eq!(ledger.balance(COIN, ISSUER), 0);
    assert_eq!(ledger.balance(TICKET, OWNER), 4 * UNIT_SCALE);
    assert_eq!(house.view_auction(key).unwrap().status, AuctionStatus::Cancelled);
}

#[test]
fn cancel_without_bids_moves_no_funds() {
    let env = Env::default();
    let mut ledger = funded_ledger();
    let (mut house, key) = started(&env, &mut ledger, 5, 500);
    let event = house.cancel_auction(&mut ledger, &Authorization::of(OWNER), key).unwrap();
    assert_eq!(
        event.transfers,
        vec![Transfer { asset: TICKET, from: ESCROW, to: OWNER, amount: 4 * UNIT_SCALE }]
    );
    assert_eq!(ledger.total_supply(COIN), 2_000);
    assert_eq!(ledger.balance(COIN, ESCROW), 0);
}

#[test]
fn cancel_after_close_is_already_closed() {
    let env = Env::default();
    let mut ledger = funded_ledger();
    let (mut house, key) = started(&env, &mut ledger, 0, 0);
    house.place_bid(&mut ledger, &Authorization::of(ALICE), NOW, key, ALICE, 100).unwrap();
    house.close_auction(&mut ledger, &Authorization::of(OWNER), key).unwrap();
    assert_eq!(
        house.cancel_auction(&mut ledger, &Authorization::of(OWNER), key).err(),
        Some(SettlementError::AlreadyClosed)
    );
    assert_eq!(
        house.close_auction(&mut ledger, &Authorization::of(OWNER), key).err(),
        Some(SettlementError::AlreadyClosed)
    );
    assert_eq!(ledger.balance(COIN, ALICE), 900);
    assert_eq!(ledger.balance(COIN, OWNER), 100);
    assert_eq!(ledger.balance(TICKET, ALICE), 4 * UNIT_SCALE);
    assert_eq!(ledger.balance(TICKET, OWNER), 0);
    assert_eq!(house.view_auction(key).unwrap().status, AuctionStatus::Closed);
}

#[test]
fn nothing_happens_after_cancel() {
    let env = Env::default();
    let mut ledger = funded_ledger();
    let (mut house, key) = started(&env, &mut ledger, 0, 0);
    house.cancel_auction(&mut ledger, &Authorization::of(OWNER), key).unwrap();
    assert_eq!(
        house.cancel_auction(&mut ledger, &Authorization::of(OWNER), key).err(),
        Some(SettlementError::AlreadyClosed)
    );
    assert_eq!(
        house.close_auction(&mut ledger, &Authorization::of(OWNER), key).err(),
        Some(SettlementError::AlreadyClosed)
    );
    assert_eq!(
        house.place_bid(&mut ledger, &Authorization::of(ALICE), NOW, key, ALICE, 100).err(),
        Some(SettlementError::AlreadyClosed)
    );
    assert_eq!(ledger.balance(TICKET, OWNER), 4 * UNIT_SCALE);
    assert_eq!(ledger.balance(COIN, ALICE), 1_000);
}

#[test]
fn plans_agree_with_the_operations() {
    let env = Env::default();
    let plan =
        plan_auction(&env, NOW, ISSUER, OWNER, TICKET, COIN, 4, 25, EVENT, ESCROW).unwrap();
    assert_eq!(
        plan.transfers,
        vec![Transfer { asset: TICKET, from: OWNER, to: ESCROW, amount: 4 * UNIT_SCALE }]
    );
    let mut auction = plan.auction;
    assert_eq!(auction.starting_price, 25);
    assert_eq!(
        plan_bid(&auction, ESCROW, ALICE, 10, NOW),
        Ok(vec![Transfer { asset: COIN, from: ALICE, to: ESCROW, amount: 10 }])
    );
    auction.record_bid(ALICE, 10);
    assert_eq!(auction.highest_bid, 10);
    assert_eq!(auction.highest_bidder, Some(ALICE));
    assert_eq!(auction.last_bid(ALICE), Some(10));
    assert_eq!(plan_bid(&auction, ESCROW, BOB, 10, NOW), Err(SettlementError::BidTooLow));
    assert_eq!(
        plan_cancel(&auction, ESCROW),
        Ok(vec![
            Transfer { asset: TICKET, from: ESCROW, to: OWNER, amount: 4 * UNIT_SCALE },
            Transfer { asset: COIN, from: ESCROW, to: ALICE, amount: 10 },
        ])
    );
    assert_eq!(
        plan_close(&auction, &fees(1, 1_000), ESCROW),
        Ok(vec![
            Transfer { asset: COIN, from: ESCROW, to: ISSUER, amount: 2 },
            Transfer { asset: COIN, from: ESCROW, to: OWNER, amount: 8 },
            Transfer { asset: TICKET, from: ESCROW, to: ALICE, amount: 4 * UNIT_SCALE },
        ])
    );
    auction.finish(AuctionStatus::Closed);
    assert_eq!(plan_close(&auction, &fees(1, 1_000), ESCROW), Err(SettlementError::AlreadyClosed));
    assert_eq!(plan_cancel(&auction, ESCROW), Err(SettlementError::AlreadyClosed));
    assert_eq!(plan_bid(&auction, ESCROW, BOB, 11, NOW), Err(SettlementError::AlreadyClosed));
}
