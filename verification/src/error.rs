//! The error kinds that every settlement operation reports.

use vstd::prelude::*;

verus! {

/// Why an operation was rejected. Every error is fatal to the operation that
/// reports it: nothing is moved and nothing is recorded.
#[derive(Clone, Copy, Debug, PartialEq, Eq, Structural)]
pub enum SettlementError {
    /// The account that must approve the operation has not done so.
    Unauthorized,
    /// No record is stored under the key.
    NotFound,
    /// A listing already exists under the key.
    DuplicateListing,
    /// The auction has already been closed or cancelled.
    AlreadyClosed,
    /// More units were asked for than the listing still holds.
    InsufficientInventory,
    /// More units were asked for than one purchase may take.
    ExceedsPurchaseLimit,
    /// The bid does not exceed the standing highest bid.
    BidTooLow,
    /// The auction's bidding window is over.
    AuctionEnded,
    /// The event starts too soon for an auction to be opened.
    EventTooSoon,
    /// The payer's balance is below what is due.
    InsufficientFunds,
    /// The ledger could not move the requested amount.
    TransferFailed,
    /// The fee schedule yields a negative or unrepresentable split.
    InvalidFeeConfiguration,
    /// An amount left the range of the integer type.
    ArithmeticOverflow,
}

} // verus!
