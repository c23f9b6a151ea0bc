//! What an operation reports when it has changed the state: which record,
//! in which way, and what was moved. The engine publishes nothing itself; its
//! caller publishes what it is handed.

use crate::holdings::Transfer;
use vstd::prelude::*;

verus! {

/// The ways in which an operation changes the state.
#[derive(Clone, Copy, Debug, PartialEq, Eq, Structural)]
pub enum Transition {
    ListingCreated,
    Purchased,
    AuctionStarted,
    BidPlaced,
    AuctionClosed,
    AuctionCancelled,
}

/// One change of state: the transition, the key of the record that it
/// changed, and the transfers that were made for it, in order.
#[derive(Debug, PartialEq, Eq)]
pub struct Event<K> {
    pub transition: Transition,
    pub key: K,
    pub transfers: Vec<Transfer>,
}

} // verus!
