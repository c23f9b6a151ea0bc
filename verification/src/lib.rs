//! Settlement engine for a ticket marketplace: primary sales from fixed-price
//! listings and time-boxed resale auctions, with funds and tickets held in
//! escrow and proceeds split between issuer and seller.
//!
//! The engine decides; it moves nothing by itself. Each operation checks that
//! the right account has approved, validates its inputs against the stored
//! record, works out the transfers that settle it, hands them to a ledger
//! that makes all of them or none, and only then records the new state.
//!
//! - [`fees`]: how a payment is split between issuer and seller.
//! - [`scale`]: the one scale between ticket counts and ledger amounts.
//! - [`holdings`], [`ledger`]: the model of balances and the ledger built on
//!   it.
//! - [`token`]: the ticket token.
//! - [`auth`]: which accounts have approved an operation.
//! - [`listing`]: primary sale.
//! - [`auction`], [`market`]: resale by auction.
//! - [`events`]: what an operation reports of a change of state.
//! - [`laws`]: what holds of all of it together.
//! - [`host`]: the host values that the engine holds, and what is taken on
//!   trust about them.

pub mod account;
pub mod auction;
pub mod auth;
pub mod error;
pub mod events;
pub mod fees;
pub mod holdings;
pub mod host;
pub mod laws;
pub mod ledger;
pub mod listing;
pub mod market;
pub mod scale;
pub mod token;
