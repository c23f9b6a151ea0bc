//! Identifiers of the parties and assets that settlement speaks of.

use vstd::prelude::*;

verus! {

/// An account that can hold balances and approve operations.
#[derive(Clone, Copy, Debug, PartialEq, Eq, Hash, Structural)]
pub struct AccountId(pub u64);

/// A fungible asset: a ticket class or a means of payment.
#[derive(Clone, Copy, Debug, PartialEq, Eq, Hash, Structural)]
pub struct AssetId(pub u64);

} // verus!
