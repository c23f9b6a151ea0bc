//! The one scale between ticket counts and ledger amounts.

use vstd::prelude::*;

verus! {

/// Ledger base units in one ticket. The ledger counts a ticket asset in
/// units of one ten-millionth of a ticket; every amount of tickets handed to
/// the ledger is a ticket count times this constant, and no other scale is
/// applied anywhere.
pub const UNIT_SCALE: i128 = 10_000_000;

/// The ledger amount that stands for `units` tickets.
pub open spec fn ticket_amount_of(units: int) -> int {
    units * UNIT_SCALE
}

/// Whether `units` tickets can be written as a ledger amount.
pub open spec fn ticket_amount_fits(units: int) -> bool {
    i128::MIN <= ticket_amount_of(units) <= i128::MAX
}

/// The ledger amount that stands for `units` tickets, or `None` where it
/// would leave the range of the ledger's amounts.
pub fn ticket_amount(units: i128) -> (amount: Option<i128>)
    ensures
        ticket_amount_fits(units as int) ==> amount == Some(ticket_amount_of(units as int) as i128),
        !ticket_amount_fits(units as int) ==> amount == None::<i128>,
{
    units.checked_mul(UNIT_SCALE)
}

} // verus!
