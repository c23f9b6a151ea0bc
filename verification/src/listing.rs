//! Primary sale: fixed-price listings of a ticket asset, held in escrow and
//! sold unit by unit.

use crate::account::{AccountId, AssetId};
use crate::auth::Authorization;
use crate::error::SettlementError;
use crate::events::{Event, Transition};
use crate::fees::{commission_of, compute_split, split_defined, split_of, FeeSplit};
use crate::holdings::{amount_in, conserved, settle_in, settled, Holding, Transfer};
use crate::ledger::Ledger;
use crate::scale::{ticket_amount, ticket_amount_fits, ticket_amount_of};
use std::collections::HashMap;
use vstd::prelude::*;

verus! {

broadcast use vstd::std_specs::hash::group_hash_axioms;

/// The key under which a listing is kept: the ticket asset it sells.
#[derive(Clone, Copy, Debug, PartialEq, Eq, Structural)]
pub enum DataKey {
    TicketSale(AssetId),
}

/// The key under which a listing's fee schedule is kept.
#[derive(Clone, Copy, Debug, PartialEq, Eq, Structural)]
pub enum ConstraintDataKey {
    TicketConstraint(AssetId),
}

/// The fee schedule of a listing, fixed when the listing is created.
#[derive(Clone, Copy, Debug, PartialEq, Eq, Structural)]
pub struct TicketConstraint {
    /// Flat fee on each purchase.
    pub service_fee: i128,
    /// Commission on the principal, in basis points.
    pub unitary_commission: i128,
    /// The most units that one purchase may take.
    pub max_units_per_purchase: i128,
    /// The most units that one account may hold.
    pub max_units_per_account: i128,
}

/// An offer of tickets at a fixed price per unit.
#[derive(Clone, Copy, Debug, PartialEq, Eq, Structural)]
pub struct TicketSale {
    /// Who issued the tickets and receives fee and commission.
    pub issuer: AccountId,
    /// Who sells the tickets and receives the rest.
    pub distributor: AccountId,
    /// The ticket asset.
    pub asset_address: AssetId,
    /// The asset in which buyers pay.
    pub native_address: AssetId,
    /// Price of one unit, in the payment asset's smallest unit.
    pub price_per_unit: i128,
    /// Units still for sale.
    pub available_units: i128,
}

impl TicketSale {
    /// The inventory is not negative and can be written as a ledger amount.
    pub open spec fn wf(&self) -> bool {
        0 <= self.available_units && ticket_amount_fits(self.available_units as int)
    }

    /// Whether the record is well formed.
    pub fn is_well_formed(&self) -> (ok: bool)
        ensures
            ok == self.wf(),
    {
        self.available_units >= 0 && ticket_amount(self.available_units).is_some()
    }
}

/// A listing with its fee schedule.
#[derive(Clone, Copy, Debug, PartialEq, Eq, Structural)]
pub struct SaleEntry {
    pub sale: TicketSale,
    pub constraint: TicketConstraint,
}

/// The tickets that escrow holds for a listing, as a ledger amount: the
/// units still for sale.
pub open spec fn listed_tickets(sale: TicketSale) -> int {
    ticket_amount_of(sale.available_units as int)
}

/// The transfers that settle a purchase of `units` units, in order: the
/// buyer pays the total into escrow, escrow pays the issuer and then the
/// distributor, and escrow hands the tickets to the buyer.
pub open spec fn purchase_transfers(
    sale: TicketSale,
    constraint: TicketConstraint,
    escrow: AccountId,
    buyer: AccountId,
    units: int,
) -> Seq<Transfer> {
    let split = split_of(
        units * sale.price_per_unit,
        constraint.service_fee as int,
        constraint.unitary_commission as int,
    );
    seq![
        Transfer { asset: sale.native_address, from: buyer, to: escrow, amount: split.0 as i128 },
        Transfer { asset: sale.native_address, from: escrow, to: sale.issuer, amount: split.1 as i128 },
        Transfer {
            asset: sale.native_address,
            from: escrow,
            to: sale.distributor,
            amount: split.2 as i128,
        },
        Transfer {
            asset: sale.asset_address,
            from: escrow,
            to: buyer,
            amount: ticket_amount_of(units) as i128,
        },
    ]
}

/// Why a purchase of `units` units by a buyer who holds `buyer_balance` of
/// the payment asset is refused before any transfer, or `None` where it is
/// not. The reasons are tried in this order.
pub open spec fn purchase_refusal(
    sale: TicketSale,
    constraint: TicketConstraint,
    units: int,
    buyer_balance: int,
) -> Option<SettlementError> {
    let principal = units * sale.price_per_unit;
    if units > sale.available_units {
        Some(SettlementError::InsufficientInventory)
    } else if units > constraint.max_units_per_purchase {
        Some(SettlementError::ExceedsPurchaseLimit)
    } else if units < 0 {
        Some(SettlementError::TransferFailed)
    } else if !(i128::MIN <= principal <= i128::MAX) {
        Some(SettlementError::ArithmeticOverflow)
    } else if !split_defined(
        principal,
        constraint.service_fee as int,
        constraint.unitary_commission as int,
    ) {
        Some(SettlementError::InvalidFeeConfiguration)
    } else if buyer_balance < principal + constraint.service_fee {
        Some(SettlementError::InsufficientFunds)
    } else {
        None
    }
}

/// The listing after `units` units have been sold.
pub open spec fn sale_after_purchase(sale: TicketSale, units: int) -> TicketSale {
    TicketSale { available_units: (sale.available_units - units) as i128, ..sale }
}

/// What a purchase comes to: the split of the payment, the transfers that
/// settle it, and the listing as it stands afterwards.
#[derive(Debug, PartialEq, Eq)]
pub struct PurchasePlan {
    pub split: FeeSplit,
    pub transfers: Vec<Transfer>,
    pub sale: TicketSale,
}

/// Decides a purchase of `unit_count` units from `sale` by `buyer`, who
/// holds `buyer_balance` of the payment asset.
///
/// The purchase is refused for the first reason that `purchase_refusal`
/// finds. Otherwise the plan holds the split of the payment, the four
/// transfers that settle it in order, and the listing with its inventory
/// reduced by the units sold.
pub fn plan_purchase(
    sale: &TicketSale,
    constraint: &TicketConstraint,
    escrow: AccountId,
    buyer: AccountId,
    unit_count: i128,
    buyer_balance: i128,
) -> (result: Result<PurchasePlan, SettlementError>)
    requires
        sale.wf(),
    ensures
        match purchase_refusal(*sale, *constraint, unit_count as int, buyer_balance as int) {
            Some(e) => result is Err && result->Err_0 == e,
            None => {
                &&& result is Ok
                &&& result->Ok_0.transfers@ == purchase_transfers(
                    *sale,
                    *constraint,
                    escrow,
                    buyer,
                    unit_count as int,
                )
                &&& result->Ok_0.sale == sale_after_purchase(*sale, unit_count as int)
                &&& result->Ok_0.sale.wf()
                &&& result->Ok_0.split.buyer_total_due == unit_count * sale.price_per_unit
                    + constraint.service_fee
                &&& result->Ok_0.split.issuer_share == constraint.service_fee + commission_of(
                    unit_count * sale.price_per_unit,
                    constraint.unitary_commission as int,
                )
                &&& result->Ok_0.split.issuer_share + result->Ok_0.split.seller_share
                    == result->Ok_0.split.buyer_total_due
            },
        },
{
    if unit_count > sale.available_units {
        return Err(SettlementError::InsufficientInventory);
    }
    if unit_count > constraint.max_units_per_purchase {
        return Err(SettlementError::ExceedsPurchaseLimit);
    }
    if unit_count < 0 {
        return Err(SettlementError::TransferFailed);
    }
    let principal: i128 = match unit_count.checked_mul(sale.price_per_unit) {
        Some(p) => p,
        None => {
            return Err(SettlementError::ArithmeticOverflow);
        },
    };
    let split = match compute_split(principal, constraint.service_fee, constraint.unitary_commission) {
        Ok(s) => s,
        Err(_) => {
            return Err(SettlementError::InvalidFeeConfiguration);
        },
    };
    if buyer_balance < split.buyer_total_due {
        return Err(SettlementError::InsufficientFunds);
    }
    assert(ticket_amount_fits(unit_count as int)) by (nonlinear_arith)
        requires
            0 <= unit_count <= sale.available_units,
            ticket_amount_fits(sale.available_units as int),
    ;
    assert(ticket_amount_fits((sale.available_units - unit_count) as int)) by (nonlinear_arith)
        requires
            0 <= unit_count <= sale.available_units,
            ticket_amount_fits(sale.available_units as int),
    ;
    let tickets: i128 = ticket_amount(unit_count).unwrap();
    let mut transfers: Vec<Transfer> = Vec::new();
    transfers.push(
        Transfer {
            asset: sale.native_address,
            from: buyer,
            to: escrow,
            amount: split.buyer_total_due,
        },
    );
    transfers.push(
        Transfer {
            asset: sale.native_address,
            from: escrow,
            to: sale.issuer,
            amount: split.issuer_share,
        },
    );
    transfers.push(
        Transfer {
            asset: sale.native_address,
            from: escrow,
            to: sale.distributor,
            amount: split.seller_share,
        },
    );
    transfers.push(Transfer { asset: sale.asset_address, from: escrow, to: buyer, amount: tickets });
    proof {
        assert(transfers@ =~= purchase_transfers(
            *sale,
            *constraint,
            escrow,
            buyer,
            unit_count as int,
        ));
    }
    Ok(
        PurchasePlan {
            split,
            transfers,
            sale: TicketSale {
                issuer: sale.issuer,
                distributor: sale.distributor,
                asset_address: sale.asset_address,
                native_address: sale.native_address,
                price_per_unit: sale.price_per_unit,
                available_units: sale.available_units - unit_count,
            },
        },
    )
}

/// The transfer that funds a listing: the distributor hands the whole
/// inventory to escrow.
pub open spec fn listing_transfers(
    distributor: AccountId,
    asset: AssetId,
    escrow: AccountId,
    total_units: int,
) -> Seq<Transfer> {
    seq![
        Transfer {
            asset,
            from: distributor,
            to: escrow,
            amount: ticket_amount_of(total_units) as i128,
        },
    ]
}

/// Why an inventory of `total_units` units cannot be listed, or `None` where
/// it can.
pub open spec fn listing_refusal(total_units: int) -> Option<SettlementError> {
    if total_units < 0 {
        Some(SettlementError::TransferFailed)
    } else if !ticket_amount_fits(total_units) {
        Some(SettlementError::ArithmeticOverflow)
    } else {
        None
    }
}

/// What creating a listing comes to: the listing and the transfer that funds
/// its escrow.
#[derive(Debug, PartialEq, Eq)]
pub struct ListingPlan {
    pub sale: TicketSale,
    pub transfers: Vec<Transfer>,
}

/// Decides the creation of a listing of `total_units` units.
///
/// A negative inventory is refused as a failed transfer, and one that cannot
/// be written as a ledger amount as an overflow. Otherwise the plan holds the
/// listing with its full inventory and the one transfer that moves the
/// inventory from the distributor into escrow.
pub fn plan_listing(
    issuer: AccountId,
    distributor: AccountId,
    asset_address: AssetId,
    native_address: AssetId,
    price_per_unit: i128,
    total_units: i128,
    escrow: AccountId,
) -> (result: Result<ListingPlan, SettlementError>)
    ensures
        match listing_refusal(total_units as int) {
            Some(e) => result is Err && result->Err_0 == e,
            None => {
                &&& result is Ok
                &&& result->Ok_0.sale == (TicketSale {
                    issuer,
                    distributor,
                    asset_address,
                    native_address,
                    price_per_unit,
                    available_units: total_units,
                })
                &&& result->Ok_0.sale.wf()
                &&& result->Ok_0.transfers@ == listing_transfers(
                    distributor,
                    asset_address,
                    escrow,
                    total_units as int,
                )
            },
        },
{
    if total_units < 0 {
        return Err(SettlementError::TransferFailed);
    }
    let tickets: i128 = match ticket_amount(total_units) {
        Some(t) => t,
        None => {
            return Err(SettlementError::ArithmeticOverflow);
        },
    };
    let mut transfers: Vec<Transfer> = Vec::new();
    transfers.push(Transfer { asset: asset_address, from: distributor, to: escrow, amount: tickets });
    proof {
        assert(transfers@ =~= listing_transfers(
            distributor,
            asset_address,
            escrow,
            total_units as int,
        ));
    }
    Ok(
        ListingPlan {
            sale: TicketSale {
                issuer,
                distributor,
                asset_address,
                native_address,
                price_per_unit,
                available_units: total_units,
            },
            transfers,
        },
    )
}

/// How creating a listing ends: the transfers made, or the first reason
/// for which it is refused.
pub open spec fn listing_outcome(
    listings: Map<u64, SaleEntry>,
    escrow: AccountId,
    holdings: Seq<Holding>,
    approvers: Seq<AccountId>,
    distributor: AccountId,
    asset: AssetId,
    total_units: int,
) -> Result<Seq<Transfer>, SettlementError> {
    let transfers = listing_transfers(distributor, asset, escrow, total_units);
    if !approvers.contains(distributor) {
        Err(SettlementError::Unauthorized)
    } else if listings.contains_key(asset.0) {
        Err(SettlementError::DuplicateListing)
    } else if listing_refusal(total_units) is Some {
        Err(listing_refusal(total_units)->Some_0)
    } else if settle_in(holdings, transfers) is None {
        Err(SettlementError::TransferFailed)
    } else {
        Ok(transfers)
    }
}

/// How a purchase ends: the transfers made, or the first reason for which
/// it is refused.
pub open spec fn purchase_outcome(
    listings: Map<u64, SaleEntry>,
    escrow: AccountId,
    holdings: Seq<Holding>,
    approvers: Seq<AccountId>,
    asset: AssetId,
    buyer: AccountId,
    units: int,
) -> Result<Seq<Transfer>, SettlementError> {
    if !approvers.contains(buyer) {
        Err(SettlementError::Unauthorized)
    } else if !listings.contains_key(asset.0) {
        Err(SettlementError::NotFound)
    } else {
        let entry = listings[asset.0];
        let refusal = purchase_refusal(
            entry.sale,
            entry.constraint,
            units,
            amount_in(holdings, entry.sale.native_address, buyer),
        );
        let transfers = purchase_transfers(entry.sale, entry.constraint, escrow, buyer, units);
        if refusal is Some {
            Err(refusal->Some_0)
        } else if settle_in(holdings, transfers) is None {
            Err(SettlementError::TransferFailed)
        } else {
            Ok(transfers)
        }
    }
}

/// The listing registry: every listing with its fee schedule, by ticket
/// asset, and the account that holds the listed tickets in escrow.
pub struct TicketContract {
    escrow: AccountId,
    sales: HashMap<u64, SaleEntry>,
}

impl TicketContract {
    /// The listings, by the number of their ticket asset.
    pub closed spec fn view(&self) -> Map<u64, SaleEntry> {
        self.sales@
    }

    /// The account that holds listed tickets in escrow.
    pub closed spec fn escrow_account(&self) -> AccountId {
        self.escrow
    }

    /// Every listing is well formed and kept under its own ticket asset.
    pub open spec fn wf(&self) -> bool {
        forall|k: u64| #[trigger]
            self@.contains_key(k) ==> self@[k].sale.wf() && self@[k].sale.asset_address.0 == k
    }

    /// A registry without listings, whose escrow is `escrow`.
    pub fn new(escrow: AccountId) -> (registry: TicketContract)
        ensures
            registry.wf(),
            registry@ == Map::<u64, SaleEntry>::empty(),
            registry.escrow_account() == escrow,
    {
        TicketContract { escrow, sales: HashMap::new() }
    }

    /// The account that holds listed tickets in escrow.
    pub fn escrow(&self) -> (escrow: AccountId)
        ensures
            escrow == self.escrow_account(),
    {
        self.escrow
    }

    /// The listing kept under `key`, or `NotFound`.
    pub fn view_listing(&self, key: DataKey) -> (result: Result<TicketSale, SettlementError>)
        ensures
            match key {
                DataKey::TicketSale(asset) => if self@.contains_key(asset.0) {
                    result == Ok::<TicketSale, SettlementError>(self@[asset.0].sale)
                } else {
                    result == Err::<TicketSale, SettlementError>(SettlementError::NotFound)
                },
            },
    {
        match key {
            DataKey::TicketSale(asset) => match self.sales.get(&asset.0) {
                Some(entry) => Ok(entry.sale),
                None => Err(SettlementError::NotFound),
            },
        }
    }

    /// The fee schedule kept under `key`, or `NotFound`.
    pub fn view_constraint(&self, key: ConstraintDataKey) -> (result: Result<
        TicketConstraint,
        SettlementError,
    >)
        ensures
            match key {
                ConstraintDataKey::TicketConstraint(asset) => if self@.contains_key(asset.0) {
                    result == Ok::<TicketConstraint, SettlementError>(self@[asset.0].constraint)
                } else {
                    result == Err::<TicketConstraint, SettlementError>(SettlementError::NotFound)
                },
            },
    {
        match key {
            ConstraintDataKey::TicketConstraint(asset) => match self.sales.get(&asset.0) {
                Some(entry) => Ok(entry.constraint),
                None => Err(SettlementError::NotFound),
            },
        }
    }

    /// Creates a listing of `available_units` units of `asset_address` at
    /// `price_per_unit`, and moves the inventory from the distributor into
    /// escrow.
    ///
    /// The distributor must have approved. A second listing of the same
    /// asset is refused as a duplicate and never replaces the first. Where
    /// the distributor does not hold the inventory the transfer fails. On
    /// every refusal the registry and the ledger are left as they were.
    pub fn initialize_sale(
        &mut self,
        ledger: &mut Ledger,
        auth: &Authorization,
        issuer: AccountId,
        distributor: AccountId,
        asset_address: AssetId,
        native_address: AssetId,
        price_per_unit: i128,
        available_units: i128,
        constraint: TicketConstraint,
    ) -> (result: Result<Event<DataKey>, SettlementError>)
        requires
            old(self).wf(),
            old(ledger).wf(),
        ensures
            final(self).wf(),
            final(ledger).wf(),
            final(self).escrow_account() == old(self).escrow_account(),
            conserved(old(ledger)@, final(ledger)@),
            match listing_outcome(
                old(self)@,
                old(self).escrow_account(),
                old(ledger)@,
                auth@,
                distributor,
                asset_address,
                available_units as int,
            ) {
                Ok(transfers) => {
                    &&& result is Ok
                    &&& result->Ok_0.transition == Transition::ListingCreated
                    &&& result->Ok_0.key == DataKey::TicketSale(asset_address)
                    &&& result->Ok_0.transfers@ == transfers
                    &&& final(self)@ == old(self)@.insert(
                        asset_address.0,
                        (SaleEntry {
                            sale: (TicketSale {
                                issuer,
                                distributor,
                                asset_address,
                                native_address,
                                price_per_unit,
                                available_units,
                            }),
                            constraint,
                        }),
                    )
                    &&& Some(final(ledger)@) == settle_in(old(ledger)@, transfers)
                    &&& settled(old(ledger)@, final(ledger)@, transfers)
                },
                Err(e) => {
                    &&& result is Err
                    &&& result->Err_0 == e
                    &&& final(self)@ == old(self)@
                    &&& final(ledger)@ == old(ledger)@
                },
            },
    {
        if !auth.is_approved_by(distributor) {
            return Err(SettlementError::Unauthorized);
        }
        if self.sales.contains_key(&asset_address.0) {
            return Err(SettlementError::DuplicateListing);
        }
        let plan = match plan_listing(
            issuer,
            distributor,
            asset_address,
            native_address,
            price_per_unit,
            available_units,
            self.escrow,
        ) {
            Ok(p) => p,
            Err(e) => {
                return Err(e);
            },
        };
        match ledger.settle(&plan.transfers) {
            Ok(()) => {},
            Err(e) => {
                return Err(e);
            },
        }
        self.sales.insert(asset_address.0, SaleEntry { sale: plan.sale, constraint });
        Ok(
            Event {
                transition: Transition::ListingCreated,
                key: DataKey::TicketSale(asset_address),
                transfers: plan.transfers,
            },
        )
    }

    /// Sells `amount` units of the listing of `asset_address` to `buyer`.
    ///
    /// The buyer must have approved. The purchase is refused where no such
    /// listing exists, where it asks for more than the inventory or more
    /// than one purchase may take, where the fee schedule yields no split,
    /// and where the buyer holds less than the total due. Otherwise the
    /// buyer pays the total into escrow, escrow pays the issuer and the
    /// distributor, the tickets go to the buyer and the inventory falls by
    /// the units sold. Where a transfer cannot be made, none is made. On
    /// every refusal the registry and the ledger are left as they were.
    pub fn purchase(
        &mut self,
        ledger: &mut Ledger,
        auth: &Authorization,
        asset_address: AssetId,
        amount: i128,
        buyer: AccountId,
    ) -> (result: Result<Event<DataKey>, SettlementError>)
        requires
            old(self).wf(),
            old(ledger).wf(),
        ensures
            final(self).wf(),
            final(ledger).wf(),
            final(self).escrow_account() == old(self).escrow_account(),
            conserved(old(ledger)@, final(ledger)@),
            match purchase_outcome(
                old(self)@,
                old(self).escrow_account(),
                old(ledger)@,
                auth@,
                asset_address,
                buyer,
                amount as int,
            ) {
                Ok(transfers) => {
                    &&& result is Ok
                    &&& result->Ok_0.transition == Transition::Purchased
                    &&& result->Ok_0.key == DataKey::TicketSale(asset_address)
                    &&& result->Ok_0.transfers@ == transfers
                    &&& final(self)@ == old(self)@.insert(
                        asset_address.0,
                        (SaleEntry {
                            sale: sale_after_purchase(
                                old(self)@[asset_address.0].sale,
                                amount as int,
                            ),
                            constraint: old(self)@[asset_address.0].constraint,
                        }),
                    )
                    &&& 0 <= final(self)@[asset_address.0].sale.available_units
                    &&& Some(final(ledger)@) == settle_in(old(ledger)@, transfers)
                    &&& settled(old(ledger)@, final(ledger)@, transfers)
                },
                Err(e) => {
                    &&& result is Err
                    &&& result->Err_0 == e
                    &&& final(self)@ == old(self)@
                    &&& final(ledger)@ == old(ledger)@
                },
            },
    {
        if !auth.is_approved_by(buyer) {
            return Err(SettlementError::Unauthorized);
        }
        let entry: SaleEntry = match self.sales.get(&asset_address.0) {
            Some(e) => *e,
            None => {
                return Err(SettlementError::NotFound);
            },
        };
        let buyer_balance: i128 = ledger.balance(entry.sale.native_address, buyer);
        let plan = match plan_purchase(
            &entry.sale,
            &entry.constraint,
            self.escrow,
            buyer,
            amount,
            buyer_balance,
        ) {
            Ok(p) => p,
            Err(e) => {
                return Err(e);
            },
        };
        match ledger.settle(&plan.transfers) {
            Ok(()) => {},
            Err(e) => {
                return Err(e);
            },
        }
        self.sales.insert(asset_address.0, SaleEntry { sale: plan.sale, constraint: entry.constraint });
        Ok(
            Event {
                transition: Transition::Purchased,
                key: DataKey::TicketSale(asset_address),
                transfers: plan.transfers,
            },
        )
    }
}

} // verus!
