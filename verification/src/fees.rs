//! Fee calculator: how a payment is split between the issuer and the seller.
//!
//! All amounts are integers in the smallest indivisible unit of the payment
//! asset. Commission is expressed in basis points and rounded down.

use crate::error::SettlementError;
use vstd::prelude::*;

verus! {

/// Basis points in a whole: a commission rate of `BASIS_POINTS` is 100%.
pub const BASIS_POINTS: i128 = 10_000;

/// The three amounts that settle one payment.
#[derive(Clone, Copy, Debug, PartialEq, Eq, Structural)]
pub struct FeeSplit {
    /// What the payer owes: principal plus the flat fee.
    pub buyer_total_due: i128,
    /// What the issuer receives: the flat fee plus commission on the principal.
    pub issuer_share: i128,
    /// What the seller (distributor or auction owner) receives: the rest.
    pub seller_share: i128,
}

/// Commission on `principal` at `bps` basis points, rounded down.
pub open spec fn commission_of(principal: int, bps: int) -> int {
    (principal * bps) / (BASIS_POINTS as int)
}

/// The split of `principal` under a flat fee and a commission rate, as
/// `(buyer_total_due, issuer_share, seller_share)`.
pub open spec fn split_of(principal: int, flat_fee: int, bps: int) -> (int, int, int) {
    (
        principal + flat_fee,
        flat_fee + commission_of(principal, bps),
        principal - commission_of(principal, bps),
    )
}

/// Whether a split exists: no input is negative, the total due is
/// representable, and the commission does not exceed the principal.
pub open spec fn split_defined(principal: int, flat_fee: int, bps: int) -> bool {
    &&& principal >= 0
    &&& flat_fee >= 0
    &&& bps >= 0
    &&& principal + flat_fee <= i128::MAX
    &&& commission_of(principal, bps) <= principal
}

/// The commission splits along the quotient and remainder of the principal
/// by the number of basis points in a whole.
pub proof fn lemma_commission_by_parts(principal: int, bps: int)
    requires
        principal >= 0,
        bps >= 0,
    ensures
        commission_of(principal, bps) == (principal / 10_000) * bps + ((principal % 10_000)
            * bps) / 10_000,
        commission_of(principal, bps) >= 0,
        ((principal % 10_000) * bps) / 10_000 >= 0,
        (principal / 10_000) * bps >= 0,
{
    let q = principal / 10_000;
    let r = principal % 10_000;
    assert(principal == q * 10_000 + r);
    assert(principal * bps == (q * bps) * 10_000 + r * bps) by (nonlinear_arith)
        requires
            principal == q * 10_000 + r,
    ;
    assert(r * bps >= 0) by (nonlinear_arith)
        requires
            r >= 0,
            bps >= 0,
    ;
    assert(q * bps >= 0) by (nonlinear_arith)
        requires
            q >= 0,
            bps >= 0,
    ;
    let x = r * bps;
    assert(x == 10_000 * (x / 10_000) + x % 10_000);
    assert(((q * bps) * 10_000 + x) / 10_000 == q * bps + x / 10_000) by {
        vstd::arithmetic::div_mod::lemma_fundamental_div_mod_converse(
            (q * bps) * 10_000 + x,
            10_000,
            q * bps + x / 10_000,
            x % 10_000,
        );
    }
}

/// A commission within the principal is owed at a rate that stays below
/// twice the whole.
pub proof fn lemma_rate_bounded(principal: int, bps: int)
    requires
        principal >= 1,
        bps >= 0,
        commission_of(principal, bps) <= principal,
    ensures
        bps < 20_000,
{
    if bps >= 20_000 {
        assert(principal * bps >= principal * 20_000) by (nonlinear_arith)
            requires
                principal >= 1,
                bps >= 20_000,
        ;
        assert((principal * 20_000) / 10_000 == principal * 2) by (nonlinear_arith);
        vstd::arithmetic::div_mod::lemma_div_is_ordered(
            principal * 20_000,
            principal * bps,
            10_000,
        );
    }
}

/// Splits a payment of `principal` under a flat fee and a commission rate in
/// basis points.
///
/// The payer owes the principal plus the flat fee; the issuer receives the
/// flat fee plus the commission, rounded down; the seller receives what is
/// left. The split is refused when an input is negative, when the total due
/// cannot be represented, or when the commission exceeds the principal.
pub fn compute_split(principal: i128, flat_fee: i128, commission_bps: i128) -> (result: Result<
    FeeSplit,
    SettlementError,
>)
    ensures
        match result {
            Ok(split) => {
                &&& split_defined(principal as int, flat_fee as int, commission_bps as int)
                &&& split.buyer_total_due == principal + flat_fee
                &&& split.issuer_share == flat_fee + commission_of(
                    principal as int,
                    commission_bps as int,
                )
                &&& split.seller_share == principal - commission_of(
                    principal as int,
                    commission_bps as int,
                )
                &&& split.issuer_share + split.seller_share == split.buyer_total_due
                &&& 0 <= split.seller_share <= principal
                &&& flat_fee <= split.issuer_share
            },
            Err(e) => {
                &&& !split_defined(principal as int, flat_fee as int, commission_bps as int)
                &&& e == SettlementError::InvalidFeeConfiguration
            },
        },
{
    if principal < 0 || flat_fee < 0 || commission_bps < 0 {
        return Err(SettlementError::InvalidFeeConfiguration);
    }
    let total: i128 = match principal.checked_add(flat_fee) {
        Some(t) => t,
        None => {
            return Err(SettlementError::InvalidFeeConfiguration);
        },
    };
    proof {
        lemma_commission_by_parts(principal as int, commission_bps as int);
    }
    if principal == 0 {
        assert(commission_of(0, commission_bps as int) == 0);
        return Ok(FeeSplit { buyer_total_due: total, issuer_share: flat_fee, seller_share: 0 });
    }
    if commission_bps >= 20_000 {
        proof {
            if commission_of(principal as int, commission_bps as int) <= principal {
                lemma_rate_bounded(principal as int, commission_bps as int);
            }
        }
        return Err(SettlementError::InvalidFeeConfiguration);
    }
    let whole: i128 = principal / 10_000;
    let part: i128 = principal % 10_000;
    assert(0 <= part * commission_bps <= 10_000 * 20_000) by (nonlinear_arith)
        requires
            0 <= part < 10_000,
            0 <= commission_bps < 20_000,
    ;
    let on_part: i128 = (part * commission_bps) / 10_000;
    let on_whole: i128 = match whole.checked_mul(commission_bps) {
        Some(w) => w,
        None => {
            return Err(SettlementError::InvalidFeeConfiguration);
        },
    };
    let commission: i128 = match on_whole.checked_add(on_part) {
        Some(c) => c,
        None => {
            return Err(SettlementError::InvalidFeeConfiguration);
        },
    };
    if commission > principal {
        return Err(SettlementError::InvalidFeeConfiguration);
    }
    Ok(
        FeeSplit {
            buyer_total_due: total,
            issuer_share: flat_fee + commission,
            seller_share: principal - commission,
        },
    )
}

} // verus!
