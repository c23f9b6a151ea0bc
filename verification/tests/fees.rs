use entryx::error::SettlementError;
use entryx::fees::{compute_split, FeeSplit, BASIS_POINTS};

#[test]
fn split_adds_fee_and_floors_commission() {
    let split = compute_split(1_000, 5, 250).unwrap();
    assert_eq!(
        split,
        FeeSplit { buyer_total_due: 1_005, issuer_share: 30, seller_share: 975 }
    );
    assert_eq!(split.issuer_share + split.seller_share, split.buyer_total_due);
}

#[test]
fn commission_is_rounded_down() {
    // 999 * 333 / 10000 = 33.2667
    let split = compute_split(999, 0, 333).unwrap();
    assert_eq!(split.issuer_share, 33);
    assert_eq!(split.seller_share, 966);
    // 1 * 9999 / 10000 rounds down to nothing
    let tiny = compute_split(1, 0, 9_999).unwrap();
    assert_eq!(tiny.issuer_share, 0);
    assert_eq!(tiny.seller_share, 1);
}

#[test]
fn zero_principal_owes_only_the_fee() {
    let split = compute_split(0, 7, 1_000_000).unwrap();
    assert_eq!(split, FeeSplit { buyer_total_due: 7, issuer_share: 7, seller_share: 0 });
}

#[test]
fn full_commission_leaves_the_seller_nothing() {
    let split = compute_split(12_345, 10, BASIS_POINTS).unwrap();
    assert_eq!(split.issuer_share, 12_355);
    assert_eq!(split.seller_share, 0);
}

#[test]
fn commission_above_principal_is_invalid() {
    assert_eq!(compute_split(10_000, 0, 10_001), Err(SettlementError::InvalidFeeConfiguration));
    assert_eq!(compute_split(1, 0, 20_000), Err(SettlementError::InvalidFeeConfiguration));
    assert_eq!(compute_split(1, 0, i128::MAX), Err(SettlementError::InvalidFeeConfiguration));
    // the floor still fits below the principal here
    assert!(compute_split(1, 0, 19_999).is_ok());
}

#[test]
fn negative_inputs_are_invalid() {
    assert_eq!(compute_split(-1, 0, 0), Err(SettlementError::InvalidFeeConfiguration));
    assert_eq!(compute_split(1, -1, 0), Err(SettlementError::InvalidFeeConfiguration));
    assert_eq!(compute_split(1, 0, -1), Err(SettlementError::InvalidFeeConfiguration));
}

#[test]
fn overflowing_total_is_invalid() {
    assert_eq!(compute_split(i128::MAX, 1, 0), Err(SettlementError::InvalidFeeConfiguration));
}

#[test]
fn largest_principal_splits_without_overflow() {
    let split = compute_split(i128::MAX, 0, 10_000).unwrap();
    assert_eq!(split.issuer_share, i128::MAX);
    assert_eq!(split.seller_share, 0);
    let half = compute_split(i128::MAX, 0, 5_000).unwrap();
    assert_eq!(half.issuer_share, i128::MAX / 2);
    assert_eq!(half.seller_share, i128::MAX - i128::MAX / 2);
}
