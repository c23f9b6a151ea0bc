use entryx::account::AccountId;
use entryx::auth::Authorization;
use entryx::error::SettlementError;

#[test]
fn nobody_has_approved_at_first() {
    let auth = Authorization::none();
    assert!(!auth.is_approved_by(AccountId(1)));
    assert_eq!(auth.require_auth(AccountId(1)), Err(SettlementError::Unauthorized));
}

#[test]
fn approval_is_per_account() {
    let auth = Authorization::of(AccountId(1)).and(AccountId(3));
    assert_eq!(auth.require_auth(AccountId(1)), Ok(()));
    assert_eq!(auth.require_auth(AccountId(3)), Ok(()));
    assert_eq!(auth.require_auth(AccountId(2)), Err(SettlementError::Unauthorized));
}
