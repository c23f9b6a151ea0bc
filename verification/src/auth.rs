//! Authorization: which accounts have approved the operation at hand.

use crate::account::AccountId;
use crate::error::SettlementError;
use vstd::prelude::*;

verus! {

/// The accounts that have approved the current operation. An operation that
/// needs an account's approval asks for it before it changes anything.
pub struct Authorization {
    approvers: Vec<AccountId>,
}

impl Authorization {
    /// The approving accounts, in the order in which they were added.
    pub closed spec fn view(&self) -> Seq<AccountId> {
        self.approvers@
    }

    /// Whether `account` has approved.
    pub open spec fn approves(&self, account: AccountId) -> bool {
        self@.contains(account)
    }

    /// No account has approved.
    pub fn none() -> (auth: Authorization)
        ensures
            auth@ == Seq::<AccountId>::empty(),
    {
        Authorization { approvers: Vec::new() }
    }

    /// `account` alone has approved.
    pub fn of(account: AccountId) -> (auth: Authorization)
        ensures
            auth@ == seq![account],
    {
        let mut approvers: Vec<AccountId> = Vec::new();
        approvers.push(account);
        proof {
            assert(approvers@ =~= seq![account]);
        }
        Authorization { approvers }
    }

    /// Adds the approval of `account`.
    pub fn and(self, account: AccountId) -> (auth: Authorization)
        ensures
            auth@ == self@.push(account),
    {
        let mut approvers = self.approvers;
        approvers.push(account);
        Authorization { approvers }
    }

    /// Whether `account` has approved.
    pub fn is_approved_by(&self, account: AccountId) -> (approved: bool)
        ensures
            approved == self.approves(account),
    {
        let mut i: usize = 0;
        while i < self.approvers.len()
            invariant
                i <= self.approvers.len(),
                forall|k: int| 0 <= k < i ==> self@[k] != account,
            decreases self.approvers.len() - i,
        {
            if self.approvers[i] == account {
                return true;
            }
            i += 1;
        }
        false
    }

    /// Succeeds exactly when `account` has approved; fails closed with
    /// `Unauthorized` otherwise.
    pub fn require_auth(&self, account: AccountId) -> (result: Result<(), SettlementError>)
        ensures
            self.approves(account) ==> result is Ok,
            !self.approves(account) ==> result == Err::<(), SettlementError>(
                SettlementError::Unauthorized,
            ),
    {
        if self.is_approved_by(account) {
            Ok(())
        } else {
            Err(SettlementError::Unauthorized)
        }
    }
}

} // verus!
