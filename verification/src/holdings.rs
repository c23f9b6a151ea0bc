//! The mathematical model of a ledger: a sequence of holdings, what it
//! records for each account and asset, and how transfers change it.

use crate::account::{AccountId, AssetId};
use vstd::prelude::*;

verus! {

/// One account's balance of one asset.
#[derive(Clone, Copy, Debug, PartialEq, Eq, Structural)]
pub struct Holding {
    pub asset: AssetId,
    pub account: AccountId,
    pub amount: i128,
}

/// Whether entry `i` of `s` is the holding of `account` in `asset`.
pub open spec fn held_at(s: Seq<Holding>, asset: AssetId, account: AccountId, i: int) -> bool {
    0 <= i < s.len() && s[i].asset == asset && s[i].account == account
}

/// The amount of `asset` that `s` records for `account`: zero where it
/// records none.
pub open spec fn amount_in(s: Seq<Holding>, asset: AssetId, account: AccountId) -> int {
    if exists|i: int| held_at(s, asset, account, i) {
        s[choose|i: int| held_at(s, asset, account, i)].amount as int
    } else {
        0
    }
}

/// The sum of all amounts of `asset` in `s`.
pub open spec fn supply_in(s: Seq<Holding>, asset: AssetId) -> int
    decreases s.len(),
{
    if s.len() == 0 {
        0
    } else {
        supply_in(s.drop_last(), asset) + if s.last().asset == asset {
            s.last().amount as int
        } else {
            0
        }
    }
}

/// No two entries of `s` speak of the same account and asset.
pub open spec fn keys_distinct(s: Seq<Holding>) -> bool {
    forall|i: int, j: int|
        #![trigger s[i], s[j]]
        0 <= i < s.len() && 0 <= j < s.len() && s[i].asset == s[j].asset && s[i].account
            == s[j].account ==> i == j
}

/// No entry of `s` is negative.
pub open spec fn amounts_non_negative(s: Seq<Holding>) -> bool {
    forall|i: int| 0 <= i < s.len() ==> #[trigger] s[i].amount >= 0
}

/// The holdings of a ledger: each account and asset at most once, no negative
/// amount, and every asset's supply representable.
pub open spec fn holdings_valid(s: Seq<Holding>) -> bool {
    &&& keys_distinct(s)
    &&& amounts_non_negative(s)
    &&& forall|asset: AssetId| #[trigger] supply_in(s, asset) <= i128::MAX
}

/// With distinct keys, the entry that speaks of an account and asset gives
/// the recorded amount.
pub proof fn lemma_amount_at(s: Seq<Holding>, i: int)
    requires
        keys_distinct(s),
        0 <= i < s.len(),
    ensures
        amount_in(s, s[i].asset, s[i].account) == s[i].amount,
{
    assert(held_at(s, s[i].asset, s[i].account, i));
}

/// Replacing the amount of one entry changes the supply of its asset by the
/// difference and no other supply.
pub proof fn lemma_supply_update(s: Seq<Holding>, i: int, amount: i128, asset: AssetId)
    requires
        0 <= i < s.len(),
    ensures
        supply_in(
            s.update(i, (Holding { asset: s[i].asset, account: s[i].account, amount })),
            asset,
        ) == supply_in(s, asset) + if s[i].asset == asset {
            amount - s[i].amount
        } else {
            0
        },
    decreases s.len(),
{
    let t = s.update(i, (Holding { asset: s[i].asset, account: s[i].account, amount }));
    if i == s.len() - 1 {
        assert(t.drop_last() =~= s.drop_last());
    } else {
        lemma_supply_update(s.drop_last(), i, amount, asset);
        assert(t.drop_last() =~= s.drop_last().update(
            i,
            (Holding { asset: s[i].asset, account: s[i].account, amount }),
        ));
    }
}

/// Appending an entry adds its amount to the supply of its asset.
pub proof fn lemma_supply_push(s: Seq<Holding>, h: Holding, asset: AssetId)
    ensures
        supply_in(s.push(h), asset) == supply_in(s, asset) + if h.asset == asset {
            h.amount as int
        } else {
            0
        },
{
    assert(s.push(h).drop_last() =~= s);
}

/// Where no amount is negative, no supply is negative, and each entry is
/// within the supply of its asset.
pub proof fn lemma_supply_bounds(s: Seq<Holding>, asset: AssetId)
    requires
        amounts_non_negative(s),
    ensures
        supply_in(s, asset) >= 0,
        forall|i: int|
            0 <= i < s.len() && s[i].asset == asset ==> #[trigger] s[i].amount <= supply_in(
                s,
                asset,
            ),
    decreases s.len(),
{
    if s.len() > 0 {
        lemma_supply_bounds(s.drop_last(), asset);
        assert(s.last().amount >= 0);
        assert forall|i: int| 0 <= i < s.len() && s[i].asset == asset implies #[trigger] s[i].amount
            <= supply_in(s, asset) by {
            if i < s.len() - 1 {
                assert(s.drop_last()[i] == s[i]);
            }
        }
    }
}

/// Replacing the amount of one entry keeps the keys distinct and changes the
/// recorded amount of that entry's account and asset alone.
pub proof fn lemma_amount_update(s: Seq<Holding>, i: int, amount: i128)
    requires
        keys_distinct(s),
        0 <= i < s.len(),
    ensures
        keys_distinct(s.update(i, (Holding { asset: s[i].asset, account: s[i].account, amount }))),
        forall|asset: AssetId, account: AccountId| #[trigger]
            amount_in(
                s.update(i, (Holding { asset: s[i].asset, account: s[i].account, amount })),
                asset,
                account,
            ) == if asset == s[i].asset && account == s[i].account {
                amount as int
            } else {
                amount_in(s, asset, account)
            },
{
    let t = s.update(i, (Holding { asset: s[i].asset, account: s[i].account, amount }));
    assert forall|asset: AssetId, account: AccountId| #[trigger]
        amount_in(t, asset, account) == if asset == s[i].asset && account == s[i].account {
            amount as int
        } else {
            amount_in(s, asset, account)
        } by {
        if exists|j: int| held_at(s, asset, account, j) {
            let j = choose|j: int| held_at(s, asset, account, j);
            assert(held_at(t, asset, account, j));
            let k = choose|k: int| held_at(t, asset, account, k);
            assert(held_at(s, asset, account, k));
            assert(s[j].asset == s[k].asset && s[j].account == s[k].account);
            assert(j == k);
            if asset == s[i].asset && account == s[i].account {
                assert(held_at(s, asset, account, i));
                assert(s[i].asset == s[j].asset && s[i].account == s[j].account);
                assert(i == j);
            } else {
                assert(j != i);
            }
        } else {
            assert(!held_at(s, asset, account, i));
            if exists|k: int| held_at(t, asset, account, k) {
                let k = choose|k: int| held_at(t, asset, account, k);
                assert(held_at(s, asset, account, k));
            }
        }
    }
}

/// Appending an entry for an account and asset not yet recorded keeps the
/// keys distinct and changes the recorded amount of that account and asset
/// alone.
pub proof fn lemma_amount_push(s: Seq<Holding>, h: Holding)
    requires
        keys_distinct(s),
        forall|j: int| !held_at(s, h.asset, h.account, j),
    ensures
        keys_distinct(s.push(h)),
        forall|asset: AssetId, account: AccountId| #[trigger]
            amount_in(s.push(h), asset, account) == if asset == h.asset && account == h.account {
                h.amount as int
            } else {
                amount_in(s, asset, account)
            },
{
    let t = s.push(h);
    assert forall|a: int, b: int|
        0 <= a < t.len() && 0 <= b < t.len() && t[a].asset == t[b].asset && t[a].account
            == t[b].account implies a == b by {
        if a < s.len() && b == s.len() {
            assert(held_at(s, h.asset, h.account, a));
        }
        if b < s.len() && a == s.len() {
            assert(held_at(s, h.asset, h.account, b));
        }
    }
    assert forall|asset: AssetId, account: AccountId| #[trigger]
        amount_in(t, asset, account) == if asset == h.asset && account == h.account {
            h.amount as int
        } else {
            amount_in(s, asset, account)
        } by {
        if asset == h.asset && account == h.account {
            assert(held_at(t, asset, account, s.len() as int));
            let k = choose|k: int| held_at(t, asset, account, k);
            if k < s.len() {
                assert(held_at(s, asset, account, k));
            }
        } else if exists|j: int| held_at(s, asset, account, j) {
            let j = choose|j: int| held_at(s, asset, account, j);
            assert(held_at(t, asset, account, j));
            let k = choose|k: int| held_at(t, asset, account, k);
            assert(j == k);
        } else {
            if exists|k: int| held_at(t, asset, account, k) {
                let k = choose|k: int| held_at(t, asset, account, k);
                assert(held_at(s, asset, account, k));
            }
        }
    }
}

/// How one balance changes when `amount` of `asset` moves from `from` to
/// `to`: the sender's falls, the receiver's rises, and a transfer to oneself
/// changes nothing.
pub open spec fn balance_after_move(
    before: int,
    of_asset: AssetId,
    of_account: AccountId,
    asset: AssetId,
    from: AccountId,
    to: AccountId,
    amount: int,
) -> int {
    before + (if of_asset == asset && of_account == to {
        amount
    } else {
        0
    }) - (if of_asset == asset && of_account == from {
        amount
    } else {
        0
    })
}

/// `after` is `before` with `amount` of `asset` moved from `from` to `to`:
/// those two balances change by the amount, nothing else changes, and the
/// supply of every asset is what it was.
pub open spec fn moved(
    before: Seq<Holding>,
    after: Seq<Holding>,
    asset: AssetId,
    from: AccountId,
    to: AccountId,
    amount: int,
) -> bool {
    &&& forall|a: AssetId, who: AccountId| #[trigger]
        amount_in(after, a, who) == balance_after_move(
            amount_in(before, a, who),
            a,
            who,
            asset,
            from,
            to,
            amount,
        )
    &&& forall|a: AssetId| #[trigger] supply_in(after, a) == supply_in(before, a)
}

/// `after` is `before` with the balance of `account` in `asset` changed by
/// `delta`, and with it the supply of `asset`; nothing else changes.
pub open spec fn adjusted(
    before: Seq<Holding>,
    after: Seq<Holding>,
    asset: AssetId,
    account: AccountId,
    delta: int,
) -> bool {
    &&& forall|a: AssetId, who: AccountId| #[trigger]
        amount_in(after, a, who) == amount_in(before, a, who) + if a == asset && who == account {
            delta
        } else {
            0
        }
    &&& forall|a: AssetId| #[trigger]
        supply_in(after, a) == supply_in(before, a) + if a == asset {
            delta
        } else {
            0
        }
}

/// Where no amount is negative, the supply within a prefix of the holdings
/// lies between zero and the whole supply.
pub proof fn lemma_supply_prefix(s: Seq<Holding>, asset: AssetId, n: int)
    requires
        amounts_non_negative(s),
        0 <= n <= s.len(),
    ensures
        0 <= supply_in(s.take(n), asset) <= supply_in(s, asset),
    decreases s.len(),
{
    if n == s.len() {
        assert(s.take(n) =~= s);
        lemma_supply_bounds(s, asset);
    } else {
        lemma_supply_prefix(s.drop_last(), asset, n);
        assert(s.drop_last().take(n) =~= s.take(n));
        assert(s.last().amount >= 0);
    }
}

/// The holdings after the balance of `account` in `asset` has changed by
/// `delta`: its entry is replaced, or one is appended where it had none.
pub open spec fn adjust_in(s: Seq<Holding>, asset: AssetId, account: AccountId, delta: int) -> Seq<
    Holding,
> {
    if exists|i: int| held_at(s, asset, account, i) {
        let i = choose|i: int| held_at(s, asset, account, i);
        s.update(i, (Holding { asset, account, amount: (s[i].amount + delta) as i128 }))
    } else {
        s.push((Holding { asset, account, amount: delta as i128 }))
    }
}

/// One movement of value: `amount` of `asset` from `from` to `to`.
#[derive(Clone, Copy, Debug, PartialEq, Eq, Structural)]
pub struct Transfer {
    pub asset: AssetId,
    pub from: AccountId,
    pub to: AccountId,
    pub amount: i128,
}

/// Whether `t` can be made on `s`: its amount is not negative and the sender
/// holds at least that much.
pub open spec fn can_move(s: Seq<Holding>, t: Transfer) -> bool {
    0 <= t.amount <= amount_in(s, t.asset, t.from)
}

/// The holdings after `t` has been made on `s`.
pub open spec fn transfer_in(s: Seq<Holding>, t: Transfer) -> Seq<Holding> {
    adjust_in(adjust_in(s, t.asset, t.from, -t.amount), t.asset, t.to, t.amount as int)
}

/// The holdings after the transfers `ts` have been made on `s` in order, or
/// `None` where one of them cannot be made when its turn comes.
pub open spec fn settle_in(s: Seq<Holding>, ts: Seq<Transfer>) -> Option<Seq<Holding>>
    decreases ts.len(),
{
    if ts.len() == 0 {
        Some(s)
    } else if can_move(s, ts[0]) {
        settle_in(transfer_in(s, ts[0]), ts.skip(1))
    } else {
        None
    }
}

/// What the transfers `ts` add to the balance of `who` in `asset`, all told.
pub open spec fn net_flow(ts: Seq<Transfer>, asset: AssetId, who: AccountId) -> int
    decreases ts.len(),
{
    if ts.len() == 0 {
        0
    } else {
        balance_after_move(0, asset, who, ts[0].asset, ts[0].from, ts[0].to, ts[0].amount as int)
            + net_flow(ts.skip(1), asset, who)
    }
}

/// The supply of every asset is in `after` what it is in `before`: no value
/// has been created or destroyed.
pub open spec fn conserved(before: Seq<Holding>, after: Seq<Holding>) -> bool {
    forall|a: AssetId| #[trigger] supply_in(after, a) == supply_in(before, a)
}

/// `after` is `before` with the transfers `ts` made: every balance has
/// changed by what the transfers add to it, and the supply of every asset is
/// what it was.
pub open spec fn settled(before: Seq<Holding>, after: Seq<Holding>, ts: Seq<Transfer>) -> bool {
    &&& forall|a: AssetId, who: AccountId| #[trigger]
        amount_in(after, a, who) == amount_in(before, a, who) + net_flow(ts, a, who)
    &&& conserved(before, after)
}

/// Changing one balance within its bounds keeps the holdings valid and
/// changes that balance and the supply of its asset alone.
pub proof fn lemma_adjust_in(s: Seq<Holding>, asset: AssetId, account: AccountId, delta: int)
    requires
        holdings_valid(s),
        amount_in(s, asset, account) + delta >= 0,
        supply_in(s, asset) + delta <= i128::MAX,
    ensures
        holdings_valid(adjust_in(s, asset, account, delta)),
        adjusted(s, adjust_in(s, asset, account, delta), asset, account, delta),
{
    let t = adjust_in(s, asset, account, delta);
    lemma_supply_bounds(s, asset);
    if exists|i: int| held_at(s, asset, account, i) {
        let i = choose|i: int| held_at(s, asset, account, i);
        lemma_amount_at(s, i);
        let amount = (s[i].amount + delta) as i128;
        lemma_amount_update(s, i, amount);
        assert forall|a: AssetId| #[trigger]
            supply_in(t, a) == supply_in(s, a) + if a == asset {
                delta
            } else {
                0
            } by {
            lemma_supply_update(s, i, amount, a);
        }
    } else {
        let h = Holding { asset, account, amount: delta as i128 };
        lemma_amount_push(s, h);
        assert forall|a: AssetId| #[trigger]
            supply_in(t, a) == supply_in(s, a) + if a == asset {
                delta
            } else {
                0
            } by {
            lemma_supply_push(s, h, a);
        }
    }
}

/// A transfer that can be made keeps the holdings valid, moves the amount
/// between the two accounts and changes no supply.
pub proof fn lemma_transfer_in(s: Seq<Holding>, t: Transfer)
    requires
        holdings_valid(s),
        can_move(s, t),
    ensures
        holdings_valid(transfer_in(s, t)),
        moved(s, transfer_in(s, t), t.asset, t.from, t.to, t.amount as int),
{
    lemma_supply_bounds(s, t.asset);
    lemma_adjust_in(s, t.asset, t.from, -t.amount);
    let mid = adjust_in(s, t.asset, t.from, -t.amount);
    lemma_adjust_in(mid, t.asset, t.to, t.amount as int);
}

/// Transfers that can all be made in order keep the holdings valid, change
/// every balance by their net flow and change no supply.
pub proof fn lemma_settle_in(s: Seq<Holding>, ts: Seq<Transfer>)
    requires
        holdings_valid(s),
        settle_in(s, ts) is Some,
    ensures
        holdings_valid(settle_in(s, ts)->Some_0),
        settled(s, settle_in(s, ts)->Some_0, ts),
    decreases ts.len(),
{
    if ts.len() > 0 {
        lemma_transfer_in(s, ts[0]);
        lemma_settle_in(transfer_in(s, ts[0]), ts.skip(1));
    }
}

} // verus!
