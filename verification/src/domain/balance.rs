//! How operations move money between account balances.
//!
//! Recording an operation adds its amount to the balances it touches; deleting
//! or replacing it applies the same changes with the opposite sign.

use vstd::prelude::*;
use crate::error::{AppError, AppErrorV};
use crate::models::transaction::{
    lemma_tx_types_distinct, Transaction, TransactionV, TYPE_EXPENSE, TYPE_INCOME, TYPE_TRANSFER,
};
use crate::text::{concat_str, owned, str_eq};

verus! {

/// Add `delta_minor` to the balance of account `account_id`.
#[derive(Debug, Clone)]
pub struct BalanceAdjustment {
    pub account_id: String,
    pub delta_minor: i64,
}

/// The abstract value of a list of adjustments: account ids with deltas.
pub open spec fn adjustments_view(v: Seq<BalanceAdjustment>) -> Seq<(Seq<char>, int)> {
    v.map_values(|a: BalanceAdjustment| (a.account_id@, a.delta_minor as int))
}

/// The balance changes an operation causes, counted `sign` times: an income
/// credits its account, an expense debits it, a transfer debits the source and
/// credits the destination. A transfer without destination and an unknown type
/// are refused.
pub open spec fn balance_effect(t: TransactionV, sign: int) -> Result<
    Seq<(Seq<char>, int)>,
    AppErrorV,
> {
    let amount = t.amount_minor * sign;
    if t.tx_type == TYPE_INCOME@ {
        Ok(seq![(t.account_id, amount)])
    } else if t.tx_type == TYPE_EXPENSE@ {
        Ok(seq![(t.account_id, -amount)])
    } else if t.tx_type == TYPE_TRANSFER@ {
        match t.to_account_id {
            Some(to) => Ok(seq![(t.account_id, -amount), (to, amount)]),
            None => Err(AppErrorV::InvalidArg("transfer needs toAccountId"@)),
        }
    } else {
        Err(AppErrorV::InvalidArg("unknown type: "@ + t.tx_type))
    }
}

/// The abstract value of an adjustment result.
pub open spec fn effect_view(r: Result<Vec<BalanceAdjustment>, AppError>) -> Result<
    Seq<(Seq<char>, int)>,
    AppErrorV,
> {
    match r {
        Ok(v) => Ok(adjustments_view(v@)),
        Err(e) => Err(e@),
    }
}

/// Whether the operation's changes negate its signed amount: an expense, or a
/// transfer with a destination.
pub open spec fn negates_amount(t: TransactionV) -> bool {
    t.tx_type == TYPE_EXPENSE@ || (t.tx_type == TYPE_TRANSFER@ && t.to_account_id is Some)
}

/// Whether `amount * sign` fits in an `i64`, and so does its negation where
/// the operation's changes use it.
pub open spec fn signed_amount_fits(t: TransactionV, sign: int) -> bool {
    &&& i64::MIN <= t.amount_minor * sign <= i64::MAX
    &&& negates_amount(t) ==> t.amount_minor * sign != i64::MIN
}

fn adjustment(account_id: &String, delta_minor: i64) -> (a: BalanceAdjustment)
    ensures
        a.account_id@ == account_id@,
        a.delta_minor == delta_minor,
{
    BalanceAdjustment { account_id: account_id.clone(), delta_minor }
}

/// The balance adjustments for recording operation `t` with multiplier `sign`.
pub fn apply(t: &Transaction, sign: i64) -> (r: Result<Vec<BalanceAdjustment>, AppError>)
    requires
        signed_amount_fits(t@, sign as int),
    ensures
        effect_view(r) == balance_effect(t@, sign as int),
{
    let amount = t.amount_minor * sign;
    let mut out: Vec<BalanceAdjustment> = Vec::new();
    if str_eq(t.tx_type.as_str(), TYPE_INCOME) {
        out.push(adjustment(&t.account_id, amount));
    } else if str_eq(t.tx_type.as_str(), TYPE_EXPENSE) {
        out.push(adjustment(&t.account_id, -amount));
    } else if str_eq(t.tx_type.as_str(), TYPE_TRANSFER) {
        match &t.to_account_id {
            Some(to) => {
                out.push(adjustment(&t.account_id, -amount));
                out.push(adjustment(to, amount));
            },
            None => {
                return Err(AppError::InvalidArg(owned("transfer needs toAccountId")));
            },
        }
    } else {
        return Err(AppError::InvalidArg(concat_str("unknown type: ", t.tx_type.as_str())));
    }
    assert(adjustments_view(out@) =~= balance_effect(t@, sign as int)->Ok_0);
    Ok(out)
}

/// The adjustments that undo a recorded operation.
pub fn revert(t: &Transaction) -> (r: Result<Vec<BalanceAdjustment>, AppError>)
    requires
        t.amount_minor != i64::MIN,
    ensures
        effect_view(r) == balance_effect(t@, -1),
{
    apply(t, -1)
}

/// The adjustments that record a new operation.
pub fn apply_new(t: &Transaction) -> (r: Result<Vec<BalanceAdjustment>, AppError>)
    requires
        negates_amount(t@) ==> t.amount_minor != i64::MIN,
    ensures
        effect_view(r) == balance_effect(t@, 1),
{
    apply(t, 1)
}

/// Balances after one adjustment; an unknown account is left as it is
/// (the update touches no row).
pub open spec fn adjust_one(b: Map<Seq<char>, int>, a: (Seq<char>, int)) -> Map<Seq<char>, int> {
    if b.dom().contains(a.0) {
        b.insert(a.0, b[a.0] + a.1)
    } else {
        b
    }
}

/// Balances after a list of adjustments, applied in order.
pub open spec fn adjust_all(b: Map<Seq<char>, int>, adjs: Seq<(Seq<char>, int)>) -> Map<
    Seq<char>,
    int,
>
    decreases adjs.len(),
{
    if adjs.len() == 0 {
        b
    } else {
        adjust_all(adjust_one(b, adjs[0]), adjs.drop_first())
    }
}

/// The sum of the deltas of a list of adjustments.
pub open spec fn delta_sum(adjs: Seq<(Seq<char>, int)>) -> int
    decreases adjs.len(),
{
    if adjs.len() == 0 {
        0
    } else {
        adjs[0].1 + delta_sum(adjs.drop_first())
    }
}

proof fn lemma_adjust_two(b: Map<Seq<char>, int>, x: (Seq<char>, int), y: (Seq<char>, int))
    ensures
        adjust_all(b, seq![x, y]) == adjust_one(adjust_one(b, x), y),
{
    reveal_with_fuel(adjust_all, 3);
    let s = seq![x, y];
    assert(s.drop_first() =~= seq![y]);
    assert(seq![y].drop_first() =~= Seq::<(Seq<char>, int)>::empty());
}

proof fn lemma_adjust_single(b: Map<Seq<char>, int>, x: (Seq<char>, int))
    ensures
        adjust_all(b, seq![x]) == adjust_one(b, x),
{
    reveal_with_fuel(adjust_all, 2);
    assert(seq![x].drop_first() =~= Seq::<(Seq<char>, int)>::empty());
}

proof fn lemma_adjust_cancel(b: Map<Seq<char>, int>, id: Seq<char>, d: int)
    ensures
        adjust_one(adjust_one(b, (id, d)), (id, -d)) == b,
{
    if b.dom().contains(id) {
        assert(adjust_one(adjust_one(b, (id, d)), (id, -d)) =~= b);
    }
}

/// Applying an operation's changes with one sign and then with the other
/// leaves any balances as they were.
proof fn lemma_effect_cancels(b: Map<Seq<char>, int>, t: TransactionV, s: int)
    requires
        s == 1 || s == -1,
        balance_effect(t, s) is Ok,
    ensures
        balance_effect(t, -s) is Ok,
        adjust_all(adjust_all(b, balance_effect(t, s)->Ok_0), balance_effect(t, -s)->Ok_0) == b,
{
    let a = t.amount_minor * s;
    assert(t.amount_minor * -s == -a) by (nonlinear_arith)
        requires
            a == t.amount_minor * s,
    ;
    let x = t.account_id;
    if t.tx_type == TYPE_INCOME@ {
        lemma_adjust_single(b, (x, a));
        lemma_adjust_single(adjust_one(b, (x, a)), (x, -a));
        lemma_adjust_cancel(b, x, a);
    } else if t.tx_type == TYPE_EXPENSE@ {
        lemma_adjust_single(b, (x, -a));
        lemma_adjust_single(adjust_one(b, (x, -a)), (x, a));
        lemma_adjust_cancel(b, x, -a);
    } else {
        let y = t.to_account_id->Some_0;
        let b1 = adjust_one(adjust_one(b, (x, -a)), (y, a));
        lemma_adjust_two(b, (x, -a), (y, a));
        lemma_adjust_two(b1, (x, a), (y, -a));
        if b.dom().contains(x) && b.dom().contains(y) {
            assert(adjust_one(adjust_one(b1, (x, a)), (y, -a)) =~= b);
        } else if b.dom().contains(x) {
            assert(adjust_one(adjust_one(b1, (x, a)), (y, -a)) =~= b);
        } else if b.dom().contains(y) {
            assert(adjust_one(adjust_one(b1, (x, a)), (y, -a)) =~= b);
        } else {
            assert(adjust_one(adjust_one(b1, (x, a)), (y, -a)) =~= b);
        }
    }
}

/// Reverting an operation undoes recording it: whatever the balances were,
/// recording the operation and then reverting it leaves them unchanged.
pub proof fn law_revert_undoes_apply(b: Map<Seq<char>, int>, t: TransactionV)
    requires
        balance_effect(t, 1) is Ok,
    ensures
        balance_effect(t, -1) is Ok,
        adjust_all(
            adjust_all(b, balance_effect(t, 1)->Ok_0),
            balance_effect(t, -1)->Ok_0,
        ) == b,
{
    lemma_effect_cancels(b, t, 1);
}

/// Saving an operation again unchanged leaves the balances as they were: the
/// edit first reverts the stored operation, then records the same changes.
pub proof fn law_resave_keeps_balances(b: Map<Seq<char>, int>, t: TransactionV)
    requires
        balance_effect(t, 1) is Ok,
    ensures
        balance_effect(t, -1) is Ok,
        adjust_all(
            adjust_all(b, balance_effect(t, -1)->Ok_0),
            balance_effect(t, 1)->Ok_0,
        ) == b,
{
    lemma_effect_cancels(b, t, 1);
    lemma_effect_cancels(b, t, -1);
}

/// An edit that keeps an operation's type, amount and accounts leaves the
/// balances as they were, whatever else it changes: reverting the stored
/// operation and recording the edited one cancel out.
pub proof fn law_edit_keeping_amounts_keeps_balances(
    b: Map<Seq<char>, int>,
    stored: TransactionV,
    edited: TransactionV,
)
    requires
        balance_effect(stored, 1) is Ok,
        edited.tx_type == stored.tx_type,
        edited.amount_minor == stored.amount_minor,
        edited.account_id == stored.account_id,
        edited.to_account_id == stored.to_account_id,
    ensures
        balance_effect(stored, -1) is Ok,
        balance_effect(edited, 1) is Ok,
        adjust_all(
            adjust_all(b, balance_effect(stored, -1)->Ok_0),
            balance_effect(edited, 1)->Ok_0,
        ) == b,
{
    assert(balance_effect(edited, 1) == balance_effect(stored, 1));
    law_resave_keeps_balances(b, stored);
}

/// Reverting changes every balance by exactly the opposite of recording:
/// the same accounts, in the same order, with negated deltas.
pub proof fn law_revert_negates_apply(t: TransactionV)
    ensures
        balance_effect(t, 1) is Ok <==> balance_effect(t, -1) is Ok,
        balance_effect(t, 1) is Ok ==> {
            let f = balance_effect(t, 1)->Ok_0;
            let g = balance_effect(t, -1)->Ok_0;
            &&& f.len() == g.len()
            &&& forall|i: int|
                0 <= i < f.len() ==> #[trigger] g[i].0 == f[i].0 && g[i].1 == -f[i].1
        },
        balance_effect(t, 1) is Err ==> balance_effect(t, 1) == balance_effect(t, -1),
{
}

/// What an operation does to the total of all balances: an income adds its
/// amount, an expense removes it, and a transfer leaves the total unchanged.
pub proof fn law_total_effect(t: TransactionV, sign: int)
    requires
        balance_effect(t, sign) is Ok,
    ensures
        t.tx_type == TYPE_INCOME@ ==> delta_sum(balance_effect(t, sign)->Ok_0) == t.amount_minor
            * sign,
        t.tx_type == TYPE_EXPENSE@ ==> delta_sum(balance_effect(t, sign)->Ok_0) == -(
        t.amount_minor * sign),
        t.tx_type == TYPE_TRANSFER@ ==> delta_sum(balance_effect(t, sign)->Ok_0) == 0,
{
    reveal_with_fuel(delta_sum, 3);
    lemma_tx_types_distinct();
    let s = balance_effect(t, sign)->Ok_0;
    if s.len() == 1 {
        assert(s.drop_first() =~= Seq::<(Seq<char>, int)>::empty());
    } else {
        assert(s.drop_first() =~= seq![s[1]]);
        assert(s.drop_first().drop_first() =~= Seq::<(Seq<char>, int)>::empty());
    }
}

/// What a list of adjustments adds to the balance of account `a`.
pub open spec fn delta_for(adjs: Seq<(Seq<char>, int)>, a: Seq<char>) -> int
    decreases adjs.len(),
{
    if adjs.len() == 0 {
        0
    } else {
        (if adjs[0].0 == a {
            adjs[0].1
        } else {
            0
        }) + delta_for(adjs.drop_first(), a)
    }
}

/// Adjusting keeps the set of accounts, and moves each balance by the deltas
/// addressed to it.
proof fn lemma_adjust_all_delta(b: Map<Seq<char>, int>, adjs: Seq<(Seq<char>, int)>, a: Seq<char>)
    ensures
        adjust_all(b, adjs).dom() == b.dom(),
        b.dom().contains(a) ==> adjust_all(b, adjs)[a] == b[a] + delta_for(adjs, a),
    decreases adjs.len(),
{
    if adjs.len() > 0 {
        let b1 = adjust_one(b, adjs[0]);
        lemma_adjust_all_delta(b1, adjs.drop_first(), a);
        if b.dom().contains(adjs[0].0) {
            assert(b1.dom() =~= b.dom());
        } else {
            assert(b1 == b);
        }
    }
}

proof fn lemma_delta_negated(f: Seq<(Seq<char>, int)>, g: Seq<(Seq<char>, int)>, a: Seq<char>)
    requires
        f.len() == g.len(),
        forall|i: int| 0 <= i < f.len() ==> #[trigger] g[i].0 == f[i].0 && g[i].1 == -f[i].1,
    ensures
        delta_for(g, a) == -delta_for(f, a),
    decreases f.len(),
{
    if f.len() > 0 {
        assert(g[0].0 == f[0].0 && g[0].1 == -f[0].1);
        let f1 = f.drop_first();
        let g1 = g.drop_first();
        assert forall|i: int| 0 <= i < f1.len() implies #[trigger] g1[i].0 == f1[i].0 && g1[i].1
            == -f1[i].1 by {
            assert(g1[i] == g[i + 1] && f1[i] == f[i + 1]);
        }
        lemma_delta_negated(f1, g1, a);
    }
}

/// Recording an operation moves balances as its type says: an income adds its
/// amount to its account, an expense takes the amount from its account, and a
/// transfer takes it from the source account and adds it to the destination.
/// No other account changes, and no account appears or disappears.
pub proof fn law_operation_moves_balances(b: Map<Seq<char>, int>, t: TransactionV, a: Seq<char>)
    requires
        balance_effect(t, 1) is Ok,
        b.dom().contains(a),
    ensures
        ({
            let after = adjust_all(b, balance_effect(t, 1)->Ok_0);
            let amount = t.amount_minor as int;
            let credited = if t.tx_type == TYPE_INCOME@ && a == t.account_id {
                amount
            } else if t.tx_type == TYPE_TRANSFER@ && t.to_account_id == Some(a) {
                amount
            } else {
                0
            };
            let debited = if (t.tx_type == TYPE_EXPENSE@ || t.tx_type == TYPE_TRANSFER@) && a
                == t.account_id {
                amount
            } else {
                0
            };
            &&& after.dom() == b.dom()
            &&& after[a] == b[a] + credited - debited
        }),
{
    lemma_tx_types_distinct();
    reveal_with_fuel(delta_for, 3);
    let s = balance_effect(t, 1)->Ok_0;
    lemma_adjust_all_delta(b, s, a);
    if s.len() == 1 {
        assert(s.drop_first() =~= Seq::<(Seq<char>, int)>::empty());
    } else {
        assert(s.drop_first() =~= seq![s[1]]);
        assert(s.drop_first().drop_first() =~= Seq::<(Seq<char>, int)>::empty());
    }
}

/// Saving an operation keeps "each balance minus what the live operations
/// recorded on it" unchanged: after the edit every account's balance is its
/// old balance, plus what the saved operation records on it, minus what the
/// live operation it replaces had recorded on it (nothing for a new or a
/// deleted one).
pub proof fn law_edit_moves_balances_by_difference(
    b: Map<Seq<char>, int>,
    stored: Option<TransactionV>,
    saved: TransactionV,
    a: Seq<char>,
)
    requires
        balance_effect(saved, 1) is Ok,
        stored matches Some(p) ==> (!p.is_deleted ==> balance_effect(p, 1) is Ok),
    ensures
        ({
            let undo = match stored {
                Some(p) => if !p.is_deleted {
                    balance_effect(p, -1)->Ok_0
                } else {
                    Seq::empty()
                },
                None => Seq::empty(),
            };
            let recorded = match stored {
                Some(p) => if !p.is_deleted {
                    delta_for(balance_effect(p, 1)->Ok_0, a)
                } else {
                    0
                },
                None => 0,
            };
            let after = adjust_all(adjust_all(b, undo), balance_effect(saved, 1)->Ok_0);
            &&& after.dom() == b.dom()
            &&& b.dom().contains(a) ==> after[a] == b[a] + delta_for(
                balance_effect(saved, 1)->Ok_0,
                a,
            ) - recorded
        }),
{
    let undo = match stored {
        Some(p) => if !p.is_deleted {
            balance_effect(p, -1)->Ok_0
        } else {
            Seq::empty()
        },
        None => Seq::empty(),
    };
    let mid = adjust_all(b, undo);
    lemma_adjust_all_delta(b, undo, a);
    lemma_adjust_all_delta(mid, balance_effect(saved, 1)->Ok_0, a);
    match stored {
        Some(p) => {
            if !p.is_deleted {
                law_revert_negates_apply(p);
                lemma_delta_negated(balance_effect(p, 1)->Ok_0, balance_effect(p, -1)->Ok_0, a);
            } else {
                assert(delta_for(undo, a) == 0);
            }
        },
        None => {
            assert(delta_for(undo, a) == 0);
        },
    }
}

} // verus!
