//! Recording, editing and deleting operations, and keeping account balances in
//! step with them.

use vstd::prelude::*;
use crate::domain::balance::{apply_new, balance_effect, effect_view, revert, BalanceAdjustment};
use crate::error::{AppError, AppErrorV};
use crate::ids::{id_or_new, uuid_v4_text};
use crate::models::receipt_item::{ReceiptItem, ReceiptItemV};
use crate::models::transaction::{
    is_valid_type, valid_tx_type, Transaction, TransactionV, SRC_MANUAL,
};
use crate::text::{concat_str, opt_view, owned, trim, trim_nonempty, trimmed, trimmed_nonempty};

verus! {

/// One receipt line as the user interface sends it; the quantity is carried as
/// the bit pattern of its floating-point value.
#[derive(Debug)]
pub struct ReceiptItemInput {
    pub id: Option<String>,
    pub name: String,
    pub price_minor: i64,
    pub qty_bits: u64,
    pub unit: Option<String>,
}

/// What the user interface sends to record or edit an operation.
#[derive(Debug)]
pub struct TransactionInput {
    pub id: Option<String>,
    pub household_id: String,
    pub occurred_at: i64,
    pub tx_type: String,
    pub amount_minor: i64,
    pub currency: Option<String>,
    pub account_id: String,
    pub to_account_id: Option<String>,
    pub category_id: Option<String>,
    pub merchant_id: Option<String>,
    pub note: Option<String>,
    pub created_by: Option<String>,
    pub items: Option<Vec<ReceiptItemInput>>,
}

/// An operation with its receipt lines.
#[derive(Debug)]
pub struct OperationDetail {
    pub transaction: Transaction,
    pub items: Vec<ReceiptItem>,
}

/// The error for an input that cannot be recorded: an unknown type first,
/// then a negative amount.
pub open spec fn input_error(input: TransactionInput) -> Option<AppErrorV> {
    if !valid_tx_type(input.tx_type@) {
        Some(AppErrorV::InvalidArg("invalid transaction type: "@ + input.tx_type@))
    } else if input.amount_minor < 0 {
        Some(AppErrorV::InvalidArg("amount must be >= 0"@))
    } else {
        None
    }
}

/// Refuses an unknown operation type and a negative amount.
pub fn validate_transaction_input(input: &TransactionInput) -> (r: Result<(), AppError>)
    ensures
        r is Ok <==> input_error(*input) is None,
        r matches Err(e) ==> Some(e@) == input_error(*input),
{
    if !is_valid_type(input.tx_type.as_str()) {
        return Err(AppError::InvalidArg(concat_str("invalid transaction type: ", input.tx_type.as_str())));
    }
    if input.amount_minor < 0 {
        return Err(AppError::InvalidArg(owned("amount must be >= 0")));
    }
    Ok(())
}

/// The operation saved for `input` under `id` at `now`. It keeps the creation
/// time of the operation it replaces, if any; currency "RUB" and creator
/// "local" unless given; entered by hand, without receipt, not deleted.
pub open spec fn transaction_for_input(
    input: TransactionInput,
    id: Seq<char>,
    now: i64,
    prev: Option<TransactionV>,
) -> TransactionV {
    TransactionV {
        id,
        household_id: input.household_id@,
        occurred_at: input.occurred_at,
        tx_type: input.tx_type@,
        amount_minor: input.amount_minor,
        currency: match input.currency {
            Some(c) => c@,
            None => "RUB"@,
        },
        account_id: input.account_id@,
        to_account_id: opt_view(input.to_account_id),
        category_id: opt_view(input.category_id),
        merchant_id: opt_view(input.merchant_id),
        note: opt_view(input.note),
        created_by: match input.created_by {
            Some(c) => c@,
            None => "local"@,
        },
        created_at: match prev {
            Some(p) => p.created_at,
            None => now,
        },
        updated_at: now,
        source_type: SRC_MANUAL@,
        receipt_id: None,
        is_deleted: false,
    }
}

/// The receipt line saved for `it` with identifier `item_id` under operation
/// `tx_id`: name trimmed, unit trimmed and dropped when empty.
pub open spec fn item_for_input(it: ReceiptItemInput, item_id: Seq<char>, tx_id: Seq<char>) -> ReceiptItemV {
    ReceiptItemV {
        id: item_id,
        transaction_id: tx_id,
        name: trimmed(it.name@),
        price_minor: it.price_minor,
        qty_bits: it.qty_bits,
        unit: trimmed_nonempty(opt_view(it.unit)),
        fns_raw: None,
    }
}

/// What the identifier of a saved receipt line is: the given one, else a new one.
pub open spec fn item_id_ok(it: ReceiptItemInput, item_id: Seq<char>) -> bool {
    match it.id {
        Some(given) => item_id == given@,
        None => uuid_v4_text(item_id),
    }
}

/// The input lines of an operation input (none when absent).
pub open spec fn input_items(input: TransactionInput) -> Seq<ReceiptItemInput> {
    match input.items {
        Some(v) => v@,
        None => Seq::empty(),
    }
}

/// Everything that saving an operation changes, in the order it is done:
/// first the balances are restored for the live operation being replaced,
/// then the new operation is applied to them (which may still fail), then the
/// operation and its receipt lines are written.
pub struct UpsertPlan {
    pub transaction: Transaction,
    pub revert_prev: Vec<BalanceAdjustment>,
    pub apply_new: Result<Vec<BalanceAdjustment>, AppError>,
    pub items: Vec<ReceiptItem>,
}

fn item_from_input(it: ReceiptItemInput, tx_id: &String) -> (r: ReceiptItem)
    ensures
        r@ == item_for_input(it, r.id@, tx_id@),
        item_id_ok(it, r.id@),
{
    let unit = trim_nonempty(&it.unit);
    let name = trim(it.name.as_str());
    ReceiptItem {
        id: id_or_new(it.id),
        transaction_id: tx_id.clone(),
        name,
        price_minor: it.price_minor,
        qty_bits: it.qty_bits,
        unit,
        fns_raw: None,
    }
}

/// Plans saving `input` as operation `id` at `now`, replacing `prev` (the
/// operation stored under `id`, if any). Invalid input is refused; so is a
/// live previous operation whose balance changes cannot be undone.
pub fn plan_operation_upsert(
    input: TransactionInput,
    id: String,
    now: i64,
    prev: Option<Transaction>,
) -> (r: Result<UpsertPlan, AppError>)
    requires
        input_error(input) is None ==> (prev matches Some(p) ==> (!p.is_deleted ==> p.amount_minor
            != i64::MIN)),
    ensures
        input_error(input) matches Some(e) ==> r matches Err(x) && x@ == e,
        input_error(input) is None ==> match prev {
            Some(p) if !p.is_deleted && balance_effect(p@, -1) is Err => r matches Err(x) && x@
                == balance_effect(p@, -1)->Err_0,
            _ => r is Ok,
        },
        r matches Ok(plan) ==> {
            let pv = match prev {
                Some(p) => Some(p@),
                None => None::<TransactionV>,
            };
            &&& plan.transaction@ == transaction_for_input(input, id@, now, pv)
            &&& match prev {
                Some(p) if !p.is_deleted => Ok::<Seq<(Seq<char>, int)>, AppErrorV>(
                    crate::domain::balance::adjustments_view(plan.revert_prev@),
                ) == balance_effect(p@, -1),
                _ => plan.revert_prev@.len() == 0,
            }
            &&& effect_view(plan.apply_new) == balance_effect(plan.transaction@, 1)
            &&& plan.items@.len() == input_items(input).len()
            &&& forall|i: int|
                0 <= i < plan.items@.len() ==> {
                    &&& #[trigger] plan.items@[i]@ == item_for_input(
                        input_items(input)[i],
                        plan.items@[i].id@,
                        id@,
                    )
                    &&& item_id_ok(input_items(input)[i], plan.items@[i].id@)
                }
        },
{
    validate_transaction_input(&input)?;
    let revert_prev = match &prev {
        Some(p) => {
            if !p.is_deleted {
                revert(p)?
            } else {
                Vec::new()
            }
        },
        None => Vec::new(),
    };
    let created_at = match &prev {
        Some(p) => p.created_at,
        None => now,
    };
    let tx = Transaction {
        id: id.clone(),
        household_id: input.household_id,
        occurred_at: input.occurred_at,
        tx_type: input.tx_type,
        amount_minor: input.amount_minor,
        currency: match input.currency {
            Some(c) => c,
            None => owned("RUB"),
        },
        account_id: input.account_id,
        to_account_id: input.to_account_id,
        category_id: input.category_id,
        merchant_id: input.merchant_id,
        note: input.note,
        created_by: match input.created_by {
            Some(c) => c,
            None => owned("local"),
        },
        created_at,
        updated_at: now,
        source_type: owned(SRC_MANUAL),
        receipt_id: None,
        is_deleted: false,
    };
    let apply = apply_new(&tx);
    let inputs: Vec<ReceiptItemInput> = match input.items {
        Some(v) => v,
        None => Vec::new(),
    };
    let ghost ins = inputs@;
    let mut items: Vec<ReceiptItem> = Vec::new();
    let mut rest = inputs;
    let mut k: usize = 0;
    let n = rest.len();
    while rest.len() > 0
        invariant
            n == ins.len(),
            k + rest@.len() == n,
            rest@ == ins.subrange(k as int, n as int),
            items@.len() == k,
            forall|i: int|
                0 <= i < k ==> {
                    &&& #[trigger] items@[i]@ == item_for_input(ins[i], items@[i].id@, id@)
                    &&& item_id_ok(ins[i], items@[i].id@)
                },
        decreases rest.len(),
    {
        let it = rest.remove(0);
        assert(ins[k as int] == it);
        let item = item_from_input(it, &id);
        items.push(item);
        k = k + 1;
        assert(rest@ =~= ins.subrange(k as int, n as int));
    }
    Ok(UpsertPlan { transaction: tx, revert_prev, apply_new: apply, items })
}

/// Plans deleting operation `id`, given what is stored under it: a missing
/// operation is reported, a deleted one needs no balance change, a live one
/// has its balance changes undone.
pub fn plan_operation_delete(id: &str, found: Option<Transaction>) -> (r: Result<
    Vec<BalanceAdjustment>,
    AppError,
>)
    requires
        found matches Some(t) ==> (!t.is_deleted ==> t.amount_minor != i64::MIN),
    ensures
        match found {
            None => r matches Err(e) && e@ == AppErrorV::NotFound(id@),
            Some(t) => if t.is_deleted {
                r matches Ok(v) && v@.len() == 0
            } else {
                effect_view(r) == balance_effect(t@, -1)
            },
        },
{
    match found {
        None => Err(AppError::NotFound(owned(id))),
        Some(t) => {
            if t.is_deleted {
                Ok(Vec::new())
            } else {
                revert(&t)
            }
        },
    }
}

/// The page of operations to list: 500 from the start unless given.
pub fn list_window(limit: Option<i64>, offset: Option<i64>) -> (r: (i64, i64))
    ensures
        r.0 == match limit {
            Some(l) => l,
            None => 500,
        },
        r.1 == match offset {
            Some(o) => o,
            None => 0,
        },
{
    (
        match limit {
            Some(l) => l,
            None => 500,
        },
        match offset {
            Some(o) => o,
            None => 0,
        },
    )
}

/// Saving an operation keeps what the user entered, each in the field of the
/// same name: household, date, type, amount, account, destination account,
/// category, merchant and note. The currency and the creator are the given ones,
/// else "RUB" and "local". The saved operation carries its identifier, is
/// stamped `now`, keeps the creation time of the operation it replaces (else
/// `now`), is entered by hand, has no receipt and is live.
pub proof fn law_saved_operation_keeps_input(
    input: TransactionInput,
    id: Seq<char>,
    now: i64,
    prev: Option<TransactionV>,
)
    ensures
        ({
            let t = transaction_for_input(input, id, now, prev);
            &&& t.id == id
            &&& t.household_id == input.household_id@
            &&& t.occurred_at == input.occurred_at
            &&& t.tx_type == input.tx_type@
            &&& t.amount_minor == input.amount_minor
            &&& t.account_id == input.account_id@
            &&& t.to_account_id == opt_view(input.to_account_id)
            &&& t.category_id == opt_view(input.category_id)
            &&& t.merchant_id == opt_view(input.merchant_id)
            &&& t.note == opt_view(input.note)
            &&& (match input.currency {
                Some(c) => t.currency == c@,
                None => t.currency == "RUB"@,
            })
            &&& (match input.created_by {
                Some(c) => t.created_by == c@,
                None => t.created_by == "local"@,
            })
            &&& t.updated_at == now
            &&& (match prev {
                Some(p) => t.created_at == p.created_at,
                None => t.created_at == now,
            })
            &&& t.source_type == SRC_MANUAL@
            &&& t.receipt_id is None
            &&& !t.is_deleted
        }),
{
}

/// A saved receipt line belongs to its operation and keeps the entered price
/// and quantity; its name is the entered one trimmed, its unit the entered one
/// trimmed (none when empty or absent), and it has no fiscal data.
pub proof fn law_saved_item_keeps_input(it: ReceiptItemInput, item_id: Seq<char>, tx_id: Seq<char>)
    ensures
        ({
            let r = item_for_input(it, item_id, tx_id);
            &&& r.id == item_id
            &&& r.transaction_id == tx_id
            &&& r.name == trimmed(it.name@)
            &&& r.price_minor == it.price_minor
            &&& r.qty_bits == it.qty_bits
            &&& r.unit == trimmed_nonempty(opt_view(it.unit))
            &&& r.fns_raw is None
        }),
{
}

} // verus!
