//! Conversion between records and Firestore documents, field for field, in the
//! document format shared with the mobile application.

use vstd::prelude::*;
use crate::error::{AppError, AppErrorV};
use crate::models::account::{Account, AccountV};
use crate::models::budget::{Budget, BudgetV};
use crate::models::category::{Category, CategoryV};
use crate::models::transaction::{Transaction, TransactionV};
use crate::sync::fields::{Fields, FsValue, FsValueV};
use crate::text::{
    concat_str, i64_to_string, int_decimal, int_parse_error_message, int_parse_error_text,
    lemma_parse_int_decimal, opt_view, owned, parse_int, parse_int_in,
};

verus! {

// ─── Values written ─────────────────────────────────────────────────────────

pub open spec fn string_v(s: Seq<char>) -> FsValueV {
    FsValueV { string_value: Some(s), integer_value: None, boolean_value: None, is_null: false }
}

pub open spec fn integer_v(n: int) -> FsValueV {
    FsValueV {
        string_value: None,
        integer_value: Some(int_decimal(n)),
        boolean_value: None,
        is_null: false,
    }
}

pub open spec fn boolean_v(b: bool) -> FsValueV {
    FsValueV { string_value: None, integer_value: None, boolean_value: Some(b), is_null: false }
}

pub open spec fn null_v() -> FsValueV {
    FsValueV { string_value: None, integer_value: None, boolean_value: None, is_null: true }
}

pub open spec fn opt_string_v(o: Option<Seq<char>>) -> FsValueV {
    match o {
        Some(s) => string_v(s),
        None => null_v(),
    }
}

pub open spec fn opt_i64_v(o: Option<i64>) -> FsValueV {
    match o {
        Some(n) => integer_v(n as int),
        None => null_v(),
    }
}

pub open spec fn opt_i32_v(o: Option<i32>) -> FsValueV {
    match o {
        Some(n) => integer_v(n as int),
        None => null_v(),
    }
}

fn str_val(s: &str) -> (v: FsValue)
    ensures
        v@ == string_v(s@),
{
    FsValue { string_value: Some(owned(s)), integer_value: None, boolean_value: None, is_null: false }
}

fn int_val(n: i64) -> (v: FsValue)
    ensures
        v@ == integer_v(n as int),
{
    FsValue {
        string_value: None,
        integer_value: Some(i64_to_string(n)),
        boolean_value: None,
        is_null: false,
    }
}

fn int_val_i32(n: i32) -> (v: FsValue)
    ensures
        v@ == integer_v(n as int),
{
    int_val(n as i64)
}

fn bool_val(b: bool) -> (v: FsValue)
    ensures
        v@ == boolean_v(b),
{
    FsValue { string_value: None, integer_value: None, boolean_value: Some(b), is_null: false }
}

fn null_val() -> (v: FsValue)
    ensures
        v@ == null_v(),
{
    FsValue { string_value: None, integer_value: None, boolean_value: None, is_null: true }
}

fn opt_str(s: &Option<String>) -> (v: FsValue)
    ensures
        v@ == opt_string_v(opt_view(*s)),
{
    match s {
        Some(x) => str_val(x.as_str()),
        None => null_val(),
    }
}

fn opt_int(n: &Option<i64>) -> (v: FsValue)
    ensures
        v@ == opt_i64_v(*n),
{
    match n {
        Some(x) => int_val(*x),
        None => null_val(),
    }
}

fn opt_int_i32(n: &Option<i32>) -> (v: FsValue)
    ensures
        v@ == opt_i32_v(*n),
{
    match n {
        Some(x) => int_val_i32(*x),
        None => null_val(),
    }
}

// ─── Values read ────────────────────────────────────────────────────────────

/// A required string field.
pub open spec fn read_str(f: Map<Seq<char>, FsValueV>, key: Seq<char>) -> Result<
    Seq<char>,
    AppErrorV,
> {
    if f.contains_key(key) && f[key].string_value is Some {
        Ok(f[key].string_value->Some_0)
    } else {
        Err(AppErrorV::InvalidArg("missing string field: "@ + key))
    }
}

/// A required 64-bit integer field, written as decimal text.
pub open spec fn read_int(f: Map<Seq<char>, FsValueV>, key: Seq<char>) -> Result<int, AppErrorV> {
    if f.contains_key(key) && f[key].integer_value is Some {
        match parse_int(f[key].integer_value->Some_0, i64::MIN as int, i64::MAX as int) {
            Ok(v) => Ok(v),
            Err(e) => Err(
                AppErrorV::InvalidArg("bad int field "@ + key + ": "@ + int_parse_error_text(e)),
            ),
        }
    } else {
        Err(AppErrorV::InvalidArg("missing int field: "@ + key))
    }
}

/// An optional string field: absent, null or not a string reads as nothing.
pub open spec fn read_opt_str(f: Map<Seq<char>, FsValueV>, key: Seq<char>) -> Option<Seq<char>> {
    if !f.contains_key(key) || f[key].is_null {
        None
    } else {
        f[key].string_value
    }
}

/// An optional integer field within `lo..=hi`: absent, null, or not a readable
/// integer in range reads as nothing.
pub open spec fn read_opt_int(f: Map<Seq<char>, FsValueV>, key: Seq<char>, lo: int, hi: int) -> Option<
    int,
> {
    if !f.contains_key(key) || f[key].is_null || f[key].integer_value is None {
        None
    } else {
        match parse_int(f[key].integer_value->Some_0, lo, hi) {
            Ok(v) => Some(v),
            Err(_) => None,
        }
    }
}

/// A boolean field; anything else reads as `false`.
pub open spec fn read_flag(f: Map<Seq<char>, FsValueV>, key: Seq<char>) -> bool {
    f.contains_key(key) && f[key].boolean_value == Some(true)
}

/// The text in `o`, or `default` when there is none.
pub open spec fn or_default(o: Option<Seq<char>>, default: Seq<char>) -> Seq<char> {
    match o {
        Some(s) => s,
        None => default,
    }
}

fn get_str(f: &Fields, key: &str) -> (r: Result<String, AppError>)
    ensures
        match r {
            Ok(s) => read_str(f@, key@) == Ok::<Seq<char>, AppErrorV>(s@),
            Err(e) => read_str(f@, key@) == Err::<Seq<char>, AppErrorV>(e@),
        },
{
    match f.get(key) {
        Some(v) => match &v.string_value {
            Some(s) => Ok(s.clone()),
            None => Err(AppError::InvalidArg(concat_str("missing string field: ", key))),
        },
        None => Err(AppError::InvalidArg(concat_str("missing string field: ", key))),
    }
}

fn get_int(f: &Fields, key: &str) -> (r: Result<i64, AppError>)
    ensures
        match r {
            Ok(n) => read_int(f@, key@) == Ok::<int, AppErrorV>(n as int),
            Err(e) => read_int(f@, key@) == Err::<int, AppErrorV>(e@),
        },
{
    let text = match f.get(key) {
        Some(v) => match &v.integer_value {
            Some(s) => s,
            None => {
                return Err(AppError::InvalidArg(concat_str("missing int field: ", key)));
            },
        },
        None => {
            return Err(AppError::InvalidArg(concat_str("missing int field: ", key)));
        },
    };
    match parse_int_in(text.as_str(), i64::MIN, i64::MAX) {
        Ok(n) => Ok(n),
        Err(e) => {
            let mut m = concat_str("bad int field ", key);
            m.append(": ");
            let detail = int_parse_error_message(e);
            m.append(detail.as_str());
            Err(AppError::InvalidArg(m))
        },
    }
}

fn get_opt_str(f: &Fields, key: &str) -> (r: Option<String>)
    ensures
        opt_view(r) == read_opt_str(f@, key@),
{
    match f.get(key) {
        None => None,
        Some(v) => {
            if v.is_null {
                None
            } else {
                match &v.string_value {
                    Some(s) => Some(s.clone()),
                    None => None,
                }
            }
        },
    }
}

fn get_opt_int_in(f: &Fields, key: &str, lo: i64, hi: i64) -> (r: Option<i64>)
    requires
        lo <= 0 <= hi,
    ensures
        match r {
            Some(n) => read_opt_int(f@, key@, lo as int, hi as int) == Some(n as int),
            None => read_opt_int(f@, key@, lo as int, hi as int) is None,
        },
{
    match f.get(key) {
        None => None,
        Some(v) => {
            if v.is_null {
                None
            } else {
                match &v.integer_value {
                    None => None,
                    Some(s) => match parse_int_in(s.as_str(), lo, hi) {
                        Ok(n) => Some(n),
                        Err(_) => None,
                    },
                }
            }
        },
    }
}

fn get_opt_int(f: &Fields, key: &str) -> (r: Option<i64>)
    ensures
        match r {
            Some(n) => read_opt_int(f@, key@, i64::MIN as int, i64::MAX as int) == Some(n as int),
            None => read_opt_int(f@, key@, i64::MIN as int, i64::MAX as int) is None,
        },
{
    get_opt_int_in(f, key, i64::MIN, i64::MAX)
}

fn get_opt_int_i32(f: &Fields, key: &str) -> (r: Option<i32>)
    ensures
        match r {
            Some(n) => read_opt_int(f@, key@, i32::MIN as int, i32::MAX as int) == Some(n as int),
            None => read_opt_int(f@, key@, i32::MIN as int, i32::MAX as int) is None,
        },
{
    match get_opt_int_in(f, key, i32::MIN as i64, i32::MAX as i64) {
        Some(n) => Some(n as i32),
        None => None,
    }
}

fn get_flag(f: &Fields, key: &str) -> (r: bool)
    ensures
        r == read_flag(f@, key@),
{
    match f.get(key) {
        Some(v) => match v.boolean_value {
            Some(b) => b,
            None => false,
        },
        None => false,
    }
}

fn string_or(o: Option<String>, default: &str) -> (r: String)
    ensures
        r@ == or_default(opt_view(o), default@),
{
    match o {
        Some(s) => s,
        None => owned(default),
    }
}


// ─── Transaction ────────────────────────────────────────────────────────────

/// The document of an operation.
pub open spec fn transaction_doc(t: TransactionV) -> Map<Seq<char>, FsValueV> {
    Map::empty()
        .insert("id"@, string_v(t.id))
        .insert("householdId"@, string_v(t.household_id))
        .insert("occurredAt"@, integer_v(t.occurred_at as int))
        .insert("type"@, string_v(t.tx_type))
        .insert("amountMinor"@, integer_v(t.amount_minor as int))
        .insert("currency"@, string_v(t.currency))
        .insert("accountId"@, string_v(t.account_id))
        .insert("toAccountId"@, opt_string_v(t.to_account_id))
        .insert("categoryId"@, opt_string_v(t.category_id))
        .insert("merchantId"@, opt_string_v(t.merchant_id))
        .insert("note"@, opt_string_v(t.note))
        .insert("createdBy"@, string_v(t.created_by))
        .insert("createdAt"@, integer_v(t.created_at as int))
        .insert("updatedAt"@, integer_v(t.updated_at as int))
        .insert("sourceType"@, string_v(t.source_type))
        .insert("receiptId"@, opt_string_v(t.receipt_id))
        .insert("isDeleted"@, boolean_v(t.is_deleted))
}

/// The operation a document describes. Required fields are read in the order
/// id, householdId, occurredAt, type, amountMinor, accountId, createdAt,
/// updatedAt; the first that is missing or malformed decides the error.
/// A missing currency reads as "RUB", a missing creator as "", a missing
/// source as "MANUAL".
pub open spec fn transaction_from_doc(f: Map<Seq<char>, FsValueV>) -> Result<
    TransactionV,
    AppErrorV,
> {
    let id = read_str(f, "id"@);
    let household_id = read_str(f, "householdId"@);
    let occurred_at = read_int(f, "occurredAt"@);
    let tx_type = read_str(f, "type"@);
    let amount_minor = read_int(f, "amountMinor"@);
    let account_id = read_str(f, "accountId"@);
    let created_at = read_int(f, "createdAt"@);
    let updated_at = read_int(f, "updatedAt"@);
    if id is Err {
        Err(id->Err_0)
    } else if household_id is Err {
        Err(household_id->Err_0)
    } else if occurred_at is Err {
        Err(occurred_at->Err_0)
    } else if tx_type is Err {
        Err(tx_type->Err_0)
    } else if amount_minor is Err {
        Err(amount_minor->Err_0)
    } else if account_id is Err {
        Err(account_id->Err_0)
    } else if created_at is Err {
        Err(created_at->Err_0)
    } else if updated_at is Err {
        Err(updated_at->Err_0)
    } else {
        Ok(
            TransactionV {
                id: id->Ok_0,
                household_id: household_id->Ok_0,
                occurred_at: occurred_at->Ok_0 as i64,
                tx_type: tx_type->Ok_0,
                amount_minor: amount_minor->Ok_0 as i64,
                currency: or_default(read_opt_str(f, "currency"@), "RUB"@),
                account_id: account_id->Ok_0,
                to_account_id: read_opt_str(f, "toAccountId"@),
                category_id: read_opt_str(f, "categoryId"@),
                merchant_id: read_opt_str(f, "merchantId"@),
                note: read_opt_str(f, "note"@),
                created_by: or_default(read_opt_str(f, "createdBy"@), ""@),
                created_at: created_at->Ok_0 as i64,
                updated_at: updated_at->Ok_0 as i64,
                source_type: or_default(read_opt_str(f, "sourceType"@), "MANUAL"@),
                receipt_id: read_opt_str(f, "receiptId"@),
                is_deleted: read_flag(f, "isDeleted"@),
            },
        )
    }
}

/// The abstract value of a decoding result.
pub open spec fn decoded<T: View>(r: Result<T, AppError>) -> Result<T::V, AppErrorV> {
    match r {
        Ok(x) => Ok(x@),
        Err(e) => Err(e@),
    }
}

/// The Firestore document of an operation.
pub fn transaction_to_fields(t: &Transaction) -> (m: Fields)
    ensures
        m@ == transaction_doc(t@),
{
    let mut m = Fields::new();
    m.insert(owned("id"), str_val(t.id.as_str()));
    m.insert(owned("householdId"), str_val(t.household_id.as_str()));
    m.insert(owned("occurredAt"), int_val(t.occurred_at));
    m.insert(owned("type"), str_val(t.tx_type.as_str()));
    m.insert(owned("amountMinor"), int_val(t.amount_minor));
    m.insert(owned("currency"), str_val(t.currency.as_str()));
    m.insert(owned("accountId"), str_val(t.account_id.as_str()));
    m.insert(owned("toAccountId"), opt_str(&t.to_account_id));
    m.insert(owned("categoryId"), opt_str(&t.category_id));
    m.insert(owned("merchantId"), opt_str(&t.merchant_id));
    m.insert(owned("note"), opt_str(&t.note));
    m.insert(owned("createdBy"), str_val(t.created_by.as_str()));
    m.insert(owned("createdAt"), int_val(t.created_at));
    m.insert(owned("updatedAt"), int_val(t.updated_at));
    m.insert(owned("sourceType"), str_val(t.source_type.as_str()));
    m.insert(owned("receiptId"), opt_str(&t.receipt_id));
    m.insert(owned("isDeleted"), bool_val(t.is_deleted));
    m
}

/// The operation described by a Firestore document.
pub fn fields_to_transaction(f: &Fields) -> (r: Result<Transaction, AppError>)
    ensures
        decoded(r) == transaction_from_doc(f@),
{
    let id = get_str(f, "id")?;
    let household_id = get_str(f, "householdId")?;
    let occurred_at = get_int(f, "occurredAt")?;
    let tx_type = get_str(f, "type")?;
    let amount_minor = get_int(f, "amountMinor")?;
    let currency = string_or(get_opt_str(f, "currency"), "RUB");
    let account_id = get_str(f, "accountId")?;
    let to_account_id = get_opt_str(f, "toAccountId");
    let category_id = get_opt_str(f, "categoryId");
    let merchant_id = get_opt_str(f, "merchantId");
    let note = get_opt_str(f, "note");
    let created_by = string_or(get_opt_str(f, "createdBy"), "");
    let created_at = get_int(f, "createdAt")?;
    let updated_at = get_int(f, "updatedAt")?;
    let source_type = string_or(get_opt_str(f, "sourceType"), "MANUAL");
    let receipt_id = get_opt_str(f, "receiptId");
    let is_deleted = get_flag(f, "isDeleted");
    Ok(
        Transaction {
            id,
            household_id,
            occurred_at,
            tx_type,
            amount_minor,
            currency,
            account_id,
            to_account_id,
            category_id,
            merchant_id,
            note,
            created_by,
            created_at,
            updated_at,
            source_type,
            receipt_id,
            is_deleted,
        },
    )
}

proof fn lemma_transaction_keys()
    ensures
        "id"@ =~= seq!['i', 'd'],
        "householdId"@ =~= seq!['h', 'o', 'u', 's', 'e', 'h', 'o', 'l', 'd', 'I', 'd'],
        "occurredAt"@ =~= seq!['o', 'c', 'c', 'u', 'r', 'r', 'e', 'd', 'A', 't'],
        "type"@ =~= seq!['t', 'y', 'p', 'e'],
        "amountMinor"@ =~= seq!['a', 'm', 'o', 'u', 'n', 't', 'M', 'i', 'n', 'o', 'r'],
        "currency"@ =~= seq!['c', 'u', 'r', 'r', 'e', 'n', 'c', 'y'],
        "accountId"@ =~= seq!['a', 'c', 'c', 'o', 'u', 'n', 't', 'I', 'd'],
        "toAccountId"@ =~= seq!['t', 'o', 'A', 'c', 'c', 'o', 'u', 'n', 't', 'I', 'd'],
        "categoryId"@ =~= seq!['c', 'a', 't', 'e', 'g', 'o', 'r', 'y', 'I', 'd'],
        "merchantId"@ =~= seq!['m', 'e', 'r', 'c', 'h', 'a', 'n', 't', 'I', 'd'],
        "note"@ =~= seq!['n', 'o', 't', 'e'],
        "createdBy"@ =~= seq!['c', 'r', 'e', 'a', 't', 'e', 'd', 'B', 'y'],
        "createdAt"@ =~= seq!['c', 'r', 'e', 'a', 't', 'e', 'd', 'A', 't'],
        "updatedAt"@ =~= seq!['u', 'p', 'd', 'a', 't', 'e', 'd', 'A', 't'],
        "sourceType"@ =~= seq!['s', 'o', 'u', 'r', 'c', 'e', 'T', 'y', 'p', 'e'],
        "receiptId"@ =~= seq!['r', 'e', 'c', 'e', 'i', 'p', 't', 'I', 'd'],
        "isDeleted"@ =~= seq!['i', 's', 'D', 'e', 'l', 'e', 't', 'e', 'd'],
{
    reveal_strlit("id");
    reveal_strlit("householdId");
    reveal_strlit("occurredAt");
    reveal_strlit("type");
    reveal_strlit("amountMinor");
    reveal_strlit("currency");
    reveal_strlit("accountId");
    reveal_strlit("toAccountId");
    reveal_strlit("categoryId");
    reveal_strlit("merchantId");
    reveal_strlit("note");
    reveal_strlit("createdBy");
    reveal_strlit("createdAt");
    reveal_strlit("updatedAt");
    reveal_strlit("sourceType");
    reveal_strlit("receiptId");
    reveal_strlit("isDeleted");
}

/// Reading back the document of an operation gives the operation: no field is
/// lost or altered on the way to the server and back.
pub proof fn law_transaction_round_trip(t: TransactionV)
    ensures
        transaction_from_doc(transaction_doc(t)) == Ok::<TransactionV, AppErrorV>(t),
{
    lemma_transaction_keys();
    lemma_parse_int_decimal(t.occurred_at as int, i64::MIN as int, i64::MAX as int);
    lemma_parse_int_decimal(t.amount_minor as int, i64::MIN as int, i64::MAX as int);
    lemma_parse_int_decimal(t.created_at as int, i64::MIN as int, i64::MAX as int);
    lemma_parse_int_decimal(t.updated_at as int, i64::MIN as int, i64::MAX as int);
    let f = transaction_doc(t);
    assert(read_str(f, "id"@) == Ok::<Seq<char>, AppErrorV>(t.id));
    assert(read_str(f, "householdId"@) == Ok::<Seq<char>, AppErrorV>(t.household_id));
    assert(read_int(f, "occurredAt"@) == Ok::<int, AppErrorV>(t.occurred_at as int));
    assert(read_str(f, "type"@) == Ok::<Seq<char>, AppErrorV>(t.tx_type));
    assert(read_int(f, "amountMinor"@) == Ok::<int, AppErrorV>(t.amount_minor as int));
    assert(read_str(f, "accountId"@) == Ok::<Seq<char>, AppErrorV>(t.account_id));
    assert(read_int(f, "createdAt"@) == Ok::<int, AppErrorV>(t.created_at as int));
    assert(read_int(f, "updatedAt"@) == Ok::<int, AppErrorV>(t.updated_at as int));
    assert(read_opt_str(f, "currency"@) == Some(t.currency));
    assert(read_opt_str(f, "toAccountId"@) == t.to_account_id);
    assert(read_opt_str(f, "categoryId"@) == t.category_id);
    assert(read_opt_str(f, "merchantId"@) == t.merchant_id);
    assert(read_opt_str(f, "note"@) == t.note);
    assert(read_opt_str(f, "createdBy"@) == Some(t.created_by));
    assert(read_opt_str(f, "sourceType"@) == Some(t.source_type));
    assert(read_opt_str(f, "receiptId"@) == t.receipt_id);
    assert(read_flag(f, "isDeleted"@) == t.is_deleted);
}


// ─── Account ────────────────────────────────────────────────────────────────

/// The document of an account.
pub open spec fn account_doc(a: AccountV) -> Map<Seq<char>, FsValueV> {
    Map::empty()
        .insert("id"@, string_v(a.id))
        .insert("householdId"@, string_v(a.household_id))
        .insert("name"@, string_v(a.name))
        .insert("type"@, string_v(a.account_type))
        .insert("currency"@, string_v(a.currency))
        .insert("balanceMinor"@, integer_v(a.balance_minor as int))
        .insert("creditLimitMinor"@, opt_i64_v(a.credit_limit_minor))
        .insert("gracePeriodDays"@, opt_i32_v(a.grace_period_days))
        .insert("paymentDueDay"@, opt_i32_v(a.payment_due_day))
        .insert("color"@, integer_v(a.color as int))
        .insert("iconKey"@, string_v(a.icon_key))
        .insert("isArchived"@, boolean_v(a.is_archived))
        .insert("updatedAt"@, integer_v(a.updated_at as int))
}

/// An optional 64-bit field.
pub open spec fn read_opt_i64(f: Map<Seq<char>, FsValueV>, key: Seq<char>) -> Option<i64> {
    match read_opt_int(f, key, i64::MIN as int, i64::MAX as int) {
        Some(v) => Some(v as i64),
        None => None,
    }
}

/// An optional 32-bit field.
pub open spec fn read_opt_i32(f: Map<Seq<char>, FsValueV>, key: Seq<char>) -> Option<i32> {
    match read_opt_int(f, key, i32::MIN as int, i32::MAX as int) {
        Some(v) => Some(v as i32),
        None => None,
    }
}

/// The account a document describes. Required fields are read in the order
/// id, householdId, name, type, balanceMinor, color, iconKey, updatedAt; the
/// first that is missing or malformed decides the error. A missing currency
/// reads as "RUB".
pub open spec fn account_from_doc(f: Map<Seq<char>, FsValueV>) -> Result<AccountV, AppErrorV> {
    let id = read_str(f, "id"@);
    let household_id = read_str(f, "householdId"@);
    let name = read_str(f, "name"@);
    let account_type = read_str(f, "type"@);
    let balance_minor = read_int(f, "balanceMinor"@);
    let color = read_int(f, "color"@);
    let icon_key = read_str(f, "iconKey"@);
    let updated_at = read_int(f, "updatedAt"@);
    if id is Err {
        Err(id->Err_0)
    } else if household_id is Err {
        Err(household_id->Err_0)
    } else if name is Err {
        Err(name->Err_0)
    } else if account_type is Err {
        Err(account_type->Err_0)
    } else if balance_minor is Err {
        Err(balance_minor->Err_0)
    } else if color is Err {
        Err(color->Err_0)
    } else if icon_key is Err {
        Err(icon_key->Err_0)
    } else if updated_at is Err {
        Err(updated_at->Err_0)
    } else {
        Ok(
            AccountV {
                id: id->Ok_0,
                household_id: household_id->Ok_0,
                name: name->Ok_0,
                account_type: account_type->Ok_0,
                currency: or_default(read_opt_str(f, "currency"@), "RUB"@),
                balance_minor: balance_minor->Ok_0 as i64,
                credit_limit_minor: read_opt_i64(f, "creditLimitMinor"@),
                grace_period_days: read_opt_i32(f, "gracePeriodDays"@),
                payment_due_day: read_opt_i32(f, "paymentDueDay"@),
                color: color->Ok_0 as i64,
                icon_key: icon_key->Ok_0,
                is_archived: read_flag(f, "isArchived"@),
                updated_at: updated_at->Ok_0 as i64,
            },
        )
    }
}

/// The Firestore document of an account.
pub fn account_to_fields(a: &Account) -> (m: Fields)
    ensures
        m@ == account_doc(a@),
{
    let mut m = Fields::new();
    m.insert(owned("id"), str_val(a.id.as_str()));
    m.insert(owned("householdId"), str_val(a.household_id.as_str()));
    m.insert(owned("name"), str_val(a.name.as_str()));
    m.insert(owned("type"), str_val(a.account_type.as_str()));
    m.insert(owned("currency"), str_val(a.currency.as_str()));
    m.insert(owned("balanceMinor"), int_val(a.balance_minor));
    m.insert(owned("creditLimitMinor"), opt_int(&a.credit_limit_minor));
    m.insert(owned("gracePeriodDays"), opt_int_i32(&a.grace_period_days));
    m.insert(owned("paymentDueDay"), opt_int_i32(&a.payment_due_day));
    m.insert(owned("color"), int_val(a.color));
    m.insert(owned("iconKey"), str_val(a.icon_key.as_str()));
    m.insert(owned("isArchived"), bool_val(a.is_archived));
    m.insert(owned("updatedAt"), int_val(a.updated_at));
    m
}

/// The account described by a Firestore document.
pub fn fields_to_account(f: &Fields) -> (r: Result<Account, AppError>)
    ensures
        decoded(r) == account_from_doc(f@),
{
    let id = get_str(f, "id")?;
    let household_id = get_str(f, "householdId")?;
    let name = get_str(f, "name")?;
    let account_type = get_str(f, "type")?;
    let currency = string_or(get_opt_str(f, "currency"), "RUB");
    let balance_minor = get_int(f, "balanceMinor")?;
    let credit_limit_minor = get_opt_int(f, "creditLimitMinor");
    let grace_period_days = get_opt_int_i32(f, "gracePeriodDays");
    let payment_due_day = get_opt_int_i32(f, "paymentDueDay");
    let color = get_int(f, "color")?;
    let icon_key = get_str(f, "iconKey")?;
    let is_archived = get_flag(f, "isArchived");
    let updated_at = get_int(f, "updatedAt")?;
    Ok(
        Account {
            id,
            household_id,
            name,
            account_type,
            currency,
            balance_minor,
            credit_limit_minor,
            grace_period_days,
            payment_due_day,
            color,
            icon_key,
            is_archived,
            updated_at,
        },
    )
}

proof fn lemma_account_keys()
    ensures
        "id"@ =~= seq!['i', 'd'],
        "householdId"@ =~= seq!['h', 'o', 'u', 's', 'e', 'h', 'o', 'l', 'd', 'I', 'd'],
        "name"@ =~= seq!['n', 'a', 'm', 'e'],
        "type"@ =~= seq!['t', 'y', 'p', 'e'],
        "currency"@ =~= seq!['c', 'u', 'r', 'r', 'e', 'n', 'c', 'y'],
        "balanceMinor"@ =~= seq!['b', 'a', 'l', 'a', 'n', 'c', 'e', 'M', 'i', 'n', 'o', 'r'],
        "creditLimitMinor"@ =~= seq!['c', 'r', 'e', 'd', 'i', 't', 'L', 'i', 'm', 'i', 't', 'M', 'i', 'n', 'o', 'r'],
        "gracePeriodDays"@ =~= seq!['g', 'r', 'a', 'c', 'e', 'P', 'e', 'r', 'i', 'o', 'd', 'D', 'a', 'y', 's'],
        "paymentDueDay"@ =~= seq!['p', 'a', 'y', 'm', 'e', 'n', 't', 'D', 'u', 'e', 'D', 'a', 'y'],
        "color"@ =~= seq!['c', 'o', 'l', 'o', 'r'],
        "iconKey"@ =~= seq!['i', 'c', 'o', 'n', 'K', 'e', 'y'],
        "isArchived"@ =~= seq!['i', 's', 'A', 'r', 'c', 'h', 'i', 'v', 'e', 'd'],
        "updatedAt"@ =~= seq!['u', 'p', 'd', 'a', 't', 'e', 'd', 'A', 't'],
{
    reveal_strlit("id");
    reveal_strlit("householdId");
    reveal_strlit("name");
    reveal_strlit("type");
    reveal_strlit("currency");
    reveal_strlit("balanceMinor");
    reveal_strlit("creditLimitMinor");
    reveal_strlit("gracePeriodDays");
    reveal_strlit("paymentDueDay");
    reveal_strlit("color");
    reveal_strlit("iconKey");
    reveal_strlit("isArchived");
    reveal_strlit("updatedAt");
}

/// Reading back the document of an account gives the account.
pub proof fn law_account_round_trip(a: AccountV)
    ensures
        account_from_doc(account_doc(a)) == Ok::<AccountV, AppErrorV>(a),
{
    lemma_account_keys();
    lemma_parse_int_decimal(a.balance_minor as int, i64::MIN as int, i64::MAX as int);
    lemma_parse_int_decimal(a.color as int, i64::MIN as int, i64::MAX as int);
    lemma_parse_int_decimal(a.updated_at as int, i64::MIN as int, i64::MAX as int);
    if a.credit_limit_minor is Some {
        lemma_parse_int_decimal(a.credit_limit_minor->Some_0 as int, i64::MIN as int, i64::MAX as int);
    }
    if a.grace_period_days is Some {
        lemma_parse_int_decimal(a.grace_period_days->Some_0 as int, i32::MIN as int, i32::MAX as int);
    }
    if a.payment_due_day is Some {
        lemma_parse_int_decimal(a.payment_due_day->Some_0 as int, i32::MIN as int, i32::MAX as int);
    }
    let f = account_doc(a);
    assert(read_str(f, "id"@) == Ok::<Seq<char>, AppErrorV>(a.id));
    assert(read_str(f, "householdId"@) == Ok::<Seq<char>, AppErrorV>(a.household_id));
    assert(read_str(f, "name"@) == Ok::<Seq<char>, AppErrorV>(a.name));
    assert(read_str(f, "type"@) == Ok::<Seq<char>, AppErrorV>(a.account_type));
    assert(read_int(f, "balanceMinor"@) == Ok::<int, AppErrorV>(a.balance_minor as int));
    assert(read_int(f, "color"@) == Ok::<int, AppErrorV>(a.color as int));
    assert(read_str(f, "iconKey"@) == Ok::<Seq<char>, AppErrorV>(a.icon_key));
    assert(read_int(f, "updatedAt"@) == Ok::<int, AppErrorV>(a.updated_at as int));
    assert(read_opt_str(f, "currency"@) == Some(a.currency));
    assert(read_opt_i64(f, "creditLimitMinor"@) == a.credit_limit_minor);
    assert(read_opt_i32(f, "gracePeriodDays"@) == a.grace_period_days);
    assert(read_opt_i32(f, "paymentDueDay"@) == a.payment_due_day);
    assert(read_flag(f, "isArchived"@) == a.is_archived);
}

// ─── Category ───────────────────────────────────────────────────────────────

/// The document of a category.
pub open spec fn category_doc(c: CategoryV) -> Map<Seq<char>, FsValueV> {
    Map::empty()
        .insert("id"@, string_v(c.id))
        .insert("householdId"@, string_v(c.household_id))
        .insert("name"@, string_v(c.name))
        .insert("type"@, string_v(c.category_type))
        .insert("parentId"@, opt_string_v(c.parent_id))
        .insert("color"@, integer_v(c.color as int))
        .insert("iconKey"@, string_v(c.icon_key))
        .insert("sortOrder"@, integer_v(c.sort_order as int))
        .insert("updatedAt"@, integer_v(c.updated_at as int))
        .insert("isDeleted"@, boolean_v(c.is_deleted))
}

/// The category a document describes. Required fields are read in the order
/// id, householdId, name, type, color, iconKey, updatedAt; the first that is
/// missing or malformed decides the error. A missing or unreadable sort order
/// reads as 0.
pub open spec fn category_from_doc(f: Map<Seq<char>, FsValueV>) -> Result<CategoryV, AppErrorV> {
    let id = read_str(f, "id"@);
    let household_id = read_str(f, "householdId"@);
    let name = read_str(f, "name"@);
    let category_type = read_str(f, "type"@);
    let color = read_int(f, "color"@);
    let icon_key = read_str(f, "iconKey"@);
    let updated_at = read_int(f, "updatedAt"@);
    if id is Err {
        Err(id->Err_0)
    } else if household_id is Err {
        Err(household_id->Err_0)
    } else if name is Err {
        Err(name->Err_0)
    } else if category_type is Err {
        Err(category_type->Err_0)
    } else if color is Err {
        Err(color->Err_0)
    } else if icon_key is Err {
        Err(icon_key->Err_0)
    } else if updated_at is Err {
        Err(updated_at->Err_0)
    } else {
        Ok(
            CategoryV {
                id: id->Ok_0,
                household_id: household_id->Ok_0,
                name: name->Ok_0,
                category_type: category_type->Ok_0,
                parent_id: read_opt_str(f, "parentId"@),
                color: color->Ok_0 as i64,
                icon_key: icon_key->Ok_0,
                sort_order: match read_opt_i32(f, "sortOrder"@) {
                    Some(v) => v,
                    None => 0,
                },
                updated_at: updated_at->Ok_0 as i64,
                is_deleted: read_flag(f, "isDeleted"@),
            },
        )
    }
}

/// The Firestore document of a category.
pub fn category_to_fields(c: &Category) -> (m: Fields)
    ensures
        m@ == category_doc(c@),
{
    let mut m = Fields::new();
    m.insert(owned("id"), str_val(c.id.as_str()));
    m.insert(owned("householdId"), str_val(c.household_id.as_str()));
    m.insert(owned("name"), str_val(c.name.as_str()));
    m.insert(owned("type"), str_val(c.category_type.as_str()));
    m.insert(owned("parentId"), opt_str(&c.parent_id));
    m.insert(owned("color"), int_val(c.color));
    m.insert(owned("iconKey"), str_val(c.icon_key.as_str()));
    m.insert(owned("sortOrder"), int_val_i32(c.sort_order));
    m.insert(owned("updatedAt"), int_val(c.updated_at));
    m.insert(owned("isDeleted"), bool_val(c.is_deleted));
    m
}

/// The category described by a Firestore document.
pub fn fields_to_category(f: &Fields) -> (r: Result<Category, AppError>)
    ensures
        decoded(r) == category_from_doc(f@),
{
    let id = get_str(f, "id")?;
    let household_id = get_str(f, "householdId")?;
    let name = get_str(f, "name")?;
    let category_type = get_str(f, "type")?;
    let parent_id = get_opt_str(f, "parentId");
    let color = get_int(f, "color")?;
    let icon_key = get_str(f, "iconKey")?;
    let sort_order = match get_opt_int_i32(f, "sortOrder") {
        Some(v) => v,
        None => 0,
    };
    let updated_at = get_int(f, "updatedAt")?;
    let is_deleted = get_flag(f, "isDeleted");
    Ok(
        Category {
            id,
            household_id,
            name,
            category_type,
            parent_id,
            color,
            icon_key,
            sort_order,
            updated_at,
            is_deleted,
        },
    )
}

proof fn lemma_category_keys()
    ensures
        "id"@ =~= seq!['i', 'd'],
        "householdId"@ =~= seq!['h', 'o', 'u', 's', 'e', 'h', 'o', 'l', 'd', 'I', 'd'],
        "name"@ =~= seq!['n', 'a', 'm', 'e'],
        "type"@ =~= seq!['t', 'y', 'p', 'e'],
        "parentId"@ =~= seq!['p', 'a', 'r', 'e', 'n', 't', 'I', 'd'],
        "color"@ =~= seq!['c', 'o', 'l', 'o', 'r'],
        "iconKey"@ =~= seq!['i', 'c', 'o', 'n', 'K', 'e', 'y'],
        "sortOrder"@ =~= seq!['s', 'o', 'r', 't', 'O', 'r', 'd', 'e', 'r'],
        "updatedAt"@ =~= seq!['u', 'p', 'd', 'a', 't', 'e', 'd', 'A', 't'],
        "isDeleted"@ =~= seq!['i', 's', 'D', 'e', 'l', 'e', 't', 'e', 'd'],
{
    reveal_strlit("id");
    reveal_strlit("householdId");
    reveal_strlit("name");
    reveal_strlit("type");
    reveal_strlit("parentId");
    reveal_strlit("color");
    reveal_strlit("iconKey");
    reveal_strlit("sortOrder");
    reveal_strlit("updatedAt");
    reveal_strlit("isDeleted");
}

/// Reading back the document of a category gives the category.
pub proof fn law_category_round_trip(c: CategoryV)
    ensures
        category_from_doc(category_doc(c)) == Ok::<CategoryV, AppErrorV>(c),
{
    lemma_category_keys();
    lemma_parse_int_decimal(c.color as int, i64::MIN as int, i64::MAX as int);
    lemma_parse_int_decimal(c.sort_order as int, i32::MIN as int, i32::MAX as int);
    lemma_parse_int_decimal(c.updated_at as int, i64::MIN as int, i64::MAX as int);
    let f = category_doc(c);
    assert(read_str(f, "id"@) == Ok::<Seq<char>, AppErrorV>(c.id));
    assert(read_str(f, "householdId"@) == Ok::<Seq<char>, AppErrorV>(c.household_id));
    assert(read_str(f, "name"@) == Ok::<Seq<char>, AppErrorV>(c.name));
    assert(read_str(f, "type"@) == Ok::<Seq<char>, AppErrorV>(c.category_type));
    assert(read_int(f, "color"@) == Ok::<int, AppErrorV>(c.color as int));
    assert(read_str(f, "iconKey"@) == Ok::<Seq<char>, AppErrorV>(c.icon_key));
    assert(read_int(f, "updatedAt"@) == Ok::<int, AppErrorV>(c.updated_at as int));
    assert(read_opt_str(f, "parentId"@) == c.parent_id);
    assert(read_opt_i32(f, "sortOrder"@) == Some(c.sort_order));
    assert(read_flag(f, "isDeleted"@) == c.is_deleted);
}

// ─── Budget ─────────────────────────────────────────────────────────────────

/// The document of a budget.
pub open spec fn budget_doc(b: BudgetV) -> Map<Seq<char>, FsValueV> {
    Map::empty()
        .insert("id"@, string_v(b.id))
        .insert("householdId"@, string_v(b.household_id))
        .insert("categoryId"@, string_v(b.category_id))
        .insert("period"@, string_v(b.period))
        .insert("limitMinor"@, integer_v(b.limit_minor as int))
        .insert("currency"@, string_v(b.currency))
        .insert("startDate"@, integer_v(b.start_date as int))
        .insert("isRolling"@, boolean_v(b.is_rolling))
        .insert("updatedAt"@, integer_v(b.updated_at as int))
        .insert("isDeleted"@, boolean_v(b.is_deleted))
}

/// The budget a document describes. Required fields are read in the order
/// id, householdId, categoryId, period, limitMinor, startDate, updatedAt; the
/// first that is missing or malformed decides the error. A missing currency
/// reads as "RUB".
pub open spec fn budget_from_doc(f: Map<Seq<char>, FsValueV>) -> Result<BudgetV, AppErrorV> {
    let id = read_str(f, "id"@);
    let household_id = read_str(f, "householdId"@);
    let category_id = read_str(f, "categoryId"@);
    let period = read_str(f, "period"@);
    let limit_minor = read_int(f, "limitMinor"@);
    let start_date = read_int(f, "startDate"@);
    let updated_at = read_int(f, "updatedAt"@);
    if id is Err {
        Err(id->Err_0)
    } else if household_id is Err {
        Err(household_id->Err_0)
    } else if category_id is Err {
        Err(category_id->Err_0)
    } else if period is Err {
        Err(period->Err_0)
    } else if limit_minor is Err {
        Err(limit_minor->Err_0)
    } else if start_date is Err {
        Err(start_date->Err_0)
    } else if updated_at is Err {
        Err(updated_at->Err_0)
    } else {
        Ok(
            BudgetV {
                id: id->Ok_0,
                household_id: household_id->Ok_0,
                category_id: category_id->Ok_0,
                period: period->Ok_0,
                limit_minor: limit_minor->Ok_0 as i64,
                currency: or_default(read_opt_str(f, "currency"@), "RUB"@),
                start_date: start_date->Ok_0 as i64,
                is_rolling: read_flag(f, "isRolling"@),
                updated_at: updated_at->Ok_0 as i64,
                is_deleted: read_flag(f, "isDeleted"@),
            },
        )
    }
}

/// The Firestore document of a budget.
pub fn budget_to_fields(b: &Budget) -> (m: Fields)
    ensures
        m@ == budget_doc(b@),
{
    let mut m = Fields::new();
    m.insert(owned("id"), str_val(b.id.as_str()));
    m.insert(owned("householdId"), str_val(b.household_id.as_str()));
    m.insert(owned("categoryId"), str_val(b.category_id.as_str()));
    m.insert(owned("period"), str_val(b.period.as_str()));
    m.insert(owned("limitMinor"), int_val(b.limit_minor));
    m.insert(owned("currency"), str_val(b.currency.as_str()));
    m.insert(owned("startDate"), int_val(b.start_date));
    m.insert(owned("isRolling"), bool_val(b.is_rolling));
    m.insert(owned("updatedAt"), int_val(b.updated_at));
    m.insert(owned("isDeleted"), bool_val(b.is_deleted));
    m
}

/// The budget described by a Firestore document.
pub fn fields_to_budget(f: &Fields) -> (r: Result<Budget, AppError>)
    ensures
        decoded(r) == budget_from_doc(f@),
{
    let id = get_str(f, "id")?;
    let household_id = get_str(f, "householdId")?;
    let category_id = get_str(f, "categoryId")?;
    let period = get_str(f, "period")?;
    let limit_minor = get_int(f, "limitMinor")?;
    let currency = string_or(get_opt_str(f, "currency"), "RUB");
    let start_date = get_int(f, "startDate")?;
    let is_rolling = get_flag(f, "isRolling");
    let updated_at = get_int(f, "updatedAt")?;
    let is_deleted = get_flag(f, "isDeleted");
    Ok(
        Budget {
            id,
            household_id,
            category_id,
            period,
            limit_minor,
            currency,
            start_date,
            is_rolling,
            updated_at,
            is_deleted,
        },
    )
}

proof fn lemma_budget_keys()
    ensures
        "id"@ =~= seq!['i', 'd'],
        "householdId"@ =~= seq!['h', 'o', 'u', 's', 'e', 'h', 'o', 'l', 'd', 'I', 'd'],
        "categoryId"@ =~= seq!['c', 'a', 't', 'e', 'g', 'o', 'r', 'y', 'I', 'd'],
        "period"@ =~= seq!['p', 'e', 'r', 'i', 'o', 'd'],
        "limitMinor"@ =~= seq!['l', 'i', 'm', 'i', 't', 'M', 'i', 'n', 'o', 'r'],
        "currency"@ =~= seq!['c', 'u', 'r', 'r', 'e', 'n', 'c', 'y'],
        "startDate"@ =~= seq!['s', 't', 'a', 'r', 't', 'D', 'a', 't', 'e'],
        "isRolling"@ =~= seq!['i', 's', 'R', 'o', 'l', 'l', 'i', 'n', 'g'],
        "updatedAt"@ =~= seq!['u', 'p', 'd', 'a', 't', 'e', 'd', 'A', 't'],
        "isDeleted"@ =~= seq!['i', 's', 'D', 'e', 'l', 'e', 't', 'e', 'd'],
{
    reveal_strlit("id");
    reveal_strlit("householdId");
    reveal_strlit("categoryId");
    reveal_strlit("period");
    reveal_strlit("limitMinor");
    reveal_strlit("currency");
    reveal_strlit("startDate");
    reveal_strlit("isRolling");
    reveal_strlit("updatedAt");
    reveal_strlit("isDeleted");
}

/// Reading back the document of a budget gives the budget.
pub proof fn law_budget_round_trip(b: BudgetV)
    ensures
        budget_from_doc(budget_doc(b)) == Ok::<BudgetV, AppErrorV>(b),
{
    lemma_budget_keys();
    lemma_parse_int_decimal(b.limit_minor as int, i64::MIN as int, i64::MAX as int);
    lemma_parse_int_decimal(b.start_date as int, i64::MIN as int, i64::MAX as int);
    lemma_parse_int_decimal(b.updated_at as int, i64::MIN as int, i64::MAX as int);
    let f = budget_doc(b);
    assert(read_str(f, "id"@) == Ok::<Seq<char>, AppErrorV>(b.id));
    assert(read_str(f, "householdId"@) == Ok::<Seq<char>, AppErrorV>(b.household_id));
    assert(read_str(f, "categoryId"@) == Ok::<Seq<char>, AppErrorV>(b.category_id));
    assert(read_str(f, "period"@) == Ok::<Seq<char>, AppErrorV>(b.period));
    assert(read_int(f, "limitMinor"@) == Ok::<int, AppErrorV>(b.limit_minor as int));
    assert(read_int(f, "startDate"@) == Ok::<int, AppErrorV>(b.start_date as int));
    assert(read_int(f, "updatedAt"@) == Ok::<int, AppErrorV>(b.updated_at as int));
    assert(read_opt_str(f, "currency"@) == Some(b.currency));
    assert(read_flag(f, "isRolling"@) == b.is_rolling);
    assert(read_flag(f, "isDeleted"@) == b.is_deleted);
}

// ─── Key tables ─────────────────────────────────────────────────────────────

/// An operation's document has exactly the keys of the shared format, and each key
/// holds its own field: the amount under "amountMinor", the category under
/// "categoryId", the merchant under "merchantId", and so on.
pub proof fn law_transaction_doc_keys(t: TransactionV)
    ensures
        transaction_doc(t).dom() =~= set!["id"@, "householdId"@, "occurredAt"@, "type"@, "amountMinor"@, "currency"@, "accountId"@, "toAccountId"@, "categoryId"@, "merchantId"@, "note"@, "createdBy"@, "createdAt"@, "updatedAt"@, "sourceType"@, "receiptId"@, "isDeleted"@],
        transaction_doc(t)["id"@].string_value == Some(t.id),
        transaction_doc(t)["householdId"@].string_value == Some(t.household_id),
        transaction_doc(t)["occurredAt"@].integer_value == Some(int_decimal(t.occurred_at as int)),
        transaction_doc(t)["type"@].string_value == Some(t.tx_type),
        transaction_doc(t)["amountMinor"@].integer_value == Some(int_decimal(t.amount_minor as int)),
        transaction_doc(t)["currency"@].string_value == Some(t.currency),
        transaction_doc(t)["accountId"@].string_value == Some(t.account_id),
        transaction_doc(t)["toAccountId"@] == opt_string_v(t.to_account_id),
        transaction_doc(t)["categoryId"@] == opt_string_v(t.category_id),
        transaction_doc(t)["merchantId"@] == opt_string_v(t.merchant_id),
        transaction_doc(t)["note"@] == opt_string_v(t.note),
        transaction_doc(t)["createdBy"@].string_value == Some(t.created_by),
        transaction_doc(t)["createdAt"@].integer_value == Some(int_decimal(t.created_at as int)),
        transaction_doc(t)["updatedAt"@].integer_value == Some(int_decimal(t.updated_at as int)),
        transaction_doc(t)["sourceType"@].string_value == Some(t.source_type),
        transaction_doc(t)["receiptId"@] == opt_string_v(t.receipt_id),
        transaction_doc(t)["isDeleted"@].boolean_value == Some(t.is_deleted),
{
    lemma_transaction_keys();
}

/// Decoding an operation reads each field from its own key; a missing currency,
/// creator or source reads as "RUB", "" and "MANUAL".
pub proof fn law_transaction_read_keys(f: Map<Seq<char>, FsValueV>)
    ensures
        transaction_from_doc(f) matches Ok(x) ==> {
            &&& read_str(f, "id"@) == Ok::<Seq<char>, AppErrorV>(x.id)
            &&& read_str(f, "householdId"@) == Ok::<Seq<char>, AppErrorV>(x.household_id)
            &&& read_int(f, "occurredAt"@) is Ok
            &&& x.occurred_at == read_int(f, "occurredAt"@)->Ok_0 as i64
            &&& read_str(f, "type"@) == Ok::<Seq<char>, AppErrorV>(x.tx_type)
            &&& read_int(f, "amountMinor"@) is Ok
            &&& x.amount_minor == read_int(f, "amountMinor"@)->Ok_0 as i64
            &&& (match read_opt_str(f, "currency"@) {
                Some(v) => x.currency == v,
                None => x.currency == "RUB"@,
            })
            &&& read_str(f, "accountId"@) == Ok::<Seq<char>, AppErrorV>(x.account_id)
            &&& x.to_account_id == read_opt_str(f, "toAccountId"@)
            &&& x.category_id == read_opt_str(f, "categoryId"@)
            &&& x.merchant_id == read_opt_str(f, "merchantId"@)
            &&& x.note == read_opt_str(f, "note"@)
            &&& (match read_opt_str(f, "createdBy"@) {
                Some(v) => x.created_by == v,
                None => x.created_by == ""@,
            })
            &&& read_int(f, "createdAt"@) is Ok
            &&& x.created_at == read_int(f, "createdAt"@)->Ok_0 as i64
            &&& read_int(f, "updatedAt"@) is Ok
            &&& x.updated_at == read_int(f, "updatedAt"@)->Ok_0 as i64
            &&& (match read_opt_str(f, "sourceType"@) {
                Some(v) => x.source_type == v,
                None => x.source_type == "MANUAL"@,
            })
            &&& x.receipt_id == read_opt_str(f, "receiptId"@)
            &&& x.is_deleted == read_flag(f, "isDeleted"@)
        },
{
}

/// An account's document has exactly the keys of the shared format, and each key
/// holds its own field: the grace period under "gracePeriodDays", the payment
/// day under "paymentDueDay", and so on; an absent optional value is null.
pub proof fn law_account_doc_keys(a: AccountV)
    ensures
        account_doc(a).dom() =~= set!["id"@, "householdId"@, "name"@, "type"@, "currency"@, "balanceMinor"@, "creditLimitMinor"@, "gracePeriodDays"@, "paymentDueDay"@, "color"@, "iconKey"@, "isArchived"@, "updatedAt"@],
        account_doc(a)["id"@].string_value == Some(a.id),
        account_doc(a)["householdId"@].string_value == Some(a.household_id),
        account_doc(a)["name"@].string_value == Some(a.name),
        account_doc(a)["type"@].string_value == Some(a.account_type),
        account_doc(a)["currency"@].string_value == Some(a.currency),
        account_doc(a)["balanceMinor"@].integer_value == Some(int_decimal(a.balance_minor as int)),
        account_doc(a)["creditLimitMinor"@] == opt_i64_v(a.credit_limit_minor),
        account_doc(a)["gracePeriodDays"@] == opt_i32_v(a.grace_period_days),
        account_doc(a)["paymentDueDay"@] == opt_i32_v(a.payment_due_day),
        account_doc(a)["color"@].integer_value == Some(int_decimal(a.color as int)),
        account_doc(a)["iconKey"@].string_value == Some(a.icon_key),
        account_doc(a)["isArchived"@].boolean_value == Some(a.is_archived),
        account_doc(a)["updatedAt"@].integer_value == Some(int_decimal(a.updated_at as int)),
{
    lemma_account_keys();
}

/// Decoding an account reads each field from its own key; a missing currency
/// reads as "RUB".
pub proof fn law_account_read_keys(f: Map<Seq<char>, FsValueV>)
    ensures
        account_from_doc(f) matches Ok(x) ==> {
            &&& read_str(f, "id"@) == Ok::<Seq<char>, AppErrorV>(x.id)
            &&& read_str(f, "householdId"@) == Ok::<Seq<char>, AppErrorV>(x.household_id)
            &&& read_str(f, "name"@) == Ok::<Seq<char>, AppErrorV>(x.name)
            &&& read_str(f, "type"@) == Ok::<Seq<char>, AppErrorV>(x.account_type)
            &&& (match read_opt_str(f, "currency"@) {
                Some(v) => x.currency == v,
                None => x.currency == "RUB"@,
            })
            &&& read_int(f, "balanceMinor"@) is Ok
            &&& x.balance_minor == read_int(f, "balanceMinor"@)->Ok_0 as i64
            &&& x.credit_limit_minor == read_opt_i64(f, "creditLimitMinor"@)
            &&& x.grace_period_days == read_opt_i32(f, "gracePeriodDays"@)
            &&& x.payment_due_day == read_opt_i32(f, "paymentDueDay"@)
            &&& read_int(f, "color"@) is Ok
            &&& x.color == read_int(f, "color"@)->Ok_0 as i64
            &&& read_str(f, "iconKey"@) == Ok::<Seq<char>, AppErrorV>(x.icon_key)
            &&& x.is_archived == read_flag(f, "isArchived"@)
            &&& read_int(f, "updatedAt"@) is Ok
            &&& x.updated_at == read_int(f, "updatedAt"@)->Ok_0 as i64
        },
{
}

/// A category's document has exactly the keys of the shared format, and each key
/// holds its own field: the parent under "parentId" (null for a top-level
/// category), the sort order under "sortOrder", and so on.
pub proof fn law_category_doc_keys(c: CategoryV)
    ensures
        category_doc(c).dom() =~= set!["id"@, "householdId"@, "name"@, "type"@, "parentId"@, "color"@, "iconKey"@, "sortOrder"@, "updatedAt"@, "isDeleted"@],
        category_doc(c)["id"@].string_value == Some(c.id),
        category_doc(c)["householdId"@].string_value == Some(c.household_id),
        category_doc(c)["name"@].string_value == Some(c.name),
        category_doc(c)["type"@].string_value == Some(c.category_type),
        category_doc(c)["parentId"@] == opt_string_v(c.parent_id),
        category_doc(c)["color"@].integer_value == Some(int_decimal(c.color as int)),
        category_doc(c)["iconKey"@].string_value == Some(c.icon_key),
        category_doc(c)["sortOrder"@].integer_value == Some(int_decimal(c.sort_order as int)),
        category_doc(c)["updatedAt"@].integer_value == Some(int_decimal(c.updated_at as int)),
        category_doc(c)["isDeleted"@].boolean_value == Some(c.is_deleted),
{
    lemma_category_keys();
}

/// Decoding a category reads each field from its own key; a missing or
/// unreadable sort order reads as 0.
pub proof fn law_category_read_keys(f: Map<Seq<char>, FsValueV>)
    ensures
        category_from_doc(f) matches Ok(x) ==> {
            &&& read_str(f, "id"@) == Ok::<Seq<char>, AppErrorV>(x.id)
            &&& read_str(f, "householdId"@) == Ok::<Seq<char>, AppErrorV>(x.household_id)
            &&& read_str(f, "name"@) == Ok::<Seq<char>, AppErrorV>(x.name)
            &&& read_str(f, "type"@) == Ok::<Seq<char>, AppErrorV>(x.category_type)
            &&& x.parent_id == read_opt_str(f, "parentId"@)
            &&& read_int(f, "color"@) is Ok
            &&& x.color == read_int(f, "color"@)->Ok_0 as i64
            &&& read_str(f, "iconKey"@) == Ok::<Seq<char>, AppErrorV>(x.icon_key)
            &&& (match read_opt_i32(f, "sortOrder"@) {
                Some(v) => x.sort_order == v,
                None => x.sort_order == 0,
            })
            &&& read_int(f, "updatedAt"@) is Ok
            &&& x.updated_at == read_int(f, "updatedAt"@)->Ok_0 as i64
            &&& x.is_deleted == read_flag(f, "isDeleted"@)
        },
{
}

/// A budget's document has exactly the keys of the shared format, and each key
/// holds its own field: the limit under "limitMinor" and the start of the first
/// period under "startDate", both as decimal text, and so on.
pub proof fn law_budget_doc_keys(b: BudgetV)
    ensures
        budget_doc(b).dom() =~= set![
            "id"@, "householdId"@, "categoryId"@, "period"@, "limitMinor"@, "currency"@,
            "startDate"@, "isRolling"@, "updatedAt"@, "isDeleted"@,
        ],
        budget_doc(b)["id"@].string_value == Some(b.id),
        budget_doc(b)["householdId"@].string_value == Some(b.household_id),
        budget_doc(b)["categoryId"@].string_value == Some(b.category_id),
        budget_doc(b)["period"@].string_value == Some(b.period),
        budget_doc(b)["limitMinor"@].integer_value == Some(int_decimal(b.limit_minor as int)),
        budget_doc(b)["currency"@].string_value == Some(b.currency),
        budget_doc(b)["startDate"@].integer_value == Some(int_decimal(b.start_date as int)),
        budget_doc(b)["isRolling"@].boolean_value == Some(b.is_rolling),
        budget_doc(b)["updatedAt"@].integer_value == Some(int_decimal(b.updated_at as int)),
        budget_doc(b)["isDeleted"@].boolean_value == Some(b.is_deleted),
{
    lemma_budget_keys();
}

/// Decoding a budget reads each field from its own key: the limit from
/// "limitMinor", the start date from "startDate", and so on.
pub proof fn law_budget_read_keys(f: Map<Seq<char>, FsValueV>)
    ensures
        budget_from_doc(f) matches Ok(b) ==> {
            &&& read_str(f, "id"@) == Ok::<Seq<char>, AppErrorV>(b.id)
            &&& read_str(f, "householdId"@) == Ok::<Seq<char>, AppErrorV>(b.household_id)
            &&& read_str(f, "categoryId"@) == Ok::<Seq<char>, AppErrorV>(b.category_id)
            &&& read_str(f, "period"@) == Ok::<Seq<char>, AppErrorV>(b.period)
            &&& read_int(f, "limitMinor"@) is Ok
            &&& b.limit_minor == read_int(f, "limitMinor"@)->Ok_0 as i64
            &&& (match read_opt_str(f, "currency"@) {
                Some(c) => b.currency == c,
                None => b.currency == "RUB"@,
            })
            &&& read_int(f, "startDate"@) is Ok
            &&& b.start_date == read_int(f, "startDate"@)->Ok_0 as i64
            &&& b.is_rolling == read_flag(f, "isRolling"@)
            &&& read_int(f, "updatedAt"@) is Ok
            &&& b.updated_at == read_int(f, "updatedAt"@)->Ok_0 as i64
            &&& b.is_deleted == read_flag(f, "isDeleted"@)
        },
{
}

} // verus!
