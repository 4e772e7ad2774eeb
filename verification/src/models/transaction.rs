//! Operations: incomes, expenses and transfers between accounts.

use vstd::prelude::*;
use crate::text::{opt_view, str_eq};

verus! {

/// One operation of a household; amounts are in minor units.
#[derive(Debug, Clone)]
pub struct Transaction {
    pub id: String,
    pub household_id: String,
    pub occurred_at: i64,
    pub tx_type: String,
    pub amount_minor: i64,
    pub currency: String,
    pub account_id: String,
    pub to_account_id: Option<String>,
    pub category_id: Option<String>,
    pub merchant_id: Option<String>,
    pub note: Option<String>,
    pub created_by: String,
    pub created_at: i64,
    pub updated_at: i64,
    pub source_type: String,
    pub receipt_id: Option<String>,
    pub is_deleted: bool,
}

/// The abstract value of a [`Transaction`].
pub struct TransactionV {
    pub id: Seq<char>,
    pub household_id: Seq<char>,
    pub occurred_at: i64,
    pub tx_type: Seq<char>,
    pub amount_minor: i64,
    pub currency: Seq<char>,
    pub account_id: Seq<char>,
    pub to_account_id: Option<Seq<char>>,
    pub category_id: Option<Seq<char>>,
    pub merchant_id: Option<Seq<char>>,
    pub note: Option<Seq<char>>,
    pub created_by: Seq<char>,
    pub created_at: i64,
    pub updated_at: i64,
    pub source_type: Seq<char>,
    pub receipt_id: Option<Seq<char>>,
    pub is_deleted: bool,
}

impl View for Transaction {
    type V = TransactionV;

    open spec fn view(&self) -> TransactionV {
        TransactionV {
            id: self.id@,
            household_id: self.household_id@,
            occurred_at: self.occurred_at,
            tx_type: self.tx_type@,
            amount_minor: self.amount_minor,
            currency: self.currency@,
            account_id: self.account_id@,
            to_account_id: opt_view(self.to_account_id),
            category_id: opt_view(self.category_id),
            merchant_id: opt_view(self.merchant_id),
            note: opt_view(self.note),
            created_by: self.created_by@,
            created_at: self.created_at,
            updated_at: self.updated_at,
            source_type: self.source_type@,
            receipt_id: opt_view(self.receipt_id),
            is_deleted: self.is_deleted,
        }
    }
}

pub const TYPE_INCOME: &'static str = "INCOME";

pub const TYPE_EXPENSE: &'static str = "EXPENSE";

pub const TYPE_TRANSFER: &'static str = "TRANSFER";

pub const SRC_MANUAL: &'static str = "MANUAL";

pub const SRC_SMS: &'static str = "SMS";

pub const SRC_QR: &'static str = "QR";

pub const SRC_IMPORT: &'static str = "IMPORT";

/// The operation types the application knows.
pub open spec fn valid_tx_type(t: Seq<char>) -> bool {
    t == TYPE_INCOME@ || t == TYPE_EXPENSE@ || t == TYPE_TRANSFER@
}

/// The three operation types are different words.
pub proof fn lemma_tx_types_distinct()
    ensures
        TYPE_INCOME@ != TYPE_EXPENSE@,
        TYPE_INCOME@ != TYPE_TRANSFER@,
        TYPE_EXPENSE@ != TYPE_TRANSFER@,
{
    reveal_strlit("INCOME");
    reveal_strlit("EXPENSE");
    reveal_strlit("TRANSFER");
    assert(TYPE_INCOME@.len() == 6);
    assert(TYPE_EXPENSE@.len() == 7);
    assert(TYPE_TRANSFER@.len() == 8);
}

/// Whether `t` names a known operation type.
pub fn is_valid_type(t: &str) -> (r: bool)
    ensures
        r == valid_tx_type(t@),
{
    str_eq(t, TYPE_INCOME) || str_eq(t, TYPE_EXPENSE) || str_eq(t, TYPE_TRANSFER)
}

} // verus!
