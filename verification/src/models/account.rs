//! Accounts: cards and cash that hold a balance.

use vstd::prelude::*;
use crate::text::str_eq;

verus! {

/// An account of a household; the balance is kept in minor units.
#[derive(Debug, Clone)]
pub struct Account {
    pub id: String,
    pub household_id: String,
    pub name: String,
    pub account_type: String,
    pub currency: String,
    pub balance_minor: i64,
    pub credit_limit_minor: Option<i64>,
    pub grace_period_days: Option<i32>,
    pub payment_due_day: Option<i32>,
    pub color: i64,
    pub icon_key: String,
    pub is_archived: bool,
    pub updated_at: i64,
}

/// The abstract value of an [`Account`].
pub struct AccountV {
    pub id: Seq<char>,
    pub household_id: Seq<char>,
    pub name: Seq<char>,
    pub account_type: Seq<char>,
    pub currency: Seq<char>,
    pub balance_minor: i64,
    pub credit_limit_minor: Option<i64>,
    pub grace_period_days: Option<i32>,
    pub payment_due_day: Option<i32>,
    pub color: i64,
    pub icon_key: Seq<char>,
    pub is_archived: bool,
    pub updated_at: i64,
}

impl View for Account {
    type V = AccountV;

    open spec fn view(&self) -> AccountV {
        AccountV {
            id: self.id@,
            household_id: self.household_id@,
            name: self.name@,
            account_type: self.account_type@,
            currency: self.currency@,
            balance_minor: self.balance_minor,
            credit_limit_minor: self.credit_limit_minor,
            grace_period_days: self.grace_period_days,
            payment_due_day: self.payment_due_day,
            color: self.color,
            icon_key: self.icon_key@,
            is_archived: self.is_archived,
            updated_at: self.updated_at,
        }
    }
}

pub const TYPE_CARD_DEBIT: &'static str = "CARD_DEBIT";

pub const TYPE_CARD_CREDIT: &'static str = "CARD_CREDIT";

pub const TYPE_CASH: &'static str = "CASH";

/// The account types the application knows.
pub open spec fn valid_account_type(t: Seq<char>) -> bool {
    t == TYPE_CARD_DEBIT@ || t == TYPE_CARD_CREDIT@ || t == TYPE_CASH@
}

/// Whether `t` names a known account type.
pub fn is_valid_type(t: &str) -> (r: bool)
    ensures
        r == valid_account_type(t@),
{
    str_eq(t, TYPE_CARD_DEBIT) || str_eq(t, TYPE_CARD_CREDIT) || str_eq(t, TYPE_CASH)
}

} // verus!
