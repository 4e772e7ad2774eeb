//! Spending limits per category and period.

use vstd::prelude::*;
use crate::text::str_eq;

verus! {

/// A spending limit on one category over a week, month or year.
#[derive(Debug, Clone)]
pub struct Budget {
    pub id: String,
    pub household_id: String,
    pub category_id: String,
    pub period: String,
    pub limit_minor: i64,
    pub currency: String,
    pub start_date: i64,
    pub is_rolling: bool,
    pub updated_at: i64,
    pub is_deleted: bool,
}

/// The abstract value of a [`Budget`].
pub struct BudgetV {
    pub id: Seq<char>,
    pub household_id: Seq<char>,
    pub category_id: Seq<char>,
    pub period: Seq<char>,
    pub limit_minor: i64,
    pub currency: Seq<char>,
    pub start_date: i64,
    pub is_rolling: bool,
    pub updated_at: i64,
    pub is_deleted: bool,
}

impl View for Budget {
    type V = BudgetV;

    open spec fn view(&self) -> BudgetV {
        BudgetV {
            id: self.id@,
            household_id: self.household_id@,
            category_id: self.category_id@,
            period: self.period@,
            limit_minor: self.limit_minor,
            currency: self.currency@,
            start_date: self.start_date,
            is_rolling: self.is_rolling,
            updated_at: self.updated_at,
            is_deleted: self.is_deleted,
        }
    }
}

pub const PERIOD_WEEK: &'static str = "WEEK";

pub const PERIOD_MONTH: &'static str = "MONTH";

pub const PERIOD_YEAR: &'static str = "YEAR";

/// The budget periods the application knows.
pub open spec fn valid_period(p: Seq<char>) -> bool {
    p == PERIOD_WEEK@ || p == PERIOD_MONTH@ || p == PERIOD_YEAR@
}

/// The three periods are different words.
pub proof fn lemma_periods_distinct()
    ensures
        PERIOD_WEEK@ != PERIOD_MONTH@,
        PERIOD_WEEK@ != PERIOD_YEAR@,
        PERIOD_MONTH@ != PERIOD_YEAR@,
{
    reveal_strlit("WEEK");
    reveal_strlit("MONTH");
    reveal_strlit("YEAR");
    assert(PERIOD_WEEK@.len() == 4);
    assert(PERIOD_MONTH@.len() == 5);
    assert(PERIOD_YEAR@.len() == 4);
    assert(PERIOD_WEEK@[0] != PERIOD_YEAR@[0]);
}

/// Whether `p` names a known budget period.
pub fn is_valid_period(p: &str) -> (r: bool)
    ensures
        r == valid_period(p@),
{
    str_eq(p, PERIOD_WEEK) || str_eq(p, PERIOD_MONTH) || str_eq(p, PERIOD_YEAR)
}

} // verus!
