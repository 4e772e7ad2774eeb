//! Report shapes: totals over a period, monthly points and spending by category.
//!
//! The sums themselves are computed by the database; this module fixes what a
//! report holds and how the totals combine.

use vstd::prelude::*;

verus! {

/// A household and a half-open period `[start_ms, end_ms)`.
#[derive(Debug, Clone)]
pub struct ReportRange {
    pub household_id: String,
    pub start_ms: i64,
    pub end_ms: i64,
}

/// Income and expense of one calendar month ("YYYY-MM").
#[derive(Debug, Clone)]
pub struct MonthlyPoint {
    pub bucket: String,
    pub income_minor: i64,
    pub expense_minor: i64,
}

/// What was spent in one category over a period.
#[derive(Debug, Clone)]
pub struct CategorySpend {
    pub category_id: String,
    pub category_name: String,
    pub color: i64,
    pub spent_minor: i64,
}

/// Totals of a period and the balance between them.
#[derive(Debug, Clone, Copy, PartialEq, Eq, Structural)]
pub struct ReportSummary {
    pub total_income_minor: i64,
    pub total_expense_minor: i64,
    pub balance_minor: i64,
}

/// How many categories a spending report lists when the caller names no limit.
pub const DEFAULT_TOP_CATEGORIES: i64 = 20;

impl ReportSummary {
    /// The summary of a period with the given income and expense totals: the
    /// balance is income minus expense.
    pub fn from_totals(income: i64, expense: i64) -> (s: ReportSummary)
        requires
            i64::MIN <= income - expense <= i64::MAX,
        ensures
            s.total_income_minor == income,
            s.total_expense_minor == expense,
            s.balance_minor == income - expense,
    {
        ReportSummary {
            total_income_minor: income,
            total_expense_minor: expense,
            balance_minor: income - expense,
        }
    }
}

/// The number of categories a spending report lists.
pub fn top_categories_limit(limit: Option<i64>) -> (n: i64)
    ensures
        n == match limit {
            Some(l) => l,
            None => DEFAULT_TOP_CATEGORIES,
        },
{
    match limit {
        Some(l) => l,
        None => DEFAULT_TOP_CATEGORIES,
    }
}

} // verus!
