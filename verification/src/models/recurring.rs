//! Rules for operations that repeat on a schedule.

use vstd::prelude::*;

verus! {

#[derive(Debug, Clone)]
pub struct RecurringRule {
    pub id: String,
    pub household_id: String,
    pub template_json: String,
    pub rrule: String,
    pub next_run_at: i64,
    pub last_run_at: Option<i64>,
    pub is_active: bool,
    pub updated_at: i64,
}

pub struct RecurringRuleV {
    pub id: Seq<char>,
    pub household_id: Seq<char>,
    pub template_json: Seq<char>,
    pub rrule: Seq<char>,
    pub next_run_at: i64,
    pub last_run_at: Option<i64>,
    pub is_active: bool,
    pub updated_at: i64,
}

impl View for RecurringRule {
    type V = RecurringRuleV;

    open spec fn view(&self) -> RecurringRuleV {
        RecurringRuleV {
            id: self.id@,
            household_id: self.household_id@,
            template_json: self.template_json@,
            rrule: self.rrule@,
            next_run_at: self.next_run_at,
            last_run_at: self.last_run_at,
            is_active: self.is_active,
            updated_at: self.updated_at,
        }
    }
}

/// The operation a recurring rule produces each time it runs.
#[derive(Debug, Clone)]
pub struct RecurringTemplate {
    pub tx_type: String,
    pub amount_minor: i64,
    pub currency: String,
    pub account_id: String,
    pub to_account_id: Option<String>,
    pub category_id: Option<String>,
    pub note: Option<String>,
}

} // verus!
