//! Creating and editing recurring rules.

use vstd::prelude::*;
use crate::commands::accounts::clone_id;
use crate::ids::{id_or_new, uuid_v4_text};
use crate::models::recurring::{RecurringRule, RecurringRuleV};
use crate::repository::now_ms;

verus! {

/// What the user interface sends to create or edit a recurring rule.
#[derive(Debug)]
pub struct RecurringInput {
    pub id: Option<String>,
    pub household_id: String,
    pub template_json: String,
    pub rrule: String,
    pub next_run_at: i64,
    pub is_active: Option<bool>,
}

/// The rule saved for `input` under `id` at `now`: never run yet, active unless
/// said otherwise.
pub open spec fn rule_for_input(input: RecurringInput, id: Seq<char>, now: i64) -> RecurringRuleV {
    RecurringRuleV {
        id,
        household_id: input.household_id@,
        template_json: input.template_json@,
        rrule: input.rrule@,
        next_run_at: input.next_run_at,
        last_run_at: None,
        is_active: match input.is_active {
            Some(a) => a,
            None => true,
        },
        updated_at: now,
    }
}

pub fn rule_from_input(input: RecurringInput, id: String, now: i64) -> (r: RecurringRule)
    ensures
        r@ == rule_for_input(input, id@, now),
{
    RecurringRule {
        id,
        household_id: input.household_id,
        template_json: input.template_json,
        rrule: input.rrule,
        next_run_at: input.next_run_at,
        last_run_at: None,
        is_active: match input.is_active {
            Some(a) => a,
            None => true,
        },
        updated_at: now,
    }
}

/// The rule to save for `input`: its given identifier or a new one, stamped
/// with the current time.
pub fn prepare_rule(input: RecurringInput) -> (r: RecurringRule)
    ensures
        r@ == rule_for_input(input, r.id@, r.updated_at),
        match input.id {
            Some(given) => r.id@ == given@,
            None => uuid_v4_text(r.id@),
        },
{
    let now = now_ms();
    let id = id_or_new(clone_id(&input.id));
    rule_from_input(input, id, now)
}

/// Saving a recurring rule keeps what the user entered, each in the field of
/// the same name: household, template, recurrence and next run. It has never
/// run, is active unless said otherwise, carries its identifier and is
/// stamped `now`.
pub proof fn law_saved_rule_keeps_input(input: RecurringInput, id: Seq<char>, now: i64)
    ensures
        ({
            let r = rule_for_input(input, id, now);
            &&& r.id == id
            &&& r.household_id == input.household_id@
            &&& r.template_json == input.template_json@
            &&& r.rrule == input.rrule@
            &&& r.next_run_at == input.next_run_at
            &&& r.last_run_at is None
            &&& (match input.is_active {
                Some(a) => r.is_active == a,
                None => r.is_active,
            })
            &&& r.updated_at == now
        }),
{
}

} // verus!
