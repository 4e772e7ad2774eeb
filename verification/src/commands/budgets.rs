//! Budgets: validation of new budgets and the period each one covers.

use vstd::prelude::*;
use crate::calendar::{
    dated_bound, instant_bound, next_month, utc_civil_date, utc_date_parts, utc_midnight, utc_midnight_ms,
};
use crate::commands::accounts::clone_id;
use crate::error::{AppError, AppErrorV};
use crate::ids::{id_or_new, uuid_v4_text};
use crate::models::budget::{
    is_valid_period, valid_period, Budget, BudgetV, PERIOD_MONTH, PERIOD_WEEK, PERIOD_YEAR,
};
use crate::repository::now_ms;
use crate::text::{concat_str, owned, str_eq};

verus! {

/// What the user interface sends to create or edit a budget.
#[derive(Debug)]
pub struct BudgetInput {
    pub id: Option<String>,
    pub household_id: String,
    pub category_id: String,
    pub period: String,
    pub limit_minor: i64,
    pub currency: Option<String>,
    pub start_date: i64,
    pub is_rolling: Option<bool>,
}

/// A budget with what was spent in its current period `[period_start, period_end)`.
#[derive(Debug)]
pub struct BudgetProgress {
    pub budget: Budget,
    pub spent_minor: i64,
    pub period_start: i64,
    pub period_end: i64,
}

/// The budget saved for `input` under `id` at `now`: currency "RUB" and not
/// rolling unless given, not deleted.
pub open spec fn budget_for_input(input: BudgetInput, id: Seq<char>, now: i64) -> BudgetV {
    BudgetV {
        id,
        household_id: input.household_id@,
        category_id: input.category_id@,
        period: input.period@,
        limit_minor: input.limit_minor,
        currency: match input.currency {
            Some(c) => c@,
            None => "RUB"@,
        },
        start_date: input.start_date,
        is_rolling: match input.is_rolling {
            Some(r) => r,
            None => false,
        },
        updated_at: now,
        is_deleted: false,
    }
}

pub open spec fn invalid_period(p: Seq<char>) -> AppErrorV {
    AppErrorV::InvalidArg("invalid period: "@ + p)
}

/// The budget to save for `input` under `id` at `now`; an unknown period is refused.
pub fn budget_from_input(input: BudgetInput, id: String, now: i64) -> (r: Result<Budget, AppError>)
    ensures
        r is Ok <==> valid_period(input.period@),
        r matches Ok(b) ==> b@ == budget_for_input(input, id@, now),
        r matches Err(e) ==> e@ == invalid_period(input.period@),
{
    if !is_valid_period(input.period.as_str()) {
        return Err(AppError::InvalidArg(concat_str("invalid period: ", input.period.as_str())));
    }
    Ok(
        Budget {
            id,
            household_id: input.household_id,
            category_id: input.category_id,
            period: input.period,
            limit_minor: input.limit_minor,
            currency: match input.currency {
                Some(c) => c,
                None => owned("RUB"),
            },
            start_date: input.start_date,
            is_rolling: match input.is_rolling {
                Some(r) => r,
                None => false,
            },
            updated_at: now,
            is_deleted: false,
        },
    )
}

/// The budget to save for `input`: its given identifier or a new one, stamped
/// with the current time. An unknown period is refused first.
pub fn prepare_budget(input: BudgetInput) -> (r: Result<Budget, AppError>)
    ensures
        r is Ok <==> valid_period(input.period@),
        r matches Ok(b) ==> b@ == budget_for_input(input, b.id@, b.updated_at),
        r matches Ok(b) ==> match input.id {
            Some(given) => b.id@ == given@,
            None => uuid_v4_text(b.id@),
        },
        r matches Err(e) ==> e@ == invalid_period(input.period@),
{
    if !is_valid_period(input.period.as_str()) {
        return Err(AppError::InvalidArg(concat_str("invalid period: ", input.period.as_str())));
    }
    let now = now_ms();
    let id = id_or_new(clone_id(&input.id));
    budget_from_input(input, id, now)
}

pub open spec fn day_ms() -> int {
    86_400_000
}

/// The nominal length of a period: a week, 30 days, 365 days; 30 days for an
/// unknown period.
pub open spec fn period_length_ms(p: Seq<char>) -> int {
    if p == PERIOD_WEEK@ {
        7 * day_ms()
    } else if p == PERIOD_MONTH@ {
        30 * day_ms()
    } else if p == PERIOD_YEAR@ {
        365 * day_ms()
    } else {
        30 * day_ms()
    }
}

fn period_length(p: &str) -> (r: i64)
    ensures
        r == period_length_ms(p@),
{
    if str_eq(p, PERIOD_WEEK) {
        7 * 24 * 3600 * 1000
    } else if str_eq(p, PERIOD_MONTH) {
        30 * 24 * 3600 * 1000
    } else if str_eq(p, PERIOD_YEAR) {
        365 * 24 * 3600 * 1000
    } else {
        30 * 24 * 3600 * 1000
    }
}

pub open spec fn or_else(o: Option<int>, d: int) -> int {
    match o {
        Some(v) => v,
        None => d,
    }
}

/// The period `[start, end)` a budget covers at instant `now`.
///
/// A rolling budget covers the period length up to `now`. Otherwise the
/// calendar period containing the reference instant: the week from Monday
/// midnight, the month from its first day to the first of the next month, the
/// year from January 1 to the next January 1 (UTC). The reference instant is
/// `now`, or `clock` (the current time) when `now` has no calendar date; an
/// unknown period covers the period length up to `now`. Where a calendar
/// boundary does not exist the fallbacks are: `now` for a week or month start,
/// the budget's start date (else the reference) for a year start, the start
/// plus the period length for an end. A week whose Monday lies before the
/// first date `chrono` represents starts at the reference instant.
pub open spec fn budget_period(b: BudgetV, now: int, clock: int) -> (int, int) {
    let len = period_length_ms(b.period);
    let reference = if utc_civil_date(now) is Some {
        now
    } else {
        clock
    };
    let start_ref = if utc_civil_date(b.start_date as int) is Some {
        b.start_date as int
    } else {
        reference
    };
    let (y, m, d, w) = utc_civil_date(reference)->Some_0;
    if b.is_rolling {
        (now - len, now)
    } else if b.period == PERIOD_WEEK@ {
        let start = match utc_civil_date(reference - w * day_ms()) {
            Some((y2, m2, d2, _)) => or_else(utc_midnight(y2, m2, d2), now),
            None => reference,
        };
        (start, start + len)
    } else if b.period == PERIOD_MONTH@ {
        let start = or_else(utc_midnight(y, m, 1), now);
        let end = if m == 12 {
            or_else(utc_midnight(y + 1, 1, 1), start + len)
        } else {
            or_else(utc_midnight(y, m + 1, 1), start + len)
        };
        (start, end)
    } else if b.period == PERIOD_YEAR@ {
        let start = or_else(utc_midnight(y, 1, 1), start_ref);
        let end = or_else(utc_midnight(y + 1, 1, 1), start + len);
        (start, end)
    } else {
        (now - len, now)
    }
}

/// Whether `now` is far enough from the lower end of `i64` for the period
/// length to be subtracted from it where the budget needs that.
pub open spec fn period_fits(b: BudgetV, now: int) -> bool {
    (b.is_rolling || !valid_period(b.period)) ==> now - period_length_ms(b.period) >= i64::MIN
}

/// Whether the period of budget `b` at `now` can be computed (see [`period_fits`]).
pub fn period_fits_now(b: &Budget, now: i64) -> (r: bool)
    ensures
        r == period_fits(b@, now as int),
{
    if b.is_rolling || !is_valid_period(b.period.as_str()) {
        let len = period_length(b.period.as_str());
        now >= i64::MIN + len
    } else {
        true
    }
}

fn midnight_or(year: i32, month: u32, day: u32, fallback: i64) -> (r: i64)
    ensures
        r == or_else(utc_midnight(year as int, month as int, day as int), fallback as int),
        utc_midnight(year as int, month as int, day as int) is Some ==> -instant_bound() < r
            < instant_bound(),
        (-262143 <= year <= 262142 && 1 <= month <= 12 && day == 1) ==> utc_midnight(
            year as int,
            month as int,
            day as int,
        ) is Some,
{
    match utc_midnight_ms(year, month, day) {
        Some(ms) => ms,
        None => fallback,
    }
}

/// Whether the calendar period of budget `b` around instant `now` has its end
/// in the range chrono represents: the first of the next month for a month
/// budget, the next January 1 for a year budget; a week always has one.
pub open spec fn calendar_end_known(b: BudgetV, now: int) -> bool {
    let (y, m, d, w) = utc_civil_date(now)->Some_0;
    if b.period == PERIOD_MONTH@ {
        utc_midnight(next_month(y, m).0, next_month(y, m).1, 1) is Some
    } else if b.period == PERIOD_YEAR@ {
        utc_midnight(y + 1, 1, 1) is Some
    } else {
        true
    }
}

/// Whether a budget is a calendar budget (a week, a month or a year, not
/// rolling) asked about an instant with a calendar date whose period end is
/// known: its period then contains the instant.
pub open spec fn calendar_period_at(b: BudgetV, now: int) -> bool {
    &&& !b.is_rolling
    &&& valid_period(b.period)
    &&& utc_civil_date(now) is Some
    &&& calendar_end_known(b, now)
}

/// The period `[start, end)` budget `b` covers at instant `now`, given the
/// current time `clock`, which serves only when `now` has no calendar date.
pub fn period_bounds_at(b: &Budget, now: i64, clock: i64) -> (r: (i64, i64))
    requires
        period_fits(b@, now as int),
        utc_civil_date(now as int) is None ==> utc_civil_date(clock as int) is Some,
    ensures
        (r.0 as int, r.1 as int) == budget_period(b@, now as int, clock as int),
        calendar_period_at(b@, now as int) ==> r.0 <= now < r.1,
{
    proof {
        crate::models::budget::lemma_periods_distinct();
    }
    let len = period_length(b.period.as_str());
    let (reference, parts) = match utc_date_parts(now) {
        Some(p) => (now, p),
        None => {
            match utc_date_parts(clock) {
                Some(p) => (clock, p),
                None => {
                    proof {
                        assert(false);
                    }
                    (clock, (1970, 1, 1, 3))
                },
            }
        },
    };
    let start_ref: i64 = match utc_date_parts(b.start_date) {
        Some(_) => b.start_date,
        None => reference,
    };
    let (y, m, _d, w) = parts;
    if b.is_rolling {
        return (now - len, now);
    }
    if str_eq(b.period.as_str(), PERIOD_WEEK) {
        let shifted = reference - (w as i64) * 86_400_000;
        let start = match utc_date_parts(shifted) {
            Some((y2, m2, d2, _)) => midnight_or(y2, m2, d2, now),
            None => reference,
        };
        (start, start + len)
    } else if str_eq(b.period.as_str(), PERIOD_MONTH) {
        let start = midnight_or(y, m, 1, now);
        let end = if m == 12 {
            midnight_or(y + 1, 1, 1, start + len)
        } else {
            midnight_or(y, m + 1, 1, start + len)
        };
        (start, end)
    } else if str_eq(b.period.as_str(), PERIOD_YEAR) {
        let start = midnight_or(y, 1, 1, start_ref);
        let end = midnight_or(y + 1, 1, 1, start + len);
        (start, end)
    } else {
        (now - len, now)
    }
}

/// The period `[start, end)` budget `b` covers at instant `now`; when `now` has
/// no calendar date the current time by the system clock stands for it (the
/// epoch when the clock reads before it or beyond the dated range). A calendar
/// budget's period contains `now` (see [`calendar_period_at`]).
pub fn period_bounds(b: &Budget, now: i64) -> (r: (i64, i64))
    requires
        period_fits(b@, now as int),
    ensures
        exists|clock: int| utc_civil_date(clock) is Some && (r.0 as int, r.1 as int) == budget_period(b@, now as int, clock),
        utc_civil_date(now as int) is Some ==> (r.0 as int, r.1 as int) == budget_period(
            b@,
            now as int,
            now as int,
        ),
        calendar_period_at(b@, now as int) ==> r.0 <= now < r.1,
{
    let clock = match utc_date_parts(now) {
        Some(_) => now,
        None => {
            let read = now_ms();
            let c = if -8_000_000_000_000_000 <= read && read <= 8_000_000_000_000_000 {
                read
            } else {
                0
            };
            let _ = utc_date_parts(c);
            c
        },
    };
    let r = period_bounds_at(b, now, clock);
    proof {
        assert((r.0 as int, r.1 as int) == budget_period(b@, now as int, clock as int));
    }
    r
}

/// A rolling budget's period ends at the instant asked about and spans the
/// nominal length of its period: a week, 30 days or 365 days.
pub proof fn law_rolling_period(b: BudgetV, now: int, clock: int)
    requires
        b.is_rolling,
    ensures
        budget_period(b, now, clock).1 == now,
        budget_period(b, now, clock).1 - budget_period(b, now, clock).0 == period_length_ms(b.period),
{
}

/// Saving a budget keeps what the user entered, each in the field of the same
/// name: household, category, period, limit and start date. The currency and
/// the rolling flag are the given ones, else "RUB" and not rolling. The budget
/// carries its identifier, is stamped `now` and is live.
pub proof fn law_saved_budget_keeps_input(input: BudgetInput, id: Seq<char>, now: i64)
    ensures
        ({
            let b = budget_for_input(input, id, now);
            &&& b.id == id
            &&& b.household_id == input.household_id@
            &&& b.category_id == input.category_id@
            &&& b.period == input.period@
            &&& b.limit_minor == input.limit_minor
            &&& b.start_date == input.start_date
            &&& (match input.currency {
                Some(c) => b.currency == c@,
                None => b.currency == "RUB"@,
            })
            &&& (match input.is_rolling {
                Some(r) => b.is_rolling == r,
                None => !b.is_rolling,
            })
            &&& b.updated_at == now
            &&& !b.is_deleted
        }),
{
}

} // verus!
