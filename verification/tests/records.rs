use homebuhg::commands::accounts::{account_from_input, prepare_account, AccountInput};
use homebuhg::commands::budgets::{budget_from_input, period_bounds, period_bounds_at, prepare_budget, BudgetInput};
use homebuhg::commands::categories::{category_from_input, prepare_category, CategoryInput};
use homebuhg::commands::recurring::{prepare_rule, rule_from_input, RecurringInput};
use homebuhg::commands::reports::{top_categories_limit, ReportSummary};
use homebuhg::commands::session::SessionInfo;
use homebuhg::error::AppError;
use homebuhg::models::account;
use homebuhg::models::budget::{is_valid_period, Budget};
use homebuhg::models::category;
use homebuhg::models::transaction;

fn account_input(kind: &str) -> AccountInput {
    AccountInput {
        id: None,
        household_id: "h".to_string(),
        name: "  Wallet \n".to_string(),
        account_type: kind.to_string(),
        currency: None,
        balance_minor: None,
        credit_limit_minor: None,
        grace_period_days: None,
        payment_due_day: None,
        color: None,
        icon_key: None,
    }
}

#[test]
fn account_defaults_and_trimmed_name() {
    let a = account_from_input(account_input("CASH"), "id1".to_string(), 42).unwrap();
    assert_eq!(a.id, "id1");
    assert_eq!(a.name, "Wallet");
    assert_eq!(a.currency, "RUB");
    assert_eq!(a.balance_minor, 0);
    assert_eq!(a.color, 0xFF607D8B);
    assert_eq!(a.icon_key, "credit_card");
    assert!(!a.is_archived);
    assert_eq!(a.updated_at, 42);
    let fresh = prepare_account(account_input("CARD_DEBIT")).unwrap();
    assert_eq!(fresh.id.chars().count(), 36);
}

#[test]
fn unknown_account_type_is_refused() {
    match account_from_input(account_input("GOLD"), "x".to_string(), 0) {
        Err(AppError::InvalidArg(m)) => assert_eq!(m, "invalid account type: GOLD"),
        other => panic!("unexpected {:?}", other),
    }
    assert!(prepare_account(account_input("")).is_err());
}

#[test]
fn known_types_and_periods() {
    assert!(account::is_valid_type("CARD_CREDIT"));
    assert!(!account::is_valid_type("card_credit"));
    assert!(category::is_valid_type("INCOME"));
    assert!(!category::is_valid_type("TRANSFER"));
    assert!(transaction::is_valid_type("TRANSFER"));
    assert!(!transaction::is_valid_type("INCOME "));
    assert!(is_valid_period("MONTH"));
    assert!(!is_valid_period("DAY"));
}

#[test]
fn category_defaults() {
    let input = CategoryInput {
        id: Some("c".to_string()),
        household_id: "h".to_string(),
        name: "\tFood".to_string(),
        category_type: "EXPENSE".to_string(),
        parent_id: None,
        color: None,
        icon_key: None,
        sort_order: None,
    };
    let c = category_from_input(input, "c".to_string(), 5).unwrap();
    assert_eq!(c.name, "Food");
    assert_eq!(c.color, 0xFF9E9E9E);
    assert_eq!(c.icon_key, "more_horiz");
    assert_eq!(c.sort_order, 0);
    let bad = CategoryInput {
        id: None,
        household_id: "h".to_string(),
        name: "x".to_string(),
        category_type: "OTHER".to_string(),
        parent_id: None,
        color: Some(1),
        icon_key: None,
        sort_order: Some(2),
    };
    match prepare_category(bad) {
        Err(AppError::InvalidArg(m)) => assert_eq!(m, "invalid category type: OTHER"),
        other => panic!("unexpected {:?}", other),
    }
}

#[test]
fn rule_is_active_unless_said() {
    let input = RecurringInput {
        id: None,
        household_id: "h".to_string(),
        template_json: "{}".to_string(),
        rrule: "FREQ=MONTHLY".to_string(),
        next_run_at: 100,
        is_active: None,
    };
    let r = rule_from_input(input, "r".to_string(), 9);
    assert!(r.is_active);
    assert_eq!(r.last_run_at, None);
    assert_eq!(r.updated_at, 9);
    let off = prepare_rule(RecurringInput {
        id: Some("r2".to_string()),
        household_id: "h".to_string(),
        template_json: "{}".to_string(),
        rrule: "".to_string(),
        next_run_at: 0,
        is_active: Some(false),
    });
    assert!(!off.is_active);
    assert_eq!(off.id, "r2");
}

fn budget(period: &str, rolling: bool, start: i64) -> Budget {
    Budget {
        id: "b".to_string(),
        household_id: "h".to_string(),
        category_id: "c".to_string(),
        period: period.to_string(),
        limit_minor: 100,
        currency: "RUB".to_string(),
        start_date: start,
        is_rolling: rolling,
        updated_at: 0,
        is_deleted: false,
    }
}

const DAY: i64 = 86_400_000;

#[test]
fn budget_input_is_checked() {
    let input = |p: &str| BudgetInput {
        id: None,
        household_id: "h".to_string(),
        category_id: "c".to_string(),
        period: p.to_string(),
        limit_minor: 5,
        currency: None,
        start_date: 0,
        is_rolling: None,
    };
    let b = budget_from_input(input("WEEK"), "b".to_string(), 3).unwrap();
    assert_eq!(b.currency, "RUB");
    assert!(!b.is_rolling);
    match prepare_budget(input("DAY")) {
        Err(AppError::InvalidArg(m)) => assert_eq!(m, "invalid period: DAY"),
        other => panic!("unexpected {:?}", other),
    }
}

#[test]
fn calendar_periods() {
    // 2024-03-15 12:00 UTC, a Friday.
    let now = 1_710_504_000_000;
    let week = period_bounds(&budget("WEEK", false, 0), now);
    assert_eq!(week, (1_710_115_200_000, 1_710_115_200_000 + 7 * DAY));
    let month = period_bounds(&budget("MONTH", false, 0), now);
    assert_eq!(month, (1_709_251_200_000, 1_711_929_600_000));
    let year = period_bounds(&budget("YEAR", false, 0), now);
    assert_eq!(year, (1_704_067_200_000, 1_735_689_600_000));
    let december = period_bounds(&budget("MONTH", false, 0), 1_734_220_800_000);
    assert_eq!(december, (1_733_011_200_000, 1_735_689_600_000));
}

#[test]
fn rolling_and_unknown_periods_end_now() {
    let now = 1_710_504_000_000;
    assert_eq!(period_bounds(&budget("WEEK", true, 0), now), (now - 7 * DAY, now));
    assert_eq!(period_bounds(&budget("YEAR", true, 0), now), (now - 365 * DAY, now));
    assert_eq!(period_bounds(&budget("DAY", false, 0), now), (now - 30 * DAY, now));
    assert_eq!(period_bounds_at(&budget("MONTH", true, 0), now, 0), (now - 30 * DAY, now));
}

#[test]
fn reports_combine_totals() {
    let s = ReportSummary::from_totals(10_000, 2_500);
    assert_eq!(
        s,
        ReportSummary { total_income_minor: 10_000, total_expense_minor: 2_500, balance_minor: 7_500 }
    );
    assert_eq!(ReportSummary::from_totals(0, 3).balance_minor, -3);
    assert_eq!(top_categories_limit(None), 20);
    assert_eq!(top_categories_limit(Some(5)), 5);
}

#[test]
fn session_pairs_user_and_household() {
    let s = SessionInfo::from_ids(("u".to_string(), "h".to_string()));
    assert_eq!((s.user_id.as_str(), s.household_id.as_str()), ("u", "h"));
}

#[test]
fn new_identifiers_are_v4_uuids() {
    let a = prepare_account(account_input("CASH")).unwrap();
    let chars: Vec<char> = a.id.chars().collect();
    assert_eq!(chars.len(), 36);
    for (i, c) in chars.iter().enumerate() {
        if [8, 13, 18, 23].contains(&i) {
            assert_eq!(*c, '-');
        } else {
            assert!(c.is_ascii_hexdigit() && !c.is_ascii_uppercase());
        }
    }
    assert_eq!(chars[14], '4');
    assert!(['8', '9', 'a', 'b'].contains(&chars[19]));
    let b = prepare_account(account_input("CASH")).unwrap();
    assert_ne!(a.id, b.id);
}

#[test]
fn clock_reads_the_current_time() {
    let now = homebuhg::repository::now_ms();
    assert!(now > 1_600_000_000_000);
    // An instant without a calendar date falls back to the current month.
    let (start, end) = period_bounds(&budget("MONTH", false, 0), i64::MAX);
    assert!(start <= now && now < end + 60_000);
    assert!(end - start >= 28 * DAY && end - start <= 31 * DAY);
}

#[test]
fn clock_readings_become_milliseconds() {
    check_readings();
}

fn check_readings() {
    assert_eq!(homebuhg::repository::millis_or_zero(None), 0);
    assert_eq!(homebuhg::repository::millis_or_zero(Some(1_700_000_000_123)), 1_700_000_000_123);
    assert_eq!(homebuhg::repository::millis_or_zero(Some(1u128 << 64)), 0);
}
