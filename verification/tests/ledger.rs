use std::collections::HashMap;

use homebuhg::domain::balance::{apply, apply_new, revert, BalanceAdjustment};
use homebuhg::error::AppError;
use homebuhg::models::transaction::Transaction;

fn op(tx_type: &str, amount: i64, to: Option<&str>) -> Transaction {
    Transaction {
        id: "t".to_string(),
        household_id: "h".to_string(),
        occurred_at: 0,
        tx_type: tx_type.to_string(),
        amount_minor: amount,
        currency: "RUB".to_string(),
        account_id: "from".to_string(),
        to_account_id: to.map(|s| s.to_string()),
        category_id: None,
        merchant_id: None,
        note: None,
        created_by: "local".to_string(),
        created_at: 0,
        updated_at: 0,
        source_type: "MANUAL".to_string(),
        receipt_id: None,
        is_deleted: false,
    }
}

fn pairs(v: Vec<BalanceAdjustment>) -> Vec<(String, i64)> {
    v.into_iter().map(|a| (a.account_id, a.delta_minor)).collect()
}

#[test]
fn income_credits_expense_debits() {
    assert_eq!(pairs(apply_new(&op("INCOME", 500, None)).unwrap()), vec![("from".to_string(), 500)]);
    assert_eq!(pairs(apply_new(&op("EXPENSE", 500, None)).unwrap()), vec![("from".to_string(), -500)]);
}

#[test]
fn transfer_moves_between_accounts() {
    assert_eq!(
        pairs(apply_new(&op("TRANSFER", 700, Some("to"))).unwrap()),
        vec![("from".to_string(), -700), ("to".to_string(), 700)]
    );
}

#[test]
fn revert_negates_each_change() {
    let t = op("TRANSFER", 700, Some("to"));
    let fwd = pairs(apply_new(&t).unwrap());
    let back = pairs(revert(&t).unwrap());
    assert_eq!(fwd.len(), back.len());
    for (a, b) in fwd.iter().zip(back.iter()) {
        assert_eq!(a.0, b.0);
        assert_eq!(a.1, -b.1);
    }
    assert_eq!(pairs(apply(&t, 3).unwrap()), vec![("from".to_string(), -2100), ("to".to_string(), 2100)]);
}

#[test]
fn refuses_transfer_without_destination_and_unknown_type() {
    match apply_new(&op("TRANSFER", 1, None)) {
        Err(AppError::InvalidArg(m)) => assert_eq!(m, "transfer needs toAccountId"),
        _ => panic!("expected refusal"),
    }
    match revert(&op("GIFT", 1, None)) {
        Err(AppError::InvalidArg(m)) => assert_eq!(m, "unknown type: GIFT"),
        _ => panic!("expected refusal"),
    }
}

#[test]
fn apply_then_revert_restores_balances() {
    let mut balances: HashMap<String, i64> = HashMap::new();
    balances.insert("from".to_string(), 1_000);
    balances.insert("to".to_string(), -50);
    let before = balances.clone();
    let t = op("TRANSFER", 300, Some("to"));
    for a in apply_new(&t).unwrap().into_iter().chain(revert(&t).unwrap()) {
        if let Some(b) = balances.get_mut(&a.account_id) {
            *b += a.delta_minor;
        }
    }
    assert_eq!(balances, before);
}

#[test]
fn only_incomes_and_expenses_change_the_total() {
    let total = |t: &Transaction| -> i64 { apply_new(t).unwrap().iter().map(|a| a.delta_minor).sum() };
    assert_eq!(total(&op("INCOME", 40, None)), 40);
    assert_eq!(total(&op("EXPENSE", 40, None)), -40);
    assert_eq!(total(&op("TRANSFER", 40, Some("to"))), 0);
}
