use homebuhg::commands::operations::{
    list_window, plan_operation_delete, plan_operation_upsert, validate_transaction_input,
    ReceiptItemInput, TransactionInput,
};
use homebuhg::domain::session::{new_local_session, resume_session, start_session, started_ids, SessionStart};
use homebuhg::error::AppError;
use homebuhg::models::transaction::Transaction;

fn input(tx_type: &str, amount: i64) -> TransactionInput {
    TransactionInput {
        id: None,
        household_id: "h".to_string(),
        occurred_at: 77,
        tx_type: tx_type.to_string(),
        amount_minor: amount,
        currency: None,
        account_id: "a".to_string(),
        to_account_id: None,
        category_id: None,
        merchant_id: None,
        note: None,
        created_by: None,
        items: Some(vec![ReceiptItemInput {
            id: None,
            name: " Milk ".to_string(),
            price_minor: 99,
            qty_bits: 2.0f64.to_bits(),
            unit: Some("  ".to_string()),
        }]),
    }
}

fn stored(tx_type: &str, amount: i64, deleted: bool) -> Transaction {
    Transaction {
        id: "t".to_string(),
        household_id: "h".to_string(),
        occurred_at: 1,
        tx_type: tx_type.to_string(),
        amount_minor: amount,
        currency: "RUB".to_string(),
        account_id: "old".to_string(),
        to_account_id: None,
        category_id: None,
        merchant_id: None,
        note: None,
        created_by: "local".to_string(),
        created_at: 11,
        updated_at: 11,
        source_type: "MANUAL".to_string(),
        receipt_id: None,
        is_deleted: deleted,
    }
}

#[test]
fn input_is_validated() {
    match validate_transaction_input(&input("LOAN", 1)) {
        Err(AppError::InvalidArg(m)) => assert_eq!(m, "invalid transaction type: LOAN"),
        other => panic!("unexpected {:?}", other),
    }
    match validate_transaction_input(&input("INCOME", -1)) {
        Err(AppError::InvalidArg(m)) => assert_eq!(m, "amount must be >= 0"),
        other => panic!("unexpected {:?}", other),
    }
    assert!(validate_transaction_input(&input("EXPENSE", 0)).is_ok());
}

#[test]
fn new_operation_plan() {
    let plan = plan_operation_upsert(input("EXPENSE", 300), "t".to_string(), 500, None).unwrap();
    assert_eq!(plan.transaction.currency, "RUB");
    assert_eq!(plan.transaction.created_by, "local");
    assert_eq!(plan.transaction.created_at, 500);
    assert_eq!(plan.transaction.updated_at, 500);
    assert_eq!(plan.transaction.source_type, "MANUAL");
    assert!(plan.revert_prev.is_empty());
    let adj = plan.apply_new.unwrap();
    assert_eq!(adj.len(), 1);
    assert_eq!((adj[0].account_id.as_str(), adj[0].delta_minor), ("a", -300));
    assert_eq!(plan.items.len(), 1);
    assert_eq!(plan.items[0].name, "Milk");
    assert_eq!(plan.items[0].unit, None);
    assert_eq!(plan.items[0].transaction_id, "t");
    assert_eq!(plan.items[0].id.chars().count(), 36);
}

#[test]
fn edit_reverts_the_previous_operation() {
    let plan = plan_operation_upsert(input("INCOME", 50), "t".to_string(), 600, Some(stored("EXPENSE", 20, false))).unwrap();
    assert_eq!(plan.transaction.created_at, 11);
    assert_eq!(plan.revert_prev.len(), 1);
    assert_eq!((plan.revert_prev[0].account_id.as_str(), plan.revert_prev[0].delta_minor), ("old", 20));
    let deleted = plan_operation_upsert(input("INCOME", 50), "t".to_string(), 600, Some(stored("EXPENSE", 20, true))).unwrap();
    assert!(deleted.revert_prev.is_empty());
    match plan_operation_upsert(input("INCOME", 50), "t".to_string(), 600, Some(stored("ODD", 20, false))) {
        Err(AppError::InvalidArg(m)) => assert_eq!(m, "unknown type: ODD"),
        other => panic!("unexpected {:?}", other.map(|_| ())),
    }
}

#[test]
fn transfer_without_destination_fails_only_when_applied() {
    let plan = plan_operation_upsert(input("TRANSFER", 5), "t".to_string(), 1, None).unwrap();
    match plan.apply_new {
        Err(AppError::InvalidArg(m)) => assert_eq!(m, "transfer needs toAccountId"),
        other => panic!("unexpected {:?}", other),
    }
}

#[test]
fn delete_plans() {
    match plan_operation_delete("x", None) {
        Err(AppError::NotFound(m)) => assert_eq!(m, "x"),
        other => panic!("unexpected {:?}", other),
    }
    assert!(plan_operation_delete("t", Some(stored("EXPENSE", 5, true))).unwrap().is_empty());
    let undo = plan_operation_delete("t", Some(stored("EXPENSE", 5, false))).unwrap();
    assert_eq!((undo[0].account_id.as_str(), undo[0].delta_minor), ("old", 5));
}

#[test]
fn listing_window_defaults() {
    assert_eq!(list_window(None, None), (500, 0));
    assert_eq!(list_window(Some(10), Some(20)), (10, 20));
}

#[test]
fn fresh_installation_records() {
    let s = new_local_session(1000);
    assert_eq!(s.user.uid, "local");
    assert_eq!(s.household.owner_uid, "local");
    assert_eq!(s.household.base_currency, "RUB");
    assert_eq!(s.member.role, "OWNER");
    assert_eq!(s.member.joined_at, 1000);
    assert_eq!(s.categories.len(), 13);
    assert_eq!(s.categories[0].name, "Продукты");
    assert_eq!(s.categories[0].category_type, "EXPENSE");
    assert_eq!(s.categories[8].name, "Прочее");
    assert_eq!(s.categories[9].name, "Зарплата");
    assert_eq!(s.categories[9].category_type, "INCOME");
    assert_eq!(s.categories[9].sort_order, 0);
    assert_eq!(s.categories[12].sort_order, 3);
    assert!(s.categories.iter().all(|c| c.household_id == s.household.id));
}

#[test]
fn resumed_session_defaults_to_local_user() {
    assert_eq!(resume_session("h".to_string(), None), ("local".to_string(), "h".to_string()));
    assert_eq!(resume_session("h".to_string(), Some("u".to_string())), ("u".to_string(), "h".to_string()));
}

#[test]
fn second_start_resumes_the_first() {

    let first = start_session(None, 5);
    let (uid, hid) = started_ids(&first);
    let owner = match &first {
        SessionStart::Create(s) => s.household.owner_uid.clone(),
        SessionStart::Resume(_, _) => panic!("expected a fresh installation"),
    };
    let second = start_session(Some((hid.clone(), Some(owner))), 9);
    assert!(matches!(second, SessionStart::Resume(_, _)));
    assert_eq!(started_ids(&second), (uid, hid));
}
