use homebuhg::error::AppError;
use homebuhg::models::account::Account;
use homebuhg::models::budget::Budget;
use homebuhg::models::category::Category;
use homebuhg::models::transaction::Transaction;
use homebuhg::sync::fields::{Fields, FsValue};
use homebuhg::sync::firestore::{
    batch_write_url, batches, doc_name, extract_error, response_error, run_query_url, WriteOp,
};
use homebuhg::sync::mapper::{
    account_to_fields, budget_to_fields, category_to_fields, fields_to_account, fields_to_budget,
    fields_to_category, fields_to_transaction, transaction_to_fields,
};
use homebuhg::sync::sync_service::{decode_transactions, tally, transaction_writes, upload_plan};

fn sample_tx() -> Transaction {
    Transaction {
        id: "t1".to_string(),
        household_id: "h1".to_string(),
        occurred_at: -5,
        tx_type: "TRANSFER".to_string(),
        amount_minor: 9_000,
        currency: "USD".to_string(),
        account_id: "a1".to_string(),
        to_account_id: Some("a2".to_string()),
        category_id: None,
        merchant_id: Some("m".to_string()),
        note: Some("".to_string()),
        created_by: "u".to_string(),
        created_at: 10,
        updated_at: i64::MAX,
        source_type: "SMS".to_string(),
        receipt_id: None,
        is_deleted: true,
    }
}

fn text(s: &str) -> FsValue {
    FsValue { string_value: Some(s.to_string()), integer_value: None, boolean_value: None, is_null: false }
}

#[test]
fn operation_survives_a_round_trip() {
    let t = sample_tx();
    let back = fields_to_transaction(&transaction_to_fields(&t)).unwrap();
    assert_eq!(format!("{:?}", back), format!("{:?}", t));
}

#[test]
fn records_survive_a_round_trip() {
    let a = Account {
        id: "a".to_string(),
        household_id: "h".to_string(),
        name: "Card".to_string(),
        account_type: "CARD".to_string(),
        currency: "RUB".to_string(),
        balance_minor: -3,
        credit_limit_minor: Some(100),
        grace_period_days: Some(-2),
        payment_due_day: None,
        color: 0xFF00FF,
        icon_key: "i".to_string(),
        is_archived: true,
        updated_at: 7,
    };
    assert_eq!(format!("{:?}", fields_to_account(&account_to_fields(&a)).unwrap()), format!("{:?}", a));
    let c = Category {
        id: "c".to_string(),
        household_id: "h".to_string(),
        name: "Food".to_string(),
        category_type: "EXPENSE".to_string(),
        parent_id: Some("p".to_string()),
        color: 1,
        icon_key: "i".to_string(),
        sort_order: -4,
        updated_at: 2,
        is_deleted: false,
    };
    assert_eq!(format!("{:?}", fields_to_category(&category_to_fields(&c)).unwrap()), format!("{:?}", c));
    let b = Budget {
        id: "b".to_string(),
        household_id: "h".to_string(),
        category_id: "c".to_string(),
        period: "YEAR".to_string(),
        limit_minor: 1_000_000,
        currency: "RUB".to_string(),
        start_date: 0,
        is_rolling: true,
        updated_at: 3,
        is_deleted: false,
    };
    assert_eq!(format!("{:?}", fields_to_budget(&budget_to_fields(&b)).unwrap()), format!("{:?}", b));
}

#[test]
fn missing_and_bad_fields_are_reported() {
    let mut f = transaction_to_fields(&sample_tx());
    f.insert("amountMinor".to_string(), text("12"));
    match fields_to_transaction(&f) {
        Err(AppError::InvalidArg(m)) => assert_eq!(m, "missing int field: amountMinor"),
        other => panic!("unexpected {:?}", other),
    }
    f.insert(
        "amountMinor".to_string(),
        FsValue { string_value: None, integer_value: Some("12x".to_string()), boolean_value: None, is_null: false },
    );
    match fields_to_transaction(&f) {
        Err(AppError::InvalidArg(m)) => assert_eq!(m, "bad int field amountMinor: invalid digit found in string"),
        other => panic!("unexpected {:?}", other),
    }
    match fields_to_transaction(&Fields::new()) {
        Err(AppError::InvalidArg(m)) => assert_eq!(m, "missing string field: id"),
        other => panic!("unexpected {:?}", other),
    }
}

#[test]
fn bad_documents_are_set_aside() {
    let good = transaction_to_fields(&sample_tx());
    let (txs, errors) = decode_transactions(&vec![good, Fields::new()]);
    assert_eq!(txs.len(), 1);
    assert_eq!(errors.len(), 1);
}

#[test]
fn document_names_and_endpoints() {
    assert_eq!(
        doc_name("p", "h", "transactions", "t1"),
        "projects/p/databases/(default)/documents/households/h/transactions/t1"
    );
    assert_eq!(
        run_query_url("p", "h"),
        "https://firestore.googleapis.com/v1/projects/p/databases/(default)/documents/households/h:runQuery"
    );
    assert_eq!(
        batch_write_url("p"),
        "https://firestore.googleapis.com/v1/projects/p/databases/(default)/documents:batchWrite"
    );
    let w = transaction_writes("p", "h", &vec![sample_tx()]);
    assert_eq!(w.len(), 1);
    assert_eq!(w[0].name, "projects/p/databases/(default)/documents/households/h/transactions/t1");
}

#[test]
fn writes_go_in_batches_of_four_hundred() {
    let writes: Vec<WriteOp> = (0..901)
        .map(|i| WriteOp { name: format!("n{}", i), fields: Fields::new() })
        .collect();
    let b = batches(writes);
    assert_eq!(b.iter().map(|x| x.len()).collect::<Vec<_>>(), vec![400, 400, 101]);
    assert_eq!(b[2][100].name, "n900");
    assert!(batches(Vec::new()).is_empty());
}

#[test]
fn server_errors_carry_their_message() {
    assert_eq!(extract_error("{\"error\":{\"message\":\"PERMISSION_DENIED\"}}"), "PERMISSION_DENIED");
    assert_eq!(extract_error("plain"), "plain");
    match response_error(401, "x") {
        Some(AppError::Unauthorized(m)) => assert_eq!(m, "token expired"),
        other => panic!("unexpected {:?}", other),
    }
    match response_error(500, "{\"error\":{\"message\":\"boom\"}}") {
        Some(AppError::Firebase(m)) => assert_eq!(m, "boom"),
        other => panic!("unexpected {:?}", other),
    }
    assert!(response_error(200, "").is_none());
}

#[test]
fn counts_add_up() {
    assert_eq!(tally(&vec![]), 0);
    assert_eq!(tally(&vec![3, 0, 4]), 7);
}

#[test]
fn uploads_skip_kinds_without_changes() {
    let b = Budget {
        id: "b1".to_string(),
        household_id: "h".to_string(),
        category_id: "c".to_string(),
        period: "WEEK".to_string(),
        limit_minor: 1,
        currency: "RUB".to_string(),
        start_date: 0,
        is_rolling: false,
        updated_at: 1,
        is_deleted: false,
    };
    let plan = upload_plan("p", "h", &vec![sample_tx(), sample_tx()], &vec![], &vec![], &vec![b]);
    assert_eq!(plan.count, 3);
    assert_eq!(plan.writes.len(), 2);
    assert_eq!(plan.writes[0].len(), 2);
    assert_eq!(plan.writes[1][0].name, "projects/p/databases/(default)/documents/households/h/budgets/b1");
    let none = upload_plan("p", "h", &vec![], &vec![], &vec![], &vec![]);
    assert_eq!(none.count, 0);
    assert!(none.writes.is_empty());
}

#[test]
fn query_responses_yield_their_documents() {
    let body = r#"[{"document":{"fields":{"id":{"stringValue":"a"},"n":{"integerValue":"5"},"x":{"nullValue":null},"b":{"booleanValue":true}}}},{"readTime":"t"},{"document":{"name":"d"}}]"#;
    let docs = homebuhg::sync::firestore::query_documents(body).unwrap();
    assert_eq!(docs.len(), 1);
    let f = &docs[0];
    assert_eq!(f.get("id").unwrap().string_value.as_deref(), Some("a"));
    assert_eq!(f.get("n").unwrap().integer_value.as_deref(), Some("5"));
    assert!(f.get("x").unwrap().is_null);
    assert_eq!(f.get("b").unwrap().boolean_value, Some(true));
    assert!(homebuhg::sync::firestore::query_documents("[]").unwrap().is_empty());
    match homebuhg::sync::firestore::query_documents("{\"a\":1}") {
        Err(AppError::Serde(_)) => {}
        other => panic!("unexpected {:?}", other),
    }
}

#[test]
fn newer_version_wins_on_both_sides() {
    compare_versions();
}

fn stamped(id: &str, updated_at: i64) -> Transaction {
    let mut t = sample_tx();
    t.id = id.to_string();
    t.updated_at = updated_at;
    t
}

fn compare_versions() {
    let local = vec![stamped("a", 10), stamped("b", 30), stamped("c", 5), stamped("d", 7)];
    let server = vec![stamped("a", 20), stamped("b", 25), stamped("d", 7), stamped("e", 1)];
    let ids = |v: Vec<Transaction>| v.into_iter().map(|t| t.id).collect::<Vec<_>>();
    assert_eq!(ids(homebuhg::sync::merge::keep_newer(local.clone(), &server)), vec!["b", "c"]);
    assert_eq!(ids(homebuhg::sync::merge::keep_newer(server, &local)), vec!["a", "e"]);
}
