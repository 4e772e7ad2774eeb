use homebuhg::commands::export::{
    build_account_map, build_category_map, csv_document, export_header_row, export_row,
    export_rows, export_transactions_csv, export_transactions_xlsx, format_amount,
    format_occurred_at, transactions_sheet, ImportResult,
};
use homebuhg::error::AppError;
use homebuhg::models::account::Account;
use homebuhg::models::category::Category;
use homebuhg::models::transaction::Transaction;

fn account(id: &str, name: &str) -> Account {
    Account {
        id: id.to_string(),
        household_id: "h1".to_string(),
        name: name.to_string(),
        account_type: "CARD".to_string(),
        currency: "RUB".to_string(),
        balance_minor: 0,
        credit_limit_minor: None,
        grace_period_days: None,
        payment_due_day: None,
        color: 0,
        icon_key: "card".to_string(),
        is_archived: false,
        updated_at: 0,
    }
}

fn category(id: &str, name: &str) -> Category {
    Category {
        id: id.to_string(),
        household_id: "h1".to_string(),
        name: name.to_string(),
        category_type: "EXPENSE".to_string(),
        parent_id: None,
        color: 0,
        icon_key: "x".to_string(),
        sort_order: 0,
        updated_at: 0,
        is_deleted: false,
    }
}

fn operation(account_id: &str, category_id: Option<&str>, note: Option<&str>, amount: i64) -> Transaction {
    Transaction {
        id: "t1".to_string(),
        household_id: "h1".to_string(),
        occurred_at: 0,
        tx_type: "EXPENSE".to_string(),
        amount_minor: amount,
        currency: "RUB".to_string(),
        account_id: account_id.to_string(),
        to_account_id: None,
        category_id: category_id.map(|s| s.to_string()),
        merchant_id: None,
        note: note.map(|s| s.to_string()),
        created_by: "local".to_string(),
        created_at: 0,
        updated_at: 0,
        source_type: "MANUAL".to_string(),
        receipt_id: None,
        is_deleted: false,
    }
}

#[test]
fn amount_is_plain_decimal() {
    assert_eq!(format_amount(0), "0.00");
    assert_eq!(format_amount(5), "0.05");
    assert_eq!(format_amount(123456), "1234.56");
    assert_eq!(format_amount(-123456), "-1234.56");
    assert_eq!(format_amount(i64::MIN), "-92233720368547758.08");
}

#[test]
fn instant_is_utc_minute_or_raw_count() {
    assert_eq!(format_occurred_at(0), "1970-01-01 00:00");
    assert_eq!(format_occurred_at(1_700_000_000_000), "2023-11-14 22:13");
    assert_eq!(format_occurred_at(-60_000), "1969-12-31 23:59");
    assert_eq!(format_occurred_at(i64::MAX), "9223372036854775807");
    assert_eq!(format_occurred_at(i64::MIN), "-9223372036854775808");
}

#[test]
fn later_account_with_same_id_wins() {
    let accs = vec![account("a1", "Old"), account("a2", "Cash"), account("a1", "Card")];
    let m = build_account_map(&accs);
    assert_eq!(m.get("a1").map(|s| s.as_str()), Some("Card"));
    assert_eq!(m.get("a2").map(|s| s.as_str()), Some("Cash"));
    assert_eq!(m.get("a3"), None);
    let cats = vec![category("c1", "Food")];
    let cm = build_category_map(&cats);
    assert_eq!(cm.get("c1").map(|s| s.as_str()), Some("Food"));
    assert_eq!(cm.get(""), None);
}

#[test]
fn header_has_eight_titles() {
    let h = export_header_row();
    assert_eq!(
        h,
        vec!["Дата", "Тип", "Сумма", "Валюта", "Счёт", "Категория", "Заметка", "Источник"]
    );
}

#[test]
fn row_shows_names_where_known() {
    let accs = build_account_map(&[account("a1", "Card")]);
    let cats = build_category_map(&[category("c1", "Food")]);
    let known = export_row(&operation("a1", Some("c1"), Some("lunch"), 1234), &accs, &cats);
    assert_eq!(
        known,
        vec!["1970-01-01 00:00", "EXPENSE", "12.34", "RUB", "Card", "Food", "lunch", "MANUAL"]
    );
    let unknown = export_row(&operation("zz", Some("c9"), None, 5), &accs, &cats);
    assert_eq!(
        unknown,
        vec!["1970-01-01 00:00", "EXPENSE", "0.05", "RUB", "zz", "", "", "MANUAL"]
    );
    let uncategorised = export_row(&operation("a1", None, None, 100), &accs, &cats);
    assert_eq!(uncategorised[5], "");
}

#[test]
fn csv_file_has_bom_header_and_rows() {
    let rows = vec![vec![
        "1970-01-01 00:00".to_string(),
        "EXPENSE".to_string(),
        "12.34".to_string(),
        "RUB".to_string(),
        "Card".to_string(),
        "Food".to_string(),
        "a,b".to_string(),
        "MANUAL".to_string(),
    ]];
    let bytes = csv_document(&rows).unwrap();
    let mut expected = vec![0xEFu8, 0xBB, 0xBF];
    expected.extend_from_slice(
        "Дата,Тип,Сумма,Валюта,Счёт,Категория,Заметка,Источник\n1970-01-01 00:00,EXPENSE,12.34,RUB,Card,Food,\"a,b\",MANUAL\n"
            .as_bytes(),
    );
    assert_eq!(bytes, expected);
}

#[test]
fn csv_export_of_operations() {
    let txs = vec![operation("a1", Some("c1"), None, -250)];
    let bytes = export_transactions_csv(&txs, &[account("a1", "Card")], &[category("c1", "Food")]).unwrap();
    let text = String::from_utf8(bytes[3..].to_vec()).unwrap();
    assert_eq!(&bytes[..3], &[0xEF, 0xBB, 0xBF]);
    assert_eq!(
        text,
        "Дата,Тип,Сумма,Валюта,Счёт,Категория,Заметка,Источник\n1970-01-01 00:00,EXPENSE,-2.50,RUB,Card,Food,,MANUAL\n"
    );
}

#[test]
fn rows_follow_operations() {
    let txs = vec![operation("a1", None, None, 1), operation("a2", None, None, 2)];
    let rows = export_rows(&txs, &[account("a2", "Cash")], &[]);
    assert_eq!(rows.len(), 2);
    assert_eq!(rows[0][4], "a1");
    assert_eq!(rows[1][4], "Cash");
    assert_eq!(rows[1][2], "0.02");
}

#[test]
fn sheet_refuses_overlong_text() {
    let long = "x".repeat(40_000);
    let rows = vec![vec![
        long,
        String::new(),
        String::new(),
        String::new(),
        String::new(),
        String::new(),
        String::new(),
        String::new(),
    ]];
    match transactions_sheet(&rows) {
        Err(AppError::Xlsx(_)) => {}
        _ => panic!("expected an xlsx error"),
    }
    let fits = vec![vec![String::from("ok"); 8]];
    assert!(transactions_sheet(&fits).is_ok());
}

#[test]
fn xlsx_export_is_a_zip_file() {
    let txs = vec![operation("a1", Some("c1"), Some("n"), 100)];
    let bytes = export_transactions_xlsx(&txs, &[account("a1", "Card")], &[category("c1", "Food")]).unwrap();
    assert_eq!(&bytes[..4], &[0x50, 0x4B, 0x03, 0x04]);
}

#[test]
fn import_tally_counts_each_kind() {
    let r = ImportResult::counted(3, 2, 1, 0);
    assert_eq!(
        r,
        ImportResult { transactions: 3, accounts: 2, categories: 1, budgets: 0 }
    );
}

#[test]
fn shown_and_exported_amounts_agree() {
    compare_amount(-123456789);
    compare_amount(5);
    compare_amount(100000);
}

fn compare_amount(minor: i64) {
    let shown = homebuhg::models::money::format_minor_with_symbol(minor, "");
    let stripped: String = shown.chars().filter(|c| *c != '\u{00A0}').collect();
    assert_eq!(stripped, format_amount(minor).replace('.', ","));
}

#[test]
fn csv_refuses_a_row_of_another_length() {
    let rows = vec![vec!["a".to_string(); 8], vec!["b".to_string(); 3]];
    match csv_document(&rows) {
        Err(AppError::Csv(_)) => {}
        other => panic!("unexpected {:?}", other),
    }
    assert!(csv_document(&vec![]).is_ok());
}
