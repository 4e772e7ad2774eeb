//! Export of operations as a table (CSV and Excel) and the tally of a backup import.
//!
//! Every exported row has eight columns: date, type, amount, currency, account,
//! category, note and source. Accounts and categories are shown by name where
//! the household has a record with that id.

use vstd::prelude::*;
use crate::calendar::{utc_minute_stamp, utc_minute_text};
use crate::error::AppError;
use crate::models::account::Account;
use crate::models::category::Category;
use crate::models::money::{abs_int, money_text, two_digits};
use crate::models::transaction::{Transaction, TransactionV};
use crate::text::{
    decimal, digit, i64_to_string, int_decimal, is_ascii_digit, lemma_decimal_digits,
    lemma_digit_char_value, lemma_grouped_without_nbsp, nbsp, push_char, push_decimal, without_nbsp,
};

verus! {

/// How many records of each kind a backup import wrote.
#[derive(Debug, Clone, Copy, PartialEq, Eq, Structural)]
pub struct ImportResult {
    pub transactions: u32,
    pub accounts: u32,
    pub categories: u32,
    pub budgets: u32,
}

impl ImportResult {
    /// The tally of an import that wrote the given numbers of records.
    pub fn counted(transactions: usize, accounts: usize, categories: usize, budgets: usize) -> (r:
        ImportResult)
        requires
            transactions <= u32::MAX,
            accounts <= u32::MAX,
            categories <= u32::MAX,
            budgets <= u32::MAX,
        ensures
            r.transactions == transactions,
            r.accounts == accounts,
            r.categories == categories,
            r.budgets == budgets,
    {
        ImportResult {
            transactions: transactions as u32,
            accounts: accounts as u32,
            categories: categories as u32,
            budgets: budgets as u32,
        }
    }
}

/// An amount in minor units as plain decimal text: an optional minus sign,
/// the whole units, a dot and two minor digits ("-1234.05").
pub open spec fn amount_text(minor: int) -> Seq<char> {
    let a = abs_int(minor);
    (if minor < 0 {
        seq!['-']
    } else {
        seq![]
    }) + decimal((a / 100) as nat) + seq!['.'] + two_digits(a % 100)
}

/// The instant of an operation as "YYYY-MM-DD HH:MM" in UTC, or its raw
/// millisecond count where the calendar cannot represent it.
pub open spec fn occurred_text(ms: int) -> Seq<char> {
    match utc_minute_text(ms) {
        Some(t) => t,
        None => int_decimal(ms),
    }
}

/// The text with its decimal dot written as a comma.
pub open spec fn with_decimal_comma(s: Seq<char>) -> Seq<char> {
    s.map_values(|c: char| if c == '.' { ',' } else { c })
}

/// The amount an export writes and the amount the application shows carry
/// the same figures: leaving out the thousands separators and the space
/// before the currency, the shown text without a currency symbol is the
/// exported text with a decimal comma.
pub proof fn law_shown_amount_matches_export(minor: int)
    ensures
        without_nbsp(money_text(minor, Seq::empty())) == with_decimal_comma(amount_text(minor)),
{
    let a = abs_int(minor);
    let d = decimal((a / 100) as nat);
    let sign: Seq<char> = if minor < 0 {
        seq!['-']
    } else {
        seq![]
    };
    let tt = two_digits(a % 100);
    lemma_decimal_digits((a / 100) as nat);
    lemma_digit_char_value((a % 100) / 10);
    lemma_digit_char_value((a % 100) % 10);
    assert forall|i: int| 0 <= i < d.len() implies d[i] != nbsp() && d[i] != '.' by {
        assert(is_ascii_digit(d[i]));
    }
    lemma_grouped_without_nbsp(d);
    let shown = sign + crate::text::grouped(d) + seq![','] + tt + seq![nbsp()];
    assert(money_text(minor, Seq::empty()) =~= shown);
    lemma_without_nbsp_concat5(sign, crate::text::grouped(d), seq![','], tt, seq![nbsp()]);
    assert(with_decimal_comma(amount_text(minor)) =~= sign + d + seq![','] + tt);
}

proof fn lemma_without_nbsp_concat5(
    a: Seq<char>,
    b: Seq<char>,
    c: Seq<char>,
    d: Seq<char>,
    e: Seq<char>,
)
    requires
        forall|i: int| 0 <= i < a.len() ==> a[i] != nbsp(),
        forall|i: int| 0 <= i < c.len() ==> c[i] != nbsp(),
        forall|i: int| 0 <= i < d.len() ==> d[i] != nbsp(),
        forall|i: int| 0 <= i < e.len() ==> e[i] == nbsp(),
    ensures
        without_nbsp(a + b + c + d + e) == a + without_nbsp(b) + c + d,
{
    crate::text::lemma_without_nbsp_add(a + b + c + d, e);
    crate::text::lemma_without_nbsp_add(a + b + c, d);
    crate::text::lemma_without_nbsp_add(a + b, c);
    crate::text::lemma_without_nbsp_add(a, b);
    crate::text::lemma_without_nbsp_plain(a);
    crate::text::lemma_without_nbsp_plain(c);
    crate::text::lemma_without_nbsp_plain(d);
    crate::text::lemma_without_nbsp_spaces(e);
    assert(a + without_nbsp(b) + c + d + Seq::<char>::empty() =~= a + without_nbsp(b) + c + d);
}

/// Renders an amount in minor units for a spreadsheet cell.
pub fn format_amount(minor: i64) -> (s: String)
    ensures
        s@ == amount_text(minor as int),
{
    let abs: u64 = if minor < 0 {
        (0i128 - minor as i128) as u64
    } else {
        minor as u64
    };
    let mut out = String::new();
    if minor < 0 {
        push_char(&mut out, '-');
    }
    push_decimal(&mut out, abs / 100);
    push_char(&mut out, '.');
    let kop = abs % 100;
    push_char(&mut out, digit(kop / 10));
    push_char(&mut out, digit(kop % 10));
    proof {
        assert(abs as int == abs_int(minor as int));
        assert(out@ =~= amount_text(minor as int));
    }
    out
}

/// Renders the instant of an operation for a spreadsheet cell.
pub fn format_occurred_at(ms: i64) -> (s: String)
    ensures
        s@ == occurred_text(ms as int),
{
    match utc_minute_stamp(ms) {
        Some(t) => t,
        None => i64_to_string(ms),
    }
}

/// Names by id, in insertion order; a later entry for an id replaces an
/// earlier one.
#[derive(Debug, Clone)]
pub struct NameMap {
    pub entries: Vec<(String, String)>,
}

/// The lookup table described by a list of (id, name) entries.
pub open spec fn pairs_map(s: Seq<(String, String)>) -> Map<Seq<char>, Seq<char>>
    decreases s.len(),
{
    if s.len() == 0 {
        Map::empty()
    } else {
        pairs_map(s.drop_last()).insert(s.last().0@, s.last().1@)
    }
}

impl View for NameMap {
    type V = Map<Seq<char>, Seq<char>>;

    open spec fn view(&self) -> Map<Seq<char>, Seq<char>> {
        pairs_map(self.entries@)
    }
}

/// The last entry with a given id decides its name; an id no entry has is absent.
proof fn lemma_pairs_lookup(s: Seq<(String, String)>, k: Seq<char>, i: int)
    requires
        -1 <= i < s.len(),
        i >= 0 ==> s[i].0@ == k,
        forall|j: int| i < j < s.len() ==> s[j].0@ != k,
    ensures
        i >= 0 ==> pairs_map(s).contains_key(k) && pairs_map(s)[k] == s[i].1@,
        i < 0 ==> !pairs_map(s).contains_key(k),
    decreases s.len(),
{
    if s.len() > 0 && i < s.len() - 1 {
        lemma_pairs_lookup(s.drop_last(), k, i);
    }
}

impl NameMap {
    /// The name recorded for `id`, if any.
    pub fn get(&self, id: &str) -> (r: Option<&String>)
        ensures
            r is Some <==> self@.contains_key(id@),
            r matches Some(v) ==> v@ == self@[id@],
    {
        let mut i: usize = self.entries.len();
        while i > 0
            invariant
                i <= self.entries@.len(),
                forall|j: int| i <= j < self.entries@.len() ==> self.entries@[j].0@ != id@,
            decreases i,
        {
            i = i - 1;
            if crate::text::str_eq(self.entries[i].0.as_str(), id) {
                proof {
                    lemma_pairs_lookup(self.entries@, id@, i as int);
                }
                return Some(&self.entries[i].1);
            }
        }
        proof {
            lemma_pairs_lookup(self.entries@, id@, -1);
        }
        None
    }
}

/// Account names by account id; of two accounts with one id the later wins.
pub open spec fn account_names(accs: Seq<Account>) -> Map<Seq<char>, Seq<char>>
    decreases accs.len(),
{
    if accs.len() == 0 {
        Map::empty()
    } else {
        account_names(accs.drop_last()).insert(accs.last().id@, accs.last().name@)
    }
}

/// Category names by category id; of two categories with one id the later wins.
pub open spec fn category_names(cats: Seq<Category>) -> Map<Seq<char>, Seq<char>>
    decreases cats.len(),
{
    if cats.len() == 0 {
        Map::empty()
    } else {
        category_names(cats.drop_last()).insert(cats.last().id@, cats.last().name@)
    }
}

/// Account names by id, for labelling exported rows.
pub fn build_account_map(accs: &[Account]) -> (m: NameMap)
    ensures
        m@ == account_names(accs@),
{
    let mut entries: Vec<(String, String)> = Vec::new();
    let mut i: usize = 0;
    while i < accs.len()
        invariant
            i <= accs@.len(),
            pairs_map(entries@) == account_names(accs@.take(i as int)),
        decreases accs@.len() - i,
    {
        let ghost before = entries@;
        entries.push((accs[i].id.clone(), accs[i].name.clone()));
        proof {
            assert(entries@.drop_last() =~= before);
            assert(accs@.take(i + 1).drop_last() =~= accs@.take(i as int));
        }
        i = i + 1;
    }
    proof {
        assert(accs@.take(accs@.len() as int) =~= accs@);
    }
    NameMap { entries }
}

/// Category names by id, for labelling exported rows.
pub fn build_category_map(cats: &[Category]) -> (m: NameMap)
    ensures
        m@ == category_names(cats@),
{
    let mut entries: Vec<(String, String)> = Vec::new();
    let mut i: usize = 0;
    while i < cats.len()
        invariant
            i <= cats@.len(),
            pairs_map(entries@) == category_names(cats@.take(i as int)),
        decreases cats@.len() - i,
    {
        let ghost before = entries@;
        entries.push((cats[i].id.clone(), cats[i].name.clone()));
        proof {
            assert(entries@.drop_last() =~= before);
            assert(cats@.take(i + 1).drop_last() =~= cats@.take(i as int));
        }
        i = i + 1;
    }
    proof {
        assert(cats@.take(cats@.len() as int) =~= cats@);
    }
    NameMap { entries }
}

/// The texts of a row of strings.
pub open spec fn texts(v: Seq<String>) -> Seq<Seq<char>> {
    v.map_values(|s: String| s@)
}

/// The texts of a table of strings, row by row.
pub open spec fn table_texts(rows: Seq<Vec<String>>) -> Seq<Seq<Seq<char>>> {
    rows.map_values(|r: Vec<String>| texts(r@))
}

/// The column titles of an export.
pub open spec fn export_header() -> Seq<Seq<char>> {
    seq![
        "Дата"@,
        "Тип"@,
        "Сумма"@,
        "Валюта"@,
        "Счёт"@,
        "Категория"@,
        "Заметка"@,
        "Источник"@,
    ]
}

/// The account column: the account's name, or its id where no name is known.
pub open spec fn account_label(names: Map<Seq<char>, Seq<char>>, id: Seq<char>) -> Seq<char> {
    if names.contains_key(id) {
        names[id]
    } else {
        id
    }
}

/// The category column: the category's name, or nothing where the operation
/// has no category or its name is not known.
pub open spec fn category_label(names: Map<Seq<char>, Seq<char>>, id: Option<Seq<char>>) -> Seq<
    char,
> {
    match id {
        Some(c) => if names.contains_key(c) {
            names[c]
        } else {
            Seq::empty()
        },
        None => Seq::empty(),
    }
}

/// The exported cells of one operation.
pub open spec fn export_cells(
    tx: TransactionV,
    accounts: Map<Seq<char>, Seq<char>>,
    categories: Map<Seq<char>, Seq<char>>,
) -> Seq<Seq<char>> {
    seq![
        occurred_text(tx.occurred_at as int),
        tx.tx_type,
        amount_text(tx.amount_minor as int),
        tx.currency,
        account_label(accounts, tx.account_id),
        category_label(categories, tx.category_id),
        match tx.note {
            Some(n) => n,
            None => Seq::empty(),
        },
        tx.source_type,
    ]
}

/// The exported rows of a list of operations, in order.
pub open spec fn export_table(
    txs: Seq<Transaction>,
    accounts: Map<Seq<char>, Seq<char>>,
    categories: Map<Seq<char>, Seq<char>>,
) -> Seq<Seq<Seq<char>>> {
    txs.map_values(|t: Transaction| export_cells(t@, accounts, categories))
}

/// The column titles of an export, as strings.
pub fn export_header_row() -> (h: Vec<String>)
    ensures
        texts(h@) == export_header(),
{
    let mut h: Vec<String> = Vec::new();
    h.push(String::from_str("Дата"));
    h.push(String::from_str("Тип"));
    h.push(String::from_str("Сумма"));
    h.push(String::from_str("Валюта"));
    h.push(String::from_str("Счёт"));
    h.push(String::from_str("Категория"));
    h.push(String::from_str("Заметка"));
    h.push(String::from_str("Источник"));
    assert(texts(h@) =~= export_header());
    h
}

/// The cells of one exported operation.
pub fn export_row(tx: &Transaction, accounts: &NameMap, categories: &NameMap) -> (r: Vec<String>)
    ensures
        texts(r@) == export_cells(tx@, accounts@, categories@),
{
    let date = format_occurred_at(tx.occurred_at);
    let amount = format_amount(tx.amount_minor);
    let account = match accounts.get(tx.account_id.as_str()) {
        Some(n) => n.clone(),
        None => tx.account_id.clone(),
    };
    let category = match &tx.category_id {
        Some(id) => match categories.get(id.as_str()) {
            Some(n) => n.clone(),
            None => String::new(),
        },
        None => String::new(),
    };
    let note = match &tx.note {
        Some(n) => n.clone(),
        None => String::new(),
    };
    let mut r: Vec<String> = Vec::new();
    r.push(date);
    r.push(tx.tx_type.clone());
    r.push(amount);
    r.push(tx.currency.clone());
    r.push(account);
    r.push(category);
    r.push(note);
    r.push(tx.source_type.clone());
    assert(texts(r@) =~= export_cells(tx@, accounts@, categories@));
    r
}

/// The exported rows of a list of operations, labelled with the names of the
/// given accounts and categories.
pub fn export_rows(txs: &[Transaction], accs: &[Account], cats: &[Category]) -> (rows: Vec<
    Vec<String>,
>)
    ensures
        table_texts(rows@) == export_table(txs@, account_names(accs@), category_names(cats@)),
        forall|i: int| 0 <= i < rows@.len() ==> #[trigger] rows@[i]@.len() == 8,
{
    let acc_map = build_account_map(accs);
    let cat_map = build_category_map(cats);
    let mut rows: Vec<Vec<String>> = Vec::new();
    let mut i: usize = 0;
    while i < txs.len()
        invariant
            i <= txs@.len(),
            rows@.len() == i,
            acc_map@ == account_names(accs@),
            cat_map@ == category_names(cats@),
            table_texts(rows@) == export_table(txs@.take(i as int), acc_map@, cat_map@),
            forall|k: int| 0 <= k < rows@.len() ==> #[trigger] rows@[k]@.len() == 8,
        decreases txs@.len() - i,
    {
        let row = export_row(&txs[i], &acc_map, &cat_map);
        let ghost prev = rows@;
        proof {
            assert(texts(row@).len() == row@.len());
        }
        rows.push(row);
        proof {
            assert(rows@ == prev.push(row));
            assert forall|k: int| 0 <= k < rows@.len() implies #[trigger] rows@[k]@.len() == 8 by {
                if k < prev.len() {
                    assert(rows@[k] == prev[k]);
                }
            }
            assert(table_texts(rows@) =~= export_table(txs@.take(i + 1), acc_map@, cat_map@)) by {
                assert(table_texts(prev) == export_table(txs@.take(i as int), acc_map@, cat_map@));
                assert forall|k: int| 0 <= k < i + 1 implies table_texts(rows@)[k] == export_table(
                    txs@.take(i + 1),
                    acc_map@,
                    cat_map@,
                )[k] by {
                    assert(rows@[k] == if k < i { prev[k] } else { row });
                    assert(txs@.take(i + 1)[k] == txs@[k]);
                    if k < i {
                        assert(txs@.take(i as int)[k] == txs@[k]);
                        assert(table_texts(prev)[k] == export_table(
                            txs@.take(i as int),
                            acc_map@,
                            cat_map@,
                        )[k]);
                    }
                }
            }
        }
        i = i + 1;
    }
    proof {
        assert(txs@.take(txs@.len() as int) =~= txs@);
    }
    rows
}

// ─── CSV ─────────────────────────────────────────────────────────────────────

/// A CSV encoder writing into memory, `csv::Writer<Vec<u8>>`, held where
/// Verus does not look (the writer's type is bounded by `std::io::Write`,
/// which Verus cannot declare).
#[verifier::external_body]
pub struct CsvOut {
    inner: csv::Writer<Vec<u8>>,
}

/// The records a CSV writer has accepted so far, in order, each a list of
/// field texts.
pub uninterp spec fn csv_records(w: CsvOut) -> Seq<Seq<Seq<char>>>;

/// Whether a CSV writer holds whole records only: no write into it has failed
/// half-way.
pub uninterp spec fn csv_whole(w: CsvOut) -> bool;

/// The bytes of the CSV document that `csv` writes, with its default settings,
/// for the given records.
pub uninterp spec fn csv_text(records: Seq<Seq<Seq<char>>>) -> Seq<u8>;

/// `WriterBuilder::new().has_headers(true).from_writer(Vec::new())`: a CSV
/// writer into memory that has written nothing yet.
#[verifier::external_body]
fn csv_writer() -> (w: CsvOut)
    ensures
        csv_records(w) == Seq::<Seq<Seq<char>>>::empty(),
        csv_whole(w),
{
    CsvOut { inner: csv::WriterBuilder::new().has_headers(true).from_writer(Vec::new()) }
}

/// `Writer::write_record` with the fields of `record`. The writer writes into
/// memory, a `Vec<u8>` that grows as needed, so on a writer of whole records
/// the only refusal is of a record whose field count differs from that of the
/// first record (`UnequalLengths`); any other record is written and joins
/// those accepted. After an error the writer may hold part of a record, and the
/// error's message is left unstated.
#[verifier::external_body]
fn csv_write_record(w: &mut CsvOut, record: &Vec<String>) -> (r: Result<(), String>)
    ensures
        (r is Ok && csv_whole(*old(w))) ==> csv_whole(*final(w)) && csv_records(*final(w))
            == csv_records(*old(w)).push(texts(record@)),
        csv_whole(*old(w)) ==> (r is Ok <==> (csv_records(*old(w)).len() == 0 || record@.len()
            == csv_records(*old(w))[0].len())),
{
    match w.inner.write_record(record) {
        Ok(()) => Ok(()),
        Err(e) => Err(e.to_string()),
    }
}

/// `Writer::into_inner`: flushes the writer into its `Vec<u8>` and hands the
/// bytes back; for a writer of whole records this succeeds with the CSV
/// document of the records it accepted. The message of a flush error is left
/// unstated.
#[verifier::external_body]
fn csv_finish(w: CsvOut) -> (r: Result<Vec<u8>, String>)
    ensures
        csv_whole(w) ==> r is Ok,
        r matches Ok(b) ==> (csv_whole(w) ==> b@ == csv_text(csv_records(w))),
{
    match w.inner.into_inner() {
        Ok(b) => Ok(b),
        Err(e) => Err(e.to_string()),
    }
}

/// The byte order mark that lets spreadsheet programs read the file as UTF-8.
pub open spec fn utf8_bom() -> Seq<u8> {
    seq![0xEFu8, 0xBBu8, 0xBFu8]
}

/// A CSV file of exported rows: the byte order mark, then the document with
/// the column titles and the rows. It succeeds exactly when every row has the
/// eight fields of the titles; a row of another length is refused as a CSV error.
pub fn csv_document(rows: &Vec<Vec<String>>) -> (r: Result<Vec<u8>, AppError>)
    ensures
        r is Ok <==> (forall|i: int| 0 <= i < rows@.len() ==> #[trigger] rows@[i]@.len() == 8),
        match r {
            Ok(b) => b@ == utf8_bom() + csv_text(seq![export_header()] + table_texts(rows@)),
            Err(e) => e@ is Csv,
        },
{
    let mut w = csv_writer();
    let header = export_header_row();
    match csv_write_record(&mut w, &header) {
        Ok(()) => {},
        Err(m) => {
            return Err(AppError::Csv(m));
        },
    }
    let mut i: usize = 0;
    while i < rows.len()
        invariant
            i <= rows@.len(),
            csv_whole(w),
            csv_records(w) == seq![export_header()] + table_texts(rows@.take(i as int)),
            export_header().len() == 8,
            forall|k: int| 0 <= k < i ==> #[trigger] rows@[k]@.len() == 8,
        decreases rows@.len() - i,
    {
        proof {
            assert(csv_records(w)[0] == export_header());
            assert(texts(rows@[i as int]@).len() == rows@[i as int]@.len());
        }
        match csv_write_record(&mut w, &rows[i]) {
            Ok(()) => {},
            Err(m) => {
                proof {
                    assert(rows@[i as int]@.len() != 8);
                }
                return Err(AppError::Csv(m));
            },
        }
        proof {
            assert(table_texts(rows@.take(i + 1)) =~= table_texts(rows@.take(i as int)).push(
                texts(rows@[i as int]@),
            ));
            assert(seq![export_header()] + table_texts(rows@.take(i + 1)) =~= (seq![export_header()]
                + table_texts(rows@.take(i as int))).push(texts(rows@[i as int]@)));
        }
        i = i + 1;
    }
    proof {
        assert(rows@.take(rows@.len() as int) =~= rows@);
    }
    let body = match csv_finish(w) {
        Ok(b) => b,
        Err(m) => {
            return Err(AppError::Other(m));
        },
    };
    let mut out: Vec<u8> = Vec::new();
    out.push(0xEFu8);
    out.push(0xBBu8);
    out.push(0xBFu8);
    let mut k: usize = 0;
    while k < body.len()
        invariant
            k <= body@.len(),
            out@ == utf8_bom() + body@.take(k as int),
        decreases body@.len() - k,
    {
        out.push(body[k]);
        proof {
            assert(body@.take(k + 1) =~= body@.take(k as int).push(body@[k as int]));
            assert(out@ =~= utf8_bom() + body@.take(k + 1));
        }
        k = k + 1;
    }
    proof {
        assert(body@.take(body@.len() as int) =~= body@);
    }
    Ok(out)
}

/// The CSV export of a list of operations (see [`csv_document`]).
pub fn export_transactions_csv(txs: &[Transaction], accs: &[Account], cats: &[Category]) -> (r:
    Result<Vec<u8>, AppError>)
    ensures
        match r {
            Ok(b) => b@ == utf8_bom() + csv_text(
                seq![export_header()] + export_table(txs@, account_names(accs@), category_names(cats@)),
            ),
            Err(_) => false,
        },
{
    let rows = export_rows(txs, accs, cats);
    csv_document(&rows)
}

// ─── Excel ───────────────────────────────────────────────────────────────────

/// `rust_xlsxwriter::Worksheet`; Verus sees nothing inside it.
#[verifier::external_type_specification]
#[verifier::external_body]
pub struct ExWorksheet(rust_xlsxwriter::Worksheet);

/// The string cells of a worksheet by (row, column): each cell's text and
/// whether it carries the bold format.
pub uninterp spec fn sheet_cells(ws: rust_xlsxwriter::Worksheet) -> Map<(int, int), (Seq<char>, bool)>;

/// The widths set for the columns of a worksheet, in character units.
pub uninterp spec fn sheet_widths(ws: rust_xlsxwriter::Worksheet) -> Map<int, int>;

/// Rows a worksheet can hold.
pub const SHEET_ROWS: u32 = 1_048_576;

/// Columns a worksheet can hold.
pub const SHEET_COLUMNS: u16 = 16_384;

/// The longest text a cell can hold, in UTF-16 code units.
pub const CELL_TEXT_LIMIT: usize = 32_767;

/// The length of a text in UTF-16 code units: characters beyond U+FFFF take two.
pub open spec fn utf16_units(s: Seq<char>) -> nat
    decreases s.len(),
{
    if s.len() == 0 {
        0
    } else {
        utf16_units(s.drop_last()) + if (s.last() as u32) > 0xFFFF {
            2nat
        } else {
            1nat
        }
    }
}

proof fn lemma_utf16_units_bound(s: Seq<char>)
    ensures
        utf16_units(s) <= 2 * s.len(),
    decreases s.len(),
{
    if s.len() > 0 {
        lemma_utf16_units_bound(s.drop_last());
    }
}

/// A worksheet without string cells.
pub open spec fn no_cells() -> Map<(int, int), (Seq<char>, bool)> {
    Map::empty()
}

/// A worksheet without column widths.
pub open spec fn no_widths() -> Map<int, int> {
    Map::empty()
}

/// `Worksheet::new()`: a worksheet without cells or column widths.
#[verifier::external_body]
fn new_sheet() -> (r: rust_xlsxwriter::Worksheet)
    ensures
        sheet_cells(r) == no_cells(),
        sheet_widths(r) == no_widths(),
{
    rust_xlsxwriter::Worksheet::new()
}

/// `Worksheet::write_string(row, col, text)`. An empty text is ignored and
/// succeeds; another is stored when the cell lies within the sheet and the
/// text within the cell limit, and refused otherwise (`RowColumnLimitError`,
/// `MaxStringLengthExceeded`). The error's message is left unstated.
#[verifier::external_body]
fn sheet_write(ws: &mut rust_xlsxwriter::Worksheet, row: u32, col: u16, text: &str) -> (r: Result<
    (),
    String,
>)
    ensures
        r is Ok <==> (text@.len() == 0 || (row < SHEET_ROWS && col < SHEET_COLUMNS && utf16_units(
            text@,
        ) <= CELL_TEXT_LIMIT)),
        sheet_cells(*final(ws)) == if r is Ok && text@.len() > 0 {
            sheet_cells(*old(ws)).insert((row as int, col as int), (text@, false))
        } else {
            sheet_cells(*old(ws))
        },
        sheet_widths(*final(ws)) == sheet_widths(*old(ws)),
{
    match ws.write_string(row, col, text) {
        Ok(_) => Ok(()),
        Err(e) => Err(e.to_string()),
    }
}

/// `Worksheet::write_string_with_format(row, col, text, &Format::new().set_bold())`.
/// The cell is stored, in bold, when it lies within the sheet and the text
/// within the cell limit (an empty text gives a blank bold cell), and refused
/// otherwise. The error's message is left unstated.
#[verifier::external_body]
fn sheet_write_bold(ws: &mut rust_xlsxwriter::Worksheet, row: u32, col: u16, text: &str) -> (r:
    Result<(), String>)
    ensures
        r is Ok <==> (row < SHEET_ROWS && col < SHEET_COLUMNS && utf16_units(text@)
            <= CELL_TEXT_LIMIT),
        sheet_cells(*final(ws)) == if r is Ok {
            sheet_cells(*old(ws)).insert((row as int, col as int), (text@, true))
        } else {
            sheet_cells(*old(ws))
        },
        sheet_widths(*final(ws)) == sheet_widths(*old(ws)),
{
    match ws.write_string_with_format(row, col, text, &rust_xlsxwriter::Format::new().set_bold()) {
        Ok(_) => Ok(()),
        Err(e) => Err(e.to_string()),
    }
}

/// `Worksheet::set_column_width(col, width)` for a width of 1 to 255
/// characters (the widths Excel keeps as given): refused for a column beyond
/// the sheet. The error's message is left unstated.
#[verifier::external_body]
fn sheet_set_width(ws: &mut rust_xlsxwriter::Worksheet, col: u16, width: u16) -> (r: Result<
    (),
    String,
>)
    requires
        1 <= width <= 255,
    ensures
        r is Ok <==> col < SHEET_COLUMNS,
        sheet_widths(*final(ws)) == if r is Ok {
            sheet_widths(*old(ws)).insert(col as int, width as int)
        } else {
            sheet_widths(*old(ws))
        },
        sheet_cells(*final(ws)) == sheet_cells(*old(ws)),
{
    match ws.set_column_width(col, width) {
        Ok(_) => Ok(()),
        Err(e) => Err(e.to_string()),
    }
}

/// The four bytes that open a zip archive ("PK", 3, 4): an xlsx file is one.
pub open spec fn zip_signature() -> Seq<u8> {
    seq![0x50u8, 0x4Bu8, 0x03u8, 0x04u8]
}

/// The string and blank cells of the first worksheet of an xlsx file, as the
/// file describes them: by (row, column), each cell's text and whether its
/// format is bold.
pub uninterp spec fn xlsx_sheet_cells(file: Seq<u8>) -> Map<(int, int), (Seq<char>, bool)>;

/// The worksheet as an xlsx file: `Workbook::new()`, `push_worksheet(ws)`,
/// `save_to_buffer()`. What comes back is an xlsx file, a zip archive opening
/// with the zip signature, whose only worksheet holds the cells of `ws`. Its
/// other bytes are not stated: the file records the time it was made. The
/// crate documents I/O and zip errors for saving, so success is not stated
/// either, nor the error's message.
#[verifier::external_body]
fn workbook_bytes(ws: rust_xlsxwriter::Worksheet) -> (r: Result<Vec<u8>, String>)
    ensures
        r matches Ok(b) ==> b@.len() >= 4 && b@.take(4) == zip_signature(),
        r matches Ok(b) ==> xlsx_sheet_cells(b@) == sheet_cells(ws),
{
    let mut wb = rust_xlsxwriter::Workbook::new();
    wb.push_worksheet(ws);
    match wb.save_to_buffer() {
        Ok(b) => Ok(b),
        Err(e) => Err(e.to_string()),
    }
}

/// Column widths of an export, in characters.
pub open spec fn export_widths() -> Seq<int> {
    seq![20, 12, 14, 10, 20, 20, 30, 12]
}

fn column_width(col: usize) -> (w: u16)
    requires
        col < 8,
    ensures
        w as int == export_widths()[col as int],
        1 <= w <= 255,
{
    if col == 0 {
        20
    } else if col == 1 {
        12
    } else if col == 2 {
        14
    } else if col == 3 {
        10
    } else if col == 4 {
        20
    } else if col == 5 {
        20
    } else if col == 6 {
        30
    } else {
        12
    }
}

/// The column widths of an exported sheet.
pub open spec fn width_layout() -> Map<int, int> {
    Map::new(|c: int| 0 <= c < 8, |c: int| export_widths()[c])
}

/// The cells of an exported sheet: the titles in bold on the first row, then
/// one row per record below it; empty texts leave their cells empty.
pub open spec fn sheet_layout(header: Seq<Seq<char>>, rows: Seq<Seq<Seq<char>>>) -> Map<
    (int, int),
    (Seq<char>, bool),
> {
    Map::new(
        |k: (int, int)|
            (k.0 == 0 && 0 <= k.1 < header.len()) || (1 <= k.0 <= rows.len() && 0 <= k.1 < rows[k.0
                - 1].len() && rows[k.0 - 1][k.1].len() > 0),
        |k: (int, int)|
            if k.0 == 0 {
                (header[k.1], true)
            } else {
                (rows[k.0 - 1][k.1], false)
            },
    )
}

/// Whether a sheet can hold the given rows below its title row: every
/// non-empty text lies within the sheet's rows and the cell limit.
pub open spec fn sheet_fits(rows: Seq<Seq<Seq<char>>>) -> bool {
    forall|i: int, j: int|
        #![trigger rows[i][j]]
        0 <= i < rows.len() && 0 <= j < rows[i].len() && rows[i][j].len() > 0 ==> i + 1
            < SHEET_ROWS && utf16_units(rows[i][j]) <= CELL_TEXT_LIMIT
}

/// Every column title fits in a cell.
proof fn lemma_header_fits()
    ensures
        export_header().len() == 8,
        forall|k: int| 0 <= k < 8 ==> utf16_units(#[trigger] export_header()[k]) <= CELL_TEXT_LIMIT,
{
    reveal_strlit("Дата");
    reveal_strlit("Тип");
    reveal_strlit("Сумма");
    reveal_strlit("Валюта");
    reveal_strlit("Счёт");
    reveal_strlit("Категория");
    reveal_strlit("Заметка");
    reveal_strlit("Источник");
    assert forall|k: int| 0 <= k < 8 implies utf16_units(#[trigger] export_header()[k])
        <= CELL_TEXT_LIMIT by {
        lemma_utf16_units_bound(export_header()[k]);
    }
}

/// The worksheet of an export: the column titles in bold, the column widths,
/// then one row per record. It fails, with the sheet's error, exactly when a
/// text does not fit (see [`sheet_fits`]).
pub fn transactions_sheet(rows: &Vec<Vec<String>>) -> (r: Result<rust_xlsxwriter::Worksheet, AppError>)
    requires
        rows@.len() < u32::MAX,
        forall|i: int| 0 <= i < rows@.len() ==> #[trigger] rows@[i]@.len() == 8,
    ensures
        r is Ok <==> sheet_fits(table_texts(rows@)),
        r matches Ok(ws) ==> sheet_cells(ws) == sheet_layout(export_header(), table_texts(rows@))
            && sheet_widths(ws) == width_layout(),
        r matches Err(e) ==> e@ is Xlsx,
{
    let mut ws = new_sheet();
    let header = export_header_row();
    proof {
        lemma_header_fits();
        assert(sheet_layout(export_header().take(0), Seq::empty()) =~= no_cells());
        assert(Map::new(|k: int| 0 <= k < 0, |k: int| export_widths()[k]) =~= no_widths());
    }
    let mut c: usize = 0;
    while c < 8
        invariant
            c <= 8,
            texts(header@) == export_header(),
            header@.len() == 8,
            export_header().len() == 8,
            forall|k: int| 0 <= k < 8 ==> utf16_units(#[trigger] export_header()[k]) <= CELL_TEXT_LIMIT,
            sheet_cells(ws) == sheet_layout(export_header().take(c as int), Seq::empty()),
            sheet_widths(ws) == Map::new(|k: int| 0 <= k < c, |k: int| export_widths()[k]),
        decreases 8 - c,
    {
        proof {
            assert(header@[c as int]@ == texts(header@)[c as int]);
            assert(utf16_units(export_header()[c as int]) <= CELL_TEXT_LIMIT);
        }
        match sheet_write_bold(&mut ws, 0, c as u16, header[c].as_str()) {
            Ok(()) => {},
            Err(m) => {
                return Err(AppError::Xlsx(m));
            },
        }
        match sheet_set_width(&mut ws, c as u16, column_width(c)) {
            Ok(()) => {},
            Err(m) => {
                return Err(AppError::Xlsx(m));
            },
        }
        proof {
            assert(sheet_cells(ws) =~= sheet_layout(export_header().take(c + 1), Seq::empty()));
            assert(sheet_widths(ws) =~= Map::new(
                |k: int| 0 <= k < c + 1,
                |k: int| export_widths()[k],
            ));
        }
        c = c + 1;
    }
    proof {
        assert(export_header().take(8) =~= export_header());
        assert(table_texts(rows@.take(0)) =~= Seq::<Seq<Seq<char>>>::empty());
    }
    let mut i: usize = 0;
    while i < rows.len()
        invariant
            i <= rows@.len(),
            rows@.len() < u32::MAX,
            forall|k: int| 0 <= k < rows@.len() ==> #[trigger] rows@[k]@.len() == 8,
            sheet_cells(ws) == sheet_layout(export_header(), table_texts(rows@.take(i as int))),
            sheet_widths(ws) == width_layout(),
            sheet_fits(table_texts(rows@.take(i as int))),
        decreases rows@.len() - i,
    {
        let row: u32 = (i + 1) as u32;
        let ghost done = table_texts(rows@.take(i as int));
        let ghost cur = texts(rows@[i as int]@);
        proof {
            assert(done.len() == i);
            assert(cur.len() == 8);
            assert(cur.take(0) =~= Seq::<Seq<char>>::empty());
            assert(sheet_layout(export_header(), done.push(cur.take(0))) =~= sheet_layout(
                export_header(),
                done,
            ));
            assert(sheet_fits(done.push(cur.take(0)))) by {
                assert forall|a: int, b: int|
                    0 <= a < done.push(cur.take(0)).len() && 0 <= b < done.push(cur.take(0))[a].len()
                        && done.push(cur.take(0))[a][b].len() > 0 implies a + 1 < SHEET_ROWS
                    && utf16_units(done.push(cur.take(0))[a][b]) <= CELL_TEXT_LIMIT by {
                    assert(done.push(cur.take(0))[a] == done[a]);
                    assert(done[a][b] == done[a][b]);
                }
            }
        }
        let mut j: usize = 0;
        while j < 8
            invariant
                j <= 8,
                i < rows@.len(),
                row == i + 1,
                rows@.len() < u32::MAX,
                rows@[i as int]@.len() == 8,
                done == table_texts(rows@.take(i as int)),
                done.len() == i,
                cur == texts(rows@[i as int]@),
                cur.len() == 8,
                sheet_cells(ws) == sheet_layout(export_header(), done.push(cur.take(j as int))),
                sheet_widths(ws) == width_layout(),
                sheet_fits(done.push(cur.take(j as int))),
            decreases 8 - j,
        {
            let text = rows[i][j].as_str();
            proof {
                assert(text@ == cur[j as int]);
            }
            match sheet_write(&mut ws, row, j as u16, text) {
                Ok(()) => {},
                Err(m) => {
                    proof {
                        assert(table_texts(rows@)[i as int] == cur);
                        assert(table_texts(rows@)[i as int][j as int] == text@);
                    }
                    return Err(AppError::Xlsx(m));
                },
            }
            proof {
                let before = done.push(cur.take(j as int));
                let after = done.push(cur.take(j + 1));
                assert(after.len() == before.len());
                assert forall|a: int| 0 <= a < i implies #[trigger] after[a] == before[a] by {}
                assert(after[i as int] == before[i as int].push(cur[j as int]));
                assert(sheet_cells(ws) =~= sheet_layout(export_header(), after));
                assert(sheet_fits(after)) by {
                    assert forall|a: int, b: int|
                        0 <= a < after.len() && 0 <= b < after[a].len() && after[a][b].len()
                            > 0 implies a + 1 < SHEET_ROWS && utf16_units(after[a][b])
                        <= CELL_TEXT_LIMIT by {
                        if a < i {
                            assert(before[a][b] == after[a][b]);
                        } else if b < j {
                            assert(before[a][b] == after[a][b]);
                        }
                    }
                }
            }
            j = j + 1;
        }
        proof {
            assert(cur.take(8) =~= cur);
            assert(table_texts(rows@.take(i + 1)) =~= done.push(cur));
        }
        i = i + 1;
    }
    proof {
        assert(rows@.take(rows@.len() as int) =~= rows@);
    }
    Ok(ws)
}

/// The Excel export of a list of operations: the file of the sheet that
/// [`transactions_sheet`] builds from the exported rows, the bold column
/// titles on the first row and one row per operation below. It fails when a
/// text does not fit in the sheet. The file records the time it was made, so
/// its other bytes are not stated.
pub fn export_transactions_xlsx(txs: &[Transaction], accs: &[Account], cats: &[Category]) -> (r:
    Result<Vec<u8>, AppError>)
    requires
        txs@.len() < u32::MAX,
    ensures
        !sheet_fits(export_table(txs@, account_names(accs@), category_names(cats@))) ==> r is Err,
        r matches Err(e) ==> e@ is Xlsx,
        r matches Ok(b) ==> b@.len() >= 4 && b@.take(4) == zip_signature(),
        r matches Ok(b) ==> xlsx_sheet_cells(b@) == sheet_layout(
            export_header(),
            export_table(txs@, account_names(accs@), category_names(cats@)),
        ),
{
    let rows = export_rows(txs, accs, cats);
    proof {
        assert(rows@.len() == table_texts(rows@).len());
    }
    let ws = match transactions_sheet(&rows) {
        Ok(ws) => ws,
        Err(e) => {
            return Err(e);
        },
    };
    match workbook_bytes(ws) {
        Ok(b) => Ok(b),
        Err(m) => Err(AppError::Xlsx(m)),
    }
}

/// Each exported row lines up with the column titles: under "Дата" the time of
/// the operation, under "Тип" its type, under "Сумма" its amount, under
/// "Валюта" its currency, under "Счёт" its account's name (its id where no name
/// is known), under "Категория" its category's name (nothing where there is
/// none or it is unknown), under "Заметка" its note (or nothing), and under
/// "Источник" how it was entered.
pub proof fn law_export_columns(
    tx: TransactionV,
    accounts: Map<Seq<char>, Seq<char>>,
    categories: Map<Seq<char>, Seq<char>>,
)
    ensures
        ({
            let h = export_header();
            let c = export_cells(tx, accounts, categories);
            &&& h.len() == 8 && c.len() == 8
            &&& h[0] == "Дата"@ && c[0] == occurred_text(tx.occurred_at as int)
            &&& h[1] == "Тип"@ && c[1] == tx.tx_type
            &&& h[2] == "Сумма"@ && c[2] == amount_text(tx.amount_minor as int)
            &&& h[3] == "Валюта"@ && c[3] == tx.currency
            &&& h[4] == "Счёт"@ && c[4] == (if accounts.contains_key(tx.account_id) {
                accounts[tx.account_id]
            } else {
                tx.account_id
            })
            &&& h[5] == "Категория"@ && c[5] == (match tx.category_id {
                Some(k) => if categories.contains_key(k) {
                    categories[k]
                } else {
                    Seq::empty()
                },
                None => Seq::empty(),
            })
            &&& h[6] == "Заметка"@ && c[6] == (match tx.note {
                Some(n) => n,
                None => Seq::empty(),
            })
            &&& h[7] == "Источник"@ && c[7] == tx.source_type
        }),
{
}

} // verus!
