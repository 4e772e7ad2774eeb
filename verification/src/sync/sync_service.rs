//! One synchronisation round: refresh the sign-in, upload what changed locally
//! since the last round, download what changed on the server.
//!
//! The network and database work is done by the caller; this module decides
//! what to send and what to store.

use vstd::prelude::*;
use crate::error::{AppError, AppErrorV};
use crate::models::account::Account;
use crate::models::budget::Budget;
use crate::models::category::Category;
use crate::models::transaction::Transaction;
use crate::sync::auth::AuthTokens;
use crate::sync::fields::{Fields, FsValueV};
use crate::sync::firestore::{doc_name, doc_path, write_view, SyncConfig, WriteOp};
use crate::models::account::AccountV;
use crate::models::budget::BudgetV;
use crate::models::category::CategoryV;
use crate::models::transaction::TransactionV;
use crate::sync::mapper::{
    law_account_round_trip, law_budget_round_trip, law_category_round_trip,
    law_transaction_round_trip, account_doc, account_from_doc, account_to_fields, budget_doc, budget_from_doc,
    budget_to_fields, category_doc, category_from_doc, category_to_fields, fields_to_account,
    fields_to_budget, fields_to_category, fields_to_transaction, transaction_doc,
    transaction_from_doc, transaction_to_fields,
};

verus! {

/// Everything a synchronisation round needs to know.
#[derive(Debug, Clone)]
pub struct FullSyncConfig {
    pub project_id: String,
    pub api_key: String,
    pub id_token: String,
    pub refresh_token: String,
    pub household_id: String,
    pub last_sync_ms: i64,
}

/// How many records went each way.
#[derive(Debug, Clone, Copy)]
pub struct SyncStats {
    pub uploaded: u32,
    pub downloaded: u32,
}

/// Takes the tokens of a refresh into the configuration; nothing else changes.
pub fn apply_refreshed_tokens(config: &mut FullSyncConfig, tokens: AuthTokens)
    ensures
        final(config).id_token@ == tokens.id_token@,
        final(config).refresh_token@ == tokens.refresh_token@,
        final(config).project_id == old(config).project_id,
        final(config).api_key == old(config).api_key,
        final(config).household_id == old(config).household_id,
        final(config).last_sync_ms == old(config).last_sync_ms,
{
    config.id_token = tokens.id_token;
    config.refresh_token = tokens.refresh_token;
}

/// The Firestore access of a round: its project and current token.
pub fn firestore_config(config: &FullSyncConfig) -> (c: SyncConfig)
    ensures
        c.project_id@ == config.project_id@,
        c.id_token@ == config.id_token@,
{
    SyncConfig { project_id: config.project_id.clone(), id_token: config.id_token.clone() }
}

/// The writes that upload operations: each to its document of collection
/// "transactions", in order.
pub fn transaction_writes(project_id: &str, household_id: &str, txs: &Vec<Transaction>) -> (w: Vec<WriteOp>)
    ensures
        w@.len() == txs@.len(),
        forall|i: int|
            0 <= i < txs@.len() ==> (#[trigger] w@[i]).name@ == doc_path(
                project_id@,
                household_id@,
                "transactions"@,
                txs@[i].id@,
            ) && w@[i].fields@ == transaction_doc(txs@[i]@),
{
    let mut w: Vec<WriteOp> = Vec::new();
    let mut i: usize = 0;
    while i < txs.len()
        invariant
            i <= txs@.len(),
            w@.len() == i,
            forall|j: int|
                0 <= j < i ==> (#[trigger] w@[j]).name@ == doc_path(
                    project_id@,
                    household_id@,
                    "transactions"@,
                    txs@[j].id@,
                ) && w@[j].fields@ == transaction_doc(txs@[j]@),
        decreases txs@.len() - i,
    {
        let t = &txs[i];
        w.push(
            WriteOp {
                name: doc_name(project_id, household_id, "transactions", t.id.as_str()),
                fields: transaction_to_fields(t),
            },
        );
        i = i + 1;
    }
    w
}

/// The writes that upload accounts, to collection "accounts", in order.
pub fn account_writes(project_id: &str, household_id: &str, items: &Vec<Account>) -> (w: Vec<WriteOp>)
    ensures
        w@.len() == items@.len(),
        forall|i: int|
            0 <= i < items@.len() ==> (#[trigger] w@[i]).name@ == doc_path(
                project_id@,
                household_id@,
                "accounts"@,
                items@[i].id@,
            ) && w@[i].fields@ == account_doc(items@[i]@),
{
    let mut w: Vec<WriteOp> = Vec::new();
    let mut i: usize = 0;
    while i < items.len()
        invariant
            i <= items@.len(),
            w@.len() == i,
            forall|j: int|
                0 <= j < i ==> (#[trigger] w@[j]).name@ == doc_path(
                    project_id@,
                    household_id@,
                    "accounts"@,
                    items@[j].id@,
                ) && w@[j].fields@ == account_doc(items@[j]@),
        decreases items@.len() - i,
    {
        let a = &items[i];
        w.push(
            WriteOp {
                name: doc_name(project_id, household_id, "accounts", a.id.as_str()),
                fields: account_to_fields(a),
            },
        );
        i = i + 1;
    }
    w
}

/// The writes that upload categories, to collection "categories", in order.
pub fn category_writes(project_id: &str, household_id: &str, items: &Vec<Category>) -> (w: Vec<WriteOp>)
    ensures
        w@.len() == items@.len(),
        forall|i: int|
            0 <= i < items@.len() ==> (#[trigger] w@[i]).name@ == doc_path(
                project_id@,
                household_id@,
                "categories"@,
                items@[i].id@,
            ) && w@[i].fields@ == category_doc(items@[i]@),
{
    let mut w: Vec<WriteOp> = Vec::new();
    let mut i: usize = 0;
    while i < items.len()
        invariant
            i <= items@.len(),
            w@.len() == i,
            forall|j: int|
                0 <= j < i ==> (#[trigger] w@[j]).name@ == doc_path(
                    project_id@,
                    household_id@,
                    "categories"@,
                    items@[j].id@,
                ) && w@[j].fields@ == category_doc(items@[j]@),
        decreases items@.len() - i,
    {
        let c = &items[i];
        w.push(
            WriteOp {
                name: doc_name(project_id, household_id, "categories", c.id.as_str()),
                fields: category_to_fields(c),
            },
        );
        i = i + 1;
    }
    w
}

/// The writes that upload budgets, to collection "budgets", in order.
pub fn budget_writes(project_id: &str, household_id: &str, items: &Vec<Budget>) -> (w: Vec<WriteOp>)
    ensures
        w@.len() == items@.len(),
        forall|i: int|
            0 <= i < items@.len() ==> (#[trigger] w@[i]).name@ == doc_path(
                project_id@,
                household_id@,
                "budgets"@,
                items@[i].id@,
            ) && w@[i].fields@ == budget_doc(items@[i]@),
{
    let mut w: Vec<WriteOp> = Vec::new();
    let mut i: usize = 0;
    while i < items.len()
        invariant
            i <= items@.len(),
            w@.len() == i,
            forall|j: int|
                0 <= j < i ==> (#[trigger] w@[j]).name@ == doc_path(
                    project_id@,
                    household_id@,
                    "budgets"@,
                    items@[j].id@,
                ) && w@[j].fields@ == budget_doc(items@[j]@),
        decreases items@.len() - i,
    {
        let b = &items[i];
        w.push(
            WriteOp {
                name: doc_name(project_id, household_id, "budgets", b.id.as_str()),
                fields: budget_to_fields(b),
            },
        );
        i = i + 1;
    }
    w
}

/// The views of the documents that decode, in order.
pub open spec fn decodable<T>(
    docs: Seq<Fields>,
    decode: spec_fn(Map<Seq<char>, FsValueV>) -> Result<T, AppErrorV>,
) -> Seq<T>
    decreases docs.len(),
{
    if docs.len() == 0 {
        Seq::empty()
    } else {
        let prev = decodable(docs.drop_last(), decode);
        match decode(docs.last()@) {
            Ok(x) => prev.push(x),
            Err(_) => prev,
        }
    }
}

/// Why the other documents do not decode, in order.
pub open spec fn undecodable<T>(
    docs: Seq<Fields>,
    decode: spec_fn(Map<Seq<char>, FsValueV>) -> Result<T, AppErrorV>,
) -> Seq<AppErrorV>
    decreases docs.len(),
{
    if docs.len() == 0 {
        Seq::empty()
    } else {
        let prev = undecodable(docs.drop_last(), decode);
        match decode(docs.last()@) {
            Ok(_) => prev,
            Err(e) => prev.push(e),
        }
    }
}

pub open spec fn errors_view(v: Seq<AppError>) -> Seq<AppErrorV> {
    v.map_values(|e: AppError| e@)
}

/// The operations among downloaded documents, in order, and the errors of the
/// documents that do not decode (which are skipped).
pub fn decode_transactions(docs: &Vec<Fields>) -> (r: (Vec<Transaction>, Vec<AppError>))
    ensures
        r.0@.map_values(|x: Transaction| x@) == decodable(docs@, |f| transaction_from_doc(f)),
        errors_view(r.1@) == undecodable(docs@, |f| transaction_from_doc(f)),
{
    let mut ok: Vec<Transaction> = Vec::new();
    let mut bad: Vec<AppError> = Vec::new();
    let mut i: usize = 0;
    while i < docs.len()
        invariant
            i <= docs@.len(),
            ok@.map_values(|x: Transaction| x@) == decodable(docs@.take(i as int), |f| transaction_from_doc(f)),
            errors_view(bad@) == undecodable(docs@.take(i as int), |f| transaction_from_doc(f)),
        decreases docs@.len() - i,
    {
        assert(docs@.take(i + 1).drop_last() =~= docs@.take(i as int));
        match fields_to_transaction(&docs[i]) {
            Ok(x) => {
                ok.push(x);
            },
            Err(e) => {
                bad.push(e);
            },
        }
        assert(ok@.map_values(|x: Transaction| x@) =~= decodable(docs@.take(i + 1), |f| transaction_from_doc(f)));
        assert(errors_view(bad@) =~= undecodable(docs@.take(i + 1), |f| transaction_from_doc(f)));
        i = i + 1;
    }
    assert(docs@.take(docs@.len() as int) =~= docs@);
    (ok, bad)
}

/// The accounts among downloaded documents, in order, and the errors of the
/// documents that do not decode (which are skipped).
pub fn decode_accounts(docs: &Vec<Fields>) -> (r: (Vec<Account>, Vec<AppError>))
    ensures
        r.0@.map_values(|x: Account| x@) == decodable(docs@, |f| account_from_doc(f)),
        errors_view(r.1@) == undecodable(docs@, |f| account_from_doc(f)),
{
    let mut ok: Vec<Account> = Vec::new();
    let mut bad: Vec<AppError> = Vec::new();
    let mut i: usize = 0;
    while i < docs.len()
        invariant
            i <= docs@.len(),
            ok@.map_values(|x: Account| x@) == decodable(docs@.take(i as int), |f| account_from_doc(f)),
            errors_view(bad@) == undecodable(docs@.take(i as int), |f| account_from_doc(f)),
        decreases docs@.len() - i,
    {
        assert(docs@.take(i + 1).drop_last() =~= docs@.take(i as int));
        match fields_to_account(&docs[i]) {
            Ok(x) => {
                ok.push(x);
            },
            Err(e) => {
                bad.push(e);
            },
        }
        assert(ok@.map_values(|x: Account| x@) =~= decodable(docs@.take(i + 1), |f| account_from_doc(f)));
        assert(errors_view(bad@) =~= undecodable(docs@.take(i + 1), |f| account_from_doc(f)));
        i = i + 1;
    }
    assert(docs@.take(docs@.len() as int) =~= docs@);
    (ok, bad)
}

/// The categories among downloaded documents, in order, and the errors of the
/// documents that do not decode (which are skipped).
pub fn decode_categories(docs: &Vec<Fields>) -> (r: (Vec<Category>, Vec<AppError>))
    ensures
        r.0@.map_values(|x: Category| x@) == decodable(docs@, |f| category_from_doc(f)),
        errors_view(r.1@) == undecodable(docs@, |f| category_from_doc(f)),
{
    let mut ok: Vec<Category> = Vec::new();
    let mut bad: Vec<AppError> = Vec::new();
    let mut i: usize = 0;
    while i < docs.len()
        invariant
            i <= docs@.len(),
            ok@.map_values(|x: Category| x@) == decodable(docs@.take(i as int), |f| category_from_doc(f)),
            errors_view(bad@) == undecodable(docs@.take(i as int), |f| category_from_doc(f)),
        decreases docs@.len() - i,
    {
        assert(docs@.take(i + 1).drop_last() =~= docs@.take(i as int));
        match fields_to_category(&docs[i]) {
            Ok(x) => {
                ok.push(x);
            },
            Err(e) => {
                bad.push(e);
            },
        }
        assert(ok@.map_values(|x: Category| x@) =~= decodable(docs@.take(i + 1), |f| category_from_doc(f)));
        assert(errors_view(bad@) =~= undecodable(docs@.take(i + 1), |f| category_from_doc(f)));
        i = i + 1;
    }
    assert(docs@.take(docs@.len() as int) =~= docs@);
    (ok, bad)
}

/// The budgets among downloaded documents, in order, and the errors of the
/// documents that do not decode (which are skipped).
pub fn decode_budgets(docs: &Vec<Fields>) -> (r: (Vec<Budget>, Vec<AppError>))
    ensures
        r.0@.map_values(|x: Budget| x@) == decodable(docs@, |f| budget_from_doc(f)),
        errors_view(r.1@) == undecodable(docs@, |f| budget_from_doc(f)),
{
    let mut ok: Vec<Budget> = Vec::new();
    let mut bad: Vec<AppError> = Vec::new();
    let mut i: usize = 0;
    while i < docs.len()
        invariant
            i <= docs@.len(),
            ok@.map_values(|x: Budget| x@) == decodable(docs@.take(i as int), |f| budget_from_doc(f)),
            errors_view(bad@) == undecodable(docs@.take(i as int), |f| budget_from_doc(f)),
        decreases docs@.len() - i,
    {
        assert(docs@.take(i + 1).drop_last() =~= docs@.take(i as int));
        match fields_to_budget(&docs[i]) {
            Ok(x) => {
                ok.push(x);
            },
            Err(e) => {
                bad.push(e);
            },
        }
        assert(ok@.map_values(|x: Budget| x@) =~= decodable(docs@.take(i + 1), |f| budget_from_doc(f)));
        assert(errors_view(bad@) =~= undecodable(docs@.take(i + 1), |f| budget_from_doc(f)));
        i = i + 1;
    }
    assert(docs@.take(docs@.len() as int) =~= docs@);
    (ok, bad)
}


proof fn lemma_decode_all<T>(
    docs: Seq<Fields>,
    recs: Seq<T>,
    decode: spec_fn(Map<Seq<char>, FsValueV>) -> Result<T, AppErrorV>,
)
    requires
        docs.len() == recs.len(),
        forall|i: int| 0 <= i < docs.len() ==> decode(#[trigger] docs[i]@) == Ok::<T, AppErrorV>(recs[i]),
    ensures
        decodable(docs, decode) == recs,
        undecodable(docs, decode) == Seq::<AppErrorV>::empty(),
    decreases docs.len(),
{
    if docs.len() > 0 {
        let n = docs.len() - 1;
        assert(decode(docs[n]@) == Ok::<T, AppErrorV>(recs[n]));
        lemma_decode_all(docs.drop_last(), recs.drop_last(), decode);
        assert(recs.drop_last().push(recs[n]) =~= recs);
    } else {
        assert(recs =~= Seq::<T>::empty());
    }
}

/// What the server gives back of an upload: decoding the documents written for
/// a list of operations yields the same operations, in order, and skips none.
pub proof fn law_transactions_survive_sync(docs: Seq<Fields>, txs: Seq<TransactionV>)
    requires
        docs.len() == txs.len(),
        forall|i: int| 0 <= i < docs.len() ==> (#[trigger] docs[i])@ == transaction_doc(txs[i]),
    ensures
        decodable(docs, |f| transaction_from_doc(f)) == txs,
        undecodable(docs, |f| transaction_from_doc(f)) == Seq::<AppErrorV>::empty(),
{
    assert forall|i: int| 0 <= i < docs.len() implies transaction_from_doc(#[trigger] docs[i]@)
        == Ok::<TransactionV, AppErrorV>(txs[i]) by {
        law_transaction_round_trip(txs[i]);
    }
    lemma_decode_all(docs, txs, |f| transaction_from_doc(f));
}

/// Decoding the documents written for a list of accounts yields the same accounts.
pub proof fn law_accounts_survive_sync(docs: Seq<Fields>, items: Seq<AccountV>)
    requires
        docs.len() == items.len(),
        forall|i: int| 0 <= i < docs.len() ==> (#[trigger] docs[i])@ == account_doc(items[i]),
    ensures
        decodable(docs, |f| account_from_doc(f)) == items,
        undecodable(docs, |f| account_from_doc(f)) == Seq::<AppErrorV>::empty(),
{
    assert forall|i: int| 0 <= i < docs.len() implies account_from_doc(#[trigger] docs[i]@)
        == Ok::<AccountV, AppErrorV>(items[i]) by {
        law_account_round_trip(items[i]);
    }
    lemma_decode_all(docs, items, |f| account_from_doc(f));
}

/// Decoding the documents written for a list of categories yields the same categories.
pub proof fn law_categories_survive_sync(docs: Seq<Fields>, items: Seq<CategoryV>)
    requires
        docs.len() == items.len(),
        forall|i: int| 0 <= i < docs.len() ==> (#[trigger] docs[i])@ == category_doc(items[i]),
    ensures
        decodable(docs, |f| category_from_doc(f)) == items,
        undecodable(docs, |f| category_from_doc(f)) == Seq::<AppErrorV>::empty(),
{
    assert forall|i: int| 0 <= i < docs.len() implies category_from_doc(#[trigger] docs[i]@)
        == Ok::<CategoryV, AppErrorV>(items[i]) by {
        law_category_round_trip(items[i]);
    }
    lemma_decode_all(docs, items, |f| category_from_doc(f));
}

/// Decoding the documents written for a list of budgets yields the same budgets.
pub proof fn law_budgets_survive_sync(docs: Seq<Fields>, items: Seq<BudgetV>)
    requires
        docs.len() == items.len(),
        forall|i: int| 0 <= i < docs.len() ==> (#[trigger] docs[i])@ == budget_doc(items[i]),
    ensures
        decodable(docs, |f| budget_from_doc(f)) == items,
        undecodable(docs, |f| budget_from_doc(f)) == Seq::<AppErrorV>::empty(),
{
    assert forall|i: int| 0 <= i < docs.len() implies budget_from_doc(#[trigger] docs[i]@)
        == Ok::<BudgetV, AppErrorV>(items[i]) by {
        law_budget_round_trip(items[i]);
    }
    lemma_decode_all(docs, items, |f| budget_from_doc(f));
}

/// The sum of a list of counts.
pub open spec fn sum_counts(c: Seq<usize>) -> int
    decreases c.len(),
{
    if c.len() == 0 {
        0
    } else {
        sum_counts(c.drop_last()) + c.last()
    }
}

proof fn lemma_sum_counts_prefix(c: Seq<usize>, i: int)
    requires
        0 <= i <= c.len(),
    ensures
        0 <= sum_counts(c.take(i)) <= sum_counts(c),
    decreases c.len(),
{
    if c.len() > 0 {
        if i == c.len() {
            assert(c.take(i) =~= c);
            lemma_sum_counts_prefix(c.drop_last(), i - 1);
            assert(c.drop_last().take(i - 1) =~= c.drop_last());
        } else {
            assert(c.drop_last().take(i) =~= c.take(i));
            lemma_sum_counts_prefix(c.drop_last(), i);
        }
    }
}

/// The number a round reports for one direction: the records of every kind
/// added up.
pub fn tally(counts: &Vec<usize>) -> (r: u32)
    requires
        sum_counts(counts@) <= u32::MAX,
    ensures
        r == sum_counts(counts@),
{
    let mut total: u32 = 0;
    let mut i: usize = 0;
    while i < counts.len()
        invariant
            i <= counts@.len(),
            sum_counts(counts@) <= u32::MAX,
            total == sum_counts(counts@.take(i as int)),
        decreases counts@.len() - i,
    {
        proof {
            assert(counts@.take(i + 1).drop_last() =~= counts@.take(i as int));
            lemma_sum_counts_prefix(counts@, i + 1);
        }
        total = total + counts[i] as u32;
        i = i + 1;
    }
    proof {
        assert(counts@.take(counts@.len() as int) =~= counts@);
    }
    total
}

/// The document names and contents of a list of writes.
pub open spec fn write_views(w: Seq<WriteOp>) -> Seq<(Seq<char>, Map<Seq<char>, FsValueV>)> {
    w.map_values(|x: WriteOp| write_view(x))
}

/// The uploads of operations: each to its document of collection "transactions".
pub open spec fn transaction_uploads(p: Seq<char>, h: Seq<char>, txs: Seq<Transaction>) -> Seq<
    (Seq<char>, Map<Seq<char>, FsValueV>),
> {
    txs.map_values(|t: Transaction| (doc_path(p, h, "transactions"@, t.id@), transaction_doc(t@)))
}

/// The uploads of accounts, to collection "accounts".
pub open spec fn account_uploads(p: Seq<char>, h: Seq<char>, items: Seq<Account>) -> Seq<
    (Seq<char>, Map<Seq<char>, FsValueV>),
> {
    items.map_values(|a: Account| (doc_path(p, h, "accounts"@, a.id@), account_doc(a@)))
}

/// The uploads of categories, to collection "categories".
pub open spec fn category_uploads(p: Seq<char>, h: Seq<char>, items: Seq<Category>) -> Seq<
    (Seq<char>, Map<Seq<char>, FsValueV>),
> {
    items.map_values(|c: Category| (doc_path(p, h, "categories"@, c.id@), category_doc(c@)))
}

/// The uploads of budgets, to collection "budgets".
pub open spec fn budget_uploads(p: Seq<char>, h: Seq<char>, items: Seq<Budget>) -> Seq<
    (Seq<char>, Map<Seq<char>, FsValueV>),
> {
    items.map_values(|b: Budget| (doc_path(p, h, "budgets"@, b.id@), budget_doc(b@)))
}

/// A list of writes as one request batch, or nothing when it is empty.
pub open spec fn nonempty_batch<T>(w: Seq<T>) -> Seq<Seq<T>> {
    if w.len() > 0 {
        seq![w]
    } else {
        Seq::empty()
    }
}

/// What a round uploads, one batch write per kind of record that changed, in
/// the order operations, accounts, categories, budgets; a kind without
/// changes sends nothing.
pub open spec fn upload_batches<T>(t: Seq<T>, a: Seq<T>, c: Seq<T>, b: Seq<T>) -> Seq<Seq<T>> {
    nonempty_batch(t) + nonempty_batch(a) + nonempty_batch(c) + nonempty_batch(b)
}

/// The uploads of a round and the number of records they carry.
pub struct UploadPlan {
    pub writes: Vec<Vec<WriteOp>>,
    pub count: u32,
}

fn add_batch(batches: &mut Vec<Vec<WriteOp>>, w: Vec<WriteOp>)
    ensures
        final(batches)@.map_values(|v: Vec<WriteOp>| write_views(v@)) == old(batches)@.map_values(
            |v: Vec<WriteOp>| write_views(v@),
        ) + nonempty_batch(write_views(w@)),
{
    let ghost before = batches@;
    if w.len() > 0 {
        batches.push(w);
        assert(batches@.map_values(|v: Vec<WriteOp>| write_views(v@)) =~= before.map_values(
            |v: Vec<WriteOp>| write_views(v@),
        ) + nonempty_batch(write_views(w@)));
    } else {
        assert(before.map_values(|v: Vec<WriteOp>| write_views(v@)) + nonempty_batch(
            write_views(w@),
        ) =~= before.map_values(|v: Vec<WriteOp>| write_views(v@)));
    }
}

/// Plans the uploads of a round from the records changed since the last one.
pub fn upload_plan(
    project_id: &str,
    household_id: &str,
    txs: &Vec<Transaction>,
    accs: &Vec<Account>,
    cats: &Vec<Category>,
    budgets: &Vec<Budget>,
) -> (p: UploadPlan)
    requires
        txs@.len() + accs@.len() + cats@.len() + budgets@.len() <= u32::MAX,
    ensures
        p.count == txs@.len() + accs@.len() + cats@.len() + budgets@.len(),
        p.writes@.map_values(|v: Vec<WriteOp>| write_views(v@)) == upload_batches(
            transaction_uploads(project_id@, household_id@, txs@),
            account_uploads(project_id@, household_id@, accs@),
            category_uploads(project_id@, household_id@, cats@),
            budget_uploads(project_id@, household_id@, budgets@),
        ),
{
    let ghost p = project_id@;
    let ghost h = household_id@;
    let tw = transaction_writes(project_id, household_id, txs);
    assert(write_views(tw@) =~= transaction_uploads(p, h, txs@));
    let aw = account_writes(project_id, household_id, accs);
    assert(write_views(aw@) =~= account_uploads(p, h, accs@));
    let cw = category_writes(project_id, household_id, cats);
    assert(write_views(cw@) =~= category_uploads(p, h, cats@));
    let bw = budget_writes(project_id, household_id, budgets);
    assert(write_views(bw@) =~= budget_uploads(p, h, budgets@));
    let count = (txs.len() + accs.len() + cats.len() + budgets.len()) as u32;
    let mut writes: Vec<Vec<WriteOp>> = Vec::new();
    assert(writes@.map_values(|v: Vec<WriteOp>| write_views(v@)) =~= Seq::<
        Seq<(Seq<char>, Map<Seq<char>, FsValueV>)>,
    >::empty());
    add_batch(&mut writes, tw);
    add_batch(&mut writes, aw);
    add_batch(&mut writes, cw);
    add_batch(&mut writes, bw);
    proof {
        let e = Seq::<Seq<(Seq<char>, Map<Seq<char>, FsValueV>)>>::empty();
        assert(e + nonempty_batch(write_views(tw@)) =~= nonempty_batch(write_views(tw@)));
    }
    UploadPlan { writes, count }
}

/// Each record goes to the collection of its kind, under its own identifier,
/// with its own document: operations to "transactions", accounts to
/// "accounts", categories to "categories", budgets to "budgets", one upload per
/// record, in order.
pub proof fn law_uploads_go_to_their_collections(
    p: Seq<char>,
    h: Seq<char>,
    txs: Seq<Transaction>,
    accs: Seq<Account>,
    cats: Seq<Category>,
    buds: Seq<Budget>,
)
    ensures
        transaction_uploads(p, h, txs).len() == txs.len(),
        account_uploads(p, h, accs).len() == accs.len(),
        category_uploads(p, h, cats).len() == cats.len(),
        budget_uploads(p, h, buds).len() == buds.len(),
        forall|i: int|
            0 <= i < txs.len() ==> #[trigger] transaction_uploads(p, h, txs)[i] == (
                "projects/"@ + p + "/databases/(default)/documents/households/"@ + h + "/"@
                    + "transactions"@ + "/"@ + txs[i].id@,
                transaction_doc(txs[i]@),
            ),
        forall|i: int|
            0 <= i < accs.len() ==> #[trigger] account_uploads(p, h, accs)[i] == (
                "projects/"@ + p + "/databases/(default)/documents/households/"@ + h + "/"@
                    + "accounts"@ + "/"@ + accs[i].id@,
                account_doc(accs[i]@),
            ),
        forall|i: int|
            0 <= i < cats.len() ==> #[trigger] category_uploads(p, h, cats)[i] == (
                "projects/"@ + p + "/databases/(default)/documents/households/"@ + h + "/"@
                    + "categories"@ + "/"@ + cats[i].id@,
                category_doc(cats[i]@),
            ),
        forall|i: int|
            0 <= i < buds.len() ==> #[trigger] budget_uploads(p, h, buds)[i] == (
                "projects/"@ + p + "/databases/(default)/documents/households/"@ + h + "/"@
                    + "budgets"@ + "/"@ + buds[i].id@,
                budget_doc(buds[i]@),
            ),
{
}

} // verus!
