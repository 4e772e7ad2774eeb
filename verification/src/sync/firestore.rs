//! Requests to the Firestore REST interface: document names, endpoints,
//! batching of writes, and the reading of query and error responses.

use vstd::prelude::*;
use crate::error::{AppError, AppErrorV};
use crate::sync::fields::{Fields, FsValue, FsValueV};
use crate::text::{concat_str, opt_view, owned};

verus! {

/// Where and as whom to talk to Firestore.
#[derive(Debug, Clone)]
pub struct SyncConfig {
    pub project_id: String,
    pub id_token: String,
}

/// Write the document `name` with `fields`.
#[derive(Debug, Clone)]
pub struct WriteOp {
    pub name: String,
    pub fields: Fields,
}

/// The abstract value of a write: the document name and its fields.
pub open spec fn write_view(w: WriteOp) -> (Seq<char>, Map<Seq<char>, FsValueV>) {
    (w.name@, w.fields@)
}

/// How many writes one batch request carries at most.
pub const BATCH_SIZE: usize = 400;

/// The full resource name of a document of a household's collection.
pub open spec fn doc_path(project_id: Seq<char>, household_id: Seq<char>, collection: Seq<char>, doc_id: Seq<char>) -> Seq<char> {
    "projects/"@ + project_id + "/databases/(default)/documents/households/"@ + household_id + "/"@
        + collection + "/"@ + doc_id
}

pub fn doc_name(project_id: &str, household_id: &str, collection: &str, doc_id: &str) -> (r: String)
    ensures
        r@ == doc_path(project_id@, household_id@, collection@, doc_id@),
{
    let mut r = concat_str("projects/", project_id);
    r.append("/databases/(default)/documents/households/");
    r.append(household_id);
    r.append("/");
    r.append(collection);
    r.append("/");
    r.append(doc_id);
    r
}

/// The endpoint that runs a structured query over a household's documents.
pub open spec fn run_query_endpoint(project_id: Seq<char>, household_id: Seq<char>) -> Seq<char> {
    "https://firestore.googleapis.com/v1/projects/"@ + project_id
        + "/databases/(default)/documents/households/"@ + household_id + ":runQuery"@
}

pub fn run_query_url(project_id: &str, household_id: &str) -> (r: String)
    ensures
        r@ == run_query_endpoint(project_id@, household_id@),
{
    let mut r = concat_str("https://firestore.googleapis.com/v1/projects/", project_id);
    r.append("/databases/(default)/documents/households/");
    r.append(household_id);
    r.append(":runQuery");
    r
}

/// The endpoint that applies a batch of writes.
pub open spec fn batch_write_endpoint(project_id: Seq<char>) -> Seq<char> {
    "https://firestore.googleapis.com/v1/projects/"@ + project_id
        + "/databases/(default)/documents:batchWrite"@
}

pub fn batch_write_url(project_id: &str) -> (r: String)
    ensures
        r@ == batch_write_endpoint(project_id@),
{
    let mut r = concat_str("https://firestore.googleapis.com/v1/projects/", project_id);
    r.append("/databases/(default)/documents:batchWrite");
    r
}

/// The message an error response body carries: the string at `error.message`
/// when the body is JSON and has one there.
pub uninterp spec fn json_error_message(body: Seq<char>) -> Option<Seq<char>>;

/// `serde_json::from_str::<Value>(body)`, then `v["error"]["message"].as_str()`.
/// Which bodies hold such a message is what the JSON grammar and the body say.
#[verifier::external_body]
pub(crate) fn error_message_in_json(body: &str) -> (r: Option<String>)
    ensures
        opt_view(r) == json_error_message(body@),
{
    match serde_json::from_str::<serde_json::Value>(body) {
        Ok(v) => v["error"]["message"].as_str().map(|s| s.to_owned()),
        Err(_) => None,
    }
}

/// The text to report for an error response: its JSON error message, else the
/// whole body.
pub open spec fn error_text_of(body: Seq<char>) -> Seq<char> {
    match json_error_message(body) {
        Some(m) => m,
        None => body,
    }
}

pub fn extract_error(body: &str) -> (r: String)
    ensures
        r@ == error_text_of(body@),
{
    match error_message_in_json(body) {
        Some(m) => m,
        None => owned(body),
    }
}

/// Whether an HTTP status is a success (2xx).
pub open spec fn is_success(status: u16) -> bool {
    200 <= status <= 299
}

/// The error a Firestore response means: an expired token for 401, the
/// server's message for any other failure, none for a success.
pub open spec fn firestore_failure(status: u16, body: Seq<char>) -> Option<AppErrorV> {
    if status == 401 {
        Some(AppErrorV::Unauthorized("token expired"@))
    } else if !is_success(status) {
        Some(AppErrorV::Firebase(error_text_of(body)))
    } else {
        None
    }
}

pub fn response_error(status: u16, body: &str) -> (r: Option<AppError>)
    ensures
        match r {
            Some(e) => firestore_failure(status, body@) == Some(e@),
            None => firestore_failure(status, body@) is None,
        },
{
    if status == 401 {
        Some(AppError::Unauthorized(owned("token expired")))
    } else if !(200 <= status && status <= 299) {
        Some(AppError::Firebase(extract_error(body)))
    } else {
        None
    }
}

/// The concatenation of a list of batches.
pub open spec fn flatten_writes(b: Seq<Vec<WriteOp>>) -> Seq<WriteOp>
    decreases b.len(),
{
    if b.len() == 0 {
        Seq::empty()
    } else {
        flatten_writes(b.drop_last()) + b.last()@
    }
}

/// Splits writes into consecutive batches of at most [`BATCH_SIZE`], all full
/// but the last, keeping their order.
pub fn batches(writes: Vec<WriteOp>) -> (r: Vec<Vec<WriteOp>>)
    ensures
        flatten_writes(r@) == writes@,
        forall|i: int| 0 <= i < r@.len() ==> 0 < (#[trigger] r@[i])@.len() <= BATCH_SIZE,
        forall|i: int| 0 <= i < r@.len() - 1 ==> (#[trigger] r@[i])@.len() == BATCH_SIZE,
{
    let ghost all = writes@;
    let mut out: Vec<Vec<WriteOp>> = Vec::new();
    let mut current: Vec<WriteOp> = Vec::new();
    let mut rest = writes;
    while rest.len() > 0
        invariant
            flatten_writes(out@) + current@ + rest@ == all,
            current@.len() < BATCH_SIZE,
            forall|i: int| 0 <= i < out@.len() ==> (#[trigger] out@[i])@.len() == BATCH_SIZE,
        decreases rest.len(),
    {
        let w = rest.remove(0);
        current.push(w);
        if current.len() == BATCH_SIZE {
            let full = current;
            current = Vec::new();
            let ghost before = out@;
            out.push(full);
            assert(out@.drop_last() =~= before);
        }
        assert(flatten_writes(out@) + current@ + rest@ =~= all);
    }
    if current.len() > 0 {
        let ghost before = out@;
        out.push(current);
        assert(out@.drop_last() =~= before);
        assert(flatten_writes(out@) =~= all);
    } else {
        assert(flatten_writes(out@) =~= all);
    }
    out
}

/// The items of a query response body: `None` when the body is not a JSON
/// array; otherwise, for each item in order, the fields of its `document`
/// when the item has a document with a `fields` object (each field as read
/// into an [`FsValue`]), and nothing for an item without one.
pub uninterp spec fn query_items(body: Seq<char>) -> Option<Seq<Option<Map<Seq<char>, FsValueV>>>>;

/// The views of a list of optional documents.
pub open spec fn opt_fields_views(v: Seq<Option<Fields>>) -> Seq<Option<Map<Seq<char>, FsValueV>>> {
    v.map_values(|o: Option<Fields>| match o {
        Some(f) => Some(f@),
        None => None,
    })
}

/// `serde_json::from_str::<Vec<Value>>(body)`, each item's
/// `["document"]["fields"]` object read field by field into an [`FsValue`]
/// (`stringValue` and `integerValue` as strings, `booleanValue` as a boolean,
/// whether `nullValue` is present). The parser's error message is left
/// unstated.
#[verifier::external_body]
pub(crate) fn parse_query_items(body: &str) -> (r: Result<Vec<Option<Fields>>, String>)
    ensures
        match r {
            Ok(v) => query_items(body@) == Some(opt_fields_views(v@)),
            Err(_) => query_items(body@) is None,
        },
{
    match serde_json::from_str::<Vec<serde_json::Value>>(body) {
        Ok(items) => Ok(items.iter().map(|it| it["document"]["fields"].as_object().map(|o| Fields {
            entries: o.iter().map(|(k, v)| (k.clone(), FsValue {
                string_value: v["stringValue"].as_str().map(String::from),
                integer_value: v["integerValue"].as_str().map(String::from),
                boolean_value: v["booleanValue"].as_bool(),
                is_null: v.get("nullValue").is_some(),
            })).collect(),
        })).collect()),
        Err(e) => Err(e.to_string()),
    }
}

/// The documents present among query items, in order.
pub open spec fn present_docs(s: Seq<Option<Map<Seq<char>, FsValueV>>>) -> Seq<Map<Seq<char>, FsValueV>>
    decreases s.len(),
{
    if s.len() == 0 {
        Seq::empty()
    } else {
        let rest = present_docs(s.drop_last());
        match s.last() {
            Some(m) => rest.push(m),
            None => rest,
        }
    }
}

/// The views of a list of documents.
pub open spec fn fields_views(v: Seq<Fields>) -> Seq<Map<Seq<char>, FsValueV>> {
    v.map_values(|f: Fields| f@)
}

/// The documents of a query response body, in order: a body that is not a
/// JSON array is a serde error; items without a document are passed over.
pub fn query_documents(body: &str) -> (r: Result<Vec<Fields>, AppError>)
    ensures
        r is Err <==> query_items(body@) is None,
        r matches Err(e) ==> e@ is Serde,
        r matches Ok(v) ==> fields_views(v@) == present_docs(query_items(body@)->Some_0),
{
    let items = match parse_query_items(body) {
        Ok(items) => items,
        Err(m) => {
            return Err(AppError::Serde(m));
        },
    };
    let ghost all = opt_fields_views(items@);
    let n = items.len();
    let mut rest = items;
    let mut docs: Vec<Fields> = Vec::new();
    let mut k: usize = 0;
    while rest.len() > 0
        invariant
            n == all.len(),
            k + rest@.len() == n,
            opt_fields_views(rest@) == all.subrange(k as int, n as int),
            fields_views(docs@) == present_docs(all.take(k as int)),
        decreases rest.len(),
    {
        let ghost before = docs@;
        let ghost rv = rest@;
        let item = rest.remove(0);
        proof {
            assert(opt_fields_views(rv)[0] == all[k as int]);
            assert(all.take(k + 1).drop_last() =~= all.take(k as int));
            assert(opt_fields_views(rest@) =~= all.subrange(k + 1, n as int)) by {
                assert(rest@ =~= rv.subrange(1, rv.len() as int));
                assert forall|j: int| 0 <= j < rest@.len() implies opt_fields_views(rest@)[j]
                    == all.subrange(k + 1, n as int)[j] by {
                    assert(opt_fields_views(rv)[j + 1] == all.subrange(k as int, n as int)[j + 1]);
                    assert(rest@[j] == rv[j + 1]);
                }
            }
        }
        match item {
            Some(f) => {
                docs.push(f);
                proof {
                    assert(fields_views(docs@) =~= fields_views(before).push(docs@.last()@));
                }
            },
            None => {},
        }
        k = k + 1;
    }
    proof {
        assert(all.take(n as int) =~= all);
    }
    Ok(docs)
}

} // verus!
