//! The sign-in state kept between runs, and what signing in, synchronising
//! and signing out write to it.
//!
//! The state lives in a store file as one configuration object under the key
//! "firebase", whose fields are project_id, api_key, id_token, refresh_token,
//! local_id, household_id and last_sync_ms. [`SyncStore`] is that object. A
//! field reads as text only when it holds text, and as a number only when it
//! holds an integer; anything else reads as the empty text or zero.

use vstd::prelude::*;
use crate::error::{AppError, AppErrorV};
use crate::sync::auth::AuthTokens;
use crate::sync::sync_service::{FullSyncConfig, SyncStats};
use crate::text::{owned, str_eq};

verus! {

/// The file the sign-in state is kept in.
pub const STORE_FILE: &'static str = "sync_config.json";

/// The key of the store file under which the configuration object is kept.
pub const CONFIG_KEY: &'static str = "firebase";

/// Whether the user is signed in to synchronisation, and when it last ran.
#[derive(Debug, Clone, Copy, PartialEq, Eq, Structural)]
pub struct SyncStatus {
    pub logged_in: bool,
    pub last_sync_ms: i64,
}

/// How many records a synchronisation round sent and received.
#[derive(Debug, Clone, Copy, PartialEq, Eq, Structural)]
pub struct SyncResult {
    pub uploaded: u32,
    pub downloaded: u32,
}

/// A value in the store: text, an integer, or something else.
#[derive(Debug, Clone)]
pub enum StoreValue {
    Text(String),
    Int(i64),
    Other,
}

pub enum StoreValueV {
    Text(Seq<char>),
    Int(i64),
    Other,
}

impl View for StoreValue {
    type V = StoreValueV;

    open spec fn view(&self) -> StoreValueV {
        match self {
            StoreValue::Text(s) => StoreValueV::Text(s@),
            StoreValue::Int(n) => StoreValueV::Int(*n),
            StoreValue::Other => StoreValueV::Other,
        }
    }
}

/// The views of a list of writes.
pub open spec fn writes_view(w: Seq<(String, StoreValue)>) -> Seq<(Seq<char>, StoreValueV)> {
    w.map_values(|e: (String, StoreValue)| (e.0@, e.1@))
}

/// The store after the given writes, in order; a later write to a key wins.
pub open spec fn apply_writes(
    m: Map<Seq<char>, StoreValueV>,
    writes: Seq<(Seq<char>, StoreValueV)>,
) -> Map<Seq<char>, StoreValueV>
    decreases writes.len(),
{
    if writes.len() == 0 {
        m
    } else {
        apply_writes(m, writes.drop_last()).insert(writes.last().0, writes.last().1)
    }
}

/// The configuration object kept under [`CONFIG_KEY`], as the field writes
/// made to it in order.
#[derive(Debug, Clone)]
pub struct SyncStore {
    pub entries: Vec<(String, StoreValue)>,
}

impl View for SyncStore {
    type V = Map<Seq<char>, StoreValueV>;

    open spec fn view(&self) -> Map<Seq<char>, StoreValueV> {
        apply_writes(Map::empty(), writes_view(self.entries@))
    }
}

/// The last write to a key decides its value; a key no write touches keeps
/// the value it had.
proof fn lemma_apply_lookup(
    m: Map<Seq<char>, StoreValueV>,
    s: Seq<(Seq<char>, StoreValueV)>,
    k: Seq<char>,
    i: int,
)
    requires
        -1 <= i < s.len(),
        i >= 0 ==> s[i].0 == k,
        forall|j: int| i < j < s.len() ==> s[j].0 != k,
    ensures
        i >= 0 ==> apply_writes(m, s).contains_key(k) && apply_writes(m, s)[k] == s[i].1,
        i < 0 ==> apply_writes(m, s).contains_key(k) == m.contains_key(k) && (m.contains_key(k)
            ==> apply_writes(m, s)[k] == m[k]),
    decreases s.len(),
{
    if s.len() > 0 && i < s.len() - 1 {
        lemma_apply_lookup(m, s.drop_last(), k, i);
    }
}

proof fn lemma_apply_concat(
    m: Map<Seq<char>, StoreValueV>,
    a: Seq<(Seq<char>, StoreValueV)>,
    b: Seq<(Seq<char>, StoreValueV)>,
)
    ensures
        apply_writes(m, a + b) == apply_writes(apply_writes(m, a), b),
    decreases b.len(),
{
    if b.len() == 0 {
        assert(a + b =~= a);
    } else {
        assert((a + b).drop_last() =~= a + b.drop_last());
        lemma_apply_concat(m, a, b.drop_last());
    }
}

impl SyncStore {
    /// An empty store.
    pub fn new() -> (s: SyncStore)
        ensures
            s@ == Map::<Seq<char>, StoreValueV>::empty(),
    {
        SyncStore { entries: Vec::new() }
    }

    /// The value under `key`, if any.
    pub fn get(&self, key: &str) -> (r: Option<&StoreValue>)
        ensures
            r is Some <==> self@.contains_key(key@),
            r matches Some(v) ==> v@ == self@[key@],
    {
        let ghost w = writes_view(self.entries@);
        let mut i: usize = self.entries.len();
        while i > 0
            invariant
                i <= self.entries@.len(),
                w == writes_view(self.entries@),
                forall|j: int| i <= j < self.entries@.len() ==> #[trigger] w[j].0 != key@,
            decreases i,
        {
            i = i - 1;
            if str_eq(self.entries[i].0.as_str(), key) {
                proof {
                    lemma_apply_lookup(Map::empty(), w, key@, i as int);
                }
                return Some(&self.entries[i].1);
            }
        }
        proof {
            lemma_apply_lookup(Map::empty(), w, key@, -1);
        }
        None
    }

    /// Performs the given writes in order.
    pub fn apply(&mut self, writes: Vec<(String, StoreValue)>)
        ensures
            final(self)@ == apply_writes(old(self)@, writes_view(writes@)),
    {
        let ghost before = self.entries@;
        let mut w = writes;
        self.entries.append(&mut w);
        proof {
            assert(self.entries@ == before + writes@);
            assert(writes_view(self.entries@) =~= writes_view(before) + writes_view(writes@));
            lemma_apply_concat(Map::empty(), writes_view(before), writes_view(writes@));
        }
    }
}

/// The text under `key`; empty where the key is missing or holds no text.
pub open spec fn text_at(m: Map<Seq<char>, StoreValueV>, key: Seq<char>) -> Seq<char> {
    if m.contains_key(key) {
        match m[key] {
            StoreValueV::Text(s) => s,
            _ => Seq::empty(),
        }
    } else {
        Seq::empty()
    }
}

/// The integer under `key`; zero where the key is missing or holds no integer.
pub open spec fn int_at(m: Map<Seq<char>, StoreValueV>, key: Seq<char>) -> i64 {
    if m.contains_key(key) {
        match m[key] {
            StoreValueV::Int(n) => n,
            _ => 0,
        }
    } else {
        0
    }
}

/// Reads text from the store.
pub fn store_str(store: &SyncStore, key: &str) -> (r: String)
    ensures
        r@ == text_at(store@, key@),
{
    match store.get(key) {
        Some(StoreValue::Text(s)) => s.clone(),
        _ => String::new(),
    }
}

/// Reads an integer from the store.
pub fn store_i64(store: &SyncStore, key: &str) -> (r: i64)
    ensures
        r == int_at(store@, key@),
{
    match store.get(key) {
        Some(StoreValue::Int(n)) => *n,
        _ => 0,
    }
}

/// The status the store describes: signed in while a refresh token is kept.
pub open spec fn status_of(m: Map<Seq<char>, StoreValueV>) -> SyncStatus {
    SyncStatus {
        logged_in: text_at(m, "refresh_token"@).len() > 0,
        last_sync_ms: int_at(m, "last_sync_ms"@),
    }
}

/// The synchronisation status kept in the store.
pub fn sync_status(store: &SyncStore) -> (s: SyncStatus)
    ensures
        s == status_of(store@),
{
    let refresh_token = store_str(store, "refresh_token");
    let last_sync_ms = store_i64(store, "last_sync_ms");
    SyncStatus { logged_in: refresh_token.unicode_len() > 0, last_sync_ms }
}

/// What signing in writes: the project, key and household, the tokens of the
/// sign-in, and a last round at zero.
pub open spec fn login_writes_spec(
    project_id: Seq<char>,
    api_key: Seq<char>,
    id_token: Seq<char>,
    refresh_token: Seq<char>,
    local_id: Seq<char>,
    household_id: Seq<char>,
) -> Seq<(Seq<char>, StoreValueV)> {
    seq![
        ("project_id"@, StoreValueV::Text(project_id)),
        ("api_key"@, StoreValueV::Text(api_key)),
        ("id_token"@, StoreValueV::Text(id_token)),
        ("refresh_token"@, StoreValueV::Text(refresh_token)),
        ("local_id"@, StoreValueV::Text(local_id)),
        ("household_id"@, StoreValueV::Text(household_id)),
        ("last_sync_ms"@, StoreValueV::Int(0)),
    ]
}

/// What signing out writes: the tokens and user emptied, the last round at zero.
pub open spec fn logout_writes_spec() -> Seq<(Seq<char>, StoreValueV)> {
    seq![
        ("id_token"@, StoreValueV::Text(Seq::empty())),
        ("refresh_token"@, StoreValueV::Text(Seq::empty())),
        ("local_id"@, StoreValueV::Text(Seq::empty())),
        ("last_sync_ms"@, StoreValueV::Int(0)),
    ]
}

/// What a finished round writes: the tokens it ended with and its time.
pub open spec fn after_sync_writes_spec(id_token: Seq<char>, refresh_token: Seq<char>, now: i64) -> Seq<
    (Seq<char>, StoreValueV),
> {
    seq![
        ("id_token"@, StoreValueV::Text(id_token)),
        ("refresh_token"@, StoreValueV::Text(refresh_token)),
        ("last_sync_ms"@, StoreValueV::Int(now)),
    ]
}

fn text_write(key: &str, value: &str) -> (w: (String, StoreValue))
    ensures
        w.0@ == key@,
        w.1@ == StoreValueV::Text(value@),
{
    (owned(key), StoreValue::Text(owned(value)))
}

fn int_write(key: &str, value: i64) -> (w: (String, StoreValue))
    ensures
        w.0@ == key@,
        w.1@ == StoreValueV::Int(value),
{
    (owned(key), StoreValue::Int(value))
}

/// The writes of a sign-in with the given tokens.
pub fn login_writes(project_id: &str, api_key: &str, tokens: &AuthTokens, household_id: &str) -> (w:
    Vec<(String, StoreValue)>)
    ensures
        writes_view(w@) == login_writes_spec(
            project_id@,
            api_key@,
            tokens.id_token@,
            tokens.refresh_token@,
            tokens.local_id@,
            household_id@,
        ),
{
    let mut w: Vec<(String, StoreValue)> = Vec::new();
    w.push(text_write("project_id", project_id));
    w.push(text_write("api_key", api_key));
    w.push(text_write("id_token", tokens.id_token.as_str()));
    w.push(text_write("refresh_token", tokens.refresh_token.as_str()));
    w.push(text_write("local_id", tokens.local_id.as_str()));
    w.push(text_write("household_id", household_id));
    w.push(int_write("last_sync_ms", 0));
    assert(writes_view(w@) =~= login_writes_spec(
        project_id@,
        api_key@,
        tokens.id_token@,
        tokens.refresh_token@,
        tokens.local_id@,
        household_id@,
    ));
    w
}

/// The writes of a sign-out.
pub fn logout_writes() -> (w: Vec<(String, StoreValue)>)
    ensures
        writes_view(w@) == logout_writes_spec(),
{
    let mut w: Vec<(String, StoreValue)> = Vec::new();
    w.push((owned("id_token"), StoreValue::Text(String::new())));
    w.push((owned("refresh_token"), StoreValue::Text(String::new())));
    w.push((owned("local_id"), StoreValue::Text(String::new())));
    w.push(int_write("last_sync_ms", 0));
    assert(writes_view(w@) =~= logout_writes_spec());
    w
}

/// The writes after a round that ended with `config`, finished at `now`.
pub fn after_sync_writes(config: &FullSyncConfig, now: i64) -> (w: Vec<(String, StoreValue)>)
    ensures
        writes_view(w@) == after_sync_writes_spec(config.id_token@, config.refresh_token@, now),
{
    let mut w: Vec<(String, StoreValue)> = Vec::new();
    w.push(text_write("id_token", config.id_token.as_str()));
    w.push(text_write("refresh_token", config.refresh_token.as_str()));
    w.push(int_write("last_sync_ms", now));
    assert(writes_view(w@) =~= after_sync_writes_spec(config.id_token@, config.refresh_token@, now));
    w
}

/// The status a sign-in reports.
pub fn status_after_login() -> (s: SyncStatus)
    ensures
        s == (SyncStatus { logged_in: true, last_sync_ms: 0 }),
{
    SyncStatus { logged_in: true, last_sync_ms: 0 }
}

/// The refusal of a round without a sign-in.
pub open spec fn not_logged_in() -> AppErrorV {
    AppErrorV::Unauthorized("not logged in"@)
}

/// The configuration of a round, read from the store; refused while no refresh
/// token is kept.
pub fn sync_config(store: &SyncStore) -> (r: Result<FullSyncConfig, AppError>)
    ensures
        r is Err <==> text_at(store@, "refresh_token"@).len() == 0,
        r matches Err(e) ==> e@ == not_logged_in(),
        r matches Ok(c) ==> {
            &&& c.project_id@ == text_at(store@, "project_id"@)
            &&& c.api_key@ == text_at(store@, "api_key"@)
            &&& c.id_token@ == text_at(store@, "id_token"@)
            &&& c.refresh_token@ == text_at(store@, "refresh_token"@)
            &&& c.household_id@ == text_at(store@, "household_id"@)
            &&& c.last_sync_ms == int_at(store@, "last_sync_ms"@)
        },
{
    let refresh_token = store_str(store, "refresh_token");
    if refresh_token.unicode_len() == 0 {
        return Err(AppError::Unauthorized(owned("not logged in")));
    }
    Ok(
        FullSyncConfig {
            project_id: store_str(store, "project_id"),
            api_key: store_str(store, "api_key"),
            id_token: store_str(store, "id_token"),
            refresh_token,
            household_id: store_str(store, "household_id"),
            last_sync_ms: store_i64(store, "last_sync_ms"),
        },
    )
}

/// What a round reports of its counts.
pub fn sync_result(stats: SyncStats) -> (r: SyncResult)
    ensures
        r.uploaded == stats.uploaded,
        r.downloaded == stats.downloaded,
{
    SyncResult { uploaded: stats.uploaded, downloaded: stats.downloaded }
}

/// Signing out leaves any store signed out, with no last round.
pub proof fn law_logout_signs_out(store: Map<Seq<char>, StoreValueV>)
    ensures
        status_of(apply_writes(store, logout_writes_spec())) == (SyncStatus {
            logged_in: false,
            last_sync_ms: 0,
        }),
{
    reveal_strlit("project_id");
    reveal_strlit("api_key");
    reveal_strlit("id_token");
    reveal_strlit("refresh_token");
    reveal_strlit("local_id");
    reveal_strlit("household_id");
    reveal_strlit("last_sync_ms");
    let w = logout_writes_spec();
    assert(w[1].0 == "refresh_token"@ && w[2].0 == "local_id"@ && w[3].0 == "last_sync_ms"@);
    assert(w[2].0 != "refresh_token"@ && w[3].0 != "refresh_token"@);
    assert forall|j: int| 1 < j < w.len() implies w[j].0 != "refresh_token"@ by {
        assert(j == 2 || j == 3);
    }
    lemma_apply_lookup(store, w, "refresh_token"@, 1);
    lemma_apply_lookup(store, w, "last_sync_ms"@, 3);
}

/// Signing in with a refresh token leaves any store signed in with no last
/// round, the status the sign-in reports, and the next round reads back the
/// project, key, tokens and household that the sign-in wrote.
pub proof fn law_login_signs_in(
    store: Map<Seq<char>, StoreValueV>,
    project_id: Seq<char>,
    api_key: Seq<char>,
    id_token: Seq<char>,
    refresh_token: Seq<char>,
    local_id: Seq<char>,
    household_id: Seq<char>,
)
    requires
        refresh_token.len() > 0,
    ensures
        ({
            let m = apply_writes(
                store,
                login_writes_spec(project_id, api_key, id_token, refresh_token, local_id, household_id),
            );
            &&& status_of(m) == (SyncStatus { logged_in: true, last_sync_ms: 0 })
            &&& text_at(m, "project_id"@) == project_id
            &&& text_at(m, "api_key"@) == api_key
            &&& text_at(m, "id_token"@) == id_token
            &&& text_at(m, "refresh_token"@) == refresh_token
            &&& text_at(m, "household_id"@) == household_id
            &&& int_at(m, "last_sync_ms"@) == 0
        }),
{
    reveal_strlit("project_id");
    reveal_strlit("api_key");
    reveal_strlit("id_token");
    reveal_strlit("refresh_token");
    reveal_strlit("local_id");
    reveal_strlit("household_id");
    reveal_strlit("last_sync_ms");
    let w = login_writes_spec(project_id, api_key, id_token, refresh_token, local_id, household_id);
    assert(w[0].0 == "project_id"@ && w[1].0 == "api_key"@ && w[2].0 == "id_token"@ && w[3].0
        == "refresh_token"@ && w[4].0 == "local_id"@ && w[5].0 == "household_id"@ && w[6].0
        == "last_sync_ms"@);
    assert("id_token"@[0] != "local_id"@[0]);
    assert("household_id"@[0] != "last_sync_ms"@[1]);
    assert forall|i: int, j: int| 0 <= i < j < 7 implies w[j].0 != w[i].0 by {
        assert(j == 1 || j == 2 || j == 3 || j == 4 || j == 5 || j == 6);
        assert(i == 0 || i == 1 || i == 2 || i == 3 || i == 4 || i == 5);
    }
    lemma_apply_lookup(store, w, "project_id"@, 0);
    lemma_apply_lookup(store, w, "api_key"@, 1);
    lemma_apply_lookup(store, w, "id_token"@, 2);
    lemma_apply_lookup(store, w, "refresh_token"@, 3);
    lemma_apply_lookup(store, w, "household_id"@, 5);
    lemma_apply_lookup(store, w, "last_sync_ms"@, 6);
}

/// A finished round keeps the tokens it ended with and records its time;
/// every other key keeps its value.
pub proof fn law_round_recorded(
    store: Map<Seq<char>, StoreValueV>,
    id_token: Seq<char>,
    refresh_token: Seq<char>,
    now: i64,
    key: Seq<char>,
)
    ensures
        ({
            let m = apply_writes(store, after_sync_writes_spec(id_token, refresh_token, now));
            &&& text_at(m, "id_token"@) == id_token
            &&& text_at(m, "refresh_token"@) == refresh_token
            &&& int_at(m, "last_sync_ms"@) == now
            &&& (key != "id_token"@ && key != "refresh_token"@ && key != "last_sync_ms"@) ==> (
            m.contains_key(key) == store.contains_key(key) && (store.contains_key(key) ==> m[key]
                == store[key]))
        }),
{
    reveal_strlit("project_id");
    reveal_strlit("api_key");
    reveal_strlit("id_token");
    reveal_strlit("refresh_token");
    reveal_strlit("local_id");
    reveal_strlit("household_id");
    reveal_strlit("last_sync_ms");
    let w = after_sync_writes_spec(id_token, refresh_token, now);
    assert(w[0].0 == "id_token"@ && w[1].0 == "refresh_token"@ && w[2].0 == "last_sync_ms"@);
    assert forall|j: int| 0 < j < 3 implies w[j].0 != "id_token"@ by {
        assert(j == 1 || j == 2);
    }
    lemma_apply_lookup(store, w, "id_token"@, 0);
    lemma_apply_lookup(store, w, "refresh_token"@, 1);
    lemma_apply_lookup(store, w, "last_sync_ms"@, 2);
    if key != "id_token"@ && key != "refresh_token"@ && key != "last_sync_ms"@ {
        lemma_apply_lookup(store, w, key, -1);
    }
}

} // verus!
