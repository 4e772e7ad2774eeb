//! Last write wins: of two versions of one record, the one with the later
//! `updated_at` is kept on both sides.
//!
//! A synchronisation round uploads a locally changed record only when it is
//! newer than every server version of it that the round received, and stores
//! a server version only when it is newer than every local version of it.
//! Versions with the same time move nowhere.

use vstd::prelude::*;
use crate::models::account::Account;
use crate::models::budget::Budget;
use crate::models::category::Category;
use crate::models::transaction::Transaction;
use crate::text::str_eq;

verus! {

/// A record with an identity and the time it was last changed.
pub trait Stamped: Sized {
    spec fn stamp_id(&self) -> Seq<char>;

    spec fn stamp_time(&self) -> int;

    fn id_text(&self) -> (r: &str)
        ensures
            r@ == self.stamp_id(),
    ;

    fn updated(&self) -> (r: i64)
        ensures
            r == self.stamp_time(),
    ;
}

impl Stamped for Transaction {
    open spec fn stamp_id(&self) -> Seq<char> {
        self.id@
    }

    open spec fn stamp_time(&self) -> int {
        self.updated_at as int
    }

    fn id_text(&self) -> (r: &str) {
        self.id.as_str()
    }

    fn updated(&self) -> (r: i64) {
        self.updated_at
    }
}

impl Stamped for Account {
    open spec fn stamp_id(&self) -> Seq<char> {
        self.id@
    }

    open spec fn stamp_time(&self) -> int {
        self.updated_at as int
    }

    fn id_text(&self) -> (r: &str) {
        self.id.as_str()
    }

    fn updated(&self) -> (r: i64) {
        self.updated_at
    }
}

impl Stamped for Category {
    open spec fn stamp_id(&self) -> Seq<char> {
        self.id@
    }

    open spec fn stamp_time(&self) -> int {
        self.updated_at as int
    }

    fn id_text(&self) -> (r: &str) {
        self.id.as_str()
    }

    fn updated(&self) -> (r: i64) {
        self.updated_at
    }
}

impl Stamped for Budget {
    open spec fn stamp_id(&self) -> Seq<char> {
        self.id@
    }

    open spec fn stamp_time(&self) -> int {
        self.updated_at as int
    }

    fn id_text(&self) -> (r: &str) {
        self.id.as_str()
    }

    fn updated(&self) -> (r: i64) {
        self.updated_at
    }
}

/// Whether `x` is newer than every version of the same record in `others`.
pub open spec fn supersedes<T: Stamped>(x: T, others: Seq<T>) -> bool {
    forall|j: int|
        0 <= j < others.len() && #[trigger] others[j].stamp_id() == x.stamp_id() ==> others[j].stamp_time()
            < x.stamp_time()
}

/// The records of `items` that supersede their versions in `others`, in order.
pub open spec fn newer_ones<T: Stamped>(items: Seq<T>, others: Seq<T>) -> Seq<T>
    decreases items.len(),
{
    if items.len() == 0 {
        Seq::empty()
    } else {
        let rest = newer_ones(items.drop_last(), others);
        if supersedes(items.last(), others) {
            rest.push(items.last())
        } else {
            rest
        }
    }
}

/// A record is kept exactly when it is one of the items and supersedes its
/// other versions.
pub proof fn lemma_newer_ones_contains<T: Stamped>(items: Seq<T>, others: Seq<T>, x: T)
    ensures
        newer_ones(items, others).contains(x) <==> (items.contains(x) && supersedes(x, others)),
    decreases items.len(),
{
    if items.len() > 0 {
        let d = items.drop_last();
        let y = items.last();
        lemma_newer_ones_contains(d, others, x);
        let rest = newer_ones(d, others);
        lemma_push_contains(d, y, x);
        assert(d.push(y) =~= items);
        lemma_push_contains(rest, y, x);
    }
}

proof fn lemma_push_contains<T>(s: Seq<T>, y: T, x: T)
    ensures
        s.push(y).contains(x) <==> (s.contains(x) || x == y),
{
    if s.push(y).contains(x) {
        let i = choose|i: int| 0 <= i < s.push(y).len() && s.push(y)[i] == x;
        if i < s.len() {
            assert(s[i] == x);
        }
    }
    if s.contains(x) {
        let i = choose|i: int| 0 <= i < s.len() && s[i] == x;
        assert(s.push(y)[i] == x);
    }
    assert(s.push(y)[s.len() as int] == y);
}

fn supersedes_all<T: Stamped>(x: &T, others: &Vec<T>) -> (b: bool)
    ensures
        b == supersedes(*x, others@),
{
    let mut j: usize = 0;
    while j < others.len()
        invariant
            j <= others@.len(),
            forall|k: int|
                0 <= k < j && #[trigger] others@[k].stamp_id() == x.stamp_id() ==> others@[k].stamp_time()
                    < x.stamp_time(),
        decreases others@.len() - j,
    {
        if str_eq(others[j].id_text(), x.id_text()) && others[j].updated() >= x.updated() {
            assert(others@[j as int].stamp_id() == x.stamp_id());
            return false;
        }
        j = j + 1;
    }
    true
}

/// The records of `items` that are newer than their versions in `others`, in order.
pub fn keep_newer<T: Stamped>(items: Vec<T>, others: &Vec<T>) -> (r: Vec<T>)
    ensures
        r@ == newer_ones(items@, others@),
{
    let ghost all = items@;
    let n = items.len();
    let mut rest = items;
    let mut kept: Vec<T> = Vec::new();
    let mut k: usize = 0;
    while rest.len() > 0
        invariant
            n == all.len(),
            k + rest@.len() == n,
            rest@ == all.subrange(k as int, n as int),
            kept@ == newer_ones(all.take(k as int), others@),
        decreases rest.len(),
    {
        let x = rest.remove(0);
        proof {
            assert(all.take(k + 1).drop_last() =~= all.take(k as int));
            assert(all.take(k + 1).last() == x);
            assert(rest@ =~= all.subrange(k + 1, n as int));
        }
        if supersedes_all(&x, others) {
            kept.push(x);
        }
        k = k + 1;
    }
    proof {
        assert(all.take(n as int) =~= all);
    }
    kept
}

/// Last write wins by `updated_at`. Take a record that has a version `l` among
/// the local changes and a version `s` among the server's, one version a side:
/// the newer version is the one that moves — a newer local version is
/// uploaded and the server's is not stored, a newer server version is stored
/// and the local one is not uploaded — and versions of the same time move
/// nowhere.
pub proof fn law_last_write_wins<T: Stamped>(local: Seq<T>, server: Seq<T>, l: T, s: T)
    requires
        local.contains(l),
        server.contains(s),
        l.stamp_id() == s.stamp_id(),
        forall|i: int| 0 <= i < local.len() && #[trigger] local[i].stamp_id() == l.stamp_id() ==> local[i] == l,
        forall|i: int| 0 <= i < server.len() && #[trigger] server[i].stamp_id() == s.stamp_id() ==> server[i] == s,
    ensures
        l.stamp_time() > s.stamp_time() ==> newer_ones(local, server).contains(l) && !newer_ones(
            server,
            local,
        ).contains(s),
        s.stamp_time() > l.stamp_time() ==> newer_ones(server, local).contains(s) && !newer_ones(
            local,
            server,
        ).contains(l),
        l.stamp_time() == s.stamp_time() ==> !newer_ones(local, server).contains(l) && !newer_ones(
            server,
            local,
        ).contains(s),
{
    lemma_newer_ones_contains(local, server, l);
    lemma_newer_ones_contains(server, local, s);
    let i = choose|i: int| 0 <= i < local.len() && local[i] == l;
    let j = choose|j: int| 0 <= j < server.len() && server[j] == s;
    assert(local[i].stamp_id() == s.stamp_id());
    assert(server[j].stamp_id() == l.stamp_id());
}

} // verus!
