//! Firestore documents as the mapping reads and writes them.
//!
//! A Firestore REST value is a JSON object with one key naming its kind
//! (`{"stringValue": "..."}`, `{"integerValue": "42"}`, `{"booleanValue": true}`,
//! `{"nullValue": null}`). [`FsValue`] holds what the mapping looks at in such an
//! object; [`Fields`] holds the fields of a document by name.

use vstd::prelude::*;
use crate::text::opt_view;

verus! {

/// The parts of a Firestore value object that the mapping reads: the string
/// under `stringValue`, the string under `integerValue`, the boolean under
/// `booleanValue` (each when present with that JSON kind), and whether the key
/// `nullValue` is present.
#[derive(Debug, Clone)]
pub struct FsValue {
    pub string_value: Option<String>,
    pub integer_value: Option<String>,
    pub boolean_value: Option<bool>,
    pub is_null: bool,
}

pub struct FsValueV {
    pub string_value: Option<Seq<char>>,
    pub integer_value: Option<Seq<char>>,
    pub boolean_value: Option<bool>,
    pub is_null: bool,
}

impl View for FsValue {
    type V = FsValueV;

    open spec fn view(&self) -> FsValueV {
        FsValueV {
            string_value: opt_view(self.string_value),
            integer_value: opt_view(self.integer_value),
            boolean_value: self.boolean_value,
            is_null: self.is_null,
        }
    }
}

/// The fields of a document in insertion order; a later entry for a name
/// replaces an earlier one, as in a JSON object.
#[derive(Debug, Clone)]
pub struct Fields {
    pub entries: Vec<(String, FsValue)>,
}

/// The document described by a list of entries.
pub open spec fn entries_map(s: Seq<(String, FsValue)>) -> Map<Seq<char>, FsValueV>
    decreases s.len(),
{
    if s.len() == 0 {
        Map::empty()
    } else {
        entries_map(s.drop_last()).insert(s.last().0@, s.last().1@)
    }
}

impl View for Fields {
    type V = Map<Seq<char>, FsValueV>;

    open spec fn view(&self) -> Map<Seq<char>, FsValueV> {
        entries_map(self.entries@)
    }
}

/// The last entry with a given name decides its value; a name no entry has is absent.
proof fn lemma_entries_lookup(s: Seq<(String, FsValue)>, k: Seq<char>, i: int)
    requires
        -1 <= i < s.len(),
        i >= 0 ==> s[i].0@ == k,
        forall|j: int| i < j < s.len() ==> s[j].0@ != k,
    ensures
        i >= 0 ==> entries_map(s).contains_key(k) && entries_map(s)[k] == s[i].1@,
        i < 0 ==> !entries_map(s).contains_key(k),
    decreases s.len(),
{
    if s.len() > 0 && i < s.len() - 1 {
        lemma_entries_lookup(s.drop_last(), k, i);
    }
}

impl Fields {
    /// A document without fields.
    pub fn new() -> (f: Fields)
        ensures
            f@ == Map::<Seq<char>, FsValueV>::empty(),
    {
        Fields { entries: Vec::new() }
    }

    /// Sets field `key` to `value`.
    pub fn insert(&mut self, key: String, value: FsValue)
        ensures
            final(self)@ == old(self)@.insert(key@, value@),
    {
        let ghost before = self.entries@;
        self.entries.push((key, value));
        assert(self.entries@.drop_last() =~= before);
    }

    /// The value of field `key`, if the document has one.
    pub fn get(&self, key: &str) -> (r: Option<&FsValue>)
        ensures
            r is Some <==> self@.contains_key(key@),
            r matches Some(v) ==> v@ == self@[key@],
    {
        let mut i: usize = self.entries.len();
        while i > 0
            invariant
                i <= self.entries@.len(),
                forall|j: int| i <= j < self.entries@.len() ==> self.entries@[j].0@ != key@,
            decreases i,
        {
            i = i - 1;
            if crate::text::str_eq(self.entries[i].0.as_str(), key) {
                proof {
                    lemma_entries_lookup(self.entries@, key@, i as int);
                }
                return Some(&self.entries[i].1);
            }
        }
        proof {
            lemma_entries_lookup(self.entries@, key@, -1);
        }
        None
    }
}

} // verus!
