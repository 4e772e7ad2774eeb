//! Fresh identifiers for new records.

use vstd::prelude::*;

verus! {

/// A lowercase hexadecimal digit.
pub open spec fn is_lower_hex(c: char) -> bool {
    ('0' <= c && c <= '9') || ('a' <= c && c <= 'f')
}

/// The text of a version-4 uuid: 32 lowercase hexadecimal digits in groups of
/// 8, 4, 4, 4 and 12 joined by hyphens, the version digit 4 opening the third
/// group and one of 8, 9, a, b opening the fourth.
pub open spec fn uuid_v4_text(s: Seq<char>) -> bool {
    &&& s.len() == 36
    &&& forall|i: int|
        0 <= i < 36 ==> if i == 8 || i == 13 || i == 18 || i == 23 {
            s[i] == '-'
        } else {
            is_lower_hex(#[trigger] s[i])
        }
    &&& s[14] == '4'
    &&& (s[19] == '8' || s[19] == '9' || s[19] == 'a' || s[19] == 'b')
}

/// A new random identifier: `Uuid::new_v4().to_string()`. `new_v4` fixes the
/// version and variant bits and draws the others at random; `to_string` writes
/// the hyphenated lowercase form. Which uuid comes out is left open.
#[verifier::external_body]
pub(crate) fn new_id() -> (r: String)
    ensures
        uuid_v4_text(r@),
{
    uuid::Uuid::new_v4().to_string()
}

/// The given identifier, or a new one when none is given.
pub fn id_or_new(id: Option<String>) -> (r: String)
    ensures
        id matches Some(s) ==> r@ == s@,
        id is None ==> uuid_v4_text(r@),
{
    match id {
        Some(s) => s,
        None => new_id(),
    }
}

} // verus!
