//! Text helpers: searching in UTF-8 text, and the two operations of the
//! standard library on text that the matching rules lean on.

use vstd::prelude::*;
use vstd::utf8::encode_utf8;
use crate::search::{contains_bytes, occurs_in};

verus! {

/// Whether the UTF-8 encoding of `word` lies in that of `text`.
pub open spec fn text_contains(text: Seq<char>, word: Seq<char>) -> bool {
    occurs_in(encode_utf8(word), encode_utf8(text))
}

/// Whether `word` lies in `text`.
pub fn contains_text(text: &str, word: &str) -> (found: bool)
    ensures
        found == text_contains(text@, word@),
{
    contains_bytes(text.as_bytes(), word.as_bytes())
}

/// Whether two texts have the same UTF-8 encoding.
pub fn same_text(left: &str, right: &str) -> (same: bool)
    ensures
        same == (encode_utf8(left@) == encode_utf8(right@)),
{
    let a = left.as_bytes();
    let b = right.as_bytes();
    if a.len() != b.len() {
        return false;
    }
    let len: usize = a.len();
    let mut i: usize = 0;
    while i < len
        invariant
            i <= len,
            len == a@.len(),
            len == b@.len(),
            a@ == encode_utf8(left@),
            b@ == encode_utf8(right@),
            forall|j: int| 0 <= j < i ==> a@[j] == b@[j],
        decreases len - i,
    {
        if a[i] != b[i] {
            assert(a@[i as int] != b@[i as int]);
            return false;
        }
        i += 1;
    }
    assert(a@ =~= b@);
    true
}

/// The lowercase form of a text, as `str::to_lowercase` of the standard
/// library gives it.
pub uninterp spec fn lowercase_of(text: Seq<char>) -> Seq<char>;

/// Calls `str::to_lowercase`. Trusted: the result is the lowercase form named
/// by [`lowercase_of`], which depends on the text alone.
#[verifier::external_body]
pub(crate) fn to_lowercase(text: &str) -> (lowered: String)
    ensures
        lowered@ == lowercase_of(text@),
{
    text.to_lowercase()
}

/// `text` with every match of `from` replaced by `to`, as `str::replace` of
/// the standard library gives it.
pub uninterp spec fn replaced(text: Seq<char>, from: Seq<char>, to: Seq<char>) -> Seq<char>;

/// Calls `str::replace`. Trusted: the result is the text named by
/// [`replaced`], which depends on the three arguments alone.
#[verifier::external_body]
pub(crate) fn replace_all(text: &str, from: &str, to: &str) -> (out: String)
    ensures
        out@ == replaced(text@, from@, to@),
{
    text.replace(from, to)
}

} // verus!
