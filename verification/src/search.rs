//! Searching a byte sequence for a contiguous run of bytes.

use vstd::prelude::*;

verus! {

/// Whether `needle` lies in `haystack` at offset `at`.
pub open spec fn occurs_at(needle: Seq<u8>, haystack: Seq<u8>, at: int) -> bool {
    &&& 0 <= at
    &&& at + needle.len() <= haystack.len()
    &&& haystack.subrange(at, at + needle.len()) == needle
}

/// Whether `needle` lies somewhere in `haystack`. The empty sequence lies in
/// every sequence.
pub open spec fn occurs_in(needle: Seq<u8>, haystack: Seq<u8>) -> bool {
    exists|at: int| occurs_at(needle, haystack, at)
}

/// Compares `needle` with the bytes of `haystack` that start at `at`.
pub fn matches_at(haystack: &[u8], needle: &[u8], at: usize) -> (found: bool)
    requires
        at + needle@.len() <= haystack@.len(),
    ensures
        found == occurs_at(needle@, haystack@, at as int),
{
    let total: usize = haystack.len();
    let len: usize = needle.len();
    let mut i: usize = 0;
    while i < len
        invariant
            i <= len,
            len == needle@.len(),
            total == haystack@.len(),
            at + len <= total,
            forall|j: int| 0 <= j < i ==> haystack@[at + j] == needle@[j],
        decreases len - i,
    {
        if haystack[at + i] != needle[i] {
            assert(haystack@.subrange(at as int, at + len)[i as int] != needle@[i as int]);
            return false;
        }
        i += 1;
    }
    assert(haystack@.subrange(at as int, at + len) =~= needle@);
    true
}

/// Whether `needle` lies somewhere in `haystack`.
pub fn contains_bytes(haystack: &[u8], needle: &[u8]) -> (found: bool)
    ensures
        found == occurs_in(needle@, haystack@),
{
    let total: usize = haystack.len();
    let len: usize = needle.len();
    if len > total {
        return false;
    }
    let last: usize = total - len;
    let mut at: usize = 0;
    loop
        invariant
            at <= last,
            total == haystack@.len(),
            len == needle@.len(),
            last == total - len,
            forall|k: int| 0 <= k < at ==> !occurs_at(needle@, haystack@, k),
        decreases last - at,
    {
        if matches_at(haystack, needle, at) {
            return true;
        }
        if at == last {
            return false;
        }
        at += 1;
    }
}

} // verus!
