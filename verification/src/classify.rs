//! Classification of activation records.
//!
//! An activation record is an opaque character sequence. Whether it is an
//! identity-provider callback is decided by one content check: does the
//! record contain the fixed provider marker as a contiguous substring?

use vstd::prelude::*;

verus! {

/// The needle `n` occurs in the haystack `h` starting at position `i`.
pub open spec fn match_at(h: Seq<char>, n: Seq<char>, i: int) -> bool {
    0 <= i && i + n.len() <= h.len() && h.subrange(i, i + n.len() as int) == n
}

/// The needle `n` occurs somewhere in the haystack `h`.
pub open spec fn contains_seq(h: Seq<char>, n: Seq<char>) -> bool {
    exists|i: int| match_at(h, n, i)
}

/// The provider marker: a record is an identity-provider callback exactly
/// when this token occurs in it.
pub open spec fn provider_marker() -> Seq<char> {
    "clerk"@
}

/// The classification predicate over activation records.
pub open spec fn is_provider_callback(record: Seq<char>) -> bool {
    contains_seq(record, provider_marker())
}

/// Does `needle` occur in `haystack` starting at character position `i`?
fn matches_at(haystack: &str, needle: &str, i: usize) -> (m: bool)
    requires
        i + needle@.len() <= haystack@.len(),
    ensures
        m == match_at(haystack@, needle@, i as int),
{
    let h_len: usize = haystack.unicode_len();
    let n_len: usize = needle.unicode_len();
    let mut j: usize = 0;
    while j < n_len
        invariant
            h_len == haystack@.len(),
            n_len == needle@.len(),
            i + n_len <= haystack@.len(),
            j <= n_len,
            forall|t: int| 0 <= t < j ==> haystack@[i + t] == needle@[t],
        decreases n_len - j,
    {
        if haystack.get_char(i + j) != needle.get_char(j) {
            return false;
        }
        j = j + 1;
    }
    assert(haystack@.subrange(i as int, i + n_len as int) =~= needle@);
    true
}

/// Substring containment over character sequences, checked position by
/// position.
pub fn str_contains(haystack: &str, needle: &str) -> (found: bool)
    ensures
        found == contains_seq(haystack@, needle@),
{
    let h_len: usize = haystack.unicode_len();
    let n_len: usize = needle.unicode_len();
    if n_len > h_len {
        return false;
    }
    if n_len == 0 {
        assert(match_at(haystack@, needle@, 0)) by {
            assert(haystack@.subrange(0, 0) =~= needle@);
        }
        return true;
    }
    let mut i: usize = 0;
    while i <= h_len - n_len
        invariant
            h_len == haystack@.len(),
            n_len == needle@.len(),
            1 <= n_len <= h_len,
            i <= h_len - n_len + 1,
            forall|k: int| 0 <= k < i ==> !match_at(haystack@, needle@, k),
        decreases h_len - n_len + 1 - i,
    {
        if matches_at(haystack, needle, i) {
            return true;
        }
        i = i + 1;
    }
    false
}

/// Classify one activation record: is it an identity-provider callback?
pub fn classify(record: &str) -> (matching: bool)
    ensures
        matching == is_provider_callback(record@),
{
    str_contains(record, "clerk")
}

} // verus!
