//! Byte-sequence primitives: matching a pattern at a position, finding
//! the first occurrence of a pattern, and copying a range of bytes.
//! The multipart wire format and the storage-path derivation are both
//! stated over these.

use vstd::prelude::*;

verus! {

/// The pattern `pat` occurs in `s` at position `i`.
pub open spec fn match_at(s: Seq<u8>, pat: Seq<u8>, i: int) -> bool {
    &&& 0 <= i
    &&& i + pat.len() <= s.len()
    &&& forall|k: int| 0 <= k < pat.len() ==> s[i + k] == pat[k]
}

/// The position of the first occurrence of `pat` in `s` at or after
/// `from`, or `None` if there is none.
pub open spec fn find_from(s: Seq<u8>, pat: Seq<u8>, from: int) -> Option<int>
    decreases s.len() - from,
{
    if from < 0 || from + pat.len() > s.len() {
        None
    } else if match_at(s, pat, from) {
        Some(from)
    } else {
        find_from(s, pat, from + 1)
    }
}

/// A found occurrence lies at or after the start of the search, the
/// pattern occurs there, and nothing matches earlier in the range.
pub proof fn lemma_find_from_some(s: Seq<u8>, pat: Seq<u8>, from: int, r: int)
    requires
        find_from(s, pat, from) == Some(r),
    ensures
        from <= r,
        r + pat.len() <= s.len(),
        match_at(s, pat, r),
        forall|j: int| from <= j < r ==> !match_at(s, pat, j),
    decreases s.len() - from,
{
    if from < 0 || from + pat.len() > s.len() {
    } else if match_at(s, pat, from) {
    } else {
        lemma_find_from_some(s, pat, from + 1, r);
    }
}

/// A position that matches, with no match before it in the range,
/// is exactly what the search returns.
pub proof fn lemma_find_from_first(s: Seq<u8>, pat: Seq<u8>, from: int, k: int)
    requires
        0 <= from <= k,
        match_at(s, pat, k),
        forall|j: int| from <= j < k ==> !match_at(s, pat, j),
    ensures
        find_from(s, pat, from) == Some(k),
    decreases k - from,
{
    if from == k {
    } else {
        lemma_find_from_first(s, pat, from + 1, k);
    }
}

/// A single mismatched byte refutes a match.
pub proof fn lemma_mismatch(s: Seq<u8>, pat: Seq<u8>, j: int, k: int)
    requires
        0 <= k < pat.len(),
        s[j + k] != pat[k],
    ensures
        !match_at(s, pat, j),
{
    if match_at(s, pat, j) {
        assert(s[j + k] == pat[k]);
    }
}

/// A search steps over a position where the pattern does not match.
pub proof fn lemma_find_step(s: Seq<u8>, pat: Seq<u8>, from: int)
    requires
        0 <= from,
        from + pat.len() <= s.len(),
        !match_at(s, pat, from),
    ensures
        find_from(s, pat, from) == find_from(s, pat, from + 1),
{
}

/// A match that lies within `h` is unaffected by what follows `h`.
pub proof fn lemma_prefix_match(h: Seq<u8>, rest: Seq<u8>, pat: Seq<u8>, j: int)
    requires
        0 <= j,
        j + pat.len() <= h.len(),
    ensures
        match_at(h + rest, pat, j) == match_at(h, pat, j),
{
    let s = h + rest;
    if match_at(h, pat, j) {
        assert forall|k: int| 0 <= k < pat.len() implies s[j + k] == pat[k] by {
            assert(s[j + k] == h[j + k]);
        }
    }
    if match_at(s, pat, j) {
        assert forall|k: int| 0 <= k < pat.len() implies h[j + k] == pat[k] by {
            assert(s[j + k] == h[j + k]);
        }
    }
}

/// A first occurrence found within `h` is also the first occurrence in
/// `h` followed by anything.
pub proof fn lemma_prefix_find(h: Seq<u8>, rest: Seq<u8>, pat: Seq<u8>, from: int, k: int)
    requires
        0 <= from,
        find_from(h, pat, from) == Some(k),
    ensures
        find_from(h + rest, pat, from) == Some(k),
{
    lemma_find_from_some(h, pat, from, k);
    lemma_prefix_match(h, rest, pat, k);
    assert forall|j: int| from <= j < k implies !match_at(h + rest, pat, j) by {
        lemma_prefix_match(h, rest, pat, j);
    }
    lemma_find_from_first(h + rest, pat, from, k);
}

/// Reports whether `pat` occurs in `s` at position `i`.
pub fn is_match_at(s: &Vec<u8>, pat: &Vec<u8>, i: usize) -> (r: bool)
    ensures
        r == match_at(s@, pat@, i as int),
{
    if i > s.len() || pat.len() > s.len() - i {
        return false;
    }
    let mut k: usize = 0;
    while k < pat.len()
        invariant
            i + pat.len() <= s.len(),
            k <= pat.len(),
            forall|t: int| 0 <= t < k ==> s@[i + t] == pat@[t],
        decreases pat.len() - k,
    {
        if s[i + k] != pat[k] {
            return false;
        }
        k += 1;
    }
    true
}

/// Finds the first occurrence of `pat` in `s` at or after `from`.
pub fn find_pattern(s: &Vec<u8>, pat: &Vec<u8>, from: usize) -> (r: Option<usize>)
    ensures
        match r {
            Some(i) => find_from(s@, pat@, from as int) == Some(i as int),
            None => find_from(s@, pat@, from as int) is None,
        },
{
    let mut i: usize = from;
    loop
        invariant
            from <= i,
            find_from(s@, pat@, from as int) == find_from(s@, pat@, i as int),
        decreases s@.len() + 1 - i,
    {
        if i > s.len() || pat.len() > s.len() - i {
            return None;
        }
        if is_match_at(s, pat, i) {
            return Some(i);
        }
        i += 1;
    }
}

/// Copies the bytes of `s` from position `from` up to (excluding) `to`.
pub fn sub_vec(s: &Vec<u8>, from: usize, to: usize) -> (r: Vec<u8>)
    requires
        from <= to <= s@.len(),
    ensures
        r@ == s@.subrange(from as int, to as int),
{
    let mut out: Vec<u8> = Vec::new();
    let mut i: usize = from;
    while i < to
        invariant
            from <= i <= to <= s@.len(),
            out@ == s@.subrange(from as int, i as int),
        decreases to - i,
    {
        out.push(s[i]);
        assert(out@ =~= s@.subrange(from as int, i + 1 as int));
        i += 1;
    }
    out
}

} // verus!
