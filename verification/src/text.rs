//! Substring search over character sequences.
//!
//! The registry URL is split on a literal separator, and the laws about
//! assembled command lines speak of flag occurrences; both rest on the
//! notion of a pattern occurring at a position in a sequence of characters.

use vstd::prelude::*;

verus! {

/// `pat` occurs in `s` starting at position `i`.
pub open spec fn occurs_at(s: Seq<char>, pat: Seq<char>, i: int) -> bool {
    &&& 0 <= i
    &&& i + pat.len() <= s.len()
    &&& s.subrange(i, i + pat.len() as int) == pat
}

/// Position of the first occurrence of `pat` in `s` at or after `from`,
/// `None` when `pat` does not occur there.
pub open spec fn first_occurrence(s: Seq<char>, pat: Seq<char>, from: int) -> Option<int>
    decreases s.len() - from + 1,
{
    if from < 0 || from + pat.len() > s.len() {
        None
    } else if occurs_at(s, pat, from) {
        Some(from)
    } else {
        first_occurrence(s, pat, from + 1)
    }
}

/// A `Some` answer of `first_occurrence` is a genuine occurrence at or
/// after the starting point.
pub proof fn lemma_first_occurrence_some(s: Seq<char>, pat: Seq<char>, from: int, j: int)
    requires
        first_occurrence(s, pat, from) == Some(j),
    ensures
        from <= j,
        occurs_at(s, pat, j),
    decreases s.len() - from + 1,
{
    if from < 0 || from + pat.len() > s.len() {
    } else if occurs_at(s, pat, from) {
    } else {
        lemma_first_occurrence_some(s, pat, from + 1, j);
    }
}

/// An occurrence inside `s` survives appending `t` on the right.
pub proof fn lemma_occurs_in_prefix(s: Seq<char>, t: Seq<char>, pat: Seq<char>, i: int)
    requires
        occurs_at(s, pat, i),
    ensures
        occurs_at(s + t, pat, i),
{
    assert((s + t).subrange(i, i + pat.len() as int) =~= s.subrange(i, i + pat.len() as int));
}

/// An occurrence inside `t` shifts right by `s.len()` when `s` is put in front.
pub proof fn lemma_occurs_in_suffix(s: Seq<char>, t: Seq<char>, pat: Seq<char>, i: int)
    requires
        occurs_at(t, pat, i),
    ensures
        occurs_at(s + t, pat, s.len() + i),
{
    assert((s + t).subrange(s.len() + i, s.len() + i + pat.len() as int) =~= t.subrange(
        i,
        i + pat.len() as int,
    ));
}

/// A sequence occurs in itself at position zero.
pub proof fn lemma_occurs_in_self(pat: Seq<char>)
    ensures
        occurs_at(pat, pat, 0),
{
    assert(pat.subrange(0, pat.len() as int) =~= pat);
}

/// Whether `pat` occurs in `s` at the given position, decided by
/// comparing characters.
fn matches_at(s: &str, pat: &str, i: usize) -> (r: bool)
    requires
        i + pat@.len() <= s@.len(),
    ensures
        r == occurs_at(s@, pat@, i as int),
{
    let n = s.unicode_len();
    let m = pat.unicode_len();
    let mut k: usize = 0;
    while k < m
        invariant
            k <= m,
            m == pat@.len(),
            n == s@.len(),
            i + m <= n,
            forall|k2: int| 0 <= k2 < k ==> s@[i + k2] == pat@[k2],
        decreases m - k,
    {
        if s.get_char(i + k) != pat.get_char(k) {
            proof {
                assert(s@.subrange(i as int, i + m as int)[k as int] == s@[i + k]);
            }
            return false;
        }
        k = k + 1;
    }
    proof {
        assert(s@.subrange(i as int, i + m as int) =~= pat@);
    }
    true
}

/// First position at or after `from` where `pat` occurs in `s`, found by
/// scanning left to right.
pub fn find_from(s: &str, pat: &str, from: usize) -> (r: Option<usize>)
    requires
        from <= s@.len(),
    ensures
        match r {
            Some(i) => first_occurrence(s@, pat@, from as int) == Some(i as int),
            None => first_occurrence(s@, pat@, from as int) is None,
        },
{
    let n = s.unicode_len();
    let m = pat.unicode_len();
    if m > n || from > n - m {
        return None;
    }
    let mut i = from;
    loop
        invariant
            from <= i <= n - m,
            m <= n,
            n == s@.len(),
            m == pat@.len(),
            first_occurrence(s@, pat@, from as int) == first_occurrence(s@, pat@, i as int),
        decreases n - m - i,
    {
        if matches_at(s, pat, i) {
            return Some(i);
        }
        if i == n - m {
            proof {
                assert(first_occurrence(s@, pat@, i + 1) is None);
            }
            return None;
        }
        i = i + 1;
    }
}

} // verus!
