//! The token scanner: a single-pass search for an arbitrary byte-sequence
//! delimiter inside the input, delivering every byte before the match to the
//! caller's sink.  Not finding the token is reported, not an error: callers
//! translate it into a context-specific parse error.

use vstd::prelude::*;

verus! {

/// The token matches `s` at position `i`.
pub open spec fn spec_match_at(s: Seq<u8>, i: int, token: Seq<u8>) -> bool {
    0 <= i && i + token.len() <= s.len() && s.subrange(i, i + token.len()) == token
}

/// The first position at or after `from` where the token matches, if any.
pub open spec fn spec_find(s: Seq<u8>, from: int, token: Seq<u8>) -> Option<int>
    decreases s.len() - from,
{
    if from < 0 || from + token.len() > s.len() || token.len() == 0 {
        None
    } else if spec_match_at(s, from, token) {
        Some(from)
    } else {
        spec_find(s, from + 1, token)
    }
}

/// A found position is a match, lies at or after `from`, and no earlier
/// position at or after `from` matches; `None` means no position matches.
pub proof fn lemma_spec_find(s: Seq<u8>, from: int, token: Seq<u8>)
    requires
        0 <= from,
        token.len() >= 1,
    ensures
        match spec_find(s, from, token) {
            Some(i) => spec_match_at(s, i, token) && from <= i && forall|j: int|
                from <= j < i ==> !spec_match_at(s, j, token),
            None => forall|j: int| from <= j ==> !spec_match_at(s, j, token),
        },
    decreases s.len() - from,
{
    if from + token.len() > s.len() {
        assert forall|j: int| from <= j implies !spec_match_at(s, j, token) by {}
    } else if spec_match_at(s, from, token) {
    } else {
        lemma_spec_find(s, from + 1, token);
    }
}

/// Detection does not depend on where an input's delivery happens to be
/// split: the scan is specified over the whole stream, so wherever the
/// token matches — in particular with its bytes straddling any internal
/// refill border — the scan reports a position, and one at or before that
/// match.  A miss means no position of the whole stream matches.
pub proof fn lemma_match_is_found(s: Seq<u8>, i: int, token: Seq<u8>)
    requires
        token.len() >= 1,
        spec_match_at(s, i, token),
    ensures
        spec_find(s, 0, token) is Some,
        spec_find(s, 0, token)->Some_0 <= i,
{
    lemma_spec_find(s, 0, token);
}

/// A match with no earlier match at or after `from` is exactly what the
/// scan from `from` reports.
pub proof fn lemma_find_first_at_from(s: Seq<u8>, from: int, k: int, token: Seq<u8>)
    requires
        token.len() >= 1,
        0 <= from <= k,
        spec_match_at(s, k, token),
        forall|j: int| from <= j < k ==> !spec_match_at(s, j, token),
    ensures
        spec_find(s, from, token) == Some(k),
{
    lemma_spec_find(s, from, token);
    match spec_find(s, from, token) {
        None => {
            assert(false);
        },
        Some(i) => {
            if i < k {
            } else if i > k {
            }
        },
    }
}

/// A match with no earlier match is exactly what the scan reports.
pub proof fn lemma_find_first_at(s: Seq<u8>, k: int, token: Seq<u8>)
    requires
        token.len() >= 1,
        spec_match_at(s, k, token),
        forall|j: int| 0 <= j < k ==> !spec_match_at(s, j, token),
    ensures
        spec_find(s, 0, token) == Some(k),
{
    lemma_find_first_at_from(s, 0, k, token);
}

/// Where no byte equals the token's first byte, the token matches nowhere.
pub proof fn lemma_find_none_without_first_byte(s: Seq<u8>, token: Seq<u8>)
    requires
        token.len() >= 1,
        forall|j: int| 0 <= j < s.len() ==> s[j] != token[0],
    ensures
        spec_find(s, 0, token) is None,
{
    lemma_spec_find(s, 0, token);
    match spec_find(s, 0, token) {
        None => {},
        Some(i) => {
            assert(s.subrange(i, i + token.len() as int)[0] == s[i]);
            assert(false);
        },
    }
}

/// Searching the suffix `s[lo..]` from its start agrees with searching `s`
/// itself from `lo + k`, up to the shift of positions by `lo`.
pub proof fn lemma_shift_find_from(s: Seq<u8>, lo: int, k: int, token: Seq<u8>)
    requires
        0 <= lo <= s.len(),
        0 <= k,
        token.len() >= 1,
    ensures
        match spec_find(s, lo + k, token) {
            Some(i) => spec_find(s.subrange(lo, s.len() as int), k, token) == Some(i - lo),
            None => spec_find(s.subrange(lo, s.len() as int), k, token) is None,
        },
    decreases s.len() - lo - k,
{
    let sub = s.subrange(lo, s.len() as int);
    if lo + k + token.len() > s.len() {
    } else {
        assert(sub.subrange(k, k + token.len() as int) =~= s.subrange(
            lo + k,
            lo + k + token.len() as int,
        ));
        if spec_match_at(s, lo + k, token) {
        } else {
            lemma_shift_find_from(s, lo, k + 1, token);
        }
    }
}

/// Searching the suffix `s[lo..]` from its start agrees with searching `s`
/// itself from `lo`, up to the shift of positions by `lo`.
pub proof fn lemma_shift_find(s: Seq<u8>, lo: int, hi: int, token: Seq<u8>)
    requires
        0 <= lo <= hi == s.len(),
        token.len() >= 1,
    ensures
        match spec_find(s, lo, token) {
            Some(i) => spec_find(s.subrange(lo, hi), 0, token) == Some(i - lo),
            None => spec_find(s.subrange(lo, hi), 0, token) is None,
        },
{
    lemma_shift_find_from(s, lo, 0, token);
}

/// Whether `token` matches `src` at position `at`.
fn match_at(src: &[u8], at: usize, token: &[u8]) -> (r: bool)
    requires
        at + token.len() <= src.len(),
    ensures
        r == spec_match_at(src@, at as int, token@),
{
    let mut k: usize = 0;
    while k < token.len()
        invariant
            k <= token.len(),
            at + token.len() <= src.len(),
            forall|j: int| 0 <= j < k ==> src@[at + j] == token@[j],
        decreases token.len() - k,
    {
        if src[at + k] != token[k] {
            assert(src@.subrange(at as int, at + token@.len())[k as int] != token@[k as int]);
            return false;
        }
        k = k + 1;
    }
    assert(src@.subrange(at as int, at + token@.len()) =~= token@);
    true
}

/// Finds the first occurrence of `token` in `src` at or after `from`.
///
/// `None` is reported exactly when the token matches nowhere in the rest of
/// the input; the caller then knows every remaining byte is plain content.
pub fn find_token(src: &[u8], from: usize, token: &[u8]) -> (r: Option<usize>)
    requires
        from <= src.len(),
        token@.len() >= 1,
    ensures
        match r {
            Some(i) => from <= i && i + token@.len() <= src@.len() && spec_find(
                src@,
                from as int,
                token@,
            ) == Some(i as int),
            None => spec_find(src@, from as int, token@) is None,
        },
{
    if token.len() > src.len() || from > src.len() - token.len() {
        return None;
    }
    let mut i: usize = from;
    while i <= src.len() - token.len()
        invariant
            from <= i,
            1 <= token.len() <= src.len(),
            i <= src.len() - token.len() + 1,
            spec_find(src@, from as int, token@) == spec_find(src@, i as int, token@),
        decreases src.len() - i,
    {
        if match_at(src, i, token) {
            return Some(i);
        }
        i = i + 1;
    }
    None
}

} // verus!
