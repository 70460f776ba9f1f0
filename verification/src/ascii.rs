//! Byte-level ASCII helpers: case folding, whitespace trimming, and range
//! copies.  Header names, media types and parameter keys compare
//! case-insensitively; values are trimmed of surrounding blanks.

use vstd::prelude::*;

verus! {

/// ASCII lower-casing of a single byte.
pub open spec fn spec_lower_byte(b: u8) -> u8 {
    if 65 <= b && b <= 90 {
        (b + 32) as u8
    } else {
        b
    }
}

/// ASCII lower-casing of a byte sequence.
pub open spec fn spec_lower(s: Seq<u8>) -> Seq<u8> {
    s.map(|_i: int, b: u8| spec_lower_byte(b))
}

/// Space or horizontal tab: the blanks trimmed around header values.
pub open spec fn spec_is_blank(b: u8) -> bool {
    b == 32 || b == 9
}

/// The sequence without its leading blanks.
pub open spec fn spec_trim_front(s: Seq<u8>) -> Seq<u8>
    decreases s.len(),
{
    if s.len() > 0 && spec_is_blank(s[0]) {
        spec_trim_front(s.drop_first())
    } else {
        s
    }
}

/// The sequence without its trailing blanks.
pub open spec fn spec_trim_back(s: Seq<u8>) -> Seq<u8>
    decreases s.len(),
{
    if s.len() > 0 && spec_is_blank(s[s.len() - 1]) {
        spec_trim_back(s.drop_last())
    } else {
        s
    }
}

/// The sequence without leading or trailing blanks.
pub open spec fn spec_trim(s: Seq<u8>) -> Seq<u8> {
    spec_trim_back(spec_trim_front(s))
}

/// Whether two byte sequences are equal up to ASCII case.
pub open spec fn spec_eq_fold(a: Seq<u8>, b: Seq<u8>) -> bool {
    spec_lower(a) == spec_lower(b)
}

/// Case-insensitive equality of two byte slices.
pub fn eq_fold(a: &[u8], b: &[u8]) -> (r: bool)
    ensures
        r == spec_eq_fold(a@, b@),
{
    if a.len() != b.len() {
        assert(spec_lower(a@).len() != spec_lower(b@).len());
        return false;
    }
    let mut i: usize = 0;
    while i < a.len()
        invariant
            i <= a.len(),
            a@.len() == b@.len(),
            forall|j: int| 0 <= j < i ==> spec_lower_byte(a@[j]) == spec_lower_byte(b@[j]),
        decreases a.len() - i,
    {
        let x = lower_byte(a[i]);
        let y = lower_byte(b[i]);
        if x != y {
            assert(spec_lower(a@)[i as int] != spec_lower(b@)[i as int]);
            return false;
        }
        i = i + 1;
    }
    assert(spec_lower(a@) =~= spec_lower(b@));
    true
}

/// ASCII lower-casing of one byte.
pub fn lower_byte(b: u8) -> (r: u8)
    ensures
        r == spec_lower_byte(b),
{
    if 65 <= b && b <= 90 {
        b + 32
    } else {
        b
    }
}

/// A fresh copy of `src[i..j]`.
pub fn copy_range(src: &[u8], i: usize, j: usize) -> (r: Vec<u8>)
    requires
        i <= j <= src.len(),
    ensures
        r@ == src@.subrange(i as int, j as int),
{
    let mut out: Vec<u8> = Vec::new();
    let mut k: usize = i;
    while k < j
        invariant
            i <= k <= j <= src.len(),
            out@ == src@.subrange(i as int, k as int),
        decreases j - k,
    {
        out.push(src[k]);
        assert(out@ =~= src@.subrange(i as int, k + 1int));
        k = k + 1;
    }
    out
}

/// Appends every byte of `b` to `out`.
pub fn append_bytes(out: &mut Vec<u8>, b: &[u8])
    ensures
        final(out)@ == old(out)@ + b@,
{
    let mut k: usize = 0;
    while k < b.len()
        invariant
            k <= b.len(),
            out@ == old(out)@ + b@.subrange(0, k as int),
        decreases b.len() - k,
    {
        out.push(b[k]);
        assert(out@ =~= old(out)@ + b@.subrange(0, k + 1int));
        k = k + 1;
    }
    assert(out@ =~= old(out)@ + b@);
}

/// The trimmed copy of a byte slice: no leading or trailing blanks.
pub fn trim(src: &[u8]) -> (r: Vec<u8>)
    ensures
        r@ == spec_trim(src@),
{
    let mut lo: usize = 0;
    assert(src@.subrange(0, src@.len() as int) =~= src@);
    while lo < src.len() && (src[lo] == 32 || src[lo] == 9)
        invariant
            lo <= src.len(),
            spec_trim_front(src@) == spec_trim_front(src@.subrange(lo as int, src@.len() as int)),
        decreases src.len() - lo,
    {
        assert(src@.subrange(lo as int, src@.len() as int).drop_first()
            =~= src@.subrange(lo + 1int, src@.len() as int));
        lo = lo + 1;
    }
    let ghost rest = src@.subrange(lo as int, src@.len() as int);
    assert(spec_trim_front(src@) == rest);
    let mut hi: usize = src.len();
    while hi > lo && (src[hi - 1] == 32 || src[hi - 1] == 9)
        invariant
            lo <= hi <= src.len(),
            spec_trim_back(rest) == spec_trim_back(src@.subrange(lo as int, hi as int)),
        decreases hi,
    {
        assert(src@.subrange(lo as int, hi as int).drop_last()
            =~= src@.subrange(lo as int, hi - 1int));
        hi = hi - 1;
    }
    let ghost mid = src@.subrange(lo as int, hi as int);
    assert(mid.len() == 0 || !spec_is_blank(mid[mid.len() - 1]));
    assert(spec_trim_back(mid) == mid);
    copy_range(src, lo, hi)
}

} // verus!
