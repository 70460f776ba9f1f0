//! Headers: an ordered collection of name/value pairs.  Names compare
//! case-insensitively for lookup; duplicates and insertion order are kept.
//! Also the header block parser: a raw block of header lines separated by
//! the level's line terminator becomes a `Headers` collection, bounded by a
//! per-block line cap.

use vstd::prelude::*;
use crate::ascii::{spec_eq_fold, spec_is_blank, spec_trim, spec_trim_front, spec_trim_back, eq_fold, trim, copy_range};
use crate::error::Error;
use crate::scan::{spec_find, spec_match_at, find_token};

verus! {

/// The mathematical model of one header: its raw name and value bytes.
#[verifier::ext_equal]
pub struct HeaderV {
    pub name: Seq<u8>,
    pub value: Seq<u8>,
}

/// One header field: raw name and value bytes.
#[derive(Debug)]
pub struct HeaderField {
    pub name: Vec<u8>,
    pub value: Vec<u8>,
}

impl View for HeaderField {
    type V = HeaderV;

    open spec fn view(&self) -> HeaderV {
        HeaderV { name: self.name@, value: self.value@ }
    }
}

/// An ordered header collection.
#[derive(Debug)]
pub struct Headers {
    pub fields: Vec<HeaderField>,
}

impl View for Headers {
    type V = Seq<HeaderV>;

    open spec fn view(&self) -> Seq<HeaderV> {
        self.fields@.map(|_i: int, f: HeaderField| f@)
    }
}

/// The value of the first header whose name equals `name` up to ASCII case.
pub open spec fn spec_lookup(hs: Seq<HeaderV>, name: Seq<u8>) -> Option<Seq<u8>>
    decreases hs.len(),
{
    if hs.len() == 0 {
        None
    } else if spec_eq_fold(hs[0].name, name) {
        Some(hs[0].value)
    } else {
        spec_lookup(hs.drop_first(), name)
    }
}

impl Headers {
    /// An empty collection.
    pub fn new() -> (r: Headers)
        ensures
            r@ =~= Seq::<HeaderV>::empty(),
    {
        Headers { fields: Vec::new() }
    }

    /// The number of fields.
    pub fn len(&self) -> (r: usize)
        ensures
            r == self@.len(),
    {
        self.fields.len()
    }

    /// Appends a field, keeping insertion order.
    pub fn push(&mut self, name: Vec<u8>, value: Vec<u8>)
        ensures
            final(self)@ =~= old(self)@.push(HeaderV { name: name@, value: value@ }),
    {
        self.fields.push(HeaderField { name, value });
    }

    /// Case-insensitive lookup: a copy of the first matching value.
    pub fn lookup(&self, name: &[u8]) -> (r: Option<Vec<u8>>)
        ensures
            match r {
                Some(v) => spec_lookup(self@, name@) == Some(v@),
                None => spec_lookup(self@, name@) is None,
            },
    {
        let mut i: usize = 0;
        assert(self@.skip(0) =~= self@);
        while i < self.fields.len()
            invariant
                i <= self.fields.len(),
                spec_lookup(self@, name@) == spec_lookup(self@.skip(i as int), name@),
            decreases self.fields.len() - i,
        {
            assert(self@.skip(i as int)[0] == self@[i as int]);
            if eq_fold(self.fields[i].name.as_slice(), name) {
                let v = copy_range(self.fields[i].value.as_slice(), 0, self.fields[i].value.len());
                assert(v@ =~= self@[i as int].value);
                return Some(v);
            }
            assert(self@.skip(i as int).drop_first() =~= self@.skip(i + 1int));
            i = i + 1;
        }
        assert(self@.skip(i as int).len() == 0);
        None
    }
}

/// The colon byte that separates a header name from its value.
pub open spec fn spec_colon() -> u8 {
    58
}

/// A well-formed header name: non-empty, with no blanks or line breaks.
pub open spec fn spec_ok_name(name: Seq<u8>) -> bool {
    name.len() > 0 && forall|j: int|
        0 <= j < name.len() ==> !(spec_is_blank(name[j]) || name[j] == 13 || name[j] == 10)
}

/// Parses one header line: the name before the first colon, the value after
/// it with surrounding blanks trimmed.  A line with no colon is an
/// incomplete header; a malformed name is a syntax error.
pub open spec fn spec_parse_header_line(line: Seq<u8>) -> Result<HeaderV, Error> {
    match spec_find(line, 0, seq![spec_colon()]) {
        None => Err(Error::PartialHeaders),
        Some(c) => {
            let name = line.subrange(0, c);
            let value = spec_trim(line.subrange(c + 1, line.len() as int));
            if spec_ok_name(name) {
                Ok(HeaderV { name, value })
            } else {
                Err(Error::HeaderParse)
            }
        },
    }
}

/// Parses a header block: lines separated by the line terminator `lt`, at
/// most `max` of them.  The block carries no trailing blank line.
pub open spec fn spec_parse_block(block: Seq<u8>, lt: Seq<u8>, max: nat) -> Result<
    Seq<HeaderV>,
    Error,
>
    decreases block.len(),
{
    if block.len() == 0 {
        Ok(Seq::empty())
    } else if max == 0 {
        Err(Error::HeaderParse)
    } else if lt.len() == 0 {
        Err(Error::HeaderParse)
    } else {
        match spec_find(block, 0, lt) {
            None => match spec_parse_header_line(block) {
                Ok(h) => Ok(seq![h]),
                Err(e) => Err(e),
            },
            Some(i) => if 0 <= i && i + lt.len() <= block.len() {
                match spec_parse_header_line(block.subrange(0, i)) {
                    Ok(h) => match spec_parse_block(
                        block.subrange(i + lt.len(), block.len() as int),
                        lt,
                        (max - 1) as nat,
                    ) {
                        Ok(hs) => Ok(seq![h] + hs),
                        Err(e) => Err(e),
                    },
                    Err(e) => Err(e),
                }
            } else {
                Err(Error::HeaderParse)
            },
        }
    }
}

/// A header that survives the wire unchanged: a well-formed name without
/// colons, a value free of line breaks with no surrounding blanks.
pub open spec fn spec_wire_header(h: HeaderV) -> bool {
    &&& spec_ok_name(h.name)
    &&& forall|j: int| 0 <= j < h.name.len() ==> h.name[j] != 58
    &&& forall|j: int| 0 <= j < h.value.len() ==> h.value[j] != 13 && h.value[j] != 10
    &&& (h.value.len() == 0 || (!spec_is_blank(h.value[0]) && !spec_is_blank(
        h.value[h.value.len() - 1],
    )))
}

/// One wire line of a header, without its terminator.
pub open spec fn spec_header_line(h: HeaderV) -> Seq<u8> {
    h.name + seq![58u8, 32u8] + h.value
}

/// The wire form of a header block: lines joined by CRLF, no trailing
/// terminator — exactly what the token scanner hands the block parser.
pub open spec fn spec_join_headers(hs: Seq<HeaderV>) -> Seq<u8>
    decreases hs.len(),
{
    if hs.len() == 0 {
        Seq::empty()
    } else if hs.len() == 1 {
        spec_header_line(hs[0])
    } else {
        spec_header_line(hs[0]) + seq![13u8, 10u8] + spec_join_headers(hs.drop_first())
    }
}

/// No byte of a wire header's line is a carriage return.
pub proof fn lemma_header_line_no_cr(h: HeaderV)
    requires
        spec_wire_header(h),
    ensures
        forall|j: int| 0 <= j < spec_header_line(h).len() ==> spec_header_line(h)[j] != 13,
{
    let line = spec_header_line(h);
    assert forall|j: int| 0 <= j < line.len() implies line[j] != 13 by {
        if j < h.name.len() {
            assert(line[j] == h.name[j]);
        } else if j == h.name.len() {
            assert(line[j] == 58);
        } else if j == h.name.len() + 1 {
            assert(line[j] == 32);
        } else {
            assert(line[j] == h.value[j - h.name.len() - 2]);
        }
    }
}

/// One serialized header line parses back to the same header: the first
/// element of the round-trip law for header blocks.
pub proof fn lemma_header_line_parses(h: HeaderV)
    requires
        spec_wire_header(h),
    ensures
        spec_parse_header_line(spec_header_line(h)) == Ok::<HeaderV, Error>(h),
{
    let line = spec_header_line(h);
    let colon = seq![spec_colon()];
    let k = h.name.len() as int;
    assert(line[k] == 58);
    assert(line.subrange(k, k + 1) =~= colon);
    assert(spec_match_at(line, k, colon));
    assert forall|j: int| 0 <= j < k implies !spec_match_at(line, j, colon) by {
        if spec_match_at(line, j, colon) {
            assert(line.subrange(j, j + 1)[0] == line[j]);
            assert(line[j] == h.name[j]);
        }
    }
    crate::scan::lemma_find_first_at(line, k, colon);
    assert(line.subrange(0, k) =~= h.name);
    let after = line.subrange(k + 1, line.len() as int);
    assert(after =~= seq![32u8] + h.value);
    assert(after.drop_first() =~= h.value);
    assert(spec_trim_front(after) == spec_trim_front(h.value));
    if h.value.len() == 0 {
        assert(spec_trim(after) =~= h.value);
    } else {
        assert(spec_trim_front(h.value) == h.value);
        assert(spec_trim_back(h.value) == h.value);
    }
    assert(spec_trim(after) == h.value);
    assert(HeaderV { name: h.name, value: h.value } =~= h);
}

/// Round trip for a whole header block: the wire join of any sequence of
/// wire-safe headers, within the block's line cap, parses back to exactly
/// that sequence — names, values, duplicates and order preserved.
pub proof fn lemma_header_block_round_trip(hs: Seq<HeaderV>, max: nat)
    requires
        forall|i: int| 0 <= i < hs.len() ==> spec_wire_header(#[trigger] hs[i]),
        hs.len() <= max,
    ensures
        spec_parse_block(spec_join_headers(hs), seq![13u8, 10u8], max) == Ok::<
            Seq<HeaderV>,
            Error,
        >(hs),
    decreases hs.len(),
{
    let crlf = seq![13u8, 10u8];
    let block = spec_join_headers(hs);
    if hs.len() == 0 {
        assert(block.len() == 0);
        assert(Seq::<HeaderV>::empty() =~= hs);
    } else if hs.len() == 1 {
        let line = spec_header_line(hs[0]);
        assert(block == line);
        lemma_header_line_no_cr(hs[0]);
        assert forall|j: int| 0 <= j < block.len() implies block[j] != crlf[0] by {}
        crate::scan::lemma_find_none_without_first_byte(block, crlf);
        lemma_header_line_parses(hs[0]);
        assert(block.len() > 0);
        assert(seq![hs[0]] =~= hs);
    } else {
        let line = spec_header_line(hs[0]);
        let rest = spec_join_headers(hs.drop_first());
        assert(block == line + crlf + rest);
        let k = line.len() as int;
        assert(block.subrange(k, k + 2) =~= crlf);
        assert(spec_match_at(block, k, crlf));
        lemma_header_line_no_cr(hs[0]);
        assert forall|j: int| 0 <= j < k implies !spec_match_at(block, j, crlf) by {
            if spec_match_at(block, j, crlf) {
                assert(block.subrange(j, j + 2)[0] == block[j]);
                assert(block[j] == line[j]);
            }
        }
        crate::scan::lemma_find_first_at(block, k, crlf);
        assert(block.subrange(0, k) =~= line);
        lemma_header_line_parses(hs[0]);
        assert(block.subrange(k + 2, block.len() as int) =~= rest);
        assert forall|i: int| 0 <= i < hs.drop_first().len() implies spec_wire_header(
            #[trigger] hs.drop_first()[i],
        ) by {
            assert(hs.drop_first()[i] == hs[i + 1]);
        }
        lemma_header_block_round_trip(hs.drop_first(), (max - 1) as nat);
        assert(block.len() > 0);
        assert(seq![hs[0]] + hs.drop_first() =~= hs);
    }
}

/// Parses the header line `block[lo..hi]`.
fn parse_header_line(block: &[u8], lo: usize, hi: usize) -> (r: Result<HeaderField, Error>)
    requires
        lo <= hi <= block.len(),
    ensures
        match r {
            Ok(h) => spec_parse_header_line(block@.subrange(lo as int, hi as int)) == Ok::<
                HeaderV,
                Error,
            >(h@),
            Err(e) => spec_parse_header_line(block@.subrange(lo as int, hi as int)) == Err::<
                HeaderV,
                Error,
            >(e),
        },
{
    let ghost line = block@.subrange(lo as int, hi as int);
    let colon: &[u8] = &[58];
    assert(colon@ =~= seq![spec_colon()]);
    let line_slice = vstd::slice::slice_subrange(block, lo, hi);
    let found = find_token(line_slice, 0, colon);
    match found {
        None => Err(Error::PartialHeaders),
        Some(c) => {
            let name = copy_range(line_slice, 0, c);
            if !ok_name(name.as_slice()) {
                return Err(Error::HeaderParse);
            }
            let value = trim(vstd::slice::slice_subrange(line_slice, c + 1, line_slice.len()));
            Ok(HeaderField { name, value })
        },
    }
}

/// Whether a header name is well formed.
fn ok_name(name: &[u8]) -> (r: bool)
    ensures
        r == spec_ok_name(name@),
{
    if name.len() == 0 {
        return false;
    }
    let mut j: usize = 0;
    while j < name.len()
        invariant
            j <= name.len(),
            forall|k: int|
                0 <= k < j ==> !(spec_is_blank(name@[k]) || name@[k] == 13 || name@[k] == 10),
        decreases name.len() - j,
    {
        let b = name[j];
        if b == 32 || b == 9 || b == 13 || b == 10 {
            return false;
        }
        j = j + 1;
    }
    true
}

/// Parses a raw header block (no trailing blank line) into a collection,
/// with lines separated by `lt` and at most `max` of them.
pub fn parse_header_block(block: &[u8], lt: &[u8], max: usize) -> (r: Result<Headers, Error>)
    requires
        lt@.len() >= 1,
    ensures
        match r {
            Ok(hs) => spec_parse_block(block@, lt@, max as nat) == Ok::<Seq<HeaderV>, Error>(
                hs@,
            ),
            Err(e) => spec_parse_block(block@, lt@, max as nat) == Err::<Seq<HeaderV>, Error>(e),
        },
{
    let mut out = Headers::new();
    let mut pos: usize = 0;
    let mut left: usize = max;
    assert(block@.subrange(0, block@.len() as int) =~= block@);
    loop
        invariant
            pos <= block.len(),
            left <= max,
            lt@.len() >= 1,
            spec_parse_block(block@, lt@, max as nat) == match spec_parse_block(
                block@.subrange(pos as int, block@.len() as int),
                lt@,
                left as nat,
            ) {
                Ok(hs) => Ok::<Seq<HeaderV>, Error>(out@ + hs),
                Err(e) => Err::<Seq<HeaderV>, Error>(e),
            },
        decreases block.len() - pos + 1,
    {
        let ghost rest = block@.subrange(pos as int, block@.len() as int);
        if pos == block.len() {
            assert(rest.len() == 0);
            assert(out@ + Seq::<HeaderV>::empty() =~= out@);
            return Ok(out);
        }
        if left == 0 {
            return Err(Error::HeaderParse);
        }
        match find_token(block, pos, lt) {
            None => {
                proof {
                    crate::scan::lemma_shift_find(block@, pos as int, block@.len() as int, lt@);
                }
                match parse_header_line(block, pos, block.len()) {
                    Ok(h) => {
                        let ghost hv = h@;
                        let ghost prev_out = out@;
                        assert(block@.subrange(pos as int, block@.len() as int) =~= rest);
                        out.fields.push(h);
                        assert(out@ =~= prev_out.push(hv));
                        assert(prev_out + seq![hv] =~= out@);
                        return Ok(out);
                    },
                    Err(e) => {
                        return Err(e);
                    },
                }
            },
            Some(i) => {
                proof {
                    crate::scan::lemma_shift_find(block@, pos as int, block@.len() as int, lt@);
                }
                assert(rest.subrange(0, i - pos) =~= block@.subrange(pos as int, i as int));
                match parse_header_line(block, pos, i) {
                    Ok(h) => {
                        let ghost hv = h@;
                        let ghost prev_out = out@;
                        out.fields.push(h);
                        assert(out@ =~= prev_out.push(hv));
                        proof {
                            let tail = block@.subrange(i + lt@.len(), block@.len() as int);
                            assert(rest.subrange(i - pos + lt@.len(), rest.len() as int) =~= tail);
                            match spec_parse_block(tail, lt@, (left - 1) as nat) {
                                Ok(hs) => {
                                    assert(prev_out + (seq![hv] + hs) =~= out@ + hs);
                                },
                                Err(_) => {},
                            }
                        }
                        pos = i + lt.len();
                        left = left - 1;
                    },
                    Err(e) => {
                        return Err(e);
                    },
                }
            },
        }
    }
}

} // verus!
