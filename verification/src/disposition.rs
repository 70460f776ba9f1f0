//! `Content-Disposition` handling: the per-part dispatch policy (nested,
//! file-backed, or in-memory) and filename extraction, including the
//! extended `charset'language'percent-encoded` parameter form.

use vstd::prelude::*;
use crate::ascii::{spec_eq_fold, spec_trim, eq_fold, trim};
use crate::charset::{spec_charset_decode, spec_charset_from_name, charset_from_name,
    charset_decode, dec_utf_8};
use crate::error::{DecodeFail, Error};
use crate::headers::{Headers, HeaderV, spec_lookup};
use crate::mime_type::{MimeParam, MimeParamV, spec_parse_params, spec_parse_mime, parse_mime,
    parse_params};
use crate::names::{spec_name_content_type, spec_name_content_disposition, spec_name_multipart,
    spec_name_attachment, spec_name_filename, spec_name_filename_star, name_content_type,
    name_content_disposition, name_multipart, name_attachment, name_filename,
    name_filename_star};
use crate::scan::{spec_find, find_token};

verus! {

/// The mathematical model of a parsed `Content-Disposition` value.
#[verifier::ext_equal]
pub struct DispositionV {
    pub dtype: Seq<u8>,
    pub params: Seq<MimeParamV>,
}

/// A parsed `Content-Disposition` value: the disposition type and its
/// parameters.
#[derive(Debug)]
pub struct Disposition {
    pub dtype: Vec<u8>,
    pub params: Vec<MimeParam>,
}

impl View for Disposition {
    type V = DispositionV;

    open spec fn view(&self) -> DispositionV {
        DispositionV {
            dtype: self.dtype@,
            params: self.params@.map(|_i: int, p: MimeParam| p@),
        }
    }
}

/// Parses a disposition value: the trimmed type before the first `;`, then
/// the same parameter list grammar as a media type.
pub open spec fn spec_parse_disposition(v: Seq<u8>) -> Option<DispositionV> {
    let head_end = match spec_find(v, 0, seq![59u8]) {
        None => v.len() as int,
        Some(i) => i,
    };
    if 0 <= head_end <= v.len() {
        let dtype = spec_trim(v.subrange(0, head_end));
        if dtype.len() == 0 {
            None
        } else if head_end < v.len() {
            match spec_parse_params(v.subrange(head_end + 1, v.len() as int)) {
                None => None,
                Some(ps) => Some(DispositionV { dtype, params: ps }),
            }
        } else {
            Some(DispositionV { dtype, params: Seq::empty() })
        }
    } else {
        None
    }
}

/// Parses a disposition value.
pub fn parse_disposition(v: &[u8]) -> (r: Option<Disposition>)
    ensures
        match r {
            Some(d) => spec_parse_disposition(v@) == Some(d@),
            None => spec_parse_disposition(v@) is None,
        },
{
    let semi: &[u8] = &[59];
    assert(semi@ =~= seq![59u8]);
    let head_end = match find_token(v, 0, semi) {
        None => v.len(),
        Some(i) => i,
    };
    let dtype = trim(vstd::slice::slice_subrange(v, 0, head_end));
    if dtype.len() == 0 {
        return None;
    }
    if head_end < v.len() {
        match parse_params(v, head_end + 1) {
            None => None,
            Some(ps) => Some(Disposition { dtype, params: ps }),
        }
    } else {
        let d = Disposition { dtype, params: Vec::new() };
        assert(d@.params =~= Seq::<MimeParamV>::empty());
        Some(d)
    }
}

/// The first filename parameter: its value, and whether it used the
/// extended (`filename*`) form.
pub open spec fn spec_find_filename(params: Seq<MimeParamV>) -> Option<(bool, Seq<u8>)>
    decreases params.len(),
{
    if params.len() == 0 {
        None
    } else if spec_eq_fold(params[0].key, spec_name_filename()) {
        Some((false, params[0].value))
    } else if spec_eq_fold(params[0].key, spec_name_filename_star()) {
        Some((true, params[0].value))
    } else {
        spec_find_filename(params.drop_first())
    }
}

/// Finds the first filename parameter, plain or extended.
pub fn find_filename(params: &Vec<MimeParam>) -> (r: Option<(bool, Vec<u8>)>)
    ensures
        match r {
            Some(p) => spec_find_filename(params@.map(|_i: int, q: MimeParam| q@)) == Some(
                (p.0, p.1@),
            ),
            None => spec_find_filename(params@.map(|_i: int, q: MimeParam| q@)) is None,
        },
{
    let ghost pv = params@.map(|_i: int, p: MimeParam| p@);
    let plain = name_filename();
    let ext = name_filename_star();
    let mut i: usize = 0;
    assert(pv.skip(0) =~= pv);
    while i < params.len()
        invariant
            i <= params.len(),
            pv == params@.map(|_i: int, p: MimeParam| p@),
            plain@ == spec_name_filename(),
            ext@ == spec_name_filename_star(),
            spec_find_filename(pv) == spec_find_filename(pv.skip(i as int)),
        decreases params.len() - i,
    {
        assert(pv.skip(i as int)[0] == pv[i as int]);
        if eq_fold(params[i].key.as_slice(), plain.as_slice()) {
            let v = crate::ascii::copy_range(params[i].value.as_slice(), 0, params[i].value.len());
            assert(v@ =~= pv[i as int].value);
            return Some((false, v));
        }
        if eq_fold(params[i].key.as_slice(), ext.as_slice()) {
            let v = crate::ascii::copy_range(params[i].value.as_slice(), 0, params[i].value.len());
            assert(v@ =~= pv[i as int].value);
            return Some((true, v));
        }
        assert(pv.skip(i as int).drop_first() =~= pv.skip(i + 1int));
        i = i + 1;
    }
    assert(pv.skip(i as int).len() == 0);
    None
}

/// The numeric value of one hexadecimal digit byte.
pub open spec fn spec_hex_val(b: u8) -> Option<u8> {
    if 48 <= b && b <= 57 {
        Some((b - 48) as u8)
    } else if 97 <= b && b <= 102 {
        Some((b - 87) as u8)
    } else if 65 <= b && b <= 70 {
        Some((b - 55) as u8)
    } else {
        None
    }
}

/// Percent-decoding: `%hh` becomes one byte, everything else is copied;
/// a truncated or non-hexadecimal escape is malformed.
pub open spec fn spec_pct_decode(s: Seq<u8>) -> Option<Seq<u8>>
    decreases s.len(),
{
    if s.len() == 0 {
        Some(Seq::empty())
    } else if s[0] == 37 {
        if s.len() >= 3 {
            match (spec_hex_val(s[1]), spec_hex_val(s[2])) {
                (Some(h), Some(l)) => match spec_pct_decode(s.skip(3)) {
                    Some(r) => Some(seq![(h * 16 + l) as u8] + r),
                    None => None,
                },
                _ => None,
            }
        } else {
            None
        }
    } else {
        match spec_pct_decode(s.skip(1)) {
            Some(r) => Some(seq![s[0]] + r),
            None => None,
        }
    }
}

/// The numeric value of one hexadecimal digit byte.
fn hex_val(b: u8) -> (r: Option<u8>)
    ensures
        r == spec_hex_val(b),
{
    if 48 <= b && b <= 57 {
        Some(b - 48)
    } else if 97 <= b && b <= 102 {
        Some(b - 87)
    } else if 65 <= b && b <= 70 {
        Some(b - 55)
    } else {
        None
    }
}

/// Percent-decodes a byte sequence.
pub fn pct_decode(s: &[u8]) -> (r: Option<Vec<u8>>)
    ensures
        match r {
            Some(v) => spec_pct_decode(s@) == Some(v@),
            None => spec_pct_decode(s@) is None,
        },
{
    let mut out: Vec<u8> = Vec::new();
    let mut i: usize = 0;
    assert(s@.skip(0) =~= s@);
    while i < s.len()
        invariant
            i <= s.len(),
            spec_pct_decode(s@) == match spec_pct_decode(s@.skip(i as int)) {
                Some(r) => Some(out@ + r),
                None => None::<Seq<u8>>,
            },
        decreases s.len() - i,
    {
        let ghost rest = s@.skip(i as int);
        let ghost prev = out@;
        if s[i] == 37 {
            if s.len() - i < 3 {
                assert(rest.len() < 3);
                return None;
            }
            let h = match hex_val(s[i + 1]) {
                None => {
                    return None;
                },
                Some(h) => h,
            };
            let l = match hex_val(s[i + 2]) {
                None => {
                    return None;
                },
                Some(l) => l,
            };
            out.push(h * 16 + l);
            proof {
                assert(rest.skip(3) =~= s@.skip(i + 3int));
                match spec_pct_decode(s@.skip(i + 3int)) {
                    Some(r) => {
                        assert(prev + (seq![(h * 16 + l) as u8] + r) =~= out@ + r);
                    },
                    None => {},
                }
            }
            i = i + 3;
        } else {
            out.push(s[i]);
            proof {
                assert(rest.skip(1) =~= s@.skip(i + 1int));
                match spec_pct_decode(s@.skip(i + 1int)) {
                    Some(r) => {
                        assert(prev + (seq![rest[0]] + r) =~= out@ + r);
                    },
                    None => {},
                }
            }
            i = i + 1;
        }
    }
    assert(s@.skip(i as int).len() == 0);
    assert(out@ + Seq::<u8>::empty() =~= out@);
    Some(out)
}

/// Splits an extended parameter value `charset'language'value` at its two
/// apostrophes: the charset name and the still-encoded value bytes.
pub open spec fn spec_ext_value(v: Seq<u8>) -> Option<(Seq<u8>, Seq<u8>)> {
    match spec_find(v, 0, seq![39u8]) {
        None => None,
        Some(i) => match spec_find(v, i + 1, seq![39u8]) {
            None => None,
            Some(j) => {
                if 0 <= i <= j < v.len() {
                    Some((v.subrange(0, i), v.subrange(j + 1, v.len() as int)))
                } else {
                    None
                }
            },
        },
    }
}

/// Splits an extended parameter value at its two apostrophes.
pub fn ext_value(v: &[u8]) -> (r: Option<(Vec<u8>, Vec<u8>)>)
    ensures
        match r {
            Some(p) => spec_ext_value(v@) == Some((p.0@, p.1@)),
            None => spec_ext_value(v@) is None,
        },
{
    let quote: &[u8] = &[39];
    assert(quote@ =~= seq![39u8]);
    match find_token(v, 0, quote) {
        None => None,
        Some(i) => match find_token(v, i + 1, quote) {
            None => None,
            Some(j) => {
                let cs = crate::ascii::copy_range(v, 0, i);
                let enc = crate::ascii::copy_range(v, j + 1, v.len());
                Some((cs, enc))
            },
        },
    }
}

/// Whether a part's own headers declare a nested multipart container.
pub open spec fn spec_is_nested(hs: Seq<HeaderV>) -> bool {
    match spec_lookup(hs, spec_name_content_type()) {
        None => false,
        Some(v) => match spec_parse_mime(v) {
            None => false,
            Some(m) => spec_eq_fold(m.top, spec_name_multipart()),
        },
    }
}

/// Whether a part is dispatched to a file: always when the caller asked for
/// it, otherwise when a parseable `Content-Disposition` declares the
/// `attachment` type or carries a filename parameter.
pub open spec fn spec_is_file_part(hs: Seq<HeaderV>, always_use_files: bool) -> bool {
    always_use_files || match spec_lookup(hs, spec_name_content_disposition()) {
        None => false,
        Some(v) => match spec_parse_disposition(v) {
            None => false,
            Some(d) => spec_eq_fold(d.dtype, spec_name_attachment()) || spec_find_filename(
                d.params,
            ) is Some,
        },
    }
}

/// Decides whether a part's headers declare a nested container.
pub fn is_nested(headers: &Headers) -> (r: bool)
    ensures
        r == spec_is_nested(headers@),
{
    let ct = name_content_type();
    match headers.lookup(ct.as_slice()) {
        None => false,
        Some(v) => match parse_mime(v.as_slice()) {
            None => false,
            Some(m) => {
                let mp = name_multipart();
                eq_fold(m.top.as_slice(), mp.as_slice())
            },
        },
    }
}

/// Decides the file/memory dispatch for a part.
pub fn is_file_part(headers: &Headers, always_use_files: bool) -> (r: bool)
    ensures
        r == spec_is_file_part(headers@, always_use_files),
{
    if always_use_files {
        return true;
    }
    let cd = name_content_disposition();
    match headers.lookup(cd.as_slice()) {
        None => false,
        Some(v) => match parse_disposition(v.as_slice()) {
            None => false,
            Some(d) => {
                let att = name_attachment();
                if eq_fold(d.dtype.as_slice(), att.as_slice()) {
                    true
                } else {
                    find_filename(&d.params).is_some()
                }
            },
        },
    }
}

/// What filename a header collection declares, decoded: nothing when no
/// parseable disposition or no filename parameter is present; a decoding
/// failure when the charset is unsupported or the bytes are malformed.
pub open spec fn spec_filename(hs: Seq<HeaderV>) -> Result<Option<Seq<char>>, Error> {
    match spec_lookup(hs, spec_name_content_disposition()) {
        None => Ok(None),
        Some(v) => match spec_parse_disposition(v) {
            None => Ok(None),
            Some(d) => match spec_find_filename(d.params) {
                None => Ok(None),
                Some((ext, val)) => if !ext {
                    match dec_utf_8(val) {
                        Some(t) => Ok(Some(t)),
                        None => Err(Error::Decoding(DecodeFail::MalformedBytes)),
                    }
                } else {
                    match spec_ext_value(val) {
                        None => Err(Error::Decoding(DecodeFail::MalformedBytes)),
                        Some((cs, enc)) => match spec_pct_decode(enc) {
                            None => Err(Error::Decoding(DecodeFail::MalformedBytes)),
                            Some(raw) => match spec_charset_decode(
                                spec_charset_from_name(cs),
                                raw,
                            ) {
                                Ok(t) => Ok(Some(t)),
                                Err(e) => Err(Error::Decoding(e)),
                            },
                        },
                    }
                },
            },
        },
    }
}

/// A part whose parseable `Content-Disposition` declares the `attachment`
/// type is file-backed under every dispatch mode.
pub proof fn lemma_attachment_is_file_backed(hs: Seq<HeaderV>, always_use_files: bool)
    requires
        spec_lookup(hs, spec_name_content_disposition()) is Some,
        spec_parse_disposition(spec_lookup(hs, spec_name_content_disposition())->Some_0)
            is Some,
        spec_eq_fold(
            spec_parse_disposition(
                spec_lookup(hs, spec_name_content_disposition())->Some_0,
            )->Some_0.dtype,
            spec_name_attachment(),
        ),
    ensures
        spec_is_file_part(hs, always_use_files),
{
}

/// A part whose parseable `Content-Disposition` carries a filename
/// parameter, plain or extended, is file-backed under every dispatch mode.
pub proof fn lemma_filename_is_file_backed(hs: Seq<HeaderV>, always_use_files: bool)
    requires
        spec_lookup(hs, spec_name_content_disposition()) is Some,
        spec_parse_disposition(spec_lookup(hs, spec_name_content_disposition())->Some_0)
            is Some,
        spec_find_filename(
            spec_parse_disposition(
                spec_lookup(hs, spec_name_content_disposition())->Some_0,
            )->Some_0.params,
        ) is Some,
    ensures
        spec_is_file_part(hs, always_use_files),
{
}

/// A part with no `Content-Disposition` header is memory-backed unless the
/// caller asked for every part to be file-backed.
pub proof fn lemma_no_disposition_is_memory_backed(hs: Seq<HeaderV>)
    requires
        spec_lookup(hs, spec_name_content_disposition()) is None,
    ensures
        !spec_is_file_part(hs, false),
{
}

/// Extracts and decodes the filename a header collection declares.
pub fn filename_from_headers(headers: &Headers) -> (r: Result<Option<String>, Error>)
    ensures
        match r {
            Ok(None) => spec_filename(headers@) == Ok::<Option<Seq<char>>, Error>(None),
            Ok(Some(s)) => spec_filename(headers@) == Ok::<Option<Seq<char>>, Error>(
                Some(s@),
            ),
            Err(e) => spec_filename(headers@) == Err::<Option<Seq<char>>, Error>(e),
        },
{
    let cd = name_content_disposition();
    let v = match headers.lookup(cd.as_slice()) {
        None => {
            return Ok(None);
        },
        Some(v) => v,
    };
    let d = match parse_disposition(v.as_slice()) {
        None => {
            return Ok(None);
        },
        Some(d) => d,
    };
    let (ext, val) = match find_filename(&d.params) {
        None => {
            return Ok(None);
        },
        Some(p) => p,
    };
    if !ext {
        let utf8 = crate::names::name_utf_8();
        match charset_decode(&crate::charset::Charset::Ext(utf8), val.as_slice()) {
            Ok(s) => Ok(Some(s)),
            Err(_) => Err(Error::Decoding(DecodeFail::MalformedBytes)),
        }
    } else {
        let (cs, enc) = match ext_value(val.as_slice()) {
            None => {
                return Err(Error::Decoding(DecodeFail::MalformedBytes));
            },
            Some(p) => p,
        };
        let raw = match pct_decode(enc.as_slice()) {
            None => {
                return Err(Error::Decoding(DecodeFail::MalformedBytes));
            },
            Some(r) => r,
        };
        let charset = charset_from_name(cs.as_slice());
        match charset_decode(&charset, raw.as_slice()) {
            Ok(t) => Ok(Some(t)),
            Err(e) => Err(Error::Decoding(e)),
        }
    }
}

} // verus!
