//! Media-type handling: parses a `Content-Type` value into its top-level
//! category, subtype and parameters, and resolves the boundary token of a
//! multipart level from a header collection.

use vstd::prelude::*;
use crate::ascii::{spec_eq_fold, spec_trim, eq_fold, trim, copy_range};
use crate::error::Error;
use crate::headers::{Headers, HeaderV, spec_lookup};
use crate::names::{spec_name_content_type, spec_name_multipart, spec_name_boundary,
    name_content_type, name_multipart, name_boundary};
use crate::scan::{spec_find, find_token, lemma_shift_find};

verus! {

/// The mathematical model of one media-type parameter.
#[verifier::ext_equal]
pub struct MimeParamV {
    pub key: Seq<u8>,
    pub value: Seq<u8>,
}

/// The mathematical model of a parsed media type.
#[verifier::ext_equal]
pub struct MimeTypeV {
    pub top: Seq<u8>,
    pub sub: Seq<u8>,
    pub params: Seq<MimeParamV>,
}

/// One `key=value` parameter of a media type or disposition.
#[derive(Debug)]
pub struct MimeParam {
    pub key: Vec<u8>,
    pub value: Vec<u8>,
}

impl View for MimeParam {
    type V = MimeParamV;

    open spec fn view(&self) -> MimeParamV {
        MimeParamV { key: self.key@, value: self.value@ }
    }
}

/// A parsed media type: top-level category, subtype, parameters.
#[derive(Debug)]
pub struct MimeType {
    pub top: Vec<u8>,
    pub sub: Vec<u8>,
    pub params: Vec<MimeParam>,
}

impl View for MimeType {
    type V = MimeTypeV;

    open spec fn view(&self) -> MimeTypeV {
        MimeTypeV {
            top: self.top@,
            sub: self.sub@,
            params: self.params@.map(|_i: int, p: MimeParam| p@),
        }
    }
}

/// Parses one `key=value` segment: key and raw value are trimmed, a value
/// wrapped in double quotes is unquoted, an empty key is malformed.
pub open spec fn spec_parse_param(seg: Seq<u8>) -> Option<MimeParamV> {
    match spec_find(seg, 0, seq![61u8]) {
        None => None,
        Some(e) => {
            if 0 <= e <= seg.len() {
                let key = spec_trim(seg.subrange(0, e));
                let raw = spec_trim(seg.subrange(e + 1, seg.len() as int));
                if key.len() == 0 {
                    None
                } else {
                    let value = if raw.len() >= 2 && raw[0] == 34 && raw[raw.len() - 1] == 34 {
                        raw.subrange(1, raw.len() - 1)
                    } else {
                        raw
                    };
                    Some(MimeParamV { key, value })
                }
            } else {
                None
            }
        },
    }
}

/// Parses a `;`-separated parameter list.
pub open spec fn spec_parse_params(s: Seq<u8>) -> Option<Seq<MimeParamV>>
    decreases s.len(),
{
    match spec_find(s, 0, seq![59u8]) {
        None => match spec_parse_param(s) {
            None => None,
            Some(p) => Some(seq![p]),
        },
        Some(i) => {
            if 0 <= i && i + 1 <= s.len() {
                match spec_parse_param(s.subrange(0, i)) {
                    None => None,
                    Some(p) => match spec_parse_params(s.subrange(i + 1, s.len() as int)) {
                        None => None,
                        Some(ps) => Some(seq![p] + ps),
                    },
                }
            } else {
                None
            }
        },
    }
}

/// Parses a media-type value: `top/sub` before the first `;`, then the
/// parameter list.  A value with no `/` in its head is malformed.
pub open spec fn spec_parse_mime(v: Seq<u8>) -> Option<MimeTypeV> {
    let head_end = match spec_find(v, 0, seq![59u8]) {
        None => v.len() as int,
        Some(i) => i,
    };
    if 0 <= head_end <= v.len() {
        let head = v.subrange(0, head_end);
        match spec_find(head, 0, seq![47u8]) {
            None => None,
            Some(s) => {
                if 0 <= s <= head.len() {
                    let top = spec_trim(head.subrange(0, s));
                    let sub = spec_trim(head.subrange(s + 1, head.len() as int));
                    if top.len() == 0 || sub.len() == 0 {
                        None
                    } else if head_end < v.len() {
                        match spec_parse_params(v.subrange(head_end + 1, v.len() as int)) {
                            None => None,
                            Some(ps) => Some(MimeTypeV { top, sub, params: ps }),
                        }
                    } else {
                        Some(MimeTypeV { top, sub, params: Seq::empty() })
                    }
                } else {
                    None
                }
            },
        }
    } else {
        None
    }
}

/// The value of the first parameter whose key equals `key` up to ASCII case.
pub open spec fn spec_param_lookup(params: Seq<MimeParamV>, key: Seq<u8>) -> Option<Seq<u8>>
    decreases params.len(),
{
    if params.len() == 0 {
        None
    } else if spec_eq_fold(params[0].key, key) {
        Some(params[0].value)
    } else {
        spec_param_lookup(params.drop_first(), key)
    }
}

/// The raw `boundary` parameter a header collection prescribes, under a
/// `multipart/*` content type.  A missing or unparseable `Content-Type` is
/// reported as absent; a non-multipart type and a missing `boundary`
/// parameter each have their own error.
pub open spec fn spec_get_boundary_param(hs: Seq<HeaderV>) -> Result<Seq<u8>, Error> {
    match spec_lookup(hs, spec_name_content_type()) {
        None => Err(Error::NoRequestContentType),
        Some(v) => match spec_parse_mime(v) {
            None => Err(Error::NoRequestContentType),
            Some(m) => if !spec_eq_fold(m.top, spec_name_multipart()) {
                Err(Error::NotMultipart)
            } else {
                match spec_param_lookup(m.params, spec_name_boundary()) {
                    None => Err(Error::BoundaryNotSpecified),
                    Some(b) => Ok(b),
                }
            },
        },
    }
}

/// The boundary token a header collection prescribes: `--` followed by the
/// raw `boundary` parameter.
pub open spec fn spec_get_boundary(hs: Seq<HeaderV>) -> Result<Seq<u8>, Error> {
    match spec_get_boundary_param(hs) {
        Err(e) => Err(e),
        Ok(b) => Ok(seq![45u8, 45u8] + b),
    }
}

/// Parses the parameter segment `s[lo..hi]`.
fn parse_param(s: &[u8], lo: usize, hi: usize) -> (r: Option<MimeParam>)
    requires
        lo <= hi <= s.len(),
    ensures
        match r {
            Some(p) => spec_parse_param(s@.subrange(lo as int, hi as int)) == Some(p@),
            None => spec_parse_param(s@.subrange(lo as int, hi as int)) is None,
        },
{
    let ghost seg = s@.subrange(lo as int, hi as int);
    let eqs: &[u8] = &[61];
    assert(eqs@ =~= seq![61u8]);
    let seg_slice = vstd::slice::slice_subrange(s, lo, hi);
    match find_token(seg_slice, 0, eqs) {
        None => None,
        Some(e) => {
            let key = trim(vstd::slice::slice_subrange(seg_slice, 0, e));
            if key.len() == 0 {
                return None;
            }
            let raw = trim(vstd::slice::slice_subrange(seg_slice, e + 1, seg_slice.len()));
            let value = if raw.len() >= 2 && raw[0] == 34 && raw[raw.len() - 1] == 34 {
                let v = copy_range(raw.as_slice(), 1, raw.len() - 1);
                v
            } else {
                raw
            };
            Some(MimeParam { key, value })
        },
    }
}

/// Parses the `;`-separated parameter list `s[lo..]`.
pub(crate) fn parse_params(s: &[u8], lo: usize) -> (r: Option<Vec<MimeParam>>)
    requires
        lo <= s.len(),
    ensures
        match r {
            Some(ps) => spec_parse_params(s@.subrange(lo as int, s@.len() as int)) == Some(
                ps@.map(|_i: int, p: MimeParam| p@),
            ),
            None => spec_parse_params(s@.subrange(lo as int, s@.len() as int)) is None,
        },
{
    let semi: &[u8] = &[59];
    assert(semi@ =~= seq![59u8]);
    let mut out: Vec<MimeParam> = Vec::new();
    let mut pos: usize = lo;
    let ghost whole = s@.subrange(lo as int, s@.len() as int);
    assert(out@.map(|_i: int, p: MimeParam| p@) =~= Seq::<MimeParamV>::empty());
    loop
        invariant
            lo <= pos <= s.len(),
            semi@ == seq![59u8],
            spec_parse_params(s@.subrange(lo as int, s@.len() as int)) == match spec_parse_params(
                s@.subrange(pos as int, s@.len() as int),
            ) {
                None => None::<Seq<MimeParamV>>,
                Some(ps) => Some(out@.map(|_i: int, p: MimeParam| p@) + ps),
            },
        decreases s.len() - pos + 1,
    {
        let ghost rest = s@.subrange(pos as int, s@.len() as int);
        proof {
            lemma_shift_find(s@, pos as int, s@.len() as int, seq![59u8]);
        }
        match find_token(s, pos, semi) {
            None => {
                match parse_param(s, pos, s.len()) {
                    None => {
                        return None;
                    },
                    Some(p) => {
                        let ghost pv = p@;
                        let ghost prev = out@.map(|_i: int, q: MimeParam| q@);
                        out.push(p);
                        assert(out@.map(|_i: int, q: MimeParam| q@) =~= prev.push(pv));
                        assert(prev + seq![pv] =~= prev.push(pv));
                        return Some(out);
                    },
                }
            },
            Some(i) => {
                assert(rest.subrange(0, i - pos) =~= s@.subrange(pos as int, i as int));
                match parse_param(s, pos, i) {
                    None => {
                        return None;
                    },
                    Some(p) => {
                        let ghost pv = p@;
                        let ghost prev = out@.map(|_i: int, q: MimeParam| q@);
                        out.push(p);
                        assert(out@.map(|_i: int, q: MimeParam| q@) =~= prev.push(pv));
                        proof {
                            let tail = s@.subrange(i + 1int, s@.len() as int);
                            assert(rest.subrange(i - pos + 1int, rest.len() as int) =~= tail);
                            match spec_parse_params(tail) {
                                None => {},
                                Some(ps) => {
                                    assert(prev + (seq![pv] + ps) =~= prev.push(pv) + ps);
                                },
                            }
                        }
                        pos = i + 1;
                    },
                }
            },
        }
    }
}

/// Parses a full media-type value.
pub fn parse_mime(v: &[u8]) -> (r: Option<MimeType>)
    ensures
        match r {
            Some(m) => spec_parse_mime(v@) == Some(m@),
            None => spec_parse_mime(v@) is None,
        },
{
    let semi: &[u8] = &[59];
    assert(semi@ =~= seq![59u8]);
    let slash: &[u8] = &[47];
    assert(slash@ =~= seq![47u8]);
    let head_end = match find_token(v, 0, semi) {
        None => v.len(),
        Some(i) => i,
    };
    let ghost head = v@.subrange(0, head_end as int);
    proof {
        lemma_shift_find(v@, 0, v@.len() as int, seq![59u8]);
        assert(v@.subrange(0, v@.len() as int) =~= v@);
    }
    let head_slice = vstd::slice::slice_subrange(v, 0, head_end);
    match find_token(head_slice, 0, slash) {
        None => None,
        Some(sl) => {
            let top = trim(vstd::slice::slice_subrange(head_slice, 0, sl));
            let sub = trim(vstd::slice::slice_subrange(head_slice, sl + 1, head_slice.len()));
            if top.len() == 0 || sub.len() == 0 {
                return None;
            }
            if head_end < v.len() {
                match parse_params(v, head_end + 1) {
                    None => None,
                    Some(ps) => {
                        let m = MimeType { top, sub, params: ps };
                        Some(m)
                    },
                }
            } else {
                let m = MimeType { top, sub, params: Vec::new() };
                assert(m@.params =~= Seq::<MimeParamV>::empty());
                Some(m)
            }
        },
    }
}

/// Looks a parameter up by key, case-insensitively, returning a copy.
pub fn param_lookup(params: &Vec<MimeParam>, key: &[u8]) -> (r: Option<Vec<u8>>)
    ensures
        match r {
            Some(b) => spec_param_lookup(
                params@.map(|_i: int, p: MimeParam| p@),
                key@,
            ) == Some(b@),
            None => spec_param_lookup(params@.map(|_i: int, p: MimeParam| p@), key@) is None,
        },
{
    let ghost pv = params@.map(|_i: int, p: MimeParam| p@);
    let mut i: usize = 0;
    assert(pv.skip(0) =~= pv);
    while i < params.len()
        invariant
            i <= params.len(),
            pv == params@.map(|_i: int, p: MimeParam| p@),
            spec_param_lookup(pv, key@) == spec_param_lookup(pv.skip(i as int), key@),
        decreases params.len() - i,
    {
        assert(pv.skip(i as int)[0] == pv[i as int]);
        if eq_fold(params[i].key.as_slice(), key) {
            let b = copy_range(params[i].value.as_slice(), 0, params[i].value.len());
            assert(b@ =~= pv[i as int].value);
            return Some(b);
        }
        assert(pv.skip(i as int).drop_first() =~= pv.skip(i + 1int));
        i = i + 1;
    }
    assert(pv.skip(i as int).len() == 0);
    None
}

/// Resolves the raw `boundary` parameter prescribed by a header
/// collection's `multipart/*` content type.
pub fn get_boundary_param(headers: &Headers) -> (r: Result<Vec<u8>, Error>)
    ensures
        match r {
            Ok(b) => spec_get_boundary_param(headers@) == Ok::<Seq<u8>, Error>(b@),
            Err(e) => spec_get_boundary_param(headers@) == Err::<Seq<u8>, Error>(e),
        },
{
    let ct_name = name_content_type();
    let v = match headers.lookup(ct_name.as_slice()) {
        None => {
            return Err(Error::NoRequestContentType);
        },
        Some(v) => v,
    };
    let m = match parse_mime(v.as_slice()) {
        None => {
            return Err(Error::NoRequestContentType);
        },
        Some(m) => m,
    };
    let mp = name_multipart();
    if !eq_fold(m.top.as_slice(), mp.as_slice()) {
        return Err(Error::NotMultipart);
    }
    let bd = name_boundary();
    match param_lookup(&m.params, bd.as_slice()) {
        None => Err(Error::BoundaryNotSpecified),
        Some(b) => Ok(b),
    }
}

/// Resolves the boundary token prescribed by a header collection: `--`
/// followed by the `boundary` parameter of its `multipart/*` content type.
pub fn get_multipart_boundary(headers: &Headers) -> (r: Result<Vec<u8>, Error>)
    ensures
        match r {
            Ok(b) => spec_get_boundary(headers@) == Ok::<Seq<u8>, Error>(b@) && b@.len() >= 2,
            Err(e) => spec_get_boundary(headers@) == Err::<Seq<u8>, Error>(e),
        },
{
    match get_boundary_param(headers) {
        Err(e) => Err(e),
        Ok(b) => {
            let mut out: Vec<u8> = Vec::new();
            out.push(45);
            out.push(45);
            crate::ascii::append_bytes(&mut out, b.as_slice());
            assert(out@ =~= seq![45u8, 45u8] + b@);
            Ok(out)
        },
    }
}

} // verus!
