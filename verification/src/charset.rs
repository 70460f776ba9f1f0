//! The charset lookup table consulted when a filename parameter is decoded:
//! a fixed set of identifiers, each mapped to a decoder of the `encoding`
//! crate; identifiers outside the set are a first-class error outcome.

use vstd::prelude::*;
use crate::ascii::spec_eq_fold;
use crate::error::DecodeFail;
use crate::names::{spec_name_utf_8, spec_name_us_ascii, spec_name_iso_8859_1, spec_name_iso_8859_2, spec_name_iso_8859_3, spec_name_iso_8859_4, spec_name_iso_8859_5, spec_name_iso_8859_6, spec_name_iso_8859_7, spec_name_iso_8859_8, spec_name_iso_8859_9, spec_name_iso_8859_10, spec_name_shift_jis, spec_name_euc_jp, spec_name_iso_2022_kr, spec_name_euc_kr, spec_name_iso_2022_jp_2, spec_name_iso_2022_jp, spec_name_gb2312, spec_name_big5, spec_name_koi8_r, name_utf_8, name_us_ascii, name_iso_8859_1, name_iso_8859_2, name_iso_8859_3, name_iso_8859_4, name_iso_8859_5, name_iso_8859_6, name_iso_8859_7, name_iso_8859_8, name_iso_8859_9, name_iso_8859_10, name_shift_jis, name_euc_jp, name_iso_2022_kr, name_euc_kr, name_iso_2022_jp_2, name_iso_2022_jp, name_gb2312, name_big5, name_koi8_r};

verus! {

/// A charset identifier: the fixed known set, or an extension name.
#[derive(Debug)]
pub enum Charset {
    UsAscii,
    Iso8859_1,
    Iso8859_2,
    Iso8859_3,
    Iso8859_4,
    Iso8859_5,
    Iso8859_6,
    Iso8859_7,
    Iso8859_8,
    Iso8859_10,
    EucJp,
    Iso2022Jp,
    Big5,
    Koi8R,
    Iso8859_9,
    ShiftJis,
    Iso2022Kr,
    EucKr,
    Iso2022Jp2,
    Iso8859_6E,
    Iso8859_6I,
    Iso8859_8E,
    Iso8859_8I,
    Gb2312,
    Ext(Vec<u8>),
}

/// The mathematical model of a charset identifier.
#[verifier::ext_equal]
pub enum CharsetV {
    UsAscii,
    Iso8859_1,
    Iso8859_2,
    Iso8859_3,
    Iso8859_4,
    Iso8859_5,
    Iso8859_6,
    Iso8859_7,
    Iso8859_8,
    Iso8859_10,
    EucJp,
    Iso2022Jp,
    Big5,
    Koi8R,
    Iso8859_9,
    ShiftJis,
    Iso2022Kr,
    EucKr,
    Iso2022Jp2,
    Iso8859_6E,
    Iso8859_6I,
    Iso8859_8E,
    Iso8859_8I,
    Gb2312,
    Ext(Seq<u8>),
}

impl View for Charset {
    type V = CharsetV;

    open spec fn view(&self) -> CharsetV {
        match self {
            Charset::UsAscii => CharsetV::UsAscii,
            Charset::Iso8859_1 => CharsetV::Iso8859_1,
            Charset::Iso8859_2 => CharsetV::Iso8859_2,
            Charset::Iso8859_3 => CharsetV::Iso8859_3,
            Charset::Iso8859_4 => CharsetV::Iso8859_4,
            Charset::Iso8859_5 => CharsetV::Iso8859_5,
            Charset::Iso8859_6 => CharsetV::Iso8859_6,
            Charset::Iso8859_7 => CharsetV::Iso8859_7,
            Charset::Iso8859_8 => CharsetV::Iso8859_8,
            Charset::Iso8859_10 => CharsetV::Iso8859_10,
            Charset::EucJp => CharsetV::EucJp,
            Charset::Iso2022Jp => CharsetV::Iso2022Jp,
            Charset::Big5 => CharsetV::Big5,
            Charset::Koi8R => CharsetV::Koi8R,
            Charset::Iso8859_9 => CharsetV::Iso8859_9,
            Charset::ShiftJis => CharsetV::ShiftJis,
            Charset::Iso2022Kr => CharsetV::Iso2022Kr,
            Charset::EucKr => CharsetV::EucKr,
            Charset::Iso2022Jp2 => CharsetV::Iso2022Jp2,
            Charset::Iso8859_6E => CharsetV::Iso8859_6E,
            Charset::Iso8859_6I => CharsetV::Iso8859_6I,
            Charset::Iso8859_8E => CharsetV::Iso8859_8E,
            Charset::Iso8859_8I => CharsetV::Iso8859_8I,
            Charset::Gb2312 => CharsetV::Gb2312,
            Charset::Ext(s) => CharsetV::Ext(s@),
        }
    }
}

/// The identity decoding of bytes as the first 256 code points.
pub open spec fn spec_latin1_chars(b: Seq<u8>) -> Seq<char> {
    b.map(|_i: int, c: u8| c as char)
}

/// Relies on `encoding::all::ASCII`'s `decode` with `DecoderTrap::Strict`:
/// its codec errors at the first byte at or above 128 and otherwise maps
/// each byte to the character of the same code point, so it succeeds
/// exactly on all-ASCII input, as the identity.
#[verifier::external_body]
fn decode_us_ascii(b: &[u8]) -> (r: Option<String>)
    ensures
        (r is Some) == (forall|i: int| 0 <= i < b@.len() ==> b@[i] < 128),
        r is Some ==> r->0@ == spec_latin1_chars(b@),
{
    encoding::Encoding::decode(encoding::all::ASCII, b, encoding::DecoderTrap::Strict).ok()
}

/// Relies on `encoding::all::ISO_8859_1`'s `decode`: its single-byte table
/// is the identity on all 256 code points, so it always succeeds, mapping
/// each byte to the character of the same code point.
#[verifier::external_body]
fn decode_iso_8859_1(b: &[u8]) -> (r: Option<String>)
    ensures
        r is Some,
        r->0@ == spec_latin1_chars(b@),
{
    encoding::Encoding::decode(encoding::all::ISO_8859_1, b, encoding::DecoderTrap::Strict).ok()
}

/// What the `ISO_8859_2` decoder of the encoding crate yields on the given
/// bytes with a strict trap: the decoded text, or nothing on
/// malformed input.
pub uninterp spec fn dec_iso_8859_2(b: Seq<u8>) -> Option<Seq<char>>;

/// Relies on `encoding::all::ISO_8859_2`'s `decode` with `DecoderTrap::Strict`:
/// the outcome depends on the input bytes alone; malformed input yields
/// an error, mapped here to `None`.
#[verifier::external_body]
fn decode_iso_8859_2(b: &[u8]) -> (r: Option<String>)
    ensures
        (r is Some) == (dec_iso_8859_2(b@) is Some),
        r is Some ==> r->0@ == dec_iso_8859_2(b@)->0,
{
    encoding::Encoding::decode(encoding::all::ISO_8859_2, b, encoding::DecoderTrap::Strict).ok()
}

/// What the `ISO_8859_3` decoder of the encoding crate yields on the given
/// bytes with a strict trap: the decoded text, or nothing on
/// malformed input.
pub uninterp spec fn dec_iso_8859_3(b: Seq<u8>) -> Option<Seq<char>>;

/// Relies on `encoding::all::ISO_8859_3`'s `decode` with `DecoderTrap::Strict`:
/// the outcome depends on the input bytes alone; malformed input yields
/// an error, mapped here to `None`.
#[verifier::external_body]
fn decode_iso_8859_3(b: &[u8]) -> (r: Option<String>)
    ensures
        (r is Some) == (dec_iso_8859_3(b@) is Some),
        r is Some ==> r->0@ == dec_iso_8859_3(b@)->0,
{
    encoding::Encoding::decode(encoding::all::ISO_8859_3, b, encoding::DecoderTrap::Strict).ok()
}

/// What the `ISO_8859_4` decoder of the encoding crate yields on the given
/// bytes with a strict trap: the decoded text, or nothing on
/// malformed input.
pub uninterp spec fn dec_iso_8859_4(b: Seq<u8>) -> Option<Seq<char>>;

/// Relies on `encoding::all::ISO_8859_4`'s `decode` with `DecoderTrap::Strict`:
/// the outcome depends on the input bytes alone; malformed input yields
/// an error, mapped here to `None`.
#[verifier::external_body]
fn decode_iso_8859_4(b: &[u8]) -> (r: Option<String>)
    ensures
        (r is Some) == (dec_iso_8859_4(b@) is Some),
        r is Some ==> r->0@ == dec_iso_8859_4(b@)->0,
{
    encoding::Encoding::decode(encoding::all::ISO_8859_4, b, encoding::DecoderTrap::Strict).ok()
}

/// What the `ISO_8859_5` decoder of the encoding crate yields on the given
/// bytes with a strict trap: the decoded text, or nothing on
/// malformed input.
pub uninterp spec fn dec_iso_8859_5(b: Seq<u8>) -> Option<Seq<char>>;

/// Relies on `encoding::all::ISO_8859_5`'s `decode` with `DecoderTrap::Strict`:
/// the outcome depends on the input bytes alone; malformed input yields
/// an error, mapped here to `None`.
#[verifier::external_body]
fn decode_iso_8859_5(b: &[u8]) -> (r: Option<String>)
    ensures
        (r is Some) == (dec_iso_8859_5(b@) is Some),
        r is Some ==> r->0@ == dec_iso_8859_5(b@)->0,
{
    encoding::Encoding::decode(encoding::all::ISO_8859_5, b, encoding::DecoderTrap::Strict).ok()
}

/// What the `ISO_8859_6` decoder of the encoding crate yields on the given
/// bytes with a strict trap: the decoded text, or nothing on
/// malformed input.
pub uninterp spec fn dec_iso_8859_6(b: Seq<u8>) -> Option<Seq<char>>;

/// Relies on `encoding::all::ISO_8859_6`'s `decode` with `DecoderTrap::Strict`:
/// the outcome depends on the input bytes alone; malformed input yields
/// an error, mapped here to `None`.
#[verifier::external_body]
fn decode_iso_8859_6(b: &[u8]) -> (r: Option<String>)
    ensures
        (r is Some) == (dec_iso_8859_6(b@) is Some),
        r is Some ==> r->0@ == dec_iso_8859_6(b@)->0,
{
    encoding::Encoding::decode(encoding::all::ISO_8859_6, b, encoding::DecoderTrap::Strict).ok()
}

/// What the `ISO_8859_7` decoder of the encoding crate yields on the given
/// bytes with a strict trap: the decoded text, or nothing on
/// malformed input.
pub uninterp spec fn dec_iso_8859_7(b: Seq<u8>) -> Option<Seq<char>>;

/// Relies on `encoding::all::ISO_8859_7`'s `decode` with `DecoderTrap::Strict`:
/// the outcome depends on the input bytes alone; malformed input yields
/// an error, mapped here to `None`.
#[verifier::external_body]
fn decode_iso_8859_7(b: &[u8]) -> (r: Option<String>)
    ensures
        (r is Some) == (dec_iso_8859_7(b@) is Some),
        r is Some ==> r->0@ == dec_iso_8859_7(b@)->0,
{
    encoding::Encoding::decode(encoding::all::ISO_8859_7, b, encoding::DecoderTrap::Strict).ok()
}

/// What the `ISO_8859_8` decoder of the encoding crate yields on the given
/// bytes with a strict trap: the decoded text, or nothing on
/// malformed input.
pub uninterp spec fn dec_iso_8859_8(b: Seq<u8>) -> Option<Seq<char>>;

/// Relies on `encoding::all::ISO_8859_8`'s `decode` with `DecoderTrap::Strict`:
/// the outcome depends on the input bytes alone; malformed input yields
/// an error, mapped here to `None`.
#[verifier::external_body]
fn decode_iso_8859_8(b: &[u8]) -> (r: Option<String>)
    ensures
        (r is Some) == (dec_iso_8859_8(b@) is Some),
        r is Some ==> r->0@ == dec_iso_8859_8(b@)->0,
{
    encoding::Encoding::decode(encoding::all::ISO_8859_8, b, encoding::DecoderTrap::Strict).ok()
}

/// What the `ISO_8859_10` decoder of the encoding crate yields on the given
/// bytes with a strict trap: the decoded text, or nothing on
/// malformed input.
pub uninterp spec fn dec_iso_8859_10(b: Seq<u8>) -> Option<Seq<char>>;

/// Relies on `encoding::all::ISO_8859_10`'s `decode` with `DecoderTrap::Strict`:
/// the outcome depends on the input bytes alone; malformed input yields
/// an error, mapped here to `None`.
#[verifier::external_body]
fn decode_iso_8859_10(b: &[u8]) -> (r: Option<String>)
    ensures
        (r is Some) == (dec_iso_8859_10(b@) is Some),
        r is Some ==> r->0@ == dec_iso_8859_10(b@)->0,
{
    encoding::Encoding::decode(encoding::all::ISO_8859_10, b, encoding::DecoderTrap::Strict).ok()
}

/// What the `EUC_JP` decoder of the encoding crate yields on the given
/// bytes with a strict trap: the decoded text, or nothing on
/// malformed input.
pub uninterp spec fn dec_euc_jp(b: Seq<u8>) -> Option<Seq<char>>;

/// Relies on `encoding::all::EUC_JP`'s `decode` with `DecoderTrap::Strict`:
/// the outcome depends on the input bytes alone; malformed input yields
/// an error, mapped here to `None`.
#[verifier::external_body]
fn decode_euc_jp(b: &[u8]) -> (r: Option<String>)
    ensures
        (r is Some) == (dec_euc_jp(b@) is Some),
        r is Some ==> r->0@ == dec_euc_jp(b@)->0,
{
    encoding::Encoding::decode(encoding::all::EUC_JP, b, encoding::DecoderTrap::Strict).ok()
}

/// What the `ISO_2022_JP` decoder of the encoding crate yields on the given
/// bytes with a strict trap: the decoded text, or nothing on
/// malformed input.
pub uninterp spec fn dec_iso_2022_jp(b: Seq<u8>) -> Option<Seq<char>>;

/// Relies on `encoding::all::ISO_2022_JP`'s `decode` with `DecoderTrap::Strict`:
/// the outcome depends on the input bytes alone; malformed input yields
/// an error, mapped here to `None`.
#[verifier::external_body]
fn decode_iso_2022_jp(b: &[u8]) -> (r: Option<String>)
    ensures
        (r is Some) == (dec_iso_2022_jp(b@) is Some),
        r is Some ==> r->0@ == dec_iso_2022_jp(b@)->0,
{
    encoding::Encoding::decode(encoding::all::ISO_2022_JP, b, encoding::DecoderTrap::Strict).ok()
}

/// What the `BIG5_2003` decoder of the encoding crate yields on the given
/// bytes with a strict trap: the decoded text, or nothing on
/// malformed input.
pub uninterp spec fn dec_big5(b: Seq<u8>) -> Option<Seq<char>>;

/// Relies on `encoding::all::BIG5_2003`'s `decode` with `DecoderTrap::Strict`:
/// the outcome depends on the input bytes alone; malformed input yields
/// an error, mapped here to `None`.
#[verifier::external_body]
fn decode_big5(b: &[u8]) -> (r: Option<String>)
    ensures
        (r is Some) == (dec_big5(b@) is Some),
        r is Some ==> r->0@ == dec_big5(b@)->0,
{
    encoding::Encoding::decode(encoding::all::BIG5_2003, b, encoding::DecoderTrap::Strict).ok()
}

/// What the `KOI8_R` decoder of the encoding crate yields on the given
/// bytes with a strict trap: the decoded text, or nothing on
/// malformed input.
pub uninterp spec fn dec_koi8_r(b: Seq<u8>) -> Option<Seq<char>>;

/// Relies on `encoding::all::KOI8_R`'s `decode` with `DecoderTrap::Strict`:
/// the outcome depends on the input bytes alone; malformed input yields
/// an error, mapped here to `None`.
#[verifier::external_body]
fn decode_koi8_r(b: &[u8]) -> (r: Option<String>)
    ensures
        (r is Some) == (dec_koi8_r(b@) is Some),
        r is Some ==> r->0@ == dec_koi8_r(b@)->0,
{
    encoding::Encoding::decode(encoding::all::KOI8_R, b, encoding::DecoderTrap::Strict).ok()
}

/// What the `UTF_8` decoder of the encoding crate yields on the given
/// bytes with a strict trap: the decoded text, or nothing on
/// malformed input.
pub uninterp spec fn dec_utf_8(b: Seq<u8>) -> Option<Seq<char>>;

/// Relies on `encoding::all::UTF_8`'s `decode` with `DecoderTrap::Strict`:
/// the outcome depends on the input bytes alone; malformed input yields
/// an error, mapped here to `None`.
#[verifier::external_body]
fn decode_utf_8(b: &[u8]) -> (r: Option<String>)
    ensures
        (r is Some) == (dec_utf_8(b@) is Some),
        r is Some ==> r->0@ == dec_utf_8(b@)->0,
{
    encoding::Encoding::decode(encoding::all::UTF_8, b, encoding::DecoderTrap::Strict).ok()
}

/// Which identifiers the lookup table supports.
pub open spec fn spec_charset_supported(c: CharsetV) -> bool {
    match c {
        CharsetV::UsAscii => true,
        CharsetV::Iso8859_1 => true,
        CharsetV::Iso8859_2 => true,
        CharsetV::Iso8859_3 => true,
        CharsetV::Iso8859_4 => true,
        CharsetV::Iso8859_5 => true,
        CharsetV::Iso8859_6 => true,
        CharsetV::Iso8859_7 => true,
        CharsetV::Iso8859_8 => true,
        CharsetV::Iso8859_10 => true,
        CharsetV::EucJp => true,
        CharsetV::Iso2022Jp => true,
        CharsetV::Big5 => true,
        CharsetV::Koi8R => true,
        CharsetV::Iso8859_9 => false,
        CharsetV::ShiftJis => false,
        CharsetV::Iso2022Kr => false,
        CharsetV::EucKr => false,
        CharsetV::Iso2022Jp2 => false,
        CharsetV::Iso8859_6E => false,
        CharsetV::Iso8859_6I => false,
        CharsetV::Iso8859_8E => false,
        CharsetV::Iso8859_8I => false,
        CharsetV::Gb2312 => false,
        CharsetV::Ext(s) => spec_eq_fold(s, spec_name_utf_8()),
    }
}

/// The decode outcome the table prescribes: the named decoder's result for
/// a supported identifier, an unsupported-charset failure otherwise.
pub open spec fn spec_charset_decode(c: CharsetV, b: Seq<u8>) -> Result<Seq<char>, DecodeFail> {
    match c {
        CharsetV::UsAscii => if forall|i: int| 0 <= i < b.len() ==> b[i] < 128 {
            Ok(spec_latin1_chars(b))
        } else {
            Err(DecodeFail::MalformedBytes)
        },
        CharsetV::Iso8859_1 => Ok(spec_latin1_chars(b)),
        CharsetV::Iso8859_2 => match dec_iso_8859_2(b) {
            Some(s) => Ok(s),
            None => Err(DecodeFail::MalformedBytes),
        },
        CharsetV::Iso8859_3 => match dec_iso_8859_3(b) {
            Some(s) => Ok(s),
            None => Err(DecodeFail::MalformedBytes),
        },
        CharsetV::Iso8859_4 => match dec_iso_8859_4(b) {
            Some(s) => Ok(s),
            None => Err(DecodeFail::MalformedBytes),
        },
        CharsetV::Iso8859_5 => match dec_iso_8859_5(b) {
            Some(s) => Ok(s),
            None => Err(DecodeFail::MalformedBytes),
        },
        CharsetV::Iso8859_6 => match dec_iso_8859_6(b) {
            Some(s) => Ok(s),
            None => Err(DecodeFail::MalformedBytes),
        },
        CharsetV::Iso8859_7 => match dec_iso_8859_7(b) {
            Some(s) => Ok(s),
            None => Err(DecodeFail::MalformedBytes),
        },
        CharsetV::Iso8859_8 => match dec_iso_8859_8(b) {
            Some(s) => Ok(s),
            None => Err(DecodeFail::MalformedBytes),
        },
        CharsetV::Iso8859_10 => match dec_iso_8859_10(b) {
            Some(s) => Ok(s),
            None => Err(DecodeFail::MalformedBytes),
        },
        CharsetV::EucJp => match dec_euc_jp(b) {
            Some(s) => Ok(s),
            None => Err(DecodeFail::MalformedBytes),
        },
        CharsetV::Iso2022Jp => match dec_iso_2022_jp(b) {
            Some(s) => Ok(s),
            None => Err(DecodeFail::MalformedBytes),
        },
        CharsetV::Big5 => match dec_big5(b) {
            Some(s) => Ok(s),
            None => Err(DecodeFail::MalformedBytes),
        },
        CharsetV::Koi8R => match dec_koi8_r(b) {
            Some(s) => Ok(s),
            None => Err(DecodeFail::MalformedBytes),
        },
        CharsetV::Iso8859_9 => Err(DecodeFail::UnsupportedCharset),
        CharsetV::ShiftJis => Err(DecodeFail::UnsupportedCharset),
        CharsetV::Iso2022Kr => Err(DecodeFail::UnsupportedCharset),
        CharsetV::EucKr => Err(DecodeFail::UnsupportedCharset),
        CharsetV::Iso2022Jp2 => Err(DecodeFail::UnsupportedCharset),
        CharsetV::Iso8859_6E => Err(DecodeFail::UnsupportedCharset),
        CharsetV::Iso8859_6I => Err(DecodeFail::UnsupportedCharset),
        CharsetV::Iso8859_8E => Err(DecodeFail::UnsupportedCharset),
        CharsetV::Iso8859_8I => Err(DecodeFail::UnsupportedCharset),
        CharsetV::Gb2312 => Err(DecodeFail::UnsupportedCharset),
        CharsetV::Ext(s) => if spec_eq_fold(s, spec_name_utf_8()) {
            match dec_utf_8(b) {
                Some(t) => Ok(t),
                None => Err(DecodeFail::MalformedBytes),
            }
        } else {
            Err(DecodeFail::UnsupportedCharset)
        },
    }
}

/// The identifier a charset name denotes, compared case-insensitively;
/// names outside the known set are kept as extension names.
pub open spec fn spec_charset_from_name(n: Seq<u8>) -> CharsetV {
    if spec_eq_fold(n, spec_name_us_ascii()) {
        CharsetV::UsAscii
    } else if spec_eq_fold(n, spec_name_iso_8859_1()) {
        CharsetV::Iso8859_1
    } else if spec_eq_fold(n, spec_name_iso_8859_2()) {
        CharsetV::Iso8859_2
    } else if spec_eq_fold(n, spec_name_iso_8859_3()) {
        CharsetV::Iso8859_3
    } else if spec_eq_fold(n, spec_name_iso_8859_4()) {
        CharsetV::Iso8859_4
    } else if spec_eq_fold(n, spec_name_iso_8859_5()) {
        CharsetV::Iso8859_5
    } else if spec_eq_fold(n, spec_name_iso_8859_6()) {
        CharsetV::Iso8859_6
    } else if spec_eq_fold(n, spec_name_iso_8859_7()) {
        CharsetV::Iso8859_7
    } else if spec_eq_fold(n, spec_name_iso_8859_8()) {
        CharsetV::Iso8859_8
    } else if spec_eq_fold(n, spec_name_iso_8859_9()) {
        CharsetV::Iso8859_9
    } else if spec_eq_fold(n, spec_name_iso_8859_10()) {
        CharsetV::Iso8859_10
    } else if spec_eq_fold(n, spec_name_shift_jis()) {
        CharsetV::ShiftJis
    } else if spec_eq_fold(n, spec_name_euc_jp()) {
        CharsetV::EucJp
    } else if spec_eq_fold(n, spec_name_iso_2022_kr()) {
        CharsetV::Iso2022Kr
    } else if spec_eq_fold(n, spec_name_euc_kr()) {
        CharsetV::EucKr
    } else if spec_eq_fold(n, spec_name_iso_2022_jp_2()) {
        CharsetV::Iso2022Jp2
    } else if spec_eq_fold(n, spec_name_iso_2022_jp()) {
        CharsetV::Iso2022Jp
    } else if spec_eq_fold(n, spec_name_gb2312()) {
        CharsetV::Gb2312
    } else if spec_eq_fold(n, spec_name_big5()) {
        CharsetV::Big5
    } else if spec_eq_fold(n, spec_name_koi8_r()) {
        CharsetV::Koi8R
    } else {
        CharsetV::Ext(n)
    }
}

/// Resolves a charset name to its identifier.
pub fn charset_from_name(n: &[u8]) -> (r: Charset)
    ensures
        r@ == spec_charset_from_name(n@),
{
    if crate::ascii::eq_fold(n, name_us_ascii().as_slice()) {
        Charset::UsAscii
    } else if crate::ascii::eq_fold(n, name_iso_8859_1().as_slice()) {
        Charset::Iso8859_1
    } else if crate::ascii::eq_fold(n, name_iso_8859_2().as_slice()) {
        Charset::Iso8859_2
    } else if crate::ascii::eq_fold(n, name_iso_8859_3().as_slice()) {
        Charset::Iso8859_3
    } else if crate::ascii::eq_fold(n, name_iso_8859_4().as_slice()) {
        Charset::Iso8859_4
    } else if crate::ascii::eq_fold(n, name_iso_8859_5().as_slice()) {
        Charset::Iso8859_5
    } else if crate::ascii::eq_fold(n, name_iso_8859_6().as_slice()) {
        Charset::Iso8859_6
    } else if crate::ascii::eq_fold(n, name_iso_8859_7().as_slice()) {
        Charset::Iso8859_7
    } else if crate::ascii::eq_fold(n, name_iso_8859_8().as_slice()) {
        Charset::Iso8859_8
    } else if crate::ascii::eq_fold(n, name_iso_8859_9().as_slice()) {
        Charset::Iso8859_9
    } else if crate::ascii::eq_fold(n, name_iso_8859_10().as_slice()) {
        Charset::Iso8859_10
    } else if crate::ascii::eq_fold(n, name_shift_jis().as_slice()) {
        Charset::ShiftJis
    } else if crate::ascii::eq_fold(n, name_euc_jp().as_slice()) {
        Charset::EucJp
    } else if crate::ascii::eq_fold(n, name_iso_2022_kr().as_slice()) {
        Charset::Iso2022Kr
    } else if crate::ascii::eq_fold(n, name_euc_kr().as_slice()) {
        Charset::EucKr
    } else if crate::ascii::eq_fold(n, name_iso_2022_jp_2().as_slice()) {
        Charset::Iso2022Jp2
    } else if crate::ascii::eq_fold(n, name_iso_2022_jp().as_slice()) {
        Charset::Iso2022Jp
    } else if crate::ascii::eq_fold(n, name_gb2312().as_slice()) {
        Charset::Gb2312
    } else if crate::ascii::eq_fold(n, name_big5().as_slice()) {
        Charset::Big5
    } else if crate::ascii::eq_fold(n, name_koi8_r().as_slice()) {
        Charset::Koi8R
    } else {
        let c = crate::ascii::copy_range(n, 0, n.len());
        assert(c@ =~= n@);
        Charset::Ext(c)
    }
}

/// Decodes bytes under a charset identifier through the lookup table.
/// Unsupported identifiers fail distinguishably from malformed bytes.
pub fn charset_decode(charset: &Charset, bytes: &[u8]) -> (r: Result<String, DecodeFail>)
    ensures
        match r {
            Ok(s) => spec_charset_decode(charset@, bytes@) == Ok::<Seq<char>, DecodeFail>(s@),
            Err(e) => spec_charset_decode(charset@, bytes@) == Err::<Seq<char>, DecodeFail>(e),
        },
{
    match charset {
        Charset::UsAscii => match decode_us_ascii(bytes) {
            Some(s) => Ok(s),
            None => Err(DecodeFail::MalformedBytes),
        },
        Charset::Iso8859_1 => match decode_iso_8859_1(bytes) {
            Some(s) => Ok(s),
            None => Err(DecodeFail::MalformedBytes),
        },
        Charset::Iso8859_2 => match decode_iso_8859_2(bytes) {
            Some(s) => Ok(s),
            None => Err(DecodeFail::MalformedBytes),
        },
        Charset::Iso8859_3 => match decode_iso_8859_3(bytes) {
            Some(s) => Ok(s),
            None => Err(DecodeFail::MalformedBytes),
        },
        Charset::Iso8859_4 => match decode_iso_8859_4(bytes) {
            Some(s) => Ok(s),
            None => Err(DecodeFail::MalformedBytes),
        },
        Charset::Iso8859_5 => match decode_iso_8859_5(bytes) {
            Some(s) => Ok(s),
            None => Err(DecodeFail::MalformedBytes),
        },
        Charset::Iso8859_6 => match decode_iso_8859_6(bytes) {
            Some(s) => Ok(s),
            None => Err(DecodeFail::MalformedBytes),
        },
        Charset::Iso8859_7 => match decode_iso_8859_7(bytes) {
            Some(s) => Ok(s),
            None => Err(DecodeFail::MalformedBytes),
        },
        Charset::Iso8859_8 => match decode_iso_8859_8(bytes) {
            Some(s) => Ok(s),
            None => Err(DecodeFail::MalformedBytes),
        },
        Charset::Iso8859_10 => match decode_iso_8859_10(bytes) {
            Some(s) => Ok(s),
            None => Err(DecodeFail::MalformedBytes),
        },
        Charset::EucJp => match decode_euc_jp(bytes) {
            Some(s) => Ok(s),
            None => Err(DecodeFail::MalformedBytes),
        },
        Charset::Iso2022Jp => match decode_iso_2022_jp(bytes) {
            Some(s) => Ok(s),
            None => Err(DecodeFail::MalformedBytes),
        },
        Charset::Big5 => match decode_big5(bytes) {
            Some(s) => Ok(s),
            None => Err(DecodeFail::MalformedBytes),
        },
        Charset::Koi8R => match decode_koi8_r(bytes) {
            Some(s) => Ok(s),
            None => Err(DecodeFail::MalformedBytes),
        },
        Charset::Iso8859_9 => Err(DecodeFail::UnsupportedCharset),
        Charset::ShiftJis => Err(DecodeFail::UnsupportedCharset),
        Charset::Iso2022Kr => Err(DecodeFail::UnsupportedCharset),
        Charset::EucKr => Err(DecodeFail::UnsupportedCharset),
        Charset::Iso2022Jp2 => Err(DecodeFail::UnsupportedCharset),
        Charset::Iso8859_6E => Err(DecodeFail::UnsupportedCharset),
        Charset::Iso8859_6I => Err(DecodeFail::UnsupportedCharset),
        Charset::Iso8859_8E => Err(DecodeFail::UnsupportedCharset),
        Charset::Iso8859_8I => Err(DecodeFail::UnsupportedCharset),
        Charset::Gb2312 => Err(DecodeFail::UnsupportedCharset),
        Charset::Ext(s) => {
            if crate::ascii::eq_fold(s.as_slice(), name_utf_8().as_slice()) {
                match decode_utf_8(bytes) {
                    Some(t) => Ok(t),
                    None => Err(DecodeFail::MalformedBytes),
                }
            } else {
                Err(DecodeFail::UnsupportedCharset)
            }
        },
    }
}

} // verus!
