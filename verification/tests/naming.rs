use mime_multipart::charset::charset_decode;
use mime_multipart::scan::find_token;
use mime_multipart::{
    get_multipart_boundary, Charset, DecodeFail, Error, FilePart, Headers,
};

fn hdrs(pairs: &[(&str, &str)]) -> Headers {
    let mut h = Headers::new();
    for (n, v) in pairs {
        h.push(n.as_bytes().to_vec(), v.as_bytes().to_vec());
    }
    h
}

#[test]
fn boundary_resolved_from_multipart_type() {
    let h = hdrs(&[("Content-Type", "multipart/mixed; boundary=X")]);
    assert_eq!(get_multipart_boundary(&h).unwrap(), b"--X".to_vec());
}

#[test]
fn boundary_lookup_is_case_insensitive() {
    let h = hdrs(&[("content-TYPE", "MULTIPART/mixed; BOUNDARY=X")]);
    assert_eq!(get_multipart_boundary(&h).unwrap(), b"--X".to_vec());
}

#[test]
fn boundary_value_may_be_quoted() {
    let h = hdrs(&[("Content-Type", "multipart/mixed; boundary=\"X Y\"")]);
    assert_eq!(get_multipart_boundary(&h).unwrap(), b"--X Y".to_vec());
}

#[test]
fn non_multipart_is_rejected() {
    let h = hdrs(&[("Content-Type", "application/json")]);
    assert_eq!(get_multipart_boundary(&h).unwrap_err(), Error::NotMultipart);
}

#[test]
fn multipart_without_boundary_is_rejected() {
    let h = hdrs(&[("Content-Type", "multipart/mixed; charset=utf-8")]);
    assert_eq!(get_multipart_boundary(&h).unwrap_err(), Error::BoundaryNotSpecified);
}

#[test]
fn absent_content_type_is_rejected() {
    assert_eq!(
        get_multipart_boundary(&Headers::new()).unwrap_err(),
        Error::NoRequestContentType
    );
}

#[test]
fn latin1_filename_decodes() {
    assert_eq!(charset_decode(&Charset::Iso8859_1, &[0xe9]).unwrap(), "\u{e9}".to_string());
}

#[test]
fn ascii_decode_rejects_high_bytes() {
    assert_eq!(
        charset_decode(&Charset::UsAscii, &[0x80]).unwrap_err(),
        DecodeFail::MalformedBytes
    );
    assert_eq!(charset_decode(&Charset::UsAscii, b"abc").unwrap(), "abc".to_string());
}

#[test]
fn unsupported_charsets_are_first_class_errors() {
    assert_eq!(
        charset_decode(&Charset::ShiftJis, b"abc").unwrap_err(),
        DecodeFail::UnsupportedCharset
    );
    assert_eq!(
        charset_decode(&Charset::Iso8859_9, b"abc").unwrap_err(),
        DecodeFail::UnsupportedCharset
    );
    assert_eq!(
        charset_decode(&Charset::Ext(b"klingon".to_vec()), b"abc").unwrap_err(),
        DecodeFail::UnsupportedCharset
    );
}

#[test]
fn utf8_extension_charset_decodes() {
    let s = "h\u{e9}llo";
    assert_eq!(
        charset_decode(&Charset::Ext(b"UTF-8".to_vec()), s.as_bytes()).unwrap(),
        s.to_string()
    );
    assert_eq!(
        charset_decode(&Charset::Ext(b"utf-8".to_vec()), &[0xff]).unwrap_err(),
        DecodeFail::MalformedBytes
    );
}

#[test]
fn filename_plain_parameter() {
    let f = FilePart::new(
        hdrs(&[("Content-Disposition", "form-data; filename=\"a.txt\"")]),
        b"/tmp/x".to_vec(),
    );
    assert_eq!(f.filename().unwrap(), Some("a.txt".to_string()));
}

#[test]
fn filename_extended_parameter_with_charset() {
    let f = FilePart::new(
        hdrs(&[("Content-Disposition", "attachment; filename*=iso-8859-1''f%e9e.txt")]),
        b"/tmp/x".to_vec(),
    );
    assert_eq!(f.filename().unwrap(), Some("f\u{e9}e.txt".to_string()));
}

#[test]
fn filename_extended_unsupported_charset_errors() {
    let f = FilePart::new(
        hdrs(&[("Content-Disposition", "attachment; filename*=gb2312''abc")]),
        b"/tmp/x".to_vec(),
    );
    assert_eq!(
        f.filename().unwrap_err(),
        Error::Decoding(DecodeFail::UnsupportedCharset)
    );
}

#[test]
fn filename_absent_without_disposition() {
    let f = FilePart::new(Headers::new(), b"/tmp/x".to_vec());
    assert_eq!(f.filename().unwrap(), None);
}

#[test]
fn file_part_creation_owns_temp_dir() {
    let mut f = FilePart::create(Headers::new()).unwrap();
    assert!(f.owns_temp_dir());
    let dir = f.temp_dir_path().unwrap();
    assert_eq!(f.path.len(), dir.len() + 33);
    assert!(f.path.starts_with(dir.as_slice()));
    assert_eq!(f.path[dir.len()], b'/');
    f.do_not_delete_on_drop();
    assert!(!f.owns_temp_dir());
}

#[test]
fn scanner_finds_token_and_reports_true_miss() {
    let src = b"aaab and then aab";
    assert_eq!(find_token(src, 0, b"aab"), Some(1));
    assert_eq!(find_token(src, 2, b"aab"), Some(14));
    assert_eq!(find_token(src, 0, b"zzz"), None);
    let mut big = vec![b'x'; 5000];
    big.extend_from_slice(b"tok");
    assert_eq!(find_token(&big, 0, b"tok"), Some(5000));
    assert_eq!(find_token(&big, 0, b"tom"), None);
}
