use mime_multipart::{read_multipart, read_multipart_body, Error, Headers, Node};

fn hdrs(pairs: &[(&str, &str)]) -> Headers {
    let mut h = Headers::new();
    for (n, v) in pairs {
        h.push(n.as_bytes().to_vec(), v.as_bytes().to_vec());
    }
    h
}

fn mixed_b() -> Headers {
    hdrs(&[("Content-Type", "multipart/mixed; boundary=B")])
}

#[test]
fn end_to_end_single_memory_part() {
    let input = b"Content-Type: multipart/mixed; boundary=B\r\n\r\n--B\r\nContent-Type: text/plain\r\n\r\nhello\r\n--B--";
    let nodes = read_multipart(input, false).unwrap();
    assert_eq!(nodes.len(), 1);
    match &nodes[0] {
        Node::Part(p) => {
            assert_eq!(p.body, b"hello".to_vec());
            assert_eq!(p.headers.len(), 1);
            assert_eq!(p.headers.fields[0].name, b"Content-Type".to_vec());
            assert_eq!(p.headers.fields[0].value, b"text/plain".to_vec());
        },
        _ => panic!("expected an in-memory part"),
    }
}

#[test]
fn lf_only_line_terminators_parse() {
    let body = b"--B\nContent-Type: text/plain\n\nhello\n--B--";
    let nodes = read_multipart_body(body, &mixed_b(), false).unwrap();
    assert_eq!(nodes.len(), 1);
    match &nodes[0] {
        Node::Part(p) => assert_eq!(p.body, b"hello".to_vec()),
        _ => panic!("expected an in-memory part"),
    }
}

#[test]
fn crlf_line_terminators_parse_two_parts() {
    let body = b"--B\r\nA: 1\r\n\r\nfirst\r\n--B\r\nA: 2\r\n\r\nsecond\r\n--B--";
    let nodes = read_multipart_body(body, &mixed_b(), false).unwrap();
    assert_eq!(nodes.len(), 2);
    match (&nodes[0], &nodes[1]) {
        (Node::Part(p), Node::Part(q)) => {
            assert_eq!(p.body, b"first".to_vec());
            assert_eq!(q.body, b"second".to_vec());
        },
        _ => panic!("expected two in-memory parts"),
    }
}

#[test]
fn nested_multipart_parses() {
    let body = b"--B\r\nContent-Type: multipart/alternative; boundary=C\r\n\r\n--C\r\nContent-Type: text/plain\r\n\r\ninner\r\n--C--\r\n--B--";
    let nodes = read_multipart_body(body, &mixed_b(), false).unwrap();
    assert_eq!(nodes.len(), 1);
    match &nodes[0] {
        Node::Multipart((h, children)) => {
            assert_eq!(h.fields[0].value, b"multipart/alternative; boundary=C".to_vec());
            assert_eq!(children.len(), 1);
            match &children[0] {
                Node::Part(p) => assert_eq!(p.body, b"inner".to_vec()),
                _ => panic!("expected an inner memory part"),
            }
        },
        _ => panic!("expected a nested container"),
    }
}

#[test]
fn sibling_after_nested_container_parses() {
    let body = b"--B\r\nContent-Type: multipart/alternative; boundary=C\r\n\r\n--C\r\nA: 1\r\n\r\ninner\r\n--C--\r\n--B\r\nA: 2\r\n\r\ntail\r\n--B--";
    let nodes = read_multipart_body(body, &mixed_b(), false).unwrap();
    assert_eq!(nodes.len(), 2);
    assert!(matches!(&nodes[0], Node::Multipart(_)));
    match &nodes[1] {
        Node::Part(p) => assert_eq!(p.body, b"tail".to_vec()),
        _ => panic!("expected the sibling part after the container"),
    }
}

#[test]
fn nested_container_without_parent_boundary_after_it() {
    let body = b"--B\r\nContent-Type: multipart/alternative; boundary=C\r\n\r\n--C\r\nA: 1\r\n\r\ninner\r\n--C--";
    assert_eq!(
        read_multipart_body(body, &mixed_b(), false).unwrap_err(),
        Error::EofInPart
    );
}

#[test]
fn attachment_is_file_backed() {
    let body = b"--B\r\nContent-Disposition: attachment\r\n\r\ndata\r\n--B--";
    let nodes = read_multipart_body(body, &mixed_b(), false).unwrap();
    assert_eq!(nodes.len(), 1);
    match &nodes[0] {
        Node::File(f) => {
            assert_eq!(f.body, b"data".to_vec());
            assert_eq!(f.size, Some(4));
            assert!(f.owns_temp_dir());
        },
        _ => panic!("expected a file-backed part"),
    }
}

#[test]
fn filename_parameter_is_file_backed() {
    let body = b"--B\r\nContent-Disposition: form-data; filename=\"a.txt\"\r\n\r\nxyz\r\n--B--";
    let nodes = read_multipart_body(body, &mixed_b(), false).unwrap();
    match &nodes[0] {
        Node::File(f) => {
            assert_eq!(f.body, b"xyz".to_vec());
            assert_eq!(f.filename().unwrap(), Some("a.txt".to_string()));
        },
        _ => panic!("expected a file-backed part"),
    }
}

#[test]
fn plain_part_is_memory_backed() {
    let body = b"--B\r\nContent-Type: text/plain\r\n\r\nxyz\r\n--B--";
    let nodes = read_multipart_body(body, &mixed_b(), false).unwrap();
    assert!(matches!(&nodes[0], Node::Part(_)));
}

#[test]
fn always_use_files_forces_file_backing() {
    let body = b"--B\r\nContent-Type: text/plain\r\n\r\nxyz\r\n--B--";
    let nodes = read_multipart_body(body, &mixed_b(), true).unwrap();
    match &nodes[0] {
        Node::File(f) => assert_eq!(f.body, b"xyz".to_vec()),
        _ => panic!("expected a file-backed part"),
    }
}

#[test]
fn body_spanning_refill_sized_input() {
    // A part body far larger than a typical buffered-reader refill, so the
    // closing token straddles many internal block boundaries.
    let mut body = b"--B\r\nContent-Type: text/plain\r\n\r\n".to_vec();
    let big = vec![b'a'; 5000];
    body.extend_from_slice(&big);
    body.extend_from_slice(b"\r\n--B--");
    let nodes = read_multipart_body(&body, &mixed_b(), false).unwrap();
    match &nodes[0] {
        Node::Part(p) => assert_eq!(p.body, big),
        _ => panic!("expected an in-memory part"),
    }
}

#[test]
fn eof_in_main_headers() {
    assert_eq!(read_multipart(b"no blank line here", false).unwrap_err(), Error::EofInMainHeaders);
}

#[test]
fn eof_before_first_boundary() {
    assert_eq!(
        read_multipart_body(b"nothing here", &mixed_b(), false).unwrap_err(),
        Error::EofBeforeFirstBoundary
    );
}

#[test]
fn no_crlf_after_boundary() {
    assert_eq!(
        read_multipart_body(b"--Bxx", &mixed_b(), false).unwrap_err(),
        Error::NoCrLfAfterBoundary
    );
}

#[test]
fn eof_in_part_headers() {
    assert_eq!(
        read_multipart_body(b"--B\r\nContent-Type: text/plain", &mixed_b(), false).unwrap_err(),
        Error::EofInPartHeaders
    );
}

#[test]
fn eof_in_part() {
    assert_eq!(
        read_multipart_body(b"--B\r\nContent-Type: text/plain\r\n\r\nhello", &mixed_b(), false)
            .unwrap_err(),
        Error::EofInPart
    );
}

#[test]
fn eof_in_file() {
    assert_eq!(
        read_multipart_body(b"--B\r\nContent-Disposition: attachment\r\n\r\ndata", &mixed_b(), false)
            .unwrap_err(),
        Error::EofInFile
    );
}

#[test]
fn partial_headers_on_line_without_colon() {
    assert_eq!(
        read_multipart_body(b"--B\r\nnocolon\r\n\r\nx\r\n--B--", &mixed_b(), false).unwrap_err(),
        Error::PartialHeaders
    );
}

#[test]
fn header_parse_on_blank_in_name() {
    assert_eq!(
        read_multipart_body(b"--B\r\nbad name: v\r\n\r\nx\r\n--B--", &mixed_b(), false)
            .unwrap_err(),
        Error::HeaderParse
    );
}

#[test]
fn missing_content_type_reported() {
    let h = Headers::new();
    assert_eq!(
        read_multipart_body(b"--B\r\n", &h, false).unwrap_err(),
        Error::NoRequestContentType
    );
}

#[test]
fn non_multipart_reported() {
    let h = hdrs(&[("Content-Type", "application/json")]);
    assert_eq!(read_multipart_body(b"--B\r\n", &h, false).unwrap_err(), Error::NotMultipart);
}

#[test]
fn missing_boundary_reported() {
    let h = hdrs(&[("Content-Type", "multipart/mixed")]);
    assert_eq!(
        read_multipart_body(b"--B\r\n", &h, false).unwrap_err(),
        Error::BoundaryNotSpecified
    );
}
