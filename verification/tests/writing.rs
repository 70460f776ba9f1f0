use mime_multipart::{
    generate_boundary, read_multipart_body, write_chunk, write_multipart,
    write_multipart_chunked, FilePart, Headers, Node, Part,
};

fn hdrs(pairs: &[(&str, &str)]) -> Headers {
    let mut h = Headers::new();
    for (n, v) in pairs {
        h.push(n.as_bytes().to_vec(), v.as_bytes().to_vec());
    }
    h
}

fn chunk(b: &[u8]) -> Vec<u8> {
    let mut out = format!("{:x}\r\n", b.len()).into_bytes();
    out.extend_from_slice(b);
    out.extend_from_slice(b"\r\n");
    out
}

#[test]
fn plain_writer_exact_bytes_and_count() {
    let nodes = vec![Node::Part(Part { headers: hdrs(&[("A", "1")]), body: b"xy".to_vec() })];
    let mut out: Vec<u8> = Vec::new();
    let count = write_multipart(&mut out, &b"B".to_vec(), &nodes).unwrap();
    assert_eq!(out, b"--B\r\nA: 1\r\n\r\nxy\r\n--B--".to_vec());
    assert_eq!(count, out.len());
}

#[test]
fn plain_writer_empty_node_list() {
    let mut out: Vec<u8> = Vec::new();
    let count = write_multipart(&mut out, &b"B".to_vec(), &Vec::new()).unwrap();
    assert_eq!(out, b"--B--".to_vec());
    assert_eq!(count, 5);
}

#[test]
fn write_chunk_exact_frames() {
    let mut out: Vec<u8> = Vec::new();
    write_chunk(&mut out, b"hi").unwrap();
    assert_eq!(out, b"2\r\nhi\r\n".to_vec());
    let mut out2: Vec<u8> = Vec::new();
    write_chunk(&mut out2, b"").unwrap();
    assert_eq!(out2, b"0\r\n\r\n".to_vec());
    let mut out3: Vec<u8> = Vec::new();
    write_chunk(&mut out3, &vec![b'z'; 255]).unwrap();
    assert!(out3.starts_with(b"ff\r\n"));
}

#[test]
fn chunked_writer_single_memory_part() {
    let nodes = vec![Node::Part(Part { headers: Headers::new(), body: b"hi".to_vec() })];
    let mut out: Vec<u8> = Vec::new();
    write_multipart_chunked(&mut out, &b"B".to_vec(), &nodes).unwrap();
    let mut expected: Vec<u8> = Vec::new();
    expected.extend_from_slice(&chunk(b"--"));
    expected.extend_from_slice(&chunk(b"B"));
    expected.extend_from_slice(&chunk(b"\r\n"));
    expected.extend_from_slice(&chunk(b"\r\n"));
    expected.extend_from_slice(&chunk(b"hi"));
    expected.extend_from_slice(&chunk(b"\r\n"));
    expected.extend_from_slice(&chunk(b"--"));
    expected.extend_from_slice(&chunk(b"B"));
    expected.extend_from_slice(&chunk(b"--"));
    expected.extend_from_slice(&chunk(b""));
    assert_eq!(out, expected);
    assert!(out.ends_with(b"0\r\n\r\n"));
}

#[test]
fn chunked_writer_frames_headers() {
    let nodes = vec![Node::Part(Part { headers: hdrs(&[("A", "1")]), body: b"x".to_vec() })];
    let mut out: Vec<u8> = Vec::new();
    write_multipart_chunked(&mut out, &b"B".to_vec(), &nodes).unwrap();
    let mut header_frames: Vec<u8> = Vec::new();
    header_frames.extend_from_slice(&chunk(b"A"));
    header_frames.extend_from_slice(&chunk(b": "));
    header_frames.extend_from_slice(&chunk(b"1"));
    header_frames.extend_from_slice(&chunk(b"\r\n"));
    let pos = out
        .windows(header_frames.len())
        .position(|w| w == header_frames.as_slice());
    assert!(pos.is_some());
}

#[test]
fn generated_boundary_is_68_base64_bytes() {
    let b = generate_boundary();
    assert_eq!(b.len(), 68);
    assert!(b.iter().all(|c| c.is_ascii_alphanumeric() || *c == b'+' || *c == b'/'));
}

#[test]
fn round_trip_flat_tree() {
    let boundary = generate_boundary();
    let mut ct = b"multipart/mixed; boundary=".to_vec();
    ct.extend_from_slice(&boundary);
    let mut top = Headers::new();
    top.push(b"Content-Type".to_vec(), ct);

    let part = Part {
        headers: hdrs(&[("Content-Type", "text/plain")]),
        body: b"hello world".to_vec(),
    };
    let mut filepart = FilePart::new(
        hdrs(&[("Content-Disposition", "attachment; filename=\"f.bin\"")]),
        b"/tmp/unused".to_vec(),
    );
    filepart.body = b"file-bytes".to_vec();
    let nodes = vec![Node::Part(part), Node::File(filepart)];

    let mut wire: Vec<u8> = Vec::new();
    write_multipart(&mut wire, &boundary, &nodes).unwrap();
    let parsed = read_multipart_body(&wire, &top, false).unwrap();

    assert_eq!(parsed.len(), 2);
    match &parsed[0] {
        Node::Part(p) => {
            assert_eq!(p.headers.fields[0].name, b"Content-Type".to_vec());
            assert_eq!(p.headers.fields[0].value, b"text/plain".to_vec());
            assert_eq!(p.body, b"hello world".to_vec());
        },
        _ => panic!("expected the memory part back"),
    }
    match &parsed[1] {
        Node::File(f) => {
            assert_eq!(
                f.headers.fields[0].value,
                b"attachment; filename=\"f.bin\"".to_vec()
            );
            assert_eq!(f.body, b"file-bytes".to_vec());
            assert_eq!(f.size, Some(10));
            assert_eq!(f.filename().unwrap(), Some("f.bin".to_string()));
        },
        _ => panic!("expected the file part back"),
    }
}

#[test]
fn round_trip_nested_tree() {
    let mut top = Headers::new();
    top.push(b"Content-Type".to_vec(), b"multipart/mixed; boundary=outer".to_vec());
    let child_headers = hdrs(&[("Content-Type", "multipart/alternative; boundary=innertok")]);
    let inner_part = Part { headers: hdrs(&[("A", "1")]), body: b"deep".to_vec() };
    let tail_part = Part { headers: hdrs(&[("A", "2")]), body: b"tail".to_vec() };
    let nodes = vec![
        Node::Multipart((child_headers, vec![Node::Part(inner_part)])),
        Node::Part(tail_part),
    ];

    let mut wire: Vec<u8> = Vec::new();
    write_multipart(&mut wire, &b"outer".to_vec(), &nodes).unwrap();
    let parsed = read_multipart_body(&wire, &top, false).unwrap();

    assert_eq!(parsed.len(), 2);
    match &parsed[0] {
        Node::Multipart((h, children)) => {
            assert_eq!(
                h.fields[0].value,
                b"multipart/alternative; boundary=innertok".to_vec()
            );
            assert_eq!(children.len(), 1);
            match &children[0] {
                Node::Part(p) => {
                    assert_eq!(p.headers.fields[0].name, b"A".to_vec());
                    assert_eq!(p.body, b"deep".to_vec());
                },
                _ => panic!("expected the inner memory part back"),
            }
        },
        _ => panic!("expected the container back"),
    }
    match &parsed[1] {
        Node::Part(p) => assert_eq!(p.body, b"tail".to_vec()),
        _ => panic!("expected the sibling part back"),
    }
}

#[test]
fn writer_reports_missing_nested_boundary() {
    let nodes = vec![Node::Multipart((hdrs(&[("Content-Type", "multipart/mixed")]), Vec::new()))];
    let mut out: Vec<u8> = Vec::new();
    assert_eq!(
        write_multipart(&mut out, &b"B".to_vec(), &nodes).unwrap_err(),
        mime_multipart::Error::BoundaryNotSpecified
    );
}
