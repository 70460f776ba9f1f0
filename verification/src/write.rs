//! The writer: serializes a node sequence under a boundary token into wire
//! bytes, plain or wrapped in length-prefixed chunk framing.

use vstd::prelude::*;
use crate::ascii::append_bytes;
use crate::error::Error;
use crate::headers::{Headers, HeaderV};
use crate::mime_type::{spec_get_boundary_param, get_boundary_param};
use crate::nodes::{Node, NodeV, node_view, nodes_view};

verus! {

/// The CRLF line terminator.
pub open spec fn spec_crlf() -> Seq<u8> {
    seq![13u8, 10u8]
}

/// The two-dash marker.
pub open spec fn spec_dashes() -> Seq<u8> {
    seq![45u8, 45u8]
}

/// One serialized header line: name, `: `, value, CRLF.
pub open spec fn spec_ser_header(h: HeaderV) -> Seq<u8> {
    h.name + seq![58u8, 32u8] + h.value + spec_crlf()
}

/// The serialized header block: one line per header, in order.
pub open spec fn spec_ser_headers(hs: Seq<HeaderV>) -> Seq<u8>
    decreases hs.len(),
{
    if hs.len() == 0 {
        Seq::empty()
    } else {
        spec_ser_header(hs[0]) + spec_ser_headers(hs.drop_first())
    }
}

/// One node's payload: its header block, a blank line, then its body bytes
/// (in-memory or captured), or the recursively serialized child sequence
/// under the container's own resolved boundary parameter.
pub open spec fn spec_ser_node(n: NodeV) -> Result<Seq<u8>, Error>
    decreases n,
{
    match n {
        NodeV::Part { headers, body } => Ok(spec_ser_headers(headers) + spec_crlf() + body),
        NodeV::File { headers, size, body } => Ok(spec_ser_headers(headers) + spec_crlf() + body),
        NodeV::Multipart { headers, children } => match spec_get_boundary_param(headers) {
            Err(e) => Err(e),
            Ok(b2) => match spec_ser_nodes(b2, children) {
                Ok(inner) => Ok(spec_ser_headers(headers) + spec_crlf() + inner),
                Err(e) => Err(e),
            },
        },
    }
}

/// The serialized node sequence: for each node `--boundary`, CRLF, its
/// payload, CRLF; after all nodes the terminal `--boundary--`.
pub open spec fn spec_ser_nodes(boundary: Seq<u8>, nodes: Seq<NodeV>) -> Result<Seq<u8>, Error>
    decreases nodes,
{
    if nodes.len() == 0 {
        Ok(spec_dashes() + boundary + spec_dashes())
    } else {
        match spec_ser_node(nodes[0]) {
            Err(e) => Err(e),
            Ok(payload) => match spec_ser_nodes(boundary, nodes.drop_first()) {
                Err(e) => Err(e),
                Ok(rest) => Ok(
                    spec_dashes() + boundary + spec_crlf() + payload + spec_crlf() + rest,
                ),
            },
        }
    }
}

/// The writer's header block is the wire join of its lines followed by
/// one terminator — the terminator the parser's scanner strips before the
/// block parser runs.  Together with the block round-trip law this says
/// that written header blocks parse back to the same headers.
pub proof fn lemma_ser_headers_is_join(hs: Seq<HeaderV>)
    ensures
        hs.len() == 0 ==> spec_ser_headers(hs) == Seq::<u8>::empty(),
        hs.len() > 0 ==> spec_ser_headers(hs) == crate::headers::spec_join_headers(hs)
            + spec_crlf(),
    decreases hs.len(),
{
    if hs.len() == 0 {
    } else if hs.len() == 1 {
        assert(spec_ser_headers(hs.drop_first()) == Seq::<u8>::empty());
        assert(spec_ser_header(hs[0]) + Seq::<u8>::empty() =~= crate::headers::spec_header_line(
            hs[0],
        ) + spec_crlf());
    } else {
        lemma_ser_headers_is_join(hs.drop_first());
        assert(spec_ser_header(hs[0]) + (crate::headers::spec_join_headers(hs.drop_first())
            + spec_crlf()) =~= (crate::headers::spec_header_line(hs[0]) + seq![13u8, 10u8]
            + crate::headers::spec_join_headers(hs.drop_first())) + spec_crlf());
    }
}

/// Appends the serialized header block.
fn write_headers(out: &mut Vec<u8>, headers: &Headers)
    ensures
        final(out)@ == old(out)@ + spec_ser_headers(headers@),
{
    let mut i: usize = 0;
    assert(headers@.skip(0) =~= headers@);
    while i < headers.fields.len()
        invariant
            i <= headers.fields.len(),
            old(out)@ + spec_ser_headers(headers@) == out@ + spec_ser_headers(
                headers@.skip(i as int),
            ),
        decreases headers.fields.len() - i,
    {
        let ghost hs = headers@.skip(i as int);
        let ghost prev = out@;
        assert(hs[0] == headers@[i as int]);
        append_bytes(out, headers.fields[i].name.as_slice());
        out.push(58);
        out.push(32);
        append_bytes(out, headers.fields[i].value.as_slice());
        out.push(13);
        out.push(10);
        assert(out@ =~= prev + spec_ser_header(headers@[i as int]));
        proof {
            assert(hs.drop_first() =~= headers@.skip(i + 1int));
            assert(prev + (spec_ser_header(hs[0]) + spec_ser_headers(hs.drop_first())) =~= (prev
                + spec_ser_header(hs[0])) + spec_ser_headers(hs.drop_first()));
        }
        i = i + 1;
    }
    assert(spec_ser_headers(headers@.skip(i as int)) =~= Seq::<u8>::empty());
    assert(out@ + Seq::<u8>::empty() =~= out@);
}

/// Appends `--boundary` followed by the given tail bytes.
fn write_boundary_line(out: &mut Vec<u8>, boundary: &Vec<u8>, crlf: bool)
    ensures
        crlf ==> final(out)@ == old(out)@ + (spec_dashes() + boundary@ + spec_crlf()),
        !crlf ==> final(out)@ == old(out)@ + (spec_dashes() + boundary@ + spec_dashes()),
{
    let ghost prev = out@;
    out.push(45);
    out.push(45);
    append_bytes(out, boundary.as_slice());
    if crlf {
        out.push(13);
        out.push(10);
        assert(out@ =~= prev + (spec_dashes() + boundary@ + spec_crlf()));
    } else {
        out.push(45);
        out.push(45);
        assert(out@ =~= prev + (spec_dashes() + boundary@ + spec_dashes()));
    }
}

/// Streams a multipart body into `out`: each node under `--boundary`, then
/// the terminal boundary.  Top-level headers are not emitted; the caller
/// sends those first.  Returns the number of bytes appended; on an error,
/// already-produced bytes remain in `out`.
#[verifier::rlimit(100)]
pub fn write_multipart(out: &mut Vec<u8>, boundary: &Vec<u8>, nodes: &Vec<Node>) -> (r: Result<
    usize,
    Error,
>)
    ensures
        match spec_ser_nodes(boundary@, nodes_view(nodes@)) {
            Ok(s) => r is Ok && final(out)@ == old(out)@ + s && r->Ok_0 == s.len(),
            Err(e) => r is Err && r->Err_0 == e,
        },
    decreases nodes@,
{
    let start = out.len();
    let mut i: usize = 0;
    proof {
        assert(nodes@.skip(0) =~= nodes@);
        assert(out@.skip(start as int) =~= Seq::<u8>::empty());
    }
    while i < nodes.len()
        invariant
            i <= nodes.len(),
            start <= out.len(),
            out@.subrange(0, start as int) == old(out)@,
            spec_ser_nodes(boundary@, nodes_view(nodes@)) == match spec_ser_nodes(
                boundary@,
                nodes_view(nodes@.skip(i as int)),
            ) {
                Ok(rest) => Ok::<Seq<u8>, Error>(out@.skip(start as int) + rest),
                Err(e) => Err::<Seq<u8>, Error>(e),
            },
        decreases nodes.len() - i,
    {
        let ghost ns = nodes@.skip(i as int);
        let ghost written = out@.skip(start as int);
        proof {
            assert(ns[0] == nodes@[i as int]);
            assert(ns.drop_first() =~= nodes@.skip(i + 1int));
            assert(nodes_view(ns)[0] == node_view(ns[0]));
            assert(nodes_view(ns).drop_first() == nodes_view(ns.drop_first()));
        }
        write_boundary_line(out, boundary, true);
        let payload_start = out.len();
        let node = &nodes[i];
        match node {
            Node::Part(p) => {
                write_headers(out, &p.headers);
                out.push(13);
                out.push(10);
                append_bytes(out, p.body.as_slice());
                assert(out@.skip(payload_start as int) =~= spec_ser_headers(p.headers@)
                    + spec_crlf() + p.body@);
            },
            Node::File(f) => {
                write_headers(out, &f.headers);
                out.push(13);
                out.push(10);
                append_bytes(out, f.body.as_slice());
                assert(out@.skip(payload_start as int) =~= spec_ser_headers(f.headers@)
                    + spec_crlf() + f.body@);
            },
            Node::Multipart(pair) => {
                let sub_boundary = match get_boundary_param(&pair.0) {
                    Ok(b) => b,
                    Err(e) => {
                        return Err(e);
                    },
                };
                write_headers(out, &pair.0);
                out.push(13);
                out.push(10);
                let inner_start = out.len();
                proof {
                    assert(decreases_to!(nodes@ => nodes@[i as int]));
                }
                match write_multipart(out, &sub_boundary, &pair.1) {
                    Ok(_) => {},
                    Err(e) => {
                        return Err(e);
                    },
                }
                assert(out@.skip(payload_start as int) =~= spec_ser_headers(pair.0@) + spec_crlf()
                    + out@.skip(inner_start as int));
            },
        }
        out.push(13);
        out.push(10);
        proof {
            let payload = match spec_ser_node(node_view(ns[0])) {
                Ok(p) => p,
                Err(_) => Seq::empty(),
            };
            assert(out@.skip(start as int) =~= written + (spec_dashes() + boundary@ + spec_crlf())
                + payload + spec_crlf());
            match spec_ser_nodes(boundary@, nodes_view(ns.drop_first())) {
                Ok(rest) => {
                    assert(written + ((spec_dashes() + boundary@ + spec_crlf()) + payload
                        + spec_crlf() + rest) =~= out@.skip(start as int) + rest);
                },
                Err(_) => {},
            }
        }
        i = i + 1;
    }
    proof {
        assert(nodes@.skip(i as int).len() == 0);
        assert(nodes_view(nodes@.skip(i as int)).len() == 0);
    }
    let ghost written = out@.skip(start as int);
    write_boundary_line(out, boundary, false);
    assert(out@.skip(start as int) =~= written + (spec_dashes() + boundary@ + spec_dashes()));
    assert(out@.subrange(0, start as int) + out@.skip(start as int) =~= out@);
    Ok(out.len() - start)
}

/// One hexadecimal digit byte, lowercase.
pub open spec fn spec_hex_digit(d: nat) -> u8 {
    if d < 10 {
        (48 + d) as u8
    } else {
        (87 + d) as u8
    }
}

/// The hexadecimal digits of `n`, most significant first; empty for zero.
pub open spec fn spec_hex_digits(n: nat) -> Seq<u8>
    decreases n,
{
    if n == 0 {
        Seq::empty()
    } else {
        spec_hex_digits(n / 16).push(spec_hex_digit(n % 16))
    }
}

/// The hexadecimal rendering of `n`: no leading zeroes, `0` for zero.
pub open spec fn spec_hex(n: nat) -> Seq<u8> {
    if n == 0 {
        seq![48u8]
    } else {
        spec_hex_digits(n)
    }
}

/// One chunk frame: the payload's byte length in hexadecimal, CRLF, the
/// payload, CRLF.
pub open spec fn spec_chunk(b: Seq<u8>) -> Seq<u8> {
    spec_hex(b.len()) + spec_crlf() + b + spec_crlf()
}

/// Renders `n` in hexadecimal.
fn hex_bytes(n: usize) -> (r: Vec<u8>)
    ensures
        r@ == spec_hex(n as nat),
{
    let mut out: Vec<u8> = Vec::new();
    if n == 0 {
        out.push(48);
        assert(out@ =~= spec_hex(0));
        return out;
    }
    let mut m: usize = n;
    while m > 0
        invariant
            spec_hex_digits(n as nat) == spec_hex_digits(m as nat) + out@,
        decreases m,
    {
        let ghost prev = out@;
        let d = m % 16;
        let c: u8 = if d < 10 {
            (48 + d) as u8
        } else {
            (87 + d) as u8
        };
        assert(c == spec_hex_digit((m % 16) as nat));
        out.insert(0, c);
        assert(out@ =~= seq![c] + prev);
        proof {
            assert(spec_hex_digits(m as nat) == spec_hex_digits((m / 16) as nat).push(c));
            assert(spec_hex_digits((m / 16) as nat).push(c) + prev =~= spec_hex_digits(
                (m / 16) as nat,
            ) + (seq![c] + prev));
        }
        m = m / 16;
    }
    assert(spec_hex_digits(0) + out@ =~= out@);
    out
}

/// Appends one chunk frame: the chunk's length in hexadecimal, CRLF, the
/// chunk bytes, CRLF.
pub fn write_chunk(out: &mut Vec<u8>, chunk: &[u8]) -> (r: Result<(), Error>)
    ensures
        r is Ok,
        final(out)@ == old(out)@ + spec_chunk(chunk@),
{
    let ghost prev = out@;
    let h = hex_bytes(chunk.len());
    append_bytes(out, h.as_slice());
    out.push(13);
    out.push(10);
    append_bytes(out, chunk);
    out.push(13);
    out.push(10);
    assert(out@ =~= prev + spec_chunk(chunk@));
    Ok(())
}

/// One header as four chunk frames: name, `: `, value, CRLF.
pub open spec fn spec_chunked_header(h: HeaderV) -> Seq<u8> {
    spec_chunk(h.name) + spec_chunk(seq![58u8, 32u8]) + spec_chunk(h.value) + spec_chunk(
        spec_crlf(),
    )
}

/// The chunk-framed header block.
pub open spec fn spec_chunked_headers(hs: Seq<HeaderV>) -> Seq<u8>
    decreases hs.len(),
{
    if hs.len() == 0 {
        Seq::empty()
    } else {
        spec_chunked_header(hs[0]) + spec_chunked_headers(hs.drop_first())
    }
}

/// One node's chunk-framed payload: its header block, a blank-line chunk,
/// then its body as one chunk, or the recursively framed child sequence
/// (which carries its own terminal frames).
pub open spec fn spec_chunked_node(n: NodeV) -> Result<Seq<u8>, Error>
    decreases n,
{
    match n {
        NodeV::Part { headers, body } => Ok(
            spec_chunked_headers(headers) + spec_chunk(spec_crlf()) + spec_chunk(body),
        ),
        NodeV::File { headers, size, body } => Ok(
            spec_chunked_headers(headers) + spec_chunk(spec_crlf()) + spec_chunk(body),
        ),
        NodeV::Multipart { headers, children } => match spec_get_boundary_param(headers) {
            Err(e) => Err(e),
            Ok(b2) => match spec_chunked_nodes(b2, children) {
                Ok(inner) => Ok(
                    spec_chunked_headers(headers) + spec_chunk(spec_crlf()) + inner,
                ),
                Err(e) => Err(e),
            },
        },
    }
}

/// The chunk-framed node sequence: every discrete write of the plain
/// writer becomes one chunk frame, and a final zero-length chunk ends the
/// stream.
pub open spec fn spec_chunked_nodes(boundary: Seq<u8>, nodes: Seq<NodeV>) -> Result<Seq<u8>, Error>
    decreases nodes,
{
    if nodes.len() == 0 {
        Ok(
            spec_chunk(spec_dashes()) + spec_chunk(boundary) + spec_chunk(spec_dashes())
                + spec_chunk(Seq::empty()),
        )
    } else {
        match spec_chunked_node(nodes[0]) {
            Err(e) => Err(e),
            Ok(payload) => match spec_chunked_nodes(boundary, nodes.drop_first()) {
                Err(e) => Err(e),
                Ok(rest) => Ok(
                    spec_chunk(spec_dashes()) + spec_chunk(boundary) + spec_chunk(spec_crlf())
                        + payload + spec_chunk(spec_crlf()) + rest,
                ),
            },
        }
    }
}

/// Appends the chunk-framed header block.
fn write_headers_chunked(out: &mut Vec<u8>, headers: &Headers)
    ensures
        final(out)@ == old(out)@ + spec_chunked_headers(headers@),
{
    let mut i: usize = 0;
    assert(headers@.skip(0) =~= headers@);
    while i < headers.fields.len()
        invariant
            i <= headers.fields.len(),
            old(out)@ + spec_chunked_headers(headers@) == out@ + spec_chunked_headers(
                headers@.skip(i as int),
            ),
        decreases headers.fields.len() - i,
    {
        let ghost hs = headers@.skip(i as int);
        let ghost prev = out@;
        assert(hs[0] == headers@[i as int]);
        let sep: &[u8] = &[58, 32];
        assert(sep@ =~= seq![58u8, 32u8]);
        let crlf: &[u8] = &[13, 10];
        assert(crlf@ =~= spec_crlf());
        let _ = write_chunk(out, headers.fields[i].name.as_slice());
        let _ = write_chunk(out, sep);
        let _ = write_chunk(out, headers.fields[i].value.as_slice());
        let _ = write_chunk(out, crlf);
        assert(out@ =~= prev + spec_chunked_header(headers@[i as int]));
        proof {
            assert(hs.drop_first() =~= headers@.skip(i + 1int));
            assert(prev + (spec_chunked_header(hs[0]) + spec_chunked_headers(hs.drop_first()))
                =~= (prev + spec_chunked_header(hs[0])) + spec_chunked_headers(hs.drop_first()));
        }
        i = i + 1;
    }
    assert(spec_chunked_headers(headers@.skip(i as int)) =~= Seq::<u8>::empty());
    assert(out@ + Seq::<u8>::empty() =~= out@);
}

/// Streams a multipart body into `out` under chunked transfer framing:
/// every discrete write is one length-prefixed chunk, and a final
/// zero-length chunk ends the stream.  Top-level headers are not emitted;
/// on an error, already-produced chunks remain in `out`.
#[verifier::rlimit(100)]
pub fn write_multipart_chunked(out: &mut Vec<u8>, boundary: &Vec<u8>, nodes: &Vec<Node>) -> (r:
    Result<(), Error>)
    ensures
        match spec_chunked_nodes(boundary@, nodes_view(nodes@)) {
            Ok(s) => r is Ok && final(out)@ == old(out)@ + s,
            Err(e) => r is Err && r->Err_0 == e,
        },
    decreases nodes@,
{
    let start = out.len();
    let mut i: usize = 0;
    proof {
        assert(nodes@.skip(0) =~= nodes@);
        assert(out@.skip(start as int) =~= Seq::<u8>::empty());
    }
    let dashes: &[u8] = &[45, 45];
    assert(dashes@ =~= spec_dashes());
    let crlf: &[u8] = &[13, 10];
    assert(crlf@ =~= spec_crlf());
    while i < nodes.len()
        invariant
            i <= nodes.len(),
            start <= out.len(),
            dashes@ == spec_dashes(),
            crlf@ == spec_crlf(),
            out@.subrange(0, start as int) == old(out)@,
            spec_chunked_nodes(boundary@, nodes_view(nodes@)) == match spec_chunked_nodes(
                boundary@,
                nodes_view(nodes@.skip(i as int)),
            ) {
                Ok(rest) => Ok::<Seq<u8>, Error>(out@.skip(start as int) + rest),
                Err(e) => Err::<Seq<u8>, Error>(e),
            },
        decreases nodes.len() - i,
    {
        let ghost ns = nodes@.skip(i as int);
        let ghost written = out@.skip(start as int);
        proof {
            assert(ns[0] == nodes@[i as int]);
            assert(ns.drop_first() =~= nodes@.skip(i + 1int));
            assert(nodes_view(ns)[0] == node_view(ns[0]));
            assert(nodes_view(ns).drop_first() == nodes_view(ns.drop_first()));
        }
        let _ = write_chunk(out, dashes);
        let _ = write_chunk(out, boundary.as_slice());
        let _ = write_chunk(out, crlf);
        let payload_start = out.len();
        let node = &nodes[i];
        match node {
            Node::Part(p) => {
                write_headers_chunked(out, &p.headers);
                let _ = write_chunk(out, crlf);
                let _ = write_chunk(out, p.body.as_slice());
                assert(out@.skip(payload_start as int) =~= spec_chunked_headers(p.headers@)
                    + spec_chunk(spec_crlf()) + spec_chunk(p.body@));
            },
            Node::File(f) => {
                write_headers_chunked(out, &f.headers);
                let _ = write_chunk(out, crlf);
                let _ = write_chunk(out, f.body.as_slice());
                assert(out@.skip(payload_start as int) =~= spec_chunked_headers(f.headers@)
                    + spec_chunk(spec_crlf()) + spec_chunk(f.body@));
            },
            Node::Multipart(pair) => {
                let sub_boundary = match get_boundary_param(&pair.0) {
                    Ok(b) => b,
                    Err(e) => {
                        return Err(e);
                    },
                };
                write_headers_chunked(out, &pair.0);
                let _ = write_chunk(out, crlf);
                let inner_start = out.len();
                proof {
                    assert(decreases_to!(nodes@ => nodes@[i as int]));
                }
                match write_multipart_chunked(out, &sub_boundary, &pair.1) {
                    Ok(_) => {},
                    Err(e) => {
                        return Err(e);
                    },
                }
                assert(out@.skip(payload_start as int) =~= spec_chunked_headers(pair.0@)
                    + spec_chunk(spec_crlf()) + out@.skip(inner_start as int));
            },
        }
        let _ = write_chunk(out, crlf);
        proof {
            let payload = match spec_chunked_node(node_view(ns[0])) {
                Ok(p) => p,
                Err(_) => Seq::empty(),
            };
            assert(out@.skip(start as int) =~= written + (spec_chunk(spec_dashes()) + spec_chunk(
                boundary@,
            ) + spec_chunk(spec_crlf())) + payload + spec_chunk(spec_crlf()));
            match spec_chunked_nodes(boundary@, nodes_view(ns.drop_first())) {
                Ok(rest) => {
                    assert(written + (spec_chunk(spec_dashes()) + spec_chunk(boundary@)
                        + spec_chunk(spec_crlf()) + payload + spec_chunk(spec_crlf()) + rest) =~=
                        out@.skip(start as int) + rest);
                },
                Err(_) => {},
            }
        }
        i = i + 1;
    }
    proof {
        assert(nodes@.skip(i as int).len() == 0);
        assert(nodes_view(nodes@.skip(i as int)).len() == 0);
    }
    let ghost written = out@.skip(start as int);
    let _ = write_chunk(out, dashes);
    let _ = write_chunk(out, boundary.as_slice());
    let _ = write_chunk(out, dashes);
    let empty: &[u8] = &[];
    assert(empty@ =~= Seq::<u8>::empty());
    let _ = write_chunk(out, empty);
    assert(out@.skip(start as int) =~= written + (spec_chunk(spec_dashes()) + spec_chunk(boundary@)
        + spec_chunk(spec_dashes()) + spec_chunk(Seq::empty())));
    assert(out@.subrange(0, start as int) + out@.skip(start as int) =~= out@);
    Ok(())
}

} // verus!
