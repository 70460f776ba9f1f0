//! Round-trip laws: what the writer emits, the parser reconstructs.

use vstd::prelude::*;
use crate::error::Error;
use crate::headers::{HeaderV, spec_wire_header, spec_header_line, spec_join_headers,
    lemma_header_line_no_cr, lemma_header_line_parses, lemma_header_block_round_trip};
use crate::disposition::{spec_is_nested, spec_is_file_part};
use crate::mime_type::{spec_get_boundary, spec_get_boundary_param};
use crate::nodes::NodeV;
use crate::parse::{spec_parse_parts, spec_parse_dispatch, spec_parse_body,
    spec_read_multipart_body};
use crate::scan::{spec_match_at, lemma_find_first_at, lemma_find_first_at_from};
use crate::write::{spec_crlf, spec_dashes, spec_ser_header, spec_ser_headers, spec_ser_nodes,
    spec_ser_node};

verus! {

/// Round trip for a single-part body: serializing one in-memory part under
/// a boundary whose token never collides with the serialized content, and
/// parsing the produced bytes back under headers that resolve to the same
/// boundary, yields the same part — headers and body byte for byte.
#[verifier::rlimit(100)]
pub proof fn lemma_single_memory_part_round_trip(
    hs: Seq<HeaderV>,
    bd: Seq<u8>,
    h: HeaderV,
    body: Seq<u8>,
)
    requires
        spec_get_boundary(hs) == Ok::<Seq<u8>, Error>(seq![45u8, 45u8] + bd),
        spec_wire_header(h),
        !spec_is_nested(seq![h]),
        !spec_is_file_part(seq![h], false),
        forall|j: int|
            0 <= j < body.len() ==> !spec_match_at(
                body + spec_crlf() + (seq![45u8, 45u8] + bd) + spec_dashes(),
                j,
                spec_crlf() + (seq![45u8, 45u8] + bd),
            ),
    ensures
        spec_ser_nodes(bd, seq![NodeV::Part { headers: seq![h], body }]) is Ok,
        spec_read_multipart_body(
            spec_ser_nodes(bd, seq![NodeV::Part { headers: seq![h], body }])->Ok_0,
            hs,
            false,
        ) == Ok::<Seq<NodeV>, Error>(seq![NodeV::Part { headers: seq![h], body }]),
{
    let b_full = seq![45u8, 45u8] + bd;
    let lt = spec_crlf();
    let line = spec_header_line(h);
    let ln = line.len() as int;
    let node = NodeV::Part { headers: seq![h], body };
    let nodes = seq![node];
    let ser = b_full + lt + line + lt + lt + body + lt + b_full + spec_dashes();

    // The writer's output is exactly `ser`.
    assert(nodes.drop_first() =~= Seq::<NodeV>::empty());
    assert(seq![h].drop_first() =~= Seq::<HeaderV>::empty());
    assert(spec_ser_headers(seq![h]) == spec_ser_header(h) + spec_ser_headers(
        Seq::<HeaderV>::empty(),
    ));
    assert(spec_ser_node(node) == Ok::<Seq<u8>, Error>(
        spec_ser_headers(seq![h]) + spec_crlf() + body,
    ));
    assert(nodes[0] == node);
    assert(spec_ser_nodes(bd, Seq::<NodeV>::empty()) == Ok::<Seq<u8>, Error>(
        spec_dashes() + bd + spec_dashes(),
    ));
    assert(spec_ser_nodes(bd, nodes) == Ok::<Seq<u8>, Error>(
        spec_dashes() + bd + spec_crlf() + (spec_ser_headers(seq![h]) + spec_crlf() + body)
            + spec_crlf() + (spec_dashes() + bd + spec_dashes()),
    ));
    assert(spec_ser_nodes(bd, nodes)->Ok_0 =~= ser);

    // Offsets of the pieces inside `ser`.
    let p = b_full.len() as int;
    let p1 = p + 2;
    let k2 = p1 + ln;
    let p2 = k2 + 4;
    let k3 = p2 + body.len() as int;
    let p4 = k3 + 2 + b_full.len() as int;
    assert(ser.len() == p4 + 2);

    // The opening boundary token stands at the very start.
    assert(ser.subrange(0, p) =~= b_full);
    assert(spec_match_at(ser, 0, b_full));
    lemma_find_first_at(ser, 0, b_full);

    // CRLF follows it.
    assert(ser[p] == 13 && ser[p + 1] == 10);

    // The level's loop: not at the terminal, since a CR follows.
    assert(!(ser[p] == 45));

    // The line terminator is found exactly at `p`.
    assert(ser.subrange(p, p + 2) =~= lt);
    assert(spec_match_at(ser, p, lt));
    lemma_find_first_at_from(ser, p, p, lt);

    // The blank line ending the header block is found at `k2`: the header
    // line before it holds no carriage return.
    lemma_header_line_no_cr(h);
    assert(ser.subrange(k2, k2 + 4) =~= lt + lt);
    assert(spec_match_at(ser, k2, lt + lt));
    assert forall|j: int| p1 <= j < k2 implies !spec_match_at(ser, j, lt + lt) by {
        if spec_match_at(ser, j, lt + lt) {
            assert(ser.subrange(j, j + 4)[0] == ser[j]);
            assert(ser[j] == line[j - p1]);
        }
    }
    lemma_find_first_at_from(ser, p1, k2, lt + lt);

    // The captured block is the header line, which parses back to `h`.
    assert(ser.subrange(p1, k2) =~= line);
    assert(spec_join_headers(seq![h]) == line);
    lemma_header_block_round_trip(seq![h], 4);

    // The body is delimited by the first line-terminator-plus-boundary
    // token, at `k3`: the non-collision hypothesis rules out any earlier
    // match.
    let ltb = lt + b_full;
    let tail = body + spec_crlf() + (seq![45u8, 45u8] + bd) + spec_dashes();
    assert(ser.subrange(p2, ser.len() as int) =~= tail);
    assert(ser.subrange(k3, k3 + ltb.len() as int) =~= ltb);
    assert(spec_match_at(ser, k3, ltb));
    assert forall|j: int| p2 <= j < k3 implies !spec_match_at(ser, j, ltb) by {
        if spec_match_at(ser, j, ltb) {
            let jj = j - p2;
            assert(tail.subrange(jj, jj + ltb.len() as int) =~= ser.subrange(
                j,
                j + ltb.len() as int,
            ));
            assert(spec_match_at(tail, jj, ltb));
        }
    }
    lemma_find_first_at_from(ser, p2, k3, ltb);
    assert(ser.subrange(p2, k3) =~= body);

    // After the token the terminal `--` stands, and the level is done.
    assert(ser[p4] == 45 && ser[p4 + 1] == 45);
    assert(spec_parse_parts(ser, p4, b_full, true, false) == Ok::<(Seq<NodeV>, int), Error>(
        (Seq::empty(), p4 + 2),
    ));

    // Assembling the loop's one iteration; the terminal dashes are consumed.
    assert(spec_parse_dispatch(ser, p, p2, b_full, true, false, seq![h]) == Ok::<
        (Seq<NodeV>, int),
        Error,
    >((seq![NodeV::Part { headers: seq![h], body: ser.subrange(p2, k3) }] + Seq::empty(), p4 + 2)));
    assert(seq![NodeV::Part { headers: seq![h], body: ser.subrange(p2, k3) }] + Seq::empty()
        =~= nodes);
    assert(spec_parse_parts(ser, p, b_full, true, false) == Ok::<(Seq<NodeV>, int), Error>(
        (nodes, p4 + 2),
    ));
    assert(spec_parse_body(ser, 0, hs, false) == Ok::<(Seq<NodeV>, int), Error>((nodes, p4 + 2)));
}

/// Wire-level dispatch, file half: serializing one file-backed part (its
/// captured bytes as its body) under a non-colliding boundary and parsing
/// the result back yields one file-backed node with the same headers, the
/// captured byte count as its size, and the body byte for byte.  With the
/// dispatch laws this covers parts declaring `attachment` and parts
/// carrying a filename parameter.
#[verifier::rlimit(100)]
pub proof fn lemma_single_file_part_round_trip(
    hs: Seq<HeaderV>,
    bd: Seq<u8>,
    h: HeaderV,
    body: Seq<u8>,
)
    requires
        spec_get_boundary(hs) == Ok::<Seq<u8>, Error>(seq![45u8, 45u8] + bd),
        spec_wire_header(h),
        !spec_is_nested(seq![h]),
        spec_is_file_part(seq![h], false),
        forall|j: int|
            0 <= j < body.len() ==> !spec_match_at(
                body + spec_crlf() + (seq![45u8, 45u8] + bd) + spec_dashes(),
                j,
                spec_crlf() + (seq![45u8, 45u8] + bd),
            ),
    ensures
        spec_ser_nodes(
            bd,
            seq![NodeV::File { headers: seq![h], size: Some(body.len()), body }],
        ) is Ok,
        spec_read_multipart_body(
            spec_ser_nodes(
                bd,
                seq![NodeV::File { headers: seq![h], size: Some(body.len()), body }],
            )->Ok_0,
            hs,
            false,
        ) == Ok::<Seq<NodeV>, Error>(
            seq![NodeV::File { headers: seq![h], size: Some(body.len()), body }],
        ),
{
    let b_full = seq![45u8, 45u8] + bd;
    let lt = spec_crlf();
    let line = spec_header_line(h);
    let ln = line.len() as int;
    let node = NodeV::File { headers: seq![h], size: Some(body.len()), body };
    let nodes = seq![node];
    let ser = b_full + lt + line + lt + lt + body + lt + b_full + spec_dashes();

    // The writer's output is exactly `ser`: a file-backed part's payload
    // is its header block, the blank line, and its captured bytes.
    assert(nodes.drop_first() =~= Seq::<NodeV>::empty());
    assert(seq![h].drop_first() =~= Seq::<HeaderV>::empty());
    assert(spec_ser_headers(seq![h]) == spec_ser_header(h) + spec_ser_headers(
        Seq::<HeaderV>::empty(),
    ));
    assert(spec_ser_node(node) == Ok::<Seq<u8>, Error>(
        spec_ser_headers(seq![h]) + spec_crlf() + body,
    ));
    assert(nodes[0] == node);
    assert(spec_ser_nodes(bd, Seq::<NodeV>::empty()) == Ok::<Seq<u8>, Error>(
        spec_dashes() + bd + spec_dashes(),
    ));
    assert(spec_ser_nodes(bd, nodes) == Ok::<Seq<u8>, Error>(
        spec_dashes() + bd + spec_crlf() + (spec_ser_headers(seq![h]) + spec_crlf() + body)
            + spec_crlf() + (spec_dashes() + bd + spec_dashes()),
    ));
    assert(spec_ser_nodes(bd, nodes)->Ok_0 =~= ser);

    // Offsets of the pieces inside `ser`.
    let p = b_full.len() as int;
    let p1 = p + 2;
    let k2 = p1 + ln;
    let p2 = k2 + 4;
    let k3 = p2 + body.len() as int;
    let p4 = k3 + 2 + b_full.len() as int;
    assert(ser.len() == p4 + 2);

    // The opening boundary token, then CRLF.
    assert(ser.subrange(0, p) =~= b_full);
    assert(spec_match_at(ser, 0, b_full));
    lemma_find_first_at(ser, 0, b_full);
    assert(ser[p] == 13 && ser[p + 1] == 10);

    // The line terminator at `p`, the blank line at `k2`.
    assert(ser.subrange(p, p + 2) =~= lt);
    assert(spec_match_at(ser, p, lt));
    lemma_find_first_at_from(ser, p, p, lt);
    lemma_header_line_no_cr(h);
    assert(ser.subrange(k2, k2 + 4) =~= lt + lt);
    assert(spec_match_at(ser, k2, lt + lt));
    assert forall|j: int| p1 <= j < k2 implies !spec_match_at(ser, j, lt + lt) by {
        if spec_match_at(ser, j, lt + lt) {
            assert(ser.subrange(j, j + 4)[0] == ser[j]);
            assert(ser[j] == line[j - p1]);
        }
    }
    lemma_find_first_at_from(ser, p1, k2, lt + lt);
    assert(ser.subrange(p1, k2) =~= line);
    assert(spec_join_headers(seq![h]) == line);
    lemma_header_block_round_trip(seq![h], 4);

    // The captured bytes end at the first line-terminator-plus-boundary
    // token; the non-collision hypothesis rules out any earlier match.
    let ltb = lt + b_full;
    let tail = body + spec_crlf() + (seq![45u8, 45u8] + bd) + spec_dashes();
    assert(ser.subrange(p2, ser.len() as int) =~= tail);
    assert(ser.subrange(k3, k3 + ltb.len() as int) =~= ltb);
    assert(spec_match_at(ser, k3, ltb));
    assert forall|j: int| p2 <= j < k3 implies !spec_match_at(ser, j, ltb) by {
        if spec_match_at(ser, j, ltb) {
            let jj = j - p2;
            assert(tail.subrange(jj, jj + ltb.len() as int) =~= ser.subrange(
                j,
                j + ltb.len() as int,
            ));
            assert(spec_match_at(tail, jj, ltb));
        }
    }
    lemma_find_first_at_from(ser, p2, k3, ltb);
    assert(ser.subrange(p2, k3) =~= body);

    // The terminal dashes are consumed and the level is done.
    assert(ser[p4] == 45 && ser[p4 + 1] == 45);
    assert(spec_parse_parts(ser, p4, b_full, true, false) == Ok::<(Seq<NodeV>, int), Error>(
        (Seq::empty(), p4 + 2),
    ));
    assert(spec_parse_dispatch(ser, p, p2, b_full, true, false, seq![h]) == Ok::<
        (Seq<NodeV>, int),
        Error,
    >(
        (
            seq![
                NodeV::File {
                    headers: seq![h],
                    size: Some(ser.subrange(p2, k3).len()),
                    body: ser.subrange(p2, k3),
                },
            ] + Seq::empty(),
            p4 + 2,
        ),
    ));
    assert(seq![
        NodeV::File {
            headers: seq![h],
            size: Some(ser.subrange(p2, k3).len()),
            body: ser.subrange(p2, k3),
        },
    ] + Seq::empty() =~= nodes);
    assert(spec_parse_parts(ser, p, b_full, true, false) == Ok::<(Seq<NodeV>, int), Error>(
        (nodes, p4 + 2),
    ));
    assert(spec_parse_body(ser, 0, hs, false) == Ok::<(Seq<NodeV>, int), Error>((nodes, p4 + 2)));
}

/// The child level of the nested round trip: inside the composite stream,
/// the container's body parses under the child boundary to the one
/// in-memory part, ending just past the consumed child terminal.
#[verifier::rlimit(100)]
proof fn lemma_nested_child_level(
    bd: Seq<u8>,
    ch: HeaderV,
    cd: Seq<u8>,
    h: HeaderV,
    body: Seq<u8>,
)
    requires
        spec_get_boundary_param(seq![ch]) == Ok::<Seq<u8>, Error>(cd),
        spec_wire_header(h),
        !spec_is_nested(seq![h]),
        !spec_is_file_part(seq![h], false),
        forall|j: int|
            0 <= j < body.len() ==> !spec_match_at(
                body + spec_crlf() + (seq![45u8, 45u8] + cd) + spec_dashes() + spec_crlf() + (
                seq![45u8, 45u8] + bd) + spec_dashes(),
                j,
                spec_crlf() + (seq![45u8, 45u8] + cd),
            ),
    ensures
        spec_parse_body(
            (seq![45u8, 45u8] + bd) + spec_crlf() + spec_header_line(ch) + spec_crlf()
                + spec_crlf() + ((seq![45u8, 45u8] + cd) + spec_crlf() + spec_header_line(h)
                + spec_crlf() + spec_crlf() + body + spec_crlf() + (seq![45u8, 45u8] + cd)
                + spec_dashes()) + spec_crlf() + (seq![45u8, 45u8] + bd) + spec_dashes(),
            (seq![45u8, 45u8] + bd).len() + 2 + spec_header_line(ch).len() + 4int,
            seq![ch],
            false,
        ) == Ok::<(Seq<NodeV>, int), Error>(
            (
                seq![NodeV::Part { headers: seq![h], body }],
                (seq![45u8, 45u8] + bd).len() + 2 + spec_header_line(ch).len() + 4int + ((seq![
                    45u8,
                    45u8,
                ] + cd) + spec_crlf() + spec_header_line(h) + spec_crlf() + spec_crlf() + body
                    + spec_crlf() + (seq![45u8, 45u8] + cd) + spec_dashes()).len(),
            ),
        ),
{
    let bfull = seq![45u8, 45u8] + bd;
    let cfull = seq![45u8, 45u8] + cd;
    let lt = spec_crlf();
    let cline = spec_header_line(ch);
    let hline = spec_header_line(h);
    let child = NodeV::Part { headers: seq![h], body };
    let inner = cfull + lt + hline + lt + lt + body + lt + cfull + spec_dashes();
    let ser = bfull + lt + cline + lt + lt + inner + lt + bfull + spec_dashes();

    let p2 = bfull.len() + 2 + cline.len() + 4int;
    let pc = p2 + cfull.len() as int;
    let pc1 = pc + 2;
    let kc2 = pc1 + hline.len() as int;
    let pc2 = kc2 + 4;
    let kc3 = pc2 + body.len() as int;
    let pc4 = kc3 + 2 + cfull.len() as int;
    let p3 = pc4 + 2;
    assert(p3 == p2 + inner.len());

    assert(seq![h].drop_first() =~= Seq::<HeaderV>::empty());
    assert(spec_get_boundary(seq![ch]) == Ok::<Seq<u8>, Error>(cfull));
    assert(ser.subrange(p2 as int, pc) =~= cfull);
    assert(spec_match_at(ser, p2 as int, cfull));
    lemma_find_first_at_from(ser, p2 as int, p2 as int, cfull);
    assert(ser[pc] == 13 && ser[pc + 1] == 10);
    assert(ser.subrange(pc, pc + 2) =~= lt);
    assert(spec_match_at(ser, pc, lt));
    lemma_find_first_at_from(ser, pc, pc, lt);
    lemma_header_line_no_cr(h);
    assert(ser.subrange(kc2, kc2 + 4) =~= lt + lt);
    assert(spec_match_at(ser, kc2, lt + lt));
    assert forall|j: int| pc1 <= j < kc2 implies !spec_match_at(ser, j, lt + lt) by {
        if spec_match_at(ser, j, lt + lt) {
            assert(ser.subrange(j, j + 4)[0] == ser[j]);
            assert(ser[j] == hline[j - pc1]);
        }
    }
    lemma_find_first_at_from(ser, pc1, kc2, lt + lt);
    assert(ser.subrange(pc1, kc2) =~= hline);
    assert(spec_join_headers(seq![h]) == hline);
    lemma_header_block_round_trip(seq![h], 4);

    let ltb_c = lt + cfull;
    let tail_c = body + spec_crlf() + cfull + spec_dashes() + spec_crlf() + bfull
        + spec_dashes();
    assert(ser.subrange(pc2, ser.len() as int) =~= tail_c);
    assert(ser.subrange(kc3, kc3 + ltb_c.len() as int) =~= ltb_c);
    assert(spec_match_at(ser, kc3, ltb_c));
    assert forall|j: int| pc2 <= j < kc3 implies !spec_match_at(ser, j, ltb_c) by {
        if spec_match_at(ser, j, ltb_c) {
            let jj = j - pc2;
            assert(tail_c.subrange(jj, jj + ltb_c.len() as int) =~= ser.subrange(
                j,
                j + ltb_c.len() as int,
            ));
            assert(spec_match_at(tail_c, jj, ltb_c));
        }
    }
    lemma_find_first_at_from(ser, pc2, kc3, ltb_c);
    assert(ser.subrange(pc2, kc3) =~= body);

    assert(ser[pc4] == 45 && ser[pc4 + 1] == 45);
    assert(spec_parse_parts(ser, pc4, cfull, true, false) == Ok::<(Seq<NodeV>, int), Error>(
        (Seq::empty(), p3),
    ));
    assert(spec_parse_dispatch(ser, pc, pc2, cfull, true, false, seq![h]) == Ok::<
        (Seq<NodeV>, int),
        Error,
    >((seq![NodeV::Part { headers: seq![h], body: ser.subrange(pc2, kc3) }] + Seq::empty(), p3)));
    assert(seq![NodeV::Part { headers: seq![h], body: ser.subrange(pc2, kc3) }] + Seq::empty()
        =~= seq![child]);
    assert(spec_parse_parts(ser, pc, cfull, true, false) == Ok::<(Seq<NodeV>, int), Error>(
        (seq![child], p3),
    ));
    assert(spec_parse_body(ser, p2 as int, seq![ch], false) == Ok::<(Seq<NodeV>, int), Error>(
        (seq![child], p3),
    ));
}

/// The writer's output for one nested container holding one in-memory
/// part, written out as a single byte sequence.
#[verifier::rlimit(100)]
proof fn lemma_nested_serialization(
    bd: Seq<u8>,
    ch: HeaderV,
    cd: Seq<u8>,
    h: HeaderV,
    body: Seq<u8>,
)
    requires
        spec_get_boundary_param(seq![ch]) == Ok::<Seq<u8>, Error>(cd),
    ensures
        spec_ser_nodes(
            bd,
            seq![
                NodeV::Multipart {
                    headers: seq![ch],
                    children: seq![NodeV::Part { headers: seq![h], body }],
                },
            ],
        ) == Ok::<Seq<u8>, Error>(
            (seq![45u8, 45u8] + bd) + spec_crlf() + spec_header_line(ch) + spec_crlf()
                + spec_crlf() + ((seq![45u8, 45u8] + cd) + spec_crlf() + spec_header_line(h)
                + spec_crlf() + spec_crlf() + body + spec_crlf() + (seq![45u8, 45u8] + cd)
                + spec_dashes()) + spec_crlf() + (seq![45u8, 45u8] + bd) + spec_dashes(),
        ),
{
    let bfull = seq![45u8, 45u8] + bd;
    let cfull = seq![45u8, 45u8] + cd;
    let lt = spec_crlf();
    let cline = spec_header_line(ch);
    let hline = spec_header_line(h);
    let child = NodeV::Part { headers: seq![h], body };
    let node = NodeV::Multipart { headers: seq![ch], children: seq![child] };
    let nodes = seq![node];
    let inner = cfull + lt + hline + lt + lt + body + lt + cfull + spec_dashes();
    let ser = bfull + lt + cline + lt + lt + inner + lt + bfull + spec_dashes();

    assert(nodes.drop_first() =~= Seq::<NodeV>::empty());
    assert(seq![child].drop_first() =~= Seq::<NodeV>::empty());
    assert(seq![ch].drop_first() =~= Seq::<HeaderV>::empty());
    assert(seq![h].drop_first() =~= Seq::<HeaderV>::empty());
    assert(spec_ser_headers(seq![ch]) == spec_ser_header(ch) + spec_ser_headers(
        Seq::<HeaderV>::empty(),
    ));
    assert(spec_ser_headers(seq![h]) == spec_ser_header(h) + spec_ser_headers(
        Seq::<HeaderV>::empty(),
    ));
    assert(spec_ser_node(child) == Ok::<Seq<u8>, Error>(
        spec_ser_headers(seq![h]) + spec_crlf() + body,
    ));
    assert(seq![child][0] == child);
    assert(spec_ser_nodes(cd, Seq::<NodeV>::empty()) == Ok::<Seq<u8>, Error>(
        spec_dashes() + cd + spec_dashes(),
    ));
    assert(spec_ser_nodes(cd, seq![child]) == Ok::<Seq<u8>, Error>(
        spec_dashes() + cd + spec_crlf() + (spec_ser_headers(seq![h]) + spec_crlf() + body)
            + spec_crlf() + (spec_dashes() + cd + spec_dashes()),
    ));
    assert(spec_ser_nodes(cd, seq![child])->Ok_0 =~= inner);
    assert(spec_ser_node(node) == Ok::<Seq<u8>, Error>(
        spec_ser_headers(seq![ch]) + spec_crlf() + spec_ser_nodes(cd, seq![child])->Ok_0,
    ));
    assert(nodes[0] == node);
    assert(spec_ser_nodes(bd, Seq::<NodeV>::empty()) == Ok::<Seq<u8>, Error>(
        spec_dashes() + bd + spec_dashes(),
    ));
    assert(spec_ser_nodes(bd, nodes) == Ok::<Seq<u8>, Error>(
        spec_dashes() + bd + spec_crlf() + (spec_ser_headers(seq![ch]) + spec_crlf()
            + spec_ser_nodes(cd, seq![child])->Ok_0) + spec_crlf() + (spec_dashes() + bd
            + spec_dashes()),
    ));
    assert(spec_ser_nodes(bd, nodes)->Ok_0 =~= ser);
}

/// Round trip for a nested container: serializing a container that holds
/// one in-memory part, under an outer boundary, and parsing the produced
/// bytes back yields the same tree — the child level is parsed under its
/// own resolved boundary, its terminal is consumed, and the parent level
/// resumes at its own boundary token.
#[verifier::rlimit(100)]
pub proof fn lemma_nested_container_round_trip(
    hs: Seq<HeaderV>,
    bd: Seq<u8>,
    ch: HeaderV,
    cd: Seq<u8>,
    h: HeaderV,
    body: Seq<u8>,
)
    requires
        spec_get_boundary(hs) == Ok::<Seq<u8>, Error>(seq![45u8, 45u8] + bd),
        spec_get_boundary_param(seq![ch]) == Ok::<Seq<u8>, Error>(cd),
        spec_wire_header(ch),
        spec_wire_header(h),
        !spec_is_nested(seq![h]),
        !spec_is_file_part(seq![h], false),
        forall|j: int|
            0 <= j < body.len() ==> !spec_match_at(
                body + spec_crlf() + (seq![45u8, 45u8] + cd) + spec_dashes() + spec_crlf() + (
                seq![45u8, 45u8] + bd) + spec_dashes(),
                j,
                spec_crlf() + (seq![45u8, 45u8] + cd),
            ),
    ensures
        spec_ser_nodes(
            bd,
            seq![
                NodeV::Multipart {
                    headers: seq![ch],
                    children: seq![NodeV::Part { headers: seq![h], body }],
                },
            ],
        ) is Ok,
        spec_read_multipart_body(
            spec_ser_nodes(
                bd,
                seq![
                    NodeV::Multipart {
                        headers: seq![ch],
                        children: seq![NodeV::Part { headers: seq![h], body }],
                    },
                ],
            )->Ok_0,
            hs,
            false,
        ) == Ok::<Seq<NodeV>, Error>(
            seq![
                NodeV::Multipart {
                    headers: seq![ch],
                    children: seq![NodeV::Part { headers: seq![h], body }],
                },
            ],
        ),
{
    let bfull = seq![45u8, 45u8] + bd;
    let cfull = seq![45u8, 45u8] + cd;
    let lt = spec_crlf();
    let cline = spec_header_line(ch);
    let hline = spec_header_line(h);
    let child = NodeV::Part { headers: seq![h], body };
    let node = NodeV::Multipart { headers: seq![ch], children: seq![child] };
    let nodes = seq![node];
    let inner = cfull + lt + hline + lt + lt + body + lt + cfull + spec_dashes();
    let ser = bfull + lt + cline + lt + lt + inner + lt + bfull + spec_dashes();

    // The writer's output is exactly `ser`.
    lemma_nested_serialization(bd, ch, cd, h, body);
    assert(spec_ser_nodes(bd, nodes)->Ok_0 == ser);

    // Offsets of the pieces inside `ser`.
    let p = bfull.len() as int;
    let p1 = p + 2;
    let k2 = p1 + cline.len() as int;
    let p2 = k2 + 4;
    let pc = p2 + cfull.len() as int;
    let pc1 = pc + 2;
    let kc2 = pc1 + hline.len() as int;
    let pc2 = kc2 + 4;
    let kc3 = pc2 + body.len() as int;
    let pc4 = kc3 + 2 + cfull.len() as int;
    let p3 = pc4 + 2;
    let p4 = p3 + 2 + bfull.len() as int;
    assert(ser.len() == p4 + 2);

    // The outer boundary token stands at the start, CRLF after it.
    assert(ser.subrange(0, p) =~= bfull);
    assert(spec_match_at(ser, 0, bfull));
    lemma_find_first_at(ser, 0, bfull);
    assert(ser[p] == 13 && ser[p + 1] == 10);

    // The parent loop: CRLF found at `p`, the blank line at `k2`.
    assert(ser.subrange(p, p + 2) =~= lt);
    assert(spec_match_at(ser, p, lt));
    lemma_find_first_at_from(ser, p, p, lt);
    lemma_header_line_no_cr(ch);
    assert(ser.subrange(k2, k2 + 4) =~= lt + lt);
    assert(spec_match_at(ser, k2, lt + lt));
    assert forall|j: int| p1 <= j < k2 implies !spec_match_at(ser, j, lt + lt) by {
        if spec_match_at(ser, j, lt + lt) {
            assert(ser.subrange(j, j + 4)[0] == ser[j]);
            assert(ser[j] == cline[j - p1]);
        }
    }
    lemma_find_first_at_from(ser, p1, k2, lt + lt);
    assert(ser.subrange(p1, k2) =~= cline);
    assert(spec_join_headers(seq![ch]) == cline);
    lemma_header_block_round_trip(seq![ch], 4);

    // The container's headers resolve a boundary, so the part is nested.
    assert(spec_is_nested(seq![ch]));

    // The whole child level parses to the one in-memory part, ending just
    // past its consumed terminal.
    lemma_nested_child_level(bd, ch, cd, h, body);
    assert(spec_parse_body(ser, p2, seq![ch], false) == Ok::<(Seq<NodeV>, int), Error>(
        (seq![child], p3),
    ));

    // The parent level resumes at its own boundary token, right at `p3`.
    let ltb_p = lt + bfull;
    assert(ser.subrange(p3, p3 + ltb_p.len() as int) =~= ltb_p);
    assert(spec_match_at(ser, p3, ltb_p));
    lemma_find_first_at_from(ser, p3, p3, ltb_p);
    assert(ser[p4] == 45 && ser[p4 + 1] == 45);
    assert(spec_parse_parts(ser, p4, bfull, true, false) == Ok::<(Seq<NodeV>, int), Error>(
        (Seq::empty(), p4 + 2),
    ));
    assert(spec_parse_dispatch(ser, p, p2, bfull, true, false, seq![ch]) == Ok::<
        (Seq<NodeV>, int),
        Error,
    >((seq![node] + Seq::empty(), p4 + 2)));
    assert(seq![node] + Seq::<NodeV>::empty() =~= nodes);
    assert(spec_parse_parts(ser, p, bfull, true, false) == Ok::<(Seq<NodeV>, int), Error>(
        (nodes, p4 + 2),
    ));
    assert(spec_parse_body(ser, 0, hs, false) == Ok::<(Seq<NodeV>, int), Error>((nodes, p4 + 2)));
}

/// Bare-LF parsing: a body that uses a lone line feed after the opening
/// boundary parses with LF-only terminators throughout that level.  For
/// any wire-safe header and any body in which the LF-plus-boundary token
/// never matches early, the level yields exactly that one part.
#[verifier::rlimit(100)]
pub proof fn lemma_single_part_parses_with_lf(
    hs: Seq<HeaderV>,
    bd: Seq<u8>,
    h: HeaderV,
    body: Seq<u8>,
)
    requires
        spec_get_boundary(hs) == Ok::<Seq<u8>, Error>(seq![45u8, 45u8] + bd),
        spec_wire_header(h),
        forall|j: int| 0 <= j < spec_header_line(h).len() ==> spec_header_line(h)[j] != 10,
        !spec_is_nested(seq![h]),
        !spec_is_file_part(seq![h], false),
        forall|j: int|
            0 <= j < body.len() ==> !spec_match_at(
                body + seq![10u8] + (seq![45u8, 45u8] + bd) + spec_dashes(),
                j,
                seq![10u8] + (seq![45u8, 45u8] + bd),
            ),
    ensures
        spec_read_multipart_body(
            (seq![45u8, 45u8] + bd) + seq![10u8] + spec_header_line(h) + seq![10u8]
                + seq![10u8] + body + seq![10u8] + (seq![45u8, 45u8] + bd) + spec_dashes(),
            hs,
            false,
        ) == Ok::<Seq<NodeV>, Error>(seq![NodeV::Part { headers: seq![h], body }]),
{
    let b_full = seq![45u8, 45u8] + bd;
    let lf = seq![10u8];
    let line = spec_header_line(h);
    let ln = line.len() as int;
    let nodes = seq![NodeV::Part { headers: seq![h], body }];
    let ser = b_full + lf + line + lf + lf + body + lf + b_full + spec_dashes();

    let p = b_full.len() as int;
    let p1 = p + 1;
    let k2 = p1 + ln;
    let p2 = k2 + 2;
    let k3 = p2 + body.len() as int;
    let p4 = k3 + 1 + b_full.len() as int;
    assert(ser.len() == p4 + 2);

    assert(ser.subrange(0, p) =~= b_full);
    assert(spec_match_at(ser, 0, b_full));
    lemma_find_first_at(ser, 0, b_full);

    // A lone line feed follows the boundary, so the level runs LF-only.
    assert(ser[p] == 10);
    assert(ser[p] != 13 && ser[p] != 45);

    assert(ser.subrange(p, p + 1) =~= lf);
    assert(spec_match_at(ser, p, lf));
    lemma_find_first_at_from(ser, p, p, lf);

    assert(ser.subrange(k2, k2 + 2) =~= lf + lf);
    assert(spec_match_at(ser, k2, lf + lf));
    assert forall|j: int| p1 <= j < k2 implies !spec_match_at(ser, j, lf + lf) by {
        if spec_match_at(ser, j, lf + lf) {
            assert(ser.subrange(j, j + 2)[0] == ser[j]);
            assert(ser[j] == line[j - p1]);
        }
    }
    lemma_find_first_at_from(ser, p1, k2, lf + lf);

    // The captured block is the one header line; with no line feed inside
    // it, the block parser sees a single line and yields the header back.
    assert(ser.subrange(p1, k2) =~= line);
    assert forall|j: int| 0 <= j < line.len() implies line[j] != lf[0] by {}
    crate::scan::lemma_find_none_without_first_byte(line, lf);
    lemma_header_line_parses(h);
    assert(line.len() > 0);
    assert(crate::headers::spec_parse_block(line, lf, 4) == Ok::<Seq<HeaderV>, Error>(seq![h]));

    let ltb = lf + b_full;
    let tail = body + seq![10u8] + (seq![45u8, 45u8] + bd) + spec_dashes();
    assert(ser.subrange(p2, ser.len() as int) =~= tail);
    assert(ser.subrange(k3, k3 + ltb.len() as int) =~= ltb);
    assert(spec_match_at(ser, k3, ltb));
    assert forall|j: int| p2 <= j < k3 implies !spec_match_at(ser, j, ltb) by {
        if spec_match_at(ser, j, ltb) {
            let jj = j - p2;
            assert(tail.subrange(jj, jj + ltb.len() as int) =~= ser.subrange(
                j,
                j + ltb.len() as int,
            ));
            assert(spec_match_at(tail, jj, ltb));
        }
    }
    lemma_find_first_at_from(ser, p2, k3, ltb);
    assert(ser.subrange(p2, k3) =~= body);

    assert(ser[p4] == 45 && ser[p4 + 1] == 45);
    assert(spec_parse_parts(ser, p4, b_full, false, false) == Ok::<(Seq<NodeV>, int), Error>(
        (Seq::empty(), p4 + 2),
    ));

    assert(spec_parse_dispatch(ser, p, p2, b_full, false, false, seq![h]) == Ok::<
        (Seq<NodeV>, int),
        Error,
    >((seq![NodeV::Part { headers: seq![h], body: ser.subrange(p2, k3) }] + Seq::empty(), p4 + 2)));
    assert(seq![NodeV::Part { headers: seq![h], body: ser.subrange(p2, k3) }] + Seq::empty()
        =~= nodes);
    assert(spec_parse_parts(ser, p, b_full, false, false) == Ok::<(Seq<NodeV>, int), Error>(
        (nodes, p4 + 2),
    ));
    assert(spec_parse_body(ser, 0, hs, false) == Ok::<(Seq<NodeV>, int), Error>((nodes, p4 + 2)));
}

/// The bare-LF rendition of a single-part level parses to the same tree
/// as its CRLF rendition: line-terminator style changes the wire bytes
/// but not the parsed result.
pub proof fn lemma_lf_rendition_agrees_with_crlf(
    hs: Seq<HeaderV>,
    bd: Seq<u8>,
    h: HeaderV,
    body: Seq<u8>,
)
    requires
        spec_get_boundary(hs) == Ok::<Seq<u8>, Error>(seq![45u8, 45u8] + bd),
        spec_wire_header(h),
        forall|j: int| 0 <= j < spec_header_line(h).len() ==> spec_header_line(h)[j] != 10,
        !spec_is_nested(seq![h]),
        !spec_is_file_part(seq![h], false),
        forall|j: int|
            0 <= j < body.len() ==> !spec_match_at(
                body + spec_crlf() + (seq![45u8, 45u8] + bd) + spec_dashes(),
                j,
                spec_crlf() + (seq![45u8, 45u8] + bd),
            ),
        forall|j: int|
            0 <= j < body.len() ==> !spec_match_at(
                body + seq![10u8] + (seq![45u8, 45u8] + bd) + spec_dashes(),
                j,
                seq![10u8] + (seq![45u8, 45u8] + bd),
            ),
    ensures
        spec_read_multipart_body(
            (seq![45u8, 45u8] + bd) + seq![10u8] + spec_header_line(h) + seq![10u8]
                + seq![10u8] + body + seq![10u8] + (seq![45u8, 45u8] + bd) + spec_dashes(),
            hs,
            false,
        ) == spec_read_multipart_body(
            spec_ser_nodes(bd, seq![NodeV::Part { headers: seq![h], body }])->Ok_0,
            hs,
            false,
        ),
{
    lemma_single_part_parses_with_lf(hs, bd, h, body);
    lemma_single_memory_part_round_trip(hs, bd, h, body);
}

} // verus!
