//! The recursive tree walker, parsing side: drives the token scanner, the
//! header block parser and the dispatch policy in a loop per multipart
//! level, recursing into nested containers, to build the part tree.

use vstd::prelude::*;
use crate::ascii::copy_range;
use crate::error::Error;
use crate::headers::{Headers, HeaderV, spec_parse_block, parse_header_block};
use crate::mime_type::get_multipart_boundary;
use crate::mime_type::spec_get_boundary;
use crate::disposition::{spec_is_nested, spec_is_file_part, is_nested, is_file_part};
use crate::nodes::{Node, NodeV, Part, FilePart, node_view, nodes_view, spec_node_files_fresh,
    spec_nodes_files_fresh, spec_owns_fresh_dir};
use crate::scan::{spec_find, find_token};

verus! {

/// The line terminator of a level: CRLF or bare LF, fixed when the bytes
/// after the opening boundary are first inspected.
pub open spec fn spec_lt(crlf: bool) -> Seq<u8> {
    if crlf {
        seq![13u8, 10u8]
    } else {
        seq![10u8]
    }
}

/// One level's node loop, from just after its opening boundary token (or a
/// finished part).  At `--` the terminal boundary suffix is consumed and
/// the level is done; otherwise a line terminator, a header block, the
/// dispatch decision and the part body follow, and the loop continues.
pub open spec fn spec_parse_parts(
    src: Seq<u8>,
    pos: int,
    boundary: Seq<u8>,
    crlf: bool,
    always: bool,
) -> Result<(Seq<NodeV>, int), Error>
    decreases src.len() - pos, 2int,
{
    let lt = spec_lt(crlf);
    let ltlt = lt + lt;
    if pos + 2 <= src.len() && src[pos] == 45 && src[pos + 1] == 45 {
        Ok((Seq::empty(), pos + 2))
    } else {
        match spec_find(src, pos, lt) {
            None => Err(Error::NoCrLfAfterBoundary),
            Some(i1) => {
                let p1 = i1 + lt.len();
                if !(pos <= i1 && p1 <= src.len()) {
                    Err(Error::NoCrLfAfterBoundary)
                } else {
                    match spec_find(src, p1, ltlt) {
                        None => Err(Error::EofInPartHeaders),
                        Some(j) => {
                            let p2 = j + ltlt.len();
                            if !(p1 <= j && p2 <= src.len()) {
                                Err(Error::EofInPartHeaders)
                            } else {
                                match spec_parse_block(src.subrange(p1, j), lt, 4) {
                                    Err(e) => Err(e),
                                    Ok(part_hs) => spec_parse_dispatch(
                                        src,
                                        pos,
                                        p2,
                                        boundary,
                                        crlf,
                                        always,
                                        part_hs,
                                    ),
                                }
                            }
                        },
                    }
                }
            },
        }
    }
}

/// The dispatch step of one loop iteration: nested container, file-backed
/// part, or in-memory part.  After a nested container the level scans to
/// the next occurrence of its own line-terminator-plus-boundary token, as
/// the part-body arms do, and the loop continues at this level.
pub open spec fn spec_parse_dispatch(
    src: Seq<u8>,
    pos: int,
    p2: int,
    boundary: Seq<u8>,
    crlf: bool,
    always: bool,
    part_hs: Seq<HeaderV>,
) -> Result<(Seq<NodeV>, int), Error>
    decreases src.len() - pos, 1int,
{
    let lt = spec_lt(crlf);
    let ltb = lt + boundary;
    if !(pos + 3 <= p2 <= src.len()) {
        Err(Error::EofInPartHeaders)
    } else if spec_is_nested(part_hs) {
        match spec_parse_body(src, p2, part_hs, always) {
            Err(e) => Err(e),
            Ok((children, p3)) => {
                if !(p2 <= p3 <= src.len()) {
                    Err(Error::EofInPart)
                } else {
                    match spec_find(src, p3, ltb) {
                        None => Err(Error::EofInPart),
                        Some(k) => {
                            let p4 = k + ltb.len();
                            if !(p3 <= k && p4 <= src.len()) {
                                Err(Error::EofInPart)
                            } else {
                                match spec_parse_parts(src, p4, boundary, crlf, always) {
                                    Err(e) => Err(e),
                                    Ok((rest, end)) => Ok(
                                        (
                                            seq![
                                                NodeV::Multipart {
                                                    headers: part_hs,
                                                    children,
                                                },
                                            ] + rest,
                                            end,
                                        ),
                                    ),
                                }
                            }
                        },
                    }
                }
            },
        }
    } else if spec_is_file_part(part_hs, always) {
        match spec_find(src, p2, ltb) {
            None => Err(Error::EofInFile),
            Some(k) => {
                let p4 = k + ltb.len();
                if !(p2 <= k && p4 <= src.len()) {
                    Err(Error::EofInFile)
                } else {
                    let body = src.subrange(p2, k);
                    match spec_parse_parts(src, p4, boundary, crlf, always) {
                        Err(e) => Err(e),
                        Ok((rest, end)) => Ok(
                            (
                                seq![
                                    NodeV::File {
                                        headers: part_hs,
                                        size: Some(body.len()),
                                        body,
                                    },
                                ] + rest,
                                end,
                            ),
                        ),
                    }
                }
            },
        }
    } else {
        match spec_find(src, p2, ltb) {
            None => Err(Error::EofInPart),
            Some(k) => {
                let p4 = k + ltb.len();
                if !(p2 <= k && p4 <= src.len()) {
                    Err(Error::EofInPart)
                } else {
                    let body = src.subrange(p2, k);
                    match spec_parse_parts(src, p4, boundary, crlf, always) {
                        Err(e) => Err(e),
                        Ok((rest, end)) => Ok(
                            (
                                seq![NodeV::Part { headers: part_hs, body }] + rest,
                                end,
                            ),
                        ),
                    }
                }
            },
        }
    }
}

/// One multipart level: resolve the boundary from the level's headers,
/// scan to the opening boundary, fix the line-terminator style from the
/// two bytes that follow, then run the node loop.
pub open spec fn spec_parse_body(
    src: Seq<u8>,
    pos: int,
    hs: Seq<HeaderV>,
    always: bool,
) -> Result<(Seq<NodeV>, int), Error>
    decreases src.len() - pos, 4int,
{
    match spec_get_boundary(hs) {
        Err(e) => Err(e),
        Ok(boundary) => match spec_find(src, pos, boundary) {
            None => Err(Error::EofBeforeFirstBoundary),
            Some(i) => {
                let p = i + boundary.len();
                if !(pos <= i && pos + 2 <= p <= src.len()) {
                    Err(Error::EofBeforeFirstBoundary)
                } else if p + 2 <= src.len() && src[p] == 13 && src[p + 1] == 10 {
                    spec_parse_parts(src, p, boundary, true, always)
                } else if p + 1 <= src.len() && src[p] == 10 {
                    spec_parse_parts(src, p, boundary, false, always)
                } else {
                    Err(Error::NoCrLfAfterBoundary)
                }
            },
        },
    }
}

/// A whole body whose headers are supplied separately: the node list of
/// the outermost level.
pub open spec fn spec_read_multipart_body(src: Seq<u8>, hs: Seq<HeaderV>, always: bool) -> Result<
    Seq<NodeV>,
    Error,
> {
    match spec_parse_body(src, 0, hs, always) {
        Err(e) => Err(e),
        Ok((ns, _end)) => Ok(ns),
    }
}

/// A whole stream with its top-level headers still embedded: the CRLF
/// header block before the first blank line, then the body.
pub open spec fn spec_read_multipart(src: Seq<u8>, always: bool) -> Result<Seq<NodeV>, Error> {
    match spec_find(src, 0, seq![13u8, 10u8, 13u8, 10u8]) {
        None => Err(Error::EofInMainHeaders),
        Some(j) => {
            if !(0 <= j && j + 4 <= src.len()) {
                Err(Error::EofInMainHeaders)
            } else {
                match spec_parse_block(src.subrange(0, j), seq![13u8, 10u8], 64) {
                    Err(e) => Err(e),
                    Ok(hs) => match spec_parse_body(src, j + 4, hs, always) {
                        Err(e) => Err(e),
                        Ok((ns, _end)) => Ok(ns),
                    },
                }
            }
        },
    }
}

/// Whether one level's prescribed parse, from `pos`, dispatches some part
/// to a file.  That dispatch is the only step that allocates an ephemeral
/// file resource, and so the only source of the I/O error kind.
pub open spec fn spec_parts_allocates(
    src: Seq<u8>,
    pos: int,
    boundary: Seq<u8>,
    crlf: bool,
    always: bool,
) -> bool
    decreases src.len() - pos, 2int,
{
    let lt = spec_lt(crlf);
    let ltlt = lt + lt;
    if pos + 2 <= src.len() && src[pos] == 45 && src[pos + 1] == 45 {
        false
    } else {
        match spec_find(src, pos, lt) {
            None => false,
            Some(i1) => {
                let p1 = i1 + lt.len();
                if !(pos <= i1 && p1 <= src.len()) {
                    false
                } else {
                    match spec_find(src, p1, ltlt) {
                        None => false,
                        Some(j) => {
                            let p2 = j + ltlt.len();
                            if !(p1 <= j && p2 <= src.len()) {
                                false
                            } else {
                                match spec_parse_block(src.subrange(p1, j), lt, 4) {
                                    Err(_) => false,
                                    Ok(part_hs) => spec_dispatch_allocates(
                                        src,
                                        pos,
                                        p2,
                                        boundary,
                                        crlf,
                                        always,
                                        part_hs,
                                    ),
                                }
                            }
                        },
                    }
                }
            },
        }
    }
}

/// Whether one dispatch step, or anything after it on this level,
/// dispatches a part to a file.
pub open spec fn spec_dispatch_allocates(
    src: Seq<u8>,
    pos: int,
    p2: int,
    boundary: Seq<u8>,
    crlf: bool,
    always: bool,
    part_hs: Seq<HeaderV>,
) -> bool
    decreases src.len() - pos, 1int,
{
    let lt = spec_lt(crlf);
    let ltb = lt + boundary;
    if !(pos + 3 <= p2 <= src.len()) {
        false
    } else if spec_is_nested(part_hs) {
        spec_body_allocates(src, p2, part_hs, always) || (match spec_parse_body(
            src,
            p2,
            part_hs,
            always,
        ) {
            Ok(r) => if p2 <= r.1 <= src.len() {
                match spec_find(src, r.1, ltb) {
                    None => false,
                    Some(k) => {
                        let p4 = k + ltb.len();
                        if r.1 <= k && p4 <= src.len() {
                            spec_parts_allocates(src, p4, boundary, crlf, always)
                        } else {
                            false
                        }
                    },
                }
            } else {
                false
            },
            Err(_) => false,
        })
    } else if spec_is_file_part(part_hs, always) {
        true
    } else {
        match spec_find(src, p2, ltb) {
            None => false,
            Some(k) => {
                let p4 = k + ltb.len();
                if !(p2 <= k && p4 <= src.len()) {
                    false
                } else {
                    spec_parts_allocates(src, p4, boundary, crlf, always)
                }
            },
        }
    }
}

/// Whether a whole level's prescribed parse dispatches a part to a file.
pub open spec fn spec_body_allocates(src: Seq<u8>, pos: int, hs: Seq<HeaderV>, always: bool) -> bool
    decreases src.len() - pos, 4int,
{
    match spec_get_boundary(hs) {
        Err(_) => false,
        Ok(boundary) => match spec_find(src, pos, boundary) {
            None => false,
            Some(i) => {
                let p = i + boundary.len();
                if !(pos <= i && pos + 2 <= p <= src.len()) {
                    false
                } else if p + 2 <= src.len() && src[p] == 13 && src[p + 1] == 10 {
                    spec_parts_allocates(src, p, boundary, true, always)
                } else if p + 1 <= src.len() && src[p] == 10 {
                    spec_parts_allocates(src, p, boundary, false, always)
                } else {
                    false
                }
            },
        },
    }
}

/// Whether parsing a body under supplied headers dispatches a part to a
/// file: exactly the inputs on which the I/O error kind may be reported.
pub open spec fn spec_read_multipart_body_allocates(
    src: Seq<u8>,
    hs: Seq<HeaderV>,
    always: bool,
) -> bool {
    spec_body_allocates(src, 0, hs, always)
}

/// Whether parsing a whole stream dispatches a part to a file.
pub open spec fn spec_read_multipart_allocates(src: Seq<u8>, always: bool) -> bool {
    match spec_find(src, 0, seq![13u8, 10u8, 13u8, 10u8]) {
        None => false,
        Some(j) => {
            if !(0 <= j && j + 4 <= src.len()) {
                false
            } else {
                match spec_parse_block(src.subrange(0, j), seq![13u8, 10u8], 64) {
                    Err(_) => false,
                    Ok(hs) => spec_body_allocates(src, j + 4, hs, always),
                }
            }
        },
    }
}

/// Performs one dispatch step: builds the node that starts at header-block
/// end `p2` (nested container, file-backed, or in-memory part) and returns
/// it with the position where the level's loop continues.
#[verifier::rlimit(60)]
fn parse_one(
    src: &[u8],
    pos: usize,
    p2: usize,
    boundary: &Vec<u8>,
    crlf: bool,
    always: bool,
    part_headers: Headers,
) -> (r: Result<(Node, usize), Error>)
    requires
        pos + 3 <= p2 <= src.len(),
        boundary@.len() >= 2,
    ensures
        match r {
            Ok(p) => p2 <= p.1 <= src.len() && spec_node_files_fresh(p.0) && (
            spec_parts_allocates(src@, p.1 as int, boundary@, crlf, always)
                ==> spec_dispatch_allocates(
                src@,
                pos as int,
                p2 as int,
                boundary@,
                crlf,
                always,
                part_headers@,
            )) && spec_parse_dispatch(
                src@,
                pos as int,
                p2 as int,
                boundary@,
                crlf,
                always,
                part_headers@,
            ) == match spec_parse_parts(src@, p.1 as int, boundary@, crlf, always) {
                Ok(q) => Ok::<(Seq<NodeV>, int), Error>((seq![node_view(p.0)] + q.0, q.1)),
                Err(e) => Err::<(Seq<NodeV>, int), Error>(e),
            },
            Err(e) => (e == Error::Io && spec_dispatch_allocates(
                src@,
                pos as int,
                p2 as int,
                boundary@,
                crlf,
                always,
                part_headers@,
            )) || spec_parse_dispatch(
                src@,
                pos as int,
                p2 as int,
                boundary@,
                crlf,
                always,
                part_headers@,
            ) == Err::<(Seq<NodeV>, int), Error>(e),
        },
    decreases src@.len() - pos, 1int,
{
    let mut lt: Vec<u8> = Vec::new();
    if crlf {
        lt.push(13);
        lt.push(10);
    } else {
        lt.push(10);
    }
    assert(lt@ =~= spec_lt(crlf));
    let mut ltb: Vec<u8> = Vec::new();
    crate::ascii::append_bytes(&mut ltb, lt.as_slice());
    crate::ascii::append_bytes(&mut ltb, boundary.as_slice());
    assert(ltb@ =~= spec_lt(crlf) + boundary@);
    if is_nested(&part_headers) {
        let (children, p3) = match parse_body(src, p2, &part_headers, always) {
            Err(e) => {
                return Err(e);
            },
            Ok(p) => p,
        };
        let k = match find_token(src, p3, ltb.as_slice()) {
            None => {
                return Err(Error::EofInPart);
            },
            Some(k) => k,
        };
        let p4 = k + ltb.len();
        let node = Node::Multipart((part_headers, children));
        Ok((node, p4))
    } else if is_file_part(&part_headers, always) {
        let mut filepart = match FilePart::create(part_headers) {
            Err(_) => {
                return Err(Error::Io);
            },
            Ok(f) => f,
        };
        let k = match find_token(src, p2, ltb.as_slice()) {
            None => {
                return Err(Error::EofInFile);
            },
            Some(k) => k,
        };
        let p4 = k + ltb.len();
        let body = copy_range(src, p2, k);
        filepart.size = Some(body.len());
        filepart.body = body;
        assert(spec_owns_fresh_dir(filepart));
        let node = Node::File(filepart);
        Ok((node, p4))
    } else {
        let k = match find_token(src, p2, ltb.as_slice()) {
            None => {
                return Err(Error::EofInPart);
            },
            Some(k) => k,
        };
        let p4 = k + ltb.len();
        let body = copy_range(src, p2, k);
        let node = Node::Part(Part { headers: part_headers, body });
        Ok((node, p4))
    }
}

/// Runs one level's node loop, one part per recursive step.  An `Err` is
/// either the I/O kind, possible only where the level's grammar dispatches
/// some part to a file, or exactly the parse error the grammar prescribes.
#[verifier::rlimit(60)]
fn parse_parts(src: &[u8], pos0: usize, boundary: &Vec<u8>, crlf: bool, always: bool) -> (r:
    Result<(Vec<Node>, usize), Error>)
    requires
        pos0 <= src.len(),
        boundary@.len() >= 2,
    ensures
        match r {
            Ok(p) => spec_parse_parts(src@, pos0 as int, boundary@, crlf, always) == Ok::<
                (Seq<NodeV>, int),
                Error,
            >((nodes_view(p.0@), p.1 as int)) && pos0 <= p.1 <= src.len() && spec_nodes_files_fresh(
                p.0@,
            ),
            Err(e) => (e == Error::Io && spec_parts_allocates(
                src@,
                pos0 as int,
                boundary@,
                crlf,
                always,
            )) || spec_parse_parts(src@, pos0 as int, boundary@, crlf, always) == Err::<
                (Seq<NodeV>, int),
                Error,
            >(e),
        },
    decreases src@.len() - pos0, 2int,
{
    let mut lt: Vec<u8> = Vec::new();
    if crlf {
        lt.push(13);
        lt.push(10);
    } else {
        lt.push(10);
    }
    assert(lt@ =~= spec_lt(crlf));
    let mut ltlt: Vec<u8> = Vec::new();
    crate::ascii::append_bytes(&mut ltlt, lt.as_slice());
    crate::ascii::append_bytes(&mut ltlt, lt.as_slice());
    assert(ltlt@ =~= spec_lt(crlf) + spec_lt(crlf));
    if src.len() >= 2 && pos0 <= src.len() - 2 && src[pos0] == 45 && src[pos0 + 1] == 45 {
        let nodes: Vec<Node> = Vec::new();
        assert(nodes_view(nodes@) =~= Seq::<NodeV>::empty());
        return Ok((nodes, pos0 + 2));
    }
    let i1 = match find_token(src, pos0, lt.as_slice()) {
        None => {
            return Err(Error::NoCrLfAfterBoundary);
        },
        Some(i1) => i1,
    };
    let p1 = i1 + lt.len();
    let j = match find_token(src, p1, ltlt.as_slice()) {
        None => {
            return Err(Error::EofInPartHeaders);
        },
        Some(j) => j,
    };
    let p2 = j + ltlt.len();
    let block = vstd::slice::slice_subrange(src, p1, j);
    let part_headers = match parse_header_block(block, lt.as_slice(), 4) {
        Err(e) => {
            return Err(e);
        },
        Ok(hs) => hs,
    };
    let ghost dispatched = spec_parse_dispatch(
        src@,
        pos0 as int,
        p2 as int,
        boundary@,
        crlf,
        always,
        part_headers@,
    );
    let ghost alloc_here = spec_dispatch_allocates(
        src@,
        pos0 as int,
        p2 as int,
        boundary@,
        crlf,
        always,
        part_headers@,
    );
    assert(spec_parse_parts(src@, pos0 as int, boundary@, crlf, always) == dispatched);
    assert(spec_parts_allocates(src@, pos0 as int, boundary@, crlf, always) == alloc_here);
    let (node, p4) = match parse_one(src, pos0, p2, boundary, crlf, always, part_headers) {
        Err(e) => {
            return Err(e);
        },
        Ok(p) => p,
    };
    let (mut rest, end) = match parse_parts(src, p4, boundary, crlf, always) {
        Err(e) => {
            return Err(e);
        },
        Ok(p) => p,
    };
    let ghost restv = rest@;
    rest.insert(0, node);
    proof {
        assert(rest@ =~= seq![node] + restv);
        assert((seq![node] + restv)[0] == node);
        assert((seq![node] + restv).drop_first() =~= restv);
        assert(nodes_view(rest@) == seq![node_view(node)] + nodes_view(restv));
    }
    Ok((rest, end))
}

/// Parses one multipart level: the boundary resolved from the level's
/// headers, the opening boundary token found, the line-terminator style
/// fixed, then the node loop.  Returns the level's nodes and the position
/// just after the level's last consumed byte.
fn parse_body(src: &[u8], pos: usize, headers: &Headers, always: bool) -> (r: Result<
    (Vec<Node>, usize),
    Error,
>)
    requires
        pos <= src.len(),
    ensures
        match r {
            Ok(p) => spec_parse_body(src@, pos as int, headers@, always) == Ok::<
                (Seq<NodeV>, int),
                Error,
            >((nodes_view(p.0@), p.1 as int)) && pos <= p.1 <= src.len() && spec_nodes_files_fresh(
                p.0@,
            ),
            Err(e) => (e == Error::Io && spec_body_allocates(src@, pos as int, headers@, always))
                || spec_parse_body(src@, pos as int, headers@, always) == Err::<
                (Seq<NodeV>, int),
                Error,
            >(e),
        },
    decreases src@.len() - pos, 4int,
{
    let boundary = match get_multipart_boundary(headers) {
        Err(e) => {
            return Err(e);
        },
        Ok(b) => b,
    };
    let i = match find_token(src, pos, boundary.as_slice()) {
        None => {
            return Err(Error::EofBeforeFirstBoundary);
        },
        Some(i) => i,
    };
    let p = i + boundary.len();
    if src.len() >= 2 && p <= src.len() - 2 && src[p] == 13 && src[p + 1] == 10 {
        parse_parts(src, p, &boundary, true, always)
    } else if p < src.len() && src[p] == 10 {
        parse_parts(src, p, &boundary, false, always)
    } else {
        Err(Error::NoCrLfAfterBoundary)
    }
}

/// Parses a multipart body whose top-level headers are supplied
/// separately: the stream starts at the body.  The I/O error kind can be
/// reported only on inputs whose prescribed parse dispatches some part to
/// a file (that dispatch allocates an ephemeral directory); every other
/// outcome, success or error, is exactly what the grammar prescribes, and
/// every returned file-backed part owns its fresh temporary directory.
pub fn read_multipart_body(stream: &[u8], headers: &Headers, always_use_files: bool) -> (r: Result<
    Vec<Node>,
    Error,
>)
    ensures
        match r {
            Ok(ns) => spec_read_multipart_body(stream@, headers@, always_use_files) == Ok::<
                Seq<NodeV>,
                Error,
            >(nodes_view(ns@)) && spec_nodes_files_fresh(ns@),
            Err(e) => (e == Error::Io && spec_read_multipart_body_allocates(
                stream@,
                headers@,
                always_use_files,
            )) || spec_read_multipart_body(stream@, headers@, always_use_files) == Err::<
                Seq<NodeV>,
                Error,
            >(e),
        },
{
    match parse_body(stream, 0, headers, always_use_files) {
        Ok(p) => Ok(p.0),
        Err(e) => Err(e),
    }
}

/// Parses a multipart stream whose top-level headers are still embedded:
/// the CRLF header block before the first blank line, then the body.  As
/// with the body entry point, the I/O kind is confined to inputs whose
/// prescribed parse dispatches a part to a file.
pub fn read_multipart(stream: &[u8], always_use_files: bool) -> (r: Result<Vec<Node>, Error>)
    ensures
        match r {
            Ok(ns) => spec_read_multipart(stream@, always_use_files) == Ok::<Seq<NodeV>, Error>(
                nodes_view(ns@),
            ) && spec_nodes_files_fresh(ns@),
            Err(e) => (e == Error::Io && spec_read_multipart_allocates(stream@, always_use_files))
                || spec_read_multipart(stream@, always_use_files) == Err::<Seq<NodeV>, Error>(e),
        },
{
    let mut ltlt: Vec<u8> = Vec::new();
    ltlt.push(13);
    ltlt.push(10);
    ltlt.push(13);
    ltlt.push(10);
    assert(ltlt@ =~= seq![13u8, 10u8, 13u8, 10u8]);
    let j = match find_token(stream, 0, ltlt.as_slice()) {
        None => {
            return Err(Error::EofInMainHeaders);
        },
        Some(j) => j,
    };
    let mut crlf: Vec<u8> = Vec::new();
    crlf.push(13);
    crlf.push(10);
    assert(crlf@ =~= seq![13u8, 10u8]);
    let block = vstd::slice::slice_subrange(stream, 0, j);
    let headers = match parse_header_block(block, crlf.as_slice(), 64) {
        Err(e) => {
            return Err(e);
        },
        Ok(hs) => hs,
    };
    let n = stream.len();
    assert(j + 4 <= n);
    match parse_body(stream, j + 4, &headers, always_use_files) {
        Ok(p) => Ok(p.0),
        Err(e) => Err(e),
    }
}

} // verus!
