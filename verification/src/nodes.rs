//! The part tree: in-memory parts, file-backed parts with their ephemeral
//! temporary directory, and nested multipart containers.

use vstd::prelude::*;
use crate::ascii::append_bytes;
use crate::error::Error;
use crate::headers::{Headers, HeaderV, spec_lookup};
use crate::mime_type::{MimeType, MimeTypeV, spec_parse_mime, parse_mime};
use crate::names::{spec_name_content_type, name_content_type};

verus! {

/// The media type a header collection declares, if one parses.
pub open spec fn spec_content_type(hs: Seq<HeaderV>) -> Option<MimeTypeV> {
    match spec_lookup(hs, spec_name_content_type()) {
        None => None,
        Some(v) => spec_parse_mime(v),
    }
}

/// A part held in memory.
#[derive(Debug)]
pub struct Part {
    pub headers: Headers,
    pub body: Vec<u8>,
}

impl Part {
    /// The media type declared in the part's headers.
    pub fn content_type(&self) -> (r: Option<MimeType>)
        ensures
            match r {
                Some(m) => spec_content_type(self.headers@) == Some(m@),
                None => spec_content_type(self.headers@) is None,
            },
    {
        content_type_of(&self.headers)
    }
}

/// The media type declared in a header collection.
pub fn content_type_of(headers: &Headers) -> (r: Option<MimeType>)
    ensures
        match r {
            Some(m) => spec_content_type(headers@) == Some(m@),
            None => spec_content_type(headers@) is None,
        },
{
    let ct = name_content_type();
    match headers.lookup(ct.as_slice()) {
        None => None,
        Some(v) => parse_mime(v.as_slice()),
    }
}

/// A file-backed part: its headers, the filesystem location its captured
/// content is spooled to, the captured byte count and bytes, and the
/// ephemeral temporary directory this instance owns, if any.
#[derive(Debug)]
pub struct FilePart {
    /// The headers of the part.
    pub headers: Headers,
    /// The filesystem location of the captured content, as path bytes.
    pub path: Vec<u8>,
    /// The size of the captured content, set once capture completes.
    pub size: Option<usize>,
    /// The captured content itself; the surrounding I/O shell spools it to
    /// `path` and reloads it from there.
    pub body: Vec<u8>,
    /// The temporary directory this instance owns and deletes on
    /// destruction, if any; the internal ownership marker.
    pub tempdir: Option<Vec<u8>>,
}

/// Relies on `tempdir::TempDir::new`, which creates a fresh, uniquely named
/// temporary directory with the given prefix, and on `TempDir::into_path`,
/// which releases it from automatic deletion.  The path is returned as
/// bytes; any failure, including a non-UTF-8 path, is the I/O kind.
#[verifier::external_body]
fn create_temp_dir(prefix: &str) -> (r: Result<Vec<u8>, Error>)
    ensures
        r is Err ==> r->Err_0 == Error::Io,
{
    match tempdir::TempDir::new(prefix) {
        Ok(d) => match d.into_path().to_str() {
            Some(s) => Ok(s.as_bytes().to_vec()),
            None => Err(Error::Io),
        },
        Err(_) => Err(Error::Io),
    }
}

/// Relies on `textnonce::TextNonce::sized_urlsafe`: a fresh random nonce of
/// exactly the requested byte length over the URL-safe base64 alphabet.
/// It fails below length 16, on a length not divisible by 4, and when the
/// system clock precedes the epoch; failure is mapped to the I/O kind.
#[verifier::external_body]
fn urlsafe_nonce(len: usize) -> (r: Result<Vec<u8>, Error>)
    ensures
        r is Ok ==> r->Ok_0@.len() == len,
        r is Err ==> r->Err_0 == Error::Io,
{
    match textnonce::TextNonce::sized_urlsafe(len) {
        Ok(n) => Ok(n.into_string().into_bytes()),
        Err(_) => Err(Error::Io),
    }
}

/// A byte of the standard base64 alphabet.
pub open spec fn spec_is_base64_byte(b: u8) -> bool {
    (65 <= b && b <= 90) || (97 <= b && b <= 122) || (48 <= b && b <= 57) || b == 43 || b == 47
}

/// Relies on `textnonce::TextNonce::sized`: a fresh random nonce of exactly
/// the requested byte length over the standard base64 alphabet (with the
/// length divisible by 4 the encoded material is a multiple of three
/// bytes, so no padding appears).  With a length of at least 16 and
/// divisible by 4 it fails only when the system clock precedes the epoch,
/// in which case this call aborts the process.
#[verifier::external_body]
fn base64_nonce(len: usize) -> (r: Vec<u8>)
    requires
        len >= 16,
        len % 4 == 0,
    ensures
        r@.len() == len,
        forall|i: int| 0 <= i < r@.len() ==> spec_is_base64_byte(r@[i]),
{
    textnonce::TextNonce::sized(len).unwrap().into_string().into_bytes()
}

/// Generates a boundary token: 68 bytes of high-entropy base64 text,
/// statistically unlikely to collide with part content and free of the
/// bytes the wire format reserves (dashes excepted by the alphabet, and
/// neither carriage return nor line feed).
pub fn generate_boundary() -> (r: Vec<u8>)
    ensures
        r@.len() == 68,
        forall|i: int| 0 <= i < r@.len() ==> spec_is_base64_byte(#[trigger] r@[i]),
{
    base64_nonce(68)
}

impl FilePart {
    /// A file-backed part over an existing path.  No temporary directory is
    /// owned; nothing is deleted when the part is discarded.
    pub fn new(headers: Headers, path: Vec<u8>) -> (r: FilePart)
        ensures
            r.headers@ == headers@,
            r.path@ == path@,
            r.size is None,
            r.body@ == Seq::<u8>::empty(),
            !r.owns_temp_dir_spec(),
    {
        FilePart { headers, path, size: None, body: Vec::new(), tempdir: None }
    }

    /// Creates an empty file-backed part over a fresh uniquely named
    /// temporary directory and a randomized file name inside it.  The new
    /// instance owns the directory, and its path is a 32-byte name inside
    /// that directory.
    pub fn create(headers: Headers) -> (r: Result<FilePart, Error>)
        ensures
            match r {
                Ok(f) => f.headers@ == headers@ && f.size is None && f.body@ == Seq::<
                    u8,
                >::empty() && f.owns_temp_dir_spec() && spec_owns_fresh_dir(f),
                Err(e) => e == Error::Io,
            },
    {
        let dir = match create_temp_dir("mime_multipart") {
            Ok(d) => d,
            Err(_) => {
                return Err(Error::Io);
            },
        };
        let name = match urlsafe_nonce(32) {
            Ok(n) => n,
            Err(_) => {
                return Err(Error::Io);
            },
        };
        let mut path: Vec<u8> = Vec::new();
        append_bytes(&mut path, dir.as_slice());
        path.push(47);
        append_bytes(&mut path, name.as_slice());
        assert(path@ =~= dir@ + seq![47u8] + name@);
        let f = FilePart { headers, path, size: None, body: Vec::new(), tempdir: Some(dir) };
        assert(f.path@.skip(f.tempdir->0@.len() + 1int) =~= name@);
        Ok(f)
    }

    /// Whether this instance still owns its temporary directory.
    pub closed spec fn owns_temp_dir_spec(&self) -> bool {
        self.tempdir is Some
    }

    /// Whether this instance still owns its temporary directory.
    pub fn owns_temp_dir(&self) -> (r: bool)
        ensures
            r == self.owns_temp_dir_spec(),
    {
        self.tempdir.is_some()
    }

    /// The owned temporary directory's path bytes, if any.
    pub fn temp_dir_path(&self) -> (r: Option<Vec<u8>>)
        ensures
            (r is Some) == self.owns_temp_dir_spec(),
            r is Some ==> r->0@ == self.tempdir->0@,
    {
        match &self.tempdir {
            Some(d) => Some(crate::ascii::copy_range(d.as_slice(), 0, d.len())),
            None => None,
        }
    }

    /// Releases ownership of the temporary directory: cleanup becomes the
    /// caller's responsibility and later destruction deletes nothing.
    pub fn do_not_delete_on_drop(&mut self)
        ensures
            !final(self).owns_temp_dir_spec(),
            final(self).headers@ == old(self).headers@,
            final(self).path@ == old(self).path@,
            final(self).size == old(self).size,
            final(self).body@ == old(self).body@,
    {
        self.tempdir = None;
    }

    /// The filename declared when the part was supplied, decoded through
    /// the charset lookup table; nothing when no disposition header or no
    /// filename parameter is present.
    pub fn filename(&self) -> (r: Result<Option<String>, Error>)
        ensures
            match r {
                Ok(None) => crate::disposition::spec_filename(self.headers@) == Ok::<
                    Option<Seq<char>>,
                    Error,
                >(None),
                Ok(Some(s)) => crate::disposition::spec_filename(self.headers@) == Ok::<
                    Option<Seq<char>>,
                    Error,
                >(Some(s@)),
                Err(e) => crate::disposition::spec_filename(self.headers@) == Err::<
                    Option<Seq<char>>,
                    Error,
                >(e),
            },
    {
        crate::disposition::filename_from_headers(&self.headers)
    }

    /// The media type declared in the part's headers.
    pub fn content_type(&self) -> (r: Option<MimeType>)
        ensures
            match r {
                Some(m) => spec_content_type(self.headers@) == Some(m@),
                None => spec_content_type(self.headers@) is None,
            },
    {
        content_type_of(&self.headers)
    }
}

/// A file-backed part as the parser creates it: it still owns a fresh
/// temporary directory, and its path is a 32-byte randomized name inside
/// that directory.
pub open spec fn spec_owns_fresh_dir(f: FilePart) -> bool {
    &&& f.tempdir is Some
    &&& f.path@.len() == f.tempdir->0@.len() + 33
    &&& f.path@ == f.tempdir->0@ + seq![47u8] + f.path@.skip(f.tempdir->0@.len() + 1int)
}

/// The mathematical model of a node: the file-backed variant keeps its
/// captured size and bytes but not its ephemeral path.
#[verifier::ext_equal]
pub enum NodeV {
    Part { headers: Seq<HeaderV>, body: Seq<u8> },
    File { headers: Seq<HeaderV>, size: Option<nat>, body: Seq<u8> },
    Multipart { headers: Seq<HeaderV>, children: Seq<NodeV> },
}

/// One node of the part tree: a part in memory, a part streamed to a file,
/// or a container of nested parts.
#[derive(Debug)]
pub enum Node {
    /// A part in memory.
    Part(Part),
    /// A part streamed to a file.
    File(FilePart),
    /// A container of nested multipart parts.
    Multipart((Headers, Vec<Node>)),
}

/// The model of one node.
pub open spec fn node_view(n: Node) -> NodeV
    decreases n,
{
    match n {
        Node::Part(p) => NodeV::Part { headers: p.headers@, body: p.body@ },
        Node::File(f) => NodeV::File {
            headers: f.headers@,
            size: match f.size {
                Some(s) => Some(s as nat),
                None => None,
            },
            body: f.body@,
        },
        Node::Multipart(pair) => NodeV::Multipart {
            headers: pair.0@,
            children: nodes_view(pair.1@),
        },
    }
}

/// The model of a node sequence.
pub open spec fn nodes_view(s: Seq<Node>) -> Seq<NodeV>
    decreases s,
{
    if s.len() == 0 {
        Seq::empty()
    } else {
        seq![node_view(s[0])] + nodes_view(s.drop_first())
    }
}

/// Every file-backed part of a tree owns its fresh temporary directory,
/// with its path inside it; the resource invariant the parser establishes.
pub open spec fn spec_node_files_fresh(n: Node) -> bool
    decreases n,
{
    match n {
        Node::Part(_) => true,
        Node::File(f) => spec_owns_fresh_dir(f),
        Node::Multipart(pair) => spec_nodes_files_fresh(pair.1@),
    }
}

/// Every file-backed part of a node sequence owns its fresh directory.
pub open spec fn spec_nodes_files_fresh(s: Seq<Node>) -> bool
    decreases s,
{
    if s.len() == 0 {
        true
    } else {
        spec_node_files_fresh(s[0]) && spec_nodes_files_fresh(s.drop_first())
    }
}

} // verus!
