//! The error taxonomy of the codec.  Every failure of a parse or write call
//! is terminal: a partially built node list is discarded by the caller.

use vstd::prelude::*;

verus! {

/// What went wrong during parsing, writing, or resource allocation.
#[derive(Clone, Debug, PartialEq, Eq)]
pub enum Error {
    /// End of input while scanning for the blank line that ends the
    /// top-level header block.
    EofInMainHeaders,
    /// A header block was not a complete set of header lines.
    PartialHeaders,
    /// A header line was malformed, or a block held more lines than its cap.
    HeaderParse,
    /// End of input before the opening boundary token was seen.
    EofBeforeFirstBoundary,
    /// Neither CRLF nor LF followed a boundary where one was required.
    NoCrLfAfterBoundary,
    /// End of input while scanning for the blank line that ends a part's
    /// header block.
    EofInPartHeaders,
    /// End of input while capturing a file-backed part's body.
    EofInFile,
    /// End of input while capturing an in-memory part's body.
    EofInPart,
    /// No `Content-Type` header was present (or its value did not parse).
    NoRequestContentType,
    /// The `Content-Type` top-level category was not `multipart`.
    NotMultipart,
    /// The multipart `Content-Type` carried no `boundary` parameter.
    BoundaryNotSpecified,
    /// A filename could not be decoded: the payload distinguishes an
    /// unsupported charset from malformed bytes.
    Decoding(DecodeFail),
    /// An underlying operating-system service failed (temporary-directory
    /// allocation); the passthrough kind.
    Io,
}

/// Why a filename decode failed.
#[derive(Clone, Copy, Debug, PartialEq, Eq, Structural)]
pub enum DecodeFail {
    /// The charset identifier lies outside the supported set.
    UnsupportedCharset,
    /// The bytes were not a well-formed sequence in the charset.
    MalformedBytes,
}

} // verus!
