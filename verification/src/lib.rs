//! Streaming codec for `multipart/*` bodies: parses a byte stream into a tree
//! of typed parts (in-memory, file-backed, or nested containers) and
//! serializes such a tree back into wire bytes, plain or chunk-framed.

pub mod ascii;
pub mod charset;
pub mod disposition;
pub mod error;
pub mod headers;
pub mod laws;
pub mod mime_type;
pub mod names;
pub mod nodes;
pub mod parse;
pub mod scan;
pub mod write;

pub use charset::Charset;
pub use disposition::{is_file_part, is_nested};
pub use error::{DecodeFail, Error};
pub use headers::{HeaderField, Headers};
pub use mime_type::{get_multipart_boundary, MimeParam, MimeType};
pub use nodes::{generate_boundary, FilePart, Node, Part};
pub use parse::{read_multipart, read_multipart_body};
pub use write::{write_chunk, write_multipart, write_multipart_chunked};
