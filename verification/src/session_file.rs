//! The bytes of a session-recovery file (`recovery.jsonlz4`): an 8-byte
//! magic header, then an LZ4 block prefixed with its decompressed size.
use vstd::prelude::*;
use vstd::slice::slice_subrange;
use crate::json::{json_parsed, parse_json, Json};

verus! {

broadcast use vstd::string::group_string_axioms;

/// The error `lz4_flex` reports for data that does not decompress.
#[verifier::external_type_specification]
#[verifier::external_body]
pub struct ExDecompressError(lz4_flex::block::DecompressError);

/// What `lz4_flex::block::decompress_size_prepended` gives for its input:
/// the decompressed bytes, or `None` when it reports an error.
pub uninterp spec fn lz4_size_prepended_decoded(input: Seq<u8>) -> Option<Seq<u8>>;

/// Calls `lz4_flex::block::decompress_size_prepended`, which reads the
/// decompressed size from the first 4 bytes (little endian) and decompresses
/// the LZ4 block after them. Its result is named, not described; its source
/// shows that input shorter than 4 bytes is an error.
#[verifier::external_body]
fn lz4_decompress_size_prepended(input: &[u8]) -> (r: Result<Vec<u8>, lz4_flex::block::DecompressError>)
    ensures
        r is Ok <==> lz4_size_prepended_decoded(input@) is Some,
        r matches Ok(bytes) ==> lz4_size_prepended_decoded(input@) == Some(bytes@),
        input@.len() < 4 ==> r is Err,
{
    lz4_flex::block::decompress_size_prepended(input)
}

/// The message of an LZ4 decompression error (its `Display` text); nothing is
/// stated of the text.
#[verifier::external_body]
fn lz4_error_text(error: &lz4_flex::block::DecompressError) -> String {
    error.to_string()
}

/// The length of the header in front of the compressed data.
pub const SESSION_HEADER_LEN: usize = 8;

/// Why the bytes of a session file could not be decoded.
pub enum SessionFileError {
    /// The file is shorter than its header.
    MissingHeader,
    /// The LZ4 data did not decompress; the decompressor's message.
    Decompress(String),
    /// The decompressed data is not JSON; the parser's message.
    Json(String),
}

impl SessionFileError {
    /// The text that reports the error.
    pub fn message(&self) -> (r: String)
        ensures
            self is MissingHeader ==> r@ == "failed to fill whole buffer"@,
            self matches SessionFileError::Decompress(m) ==> r@ == "LZ4 decompression failed: "@ + m@,
            self matches SessionFileError::Json(m) ==> r@ == m@,
    {
        match self {
            SessionFileError::MissingHeader => "failed to fill whole buffer".to_string(),
            SessionFileError::Decompress(m) => {
                let mut text = "LZ4 decompression failed: ".to_string();
                text.push_str(m.as_str());
                text
            },
            SessionFileError::Json(m) => m.clone(),
        }
    }
}

/// The decoded content of a session file's bytes, as a specification.
pub open spec fn session_file_content(contents: Seq<u8>) -> Option<Seq<u8>> {
    if contents.len() < SESSION_HEADER_LEN {
        None
    } else {
        lz4_size_prepended_decoded(contents.skip(SESSION_HEADER_LEN as int))
    }
}

/// Decodes the bytes of a session file: skips the header and decompresses the rest.
pub fn decode_session_file(contents: &[u8]) -> (r: Result<Vec<u8>, SessionFileError>)
    ensures
        contents@.len() < SESSION_HEADER_LEN ==> r is Err && r->Err_0 is MissingHeader,
        contents@.len() >= SESSION_HEADER_LEN ==> match r {
            Ok(bytes) => session_file_content(contents@) == Some(bytes@),
            Err(e) => session_file_content(contents@) is None && e is Decompress,
        },
{
    if contents.len() < SESSION_HEADER_LEN {
        return Err(SessionFileError::MissingHeader);
    }
    let compressed = slice_subrange(contents, SESSION_HEADER_LEN, contents.len());
    assert(compressed@ =~= contents@.skip(SESSION_HEADER_LEN as int));
    match lz4_decompress_size_prepended(compressed) {
        Ok(bytes) => Ok(bytes),
        Err(error) => Err(SessionFileError::Decompress(lz4_error_text(&error))),
    }
}

/// Reads a session file's bytes as JSON: skips the header, decompresses the
/// rest, and parses what comes out.
pub fn decode_session_json(contents: &[u8]) -> (r: Result<Json, SessionFileError>)
    ensures
        contents@.len() < SESSION_HEADER_LEN ==> r matches Err(SessionFileError::MissingHeader),
        contents@.len() >= SESSION_HEADER_LEN && session_file_content(contents@) is None ==> r matches Err(
            SessionFileError::Decompress(_),
        ),
        session_file_content(contents@) matches Some(d) ==> match json_parsed(d) {
            Some(v) => r matches Ok(x) && x@ == v,
            None => r matches Err(SessionFileError::Json(_)),
        },
{
    let bytes = decode_session_file(contents)?;
    match parse_json(bytes.as_slice()) {
        Ok(v) => Ok(v),
        Err(m) => Err(SessionFileError::Json(m)),
    }
}

} // verus!
