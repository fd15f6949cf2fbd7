use vstd::prelude::*;
use vstd::string::StrSliceExecFns;
use vstd::utf8::encode_utf8;

use crate::content_type::ContentType;

verus! {

/// Why a file could not be served.
#[derive(Debug, Clone, PartialEq, Eq)]
pub enum FetchError {
    /// The path's extension names no supported content type.
    UnsupportedExtension,
    /// Opening or reading the file failed; holds the cause.
    Io(String),
}

/// A file read whole, with the content type its extension gave.
pub struct FileContents {
    pub content_type: ContentType,
    pub contents: Vec<u8>,
}

/// What reading a file gave: its bytes, or the cause of the failure.
pub open spec fn read_view(read: &Result<Vec<u8>, String>) -> Result<Seq<u8>, Seq<char>> {
    match read {
        Ok(b) => Ok(b@),
        Err(c) => Err(c@),
    }
}

/// Pairs the content type resolved for a file with the outcome of reading it.
pub fn fetch_file(content_type: ContentType, read: Result<Vec<u8>, String>) -> (r: Result<
    FileContents,
    FetchError,
>)
    ensures
        match (read_view(&read), r) {
            (Ok(b), Ok(fc)) => fc.content_type == content_type && fc.contents@ == b,
            (Err(c), Err(FetchError::Io(d))) => d@ == c,
            _ => false,
        },
{
    match read {
        Ok(contents) => Ok(FileContents { content_type, contents }),
        Err(cause) => Err(FetchError::Io(cause)),
    }
}

/// The body served when even `notfound.html` cannot be read.
pub open spec fn fallback_page() -> Seq<u8> {
    encode_utf8("<h1>404 Not Found</h1>"@)
}

/// The body of a 404 response: the not-found page as fetched, or the built-in one when
/// the fetch failed.
pub open spec fn not_found_body(fetched: Result<Seq<u8>, Seq<char>>) -> Seq<u8> {
    match fetched {
        Ok(b) => b,
        Err(_) => fallback_page(),
    }
}

/// The body of a 404 response, from the fetch of the not-found page.
pub fn get_404_page(fetched: Result<FileContents, FetchError>) -> (r: Vec<u8>)
    ensures
        match fetched {
            Ok(fc) => r@ == fc.contents@,
            Err(_) => r@ == fallback_page(),
        },
{
    match fetched {
        Ok(fc) => fc.contents,
        Err(_) => "<h1>404 Not Found</h1>".as_bytes_vec(),
    }
}

} // verus!
