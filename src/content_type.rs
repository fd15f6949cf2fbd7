use vstd::prelude::*;
use vstd::string::StringSliceAdditionalSpecFns;
use vstd::utf8::encode_utf8_decode_utf8;

use crate::fetch::FetchError;

verus! {

/// The kinds of file the server hands out.
#[derive(Debug, Clone, Copy, PartialEq, Eq, Structural)]
pub enum ContentType {
    Html,
    Pdf,
    Css,
    Jpg,
}

/// The header line that announces each content type.
pub open spec fn header_line(ct: ContentType) -> Seq<char> {
    match ct {
        ContentType::Html => "Content-Type: text/html"@,
        ContentType::Pdf => "Content-Type: application/pdf"@,
        ContentType::Css => "Content-Type: text/css"@,
        ContentType::Jpg => "Content-Type: image/jpeg"@,
    }
}

impl ContentType {
    /// The header line for this content type.
    pub fn to_string(&self) -> (r: String)
        ensures
            r@ == header_line(*self),
    {
        match self {
            ContentType::Html => "Content-Type: text/html".to_string(),
            ContentType::Pdf => "Content-Type: application/pdf".to_string(),
            ContentType::Css => "Content-Type: text/css".to_string(),
            ContentType::Jpg => "Content-Type: image/jpeg".to_string(),
        }
    }
}

/// What `std::path::Path::extension` gives for a path.
pub uninterp spec fn extension_of(path: Seq<char>) -> Option<Seq<char>>;

/// The content type served for a file extension, matched with case as written.
pub open spec fn type_for_extension(ext: Option<Seq<char>>) -> Option<ContentType> {
    match ext {
        Some(e) => if e == "pdf"@ {
            Some(ContentType::Pdf)
        } else if e == "html"@ {
            Some(ContentType::Html)
        } else if e == "css"@ {
            Some(ContentType::Css)
        } else if e == "JPG"@ {
            Some(ContentType::Jpg)
        } else {
            None
        },
        None => None,
    }
}

/// The resolution of an extension, as a `Result`.
pub open spec fn resolution(ext: Option<Seq<char>>) -> Result<ContentType, FetchError> {
    match type_for_extension(ext) {
        Some(ct) => Ok(ct),
        None => Err(FetchError::UnsupportedExtension),
    }
}

/// Relies on `std::path::Path::extension` (then `OsStr::to_str`): the extension of the
/// path's final component, which depends on the path's characters alone.
#[verifier::external_body]
fn path_extension(path: &str) -> (r: Option<String>)
    ensures
        r.deep_view() == extension_of(path@),
{
    std::path::Path::new(path).extension().and_then(|e| e.to_str()).map(|e| e.to_string())
}

/// Whether two strings hold the same characters.
fn same_text(a: &str, b: &str) -> (r: bool)
    ensures
        r == (a@ == b@),
{
    let x = a.as_bytes();
    let y = b.as_bytes();
    proof {
        encode_utf8_decode_utf8(a@);
        encode_utf8_decode_utf8(b@);
    }
    if x.len() != y.len() {
        return false;
    }
    let mut i: usize = 0;
    while i < x.len()
        invariant
            x@ == a.spec_bytes(),
            y@ == b.spec_bytes(),
            x@.len() == y@.len(),
            i <= x@.len(),
            x@.subrange(0, i as int) == y@.subrange(0, i as int),
        decreases x@.len() - i,
    {
        if x[i] != y[i] {
            assert(x@[i as int] != y@[i as int]);
            return false;
        }
        assert(x@.subrange(0, i + 1) == x@.subrange(0, i as int).push(x@[i as int]));
        assert(y@.subrange(0, i + 1) == y@.subrange(0, i as int).push(y@[i as int]));
        i = i + 1;
    }
    assert(x@ == x@.subrange(0, x@.len() as int));
    assert(y@ == y@.subrange(0, y@.len() as int));
    true
}

/// Maps a file extension to its content type; any other or missing extension is
/// unsupported.
pub fn content_type_for_extension(ext: &Option<String>) -> (r: Result<ContentType, FetchError>)
    ensures
        r == resolution(ext.deep_view()),
{
    match ext {
        Some(e) => {
            let e = e.as_str();
            if same_text(e, "pdf") {
                Ok(ContentType::Pdf)
            } else if same_text(e, "html") {
                Ok(ContentType::Html)
            } else if same_text(e, "css") {
                Ok(ContentType::Css)
            } else if same_text(e, "JPG") {
                Ok(ContentType::Jpg)
            } else {
                Err(FetchError::UnsupportedExtension)
            }
        },
        None => Err(FetchError::UnsupportedExtension),
    }
}

/// The content type of the file at `path`, judged by its extension alone.
pub fn content_type_of(path: &str) -> (r: Result<ContentType, FetchError>)
    ensures
        r == resolution(extension_of(path@)),
{
    let ext = path_extension(path);
    content_type_for_extension(&ext)
}

} // verus!
