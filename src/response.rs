use vstd::prelude::*;
use vstd::string::StringSliceAdditionalSpecFns;
use vstd::utf8::encode_utf8;

use crate::content_type::{header_line, ContentType};

verus! {

/// The outcome announced on a response's status line.
#[derive(Debug, Clone, Copy, PartialEq, Eq, Structural)]
pub enum StatusCode {
    Success,
    NotFound,
}

/// The status line for each outcome.
pub open spec fn status_text(s: StatusCode) -> Seq<char> {
    match s {
        StatusCode::Success => "HTTP/1.1 200 OK"@,
        StatusCode::NotFound => "HTTP/1.1 404 Not Found"@,
    }
}

impl StatusCode {
    /// The status line for this outcome.
    pub fn as_str(self) -> (r: String)
        ensures
            r@ == status_text(self),
    {
        match self {
            StatusCode::Success => "HTTP/1.1 200 OK".to_string(),
            StatusCode::NotFound => "HTTP/1.1 404 Not Found".to_string(),
        }
    }
}

/// The ASCII decimal digits of `n`, most significant first, without leading zeros.
pub open spec fn decimal(n: nat) -> Seq<u8>
    decreases n,
{
    if n < 10 {
        seq![(48 + n) as u8]
    } else {
        decimal(n / 10).push((48 + n % 10) as u8)
    }
}

/// The number that a sequence of ASCII decimal digits stands for.
pub open spec fn digits_value(d: Seq<u8>) -> nat
    decreases d.len(),
{
    if d.len() == 0 {
        0
    } else {
        digits_value(d.drop_last()) * 10 + (d.last() - 48) as nat
    }
}

/// The two line breaks that close the header block and follow the body.
pub open spec fn blank_line() -> Seq<u8> {
    seq![13u8, 10u8, 13u8, 10u8]
}

/// The bytes of the length header up to its value.
pub open spec fn length_prefix() -> Seq<u8> {
    encode_utf8("Content-Length: "@)
}

/// Everything that precedes the body: status line, content-type line and length line.
pub open spec fn head_bytes(status: Seq<char>, ct: ContentType, body_len: nat) -> Seq<u8> {
    encode_utf8(status) + seq![10u8] + encode_utf8(header_line(ct)) + seq![10u8]
        + length_prefix() + decimal(body_len) + blank_line()
}

/// The bytes sent for a response.
pub open spec fn wire_bytes(status: Seq<char>, ct: ContentType, body: Seq<u8>) -> Seq<u8> {
    head_bytes(status, ct, body.len()) + body + blank_line()
}

/// A response waiting to be sent.
pub struct Response {
    pub status_line: String,
    pub content_type: ContentType,
    pub content: Vec<u8>,
}

impl Response {
    /// The bytes this response is sent as.
    pub open spec fn wire(&self) -> Seq<u8> {
        wire_bytes(self.status_line@, self.content_type, self.content@)
    }

    /// An empty response: no status line, HTML, no body.
    pub fn new() -> (r: Response)
        ensures
            r.status_line@ == Seq::<char>::empty(),
            r.content_type == ContentType::Html,
            r.content@ == Seq::<u8>::empty(),
    {
        Response { status_line: String::new(), content_type: ContentType::Html, content: Vec::new() }
    }

    /// Serializes the response for the wire.
    pub fn as_bytes(self) -> (r: Vec<u8>)
        ensures
            r@ == self.wire(),
    {
        let mut out: Vec<u8> = Vec::new();
        push_all(&mut out, self.status_line.as_str().as_bytes());
        out.push(10u8);
        let header = self.content_type.to_string();
        push_all(&mut out, header.as_str().as_bytes());
        out.push(10u8);
        push_all(&mut out, "Content-Length: ".as_bytes());
        push_decimal(&mut out, self.content.len());
        push_blank_line(&mut out);
        push_all(&mut out, self.content.as_slice());
        push_blank_line(&mut out);
        out
    }
}

/// The digits of a number read back as that number, and each is an ASCII digit.
pub proof fn lemma_decimal_value(n: nat)
    ensures
        digits_value(decimal(n)) == n,
        decimal(n).len() >= 1,
        forall|i: int| 0 <= i < decimal(n).len() ==> 48 <= #[trigger] decimal(n)[i] <= 57,
    decreases n,
{
    if n >= 10 {
        lemma_decimal_value(n / 10);
        let d = decimal(n);
        assert(d.drop_last() == decimal(n / 10));
        assert(forall|i: int| 0 <= i < d.len() - 1 ==> d[i] == decimal(n / 10)[i]);
        assert(d.last() == (48 + n % 10) as u8);
        assert((d.last() - 48) as nat == n % 10);
        assert(n == (n / 10) * 10 + n % 10);
        assert(digits_value(d) == digits_value(d.drop_last()) * 10 + (d.last() - 48) as nat);
    } else {
        let d = decimal(n);
        assert(d.drop_last() == Seq::<u8>::empty());
        assert(d.last() == (48 + n) as u8);
        assert((d.last() - 48) as nat == n);
        assert(digits_value(d) == digits_value(d.drop_last()) * 10 + (d.last() - 48) as nat);
        assert(digits_value(d.drop_last()) == 0);
    }
}

/// Serializing is deterministic: two responses with the same status line, content type
/// and body give the same bytes. Those bytes end with the body followed at once by the
/// four bytes `\r\n\r\n`.
pub proof fn law_serialization_is_stable(a: Response, b: Response)
    requires
        a.status_line@ == b.status_line@,
        a.content_type == b.content_type,
        a.content@ == b.content@,
    ensures
        a.wire() == b.wire(),
        a.wire().len() >= a.content@.len() + 4,
        a.wire().subrange(a.wire().len() - 4, a.wire().len() as int) == seq![13u8, 10u8, 13u8, 10u8],
        a.wire().subrange(a.wire().len() - 4 - a.content@.len(), a.wire().len() - 4)
            == a.content@,
{
    let w = a.wire();
    let h = head_bytes(a.status_line@, a.content_type, a.content@.len());
    assert(w == h + a.content@ + blank_line());
    assert(w.subrange(w.len() - 4, w.len() as int) == blank_line());
    assert(w.subrange(w.len() - 4 - a.content@.len(), w.len() - 4) == a.content@);
}

/// Where the Content-Length value starts in the bytes of a response.
pub open spec fn length_value_start(status: Seq<char>, ct: ContentType) -> int {
    (encode_utf8(status).len() + 1 + encode_utf8(header_line(ct)).len() + 1 + length_prefix().len()) as int
}

/// The Content-Length header states the body's exact length: the bytes after
/// `Content-Length: ` are decimal digits that read back as the number of body bytes, and
/// after them come `\r\n\r\n` and then exactly the body.
pub proof fn law_content_length_is_body_length(status: Seq<char>, ct: ContentType, body: Seq<u8>)
    ensures
        ({
            let w = wire_bytes(status, ct, body);
            let k = length_value_start(status, ct);
            let d = decimal(body.len());
            &&& w.subrange(k - length_prefix().len(), k) == length_prefix()
            &&& w.subrange(k, k + d.len()) == d
            &&& d.len() >= 1
            &&& forall|i: int| 0 <= i < d.len() ==> 48 <= #[trigger] d[i] <= 57
            &&& digits_value(d) == body.len()
            &&& w.subrange(k + d.len(), k + d.len() + 4) == blank_line()
            &&& w.subrange(k + d.len() + 4, k + d.len() + 4 + body.len()) == body
        }),
{
    lemma_decimal_value(body.len());
    let w = wire_bytes(status, ct, body);
    let pre = encode_utf8(status) + seq![10u8] + encode_utf8(header_line(ct)) + seq![10u8];
    let k = length_value_start(status, ct);
    let d = decimal(body.len());
    assert(w == pre + length_prefix() + d + blank_line() + body + blank_line());
    assert(pre.len() + length_prefix().len() == k);
    assert(w.subrange(k - length_prefix().len(), k) == length_prefix());
    assert(w.subrange(k, k + d.len()) == d);
    assert(w.subrange(k + d.len(), k + d.len() + 4) == blank_line());
    assert(w.subrange(k + d.len() + 4, k + d.len() + 4 + body.len()) == body);
}

/// Appends `bytes` to `out`.
fn push_all(out: &mut Vec<u8>, bytes: &[u8])
    ensures
        final(out)@ == old(out)@ + bytes@,
{
    let mut i: usize = 0;
    while i < bytes.len()
        invariant
            i <= bytes@.len(),
            out@ == old(out)@ + bytes@.subrange(0, i as int),
        decreases bytes@.len() - i,
    {
        out.push(bytes[i]);
        assert(bytes@.subrange(0, i + 1) == bytes@.subrange(0, i as int).push(bytes@[i as int]));
        i = i + 1;
    }
    assert(bytes@ == bytes@.subrange(0, bytes@.len() as int));
}

/// Appends the decimal digits of `n` to `out`.
fn push_decimal(out: &mut Vec<u8>, n: usize)
    ensures
        final(out)@ == old(out)@ + decimal(n as nat),
    decreases n,
{
    if n >= 10 {
        push_decimal(out, n / 10);
    }
    out.push(48u8 + (n % 10) as u8);
}

/// Appends the four bytes `\r\n\r\n` to `out`.
fn push_blank_line(out: &mut Vec<u8>)
    ensures
        final(out)@ == old(out)@ + blank_line(),
{
    out.push(13u8);
    out.push(10u8);
    out.push(13u8);
    out.push(10u8);
}

} // verus!
