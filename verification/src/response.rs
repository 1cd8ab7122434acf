//! What a payload becomes when it is sent: headers, framing and a body.

use vstd::prelude::*;
use crate::error::PayloadError;
use crate::media_type::MediaType;
use crate::source::PayloadSource;

verus! {

/// The name of the header that says how the body is to be treated.
pub const CONTENT_DISPOSITION: &'static str = "Content-Disposition";

/// The name of the header that gives the media type of the body.
pub const CONTENT_TYPE: &'static str = "Content-Type";

/// The name of the header that gives the length of the body.
pub const CONTENT_LENGTH: &'static str = "Content-Length";

/// The headers of a response. Each occurs at most once.
#[derive(Debug, PartialEq, Eq)]
pub struct Headers {
    /// The value of `Content-Disposition`.
    pub content_disposition: String,
    /// The value of `Content-Type`, if the header is sent.
    pub content_type: Option<MediaType>,
    /// The value of `Content-Length`, if the header is sent.
    pub content_length: Option<u64>,
}

/// The values of the headers of a response.
pub struct HeadersView {
    /// The value of `Content-Disposition`.
    pub content_disposition: Seq<char>,
    /// The value of `Content-Type`, if the header is sent.
    pub content_type: Option<Seq<char>>,
    /// The value of `Content-Length`, if the header is sent.
    pub content_length: Option<u64>,
}

impl View for Headers {
    type V = HeadersView;

    open spec fn view(&self) -> HeadersView {
        HeadersView {
            content_disposition: self.content_disposition@,
            content_type: self.content_type.deep_view(),
            content_length: self.content_length,
        }
    }
}

/// The character of a decimal digit.
pub open spec fn digit_char(d: nat) -> char
    recommends
        d < 10,
{
    (('0' as u8 + d) as u8) as char
}

/// A number written in decimal digits, without leading zeros.
pub open spec fn decimal_digits(n: nat) -> Seq<char>
    decreases n,
{
    if n < 10 {
        seq![digit_char(n)]
    } else {
        decimal_digits(n / 10).push(digit_char(n % 10))
    }
}

/// The headers as pairs of name and value, in the order in which they are written:
/// disposition, type, length.
pub open spec fn header_pairs(headers: HeadersView) -> Seq<(Seq<char>, Seq<char>)> {
    seq![(CONTENT_DISPOSITION@, headers.content_disposition)] + match headers.content_type {
        Some(media_type) => seq![(CONTENT_TYPE@, media_type)],
        None => Seq::empty(),
    } + match headers.content_length {
        Some(len) => seq![(CONTENT_LENGTH@, decimal_digits(len as nat))],
        None => Seq::empty(),
    }
}

/// Appends the decimal digits of `n` to `out`.
fn push_decimal(out: &mut String, n: u64)
    ensures
        final(out)@ == old(out)@ + decimal_digits(n as nat),
    decreases n,
{
    if n >= 10 {
        push_decimal(out, n / 10);
    }
    out.push(('0' as u8 + (n % 10) as u8) as char);
}

/// `n` written in decimal digits.
pub fn decimal(n: u64) -> (text: String)
    ensures
        text@ == decimal_digits(n as nat),
{
    let mut text = String::new();
    push_decimal(&mut text, n);
    text
}

impl Headers {
    /// The headers as pairs of name and value.
    pub fn into_pairs(self) -> (pairs: Vec<(String, String)>)
        ensures
            pairs.deep_view() == header_pairs(self@),
    {
        let mut pairs: Vec<(String, String)> = Vec::new();
        pairs.push((CONTENT_DISPOSITION.to_owned(), self.content_disposition));
        if let Some(media_type) = self.content_type {
            pairs.push((CONTENT_TYPE.to_owned(), media_type.into_string()));
        }
        if let Some(len) = self.content_length {
            pairs.push((CONTENT_LENGTH.to_owned(), decimal(len)));
        }
        pairs
    }
}

/// How the host finds the end of the body.
#[derive(Debug, Clone, Copy, PartialEq, Eq)]
pub enum Framing {
    /// The body has exactly this many bytes.
    Sized(u64),
    /// The length is not known beforehand: the body is sent in chunks until it ends.
    Chunked,
}

/// The framing that goes with a content length.
pub open spec fn framing_for(content_length: Option<u64>) -> Framing {
    match content_length {
        Some(len) => Framing::Sized(len),
        None => Framing::Chunked,
    }
}

/// The bytes of a response, or the handle that gives them.
#[derive(Debug)]
pub enum Body<'o, R, F, U> {
    /// Bytes in a buffer of their own.
    Bytes(Vec<u8>),
    /// Bytes that the caller keeps alive.
    Slice(&'o [u8]),
    /// A reader.
    Reader(R),
    /// An open file.
    File(F),
    /// The handle of a stored upload. The host bridges it to a reader before it can
    /// deliver the body; see [`upload_reader`].
    Upload(U),
}

/// The body that a source turns into: its bytes or its handle, and nothing more.
pub open spec fn body_of<'o, R, F, U>(source: PayloadSource<'o, R, F, U>) -> Body<'o, R, F, U> {
    match source {
        PayloadSource::Owned(bytes) => Body::Bytes(bytes),
        PayloadSource::Borrowed(bytes) => Body::Slice(bytes),
        PayloadSource::Stream { reader, .. } => Body::Reader(reader),
        PayloadSource::File { handle, .. } => Body::File(handle),
        PayloadSource::TemporaryUpload(upload) => Body::Upload(upload.handle),
    }
}

/// A response as the host needs it.
#[derive(Debug)]
pub struct ResponseParts<'o, R, F, U> {
    /// The headers to send.
    pub headers: Headers,
    /// How the body is framed.
    pub framing: Framing,
    /// The body.
    pub body: Body<'o, R, F, U>,
}

/// Decides what follows the host's attempt to bridge an upload handle to a reader: the
/// reader where there is one, and a failure of the adapter where the attempt gave none.
pub fn upload_reader<R>(bridged: Option<R>) -> (result: Result<R, PayloadError>)
    ensures
        (match bridged {
            Some(reader) => result == Ok::<R, PayloadError>(reader),
            None => result == Err::<R, PayloadError>(PayloadError::AdapterFailure),
        }),
{
    match bridged {
        Some(reader) => Ok(reader),
        None => Err(PayloadError::AdapterFailure),
    }
}

/// No header name occurs twice among the pairs of a response.
pub proof fn lemma_header_names_are_distinct(headers: HeadersView)
    ensures
        forall|i: int, j: int|
            0 <= i < j < header_pairs(headers).len() ==> (#[trigger] header_pairs(headers)[i]).0
                != (#[trigger] header_pairs(headers)[j]).0,
{
    reveal_strlit("Content-Disposition");
    reveal_strlit("Content-Type");
    reveal_strlit("Content-Length");
    assert(CONTENT_DISPOSITION@[8] == 'D');
    assert(CONTENT_TYPE@[8] == 'T');
    assert(CONTENT_LENGTH@[8] == 'L');
}

} // verus!
