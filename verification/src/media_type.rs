//! Media types, and the guess of one from a file extension.

use vstd::prelude::*;
use crate::text::{ascii_lowercased, to_ascii_lowercase};

verus! {

/// The media type of arbitrary binary data.
pub const OCTET_STREAM: &'static str = "application/octet-stream";

/// A media type, held as the text that goes into a `Content-Type` header.
#[derive(Debug, PartialEq, Eq)]
pub struct MediaType {
    text: String,
}

impl View for MediaType {
    type V = Seq<char>;

    closed spec fn view(&self) -> Seq<char> {
        self.text@
    }
}

impl DeepView for MediaType {
    type V = Seq<char>;

    open spec fn deep_view(&self) -> Seq<char> {
        self@
    }
}

impl Clone for MediaType {
    fn clone(&self) -> (copy: MediaType)
        ensures
            copy@ == self@,
    {
        MediaType { text: self.text.clone() }
    }
}

impl MediaType {
    /// The media type written as `text`.
    pub fn new(text: String) -> (media_type: MediaType)
        ensures
            media_type@ == text@,
    {
        MediaType { text }
    }

    /// The text of this media type.
    pub fn as_str(&self) -> (text: &str)
        ensures
            text@ == self@,
    {
        self.text.as_str()
    }

    /// The text of this media type, taken out of it.
    pub fn into_string(self) -> (text: String)
        ensures
            text@ == self@,
    {
        self.text
    }
}

/// The media type that `mime_guess` lists first for the extension `ext`, written as text,
/// or `application/octet-stream` where it lists none.
pub uninterp spec fn guessed_media_type(ext: Seq<char>) -> Seq<char>;

/// Calls `mime_guess::from_ext(ext).first_or_octet_stream()` and writes the result as text.
///
/// Trusted: the result depends on `ext` alone, through the table compiled into
/// `mime_guess`, and an empty `ext` has no entry there, so that it gives
/// `application/octet-stream`.
#[verifier::external_body]
fn guess_media_type(ext: &str) -> (text: String)
    ensures
        text@ == guessed_media_type(ext@),
        ext@.len() == 0 ==> text@ == OCTET_STREAM@,
{
    mime_guess::from_ext(ext).first_or_octet_stream().to_string()
}

/// The media type that [`resolve`] gives for an extension: the guess for its lower-case
/// form, and `application/octet-stream` for the empty extension.
pub open spec fn resolved_media_type(ext: Seq<char>) -> Seq<char> {
    if ext.len() == 0 {
        OCTET_STREAM@
    } else {
        guessed_media_type(ascii_lowercased(ext))
    }
}

/// The best guess of a media type for a file extension, given without its dot.
///
/// Never fails: an extension that is empty or unknown gives `application/octet-stream`.
pub fn resolve(extension: &str) -> (media_type: MediaType)
    ensures
        media_type@ == resolved_media_type(extension@),
{
    // The table is asked for the lower-case form alone, so that nothing proved of the
    // result leans on how the table treats case.
    let folded = to_ascii_lowercase(extension);
    MediaType::new(guess_media_type(folded.as_str()))
}

/// Extensions that differ only in the case of ASCII letters resolve alike.
pub proof fn lemma_resolve_ignores_case(a: Seq<char>, b: Seq<char>)
    requires
        ascii_lowercased(a) == ascii_lowercased(b),
    ensures
        resolved_media_type(a) == resolved_media_type(b),
{
    assert(ascii_lowercased(a).len() == a.len());
    assert(ascii_lowercased(b).len() == b.len());
}

/// An extension resolves as its lower-case form does.
pub proof fn lemma_resolve_of_lowercased(ext: Seq<char>)
    ensures
        resolved_media_type(ascii_lowercased(ext)) == resolved_media_type(ext),
{
    assert(ascii_lowercased(ascii_lowercased(ext)) == ascii_lowercased(ext));
}

/// The empty extension resolves to the media type of arbitrary binary data.
pub proof fn lemma_empty_extension_is_octet_stream()
    ensures
        resolved_media_type(Seq::empty()) == OCTET_STREAM@,
{
}

} // verus!
