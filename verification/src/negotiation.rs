//! The rules by which a payload's headers are chosen.
//!
//! An explicit file name or media type always wins. Without one, the source is asked: a
//! file offers the final component of its path, an upload the name and media type that
//! came with it, and a buffer or a reader offers nothing.

use vstd::prelude::*;
use crate::disposition::{disposition_value, DispositionType};
use crate::media_type::resolved_media_type;
use crate::names::{final_component_of, path_extension_of};
use crate::response::HeadersView;
use crate::source::SourceView;

verus! {

/// What the headers of a response depend on in a payload.
pub struct PayloadView {
    /// The explicit file name. The empty name asks for a bare `inline`.
    pub file_name: Option<Seq<char>>,
    /// The explicit media type.
    pub content_type: Option<Seq<char>>,
    /// The source.
    pub source: SourceView,
}

/// The name that a source offers by itself; empty where it offers none.
pub open spec fn intrinsic_name(source: SourceView) -> Seq<char> {
    match source {
        SourceView::File { path, .. } => match final_component_of(path) {
            Some(name) => name,
            None => Seq::empty(),
        },
        SourceView::TemporaryUpload { name: Some(name), .. } => name,
        _ => Seq::empty(),
    }
}

/// The disposition under which a source offers its own name: uploads are handed back as
/// attachments, everything else is shown in place.
pub open spec fn intrinsic_disposition(source: SourceView) -> DispositionType {
    match source {
        SourceView::TemporaryUpload { .. } => DispositionType::Attachment,
        _ => DispositionType::Inline,
    }
}

/// The value of the `Content-Disposition` header of a payload.
pub open spec fn disposition_of(payload: PayloadView) -> Seq<char> {
    match payload.file_name {
        Some(name) => disposition_value(DispositionType::Inline, name),
        None => disposition_value(
            intrinsic_disposition(payload.source),
            intrinsic_name(payload.source),
        ),
    }
}

/// The name or path in which a payload's extension is looked for: the explicit file name
/// unless it is absent or empty, else the path of a file or the name of an upload (the
/// empty one where the upload has none). A buffer or a reader has nothing to offer.
pub open spec fn extension_source(payload: PayloadView) -> Option<Seq<char>> {
    match payload.file_name {
        Some(name) if name.len() > 0 => Some(name),
        _ => match payload.source {
            SourceView::File { path, .. } => Some(path),
            SourceView::TemporaryUpload { name: Some(name), .. } => Some(name),
            SourceView::TemporaryUpload { name: None, .. } => Some(Seq::empty()),
            _ => None,
        },
    }
}

/// The media type guessed for a name or path: what the extension of its final component
/// resolves to, a missing extension counting as the empty one.
pub open spec fn guessed_content_type(text: Seq<char>) -> Seq<char> {
    resolved_media_type(
        match path_extension_of(text) {
            Some(ext) => ext,
            None => Seq::empty(),
        },
    )
}

/// The media type that a source declares by itself.
pub open spec fn declared_content_type(source: SourceView) -> Option<Seq<char>> {
    match source {
        SourceView::TemporaryUpload { content_type, .. } => content_type,
        _ => None,
    }
}

/// The value of the `Content-Type` header of a payload, if it gets one: the explicit
/// media type, else the one that the source declares, else the guess for the name or
/// path in which an extension can be looked for. Where there is none of these, the
/// header is left out.
pub open spec fn content_type_of(payload: PayloadView) -> Option<Seq<char>> {
    if payload.content_type is Some {
        payload.content_type
    } else if declared_content_type(payload.source) is Some {
        declared_content_type(payload.source)
    } else {
        match extension_source(payload) {
            Some(text) => Some(guessed_content_type(text)),
            None => None,
        }
    }
}

/// The number of bytes that a source is known to give, if it is known.
pub open spec fn content_length_of(source: SourceView) -> Option<u64> {
    match source {
        SourceView::Owned(bytes) => Some(bytes.len() as u64),
        SourceView::Borrowed(bytes) => Some(bytes.len() as u64),
        SourceView::Stream { content_length } => content_length,
        SourceView::File { size, .. } => Some(size),
        SourceView::TemporaryUpload { len, .. } => Some(len),
    }
}

/// The headers of a payload.
pub open spec fn headers_of(payload: PayloadView) -> HeadersView {
    HeadersView {
        content_disposition: disposition_of(payload),
        content_type: content_type_of(payload),
        content_length: content_length_of(payload.source),
    }
}

} // verus!
