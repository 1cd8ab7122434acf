//! Where the bytes of a payload come from.

use vstd::prelude::*;
use crate::media_type::MediaType;

verus! {

/// An upload that a collaborator has already stored, with what it declares of itself.
///
/// The handle is kept as it is given; storing and removing the upload is the
/// collaborator's business.
#[derive(Debug)]
pub struct TemporaryUpload<U> {
    /// The name that came with the upload, if any.
    pub name: Option<String>,
    /// The media type that came with the upload, if any.
    pub content_type: Option<MediaType>,
    /// The size of the stored upload in bytes.
    pub len: u64,
    /// The handle through which the stored bytes are read.
    pub handle: U,
}

/// What the single attempt to open a path has given.
#[derive(Debug)]
pub enum OpenOutcome<F> {
    /// Nothing is there, or it cannot be reached.
    Missing,
    /// The attempt failed for any other reason.
    Failed,
    /// The path is open.
    Opened {
        /// The open handle.
        handle: F,
        /// Whether the handle refers to a regular file.
        is_regular: bool,
        /// The size that the file system reports for it, in bytes.
        size: u64,
    },
}

/// The origin of a payload's bytes. A payload has exactly one, for as long as it lives.
#[derive(Debug)]
pub enum PayloadSource<'o, R, F, U> {
    /// A buffer that the payload owns.
    Owned(Vec<u8>),
    /// Bytes that the caller keeps alive for `'o`.
    Borrowed(&'o [u8]),
    /// A reader, with the number of bytes it will give where the caller knows it.
    Stream {
        /// The reader.
        reader: R,
        /// The length that the caller has stated.
        content_length: Option<u64>,
    },
    /// A file that is already open. The path only serves to find a name and an extension.
    File {
        /// The path that was opened.
        path: String,
        /// The size of the file when it was opened.
        size: u64,
        /// The open handle.
        handle: F,
    },
    /// An upload stored by a collaborator.
    TemporaryUpload(TemporaryUpload<U>),
}

/// What the headers of a response depend on in a source: everything but the handles.
pub enum SourceView {
    /// The bytes of an owned buffer.
    Owned(Seq<u8>),
    /// The bytes of a borrowed slice.
    Borrowed(Seq<u8>),
    /// A reader and the length stated for it.
    Stream { content_length: Option<u64> },
    /// A file, with the path it was opened at and its size then.
    File { path: Seq<char>, size: u64 },
    /// An upload, with the name, media type and size that it declares.
    TemporaryUpload { name: Option<Seq<char>>, content_type: Option<Seq<char>>, len: u64 },
}

impl<'o, R, F, U> View for PayloadSource<'o, R, F, U> {
    type V = SourceView;

    open spec fn view(&self) -> SourceView {
        match *self {
            PayloadSource::Owned(bytes) => SourceView::Owned(bytes@),
            PayloadSource::Borrowed(bytes) => SourceView::Borrowed(bytes@),
            PayloadSource::Stream { content_length, .. } => SourceView::Stream { content_length },
            PayloadSource::File { path, size, .. } => SourceView::File { path: path@, size },
            PayloadSource::TemporaryUpload(upload) => SourceView::TemporaryUpload {
                name: upload.name.deep_view(),
                content_type: upload.content_type.deep_view(),
                len: upload.len,
            },
        }
    }
}

} // verus!
