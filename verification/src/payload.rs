//! The payload: a source, and the file name and media type that the caller chose for it.

use vstd::prelude::*;
use crate::disposition::{content_disposition, DispositionType};
use crate::error::PayloadError;
use crate::media_type::{resolve, MediaType};
use crate::names::{final_component, path_extension};
use crate::negotiation::{
    content_length_of, content_type_of, disposition_of, guessed_content_type, headers_of,
    PayloadView,
};
use crate::response::{body_of, framing_for, Body, Framing, Headers, ResponseParts};
use crate::source::{OpenOutcome, PayloadSource, TemporaryUpload};

verus! {

/// A payload that lives as long as the program.
pub type RawResponse<R, F, U> = RawResponsePro<'static, R, F, U>;

/// A payload: bytes from one source, to be sent once.
///
/// `R` is the type of readers, `F` that of open files and `U` that of upload handles. The
/// payload carries such values from where it is built to the body that it is sent as, and
/// never looks into them.
///
/// Nothing changes a payload once it is built, and sending consumes it.
#[derive(Debug)]
pub struct RawResponsePro<'o, R, F, U> {
    file_name: Option<String>,
    content_type: Option<MediaType>,
    data: PayloadSource<'o, R, F, U>,
}

impl<'o, R, F, U> View for RawResponsePro<'o, R, F, U> {
    type V = PayloadView;

    open spec fn view(&self) -> PayloadView {
        PayloadView {
            file_name: self.explicit_file_name(),
            content_type: self.explicit_content_type(),
            source: self.source()@,
        }
    }
}

/// The media type guessed for a name or path.
fn guess_content_type(text: &str) -> (guess: MediaType)
    ensures
        guess@ == guessed_content_type(text@),
{
    match path_extension(text) {
        Some(ext) => resolve(ext.as_str()),
        None => {
            proof {
                reveal_strlit("");
            }
            resolve("")
        },
    }
}

impl<'o, R, F, U> RawResponsePro<'o, R, F, U> {
    /// The file name that the caller chose, if any.
    pub closed spec fn explicit_file_name(&self) -> Option<Seq<char>> {
        self.file_name.deep_view()
    }

    /// The media type that the caller chose, if any.
    pub closed spec fn explicit_content_type(&self) -> Option<Seq<char>> {
        self.content_type.deep_view()
    }

    /// The source of this payload.
    pub closed spec fn source(&self) -> PayloadSource<'o, R, F, U> {
        self.data
    }

    /// Whether this payload is the given source under the given file name and media type.
    pub open spec fn is_made_of(
        &self,
        source: PayloadSource<'o, R, F, U>,
        file_name: Option<String>,
        content_type: Option<MediaType>,
    ) -> bool {
        &&& self.source() == source
        &&& self.explicit_file_name() == file_name.deep_view()
        &&& self.explicit_content_type() == content_type.deep_view()
    }

    /// A payload of bytes that the caller keeps alive for `'o`.
    pub fn from_slice(
        data: &'o [u8],
        file_name: Option<String>,
        content_type: Option<MediaType>,
    ) -> (payload: Self)
        ensures
            payload.is_made_of(PayloadSource::Borrowed(data), file_name, content_type),
    {
        RawResponsePro { file_name, content_type, data: PayloadSource::Borrowed(data) }
    }

    /// A payload of bytes in a buffer, which it takes over.
    pub fn from_vec(
        vec: Vec<u8>,
        file_name: Option<String>,
        content_type: Option<MediaType>,
    ) -> (payload: Self)
        ensures
            payload.is_made_of(PayloadSource::Owned(vec), file_name, content_type),
    {
        RawResponsePro { file_name, content_type, data: PayloadSource::Owned(vec) }
    }

    /// A payload of the bytes that a reader will give. The reader is not touched before
    /// the payload is sent; `content_length` is taken on trust.
    pub fn from_reader(
        reader: R,
        file_name: Option<String>,
        content_type: Option<MediaType>,
        content_length: Option<u64>,
    ) -> (payload: Self)
        ensures
            payload.is_made_of(
                PayloadSource::Stream { reader, content_length },
                file_name,
                content_type,
            ),
    {
        RawResponsePro {
            file_name,
            content_type,
            data: PayloadSource::Stream { reader, content_length },
        }
    }

    /// A payload of the file at `path`, from what the attempt to open that path gave.
    ///
    /// Fails with `NotFound` where nothing could be reached at the path, with `Io` where
    /// opening failed otherwise, and with `InvalidInput` where what was opened is not a
    /// regular file. The path is not opened or looked at again.
    pub fn from_file(
        path: String,
        opened: OpenOutcome<F>,
        file_name: Option<String>,
        content_type: Option<MediaType>,
    ) -> (result: Result<Self, PayloadError>)
        ensures
            (match opened {
                OpenOutcome::Missing => result == Err::<Self, PayloadError>(
                    PayloadError::NotFound,
                ),
                OpenOutcome::Failed => result == Err::<Self, PayloadError>(PayloadError::Io),
                OpenOutcome::Opened { handle, is_regular, size } => if is_regular {
                    &&& result is Ok
                    &&& result->Ok_0.is_made_of(
                        PayloadSource::File { path, size, handle },
                        file_name,
                        content_type,
                    )
                    &&& content_length_of(result->Ok_0@.source) == Some(size)
                } else {
                    result == Err::<Self, PayloadError>(PayloadError::InvalidInput)
                },
            }),
    {
        match opened {
            OpenOutcome::Missing => Err(PayloadError::NotFound),
            OpenOutcome::Failed => Err(PayloadError::Io),
            OpenOutcome::Opened { handle, is_regular, size } => {
                if is_regular {
                    Ok(
                        RawResponsePro {
                            file_name,
                            content_type,
                            data: PayloadSource::File { path, size, handle },
                        },
                    )
                } else {
                    Err(PayloadError::InvalidInput)
                }
            },
        }
    }

    /// A payload of an upload that a collaborator has stored.
    pub fn from_temp_file(
        temp_file: TemporaryUpload<U>,
        file_name: Option<String>,
        content_type: Option<MediaType>,
    ) -> (payload: Self)
        ensures
            payload.is_made_of(PayloadSource::TemporaryUpload(temp_file), file_name, content_type),
    {
        RawResponsePro { file_name, content_type, data: PayloadSource::TemporaryUpload(temp_file) }
    }

    /// The value of the `Content-Disposition` header.
    pub fn content_disposition(&self) -> (value: String)
        ensures
            value@ == disposition_of(self@),
    {
        proof {
            reveal_strlit("");
        }
        match &self.file_name {
            Some(name) => content_disposition(DispositionType::Inline, name.as_str()),
            None => match &self.data {
                PayloadSource::File { path, .. } => match final_component(path.as_str()) {
                    Some(name) => content_disposition(DispositionType::Inline, name.as_str()),
                    None => content_disposition(DispositionType::Inline, ""),
                },
                PayloadSource::TemporaryUpload(upload) => match &upload.name {
                    Some(name) => content_disposition(DispositionType::Attachment, name.as_str()),
                    None => content_disposition(DispositionType::Attachment, ""),
                },
                _ => content_disposition(DispositionType::Inline, ""),
            },
        }
    }

    /// The value of the `Content-Type` header, if one is to be sent.
    pub fn content_type(&self) -> (value: Option<MediaType>)
        ensures
            value.deep_view() == content_type_of(self@),
    {
        if let Some(explicit) = &self.content_type {
            return Some(explicit.clone());
        }
        if let PayloadSource::TemporaryUpload(upload) = &self.data {
            if let Some(declared) = &upload.content_type {
                return Some(declared.clone());
            }
        }
        if let Some(name) = &self.file_name {
            if !name.as_str().is_empty() {
                return Some(guess_content_type(name.as_str()));
            }
        }
        match &self.data {
            PayloadSource::File { path, .. } => Some(guess_content_type(path.as_str())),
            PayloadSource::TemporaryUpload(upload) => match &upload.name {
                Some(name) => Some(guess_content_type(name.as_str())),
                None => {
                    proof {
                        reveal_strlit("");
                    }
                    Some(guess_content_type(""))
                },
            },
            _ => None,
        }
    }

    /// The value of the `Content-Length` header, if one is to be sent.
    pub fn content_length(&self) -> (value: Option<u64>)
        ensures
            value == content_length_of(self@.source),
    {
        match &self.data {
            PayloadSource::Owned(bytes) => Some(bytes.len() as u64),
            PayloadSource::Borrowed(bytes) => Some(bytes.len() as u64),
            PayloadSource::Stream { content_length, .. } => *content_length,
            PayloadSource::File { size, .. } => Some(*size),
            PayloadSource::TemporaryUpload(upload) => Some(upload.len),
        }
    }

    /// Turns the payload into the response that carries it.
    ///
    /// The headers follow from the file name, the media type and the source; the body is
    /// the source's bytes or handle; the body is framed by its length where that is known.
    pub fn emit(self) -> (parts: ResponseParts<'o, R, F, U>)
        ensures
            parts.headers@ == headers_of(self@),
            parts.framing == framing_for(content_length_of(self@.source)),
            parts.body == body_of(self.source()),
    {
        let content_disposition = self.content_disposition();
        let content_type = self.content_type();
        let content_length = self.content_length();
        let framing = match content_length {
            Some(len) => Framing::Sized(len),
            None => Framing::Chunked,
        };
        let body = match self.data {
            PayloadSource::Owned(bytes) => Body::Bytes(bytes),
            PayloadSource::Borrowed(bytes) => Body::Slice(bytes),
            PayloadSource::Stream { reader, .. } => Body::Reader(reader),
            PayloadSource::File { handle, .. } => Body::File(handle),
            PayloadSource::TemporaryUpload(upload) => Body::Upload(upload.handle),
        };
        ResponseParts {
            headers: Headers { content_disposition, content_type, content_length },
            framing,
            body,
        }
    }
}

} // verus!
