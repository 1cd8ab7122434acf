//! What holds of every payload, proved from the rules of negotiation.

use vstd::prelude::*;
use vstd::utf8::*;
use crate::disposition::{
    lemma_named_disposition_round_trip, DispositionType, ATTACHMENT, FILENAME_PARAMETER, INLINE,
};
use crate::escape::{percent_decoded, percent_encoded};
use crate::media_type::OCTET_STREAM;
use crate::names::{final_component_of, lemma_final_component, path_extension_of};
use crate::negotiation::{
    content_length_of, content_type_of, declared_content_type, disposition_of,
    guessed_content_type, headers_of, PayloadView,
};
use crate::payload::RawResponsePro;
use crate::response::{
    framing_for, header_pairs, Framing, CONTENT_DISPOSITION, CONTENT_LENGTH, CONTENT_TYPE,
};
use crate::source::{PayloadSource, SourceView};

verus! {

/// The `Content-Disposition` value of a payload with an explicit, non-empty file name
/// asks for display in place and decodes to that name, whatever the source.
pub proof fn lemma_explicit_name_round_trip(payload: PayloadView)
    requires
        payload.file_name is Some,
        payload.file_name->0.len() > 0,
    ensures
        ({
            let value = disposition_of(payload);
            let lead = INLINE@ + FILENAME_PARAMETER@;
            &&& value.len() >= lead.len()
            &&& value.take(lead.len() as int) == lead
            &&& decode_utf8(percent_decoded(value.skip(lead.len() as int)))
                == payload.file_name->0
        }),
{
    lemma_named_disposition_round_trip(DispositionType::Inline, payload.file_name->0);
}

/// An explicit empty file name gives the bare value `inline`, whatever the source.
pub proof fn lemma_empty_name_is_bare_inline(payload: PayloadView)
    requires
        payload.file_name == Some(Seq::<char>::empty()),
    ensures
        disposition_of(payload) == INLINE@,
{
}

/// Without any name, explicit or offered by the source, the value is the bare `inline`.
pub proof fn lemma_nameless_is_bare_inline(payload: PayloadView)
    requires
        payload.file_name is None,
        (match payload.source {
            SourceView::File { path, .. } => final_component_of(path) is None,
            SourceView::TemporaryUpload { name, .. } => name is None || name->0.len() == 0,
            _ => true,
        }),
    ensures
        disposition_of(payload) == INLINE@,
{
}

/// Without an explicit file name, an upload that declares a name is handed back as an
/// attachment under that name.
pub proof fn lemma_upload_defaults_to_attachment(payload: PayloadView)
    requires
        payload.file_name is None,
        payload.source is TemporaryUpload,
        payload.source->TemporaryUpload_name is Some,
        payload.source->TemporaryUpload_name->0.len() > 0,
    ensures
        disposition_of(payload) == ATTACHMENT@ + FILENAME_PARAMETER@ + percent_encoded(
            encode_utf8(payload.source->TemporaryUpload_name->0),
        ),
{
}

/// Without an explicit file name, a file whose path ends in a name is shown in place
/// under that name.
pub proof fn lemma_file_defaults_to_inline(payload: PayloadView)
    requires
        payload.file_name is None,
        payload.source is File,
        final_component_of(payload.source->File_path) is Some,
    ensures
        disposition_of(payload) == INLINE@ + FILENAME_PARAMETER@ + percent_encoded(
            encode_utf8(final_component_of(payload.source->File_path)->0),
        ),
{
    lemma_final_component(payload.source->File_path);
}

/// The content length of a payload of bytes in memory is the exact number of those bytes.
pub proof fn lemma_buffer_content_length<'o, R, F, U>(payload: RawResponsePro<'o, R, F, U>)
    ensures
        payload.source() matches PayloadSource::Owned(bytes) ==> ({
            &&& headers_of(payload@).content_length is Some
            &&& headers_of(payload@).content_length->0 == bytes@.len()
            &&& framing_for(content_length_of(payload@.source)) == Framing::Sized(
                bytes@.len() as u64,
            )
        }),
        payload.source() matches PayloadSource::Borrowed(bytes) ==> ({
            &&& headers_of(payload@).content_length is Some
            &&& headers_of(payload@).content_length->0 == bytes@.len()
            &&& framing_for(content_length_of(payload@.source)) == Framing::Sized(
                bytes@.len() as u64,
            )
        }),
{
    match payload.source() {
        PayloadSource::Owned(bytes) => {
            assert(bytes@.len() == bytes.len());
        },
        PayloadSource::Borrowed(bytes) => {
            assert(bytes@.len() == bytes.len());
        },
        _ => {},
    }
}

/// A reader whose length the caller has not stated gets no `Content-Length`, among the
/// header pairs either, and is sent in chunks; one whose length is stated gets that
/// length.
pub proof fn lemma_stream_content_length(payload: PayloadView)
    requires
        payload.source is Stream,
    ensures
        headers_of(payload).content_length == payload.source->Stream_content_length,
        payload.source->Stream_content_length is None ==> framing_for(
            content_length_of(payload.source),
        ) == Framing::Chunked,
        payload.source->Stream_content_length is None ==> forall|i: int|
            0 <= i < header_pairs(headers_of(payload)).len() ==> (#[trigger] header_pairs(
                headers_of(payload),
            )[i]).0 != CONTENT_LENGTH@,
{
    reveal_strlit("Content-Disposition");
    reveal_strlit("Content-Type");
    reveal_strlit("Content-Length");
    assert(CONTENT_DISPOSITION@[8] == 'D');
    assert(CONTENT_TYPE@[8] == 'T');
    assert(CONTENT_LENGTH@[8] == 'L');
}

/// The content length of a file is the size found when it was opened; that of an upload
/// is the size that the upload declares.
pub proof fn lemma_stored_content_length(payload: PayloadView)
    ensures
        payload.source is File ==> headers_of(payload).content_length == Some(
            payload.source->File_size,
        ),
        payload.source is TemporaryUpload ==> headers_of(payload).content_length == Some(
            payload.source->TemporaryUpload_len,
        ),
{
}

/// An explicit media type is the `Content-Type`, whatever the names and the source.
pub proof fn lemma_explicit_content_type_wins(payload: PayloadView)
    requires
        payload.content_type is Some,
    ensures
        content_type_of(payload) == payload.content_type,
{
}

/// A buffer or reader without a file name gets no `Content-Type` unless one is explicit.
pub proof fn lemma_nameless_has_no_content_type(payload: PayloadView)
    requires
        payload.content_type is None,
        payload.file_name is None || payload.file_name->0.len() == 0,
        payload.source is Owned || payload.source is Borrowed || payload.source is Stream,
    ensures
        content_type_of(payload) is None,
{
}

/// Where neither the caller nor the source states a media type, a payload with an
/// explicit, non-empty file name gets the guess for that name, whatever the source.
pub proof fn lemma_content_type_follows_explicit_name(payload: PayloadView)
    requires
        payload.content_type is None,
        declared_content_type(payload.source) is None,
        payload.file_name is Some,
        payload.file_name->0.len() > 0,
    ensures
        content_type_of(payload) == Some(guessed_content_type(payload.file_name->0)),
{
}

/// A file or an upload always gets a `Content-Type`.
pub proof fn lemma_stored_source_has_content_type(payload: PayloadView)
    requires
        payload.source is File || payload.source is TemporaryUpload,
    ensures
        content_type_of(payload) is Some,
{
}

/// A name or path without an extension is given the media type of arbitrary binary data.
pub proof fn lemma_no_extension_is_octet_stream(text: Seq<char>)
    requires
        path_extension_of(text) is None,
    ensures
        guessed_content_type(text) == OCTET_STREAM@,
{
}

} // verus!
