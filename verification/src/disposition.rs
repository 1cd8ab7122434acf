//! The value of the `Content-Disposition` header.
//!
//! A value either is the bare word `inline`, or names a file in the extended notation
//! of RFC 5987: `inline; filename*=UTF-8''report.pdf`.

use vstd::prelude::*;
use vstd::utf8::*;
use crate::escape::{
    is_escaped_text, lemma_name_round_trip, lemma_percent_encoded_chars,
    lemma_percent_encoded_is_escaped_text, lemma_percent_round_trip, percent_decoded,
    percent_encode_into, percent_encoded,
};

verus! {

/// The disposition that asks for the body to be shown in place.
pub const INLINE: &'static str = "inline";

/// The disposition that asks for the body to be saved.
pub const ATTACHMENT: &'static str = "attachment";

/// What stands between the disposition and the encoded file name.
pub const FILENAME_PARAMETER: &'static str = "; filename*=UTF-8''";

/// How the receiver is asked to treat the body.
#[derive(Debug, Clone, Copy, PartialEq, Eq)]
pub enum DispositionType {
    /// Show it in place.
    Inline,
    /// Save it under the given name.
    Attachment,
}

/// The word that stands for a disposition type.
pub open spec fn disposition_word(kind: DispositionType) -> Seq<char> {
    match kind {
        DispositionType::Inline => INLINE@,
        DispositionType::Attachment => ATTACHMENT@,
    }
}

/// The header value for a disposition type and a file name.
///
/// Without a name (the empty one) the value is the bare word `inline`, whatever the type;
/// else the type's word, the parameter and the percent-encoded UTF-8 bytes of the name.
pub open spec fn disposition_value(kind: DispositionType, name: Seq<char>) -> Seq<char> {
    if name.len() == 0 {
        INLINE@
    } else {
        disposition_word(kind) + FILENAME_PARAMETER@ + percent_encoded(encode_utf8(name))
    }
}

/// Builds the header value for a disposition type and a file name; the empty name stands
/// for none.
pub fn content_disposition(kind: DispositionType, name: &str) -> (value: String)
    ensures
        value@ == disposition_value(kind, name@),
{
    if name.is_empty() {
        INLINE.to_owned()
    } else {
        let mut value = match kind {
            DispositionType::Inline => INLINE.to_owned(),
            DispositionType::Attachment => ATTACHMENT.to_owned(),
        };
        value.append(FILENAME_PARAMETER);
        percent_encode_into(name, &mut value);
        value
    }
}

/// A header value that names a file consists of the disposition's word, the parameter and
/// an encoded name; percent-decoding that last part gives the UTF-8 bytes of the name,
/// which read as the name again.
pub proof fn lemma_named_disposition_round_trip(kind: DispositionType, name: Seq<char>)
    requires
        name.len() > 0,
    ensures
        ({
            let value = disposition_value(kind, name);
            let lead = disposition_word(kind) + FILENAME_PARAMETER@;
            &&& value.len() >= lead.len()
            &&& value.take(lead.len() as int) == lead
            &&& is_escaped_text(value.skip(lead.len() as int))
            &&& percent_decoded(value.skip(lead.len() as int)) == encode_utf8(name)
            &&& decode_utf8(percent_decoded(value.skip(lead.len() as int))) == name
        }),
{
    let value = disposition_value(kind, name);
    let lead = disposition_word(kind) + FILENAME_PARAMETER@;
    let encoded = percent_encoded(encode_utf8(name));
    assert(value == lead + encoded);
    assert(value.take(lead.len() as int) == lead);
    assert(value.skip(lead.len() as int) == encoded);
    lemma_name_round_trip(name);
    lemma_percent_round_trip(encode_utf8(name));
    lemma_percent_encoded_is_escaped_text(encode_utf8(name));
}

/// A `Content-Disposition` value holds ASCII characters only, whatever the name is made of.
pub proof fn lemma_disposition_is_ascii(kind: DispositionType, name: Seq<char>)
    ensures
        is_ascii_chars(disposition_value(kind, name)),
{
    reveal_strlit("inline");
    reveal_strlit("attachment");
    reveal_strlit("; filename*=UTF-8''");
    lemma_percent_encoded_chars(encode_utf8(name));
}

/// The two dispositions never give the same value for a name.
pub proof fn lemma_attachment_differs_from_inline(name: Seq<char>)
    requires
        name.len() > 0,
    ensures
        disposition_value(DispositionType::Attachment, name) != disposition_value(
            DispositionType::Inline,
            name,
        ),
{
    reveal_strlit("inline");
    reveal_strlit("attachment");
    let a = disposition_value(DispositionType::Attachment, name);
    let i = disposition_value(DispositionType::Inline, name);
    assert(a[0] == 'a');
    assert(i[0] == 'i');
}

} // verus!
