//! Payloads of raw bytes for an HTTP response.
//!
//! A [`RawResponsePro`] holds bytes from one of five sources (a buffer, a borrowed slice,
//! a reader, an open file or a stored upload) together with an optional file name and an
//! optional media type. [`RawResponsePro::emit`] turns it into the `Content-Disposition`,
//! `Content-Type` and `Content-Length` headers and the body that a host sends.
//!
//! The library does no input or output. Readers, files and upload handles are values of
//! types that the host chooses; they pass through untouched.

pub mod disposition;
pub mod error;
pub mod escape;
pub mod laws;
pub mod media_type;
pub mod names;
pub mod negotiation;
pub mod payload;
pub mod response;
pub mod source;
pub mod text;

pub use disposition::DispositionType;
pub use error::PayloadError;
pub use media_type::MediaType;
pub use payload::{RawResponse, RawResponsePro};
pub use response::{Body, Framing, Headers, ResponseParts};
pub use source::{OpenOutcome, PayloadSource, TemporaryUpload};
