//! The message model and inbound payload decoding.

use crate::buffer::{bytes_from_vec, bytes_view};
use crate::error::Error;
use crate::text::Utf8Bytes;
use vstd::prelude::*;
use vstd::utf8::encode_utf8;

verus! {

/// Close metadata: the numeric code and textual reason carried by a close
/// notification or a close request.
pub struct CloseFrame {
    pub code: u16,
    pub reason: Utf8Bytes,
}

/// A message exchanged with the transport.
pub enum Message {
    /// A payload guaranteed valid UTF-8 at construction time.
    Text(Utf8Bytes),
    /// A payload with no encoding guarantee.
    Binary(bytes::Bytes),
    /// A close, with its optional metadata.
    Close(Option<CloseFrame>),
}

/// An inbound payload, classified by the representation the host delivered it
/// in. The host's native string type guarantees UTF-8, so a text payload
/// arrives as a `String`.
pub enum RawPayload {
    /// A plain byte buffer.
    Binary(Vec<u8>),
    /// A host-native string.
    Text(String),
    /// A deferred-read large-object representation.
    Blob,
    /// Anything else.
    Unknown,
}

/// What decoding owes for each payload representation: a binary buffer
/// becomes `Binary` byte for byte, a string becomes `Text` without
/// re-validation, the deferred-read representation is explicitly unsupported,
/// and anything else is an unknown format.
pub open spec fn decodes_to(payload: RawPayload, e: Result<Message, Error>) -> bool {
    match payload {
        RawPayload::Binary(v) => e matches Ok(Message::Binary(b)) && bytes_view(b) == v@,
        RawPayload::Text(s) => e matches Ok(Message::Text(t)) && t@ == encode_utf8(s@),
        RawPayload::Blob => e == Err::<Message, Error>(Error::BlobFormatUnsupported),
        RawPayload::Unknown => e == Err::<Message, Error>(Error::UnknownFormat),
    }
}

impl Message {
    /// Decodes one inbound payload. Every failure is a returned value, never
    /// a panic: callback code can rely on this being infallible from the
    /// transport's point of view.
    pub fn try_from(payload: RawPayload) -> (r: Result<Message, Error>)
        ensures
            decodes_to(payload, r),
    {
        match payload {
            RawPayload::Binary(v) => Ok(Message::Binary(bytes_from_vec(v))),
            RawPayload::Text(s) => Ok(Message::Text(Utf8Bytes::from_string(s))),
            RawPayload::Blob => Err(Error::BlobFormatUnsupported),
            RawPayload::Unknown => Err(Error::UnknownFormat),
        }
    }

    /// A text message from an owned string.
    pub fn text(s: String) -> (m: Message)
        ensures
            m matches Message::Text(t) && t@ == encode_utf8(s@),
    {
        Message::Text(Utf8Bytes::from_string(s))
    }
}

} // verus!
