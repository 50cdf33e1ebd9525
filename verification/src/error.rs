//! The closed error taxonomy: every failure the adapter can report is one of
//! these variants, so callers can branch on the cause.

use vstd::prelude::*;

verus! {

/// Why constructing the transport rejected the URL.
#[derive(Clone, Copy, Debug, PartialEq, Eq, Structural)]
pub enum UrlError {
    /// The transport does not speak the URL's scheme.
    UnsupportedUrlScheme,
}

/// Every failure the adapter reports, as a value: nothing is logged and
/// swallowed, nothing is retried internally.
#[derive(Clone, Copy, Debug, PartialEq, Eq, Structural)]
pub enum Error {
    /// Transport construction rejected the URL scheme.
    Url(UrlError),
    /// The handshake lost the open/error race, a live error notification
    /// fired, or a write observed a non-open state.
    ConnectionClosed,
    /// A close request was issued against an already-closing or closed
    /// transport.
    AlreadyClosed,
    /// The transport rejected a payload write.
    Sending,
    /// An inbound payload arrived in an unrecognized representation.
    UnknownFormat,
    /// An inbound payload arrived in a deferred-read representation that this
    /// core does not support.
    BlobFormatUnsupported,
}

} // verus!
