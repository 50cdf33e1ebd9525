//! A pull-based asynchronous view of a callback-driven WebSocket-style
//! transport.
//!
//! The transport delivers open/message/error/close notifications through
//! externally-invoked callbacks; this crate supplies the verified core that
//! turns those notifications into an ordered queue of typed results that a
//! single cooperative poller can drain, and that gates outgoing writes on the
//! transport's live ready state. The host-facing plumbing (the actual socket
//! object, callback registration, and the futures traits) lives outside the
//! verified core and drives it through the functions defined here.

pub mod buffer;
pub mod error;
pub mod handshake;
pub mod laws;
pub mod message;
pub mod ready;
pub mod stream;
pub mod text;

pub use error::{Error, UrlError};
pub use message::{CloseFrame, Message, RawPayload};
pub use ready::ReadyState;
pub use stream::{PollNext, SendAction, WebSocketStream};
pub use text::Utf8Bytes;
