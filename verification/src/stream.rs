//! The callback-to-queue bridge and the poll-based pull/push adapter.
//!
//! `WebSocketStream<W>` is the shared state that the transport's callbacks
//! (the producer) and the polling task (the consumer) both work on: an
//! ordered, unbounded queue of decoded results, at most one pending wakeup
//! handle, and the end-of-stream flag. `W` is the host scheduler's wakeup
//! handle type; this core never invokes a handle, it only stores the latest
//! one and hands it back to the caller whose event made the queue non-empty.
//!
//! The transport's ready state is never cached here: every decision that
//! depends on it takes the raw value freshly queried by the caller.

use crate::error::Error;
use crate::message::{decodes_to, CloseFrame, Message, RawPayload};
use crate::ready::{ready_state_of, ReadyState};
use crate::text::Utf8Bytes;
use std::collections::VecDeque;
use vstd::prelude::*;
use vstd::utf8::encode_utf8;

verus! {

broadcast use vstd::std_specs::vecdeque::group_vec_dequeue_axioms;

/// Outcome of one poll of the pull side.
pub enum PollNext {
    /// The front of the queue, in callback order.
    Ready(Result<Message, Error>),
    /// Nothing queued yet; the given wakeup handle was stored and the
    /// transport is still open, so an item may still arrive.
    Pending,
    /// End of stream: no item will ever be reported again.
    Finished,
}

/// The transport primitive that an accepted write asks the caller to invoke.
pub enum SendAction {
    /// Hand the UTF-8 payload to the transport's string-send primitive.
    Text(Utf8Bytes),
    /// Hand the bytes to the transport's binary-send primitive.
    Binary(bytes::Bytes),
    /// Request a close: a default one, or one carrying the frame's code and
    /// reason.
    Close(Option<CloseFrame>),
}

/// The adapter's state as contracts speak of it.
#[verifier::ext_equal]
pub struct StreamModel<W> {
    /// The inbound queue, front first.
    pub queue: Seq<Result<Message, Error>>,
    /// The most recently registered wakeup handle, if it has not been taken.
    pub waker: Option<W>,
    /// Whether a poll has reported end of stream.
    pub finished: bool,
}

/// One bridge append: the entry joins the back of the queue, and the pending
/// wakeup handle (if any) leaves to be invoked by the caller.
pub open spec fn push_entry_spec<W>(s: StreamModel<W>, e: Result<Message, Error>) -> (
    StreamModel<W>,
    Option<W>,
) {
    (StreamModel { queue: s.queue.push(e), waker: None, finished: s.finished }, s.waker)
}

/// One poll of the pull side. Once end of stream has been reported the answer
/// is final, whatever the transport's state does afterwards. Otherwise a
/// non-empty queue yields its front immediately; an empty queue stores the
/// caller's wakeup handle (superseding any earlier one) and suspends if the
/// transport is open, or reports end of stream if it is not.
pub open spec fn poll_next_spec<W>(s: StreamModel<W>, raw_state: u16, w: W) -> (
    StreamModel<W>,
    PollNext,
) {
    if s.finished {
        (s, PollNext::Finished)
    } else if s.queue.len() > 0 {
        (
            StreamModel { queue: s.queue.drop_first(), waker: s.waker, finished: false },
            PollNext::Ready(s.queue[0]),
        )
    } else if ready_state_of(raw_state) == Some(ReadyState::Open) {
        (StreamModel { queue: s.queue, waker: Some(w), finished: false }, PollNext::Pending)
    } else {
        (StreamModel { queue: s.queue, waker: Some(w), finished: true }, PollNext::Finished)
    }
}

/// What the queued close entry owes to the close notification it came from.
pub open spec fn close_entry_for(code: u16, reason: Seq<char>, e: Result<Message, Error>) -> bool {
    e matches Ok(Message::Close(Some(f))) && f.code == code && f.reason@ == encode_utf8(reason)
}

/// The shared bridge/adapter state.
pub struct WebSocketStream<W> {
    queue: VecDeque<Result<Message, Error>>,
    waker: Option<W>,
    finished: bool,
}

impl<W> View for WebSocketStream<W> {
    type V = StreamModel<W>;

    closed spec fn view(&self) -> StreamModel<W> {
        StreamModel { queue: self.queue@, waker: self.waker, finished: self.finished }
    }
}

impl<W> WebSocketStream<W> {
    /// A fresh adapter: empty queue, no pending wakeup handle, stream not
    /// ended.
    pub fn new() -> (s: Self)
        ensures
            s@.queue.len() == 0,
            s@.waker is None,
            !s@.finished,
    {
        WebSocketStream { queue: VecDeque::new(), waker: None, finished: false }
    }

    /// The bridge's one primitive: append an entry in callback order — no
    /// reordering, no coalescing, no deduplication — and take the pending
    /// wakeup handle so the caller can invoke it.
    pub fn push_entry(&mut self, e: Result<Message, Error>) -> (woken: Option<W>)
        ensures
            (final(self)@, woken) == push_entry_spec(old(self)@, e),
    {
        self.queue.push_back(e);
        self.waker.take()
    }

    /// An inbound payload notification: decode it and enqueue the outcome,
    /// success or failure alike.
    pub fn handle_message_event(&mut self, payload: RawPayload) -> (woken: Option<W>)
        ensures
            (final(self)@, woken) == push_entry_spec(old(self)@, final(self)@.queue.last()),
            decodes_to(payload, final(self)@.queue.last()),
    {
        let e = Message::try_from(payload);
        self.push_entry(e)
    }

    /// An error notification: the transport exposes no structured detail at
    /// this layer, so the entry is the one terminal-error signal.
    pub fn handle_error_event(&mut self) -> (woken: Option<W>)
        ensures
            (final(self)@, woken) == push_entry_spec(
                old(self)@,
                Err::<Message, Error>(Error::ConnectionClosed),
            ),
    {
        self.push_entry(Err(Error::ConnectionClosed))
    }

    /// A close notification: enqueue a close message carrying the
    /// notification's code and reason.
    pub fn handle_close_event(&mut self, code: u16, reason: String) -> (woken: Option<W>)
        ensures
            (final(self)@, woken) == push_entry_spec(old(self)@, final(self)@.queue.last()),
            close_entry_for(code, reason@, final(self)@.queue.last()),
    {
        let frame = CloseFrame { code, reason: Utf8Bytes::from_string(reason) };
        self.push_entry(Ok(Message::Close(Some(frame))))
    }

    /// The pull side: pop the front of the queue if there is one; otherwise
    /// store the caller's wakeup handle and either suspend (transport open)
    /// or report end of stream (anything else). `raw_state` is the
    /// transport's live state, queried by the caller just before this call.
    pub fn poll_next(&mut self, raw_state: u16, w: W) -> (r: PollNext)
        ensures
            (final(self)@, r) == poll_next_spec(old(self)@, raw_state, w),
    {
        if self.finished {
            PollNext::Finished
        } else {
            match self.queue.pop_front() {
                Some(e) => PollNext::Ready(e),
                None => {
                    self.waker = Some(w);
                    match ReadyState::classify(raw_state) {
                        Some(ReadyState::Open) => PollNext::Pending,
                        _ => {
                            self.finished = true;
                            PollNext::Finished
                        },
                    }
                },
            }
        }
    }

    /// The push side's readiness check: writes are accepted only while the
    /// transport reports `Open`, and rejected rather than buffered otherwise.
    pub fn poll_ready(&self, raw_state: u16) -> (r: Result<(), Error>)
        ensures
            r == if ready_state_of(raw_state) == Some(ReadyState::Open) {
                Ok::<(), Error>(())
            } else {
                Err::<(), Error>(Error::ConnectionClosed)
            },
    {
        match ReadyState::classify(raw_state) {
            Some(ReadyState::Open) => Ok(()),
            _ => Err(Error::ConnectionClosed),
        }
    }

    /// The push side's dispatch: re-check the live state (it may have changed
    /// since the readiness check), then turn the message into the transport
    /// action that sends it. A write attempted in any state but `Open` fails
    /// with `ConnectionClosed`; a write attempted while `Open` is accepted.
    pub fn start_send(&self, raw_state: u16, item: Message) -> (r: Result<SendAction, Error>)
        ensures
            ready_state_of(raw_state) != Some(ReadyState::Open) ==> r == Err::<
                SendAction,
                Error,
            >(Error::ConnectionClosed),
            ready_state_of(raw_state) == Some(ReadyState::Open) ==> r == Ok::<
                SendAction,
                Error,
            >(action_for(item)),
    {
        match ReadyState::classify(raw_state) {
            Some(ReadyState::Open) => match item {
                Message::Text(t) => Ok(SendAction::Text(t)),
                Message::Binary(b) => Ok(SendAction::Binary(b)),
                Message::Close(f) => Ok(SendAction::Close(f)),
            },
            _ => Err(Error::ConnectionClosed),
        }
    }

    /// Flushing is a no-op: there is no outbound buffer to drain, every
    /// accepted write went to the transport synchronously.
    pub fn poll_flush(&self) -> (r: Result<(), Error>)
        ensures
            r == Ok::<(), Error>(()),
    {
        Ok(())
    }
}

/// The transport action each message kind asks for.
pub open spec fn action_for(item: Message) -> SendAction {
    match item {
        Message::Text(t) => SendAction::Text(t),
        Message::Binary(b) => SendAction::Binary(b),
        Message::Close(f) => SendAction::Close(f),
    }
}

/// The error a transport-rejected action maps to: a rejected payload write is
/// `Sending`, a rejected close request is `AlreadyClosed`.
pub fn send_failure(action: &SendAction) -> (e: Error)
    ensures
        !(*action matches SendAction::Close(_)) ==> e == Error::Sending,
        *action matches SendAction::Close(_) ==> e == Error::AlreadyClosed,
{
    match action {
        SendAction::Text(_) => Error::Sending,
        SendAction::Binary(_) => Error::Sending,
        SendAction::Close(_) => Error::AlreadyClosed,
    }
}

/// Outcome of a close request against the transport: a rejected request means
/// the transport was already closing or closed.
pub fn close_result(accepted: bool) -> (r: Result<(), Error>)
    ensures
        r == if accepted {
            Ok::<(), Error>(())
        } else {
            Err::<(), Error>(Error::AlreadyClosed)
        },
{
    if accepted {
        Ok(())
    } else {
        Err(Error::AlreadyClosed)
    }
}

} // verus!
