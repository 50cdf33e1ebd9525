use ws_stream::handshake::{construction_failure, handshake_result, join_protocols};
use ws_stream::{Error, Message, PollNext, RawPayload, SendAction, UrlError, WebSocketStream};

const OPEN: u16 = 1;
const CLOSED: u16 = 3;

#[test]
fn happy_path() {
    // Connect succeeds: the "opened" signal fired before the "errored" one.
    assert_eq!(handshake_result(true), Ok(()));
    let mut s = WebSocketStream::<u32>::new();

    // A write while open succeeds and carries the payload through.
    match s.start_send(OPEN, Message::text(String::from("ping"))) {
        Ok(SendAction::Text(t)) => assert_eq!(t.as_str(), "ping"),
        _ => panic!("the open-state write must be accepted"),
    }

    // A message event carrying "ping" arrives; the next poll yields it.
    s.handle_message_event(RawPayload::Text(String::from("ping")));
    match s.poll_next(OPEN, 0) {
        PollNext::Ready(Ok(Message::Text(t))) => assert_eq!(t.as_str(), "ping"),
        _ => panic!("the next poll must yield the text message"),
    }
}

#[test]
fn handshake_failure() {
    // The "errored" signal fired first: no adapter, one terminal error.
    assert_eq!(handshake_result(false), Err(Error::ConnectionClosed));
}

#[test]
fn construction_failure_is_url_error() {
    assert_eq!(
        construction_failure(),
        Error::Url(UrlError::UnsupportedUrlScheme)
    );
}

#[test]
fn remote_close() {
    let mut s = WebSocketStream::<u32>::new();
    s.handle_close_event(1000, String::from("bye"));
    match s.poll_next(OPEN, 0) {
        PollNext::Ready(Ok(Message::Close(Some(frame)))) => {
            assert_eq!(frame.code, 1000);
            assert_eq!(frame.reason.as_str(), "bye");
        }
        _ => panic!("the next poll must yield the close frame"),
    }
    // The transport is closed now: the following poll reports end of stream,
    // and so does every later one.
    assert!(matches!(s.poll_next(CLOSED, 0), PollNext::Finished));
    assert!(matches!(s.poll_next(CLOSED, 0), PollNext::Finished));
}

#[test]
fn blob_payload() {
    let mut s = WebSocketStream::<u32>::new();
    s.handle_message_event(RawPayload::Blob);
    match s.poll_next(OPEN, 0) {
        PollNext::Ready(Err(e)) => assert_eq!(e, Error::BlobFormatUnsupported),
        _ => panic!("a blob payload must surface as an unsupported-format error"),
    }
    // The queue is not corrupted: later events still flow through in order.
    s.handle_message_event(RawPayload::Text(String::from("after")));
    match s.poll_next(OPEN, 0) {
        PollNext::Ready(Ok(Message::Text(t))) => assert_eq!(t.as_str(), "after"),
        _ => panic!("polling must keep working after a blob payload"),
    }
}

#[test]
fn unknown_payload() {
    let mut s = WebSocketStream::<u32>::new();
    s.handle_message_event(RawPayload::Unknown);
    match s.poll_next(OPEN, 0) {
        PollNext::Ready(Err(e)) => assert_eq!(e, Error::UnknownFormat),
        _ => panic!("an unknown payload must surface as an unknown-format error"),
    }
}

#[test]
fn protocol_list_join() {
    assert_eq!(join_protocols(&[]), "");
    assert_eq!(join_protocols(&["chat"]), "chat");
    assert_eq!(join_protocols(&["chat", "superchat"]), "chat, superchat");
}
