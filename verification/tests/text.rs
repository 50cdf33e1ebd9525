use ws_stream::text::is_valid_utf8;
use ws_stream::ReadyState;
use ws_stream::Utf8Bytes;

#[test]
fn utf8_invalid_bytes_rejected() {
    // 0xff can never occur in UTF-8.
    let bad = vec![0xff, 0x00];
    match Utf8Bytes::try_from_vec(bad) {
        Err(v) => assert_eq!(v, vec![0xff, 0x00]),
        Ok(_) => panic!("invalid UTF-8 must fail the conversion"),
    }
    // A lone continuation byte is invalid too.
    assert!(Utf8Bytes::try_from_vec(vec![0x80]).is_err());
    // A truncated multi-byte encoding is invalid.
    assert!(Utf8Bytes::try_from_vec(vec![0xc3]).is_err());
}

#[test]
fn utf8_valid_bytes_accepted() {
    let ok = Utf8Bytes::try_from_vec("héllo".as_bytes().to_vec());
    match ok {
        Ok(u) => {
            assert_eq!(u.as_str(), "héllo");
            assert_eq!(u.len(), 6);
        }
        Err(_) => panic!("valid UTF-8 must be accepted"),
    }
}

#[test]
fn utf8_from_bytes_buffer() {
    let b = bytes::Bytes::from_static(b"abc");
    match Utf8Bytes::try_from_bytes(b) {
        Ok(u) => assert_eq!(u.as_str(), "abc"),
        Err(_) => panic!("valid UTF-8 must be accepted"),
    }
    let bad = bytes::Bytes::from_static(&[0xf8]);
    match Utf8Bytes::try_from_bytes(bad) {
        Err(b) => assert_eq!(b.as_ref(), &[0xf8][..]),
        Ok(_) => panic!("invalid UTF-8 must fail the conversion"),
    }
}

#[test]
fn utf8_from_validated_strings_always_succeeds() {
    let a = Utf8Bytes::from_string(String::from("snow ☃"));
    assert_eq!(a.as_str(), "snow ☃");
    let b = Utf8Bytes::from_str("plain");
    assert_eq!(b.as_str(), "plain");
    let c = Utf8Bytes::from_static("static ☃");
    assert_eq!(c.as_str(), "static ☃");
    let d = Utf8Bytes::from_static("");
    assert_eq!(d.as_str(), "");
    assert_eq!(d.len(), 0);
}

#[test]
fn utf8_into_bytes_round_trip() {
    let u = Utf8Bytes::from_str("round");
    let b = u.into_bytes();
    assert_eq!(b.as_ref(), b"round");
    let back = Utf8Bytes::try_from_bytes(b).expect("the same bytes are still valid");
    assert_eq!(back.as_str(), "round");
}

#[test]
fn ready_state_classification() {
    assert_eq!(ReadyState::classify(0), Some(ReadyState::Connecting));
    assert_eq!(ReadyState::classify(1), Some(ReadyState::Open));
    assert_eq!(ReadyState::classify(2), Some(ReadyState::Closing));
    assert_eq!(ReadyState::classify(3), Some(ReadyState::Closed));
    assert_eq!(ReadyState::classify(4), None);
    assert_eq!(ReadyState::classify(u16::MAX), None);
}

#[test]
fn utf8_validator_edge_cases() {
    let cases: &[&[u8]] = &[
        b"",
        b"plain ascii",
        "h\u{e9}llo \u{2603} \u{1f30d}".as_bytes(),
        &[0xc0, 0xaf],             // overlong two-byte encoding
        &[0xe0, 0x80, 0x80],       // overlong three-byte encoding
        &[0xf0, 0x80, 0x80, 0x80], // overlong four-byte encoding
        &[0xed, 0xa0, 0x80],       // the surrogate U+D800
        &[0xed, 0xbf, 0xbf],       // the surrogate U+DFFF
        &[0xf4, 0x8f, 0xbf, 0xbf], // the largest scalar, U+10FFFF
        &[0xf4, 0x90, 0x80, 0x80], // the first value past it
        &[0xe2, 0x82],             // truncated three-byte encoding
        &[0xf0, 0x9f, 0x8c],       // truncated four-byte encoding
        &[0xc3],                   // lone leading byte
        &[0x80],                   // stray continuation byte
        &[0xfe],                   // a byte no encoding uses
        &[0x7f],                   // boundary scalars of each width
        &[0xc2, 0x80],
        &[0xdf, 0xbf],
        &[0xe0, 0xa0, 0x80],
        &[0xed, 0x9f, 0xbf],
        &[0xee, 0x80, 0x80],
        &[0xef, 0xbf, 0xbf],
        &[0xf0, 0x90, 0x80, 0x80],
        &[0x41, 0xc3, 0xa9, 0xe2, 0x82, 0xac, 0xf0, 0x9f, 0x8c, 0x8d], // mixed widths
        &[0x41, 0xc3, 0xa9, 0xe2, 0x82, 0xac, 0xf0, 0x9f, 0x8c],       // same, truncated
    ];
    for bytes in cases {
        assert_eq!(
            is_valid_utf8(bytes),
            std::str::from_utf8(bytes).is_ok(),
            "disagreement on {:?}",
            bytes
        );
    }
}

#[test]
fn utf8_eq_str() {
    let u = Utf8Bytes::from_str("caf\u{e9}");
    assert!(u.eq_str("caf\u{e9}"));
    assert!(!u.eq_str("cafe"));
    assert!(!u.eq_str(""));
    assert!(Utf8Bytes::from_static("").eq_str(""));
}
