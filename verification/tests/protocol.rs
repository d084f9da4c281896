use inputsync::codec::{
    decode_frame, decode_received, encode_frame, try_write_frame, write_frame, FrameError, MAX_PAYLOAD_SIZE,
};
use inputsync::error::Error;
use inputsync::header::{Header, MessageType, MAGIC, PROTOCOL_VERSION};
use inputsync::id::PeerId;
use inputsync::message::{Capabilities, Hello, Message};

/// The bincode payload of a `Hello` from the nil peer named "test": the
/// variant index, the UUID's 16 bytes, the name, the version and the six
/// capability flags.
fn hello_payload() -> Vec<u8> {
    bincode::serialize(&(0u32, [0u8; 16], "test", PROTOCOL_VERSION, (true, true, true, true, true, true))).unwrap()
}

/// The bincode payload of a `Ping`.
fn ping_payload(nonce: u64, timestamp_ms: u64) -> Vec<u8> {
    bincode::serialize(&(18u32, nonce, timestamp_ms)).unwrap()
}

#[test]
fn roundtrip_hello() {
    let msg = Message::Hello(Hello {
        peer_id: PeerId::nil(),
        peer_name: "test".to_string(),
        protocol_version: PROTOCOL_VERSION,
        capabilities: Capabilities::full(),
    });
    let payload = hello_payload();
    let bytes = encode_frame(msg.message_type().unwrap(), &payload).unwrap();
    let (decoded, consumed) = decode_frame(&bytes).unwrap().unwrap();
    assert_eq!(consumed, bytes.len());
    assert_eq!(Some(decoded.message_type), msg.message_type());
    assert_eq!(decoded.payload, payload);
}

#[test]
fn incomplete_returns_none() {
    let msg = Message::Ping { nonce: 42, timestamp_ms: 0 };
    let bytes = encode_frame(msg.message_type().unwrap(), &ping_payload(42, 0)).unwrap();
    // Truncate header
    assert!(decode_frame(&bytes[..4]).unwrap().is_none());
    // Truncate payload
    assert!(decode_frame(&bytes[..bytes.len() - 1]).unwrap().is_none());
}

#[test]
fn bad_magic_rejected() {
    let mut bytes = encode_frame(MessageType::Ping, &ping_payload(1, 0)).unwrap();
    bytes[0] = b'X';
    assert!(matches!(decode_frame(&bytes), Err(FrameError::BadMagic(_))));
}

#[test]
fn header_bytes_are_big_endian() {
    let h = Header::new(MessageType::Goodbye, 0x0102_0304);
    let bytes = h.encode();
    assert_eq!(bytes, [0x49, 0x53, 0x59, 0x4E, 0x00, 0x01, 0x00, 0x03, 0x01, 0x02, 0x03, 0x04]);
    let back = Header::decode(&bytes);
    assert_eq!(back.magic, MAGIC);
    assert_eq!(back.version, PROTOCOL_VERSION);
    assert_eq!(back.message_type, 0x0003);
    assert_eq!(back.length, 0x0102_0304);
}

#[test]
fn message_type_ids_roundtrip() {
    let all = [
        MessageType::Hello,
        MessageType::Welcome,
        MessageType::Goodbye,
        MessageType::MouseMove,
        MessageType::MouseButton,
        MessageType::MouseScroll,
        MessageType::KeyEvent,
        MessageType::ScreenEnter,
        MessageType::ScreenLeave,
        MessageType::ModifierSync,
        MessageType::ClipboardFormats,
        MessageType::ClipboardRequest,
        MessageType::ClipboardData,
        MessageType::FileOfferStart,
        MessageType::FileChunk,
        MessageType::FileAck,
        MessageType::FileTransferCancel,
        MessageType::Ping,
        MessageType::Pong,
        MessageType::Error,
    ];
    for t in all {
        assert_eq!(MessageType::from_u16(t.to_u16()), Some(t));
    }
    assert_eq!(MessageType::Hello.to_u16(), 0x0001);
    assert_eq!(MessageType::Error.to_u16(), 0x0F02);
    assert_eq!(MessageType::Ping.to_u16(), 0x0F00);
    assert_eq!(MessageType::from_u16(0x0000), None);
    assert_eq!(MessageType::from_u16(0x7777), None);
    assert_eq!(MessageType::from_u16(0x0104), None);
    assert_eq!(MessageType::from_u16(0xFFFF), None);
    assert_eq!(MessageType::from_u16(0x0112), Some(MessageType::ModifierSync));
    assert_eq!(MessageType::from_u16(0x0303), Some(MessageType::FileTransferCancel));
}

#[test]
fn relative_motion_has_no_wire_type() {
    assert_eq!(Message::MouseMoveRelative { dx: 3, dy: -4 }.message_type(), None);
    assert_eq!(Message::MouseMove { x: 3, y: 4 }.message_type(), Some(MessageType::MouseMove));
}

#[test]
fn unknown_type_and_version_rejected() {
    let mut bytes = encode_frame(MessageType::Ping, &ping_payload(1, 0)).unwrap();
    bytes[6] = 0x77;
    bytes[7] = 0x77;
    assert!(matches!(decode_frame(&bytes), Err(FrameError::UnknownMessageType(0x7777))));
    let mut bytes = encode_frame(MessageType::Ping, &ping_payload(1, 0)).unwrap();
    bytes[5] = 9;
    assert!(matches!(
        decode_frame(&bytes),
        Err(FrameError::UnsupportedVersion { local: 1, remote: 9 })
    ));
}

#[test]
fn oversized_payload_rejected() {
    let h = Header::new(MessageType::FileChunk, MAX_PAYLOAD_SIZE + 1);
    let bytes = h.encode();
    assert!(matches!(decode_frame(&bytes), Err(FrameError::PayloadTooLarge(n)) if n == MAX_PAYLOAD_SIZE + 1));
    let big = vec![0u8; MAX_PAYLOAD_SIZE as usize + 1];
    assert!(matches!(
        encode_frame(MessageType::FileChunk, &big),
        Err(FrameError::PayloadTooLarge(n)) if n == MAX_PAYLOAD_SIZE + 1
    ));
}

#[test]
fn frames_decode_one_at_a_time() {
    let a = encode_frame(MessageType::Ping, &ping_payload(1, 2)).unwrap();
    let b = encode_frame(MessageType::Pong, &ping_payload(3, 4)).unwrap();
    let mut both = a.clone();
    both.extend_from_slice(&b);
    let (first, n) = decode_frame(&both).unwrap().unwrap();
    assert_eq!(n, a.len());
    assert_eq!(first.message_type, MessageType::Ping);
    let (second, m) = decode_frame(&both[n..]).unwrap().unwrap();
    assert_eq!(m, b.len());
    assert_eq!(second.message_type, MessageType::Pong);
}

#[test]
fn write_frame_appends_the_same_bytes() {
    let payload = ping_payload(7, 8);
    let mut buf = bytes::BytesMut::new();
    buf.extend_from_slice(&[1, 2, 3]);
    write_frame(&mut buf, MessageType::Ping, &payload).unwrap();
    let mut expected = vec![1, 2, 3];
    expected.extend_from_slice(&encode_frame(MessageType::Ping, &payload).unwrap());
    assert_eq!(buf.to_vec(), expected);
}

#[test]
fn try_write_frame_appends_or_refuses() {
    let payload = ping_payload(7, 8);
    let mut buf = bytes::BytesMut::new();
    assert!(matches!(try_write_frame(&mut buf, MessageType::Ping, &payload), Some(Ok(()))));
    assert_eq!(buf.to_vec(), encode_frame(MessageType::Ping, &payload).unwrap());
    let big = vec![0u8; MAX_PAYLOAD_SIZE as usize + 1];
    let before = buf.to_vec();
    assert!(matches!(
        try_write_frame(&mut buf, MessageType::Ping, &big),
        Some(Err(FrameError::PayloadTooLarge(_)))
    ));
    assert_eq!(buf.to_vec(), before);
}

#[test]
fn frame_error_messages() {
    assert_eq!(FrameError::Incomplete { needed: 5 }.message(), "incomplete frame: need 5 more bytes");
    assert_eq!(FrameError::BadMagic([88, 83, 89, 78]).message(), "bad magic bytes: [88, 83, 89, 78]");
    assert_eq!(
        FrameError::UnsupportedVersion { local: 1, remote: 2 }.message(),
        "unsupported protocol version: local=1 remote=2"
    );
    assert_eq!(FrameError::UnknownMessageType(0x2a).message(), "unknown message type id 0x002a");
    assert_eq!(FrameError::PayloadTooLarge(70000000).message(), "payload too large: 70000000 > 67108864");
}

#[test]
fn received_frames_are_checked() {
    let payload = ping_payload(5, 6);
    let frame = encode_frame(MessageType::Ping, &payload).unwrap();
    let mut header = [0u8; 12];
    header.copy_from_slice(&frame[..12]);
    let f = decode_received(&header, &payload).unwrap();
    assert_eq!(f.message_type, MessageType::Ping);
    assert_eq!(f.payload, payload);
    let short = &payload[..payload.len() - 1];
    match decode_received(&header, short) {
        Err(Error::Protocol(m)) => assert_eq!(m, "decode produced no message"),
        other => panic!("unexpected {:?}", other),
    }
    header[0] = b'X';
    match decode_received(&header, &payload) {
        Err(Error::Protocol(m)) => assert_eq!(m, "decode: bad magic bytes: [88, 83, 89, 78]"),
        other => panic!("unexpected {:?}", other),
    }
}

#[test]
fn capabilities_negotiate_to_common_features() {
    let full = Capabilities::full();
    let text_only = Capabilities {
        clipboard_text: true,
        clipboard_html: false,
        clipboard_image: false,
        clipboard_files: false,
        file_transfer: false,
        zstd_compression: false,
    };
    assert_eq!(full.negotiate(&text_only), text_only);
    assert_eq!(text_only.negotiate(&full), text_only);
    assert_eq!(full.negotiate(&full), full);
}
