use wire::connection::Connection;
use wire::framing::Codec;
use wire::v2::{parse_frame, Error, Message, V2Codec, V2Framing, HEADER_SIZE};

/// One frame's bytes: msg_type, then the payload length as three
/// little-endian bytes, then the payload.
fn frame(msg_type: u8, payload: &[u8]) -> Vec<u8> {
    let len = payload.len() as u32;
    let mut f = vec![
        msg_type,
        (len & 0xff) as u8,
        ((len >> 8) & 0xff) as u8,
        ((len >> 16) & 0xff) as u8,
    ];
    f.extend_from_slice(payload);
    f
}

fn fresh() -> Connection<V2Framing> {
    Connection::new(V2Codec::default())
}

/// Fewer than a header's worth of bytes buffered: need more data, buffer
/// untouched byte for byte.
#[test]
fn decode_short_header_consumes_nothing() {
    let mut codec = V2Codec::default();
    let mut buf = bytes::BytesMut::new();
    buf.extend_from_slice(&[0x01, 0x02, 0x03]);
    let r = codec.decode(&mut buf);
    assert!(matches!(r, Ok(None)));
    assert_eq!(&buf[..], &[0x01, 0x02, 0x03]);
}

/// A complete header whose declared payload has not fully arrived: need more
/// data, buffer untouched.
#[test]
fn decode_short_payload_consumes_nothing() {
    let mut codec = V2Codec::default();
    let mut buf = bytes::BytesMut::new();
    // Declares a 5-byte payload, only 2 arrived.
    buf.extend_from_slice(&[0x01, 0x05, 0x00, 0x00, 0xaa, 0xbb]);
    let r = codec.decode(&mut buf);
    assert!(matches!(r, Ok(None)));
    assert_eq!(&buf[..], &[0x01, 0x05, 0x00, 0x00, 0xaa, 0xbb]);
}

/// A header declaring length L with exactly H+L bytes available: consumes
/// exactly H+L, returns the one message, leaves the rest intact.
#[test]
fn decode_exact_frame_and_remainder() {
    let mut codec = V2Codec::default();
    let mut buf = bytes::BytesMut::new();
    let f = frame(0x02, &[0x10, 0x20, 0x30]);
    assert_eq!(f.len(), HEADER_SIZE + 3);
    buf.extend_from_slice(&f);
    buf.extend_from_slice(&[0x0e, 0xff]); // start of the next frame
    let m: Message = codec.decode(&mut buf).unwrap().unwrap();
    assert_eq!(m.msg_type, 0x02);
    assert_eq!(m.payload, vec![0x10, 0x20, 0x30]);
    assert_eq!(&buf[..], &[0x0e, 0xff]);
}

/// An empty payload is a legal frame of exactly H bytes.
#[test]
fn decode_empty_payload() {
    let mut codec = V2Codec::default();
    let mut buf = bytes::BytesMut::new();
    buf.extend_from_slice(&frame(0x00, &[]));
    let m = codec.decode(&mut buf).unwrap().unwrap();
    assert_eq!(m.msg_type, 0x00);
    assert!(m.payload.is_empty());
    assert!(buf.is_empty());
}

/// The length field is read little-endian at offset one.
#[test]
fn length_field_is_little_endian() {
    let mut codec = V2Codec::default();
    let mut buf = bytes::BytesMut::new();
    let payload = vec![0xab; 0x0102];
    buf.extend_from_slice(&frame(0x03, &payload));
    let m = codec.decode(&mut buf).unwrap().unwrap();
    assert_eq!(m.payload.len(), 0x0102);
    assert!(buf.is_empty());
}

/// A fully-buffered frame whose parse fails yields the dialect's error; the
/// connection owning the codec is then done for.
#[test]
fn decode_unknown_message_type_is_fatal() {
    let mut codec = V2Codec::default();
    let mut buf = bytes::BytesMut::new();
    buf.extend_from_slice(&frame(0xff, &[0x01]));
    let r = codec.decode(&mut buf);
    match r {
        Err(Error::UnknownMessageType(t)) => assert_eq!(t, 0xff),
        _ => panic!("expected an unknown-message-type error"),
    }
}

/// The message parser alone: a known kind parses, an unknown kind is
/// rejected with its kind byte.
#[test]
fn parse_frame_known_and_unknown() {
    let ok = parse_frame(&frame(0x0e, &[0x61, 0x62])).unwrap();
    assert_eq!(ok.msg_type, 0x0e);
    assert_eq!(ok.payload, vec![0x61, 0x62]);

    let bad = parse_frame(&frame(0x0f, &[]));
    assert!(matches!(bad, Err(Error::UnknownMessageType(0x0f))));
}

/// Receive feeds arriving bytes in and yields one message per frame; a
/// partial frame yields nothing until its bytes arrive.
#[test]
fn receive_incremental_over_split_arrival() {
    let mut conn = fresh();
    let f = frame(0x01, &[0x11, 0x22, 0x33, 0x44]);
    let (a, b) = f.split_at(5);

    let r1 = conn.receive(&a.to_vec()).unwrap();
    assert!(r1.is_none());
    let r2 = conn.receive(&b.to_vec()).unwrap().unwrap();
    assert_eq!(r2.msg_type, 0x01);
    assert_eq!(r2.payload, vec![0x11, 0x22, 0x33, 0x44]);
}

/// Two frames buffered at once come out one per receive call.
#[test]
fn receive_one_message_per_call() {
    let mut conn = fresh();
    let mut bytes_in = frame(0x01, &[0xaa]);
    bytes_in.extend_from_slice(&frame(0x02, &[0xbb, 0xcc]));

    let m1 = conn.receive(&bytes_in).unwrap().unwrap();
    assert_eq!(m1.msg_type, 0x01);
    assert_eq!(m1.payload, vec![0xaa]);

    let m2 = conn.receive(&Vec::new()).unwrap().unwrap();
    assert_eq!(m2.msg_type, 0x02);
    assert_eq!(m2.payload, vec![0xbb, 0xcc]);

    let m3 = conn.receive(&Vec::new()).unwrap();
    assert!(m3.is_none());
}

/// Send copies a pre-built frame verbatim: what goes out is byte for byte
/// what was handed in, with no reserialization.
#[test]
fn send_reproduces_frame_bytes_exactly() {
    let mut conn = fresh();
    let f = frame(0x04, &[0xde, 0xad, 0xbe, 0xef]);
    conn.send(f.clone()).unwrap();
    assert_eq!(conn.take_outgoing(), f);
}

/// Sent frames queue up in order and draining empties the queue.
#[test]
fn send_queues_in_order() {
    let mut conn = fresh();
    let f1 = frame(0x01, &[0x01]);
    let f2 = frame(0x02, &[0x02, 0x03]);
    conn.send(f1.clone()).unwrap();
    conn.send(f2.clone()).unwrap();

    let mut expected = f1;
    expected.extend_from_slice(&f2);
    assert_eq!(conn.take_outgoing(), expected);
    assert!(conn.take_outgoing().is_empty());
}

/// Sending touches only the outbound side: buffered inbound bytes survive.
#[test]
fn send_leaves_inbound_buffer_alone() {
    let mut conn = fresh();
    let partial = vec![0x01, 0x02];
    assert!(conn.receive(&partial).unwrap().is_none());

    conn.send(frame(0x05, &[])).unwrap();
    let _ = conn.take_outgoing();

    // Completing the earlier frame still works: the header comes to
    // (type 0x01, length 2), so two payload bytes finish it.
    assert!(conn.receive(&vec![0x00, 0x00]).unwrap().is_none());
    let m = conn.receive(&vec![0xaa, 0xbb]).unwrap().unwrap();
    assert_eq!(m.msg_type, 0x01);
    assert_eq!(m.payload, vec![0xaa, 0xbb]);
}
