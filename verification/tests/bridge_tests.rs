use verifier_server::bridge::{
    inbound_step, outbound_step, DuplexBuffer, Frame, OutboundAction, RelayAction,
};

#[test]
fn inbound_binary_frames_forward_payload_unchanged() {
    let payload: Vec<u8> = vec![0xDE, 0xAD, 0xBE, 0xEF];
    match inbound_step(Frame::Binary(payload.clone())) {
        RelayAction::Forward(bytes) => assert_eq!(bytes, payload),
        other => panic!("expected forward, got {other:?}"),
    }
}

#[test]
fn inbound_close_and_error_stop_other_frames_ignored() {
    assert!(matches!(inbound_step(Frame::Close), RelayAction::Stop));
    assert!(matches!(inbound_step(Frame::Error), RelayAction::Stop));
    assert!(matches!(inbound_step(Frame::Other), RelayAction::Ignore));
}

#[test]
fn outbound_chunk_becomes_one_frame_eof_stops() {
    let chunk: Vec<u8> = vec![1, 2, 3];
    match outbound_step(chunk.clone()) {
        OutboundAction::Send(bytes) => assert_eq!(bytes, chunk),
        OutboundAction::Stop => panic!("expected send"),
    }
    assert!(matches!(outbound_step(Vec::new()), OutboundAction::Stop));
}

#[test]
fn single_byte_roundtrip() {
    let mut buf = DuplexBuffer::new(1 << 20);
    assert_eq!(buf.write(&[0x42]), 1);
    assert_eq!(buf.read(16), vec![0x42]);
    assert_eq!(buf.read(16), Vec::<u8>::new());
}

#[test]
fn bytes_arrive_in_order_across_chunked_reads() {
    let mut buf = DuplexBuffer::new(64);
    let data: Vec<u8> = (0u8..=63).collect();
    assert_eq!(buf.write(&data), 64);
    let mut seen: Vec<u8> = Vec::new();
    loop {
        let chunk = buf.read(7);
        if chunk.is_empty() {
            break;
        }
        seen.extend_from_slice(&chunk);
    }
    assert_eq!(seen, data);
}

#[test]
fn writer_is_held_back_at_capacity() {
    let mut buf = DuplexBuffer::new(8);
    let data: Vec<u8> = (1u8..=12).collect();
    let accepted = buf.write(&data);
    assert_eq!(accepted, 8);
    assert_eq!(buf.free_space(), 0);
    assert_eq!(buf.write(&data[accepted..]), 0);
    let first = buf.read(8);
    assert_eq!(first, (1u8..=8).collect::<Vec<u8>>());
    assert_eq!(buf.write(&data[accepted..]), 4);
    assert_eq!(buf.read(8), (9u8..=12).collect::<Vec<u8>>());
}

#[test]
fn payload_beyond_capacity_arrives_intact_under_backpressure() {
    let capacity: usize = 1 << 20;
    let mut buf = DuplexBuffer::engine_sized();
    let payload: Vec<u8> = (0..capacity + 4096).map(|i| (i % 251) as u8).collect();
    let mut written: usize = 0;
    let mut seen: Vec<u8> = Vec::new();
    while written < payload.len() {
        written += buf.write(&payload[written..]);
        let chunk = buf.read(8192);
        seen.extend_from_slice(&chunk);
    }
    loop {
        let chunk = buf.read(8192);
        if chunk.is_empty() {
            break;
        }
        seen.extend_from_slice(&chunk);
    }
    assert_eq!(seen, payload);
}
