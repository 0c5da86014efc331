use presencehub::protocol::{Frame, Opcode, ProtocolError, MAX_FRAME_PAYLOAD_LEN};

#[test]
fn frame_encode_decode_roundtrip() {
    let payload = b"hello world".to_vec();
    let frame = Frame::new(Opcode::Frame, payload.clone());
    let encoded = frame.encode();
    let decoded = Frame::decode(&encoded).unwrap();
    assert_eq!(decoded.opcode, Opcode::Frame);
    assert_eq!(decoded.payload, payload);
}

#[test]
fn frame_decode_too_short() {
    let result = Frame::decode(&[0, 0, 0, 0]);
    assert!(result.is_err());
}

#[test]
fn frame_decode_rejects_oversized_payload() {
    // A header claiming a payload larger than the cap must be rejected
    // as FrameTooLarge even though no payload bytes were supplied.
    let mut header = [0u8; 8];
    header[0] = 1; // opcode Frame
    let big = (MAX_FRAME_PAYLOAD_LEN + 1) as u32;
    header[4..8].copy_from_slice(&big.to_le_bytes());

    let err = Frame::decode(&header).unwrap_err();
    assert!(
        matches!(err, ProtocolError::FrameTooLarge { .. }),
        "oversized claim should fail with FrameTooLarge: {err:?}"
    );
}

#[test]
fn frame_decode_accepts_payload_at_limit() {
    // A payload of exactly the maximum length is accepted; only lengths
    // above the cap are rejected.
    let payload = vec![0u8; MAX_FRAME_PAYLOAD_LEN];
    let frame = Frame::new(Opcode::Frame, payload);
    let encoded = frame.encode();
    let decoded = Frame::decode(&encoded).unwrap();
    assert_eq!(decoded.payload.len(), MAX_FRAME_PAYLOAD_LEN);
}

#[test]
fn opcode_to_u32() {
    assert_eq!(Opcode::Handshake.to_u32(), 0);
    assert_eq!(Opcode::Frame.to_u32(), 1);
    assert_eq!(Opcode::Close.to_u32(), 2);
    assert_eq!(Opcode::Ping.to_u32(), 3);
    assert_eq!(Opcode::Pong.to_u32(), 4);
}

#[test]
fn frame_decode_maps_all_protocol_opcodes() {
    for (opcode, value) in [
        (Opcode::Handshake, 0u32),
        (Opcode::Frame, 1),
        (Opcode::Close, 2),
        (Opcode::Ping, 3),
        (Opcode::Pong, 4),
    ] {
        let frame = Frame::new(opcode, vec![]);
        let decoded = Frame::decode(&frame.encode()).unwrap();
        assert_eq!(
            decoded.opcode, opcode,
            "value {} should decode to {:?}",
            value, opcode
        );
    }
}

#[test]
fn frame_encode_writes_opcode_and_length_le() {
    let frame = Frame::new(Opcode::Frame, vec![0x01, 0x02, 0x03]);
    let encoded = frame.encode();
    assert_eq!(encoded.len(), 8 + 3);
    // opcode (u32 LE) == 1
    assert_eq!(
        u32::from_le_bytes([encoded[0], encoded[1], encoded[2], encoded[3]]),
        1
    );
    // length (u32 LE) == 3
    assert_eq!(
        u32::from_le_bytes([encoded[4], encoded[5], encoded[6], encoded[7]]),
        3
    );
}


#[test]
fn frame_decode_reports_incomplete_and_unknown_opcode() {
    let mut data = Frame::new(Opcode::Ping, vec![1, 2, 3]).encode();
    data.pop();
    assert!(matches!(Frame::decode(&data), Err(ProtocolError::FrameIncomplete)));
    let mut unknown = Frame::new(Opcode::Frame, vec![]).encode();
    unknown[0] = 9;
    assert!(matches!(Frame::decode(&unknown), Err(ProtocolError::UnknownOpcode(9))));
    let mut header = [0u8; 8];
    header[4..8].copy_from_slice(&((MAX_FRAME_PAYLOAD_LEN + 1) as u32).to_le_bytes());
    match Frame::decode(&header) {
        Err(ProtocolError::FrameTooLarge { length, max }) => {
            assert_eq!(length, MAX_FRAME_PAYLOAD_LEN + 1);
            assert_eq!(max, MAX_FRAME_PAYLOAD_LEN);
        }
        other => panic!("unexpected {:?}", other),
    }
}

#[test]
fn opcode_from_u32_inverts_to_u32() {
    for v in 0u32..5 {
        assert_eq!(Opcode::from_u32(v).unwrap().to_u32(), v);
    }
    assert!(Opcode::from_u32(5).is_none());
}

#[test]
fn frame_decode_ignores_bytes_after_the_payload() {
    let mut data = Frame::new(Opcode::Close, vec![7]).encode();
    data.extend_from_slice(&[9, 9]);
    let frame = Frame::decode(&data).unwrap();
    assert_eq!(frame.opcode, Opcode::Close);
    assert_eq!(frame.payload, vec![7]);
}
