use telemetry_frame::frame::{
    build_body, build_frame, seal, FrameError, MsgType, HEADER_LEN, MAGIC, MAX_PAYLOAD_LEN,
    TRAILER_LEN, VERSION,
};
use telemetry_frame::telemetry::build_telemetry_payload;

#[test]
fn empty_telemetry_frame_is_exact() {
    let frame = build_frame(MsgType::Telemetry, 0, 0, &[]).unwrap();
    let mut expected: Vec<u8> = vec![0x53, 0x53, 0x4D, 0x4E];
    expected.push(0x01);
    expected.push(0x01);
    expected.extend_from_slice(&[0x00, 0x00]);
    expected.extend_from_slice(&[0x00, 0x00, 0x00, 0x00]);
    expected.extend_from_slice(&[0u8; 8]);
    expected.extend_from_slice(&[0x00, 0x00]);
    let crc = crc32fast::hash(&expected);
    expected.extend_from_slice(&crc.to_le_bytes());
    assert_eq!(frame, expected);
    assert_eq!(frame.len(), HEADER_LEN + TRAILER_LEN);
    assert_eq!(&frame[frame.len() - 4..], &[0x7F, 0x89, 0xDB, 0x04]);
}

#[test]
fn constants_are_those_of_the_wire_format() {
    assert_eq!(MAGIC, 0x4E4D5353);
    assert_eq!(MAGIC.to_le_bytes(), [0x53, 0x53, 0x4D, 0x4E]);
    assert_eq!(VERSION, 1);
    assert_eq!(HEADER_LEN, 4 + 1 + 1 + 2 + 4 + 8 + 2);
    assert_eq!(TRAILER_LEN, 4);
    assert_eq!(MAX_PAYLOAD_LEN, 65_535);
}

#[test]
fn message_type_codes() {
    assert_eq!(MsgType::Telemetry.code(), 1);
    assert_eq!(MsgType::Command.code(), 2);
    assert_eq!(MsgType::from_code(1), Some(MsgType::Telemetry));
    assert_eq!(MsgType::from_code(2), Some(MsgType::Command));
    assert_eq!(MsgType::from_code(0), None);
    assert_eq!(MsgType::from_code(3), None);
    assert_eq!(MsgType::from_code(255), None);
}

#[test]
fn telemetry_frame_is_exact() {
    let payload = build_telemetry_payload(1, 100, 0, 1, 250, 50);
    let frame = build_frame(MsgType::Telemetry, 0x0102_0304, 0x1122_3344_5566_7788, &payload)
        .unwrap();
    let expected: Vec<u8> = vec![
        0x53, 0x53, 0x4D, 0x4E, 0x01, 0x01, 0x00, 0x00, 0x04, 0x03, 0x02, 0x01, 0x88, 0x77, 0x66,
        0x55, 0x44, 0x33, 0x22, 0x11, 0x0C, 0x00, 0x01, 0x00, 0x64, 0x00, 0x00, 0x00, 0x00, 0x00,
        0x01, 0xFA, 0x00, 0x32, 0x61, 0xA8, 0xC7, 0xED,
    ];
    assert_eq!(frame, expected);
}

#[test]
fn command_frame_with_largest_counters_is_exact() {
    let frame = build_frame(MsgType::Command, u32::MAX, u64::MAX, &[0xAA, 0xBB, 0xCC]).unwrap();
    let expected: Vec<u8> = vec![
        0x53, 0x53, 0x4D, 0x4E, 0x01, 0x02, 0x00, 0x00, 0xFF, 0xFF, 0xFF, 0xFF, 0xFF, 0xFF, 0xFF,
        0xFF, 0xFF, 0xFF, 0xFF, 0xFF, 0x03, 0x00, 0xAA, 0xBB, 0xCC, 0x0F, 0x94, 0xC4, 0x2D,
    ];
    assert_eq!(frame, expected);
}

#[test]
fn trailer_is_the_checksum_of_what_precedes_it() {
    let payloads: [Vec<u8>; 4] = [vec![], vec![0], vec![1, 2, 3, 4, 5], vec![0xFF; 300]];
    for (i, payload) in payloads.iter().enumerate() {
        let frame = build_frame(MsgType::Telemetry, i as u32, 1_700_000_000_000, payload).unwrap();
        let split = frame.len() - 4;
        let trailer = u32::from_le_bytes([
            frame[split],
            frame[split + 1],
            frame[split + 2],
            frame[split + 3],
        ]);
        assert_eq!(crc32fast::hash(&frame[..split]), trailer);
    }
}

#[test]
fn checksum_is_not_a_copy_of_the_input() {
    let frame = build_frame(MsgType::Telemetry, 0, 0, b"123456789").unwrap();
    let mut hasher = crc32fast::Hasher::new();
    hasher.update(&frame[..frame.len() - 4]);
    let crc = hasher.finalize();
    assert_eq!(&frame[frame.len() - 4..], &crc.to_le_bytes());
    assert_eq!(crc32fast::hash(b"123456789"), 0xCBF4_3926);
}

#[test]
fn oversized_payload_is_refused() {
    let payload = vec![0u8; 65_536];
    assert_eq!(
        build_frame(MsgType::Telemetry, 1, 2, &payload),
        Err(FrameError::OversizedPayload)
    );
    assert_eq!(build_body(MsgType::Command, 1, 2, &payload), Err(FrameError::OversizedPayload));
    let larger = vec![7u8; 100_000];
    assert_eq!(build_frame(MsgType::Command, 0, 0, &larger), Err(FrameError::OversizedPayload));
}

#[test]
fn largest_payload_is_framed() {
    let payload = vec![0u8; 65_535];
    let frame = build_frame(MsgType::Telemetry, 7, 1_700_000_000_000, &payload).unwrap();
    assert_eq!(frame.len(), 22 + 65_535 + 4);
    assert_eq!(&frame[20..22], &[0xFF, 0xFF]);
    assert_eq!(&frame[frame.len() - 4..], &[0xF5, 0x25, 0x2E, 0x29]);
}

#[test]
fn length_field_announces_the_payload() {
    let payload = vec![9u8; 0x0102];
    let frame = build_frame(MsgType::Telemetry, 0, 0, &payload).unwrap();
    assert_eq!(&frame[20..22], &[0x02, 0x01]);
    assert_eq!(&frame[22..22 + 0x0102], &payload[..]);
}

#[test]
fn body_and_seal_make_the_frame() {
    let payload = [1u8, 2, 3];
    let body = build_body(MsgType::Telemetry, 5, 6, &payload).unwrap();
    assert_eq!(body.len(), 25);
    let crc = crc32fast::hash(&body);
    let frame = seal(body.clone(), crc);
    assert_eq!(frame, build_frame(MsgType::Telemetry, 5, 6, &payload).unwrap());
    let other = seal(body, 0x0A0B_0C0D);
    assert_eq!(&other[25..], &[0x0D, 0x0C, 0x0B, 0x0A]);
}

#[test]
fn building_is_repeatable() {
    let a = build_frame(MsgType::Telemetry, 3, 4, &[5, 6]).unwrap();
    let b = build_frame(MsgType::Telemetry, 3, 4, &[5, 6]).unwrap();
    assert_eq!(a, b);
}
