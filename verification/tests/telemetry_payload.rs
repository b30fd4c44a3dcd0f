use telemetry_frame::telemetry::{build_telemetry_payload, TelemetrySample, PAYLOAD_LEN};

#[test]
fn payload_of_a_typical_sample_is_exact() {
    let p = build_telemetry_payload(1, 100, 0, 1, 250, 50);
    assert_eq!(
        p,
        vec![0x01, 0x00, 0x64, 0x00, 0x00, 0x00, 0x00, 0x00, 0x01, 0xFA, 0x00, 0x32]
    );
}

#[test]
fn payload_is_twelve_bytes_at_the_extremes() {
    assert_eq!(PAYLOAD_LEN, 12);
    assert_eq!(build_telemetry_payload(0, 0, 0, 0, 0, 0), vec![0u8; 12]);
    assert_eq!(
        build_telemetry_payload(u16::MAX, i16::MAX, u32::MAX, u8::MAX, i16::MAX, u8::MAX).len(),
        12
    );
    assert_eq!(
        build_telemetry_payload(u16::MAX, i16::MIN, u32::MAX, u8::MAX, i16::MIN, u8::MAX).len(),
        12
    );
}

#[test]
fn negative_fields_are_twos_complement() {
    let p = build_telemetry_payload(0xFFFF, -1, 0xFFFF_FFFF, 255, -32768, 255);
    assert_eq!(
        p,
        vec![0xFF, 0xFF, 0xFF, 0xFF, 0xFF, 0xFF, 0xFF, 0xFF, 0xFF, 0x00, 0x80, 0xFF]
    );
}

#[test]
fn fields_are_little_endian_in_declared_order() {
    let p = build_telemetry_payload(0x1234, -300, 49_999, 0, -5, 100);
    assert_eq!(
        p,
        vec![0x34, 0x12, 0xD4, 0xFE, 0x4F, 0xC3, 0x00, 0x00, 0x00, 0xFB, 0xFF, 0x64]
    );
}

#[test]
fn unexpected_lock_and_cpu_values_are_not_rejected() {
    let p = build_telemetry_payload(7, 0, 0, 2, 0, 101);
    assert_eq!(p[8], 2);
    assert_eq!(p[11], 101);
}

#[test]
fn sample_encodes_as_its_fields_do() {
    let s = TelemetrySample {
        node_id: 3,
        snr_x10: 123,
        ber_ppb: 4_567,
        lock: 1,
        temp_c_x10: 321,
        cpu_pct: 42,
    };
    assert_eq!(s.encode(), build_telemetry_payload(3, 123, 4_567, 1, 321, 42));
}

#[test]
fn encoding_matches_the_integers_own_byte_order() {
    let cases: [(u16, i16, u32, u8, i16, u8); 4] = [
        (1, 100, 0, 1, 250, 50),
        (5, 179, 49_999, 1, 419, 84),
        (65_535, -32_768, 4_294_967_295, 255, 32_767, 0),
        (256, -256, 65_536, 0, 255, 1),
    ];
    for (node_id, snr, ber, lock, temp, cpu) in cases {
        let mut expected: Vec<u8> = Vec::new();
        expected.extend_from_slice(&node_id.to_le_bytes());
        expected.extend_from_slice(&snr.to_le_bytes());
        expected.extend_from_slice(&ber.to_le_bytes());
        expected.push(lock);
        expected.extend_from_slice(&temp.to_le_bytes());
        expected.push(cpu);
        assert_eq!(build_telemetry_payload(node_id, snr, ber, lock, temp, cpu), expected);
    }
}
