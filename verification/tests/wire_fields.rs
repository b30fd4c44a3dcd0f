use telemetry_frame::wire::{
    get_u16_le, get_u32_le, get_u64_le, put_bytes, put_i16_le, put_u16_le, put_u32_le, put_u64_le,
    put_u8,
};

#[test]
fn writers_append_little_endian() {
    let mut buf: Vec<u8> = vec![0xEE];
    put_u8(&mut buf, 0x01);
    put_u16_le(&mut buf, 0x0203);
    put_i16_le(&mut buf, -2);
    put_u32_le(&mut buf, 0x0405_0607);
    put_u64_le(&mut buf, 0x0809_0A0B_0C0D_0E0F);
    put_bytes(&mut buf, &[0x10, 0x11]);
    assert_eq!(
        buf,
        vec![
            0xEE, 0x01, 0x03, 0x02, 0xFE, 0xFF, 0x07, 0x06, 0x05, 0x04, 0x0F, 0x0E, 0x0D, 0x0C,
            0x0B, 0x0A, 0x09, 0x08, 0x10, 0x11,
        ]
    );
}

#[test]
fn writers_agree_with_the_integers_own_byte_order() {
    for x in [0u64, 1, 255, 256, 65_535, 65_536, 0xFFFF_FFFF, 0x1_0000_0000, u64::MAX] {
        let mut buf: Vec<u8> = Vec::new();
        put_u64_le(&mut buf, x);
        assert_eq!(buf, x.to_le_bytes().to_vec());
        let mut buf: Vec<u8> = Vec::new();
        put_u32_le(&mut buf, x as u32);
        assert_eq!(buf, (x as u32).to_le_bytes().to_vec());
        let mut buf: Vec<u8> = Vec::new();
        put_u16_le(&mut buf, x as u16);
        assert_eq!(buf, (x as u16).to_le_bytes().to_vec());
        let mut buf: Vec<u8> = Vec::new();
        put_i16_le(&mut buf, x as i16);
        assert_eq!(buf, (x as i16).to_le_bytes().to_vec());
    }
    for x in [i16::MIN, -300, -1, 0, 1, 300, i16::MAX] {
        let mut buf: Vec<u8> = Vec::new();
        put_i16_le(&mut buf, x);
        assert_eq!(buf, x.to_le_bytes().to_vec());
    }
}

#[test]
fn readers_give_back_what_was_written() {
    let mut buf: Vec<u8> = vec![0xEE, 0xEE, 0xEE];
    put_u16_le(&mut buf, 0xBEEF);
    put_u32_le(&mut buf, 0xDEAD_BEEF);
    put_u64_le(&mut buf, 0x0123_4567_89AB_CDEF);
    assert_eq!(get_u16_le(&buf, 3), 0xBEEF);
    assert_eq!(get_u32_le(&buf, 5), 0xDEAD_BEEF);
    assert_eq!(get_u64_le(&buf, 9), 0x0123_4567_89AB_CDEF);
    assert_eq!(get_u16_le(&[0xFF, 0xFF], 0), u16::MAX);
    assert_eq!(get_u32_le(&[0xFF; 4], 0), u32::MAX);
    assert_eq!(get_u64_le(&[0xFF; 8], 0), u64::MAX);
}
