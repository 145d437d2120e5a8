use sdf_sonar::wire::{
    push_i32, push_u16, push_u32, push_u64, read_i32, read_u16, read_u32, read_u64,
};

#[test]
fn reads_are_little_endian() {
    let b: [u8; 8] = [0x01, 0x02, 0x03, 0x04, 0x05, 0x06, 0x07, 0x08];
    assert_eq!(read_u16(&b, 0), 0x0201);
    assert_eq!(read_u16(&b, 6), 0x0807);
    assert_eq!(read_u32(&b, 0), 0x0403_0201);
    assert_eq!(read_u32(&b, 4), 0x0807_0605);
    assert_eq!(read_u64(&b, 0), 0x0807_0605_0403_0201);
}

#[test]
fn reads_agree_with_std() {
    let b: [u8; 8] = [0xF0, 0x9A, 0x3C, 0x81, 0x00, 0xFF, 0x7E, 0xC4];
    assert_eq!(read_u16(&b, 1), u16::from_le_bytes([0x9A, 0x3C]));
    assert_eq!(read_u32(&b, 2), u32::from_le_bytes([0x3C, 0x81, 0x00, 0xFF]));
    assert_eq!(read_u64(&b, 0), u64::from_le_bytes(b));
    assert_eq!(read_i32(&b, 4), i32::from_le_bytes([0x00, 0xFF, 0x7E, 0xC4]));
}

#[test]
fn read_extremes() {
    let ones: [u8; 8] = [0xFF; 8];
    assert_eq!(read_u16(&ones, 0), u16::MAX);
    assert_eq!(read_u32(&ones, 0), u32::MAX);
    assert_eq!(read_u64(&ones, 0), u64::MAX);
    assert_eq!(read_i32(&ones, 0), -1);
    let lowest: [u8; 4] = [0x00, 0x00, 0x00, 0x80];
    assert_eq!(read_i32(&lowest, 0), i32::MIN);
    let highest: [u8; 4] = [0xFF, 0xFF, 0xFF, 0x7F];
    assert_eq!(read_i32(&highest, 0), i32::MAX);
}

#[test]
fn pushes_are_little_endian() {
    let mut out: Vec<u8> = vec![9];
    push_u16(&mut out, 0x0201);
    push_u32(&mut out, 0x0605_0403);
    push_u64(&mut out, 0x0E0D_0C0B_0A09_0807);
    push_i32(&mut out, -2);
    assert_eq!(
        out,
        vec![
            9, 0x01, 0x02, 0x03, 0x04, 0x05, 0x06, 0x07, 0x08, 0x09, 0x0A, 0x0B, 0x0C, 0x0D,
            0x0E, 0xFE, 0xFF, 0xFF, 0xFF
        ]
    );
}

#[test]
fn pushes_agree_with_std() {
    let mut out: Vec<u8> = Vec::new();
    push_u16(&mut out, 0xBEEF);
    push_u32(&mut out, 0xDEAD_BEEF);
    push_u64(&mut out, 0x0123_4567_89AB_CDEF);
    push_i32(&mut out, i32::MIN);
    push_i32(&mut out, i32::MAX);
    let mut want: Vec<u8> = Vec::new();
    want.extend_from_slice(&0xBEEFu16.to_le_bytes());
    want.extend_from_slice(&0xDEAD_BEEFu32.to_le_bytes());
    want.extend_from_slice(&0x0123_4567_89AB_CDEFu64.to_le_bytes());
    want.extend_from_slice(&i32::MIN.to_le_bytes());
    want.extend_from_slice(&i32::MAX.to_le_bytes());
    assert_eq!(out, want);
}

#[test]
fn written_values_read_back() {
    let mut out: Vec<u8> = Vec::new();
    push_u16(&mut out, 40_000);
    push_u32(&mut out, 3_000_000_000);
    push_u64(&mut out, 12_345_678_901_234_567_890);
    push_i32(&mut out, -123_456);
    assert_eq!(out.len(), 18);
    assert_eq!(read_u16(&out, 0), 40_000);
    assert_eq!(read_u32(&out, 2), 3_000_000_000);
    assert_eq!(read_u64(&out, 6), 12_345_678_901_234_567_890);
    assert_eq!(read_i32(&out, 14), -123_456);
}
