use max32660_hal::encoder::{encode_10bit, encode_7bit};

#[test]
fn encode_7bit_of_0x50() {
    assert_eq!(encode_7bit(0x50, false), 0xA0);
    assert_eq!(encode_7bit(0x50, true), 0xA1);
}

#[test]
fn encode_7bit_shifts_address_above_direction() {
    for a in 0u16..128 {
        for &read in &[false, true] {
            let d = if read { 1u8 } else { 0u8 };
            let byte = encode_7bit(a, read);
            assert_eq!(byte, ((a as u8) << 1) | d);
            assert_eq!(byte >> 1, a as u8);
            assert_eq!(byte & 1, d);
        }
    }
}

#[test]
fn encode_10bit_of_0x2a5() {
    let (b0, b1) = encode_10bit(0x2A5, true);
    assert_eq!(b0, 0xF5);
    assert_eq!(b1, 0x25);
    let (b0w, b1w) = encode_10bit(0x2A5, false);
    assert_eq!(b0w, 0xF4);
    assert_eq!(b1w, 0x25);
}

#[test]
fn encode_10bit_layout_for_all_addresses() {
    for a in 0u16..1024 {
        for &read in &[false, true] {
            let d = if read { 1u8 } else { 0u8 };
            let (b0, b1) = encode_10bit(a, read);
            // fixed 0b11110 prefix in the top five bits
            assert_eq!(b0 >> 3, 0x1E);
            // address bits 9 and 8 immediately above the direction bit
            assert_eq!((b0 >> 1) & 0x3, ((a >> 8) & 0x3) as u8);
            assert_eq!(b0 & 1, d);
            // low seven address bits verbatim
            assert_eq!(b1, (a & 0x7F) as u8);
        }
    }
}
