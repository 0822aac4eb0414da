use rm3100::packet::Packet;
use rm3100::packet::three_bytes_to_i32;

#[test]
fn sign_extension_negative_extreme() {
    assert_eq!(three_bytes_to_i32(&[0x80, 0x00, 0x00]), -8388608);
}

#[test]
fn sign_extension_positive_extreme() {
    assert_eq!(three_bytes_to_i32(&[0x7F, 0xFF, 0xFF]), 8388607);
}

#[test]
fn sign_extension_small_positive() {
    assert_eq!(three_bytes_to_i32(&[0x00, 0x00, 0x01]), 1);
}

#[test]
fn sign_extension_minus_one() {
    assert_eq!(three_bytes_to_i32(&[0xFF, 0xFF, 0xFF]), -1);
}

#[test]
fn word_round_trip() {
    for value in [0u16, 1, 0x00C8, 0x0102, 0xABCD, 0xFFFF] {
        let packet = Packet::<3>::from_u16(value);
        assert_eq!(packet.to_u16(), value);
    }
}

#[test]
fn word_encoding_is_big_endian() {
    let packet = Packet::<3>::from_u16(0x01C8);
    assert_eq!(packet.0, [0x00, 0x01, 0xC8]);
}

#[test]
fn byte_round_trip() {
    let packet = Packet::<2>::from_u8(0xA5);
    assert_eq!(packet.0, [0x00, 0xA5]);
    assert_eq!(packet.to_u8(), 0xA5);
}

#[test]
fn u32_round_trip_on_low_24_bits() {
    let packet = Packet::<4>::from_u32(0x00ABCDEF);
    assert_eq!(packet.0, [0x00, 0xAB, 0xCD, 0xEF]);
    assert_eq!(packet.to_u32(), 0x00ABCDEF);
    let truncated = Packet::<4>::from_u32(0xFFABCDEF);
    assert_eq!(truncated.to_u32(), 0x00ABCDEF);
}

#[test]
fn packet_to_i32_sign_extends() {
    let packet = Packet([0x00, 0x80, 0x00, 0x01]);
    assert_eq!(packet.to_i32(), -8388607);
}

#[test]
fn triple_word_encoding() {
    let packet = Packet::<7>::from_u16x3([0x0102, 0x0304, 0x0506]);
    assert_eq!(packet.0, [0x00, 0x01, 0x02, 0x03, 0x04, 0x05, 0x06]);
}

#[test]
fn triple_sample_decoding() {
    let packet = Packet([0x00, 0x00, 0x00, 0x01, 0x80, 0x00, 0x00, 0x7F, 0xFF, 0xFF]);
    assert_eq!(packet.to_i32x3(), [1, -8388608, 8388607]);
}

#[test]
fn address_sets_first_byte_only() {
    let mut packet = Packet::<3>::from_u16(0x0102);
    packet.address(0xB6);
    assert_eq!(packet.0, [0xB6, 0x01, 0x02]);
}

#[test]
fn default_packet_is_zeroed() {
    let packet = Packet::<4>::default();
    assert_eq!(packet.0, [0x00, 0x00, 0x00, 0x00]);
}
