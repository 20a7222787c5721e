//! The value codec, tag by tag: exact bytes, round trips, the lenient
//! empty payload on a numeric value that does not parse, and the rejected
//! tags.

use exmebus_gateway::exme::{MyError, OwnDataSignalPacket};

fn packet_with_tag(tag: u8) -> OwnDataSignalPacket {
    let mut p = OwnDataSignalPacket::default();
    p.signal_view_type = tag;
    p
}

#[test]
fn tag1_unsigned_char_round_trip() {
    let mut p = packet_with_tag(1);
    let bytes = p.packdata("200").unwrap();
    assert_eq!(bytes, vec![200u8]);
    assert_eq!(u8::from_ne_bytes([bytes[0]]), 200u8);
}

#[test]
fn tag2_signed_char_round_trip() {
    let mut p = packet_with_tag(2);
    let bytes = p.packdata("-5").unwrap();
    assert_eq!(bytes, (-5i8).to_ne_bytes().to_vec());
    assert_eq!(i8::from_ne_bytes([bytes[0]]), -5i8);
}

#[test]
fn tag3_signed_short_round_trip() {
    let mut p = packet_with_tag(3);
    let bytes = p.packdata("-2").unwrap();
    assert_eq!(bytes, (-2i16).to_ne_bytes().to_vec());
    assert_eq!(i16::from_ne_bytes([bytes[0], bytes[1]]), -2i16);
}

#[test]
fn tag4_signed_long_round_trip() {
    let mut p = packet_with_tag(4);
    let bytes = p.packdata("-100000").unwrap();
    assert_eq!(bytes, (-100000i32).to_ne_bytes().to_vec());
    assert_eq!(
        i32::from_ne_bytes([bytes[0], bytes[1], bytes[2], bytes[3]]),
        -100000i32
    );
}

#[test]
fn tag5_unsigned_char_round_trip() {
    let mut p = packet_with_tag(5);
    let bytes = p.packdata("7").unwrap();
    assert_eq!(bytes, vec![7u8]);
}

#[test]
fn tag6_unsigned_short_round_trip() {
    let mut p = packet_with_tag(6);
    let bytes = p.packdata("65535").unwrap();
    assert_eq!(bytes, 65535u16.to_ne_bytes().to_vec());
    assert_eq!(u16::from_ne_bytes([bytes[0], bytes[1]]), 65535u16);
}

#[test]
fn tag6_with_plus_sign() {
    let mut p = packet_with_tag(6);
    let bytes = p.packdata("+5").unwrap();
    assert_eq!(bytes, 5u16.to_ne_bytes().to_vec());
}

#[test]
fn tag7_unsigned_long_round_trip() {
    let mut p = packet_with_tag(7);
    let bytes = p.packdata("4000000000").unwrap();
    assert_eq!(bytes, 4000000000u32.to_ne_bytes().to_vec());
    assert_eq!(
        u32::from_ne_bytes([bytes[0], bytes[1], bytes[2], bytes[3]]),
        4000000000u32
    );
}

#[test]
fn tag8_float_records_pending_text_and_round_trips_bits() {
    let mut p = packet_with_tag(8);
    let bytes = p.packdata("2.5").unwrap();
    assert!(bytes.is_empty());
    assert_eq!(p.pending_float_value().as_deref(), Some("2.5"));
    // The float bit pattern itself comes from outside the verified core.
    let bits = "2.5".parse::<f32>().ok().map(f32::to_bits);
    p.apply_float_bits(bits);
    assert!(p.pending_float_value().is_none());
    assert_eq!(p.data(), &2.5f32.to_ne_bytes().to_vec());
    let back = f32::from_bits(u32::from_ne_bytes([
        p.data()[0],
        p.data()[1],
        p.data()[2],
        p.data()[3],
    ]));
    assert_eq!(back.to_bits(), 2.5f32.to_bits());
}

#[test]
fn tag8_unparsable_float_leaves_empty_payload() {
    let mut p = packet_with_tag(8);
    p.packdata("fast").unwrap();
    let bits = "fast".parse::<f32>().ok().map(f32::to_bits);
    assert!(bits.is_none());
    p.apply_float_bits(bits);
    assert!(p.data().is_empty());
    assert!(p.pending_float_value().is_none());
}

#[test]
fn tag9_string_raw_bytes() {
    let mut p = packet_with_tag(9);
    let bytes = p.packdata("hello").unwrap();
    assert_eq!(bytes, b"hello".to_vec());
}

#[test]
fn tag9_keeps_non_ascii_utf8() {
    let mut p = packet_with_tag(9);
    let bytes = p.packdata("gr\u{fc}n").unwrap();
    assert_eq!(bytes, "gr\u{fc}n".as_bytes().to_vec());
}

#[test]
fn tag0_has_no_conversion() {
    let mut p = packet_with_tag(0);
    assert_eq!(p.packdata("7"), Err(MyError::ConversionNotDefined));
}

#[test]
fn unknown_tags_have_no_conversion() {
    for tag in [10u8, 11, 42, 255] {
        let mut p = packet_with_tag(tag);
        assert_eq!(p.packdata("7"), Err(MyError::ConversionNotDefined));
    }
}

#[test]
fn unparsable_number_yields_empty_payload() {
    let mut p = packet_with_tag(6);
    assert_eq!(p.packdata("abc").unwrap(), Vec::<u8>::new());
    assert_eq!(p.packdata("65536").unwrap(), Vec::<u8>::new());
    assert_eq!(p.packdata("-1").unwrap(), Vec::<u8>::new());
    assert_eq!(p.packdata("").unwrap(), Vec::<u8>::new());
    assert_eq!(p.packdata("1.5").unwrap(), Vec::<u8>::new());
}

#[test]
fn signed_bounds_match_the_types() {
    let mut p = packet_with_tag(2);
    assert_eq!(p.packdata("-128").unwrap(), vec![0x80u8]);
    assert_eq!(p.packdata("127").unwrap(), vec![0x7fu8]);
    assert_eq!(p.packdata("-129").unwrap(), Vec::<u8>::new());
    assert_eq!(p.packdata("128").unwrap(), Vec::<u8>::new());
}
