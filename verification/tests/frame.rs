//! The frame encoder: exact wire bytes, the length conventions, and the
//! end-to-end scenarios from event text to frame.

use exmebus_gateway::exme::to_exmebus_better;

#[test]
fn end_to_end_unsigned_short_event() {
    let packets = to_exmebus_better(r#"{"type":6,"id":42,"ts":"1000","val":"7"}"#).unwrap();
    assert_eq!(packets.len(), 1);
    let mut p = packets.into_iter().next().unwrap();
    assert_eq!(p.signal_view_type, 6);
    assert_eq!(p.signal_number(), 42);
    assert_eq!(p.milliseconds(), 1000);
    assert_eq!(p.data(), &7u16.to_ne_bytes().to_vec());

    let frame = p.exmebusify().unwrap();
    assert_eq!(frame.len(), 22);
    assert_eq!(u16::from_ne_bytes([frame[0], frame[1]]), 22); // packet_length
    assert_eq!(u16::from_ne_bytes([frame[2], frame[3]]), 21); // packet_id
    assert_eq!(u16::from_ne_bytes([frame[4], frame[5]]), 18); // sample_packet_length
    assert_eq!(frame[6], 0); // signal_sample_type
    assert_eq!(frame[7], 6); // signal_view_type
    assert_eq!(u16::from_ne_bytes([frame[8], frame[9]]), 42); // signal_number
    assert_eq!(u16::from_ne_bytes([frame[10], frame[11]]), 100); // signal_group
    let ms = i64::from_ne_bytes([
        frame[12], frame[13], frame[14], frame[15], frame[16], frame[17], frame[18], frame[19],
    ]);
    assert_eq!(ms, 1000);
    assert_eq!(&frame[20..], &7u16.to_ne_bytes());
}

#[test]
fn end_to_end_string_event() {
    let packets = to_exmebus_better(r#"{"type":9,"id":1,"ts":"5","val":"hello"}"#).unwrap();
    assert_eq!(packets.len(), 1);
    let mut p = packets.into_iter().next().unwrap();
    assert_eq!(p.data(), &b"hello".to_vec());

    let frame = p.exmebusify().unwrap();
    assert_eq!(frame.len(), 25);
    let packet_length = u16::from_ne_bytes([frame[0], frame[1]]);
    let sample_packet_length = u16::from_ne_bytes([frame[4], frame[5]]);
    assert_eq!(packet_length, 25);
    assert_eq!(sample_packet_length, packet_length - 4);
    assert_eq!(&frame[20..], b"hello");
}

#[test]
fn frame_is_header_plus_payload() {
    for val in ["7", "70", "", "hello world"] {
        let msg = format!(r#"{{"type":9,"id":1,"ts":"0","val":"{}"}}"#, val);
        let mut p = to_exmebus_better(&msg).unwrap().into_iter().next().unwrap();
        let payload_len = p.data().len();
        let frame = p.exmebusify().unwrap();
        assert_eq!(frame.len(), 20 + payload_len);
        assert_eq!(
            u16::from_ne_bytes([frame[0], frame[1]]) as usize,
            20 + payload_len
        );
        assert_eq!(
            u16::from_ne_bytes([frame[4], frame[5]]),
            u16::from_ne_bytes([frame[0], frame[1]]) - 4
        );
        assert_eq!(&frame[20..], &p.data()[..]);
    }
}

#[test]
fn negative_timestamp_is_twos_complement() {
    let packets = to_exmebus_better(r#"{"type":1,"id":3,"ts":"-7","val":"1"}"#).unwrap();
    let mut p = packets.into_iter().next().unwrap();
    assert_eq!(p.milliseconds(), -7);
    let frame = p.exmebusify().unwrap();
    let ms = i64::from_ne_bytes([
        frame[12], frame[13], frame[14], frame[15], frame[16], frame[17], frame[18], frame[19],
    ]);
    assert_eq!(ms, -7);
}

#[test]
fn length_fields_wrap_on_oversized_payload() {
    let big = "x".repeat(65530);
    let msg = format!(r#"{{"type":9,"id":1,"ts":"0","val":"{}"}}"#, big);
    let mut p = to_exmebus_better(&msg).unwrap().into_iter().next().unwrap();
    let frame = p.exmebusify().unwrap();
    assert_eq!(frame.len(), 20 + 65530);
    assert_eq!(
        u16::from_ne_bytes([frame[0], frame[1]]) as usize,
        (65530 + 20) % 65536
    );
}

#[test]
fn frame_matches_length_prefixed_serialization_after_splice() {
    // The collector's layout equals a generic length-prefixed
    // serialization of the record with the 8-byte prefix of the payload
    // vector spliced out.
    let packets = to_exmebus_better(r#"{"type":6,"id":42,"ts":"1000","val":"7"}"#).unwrap();
    let mut p = packets.into_iter().next().unwrap();
    let frame = p.exmebusify().unwrap();

    let record = (
        p.packet_length(),
        p.packet_id(),
        p.sample_packet_length(),
        p.signal_sample_type(),
        p.signal_view_type,
        p.signal_number(),
        p.signal_group(),
        p.milliseconds(),
        p.data().clone(),
    );
    let serialized = bincode::serialize(&record).unwrap();
    let spliced = [&serialized[0..20], &serialized[28..]].concat();
    assert_eq!(frame, spliced);
}
