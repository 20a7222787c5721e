//! The event parser: arrays, single objects, the mandatory timestamp, the
//! field fallbacks and truncations, and malformed input.

use exmebus_gateway::exme::{read_event, to_exmebus_better, MyError, OwnDataSignalPacket};

#[test]
fn array_of_three_yields_three_packets() {
    let msg = r#"[
        {"type":6,"id":1,"ts":"10","val":"100"},
        {"type":1,"id":2,"ts":"20","val":"200"},
        {"type":9,"id":3,"ts":"30","val":"abc"}
    ]"#;
    let packets = to_exmebus_better(msg).unwrap();
    assert_eq!(packets.len(), 3);
    assert_eq!(packets[0].signal_number(), 1);
    assert_eq!(packets[0].milliseconds(), 10);
    assert_eq!(packets[0].data(), &100u16.to_ne_bytes().to_vec());
    assert_eq!(packets[1].signal_number(), 2);
    assert_eq!(packets[1].milliseconds(), 20);
    assert_eq!(packets[1].data(), &vec![200u8]);
    assert_eq!(packets[2].signal_number(), 3);
    assert_eq!(packets[2].milliseconds(), 30);
    assert_eq!(packets[2].data(), &b"abc".to_vec());
}

#[test]
fn bad_array_element_does_not_discard_the_batch() {
    let msg = r#"[
        {"type":6,"id":1,"ts":"10","val":"100"},
        {"type":6,"id":2,"val":"200"},
        {"type":6,"id":3,"ts":"30","val":"300"}
    ]"#;
    let packets = to_exmebus_better(msg).unwrap();
    assert_eq!(packets.len(), 2);
    assert_eq!(packets[0].signal_number(), 1);
    assert_eq!(packets[1].signal_number(), 3);
}

#[test]
fn non_object_array_elements_are_skipped() {
    let msg = r#"[5, {"type":6,"id":1,"ts":"10","val":"100"}, "x"]"#;
    let packets = to_exmebus_better(msg).unwrap();
    assert_eq!(packets.len(), 1);
    assert_eq!(packets[0].signal_number(), 1);
}

#[test]
fn unsupported_tag_in_array_is_skipped() {
    let msg = r#"[
        {"type":0,"id":1,"ts":"10","val":"100"},
        {"type":6,"id":2,"ts":"20","val":"200"}
    ]"#;
    let packets = to_exmebus_better(msg).unwrap();
    assert_eq!(packets.len(), 1);
    assert_eq!(packets[0].signal_number(), 2);
}

#[test]
fn object_missing_ts_is_not_valid() {
    let r = to_exmebus_better(r#"{"type":6,"id":42,"val":"7"}"#);
    assert_eq!(r.unwrap_err(), MyError::PreliminaryDataNotValid);
}

#[test]
fn object_with_unparsable_ts_is_not_valid() {
    let r = to_exmebus_better(r#"{"type":6,"id":42,"ts":"12x","val":"7"}"#);
    assert_eq!(r.unwrap_err(), MyError::PreliminaryDataNotValid);
    let r = to_exmebus_better(r#"{"type":6,"id":42,"ts":"","val":"7"}"#);
    assert_eq!(r.unwrap_err(), MyError::PreliminaryDataNotValid);
}

#[test]
fn non_string_ts_counts_as_missing() {
    let r = to_exmebus_better(r#"{"type":6,"id":42,"ts":1000,"val":"7"}"#);
    assert_eq!(r.unwrap_err(), MyError::PreliminaryDataNotValid);
}

#[test]
fn malformed_text_is_not_valid() {
    let r = to_exmebus_better("not json at all");
    assert_eq!(r.unwrap_err(), MyError::PreliminaryDataNotValid);
}

#[test]
fn scalar_and_null_are_not_valid() {
    assert_eq!(
        to_exmebus_better("5").unwrap_err(),
        MyError::PreliminaryDataNotValid
    );
    assert_eq!(
        to_exmebus_better("null").unwrap_err(),
        MyError::PreliminaryDataNotValid
    );
    assert_eq!(
        to_exmebus_better(r#""text""#).unwrap_err(),
        MyError::PreliminaryDataNotValid
    );
}

#[test]
fn empty_array_yields_no_packets() {
    let packets = to_exmebus_better("[]").unwrap();
    assert!(packets.is_empty());
}

#[test]
fn missing_val_keeps_the_record_with_default_payload() {
    // Only a missing timestamp aborts a record; a missing value string
    // leaves the payload at its default.
    let packets = to_exmebus_better(r#"{"type":6,"id":42,"ts":"1000"}"#).unwrap();
    assert_eq!(packets.len(), 1);
    assert_eq!(packets[0].signal_view_type, 6);
    assert_eq!(packets[0].signal_number(), 42);
    assert_eq!(packets[0].milliseconds(), 1000);
    assert!(packets[0].data().is_empty());
}

#[test]
fn non_string_val_counts_as_missing() {
    let packets = to_exmebus_better(r#"{"type":6,"id":42,"ts":"1000","val":7}"#).unwrap();
    assert_eq!(packets.len(), 1);
    assert!(packets[0].data().is_empty());
}

#[test]
fn missing_type_leaves_the_void_tag_and_fails_conversion() {
    let r = to_exmebus_better(r#"{"id":42,"ts":"1000","val":"7"}"#);
    assert_eq!(r.unwrap_err(), MyError::ConversionNotDefined);
}

#[test]
fn type_field_wins_over_dt() {
    let packets = to_exmebus_better(r#"{"type":2,"dt":6,"id":1,"ts":"0","val":"-3"}"#).unwrap();
    assert_eq!(packets[0].signal_view_type, 2);
    assert_eq!(packets[0].data(), &(-3i8).to_ne_bytes().to_vec());
}

#[test]
fn dt_field_alone_sets_the_tag() {
    let packets = to_exmebus_better(r#"{"dt":5,"id":1,"ts":"0","val":"9"}"#).unwrap();
    assert_eq!(packets[0].signal_view_type, 5);
}

#[test]
fn wide_type_and_id_are_truncated() {
    let packets = to_exmebus_better(r#"{"type":262,"id":70000,"ts":"0","val":"7"}"#).unwrap();
    assert_eq!(packets[0].signal_view_type, 6);
    assert_eq!(u32::from(packets[0].signal_number()), 70000u32 % 65536);
}

#[test]
fn defaults_survive_population() {
    let packets = to_exmebus_better(r#"{"type":6,"id":42,"ts":"1000","val":"7"}"#).unwrap();
    let p = &packets[0];
    assert_eq!(p.packet_id(), 21);
    assert_eq!(p.signal_group(), 100);
    assert_eq!(p.signal_sample_type(), 0);
    assert_eq!(p.packet_length(), 0);
    assert_eq!(p.sample_packet_length(), 0);
}

#[test]
fn timestamp_covers_the_whole_signed_range() {
    let packets = to_exmebus_better(
        r#"[{"type":1,"id":1,"ts":"-9223372036854775808","val":"1"},
            {"type":1,"id":2,"ts":"9223372036854775807","val":"1"}]"#,
    )
    .unwrap();
    assert_eq!(packets[0].milliseconds(), i64::MIN);
    assert_eq!(packets[1].milliseconds(), i64::MAX);
}

#[test]
fn val_to_datsignalpacket_populates_from_a_value() {
    let v: serde_json::Value =
        serde_json::from_str(r#"{"type":6,"id":42,"ts":"1000","val":"7"}"#).unwrap();
    let mut p = OwnDataSignalPacket::default();
    p.val_to_datsignalpacket(&v).unwrap();
    assert_eq!(p.signal_view_type, 6);
    assert_eq!(p.signal_number(), 42);
    assert_eq!(p.milliseconds(), 1000);
    assert_eq!(p.data(), &7u16.to_ne_bytes().to_vec());
}

#[test]
fn val_to_datsignalpacket_rejects_missing_ts() {
    let v: serde_json::Value = serde_json::from_str(r#"{"type":6,"id":42,"val":"7"}"#).unwrap();
    let mut p = OwnDataSignalPacket::default();
    assert_eq!(
        p.val_to_datsignalpacket(&v),
        Err(MyError::PreliminaryDataNotValid)
    );
}

#[test]
fn read_event_sees_only_well_typed_fields() {
    let v: serde_json::Value =
        serde_json::from_str(r#"{"type":"6","dt":2,"id":42,"ts":"1000"}"#).unwrap();
    let ev = read_event(&v);
    assert_eq!(ev.type_tag, None); // a string is not an integer
    assert_eq!(ev.dt_tag, Some(2));
    assert_eq!(ev.id, Some(42));
    assert_eq!(ev.ts.as_deref(), Some("1000"));
    assert_eq!(ev.val, None);
}
