use grsql::record::{is_zero, now, timestamp_from, Data, WireRecord};

fn sample(id: i32, created: i32, updated: i32) -> Data {
    Data {
        id,
        name: "info".to_string(),
        mime: "text/file".to_string(),
        created,
        updated,
        content: vec![1, 2, 3],
    }
}

#[test]
fn new_record_is_empty_plain_text() {
    let d = Data::new_at(1234);
    assert_eq!(d.id, 0);
    assert_eq!(d.name, "");
    assert_eq!(d.mime, "text/plain");
    assert_eq!(d.created, 1234);
    assert_eq!(d.updated, 1234);
    assert!(d.content.is_empty());
}

#[test]
fn new_record_uses_one_clock_reading() {
    let d = Data::new();
    assert_eq!(d.id, 0);
    assert_eq!(d.mime, "text/plain");
    assert_eq!(d.created, d.updated);
    assert!(d.created > 0);
}

#[test]
fn clock_reads_after_the_epoch() {
    assert!(now() > 1_600_000_000);
}

#[test]
fn is_zero_only_for_zero() {
    assert!(is_zero(&0));
    assert!(!is_zero(&1));
    assert!(!is_zero(&-1));
}

#[test]
fn normalize_fills_zero_timestamps_only() {
    let mut d = sample(5, 0, 77);
    d.normalize_at(1000);
    assert_eq!(d, sample(5, 1000, 77));
    let mut e = sample(5, 12, 0);
    e.normalize_at(1000);
    assert_eq!(e, sample(5, 12, 1000));
}

#[test]
fn normalize_twice_is_normalize_once() {
    let mut d = sample(5, 0, 0);
    d.normalize_at(1000);
    let once = d.clone();
    d.normalize_at(2000);
    assert_eq!(d, once);
    d.normalize();
    assert_eq!(d, once);
}

#[test]
fn validate_accepts_a_complete_record() {
    let mut d = sample(1, 10, 20);
    assert!(d.validate());
    assert_eq!(d, sample(1, 10, 20));
    assert!(d.is_valid());
}

#[test]
fn validate_fills_timestamps_from_the_clock() {
    let mut d = sample(1, 0, 0);
    assert!(d.validate());
    assert!(d.created > 0);
    assert!(d.updated > 0);
    assert_eq!(d.id, 1);
    assert_eq!(d.content, vec![1, 2, 3]);
}

#[test]
fn validate_rejects_each_missing_part() {
    let mut no_id = sample(0, 1, 1);
    assert!(!no_id.validate_at(9));
    let mut no_name = sample(1, 1, 1);
    no_name.name = String::new();
    assert!(!no_name.validate_at(9));
    let mut no_mime = sample(1, 1, 1);
    no_mime.mime = String::new();
    assert!(!no_mime.validate_at(9));
    let mut no_content = sample(1, 1, 1);
    no_content.content = Vec::new();
    assert!(!no_content.validate_at(9));
    assert!(!Data::new_at(5).is_valid());
}

#[test]
fn wire_record_without_optionals_gets_defaults() {
    let w = WireRecord {
        id: None,
        name: "info".to_string(),
        mime: "text/file".to_string(),
        created: None,
        updated: Some(44),
        content: vec![1, 2, 3],
    };
    assert_eq!(Data::from_wire_at(w, 900), sample(0, 900, 44));
}

#[test]
fn wire_record_with_all_fields_ignores_the_clock() {
    let w = WireRecord {
        id: Some(3),
        name: "info".to_string(),
        mime: "text/file".to_string(),
        created: Some(10),
        updated: Some(20),
        content: vec![1, 2, 3],
    };
    assert_eq!(Data::from_wire(w), sample(3, 10, 20));
}

#[test]
fn record_to_wire_drops_zero_fields() {
    let w = sample(0, 0, 7).into_wire();
    assert_eq!(w.id, None);
    assert_eq!(w.created, None);
    assert_eq!(w.updated, Some(7));
    assert_eq!(w.name, "info");
    assert_eq!(w.mime, "text/file");
    assert_eq!(w.content, vec![1, 2, 3]);
    let full = sample(4, 5, 6).into_wire();
    assert_eq!(full.id, Some(4));
    assert_eq!(full.created, Some(5));
    assert_eq!(full.updated, Some(6));
}

#[test]
fn wire_round_trip_normalizes() {
    let d = sample(4, 0, 6);
    let back = Data::from_wire_at(d.into_wire(), 500);
    assert_eq!(back, sample(4, 500, 6));
}

#[test]
fn timestamp_is_the_seconds_while_they_fit() {
    assert_eq!(timestamp_from(Some(0)), 0);
    assert_eq!(timestamp_from(Some(1_700_000_000)), 1_700_000_000);
    assert_eq!(timestamp_from(Some(2_147_483_647)), i32::MAX);
}

#[test]
fn timestamp_before_the_epoch_is_zero() {
    assert_eq!(timestamp_from(None), 0);
}

#[test]
fn timestamp_wraps_beyond_31_bits() {
    assert_eq!(timestamp_from(Some(2_147_483_648)), i32::MIN);
    assert_eq!(timestamp_from(Some(4_294_967_295)), -1);
    assert_eq!(timestamp_from(Some(4_294_967_301)), 5);
}

#[test]
fn wire_zero_timestamp_is_unset() {
    let w = WireRecord {
        id: Some(0),
        name: "info".to_string(),
        mime: "text/file".to_string(),
        created: Some(0),
        updated: Some(44),
        content: vec![1, 2, 3],
    };
    assert_eq!(Data::from_wire_at(w.clone(), 900), sample(0, 900, 44));
    let both = WireRecord { updated: Some(0), ..w };
    assert_eq!(Data::from_wire_at(both.clone(), 900), sample(0, 900, 900));
    let by_clock = Data::from_wire(both);
    assert!(by_clock.created > 0);
    assert!(by_clock.updated > 0);
    assert_eq!(by_clock.created, by_clock.updated);
}

#[test]
fn wire_zero_and_absent_timestamps_agree() {
    let absent = WireRecord {
        id: None,
        name: "info".to_string(),
        mime: "text/file".to_string(),
        created: None,
        updated: None,
        content: vec![1, 2, 3],
    };
    let zero = WireRecord { created: Some(0), updated: Some(0), ..absent.clone() };
    assert_eq!(Data::from_wire_at(absent, 77), Data::from_wire_at(zero, 77));
}
