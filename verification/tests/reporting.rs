use ytune::frame::TransportKind;
use ytune::payload::{build_activity, build_command, is_activity_error_ack, prepare_report, prepare_report_with_nonce, ReportOutcome};
use ytune::supervisor::{invalidates_connection, ConnectionSlot, SupervisorAction};
use ytune::track::{Deduplicator, TrackSnapshot};

fn snapshot(
    title: Option<&str>,
    artist: Option<&str>,
    album_art: Option<&str>,
    duration_sec: Option<u64>,
) -> TrackSnapshot {
    TrackSnapshot {
        title: title.map(String::from),
        artist: artist.map(String::from),
        album_art: album_art.map(String::from),
        duration_sec,
    }
}

#[test]
fn activity_object_exact() {
    let t = snapshot(Some("Song A"), Some("Artist X"), Some("http://x/a.png"), Some(200));
    let a = build_activity(&t, 1000);
    let expected = "{\"assets\":{\"large_image\":\"http://x/a.png\",\"small_image\":\"ytune\",\"small_text\":\"ytune\"},\"buttons\":[{\"label\":\"ytune\",\"url\":\"https://github.com/yctwhy/ytune\"}],\"details\":\"Song A\",\"name\":\"ytune\",\"state\":\"by Artist X\",\"timestamps\":{\"end\":1200,\"start\":1000},\"type\":2}";
    assert_eq!(String::from_utf8(a).unwrap(), expected);
}

#[test]
fn activity_without_duration_has_no_end() {
    let t = snapshot(Some("Song A"), None, None, None);
    let a = String::from_utf8(build_activity(&t, 1000)).unwrap();
    assert!(a.contains("\"timestamps\":{\"start\":1000}"));
    assert!(a.contains("\"large_image\":null"));
    assert!(a.contains("\"state\":null"));
    assert!(a.contains("\"details\":\"Song A\""));
}

#[test]
fn activity_escapes_fields() {
    let t = snapshot(Some("A \"quoted\" song"), Some("back\\slash"), None, None);
    let a = String::from_utf8(build_activity(&t, 5)).unwrap();
    assert!(a.contains("\"details\":\"A \\\"quoted\\\" song\""));
    assert!(a.contains("\"state\":\"by back\\\\slash\""));
}

#[test]
fn command_wraps_activity_with_pid_and_nonce() {
    let t = snapshot(Some("Song A"), Some("Artist X"), None, Some(210));
    let c = build_command(&t, 1000, 4242, "nonce-1");
    let text = String::from_utf8(c).unwrap();
    let v: serde_json::Value = serde_json::from_str(&text).unwrap();
    assert_eq!(v["cmd"].as_str().unwrap(), "SET_ACTIVITY");
    assert_eq!(v["nonce"].as_str().unwrap(), "nonce-1");
    assert_eq!(v["args"]["pid"].as_u64().unwrap(), 4242);
    let act = &v["args"]["activity"];
    assert_eq!(act["timestamps"]["start"].as_u64().unwrap(), 1000);
    assert_eq!(act["timestamps"]["end"].as_u64().unwrap(), 1210);
    assert_eq!(act["details"].as_str().unwrap(), "Song A");
    assert_eq!(act["state"].as_str().unwrap(), "by Artist X");
    assert!(act["assets"]["large_image"].is_null());
    assert_eq!(act["type"].as_u64().unwrap(), 2);
}

#[test]
fn control_characters_survive_a_json_round_trip() {
    let t = snapshot(Some("a\tb\nc"), Some("d\u{1f}e"), None, None);
    let a = build_activity(&t, 1);
    let v: serde_json::Value = serde_json::from_slice(&a).unwrap();
    assert_eq!(v["details"].as_str().unwrap(), "a\tb\nc");
    assert_eq!(v["state"].as_str().unwrap(), "by d\u{1f}e");
}

#[test]
fn unicode_fields_survive_a_json_round_trip() {
    let t = snapshot(Some("caf\u{e9} \u{1f3b5}"), Some("na\u{ef}ve"), None, Some(10));
    let a = build_activity(&t, 1);
    let v: serde_json::Value = serde_json::from_slice(&a).unwrap();
    assert_eq!(v["details"].as_str().unwrap(), "caf\u{e9} \u{1f3b5}");
    assert_eq!(v["state"].as_str().unwrap(), "by na\u{ef}ve");
}

#[test]
fn report_is_skipped_when_title_and_artist_are_empty() {
    let t1 = snapshot(None, None, Some("http://x/a.png"), Some(100));
    assert!(matches!(prepare_report(&t1, 1000, 1), ReportOutcome::Nothing));
    let t2 = snapshot(Some(""), Some(""), Some("http://x/a.png"), Some(100));
    assert!(matches!(prepare_report(&t2, 1000, 1), ReportOutcome::Nothing));
    let t3 = snapshot(Some(""), None, None, None);
    assert!(matches!(prepare_report(&t3, 1000, 1), ReportOutcome::Nothing));
}

#[test]
fn report_frame_carries_the_command_and_a_fresh_nonce() {
    let t = snapshot(Some("Song A"), None, None, None);
    match prepare_report(&t, 1000, 77) {
        ReportOutcome::Send(f) => {
            assert_eq!(&f[0..4], &[1, 0, 0, 0]);
            let v: serde_json::Value = serde_json::from_slice(&f[8..]).unwrap();
            assert_eq!(v["cmd"].as_str().unwrap(), "SET_ACTIVITY");
            assert_eq!(v["args"]["pid"].as_u64().unwrap(), 77);
            assert!(v["nonce"].is_string());
            assert!(!v["nonce"].as_str().unwrap().is_empty());
        },
        _ => panic!("expected a frame to send"),
    }
}

#[test]
fn duration_change_recomputes_end_timestamp() {
    let mut dedup = Deduplicator::new();
    let t1 = snapshot(Some("Song A"), Some("Artist X"), Some("http://x/a.png"), Some(200));
    assert!(dedup.should_report(&t1));
    let t2 = snapshot(Some("Song A"), Some("Artist X"), Some("http://x/a.png"), Some(210));
    assert!(dedup.should_report(&t2));
    match prepare_report(&t2, 1000, 1) {
        ReportOutcome::Send(f) => {
            let v: serde_json::Value = serde_json::from_slice(&f[8..]).unwrap();
            assert_eq!(v["args"]["activity"]["timestamps"]["end"].as_u64().unwrap(), 1210);
            assert_eq!(v["args"]["activity"]["timestamps"]["start"].as_u64().unwrap(), 1000);
        },
        _ => panic!("expected a frame to send"),
    }
}

#[test]
fn identical_snapshot_is_deduplicated() {
    let mut dedup = Deduplicator::new();
    let t1 = snapshot(Some("Song A"), Some("Artist X"), Some("http://x/a.png"), Some(200));
    assert!(dedup.should_report(&t1));
    let t1_again = snapshot(Some("Song A"), Some("Artist X"), Some("http://x/a.png"), Some(200));
    assert!(!dedup.should_report(&t1_again));
}

#[test]
fn any_single_field_change_reports() {
    let mut dedup = Deduplicator::new();
    let base = snapshot(Some("T"), Some("A"), Some("U"), None);
    assert!(dedup.should_report(&base));
    assert!(dedup.should_report(&snapshot(Some("T"), Some("A"), Some("U"), Some(180))));
    assert!(dedup.should_report(&snapshot(Some("T2"), Some("A"), Some("U"), Some(180))));
    assert!(dedup.should_report(&snapshot(Some("T2"), None, Some("U"), Some(180))));
    assert!(dedup.should_report(&snapshot(Some("T2"), None, None, Some(180))));
    assert!(!dedup.should_report(&snapshot(Some("T2"), None, None, Some(180))));
}

#[test]
fn absent_and_empty_are_distinct_for_dedup() {
    let mut dedup = Deduplicator::new();
    assert!(dedup.should_report(&snapshot(Some(""), None, None, None)));
    assert!(dedup.should_report(&snapshot(None, None, None, None)));
}

#[test]
fn first_all_absent_snapshot_is_suppressed() {
    let mut dedup = Deduplicator::new();
    assert!(!dedup.should_report(&snapshot(None, None, None, None)));
}

#[test]
fn transport_error_empties_slot_and_schedules_one_reconnect() {
    let mut slot = ConnectionSlot::new();
    slot.install(42);
    assert_eq!(slot.acquire().map(|h| h.pid), Some(42));
    let a = slot.on_transport_error(TransportKind::BrokenPipe);
    assert_eq!(a, SupervisorAction::ScheduleReconnect);
    assert!(slot.acquire().is_none());
}

#[test]
fn non_invalidating_error_keeps_the_connection() {
    let mut slot = ConnectionSlot::new();
    slot.install(42);
    let a = slot.on_transport_error(TransportKind::Other);
    assert_eq!(a, SupervisorAction::NoAction);
    assert_eq!(slot.acquire().map(|h| h.pid), Some(42));
}

#[test]
fn error_kind_classification() {
    assert!(invalidates_connection(TransportKind::BrokenPipe));
    assert!(invalidates_connection(TransportKind::ConnectionReset));
    assert!(invalidates_connection(TransportKind::UnexpectedEof));
    assert!(!invalidates_connection(TransportKind::Other));
}

#[test]
fn empty_slot_drops_report_and_schedules_reconnect() {
    let slot = ConnectionSlot::new();
    let (h, a) = slot.acquire_for_report();
    assert!(h.is_none());
    assert_eq!(a, SupervisorAction::ScheduleReconnect);
    let (h2, a2) = slot.acquire_for_report();
    assert!(h2.is_none());
    assert_eq!(a2, SupervisorAction::ScheduleReconnect);
}

#[test]
fn report_frame_exact_with_given_nonce() {
    let t = snapshot(Some("T"), None, None, None);
    match prepare_report_with_nonce(&t, 9, 3, "n") {
        ReportOutcome::Send(f) => {
            let payload = "{\"args\":{\"activity\":{\"assets\":{\"large_image\":null,\"small_image\":\"ytune\",\"small_text\":\"ytune\"},\"buttons\":[{\"label\":\"ytune\",\"url\":\"https://github.com/yctwhy/ytune\"}],\"details\":\"T\",\"name\":\"ytune\",\"state\":null,\"timestamps\":{\"start\":9},\"type\":2},\"pid\":3},\"cmd\":\"SET_ACTIVITY\",\"nonce\":\"n\"}";
            let mut expected = vec![1, 0, 0, 0];
            expected.extend_from_slice(&(payload.len() as u32).to_le_bytes());
            expected.extend_from_slice(payload.as_bytes());
            assert_eq!(f, expected);
        },
        _ => panic!("expected a frame to send"),
    }
}

#[test]
fn error_ack_detection() {
    assert!(is_activity_error_ack("{\"cmd\":\"SET_ACTIVITY\",\"evt\":\"ERROR\",\"data\":{}}"));
    assert!(!is_activity_error_ack("{\"cmd\":\"SET_ACTIVITY\",\"data\":{}}"));
    assert!(!is_activity_error_ack("{\"evt\":\"ERROR\"}"));
}
