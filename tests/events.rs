use whispo_input::{event_payload, listener_line, normalize, EventKind, RawEvent, Timestamp};

fn raw(kind: EventKind, name: Option<&str>, secs: u64, nanos: u32) -> RawEvent {
    RawEvent { kind, name: name.map(|n| n.to_string()), time: Timestamp { secs, nanos } }
}

fn data_keys(kind: EventKind) -> Vec<String> {
    let data: serde_json::Value = serde_json::from_str(&event_payload(&kind)).unwrap();
    let mut keys: Vec<String> = data.as_object().unwrap().keys().cloned().collect();
    keys.sort();
    keys
}

#[test]
fn key_press_line_round_trips() {
    let event = raw(EventKind::KeyPress("KeyA".to_string()), Some("a"), 1700000000, 123456789);
    let line = listener_line(event).unwrap();
    assert!(!line.contains('\n'));
    let record: serde_json::Value = serde_json::from_str(&line).unwrap();
    assert_eq!(record["event_type"], "KeyPress");
    assert_eq!(record["name"], "a");
    assert_eq!(record["time"]["secs_since_epoch"], 1700000000u64);
    assert_eq!(record["time"]["nanos_since_epoch"], 123456789u64);
    let data: serde_json::Value = serde_json::from_str(record["data"].as_str().unwrap()).unwrap();
    assert_eq!(data, serde_json::from_str::<serde_json::Value>("{\"key\":\"KeyA\"}").unwrap());
}

#[test]
fn key_press_line_exact_text() {
    let event = raw(EventKind::KeyPress("KeyA".to_string()), Some("a"), 5, 7);
    assert_eq!(
        listener_line(event).unwrap(),
        "{\"event_type\":\"KeyPress\",\"name\":\"a\",\"time\":{\"secs_since_epoch\":5,\"nanos_since_epoch\":7},\"data\":\"{\\\"key\\\":\\\"KeyA\\\"}\"}"
    );
}

#[test]
fn key_release_without_name_writes_null() {
    let event = raw(EventKind::KeyRelease("ShiftLeft".to_string()), None, 0, 0);
    let record: serde_json::Value = serde_json::from_str(&listener_line(event).unwrap()).unwrap();
    assert_eq!(record["event_type"], "KeyRelease");
    assert!(record["name"].is_null());
    assert_eq!(record["data"], "{\"key\":\"ShiftLeft\"}");
}

#[test]
fn name_with_quote_is_escaped() {
    let event = raw(EventKind::KeyPress("Quote".to_string()), Some("\""), 1, 2);
    let record: serde_json::Value = serde_json::from_str(&listener_line(event).unwrap()).unwrap();
    assert_eq!(record["name"], "\"");
}

#[test]
fn pointer_events_are_not_written() {
    let events = vec![
        raw(EventKind::MouseMove { x: "10.5".to_string(), y: "20".to_string() }, None, 1, 0),
        raw(EventKind::ButtonPress("Left".to_string()), None, 2, 0),
        raw(EventKind::ButtonRelease("Left".to_string()), None, 3, 0),
        raw(EventKind::Wheel { delta_x: 0, delta_y: -1 }, None, 4, 0),
    ];
    for event in events {
        assert!(listener_line(event).is_none());
    }
}

#[test]
fn normalize_tags_every_kind() {
    let cases = vec![
        (EventKind::KeyPress("KeyA".to_string()), "KeyPress"),
        (EventKind::KeyRelease("KeyA".to_string()), "KeyRelease"),
        (EventKind::ButtonPress("Left".to_string()), "ButtonPress"),
        (EventKind::ButtonRelease("Right".to_string()), "ButtonRelease"),
        (EventKind::MouseMove { x: "1".to_string(), y: "2".to_string() }, "MouseMove"),
        (EventKind::Wheel { delta_x: 1, delta_y: 2 }, "Wheel"),
    ];
    for (kind, tag) in cases {
        let record = normalize(raw(kind, Some("n"), 9, 8));
        assert_eq!(record.event_type, tag);
        assert_eq!(record.name, Some("n".to_string()));
        assert_eq!(record.time, Timestamp { secs: 9, nanos: 8 });
    }
}

#[test]
fn payload_keys_match_kind() {
    assert_eq!(data_keys(EventKind::KeyPress("KeyA".to_string())), vec!["key"]);
    assert_eq!(data_keys(EventKind::KeyRelease("KeyA".to_string())), vec!["key"]);
    assert_eq!(data_keys(EventKind::ButtonPress("Left".to_string())), vec!["key"]);
    assert_eq!(data_keys(EventKind::ButtonRelease("Left".to_string())), vec!["key"]);
    assert_eq!(
        data_keys(EventKind::MouseMove { x: "3.25".to_string(), y: "4".to_string() }),
        vec!["x", "y"]
    );
    assert_eq!(data_keys(EventKind::Wheel { delta_x: 1, delta_y: 2 }), vec!["delta_x", "delta_y"]);
}

#[test]
fn payload_texts_are_exact() {
    assert_eq!(event_payload(&EventKind::ButtonPress("Left".to_string())), "{\"key\":\"Left\"}");
    assert_eq!(
        event_payload(&EventKind::MouseMove { x: "3.25".to_string(), y: "-4.0".to_string() }),
        "{\"x\":3.25,\"y\":-4.0}"
    );
    assert_eq!(
        event_payload(&EventKind::Wheel { delta_x: -120, delta_y: 0 }),
        "{\"delta_x\":-120,\"delta_y\":0}"
    );
    assert_eq!(
        event_payload(&EventKind::Wheel { delta_x: i64::MIN, delta_y: i64::MAX }),
        "{\"delta_x\":-9223372036854775808,\"delta_y\":9223372036854775807}"
    );
}
