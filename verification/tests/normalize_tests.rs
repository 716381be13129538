use window_recorder::events::{WindowChangeKind, WindowEvent};
use window_recorder::normalize::{create_time_entry, RawEvent, Rect, WindowProperty};
use window_recorder::timefmt::Timestamp;

fn ts() -> Timestamp {
    Timestamp { year: 2020, month: 3, day: 7, hour: 9, minute: 5, second: 2 }
}

fn raw(change: WindowChangeKind, name: Option<&str>, class: Option<&str>, rect: Rect) -> RawEvent {
    RawEvent {
        change,
        window_name: name.map(|n| n.to_string()),
        window_class_properties: class.map(|c| vec![(WindowProperty::Class, c.to_string())]),
        window_rect: rect,
    }
}

#[test]
fn known_kinds_map_to_documented_canonical_kinds() {
    let table = [
        (WindowChangeKind::New, WindowEvent::Open),
        (WindowChangeKind::Close, WindowEvent::Close),
        (WindowChangeKind::Focus, WindowEvent::Focus),
        (WindowChangeKind::Title, WindowEvent::TitleChange),
        (WindowChangeKind::FullscreenMode, WindowEvent::Move),
        (WindowChangeKind::Move, WindowEvent::Move),
        (WindowChangeKind::Floating, WindowEvent::Move),
        (WindowChangeKind::Urgent, WindowEvent::Other),
        (WindowChangeKind::Unknown, WindowEvent::Other),
    ];
    for (change, expected) in table {
        assert_eq!(WindowEvent::from_change_kind(change), expected);
        let entry = create_time_entry(&raw(change, None, None, Rect { x: 0, y: 0, width: 1, height: 1 }), ts());
        assert_eq!(entry.event_source, expected);
    }
}

#[test]
fn kind_labels_are_lowercase_symbolic() {
    assert_eq!(WindowEvent::Open.to_string(), "open");
    assert_eq!(WindowEvent::Close.to_string(), "close");
    assert_eq!(WindowEvent::Move.to_string(), "move");
    assert_eq!(WindowEvent::Focus.to_string(), "focus");
    assert_eq!(WindowEvent::TitleChange.to_string(), "title_change");
    assert_eq!(WindowEvent::Other.to_string(), "other");
}

#[test]
fn absent_name_and_class_become_empty_strings() {
    let entry = create_time_entry(
        &raw(WindowChangeKind::Focus, None, None, Rect { x: 0, y: 0, width: 10, height: 10 }),
        ts(),
    );
    assert_eq!(entry.window_name, "");
    assert_eq!(entry.window_class, "");
}

#[test]
fn class_map_without_class_key_becomes_empty_string() {
    let event = RawEvent {
        change: WindowChangeKind::Focus,
        window_name: Some("editor".to_string()),
        window_class_properties: Some(vec![
            (WindowProperty::Instance, "vim".to_string()),
            (WindowProperty::Title, "notes".to_string()),
        ]),
        window_rect: Rect { x: 0, y: 0, width: 10, height: 10 },
    };
    let entry = create_time_entry(&event, ts());
    assert_eq!(entry.window_name, "editor");
    assert_eq!(entry.window_class, "");
}

#[test]
fn class_key_is_looked_up_among_other_properties() {
    let event = RawEvent {
        change: WindowChangeKind::Focus,
        window_name: None,
        window_class_properties: Some(vec![
            (WindowProperty::Instance, "vim".to_string()),
            (WindowProperty::Class, "Editor".to_string()),
            (WindowProperty::WindowRole, "main".to_string()),
        ]),
        window_rect: Rect { x: 0, y: 0, width: 10, height: 10 },
    };
    let entry = create_time_entry(&event, ts());
    assert_eq!(entry.window_class, "Editor");
}

#[test]
fn window_area_is_exact_product_including_degenerate_geometry() {
    let cases = [
        (Rect { x: 0, y: 0, width: 0, height: 0 }, 0i64),
        (Rect { x: 0, y: 0, width: -5, height: 10 }, -50i64),
        (Rect { x: 2, y: 0, width: 800, height: 600 }, 480000i64),
        (Rect { x: 0, y: 0, width: i32::MAX, height: i32::MAX }, (i32::MAX as i64) * (i32::MAX as i64)),
        (Rect { x: 0, y: 0, width: i32::MIN, height: i32::MAX }, (i32::MIN as i64) * (i32::MAX as i64)),
    ];
    for (rect, expected) in cases {
        let entry = create_time_entry(&raw(WindowChangeKind::Move, None, None, rect), ts());
        assert_eq!(entry.window_area, expected);
    }
}

#[test]
fn timestamp_formats_zero_padded_second_precision() {
    assert_eq!(ts().format(), "2020-03-07 09:05:02");
    let t = Timestamp { year: 7, month: 12, day: 31, hour: 23, minute: 59, second: 59 };
    assert_eq!(t.format(), "0007-12-31 23:59:59");
}

#[test]
fn timestamp_lexical_order_matches_chronological_order() {
    let earlier = Timestamp { year: 2020, month: 3, day: 7, hour: 9, minute: 5, second: 2 };
    let later = Timestamp { year: 2020, month: 3, day: 7, hour: 10, minute: 0, second: 0 };
    assert!(earlier.format() < later.format());
}

#[test]
fn timestamp_from_fields_accepts_exactly_representable_fields() {
    assert_eq!(
        Timestamp::from_fields(2020, 3, 7, 9, 5, 2),
        Some(Timestamp { year: 2020, month: 3, day: 7, hour: 9, minute: 5, second: 2 })
    );
    assert_eq!(Timestamp::from_fields(-1, 3, 7, 9, 5, 2), None);
    assert_eq!(Timestamp::from_fields(10000, 3, 7, 9, 5, 2), None);
    assert_eq!(Timestamp::from_fields(2020, 0, 7, 9, 5, 2), None);
    assert_eq!(Timestamp::from_fields(2020, 13, 7, 9, 5, 2), None);
    assert_eq!(Timestamp::from_fields(2020, 3, 0, 9, 5, 2), None);
    assert_eq!(Timestamp::from_fields(2020, 3, 32, 9, 5, 2), None);
    assert_eq!(Timestamp::from_fields(2020, 3, 7, 24, 5, 2), None);
    assert_eq!(Timestamp::from_fields(2020, 3, 7, 9, 60, 2), None);
    assert_eq!(Timestamp::from_fields(2020, 3, 7, 9, 5, 60), None);
}

#[test]
fn current_timestamp_is_formattable_and_recent() {
    let now = window_recorder::timefmt::current_timestamp();
    let s = now.format();
    assert_eq!(s.len(), 19);
    assert!(now.year >= 2020);
}
