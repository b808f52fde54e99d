use rmcp::decimal::IntParseError;
use rmcp::event_id::{EventId, EventIdParseError};
use rmcp::model::NumberOrString;

#[test]
fn event_id_text_forms() {
    assert_eq!(EventId::new(None, 3).to_display_string(), "3-c");
    assert_eq!(EventId::new(Some(NumberOrString::Number(7)), 0).to_display_string(), "0-n-7");
    assert_eq!(EventId::new(Some(NumberOrString::String("a-b".to_string())), 12).to_display_string(), "12-s-a-b");
}

#[test]
fn event_id_parse_reads_each_form() {
    let e = EventId::parse("3-c").expect("common");
    assert_eq!(e.index(), 3);
    assert!(e.request_id().is_none());
    let e = EventId::parse("5-n-42").expect("numeric");
    assert_eq!(e.index(), 5);
    assert!(matches!(e.request_id(), Some(NumberOrString::Number(42))));
    let e = EventId::parse("0-s-x-y").expect("string");
    match e.request_id() {
        Some(NumberOrString::String(s)) => assert_eq!(s, "x-y"),
        _ => panic!("string id expected"),
    }
}

#[test]
fn event_id_round_trip() {
    let ids = vec![
        EventId::new(None, 0),
        EventId::new(Some(NumberOrString::Number(u32::MAX)), usize::MAX),
        EventId::new(Some(NumberOrString::String(String::new())), 9),
    ];
    for id in ids {
        let text = id.to_display_string();
        let back = EventId::parse(&text).expect("round trip");
        assert_eq!(back.to_display_string(), text);
        assert_eq!(back.index(), id.index());
    }
}

#[test]
fn event_id_parse_errors() {
    assert_eq!(EventId::parse("12").err(), Some(EventIdParseError::MissingRequestId));
    assert_eq!(EventId::parse("x-c").err(), Some(EventIdParseError::InvalidIndex(IntParseError::InvalidDigit)));
    assert_eq!(EventId::parse("-c").err(), Some(EventIdParseError::InvalidIndex(IntParseError::Empty)));
    assert_eq!(
        EventId::parse("1-n-99999999999").err(),
        Some(EventIdParseError::InvalidNumericRequestId(IntParseError::PosOverflow))
    );
    assert_eq!(EventId::parse("1-q").err(), Some(EventIdParseError::InvalidRequestIdType));
    assert_eq!(EventId::parse("1-cc").err(), Some(EventIdParseError::InvalidRequestIdType));
}

#[test]
fn event_id_parse_error_text() {
    assert_eq!(EventIdParseError::MissingRequestId.to_display_string(), "Missing request id");
    assert_eq!(EventIdParseError::InvalidRequestIdType.to_display_string(), "Missing request id type");
    assert_eq!(
        EventIdParseError::InvalidIndex(IntParseError::Empty).to_display_string(),
        "Invalid index: cannot parse integer from empty string"
    );
    assert_eq!(
        EventIdParseError::InvalidNumericRequestId(IntParseError::PosOverflow).to_display_string(),
        "Invalid numeric request id: number too large to fit in target type"
    );
}
