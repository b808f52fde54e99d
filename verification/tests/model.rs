use rmcp::decimal::{i32_to_decimal, parse_unsigned_chars, u64_to_decimal, IntParseError};
use rmcp::model::{
    check_const_string, ConstString, ErrorCode, ErrorData, JsonRpcMessage, JsonRpcVersion2_0, LatestProtocolVersion,
    Message, NumberOrString, INTERNAL_ERROR, INVALID_PARAMS, INVALID_REQUEST, METHOD_NOT_FOUND, PARSE_ERROR,
};
use rmcp::schema::{
    CallToolResult, ClientJsonRpcMessage, ClientMessage, ClientNotification, ClientRequest, Content, EmptyResult,
    Implementation, InitializedNotificationMethod, Notification, PingRequestMethod, Request, ServerResult,
};

#[test]
fn error_codes_are_the_json_rpc_ones() {
    assert_eq!(PARSE_ERROR, -32700);
    assert_eq!(INVALID_REQUEST, -32600);
    assert_eq!(METHOD_NOT_FOUND, -32601);
    assert_eq!(INVALID_PARAMS, -32602);
    assert_eq!(INTERNAL_ERROR, -32603);
}

#[test]
fn error_constructors_set_their_code() {
    let e = ErrorData::parse_error("p".to_string(), None);
    assert_eq!(e.code, ErrorCode(PARSE_ERROR));
    assert_eq!(e.message, "p");
    assert_eq!(ErrorData::invalid_request("x".to_string(), None).code, ErrorCode(INVALID_REQUEST));
    assert_eq!(ErrorData::method_not_found("x".to_string(), None).code, ErrorCode(METHOD_NOT_FOUND));
    assert_eq!(ErrorData::invalid_params("x".to_string(), None).code, ErrorCode(INVALID_PARAMS));
    let e = ErrorData::internal_error("boom".to_string(), Some(serde_json::Value::Bool(true)));
    assert_eq!(e.code, ErrorCode(INTERNAL_ERROR));
    assert_eq!(e.data, Some(serde_json::Value::Bool(true)));
}

#[test]
fn error_display_text() {
    let e = ErrorData::new(ErrorCode(-32601), "no such method".to_string(), None);
    assert_eq!(e.to_display_string(), "-32601: no such method");
    let e = ErrorData::new(ErrorCode(7), "m".to_string(), Some(serde_json::Value::Bool(false)));
    assert_eq!(e.to_display_string(), "7: m(false)");
    let e = ErrorData::new(ErrorCode(-32601), "nope".to_string(), Some(serde_json::Value::from(1)));
    assert_eq!(e.to_display_string(), "-32601: nope(1)");
}

#[test]
fn number_or_string_display_and_equality() {
    assert_eq!(NumberOrString::Number(42).to_display_string(), "42");
    assert_eq!(NumberOrString::String("abc".to_string()).to_display_string(), "abc");
    assert!(NumberOrString::Number(1).same_as(&NumberOrString::Number(1)));
    assert!(!NumberOrString::Number(1).same_as(&NumberOrString::String("1".to_string())));
    assert!(NumberOrString::String("x".to_string()).same_as(&NumberOrString::String("x".to_string())));
    match NumberOrString::String("y".to_string()).copied() {
        NumberOrString::String(s) => assert_eq!(s, "y"),
        _ => panic!("copy changed the kind"),
    }
}

#[test]
fn json_integer_ids_keep_their_low_bits() {
    assert!(matches!(NumberOrString::from_json_integer(5), NumberOrString::Number(5)));
    assert!(matches!(NumberOrString::from_json_integer((1u64 << 32) + 3), NumberOrString::Number(3)));
}

#[test]
fn const_strings_have_their_values() {
    assert_eq!(JsonRpcVersion2_0::value(), "2.0");
    assert_eq!(LatestProtocolVersion::value(), "2024-11-05");
    assert_eq!(InitializedNotificationMethod::value(), "notifications/initialized");
    assert_eq!(PingRequestMethod::value(), "ping");
}

#[test]
fn const_string_check_refuses_other_values() {
    assert!(check_const_string::<JsonRpcVersion2_0>("2.0").is_ok());
    assert_eq!(
        check_const_string::<JsonRpcVersion2_0>("1.0"),
        Err("expect const string value \"2.0\"".to_string())
    );
}

#[test]
fn notification_envelope_round_trip() {
    let wire: ClientJsonRpcMessage = JsonRpcMessage::Notification(rmcp::model::JsonRpcNotification {
        jsonrpc: JsonRpcVersion2_0,
        notification: ClientNotification::InitializedNotification(Notification {
            method: InitializedNotificationMethod,
            params: (),
        }),
    });
    let message = wire.into_message();
    match &message {
        ClientMessage::Notification(ClientNotification::InitializedNotification(_)) => {}
        _ => panic!("Expected Notification"),
    }
    match message.into_json_rpc_message() {
        JsonRpcMessage::Notification(n) => {
            assert!(matches!(n.notification, ClientNotification::InitializedNotification(_)))
        }
        _ => panic!("Expected a notification on the wire"),
    }
}

#[test]
fn request_conversion_keeps_id() {
    let m: ClientMessage = Message::Request(
        ClientRequest::PingRequest(Request { method: PingRequestMethod, params: (), meta: None }),
        NumberOrString::Number(1),
    );
    match m.into_json_rpc_message() {
        JsonRpcMessage::Request(r) => {
            assert!(matches!(r.id, NumberOrString::Number(1)));
            assert!(matches!(r.request, ClientRequest::PingRequest(_)));
        }
        _ => panic!("Expected Request"),
    }
}

#[test]
fn message_accessors_pick_their_kind() {
    let m: ClientMessage = Message::Error(ErrorData::internal_error("e".to_string(), None), NumberOrString::Number(9));
    let (e, id) = m.into_error().expect("an error");
    assert_eq!(e.message, "e");
    assert!(matches!(id, NumberOrString::Number(9)));
    let m: ClientMessage = Message::Error(ErrorData::internal_error("e".to_string(), None), NumberOrString::Number(9));
    assert!(m.into_response().is_none());
    let m: ClientMessage = Message::Error(ErrorData::internal_error("e".to_string(), None), NumberOrString::Number(9));
    assert!(matches!(m.into_result(), Some((Err(_), NumberOrString::Number(9)))));
    let m: ClientMessage = Message::Request(
        ClientRequest::PingRequest(Request { method: PingRequestMethod, params: (), meta: None }),
        NumberOrString::Number(2),
    );
    assert!(m.into_notification().is_none());
}

#[test]
fn schema_helpers() {
    match Content::text("hello".to_string()) {
        Content::Text(t) => assert_eq!(t.text, "hello"),
        _ => panic!("text content expected"),
    }
    let r = CallToolResult::success(vec![Content::text("1".to_string())]);
    assert_eq!(r.is_error, Some(false));
    assert_eq!(r.content.len(), 1);
    let i = Implementation::from_build_env();
    assert_eq!(i.name, "rmcp");
    assert_eq!(i.version, "0.1.0");
    assert!(matches!(ServerResult::empty(()), ServerResult::EmptyResult(EmptyResult {})));
}

#[test]
fn decimal_text_of_integers() {
    assert_eq!(u64_to_decimal(0), "0");
    assert_eq!(u64_to_decimal(1234567890), "1234567890");
    assert_eq!(u64_to_decimal(u64::MAX), "18446744073709551615");
    assert_eq!(i32_to_decimal(-32700), "-32700");
    assert_eq!(i32_to_decimal(i32::MIN), "-2147483648");
    assert_eq!(i32_to_decimal(0), "0");
}

#[test]
fn unsigned_parsing_follows_from_str() {
    let chars: Vec<char> = "+17".chars().collect();
    assert_eq!(parse_unsigned_chars(&chars, 0, 3, u64::MAX), Ok(17));
    let chars: Vec<char> = "".chars().collect();
    assert_eq!(parse_unsigned_chars(&chars, 0, 0, u64::MAX), Err(IntParseError::Empty));
    let chars: Vec<char> = "+".chars().collect();
    assert_eq!(parse_unsigned_chars(&chars, 0, 1, u64::MAX), Err(IntParseError::InvalidDigit));
    let chars: Vec<char> = "12a".chars().collect();
    assert_eq!(parse_unsigned_chars(&chars, 0, 3, u64::MAX), Err(IntParseError::InvalidDigit));
    let chars: Vec<char> = "4294967296".chars().collect();
    assert_eq!(parse_unsigned_chars(&chars, 0, 10, u32::MAX as u64), Err(IntParseError::PosOverflow));
    assert_eq!(IntParseError::InvalidDigit.to_display_string(), "invalid digit found in string");
}
