use rmcp::model::{JsonRpcMessage, JsonRpcNotification, JsonRpcRequest, JsonRpcVersion2_0, NumberOrString};
use rmcp::schema::{ClientJsonRpcMessage, ClientNotification, ClientRequest, InitializedNotificationMethod, Notification, PingRequestMethod, Request};
use rmcp::streamable_http_server::{
    delete_status, hex_padded, new_session_id, opens_request_stream, get_stream_session, plan_get, pushed_message_status, route_post,
    GetPlan, PostEventQuery, PostRoute, STATUS_ACCEPTED, STATUS_BAD_REQUEST, STATUS_GONE, STATUS_NOT_FOUND,
};
use rmcp::http_header::{header_text, starts_with_bytes, HEADER_LAST_EVENT_ID, HEADER_SESSION_ID};

#[test]
fn hex_padding_matches_format() {
    assert_eq!(hex_padded(0, 16), format!("{:016x}", 0u128));
    assert_eq!(hex_padded(255, 16), "00000000000000ff");
    assert_eq!(hex_padded(u128::MAX, 16), format!("{:016x}", u128::MAX));
    assert_eq!(hex_padded(0xabc, 2), "abc");
    let n: u128 = 0x1234_5678_9abc_def0_1122;
    assert_eq!(hex_padded(n, 16), format!("{:016x}", n));
}

#[test]
fn session_ids_are_hexadecimal() {
    let id = new_session_id();
    assert!(id.len() >= 16 && id.len() <= 32);
    assert!(id.chars().all(|c| c.is_ascii_hexdigit() && !c.is_ascii_uppercase()));
}

#[test]
fn header_names() {
    assert_eq!(HEADER_SESSION_ID, "Mcp-Session-Id");
    assert_eq!(HEADER_LAST_EVENT_ID, "Last-Event-Id");
}

#[test]
fn header_text_accepts_visible_ascii_only() {
    assert_eq!(header_text(b"abc 1\t"), Some("abc 1\t".to_string()));
    assert_eq!(header_text(b"ab\xffc"), None);
    assert_eq!(header_text(b"a\nb"), None);
    assert_eq!(header_text(b""), Some(String::new()));
    assert!(starts_with_bytes(b"text/event-stream", b"text/"));
    assert!(!starts_with_bytes(b"te", b"text/"));
}

#[test]
fn posts_are_routed_by_session_header() {
    assert!(matches!(route_post(None), PostRoute::Initialize));
    assert!(matches!(route_post(Some(b"abc")), PostRoute::Existing(s) if s == "abc"));
    assert!(matches!(route_post(Some(b"\x01")), PostRoute::BadRequest));
}

#[test]
fn requests_open_their_own_stream() {
    let ping: ClientJsonRpcMessage = JsonRpcMessage::Request(JsonRpcRequest {
        jsonrpc: JsonRpcVersion2_0,
        id: NumberOrString::Number(1),
        request: ClientRequest::PingRequest(Request { method: PingRequestMethod, params: (), meta: None }),
    });
    assert!(opens_request_stream(&ping));
    let note: ClientJsonRpcMessage = JsonRpcMessage::Notification(JsonRpcNotification {
        jsonrpc: JsonRpcVersion2_0,
        notification: ClientNotification::InitializedNotification(Notification { method: InitializedNotificationMethod, params: () }),
    });
    assert!(!opens_request_stream(&note));
    assert_eq!(pushed_message_status(true), STATUS_ACCEPTED);
    assert_eq!(pushed_message_status(false), STATUS_GONE);
}

#[test]
fn delete_statuses() {
    assert_eq!(delete_status(None, true), STATUS_BAD_REQUEST);
    assert_eq!(delete_status(Some(b"\x7f"), true), STATUS_BAD_REQUEST);
    assert_eq!(delete_status(Some(b"s"), true), STATUS_ACCEPTED);
    assert_eq!(delete_status(Some(b"s"), false), STATUS_NOT_FOUND);
}

#[test]
fn get_requests_are_planned() {
    assert!(matches!(get_stream_session(None), Err(GetPlan::Reject { status: 400, message }) if message == "missing session id"));
    assert!(matches!(get_stream_session(Some(b"\x00")), Err(GetPlan::Reject { status: 400, .. })));
    assert!(matches!(get_stream_session(Some(b"s1")), Ok(s) if s == "s1"));
    assert!(matches!(plan_get("s1".to_string(), None), GetPlan::Common { session_id } if session_id == "s1"));
    match plan_get("s1".to_string(), Some(b"4-n-2")) {
        GetPlan::Resume { session_id, last_event_id } => {
            assert_eq!(session_id, "s1");
            assert_eq!(last_event_id.to_display_string(), "4-n-2");
        }
        _ => panic!("resume expected"),
    }
    assert!(matches!(
        plan_get("s1".to_string(), Some(b"oops")),
        GetPlan::Reject { status: 400, message } if message == "invalid event_id Missing request id"
    ));
    assert!(matches!(plan_get("s1".to_string(), Some(b"\x00")), GetPlan::Common { .. }));
}

#[test]
fn post_event_query_holds_the_session() {
    let q = PostEventQuery { session_id: "abc".to_string() };
    assert_eq!(q.session_id, "abc");
}
