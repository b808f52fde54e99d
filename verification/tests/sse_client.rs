use rmcp::sse_client::{must_wait_for_oldest_post, sse_inbound, sse_post_url, SseClientItem, SseInbound, SSE_POST_QUEUE_SIZE};

#[test]
fn post_url_is_endpoint_followed_by_first_event_data() {
    assert_eq!(sse_post_url("http://localhost:8000", "/message?sessionId=1"), "http://localhost:8000/message?sessionId=1");
}

#[test]
fn inbound_items() {
    assert!(matches!(sse_inbound(SseClientItem::Event("{}".to_string())), SseInbound::Message(m) if m == "{}"));
    assert!(matches!(sse_inbound(SseClientItem::Comment), SseInbound::Skip));
    assert!(matches!(sse_inbound(SseClientItem::Error), SseInbound::End));
    assert!(matches!(sse_inbound(SseClientItem::End), SseInbound::End));
}

#[test]
fn posts_in_flight_are_bounded() {
    assert_eq!(SSE_POST_QUEUE_SIZE, 16);
    assert!(!must_wait_for_oldest_post(15));
    assert!(must_wait_for_oldest_post(16));
}
