use rmcp::event_id::EventId;
use rmcp::model::{ErrorData, JsonRpcError, JsonRpcMessage, JsonRpcNotification, JsonRpcResponse, JsonRpcVersion2_0, NumberOrString};
use rmcp::schema::{
    CallToolRequestMethod, CallToolRequestParam, CancelledNotificationMethod, ClientRequest, PingRequestMethod, Request,
    RequestMeta, CancelledNotificationParam, EmptyResult, Notification, ProgressNotificationMethod,
    ProgressNotificationParam, ServerJsonRpcMessage, ServerNotification, ServerResult, ToolListChangedNotificationMethod,
};
use rmcp::session::{CachedTx, Delivery, OutboundChannel, SessionContext, SessionError};

fn ping() -> ClientRequest {
    ClientRequest::PingRequest(Request { method: PingRequestMethod, params: (), meta: None })
}

fn call_with_token(token: &str) -> ClientRequest {
    ClientRequest::CallToolRequest(Request {
        method: CallToolRequestMethod,
        params: CallToolRequestParam { name: "t".to_string(), arguments: None },
        meta: Some(RequestMeta { progress_token: NumberOrString::String(token.to_string()) }),
    })
}

fn response(id: u32) -> ServerJsonRpcMessage {
    JsonRpcMessage::Response(JsonRpcResponse {
        jsonrpc: JsonRpcVersion2_0,
        id: NumberOrString::Number(id),
        result: ServerResult::EmptyResult(EmptyResult {}),
    })
}

fn error(id: u32) -> ServerJsonRpcMessage {
    JsonRpcMessage::Error(JsonRpcError {
        jsonrpc: JsonRpcVersion2_0,
        id: NumberOrString::Number(id),
        error: ErrorData::internal_error("failed".to_string(), None),
    })
}

fn progress(token: &str) -> ServerJsonRpcMessage {
    JsonRpcMessage::Notification(JsonRpcNotification {
        jsonrpc: JsonRpcVersion2_0,
        notification: ServerNotification::ProgressNotification(Notification {
            method: ProgressNotificationMethod,
            params: ProgressNotificationParam {
                progress_token: NumberOrString::String(token.to_string()),
                progress: 1,
                total: 10,
            },
        }),
    })
}

fn tool_list_changed() -> ServerJsonRpcMessage {
    JsonRpcMessage::Notification(JsonRpcNotification {
        jsonrpc: JsonRpcVersion2_0,
        notification: ServerNotification::ToolListChangedNotification(Notification {
            method: ToolListChangedNotificationMethod,
            params: (),
        }),
    })
}

fn context() -> SessionContext<&'static str> {
    SessionContext::new("session-1".to_string(), CachedTx::new_common("common", 4))
}

#[test]
fn cached_tx_numbers_events_and_keeps_the_latest() {
    let mut tx = CachedTx::new("tx", 2, Some(NumberOrString::Number(1)));
    let a = tx.record(response(1));
    let b = tx.record(response(1));
    let c = tx.record(response(1));
    assert_eq!(a.event_id.to_display_string(), "0-n-1");
    assert_eq!(b.event_id.to_display_string(), "1-n-1");
    assert_eq!(c.event_id.to_display_string(), "2-n-1");
    // only the last two are kept; a resume replays the events after the given index
    let replay = tx.replay_from(1).ok().expect("kept");
    assert_eq!(replay.len(), 1);
    assert_eq!(replay[0].event_id.index(), 2);
    let replay = tx.replay_from(2).ok().expect("nothing newer");
    assert_eq!(replay.len(), 0);
    // the index just before the oldest kept event replays all of them
    let replay = tx.replay_from(0).ok().expect("all kept");
    assert_eq!(replay.len(), 2);
    assert_eq!(replay[0].event_id.index(), 1);
    // an index past the kept events, or one that wraps around, is refused
    assert!(matches!(tx.replay_from(3), Err(SessionError::InvalidEventId)));
    assert!(matches!(tx.replay_from(usize::MAX), Err(SessionError::InvalidEventId)));
    assert_eq!(*tx.tx(), "tx");
}

#[test]
fn replay_of_an_empty_stream_is_empty() {
    let tx: CachedTx<()> = CachedTx::new((), 3, None);
    assert_eq!(tx.replay_from(100).ok().map(|v| v.len()), Some(0));
}

#[test]
fn response_goes_to_its_request_stream() {
    let mut ctx = context();
    ctx.establish_request_wise_channel(&ping(), NumberOrString::Number(7), "r7").ok().expect("new");
    assert!(ctx.contains_request(&NumberOrString::Number(7)));
    match ctx.handle_server_message(response(7)) {
        Ok(Delivery::Request { id, message }) => {
            assert!(id.same_as(&NumberOrString::Number(7)));
            assert_eq!(message.event_id.to_display_string(), "0-n-7");
        }
        _ => panic!("delivery on the request stream expected"),
    }
    assert!(ctx.contains_request(&NumberOrString::Number(7)));
}

#[test]
fn error_response_closes_its_request_stream() {
    let mut ctx = context();
    ctx.establish_request_wise_channel(&ping(), NumberOrString::Number(3), "r3").ok().expect("new");
    match ctx.handle_server_message(error(3)) {
        Ok(Delivery::Closed { tx, .. }) => assert_eq!(tx, "r3"),
        _ => panic!("the stream should close"),
    }
    assert!(!ctx.contains_request(&NumberOrString::Number(3)));
    assert!(matches!(ctx.handle_server_message(response(3)), Err(SessionError::ChannelClosed(Some(_)))));
}

#[test]
fn duplicated_request_id_is_refused() {
    let mut ctx = context();
    ctx.establish_request_wise_channel(&ping(), NumberOrString::Number(1), "a").ok().expect("new");
    assert!(matches!(
        ctx.establish_request_wise_channel(&ping(), NumberOrString::Number(1), "b"),
        Err(SessionError::DuplicatedRequestId(_))
    ));
    assert_eq!(ctx.request_tx(&NumberOrString::Number(1)), Some(&"a"));
}

#[test]
fn progress_follows_its_token_and_others_go_to_common() {
    let mut ctx = context();
    ctx.establish_request_wise_channel(&call_with_token("tok"), NumberOrString::Number(1), "a")
        .ok()
        .expect("new");
    match ctx.resolve_outbound_channel(&progress("tok")) {
        OutboundChannel::RequestWise { id, close } => {
            assert!(id.same_as(&NumberOrString::Number(1)));
            assert!(!close);
        }
        _ => panic!("request stream expected"),
    }
    assert!(matches!(ctx.resolve_outbound_channel(&progress("other")), OutboundChannel::Common));
    assert!(matches!(ctx.resolve_outbound_channel(&tool_list_changed()), OutboundChannel::Common));
    match ctx.handle_server_message(tool_list_changed()) {
        Ok(Delivery::Common(m)) => assert_eq!(m.event_id.to_display_string(), "0-c"),
        _ => panic!("common delivery expected"),
    }
}

#[test]
fn cancellation_goes_to_the_cancelled_request() {
    let ctx = context();
    let cancel: ServerJsonRpcMessage = JsonRpcMessage::Notification(JsonRpcNotification {
        jsonrpc: JsonRpcVersion2_0,
        notification: ServerNotification::CancelledNotification(Notification {
            method: CancelledNotificationMethod,
            params: CancelledNotificationParam { request_id: NumberOrString::Number(4), reason: None },
        }),
    });
    match ctx.resolve_outbound_channel(&cancel) {
        OutboundChannel::RequestWise { id, close } => {
            assert!(id.same_as(&NumberOrString::Number(4)));
            assert!(!close);
        }
        _ => panic!("request stream expected"),
    }
}

#[test]
fn resume_replays_after_the_last_event() {
    let mut ctx = context();
    ctx.handle_server_message(tool_list_changed()).ok().expect("sent");
    ctx.handle_server_message(tool_list_changed()).ok().expect("sent");
    ctx.handle_server_message(tool_list_changed()).ok().expect("sent");
    let replay = ctx.resume(&EventId::new(None, 1), "new-common").ok().expect("resumed");
    assert_eq!(replay.len(), 1);
    assert_eq!(replay[0].event_id.index(), 2);
    assert_eq!(*ctx.common().tx(), "new-common");
    assert!(matches!(
        ctx.resume(&EventId::new(Some(NumberOrString::Number(9)), 0), "x"),
        Err(SessionError::ChannelClosed(Some(_)))
    ));
}

#[test]
fn close_request_wise_channel_returns_its_sender() {
    let mut ctx = context();
    ctx.establish_request_wise_channel(&ping(), NumberOrString::String("q".to_string()), "q-tx").ok().expect("new");
    assert_eq!(ctx.close_request_wise_channel(&NumberOrString::String("q".to_string())), Some("q-tx"));
    assert_eq!(ctx.close_request_wise_channel(&NumberOrString::String("q".to_string())), None);
    assert_eq!(ctx.session_id(), "session-1");
}

#[test]
fn each_request_stream_keeps_its_own_sender() {
    let mut ctx = context();
    ctx.establish_request_wise_channel(&ping(), NumberOrString::Number(1), "one").ok().expect("new");
    ctx.establish_request_wise_channel(&ping(), NumberOrString::Number(2), "two").ok().expect("new");
    ctx.establish_request_wise_channel(&ping(), NumberOrString::Number(3), "three").ok().expect("new");
    assert_eq!(ctx.request_tx(&NumberOrString::Number(2)), Some(&"two"));
    assert_eq!(ctx.request_tx(&NumberOrString::Number(3)), Some(&"three"));
    match ctx.handle_server_message(error(2)) {
        Ok(Delivery::Closed { tx, .. }) => assert_eq!(tx, "two"),
        _ => panic!("the stream of request 2 closes"),
    }
    assert_eq!(ctx.request_tx(&NumberOrString::Number(1)), Some(&"one"));
    assert_eq!(ctx.request_tx(&NumberOrString::Number(3)), Some(&"three"));
    assert_eq!(ctx.request_tx(&NumberOrString::Number(2)), None);
    assert!(ctx.resume(&EventId::new(Some(NumberOrString::Number(3)), 0), "three-again").is_ok());
    assert_eq!(ctx.request_tx(&NumberOrString::Number(3)), Some(&"three-again"));
    assert_eq!(ctx.request_tx(&NumberOrString::Number(1)), Some(&"one"));
    assert_eq!(*ctx.common().tx(), "common");
}

#[test]
fn progress_token_comes_from_the_request_meta() {
    assert!(ping().progress_token().is_none());
    let token = call_with_token("t-9").progress_token().expect("a token");
    assert!(token.same_as(&NumberOrString::String("t-9".to_string())));
    let again = ping().with_meta(Some(RequestMeta { progress_token: NumberOrString::Number(4) }));
    assert!(again.progress_token().expect("a token").same_as(&NumberOrString::Number(4)));
    let mut ctx = context();
    ctx.establish_request_wise_channel(&call_with_token("t-9"), NumberOrString::Number(5), "five").ok().expect("new");
    match ctx.resolve_outbound_channel(&progress("t-9")) {
        OutboundChannel::RequestWise { id, .. } => assert!(id.same_as(&NumberOrString::Number(5))),
        _ => panic!("the stream of request 5 expected"),
    }
}
