use rmcp::model::{ErrorData, JsonRpcMessage, JsonRpcNotification, JsonRpcRequest, JsonRpcResponse, JsonRpcVersion2_0, LatestProtocolVersion, NumberOrString};
use rmcp::schema::{
    CallToolResult, ClientCapabilities, ClientJsonRpcMessage, ClientNotification, ClientRequest, ClientResult,
    EmptyResult, Implementation, InitializeRequestParam, InitializeResult, InitializeResultMethod,
    InitializedNotificationMethod, ListRootsResult, Notification, PingRequestMethod, Request,
    ServerCapabilities, ServerJsonRpcMessage, ServerRequest, ServerResult,
};
use rmcp::service::{
    accept_initialize_request, accept_initialize_response, accept_initialized_notification, expect_call_tool_result,
    expect_list_roots_result, expect_server_empty_result, initialize_request_message, initialize_response_message,
    initialized_notification_message, peer_outcome, response_message, AtomicU32RequestIdProvider, HandshakeError,
    LoopAction, LoopEvent, PeerSinkMessage, RequestIdProvider, ResponderPool, RoleClient, RoleServer, ServiceError,
    ServiceLoop, ServiceRole,
};

fn client_info() -> InitializeRequestParam {
    InitializeRequestParam {
        protocol_version: "2024-11-05".to_string(),
        capabilities: ClientCapabilities::default(),
        server_info: Implementation::from_build_env(),
    }
}

fn server_info() -> InitializeResult {
    InitializeResult {
        protocol_version: LatestProtocolVersion,
        capabilities: ServerCapabilities::default(),
        server_info: Implementation::from_build_env(),
        instructions: Some("hi".to_string()),
    }
}

#[test]
fn roles_say_which_side_they_are() {
    assert!(RoleClient::is_client());
    assert!(!RoleServer::is_client());
}

#[test]
fn request_ids_count_up() {
    let p = AtomicU32RequestIdProvider::default();
    assert!(matches!(p.next_request_id(), NumberOrString::Number(0)));
    assert!(matches!(p.next_request_id(), NumberOrString::Number(1)));
    assert!(matches!(p.next_request_id(), NumberOrString::Number(2)));
}

#[test]
fn responder_pool_is_a_map_of_ids() {
    let mut pool: ResponderPool<&str> = ResponderPool::new();
    assert_eq!(pool.insert(NumberOrString::Number(1), "a"), None);
    assert_eq!(pool.insert(NumberOrString::String("1".to_string()), "b"), None);
    assert_eq!(pool.len(), 2);
    assert_eq!(pool.insert(NumberOrString::Number(1), "c"), Some("a"));
    assert_eq!(pool.len(), 2);
    assert!(pool.contains(&NumberOrString::Number(1)));
    assert_eq!(pool.remove(&NumberOrString::Number(1)), Some("c"));
    assert_eq!(pool.remove(&NumberOrString::Number(1)), None);
    assert!(!pool.contains(&NumberOrString::Number(1)));
    assert_eq!(pool.len(), 1);
}

#[test]
fn response_reaches_the_waiting_request() {
    let mut lp: ServiceLoop<RoleClient> = ServiceLoop::new();
    let (tx, mut rx) = tokio::sync::oneshot::channel();
    let request = ClientRequest::PingRequest(Request { method: PingRequestMethod, params: (), meta: None });
    match lp.step(LoopEvent::ProxyMessage(PeerSinkMessage::Request(request, NumberOrString::Number(5), tx))) {
        LoopAction::Send(JsonRpcMessage::Request(r)) => assert!(matches!(r.id, NumberOrString::Number(5))),
        _ => panic!("the request should be sent"),
    }
    assert_eq!(lp.waiting(), 1);
    let answer: ServerJsonRpcMessage = JsonRpcMessage::Response(JsonRpcResponse {
        jsonrpc: JsonRpcVersion2_0,
        id: NumberOrString::Number(5),
        result: ServerResult::EmptyResult(EmptyResult {}),
    });
    match lp.step(LoopEvent::RemoteMessage(answer)) {
        LoopAction::Respond(responder, outcome) => {
            assert!(matches!(outcome, Ok(ServerResult::EmptyResult(_))));
            responder.send(outcome).ok().expect("receiver alive");
        }
        _ => panic!("the response should reach its responder"),
    }
    assert!(matches!(rx.try_recv(), Ok(Ok(ServerResult::EmptyResult(_)))));
    assert_eq!(lp.waiting(), 0);
}

#[test]
fn response_without_waiting_request_is_ignored() {
    let mut lp: ServiceLoop<RoleClient> = ServiceLoop::new();
    let answer: ServerJsonRpcMessage = JsonRpcMessage::Response(JsonRpcResponse {
        jsonrpc: JsonRpcVersion2_0,
        id: NumberOrString::Number(8),
        result: ServerResult::EmptyResult(EmptyResult {}),
    });
    assert!(matches!(lp.step(LoopEvent::RemoteMessage(answer)), LoopAction::Ignore));
}

#[test]
fn peer_requests_and_notifications_go_to_the_service() {
    let mut lp: ServiceLoop<RoleServer> = ServiceLoop::new();
    let req: ClientJsonRpcMessage = JsonRpcMessage::Request(JsonRpcRequest {
        jsonrpc: JsonRpcVersion2_0,
        id: NumberOrString::Number(1),
        request: ClientRequest::PingRequest(Request { method: PingRequestMethod, params: (), meta: None }),
    });
    assert!(matches!(lp.step(LoopEvent::RemoteMessage(req)), LoopAction::HandleRequest(ClientRequest::PingRequest(_), NumberOrString::Number(1))));
    let note: ClientJsonRpcMessage = JsonRpcMessage::Notification(JsonRpcNotification {
        jsonrpc: JsonRpcVersion2_0,
        notification: ClientNotification::InitializedNotification(Notification { method: InitializedNotificationMethod, params: () }),
    });
    assert!(matches!(lp.step(LoopEvent::RemoteMessage(note)), LoopAction::HandleNotification(_)));
    let out: ServerJsonRpcMessage = JsonRpcMessage::Request(JsonRpcRequest {
        jsonrpc: JsonRpcVersion2_0,
        id: NumberOrString::Number(2),
        request: ServerRequest::PingRequest(Request { method: PingRequestMethod, params: (), meta: None }),
    });
    assert!(matches!(lp.step(LoopEvent::ToSink(out)), LoopAction::Send(JsonRpcMessage::Request(_))));
}

#[test]
fn response_message_wraps_result_or_error() {
    let ok = response_message::<RoleServer>(Ok(ServerResult::EmptyResult(EmptyResult {})), NumberOrString::Number(3));
    assert!(matches!(ok, JsonRpcMessage::Response(r) if matches!(r.id, NumberOrString::Number(3))));
    let err = response_message::<RoleServer>(Err(ErrorData::internal_error("x".to_string(), None)), NumberOrString::Number(4));
    assert!(matches!(err, JsonRpcMessage::Error(e) if e.error.message == "x"));
}

#[test]
fn client_handshake_accepts_matching_initialize_result() {
    let id = NumberOrString::Number(0);
    match initialize_request_message(client_info(), id.copied()) {
        JsonRpcMessage::Request(r) => {
            assert!(matches!(r.request, ClientRequest::InitializeRequest(Request { method: InitializeResultMethod, .. })));
        }
        _ => panic!("a request expected"),
    }
    let answer = initialize_response_message(server_info(), NumberOrString::Number(0));
    let info = accept_initialize_response(&id, Some(answer)).ok().expect("accepted");
    assert_eq!(info.instructions, Some("hi".to_string()));
    assert!(matches!(initialized_notification_message(), JsonRpcMessage::Notification(_)));
}

#[test]
fn client_handshake_errors() {
    let id = NumberOrString::Number(0);
    assert!(matches!(accept_initialize_response(&id, None), Err(HandshakeError::UnexpectedEof("expect initialize response"))));
    let other_id = initialize_response_message(server_info(), NumberOrString::Number(1));
    assert!(matches!(
        accept_initialize_response(&id, Some(other_id)),
        Err(HandshakeError::InvalidData("conflict initialize response id"))
    ));
    let wrong_kind: ServerJsonRpcMessage = JsonRpcMessage::Response(JsonRpcResponse {
        jsonrpc: JsonRpcVersion2_0,
        id: NumberOrString::Number(0),
        result: ServerResult::EmptyResult(EmptyResult {}),
    });
    assert!(matches!(
        accept_initialize_response(&id, Some(wrong_kind)),
        Err(HandshakeError::InvalidData("expect initialize result"))
    ));
    let refused: ServerJsonRpcMessage = JsonRpcMessage::Error(rmcp::model::JsonRpcError {
        jsonrpc: JsonRpcVersion2_0,
        id: NumberOrString::Number(0),
        error: ErrorData::invalid_request("no".to_string(), None),
    });
    assert!(matches!(accept_initialize_response(&id, Some(refused)), Err(HandshakeError::Peer(e)) if e.message == "no"));
}

#[test]
fn server_handshake_steps() {
    let init = initialize_request_message(client_info(), NumberOrString::Number(9));
    let (params, id) = accept_initialize_request(Some(init)).ok().expect("initialize request");
    assert_eq!(params.protocol_version, "2024-11-05");
    assert!(matches!(id, NumberOrString::Number(9)));
    assert!(matches!(accept_initialize_request(None), Err(HandshakeError::UnexpectedEof("expect initialize request"))));
    let ping: ClientJsonRpcMessage = JsonRpcMessage::Request(JsonRpcRequest {
        jsonrpc: JsonRpcVersion2_0,
        id: NumberOrString::Number(1),
        request: ClientRequest::PingRequest(Request { method: PingRequestMethod, params: (), meta: None }),
    });
    assert!(matches!(accept_initialize_request(Some(ping)), Err(HandshakeError::InvalidData("expect initialize request"))));
    assert!(accept_initialized_notification(Some(initialized_notification_message())).is_ok());
    assert!(matches!(
        accept_initialized_notification(None),
        Err(HandshakeError::UnexpectedEof("expect initialize notification"))
    ));
    let init_again = initialize_request_message(client_info(), NumberOrString::Number(2));
    assert!(matches!(
        accept_initialized_notification(Some(init_again)),
        Err(HandshakeError::InvalidData("expect initialize notification"))
    ));
}

#[test]
fn peer_results_of_another_kind_are_refused() {
    let r = expect_call_tool_result(ServerResult::CallToolResult(CallToolResult::success(vec![])));
    assert!(matches!(r, Ok(CallToolResult { is_error: Some(false), .. })));
    assert!(matches!(expect_call_tool_result(ServerResult::EmptyResult(EmptyResult {})), Err(ServiceError::UnexpectedResponse)));
    assert!(matches!(expect_server_empty_result(ServerResult::EmptyResult(EmptyResult {})), Ok(())));
    assert!(matches!(
        expect_list_roots_result(ClientResult::EmptyResult(EmptyResult {})),
        Err(ServiceError::UnexpectedResponse)
    ));
    assert!(matches!(expect_list_roots_result(ClientResult::ListRootsResult(ListRootsResult { roots: vec![] })), Ok(_)));
    assert!(matches!(peer_outcome::<u8>(Ok(3)), Ok(3)));
    assert!(matches!(
        peer_outcome::<u8>(Err(ErrorData::invalid_params("p".to_string(), None))),
        Err(ServiceError::McpError(e)) if e.message == "p"
    ));
}
