use rmcp::model::{JsonRpcMessage, JsonRpcNotification, JsonRpcVersion2_0};
use rmcp::schema::{
    ClientJsonRpcMessage, ClientNotification, InitializedNotificationMethod, Notification, ServerJsonRpcMessage,
    ServerNotification, ToolListChangedNotificationMethod,
};
use rmcp::streamable_http::{
    classify_delete_session_response, classify_get_stream_response, classify_post_response, default_min_duration,
    worker_step, DeleteSessionKind, GetStreamKind, PostResponseKind, SseEvent, SseStreamAction, SseStreamEvent,
    SseStreamState, SseTransportRetryConfig, StreamableHttpError, StreamableHttpPostJsonResponse,
    StreamableHttpPostResponse, WorkerAction, WorkerEvent, WorkerPhase,
};
use std::time::Duration;

fn server_note() -> ServerJsonRpcMessage {
    JsonRpcMessage::Notification(JsonRpcNotification {
        jsonrpc: JsonRpcVersion2_0,
        notification: ServerNotification::ToolListChangedNotification(Notification {
            method: ToolListChangedNotificationMethod,
            params: (),
        }),
    })
}

fn client_note() -> ClientJsonRpcMessage {
    JsonRpcMessage::Notification(JsonRpcNotification {
        jsonrpc: JsonRpcVersion2_0,
        notification: ClientNotification::InitializedNotification(Notification {
            method: InitializedNotificationMethod,
            params: (),
        }),
    })
}

#[test]
fn retry_config_defaults_to_one_second() {
    let c = SseTransportRetryConfig::default();
    assert_eq!(c.max_times, None);
    assert_eq!(c.min_duration, Duration::from_millis(1000));
    assert_eq!(default_min_duration(), Duration::from_secs(1));
}

#[test]
fn post_responses_are_classified() {
    assert_eq!(classify_post_response(202, None), PostResponseKind::Accepted);
    assert_eq!(classify_post_response(200, Some(b"text/event-stream; charset=utf-8")), PostResponseKind::EventStream);
    assert_eq!(classify_post_response(200, Some(b"application/json")), PostResponseKind::Json);
    assert_eq!(classify_post_response(200, Some(b"text/plain")), PostResponseKind::UnexpectedContentType);
    assert_eq!(classify_post_response(200, None), PostResponseKind::UnexpectedContentType);
}

#[test]
fn get_stream_responses_are_classified() {
    assert_eq!(classify_get_stream_response(405, None), GetStreamKind::ErrorStatus);
    assert_eq!(classify_get_stream_response(500, Some(b"text/event-stream")), GetStreamKind::ErrorStatus);
    assert_eq!(classify_get_stream_response(200, Some(b"text/event-stream")), GetStreamKind::EventStream);
    assert_eq!(classify_get_stream_response(200, Some(b"application/json")), GetStreamKind::UnexpectedContentType);
}

#[test]
fn delete_session_responses_are_classified() {
    assert_eq!(classify_delete_session_response(405), DeleteSessionKind::NotSupported);
    assert_eq!(classify_delete_session_response(404), DeleteSessionKind::ErrorStatus);
    assert_eq!(classify_delete_session_response(202), DeleteSessionKind::Deleted);
}

#[test]
fn expect_json_and_accepted() {
    let accepted: StreamableHttpPostResponse<()> = StreamableHttpPostResponse::Accepted;
    assert!(matches!(accepted.expect_json::<std::io::Error>(), Err(StreamableHttpError::UnexpectedServerResponse(t)) if t == "expected json"));
    let accepted: StreamableHttpPostResponse<()> = StreamableHttpPostResponse::Accepted;
    assert!(accepted.expect_accepted::<std::io::Error>().is_ok());
    let stream: StreamableHttpPostResponse<()> = StreamableHttpPostResponse::Sse(());
    assert!(matches!(stream.expect_accepted::<std::io::Error>(), Err(StreamableHttpError::UnexpectedServerResponse(t)) if t == "expected accepted"));
}

#[test]
fn sse_reader_hands_on_data_and_tracks_ids() {
    let config = SseTransportRetryConfig { max_times: Some(2), min_duration: Duration::from_millis(500) };
    let mut s = SseStreamState::new(&config);
    let a: SseStreamAction<std::io::Error> =
        s.step(SseStreamEvent::Next(SseEvent { data: Some("{}".to_string()), id: Some("7".to_string()), retry: Some(100) }));
    assert!(matches!(a, SseStreamAction::Deliver(d) if d == "{}"));
    let a: SseStreamAction<std::io::Error> = s.step(SseStreamEvent::Next(SseEvent { data: None, id: None, retry: None }));
    assert!(matches!(a, SseStreamAction::Continue));
    match s.step::<std::io::Error>(SseStreamEvent::StreamError) {
        SseStreamAction::Reconnect { delay, last_event_id } => {
            assert_eq!(delay, Duration::from_millis(100));
            assert_eq!(last_event_id, Some("7".to_string()));
        }
        _ => panic!("a reconnect expected"),
    }
}

#[test]
fn sse_reader_keeps_the_shorter_delay() {
    let config = SseTransportRetryConfig { max_times: None, min_duration: Duration::from_millis(300) };
    let mut s = SseStreamState::new(&config);
    let _: SseStreamAction<std::io::Error> =
        s.step(SseStreamEvent::Next(SseEvent { data: None, id: None, retry: Some(5000) }));
    match s.step::<std::io::Error>(SseStreamEvent::StreamError) {
        SseStreamAction::Reconnect { delay, .. } => assert_eq!(delay, Duration::from_millis(300)),
        _ => panic!("a reconnect expected"),
    }
    let _: SseStreamAction<std::io::Error> =
        s.step(SseStreamEvent::Next(SseEvent { data: None, id: None, retry: Some(20) }));
    match s.step::<std::io::Error>(SseStreamEvent::StreamError) {
        SseStreamAction::Reconnect { delay, .. } => assert_eq!(delay, Duration::from_millis(20)),
        _ => panic!("a reconnect expected"),
    }
}

#[test]
fn sse_reader_gives_up_after_max_attempts() {
    let config = SseTransportRetryConfig { max_times: Some(2), min_duration: Duration::from_millis(10) };
    let mut s = SseStreamState::new(&config);
    assert!(matches!(s.step::<std::io::Error>(SseStreamEvent::StreamError), SseStreamAction::Reconnect { .. }));
    let first = s.step(SseStreamEvent::ReconnectFailed(StreamableHttpError::<std::io::Error>::SeverDoesNotSupportSse));
    assert!(matches!(first, SseStreamAction::Reconnect { .. }));
    let second = s.step(SseStreamEvent::ReconnectFailed(StreamableHttpError::<std::io::Error>::SeverDoesNotSupportSse));
    assert!(matches!(second, SseStreamAction::Finish(Err(StreamableHttpError::SeverDoesNotSupportSse))));
}

#[test]
fn sse_reader_stops_cleanly() {
    let config = SseTransportRetryConfig::default();
    let mut s = SseStreamState::new(&config);
    assert!(matches!(s.step::<std::io::Error>(SseStreamEvent::Ended), SseStreamAction::Finish(Ok(()))));
    assert!(matches!(s.step::<std::io::Error>(SseStreamEvent::DeliveryFailed), SseStreamAction::Finish(Ok(()))));
    assert!(matches!(s.step::<std::io::Error>(SseStreamEvent::Cancelled), SseStreamAction::Finish(Ok(()))));
}

#[test]
fn worker_opens_a_session_and_posts_with_its_id() {
    let (phase, action) = worker_step::<std::io::Error, ()>(WorkerPhase::AwaitInitializeRequest, WorkerEvent::FromClient(Some(client_note())));
    assert!(matches!(action, WorkerAction::Post { session_id: None, .. }));
    let json = StreamableHttpPostJsonResponse { message: server_note(), session_id: Some("s-1".to_string()) };
    let (phase, action) = worker_step::<std::io::Error, ()>(phase, WorkerEvent::Posted(Ok(StreamableHttpPostResponse::Json(json))));
    assert!(matches!(action, WorkerAction::Forward(_)));
    let (phase, action) = worker_step::<std::io::Error, ()>(phase, WorkerEvent::Forwarded(true));
    assert!(matches!(action, WorkerAction::ReceiveFromClient));
    let (phase, action) = worker_step::<std::io::Error, ()>(phase, WorkerEvent::FromClient(Some(client_note())));
    assert!(matches!(action, WorkerAction::Post { session_id: Some(s), .. } if s == "s-1"));
    let (phase, action) = worker_step::<std::io::Error, ()>(phase, WorkerEvent::Posted(Ok(StreamableHttpPostResponse::Accepted)));
    assert!(matches!(action, WorkerAction::OpenCommonStream));
    let (phase, action) = worker_step::<std::io::Error, ()>(phase, WorkerEvent::CommonStream(Err(StreamableHttpError::SeverDoesNotSupportSse)));
    assert!(matches!(action, WorkerAction::Wait));
    let (phase, action) = worker_step::<std::io::Error, ()>(phase, WorkerEvent::FromClient(Some(client_note())));
    assert!(matches!(action, WorkerAction::Post { session_id: Some(s), .. } if s == "s-1"));
    let (phase, action) = worker_step::<std::io::Error, ()>(phase, WorkerEvent::Posted(Ok(StreamableHttpPostResponse::Sse(()))));
    assert!(matches!(action, WorkerAction::Spawn(())));
    let (phase, action) = worker_step::<std::io::Error, ()>(phase, WorkerEvent::FromClient(None));
    assert!(matches!(action, WorkerAction::Shutdown { session } if session == "s-1"));
    let (phase, action) = worker_step::<std::io::Error, ()>(phase, WorkerEvent::SessionDeleted(Err(StreamableHttpError::SeverDoesNotSupportDeleteSession)));
    assert!(matches!(action, WorkerAction::Finish(Ok(()))));
    assert!(matches!(phase, WorkerPhase::Finished));
}

#[test]
fn worker_refuses_initialize_answer_without_session() {
    let json = StreamableHttpPostJsonResponse { message: server_note(), session_id: None };
    let (phase, action) = worker_step::<std::io::Error, ()>(WorkerPhase::AwaitInitializeResponse, WorkerEvent::Posted(Ok(StreamableHttpPostResponse::Json(json))));
    assert!(matches!(phase, WorkerPhase::Finished));
    assert!(matches!(action, WorkerAction::Finish(Err(StreamableHttpError::UnexpectedServerResponse(t))) if t == "missing session id"));
    let (_, action) = worker_step::<std::io::Error, ()>(WorkerPhase::AwaitInitializeResponse, WorkerEvent::Posted(Ok(StreamableHttpPostResponse::Accepted)));
    assert!(matches!(action, WorkerAction::Finish(Err(StreamableHttpError::UnexpectedServerResponse(t))) if t == "expected json"));
}

#[test]
fn worker_forwarding_failures() {
    let running = || WorkerPhase::Running { session_id: "s".to_string() };
    let (phase, _) = worker_step::<std::io::Error, ()>(running(), WorkerEvent::FromStream(Some(server_note())));
    let (_, action) = worker_step::<std::io::Error, ()>(phase, WorkerEvent::Forwarded(false));
    assert!(matches!(action, WorkerAction::Shutdown { .. }));
    let json = StreamableHttpPostJsonResponse { message: server_note(), session_id: None };
    let (phase, _) = worker_step::<std::io::Error, ()>(WorkerPhase::Posting { session_id: "s".to_string() }, WorkerEvent::Posted(Ok(StreamableHttpPostResponse::Json(json))));
    let (_, action) = worker_step::<std::io::Error, ()>(phase, WorkerEvent::Forwarded(false));
    assert!(matches!(action, WorkerAction::Finish(Err(StreamableHttpError::UnexpectedEndOfStream))));
    let (_, action) = worker_step::<std::io::Error, ()>(WorkerPhase::AwaitInitializeRequest, WorkerEvent::FromClient(None));
    assert!(matches!(action, WorkerAction::Finish(Err(StreamableHttpError::UnexpectedEndOfStream))));
}
