use rmcp::handler::{
    argument_parse_error, default_initialize_result, method_not_found, wrap_server_result, CapabilitiesBuilder,
    NotificationError, PromptError, ServerHandlerReply, ClientHandlerCall, ClientHandlerService,
    ClientNotificationCall, Dynamic, FunctionHandler, FunctionTool, ResourceError, ServerHandlerCall,
    ServerHandlerService, ServerNotificationCall, ToolError, ToolSet,
};
use rmcp::model::{ErrorCode, ErrorData, INVALID_PARAMS, METHOD_NOT_FOUND};
use rmcp::schema::{
    CallToolRequestMethod, CallToolRequestParam, ClientNotification, ClientRequest, CompleteRequestMethod,
    ListRootsRequestMethod, Notification, PaginatedRequestParam, PingRequestMethod, Request, RootsListChangedNotificationMethod,
    CallToolResult, ServerNotification, ServerRequest, ServerResult, ToolListChangedNotificationMethod,
};
use rmcp::transport::Transport;

#[test]
fn tool_error_execution_takes_the_text() {
    assert_eq!(ToolError::execution("boom".to_string()), ToolError::ExecutionError("boom".to_string()));
    assert_eq!(ToolError::execution(42.to_string()), ToolError::ExecutionError("42".to_string()));
    assert!(matches!(ResourceError::execution("gone".to_string()), ResourceError::ExecutionError(s) if s == "gone"));
}

#[test]
fn function_handler_keeps_its_parts() {
    let h: FunctionHandler<fn(u8) -> u8, u8, u8> = FunctionHandler::new("double", "doubles", |x| x * 2);
    assert_eq!(h.name(), "double");
    assert_eq!(h.description(), "doubles");
    assert_eq!((h.function())(4), 8);
    let t: FunctionTool<fn(u8) -> u8, u8, u8> = FunctionTool::new("inc".to_string(), "adds one".to_string(), |x| x + 1);
    assert_eq!(t.name(), "inc");
    assert_eq!(t.description(), "adds one");
    assert_eq!((t.function())(4), 5);
    let d = Dynamic(3u8);
    assert_eq!(d.0, 3);
}

#[test]
fn capabilities_builder_sets_what_is_asked() {
    let caps = CapabilitiesBuilder::new().with_tools(true).with_resources(false, true).build();
    assert_eq!(caps.tools.and_then(|t| t.list_changed), Some(true));
    let r = caps.resources.expect("resources");
    assert_eq!(r.subscribe, Some(false));
    assert_eq!(r.list_changed, Some(true));
    assert!(caps.prompts.is_none());
    assert!(caps.experimental.is_none());
    assert!(caps.logging.is_none());
    let caps = CapabilitiesBuilder::default().with_prompts(false).build();
    assert_eq!(caps.prompts.and_then(|p| p.list_changed), Some(false));
    assert!(caps.tools.is_none());
}

#[test]
fn method_not_found_names_the_method() {
    let e = method_not_found::<CompleteRequestMethod>();
    assert_eq!(e.code, ErrorCode(METHOD_NOT_FOUND));
    assert_eq!(e.message, "completion/complete");
    assert!(e.data.is_none());
}

#[test]
fn default_initialize_result_is_this_crate() {
    let r = default_initialize_result();
    assert_eq!(r.server_info.name, "rmcp");
    assert!(r.instructions.is_none());
    assert!(r.capabilities.tools.is_none());
}

#[test]
fn tool_set_add_get_remove() {
    let mut set: ToolSet<u32> = ToolSet::new();
    assert_eq!(set.add_tool("sum".to_string(), 1), None);
    assert_eq!(set.add_tool("mul".to_string(), 2), None);
    assert_eq!(set.add_tool("sum".to_string(), 3), Some(1));
    assert_eq!(set.len(), 2);
    assert_eq!(set.get_tool("sum"), Some(&3));
    assert_eq!(set.get_tool("div"), None);
    assert_eq!(set.remove_tool("mul"), Some(2));
    assert_eq!(set.remove_tool("mul"), None);
    assert_eq!(set.len(), 1);
    assert_eq!(set.entries().len(), 1);
}

#[test]
fn tool_set_extend_prefers_the_other_set() {
    let mut a: ToolSet<u32> = ToolSet::default();
    a.add_tool("x".to_string(), 1);
    a.add_tool("y".to_string(), 2);
    let mut b: ToolSet<u32> = ToolSet::new();
    b.add_tool("y".to_string(), 20);
    b.add_tool("z".to_string(), 30);
    a.extend(b);
    assert_eq!(a.len(), 3);
    assert_eq!(a.get_tool("x"), Some(&1));
    assert_eq!(a.get_tool("y"), Some(&20));
    assert_eq!(a.get_tool("z"), Some(&30));
}

#[test]
fn unknown_tool_is_an_invalid_params_error() {
    let mut set: ToolSet<u32> = ToolSet::new();
    set.add_tool("sum".to_string(), 1);
    assert_eq!(set.tool_or_unknown("sum").ok(), Some(&1));
    let e = set.tool_or_unknown("add").err().expect("unknown");
    assert_eq!(e.code, ErrorCode(INVALID_PARAMS));
    assert_eq!(e.message, "Unknown tool: add");
    assert_eq!(set.tool_or_not_found("add").err(), Some(ToolError::NotFound("add".to_string())));
}

#[test]
fn server_routes_requests_to_handler_methods() {
    let s = ServerHandlerService::new(5u8);
    assert_eq!(s.handler, 5);
    let ping = ClientRequest::PingRequest(Request { method: PingRequestMethod, params: (), meta: None });
    assert!(matches!(ServerHandlerService::<u8>::route_request(ping), ServerHandlerCall::Ping));
    let call = ClientRequest::CallToolRequest(Request {
        method: CallToolRequestMethod,
        params: CallToolRequestParam { name: "sum".to_string(), arguments: None },
        meta: None,
    });
    assert!(matches!(ServerHandlerService::<u8>::route_request(call), ServerHandlerCall::CallTool(p) if p.name == "sum"));
    let list = ClientRequest::ListToolsRequest(Request {
        method: rmcp::schema::ListToolsRequestMethod,
        params: PaginatedRequestParam { cursor: Some("c".to_string()) },
        meta: None,
    });
    assert!(matches!(ServerHandlerService::<u8>::route_request(list), ServerHandlerCall::ListTools(p) if p.cursor == Some("c".to_string())));
    let roots = ClientNotification::RootsListChangedNotification(Notification { method: RootsListChangedNotificationMethod, params: () });
    assert!(matches!(ServerHandlerService::<u8>::route_notification(roots), ServerNotificationCall::OnRootsListChanged));
}

#[test]
fn client_routes_requests_to_handler_methods() {
    let c = ClientHandlerService::new("h");
    assert_eq!(c.handler, "h");
    let roots = ServerRequest::ListRootsRequest(Request { method: ListRootsRequestMethod, params: (), meta: None });
    assert!(matches!(ClientHandlerService::<()>::route_request(roots), ClientHandlerCall::ListRoots));
    let changed = ServerNotification::ToolListChangedNotification(Notification { method: ToolListChangedNotificationMethod, params: () });
    assert!(matches!(ClientHandlerService::<()>::route_notification(changed), ClientNotificationCall::OnToolListChanged));
}

#[test]
fn transport_keeps_both_halves() {
    let t = Transport::new("sink", "stream");
    assert_eq!(t.tx, "sink");
    assert_eq!(t.rx, "stream");
}

#[test]
fn error_display_texts() {
    assert_eq!(ToolError::execution("boom".to_string()).to_display_string(), "Execution failed: boom");
    assert_eq!(ToolError::InvalidParameters("x".to_string()).to_display_string(), "Invalid parameters: x");
    assert_eq!(ToolError::SchemaError("s".to_string()).to_display_string(), "Schema error: s");
    assert_eq!(ToolError::NotFound("t".to_string()).to_display_string(), "Tool not found: t");
    assert_eq!(ResourceError::execution("gone".to_string()).to_display_string(), "Execution failed: gone");
    assert_eq!(ResourceError::NotFound("r".to_string()).to_display_string(), "Resource not found: r");
    assert_eq!(PromptError::InternalError("i".to_string()).to_display_string(), "Internal error: i");
    assert_eq!(PromptError::NotFound("p".to_string()).to_display_string(), "Prompt not found: p");
    assert_eq!(NotificationError::InvalidParameters("n".to_string()).to_display_string(), "Invalid parameters: n");
}

#[test]
fn handler_replies_are_wrapped_in_their_result() {
    assert!(matches!(wrap_server_result(Ok(ServerHandlerReply::Empty)), Ok(ServerResult::EmptyResult(_))));
    let done = CallToolResult { content: vec![], is_error: Some(false) };
    assert!(matches!(
        wrap_server_result(Ok(ServerHandlerReply::CallTool(done))),
        Ok(ServerResult::CallToolResult(r)) if r.is_error == Some(false)
    ));
    let err = ErrorData::invalid_params("bad".to_string(), None);
    assert!(matches!(wrap_server_result(Err(err)), Err(e) if e.message == "bad" && e.code == ErrorCode(INVALID_PARAMS)));
}

#[test]
fn unparsable_arguments_are_invalid_params() {
    let e = argument_parse_error("missing field `a`");
    assert_eq!(e.code, ErrorCode(INVALID_PARAMS));
    assert_eq!(e.message, "parse argument error missing field `a`");
    assert!(e.data.is_none());
}
