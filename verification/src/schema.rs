//! The MCP messages: method names, parameters and results of each request
//! and notification, and the unions that a client and a server exchange.
use crate::model::{
    ConstString, ErrorData, IdView, JsonObject, JsonRpcMessage, LatestProtocolVersion, Message, ProgressToken, RequestId,
};
use std::collections::BTreeMap;
use vstd::prelude::*;

verus! {

/// The method name of cancellation notifications: `notifications/cancelled`.
#[derive(Debug, Clone, Copy, Default, PartialEq, Eq)]
pub struct CancelledNotificationMethod;

impl ConstString for CancelledNotificationMethod {
    open spec fn spec_value() -> Seq<char> {
        "notifications/cancelled"@
    }

    fn value() -> &'static str {
        "notifications/cancelled"
    }
}

/// The method name of the initialize request: `initialize`.
#[derive(Debug, Clone, Copy, Default, PartialEq, Eq)]
pub struct InitializeResultMethod;

impl ConstString for InitializeResultMethod {
    open spec fn spec_value() -> Seq<char> {
        "initialize"@
    }

    fn value() -> &'static str {
        "initialize"
    }
}

/// The method name of the initialized notification: `notifications/initialized`.
#[derive(Debug, Clone, Copy, Default, PartialEq, Eq)]
pub struct InitializedNotificationMethod;

impl ConstString for InitializedNotificationMethod {
    open spec fn spec_value() -> Seq<char> {
        "notifications/initialized"@
    }

    fn value() -> &'static str {
        "notifications/initialized"
    }
}

/// The method name of the ping request: `ping`.
#[derive(Debug, Clone, Copy, Default, PartialEq, Eq)]
pub struct PingRequestMethod;

impl ConstString for PingRequestMethod {
    open spec fn spec_value() -> Seq<char> {
        "ping"@
    }

    fn value() -> &'static str {
        "ping"
    }
}

/// The method name of progress notifications: `notifications/progress`.
#[derive(Debug, Clone, Copy, Default, PartialEq, Eq)]
pub struct ProgressNotificationMethod;

impl ConstString for ProgressNotificationMethod {
    open spec fn spec_value() -> Seq<char> {
        "notifications/progress"@
    }

    fn value() -> &'static str {
        "notifications/progress"
    }
}

/// The method name of listing resources: `resources/list`.
#[derive(Debug, Clone, Copy, Default, PartialEq, Eq)]
pub struct ListResourcesRequestMethod;

impl ConstString for ListResourcesRequestMethod {
    open spec fn spec_value() -> Seq<char> {
        "resources/list"@
    }

    fn value() -> &'static str {
        "resources/list"
    }
}

/// The method name of listing resource templates: `resources/templates/list`.
#[derive(Debug, Clone, Copy, Default, PartialEq, Eq)]
pub struct ListResourceTemplatesRequestMethod;

impl ConstString for ListResourceTemplatesRequestMethod {
    open spec fn spec_value() -> Seq<char> {
        "resources/templates/list"@
    }

    fn value() -> &'static str {
        "resources/templates/list"
    }
}

/// The method name of reading a resource: `resources/read`.
#[derive(Debug, Clone, Copy, Default, PartialEq, Eq)]
pub struct ReadResourceRequestMethod;

impl ConstString for ReadResourceRequestMethod {
    open spec fn spec_value() -> Seq<char> {
        "resources/read"@
    }

    fn value() -> &'static str {
        "resources/read"
    }
}

/// The method name of a changed resource list: `notifications/resources/list_changed`.
#[derive(Debug, Clone, Copy, Default, PartialEq, Eq)]
pub struct ResourceListChangedNotificationMethod;

impl ConstString for ResourceListChangedNotificationMethod {
    open spec fn spec_value() -> Seq<char> {
        "notifications/resources/list_changed"@
    }

    fn value() -> &'static str {
        "notifications/resources/list_changed"
    }
}

/// The method name of subscribing to a resource: `resources/subscribe`.
#[derive(Debug, Clone, Copy, Default, PartialEq, Eq)]
pub struct SubscribeRequestMethod;

impl ConstString for SubscribeRequestMethod {
    open spec fn spec_value() -> Seq<char> {
        "resources/subscribe"@
    }

    fn value() -> &'static str {
        "resources/subscribe"
    }
}

/// The method name of unsubscribing from a resource: `resources/unsubscribe`.
#[derive(Debug, Clone, Copy, Default, PartialEq, Eq)]
pub struct UnsubscribeRequestMethod;

impl ConstString for UnsubscribeRequestMethod {
    open spec fn spec_value() -> Seq<char> {
        "resources/unsubscribe"@
    }

    fn value() -> &'static str {
        "resources/unsubscribe"
    }
}

/// The method name of an updated resource: `notifications/resources/updated`.
#[derive(Debug, Clone, Copy, Default, PartialEq, Eq)]
pub struct ResourceUpdatedNotificationMethod;

impl ConstString for ResourceUpdatedNotificationMethod {
    open spec fn spec_value() -> Seq<char> {
        "notifications/resources/updated"@
    }

    fn value() -> &'static str {
        "notifications/resources/updated"
    }
}

/// The method name of listing prompts: `prompts/list`.
#[derive(Debug, Clone, Copy, Default, PartialEq, Eq)]
pub struct ListPromptsRequestMethod;

impl ConstString for ListPromptsRequestMethod {
    open spec fn spec_value() -> Seq<char> {
        "prompts/list"@
    }

    fn value() -> &'static str {
        "prompts/list"
    }
}

/// The method name of getting a prompt: `prompts/get`.
#[derive(Debug, Clone, Copy, Default, PartialEq, Eq)]
pub struct GetPromptRequestMethod;

impl ConstString for GetPromptRequestMethod {
    open spec fn spec_value() -> Seq<char> {
        "prompts/get"@
    }

    fn value() -> &'static str {
        "prompts/get"
    }
}

/// The method name of a changed prompt list: `notifications/prompts/list_changed`.
#[derive(Debug, Clone, Copy, Default, PartialEq, Eq)]
pub struct PromptListChangedNotificationMethod;

impl ConstString for PromptListChangedNotificationMethod {
    open spec fn spec_value() -> Seq<char> {
        "notifications/prompts/list_changed"@
    }

    fn value() -> &'static str {
        "notifications/prompts/list_changed"
    }
}

/// The method name of a changed tool list: `notifications/tools/list_changed`.
#[derive(Debug, Clone, Copy, Default, PartialEq, Eq)]
pub struct ToolListChangedNotificationMethod;

impl ConstString for ToolListChangedNotificationMethod {
    open spec fn spec_value() -> Seq<char> {
        "notifications/tools/list_changed"@
    }

    fn value() -> &'static str {
        "notifications/tools/list_changed"
    }
}

/// The method name of setting the logging level: `logging/setLevel`.
#[derive(Debug, Clone, Copy, Default, PartialEq, Eq)]
pub struct SetLevelRequestMethod;

impl ConstString for SetLevelRequestMethod {
    open spec fn spec_value() -> Seq<char> {
        "logging/setLevel"@
    }

    fn value() -> &'static str {
        "logging/setLevel"
    }
}

/// The method name of log messages: `notifications/message`.
#[derive(Debug, Clone, Copy, Default, PartialEq, Eq)]
pub struct LoggingMessageNotificationMethod;

impl ConstString for LoggingMessageNotificationMethod {
    open spec fn spec_value() -> Seq<char> {
        "notifications/message"@
    }

    fn value() -> &'static str {
        "notifications/message"
    }
}

/// The method name of sampling a message: `sampling/createMessage`.
#[derive(Debug, Clone, Copy, Default, PartialEq, Eq)]
pub struct CreateMessageRequestMethod;

impl ConstString for CreateMessageRequestMethod {
    open spec fn spec_value() -> Seq<char> {
        "sampling/createMessage"@
    }

    fn value() -> &'static str {
        "sampling/createMessage"
    }
}

/// The method name of completion: `completion/complete`.
#[derive(Debug, Clone, Copy, Default, PartialEq, Eq)]
pub struct CompleteRequestMethod;

impl ConstString for CompleteRequestMethod {
    open spec fn spec_value() -> Seq<char> {
        "completion/complete"@
    }

    fn value() -> &'static str {
        "completion/complete"
    }
}

/// The method name of listing roots: `roots/list`.
#[derive(Debug, Clone, Copy, Default, PartialEq, Eq)]
pub struct ListRootsRequestMethod;

impl ConstString for ListRootsRequestMethod {
    open spec fn spec_value() -> Seq<char> {
        "roots/list"@
    }

    fn value() -> &'static str {
        "roots/list"
    }
}

/// The method name of a changed root list: `notifications/roots/list_changed`.
#[derive(Debug, Clone, Copy, Default, PartialEq, Eq)]
pub struct RootsListChangedNotificationMethod;

impl ConstString for RootsListChangedNotificationMethod {
    open spec fn spec_value() -> Seq<char> {
        "notifications/roots/list_changed"@
    }

    fn value() -> &'static str {
        "notifications/roots/list_changed"
    }
}

/// The method name of listing tools: `tools/list`.
#[derive(Debug, Clone, Copy, Default, PartialEq, Eq)]
pub struct ListToolsRequestMethod;

impl ConstString for ListToolsRequestMethod {
    open spec fn spec_value() -> Seq<char> {
        "tools/list"@
    }

    fn value() -> &'static str {
        "tools/list"
    }
}

/// The method name of calling a tool: `tools/call`.
#[derive(Debug, Clone, Copy, Default, PartialEq, Eq)]
pub struct CallToolRequestMethod;

impl ConstString for CallToolRequestMethod {
    open spec fn spec_value() -> Seq<char> {
        "tools/call"@
    }

    fn value() -> &'static str {
        "tools/call"
    }
}

/// A request: its method name, its parameters, and the `_meta` member
/// that its parameters carry, if any.
#[derive(Debug, Clone)]
pub struct Request<M, P> {
    pub method: M,
    pub params: P,
    pub meta: Option<RequestMeta>,
}

/// A notification: its method name and its parameters.
#[derive(Debug, Clone)]
pub struct Notification<M, P> {
    pub method: M,
    pub params: P,
}

/// Parameters with an optional `_meta` member beside them.
#[derive(Debug, Clone)]
pub struct WithMeta<P, M> {
    pub _meta: Option<M>,
    pub inner: P,
}

/// The `_meta` member of a request: the token its progress is reported by.
#[derive(Debug, Clone)]
pub struct RequestMeta {
    pub progress_token: ProgressToken,
}

/// The progress token that a `_meta` member names, as a value.
pub open spec fn meta_progress_token(meta: Option<RequestMeta>) -> Option<IdView> {
    match meta {
        Some(m) => Some(m.progress_token@),
        None => None,
    }
}

/// An optional token, as a value.
pub open spec fn opt_token_view(t: Option<ProgressToken>) -> Option<IdView> {
    match t {
        Some(t) => Some(t@),
        None => None,
    }
}

/// A request of any method, with untyped parameters.
pub type GenericRequest = Request<String, Option<WithMeta<JsonObject, RequestMeta>>>;

/// A notification of any method, with untyped parameters.
pub type GenericNotification = Notification<String, Option<WithMeta<JsonObject, JsonObject>>>;

/// A response that indicates success but carries no data.
#[derive(Debug, Clone, Copy, Default, PartialEq, Eq)]
pub struct EmptyResult {}

impl From<()> for EmptyResult {
    fn from(_value: ()) -> (r: EmptyResult) {
        EmptyResult {}
    }
}

/// The speaker of a message.
#[derive(Debug, Clone, Copy, PartialEq, Eq)]
pub enum Role {
    User,
    Assistant,
}

/// Text content.
#[derive(Debug, Clone)]
pub struct TextContent {
    pub text: String,
}

/// Image content: base64 data and its MIME type.
#[derive(Debug, Clone)]
pub struct ImageContent {
    pub data: String,
    pub mime_type: String,
}

/// A piece of content of a message or of a tool result.
#[derive(Debug, Clone)]
pub enum Content {
    Text(TextContent),
    Image(ImageContent),
}

impl Content {
    /// Text content.
    pub fn text(text: String) -> (r: Content)
        ensures
            r matches Content::Text(t) && t.text@ == text@,
    {
        Content::Text(TextContent { text })
    }
}

/// A resource that a server offers.
#[derive(Debug, Clone)]
pub struct Resource {
    pub uri: String,
    pub name: String,
    pub description: Option<String>,
    pub mime_type: Option<String>,
}

/// The contents of a resource: text or base64 data.
#[derive(Debug, Clone)]
pub enum ResourceContents {
    TextResourceContents { uri: String, mime_type: Option<String>, text: String },
    BlobResourceContents { uri: String, mime_type: Option<String>, blob: String },
}

/// An argument that a prompt takes.
#[derive(Debug, Clone)]
pub struct PromptArgument {
    pub name: String,
    pub description: Option<String>,
    pub required: Option<bool>,
}

/// A prompt that a server offers.
#[derive(Debug, Clone)]
pub struct Prompt {
    pub name: String,
    pub description: Option<String>,
    pub arguments: Option<Vec<PromptArgument>>,
}

/// The speaker of a prompt message.
#[derive(Debug, Clone, Copy, PartialEq, Eq)]
pub enum PromptMessageRole {
    User,
    Assistant,
}

/// The content of a prompt message.
#[derive(Debug, Clone)]
pub enum PromptMessageContent {
    Text { text: String },
}

/// A message of a prompt.
#[derive(Debug, Clone)]
pub struct PromptMessage {
    pub role: PromptMessageRole,
    pub content: PromptMessageContent,
}

/// A tool that a server offers.
#[derive(Debug, Clone)]
pub struct Tool {
    /// The name of the tool.
    pub name: String,
    /// A description of what the tool does.
    pub description: String,
    /// A JSON Schema object defining the expected parameters for the tool.
    pub input_schema: JsonObject,
}

impl Tool {
    /// A tool with the given name, description and input schema.
    pub fn new(name: String, description: String, input_schema: JsonObject) -> (r: Tool)
        ensures
            r.name@ == name@,
            r.description@ == description@,
            r.input_schema == input_schema,
    {
        Tool { name, description, input_schema }
    }
}

/// A call of a tool: its name and arguments.
#[derive(Debug, Clone)]
pub struct ToolCall {
    pub name: String,
    pub arguments: serde_json::Value,
}

impl ToolCall {
    /// A call of the named tool with the given arguments.
    pub fn new(name: String, arguments: serde_json::Value) -> (r: ToolCall)
        ensures
            r.name@ == name@,
            r.arguments == arguments,
    {
        ToolCall { name, arguments }
    }
}

/// # Cancellation
/// Parameters of a notification that a previously issued request is
/// cancelled.
#[derive(Debug, Clone)]
pub struct CancelledNotificationParam {
    pub request_id: RequestId,
    pub reason: Option<String>,
}

/// Cancels a previously issued request.
pub type CancelledNotification = Notification<CancelledNotificationMethod, CancelledNotificationParam>;

/// # Initialization
/// Sent from the client to the server when it first connects.
pub type InitializeRequest = Request<InitializeResultMethod, InitializeRequestParam>;

/// Sent from the client to the server after initialization has finished.
pub type InitializedNotification = Notification<InitializedNotificationMethod, ()>;

/// What a client tells about itself when it connects.
#[derive(Debug, Clone)]
pub struct InitializeRequestParam {
    pub protocol_version: String,
    pub capabilities: ClientCapabilities,
    pub server_info: Implementation,
}

/// What a server answers to the initialize request.
#[derive(Debug, Clone)]
pub struct InitializeResult {
    pub protocol_version: LatestProtocolVersion,
    pub capabilities: ServerCapabilities,
    pub server_info: Implementation,
    pub instructions: Option<String>,
}

/// What a client says about itself.
pub type ClientInfo = InitializeRequestParam;

/// What a server says about itself.
pub type ServerInfo = InitializeResult;

/// Capabilities outside the specification.
pub type ExperimentalCapabilities = BTreeMap<String, JsonObject>;

/// Whether the client announces changes of its root list.
#[derive(Debug, Clone, Copy)]
pub struct RootsCapabilities {
    pub list_changed: Option<bool>,
}

/// What a client can do.
#[derive(Debug, Clone)]
pub struct ClientCapabilities {
    pub experimental: Option<ExperimentalCapabilities>,
    pub roots: Option<RootsCapabilities>,
    pub sampling: Option<JsonObject>,
}

/// What a server can do.
#[derive(Debug, Clone)]
pub struct ServerCapabilities {
    pub experimental: Option<ExperimentalCapabilities>,
    pub logging: Option<JsonObject>,
    pub prompts: Option<PromptsCapability>,
    pub resources: Option<ResourcesCapability>,
    pub tools: Option<ToolsCapability>,
}

impl Default for ServerCapabilities {
    fn default() -> (r: ServerCapabilities)
        ensures
            r.experimental is None,
            r.logging is None,
            r.prompts is None,
            r.resources is None,
            r.tools is None,
    {
        ServerCapabilities { experimental: None, logging: None, prompts: None, resources: None, tools: None }
    }
}

impl Default for ClientCapabilities {
    fn default() -> (r: ClientCapabilities)
        ensures
            r.experimental is None,
            r.roots is None,
            r.sampling is None,
    {
        ClientCapabilities { experimental: None, roots: None, sampling: None }
    }
}

/// The name and version of an implementation.
#[derive(Debug, Clone)]
pub struct Implementation {
    pub name: String,
    pub version: String,
}

/// The name of this crate, as it describes itself.
pub open spec fn build_name() -> Seq<char> {
    "rmcp"@
}

/// The version of this crate, as it describes itself.
pub open spec fn build_version() -> Seq<char> {
    "0.1.0"@
}

impl Implementation {
    /// This crate's own name and version.
    pub fn from_build_env() -> (r: Implementation)
        ensures
            r.name@ == build_name(),
            r.version@ == build_version(),
    {
        Implementation { name: "rmcp".to_owned(), version: "0.1.0".to_owned() }
    }
}

impl Default for Implementation {
    fn default() -> (r: Implementation)
        ensures
            r.name@ == build_name(),
            r.version@ == build_version(),
    {
        Self::from_build_env()
    }
}

impl Default for InitializeRequestParam {
    fn default() -> (r: InitializeRequestParam)
        ensures
            r.protocol_version@ == LatestProtocolVersion::spec_value(),
            r.capabilities.experimental is None,
            r.capabilities.roots is None,
            r.capabilities.sampling is None,
            r.server_info.name@ == build_name(),
            r.server_info.version@ == build_version(),
    {
        InitializeRequestParam {
            protocol_version: LatestProtocolVersion::value().to_owned(),
            capabilities: ClientCapabilities::default(),
            server_info: Implementation::from_build_env(),
        }
    }
}

/// Whether the server announces changes of its prompt list.
#[derive(Debug, Clone, Copy)]
pub struct PromptsCapability {
    pub list_changed: Option<bool>,
}

/// Whether the server supports subscriptions and announces changes of its
/// resource list.
#[derive(Debug, Clone, Copy)]
pub struct ResourcesCapability {
    pub subscribe: Option<bool>,
    pub list_changed: Option<bool>,
}

/// Whether the server announces changes of its tool list.
#[derive(Debug, Clone, Copy)]
pub struct ToolsCapability {
    pub list_changed: Option<bool>,
}

/// Parameters of a paginated listing: where to continue.
#[derive(Debug, Clone)]
pub struct PaginatedRequestParam {
    pub cursor: Option<String>,
}

/// A liveness check.
pub type PingRequest = Request<PingRequestMethod, ()>;

/// Progress of a long-running request.
#[derive(Debug, Clone)]
pub struct ProgressNotificationParam {
    pub progress_token: ProgressToken,
    pub progress: i32,
    pub total: i32,
}

/// Reports progress of a request.
pub type ProgressNotification = Notification<ProgressNotificationMethod, ProgressNotificationParam>;

/// An opaque position in a paginated listing.
pub type Cursor = String;

/// Lists the resources of a server.
pub type ListResourcesRequest = Request<ListResourcesRequestMethod, PaginatedRequestParam>;

/// One page of resources.
#[derive(Debug, Clone)]
pub struct ListResourcesResult {
    pub next_cursor: Option<Cursor>,
    pub resources: Vec<Resource>,
}

/// Lists the resource templates of a server.
pub type ListResourceTemplatesRequest = Request<ListResourceTemplatesRequestMethod, PaginatedRequestParam>;

/// One page of resource templates.
#[derive(Debug, Clone)]
pub struct ListResourceTemplatesResult {
    pub next_cursor: Option<Cursor>,
    pub resource_templates: Vec<Resource>,
}

/// Which resource to read.
#[derive(Debug, Clone)]
pub struct ReadResourceRequestParam {
    pub uri: String,
}

/// The contents of a resource.
#[derive(Debug, Clone)]
pub struct ReadResourceResult {
    pub contents: Vec<ResourceContents>,
}

/// Reads a resource.
pub type ReadResourceRequest = Request<ReadResourceRequestMethod, ReadResourceRequestParam>;

/// Announces that the resource list changed.
pub type ResourceListChangedNotification = Notification<ResourceListChangedNotificationMethod, ()>;

/// Which resource to subscribe to.
#[derive(Debug, Clone)]
pub struct SubscribeRequestParam {
    pub uri: String,
}

/// Subscribes to updates of a resource.
pub type SubscribeRequest = Request<SubscribeRequestMethod, SubscribeRequestParam>;

/// Which resource to unsubscribe from.
#[derive(Debug, Clone)]
pub struct UnsubscribeRequestParam {
    pub uri: String,
}

/// Ends a subscription.
pub type UnsubscribeRequest = Request<UnsubscribeRequestMethod, UnsubscribeRequestParam>;

/// Which resource was updated.
#[derive(Debug, Clone)]
pub struct ResourceUpdatedNotificationParam {
    pub uri: String,
}

/// Announces that a resource was updated.
pub type ResourceUpdatedNotification = Notification<ResourceUpdatedNotificationMethod, ResourceUpdatedNotificationParam>;

/// Lists the prompts of a server.
pub type ListPromptsRequest = Request<ListPromptsRequestMethod, PaginatedRequestParam>;

/// One page of prompts.
#[derive(Debug, Clone)]
pub struct ListPromptsResult {
    pub next_cursor: Option<Cursor>,
    pub prompts: Vec<Prompt>,
}

/// Which prompt to get, with its arguments.
#[derive(Debug, Clone)]
pub struct GetPromptRequestParam {
    pub name: String,
    pub arguments: Option<BTreeMap<String, String>>,
}

/// Gets a prompt.
pub type GetPromptRequest = Request<GetPromptRequestMethod, GetPromptRequestParam>;

/// Announces that the prompt list changed.
pub type PromptListChangedNotification = Notification<PromptListChangedNotificationMethod, ()>;

/// Announces that the tool list changed.
pub type ToolListChangedNotification = Notification<ToolListChangedNotificationMethod, ()>;

/// The severity of a log message.
#[derive(Debug, Clone, Copy, PartialEq, Eq)]
pub enum LoggingLevel {
    Debug,
    Info,
    Notice,
    Warning,
    Error,
    Critical,
    Alert,
    Emergency,
}

/// The least severity of the log messages the client wants.
#[derive(Debug, Clone, Copy)]
pub struct SetLevelRequestParam {
    pub level: LoggingLevel,
}

/// Sets the logging level.
pub type SetLevelRequest = Request<SetLevelRequestMethod, SetLevelRequestParam>;

/// A log message.
#[derive(Debug, Clone)]
pub struct LoggingMessageNotificationParam {
    pub level: LoggingLevel,
    pub logger: Option<String>,
    pub data: serde_json::Value,
}

/// Sends a log message.
pub type LoggingMessageNotification = Notification<LoggingMessageNotificationMethod, LoggingMessageNotificationParam>;

/// Asks the client to sample a message from a model.
pub type CreateMessageRequest = Request<CreateMessageRequestMethod, CreateMessageRequestParam>;

/// A message given to or taken from a model.
#[derive(Debug, Clone)]
pub struct SamplingMessage {
    pub role: Role,
    pub content: Content,
}

/// Parameters of sampling. The sampling temperature is held as the bits of
/// its IEEE 754 single-precision value (`f32::to_bits`).
#[derive(Debug, Clone)]
pub struct CreateMessageRequestParam {
    pub messages: Vec<SamplingMessage>,
    pub model_preferences: Option<ModelPreferences>,
    pub system_prompt: Option<String>,
    pub include_context: Option<String>,
    pub temperature: Option<u32>,
    pub max_tokens: u32,
    pub stop_sequences: Option<Vec<String>>,
    pub metadata: Option<serde_json::Value>,
}

/// Which model the client should prefer. The priorities are held as the
/// bits of their IEEE 754 single-precision values (`f32::to_bits`).
#[derive(Debug, Clone)]
pub struct ModelPreferences {
    pub hints: Option<Vec<ModelHint>>,
    pub cost_priority: Option<u32>,
    pub speed_priority: Option<u32>,
    pub intelligence_priority: Option<u32>,
}

/// A hint at a model name.
#[derive(Debug, Clone)]
pub struct ModelHint {
    pub name: Option<String>,
}

/// What to complete: a reference (the `ref` member on the wire) and an
/// argument.
#[derive(Debug, Clone)]
pub struct CompleteRequestParam {
    pub reference: Reference,
    pub argument: ArgumentInfo,
}

/// Asks for completions of an argument.
pub type CompleteRequest = Request<CompleteRequestMethod, CompleteRequestParam>;

/// Completion values.
#[derive(Debug, Clone)]
pub struct CompletionInfo {
    pub values: Vec<String>,
    pub total: Option<u32>,
    pub has_more: Option<bool>,
}

/// The result of a completion request.
#[derive(Debug, Clone)]
pub struct CompleteResult {
    pub completion: CompletionInfo,
}

/// What a completion refers to.
#[derive(Debug, Clone)]
pub enum Reference {
    Resource(ResourceReference),
    Prompt(PromptReference),
}

/// A resource, by URI.
#[derive(Debug, Clone)]
pub struct ResourceReference {
    pub uri: String,
}

/// A prompt, by name.
#[derive(Debug, Clone)]
pub struct PromptReference {
    pub name: String,
}

/// The argument being completed.
#[derive(Debug, Clone)]
pub struct ArgumentInfo {
    pub name: String,
    pub value: String,
}

/// A root that a client exposes.
#[derive(Debug, Clone)]
pub struct Root {
    pub uri: String,
    pub name: Option<String>,
}

/// Asks the client for its roots.
pub type ListRootsRequest = Request<ListRootsRequestMethod, ()>;

/// The roots of a client.
#[derive(Debug, Clone)]
pub struct ListRootsResult {
    pub roots: Vec<Root>,
}

/// Announces that the root list changed.
pub type RootsListChangedNotification = Notification<RootsListChangedNotificationMethod, ()>;

/// The result of a tool call.
#[derive(Debug, Clone)]
pub struct CallToolResult {
    pub content: Vec<Content>,
    pub is_error: Option<bool>,
}

impl CallToolResult {
    /// A successful result with the given content.
    pub fn success(content: Vec<Content>) -> (r: CallToolResult)
        ensures
            r.content@ == content@,
            r.is_error == Some(false),
    {
        CallToolResult { content, is_error: Some(false) }
    }
}

/// Lists the tools of a server.
pub type ListToolsRequest = Request<ListToolsRequestMethod, PaginatedRequestParam>;

/// One page of tools.
#[derive(Debug, Clone)]
pub struct ListToolsResult {
    pub next_cursor: Option<Cursor>,
    pub tools: Vec<Tool>,
}

/// Which tool to call, with its arguments.
#[derive(Debug, Clone)]
pub struct CallToolRequestParam {
    pub name: String,
    pub arguments: Option<BTreeMap<String, serde_json::Value>>,
}

/// Calls a tool.
pub type CallToolRequest = Request<CallToolRequestMethod, CallToolRequestParam>;

/// A sampled message.
#[derive(Debug, Clone)]
pub struct CreateMessageResult {
    pub model: String,
    pub stop_reason: Option<String>,
    pub message: SamplingMessage,
}

impl CreateMessageResult {
    /// The model ended its turn.
    pub const STOP_REASON_END_TURN: &'static str = "endTurn";
    /// The model hit a stop sequence.
    pub const STOP_REASON_END_SEQUENCE: &'static str = "stopSequence";
    /// The model reached the token limit.
    pub const STOP_REASON_END_MAX_TOKEN: &'static str = "maxTokens";
}

/// A prompt with its arguments filled in.
#[derive(Debug, Clone)]
pub struct GetPromptResult {
    pub description: Option<String>,
    pub messages: Vec<PromptMessage>,
}

/// The requests a client sends.
#[derive(Debug, Clone)]
pub enum ClientRequest {
    PingRequest(PingRequest),
    InitializeRequest(InitializeRequest),
    CompleteRequest(CompleteRequest),
    SetLevelRequest(SetLevelRequest),
    GetPromptRequest(GetPromptRequest),
    ListPromptsRequest(ListPromptsRequest),
    ListResourcesRequest(ListResourcesRequest),
    ListResourceTemplatesRequest(ListResourceTemplatesRequest),
    ReadResourceRequest(ReadResourceRequest),
    SubscribeRequest(SubscribeRequest),
    UnsubscribeRequest(UnsubscribeRequest),
    CallToolRequest(CallToolRequest),
    ListToolsRequest(ListToolsRequest),
}

impl ClientRequest {
    /// The `_meta` member of the request.
    pub open spec fn spec_meta(self) -> Option<RequestMeta> {
        match self {
            ClientRequest::PingRequest(r) => r.meta,
            ClientRequest::InitializeRequest(r) => r.meta,
            ClientRequest::CompleteRequest(r) => r.meta,
            ClientRequest::SetLevelRequest(r) => r.meta,
            ClientRequest::GetPromptRequest(r) => r.meta,
            ClientRequest::ListPromptsRequest(r) => r.meta,
            ClientRequest::ListResourcesRequest(r) => r.meta,
            ClientRequest::ListResourceTemplatesRequest(r) => r.meta,
            ClientRequest::ReadResourceRequest(r) => r.meta,
            ClientRequest::SubscribeRequest(r) => r.meta,
            ClientRequest::UnsubscribeRequest(r) => r.meta,
            ClientRequest::CallToolRequest(r) => r.meta,
            ClientRequest::ListToolsRequest(r) => r.meta,
        }
    }

    /// The same request with the given `_meta` member.
    pub open spec fn spec_with_meta(self, meta: Option<RequestMeta>) -> ClientRequest {
        match self {
            ClientRequest::PingRequest(r) => ClientRequest::PingRequest(Request { method: r.method, params: r.params, meta }),
            ClientRequest::InitializeRequest(r) => ClientRequest::InitializeRequest(Request { method: r.method, params: r.params, meta }),
            ClientRequest::CompleteRequest(r) => ClientRequest::CompleteRequest(Request { method: r.method, params: r.params, meta }),
            ClientRequest::SetLevelRequest(r) => ClientRequest::SetLevelRequest(Request { method: r.method, params: r.params, meta }),
            ClientRequest::GetPromptRequest(r) => ClientRequest::GetPromptRequest(Request { method: r.method, params: r.params, meta }),
            ClientRequest::ListPromptsRequest(r) => ClientRequest::ListPromptsRequest(Request { method: r.method, params: r.params, meta }),
            ClientRequest::ListResourcesRequest(r) => ClientRequest::ListResourcesRequest(Request { method: r.method, params: r.params, meta }),
            ClientRequest::ListResourceTemplatesRequest(r) => ClientRequest::ListResourceTemplatesRequest(Request { method: r.method, params: r.params, meta }),
            ClientRequest::ReadResourceRequest(r) => ClientRequest::ReadResourceRequest(Request { method: r.method, params: r.params, meta }),
            ClientRequest::SubscribeRequest(r) => ClientRequest::SubscribeRequest(Request { method: r.method, params: r.params, meta }),
            ClientRequest::UnsubscribeRequest(r) => ClientRequest::UnsubscribeRequest(Request { method: r.method, params: r.params, meta }),
            ClientRequest::CallToolRequest(r) => ClientRequest::CallToolRequest(Request { method: r.method, params: r.params, meta }),
            ClientRequest::ListToolsRequest(r) => ClientRequest::ListToolsRequest(Request { method: r.method, params: r.params, meta }),
        }
    }

    /// The `_meta` member of the request.
    pub fn meta(&self) -> (r: &Option<RequestMeta>)
        ensures
            *r == self.spec_meta(),
    {
        match self {
            ClientRequest::PingRequest(r) => &r.meta,
            ClientRequest::InitializeRequest(r) => &r.meta,
            ClientRequest::CompleteRequest(r) => &r.meta,
            ClientRequest::SetLevelRequest(r) => &r.meta,
            ClientRequest::GetPromptRequest(r) => &r.meta,
            ClientRequest::ListPromptsRequest(r) => &r.meta,
            ClientRequest::ListResourcesRequest(r) => &r.meta,
            ClientRequest::ListResourceTemplatesRequest(r) => &r.meta,
            ClientRequest::ReadResourceRequest(r) => &r.meta,
            ClientRequest::SubscribeRequest(r) => &r.meta,
            ClientRequest::UnsubscribeRequest(r) => &r.meta,
            ClientRequest::CallToolRequest(r) => &r.meta,
            ClientRequest::ListToolsRequest(r) => &r.meta,
        }
    }

    /// The same request with the given `_meta` member.
    pub fn with_meta(self, meta: Option<RequestMeta>) -> (r: ClientRequest)
        ensures
            r == self.spec_with_meta(meta),
            r.spec_meta() == meta,
    {
        match self {
            ClientRequest::PingRequest(r) => ClientRequest::PingRequest(Request { method: r.method, params: r.params, meta }),
            ClientRequest::InitializeRequest(r) => ClientRequest::InitializeRequest(Request { method: r.method, params: r.params, meta }),
            ClientRequest::CompleteRequest(r) => ClientRequest::CompleteRequest(Request { method: r.method, params: r.params, meta }),
            ClientRequest::SetLevelRequest(r) => ClientRequest::SetLevelRequest(Request { method: r.method, params: r.params, meta }),
            ClientRequest::GetPromptRequest(r) => ClientRequest::GetPromptRequest(Request { method: r.method, params: r.params, meta }),
            ClientRequest::ListPromptsRequest(r) => ClientRequest::ListPromptsRequest(Request { method: r.method, params: r.params, meta }),
            ClientRequest::ListResourcesRequest(r) => ClientRequest::ListResourcesRequest(Request { method: r.method, params: r.params, meta }),
            ClientRequest::ListResourceTemplatesRequest(r) => ClientRequest::ListResourceTemplatesRequest(Request { method: r.method, params: r.params, meta }),
            ClientRequest::ReadResourceRequest(r) => ClientRequest::ReadResourceRequest(Request { method: r.method, params: r.params, meta }),
            ClientRequest::SubscribeRequest(r) => ClientRequest::SubscribeRequest(Request { method: r.method, params: r.params, meta }),
            ClientRequest::UnsubscribeRequest(r) => ClientRequest::UnsubscribeRequest(Request { method: r.method, params: r.params, meta }),
            ClientRequest::CallToolRequest(r) => ClientRequest::CallToolRequest(Request { method: r.method, params: r.params, meta }),
            ClientRequest::ListToolsRequest(r) => ClientRequest::ListToolsRequest(Request { method: r.method, params: r.params, meta }),
        }
    }

    /// The token by which the request's progress is reported: the one in
    /// its `_meta` member, if it has one.
    pub fn progress_token(&self) -> (r: Option<ProgressToken>)
        ensures
            meta_progress_token(self.spec_meta()) == opt_token_view(r),
    {
        match self.meta() {
            Some(m) => Some(m.progress_token.copied()),
            None => None,
        }
    }
}

/// The notifications a client sends.
#[derive(Debug, Clone)]
pub enum ClientNotification {
    CancelledNotification(CancelledNotification),
    ProgressNotification(ProgressNotification),
    InitializedNotification(InitializedNotification),
    RootsListChangedNotification(RootsListChangedNotification),
}

/// The results a client sends.
#[derive(Debug, Clone)]
pub enum ClientResult {
    EmptyResult(EmptyResult),
    CreateMessageResult(CreateMessageResult),
    ListRootsResult(ListRootsResult),
}

impl ClientResult {
    /// The empty result.
    pub fn empty(_unit: ()) -> (r: ClientResult)
        ensures
            r is EmptyResult,
    {
        ClientResult::EmptyResult(EmptyResult {})
    }
}

/// A wire message from a client.
pub type ClientJsonRpcMessage = JsonRpcMessage<ClientRequest, ClientResult, ClientNotification>;

/// A message from a client.
pub type ClientMessage = Message<ClientRequest, ClientResult, ClientNotification>;

/// The requests a server sends.
#[derive(Debug, Clone)]
pub enum ServerRequest {
    PingRequest(PingRequest),
    CreateMessageRequest(CreateMessageRequest),
    ListRootsRequest(ListRootsRequest),
}

impl ServerRequest {
    /// The `_meta` member of the request.
    pub open spec fn spec_meta(self) -> Option<RequestMeta> {
        match self {
            ServerRequest::PingRequest(r) => r.meta,
            ServerRequest::CreateMessageRequest(r) => r.meta,
            ServerRequest::ListRootsRequest(r) => r.meta,
        }
    }

    /// The same request with the given `_meta` member.
    pub open spec fn spec_with_meta(self, meta: Option<RequestMeta>) -> ServerRequest {
        match self {
            ServerRequest::PingRequest(r) => ServerRequest::PingRequest(Request { method: r.method, params: r.params, meta }),
            ServerRequest::CreateMessageRequest(r) => ServerRequest::CreateMessageRequest(Request { method: r.method, params: r.params, meta }),
            ServerRequest::ListRootsRequest(r) => ServerRequest::ListRootsRequest(Request { method: r.method, params: r.params, meta }),
        }
    }

    /// The `_meta` member of the request.
    pub fn meta(&self) -> (r: &Option<RequestMeta>)
        ensures
            *r == self.spec_meta(),
    {
        match self {
            ServerRequest::PingRequest(r) => &r.meta,
            ServerRequest::CreateMessageRequest(r) => &r.meta,
            ServerRequest::ListRootsRequest(r) => &r.meta,
        }
    }

    /// The same request with the given `_meta` member.
    pub fn with_meta(self, meta: Option<RequestMeta>) -> (r: ServerRequest)
        ensures
            r == self.spec_with_meta(meta),
            r.spec_meta() == meta,
    {
        match self {
            ServerRequest::PingRequest(r) => ServerRequest::PingRequest(Request { method: r.method, params: r.params, meta }),
            ServerRequest::CreateMessageRequest(r) => ServerRequest::CreateMessageRequest(Request { method: r.method, params: r.params, meta }),
            ServerRequest::ListRootsRequest(r) => ServerRequest::ListRootsRequest(Request { method: r.method, params: r.params, meta }),
        }
    }

    /// The token by which the request's progress is reported: the one in
    /// its `_meta` member, if it has one.
    pub fn progress_token(&self) -> (r: Option<ProgressToken>)
        ensures
            meta_progress_token(self.spec_meta()) == opt_token_view(r),
    {
        match self.meta() {
            Some(m) => Some(m.progress_token.copied()),
            None => None,
        }
    }
}

/// The notifications a server sends.
#[derive(Debug, Clone)]
pub enum ServerNotification {
    CancelledNotification(CancelledNotification),
    ProgressNotification(ProgressNotification),
    LoggingMessageNotification(LoggingMessageNotification),
    ResourceUpdatedNotification(ResourceUpdatedNotification),
    ResourceListChangedNotification(ResourceListChangedNotification),
    ToolListChangedNotification(ToolListChangedNotification),
    PromptListChangedNotification(PromptListChangedNotification),
}

/// The results a server sends.
#[derive(Debug, Clone)]
pub enum ServerResult {
    EmptyResult(EmptyResult),
    InitializeResult(InitializeResult),
    CompleteResult(CompleteResult),
    GetPromptResult(GetPromptResult),
    ListPromptsResult(ListPromptsResult),
    ListResourcesResult(ListResourcesResult),
    ListResourceTemplatesResult(ListResourceTemplatesResult),
    ReadResourceResult(ReadResourceResult),
    CallToolResult(CallToolResult),
    ListToolsResult(ListToolsResult),
}

impl ServerResult {
    /// The empty result.
    pub fn empty(_unit: ()) -> (r: ServerResult)
        ensures
            r is EmptyResult,
    {
        ServerResult::EmptyResult(EmptyResult {})
    }
}

/// A wire message from a server.
pub type ServerJsonRpcMessage = JsonRpcMessage<ServerRequest, ServerResult, ServerNotification>;

/// A message from a server.
pub type ServerMessage = Message<ServerRequest, ServerResult, ServerNotification>;

} // verus!
