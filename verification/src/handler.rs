//! What the handlers of a client or a server are built from: their error
//! kinds, tools made of functions, the registry of tools by name, the
//! capabilities a server announces, and which handler method each request
//! and notification of the peer goes to.
use crate::model::{ConstString, ErrorData, ErrorCode, LatestProtocolVersion, METHOD_NOT_FOUND, INVALID_PARAMS};
use crate::registry::{entries_map, entry_index, ids_unique, map_get, lemma_entries_map_push, lemma_entries_map_remove, lemma_entries_map_update, lemma_entry_index_bounds, lemma_entry_index_found, lemma_entry_index_spec};
use crate::schema::{
    CallToolRequestParam, CancelledNotificationParam, ClientNotification, ClientRequest, CompleteRequestParam,
    CallToolResult, CompleteResult, CreateMessageRequestParam, EmptyResult, GetPromptRequestParam, GetPromptResult,
    Implementation, InitializeRequestParam, InitializeResult, ListPromptsResult, ListResourceTemplatesResult,
    ListResourcesResult, ListToolsResult, LoggingMessageNotificationParam, PaginatedRequestParam, ReadResourceResult,
    ServerResult, ProgressNotificationParam, PromptsCapability,
    ReadResourceRequestParam, ResourceUpdatedNotificationParam, ResourcesCapability, ServerCapabilities,
    ServerNotification, ServerRequest, SetLevelRequestParam, SubscribeRequestParam, ToolsCapability,
    UnsubscribeRequestParam, build_name, build_version,
};
use crate::text::string_push_str;
use std::marker::PhantomData;
use vstd::prelude::*;

verus! {

/// Why a tool call failed.
#[derive(Debug, Clone, PartialEq)]
pub enum ToolError {
    InvalidParameters(String),
    ExecutionError(String),
    SchemaError(String),
    NotFound(String),
}

impl ToolError {
    /// A failed execution, described by `text` (the caller's text of the
    /// error it ran into).
    pub fn execution(text: String) -> (r: ToolError)
        ensures
            r == ToolError::ExecutionError(text),
    {
        ToolError::ExecutionError(text)
    }

    /// The text by which the error is displayed.
    pub open spec fn spec_display(&self) -> Seq<char> {
        match self {
            ToolError::InvalidParameters(s) => "Invalid parameters: "@ + s@,
            ToolError::ExecutionError(s) => "Execution failed: "@ + s@,
            ToolError::SchemaError(s) => "Schema error: "@ + s@,
            ToolError::NotFound(s) => "Tool not found: "@ + s@,
        }
    }

    /// The text by which the error is displayed: what failed, then the
    /// error's own text.
    pub fn to_display_string(&self) -> (r: String)
        ensures
            r@ == self.spec_display(),
    {
        match self {
            ToolError::InvalidParameters(s) => {
                let mut out = "Invalid parameters: ".to_owned();
                string_push_str(&mut out, s.as_str());
                out
            },
            ToolError::ExecutionError(s) => {
                let mut out = "Execution failed: ".to_owned();
                string_push_str(&mut out, s.as_str());
                out
            },
            ToolError::SchemaError(s) => {
                let mut out = "Schema error: ".to_owned();
                string_push_str(&mut out, s.as_str());
                out
            },
            ToolError::NotFound(s) => {
                let mut out = "Tool not found: ".to_owned();
                string_push_str(&mut out, s.as_str());
                out
            },
        }
    }
}

/// The outcome of a tool.
pub type ToolResult<T> = Result<T, ToolError>;

/// Why reading a resource failed.
#[derive(Debug)]
pub enum ResourceError {
    ExecutionError(String),
    NotFound(String),
}

impl ResourceError {
    /// A failed execution, described by `text` (the caller's text of the
    /// error it ran into).
    pub fn execution(text: String) -> (r: ResourceError)
        ensures
            r == ResourceError::ExecutionError(text),
    {
        ResourceError::ExecutionError(text)
    }

    /// The text by which the error is displayed.
    pub open spec fn spec_display(&self) -> Seq<char> {
        match self {
            ResourceError::ExecutionError(s) => "Execution failed: "@ + s@,
            ResourceError::NotFound(s) => "Resource not found: "@ + s@,
        }
    }

    /// The text by which the error is displayed: what failed, then the
    /// error's own text.
    pub fn to_display_string(&self) -> (r: String)
        ensures
            r@ == self.spec_display(),
    {
        match self {
            ResourceError::ExecutionError(s) => {
                let mut out = "Execution failed: ".to_owned();
                string_push_str(&mut out, s.as_str());
                out
            },
            ResourceError::NotFound(s) => {
                let mut out = "Resource not found: ".to_owned();
                string_push_str(&mut out, s.as_str());
                out
            },
        }
    }
}

/// Why getting a prompt failed.
#[derive(Debug)]
pub enum PromptError {
    InvalidParameters(String),
    InternalError(String),
    NotFound(String),
}

impl PromptError {
    /// The text by which the error is displayed.
    pub open spec fn spec_display(&self) -> Seq<char> {
        match self {
            PromptError::InvalidParameters(s) => "Invalid parameters: "@ + s@,
            PromptError::InternalError(s) => "Internal error: "@ + s@,
            PromptError::NotFound(s) => "Prompt not found: "@ + s@,
        }
    }

    /// The text by which the error is displayed: what failed, then the
    /// error's own text.
    pub fn to_display_string(&self) -> (r: String)
        ensures
            r@ == self.spec_display(),
    {
        match self {
            PromptError::InvalidParameters(s) => {
                let mut out = "Invalid parameters: ".to_owned();
                string_push_str(&mut out, s.as_str());
                out
            },
            PromptError::InternalError(s) => {
                let mut out = "Internal error: ".to_owned();
                string_push_str(&mut out, s.as_str());
                out
            },
            PromptError::NotFound(s) => {
                let mut out = "Prompt not found: ".to_owned();
                string_push_str(&mut out, s.as_str());
                out
            },
        }
    }
}

/// Why handling a notification failed.
#[derive(Debug)]
pub enum NotificationError {
    InvalidParameters(String),
    InternalError(String),
    NotFound(String),
}

impl NotificationError {
    /// The text by which the error is displayed.
    pub open spec fn spec_display(&self) -> Seq<char> {
        match self {
            NotificationError::InvalidParameters(s) => "Invalid parameters: "@ + s@,
            NotificationError::InternalError(s) => "Internal error: "@ + s@,
            NotificationError::NotFound(s) => "Prompt not found: "@ + s@,
        }
    }

    /// The text by which the error is displayed: what failed, then the
    /// error's own text.
    pub fn to_display_string(&self) -> (r: String)
        ensures
            r@ == self.spec_display(),
    {
        match self {
            NotificationError::InvalidParameters(s) => {
                let mut out = "Invalid parameters: ".to_owned();
                string_push_str(&mut out, s.as_str());
                out
            },
            NotificationError::InternalError(s) => {
                let mut out = "Internal error: ".to_owned();
                string_push_str(&mut out, s.as_str());
                out
            },
            NotificationError::NotFound(s) => {
                let mut out = "Prompt not found: ".to_owned();
                string_push_str(&mut out, s.as_str());
                out
            },
        }
    }
}

/// A tool made of a function: its name, its description, and the function
/// that runs it on parameters of type `P`, giving `Fut`.
pub struct FunctionHandler<F, P, Fut> {
    name: &'static str,
    description: &'static str,
    f: F,
    _params: PhantomData<(P, Fut)>,
}

impl<F, P, Fut> FunctionHandler<F, P, Fut> {
    /// The tool named `name`, described by `description`, that runs `f`.
    pub fn new(name: &'static str, description: &'static str, f: F) -> (r: Self)
        ensures
            r.spec_name() == name,
            r.spec_description() == description,
            r.spec_function() == f,
    {
        FunctionHandler { name, description, f, _params: PhantomData }
    }

    /// The name of the tool.
    pub closed spec fn spec_name(&self) -> &'static str {
        self.name
    }

    /// The description of the tool.
    pub closed spec fn spec_description(&self) -> &'static str {
        self.description
    }

    /// The function of the tool.
    pub closed spec fn spec_function(&self) -> F {
        self.f
    }

    /// The name of the tool.
    pub fn name(&self) -> (r: &'static str)
        ensures
            r == self.spec_name(),
    {
        self.name
    }

    /// The description of the tool.
    pub fn description(&self) -> (r: &'static str)
        ensures
            r == self.spec_description(),
    {
        self.description
    }

    /// The function of the tool.
    pub fn function(&self) -> (r: &F)
        ensures
            *r == self.spec_function(),
    {
        &self.f
    }
}

/// A tool of a server made of a function: its name, its description, and
/// the function that runs it on parameters of type `P`, giving `Fut`.
pub struct FunctionTool<F, P, Fut> {
    name: String,
    description: String,
    f: F,
    _params: PhantomData<(P, Fut)>,
}

impl<F, P, Fut> FunctionTool<F, P, Fut> {
    /// The tool named `name`, described by `description`, that runs `f`.
    pub fn new(name: String, description: String, f: F) -> (r: Self)
        ensures
            r.spec_name() == name@,
            r.spec_description() == description@,
            r.spec_function() == f,
    {
        FunctionTool { name, description, f, _params: PhantomData }
    }

    /// The name of the tool.
    pub closed spec fn spec_name(&self) -> Seq<char> {
        self.name@
    }

    /// The description of the tool.
    pub closed spec fn spec_description(&self) -> Seq<char> {
        self.description@
    }

    /// The function of the tool.
    pub closed spec fn spec_function(&self) -> F {
        self.f
    }

    /// The name of the tool.
    pub fn name(&self) -> (r: String)
        ensures
            r@ == self.spec_name(),
    {
        self.name.clone()
    }

    /// The description of the tool.
    pub fn description(&self) -> (r: String)
        ensures
            r@ == self.spec_description(),
    {
        self.description.clone()
    }

    /// The function of the tool.
    pub fn function(&self) -> (r: &F)
        ensures
            *r == self.spec_function(),
    {
        &self.f
    }
}

/// A typed tool seen through the untyped interface of tools.
#[derive(Debug, Clone, Default, Copy, PartialEq, Eq, Hash)]
pub struct Dynamic<H>(pub H);

/// Builds the capabilities that a server announces.
pub struct CapabilitiesBuilder {
    tools: Option<ToolsCapability>,
    prompts: Option<PromptsCapability>,
    resources: Option<ResourcesCapability>,
}

/// The capabilities configured so far, as values.
pub struct CapabilitiesView {
    pub tools: Option<ToolsCapability>,
    pub prompts: Option<PromptsCapability>,
    pub resources: Option<ResourcesCapability>,
}

impl View for CapabilitiesBuilder {
    type V = CapabilitiesView;

    closed spec fn view(&self) -> CapabilitiesView {
        CapabilitiesView { tools: self.tools, prompts: self.prompts, resources: self.resources }
    }
}

impl Default for CapabilitiesBuilder {
    fn default() -> (r: CapabilitiesBuilder)
        ensures
            r@ == (CapabilitiesView { tools: None, prompts: None, resources: None }),
    {
        Self::new()
    }
}

impl CapabilitiesBuilder {
    /// A builder with no capability.
    pub fn new() -> (r: CapabilitiesBuilder)
        ensures
            r@ == (CapabilitiesView { tools: None, prompts: None, resources: None }),
    {
        CapabilitiesBuilder { tools: None, prompts: None, resources: None }
    }

    /// Announces tools, and whether changes of their list are announced.
    pub fn with_tools(self, list_changed: bool) -> (r: CapabilitiesBuilder)
        ensures
            r@ == (CapabilitiesView { tools: Some(ToolsCapability { list_changed: Some(list_changed) }), ..self@ }),
    {
        CapabilitiesBuilder { tools: Some(ToolsCapability { list_changed: Some(list_changed) }), ..self }
    }

    /// Announces prompts, and whether changes of their list are announced.
    pub fn with_prompts(self, list_changed: bool) -> (r: CapabilitiesBuilder)
        ensures
            r@ == (CapabilitiesView { prompts: Some(PromptsCapability { list_changed: Some(list_changed) }), ..self@ }),
    {
        CapabilitiesBuilder { prompts: Some(PromptsCapability { list_changed: Some(list_changed) }), ..self }
    }

    /// Announces resources, whether they can be subscribed to, and whether
    /// changes of their list are announced.
    pub fn with_resources(self, subscribe: bool, list_changed: bool) -> (r: CapabilitiesBuilder)
        ensures
            r@ == (CapabilitiesView {
                resources: Some(ResourcesCapability { subscribe: Some(subscribe), list_changed: Some(list_changed) }),
                ..self@
            }),
    {
        CapabilitiesBuilder {
            resources: Some(ResourcesCapability { subscribe: Some(subscribe), list_changed: Some(list_changed) }),
            ..self
        }
    }

    /// The capabilities configured, with no experimental or logging
    /// capability.
    pub fn build(self) -> (r: ServerCapabilities)
        ensures
            r.tools == self@.tools,
            r.prompts == self@.prompts,
            r.resources == self@.resources,
            r.experimental is None,
            r.logging is None,
    {
        ServerCapabilities {
            tools: self.tools,
            prompts: self.prompts,
            resources: self.resources,
            experimental: None,
            logging: None,
        }
    }
}

/// The error for a request whose method the handler does not implement:
/// code `METHOD_NOT_FOUND`, the method's name as the message, no data.
pub fn method_not_found<M: ConstString>() -> (r: ErrorData)
    ensures
        r.code == ErrorCode(METHOD_NOT_FOUND),
        r.message@ == M::spec_value(),
        r.data is None,
{
    ErrorData::method_not_found(M::value().to_owned(), None)
}

/// What a server answers to the initialize request unless its handler
/// says otherwise: the latest protocol version, no capability, this
/// crate's own name and version, no instructions.
pub fn default_initialize_result() -> (r: InitializeResult)
    ensures
        r.capabilities.experimental is None,
        r.capabilities.logging is None,
        r.capabilities.prompts is None,
        r.capabilities.resources is None,
        r.capabilities.tools is None,
        r.server_info.name@ == build_name(),
        r.server_info.version@ == build_version(),
        r.instructions is None,
{
    InitializeResult {
        protocol_version: LatestProtocolVersion,
        capabilities: ServerCapabilities::default(),
        server_info: Implementation::from_build_env(),
        instructions: None,
    }
}

/// The entries of a tool set as names and tools.
pub open spec fn tool_entries<T>(v: Seq<(String, T)>) -> Seq<(Seq<char>, T)> {
    v.map_values(|e: (String, T)| (e.0@, e.1))
}

/// The tools of a server (or of an extension), each under its name.
pub struct ToolSet<T> {
    tools: Vec<(String, T)>,
}

impl<T> View for ToolSet<T> {
    type V = Map<Seq<char>, T>;

    closed spec fn view(&self) -> Map<Seq<char>, T> {
        entries_map(tool_entries(self.tools@))
    }
}

impl<T> Default for ToolSet<T> {
    fn default() -> (r: ToolSet<T>)
        ensures
            r.wf(),
            r@ == Map::<Seq<char>, T>::empty(),
    {
        Self::new()
    }
}

impl<T> ToolSet<T> {
    /// No name is kept twice.
    pub closed spec fn wf(&self) -> bool {
        ids_unique(tool_entries(self.tools@))
    }

    /// A set with no tool.
    pub fn new() -> (r: ToolSet<T>)
        ensures
            r.wf(),
            r@ == Map::<Seq<char>, T>::empty(),
    {
        let r = ToolSet { tools: Vec::new() };
        proof {
            assert(tool_entries(r.tools@) =~= Seq::<(Seq<char>, T)>::empty());
            assert(r@ =~= Map::<Seq<char>, T>::empty());
        }
        r
    }

    /// Position of the tool with this name, if there is one.
    fn find(&self, name: &str) -> (r: Option<usize>)
        requires
            self.wf(),
        ensures
            match r {
                Some(i) => i < self.tools@.len() && i == entry_index(tool_entries(self.tools@), name@),
                None => entry_index(tool_entries(self.tools@), name@) < 0,
            },
    {
        let ghost s = tool_entries(self.tools@);
        let key: String = name.to_owned();
        let len: usize = self.tools.len();
        let mut i: usize = 0;
        while i < len
            invariant
                i <= len == s.len() == self.tools@.len(),
                s == tool_entries(self.tools@),
                key@ == name@,
                forall|j: int| 0 <= j < i ==> s[j].0 != name@,
            decreases len - i,
        {
            if self.tools[i].0.eq(&key) {
                proof {
                    lemma_entry_index_found(s, name@, 0, i as int);
                }
                return Some(i);
            }
            i = i + 1;
        }
        proof {
            lemma_entry_index_bounds(s, name@, 0);
        }
        None
    }

    /// Adds a tool under a name; a tool already under that name is replaced
    /// and handed back.
    pub fn add_tool(&mut self, name: String, tool: T) -> (r: Option<T>)
        requires
            old(self).wf(),
        ensures
            final(self).wf(),
            final(self)@ == old(self)@.insert(name@, tool),
            r == map_get(old(self)@, name@),
    {
        let ghost s = tool_entries(self.tools@);
        proof {
            lemma_entry_index_spec(s, name@);
        }
        match self.find(name.as_str()) {
            Some(i) => {
                let old_entry = self.tools.remove(i);
                self.tools.insert(i, (name, tool));
                proof {
                    assert(tool_entries(self.tools@) =~= s.update(i as int, (s[i as int].0, tool)));
                    lemma_entries_map_update(s, i as int, tool);
                }
                Some(old_entry.1)
            },
            None => {
                let ghost key = name@;
                self.tools.push((name, tool));
                proof {
                    assert(tool_entries(self.tools@) =~= s.push((key, tool)));
                    lemma_entries_map_push(s, key, tool);
                }
                None
            },
        }
    }

    /// Takes out the tool with this name, if there is one.
    pub fn remove_tool(&mut self, name: &str) -> (r: Option<T>)
        requires
            old(self).wf(),
        ensures
            final(self).wf(),
            final(self)@ == old(self)@.remove(name@),
            r == map_get(old(self)@, name@),
    {
        let ghost s = tool_entries(self.tools@);
        proof {
            lemma_entry_index_spec(s, name@);
        }
        match self.find(name) {
            Some(i) => {
                let entry = self.tools.remove(i);
                proof {
                    assert(tool_entries(self.tools@) =~= s.remove(i as int));
                    lemma_entries_map_remove(s, i as int);
                }
                Some(entry.1)
            },
            None => {
                proof {
                    assert(old(self)@.remove(name@) =~= old(self)@);
                }
                None
            },
        }
    }

    /// The tool with this name, if there is one.
    pub fn get_tool(&self, name: &str) -> (r: Option<&T>)
        requires
            self.wf(),
        ensures
            match r {
                Some(t) => self@.contains_key(name@) && *t == self@[name@],
                None => !self@.contains_key(name@),
            },
    {
        proof {
            lemma_entry_index_spec(tool_entries(self.tools@), name@);
        }
        match self.find(name) {
            Some(i) => Some(&self.tools[i].1),
            None => None,
        }
    }

    /// Adds all tools of another set; where both have a tool of the same
    /// name, the other set's tool is kept.
    pub fn extend(&mut self, tool_set: ToolSet<T>)
        requires
            old(self).wf(),
            tool_set.wf(),
        ensures
            final(self).wf(),
            final(self)@ == old(self)@.union_prefer_right(tool_set@),
    {
        let ghost s = tool_entries(tool_set.tools@);
        let ghost start = self@;
        let mut rest = tool_set.tools;
        let ghost n = s.len();
        let total: usize = rest.len();
        proof {
            assert(n == total);
        }
        let mut k: usize = 0;
        while rest.len() > 0
            invariant
                self.wf(),
                ids_unique(s),
                n == s.len(),
                n <= usize::MAX,
                k <= n,
                tool_entries(rest@) == s.skip(k as int),
                self@ == start.union_prefer_right(entries_map(s.take(k as int))),
            decreases n - k,
        {
            let ghost r0 = rest@;
            proof {
                assert(tool_entries(r0).len() == r0.len());
                assert(k < n);
                assert(tool_entries(r0)[0] == s[k as int]);
            }
            let (name, tool) = rest.remove(0);
            proof {
                assert(r0[0] == (name, tool));
                assert(s[k as int] == (name@, tool));
                assert(s.take(k + 1) =~= s.take(k as int).push((name@, tool)));
                assert(ids_unique(s.take(k as int)));
                lemma_entry_index_spec(s.take(k as int), name@);
                assert forall|j: int| 0 <= j < k implies s.take(k as int)[j].0 != name@ by {
                    assert(s[j].0 != s[k as int].0);
                }
                lemma_entries_map_push(s.take(k as int), name@, tool);
                assert forall|j: int| 0 <= j < rest@.len() implies tool_entries(rest@)[j] == s.skip(k + 1)[j] by {
                    assert(rest@[j] == r0[j + 1]);
                    assert(tool_entries(r0)[j + 1] == s.skip(k as int)[j + 1]);
                }
                assert(tool_entries(rest@) =~= s.skip(k + 1));
            }
            let _replaced = self.add_tool(name, tool);
            k = k + 1;
            proof {
                assert(self@ =~= start.union_prefer_right(entries_map(s.take(k as int))));
            }
        }
        proof {
            assert(s.take(k as int) =~= s);
        }
    }

    /// How many tools the set holds.
    pub fn len(&self) -> (r: usize)
        requires
            self.wf(),
        ensures
            r == self@.dom().len(),
    {
        proof {
            crate::registry::lemma_entries_map_len(tool_entries(self.tools@));
        }
        self.tools.len()
    }

    /// The names and tools of the set, each name once.
    pub fn entries(&self) -> (r: &Vec<(String, T)>)
        requires
            self.wf(),
        ensures
            ids_unique(tool_entries(r@)),
            entries_map(tool_entries(r@)) == self@,
    {
        &self.tools
    }

    /// The tool with this name, or the invalid-parameters error
    /// `Unknown tool: <name>` that a server answers for a tool it lacks.
    pub fn tool_or_unknown(&self, name: &str) -> (r: Result<&T, ErrorData>)
        requires
            self.wf(),
        ensures
            match r {
                Ok(t) => self@.contains_key(name@) && *t == self@[name@],
                Err(e) => !self@.contains_key(name@) && e.code == ErrorCode(INVALID_PARAMS)
                    && e.message@ == "Unknown tool: "@ + name@ && e.data is None,
            },
    {
        match self.get_tool(name) {
            Some(t) => Ok(t),
            None => {
                let mut message = "Unknown tool: ".to_owned();
                string_push_str(&mut message, name);
                Err(ErrorData::invalid_params(message, None))
            },
        }
    }

    /// The tool with this name, or `NotFound` with the name.
    pub fn tool_or_not_found(&self, name: &str) -> (r: Result<&T, ToolError>)
        requires
            self.wf(),
        ensures
            match r {
                Ok(t) => self@.contains_key(name@) && *t == self@[name@],
                Err(e) => !self@.contains_key(name@) && (e matches ToolError::NotFound(n) && n@ == name@),
            },
    {
        match self.get_tool(name) {
            Some(t) => Ok(t),
            None => Err(ToolError::NotFound(name.to_owned())),
        }
    }
}

/// Adding a tool and looking it up by its name gives that tool; adding and
/// then removing it leaves the other tools as they were.
pub proof fn lemma_tool_set_add_get_remove<T>(tools: Map<Seq<char>, T>, name: Seq<char>, tool: T)
    ensures
        tools.insert(name, tool).contains_key(name),
        tools.insert(name, tool)[name] == tool,
        tools.insert(name, tool).remove(name) == tools.remove(name),
{
    assert(tools.insert(name, tool).remove(name) =~= tools.remove(name));
}

/// The service of a server: its handler, through which it answers the
/// client.
#[derive(Debug, Clone, Copy, PartialEq, Eq, Hash, Default)]
pub struct ServerHandlerService<H> {
    pub handler: H,
}

/// The handler method that a request of a client goes to, with its
/// parameters.
pub enum ServerHandlerCall {
    Ping,
    Initialize(InitializeRequestParam),
    Complete(CompleteRequestParam),
    SetLevel(SetLevelRequestParam),
    GetPrompt(GetPromptRequestParam),
    ListPrompts(PaginatedRequestParam),
    ListResources(PaginatedRequestParam),
    ListResourceTemplates(PaginatedRequestParam),
    ReadResource(ReadResourceRequestParam),
    Subscribe(SubscribeRequestParam),
    Unsubscribe(UnsubscribeRequestParam),
    CallTool(CallToolRequestParam),
    ListTools(PaginatedRequestParam),
}

/// The handler method that a notification of a client goes to, with its
/// parameters.
pub enum ServerNotificationCall {
    OnCancelled(CancelledNotificationParam),
    OnProgress(ProgressNotificationParam),
    OnInitialized,
    OnRootsListChanged,
}

/// Which handler method a request of a client goes to.
pub open spec fn spec_server_route(request: ClientRequest) -> ServerHandlerCall {
    match request {
        ClientRequest::PingRequest(_) => ServerHandlerCall::Ping,
        ClientRequest::InitializeRequest(r) => ServerHandlerCall::Initialize(r.params),
        ClientRequest::CompleteRequest(r) => ServerHandlerCall::Complete(r.params),
        ClientRequest::SetLevelRequest(r) => ServerHandlerCall::SetLevel(r.params),
        ClientRequest::GetPromptRequest(r) => ServerHandlerCall::GetPrompt(r.params),
        ClientRequest::ListPromptsRequest(r) => ServerHandlerCall::ListPrompts(r.params),
        ClientRequest::ListResourcesRequest(r) => ServerHandlerCall::ListResources(r.params),
        ClientRequest::ListResourceTemplatesRequest(r) => ServerHandlerCall::ListResourceTemplates(r.params),
        ClientRequest::ReadResourceRequest(r) => ServerHandlerCall::ReadResource(r.params),
        ClientRequest::SubscribeRequest(r) => ServerHandlerCall::Subscribe(r.params),
        ClientRequest::UnsubscribeRequest(r) => ServerHandlerCall::Unsubscribe(r.params),
        ClientRequest::CallToolRequest(r) => ServerHandlerCall::CallTool(r.params),
        ClientRequest::ListToolsRequest(r) => ServerHandlerCall::ListTools(r.params),
    }
}

/// The error a tool answers when its arguments do not parse as its
/// parameters: invalid parameters, `parse argument error <text>`, where
/// `text` is the parser's text of what went wrong.
pub fn argument_parse_error(text: &str) -> (r: ErrorData)
    ensures
        r.code == ErrorCode(INVALID_PARAMS),
        r.message@ == "parse argument error "@ + text@,
        r.data is None,
{
    let mut message = "parse argument error ".to_owned();
    string_push_str(&mut message, text);
    ErrorData::invalid_params(message, None)
}

/// What a handler method gave back, by the kind of its result.
pub enum ServerHandlerReply {
    /// From `ping`, `set_level`, `subscribe` and `unsubscribe`.
    Empty,
    Initialize(InitializeResult),
    Complete(CompleteResult),
    GetPrompt(GetPromptResult),
    ListPrompts(ListPromptsResult),
    ListResources(ListResourcesResult),
    ListResourceTemplates(ListResourceTemplatesResult),
    ReadResource(ReadResourceResult),
    CallTool(CallToolResult),
    ListTools(ListToolsResult),
}

/// The result a handler's reply is sent as: the result variant of the same
/// name, and the empty result for a reply with no data.
pub open spec fn spec_wrap_reply(reply: ServerHandlerReply) -> ServerResult {
    match reply {
        ServerHandlerReply::Empty => ServerResult::EmptyResult(EmptyResult {}),
        ServerHandlerReply::Initialize(r) => ServerResult::InitializeResult(r),
        ServerHandlerReply::Complete(r) => ServerResult::CompleteResult(r),
        ServerHandlerReply::GetPrompt(r) => ServerResult::GetPromptResult(r),
        ServerHandlerReply::ListPrompts(r) => ServerResult::ListPromptsResult(r),
        ServerHandlerReply::ListResources(r) => ServerResult::ListResourcesResult(r),
        ServerHandlerReply::ListResourceTemplates(r) => ServerResult::ListResourceTemplatesResult(r),
        ServerHandlerReply::ReadResource(r) => ServerResult::ReadResourceResult(r),
        ServerHandlerReply::CallTool(r) => ServerResult::CallToolResult(r),
        ServerHandlerReply::ListTools(r) => ServerResult::ListToolsResult(r),
    }
}

/// Whether a reply is of the kind that the handler method of `call` gives.
pub open spec fn reply_fits(call: ServerHandlerCall, reply: ServerHandlerReply) -> bool {
    match call {
        ServerHandlerCall::Ping | ServerHandlerCall::SetLevel(_) | ServerHandlerCall::Subscribe(_)
        | ServerHandlerCall::Unsubscribe(_) => reply is Empty,
        ServerHandlerCall::Initialize(_) => reply is Initialize,
        ServerHandlerCall::Complete(_) => reply is Complete,
        ServerHandlerCall::GetPrompt(_) => reply is GetPrompt,
        ServerHandlerCall::ListPrompts(_) => reply is ListPrompts,
        ServerHandlerCall::ListResources(_) => reply is ListResources,
        ServerHandlerCall::ListResourceTemplates(_) => reply is ListResourceTemplates,
        ServerHandlerCall::ReadResource(_) => reply is ReadResource,
        ServerHandlerCall::CallTool(_) => reply is CallTool,
        ServerHandlerCall::ListTools(_) => reply is ListTools,
    }
}

/// Whether a result is of the kind that answers a request: the result
/// named after the request, and the empty result for `ping`, `setLevel`,
/// `subscribe` and `unsubscribe`.
pub open spec fn result_answers(request: ClientRequest, result: ServerResult) -> bool {
    match request {
        ClientRequest::PingRequest(_) | ClientRequest::SetLevelRequest(_) | ClientRequest::SubscribeRequest(_)
        | ClientRequest::UnsubscribeRequest(_) => result is EmptyResult,
        ClientRequest::InitializeRequest(_) => result is InitializeResult,
        ClientRequest::CompleteRequest(_) => result is CompleteResult,
        ClientRequest::GetPromptRequest(_) => result is GetPromptResult,
        ClientRequest::ListPromptsRequest(_) => result is ListPromptsResult,
        ClientRequest::ListResourcesRequest(_) => result is ListResourcesResult,
        ClientRequest::ListResourceTemplatesRequest(_) => result is ListResourceTemplatesResult,
        ClientRequest::ReadResourceRequest(_) => result is ReadResourceResult,
        ClientRequest::CallToolRequest(_) => result is CallToolResult,
        ClientRequest::ListToolsRequest(_) => result is ListToolsResult,
    }
}

/// The answer to a request from what its handler method gave: a reply is
/// sent as its result, an error unchanged.
pub fn wrap_server_result(outcome: Result<ServerHandlerReply, ErrorData>) -> (r: Result<ServerResult, ErrorData>)
    ensures
        r == match outcome {
            Ok(reply) => Ok(spec_wrap_reply(reply)),
            Err(e) => Err(e),
        },
{
    match outcome {
        Ok(reply) => Ok(match reply {
            ServerHandlerReply::Empty => ServerResult::EmptyResult(EmptyResult {}),
            ServerHandlerReply::Initialize(r) => ServerResult::InitializeResult(r),
            ServerHandlerReply::Complete(r) => ServerResult::CompleteResult(r),
            ServerHandlerReply::GetPrompt(r) => ServerResult::GetPromptResult(r),
            ServerHandlerReply::ListPrompts(r) => ServerResult::ListPromptsResult(r),
            ServerHandlerReply::ListResources(r) => ServerResult::ListResourcesResult(r),
            ServerHandlerReply::ListResourceTemplates(r) => ServerResult::ListResourceTemplatesResult(r),
            ServerHandlerReply::ReadResource(r) => ServerResult::ReadResourceResult(r),
            ServerHandlerReply::CallTool(r) => ServerResult::CallToolResult(r),
            ServerHandlerReply::ListTools(r) => ServerResult::ListToolsResult(r),
        }),
        Err(e) => Err(e),
    }
}

/// A request is answered with the result of its own kind: the handler
/// method it is routed to gives a reply of that method's kind, and that
/// reply is sent as the result named after the request (the empty result
/// for `ping`, `setLevel`, `subscribe` and `unsubscribe`).
pub proof fn lemma_request_answered_in_kind(request: ClientRequest, reply: ServerHandlerReply)
    requires
        reply_fits(spec_server_route(request), reply),
    ensures
        result_answers(request, spec_wrap_reply(reply)),
{
}

/// Each request of a client goes to the handler method of its own method,
/// with its own parameters: `ping` to `ping`, `initialize` to `initialize`,
/// `completion/complete` to `complete`, `logging/setLevel` to `set_level`,
/// `prompts/get` to `get_prompt`, `prompts/list` to `list_prompts`,
/// `resources/list` to `list_resources`, `resources/templates/list` to
/// `list_resource_templates`, `resources/read` to `read_resource`,
/// `resources/subscribe` to `subscribe`, `resources/unsubscribe` to
/// `unsubscribe`, `tools/call` to `call_tool` and `tools/list` to
/// `list_tools`.
pub proof fn lemma_request_reaches_its_method(request: ClientRequest)
    ensures
        request is PingRequest ==> spec_server_route(request) is Ping,
        request matches ClientRequest::InitializeRequest(r) ==> spec_server_route(request)
            == ServerHandlerCall::Initialize(r.params),
        request matches ClientRequest::CompleteRequest(r) ==> spec_server_route(request)
            == ServerHandlerCall::Complete(r.params),
        request matches ClientRequest::SetLevelRequest(r) ==> spec_server_route(request)
            == ServerHandlerCall::SetLevel(r.params),
        request matches ClientRequest::GetPromptRequest(r) ==> spec_server_route(request)
            == ServerHandlerCall::GetPrompt(r.params),
        request matches ClientRequest::ListPromptsRequest(r) ==> spec_server_route(request)
            == ServerHandlerCall::ListPrompts(r.params),
        request matches ClientRequest::ListResourcesRequest(r) ==> spec_server_route(request)
            == ServerHandlerCall::ListResources(r.params),
        request matches ClientRequest::ListResourceTemplatesRequest(r) ==> spec_server_route(request)
            == ServerHandlerCall::ListResourceTemplates(r.params),
        request matches ClientRequest::ReadResourceRequest(r) ==> spec_server_route(request)
            == ServerHandlerCall::ReadResource(r.params),
        request matches ClientRequest::SubscribeRequest(r) ==> spec_server_route(request)
            == ServerHandlerCall::Subscribe(r.params),
        request matches ClientRequest::UnsubscribeRequest(r) ==> spec_server_route(request)
            == ServerHandlerCall::Unsubscribe(r.params),
        request matches ClientRequest::CallToolRequest(r) ==> spec_server_route(request)
            == ServerHandlerCall::CallTool(r.params),
        request matches ClientRequest::ListToolsRequest(r) ==> spec_server_route(request)
            == ServerHandlerCall::ListTools(r.params),
{
}

/// Two requests go to the same handler method with the same parameters
/// only when they are the same request up to their method name and
/// `_meta` member: routing loses nothing a handler needs, and never sends a
/// request to the method of another one.
pub proof fn lemma_distinct_requests_reach_distinct_calls(a: ClientRequest, b: ClientRequest)
    requires
        spec_server_route(a) == spec_server_route(b),
    ensures
        a is PingRequest <==> b is PingRequest,
        a is InitializeRequest <==> b is InitializeRequest,
        a is CompleteRequest <==> b is CompleteRequest,
        a is SetLevelRequest <==> b is SetLevelRequest,
        a is GetPromptRequest <==> b is GetPromptRequest,
        a is ListPromptsRequest <==> b is ListPromptsRequest,
        a is ListResourcesRequest <==> b is ListResourcesRequest,
        a is ListResourceTemplatesRequest <==> b is ListResourceTemplatesRequest,
        a is ReadResourceRequest <==> b is ReadResourceRequest,
        a is SubscribeRequest <==> b is SubscribeRequest,
        a is UnsubscribeRequest <==> b is UnsubscribeRequest,
        a is CallToolRequest <==> b is CallToolRequest,
        a is ListToolsRequest <==> b is ListToolsRequest,
{
}

impl<H> ServerHandlerService<H> {
    /// The service of the given handler.
    pub fn new(handler: H) -> (r: Self)
        ensures
            r.handler == handler,
    {
        ServerHandlerService { handler }
    }

    /// Which handler method a request of a client goes to, with the
    /// request's parameters.
    pub fn route_request(request: ClientRequest) -> (r: ServerHandlerCall)
        ensures
            r == spec_server_route(request),
    {
        match request {
            ClientRequest::PingRequest(_) => ServerHandlerCall::Ping,
            ClientRequest::InitializeRequest(r) => ServerHandlerCall::Initialize(r.params),
            ClientRequest::CompleteRequest(r) => ServerHandlerCall::Complete(r.params),
            ClientRequest::SetLevelRequest(r) => ServerHandlerCall::SetLevel(r.params),
            ClientRequest::GetPromptRequest(r) => ServerHandlerCall::GetPrompt(r.params),
            ClientRequest::ListPromptsRequest(r) => ServerHandlerCall::ListPrompts(r.params),
            ClientRequest::ListResourcesRequest(r) => ServerHandlerCall::ListResources(r.params),
            ClientRequest::ListResourceTemplatesRequest(r) => ServerHandlerCall::ListResourceTemplates(r.params),
            ClientRequest::ReadResourceRequest(r) => ServerHandlerCall::ReadResource(r.params),
            ClientRequest::SubscribeRequest(r) => ServerHandlerCall::Subscribe(r.params),
            ClientRequest::UnsubscribeRequest(r) => ServerHandlerCall::Unsubscribe(r.params),
            ClientRequest::CallToolRequest(r) => ServerHandlerCall::CallTool(r.params),
            ClientRequest::ListToolsRequest(r) => ServerHandlerCall::ListTools(r.params),
        }
    }

    /// Which handler method a notification of a client goes to, with the
    /// notification's parameters.
    pub fn route_notification(notification: ClientNotification) -> (r: ServerNotificationCall)
        ensures
            r == (match notification {
                ClientNotification::CancelledNotification(n) => ServerNotificationCall::OnCancelled(n.params),
                ClientNotification::ProgressNotification(n) => ServerNotificationCall::OnProgress(n.params),
                ClientNotification::InitializedNotification(_) => ServerNotificationCall::OnInitialized,
                ClientNotification::RootsListChangedNotification(_) => ServerNotificationCall::OnRootsListChanged,
            }),
    {
        match notification {
            ClientNotification::CancelledNotification(n) => ServerNotificationCall::OnCancelled(n.params),
            ClientNotification::ProgressNotification(n) => ServerNotificationCall::OnProgress(n.params),
            ClientNotification::InitializedNotification(_) => ServerNotificationCall::OnInitialized,
            ClientNotification::RootsListChangedNotification(_) => ServerNotificationCall::OnRootsListChanged,
        }
    }
}

/// The service of a client: its handler, through which it answers the
/// server.
#[derive(Debug, Clone, Copy, PartialEq, Eq, Hash, Default)]
pub struct ClientHandlerService<H> {
    pub handler: H,
}

/// The handler method that a request of a server goes to, with its
/// parameters.
pub enum ClientHandlerCall {
    Ping,
    CreateMessage(CreateMessageRequestParam),
    ListRoots,
}

/// The handler method that a notification of a server goes to, with its
/// parameters.
pub enum ClientNotificationCall {
    OnCancelled(CancelledNotificationParam),
    OnProgress(ProgressNotificationParam),
    OnLoggingMessage(LoggingMessageNotificationParam),
    OnResourceUpdated(ResourceUpdatedNotificationParam),
    OnResourceListChanged,
    OnToolListChanged,
    OnPromptListChanged,
}

impl<H> ClientHandlerService<H> {
    /// The service of the given handler.
    pub fn new(handler: H) -> (r: Self)
        ensures
            r.handler == handler,
    {
        ClientHandlerService { handler }
    }

    /// Which handler method a request of a server goes to, with the
    /// request's parameters.
    pub fn route_request(request: ServerRequest) -> (r: ClientHandlerCall)
        ensures
            r == (match request {
                ServerRequest::PingRequest(_) => ClientHandlerCall::Ping,
                ServerRequest::CreateMessageRequest(r) => ClientHandlerCall::CreateMessage(r.params),
                ServerRequest::ListRootsRequest(_) => ClientHandlerCall::ListRoots,
            }),
    {
        match request {
            ServerRequest::PingRequest(_) => ClientHandlerCall::Ping,
            ServerRequest::CreateMessageRequest(r) => ClientHandlerCall::CreateMessage(r.params),
            ServerRequest::ListRootsRequest(_) => ClientHandlerCall::ListRoots,
        }
    }

    /// Which handler method a notification of a server goes to, with the
    /// notification's parameters.
    pub fn route_notification(notification: ServerNotification) -> (r: ClientNotificationCall)
        ensures
            r == (match notification {
                ServerNotification::CancelledNotification(n) => ClientNotificationCall::OnCancelled(n.params),
                ServerNotification::ProgressNotification(n) => ClientNotificationCall::OnProgress(n.params),
                ServerNotification::LoggingMessageNotification(n) => ClientNotificationCall::OnLoggingMessage(n.params),
                ServerNotification::ResourceUpdatedNotification(n) => ClientNotificationCall::OnResourceUpdated(n.params),
                ServerNotification::ResourceListChangedNotification(_) => ClientNotificationCall::OnResourceListChanged,
                ServerNotification::ToolListChangedNotification(_) => ClientNotificationCall::OnToolListChanged,
                ServerNotification::PromptListChangedNotification(_) => ClientNotificationCall::OnPromptListChanged,
            }),
    {
        match notification {
            ServerNotification::CancelledNotification(n) => ClientNotificationCall::OnCancelled(n.params),
            ServerNotification::ProgressNotification(n) => ClientNotificationCall::OnProgress(n.params),
            ServerNotification::LoggingMessageNotification(n) => ClientNotificationCall::OnLoggingMessage(n.params),
            ServerNotification::ResourceUpdatedNotification(n) => ClientNotificationCall::OnResourceUpdated(n.params),
            ServerNotification::ResourceListChangedNotification(_) => ClientNotificationCall::OnResourceListChanged,
            ServerNotification::ToolListChangedNotification(_) => ClientNotificationCall::OnToolListChanged,
            ServerNotification::PromptListChangedNotification(_) => ClientNotificationCall::OnPromptListChanged,
        }
    }
}

} // verus!
