//! A service: one side of an MCP connection, client or server.
//!
//! Each side sends requests and notifications to its peer and handles the
//! ones that come in. The requests it sends wait for their response: the
//! responder of each is kept under the request's id until the peer answers
//! with that id. What runs the connection is a loop over events; here it is
//! a function from the waiting responders and one event to the next
//! responders and one action, which the caller performs.
use crate::model::{ErrorData, IdView, JsonRpcError, JsonRpcMessage, JsonRpcNotification, JsonRpcRequest, JsonRpcResponse, JsonRpcVersion2_0, Message, RequestId, spec_into_json_rpc_message, spec_into_message};
use crate::schema::{
    CallToolResult, ClientInfo, ClientJsonRpcMessage, ClientNotification, ClientRequest, ClientResult, CompleteResult,
    CreateMessageResult, GetPromptResult, InitializeRequestParam, InitializeResult, InitializeResultMethod,
    InitializedNotificationMethod, ListPromptsResult, ListResourceTemplatesResult, ListResourcesResult,
    ListRootsResult, ListToolsResult, Notification, ReadResourceResult, Request, ServerInfo,
    ServerJsonRpcMessage, ServerNotification, ServerRequest, ServerResult,
};
use crate::registry::{entries_map, entry_index, ids_unique, map_get, lemma_entries_map_len, lemma_entries_map_push, lemma_entries_map_remove, lemma_entries_map_update, lemma_entry_index_bounds, lemma_entry_index_found, lemma_entry_index_spec};
use std::sync::atomic::{AtomicU32, Ordering};
use vstd::prelude::*;

verus! {

/// The one-shot sender of `tokio`, by which a waiting request gets its
/// response.
#[verifier::external_type_specification]
#[verifier::external_body]
#[verifier::reject_recursive_types(T)]
pub struct ExOneshotSender<T>(tokio::sync::oneshot::Sender<T>);

/// Where the response to a request that this side sent goes.
pub type Responder<T> = tokio::sync::oneshot::Sender<T>;

/// Errors of a service.
#[derive(Debug)]
pub enum ServiceError {
    /// The peer answered with an error.
    McpError(ErrorData),
    /// The connection failed.
    Transport(std::io::Error),
    /// The peer answered with a result of another kind than the request asks for.
    UnexpectedResponse,
}

/// The side of a connection: what it sends, what it receives and what it
/// says about itself.
pub trait ServiceRole {
    type Req;
    type Resp;
    type Not;
    type PeerReq;
    type PeerResp;
    type PeerNot;
    type Info;
    type PeerInfo;

    /// Whether this side is the client.
    spec fn spec_is_client() -> bool;

    /// Whether this side is the client.
    fn is_client() -> (r: bool)
        ensures
            r == Self::spec_is_client(),
    ;
}

/// The client side.
#[derive(Debug, Clone, Copy, Default, PartialEq, Eq)]
pub struct RoleClient;

impl ServiceRole for RoleClient {
    type Req = ClientRequest;
    type Resp = ClientResult;
    type Not = ClientNotification;
    type PeerReq = ServerRequest;
    type PeerResp = ServerResult;
    type PeerNot = ServerNotification;
    type Info = ClientInfo;
    type PeerInfo = ServerInfo;

    open spec fn spec_is_client() -> bool {
        true
    }

    fn is_client() -> bool {
        true
    }
}

/// The server side.
#[derive(Debug, Clone, Copy, Default, PartialEq, Eq)]
pub struct RoleServer;

impl ServiceRole for RoleServer {
    type Req = ServerRequest;
    type Resp = ServerResult;
    type Not = ServerNotification;
    type PeerReq = ClientRequest;
    type PeerResp = ClientResult;
    type PeerNot = ClientNotification;
    type Info = ServerInfo;
    type PeerInfo = ClientInfo;

    open spec fn spec_is_client() -> bool {
        false
    }

    fn is_client() -> bool {
        false
    }
}

/// A message that this side sends.
pub type TxJsonRpcMessage<R> = JsonRpcMessage<
    <R as ServiceRole>::Req,
    <R as ServiceRole>::Resp,
    <R as ServiceRole>::Not,
>;

/// A message that this side receives.
pub type RxJsonRpcMessage<R> = JsonRpcMessage<
    <R as ServiceRole>::PeerReq,
    <R as ServiceRole>::PeerResp,
    <R as ServiceRole>::PeerNot,
>;

/// The source of the ids of the requests a side sends.
pub trait RequestIdProvider {
    /// The id of the next request.
    fn next_request_id(&self) -> RequestId;
}

/// Ids counted up from zero by an atomic counter, which wraps around.
#[derive(Debug, Default)]
pub struct AtomicU32RequestIdProvider {
    id: AtomicU32,
}

impl RequestIdProvider for AtomicU32RequestIdProvider {
    /// The counter's value, as a numeric id; the counter goes up by one.
    fn next_request_id(&self) -> (r: RequestId)
        ensures
            r is Number,
    {
        RequestId::Number(self.id.fetch_add(1, Ordering::SeqCst))
    }
}

/// What a handle on the peer asks the loop to send.
pub enum PeerSinkMessage<R: ServiceRole> {
    /// A request, its id, and where its response goes.
    Request(R::Req, RequestId, Responder<Result<R::PeerResp, ErrorData>>),
    /// A notification.
    Notification(R::Not),
}

/// The requests waiting for a response, as a map from their ids.
pub type PoolView<T> = Map<IdView, T>;

/// The responders of the requests that wait for their response, each under
/// the id of its request.
pub struct ResponderPool<T> {
    entries: Vec<(RequestId, T)>,
}

/// The entries of a pool as ids and values.
pub open spec fn pool_entries<T>(v: Seq<(RequestId, T)>) -> Seq<(IdView, T)> {
    v.map_values(|e: (RequestId, T)| (e.0@, e.1))
}

impl<T> View for ResponderPool<T> {
    type V = PoolView<T>;

    closed spec fn view(&self) -> PoolView<T> {
        entries_map(pool_entries(self.entries@))
    }
}

impl<T> ResponderPool<T> {
    /// No request id is kept twice.
    pub closed spec fn wf(&self) -> bool {
        ids_unique(pool_entries(self.entries@))
    }

    /// A pool with no waiting request.
    pub fn new() -> (r: ResponderPool<T>)
        ensures
            r.wf(),
            r@ == Map::<IdView, T>::empty(),
    {
        let r = ResponderPool { entries: Vec::new() };
        proof {
            assert(pool_entries(r.entries@) =~= Seq::<(IdView, T)>::empty());
            assert(r@ =~= Map::<IdView, T>::empty());
        }
        r
    }

    /// Position of the entry of an id, if it has one.
    fn find(&self, id: &RequestId) -> (r: Option<usize>)
        requires
            self.wf(),
        ensures
            match r {
                Some(i) => i < self.entries@.len() && i == entry_index(pool_entries(self.entries@), id@),
                None => entry_index(pool_entries(self.entries@), id@) < 0,
            },
    {
        let ghost s = pool_entries(self.entries@);
        let len: usize = self.entries.len();
        let mut i: usize = 0;
        while i < len
            invariant
                i <= len == s.len() == self.entries@.len(),
                s == pool_entries(self.entries@),
                forall|j: int| 0 <= j < i ==> s[j].0 != id@,
            decreases len - i,
        {
            if self.entries[i].0.same_as(id) {
                proof {
                    lemma_entry_index_found(s, id@, 0, i as int);
                }
                return Some(i);
            }
            i = i + 1;
        }
        proof {
            lemma_entry_index_bounds(s, id@, 0);
        }
        None
    }

    /// Whether a request with this id waits for its response.
    pub fn contains(&self, id: &RequestId) -> (r: bool)
        requires
            self.wf(),
        ensures
            r == self@.contains_key(id@),
    {
        proof {
            lemma_entry_index_spec(pool_entries(self.entries@), id@);
        }
        self.find(id).is_some()
    }

    /// How many requests wait for their response.
    pub fn len(&self) -> (r: usize)
        requires
            self.wf(),
        ensures
            r == self@.dom().len(),
    {
        proof {
            self.lemma_len();
        }
        self.entries.len()
    }

    proof fn lemma_len(&self)
        requires
            self.wf(),
        ensures
            self@.dom().finite(),
            self@.dom().len() == self.entries@.len(),
        decreases self.entries@.len(),
    {
        let s = pool_entries(self.entries@);
        lemma_entries_map_len(s);
    }

    /// Keeps a responder under a request id; a responder already kept under
    /// that id is handed back.
    pub fn insert(&mut self, id: RequestId, responder: T) -> (r: Option<T>)
        requires
            old(self).wf(),
        ensures
            final(self).wf(),
            final(self)@ == old(self)@.insert(id@, responder),
            r == map_get(old(self)@, id@),
    {
        let ghost s = pool_entries(self.entries@);
        proof {
            lemma_entry_index_spec(s, id@);
        }
        match self.find(&id) {
            Some(i) => {
                let old_entry = self.entries.remove(i);
                self.entries.insert(i, (id, responder));
                proof {
                    assert(pool_entries(self.entries@) =~= s.update(i as int, (s[i as int].0, responder)));
                    lemma_entries_map_update(s, i as int, responder);
                    assert(old_entry.1 == s[i as int].1);
                }
                Some(old_entry.1)
            },
            None => {
                self.entries.push((id, responder));
                proof {
                    assert(pool_entries(self.entries@) =~= s.push((id@, responder)));
                    lemma_entries_map_push(s, id@, responder);
                }
                None
            },
        }
    }

    /// Takes out the responder kept under a request id, if there is one.
    pub fn remove(&mut self, id: &RequestId) -> (r: Option<T>)
        requires
            old(self).wf(),
        ensures
            final(self).wf(),
            final(self)@ == old(self)@.remove(id@),
            r == map_get(old(self)@, id@),
    {
        let ghost s = pool_entries(self.entries@);
        proof {
            lemma_entry_index_spec(s, id@);
        }
        match self.find(id) {
            Some(i) => {
                let entry = self.entries.remove(i);
                proof {
                    assert(pool_entries(self.entries@) =~= s.remove(i as int));
                    lemma_entries_map_remove(s, i as int);
                }
                Some(entry.1)
            },
            None => {
                proof {
                    assert(old(self)@.remove(id@) =~= old(self)@);
                }
                None
            },
        }
    }
}

/// An event of the loop that runs a connection.
pub enum LoopEvent<R: ServiceRole> {
    /// A message that this side's own handlers produced, to be sent.
    ToSink(TxJsonRpcMessage<R>),
    /// A request or notification that a handle on the peer asks to send.
    ProxyMessage(PeerSinkMessage<R>),
    /// A message that came from the peer.
    RemoteMessage(RxJsonRpcMessage<R>),
}

/// What the loop does for an event.
pub enum LoopAction<R: ServiceRole> {
    /// Send this message to the peer.
    Send(TxJsonRpcMessage<R>),
    /// Have the service handle this request of the peer, and send back the
    /// response under its id.
    HandleRequest(R::PeerReq, RequestId),
    /// Have the service handle this notification of the peer.
    HandleNotification(R::PeerNot),
    /// Hand this outcome to the responder of the request it answers.
    Respond(Responder<Result<R::PeerResp, ErrorData>>, Result<R::PeerResp, ErrorData>),
    /// Nothing: a response that no request waits for.
    Ignore,
}

/// The waiting responders of a loop.
pub type LoopPool<R> = PoolView<Responder<Result<<R as ServiceRole>::PeerResp, ErrorData>>>;

/// What the loop does for an event, and which responders wait afterwards.
pub open spec fn loop_step<R: ServiceRole>(pool: LoopPool<R>, event: LoopEvent<R>) -> (LoopPool<R>, LoopAction<R>) {
    match event {
        LoopEvent::ToSink(m) => (pool, LoopAction::Send(m)),
        LoopEvent::ProxyMessage(PeerSinkMessage::Request(request, id, responder)) => (
            pool.insert(id@, responder),
            LoopAction::Send(spec_into_json_rpc_message(Message::Request(request, id))),
        ),
        LoopEvent::ProxyMessage(PeerSinkMessage::Notification(n)) => (
            pool,
            LoopAction::Send(spec_into_json_rpc_message(Message::Notification(n))),
        ),
        LoopEvent::RemoteMessage(m) => match spec_into_message(m) {
            Message::Request(request, id) => (pool, LoopAction::HandleRequest(request, id)),
            Message::Notification(n) => (pool, LoopAction::HandleNotification(n)),
            Message::Response(result, id) => if pool.contains_key(id@) {
                (pool.remove(id@), LoopAction::Respond(pool[id@], Ok(result)))
            } else {
                (pool, LoopAction::Ignore)
            },
            Message::Error(error, id) => if pool.contains_key(id@) {
                (pool.remove(id@), LoopAction::Respond(pool[id@], Err(error)))
            } else {
                (pool, LoopAction::Ignore)
            },
        },
    }
}

/// The state of the loop that runs a connection: the responders of the
/// requests this side sent that wait for their response.
pub struct ServiceLoop<R: ServiceRole> {
    pool: ResponderPool<Responder<Result<R::PeerResp, ErrorData>>>,
}

impl<R: ServiceRole> View for ServiceLoop<R> {
    type V = LoopPool<R>;

    closed spec fn view(&self) -> LoopPool<R> {
        self.pool@
    }
}

impl<R: ServiceRole> ServiceLoop<R> {
    /// The state invariant of the loop.
    pub closed spec fn wf(&self) -> bool {
        self.pool.wf()
    }

    /// A loop with no request waiting.
    pub fn new() -> (r: ServiceLoop<R>)
        ensures
            r.wf(),
            r@ == Map::<IdView, Responder<Result<R::PeerResp, ErrorData>>>::empty(),
    {
        ServiceLoop { pool: ResponderPool::new() }
    }

    /// How many requests wait for their response.
    pub fn waiting(&self) -> (r: usize)
        requires
            self.wf(),
        ensures
            r == self@.dom().len(),
    {
        self.pool.len()
    }

    /// Handles one event: a message to send goes out (a request after its
    /// responder is kept under its id), a request or notification of the
    /// peer goes to the service, and a response or error of the peer goes
    /// to the responder kept under its id, which is then dropped from the
    /// pool; one that no request waits for is ignored.
    pub fn step(&mut self, event: LoopEvent<R>) -> (r: LoopAction<R>)
        requires
            old(self).wf(),
        ensures
            final(self).wf(),
            final(self)@ == loop_step(old(self)@, event).0,
            r == loop_step(old(self)@, event).1,
    {
        match event {
            LoopEvent::ToSink(m) => LoopAction::Send(m),
            LoopEvent::ProxyMessage(PeerSinkMessage::Request(request, id, responder)) => {
                let key = id.copied();
                let _replaced = self.pool.insert(key, responder);
                LoopAction::Send(Message::Request(request, id).into_json_rpc_message())
            },
            LoopEvent::ProxyMessage(PeerSinkMessage::Notification(n)) => {
                LoopAction::Send(Message::Notification(n).into_json_rpc_message())
            },
            LoopEvent::RemoteMessage(m) => match m.into_message() {
                Message::Request(request, id) => LoopAction::HandleRequest(request, id),
                Message::Notification(n) => LoopAction::HandleNotification(n),
                Message::Response(result, id) => match self.pool.remove(&id) {
                    Some(responder) => LoopAction::Respond(responder, Ok(result)),
                    None => LoopAction::Ignore,
                },
                Message::Error(error, id) => match self.pool.remove(&id) {
                    Some(responder) => LoopAction::Respond(responder, Err(error)),
                    None => LoopAction::Ignore,
                },
            },
        }
    }
}

/// The message that answers a request of the peer: the service's result as
/// a response, or its error as an error response, under the request's id.
pub open spec fn spec_response_message<R: ServiceRole>(result: Result<R::Resp, ErrorData>, id: RequestId) -> TxJsonRpcMessage<R> {
    match result {
        Ok(r) => spec_into_json_rpc_message(Message::Response(r, id)),
        Err(e) => spec_into_json_rpc_message(Message::Error(e, id)),
    }
}

/// The message that answers a request of the peer: the service's result as
/// a response, or its error as an error response, under the request's id.
pub fn response_message<R: ServiceRole>(result: Result<R::Resp, ErrorData>, id: RequestId) -> (r: TxJsonRpcMessage<R>)
    ensures
        r == spec_response_message::<R>(result, id),
{
    match result {
        Ok(r) => Message::Response(r, id).into_json_rpc_message(),
        Err(e) => Message::Error(e, id).into_json_rpc_message(),
    }
}

/// A request this side sent gets, as its answer, what the peer answers
/// under the same id; the waiting responders are then as before the
/// request was sent, less its id.
pub proof fn lemma_response_reaches_its_responder<R: ServiceRole>(
    pool: LoopPool<R>,
    request: R::Req,
    id: RequestId,
    responder: Responder<Result<R::PeerResp, ErrorData>>,
    answer: RxJsonRpcMessage<R>,
)
    requires
        (answer matches JsonRpcMessage::Response(r) && r.id@ == id@)
            || (answer matches JsonRpcMessage::Error(e) && e.id@ == id@),
    ensures
        ({
            let (p1, sent) = loop_step::<R>(pool, LoopEvent::ProxyMessage(PeerSinkMessage::Request(request, id, responder)));
            let (p2, action) = loop_step::<R>(p1, LoopEvent::RemoteMessage(answer));
            &&& sent == LoopAction::<R>::Send(spec_into_json_rpc_message(Message::Request(request, id)))
            &&& p2 == pool.remove(id@)
            &&& match answer {
                JsonRpcMessage::Response(r) => action == LoopAction::<R>::Respond(responder, Ok(r.result)),
                JsonRpcMessage::Error(e) => action == LoopAction::<R>::Respond(responder, Err(e.error)),
                _ => false,
            }
        }),
{
    let p1 = pool.insert(id@, responder);
    assert(p1.remove(id@) =~= pool.remove(id@));
}

/// A response or error under an id that no request waits for changes
/// nothing and is ignored.
pub proof fn lemma_unexpected_response_ignored<R: ServiceRole>(pool: LoopPool<R>, answer: RxJsonRpcMessage<R>)
    requires
        (answer matches JsonRpcMessage::Response(r) && !pool.contains_key(r.id@))
            || (answer matches JsonRpcMessage::Error(e) && !pool.contains_key(e.id@)),
    ensures
        loop_step::<R>(pool, LoopEvent::RemoteMessage(answer)) == (pool, LoopAction::<R>::Ignore),
{
}

/// Requests and notifications of the peer go to the service and leave the
/// waiting responders as they are.
pub proof fn lemma_peer_requests_reach_service<R: ServiceRole>(pool: LoopPool<R>, m: RxJsonRpcMessage<R>)
    ensures
        m matches JsonRpcMessage::Request(r) ==> loop_step::<R>(pool, LoopEvent::RemoteMessage(m)) == (
            pool,
            LoopAction::<R>::HandleRequest(r.request, r.id),
        ),
        m matches JsonRpcMessage::Notification(n) ==> loop_step::<R>(pool, LoopEvent::RemoteMessage(m)) == (
            pool,
            LoopAction::<R>::HandleNotification(n.notification),
        ),
{
}

/// What this side asks to send goes to the peer as it is: a message of
/// its own handlers is sent unchanged; a notification of a peer handle is
/// sent in a notification envelope, and no waiting request changes; a
/// request of a peer handle is sent in a request envelope under its id, and
/// its responder then waits under that id.
pub proof fn lemma_outgoing_messages_are_sent<R: ServiceRole>(
    pool: LoopPool<R>,
    m: TxJsonRpcMessage<R>,
    n: R::Not,
    request: R::Req,
    id: RequestId,
    responder: Responder<Result<R::PeerResp, ErrorData>>,
)
    ensures
        loop_step::<R>(pool, LoopEvent::ToSink(m)) == (pool, LoopAction::<R>::Send(m)),
        loop_step::<R>(pool, LoopEvent::ProxyMessage(PeerSinkMessage::Notification(n))) == (
            pool,
            LoopAction::<R>::Send(JsonRpcMessage::Notification(JsonRpcNotification { jsonrpc: JsonRpcVersion2_0, notification: n })),
        ),
        ({
            let (p, action) = loop_step::<R>(pool, LoopEvent::ProxyMessage(PeerSinkMessage::Request(request, id, responder)));
            &&& action == LoopAction::<R>::Send(JsonRpcMessage::Request(JsonRpcRequest { jsonrpc: JsonRpcVersion2_0, id, request }))
            &&& p.contains_key(id@) && p[id@] == responder
            &&& forall|k: IdView| k != id@ ==> (#[trigger] p.contains_key(k) == pool.contains_key(k)) && (pool.contains_key(k) ==> p[k] == pool[k])
        }),
{
}

/// Why the opening exchange of a connection failed.
#[derive(Debug)]
pub enum HandshakeError {
    /// The connection ended before the expected message.
    UnexpectedEof(&'static str),
    /// Another message came than the one expected.
    InvalidData(&'static str),
    /// The server answered the initialize request with an error.
    Peer(ErrorData),
}

/// What a client first sends: the initialize request with its own info.
pub open spec fn spec_initialize_request_message(info: ClientInfo, id: RequestId) -> ClientJsonRpcMessage {
    spec_into_json_rpc_message(
        Message::Request(ClientRequest::InitializeRequest(Request { method: InitializeResultMethod, params: info, meta: None }), id),
    )
}

/// What a client first sends: the initialize request with its own info.
pub fn initialize_request_message(info: ClientInfo, id: RequestId) -> (r: ClientJsonRpcMessage)
    ensures
        r == spec_initialize_request_message(info, id),
{
    Message::Request(ClientRequest::InitializeRequest(Request { method: InitializeResultMethod, params: info, meta: None }), id)
        .into_json_rpc_message()
}

/// How a client takes the answer to its initialize request, sent under
/// `id`: the server's info from an initialize result under that id; the
/// server's error if it answered with one; otherwise the exchange fails.
pub open spec fn spec_accept_initialize_response(id: IdView, message: Option<ServerJsonRpcMessage>) -> Result<InitializeResult, HandshakeError> {
    match message {
        None => Err(HandshakeError::UnexpectedEof("expect initialize response")),
        Some(m) => match spec_into_message(m) {
            Message::Response(result, rid) => if rid@ != id {
                Err(HandshakeError::InvalidData("conflict initialize response id"))
            } else {
                match result {
                    ServerResult::InitializeResult(info) => Ok(info),
                    _ => Err(HandshakeError::InvalidData("expect initialize result")),
                }
            },
            Message::Error(error, rid) => if rid@ != id {
                Err(HandshakeError::InvalidData("conflict initialize response id"))
            } else {
                Err(HandshakeError::Peer(error))
            },
            _ => Err(HandshakeError::InvalidData("expect initialize result")),
        },
    }
}

/// How a client takes the answer to its initialize request, sent under
/// `id`: the server's info from an initialize result under that id; the
/// server's error if it answered with one; otherwise the exchange fails.
pub fn accept_initialize_response(id: &RequestId, message: Option<ServerJsonRpcMessage>) -> (r: Result<InitializeResult, HandshakeError>)
    ensures
        r == spec_accept_initialize_response(id@, message),
{
    let m = match message {
        None => return Err(HandshakeError::UnexpectedEof("expect initialize response")),
        Some(m) => m,
    };
    let (result, response_id) = match m.into_message().into_result() {
        None => return Err(HandshakeError::InvalidData("expect initialize result")),
        Some(r) => r,
    };
    if !id.same_as(&response_id) {
        return Err(HandshakeError::InvalidData("conflict initialize response id"));
    }
    match result {
        Err(e) => Err(HandshakeError::Peer(e)),
        Ok(ServerResult::InitializeResult(info)) => Ok(info),
        Ok(_) => Err(HandshakeError::InvalidData("expect initialize result")),
    }
}

/// What a client sends once the server accepted it: the initialized
/// notification.
pub fn initialized_notification_message() -> (r: ClientJsonRpcMessage)
    ensures
        r == spec_into_json_rpc_message(
            Message::<ClientRequest, ClientResult, ClientNotification>::Notification(
                ClientNotification::InitializedNotification(Notification { method: InitializedNotificationMethod, params: () }),
            ),
        ),
{
    Message::Notification(
        ClientNotification::InitializedNotification(Notification { method: InitializedNotificationMethod, params: () }),
    ).into_json_rpc_message()
}

/// How a server takes the first message of a client: it must be the
/// initialize request, whose info and id it gives.
pub open spec fn spec_accept_initialize_request(message: Option<ClientJsonRpcMessage>) -> Result<(InitializeRequestParam, RequestId), HandshakeError> {
    match message {
        None => Err(HandshakeError::UnexpectedEof("expect initialize request")),
        Some(m) => match spec_into_message(m) {
            Message::Request(ClientRequest::InitializeRequest(r), id) => Ok((r.params, id)),
            _ => Err(HandshakeError::InvalidData("expect initialize request")),
        },
    }
}

/// How a server takes the first message of a client: it must be the
/// initialize request, whose info and id it gives.
pub fn accept_initialize_request(message: Option<ClientJsonRpcMessage>) -> (r: Result<(InitializeRequestParam, RequestId), HandshakeError>)
    ensures
        r == spec_accept_initialize_request(message),
{
    let m = match message {
        None => return Err(HandshakeError::UnexpectedEof("expect initialize request")),
        Some(m) => m,
    };
    match m.into_message().into_request() {
        Some((ClientRequest::InitializeRequest(r), id)) => Ok((r.params, id)),
        _ => Err(HandshakeError::InvalidData("expect initialize request")),
    }
}

/// The server's answer to the initialize request: its own info under the
/// request's id.
pub fn initialize_response_message(info: ServerInfo, id: RequestId) -> (r: ServerJsonRpcMessage)
    ensures
        r == spec_into_json_rpc_message(
            Message::<ServerRequest, ServerResult, ServerNotification>::Response(ServerResult::InitializeResult(info), id),
        ),
{
    Message::Response(ServerResult::InitializeResult(info), id).into_json_rpc_message()
}

/// How a server takes the second message of a client: it must be the
/// initialized notification.
pub open spec fn spec_accept_initialized_notification(message: Option<ClientJsonRpcMessage>) -> Result<(), HandshakeError> {
    match message {
        None => Err(HandshakeError::UnexpectedEof("expect initialize notification")),
        Some(m) => match spec_into_message(m) {
            Message::Notification(ClientNotification::InitializedNotification(_)) => Ok(()),
            _ => Err(HandshakeError::InvalidData("expect initialize notification")),
        },
    }
}

/// How a server takes the second message of a client: it must be the
/// initialized notification.
pub fn accept_initialized_notification(message: Option<ClientJsonRpcMessage>) -> (r: Result<(), HandshakeError>)
    ensures
        r == spec_accept_initialized_notification(message),
{
    let m = match message {
        None => return Err(HandshakeError::UnexpectedEof("expect initialize notification")),
        Some(m) => m,
    };
    match m.into_message().into_notification() {
        Some(ClientNotification::InitializedNotification(_)) => Ok(()),
        _ => Err(HandshakeError::InvalidData("expect initialize notification")),
    }
}

/// A client and a server that follow the opening exchange agree: the server
/// takes the client's initialize request with the client's info and id,
/// the client takes the server's answer as the server's info, and the
/// server takes the client's initialized notification.
pub proof fn lemma_handshake_agrees(client: ClientInfo, server: ServerInfo, id: RequestId)
    ensures
        spec_accept_initialize_request(Some(spec_initialize_request_message(client, id))) == Ok::<(InitializeRequestParam, RequestId), HandshakeError>((client, id)),
        spec_accept_initialize_response(
            id@,
            Some(spec_into_json_rpc_message(
                Message::<ServerRequest, ServerResult, ServerNotification>::Response(ServerResult::InitializeResult(server), id),
            )),
        ) == Ok::<InitializeResult, HandshakeError>(server),
        spec_accept_initialized_notification(Some(spec_into_json_rpc_message(
            Message::<ClientRequest, ClientResult, ClientNotification>::Notification(
                ClientNotification::InitializedNotification(Notification { method: InitializedNotificationMethod, params: () }),
            ),
        ))) == Ok::<(), HandshakeError>(()),
{
}

/// The answer to a request of the peer carries the request's id: the
/// service's result in a response, or its error in an error response.
pub proof fn lemma_answer_carries_request_id<R: ServiceRole>(result: Result<R::Resp, ErrorData>, id: RequestId)
    ensures
        result matches Ok(v) ==> spec_response_message::<R>(result, id) == JsonRpcMessage::<R::Req, R::Resp, R::Not>::Response(
            JsonRpcResponse { jsonrpc: JsonRpcVersion2_0, id, result: v },
        ),
        result matches Err(e) ==> spec_response_message::<R>(result, id) == JsonRpcMessage::<R::Req, R::Resp, R::Not>::Error(
            JsonRpcError { jsonrpc: JsonRpcVersion2_0, id, error: e },
        ),
{
}

/// The opening exchange refuses what does not follow it: a client refuses
/// an answer under another id than its initialize request's, takes an
/// error answer under that id as the server's error, and refuses any other
/// kind of answer; a server refuses a first message that is not an
/// initialize request and a second one that is not the initialized
/// notification; a connection that ends early is an unexpected end.
pub proof fn lemma_handshake_refusals(id: RequestId, answer: ServerJsonRpcMessage, first: ClientJsonRpcMessage)
    ensures
        spec_accept_initialize_response(id@, None) is Err,
        spec_accept_initialize_request(None) is Err,
        spec_accept_initialized_notification(None) is Err,
        answer matches JsonRpcMessage::Response(r) ==> (r.id@ != id@ ==> spec_accept_initialize_response(
            id@,
            Some(answer),
        ) is Err),
        answer matches JsonRpcMessage::Error(e) ==> (e.id@ != id@ ==> spec_accept_initialize_response(
            id@,
            Some(answer),
        ) is Err),
        answer matches JsonRpcMessage::Error(e) ==> (e.id@ == id@ ==> spec_accept_initialize_response(id@, Some(answer))
            == Err::<InitializeResult, HandshakeError>(HandshakeError::Peer(e.error))),
        answer matches JsonRpcMessage::Response(r) ==> (r.id@ == id@ ==> (spec_accept_initialize_response(
            id@,
            Some(answer),
        ) is Ok <==> r.result is InitializeResult)),
        (answer is Request || answer is Notification) ==> spec_accept_initialize_response(id@, Some(answer)) is Err,
        spec_accept_initialize_request(Some(first)) is Ok <==> (first matches JsonRpcMessage::Request(r)
            && r.request is InitializeRequest),
        spec_accept_initialized_notification(Some(first)) is Ok <==> (first matches JsonRpcMessage::Notification(n)
            && n.notification is InitializedNotification),
{
}

/// What a request sent to the peer comes to: the peer's result, or the
/// error it answered with.
pub fn peer_outcome<T>(response: Result<T, ErrorData>) -> (r: Result<T, ServiceError>)
    ensures
        match response {
            Ok(v) => r == Ok::<T, ServiceError>(v),
            Err(e) => r matches Err(ServiceError::McpError(e2)) && e2 == e,
        },
{
    match response {
        Ok(v) => Ok(v),
        Err(e) => Err(ServiceError::McpError(e)),
    }
}

/// The result of a `complete` request to a server; a result of another kind
/// is refused.
pub fn expect_complete_result(result: ServerResult) -> (r: Result<CompleteResult, ServiceError>)
    ensures
        match result {
            ServerResult::CompleteResult(v) => r == Ok::<CompleteResult, ServiceError>(v),
            _ => r matches Err(ServiceError::UnexpectedResponse),
        },
{
    match result {
        ServerResult::CompleteResult(v) => Ok(v),
        _ => Err(ServiceError::UnexpectedResponse),
    }
}

/// The result of a `get_prompt` request to a server; a result of another kind
/// is refused.
pub fn expect_get_prompt_result(result: ServerResult) -> (r: Result<GetPromptResult, ServiceError>)
    ensures
        match result {
            ServerResult::GetPromptResult(v) => r == Ok::<GetPromptResult, ServiceError>(v),
            _ => r matches Err(ServiceError::UnexpectedResponse),
        },
{
    match result {
        ServerResult::GetPromptResult(v) => Ok(v),
        _ => Err(ServiceError::UnexpectedResponse),
    }
}

/// The result of a `list_prompts` request to a server; a result of another kind
/// is refused.
pub fn expect_list_prompts_result(result: ServerResult) -> (r: Result<ListPromptsResult, ServiceError>)
    ensures
        match result {
            ServerResult::ListPromptsResult(v) => r == Ok::<ListPromptsResult, ServiceError>(v),
            _ => r matches Err(ServiceError::UnexpectedResponse),
        },
{
    match result {
        ServerResult::ListPromptsResult(v) => Ok(v),
        _ => Err(ServiceError::UnexpectedResponse),
    }
}

/// The result of a `list_resources` request to a server; a result of another kind
/// is refused.
pub fn expect_list_resources_result(result: ServerResult) -> (r: Result<ListResourcesResult, ServiceError>)
    ensures
        match result {
            ServerResult::ListResourcesResult(v) => r == Ok::<ListResourcesResult, ServiceError>(v),
            _ => r matches Err(ServiceError::UnexpectedResponse),
        },
{
    match result {
        ServerResult::ListResourcesResult(v) => Ok(v),
        _ => Err(ServiceError::UnexpectedResponse),
    }
}

/// The result of a `list_resource_templates` request to a server; a result of another kind
/// is refused.
pub fn expect_list_resource_templates_result(result: ServerResult) -> (r: Result<ListResourceTemplatesResult, ServiceError>)
    ensures
        match result {
            ServerResult::ListResourceTemplatesResult(v) => r == Ok::<ListResourceTemplatesResult, ServiceError>(v),
            _ => r matches Err(ServiceError::UnexpectedResponse),
        },
{
    match result {
        ServerResult::ListResourceTemplatesResult(v) => Ok(v),
        _ => Err(ServiceError::UnexpectedResponse),
    }
}

/// The result of a `read_resource` request to a server; a result of another kind
/// is refused.
pub fn expect_read_resource_result(result: ServerResult) -> (r: Result<ReadResourceResult, ServiceError>)
    ensures
        match result {
            ServerResult::ReadResourceResult(v) => r == Ok::<ReadResourceResult, ServiceError>(v),
            _ => r matches Err(ServiceError::UnexpectedResponse),
        },
{
    match result {
        ServerResult::ReadResourceResult(v) => Ok(v),
        _ => Err(ServiceError::UnexpectedResponse),
    }
}

/// The result of a `call_tool` request to a server; a result of another kind
/// is refused.
pub fn expect_call_tool_result(result: ServerResult) -> (r: Result<CallToolResult, ServiceError>)
    ensures
        match result {
            ServerResult::CallToolResult(v) => r == Ok::<CallToolResult, ServiceError>(v),
            _ => r matches Err(ServiceError::UnexpectedResponse),
        },
{
    match result {
        ServerResult::CallToolResult(v) => Ok(v),
        _ => Err(ServiceError::UnexpectedResponse),
    }
}

/// The result of a `list_tools` request to a server; a result of another kind
/// is refused.
pub fn expect_list_tools_result(result: ServerResult) -> (r: Result<ListToolsResult, ServiceError>)
    ensures
        match result {
            ServerResult::ListToolsResult(v) => r == Ok::<ListToolsResult, ServiceError>(v),
            _ => r matches Err(ServiceError::UnexpectedResponse),
        },
{
    match result {
        ServerResult::ListToolsResult(v) => Ok(v),
        _ => Err(ServiceError::UnexpectedResponse),
    }
}

/// The result of a request to a server that answers with the empty result
/// (setting the log level, subscribing, unsubscribing); a result of another
/// kind is refused.
pub fn expect_server_empty_result(result: ServerResult) -> (r: Result<(), ServiceError>)
    ensures
        match result {
            ServerResult::EmptyResult(_) => r == Ok::<(), ServiceError>(()),
            _ => r matches Err(ServiceError::UnexpectedResponse),
        },
{
    match result {
        ServerResult::EmptyResult(_) => Ok(()),
        _ => Err(ServiceError::UnexpectedResponse),
    }
}

/// The result of a `create_message` request to a client; a result of another kind
/// is refused.
pub fn expect_create_message_result(result: ClientResult) -> (r: Result<CreateMessageResult, ServiceError>)
    ensures
        match result {
            ClientResult::CreateMessageResult(v) => r == Ok::<CreateMessageResult, ServiceError>(v),
            _ => r matches Err(ServiceError::UnexpectedResponse),
        },
{
    match result {
        ClientResult::CreateMessageResult(v) => Ok(v),
        _ => Err(ServiceError::UnexpectedResponse),
    }
}

/// The result of a `list_roots` request to a client; a result of another kind
/// is refused.
pub fn expect_list_roots_result(result: ClientResult) -> (r: Result<ListRootsResult, ServiceError>)
    ensures
        match result {
            ClientResult::ListRootsResult(v) => r == Ok::<ListRootsResult, ServiceError>(v),
            _ => r matches Err(ServiceError::UnexpectedResponse),
        },
{
    match result {
        ClientResult::ListRootsResult(v) => Ok(v),
        _ => Err(ServiceError::UnexpectedResponse),
    }
}

} // verus!
