//! The server side of a streamable HTTP session.
//!
//! A session keeps one stream per open client request and one common
//! stream. Every message the service sends is routed to one of them: a
//! response or error to the stream of the request it answers (an error also
//! closes that stream), a progress notification to the stream of the
//! request that registered its progress token, a cancellation to the stream
//! of the cancelled request, and everything else to the common stream. Each
//! stream numbers its events and keeps the latest ones, so that a client
//! that reconnects with the id of the last event it saw gets the rest again.
use crate::event_id::{EventId, EventIdView};
use crate::model::{IdView, JsonRpcMessage, ProgressToken, RequestId};
use crate::schema::{meta_progress_token, ClientRequest, ServerJsonRpcMessage, ServerNotification};
use std::collections::VecDeque;
use std::sync::Arc;
use vstd::prelude::*;

verus! {

/// `Clone` of an `Arc`: another handle on the same value.
#[verifier::external_body]
fn arc_clone<T>(a: &Arc<T>) -> (r: Arc<T>)
    ensures
        r == *a,
{
    a.clone()
}

/// The id of a session.
pub type SessionId = String;

/// A message of the service together with the id of its event.
#[derive(Debug)]
pub struct ServerSessionMessage {
    pub event_id: EventId,
    pub message: Arc<ServerJsonRpcMessage>,
}

/// A session message as a value.
pub struct SessionMessageView {
    pub event_id: EventIdView,
    pub message: ServerJsonRpcMessage,
}

impl View for ServerSessionMessage {
    type V = SessionMessageView;

    open spec fn view(&self) -> SessionMessageView {
        SessionMessageView { event_id: self.event_id@, message: *self.message }
    }
}

impl ServerSessionMessage {
    /// Another handle on the same message with the same event id.
    pub fn copied(&self) -> (r: ServerSessionMessage)
        ensures
            r@ == self@,
    {
        let request_id: Option<RequestId> = match self.event_id.request_id() {
            Some(id) => Some(id.copied()),
            None => None,
        };
        ServerSessionMessage {
            event_id: EventId::new(request_id, self.event_id.index()),
            message: arc_clone(&self.message),
        }
    }
}

/// Errors of a session.
#[derive(Debug)]
pub enum SessionError {
    /// A stream is already open for this request id.
    DuplicatedRequestId(RequestId),
    /// The stream of this request (or the common stream) is gone.
    ChannelClosed(Option<RequestId>),
    /// An event id could not be read.
    EventIdParseError(String),
    /// The task running the session has ended.
    SessionServiceTerminated,
    /// The event id is not one this stream can resume from.
    InvalidEventId,
    /// The service no longer takes messages.
    TransportClosed,
}

/// A session error as a value.
pub enum SessionErrorView {
    DuplicatedRequestId(IdView),
    ChannelClosed(Option<IdView>),
    EventIdParseError(Seq<char>),
    SessionServiceTerminated,
    InvalidEventId,
    TransportClosed,
}

/// The view of an optional id.
pub open spec fn opt_id_view(id: Option<RequestId>) -> Option<IdView> {
    match id {
        Some(i) => Some(i@),
        None => None,
    }
}

impl View for SessionError {
    type V = SessionErrorView;

    open spec fn view(&self) -> SessionErrorView {
        match self {
            SessionError::DuplicatedRequestId(id) => SessionErrorView::DuplicatedRequestId(id@),
            SessionError::ChannelClosed(id) => SessionErrorView::ChannelClosed(opt_id_view(*id)),
            SessionError::EventIdParseError(s) => SessionErrorView::EventIdParseError(s@),
            SessionError::SessionServiceTerminated => SessionErrorView::SessionServiceTerminated,
            SessionError::InvalidEventId => SessionErrorView::InvalidEventId,
            SessionError::TransportClosed => SessionErrorView::TransportClosed,
        }
    }
}

/// Why a session ended.
#[derive(Debug, Clone, Copy)]
pub enum SessionQuitReason {
    ServiceTerminated,
    ClientTerminated,
}

/// One stream of a session as a value: the request it belongs to (none for
/// the common stream), how many events it keeps, and the events kept.
pub struct CacheView {
    pub request_id: Option<IdView>,
    pub capacity: nat,
    pub messages: Seq<SessionMessageView>,
}

/// The index that the next event of a stream gets.
pub open spec fn next_event_index(c: CacheView) -> nat {
    if c.messages.len() == 0 {
        0
    } else {
        c.messages.last().event_id.index + 1
    }
}

/// The kept events of a stream carry consecutive indices and the stream's
/// request id.
pub open spec fn cache_wf(c: CacheView) -> bool {
    &&& forall|i: int| #![trigger c.messages[i]] 0 <= i < c.messages.len() ==> {
        &&& c.messages[i].event_id.index == c.messages[0].event_id.index + i
        &&& c.messages[i].event_id.request_id == c.request_id
    }
    &&& next_event_index(c) <= usize::MAX + 1
}

/// Sending a message on a stream: it gets the next index, and the oldest
/// event is dropped when the stream already keeps as many as it may.
pub open spec fn cache_record(c: CacheView, message: ServerJsonRpcMessage) -> (CacheView, SessionMessageView) {
    let m = SessionMessageView {
        event_id: EventIdView { request_id: c.request_id, index: next_event_index(c) },
        message,
    };
    let kept = if c.messages.len() >= c.capacity && c.messages.len() > 0 {
        c.messages.drop_first()
    } else {
        c.messages
    };
    (CacheView { request_id: c.request_id, capacity: c.capacity, messages: kept.push(m) }, m)
}

/// How many kept events lie up to and including the event with the given
/// index: the distance from the oldest kept event to the one after `index`,
/// computed modulo the word size, as the stream does. The index just before
/// the oldest kept event gives 0.
pub open spec fn replay_skip(front: int, index: int) -> int {
    let d = index + 1 - front;
    if d < 0 {
        d + usize::MAX + 1
    } else if d > usize::MAX {
        d - usize::MAX - 1
    } else {
        d
    }
}

/// Resuming a stream after the event with the given index: the kept events
/// after that one, or `None` when the index lies outside them.
pub open spec fn cache_replay(c: CacheView, index: nat) -> Option<Seq<SessionMessageView>> {
    if c.messages.len() == 0 {
        Some(Seq::<SessionMessageView>::empty())
    } else {
        let k = replay_skip(c.messages[0].event_id.index as int, index as int);
        if k > c.messages.len() {
            None
        } else {
            Some(c.messages.skip(k))
        }
    }
}

/// One stream of a session: its sender, the events it keeps and the request
/// it belongs to.
pub struct CachedTx<Tx> {
    tx: Tx,
    cache: VecDeque<ServerSessionMessage>,
    request_id: Option<RequestId>,
    capacity: usize,
}

impl<Tx> View for CachedTx<Tx> {
    type V = CacheView;

    closed spec fn view(&self) -> CacheView {
        CacheView {
            request_id: opt_id_view(self.request_id),
            capacity: self.capacity as nat,
            messages: self.cache@.map_values(|m: ServerSessionMessage| m@),
        }
    }
}

impl<Tx> CachedTx<Tx> {
    /// A stream that keeps up to `capacity` events, for the given request or
    /// (with none) the common stream.
    pub fn new(tx: Tx, capacity: usize, request_id: Option<RequestId>) -> (r: CachedTx<Tx>)
        ensures
            r@.request_id == opt_id_view(request_id),
            r@.capacity == capacity,
            r@.messages.len() == 0,
            cache_wf(r@),
            r.sender() == tx,
    {
        let r = CachedTx { tx, cache: VecDeque::new(), request_id, capacity };
        proof {
            assert(r@.messages =~= Seq::<SessionMessageView>::empty());
        }
        r
    }

    /// The common stream of a session.
    pub fn new_common(tx: Tx, capacity: usize) -> (r: CachedTx<Tx>)
        ensures
            r@.request_id is None,
            r@.capacity == capacity,
            r@.messages.len() == 0,
            cache_wf(r@),
            r.sender() == tx,
    {
        Self::new(tx, capacity, None)
    }

    /// The sender of this stream.
    pub closed spec fn sender(&self) -> Tx {
        self.tx
    }

    /// The sender of this stream.
    pub fn tx(&self) -> (r: &Tx)
        ensures
            *r == self.sender(),
    {
        &self.tx
    }

    /// Replaces the sender, keeping the events.
    pub fn set_tx(&mut self, tx: Tx)
        ensures
            final(self)@ == old(self)@,
            final(self).sender() == tx,
    {
        self.tx = tx;
    }

    /// Gives the sender back.
    pub fn into_tx(self) -> (r: Tx)
        ensures
            r == self.sender(),
    {
        self.tx
    }

    /// Numbers a message as the next event of this stream and keeps it;
    /// returns the numbered message, to be sent on the stream.
    pub fn record(&mut self, message: ServerJsonRpcMessage) -> (r: ServerSessionMessage)
        requires
            cache_wf(old(self)@),
            next_event_index(old(self)@) <= usize::MAX,
        ensures
            cache_wf(final(self)@),
            (final(self)@, r@) == cache_record(old(self)@, message),
            final(self).sender() == old(self).sender(),
    {
        let ghost c = self@;
        let len: usize = self.cache.len();
        let index: usize = if len == 0 {
            0
        } else {
            proof {
                assert(c.messages.last() == self.cache@[len - 1]@);
            }
            self.cache[len - 1].event_id.index() + 1
        };
        let request_id: Option<RequestId> = match &self.request_id {
            Some(id) => Some(id.copied()),
            None => None,
        };
        let m = ServerSessionMessage { event_id: EventId::new(request_id, index), message: Arc::new(message) };
        if len >= self.capacity && len > 0 {
            self.cache.pop_front();
        }
        self.cache.push_back(m.copied());
        proof {
            let (c2, mv) = cache_record(c, message);
            assert(m@ == mv);
            assert(self@.messages =~= c2.messages);
        }
        m
    }

    /// The events to send again to a client that resumes after the event
    /// with the given index, or `InvalidEventId` when the index lies past the
    /// kept events.
    pub fn replay_from(&self, index: usize) -> (r: Result<Vec<ServerSessionMessage>, SessionError>)
        requires
            cache_wf(self@),
        ensures
            match cache_replay(self@, index as nat) {
                Some(ms) => r matches Ok(v) && v@.map_values(|m: ServerSessionMessage| m@) == ms,
                None => r matches Err(e) && e@ == SessionErrorView::InvalidEventId,
            },
    {
        let ghost c = self@;
        let len: usize = self.cache.len();
        let mut out: Vec<ServerSessionMessage> = Vec::new();
        if len == 0 {
            proof {
                assert(out@.map_values(|m: ServerSessionMessage| m@) =~= Seq::<SessionMessageView>::empty());
            }
            return Ok(out);
        }
        let front: usize = self.cache[0].event_id.index();
        proof {
            assert(c.messages[0] == self.cache@[0]@);
        }
        let k: usize = if index >= front {
            let d: usize = index - front;
            if d == usize::MAX {
                0
            } else {
                d + 1
            }
        } else if front - index == 1 {
            0
        } else {
            usize::MAX - (front - index - 1) + 1
        };
        if k > len {
            return Err(SessionError::InvalidEventId);
        }
        let mut i: usize = k;
        while i < len
            invariant
                k <= i <= len == self.cache@.len(),
                c == self@,
                out@.map_values(|m: ServerSessionMessage| m@) == c.messages.subrange(k as int, i as int),
            decreases len - i,
        {
            let m = self.cache[i].copied();
            let ghost before = out@;
            out.push(m);
            proof {
                assert(c.messages[i as int] == self.cache@[i as int]@);
                assert(out@ == before.push(m));
                assert(out@.map_values(|m: ServerSessionMessage| m@) =~= before.map_values(
                    |m: ServerSessionMessage| m@,
                ).push(m@));
                assert(out@.map_values(|m: ServerSessionMessage| m@) =~= c.messages.subrange(k as int, i + 1));
            }
            i = i + 1;
        }
        proof {
            assert(c.messages.subrange(k as int, len as int) =~= c.messages.skip(k as int));
        }
        Ok(out)
    }
}

/// The stream of one client request and the progress token it registered.
pub struct RequestWise<Tx> {
    pub progress_token: Option<ProgressToken>,
    pub tx: CachedTx<Tx>,
}

/// A request stream of a session as a value.
pub struct RouteView {
    pub id: IdView,
    pub progress_token: Option<IdView>,
    pub cache: CacheView,
}

/// Where a message of the service goes.
pub enum OutboundChannel {
    /// The stream of a request; `close` ends the stream after the message.
    RequestWise { id: RequestId, close: bool },
    /// The common stream.
    Common,
}

/// Where a message of the service goes, as a value.
pub enum OutboundView {
    RequestWise { id: IdView, close: bool },
    Common,
}

/// Index of the first stream at or after `from` that belongs to `id`, or -1.
pub open spec fn route_index_from(routes: Seq<RouteView>, id: IdView, from: int) -> int
    decreases routes.len() - from,
{
    if from < 0 || from >= routes.len() {
        -1
    } else if routes[from].id == id {
        from
    } else {
        route_index_from(routes, id, from + 1)
    }
}

/// Index of the stream that belongs to `id`, or -1.
pub open spec fn route_index(routes: Seq<RouteView>, id: IdView) -> int {
    route_index_from(routes, id, 0)
}

/// Index of the first stream at or after `from` that registered `token`, or -1.
pub open spec fn token_index_from(routes: Seq<RouteView>, token: IdView, from: int) -> int
    decreases routes.len() - from,
{
    if from < 0 || from >= routes.len() {
        -1
    } else if routes[from].progress_token == Some(token) {
        from
    } else {
        token_index_from(routes, token, from + 1)
    }
}

/// Where a progress notification with the given token goes: to the first
/// stream that registered the token, else to the common stream.
pub open spec fn progress_outbound(routes: Seq<RouteView>, token: IdView) -> OutboundView {
    let i = token_index_from(routes, token, 0);
    if i >= 0 {
        OutboundView::RequestWise { id: routes[i].id, close: false }
    } else {
        OutboundView::Common
    }
}

/// Where a message of the service goes, given the open request streams.
pub open spec fn outbound(routes: Seq<RouteView>, message: ServerJsonRpcMessage) -> OutboundView {
    match message {
        JsonRpcMessage::Request(_) => OutboundView::Common,
        JsonRpcMessage::Notification(n) => match n.notification {
            ServerNotification::ProgressNotification(p) => progress_outbound(routes, p.params.progress_token@),
            ServerNotification::CancelledNotification(c) => OutboundView::RequestWise {
                id: c.params.request_id@,
                close: false,
            },
            _ => OutboundView::Common,
        },
        JsonRpcMessage::Response(r) => OutboundView::RequestWise { id: r.id@, close: false },
        JsonRpcMessage::Error(e) => OutboundView::RequestWise { id: e.id@, close: true },
    }
}

/// A session as a value: its id, its request streams and its common stream.
pub struct SessionView {
    pub id: Seq<char>,
    pub routes: Seq<RouteView>,
    pub common: CacheView,
}

/// The state invariant of a session: each request has at most one stream,
/// each stream is numbered consistently and can take another event.
pub open spec fn session_wf(s: SessionView) -> bool {
    &&& forall|i: int, j: int| 0 <= i < j < s.routes.len() ==> s.routes[i].id != s.routes[j].id
    &&& forall|i: int| #![trigger s.routes[i]] 0 <= i < s.routes.len() ==> {
        &&& cache_wf(s.routes[i].cache)
        &&& s.routes[i].cache.request_id == Some(s.routes[i].id)
    }
    &&& cache_wf(s.common)
    &&& s.common.request_id is None
}

/// The stream a message goes to can number one more event.
pub open spec fn can_number(s: SessionView, message: ServerJsonRpcMessage) -> bool {
    match outbound(s.routes, message) {
        OutboundView::Common => next_event_index(s.common) <= usize::MAX,
        OutboundView::RequestWise { id, .. } => route_index(s.routes, id) >= 0 ==> next_event_index(
            s.routes[route_index(s.routes, id)].cache,
        ) <= usize::MAX,
    }
}

/// Where a message of the service was delivered, as a value.
pub enum DeliveryView {
    Common(SessionMessageView),
    Request { id: IdView, message: SessionMessageView, closed: bool },
}

/// Handling a message of the service: it is numbered on the stream it is
/// routed to; a message for a request without a stream is refused.
pub open spec fn handle_spec(s: SessionView, message: ServerJsonRpcMessage) -> Result<(SessionView, DeliveryView), SessionErrorView> {
    match outbound(s.routes, message) {
        OutboundView::Common => {
            let (c2, m) = cache_record(s.common, message);
            Ok((SessionView { id: s.id, routes: s.routes, common: c2 }, DeliveryView::Common(m)))
        },
        OutboundView::RequestWise { id, close } => {
            let i = route_index(s.routes, id);
            if i < 0 {
                Err(SessionErrorView::ChannelClosed(Some(id)))
            } else {
                let (c2, m) = cache_record(s.routes[i].cache, message);
                let routes2 = if close {
                    s.routes.remove(i)
                } else {
                    s.routes.update(i, RouteView { id: s.routes[i].id, progress_token: s.routes[i].progress_token, cache: c2 })
                };
                Ok((SessionView { id: s.id, routes: routes2, common: s.common }, DeliveryView::Request { id, message: m, closed: close }))
            }
        },
    }
}

/// Where a handled message must be sent.
pub enum Delivery<Tx> {
    /// On the common stream.
    Common(ServerSessionMessage),
    /// On the stream of this request, which stays open.
    Request { id: RequestId, message: ServerSessionMessage },
    /// On this sender, the stream of this request, which is now closed.
    Closed { id: RequestId, message: ServerSessionMessage, tx: Tx },
}

/// What a delivery is, as a value.
pub open spec fn delivery_view<Tx>(d: Delivery<Tx>) -> DeliveryView {
    match d {
        Delivery::Common(m) => DeliveryView::Common(m@),
        Delivery::Request { id, message } => DeliveryView::Request { id: id@, message: message@, closed: false },
        Delivery::Closed { id, message, .. } => DeliveryView::Request { id: id@, message: message@, closed: true },
    }
}

/// The routing state of a session.
pub struct SessionContext<Tx> {
    id: SessionId,
    request_router: Vec<(RequestId, RequestWise<Tx>)>,
    common: CachedTx<Tx>,
}

/// The view of one request stream.
pub open spec fn route_view<Tx>(e: (RequestId, RequestWise<Tx>)) -> RouteView {
    RouteView { id: e.0@, progress_token: opt_id_view(e.1.progress_token), cache: e.1.tx@ }
}

impl<Tx> View for SessionContext<Tx> {
    type V = SessionView;

    closed spec fn view(&self) -> SessionView {
        SessionView {
            id: self.id@,
            routes: self.request_router@.map_values(|e: (RequestId, RequestWise<Tx>)| route_view(e)),
            common: self.common@,
        }
    }
}

proof fn lemma_route_index_bounds(routes: Seq<RouteView>, id: IdView, from: int)
    requires
        0 <= from,
    ensures
        -1 <= route_index_from(routes, id, from) < routes.len(),
        route_index_from(routes, id, from) >= 0 ==> from <= route_index_from(routes, id, from) && routes[route_index_from(routes, id, from)].id == id,
        route_index_from(routes, id, from) < 0 ==> forall|i: int| from <= i < routes.len() ==> routes[i].id != id,
    decreases routes.len() - from,
{
    if from < routes.len() && routes[from].id != id {
        lemma_route_index_bounds(routes, id, from + 1);
    }
}

proof fn lemma_token_index_bounds(routes: Seq<RouteView>, token: IdView, from: int)
    requires
        0 <= from,
    ensures
        -1 <= token_index_from(routes, token, from) < routes.len(),
        token_index_from(routes, token, from) >= 0 ==> from <= token_index_from(routes, token, from) && routes[token_index_from(routes, token, from)].progress_token == Some(token),
        token_index_from(routes, token, from) < 0 ==> forall|i: int| from <= i < routes.len() ==> routes[i].progress_token != Some(token),
    decreases routes.len() - from,
{
    if from < routes.len() && routes[from].progress_token != Some(token) {
        lemma_token_index_bounds(routes, token, from + 1);
    }
}

proof fn lemma_route_index_found(routes: Seq<RouteView>, id: IdView, from: int, k: int)
    requires
        0 <= from <= k < routes.len(),
        routes[k].id == id,
        forall|i: int| from <= i < k ==> routes[i].id != id,
    ensures
        route_index_from(routes, id, from) == k,
    decreases k - from,
{
    if from < k {
        lemma_route_index_found(routes, id, from + 1, k);
    }
}

proof fn lemma_token_index_found(routes: Seq<RouteView>, token: IdView, from: int, k: int)
    requires
        0 <= from <= k < routes.len(),
        routes[k].progress_token == Some(token),
        forall|i: int| from <= i < k ==> routes[i].progress_token != Some(token),
    ensures
        token_index_from(routes, token, from) == k,
    decreases k - from,
{
    if from < k {
        lemma_token_index_found(routes, token, from + 1, k);
    }
}

/// Whether two optional tokens are the same.
fn same_token(a: &Option<ProgressToken>, b: &ProgressToken) -> (r: bool)
    ensures
        r == (opt_id_view(*a) == Some(b@)),
{
    match a {
        Some(t) => t.same_as(b),
        None => false,
    }
}

impl<Tx> SessionContext<Tx> {
    /// The channel size (and number of kept events) of a request stream.
    pub open spec fn request_wise_channel_size() -> nat {
        16
    }

    /// A session with the given id and common stream, and no request streams.
    pub fn new(id: SessionId, common: CachedTx<Tx>) -> (r: SessionContext<Tx>)
        requires
            cache_wf(common@),
            common@.request_id is None,
        ensures
            r@.id == id@,
            r@.routes.len() == 0,
            r@.common == common@,
            session_wf(r@),
            r.route_senders() == Seq::<Tx>::empty(),
            r.common_sender() == common.sender(),
    {
        let r = SessionContext { id, request_router: Vec::new(), common };
        proof {
            assert(r@.routes =~= Seq::<RouteView>::empty());
            assert(r.route_senders() =~= Seq::<Tx>::empty());
        }
        r
    }

    /// The id of the session.
    pub fn session_id(&self) -> (r: &SessionId)
        ensures
            r@ == self@.id,
    {
        &self.id
    }

    /// The sender of the common stream.
    pub closed spec fn common_sender(&self) -> Tx {
        self.common.sender()
    }

    /// The senders of the request streams, in the order of `self@.routes`.
    pub closed spec fn route_senders(&self) -> Seq<Tx> {
        self.request_router@.map_values(|e: (RequestId, RequestWise<Tx>)| e.1.tx.sender())
    }

    /// The sender of the stream at the given position.
    pub open spec fn route_sender(&self, i: int) -> Tx {
        self.route_senders()[i]
    }

    /// There is one sender for each request stream.
    pub proof fn lemma_one_sender_per_route(&self)
        ensures
            self.route_senders().len() == self@.routes.len(),
    {
    }

    /// The common stream.
    pub fn common(&self) -> (r: &CachedTx<Tx>)
        ensures
            r@ == self@.common,
            r.sender() == self.common_sender(),
    {
        &self.common
    }

    /// Position of the stream of a request, if it has one.
    fn find_route(&self, id: &RequestId) -> (r: Option<usize>)
        ensures
            match r {
                Some(i) => i == route_index(self@.routes, id@) && i < self@.routes.len(),
                None => route_index(self@.routes, id@) < 0,
            },
    {
        let ghost routes = self@.routes;
        let len: usize = self.request_router.len();
        let mut i: usize = 0;
        while i < len
            invariant
                i <= len == routes.len(),
                routes == self@.routes,
                forall|j: int| 0 <= j < i ==> routes[j].id != id@,
            decreases len - i,
        {
            proof {
                assert(routes[i as int] == route_view(self.request_router@[i as int]));
            }
            if self.request_router[i].0.same_as(id) {
                proof {
                    lemma_route_index_found(routes, id@, 0, i as int);
                }
                return Some(i);
            }
            i = i + 1;
        }
        proof {
            lemma_route_index_bounds(routes, id@, 0);
        }
        None
    }

    /// Whether a request has a stream.
    pub fn contains_request(&self, id: &RequestId) -> (r: bool)
        ensures
            r == (route_index(self@.routes, id@) >= 0),
    {
        self.find_route(id).is_some()
    }

    /// The sender of the stream of a request, if it has one.
    pub fn request_tx(&self, id: &RequestId) -> (r: Option<&Tx>)
        ensures
            r is Some == (route_index(self@.routes, id@) >= 0),
            r matches Some(t) ==> *t == self.route_sender(route_index(self@.routes, id@)),
    {
        match self.find_route(id) {
            Some(i) => Some(self.request_router[i].1.tx.tx()),
            None => None,
        }
    }

    /// Where a message of the service goes.
    pub fn resolve_outbound_channel(&self, message: &ServerJsonRpcMessage) -> (r: OutboundChannel)
        ensures
            match r {
                OutboundChannel::Common => outbound(self@.routes, *message) == OutboundView::Common,
                OutboundChannel::RequestWise { id, close } => outbound(self@.routes, *message)
                    == (OutboundView::RequestWise { id: id@, close }),
            },
    {
        match message {
            JsonRpcMessage::Request(_) => OutboundChannel::Common,
            JsonRpcMessage::Notification(n) => match &n.notification {
                ServerNotification::ProgressNotification(p) => {
                    let token = &p.params.progress_token;
                    let ghost routes = self@.routes;
                    let len: usize = self.request_router.len();
                    let mut i: usize = 0;
                    while i < len
                        invariant
                            i <= len == routes.len(),
                            routes == self@.routes,
                            forall|j: int| 0 <= j < i ==> routes[j].progress_token != Some(token@),
                            outbound(routes, *message) == progress_outbound(routes, token@),
                        decreases len - i,
                    {
                        proof {
                            assert(routes[i as int] == route_view(self.request_router@[i as int]));
                        }
                        if same_token(&self.request_router[i].1.progress_token, token) {
                            let id = self.request_router[i].0.copied();
                            proof {
                                lemma_token_index_found(routes, token@, 0, i as int);
                                assert(routes[i as int].id == id@);

                            }
                            return OutboundChannel::RequestWise { id, close: false };
                        }
                        i = i + 1;
                    }
                    proof {
                        lemma_token_index_bounds(routes, token@, 0);
                    }
                    OutboundChannel::Common
                },
                ServerNotification::CancelledNotification(c) => OutboundChannel::RequestWise {
                    id: c.params.request_id.copied(),
                    close: false,
                },
                _ => OutboundChannel::Common,
            },
            JsonRpcMessage::Response(r) => OutboundChannel::RequestWise { id: r.id.copied(), close: false },
            JsonRpcMessage::Error(e) => OutboundChannel::RequestWise { id: e.id.copied(), close: true },
        }
    }

    /// Opens the stream of a client request on the sender `tx`,
    /// registering the progress token that the request's `_meta` names;
    /// refused when the request already has a stream.
    pub fn establish_request_wise_channel(
        &mut self,
        request: &ClientRequest,
        request_id: RequestId,
        tx: Tx,
    ) -> (r: Result<(), SessionError>)
        requires
            session_wf(old(self)@),
        ensures
            session_wf(final(self)@),
            final(self)@.id == old(self)@.id,
            final(self)@.common == old(self)@.common,
            final(self).common_sender() == old(self).common_sender(),
            route_index(old(self)@.routes, request_id@) >= 0 ==> {
                &&& r matches Err(e) && e@ == SessionErrorView::DuplicatedRequestId(request_id@)
                &&& final(self)@ == old(self)@
                &&& final(self).route_senders() == old(self).route_senders()
            },
            route_index(old(self)@.routes, request_id@) < 0 ==> {
                &&& r is Ok
                &&& final(self).route_senders() == old(self).route_senders().push(tx)
                &&& final(self)@.routes == old(self)@.routes.push(RouteView {
                    id: request_id@,
                    progress_token: meta_progress_token(request.spec_meta()),
                    cache: CacheView {
                        request_id: Some(request_id@),
                        capacity: Self::request_wise_channel_size(),
                        messages: Seq::empty(),
                    },
                })
            },
    {
        if self.find_route(&request_id).is_some() {
            return Err(SessionError::DuplicatedRequestId(request_id));
        }
        let ghost old_routes = self@.routes;
        let ghost old_senders = self.route_senders();
        let progress_token = request.progress_token();
        let cache = CachedTx::new(tx, 16, Some(request_id.copied()));
        proof {
            assert(cache@.messages =~= Seq::<SessionMessageView>::empty());
            lemma_route_index_bounds(old_routes, request_id@, 0);
        }
        self.request_router.push((request_id, RequestWise { progress_token, tx: cache }));
        proof {
            assert(self@.routes =~= old_routes.push(route_view(self.request_router@.last())));
            assert(self.route_senders() =~= old_senders.push(tx));
        }
        Ok(())
    }

    /// Closes the stream of a request, if it has one.
    pub fn close_request_wise_channel(&mut self, request_id: &RequestId) -> (r: Option<Tx>)
        requires
            session_wf(old(self)@),
        ensures
            session_wf(final(self)@),
            final(self)@.id == old(self)@.id,
            final(self)@.common == old(self)@.common,
            final(self).common_sender() == old(self).common_sender(),
            route_index(old(self)@.routes, request_id@) >= 0 ==> {
                &&& r == Some(old(self).route_sender(route_index(old(self)@.routes, request_id@)))
                &&& final(self)@.routes == old(self)@.routes.remove(route_index(old(self)@.routes, request_id@))
                &&& final(self).route_senders() == old(self).route_senders().remove(
                    route_index(old(self)@.routes, request_id@),
                )
            },
            route_index(old(self)@.routes, request_id@) < 0 ==> r is None && final(self)@ == old(self)@
                && final(self).route_senders() == old(self).route_senders(),
            route_index(final(self)@.routes, request_id@) < 0,
    {
        let ghost old_routes = self@.routes;
        let ghost old_senders = self.route_senders();
        match self.find_route(request_id) {
            Some(i) => {
                let entry = self.request_router.remove(i);
                proof {
                    assert(self@.routes =~= old_routes.remove(i as int));
                    assert(self.route_senders() =~= old_senders.remove(i as int));
                    lemma_route_index_bounds(old_routes, request_id@, 0);
                    lemma_route_index_bounds(self@.routes, request_id@, 0);
                    let j = route_index(self@.routes, request_id@);
                    if j >= 0 {
                        if j < i {
                            assert(self@.routes[j] == old_routes[j]);
                        } else {
                            assert(self@.routes[j] == old_routes[j + 1]);
                        }
                    }
                }
                Some(entry.1.tx.into_tx())
            },
            None => None,
        }
    }

    /// Routes a message of the service to its stream and numbers it there.
    /// The caller sends the returned message as the delivery says.
    pub fn handle_server_message(&mut self, message: ServerJsonRpcMessage) -> (r: Result<Delivery<Tx>, SessionError>)
        requires
            session_wf(old(self)@),
            can_number(old(self)@, message),
        ensures
            session_wf(final(self)@),
            final(self).common_sender() == old(self).common_sender(),
            match r {
                Ok(Delivery::Closed { id, tx, .. }) => {
                    &&& tx == old(self).route_sender(route_index(old(self)@.routes, id@))
                    &&& final(self).route_senders() == old(self).route_senders().remove(
                        route_index(old(self)@.routes, id@),
                    )
                },
                _ => final(self).route_senders() == old(self).route_senders(),
            },
            match handle_spec(old(self)@, message) {
                Ok((s2, d)) => r matches Ok(del) && delivery_view(del) == d && final(self)@ == s2,
                Err(e) => r matches Err(err) && err@ == e && final(self)@ == old(self)@,
            },
    {
        let ghost s = self@;
        let ghost senders = self.route_senders();
        proof {
            lemma_handle_keeps_wf(s, message);
        }
        let channel = self.resolve_outbound_channel(&message);
        match channel {
            OutboundChannel::Common => {
                let m = self.common.record(message);
                Ok(Delivery::Common(m))
            },
            OutboundChannel::RequestWise { id, close } => {
                match self.find_route(&id) {
                    None => Err(SessionError::ChannelClosed(Some(id))),
                    Some(i) => {
                        let (rid, mut rw) = self.request_router.remove(i);
                        proof {
                            assert(route_view((rid, rw)) == s.routes[i as int]);
                        }
                        let m = rw.tx.record(message);
                        if close {
                            proof {
                                assert(self@.routes =~= s.routes.remove(i as int));
                                assert(self.route_senders() =~= senders.remove(i as int));
                            }
                            Ok(Delivery::Closed { id, message: m, tx: rw.tx.into_tx() })
                        } else {
                            self.request_router.insert(i, (rid, rw));
                            proof {
                                assert(self.route_senders() =~= senders);
                                assert(self@.routes =~= s.routes.update(
                                    i as int,
                                    RouteView { id: s.routes[i as int].id, progress_token: s.routes[i as int].progress_token, cache: rw.tx@ },
                                ));
                            }
                            Ok(Delivery::Request { id, message: m })
                        }
                    },
                }
            },
        }
    }

    /// Reconnects a stream after the event with the given id, on a new
    /// sender, and returns the kept events to send again.
    pub fn resume(&mut self, last_event_id: &EventId, tx: Tx) -> (r: Result<Vec<ServerSessionMessage>, SessionError>)
        requires
            session_wf(old(self)@),
        ensures
            session_wf(final(self)@),
            final(self)@ == old(self)@,
            match last_event_id@.request_id {
                Some(id) => {
                    let i = route_index(old(self)@.routes, id);
                    &&& final(self).common_sender() == old(self).common_sender()
                    &&& if i < 0 {
                        &&& r matches Err(e) && e@ == SessionErrorView::ChannelClosed(Some(id))
                        &&& final(self).route_senders() == old(self).route_senders()
                    } else {
                        &&& final(self).route_senders() == old(self).route_senders().update(i, tx)
                        &&& match cache_replay(old(self)@.routes[i].cache, last_event_id@.index) {
                            Some(ms) => r matches Ok(v) && v@.map_values(|m: ServerSessionMessage| m@) == ms,
                            None => r matches Err(e) && e@ == SessionErrorView::InvalidEventId,
                        }
                    }
                },
                None => {
                    &&& final(self).common_sender() == tx
                    &&& final(self).route_senders() == old(self).route_senders()
                    &&& match cache_replay(old(self)@.common, last_event_id@.index) {
                        Some(ms) => r matches Ok(v) && v@.map_values(|m: ServerSessionMessage| m@) == ms,
                        None => r matches Err(e) && e@ == SessionErrorView::InvalidEventId,
                    }
                },
            },
    {
        let ghost s = self@;
        let ghost senders = self.route_senders();
        match last_event_id.request_id() {
            Some(request_id) => {
                match self.find_route(request_id) {
                    None => Err(SessionError::ChannelClosed(Some(request_id.copied()))),
                    Some(i) => {
                        let (rid, mut rw) = self.request_router.remove(i);
                        proof {
                            assert(route_view((rid, rw)) == s.routes[i as int]);
                        }
                        rw.tx.set_tx(tx);
                        let result = rw.tx.replay_from(last_event_id.index());
                        self.request_router.insert(i, (rid, rw));
                        proof {
                            assert(self@.routes =~= s.routes);
                            assert(self.route_senders() =~= senders.update(i as int, tx));
                        }
                        result
                    },
                }
            },
            None => {
                self.common.set_tx(tx);
                self.common.replay_from(last_event_id.index())
            },
        }
    }
}

/// Numbering one more event on a stream keeps it well formed.
proof fn lemma_record_keeps_wf(c: CacheView, message: ServerJsonRpcMessage)
    requires
        cache_wf(c),
        next_event_index(c) <= usize::MAX,
    ensures
        cache_wf(cache_record(c, message).0),
        cache_record(c, message).0.request_id == c.request_id,
        cache_record(c, message).0.capacity == c.capacity,
{
    let (c2, m) = cache_record(c, message);
    let kept = if c.messages.len() >= c.capacity && c.messages.len() > 0 {
        c.messages.drop_first()
    } else {
        c.messages
    };
    assert(c2.messages == kept.push(m));
    if c.messages.len() > 0 {
        assert(c.messages.last() == c.messages[c.messages.len() - 1]);
        assert(next_event_index(c) == c.messages[0].event_id.index + c.messages.len());
    }
    assert forall|i: int| #![trigger c2.messages[i]] 0 <= i < c2.messages.len() implies {
        &&& c2.messages[i].event_id.index == c2.messages[0].event_id.index + i
        &&& c2.messages[i].event_id.request_id == c2.request_id
    } by {
        if c.messages.len() >= c.capacity && c.messages.len() > 0 {
            if i < kept.len() {
                assert(c2.messages[i] == c.messages[i + 1]);
            }
            if kept.len() > 0 {
                assert(c2.messages[0] == c.messages[1]);
            }
        } else {
            if i < kept.len() {
                assert(c2.messages[i] == c.messages[i]);
            }
            if kept.len() > 0 {
                assert(c2.messages[0] == c.messages[0]);
            }
        }
    }
    assert(c2.messages.last() == m);
}

/// Handling a message keeps a session well formed when the stream it goes
/// to can number one more event.
proof fn lemma_handle_keeps_wf(s: SessionView, message: ServerJsonRpcMessage)
    requires
        session_wf(s),
        can_number(s, message),
    ensures
        handle_spec(s, message) matches Ok((s2, _)) ==> session_wf(s2),
{
    match outbound(s.routes, message) {
        OutboundView::Common => {
            lemma_record_keeps_wf(s.common, message);
        },
        OutboundView::RequestWise { id, close } => {
            let i = route_index(s.routes, id);
            lemma_route_index_bounds(s.routes, id, 0);
            if i >= 0 {
                lemma_record_keeps_wf(s.routes[i].cache, message);
                let (c2, m) = cache_record(s.routes[i].cache, message);
                if close {
                    let r2 = s.routes.remove(i);
                    assert forall|a: int, b: int| 0 <= a < b < r2.len() implies r2[a].id != r2[b].id by {
                        let a1 = if a < i { a } else { a + 1 };
                        let b1 = if b < i { b } else { b + 1 };
                        assert(r2[a] == s.routes[a1]);
                        assert(r2[b] == s.routes[b1]);
                    }
                    assert forall|j: int| #![trigger r2[j]] 0 <= j < r2.len() implies {
                        &&& cache_wf(r2[j].cache)
                        &&& r2[j].cache.request_id == Some(r2[j].id)
                    } by {
                        let j1 = if j < i { j } else { j + 1 };
                        assert(r2[j] == s.routes[j1]);
                    }
                } else {
                    let r2 = s.routes.update(i, RouteView { id: s.routes[i].id, progress_token: s.routes[i].progress_token, cache: c2 });
                    assert forall|a: int, b: int| 0 <= a < b < r2.len() implies r2[a].id != r2[b].id by {
                        assert(r2[a].id == s.routes[a].id);
                        assert(r2[b].id == s.routes[b].id);
                    }
                    assert forall|j: int| #![trigger r2[j]] 0 <= j < r2.len() implies {
                        &&& cache_wf(r2[j].cache)
                        &&& r2[j].cache.request_id == Some(r2[j].id)
                    } by {
                        if j != i {
                            assert(r2[j] == s.routes[j]);
                        }
                    }
                }
            }
        },
    }
}

/// Once a stream is open for a request, the service's response to that
/// request is delivered on that stream and the stream stays open; an error
/// response is delivered on it too and closes it.
pub proof fn lemma_response_reaches_its_request(s: SessionView, id: RequestId, message: ServerJsonRpcMessage)
    requires
        session_wf(s),
        route_index(s.routes, id@) >= 0,
        (message matches JsonRpcMessage::Response(resp) && resp.id@ == id@)
            || (message matches JsonRpcMessage::Error(err) && err.id@ == id@),
    ensures
        handle_spec(s, message) matches Ok((s2, DeliveryView::Request { id: to, message: m, closed })) && to == id@
            && m.message == message && m.event_id.request_id == Some(id@) && closed == (message is Error) && (closed
            ==> route_index(s2.routes, id@) < 0) && (!closed ==> route_index(s2.routes, id@) == route_index(
            s.routes,
            id@,
        )),
{
    let i = route_index(s.routes, id@);
    lemma_route_index_bounds(s.routes, id@, 0);
    let (c2, m) = cache_record(s.routes[i].cache, message);
    if message is Error {
        let r2 = s.routes.remove(i);
        lemma_route_index_bounds(r2, id@, 0);
        let j = route_index(r2, id@);
        if j >= 0 {
            if j < i {
                assert(r2[j] == s.routes[j]);
            } else {
                assert(r2[j] == s.routes[j + 1]);
            }
        }
    } else {
        let r2 = s.routes.update(i, RouteView { id: s.routes[i].id, progress_token: s.routes[i].progress_token, cache: c2 });
        assert forall|j: int| 0 <= j < i implies r2[j].id != id@ by {
            assert(r2[j] == s.routes[j]);
        }
        lemma_route_index_found(r2, id@, 0, i);
    }
}

/// A progress notification whose token a request registered is delivered on
/// the stream of that request.
pub proof fn lemma_progress_reaches_its_request(s: SessionView, message: ServerJsonRpcMessage, k: int)
    requires
        session_wf(s),
        0 <= k < s.routes.len(),
        message matches JsonRpcMessage::Notification(n) && n.notification matches ServerNotification::ProgressNotification(p)
            && s.routes[k].progress_token == Some(p.params.progress_token@),
        forall|j: int| 0 <= j < s.routes.len() && j != k ==> s.routes[j].progress_token != s.routes[k].progress_token,
    ensures
        handle_spec(s, message) matches Ok((s2, DeliveryView::Request { id, closed, .. })) && id == s.routes[k].id && !closed,
{
    if let JsonRpcMessage::Notification(n) = message {
        if let ServerNotification::ProgressNotification(p) = n.notification {
            let token = p.params.progress_token@;
            lemma_token_index_found(s.routes, token, 0, k);
            lemma_route_index_found(s.routes, s.routes[k].id, 0, k);
        }
    }
}

/// What the service sends on its own goes on the common stream, whatever
/// request streams are open: a request of the server, and any notification
/// but a cancellation or a progress notification, is delivered on the
/// common stream as its next event, and no request stream changes.
pub proof fn lemma_server_initiated_messages_go_to_common(s: SessionView, message: ServerJsonRpcMessage)
    requires
        session_wf(s),
        (message is Request) || (message matches JsonRpcMessage::Notification(n) && !(n.notification is ProgressNotification)
            && !(n.notification is CancelledNotification)),
    ensures
        handle_spec(s, message) matches Ok((s2, DeliveryView::Common(ev))) && s2.routes == s.routes && s2.id == s.id
            && ev.message == message && ev.event_id.request_id is None && ev.event_id.index == next_event_index(
            s.common,
        ),
{
}

/// A cancellation of a request that has an open stream is delivered on
/// that stream, which stays open; the cancellation of a request without a
/// stream is refused as a closed channel and changes nothing.
pub proof fn lemma_cancellation_reaches_its_request(s: SessionView, message: ServerJsonRpcMessage)
    requires
        session_wf(s),
        message matches JsonRpcMessage::Notification(n) && n.notification is CancelledNotification,
    ensures
        message matches JsonRpcMessage::Notification(n) && n.notification matches ServerNotification::CancelledNotification(c)
            && ({
            let id = c.params.request_id@;
            &&& route_index(s.routes, id) >= 0 ==> (handle_spec(s, message) matches Ok((s2, DeliveryView::Request {
                id: to,
                message: m,
                closed,
            })) && to == id && m.message == message && !closed && route_index(s2.routes, id) == route_index(s.routes, id)
                && s2.common == s.common)
            &&& route_index(s.routes, id) < 0 ==> handle_spec(s, message) == Err::<(SessionView, DeliveryView), SessionErrorView>(
                SessionErrorView::ChannelClosed(Some(id)),
            )
        }),
{
    if let JsonRpcMessage::Notification(n) = message {
        if let ServerNotification::CancelledNotification(c) = n.notification {
            let id = c.params.request_id@;
            let i = route_index(s.routes, id);
            lemma_route_index_bounds(s.routes, id, 0);
            if i >= 0 {
                let (c2, m) = cache_record(s.routes[i].cache, message);
                let r2 = s.routes.update(i, RouteView { id: s.routes[i].id, progress_token: s.routes[i].progress_token, cache: c2 });
                assert forall|j: int| 0 <= j < i implies r2[j].id != id by {
                    assert(r2[j] == s.routes[j]);
                }
                lemma_route_index_found(r2, id, 0, i);
            }
        }
    }
}

/// A progress notification whose token no open request registered goes on
/// the common stream, and no request stream changes.
pub proof fn lemma_unclaimed_progress_goes_to_common(s: SessionView, message: ServerJsonRpcMessage)
    requires
        session_wf(s),
        message matches JsonRpcMessage::Notification(n) && n.notification matches ServerNotification::ProgressNotification(p)
            && forall|j: int| 0 <= j < s.routes.len() ==> s.routes[j].progress_token != Some(p.params.progress_token@),
    ensures
        handle_spec(s, message) matches Ok((s2, DeliveryView::Common(ev))) && s2.routes == s.routes && ev.message
            == message,
{
    if let JsonRpcMessage::Notification(n) = message {
        if let ServerNotification::ProgressNotification(p) = n.notification {
            lemma_token_index_bounds(s.routes, p.params.progress_token@, 0);
        }
    }
}

/// Events on a stream are numbered consecutively: each event gets the index
/// after the last one sent.
pub proof fn lemma_events_numbered_consecutively(c: CacheView, m1: ServerJsonRpcMessage, m2: ServerJsonRpcMessage)
    requires
        cache_wf(c),
        next_event_index(c) + 1 <= usize::MAX,
    ensures
        ({
            let (c1, e1) = cache_record(c, m1);
            let (c2, e2) = cache_record(c1, m2);
            e2.event_id.index == e1.event_id.index + 1 && e1.event_id.index == next_event_index(c)
                && e1.event_id.request_id == c.request_id && e2.event_id.request_id == c.request_id
        }),
{
}

/// A client that resumes after an event still kept on its stream gets
/// exactly the kept events after that one, in order; one that resumes after
/// the event just before the oldest kept one gets all of them.
pub proof fn lemma_resume_replays_kept_events(c: CacheView, k: int)
    requires
        cache_wf(c),
        0 <= k < c.messages.len() <= usize::MAX,
    ensures
        cache_replay(c, c.messages[k].event_id.index) == Some(c.messages.skip(k + 1)),
        c.messages[0].event_id.index > 0 ==> cache_replay(c, (c.messages[0].event_id.index - 1) as nat) == Some(
            c.messages,
        ),
{
    assert(c.messages.skip(0) =~= c.messages);
}

} // verus!
