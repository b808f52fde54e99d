//! The client side of the streamable HTTP transport.
//!
//! A client posts each of its messages to the server. The server answers a
//! post with nothing (accepted), with one JSON message, or with a stream of
//! server-sent events; it may also keep a common event stream open. The
//! first exchange opens a session whose id every later post carries, and
//! the session is deleted when the client closes. An event stream that
//! breaks is reopened after a delay, resuming after the last event id seen,
//! up to a number of attempts.
use crate::http_header::{EVENT_STREAM_MIME_TYPE, JSON_MIME_TYPE, bytes_start_with, starts_with_bytes};
use crate::schema::{ClientJsonRpcMessage, ServerJsonRpcMessage};
use std::time::Duration;
use vstd::string::StringSliceAdditionalSpecFns;
use vstd::prelude::*;

verus! {

/// A URL of the `url` crate.
#[verifier::external_type_specification]
#[verifier::external_body]
pub struct ExUrl(url::Url);

/// `Clone` of a URL, which is derived: the copy is the same URL.
pub assume_specification[ <url::Url as Clone>::clone ](u: &url::Url) -> (r: url::Url)
    ensures
        r == *u,
;

/// Why a text is not a URL, from the `url` crate.
#[verifier::external_type_specification]
#[verifier::external_body]
pub struct ExUrlParseError(url::ParseError);

/// An error of an event stream, from the `sse-stream` crate.
#[verifier::external_type_specification]
#[verifier::external_body]
pub struct ExSseError(sse_stream::Error);

/// A header value of the `http` crate.
#[verifier::external_type_specification]
#[verifier::external_body]
pub struct ExHeaderValue(http::HeaderValue);

/// Why a task of `tokio` did not finish.
#[verifier::external_type_specification]
#[verifier::external_body]
pub struct ExJoinError(tokio::task::JoinError);

/// The duration named by a number of milliseconds.
pub uninterp spec fn millis_duration(ms: u64) -> Duration;

/// The length of a duration in nanoseconds, as `Duration::as_nanos` gives
/// it.
pub uninterp spec fn duration_nanos(d: Duration) -> u128;

/// `Duration::from_millis`: the duration of `ms` milliseconds, which is
/// `ms` million nanoseconds long.
#[verifier::external_body]
fn duration_from_millis(ms: u64) -> (r: Duration)
    ensures
        r == millis_duration(ms),
        duration_nanos(r) == ms as int * 1_000_000,
{
    Duration::from_millis(ms)
}

/// `Ord::min` of two durations: durations are ordered by their length, and
/// of two equal ones `min` gives the first (equal lengths make equal
/// durations).
#[verifier::external_body]
fn duration_min(a: Duration, b: Duration) -> (r: Duration)
    ensures
        r == (if duration_nanos(b) < duration_nanos(a) { b } else { a }),
{
    a.min(b)
}

/// Errors of the streamable HTTP client transport; `E` is the error of the
/// HTTP client.
#[derive(Debug)]
pub enum StreamableHttpError<E> {
    Sse(sse_stream::Error),
    Io(std::io::Error),
    Client(E),
    UnexpectedEndOfStream,
    UnexpectedClientMessage(ClientJsonRpcMessage),
    UnexpectedServerResponse(String),
    Url(url::ParseError),
    UnexpectedContentType(Option<http::HeaderValue>),
    SeverDoesNotSupportSse,
    SeverDoesNotSupportDeleteSession,
    TokioJoinError(tokio::task::JoinError),
    Deserialize(serde_json::Error),
    TransportChannelClosed,
}

/// How often and after how long an event stream is reopened: at most
/// `max_times` attempts in a row (without limit when none), the first after
/// `min_duration`.
#[derive(Debug, Clone, Copy, PartialEq, Eq, Hash)]
pub struct SseTransportRetryConfig {
    pub max_times: Option<usize>,
    pub min_duration: Duration,
}

/// The delay before reopening a stream unless the server asks for less:
/// one second.
pub fn default_min_duration() -> (r: Duration)
    ensures
        r == millis_duration(1000),
{
    duration_from_millis(1000)
}

impl Default for SseTransportRetryConfig {
    fn default() -> (r: SseTransportRetryConfig)
        ensures
            r.max_times is None,
            r.min_duration == millis_duration(1000),
    {
        SseTransportRetryConfig { max_times: None, min_duration: default_min_duration() }
    }
}

/// How often and after how long a request is retried.
pub struct RetryConfig {
    pub max_times: Option<usize>,
    pub min_duration: Duration,
}

/// Where the transport connects, how it reopens streams, and how many
/// messages its channels hold.
#[derive(Debug, Clone)]
pub struct SseTransportConfig {
    pub url: url::Url,
    pub retry_config: SseTransportRetryConfig,
    pub channel_buffer_capacity: usize,
}

/// One JSON message that answers a post, and the session id the server
/// sent with it, if any.
pub struct StreamableHttpPostJsonResponse {
    pub message: ServerJsonRpcMessage,
    pub session_id: Option<String>,
}

/// What a post comes to: accepted with no content, one JSON message, or a
/// stream of events `S`.
pub enum StreamableHttpPostResponse<S> {
    Accepted,
    Json(StreamableHttpPostJsonResponse),
    Sse(S),
}

impl<S> StreamableHttpPostResponse<S> {
    /// The JSON answer; any other answer is the unexpected response
    /// `expected json`.
    pub fn expect_json<E>(self) -> (r: Result<StreamableHttpPostJsonResponse, StreamableHttpError<E>>)
        ensures
            match self {
                StreamableHttpPostResponse::Json(m) => r matches Ok(v) && v == m,
                _ => r matches Err(StreamableHttpError::UnexpectedServerResponse(t)) && t@ == "expected json"@,
            },
    {
        match self {
            StreamableHttpPostResponse::Json(message) => Ok(message),
            _ => Err(StreamableHttpError::UnexpectedServerResponse("expected json".to_owned())),
        }
    }

    /// Nothing, for an accepted post; any other answer is the unexpected
    /// response `expected accepted`.
    pub fn expect_accepted<E>(self) -> (r: Result<(), StreamableHttpError<E>>)
        ensures
            match self {
                StreamableHttpPostResponse::Accepted => r matches Ok(()),
                _ => r matches Err(StreamableHttpError::UnexpectedServerResponse(t)) && t@ == "expected accepted"@,
            },
    {
        match self {
            StreamableHttpPostResponse::Accepted => Ok(()),
            _ => Err(StreamableHttpError::UnexpectedServerResponse("expected accepted".to_owned())),
        }
    }
}

/// What the answer to a post is, by its status and content type.
#[derive(Debug, Clone, Copy, PartialEq, Eq)]
pub enum PostResponseKind {
    /// Status 202: accepted, no content.
    Accepted,
    /// An event stream.
    EventStream,
    /// One JSON message.
    Json,
    /// Anything else, which is an error.
    UnexpectedContentType,
}

/// What the answer to a post is: accepted on status 202, else by the
/// beginning of its content type.
pub open spec fn spec_classify_post_response(status: u16, content_type: Option<Seq<u8>>) -> PostResponseKind {
    if status == 202 {
        PostResponseKind::Accepted
    } else {
        match content_type {
            Some(ct) => if bytes_start_with(ct, EVENT_STREAM_MIME_TYPE.spec_bytes()) {
                PostResponseKind::EventStream
            } else if bytes_start_with(ct, JSON_MIME_TYPE.spec_bytes()) {
                PostResponseKind::Json
            } else {
                PostResponseKind::UnexpectedContentType
            },
            None => PostResponseKind::UnexpectedContentType,
        }
    }
}

/// What the answer to a post is: accepted on status 202, else by the
/// beginning of its content type.
pub fn classify_post_response(status: u16, content_type: Option<&[u8]>) -> (r: PostResponseKind)
    ensures
        r == spec_classify_post_response(status, match content_type { Some(c) => Some(c@), None => None }),
{
    if status == 202 {
        return PostResponseKind::Accepted;
    }
    match content_type {
        Some(ct) => {
            if starts_with_bytes(ct, EVENT_STREAM_MIME_TYPE.as_bytes()) {
                PostResponseKind::EventStream
            } else if starts_with_bytes(ct, JSON_MIME_TYPE.as_bytes()) {
                PostResponseKind::Json
            } else {
                PostResponseKind::UnexpectedContentType
            }
        },
        None => PostResponseKind::UnexpectedContentType,
    }
}

/// A status that the HTTP client takes as an error: a client or server error.
pub open spec fn is_error_status(status: u16) -> bool {
    400 <= status <= 599
}

/// What the answer to opening an event stream is.
#[derive(Debug, Clone, Copy, PartialEq, Eq)]
pub enum GetStreamKind {
    /// An error status.
    ErrorStatus,
    /// An event stream.
    EventStream,
    /// Any other content type, or none.
    UnexpectedContentType,
}

/// What the answer to opening an event stream is: an error status first,
/// then an event stream only by its content type.
pub open spec fn spec_classify_get_stream_response(status: u16, content_type: Option<Seq<u8>>) -> GetStreamKind {
    if is_error_status(status) {
        GetStreamKind::ErrorStatus
    } else {
        match content_type {
            Some(ct) => if bytes_start_with(ct, EVENT_STREAM_MIME_TYPE.spec_bytes()) {
                GetStreamKind::EventStream
            } else {
                GetStreamKind::UnexpectedContentType
            },
            None => GetStreamKind::UnexpectedContentType,
        }
    }
}

/// What the answer to opening an event stream is: an error status first,
/// then an event stream only by its content type.
pub fn classify_get_stream_response(status: u16, content_type: Option<&[u8]>) -> (r: GetStreamKind)
    ensures
        r == spec_classify_get_stream_response(status, match content_type { Some(c) => Some(c@), None => None }),
{
    if 400 <= status && status <= 599 {
        return GetStreamKind::ErrorStatus;
    }
    match content_type {
        Some(ct) => if starts_with_bytes(ct, EVENT_STREAM_MIME_TYPE.as_bytes()) {
            GetStreamKind::EventStream
        } else {
            GetStreamKind::UnexpectedContentType
        },
        None => GetStreamKind::UnexpectedContentType,
    }
}

/// What the answer to deleting a session is.
#[derive(Debug, Clone, Copy, PartialEq, Eq)]
pub enum DeleteSessionKind {
    /// Status 405: the server does not delete sessions, which is fine.
    NotSupported,
    /// An error status.
    ErrorStatus,
    /// The session is deleted.
    Deleted,
}

/// What the answer to deleting a session is: 405 first, then an error
/// status.
pub fn classify_delete_session_response(status: u16) -> (r: DeleteSessionKind)
    ensures
        status == 405 ==> r == DeleteSessionKind::NotSupported,
        status != 405 && is_error_status(status) ==> r == DeleteSessionKind::ErrorStatus,
        status != 405 && !is_error_status(status) ==> r == DeleteSessionKind::Deleted,
{
    if status == 405 {
        DeleteSessionKind::NotSupported
    } else if 400 <= status && status <= 599 {
        DeleteSessionKind::ErrorStatus
    } else {
        DeleteSessionKind::Deleted
    }
}

/// One event of an event stream, as the transport reads it: its data, its
/// id and the reconnection delay it asks for, each if present.
pub struct SseEvent {
    pub data: Option<String>,
    pub id: Option<String>,
    pub retry: Option<u64>,
}

/// What happens to an event stream that the transport reads.
pub enum SseStreamEvent<E> {
    /// The next event of the stream.
    Next(SseEvent),
    /// The data of the last event could not be handed on: the transport is
    /// gone.
    DeliveryFailed,
    /// The stream broke.
    StreamError,
    /// Reopening the stream failed.
    ReconnectFailed(StreamableHttpError<E>),
    /// The stream is open again.
    Reconnected,
    /// The stream ended.
    Ended,
    /// The transport asked the stream to stop.
    Cancelled,
}

/// What the reader of an event stream does next.
pub enum SseStreamAction<E> {
    /// Hand on the data of the event as a message, then read on.
    Deliver(String),
    /// Read on.
    Continue,
    /// Wait this long, then reopen the stream after this event id.
    Reconnect { delay: Duration, last_event_id: Option<String> },
    /// Stop, with this outcome.
    Finish(Result<(), StreamableHttpError<E>>),
}

/// The most attempts in a row to reopen a stream: the configured number,
/// or the largest `usize` when none is configured.
pub open spec fn retry_limit(max_times: Option<usize>) -> nat {
    match max_times {
        Some(m) => m as nat,
        None => usize::MAX as nat,
    }
}

/// The characters of an optional string.
pub open spec fn opt_text(o: Option<String>) -> Option<Seq<char>> {
    match o {
        Some(s) => Some(s@),
        None => None,
    }
}

/// The state of the reader of an event stream.
pub struct SseStreamState {
    retry_interval: Duration,
    last_event_id: Option<String>,
    retry_times: usize,
    max_times: Option<usize>,
}

/// The state of the reader of an event stream, as values.
pub struct SseStreamView {
    pub retry_interval: Duration,
    pub last_event_id: Option<Seq<char>>,
    pub retry_times: nat,
    pub max_times: Option<usize>,
}

impl View for SseStreamState {
    type V = SseStreamView;

    closed spec fn view(&self) -> SseStreamView {
        SseStreamView {
            retry_interval: self.retry_interval,
            last_event_id: opt_text(self.last_event_id),
            retry_times: self.retry_times as nat,
            max_times: self.max_times,
        }
    }
}

impl SseStreamState {
    /// A reader configured by `config`, which has seen no event id yet.
    pub fn new(config: &SseTransportRetryConfig) -> (r: SseStreamState)
        ensures
            r@.retry_interval == config.min_duration,
            r@.last_event_id is None,
            r@.retry_times == 0,
            r@.max_times == config.max_times,
    {
        SseStreamState { retry_interval: config.min_duration, last_event_id: None, retry_times: 0, max_times: config.max_times }
    }

    /// Reads one event: an event's data is handed on, its id becomes the one
    /// to resume after, and the delay before reopening becomes the smaller
    /// of the current one and the one it asks for. A broken stream is
    /// reopened after the delay; each failed attempt counts, and at the
    /// configured number in a row the reader gives up with that attempt's
    /// error. An ended or cancelled stream, or a transport that is gone,
    /// stops the reader without error.
    pub fn step<E>(&mut self, event: SseStreamEvent<E>) -> (r: SseStreamAction<E>)
        requires
            old(self)@.retry_times < usize::MAX,
        ensures
            final(self)@.max_times == old(self)@.max_times,
            final(self)@.retry_times < usize::MAX || r is Finish,
            duration_nanos(final(self)@.retry_interval) <= duration_nanos(old(self)@.retry_interval),
            match event {
                SseStreamEvent::Next(ev) => {
                    &&& match ev.data {
                        Some(d) => r matches SseStreamAction::Deliver(d2) && d2 == d,
                        None => r is Continue,
                    }
                    &&& final(self)@.last_event_id == match ev.id {
                        Some(id) => Some(id@),
                        None => old(self)@.last_event_id,
                    }
                    &&& match ev.retry {
                        Some(ms) => final(self)@.retry_interval == (if (ms as int) * 1_000_000 < duration_nanos(
                            old(self)@.retry_interval,
                        ) {
                            millis_duration(ms)
                        } else {
                            old(self)@.retry_interval
                        }),
                        None => final(self)@.retry_interval == old(self)@.retry_interval,
                    }
                    &&& final(self)@.retry_times == old(self)@.retry_times
                },
                SseStreamEvent::StreamError => {
                    &&& r matches SseStreamAction::Reconnect { delay, last_event_id }
                        && delay == old(self)@.retry_interval
                        && opt_text(last_event_id) == old(self)@.last_event_id
                    &&& final(self)@ == (SseStreamView { retry_times: 0, ..old(self)@ })
                },
                SseStreamEvent::ReconnectFailed(e) => {
                    &&& final(self)@ == (SseStreamView { retry_times: old(self)@.retry_times + 1, ..old(self)@ })
                    &&& if old(self)@.retry_times + 1 >= retry_limit(old(self)@.max_times) {
                        r == SseStreamAction::Finish(Err(e))
                    } else {
                        r matches SseStreamAction::Reconnect { delay, last_event_id }
                            && delay == old(self)@.retry_interval
                            && opt_text(last_event_id) == old(self)@.last_event_id
                    }
                },
                SseStreamEvent::Reconnected => r is Continue && final(self)@ == old(self)@,
                _ => r == SseStreamAction::<E>::Finish(Ok(())) && final(self)@ == old(self)@,
            },
    {
        match event {
            SseStreamEvent::Next(ev) => {
                match ev.retry {
                    Some(ms) => {
                        self.retry_interval = duration_min(self.retry_interval, duration_from_millis(ms));
                    },
                    None => {},
                }
                match ev.id {
                    Some(id) => {
                        self.last_event_id = Some(id);
                    },
                    None => {},
                }
                match ev.data {
                    Some(d) => SseStreamAction::Deliver(d),
                    None => SseStreamAction::Continue,
                }
            },
            SseStreamEvent::StreamError => {
                self.retry_times = 0;
                SseStreamAction::Reconnect { delay: self.retry_interval, last_event_id: self.last_event_id.clone() }
            },
            SseStreamEvent::ReconnectFailed(e) => {
                self.retry_times = self.retry_times + 1;
                let limit: usize = match self.max_times {
                    Some(m) => m,
                    None => usize::MAX,
                };
                if self.retry_times >= limit {
                    SseStreamAction::Finish(Err(e))
                } else {
                    SseStreamAction::Reconnect { delay: self.retry_interval, last_event_id: self.last_event_id.clone() }
                }
            },
            SseStreamEvent::Reconnected => SseStreamAction::Continue,
            _ => SseStreamAction::Finish(Ok(())),
        }
    }
}

/// Where the worker of a client transport stands.
pub enum WorkerPhase {
    /// Waiting for the initialize request of the client.
    AwaitInitializeRequest,
    /// The initialize request is posted; waiting for the answer.
    AwaitInitializeResponse,
    /// Handing the answer to the initialize request to the client.
    ForwardInitializeResponse { session_id: String },
    /// Waiting for the initialized notification of the client.
    AwaitInitializedNotification { session_id: String },
    /// The initialized notification is posted; waiting for the answer.
    AwaitInitializedAccepted { session_id: String },
    /// Opening the common event stream.
    AwaitCommonStream { session_id: String },
    /// Running: waiting for messages of the client and of event streams.
    Running { session_id: String },
    /// A message of the client is posted; waiting for the answer.
    Posting { session_id: String },
    /// Handing a message of the server to the client; if the client is
    /// gone, `fatal` says whether that is an error.
    Forwarding { session_id: String, fatal: bool },
    /// Closing: streams stop and the session is deleted.
    Closing { session_id: String },
    /// Done.
    Finished,
}

/// What happens to the worker of a client transport.
pub enum WorkerEvent<E, S> {
    /// The next message of the client, or none when the client is gone.
    FromClient(Option<ClientJsonRpcMessage>),
    /// The answer to the last post.
    Posted(Result<StreamableHttpPostResponse<S>, StreamableHttpError<E>>),
    /// The outcome of opening the common event stream.
    CommonStream(Result<S, StreamableHttpError<E>>),
    /// Whether the client took the message handed to it.
    Forwarded(bool),
    /// The next message of an event stream, or none when no stream can send
    /// any more.
    FromStream(Option<ServerJsonRpcMessage>),
    /// An event stream stopped, with this outcome.
    StreamFinished(Result<(), StreamableHttpError<E>>),
    /// The outcome of deleting the session.
    SessionDeleted(Result<(), StreamableHttpError<E>>),
}

/// What the worker of a client transport does next.
pub enum WorkerAction<E, S> {
    /// Wait for the next message of the client.
    ReceiveFromClient,
    /// Post this message, with this session id.
    Post { message: ClientJsonRpcMessage, session_id: Option<String> },
    /// Hand this message of the server to the client.
    Forward(ServerJsonRpcMessage),
    /// Open the common event stream.
    OpenCommonStream,
    /// Read this event stream beside the others.
    Spawn(S),
    /// Wait for the next message of the client or of a stream.
    Wait,
    /// Stop all streams, wait for them, and delete this session.
    Shutdown { session: String },
    /// Stop, with this outcome.
    Finish(Result<(), StreamableHttpError<E>>),
}

/// Whether the worker can take this event where it stands: each phase waits
/// for the outcome of what it started.
pub open spec fn worker_expects<E, S>(phase: WorkerPhase, event: WorkerEvent<E, S>) -> bool {
    match phase {
        WorkerPhase::AwaitInitializeRequest => event is FromClient,
        WorkerPhase::AwaitInitializeResponse => event is Posted,
        WorkerPhase::ForwardInitializeResponse { .. } => event is Forwarded,
        WorkerPhase::AwaitInitializedNotification { .. } => event is FromClient,
        WorkerPhase::AwaitInitializedAccepted { .. } => event is Posted,
        WorkerPhase::AwaitCommonStream { .. } => event is CommonStream,
        WorkerPhase::Running { .. } => event is FromClient || event is FromStream || event is StreamFinished,
        WorkerPhase::Posting { .. } => event is Posted,
        WorkerPhase::Forwarding { .. } => event is Forwarded,
        WorkerPhase::Closing { .. } => event is SessionDeleted,
        WorkerPhase::Finished => false,
    }
}

/// The session id of a phase, once the server gave one.
pub open spec fn phase_session(phase: WorkerPhase) -> Option<Seq<char>> {
    match phase {
        WorkerPhase::ForwardInitializeResponse { session_id } => Some(session_id@),
        WorkerPhase::AwaitInitializedNotification { session_id } => Some(session_id@),
        WorkerPhase::AwaitInitializedAccepted { session_id } => Some(session_id@),
        WorkerPhase::AwaitCommonStream { session_id } => Some(session_id@),
        WorkerPhase::Running { session_id } => Some(session_id@),
        WorkerPhase::Posting { session_id } => Some(session_id@),
        WorkerPhase::Forwarding { session_id, .. } => Some(session_id@),
        WorkerPhase::Closing { session_id } => Some(session_id@),
        _ => None,
    }
}

/// The error of an answer that should have been JSON or accepted.
pub open spec fn is_unexpected_response<E>(e: StreamableHttpError<E>, text: Seq<char>) -> bool {
    e matches StreamableHttpError::UnexpectedServerResponse(t) && t@ == text
}

/// One step of the worker: the phase it goes to and what it does, given
/// the phase it is in and the event.
pub open spec fn worker_next<E, S>(
    phase: WorkerPhase,
    event: WorkerEvent<E, S>,
    next: WorkerPhase,
    action: WorkerAction<E, S>,
) -> bool {
    match (phase, event) {
        (WorkerPhase::AwaitInitializeRequest, WorkerEvent::FromClient(Some(m))) => next == WorkerPhase::AwaitInitializeResponse
            && action == (WorkerAction::<E, S>::Post { message: m, session_id: None }),
        (WorkerPhase::AwaitInitializeResponse, WorkerEvent::Posted(Ok(StreamableHttpPostResponse::Json(j)))) => match j.session_id {
            Some(sid) => next matches WorkerPhase::ForwardInitializeResponse { session_id } && session_id@ == sid@
                && action == WorkerAction::<E, S>::Forward(j.message),
            None => next is Finished && (action matches WorkerAction::Finish(Err(e)) && is_unexpected_response(e, "missing session id"@)),
        },
        (WorkerPhase::AwaitInitializeResponse, WorkerEvent::Posted(Ok(_))) => next is Finished
            && (action matches WorkerAction::Finish(Err(e)) && is_unexpected_response(e, "expected json"@)),
        (WorkerPhase::ForwardInitializeResponse { session_id }, WorkerEvent::Forwarded(true)) => next
            == (WorkerPhase::AwaitInitializedNotification { session_id }) && action is ReceiveFromClient,
        (WorkerPhase::AwaitInitializedNotification { session_id }, WorkerEvent::FromClient(Some(m))) => next
            == (WorkerPhase::AwaitInitializedAccepted { session_id }) && (action matches WorkerAction::Post {
            message,
            session_id: Some(sid),
        } && message == m && sid@ == session_id@),
        (WorkerPhase::AwaitInitializedAccepted { session_id }, WorkerEvent::Posted(Ok(StreamableHttpPostResponse::Accepted))) => next
            == (WorkerPhase::AwaitCommonStream { session_id }) && action is OpenCommonStream,
        (WorkerPhase::AwaitInitializedAccepted { .. }, WorkerEvent::Posted(Ok(_))) => next is Finished && (action matches WorkerAction::Finish(
            Err(e),
        ) && is_unexpected_response(e, "expected accepted"@)),
        (WorkerPhase::AwaitCommonStream { session_id }, WorkerEvent::CommonStream(Ok(stream))) => next
            == (WorkerPhase::Running { session_id }) && action == WorkerAction::<E, S>::Spawn(stream),
        (WorkerPhase::AwaitCommonStream { session_id }, WorkerEvent::CommonStream(Err(StreamableHttpError::SeverDoesNotSupportSse))) => next
            == (WorkerPhase::Running { session_id }) && action is Wait,
        (WorkerPhase::AwaitCommonStream { .. }, WorkerEvent::CommonStream(Err(e))) => next is Finished && action
            == WorkerAction::<E, S>::Finish(Err(e)),
        (WorkerPhase::Running { session_id }, WorkerEvent::FromClient(Some(m))) => next == (WorkerPhase::Posting {
            session_id,
        }) && (action matches WorkerAction::Post { message, session_id: Some(sid) } && message == m && sid@
            == session_id@),
        (WorkerPhase::Running { session_id }, WorkerEvent::FromClient(None)) => next == (WorkerPhase::Closing {
            session_id,
        }) && (action matches WorkerAction::Shutdown { session: sid } && sid@ == session_id@),
        (WorkerPhase::Running { session_id }, WorkerEvent::FromStream(Some(m))) => next == (WorkerPhase::Forwarding {
            session_id,
            fatal: false,
        }) && action == WorkerAction::<E, S>::Forward(m),
        (WorkerPhase::Running { session_id }, WorkerEvent::FromStream(None)) => next == (WorkerPhase::Closing {
            session_id,
        }) && (action matches WorkerAction::Shutdown { session: sid } && sid@ == session_id@),
        (WorkerPhase::Running { session_id }, WorkerEvent::StreamFinished(_)) => next == (WorkerPhase::Running {
            session_id,
        }) && action is Wait,
        (WorkerPhase::Posting { session_id }, WorkerEvent::Posted(Ok(StreamableHttpPostResponse::Accepted))) => next
            == (WorkerPhase::Running { session_id }) && action is Wait,
        (WorkerPhase::Posting { session_id }, WorkerEvent::Posted(Ok(StreamableHttpPostResponse::Json(j)))) => next
            == (WorkerPhase::Forwarding { session_id, fatal: true }) && action == WorkerAction::<E, S>::Forward(j.message),
        (WorkerPhase::Posting { session_id }, WorkerEvent::Posted(Ok(StreamableHttpPostResponse::Sse(stream)))) => next
            == (WorkerPhase::Running { session_id }) && action == WorkerAction::<E, S>::Spawn(stream),
        (WorkerPhase::Forwarding { session_id, .. }, WorkerEvent::Forwarded(true)) => next == (WorkerPhase::Running {
            session_id,
        }) && action is Wait,
        (WorkerPhase::Forwarding { session_id, fatal }, WorkerEvent::Forwarded(false)) => if fatal {
            next is Finished && action == WorkerAction::<E, S>::Finish(Err(StreamableHttpError::UnexpectedEndOfStream))
        } else {
            next == (WorkerPhase::Closing { session_id }) && (action matches WorkerAction::Shutdown { session: sid }
                && sid@ == session_id@)
        },
        (WorkerPhase::Closing { .. }, WorkerEvent::SessionDeleted(Ok(()))) => next is Finished && action
            == WorkerAction::<E, S>::Finish(Ok(())),
        (WorkerPhase::Closing { .. }, WorkerEvent::SessionDeleted(Err(StreamableHttpError::SeverDoesNotSupportDeleteSession))) => next
            is Finished && action == WorkerAction::<E, S>::Finish(Ok(())),
        (WorkerPhase::Closing { .. }, WorkerEvent::SessionDeleted(Err(e))) => next is Finished && action
            == WorkerAction::<E, S>::Finish(Err(e)),
        (_, WorkerEvent::Posted(Err(e))) => next is Finished && action == WorkerAction::<E, S>::Finish(Err(e)),
        (_, WorkerEvent::FromClient(None)) => next is Finished && action == WorkerAction::<E, S>::Finish(
            Err(StreamableHttpError::UnexpectedEndOfStream),
        ),
        (_, WorkerEvent::Forwarded(false)) => next is Finished && action == WorkerAction::<E, S>::Finish(
            Err(StreamableHttpError::UnexpectedEndOfStream),
        ),
        _ => false,
    }
}

/// A copy of a session id.
fn copy_session_id(s: &String) -> (r: String)
    ensures
        r@ == s@,
{
    s.clone()
}

/// One step of the worker of a client transport: the phase it goes to and
/// what it does for an event it expects. The initialize request is posted
/// without a session; the server's JSON answer must carry the session id,
/// which every later post carries and which is deleted at the end. A post
/// that fails ends the worker with that error; a client that is gone ends
/// it without deleting the session until the exchange is done.
pub fn worker_step<E, S>(phase: WorkerPhase, event: WorkerEvent<E, S>) -> (r: (WorkerPhase, WorkerAction<E, S>))
    requires
        worker_expects(phase, event),
    ensures
        worker_next(phase, event, r.0, r.1),
{
    match phase {
        WorkerPhase::AwaitInitializeRequest => match event {
            WorkerEvent::FromClient(Some(m)) => (WorkerPhase::AwaitInitializeResponse, WorkerAction::Post { message: m, session_id: None }),
            _ => (WorkerPhase::Finished, WorkerAction::Finish(Err(StreamableHttpError::UnexpectedEndOfStream))),
        },
        WorkerPhase::AwaitInitializeResponse => match event {
            WorkerEvent::Posted(Ok(response)) => match response.expect_json() {
                Ok(j) => match j.session_id {
                    Some(sid) => (WorkerPhase::ForwardInitializeResponse { session_id: sid }, WorkerAction::Forward(j.message)),
                    None => (
                        WorkerPhase::Finished,
                        WorkerAction::Finish(Err(StreamableHttpError::UnexpectedServerResponse("missing session id".to_owned()))),
                    ),
                },
                Err(e) => (WorkerPhase::Finished, WorkerAction::Finish(Err(e))),
            },
            WorkerEvent::Posted(Err(e)) => (WorkerPhase::Finished, WorkerAction::Finish(Err(e))),
            _ => (WorkerPhase::Finished, WorkerAction::Finish(Err(StreamableHttpError::UnexpectedEndOfStream))),
        },
        WorkerPhase::ForwardInitializeResponse { session_id } => match event {
            WorkerEvent::Forwarded(true) => (WorkerPhase::AwaitInitializedNotification { session_id }, WorkerAction::ReceiveFromClient),
            _ => (WorkerPhase::Finished, WorkerAction::Finish(Err(StreamableHttpError::UnexpectedEndOfStream))),
        },
        WorkerPhase::AwaitInitializedNotification { session_id } => match event {
            WorkerEvent::FromClient(Some(m)) => {
                let sid = copy_session_id(&session_id);
                (WorkerPhase::AwaitInitializedAccepted { session_id }, WorkerAction::Post { message: m, session_id: Some(sid) })
            },
            _ => (WorkerPhase::Finished, WorkerAction::Finish(Err(StreamableHttpError::UnexpectedEndOfStream))),
        },
        WorkerPhase::AwaitInitializedAccepted { session_id } => match event {
            WorkerEvent::Posted(Ok(response)) => match response.expect_accepted() {
                Ok(()) => (WorkerPhase::AwaitCommonStream { session_id }, WorkerAction::OpenCommonStream),
                Err(e) => (WorkerPhase::Finished, WorkerAction::Finish(Err(e))),
            },
            WorkerEvent::Posted(Err(e)) => (WorkerPhase::Finished, WorkerAction::Finish(Err(e))),
            _ => (WorkerPhase::Finished, WorkerAction::Finish(Err(StreamableHttpError::UnexpectedEndOfStream))),
        },
        WorkerPhase::AwaitCommonStream { session_id } => match event {
            WorkerEvent::CommonStream(Ok(stream)) => (WorkerPhase::Running { session_id }, WorkerAction::Spawn(stream)),
            WorkerEvent::CommonStream(Err(StreamableHttpError::SeverDoesNotSupportSse)) => (WorkerPhase::Running { session_id }, WorkerAction::Wait),
            WorkerEvent::CommonStream(Err(e)) => (WorkerPhase::Finished, WorkerAction::Finish(Err(e))),
            _ => (WorkerPhase::Finished, WorkerAction::Finish(Err(StreamableHttpError::UnexpectedEndOfStream))),
        },
        WorkerPhase::Running { session_id } => match event {
            WorkerEvent::FromClient(Some(m)) => {
                let sid = copy_session_id(&session_id);
                (WorkerPhase::Posting { session_id }, WorkerAction::Post { message: m, session_id: Some(sid) })
            },
            WorkerEvent::FromStream(Some(m)) => (WorkerPhase::Forwarding { session_id, fatal: false }, WorkerAction::Forward(m)),
            WorkerEvent::StreamFinished(_) => (WorkerPhase::Running { session_id }, WorkerAction::Wait),
            _ => {
                let sid = copy_session_id(&session_id);
                (WorkerPhase::Closing { session_id }, WorkerAction::Shutdown { session: sid })
            },
        },
        WorkerPhase::Posting { session_id } => match event {
            WorkerEvent::Posted(Ok(StreamableHttpPostResponse::Accepted)) => (WorkerPhase::Running { session_id }, WorkerAction::Wait),
            WorkerEvent::Posted(Ok(StreamableHttpPostResponse::Json(j))) => (
                WorkerPhase::Forwarding { session_id, fatal: true },
                WorkerAction::Forward(j.message),
            ),
            WorkerEvent::Posted(Ok(StreamableHttpPostResponse::Sse(stream))) => (WorkerPhase::Running { session_id }, WorkerAction::Spawn(stream)),
            WorkerEvent::Posted(Err(e)) => (WorkerPhase::Finished, WorkerAction::Finish(Err(e))),
            _ => (WorkerPhase::Finished, WorkerAction::Finish(Err(StreamableHttpError::UnexpectedEndOfStream))),
        },
        WorkerPhase::Forwarding { session_id, fatal } => match event {
            WorkerEvent::Forwarded(true) => (WorkerPhase::Running { session_id }, WorkerAction::Wait),
            _ => if fatal {
                (WorkerPhase::Finished, WorkerAction::Finish(Err(StreamableHttpError::UnexpectedEndOfStream)))
            } else {
                let sid = copy_session_id(&session_id);
                (WorkerPhase::Closing { session_id }, WorkerAction::Shutdown { session: sid })
            },
        },
        WorkerPhase::Closing { .. } => match event {
            WorkerEvent::SessionDeleted(Ok(())) => (WorkerPhase::Finished, WorkerAction::Finish(Ok(()))),
            WorkerEvent::SessionDeleted(Err(StreamableHttpError::SeverDoesNotSupportDeleteSession)) => (WorkerPhase::Finished, WorkerAction::Finish(Ok(()))),
            WorkerEvent::SessionDeleted(Err(e)) => (WorkerPhase::Finished, WorkerAction::Finish(Err(e))),
            _ => (WorkerPhase::Finished, WorkerAction::Finish(Err(StreamableHttpError::UnexpectedEndOfStream))),
        },
        WorkerPhase::Finished => (WorkerPhase::Finished, WorkerAction::Finish(Ok(()))),
    }
}

/// While the session runs, every message passes: each message of the
/// client is posted under the session's id, each message that an event
/// stream brings is handed to the client, a stream that stops leaves the
/// others running, and when the client or every stream is gone the session
/// is shut down and deleted.
pub proof fn lemma_running_worker_passes_messages<E, S>(
    session_id: String,
    event: WorkerEvent<E, S>,
    next: WorkerPhase,
    action: WorkerAction<E, S>,
)
    requires
        worker_next(WorkerPhase::Running { session_id }, event, next, action),
    ensures
        event matches WorkerEvent::FromStream(Some(m)) ==> action == WorkerAction::<E, S>::Forward(m)
            && next == (WorkerPhase::Forwarding { session_id, fatal: false }),
        event matches WorkerEvent::FromClient(Some(m)) ==> (action matches WorkerAction::Post {
            message,
            session_id: Some(sid),
        } && message == m && sid@ == session_id@) && next == (WorkerPhase::Posting { session_id }),
        (event == WorkerEvent::<E, S>::FromClient(None) || event == WorkerEvent::<E, S>::FromStream(None)) ==> (
        action matches WorkerAction::Shutdown { session } && session@ == session_id@) && next == (WorkerPhase::Closing {
            session_id,
        }),
        event is StreamFinished ==> action is Wait && next == (WorkerPhase::Running { session_id }),
{
}

/// The opening of a session follows the protocol: the client's first
/// message is posted without a session id; the initialize answer is handed
/// to the client only as one JSON message; the client's next message is
/// posted under the session's id and must be accepted; then the common
/// stream is opened, and the session runs once it is open or the server
/// has none.
pub proof fn lemma_session_opening_steps<E, S>(
    session_id: String,
    event: WorkerEvent<E, S>,
    next: WorkerPhase,
    action: WorkerAction<E, S>,
)
    ensures
        worker_next(WorkerPhase::AwaitInitializeRequest, event, next, action) ==> (event matches WorkerEvent::FromClient(
            Some(m),
        ) ==> action == (WorkerAction::<E, S>::Post { message: m, session_id: None })
            && next == WorkerPhase::AwaitInitializeResponse),
        event matches WorkerEvent::Posted(Ok(resp)) ==> (worker_next(WorkerPhase::AwaitInitializeResponse, event, next, action)
            && !(resp is Json) ==> next is Finished && action is Finish),
        worker_next(WorkerPhase::AwaitInitializedNotification { session_id }, event, next, action) ==> (
        event matches WorkerEvent::FromClient(Some(m)) ==> (action matches WorkerAction::Post {
            message,
            session_id: Some(sid),
        } && message == m && sid@ == session_id@)),
        worker_next(WorkerPhase::AwaitInitializedAccepted { session_id }, event, next, action) ==> (event
            == WorkerEvent::<E, S>::Posted(Ok(StreamableHttpPostResponse::Accepted)) <==> action is OpenCommonStream),
        worker_next(WorkerPhase::AwaitCommonStream { session_id }, event, next, action) ==> (event matches WorkerEvent::CommonStream(
            Ok(stream),
        ) ==> action == WorkerAction::<E, S>::Spawn(stream) && next == (WorkerPhase::Running { session_id })),
        worker_next(WorkerPhase::AwaitCommonStream { session_id }, event, next, action) && event
            == WorkerEvent::<E, S>::CommonStream(Err(StreamableHttpError::SeverDoesNotSupportSse)) ==> next == (
        WorkerPhase::Running { session_id }),
{
}

/// The server's answer to a post is handed on: a JSON message goes to the
/// client, an event stream is read beside the others, an accepted post
/// lets the session run on, and a failed post ends the transport with that
/// error. Once the client took a forwarded message, the session runs on.
pub proof fn lemma_post_answers_handed_on<E, S>(
    session_id: String,
    fatal: bool,
    event: WorkerEvent<E, S>,
    next: WorkerPhase,
    action: WorkerAction<E, S>,
)
    ensures
        worker_next(WorkerPhase::Posting { session_id }, event, next, action) ==> {
            &&& event matches WorkerEvent::Posted(Ok(StreamableHttpPostResponse::Json(j))) ==> action
                == WorkerAction::<E, S>::Forward(j.message)
            &&& event matches WorkerEvent::Posted(Ok(StreamableHttpPostResponse::Sse(stream))) ==> action
                == WorkerAction::<E, S>::Spawn(stream) && next == (WorkerPhase::Running { session_id })
            &&& event == WorkerEvent::<E, S>::Posted(Ok(StreamableHttpPostResponse::Accepted)) ==> action is Wait
                && next == (WorkerPhase::Running { session_id })
            &&& event matches WorkerEvent::Posted(Err(e)) ==> action == WorkerAction::<E, S>::Finish(Err(e))
        },
        worker_next(WorkerPhase::Forwarding { session_id, fatal }, event, next, action) && event
            == WorkerEvent::<E, S>::Forwarded(true) ==> action is Wait && next == (WorkerPhase::Running { session_id }),
{
}

/// The answer to a post is told apart by its status and the media type at
/// the start of its content type, whatever parameters follow it (such as a
/// charset): status 202 is accepted whatever its content; otherwise a
/// content type that begins with `text/event-stream` is an event stream,
/// one that begins with `application/json` is one JSON message, and
/// anything else, or none, is unexpected.
pub proof fn lemma_post_answer_by_media_type(status: u16, content_type: Option<Seq<u8>>, parameters: Seq<u8>)
    ensures
        status == 202 ==> spec_classify_post_response(status, content_type) == PostResponseKind::Accepted,
        status != 202 ==> spec_classify_post_response(status, Some(EVENT_STREAM_MIME_TYPE.spec_bytes() + parameters))
            == PostResponseKind::EventStream,
        status != 202 ==> spec_classify_post_response(status, Some(JSON_MIME_TYPE.spec_bytes() + parameters))
            == PostResponseKind::Json,
        status != 202 ==> spec_classify_post_response(status, None) == PostResponseKind::UnexpectedContentType,
        status != 202 && (content_type matches Some(ct) && !bytes_start_with(ct, JSON_MIME_TYPE.spec_bytes())
            && !bytes_start_with(ct, EVENT_STREAM_MIME_TYPE.spec_bytes())) ==> spec_classify_post_response(
            status,
            content_type,
        ) == PostResponseKind::UnexpectedContentType,
{
    let es = EVENT_STREAM_MIME_TYPE.spec_bytes();
    let js = JSON_MIME_TYPE.spec_bytes();
    assert((es + parameters).take(es.len() as int) =~= es);
    assert((js + parameters).take(js.len() as int) =~= js);
    lemma_media_types_differ(parameters);
}

/// No content type that begins with `application/json` begins with
/// `text/event-stream`: their first bytes differ.
proof fn lemma_media_types_differ(parameters: Seq<u8>)
    ensures
        !bytes_start_with(JSON_MIME_TYPE.spec_bytes() + parameters, EVENT_STREAM_MIME_TYPE.spec_bytes()),
{
    reveal_strlit("application/json");
    reveal_strlit("text/event-stream");
    assert(vstd::string::is_ascii(JSON_MIME_TYPE));
    assert(vstd::string::is_ascii(EVENT_STREAM_MIME_TYPE));
    vstd::string::is_ascii_spec_bytes(JSON_MIME_TYPE);
    vstd::string::is_ascii_spec_bytes(EVENT_STREAM_MIME_TYPE);
    let es = EVENT_STREAM_MIME_TYPE.spec_bytes();
    let js = JSON_MIME_TYPE.spec_bytes();
    assert(js[0] == 97u8);
    assert(es[0] == 116u8);
    assert((js + parameters)[0] == 97u8);
    if bytes_start_with(js + parameters, es) {
        assert((js + parameters).take(es.len() as int)[0] == es[0]);
    }
}

/// The answer to opening an event stream: an error status is an error
/// whatever its content; otherwise a content type that begins with
/// `text/event-stream` is the stream, and anything else, or none, is
/// unexpected.
pub proof fn lemma_get_stream_answer_by_media_type(status: u16, content_type: Option<Seq<u8>>, parameters: Seq<u8>)
    ensures
        is_error_status(status) ==> spec_classify_get_stream_response(status, content_type) == GetStreamKind::ErrorStatus,
        !is_error_status(status) ==> spec_classify_get_stream_response(
            status,
            Some(EVENT_STREAM_MIME_TYPE.spec_bytes() + parameters),
        ) == GetStreamKind::EventStream,
        !is_error_status(status) ==> spec_classify_get_stream_response(status, None) == GetStreamKind::UnexpectedContentType,
        !is_error_status(status) && (content_type matches Some(ct) && !bytes_start_with(ct, EVENT_STREAM_MIME_TYPE.spec_bytes()))
            ==> spec_classify_get_stream_response(status, content_type) == GetStreamKind::UnexpectedContentType,
{
    let es = EVENT_STREAM_MIME_TYPE.spec_bytes();
    assert((es + parameters).take(es.len() as int) =~= es);
}

/// Once the server gave a session id, the worker keeps it: every later
/// phase holds the same id, every post carries it, and the session it
/// deletes at the end is that one.
pub proof fn lemma_session_id_kept<E, S>(phase: WorkerPhase, event: WorkerEvent<E, S>, next: WorkerPhase, action: WorkerAction<E, S>)
    requires
        phase_session(phase) is Some,
        worker_expects(phase, event),
        worker_next(phase, event, next, action),
    ensures
        phase_session(next) is Some ==> phase_session(next) == phase_session(phase),
        action matches WorkerAction::Post { session_id, .. } ==> opt_text(session_id) == phase_session(phase),
        action matches WorkerAction::Shutdown { session } ==> Some(session@) == phase_session(phase),
{
}

/// The session id is the one the server sent with its answer to the
/// initialize request; an answer without one ends the worker with an error.
pub proof fn lemma_session_id_from_initialize_response<E, S>(
    response: StreamableHttpPostJsonResponse,
    next: WorkerPhase,
    action: WorkerAction<E, S>,
)
    requires
        worker_next(
            WorkerPhase::AwaitInitializeResponse,
            WorkerEvent::<E, S>::Posted(Ok(StreamableHttpPostResponse::Json(response))),
            next,
            action,
        ),
    ensures
        match response.session_id {
            Some(sid) => phase_session(next) == Some(sid@) && action == WorkerAction::<E, S>::Forward(response.message),
            None => next is Finished && action is Finish,
        },
{
}

} // verus!
