//! The server side of the streamable HTTP transport: which session a
//! request belongs to, what each request is answered, and the ids of new
//! sessions.
use crate::event_id::{EventId, event_id_parse_error_text, parse_event_id};
use crate::http_header::{header_text, spec_header_text};
use crate::model::JsonRpcMessage;
use crate::schema::ClientJsonRpcMessage;
use crate::text::{string_push, string_push_str};
use vstd::prelude::*;

verus! {

/// The query of a request that names its session.
pub struct PostEventQuery {
    pub session_id: String,
}

/// Status 200: the request succeeded.
pub const STATUS_OK: u16 = 200u16;
/// Status 202: the message was accepted.
pub const STATUS_ACCEPTED: u16 = 202u16;
/// Status 400: the request is malformed.
pub const STATUS_BAD_REQUEST: u16 = 400u16;
/// Status 404: no such session.
pub const STATUS_NOT_FOUND: u16 = 404u16;
/// Status 410: the session's service is gone.
pub const STATUS_GONE: u16 = 410u16;
/// Status 500: the server failed.
pub const STATUS_INTERNAL_SERVER_ERROR: u16 = 500u16;

/// A random number from the thread's generator of `rand`.
#[verifier::external_body]
fn random_u128() -> u128 {
    rand::random::<u128>()
}

/// The character of a hexadecimal digit, in lower case.
pub open spec fn hex_digit_char(d: nat) -> char {
    if d < 10 {
        (48 + d) as char
    } else {
        (87 + d) as char
    }
}

/// The shortest lower-case hexadecimal text of `n`.
pub open spec fn hex_of(n: nat) -> Seq<char>
    decreases n,
{
    if n < 16 {
        seq![hex_digit_char(n)]
    } else {
        hex_of(n / 16).push(hex_digit_char(n % 16))
    }
}

/// `s` with zeros in front up to `width` characters.
pub open spec fn zero_padded(s: Seq<char>, width: nat) -> Seq<char> {
    if s.len() >= width {
        s
    } else {
        Seq::new((width - s.len()) as nat, |i: int| '0') + s
    }
}

fn hex_digit(d: u128) -> (c: char)
    requires
        d < 16,
    ensures
        c == hex_digit_char(d as nat),
{
    let b: u8 = d as u8;
    if b < 10 {
        (b + 48u8) as char
    } else {
        (b + 87u8) as char
    }
}

fn hex_chars(n: u128) -> (r: Vec<char>)
    ensures
        r@ == hex_of(n as nat),
    decreases n,
{
    if n < 16 {
        vec![hex_digit(n)]
    } else {
        let mut v = hex_chars(n / 16);
        v.push(hex_digit(n % 16));
        v
    }
}

/// The lower-case hexadecimal text of `n`, with zeros in front up to
/// `width` digits, as `format!("{:0width$x}")` writes it.
pub fn hex_padded(n: u128, width: usize) -> (r: String)
    ensures
        r@ == zero_padded(hex_of(n as nat), width as nat),
{
    let digits = hex_chars(n);
    let mut out = String::new();
    let len: usize = digits.len();
    if len < width {
        let mut k: usize = 0;
        while k < width - len
            invariant
                len < width,
                k <= width - len,
                out@ == Seq::new(k as nat, |i: int| '0'),
            decreases width - len - k,
        {
            string_push(&mut out, '0');
            proof {
                assert(out@ =~= Seq::new((k + 1) as nat, |i: int| '0'));
            }
            k = k + 1;
        }
    }
    let ghost pad = out@;
    let mut i: usize = 0;
    while i < len
        invariant
            i <= len == digits@.len(),
            out@ == pad + digits@.take(i as int),
        decreases len - i,
    {
        string_push(&mut out, digits[i]);
        proof {
            assert(digits@.take(i + 1) =~= digits@.take(i as int).push(digits@[i as int]));
        }
        i = i + 1;
    }
    proof {
        assert(digits@.take(len as int) =~= digits@);
        if len >= width {
            assert(pad =~= Seq::<char>::empty());
            assert(out@ =~= digits@);
        }
    }
    out
}

/// A new session id: a random 128-bit number in lower-case hexadecimal, at
/// least sixteen digits.
pub fn new_session_id() -> (r: String)
    ensures
        exists|n: u128| r@ == zero_padded(hex_of(n as nat), 16),
{
    let n = random_u128();
    hex_padded(n, 16)
}

/// Where a posted message goes, by the session header of the request.
pub enum PostRoute {
    /// To the session with this id.
    Existing(String),
    /// Nowhere: the session header is not text, which is a bad request.
    BadRequest,
    /// To a new session, which this message (the initialize request) opens.
    Initialize,
}

/// Where a posted message goes, by the session header of the request: the
/// header's text names the session; a header that is not text is a bad
/// request; without the header the message opens a new session.
pub fn route_post(session_header: Option<&[u8]>) -> (r: PostRoute)
    ensures
        match session_header {
            None => r is Initialize,
            Some(h) => match spec_header_text(h@) {
                Some(t) => r matches PostRoute::Existing(id) && id@ == t,
                None => r is BadRequest,
            },
        },
{
    match session_header {
        None => PostRoute::Initialize,
        Some(h) => match header_text(h) {
            Some(t) => PostRoute::Existing(t),
            None => PostRoute::BadRequest,
        },
    }
}

/// Whether a message posted to a session opens a stream of its own: a
/// request does; its response comes on that stream.
pub fn opens_request_stream(message: &ClientJsonRpcMessage) -> (r: bool)
    ensures
        r == (*message is Request),
{
    match message {
        JsonRpcMessage::Request(_) => true,
        _ => false,
    }
}

/// The status of a message other than a request posted to a session:
/// accepted when the session took it, gone when its service has ended.
pub fn pushed_message_status(pushed: bool) -> (r: u16)
    ensures
        r == (if pushed { STATUS_ACCEPTED } else { STATUS_GONE }),
{
    if pushed {
        STATUS_ACCEPTED
    } else {
        STATUS_GONE
    }
}

/// What deleting a session is answered: with the session header as text,
/// accepted when the session existed and not found otherwise; a header
/// that is not text, or none, is a bad request.
pub fn delete_status(session_header: Option<&[u8]>, session_exists: bool) -> (r: u16)
    ensures
        r == match session_header {
            None => STATUS_BAD_REQUEST,
            Some(h) => match spec_header_text(h@) {
                None => STATUS_BAD_REQUEST,
                Some(_) => if session_exists {
                    STATUS_ACCEPTED
                } else {
                    STATUS_NOT_FOUND
                },
            },
        },
{
    match session_header {
        None => STATUS_BAD_REQUEST,
        Some(h) => match header_text(h) {
            None => STATUS_BAD_REQUEST,
            Some(_) => if session_exists {
                STATUS_ACCEPTED
            } else {
                STATUS_NOT_FOUND
            },
        },
    }
}

/// What a request to open an event stream comes to.
pub enum GetPlan {
    /// Answer with this status and message.
    Reject { status: u16, message: String },
    /// Resume the stream of this session after this event.
    Resume { session_id: String, last_event_id: EventId },
    /// Open the common stream of this session.
    Common { session_id: String },
}

/// The session that a request to open an event stream names, by its
/// session header: the header's text, or, without one, a bad request that
/// says the session id is missing. The session is looked up before its
/// last-event-id header is read.
pub fn get_stream_session(session_header: Option<&[u8]>) -> (r: Result<String, GetPlan>)
    ensures
        match match session_header { Some(h) => spec_header_text(h@), None => None } {
            None => r matches Err(GetPlan::Reject { status, message }) && status == STATUS_BAD_REQUEST
                && message@ == "missing session id"@,
            Some(sid) => r matches Ok(session_id) && session_id@ == sid,
        },
{
    let session_id = match session_header {
        Some(h) => header_text(h),
        None => None,
    };
    match session_id {
        Some(s) => Ok(s),
        None => Err(GetPlan::Reject { status: STATUS_BAD_REQUEST, message: "missing session id".to_owned() }),
    }
}

/// What a request to open an event stream of a session that exists comes
/// to, by its last-event-id header: with a last event id as text it resumes
/// after that event, or is a bad request when the id cannot be read;
/// otherwise it opens the common stream.
pub fn plan_get(session_id: String, last_event_header: Option<&[u8]>) -> (r: GetPlan)
    ensures
        match match last_event_header { Some(h) => spec_header_text(h@), None => None } {
            None => r matches GetPlan::Common { session_id: s } && s@ == session_id@,
            Some(last) => match parse_event_id(last) {
                Ok(e) => r matches GetPlan::Resume { session_id: s, last_event_id } && s@ == session_id@
                    && last_event_id@ == e,
                Err(err) => r matches GetPlan::Reject { status, message } && status == STATUS_BAD_REQUEST
                    && message@ == "invalid event_id "@ + event_id_parse_error_text(err),
            },
        },
{
    let last = match last_event_header {
        Some(h) => header_text(h),
        None => None,
    };
    match last {
        None => GetPlan::Common { session_id },
        Some(text) => match EventId::parse(text.as_str()) {
            Ok(e) => GetPlan::Resume { session_id, last_event_id: e },
            Err(err) => {
                let mut message = "invalid event_id ".to_owned();
                let t = err.to_display_string();
                string_push_str(&mut message, t.as_str());
                GetPlan::Reject { status: STATUS_BAD_REQUEST, message }
            },
        },
    }
}

} // verus!
