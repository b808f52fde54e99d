//! The JSON-RPC 2.0 envelope of MCP: request ids, error objects, the four
//! kinds of message, and the conversion between the wire form and the
//! flattened form that services handle.
use crate::decimal::{i32_to_decimal, signed_decimal_of, u32_to_decimal, decimal_of};
use crate::text::string_push_str;
use vstd::prelude::*;

verus! {

/// The dynamically typed JSON value of `serde_json`.
#[verifier::external_type_specification]
#[verifier::external_body]
pub struct ExJsonValue(serde_json::Value);

/// The JSON object map of `serde_json`.
#[verifier::external_type_specification]
#[verifier::external_body]
#[verifier::reject_recursive_types(K)]
#[verifier::reject_recursive_types(V)]
pub struct ExJsonMap<K, V>(serde_json::Map<K, V>);

/// `Clone` of `serde_json::Value`, which is derived: the copy is the same
/// value.
pub assume_specification[ <serde_json::Value as Clone>::clone ](v: &serde_json::Value) -> (r: serde_json::Value)
    ensures
        r == *v,
;

/// `Clone` of the JSON object map, which clones its entries: the copy is the
/// same map.
pub assume_specification[ <serde_json::Map<String, serde_json::Value> as Clone>::clone ](
    m: &serde_json::Map<String, serde_json::Value>,
) -> (r: serde_json::Map<String, serde_json::Value>)
    ensures
        r == *m,
;

/// The compact JSON text of a value, as `Display` of `serde_json` writes
/// it.
pub uninterp spec fn json_text(v: serde_json::Value) -> Seq<char>;

/// `Display` of `serde_json::Value`: its compact JSON text.
#[verifier::external_body]
fn json_value_text(v: &serde_json::Value) -> (r: String)
    ensures
        r@ == json_text(*v),
{
    v.to_string()
}

/// A JSON object.
pub type JsonObject = serde_json::Map<String, serde_json::Value>;

/// A type that stands for one fixed string on the wire.
pub trait ConstString {
    /// The characters of the string this type stands for.
    spec fn spec_value() -> Seq<char>;

    /// The string this type stands for.
    fn value() -> (r: &'static str)
        ensures
            r@ == Self::spec_value(),
    ;
}

/// The message of the error for a value other than the constant string
/// `expected`.
pub open spec fn const_string_mismatch_text(expected: Seq<char>) -> Seq<char> {
    "expect const string value \""@ + expected + "\""@
}

/// Checks that a value read for a constant string is that string; any other
/// value is refused with a message that names the expected one.
pub fn check_const_string<C: ConstString>(value: &str) -> (r: Result<(), String>)
    ensures
        value@ == C::spec_value() ==> r is Ok,
        value@ != C::spec_value() ==> (r matches Err(m) && m@ == const_string_mismatch_text(C::spec_value())),
{
    let expected: String = C::value().to_owned();
    let got: String = value.to_owned();
    if got.eq(&expected) {
        Ok(())
    } else {
        let mut m = "expect const string value \"".to_owned();
        crate::text::string_push_str(&mut m, C::value());
        crate::text::string_push_str(&mut m, "\"");
        Err(m)
    }
}

/// The `"jsonrpc": "2.0"` member of every message.
#[derive(Debug, Clone, Copy, Default, PartialEq, Eq)]
pub struct JsonRpcVersion2_0;

impl ConstString for JsonRpcVersion2_0 {
    open spec fn spec_value() -> Seq<char> {
        "2.0"@
    }

    fn value() -> &'static str {
        "2.0"
    }
}

/// The protocol version this implementation speaks.
#[derive(Debug, Clone, Copy, Default, PartialEq, Eq)]
pub struct LatestProtocolVersion;

impl ConstString for LatestProtocolVersion {
    open spec fn spec_value() -> Seq<char> {
        "2024-11-05"@
    }

    fn value() -> &'static str {
        "2024-11-05"
    }
}

/// A request id or progress token: a number or a string.
#[derive(Debug, Clone, PartialEq, Eq, Hash)]
pub enum NumberOrString {
    Number(u32),
    String(String),
}

/// What a request id is, as a value: a number, or the characters of a string.
pub enum IdView {
    Number(u32),
    Str(Seq<char>),
}

impl View for NumberOrString {
    type V = IdView;

    open spec fn view(&self) -> IdView {
        match self {
            NumberOrString::Number(n) => IdView::Number(*n),
            NumberOrString::String(s) => IdView::Str(s@),
        }
    }
}

/// The identifier of a request, which its response carries back.
pub type RequestId = NumberOrString;

/// The token by which progress notifications name their request.
pub type ProgressToken = NumberOrString;

/// The text of an id as it is displayed: the decimal digits of a number, or
/// the string itself.
pub open spec fn id_display(id: IdView) -> Seq<char> {
    match id {
        IdView::Number(n) => decimal_of(n as nat),
        IdView::Str(s) => s,
    }
}

impl NumberOrString {
    /// Whether two ids are the same id.
    pub fn same_as(&self, other: &NumberOrString) -> (r: bool)
        ensures
            r == (self@ == other@),
    {
        match (self, other) {
            (NumberOrString::Number(a), NumberOrString::Number(b)) => *a == *b,
            (NumberOrString::String(a), NumberOrString::String(b)) => a.eq(b),
            _ => false,
        }
    }

    /// A copy of this id.
    pub fn copied(&self) -> (r: NumberOrString)
        ensures
            r@ == self@,
    {
        match self {
            NumberOrString::Number(n) => NumberOrString::Number(*n),
            NumberOrString::String(s) => NumberOrString::String(s.clone()),
        }
    }

    /// The id as it is displayed.
    pub fn to_display_string(&self) -> (r: String)
        ensures
            r@ == id_display(self@),
    {
        match self {
            NumberOrString::Number(n) => u32_to_decimal(*n),
            NumberOrString::String(s) => s.clone(),
        }
    }

    /// The id that a JSON integer denotes: only its low 32 bits are kept.
    pub fn from_json_integer(n: u64) -> (r: NumberOrString)
        ensures
            r@ == IdView::Number(n as u32),
    {
        NumberOrString::Number(#[verifier::truncate] (n as u32))
    }
}

/// A JSON-RPC error code.
#[derive(Debug, Clone, Copy, Default, PartialEq, Eq)]
pub struct ErrorCode(pub i32);

/// The code (`ErrorCode.0`) of a message that is not valid JSON.
pub const PARSE_ERROR: i32 = -32700i32;
/// The code of a message that is not a valid request.
pub const INVALID_REQUEST: i32 = -32600i32;
/// The code of a request for a method that is not offered.
pub const METHOD_NOT_FOUND: i32 = -32601i32;
/// The code of a request whose parameters are not valid.
pub const INVALID_PARAMS: i32 = -32602i32;
/// The code of a failure inside the server.
pub const INTERNAL_ERROR: i32 = -32603i32;

/// Error information for JSON-RPC error responses.
#[derive(Debug, Clone)]
pub struct ErrorData {
    /// The error type that occurred.
    pub code: ErrorCode,
    /// A short description of the error.
    pub message: String,
    /// Additional information about the error, defined by the sender.
    pub data: Option<serde_json::Value>,
}

impl ErrorData {
    /// An error with the given code, message and data.
    pub fn new(code: ErrorCode, message: String, data: Option<serde_json::Value>) -> (r: Self)
        ensures
            r.code == code,
            r.message@ == message@,
            r.data == data,
    {
        ErrorData { code, message, data }
    }

    /// The text by which the error is displayed: its code and message,
    /// then its data in brackets when there is any.
    pub fn to_display_string(&self) -> (r: String)
        ensures
            self.data is None ==> r@ == signed_decimal_of(self.code.0 as int) + ": "@ + self.message@,
            self.data matches Some(d) ==> r@ == signed_decimal_of(self.code.0 as int) + ": "@ + self.message@ + "("@
                + json_text(d) + ")"@,
    {
        let mut out = i32_to_decimal(self.code.0);
        string_push_str(&mut out, ": ");
        string_push_str(&mut out, self.message.as_str());
        let ghost head = out@;
        proof {
            reveal_strlit(": ");
        }
        match &self.data {
            Some(d) => {
                string_push_str(&mut out, "(");
                let t = json_value_text(d);
                string_push_str(&mut out, t.as_str());
                string_push_str(&mut out, ")");
                proof {
                    reveal_strlit("(");
                    reveal_strlit(")");
                    assert(out@ =~= head + "("@ + t@ + ")"@);
                }
            },
            None => {},
        }
        out
    }

    /// A parse error.
    pub fn parse_error(message: String, data: Option<serde_json::Value>) -> (r: Self)
        ensures
            r.code == ErrorCode(PARSE_ERROR),
            r.message@ == message@,
            r.data == data,
    {
        Self::new(ErrorCode(PARSE_ERROR), message, data)
    }

    /// An invalid-request error.
    pub fn invalid_request(message: String, data: Option<serde_json::Value>) -> (r: Self)
        ensures
            r.code == ErrorCode(INVALID_REQUEST),
            r.message@ == message@,
            r.data == data,
    {
        Self::new(ErrorCode(INVALID_REQUEST), message, data)
    }

    /// A method-not-found error.
    pub fn method_not_found(message: String, data: Option<serde_json::Value>) -> (r: Self)
        ensures
            r.code == ErrorCode(METHOD_NOT_FOUND),
            r.message@ == message@,
            r.data == data,
    {
        Self::new(ErrorCode(METHOD_NOT_FOUND), message, data)
    }

    /// An invalid-parameters error.
    pub fn invalid_params(message: String, data: Option<serde_json::Value>) -> (r: Self)
        ensures
            r.code == ErrorCode(INVALID_PARAMS),
            r.message@ == message@,
            r.data == data,
    {
        Self::new(ErrorCode(INVALID_PARAMS), message, data)
    }

    /// An internal error.
    pub fn internal_error(message: String, data: Option<serde_json::Value>) -> (r: Self)
        ensures
            r.code == ErrorCode(INTERNAL_ERROR),
            r.message@ == message@,
            r.data == data,
    {
        Self::new(ErrorCode(INTERNAL_ERROR), message, data)
    }
}

/// A request on the wire.
#[derive(Debug, Clone)]
pub struct JsonRpcRequest<R> {
    pub jsonrpc: JsonRpcVersion2_0,
    pub id: RequestId,
    pub request: R,
}

/// A successful response on the wire.
#[derive(Debug, Clone)]
pub struct JsonRpcResponse<R> {
    pub jsonrpc: JsonRpcVersion2_0,
    pub id: RequestId,
    pub result: R,
}

/// An error response on the wire.
#[derive(Debug, Clone)]
pub struct JsonRpcError {
    pub jsonrpc: JsonRpcVersion2_0,
    pub id: RequestId,
    pub error: ErrorData,
}

/// A notification on the wire.
#[derive(Debug, Clone)]
pub struct JsonRpcNotification<N> {
    pub jsonrpc: JsonRpcVersion2_0,
    pub notification: N,
}

/// A JSON-RPC message as it is written: one of four shapes.
#[derive(Debug, Clone)]
pub enum JsonRpcMessage<Req, Resp, Noti> {
    Request(JsonRpcRequest<Req>),
    Response(JsonRpcResponse<Resp>),
    Notification(JsonRpcNotification<Noti>),
    Error(JsonRpcError),
}

/// A JSON-RPC message as services handle it, without the envelope.
#[derive(Debug, Clone)]
pub enum Message<Req, Resp, Noti> {
    Request(Req, RequestId),
    Response(Resp, RequestId),
    Error(ErrorData, RequestId),
    Notification(Noti),
}

/// The message that a wire message carries.
pub open spec fn spec_into_message<Req, Resp, Noti>(m: JsonRpcMessage<Req, Resp, Noti>) -> Message<Req, Resp, Noti> {
    match m {
        JsonRpcMessage::Request(r) => Message::Request(r.request, r.id),
        JsonRpcMessage::Response(r) => Message::Response(r.result, r.id),
        JsonRpcMessage::Notification(n) => Message::Notification(n.notification),
        JsonRpcMessage::Error(e) => Message::Error(e.error, e.id),
    }
}

/// The wire message that carries a message.
pub open spec fn spec_into_json_rpc_message<Req, Resp, Noti>(m: Message<Req, Resp, Noti>) -> JsonRpcMessage<Req, Resp, Noti> {
    match m {
        Message::Request(request, id) => JsonRpcMessage::Request(JsonRpcRequest { jsonrpc: JsonRpcVersion2_0, id, request }),
        Message::Response(result, id) => JsonRpcMessage::Response(JsonRpcResponse { jsonrpc: JsonRpcVersion2_0, id, result }),
        Message::Error(error, id) => JsonRpcMessage::Error(JsonRpcError { jsonrpc: JsonRpcVersion2_0, id, error }),
        Message::Notification(notification) => JsonRpcMessage::Notification(JsonRpcNotification { jsonrpc: JsonRpcVersion2_0, notification }),
    }
}

impl<Req, Resp, Noti> JsonRpcMessage<Req, Resp, Noti> {
    /// The message without its envelope.
    pub fn into_message(self) -> (r: Message<Req, Resp, Noti>)
        ensures
            r == spec_into_message(self),
    {
        match self {
            JsonRpcMessage::Request(JsonRpcRequest { id, request, .. }) => Message::Request(request, id),
            JsonRpcMessage::Response(JsonRpcResponse { id, result, .. }) => Message::Response(result, id),
            JsonRpcMessage::Notification(JsonRpcNotification { notification, .. }) => Message::Notification(notification),
            JsonRpcMessage::Error(JsonRpcError { id, error, .. }) => Message::Error(error, id),
        }
    }
}

impl<Req, Resp, Noti> Message<Req, Resp, Noti> {
    /// The notification, if this is one.
    pub fn into_notification(self) -> (r: Option<Noti>)
        ensures
            r == (match self {
                Message::Notification(n) => Some(n),
                _ => None::<Noti>,
            }),
    {
        match self {
            Message::Notification(notification) => Some(notification),
            _ => None,
        }
    }

    /// The result and its id, if this is a successful response.
    pub fn into_response(self) -> (r: Option<(Resp, RequestId)>)
        ensures
            r == (match self {
                Message::Response(result, id) => Some((result, id)),
                _ => None::<(Resp, RequestId)>,
            }),
    {
        match self {
            Message::Response(result, id) => Some((result, id)),
            _ => None,
        }
    }

    /// The request and its id, if this is a request.
    pub fn into_request(self) -> (r: Option<(Req, RequestId)>)
        ensures
            r == (match self {
                Message::Request(request, id) => Some((request, id)),
                _ => None::<(Req, RequestId)>,
            }),
    {
        match self {
            Message::Request(request, id) => Some((request, id)),
            _ => None,
        }
    }

    /// The error and its id, if this is an error response.
    pub fn into_error(self) -> (r: Option<(ErrorData, RequestId)>)
        ensures
            r == (match self {
                Message::Error(error, id) => Some((error, id)),
                _ => None::<(ErrorData, RequestId)>,
            }),
    {
        match self {
            Message::Error(error, id) => Some((error, id)),
            _ => None,
        }
    }

    /// The outcome and id of a response of either kind.
    pub fn into_result(self) -> (r: Option<(Result<Resp, ErrorData>, RequestId)>)
        ensures
            r == (match self {
                Message::Response(result, id) => Some((Ok::<Resp, ErrorData>(result), id)),
                Message::Error(error, id) => Some((Err::<Resp, ErrorData>(error), id)),
                _ => None::<(Result<Resp, ErrorData>, RequestId)>,
            }),
    {
        match self {
            Message::Response(result, id) => Some((Ok(result), id)),
            Message::Error(error, id) => Some((Err(error), id)),
            _ => None,
        }
    }

    /// The message in its envelope.
    pub fn into_json_rpc_message(self) -> (r: JsonRpcMessage<Req, Resp, Noti>)
        ensures
            r == spec_into_json_rpc_message(self),
    {
        match self {
            Message::Request(request, id) => JsonRpcMessage::Request(JsonRpcRequest { jsonrpc: JsonRpcVersion2_0, id, request }),
            Message::Response(result, id) => JsonRpcMessage::Response(JsonRpcResponse { jsonrpc: JsonRpcVersion2_0, id, result }),
            Message::Error(error, id) => JsonRpcMessage::Error(JsonRpcError { jsonrpc: JsonRpcVersion2_0, id, error }),
            Message::Notification(notification) => JsonRpcMessage::Notification(JsonRpcNotification { jsonrpc: JsonRpcVersion2_0, notification }),
        }
    }
}

/// Putting a message in its envelope and taking it out again gives the
/// same message.
pub proof fn lemma_message_envelope_roundtrip<Req, Resp, Noti>(m: Message<Req, Resp, Noti>)
    ensures
        spec_into_message(spec_into_json_rpc_message(m)) == m,
{
}

/// The envelope keeps what it carries: a request keeps its id and request,
/// a response its id and result, an error its id and error object, and a
/// notification its notification; the kind of message never changes.
pub proof fn lemma_envelope_keeps_contents<Req, Resp, Noti>(m: JsonRpcMessage<Req, Resp, Noti>)
    ensures
        m matches JsonRpcMessage::Request(r) ==> spec_into_message(m) == Message::<Req, Resp, Noti>::Request(r.request, r.id),
        m matches JsonRpcMessage::Response(r) ==> spec_into_message(m) == Message::<Req, Resp, Noti>::Response(r.result, r.id),
        m matches JsonRpcMessage::Error(e) ==> spec_into_message(m) == Message::<Req, Resp, Noti>::Error(e.error, e.id),
        m matches JsonRpcMessage::Notification(n) ==> spec_into_message(m) == Message::<Req, Resp, Noti>::Notification(
            n.notification,
        ),
{
}

/// Taking a wire message out of its envelope and putting it back gives the
/// same wire message.
pub proof fn lemma_wire_envelope_roundtrip<Req, Resp, Noti>(m: JsonRpcMessage<Req, Resp, Noti>)
    ensures
        spec_into_json_rpc_message(spec_into_message(m)) == m,
{
    match m {
        JsonRpcMessage::Request(r) => { assert(r.jsonrpc == JsonRpcVersion2_0); },
        JsonRpcMessage::Response(r) => { assert(r.jsonrpc == JsonRpcVersion2_0); },
        JsonRpcMessage::Notification(n) => { assert(n.jsonrpc == JsonRpcVersion2_0); },
        JsonRpcMessage::Error(e) => { assert(e.jsonrpc == JsonRpcVersion2_0); },
    }
}

} // verus!
