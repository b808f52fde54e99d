//! The HTTP headers and media types of the streamable HTTP transport, and
//! the checks on raw header bytes that it makes.
use crate::text::string_push;
use vstd::prelude::*;

verus! {

/// The header that carries the id of a session.
pub const HEADER_SESSION_ID: &'static str = "Mcp-Session-Id";

/// The header that carries the id of the last event a client saw.
pub const HEADER_LAST_EVENT_ID: &'static str = "Last-Event-Id";

/// The media type of a stream of server-sent events.
pub const EVENT_STREAM_MIME_TYPE: &'static str = "text/event-stream";

/// The media type of JSON.
pub const JSON_MIME_TYPE: &'static str = "application/json";

/// Whether `s` begins with `prefix`.
pub open spec fn bytes_start_with(s: Seq<u8>, prefix: Seq<u8>) -> bool {
    prefix.len() <= s.len() && s.take(prefix.len() as int) == prefix
}

/// Whether `s` begins with `prefix`.
pub fn starts_with_bytes(s: &[u8], prefix: &[u8]) -> (r: bool)
    ensures
        r == bytes_start_with(s@, prefix@),
{
    let n: usize = prefix.len();
    if n > s.len() {
        return false;
    }
    let mut i: usize = 0;
    while i < n
        invariant
            i <= n <= s@.len(),
            n == prefix@.len(),
            s@.take(i as int) == prefix@.take(i as int),
        decreases n - i,
    {
        if s[i] != prefix[i] {
            proof {
                assert(s@.take(n as int)[i as int] != prefix@[i as int]);
            }
            return false;
        }
        proof {
            assert(s@.take(i + 1) =~= s@.take(i as int).push(s@[i as int]));
            assert(prefix@.take(i + 1) =~= prefix@.take(i as int).push(prefix@[i as int]));
        }
        i = i + 1;
    }
    proof {
        assert(prefix@.take(n as int) =~= prefix@);
    }
    true
}

/// A byte that a header value may hold as text: a visible ASCII character,
/// a space or a tab.
pub open spec fn is_visible_ascii(b: u8) -> bool {
    (32 <= b && b < 127) || b == 9
}

/// The text of header bytes, one character per byte.
pub open spec fn ascii_text(bytes: Seq<u8>) -> Seq<char> {
    bytes.map_values(|b: u8| b as char)
}

/// The text of a header value: its bytes as characters when each is a
/// visible ASCII character, a space or a tab, and nothing otherwise.
pub open spec fn spec_header_text(bytes: Seq<u8>) -> Option<Seq<char>> {
    if forall|i: int| 0 <= i < bytes.len() ==> is_visible_ascii(#[trigger] bytes[i]) {
        Some(ascii_text(bytes))
    } else {
        None
    }
}

/// A header value is text exactly when no byte is a control character
/// other than the tab, nor 127 or above; its text then has one character
/// per byte, of the same code.
pub proof fn lemma_header_text_is_its_bytes(bytes: Seq<u8>)
    ensures
        (forall|i: int| 0 <= i < bytes.len() ==> (32 <= #[trigger] bytes[i] && bytes[i] <= 126) || bytes[i] == 9) ==> (
        spec_header_text(bytes) matches Some(t) && t.len() == bytes.len() && forall|i: int|
            0 <= i < bytes.len() ==> #[trigger] t[i] == (bytes[i] as char)),
        (exists|i: int| 0 <= i < bytes.len() && ((#[trigger] bytes[i] < 32 && bytes[i] != 9) || bytes[i] >= 127)) ==> spec_header_text(
            bytes,
        ) is None,
{
}

/// The text of a header value: its bytes as characters when each is a
/// visible ASCII character, a space or a tab, and nothing otherwise.
pub fn header_text(bytes: &[u8]) -> (r: Option<String>)
    ensures
        match spec_header_text(bytes@) {
            Some(t) => r matches Some(s) && s@ == t,
            None => r is None,
        },
{
    let n: usize = bytes.len();
    let mut out = String::new();
    let mut i: usize = 0;
    while i < n
        invariant
            i <= n == bytes@.len(),
            forall|j: int| 0 <= j < i ==> is_visible_ascii(#[trigger] bytes@[j]),
            out@ == ascii_text(bytes@.take(i as int)),
        decreases n - i,
    {
        let b: u8 = bytes[i];
        if !((32 <= b && b < 127) || b == 9) {
            return None;
        }
        string_push(&mut out, b as char);
        proof {
            assert(bytes@.take(i + 1) =~= bytes@.take(i as int).push(b));
            assert(ascii_text(bytes@.take(i + 1)) =~= ascii_text(bytes@.take(i as int)).push(b as char));
        }
        i = i + 1;
    }
    proof {
        assert(bytes@.take(n as int) =~= bytes@);
    }
    Some(out)
}

} // verus!
