//! Ids of the events of a streamable HTTP session.
//!
//! An event id names the stream it was sent on and its position there:
//! `<index>-n-<number>` or `<index>-s-<string>` for the stream of a request
//! whose id is a number or a string, and `<index>-c` for the session's
//! common stream.
use crate::decimal::{int_parse_error_text, decimal_of, parse_unsigned, parse_unsigned_chars, usize_to_decimal, u32_to_decimal, lemma_decimal_roundtrip, lemma_decimal_digits, is_digit, IntParseError};
use crate::model::{IdView, NumberOrString, RequestId};
use crate::text::{chars_of, chars_start_with, string_from_chars, string_push_str};
use vstd::prelude::*;

verus! {

/// The id of an event: the stream it belongs to and its index there.
#[derive(Debug, Clone)]
pub struct EventId {
    request_id: Option<RequestId>,
    index: usize,
}

/// An event id as a value.
pub struct EventIdView {
    pub request_id: Option<IdView>,
    pub index: nat,
}

impl View for EventId {
    type V = EventIdView;

    closed spec fn view(&self) -> EventIdView {
        EventIdView {
            request_id: match self.request_id {
                Some(id) => Some(id@),
                None => None,
            },
            index: self.index as nat,
        }
    }
}

/// Why a text is not an event id.
#[derive(Debug, Clone, Copy, PartialEq, Eq)]
pub enum EventIdParseError {
    /// The index before the first `-` is not a `usize`.
    InvalidIndex(IntParseError),
    /// The number after `n-` is not a `u32`.
    InvalidNumericRequestId(IntParseError),
    /// What follows the index is neither `n-…`, `s-…` nor `c`.
    InvalidRequestIdType,
    /// The text has no `-`.
    MissingRequestId,
}

/// Index of the first `c` in `s` at or after `from`, or `s.len()`.
pub open spec fn first_index_of(s: Seq<char>, c: char, from: int) -> int
    decreases s.len() - from,
{
    if from < 0 || from >= s.len() {
        s.len() as int
    } else if s[from] == c {
        from
    } else {
        first_index_of(s, c, from + 1)
    }
}

/// The text of an event id.
pub open spec fn event_id_text(e: EventIdView) -> Seq<char> {
    decimal_of(e.index) + match e.request_id {
        Some(IdView::Number(n)) => seq!['-', 'n', '-'] + decimal_of(n as nat),
        Some(IdView::Str(s)) => seq!['-', 's', '-'] + s,
        None => seq!['-', 'c'],
    }
}

/// The event id that a text denotes: the index is the decimal before the
/// first `-`, the stream is given by what follows it.
pub open spec fn parse_event_id(s: Seq<char>) -> Result<EventIdView, EventIdParseError> {
    let k = first_index_of(s, '-', 0);
    if k >= s.len() {
        Err(EventIdParseError::MissingRequestId)
    } else {
        match parse_unsigned(s.take(k), usize::MAX as nat) {
            Err(e) => Err(EventIdParseError::InvalidIndex(e)),
            Ok(index) => {
                let rest = s.skip(k + 1);
                if rest.len() >= 2 && rest[0] == 'n' && rest[1] == '-' {
                    match parse_unsigned(rest.skip(2), u32::MAX as nat) {
                        Err(e) => Err(EventIdParseError::InvalidNumericRequestId(e)),
                        Ok(n) => Ok(EventIdView { request_id: Some(IdView::Number(n as u32)), index }),
                    }
                } else if rest.len() >= 2 && rest[0] == 's' && rest[1] == '-' {
                    Ok(EventIdView { request_id: Some(IdView::Str(rest.skip(2))), index })
                } else if rest == seq!['c'] {
                    Ok(EventIdView { request_id: None, index })
                } else {
                    Err(EventIdParseError::InvalidRequestIdType)
                }
            },
        }
    }
}

proof fn lemma_first_index_of_bounds(s: Seq<char>, c: char, from: int)
    requires
        0 <= from,
    ensures
        first_index_of(s, c, from) <= s.len(),
        from <= s.len() ==> from <= first_index_of(s, c, from),
        first_index_of(s, c, from) < s.len() ==> s[first_index_of(s, c, from)] == c,
        forall|i: int| from <= i < first_index_of(s, c, from) ==> s[i] != c,
    decreases s.len() - from,
{
    if from < s.len() && s[from] != c {
        lemma_first_index_of_bounds(s, c, from + 1);
    }
}

proof fn lemma_first_index_of_skip(s: Seq<char>, c: char, from: int, k: int)
    requires
        0 <= from <= k <= s.len(),
        forall|i: int| from <= i < k ==> s[i] != c,
    ensures
        first_index_of(s, c, from) == first_index_of(s, c, k),
    decreases k - from,
{
    if from < k {
        lemma_first_index_of_skip(s, c, from + 1, k);
    }
}

/// The text by which an event id parse error is displayed.
pub open spec fn event_id_parse_error_text(e: EventIdParseError) -> Seq<char> {
    match e {
        EventIdParseError::InvalidIndex(p) => "Invalid index: "@ + int_parse_error_text(p),
        EventIdParseError::InvalidNumericRequestId(p) => "Invalid numeric request id: "@ + int_parse_error_text(p),
        EventIdParseError::InvalidRequestIdType => "Missing request id type"@,
        EventIdParseError::MissingRequestId => "Missing request id"@,
    }
}

impl EventIdParseError {
    /// The text by which this error is displayed.
    pub fn to_display_string(&self) -> (r: String)
        ensures
            r@ == event_id_parse_error_text(*self),
    {
        match self {
            EventIdParseError::InvalidIndex(p) => {
                let mut out = "Invalid index: ".to_owned();
                let t = p.to_display_string();
                string_push_str(&mut out, t.as_str());
                out
            },
            EventIdParseError::InvalidNumericRequestId(p) => {
                let mut out = "Invalid numeric request id: ".to_owned();
                let t = p.to_display_string();
                string_push_str(&mut out, t.as_str());
                out
            },
            EventIdParseError::InvalidRequestIdType => "Missing request id type".to_owned(),
            EventIdParseError::MissingRequestId => "Missing request id".to_owned(),
        }
    }
}

impl EventId {
    /// The event at `index` on the stream of the given request, or on the
    /// common stream when there is none.
    pub fn new(request_id: Option<RequestId>, index: usize) -> (r: EventId)
        ensures
            r@.index == index,
            r@.request_id == (match request_id {
                Some(id) => Some(id@),
                None => None::<IdView>,
            }),
    {
        EventId { request_id, index }
    }

    /// The index of the event on its stream.
    pub fn index(&self) -> (r: usize)
        ensures
            r == self@.index,
    {
        self.index
    }

    /// The request whose stream the event belongs to, if any.
    pub fn request_id(&self) -> (r: &Option<RequestId>)
        ensures
            (match *r {
                Some(id) => Some(id@),
                None => None::<IdView>,
            }) == self@.request_id,
    {
        &self.request_id
    }

    /// The text of this event id.
    pub fn to_display_string(&self) -> (r: String)
        ensures
            r@ == event_id_text(self@),
    {
        let mut out: String = usize_to_decimal(self.index);
        match &self.request_id {
            Some(NumberOrString::Number(n)) => {
                string_push_str(&mut out, "-n-");
                let digits: String = u32_to_decimal(*n);
                string_push_str(&mut out, digits.as_str());
                proof {
                    reveal_strlit("-n-");
                    assert(out@ =~= event_id_text(self@));
                }
            },
            Some(NumberOrString::String(s)) => {
                string_push_str(&mut out, "-s-");
                string_push_str(&mut out, s.as_str());
                proof {
                    reveal_strlit("-s-");
                    assert(out@ =~= event_id_text(self@));
                }
            },
            None => {
                string_push_str(&mut out, "-c");
                proof {
                    reveal_strlit("-c");
                    assert(out@ =~= event_id_text(self@));
                }
            },
        }
        out
    }

    /// Reads an event id from its text.
    pub fn parse(s: &str) -> (r: Result<EventId, EventIdParseError>)
        ensures
            match parse_event_id(s@) {
                Ok(v) => r matches Ok(e) && e@ == v,
                Err(err) => r == Err::<EventId, EventIdParseError>(err),
            },
    {
        let chars: Vec<char> = chars_of(s);
        let len: usize = chars.len();
        let mut k: usize = 0;
        while k < len && chars[k] != '-'
            invariant
                k <= len == chars@.len(),
                chars@ == s@,
                forall|i: int| 0 <= i < k ==> chars@[i] != '-',
            decreases len - k,
        {
            k = k + 1;
        }
        proof {
            lemma_first_index_of_skip(s@, '-', 0, k as int);
            lemma_first_index_of_bounds(s@, '-', k as int);
            assert(chars@.subrange(0, k as int) =~= s@.take(k as int));
        }
        if k == len {
            return Err(EventIdParseError::MissingRequestId);
        }
        let index: usize = match parse_unsigned_chars(&chars, 0, k, usize::MAX as u64) {
            Err(e) => {
                return Err(EventIdParseError::InvalidIndex(e));
            },
            Ok(v) => v as usize,
        };
        let ghost rest = s@.skip(k + 1);
        let start: usize = k + 1;
        let n_prefix: Vec<char> = vec!['n', '-'];
        let s_prefix: Vec<char> = vec!['s', '-'];
        let c_only: Vec<char> = vec!['c'];
        if chars_start_with(&chars, start, &n_prefix) {
            proof {
                assert(chars@.subrange(start as int, start + 2) == n_prefix@);
                assert(rest[0] == chars@.subrange(start as int, start + 2)[0]);
                assert(rest[1] == chars@.subrange(start as int, start + 2)[1]);
                assert(chars@.subrange(start + 2, len as int) =~= rest.skip(2));
            }
            match parse_unsigned_chars(&chars, start + 2, len, u32::MAX as u64) {
                Err(e) => Err(EventIdParseError::InvalidNumericRequestId(e)),
                Ok(n) => Ok(EventId { request_id: Some(NumberOrString::Number(n as u32)), index }),
            }
        } else if chars_start_with(&chars, start, &s_prefix) {
            proof {
                if rest.len() >= 2 && rest[0] == 'n' && rest[1] == '-' {
                    assert(chars@.subrange(start as int, start + 2) =~= n_prefix@);
                }
                assert(chars@.subrange(start as int, start + 2) == s_prefix@);
                assert(rest[0] == chars@.subrange(start as int, start + 2)[0]);
                assert(rest[1] == chars@.subrange(start as int, start + 2)[1]);
                assert(chars@.subrange(start + 2, len as int) =~= rest.skip(2));
            }
            let id: String = string_from_chars(&chars, start + 2, len);
            Ok(EventId { request_id: Some(NumberOrString::String(id)), index })
        } else if chars_start_with(&chars, start, &c_only) && len - start == 1 {
            proof {
                if rest.len() >= 2 && rest[0] == 'n' && rest[1] == '-' {
                    assert(chars@.subrange(start as int, start + 2) =~= n_prefix@);
                }
                if rest.len() >= 2 && rest[0] == 's' && rest[1] == '-' {
                    assert(chars@.subrange(start as int, start + 2) =~= s_prefix@);
                }
                assert(chars@.subrange(start as int, start + 1) == c_only@);
                assert(rest =~= seq!['c']);
            }
            Ok(EventId { request_id: None, index })
        } else {
            proof {
                if rest.len() >= 2 && rest[0] == 'n' && rest[1] == '-' {
                    assert(chars@.subrange(start as int, start + 2) =~= n_prefix@);
                }
                if rest.len() >= 2 && rest[0] == 's' && rest[1] == '-' {
                    assert(chars@.subrange(start as int, start + 2) =~= s_prefix@);
                }
                if rest == seq!['c'] {
                    assert(chars@.subrange(start as int, start + 1) =~= c_only@);
                }
            }
            Err(EventIdParseError::InvalidRequestIdType)
        }
    }
}

/// Reading back the text of an event id gives the same event id.
pub proof fn lemma_event_id_roundtrip(e: EventIdView)
    requires
        e.index <= usize::MAX,
    ensures
        parse_event_id(event_id_text(e)) == Ok::<EventIdView, EventIdParseError>(e),
{
    let d = decimal_of(e.index);
    let t = event_id_text(e);
    lemma_decimal_digits(e.index);
    lemma_decimal_roundtrip(e.index, usize::MAX as nat);
    assert forall|i: int| 0 <= i < d.len() implies t[i] != '-' by {
        assert(t[i] == d[i]);
        assert(is_digit(d[i]));
    }
    assert(t[d.len() as int] == '-');
    lemma_first_index_of_skip(t, '-', 0, d.len() as int);
    assert(first_index_of(t, '-', 0) == d.len());
    assert(t.take(d.len() as int) =~= d);
    let rest = t.skip(d.len() as int + 1);
    match e.request_id {
        Some(IdView::Number(n)) => {
            lemma_decimal_roundtrip(n as nat, u32::MAX as nat);
            assert(rest.skip(2) =~= decimal_of(n as nat));
        },
        Some(IdView::Str(s)) => {
            assert(rest.skip(2) =~= s);
        },
        None => {
            assert(rest =~= seq!['c']);
        },
    }
}

} // verus!
