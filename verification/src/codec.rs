//! Newline-delimited framing of JSON-RPC messages.
//!
//! Each message travels as one line: its JSON text followed by `\n`
//! (an optional `\r` before the `\n` is tolerated on input). The decoder
//! cuts lines out of a growing buffer, remembers how far it has already
//! searched, and refuses lines longer than a configured maximum: it then
//! reports the error once and discards input up to the next newline.
use crate::bytes_buf::{
    bytes_mut_advance, bytes_mut_as_slice, bytes_mut_byte, bytes_mut_contents, bytes_mut_extend_from_slice,
    bytes_mut_len, bytes_mut_put_u8, bytes_mut_split_to, bytes_mut_truncate,
};
use bytes::BytesMut;
use std::marker::PhantomData;
use vstd::prelude::*;
use vstd::slice::slice_subrange;

verus! {

/// The byte `\n`, which ends every frame.
pub const NEWLINE: u8 = 10u8;

/// The byte `\r`, which may precede the newline.
pub const CARRIAGE_RETURN: u8 = 13u8;

/// Index of the first newline of `s` at or after `from`, or `s.len()` when
/// there is none.
pub open spec fn first_newline_from(s: Seq<u8>, from: int) -> int
    decreases s.len() - from,
{
    if from < 0 || from >= s.len() {
        if from < 0 { first_newline_from(s, 0) } else { s.len() as int }
    } else if s[from] == NEWLINE {
        from
    } else {
        first_newline_from(s, from + 1)
    }
}

/// `s` without one trailing carriage return, if it ends with one.
pub open spec fn strip_cr(s: Seq<u8>) -> Seq<u8> {
    if s.len() > 0 && s.last() == CARRIAGE_RETURN {
        s.drop_last()
    } else {
        s
    }
}

/// `m + 1`, saturating at `usize::MAX`.
pub open spec fn saturating_succ(m: int) -> int {
    if m >= usize::MAX {
        usize::MAX as int
    } else {
        m + 1
    }
}

/// How far one decoding pass looks for a newline: at most `max_length + 1`
/// bytes, and no further than the buffer.
pub open spec fn search_end(max_length: int, len: int) -> int {
    let s = saturating_succ(max_length);
    if s < len {
        s
    } else {
        len
    }
}

/// The state of the decoder: where the next search starts, the longest line
/// accepted, and whether it is skipping the rest of an overlong line.
pub struct CodecView {
    pub next_index: int,
    pub max_length: int,
    pub is_discarding: bool,
}

/// What one call of `decode` yields.
pub enum DecodeOutcome {
    /// A complete line, without its line ending.
    Frame(Seq<u8>),
    /// No complete line yet.
    NeedMore,
    /// The current line is longer than the maximum.
    TooLong,
}

/// One decoding step when not discarding: a line is found when a newline
/// lies inside the search window; otherwise an overlong buffer is an error,
/// and a short one waits for more input, remembering where to resume.
pub open spec fn decode_line(c: CodecView, buf: Seq<u8>) -> (DecodeOutcome, CodecView, Seq<u8>) {
    let q = first_newline_from(buf, c.next_index);
    let w = search_end(c.max_length, buf.len() as int);
    if q < w {
        (
            DecodeOutcome::Frame(strip_cr(buf.take(q))),
            CodecView { next_index: 0, max_length: c.max_length, is_discarding: false },
            buf.skip(q + 1),
        )
    } else if buf.len() > c.max_length {
        (
            DecodeOutcome::TooLong,
            CodecView { next_index: c.next_index, max_length: c.max_length, is_discarding: true },
            buf,
        )
    } else {
        (
            DecodeOutcome::NeedMore,
            CodecView { next_index: w, max_length: c.max_length, is_discarding: false },
            buf,
        )
    }
}

/// One call of `decode`: when discarding, everything up to and including the
/// next newline is dropped and decoding goes on with the rest; without a
/// newline the whole buffer is dropped.
pub open spec fn decode_spec(c: CodecView, buf: Seq<u8>) -> (DecodeOutcome, CodecView, Seq<u8>) {
    if c.is_discarding {
        let q = first_newline_from(buf, c.next_index);
        if q < buf.len() {
            decode_line(
                CodecView { next_index: 0, max_length: c.max_length, is_discarding: false },
                buf.skip(q + 1),
            )
        } else {
            (
                DecodeOutcome::NeedMore,
                CodecView { next_index: 0, max_length: c.max_length, is_discarding: true },
                Seq::<u8>::empty(),
            )
        }
    } else {
        decode_line(c, buf)
    }
}

/// One call of `decode_eof`: as `decode`, except that at the end of input a
/// last line without newline is returned too (unless it is empty or a lone
/// carriage return).
pub open spec fn decode_eof_spec(c: CodecView, buf: Seq<u8>) -> (DecodeOutcome, CodecView, Seq<u8>) {
    let (o, c2, b2) = decode_spec(c, buf);
    match o {
        DecodeOutcome::NeedMore => {
            let c3 = CodecView { next_index: 0, max_length: c2.max_length, is_discarding: c2.is_discarding };
            if b2.len() == 0 || b2 == seq![CARRIAGE_RETURN] {
                (DecodeOutcome::NeedMore, c3, b2)
            } else {
                (DecodeOutcome::Frame(strip_cr(b2)), c3, Seq::<u8>::empty())
            }
        },
        _ => (o, c2, b2),
    }
}

/// The bytes that `encode` appends for a serialized message: the message
/// followed by a newline.
pub open spec fn frame_bytes(payload: Seq<u8>) -> Seq<u8> {
    payload.push(NEWLINE)
}

/// No byte of `s` is a newline.
pub open spec fn no_newline(s: Seq<u8>) -> bool {
    forall|i: int| 0 <= i < s.len() ==> s[i] != NEWLINE
}

/// Errors of the line codec.
pub enum JsonRpcMessageCodecError {
    /// A line went past the maximum length.
    MaxLineLengthExceeded,
    /// A line was not the JSON of the expected message.
    Serde(serde_json::Error),
    /// Reading or writing failed.
    Io(std::io::Error),
}

/// The error type of `serde_json`.
#[verifier::external_type_specification]
#[verifier::external_body]
pub struct ExSerdeJsonError(serde_json::Error);

/// The I/O error type of std.
#[verifier::external_type_specification]
#[verifier::external_body]
pub struct ExIoError(std::io::Error);

/// A decoder and encoder of newline-delimited JSON-RPC messages of type `T`.
pub struct JsonRpcMessageCodec<T> {
    _marker: PhantomData<T>,
    next_index: usize,
    max_length: usize,
    is_discarding: bool,
}

impl<T> View for JsonRpcMessageCodec<T> {
    type V = CodecView;

    closed spec fn view(&self) -> CodecView {
        CodecView {
            next_index: self.next_index as int,
            max_length: self.max_length as int,
            is_discarding: self.is_discarding,
        }
    }
}

/// `s` without a trailing carriage return, if it has one.
pub fn without_carriage_return(s: &[u8]) -> (r: &[u8])
    ensures
        r@ == strip_cr(s@),
{
    let len: usize = s.len();
    if len > 0 && s[len - 1] == CARRIAGE_RETURN {
        slice_subrange(s, 0, len - 1)
    } else {
        s
    }
}

proof fn lemma_first_newline_bounds(s: Seq<u8>, from: int)
    requires
        0 <= from,
    ensures
        from <= first_newline_from(s, from) || (from > s.len() && first_newline_from(s, from) == s.len()),
        first_newline_from(s, from) <= s.len(),
        first_newline_from(s, from) < s.len() ==> s[first_newline_from(s, from)] == NEWLINE,
        forall|i: int| from <= i < first_newline_from(s, from) ==> s[i] != NEWLINE,
    decreases s.len() - from,
{
    if from < s.len() && s[from] != NEWLINE {
        lemma_first_newline_bounds(s, from + 1);
    }
}

/// The first newline at or after `from` is the first one at or after any
/// later start that it does not precede.
proof fn lemma_first_newline_skip_free(s: Seq<u8>, from: int, k: int)
    requires
        0 <= from <= k <= s.len(),
        forall|i: int| from <= i < k ==> s[i] != NEWLINE,
    ensures
        first_newline_from(s, from) == first_newline_from(s, k),
    decreases k - from,
{
    if from < k {
        lemma_first_newline_skip_free(s, from + 1, k);
    }
}

/// Searching a suffix is searching the whole sequence, shifted.
proof fn lemma_first_newline_suffix(s: Seq<u8>, k: int, j: int)
    requires
        0 <= k <= j <= s.len(),
    ensures
        first_newline_from(s.skip(k), j - k) == first_newline_from(s, j) - k,
    decreases s.len() - j,
{
    if j < s.len() && s[j] != NEWLINE {
        lemma_first_newline_suffix(s, k, j + 1);
    }
}


/// A message framed by `encode` comes back whole from `decode`: from a fresh
/// decoder state, a buffer that starts with the frame of a payload free of
/// newlines and no longer than the maximum yields that payload (less a
/// trailing carriage return) and leaves exactly the bytes after the frame.
pub proof fn lemma_encode_then_decode(c: CodecView, payload: Seq<u8>, rest: Seq<u8>)
    requires
        c.next_index == 0,
        !c.is_discarding,
        0 <= c.max_length <= usize::MAX,
        no_newline(payload),
        payload.len() <= c.max_length,
        payload.len() < usize::MAX,
    ensures
        decode_spec(c, frame_bytes(payload) + rest) == (DecodeOutcome::Frame(strip_cr(payload)), c, rest),
{
    let buf = frame_bytes(payload) + rest;
    let p = payload.len() as int;
    assert(buf[p] == NEWLINE);
    assert forall|i: int| 0 <= i < p implies buf[i] != NEWLINE by {
        assert(buf[i] == payload[i]);
    }
    lemma_first_newline_skip_free(buf, 0, p);
    assert(first_newline_from(buf, p) == p);
    assert(buf.take(p) =~= payload);
    assert(buf.skip(p + 1) =~= rest);
    assert(p < search_end(c.max_length, buf.len() as int));
    assert(c == CodecView { next_index: 0, max_length: c.max_length, is_discarding: false });
}

/// The line ending that `decode` removes after a line: a newline, or a
/// carriage return and a newline.
pub open spec fn is_line_ending(ending: Seq<u8>) -> bool {
    ending == seq![NEWLINE] || ending == seq![CARRIAGE_RETURN, NEWLINE]
}

/// A line found within the search window is the buffer's start up to the
/// first newline, less one carriage return before it.
proof fn lemma_line_split(c: CodecView, buf: Seq<u8>)
    requires
        0 <= c.next_index <= buf.len(),
        0 <= c.max_length <= usize::MAX,
    ensures
        ({
            let (o, _c2, rest) = decode_line(c, buf);
            &&& o matches DecodeOutcome::Frame(ln) ==> exists|ending: Seq<u8>|
                #![trigger is_line_ending(ending)]
                is_line_ending(ending) && buf == ln + ending + rest && ln.len() + ending.len() <= c.max_length + 1
            &&& o is NeedMore ==> rest == buf
        }),
{
    lemma_first_newline_bounds(buf, c.next_index);
    let q = first_newline_from(buf, c.next_index);
    let w = search_end(c.max_length, buf.len() as int);
    if q < w {
        let raw = buf.take(q);
        let rest = buf.skip(q + 1);
        let ln = strip_cr(raw);
        if raw.len() > 0 && raw.last() == CARRIAGE_RETURN {
            let ending = seq![CARRIAGE_RETURN, NEWLINE];
            assert(buf =~= ln + ending + rest);
            assert(is_line_ending(ending));
        } else {
            let ending = seq![NEWLINE];
            assert(buf =~= ln + ending + rest);
            assert(is_line_ending(ending));
        }
    }
}

/// What `decode` removes when it yields a line: whatever it was discarding
/// of an overlong line, then the line, then its line ending; nothing is
/// dropped when it was not discarding, and the line with a carriage return
/// before its newline is no longer than the maximum. When it needs more
/// input and was not discarding, the buffer is left as it was.
pub proof fn lemma_decode_removes_line(c: CodecView, buf: Seq<u8>)
    requires
        0 <= c.next_index <= buf.len(),
        0 <= c.max_length <= usize::MAX,
    ensures
        ({
            let (o, _c2, rest) = decode_spec(c, buf);
            &&& o matches DecodeOutcome::Frame(ln) ==> exists|dropped: Seq<u8>, ending: Seq<u8>|
                #![trigger is_line_ending(ending), dropped.len()]
                is_line_ending(ending) && buf == dropped + ln + ending + rest
                    && (!c.is_discarding ==> dropped.len() == 0)
                    && ln.len() + ending.len() <= c.max_length + 1
            &&& (!c.is_discarding && o is NeedMore) ==> rest == buf
        }),
{
    if c.is_discarding {
        lemma_first_newline_bounds(buf, c.next_index);
        let q = first_newline_from(buf, c.next_index);
        if q < buf.len() {
            let c1 = CodecView { next_index: 0, max_length: c.max_length, is_discarding: false };
            let b1 = buf.skip(q + 1);
            lemma_line_split(c1, b1);
            let (o, _c2, rest) = decode_line(c1, b1);
            if let DecodeOutcome::Frame(ln) = o {
                let ending = choose|ending: Seq<u8>| #![trigger is_line_ending(ending)]
                    is_line_ending(ending) && b1 == ln + ending + rest && ln.len() + ending.len() <= c.max_length + 1;
                let dropped = buf.take(q + 1);
                assert(buf =~= dropped + b1);
                assert(buf =~= dropped + ln + ending + rest);
                assert(dropped.len() == q + 1);
            }
        }
    } else {
        lemma_line_split(c, buf);
        let (o, _c2, rest) = decode_line(c, buf);
        if let DecodeOutcome::Frame(ln) = o {
            let ending = choose|ending: Seq<u8>| #![trigger is_line_ending(ending)]
                is_line_ending(ending) && buf == ln + ending + rest && ln.len() + ending.len() <= c.max_length + 1;
            let dropped = Seq::<u8>::empty();
            assert(buf =~= dropped + ln + ending + rest);
            assert(dropped.len() == 0);
        }
    }
}

/// Every line that `decode` yields is free of newlines and no longer than
/// the maximum, and the buffer left behind is a suffix of the one given.
pub proof fn lemma_decoded_frame_bounds(c: CodecView, buf: Seq<u8>)
    requires
        0 <= c.next_index <= buf.len(),
        0 <= c.max_length <= usize::MAX,
        !c.is_discarding ==> no_newline(buf.take(c.next_index)),
    ensures
        decode_spec(c, buf).0 matches DecodeOutcome::Frame(line) ==> no_newline(line) && line.len()
            <= c.max_length,
        exists|k: int| 0 <= k <= buf.len() && decode_spec(c, buf).2 == buf.skip(k),
{
    lemma_first_newline_bounds(buf, c.next_index);
    if c.is_discarding {
        let q = first_newline_from(buf, c.next_index);
        if q < buf.len() {
            let b1 = buf.skip(q + 1);
            lemma_first_newline_bounds(b1, 0);
            let q1 = first_newline_from(b1, 0);
            let w1 = search_end(c.max_length, b1.len() as int);
            if q1 < w1 {
                assert(b1.skip(q1 + 1) =~= buf.skip(q + 1 + q1 + 1));
                assert forall|i: int| 0 <= i < strip_cr(b1.take(q1)).len() implies strip_cr(b1.take(q1))[i]
                    != NEWLINE by {
                    assert(strip_cr(b1.take(q1))[i] == b1[i]);
                }
            } else if b1.len() > c.max_length {
                assert(b1 =~= buf.skip(q + 1));
            } else {
                assert(b1 =~= buf.skip(q + 1));
            }
        } else {
            assert(Seq::<u8>::empty() =~= buf.skip(buf.len() as int));
        }
    } else {
        let q = first_newline_from(buf, c.next_index);
        let w = search_end(c.max_length, buf.len() as int);
        if q < w {
            assert forall|i: int| 0 <= i < strip_cr(buf.take(q)).len() implies strip_cr(buf.take(q))[i]
                != NEWLINE by {
                assert(strip_cr(buf.take(q))[i] == buf[i]);
                if i < c.next_index {
                    assert(buf.take(c.next_index)[i] == buf[i]);
                }
            }
            assert(buf.skip(q + 1) == buf.skip(q + 1));
        } else {
            assert(buf.skip(0) =~= buf);
        }
    }
}

impl<T> JsonRpcMessageCodec<T> {
    /// The state invariant: the next search never starts past the window.
    pub open spec fn wf(&self) -> bool {
        0 <= self@.next_index <= saturating_succ(self@.max_length) && 0 <= self@.max_length <= usize::MAX
    }

    /// A codec that accepts lines of any length.
    pub fn new() -> (r: Self)
        ensures
            r.wf(),
            r@ == (CodecView { next_index: 0, max_length: usize::MAX as int, is_discarding: false }),
    {
        JsonRpcMessageCodec { _marker: PhantomData, next_index: 0, max_length: usize::MAX, is_discarding: false }
    }

    /// A codec that refuses lines longer than `max_length` bytes.
    pub fn new_with_max_length(max_length: usize) -> (r: Self)
        ensures
            r.wf(),
            r@ == (CodecView { next_index: 0, max_length: max_length as int, is_discarding: false }),
    {
        JsonRpcMessageCodec { _marker: PhantomData, next_index: 0, max_length, is_discarding: false }
    }

    /// Where the search for the next newline starts in the buffered bytes:
    /// `decode` and `decode_eof` take a buffer that holds at least this many.
    pub fn next_index(&self) -> (r: usize)
        ensures
            r == self@.next_index,
    {
        self.next_index
    }

    /// The longest line this codec accepts.
    pub fn max_length(&self) -> (r: usize)
        ensures
            r == self@.max_length,
    {
        self.max_length
    }

    /// Position of the first newline in `buf[from..to]`, or `to`.
    fn find_newline(buf: &BytesMut, from: usize, to: usize) -> (r: usize)
        requires
            from <= to <= bytes_mut_contents(*buf).len(),
        ensures
            from <= r <= to,
            r < to ==> r == first_newline_from(bytes_mut_contents(*buf), from as int),
            r == to ==> first_newline_from(bytes_mut_contents(*buf), from as int)
                == first_newline_from(bytes_mut_contents(*buf), to as int),
    {
        let ghost s = bytes_mut_contents(*buf);
        let mut i: usize = from;
        while i < to
            invariant
                from <= i <= to <= s.len(),
                s == bytes_mut_contents(*buf),
                forall|j: int| from <= j < i ==> s[j] != NEWLINE,
            decreases to - i,
        {
            if bytes_mut_byte(buf, i) == NEWLINE {
                proof {
                    lemma_first_newline_skip_free(s, from as int, i as int);
                }
                return i;
            }
            i = i + 1;
        }
        proof {
            lemma_first_newline_skip_free(s, from as int, to as int);
        }
        to
    }

    /// Cuts the next line out of `buf`.
    ///
    /// Returns the line without its `\n` (and without a `\r` before it), or
    /// `None` when no complete line is buffered yet, or
    /// `MaxLineLengthExceeded` once for a line longer than the maximum, after
    /// which input is discarded up to the next newline.
    pub fn decode(&mut self, buf: &mut BytesMut) -> (r: Result<Option<BytesMut>, JsonRpcMessageCodecError>)
        requires
            old(self).wf(),
            old(self)@.next_index <= bytes_mut_contents(*old(buf)).len(),
        ensures
            final(self).wf(),
            final(self)@.max_length == old(self)@.max_length,
            final(self)@.next_index <= bytes_mut_contents(*final(buf)).len(),
            ({
                let (o, c2, b2) = decode_spec(old(self)@, bytes_mut_contents(*old(buf)));
                &&& final(self)@ == c2
                &&& bytes_mut_contents(*final(buf)) == b2
                &&& match o {
                    DecodeOutcome::Frame(line) => r matches Ok(Some(f)) && bytes_mut_contents(f) == line,
                    DecodeOutcome::NeedMore => r matches Ok(None),
                    DecodeOutcome::TooLong => r matches Err(JsonRpcMessageCodecError::MaxLineLengthExceeded),
                }
            }),
    {
        let ghost c0 = self@;
        let ghost b0 = bytes_mut_contents(*buf);
        loop
            invariant
                self.wf(),
                self.next_index <= bytes_mut_contents(*buf).len(),
                self@.max_length == c0.max_length,
                c0 == old(self)@,
                b0 == bytes_mut_contents(*old(buf)),
                decode_spec(self@, bytes_mut_contents(*buf)) == decode_spec(c0, b0),
            decreases bytes_mut_contents(*buf).len() + (if self.is_discarding { 1int } else { 0int }),
        {
            let ghost s = bytes_mut_contents(*buf);
            let ghost c = self@;
            let len: usize = bytes_mut_len(buf);
            let read_to: usize = if self.max_length.saturating_add(1) < len {
                self.max_length.saturating_add(1)
            } else {
                len
            };
            let found: usize = Self::find_newline(buf, self.next_index, read_to);
            proof {
                lemma_first_newline_bounds(s, self.next_index as int);
                lemma_first_newline_bounds(s, read_to as int);
            }
            if self.is_discarding {
                if found < read_to {
                    proof {
                        assert(first_newline_from(s, self.next_index as int) == found);
                    }
                    bytes_mut_advance(buf, found + 1);
                    self.is_discarding = false;
                    self.next_index = 0;
                } else {
                    let ghost n = self.next_index;
                    bytes_mut_advance(buf, read_to);
                    self.next_index = 0;
                    proof {
                        let s2 = bytes_mut_contents(*buf);
                        lemma_first_newline_suffix(s, read_to as int, read_to as int);
                        lemma_first_newline_bounds(s2, 0);
                        let q = first_newline_from(s, n as int);
                        if q < s.len() {
                            assert(s2.skip(first_newline_from(s2, 0) + 1) =~= s.skip(q + 1));
                        }
                        assert(s2.len() == 0 ==> q == s.len());
                    }
                    if bytes_mut_len(buf) == 0 {
                        assert(decode_spec(c, s) == (DecodeOutcome::NeedMore, self@, bytes_mut_contents(*buf)));
                        return Ok(None);
                    }
                }
            } else {
                if found < read_to {
                    proof {
                        assert(first_newline_from(s, self.next_index as int) == found);
                    }
                    self.next_index = 0;
                    let mut line: BytesMut = bytes_mut_split_to(buf, found + 1);
                    bytes_mut_truncate(&mut line, found);
                    let stripped: usize = without_carriage_return(bytes_mut_as_slice(&line)).len();
                    bytes_mut_truncate(&mut line, stripped);
                    proof {
                        assert(s.take(found + 1).take(found as int) =~= s.take(found as int));
                        let t = s.take(found as int);
                        assert(strip_cr(t).len() < t.len() ==> strip_cr(t) =~= t.take(strip_cr(t).len() as int));
                        assert(read_to == search_end(c.max_length, s.len() as int));
                        assert(bytes_mut_contents(line) =~= strip_cr(t));
                        assert(decode_spec(c, s) == (DecodeOutcome::Frame(strip_cr(t)), self@, bytes_mut_contents(*buf)));
                    }
                    return Ok(Some(line));
                } else if len > self.max_length {
                    self.is_discarding = true;
                    return Err(JsonRpcMessageCodecError::MaxLineLengthExceeded);
                } else {
                    self.next_index = read_to;
                    assert(read_to == search_end(c.max_length, s.len() as int));
                    assert(decode_spec(c, s) == (DecodeOutcome::NeedMore, self@, bytes_mut_contents(*buf)));
                    return Ok(None);
                }
            }
        }
    }

    /// As `decode`, at the end of input: a last line without a newline is
    /// returned as well, unless it is empty or a lone carriage return.
    pub fn decode_eof(&mut self, buf: &mut BytesMut) -> (r: Result<Option<BytesMut>, JsonRpcMessageCodecError>)
        requires
            old(self).wf(),
            old(self)@.next_index <= bytes_mut_contents(*old(buf)).len(),
        ensures
            final(self).wf(),
            final(self)@.max_length == old(self)@.max_length,
            final(self)@.next_index <= bytes_mut_contents(*final(buf)).len(),
            ({
                let (o, c2, b2) = decode_eof_spec(old(self)@, bytes_mut_contents(*old(buf)));
                &&& final(self)@ == c2
                &&& bytes_mut_contents(*final(buf)) == b2
                &&& match o {
                    DecodeOutcome::Frame(line) => r matches Ok(Some(f)) && bytes_mut_contents(f) == line,
                    DecodeOutcome::NeedMore => r matches Ok(None),
                    DecodeOutcome::TooLong => r matches Err(JsonRpcMessageCodecError::MaxLineLengthExceeded),
                }
            }),
    {
        match self.decode(buf) {
            Err(e) => Err(e),
            Ok(Some(frame)) => Ok(Some(frame)),
            Ok(None) => {
                self.next_index = 0;
                let len: usize = bytes_mut_len(buf);
                if len == 0 || (len == 1 && bytes_mut_byte(buf, 0) == CARRIAGE_RETURN) {
                    proof {
                        let b = bytes_mut_contents(*buf);
                        if len == 1 {
                            assert(b =~= seq![CARRIAGE_RETURN]);
                        }
                    }
                    Ok(None)
                } else {
                    let ghost b = bytes_mut_contents(*buf);
                    let mut line: BytesMut = bytes_mut_split_to(buf, len);
                    let stripped: usize = without_carriage_return(bytes_mut_as_slice(&line)).len();
                    bytes_mut_truncate(&mut line, stripped);
                    proof {
                        assert(b.take(len as int) =~= b);
                        assert(b.skip(len as int) =~= Seq::<u8>::empty());
                        assert(strip_cr(b).len() < b.len() ==> strip_cr(b) =~= b.take(strip_cr(b).len() as int));
                        assert(b != seq![CARRIAGE_RETURN]);
                    }
                    Ok(Some(line))
                }
            },
        }
    }

    /// Appends one frame to `buf`: the serialized message and a newline.
    pub fn encode(&mut self, payload: &[u8], buf: &mut BytesMut)
        requires
            bytes_mut_contents(*old(buf)).len() + payload@.len() + 1 <= isize::MAX,
        ensures
            final(self)@ == old(self)@,
            bytes_mut_contents(*final(buf)) == bytes_mut_contents(*old(buf)) + frame_bytes(payload@),
    {
        bytes_mut_extend_from_slice(buf, payload);
        bytes_mut_put_u8(buf, NEWLINE);
        proof {
            assert(bytes_mut_contents(*old(buf)) + payload@ + seq![NEWLINE] =~= bytes_mut_contents(*old(buf))
                + frame_bytes(payload@));
        }
    }
}

impl<T> Default for JsonRpcMessageCodec<T> {
    fn default() -> (r: Self)
        ensures
            r.wf(),
            r@ == (CodecView { next_index: 0, max_length: usize::MAX as int, is_discarding: false }),
    {
        Self::new()
    }
}

} // verus!
