//! The decisions of a client transport over a plain server-sent-events
//! endpoint: the server's first event names the URL to post messages to,
//! later events carry its messages, and posts in flight are bounded.
use crate::text::string_push_str;
use vstd::prelude::*;

verus! {

/// How many posts may be in flight before a new one waits for the oldest.
pub const SSE_POST_QUEUE_SIZE: usize = 16usize;

/// What the event source yields.
pub enum SseClientItem {
    /// An event, with its data.
    Event(String),
    /// A comment.
    Comment,
    /// An error of the event source.
    Error,
    /// The end of the event source.
    End,
}

/// What the transport does with an item of the event source.
pub enum SseInbound {
    /// Read this data as a message of the server.
    Message(String),
    /// Read the next item.
    Skip,
    /// The stream of messages ends.
    End,
}

/// What the transport does with an item of the event source: an event's
/// data is a message; a comment is skipped; an error or the end ends the
/// stream of messages.
pub fn sse_inbound(item: SseClientItem) -> (r: SseInbound)
    ensures
        match item {
            SseClientItem::Event(d) => r matches SseInbound::Message(m) && m == d,
            SseClientItem::Comment => r is Skip,
            _ => r is End,
        },
{
    match item {
        SseClientItem::Event(d) => SseInbound::Message(d),
        SseClientItem::Comment => SseInbound::Skip,
        _ => SseInbound::End,
    }
}

/// The URL that messages are posted to: the endpoint's URL followed by the
/// data of the server's first event.
pub fn sse_post_url(url: &str, first_event_data: &str) -> (r: String)
    ensures
        r@ == url@ + first_event_data@,
{
    let mut out = url.to_owned();
    string_push_str(&mut out, first_event_data);
    out
}

/// Whether a new post waits for the oldest one in flight: when as many are
/// in flight as the queue holds.
pub fn must_wait_for_oldest_post(in_flight: usize) -> (r: bool)
    ensures
        r == (in_flight >= SSE_POST_QUEUE_SIZE),
{
    in_flight >= SSE_POST_QUEUE_SIZE
}

} // verus!
