use bytes::BytesMut;
use rmcp::codec::{without_carriage_return, JsonRpcMessageCodec, JsonRpcMessageCodecError};

fn codec() -> JsonRpcMessageCodec<()> {
    JsonRpcMessageCodec::new()
}

#[test]
fn decode_returns_one_line_and_keeps_the_rest() {
    let mut c = codec();
    let mut buf = BytesMut::from(&b"{\"a\":1}\n{\"b\":2}"[..]);
    let frame = c.decode(&mut buf).ok().flatten().expect("a frame");
    assert_eq!(&frame[..], &b"{\"a\":1}"[..]);
    assert_eq!(&buf[..], &b"{\"b\":2}"[..]);
}

#[test]
fn decode_strips_carriage_return() {
    let mut c = codec();
    let mut buf = BytesMut::from(&b"abc\r\nrest"[..]);
    let frame = c.decode(&mut buf).ok().flatten().expect("a frame");
    assert_eq!(&frame[..], &b"abc"[..]);
    assert_eq!(&buf[..], &b"rest"[..]);
}

#[test]
fn decode_waits_for_a_newline() {
    let mut c = codec();
    let mut buf = BytesMut::from(&b"partial"[..]);
    assert!(matches!(c.decode(&mut buf), Ok(None)));
    assert_eq!(&buf[..], &b"partial"[..]);
    buf.extend_from_slice(b" line\nnext");
    let frame = c.decode(&mut buf).ok().flatten().expect("a frame");
    assert_eq!(&frame[..], &b"partial line"[..]);
    assert_eq!(&buf[..], &b"next"[..]);
}

#[test]
fn decode_refuses_an_overlong_line_once_then_skips_it() {
    let mut c: JsonRpcMessageCodec<()> = JsonRpcMessageCodec::new_with_max_length(3);
    assert_eq!(c.max_length(), 3);
    let mut buf = BytesMut::from(&b"abcdefg"[..]);
    assert!(matches!(c.decode(&mut buf), Err(JsonRpcMessageCodecError::MaxLineLengthExceeded)));
    buf.extend_from_slice(b"hij\nxy\n");
    let frame = c.decode(&mut buf).ok().flatten().expect("the next line");
    assert_eq!(&frame[..], &b"xy"[..]);
    assert!(buf.is_empty());
}

#[test]
fn decode_discards_everything_without_newline_while_skipping() {
    let mut c: JsonRpcMessageCodec<()> = JsonRpcMessageCodec::new_with_max_length(2);
    let mut buf = BytesMut::from(&b"abcd"[..]);
    assert!(c.decode(&mut buf).is_err());
    assert!(matches!(c.decode(&mut buf), Ok(None)));
    assert!(buf.is_empty());
}

#[test]
fn decode_accepts_a_line_of_exactly_the_maximum() {
    let mut c: JsonRpcMessageCodec<()> = JsonRpcMessageCodec::new_with_max_length(3);
    let mut buf = BytesMut::from(&b"abc\n"[..]);
    let frame = c.decode(&mut buf).ok().flatten().expect("a frame");
    assert_eq!(&frame[..], &b"abc"[..]);
}

#[test]
fn decode_eof_returns_the_last_unterminated_line() {
    let mut c = codec();
    let mut buf = BytesMut::from(&b"last\r"[..]);
    let frame = c.decode_eof(&mut buf).ok().flatten().expect("a frame");
    assert_eq!(&frame[..], &b"last"[..]);
    assert!(buf.is_empty());
}

#[test]
fn decode_eof_ignores_empty_and_lone_carriage_return() {
    let mut c = codec();
    let mut empty = BytesMut::new();
    assert!(matches!(c.decode_eof(&mut empty), Ok(None)));
    let mut cr = BytesMut::from(&b"\r"[..]);
    assert!(matches!(c.decode_eof(&mut cr), Ok(None)));
    assert_eq!(&cr[..], &b"\r"[..]);
}

#[test]
fn encode_then_decode_gives_the_payload_back() {
    let mut c = codec();
    let mut buf = BytesMut::new();
    c.encode(b"{\"jsonrpc\":\"2.0\"}", &mut buf);
    assert_eq!(&buf[..], &b"{\"jsonrpc\":\"2.0\"}\n"[..]);
    c.encode(b"[]", &mut buf);
    let first = c.decode(&mut buf).ok().flatten().expect("first");
    assert_eq!(&first[..], &b"{\"jsonrpc\":\"2.0\"}"[..]);
    let second = c.decode(&mut buf).ok().flatten().expect("second");
    assert_eq!(&second[..], &b"[]"[..]);
    assert!(buf.is_empty());
}

#[test]
fn without_carriage_return_strips_one() {
    assert_eq!(without_carriage_return(b"ab\r"), b"ab");
    assert_eq!(without_carriage_return(b"ab\r\r"), b"ab\r");
    assert_eq!(without_carriage_return(b"ab"), b"ab");
    assert_eq!(without_carriage_return(b""), b"");
}

#[test]
fn default_codec_has_no_length_limit() {
    let c: JsonRpcMessageCodec<()> = JsonRpcMessageCodec::default();
    assert_eq!(c.max_length(), usize::MAX);
}
