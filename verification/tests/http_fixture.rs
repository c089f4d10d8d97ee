//! The framing of fixture requests.

use milkdrift_evidence::http_fixture::{
    decoded, frame, read_request, response, Arrival, Framing, Refusal, MAX_REQUEST_BYTES,
};

fn refusal(framing: &Framing) -> Option<Refusal> {
    match framing {
        Framing::Refused { reason } => Some(*reason),
        _ => None,
    }
}

fn complete(framing: Framing) -> String {
    match framing {
        Framing::Complete { request } => request,
        Framing::Incomplete => "incomplete".to_owned(),
        Framing::Refused { reason } => format!("{reason:?}"),
    }
}

#[test]
fn nonblocking_accepted_socket_waits_for_fragmented_request() {
    let mut bytes = Vec::new();
    let first = Arrival::Bytes { chunk: b"POST / HTTP/1.1\r\nContent-Length:3\r\n\r\na".to_vec() };
    assert!(matches!(read_request(&mut bytes, first), Framing::Incomplete));
    let second = Arrival::Bytes { chunk: b"bc".to_vec() };
    let request = complete(read_request(&mut bytes, second));
    assert_eq!(request, "POST / HTTP/1.1\r\nContent-Length:3\r\n\r\nabc");
}

#[test]
fn a_request_without_a_length_ends_with_its_headers() {
    let bytes = b"GET / HTTP/1.1\r\nHost: x\r\n\r\nrest".to_vec();
    assert_eq!(complete(frame(&bytes)), "GET / HTTP/1.1\r\nHost: x\r\n\r\n");
    assert!(matches!(frame(&b"GET / HTTP/1.1\r\n".to_vec()), Framing::Incomplete));
}

#[test]
fn the_length_header_is_found_in_any_letter_case() {
    let bytes = b"POST / HTTP/1.1\r\ncontent-LENGTH:  2 \r\n\r\nabc".to_vec();
    assert_eq!(complete(frame(&bytes)), "POST / HTTP/1.1\r\ncontent-LENGTH:  2 \r\n\r\nab");
}

#[test]
fn what_follows_a_complete_request_changes_nothing() {
    let mut bytes = b"POST / HTTP/1.1\r\nContent-Length:1\r\n\r\na".to_vec();
    let before = complete(frame(&bytes));
    bytes.extend_from_slice(b"GET / HTTP/1.1\r\n\r\n");
    assert_eq!(complete(frame(&bytes)), before);
}

#[test]
fn each_refusal_has_its_reason() {
    let mut bytes = Vec::new();
    let closed = Arrival::Bytes { chunk: Vec::new() };
    assert_eq!(refusal(&read_request(&mut bytes, closed)), Some(Refusal::Truncated));
    assert_eq!(refusal(&read_request(&mut bytes, Arrival::Late)), Some(Refusal::Deadline));
    let flood = vec![b'x'; MAX_REQUEST_BYTES + 1];
    assert_eq!(refusal(&frame(&flood)), Some(Refusal::RequestBound));
    let wide = b"POST / HTTP/1.1\r\nContent-Length: 1048576\r\n\r\n".to_vec();
    assert_eq!(refusal(&frame(&wide)), Some(Refusal::BodyBound));
    let mut more = wide.clone();
    more.extend_from_slice(b"abc");
    assert_eq!(refusal(&frame(&more)), Some(Refusal::BodyBound));
    let binary = b"POST / HTTP/1.1\r\nX: \xff\r\n\r\n".to_vec();
    assert_eq!(refusal(&frame(&binary)), Some(Refusal::InvalidData));
    let body = b"POST / HTTP/1.1\r\nContent-Length: 1\r\n\r\n\xff".to_vec();
    assert_eq!(refusal(&frame(&body)), Some(Refusal::InvalidData));
}

#[test]
fn bytes_are_text_only_where_they_encode_one() {
    assert_eq!(decoded("gr\u{fc}n".as_bytes().to_vec()), Some("gr\u{fc}n".to_owned()));
    assert_eq!(decoded(vec![0xc3]), None);
}

#[test]
fn responses_state_their_length_in_bytes() {
    assert_eq!(
        response("application/json", "{\"a\":\"\u{fc}\"}"),
        "HTTP/1.1 200 OK\r\nContent-Type: application/json\r\nContent-Length: 10\r\nConnection: close\r\n\r\n{\"a\":\"\u{fc}\"}"
    );
}
