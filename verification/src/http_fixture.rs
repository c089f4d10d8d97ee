//! Framing of one loopback fixture request within its byte bound.

use vstd::prelude::*;
use vstd::utf8::*;

use crate::endpoint::{eq_ignore_case, same_letters};
use crate::text::{
    decimal, joined, joined3, lines, lines_of, number_text, occurs_at, parse_unsigned, part, position,
    texts, trim, trimmed, unsigned,
};

verus! {

/// The most bytes a fixture request may have.
pub const MAX_REQUEST_BYTES: usize = 1048576;

/// Where reading a request stands.
#[derive(Debug)]
pub enum Framing {
    /// More bytes are needed.
    Incomplete,
    /// The whole request.
    Complete { request: String },
    /// The request is refused.
    Refused { reason: Refusal },
}

/// Why a request is refused.
#[derive(Clone, Copy, Debug, PartialEq, Eq, Structural)]
pub enum Refusal {
    /// The peer closed the stream early: "truncated fixture request".
    Truncated,
    /// "fixture request deadline".
    Deadline,
    /// "fixture request exceeds byte bound".
    RequestBound,
    /// "fixture body exceeds byte bound".
    BodyBound,
    /// The request is no UTF-8 text.
    InvalidData,
}

/// What framing a byte sequence gives, by the request's scalar values.
pub enum FramingView {
    Incomplete,
    Complete { request: Seq<char> },
    Refused { reason: Refusal },
}

impl View for Framing {
    type V = FramingView;

    open spec fn view(&self) -> FramingView {
        match *self {
            Framing::Incomplete => FramingView::Incomplete,
            Framing::Complete { request } => FramingView::Complete { request: request@ },
            Framing::Refused { reason } => FramingView::Refused { reason },
        }
    }
}

/// The empty line that ends the headers.
pub open spec fn blank_line() -> Seq<u8> {
    seq![13u8, 10u8, 13u8, 10u8]
}

/// The first position from `from` on at which the headers end.
pub open spec fn header_end_from(bytes: Seq<u8>, from: int) -> Option<int>
    decreases bytes.len() - from,
{
    if from < 0 || from + 4 > bytes.len() {
        None
    } else if occurs_at(bytes, blank_line(), from) {
        Some(from)
    } else {
        header_end_from(bytes, from + 1)
    }
}

/// The declared length of one header line: its value, where its name is `content-length` in any
/// letter case and its value a number.
pub open spec fn line_length(line: Seq<char>) -> Option<nat> {
    let colon = position(line, ':', 0);
    if colon < line.len() && same_letters(line.take(colon), "content-length"@) {
        unsigned(trimmed(line.skip(colon + 1)), usize::MAX as nat)
    } else {
        None
    }
}

/// The length that the first header line with one declares; none counts as 0.
pub open spec fn declared_length(headers: Seq<Seq<char>>, from: int) -> nat
    decreases headers.len() - from,
{
    if from < 0 || from >= headers.len() {
        0
    } else {
        match line_length(headers[from]) {
            Some(n) => n,
            None => declared_length(headers, from + 1),
        }
    }
}

/// What the bytes read so far amount to.
pub open spec fn framed(bytes: Seq<u8>) -> FramingView {
    if bytes.len() > MAX_REQUEST_BYTES {
        FramingView::Refused { reason: Refusal::RequestBound }
    } else {
        match header_end_from(bytes, 0) {
            None => FramingView::Incomplete,
            Some(h) => {
                let headers = bytes.take(h + 4);
                if !valid_utf8(headers) {
                    FramingView::Refused { reason: Refusal::InvalidData }
                } else {
                    let end = h + 4 + declared_length(lines_of(decode_utf8(headers)), 0);
                    if end > MAX_REQUEST_BYTES {
                        FramingView::Refused { reason: Refusal::BodyBound }
                    } else if bytes.len() < end {
                        FramingView::Incomplete
                    } else if !valid_utf8(bytes.take(end)) {
                        FramingView::Refused { reason: Refusal::InvalidData }
                    } else {
                        FramingView::Complete { request: decode_utf8(bytes.take(end)) }
                    }
                }
            },
        }
    }
}

/// Calls `String::from_utf8`: the bytes are the UTF-8 encoding of the text, and none is given
/// exactly where they encode no text.
#[verifier::external_body]
fn utf8_text(bytes: Vec<u8>) -> (r: Option<String>)
    ensures
        r is Some <==> valid_utf8(bytes@),
        r matches Some(s) ==> encode_utf8(s@) == bytes@,
{
    String::from_utf8(bytes).ok()
}

/// The text that bytes encode.
pub fn decoded(bytes: Vec<u8>) -> (r: Option<String>)
    ensures
        r is Some <==> valid_utf8(bytes@),
        r matches Some(s) ==> s@ == decode_utf8(bytes@),
{
    let r: Option<String> = utf8_text(bytes);
    proof {
        if r is Some {
            encode_utf8_decode_utf8(r->0@);
        }
    }
    r
}

fn first_bytes(bytes: &Vec<u8>, n: usize) -> (r: Vec<u8>)
    requires
        n <= bytes.len(),
    ensures
        r@ == bytes@.take(n as int),
{
    let mut out: Vec<u8> = Vec::new();
    let mut i: usize = 0;
    while i < n
        invariant
            i <= n <= bytes.len(),
            out@ == bytes@.take(i as int),
        decreases n - i,
    {
        proof {
            assert(bytes@.take(i + 1) =~= bytes@.take(i as int).push(bytes@[i as int]));
        }
        out.push(bytes[i]);
        i = i + 1;
    }
    out
}

fn header_end(bytes: &Vec<u8>) -> (r: Option<usize>)
    ensures
        match r {
            Some(h) => header_end_from(bytes@, 0) == Some(h as int) && h + 4 <= bytes.len(),
            None => header_end_from(bytes@, 0) is None,
        },
{
    if bytes.len() < 4 {
        return None;
    }
    let mut i: usize = 0;
    while i <= bytes.len() - 4
        invariant
            4 <= bytes.len(),
            i <= bytes.len() - 3,
            header_end_from(bytes@, 0) == header_end_from(bytes@, i as int),
        decreases bytes.len() - i,
    {
        let here: bool = bytes[i] == 13 && bytes[i + 1] == 10 && bytes[i + 2] == 13 && bytes[i + 3]
            == 10;
        proof {
            let window = bytes@.subrange(i as int, i + 4);
            if here {
                assert(window =~= blank_line());
            } else {
                assert(window[0] != 13 || window[1] != 10 || window[2] != 13 || window[3] != 10);
            }
        }
        if here {
            return Some(i);
        }
        i = i + 1;
    }
    None
}

fn length_of_line(line: &str) -> (r: Option<u64>)
    ensures
        crate::text::number_option(r) == line_length(line@),
{
    let chars: Vec<char> = crate::text::chars_of(line);
    let mut colon: usize = 0;
    while colon < chars.len() && chars[colon] != ':'
        invariant
            colon <= chars.len(),
            position(chars@, ':', 0) == position(chars@, ':', colon as int),
        decreases chars.len() - colon,
    {
        colon = colon + 1;
    }
    if colon >= chars.len() {
        return None;
    }
    let name: String = part(line, 0, colon);
    proof {
        assert(name@ =~= line@.take(colon as int));
    }
    if !eq_ignore_case(name.as_str(), "content-length") {
        return None;
    }
    let value: String = part(line, colon + 1, chars.len());
    proof {
        assert(value@ =~= line@.skip(colon + 1));
    }
    parse_unsigned(trim(value.as_str()).as_str(), usize::MAX as u64)
}

fn content_length(headers: &str) -> (r: u64)
    ensures
        r == declared_length(lines_of(headers@), 0),
{
    let all: Vec<String> = lines(headers);
    let ghost view = lines_of(headers@);
    let mut i: usize = 0;
    while i < all.len()
        invariant
            i <= all.len(),
            view == texts(all@),
            view == lines_of(headers@),
            declared_length(view, 0) == declared_length(view, i as int),
        decreases all.len() - i,
    {
        proof {
            assert(view[i as int] == all@[i as int]@);
        }
        if let Some(n) = length_of_line(all[i].as_str()) {
            return n;
        }
        i = i + 1;
    }
    0
}

/// Frames the bytes read so far.
pub fn frame(bytes: &Vec<u8>) -> (r: Framing)
    ensures
        r@ == framed(bytes@),
{
    if bytes.len() > MAX_REQUEST_BYTES {
        return Framing::Refused { reason: Refusal::RequestBound };
    }
    match header_end(bytes) {
        None => Framing::Incomplete,
        Some(h) => {
            let head: Vec<u8> = first_bytes(bytes, h + 4);
            match decoded(head) {
                None => Framing::Refused { reason: Refusal::InvalidData },
                Some(headers) => {
                    let length: u64 = content_length(headers.as_str());
                    let room: u64 = (MAX_REQUEST_BYTES - (h + 4)) as u64;
                    if length > room {
                        return Framing::Refused { reason: Refusal::BodyBound };
                    }
                    let end: usize = h + 4 + length as usize;
                    if bytes.len() < end {
                        return Framing::Incomplete;
                    }
                    match decoded(first_bytes(bytes, end)) {
                        None => Framing::Refused { reason: Refusal::InvalidData },
                        Some(request) => Framing::Complete { request },
                    }
                },
            }
        },
    }
}

/// One read from the stream.
pub enum Arrival {
    /// The deadline passed before the read.
    Late,
    /// The read gave these bytes; none means that the peer closed the stream.
    Bytes { chunk: Vec<u8> },
}

/// What a read makes of the bytes before it: the bytes after it, and where the request stands.
pub open spec fn received(before: Seq<u8>, arrival: Arrival) -> (Seq<u8>, FramingView) {
    match arrival {
        Arrival::Late => (before, FramingView::Refused { reason: Refusal::Deadline }),
        Arrival::Bytes { chunk } => if chunk@.len() == 0 {
            (before, FramingView::Refused { reason: Refusal::Truncated })
        } else {
            (before + chunk@, framed(before + chunk@))
        },
    }
}

/// Reads one content-length request from arrivals, in order.
pub fn read_request(bytes: &mut Vec<u8>, arrival: Arrival) -> (r: Framing)
    ensures
        (final(bytes)@, r@) == received(old(bytes)@, arrival),
{
    match arrival {
        Arrival::Late => Framing::Refused { reason: Refusal::Deadline },
        Arrival::Bytes { chunk } => {
            if chunk.len() == 0 {
                return Framing::Refused { reason: Refusal::Truncated };
            }
            let mut rest: Vec<u8> = chunk;
            bytes.append(&mut rest);
            frame(bytes)
        },
    }
}

proof fn lemma_same_header_end(bytes: Seq<u8>, more: Seq<u8>, from: int)
    requires
        0 <= from,
        header_end_from(bytes, from) is Some,
    ensures
        header_end_from(bytes + more, from) == header_end_from(bytes, from),
        header_end_from(bytes, from)->0 + 4 <= bytes.len(),
        from <= header_end_from(bytes, from)->0,
    decreases bytes.len() - from,
{
    assert((bytes + more).subrange(from, from + 4) =~= bytes.subrange(from, from + 4));
    if !occurs_at(bytes, blank_line(), from) {
        lemma_same_header_end(bytes, more, from + 1);
    }
}

/// A complete request stays the same request whatever bytes follow it within the bound.
pub proof fn request_ignores_what_follows(bytes: Seq<u8>, more: Seq<u8>)
    requires
        framed(bytes) is Complete,
        bytes.len() + more.len() <= MAX_REQUEST_BYTES,
    ensures
        framed(bytes + more) == framed(bytes),
{
    lemma_same_header_end(bytes, more, 0);
    let h = header_end_from(bytes, 0)->0;
    let headers = bytes.take(h + 4);
    assert((bytes + more).take(h + 4) =~= headers);
    let end = h + 4 + declared_length(lines_of(decode_utf8(headers)), 0);
    assert((bytes + more).take(end) =~= bytes.take(end));
}

/// A refusal for the declared length does not depend on the body bytes that arrived.
pub proof fn oversized_body_stays_refused(bytes: Seq<u8>, more: Seq<u8>)
    requires
        framed(bytes) == (FramingView::Refused { reason: Refusal::BodyBound }),
        bytes.len() + more.len() <= MAX_REQUEST_BYTES,
    ensures
        framed(bytes + more) == framed(bytes),
{
    lemma_same_header_end(bytes, more, 0);
    let h = header_end_from(bytes, 0)->0;
    assert((bytes + more).take(h + 4) =~= bytes.take(h + 4));
}

/// A successful response with a body of some media type.
pub open spec fn response_of(media_type: Seq<char>, body: Seq<char>) -> Seq<char> {
    "HTTP/1.1 200 OK\r\nContent-Type: "@ + media_type + "\r\nContent-Length: "@ + decimal(
        encode_utf8(body).len(),
    ) + "\r\nConnection: close\r\n\r\n"@ + body
}

pub fn response(media_type: &str, body: &str) -> (r: String)
    ensures
        r@ == response_of(media_type@, body@),
{
    let size: u64 = body.as_bytes().len() as u64;
    let head: String = joined3(
        "HTTP/1.1 200 OK\r\nContent-Type: ",
        media_type,
        "\r\nContent-Length: ",
    );
    let framed: String = joined3(
        head.as_str(),
        number_text(size).as_str(),
        "\r\nConnection: close\r\n\r\n",
    );
    joined(framed.as_str(), body)
}

} // verus!
