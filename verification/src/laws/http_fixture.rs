//! Requests as they arrive, and the answers to them.

use vstd::prelude::*;
use vstd::utf8::{decode_utf8, encode_utf8, valid_utf8};

use crate::http_fixture::{
    blank_line, declared_length, frame, header_end_from, line_length, received, response, Arrival,
    Framing, FramingView, Refusal,
};
use crate::text::{decimal, lines_of, occurs_at, position, trimmed, unsigned};

verus! {

/// Whether a blank line stands at a position.
pub open spec fn blank_at(bytes: Seq<u8>, i: int) -> bool {
    0 <= i && i + 4 <= bytes.len() && bytes[i] == 13 && bytes[i + 1] == 10 && bytes[i + 2] == 13
        && bytes[i + 3] == 10
}

/// Whether the headers of a request end at a position: the first blank line is there.
pub open spec fn headers_end(bytes: Seq<u8>, h: int) -> bool {
    blank_at(bytes, h) && forall|i: int| 0 <= i < h ==> !#[trigger] blank_at(bytes, i)
}

proof fn lemma_blank(bytes: Seq<u8>, i: int)
    ensures
        blank_at(bytes, i) == occurs_at(bytes, blank_line(), i),
{
    if 0 <= i && i + 4 <= bytes.len() {
        let there = bytes.subrange(i, i + 4);
        assert(there[0] == bytes[i] && there[1] == bytes[i + 1] && there[2] == bytes[i + 2]
            && there[3] == bytes[i + 3]);
        if blank_at(bytes, i) {
            assert(there =~= blank_line());
        }
    }
}

proof fn lemma_headers(bytes: Seq<u8>, h: int, from: int)
    requires
        0 <= from <= h,
        headers_end(bytes, h),
    ensures
        header_end_from(bytes, from) == Some(h),
    decreases h - from,
{
    lemma_blank(bytes, from);
    if from < h {
        assert(!blank_at(bytes, from));
        lemma_headers(bytes, h, from + 1);
    }
}

proof fn lemma_no_headers(bytes: Seq<u8>, from: int)
    requires
        0 <= from,
        forall|i: int| from <= i ==> !#[trigger] blank_at(bytes, i),
    ensures
        header_end_from(bytes, from) is None,
    decreases bytes.len() - from,
{
    if from + 4 <= bytes.len() {
        lemma_blank(bytes, from);
        assert(!blank_at(bytes, from));
        lemma_no_headers(bytes, from + 1);
    }
}

/// A request is whole once its headers and the body that they declare are there, and is taken up to
/// the end of the body; until then more is read. It is refused where it, or the body it declares,
/// goes beyond a mebibyte, and where it is no text.
pub proof fn requests_are_framed(bytes: &Vec<u8>, h: int, r: Framing)
    requires
        call_ensures(frame, (bytes,), r),
    ensures
        bytes@.len() > 1048576 ==> r@ == (FramingView::Refused { reason: Refusal::RequestBound }),
        bytes@.len() <= 1048576 && (forall|i: int|
            0 <= i ==> !#[trigger] blank_at(bytes@, i)) ==> r@
            is Incomplete,
        bytes@.len() <= 1048576 && 0 <= h && headers_end(bytes@, h) ==> {
            let headers = bytes@.take(h + 4);
            let end = h + 4 + declared_length(lines_of(decode_utf8(headers)), 0);
            &&& !valid_utf8(headers) ==> r@ == (FramingView::Refused {
                reason: Refusal::InvalidData,
            })
            &&& valid_utf8(headers) && end > 1048576 ==> r@ == (FramingView::Refused {
                reason: Refusal::BodyBound,
            })
            &&& valid_utf8(headers) && bytes@.len() < end <= 1048576 ==> r@ is Incomplete
            &&& valid_utf8(headers) && end <= bytes@.len() && valid_utf8(bytes@.take(end)) ==> r@
                == (FramingView::Complete { request: decode_utf8(bytes@.take(end)) })
            &&& valid_utf8(headers) && end <= bytes@.len() && !valid_utf8(bytes@.take(end)) ==> r@
                == (FramingView::Refused { reason: Refusal::InvalidData })
        },
{
    if forall|i: int|
        0 <= i ==> !#[trigger] blank_at(bytes@, i) {
        lemma_no_headers(bytes@, 0);
    }
    if 0 <= h && headers_end(bytes@, h) {
        lemma_headers(bytes@, h, 0);
    }
}

/// Whether a header line names the content length, whatever the case of its letters, with a value.
pub open spec fn names_length(line: Seq<char>, name: Seq<char>, value: Seq<char>) -> bool {
    &&& line == name + ":"@ + value
    &&& !name.contains(':')
    &&& name.len() == "content-length"@.len()
    &&& forall|i: int|
        0 <= i < name.len() ==> crate::endpoint::lowered(#[trigger] name[i])
            == crate::endpoint::lowered("content-length"@[i])
}

proof fn lemma_length(line: Seq<char>, name: Seq<char>, value: Seq<char>)
    requires
        names_length(line, name, value),
    ensures
        line_length(line) == unsigned(trimmed(value), usize::MAX as nat),
{
    reveal_strlit(":");
    crate::text::lemma_position(line, ':', 0);
    let p = position(line, ':', 0);
    let n = name.len() as int;
    assert(line[n] == ':');
    if p < n {
        assert(name[p] == line[p]);
        assert(name.contains(':'));
    }
    assert(line.take(p) =~= name);
    assert(line.skip(p + 1) =~= value);
}

/// The length that headers declare is that of the first content length that is a number.
pub proof fn first_lengths_are_declared(
    headers: Seq<Seq<char>>,
    i: int,
    name: Seq<char>,
    value: Seq<char>,
    from: int,
)
    requires
        0 <= from <= i < headers.len(),
        names_length(headers[i], name, value),
        unsigned(trimmed(value), usize::MAX as nat) is Some,
        forall|j: int| from <= j < i ==> line_length(#[trigger] headers[j]) is None,
    ensures
        Some(declared_length(headers, from)) == unsigned(trimmed(value), usize::MAX as nat),
    decreases i - from,
{
    if from < i {
        assert(line_length(headers[from]) is None);
        first_lengths_are_declared(headers, i, name, value, from + 1);
    } else {
        lemma_length(headers[i], name, value);
    }
}

/// Headers that declare no length declare none of a body.
pub proof fn undeclared_bodies_are_empty(headers: Seq<Seq<char>>, from: int)
    requires
        0 <= from <= headers.len(),
        forall|j: int| from <= j < headers.len() ==> line_length(#[trigger] headers[j]) is None,
    ensures
        declared_length(headers, from) == 0,
    decreases headers.len() - from,
{
    if from < headers.len() {
        undeclared_bodies_are_empty(headers, from + 1);
    }
}

/// What arrives is added to what was there and framed anew; a late read and a closed stream refuse
/// the request, each for its own reason, and leave the bytes alone.
pub proof fn arrivals_are_added(before: Seq<u8>, arrival: Arrival, whole: &Vec<u8>, framed: Framing)
    requires
        call_ensures(frame, (whole,), framed),
        arrival matches Arrival::Bytes { chunk } ==> whole@ == before + chunk@,
    ensures
        arrival is Late ==> received(before, arrival) == (before, FramingView::Refused {
            reason: Refusal::Deadline,
        }),
        arrival matches Arrival::Bytes { chunk } ==> (chunk@.len() == 0 ==> received(
            before,
            arrival,
        ) == (before, FramingView::Refused { reason: Refusal::Truncated })),
        arrival matches Arrival::Bytes { chunk } ==> (chunk@.len() > 0 ==> received(before, arrival)
            == (whole@, framed@)),
{
}

/// An answer says its type and the length of its body in bytes, and closes the connection.
pub proof fn answers_declare_their_body(media_type: &str, body: &str, r: String)
    requires
        call_ensures(response, (media_type, body), r),
    ensures
        r@ == "HTTP/1.1 200 OK\r\nContent-Type: "@ + media_type@ + "\r\nContent-Length: "@
            + decimal(encode_utf8(body@).len()) + "\r\nConnection: close\r\n\r\n"@ + body@,
{
}

} // verus!
