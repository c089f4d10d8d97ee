//! Model endpoint addresses.

use vstd::prelude::*;

use crate::failure::{failure, Checked};
use crate::text::{joined3, number_text};

verus! {

/// The host of an absolute URL. An address carries its bits and its text.
#[derive(Debug)]
pub enum UrlHost {
    V4 { bits: u32, text: String },
    V6 { wide: u128, text: String },
    Domain { name: String },
}

/// The parts of an absolute URL that the endpoint rules read.
#[derive(Debug)]
pub struct UrlParts {
    pub scheme: String,
    pub host: Option<UrlHost>,
    pub host_text: Option<String>,
    pub port: Option<u16>,
    pub known_port: Option<u16>,
}

pub enum HostView {
    V4 { bits: u32, text: Seq<char> },
    V6 { wide: u128, text: Seq<char> },
    Domain { name: Seq<char> },
}

pub struct UrlView {
    pub scheme: Seq<char>,
    pub host: Option<HostView>,
    pub host_text: Option<Seq<char>>,
    pub port: Option<u16>,
    pub known_port: Option<u16>,
}

impl View for UrlHost {
    type V = HostView;

    open spec fn view(&self) -> HostView {
        match *self {
            UrlHost::V4 { bits, text } => HostView::V4 { bits, text: text@ },
            UrlHost::V6 { wide, text } => HostView::V6 { wide, text: text@ },
            UrlHost::Domain { name } => HostView::Domain { name: name@ },
        }
    }
}

impl View for UrlParts {
    type V = UrlView;

    open spec fn view(&self) -> UrlView {
        UrlView {
            scheme: self.scheme@,
            host: match self.host {
                Some(h) => Some(h@),
                None => None,
            },
            host_text: crate::text::text_option(self.host_text),
            port: self.port,
            known_port: self.known_port,
        }
    }
}

pub open spec fn url_result(r: Result<UrlParts, String>) -> Result<UrlView, Seq<char>> {
    match r {
        Ok(p) => Ok(p@),
        Err(e) => Err(e@),
    }
}

/// What parsing a text as an absolute URL gives: its parts, or the parser's reason against it.
pub uninterp spec fn parsed_url(text: Seq<char>) -> Result<UrlView, Seq<char>>;

/// Calls `url::Url::parse` and reads the result through `scheme`, `host`, `host_str`, `port` and
/// `port_or_known_default`: each depends on the text alone.
#[verifier::external_body]
pub(crate) fn parse_url(text: &str) -> (r: Result<UrlParts, String>)
    ensures
        url_result(r) == parsed_url(text@),
{
    let url = url::Url::parse(text).map_err(|error| error.to_string())?;
    let host = match url.host() {
        Some(url::Host::Ipv4(a)) => Some(UrlHost::V4 { bits: a.to_bits(), text: a.to_string() }),
        Some(url::Host::Ipv6(a)) => Some(UrlHost::V6 { wide: a.to_bits(), text: a.to_string() }),
        Some(url::Host::Domain(name)) => Some(UrlHost::Domain { name: name.to_owned() }),
        None => None,
    };
    let host_text = url.host_str().map(str::to_owned);
    let known_port = url.port_or_known_default();
    Ok(UrlParts { scheme: url.scheme().to_owned(), host, host_text, port: url.port(), known_port })
}

/// A host as it stands before a port: an IPv6 address in brackets.
pub open spec fn bracketed(h: HostView) -> Seq<char> {
    match h {
        HostView::V4 { bits, text } => text,
        HostView::V6 { wide, text } => "["@ + text + "]"@,
        HostView::Domain { name } => name,
    }
}

pub(crate) fn bracketed_text(h: &UrlHost) -> (r: String)
    ensures
        r@ == bracketed(h@),
{
    match h {
        UrlHost::V4 { bits: _, text } => text.as_str().to_owned(),
        UrlHost::V6 { wide: _, text } => joined3("[", text.as_str(), "]"),
        UrlHost::Domain { name } => name.as_str().to_owned(),
    }
}

/// Whether a host is the local machine: an IPv4 address under 127, the IPv6 address `::1`, or the
/// name `localhost` in any letter case.
pub open spec fn is_loopback(h: HostView) -> bool {
    match h {
        HostView::V4 { bits, text } => 0x7f00_0000 <= bits <= 0x7fff_ffff,
        HostView::V6 { wide, text } => wide == 1,
        HostView::Domain { name } => same_letters(name, "localhost"@),
    }
}

/// A scalar with an ASCII uppercase letter made lowercase.
pub open spec fn lowered(c: char) -> char {
    if 'A' <= c && c <= 'Z' {
        (c as u32 + 32) as char
    } else {
        c
    }
}

/// Whether two texts differ at most in the case of ASCII letters.
pub open spec fn same_letters(a: Seq<char>, b: Seq<char>) -> bool {
    a.len() == b.len() && forall|i: int|
        0 <= i < a.len() ==> lowered(#[trigger] a[i]) == lowered(b[i])
}

pub(crate) fn lower(c: char) -> (r: char)
    ensures
        r == lowered(c),
{
    if 'A' <= c && c <= 'Z' {
        let n: u8 = c as u8;
        (n + 32) as char
    } else {
        c
    }
}

pub fn eq_ignore_case(a: &str, b: &str) -> (r: bool)
    ensures
        r == same_letters(a@, b@),
{
    let x: Vec<char> = crate::text::chars_of(a);
    let y: Vec<char> = crate::text::chars_of(b);
    if x.len() != y.len() {
        return false;
    }
    let mut i: usize = 0;
    while i < x.len()
        invariant
            i <= x.len(),
            x.len() == y.len(),
            x@ == a@,
            y@ == b@,
            forall|j: int| 0 <= j < i ==> lowered(#[trigger] a@[j]) == lowered(b@[j]),
        decreases x.len() - i,
    {
        if lower(x[i]) != lower(y[i]) {
            return false;
        }
        i = i + 1;
    }
    true
}

pub fn loopback(h: &UrlHost) -> (r: bool)
    ensures
        r == is_loopback(h@),
{
    match h {
        UrlHost::V4 { bits, text: _ } => 0x7f00_0000 <= *bits && *bits <= 0x7fff_ffff,
        UrlHost::V6 { wide, text: _ } => *wide == 1,
        UrlHost::Domain { name } => eq_ignore_case(name.as_str(), "localhost"),
    }
}

pub open spec fn port_text(port: u16) -> Seq<char> {
    crate::text::decimal(port as nat)
}

/// The network destination of an origin's parts: `host:port`, or why there is none.
pub open spec fn destination_of(url: Result<UrlView, Seq<char>>) -> Result<Seq<char>, Seq<char>> {
    match url {
        Err(e) => Err(e),
        Ok(u) => match (u.host, u.known_port) {
            (None, _) => Err("model endpoint origin has no host"@),
            (Some(_), None) => Err("model endpoint origin has no port"@),
            (Some(h), Some(p)) => Ok(bracketed(h) + ":"@ + port_text(p)),
        },
    }
}

pub open spec fn checked_text(r: Checked<String>) -> Result<Seq<char>, Seq<char>> {
    match r {
        Ok(s) => Ok(s@),
        Err(f) => Err(f.message@),
    }
}

/// The destination of parsed parts.
pub fn destination(url: &Result<UrlParts, String>) -> (r: Checked<String>)
    ensures
        checked_text(r) == destination_of(url_result(*url)),
{
    match url {
        Err(e) => Err(failure(e.as_str())),
        Ok(u) => match &u.host {
            None => Err(failure("model endpoint origin has no host")),
            Some(h) => match u.known_port {
                None => Err(failure("model endpoint origin has no port")),
                Some(p) => Ok(
                    joined3(bracketed_text(h).as_str(), ":", number_text(p as u64).as_str()),
                ),
            },
        },
    }
}

/// The destination of a model profile's endpoint origin.
pub fn profile_destination(origin: &str) -> (r: Checked<String>)
    ensures
        checked_text(r) == destination_of(parsed_url(origin@)),
{
    destination(&parse_url(origin))
}

/// The network destination by the host's own text: `host:port`, with the given reasons against it.
pub open spec fn host_port_of(
    url: Result<UrlView, Seq<char>>,
    no_host: Seq<char>,
    no_port: Seq<char>,
) -> Result<Seq<char>, Seq<char>> {
    match url {
        Err(e) => Err(e),
        Ok(u) => match (u.host_text, u.known_port) {
            (None, _) => Err(no_host),
            (Some(_), None) => Err(no_port),
            (Some(h), Some(p)) => Ok(h + ":"@ + port_text(p)),
        },
    }
}

pub fn host_port(url: &Result<UrlParts, String>, no_host: &str, no_port: &str) -> (r: Checked<
    String,
>)
    ensures
        checked_text(r) == host_port_of(url_result(*url), no_host@, no_port@),
{
    match url {
        Err(e) => Err(failure(e.as_str())),
        Ok(u) => match &u.host_text {
            None => Err(failure(no_host)),
            Some(h) => match u.known_port {
                None => Err(failure(no_port)),
                Some(p) => Ok(joined3(h.as_str(), ":", number_text(p as u64).as_str())),
            },
        },
    }
}

/// The destination of a base URL by the host's own text.
pub fn model_destination(base_url: &str) -> (r: Checked<String>)
    ensures
        checked_text(r) == host_port_of(
            parsed_url(base_url@),
            "model host absent"@,
            "model port absent"@,
        ),
{
    host_port(&parse_url(base_url), "model host absent", "model port absent")
}

} // verus!
