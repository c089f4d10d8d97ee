//! The endpoints of models: where they lead and which of them are local.

use vstd::prelude::*;

use crate::endpoint::{
    destination, eq_ignore_case, host_port, lowered, HostView, UrlParts,
};
use crate::failure::{failed, Checked};
use crate::json::{at, items, Json, Tree};
use crate::local_model::{check_local, profile_facts, require_file, Mode, ModelFacts};
use crate::review::{accept_endpoint, check_untracked, decision_document, identities};
use crate::text::{decimal, split_at_char, trimmed};

verus! {

/// Two texts are the same but for the case of ASCII letters exactly where each pair of characters
/// is.
pub proof fn letters_are_compared_without_case(a: &str, b: &str, r: bool)
    requires
        call_ensures(eq_ignore_case, (a, b), r),
    ensures
        r <==> a@.len() == b@.len() && forall|i: int|
            #![trigger a@[i]]
            0 <= i < a@.len() ==> a@[i] == b@[i] || ('A' <= a@[i] && a@[i] <= 'Z' && b@[i] as u32
                == a@[i] as u32 + 32) || ('A' <= b@[i] && b@[i] <= 'Z' && a@[i] as u32 == b@[i] as u32
                + 32),
{
    if a@.len() == b@.len() {
        assert forall|i: int| 0 <= i < a@.len() implies (lowered(#[trigger] a@[i]) == lowered(b@[i])
            <==> (a@[i] == b@[i] || ('A' <= a@[i] && a@[i] <= 'Z' && b@[i] as u32 == a@[i] as u32
            + 32) || ('A' <= b@[i] && b@[i] <= 'Z' && a@[i] as u32 == b@[i] as u32 + 32))) by {
            lemma_case(a@[i], b@[i]);
        }
    }
}

proof fn lemma_case(a: char, b: char)
    ensures
        lowered(a) == lowered(b) <==> a == b || ('A' <= a && a <= 'Z' && b as u32 == a as u32 + 32)
            || ('A' <= b && b <= 'Z' && a as u32 == b as u32 + 32),
{
}

/// A destination is the host, a wide address in brackets, and the port.
pub proof fn destinations_have_host_and_port(url: &Result<UrlParts, String>, r: Checked<String>)
    requires
        call_ensures(destination, (url,), r),
    ensures
        *url matches Err(e) ==> failed(r, e@),
        *url matches Ok(u)
            ==> (u@.host is None ==> failed(r, "model endpoint origin has no host"@)),
        *url matches Ok(u) ==> (u@.host is Some && u@.known_port is None ==> failed(
            r,
            "model endpoint origin has no port"@,
        )),
        *url matches Ok(u) ==> (u@.host matches Some(h) ==> (u@.known_port matches Some(p) ==> (
        r matches Ok(t) && t@ == (match h {
            HostView::V4 { bits, text } => text,
            HostView::V6 { wide, text } => "["@ + text + "]"@,
            HostView::Domain { name } => name,
        }) + ":"@ + decimal(p as nat)))),
{
}

/// A host and its port are told as the address has them.
pub proof fn hosts_are_told_with_their_port(
    url: &Result<UrlParts, String>,
    no_host: &str,
    no_port: &str,
    r: Checked<String>,
)
    requires
        call_ensures(host_port, (url, no_host, no_port), r),
    ensures
        *url matches Err(e) ==> failed(r, e@),
        *url matches Ok(u) ==> (u@.host_text is None ==> failed(r, no_host@)),
        *url matches Ok(u) ==> (u@.host_text is Some && u@.known_port is None ==> failed(
            r,
            no_port@,
        )),
        *url matches Ok(u) ==> (u@.host_text matches Some(h) ==> (u@.known_port matches Some(p)
            ==> (r matches Ok(t) && t@ == h + ":"@ + decimal(p as nat)))),
{
}

/// A file has to be there.
pub proof fn files_are_required(is_file: bool, label: &str, r: Checked<()>)
    requires
        call_ensures(require_file, (is_file, label), r),
    ensures
        r is Ok <==> is_file,
        r is Err ==> failed(r, "required "@ + label@ + " path is not a file"@),
{
}

/// A mode is called by its name.
pub proof fn model_modes_are_named(mode: Mode, r: &'static str)
    requires
        call_ensures(Mode::name, (mode,), r),
    ensures
        mode == Mode::Deterministic ==> r@ == "deterministic"@,
        mode == Mode::OperatorRealEndpoint ==> r@ == "operator_real_endpoint"@,
{
}

/// A profile is local exactly where it goes over plain HTTP to this machine, says that it is for
/// development, and follows neither redirects nor proxies.
pub proof fn local_profiles_stay_here(value: &Json, url: &Result<UrlParts, String>, r: Checked<()>)
    requires
        call_ensures(check_local, (value, url), r),
    ensures
        *url matches Err(e) ==> failed(r, e@),
        *url matches Ok(u) ==> (r is Ok <==> u@.scheme == "http"@ && (u@.host matches Some(h) && (
        match h {
            HostView::V4 { bits, text } => 0x7f00_0000 <= bits <= 0x7fff_ffff,
            HostView::V6 { wide, text } => wide == 1,
            HostView::Domain { name } => crate::endpoint::same_letters(name, "localhost"@),
        })) && at(value@, "local_development"@) == Tree::Bool(true) && at(value@, "redirect"@)
            == Tree::Text("deny"@) && at(value@, "proxy"@) == Tree::Text("disabled"@)),
{
}

/// What is known of a profile: its identity, its revision, its model, whether it streams, and the
/// secret it needs, where it needs one.
pub proof fn profiles_are_known(
    profile_id: &str,
    value: &Json,
    url: &Result<UrlParts, String>,
    r: Checked<ModelFacts>,
)
    requires
        call_ensures(profile_facts, (profile_id, value, url), r),
    ensures
        r matches Ok(f) ==> {
            let facts = f@;
            &&& *url matches Ok(u) && u@.host is Some
            &&& facts.profile_id == profile_id@
            &&& at(value@, "revision"@) == Tree::Integer(facts.revision as int)
            &&& facts.streaming <==> items(value@, "features"@).contains(Tree::Text("streaming"@))
            &&& at(value@, "auth,secret"@) matches Tree::Text(t) ==> facts.secret == Some(t)
            &&& !(at(value@, "auth,secret"@) is Text) ==> facts.secret is None
        },
        *url matches Ok(u) ==> (u@.host is None ==> failed(
            r,
            "model profile endpoint has no host"@,
        )),
{
}

/// An endpoint is approved exactly where its host is one of two names of this machine and it takes
/// no credential.
pub proof fn approved_endpoints_are_here(
    profile: &Json,
    url: &Result<UrlParts, String>,
    r: Checked<()>,
)
    requires
        call_ensures(accept_endpoint, (profile, url), r),
    ensures
        *url matches Err(e) ==> failed(r, e@),
        *url matches Ok(u) ==> (r is Ok <==> (u@.host_text == Some("127.0.0.1"@) || u@.host_text
            == Some("localhost"@)) && at(profile@, "auth,type"@) == Tree::Text("no_auth"@)),
{
}

/// A decision is the text without the blanks around it, and without a fence of the JSON kind.
pub proof fn decisions_are_unfenced(text: &str, inner: Seq<char>, r: String)
    requires
        call_ensures(decision_document, (text,), r),
    ensures
        trimmed(text@) == "```json\n"@ + inner + "\n```"@ ==> r@ == inner,
        !"```json\n"@.is_prefix_of(trimmed(text@)) ==> r@ == trimmed(text@),
{
    let t = trimmed(text@);
    if t == "```json\n"@ + inner + "\n```"@ {
        let head = "```json\n"@;
        let tail = "\n```"@;
        assert(head =~= t.take(head.len() as int));
        let body = t.skip(head.len() as int);
        assert(body =~= inner + tail);
        assert(tail =~= body.subrange(body.len() - tail.len(), body.len() as int));
        assert(body.take(body.len() - tail.len()) =~= inner);
    }
}

/// A source is told with its head, its difference and its new files.
pub proof fn sources_are_identified(
    binaries: Json,
    head: &str,
    diff_digest: &str,
    new_files: Json,
    r: Json,
)
    requires
        call_ensures(identities, (binaries, head, diff_digest, new_files), r),
    ensures
        r@ == Tree::Object(
            map![
                "binaries"@ => binaries@,
                "source_head"@ => Tree::Text(trimmed(head@)),
                "tracked_source_diff"@ => Tree::Text(diff_digest@),
                "new_source_files"@ => new_files@,
            ],
        ),
{
}

/// An untracked file is in the repository exactly where its path is relative, does not climb and
/// does not start with a dot.
pub proof fn untracked_files_are_in_the_repository(path: &str, climbing: bool, r: Checked<()>)
    requires
        call_ensures(crate::paths::has_parent_step, (path,), climbing),
        call_ensures(check_untracked, (path,), r),
    ensures
        r is Ok <==> !(path@.len() > 0 && path@[0] == '/') && !climbing && split_at_char(
            path@,
            '/',
        )[0] != "."@,
        r is Err ==> failed(r, "source path is not repository relative"@),
{
}

} // verus!
