//! The rules of local-model evidence: its mode, its profiles, its secrets and what it observes.

use vstd::prelude::*;

use crate::application::{required_text, under_keys};
use crate::endpoint::{
    bracketed, bracketed_text, is_loopback, loopback, parse_url, parsed_url, port_text, url_result,
    UrlParts, UrlView,
};
use crate::failure::{ensure, failed, failure, Checked};
use crate::json::{at, items, unsigned_at, Json, Tree};
use crate::text::{divided, joined, joined3, listed, number_text, same_text, split_once, texts};

verus! {

/// Which endpoint the lane enters.
#[derive(Clone, Copy, PartialEq, Eq, Structural)]
pub enum Mode {
    Deterministic,
    OperatorRealEndpoint,
}

impl Mode {
    pub fn name(self) -> (r: &'static str)
        ensures
            r@ == (match self {
                Mode::Deterministic => "deterministic"@,
                Mode::OperatorRealEndpoint => "operator_real_endpoint"@,
            }),
    {
        match self {
            Mode::Deterministic => "deterministic",
            Mode::OperatorRealEndpoint => "operator_real_endpoint",
        }
    }
}

pub open spec fn source_view(r: Checked<(String, String)>) -> Result<
    (Seq<char>, Seq<char>),
    Seq<char>,
> {
    match r {
        Ok((reference, path)) => Ok((reference@, path@)),
        Err(e) => Err(e.message@),
    }
}

/// A secret source: `REFERENCE=FILE`, neither part empty.
pub open spec fn secret_source_of(value: Seq<char>) -> Result<(Seq<char>, Seq<char>), Seq<char>> {
    match divided(value, '=') {
        None => Err("secret source must be REFERENCE=FILE"@),
        Some((reference, path)) => if reference.len() == 0 || path.len() == 0 {
            Err("secret source must contain a nonempty reference and file"@)
        } else {
            Ok((reference, path))
        },
    }
}

pub fn parse_secret_source(value: &str) -> (r: Checked<(String, String)>)
    ensures
        source_view(r) == secret_source_of(value@),
{
    match split_once(value, '=') {
        None => Err(failure("secret source must be REFERENCE=FILE")),
        Some((reference, path)) => {
            ensure(
                !reference.as_str().is_empty() && !path.as_str().is_empty(),
                "secret source must contain a nonempty reference and file",
            )?;
            Ok((reference, path))
        },
    }
}

/// Whether a mode agrees with what else was given: the deterministic one takes neither a profile nor
/// a secret, and a real one never falls back.
pub fn validate_mode(mode: Mode, has_profile: bool, secret_sources: usize) -> (r: Checked<()>)
    ensures
        match mode {
            Mode::Deterministic => if !has_profile && secret_sources == 0 {
                r is Ok
            } else {
                failed(r, "deterministic mode rejects real profile and secret arguments"@)
            },
            Mode::OperatorRealEndpoint => if has_profile {
                r is Ok
            } else {
                failed(
                    r,
                    "operator real-endpoint mode requires --model-profile and never falls back"@,
                )
            },
        },
{
    match mode {
        Mode::Deterministic => ensure(
            !has_profile && secret_sources == 0,
            "deterministic mode rejects real profile and secret arguments",
        ),
        Mode::OperatorRealEndpoint => ensure(
            has_profile,
            "operator real-endpoint mode requires --model-profile and never falls back",
        ),
    }
}

/// Whether a required path leads to a file.
pub fn require_file(is_file: bool, label: &str) -> (r: Checked<()>)
    ensures
        r is Ok <==> is_file,
        !is_file ==> failed(r, "required "@ + label@ + " path is not a file"@),
{
    ensure(is_file, joined3("required ", label, " path is not a file").as_str())
}

/// What the lane reads of a model profile.
pub struct ModelFacts {
    pub profile_id: String,
    pub revision: u64,
    pub protocol: String,
    pub model_alias: String,
    pub endpoint_origin: String,
    pub streaming: bool,
    pub secret: Option<String>,
}

pub struct FactsView {
    pub profile_id: Seq<char>,
    pub revision: u64,
    pub protocol: Seq<char>,
    pub model_alias: Seq<char>,
    pub endpoint_origin: Seq<char>,
    pub streaming: bool,
    pub secret: Option<Seq<char>>,
}

impl View for ModelFacts {
    type V = FactsView;

    open spec fn view(&self) -> FactsView {
        FactsView {
            profile_id: self.profile_id@,
            revision: self.revision,
            protocol: self.protocol@,
            model_alias: self.model_alias@,
            endpoint_origin: self.endpoint_origin@,
            streaming: self.streaming,
            secret: crate::text::text_option(self.secret),
        }
    }
}

pub open spec fn facts_result(r: Checked<ModelFacts>) -> Result<FactsView, Seq<char>> {
    match r {
        Ok(f) => Ok(f@),
        Err(e) => Err(e.message@),
    }
}

/// A text under one key, or the reason against it.
pub open spec fn text_under(t: Tree, path: Seq<&str>) -> Result<Seq<char>, Seq<char>> {
    match under_keys(t, path) {
        None => Err("JSON field is absent"@),
        Some(Tree::Text(s)) => Ok(s),
        Some(_) => Err("JSON field is not text"@),
    }
}

/// The origin of an endpoint: its scheme, its host and its stated port.
pub open spec fn origin_of(u: UrlView) -> Seq<char> {
    u.scheme + "://"@ + bracketed(u.host->Some_0) + (match u.port {
        Some(p) => ":"@ + port_text(p),
        None => ""@,
    })
}

pub open spec fn lists_streaming(features: Seq<Tree>) -> bool {
    features.contains(Tree::Text("streaming"@))
}

/// The facts of a profile document whose endpoint was parsed.
pub open spec fn facts_of(profile_id: Seq<char>, value: Tree, url: Result<UrlView, Seq<char>>) -> Result<
    FactsView,
    Seq<char>,
> {
    match url {
        Err(e) => Err(e),
        Ok(u) => if u.host is None {
            Err("model profile endpoint has no host"@)
        } else if !(at(value, "features"@) is List) {
            Err("model profile features are absent"@)
        } else {
            match unsigned_at(value, "revision"@) {
                None => Err("model profile revision is absent"@),
                Some(revision) => match text_under(value, seq!["protocol", "type"]) {
                    Err(e) => Err(e),
                    Ok(protocol) => match text_under(value, seq!["model"]) {
                        Err(e) => Err(e),
                        Ok(model_alias) => Ok(
                            FactsView {
                                profile_id,
                                revision,
                                protocol,
                                model_alias,
                                endpoint_origin: origin_of(u),
                                streaming: lists_streaming(items(value, "features"@)),
                                secret: match at(value, "auth,secret"@) {
                                    Tree::Text(t) => Some(t),
                                    _ => None,
                                },
                            },
                        ),
                    },
                },
            }
        },
    }
}

fn has_streaming(value: &Json) -> (r: bool)
    requires
        at(value@, "features"@) is List,
    ensures
        r == lists_streaming(items(value@, "features"@)),
{
    let ghost all = items(value@, "features"@);
    let n: usize = value.count("features");
    let mut i: usize = 0;
    proof {
        assert forall|t: Tree| #[trigger] at(t, ""@) == t by {
            crate::json::lemma_root(t);
        }
    }
    while i < n
        invariant
            i <= n,
            n == all.len(),
            all == items(value@, "features"@),
            at(value@, "features"@) is List,
            forall|t: Tree| #[trigger] at(t, ""@) == t,
            forall|j: int| 0 <= j < i ==> all[j] != Tree::Text("streaming"@),
        decreases n - i,
    {
        if value.item("features", i).is_text("", "streaming") {
            proof {
                assert(at(all[i as int], ""@) == all[i as int]);
                assert(all.contains(Tree::Text("streaming"@)));
            }
            return true;
        }
        proof {
            assert(at(all[i as int], ""@) == all[i as int]);
        }
        i = i + 1;
    }
    false
}

/// The facts of a profile document, with its endpoint already parsed.
pub fn profile_facts(profile_id: &str, value: &Json, url: &Result<UrlParts, String>) -> (r: Checked<
    ModelFacts,
>)
    ensures
        facts_result(r) == facts_of(profile_id@, value@, url_result(*url)),
{
    let u: &UrlParts = match url {
        Ok(u) => u,
        Err(e) => {
            return Err(failure(e.as_str()));
        },
    };
    let host: String = match &u.host {
        Some(h) => bracketed_text(h),
        None => {
            return Err(failure("model profile endpoint has no host"));
        },
    };
    let port: String = match u.port {
        Some(p) => joined(":", number_text(p as u64).as_str()),
        None => "".to_owned(),
    };
    ensure(value.is_list("features"), "model profile features are absent")?;
    let revision: u64 = match value.number_at("revision") {
        Some(n) => n,
        None => {
            return Err(failure("model profile revision is absent"));
        },
    };
    proof {
        assert(["protocol", "type"]@ =~= seq!["protocol", "type"]);
        assert(["model"]@ =~= seq!["model"]);
    }
    let protocol: String = required_text(value, &["protocol", "type"])?;
    let model_alias: String = required_text(value, &["model"])?;
    let origin: String = joined3(u.scheme.as_str(), "://", host.as_str());
    Ok(
        ModelFacts {
            profile_id: profile_id.to_owned(),
            revision,
            protocol,
            model_alias,
            endpoint_origin: joined(origin.as_str(), port.as_str()),
            streaming: has_streaming(value),
            secret: value.text_at("auth,secret"),
        },
    )
}

/// The facts of a profile document.
pub fn inspect_profile(profile_id: &str, value: &Json) -> (r: Checked<ModelFacts>)
    ensures
        match text_under(value@, seq!["base_url"]) {
            Err(e) => failed(r, e),
            Ok(base_url) => facts_result(r) == facts_of(
                profile_id@,
                value@,
                parsed_url(base_url),
            ),
        },
{
    proof {
        assert(["base_url"]@ =~= seq!["base_url"]);
    }
    let base_url: String = required_text(value, &["base_url"])?;
    profile_facts(profile_id, value, &parse_url(base_url.as_str()))
}

/// Whether a real profile stays on the local machine: loopback HTTP for development, and neither
/// redirects nor ambient proxies.
pub open spec fn stays_local(value: Tree, u: UrlView) -> bool {
    &&& u.scheme == "http"@
    &&& u.host matches Some(h) && is_loopback(h)
    &&& at(value, "local_development"@) == Tree::Bool(true)
    &&& at(value, "redirect"@) == Tree::Text("deny"@)
    &&& at(value, "proxy"@) == Tree::Text("disabled"@)
}

pub open spec fn local_result(
    value: Tree,
    url: Result<UrlView, Seq<char>>,
) -> Option<Seq<char>> {
    match url {
        Err(e) => Some(e),
        Ok(u) => if stays_local(value, u) {
            None
        } else {
            Some(
                "real local-model profile must use explicit loopback HTTP development policy with redirects and ambient proxies disabled"@,
            )
        },
    }
}

/// Whether a real profile with a parsed endpoint is admitted.
pub fn check_local(value: &Json, url: &Result<UrlParts, String>) -> (r: Checked<()>)
    ensures
        match local_result(value@, url_result(*url)) {
            None => r is Ok,
            Some(e) => failed(r, e),
        },
{
    match url {
        Err(e) => Err(failure(e.as_str())),
        Ok(u) => {
            let local: bool = match &u.host {
                Some(h) => loopback(h),
                None => false,
            };
            ensure(
                same_text(u.scheme.as_str(), "http") && local && value.is_flag(
                    "local_development",
                    true,
                ) && value.is_text("redirect", "deny") && value.is_text("proxy", "disabled"),
                "real local-model profile must use explicit loopback HTTP development policy with redirects and ambient proxies disabled",
            )
        },
    }
}

/// Whether a profile is admitted to the lane: only one mapping is, and a real endpoint has to stay
/// on the local machine.
pub fn validate_real_profile(mode: Mode, value: &Json, facts: &ModelFacts) -> (r: Checked<()>)
    ensures
        if facts.protocol@ != "open_ai_compatible"@ {
            failed(
                r,
                "local-model lane reuses only the OpenAI-compatible chat-completions mapping"@,
            )
        } else if mode == Mode::Deterministic {
            r is Ok
        } else {
            match text_under(value@, seq!["base_url"]) {
                Err(e) => failed(r, e),
                Ok(base_url) => match local_result(value@, parsed_url(base_url)) {
                    None => r is Ok,
                    Some(e) => failed(r, e),
                },
            }
        },
{
    ensure(
        same_text(facts.protocol.as_str(), "open_ai_compatible"),
        "local-model lane reuses only the OpenAI-compatible chat-completions mapping",
    )?;
    match mode {
        Mode::Deterministic => Ok(()),
        Mode::OperatorRealEndpoint => {
            proof {
                assert(["base_url"]@ =~= seq!["base_url"]);
            }
            let base_url: String = required_text(value, &["base_url"])?;
            check_local(value, &parse_url(base_url.as_str()))
        },
    }
}

/// The first reference that occurs before, from a position on.
pub open spec fn first_repeated(references: Seq<Seq<char>>, from: int) -> Option<Seq<char>>
    decreases references.len() - from,
{
    if from < 0 || from >= references.len() {
        None
    } else if references.take(from).contains(references[from]) {
        Some(references[from])
    } else {
        first_repeated(references, from + 1)
    }
}

/// Whether the given secret sources are distinct and cover what the profile needs.
pub fn check_secrets(references: &Vec<String>, facts: &ModelFacts) -> (r: Checked<()>)
    ensures
        match first_repeated(texts(references@), 0) {
            Some(reference) => failed(r, "duplicate secret source '"@ + reference + "'"@),
            None => if facts.secret matches Some(s) && !texts(references@).contains(s@) {
                failed(
                    r,
                    "real profile secret reference lacks an explicit --secret-source mapping"@,
                )
            } else {
                r is Ok
            },
        },
{
    let ghost all = texts(references@);
    let mut seen: Vec<String> = Vec::new();
    let mut i: usize = 0;
    proof {
        assert(texts(seen@) =~= all.take(0));
    }
    while i < references.len()
        invariant
            i <= references.len(),
            all == texts(references@),
            texts(seen@) == all.take(i as int),
            first_repeated(all, 0) == first_repeated(all, i as int),
        decreases references.len() - i,
    {
        proof {
            assert(all[i as int] == references@[i as int]@);
        }
        if listed(&seen, references[i].as_str()) {
            return Err(
                failure(
                    joined3("duplicate secret source '", references[i].as_str(), "'").as_str(),
                ),
            );
        }
        let next: String = references[i].as_str().to_owned();
        proof {
            crate::text::lemma_texts_push(seen@, next);
            assert(all.take(i + 1) =~= all.take(i as int).push(next@));
        }
        seen.push(next);
        i = i + 1;
    }
    let covered: bool = match &facts.secret {
        Some(reference) => listed(references, reference.as_str()),
        None => true,
    };
    ensure(
        covered,
        "real profile secret reference lacks an explicit --secret-source mapping",
    )
}

/// What a clean attempt let one see.
pub struct SuccessObservation {
    pub progress: u64,
    pub usage_input: bool,
    pub usage_output: bool,
    pub finish_reason: bool,
    pub response_identity: bool,
    pub artifacts: usize,
}

/// What an attempt shows, beside what its decoded response does.
pub fn observe_success(attempt: &Json, finish_reason: bool, response_identity: bool) -> (r:
    SuccessObservation)
    ensures
        r.progress == (match unsigned_at(attempt@, "progress_observations"@) {
            Some(n) => n,
            None => 0,
        }),
        r.usage_input == (unsigned_at(attempt@, "usage,input_units"@) is Some),
        r.usage_output == (unsigned_at(attempt@, "usage,output_units"@) is Some),
        r.finish_reason == finish_reason,
        r.response_identity == response_identity,
        r.artifacts == items(attempt@, "outputs"@).len(),
{
    let progress: u64 = match attempt.number_at("progress_observations") {
        Some(n) => n,
        None => 0,
    };
    SuccessObservation {
        progress,
        usage_input: attempt.number_at("usage,input_units").is_some(),
        usage_output: attempt.number_at("usage,output_units").is_some(),
        finish_reason,
        response_identity,
        artifacts: attempt.count("outputs"),
    }
}

/// The most bytes of a followed line.
pub const MAX_LINE_BYTES: u64 = 131072;

/// The most lines that wait to be observed.
pub const MAX_QUEUED_LINES: u64 = 64;

/// What becomes of one read of a followed timeline: its end, or a line to queue.
pub fn follow_line(read: u64, queued: u64) -> (r: Checked<bool>)
    ensures
        if read == 0 {
            r matches Ok(more) && !more
        } else if read > MAX_LINE_BYTES {
            failed(r, "timeline line exceeds bound"@)
        } else if queued >= MAX_QUEUED_LINES {
            failed(r, "timeline observation queue overflow"@)
        } else {
            r matches Ok(more) && more
        },
{
    if read == 0 {
        return Ok(false);
    }
    ensure(read <= MAX_LINE_BYTES, "timeline line exceeds bound")?;
    ensure(queued < MAX_QUEUED_LINES, "timeline observation queue overflow")?;
    Ok(true)
}

/// Whether a follower's first line is its bounded page.
pub fn check_initial_page(line: &str) -> (r: Checked<()>)
    ensures
        r is Ok <==> crate::text::occurs(line@, "run.timeline"@),
        !crate::text::occurs(line@, "run.timeline"@) ==> failed(
            r,
            "timeline follower did not establish its bounded initial page"@,
        ),
{
    ensure(
        crate::text::contains(line, "run.timeline"),
        "timeline follower did not establish its bounded initial page",
    )
}

} // verus!
