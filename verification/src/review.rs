//! The model review of the controller: who may review, and which decision authorizes the repair.

use vstd::prelude::*;
use vstd::utf8::encode_utf8;

use crate::application::{document_result, required_text};
use crate::endpoint::{parse_url, parsed_url, url_result, UrlParts, UrlView};
use crate::failure::{ensure, failed, failure, Checked};
use crate::json::{at, found, found_paths_take, items, placed, segments, unsigned_at, Json, Tree};
use crate::local_model::text_under;
use crate::paths::{climbs, has_parent_step, is_absolute};
use crate::text::{
    after_prefix, before_suffix, same_text, split, split_at_char, strip_prefix, strip_suffix, texts,
    trim, trimmed,
};

verus! {

/// Whether a path names something below the repository: it is relative, and none of its components
/// is the directory itself or its parent.
pub open spec fn repository_relative(path: Seq<char>) -> bool {
    !is_absolute(path) && !climbs(path) && split_at_char(path, '/')[0] != "."@
}

/// Whether a new source file can be kept with the evidence.
pub fn check_untracked(path: &str) -> (r: Checked<()>)
    ensures
        r is Ok <==> repository_relative(path@),
        !repository_relative(path@) ==> failed(r, "source path is not repository relative"@),
{
    let pieces: Vec<String> = split(path, '/');
    let own: bool = if pieces.len() > 0 {
        proof {
            assert(texts(pieces@)[0] == pieces@[0]@);
        }
        same_text(pieces[0].as_str(), ".")
    } else {
        proof {
            assert(split_at_char(path@, '/').len() > 0);
        }
        false
    };
    ensure(
        !crate::paths::absolute(path) && !has_parent_step(path) && !own,
        "source path is not repository relative",
    )
}

/// What identifies the tested source and its binaries.
pub fn identities(binaries: Json, head: &str, diff_digest: &str, new_files: Json) -> (r: Json)
    ensures
        r@ == Tree::Object(
            map![
                "binaries"@ => binaries@,
                "source_head"@ => Tree::Text(trimmed(head@)),
                "tracked_source_diff"@ => Tree::Text(diff_digest@),
                "new_source_files"@ => new_files@,
            ],
        ),
{
    Json::object().with("binaries", binaries).with(
        "source_head",
        Json::text(trim(head).as_str()),
    ).with("tracked_source_diff", Json::text(diff_digest)).with("new_source_files", new_files)
}

/// Whether an argument occurs.
pub open spec fn has_argument(argv: Seq<Tree>, argument: Seq<char>) -> bool {
    argv.contains(Tree::Text(argument))
}

/// Whether one argument follows another.
pub open spec fn has_option(argv: Seq<Tree>, option: Seq<char>, value: Seq<char>) -> bool {
    exists|i: int|
        #![trigger argv[i]]
        0 <= i < argv.len() - 1 && argv[i] == Tree::Text(option) && argv[i + 1] == Tree::Text(value)
}

/// Whether a profile is the approved local agent: it needs no secret, and it names the local
/// provider.
pub open spec fn agent_problem(value: Tree) -> Option<Seq<char>> {
    if !(at(value, "profile,environment,secrets"@) matches Tree::Object(m) && m.dom()
        =~= Set::empty()) {
        Some("local controller agent profile must not require a cloud credential"@)
    } else if !(at(value, "profile,arguments"@) is List) {
        Some("agent arguments absent"@)
    } else if !(has_argument(items(value, "profile,arguments"@), "--oss"@) && has_option(
        items(value, "profile,arguments"@),
        "--local-provider"@,
        "lmstudio"@,
    )) {
        Some("real controller lane requires the approved local Codex/LM Studio profile"@)
    } else {
        None
    }
}

fn is_argument(value: &Json, i: usize, argument: &str) -> (r: bool)
    requires
        at(value@, "profile,arguments"@) is List,
        i < items(value@, "profile,arguments"@).len(),
    ensures
        r == (items(value@, "profile,arguments"@)[i as int] == Tree::Text(argument@)),
{
    proof {
        crate::json::lemma_root(items(value@, "profile,arguments"@)[i as int]);
    }
    value.item("profile,arguments", i).is_text("", argument)
}

fn names_local_provider(value: &Json) -> (r: bool)
    requires
        at(value@, "profile,arguments"@) is List,
    ensures
        r == (has_argument(items(value@, "profile,arguments"@), "--oss"@) && has_option(
            items(value@, "profile,arguments"@),
            "--local-provider"@,
            "lmstudio"@,
        )),
{
    let ghost argv = items(value@, "profile,arguments"@);
    let n: usize = value.count("profile,arguments");
    let mut oss: bool = false;
    let mut provider: bool = false;
    let mut i: usize = 0;
    while i < n
        invariant
            i <= n,
            n == argv.len(),
            argv == items(value@, "profile,arguments"@),
            at(value@, "profile,arguments"@) is List,
            oss <==> exists|j: int| 0 <= j < i && argv[j] == Tree::Text("--oss"@),
            provider <==> exists|j: int|
                #![trigger argv[j]]
                0 <= j < i && j < argv.len() - 1 && argv[j] == Tree::Text("--local-provider"@)
                    && argv[j + 1] == Tree::Text("lmstudio"@),
        decreases n - i,
    {
        if is_argument(value, i, "--oss") {
            oss = true;
        }
        if i + 1 < n && is_argument(value, i, "--local-provider") && is_argument(
            value,
            i + 1,
            "lmstudio",
        ) {
            provider = true;
        }
        i = i + 1;
    }
    oss && provider
}

pub fn check_agent(value: &Json) -> (r: Checked<()>)
    ensures
        match agent_problem(value@) {
            None => r is Ok,
            Some(e) => failed(r, e),
        },
{
    let no_secret: bool = match value.find("profile,environment,secrets") {
        Some(secrets) => match secrets {
            Json::Object(v) => {
                proof {
                    if v.len() == 0 {
                        assert(crate::json::entries(v@).dom() =~= Set::empty());
                    } else {
                        assert(crate::json::entries(v@).contains_key(v@.last().0@));
                    }
                }
                v.len() == 0
            },
            _ => false,
        },
        None => false,
    };
    ensure(
        no_secret,
        "local controller agent profile must not require a cloud credential",
    )?;
    ensure(value.is_list("profile,arguments"), "agent arguments absent")?;
    ensure(
        names_local_provider(value),
        "real controller lane requires the approved local Codex/LM Studio profile",
    )
}

/// Whether a reviewing model's endpoint is the approved one: a loopback host without authentication.
pub open spec fn endpoint_problem(profile: Tree, url: Result<UrlView, Seq<char>>) -> Option<
    Seq<char>,
> {
    match url {
        Err(e) => Some(e),
        Ok(u) => if u.host_text != Some("127.0.0.1"@) && u.host_text != Some("localhost"@) {
            Some("controller real review requires the approved loopback endpoint"@)
        } else if at(profile, "auth,type"@) != Tree::Text("no_auth"@) {
            Some("this local scenario requires the explicitly approved no-auth endpoint"@)
        } else {
            None
        },
    }
}

/// The endpoint rule on a parsed endpoint.
pub fn accept_endpoint(profile: &Json, url: &Result<UrlParts, String>) -> (r: Checked<()>)
    ensures
        match endpoint_problem(profile@, url_result(*url)) {
            None => r is Ok,
            Some(e) => failed(r, e),
        },
{
    match url {
        Err(e) => Err(failure(e.as_str())),
        Ok(u) => {
            let approved: bool = match &u.host_text {
                Some(h) => same_text(h.as_str(), "127.0.0.1") || same_text(h.as_str(), "localhost"),
                None => false,
            };
            ensure(
                approved,
                "controller real review requires the approved loopback endpoint",
            )?;
            ensure(
                profile.is_text("auth,type", "no_auth"),
                "this local scenario requires the explicitly approved no-auth endpoint",
            )
        },
    }
}

pub fn check_endpoint(profile: &Json) -> (r: Checked<()>)
    ensures
        match text_under(profile@, seq!["base_url"]) {
            Err(e) => failed(r, e),
            Ok(base_url) => match endpoint_problem(profile@, parsed_url(base_url)) {
                None => r is Ok,
                Some(e) => failed(r, e),
            },
        },
{
    proof {
        assert(["base_url"]@ =~= seq!["base_url"]);
    }
    let base_url: String = required_text(profile, &["base_url"])?;
    accept_endpoint(profile, &parse_url(base_url.as_str()))
}

/// Whether a reviewing model costs nothing by its own declaration.
pub fn check_billing(profile: &Json) -> (r: Checked<()>)
    ensures
        if at(profile@, "billing,type"@) == Tree::Text("unbilled"@) {
            r is Ok
        } else {
            failed(r, "the zero-spend scenario requires an explicit unbilled declaration"@)
        },
{
    ensure(
        profile.is_text("billing,type", "unbilled"),
        "the zero-spend scenario requires an explicit unbilled declaration",
    )
}

/// The most bytes of a server's stated facts.
pub const MAX_FACTS_BYTES: u64 = 262144;

/// Whether a server's facts are about the reviewing model, and tell what was inspected from what was
/// declared and what is unknown.
pub open spec fn facts_match(facts: Tree, profile: Tree) -> bool {
    &&& at(facts, "model"@) == at(profile, "model"@)
    &&& at(facts, "base_url"@) == at(profile, "base_url"@)
    &&& at(facts, "inspected"@) is Object
    &&& at(facts, "operator_declared"@) is Object
    &&& at(facts, "unknown"@) is List
}

pub fn accept_facts_size(size: u64) -> (r: Checked<()>)
    ensures
        r is Ok <==> size <= MAX_FACTS_BYTES,
        size > MAX_FACTS_BYTES ==> failed(r, "server facts exceed 256 KiB"@),
{
    ensure(size <= MAX_FACTS_BYTES, "server facts exceed 256 KiB")
}

pub fn check_facts(facts: &Json, profile: &Json) -> (r: Checked<()>)
    ensures
        r is Ok <==> facts_match(facts@, profile@),
        !facts_match(facts@, profile@) ==> failed(
            r,
            "server facts must match the profile and separate inspected, declared and unknown facts"@,
        ),
{
    ensure(
        facts.get("model").same(&profile.get("model")) && facts.get("base_url").same(
            &profile.get("base_url"),
        ) && facts.is_object("inspected") && facts.is_object("operator_declared") && facts.is_list(
            "unknown",
        ),
        "server facts must match the profile and separate inspected, declared and unknown facts",
    )
}

/// A network scope with the reviewing model's profile and destination beside what it had.
pub fn extend_network(network: Json, identity: &str, destination: &str) -> (r: Checked<Json>)
    ensures
        match (at(network@, "profiles"@), at(network@, "destinations"@)) {
            (Tree::List(p), Tree::List(d)) => document_result(r) == Ok::<Tree, Seq<char>>(
                placed(
                    placed(
                        network@,
                        segments("profiles"@),
                        Tree::List(p.push(Tree::Text(identity@))),
                    ),
                    segments("destinations"@),
                    Tree::List(d.push(Tree::Text(destination@))),
                ),
            ),
            (Tree::List(_), _) => failed(r, "network destinations missing"@),
            _ => failed(r, "network profiles missing"@),
        },
{
    ensure(network.is_list("profiles"), "network profiles missing")?;
    ensure(network.is_list("destinations"), "network destinations missing")?;
    let profiles: Json = network.get("profiles").and(Json::text(identity));
    let destinations: Json = network.get("destinations").and(Json::text(destination));
    proof {
        reveal(found);
        found_paths_take(network@, segments("profiles"@));
        found_paths_take(network@, segments("destinations"@));
        lemma_still_takes(network@, profiles@);
    }
    Ok(network.set("profiles", profiles).set("destinations", destinations))
}

proof fn lemma_still_takes(network: Tree, profiles: Tree)
    requires
        at(network, "profiles"@) is List,
        at(network, "destinations"@) is List,
    ensures
        crate::json::takes(
            placed(network, segments("profiles"@), profiles),
            segments("destinations"@),
        ),
{
    reveal(found);
    reveal_strlit("profiles");
    reveal_strlit("destinations");
    crate::json::lemma_single_segment("profiles"@);
    crate::json::lemma_single_segment("destinations"@);
    assert("profiles"@.len() != "destinations"@.len());
    let after = placed(network, segments("profiles"@), profiles);
    if network is List {
        crate::json::lemma_word_is_no_position("profiles"@, network->List_0.len() as int);
    }
    assert(after is Object);
    reveal_with_fuel(crate::json::takes, 2);
}

/// What a review answers with: the decision and its reason.
pub struct Decision {
    pub repair: String,
    pub reason: String,
}

/// The document of a reviewing model's text: the text itself, or what stands in its one JSON fence.
pub open spec fn document_text(text: Seq<char>) -> Seq<char> {
    let t = trimmed(text);
    match after_prefix(t, "```json\n"@) {
        Some(body) => match before_suffix(body, "\n```"@) {
            Some(inner) => inner,
            None => t,
        },
        None => t,
    }
}

pub fn decision_document(text: &str) -> (r: String)
    ensures
        r@ == document_text(text@),
{
    let t: String = trim(text);
    match strip_prefix(t.as_str(), "```json\n") {
        Some(body) => match strip_suffix(body.as_str(), "\n```") {
            Some(inner) => inner,
            None => t,
        },
        None => t,
    }
}

/// Whether a decision authorizes the supported repair: it names it exactly and gives a reason of
/// bounded length.
pub open spec fn authorizes(repair: Seq<char>, reason: Seq<char>) -> bool {
    repair == "approved_repair"@ && trimmed(reason).len() > 0 && encode_utf8(reason).len() <= 2048
}

/// Whether a read decision authorizes the repair; a text that holds no decision never does.
pub fn approves_repair(decision: &Option<Decision>) -> (r: bool)
    ensures
        r == (match decision {
            Some(d) => authorizes(d.repair@, d.reason@),
            None => false,
        }),
{
    match decision {
        Some(d) => {
            let reason: String = trim(d.reason.as_str());
            same_text(d.repair.as_str(), "approved_repair") && !reason.as_str().is_empty()
                && d.reason.as_str().as_bytes().len() <= 2048
        },
        None => false,
    }
}

/// Whether a finished review can be used.
pub fn accept_review(body: &Json, decision: &Option<Decision>, attempt: &Json) -> (r: Checked<()>)
    ensures
        if at(body@, "finish_reason"@) != Tree::Text("stop"@) {
            failed(r, "controller review did not finish usefully"@)
        } else if !(match decision {
            Some(d) => authorizes(d.repair@, d.reason@),
            None => false,
        }) {
            failed(r, "untrusted model decision does not authorize the supported repair"@)
        } else if unsigned_at(attempt@, "value,usage,input_units"@) is None || unsigned_at(
            attempt@,
            "value,usage,output_units"@,
        ) is None {
            failed(r, "model usage missing"@)
        } else {
            r is Ok
        },
{
    ensure(
        body.is_text("finish_reason", "stop"),
        "controller review did not finish usefully",
    )?;
    ensure(
        approves_repair(decision),
        "untrusted model decision does not authorize the supported repair",
    )?;
    ensure(
        attempt.number_at("value,usage,input_units").is_some() && attempt.number_at(
            "value,usage,output_units",
        ).is_some(),
        "model usage missing",
    )
}

/// Whether the controlled reviewing model was entered exactly twice.
pub fn verify_count(controlled: bool, invocations: u64) -> (r: Checked<()>)
    ensures
        if controlled && invocations != 2 {
            failed(r, "review fixture did not enter exactly twice"@)
        } else {
            r is Ok
        },
{
    ensure(!controlled || invocations == 2, "review fixture did not enter exactly twice")
}

} // verus!
