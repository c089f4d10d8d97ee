//! What the learning study authors, keeps and decides around its outside calls.

use vstd::prelude::*;

use crate::application::document_result;
use crate::failure::{ensure, failed, failure, Checked};
use crate::json::{
    at, element_with, found, found_paths_take, items, placed, segments, with, Json, Tree,
};
use crate::slotbook::client::text;
use crate::slotbook::method::{no_entries, push};
use crate::text::{decimal, joined3, number_text, same_text};

verus! {

/// The operator of the study.
pub const OPERATOR: &'static str = "human:learning-operator";

/// The learner of the study.
pub const LEARNER: &'static str = "agent:slotbook-learner";

/// The evaluator of the study.
pub const EVALUATOR: &'static str = "agent:slotbook-evaluator";

/// The capability of the proposing model.
pub const MODEL: &'static str = "slotbook-learning-model";

/// Which proposal of a study is made, and which validation of its response.
#[derive(Clone, Copy)]
pub struct Attempt {
    pub proposal: u8,
    pub validation: u8,
}

/// A study's key for one of its commands: the candidate's names its validation, and every key but
/// those of the first attempt its attempt.
pub open spec fn key_of(attempt: Attempt, stem: Seq<char>) -> Seq<char> {
    let stem = if stem == "learning-candidate"@ && attempt.validation > 1 {
        stem + "-validation-"@ + decimal(attempt.validation as nat)
    } else {
        stem
    };
    if attempt.proposal == 1 {
        stem
    } else {
        stem + "-"@ + decimal(attempt.proposal as nat)
    }
}

impl Attempt {
    pub fn key(self, stem: &str) -> (r: String)
        ensures
            r@ == key_of(self, stem@),
    {
        let validated: String = if same_text(stem, "learning-candidate") && self.validation > 1 {
            joined3(stem, "-validation-", number_text(self.validation as u64).as_str())
        } else {
            stem.to_owned()
        };
        if self.proposal == 1 {
            validated
        } else {
            joined3(validated.as_str(), "-", number_text(self.proposal as u64).as_str())
        }
    }
}

proof fn lemma_one_digit(n: nat)
    requires
        n < 10,
    ensures
        decimal(n).len() == 1,
        decimal(n)[0] == crate::text::digit(n),
{
}

/// The keys of two attempts of a study never meet: a later proposal keeps what an earlier one
/// retained.
pub proof fn attempts_keep_their_keys(a: Attempt, b: Attempt, stem: Seq<char>)
    requires
        1 <= a.proposal <= 4,
        1 <= b.proposal <= 4,
        a.validation == b.validation,
        a.proposal != b.proposal,
    ensures
        key_of(a, stem) != key_of(b, stem),
{
    lemma_one_digit(a.proposal as nat);
    lemma_one_digit(b.proposal as nat);
    let validated = if stem == "learning-candidate"@ && a.validation > 1 {
        stem + "-validation-"@ + decimal(a.validation as nat)
    } else {
        stem
    };
    reveal_strlit("-");
    let ka = key_of(a, stem);
    let kb = key_of(b, stem);
    if a.proposal == 1 {
        assert(ka.len() == validated.len());
        assert(kb.len() == validated.len() + 2);
    } else if b.proposal == 1 {
        assert(kb.len() == validated.len());
        assert(ka.len() == validated.len() + 2);
    } else {
        assert(ka[validated.len() as int + 1] == crate::text::digit(a.proposal as nat));
        assert(kb[validated.len() as int + 1] == crate::text::digit(b.proposal as nat));
    }
}

/// Every command of an attempt with the stem of its key.
pub open spec fn attempt_stems() -> Seq<(Seq<char>, Seq<char>)> {
    seq![
        ("declare"@, "learning-declare"@),
        ("policy"@, "learning-promotion-policy-v1"@),
        ("proposal"@, "slotbook-learning-proposal"@),
        ("profile"@, "learning-proposal-profile"@),
        ("import"@, "learning-proposal-import-v1"@),
        ("start"@, "learning-proposal-start"@),
        ("observation"@, "learning-proposal-observation"@),
        ("run"@, "learning-proposal-run"@),
        ("attempt"@, "learning-proposal-attempt"@),
        ("download"@, "learning-response-download"@),
        ("refusal"@, "learning-proposal-refusal"@),
        ("cannot_declare"@, "learner-cannot-declare"@),
        ("cannot_inspect"@, "learner-cannot-inspect-held-out-declaration"@),
        ("invented"@, "invented-evidence"@),
        ("forbidden"@, "forbidden-verifier-edit"@),
        ("candidate"@, "learning-candidate"@),
        ("comparison"@, "learning-comparison"@),
        ("cannot_promote"@, "learner-cannot-promote"@),
        ("promotion"@, "learning-automatic-promotion"@),
    ]
}

/// The keys of an attempt under its first commands.
pub open spec fn attempt_keys(attempt: Attempt, n: int) -> Tree
    decreases n,
{
    if n <= 0 {
        no_entries()
    } else {
        with(
            attempt_keys(attempt, n - 1),
            attempt_stems()[n - 1].0,
            Tree::Text(key_of(attempt, attempt_stems()[n - 1].1)),
        )
    }
}

/// The keys of an attempt, each under its command.
pub fn keys(attempt: Attempt) -> (r: Json)
    ensures
        r@ == attempt_keys(attempt, attempt_stems().len() as int),
{
    let stems: Vec<(&'static str, &'static str)> = vec![
        ("declare", "learning-declare"),
        ("policy", "learning-promotion-policy-v1"),
        ("proposal", "slotbook-learning-proposal"),
        ("profile", "learning-proposal-profile"),
        ("import", "learning-proposal-import-v1"),
        ("start", "learning-proposal-start"),
        ("observation", "learning-proposal-observation"),
        ("run", "learning-proposal-run"),
        ("attempt", "learning-proposal-attempt"),
        ("download", "learning-response-download"),
        ("refusal", "learning-proposal-refusal"),
        ("cannot_declare", "learner-cannot-declare"),
        ("cannot_inspect", "learner-cannot-inspect-held-out-declaration"),
        ("invented", "invented-evidence"),
        ("forbidden", "forbidden-verifier-edit"),
        ("candidate", "learning-candidate"),
        ("comparison", "learning-comparison"),
        ("cannot_promote", "learner-cannot-promote"),
        ("promotion", "learning-automatic-promotion"),
    ];
    let mut out: Json = Json::object();
    let mut i: usize = 0;
    while i < stems.len()
        invariant
            i <= stems.len(),
            stems.len() == attempt_stems().len(),
            forall|k: int|
                0 <= k < stems.len() ==> (#[trigger] stems[k]).0@ == attempt_stems()[k].0
                    && stems[k].1@ == attempt_stems()[k].1,
            out@ == attempt_keys(attempt, i as int),
            out@ is Object,
        decreases stems.len() - i,
    {
        out = out.with(stems[i].0, Json::Text(attempt.key(stems[i].1)));
        i = i + 1;
    }
    out
}

/// Whether a study can go on: a later proposal only resumes what was frozen before it.
pub fn check_attempt(attempt: Attempt, resume: bool) -> (r: Checked<()>)
    ensures
        if attempt.proposal > 1 && !resume {
            failed(r, "a new proposal attempt requires --resume of its frozen study"@)
        } else {
            r is Ok
        },
{
    ensure(
        attempt.proposal <= 1 || resume,
        "a new proposal attempt requires --resume of its frozen study",
    )
}

pub open spec fn receipt_tree(command: Seq<char>, actor: Seq<char>) -> Tree {
    Tree::Object(map!["actor"@ => Tree::Text(actor), "command"@ => Tree::Text(command)])
}

/// The receipt of an actor's command.
pub fn receipt(command: &str, actor: &str) -> (r: Json)
    ensures
        r@ == receipt_tree(command@, actor@),
{
    Json::object().with("actor", Json::text(actor)).with("command", Json::text(command))
}

/// The receipt of a command of one attempt.
pub fn study_receipt(attempt: Attempt, stem: &str, actor: &str) -> (r: Json)
    ensures
        r@ == receipt_tree(key_of(attempt, stem@), actor@),
{
    receipt(attempt.key(stem).as_str(), actor)
}

/// A retained input is written once and afterwards only read again.
pub fn retain(existing: Option<&[u8]>, bytes: &[u8], message: &str) -> (r: Checked<bool>)
    ensures
        match existing {
            None => r matches Ok(write) && write,
            Some(kept) => if kept@ == bytes@ {
                r matches Ok(write) && !write
            } else {
                failed(r, message@)
            },
        },
{
    match existing {
        None => Ok(true),
        Some(kept) => {
            ensure(same_bytes(kept, bytes), message)?;
            Ok(false)
        },
    }
}

pub(crate) fn same_bytes(a: &[u8], b: &[u8]) -> (r: bool)
    ensures
        r == (a@ == b@),
{
    if a.len() != b.len() {
        return false;
    }
    let mut i: usize = 0;
    while i < a.len()
        invariant
            i <= a.len(),
            a.len() == b.len(),
            forall|j: int| 0 <= j < i ==> a@[j] == b@[j],
        decreases a.len() - i,
    {
        if a[i] != b[i] {
            return false;
        }
        i = i + 1;
    }
    proof {
        assert(a@ =~= b@);
    }
    true
}

/// What a learning command gives: the value of a success, and any other answer whole.
pub open spec fn command_value(result: Tree) -> Tree {
    if at(result, "status"@) == Tree::Text("success"@) {
        at(result, "value,value"@)
    } else {
        result
    }
}

pub fn command_result(result: &Json) -> (r: Json)
    ensures
        r@ == command_value(result@),
{
    if result.is_text("status", "success") {
        result.get("value,value")
    } else {
        result.copy()
    }
}

pub open spec fn reference_tree(
    key: Seq<char>,
    identity: Tree,
    digest: Tree,
    media: Tree,
    size: Tree,
) -> Tree {
    with(
        with(with(with(no_entries(), key, identity), "digest"@, digest), "media_type"@, media),
        "size_bytes"@,
        size,
    )
}

fn reference_of(key: &str, identity: Json, digest: Json, media: Json, size: Json) -> (r: Json)
    ensures
        r@ == reference_tree(key@, identity@, digest@, media@, size@),
{
    Json::object().with(key, identity).with("digest", digest).with("media_type", media).with(
        "size_bytes",
        size,
    )
}

/// The reference of an uploaded artifact, from its metadata.
pub fn uploaded_reference(value: &Json) -> (r: Json)
    ensures
        r@ == reference_tree(
            "artifact"@,
            at(value@, "artifact_id"@),
            at(value@, "digest"@),
            at(value@, "content_type"@),
            at(value@, "size"@),
        ),
{
    reference_of(
        "artifact",
        value.get("artifact_id"),
        value.get("digest"),
        value.get("content_type"),
        value.get("size"),
    )
}

/// An uploaded artifact as a capability's input.
pub fn cap_reference(reference: &Json) -> (r: Json)
    ensures
        r@ == reference_tree(
            "identity"@,
            at(reference@, "artifact"@),
            at(reference@, "digest"@),
            at(reference@, "media_type"@),
            at(reference@, "size_bytes"@),
        ),
{
    reference_of(
        "identity",
        reference.get("artifact"),
        reference.get("digest"),
        reference.get("media_type"),
        reference.get("size_bytes"),
    )
}

/// An artifact's metadata as a capability's reference.
pub fn metadata_reference(value: &Json) -> (r: Json)
    ensures
        r@ == reference_tree(
            "identity"@,
            at(value@, "artifact_id"@),
            at(value@, "digest"@),
            at(value@, "content_type"@),
            at(value@, "size"@),
        ),
{
    reference_of(
        "identity",
        value.get("artifact_id"),
        value.get("digest"),
        value.get("content_type"),
        value.get("size"),
    )
}

/// One arm of a pair: the exact invocation on the exact generations of one slot.
pub open spec fn declared_slot(slot: Tree, request: Seq<char>) -> Tree {
    Tree::Object(
        map![
            "invocation"@ => Tree::Object(
                map!["actor"@ => Tree::Text(OPERATOR@), "request"@ => Tree::Text(request)],
            ),
            "workspace"@ => at(slot, "worker"@),
            "workspace_configuration"@ => at(slot, "worker_state,recipe,digest"@),
            "workspace_generation"@ => at(slot, "worker_state,generation"@),
            "target"@ => at(slot, "target"@),
            "configuration"@ => at(slot, "target_state,recipe,digest"@),
            "generation"@ => at(slot, "target_state,generation"@),
        ],
    )
}

pub fn slot_declaration(slot: &Json, request: &str) -> (r: Json)
    ensures
        r@ == declared_slot(slot@, request@),
{
    let invocation: Json = Json::object().with("actor", Json::text(OPERATOR)).with(
        "request",
        Json::text(request),
    );
    Json::object().with("invocation", invocation).with("workspace", slot.get("worker")).with(
        "workspace_configuration",
        slot.get("worker_state,recipe,digest"),
    ).with("workspace_generation", slot.get("worker_state,generation")).with(
        "target",
        slot.get("target"),
    ).with("configuration", slot.get("target_state,recipe,digest")).with(
        "generation",
        slot.get("target_state,generation"),
    )
}

/// The first captured artifact of a media type at or after a position.
pub open spec fn captured_from(observations: Seq<Tree>, media: Seq<char>, from: int) -> Option<Tree>
    decreases observations.len() - from,
{
    if from < 0 || from >= observations.len() {
        None
    } else if at(observations[from], "category"@) == Tree::Text("artifact"@) && at(
        observations[from],
        "event,kind,reference,media_type"@,
    ) == Tree::Text(media) {
        Some(at(observations[from], "event,kind,reference"@))
    } else {
        captured_from(observations, media, from + 1)
    }
}

/// The artifact of a media type that a worker gave.
pub fn output(value: &Json, media: &str) -> (r: Checked<Json>)
    ensures
        if !(at(value@, "observations"@) is List) {
            failed(r, "worker observations absent"@)
        } else {
            match captured_from(items(value@, "observations"@), media@, 0) {
                Some(artifact) => document_result(r) == Ok::<Tree, Seq<char>>(artifact),
                None => failed(r, "worker artifact absent"@),
            }
        },
{
    ensure(value.is_list("observations"), "worker observations absent")?;
    let n: usize = value.count("observations");
    let ghost all = items(value@, "observations"@);
    let mut i: usize = 0;
    while i < n
        invariant
            i <= n,
            n == all.len(),
            all == items(value@, "observations"@),
            at(value@, "observations"@) is List,
            captured_from(all, media@, 0) == captured_from(all, media@, i as int),
        decreases n - i,
    {
        let observation: &Json = value.item("observations", i);
        if observation.is_text("category", "artifact") && observation.is_text(
            "event,kind,reference,media_type",
            media,
        ) {
            return Ok(observation.get("event,kind,reference"));
        }
        i = i + 1;
    }
    Err(failure("worker artifact absent"))
}

/// What was captured among the first observations.
pub open spec fn captured(observations: Seq<Tree>, n: int) -> Seq<Tree>
    decreases n,
{
    if n <= 0 {
        seq![]
    } else if at(observations[n - 1], "category"@) == Tree::Text("artifact"@) {
        captured(observations, n - 1).push(at(observations[n - 1], "event,kind,reference"@))
    } else {
        captured(observations, n - 1)
    }
}

/// Every artifact that an invocation gave, in the order of its observations.
pub fn artifacts(observations: &Json) -> (r: Json)
    ensures
        r@ == Tree::List(
            captured(items(observations@, ""@), items(observations@, ""@).len() as int),
        ),
{
    let n: usize = observations.count("");
    let ghost all = items(observations@, ""@);
    let mut out: Json = Json::list();
    let mut i: usize = 0;
    while i < n
        invariant
            i <= n,
            n == all.len(),
            all == items(observations@, ""@),
            out@ == Tree::List(captured(all, i as int)),
        decreases n - i,
    {
        let observation: &Json = observations.item("", i);
        if observation.is_text("category", "artifact") {
            out = out.and(observation.get("event,kind,reference"));
        }
        i = i + 1;
    }
    out
}

/// A list with a value added at its end, unless it is there already.
pub open spec fn included(l: Seq<Tree>, value: Tree) -> Seq<Tree> {
    if l.contains(value) {
        l
    } else {
        l.push(value)
    }
}

/// A document whose list at a path holds a value.
pub fn including(document: Json, path: &str, value: &Json, message: &str) -> (r: Checked<Json>)
    ensures
        match at(document@, path@) {
            Tree::List(l) => document_result(r) == Ok::<Tree, Seq<char>>(
                placed(document@, segments(path@), Tree::List(included(l, value@))),
            ),
            _ => failed(r, message@),
        },
{
    ensure(document.is_list(path), message)?;
    let ghost l = items(document@, path@);
    let n: usize = document.count(path);
    let mut i: usize = 0;
    let mut present: bool = false;
    while i < n
        invariant
            i <= n,
            n == l.len(),
            l == items(document@, path@),
            at(document@, path@) == Tree::List(l),
            present <==> exists|j: int| 0 <= j < i && l[j] == value@,
        decreases n - i,
    {
        if document.item(path, i).same(value) {
            present = true;
        }
        i = i + 1;
    }
    let mut list: Json = document.get(path);
    if !present {
        list = list.and(value.copy());
    }
    proof {
        reveal(found);
        found_paths_take(document@, segments(path@));
        if present {
            assert(l.contains(value@));
        } else {
            assert(!l.contains(value@));
        }
    }
    Ok(document.set(path, list))
}

/// Including a value twice is including it once.
pub proof fn inclusion_repeats(l: Seq<Tree>, value: Tree)
    ensures
        included(included(l, value), value) == included(l, value),
        included(l, value).contains(value),
{
    if !l.contains(value) {
        assert(l.push(value)[l.len() as int] == value);
    }
}

/// The study's operator among the configured actors.
pub fn operator_of(config: &Json, message: &str) -> (r: Checked<Json>)
    ensures
        if !(at(config@, "actors"@) is List) {
            failed(r, "actors absent"@)
        } else {
            match element_with(items(config@, "actors"@), "actor"@, Tree::Text(OPERATOR@)) {
                Some(actor) => document_result(r) == Ok::<Tree, Seq<char>>(actor),
                None => failed(r, message@),
            }
        },
{
    ensure(config.is_list("actors"), "actors absent")?;
    match config.item_with("actors", "actor", OPERATOR) {
        Some(actor) => Ok(actor.copy()),
        None => Err(failure(message)),
    }
}

/// A configuration that admits the learner: a retained grant of its is kept exactly, and never
/// widened.
pub fn admit_learner(config: Json, actor: &Json) -> (r: Checked<Json>)
    ensures
        match at(config@, "actors"@) {
            Tree::List(l) => match element_with(l, "actor"@, Tree::Text(LEARNER@)) {
                None => document_result(r) == Ok::<Tree, Seq<char>>(
                    placed(config@, segments("actors"@), Tree::List(l.push(actor@))),
                ),
                Some(existing) => if existing == actor@ {
                    document_result(r) == Ok::<Tree, Seq<char>>(config@)
                } else {
                    failed(
                        r,
                        "retained learner grant differs; explicit new grant revision required"@,
                    )
                },
            },
            _ => failed(r, "actors absent"@),
        },
{
    ensure(config.is_list("actors"), "actors absent")?;
    match config.item_with("actors", "actor", LEARNER) {
        Some(existing) => {
            ensure(
                existing.same(actor),
                "retained learner grant differs; explicit new grant revision required",
            )?;
            Ok(config)
        },
        None => {
            let list: Json = config.get("actors").and(actor.copy());
            proof {
                reveal(found);
                found_paths_take(config@, segments("actors"@));
            }
            Ok(config.set("actors", list))
        },
    }
}

/// Whether a list at a path holds a value.
pub open spec fn lists(t: Tree, path: Seq<char>, value: Tree) -> bool {
    at(t, path) matches Tree::List(l) && l.contains(value)
}

fn lists_value(document: &Json, path: &str, value: &Json) -> (r: bool)
    ensures
        r == lists(document@, path@, value@),
{
    if !document.is_list(path) {
        return false;
    }
    let ghost l = items(document@, path@);
    let n: usize = document.count(path);
    let mut i: usize = 0;
    while i < n
        invariant
            i <= n,
            n == l.len(),
            l == items(document@, path@),
            at(document@, path@) == Tree::List(l),
            forall|j: int| 0 <= j < i ==> l[j] != value@,
        decreases n - i,
    {
        if document.item(path, i).same(value) {
            proof {
                assert(l.contains(value@));
            }
            return true;
        }
        i = i + 1;
    }
    false
}

/// A later proposal may only use a profile and an endpoint that the operator's network grant
/// already covers.
pub fn check_network(config: &Json, profile: &Json, destination: &str) -> (r: Checked<()>)
    ensures
        if !(at(config@, "actors"@) is List) {
            failed(r, "actors absent"@)
        } else {
            match element_with(items(config@, "actors"@), "actor"@, Tree::Text(OPERATOR@)) {
                None => failed(r, "learning operator absent"@),
                Some(operator) => if lists(
                    operator,
                    "authority,resources,network,profiles"@,
                    at(profile@, "identity"@),
                ) && lists(
                    operator,
                    "authority,resources,network,destinations"@,
                    Tree::Text(destination@),
                ) {
                    r is Ok
                } else {
                    failed(
                        r,
                        "the new proposal profile requires a separately reviewed network grant; use a fresh study for a different endpoint"@,
                    )
                },
            }
        },
{
    let operator: Json = operator_of(config, "learning operator absent")?;
    ensure(
        lists_value(
            &operator,
            "authority,resources,network,profiles",
            &profile.get("identity"),
        ) && lists_value(
            &operator,
            "authority,resources,network,destinations",
            &Json::text(destination),
        ),
        "the new proposal profile requires a separately reviewed network grant; use a fresh study for a different endpoint",
    )
}

} // verus!
