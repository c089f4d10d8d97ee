//! The fixed comparison of the learning study: its held-out cases, its slots and its declaration.

use vstd::prelude::*;

use crate::application::{document_result, words};
use crate::endpoint::checked_text;
use crate::failure::{ensure, failed, failure, Checked};
use crate::json::{at, items, placed, segments, takes, unsigned_at, with, Json, Tree};
use crate::render::{render, rendered};
use crate::slotbook::client::text;
use crate::slotbook::learning::{
    cap_reference, declared_slot, receipt, receipt_tree, reference_tree, slot_declaration, Attempt,
    EVALUATOR,
};
use crate::slotbook::method::{
    json_views, listed, no_entries, open_document, opened, push, text_list, text_trees,
};
use crate::text::{decimal, joined, joined3, number_text, same_text};

verus! {

pub open spec fn application_tree(resource: Seq<char>, capacity: u64, notice: u64) -> Tree {
    Tree::Object(
        map![
            "resource"@ => Tree::Text(resource),
            "capacity"@ => Tree::Integer(capacity as int),
            "cancellation_notice_seconds"@ => Tree::Integer(notice as int),
        ],
    )
}

/// One product configuration.
pub fn application(resource: &str, capacity: u64, notice: u64) -> (r: Json)
    ensures
        r@ == application_tree(resource@, capacity, notice),
{
    Json::object().with("resource", Json::text(resource)).with(
        "capacity",
        Json::number(capacity),
    ).with("cancellation_notice_seconds", Json::number(notice))
}

/// What the client of `loan-a` asks for.
pub const LOAN_A_BRIEF: &'static str = "Equipment lending: one camera, quantity 1, 2027-05-03T09:00:00Z to 12:00:00Z; cancel before start. Browse anonymously and reserve without creating an account; a quick disposable demo is attractive, but operator durability/authentication requirements govern deployment.";

/// What the client of `loan-b` asks for.
pub const LOAN_B_BRIEF: &'static str = "Equipment lending: two tripods, quantity 1 or 2, 2027-05-04T09:00:00Z to 12:00:00Z; cancel at least one hour before start. Browse anonymously and reserve without creating an account; a quick disposable demo is attractive, but operator durability/authentication requirements govern deployment.";

/// What the client of `class-a` asks for.
pub const CLASS_A_BRIEF: &'static str = "Group classes: yoga, capacity 4, one or two seats per booking, 2027-06-08T17:00:00Z to 18:00:00Z; cancel at least two hours before start. Public availability should be simple and frictionless; membership/account screens are out of scope. Persist accepted bookings under the operator rules.";

/// What the client of `class-b` asks for.
pub const CLASS_B_BRIEF: &'static str = "Group classes: ceramics, capacity 6, quantities 1 to 3, 2027-06-09T18:00:00Z to 20:00:00Z; cancel at least 24 hours before start. Public availability should be simple and frictionless; membership/account screens are out of scope. Persist accepted bookings under the operator rules.";

/// A case that the proposal never sees.
pub struct HeldOut {
    pub name: &'static str,
    pub application: Json,
    pub brief: &'static str,
}

pub ghost struct HeldOutView {
    pub name: Seq<char>,
    pub application: Tree,
    pub brief: Seq<char>,
}

pub open spec fn held_out_view(h: HeldOut) -> HeldOutView {
    HeldOutView { name: h.name@, application: h.application@, brief: h.brief@ }
}

pub open spec fn held_out_cases() -> Seq<HeldOutView> {
    seq![
        HeldOutView {
            name: "loan-a"@,
            application: application_tree("camera"@, 1, 0),
            brief: LOAN_A_BRIEF@,
        },
        HeldOutView {
            name: "loan-b"@,
            application: application_tree("tripod"@, 2, 3600),
            brief: LOAN_B_BRIEF@,
        },
        HeldOutView {
            name: "class-a"@,
            application: application_tree("yoga"@, 4, 7200),
            brief: CLASS_A_BRIEF@,
        },
        HeldOutView {
            name: "class-b"@,
            application: application_tree("ceramics"@, 6, 86400),
            brief: CLASS_B_BRIEF@,
        },
    ]
}

pub open spec fn held_out_views(v: Seq<HeldOut>) -> Seq<HeldOutView> {
    v.map_values(|h: HeldOut| held_out_view(h))
}

fn push_case(v: &mut Vec<HeldOut>, name: &'static str, application: Json, brief: &'static str)
    ensures
        held_out_views(final(v)@) == held_out_views(old(v)@).push(
            (HeldOutView { name: name@, application: application@, brief: brief@ }),
        ),
{
    let next: HeldOut = HeldOut { name, application, brief };
    proof {
        assert(held_out_views(v@.push(next)) =~= held_out_views(v@).push(held_out_view(next)));
    }
    v.push(next);
}

/// The four held-out cases.
pub fn cases() -> (r: Vec<HeldOut>)
    ensures
        held_out_views(r@) == held_out_cases(),
{
    let mut v: Vec<HeldOut> = Vec::new();
    proof {
        assert(held_out_views(v@) =~= seq![]);
    }
    push_case(&mut v, "loan-a", application("camera", 1, 0), LOAN_A_BRIEF);
    push_case(&mut v, "loan-b", application("tripod", 2, 3600), LOAN_B_BRIEF);
    push_case(&mut v, "class-a", application("yoga", 4, 7200), CLASS_A_BRIEF);
    push_case(&mut v, "class-b", application("ceramics", 6, 86400), CLASS_B_BRIEF);
    proof {
        assert(held_out_views(v@) =~= held_out_cases());
    }
    v
}

/// The slots of the study, each with its product: both arms of every case, two variants and the
/// source.
pub open spec fn study_slots() -> Seq<(Seq<char>, Tree)> {
    seq![
        ("learn-loan-a-baseline"@, application_tree("camera"@, 1, 0)),
        ("learn-loan-a-candidate"@, application_tree("camera"@, 1, 0)),
        ("learn-loan-b-baseline"@, application_tree("tripod"@, 2, 3600)),
        ("learn-loan-b-candidate"@, application_tree("tripod"@, 2, 3600)),
        ("learn-class-a-baseline"@, application_tree("yoga"@, 4, 7200)),
        ("learn-class-a-candidate"@, application_tree("yoga"@, 4, 7200)),
        ("learn-class-b-baseline"@, application_tree("ceramics"@, 6, 86400)),
        ("learn-class-b-candidate"@, application_tree("ceramics"@, 6, 86400)),
        ("learn-loan-variant"@, application_tree("camera"@, 1, 0)),
        ("learn-class-variant"@, application_tree("yoga"@, 4, 7200)),
        ("learn-source"@, application_tree("pottery"@, 2, 0)),
    ]
}

pub open spec fn slot_views(v: Seq<(&'static str, Json)>) -> Seq<(Seq<char>, Tree)> {
    v.map_values(|s: (&'static str, Json)| (s.0@, s.1@))
}

fn push_slot(v: &mut Vec<(&'static str, Json)>, name: &'static str, application: Json)
    ensures
        slot_views(final(v)@) == slot_views(old(v)@).push((name@, application@)),
{
    proof {
        assert(slot_views(v@.push((name, application))) =~= slot_views(v@).push(
            (name@, application@),
        ));
    }
    v.push((name, application));
}

pub fn slots() -> (r: Vec<(&'static str, Json)>)
    ensures
        slot_views(r@) == study_slots(),
{
    let mut v: Vec<(&'static str, Json)> = Vec::new();
    proof {
        assert(slot_views(v@) =~= seq![]);
    }
    push_slot(&mut v, "learn-loan-a-baseline", application("camera", 1, 0));
    push_slot(&mut v, "learn-loan-a-candidate", application("camera", 1, 0));
    push_slot(&mut v, "learn-loan-b-baseline", application("tripod", 2, 3600));
    push_slot(&mut v, "learn-loan-b-candidate", application("tripod", 2, 3600));
    push_slot(&mut v, "learn-class-a-baseline", application("yoga", 4, 7200));
    push_slot(&mut v, "learn-class-a-candidate", application("yoga", 4, 7200));
    push_slot(&mut v, "learn-class-b-baseline", application("ceramics", 6, 86400));
    push_slot(&mut v, "learn-class-b-candidate", application("ceramics", 6, 86400));
    push_slot(&mut v, "learn-loan-variant", application("camera", 1, 0));
    push_slot(&mut v, "learn-class-variant", application("yoga", 4, 7200));
    push_slot(&mut v, "learn-source", application("pottery", 2, 0));
    proof {
        assert(slot_views(v@) =~= study_slots());
    }
    v
}

/// Both arms of a case stand side by side among the slots, with the case's own product.
pub proof fn arms_share_their_product(i: int)
    requires
        0 <= i < 4,
    ensures
        study_slots()[2 * i].1 == held_out_cases()[i].application,
        study_slots()[2 * i + 1].1 == held_out_cases()[i].application,
        study_slots()[2 * i].0 == "learn-"@ + held_out_cases()[i].name + "-baseline"@,
        study_slots()[2 * i + 1].0 == "learn-"@ + held_out_cases()[i].name + "-candidate"@,
{
    reveal_strlit("learn-");
    reveal_strlit("-baseline");
    reveal_strlit("-candidate");
    reveal_strlit("loan-a");
    reveal_strlit("loan-b");
    reveal_strlit("class-a");
    reveal_strlit("class-b");
    reveal_strlit("learn-loan-a-baseline");
    reveal_strlit("learn-loan-a-candidate");
    reveal_strlit("learn-loan-b-baseline");
    reveal_strlit("learn-loan-b-candidate");
    reveal_strlit("learn-class-a-baseline");
    reveal_strlit("learn-class-a-candidate");
    reveal_strlit("learn-class-b-baseline");
    reveal_strlit("learn-class-b-candidate");
    let c = held_out_cases()[i].name;
    assert(study_slots()[2 * i].0 =~= "learn-"@ + c + "-baseline"@);
    assert(study_slots()[2 * i + 1].0 =~= "learn-"@ + c + "-candidate"@);
}

/// The loopback port of one slot. The eleven ports of a study fit above any base that leaves them
/// room.
pub fn slot_port(base: u16, index: u16) -> (r: u64)
    ensures
        r == base + index,
        base <= 65525 && index < study_slots().len() ==> r <= 65535,
{
    base as u64 + index as u64
}

pub open spec fn slot_tree(name: Seq<char>, application: Tree) -> Tree {
    Tree::Object(
        map![
            "name"@ => Tree::Text(name),
            "worker"@ => Tree::Text(name + "-work"@),
            "target"@ => Tree::Text(name + "-target"@),
            "capability"@ => Tree::Text("evaluation:"@ + name),
            "application"@ => application,
        ],
    )
}

/// What is known of a slot before it is prepared.
pub fn slot_document(name: &str, application: Json) -> (r: Json)
    ensures
        r@ == slot_tree(name@, application@),
{
    Json::object().with("name", Json::text(name)).with(
        "worker",
        Json::text(joined(name, "-work").as_str()),
    ).with("target", Json::text(joined(name, "-target").as_str())).with(
        "capability",
        Json::text(joined("evaluation:", name).as_str()),
    ).with("application", application)
}

/// The grant of a slot's service; the source's is shared with the published baseline.
pub fn slot_grant(name: &str) -> (r: String)
    ensures
        r@ == (if name@ == "learn-source"@ {
            "grant:learning-source"@
        } else {
            "grant:"@ + name@
        }),
{
    if same_text(name, "learn-source") {
        "grant:learning-source".to_owned()
    } else {
        joined("grant:", name)
    }
}

/// A configuration whose publications of a capability run under a grant.
pub open spec fn granted_slot(config: Tree, capability: Seq<char>, grant: Seq<char>) -> Tree {
    placed(
        config,
        segments("runtime,publication_services"@),
        with(
            opened(at(config, "runtime,publication_services"@)),
            capability,
            Tree::Text(grant),
        ),
    )
}

pub fn grant_slot(config: Json, capability: &str, grant: &str) -> (r: Json)
    requires
        opened(at(config@, "runtime,publication_services"@)) is Object,
        takes(config@, segments("runtime,publication_services"@)),
    ensures
        r@ == granted_slot(config@, capability@, grant@),
{
    let services: Json = open_document(&config, "runtime,publication_services").with(
        capability,
        Json::text(grant),
    );
    config.set("runtime,publication_services", services)
}

/// A configuration that reads a slot's credential from a file.
pub open spec fn trusted_slot(config: Tree, name: Seq<char>, path: Seq<char>) -> Tree {
    placed(
        config,
        segments("secret_sources"@),
        with(
            opened(at(config, "secret_sources"@)),
            "credential:"@ + name,
            with(with(no_entries(), "type"@, Tree::Text("file"@)), "path"@, Tree::Text(path)),
        ),
    )
}

pub fn trust_slot(config: Json, name: &str, path: &str) -> (r: Json)
    requires
        opened(at(config@, "secret_sources"@)) is Object,
        takes(config@, segments("secret_sources"@)),
    ensures
        r@ == trusted_slot(config@, name@, path@),
{
    let source: Json = Json::object().with("type", Json::text("file")).with(
        "path",
        Json::text(path),
    );
    let sources: Json = open_document(&config, "secret_sources").with(
        joined("credential:", name).as_str(),
        source,
    );
    config.set("secret_sources", sources)
}

pub open spec fn page_tree(run: Tree, first: int, count: int) -> Tree {
    Tree::Object(
        map!["run"@ => run, "first"@ => Tree::Integer(first), "count"@ => Tree::Integer(count)],
    )
}

fn page(run: Json, first: u64, count: u64) -> (r: Json)
    ensures
        r@ == page_tree(run@, first as int, count as int),
{
    Json::object().with("run", run).with("first", Json::number(first)).with(
        "count",
        Json::number(count),
    )
}

fn whole_number(document: &Json, path: &str) -> (r: Checked<u64>)
    ensures
        match unsigned_at(document@, path@) {
            Some(n) => r matches Ok(value) && value == n,
            None => failed(r, "expected integer in product response"@),
        },
{
    match document.number_at(path) {
        Some(n) => Ok(n),
        None => Err(failure("expected integer in product response")),
    }
}

/// The selected pages of the source run: its start, a middle part and its end.
pub open spec fn pages_of(source: Tree, sequence: u64) -> Tree {
    Tree::List(
        seq![
            page_tree(at(source, "internal_run"@), 1, 3),
            page_tree(at(source, "internal_run"@), 10, 3),
            page_tree(at(source, "internal_run"@), sequence - 3, 4),
        ],
    )
}

pub fn pages(source: &Json) -> (r: Checked<Json>)
    requires
        unsigned_at(source@, "completed_run,sequence"@) matches Some(n) ==> n >= 3,
    ensures
        match unsigned_at(source@, "completed_run,sequence"@) {
            Some(n) => document_result(r) == Ok::<Tree, Seq<char>>(pages_of(source@, n)),
            None => failed(r, "expected integer in product response"@),
        },
{
    let sequence: u64 = whole_number(source, "completed_run,sequence")?;
    let run: Json = source.get("internal_run");
    let list: Json = Json::list().and(page(run.copy(), 1, 3)).and(page(run.copy(), 10, 3)).and(
        page(run, sequence - 3, 4),
    );
    proof {
        assert(list@->List_0 =~= seq![
            page_tree(at(source@, "internal_run"@), 1, 3),
            page_tree(at(source@, "internal_run"@), 10, 3),
            page_tree(at(source@, "internal_run"@), sequence - 3, 4),
        ]);
    }
    Ok(list)
}

/// The rules that no case's wording overrides.
pub const OBLIGATIONS: &'static str = "Authenticated writes, private names, half-open positive-capacity intervals, durable bookings, supplied cancellation cutoff, exact protected deployment; convenience wording never overrides these requirements.";

/// The input of one case.
pub open spec fn product_tree(held_out: HeldOutView, policy: Tree) -> Tree {
    Tree::Object(
        map![
            "brief"@ => Tree::Text(held_out.brief),
            "application"@ => held_out.application,
            "requirements"@ => at(policy, "required_checks"@),
            "operator_obligations"@ => Tree::Text(OBLIGATIONS@),
        ],
    )
}

pub fn product_document(held_out: &HeldOut, policy: &Json) -> (r: Json)
    ensures
        r@ == product_tree(held_out_view(*held_out), policy@),
{
    Json::object().with("brief", Json::text(held_out.brief)).with(
        "application",
        held_out.application.copy(),
    ).with("requirements", policy.get("required_checks")).with(
        "operator_obligations",
        Json::text(OBLIGATIONS),
    )
}

/// The key of one arm of a case.
pub open spec fn arm_key(name: Seq<char>, arm: Seq<char>) -> Seq<char> {
    "evaluate-"@ + name + "-"@ + arm
}

pub fn evaluation_key(name: &str, arm: &str) -> (r: String)
    ensures
        r@ == arm_key(name@, arm@),
{
    joined3(joined("evaluate-", name).as_str(), "-", arm)
}

/// One pair of the comparison: a case, its input and both of its arms.
pub open spec fn pair_tree(name: Seq<char>, input: Tree, baseline: Tree, candidate: Tree) -> Tree {
    Tree::Object(
        map![
            "name"@ => Tree::Text(name),
            "input"@ => input,
            "baseline"@ => declared_slot(baseline, arm_key(name, "baseline"@)),
            "candidate"@ => declared_slot(candidate, arm_key(name, "candidate"@)),
        ],
    )
}

pub fn pair(name: &str, input: &Json, slots: &Vec<Json>, index: usize) -> (r: Json)
    requires
        index < 4,
        slots.len() == study_slots().len(),
    ensures
        r@ == pair_tree(name@, input@, slots@[2 * index]@, slots@[2 * index + 1]@),
{
    Json::object().with("name", Json::text(name)).with("input", input.copy()).with(
        "baseline",
        slot_declaration(&slots[index * 2], evaluation_key(name, "baseline").as_str()),
    ).with(
        "candidate",
        slot_declaration(&slots[index * 2 + 1], evaluation_key(name, "candidate").as_str()),
    )
}

/// The input of a product variant under the selected method.
pub fn variant_document(pair: &Json, slot: &Json, selected: &Json) -> (r: Json)
    ensures
        r@ == Tree::Object(
            map![
                "lineage"@ => at(pair@, "input"@),
                "application"@ => at(slot@, "application"@),
                "method"@ => at(selected@, "id"@),
                "purpose"@ => Tree::Text(
                    "independent product variant under the selected method"@,
                ),
            ],
        ),
{
    Json::object().with("lineage", pair.get("input")).with(
        "application",
        slot.get("application"),
    ).with("method", selected.get("id")).with(
        "purpose",
        Json::text("independent product variant under the selected method"),
    )
}

pub open spec fn named_value(name: Seq<char>, value: Tree) -> Tree {
    with(with(no_entries(), "name"@, Tree::Text(name)), "value"@, value)
}

pub open spec fn inline_value(value: Tree) -> Tree {
    with(with(no_entries(), "type"@, Tree::Text("inline"@)), "value"@, value)
}

fn named(name: &str, value: Json) -> (r: Json)
    ensures
        r@ == named_value(name@, value@),
{
    Json::object().with("name", Json::text(name)).with("value", value)
}

fn inline(value: Json) -> (r: Json)
    ensures
        r@ == inline_value(value@),
{
    Json::object().with("type", Json::text("inline")).with("value", value)
}

/// The inputs of one invocation of a published method: its product and the one choice of each
/// verification command.
pub open spec fn variant_trees(input: Tree, method: Tree) -> Seq<Tree> {
    seq![
        named_value(
            "product"@,
            with(
                with(no_entries(), "type"@, Tree::Text("artifact"@)),
                "reference"@,
                reference_tree(
                    "identity"@,
                    at(input, "artifact"@),
                    at(input, "digest"@),
                    at(input, "media_type"@),
                    at(input, "size_bytes"@),
                ),
            ),
        ),
        named_value(
            "target-1"@,
            inline_value(at(method, "inputs,target-1,values,#0"@)),
        ),
        named_value(
            "target-2"@,
            inline_value(at(method, "inputs,target-2,values,#0"@)),
        ),
        named_value(
            "target-3"@,
            inline_value(at(method, "inputs,target-3,values,#0"@)),
        ),
    ]
}

pub fn variant_inputs(input: &Json, method: &Json) -> (r: Json)
    ensures
        r@ == Tree::List(variant_trees(input@, method@)),
{
    let product: Json = Json::object().with("type", Json::text("artifact")).with(
        "reference",
        cap_reference(input),
    );
    let mut v: Vec<Json> = Vec::new();
    proof {
        assert(json_views(v@) =~= seq![]);
    }
    push(&mut v, named("product", product));
    push(&mut v, named("target-1", inline(method.get("inputs,target-1,values,#0"))));
    push(&mut v, named("target-2", inline(method.get("inputs,target-2,values,#0"))));
    push(&mut v, named("target-3", inline(method.get("inputs,target-3,values,#0"))));
    proof {
        assert(json_views(v@) =~= variant_trees(input@, method@));
    }
    listed(v)
}

/// The input of one worker command.
pub fn worker_inputs(argv: &Vec<&str>, capture: bool) -> (r: Json)
    ensures
        r@ == Tree::List(
            seq![
                named_value(
                    "command"@,
                    inline_value(
                        with(
                            with(no_entries(), "argv"@, text_trees(words(argv@))),
                            "stdout_artifact"@,
                            Tree::Bool(capture),
                        ),
                    ),
                ),
            ],
        ),
{
    let command: Json = Json::object().with("argv", text_list(argv)).with(
        "stdout_artifact",
        Json::flag(capture),
    );
    let mut v: Vec<Json> = Vec::new();
    proof {
        assert(json_views(v@) =~= seq![]);
    }
    push(&mut v, named("command", inline(command)));
    listed(v)
}

/// The first descriptor of an identity at or after a position of a catalog.
pub open spec fn descriptor_from(entries: Seq<Tree>, identity: Seq<char>, from: int) -> Option<Tree>
    decreases entries.len() - from,
{
    if from < 0 || from >= entries.len() {
        None
    } else if at(entries[from], "descriptor,identity"@) == Tree::Text(identity) {
        Some(at(entries[from], "descriptor"@))
    } else {
        descriptor_from(entries, identity, from + 1)
    }
}

/// The descriptor of a slot's worker in the host's catalog.
pub fn worker_descriptor(catalog: &Json, worker: &str) -> (r: Checked<Json>)
    ensures
        if !(at(catalog@, "value,catalog,entries"@) is List) {
            failed(r, "catalog absent"@)
        } else {
            match descriptor_from(
                items(catalog@, "value,catalog,entries"@),
                "managed."@ + worker@ + ".worker"@,
                0,
            ) {
                Some(descriptor) => document_result(r) == Ok::<Tree, Seq<char>>(descriptor),
                None => failed(r, "worker descriptor absent"@),
            }
        },
{
    ensure(catalog.is_list("value,catalog,entries"), "catalog absent")?;
    let identity: String = joined3("managed.", worker, ".worker");
    let n: usize = catalog.count("value,catalog,entries");
    let ghost all = items(catalog@, "value,catalog,entries"@);
    let mut i: usize = 0;
    while i < n
        invariant
            i <= n,
            n == all.len(),
            all == items(catalog@, "value,catalog,entries"@),
            at(catalog@, "value,catalog,entries"@) is List,
            identity@ == "managed."@ + worker@ + ".worker"@,
            descriptor_from(all, identity@, 0) == descriptor_from(all, identity@, i as int),
        decreases n - i,
    {
        let entry: &Json = catalog.item("value,catalog,entries", i);
        if entry.is_text("descriptor,identity", identity.as_str()) {
            return Ok(entry.get("descriptor"));
        }
        i = i + 1;
    }
    Err(failure("worker descriptor absent"))
}

/// A comparison promotes its candidate only where its outcome is eligible.
pub open spec fn promotes(comparison: Tree) -> bool {
    at(comparison, "result,outcome"@) == Tree::Text("eligible"@)
}

pub fn eligible(comparison: &Json) -> (r: bool)
    ensures
        r == promotes(comparison@),
{
    comparison.is_text("result,outcome", "eligible")
}

/// The revision that the product variants are made with: the revised one where the comparison
/// promotes it, and the baseline otherwise.
pub fn selected<'a>(comparison: &Json, revised: &'a Json, baseline: &'a Json) -> (r: &'a Json)
    ensures
        r@ == (if promotes(comparison@) {
            revised@
        } else {
            baseline@
        }),
{
    if eligible(comparison) {
        revised
    } else {
        baseline
    }
}

/// A phase of the study.
#[derive(Clone, Copy, PartialEq, Eq, Structural, Debug)]
pub enum Phase {
    /// Nothing was done yet.
    Begin,
    /// The authored method and its governance are imported.
    Import,
    /// Every slot reaches a verified generation.
    SetUp,
    /// The source is selected and the comparison declared.
    Declare,
    /// The retained selection and declaration are read again.
    Resume,
    /// A later attempt is declared.
    Redeclare,
    /// The baseline is published and its promotion preauthorized.
    Preauthorize,
    /// The model proposes and its candidate is submitted.
    Propose,
    /// Both arms are invoked and compared, and the variants are made.
    Evaluate,
    /// Scratch files become maintained tools.
    Maintain,
    /// The study is over.
    Done,
}

/// The phase that follows one that is done. A study whose slots were accepted before is `retained`:
/// it goes on from its declaration, and a later attempt declares its own.
pub open spec fn phase_after(
    done: Phase,
    retained: bool,
    attempt: Attempt,
    proposal_only: bool,
) -> Phase {
    match done {
        Phase::Begin => if retained {
            Phase::Resume
        } else {
            Phase::Import
        },
        Phase::Import => Phase::SetUp,
        Phase::SetUp => Phase::Declare,
        Phase::Declare => Phase::Preauthorize,
        Phase::Resume => if attempt.proposal > 1 {
            Phase::Redeclare
        } else {
            Phase::Preauthorize
        },
        Phase::Redeclare => Phase::Preauthorize,
        Phase::Preauthorize => Phase::Propose,
        Phase::Propose => if proposal_only {
            Phase::Done
        } else {
            Phase::Evaluate
        },
        Phase::Evaluate => Phase::Maintain,
        Phase::Maintain => Phase::Done,
        Phase::Done => Phase::Done,
    }
}

pub fn next_phase(done: Phase, retained: bool, attempt: Attempt, proposal_only: bool) -> (r: Phase)
    ensures
        r == phase_after(done, retained, attempt, proposal_only),
{
    match done {
        Phase::Begin => if retained {
            Phase::Resume
        } else {
            Phase::Import
        },
        Phase::Import => Phase::SetUp,
        Phase::SetUp => Phase::Declare,
        Phase::Declare => Phase::Preauthorize,
        Phase::Resume => if attempt.proposal > 1 {
            Phase::Redeclare
        } else {
            Phase::Preauthorize
        },
        Phase::Redeclare => Phase::Preauthorize,
        Phase::Preauthorize => Phase::Propose,
        Phase::Propose => if proposal_only {
            Phase::Done
        } else {
            Phase::Evaluate
        },
        Phase::Evaluate => Phase::Maintain,
        Phase::Maintain => Phase::Done,
        Phase::Done => Phase::Done,
    }
}

/// The phase that a study is in after some steps.
pub open spec fn phase_at(n: nat, retained: bool, attempt: Attempt, proposal_only: bool) -> Phase
    decreases n,
{
    if n == 0 {
        Phase::Begin
    } else {
        phase_after(
            phase_at((n - 1) as nat, retained, attempt, proposal_only),
            retained,
            attempt,
            proposal_only,
        )
    }
}

/// The phase in which the comparison of an attempt is fixed.
pub open spec fn fixing_phase(retained: bool, attempt: Attempt) -> Phase {
    if !retained {
        Phase::Declare
    } else if attempt.proposal > 1 {
        Phase::Redeclare
    } else {
        Phase::Resume
    }
}

proof fn lemma_phases(retained: bool, attempt: Attempt, proposal_only: bool)
    ensures
        phase_at(1, retained, attempt, proposal_only) == phase_after(
            Phase::Begin,
            retained,
            attempt,
            proposal_only,
        ),
        phase_at(fixing_step(retained, attempt), retained, attempt, proposal_only) == fixing_phase(
            retained,
            attempt,
        ),
        phase_at(fixing_step(retained, attempt) + 1, retained, attempt, proposal_only)
            == Phase::Preauthorize,
        phase_at(fixing_step(retained, attempt) + 2, retained, attempt, proposal_only)
            == Phase::Propose,
        phase_at(fixing_step(retained, attempt) + 5, retained, attempt, proposal_only)
            == Phase::Done,
        forall|n: nat|
            n < fixing_step(retained, attempt) + 2 ==> !(#[trigger] phase_at(
                n,
                retained,
                attempt,
                proposal_only,
            ) is Propose),
{
    reveal_with_fuel(phase_at, 10);
}

spec fn fixing_step(retained: bool, attempt: Attempt) -> nat {
    if !retained {
        3
    } else if attempt.proposal > 1 {
        2
    } else {
        1
    }
}

/// The comparison is fixed, and its promotion preauthorized, before the proposal model receives its
/// sources: whenever a study proposes, it fixed the comparison of its attempt in an earlier phase
/// and preauthorized behind that.
pub proof fn comparison_is_fixed_before_the_proposal(
    n: nat,
    retained: bool,
    attempt: Attempt,
    proposal_only: bool,
) -> (fixed: nat)
    requires
        phase_at(n, retained, attempt, proposal_only) is Propose,
    ensures
        fixed + 1 < n,
        phase_at(fixed, retained, attempt, proposal_only) == fixing_phase(retained, attempt),
        phase_at(fixed + 1, retained, attempt, proposal_only) is Preauthorize,
{
    lemma_phases(retained, attempt, proposal_only);
    fixing_step(retained, attempt)
}

proof fn lemma_done_stays(
    n: nat,
    m: nat,
    retained: bool,
    attempt: Attempt,
    proposal_only: bool,
)
    requires
        n <= m,
        phase_at(n, retained, attempt, proposal_only) is Done,
    ensures
        phase_at(m, retained, attempt, proposal_only) is Done,
    decreases m - n,
{
    if n < m {
        lemma_done_stays(n, (m - 1) as nat, retained, attempt, proposal_only);
    }
}

/// Every study ends, after no more than eight phases.
pub proof fn studies_end(n: nat, retained: bool, attempt: Attempt, proposal_only: bool)
    requires
        n >= 8,
    ensures
        phase_at(n, retained, attempt, proposal_only) is Done,
{
    lemma_phases(retained, attempt, proposal_only);
    lemma_done_stays(fixing_step(retained, attempt) + 5, n, retained, attempt, proposal_only);
}

/// A study that only proposes neither evaluates nor maintains anything.
pub proof fn proposals_alone_evaluate_nothing(n: nat, retained: bool, attempt: Attempt)
    ensures
        !(phase_at(n, retained, attempt, true) is Evaluate),
        !(phase_at(n, retained, attempt, true) is Maintain),
    decreases n,
{
    if n > 0 {
        proposals_alone_evaluate_nothing((n - 1) as nat, retained, attempt);
    }
}

/// What builds the image of the maintained tools.
pub fn containerfile(image: &str) -> (r: String)
    ensures
        r@ == "FROM "@ + image@
            + "\nCOPY slotbook-workspace /usr/local/bin/slotbook-workspace\n"@,
{
    joined3("FROM ", image, "\nCOPY slotbook-workspace /usr/local/bin/slotbook-workspace\n")
}

/// The guidance of a maintained tool, for later tasks to select, under the key of its comparison.
pub open spec fn note_of(reference: Tree, updated: Tree, result: Tree, comparison: Seq<char>) -> Result<
    Seq<char>,
    Seq<char>,
> {
    match at(reference, "digest"@) {
        Tree::Text(digest) => match unsigned_at(updated, "generation"@) {
            Some(generation) => match at(result, "selected_method"@) {
                Tree::Text(method) => Ok(
                    "Maintained tool recipe "@ + digest + " at generation "@ + decimal(
                        generation as nat,
                    )
                        + " was verified in a fresh installation before activation. Candidate bytes were preserved. Selected method: "@
                        + method + ". Comparison: agent:slotbook-evaluator/"@ + comparison
                        + "; promoted: "@ + rendered(at(result, "promoted"@))
                        + ". Future tasks must select this guidance explicitly."@,
                ),
                _ => Err("expected string in product response"@),
            },
            None => Err("expected integer in product response"@),
        },
        _ => Err("expected string in product response"@),
    }
}

pub fn note(reference: &Json, updated: &Json, result: &Json, comparison: &str) -> (r: Checked<String>)
    ensures
        checked_text(r) == note_of(reference@, updated@, result@, comparison@),
{
    let digest: String = text(&reference.get("digest"))?;
    let generation: u64 = whole_number(updated, "generation")?;
    let method: String = text(&result.get("selected_method"))?;
    let recipe: String = joined3("Maintained tool recipe ", digest.as_str(), " at generation ");
    let verified: String = joined3(
        recipe.as_str(),
        number_text(generation).as_str(),
        " was verified in a fresh installation before activation. Candidate bytes were preserved. Selected method: ",
    );
    let selected: String = joined3(
        verified.as_str(),
        method.as_str(),
        ". Comparison: agent:slotbook-evaluator/",
    );
    let compared: String = joined3(selected.as_str(), comparison, "; promoted: ");
    Ok(
        joined3(
            compared.as_str(),
            render(&result.get("promoted")).as_str(),
            ". Future tasks must select this guidance explicitly.",
        ),
    )
}

/// The approval of a next selection: the promotion's receipt under its key, where there was one.
pub open spec fn approval_of(result: Tree, promotion: Seq<char>) -> Tree {
    if at(result, "promoted"@) == Tree::Bool(true) {
        receipt_tree(promotion, EVALUATOR@)
    } else {
        Tree::Null
    }
}

pub fn approval(result: &Json, promotion: &str) -> (r: Json)
    ensures
        r@ == approval_of(result@, promotion@),
{
    if result.is_flag("promoted", true) {
        receipt(promotion, EVALUATOR)
    } else {
        Json::Null
    }
}

} // verus!
