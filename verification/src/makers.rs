//! What the library makes of values that a scenario knows.
//!
//! A scenario's `make` names one of these makers. Each is a function of its arguments alone: the
//! documents of `scripts::documents`, from what is known or from the object that is their argument,
//! and the rules of the tools.

use vstd::prelude::*;

use crate::application::document_result;
use crate::endpoint::{host_port_of, model_destination, parsed_url};
use crate::external::{
    artifact_evidence, artifact_rows, model_failure, model_failure_of, Unfinished,
};
use crate::failure::{failure, Checked};
use crate::json::{
    at, element_with, found, items, lemma_trees, lemma_trees_push, placed, segments, takes, tree, trees, unsigned_at, with,
    Json, Tree,
};
use crate::render::{
    debug_option, debug_texts, debugged_option, debugged_texts, render, rendered,
};
use crate::runs::{children, runs_of};
use crate::scenario::{document_of, name_list, text_list};
use crate::scripts::documents;
use crate::scripts::documents::{
    SLOTBOOK_POLICY,
    SLOTBOOK_REQUIREMENT,
    SLOTBOOK_SCOPE,
    SLOTBOOK_PROTECTED_RECIPE,
    SLOTBOOK_WORKER_RECIPE,
    SLOTBOOK_SESSION_CONFIG,
    SEED_INPUTS,
    FORGED_INPUTS,
    REPAIR_PROPOSAL,
    PUBLISHED_DESCRIPTOR,
    PUBLISHED_METHOD,
    PUBLICATION_CONFIG,
    PEER_RELATIONSHIP,
    PEER_PROVIDER_CONFIG,
    PEER_ORIGIN_CONFIG,
    OUTER_TASK,
    OUTER_PEER_TASK,
    OUTER_MUTATIONS,
    LEARNING_OPERATOR,
    LEARNING_EVALUATOR,
    LEARNING_CONFIG,
    LEARNING_WORKER_RECIPE,
    LEARNING_TARGET_RECIPE,
    LEARNING_SERVICE,
    LEARNING_BUDGET,
    LEARNING_METHOD,
    LEARNING_LEARNER,
    PROPOSAL_MODEL,
};
use crate::slotbook::client::InvocationMode;
use crate::slotbook::learning::{artifacts, captured, included, including};
use crate::slotbook::method::{
    artifact_schema, artifact_tree, port, port_tree,
    edge, edge_tree, governed_verification, learning_mutations, learning_tree, method_mutations, method_tree,
    no_entries, open_document, opened, repair_mutations, repair_tree,
};
use crate::slotbook::proposal::{
    citations, cited, prompt, prompt_of, proposal_mutations, proposing_tree, shown_sources, sources,
    with_source_ports, with_sources,
};
use crate::slotbook::qualification::{
    catalog_entries, failed_checks, failed_names, forge, forgeable, forged_checks, linked_of,
    linked_runs, links, peer_capability,
};
use crate::slotbook::service::{
    active, availability_path, form_query, path, remaining, states_availability, Finding,
};
use crate::slotbook::study::{
    approval, approval_of, cases, grant_slot, granted_slot, held_out_cases, held_out_view,
    held_out_views, note, note_of, pages, pages_of, pair, pair_tree, product_document, product_tree,
    study_slots, trust_slot, trusted_slot, variant_inputs, variant_trees, HeldOut,
};
use crate::text::{lemma_texts_push, occurs, same_text, texts};

verus! {

/// An argument, or null where it is not there.
pub open spec fn nth(args: Seq<Tree>, i: int) -> Tree {
    if 0 <= i < args.len() {
        args[i]
    } else {
        Tree::Null
    }
}

fn take(args: &Vec<Json>, i: usize) -> (r: Json)
    ensures
        r@ == nth(trees(args@), i as int),
{
    proof {
        lemma_trees(args@);
    }
    if i < args.len() {
        args[i].copy()
    } else {
        Json::Null
    }
}

/// What a document's maker starts from: its argument, or everything that is known.
pub open spec fn ground(args: Seq<Tree>, env: Tree) -> Tree {
    if args.len() > 0 {
        args[0]
    } else {
        env
    }
}

pub open spec fn text_in(t: Tree) -> Option<Seq<char>> {
    match t {
        Tree::Text(s) => Some(s),
        _ => None,
    }
}

pub open spec fn mode_in(t: Tree) -> InvocationMode {
    if t == Tree::Text("peer"@) {
        InvocationMode::Peer
    } else {
        InvocationMode::Direct
    }
}

fn is_object(j: &Json) -> (r: bool)
    ensures
        r == (j@ is Object),
{
    matches!(j, Json::Object(_))
}

/// Which of the two modes without a peer is meant makes no difference to the runs that belong to a
/// call.
proof fn linked_modes(
    runs: Seq<Tree>,
    public: Option<Seq<char>>,
    a: InvocationMode,
    b: InvocationMode,
)
    requires
        a == InvocationMode::Peer <==> b == InvocationMode::Peer,
    ensures
        linked_of(runs, public, a) == linked_of(runs, public, b),
{
    let f = |run: Tree| links(run, public, a);
    let g = |run: Tree| links(run, public, b);
    assert(f =~= g);
}

proof fn lemma_placed_root(t: Tree)
    ensures
        forall|value: Tree| #[trigger] placed(t, segments(""@), value) == value,
{
    reveal_strlit("");
    assert(segments(""@) =~= seq![]);
}

fn is_forgeable(report: &Json) -> (r: bool)
    ensures
        r == forgeable(report@),
{
    let n: usize = report.count("evaluation,checks");
    let ghost checks = items(report@, "evaluation,checks"@);
    let mut i: usize = 0;
    while i < n
        invariant
            i <= n,
            n == checks.len(),
            checks == items(report@, "evaluation,checks"@),
            forall|j: int| 0 <= j < i ==> (#[trigger] checks[j] is Object || checks[j] is Null),
        decreases n - i,
    {
        let open: bool = match report.item("evaluation,checks", i) {
            Json::Object(_) => true,
            Json::Null => true,
            _ => false,
        };
        if !open {
            proof {
                assert(!(checks[i as int] is Object || checks[i as int] is Null));
            }
            return false;
        }
        i = i + 1;
    }
    true
}

/// The text of an element, or none.
pub open spec fn text_or_none(t: Tree) -> Seq<char> {
    match t {
        Tree::Text(s) => s,
        _ => seq![],
    }
}

/// The texts of a list.
pub open spec fn texts_in(l: Seq<Tree>) -> Seq<Seq<char>> {
    l.map_values(|t: Tree| text_or_none(t))
}

/// The names of a list's elements.
pub open spec fn names_in(l: Seq<Tree>) -> Seq<Seq<char>> {
    l.map_values(|t: Tree| text_or_none(at(t, "name"@)))
}

/// An element with its role and its text.
pub open spec fn shown_element(t: Tree) -> Tree {
    with(
        with(no_entries(), "role"@, at(t, "role"@)),
        "text"@,
        Tree::Text(rendered(t)),
    )
}

pub open spec fn shown_elements(l: Seq<Tree>) -> Seq<Tree> {
    l.map_values(|t: Tree| shown_element(t))
}

fn show_elements(list: &Json, v: &Vec<Json>) -> (r: Checked<Json>)
    requires
        list@ == Tree::List(trees(v@)),
    ensures
        document_result(r) == Ok::<Tree, Seq<char>>(Tree::List(shown_elements(trees(v@)))),
{
    let ghost wanted = shown_elements(trees(v@));
    let mut out: Json = Json::list();
    let mut i: usize = 0;
    proof {
        lemma_trees(v@);
        assert(out@->List_0 =~= wanted.take(0));
    }
    while i < v.len()
        invariant
            i <= v.len(),
            trees(v@).len() == v.len(),
            forall|k: int| 0 <= k < v.len() ==> #[trigger] trees(v@)[k] == tree(v@[k]),
            wanted == shown_elements(trees(v@)),
            out@ == Tree::List(wanted.take(i as int)),
        decreases v.len() - i,
    {
        let next: Json = Json::object().with("role", v[i].get("role")).with(
            "text",
            Json::Text(render(&v[i])),
        );
        proof {
            assert(trees(v@)[i as int] == tree(v@[i as int]));
            assert(wanted[i as int] == next@);
            assert(wanted.take(i + 1) =~= wanted.take(i as int).push(next@));
        }
        out = out.and(next);
        i = i + 1;
    }
    proof {
        assert(wanted.take(i as int) =~= wanted);
    }
    Ok(out)
}

fn listed_texts(lines: &Json) -> (r: Vec<String>)
    ensures
        texts(r@) == texts_in(items(lines@, ""@)),
{
    let ghost wanted = texts_in(items(lines@, ""@));
    let n: usize = lines.count("");
    let mut out: Vec<String> = Vec::new();
    let mut i: usize = 0;
    proof {
        assert(texts(out@) =~= wanted.take(0));
    }
    while i < n
        invariant
            i <= n,
            n == items(lines@, ""@).len(),
            wanted == texts_in(items(lines@, ""@)),
            texts(out@) == wanted.take(i as int),
        decreases n - i,
    {
        let line: String = match lines.item("", i) {
            Json::Text(t) => t.as_str().to_owned(),
            _ => String::new(),
        };
        proof {
            lemma_texts_push(out@, line);
            assert(wanted.take(i + 1) =~= wanted.take(i as int).push(line@));
        }
        out.push(line);
        i = i + 1;
    }
    proof {
        assert(wanted.take(i as int) =~= wanted);
    }
    out
}

fn output_names(attempt: &Json) -> (r: Vec<String>)
    ensures
        texts(r@) == names_in(items(attempt@, "outputs"@)),
{
    let ghost wanted = names_in(items(attempt@, "outputs"@));
    let n: usize = attempt.count("outputs");
    let mut out: Vec<String> = Vec::new();
    let mut i: usize = 0;
    proof {
        assert(texts(out@) =~= wanted.take(0));
    }
    while i < n
        invariant
            i <= n,
            n == items(attempt@, "outputs"@).len(),
            wanted == names_in(items(attempt@, "outputs"@)),
            texts(out@) == wanted.take(i as int),
        decreases n - i,
    {
        let name: String = match attempt.item("outputs", i).text_at("name") {
            Some(t) => t,
            None => String::new(),
        };
        proof {
            lemma_texts_push(out@, name);
            assert(wanted.take(i + 1) =~= wanted.take(i as int).push(name@));
        }
        out.push(name);
        i = i + 1;
    }
    proof {
        assert(wanted.take(i as int) =~= wanted);
    }
    out
}

/// Appends copies of some documents.
fn append(out: &mut Vec<Json>, more: &Vec<Json>)
    ensures
        trees(final(out)@) == trees(old(out)@) + trees(more@),
{
    let ghost start = trees(out@);
    let mut i: usize = 0;
    proof {
        lemma_trees(more@);
        assert(start + trees(more@).take(0) =~= start);
    }
    while i < more.len()
        invariant
            i <= more.len(),
            trees(more@).len() == more.len(),
            forall|k: int| 0 <= k < more.len() ==> #[trigger] trees(more@)[k] == tree(more@[k]),
            trees(out@) == start + trees(more@).take(i as int),
        decreases more.len() - i,
    {
        let next: Json = more[i].copy();
        proof {
            lemma_trees_push(out@, next);
            assert(trees(more@)[i as int] == next@);
            assert(start + trees(more@).take(i + 1) =~= (start + trees(more@).take(i as int)).push(
                next@,
            ));
        }
        out.push(next);
        i = i + 1;
    }
    proof {
        assert(trees(more@).take(i as int) =~= trees(more@));
    }
}

/// An observation that refutes a check.
pub open spec fn violation_tree(message: Seq<char>) -> Tree {
    with(no_entries(), "violation"@, Tree::Text(message))
}

fn violation(message: &str) -> (r: Json)
    ensures
        r@ == violation_tree(message@),
{
    Json::object().with("violation", Json::text(message))
}

/// The position of the first case of a name, from one of them on.
pub open spec fn case_named(name: Seq<char>, from: int) -> Option<int>
    decreases held_out_cases().len() - from,
{
    if from < 0 || from >= held_out_cases().len() {
        None
    } else if held_out_cases()[from].name == name {
        Some(from)
    } else {
        case_named(name, from + 1)
    }
}

fn find_case(all: &Vec<HeldOut>, name: &str) -> (r: Option<usize>)
    requires
        held_out_views(all@) == held_out_cases(),
    ensures
        match r {
            Some(i) => i < all@.len() && case_named(name@, 0) == Some(i as int),
            None => case_named(name@, 0) is None,
        },
{
    let mut i: usize = 0;
    proof {
        assert(held_out_views(all@).len() == all@.len());
    }
    while i < all.len()
        invariant
            i <= all.len(),
            all@.len() == held_out_cases().len(),
            held_out_views(all@) == held_out_cases(),
            case_named(name@, 0) == case_named(name@, i as int),
        decreases all.len() - i,
    {
        proof {
            assert(held_out_views(all@)[i as int] == held_out_view(all@[i as int]));
        }
        if same_text(all[i].name, name) {
            return Some(i);
        }
        i = i + 1;
    }
    None
}

/// Each of some documents as compact JSON.
pub open spec fn rendered_each(l: Seq<Tree>) -> Seq<Seq<char>> {
    l.map_values(|t: Tree| rendered(t))
}

fn render_each(list: &Json) -> (r: Vec<String>)
    ensures
        texts(r@) == rendered_each(items(list@, ""@)),
{
    let ghost wanted = rendered_each(items(list@, ""@));
    let n: usize = list.count("");
    let mut out: Vec<String> = Vec::new();
    let mut i: usize = 0;
    proof {
        assert(texts(out@) =~= wanted.take(0));
    }
    while i < n
        invariant
            i <= n,
            n == items(list@, ""@).len(),
            wanted == rendered_each(items(list@, ""@)),
            texts(out@) == wanted.take(i as int),
        decreases n - i,
    {
        let next: String = render(list.item("", i));
        proof {
            lemma_texts_push(out@, next);
            assert(wanted.take(i + 1) =~= wanted.take(i as int).push(next@));
        }
        out.push(next);
        i = i + 1;
    }
    proof {
        assert(wanted.take(i as int) =~= wanted);
    }
    out
}

/// A shown source as the artifact that it is.
pub open spec fn named_source(reference: Tree) -> Tree {
    with(
        with(no_entries(), "type"@, Tree::Text("artifact"@)),
        "reference"@,
        reference,
    )
}

pub open spec fn named_sources(l: Seq<Tree>) -> Seq<Tree> {
    l.map_values(|t: Tree| named_source(t))
}

fn name_sources(list: &Json) -> (r: Json)
    ensures
        r@ == Tree::List(named_sources(items(list@, ""@))),
{
    let ghost wanted = named_sources(items(list@, ""@));
    let n: usize = list.count("");
    let mut out: Json = Json::list();
    let mut i: usize = 0;
    proof {
        assert(out@->List_0 =~= wanted.take(0));
    }
    while i < n
        invariant
            i <= n,
            n == items(list@, ""@).len(),
            wanted == named_sources(items(list@, ""@)),
            out@ == Tree::List(wanted.take(i as int)),
        decreases n - i,
    {
        let next: Json = Json::object().with("type", Json::text("artifact")).with(
            "reference",
            list.item("", i).copy(),
        );
        proof {
            assert(wanted[i as int] == next@);
            assert(wanted.take(i + 1) =~= wanted.take(i as int).push(next@));
        }
        out = out.and(next);
        i = i + 1;
    }
    proof {
        assert(wanted.take(i as int) =~= wanted);
    }
    out
}
/// The names of an evaluation's failed checks.
pub open spec fn made_failed_checks(evaluation: Tree) -> Result<Tree, Seq<char>> {
    match at(evaluation, "checks"@) {
        Tree::List(l) => match failed_names(l, l.len() as int) {
            Some(names) => Ok(text_list(names)),
            None => Err("expected string in product response"@),
        },
        _ => Err("checks absent"@),
    }
}

fn make_failed_checks(evaluation: &Json) -> (r: Checked<Json>)
    ensures
        document_result(r) == made_failed_checks(evaluation@),
{
    let names: Vec<String> = failed_checks(evaluation)?;
    Ok(name_list(&names))
}

/// The checks of a report as a forger writes them.
pub open spec fn made_forged_checks(report: Tree) -> Result<Tree, Seq<char>> {
    match at(report, "evaluation,checks"@) {
        Tree::List(l) => if forgeable(report) {
            Ok(Tree::List(forged_checks(l)))
        } else {
            Err("checks absent"@)
        },
        _ => Err("checks absent"@),
    }
}

fn make_forged_checks(report: &Json) -> (r: Checked<Json>)
    ensures
        document_result(r) == made_forged_checks(report@),
{
    if !is_forgeable(report) {
        return Err(failure("checks absent"));
    }
    forge(report)
}

/// The capability of a peer in the origin's catalog.
pub open spec fn made_peer_capability(catalog: Tree) -> Result<Tree, Seq<char>> {
    match catalog_entries(catalog) {
        Tree::List(l) => match element_with(l, "locality"@, Tree::Text("peer"@)) {
            Some(e) => match at(e, "capability_id"@) {
                Tree::Text(t) => Ok(Tree::Text(t)),
                _ => Err("expected string in product response"@),
            },
            None => Err("peer capability absent"@),
        },
        _ => Err("origin catalog absent"@),
    }
}

fn make_peer_capability(catalog: &Json) -> (r: Checked<Json>)
    ensures
        document_result(r) == made_peer_capability(catalog@),
{
    Ok(Json::Text(peer_capability(catalog)?))
}

/// The runs of a page that belong to the accepted call.
pub open spec fn made_linked_runs(page: Tree, public: Tree, mode: Tree) -> Result<Tree, Seq<char>> {
    match at(page, "value,items"@) {
        Tree::List(l) => Ok(Tree::List(linked_of(l, text_in(public), mode_in(mode)))),
        _ => Err("run inventory absent"@),
    }
}

fn make_linked_runs(page: &Json, public: &Json, mode: &Json) -> (r: Checked<Json>)
    ensures
        document_result(r) == made_linked_runs(page@, public@, mode@),
{
    let kind: InvocationMode = if mode.is_text("", "peer") {
        InvocationMode::Peer
    } else {
        InvocationMode::Direct
    };
    proof {
        crate::json::lemma_root(mode@);
        linked_modes(items(page@, "value,items"@), text_in(public@), mode_in(mode@), kind);
    }
    match public {
        Json::Text(t) => linked_runs(page, Some(t.as_str()), kind),
        _ => linked_runs(page, None, kind),
    }
}

/// The runs of a workflow on one page of runs.
pub open spec fn made_children(page: Tree, workflow: Tree) -> Result<Tree, Seq<char>> {
    match (at(page, "value,items"@), workflow) {
        (Tree::List(l), Tree::Text(w)) => match runs_of(l, w, l.len() as int) {
            Ok(runs) => Ok(text_list(runs)),
            Err(e) => Err(e),
        },
        (_, Tree::Text(w)) => Err("run list absent"@),
        _ => Err("scenario value is absent"@),
    }
}

fn make_children(page: &Json, workflow: &Json) -> (r: Checked<Json>)
    ensures
        document_result(r) == made_children(page@, workflow@),
{
    match workflow {
        Json::Text(w) => {
            let runs: Vec<String> = children(page, w.as_str())?;
            Ok(name_list(&runs))
        },
        _ => Err(failure("scenario value is absent")),
    }
}

/// The mutations that create the example's method.
pub open spec fn made_method_mutations(
    requirement: Tree,
    version: Tree,
) -> Result<Tree, Seq<char>> {
    match (requirement, unsigned_at(version, ""@)) {
        (Tree::Object(_), Some(n)) => Ok(method_tree(requirement, n)),
        _ => Err("scenario value is absent"@),
    }
}

fn make_method_mutations(requirement: &Json, version: &Json) -> (r: Checked<Json>)
    ensures
        document_result(r) == made_method_mutations(requirement@, version@),
{
    match (requirement, version.number_at("")) {
        (Json::Object(_), Some(n)) => Ok(method_mutations(requirement, n)),
        _ => Err(failure("scenario value is absent")),
    }
}

/// The mutations that repair the example's method.
pub open spec fn made_repair_mutations(requirement: Tree) -> Result<Tree, Seq<char>> {
    Ok(repair_tree(requirement))
}

fn make_repair_mutations(requirement: &Json) -> (r: Checked<Json>)
    ensures
        document_result(r) == made_repair_mutations(requirement@),
{
    Ok(repair_mutations(requirement))
}

/// The mutations that create the learning method, where the governed one is complete.
pub open spec fn made_learning_mutations(governed: Tree) -> Result<Tree, Seq<char>> {
    if opened(at(governed, "revision,semantic,nodes,repair.begin,kind,config,requirement"@)) is Object
        && governed_verification(governed) is Object && takes(
        governed_verification(governed),
        segments("data_inputs,target,binding"@),
    ) {
        Ok(learning_tree(governed))
    } else {
        Err("governed method is incomplete"@)
    }
}

fn make_learning_mutations(governed: &Json) -> (r: Checked<Json>)
    ensures
        document_result(r) == made_learning_mutations(governed@),
{
    let requirement: Json = open_document(
        governed,
        "revision,semantic,nodes,repair.begin,kind,config,requirement",
    );
    let verify: Json = open_document(governed, "revision,semantic,nodes,verify-candidate");
    if is_object(&requirement) && is_object(&verify) && verify.takes("data_inputs,target,binding") {
        Ok(learning_mutations(governed))
    } else {
        Err(failure("governed method is incomplete"))
    }
}

/// Where a model's endpoint is reached.
pub open spec fn made_model_destination(url: Tree) -> Result<Tree, Seq<char>> {
    match url {
        Tree::Text(t) => match host_port_of(
            parsed_url(t),
            "model host absent"@,
            "model port absent"@,
        ) {
            Ok(destination) => Ok(Tree::Text(destination)),
            Err(e) => Err(e),
        },
        _ => Err("scenario value is absent"@),
    }
}

fn make_model_destination(url: &Json) -> (r: Checked<Json>)
    ensures
        document_result(r) == made_model_destination(url@),
{
    match url {
        Json::Text(t) => Ok(Json::Text(model_destination(t.as_str())?)),
        _ => Err(failure("scenario value is absent")),
    }
}

/// A configuration whose publications of a capability run under a grant.
pub open spec fn made_grant_slot(
    config: Tree,
    capability: Tree,
    grant: Tree,
) -> Result<Tree, Seq<char>> {
    match (capability, grant) {
        (Tree::Text(c), Tree::Text(g)) => if opened(at(config, "runtime,publication_services"@))
            is Object && takes(config, segments("runtime,publication_services"@)) {
            Ok(granted_slot(config, c, g))
        } else {
            Err("configuration is not open"@)
        },
        _ => Err("expected string in product response"@),
    }
}

fn make_grant_slot(config: &Json, capability: &Json, grant: &Json) -> (r: Checked<Json>)
    ensures
        document_result(r) == made_grant_slot(config@, capability@, grant@),
{
    match (capability, grant) {
        (Json::Text(c), Json::Text(g)) => {
            let services: Json = open_document(config, "runtime,publication_services");
            if is_object(&services) && config.takes("runtime,publication_services") {
                Ok(grant_slot(config.copy(), c.as_str(), g.as_str()))
            } else {
                Err(failure("configuration is not open"))
            }
        },
        _ => Err(failure("expected string in product response")),
    }
}

/// A configuration that reads a slot's credential from a file.
pub open spec fn made_trust_slot(config: Tree, name: Tree, path: Tree) -> Result<Tree, Seq<char>> {
    match (name, path) {
        (Tree::Text(n), Tree::Text(p)) => if opened(at(config, "secret_sources"@)) is Object
            && takes(config, segments("secret_sources"@)) {
            Ok(trusted_slot(config, n, p))
        } else {
            Err("configuration is not open"@)
        },
        _ => Err("expected string in product response"@),
    }
}

fn make_trust_slot(config: &Json, name: &Json, path: &Json) -> (r: Checked<Json>)
    ensures
        document_result(r) == made_trust_slot(config@, name@, path@),
{
    match (name, path) {
        (Json::Text(n), Json::Text(p)) => {
            let sources: Json = open_document(config, "secret_sources");
            if is_object(&sources) && config.takes("secret_sources") {
                Ok(trust_slot(config.copy(), n.as_str(), p.as_str()))
            } else {
                Err(failure("configuration is not open"))
            }
        },
        _ => Err(failure("expected string in product response")),
    }
}

/// The last element of a list.
pub open spec fn made_last(list: Tree) -> Result<Tree, Seq<char>> {
    match list {
        Tree::List(l) if l.len() > 0 => Ok(l.last()),
        _ => Err("source slot absent"@),
    }
}

fn make_last(list: &Json) -> (r: Checked<Json>)
    ensures
        document_result(r) == made_last(list@),
{
    match list {
        Json::List(l) => {
            proof {
                lemma_trees(l@);
            }
            if l.len() > 0 {
                Ok(l[l.len() - 1].copy())
            } else {
                Err(failure("source slot absent"))
            }
        },
        _ => Err(failure("source slot absent")),
    }
}

/// The selected pages of the source run.
pub open spec fn made_pages(source: Tree) -> Result<Tree, Seq<char>> {
    match unsigned_at(source, "completed_run,sequence"@) {
        Some(n) => if n >= 3 {
            Ok(pages_of(source, n))
        } else {
            Err("source run is too short"@)
        },
        None => Err("expected integer in product response"@),
    }
}

fn make_pages(source: &Json) -> (r: Checked<Json>)
    ensures
        document_result(r) == made_pages(source@),
{
    match source.number_at("completed_run,sequence") {
        Some(n) => if n >= 3 {
            pages(source)
        } else {
            Err(failure("source run is too short"))
        },
        None => Err(failure("expected integer in product response")),
    }
}

/// A list with a value that it may hold already.
pub open spec fn made_including(list: Tree, value: Tree) -> Result<Tree, Seq<char>> {
    match list {
        Tree::List(l) => Ok(Tree::List(included(l, value))),
        _ => Err("declaration provenance absent"@),
    }
}

fn make_including(list: &Json, value: &Json) -> (r: Checked<Json>)
    ensures
        document_result(r) == made_including(list@, value@),
{
    proof {
        crate::json::lemma_root(list@);
        lemma_placed_root(list@);
    }
    including(list.copy(), "", value, "declaration provenance absent")
}

/// The artifacts that observations announce.
pub open spec fn made_observed_artifacts(observations: Tree) -> Result<Tree, Seq<char>> {
    Ok(
        Tree::List(captured(items(observations, ""@), items(observations, ""@).len() as int)),
    )
}

fn make_observed_artifacts(observations: &Json) -> (r: Checked<Json>)
    ensures
        document_result(r) == made_observed_artifacts(observations@),
{
    Ok(artifacts(observations))
}

/// The artifacts of an attempt, under a role where there is one.
pub open spec fn made_attempt_artifacts(role: Tree, read: Tree) -> Result<Tree, Seq<char>> {
    Ok(Tree::List(artifact_rows(text_in(role), items(read, "outputs"@))))
}

fn make_attempt_artifacts(role: &Json, read: &Json) -> (r: Checked<Json>)
    ensures
        document_result(r) == made_attempt_artifacts(role@, read@),
{
    match role {
        Json::Text(t) => Ok(artifact_evidence(Some(t.as_str()), read)),
        _ => Ok(artifact_evidence(None, read)),
    }
}

/// The inputs of a method's invocation.
pub open spec fn made_variant_inputs(input: Tree, method: Tree) -> Result<Tree, Seq<char>> {
    Ok(Tree::List(variant_trees(input, method)))
}

fn make_variant_inputs(input: &Json, method: &Json) -> (r: Checked<Json>)
    ensures
        document_result(r) == made_variant_inputs(input@, method@),
{
    Ok(variant_inputs(input, method))
}

/// A document as compact JSON.
pub open spec fn made_rendered(value: Tree) -> Result<Tree, Seq<char>> {
    Ok(Tree::Text(rendered(value)))
}

fn make_rendered(value: &Json) -> (r: Checked<Json>)
    ensures
        document_result(r) == made_rendered(value@),
{
    Ok(Json::Text(render(value)))
}

/// The elements of a list, each with its role and its compact JSON.
pub open spec fn made_rendered_elements(list: Tree) -> Result<Tree, Seq<char>> {
    match list {
        Tree::List(l) => Ok(Tree::List(shown_elements(l))),
        _ => Err("scenario value is absent"@),
    }
}

fn make_rendered_elements(list: &Json) -> (r: Checked<Json>)
    ensures
        document_result(r) == made_rendered_elements(list@),
{
    match list {
        Json::List(v) => show_elements(list, v),
        _ => Err(failure("scenario value is absent")),
    }
}

/// Why a model run did not succeed.
pub open spec fn made_model_failure(
    health: Tree,
    attempt: Tree,
    acceptance: Tree,
    requests: Tree,
    lines: Tree,
) -> Result<Tree, Seq<char>> {
    Ok(
        Tree::Text(
            model_failure_of(
                match acceptance {
                    Tree::Null => None,
                    _ => Some(acceptance),
                },
                attempt,
                match unsigned_at(requests, ""@) {
                    Some(n) => n as nat,
                    None => 0,
                },
                debugged_texts(texts_in(items(lines, ""@))),
                debugged_option(text_in(at(health, "last_failure"@))),
                debugged_option(text_in(at(attempt, "terminal"@))),
                debugged_texts(names_in(items(attempt, "outputs"@))),
            ),
        ),
    )
}

fn make_model_failure(
    health: &Json,
    attempt: &Json,
    acceptance: &Json,
    requests: &Json,
    lines: &Json,
) -> (r: Checked<Json>)
    ensures
        document_result(r) == made_model_failure(health@, attempt@, acceptance@, requests@, lines@),
{
    let fixture_requests: u64 = match requests.number_at("") {
        Some(n) => n,
        None => 0,
    };
    let known: Unfinished = Unfinished {
        fixture_requests,
        request_lines: debug_texts(&listed_texts(lines)),
        worker_failure: debug_option(&health.text_at("last_failure")),
        terminal: debug_option(&attempt.text_at("terminal")),
        outputs: debug_texts(&output_names(attempt)),
    };
    match acceptance {
        Json::Null => Ok(Json::Text(model_failure(None, attempt, &known))),
        _ => Ok(Json::Text(model_failure(Some(acceptance), attempt, &known))),
    }
}

/// The elements of five lists, one after the other.
pub open spec fn made_chained(
    first: Tree,
    second: Tree,
    third: Tree,
    fourth: Tree,
    fifth: Tree,
) -> Result<Tree, Seq<char>> {
    match (first, second, third, fourth, fifth) {
        (Tree::List(a), Tree::List(b), Tree::List(c), Tree::List(d), Tree::List(e)) => Ok(
            Tree::List(a + b + c + d + e),
        ),
        _ => Err("scenario value is absent"@),
    }
}

fn make_chained(
    first: &Json,
    second: &Json,
    third: &Json,
    fourth: &Json,
    fifth: &Json,
) -> (r: Checked<Json>)
    ensures
        document_result(r) == made_chained(first@, second@, third@, fourth@, fifth@),
{
    match (first, second, third, fourth, fifth) {
        (Json::List(a), Json::List(b), Json::List(c), Json::List(d), Json::List(e)) => {
            let mut out: Vec<Json> = Vec::new();
            append(&mut out, a);
            append(&mut out, b);
            append(&mut out, c);
            append(&mut out, d);
            append(&mut out, e);
            proof {
                assert(trees(out@) =~= trees(a@) + trees(b@) + trees(c@) + trees(d@) + trees(e@));
            }
            Ok(Json::List(out))
        },
        _ => Err(failure("scenario value is absent")),
    }
}

/// The bookings that a private answer lists, or why it violates its contract.
pub open spec fn made_active(answer: Tree) -> Result<Tree, Seq<char>> {
    match at(answer, "violation"@) {
        Tree::Text(v) => Ok(violation_tree(v)),
        _ => if at(answer, "status"@) == Tree::Integer(200) && at(answer, "body"@) is List {
            Ok(with(no_entries(), "items"@, at(answer, "body"@)))
        } else {
            Ok(violation_tree("private bookings unavailable"@))
        },
    }
}

fn make_active(answer: &Json) -> (r: Checked<Json>)
    ensures
        document_result(r) == made_active(answer@),
{
    match answer.text_at("violation") {
        Some(v) => Ok(violation(v.as_str())),
        None => {
            let status: u16 = if answer.is_number("status", 200) {
                200
            } else {
                0
            };
            let body: Json = answer.get("body");
            match active(status, &body) {
                Ok(rows) => Ok(Json::object().with("items", rows)),
                Err(Finding::Violation { message }) => Ok(violation(message.as_str())),
                Err(Finding::Unobserved { message }) => Err(failure(message.as_str())),
            }
        },
    }
}

/// The remaining capacity that a public answer states, or why it violates its contract.
pub open spec fn made_remaining(
    answer: Tree,
    resource: Tree,
    start: Tree,
    end: Tree,
) -> Result<Tree, Seq<char>> {
    match (at(answer, "violation"@), start, end) {
        (Tree::Text(v), _, _) => Ok(violation_tree(v)),
        (_, Tree::Text(s), Tree::Text(e)) => {
            let status: u16 = if at(answer, "status"@) == Tree::Integer(200) {
                200
            } else {
                0
            };
            let body = at(answer, "body"@);
            if !states_availability(status, body, resource, s, e) {
                Ok(violation_tree("availability contract differs"@))
            } else if occurs(rendered(body), "Ada"@) || occurs(rendered(body), "Bo"@) {
                Ok(violation_tree("public response disclosed private names"@))
            } else {
                match unsigned_at(body, "remaining"@) {
                    Some(n) => Ok(with(no_entries(), "count"@, Tree::Integer(n as int))),
                    None => Err("remaining capacity absent"@),
                }
            }
        },
        _ => Err("scenario value is absent"@),
    }
}

fn make_remaining(answer: &Json, resource: &Json, start: &Json, end: &Json) -> (r: Checked<Json>)
    ensures
        document_result(r) == made_remaining(answer@, resource@, start@, end@),
{
    match answer.text_at("violation") {
        Some(v) => Ok(violation(v.as_str())),
        None => match (start, end) {
            (Json::Text(s), Json::Text(e)) => {
                let status: u16 = if answer.is_number("status", 200) {
                    200
                } else {
                    0
                };
                let body: Json = answer.get("body");
                let shown: String = render(&body);
                match remaining(status, &body, shown.as_str(), resource, s.as_str(), e.as_str()) {
                    Ok(n) => Ok(Json::object().with("count", Json::number(n))),
                    Err(Finding::Violation { message }) => Ok(violation(message.as_str())),
                    Err(Finding::Unobserved { message }) => Err(failure(message.as_str())),
                }
            },
            _ => Err(failure("scenario value is absent")),
        },
    }
}

/// The path that asks for the remaining capacity of an interval.
pub open spec fn made_availability_path(start: Tree, end: Tree) -> Result<Tree, Seq<char>> {
    match (start, end) {
        (Tree::Text(s), Tree::Text(e)) => Ok(
            Tree::Text("/availability?"@ + form_query(seq![("start"@, s), ("end"@, e)])),
        ),
        _ => Err("scenario value is absent"@),
    }
}

fn make_availability_path(start: &Json, end: &Json) -> (r: Checked<Json>)
    ensures
        document_result(r) == made_availability_path(start@, end@),
{
    match (start, end) {
        (Json::Text(s), Json::Text(e)) => Ok(
            Json::Text(availability_path(s.as_str(), e.as_str())),
        ),
        _ => Err(failure("scenario value is absent")),
    }
}

/// The path of a booking.
pub open spec fn made_booking_path(item: Tree) -> Result<Tree, Seq<char>> {
    match found(item, "id"@) {
        None => Err("booking identity absent"@),
        Some(Tree::Text(id)) => Ok(Tree::Text("/reservations/"@ + id)),
        Some(id) => Ok(Tree::Text("/reservations/"@ + rendered(id))),
    }
}

fn make_booking_path(item: &Json) -> (r: Checked<Json>)
    ensures
        document_result(r) == made_booking_path(item@),
{
    let shown: String = render(&item.get("id"));
    match path(item, shown.as_str()) {
        Ok(p) => Ok(Json::Text(p)),
        Err(Finding::Violation { message }) => Err(failure(message.as_str())),
        Err(Finding::Unobserved { message }) => Err(failure(message.as_str())),
    }
}

/// The first of some bookings.
pub open spec fn made_first_booking(rows: Tree) -> Result<Tree, Seq<char>> {
    match rows {
        Tree::List(l) if l.len() > 0 => Ok(l[0]),
        _ => Err("booking absent"@),
    }
}

fn make_first_booking(rows: &Json) -> (r: Checked<Json>)
    ensures
        document_result(r) == made_first_booking(rows@),
{
    match rows {
        Json::List(l) => {
            proof {
                lemma_trees(l@);
            }
            if l.len() > 0 {
                Ok(l[0].copy())
            } else {
                Err(failure("booking absent"))
            }
        },
        _ => Err(failure("booking absent")),
    }
}

/// The edge from the invoked method to the end.
pub open spec fn made_finishing_edge() -> Result<Tree, Seq<char>> {
    Ok(edge_tree("finish"@, "invoke-method"@, "done"@, "control"@, "out"@, "in"@))
}

fn make_finishing_edge() -> (r: Checked<Json>)
    ensures
        document_result(r) == made_finishing_edge(),
{
    Ok(edge("finish", "invoke-method", "done", "control", "out", "in"))
}

/// The guidance of a maintained tool.
pub open spec fn made_guidance_note(
    reference: Tree,
    updated: Tree,
    result: Tree,
    comparison: Tree,
) -> Result<Tree, Seq<char>> {
    match comparison {
        Tree::Text(c) => match note_of(reference, updated, result, c) {
            Ok(t) => Ok(Tree::Text(t)),
            Err(e) => Err(e),
        },
        _ => Err("scenario value is absent"@),
    }
}

fn make_guidance_note(
    reference: &Json,
    updated: &Json,
    result: &Json,
    comparison: &Json,
) -> (r: Checked<Json>)
    ensures
        document_result(r) == made_guidance_note(reference@, updated@, result@, comparison@),
{
    match comparison {
        Json::Text(c) => Ok(Json::Text(note(reference, updated, result, c.as_str())?)),
        _ => Err(failure("scenario value is absent")),
    }
}

/// The approval of a next selection.
pub open spec fn made_promotion_approval(result: Tree, promotion: Tree) -> Result<Tree, Seq<char>> {
    match promotion {
        Tree::Text(p) => Ok(approval_of(result, p)),
        _ => Err("scenario value is absent"@),
    }
}

fn make_promotion_approval(result: &Json, promotion: &Json) -> (r: Checked<Json>)
    ensures
        document_result(r) == made_promotion_approval(result@, promotion@),
{
    match promotion {
        Json::Text(p) => Ok(approval(result, p.as_str())),
        _ => Err(failure("scenario value is absent")),
    }
}

/// The input of a held-out case.
pub open spec fn made_held_out_input(name: Tree, policy: Tree) -> Result<Tree, Seq<char>> {
    match name {
        Tree::Text(n) => match case_named(n, 0) {
            Some(i) => Ok(product_tree(held_out_cases()[i], policy)),
            None => Err("pairs absent"@),
        },
        _ => Err("pairs absent"@),
    }
}

fn make_held_out_input(name: &Json, policy: &Json) -> (r: Checked<Json>)
    ensures
        document_result(r) == made_held_out_input(name@, policy@),
{
    match name {
        Json::Text(n) => {
            let all: Vec<HeldOut> = cases();
            match find_case(&all, n.as_str()) {
                Some(i) => {
                    proof {
                        assert(held_out_views(all@)[i as int] == held_out_view(all@[i as int]));
                    }
                    Ok(product_document(&all[i], policy))
                },
                None => Err(failure("pairs absent")),
            }
        },
        _ => Err(failure("pairs absent")),
    }
}

/// A held-out case with its input and the slots of both arms.
pub open spec fn made_held_out_pair(
    name: Tree,
    input: Tree,
    slots: Tree,
) -> Result<Tree, Seq<char>> {
    match (name, slots) {
        (Tree::Text(n), Tree::List(l)) => match case_named(n, 0) {
            Some(i) => if l.len() == study_slots().len() {
                Ok(pair_tree(n, input, l[2 * i], l[2 * i + 1]))
            } else {
                Err("slots absent"@)
            },
            None => Err("pairs absent"@),
        },
        _ => Err("slots absent"@),
    }
}

fn make_held_out_pair(name: &Json, input: &Json, slots: &Json) -> (r: Checked<Json>)
    ensures
        document_result(r) == made_held_out_pair(name@, input@, slots@),
{
    match (name, slots) {
        (Json::Text(n), Json::List(l)) => {
            let all: Vec<HeldOut> = cases();
            proof {
                lemma_trees(l@);
                assert(held_out_views(all@).len() == all@.len());
            }
            match find_case(&all, n.as_str()) {
                Some(i) => if l.len() == 11 {
                    Ok(pair(n.as_str(), input, l, i))
                } else {
                    Err(failure("slots absent"))
                },
                None => Err(failure("pairs absent")),
            }
        },
        _ => Err(failure("slots absent")),
    }
}

/// The inputs of a proposing step with the sources that it is shown.
pub open spec fn made_source_inputs(model: Tree, selection: Tree) -> Result<Tree, Seq<char>> {
    if !(at(selection, "selection,artifacts"@) is List) {
        Err("source artifacts absent"@)
    } else if at(model, "data_inputs"@) is Object {
        Ok(
            with_source_ports(
                at(model, "data_inputs"@),
                rendered_each(shown_sources(selection)),
                shown_sources(selection).len() as int,
            ),
        )
    } else {
        Err("model step absent"@)
    }
}

fn make_source_inputs(model: &Json, selection: &Json) -> (r: Checked<Json>)
    ensures
        document_result(r) == made_source_inputs(model@, selection@),
{
    let shown: Json = sources(selection)?;
    proof {
        crate::json::lemma_root(shown@);
    }
    let texts_shown: Vec<String> = render_each(&shown);
    proof {
        assert(texts(texts_shown@).len() == texts_shown@.len());
    }
    if model.is_object("data_inputs") {
        Ok(with_sources(model.get("data_inputs"), &texts_shown))
    } else {
        Err(failure("model step absent"))
    }
}

/// The sources that a proposing step may cite, each as the artifact it is.
pub open spec fn made_source_evidence(selection: Tree) -> Result<Tree, Seq<char>> {
    if at(selection, "selection,artifacts"@) is List {
        Ok(text_list(rendered_each(named_sources(shown_sources(selection)))))
    } else {
        Err("source artifacts absent"@)
    }
}

fn make_source_evidence(selection: &Json) -> (r: Checked<Json>)
    ensures
        document_result(r) == made_source_evidence(selection@),
{
    let shown: Json = sources(selection)?;
    proof {
        crate::json::lemma_root(shown@);
    }
    let named: Json = name_sources(&shown);
    proof {
        crate::json::lemma_root(named@);
    }
    let texts_named: Vec<String> = render_each(&named);
    Ok(name_list(&texts_named))
}

/// What the model of a study is asked.
pub open spec fn made_proposal_prompt(baseline: Tree, selection: Tree) -> Result<Tree, Seq<char>> {
    match at(selection, "selection,artifacts"@) {
        Tree::List(l) => match prompt_of(baseline, rendered(Tree::List(cited(l)))) {
            Ok(t) => Ok(Tree::Text(t)),
            Err(e) => Err(e),
        },
        _ => match prompt_of(baseline, ""@) {
            Ok(_) => Err("selected artifacts absent"@),
            Err(e) => Err(e),
        },
    }
}

fn make_proposal_prompt(baseline: &Json, selection: &Json) -> (r: Checked<Json>)
    ensures
        document_result(r) == made_proposal_prompt(baseline@, selection@),
{
    match citations(selection) {
        Ok(cites) => Ok(Json::Text(prompt(baseline, render(&cites).as_str())?)),
        Err(f) => {
            prompt(baseline, "")?;
            Err(f)
        },
    }
}

/// The port of a structured output.
pub open spec fn made_artifact_port() -> Result<Tree, Seq<char>> {
    Ok(port_tree("Output"@, artifact_tree(), Tree::Null, false))
}

fn make_artifact_port() -> (r: Checked<Json>)
    ensures
        document_result(r) == made_artifact_port(),
{
    Ok(port("Output", artifact_schema(), Json::Null, false))
}

/// The mutations that create a proposing workflow.
pub open spec fn made_proposal_mutations(step: Tree) -> Result<Tree, Seq<char>> {
    Ok(proposing_tree(step))
}

fn make_proposal_mutations(step: &Json) -> (r: Checked<Json>)
    ensures
        document_result(r) == made_proposal_mutations(step@),
{
    Ok(proposal_mutations(step.copy()))
}

/// The document of a name, from what it starts from.
#[verifier::opaque]
pub open spec fn drafted(name: Seq<char>, known: Tree) -> Option<Result<Tree, Seq<char>>> {
    if name == "slotbook-policy"@ {
        Some(document_of(SLOTBOOK_POLICY@, known))
    } else if name == "slotbook-requirement"@ {
        Some(document_of(SLOTBOOK_REQUIREMENT@, known))
    } else if name == "slotbook-scope"@ {
        Some(document_of(SLOTBOOK_SCOPE@, known))
    } else if name == "slotbook-protected-recipe"@ {
        Some(document_of(SLOTBOOK_PROTECTED_RECIPE@, known))
    } else if name == "slotbook-worker-recipe"@ {
        Some(document_of(SLOTBOOK_WORKER_RECIPE@, known))
    } else if name == "slotbook-session-config"@ {
        Some(document_of(SLOTBOOK_SESSION_CONFIG@, known))
    } else if name == "seed-inputs"@ {
        Some(document_of(SEED_INPUTS@, known))
    } else if name == "forged-inputs"@ {
        Some(document_of(FORGED_INPUTS@, known))
    } else if name == "repair-proposal"@ {
        Some(document_of(REPAIR_PROPOSAL@, known))
    } else if name == "published-descriptor"@ {
        Some(document_of(PUBLISHED_DESCRIPTOR@, known))
    } else if name == "published-method"@ {
        Some(document_of(PUBLISHED_METHOD@, known))
    } else if name == "publication-config"@ {
        Some(document_of(PUBLICATION_CONFIG@, known))
    } else if name == "peer-relationship"@ {
        Some(document_of(PEER_RELATIONSHIP@, known))
    } else if name == "peer-provider-config"@ {
        Some(document_of(PEER_PROVIDER_CONFIG@, known))
    } else if name == "peer-origin-config"@ {
        Some(document_of(PEER_ORIGIN_CONFIG@, known))
    } else if name == "outer-task"@ {
        Some(document_of(OUTER_TASK@, known))
    } else if name == "outer-peer-task"@ {
        Some(document_of(OUTER_PEER_TASK@, known))
    } else if name == "outer-mutations"@ {
        Some(document_of(OUTER_MUTATIONS@, known))
    } else if name == "learning-operator"@ {
        Some(document_of(LEARNING_OPERATOR@, known))
    } else if name == "learning-evaluator"@ {
        Some(document_of(LEARNING_EVALUATOR@, known))
    } else if name == "learning-config"@ {
        Some(document_of(LEARNING_CONFIG@, known))
    } else if name == "learning-worker-recipe"@ {
        Some(document_of(LEARNING_WORKER_RECIPE@, known))
    } else if name == "learning-target-recipe"@ {
        Some(document_of(LEARNING_TARGET_RECIPE@, known))
    } else if name == "learning-service"@ {
        Some(document_of(LEARNING_SERVICE@, known))
    } else if name == "learning-budget"@ {
        Some(document_of(LEARNING_BUDGET@, known))
    } else if name == "learning-method"@ {
        Some(document_of(LEARNING_METHOD@, known))
    } else if name == "learning-learner"@ {
        Some(document_of(LEARNING_LEARNER@, known))
    } else if name == "proposal-model"@ {
        Some(document_of(PROPOSAL_MODEL@, known))
    } else {
        None
    }
}

fn draft(name: &str, known: Json) -> (r: Option<Checked<Json>>)
    requires
        known@ is Object,
    ensures
        match r {
            Some(c) => drafted(name@, known@) == Some(document_result(c)),
            None => drafted(name@, known@) is None,
        },
{
    proof {
        reveal(drafted);
    }
    if same_text(name, "slotbook-policy") {
        Some(documents::slotbook_policy(known))
    } else if same_text(name, "slotbook-requirement") {
        Some(documents::slotbook_requirement(known))
    } else if same_text(name, "slotbook-scope") {
        Some(documents::slotbook_scope(known))
    } else if same_text(name, "slotbook-protected-recipe") {
        Some(documents::slotbook_protected_recipe(known))
    } else if same_text(name, "slotbook-worker-recipe") {
        Some(documents::slotbook_worker_recipe(known))
    } else if same_text(name, "slotbook-session-config") {
        Some(documents::slotbook_session_config(known))
    } else if same_text(name, "seed-inputs") {
        Some(documents::seed_inputs(known))
    } else if same_text(name, "forged-inputs") {
        Some(documents::forged_inputs(known))
    } else if same_text(name, "repair-proposal") {
        Some(documents::repair_proposal(known))
    } else if same_text(name, "published-descriptor") {
        Some(documents::published_descriptor(known))
    } else if same_text(name, "published-method") {
        Some(documents::published_method(known))
    } else if same_text(name, "publication-config") {
        Some(documents::publication_config(known))
    } else if same_text(name, "peer-relationship") {
        Some(documents::peer_relationship(known))
    } else if same_text(name, "peer-provider-config") {
        Some(documents::peer_provider_config(known))
    } else if same_text(name, "peer-origin-config") {
        Some(documents::peer_origin_config(known))
    } else if same_text(name, "outer-task") {
        Some(documents::outer_task(known))
    } else if same_text(name, "outer-peer-task") {
        Some(documents::outer_peer_task(known))
    } else if same_text(name, "outer-mutations") {
        Some(documents::outer_mutations(known))
    } else if same_text(name, "learning-operator") {
        Some(documents::learning_operator(known))
    } else if same_text(name, "learning-evaluator") {
        Some(documents::learning_evaluator(known))
    } else if same_text(name, "learning-config") {
        Some(documents::learning_config(known))
    } else if same_text(name, "learning-worker-recipe") {
        Some(documents::learning_worker_recipe(known))
    } else if same_text(name, "learning-target-recipe") {
        Some(documents::learning_target_recipe(known))
    } else if same_text(name, "learning-service") {
        Some(documents::learning_service(known))
    } else if same_text(name, "learning-budget") {
        Some(documents::learning_budget(known))
    } else if same_text(name, "learning-method") {
        Some(documents::learning_method(known))
    } else if same_text(name, "learning-learner") {
        Some(documents::learning_learner(known))
    } else if same_text(name, "proposal-model") {
        Some(documents::proposal_model(known))
    } else {
        None
    }
}

/// What a maker gives.
#[verifier::opaque]
pub open spec fn made(name: Seq<char>, args: Seq<Tree>, env: Tree) -> Result<Tree, Seq<char>> {
    if name == "failed-checks"@ {
        made_failed_checks(nth(args, 0))
    } else if name == "forged-checks"@ {
        made_forged_checks(nth(args, 0))
    } else if name == "peer-capability"@ {
        made_peer_capability(nth(args, 0))
    } else if name == "linked-runs"@ {
        made_linked_runs(nth(args, 0), nth(args, 1), nth(args, 2))
    } else if name == "children"@ {
        made_children(nth(args, 0), nth(args, 1))
    } else if name == "method-mutations"@ {
        made_method_mutations(nth(args, 0), nth(args, 1))
    } else if name == "repair-mutations"@ {
        made_repair_mutations(nth(args, 0))
    } else if name == "learning-mutations"@ {
        made_learning_mutations(nth(args, 0))
    } else if name == "model-destination"@ {
        made_model_destination(nth(args, 0))
    } else if name == "grant-slot"@ {
        made_grant_slot(nth(args, 0), nth(args, 1), nth(args, 2))
    } else if name == "trust-slot"@ {
        made_trust_slot(nth(args, 0), nth(args, 1), nth(args, 2))
    } else if name == "last"@ {
        made_last(nth(args, 0))
    } else if name == "pages"@ {
        made_pages(nth(args, 0))
    } else if name == "including"@ {
        made_including(nth(args, 0), nth(args, 1))
    } else if name == "observed-artifacts"@ {
        made_observed_artifacts(nth(args, 0))
    } else if name == "attempt-artifacts"@ {
        made_attempt_artifacts(nth(args, 0), nth(args, 1))
    } else if name == "variant-inputs"@ {
        made_variant_inputs(nth(args, 0), nth(args, 1))
    } else if name == "rendered"@ {
        made_rendered(nth(args, 0))
    } else if name == "rendered-elements"@ {
        made_rendered_elements(nth(args, 0))
    } else if name == "model-failure"@ {
        made_model_failure(nth(args, 0), nth(args, 1), nth(args, 2), nth(args, 3), nth(args, 4))
    } else if name == "chained"@ {
        made_chained(nth(args, 0), nth(args, 1), nth(args, 2), nth(args, 3), nth(args, 4))
    } else if name == "active"@ {
        made_active(nth(args, 0))
    } else if name == "remaining"@ {
        made_remaining(nth(args, 0), nth(args, 1), nth(args, 2), nth(args, 3))
    } else if name == "availability-path"@ {
        made_availability_path(nth(args, 0), nth(args, 1))
    } else if name == "booking-path"@ {
        made_booking_path(nth(args, 0))
    } else if name == "first-booking"@ {
        made_first_booking(nth(args, 0))
    } else if name == "finishing-edge"@ {
        made_finishing_edge()
    } else if name == "guidance-note"@ {
        made_guidance_note(nth(args, 0), nth(args, 1), nth(args, 2), nth(args, 3))
    } else if name == "promotion-approval"@ {
        made_promotion_approval(nth(args, 0), nth(args, 1))
    } else if name == "held-out-input"@ {
        made_held_out_input(nth(args, 0), nth(args, 1))
    } else if name == "held-out-pair"@ {
        made_held_out_pair(nth(args, 0), nth(args, 1), nth(args, 2))
    } else if name == "source-inputs"@ {
        made_source_inputs(nth(args, 0), nth(args, 1))
    } else if name == "source-evidence"@ {
        made_source_evidence(nth(args, 0))
    } else if name == "proposal-prompt"@ {
        made_proposal_prompt(nth(args, 0), nth(args, 1))
    } else if name == "artifact-port"@ {
        made_artifact_port()
    } else if name == "proposal-mutations"@ {
        made_proposal_mutations(nth(args, 0))
    } else if ground(args, env) is Object {
        match drafted(name, ground(args, env)) {
            Some(r) => r,
            None => Err("scenario statement is unknown"@),
        }
    } else {
        Err("scenario value is absent"@)
    }
}

pub fn make(name: &str, args: &Vec<Json>, env: &Json) -> (r: Checked<Json>)
    requires
        env@ is Object,
    ensures
        document_result(r) == made(name@, trees(args@), env@),
{
    proof {
        reveal(made);
        lemma_trees(args@);
    }
    let (a, b, c): (Json, Json, Json) = (take(args, 0), take(args, 1), take(args, 2));
    let (d, e): (Json, Json) = (take(args, 3), take(args, 4));
    if same_text(name, "failed-checks") {
        make_failed_checks(&a)
    } else if same_text(name, "forged-checks") {
        make_forged_checks(&a)
    } else if same_text(name, "peer-capability") {
        make_peer_capability(&a)
    } else if same_text(name, "linked-runs") {
        make_linked_runs(&a, &b, &c)
    } else if same_text(name, "children") {
        make_children(&a, &b)
    } else if same_text(name, "method-mutations") {
        make_method_mutations(&a, &b)
    } else if same_text(name, "repair-mutations") {
        make_repair_mutations(&a)
    } else if same_text(name, "learning-mutations") {
        make_learning_mutations(&a)
    } else if same_text(name, "model-destination") {
        make_model_destination(&a)
    } else if same_text(name, "grant-slot") {
        make_grant_slot(&a, &b, &c)
    } else if same_text(name, "trust-slot") {
        make_trust_slot(&a, &b, &c)
    } else if same_text(name, "last") {
        make_last(&a)
    } else if same_text(name, "pages") {
        make_pages(&a)
    } else if same_text(name, "including") {
        make_including(&a, &b)
    } else if same_text(name, "observed-artifacts") {
        make_observed_artifacts(&a)
    } else if same_text(name, "attempt-artifacts") {
        make_attempt_artifacts(&a, &b)
    } else if same_text(name, "variant-inputs") {
        make_variant_inputs(&a, &b)
    } else if same_text(name, "rendered") {
        make_rendered(&a)
    } else if same_text(name, "rendered-elements") {
        make_rendered_elements(&a)
    } else if same_text(name, "model-failure") {
        make_model_failure(&a, &b, &c, &d, &e)
    } else if same_text(name, "chained") {
        make_chained(&a, &b, &c, &d, &e)
    } else if same_text(name, "active") {
        make_active(&a)
    } else if same_text(name, "remaining") {
        make_remaining(&a, &b, &c, &d)
    } else if same_text(name, "availability-path") {
        make_availability_path(&a, &b)
    } else if same_text(name, "booking-path") {
        make_booking_path(&a)
    } else if same_text(name, "first-booking") {
        make_first_booking(&a)
    } else if same_text(name, "finishing-edge") {
        make_finishing_edge()
    } else if same_text(name, "guidance-note") {
        make_guidance_note(&a, &b, &c, &d)
    } else if same_text(name, "promotion-approval") {
        make_promotion_approval(&a, &b)
    } else if same_text(name, "held-out-input") {
        make_held_out_input(&a, &b)
    } else if same_text(name, "held-out-pair") {
        make_held_out_pair(&a, &b, &c)
    } else if same_text(name, "source-inputs") {
        make_source_inputs(&a, &b)
    } else if same_text(name, "source-evidence") {
        make_source_evidence(&a)
    } else if same_text(name, "proposal-prompt") {
        make_proposal_prompt(&a, &b)
    } else if same_text(name, "artifact-port") {
        make_artifact_port()
    } else if same_text(name, "proposal-mutations") {
        make_proposal_mutations(&a)
    } else {
        let known: Json = if args.len() > 0 {
            a
        } else {
            env.copy()
        };
        if is_object(&known) {
            match draft(name, known) {
                Some(r) => r,
                None => Err(failure("scenario statement is unknown")),
            }
        } else {
            Err(failure("scenario value is absent"))
        }
    }
}

/// The maker `failed-checks`.
pub proof fn makes_failed_checks(args: Seq<Tree>, env: Tree)
    ensures
        made("failed-checks"@, args, env) == made_failed_checks(nth(args, 0)),
{
    reveal(made);
    reveal_strlit("failed-checks");
    assert("failed-checks"@.len() == 13);
}

/// The maker `forged-checks`.
pub proof fn makes_forged_checks(args: Seq<Tree>, env: Tree)
    ensures
        made("forged-checks"@, args, env) == made_forged_checks(nth(args, 0)),
{
    reveal(made);
    reveal_strlit("forged-checks");
    assert("forged-checks"@.len() == 13);
    reveal_strlit("failed-checks");
    assert("failed-checks"@.len() == 13);
    assert("failed-checks"@[1] != "forged-checks"@[1]);
}

/// The maker `peer-capability`.
pub proof fn makes_peer_capability(args: Seq<Tree>, env: Tree)
    ensures
        made("peer-capability"@, args, env) == made_peer_capability(nth(args, 0)),
{
    reveal(made);
    reveal_strlit("peer-capability");
    assert("peer-capability"@.len() == 15);
    reveal_strlit("failed-checks");
    assert("failed-checks"@.len() == 13);
    reveal_strlit("forged-checks");
    assert("forged-checks"@.len() == 13);
}

/// The maker `linked-runs`.
pub proof fn makes_linked_runs(args: Seq<Tree>, env: Tree)
    ensures
        made("linked-runs"@, args, env)
            == made_linked_runs(nth(args, 0), nth(args, 1), nth(args, 2)),
{
    reveal(made);
    reveal_strlit("linked-runs");
    assert("linked-runs"@.len() == 11);
    reveal_strlit("failed-checks");
    assert("failed-checks"@.len() == 13);
    reveal_strlit("forged-checks");
    assert("forged-checks"@.len() == 13);
    reveal_strlit("peer-capability");
    assert("peer-capability"@.len() == 15);
}

/// The maker `children`.
pub proof fn makes_children(args: Seq<Tree>, env: Tree)
    ensures
        made("children"@, args, env) == made_children(nth(args, 0), nth(args, 1)),
{
    reveal(made);
    reveal_strlit("children");
    assert("children"@.len() == 8);
    reveal_strlit("failed-checks");
    assert("failed-checks"@.len() == 13);
    reveal_strlit("forged-checks");
    assert("forged-checks"@.len() == 13);
    reveal_strlit("peer-capability");
    assert("peer-capability"@.len() == 15);
    reveal_strlit("linked-runs");
    assert("linked-runs"@.len() == 11);
}

/// The maker `method-mutations`.
pub proof fn makes_method_mutations(args: Seq<Tree>, env: Tree)
    ensures
        made("method-mutations"@, args, env) == made_method_mutations(nth(args, 0), nth(args, 1)),
{
    reveal(made);
    reveal_strlit("method-mutations");
    assert("method-mutations"@.len() == 16);
    reveal_strlit("failed-checks");
    assert("failed-checks"@.len() == 13);
    reveal_strlit("forged-checks");
    assert("forged-checks"@.len() == 13);
    reveal_strlit("peer-capability");
    assert("peer-capability"@.len() == 15);
    reveal_strlit("linked-runs");
    assert("linked-runs"@.len() == 11);
    reveal_strlit("children");
    assert("children"@.len() == 8);
}

/// The maker `repair-mutations`.
pub proof fn makes_repair_mutations(args: Seq<Tree>, env: Tree)
    ensures
        made("repair-mutations"@, args, env) == made_repair_mutations(nth(args, 0)),
{
    reveal(made);
    reveal_strlit("repair-mutations");
    assert("repair-mutations"@.len() == 16);
    reveal_strlit("failed-checks");
    assert("failed-checks"@.len() == 13);
    reveal_strlit("forged-checks");
    assert("forged-checks"@.len() == 13);
    reveal_strlit("peer-capability");
    assert("peer-capability"@.len() == 15);
    reveal_strlit("linked-runs");
    assert("linked-runs"@.len() == 11);
    reveal_strlit("children");
    assert("children"@.len() == 8);
    reveal_strlit("method-mutations");
    assert("method-mutations"@.len() == 16);
    assert("method-mutations"@[0] != "repair-mutations"@[0]);
}

/// The maker `learning-mutations`.
pub proof fn makes_learning_mutations(args: Seq<Tree>, env: Tree)
    ensures
        made("learning-mutations"@, args, env) == made_learning_mutations(nth(args, 0)),
{
    reveal(made);
    reveal_strlit("learning-mutations");
    assert("learning-mutations"@.len() == 18);
    reveal_strlit("failed-checks");
    assert("failed-checks"@.len() == 13);
    reveal_strlit("forged-checks");
    assert("forged-checks"@.len() == 13);
    reveal_strlit("peer-capability");
    assert("peer-capability"@.len() == 15);
    reveal_strlit("linked-runs");
    assert("linked-runs"@.len() == 11);
    reveal_strlit("children");
    assert("children"@.len() == 8);
    reveal_strlit("method-mutations");
    assert("method-mutations"@.len() == 16);
    reveal_strlit("repair-mutations");
    assert("repair-mutations"@.len() == 16);
}

/// The maker `model-destination`.
pub proof fn makes_model_destination(args: Seq<Tree>, env: Tree)
    ensures
        made("model-destination"@, args, env) == made_model_destination(nth(args, 0)),
{
    reveal(made);
    reveal_strlit("model-destination");
    assert("model-destination"@.len() == 17);
    reveal_strlit("failed-checks");
    assert("failed-checks"@.len() == 13);
    reveal_strlit("forged-checks");
    assert("forged-checks"@.len() == 13);
    reveal_strlit("peer-capability");
    assert("peer-capability"@.len() == 15);
    reveal_strlit("linked-runs");
    assert("linked-runs"@.len() == 11);
    reveal_strlit("children");
    assert("children"@.len() == 8);
    reveal_strlit("method-mutations");
    assert("method-mutations"@.len() == 16);
    reveal_strlit("repair-mutations");
    assert("repair-mutations"@.len() == 16);
    reveal_strlit("learning-mutations");
    assert("learning-mutations"@.len() == 18);
}

/// The maker `grant-slot`.
pub proof fn makes_grant_slot(args: Seq<Tree>, env: Tree)
    ensures
        made("grant-slot"@, args, env) == made_grant_slot(nth(args, 0), nth(args, 1), nth(args, 2)),
{
    reveal(made);
    reveal_strlit("grant-slot");
    assert("grant-slot"@.len() == 10);
    reveal_strlit("failed-checks");
    assert("failed-checks"@.len() == 13);
    reveal_strlit("forged-checks");
    assert("forged-checks"@.len() == 13);
    reveal_strlit("peer-capability");
    assert("peer-capability"@.len() == 15);
    reveal_strlit("linked-runs");
    assert("linked-runs"@.len() == 11);
    reveal_strlit("children");
    assert("children"@.len() == 8);
    reveal_strlit("method-mutations");
    assert("method-mutations"@.len() == 16);
    reveal_strlit("repair-mutations");
    assert("repair-mutations"@.len() == 16);
    reveal_strlit("learning-mutations");
    assert("learning-mutations"@.len() == 18);
    reveal_strlit("model-destination");
    assert("model-destination"@.len() == 17);
}

/// The maker `trust-slot`.
pub proof fn makes_trust_slot(args: Seq<Tree>, env: Tree)
    ensures
        made("trust-slot"@, args, env) == made_trust_slot(nth(args, 0), nth(args, 1), nth(args, 2)),
{
    reveal(made);
    reveal_strlit("trust-slot");
    assert("trust-slot"@.len() == 10);
    reveal_strlit("failed-checks");
    assert("failed-checks"@.len() == 13);
    reveal_strlit("forged-checks");
    assert("forged-checks"@.len() == 13);
    reveal_strlit("peer-capability");
    assert("peer-capability"@.len() == 15);
    reveal_strlit("linked-runs");
    assert("linked-runs"@.len() == 11);
    reveal_strlit("children");
    assert("children"@.len() == 8);
    reveal_strlit("method-mutations");
    assert("method-mutations"@.len() == 16);
    reveal_strlit("repair-mutations");
    assert("repair-mutations"@.len() == 16);
    reveal_strlit("learning-mutations");
    assert("learning-mutations"@.len() == 18);
    reveal_strlit("model-destination");
    assert("model-destination"@.len() == 17);
    reveal_strlit("grant-slot");
    assert("grant-slot"@.len() == 10);
    assert("grant-slot"@[0] != "trust-slot"@[0]);
}

/// The maker `last`.
pub proof fn makes_last(args: Seq<Tree>, env: Tree)
    ensures
        made("last"@, args, env) == made_last(nth(args, 0)),
{
    reveal(made);
    reveal_strlit("last");
    assert("last"@.len() == 4);
    reveal_strlit("failed-checks");
    assert("failed-checks"@.len() == 13);
    reveal_strlit("forged-checks");
    assert("forged-checks"@.len() == 13);
    reveal_strlit("peer-capability");
    assert("peer-capability"@.len() == 15);
    reveal_strlit("linked-runs");
    assert("linked-runs"@.len() == 11);
    reveal_strlit("children");
    assert("children"@.len() == 8);
    reveal_strlit("method-mutations");
    assert("method-mutations"@.len() == 16);
    reveal_strlit("repair-mutations");
    assert("repair-mutations"@.len() == 16);
    reveal_strlit("learning-mutations");
    assert("learning-mutations"@.len() == 18);
    reveal_strlit("model-destination");
    assert("model-destination"@.len() == 17);
    reveal_strlit("grant-slot");
    assert("grant-slot"@.len() == 10);
    reveal_strlit("trust-slot");
    assert("trust-slot"@.len() == 10);
}

/// The maker `pages`.
pub proof fn makes_pages(args: Seq<Tree>, env: Tree)
    ensures
        made("pages"@, args, env) == made_pages(nth(args, 0)),
{
    reveal(made);
    reveal_strlit("pages");
    assert("pages"@.len() == 5);
    reveal_strlit("failed-checks");
    assert("failed-checks"@.len() == 13);
    reveal_strlit("forged-checks");
    assert("forged-checks"@.len() == 13);
    reveal_strlit("peer-capability");
    assert("peer-capability"@.len() == 15);
    reveal_strlit("linked-runs");
    assert("linked-runs"@.len() == 11);
    reveal_strlit("children");
    assert("children"@.len() == 8);
    reveal_strlit("method-mutations");
    assert("method-mutations"@.len() == 16);
    reveal_strlit("repair-mutations");
    assert("repair-mutations"@.len() == 16);
    reveal_strlit("learning-mutations");
    assert("learning-mutations"@.len() == 18);
    reveal_strlit("model-destination");
    assert("model-destination"@.len() == 17);
    reveal_strlit("grant-slot");
    assert("grant-slot"@.len() == 10);
    reveal_strlit("trust-slot");
    assert("trust-slot"@.len() == 10);
    reveal_strlit("last");
    assert("last"@.len() == 4);
}

/// The maker `including`.
pub proof fn makes_including(args: Seq<Tree>, env: Tree)
    ensures
        made("including"@, args, env) == made_including(nth(args, 0), nth(args, 1)),
{
    reveal(made);
    reveal_strlit("including");
    assert("including"@.len() == 9);
    reveal_strlit("failed-checks");
    assert("failed-checks"@.len() == 13);
    reveal_strlit("forged-checks");
    assert("forged-checks"@.len() == 13);
    reveal_strlit("peer-capability");
    assert("peer-capability"@.len() == 15);
    reveal_strlit("linked-runs");
    assert("linked-runs"@.len() == 11);
    reveal_strlit("children");
    assert("children"@.len() == 8);
    reveal_strlit("method-mutations");
    assert("method-mutations"@.len() == 16);
    reveal_strlit("repair-mutations");
    assert("repair-mutations"@.len() == 16);
    reveal_strlit("learning-mutations");
    assert("learning-mutations"@.len() == 18);
    reveal_strlit("model-destination");
    assert("model-destination"@.len() == 17);
    reveal_strlit("grant-slot");
    assert("grant-slot"@.len() == 10);
    reveal_strlit("trust-slot");
    assert("trust-slot"@.len() == 10);
    reveal_strlit("last");
    assert("last"@.len() == 4);
    reveal_strlit("pages");
    assert("pages"@.len() == 5);
}

/// The maker `observed-artifacts`.
pub proof fn makes_observed_artifacts(args: Seq<Tree>, env: Tree)
    ensures
        made("observed-artifacts"@, args, env) == made_observed_artifacts(nth(args, 0)),
{
    reveal(made);
    reveal_strlit("observed-artifacts");
    assert("observed-artifacts"@.len() == 18);
    reveal_strlit("failed-checks");
    assert("failed-checks"@.len() == 13);
    reveal_strlit("forged-checks");
    assert("forged-checks"@.len() == 13);
    reveal_strlit("peer-capability");
    assert("peer-capability"@.len() == 15);
    reveal_strlit("linked-runs");
    assert("linked-runs"@.len() == 11);
    reveal_strlit("children");
    assert("children"@.len() == 8);
    reveal_strlit("method-mutations");
    assert("method-mutations"@.len() == 16);
    reveal_strlit("repair-mutations");
    assert("repair-mutations"@.len() == 16);
    reveal_strlit("learning-mutations");
    assert("learning-mutations"@.len() == 18);
    assert("learning-mutations"@[0] != "observed-artifacts"@[0]);
    reveal_strlit("model-destination");
    assert("model-destination"@.len() == 17);
    reveal_strlit("grant-slot");
    assert("grant-slot"@.len() == 10);
    reveal_strlit("trust-slot");
    assert("trust-slot"@.len() == 10);
    reveal_strlit("last");
    assert("last"@.len() == 4);
    reveal_strlit("pages");
    assert("pages"@.len() == 5);
    reveal_strlit("including");
    assert("including"@.len() == 9);
}

/// The maker `attempt-artifacts`.
pub proof fn makes_attempt_artifacts(args: Seq<Tree>, env: Tree)
    ensures
        made("attempt-artifacts"@, args, env) == made_attempt_artifacts(nth(args, 0), nth(args, 1)),
{
    reveal(made);
    reveal_strlit("attempt-artifacts");
    assert("attempt-artifacts"@.len() == 17);
    reveal_strlit("failed-checks");
    assert("failed-checks"@.len() == 13);
    reveal_strlit("forged-checks");
    assert("forged-checks"@.len() == 13);
    reveal_strlit("peer-capability");
    assert("peer-capability"@.len() == 15);
    reveal_strlit("linked-runs");
    assert("linked-runs"@.len() == 11);
    reveal_strlit("children");
    assert("children"@.len() == 8);
    reveal_strlit("method-mutations");
    assert("method-mutations"@.len() == 16);
    reveal_strlit("repair-mutations");
    assert("repair-mutations"@.len() == 16);
    reveal_strlit("learning-mutations");
    assert("learning-mutations"@.len() == 18);
    reveal_strlit("model-destination");
    assert("model-destination"@.len() == 17);
    assert("model-destination"@[0] != "attempt-artifacts"@[0]);
    reveal_strlit("grant-slot");
    assert("grant-slot"@.len() == 10);
    reveal_strlit("trust-slot");
    assert("trust-slot"@.len() == 10);
    reveal_strlit("last");
    assert("last"@.len() == 4);
    reveal_strlit("pages");
    assert("pages"@.len() == 5);
    reveal_strlit("including");
    assert("including"@.len() == 9);
    reveal_strlit("observed-artifacts");
    assert("observed-artifacts"@.len() == 18);
}

/// The maker `variant-inputs`.
pub proof fn makes_variant_inputs(args: Seq<Tree>, env: Tree)
    ensures
        made("variant-inputs"@, args, env) == made_variant_inputs(nth(args, 0), nth(args, 1)),
{
    reveal(made);
    reveal_strlit("variant-inputs");
    assert("variant-inputs"@.len() == 14);
    reveal_strlit("failed-checks");
    assert("failed-checks"@.len() == 13);
    reveal_strlit("forged-checks");
    assert("forged-checks"@.len() == 13);
    reveal_strlit("peer-capability");
    assert("peer-capability"@.len() == 15);
    reveal_strlit("linked-runs");
    assert("linked-runs"@.len() == 11);
    reveal_strlit("children");
    assert("children"@.len() == 8);
    reveal_strlit("method-mutations");
    assert("method-mutations"@.len() == 16);
    reveal_strlit("repair-mutations");
    assert("repair-mutations"@.len() == 16);
    reveal_strlit("learning-mutations");
    assert("learning-mutations"@.len() == 18);
    reveal_strlit("model-destination");
    assert("model-destination"@.len() == 17);
    reveal_strlit("grant-slot");
    assert("grant-slot"@.len() == 10);
    reveal_strlit("trust-slot");
    assert("trust-slot"@.len() == 10);
    reveal_strlit("last");
    assert("last"@.len() == 4);
    reveal_strlit("pages");
    assert("pages"@.len() == 5);
    reveal_strlit("including");
    assert("including"@.len() == 9);
    reveal_strlit("observed-artifacts");
    assert("observed-artifacts"@.len() == 18);
    reveal_strlit("attempt-artifacts");
    assert("attempt-artifacts"@.len() == 17);
}

/// The maker `rendered`.
pub proof fn makes_rendered(args: Seq<Tree>, env: Tree)
    ensures
        made("rendered"@, args, env) == made_rendered(nth(args, 0)),
{
    reveal(made);
    reveal_strlit("rendered");
    assert("rendered"@.len() == 8);
    reveal_strlit("failed-checks");
    assert("failed-checks"@.len() == 13);
    reveal_strlit("forged-checks");
    assert("forged-checks"@.len() == 13);
    reveal_strlit("peer-capability");
    assert("peer-capability"@.len() == 15);
    reveal_strlit("linked-runs");
    assert("linked-runs"@.len() == 11);
    reveal_strlit("children");
    assert("children"@.len() == 8);
    assert("children"@[0] != "rendered"@[0]);
    reveal_strlit("method-mutations");
    assert("method-mutations"@.len() == 16);
    reveal_strlit("repair-mutations");
    assert("repair-mutations"@.len() == 16);
    reveal_strlit("learning-mutations");
    assert("learning-mutations"@.len() == 18);
    reveal_strlit("model-destination");
    assert("model-destination"@.len() == 17);
    reveal_strlit("grant-slot");
    assert("grant-slot"@.len() == 10);
    reveal_strlit("trust-slot");
    assert("trust-slot"@.len() == 10);
    reveal_strlit("last");
    assert("last"@.len() == 4);
    reveal_strlit("pages");
    assert("pages"@.len() == 5);
    reveal_strlit("including");
    assert("including"@.len() == 9);
    reveal_strlit("observed-artifacts");
    assert("observed-artifacts"@.len() == 18);
    reveal_strlit("attempt-artifacts");
    assert("attempt-artifacts"@.len() == 17);
    reveal_strlit("variant-inputs");
    assert("variant-inputs"@.len() == 14);
}

/// The maker `rendered-elements`.
pub proof fn makes_rendered_elements(args: Seq<Tree>, env: Tree)
    ensures
        made("rendered-elements"@, args, env) == made_rendered_elements(nth(args, 0)),
{
    reveal(made);
    reveal_strlit("rendered-elements");
    assert("rendered-elements"@.len() == 17);
    reveal_strlit("failed-checks");
    assert("failed-checks"@.len() == 13);
    reveal_strlit("forged-checks");
    assert("forged-checks"@.len() == 13);
    reveal_strlit("peer-capability");
    assert("peer-capability"@.len() == 15);
    reveal_strlit("linked-runs");
    assert("linked-runs"@.len() == 11);
    reveal_strlit("children");
    assert("children"@.len() == 8);
    reveal_strlit("method-mutations");
    assert("method-mutations"@.len() == 16);
    reveal_strlit("repair-mutations");
    assert("repair-mutations"@.len() == 16);
    reveal_strlit("learning-mutations");
    assert("learning-mutations"@.len() == 18);
    reveal_strlit("model-destination");
    assert("model-destination"@.len() == 17);
    assert("model-destination"@[0] != "rendered-elements"@[0]);
    reveal_strlit("grant-slot");
    assert("grant-slot"@.len() == 10);
    reveal_strlit("trust-slot");
    assert("trust-slot"@.len() == 10);
    reveal_strlit("last");
    assert("last"@.len() == 4);
    reveal_strlit("pages");
    assert("pages"@.len() == 5);
    reveal_strlit("including");
    assert("including"@.len() == 9);
    reveal_strlit("observed-artifacts");
    assert("observed-artifacts"@.len() == 18);
    reveal_strlit("attempt-artifacts");
    assert("attempt-artifacts"@.len() == 17);
    assert("attempt-artifacts"@[0] != "rendered-elements"@[0]);
    reveal_strlit("variant-inputs");
    assert("variant-inputs"@.len() == 14);
    reveal_strlit("rendered");
    assert("rendered"@.len() == 8);
}

/// The maker `model-failure`.
pub proof fn makes_model_failure(args: Seq<Tree>, env: Tree)
    ensures
        made("model-failure"@, args, env)
            == made_model_failure(
                nth(args, 0),
                nth(args, 1),
                nth(args, 2),
                nth(args, 3),
                nth(args, 4),
            ),
{
    reveal(made);
    reveal_strlit("model-failure");
    assert("model-failure"@.len() == 13);
    reveal_strlit("failed-checks");
    assert("failed-checks"@.len() == 13);
    assert("failed-checks"@[0] != "model-failure"@[0]);
    reveal_strlit("forged-checks");
    assert("forged-checks"@.len() == 13);
    assert("forged-checks"@[0] != "model-failure"@[0]);
    reveal_strlit("peer-capability");
    assert("peer-capability"@.len() == 15);
    reveal_strlit("linked-runs");
    assert("linked-runs"@.len() == 11);
    reveal_strlit("children");
    assert("children"@.len() == 8);
    reveal_strlit("method-mutations");
    assert("method-mutations"@.len() == 16);
    reveal_strlit("repair-mutations");
    assert("repair-mutations"@.len() == 16);
    reveal_strlit("learning-mutations");
    assert("learning-mutations"@.len() == 18);
    reveal_strlit("model-destination");
    assert("model-destination"@.len() == 17);
    reveal_strlit("grant-slot");
    assert("grant-slot"@.len() == 10);
    reveal_strlit("trust-slot");
    assert("trust-slot"@.len() == 10);
    reveal_strlit("last");
    assert("last"@.len() == 4);
    reveal_strlit("pages");
    assert("pages"@.len() == 5);
    reveal_strlit("including");
    assert("including"@.len() == 9);
    reveal_strlit("observed-artifacts");
    assert("observed-artifacts"@.len() == 18);
    reveal_strlit("attempt-artifacts");
    assert("attempt-artifacts"@.len() == 17);
    reveal_strlit("variant-inputs");
    assert("variant-inputs"@.len() == 14);
    reveal_strlit("rendered");
    assert("rendered"@.len() == 8);
    reveal_strlit("rendered-elements");
    assert("rendered-elements"@.len() == 17);
}

/// The maker `chained`.
pub proof fn makes_chained(args: Seq<Tree>, env: Tree)
    ensures
        made("chained"@, args, env)
            == made_chained(nth(args, 0), nth(args, 1), nth(args, 2), nth(args, 3), nth(args, 4)),
{
    reveal(made);
    reveal_strlit("chained");
    assert("chained"@.len() == 7);
    reveal_strlit("failed-checks");
    assert("failed-checks"@.len() == 13);
    reveal_strlit("forged-checks");
    assert("forged-checks"@.len() == 13);
    reveal_strlit("peer-capability");
    assert("peer-capability"@.len() == 15);
    reveal_strlit("linked-runs");
    assert("linked-runs"@.len() == 11);
    reveal_strlit("children");
    assert("children"@.len() == 8);
    reveal_strlit("method-mutations");
    assert("method-mutations"@.len() == 16);
    reveal_strlit("repair-mutations");
    assert("repair-mutations"@.len() == 16);
    reveal_strlit("learning-mutations");
    assert("learning-mutations"@.len() == 18);
    reveal_strlit("model-destination");
    assert("model-destination"@.len() == 17);
    reveal_strlit("grant-slot");
    assert("grant-slot"@.len() == 10);
    reveal_strlit("trust-slot");
    assert("trust-slot"@.len() == 10);
    reveal_strlit("last");
    assert("last"@.len() == 4);
    reveal_strlit("pages");
    assert("pages"@.len() == 5);
    reveal_strlit("including");
    assert("including"@.len() == 9);
    reveal_strlit("observed-artifacts");
    assert("observed-artifacts"@.len() == 18);
    reveal_strlit("attempt-artifacts");
    assert("attempt-artifacts"@.len() == 17);
    reveal_strlit("variant-inputs");
    assert("variant-inputs"@.len() == 14);
    reveal_strlit("rendered");
    assert("rendered"@.len() == 8);
    reveal_strlit("rendered-elements");
    assert("rendered-elements"@.len() == 17);
    reveal_strlit("model-failure");
    assert("model-failure"@.len() == 13);
}

/// The maker `active`.
pub proof fn makes_active(args: Seq<Tree>, env: Tree)
    ensures
        made("active"@, args, env) == made_active(nth(args, 0)),
{
    reveal(made);
    reveal_strlit("active");
    assert("active"@.len() == 6);
    reveal_strlit("failed-checks");
    assert("failed-checks"@.len() == 13);
    reveal_strlit("forged-checks");
    assert("forged-checks"@.len() == 13);
    reveal_strlit("peer-capability");
    assert("peer-capability"@.len() == 15);
    reveal_strlit("linked-runs");
    assert("linked-runs"@.len() == 11);
    reveal_strlit("children");
    assert("children"@.len() == 8);
    reveal_strlit("method-mutations");
    assert("method-mutations"@.len() == 16);
    reveal_strlit("repair-mutations");
    assert("repair-mutations"@.len() == 16);
    reveal_strlit("learning-mutations");
    assert("learning-mutations"@.len() == 18);
    reveal_strlit("model-destination");
    assert("model-destination"@.len() == 17);
    reveal_strlit("grant-slot");
    assert("grant-slot"@.len() == 10);
    reveal_strlit("trust-slot");
    assert("trust-slot"@.len() == 10);
    reveal_strlit("last");
    assert("last"@.len() == 4);
    reveal_strlit("pages");
    assert("pages"@.len() == 5);
    reveal_strlit("including");
    assert("including"@.len() == 9);
    reveal_strlit("observed-artifacts");
    assert("observed-artifacts"@.len() == 18);
    reveal_strlit("attempt-artifacts");
    assert("attempt-artifacts"@.len() == 17);
    reveal_strlit("variant-inputs");
    assert("variant-inputs"@.len() == 14);
    reveal_strlit("rendered");
    assert("rendered"@.len() == 8);
    reveal_strlit("rendered-elements");
    assert("rendered-elements"@.len() == 17);
    reveal_strlit("model-failure");
    assert("model-failure"@.len() == 13);
    reveal_strlit("chained");
    assert("chained"@.len() == 7);
}

/// The maker `remaining`.
pub proof fn makes_remaining(args: Seq<Tree>, env: Tree)
    ensures
        made("remaining"@, args, env)
            == made_remaining(nth(args, 0), nth(args, 1), nth(args, 2), nth(args, 3)),
{
    reveal(made);
    reveal_strlit("remaining");
    assert("remaining"@.len() == 9);
    reveal_strlit("failed-checks");
    assert("failed-checks"@.len() == 13);
    reveal_strlit("forged-checks");
    assert("forged-checks"@.len() == 13);
    reveal_strlit("peer-capability");
    assert("peer-capability"@.len() == 15);
    reveal_strlit("linked-runs");
    assert("linked-runs"@.len() == 11);
    reveal_strlit("children");
    assert("children"@.len() == 8);
    reveal_strlit("method-mutations");
    assert("method-mutations"@.len() == 16);
    reveal_strlit("repair-mutations");
    assert("repair-mutations"@.len() == 16);
    reveal_strlit("learning-mutations");
    assert("learning-mutations"@.len() == 18);
    reveal_strlit("model-destination");
    assert("model-destination"@.len() == 17);
    reveal_strlit("grant-slot");
    assert("grant-slot"@.len() == 10);
    reveal_strlit("trust-slot");
    assert("trust-slot"@.len() == 10);
    reveal_strlit("last");
    assert("last"@.len() == 4);
    reveal_strlit("pages");
    assert("pages"@.len() == 5);
    reveal_strlit("including");
    assert("including"@.len() == 9);
    assert("including"@[0] != "remaining"@[0]);
    reveal_strlit("observed-artifacts");
    assert("observed-artifacts"@.len() == 18);
    reveal_strlit("attempt-artifacts");
    assert("attempt-artifacts"@.len() == 17);
    reveal_strlit("variant-inputs");
    assert("variant-inputs"@.len() == 14);
    reveal_strlit("rendered");
    assert("rendered"@.len() == 8);
    reveal_strlit("rendered-elements");
    assert("rendered-elements"@.len() == 17);
    reveal_strlit("model-failure");
    assert("model-failure"@.len() == 13);
    reveal_strlit("chained");
    assert("chained"@.len() == 7);
    reveal_strlit("active");
    assert("active"@.len() == 6);
}

/// The maker `availability-path`.
pub proof fn makes_availability_path(args: Seq<Tree>, env: Tree)
    ensures
        made("availability-path"@, args, env) == made_availability_path(nth(args, 0), nth(args, 1)),
{
    reveal(made);
    reveal_strlit("availability-path");
    assert("availability-path"@.len() == 17);
    reveal_strlit("failed-checks");
    assert("failed-checks"@.len() == 13);
    reveal_strlit("forged-checks");
    assert("forged-checks"@.len() == 13);
    reveal_strlit("peer-capability");
    assert("peer-capability"@.len() == 15);
    reveal_strlit("linked-runs");
    assert("linked-runs"@.len() == 11);
    reveal_strlit("children");
    assert("children"@.len() == 8);
    reveal_strlit("method-mutations");
    assert("method-mutations"@.len() == 16);
    reveal_strlit("repair-mutations");
    assert("repair-mutations"@.len() == 16);
    reveal_strlit("learning-mutations");
    assert("learning-mutations"@.len() == 18);
    reveal_strlit("model-destination");
    assert("model-destination"@.len() == 17);
    assert("model-destination"@[0] != "availability-path"@[0]);
    reveal_strlit("grant-slot");
    assert("grant-slot"@.len() == 10);
    reveal_strlit("trust-slot");
    assert("trust-slot"@.len() == 10);
    reveal_strlit("last");
    assert("last"@.len() == 4);
    reveal_strlit("pages");
    assert("pages"@.len() == 5);
    reveal_strlit("including");
    assert("including"@.len() == 9);
    reveal_strlit("observed-artifacts");
    assert("observed-artifacts"@.len() == 18);
    reveal_strlit("attempt-artifacts");
    assert("attempt-artifacts"@.len() == 17);
    assert("attempt-artifacts"@[1] != "availability-path"@[1]);
    reveal_strlit("variant-inputs");
    assert("variant-inputs"@.len() == 14);
    reveal_strlit("rendered");
    assert("rendered"@.len() == 8);
    reveal_strlit("rendered-elements");
    assert("rendered-elements"@.len() == 17);
    assert("rendered-elements"@[0] != "availability-path"@[0]);
    reveal_strlit("model-failure");
    assert("model-failure"@.len() == 13);
    reveal_strlit("chained");
    assert("chained"@.len() == 7);
    reveal_strlit("active");
    assert("active"@.len() == 6);
    reveal_strlit("remaining");
    assert("remaining"@.len() == 9);
}

/// The maker `booking-path`.
pub proof fn makes_booking_path(args: Seq<Tree>, env: Tree)
    ensures
        made("booking-path"@, args, env) == made_booking_path(nth(args, 0)),
{
    reveal(made);
    reveal_strlit("booking-path");
    assert("booking-path"@.len() == 12);
    reveal_strlit("failed-checks");
    assert("failed-checks"@.len() == 13);
    reveal_strlit("forged-checks");
    assert("forged-checks"@.len() == 13);
    reveal_strlit("peer-capability");
    assert("peer-capability"@.len() == 15);
    reveal_strlit("linked-runs");
    assert("linked-runs"@.len() == 11);
    reveal_strlit("children");
    assert("children"@.len() == 8);
    reveal_strlit("method-mutations");
    assert("method-mutations"@.len() == 16);
    reveal_strlit("repair-mutations");
    assert("repair-mutations"@.len() == 16);
    reveal_strlit("learning-mutations");
    assert("learning-mutations"@.len() == 18);
    reveal_strlit("model-destination");
    assert("model-destination"@.len() == 17);
    reveal_strlit("grant-slot");
    assert("grant-slot"@.len() == 10);
    reveal_strlit("trust-slot");
    assert("trust-slot"@.len() == 10);
    reveal_strlit("last");
    assert("last"@.len() == 4);
    reveal_strlit("pages");
    assert("pages"@.len() == 5);
    reveal_strlit("including");
    assert("including"@.len() == 9);
    reveal_strlit("observed-artifacts");
    assert("observed-artifacts"@.len() == 18);
    reveal_strlit("attempt-artifacts");
    assert("attempt-artifacts"@.len() == 17);
    reveal_strlit("variant-inputs");
    assert("variant-inputs"@.len() == 14);
    reveal_strlit("rendered");
    assert("rendered"@.len() == 8);
    reveal_strlit("rendered-elements");
    assert("rendered-elements"@.len() == 17);
    reveal_strlit("model-failure");
    assert("model-failure"@.len() == 13);
    reveal_strlit("chained");
    assert("chained"@.len() == 7);
    reveal_strlit("active");
    assert("active"@.len() == 6);
    reveal_strlit("remaining");
    assert("remaining"@.len() == 9);
    reveal_strlit("availability-path");
    assert("availability-path"@.len() == 17);
}

/// The maker `first-booking`.
pub proof fn makes_first_booking(args: Seq<Tree>, env: Tree)
    ensures
        made("first-booking"@, args, env) == made_first_booking(nth(args, 0)),
{
    reveal(made);
    reveal_strlit("first-booking");
    assert("first-booking"@.len() == 13);
    reveal_strlit("failed-checks");
    assert("failed-checks"@.len() == 13);
    assert("failed-checks"@[1] != "first-booking"@[1]);
    reveal_strlit("forged-checks");
    assert("forged-checks"@.len() == 13);
    assert("forged-checks"@[1] != "first-booking"@[1]);
    reveal_strlit("peer-capability");
    assert("peer-capability"@.len() == 15);
    reveal_strlit("linked-runs");
    assert("linked-runs"@.len() == 11);
    reveal_strlit("children");
    assert("children"@.len() == 8);
    reveal_strlit("method-mutations");
    assert("method-mutations"@.len() == 16);
    reveal_strlit("repair-mutations");
    assert("repair-mutations"@.len() == 16);
    reveal_strlit("learning-mutations");
    assert("learning-mutations"@.len() == 18);
    reveal_strlit("model-destination");
    assert("model-destination"@.len() == 17);
    reveal_strlit("grant-slot");
    assert("grant-slot"@.len() == 10);
    reveal_strlit("trust-slot");
    assert("trust-slot"@.len() == 10);
    reveal_strlit("last");
    assert("last"@.len() == 4);
    reveal_strlit("pages");
    assert("pages"@.len() == 5);
    reveal_strlit("including");
    assert("including"@.len() == 9);
    reveal_strlit("observed-artifacts");
    assert("observed-artifacts"@.len() == 18);
    reveal_strlit("attempt-artifacts");
    assert("attempt-artifacts"@.len() == 17);
    reveal_strlit("variant-inputs");
    assert("variant-inputs"@.len() == 14);
    reveal_strlit("rendered");
    assert("rendered"@.len() == 8);
    reveal_strlit("rendered-elements");
    assert("rendered-elements"@.len() == 17);
    reveal_strlit("model-failure");
    assert("model-failure"@.len() == 13);
    assert("model-failure"@[0] != "first-booking"@[0]);
    reveal_strlit("chained");
    assert("chained"@.len() == 7);
    reveal_strlit("active");
    assert("active"@.len() == 6);
    reveal_strlit("remaining");
    assert("remaining"@.len() == 9);
    reveal_strlit("availability-path");
    assert("availability-path"@.len() == 17);
    reveal_strlit("booking-path");
    assert("booking-path"@.len() == 12);
}

/// The maker `finishing-edge`.
pub proof fn makes_finishing_edge(args: Seq<Tree>, env: Tree)
    ensures
        made("finishing-edge"@, args, env) == made_finishing_edge(),
{
    reveal(made);
    reveal_strlit("finishing-edge");
    assert("finishing-edge"@.len() == 14);
    reveal_strlit("failed-checks");
    assert("failed-checks"@.len() == 13);
    reveal_strlit("forged-checks");
    assert("forged-checks"@.len() == 13);
    reveal_strlit("peer-capability");
    assert("peer-capability"@.len() == 15);
    reveal_strlit("linked-runs");
    assert("linked-runs"@.len() == 11);
    reveal_strlit("children");
    assert("children"@.len() == 8);
    reveal_strlit("method-mutations");
    assert("method-mutations"@.len() == 16);
    reveal_strlit("repair-mutations");
    assert("repair-mutations"@.len() == 16);
    reveal_strlit("learning-mutations");
    assert("learning-mutations"@.len() == 18);
    reveal_strlit("model-destination");
    assert("model-destination"@.len() == 17);
    reveal_strlit("grant-slot");
    assert("grant-slot"@.len() == 10);
    reveal_strlit("trust-slot");
    assert("trust-slot"@.len() == 10);
    reveal_strlit("last");
    assert("last"@.len() == 4);
    reveal_strlit("pages");
    assert("pages"@.len() == 5);
    reveal_strlit("including");
    assert("including"@.len() == 9);
    reveal_strlit("observed-artifacts");
    assert("observed-artifacts"@.len() == 18);
    reveal_strlit("attempt-artifacts");
    assert("attempt-artifacts"@.len() == 17);
    reveal_strlit("variant-inputs");
    assert("variant-inputs"@.len() == 14);
    assert("variant-inputs"@[0] != "finishing-edge"@[0]);
    reveal_strlit("rendered");
    assert("rendered"@.len() == 8);
    reveal_strlit("rendered-elements");
    assert("rendered-elements"@.len() == 17);
    reveal_strlit("model-failure");
    assert("model-failure"@.len() == 13);
    reveal_strlit("chained");
    assert("chained"@.len() == 7);
    reveal_strlit("active");
    assert("active"@.len() == 6);
    reveal_strlit("remaining");
    assert("remaining"@.len() == 9);
    reveal_strlit("availability-path");
    assert("availability-path"@.len() == 17);
    reveal_strlit("booking-path");
    assert("booking-path"@.len() == 12);
    reveal_strlit("first-booking");
    assert("first-booking"@.len() == 13);
}

/// The maker `guidance-note`.
pub proof fn makes_guidance_note(args: Seq<Tree>, env: Tree)
    ensures
        made("guidance-note"@, args, env)
            == made_guidance_note(nth(args, 0), nth(args, 1), nth(args, 2), nth(args, 3)),
{
    reveal(made);
    reveal_strlit("guidance-note");
    assert("guidance-note"@.len() == 13);
    reveal_strlit("failed-checks");
    assert("failed-checks"@.len() == 13);
    assert("failed-checks"@[0] != "guidance-note"@[0]);
    reveal_strlit("forged-checks");
    assert("forged-checks"@.len() == 13);
    assert("forged-checks"@[0] != "guidance-note"@[0]);
    reveal_strlit("peer-capability");
    assert("peer-capability"@.len() == 15);
    reveal_strlit("linked-runs");
    assert("linked-runs"@.len() == 11);
    reveal_strlit("children");
    assert("children"@.len() == 8);
    reveal_strlit("method-mutations");
    assert("method-mutations"@.len() == 16);
    reveal_strlit("repair-mutations");
    assert("repair-mutations"@.len() == 16);
    reveal_strlit("learning-mutations");
    assert("learning-mutations"@.len() == 18);
    reveal_strlit("model-destination");
    assert("model-destination"@.len() == 17);
    reveal_strlit("grant-slot");
    assert("grant-slot"@.len() == 10);
    reveal_strlit("trust-slot");
    assert("trust-slot"@.len() == 10);
    reveal_strlit("last");
    assert("last"@.len() == 4);
    reveal_strlit("pages");
    assert("pages"@.len() == 5);
    reveal_strlit("including");
    assert("including"@.len() == 9);
    reveal_strlit("observed-artifacts");
    assert("observed-artifacts"@.len() == 18);
    reveal_strlit("attempt-artifacts");
    assert("attempt-artifacts"@.len() == 17);
    reveal_strlit("variant-inputs");
    assert("variant-inputs"@.len() == 14);
    reveal_strlit("rendered");
    assert("rendered"@.len() == 8);
    reveal_strlit("rendered-elements");
    assert("rendered-elements"@.len() == 17);
    reveal_strlit("model-failure");
    assert("model-failure"@.len() == 13);
    assert("model-failure"@[0] != "guidance-note"@[0]);
    reveal_strlit("chained");
    assert("chained"@.len() == 7);
    reveal_strlit("active");
    assert("active"@.len() == 6);
    reveal_strlit("remaining");
    assert("remaining"@.len() == 9);
    reveal_strlit("availability-path");
    assert("availability-path"@.len() == 17);
    reveal_strlit("booking-path");
    assert("booking-path"@.len() == 12);
    reveal_strlit("first-booking");
    assert("first-booking"@.len() == 13);
    assert("first-booking"@[0] != "guidance-note"@[0]);
    reveal_strlit("finishing-edge");
    assert("finishing-edge"@.len() == 14);
}

/// The maker `promotion-approval`.
pub proof fn makes_promotion_approval(args: Seq<Tree>, env: Tree)
    ensures
        made("promotion-approval"@, args, env)
            == made_promotion_approval(nth(args, 0), nth(args, 1)),
{
    reveal(made);
    reveal_strlit("promotion-approval");
    assert("promotion-approval"@.len() == 18);
    reveal_strlit("failed-checks");
    assert("failed-checks"@.len() == 13);
    reveal_strlit("forged-checks");
    assert("forged-checks"@.len() == 13);
    reveal_strlit("peer-capability");
    assert("peer-capability"@.len() == 15);
    reveal_strlit("linked-runs");
    assert("linked-runs"@.len() == 11);
    reveal_strlit("children");
    assert("children"@.len() == 8);
    reveal_strlit("method-mutations");
    assert("method-mutations"@.len() == 16);
    reveal_strlit("repair-mutations");
    assert("repair-mutations"@.len() == 16);
    reveal_strlit("learning-mutations");
    assert("learning-mutations"@.len() == 18);
    assert("learning-mutations"@[0] != "promotion-approval"@[0]);
    reveal_strlit("model-destination");
    assert("model-destination"@.len() == 17);
    reveal_strlit("grant-slot");
    assert("grant-slot"@.len() == 10);
    reveal_strlit("trust-slot");
    assert("trust-slot"@.len() == 10);
    reveal_strlit("last");
    assert("last"@.len() == 4);
    reveal_strlit("pages");
    assert("pages"@.len() == 5);
    reveal_strlit("including");
    assert("including"@.len() == 9);
    reveal_strlit("observed-artifacts");
    assert("observed-artifacts"@.len() == 18);
    assert("observed-artifacts"@[0] != "promotion-approval"@[0]);
    reveal_strlit("attempt-artifacts");
    assert("attempt-artifacts"@.len() == 17);
    reveal_strlit("variant-inputs");
    assert("variant-inputs"@.len() == 14);
    reveal_strlit("rendered");
    assert("rendered"@.len() == 8);
    reveal_strlit("rendered-elements");
    assert("rendered-elements"@.len() == 17);
    reveal_strlit("model-failure");
    assert("model-failure"@.len() == 13);
    reveal_strlit("chained");
    assert("chained"@.len() == 7);
    reveal_strlit("active");
    assert("active"@.len() == 6);
    reveal_strlit("remaining");
    assert("remaining"@.len() == 9);
    reveal_strlit("availability-path");
    assert("availability-path"@.len() == 17);
    reveal_strlit("booking-path");
    assert("booking-path"@.len() == 12);
    reveal_strlit("first-booking");
    assert("first-booking"@.len() == 13);
    reveal_strlit("finishing-edge");
    assert("finishing-edge"@.len() == 14);
    reveal_strlit("guidance-note");
    assert("guidance-note"@.len() == 13);
}

/// The maker `held-out-input`.
pub proof fn makes_held_out_input(args: Seq<Tree>, env: Tree)
    ensures
        made("held-out-input"@, args, env) == made_held_out_input(nth(args, 0), nth(args, 1)),
{
    reveal(made);
    reveal_strlit("held-out-input");
    assert("held-out-input"@.len() == 14);
    reveal_strlit("failed-checks");
    assert("failed-checks"@.len() == 13);
    reveal_strlit("forged-checks");
    assert("forged-checks"@.len() == 13);
    reveal_strlit("peer-capability");
    assert("peer-capability"@.len() == 15);
    reveal_strlit("linked-runs");
    assert("linked-runs"@.len() == 11);
    reveal_strlit("children");
    assert("children"@.len() == 8);
    reveal_strlit("method-mutations");
    assert("method-mutations"@.len() == 16);
    reveal_strlit("repair-mutations");
    assert("repair-mutations"@.len() == 16);
    reveal_strlit("learning-mutations");
    assert("learning-mutations"@.len() == 18);
    reveal_strlit("model-destination");
    assert("model-destination"@.len() == 17);
    reveal_strlit("grant-slot");
    assert("grant-slot"@.len() == 10);
    reveal_strlit("trust-slot");
    assert("trust-slot"@.len() == 10);
    reveal_strlit("last");
    assert("last"@.len() == 4);
    reveal_strlit("pages");
    assert("pages"@.len() == 5);
    reveal_strlit("including");
    assert("including"@.len() == 9);
    reveal_strlit("observed-artifacts");
    assert("observed-artifacts"@.len() == 18);
    reveal_strlit("attempt-artifacts");
    assert("attempt-artifacts"@.len() == 17);
    reveal_strlit("variant-inputs");
    assert("variant-inputs"@.len() == 14);
    assert("variant-inputs"@[0] != "held-out-input"@[0]);
    reveal_strlit("rendered");
    assert("rendered"@.len() == 8);
    reveal_strlit("rendered-elements");
    assert("rendered-elements"@.len() == 17);
    reveal_strlit("model-failure");
    assert("model-failure"@.len() == 13);
    reveal_strlit("chained");
    assert("chained"@.len() == 7);
    reveal_strlit("active");
    assert("active"@.len() == 6);
    reveal_strlit("remaining");
    assert("remaining"@.len() == 9);
    reveal_strlit("availability-path");
    assert("availability-path"@.len() == 17);
    reveal_strlit("booking-path");
    assert("booking-path"@.len() == 12);
    reveal_strlit("first-booking");
    assert("first-booking"@.len() == 13);
    reveal_strlit("finishing-edge");
    assert("finishing-edge"@.len() == 14);
    assert("finishing-edge"@[0] != "held-out-input"@[0]);
    reveal_strlit("guidance-note");
    assert("guidance-note"@.len() == 13);
    reveal_strlit("promotion-approval");
    assert("promotion-approval"@.len() == 18);
}

/// The maker `held-out-pair`.
pub proof fn makes_held_out_pair(args: Seq<Tree>, env: Tree)
    ensures
        made("held-out-pair"@, args, env)
            == made_held_out_pair(nth(args, 0), nth(args, 1), nth(args, 2)),
{
    reveal(made);
    reveal_strlit("held-out-pair");
    assert("held-out-pair"@.len() == 13);
    reveal_strlit("failed-checks");
    assert("failed-checks"@.len() == 13);
    assert("failed-checks"@[0] != "held-out-pair"@[0]);
    reveal_strlit("forged-checks");
    assert("forged-checks"@.len() == 13);
    assert("forged-checks"@[0] != "held-out-pair"@[0]);
    reveal_strlit("peer-capability");
    assert("peer-capability"@.len() == 15);
    reveal_strlit("linked-runs");
    assert("linked-runs"@.len() == 11);
    reveal_strlit("children");
    assert("children"@.len() == 8);
    reveal_strlit("method-mutations");
    assert("method-mutations"@.len() == 16);
    reveal_strlit("repair-mutations");
    assert("repair-mutations"@.len() == 16);
    reveal_strlit("learning-mutations");
    assert("learning-mutations"@.len() == 18);
    reveal_strlit("model-destination");
    assert("model-destination"@.len() == 17);
    reveal_strlit("grant-slot");
    assert("grant-slot"@.len() == 10);
    reveal_strlit("trust-slot");
    assert("trust-slot"@.len() == 10);
    reveal_strlit("last");
    assert("last"@.len() == 4);
    reveal_strlit("pages");
    assert("pages"@.len() == 5);
    reveal_strlit("including");
    assert("including"@.len() == 9);
    reveal_strlit("observed-artifacts");
    assert("observed-artifacts"@.len() == 18);
    reveal_strlit("attempt-artifacts");
    assert("attempt-artifacts"@.len() == 17);
    reveal_strlit("variant-inputs");
    assert("variant-inputs"@.len() == 14);
    reveal_strlit("rendered");
    assert("rendered"@.len() == 8);
    reveal_strlit("rendered-elements");
    assert("rendered-elements"@.len() == 17);
    reveal_strlit("model-failure");
    assert("model-failure"@.len() == 13);
    assert("model-failure"@[0] != "held-out-pair"@[0]);
    reveal_strlit("chained");
    assert("chained"@.len() == 7);
    reveal_strlit("active");
    assert("active"@.len() == 6);
    reveal_strlit("remaining");
    assert("remaining"@.len() == 9);
    reveal_strlit("availability-path");
    assert("availability-path"@.len() == 17);
    reveal_strlit("booking-path");
    assert("booking-path"@.len() == 12);
    reveal_strlit("first-booking");
    assert("first-booking"@.len() == 13);
    assert("first-booking"@[0] != "held-out-pair"@[0]);
    reveal_strlit("finishing-edge");
    assert("finishing-edge"@.len() == 14);
    reveal_strlit("guidance-note");
    assert("guidance-note"@.len() == 13);
    assert("guidance-note"@[0] != "held-out-pair"@[0]);
    reveal_strlit("promotion-approval");
    assert("promotion-approval"@.len() == 18);
    reveal_strlit("held-out-input");
    assert("held-out-input"@.len() == 14);
}

/// The maker `source-inputs`.
pub proof fn makes_source_inputs(args: Seq<Tree>, env: Tree)
    ensures
        made("source-inputs"@, args, env) == made_source_inputs(nth(args, 0), nth(args, 1)),
{
    reveal(made);
    reveal_strlit("source-inputs");
    assert("source-inputs"@.len() == 13);
    reveal_strlit("failed-checks");
    assert("failed-checks"@.len() == 13);
    assert("failed-checks"@[0] != "source-inputs"@[0]);
    reveal_strlit("forged-checks");
    assert("forged-checks"@.len() == 13);
    assert("forged-checks"@[0] != "source-inputs"@[0]);
    reveal_strlit("peer-capability");
    assert("peer-capability"@.len() == 15);
    reveal_strlit("linked-runs");
    assert("linked-runs"@.len() == 11);
    reveal_strlit("children");
    assert("children"@.len() == 8);
    reveal_strlit("method-mutations");
    assert("method-mutations"@.len() == 16);
    reveal_strlit("repair-mutations");
    assert("repair-mutations"@.len() == 16);
    reveal_strlit("learning-mutations");
    assert("learning-mutations"@.len() == 18);
    reveal_strlit("model-destination");
    assert("model-destination"@.len() == 17);
    reveal_strlit("grant-slot");
    assert("grant-slot"@.len() == 10);
    reveal_strlit("trust-slot");
    assert("trust-slot"@.len() == 10);
    reveal_strlit("last");
    assert("last"@.len() == 4);
    reveal_strlit("pages");
    assert("pages"@.len() == 5);
    reveal_strlit("including");
    assert("including"@.len() == 9);
    reveal_strlit("observed-artifacts");
    assert("observed-artifacts"@.len() == 18);
    reveal_strlit("attempt-artifacts");
    assert("attempt-artifacts"@.len() == 17);
    reveal_strlit("variant-inputs");
    assert("variant-inputs"@.len() == 14);
    reveal_strlit("rendered");
    assert("rendered"@.len() == 8);
    reveal_strlit("rendered-elements");
    assert("rendered-elements"@.len() == 17);
    reveal_strlit("model-failure");
    assert("model-failure"@.len() == 13);
    assert("model-failure"@[0] != "source-inputs"@[0]);
    reveal_strlit("chained");
    assert("chained"@.len() == 7);
    reveal_strlit("active");
    assert("active"@.len() == 6);
    reveal_strlit("remaining");
    assert("remaining"@.len() == 9);
    reveal_strlit("availability-path");
    assert("availability-path"@.len() == 17);
    reveal_strlit("booking-path");
    assert("booking-path"@.len() == 12);
    reveal_strlit("first-booking");
    assert("first-booking"@.len() == 13);
    assert("first-booking"@[0] != "source-inputs"@[0]);
    reveal_strlit("finishing-edge");
    assert("finishing-edge"@.len() == 14);
    reveal_strlit("guidance-note");
    assert("guidance-note"@.len() == 13);
    assert("guidance-note"@[0] != "source-inputs"@[0]);
    reveal_strlit("promotion-approval");
    assert("promotion-approval"@.len() == 18);
    reveal_strlit("held-out-input");
    assert("held-out-input"@.len() == 14);
    reveal_strlit("held-out-pair");
    assert("held-out-pair"@.len() == 13);
    assert("held-out-pair"@[0] != "source-inputs"@[0]);
}

/// The maker `source-evidence`.
pub proof fn makes_source_evidence(args: Seq<Tree>, env: Tree)
    ensures
        made("source-evidence"@, args, env) == made_source_evidence(nth(args, 0)),
{
    reveal(made);
    reveal_strlit("source-evidence");
    assert("source-evidence"@.len() == 15);
    reveal_strlit("failed-checks");
    assert("failed-checks"@.len() == 13);
    reveal_strlit("forged-checks");
    assert("forged-checks"@.len() == 13);
    reveal_strlit("peer-capability");
    assert("peer-capability"@.len() == 15);
    assert("peer-capability"@[0] != "source-evidence"@[0]);
    reveal_strlit("linked-runs");
    assert("linked-runs"@.len() == 11);
    reveal_strlit("children");
    assert("children"@.len() == 8);
    reveal_strlit("method-mutations");
    assert("method-mutations"@.len() == 16);
    reveal_strlit("repair-mutations");
    assert("repair-mutations"@.len() == 16);
    reveal_strlit("learning-mutations");
    assert("learning-mutations"@.len() == 18);
    reveal_strlit("model-destination");
    assert("model-destination"@.len() == 17);
    reveal_strlit("grant-slot");
    assert("grant-slot"@.len() == 10);
    reveal_strlit("trust-slot");
    assert("trust-slot"@.len() == 10);
    reveal_strlit("last");
    assert("last"@.len() == 4);
    reveal_strlit("pages");
    assert("pages"@.len() == 5);
    reveal_strlit("including");
    assert("including"@.len() == 9);
    reveal_strlit("observed-artifacts");
    assert("observed-artifacts"@.len() == 18);
    reveal_strlit("attempt-artifacts");
    assert("attempt-artifacts"@.len() == 17);
    reveal_strlit("variant-inputs");
    assert("variant-inputs"@.len() == 14);
    reveal_strlit("rendered");
    assert("rendered"@.len() == 8);
    reveal_strlit("rendered-elements");
    assert("rendered-elements"@.len() == 17);
    reveal_strlit("model-failure");
    assert("model-failure"@.len() == 13);
    reveal_strlit("chained");
    assert("chained"@.len() == 7);
    reveal_strlit("active");
    assert("active"@.len() == 6);
    reveal_strlit("remaining");
    assert("remaining"@.len() == 9);
    reveal_strlit("availability-path");
    assert("availability-path"@.len() == 17);
    reveal_strlit("booking-path");
    assert("booking-path"@.len() == 12);
    reveal_strlit("first-booking");
    assert("first-booking"@.len() == 13);
    reveal_strlit("finishing-edge");
    assert("finishing-edge"@.len() == 14);
    reveal_strlit("guidance-note");
    assert("guidance-note"@.len() == 13);
    reveal_strlit("promotion-approval");
    assert("promotion-approval"@.len() == 18);
    reveal_strlit("held-out-input");
    assert("held-out-input"@.len() == 14);
    reveal_strlit("held-out-pair");
    assert("held-out-pair"@.len() == 13);
    reveal_strlit("source-inputs");
    assert("source-inputs"@.len() == 13);
}

/// The maker `proposal-prompt`.
pub proof fn makes_proposal_prompt(args: Seq<Tree>, env: Tree)
    ensures
        made("proposal-prompt"@, args, env) == made_proposal_prompt(nth(args, 0), nth(args, 1)),
{
    reveal(made);
    reveal_strlit("proposal-prompt");
    assert("proposal-prompt"@.len() == 15);
    reveal_strlit("failed-checks");
    assert("failed-checks"@.len() == 13);
    reveal_strlit("forged-checks");
    assert("forged-checks"@.len() == 13);
    reveal_strlit("peer-capability");
    assert("peer-capability"@.len() == 15);
    assert("peer-capability"@[1] != "proposal-prompt"@[1]);
    reveal_strlit("linked-runs");
    assert("linked-runs"@.len() == 11);
    reveal_strlit("children");
    assert("children"@.len() == 8);
    reveal_strlit("method-mutations");
    assert("method-mutations"@.len() == 16);
    reveal_strlit("repair-mutations");
    assert("repair-mutations"@.len() == 16);
    reveal_strlit("learning-mutations");
    assert("learning-mutations"@.len() == 18);
    reveal_strlit("model-destination");
    assert("model-destination"@.len() == 17);
    reveal_strlit("grant-slot");
    assert("grant-slot"@.len() == 10);
    reveal_strlit("trust-slot");
    assert("trust-slot"@.len() == 10);
    reveal_strlit("last");
    assert("last"@.len() == 4);
    reveal_strlit("pages");
    assert("pages"@.len() == 5);
    reveal_strlit("including");
    assert("including"@.len() == 9);
    reveal_strlit("observed-artifacts");
    assert("observed-artifacts"@.len() == 18);
    reveal_strlit("attempt-artifacts");
    assert("attempt-artifacts"@.len() == 17);
    reveal_strlit("variant-inputs");
    assert("variant-inputs"@.len() == 14);
    reveal_strlit("rendered");
    assert("rendered"@.len() == 8);
    reveal_strlit("rendered-elements");
    assert("rendered-elements"@.len() == 17);
    reveal_strlit("model-failure");
    assert("model-failure"@.len() == 13);
    reveal_strlit("chained");
    assert("chained"@.len() == 7);
    reveal_strlit("active");
    assert("active"@.len() == 6);
    reveal_strlit("remaining");
    assert("remaining"@.len() == 9);
    reveal_strlit("availability-path");
    assert("availability-path"@.len() == 17);
    reveal_strlit("booking-path");
    assert("booking-path"@.len() == 12);
    reveal_strlit("first-booking");
    assert("first-booking"@.len() == 13);
    reveal_strlit("finishing-edge");
    assert("finishing-edge"@.len() == 14);
    reveal_strlit("guidance-note");
    assert("guidance-note"@.len() == 13);
    reveal_strlit("promotion-approval");
    assert("promotion-approval"@.len() == 18);
    reveal_strlit("held-out-input");
    assert("held-out-input"@.len() == 14);
    reveal_strlit("held-out-pair");
    assert("held-out-pair"@.len() == 13);
    reveal_strlit("source-inputs");
    assert("source-inputs"@.len() == 13);
    reveal_strlit("source-evidence");
    assert("source-evidence"@.len() == 15);
    assert("source-evidence"@[0] != "proposal-prompt"@[0]);
}

/// The maker `artifact-port`.
pub proof fn makes_artifact_port(args: Seq<Tree>, env: Tree)
    ensures
        made("artifact-port"@, args, env) == made_artifact_port(),
{
    reveal(made);
    reveal_strlit("artifact-port");
    assert("artifact-port"@.len() == 13);
    reveal_strlit("failed-checks");
    assert("failed-checks"@.len() == 13);
    assert("failed-checks"@[0] != "artifact-port"@[0]);
    reveal_strlit("forged-checks");
    assert("forged-checks"@.len() == 13);
    assert("forged-checks"@[0] != "artifact-port"@[0]);
    reveal_strlit("peer-capability");
    assert("peer-capability"@.len() == 15);
    reveal_strlit("linked-runs");
    assert("linked-runs"@.len() == 11);
    reveal_strlit("children");
    assert("children"@.len() == 8);
    reveal_strlit("method-mutations");
    assert("method-mutations"@.len() == 16);
    reveal_strlit("repair-mutations");
    assert("repair-mutations"@.len() == 16);
    reveal_strlit("learning-mutations");
    assert("learning-mutations"@.len() == 18);
    reveal_strlit("model-destination");
    assert("model-destination"@.len() == 17);
    reveal_strlit("grant-slot");
    assert("grant-slot"@.len() == 10);
    reveal_strlit("trust-slot");
    assert("trust-slot"@.len() == 10);
    reveal_strlit("last");
    assert("last"@.len() == 4);
    reveal_strlit("pages");
    assert("pages"@.len() == 5);
    reveal_strlit("including");
    assert("including"@.len() == 9);
    reveal_strlit("observed-artifacts");
    assert("observed-artifacts"@.len() == 18);
    reveal_strlit("attempt-artifacts");
    assert("attempt-artifacts"@.len() == 17);
    reveal_strlit("variant-inputs");
    assert("variant-inputs"@.len() == 14);
    reveal_strlit("rendered");
    assert("rendered"@.len() == 8);
    reveal_strlit("rendered-elements");
    assert("rendered-elements"@.len() == 17);
    reveal_strlit("model-failure");
    assert("model-failure"@.len() == 13);
    assert("model-failure"@[0] != "artifact-port"@[0]);
    reveal_strlit("chained");
    assert("chained"@.len() == 7);
    reveal_strlit("active");
    assert("active"@.len() == 6);
    reveal_strlit("remaining");
    assert("remaining"@.len() == 9);
    reveal_strlit("availability-path");
    assert("availability-path"@.len() == 17);
    reveal_strlit("booking-path");
    assert("booking-path"@.len() == 12);
    reveal_strlit("first-booking");
    assert("first-booking"@.len() == 13);
    assert("first-booking"@[0] != "artifact-port"@[0]);
    reveal_strlit("finishing-edge");
    assert("finishing-edge"@.len() == 14);
    reveal_strlit("guidance-note");
    assert("guidance-note"@.len() == 13);
    assert("guidance-note"@[0] != "artifact-port"@[0]);
    reveal_strlit("promotion-approval");
    assert("promotion-approval"@.len() == 18);
    reveal_strlit("held-out-input");
    assert("held-out-input"@.len() == 14);
    reveal_strlit("held-out-pair");
    assert("held-out-pair"@.len() == 13);
    assert("held-out-pair"@[0] != "artifact-port"@[0]);
    reveal_strlit("source-inputs");
    assert("source-inputs"@.len() == 13);
    assert("source-inputs"@[0] != "artifact-port"@[0]);
    reveal_strlit("source-evidence");
    assert("source-evidence"@.len() == 15);
    reveal_strlit("proposal-prompt");
    assert("proposal-prompt"@.len() == 15);
}

/// The maker `proposal-mutations`.
pub proof fn makes_proposal_mutations(args: Seq<Tree>, env: Tree)
    ensures
        made("proposal-mutations"@, args, env) == made_proposal_mutations(nth(args, 0)),
{
    reveal(made);
    reveal_strlit("proposal-mutations");
    assert("proposal-mutations"@.len() == 18);
    reveal_strlit("failed-checks");
    assert("failed-checks"@.len() == 13);
    reveal_strlit("forged-checks");
    assert("forged-checks"@.len() == 13);
    reveal_strlit("peer-capability");
    assert("peer-capability"@.len() == 15);
    reveal_strlit("linked-runs");
    assert("linked-runs"@.len() == 11);
    reveal_strlit("children");
    assert("children"@.len() == 8);
    reveal_strlit("method-mutations");
    assert("method-mutations"@.len() == 16);
    reveal_strlit("repair-mutations");
    assert("repair-mutations"@.len() == 16);
    reveal_strlit("learning-mutations");
    assert("learning-mutations"@.len() == 18);
    assert("learning-mutations"@[0] != "proposal-mutations"@[0]);
    reveal_strlit("model-destination");
    assert("model-destination"@.len() == 17);
    reveal_strlit("grant-slot");
    assert("grant-slot"@.len() == 10);
    reveal_strlit("trust-slot");
    assert("trust-slot"@.len() == 10);
    reveal_strlit("last");
    assert("last"@.len() == 4);
    reveal_strlit("pages");
    assert("pages"@.len() == 5);
    reveal_strlit("including");
    assert("including"@.len() == 9);
    reveal_strlit("observed-artifacts");
    assert("observed-artifacts"@.len() == 18);
    assert("observed-artifacts"@[0] != "proposal-mutations"@[0]);
    reveal_strlit("attempt-artifacts");
    assert("attempt-artifacts"@.len() == 17);
    reveal_strlit("variant-inputs");
    assert("variant-inputs"@.len() == 14);
    reveal_strlit("rendered");
    assert("rendered"@.len() == 8);
    reveal_strlit("rendered-elements");
    assert("rendered-elements"@.len() == 17);
    reveal_strlit("model-failure");
    assert("model-failure"@.len() == 13);
    reveal_strlit("chained");
    assert("chained"@.len() == 7);
    reveal_strlit("active");
    assert("active"@.len() == 6);
    reveal_strlit("remaining");
    assert("remaining"@.len() == 9);
    reveal_strlit("availability-path");
    assert("availability-path"@.len() == 17);
    reveal_strlit("booking-path");
    assert("booking-path"@.len() == 12);
    reveal_strlit("first-booking");
    assert("first-booking"@.len() == 13);
    reveal_strlit("finishing-edge");
    assert("finishing-edge"@.len() == 14);
    reveal_strlit("guidance-note");
    assert("guidance-note"@.len() == 13);
    reveal_strlit("promotion-approval");
    assert("promotion-approval"@.len() == 18);
    assert("promotion-approval"@[3] != "proposal-mutations"@[3]);
    reveal_strlit("held-out-input");
    assert("held-out-input"@.len() == 14);
    reveal_strlit("held-out-pair");
    assert("held-out-pair"@.len() == 13);
    reveal_strlit("source-inputs");
    assert("source-inputs"@.len() == 13);
    reveal_strlit("source-evidence");
    assert("source-evidence"@.len() == 15);
    reveal_strlit("proposal-prompt");
    assert("proposal-prompt"@.len() == 15);
    reveal_strlit("artifact-port");
    assert("artifact-port"@.len() == 13);
}

/// The maker `slotbook-policy`.
pub proof fn makes_slotbook_policy(args: Seq<Tree>, env: Tree)
    ensures
        made("slotbook-policy"@, args, env) == (if ground(args, env) is Object {
            document_of(SLOTBOOK_POLICY@, ground(args, env))
        } else {
            Err("scenario value is absent"@)
        }),
{
    reveal(made);
    reveal(drafted);
    reveal_strlit("slotbook-policy");
    assert("slotbook-policy"@.len() == 15);
    reveal_strlit("failed-checks");
    assert("failed-checks"@.len() == 13);
    reveal_strlit("forged-checks");
    assert("forged-checks"@.len() == 13);
    reveal_strlit("peer-capability");
    assert("peer-capability"@.len() == 15);
    assert("peer-capability"@[0] != "slotbook-policy"@[0]);
    reveal_strlit("linked-runs");
    assert("linked-runs"@.len() == 11);
    reveal_strlit("children");
    assert("children"@.len() == 8);
    reveal_strlit("method-mutations");
    assert("method-mutations"@.len() == 16);
    reveal_strlit("repair-mutations");
    assert("repair-mutations"@.len() == 16);
    reveal_strlit("learning-mutations");
    assert("learning-mutations"@.len() == 18);
    reveal_strlit("model-destination");
    assert("model-destination"@.len() == 17);
    reveal_strlit("grant-slot");
    assert("grant-slot"@.len() == 10);
    reveal_strlit("trust-slot");
    assert("trust-slot"@.len() == 10);
    reveal_strlit("last");
    assert("last"@.len() == 4);
    reveal_strlit("pages");
    assert("pages"@.len() == 5);
    reveal_strlit("including");
    assert("including"@.len() == 9);
    reveal_strlit("observed-artifacts");
    assert("observed-artifacts"@.len() == 18);
    reveal_strlit("attempt-artifacts");
    assert("attempt-artifacts"@.len() == 17);
    reveal_strlit("variant-inputs");
    assert("variant-inputs"@.len() == 14);
    reveal_strlit("rendered");
    assert("rendered"@.len() == 8);
    reveal_strlit("rendered-elements");
    assert("rendered-elements"@.len() == 17);
    reveal_strlit("model-failure");
    assert("model-failure"@.len() == 13);
    reveal_strlit("chained");
    assert("chained"@.len() == 7);
    reveal_strlit("active");
    assert("active"@.len() == 6);
    reveal_strlit("remaining");
    assert("remaining"@.len() == 9);
    reveal_strlit("availability-path");
    assert("availability-path"@.len() == 17);
    reveal_strlit("booking-path");
    assert("booking-path"@.len() == 12);
    reveal_strlit("first-booking");
    assert("first-booking"@.len() == 13);
    reveal_strlit("finishing-edge");
    assert("finishing-edge"@.len() == 14);
    reveal_strlit("guidance-note");
    assert("guidance-note"@.len() == 13);
    reveal_strlit("promotion-approval");
    assert("promotion-approval"@.len() == 18);
    reveal_strlit("held-out-input");
    assert("held-out-input"@.len() == 14);
    reveal_strlit("held-out-pair");
    assert("held-out-pair"@.len() == 13);
    reveal_strlit("source-inputs");
    assert("source-inputs"@.len() == 13);
    reveal_strlit("source-evidence");
    assert("source-evidence"@.len() == 15);
    assert("source-evidence"@[1] != "slotbook-policy"@[1]);
    reveal_strlit("proposal-prompt");
    assert("proposal-prompt"@.len() == 15);
    assert("proposal-prompt"@[0] != "slotbook-policy"@[0]);
    reveal_strlit("artifact-port");
    assert("artifact-port"@.len() == 13);
    reveal_strlit("proposal-mutations");
    assert("proposal-mutations"@.len() == 18);
}

/// The maker `slotbook-requirement`.
pub proof fn makes_slotbook_requirement(args: Seq<Tree>, env: Tree)
    ensures
        made("slotbook-requirement"@, args, env) == (if ground(args, env) is Object {
            document_of(SLOTBOOK_REQUIREMENT@, ground(args, env))
        } else {
            Err("scenario value is absent"@)
        }),
{
    reveal(made);
    reveal(drafted);
    reveal_strlit("slotbook-requirement");
    assert("slotbook-requirement"@.len() == 20);
    reveal_strlit("failed-checks");
    assert("failed-checks"@.len() == 13);
    reveal_strlit("forged-checks");
    assert("forged-checks"@.len() == 13);
    reveal_strlit("peer-capability");
    assert("peer-capability"@.len() == 15);
    reveal_strlit("linked-runs");
    assert("linked-runs"@.len() == 11);
    reveal_strlit("children");
    assert("children"@.len() == 8);
    reveal_strlit("method-mutations");
    assert("method-mutations"@.len() == 16);
    reveal_strlit("repair-mutations");
    assert("repair-mutations"@.len() == 16);
    reveal_strlit("learning-mutations");
    assert("learning-mutations"@.len() == 18);
    reveal_strlit("model-destination");
    assert("model-destination"@.len() == 17);
    reveal_strlit("grant-slot");
    assert("grant-slot"@.len() == 10);
    reveal_strlit("trust-slot");
    assert("trust-slot"@.len() == 10);
    reveal_strlit("last");
    assert("last"@.len() == 4);
    reveal_strlit("pages");
    assert("pages"@.len() == 5);
    reveal_strlit("including");
    assert("including"@.len() == 9);
    reveal_strlit("observed-artifacts");
    assert("observed-artifacts"@.len() == 18);
    reveal_strlit("attempt-artifacts");
    assert("attempt-artifacts"@.len() == 17);
    reveal_strlit("variant-inputs");
    assert("variant-inputs"@.len() == 14);
    reveal_strlit("rendered");
    assert("rendered"@.len() == 8);
    reveal_strlit("rendered-elements");
    assert("rendered-elements"@.len() == 17);
    reveal_strlit("model-failure");
    assert("model-failure"@.len() == 13);
    reveal_strlit("chained");
    assert("chained"@.len() == 7);
    reveal_strlit("active");
    assert("active"@.len() == 6);
    reveal_strlit("remaining");
    assert("remaining"@.len() == 9);
    reveal_strlit("availability-path");
    assert("availability-path"@.len() == 17);
    reveal_strlit("booking-path");
    assert("booking-path"@.len() == 12);
    reveal_strlit("first-booking");
    assert("first-booking"@.len() == 13);
    reveal_strlit("finishing-edge");
    assert("finishing-edge"@.len() == 14);
    reveal_strlit("guidance-note");
    assert("guidance-note"@.len() == 13);
    reveal_strlit("promotion-approval");
    assert("promotion-approval"@.len() == 18);
    reveal_strlit("held-out-input");
    assert("held-out-input"@.len() == 14);
    reveal_strlit("held-out-pair");
    assert("held-out-pair"@.len() == 13);
    reveal_strlit("source-inputs");
    assert("source-inputs"@.len() == 13);
    reveal_strlit("source-evidence");
    assert("source-evidence"@.len() == 15);
    reveal_strlit("proposal-prompt");
    assert("proposal-prompt"@.len() == 15);
    reveal_strlit("artifact-port");
    assert("artifact-port"@.len() == 13);
    reveal_strlit("proposal-mutations");
    assert("proposal-mutations"@.len() == 18);
    reveal_strlit("slotbook-policy");
    assert("slotbook-policy"@.len() == 15);
}

/// The maker `slotbook-scope`.
pub proof fn makes_slotbook_scope(args: Seq<Tree>, env: Tree)
    ensures
        made("slotbook-scope"@, args, env) == (if ground(args, env) is Object {
            document_of(SLOTBOOK_SCOPE@, ground(args, env))
        } else {
            Err("scenario value is absent"@)
        }),
{
    reveal(made);
    reveal(drafted);
    reveal_strlit("slotbook-scope");
    assert("slotbook-scope"@.len() == 14);
    reveal_strlit("failed-checks");
    assert("failed-checks"@.len() == 13);
    reveal_strlit("forged-checks");
    assert("forged-checks"@.len() == 13);
    reveal_strlit("peer-capability");
    assert("peer-capability"@.len() == 15);
    reveal_strlit("linked-runs");
    assert("linked-runs"@.len() == 11);
    reveal_strlit("children");
    assert("children"@.len() == 8);
    reveal_strlit("method-mutations");
    assert("method-mutations"@.len() == 16);
    reveal_strlit("repair-mutations");
    assert("repair-mutations"@.len() == 16);
    reveal_strlit("learning-mutations");
    assert("learning-mutations"@.len() == 18);
    reveal_strlit("model-destination");
    assert("model-destination"@.len() == 17);
    reveal_strlit("grant-slot");
    assert("grant-slot"@.len() == 10);
    reveal_strlit("trust-slot");
    assert("trust-slot"@.len() == 10);
    reveal_strlit("last");
    assert("last"@.len() == 4);
    reveal_strlit("pages");
    assert("pages"@.len() == 5);
    reveal_strlit("including");
    assert("including"@.len() == 9);
    reveal_strlit("observed-artifacts");
    assert("observed-artifacts"@.len() == 18);
    reveal_strlit("attempt-artifacts");
    assert("attempt-artifacts"@.len() == 17);
    reveal_strlit("variant-inputs");
    assert("variant-inputs"@.len() == 14);
    assert("variant-inputs"@[0] != "slotbook-scope"@[0]);
    reveal_strlit("rendered");
    assert("rendered"@.len() == 8);
    reveal_strlit("rendered-elements");
    assert("rendered-elements"@.len() == 17);
    reveal_strlit("model-failure");
    assert("model-failure"@.len() == 13);
    reveal_strlit("chained");
    assert("chained"@.len() == 7);
    reveal_strlit("active");
    assert("active"@.len() == 6);
    reveal_strlit("remaining");
    assert("remaining"@.len() == 9);
    reveal_strlit("availability-path");
    assert("availability-path"@.len() == 17);
    reveal_strlit("booking-path");
    assert("booking-path"@.len() == 12);
    reveal_strlit("first-booking");
    assert("first-booking"@.len() == 13);
    reveal_strlit("finishing-edge");
    assert("finishing-edge"@.len() == 14);
    assert("finishing-edge"@[0] != "slotbook-scope"@[0]);
    reveal_strlit("guidance-note");
    assert("guidance-note"@.len() == 13);
    reveal_strlit("promotion-approval");
    assert("promotion-approval"@.len() == 18);
    reveal_strlit("held-out-input");
    assert("held-out-input"@.len() == 14);
    assert("held-out-input"@[0] != "slotbook-scope"@[0]);
    reveal_strlit("held-out-pair");
    assert("held-out-pair"@.len() == 13);
    reveal_strlit("source-inputs");
    assert("source-inputs"@.len() == 13);
    reveal_strlit("source-evidence");
    assert("source-evidence"@.len() == 15);
    reveal_strlit("proposal-prompt");
    assert("proposal-prompt"@.len() == 15);
    reveal_strlit("artifact-port");
    assert("artifact-port"@.len() == 13);
    reveal_strlit("proposal-mutations");
    assert("proposal-mutations"@.len() == 18);
    reveal_strlit("slotbook-policy");
    assert("slotbook-policy"@.len() == 15);
    reveal_strlit("slotbook-requirement");
    assert("slotbook-requirement"@.len() == 20);
}

/// The maker `slotbook-protected-recipe`.
pub proof fn makes_slotbook_protected_recipe(args: Seq<Tree>, env: Tree)
    ensures
        made("slotbook-protected-recipe"@, args, env) == (if ground(args, env) is Object {
            document_of(SLOTBOOK_PROTECTED_RECIPE@, ground(args, env))
        } else {
            Err("scenario value is absent"@)
        }),
{
    reveal(made);
    reveal(drafted);
    reveal_strlit("slotbook-protected-recipe");
    assert("slotbook-protected-recipe"@.len() == 25);
    reveal_strlit("failed-checks");
    assert("failed-checks"@.len() == 13);
    reveal_strlit("forged-checks");
    assert("forged-checks"@.len() == 13);
    reveal_strlit("peer-capability");
    assert("peer-capability"@.len() == 15);
    reveal_strlit("linked-runs");
    assert("linked-runs"@.len() == 11);
    reveal_strlit("children");
    assert("children"@.len() == 8);
    reveal_strlit("method-mutations");
    assert("method-mutations"@.len() == 16);
    reveal_strlit("repair-mutations");
    assert("repair-mutations"@.len() == 16);
    reveal_strlit("learning-mutations");
    assert("learning-mutations"@.len() == 18);
    reveal_strlit("model-destination");
    assert("model-destination"@.len() == 17);
    reveal_strlit("grant-slot");
    assert("grant-slot"@.len() == 10);
    reveal_strlit("trust-slot");
    assert("trust-slot"@.len() == 10);
    reveal_strlit("last");
    assert("last"@.len() == 4);
    reveal_strlit("pages");
    assert("pages"@.len() == 5);
    reveal_strlit("including");
    assert("including"@.len() == 9);
    reveal_strlit("observed-artifacts");
    assert("observed-artifacts"@.len() == 18);
    reveal_strlit("attempt-artifacts");
    assert("attempt-artifacts"@.len() == 17);
    reveal_strlit("variant-inputs");
    assert("variant-inputs"@.len() == 14);
    reveal_strlit("rendered");
    assert("rendered"@.len() == 8);
    reveal_strlit("rendered-elements");
    assert("rendered-elements"@.len() == 17);
    reveal_strlit("model-failure");
    assert("model-failure"@.len() == 13);
    reveal_strlit("chained");
    assert("chained"@.len() == 7);
    reveal_strlit("active");
    assert("active"@.len() == 6);
    reveal_strlit("remaining");
    assert("remaining"@.len() == 9);
    reveal_strlit("availability-path");
    assert("availability-path"@.len() == 17);
    reveal_strlit("booking-path");
    assert("booking-path"@.len() == 12);
    reveal_strlit("first-booking");
    assert("first-booking"@.len() == 13);
    reveal_strlit("finishing-edge");
    assert("finishing-edge"@.len() == 14);
    reveal_strlit("guidance-note");
    assert("guidance-note"@.len() == 13);
    reveal_strlit("promotion-approval");
    assert("promotion-approval"@.len() == 18);
    reveal_strlit("held-out-input");
    assert("held-out-input"@.len() == 14);
    reveal_strlit("held-out-pair");
    assert("held-out-pair"@.len() == 13);
    reveal_strlit("source-inputs");
    assert("source-inputs"@.len() == 13);
    reveal_strlit("source-evidence");
    assert("source-evidence"@.len() == 15);
    reveal_strlit("proposal-prompt");
    assert("proposal-prompt"@.len() == 15);
    reveal_strlit("artifact-port");
    assert("artifact-port"@.len() == 13);
    reveal_strlit("proposal-mutations");
    assert("proposal-mutations"@.len() == 18);
    reveal_strlit("slotbook-policy");
    assert("slotbook-policy"@.len() == 15);
    reveal_strlit("slotbook-requirement");
    assert("slotbook-requirement"@.len() == 20);
    reveal_strlit("slotbook-scope");
    assert("slotbook-scope"@.len() == 14);
}

/// The maker `slotbook-worker-recipe`.
pub proof fn makes_slotbook_worker_recipe(args: Seq<Tree>, env: Tree)
    ensures
        made("slotbook-worker-recipe"@, args, env) == (if ground(args, env) is Object {
            document_of(SLOTBOOK_WORKER_RECIPE@, ground(args, env))
        } else {
            Err("scenario value is absent"@)
        }),
{
    reveal(made);
    reveal(drafted);
    reveal_strlit("slotbook-worker-recipe");
    assert("slotbook-worker-recipe"@.len() == 22);
    reveal_strlit("failed-checks");
    assert("failed-checks"@.len() == 13);
    reveal_strlit("forged-checks");
    assert("forged-checks"@.len() == 13);
    reveal_strlit("peer-capability");
    assert("peer-capability"@.len() == 15);
    reveal_strlit("linked-runs");
    assert("linked-runs"@.len() == 11);
    reveal_strlit("children");
    assert("children"@.len() == 8);
    reveal_strlit("method-mutations");
    assert("method-mutations"@.len() == 16);
    reveal_strlit("repair-mutations");
    assert("repair-mutations"@.len() == 16);
    reveal_strlit("learning-mutations");
    assert("learning-mutations"@.len() == 18);
    reveal_strlit("model-destination");
    assert("model-destination"@.len() == 17);
    reveal_strlit("grant-slot");
    assert("grant-slot"@.len() == 10);
    reveal_strlit("trust-slot");
    assert("trust-slot"@.len() == 10);
    reveal_strlit("last");
    assert("last"@.len() == 4);
    reveal_strlit("pages");
    assert("pages"@.len() == 5);
    reveal_strlit("including");
    assert("including"@.len() == 9);
    reveal_strlit("observed-artifacts");
    assert("observed-artifacts"@.len() == 18);
    reveal_strlit("attempt-artifacts");
    assert("attempt-artifacts"@.len() == 17);
    reveal_strlit("variant-inputs");
    assert("variant-inputs"@.len() == 14);
    reveal_strlit("rendered");
    assert("rendered"@.len() == 8);
    reveal_strlit("rendered-elements");
    assert("rendered-elements"@.len() == 17);
    reveal_strlit("model-failure");
    assert("model-failure"@.len() == 13);
    reveal_strlit("chained");
    assert("chained"@.len() == 7);
    reveal_strlit("active");
    assert("active"@.len() == 6);
    reveal_strlit("remaining");
    assert("remaining"@.len() == 9);
    reveal_strlit("availability-path");
    assert("availability-path"@.len() == 17);
    reveal_strlit("booking-path");
    assert("booking-path"@.len() == 12);
    reveal_strlit("first-booking");
    assert("first-booking"@.len() == 13);
    reveal_strlit("finishing-edge");
    assert("finishing-edge"@.len() == 14);
    reveal_strlit("guidance-note");
    assert("guidance-note"@.len() == 13);
    reveal_strlit("promotion-approval");
    assert("promotion-approval"@.len() == 18);
    reveal_strlit("held-out-input");
    assert("held-out-input"@.len() == 14);
    reveal_strlit("held-out-pair");
    assert("held-out-pair"@.len() == 13);
    reveal_strlit("source-inputs");
    assert("source-inputs"@.len() == 13);
    reveal_strlit("source-evidence");
    assert("source-evidence"@.len() == 15);
    reveal_strlit("proposal-prompt");
    assert("proposal-prompt"@.len() == 15);
    reveal_strlit("artifact-port");
    assert("artifact-port"@.len() == 13);
    reveal_strlit("proposal-mutations");
    assert("proposal-mutations"@.len() == 18);
    reveal_strlit("slotbook-policy");
    assert("slotbook-policy"@.len() == 15);
    reveal_strlit("slotbook-requirement");
    assert("slotbook-requirement"@.len() == 20);
    reveal_strlit("slotbook-scope");
    assert("slotbook-scope"@.len() == 14);
    reveal_strlit("slotbook-protected-recipe");
    assert("slotbook-protected-recipe"@.len() == 25);
}

/// The maker `slotbook-session-config`.
pub proof fn makes_slotbook_session_config(args: Seq<Tree>, env: Tree)
    ensures
        made("slotbook-session-config"@, args, env) == (if ground(args, env) is Object {
            document_of(SLOTBOOK_SESSION_CONFIG@, ground(args, env))
        } else {
            Err("scenario value is absent"@)
        }),
{
    reveal(made);
    reveal(drafted);
    reveal_strlit("slotbook-session-config");
    assert("slotbook-session-config"@.len() == 23);
    reveal_strlit("failed-checks");
    assert("failed-checks"@.len() == 13);
    reveal_strlit("forged-checks");
    assert("forged-checks"@.len() == 13);
    reveal_strlit("peer-capability");
    assert("peer-capability"@.len() == 15);
    reveal_strlit("linked-runs");
    assert("linked-runs"@.len() == 11);
    reveal_strlit("children");
    assert("children"@.len() == 8);
    reveal_strlit("method-mutations");
    assert("method-mutations"@.len() == 16);
    reveal_strlit("repair-mutations");
    assert("repair-mutations"@.len() == 16);
    reveal_strlit("learning-mutations");
    assert("learning-mutations"@.len() == 18);
    reveal_strlit("model-destination");
    assert("model-destination"@.len() == 17);
    reveal_strlit("grant-slot");
    assert("grant-slot"@.len() == 10);
    reveal_strlit("trust-slot");
    assert("trust-slot"@.len() == 10);
    reveal_strlit("last");
    assert("last"@.len() == 4);
    reveal_strlit("pages");
    assert("pages"@.len() == 5);
    reveal_strlit("including");
    assert("including"@.len() == 9);
    reveal_strlit("observed-artifacts");
    assert("observed-artifacts"@.len() == 18);
    reveal_strlit("attempt-artifacts");
    assert("attempt-artifacts"@.len() == 17);
    reveal_strlit("variant-inputs");
    assert("variant-inputs"@.len() == 14);
    reveal_strlit("rendered");
    assert("rendered"@.len() == 8);
    reveal_strlit("rendered-elements");
    assert("rendered-elements"@.len() == 17);
    reveal_strlit("model-failure");
    assert("model-failure"@.len() == 13);
    reveal_strlit("chained");
    assert("chained"@.len() == 7);
    reveal_strlit("active");
    assert("active"@.len() == 6);
    reveal_strlit("remaining");
    assert("remaining"@.len() == 9);
    reveal_strlit("availability-path");
    assert("availability-path"@.len() == 17);
    reveal_strlit("booking-path");
    assert("booking-path"@.len() == 12);
    reveal_strlit("first-booking");
    assert("first-booking"@.len() == 13);
    reveal_strlit("finishing-edge");
    assert("finishing-edge"@.len() == 14);
    reveal_strlit("guidance-note");
    assert("guidance-note"@.len() == 13);
    reveal_strlit("promotion-approval");
    assert("promotion-approval"@.len() == 18);
    reveal_strlit("held-out-input");
    assert("held-out-input"@.len() == 14);
    reveal_strlit("held-out-pair");
    assert("held-out-pair"@.len() == 13);
    reveal_strlit("source-inputs");
    assert("source-inputs"@.len() == 13);
    reveal_strlit("source-evidence");
    assert("source-evidence"@.len() == 15);
    reveal_strlit("proposal-prompt");
    assert("proposal-prompt"@.len() == 15);
    reveal_strlit("artifact-port");
    assert("artifact-port"@.len() == 13);
    reveal_strlit("proposal-mutations");
    assert("proposal-mutations"@.len() == 18);
    reveal_strlit("slotbook-policy");
    assert("slotbook-policy"@.len() == 15);
    reveal_strlit("slotbook-requirement");
    assert("slotbook-requirement"@.len() == 20);
    reveal_strlit("slotbook-scope");
    assert("slotbook-scope"@.len() == 14);
    reveal_strlit("slotbook-protected-recipe");
    assert("slotbook-protected-recipe"@.len() == 25);
    reveal_strlit("slotbook-worker-recipe");
    assert("slotbook-worker-recipe"@.len() == 22);
}

/// The maker `seed-inputs`.
pub proof fn makes_seed_inputs(args: Seq<Tree>, env: Tree)
    ensures
        made("seed-inputs"@, args, env) == (if ground(args, env) is Object {
            document_of(SEED_INPUTS@, ground(args, env))
        } else {
            Err("scenario value is absent"@)
        }),
{
    reveal(made);
    reveal(drafted);
    reveal_strlit("seed-inputs");
    assert("seed-inputs"@.len() == 11);
    reveal_strlit("failed-checks");
    assert("failed-checks"@.len() == 13);
    reveal_strlit("forged-checks");
    assert("forged-checks"@.len() == 13);
    reveal_strlit("peer-capability");
    assert("peer-capability"@.len() == 15);
    reveal_strlit("linked-runs");
    assert("linked-runs"@.len() == 11);
    assert("linked-runs"@[0] != "seed-inputs"@[0]);
    reveal_strlit("children");
    assert("children"@.len() == 8);
    reveal_strlit("method-mutations");
    assert("method-mutations"@.len() == 16);
    reveal_strlit("repair-mutations");
    assert("repair-mutations"@.len() == 16);
    reveal_strlit("learning-mutations");
    assert("learning-mutations"@.len() == 18);
    reveal_strlit("model-destination");
    assert("model-destination"@.len() == 17);
    reveal_strlit("grant-slot");
    assert("grant-slot"@.len() == 10);
    reveal_strlit("trust-slot");
    assert("trust-slot"@.len() == 10);
    reveal_strlit("last");
    assert("last"@.len() == 4);
    reveal_strlit("pages");
    assert("pages"@.len() == 5);
    reveal_strlit("including");
    assert("including"@.len() == 9);
    reveal_strlit("observed-artifacts");
    assert("observed-artifacts"@.len() == 18);
    reveal_strlit("attempt-artifacts");
    assert("attempt-artifacts"@.len() == 17);
    reveal_strlit("variant-inputs");
    assert("variant-inputs"@.len() == 14);
    reveal_strlit("rendered");
    assert("rendered"@.len() == 8);
    reveal_strlit("rendered-elements");
    assert("rendered-elements"@.len() == 17);
    reveal_strlit("model-failure");
    assert("model-failure"@.len() == 13);
    reveal_strlit("chained");
    assert("chained"@.len() == 7);
    reveal_strlit("active");
    assert("active"@.len() == 6);
    reveal_strlit("remaining");
    assert("remaining"@.len() == 9);
    reveal_strlit("availability-path");
    assert("availability-path"@.len() == 17);
    reveal_strlit("booking-path");
    assert("booking-path"@.len() == 12);
    reveal_strlit("first-booking");
    assert("first-booking"@.len() == 13);
    reveal_strlit("finishing-edge");
    assert("finishing-edge"@.len() == 14);
    reveal_strlit("guidance-note");
    assert("guidance-note"@.len() == 13);
    reveal_strlit("promotion-approval");
    assert("promotion-approval"@.len() == 18);
    reveal_strlit("held-out-input");
    assert("held-out-input"@.len() == 14);
    reveal_strlit("held-out-pair");
    assert("held-out-pair"@.len() == 13);
    reveal_strlit("source-inputs");
    assert("source-inputs"@.len() == 13);
    reveal_strlit("source-evidence");
    assert("source-evidence"@.len() == 15);
    reveal_strlit("proposal-prompt");
    assert("proposal-prompt"@.len() == 15);
    reveal_strlit("artifact-port");
    assert("artifact-port"@.len() == 13);
    reveal_strlit("proposal-mutations");
    assert("proposal-mutations"@.len() == 18);
    reveal_strlit("slotbook-policy");
    assert("slotbook-policy"@.len() == 15);
    reveal_strlit("slotbook-requirement");
    assert("slotbook-requirement"@.len() == 20);
    reveal_strlit("slotbook-scope");
    assert("slotbook-scope"@.len() == 14);
    reveal_strlit("slotbook-protected-recipe");
    assert("slotbook-protected-recipe"@.len() == 25);
    reveal_strlit("slotbook-worker-recipe");
    assert("slotbook-worker-recipe"@.len() == 22);
    reveal_strlit("slotbook-session-config");
    assert("slotbook-session-config"@.len() == 23);
}

/// The maker `forged-inputs`.
pub proof fn makes_forged_inputs(args: Seq<Tree>, env: Tree)
    ensures
        made("forged-inputs"@, args, env) == (if ground(args, env) is Object {
            document_of(FORGED_INPUTS@, ground(args, env))
        } else {
            Err("scenario value is absent"@)
        }),
{
    reveal(made);
    reveal(drafted);
    reveal_strlit("forged-inputs");
    assert("forged-inputs"@.len() == 13);
    reveal_strlit("failed-checks");
    assert("failed-checks"@.len() == 13);
    assert("failed-checks"@[1] != "forged-inputs"@[1]);
    reveal_strlit("forged-checks");
    assert("forged-checks"@.len() == 13);
    assert("forged-checks"@[7] != "forged-inputs"@[7]);
    reveal_strlit("peer-capability");
    assert("peer-capability"@.len() == 15);
    reveal_strlit("linked-runs");
    assert("linked-runs"@.len() == 11);
    reveal_strlit("children");
    assert("children"@.len() == 8);
    reveal_strlit("method-mutations");
    assert("method-mutations"@.len() == 16);
    reveal_strlit("repair-mutations");
    assert("repair-mutations"@.len() == 16);
    reveal_strlit("learning-mutations");
    assert("learning-mutations"@.len() == 18);
    reveal_strlit("model-destination");
    assert("model-destination"@.len() == 17);
    reveal_strlit("grant-slot");
    assert("grant-slot"@.len() == 10);
    reveal_strlit("trust-slot");
    assert("trust-slot"@.len() == 10);
    reveal_strlit("last");
    assert("last"@.len() == 4);
    reveal_strlit("pages");
    assert("pages"@.len() == 5);
    reveal_strlit("including");
    assert("including"@.len() == 9);
    reveal_strlit("observed-artifacts");
    assert("observed-artifacts"@.len() == 18);
    reveal_strlit("attempt-artifacts");
    assert("attempt-artifacts"@.len() == 17);
    reveal_strlit("variant-inputs");
    assert("variant-inputs"@.len() == 14);
    reveal_strlit("rendered");
    assert("rendered"@.len() == 8);
    reveal_strlit("rendered-elements");
    assert("rendered-elements"@.len() == 17);
    reveal_strlit("model-failure");
    assert("model-failure"@.len() == 13);
    assert("model-failure"@[0] != "forged-inputs"@[0]);
    reveal_strlit("chained");
    assert("chained"@.len() == 7);
    reveal_strlit("active");
    assert("active"@.len() == 6);
    reveal_strlit("remaining");
    assert("remaining"@.len() == 9);
    reveal_strlit("availability-path");
    assert("availability-path"@.len() == 17);
    reveal_strlit("booking-path");
    assert("booking-path"@.len() == 12);
    reveal_strlit("first-booking");
    assert("first-booking"@.len() == 13);
    assert("first-booking"@[1] != "forged-inputs"@[1]);
    reveal_strlit("finishing-edge");
    assert("finishing-edge"@.len() == 14);
    reveal_strlit("guidance-note");
    assert("guidance-note"@.len() == 13);
    assert("guidance-note"@[0] != "forged-inputs"@[0]);
    reveal_strlit("promotion-approval");
    assert("promotion-approval"@.len() == 18);
    reveal_strlit("held-out-input");
    assert("held-out-input"@.len() == 14);
    reveal_strlit("held-out-pair");
    assert("held-out-pair"@.len() == 13);
    assert("held-out-pair"@[0] != "forged-inputs"@[0]);
    reveal_strlit("source-inputs");
    assert("source-inputs"@.len() == 13);
    assert("source-inputs"@[0] != "forged-inputs"@[0]);
    reveal_strlit("source-evidence");
    assert("source-evidence"@.len() == 15);
    reveal_strlit("proposal-prompt");
    assert("proposal-prompt"@.len() == 15);
    reveal_strlit("artifact-port");
    assert("artifact-port"@.len() == 13);
    assert("artifact-port"@[0] != "forged-inputs"@[0]);
    reveal_strlit("proposal-mutations");
    assert("proposal-mutations"@.len() == 18);
    reveal_strlit("slotbook-policy");
    assert("slotbook-policy"@.len() == 15);
    reveal_strlit("slotbook-requirement");
    assert("slotbook-requirement"@.len() == 20);
    reveal_strlit("slotbook-scope");
    assert("slotbook-scope"@.len() == 14);
    reveal_strlit("slotbook-protected-recipe");
    assert("slotbook-protected-recipe"@.len() == 25);
    reveal_strlit("slotbook-worker-recipe");
    assert("slotbook-worker-recipe"@.len() == 22);
    reveal_strlit("slotbook-session-config");
    assert("slotbook-session-config"@.len() == 23);
    reveal_strlit("seed-inputs");
    assert("seed-inputs"@.len() == 11);
}

/// The maker `repair-proposal`.
pub proof fn makes_repair_proposal(args: Seq<Tree>, env: Tree)
    ensures
        made("repair-proposal"@, args, env) == (if ground(args, env) is Object {
            document_of(REPAIR_PROPOSAL@, ground(args, env))
        } else {
            Err("scenario value is absent"@)
        }),
{
    reveal(made);
    reveal(drafted);
    reveal_strlit("repair-proposal");
    assert("repair-proposal"@.len() == 15);
    reveal_strlit("failed-checks");
    assert("failed-checks"@.len() == 13);
    reveal_strlit("forged-checks");
    assert("forged-checks"@.len() == 13);
    reveal_strlit("peer-capability");
    assert("peer-capability"@.len() == 15);
    assert("peer-capability"@[0] != "repair-proposal"@[0]);
    reveal_strlit("linked-runs");
    assert("linked-runs"@.len() == 11);
    reveal_strlit("children");
    assert("children"@.len() == 8);
    reveal_strlit("method-mutations");
    assert("method-mutations"@.len() == 16);
    reveal_strlit("repair-mutations");
    assert("repair-mutations"@.len() == 16);
    reveal_strlit("learning-mutations");
    assert("learning-mutations"@.len() == 18);
    reveal_strlit("model-destination");
    assert("model-destination"@.len() == 17);
    reveal_strlit("grant-slot");
    assert("grant-slot"@.len() == 10);
    reveal_strlit("trust-slot");
    assert("trust-slot"@.len() == 10);
    reveal_strlit("last");
    assert("last"@.len() == 4);
    reveal_strlit("pages");
    assert("pages"@.len() == 5);
    reveal_strlit("including");
    assert("including"@.len() == 9);
    reveal_strlit("observed-artifacts");
    assert("observed-artifacts"@.len() == 18);
    reveal_strlit("attempt-artifacts");
    assert("attempt-artifacts"@.len() == 17);
    reveal_strlit("variant-inputs");
    assert("variant-inputs"@.len() == 14);
    reveal_strlit("rendered");
    assert("rendered"@.len() == 8);
    reveal_strlit("rendered-elements");
    assert("rendered-elements"@.len() == 17);
    reveal_strlit("model-failure");
    assert("model-failure"@.len() == 13);
    reveal_strlit("chained");
    assert("chained"@.len() == 7);
    reveal_strlit("active");
    assert("active"@.len() == 6);
    reveal_strlit("remaining");
    assert("remaining"@.len() == 9);
    reveal_strlit("availability-path");
    assert("availability-path"@.len() == 17);
    reveal_strlit("booking-path");
    assert("booking-path"@.len() == 12);
    reveal_strlit("first-booking");
    assert("first-booking"@.len() == 13);
    reveal_strlit("finishing-edge");
    assert("finishing-edge"@.len() == 14);
    reveal_strlit("guidance-note");
    assert("guidance-note"@.len() == 13);
    reveal_strlit("promotion-approval");
    assert("promotion-approval"@.len() == 18);
    reveal_strlit("held-out-input");
    assert("held-out-input"@.len() == 14);
    reveal_strlit("held-out-pair");
    assert("held-out-pair"@.len() == 13);
    reveal_strlit("source-inputs");
    assert("source-inputs"@.len() == 13);
    reveal_strlit("source-evidence");
    assert("source-evidence"@.len() == 15);
    assert("source-evidence"@[0] != "repair-proposal"@[0]);
    reveal_strlit("proposal-prompt");
    assert("proposal-prompt"@.len() == 15);
    assert("proposal-prompt"@[0] != "repair-proposal"@[0]);
    reveal_strlit("artifact-port");
    assert("artifact-port"@.len() == 13);
    reveal_strlit("proposal-mutations");
    assert("proposal-mutations"@.len() == 18);
    reveal_strlit("slotbook-policy");
    assert("slotbook-policy"@.len() == 15);
    assert("slotbook-policy"@[0] != "repair-proposal"@[0]);
    reveal_strlit("slotbook-requirement");
    assert("slotbook-requirement"@.len() == 20);
    reveal_strlit("slotbook-scope");
    assert("slotbook-scope"@.len() == 14);
    reveal_strlit("slotbook-protected-recipe");
    assert("slotbook-protected-recipe"@.len() == 25);
    reveal_strlit("slotbook-worker-recipe");
    assert("slotbook-worker-recipe"@.len() == 22);
    reveal_strlit("slotbook-session-config");
    assert("slotbook-session-config"@.len() == 23);
    reveal_strlit("seed-inputs");
    assert("seed-inputs"@.len() == 11);
    reveal_strlit("forged-inputs");
    assert("forged-inputs"@.len() == 13);
}

/// The maker `published-descriptor`.
pub proof fn makes_published_descriptor(args: Seq<Tree>, env: Tree)
    ensures
        made("published-descriptor"@, args, env) == (if ground(args, env) is Object {
            document_of(PUBLISHED_DESCRIPTOR@, ground(args, env))
        } else {
            Err("scenario value is absent"@)
        }),
{
    reveal(made);
    reveal(drafted);
    reveal_strlit("published-descriptor");
    assert("published-descriptor"@.len() == 20);
    reveal_strlit("failed-checks");
    assert("failed-checks"@.len() == 13);
    reveal_strlit("forged-checks");
    assert("forged-checks"@.len() == 13);
    reveal_strlit("peer-capability");
    assert("peer-capability"@.len() == 15);
    reveal_strlit("linked-runs");
    assert("linked-runs"@.len() == 11);
    reveal_strlit("children");
    assert("children"@.len() == 8);
    reveal_strlit("method-mutations");
    assert("method-mutations"@.len() == 16);
    reveal_strlit("repair-mutations");
    assert("repair-mutations"@.len() == 16);
    reveal_strlit("learning-mutations");
    assert("learning-mutations"@.len() == 18);
    reveal_strlit("model-destination");
    assert("model-destination"@.len() == 17);
    reveal_strlit("grant-slot");
    assert("grant-slot"@.len() == 10);
    reveal_strlit("trust-slot");
    assert("trust-slot"@.len() == 10);
    reveal_strlit("last");
    assert("last"@.len() == 4);
    reveal_strlit("pages");
    assert("pages"@.len() == 5);
    reveal_strlit("including");
    assert("including"@.len() == 9);
    reveal_strlit("observed-artifacts");
    assert("observed-artifacts"@.len() == 18);
    reveal_strlit("attempt-artifacts");
    assert("attempt-artifacts"@.len() == 17);
    reveal_strlit("variant-inputs");
    assert("variant-inputs"@.len() == 14);
    reveal_strlit("rendered");
    assert("rendered"@.len() == 8);
    reveal_strlit("rendered-elements");
    assert("rendered-elements"@.len() == 17);
    reveal_strlit("model-failure");
    assert("model-failure"@.len() == 13);
    reveal_strlit("chained");
    assert("chained"@.len() == 7);
    reveal_strlit("active");
    assert("active"@.len() == 6);
    reveal_strlit("remaining");
    assert("remaining"@.len() == 9);
    reveal_strlit("availability-path");
    assert("availability-path"@.len() == 17);
    reveal_strlit("booking-path");
    assert("booking-path"@.len() == 12);
    reveal_strlit("first-booking");
    assert("first-booking"@.len() == 13);
    reveal_strlit("finishing-edge");
    assert("finishing-edge"@.len() == 14);
    reveal_strlit("guidance-note");
    assert("guidance-note"@.len() == 13);
    reveal_strlit("promotion-approval");
    assert("promotion-approval"@.len() == 18);
    reveal_strlit("held-out-input");
    assert("held-out-input"@.len() == 14);
    reveal_strlit("held-out-pair");
    assert("held-out-pair"@.len() == 13);
    reveal_strlit("source-inputs");
    assert("source-inputs"@.len() == 13);
    reveal_strlit("source-evidence");
    assert("source-evidence"@.len() == 15);
    reveal_strlit("proposal-prompt");
    assert("proposal-prompt"@.len() == 15);
    reveal_strlit("artifact-port");
    assert("artifact-port"@.len() == 13);
    reveal_strlit("proposal-mutations");
    assert("proposal-mutations"@.len() == 18);
    reveal_strlit("slotbook-policy");
    assert("slotbook-policy"@.len() == 15);
    reveal_strlit("slotbook-requirement");
    assert("slotbook-requirement"@.len() == 20);
    assert("slotbook-requirement"@[0] != "published-descriptor"@[0]);
    reveal_strlit("slotbook-scope");
    assert("slotbook-scope"@.len() == 14);
    reveal_strlit("slotbook-protected-recipe");
    assert("slotbook-protected-recipe"@.len() == 25);
    reveal_strlit("slotbook-worker-recipe");
    assert("slotbook-worker-recipe"@.len() == 22);
    reveal_strlit("slotbook-session-config");
    assert("slotbook-session-config"@.len() == 23);
    reveal_strlit("seed-inputs");
    assert("seed-inputs"@.len() == 11);
    reveal_strlit("forged-inputs");
    assert("forged-inputs"@.len() == 13);
    reveal_strlit("repair-proposal");
    assert("repair-proposal"@.len() == 15);
}

/// The maker `published-method`.
pub proof fn makes_published_method(args: Seq<Tree>, env: Tree)
    ensures
        made("published-method"@, args, env) == (if ground(args, env) is Object {
            document_of(PUBLISHED_METHOD@, ground(args, env))
        } else {
            Err("scenario value is absent"@)
        }),
{
    reveal(made);
    reveal(drafted);
    reveal_strlit("published-method");
    assert("published-method"@.len() == 16);
    reveal_strlit("failed-checks");
    assert("failed-checks"@.len() == 13);
    reveal_strlit("forged-checks");
    assert("forged-checks"@.len() == 13);
    reveal_strlit("peer-capability");
    assert("peer-capability"@.len() == 15);
    reveal_strlit("linked-runs");
    assert("linked-runs"@.len() == 11);
    reveal_strlit("children");
    assert("children"@.len() == 8);
    reveal_strlit("method-mutations");
    assert("method-mutations"@.len() == 16);
    assert("method-mutations"@[0] != "published-method"@[0]);
    reveal_strlit("repair-mutations");
    assert("repair-mutations"@.len() == 16);
    assert("repair-mutations"@[0] != "published-method"@[0]);
    reveal_strlit("learning-mutations");
    assert("learning-mutations"@.len() == 18);
    reveal_strlit("model-destination");
    assert("model-destination"@.len() == 17);
    reveal_strlit("grant-slot");
    assert("grant-slot"@.len() == 10);
    reveal_strlit("trust-slot");
    assert("trust-slot"@.len() == 10);
    reveal_strlit("last");
    assert("last"@.len() == 4);
    reveal_strlit("pages");
    assert("pages"@.len() == 5);
    reveal_strlit("including");
    assert("including"@.len() == 9);
    reveal_strlit("observed-artifacts");
    assert("observed-artifacts"@.len() == 18);
    reveal_strlit("attempt-artifacts");
    assert("attempt-artifacts"@.len() == 17);
    reveal_strlit("variant-inputs");
    assert("variant-inputs"@.len() == 14);
    reveal_strlit("rendered");
    assert("rendered"@.len() == 8);
    reveal_strlit("rendered-elements");
    assert("rendered-elements"@.len() == 17);
    reveal_strlit("model-failure");
    assert("model-failure"@.len() == 13);
    reveal_strlit("chained");
    assert("chained"@.len() == 7);
    reveal_strlit("active");
    assert("active"@.len() == 6);
    reveal_strlit("remaining");
    assert("remaining"@.len() == 9);
    reveal_strlit("availability-path");
    assert("availability-path"@.len() == 17);
    reveal_strlit("booking-path");
    assert("booking-path"@.len() == 12);
    reveal_strlit("first-booking");
    assert("first-booking"@.len() == 13);
    reveal_strlit("finishing-edge");
    assert("finishing-edge"@.len() == 14);
    reveal_strlit("guidance-note");
    assert("guidance-note"@.len() == 13);
    reveal_strlit("promotion-approval");
    assert("promotion-approval"@.len() == 18);
    reveal_strlit("held-out-input");
    assert("held-out-input"@.len() == 14);
    reveal_strlit("held-out-pair");
    assert("held-out-pair"@.len() == 13);
    reveal_strlit("source-inputs");
    assert("source-inputs"@.len() == 13);
    reveal_strlit("source-evidence");
    assert("source-evidence"@.len() == 15);
    reveal_strlit("proposal-prompt");
    assert("proposal-prompt"@.len() == 15);
    reveal_strlit("artifact-port");
    assert("artifact-port"@.len() == 13);
    reveal_strlit("proposal-mutations");
    assert("proposal-mutations"@.len() == 18);
    reveal_strlit("slotbook-policy");
    assert("slotbook-policy"@.len() == 15);
    reveal_strlit("slotbook-requirement");
    assert("slotbook-requirement"@.len() == 20);
    reveal_strlit("slotbook-scope");
    assert("slotbook-scope"@.len() == 14);
    reveal_strlit("slotbook-protected-recipe");
    assert("slotbook-protected-recipe"@.len() == 25);
    reveal_strlit("slotbook-worker-recipe");
    assert("slotbook-worker-recipe"@.len() == 22);
    reveal_strlit("slotbook-session-config");
    assert("slotbook-session-config"@.len() == 23);
    reveal_strlit("seed-inputs");
    assert("seed-inputs"@.len() == 11);
    reveal_strlit("forged-inputs");
    assert("forged-inputs"@.len() == 13);
    reveal_strlit("repair-proposal");
    assert("repair-proposal"@.len() == 15);
    reveal_strlit("published-descriptor");
    assert("published-descriptor"@.len() == 20);
}

/// The maker `publication-config`.
pub proof fn makes_publication_config(args: Seq<Tree>, env: Tree)
    ensures
        made("publication-config"@, args, env) == (if ground(args, env) is Object {
            document_of(PUBLICATION_CONFIG@, ground(args, env))
        } else {
            Err("scenario value is absent"@)
        }),
{
    reveal(made);
    reveal(drafted);
    reveal_strlit("publication-config");
    assert("publication-config"@.len() == 18);
    reveal_strlit("failed-checks");
    assert("failed-checks"@.len() == 13);
    reveal_strlit("forged-checks");
    assert("forged-checks"@.len() == 13);
    reveal_strlit("peer-capability");
    assert("peer-capability"@.len() == 15);
    reveal_strlit("linked-runs");
    assert("linked-runs"@.len() == 11);
    reveal_strlit("children");
    assert("children"@.len() == 8);
    reveal_strlit("method-mutations");
    assert("method-mutations"@.len() == 16);
    reveal_strlit("repair-mutations");
    assert("repair-mutations"@.len() == 16);
    reveal_strlit("learning-mutations");
    assert("learning-mutations"@.len() == 18);
    assert("learning-mutations"@[0] != "publication-config"@[0]);
    reveal_strlit("model-destination");
    assert("model-destination"@.len() == 17);
    reveal_strlit("grant-slot");
    assert("grant-slot"@.len() == 10);
    reveal_strlit("trust-slot");
    assert("trust-slot"@.len() == 10);
    reveal_strlit("last");
    assert("last"@.len() == 4);
    reveal_strlit("pages");
    assert("pages"@.len() == 5);
    reveal_strlit("including");
    assert("including"@.len() == 9);
    reveal_strlit("observed-artifacts");
    assert("observed-artifacts"@.len() == 18);
    assert("observed-artifacts"@[0] != "publication-config"@[0]);
    reveal_strlit("attempt-artifacts");
    assert("attempt-artifacts"@.len() == 17);
    reveal_strlit("variant-inputs");
    assert("variant-inputs"@.len() == 14);
    reveal_strlit("rendered");
    assert("rendered"@.len() == 8);
    reveal_strlit("rendered-elements");
    assert("rendered-elements"@.len() == 17);
    reveal_strlit("model-failure");
    assert("model-failure"@.len() == 13);
    reveal_strlit("chained");
    assert("chained"@.len() == 7);
    reveal_strlit("active");
    assert("active"@.len() == 6);
    reveal_strlit("remaining");
    assert("remaining"@.len() == 9);
    reveal_strlit("availability-path");
    assert("availability-path"@.len() == 17);
    reveal_strlit("booking-path");
    assert("booking-path"@.len() == 12);
    reveal_strlit("first-booking");
    assert("first-booking"@.len() == 13);
    reveal_strlit("finishing-edge");
    assert("finishing-edge"@.len() == 14);
    reveal_strlit("guidance-note");
    assert("guidance-note"@.len() == 13);
    reveal_strlit("promotion-approval");
    assert("promotion-approval"@.len() == 18);
    assert("promotion-approval"@[1] != "publication-config"@[1]);
    reveal_strlit("held-out-input");
    assert("held-out-input"@.len() == 14);
    reveal_strlit("held-out-pair");
    assert("held-out-pair"@.len() == 13);
    reveal_strlit("source-inputs");
    assert("source-inputs"@.len() == 13);
    reveal_strlit("source-evidence");
    assert("source-evidence"@.len() == 15);
    reveal_strlit("proposal-prompt");
    assert("proposal-prompt"@.len() == 15);
    reveal_strlit("artifact-port");
    assert("artifact-port"@.len() == 13);
    reveal_strlit("proposal-mutations");
    assert("proposal-mutations"@.len() == 18);
    assert("proposal-mutations"@[1] != "publication-config"@[1]);
    reveal_strlit("slotbook-policy");
    assert("slotbook-policy"@.len() == 15);
    reveal_strlit("slotbook-requirement");
    assert("slotbook-requirement"@.len() == 20);
    reveal_strlit("slotbook-scope");
    assert("slotbook-scope"@.len() == 14);
    reveal_strlit("slotbook-protected-recipe");
    assert("slotbook-protected-recipe"@.len() == 25);
    reveal_strlit("slotbook-worker-recipe");
    assert("slotbook-worker-recipe"@.len() == 22);
    reveal_strlit("slotbook-session-config");
    assert("slotbook-session-config"@.len() == 23);
    reveal_strlit("seed-inputs");
    assert("seed-inputs"@.len() == 11);
    reveal_strlit("forged-inputs");
    assert("forged-inputs"@.len() == 13);
    reveal_strlit("repair-proposal");
    assert("repair-proposal"@.len() == 15);
    reveal_strlit("published-descriptor");
    assert("published-descriptor"@.len() == 20);
    reveal_strlit("published-method");
    assert("published-method"@.len() == 16);
}

/// The maker `peer-relationship`.
pub proof fn makes_peer_relationship(args: Seq<Tree>, env: Tree)
    ensures
        made("peer-relationship"@, args, env) == (if ground(args, env) is Object {
            document_of(PEER_RELATIONSHIP@, ground(args, env))
        } else {
            Err("scenario value is absent"@)
        }),
{
    reveal(made);
    reveal(drafted);
    reveal_strlit("peer-relationship");
    assert("peer-relationship"@.len() == 17);
    reveal_strlit("failed-checks");
    assert("failed-checks"@.len() == 13);
    reveal_strlit("forged-checks");
    assert("forged-checks"@.len() == 13);
    reveal_strlit("peer-capability");
    assert("peer-capability"@.len() == 15);
    reveal_strlit("linked-runs");
    assert("linked-runs"@.len() == 11);
    reveal_strlit("children");
    assert("children"@.len() == 8);
    reveal_strlit("method-mutations");
    assert("method-mutations"@.len() == 16);
    reveal_strlit("repair-mutations");
    assert("repair-mutations"@.len() == 16);
    reveal_strlit("learning-mutations");
    assert("learning-mutations"@.len() == 18);
    reveal_strlit("model-destination");
    assert("model-destination"@.len() == 17);
    assert("model-destination"@[0] != "peer-relationship"@[0]);
    reveal_strlit("grant-slot");
    assert("grant-slot"@.len() == 10);
    reveal_strlit("trust-slot");
    assert("trust-slot"@.len() == 10);
    reveal_strlit("last");
    assert("last"@.len() == 4);
    reveal_strlit("pages");
    assert("pages"@.len() == 5);
    reveal_strlit("including");
    assert("including"@.len() == 9);
    reveal_strlit("observed-artifacts");
    assert("observed-artifacts"@.len() == 18);
    reveal_strlit("attempt-artifacts");
    assert("attempt-artifacts"@.len() == 17);
    assert("attempt-artifacts"@[0] != "peer-relationship"@[0]);
    reveal_strlit("variant-inputs");
    assert("variant-inputs"@.len() == 14);
    reveal_strlit("rendered");
    assert("rendered"@.len() == 8);
    reveal_strlit("rendered-elements");
    assert("rendered-elements"@.len() == 17);
    assert("rendered-elements"@[0] != "peer-relationship"@[0]);
    reveal_strlit("model-failure");
    assert("model-failure"@.len() == 13);
    reveal_strlit("chained");
    assert("chained"@.len() == 7);
    reveal_strlit("active");
    assert("active"@.len() == 6);
    reveal_strlit("remaining");
    assert("remaining"@.len() == 9);
    reveal_strlit("availability-path");
    assert("availability-path"@.len() == 17);
    assert("availability-path"@[0] != "peer-relationship"@[0]);
    reveal_strlit("booking-path");
    assert("booking-path"@.len() == 12);
    reveal_strlit("first-booking");
    assert("first-booking"@.len() == 13);
    reveal_strlit("finishing-edge");
    assert("finishing-edge"@.len() == 14);
    reveal_strlit("guidance-note");
    assert("guidance-note"@.len() == 13);
    reveal_strlit("promotion-approval");
    assert("promotion-approval"@.len() == 18);
    reveal_strlit("held-out-input");
    assert("held-out-input"@.len() == 14);
    reveal_strlit("held-out-pair");
    assert("held-out-pair"@.len() == 13);
    reveal_strlit("source-inputs");
    assert("source-inputs"@.len() == 13);
    reveal_strlit("source-evidence");
    assert("source-evidence"@.len() == 15);
    reveal_strlit("proposal-prompt");
    assert("proposal-prompt"@.len() == 15);
    reveal_strlit("artifact-port");
    assert("artifact-port"@.len() == 13);
    reveal_strlit("proposal-mutations");
    assert("proposal-mutations"@.len() == 18);
    reveal_strlit("slotbook-policy");
    assert("slotbook-policy"@.len() == 15);
    reveal_strlit("slotbook-requirement");
    assert("slotbook-requirement"@.len() == 20);
    reveal_strlit("slotbook-scope");
    assert("slotbook-scope"@.len() == 14);
    reveal_strlit("slotbook-protected-recipe");
    assert("slotbook-protected-recipe"@.len() == 25);
    reveal_strlit("slotbook-worker-recipe");
    assert("slotbook-worker-recipe"@.len() == 22);
    reveal_strlit("slotbook-session-config");
    assert("slotbook-session-config"@.len() == 23);
    reveal_strlit("seed-inputs");
    assert("seed-inputs"@.len() == 11);
    reveal_strlit("forged-inputs");
    assert("forged-inputs"@.len() == 13);
    reveal_strlit("repair-proposal");
    assert("repair-proposal"@.len() == 15);
    reveal_strlit("published-descriptor");
    assert("published-descriptor"@.len() == 20);
    reveal_strlit("published-method");
    assert("published-method"@.len() == 16);
    reveal_strlit("publication-config");
    assert("publication-config"@.len() == 18);
}

/// The maker `peer-provider-config`.
pub proof fn makes_peer_provider_config(args: Seq<Tree>, env: Tree)
    ensures
        made("peer-provider-config"@, args, env) == (if ground(args, env) is Object {
            document_of(PEER_PROVIDER_CONFIG@, ground(args, env))
        } else {
            Err("scenario value is absent"@)
        }),
{
    reveal(made);
    reveal(drafted);
    reveal_strlit("peer-provider-config");
    assert("peer-provider-config"@.len() == 20);
    reveal_strlit("failed-checks");
    assert("failed-checks"@.len() == 13);
    reveal_strlit("forged-checks");
    assert("forged-checks"@.len() == 13);
    reveal_strlit("peer-capability");
    assert("peer-capability"@.len() == 15);
    reveal_strlit("linked-runs");
    assert("linked-runs"@.len() == 11);
    reveal_strlit("children");
    assert("children"@.len() == 8);
    reveal_strlit("method-mutations");
    assert("method-mutations"@.len() == 16);
    reveal_strlit("repair-mutations");
    assert("repair-mutations"@.len() == 16);
    reveal_strlit("learning-mutations");
    assert("learning-mutations"@.len() == 18);
    reveal_strlit("model-destination");
    assert("model-destination"@.len() == 17);
    reveal_strlit("grant-slot");
    assert("grant-slot"@.len() == 10);
    reveal_strlit("trust-slot");
    assert("trust-slot"@.len() == 10);
    reveal_strlit("last");
    assert("last"@.len() == 4);
    reveal_strlit("pages");
    assert("pages"@.len() == 5);
    reveal_strlit("including");
    assert("including"@.len() == 9);
    reveal_strlit("observed-artifacts");
    assert("observed-artifacts"@.len() == 18);
    reveal_strlit("attempt-artifacts");
    assert("attempt-artifacts"@.len() == 17);
    reveal_strlit("variant-inputs");
    assert("variant-inputs"@.len() == 14);
    reveal_strlit("rendered");
    assert("rendered"@.len() == 8);
    reveal_strlit("rendered-elements");
    assert("rendered-elements"@.len() == 17);
    reveal_strlit("model-failure");
    assert("model-failure"@.len() == 13);
    reveal_strlit("chained");
    assert("chained"@.len() == 7);
    reveal_strlit("active");
    assert("active"@.len() == 6);
    reveal_strlit("remaining");
    assert("remaining"@.len() == 9);
    reveal_strlit("availability-path");
    assert("availability-path"@.len() == 17);
    reveal_strlit("booking-path");
    assert("booking-path"@.len() == 12);
    reveal_strlit("first-booking");
    assert("first-booking"@.len() == 13);
    reveal_strlit("finishing-edge");
    assert("finishing-edge"@.len() == 14);
    reveal_strlit("guidance-note");
    assert("guidance-note"@.len() == 13);
    reveal_strlit("promotion-approval");
    assert("promotion-approval"@.len() == 18);
    reveal_strlit("held-out-input");
    assert("held-out-input"@.len() == 14);
    reveal_strlit("held-out-pair");
    assert("held-out-pair"@.len() == 13);
    reveal_strlit("source-inputs");
    assert("source-inputs"@.len() == 13);
    reveal_strlit("source-evidence");
    assert("source-evidence"@.len() == 15);
    reveal_strlit("proposal-prompt");
    assert("proposal-prompt"@.len() == 15);
    reveal_strlit("artifact-port");
    assert("artifact-port"@.len() == 13);
    reveal_strlit("proposal-mutations");
    assert("proposal-mutations"@.len() == 18);
    reveal_strlit("slotbook-policy");
    assert("slotbook-policy"@.len() == 15);
    reveal_strlit("slotbook-requirement");
    assert("slotbook-requirement"@.len() == 20);
    assert("slotbook-requirement"@[0] != "peer-provider-config"@[0]);
    reveal_strlit("slotbook-scope");
    assert("slotbook-scope"@.len() == 14);
    reveal_strlit("slotbook-protected-recipe");
    assert("slotbook-protected-recipe"@.len() == 25);
    reveal_strlit("slotbook-worker-recipe");
    assert("slotbook-worker-recipe"@.len() == 22);
    reveal_strlit("slotbook-session-config");
    assert("slotbook-session-config"@.len() == 23);
    reveal_strlit("seed-inputs");
    assert("seed-inputs"@.len() == 11);
    reveal_strlit("forged-inputs");
    assert("forged-inputs"@.len() == 13);
    reveal_strlit("repair-proposal");
    assert("repair-proposal"@.len() == 15);
    reveal_strlit("published-descriptor");
    assert("published-descriptor"@.len() == 20);
    assert("published-descriptor"@[1] != "peer-provider-config"@[1]);
    reveal_strlit("published-method");
    assert("published-method"@.len() == 16);
    reveal_strlit("publication-config");
    assert("publication-config"@.len() == 18);
    reveal_strlit("peer-relationship");
    assert("peer-relationship"@.len() == 17);
}

/// The maker `peer-origin-config`.
pub proof fn makes_peer_origin_config(args: Seq<Tree>, env: Tree)
    ensures
        made("peer-origin-config"@, args, env) == (if ground(args, env) is Object {
            document_of(PEER_ORIGIN_CONFIG@, ground(args, env))
        } else {
            Err("scenario value is absent"@)
        }),
{
    reveal(made);
    reveal(drafted);
    reveal_strlit("peer-origin-config");
    assert("peer-origin-config"@.len() == 18);
    reveal_strlit("failed-checks");
    assert("failed-checks"@.len() == 13);
    reveal_strlit("forged-checks");
    assert("forged-checks"@.len() == 13);
    reveal_strlit("peer-capability");
    assert("peer-capability"@.len() == 15);
    reveal_strlit("linked-runs");
    assert("linked-runs"@.len() == 11);
    reveal_strlit("children");
    assert("children"@.len() == 8);
    reveal_strlit("method-mutations");
    assert("method-mutations"@.len() == 16);
    reveal_strlit("repair-mutations");
    assert("repair-mutations"@.len() == 16);
    reveal_strlit("learning-mutations");
    assert("learning-mutations"@.len() == 18);
    assert("learning-mutations"@[0] != "peer-origin-config"@[0]);
    reveal_strlit("model-destination");
    assert("model-destination"@.len() == 17);
    reveal_strlit("grant-slot");
    assert("grant-slot"@.len() == 10);
    reveal_strlit("trust-slot");
    assert("trust-slot"@.len() == 10);
    reveal_strlit("last");
    assert("last"@.len() == 4);
    reveal_strlit("pages");
    assert("pages"@.len() == 5);
    reveal_strlit("including");
    assert("including"@.len() == 9);
    reveal_strlit("observed-artifacts");
    assert("observed-artifacts"@.len() == 18);
    assert("observed-artifacts"@[0] != "peer-origin-config"@[0]);
    reveal_strlit("attempt-artifacts");
    assert("attempt-artifacts"@.len() == 17);
    reveal_strlit("variant-inputs");
    assert("variant-inputs"@.len() == 14);
    reveal_strlit("rendered");
    assert("rendered"@.len() == 8);
    reveal_strlit("rendered-elements");
    assert("rendered-elements"@.len() == 17);
    reveal_strlit("model-failure");
    assert("model-failure"@.len() == 13);
    reveal_strlit("chained");
    assert("chained"@.len() == 7);
    reveal_strlit("active");
    assert("active"@.len() == 6);
    reveal_strlit("remaining");
    assert("remaining"@.len() == 9);
    reveal_strlit("availability-path");
    assert("availability-path"@.len() == 17);
    reveal_strlit("booking-path");
    assert("booking-path"@.len() == 12);
    reveal_strlit("first-booking");
    assert("first-booking"@.len() == 13);
    reveal_strlit("finishing-edge");
    assert("finishing-edge"@.len() == 14);
    reveal_strlit("guidance-note");
    assert("guidance-note"@.len() == 13);
    reveal_strlit("promotion-approval");
    assert("promotion-approval"@.len() == 18);
    assert("promotion-approval"@[1] != "peer-origin-config"@[1]);
    reveal_strlit("held-out-input");
    assert("held-out-input"@.len() == 14);
    reveal_strlit("held-out-pair");
    assert("held-out-pair"@.len() == 13);
    reveal_strlit("source-inputs");
    assert("source-inputs"@.len() == 13);
    reveal_strlit("source-evidence");
    assert("source-evidence"@.len() == 15);
    reveal_strlit("proposal-prompt");
    assert("proposal-prompt"@.len() == 15);
    reveal_strlit("artifact-port");
    assert("artifact-port"@.len() == 13);
    reveal_strlit("proposal-mutations");
    assert("proposal-mutations"@.len() == 18);
    assert("proposal-mutations"@[1] != "peer-origin-config"@[1]);
    reveal_strlit("slotbook-policy");
    assert("slotbook-policy"@.len() == 15);
    reveal_strlit("slotbook-requirement");
    assert("slotbook-requirement"@.len() == 20);
    reveal_strlit("slotbook-scope");
    assert("slotbook-scope"@.len() == 14);
    reveal_strlit("slotbook-protected-recipe");
    assert("slotbook-protected-recipe"@.len() == 25);
    reveal_strlit("slotbook-worker-recipe");
    assert("slotbook-worker-recipe"@.len() == 22);
    reveal_strlit("slotbook-session-config");
    assert("slotbook-session-config"@.len() == 23);
    reveal_strlit("seed-inputs");
    assert("seed-inputs"@.len() == 11);
    reveal_strlit("forged-inputs");
    assert("forged-inputs"@.len() == 13);
    reveal_strlit("repair-proposal");
    assert("repair-proposal"@.len() == 15);
    reveal_strlit("published-descriptor");
    assert("published-descriptor"@.len() == 20);
    reveal_strlit("published-method");
    assert("published-method"@.len() == 16);
    reveal_strlit("publication-config");
    assert("publication-config"@.len() == 18);
    assert("publication-config"@[1] != "peer-origin-config"@[1]);
    reveal_strlit("peer-relationship");
    assert("peer-relationship"@.len() == 17);
    reveal_strlit("peer-provider-config");
    assert("peer-provider-config"@.len() == 20);
}

/// The maker `outer-task`.
pub proof fn makes_outer_task(args: Seq<Tree>, env: Tree)
    ensures
        made("outer-task"@, args, env) == (if ground(args, env) is Object {
            document_of(OUTER_TASK@, ground(args, env))
        } else {
            Err("scenario value is absent"@)
        }),
{
    reveal(made);
    reveal(drafted);
    reveal_strlit("outer-task");
    assert("outer-task"@.len() == 10);
    reveal_strlit("failed-checks");
    assert("failed-checks"@.len() == 13);
    reveal_strlit("forged-checks");
    assert("forged-checks"@.len() == 13);
    reveal_strlit("peer-capability");
    assert("peer-capability"@.len() == 15);
    reveal_strlit("linked-runs");
    assert("linked-runs"@.len() == 11);
    reveal_strlit("children");
    assert("children"@.len() == 8);
    reveal_strlit("method-mutations");
    assert("method-mutations"@.len() == 16);
    reveal_strlit("repair-mutations");
    assert("repair-mutations"@.len() == 16);
    reveal_strlit("learning-mutations");
    assert("learning-mutations"@.len() == 18);
    reveal_strlit("model-destination");
    assert("model-destination"@.len() == 17);
    reveal_strlit("grant-slot");
    assert("grant-slot"@.len() == 10);
    assert("grant-slot"@[0] != "outer-task"@[0]);
    reveal_strlit("trust-slot");
    assert("trust-slot"@.len() == 10);
    assert("trust-slot"@[0] != "outer-task"@[0]);
    reveal_strlit("last");
    assert("last"@.len() == 4);
    reveal_strlit("pages");
    assert("pages"@.len() == 5);
    reveal_strlit("including");
    assert("including"@.len() == 9);
    reveal_strlit("observed-artifacts");
    assert("observed-artifacts"@.len() == 18);
    reveal_strlit("attempt-artifacts");
    assert("attempt-artifacts"@.len() == 17);
    reveal_strlit("variant-inputs");
    assert("variant-inputs"@.len() == 14);
    reveal_strlit("rendered");
    assert("rendered"@.len() == 8);
    reveal_strlit("rendered-elements");
    assert("rendered-elements"@.len() == 17);
    reveal_strlit("model-failure");
    assert("model-failure"@.len() == 13);
    reveal_strlit("chained");
    assert("chained"@.len() == 7);
    reveal_strlit("active");
    assert("active"@.len() == 6);
    reveal_strlit("remaining");
    assert("remaining"@.len() == 9);
    reveal_strlit("availability-path");
    assert("availability-path"@.len() == 17);
    reveal_strlit("booking-path");
    assert("booking-path"@.len() == 12);
    reveal_strlit("first-booking");
    assert("first-booking"@.len() == 13);
    reveal_strlit("finishing-edge");
    assert("finishing-edge"@.len() == 14);
    reveal_strlit("guidance-note");
    assert("guidance-note"@.len() == 13);
    reveal_strlit("promotion-approval");
    assert("promotion-approval"@.len() == 18);
    reveal_strlit("held-out-input");
    assert("held-out-input"@.len() == 14);
    reveal_strlit("held-out-pair");
    assert("held-out-pair"@.len() == 13);
    reveal_strlit("source-inputs");
    assert("source-inputs"@.len() == 13);
    reveal_strlit("source-evidence");
    assert("source-evidence"@.len() == 15);
    reveal_strlit("proposal-prompt");
    assert("proposal-prompt"@.len() == 15);
    reveal_strlit("artifact-port");
    assert("artifact-port"@.len() == 13);
    reveal_strlit("proposal-mutations");
    assert("proposal-mutations"@.len() == 18);
    reveal_strlit("slotbook-policy");
    assert("slotbook-policy"@.len() == 15);
    reveal_strlit("slotbook-requirement");
    assert("slotbook-requirement"@.len() == 20);
    reveal_strlit("slotbook-scope");
    assert("slotbook-scope"@.len() == 14);
    reveal_strlit("slotbook-protected-recipe");
    assert("slotbook-protected-recipe"@.len() == 25);
    reveal_strlit("slotbook-worker-recipe");
    assert("slotbook-worker-recipe"@.len() == 22);
    reveal_strlit("slotbook-session-config");
    assert("slotbook-session-config"@.len() == 23);
    reveal_strlit("seed-inputs");
    assert("seed-inputs"@.len() == 11);
    reveal_strlit("forged-inputs");
    assert("forged-inputs"@.len() == 13);
    reveal_strlit("repair-proposal");
    assert("repair-proposal"@.len() == 15);
    reveal_strlit("published-descriptor");
    assert("published-descriptor"@.len() == 20);
    reveal_strlit("published-method");
    assert("published-method"@.len() == 16);
    reveal_strlit("publication-config");
    assert("publication-config"@.len() == 18);
    reveal_strlit("peer-relationship");
    assert("peer-relationship"@.len() == 17);
    reveal_strlit("peer-provider-config");
    assert("peer-provider-config"@.len() == 20);
    reveal_strlit("peer-origin-config");
    assert("peer-origin-config"@.len() == 18);
}

/// The maker `outer-peer-task`.
pub proof fn makes_outer_peer_task(args: Seq<Tree>, env: Tree)
    ensures
        made("outer-peer-task"@, args, env) == (if ground(args, env) is Object {
            document_of(OUTER_PEER_TASK@, ground(args, env))
        } else {
            Err("scenario value is absent"@)
        }),
{
    reveal(made);
    reveal(drafted);
    reveal_strlit("outer-peer-task");
    assert("outer-peer-task"@.len() == 15);
    reveal_strlit("failed-checks");
    assert("failed-checks"@.len() == 13);
    reveal_strlit("forged-checks");
    assert("forged-checks"@.len() == 13);
    reveal_strlit("peer-capability");
    assert("peer-capability"@.len() == 15);
    assert("peer-capability"@[0] != "outer-peer-task"@[0]);
    reveal_strlit("linked-runs");
    assert("linked-runs"@.len() == 11);
    reveal_strlit("children");
    assert("children"@.len() == 8);
    reveal_strlit("method-mutations");
    assert("method-mutations"@.len() == 16);
    reveal_strlit("repair-mutations");
    assert("repair-mutations"@.len() == 16);
    reveal_strlit("learning-mutations");
    assert("learning-mutations"@.len() == 18);
    reveal_strlit("model-destination");
    assert("model-destination"@.len() == 17);
    reveal_strlit("grant-slot");
    assert("grant-slot"@.len() == 10);
    reveal_strlit("trust-slot");
    assert("trust-slot"@.len() == 10);
    reveal_strlit("last");
    assert("last"@.len() == 4);
    reveal_strlit("pages");
    assert("pages"@.len() == 5);
    reveal_strlit("including");
    assert("including"@.len() == 9);
    reveal_strlit("observed-artifacts");
    assert("observed-artifacts"@.len() == 18);
    reveal_strlit("attempt-artifacts");
    assert("attempt-artifacts"@.len() == 17);
    reveal_strlit("variant-inputs");
    assert("variant-inputs"@.len() == 14);
    reveal_strlit("rendered");
    assert("rendered"@.len() == 8);
    reveal_strlit("rendered-elements");
    assert("rendered-elements"@.len() == 17);
    reveal_strlit("model-failure");
    assert("model-failure"@.len() == 13);
    reveal_strlit("chained");
    assert("chained"@.len() == 7);
    reveal_strlit("active");
    assert("active"@.len() == 6);
    reveal_strlit("remaining");
    assert("remaining"@.len() == 9);
    reveal_strlit("availability-path");
    assert("availability-path"@.len() == 17);
    reveal_strlit("booking-path");
    assert("booking-path"@.len() == 12);
    reveal_strlit("first-booking");
    assert("first-booking"@.len() == 13);
    reveal_strlit("finishing-edge");
    assert("finishing-edge"@.len() == 14);
    reveal_strlit("guidance-note");
    assert("guidance-note"@.len() == 13);
    reveal_strlit("promotion-approval");
    assert("promotion-approval"@.len() == 18);
    reveal_strlit("held-out-input");
    assert("held-out-input"@.len() == 14);
    reveal_strlit("held-out-pair");
    assert("held-out-pair"@.len() == 13);
    reveal_strlit("source-inputs");
    assert("source-inputs"@.len() == 13);
    reveal_strlit("source-evidence");
    assert("source-evidence"@.len() == 15);
    assert("source-evidence"@[0] != "outer-peer-task"@[0]);
    reveal_strlit("proposal-prompt");
    assert("proposal-prompt"@.len() == 15);
    assert("proposal-prompt"@[0] != "outer-peer-task"@[0]);
    reveal_strlit("artifact-port");
    assert("artifact-port"@.len() == 13);
    reveal_strlit("proposal-mutations");
    assert("proposal-mutations"@.len() == 18);
    reveal_strlit("slotbook-policy");
    assert("slotbook-policy"@.len() == 15);
    assert("slotbook-policy"@[0] != "outer-peer-task"@[0]);
    reveal_strlit("slotbook-requirement");
    assert("slotbook-requirement"@.len() == 20);
    reveal_strlit("slotbook-scope");
    assert("slotbook-scope"@.len() == 14);
    reveal_strlit("slotbook-protected-recipe");
    assert("slotbook-protected-recipe"@.len() == 25);
    reveal_strlit("slotbook-worker-recipe");
    assert("slotbook-worker-recipe"@.len() == 22);
    reveal_strlit("slotbook-session-config");
    assert("slotbook-session-config"@.len() == 23);
    reveal_strlit("seed-inputs");
    assert("seed-inputs"@.len() == 11);
    reveal_strlit("forged-inputs");
    assert("forged-inputs"@.len() == 13);
    reveal_strlit("repair-proposal");
    assert("repair-proposal"@.len() == 15);
    assert("repair-proposal"@[0] != "outer-peer-task"@[0]);
    reveal_strlit("published-descriptor");
    assert("published-descriptor"@.len() == 20);
    reveal_strlit("published-method");
    assert("published-method"@.len() == 16);
    reveal_strlit("publication-config");
    assert("publication-config"@.len() == 18);
    reveal_strlit("peer-relationship");
    assert("peer-relationship"@.len() == 17);
    reveal_strlit("peer-provider-config");
    assert("peer-provider-config"@.len() == 20);
    reveal_strlit("peer-origin-config");
    assert("peer-origin-config"@.len() == 18);
    reveal_strlit("outer-task");
    assert("outer-task"@.len() == 10);
}

/// The maker `outer-mutations`.
pub proof fn makes_outer_mutations(args: Seq<Tree>, env: Tree)
    ensures
        made("outer-mutations"@, args, env) == (if ground(args, env) is Object {
            document_of(OUTER_MUTATIONS@, ground(args, env))
        } else {
            Err("scenario value is absent"@)
        }),
{
    reveal(made);
    reveal(drafted);
    reveal_strlit("outer-mutations");
    assert("outer-mutations"@.len() == 15);
    reveal_strlit("failed-checks");
    assert("failed-checks"@.len() == 13);
    reveal_strlit("forged-checks");
    assert("forged-checks"@.len() == 13);
    reveal_strlit("peer-capability");
    assert("peer-capability"@.len() == 15);
    assert("peer-capability"@[0] != "outer-mutations"@[0]);
    reveal_strlit("linked-runs");
    assert("linked-runs"@.len() == 11);
    reveal_strlit("children");
    assert("children"@.len() == 8);
    reveal_strlit("method-mutations");
    assert("method-mutations"@.len() == 16);
    reveal_strlit("repair-mutations");
    assert("repair-mutations"@.len() == 16);
    reveal_strlit("learning-mutations");
    assert("learning-mutations"@.len() == 18);
    reveal_strlit("model-destination");
    assert("model-destination"@.len() == 17);
    reveal_strlit("grant-slot");
    assert("grant-slot"@.len() == 10);
    reveal_strlit("trust-slot");
    assert("trust-slot"@.len() == 10);
    reveal_strlit("last");
    assert("last"@.len() == 4);
    reveal_strlit("pages");
    assert("pages"@.len() == 5);
    reveal_strlit("including");
    assert("including"@.len() == 9);
    reveal_strlit("observed-artifacts");
    assert("observed-artifacts"@.len() == 18);
    reveal_strlit("attempt-artifacts");
    assert("attempt-artifacts"@.len() == 17);
    reveal_strlit("variant-inputs");
    assert("variant-inputs"@.len() == 14);
    reveal_strlit("rendered");
    assert("rendered"@.len() == 8);
    reveal_strlit("rendered-elements");
    assert("rendered-elements"@.len() == 17);
    reveal_strlit("model-failure");
    assert("model-failure"@.len() == 13);
    reveal_strlit("chained");
    assert("chained"@.len() == 7);
    reveal_strlit("active");
    assert("active"@.len() == 6);
    reveal_strlit("remaining");
    assert("remaining"@.len() == 9);
    reveal_strlit("availability-path");
    assert("availability-path"@.len() == 17);
    reveal_strlit("booking-path");
    assert("booking-path"@.len() == 12);
    reveal_strlit("first-booking");
    assert("first-booking"@.len() == 13);
    reveal_strlit("finishing-edge");
    assert("finishing-edge"@.len() == 14);
    reveal_strlit("guidance-note");
    assert("guidance-note"@.len() == 13);
    reveal_strlit("promotion-approval");
    assert("promotion-approval"@.len() == 18);
    reveal_strlit("held-out-input");
    assert("held-out-input"@.len() == 14);
    reveal_strlit("held-out-pair");
    assert("held-out-pair"@.len() == 13);
    reveal_strlit("source-inputs");
    assert("source-inputs"@.len() == 13);
    reveal_strlit("source-evidence");
    assert("source-evidence"@.len() == 15);
    assert("source-evidence"@[0] != "outer-mutations"@[0]);
    reveal_strlit("proposal-prompt");
    assert("proposal-prompt"@.len() == 15);
    assert("proposal-prompt"@[0] != "outer-mutations"@[0]);
    reveal_strlit("artifact-port");
    assert("artifact-port"@.len() == 13);
    reveal_strlit("proposal-mutations");
    assert("proposal-mutations"@.len() == 18);
    reveal_strlit("slotbook-policy");
    assert("slotbook-policy"@.len() == 15);
    assert("slotbook-policy"@[0] != "outer-mutations"@[0]);
    reveal_strlit("slotbook-requirement");
    assert("slotbook-requirement"@.len() == 20);
    reveal_strlit("slotbook-scope");
    assert("slotbook-scope"@.len() == 14);
    reveal_strlit("slotbook-protected-recipe");
    assert("slotbook-protected-recipe"@.len() == 25);
    reveal_strlit("slotbook-worker-recipe");
    assert("slotbook-worker-recipe"@.len() == 22);
    reveal_strlit("slotbook-session-config");
    assert("slotbook-session-config"@.len() == 23);
    reveal_strlit("seed-inputs");
    assert("seed-inputs"@.len() == 11);
    reveal_strlit("forged-inputs");
    assert("forged-inputs"@.len() == 13);
    reveal_strlit("repair-proposal");
    assert("repair-proposal"@.len() == 15);
    assert("repair-proposal"@[0] != "outer-mutations"@[0]);
    reveal_strlit("published-descriptor");
    assert("published-descriptor"@.len() == 20);
    reveal_strlit("published-method");
    assert("published-method"@.len() == 16);
    reveal_strlit("publication-config");
    assert("publication-config"@.len() == 18);
    reveal_strlit("peer-relationship");
    assert("peer-relationship"@.len() == 17);
    reveal_strlit("peer-provider-config");
    assert("peer-provider-config"@.len() == 20);
    reveal_strlit("peer-origin-config");
    assert("peer-origin-config"@.len() == 18);
    reveal_strlit("outer-task");
    assert("outer-task"@.len() == 10);
    reveal_strlit("outer-peer-task");
    assert("outer-peer-task"@.len() == 15);
    assert("outer-peer-task"@[6] != "outer-mutations"@[6]);
}

/// The maker `learning-operator`.
pub proof fn makes_learning_operator(args: Seq<Tree>, env: Tree)
    ensures
        made("learning-operator"@, args, env) == (if ground(args, env) is Object {
            document_of(LEARNING_OPERATOR@, ground(args, env))
        } else {
            Err("scenario value is absent"@)
        }),
{
    reveal(made);
    reveal(drafted);
    reveal_strlit("learning-operator");
    assert("learning-operator"@.len() == 17);
    reveal_strlit("failed-checks");
    assert("failed-checks"@.len() == 13);
    reveal_strlit("forged-checks");
    assert("forged-checks"@.len() == 13);
    reveal_strlit("peer-capability");
    assert("peer-capability"@.len() == 15);
    reveal_strlit("linked-runs");
    assert("linked-runs"@.len() == 11);
    reveal_strlit("children");
    assert("children"@.len() == 8);
    reveal_strlit("method-mutations");
    assert("method-mutations"@.len() == 16);
    reveal_strlit("repair-mutations");
    assert("repair-mutations"@.len() == 16);
    reveal_strlit("learning-mutations");
    assert("learning-mutations"@.len() == 18);
    reveal_strlit("model-destination");
    assert("model-destination"@.len() == 17);
    assert("model-destination"@[0] != "learning-operator"@[0]);
    reveal_strlit("grant-slot");
    assert("grant-slot"@.len() == 10);
    reveal_strlit("trust-slot");
    assert("trust-slot"@.len() == 10);
    reveal_strlit("last");
    assert("last"@.len() == 4);
    reveal_strlit("pages");
    assert("pages"@.len() == 5);
    reveal_strlit("including");
    assert("including"@.len() == 9);
    reveal_strlit("observed-artifacts");
    assert("observed-artifacts"@.len() == 18);
    reveal_strlit("attempt-artifacts");
    assert("attempt-artifacts"@.len() == 17);
    assert("attempt-artifacts"@[0] != "learning-operator"@[0]);
    reveal_strlit("variant-inputs");
    assert("variant-inputs"@.len() == 14);
    reveal_strlit("rendered");
    assert("rendered"@.len() == 8);
    reveal_strlit("rendered-elements");
    assert("rendered-elements"@.len() == 17);
    assert("rendered-elements"@[0] != "learning-operator"@[0]);
    reveal_strlit("model-failure");
    assert("model-failure"@.len() == 13);
    reveal_strlit("chained");
    assert("chained"@.len() == 7);
    reveal_strlit("active");
    assert("active"@.len() == 6);
    reveal_strlit("remaining");
    assert("remaining"@.len() == 9);
    reveal_strlit("availability-path");
    assert("availability-path"@.len() == 17);
    assert("availability-path"@[0] != "learning-operator"@[0]);
    reveal_strlit("booking-path");
    assert("booking-path"@.len() == 12);
    reveal_strlit("first-booking");
    assert("first-booking"@.len() == 13);
    reveal_strlit("finishing-edge");
    assert("finishing-edge"@.len() == 14);
    reveal_strlit("guidance-note");
    assert("guidance-note"@.len() == 13);
    reveal_strlit("promotion-approval");
    assert("promotion-approval"@.len() == 18);
    reveal_strlit("held-out-input");
    assert("held-out-input"@.len() == 14);
    reveal_strlit("held-out-pair");
    assert("held-out-pair"@.len() == 13);
    reveal_strlit("source-inputs");
    assert("source-inputs"@.len() == 13);
    reveal_strlit("source-evidence");
    assert("source-evidence"@.len() == 15);
    reveal_strlit("proposal-prompt");
    assert("proposal-prompt"@.len() == 15);
    reveal_strlit("artifact-port");
    assert("artifact-port"@.len() == 13);
    reveal_strlit("proposal-mutations");
    assert("proposal-mutations"@.len() == 18);
    reveal_strlit("slotbook-policy");
    assert("slotbook-policy"@.len() == 15);
    reveal_strlit("slotbook-requirement");
    assert("slotbook-requirement"@.len() == 20);
    reveal_strlit("slotbook-scope");
    assert("slotbook-scope"@.len() == 14);
    reveal_strlit("slotbook-protected-recipe");
    assert("slotbook-protected-recipe"@.len() == 25);
    reveal_strlit("slotbook-worker-recipe");
    assert("slotbook-worker-recipe"@.len() == 22);
    reveal_strlit("slotbook-session-config");
    assert("slotbook-session-config"@.len() == 23);
    reveal_strlit("seed-inputs");
    assert("seed-inputs"@.len() == 11);
    reveal_strlit("forged-inputs");
    assert("forged-inputs"@.len() == 13);
    reveal_strlit("repair-proposal");
    assert("repair-proposal"@.len() == 15);
    reveal_strlit("published-descriptor");
    assert("published-descriptor"@.len() == 20);
    reveal_strlit("published-method");
    assert("published-method"@.len() == 16);
    reveal_strlit("publication-config");
    assert("publication-config"@.len() == 18);
    reveal_strlit("peer-relationship");
    assert("peer-relationship"@.len() == 17);
    assert("peer-relationship"@[0] != "learning-operator"@[0]);
    reveal_strlit("peer-provider-config");
    assert("peer-provider-config"@.len() == 20);
    reveal_strlit("peer-origin-config");
    assert("peer-origin-config"@.len() == 18);
    reveal_strlit("outer-task");
    assert("outer-task"@.len() == 10);
    reveal_strlit("outer-peer-task");
    assert("outer-peer-task"@.len() == 15);
    reveal_strlit("outer-mutations");
    assert("outer-mutations"@.len() == 15);
}

/// The maker `learning-evaluator`.
pub proof fn makes_learning_evaluator(args: Seq<Tree>, env: Tree)
    ensures
        made("learning-evaluator"@, args, env) == (if ground(args, env) is Object {
            document_of(LEARNING_EVALUATOR@, ground(args, env))
        } else {
            Err("scenario value is absent"@)
        }),
{
    reveal(made);
    reveal(drafted);
    reveal_strlit("learning-evaluator");
    assert("learning-evaluator"@.len() == 18);
    reveal_strlit("failed-checks");
    assert("failed-checks"@.len() == 13);
    reveal_strlit("forged-checks");
    assert("forged-checks"@.len() == 13);
    reveal_strlit("peer-capability");
    assert("peer-capability"@.len() == 15);
    reveal_strlit("linked-runs");
    assert("linked-runs"@.len() == 11);
    reveal_strlit("children");
    assert("children"@.len() == 8);
    reveal_strlit("method-mutations");
    assert("method-mutations"@.len() == 16);
    reveal_strlit("repair-mutations");
    assert("repair-mutations"@.len() == 16);
    reveal_strlit("learning-mutations");
    assert("learning-mutations"@.len() == 18);
    assert("learning-mutations"@[9] != "learning-evaluator"@[9]);
    reveal_strlit("model-destination");
    assert("model-destination"@.len() == 17);
    reveal_strlit("grant-slot");
    assert("grant-slot"@.len() == 10);
    reveal_strlit("trust-slot");
    assert("trust-slot"@.len() == 10);
    reveal_strlit("last");
    assert("last"@.len() == 4);
    reveal_strlit("pages");
    assert("pages"@.len() == 5);
    reveal_strlit("including");
    assert("including"@.len() == 9);
    reveal_strlit("observed-artifacts");
    assert("observed-artifacts"@.len() == 18);
    assert("observed-artifacts"@[0] != "learning-evaluator"@[0]);
    reveal_strlit("attempt-artifacts");
    assert("attempt-artifacts"@.len() == 17);
    reveal_strlit("variant-inputs");
    assert("variant-inputs"@.len() == 14);
    reveal_strlit("rendered");
    assert("rendered"@.len() == 8);
    reveal_strlit("rendered-elements");
    assert("rendered-elements"@.len() == 17);
    reveal_strlit("model-failure");
    assert("model-failure"@.len() == 13);
    reveal_strlit("chained");
    assert("chained"@.len() == 7);
    reveal_strlit("active");
    assert("active"@.len() == 6);
    reveal_strlit("remaining");
    assert("remaining"@.len() == 9);
    reveal_strlit("availability-path");
    assert("availability-path"@.len() == 17);
    reveal_strlit("booking-path");
    assert("booking-path"@.len() == 12);
    reveal_strlit("first-booking");
    assert("first-booking"@.len() == 13);
    reveal_strlit("finishing-edge");
    assert("finishing-edge"@.len() == 14);
    reveal_strlit("guidance-note");
    assert("guidance-note"@.len() == 13);
    reveal_strlit("promotion-approval");
    assert("promotion-approval"@.len() == 18);
    assert("promotion-approval"@[0] != "learning-evaluator"@[0]);
    reveal_strlit("held-out-input");
    assert("held-out-input"@.len() == 14);
    reveal_strlit("held-out-pair");
    assert("held-out-pair"@.len() == 13);
    reveal_strlit("source-inputs");
    assert("source-inputs"@.len() == 13);
    reveal_strlit("source-evidence");
    assert("source-evidence"@.len() == 15);
    reveal_strlit("proposal-prompt");
    assert("proposal-prompt"@.len() == 15);
    reveal_strlit("artifact-port");
    assert("artifact-port"@.len() == 13);
    reveal_strlit("proposal-mutations");
    assert("proposal-mutations"@.len() == 18);
    assert("proposal-mutations"@[0] != "learning-evaluator"@[0]);
    reveal_strlit("slotbook-policy");
    assert("slotbook-policy"@.len() == 15);
    reveal_strlit("slotbook-requirement");
    assert("slotbook-requirement"@.len() == 20);
    reveal_strlit("slotbook-scope");
    assert("slotbook-scope"@.len() == 14);
    reveal_strlit("slotbook-protected-recipe");
    assert("slotbook-protected-recipe"@.len() == 25);
    reveal_strlit("slotbook-worker-recipe");
    assert("slotbook-worker-recipe"@.len() == 22);
    reveal_strlit("slotbook-session-config");
    assert("slotbook-session-config"@.len() == 23);
    reveal_strlit("seed-inputs");
    assert("seed-inputs"@.len() == 11);
    reveal_strlit("forged-inputs");
    assert("forged-inputs"@.len() == 13);
    reveal_strlit("repair-proposal");
    assert("repair-proposal"@.len() == 15);
    reveal_strlit("published-descriptor");
    assert("published-descriptor"@.len() == 20);
    reveal_strlit("published-method");
    assert("published-method"@.len() == 16);
    reveal_strlit("publication-config");
    assert("publication-config"@.len() == 18);
    assert("publication-config"@[0] != "learning-evaluator"@[0]);
    reveal_strlit("peer-relationship");
    assert("peer-relationship"@.len() == 17);
    reveal_strlit("peer-provider-config");
    assert("peer-provider-config"@.len() == 20);
    reveal_strlit("peer-origin-config");
    assert("peer-origin-config"@.len() == 18);
    assert("peer-origin-config"@[0] != "learning-evaluator"@[0]);
    reveal_strlit("outer-task");
    assert("outer-task"@.len() == 10);
    reveal_strlit("outer-peer-task");
    assert("outer-peer-task"@.len() == 15);
    reveal_strlit("outer-mutations");
    assert("outer-mutations"@.len() == 15);
    reveal_strlit("learning-operator");
    assert("learning-operator"@.len() == 17);
}

/// The maker `learning-config`.
pub proof fn makes_learning_config(args: Seq<Tree>, env: Tree)
    ensures
        made("learning-config"@, args, env) == (if ground(args, env) is Object {
            document_of(LEARNING_CONFIG@, ground(args, env))
        } else {
            Err("scenario value is absent"@)
        }),
{
    reveal(made);
    reveal(drafted);
    reveal_strlit("learning-config");
    assert("learning-config"@.len() == 15);
    reveal_strlit("failed-checks");
    assert("failed-checks"@.len() == 13);
    reveal_strlit("forged-checks");
    assert("forged-checks"@.len() == 13);
    reveal_strlit("peer-capability");
    assert("peer-capability"@.len() == 15);
    assert("peer-capability"@[0] != "learning-config"@[0]);
    reveal_strlit("linked-runs");
    assert("linked-runs"@.len() == 11);
    reveal_strlit("children");
    assert("children"@.len() == 8);
    reveal_strlit("method-mutations");
    assert("method-mutations"@.len() == 16);
    reveal_strlit("repair-mutations");
    assert("repair-mutations"@.len() == 16);
    reveal_strlit("learning-mutations");
    assert("learning-mutations"@.len() == 18);
    reveal_strlit("model-destination");
    assert("model-destination"@.len() == 17);
    reveal_strlit("grant-slot");
    assert("grant-slot"@.len() == 10);
    reveal_strlit("trust-slot");
    assert("trust-slot"@.len() == 10);
    reveal_strlit("last");
    assert("last"@.len() == 4);
    reveal_strlit("pages");
    assert("pages"@.len() == 5);
    reveal_strlit("including");
    assert("including"@.len() == 9);
    reveal_strlit("observed-artifacts");
    assert("observed-artifacts"@.len() == 18);
    reveal_strlit("attempt-artifacts");
    assert("attempt-artifacts"@.len() == 17);
    reveal_strlit("variant-inputs");
    assert("variant-inputs"@.len() == 14);
    reveal_strlit("rendered");
    assert("rendered"@.len() == 8);
    reveal_strlit("rendered-elements");
    assert("rendered-elements"@.len() == 17);
    reveal_strlit("model-failure");
    assert("model-failure"@.len() == 13);
    reveal_strlit("chained");
    assert("chained"@.len() == 7);
    reveal_strlit("active");
    assert("active"@.len() == 6);
    reveal_strlit("remaining");
    assert("remaining"@.len() == 9);
    reveal_strlit("availability-path");
    assert("availability-path"@.len() == 17);
    reveal_strlit("booking-path");
    assert("booking-path"@.len() == 12);
    reveal_strlit("first-booking");
    assert("first-booking"@.len() == 13);
    reveal_strlit("finishing-edge");
    assert("finishing-edge"@.len() == 14);
    reveal_strlit("guidance-note");
    assert("guidance-note"@.len() == 13);
    reveal_strlit("promotion-approval");
    assert("promotion-approval"@.len() == 18);
    reveal_strlit("held-out-input");
    assert("held-out-input"@.len() == 14);
    reveal_strlit("held-out-pair");
    assert("held-out-pair"@.len() == 13);
    reveal_strlit("source-inputs");
    assert("source-inputs"@.len() == 13);
    reveal_strlit("source-evidence");
    assert("source-evidence"@.len() == 15);
    assert("source-evidence"@[0] != "learning-config"@[0]);
    reveal_strlit("proposal-prompt");
    assert("proposal-prompt"@.len() == 15);
    assert("proposal-prompt"@[0] != "learning-config"@[0]);
    reveal_strlit("artifact-port");
    assert("artifact-port"@.len() == 13);
    reveal_strlit("proposal-mutations");
    assert("proposal-mutations"@.len() == 18);
    reveal_strlit("slotbook-policy");
    assert("slotbook-policy"@.len() == 15);
    assert("slotbook-policy"@[0] != "learning-config"@[0]);
    reveal_strlit("slotbook-requirement");
    assert("slotbook-requirement"@.len() == 20);
    reveal_strlit("slotbook-scope");
    assert("slotbook-scope"@.len() == 14);
    reveal_strlit("slotbook-protected-recipe");
    assert("slotbook-protected-recipe"@.len() == 25);
    reveal_strlit("slotbook-worker-recipe");
    assert("slotbook-worker-recipe"@.len() == 22);
    reveal_strlit("slotbook-session-config");
    assert("slotbook-session-config"@.len() == 23);
    reveal_strlit("seed-inputs");
    assert("seed-inputs"@.len() == 11);
    reveal_strlit("forged-inputs");
    assert("forged-inputs"@.len() == 13);
    reveal_strlit("repair-proposal");
    assert("repair-proposal"@.len() == 15);
    assert("repair-proposal"@[0] != "learning-config"@[0]);
    reveal_strlit("published-descriptor");
    assert("published-descriptor"@.len() == 20);
    reveal_strlit("published-method");
    assert("published-method"@.len() == 16);
    reveal_strlit("publication-config");
    assert("publication-config"@.len() == 18);
    reveal_strlit("peer-relationship");
    assert("peer-relationship"@.len() == 17);
    reveal_strlit("peer-provider-config");
    assert("peer-provider-config"@.len() == 20);
    reveal_strlit("peer-origin-config");
    assert("peer-origin-config"@.len() == 18);
    reveal_strlit("outer-task");
    assert("outer-task"@.len() == 10);
    reveal_strlit("outer-peer-task");
    assert("outer-peer-task"@.len() == 15);
    assert("outer-peer-task"@[0] != "learning-config"@[0]);
    reveal_strlit("outer-mutations");
    assert("outer-mutations"@.len() == 15);
    assert("outer-mutations"@[0] != "learning-config"@[0]);
    reveal_strlit("learning-operator");
    assert("learning-operator"@.len() == 17);
    reveal_strlit("learning-evaluator");
    assert("learning-evaluator"@.len() == 18);
}

/// The maker `learning-worker-recipe`.
pub proof fn makes_learning_worker_recipe(args: Seq<Tree>, env: Tree)
    ensures
        made("learning-worker-recipe"@, args, env) == (if ground(args, env) is Object {
            document_of(LEARNING_WORKER_RECIPE@, ground(args, env))
        } else {
            Err("scenario value is absent"@)
        }),
{
    reveal(made);
    reveal(drafted);
    reveal_strlit("learning-worker-recipe");
    assert("learning-worker-recipe"@.len() == 22);
    reveal_strlit("failed-checks");
    assert("failed-checks"@.len() == 13);
    reveal_strlit("forged-checks");
    assert("forged-checks"@.len() == 13);
    reveal_strlit("peer-capability");
    assert("peer-capability"@.len() == 15);
    reveal_strlit("linked-runs");
    assert("linked-runs"@.len() == 11);
    reveal_strlit("children");
    assert("children"@.len() == 8);
    reveal_strlit("method-mutations");
    assert("method-mutations"@.len() == 16);
    reveal_strlit("repair-mutations");
    assert("repair-mutations"@.len() == 16);
    reveal_strlit("learning-mutations");
    assert("learning-mutations"@.len() == 18);
    reveal_strlit("model-destination");
    assert("model-destination"@.len() == 17);
    reveal_strlit("grant-slot");
    assert("grant-slot"@.len() == 10);
    reveal_strlit("trust-slot");
    assert("trust-slot"@.len() == 10);
    reveal_strlit("last");
    assert("last"@.len() == 4);
    reveal_strlit("pages");
    assert("pages"@.len() == 5);
    reveal_strlit("including");
    assert("including"@.len() == 9);
    reveal_strlit("observed-artifacts");
    assert("observed-artifacts"@.len() == 18);
    reveal_strlit("attempt-artifacts");
    assert("attempt-artifacts"@.len() == 17);
    reveal_strlit("variant-inputs");
    assert("variant-inputs"@.len() == 14);
    reveal_strlit("rendered");
    assert("rendered"@.len() == 8);
    reveal_strlit("rendered-elements");
    assert("rendered-elements"@.len() == 17);
    reveal_strlit("model-failure");
    assert("model-failure"@.len() == 13);
    reveal_strlit("chained");
    assert("chained"@.len() == 7);
    reveal_strlit("active");
    assert("active"@.len() == 6);
    reveal_strlit("remaining");
    assert("remaining"@.len() == 9);
    reveal_strlit("availability-path");
    assert("availability-path"@.len() == 17);
    reveal_strlit("booking-path");
    assert("booking-path"@.len() == 12);
    reveal_strlit("first-booking");
    assert("first-booking"@.len() == 13);
    reveal_strlit("finishing-edge");
    assert("finishing-edge"@.len() == 14);
    reveal_strlit("guidance-note");
    assert("guidance-note"@.len() == 13);
    reveal_strlit("promotion-approval");
    assert("promotion-approval"@.len() == 18);
    reveal_strlit("held-out-input");
    assert("held-out-input"@.len() == 14);
    reveal_strlit("held-out-pair");
    assert("held-out-pair"@.len() == 13);
    reveal_strlit("source-inputs");
    assert("source-inputs"@.len() == 13);
    reveal_strlit("source-evidence");
    assert("source-evidence"@.len() == 15);
    reveal_strlit("proposal-prompt");
    assert("proposal-prompt"@.len() == 15);
    reveal_strlit("artifact-port");
    assert("artifact-port"@.len() == 13);
    reveal_strlit("proposal-mutations");
    assert("proposal-mutations"@.len() == 18);
    reveal_strlit("slotbook-policy");
    assert("slotbook-policy"@.len() == 15);
    reveal_strlit("slotbook-requirement");
    assert("slotbook-requirement"@.len() == 20);
    reveal_strlit("slotbook-scope");
    assert("slotbook-scope"@.len() == 14);
    reveal_strlit("slotbook-protected-recipe");
    assert("slotbook-protected-recipe"@.len() == 25);
    reveal_strlit("slotbook-worker-recipe");
    assert("slotbook-worker-recipe"@.len() == 22);
    assert("slotbook-worker-recipe"@[0] != "learning-worker-recipe"@[0]);
    reveal_strlit("slotbook-session-config");
    assert("slotbook-session-config"@.len() == 23);
    reveal_strlit("seed-inputs");
    assert("seed-inputs"@.len() == 11);
    reveal_strlit("forged-inputs");
    assert("forged-inputs"@.len() == 13);
    reveal_strlit("repair-proposal");
    assert("repair-proposal"@.len() == 15);
    reveal_strlit("published-descriptor");
    assert("published-descriptor"@.len() == 20);
    reveal_strlit("published-method");
    assert("published-method"@.len() == 16);
    reveal_strlit("publication-config");
    assert("publication-config"@.len() == 18);
    reveal_strlit("peer-relationship");
    assert("peer-relationship"@.len() == 17);
    reveal_strlit("peer-provider-config");
    assert("peer-provider-config"@.len() == 20);
    reveal_strlit("peer-origin-config");
    assert("peer-origin-config"@.len() == 18);
    reveal_strlit("outer-task");
    assert("outer-task"@.len() == 10);
    reveal_strlit("outer-peer-task");
    assert("outer-peer-task"@.len() == 15);
    reveal_strlit("outer-mutations");
    assert("outer-mutations"@.len() == 15);
    reveal_strlit("learning-operator");
    assert("learning-operator"@.len() == 17);
    reveal_strlit("learning-evaluator");
    assert("learning-evaluator"@.len() == 18);
    reveal_strlit("learning-config");
    assert("learning-config"@.len() == 15);
}

/// The maker `learning-target-recipe`.
pub proof fn makes_learning_target_recipe(args: Seq<Tree>, env: Tree)
    ensures
        made("learning-target-recipe"@, args, env) == (if ground(args, env) is Object {
            document_of(LEARNING_TARGET_RECIPE@, ground(args, env))
        } else {
            Err("scenario value is absent"@)
        }),
{
    reveal(made);
    reveal(drafted);
    reveal_strlit("learning-target-recipe");
    assert("learning-target-recipe"@.len() == 22);
    reveal_strlit("failed-checks");
    assert("failed-checks"@.len() == 13);
    reveal_strlit("forged-checks");
    assert("forged-checks"@.len() == 13);
    reveal_strlit("peer-capability");
    assert("peer-capability"@.len() == 15);
    reveal_strlit("linked-runs");
    assert("linked-runs"@.len() == 11);
    reveal_strlit("children");
    assert("children"@.len() == 8);
    reveal_strlit("method-mutations");
    assert("method-mutations"@.len() == 16);
    reveal_strlit("repair-mutations");
    assert("repair-mutations"@.len() == 16);
    reveal_strlit("learning-mutations");
    assert("learning-mutations"@.len() == 18);
    reveal_strlit("model-destination");
    assert("model-destination"@.len() == 17);
    reveal_strlit("grant-slot");
    assert("grant-slot"@.len() == 10);
    reveal_strlit("trust-slot");
    assert("trust-slot"@.len() == 10);
    reveal_strlit("last");
    assert("last"@.len() == 4);
    reveal_strlit("pages");
    assert("pages"@.len() == 5);
    reveal_strlit("including");
    assert("including"@.len() == 9);
    reveal_strlit("observed-artifacts");
    assert("observed-artifacts"@.len() == 18);
    reveal_strlit("attempt-artifacts");
    assert("attempt-artifacts"@.len() == 17);
    reveal_strlit("variant-inputs");
    assert("variant-inputs"@.len() == 14);
    reveal_strlit("rendered");
    assert("rendered"@.len() == 8);
    reveal_strlit("rendered-elements");
    assert("rendered-elements"@.len() == 17);
    reveal_strlit("model-failure");
    assert("model-failure"@.len() == 13);
    reveal_strlit("chained");
    assert("chained"@.len() == 7);
    reveal_strlit("active");
    assert("active"@.len() == 6);
    reveal_strlit("remaining");
    assert("remaining"@.len() == 9);
    reveal_strlit("availability-path");
    assert("availability-path"@.len() == 17);
    reveal_strlit("booking-path");
    assert("booking-path"@.len() == 12);
    reveal_strlit("first-booking");
    assert("first-booking"@.len() == 13);
    reveal_strlit("finishing-edge");
    assert("finishing-edge"@.len() == 14);
    reveal_strlit("guidance-note");
    assert("guidance-note"@.len() == 13);
    reveal_strlit("promotion-approval");
    assert("promotion-approval"@.len() == 18);
    reveal_strlit("held-out-input");
    assert("held-out-input"@.len() == 14);
    reveal_strlit("held-out-pair");
    assert("held-out-pair"@.len() == 13);
    reveal_strlit("source-inputs");
    assert("source-inputs"@.len() == 13);
    reveal_strlit("source-evidence");
    assert("source-evidence"@.len() == 15);
    reveal_strlit("proposal-prompt");
    assert("proposal-prompt"@.len() == 15);
    reveal_strlit("artifact-port");
    assert("artifact-port"@.len() == 13);
    reveal_strlit("proposal-mutations");
    assert("proposal-mutations"@.len() == 18);
    reveal_strlit("slotbook-policy");
    assert("slotbook-policy"@.len() == 15);
    reveal_strlit("slotbook-requirement");
    assert("slotbook-requirement"@.len() == 20);
    reveal_strlit("slotbook-scope");
    assert("slotbook-scope"@.len() == 14);
    reveal_strlit("slotbook-protected-recipe");
    assert("slotbook-protected-recipe"@.len() == 25);
    reveal_strlit("slotbook-worker-recipe");
    assert("slotbook-worker-recipe"@.len() == 22);
    assert("slotbook-worker-recipe"@[0] != "learning-target-recipe"@[0]);
    reveal_strlit("slotbook-session-config");
    assert("slotbook-session-config"@.len() == 23);
    reveal_strlit("seed-inputs");
    assert("seed-inputs"@.len() == 11);
    reveal_strlit("forged-inputs");
    assert("forged-inputs"@.len() == 13);
    reveal_strlit("repair-proposal");
    assert("repair-proposal"@.len() == 15);
    reveal_strlit("published-descriptor");
    assert("published-descriptor"@.len() == 20);
    reveal_strlit("published-method");
    assert("published-method"@.len() == 16);
    reveal_strlit("publication-config");
    assert("publication-config"@.len() == 18);
    reveal_strlit("peer-relationship");
    assert("peer-relationship"@.len() == 17);
    reveal_strlit("peer-provider-config");
    assert("peer-provider-config"@.len() == 20);
    reveal_strlit("peer-origin-config");
    assert("peer-origin-config"@.len() == 18);
    reveal_strlit("outer-task");
    assert("outer-task"@.len() == 10);
    reveal_strlit("outer-peer-task");
    assert("outer-peer-task"@.len() == 15);
    reveal_strlit("outer-mutations");
    assert("outer-mutations"@.len() == 15);
    reveal_strlit("learning-operator");
    assert("learning-operator"@.len() == 17);
    reveal_strlit("learning-evaluator");
    assert("learning-evaluator"@.len() == 18);
    reveal_strlit("learning-config");
    assert("learning-config"@.len() == 15);
    reveal_strlit("learning-worker-recipe");
    assert("learning-worker-recipe"@.len() == 22);
    assert("learning-worker-recipe"@[9] != "learning-target-recipe"@[9]);
}

/// The maker `learning-service`.
pub proof fn makes_learning_service(args: Seq<Tree>, env: Tree)
    ensures
        made("learning-service"@, args, env) == (if ground(args, env) is Object {
            document_of(LEARNING_SERVICE@, ground(args, env))
        } else {
            Err("scenario value is absent"@)
        }),
{
    reveal(made);
    reveal(drafted);
    reveal_strlit("learning-service");
    assert("learning-service"@.len() == 16);
    reveal_strlit("failed-checks");
    assert("failed-checks"@.len() == 13);
    reveal_strlit("forged-checks");
    assert("forged-checks"@.len() == 13);
    reveal_strlit("peer-capability");
    assert("peer-capability"@.len() == 15);
    reveal_strlit("linked-runs");
    assert("linked-runs"@.len() == 11);
    reveal_strlit("children");
    assert("children"@.len() == 8);
    reveal_strlit("method-mutations");
    assert("method-mutations"@.len() == 16);
    assert("method-mutations"@[0] != "learning-service"@[0]);
    reveal_strlit("repair-mutations");
    assert("repair-mutations"@.len() == 16);
    assert("repair-mutations"@[0] != "learning-service"@[0]);
    reveal_strlit("learning-mutations");
    assert("learning-mutations"@.len() == 18);
    reveal_strlit("model-destination");
    assert("model-destination"@.len() == 17);
    reveal_strlit("grant-slot");
    assert("grant-slot"@.len() == 10);
    reveal_strlit("trust-slot");
    assert("trust-slot"@.len() == 10);
    reveal_strlit("last");
    assert("last"@.len() == 4);
    reveal_strlit("pages");
    assert("pages"@.len() == 5);
    reveal_strlit("including");
    assert("including"@.len() == 9);
    reveal_strlit("observed-artifacts");
    assert("observed-artifacts"@.len() == 18);
    reveal_strlit("attempt-artifacts");
    assert("attempt-artifacts"@.len() == 17);
    reveal_strlit("variant-inputs");
    assert("variant-inputs"@.len() == 14);
    reveal_strlit("rendered");
    assert("rendered"@.len() == 8);
    reveal_strlit("rendered-elements");
    assert("rendered-elements"@.len() == 17);
    reveal_strlit("model-failure");
    assert("model-failure"@.len() == 13);
    reveal_strlit("chained");
    assert("chained"@.len() == 7);
    reveal_strlit("active");
    assert("active"@.len() == 6);
    reveal_strlit("remaining");
    assert("remaining"@.len() == 9);
    reveal_strlit("availability-path");
    assert("availability-path"@.len() == 17);
    reveal_strlit("booking-path");
    assert("booking-path"@.len() == 12);
    reveal_strlit("first-booking");
    assert("first-booking"@.len() == 13);
    reveal_strlit("finishing-edge");
    assert("finishing-edge"@.len() == 14);
    reveal_strlit("guidance-note");
    assert("guidance-note"@.len() == 13);
    reveal_strlit("promotion-approval");
    assert("promotion-approval"@.len() == 18);
    reveal_strlit("held-out-input");
    assert("held-out-input"@.len() == 14);
    reveal_strlit("held-out-pair");
    assert("held-out-pair"@.len() == 13);
    reveal_strlit("source-inputs");
    assert("source-inputs"@.len() == 13);
    reveal_strlit("source-evidence");
    assert("source-evidence"@.len() == 15);
    reveal_strlit("proposal-prompt");
    assert("proposal-prompt"@.len() == 15);
    reveal_strlit("artifact-port");
    assert("artifact-port"@.len() == 13);
    reveal_strlit("proposal-mutations");
    assert("proposal-mutations"@.len() == 18);
    reveal_strlit("slotbook-policy");
    assert("slotbook-policy"@.len() == 15);
    reveal_strlit("slotbook-requirement");
    assert("slotbook-requirement"@.len() == 20);
    reveal_strlit("slotbook-scope");
    assert("slotbook-scope"@.len() == 14);
    reveal_strlit("slotbook-protected-recipe");
    assert("slotbook-protected-recipe"@.len() == 25);
    reveal_strlit("slotbook-worker-recipe");
    assert("slotbook-worker-recipe"@.len() == 22);
    reveal_strlit("slotbook-session-config");
    assert("slotbook-session-config"@.len() == 23);
    reveal_strlit("seed-inputs");
    assert("seed-inputs"@.len() == 11);
    reveal_strlit("forged-inputs");
    assert("forged-inputs"@.len() == 13);
    reveal_strlit("repair-proposal");
    assert("repair-proposal"@.len() == 15);
    reveal_strlit("published-descriptor");
    assert("published-descriptor"@.len() == 20);
    reveal_strlit("published-method");
    assert("published-method"@.len() == 16);
    assert("published-method"@[0] != "learning-service"@[0]);
    reveal_strlit("publication-config");
    assert("publication-config"@.len() == 18);
    reveal_strlit("peer-relationship");
    assert("peer-relationship"@.len() == 17);
    reveal_strlit("peer-provider-config");
    assert("peer-provider-config"@.len() == 20);
    reveal_strlit("peer-origin-config");
    assert("peer-origin-config"@.len() == 18);
    reveal_strlit("outer-task");
    assert("outer-task"@.len() == 10);
    reveal_strlit("outer-peer-task");
    assert("outer-peer-task"@.len() == 15);
    reveal_strlit("outer-mutations");
    assert("outer-mutations"@.len() == 15);
    reveal_strlit("learning-operator");
    assert("learning-operator"@.len() == 17);
    reveal_strlit("learning-evaluator");
    assert("learning-evaluator"@.len() == 18);
    reveal_strlit("learning-config");
    assert("learning-config"@.len() == 15);
    reveal_strlit("learning-worker-recipe");
    assert("learning-worker-recipe"@.len() == 22);
    reveal_strlit("learning-target-recipe");
    assert("learning-target-recipe"@.len() == 22);
}

/// The maker `learning-budget`.
pub proof fn makes_learning_budget(args: Seq<Tree>, env: Tree)
    ensures
        made("learning-budget"@, args, env) == (if ground(args, env) is Object {
            document_of(LEARNING_BUDGET@, ground(args, env))
        } else {
            Err("scenario value is absent"@)
        }),
{
    reveal(made);
    reveal(drafted);
    reveal_strlit("learning-budget");
    assert("learning-budget"@.len() == 15);
    reveal_strlit("failed-checks");
    assert("failed-checks"@.len() == 13);
    reveal_strlit("forged-checks");
    assert("forged-checks"@.len() == 13);
    reveal_strlit("peer-capability");
    assert("peer-capability"@.len() == 15);
    assert("peer-capability"@[0] != "learning-budget"@[0]);
    reveal_strlit("linked-runs");
    assert("linked-runs"@.len() == 11);
    reveal_strlit("children");
    assert("children"@.len() == 8);
    reveal_strlit("method-mutations");
    assert("method-mutations"@.len() == 16);
    reveal_strlit("repair-mutations");
    assert("repair-mutations"@.len() == 16);
    reveal_strlit("learning-mutations");
    assert("learning-mutations"@.len() == 18);
    reveal_strlit("model-destination");
    assert("model-destination"@.len() == 17);
    reveal_strlit("grant-slot");
    assert("grant-slot"@.len() == 10);
    reveal_strlit("trust-slot");
    assert("trust-slot"@.len() == 10);
    reveal_strlit("last");
    assert("last"@.len() == 4);
    reveal_strlit("pages");
    assert("pages"@.len() == 5);
    reveal_strlit("including");
    assert("including"@.len() == 9);
    reveal_strlit("observed-artifacts");
    assert("observed-artifacts"@.len() == 18);
    reveal_strlit("attempt-artifacts");
    assert("attempt-artifacts"@.len() == 17);
    reveal_strlit("variant-inputs");
    assert("variant-inputs"@.len() == 14);
    reveal_strlit("rendered");
    assert("rendered"@.len() == 8);
    reveal_strlit("rendered-elements");
    assert("rendered-elements"@.len() == 17);
    reveal_strlit("model-failure");
    assert("model-failure"@.len() == 13);
    reveal_strlit("chained");
    assert("chained"@.len() == 7);
    reveal_strlit("active");
    assert("active"@.len() == 6);
    reveal_strlit("remaining");
    assert("remaining"@.len() == 9);
    reveal_strlit("availability-path");
    assert("availability-path"@.len() == 17);
    reveal_strlit("booking-path");
    assert("booking-path"@.len() == 12);
    reveal_strlit("first-booking");
    assert("first-booking"@.len() == 13);
    reveal_strlit("finishing-edge");
    assert("finishing-edge"@.len() == 14);
    reveal_strlit("guidance-note");
    assert("guidance-note"@.len() == 13);
    reveal_strlit("promotion-approval");
    assert("promotion-approval"@.len() == 18);
    reveal_strlit("held-out-input");
    assert("held-out-input"@.len() == 14);
    reveal_strlit("held-out-pair");
    assert("held-out-pair"@.len() == 13);
    reveal_strlit("source-inputs");
    assert("source-inputs"@.len() == 13);
    reveal_strlit("source-evidence");
    assert("source-evidence"@.len() == 15);
    assert("source-evidence"@[0] != "learning-budget"@[0]);
    reveal_strlit("proposal-prompt");
    assert("proposal-prompt"@.len() == 15);
    assert("proposal-prompt"@[0] != "learning-budget"@[0]);
    reveal_strlit("artifact-port");
    assert("artifact-port"@.len() == 13);
    reveal_strlit("proposal-mutations");
    assert("proposal-mutations"@.len() == 18);
    reveal_strlit("slotbook-policy");
    assert("slotbook-policy"@.len() == 15);
    assert("slotbook-policy"@[0] != "learning-budget"@[0]);
    reveal_strlit("slotbook-requirement");
    assert("slotbook-requirement"@.len() == 20);
    reveal_strlit("slotbook-scope");
    assert("slotbook-scope"@.len() == 14);
    reveal_strlit("slotbook-protected-recipe");
    assert("slotbook-protected-recipe"@.len() == 25);
    reveal_strlit("slotbook-worker-recipe");
    assert("slotbook-worker-recipe"@.len() == 22);
    reveal_strlit("slotbook-session-config");
    assert("slotbook-session-config"@.len() == 23);
    reveal_strlit("seed-inputs");
    assert("seed-inputs"@.len() == 11);
    reveal_strlit("forged-inputs");
    assert("forged-inputs"@.len() == 13);
    reveal_strlit("repair-proposal");
    assert("repair-proposal"@.len() == 15);
    assert("repair-proposal"@[0] != "learning-budget"@[0]);
    reveal_strlit("published-descriptor");
    assert("published-descriptor"@.len() == 20);
    reveal_strlit("published-method");
    assert("published-method"@.len() == 16);
    reveal_strlit("publication-config");
    assert("publication-config"@.len() == 18);
    reveal_strlit("peer-relationship");
    assert("peer-relationship"@.len() == 17);
    reveal_strlit("peer-provider-config");
    assert("peer-provider-config"@.len() == 20);
    reveal_strlit("peer-origin-config");
    assert("peer-origin-config"@.len() == 18);
    reveal_strlit("outer-task");
    assert("outer-task"@.len() == 10);
    reveal_strlit("outer-peer-task");
    assert("outer-peer-task"@.len() == 15);
    assert("outer-peer-task"@[0] != "learning-budget"@[0]);
    reveal_strlit("outer-mutations");
    assert("outer-mutations"@.len() == 15);
    assert("outer-mutations"@[0] != "learning-budget"@[0]);
    reveal_strlit("learning-operator");
    assert("learning-operator"@.len() == 17);
    reveal_strlit("learning-evaluator");
    assert("learning-evaluator"@.len() == 18);
    reveal_strlit("learning-config");
    assert("learning-config"@.len() == 15);
    assert("learning-config"@[9] != "learning-budget"@[9]);
    reveal_strlit("learning-worker-recipe");
    assert("learning-worker-recipe"@.len() == 22);
    reveal_strlit("learning-target-recipe");
    assert("learning-target-recipe"@.len() == 22);
    reveal_strlit("learning-service");
    assert("learning-service"@.len() == 16);
}

/// The maker `learning-method`.
pub proof fn makes_learning_method(args: Seq<Tree>, env: Tree)
    ensures
        made("learning-method"@, args, env) == (if ground(args, env) is Object {
            document_of(LEARNING_METHOD@, ground(args, env))
        } else {
            Err("scenario value is absent"@)
        }),
{
    reveal(made);
    reveal(drafted);
    reveal_strlit("learning-method");
    assert("learning-method"@.len() == 15);
    reveal_strlit("failed-checks");
    assert("failed-checks"@.len() == 13);
    reveal_strlit("forged-checks");
    assert("forged-checks"@.len() == 13);
    reveal_strlit("peer-capability");
    assert("peer-capability"@.len() == 15);
    assert("peer-capability"@[0] != "learning-method"@[0]);
    reveal_strlit("linked-runs");
    assert("linked-runs"@.len() == 11);
    reveal_strlit("children");
    assert("children"@.len() == 8);
    reveal_strlit("method-mutations");
    assert("method-mutations"@.len() == 16);
    reveal_strlit("repair-mutations");
    assert("repair-mutations"@.len() == 16);
    reveal_strlit("learning-mutations");
    assert("learning-mutations"@.len() == 18);
    reveal_strlit("model-destination");
    assert("model-destination"@.len() == 17);
    reveal_strlit("grant-slot");
    assert("grant-slot"@.len() == 10);
    reveal_strlit("trust-slot");
    assert("trust-slot"@.len() == 10);
    reveal_strlit("last");
    assert("last"@.len() == 4);
    reveal_strlit("pages");
    assert("pages"@.len() == 5);
    reveal_strlit("including");
    assert("including"@.len() == 9);
    reveal_strlit("observed-artifacts");
    assert("observed-artifacts"@.len() == 18);
    reveal_strlit("attempt-artifacts");
    assert("attempt-artifacts"@.len() == 17);
    reveal_strlit("variant-inputs");
    assert("variant-inputs"@.len() == 14);
    reveal_strlit("rendered");
    assert("rendered"@.len() == 8);
    reveal_strlit("rendered-elements");
    assert("rendered-elements"@.len() == 17);
    reveal_strlit("model-failure");
    assert("model-failure"@.len() == 13);
    reveal_strlit("chained");
    assert("chained"@.len() == 7);
    reveal_strlit("active");
    assert("active"@.len() == 6);
    reveal_strlit("remaining");
    assert("remaining"@.len() == 9);
    reveal_strlit("availability-path");
    assert("availability-path"@.len() == 17);
    reveal_strlit("booking-path");
    assert("booking-path"@.len() == 12);
    reveal_strlit("first-booking");
    assert("first-booking"@.len() == 13);
    reveal_strlit("finishing-edge");
    assert("finishing-edge"@.len() == 14);
    reveal_strlit("guidance-note");
    assert("guidance-note"@.len() == 13);
    reveal_strlit("promotion-approval");
    assert("promotion-approval"@.len() == 18);
    reveal_strlit("held-out-input");
    assert("held-out-input"@.len() == 14);
    reveal_strlit("held-out-pair");
    assert("held-out-pair"@.len() == 13);
    reveal_strlit("source-inputs");
    assert("source-inputs"@.len() == 13);
    reveal_strlit("source-evidence");
    assert("source-evidence"@.len() == 15);
    assert("source-evidence"@[0] != "learning-method"@[0]);
    reveal_strlit("proposal-prompt");
    assert("proposal-prompt"@.len() == 15);
    assert("proposal-prompt"@[0] != "learning-method"@[0]);
    reveal_strlit("artifact-port");
    assert("artifact-port"@.len() == 13);
    reveal_strlit("proposal-mutations");
    assert("proposal-mutations"@.len() == 18);
    reveal_strlit("slotbook-policy");
    assert("slotbook-policy"@.len() == 15);
    assert("slotbook-policy"@[0] != "learning-method"@[0]);
    reveal_strlit("slotbook-requirement");
    assert("slotbook-requirement"@.len() == 20);
    reveal_strlit("slotbook-scope");
    assert("slotbook-scope"@.len() == 14);
    reveal_strlit("slotbook-protected-recipe");
    assert("slotbook-protected-recipe"@.len() == 25);
    reveal_strlit("slotbook-worker-recipe");
    assert("slotbook-worker-recipe"@.len() == 22);
    reveal_strlit("slotbook-session-config");
    assert("slotbook-session-config"@.len() == 23);
    reveal_strlit("seed-inputs");
    assert("seed-inputs"@.len() == 11);
    reveal_strlit("forged-inputs");
    assert("forged-inputs"@.len() == 13);
    reveal_strlit("repair-proposal");
    assert("repair-proposal"@.len() == 15);
    assert("repair-proposal"@[0] != "learning-method"@[0]);
    reveal_strlit("published-descriptor");
    assert("published-descriptor"@.len() == 20);
    reveal_strlit("published-method");
    assert("published-method"@.len() == 16);
    reveal_strlit("publication-config");
    assert("publication-config"@.len() == 18);
    reveal_strlit("peer-relationship");
    assert("peer-relationship"@.len() == 17);
    reveal_strlit("peer-provider-config");
    assert("peer-provider-config"@.len() == 20);
    reveal_strlit("peer-origin-config");
    assert("peer-origin-config"@.len() == 18);
    reveal_strlit("outer-task");
    assert("outer-task"@.len() == 10);
    reveal_strlit("outer-peer-task");
    assert("outer-peer-task"@.len() == 15);
    assert("outer-peer-task"@[0] != "learning-method"@[0]);
    reveal_strlit("outer-mutations");
    assert("outer-mutations"@.len() == 15);
    assert("outer-mutations"@[0] != "learning-method"@[0]);
    reveal_strlit("learning-operator");
    assert("learning-operator"@.len() == 17);
    reveal_strlit("learning-evaluator");
    assert("learning-evaluator"@.len() == 18);
    reveal_strlit("learning-config");
    assert("learning-config"@.len() == 15);
    assert("learning-config"@[9] != "learning-method"@[9]);
    reveal_strlit("learning-worker-recipe");
    assert("learning-worker-recipe"@.len() == 22);
    reveal_strlit("learning-target-recipe");
    assert("learning-target-recipe"@.len() == 22);
    reveal_strlit("learning-service");
    assert("learning-service"@.len() == 16);
    reveal_strlit("learning-budget");
    assert("learning-budget"@.len() == 15);
    assert("learning-budget"@[9] != "learning-method"@[9]);
}

/// The maker `learning-learner`.
pub proof fn makes_learning_learner(args: Seq<Tree>, env: Tree)
    ensures
        made("learning-learner"@, args, env) == (if ground(args, env) is Object {
            document_of(LEARNING_LEARNER@, ground(args, env))
        } else {
            Err("scenario value is absent"@)
        }),
{
    reveal(made);
    reveal(drafted);
    reveal_strlit("learning-learner");
    assert("learning-learner"@.len() == 16);
    reveal_strlit("failed-checks");
    assert("failed-checks"@.len() == 13);
    reveal_strlit("forged-checks");
    assert("forged-checks"@.len() == 13);
    reveal_strlit("peer-capability");
    assert("peer-capability"@.len() == 15);
    reveal_strlit("linked-runs");
    assert("linked-runs"@.len() == 11);
    reveal_strlit("children");
    assert("children"@.len() == 8);
    reveal_strlit("method-mutations");
    assert("method-mutations"@.len() == 16);
    assert("method-mutations"@[0] != "learning-learner"@[0]);
    reveal_strlit("repair-mutations");
    assert("repair-mutations"@.len() == 16);
    assert("repair-mutations"@[0] != "learning-learner"@[0]);
    reveal_strlit("learning-mutations");
    assert("learning-mutations"@.len() == 18);
    reveal_strlit("model-destination");
    assert("model-destination"@.len() == 17);
    reveal_strlit("grant-slot");
    assert("grant-slot"@.len() == 10);
    reveal_strlit("trust-slot");
    assert("trust-slot"@.len() == 10);
    reveal_strlit("last");
    assert("last"@.len() == 4);
    reveal_strlit("pages");
    assert("pages"@.len() == 5);
    reveal_strlit("including");
    assert("including"@.len() == 9);
    reveal_strlit("observed-artifacts");
    assert("observed-artifacts"@.len() == 18);
    reveal_strlit("attempt-artifacts");
    assert("attempt-artifacts"@.len() == 17);
    reveal_strlit("variant-inputs");
    assert("variant-inputs"@.len() == 14);
    reveal_strlit("rendered");
    assert("rendered"@.len() == 8);
    reveal_strlit("rendered-elements");
    assert("rendered-elements"@.len() == 17);
    reveal_strlit("model-failure");
    assert("model-failure"@.len() == 13);
    reveal_strlit("chained");
    assert("chained"@.len() == 7);
    reveal_strlit("active");
    assert("active"@.len() == 6);
    reveal_strlit("remaining");
    assert("remaining"@.len() == 9);
    reveal_strlit("availability-path");
    assert("availability-path"@.len() == 17);
    reveal_strlit("booking-path");
    assert("booking-path"@.len() == 12);
    reveal_strlit("first-booking");
    assert("first-booking"@.len() == 13);
    reveal_strlit("finishing-edge");
    assert("finishing-edge"@.len() == 14);
    reveal_strlit("guidance-note");
    assert("guidance-note"@.len() == 13);
    reveal_strlit("promotion-approval");
    assert("promotion-approval"@.len() == 18);
    reveal_strlit("held-out-input");
    assert("held-out-input"@.len() == 14);
    reveal_strlit("held-out-pair");
    assert("held-out-pair"@.len() == 13);
    reveal_strlit("source-inputs");
    assert("source-inputs"@.len() == 13);
    reveal_strlit("source-evidence");
    assert("source-evidence"@.len() == 15);
    reveal_strlit("proposal-prompt");
    assert("proposal-prompt"@.len() == 15);
    reveal_strlit("artifact-port");
    assert("artifact-port"@.len() == 13);
    reveal_strlit("proposal-mutations");
    assert("proposal-mutations"@.len() == 18);
    reveal_strlit("slotbook-policy");
    assert("slotbook-policy"@.len() == 15);
    reveal_strlit("slotbook-requirement");
    assert("slotbook-requirement"@.len() == 20);
    reveal_strlit("slotbook-scope");
    assert("slotbook-scope"@.len() == 14);
    reveal_strlit("slotbook-protected-recipe");
    assert("slotbook-protected-recipe"@.len() == 25);
    reveal_strlit("slotbook-worker-recipe");
    assert("slotbook-worker-recipe"@.len() == 22);
    reveal_strlit("slotbook-session-config");
    assert("slotbook-session-config"@.len() == 23);
    reveal_strlit("seed-inputs");
    assert("seed-inputs"@.len() == 11);
    reveal_strlit("forged-inputs");
    assert("forged-inputs"@.len() == 13);
    reveal_strlit("repair-proposal");
    assert("repair-proposal"@.len() == 15);
    reveal_strlit("published-descriptor");
    assert("published-descriptor"@.len() == 20);
    reveal_strlit("published-method");
    assert("published-method"@.len() == 16);
    assert("published-method"@[0] != "learning-learner"@[0]);
    reveal_strlit("publication-config");
    assert("publication-config"@.len() == 18);
    reveal_strlit("peer-relationship");
    assert("peer-relationship"@.len() == 17);
    reveal_strlit("peer-provider-config");
    assert("peer-provider-config"@.len() == 20);
    reveal_strlit("peer-origin-config");
    assert("peer-origin-config"@.len() == 18);
    reveal_strlit("outer-task");
    assert("outer-task"@.len() == 10);
    reveal_strlit("outer-peer-task");
    assert("outer-peer-task"@.len() == 15);
    reveal_strlit("outer-mutations");
    assert("outer-mutations"@.len() == 15);
    reveal_strlit("learning-operator");
    assert("learning-operator"@.len() == 17);
    reveal_strlit("learning-evaluator");
    assert("learning-evaluator"@.len() == 18);
    reveal_strlit("learning-config");
    assert("learning-config"@.len() == 15);
    reveal_strlit("learning-worker-recipe");
    assert("learning-worker-recipe"@.len() == 22);
    reveal_strlit("learning-target-recipe");
    assert("learning-target-recipe"@.len() == 22);
    reveal_strlit("learning-service");
    assert("learning-service"@.len() == 16);
    assert("learning-service"@[9] != "learning-learner"@[9]);
    reveal_strlit("learning-budget");
    assert("learning-budget"@.len() == 15);
    reveal_strlit("learning-method");
    assert("learning-method"@.len() == 15);
}

/// The maker `proposal-model`.
pub proof fn makes_proposal_model(args: Seq<Tree>, env: Tree)
    ensures
        made("proposal-model"@, args, env) == (if ground(args, env) is Object {
            document_of(PROPOSAL_MODEL@, ground(args, env))
        } else {
            Err("scenario value is absent"@)
        }),
{
    reveal(made);
    reveal(drafted);
    reveal_strlit("proposal-model");
    assert("proposal-model"@.len() == 14);
    reveal_strlit("failed-checks");
    assert("failed-checks"@.len() == 13);
    reveal_strlit("forged-checks");
    assert("forged-checks"@.len() == 13);
    reveal_strlit("peer-capability");
    assert("peer-capability"@.len() == 15);
    reveal_strlit("linked-runs");
    assert("linked-runs"@.len() == 11);
    reveal_strlit("children");
    assert("children"@.len() == 8);
    reveal_strlit("method-mutations");
    assert("method-mutations"@.len() == 16);
    reveal_strlit("repair-mutations");
    assert("repair-mutations"@.len() == 16);
    reveal_strlit("learning-mutations");
    assert("learning-mutations"@.len() == 18);
    reveal_strlit("model-destination");
    assert("model-destination"@.len() == 17);
    reveal_strlit("grant-slot");
    assert("grant-slot"@.len() == 10);
    reveal_strlit("trust-slot");
    assert("trust-slot"@.len() == 10);
    reveal_strlit("last");
    assert("last"@.len() == 4);
    reveal_strlit("pages");
    assert("pages"@.len() == 5);
    reveal_strlit("including");
    assert("including"@.len() == 9);
    reveal_strlit("observed-artifacts");
    assert("observed-artifacts"@.len() == 18);
    reveal_strlit("attempt-artifacts");
    assert("attempt-artifacts"@.len() == 17);
    reveal_strlit("variant-inputs");
    assert("variant-inputs"@.len() == 14);
    assert("variant-inputs"@[0] != "proposal-model"@[0]);
    reveal_strlit("rendered");
    assert("rendered"@.len() == 8);
    reveal_strlit("rendered-elements");
    assert("rendered-elements"@.len() == 17);
    reveal_strlit("model-failure");
    assert("model-failure"@.len() == 13);
    reveal_strlit("chained");
    assert("chained"@.len() == 7);
    reveal_strlit("active");
    assert("active"@.len() == 6);
    reveal_strlit("remaining");
    assert("remaining"@.len() == 9);
    reveal_strlit("availability-path");
    assert("availability-path"@.len() == 17);
    reveal_strlit("booking-path");
    assert("booking-path"@.len() == 12);
    reveal_strlit("first-booking");
    assert("first-booking"@.len() == 13);
    reveal_strlit("finishing-edge");
    assert("finishing-edge"@.len() == 14);
    assert("finishing-edge"@[0] != "proposal-model"@[0]);
    reveal_strlit("guidance-note");
    assert("guidance-note"@.len() == 13);
    reveal_strlit("promotion-approval");
    assert("promotion-approval"@.len() == 18);
    reveal_strlit("held-out-input");
    assert("held-out-input"@.len() == 14);
    assert("held-out-input"@[0] != "proposal-model"@[0]);
    reveal_strlit("held-out-pair");
    assert("held-out-pair"@.len() == 13);
    reveal_strlit("source-inputs");
    assert("source-inputs"@.len() == 13);
    reveal_strlit("source-evidence");
    assert("source-evidence"@.len() == 15);
    reveal_strlit("proposal-prompt");
    assert("proposal-prompt"@.len() == 15);
    reveal_strlit("artifact-port");
    assert("artifact-port"@.len() == 13);
    reveal_strlit("proposal-mutations");
    assert("proposal-mutations"@.len() == 18);
    reveal_strlit("slotbook-policy");
    assert("slotbook-policy"@.len() == 15);
    reveal_strlit("slotbook-requirement");
    assert("slotbook-requirement"@.len() == 20);
    reveal_strlit("slotbook-scope");
    assert("slotbook-scope"@.len() == 14);
    assert("slotbook-scope"@[0] != "proposal-model"@[0]);
    reveal_strlit("slotbook-protected-recipe");
    assert("slotbook-protected-recipe"@.len() == 25);
    reveal_strlit("slotbook-worker-recipe");
    assert("slotbook-worker-recipe"@.len() == 22);
    reveal_strlit("slotbook-session-config");
    assert("slotbook-session-config"@.len() == 23);
    reveal_strlit("seed-inputs");
    assert("seed-inputs"@.len() == 11);
    reveal_strlit("forged-inputs");
    assert("forged-inputs"@.len() == 13);
    reveal_strlit("repair-proposal");
    assert("repair-proposal"@.len() == 15);
    reveal_strlit("published-descriptor");
    assert("published-descriptor"@.len() == 20);
    reveal_strlit("published-method");
    assert("published-method"@.len() == 16);
    reveal_strlit("publication-config");
    assert("publication-config"@.len() == 18);
    reveal_strlit("peer-relationship");
    assert("peer-relationship"@.len() == 17);
    reveal_strlit("peer-provider-config");
    assert("peer-provider-config"@.len() == 20);
    reveal_strlit("peer-origin-config");
    assert("peer-origin-config"@.len() == 18);
    reveal_strlit("outer-task");
    assert("outer-task"@.len() == 10);
    reveal_strlit("outer-peer-task");
    assert("outer-peer-task"@.len() == 15);
    reveal_strlit("outer-mutations");
    assert("outer-mutations"@.len() == 15);
    reveal_strlit("learning-operator");
    assert("learning-operator"@.len() == 17);
    reveal_strlit("learning-evaluator");
    assert("learning-evaluator"@.len() == 18);
    reveal_strlit("learning-config");
    assert("learning-config"@.len() == 15);
    reveal_strlit("learning-worker-recipe");
    assert("learning-worker-recipe"@.len() == 22);
    reveal_strlit("learning-target-recipe");
    assert("learning-target-recipe"@.len() == 22);
    reveal_strlit("learning-service");
    assert("learning-service"@.len() == 16);
    reveal_strlit("learning-budget");
    assert("learning-budget"@.len() == 15);
    reveal_strlit("learning-method");
    assert("learning-method"@.len() == 15);
    reveal_strlit("learning-learner");
    assert("learning-learner"@.len() == 16);
}

} // verus!
