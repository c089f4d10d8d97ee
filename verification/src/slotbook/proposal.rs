//! The proposal of the study: what its model is asked and shown, and the controlled responses that
//! stand in for one.

use vstd::prelude::*;

use crate::application::{document_result, words};
use crate::endpoint::checked_text;
use crate::failure::{ensure, failed, failure, Checked};
use crate::json::{at, entries, found, found_paths_take, items, placed, segments, with, Json, Tree};
use crate::order::{file_text, in_order, lemma_ordered_lists_agree};
use crate::slotbook::client::text;
use crate::slotbook::learning::{metadata_reference, reference_tree, LEARNER, MODEL};
use crate::slotbook::method::{
    added, artifact_schema, artifact_tree, edge, edge_tree, json_views, listed, mutation_tree,
    no_entries, node, node_tree, port, port_tree, push, terminal_kind, text_list, text_trees,
};
use crate::text::{decimal, joined, joined3, number_text, same_text, starts_with, texts};

verus! {

/// An editable node belongs to the region that a repair may change.
pub open spec fn is_editable(id: Seq<char>) -> bool {
    "repair."@.is_prefix_of(id)
}

proof fn lemma_keys(v: Seq<(String, Json)>, k: Seq<char>)
    ensures
        entries(v).contains_key(k) <==> exists|i: int|
            #![trigger v[i]]
            0 <= i < v.len() && v[i].0@ == k,
    decreases v.len(),
{
    if v.len() > 0 {
        lemma_keys(v.drop_last(), k);
        if entries(v).contains_key(k) && v.last().0@ != k {
            let i = choose|i: int|
                #![trigger v.drop_last()[i]]
                0 <= i < v.len() - 1 && v.drop_last()[i].0@ == k;
            assert(v[i].0@ == k);
        }
        if exists|i: int| #![trigger v[i]] 0 <= i < v.len() && v[i].0@ == k {
            let i = choose|i: int| #![trigger v[i]] 0 <= i < v.len() && v[i].0@ == k;
            if i < v.len() - 1 {
                assert(v.drop_last()[i].0@ == k);
            }
        }
    }
}

/// Whether a list holds exactly the editable nodes, in order.
pub open spec fn lists_editable(v: Seq<Seq<char>>, nodes: Map<Seq<char>, Tree>) -> bool {
    &&& in_order(v)
    &&& forall|k: Seq<char>| #[trigger]
        v.contains(k) <==> nodes.contains_key(k) && is_editable(k)
}

/// The editable ones among some nodes, in order.
pub open spec fn editable_of(nodes: Map<Seq<char>, Tree>) -> Seq<Seq<char>> {
    choose|v: Seq<Seq<char>>| lists_editable(v, nodes)
}

/// There is only one list of the editable nodes.
pub proof fn editable_nodes_are_listed_once(v: Seq<Seq<char>>, nodes: Map<Seq<char>, Tree>)
    requires
        lists_editable(v, nodes),
    ensures
        v == editable_of(nodes),
{
    let w = editable_of(nodes);
    assert forall|k: Seq<char>| #[trigger] v.contains(k) <==> w.contains(k) by {
        assert(w.contains(k) <==> nodes.contains_key(k) && is_editable(k));
    }
    lemma_ordered_lists_agree(v, w);
}

/// The editable nodes of the baseline, in order.
pub fn editable_nodes(baseline: &Json) -> (r: Checked<Vec<String>>)
    ensures
        match at(baseline@, "semantic,nodes"@) {
            Tree::Object(m) => r matches Ok(v) && lists_editable(texts(v@), m) && texts(v@)
                == editable_of(m),
            _ => failed(r, "baseline nodes absent"@),
        },
{
    match baseline.find("semantic,nodes") {
        Some(nodes) => match nodes {
            Json::Object(v) => {
                let mut out: Vec<String> = Vec::new();
                let mut i: usize = 0;
                proof {
                    assert(texts(out@) =~= seq![]);
                }
                while i < v.len()
                    invariant
                        i <= v.len(),
                        in_order(texts(out@)),
                        forall|k: Seq<char>| #[trigger]
                            texts(out@).contains(k) <==> is_editable(k) && exists|j: int|
                                #![trigger v@[j]]
                                0 <= j < i && v@[j].0@ == k,
                    decreases v.len() - i,
                {
                    let ghost before = texts(out@);
                    if starts_with(v[i].0.as_str(), "repair.") {
                        file_text(&mut out, v[i].0.as_str());
                    }
                    proof {
                        assert forall|k: Seq<char>| #[trigger]
                            texts(out@).contains(k) <==> is_editable(k) && exists|j: int|
                                #![trigger v@[j]]
                                0 <= j < i + 1 && v@[j].0@ == k by {
                            assert(before.contains(k) <==> is_editable(k) && exists|j: int|
                                #![trigger v@[j]]
                                0 <= j < i && v@[j].0@ == k);
                            if is_editable(k) && exists|j: int|
                                #![trigger v@[j]]
                                0 <= j < i + 1 && v@[j].0@ == k {
                                let j = choose|j: int|
                                    #![trigger v@[j]]
                                    0 <= j < i + 1 && v@[j].0@ == k;
                                if j < i as int {
                                    assert(before.contains(k));
                                }
                            }
                            assert(v@[i as int].0@ == v@[i as int].0@);
                        }
                    }
                    i = i + 1;
                }
                proof {
                    assert forall|k: Seq<char>| #[trigger]
                        texts(out@).contains(k) <==> entries(v@).contains_key(k) && is_editable(
                            k,
                        ) by {
                        lemma_keys(v@, k);
                    }
                    editable_nodes_are_listed_once(texts(out@), entries(v@));
                }
                Ok(out)
            },
            _ => Err(failure("baseline nodes absent")),
        },
        None => Err(failure("baseline nodes absent")),
    }
}

/// What a list of texts is rendered as by `serde_json::to_string`.
pub uninterp spec fn rendered_texts(v: Seq<Seq<char>>) -> Result<Seq<char>, Seq<char>>;

pub open spec fn rendering(r: Result<String, String>) -> Result<Seq<char>, Seq<char>> {
    match r {
        Ok(t) => Ok(t@),
        Err(e) => Err(e@),
    }
}

/// Calls `serde_json::to_string` on a list of texts: its JSON text, or the rendered error. The
/// contract claims that it depends on the texts alone.
#[verifier::external_body]
fn render_texts(v: &Vec<String>) -> (r: Result<String, String>)
    ensures
        rendering(r) == rendered_texts(texts(v@)),
{
    match serde_json::to_string(v) {
        Ok(rendered) => Ok(rendered),
        Err(error) => Err(error.to_string()),
    }
}

/// What the model is asked, up to the baseline's identity.
pub const PROMPT_TASK: &'static str = "Propose one evidence-supported reusable Slotbook method change. The problem is that unclear planning can produce contradictory implementation and avoidable repair. Read the explicitly selected source artifacts. The source failure and repair are labeled deterministic native fixtures, not your or another model's past choices. Missing model decisions remain unknown. You may change only the governed editable region; preserve its agreement, verifier nodes, interfaces, obligations and all fixed bounds. Do not prescribe or optimize toward unseen test cases. A planning responsibility is a hypothesis, not a required node, name or answer. Cite exact selected source artifact identities for the decisions, contradiction, failed checks and repair. State expected benefit in rationale, applicability/unchanged obligations in assumptions, and disconfirming evidence in risk_notes. Return the structured proposal_document_json string containing a schema_version:1 draft object with fields identity, proposer, provenance, workflow, run, base_revision, base_digest, observed_run_sequence, mutation, rationale, rationale_artifact, risk_notes, assumptions, evidence, artifacts, application_policy, requested_action, claimed_stop. Use identity learning-candidate, proposer agent:slotbook-learner, provenance {\"type\":\"direct\"}, workflow slotbook-learning, run null, base_revision ";

/// Between the baseline's identity and its digest.
pub const PROMPT_BASE: &'static str = ", base_digest ";

/// What the draft holds.
pub const PROMPT_DRAFT: &'static str = ", observed_run_sequence null, mutation an array of ordinary blueprint mutations, rationale_artifact null, evidence an array of {\"kind\":\"worker_observation\",\"id\":\"EXACT_SELECTED_ARTIFACT_ID\"}, artifacts [], application_policy propose_only, requested_action null, claimed_stop complete. Do not change the declaration or claim a test pass. The current complete reusable blueprint and actual source evidence follow as separately selected context. The metric is fewer failed verification submissions under identical obligations, with no regression and at least two fewer repairs in the fixed comparison. A new name or extra prose alone is insufficient.";

/// How the proposal is written.
pub const PROMPT_CONTRACT: &'static str = " Authoring contract: proposal_document_json must encode exactly {\"schema_version\":1,\"draft\":{...the fields above...}}. risk_notes and assumptions are arrays of strings. Mutation operations use a type tag: {\"type\":\"replace_node\",\"node\":COMPLETE_NODE}, {\"type\":\"add_node\",\"node\":COMPLETE_NODE}, {\"type\":\"remove_node\",\"node\":EXISTING_ID}, {\"type\":\"add_edge\",\"edge\":COMPLETE_EDGE}, {\"type\":\"remove_edge\",\"edge\":EXISTING_ID}, or replace_edge with a complete edge. These are not JSON Patch operations. Preserve the node and edge schemas visible in the complete baseline. New task nodes require an existing permitted capability requirement and executable configuration; an invented responsibility or node kind is not executable. Copy an existing node's full fields when proposing its replacement. The six immutable verify-related obligations and terminal interface must remain unchanged. This schema guidance does not prescribe a mutation or hypothesis.";

/// Up to the editable nodes.
pub const PROMPT_EDITABLE: &'static str = " Distinguish historical source methods from the current reusable baseline. Existing editable nodes in the current baseline are exactly ";

/// Up to the permitted citations.
pub const PROMPT_CITATIONS: &'static str = ". A replace_node operation must name one of these existing nodes; historical repair.begin/repair.end nodes are not in this baseline. The permitted artifact citation IDs are ";

/// The structural constraints that close the request.
pub const PROMPT_CLOSE: &'static str = ". Cite these IDs, not a verifier identity or digest mentioned inside their content. Keep rationale below 2048 bytes. All argv values must be strings in a closed JSON array; stdout_artifact is a sibling field after that array. Return syntactically valid JSON inside proposal_document_json. These structural constraints do not select a method change.";

/// What the model is asked.
pub open spec fn asked_proposal(
    id: Seq<char>,
    digest: Seq<char>,
    editable: Seq<char>,
    citations: Seq<char>,
) -> Seq<char> {
    PROMPT_TASK@ + id + PROMPT_BASE@ + digest + PROMPT_DRAFT@ + PROMPT_CONTRACT@ + PROMPT_EDITABLE@
        + editable + PROMPT_CITATIONS@ + citations + PROMPT_CLOSE@
}

/// The request with its rendered parts.
pub fn written_prompt(baseline: &Json, editable: &str, citations: &str) -> (r: Checked<String>)
    ensures
        match at(baseline@, "id"@) {
            Tree::Text(id) => match at(baseline@, "content_digest"@) {
                Tree::Text(digest) => r matches Ok(t) && t@ == asked_proposal(
                    id,
                    digest,
                    editable@,
                    citations@,
                ),
                _ => failed(r, "expected string in product response"@),
            },
            _ => failed(r, "expected string in product response"@),
        },
{
    let id: String = text(&baseline.get("id"))?;
    let digest: String = text(&baseline.get("content_digest"))?;
    let base: String = joined3(PROMPT_TASK, id.as_str(), PROMPT_BASE);
    let draft: String = joined3(base.as_str(), digest.as_str(), PROMPT_DRAFT);
    let contract: String = joined3(draft.as_str(), PROMPT_CONTRACT, PROMPT_EDITABLE);
    let region: String = joined3(contract.as_str(), editable, PROMPT_CITATIONS);
    Ok(joined3(region.as_str(), citations, PROMPT_CLOSE))
}

/// The request for one proposal on a baseline, or why there is none.
pub open spec fn prompt_of(baseline: Tree, citations: Seq<char>) -> Result<Seq<char>, Seq<char>> {
    match at(baseline, "id"@) {
        Tree::Text(id) => match at(baseline, "content_digest"@) {
            Tree::Text(digest) => match at(baseline, "semantic,nodes"@) {
                Tree::Object(m) => match rendered_texts(editable_of(m)) {
                    Ok(editable) => Ok(asked_proposal(id, digest, editable, citations)),
                    Err(e) => Err(e),
                },
                _ => Err("baseline nodes absent"@),
            },
            _ => Err("expected string in product response"@),
        },
        _ => Err("expected string in product response"@),
    }
}

/// The request for one proposal on the baseline. `citations` are the rendered identities of the
/// selected artifacts.
pub fn prompt(baseline: &Json, citations: &str) -> (r: Checked<String>)
    ensures
        checked_text(r) == prompt_of(baseline@, citations@),
{
    text(&baseline.get("id"))?;
    text(&baseline.get("content_digest"))?;
    let nodes: Vec<String> = editable_nodes(baseline)?;
    match render_texts(&nodes) {
        Ok(editable) => written_prompt(baseline, editable.as_str(), citations),
        Err(error) => Err(failure(error.as_str())),
    }
}

/// The identities that a proposal may cite.
pub open spec fn cited(l: Seq<Tree>) -> Seq<Tree> {
    l.map_values(|a: Tree| at(a, "artifact"@))
}

fn identities(document: &Json, path: &str) -> (r: Json)
    requires
        at(document@, path@) is List,
    ensures
        r@ == Tree::List(cited(items(document@, path@))),
{
    let ghost l = items(document@, path@);
    let n: usize = document.count(path);
    let mut v: Vec<Json> = Vec::new();
    let mut i: usize = 0;
    proof {
        assert(json_views(v@) =~= cited(l).take(0));
    }
    while i < n
        invariant
            i <= n,
            n == l.len(),
            l == items(document@, path@),
            at(document@, path@) is List,
            json_views(v@) == cited(l).take(i as int),
        decreases n - i,
    {
        let next: Json = document.item(path, i).get("artifact");
        proof {
            assert(cited(l).take(i + 1) =~= cited(l).take(i as int).push(next@));
        }
        push(&mut v, next);
        i = i + 1;
    }
    proof {
        assert(cited(l).take(n as int) =~= cited(l));
    }
    listed(v)
}

pub fn citations(selection: &Json) -> (r: Checked<Json>)
    ensures
        match at(selection@, "selection,artifacts"@) {
            Tree::List(l) => document_result(r) == Ok::<Tree, Seq<char>>(Tree::List(cited(l))),
            _ => failed(r, "selected artifacts absent"@),
        },
{
    ensure(selection.is_list("selection,artifacts"), "selected artifacts absent")?;
    Ok(identities(selection, "selection,artifacts"))
}

/// The sources that the model sees: the selection itself, its guidance and its artifacts.
pub open spec fn shown_sources(selection: Tree) -> Seq<Tree> {
    seq![at(selection, "artifact"@), at(selection, "selection,guidance"@)] + items(
        selection,
        "selection,artifacts"@,
    )
}

pub fn sources(selection: &Json) -> (r: Checked<Json>)
    ensures
        if at(selection@, "selection,artifacts"@) is List {
            document_result(r) == Ok::<Tree, Seq<char>>(Tree::List(shown_sources(selection@)))
        } else {
            failed(r, "source artifacts absent"@)
        },
{
    ensure(selection.is_list("selection,artifacts"), "source artifacts absent")?;
    let ghost l = items(selection@, "selection,artifacts"@);
    let ghost head = seq![at(selection@, "artifact"@), at(selection@, "selection,guidance"@)];
    let n: usize = selection.count("selection,artifacts");
    let mut v: Vec<Json> = Vec::new();
    proof {
        assert(json_views(v@) =~= seq![]);
    }
    push(&mut v, selection.get("artifact"));
    push(&mut v, selection.get("selection,guidance"));
    let mut i: usize = 0;
    proof {
        assert(json_views(v@) =~= head + l.take(0));
    }
    while i < n
        invariant
            i <= n,
            n == l.len(),
            l == items(selection@, "selection,artifacts"@),
            at(selection@, "selection,artifacts"@) is List,
            json_views(v@) == head + l.take(i as int),
        decreases n - i,
    {
        let next: Json = selection.item("selection,artifacts", i).copy();
        proof {
            assert(head + l.take(i + 1) =~= (head + l.take(i as int)).push(next@));
        }
        push(&mut v, next);
        i = i + 1;
    }
    proof {
        assert(l.take(n as int) =~= l);
        assert(json_views(v@) =~= shown_sources(selection@));
    }
    Ok(listed(v))
}

/// The artifacts that the learner may read: what the model saw, its response and its context.
pub fn authorized_artifacts(sources: &Json, response: &Json, attempt: &Json) -> (r: Json)
    requires
        sources@ is List,
    ensures
        r@ == Tree::List(
            cited(sources@->List_0).push(at(response@, "artifact_id"@)).push(
                at(attempt@, "context_manifest,artifact_id"@),
            ),
        ),
{
    proof {
        crate::json::lemma_root(sources@);
    }
    identities(sources, "").and(response.get("artifact_id")).and(
        attempt.get("context_manifest,artifact_id"),
    )
}

/// The data input of one shown source. `rendered` is the source's JSON text.
pub open spec fn source_port(rendered: Seq<char>) -> Tree {
    port_tree(
        "Input"@,
        artifact_tree(),
        Tree::Object(
            map![
                "type"@ => Tree::Text("artifact"@),
                "reference"@ => Tree::Text(rendered),
                "contract"@ => artifact_tree(),
            ],
        ),
        true,
    )
}

/// The data inputs with the first `n` sources.
pub open spec fn with_source_ports(inputs: Tree, rendered: Seq<Seq<char>>, n: int) -> Tree
    decreases n,
{
    if n <= 0 {
        inputs
    } else {
        with(
            with_source_ports(inputs, rendered, n - 1),
            "source-"@ + decimal((n - 1) as nat),
            source_port(rendered[n - 1]),
        )
    }
}

/// The data inputs of the proposing step with its sources, each under its own name.
pub fn with_sources(inputs: Json, rendered: &Vec<String>) -> (r: Json)
    requires
        inputs@ is Object,
    ensures
        r@ == with_source_ports(inputs@, texts(rendered@), rendered@.len() as int),
{
    let ghost start = inputs@;
    let mut out: Json = inputs;
    let mut i: usize = 0;
    while i < rendered.len()
        invariant
            i <= rendered.len(),
            out@ == with_source_ports(start, texts(rendered@), i as int),
            out@ is Object,
        decreases rendered.len() - i,
    {
        let binding: Json = Json::object().with("type", Json::text("artifact")).with(
            "reference",
            Json::text(rendered[i].as_str()),
        ).with("contract", artifact_schema());
        let name: String = joined("source-", number_text(i as u64).as_str());
        proof {
            assert(texts(rendered@)[i as int] == rendered@[i as int]@);
        }
        out = out.with(name.as_str(), port("Input", artifact_schema(), binding, true));
        i = i + 1;
    }
    out
}

/// The mutations that create a workflow of one proposing step and its end.
pub open spec fn proposing_tree(model: Tree) -> Tree {
    Tree::List(
        seq![
            added(model),
            added(node_tree("done"@, terminal_kind(), true, false, no_entries(), no_entries())),
            mutation_tree(
                "add_edge"@,
                "edge"@,
                edge_tree("finish"@, "model"@, "done"@, "control"@, "next"@, "in"@),
            ),
        ],
    )
}


/// The mutations that create the proposing workflow.
pub fn proposal_mutations(model: Json) -> (r: Json)
    ensures
        r@ == proposing_tree(model@),
{
    let kind: Json = Json::object().with("type", Json::text("terminal")).with(
        "outcome",
        Json::text("success"),
    );
    let first: Json = Json::object().with("type", Json::text("add_node")).with("node", model);
    let second: Json = Json::object().with("type", Json::text("add_node")).with(
        "node",
        node("done", kind, true, false),
    );
    let third: Json = Json::object().with("type", Json::text("add_edge")).with(
        "edge",
        edge("finish", "model", "done", "control", "next", "in"),
    );
    let r: Json = Json::list().and(first).and(second).and(third);
    proof {
        assert(r@->List_0 =~= seq![
            added(model@),
            added(node_tree("done"@, terminal_kind(), true, false, no_entries(), no_entries())),
            mutation_tree(
                "add_edge"@,
                "edge"@,
                edge_tree("finish"@, "model"@, "done"@, "control"@, "next"@, "in"@),
            ),
        ]);
    }
    r
}

/// Where a retained proposal comes from.
pub open spec fn provenance_tree(attempt: Tree, response: Tree) -> Tree {
    Tree::Object(
        map![
            "type"@ => Tree::Text("model"@),
            "capability"@ => Tree::Text(MODEL@),
            "invocation"@ => at(attempt, "invocation_id"@),
            "model_profile"@ => at(attempt, "provider_profile"@),
            "context_manifest"@ => reference_tree(
                "identity"@,
                at(at(attempt, "context_manifest"@), "artifact_id"@),
                at(at(attempt, "context_manifest"@), "digest"@),
                at(at(attempt, "context_manifest"@), "content_type"@),
                at(at(attempt, "context_manifest"@), "size"@),
            ),
            "response_artifact"@ => reference_tree(
                "identity"@,
                at(response, "artifact_id"@),
                at(response, "digest"@),
                at(response, "content_type"@),
                at(response, "size"@),
            ),
        ],
    )
}

pub fn provenance(attempt: &Json, response: &Json) -> (r: Json)
    ensures
        r@ == provenance_tree(attempt@, response@),
{
    Json::object().with("type", Json::text("model")).with("capability", Json::text(MODEL)).with(
        "invocation",
        attempt.get("invocation_id"),
    ).with("model_profile", attempt.get("provider_profile")).with(
        "context_manifest",
        metadata_reference(&attempt.get("context_manifest")),
    ).with("response_artifact", metadata_reference(response))
}

/// An object without one of its keys.
fn without(v: &Vec<(String, Json)>, key: &str) -> (r: Json)
    ensures
        r@ == Tree::Object(entries(v@).remove(key@)),
{
    let mut out: Json = Json::object();
    let mut i: usize = 0;
    proof {
        assert(v@.take(0) =~= seq![]);
        assert(entries(v@.take(0)) =~= Map::empty());
        assert(Map::<Seq<char>, Tree>::empty().remove(key@) =~= Map::empty());
        assert(out@->Object_0 =~= Map::empty());
    }
    while i < v.len()
        invariant
            i <= v.len(),
            out@ == Tree::Object(entries(v@.take(i as int)).remove(key@)),
        decreases v.len() - i,
    {
        proof {
            assert(v@.take(i + 1).drop_last() =~= v@.take(i as int));
            assert(v@.take(i + 1).last() == v@[i as int]);
        }
        if !same_text(v[i].0.as_str(), key) {
            let ghost before = entries(v@.take(i as int));
            proof {
                assert(before.insert(v@[i as int].0@, v@[i as int].1@).remove(key@)
                    =~= before.remove(key@).insert(v@[i as int].0@, v@[i as int].1@));
            }
            out = out.with(v[i].0.as_str(), v[i].1.copy());
        } else {
            let ghost before = entries(v@.take(i as int));
            proof {
                assert(before.insert(key@, v@[i as int].1@).remove(key@) =~= before.remove(key@));
            }
        }
        i = i + 1;
    }
    proof {
        assert(v@.take(i as int) =~= v@);
    }
    out
}

/// A model's proposal as the learner's own candidate: its digest is dropped, and its author, its
/// identity, its provenance and its operations are fixed.
pub fn candidate_draft(proposal: &Json, provenance: Json, operations: Json) -> (r: Checked<Json>)
    ensures
        match proposal@ {
            Tree::Object(m) => document_result(r) == Ok::<Tree, Seq<char>>(
                with(
                    with(
                        with(
                            with(
                                Tree::Object(m.remove("digest"@)),
                                "proposer"@,
                                Tree::Text(LEARNER@),
                            ),
                            "identity"@,
                            Tree::Text("learning-candidate"@),
                        ),
                        "provenance"@,
                        provenance@,
                    ),
                    "mutation"@,
                    operations@,
                ),
            ),
            _ => failed(r, "proposal absent"@),
        },
{
    match proposal {
        Json::Object(v) => Ok(
            without(v, "digest").with("proposer", Json::text(LEARNER)).with(
                "identity",
                Json::text("learning-candidate"),
            ).with("provenance", provenance).with("mutation", operations),
        ),
        _ => Err(failure("proposal absent")),
    }
}

/// What a response that holds no proposal is kept as.
pub fn refusal(run: &str, response: &Json, reason: &str) -> (r: Json)
    ensures
        r@ == Tree::Object(
            map![
                "run"@ => Tree::Text(run@),
                "response"@ => response@,
                "outcome"@ => Tree::Text("invalid_proposal"@),
                "reason"@ => Tree::Text(reason@),
                "candidate_substituted"@ => Tree::Bool(false),
            ],
        ),
{
    Json::object().with("run", Json::text(run)).with("response", response.copy()).with(
        "outcome",
        Json::text("invalid_proposal"),
    ).with("reason", Json::text(reason)).with("candidate_substituted", Json::flag(false))
}

/// What a controlled response proposes.
#[derive(Clone, Copy)]
pub enum Mode {
    Useful,
    NoImprovement,
    Malformed,
    InventedEvidence,
    ForbiddenEdit,
}

pub const RATIONALE: &'static str = "Deterministic fixture hypothesis: applying the documented authenticated durable implementation before the first verifier avoids the seeded contradiction and repair.";

pub const RISK: &'static str = "This controlled response is not a model inference. Any failed check, paired regression or insufficient repair reduction counts against the hypothesis.";

pub const ASSUMPTION: &'static str = "Applicability is the native Slotbook template with its existing operator obligations; all fixed verifier nodes, interfaces, account bounds and target policies remain unchanged.";

/// The command of the first submission under a mode. One without improvement copies the seeded
/// defect again.
pub open spec fn proposed_argv(mode: Mode) -> Seq<Seq<char>> {
    match mode {
        Mode::NoImprovement => seq![
            "/bin/cp"@,
            "-f"@,
            "/fixtures/slotbook-seeded"@,
            "/workspace/app"@,
        ],
        _ => seq!["/bin/cp"@, "/fixtures/slotbook"@, "/workspace/app"@],
    }
}

pub open spec fn proposed_mutation(base: Tree, mode: Mode) -> Tree {
    Tree::List(
        seq![
            match mode {
                Mode::ForbiddenEdit => mutation_tree(
                    "remove_node"@,
                    "node"@,
                    Tree::Text("verify-1"@),
                ),
                _ => mutation_tree(
                    "replace_node"@,
                    "node"@,
                    placed(
                        at(base, "semantic,nodes,repair.build-1"@),
                        segments("data_inputs,command,binding,value,argv"@),
                        text_trees(proposed_argv(mode)),
                    ),
                ),
            },
        ],
    )
}

pub open spec fn observation_tree(id: Tree) -> Tree {
    with(with(no_entries(), "kind"@, Tree::Text("worker_observation"@)), "id"@, id)
}

pub open spec fn proposed_evidence(artifacts: Seq<Tree>, mode: Mode) -> Tree {
    match mode {
        Mode::InventedEvidence => Tree::List(
            seq![observation_tree(Tree::Text("invented-source"@))],
        ),
        _ => Tree::List(artifacts.map_values(|s: Tree| observation_tree(at(s, "artifact"@)))),
    }
}

pub open spec fn single_text(t: Seq<char>) -> Tree {
    text_trees(seq![t])
}

/// A controlled proposal on a base.
pub open spec fn draft_tree(base: Tree, mutation: Tree, evidence: Tree) -> Tree {
    Tree::Object(
        map![
            "identity"@ => Tree::Text("learning-candidate"@),
            "proposer"@ => Tree::Text(LEARNER@),
            "provenance"@ => with(no_entries(), "type"@, Tree::Text("direct"@)),
            "workflow"@ => Tree::Text("slotbook-learning"@),
            "run"@ => Tree::Null,
            "base_revision"@ => at(base, "id"@),
            "base_digest"@ => at(base, "content_digest"@),
            "observed_run_sequence"@ => Tree::Null,
            "mutation"@ => mutation,
            "rationale"@ => Tree::Text(RATIONALE@),
            "rationale_artifact"@ => Tree::Null,
            "risk_notes"@ => single_text(RISK@),
            "assumptions"@ => single_text(ASSUMPTION@),
            "evidence"@ => evidence,
            "artifacts"@ => Tree::List(seq![]),
            "application_policy"@ => Tree::Text("propose_only"@),
            "requested_action"@ => Tree::Null,
            "claimed_stop"@ => Tree::Text("complete"@),
        ],
    )
}

pub open spec fn proposal_tree(draft: Tree) -> Tree {
    with(with(no_entries(), "schema_version"@, Tree::Integer(1)), "draft"@, draft)
}

fn one_text(t: &str) -> (r: Json)
    ensures
        r@ == single_text(t@),
{
    let v: Vec<&str> = vec![t];
    proof {
        assert(words(v@) =~= seq![t@]);
    }
    text_list(&v)
}

fn proposal_of(draft: Json) -> (r: Json)
    ensures
        r@ == proposal_tree(draft@),
{
    Json::object().with("schema_version", Json::number(1)).with("draft", draft)
}

fn observation_of(id: Json) -> (r: Json)
    ensures
        r@ == observation_tree(id@),
{
    Json::object().with("kind", Json::text("worker_observation")).with("id", id)
}

fn evidence_of(selection: &Json) -> (r: Json)
    requires
        at(selection@, "artifacts"@) is List,
    ensures
        r@ == Tree::List(
            items(selection@, "artifacts"@).map_values(
                |s: Tree| observation_tree(at(s, "artifact"@)),
            ),
        ),
{
    let ghost l = items(selection@, "artifacts"@);
    let ghost wanted = l.map_values(|s: Tree| observation_tree(at(s, "artifact"@)));
    let n: usize = selection.count("artifacts");
    let mut v: Vec<Json> = Vec::new();
    let mut i: usize = 0;
    proof {
        assert(json_views(v@) =~= wanted.take(0));
    }
    while i < n
        invariant
            i <= n,
            n == l.len(),
            l == items(selection@, "artifacts"@),
            at(selection@, "artifacts"@) is List,
            wanted == l.map_values(|s: Tree| observation_tree(at(s, "artifact"@))),
            json_views(v@) == wanted.take(i as int),
        decreases n - i,
    {
        let next: Json = observation_of(selection.item("artifacts", i).get("artifact"));
        proof {
            assert(wanted.take(i + 1) =~= wanted.take(i as int).push(next@));
        }
        push(&mut v, next);
        i = i + 1;
    }
    proof {
        assert(wanted.take(n as int) =~= wanted);
    }
    listed(v)
}

/// The response of a mode to the baseline and the selection.
pub fn draft(base: &Json, selection: &Json, mode: Mode) -> (r: Checked<Json>)
    ensures
        match mode {
            Mode::Malformed => document_result(r) == Ok::<Tree, Seq<char>>(
                proposal_tree(no_entries()),
            ),
            _ => if !(at(
                at(base@, "semantic,nodes,repair.build-1"@),
                "data_inputs,command,binding,value,argv"@,
            ) is List) {
                failed(r, "fixture baseline has no native worker command"@)
            } else if !(mode is InventedEvidence) && !(at(selection@, "artifacts"@) is List) {
                failed(r, "fixture source artifacts absent"@)
            } else {
                document_result(r) == Ok::<Tree, Seq<char>>(
                    proposal_tree(
                        draft_tree(
                            base@,
                            proposed_mutation(base@, mode),
                            proposed_evidence(items(selection@, "artifacts"@), mode),
                        ),
                    ),
                )
            },
        },
{
    match mode {
        Mode::Malformed => {
            return Ok(proposal_of(Json::object()));
        },
        _ => {},
    }
    let build: Json = base.get("semantic,nodes,repair.build-1");
    ensure(
        build.is_list("data_inputs,command,binding,value,argv"),
        "fixture baseline has no native worker command",
    )?;
    proof {
        reveal(found);
        found_paths_take(build@, segments("data_inputs,command,binding,value,argv"@));
    }
    let argv: Vec<&str> = match mode {
        Mode::NoImprovement => vec![
            "/bin/cp",
            "-f",
            "/fixtures/slotbook-seeded",
            "/workspace/app",
        ],
        _ => vec!["/bin/cp", "/fixtures/slotbook", "/workspace/app"],
    };
    proof {
        assert(words(argv@) =~= proposed_argv(mode));
    }
    let edited: Json = build.set("data_inputs,command,binding,value,argv", text_list(&argv));
    let operation: Json = match mode {
        Mode::ForbiddenEdit => Json::object().with("type", Json::text("remove_node")).with(
            "node",
            Json::text("verify-1"),
        ),
        _ => Json::object().with("type", Json::text("replace_node")).with("node", edited),
    };
    let mutation: Json = Json::list().and(operation);
    proof {
        assert(mutation@->List_0 =~= proposed_mutation(base@, mode)->List_0);
    }
    let evidence: Json = match mode {
        Mode::InventedEvidence => {
            let invented: Json = Json::list().and(observation_of(Json::text("invented-source")));
            proof {
                assert(invented@->List_0 =~= seq![
                    observation_tree(Tree::Text("invented-source"@)),
                ]);
            }
            invented
        },
        _ => {
            ensure(selection.is_list("artifacts"), "fixture source artifacts absent")?;
            evidence_of(selection)
        },
    };
    let none: Json = Json::list();
    proof {
        assert(none@->List_0 =~= seq![]);
    }
    let written: Json = Json::object().with("identity", Json::text("learning-candidate")).with(
        "proposer",
        Json::text(LEARNER),
    ).with("provenance", Json::object().with("type", Json::text("direct"))).with(
        "workflow",
        Json::text("slotbook-learning"),
    ).with("run", Json::Null).with("base_revision", base.get("id")).with(
        "base_digest",
        base.get("content_digest"),
    ).with("observed_run_sequence", Json::Null).with("mutation", mutation).with(
        "rationale",
        Json::text(RATIONALE),
    ).with("rationale_artifact", Json::Null).with("risk_notes", one_text(RISK)).with(
        "assumptions",
        one_text(ASSUMPTION),
    ).with("evidence", evidence).with("artifacts", none).with(
        "application_policy",
        Json::text("propose_only"),
    ).with("requested_action", Json::Null).with("claimed_stop", Json::text("complete"));
    Ok(proposal_of(written))
}

/// Whether the controlled endpoint answers a request.
pub fn accept_request(request: &str) -> (r: Checked<()>)
    ensures
        if "POST /v1/chat/completions "@.is_prefix_of(request@) {
            r is Ok
        } else {
            failed(r, "fixture endpoint only accepts chat completions"@)
        },
{
    ensure(
        starts_with(request, "POST /v1/chat/completions "),
        "fixture endpoint only accepts chat completions",
    )
}

/// The completion that carries a controlled response. `content` is the rendered message.
pub fn completion(index: u8, content: &str) -> (r: Json)
    ensures
        r@ == Tree::Object(
            map![
                "id"@ => Tree::Text("slotbook-fixture-"@ + decimal(index as nat)),
                "model"@ => Tree::Text("learning-fixture"@),
                "choices"@ => Tree::List(
                    seq![
                        Tree::Object(
                            map![
                                "index"@ => Tree::Integer(0),
                                "message"@ => Tree::Object(
                                    map![
                                        "role"@ => Tree::Text("assistant"@),
                                        "content"@ => Tree::Text(content@),
                                    ],
                                ),
                                "finish_reason"@ => Tree::Text("stop"@),
                            ],
                        ),
                    ],
                ),
                "usage"@ => Tree::Object(
                    map![
                        "prompt_tokens"@ => Tree::Integer(1),
                        "completion_tokens"@ => Tree::Integer(1),
                        "total_tokens"@ => Tree::Integer(2),
                    ],
                ),
            ],
        ),
{
    let message: Json = Json::object().with("role", Json::text("assistant")).with(
        "content",
        Json::text(content),
    );
    let choice: Json = Json::object().with("index", Json::number(0)).with("message", message).with(
        "finish_reason",
        Json::text("stop"),
    );
    let choices: Json = Json::list().and(choice);
    proof {
        assert(choices@->List_0 =~= seq![choice@]);
    }
    let usage: Json = Json::object().with("prompt_tokens", Json::number(1)).with(
        "completion_tokens",
        Json::number(1),
    ).with("total_tokens", Json::number(2));
    Json::object().with(
        "id",
        Json::text(joined("slotbook-fixture-", number_text(index as u64).as_str()).as_str()),
    ).with("model", Json::text("learning-fixture")).with("choices", choices).with("usage", usage)
}

/// The files that one controlled exchange is kept under.
pub fn exchange_label(baseline: &Json, index: u8) -> (r: Checked<String>)
    ensures
        match at(baseline@, "id"@) {
            Tree::Text(id) => r matches Ok(t) && t@ == "fixture-"@ + id + "-"@ + decimal(
                index as nat,
            ),
            _ => failed(r, "expected string in product response"@),
        },
{
    let id: String = text(&baseline.get("id"))?;
    let head: String = joined3("fixture-", id.as_str(), "-");
    Ok(joined(head.as_str(), number_text(index as u64).as_str()))
}

/// Only the controlled edits of the editable region can pass: the forbidden one removes a
/// verifier, and no other names one.
pub proof fn useful_drafts_edit_the_first_submission(base: Tree, mode: Mode)
    requires
        !(mode is ForbiddenEdit),
    ensures
        proposed_mutation(base, mode)->List_0.len() == 1,
        at(
            proposed_mutation(base, mode)->List_0[0],
            "type"@,
        ) == Tree::Text("replace_node"@),
{
    let m = proposed_mutation(base, mode)->List_0[0];
    reveal_strlit("type");
    reveal_strlit("node");
    assert("type"@[0] != "node"@[0]);
    crate::json::keys_are_found(m, "type"@);
}

} // verus!
