//! The proposals of a learner, and the drafts that stand in for them.

use vstd::prelude::*;

use crate::failure::{failed, Checked};
use crate::json::{at, items, placed, segments, Json, Tree};
use crate::order::in_order;
use crate::slotbook::proposal::{
    accept_request, authorized_artifacts, candidate_draft, citations, completion, draft,
    editable_nodes, exchange_label, provenance, refusal, sources, with_source_ports,
    with_sources, Mode,
};
use crate::text::{decimal, texts};

verus! {

/// The editable nodes are those of the baseline whose names start in the repair region, in order.
pub proof fn repair_nodes_are_editable(
    baseline: &Json,
    name: Seq<char>,
    r: Checked<Vec<String>>,
)
    requires
        call_ensures(editable_nodes, (baseline,), r),
    ensures
        r is Ok <==> at(baseline@, "semantic,nodes"@) is Object,
        r is Err ==> failed(r, "baseline nodes absent"@),
        r matches Ok(v) ==> in_order(texts(v@)) && (texts(v@).contains(name) <==> at(
            baseline@,
            "semantic,nodes"@,
        )->Object_0.contains_key(name) && "repair."@.is_prefix_of(name)),
{
}

/// The citations are the artifacts of the selection, one each.
pub proof fn selected_artifacts_are_cited(selection: &Json, i: int, r: Checked<Json>)
    requires
        call_ensures(citations, (selection,), r),
    ensures
        r is Ok <==> at(selection@, "selection,artifacts"@) is List,
        r is Err ==> failed(r, "selected artifacts absent"@),
        r matches Ok(j) ==> {
            let l = items(selection@, "selection,artifacts"@);
            &&& j@ is List
            &&& j@->List_0.len() == l.len()
            &&& 0 <= i < l.len() ==> j@->List_0[i] == at(l[i], "artifact"@)
        },
{
}

/// The sources are the selection itself, its guidance and its artifacts.
pub proof fn sources_are_the_selection(selection: &Json, r: Checked<Json>)
    requires
        call_ensures(sources, (selection,), r),
    ensures
        r is Ok <==> at(selection@, "selection,artifacts"@) is List,
        r is Err ==> failed(r, "source artifacts absent"@),
        r matches Ok(j) ==> j@ == Tree::List(
            seq![at(selection@, "artifact"@), at(selection@, "selection,guidance"@)] + items(
                selection@,
                "selection,artifacts"@,
            ),
        ),
{
}

/// What a proposal may cite: its sources, then its response and the context of its attempt.
pub proof fn proposals_may_cite(
    shown: &Json,
    response: &Json,
    attempt: &Json,
    i: int,
    r: Json,
)
    requires
        call_ensures(authorized_artifacts, (shown, response, attempt), r),
        shown@ is List,
    ensures
        ({
            let l = shown@->List_0;
            let n = l.len() as int;
            &&& r@ is List
            &&& r@->List_0.len() == n + 2
            &&& 0 <= i < n ==> r@->List_0[i] == at(l[i], "artifact"@)
            &&& r@->List_0[n] == at(response@, "artifact_id"@)
            &&& r@->List_0[n + 1] == at(attempt@, "context_manifest,artifact_id"@)
        }),
{
}

/// Each source has a port of its own behind those before it, numbered from zero.
pub proof fn sources_have_ports(inputs: Json, rendered: &Vec<String>, n: int, r: Json)
    requires
        call_ensures(with_sources, (inputs, rendered), r),
        inputs@ is Object,
        0 < n <= rendered@.len(),
    ensures
        r@ == with_source_ports(inputs@, texts(rendered@), rendered@.len() as int),
        with_source_ports(inputs@, texts(rendered@), 0) == inputs@,
        with_source_ports(inputs@, texts(rendered@), n) == Tree::Object(
            with_source_ports(inputs@, texts(rendered@), n - 1)->Object_0.insert(
                "source-"@ + decimal((n - 1) as nat),
                Tree::Object(
                    map![
                        "direction"@ => Tree::Text("Input"@),
                        "schema"@ => artifact_schema_tree(),
                        "binding"@ => Tree::Object(
                            map![
                                "type"@ => Tree::Text("artifact"@),
                                "reference"@ => Tree::Text(rendered@[n - 1]@),
                                "contract"@ => artifact_schema_tree(),
                            ],
                        ),
                        "required"@ => Tree::Bool(true),
                    ],
                ),
            ),
        ),
{
    assert(texts(rendered@)[n - 1] == rendered@[n - 1]@);
}

/// The schema of a reference to an artifact.
pub open spec fn artifact_schema_tree() -> Tree {
    Tree::Object(
        map![
            "id"@ => Tree::Text("milkdrift.artifact-reference"@),
            "version"@ => Tree::Integer(1),
        ],
    )
}

/// What a model proposed is told with its invocation, its profile, its context and its response.
pub proof fn provenance_is_of_the_model(attempt: &Json, response: &Json, r: Json)
    requires
        call_ensures(provenance, (attempt, response), r),
    ensures
        r@ == Tree::Object(
            map![
                "type"@ => Tree::Text("model"@),
                "capability"@ => Tree::Text("slotbook-learning-model"@),
                "invocation"@ => at(attempt@, "invocation_id"@),
                "model_profile"@ => at(attempt@, "provider_profile"@),
                "context_manifest"@ => Tree::Object(
                    map![
                        "identity"@ => at(at(attempt@, "context_manifest"@), "artifact_id"@),
                        "digest"@ => at(at(attempt@, "context_manifest"@), "digest"@),
                        "media_type"@ => at(at(attempt@, "context_manifest"@), "content_type"@),
                        "size_bytes"@ => at(at(attempt@, "context_manifest"@), "size"@),
                    ],
                ),
                "response_artifact"@ => Tree::Object(
                    map![
                        "identity"@ => at(response@, "artifact_id"@),
                        "digest"@ => at(response@, "digest"@),
                        "media_type"@ => at(response@, "content_type"@),
                        "size_bytes"@ => at(response@, "size"@),
                    ],
                ),
            ],
        ),
{
}

/// A candidate is the proposal under the learner's name and one identity, with its provenance and
/// its operations, and without the digest it had; everything else stands.
pub proof fn candidates_are_the_learners(
    proposal: &Json,
    origin: Json,
    operations: Json,
    key: Seq<char>,
    r: Checked<Json>,
)
    requires
        call_ensures(candidate_draft, (proposal, origin, operations), r),
    ensures
        r is Ok <==> proposal@ is Object,
        r is Err ==> failed(r, "proposal absent"@),
        r matches Ok(j) ==> {
            let before = proposal@->Object_0;
            let after = j@->Object_0;
            &&& j@ is Object
            &&& !after.contains_key("digest"@)
            &&& after["proposer"@] == Tree::Text("agent:slotbook-learner"@)
            &&& after["identity"@] == Tree::Text("learning-candidate"@)
            &&& after["provenance"@] == origin@
            &&& after["mutation"@] == operations@
            &&& key != "digest"@ && key != "proposer"@ && key != "identity"@ && key
                != "provenance"@ && key != "mutation"@ ==> after.contains_key(key)
                == before.contains_key(key) && (before.contains_key(key) ==> after[key]
                == before[key])
        },
{
    reveal_strlit("digest");
    reveal_strlit("proposer");
    reveal_strlit("identity");
    reveal_strlit("provenance");
    reveal_strlit("mutation");
    assert("digest"@.len() == 6 && "proposer"@.len() == 8 && "identity"@.len() == 8
        && "provenance"@.len() == 10 && "mutation"@.len() == 8);
    assert("proposer"@[0] == 'p' && "identity"@[0] == 'i' && "mutation"@[0] == 'm');
}

/// A refused proposal is told with its run, its response and the reason, and nothing stands in for
/// it.
pub proof fn refusals_substitute_nothing(run: &str, response: &Json, reason: &str, r: Json)
    requires
        call_ensures(refusal, (run, response, reason), r),
    ensures
        r@ == Tree::Object(
            map![
                "run"@ => Tree::Text(run@),
                "response"@ => response@,
                "outcome"@ => Tree::Text("invalid_proposal"@),
                "reason"@ => Tree::Text(reason@),
                "candidate_substituted"@ => Tree::Bool(false),
            ],
        ),
{
}

/// A malformed draft is empty.
pub proof fn malformed_drafts_are_empty(base: &Json, selection: &Json, r: Checked<Json>)
    requires
        call_ensures(draft, (base, selection, Mode::Malformed), r),
    ensures
        r matches Ok(j) && j@ == Tree::Object(
            map!["schema_version"@ => Tree::Integer(1), "draft"@ => Tree::Object(map![])],
        ),
{
}

/// A draft edits one node of the baseline, or removes a verifier where it is the forbidden one; it
/// cites every artifact of the selection, or one that was invented.
pub proof fn drafts_edit_and_cite(
    base: &Json,
    selection: &Json,
    mode: Mode,
    i: int,
    r: Checked<Json>,
)
    requires
        call_ensures(draft, (base, selection, mode), r),
        !(mode is Malformed),
    ensures
        r is Ok <==> at(
            at(base@, "semantic,nodes,repair.build-1"@),
            "data_inputs,command,binding,value,argv"@,
        ) is List && (mode is InventedEvidence || at(selection@, "artifacts"@) is List),
        r matches Ok(j) ==> {
            let d = j@->Object_0["draft"@]->Object_0;
            let l = items(selection@, "artifacts"@);
            let cited = d["evidence"@]->List_0;
            &&& j@->Object_0["schema_version"@] == Tree::Integer(1)
            &&& d["identity"@] == Tree::Text("learning-candidate"@)
            &&& d["workflow"@] == Tree::Text("slotbook-learning"@)
            &&& d["base_revision"@] == at(base@, "id"@)
            &&& d["base_digest"@] == at(base@, "content_digest"@)
            &&& d["application_policy"@] == Tree::Text("propose_only"@)
            &&& d["claimed_stop"@] == Tree::Text("complete"@)
            &&& mode is ForbiddenEdit ==> d["mutation"@] == Tree::List(
                seq![
                    Tree::Object(
                        map![
                            "type"@ => Tree::Text("remove_node"@),
                            "node"@ => Tree::Text("verify-1"@),
                        ],
                    ),
                ],
            )
            &&& !(mode is ForbiddenEdit) ==> d["mutation"@] == Tree::List(
                seq![
                    Tree::Object(
                        map![
                            "type"@ => Tree::Text("replace_node"@),
                            "node"@ => placed(
                                at(base@, "semantic,nodes,repair.build-1"@),
                                segments("data_inputs,command,binding,value,argv"@),
                                if mode is NoImprovement {
                                    Tree::List(
                                        seq![
                                            Tree::Text("/bin/cp"@),
                                            Tree::Text("-f"@),
                                            Tree::Text("/fixtures/slotbook-seeded"@),
                                            Tree::Text("/workspace/app"@),
                                        ],
                                    )
                                } else {
                                    Tree::List(
                                        seq![
                                            Tree::Text("/bin/cp"@),
                                            Tree::Text("/fixtures/slotbook"@),
                                            Tree::Text("/workspace/app"@),
                                        ],
                                    )
                                },
                            ),
                        ],
                    ),
                ],
            )
            &&& mode is InventedEvidence ==> cited.len() == 1 && cited[0] == Tree::Object(
                map![
                    "kind"@ => Tree::Text("worker_observation"@),
                    "id"@ => Tree::Text("invented-source"@),
                ],
            )
            &&& !(mode is InventedEvidence) ==> cited.len() == l.len() && (0 <= i < l.len()
                ==> cited[i] == Tree::Object(
                map![
                    "kind"@ => Tree::Text("worker_observation"@),
                    "id"@ => at(l[i], "artifact"@),
                ],
            ))
        },
{
    reveal_strlit("schema_version");
    reveal_strlit("draft");
    assert("schema_version"@.len() == 14 && "draft"@.len() == 5);
    lemma_draft_keys();
    if r is Ok {
        let argv = crate::slotbook::proposal::proposed_argv(mode);
        let t = crate::slotbook::method::text_trees(argv)->List_0;
        if mode is NoImprovement {
            assert(t =~= seq![
                Tree::Text("/bin/cp"@),
                Tree::Text("-f"@),
                Tree::Text("/fixtures/slotbook-seeded"@),
                Tree::Text("/workspace/app"@),
            ]);
        } else {
            assert(t =~= seq![
                Tree::Text("/bin/cp"@),
                Tree::Text("/fixtures/slotbook"@),
                Tree::Text("/workspace/app"@),
            ]);
        }
    }
}

proof fn lemma_draft_keys()
    ensures
        "identity"@ != "workflow"@ && "identity"@ != "evidence"@ && "identity"@ != "mutation"@
            && "identity"@ != "proposer"@ && "workflow"@ != "evidence"@ && "workflow"@
            != "mutation"@ && "evidence"@ != "mutation"@ && "proposer"@ != "workflow"@
            && "proposer"@ != "evidence"@ && "proposer"@ != "mutation"@,
        "identity"@.len() == 8 && "workflow"@.len() == 8 && "evidence"@.len() == 8
            && "mutation"@.len() == 8 && "proposer"@.len() == 8,
        "provenance"@.len() == 10 && "risk_notes"@.len() == 10 && "provenance"@ != "risk_notes"@,
        "run"@.len() == 3,
        "base_revision"@.len() == 13,
        "base_digest"@.len() == 11 && "assumptions"@.len() == 11 && "base_digest"@
            != "assumptions"@,
        "observed_run_sequence"@.len() == 21,
        "rationale"@.len() == 9 && "artifacts"@.len() == 9 && "rationale"@ != "artifacts"@,
        "rationale_artifact"@.len() == 18 && "application_policy"@.len() == 18
            && "rationale_artifact"@ != "application_policy"@,
        "requested_action"@.len() == 16,
        "claimed_stop"@.len() == 12,
{
    reveal_strlit("identity");
    reveal_strlit("workflow");
    reveal_strlit("evidence");
    reveal_strlit("mutation");
    reveal_strlit("proposer");
    reveal_strlit("provenance");
    reveal_strlit("risk_notes");
    reveal_strlit("run");
    reveal_strlit("base_revision");
    reveal_strlit("base_digest");
    reveal_strlit("assumptions");
    reveal_strlit("observed_run_sequence");
    reveal_strlit("rationale");
    reveal_strlit("artifacts");
    reveal_strlit("rationale_artifact");
    reveal_strlit("application_policy");
    reveal_strlit("requested_action");
    reveal_strlit("claimed_stop");
    assert("identity"@[0] == 'i' && "workflow"@[0] == 'w' && "evidence"@[0] == 'e'
        && "mutation"@[0] == 'm' && "proposer"@[0] == 'p');
    assert("provenance"@[0] == 'p' && "risk_notes"@[0] == 'r');
    assert("base_digest"@[0] == 'b' && "assumptions"@[0] == 'a');
    assert("rationale"@[0] == 'r' && "artifacts"@[0] == 'a');
    assert("rationale_artifact"@[0] == 'r' && "application_policy"@[0] == 'a');
}

/// The controlled endpoint takes chat completions alone.
pub proof fn completions_are_requested(request: &str, r: Checked<()>)
    requires
        call_ensures(accept_request, (request,), r),
    ensures
        r is Ok <==> "POST /v1/chat/completions "@.is_prefix_of(request@),
        r is Err ==> failed(r, "fixture endpoint only accepts chat completions"@),
{
}

/// A completion is one message of the assistant that says the content and stops.
pub proof fn completions_say_their_content(index: u8, content: &str, r: Json)
    requires
        call_ensures(completion, (index, content), r),
    ensures
        r@ == Tree::Object(
            map![
                "id"@ => Tree::Text("slotbook-fixture-"@ + decimal(index as nat)),
                "model"@ => Tree::Text("learning-fixture"@),
                "choices"@ => Tree::List(
                    seq![
                        Tree::Object(
                            map![
                                "index"@ => Tree::Integer(0),
                                "message"@ => Tree::Object(
                                    map![
                                        "role"@ => Tree::Text("assistant"@),
                                        "content"@ => Tree::Text(content@),
                                    ],
                                ),
                                "finish_reason"@ => Tree::Text("stop"@),
                            ],
                        ),
                    ],
                ),
                "usage"@ => Tree::Object(
                    map![
                        "prompt_tokens"@ => Tree::Integer(1),
                        "completion_tokens"@ => Tree::Integer(1),
                        "total_tokens"@ => Tree::Integer(2),
                    ],
                ),
            ],
        ),
{
}

/// An exchange is kept under the baseline's identity and its own number.
pub proof fn exchanges_are_labelled(baseline: &Json, index: u8, r: Checked<String>)
    requires
        call_ensures(exchange_label, (baseline, index), r),
    ensures
        at(baseline@, "id"@) matches Tree::Text(id) ==> (r matches Ok(t) && t@ == "fixture-"@ + id
            + "-"@ + decimal(index as nat)),
        !(at(baseline@, "id"@) is Text) ==> failed(r, "expected string in product response"@),
{
}

} // verus!
