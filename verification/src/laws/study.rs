//! The study of a method: its slots, its phases, its comparison and what is told of them.

use vstd::prelude::*;

use crate::application::words;
use crate::failure::{failed, Checked};
use crate::json::{at, items, placed, segments, takes, Json, Tree};
use crate::slotbook::client::{
    call_arguments, command_environment, log_label, number, response_lines, response_lines_of, text,
    timeout_secs, Caller, InvocationMode,
};
use crate::slotbook::learning::{
    admit_learner, artifacts, cap_reference, captured, captured_from, check_attempt, check_network,
    command_result, including, metadata_reference, operator_of, output, receipt, retain,
    slot_declaration, study_receipt, uploaded_reference, Attempt,
};
use crate::slotbook::study::{
    application, approval, cases, containerfile, descriptor_from, eligible, evaluation_key,
    grant_slot, held_out_view, next_phase, note, pages, pair, product_document, selected, slot_document,
    slot_grant, slot_port, slots, trust_slot, variant_document, variant_inputs, worker_descriptor,
    worker_inputs, HeldOut, Phase,
};
use crate::text::{decimal, lines_of, texts, trimmed};

verus! {

/// An application is its resource, its capacity and its notice.
pub proof fn applications_are_configured(resource: &str, capacity: u64, notice: u64, r: Json)
    requires
        call_ensures(application, (resource, capacity, notice), r),
    ensures
        r@ == Tree::Object(
            map![
                "resource"@ => Tree::Text(resource@),
                "capacity"@ => Tree::Integer(capacity as int),
                "cancellation_notice_seconds"@ => Tree::Integer(notice as int),
            ],
        ),
{
}

/// The four products that no method has seen, each by its name and its application.
pub proof fn held_out_products_are_four(r: Vec<HeldOut>)
    requires
        call_ensures(cases, (), r),
    ensures
        r@.len() == 4,
        r@[0].name@ == "loan-a"@ && r@[1].name@ == "loan-b"@ && r@[2].name@ == "class-a"@
            && r@[3].name@ == "class-b"@,
        r@[0].application@ == crate::slotbook::study::application_tree("camera"@, 1, 0),
        r@[1].application@ == crate::slotbook::study::application_tree("tripod"@, 2, 3600),
        r@[2].application@ == crate::slotbook::study::application_tree("yoga"@, 4, 7200),
        r@[3].application@ == crate::slotbook::study::application_tree("ceramics"@, 6, 86400),
{
    let v = crate::slotbook::study::held_out_views(r@);
    assert(v.len() == r@.len());
    assert forall|i: int| 0 <= i < 4 implies v[i] == held_out_view(#[trigger] r@[i]) by {}
}

/// Each product has a slot for the baseline and then one for the candidate, of the same
/// application; two variants and the source follow.
pub proof fn slots_come_in_pairs(r: Vec<(&'static str, Json)>)
    requires
        call_ensures(slots, (), r),
    ensures
        r@.len() == 11,
        r@[0].0@ == "learn-loan-a-baseline"@ && r@[1].0@ == "learn-loan-a-candidate"@,
        r@[2].0@ == "learn-loan-b-baseline"@ && r@[3].0@ == "learn-loan-b-candidate"@,
        r@[4].0@ == "learn-class-a-baseline"@ && r@[5].0@ == "learn-class-a-candidate"@,
        r@[6].0@ == "learn-class-b-baseline"@ && r@[7].0@ == "learn-class-b-candidate"@,
        r@[8].0@ == "learn-loan-variant"@ && r@[9].0@ == "learn-class-variant"@ && r@[10].0@
            == "learn-source"@,
        r@[0].1@ == crate::slotbook::study::application_tree("camera"@, 1, 0) && r@[1].1@
            == r@[0].1@ && r@[8].1@ == r@[0].1@,
        r@[2].1@ == crate::slotbook::study::application_tree("tripod"@, 2, 3600) && r@[3].1@
            == r@[2].1@,
        r@[4].1@ == crate::slotbook::study::application_tree("yoga"@, 4, 7200) && r@[5].1@
            == r@[4].1@ && r@[9].1@ == r@[4].1@,
        r@[6].1@ == crate::slotbook::study::application_tree("ceramics"@, 6, 86400) && r@[7].1@
            == r@[6].1@,
        r@[10].1@ == crate::slotbook::study::application_tree("pottery"@, 2, 0),
{
    let v = crate::slotbook::study::slot_views(r@);
    assert(v.len() == r@.len());
    assert forall|i: int| 0 <= i < 11 implies v[i].0 == (#[trigger] r@[i]).0@ && v[i].1
        == r@[i].1@ by {}
}

/// A slot is at the port that its index gives above the first one.
pub proof fn slots_have_their_port(base: u16, index: u16, r: u64)
    requires
        call_ensures(slot_port, (base, index), r),
    ensures
        r == base + index,
{
}

/// A slot has a worker, a target and a capability of its own, named after it.
pub proof fn slots_are_named_throughout(name: &str, application: Json, r: Json)
    requires
        call_ensures(slot_document, (name, application), r),
    ensures
        r@ == Tree::Object(
            map![
                "name"@ => Tree::Text(name@),
                "worker"@ => Tree::Text(name@ + "-work"@),
                "target"@ => Tree::Text(name@ + "-target"@),
                "capability"@ => Tree::Text("evaluation:"@ + name@),
                "application"@ => application@,
            ],
        ),
{
}

/// A slot's grant is named after it; the source has a grant of its own.
pub proof fn grants_are_named_after_slots(name: &str, r: String)
    requires
        call_ensures(slot_grant, (name,), r),
    ensures
        name@ == "learn-source"@ ==> r@ == "grant:learning-source"@,
        name@ != "learn-source"@ ==> r@ == "grant:"@ + name@,
{
}

/// Three pages are read of a run: its first three entries, three from the tenth on, and its last
/// four.
pub proof fn pages_span_the_run(source: &Json, sequence: u64, r: Checked<Json>)
    requires
        call_ensures(pages, (source,), r),
        at(source@, "completed_run,sequence"@) == Tree::Integer(sequence as int),
        sequence >= 3,
    ensures
        r matches Ok(j) && j@ == Tree::List(
            seq![
                Tree::Object(
                    map![
                        "run"@ => at(source@, "internal_run"@),
                        "first"@ => Tree::Integer(1),
                        "count"@ => Tree::Integer(3),
                    ],
                ),
                Tree::Object(
                    map![
                        "run"@ => at(source@, "internal_run"@),
                        "first"@ => Tree::Integer(10),
                        "count"@ => Tree::Integer(3),
                    ],
                ),
                Tree::Object(
                    map![
                        "run"@ => at(source@, "internal_run"@),
                        "first"@ => Tree::Integer(sequence - 3),
                        "count"@ => Tree::Integer(4),
                    ],
                ),
            ],
        ),
{
}

/// A product is told as its brief, its application, the checks that the policy requires and the
/// operator's obligations.
pub proof fn products_are_told_whole(held_out: &HeldOut, policy: &Json, r: Json)
    requires
        call_ensures(product_document, (held_out, policy), r),
    ensures
        r@ is Object,
        r@->Object_0.dom() =~= set![
            "brief"@,
            "application"@,
            "requirements"@,
            "operator_obligations"@,
        ],
        r@->Object_0["brief"@] == Tree::Text(held_out.brief@),
        r@->Object_0["application"@] == held_out.application@,
        r@->Object_0["requirements"@] == at(policy@, "required_checks"@),
{
    reveal_strlit("brief");
    reveal_strlit("application");
    reveal_strlit("requirements");
    reveal_strlit("operator_obligations");
    assert("brief"@.len() == 5 && "application"@.len() == 11 && "requirements"@.len() == 12
        && "operator_obligations"@.len() == 20);
}

/// An arm of a comparison is keyed by the product and the arm.
pub proof fn arms_are_keyed(name: &str, arm: &str, r: String)
    requires
        call_ensures(evaluation_key, (name, arm), r),
    ensures
        r@ == "evaluate-"@ + name@ + "-"@ + arm@,
{
}

/// A slot is declared with its invocation, its workspace and its target, each at the configuration
/// and the generation that its state shows.
pub proof fn slots_are_declared_as_they_stand(slot: &Json, request: &str, r: Json)
    requires
        call_ensures(slot_declaration, (slot, request), r),
    ensures
        r@ == Tree::Object(
            map![
                "invocation"@ => Tree::Object(
                    map![
                        "actor"@ => Tree::Text("human:learning-operator"@),
                        "request"@ => Tree::Text(request@),
                    ],
                ),
                "workspace"@ => at(slot@, "worker"@),
                "workspace_configuration"@ => at(slot@, "worker_state,recipe,digest"@),
                "workspace_generation"@ => at(slot@, "worker_state,generation"@),
                "target"@ => at(slot@, "target"@),
                "configuration"@ => at(slot@, "target_state,recipe,digest"@),
                "generation"@ => at(slot@, "target_state,generation"@),
            ],
        ),
{
}

/// A pair compares two neighbouring slots under the same input, the even one as the baseline and
/// the odd one as the candidate.
pub proof fn pairs_compare_neighbours(
    name: &str,
    input: &Json,
    slots: &Vec<Json>,
    index: usize,
    r: Json,
)
    requires
        call_ensures(pair, (name, input, slots, index), r),
    ensures
        r@ == Tree::Object(
            map![
                "name"@ => Tree::Text(name@),
                "input"@ => input@,
                "baseline"@ => crate::slotbook::learning::declared_slot(
                    slots@[2 * index]@,
                    "evaluate-"@ + name@ + "-"@ + "baseline"@,
                ),
                "candidate"@ => crate::slotbook::learning::declared_slot(
                    slots@[2 * index + 1]@,
                    "evaluate-"@ + name@ + "-"@ + "candidate"@,
                ),
            ],
        ),
{
}

/// A variant goes back to the pair's input and is made by the selected method for the slot's
/// application.
pub proof fn variants_keep_their_lineage(pair: &Json, slot: &Json, chosen: &Json, r: Json)
    requires
        call_ensures(variant_document, (pair, slot, chosen), r),
    ensures
        r@ == Tree::Object(
            map![
                "lineage"@ => at(pair@, "input"@),
                "application"@ => at(slot@, "application"@),
                "method"@ => at(chosen@, "id"@),
                "purpose"@ => Tree::Text(
                    "independent product variant under the selected method"@,
                ),
            ],
        ),
{
}

/// The revised method is selected exactly where the comparison found it eligible, and otherwise the
/// baseline stands.
pub proof fn eligible_methods_are_selected(
    comparison: &Json,
    revised: &Json,
    baseline: &Json,
    judged: bool,
    r: &Json,
)
    requires
        call_ensures(eligible, (comparison,), judged),
        call_ensures(selected, (comparison, revised, baseline), r),
    ensures
        judged <==> at(comparison@, "result,outcome"@) == Tree::Text("eligible"@),
        judged ==> r@ == revised@,
        !judged ==> r@ == baseline@,
{
}

proof fn lemma_descriptor(entries: Seq<Tree>, identity: Seq<char>, i: int, from: int)
    requires
        0 <= from <= i < entries.len(),
        at(entries[i], "descriptor,identity"@) == Tree::Text(identity),
        forall|j: int|
            from <= j < i ==> at(#[trigger] entries[j], "descriptor,identity"@) != Tree::Text(
                identity,
            ),
    ensures
        descriptor_from(entries, identity, from) == Some(at(entries[i], "descriptor"@)),
    decreases i - from,
{
    if from < i {
        lemma_descriptor(entries, identity, i, from + 1);
    }
}

proof fn lemma_no_descriptor(entries: Seq<Tree>, identity: Seq<char>, from: int)
    requires
        0 <= from <= entries.len(),
        forall|j: int|
            from <= j < entries.len() ==> at(#[trigger] entries[j], "descriptor,identity"@)
                != Tree::Text(identity),
    ensures
        descriptor_from(entries, identity, from) is None,
    decreases entries.len() - from,
{
    if from < entries.len() {
        lemma_no_descriptor(entries, identity, from + 1);
    }
}

/// A worker's descriptor is the first in the catalog under the worker's managed identity.
pub proof fn workers_are_found_by_identity(catalog: &Json, worker: &str, i: int, r: Checked<Json>)
    requires
        call_ensures(worker_descriptor, (catalog, worker), r),
        at(catalog@, "value,catalog,entries"@) is List,
    ensures
        ({
            let l = items(catalog@, "value,catalog,entries"@);
            let wanted = Tree::Text("managed."@ + worker@ + ".worker"@);
            &&& 0 <= i < l.len() && at(l[i], "descriptor,identity"@) == wanted && (forall|j: int|
                0 <= j < i ==> at(#[trigger] l[j], "descriptor,identity"@) != wanted) ==> (
            r matches Ok(d) && d@ == at(l[i], "descriptor"@))
            &&& (forall|j: int|
                0 <= j < l.len() ==> at(#[trigger] l[j], "descriptor,identity"@) != wanted)
                ==> failed(r, "worker descriptor absent"@)
        }),
{
    let l = items(catalog@, "value,catalog,entries"@);
    let identity = "managed."@ + worker@ + ".worker"@;
    let wanted = Tree::Text(identity);
    if 0 <= i < l.len() && at(l[i], "descriptor,identity"@) == wanted && (forall|j: int|
        0 <= j < i ==> at(#[trigger] l[j], "descriptor,identity"@) != wanted) {
        lemma_descriptor(l, identity, i, 0);
    }
    if forall|j: int| 0 <= j < l.len() ==> at(#[trigger] l[j], "descriptor,identity"@) != wanted {
        lemma_no_descriptor(l, identity, 0);
    }
}

/// A retained study is resumed in place of the import, a later proposal is declared anew, and a
/// study that only proposes ends with the proposal; every other phase is followed by the next one.
pub proof fn phases_follow(
    done: Phase,
    retained: bool,
    attempt: Attempt,
    proposal_only: bool,
    r: Phase,
)
    requires
        call_ensures(next_phase, (done, retained, attempt, proposal_only), r),
    ensures
        done is Begin ==> if retained {
            r is Resume
        } else {
            r is Import
        },
        done is Import ==> r is SetUp,
        done is SetUp ==> r is Declare,
        done is Declare || done is Redeclare ==> r is Preauthorize,
        done is Resume ==> if attempt.proposal > 1 {
            r is Redeclare
        } else {
            r is Preauthorize
        },
        done is Preauthorize ==> r is Propose,
        done is Propose ==> if proposal_only {
            r is Done
        } else {
            r is Evaluate
        },
        done is Evaluate ==> r is Maintain,
        done is Maintain || done is Done ==> r is Done,
{
}

/// A worker is given its words and whether what it writes is kept.
pub proof fn workers_are_given_their_words(argv: &Vec<&str>, capture: bool, r: Json)
    requires
        call_ensures(worker_inputs, (argv, capture), r),
    ensures
        r@ == Tree::List(
            seq![
                Tree::Object(
                    map![
                        "name"@ => Tree::Text("command"@),
                        "value"@ => Tree::Object(
                            map![
                                "type"@ => Tree::Text("inline"@),
                                "value"@ => Tree::Object(
                                    map![
                                        "argv"@ => Tree::List(
                                            words(argv@).map_values(
                                                |t: Seq<char>| Tree::Text(t),
                                            ),
                                        ),
                                        "stdout_artifact"@ => Tree::Bool(capture),
                                    ],
                                ),
                            ],
                        ),
                    ],
                ),
            ],
        ),
{
}

/// A variant is given the product as an artifact and the first value of each of the three targets.
pub proof fn variants_are_given_their_targets(input: &Json, method: &Json, r: Json)
    requires
        call_ensures(variant_inputs, (input, method), r),
    ensures
        ({
            let inline = |name: Seq<char>, value: Tree|
                Tree::Object(
                    map![
                        "name"@ => Tree::Text(name),
                        "value"@ => Tree::Object(
                            map!["type"@ => Tree::Text("inline"@), "value"@ => value],
                        ),
                    ],
                );
            let l = r@->List_0;
            &&& r@ is List
            &&& l.len() == 4
            &&& l[0] == Tree::Object(
                map![
                    "name"@ => Tree::Text("product"@),
                    "value"@ => Tree::Object(
                        map![
                            "type"@ => Tree::Text("artifact"@),
                            "reference"@ => Tree::Object(
                                map![
                                    "identity"@ => at(input@, "artifact"@),
                                    "digest"@ => at(input@, "digest"@),
                                    "media_type"@ => at(input@, "media_type"@),
                                    "size_bytes"@ => at(input@, "size_bytes"@),
                                ],
                            ),
                        ],
                    ),
                ],
            )
            &&& l[1] == inline("target-1"@, at(method@, "inputs,target-1,values,#0"@))
            &&& l[2] == inline("target-2"@, at(method@, "inputs,target-2,values,#0"@))
            &&& l[3] == inline("target-3"@, at(method@, "inputs,target-3,values,#0"@))
        }),
{
}

/// A slot's grant is filed under its capability, and the other grants stand.
pub proof fn slot_grants_are_filed(config: Json, capability: &str, grant: &str, r: Json)
    requires
        takes(config@, segments("runtime,publication_services"@)),
        at(config@, "runtime,publication_services"@) is Object || at(
            config@,
            "runtime,publication_services"@,
        ) is Null,
        call_ensures(grant_slot, (config, capability, grant), r),
    ensures
        ({
            let before = at(config@, "runtime,publication_services"@);
            r@ == placed(
                config@,
                segments("runtime,publication_services"@),
                Tree::Object(
                    (if before is Object {
                        before->Object_0
                    } else {
                        map![]
                    }).insert(capability@, Tree::Text(grant@)),
                ),
            )
        }),
{
}

/// A slot's credential is read from a file, and is filed under the slot's name.
pub proof fn slot_credentials_are_files(config: Json, name: &str, path: &str, r: Json)
    requires
        takes(config@, segments("secret_sources"@)),
        at(config@, "secret_sources"@) is Object || at(config@, "secret_sources"@) is Null,
        call_ensures(trust_slot, (config, name, path), r),
    ensures
        ({
            let before = at(config@, "secret_sources"@);
            r@ == placed(
                config@,
                segments("secret_sources"@),
                Tree::Object(
                    (if before is Object {
                        before->Object_0
                    } else {
                        map![]
                    }).insert(
                        "credential:"@ + name@,
                        Tree::Object(
                            map!["type"@ => Tree::Text("file"@), "path"@ => Tree::Text(path@)],
                        ),
                    ),
                ),
            )
        }),
{
}

/// A note names the recipe, its generation, the selected method and the comparison.
pub proof fn notes_name_what_was_kept(
    reference: &Json,
    updated: &Json,
    result: &Json,
    comparison: &str,
    generation: u64,
    r: Checked<String>,
)
    requires
        call_ensures(note, (reference, updated, result, comparison), r),
        at(updated@, "generation"@) == Tree::Integer(generation as int),
    ensures
        r is Ok <==> at(reference@, "digest"@) is Text && at(result@, "selected_method"@) is Text,
        r matches Ok(t) ==> t@ == "Maintained tool recipe "@ + at(reference@, "digest"@)->Text_0
            + " at generation "@ + decimal(generation as nat)
            + " was verified in a fresh installation before activation. Candidate bytes were preserved. Selected method: "@
            + at(result@, "selected_method"@)->Text_0
            + ". Comparison: agent:slotbook-evaluator/"@ + comparison@ + "; promoted: "@
            + crate::render::rendered(at(result@, "promoted"@))
            + ". Future tasks must select this guidance explicitly."@,
{
}

/// A promotion is approved by the evaluator's receipt exactly where the result was promoted.
pub proof fn promotions_are_approved(result: &Json, promotion: &str, r: Json)
    requires
        call_ensures(approval, (result, promotion), r),
    ensures
        at(result@, "promoted"@) == Tree::Bool(true) ==> r@ == Tree::Object(
            map![
                "actor"@ => Tree::Text("agent:slotbook-evaluator"@),
                "command"@ => Tree::Text(promotion@),
            ],
        ),
        at(result@, "promoted"@) != Tree::Bool(true) ==> r@ == Tree::Null,
{
}

/// A worker image is the base image with the workspace tool in it.
pub proof fn images_add_the_workspace_tool(image: &str, r: String)
    requires
        call_ensures(containerfile, (image,), r),
    ensures
        r@ == "FROM "@ + image@
            + "\nCOPY slotbook-workspace /usr/local/bin/slotbook-workspace\n"@,
{
}

/// A key is its stem for the first attempt, and names the attempt after that; a candidate that is
/// validated again is keyed by the validation too.
pub proof fn keys_name_their_attempt(attempt: Attempt, stem: &str, r: String)
    requires
        call_ensures(Attempt::key, (attempt, stem), r),
    ensures
        attempt.proposal == 1 && (attempt.validation <= 1 || stem@ != "learning-candidate"@) ==> r@
            == stem@,
        attempt.proposal != 1 && (attempt.validation <= 1 || stem@ != "learning-candidate"@) ==> r@
            == stem@ + "-"@ + decimal(attempt.proposal as nat),
        attempt.proposal == 1 && attempt.validation > 1 && stem@ == "learning-candidate"@ ==> r@
            == stem@ + "-validation-"@ + decimal(attempt.validation as nat),
        attempt.proposal != 1 && attempt.validation > 1 && stem@ == "learning-candidate"@ ==> r@
            == stem@ + "-validation-"@ + decimal(attempt.validation as nat) + "-"@ + decimal(
            attempt.proposal as nat,
        ),
{
}

/// A later proposal needs the study that it goes on with.
pub proof fn later_proposals_resume(attempt: Attempt, resume: bool, r: Checked<()>)
    requires
        call_ensures(check_attempt, (attempt, resume), r),
    ensures
        r is Ok <==> attempt.proposal <= 1 || resume,
        r is Err ==> failed(r, "a new proposal attempt requires --resume of its frozen study"@),
{
}

/// A receipt names the actor and the command.
pub proof fn receipts_name_actor_and_command(command: &str, actor: &str, r: Json)
    requires
        call_ensures(receipt, (command, actor), r),
    ensures
        r@ == Tree::Object(
            map!["actor"@ => Tree::Text(actor@), "command"@ => Tree::Text(command@)],
        ),
{
}

/// A study's receipt is the receipt of the command that the attempt's key names.
pub proof fn study_receipts_are_keyed(
    attempt: Attempt,
    stem: &str,
    actor: &str,
    key: String,
    r: Json,
)
    requires
        call_ensures(Attempt::key, (attempt, stem), key),
        call_ensures(study_receipt, (attempt, stem, actor), r),
    ensures
        r@ == Tree::Object(map!["actor"@ => Tree::Text(actor@), "command"@ => Tree::Text(key@)]),
{
}

/// What is retained is written once, is left alone where it is the same, and is never replaced.
pub proof fn retained_bytes_stand(
    existing: Option<&[u8]>,
    bytes: &[u8],
    message: &str,
    r: Checked<bool>,
)
    requires
        call_ensures(retain, (existing, bytes, message), r),
    ensures
        existing is None ==> (r matches Ok(write) && write),
        existing matches Some(kept) ==> (kept@ == bytes@ ==> (r matches Ok(write) && !write)),
        existing matches Some(kept) ==> (kept@ != bytes@ ==> failed(r, message@)),
{
}

/// A successful command has the value that it carries; anything else is told whole.
pub proof fn command_results_are_unwrapped(result: &Json, r: Json)
    requires
        call_ensures(command_result, (result,), r),
    ensures
        at(result@, "status"@) == Tree::Text("success"@) ==> r@ == at(result@, "value,value"@),
        at(result@, "status"@) != Tree::Text("success"@) ==> r@ == result@,
{
}

/// A reference keeps the identity, the digest, the media type and the size of what it refers to.
pub proof fn references_keep_their_artifact(
    value: &Json,
    uploaded: Json,
    capped: Json,
    metadata: Json,
)
    requires
        call_ensures(uploaded_reference, (value,), uploaded),
        call_ensures(cap_reference, (value,), capped),
        call_ensures(metadata_reference, (value,), metadata),
    ensures
        uploaded@ == Tree::Object(
            map![
                "artifact"@ => at(value@, "artifact_id"@),
                "digest"@ => at(value@, "digest"@),
                "media_type"@ => at(value@, "content_type"@),
                "size_bytes"@ => at(value@, "size"@),
            ],
        ),
        capped@ == Tree::Object(
            map![
                "identity"@ => at(value@, "artifact"@),
                "digest"@ => at(value@, "digest"@),
                "media_type"@ => at(value@, "media_type"@),
                "size_bytes"@ => at(value@, "size_bytes"@),
            ],
        ),
        metadata@ == Tree::Object(
            map![
                "identity"@ => at(value@, "artifact_id"@),
                "digest"@ => at(value@, "digest"@),
                "media_type"@ => at(value@, "content_type"@),
                "size_bytes"@ => at(value@, "size"@),
            ],
        ),
{
}

proof fn lemma_captured(l: Seq<Tree>, media: Seq<char>, i: int, from: int)
    requires
        0 <= from <= i < l.len(),
        at(l[i], "category"@) == Tree::Text("artifact"@) && at(
            l[i],
            "event,kind,reference,media_type"@,
        ) == Tree::Text(media),
        forall|j: int|
            from <= j < i ==> !(at(#[trigger] l[j], "category"@) == Tree::Text("artifact"@) && at(
                l[j],
                "event,kind,reference,media_type"@,
            ) == Tree::Text(media)),
    ensures
        captured_from(l, media, from) == Some(at(l[i], "event,kind,reference"@)),
    decreases i - from,
{
    if from < i {
        lemma_captured(l, media, i, from + 1);
    }
}

proof fn lemma_none_captured(l: Seq<Tree>, media: Seq<char>, from: int)
    requires
        0 <= from <= l.len(),
        forall|j: int|
            from <= j < l.len() ==> !(at(#[trigger] l[j], "category"@) == Tree::Text("artifact"@)
                && at(l[j], "event,kind,reference,media_type"@) == Tree::Text(media)),
    ensures
        captured_from(l, media, from) is None,
    decreases l.len() - from,
{
    if from < l.len() {
        lemma_none_captured(l, media, from + 1);
    }
}

/// A worker's output is the reference of its first artifact of the media type.
pub proof fn outputs_are_of_their_media(value: &Json, media: &str, i: int, r: Checked<Json>)
    requires
        call_ensures(output, (value, media), r),
        at(value@, "observations"@) is List,
    ensures
        ({
            let l = items(value@, "observations"@);
            let fits = |t: Tree|
                at(t, "category"@) == Tree::Text("artifact"@) && at(
                    t,
                    "event,kind,reference,media_type"@,
                ) == Tree::Text(media@);
            &&& 0 <= i < l.len() && fits(l[i]) && (forall|j: int|
                0 <= j < i ==> !fits(#[trigger] l[j])) ==> (r matches Ok(d) && d@ == at(
                l[i],
                "event,kind,reference"@,
            ))
            &&& (forall|j: int| 0 <= j < l.len() ==> !fits(#[trigger] l[j])) ==> failed(
                r,
                "worker artifact absent"@,
            )
        }),
{
    let l = items(value@, "observations"@);
    let fits = |t: Tree|
        at(t, "category"@) == Tree::Text("artifact"@) && at(t, "event,kind,reference,media_type"@)
            == Tree::Text(media@);
    if 0 <= i < l.len() && fits(l[i]) && (forall|j: int| 0 <= j < i ==> !fits(#[trigger] l[j])) {
        assert forall|j: int| 0 <= j < i implies !(at(#[trigger] l[j], "category"@) == Tree::Text(
            "artifact"@,
        ) && at(l[j], "event,kind,reference,media_type"@) == Tree::Text(media@)) by {
            assert(!fits(l[j]));
        }
        lemma_captured(l, media@, i, 0);
    }
    if forall|j: int| 0 <= j < l.len() ==> !fits(#[trigger] l[j]) {
        assert forall|j: int| 0 <= j < l.len() implies !(at(#[trigger] l[j], "category"@)
            == Tree::Text("artifact"@) && at(l[j], "event,kind,reference,media_type"@)
            == Tree::Text(media@)) by {
            assert(!fits(l[j]));
        }
        lemma_none_captured(l, media@, 0);
    }
}

/// A value is added to a list where it is not in it yet, and the list stands otherwise.
pub proof fn values_are_included_once(
    document: Json,
    path: &str,
    value: &Json,
    message: &str,
    r: Checked<Json>,
)
    requires
        call_ensures(including, (document, path, value, message), r),
    ensures
        !(at(document@, path@) is List) ==> failed(r, message@),
        at(document@, path@) matches Tree::List(l) ==> (r matches Ok(j) && j@ == placed(
            document@,
            segments(path@),
            Tree::List(
                if l.contains(value@) {
                    l
                } else {
                    l.push(value@)
                },
            ),
        )),
{
}

proof fn lemma_first_actor(l: Seq<Tree>, name: Seq<char>, i: int, from: int)
    requires
        0 <= from <= i < l.len(),
        at(l[i], "actor"@) == Tree::Text(name),
        forall|j: int| from <= j < i ==> at(#[trigger] l[j], "actor"@) != Tree::Text(name),
    ensures
        crate::json::first_with(l, "actor"@, Tree::Text(name), from) == i,
    decreases i - from,
{
    if from < i {
        lemma_first_actor(l, name, i, from + 1);
    }
}

proof fn lemma_no_actor(l: Seq<Tree>, name: Seq<char>, from: int)
    requires
        0 <= from <= l.len(),
        forall|j: int| from <= j < l.len() ==> at(#[trigger] l[j], "actor"@) != Tree::Text(name),
    ensures
        crate::json::first_with(l, "actor"@, Tree::Text(name), from) == l.len(),
    decreases l.len() - from,
{
    if from < l.len() {
        lemma_no_actor(l, name, from + 1);
    }
}

/// Whether an actor is the first in a list under a name.
pub open spec fn first_actor(l: Seq<Tree>, name: Seq<char>, i: int) -> bool {
    &&& 0 <= i < l.len()
    &&& at(l[i], "actor"@) == Tree::Text(name)
    &&& forall|j: int| 0 <= j < i ==> at(#[trigger] l[j], "actor"@) != Tree::Text(name)
}

/// Whether a list has no actor under a name.
pub open spec fn no_actor(l: Seq<Tree>, name: Seq<char>) -> bool {
    forall|j: int| 0 <= j < l.len() ==> at(#[trigger] l[j], "actor"@) != Tree::Text(name)
}

/// The operator of a configuration is its first actor under the operator's name.
pub proof fn operators_are_found(config: &Json, message: &str, i: int, r: Checked<Json>)
    requires
        call_ensures(operator_of, (config, message), r),
    ensures
        !(at(config@, "actors"@) is List) ==> failed(r, "actors absent"@),
        at(config@, "actors"@) matches Tree::List(l) ==> (first_actor(
            l,
            "human:learning-operator"@,
            i,
        ) ==> (r matches Ok(a) && a@ == l[i])) && (no_actor(l, "human:learning-operator"@)
            ==> failed(r, message@)),
{
    let l = items(config@, "actors"@);
    if first_actor(l, "human:learning-operator"@, i) {
        lemma_first_actor(l, "human:learning-operator"@, i, 0);
    }
    if no_actor(l, "human:learning-operator"@) {
        lemma_no_actor(l, "human:learning-operator"@, 0);
    }
}

/// A learner is admitted at the end of the actors where there is none; where there is one, it must
/// be the same, and the configuration stands.
pub proof fn learners_are_admitted_once(config: Json, actor: &Json, i: int, r: Checked<Json>)
    requires
        call_ensures(admit_learner, (config, actor), r),
    ensures
        !(at(config@, "actors"@) is List) ==> failed(r, "actors absent"@),
        at(config@, "actors"@) matches Tree::List(l) ==> (no_actor(l, "agent:slotbook-learner"@)
            ==> (r matches Ok(j) && j@ == placed(
            config@,
            segments("actors"@),
            Tree::List(l.push(actor@)),
        ))),
        at(config@, "actors"@) matches Tree::List(l) ==> (first_actor(
            l,
            "agent:slotbook-learner"@,
            i,
        ) ==> if l[i] == actor@ {
            r matches Ok(j) && j@ == config@
        } else {
            failed(r, "retained learner grant differs; explicit new grant revision required"@)
        }),
{
    let l = items(config@, "actors"@);
    if first_actor(l, "agent:slotbook-learner"@, i) {
        lemma_first_actor(l, "agent:slotbook-learner"@, i, 0);
    }
    if no_actor(l, "agent:slotbook-learner"@) {
        lemma_no_actor(l, "agent:slotbook-learner"@, 0);
    }
}

/// A profile may be used exactly where the operator's grant lists the profile and its destination.
pub proof fn networks_are_granted(
    config: &Json,
    profile: &Json,
    destination: &str,
    i: int,
    r: Checked<()>,
)
    requires
        call_ensures(check_network, (config, profile, destination), r),
        at(config@, "actors"@) is List,
    ensures
        ({
            let l = items(config@, "actors"@);
            &&& no_actor(l, "human:learning-operator"@) ==> failed(r, "learning operator absent"@)
            &&& first_actor(l, "human:learning-operator"@, i) ==> (r is Ok <==> items(
                l[i],
                "authority,resources,network,profiles"@,
            ).contains(at(profile@, "identity"@)) && items(
                l[i],
                "authority,resources,network,destinations"@,
            ).contains(Tree::Text(destination@)))
        }),
{
    let l = items(config@, "actors"@);
    if first_actor(l, "human:learning-operator"@, i) {
        lemma_first_actor(l, "human:learning-operator"@, i, 0);
    }
    if no_actor(l, "human:learning-operator"@) {
        lemma_no_actor(l, "human:learning-operator"@, 0);
    }
}

/// Whether one of the first `n` observations tells of an artifact by a reference.
pub open spec fn tells_artifact(l: Seq<Tree>, reference: Tree, n: int) -> bool {
    exists|i: int|
        0 <= i < n && at(#[trigger] l[i], "category"@) == Tree::Text("artifact"@) && at(
            l[i],
            "event,kind,reference"@,
        ) == reference
}

proof fn lemma_artifacts(l: Seq<Tree>, reference: Tree, n: int)
    requires
        0 <= n <= l.len(),
    ensures
        captured(l, n).contains(reference) <==> tells_artifact(l, reference, n),
    decreases n,
{
    if n > 0 {
        lemma_artifacts(l, reference, n - 1);
        let before = captured(l, n - 1);
        let v = captured(l, n);
        if at(l[n - 1], "category"@) == Tree::Text("artifact"@) {
            let last = at(l[n - 1], "event,kind,reference"@);
            assert(v == before.push(last));
            assert(v[v.len() - 1] == last);
            if before.contains(reference) {
                let k = choose|k: int| 0 <= k < before.len() && before[k] == reference;
                assert(v[k] == reference);
            }
            if v.contains(reference) && reference != last {
                let k = choose|k: int| 0 <= k < v.len() && v[k] == reference;
                assert(before[k] == reference);
            }
        }
    }
}

/// The artifacts of a list of observations are those that it tells of.
pub proof fn artifacts_are_told(observations: &Json, l: Seq<Tree>, reference: Tree, r: Json)
    requires
        call_ensures(artifacts, (observations,), r),
        observations@ == Tree::List(l),
    ensures
        r@ is List,
        r@->List_0.contains(reference) <==> tells_artifact(l, reference, l.len() as int),
{
    crate::json::lemma_root(observations@);
    lemma_artifacts(l, reference, l.len() as int);
}

/// A number is taken from a number alone.
pub proof fn numbers_are_numbers(value: &Json, n: u64, r: Checked<u64>)
    requires
        call_ensures(number, (value,), r),
    ensures
        value@ == Tree::Integer(n as int) <==> (r matches Ok(m) && m == n),
        r is Err ==> failed(r, "expected integer in product response"@),
{
    crate::json::lemma_root(value@);
}

/// A mode is called by its name.
pub proof fn modes_are_named(mode: InvocationMode, r: &'static str)
    requires
        call_ensures(InvocationMode::name, (mode,), r),
    ensures
        mode == InvocationMode::Direct ==> r@ == "direct"@,
        mode == InvocationMode::Workflow ==> r@ == "workflow"@,
        mode == InvocationMode::Peer ==> r@ == "peer"@,
{
}

/// A text is taken from a text alone.
pub proof fn texts_are_texts(value: &Json, r: Checked<String>)
    requires
        call_ensures(text, (value,), r),
    ensures
        value@ matches Tree::Text(t) ==> (r matches Ok(s) && s@ == t),
        !(value@ is Text) ==> failed(r, "expected string in product response"@),
{
}

/// A command that waits for a run has ten minutes, and any other has four.
pub proof fn waits_have_longer(arguments: &Vec<String>, r: u64)
    requires
        call_ensures(timeout_secs, (arguments,), r),
    ensures
        r == 600 || r == 240,
        r == 600 <==> exists|i: int|
            #![trigger arguments@[i]]
            0 <= i < arguments@.len() - 1 && arguments@[i]@ == "run"@ && arguments@[i + 1]@
                == "wait"@,
{
    let t = texts(arguments@);
    assert(t.len() == arguments@.len());
    assert forall|i: int| 0 <= i < t.len() implies #[trigger] t[i] == arguments@[i]@ by {}
    if exists|i: int|
        #![trigger arguments@[i]]
        0 <= i < arguments@.len() - 1 && arguments@[i]@ == "run"@ && arguments@[i + 1]@ == "wait"@ {
        let i = choose|i: int|
            #![trigger arguments@[i]]
            0 <= i < arguments@.len() - 1 && arguments@[i]@ == "run"@ && arguments@[i + 1]@
                == "wait"@;
        assert(t[i] == "run"@ && t[i + 1] == "wait"@);
    }
    if r == 600 {
        let i = choose|i: int|
            #![trigger t[i]]
            0 <= i < t.len() - 1 && t[i] == "run"@ && t[i + 1] == "wait"@;
        assert(arguments@[i]@ == "run"@ && arguments@[i + 1]@ == "wait"@);
    }
}

/// A call asks for documents, takes no question, has its deadline and its command identity, and
/// then its own words.
pub proof fn calls_are_identified(label: &str, arguments: &Vec<String>, limit: u64, r: Vec<String>)
    requires
        call_ensures(timeout_secs, (arguments,), limit),
        call_ensures(call_arguments, (label, arguments), r),
    ensures
        texts(r@) == seq![
            "--json"@,
            "--yes"@,
            "--timeout-secs"@,
            decimal(limit as nat),
            "--command-id"@,
            label@,
        ] + texts(arguments@),
{
}

/// A command goes to the daemon, or to the origin where the caller is the origin and there is one,
/// under the credential of its caller.
pub proof fn commands_carry_their_credential(
    root: &str,
    own_token: &str,
    port: u16,
    origin: Option<u16>,
    caller: Caller,
    r: (String, String),
)
    requires
        call_ensures(command_environment, (root, own_token, port, origin, caller), r),
    ensures
        caller == Caller::Origin ==> (origin matches Some(p) ==> r.0@ == "http://127.0.0.1:"@
            + decimal(p as nat)),
        caller != Caller::Origin || origin is None ==> r.0@ == "http://127.0.0.1:"@ + decimal(
            port as nat,
        ),
        caller == Caller::Operator || caller == Caller::Origin ==> r.1@ == own_token@,
        caller == Caller::Consumer ==> r.1@ == crate::application::under(
            root@,
            "consumer.token"@,
        ),
        caller == Caller::Learner ==> r.1@ == crate::application::under(
            root@,
            "learning-05/learner.token"@,
        ),
        caller == Caller::Evaluator ==> r.1@ == crate::application::under(
            root@,
            "learning-05/evaluator.token"@,
        ),
{
}

/// A label that was logged already is logged as a replay, by the number of the call.
pub proof fn replays_are_labelled(label: &str, logged: bool, calls: u64, r: String)
    requires
        call_ensures(log_label, (label, logged, calls), r),
    ensures
        !logged ==> r@ == label@,
        logged ==> r@ == label@ + "-replay-"@ + decimal(calls as nat),
{
}

proof fn lemma_response_lines(lines: Seq<Seq<char>>, line: Seq<char>)
    ensures
        response_lines_of(lines).contains(line) <==> lines.contains(line) && trimmed(line).len()
            > 0,
        response_lines_of(lines).len() <= lines.len(),
    decreases lines.len(),
{
    if lines.len() > 0 {
        let before = lines.drop_last();
        lemma_response_lines(before, line);
        let kept = response_lines_of(before);
        let v = response_lines_of(lines);
        assert(lines[lines.len() - 1] == lines.last());
        if before.contains(line) {
            let k = choose|k: int| 0 <= k < before.len() && before[k] == line;
            assert(lines[k] == line);
        }
        if lines.contains(line) && line != lines.last() {
            let k = choose|k: int| 0 <= k < lines.len() && lines[k] == line;
            assert(before[k] == line);
        }
        if trimmed(lines.last()).len() > 0 {
            assert(v == kept.push(lines.last()));
            assert(v[v.len() - 1] == lines.last());
            if kept.contains(line) {
                let k = choose|k: int| 0 <= k < kept.len() && kept[k] == line;
                assert(v[k] == line);
            }
            if v.contains(line) && line != lines.last() {
                let k = choose|k: int| 0 <= k < v.len() && v[k] == line;
                assert(kept[k] == line);
            }
        }
    }
}

/// A response's lines are all that are not blank.
pub proof fn responses_keep_their_lines(stdout: &str, line: Seq<char>, r: Vec<String>)
    requires
        call_ensures(response_lines, (stdout,), r),
    ensures
        texts(r@).contains(line) <==> lines_of(stdout@).contains(line) && trimmed(line).len() > 0,
{
    lemma_response_lines(lines_of(stdout@), line);
}

} // verus!
