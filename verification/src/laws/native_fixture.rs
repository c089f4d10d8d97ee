//! The native fixture: its operations, its repairs and its verification.

use vstd::prelude::*;

use crate::digest::blake3_hex;
use crate::failure::{failed, Checked};
use crate::json::{Json, Tree};
use crate::native_fixture::{
    accept_prompt, accept_source, checkpoint, conclude, evidence_payload, inventory, operation,
    operation_view, remediation_document, rendered_pairs, repaired, review_document, state_identity,
    verification_log, verification_result, Operation, Written,
};
use crate::text::{occurs, split_at_char, texts};

verus! {

/// The inventory of a repository has every name that is listed and not empty, and no other; there
/// are sixty-four at most.
pub proof fn inventories_are_whole(
    succeeded: bool,
    stdout: &str,
    name: Seq<char>,
    r: Checked<Vec<String>>,
)
    requires
        call_ensures(inventory, (succeeded, stdout), r),
    ensures
        !succeeded ==> failed(r, "Git inventory failed"@),
        r matches Ok(v) ==> v@.len() <= 64 && (texts(v@).contains(name) <==> name.len() > 0
            && split_at_char(stdout@, '\0').contains(name)),
        succeeded && r is Err ==> failed(r, "fixture repository inventory overflow"@),
{
    if r is Ok {
        assert(texts(r->Ok_0@).len() == r->Ok_0@.len());
    }
}

/// A source has a mebibyte.
pub proof fn sources_are_bounded(size: u64, r: Checked<()>)
    requires
        call_ensures(accept_source, (size,), r),
    ensures
        r is Ok <==> size <= 1048576,
        r is Err ==> failed(r, "fixture source exceeds bound"@),
{
}

/// A prompt has sixty-four kibibytes.
pub proof fn prompts_are_bounded(size: u64, r: Checked<()>)
    requires
        call_ensures(accept_prompt, (size,), r),
    ensures
        r is Ok <==> size <= 65536,
        r is Err ==> failed(r, "fixture prompt exceeds bound"@),
{
}

/// A state is identified by the digest of its rendering.
pub proof fn states_are_identified(rendered: &Result<Vec<u8>, String>, r: Checked<String>)
    requires
        call_ensures(state_identity, (rendered,), r),
    ensures
        *rendered matches Ok(bytes) ==> (r matches Ok(t) && t@ == "b3_"@ + blake3_hex(bytes@)),
        *rendered matches Err(e) ==> failed(r, e@),
{
}

/// A checkpoint is the identity of the rendered names and digests of the files, in their order.
pub proof fn checkpoints_are_of_contents(
    files: &Vec<(String, Vec<u8>)>,
    state: Seq<(Seq<char>, Seq<char>)>,
    r: Checked<String>,
)
    requires
        call_ensures(checkpoint, (files,), r),
        state.len() == files@.len(),
        forall|i: int|
            0 <= i < files@.len() ==> #[trigger] state[i] == (
                files@[i].0@,
                blake3_hex(files@[i].1@),
            ),
    ensures
        rendered_pairs(state) matches Ok(bytes) ==> (r matches Ok(t) && t@ == "b3_"@ + blake3_hex(
            bytes,
        )),
        rendered_pairs(state) matches Err(e) ==> failed(r, e),
{
    assert(crate::native_fixture::file_digests(files@) =~= state);
}

/// A verifier takes its mode, its two programs and its root; an agent may take a compiler, and a
/// review and evidence take their root. No other operation is known.
pub proof fn operations_take_their_arguments(arguments: &Vec<String>, r: Checked<Operation>)
    requires
        call_ensures(operation, (arguments,), r),
    ensures
        arguments@.len() == 0 ==> failed(r, "unknown native fixture operation"@),
        arguments@.len() > 0 && arguments@[0]@ == "agent"@ ==> (r matches Ok(
            Operation::Agent { compiler },
        ) && (compiler is Some <==> arguments@.len() > 1) && (compiler matches Some(c) ==> c@
            == arguments@[1]@)),
        arguments@.len() > 0 && arguments@[0]@ == "verify"@ ==> if arguments@.len() == 5 {
            r matches Ok(Operation::Verify { mode, git, rustc, root }) && mode@ == arguments@[1]@
                && git@ == arguments@[2]@ && rustc@ == arguments@[3]@ && root@ == arguments@[4]@
        } else {
            failed(r, "verifier expects mode, Git, rustc and execution root"@)
        },
        arguments@.len() > 0 && arguments@[0]@ == "review"@ ==> if arguments@.len() > 1 {
            r matches Ok(Operation::Review { root }) && root@ == arguments@[1]@
        } else {
            failed(r, "review root absent"@)
        },
        arguments@.len() > 0 && arguments@[0]@ == "evidence"@ ==> if arguments@.len() > 1 {
            r matches Ok(Operation::Evidence { root }) && root@ == arguments@[1]@
        } else {
            failed(r, "evidence root absent"@)
        },
        arguments@.len() > 0 && arguments@[0]@ != "agent"@ && arguments@[0]@ != "verify"@
            && arguments@[0]@ != "review"@ && arguments@[0]@ != "evidence"@ ==> failed(
            r,
            "unknown native fixture operation"@,
        ),
{
    reveal_strlit("agent");
    reveal_strlit("verify");
    reveal_strlit("review");
    reveal_strlit("evidence");
    assert("agent"@.len() == 5 && "verify"@.len() == 6 && "review"@.len() == 6 && "evidence"@.len()
        == 8);
    assert("verify"@[0] == 'v' && "review"@[0] == 'r');
    let t = texts(arguments@);
    assert(t.len() == arguments@.len());
    assert forall|i: int| 0 <= i < t.len() implies #[trigger] t[i] == arguments@[i]@ by {}
    let view = operation_view(r);
    if t.len() > 0 {
        assert(t[0] == arguments@[0]@);
    }
    if t.len() > 1 {
        assert(t[1] == arguments@[1]@);
    }
    if t.len() == 5 {
        assert(t[2] == arguments@[2]@ && t[3] == arguments@[3]@ && t[4] == arguments@[4]@);
    }
    match r {
        Ok(o) => match o {
            Operation::Agent { compiler } => {
                assert(view is Ok && view->Ok_0 is Agent);
            },
            Operation::Verify { .. } => {
                assert(view is Ok && view->Ok_0 is Verify);
            },
            Operation::Review { .. } => {
                assert(view is Ok && view->Ok_0 is Review);
            },
            Operation::Evidence { .. } => {
                assert(view is Ok && view->Ok_0 is Evidence);
            },
        },
        Err(_) => {
            assert(view is Err);
        },
    }
}

/// A source is repaired exactly where it subtracts.
pub proof fn subtractions_are_repaired(source: &str, r: Option<String>)
    requires
        call_ensures(repaired, (source,), r),
    ensures
        r is Some <==> occurs(source@, "a - b"@),
        r matches Some(t) ==> t@ == crate::text::replaced_from(source@, "a - b"@, "a + b"@, 0),
{
}

/// A review says whether the context was seen, and asks for the remediation.
pub proof fn reviews_tell_the_context(context_observed: bool, r: Json)
    requires
        call_ensures(review_document, (context_observed,), r),
    ensures
        r@ == Tree::Object(
            map![
                "schema_version"@ => Tree::Integer(1),
                "independent_process"@ => Tree::Bool(true),
                "context_manifest_observed"@ => Tree::Bool(context_observed),
                "finding"@ => Tree::Text(
                    "controlled verifier gate requires remediation workflow"@,
                ),
            ],
        ),
{
}

/// A remediation codes and verifies again.
pub proof fn remediations_run_again(r: Json)
    requires
        call_ensures(remediation_document, (), r),
    ensures
        r@ == Tree::Object(
            map![
                "schema_version"@ => Tree::Integer(1),
                "action"@ => Tree::Text("rerun coding and independent verification"@),
            ],
        ),
{
}

/// Evidence is a text.
pub proof fn payloads_are_texts(payload: &Json, r: Checked<String>)
    requires
        call_ensures(evidence_payload, (payload,), r),
    ensures
        payload@ matches Tree::Text(t) ==> (r matches Ok(s) && s@ == t),
        !(payload@ is Text) ==> failed(r, "evidence payload must be text"@),
{
}

/// A log says whether a fault was injected, which is so in the weak mode alone, and then has what
/// the compiler wrote and what the tests wrote, where they ran.
pub proof fn logs_tell_the_injection(
    mode: &str,
    compile: &Written,
    tests: &Option<Written>,
    r: String,
)
    requires
        call_ensures(verification_log, (mode, compile, tests), r),
    ensures
        *tests is None ==> r@ == "ORCHESTRATION_FAULT_INJECTION="@ + (if mode@ == "weak"@ {
            "true"@
        } else {
            "false"@
        }) + "\n"@ + compile.stdout@ + compile.stderr@,
        *tests matches Some(t) ==> r@ == "ORCHESTRATION_FAULT_INJECTION="@ + (if mode@ == "weak"@ {
            "true"@
        } else {
            "false"@
        }) + "\n"@ + compile.stdout@ + compile.stderr@ + t.stdout@ + t.stderr@,
{
}

/// A verification passes its tests only in the good mode, and tells a change exactly where there is
/// a difference.
pub proof fn verifications_tell_the_change(
    before: &str,
    after: &str,
    mode: &str,
    tested: bool,
    diff_succeeded: bool,
    diff: &str,
    r: Json,
)
    requires
        call_ensures(verification_result, (before, after, mode, tested, diff_succeeded, diff), r),
    ensures
        r@ == Tree::Object(
            map![
                "checkpoint"@ => Tree::Text(before@),
                "checked_checkpoint"@ => Tree::Text(after@),
                "checks"@ => Tree::Object(
                    map![
                        "rust.tests"@ => Tree::Bool(tested && mode@ == "good"@),
                        "git.diff"@ => Tree::Bool(diff_succeeded),
                    ],
                ),
                "coding"@ => if diff@.len() > 0 {
                    Tree::Object(map!["type"@ => Tree::Text("changed"@)])
                } else {
                    Tree::Object(
                        map![
                            "type"@ => Tree::Text("no_change"@),
                            "justification"@ => Tree::Text(
                                "Independent Rust tests verify the requested calculator behavior at the unchanged checkpoint."@,
                            ),
                        ],
                    )
                },
            ],
        ),
{
}

/// A verification succeeds exactly where the difference could be told and the tests passed.
pub proof fn verifications_need_both(diff_succeeded: bool, tested: bool, r: Checked<()>)
    requires
        call_ensures(conclude, (diff_succeeded, tested), r),
    ensures
        r is Ok <==> diff_succeeded && tested,
        r is Err ==> failed(r, "independent Rust verification failed"@),
{
}

} // verus!
