//! What the reports that the library builds always say.

use vstd::prelude::*;

use crate::external::{report_known, Conclusion};
use crate::findings::{
    built_documents_finish, is_check, lemma_apart, lemma_under, stays_beside, stays_through,
    touches, was_marked, was_put, was_worded,
};
use crate::json::{at, keys_are_found, lemma_single_segment, segments, Tree};
use crate::record::{finished_scenarios_are_recorded, passed};
use crate::scenario::listed_document;
use crate::scripts::documents::{EXTERNAL_REPORT, LOCAL_MODEL_REPORT};

verus! {

proof fn lemma_smoke(known: Tree, answers: Seq<(Tree, bool)>, record: Seq<Tree>)
    requires
        passed(LOCAL_MODEL_REPORT@, known, answers, record),
    ensures
        at(record[2], "document,kind"@) == Tree::Text("local_model_smoke"@),
        at(record[36], "document,strict_external_evidence,run"@) == Tree::Bool(false),
        at(record[36], "document,qualifying"@) == Tree::Bool(false),
{
    let l = LOCAL_MODEL_REPORT@;
    reveal_strlit("document,kind");
    reveal_strlit("document");
    reveal_strlit("reply");
    reveal_strlit("kind");
    reveal_strlit("document,strict_external_evidence,run");
    reveal_strlit("strict_external_evidence,run");
    reveal_strlit("qualifying");
    reveal_strlit("document,qualifying");
    reveal_strlit("strict_external_evidence");
    reveal_strlit("run");
    assert("document"@.len() == 8);
    assert("reply"@.len() == 5);
    assert("document,kind"@ =~= "document"@ + seq![','] + "kind"@);
    assert(
        "document,strict_external_evidence,run"@
            =~= "document"@ + seq![','] + "strict_external_evidence,run"@
    );
    assert("document,qualifying"@ =~= "document"@ + seq![','] + "qualifying"@);
    lemma_under(Tree::Null, "document"@, "qualifying"@, "document,qualifying"@);
    lemma_single_segment("qualifying"@);
    assert("qualifying"@.len() == 10);
    assert("strict_external_evidence"@.len() == 24);
    assert("document,qualifying"@.len() == 19);
    assert(segments("document,qualifying"@)[1] == "qualifying"@);
    assert("strict_external_evidence,run"@ =~= "strict_external_evidence"@ + seq![','] + "run"@);
    assert(at(record[2], "document,kind"@) == Tree::Text("local_model_smoke"@)) by {
        was_worded(l, known, answers, record, 1);
        lemma_under(record[2], "document"@, "kind"@, "document,kind"@);
    }
    assert(at(record[36], "document,strict_external_evidence,run"@) == Tree::Bool(false)) by {
        was_marked(l, known, answers, record, 34, false);
        lemma_under(
            record[35],
            "document"@,
            "strict_external_evidence,run"@,
            "document,strict_external_evidence,run"@,
        );
        stays_beside(l, known, answers, record, 35, "document"@, "strict_external_evidence"@);
        lemma_under(
            record[36],
            "document"@,
            "strict_external_evidence,run"@,
            "document,strict_external_evidence,run"@,
        );
        lemma_under(
            at(record[35], "document"@),
            "strict_external_evidence"@,
            "run"@,
            "strict_external_evidence,run"@,
        );
        lemma_under(
            at(record[36], "document"@),
            "strict_external_evidence"@,
            "run"@,
            "strict_external_evidence,run"@,
        );
    }
    assert(at(record[36], "document,qualifying"@) == Tree::Bool(false)) by {
        was_marked(l, known, answers, record, 35, false);
        lemma_under(record[36], "document"@, "qualifying"@, "document,qualifying"@);
    }
}

proof fn lemma_smoke_kind_1(known: Tree, answers: Seq<(Tree, bool)>, record: Seq<Tree>)
    requires
        passed(LOCAL_MODEL_REPORT@, known, answers, record),
    ensures
        at(at(record[13], "document"@), "kind"@) == at(at(record[2], "document"@), "kind"@),
{
    let l = LOCAL_MODEL_REPORT@;
    reveal_strlit("document");
    reveal_strlit("reply");
    reveal_strlit("mode");
    reveal_strlit("document,mode");
    reveal_strlit("kind");
    reveal_strlit("model,capability");
    reveal_strlit("document,model,capability");
    reveal_strlit("model");
    reveal_strlit("capability");
    reveal_strlit("model,profile");
    reveal_strlit("document,model,profile");
    reveal_strlit("profile");
    reveal_strlit("model,profile_revision");
    reveal_strlit("document,model,profile_revision");
    reveal_strlit("profile_revision");
    reveal_strlit("model,protocol");
    reveal_strlit("document,model,protocol");
    reveal_strlit("protocol");
    reveal_strlit("model,model_alias");
    reveal_strlit("document,model,model_alias");
    reveal_strlit("model_alias");
    reveal_strlit("model,endpoint_origin");
    reveal_strlit("document,model,endpoint_origin");
    reveal_strlit("endpoint_origin");
    reveal_strlit("success,run");
    reveal_strlit("document,success,run");
    reveal_strlit("success");
    reveal_strlit("run");
    reveal_strlit("success,attempt");
    reveal_strlit("document,success,attempt");
    reveal_strlit("attempt");
    reveal_strlit("success,attempt_count");
    reveal_strlit("document,success,attempt_count");
    reveal_strlit("attempt_count");
    reveal_strlit("success,adapter_entry_count_observed");
    reveal_strlit("document,success,adapter_entry_count_observed");
    reveal_strlit("adapter_entry_count_observed");
    assert("document"@.len() == 8);
    assert("reply"@.len() == 5);
    assert("document,mode"@ =~= "document"@ + seq![','] + "mode"@);
    lemma_under(Tree::Null, "document"@, "mode"@, "document,mode"@);
    lemma_single_segment("mode"@);
    assert("mode"@[0] != "kind"@[0]);
    assert("document,mode"@.len() == 13);
    assert(segments("document,mode"@)[1] == "mode"@);
    assert("document,model,capability"@ =~= "document"@ + seq![','] + "model,capability"@);
    lemma_under(Tree::Null, "document"@, "model,capability"@, "document,model,capability"@);
    assert("model,capability"@ =~= "model"@ + seq![','] + "capability"@);
    lemma_under(Tree::Null, "model"@, "capability"@, "model,capability"@);
    assert("model"@.len() == 5);
    assert("kind"@.len() == 4);
    assert("document,model,capability"@.len() == 25);
    assert(segments("document,model,capability"@)[1] == "model"@);
    assert("document,model,profile"@ =~= "document"@ + seq![','] + "model,profile"@);
    lemma_under(Tree::Null, "document"@, "model,profile"@, "document,model,profile"@);
    assert("model,profile"@ =~= "model"@ + seq![','] + "profile"@);
    lemma_under(Tree::Null, "model"@, "profile"@, "model,profile"@);
    assert("document,model,profile"@.len() == 22);
    assert(segments("document,model,profile"@)[1] == "model"@);
    assert(
        "document,model,profile_revision"@ =~= "document"@ + seq![','] + "model,profile_revision"@
    );
    lemma_under(
        Tree::Null,
        "document"@,
        "model,profile_revision"@,
        "document,model,profile_revision"@,
    );
    assert("model,profile_revision"@ =~= "model"@ + seq![','] + "profile_revision"@);
    lemma_under(Tree::Null, "model"@, "profile_revision"@, "model,profile_revision"@);
    assert("document,model,profile_revision"@.len() == 31);
    assert(segments("document,model,profile_revision"@)[1] == "model"@);
    assert("document,model,protocol"@ =~= "document"@ + seq![','] + "model,protocol"@);
    lemma_under(Tree::Null, "document"@, "model,protocol"@, "document,model,protocol"@);
    assert("model,protocol"@ =~= "model"@ + seq![','] + "protocol"@);
    lemma_under(Tree::Null, "model"@, "protocol"@, "model,protocol"@);
    assert("document,model,protocol"@.len() == 23);
    assert(segments("document,model,protocol"@)[1] == "model"@);
    assert("document,model,model_alias"@ =~= "document"@ + seq![','] + "model,model_alias"@);
    lemma_under(Tree::Null, "document"@, "model,model_alias"@, "document,model,model_alias"@);
    assert("model,model_alias"@ =~= "model"@ + seq![','] + "model_alias"@);
    lemma_under(Tree::Null, "model"@, "model_alias"@, "model,model_alias"@);
    assert("document,model,model_alias"@.len() == 26);
    assert(segments("document,model,model_alias"@)[1] == "model"@);
    assert(
        "document,model,endpoint_origin"@ =~= "document"@ + seq![','] + "model,endpoint_origin"@
    );
    lemma_under(
        Tree::Null,
        "document"@,
        "model,endpoint_origin"@,
        "document,model,endpoint_origin"@,
    );
    assert("model,endpoint_origin"@ =~= "model"@ + seq![','] + "endpoint_origin"@);
    lemma_under(Tree::Null, "model"@, "endpoint_origin"@, "model,endpoint_origin"@);
    assert("document,model,endpoint_origin"@.len() == 30);
    assert(segments("document,model,endpoint_origin"@)[1] == "model"@);
    assert("document,success,run"@ =~= "document"@ + seq![','] + "success,run"@);
    lemma_under(Tree::Null, "document"@, "success,run"@, "document,success,run"@);
    assert("success,run"@ =~= "success"@ + seq![','] + "run"@);
    lemma_under(Tree::Null, "success"@, "run"@, "success,run"@);
    assert("success"@.len() == 7);
    assert("document,success,run"@.len() == 20);
    assert(segments("document,success,run"@)[1] == "success"@);
    assert("document,success,attempt"@ =~= "document"@ + seq![','] + "success,attempt"@);
    lemma_under(Tree::Null, "document"@, "success,attempt"@, "document,success,attempt"@);
    assert("success,attempt"@ =~= "success"@ + seq![','] + "attempt"@);
    lemma_under(Tree::Null, "success"@, "attempt"@, "success,attempt"@);
    assert("document,success,attempt"@.len() == 24);
    assert(segments("document,success,attempt"@)[1] == "success"@);
    assert(
        "document,success,attempt_count"@ =~= "document"@ + seq![','] + "success,attempt_count"@
    );
    lemma_under(
        Tree::Null,
        "document"@,
        "success,attempt_count"@,
        "document,success,attempt_count"@,
    );
    assert("success,attempt_count"@ =~= "success"@ + seq![','] + "attempt_count"@);
    lemma_under(Tree::Null, "success"@, "attempt_count"@, "success,attempt_count"@);
    assert("document,success,attempt_count"@.len() == 30);
    assert(segments("document,success,attempt_count"@)[1] == "success"@);
    assert(
        "document,success,adapter_entry_count_observed"@
            =~= "document"@ + seq![','] + "success,adapter_entry_count_observed"@
    );
    lemma_under(
        Tree::Null,
        "document"@,
        "success,adapter_entry_count_observed"@,
        "document,success,adapter_entry_count_observed"@,
    );
    assert(
        "success,adapter_entry_count_observed"@
            =~= "success"@ + seq![','] + "adapter_entry_count_observed"@
    );
    lemma_under(
        Tree::Null,
        "success"@,
        "adapter_entry_count_observed"@,
        "success,adapter_entry_count_observed"@,
    );
    assert("document,success,adapter_entry_count_observed"@.len() == 45);
    assert(segments("document,success,adapter_entry_count_observed"@)[1] == "success"@);
    assert(at(at(record[13], "document"@), "kind"@) == at(at(record[2], "document"@), "kind"@)) by {
        stays_beside(l, known, answers, record, 2, "document"@, "kind"@);
        stays_beside(l, known, answers, record, 3, "document"@, "kind"@);
        stays_beside(l, known, answers, record, 4, "document"@, "kind"@);
        stays_beside(l, known, answers, record, 5, "document"@, "kind"@);
        stays_beside(l, known, answers, record, 6, "document"@, "kind"@);
        stays_beside(l, known, answers, record, 7, "document"@, "kind"@);
        stays_beside(l, known, answers, record, 8, "document"@, "kind"@);
        stays_beside(l, known, answers, record, 9, "document"@, "kind"@);
        stays_beside(l, known, answers, record, 10, "document"@, "kind"@);
        stays_beside(l, known, answers, record, 11, "document"@, "kind"@);
        stays_beside(l, known, answers, record, 12, "document"@, "kind"@);
    }
}

proof fn lemma_smoke_kind_2(known: Tree, answers: Seq<(Tree, bool)>, record: Seq<Tree>)
    requires
        passed(LOCAL_MODEL_REPORT@, known, answers, record),
    ensures
        at(at(record[25], "document"@), "kind"@) == at(at(record[13], "document"@), "kind"@),
{
    let l = LOCAL_MODEL_REPORT@;
    reveal_strlit("document");
    reveal_strlit("reply");
    reveal_strlit("success,terminal");
    reveal_strlit("document,success,terminal");
    reveal_strlit("success");
    reveal_strlit("terminal");
    reveal_strlit("kind");
    reveal_strlit("success,side_effect");
    reveal_strlit("document,success,side_effect");
    reveal_strlit("side_effect");
    reveal_strlit("success,idempotency");
    reveal_strlit("document,success,idempotency");
    reveal_strlit("idempotency");
    reveal_strlit("success,cancellation");
    reveal_strlit("document,success,cancellation");
    reveal_strlit("cancellation");
    reveal_strlit("success,selected_context_observed");
    reveal_strlit("document,success,selected_context_observed");
    reveal_strlit("selected_context_observed");
    reveal_strlit("success,omitted_context_observed");
    reveal_strlit("document,success,omitted_context_observed");
    reveal_strlit("omitted_context_observed");
    reveal_strlit("success,progress_observations");
    reveal_strlit("document,success,progress_observations");
    reveal_strlit("progress_observations");
    reveal_strlit("success,usage_input_supplied");
    reveal_strlit("document,success,usage_input_supplied");
    reveal_strlit("usage_input_supplied");
    reveal_strlit("success,usage_output_supplied");
    reveal_strlit("document,success,usage_output_supplied");
    reveal_strlit("usage_output_supplied");
    reveal_strlit("success,finish_reason_supplied");
    reveal_strlit("document,success,finish_reason_supplied");
    reveal_strlit("finish_reason_supplied");
    reveal_strlit("success,response_identity_supplied");
    reveal_strlit("document,success,response_identity_supplied");
    reveal_strlit("response_identity_supplied");
    reveal_strlit("success,artifact_count");
    reveal_strlit("document,success,artifact_count");
    reveal_strlit("artifact_count");
    assert("document"@.len() == 8);
    assert("reply"@.len() == 5);
    assert("document,success,terminal"@ =~= "document"@ + seq![','] + "success,terminal"@);
    lemma_under(Tree::Null, "document"@, "success,terminal"@, "document,success,terminal"@);
    assert("success,terminal"@ =~= "success"@ + seq![','] + "terminal"@);
    lemma_under(Tree::Null, "success"@, "terminal"@, "success,terminal"@);
    assert("success"@.len() == 7);
    assert("kind"@.len() == 4);
    assert("document,success,terminal"@.len() == 25);
    assert(segments("document,success,terminal"@)[1] == "success"@);
    assert("document,success,side_effect"@ =~= "document"@ + seq![','] + "success,side_effect"@);
    lemma_under(Tree::Null, "document"@, "success,side_effect"@, "document,success,side_effect"@);
    assert("success,side_effect"@ =~= "success"@ + seq![','] + "side_effect"@);
    lemma_under(Tree::Null, "success"@, "side_effect"@, "success,side_effect"@);
    assert("document,success,side_effect"@.len() == 28);
    assert(segments("document,success,side_effect"@)[1] == "success"@);
    assert("document,success,idempotency"@ =~= "document"@ + seq![','] + "success,idempotency"@);
    lemma_under(Tree::Null, "document"@, "success,idempotency"@, "document,success,idempotency"@);
    assert("success,idempotency"@ =~= "success"@ + seq![','] + "idempotency"@);
    lemma_under(Tree::Null, "success"@, "idempotency"@, "success,idempotency"@);
    assert("document,success,idempotency"@.len() == 28);
    assert(segments("document,success,idempotency"@)[1] == "success"@);
    assert("document,success,cancellation"@ =~= "document"@ + seq![','] + "success,cancellation"@);
    lemma_under(Tree::Null, "document"@, "success,cancellation"@, "document,success,cancellation"@);
    assert("success,cancellation"@ =~= "success"@ + seq![','] + "cancellation"@);
    lemma_under(Tree::Null, "success"@, "cancellation"@, "success,cancellation"@);
    assert("document,success,cancellation"@.len() == 29);
    assert(segments("document,success,cancellation"@)[1] == "success"@);
    assert(
        "document,success,selected_context_observed"@
            =~= "document"@ + seq![','] + "success,selected_context_observed"@
    );
    lemma_under(
        Tree::Null,
        "document"@,
        "success,selected_context_observed"@,
        "document,success,selected_context_observed"@,
    );
    assert(
        "success,selected_context_observed"@
            =~= "success"@ + seq![','] + "selected_context_observed"@
    );
    lemma_under(
        Tree::Null,
        "success"@,
        "selected_context_observed"@,
        "success,selected_context_observed"@,
    );
    assert("document,success,selected_context_observed"@.len() == 42);
    assert(segments("document,success,selected_context_observed"@)[1] == "success"@);
    assert(
        "document,success,omitted_context_observed"@
            =~= "document"@ + seq![','] + "success,omitted_context_observed"@
    );
    lemma_under(
        Tree::Null,
        "document"@,
        "success,omitted_context_observed"@,
        "document,success,omitted_context_observed"@,
    );
    assert(
        "success,omitted_context_observed"@
            =~= "success"@ + seq![','] + "omitted_context_observed"@
    );
    lemma_under(
        Tree::Null,
        "success"@,
        "omitted_context_observed"@,
        "success,omitted_context_observed"@,
    );
    assert("document,success,omitted_context_observed"@.len() == 41);
    assert(segments("document,success,omitted_context_observed"@)[1] == "success"@);
    assert(
        "document,success,progress_observations"@
            =~= "document"@ + seq![','] + "success,progress_observations"@
    );
    lemma_under(
        Tree::Null,
        "document"@,
        "success,progress_observations"@,
        "document,success,progress_observations"@,
    );
    assert("success,progress_observations"@ =~= "success"@ + seq![','] + "progress_observations"@);
    lemma_under(Tree::Null, "success"@, "progress_observations"@, "success,progress_observations"@);
    assert("document,success,progress_observations"@.len() == 38);
    assert(segments("document,success,progress_observations"@)[1] == "success"@);
    assert(
        "document,success,usage_input_supplied"@
            =~= "document"@ + seq![','] + "success,usage_input_supplied"@
    );
    lemma_under(
        Tree::Null,
        "document"@,
        "success,usage_input_supplied"@,
        "document,success,usage_input_supplied"@,
    );
    assert("success,usage_input_supplied"@ =~= "success"@ + seq![','] + "usage_input_supplied"@);
    lemma_under(Tree::Null, "success"@, "usage_input_supplied"@, "success,usage_input_supplied"@);
    assert("document,success,usage_input_supplied"@.len() == 37);
    assert(segments("document,success,usage_input_supplied"@)[1] == "success"@);
    assert(
        "document,success,usage_output_supplied"@
            =~= "document"@ + seq![','] + "success,usage_output_supplied"@
    );
    lemma_under(
        Tree::Null,
        "document"@,
        "success,usage_output_supplied"@,
        "document,success,usage_output_supplied"@,
    );
    assert("success,usage_output_supplied"@ =~= "success"@ + seq![','] + "usage_output_supplied"@);
    lemma_under(Tree::Null, "success"@, "usage_output_supplied"@, "success,usage_output_supplied"@);
    assert("document,success,usage_output_supplied"@.len() == 38);
    assert(segments("document,success,usage_output_supplied"@)[1] == "success"@);
    assert(
        "document,success,finish_reason_supplied"@
            =~= "document"@ + seq![','] + "success,finish_reason_supplied"@
    );
    lemma_under(
        Tree::Null,
        "document"@,
        "success,finish_reason_supplied"@,
        "document,success,finish_reason_supplied"@,
    );
    assert(
        "success,finish_reason_supplied"@ =~= "success"@ + seq![','] + "finish_reason_supplied"@
    );
    lemma_under(
        Tree::Null,
        "success"@,
        "finish_reason_supplied"@,
        "success,finish_reason_supplied"@,
    );
    assert("document,success,finish_reason_supplied"@.len() == 39);
    assert(segments("document,success,finish_reason_supplied"@)[1] == "success"@);
    assert(
        "document,success,response_identity_supplied"@
            =~= "document"@ + seq![','] + "success,response_identity_supplied"@
    );
    lemma_under(
        Tree::Null,
        "document"@,
        "success,response_identity_supplied"@,
        "document,success,response_identity_supplied"@,
    );
    assert(
        "success,response_identity_supplied"@
            =~= "success"@ + seq![','] + "response_identity_supplied"@
    );
    lemma_under(
        Tree::Null,
        "success"@,
        "response_identity_supplied"@,
        "success,response_identity_supplied"@,
    );
    assert("document,success,response_identity_supplied"@.len() == 43);
    assert(segments("document,success,response_identity_supplied"@)[1] == "success"@);
    assert(
        "document,success,artifact_count"@ =~= "document"@ + seq![','] + "success,artifact_count"@
    );
    lemma_under(
        Tree::Null,
        "document"@,
        "success,artifact_count"@,
        "document,success,artifact_count"@,
    );
    assert("success,artifact_count"@ =~= "success"@ + seq![','] + "artifact_count"@);
    lemma_under(Tree::Null, "success"@, "artifact_count"@, "success,artifact_count"@);
    assert("document,success,artifact_count"@.len() == 31);
    assert(segments("document,success,artifact_count"@)[1] == "success"@);
    assert(at(at(record[25], "document"@), "kind"@) == at(at(record[13], "document"@), "kind"@)) by {
        stays_beside(l, known, answers, record, 13, "document"@, "kind"@);
        stays_beside(l, known, answers, record, 14, "document"@, "kind"@);
        stays_beside(l, known, answers, record, 15, "document"@, "kind"@);
        stays_beside(l, known, answers, record, 16, "document"@, "kind"@);
        stays_beside(l, known, answers, record, 17, "document"@, "kind"@);
        stays_beside(l, known, answers, record, 18, "document"@, "kind"@);
        stays_beside(l, known, answers, record, 19, "document"@, "kind"@);
        stays_beside(l, known, answers, record, 20, "document"@, "kind"@);
        stays_beside(l, known, answers, record, 21, "document"@, "kind"@);
        stays_beside(l, known, answers, record, 22, "document"@, "kind"@);
        stays_beside(l, known, answers, record, 23, "document"@, "kind"@);
        stays_beside(l, known, answers, record, 24, "document"@, "kind"@);
    }
}

proof fn lemma_smoke_kind_3(known: Tree, answers: Seq<(Tree, bool)>, record: Seq<Tree>)
    requires
        passed(LOCAL_MODEL_REPORT@, known, answers, record),
    ensures
        at(at(record[36], "document"@), "kind"@) == at(at(record[25], "document"@), "kind"@),
{
    let l = LOCAL_MODEL_REPORT@;
    reveal_strlit("document");
    reveal_strlit("reply");
    reveal_strlit("success,restart_duplicate_free");
    reveal_strlit("document,success,restart_duplicate_free");
    reveal_strlit("success");
    reveal_strlit("restart_duplicate_free");
    reveal_strlit("kind");
    reveal_strlit("uncertainty,run");
    reveal_strlit("document,uncertainty,run");
    reveal_strlit("uncertainty");
    reveal_strlit("run");
    reveal_strlit("uncertainty,attempt");
    reveal_strlit("document,uncertainty,attempt");
    reveal_strlit("attempt");
    reveal_strlit("uncertainty,adapter_entry_count");
    reveal_strlit("document,uncertainty,adapter_entry_count");
    reveal_strlit("adapter_entry_count");
    reveal_strlit("uncertainty,automatic_retry_refused");
    reveal_strlit("document,uncertainty,automatic_retry_refused");
    reveal_strlit("automatic_retry_refused");
    reveal_strlit("uncertainty,authorized_retry_refused");
    reveal_strlit("document,uncertainty,authorized_retry_refused");
    reveal_strlit("authorized_retry_refused");
    reveal_strlit("uncertainty,retained");
    reveal_strlit("document,uncertainty,retained");
    reveal_strlit("retained");
    reveal_strlit("uncertainty,restart_duplicate_free");
    reveal_strlit("document,uncertainty,restart_duplicate_free");
    reveal_strlit("strict_external_evidence,reason");
    reveal_strlit("document,strict_external_evidence,reason");
    reveal_strlit("strict_external_evidence");
    reveal_strlit("reason");
    reveal_strlit("strict_external_evidence,run");
    reveal_strlit("document,strict_external_evidence,run");
    reveal_strlit("qualifying");
    reveal_strlit("document,qualifying");
    assert("document"@.len() == 8);
    assert("reply"@.len() == 5);
    assert(
        "document,success,restart_duplicate_free"@
            =~= "document"@ + seq![','] + "success,restart_duplicate_free"@
    );
    lemma_under(
        Tree::Null,
        "document"@,
        "success,restart_duplicate_free"@,
        "document,success,restart_duplicate_free"@,
    );
    assert(
        "success,restart_duplicate_free"@ =~= "success"@ + seq![','] + "restart_duplicate_free"@
    );
    lemma_under(
        Tree::Null,
        "success"@,
        "restart_duplicate_free"@,
        "success,restart_duplicate_free"@,
    );
    assert("success"@.len() == 7);
    assert("kind"@.len() == 4);
    assert("document,success,restart_duplicate_free"@.len() == 39);
    assert(segments("document,success,restart_duplicate_free"@)[1] == "success"@);
    assert("document,uncertainty,run"@ =~= "document"@ + seq![','] + "uncertainty,run"@);
    lemma_under(Tree::Null, "document"@, "uncertainty,run"@, "document,uncertainty,run"@);
    assert("uncertainty,run"@ =~= "uncertainty"@ + seq![','] + "run"@);
    lemma_under(Tree::Null, "uncertainty"@, "run"@, "uncertainty,run"@);
    assert("uncertainty"@.len() == 11);
    assert("document,uncertainty,run"@.len() == 24);
    assert(segments("document,uncertainty,run"@)[1] == "uncertainty"@);
    assert("document,uncertainty,attempt"@ =~= "document"@ + seq![','] + "uncertainty,attempt"@);
    lemma_under(Tree::Null, "document"@, "uncertainty,attempt"@, "document,uncertainty,attempt"@);
    assert("uncertainty,attempt"@ =~= "uncertainty"@ + seq![','] + "attempt"@);
    lemma_under(Tree::Null, "uncertainty"@, "attempt"@, "uncertainty,attempt"@);
    assert("document,uncertainty,attempt"@.len() == 28);
    assert(segments("document,uncertainty,attempt"@)[1] == "uncertainty"@);
    assert(
        "document,uncertainty,adapter_entry_count"@
            =~= "document"@ + seq![','] + "uncertainty,adapter_entry_count"@
    );
    lemma_under(
        Tree::Null,
        "document"@,
        "uncertainty,adapter_entry_count"@,
        "document,uncertainty,adapter_entry_count"@,
    );
    assert(
        "uncertainty,adapter_entry_count"@ =~= "uncertainty"@ + seq![','] + "adapter_entry_count"@
    );
    lemma_under(
        Tree::Null,
        "uncertainty"@,
        "adapter_entry_count"@,
        "uncertainty,adapter_entry_count"@,
    );
    assert("document,uncertainty,adapter_entry_count"@.len() == 40);
    assert(segments("document,uncertainty,adapter_entry_count"@)[1] == "uncertainty"@);
    assert(
        "document,uncertainty,automatic_retry_refused"@
            =~= "document"@ + seq![','] + "uncertainty,automatic_retry_refused"@
    );
    lemma_under(
        Tree::Null,
        "document"@,
        "uncertainty,automatic_retry_refused"@,
        "document,uncertainty,automatic_retry_refused"@,
    );
    assert(
        "uncertainty,automatic_retry_refused"@
            =~= "uncertainty"@ + seq![','] + "automatic_retry_refused"@
    );
    lemma_under(
        Tree::Null,
        "uncertainty"@,
        "automatic_retry_refused"@,
        "uncertainty,automatic_retry_refused"@,
    );
    assert("document,uncertainty,automatic_retry_refused"@.len() == 44);
    assert(segments("document,uncertainty,automatic_retry_refused"@)[1] == "uncertainty"@);
    assert(
        "document,uncertainty,authorized_retry_refused"@
            =~= "document"@ + seq![','] + "uncertainty,authorized_retry_refused"@
    );
    lemma_under(
        Tree::Null,
        "document"@,
        "uncertainty,authorized_retry_refused"@,
        "document,uncertainty,authorized_retry_refused"@,
    );
    assert(
        "uncertainty,authorized_retry_refused"@
            =~= "uncertainty"@ + seq![','] + "authorized_retry_refused"@
    );
    lemma_under(
        Tree::Null,
        "uncertainty"@,
        "authorized_retry_refused"@,
        "uncertainty,authorized_retry_refused"@,
    );
    assert("document,uncertainty,authorized_retry_refused"@.len() == 45);
    assert(segments("document,uncertainty,authorized_retry_refused"@)[1] == "uncertainty"@);
    assert("document,uncertainty,retained"@ =~= "document"@ + seq![','] + "uncertainty,retained"@);
    lemma_under(Tree::Null, "document"@, "uncertainty,retained"@, "document,uncertainty,retained"@);
    assert("uncertainty,retained"@ =~= "uncertainty"@ + seq![','] + "retained"@);
    lemma_under(Tree::Null, "uncertainty"@, "retained"@, "uncertainty,retained"@);
    assert("document,uncertainty,retained"@.len() == 29);
    assert(segments("document,uncertainty,retained"@)[1] == "uncertainty"@);
    assert(
        "document,uncertainty,restart_duplicate_free"@
            =~= "document"@ + seq![','] + "uncertainty,restart_duplicate_free"@
    );
    lemma_under(
        Tree::Null,
        "document"@,
        "uncertainty,restart_duplicate_free"@,
        "document,uncertainty,restart_duplicate_free"@,
    );
    assert(
        "uncertainty,restart_duplicate_free"@
            =~= "uncertainty"@ + seq![','] + "restart_duplicate_free"@
    );
    lemma_under(
        Tree::Null,
        "uncertainty"@,
        "restart_duplicate_free"@,
        "uncertainty,restart_duplicate_free"@,
    );
    assert("document,uncertainty,restart_duplicate_free"@.len() == 43);
    assert(segments("document,uncertainty,restart_duplicate_free"@)[1] == "uncertainty"@);
    assert(
        "document,strict_external_evidence,reason"@
            =~= "document"@ + seq![','] + "strict_external_evidence,reason"@
    );
    lemma_under(
        Tree::Null,
        "document"@,
        "strict_external_evidence,reason"@,
        "document,strict_external_evidence,reason"@,
    );
    assert(
        "strict_external_evidence,reason"@ =~= "strict_external_evidence"@ + seq![','] + "reason"@
    );
    lemma_under(
        Tree::Null,
        "strict_external_evidence"@,
        "reason"@,
        "strict_external_evidence,reason"@,
    );
    assert("strict_external_evidence"@.len() == 24);
    assert("document,strict_external_evidence,reason"@.len() == 40);
    assert(segments("document,strict_external_evidence,reason"@)[1] == "strict_external_evidence"@);
    assert(
        "document,strict_external_evidence,run"@
            =~= "document"@ + seq![','] + "strict_external_evidence,run"@
    );
    lemma_under(
        Tree::Null,
        "document"@,
        "strict_external_evidence,run"@,
        "document,strict_external_evidence,run"@,
    );
    assert("strict_external_evidence,run"@ =~= "strict_external_evidence"@ + seq![','] + "run"@);
    lemma_under(Tree::Null, "strict_external_evidence"@, "run"@, "strict_external_evidence,run"@);
    assert("document,strict_external_evidence,run"@.len() == 37);
    assert(segments("document,strict_external_evidence,run"@)[1] == "strict_external_evidence"@);
    assert("document,qualifying"@ =~= "document"@ + seq![','] + "qualifying"@);
    lemma_under(Tree::Null, "document"@, "qualifying"@, "document,qualifying"@);
    lemma_single_segment("qualifying"@);
    assert("qualifying"@.len() == 10);
    assert("document,qualifying"@.len() == 19);
    assert(segments("document,qualifying"@)[1] == "qualifying"@);
    assert(at(at(record[36], "document"@), "kind"@) == at(at(record[25], "document"@), "kind"@)) by {
        stays_beside(l, known, answers, record, 25, "document"@, "kind"@);
        stays_beside(l, known, answers, record, 26, "document"@, "kind"@);
        stays_beside(l, known, answers, record, 27, "document"@, "kind"@);
        stays_beside(l, known, answers, record, 28, "document"@, "kind"@);
        stays_beside(l, known, answers, record, 29, "document"@, "kind"@);
        stays_beside(l, known, answers, record, 30, "document"@, "kind"@);
        stays_beside(l, known, answers, record, 31, "document"@, "kind"@);
        stays_beside(l, known, answers, record, 32, "document"@, "kind"@);
        stays_beside(l, known, answers, record, 33, "document"@, "kind"@);
        stays_beside(l, known, answers, record, 34, "document"@, "kind"@);
        stays_beside(l, known, answers, record, 35, "document"@, "kind"@);
    }
}

/// A model-only smoke run says so: it is of its own kind, no strict external evidence was run, and it
/// never qualifies, whatever it found.
pub proof fn smoke_reports_never_qualify(known: Tree)
    requires
        known is Object,
    ensures
        listed_document(LOCAL_MODEL_REPORT@, known) matches Ok(report) ==> {
            &&& at(report, "kind"@) == Tree::Text("local_model_smoke"@)
            &&& at(report, "strict_external_evidence,run"@) == Tree::Bool(false)
            &&& at(report, "qualifying"@) == Tree::Bool(false)
        },
{
    if listed_document(LOCAL_MODEL_REPORT@, known) is Ok {
        built_documents_finish(LOCAL_MODEL_REPORT@, known);
        let record = finished_scenarios_are_recorded(LOCAL_MODEL_REPORT@, known, seq![]);
        lemma_smoke(known, seq![], record);
        lemma_smoke_kind_1(known, seq![], record);
        lemma_smoke_kind_2(known, seq![], record);
        lemma_smoke_kind_3(known, seq![], record);
        let env = record.last();
        reveal_strlit("document");
        reveal_strlit("kind");
        reveal_strlit("document,kind");
        reveal_strlit("strict_external_evidence,run");
        reveal_strlit("document,strict_external_evidence,run");
        reveal_strlit("qualifying");
        reveal_strlit("document,qualifying");
        assert("document,kind"@ =~= "document"@ + seq![','] + "kind"@);
        assert("document,strict_external_evidence,run"@ =~= "document"@ + seq![',']
            + "strict_external_evidence,run"@);
        assert("document,qualifying"@ =~= "document"@ + seq![','] + "qualifying"@);
        lemma_under(record[2], "document"@, "kind"@, "document,kind"@);
        lemma_under(
            env,
            "document"@,
            "strict_external_evidence,run"@,
            "document,strict_external_evidence,run"@,
        );
        lemma_under(env, "document"@, "qualifying"@, "document,qualifying"@);
        assert(record.last() == record[36]);
    }
}

proof fn lemma_report(known: Tree, answers: Seq<(Tree, bool)>, record: Seq<Tree>)
    requires
        passed(EXTERNAL_REPORT@, known, answers, record),
    ensures
        at(at(record[16], "document"@), "fixture_mode"@) == at(known, "fixture_mode"@),
        at(at(record[16], "document"@), "failure_reason"@) == at(known, "failure_reason"@),
        at(at(record[16], "document"@), "qualifying"@) == at(known, "qualifying"@),
{
    let l = EXTERNAL_REPORT@;
    reveal_strlit("fixture_mode");
    reveal_strlit("reply");
    reveal_strlit("document");
    reveal_strlit("document,schema_version");
    reveal_strlit("document,generated_at_unix_ms");
    reveal_strlit("document,platform");
    reveal_strlit("document,milkdrift");
    reveal_strlit("document,configuration_digest");
    reveal_strlit("document,process");
    reveal_strlit("document,model");
    reveal_strlit("document,validation");
    reveal_strlit("redaction,secrets");
    reveal_strlit("redaction,texts");
    reveal_strlit("redaction,files");
    reveal_strlit("redaction,endpoints");
    reveal_strlit("document,redactions");
    reveal_strlit("document,fixture_mode");
    reveal_strlit("failure_reason");
    reveal_strlit("document,failure_reason");
    reveal_strlit("qualifying");
    reveal_strlit("document,qualifying");
    assert("fixture_mode"@.len() == 12);
    assert("reply"@.len() == 5);
    assert("document"@.len() == 8);
    lemma_apart("document,schema_version"@, "fixture_mode"@, 0);
    lemma_apart("document,generated_at_unix_ms"@, "fixture_mode"@, 0);
    lemma_apart("document,platform"@, "fixture_mode"@, 0);
    lemma_apart("document,milkdrift"@, "fixture_mode"@, 0);
    lemma_apart("document,configuration_digest"@, "fixture_mode"@, 0);
    lemma_apart("document,process"@, "fixture_mode"@, 0);
    lemma_apart("document,model"@, "fixture_mode"@, 0);
    lemma_apart("document,validation"@, "fixture_mode"@, 0);
    lemma_apart("redaction,secrets"@, "fixture_mode"@, 0);
    lemma_apart("redaction,texts"@, "fixture_mode"@, 0);
    lemma_apart("redaction,files"@, "fixture_mode"@, 0);
    lemma_apart("redaction,endpoints"@, "fixture_mode"@, 0);
    lemma_apart("document,redactions"@, "fixture_mode"@, 0);
    assert("document,fixture_mode"@ =~= "document"@ + seq![','] + "fixture_mode"@);
    assert("document,failure_reason"@ =~= "document"@ + seq![','] + "failure_reason"@);
    lemma_under(Tree::Null, "document"@, "failure_reason"@, "document,failure_reason"@);
    lemma_single_segment("failure_reason"@);
    assert("failure_reason"@.len() == 14);
    assert("document,failure_reason"@.len() == 23);
    assert(segments("document,failure_reason"@)[1] == "failure_reason"@);
    assert("document,qualifying"@ =~= "document"@ + seq![','] + "qualifying"@);
    lemma_under(Tree::Null, "document"@, "qualifying"@, "document,qualifying"@);
    lemma_single_segment("qualifying"@);
    assert("qualifying"@.len() == 10);
    assert("document,qualifying"@.len() == 19);
    assert(segments("document,qualifying"@)[1] == "qualifying"@);
    lemma_apart("document,schema_version"@, "failure_reason"@, 0);
    lemma_apart("document,generated_at_unix_ms"@, "failure_reason"@, 0);
    lemma_apart("document,platform"@, "failure_reason"@, 0);
    lemma_apart("document,milkdrift"@, "failure_reason"@, 0);
    lemma_apart("document,configuration_digest"@, "failure_reason"@, 0);
    lemma_apart("document,process"@, "failure_reason"@, 0);
    lemma_apart("document,model"@, "failure_reason"@, 0);
    lemma_apart("document,validation"@, "failure_reason"@, 0);
    lemma_apart("redaction,secrets"@, "failure_reason"@, 0);
    lemma_apart("redaction,texts"@, "failure_reason"@, 0);
    lemma_apart("redaction,files"@, "failure_reason"@, 0);
    lemma_apart("redaction,endpoints"@, "failure_reason"@, 0);
    lemma_apart("document,redactions"@, "failure_reason"@, 0);
    lemma_apart("document,fixture_mode"@, "failure_reason"@, 0);
    lemma_apart("document,schema_version"@, "qualifying"@, 0);
    lemma_apart("document,generated_at_unix_ms"@, "qualifying"@, 0);
    lemma_apart("document,platform"@, "qualifying"@, 0);
    lemma_apart("document,milkdrift"@, "qualifying"@, 0);
    lemma_apart("document,configuration_digest"@, "qualifying"@, 0);
    lemma_apart("document,process"@, "qualifying"@, 0);
    lemma_apart("document,model"@, "qualifying"@, 0);
    lemma_apart("document,validation"@, "qualifying"@, 0);
    lemma_apart("redaction,secrets"@, "qualifying"@, 0);
    lemma_apart("redaction,texts"@, "qualifying"@, 0);
    lemma_apart("redaction,files"@, "qualifying"@, 0);
    lemma_apart("redaction,endpoints"@, "qualifying"@, 0);
    lemma_apart("document,redactions"@, "qualifying"@, 0);
    lemma_apart("document,fixture_mode"@, "qualifying"@, 0);
    lemma_apart("document,failure_reason"@, "qualifying"@, 0);
    assert(at(at(record[16], "document"@), "fixture_mode"@) == at(known, "fixture_mode"@)) by {
        assert(forall|j: int|
            0 <= j < 13 ==> is_check((#[trigger] l[j]).0@) || !touches(l[j].1@, "fixture_mode"@));
        stays_through(l, known, answers, record, 0, 13, "fixture_mode"@);
        was_put(l, known, answers, record, 13);
        lemma_under(record[14], "document"@, "fixture_mode"@, "document,fixture_mode"@);
        stays_beside(l, known, answers, record, 14, "document"@, "fixture_mode"@);
        stays_beside(l, known, answers, record, 15, "document"@, "fixture_mode"@);
        lemma_under(record[16], "document"@, "fixture_mode"@, "document,fixture_mode"@);
    }
    assert(at(at(record[16], "document"@), "failure_reason"@) == at(known, "failure_reason"@)) by {
        assert(forall|j: int|
            0 <= j < 14 ==> is_check((#[trigger] l[j]).0@) || !touches(l[j].1@, "failure_reason"@));
        stays_through(l, known, answers, record, 0, 14, "failure_reason"@);
        was_put(l, known, answers, record, 14);
        lemma_under(record[15], "document"@, "failure_reason"@, "document,failure_reason"@);
        stays_beside(l, known, answers, record, 15, "document"@, "failure_reason"@);
        lemma_under(record[16], "document"@, "failure_reason"@, "document,failure_reason"@);
    }
    assert(at(at(record[16], "document"@), "qualifying"@) == at(known, "qualifying"@)) by {
        assert(forall|j: int|
            0 <= j < 15 ==> is_check((#[trigger] l[j]).0@) || !touches(l[j].1@, "qualifying"@));
        stays_through(l, known, answers, record, 0, 15, "qualifying"@);
        was_put(l, known, answers, record, 15);
        lemma_under(record[16], "document"@, "qualifying"@, "document,qualifying"@);
    }
}

/// A report says what its run came to: whether it was made with fixtures, why it failed, with
/// nothing where it did not, and whether it qualifies.
pub proof fn reports_state_their_conclusion(facts: Tree, c: Conclusion)
    requires
        facts is Object,
    ensures
        listed_document(EXTERNAL_REPORT@, report_known(facts, c)) matches Ok(report) ==> {
            &&& at(report, "fixture_mode"@) == Tree::Bool(c.fixture_mode)
            &&& at(report, "failure_reason"@) == (match c.failure_reason {
                Some(t) => Tree::Text(t@),
                None => Tree::Null,
            })
            &&& at(report, "qualifying"@) == Tree::Bool(c.qualifying)
        },
{
    let known = report_known(facts, c);
    if listed_document(EXTERNAL_REPORT@, known) is Ok {
        built_documents_finish(EXTERNAL_REPORT@, known);
        let record = finished_scenarios_are_recorded(EXTERNAL_REPORT@, known, seq![]);
        lemma_report(known, seq![], record);
        reveal_strlit("fixture_mode");
        reveal_strlit("failure_reason");
        reveal_strlit("qualifying");
        assert("fixture_mode"@.len() == 12);
        assert("failure_reason"@.len() == 14);
        assert("qualifying"@.len() == 10);
        keys_are_found(known, "fixture_mode"@);
        keys_are_found(known, "failure_reason"@);
        keys_are_found(known, "qualifying"@);
        assert(record.last() == record[16]);
    }
}

} // verus!
