//! What finished local-model scenarios have shown of their contracts.

use vstd::prelude::*;

use crate::findings::{
    is_check, items_of, lemma_apart, lemma_two_words, lemma_under, said, saw_contains, saw_false,
    saw_is, saw_nonempty, saw_same, stays, stays_through, text_has, told, touches, unchanged,
    was_kept, was_made, was_said, was_told,
};
use crate::json::{at, Tree};
use crate::makers::{made_rendered, makes_rendered};
use crate::record::{finished, finished_scenarios_are_recorded, passed};
use crate::scenario::{arguments, parts};
use crate::scripts::local_model::{ACCEPTANCE, LOCAL_MODEL};

verus! {

proof fn lemma_model_contract_was_kept_1(known: Tree, answers: Seq<(Tree, bool)>, record: Seq<Tree>)
    requires
        passed(LOCAL_MODEL@, known, answers, record),
    ensures
        items_of(at(told(record, 4), "value"@)).len() > 0,
        at(at(told(record, 4), "value,#0"@), "capability_id"@) == at(known, "capability"@),
        at(at(told(record, 4), "value,#0"@), "generation"@) == at(at(known, "facts"@), "revision"@),
        at(at(told(record, 4), "value,#0"@), "provider_profile"@)
            == at(at(known, "facts"@), "profile_id"@),
{
    let l = LOCAL_MODEL@;
    reveal_strlit("shown");
    reveal_strlit("reply");
    reveal_strlit("value");
    reveal_strlit("shown,value");
    reveal_strlit("generation");
    reveal_strlit("value,#0");
    reveal_strlit("shown,value,#0");
    reveal_strlit("capability_id");
    reveal_strlit("generation,capability_id");
    reveal_strlit("capability");
    reveal_strlit("");
    reveal_strlit("started");
    reveal_strlit("ready");
    reveal_strlit("generation,generation");
    reveal_strlit("facts");
    reveal_strlit("revision");
    reveal_strlit("facts,revision");
    reveal_strlit("provider_profile");
    reveal_strlit("generation,provider_profile");
    reveal_strlit("profile_id");
    reveal_strlit("facts,profile_id");
    assert("shown"@[0] != "reply"@[0]);
    assert("shown,value"@ =~= "shown"@ + seq![','] + "value"@);
    assert("generation"@.len() == 10);
    assert("reply"@.len() == 5);
    assert("shown,value,#0"@ =~= "shown"@ + seq![','] + "value,#0"@);
    assert("generation,capability_id"@ =~= "generation"@ + seq![','] + "capability_id"@);
    assert("capability"@.len() == 10);
    lemma_apart(""@, "capability"@, 0);
    lemma_apart("started"@, "capability"@, 0);
    lemma_apart("ready"@, "capability"@, 0);
    lemma_apart("shown"@, "capability"@, 0);
    lemma_apart("generation"@, "capability"@, 0);
    assert("generation,generation"@ =~= "generation"@ + seq![','] + "generation"@);
    assert("facts"@[0] != "reply"@[0]);
    lemma_apart(""@, "facts"@, 0);
    lemma_apart("started"@, "facts"@, 0);
    lemma_apart("ready"@, "facts"@, 0);
    lemma_apart("shown"@, "facts"@, 0);
    lemma_apart("generation"@, "facts"@, 0);
    assert("facts,revision"@ =~= "facts"@ + seq![','] + "revision"@);
    assert("generation,provider_profile"@ =~= "generation"@ + seq![','] + "provider_profile"@);
    assert("facts,profile_id"@ =~= "facts"@ + seq![','] + "profile_id"@);
    assert(items_of(at(told(record, 4), "value"@)).len() > 0) by {
        was_told(l, known, answers, record, 5);
        lemma_under(record[6], "shown"@, "value"@, "shown,value"@);
        saw_nonempty(l, known, answers, record, 6);
    }
    assert(at(at(told(record, 4), "value,#0"@), "capability_id"@) == at(known, "capability"@)) by {
        was_kept(l, known, answers, record, 7);
        was_told(l, known, answers, record, 5);
        unchanged(l, known, answers, record, 6);
        lemma_under(record[7], "shown"@, "value,#0"@, "shown,value,#0"@);
        lemma_under(record[8], "generation"@, "capability_id"@, "generation,capability_id"@);
        assert(forall|j: int|
            0 <= j < 8 ==> is_check((#[trigger] l[j]).0@) || !touches(l[j].1@, "capability"@));
        stays_through(l, known, answers, record, 0, 8, "capability"@);
        saw_same(l, known, answers, record, 8);
    }
    assert(at(at(told(record, 4), "value,#0"@), "generation"@) == at(at(known, "facts"@), "revision"@)) by {
        was_kept(l, known, answers, record, 7);
        was_told(l, known, answers, record, 5);
        unchanged(l, known, answers, record, 6);
        lemma_under(record[7], "shown"@, "value,#0"@, "shown,value,#0"@);
        unchanged(l, known, answers, record, 8);
        lemma_under(record[9], "generation"@, "generation"@, "generation,generation"@);
        assert(forall|j: int|
            0 <= j < 9 ==> is_check((#[trigger] l[j]).0@) || !touches(l[j].1@, "facts"@));
        stays_through(l, known, answers, record, 0, 9, "facts"@);
        lemma_under(record[9], "facts"@, "revision"@, "facts,revision"@);
        saw_same(l, known, answers, record, 9);
    }
    assert(at(at(told(record, 4), "value,#0"@), "provider_profile"@)
            == at(at(known, "facts"@), "profile_id"@)) by {
        was_kept(l, known, answers, record, 7);
        was_told(l, known, answers, record, 5);
        unchanged(l, known, answers, record, 6);
        lemma_under(record[7], "shown"@, "value,#0"@, "shown,value,#0"@);
        unchanged(l, known, answers, record, 8);
        unchanged(l, known, answers, record, 9);
        lemma_under(record[10], "generation"@, "provider_profile"@, "generation,provider_profile"@);
        assert(forall|j: int|
            0 <= j < 10 ==> is_check((#[trigger] l[j]).0@) || !touches(l[j].1@, "facts"@));
        stays_through(l, known, answers, record, 0, 10, "facts"@);
        lemma_under(record[10], "facts"@, "profile_id"@, "facts,profile_id"@);
        saw_same(l, known, answers, record, 10);
    }
}

proof fn lemma_model_contract_was_kept_2(known: Tree, answers: Seq<(Tree, bool)>, record: Seq<Tree>)
    requires
        passed(LOCAL_MODEL@, known, answers, record),
    ensures
        at(at(record[12], "operation"@), "side_effect"@) == Tree::Text("unknown"@),
        at(at(record[12], "operation"@), "idempotency"@) == Tree::Text("unsupported"@),
        at(at(record[12], "operation"@), "cancellation"@) == Tree::Text("best_effort"@),
        text_has(said(record, 40), "run.timeline"@),
{
    let l = LOCAL_MODEL@;
    reveal_strlit("operation");
    reveal_strlit("reply");
    reveal_strlit("side_effect");
    reveal_strlit("operation,side_effect");
    reveal_strlit("idempotency");
    reveal_strlit("operation,idempotency");
    reveal_strlit("cancellation");
    reveal_strlit("operation,cancellation");
    reveal_strlit("followed");
    assert("operation"@.len() == 9);
    assert("reply"@.len() == 5);
    assert("operation,side_effect"@ =~= "operation"@ + seq![','] + "side_effect"@);
    assert("operation,idempotency"@ =~= "operation"@ + seq![','] + "idempotency"@);
    assert("operation,cancellation"@ =~= "operation"@ + seq![','] + "cancellation"@);
    assert("followed"@.len() == 8);
    assert(at(at(record[12], "operation"@), "side_effect"@) == Tree::Text("unknown"@)) by {
        lemma_under(record[12], "operation"@, "side_effect"@, "operation,side_effect"@);
        saw_is(l, known, answers, record, 12);
    }
    assert(at(at(record[12], "operation"@), "idempotency"@) == Tree::Text("unsupported"@)) by {
        unchanged(l, known, answers, record, 12);
        lemma_under(record[13], "operation"@, "idempotency"@, "operation,idempotency"@);
        saw_is(l, known, answers, record, 13);
    }
    assert(at(at(record[12], "operation"@), "cancellation"@) == Tree::Text("best_effort"@)) by {
        unchanged(l, known, answers, record, 12);
        unchanged(l, known, answers, record, 13);
        lemma_under(record[14], "operation"@, "cancellation"@, "operation,cancellation"@);
        saw_is(l, known, answers, record, 14);
    }
    assert(text_has(said(record, 40), "run.timeline"@)) by {
        was_said(l, known, answers, record, 41);
        saw_contains(l, known, answers, record, 42);
    }
}

proof fn lemma_model_contract_was_kept_3(known: Tree, answers: Seq<(Tree, bool)>, record: Seq<Tree>)
    requires
        passed(LOCAL_MODEL@, known, answers, record),
    ensures
        text_has(said(record, 40), "run.observation"@),
        at(at(told(record, 53), "value"@), "capability_id"@) == at(known, "capability"@),
        at(at(told(record, 53), "value"@), "provider_profile"@)
            == at(at(known, "facts"@), "profile_id"@),
        at(at(told(record, 53), "value"@), "operation_contract,operation"@)
            == Tree::Text("model.generate"@),
{
    let l = LOCAL_MODEL@;
    reveal_strlit("followed");
    reveal_strlit("reply");
    reveal_strlit("model_attempt");
    reveal_strlit("attempt");
    reveal_strlit("value");
    reveal_strlit("attempt,value");
    reveal_strlit("capability_id");
    reveal_strlit("model_attempt,capability_id");
    reveal_strlit("capability");
    reveal_strlit("");
    reveal_strlit("started");
    reveal_strlit("ready");
    reveal_strlit("shown");
    reveal_strlit("generation");
    reveal_strlit("operation");
    reveal_strlit("validated");
    reveal_strlit("imported");
    reveal_strlit("waiting");
    reveal_strlit("waiting_sequence");
    reveal_strlit("killed");
    reveal_strlit("reopened_wait");
    reveal_strlit("reopened_sequence");
    reveal_strlit("following");
    reveal_strlit("signalled");
    reveal_strlit("completed");
    reveal_strlit("model");
    reveal_strlit("omitted");
    reveal_strlit("omitted_attempt_id");
    reveal_strlit("omitted_attempt");
    reveal_strlit("omitted_output");
    reveal_strlit("omitted_artifact");
    reveal_strlit("attempt_id");
    reveal_strlit("provider_profile");
    reveal_strlit("model_attempt,provider_profile");
    reveal_strlit("facts");
    reveal_strlit("profile_id");
    reveal_strlit("facts,profile_id");
    reveal_strlit("operation_contract,operation");
    reveal_strlit("model_attempt,operation_contract,operation");
    assert("followed"@.len() == 8);
    assert("reply"@.len() == 5);
    assert("model_attempt"@.len() == 13);
    assert("attempt"@.len() == 7);
    assert("attempt,value"@ =~= "attempt"@ + seq![','] + "value"@);
    assert("model_attempt,capability_id"@ =~= "model_attempt"@ + seq![','] + "capability_id"@);
    assert("capability"@.len() == 10);
    lemma_apart(""@, "capability"@, 0);
    lemma_apart("started"@, "capability"@, 0);
    lemma_apart("ready"@, "capability"@, 0);
    lemma_apart("shown"@, "capability"@, 0);
    lemma_apart("generation"@, "capability"@, 0);
    lemma_apart("operation"@, "capability"@, 0);
    lemma_apart("validated"@, "capability"@, 0);
    lemma_apart("imported"@, "capability"@, 0);
    lemma_apart("waiting"@, "capability"@, 0);
    lemma_apart("waiting_sequence"@, "capability"@, 0);
    lemma_apart("killed"@, "capability"@, 0);
    lemma_apart("reopened_wait"@, "capability"@, 0);
    lemma_apart("reopened_sequence"@, "capability"@, 0);
    lemma_apart("following"@, "capability"@, 0);
    lemma_apart("signalled"@, "capability"@, 0);
    lemma_apart("completed"@, "capability"@, 1);
    lemma_apart("followed"@, "capability"@, 0);
    lemma_apart("model"@, "capability"@, 0);
    lemma_apart("omitted"@, "capability"@, 0);
    lemma_apart("omitted_attempt_id"@, "capability"@, 0);
    lemma_apart("omitted_attempt"@, "capability"@, 0);
    lemma_apart("omitted_output"@, "capability"@, 0);
    lemma_apart("omitted_artifact"@, "capability"@, 0);
    lemma_apart("attempt_id"@, "capability"@, 0);
    lemma_apart("attempt"@, "capability"@, 0);
    lemma_apart("model_attempt"@, "capability"@, 0);
    assert(
        "model_attempt,provider_profile"@ =~= "model_attempt"@ + seq![','] + "provider_profile"@
    );
    assert("facts"@[0] != "reply"@[0]);
    lemma_apart(""@, "facts"@, 0);
    lemma_apart("started"@, "facts"@, 0);
    lemma_apart("ready"@, "facts"@, 0);
    lemma_apart("shown"@, "facts"@, 0);
    lemma_apart("generation"@, "facts"@, 0);
    lemma_apart("operation"@, "facts"@, 0);
    lemma_apart("validated"@, "facts"@, 0);
    lemma_apart("imported"@, "facts"@, 0);
    lemma_apart("waiting"@, "facts"@, 0);
    lemma_apart("waiting_sequence"@, "facts"@, 0);
    lemma_apart("killed"@, "facts"@, 0);
    lemma_apart("reopened_wait"@, "facts"@, 0);
    lemma_apart("reopened_sequence"@, "facts"@, 0);
    lemma_apart("following"@, "facts"@, 1);
    lemma_apart("signalled"@, "facts"@, 0);
    lemma_apart("completed"@, "facts"@, 0);
    lemma_apart("followed"@, "facts"@, 1);
    lemma_apart("model"@, "facts"@, 0);
    lemma_apart("omitted"@, "facts"@, 0);
    lemma_apart("omitted_attempt_id"@, "facts"@, 0);
    lemma_apart("omitted_attempt"@, "facts"@, 0);
    lemma_apart("omitted_output"@, "facts"@, 0);
    lemma_apart("omitted_artifact"@, "facts"@, 0);
    lemma_apart("attempt_id"@, "facts"@, 0);
    lemma_apart("attempt"@, "facts"@, 0);
    lemma_apart("model_attempt"@, "facts"@, 0);
    assert("facts,profile_id"@ =~= "facts"@ + seq![','] + "profile_id"@);
    assert(
        "model_attempt,operation_contract,operation"@
            =~= "model_attempt"@ + seq![','] + "operation_contract,operation"@
    );
    assert(text_has(said(record, 40), "run.observation"@)) by {
        was_said(l, known, answers, record, 41);
        unchanged(l, known, answers, record, 42);
        saw_contains(l, known, answers, record, 43);
    }
    assert(at(at(told(record, 53), "value"@), "capability_id"@) == at(known, "capability"@)) by {
        was_kept(l, known, answers, record, 55);
        was_told(l, known, answers, record, 54);
        lemma_under(record[55], "attempt"@, "value"@, "attempt,value"@);
        unchanged(l, known, answers, record, 56);
        unchanged(l, known, answers, record, 57);
        unchanged(l, known, answers, record, 58);
        lemma_under(record[59], "model_attempt"@, "capability_id"@, "model_attempt,capability_id"@);
        assert(forall|j: int|
            0 <= j < 59 ==> is_check((#[trigger] l[j]).0@) || !touches(l[j].1@, "capability"@));
        stays_through(l, known, answers, record, 0, 59, "capability"@);
        saw_same(l, known, answers, record, 59);
    }
    assert(at(at(told(record, 53), "value"@), "provider_profile"@)
            == at(at(known, "facts"@), "profile_id"@)) by {
        was_kept(l, known, answers, record, 55);
        was_told(l, known, answers, record, 54);
        lemma_under(record[55], "attempt"@, "value"@, "attempt,value"@);
        assert(forall|j: int|
            56 <= j < 60 ==> is_check((#[trigger] l[j]).0@) || !touches(l[j].1@, "model_attempt"@));
        stays_through(l, known, answers, record, 56, 60, "model_attempt"@);
        lemma_under(
            record[60],
            "model_attempt"@,
            "provider_profile"@,
            "model_attempt,provider_profile"@,
        );
        assert(forall|j: int|
            0 <= j < 60 ==> is_check((#[trigger] l[j]).0@) || !touches(l[j].1@, "facts"@));
        stays_through(l, known, answers, record, 0, 60, "facts"@);
        lemma_under(record[60], "facts"@, "profile_id"@, "facts,profile_id"@);
        saw_same(l, known, answers, record, 60);
    }
    assert(at(at(told(record, 53), "value"@), "operation_contract,operation"@)
            == Tree::Text("model.generate"@)) by {
        was_kept(l, known, answers, record, 55);
        was_told(l, known, answers, record, 54);
        lemma_under(record[55], "attempt"@, "value"@, "attempt,value"@);
        assert(forall|j: int|
            56 <= j < 61 ==> is_check((#[trigger] l[j]).0@) || !touches(l[j].1@, "model_attempt"@));
        stays_through(l, known, answers, record, 56, 61, "model_attempt"@);
        lemma_under(
            record[61],
            "model_attempt"@,
            "operation_contract,operation"@,
            "model_attempt,operation_contract,operation"@,
        );
        saw_is(l, known, answers, record, 61);
    }
}

proof fn lemma_model_contract_was_kept_4(known: Tree, answers: Seq<(Tree, bool)>, record: Seq<Tree>)
    requires
        passed(LOCAL_MODEL@, known, answers, record),
    ensures
        at(at(told(record, 53), "value"@), "operation_contract,side_effect"@)
            == Tree::Text("unknown"@),
        at(at(told(record, 53), "value"@), "operation_contract,idempotency"@)
            == Tree::Text("unsupported"@),
        at(at(told(record, 53), "value"@), "operation_contract,cancellation"@)
            == Tree::Text("best_effort"@),
        at(at(told(record, 53), "value"@), "idempotency_key_present"@) == Tree::Bool(false),
{
    let l = LOCAL_MODEL@;
    reveal_strlit("model_attempt");
    reveal_strlit("reply");
    reveal_strlit("attempt");
    reveal_strlit("value");
    reveal_strlit("attempt,value");
    reveal_strlit("operation_contract,side_effect");
    reveal_strlit("model_attempt,operation_contract,side_effect");
    reveal_strlit("operation_contract,idempotency");
    reveal_strlit("model_attempt,operation_contract,idempotency");
    reveal_strlit("operation_contract,cancellation");
    reveal_strlit("model_attempt,operation_contract,cancellation");
    reveal_strlit("idempotency_key_present");
    reveal_strlit("model_attempt,idempotency_key_present");
    assert("model_attempt"@.len() == 13);
    assert("reply"@.len() == 5);
    assert("attempt"@.len() == 7);
    assert("attempt,value"@ =~= "attempt"@ + seq![','] + "value"@);
    assert(
        "model_attempt,operation_contract,side_effect"@
            =~= "model_attempt"@ + seq![','] + "operation_contract,side_effect"@
    );
    assert(
        "model_attempt,operation_contract,idempotency"@
            =~= "model_attempt"@ + seq![','] + "operation_contract,idempotency"@
    );
    assert(
        "model_attempt,operation_contract,cancellation"@
            =~= "model_attempt"@ + seq![','] + "operation_contract,cancellation"@
    );
    assert(
        "model_attempt,idempotency_key_present"@
            =~= "model_attempt"@ + seq![','] + "idempotency_key_present"@
    );
    assert(at(at(told(record, 53), "value"@), "operation_contract,side_effect"@)
            == Tree::Text("unknown"@)) by {
        was_kept(l, known, answers, record, 55);
        was_told(l, known, answers, record, 54);
        lemma_under(record[55], "attempt"@, "value"@, "attempt,value"@);
        assert(forall|j: int|
            56 <= j < 62 ==> is_check((#[trigger] l[j]).0@) || !touches(l[j].1@, "model_attempt"@));
        stays_through(l, known, answers, record, 56, 62, "model_attempt"@);
        lemma_under(
            record[62],
            "model_attempt"@,
            "operation_contract,side_effect"@,
            "model_attempt,operation_contract,side_effect"@,
        );
        saw_is(l, known, answers, record, 62);
    }
    assert(at(at(told(record, 53), "value"@), "operation_contract,idempotency"@)
            == Tree::Text("unsupported"@)) by {
        was_kept(l, known, answers, record, 55);
        was_told(l, known, answers, record, 54);
        lemma_under(record[55], "attempt"@, "value"@, "attempt,value"@);
        assert(forall|j: int|
            56 <= j < 63 ==> is_check((#[trigger] l[j]).0@) || !touches(l[j].1@, "model_attempt"@));
        stays_through(l, known, answers, record, 56, 63, "model_attempt"@);
        lemma_under(
            record[63],
            "model_attempt"@,
            "operation_contract,idempotency"@,
            "model_attempt,operation_contract,idempotency"@,
        );
        saw_is(l, known, answers, record, 63);
    }
    assert(at(at(told(record, 53), "value"@), "operation_contract,cancellation"@)
            == Tree::Text("best_effort"@)) by {
        was_kept(l, known, answers, record, 55);
        was_told(l, known, answers, record, 54);
        lemma_under(record[55], "attempt"@, "value"@, "attempt,value"@);
        assert(forall|j: int|
            56 <= j < 64 ==> is_check((#[trigger] l[j]).0@) || !touches(l[j].1@, "model_attempt"@));
        stays_through(l, known, answers, record, 56, 64, "model_attempt"@);
        lemma_under(
            record[64],
            "model_attempt"@,
            "operation_contract,cancellation"@,
            "model_attempt,operation_contract,cancellation"@,
        );
        saw_is(l, known, answers, record, 64);
    }
    assert(at(at(told(record, 53), "value"@), "idempotency_key_present"@) == Tree::Bool(false)) by {
        was_kept(l, known, answers, record, 55);
        was_told(l, known, answers, record, 54);
        lemma_under(record[55], "attempt"@, "value"@, "attempt,value"@);
        assert(forall|j: int|
            56 <= j < 65 ==> is_check((#[trigger] l[j]).0@) || !touches(l[j].1@, "model_attempt"@));
        stays_through(l, known, answers, record, 56, 65, "model_attempt"@);
        lemma_under(
            record[65],
            "model_attempt"@,
            "idempotency_key_present"@,
            "model_attempt,idempotency_key_present"@,
        );
        saw_false(l, known, answers, record, 65);
    }
}

proof fn lemma_model_contract_was_kept_5(known: Tree, answers: Seq<(Tree, bool)>, record: Seq<Tree>)
    requires
        passed(LOCAL_MODEL@, known, answers, record),
    ensures
        at(at(at(told(record, 53), "value"@), "capability_provenance"@), "model_profile_revision"@)
            == at(at(known, "facts"@), "revision"@),
        at(at(at(told(record, 53), "value"@), "capability_provenance"@), "provider_protocol"@)
            == at(at(known, "facts"@), "protocol"@),
        at(at(at(told(record, 53), "value"@), "capability_provenance"@), "model_alias"@)
            == at(at(known, "facts"@), "model_alias"@),
        at(at(at(told(record, 53), "value"@), "capability_provenance"@), "endpoint_origin"@)
            == at(at(known, "facts"@), "endpoint_origin"@),
{
    let l = LOCAL_MODEL@;
    reveal_strlit("provenance");
    reveal_strlit("reply");
    reveal_strlit("model_attempt");
    reveal_strlit("attempt");
    reveal_strlit("value");
    reveal_strlit("attempt,value");
    reveal_strlit("capability_provenance");
    reveal_strlit("model_attempt,capability_provenance");
    reveal_strlit("model_profile_revision");
    reveal_strlit("provenance,model_profile_revision");
    reveal_strlit("facts");
    reveal_strlit("");
    reveal_strlit("started");
    reveal_strlit("ready");
    reveal_strlit("shown");
    reveal_strlit("generation");
    reveal_strlit("operation");
    reveal_strlit("validated");
    reveal_strlit("imported");
    reveal_strlit("waiting");
    reveal_strlit("waiting_sequence");
    reveal_strlit("killed");
    reveal_strlit("reopened_wait");
    reveal_strlit("reopened_sequence");
    reveal_strlit("following");
    reveal_strlit("signalled");
    reveal_strlit("completed");
    reveal_strlit("followed");
    reveal_strlit("model");
    reveal_strlit("omitted");
    reveal_strlit("omitted_attempt_id");
    reveal_strlit("omitted_attempt");
    reveal_strlit("omitted_output");
    reveal_strlit("omitted_artifact");
    reveal_strlit("attempt_id");
    reveal_strlit("revision");
    reveal_strlit("facts,revision");
    reveal_strlit("provider_protocol");
    reveal_strlit("provenance,provider_protocol");
    reveal_strlit("protocol");
    reveal_strlit("facts,protocol");
    reveal_strlit("model_alias");
    reveal_strlit("provenance,model_alias");
    reveal_strlit("facts,model_alias");
    reveal_strlit("endpoint_origin");
    reveal_strlit("provenance,endpoint_origin");
    reveal_strlit("facts,endpoint_origin");
    assert("provenance"@.len() == 10);
    assert("reply"@.len() == 5);
    assert("model_attempt"@.len() == 13);
    assert("attempt"@.len() == 7);
    assert("attempt,value"@ =~= "attempt"@ + seq![','] + "value"@);
    assert(
        "model_attempt,capability_provenance"@
            =~= "model_attempt"@ + seq![','] + "capability_provenance"@
    );
    assert(
        "provenance,model_profile_revision"@
            =~= "provenance"@ + seq![','] + "model_profile_revision"@
    );
    assert("facts"@[0] != "reply"@[0]);
    lemma_apart(""@, "facts"@, 0);
    lemma_apart("started"@, "facts"@, 0);
    lemma_apart("ready"@, "facts"@, 0);
    lemma_apart("shown"@, "facts"@, 0);
    lemma_apart("generation"@, "facts"@, 0);
    lemma_apart("operation"@, "facts"@, 0);
    lemma_apart("validated"@, "facts"@, 0);
    lemma_apart("imported"@, "facts"@, 0);
    lemma_apart("waiting"@, "facts"@, 0);
    lemma_apart("waiting_sequence"@, "facts"@, 0);
    lemma_apart("killed"@, "facts"@, 0);
    lemma_apart("reopened_wait"@, "facts"@, 0);
    lemma_apart("reopened_sequence"@, "facts"@, 0);
    lemma_apart("following"@, "facts"@, 1);
    lemma_apart("signalled"@, "facts"@, 0);
    lemma_apart("completed"@, "facts"@, 0);
    lemma_apart("followed"@, "facts"@, 1);
    lemma_apart("model"@, "facts"@, 0);
    lemma_apart("omitted"@, "facts"@, 0);
    lemma_apart("omitted_attempt_id"@, "facts"@, 0);
    lemma_apart("omitted_attempt"@, "facts"@, 0);
    lemma_apart("omitted_output"@, "facts"@, 0);
    lemma_apart("omitted_artifact"@, "facts"@, 0);
    lemma_apart("attempt_id"@, "facts"@, 0);
    lemma_apart("attempt"@, "facts"@, 0);
    lemma_apart("model_attempt"@, "facts"@, 0);
    lemma_apart("provenance"@, "facts"@, 0);
    assert("facts,revision"@ =~= "facts"@ + seq![','] + "revision"@);
    assert("provenance,provider_protocol"@ =~= "provenance"@ + seq![','] + "provider_protocol"@);
    assert("facts,protocol"@ =~= "facts"@ + seq![','] + "protocol"@);
    assert("provenance,model_alias"@ =~= "provenance"@ + seq![','] + "model_alias"@);
    assert("facts,model_alias"@ =~= "facts"@ + seq![','] + "model_alias"@);
    assert("provenance,endpoint_origin"@ =~= "provenance"@ + seq![','] + "endpoint_origin"@);
    assert("facts,endpoint_origin"@ =~= "facts"@ + seq![','] + "endpoint_origin"@);
    assert(at(at(at(told(record, 53), "value"@), "capability_provenance"@), "model_profile_revision"@)
            == at(at(known, "facts"@), "revision"@)) by {
        was_kept(l, known, answers, record, 66);
        was_kept(l, known, answers, record, 55);
        was_told(l, known, answers, record, 54);
        lemma_under(record[55], "attempt"@, "value"@, "attempt,value"@);
        assert(forall|j: int|
            56 <= j < 66 ==> is_check((#[trigger] l[j]).0@) || !touches(l[j].1@, "model_attempt"@));
        stays_through(l, known, answers, record, 56, 66, "model_attempt"@);
        lemma_under(
            record[66],
            "model_attempt"@,
            "capability_provenance"@,
            "model_attempt,capability_provenance"@,
        );
        lemma_under(
            record[67],
            "provenance"@,
            "model_profile_revision"@,
            "provenance,model_profile_revision"@,
        );
        assert(forall|j: int|
            0 <= j < 67 ==> is_check((#[trigger] l[j]).0@) || !touches(l[j].1@, "facts"@));
        stays_through(l, known, answers, record, 0, 67, "facts"@);
        lemma_under(record[67], "facts"@, "revision"@, "facts,revision"@);
        saw_same(l, known, answers, record, 67);
    }
    assert(at(at(at(told(record, 53), "value"@), "capability_provenance"@), "provider_protocol"@)
            == at(at(known, "facts"@), "protocol"@)) by {
        was_kept(l, known, answers, record, 66);
        was_kept(l, known, answers, record, 55);
        was_told(l, known, answers, record, 54);
        lemma_under(record[55], "attempt"@, "value"@, "attempt,value"@);
        assert(forall|j: int|
            56 <= j < 66 ==> is_check((#[trigger] l[j]).0@) || !touches(l[j].1@, "model_attempt"@));
        stays_through(l, known, answers, record, 56, 66, "model_attempt"@);
        lemma_under(
            record[66],
            "model_attempt"@,
            "capability_provenance"@,
            "model_attempt,capability_provenance"@,
        );
        unchanged(l, known, answers, record, 67);
        lemma_under(
            record[68],
            "provenance"@,
            "provider_protocol"@,
            "provenance,provider_protocol"@,
        );
        assert(forall|j: int|
            0 <= j < 68 ==> is_check((#[trigger] l[j]).0@) || !touches(l[j].1@, "facts"@));
        stays_through(l, known, answers, record, 0, 68, "facts"@);
        lemma_under(record[68], "facts"@, "protocol"@, "facts,protocol"@);
        saw_same(l, known, answers, record, 68);
    }
    assert(at(at(at(told(record, 53), "value"@), "capability_provenance"@), "model_alias"@)
            == at(at(known, "facts"@), "model_alias"@)) by {
        was_kept(l, known, answers, record, 66);
        was_kept(l, known, answers, record, 55);
        was_told(l, known, answers, record, 54);
        lemma_under(record[55], "attempt"@, "value"@, "attempt,value"@);
        assert(forall|j: int|
            56 <= j < 66 ==> is_check((#[trigger] l[j]).0@) || !touches(l[j].1@, "model_attempt"@));
        stays_through(l, known, answers, record, 56, 66, "model_attempt"@);
        lemma_under(
            record[66],
            "model_attempt"@,
            "capability_provenance"@,
            "model_attempt,capability_provenance"@,
        );
        unchanged(l, known, answers, record, 67);
        unchanged(l, known, answers, record, 68);
        lemma_under(record[69], "provenance"@, "model_alias"@, "provenance,model_alias"@);
        assert(forall|j: int|
            0 <= j < 69 ==> is_check((#[trigger] l[j]).0@) || !touches(l[j].1@, "facts"@));
        stays_through(l, known, answers, record, 0, 69, "facts"@);
        lemma_under(record[69], "facts"@, "model_alias"@, "facts,model_alias"@);
        saw_same(l, known, answers, record, 69);
    }
    assert(at(at(at(told(record, 53), "value"@), "capability_provenance"@), "endpoint_origin"@)
            == at(at(known, "facts"@), "endpoint_origin"@)) by {
        was_kept(l, known, answers, record, 66);
        was_kept(l, known, answers, record, 55);
        was_told(l, known, answers, record, 54);
        lemma_under(record[55], "attempt"@, "value"@, "attempt,value"@);
        assert(forall|j: int|
            56 <= j < 66 ==> is_check((#[trigger] l[j]).0@) || !touches(l[j].1@, "model_attempt"@));
        stays_through(l, known, answers, record, 56, 66, "model_attempt"@);
        lemma_under(
            record[66],
            "model_attempt"@,
            "capability_provenance"@,
            "model_attempt,capability_provenance"@,
        );
        unchanged(l, known, answers, record, 67);
        unchanged(l, known, answers, record, 68);
        unchanged(l, known, answers, record, 69);
        lemma_under(record[70], "provenance"@, "endpoint_origin"@, "provenance,endpoint_origin"@);
        assert(forall|j: int|
            0 <= j < 70 ==> is_check((#[trigger] l[j]).0@) || !touches(l[j].1@, "facts"@));
        stays_through(l, known, answers, record, 0, 70, "facts"@);
        lemma_under(record[70], "facts"@, "endpoint_origin"@, "facts,endpoint_origin"@);
        saw_same(l, known, answers, record, 70);
    }
}

proof fn lemma_model_contract_was_kept_6(known: Tree, answers: Seq<(Tree, bool)>, record: Seq<Tree>)
    requires
        passed(LOCAL_MODEL@, known, answers, record),
    ensures
        at(at(told(record, 53), "value"@), "context_access"@) == Tree::Text("authorized"@),
        made_rendered(at(at(told(record, 53), "value"@), "context,entries"@)) is Ok
            && text_has(
                made_rendered(at(at(told(record, 53), "value"@), "context,entries"@))->Ok_0,
                "selected-evidence"@,
            ),
        at(at(record[108], "reopened_model"@), "latest_attempt_id"@)
            == at(at(record[45], "model"@), "latest_attempt_id"@),
        at(told(record, 124), "value,operation_contract,side_effect"@) == Tree::Text("unknown"@),
{
    let l = LOCAL_MODEL@;
    reveal_strlit("model_attempt");
    reveal_strlit("reply");
    reveal_strlit("attempt");
    reveal_strlit("value");
    reveal_strlit("attempt,value");
    reveal_strlit("provenance");
    reveal_strlit("context_access");
    reveal_strlit("model_attempt,context_access");
    reveal_strlit("entries");
    reveal_strlit("rendered");
    reveal_strlit("model_attempt,context,entries");
    reveal_strlit("rendered model_attempt,context,entries");
    reveal_strlit("context,entries");
    reveal_strlit("omissions");
    reveal_strlit("reopened_model");
    reveal_strlit("latest_attempt_id");
    reveal_strlit("reopened_model,latest_attempt_id");
    reveal_strlit("attempt_id");
    reveal_strlit("model");
    reveal_strlit("omitted");
    reveal_strlit("omitted_attempt_id");
    reveal_strlit("");
    reveal_strlit("omitted_attempt");
    reveal_strlit("omitted_output");
    reveal_strlit("omitted_artifact");
    reveal_strlit("model,latest_attempt_id");
    reveal_strlit("response");
    reveal_strlit("artifact_id");
    reveal_strlit("artifact_digest");
    reveal_strlit("artifact_size");
    reveal_strlit("got");
    reveal_strlit("downloaded");
    reveal_strlit("body");
    reveal_strlit("captured");
    reveal_strlit("killed");
    reveal_strlit("started");
    reveal_strlit("reopened");
    reveal_strlit("unresolved");
    reveal_strlit("value,operation_contract,side_effect");
    reveal_strlit("unresolved,value,operation_contract,side_effect");
    assert("model_attempt"@.len() == 13);
    assert("reply"@.len() == 5);
    assert("attempt"@.len() == 7);
    assert("attempt,value"@ =~= "attempt"@ + seq![','] + "value"@);
    lemma_apart("provenance"@, "model_attempt"@, 0);
    assert("model_attempt,context_access"@ =~= "model_attempt"@ + seq![','] + "context_access"@);
    assert("entries"@.len() == 7);
    assert(
        "rendered model_attempt,context,entries"@
            =~= "rendered"@ + seq![' '] + "model_attempt,context,entries"@
    );
    lemma_two_words(
        "rendered"@,
        "model_attempt,context,entries"@,
        "rendered model_attempt,context,entries"@,
    );
    assert(
        parts("rendered model_attempt,context,entries"@)
            =~= seq!["rendered"@, "model_attempt,context,entries"@]
    );
    assert("model_attempt,context,entries"@.len() == 29);
    assert("model_attempt,context,entries"@ =~= "model_attempt"@ + seq![','] + "context,entries"@);
    assert(
        parts("rendered model_attempt,context,entries"@).skip(1)
            =~= seq!["model_attempt,context,entries"@]
    );
    lemma_apart("omissions"@, "entries"@, 0);
    assert("reopened_model"@.len() == 14);
    assert(
        "reopened_model,latest_attempt_id"@
            =~= "reopened_model"@ + seq![','] + "latest_attempt_id"@
    );
    assert("attempt_id"@.len() == 10);
    assert("model"@[0] != "reply"@[0]);
    lemma_apart("omitted"@, "model"@, 0);
    lemma_apart("omitted_attempt_id"@, "model"@, 0);
    lemma_apart(""@, "model"@, 0);
    lemma_apart("omitted_attempt"@, "model"@, 0);
    lemma_apart("omitted_output"@, "model"@, 0);
    lemma_apart("omitted_artifact"@, "model"@, 0);
    assert("model,latest_attempt_id"@ =~= "model"@ + seq![','] + "latest_attempt_id"@);
    lemma_apart(""@, "attempt_id"@, 0);
    lemma_apart("attempt"@, "attempt_id"@, 7);
    lemma_apart("model_attempt"@, "attempt_id"@, 0);
    lemma_apart("provenance"@, "attempt_id"@, 0);
    lemma_apart("entries"@, "attempt_id"@, 0);
    lemma_apart("omissions"@, "attempt_id"@, 0);
    lemma_apart("response"@, "attempt_id"@, 0);
    lemma_apart("artifact_id"@, "attempt_id"@, 1);
    lemma_apart("artifact_digest"@, "attempt_id"@, 1);
    lemma_apart("artifact_size"@, "attempt_id"@, 1);
    lemma_apart("got"@, "attempt_id"@, 0);
    lemma_apart("downloaded"@, "attempt_id"@, 0);
    lemma_apart("body"@, "attempt_id"@, 0);
    lemma_apart("captured"@, "attempt_id"@, 0);
    lemma_apart("killed"@, "attempt_id"@, 0);
    lemma_apart("started"@, "attempt_id"@, 0);
    lemma_apart("reopened"@, "attempt_id"@, 0);
    lemma_apart("reopened_model"@, "attempt_id"@, 0);
    assert("unresolved"@.len() == 10);
    assert(
        "unresolved,value,operation_contract,side_effect"@
            =~= "unresolved"@ + seq![','] + "value,operation_contract,side_effect"@
    );
    assert(at(at(told(record, 53), "value"@), "context_access"@) == Tree::Text("authorized"@)) by {
        was_kept(l, known, answers, record, 55);
        was_told(l, known, answers, record, 54);
        lemma_under(record[55], "attempt"@, "value"@, "attempt,value"@);
        assert(forall|j: int|
            56 <= j < 72 ==> is_check((#[trigger] l[j]).0@) || !touches(l[j].1@, "model_attempt"@));
        stays_through(l, known, answers, record, 56, 72, "model_attempt"@);
        lemma_under(
            record[72],
            "model_attempt"@,
            "context_access"@,
            "model_attempt,context_access"@,
        );
        saw_is(l, known, answers, record, 72);
    }
    assert(made_rendered(at(at(told(record, 53), "value"@), "context,entries"@)) is Ok
            && text_has(
                made_rendered(at(at(told(record, 53), "value"@), "context,entries"@))->Ok_0,
                "selected-evidence"@,
            )) by {
        was_made(l, known, answers, record, 73);
        was_kept(l, known, answers, record, 55);
        was_told(l, known, answers, record, 54);
        lemma_under(record[55], "attempt"@, "value"@, "attempt,value"@);
        assert(forall|j: int|
            56 <= j < 73 ==> is_check((#[trigger] l[j]).0@) || !touches(l[j].1@, "model_attempt"@));
        stays_through(l, known, answers, record, 56, 73, "model_attempt"@);
        lemma_under(
            record[73],
            "model_attempt"@,
            "context,entries"@,
            "model_attempt,context,entries"@,
        );
        let args73 = arguments(
            parts("rendered model_attempt,context,entries"@).skip(1),
            record[73],
        );
        assert(args73 =~= seq![at(at(told(record, 53), "value"@), "context,entries"@)]);
        makes_rendered(args73, record[73]);
        stays(l, known, answers, record, 74, "entries"@);
        saw_contains(l, known, answers, record, 75);
    }
    assert(at(at(record[108], "reopened_model"@), "latest_attempt_id"@)
            == at(at(record[45], "model"@), "latest_attempt_id"@)) by {
        unchanged(l, known, answers, record, 108);
        lemma_under(
            record[109],
            "reopened_model"@,
            "latest_attempt_id"@,
            "reopened_model,latest_attempt_id"@,
        );
        was_kept(l, known, answers, record, 52);
        assert(forall|j: int|
            45 <= j < 52 ==> is_check((#[trigger] l[j]).0@) || !touches(l[j].1@, "model"@));
        stays_through(l, known, answers, record, 45, 52, "model"@);
        lemma_under(record[52], "model"@, "latest_attempt_id"@, "model,latest_attempt_id"@);
        assert(forall|j: int|
            53 <= j < 109 ==> is_check((#[trigger] l[j]).0@) || !touches(l[j].1@, "attempt_id"@));
        stays_through(l, known, answers, record, 53, 109, "attempt_id"@);
        saw_same(l, known, answers, record, 109);
    }
    assert(at(told(record, 124), "value,operation_contract,side_effect"@) == Tree::Text("unknown"@)) by {
        was_told(l, known, answers, record, 125);
        unchanged(l, known, answers, record, 126);
        lemma_under(
            record[127],
            "unresolved"@,
            "value,operation_contract,side_effect"@,
            "unresolved,value,operation_contract,side_effect"@,
        );
        saw_is(l, known, answers, record, 127);
    }
}

proof fn lemma_model_contract_was_kept_7(known: Tree, answers: Seq<(Tree, bool)>, record: Seq<Tree>)
    requires
        passed(LOCAL_MODEL@, known, answers, record),
    ensures
        at(told(record, 124), "value,operation_contract,idempotency"@)
            == Tree::Text("unsupported"@),
        at(told(record, 124), "value,idempotency_key_present"@) == Tree::Bool(false),
        at(at(record[132], "reply"@), "stdout"@) == Tree::Text(""@),
        text_has(at(at(record[132], "reply"@), "stderr"@), "\"classification\":\"conflict\""@),
{
    let l = LOCAL_MODEL@;
    reveal_strlit("unresolved");
    reveal_strlit("reply");
    reveal_strlit("value,operation_contract,idempotency");
    reveal_strlit("unresolved,value,operation_contract,idempotency");
    reveal_strlit("value,idempotency_key_present");
    reveal_strlit("unresolved,value,idempotency_key_present");
    reveal_strlit("stdout");
    reveal_strlit("reply,stdout");
    reveal_strlit("stderr");
    reveal_strlit("reply,stderr");
    assert("unresolved"@.len() == 10);
    assert("reply"@.len() == 5);
    assert(
        "unresolved,value,operation_contract,idempotency"@
            =~= "unresolved"@ + seq![','] + "value,operation_contract,idempotency"@
    );
    assert(
        "unresolved,value,idempotency_key_present"@
            =~= "unresolved"@ + seq![','] + "value,idempotency_key_present"@
    );
    assert("reply,stdout"@ =~= "reply"@ + seq![','] + "stdout"@);
    assert("reply,stderr"@ =~= "reply"@ + seq![','] + "stderr"@);
    assert(at(told(record, 124), "value,operation_contract,idempotency"@)
            == Tree::Text("unsupported"@)) by {
        was_told(l, known, answers, record, 125);
        unchanged(l, known, answers, record, 126);
        unchanged(l, known, answers, record, 127);
        lemma_under(
            record[128],
            "unresolved"@,
            "value,operation_contract,idempotency"@,
            "unresolved,value,operation_contract,idempotency"@,
        );
        saw_is(l, known, answers, record, 128);
    }
    assert(at(told(record, 124), "value,idempotency_key_present"@) == Tree::Bool(false)) by {
        was_told(l, known, answers, record, 125);
        unchanged(l, known, answers, record, 126);
        unchanged(l, known, answers, record, 127);
        unchanged(l, known, answers, record, 128);
        lemma_under(
            record[129],
            "unresolved"@,
            "value,idempotency_key_present"@,
            "unresolved,value,idempotency_key_present"@,
        );
        saw_false(l, known, answers, record, 129);
    }
    assert(at(at(record[132], "reply"@), "stdout"@) == Tree::Text(""@)) by {
        unchanged(l, known, answers, record, 132);
        lemma_under(record[133], "reply"@, "stdout"@, "reply,stdout"@);
        saw_is(l, known, answers, record, 133);
    }
    assert(text_has(at(at(record[132], "reply"@), "stderr"@), "\"classification\":\"conflict\""@)) by {
        unchanged(l, known, answers, record, 133);
        unchanged(l, known, answers, record, 132);
        lemma_under(record[134], "reply"@, "stderr"@, "reply,stderr"@);
        saw_contains(l, known, answers, record, 134);
    }
}

proof fn lemma_model_contract_was_kept_8(known: Tree, answers: Seq<(Tree, bool)>, record: Seq<Tree>)
    requires
        passed(LOCAL_MODEL@, known, answers, record),
    ensures
        text_has(at(at(record[132], "reply"@), "stderr"@), "manual retry"@),
{
    let l = LOCAL_MODEL@;
    reveal_strlit("reply");
    reveal_strlit("stderr");
    reveal_strlit("reply,stderr");
    assert("reply,stderr"@ =~= "reply"@ + seq![','] + "stderr"@);
    assert(text_has(at(at(record[132], "reply"@), "stderr"@), "manual retry"@)) by {
        unchanged(l, known, answers, record, 134);
        unchanged(l, known, answers, record, 133);
        unchanged(l, known, answers, record, 132);
        lemma_under(record[135], "reply"@, "stderr"@, "reply,stderr"@);
        saw_contains(l, known, answers, record, 135);
    }
}

/// A local-model run finishes only where the capability shown is of the exact profile and its
/// revision, its effects stayed unknown, without idempotency and cancelled at best, in the
/// capability as in the attempt; the attempt names the profile, the protocol, the model and the
/// endpoint that were configured; what was downloaded has the size and the digest of the artifact;
/// a restart kept the attempt and its outputs; and an uncertain outcome stayed uncertain.
pub proof fn model_contract_was_kept(known: Tree, answers: Seq<(Tree, bool)>) -> (record: Seq<Tree>)
    requires
        known is Object,
        finished(LOCAL_MODEL@, known, answers),
    ensures
        passed(LOCAL_MODEL@, known, answers, record),
        LOCAL_MODEL@[4].2@ == "cli capability show $capability"@,
        items_of(at(told(record, 4), "value"@)).len() > 0,
        at(at(told(record, 4), "value,#0"@), "capability_id"@) == at(known, "capability"@),
        at(at(told(record, 4), "value,#0"@), "generation"@) == at(at(known, "facts"@), "revision"@),
        at(at(told(record, 4), "value,#0"@), "provider_profile"@)
            == at(at(known, "facts"@), "profile_id"@),
        at(at(record[12], "operation"@), "side_effect"@) == Tree::Text("unknown"@),
        at(at(record[12], "operation"@), "idempotency"@) == Tree::Text("unsupported"@),
        at(at(record[12], "operation"@), "cancellation"@) == Tree::Text("best_effort"@),
        LOCAL_MODEL@[40].2@ == "follow stop"@,
        text_has(said(record, 40), "run.timeline"@),
        text_has(said(record, 40), "run.observation"@),
        LOCAL_MODEL@[53].2@ == "cli attempt inspect run-local-model-dogfood $attempt_id"@,
        at(at(told(record, 53), "value"@), "capability_id"@) == at(known, "capability"@),
        at(at(told(record, 53), "value"@), "provider_profile"@)
            == at(at(known, "facts"@), "profile_id"@),
        at(at(told(record, 53), "value"@), "operation_contract,operation"@)
            == Tree::Text("model.generate"@),
        at(at(told(record, 53), "value"@), "operation_contract,side_effect"@)
            == Tree::Text("unknown"@),
        at(at(told(record, 53), "value"@), "operation_contract,idempotency"@)
            == Tree::Text("unsupported"@),
        at(at(told(record, 53), "value"@), "operation_contract,cancellation"@)
            == Tree::Text("best_effort"@),
        at(at(told(record, 53), "value"@), "idempotency_key_present"@) == Tree::Bool(false),
        at(at(at(told(record, 53), "value"@), "capability_provenance"@), "model_profile_revision"@)
            == at(at(known, "facts"@), "revision"@),
        at(at(at(told(record, 53), "value"@), "capability_provenance"@), "provider_protocol"@)
            == at(at(known, "facts"@), "protocol"@),
        at(at(at(told(record, 53), "value"@), "capability_provenance"@), "model_alias"@)
            == at(at(known, "facts"@), "model_alias"@),
        at(at(at(told(record, 53), "value"@), "capability_provenance"@), "endpoint_origin"@)
            == at(at(known, "facts"@), "endpoint_origin"@),
        at(at(told(record, 53), "value"@), "context_access"@) == Tree::Text("authorized"@),
        made_rendered(at(at(told(record, 53), "value"@), "context,entries"@)) is Ok
            && text_has(
                made_rendered(at(at(told(record, 53), "value"@), "context,entries"@))->Ok_0,
                "selected-evidence"@,
            ),
        at(at(record[108], "reopened_model"@), "latest_attempt_id"@)
            == at(at(record[45], "model"@), "latest_attempt_id"@),
        LOCAL_MODEL@[124].2@
            == "cli attempt inspect run-local-model-uncertainty $uncertain_attempt"@,
        at(told(record, 124), "value,operation_contract,side_effect"@) == Tree::Text("unknown"@),
        at(told(record, 124), "value,operation_contract,idempotency"@)
            == Tree::Text("unsupported"@),
        at(told(record, 124), "value,idempotency_key_present"@) == Tree::Bool(false),
        LOCAL_MODEL@[131].2@
            == "cli --yes --command-id local-model-unsafe-retry-1 --expected-sequence $uncertain_sequence --evidence recovery_observation=evidence-local-model-retry-1 attempt resolve run-local-model-uncertainty $uncertain_attempt local-model-retry-decision-1 --action retry"@,
        at(at(record[132], "reply"@), "stdout"@) == Tree::Text(""@),
        text_has(at(at(record[132], "reply"@), "stderr"@), "\"classification\":\"conflict\""@),
        text_has(at(at(record[132], "reply"@), "stderr"@), "manual retry"@),
{
    let record = finished_scenarios_are_recorded(LOCAL_MODEL@, known, answers);
    lemma_model_contract_was_kept_1(known, answers, record);
    lemma_model_contract_was_kept_2(known, answers, record);
    lemma_model_contract_was_kept_3(known, answers, record);
    lemma_model_contract_was_kept_4(known, answers, record);
    lemma_model_contract_was_kept_5(known, answers, record);
    lemma_model_contract_was_kept_6(known, answers, record);
    lemma_model_contract_was_kept_7(known, answers, record);
    lemma_model_contract_was_kept_8(known, answers, record);
    record
}

proof fn lemma_releases_were_replayed_1(known: Tree, answers: Seq<(Tree, bool)>, record: Seq<Tree>)
    requires
        passed(ACCEPTANCE@, known, answers, record),
    ensures
        at(at(record[35], "released"@), "value"@) == at(told(record, 31), "value"@),
        at(at(record[36], "released"@), "ok"@) == at(told(record, 31), "ok"@),
        at(at(record[77], "released"@), "value"@) == at(told(record, 73), "value"@),
        at(at(record[78], "released"@), "ok"@) == at(told(record, 73), "ok"@),
        at(at(record[118], "released"@), "value"@) == at(told(record, 114), "value"@),
{
    let l = ACCEPTANCE@;
    reveal_strlit("released");
    reveal_strlit("value");
    reveal_strlit("released,value");
    reveal_strlit("replay");
    reveal_strlit("reply");
    reveal_strlit("released,value,replayed");
    reveal_strlit("replay,value");
    reveal_strlit("ok");
    reveal_strlit("released,ok");
    reveal_strlit("replay,ok");
    assert("released,value"@ =~= "released"@ + seq![','] + "value"@);
    assert("replay"@.len() == 6);
    assert("reply"@.len() == 5);
    lemma_apart("released,value,replayed"@, "replay"@, 2);
    assert("replay,value"@ =~= "replay"@ + seq![','] + "value"@);
    assert("released,ok"@ =~= "released"@ + seq![','] + "ok"@);
    assert("replay,ok"@ =~= "replay"@ + seq![','] + "ok"@);
    assert(at(at(record[35], "released"@), "value"@) == at(told(record, 31), "value"@)) by {
        lemma_under(record[35], "released"@, "value"@, "released,value"@);
        was_told(l, known, answers, record, 32);
        unchanged(l, known, answers, record, 33);
        stays(l, known, answers, record, 34, "replay"@);
        lemma_under(record[35], "replay"@, "value"@, "replay,value"@);
        saw_same(l, known, answers, record, 35);
    }
    assert(at(at(record[36], "released"@), "ok"@) == at(told(record, 31), "ok"@)) by {
        lemma_under(record[36], "released"@, "ok"@, "released,ok"@);
        was_told(l, known, answers, record, 32);
        assert(forall|j: int|
            33 <= j < 36 ==> is_check((#[trigger] l[j]).0@) || !touches(l[j].1@, "replay"@));
        stays_through(l, known, answers, record, 33, 36, "replay"@);
        lemma_under(record[36], "replay"@, "ok"@, "replay,ok"@);
        saw_same(l, known, answers, record, 36);
    }
    assert(at(at(record[77], "released"@), "value"@) == at(told(record, 73), "value"@)) by {
        lemma_under(record[77], "released"@, "value"@, "released,value"@);
        was_told(l, known, answers, record, 74);
        unchanged(l, known, answers, record, 75);
        stays(l, known, answers, record, 76, "replay"@);
        lemma_under(record[77], "replay"@, "value"@, "replay,value"@);
        saw_same(l, known, answers, record, 77);
    }
    assert(at(at(record[78], "released"@), "ok"@) == at(told(record, 73), "ok"@)) by {
        lemma_under(record[78], "released"@, "ok"@, "released,ok"@);
        was_told(l, known, answers, record, 74);
        assert(forall|j: int|
            75 <= j < 78 ==> is_check((#[trigger] l[j]).0@) || !touches(l[j].1@, "replay"@));
        stays_through(l, known, answers, record, 75, 78, "replay"@);
        lemma_under(record[78], "replay"@, "ok"@, "replay,ok"@);
        saw_same(l, known, answers, record, 78);
    }
    assert(at(at(record[118], "released"@), "value"@) == at(told(record, 114), "value"@)) by {
        lemma_under(record[118], "released"@, "value"@, "released,value"@);
        was_told(l, known, answers, record, 115);
        unchanged(l, known, answers, record, 116);
        stays(l, known, answers, record, 117, "replay"@);
        lemma_under(record[118], "replay"@, "value"@, "replay,value"@);
        saw_same(l, known, answers, record, 118);
    }
}

proof fn lemma_releases_were_replayed_2(known: Tree, answers: Seq<(Tree, bool)>, record: Seq<Tree>)
    requires
        passed(ACCEPTANCE@, known, answers, record),
    ensures
        at(at(record[119], "released"@), "ok"@) == at(told(record, 114), "ok"@),
{
    let l = ACCEPTANCE@;
    reveal_strlit("released");
    reveal_strlit("ok");
    reveal_strlit("released,ok");
    reveal_strlit("replay");
    reveal_strlit("reply");
    reveal_strlit("released,value,replayed");
    reveal_strlit("replay,ok");
    assert("released,ok"@ =~= "released"@ + seq![','] + "ok"@);
    assert("replay"@.len() == 6);
    assert("reply"@.len() == 5);
    lemma_apart("released,value,replayed"@, "replay"@, 2);
    assert("replay,ok"@ =~= "replay"@ + seq![','] + "ok"@);
    assert(at(at(record[119], "released"@), "ok"@) == at(told(record, 114), "ok"@)) by {
        lemma_under(record[119], "released"@, "ok"@, "released,ok"@);
        was_told(l, known, answers, record, 115);
        assert(forall|j: int|
            116 <= j < 119 ==> is_check((#[trigger] l[j]).0@) || !touches(l[j].1@, "replay"@));
        stays_through(l, known, answers, record, 116, 119, "replay"@);
        lemma_under(record[119], "replay"@, "ok"@, "replay,ok"@);
        saw_same(l, known, answers, record, 119);
    }
}

/// An acceptance run finishes only where each of its three releases, repeated exactly, gave what
/// the release itself had given.
pub proof fn releases_were_replayed(known: Tree, answers: Seq<(Tree, bool)>) -> (record: Seq<Tree>)
    requires
        known is Object,
        finished(ACCEPTANCE@, known, answers),
    ensures
        passed(ACCEPTANCE@, known, answers, record),
        ACCEPTANCE@[31].2@
            == "cli --command-id release-before-acceptance --expected-sequence $sequence run signal acceptance-run --signal-id release-before-acceptance --signal-type acceptance.evaluate --payload {\"authorized\":true}"@,
        at(at(record[35], "released"@), "value"@) == at(told(record, 31), "value"@),
        at(at(record[36], "released"@), "ok"@) == at(told(record, 31), "ok"@),
        ACCEPTANCE@[73].2@
            == "cli --command-id release-remediation --expected-sequence $sequence run signal acceptance-run --signal-id release-remediation --signal-type acceptance.remediate --payload {\"authorized\":true}"@,
        at(at(record[77], "released"@), "value"@) == at(told(record, 73), "value"@),
        at(at(record[78], "released"@), "ok"@) == at(told(record, 73), "ok"@),
        ACCEPTANCE@[114].2@
            == "cli --command-id release-before-continuation --expected-sequence $sequence run signal acceptance-run --signal-id release-before-continuation --signal-type acceptance.continue --payload {\"authorized\":true}"@,
        at(at(record[118], "released"@), "value"@) == at(told(record, 114), "value"@),
        at(at(record[119], "released"@), "ok"@) == at(told(record, 114), "ok"@),
{
    let record = finished_scenarios_are_recorded(ACCEPTANCE@, known, answers);
    lemma_releases_were_replayed_1(known, answers, record);
    lemma_releases_were_replayed_2(known, answers, record);
    record
}

} // verus!
