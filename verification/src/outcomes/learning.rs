//! What finished steps of a learning study have shown.

use vstd::prelude::*;

use crate::findings::{
    awaited_condition, every_element, is_above, is_at_least, is_check, is_positive, items_of,
    lemma_apart, lemma_either, lemma_four_words, lemma_judged_differs, lemma_judged_is,
    lemma_judged_some, lemma_next_digit, lemma_one_digit, lemma_one_word, lemma_two_words,
    lemma_under, said, saw_differs, saw_each, saw_either, saw_exceeds, saw_false, saw_is, saw_keys,
    saw_null, saw_positive, saw_reaches, saw_same, saw_true, stays, stays_beside, stays_through,
    touches, unchanged, was_awaited, was_cleared, was_counted, was_gathered, was_kept, was_made,
    was_put, was_said, was_worded,
};
use crate::json::{at, key_count, lemma_single_segment, segments, Tree};
use crate::makers::{
    made_artifact_port, made_grant_slot, made_guidance_note, made_held_out_input,
    made_held_out_pair, made_including, made_last, made_learning_mutations, made_model_destination,
    made_observed_artifacts, made_pages, made_promotion_approval, made_proposal_mutations,
    made_proposal_prompt, made_source_evidence, made_source_inputs, made_trust_slot,
    made_variant_inputs, makes_artifact_port, makes_grant_slot, makes_guidance_note,
    makes_held_out_input, makes_held_out_pair, makes_including, makes_last, makes_learning_config,
    makes_learning_evaluator, makes_learning_mutations, makes_learning_operator,
    makes_learning_service, makes_learning_target_recipe, makes_learning_worker_recipe,
    makes_model_destination, makes_observed_artifacts, makes_pages, makes_promotion_approval,
    makes_proposal_model, makes_proposal_mutations, makes_proposal_prompt, makes_slotbook_scope,
    makes_source_evidence, makes_source_inputs, makes_trust_slot, makes_variant_inputs,
};
use crate::record::{finished, finished_scenarios_are_recorded, passed};
use crate::scenario::{arguments, document_of, gathered, number_of, parts};
use crate::scripts::documents::{
    LEARNING_CONFIG, LEARNING_EVALUATOR, LEARNING_OPERATOR, LEARNING_SERVICE,
    LEARNING_TARGET_RECIPE, LEARNING_WORKER_RECIPE, PROPOSAL_MODEL, SLOTBOOK_SCOPE,
};
use crate::scripts::learning::{
    EVALUATE_COMPARED, EVALUATE_DEPLOYED, EVALUATE_INVOKE, EVALUATE_NOT_PROMOTED, EVALUATE_PROMOTED,
    EVALUATE_RETAINED, EVALUATE_SELECTED, EVALUATE_VARIANT, LEARN_PREAUTHORIZED, LEARN_PREPARE,
    LEARN_PREPARE_SLOT, LEARN_REDECLARED, LEARN_RESUMED, LEARN_SLOT, LEARN_SOURCE, PROPOSAL_RUN,
    PROPOSAL_SUBMITTED, TOOLS,
};

verus! {

proof fn lemma_study_was_authored_1(known: Tree, answers: Seq<(Tree, bool)>, record: Seq<Tree>)
    requires
        passed(LEARN_PREPARE@, known, answers, record),
    ensures
        at(record[15], "policy,verifier"@) == at(said(record, 10), "digest"@),
        at(record[22], "requirement,exact_capability"@) == Tree::Null,
        made_learning_mutations(said(record, 1))
            == Ok::<Tree, Seq<char>>(at(record[4], "mutations"@)),
        document_of(SLOTBOOK_SCOPE@, record[22]) == Ok::<Tree, Seq<char>>(at(record[23], "scope"@)),
{
    let l = LEARN_PREPARE@;
    reveal_strlit("policy,verifier");
    reveal_strlit("policy");
    reveal_strlit("reply");
    reveal_strlit("verifier_copy");
    reveal_strlit("");
    reveal_strlit("digest");
    reveal_strlit("verifier_copy,digest");
    reveal_strlit("verifier");
    reveal_strlit("requirement,exact_capability");
    reveal_strlit("requirement");
    reveal_strlit("exact_capability");
    reveal_strlit("mutations");
    reveal_strlit("learning-mutations");
    reveal_strlit("original");
    reveal_strlit("learning-mutations original");
    reveal_strlit("scope");
    reveal_strlit("slotbook-scope");
    assert("policy"@.len() == 6);
    assert("reply"@.len() == 5);
    assert("verifier_copy"@.len() == 13);
    lemma_apart(""@, "verifier_copy"@, 0);
    lemma_apart("policy"@, "verifier_copy"@, 0);
    assert("verifier_copy,digest"@ =~= "verifier_copy"@ + seq![','] + "digest"@);
    assert("policy,verifier"@ =~= "policy"@ + seq![','] + "verifier"@);
    assert("requirement"@.len() == 11);
    assert("requirement,exact_capability"@ =~= "requirement"@ + seq![','] + "exact_capability"@);
    assert("learning-mutations original"@ =~= "learning-mutations"@ + seq![' '] + "original"@);
    lemma_two_words("learning-mutations"@, "original"@, "learning-mutations original"@);
    assert(parts("learning-mutations original"@) =~= seq!["learning-mutations"@, "original"@]);
    assert("original"@.len() == 8);
    assert(parts("learning-mutations original"@).skip(1) =~= seq!["original"@]);
    lemma_one_word("slotbook-scope"@);
    assert(parts("slotbook-scope"@) =~= seq!["slotbook-scope"@]);
    assert(parts("slotbook-scope"@).skip(1) =~= seq![]);
    assert(at(record[15], "policy,verifier"@) == at(said(record, 10), "digest"@)) by {
        was_said(l, known, answers, record, 11);
        stays(l, known, answers, record, 12, "verifier_copy"@);
        stays(l, known, answers, record, 13, "verifier_copy"@);
        lemma_under(record[14], "verifier_copy"@, "digest"@, "verifier_copy,digest"@);
        was_put(l, known, answers, record, 14);
        lemma_under(record[15], "policy"@, "verifier"@, "policy,verifier"@);
    }
    assert(at(record[22], "requirement,exact_capability"@) == Tree::Null) by {
        was_cleared(l, known, answers, record, 21);
        lemma_under(
            record[22],
            "requirement"@,
            "exact_capability"@,
            "requirement,exact_capability"@,
        );
    }
    assert(made_learning_mutations(said(record, 1))
            == Ok::<Tree, Seq<char>>(at(record[4], "mutations"@))) by {
        was_made(l, known, answers, record, 3);
        was_said(l, known, answers, record, 2);
        let args3 = arguments(parts("learning-mutations original"@).skip(1), record[3]);
        assert(args3 =~= seq![said(record, 1)]);
        makes_learning_mutations(args3, record[3]);
    }
    assert(document_of(SLOTBOOK_SCOPE@, record[22]) == Ok::<Tree, Seq<char>>(at(record[23], "scope"@))) by {
        was_made(l, known, answers, record, 22);
        let args22 = arguments(parts("slotbook-scope"@).skip(1), record[22]);
        assert(args22 =~= seq![]);
        makes_slotbook_scope(args22, record[22]);
    }
}

proof fn lemma_study_was_authored_2(known: Tree, answers: Seq<(Tree, bool)>, record: Seq<Tree>)
    requires
        passed(LEARN_PREPARE@, known, answers, record),
    ensures
        made_model_destination(at(said(record, 34), "base_url"@))
            == Ok::<Tree, Seq<char>>(at(record[38], "destination"@)),
        document_of(LEARNING_OPERATOR@, record[39])
            == Ok::<Tree, Seq<char>>(at(record[40], "operator"@)),
        document_of(LEARNING_EVALUATOR@, record[43])
            == Ok::<Tree, Seq<char>>(at(record[44], "evaluator"@)),
        document_of(LEARNING_CONFIG@, record[47])
            == Ok::<Tree, Seq<char>>(at(record[48], "config"@)),
{
    let l = LEARN_PREPARE@;
    reveal_strlit("destination");
    reveal_strlit("model-destination");
    reveal_strlit("base_url");
    reveal_strlit("model-destination base_url");
    reveal_strlit("reply");
    reveal_strlit("model");
    reveal_strlit("model,base_url");
    reveal_strlit("operator");
    reveal_strlit("learning-operator");
    reveal_strlit("evaluator");
    reveal_strlit("learning-evaluator");
    reveal_strlit("config");
    reveal_strlit("learning-config");
    assert("model-destination base_url"@ =~= "model-destination"@ + seq![' '] + "base_url"@);
    lemma_two_words("model-destination"@, "base_url"@, "model-destination base_url"@);
    assert(parts("model-destination base_url"@) =~= seq!["model-destination"@, "base_url"@]);
    assert("base_url"@.len() == 8);
    assert("reply"@.len() == 5);
    assert("model"@[0] != "reply"@[0]);
    assert("model,base_url"@ =~= "model"@ + seq![','] + "base_url"@);
    assert(parts("model-destination base_url"@).skip(1) =~= seq!["base_url"@]);
    lemma_one_word("learning-operator"@);
    assert(parts("learning-operator"@) =~= seq!["learning-operator"@]);
    assert(parts("learning-operator"@).skip(1) =~= seq![]);
    lemma_one_word("learning-evaluator"@);
    assert(parts("learning-evaluator"@) =~= seq!["learning-evaluator"@]);
    assert(parts("learning-evaluator"@).skip(1) =~= seq![]);
    lemma_one_word("learning-config"@);
    assert(parts("learning-config"@) =~= seq!["learning-config"@]);
    assert(parts("learning-config"@).skip(1) =~= seq![]);
    assert(made_model_destination(at(said(record, 34), "base_url"@))
            == Ok::<Tree, Seq<char>>(at(record[38], "destination"@))) by {
        was_made(l, known, answers, record, 37);
        was_kept(l, known, answers, record, 36);
        was_said(l, known, answers, record, 35);
        lemma_under(record[36], "model"@, "base_url"@, "model,base_url"@);
        let args37 = arguments(parts("model-destination base_url"@).skip(1), record[37]);
        assert(args37 =~= seq![at(said(record, 34), "base_url"@)]);
        makes_model_destination(args37, record[37]);
    }
    assert(document_of(LEARNING_OPERATOR@, record[39])
            == Ok::<Tree, Seq<char>>(at(record[40], "operator"@))) by {
        was_made(l, known, answers, record, 39);
        let args39 = arguments(parts("learning-operator"@).skip(1), record[39]);
        assert(args39 =~= seq![]);
        makes_learning_operator(args39, record[39]);
    }
    assert(document_of(LEARNING_EVALUATOR@, record[43])
            == Ok::<Tree, Seq<char>>(at(record[44], "evaluator"@))) by {
        was_made(l, known, answers, record, 43);
        let args43 = arguments(parts("learning-evaluator"@).skip(1), record[43]);
        assert(args43 =~= seq![]);
        makes_learning_evaluator(args43, record[43]);
    }
    assert(document_of(LEARNING_CONFIG@, record[47])
            == Ok::<Tree, Seq<char>>(at(record[48], "config"@))) by {
        was_made(l, known, answers, record, 47);
        let args47 = arguments(parts("learning-config"@).skip(1), record[47]);
        assert(args47 =~= seq![]);
        makes_learning_config(args47, record[47]);
    }
}

/// A study is authored only under the digest of the verifier that was copied for it, and its method
/// names no exact capability, so that each service grant selects its own worker; the mutations, the
/// scope, the destination, the actors and the host configuration are drawn up from what was read.
pub proof fn study_was_authored(known: Tree, answers: Seq<(Tree, bool)>) -> (record: Seq<Tree>)
    requires
        known is Object,
        finished(LEARN_PREPARE@, known, answers),
    ensures
        passed(LEARN_PREPARE@, known, answers, record),
        LEARN_PREPARE@[10].2@ == "trusted-verifier"@,
        at(record[15], "policy,verifier"@) == at(said(record, 10), "digest"@),
        at(record[22], "requirement,exact_capability"@) == Tree::Null,
        LEARN_PREPARE@[1].2@ == "load governed"@,
        made_learning_mutations(said(record, 1))
            == Ok::<Tree, Seq<char>>(at(record[4], "mutations"@)),
        document_of(SLOTBOOK_SCOPE@, record[22]) == Ok::<Tree, Seq<char>>(at(record[23], "scope"@)),
        LEARN_PREPARE@[34].2@ == "load profile"@,
        made_model_destination(at(said(record, 34), "base_url"@))
            == Ok::<Tree, Seq<char>>(at(record[38], "destination"@)),
        document_of(LEARNING_OPERATOR@, record[39])
            == Ok::<Tree, Seq<char>>(at(record[40], "operator"@)),
        document_of(LEARNING_EVALUATOR@, record[43])
            == Ok::<Tree, Seq<char>>(at(record[44], "evaluator"@)),
        document_of(LEARNING_CONFIG@, record[47])
            == Ok::<Tree, Seq<char>>(at(record[48], "config"@)),
{
    let record = finished_scenarios_are_recorded(LEARN_PREPARE@, known, answers);
    lemma_study_was_authored_1(known, answers, record);
    lemma_study_was_authored_2(known, answers, record);
    record
}

proof fn lemma_slot_was_configured_1(known: Tree, answers: Seq<(Tree, bool)>, record: Seq<Tree>)
    requires
        passed(LEARN_PREPARE_SLOT@, known, answers, record),
    ensures
        document_of(LEARNING_WORKER_RECIPE@, record[3])
            == Ok::<Tree, Seq<char>>(at(record[4], "worker_recipe"@)),
        document_of(LEARNING_TARGET_RECIPE@, record[9])
            == Ok::<Tree, Seq<char>>(at(record[10], "target_recipe"@)),
{
    let l = LEARN_PREPARE_SLOT@;
    reveal_strlit("worker_recipe");
    reveal_strlit("learning-worker-recipe");
    reveal_strlit("target_recipe");
    reveal_strlit("learning-target-recipe");
    lemma_one_word("learning-worker-recipe"@);
    assert(parts("learning-worker-recipe"@) =~= seq!["learning-worker-recipe"@]);
    assert(parts("learning-worker-recipe"@).skip(1) =~= seq![]);
    lemma_one_word("learning-target-recipe"@);
    assert(parts("learning-target-recipe"@) =~= seq!["learning-target-recipe"@]);
    assert(parts("learning-target-recipe"@).skip(1) =~= seq![]);
    assert(document_of(LEARNING_WORKER_RECIPE@, record[3])
            == Ok::<Tree, Seq<char>>(at(record[4], "worker_recipe"@))) by {
        was_made(l, known, answers, record, 3);
        let args3 = arguments(parts("learning-worker-recipe"@).skip(1), record[3]);
        assert(args3 =~= seq![]);
        makes_learning_worker_recipe(args3, record[3]);
    }
    assert(document_of(LEARNING_TARGET_RECIPE@, record[9])
            == Ok::<Tree, Seq<char>>(at(record[10], "target_recipe"@))) by {
        was_made(l, known, answers, record, 9);
        let args9 = arguments(parts("learning-target-recipe"@).skip(1), record[9]);
        assert(args9 =~= seq![]);
        makes_learning_target_recipe(args9, record[9]);
    }
}

proof fn lemma_slot_was_configured_2(known: Tree, answers: Seq<(Tree, bool)>, record: Seq<Tree>)
    requires
        passed(LEARN_PREPARE_SLOT@, known, answers, record),
    ensures
        made_grant_slot(
            at(record[14], "config"@),
            at(at(known, "slot"@), "capability"@),
            at(known, "grant"@),
        )
            == Ok::<Tree, Seq<char>>(at(record[15], "config"@)),
        made_grant_slot(at(record[14], "config"@), at(at(known, "slot"@), "capability"@), at(known, "grant"@)) is Ok
            && made_trust_slot(
                made_grant_slot(at(record[14], "config"@), at(at(known, "slot"@), "capability"@), at(known, "grant"@))->Ok_0,
                at(at(known, "slot"@), "name"@),
                at(said(record, 15), "path"@),
            )
                == Ok::<Tree, Seq<char>>(at(record[18], "config"@)),
{
    let l = LEARN_PREPARE_SLOT@;
    reveal_strlit("config");
    reveal_strlit("grant-slot config slot,capability grant");
    reveal_strlit("grant-slot");
    reveal_strlit("config slot,capability grant");
    reveal_strlit("slot,capability grant");
    reveal_strlit("slot,capability");
    reveal_strlit("grant");
    reveal_strlit("slot");
    reveal_strlit("reply");
    reveal_strlit("");
    reveal_strlit("recipe");
    reveal_strlit("name");
    reveal_strlit("worker_recipe");
    reveal_strlit("worker_path");
    reveal_strlit("target_recipe");
    reveal_strlit("target_path");
    reveal_strlit("config,adapters,managed_linux,recipes");
    reveal_strlit("capability");
    reveal_strlit("trust-slot config slot,name slot_credential,path");
    reveal_strlit("trust-slot");
    reveal_strlit("config slot,name slot_credential,path");
    reveal_strlit("slot,name slot_credential,path");
    reveal_strlit("slot,name");
    reveal_strlit("slot_credential,path");
    reveal_strlit("slot_credential");
    reveal_strlit("path");
    assert("slot,capability grant"@ =~= "slot,capability"@ + seq![' '] + "grant"@);
    lemma_two_words("slot,capability"@, "grant"@, "slot,capability grant"@);
    assert("config slot,capability grant"@ =~= "config"@ + seq![' '] + "slot,capability grant"@);
    lemma_four_words("config"@, "slot,capability grant"@, "config slot,capability grant"@);
    assert(
        "grant-slot config slot,capability grant"@
            =~= "grant-slot"@ + seq![' '] + "config slot,capability grant"@
    );
    lemma_four_words(
        "grant-slot"@,
        "config slot,capability grant"@,
        "grant-slot config slot,capability grant"@,
    );
    assert(
        parts("grant-slot config slot,capability grant"@)
            =~= seq!["grant-slot"@, "config"@, "slot,capability"@, "grant"@]
    );
    assert("config"@.len() == 6);
    assert("slot,capability"@.len() == 15);
    assert("slot"@.len() == 4);
    assert("reply"@.len() == 5);
    lemma_apart(""@, "slot"@, 0);
    lemma_apart("recipe"@, "slot"@, 0);
    lemma_apart("name"@, "slot"@, 0);
    lemma_apart("worker_recipe"@, "slot"@, 0);
    lemma_apart("worker_path"@, "slot"@, 0);
    lemma_apart("target_recipe"@, "slot"@, 0);
    lemma_apart("target_path"@, "slot"@, 0);
    lemma_apart("config,adapters,managed_linux,recipes"@, "slot"@, 0);
    assert("slot,capability"@ =~= "slot"@ + seq![','] + "capability"@);
    assert("grant"@.len() == 5);
    assert("grant"@[0] != "reply"@[0]);
    lemma_apart(""@, "grant"@, 0);
    lemma_apart("recipe"@, "grant"@, 0);
    lemma_apart("name"@, "grant"@, 0);
    lemma_apart("worker_recipe"@, "grant"@, 0);
    lemma_apart("worker_path"@, "grant"@, 0);
    lemma_apart("target_recipe"@, "grant"@, 0);
    lemma_apart("target_path"@, "grant"@, 0);
    lemma_apart("config,adapters,managed_linux,recipes"@, "grant"@, 0);
    assert(
        parts("grant-slot config slot,capability grant"@).skip(1)
            =~= seq!["config"@, "slot,capability"@, "grant"@]
    );
    assert(
        "slot,name slot_credential,path"@ =~= "slot,name"@ + seq![' '] + "slot_credential,path"@
    );
    lemma_two_words("slot,name"@, "slot_credential,path"@, "slot,name slot_credential,path"@);
    assert(
        "config slot,name slot_credential,path"@
            =~= "config"@ + seq![' '] + "slot,name slot_credential,path"@
    );
    lemma_four_words(
        "config"@,
        "slot,name slot_credential,path"@,
        "config slot,name slot_credential,path"@,
    );
    assert(
        "trust-slot config slot,name slot_credential,path"@
            =~= "trust-slot"@ + seq![' '] + "config slot,name slot_credential,path"@
    );
    lemma_four_words(
        "trust-slot"@,
        "config slot,name slot_credential,path"@,
        "trust-slot config slot,name slot_credential,path"@,
    );
    assert(
        parts("trust-slot config slot,name slot_credential,path"@)
            =~= seq!["trust-slot"@, "config"@, "slot,name"@, "slot_credential,path"@]
    );
    lemma_apart(""@, "config"@, 0);
    lemma_apart("slot_credential"@, "config"@, 0);
    assert("slot,name"@.len() == 9);
    lemma_apart("config"@, "slot"@, 0);
    lemma_apart("slot_credential"@, "slot"@, 4);
    assert("slot,name"@ =~= "slot"@ + seq![','] + "name"@);
    assert("slot_credential,path"@.len() == 20);
    assert("slot_credential"@.len() == 15);
    assert("slot_credential,path"@ =~= "slot_credential"@ + seq![','] + "path"@);
    assert(
        parts("trust-slot config slot,name slot_credential,path"@).skip(1)
            =~= seq!["config"@, "slot,name"@, "slot_credential,path"@]
    );
    assert(made_grant_slot(
            at(record[14], "config"@),
            at(at(known, "slot"@), "capability"@),
            at(known, "grant"@),
        )
            == Ok::<Tree, Seq<char>>(at(record[15], "config"@))) by {
        was_made(l, known, answers, record, 14);
        assert(forall|j: int|
            0 <= j < 14 ==> is_check((#[trigger] l[j]).0@) || !touches(l[j].1@, "slot"@));
        stays_through(l, known, answers, record, 0, 14, "slot"@);
        lemma_under(record[14], "slot"@, "capability"@, "slot,capability"@);
        assert(forall|j: int|
            0 <= j < 14 ==> is_check((#[trigger] l[j]).0@) || !touches(l[j].1@, "grant"@));
        stays_through(l, known, answers, record, 0, 14, "grant"@);
        let args14 = arguments(
            parts("grant-slot config slot,capability grant"@).skip(1),
            record[14],
        );
        assert(
            args14
                =~= seq![
                    at(record[14], "config"@),
                    at(at(known, "slot"@), "capability"@),
                    at(known, "grant"@),
                ]
        );
        makes_grant_slot(args14, record[14]);
    }
    assert(made_grant_slot(at(record[14], "config"@), at(at(known, "slot"@), "capability"@), at(known, "grant"@)) is Ok
            && made_trust_slot(
                made_grant_slot(at(record[14], "config"@), at(at(known, "slot"@), "capability"@), at(known, "grant"@))->Ok_0,
                at(at(known, "slot"@), "name"@),
                at(said(record, 15), "path"@),
            )
                == Ok::<Tree, Seq<char>>(at(record[18], "config"@))) by {
        was_made(l, known, answers, record, 17);
        was_made(l, known, answers, record, 14);
        assert(forall|j: int|
            0 <= j < 14 ==> is_check((#[trigger] l[j]).0@) || !touches(l[j].1@, "slot"@));
        stays_through(l, known, answers, record, 0, 14, "slot"@);
        lemma_under(record[14], "slot"@, "capability"@, "slot,capability"@);
        assert(forall|j: int|
            0 <= j < 14 ==> is_check((#[trigger] l[j]).0@) || !touches(l[j].1@, "grant"@));
        stays_through(l, known, answers, record, 0, 14, "grant"@);
        let args14 = arguments(
            parts("grant-slot config slot,capability grant"@).skip(1),
            record[14],
        );
        assert(
            args14
                =~= seq![
                    at(record[14], "config"@),
                    at(at(known, "slot"@), "capability"@),
                    at(known, "grant"@),
                ]
        );
        makes_grant_slot(args14, record[14]);
        stays(l, known, answers, record, 15, "config"@);
        stays(l, known, answers, record, 16, "config"@);
        assert(forall|j: int|
            0 <= j < 17 ==> is_check((#[trigger] l[j]).0@) || !touches(l[j].1@, "slot"@));
        stays_through(l, known, answers, record, 0, 17, "slot"@);
        lemma_under(record[17], "slot"@, "name"@, "slot,name"@);
        was_said(l, known, answers, record, 16);
        lemma_under(record[17], "slot_credential"@, "path"@, "slot_credential,path"@);
        let args17 = arguments(
            parts("trust-slot config slot,name slot_credential,path"@).skip(1),
            record[17],
        );
        assert(
            args17
                =~= seq![
                    made_grant_slot(at(record[14], "config"@), at(at(known, "slot"@), "capability"@), at(known, "grant"@))->Ok_0,
                    at(at(known, "slot"@), "name"@),
                    at(said(record, 15), "path"@),
                ]
        );
        makes_trust_slot(args17, record[17]);
    }
}

proof fn lemma_slot_was_configured_3(known: Tree, answers: Seq<(Tree, bool)>, record: Seq<Tree>)
    requires
        passed(LEARN_PREPARE_SLOT@, known, answers, record),
    ensures
        document_of(LEARNING_SERVICE@, record[18])
            == Ok::<Tree, Seq<char>>(at(record[19], "service_actor"@)),
{
    let l = LEARN_PREPARE_SLOT@;
    reveal_strlit("service_actor");
    reveal_strlit("learning-service");
    lemma_one_word("learning-service"@);
    assert(parts("learning-service"@) =~= seq!["learning-service"@]);
    assert(parts("learning-service"@).skip(1) =~= seq![]);
    assert(document_of(LEARNING_SERVICE@, record[18])
            == Ok::<Tree, Seq<char>>(at(record[19], "service_actor"@))) by {
        was_made(l, known, answers, record, 18);
        let args18 = arguments(parts("learning-service"@).skip(1), record[18]);
        assert(args18 =~= seq![]);
        makes_learning_service(args18, record[18]);
    }
}

/// A slot is configured with the recipes of its worker and its target, drawn up from the recipes
/// that were read, and the configuration then trusts and grants it.
pub proof fn slot_was_configured(known: Tree, answers: Seq<(Tree, bool)>) -> (record: Seq<Tree>)
    requires
        known is Object,
        finished(LEARN_PREPARE_SLOT@, known, answers),
    ensures
        passed(LEARN_PREPARE_SLOT@, known, answers, record),
        document_of(LEARNING_WORKER_RECIPE@, record[3])
            == Ok::<Tree, Seq<char>>(at(record[4], "worker_recipe"@)),
        document_of(LEARNING_TARGET_RECIPE@, record[9])
            == Ok::<Tree, Seq<char>>(at(record[10], "target_recipe"@)),
        made_grant_slot(
            at(record[14], "config"@),
            at(at(known, "slot"@), "capability"@),
            at(known, "grant"@),
        )
            == Ok::<Tree, Seq<char>>(at(record[15], "config"@)),
        LEARN_PREPARE_SLOT@[15].2@ == "credential $files,token"@,
        made_grant_slot(at(record[14], "config"@), at(at(known, "slot"@), "capability"@), at(known, "grant"@)) is Ok
            && made_trust_slot(
                made_grant_slot(at(record[14], "config"@), at(at(known, "slot"@), "capability"@), at(known, "grant"@))->Ok_0,
                at(at(known, "slot"@), "name"@),
                at(said(record, 15), "path"@),
            )
                == Ok::<Tree, Seq<char>>(at(record[18], "config"@)),
        document_of(LEARNING_SERVICE@, record[18])
            == Ok::<Tree, Seq<char>>(at(record[19], "service_actor"@)),
{
    let record = finished_scenarios_are_recorded(LEARN_PREPARE_SLOT@, known, answers);
    lemma_slot_was_configured_1(known, answers, record);
    lemma_slot_was_configured_2(known, answers, record);
    lemma_slot_was_configured_3(known, answers, record);
    record
}

proof fn lemma_slot_was_verified_1(known: Tree, answers: Seq<(Tree, bool)>, record: Seq<Tree>)
    requires
        passed(LEARN_SLOT@, known, answers, record),
    ensures
        at(said(record, 7), "pending"@) == Tree::Null,
        is_positive(at(said(record, 7), "generation"@)),
        at(said(record, 19), "pending"@) == Tree::Null,
        is_positive(at(said(record, 19), "generation"@)),
{
    let l = LEARN_SLOT@;
    reveal_strlit("actual");
    reveal_strlit("reply");
    reveal_strlit("pending");
    reveal_strlit("actual,pending");
    reveal_strlit("generation");
    reveal_strlit("actual,generation");
    assert("actual"@.len() == 6);
    assert("reply"@.len() == 5);
    assert("actual,pending"@ =~= "actual"@ + seq![','] + "pending"@);
    assert("actual,generation"@ =~= "actual"@ + seq![','] + "generation"@);
    assert(at(said(record, 7), "pending"@) == Tree::Null) by {
        was_said(l, known, answers, record, 8);
        lemma_under(record[9], "actual"@, "pending"@, "actual,pending"@);
        saw_null(l, known, answers, record, 9);
    }
    assert(is_positive(at(said(record, 7), "generation"@))) by {
        was_said(l, known, answers, record, 8);
        unchanged(l, known, answers, record, 9);
        lemma_under(record[10], "actual"@, "generation"@, "actual,generation"@);
        saw_positive(l, known, answers, record, 10);
    }
    assert(at(said(record, 19), "pending"@) == Tree::Null) by {
        was_said(l, known, answers, record, 20);
        lemma_under(record[21], "actual"@, "pending"@, "actual,pending"@);
        saw_null(l, known, answers, record, 21);
    }
    assert(is_positive(at(said(record, 19), "generation"@))) by {
        was_said(l, known, answers, record, 20);
        unchanged(l, known, answers, record, 21);
        lemma_under(record[22], "actual"@, "generation"@, "actual,generation"@);
        saw_positive(l, known, answers, record, 22);
    }
}

proof fn lemma_slot_was_verified_2(known: Tree, answers: Seq<(Tree, bool)>, record: Seq<Tree>)
    requires
        passed(LEARN_SLOT@, known, answers, record),
    ensures
        at(record[29], "slot,worker_state"@) == said(record, 7),
        at(record[29], "slot,target_state"@) == said(record, 19),
{
    let l = LEARN_SLOT@;
    reveal_strlit("slot,worker_state");
    reveal_strlit("slot");
    reveal_strlit("reply");
    reveal_strlit("actual");
    reveal_strlit("worker_state");
    reveal_strlit("installation");
    reveal_strlit("");
    reveal_strlit("reference");
    reveal_strlit("recipe_name");
    reveal_strlit("recipe_digest");
    reveal_strlit("applied");
    reveal_strlit("target_state");
    reveal_strlit("slot,target_state");
    reveal_strlit("slot_name");
    reveal_strlit("worker_name");
    reveal_strlit("key");
    reveal_strlit("prepared");
    assert("slot"@.len() == 4);
    assert("reply"@.len() == 5);
    assert("actual"@.len() == 6);
    assert("slot,worker_state"@ =~= "slot"@ + seq![','] + "worker_state"@);
    lemma_apart("installation"@, "slot"@, 0);
    lemma_apart(""@, "slot"@, 0);
    lemma_apart("reference"@, "slot"@, 0);
    lemma_apart("recipe_name"@, "slot"@, 0);
    lemma_apart("recipe_digest"@, "slot"@, 0);
    lemma_apart("applied"@, "slot"@, 0);
    lemma_apart("actual"@, "slot"@, 0);
    assert("slot,target_state"@ =~= "slot"@ + seq![','] + "target_state"@);
    lemma_under(Tree::Null, "slot"@, "target_state"@, "slot,target_state"@);
    lemma_single_segment("target_state"@);
    assert("target_state"@[0] != "worker_state"@[0]);
    assert("slot,target_state"@.len() == 17);
    assert(segments("slot,target_state"@)[1] == "target_state"@);
    lemma_apart("slot_name"@, "slot"@, 4);
    lemma_apart("worker_name"@, "slot"@, 0);
    lemma_apart("key"@, "slot"@, 0);
    lemma_apart("prepared"@, "slot"@, 0);
    assert(at(record[29], "slot,worker_state"@) == said(record, 7)) by {
        was_said(l, known, answers, record, 8);
        unchanged(l, known, answers, record, 9);
        unchanged(l, known, answers, record, 10);
        was_put(l, known, answers, record, 11);
        lemma_under(record[12], "slot"@, "worker_state"@, "slot,worker_state"@);
        stays(l, known, answers, record, 12, "slot"@);
        stays(l, known, answers, record, 13, "slot"@);
        stays(l, known, answers, record, 14, "slot"@);
        stays(l, known, answers, record, 15, "slot"@);
        stays(l, known, answers, record, 16, "slot"@);
        stays(l, known, answers, record, 17, "slot"@);
        stays(l, known, answers, record, 18, "slot"@);
        stays(l, known, answers, record, 19, "slot"@);
        stays(l, known, answers, record, 20, "slot"@);
        unchanged(l, known, answers, record, 21);
        unchanged(l, known, answers, record, 22);
        stays_beside(l, known, answers, record, 23, "slot"@, "worker_state"@);
        stays(l, known, answers, record, 24, "slot"@);
        stays(l, known, answers, record, 25, "slot"@);
        stays(l, known, answers, record, 26, "slot"@);
        stays(l, known, answers, record, 27, "slot"@);
        stays(l, known, answers, record, 28, "slot"@);
        lemma_under(record[29], "slot"@, "worker_state"@, "slot,worker_state"@);
    }
    assert(at(record[29], "slot,target_state"@) == said(record, 19)) by {
        was_said(l, known, answers, record, 20);
        unchanged(l, known, answers, record, 21);
        unchanged(l, known, answers, record, 22);
        was_put(l, known, answers, record, 23);
        lemma_under(record[24], "slot"@, "target_state"@, "slot,target_state"@);
        stays(l, known, answers, record, 24, "slot"@);
        stays(l, known, answers, record, 25, "slot"@);
        stays(l, known, answers, record, 26, "slot"@);
        stays(l, known, answers, record, 27, "slot"@);
        stays(l, known, answers, record, 28, "slot"@);
        lemma_under(record[29], "slot"@, "target_state"@, "slot,target_state"@);
    }
}

/// A slot is ready only where both its workspace and its target reached a positive generation with
/// nothing pending, and it carries exactly those two states.
pub proof fn slot_was_verified(known: Tree, answers: Seq<(Tree, bool)>) -> (record: Seq<Tree>)
    requires
        known is Object,
        finished(LEARN_SLOT@, known, answers),
    ensures
        passed(LEARN_SLOT@, known, answers, record),
        LEARN_SLOT@[7].2@ == "resource-of $installation inspect"@,
        at(said(record, 7), "pending"@) == Tree::Null,
        is_positive(at(said(record, 7), "generation"@)),
        LEARN_SLOT@[19].2@ == "resource-of $installation inspect"@,
        at(said(record, 19), "pending"@) == Tree::Null,
        is_positive(at(said(record, 19), "generation"@)),
        at(record[29], "slot,worker_state"@) == said(record, 7),
        at(record[29], "slot,target_state"@) == said(record, 19),
{
    let record = finished_scenarios_are_recorded(LEARN_SLOT@, known, answers);
    lemma_slot_was_verified_1(known, answers, record);
    lemma_slot_was_verified_2(known, answers, record);
    record
}

proof fn lemma_comparison_was_declared_1(known: Tree, answers: Seq<(Tree, bool)>, record: Seq<Tree>)
    requires
        passed(LEARN_SOURCE@, known, answers, record),
    ensures
        at(record[49], "select,selection,supersedes"@) == Tree::Null,
        at(record[50], "select,selection,approval"@) == Tree::Null,
{
    let l = LEARN_SOURCE@;
    reveal_strlit("select,selection,supersedes");
    reveal_strlit("select");
    reveal_strlit("reply");
    reveal_strlit("selection,supersedes");
    reveal_strlit("select,selection,approval");
    reveal_strlit("selection,approval");
    assert("select"@.len() == 6);
    assert("reply"@.len() == 5);
    assert("select,selection,supersedes"@ =~= "select"@ + seq![','] + "selection,supersedes"@);
    assert("select,selection,approval"@ =~= "select"@ + seq![','] + "selection,approval"@);
    assert(at(record[49], "select,selection,supersedes"@) == Tree::Null) by {
        was_cleared(l, known, answers, record, 48);
        lemma_under(record[49], "select"@, "selection,supersedes"@, "select,selection,supersedes"@);
    }
    assert(at(record[50], "select,selection,approval"@) == Tree::Null) by {
        was_cleared(l, known, answers, record, 49);
        lemma_under(record[50], "select"@, "selection,approval"@, "select,selection,approval"@);
    }
}

proof fn lemma_comparison_was_declared_2(known: Tree, answers: Seq<(Tree, bool)>, record: Seq<Tree>)
    requires
        passed(LEARN_SOURCE@, known, answers, record),
    ensures
        at(record[95], "declaration,lane"@) == Tree::Text("seeded_fixture"@),
        at(record[95], "declaration,selection,command"@) == Tree::Text("learning-select"@),
{
    let l = LEARN_SOURCE@;
    reveal_strlit("declaration,lane");
    reveal_strlit("declaration");
    reveal_strlit("reply");
    reveal_strlit("lane");
    reveal_strlit("selection,actor");
    reveal_strlit("declaration,selection,actor");
    reveal_strlit("selection");
    reveal_strlit("actor");
    reveal_strlit("selection,command");
    reveal_strlit("declaration,selection,command");
    reveal_strlit("command");
    reveal_strlit("baseline");
    reveal_strlit("declaration,baseline");
    reveal_strlit("proposal_run");
    reveal_strlit("declaration,proposal_run");
    reveal_strlit("agreement");
    reveal_strlit("declaration,agreement");
    reveal_strlit("policy");
    reveal_strlit("declaration,policy");
    reveal_strlit("verifier");
    reveal_strlit("declaration,verifier");
    reveal_strlit("checks");
    reveal_strlit("declaration,checks");
    reveal_strlit("input_field");
    reveal_strlit("declaration,input_field");
    reveal_strlit("candidate_output");
    reveal_strlit("declaration,candidate_output");
    reveal_strlit("pairs");
    reveal_strlit("declaration,pairs");
    reveal_strlit("allowance");
    reveal_strlit("declaration,allowance");
    reveal_strlit("maximum_duration_ms");
    reveal_strlit("declaration,maximum_duration_ms");
    reveal_strlit("maximum_submissions");
    reveal_strlit("declaration,maximum_submissions");
    reveal_strlit("minimum_repair_reduction");
    reveal_strlit("declaration,minimum_repair_reduction");
    reveal_strlit("provenance");
    reveal_strlit("declaration,provenance");
    reveal_strlit("unknown_template");
    reveal_strlit("unknown_fixture");
    reveal_strlit("unknowns");
    reveal_strlit("declaration,unknowns");
    reveal_strlit("publication");
    reveal_strlit("declaration,publication");
    reveal_strlit("generation");
    reveal_strlit("declaration,generation");
    reveal_strlit("declare,type");
    assert("declaration"@.len() == 11);
    assert("reply"@.len() == 5);
    assert("declaration,lane"@ =~= "declaration"@ + seq![','] + "lane"@);
    assert("declaration,selection,actor"@ =~= "declaration"@ + seq![','] + "selection,actor"@);
    lemma_under(Tree::Null, "declaration"@, "selection,actor"@, "declaration,selection,actor"@);
    assert("selection,actor"@ =~= "selection"@ + seq![','] + "actor"@);
    lemma_under(Tree::Null, "selection"@, "actor"@, "selection,actor"@);
    assert("selection"@.len() == 9);
    assert("lane"@.len() == 4);
    assert("declaration,selection,actor"@.len() == 27);
    assert(segments("declaration,selection,actor"@)[1] == "selection"@);
    assert("declaration,selection,command"@ =~= "declaration"@ + seq![','] + "selection,command"@);
    lemma_under(Tree::Null, "declaration"@, "selection,command"@, "declaration,selection,command"@);
    assert("selection,command"@ =~= "selection"@ + seq![','] + "command"@);
    lemma_under(Tree::Null, "selection"@, "command"@, "selection,command"@);
    assert("declaration,selection,command"@.len() == 29);
    assert(segments("declaration,selection,command"@)[1] == "selection"@);
    assert("declaration,baseline"@ =~= "declaration"@ + seq![','] + "baseline"@);
    lemma_under(Tree::Null, "declaration"@, "baseline"@, "declaration,baseline"@);
    lemma_single_segment("baseline"@);
    assert("baseline"@.len() == 8);
    assert("declaration,baseline"@.len() == 20);
    assert(segments("declaration,baseline"@)[1] == "baseline"@);
    assert("declaration,proposal_run"@ =~= "declaration"@ + seq![','] + "proposal_run"@);
    lemma_under(Tree::Null, "declaration"@, "proposal_run"@, "declaration,proposal_run"@);
    lemma_single_segment("proposal_run"@);
    assert("proposal_run"@.len() == 12);
    assert("declaration,proposal_run"@.len() == 24);
    assert(segments("declaration,proposal_run"@)[1] == "proposal_run"@);
    assert("declaration,agreement"@ =~= "declaration"@ + seq![','] + "agreement"@);
    lemma_under(Tree::Null, "declaration"@, "agreement"@, "declaration,agreement"@);
    lemma_single_segment("agreement"@);
    assert("agreement"@.len() == 9);
    assert("declaration,agreement"@.len() == 21);
    assert(segments("declaration,agreement"@)[1] == "agreement"@);
    assert("declaration,policy"@ =~= "declaration"@ + seq![','] + "policy"@);
    lemma_under(Tree::Null, "declaration"@, "policy"@, "declaration,policy"@);
    lemma_single_segment("policy"@);
    assert("policy"@.len() == 6);
    assert("declaration,policy"@.len() == 18);
    assert(segments("declaration,policy"@)[1] == "policy"@);
    assert("declaration,verifier"@ =~= "declaration"@ + seq![','] + "verifier"@);
    lemma_under(Tree::Null, "declaration"@, "verifier"@, "declaration,verifier"@);
    lemma_single_segment("verifier"@);
    assert("verifier"@.len() == 8);
    assert("declaration,verifier"@.len() == 20);
    assert(segments("declaration,verifier"@)[1] == "verifier"@);
    assert("declaration,checks"@ =~= "declaration"@ + seq![','] + "checks"@);
    lemma_under(Tree::Null, "declaration"@, "checks"@, "declaration,checks"@);
    lemma_single_segment("checks"@);
    assert("checks"@.len() == 6);
    assert("declaration,checks"@.len() == 18);
    assert(segments("declaration,checks"@)[1] == "checks"@);
    assert("declaration,input_field"@ =~= "declaration"@ + seq![','] + "input_field"@);
    lemma_under(Tree::Null, "declaration"@, "input_field"@, "declaration,input_field"@);
    lemma_single_segment("input_field"@);
    assert("input_field"@.len() == 11);
    assert("declaration,input_field"@.len() == 23);
    assert(segments("declaration,input_field"@)[1] == "input_field"@);
    assert("declaration,candidate_output"@ =~= "declaration"@ + seq![','] + "candidate_output"@);
    lemma_under(Tree::Null, "declaration"@, "candidate_output"@, "declaration,candidate_output"@);
    lemma_single_segment("candidate_output"@);
    assert("candidate_output"@.len() == 16);
    assert("declaration,candidate_output"@.len() == 28);
    assert(segments("declaration,candidate_output"@)[1] == "candidate_output"@);
    assert("declaration,pairs"@ =~= "declaration"@ + seq![','] + "pairs"@);
    lemma_under(Tree::Null, "declaration"@, "pairs"@, "declaration,pairs"@);
    lemma_single_segment("pairs"@);
    assert("pairs"@.len() == 5);
    assert("declaration,pairs"@.len() == 17);
    assert(segments("declaration,pairs"@)[1] == "pairs"@);
    assert("declaration,allowance"@ =~= "declaration"@ + seq![','] + "allowance"@);
    lemma_under(Tree::Null, "declaration"@, "allowance"@, "declaration,allowance"@);
    lemma_single_segment("allowance"@);
    assert("allowance"@.len() == 9);
    assert("declaration,allowance"@.len() == 21);
    assert(segments("declaration,allowance"@)[1] == "allowance"@);
    assert(
        "declaration,maximum_duration_ms"@ =~= "declaration"@ + seq![','] + "maximum_duration_ms"@
    );
    lemma_under(
        Tree::Null,
        "declaration"@,
        "maximum_duration_ms"@,
        "declaration,maximum_duration_ms"@,
    );
    lemma_single_segment("maximum_duration_ms"@);
    assert("maximum_duration_ms"@.len() == 19);
    assert("declaration,maximum_duration_ms"@.len() == 31);
    assert(segments("declaration,maximum_duration_ms"@)[1] == "maximum_duration_ms"@);
    assert(
        "declaration,maximum_submissions"@ =~= "declaration"@ + seq![','] + "maximum_submissions"@
    );
    lemma_under(
        Tree::Null,
        "declaration"@,
        "maximum_submissions"@,
        "declaration,maximum_submissions"@,
    );
    lemma_single_segment("maximum_submissions"@);
    assert("maximum_submissions"@.len() == 19);
    assert("declaration,maximum_submissions"@.len() == 31);
    assert(segments("declaration,maximum_submissions"@)[1] == "maximum_submissions"@);
    assert(
        "declaration,minimum_repair_reduction"@
            =~= "declaration"@ + seq![','] + "minimum_repair_reduction"@
    );
    lemma_under(
        Tree::Null,
        "declaration"@,
        "minimum_repair_reduction"@,
        "declaration,minimum_repair_reduction"@,
    );
    lemma_single_segment("minimum_repair_reduction"@);
    assert("minimum_repair_reduction"@.len() == 24);
    assert("declaration,minimum_repair_reduction"@.len() == 36);
    assert(segments("declaration,minimum_repair_reduction"@)[1] == "minimum_repair_reduction"@);
    assert("declaration,provenance"@ =~= "declaration"@ + seq![','] + "provenance"@);
    lemma_under(Tree::Null, "declaration"@, "provenance"@, "declaration,provenance"@);
    lemma_single_segment("provenance"@);
    assert("provenance"@.len() == 10);
    assert("declaration,provenance"@.len() == 22);
    assert(segments("declaration,provenance"@)[1] == "provenance"@);
    lemma_apart("unknown_template"@, "declaration"@, 0);
    lemma_apart("unknown_fixture"@, "declaration"@, 0);
    assert("declaration,unknowns"@ =~= "declaration"@ + seq![','] + "unknowns"@);
    lemma_under(Tree::Null, "declaration"@, "unknowns"@, "declaration,unknowns"@);
    lemma_single_segment("unknowns"@);
    assert("unknowns"@.len() == 8);
    assert("declaration,unknowns"@.len() == 20);
    assert(segments("declaration,unknowns"@)[1] == "unknowns"@);
    assert("declaration,publication"@ =~= "declaration"@ + seq![','] + "publication"@);
    lemma_under(Tree::Null, "declaration"@, "publication"@, "declaration,publication"@);
    lemma_single_segment("publication"@);
    assert("publication"@.len() == 11);
    assert("declaration,publication"@.len() == 23);
    assert(segments("declaration,publication"@)[1] == "publication"@);
    assert("declaration,generation"@ =~= "declaration"@ + seq![','] + "generation"@);
    lemma_under(Tree::Null, "declaration"@, "generation"@, "declaration,generation"@);
    lemma_single_segment("generation"@);
    assert("generation"@.len() == 10);
    assert("declaration,generation"@.len() == 22);
    assert(segments("declaration,generation"@)[1] == "generation"@);
    lemma_apart("declare,type"@, "declaration"@, 6);
    assert("agreement"@[0] != "selection"@[0]);
    assert("allowance"@[0] != "selection"@[0]);
    assert(at(record[95], "declaration,lane"@) == Tree::Text("seeded_fixture"@)) by {
        was_worded(l, known, answers, record, 72);
        lemma_under(record[73], "declaration"@, "lane"@, "declaration,lane"@);
        stays_beside(l, known, answers, record, 73, "declaration"@, "lane"@);
        stays_beside(l, known, answers, record, 74, "declaration"@, "lane"@);
        stays_beside(l, known, answers, record, 75, "declaration"@, "lane"@);
        stays_beside(l, known, answers, record, 76, "declaration"@, "lane"@);
        stays_beside(l, known, answers, record, 77, "declaration"@, "lane"@);
        stays_beside(l, known, answers, record, 78, "declaration"@, "lane"@);
        stays_beside(l, known, answers, record, 79, "declaration"@, "lane"@);
        stays_beside(l, known, answers, record, 80, "declaration"@, "lane"@);
        stays_beside(l, known, answers, record, 81, "declaration"@, "lane"@);
        stays_beside(l, known, answers, record, 82, "declaration"@, "lane"@);
        stays_beside(l, known, answers, record, 83, "declaration"@, "lane"@);
        stays_beside(l, known, answers, record, 84, "declaration"@, "lane"@);
        stays_beside(l, known, answers, record, 85, "declaration"@, "lane"@);
        stays_beside(l, known, answers, record, 86, "declaration"@, "lane"@);
        stays_beside(l, known, answers, record, 87, "declaration"@, "lane"@);
        stays_beside(l, known, answers, record, 88, "declaration"@, "lane"@);
        stays(l, known, answers, record, 89, "declaration"@);
        stays(l, known, answers, record, 90, "declaration"@);
        stays_beside(l, known, answers, record, 91, "declaration"@, "lane"@);
        stays_beside(l, known, answers, record, 92, "declaration"@, "lane"@);
        stays_beside(l, known, answers, record, 93, "declaration"@, "lane"@);
        stays(l, known, answers, record, 94, "declaration"@);
        lemma_under(record[95], "declaration"@, "lane"@, "declaration,lane"@);
    }
    assert(at(record[95], "declaration,selection,command"@) == Tree::Text("learning-select"@)) by {
        was_worded(l, known, answers, record, 74);
        lemma_under(
            record[75],
            "declaration"@,
            "selection,command"@,
            "declaration,selection,command"@,
        );
        stays_beside(l, known, answers, record, 75, "declaration"@, "selection"@);
        stays_beside(l, known, answers, record, 76, "declaration"@, "selection"@);
        stays_beside(l, known, answers, record, 77, "declaration"@, "selection"@);
        stays_beside(l, known, answers, record, 78, "declaration"@, "selection"@);
        stays_beside(l, known, answers, record, 79, "declaration"@, "selection"@);
        stays_beside(l, known, answers, record, 80, "declaration"@, "selection"@);
        stays_beside(l, known, answers, record, 81, "declaration"@, "selection"@);
        stays_beside(l, known, answers, record, 82, "declaration"@, "selection"@);
        stays_beside(l, known, answers, record, 83, "declaration"@, "selection"@);
        stays_beside(l, known, answers, record, 84, "declaration"@, "selection"@);
        stays_beside(l, known, answers, record, 85, "declaration"@, "selection"@);
        stays_beside(l, known, answers, record, 86, "declaration"@, "selection"@);
        stays_beside(l, known, answers, record, 87, "declaration"@, "selection"@);
        stays_beside(l, known, answers, record, 88, "declaration"@, "selection"@);
        stays(l, known, answers, record, 89, "declaration"@);
        stays(l, known, answers, record, 90, "declaration"@);
        stays_beside(l, known, answers, record, 91, "declaration"@, "selection"@);
        stays_beside(l, known, answers, record, 92, "declaration"@, "selection"@);
        stays_beside(l, known, answers, record, 93, "declaration"@, "selection"@);
        stays(l, known, answers, record, 94, "declaration"@);
        lemma_under(
            record[95],
            "declaration"@,
            "selection,command"@,
            "declaration,selection,command"@,
        );
        lemma_under(at(record[75], "declaration"@), "selection"@, "command"@, "selection,command"@);
        lemma_under(at(record[95], "declaration"@), "selection"@, "command"@, "selection,command"@);
    }
}

proof fn lemma_comparison_was_declared_3(known: Tree, answers: Seq<(Tree, bool)>, record: Seq<Tree>)
    requires
        passed(LEARN_SOURCE@, known, answers, record),
    ensures
        at(record[95], "declaration,baseline"@) == at(at(known, "baseline"@), "id"@),
        at(record[95], "declaration,pairs"@) == at(record[83], "pairs"@),
{
    let l = LEARN_SOURCE@;
    reveal_strlit("declaration,baseline");
    reveal_strlit("declaration");
    reveal_strlit("reply");
    reveal_strlit("baseline");
    reveal_strlit("");
    reveal_strlit("slots");
    reveal_strlit("source_slot");
    reveal_strlit("policy");
    reveal_strlit("failure_id");
    reveal_strlit("source_failure");
    reveal_strlit("pass_id");
    reveal_strlit("source_pass");
    reveal_strlit("source_worker");
    reveal_strlit("exported");
    reveal_strlit("knowledge");
    reveal_strlit("knowledge_id");
    reveal_strlit("downloaded");
    reveal_strlit("guidance");
    reveal_strlit("repair");
    reveal_strlit("source_method");
    reveal_strlit("failure_artifact");
    reveal_strlit("pass_artifact");
    reveal_strlit("repair_artifact");
    reveal_strlit("method_artifact");
    reveal_strlit("baseline_document,revision");
    reveal_strlit("baseline_artifact");
    reveal_strlit("brief");
    reveal_strlit("brief_artifact");
    reveal_strlit("selected");
    reveal_strlit("pages");
    reveal_strlit("select,type");
    reveal_strlit("select,selection,method");
    reveal_strlit("select,selection,workspace");
    reveal_strlit("select,selection,guidance");
    reveal_strlit("select,selection,artifacts");
    reveal_strlit("select,selection,pages");
    reveal_strlit("select,selection,supersedes");
    reveal_strlit("select,selection,approval");
    reveal_strlit("selection");
    reveal_strlit("loan_a");
    reveal_strlit("loan_a_input");
    reveal_strlit("loan_a_pair");
    reveal_strlit("loan_b");
    reveal_strlit("loan_b_input");
    reveal_strlit("loan_b_pair");
    reveal_strlit("class_a");
    reveal_strlit("class_a_input");
    reveal_strlit("class_a_pair");
    reveal_strlit("class_b");
    reveal_strlit("class_b_input");
    reveal_strlit("class_b_pair");
    reveal_strlit("pairs");
    reveal_strlit("profile_artifact");
    reveal_strlit("declaration,schema_version");
    reveal_strlit("declaration,lane");
    reveal_strlit("declaration,selection,actor");
    reveal_strlit("declaration,selection,command");
    reveal_strlit("id");
    reveal_strlit("baseline,id");
    reveal_strlit("proposal_run");
    reveal_strlit("declaration,proposal_run");
    reveal_strlit("agreement");
    reveal_strlit("declaration,agreement");
    reveal_strlit("declaration,policy");
    reveal_strlit("verifier");
    reveal_strlit("declaration,verifier");
    reveal_strlit("checks");
    reveal_strlit("declaration,checks");
    reveal_strlit("input_field");
    reveal_strlit("declaration,input_field");
    reveal_strlit("candidate_output");
    reveal_strlit("declaration,candidate_output");
    reveal_strlit("declaration,pairs");
    reveal_strlit("allowance");
    reveal_strlit("declaration,allowance");
    reveal_strlit("maximum_duration_ms");
    reveal_strlit("declaration,maximum_duration_ms");
    reveal_strlit("maximum_submissions");
    reveal_strlit("declaration,maximum_submissions");
    reveal_strlit("minimum_repair_reduction");
    reveal_strlit("declaration,minimum_repair_reduction");
    reveal_strlit("provenance");
    reveal_strlit("declaration,provenance");
    reveal_strlit("unknown_template");
    reveal_strlit("unknown_fixture");
    reveal_strlit("unknowns");
    reveal_strlit("declaration,unknowns");
    reveal_strlit("publication");
    reveal_strlit("declaration,publication");
    reveal_strlit("generation");
    reveal_strlit("declaration,generation");
    reveal_strlit("declare,type");
    assert("declaration"@.len() == 11);
    assert("reply"@.len() == 5);
    assert("baseline"@.len() == 8);
    lemma_apart(""@, "baseline"@, 0);
    lemma_apart("slots"@, "baseline"@, 0);
    lemma_apart("source_slot"@, "baseline"@, 0);
    lemma_apart("policy"@, "baseline"@, 0);
    lemma_apart("failure_id"@, "baseline"@, 0);
    lemma_apart("source_failure"@, "baseline"@, 0);
    lemma_apart("pass_id"@, "baseline"@, 0);
    lemma_apart("source_pass"@, "baseline"@, 0);
    lemma_apart("source_worker"@, "baseline"@, 0);
    lemma_apart("exported"@, "baseline"@, 0);
    lemma_apart("knowledge"@, "baseline"@, 0);
    lemma_apart("knowledge_id"@, "baseline"@, 0);
    lemma_apart("downloaded"@, "baseline"@, 0);
    lemma_apart("guidance"@, "baseline"@, 0);
    lemma_apart("repair"@, "baseline"@, 0);
    lemma_apart("source_method"@, "baseline"@, 0);
    lemma_apart("failure_artifact"@, "baseline"@, 0);
    lemma_apart("pass_artifact"@, "baseline"@, 0);
    lemma_apart("repair_artifact"@, "baseline"@, 0);
    lemma_apart("method_artifact"@, "baseline"@, 0);
    lemma_apart("baseline_document,revision"@, "baseline"@, 8);
    lemma_apart("baseline_artifact"@, "baseline"@, 8);
    lemma_apart("brief"@, "baseline"@, 1);
    lemma_apart("brief_artifact"@, "baseline"@, 1);
    lemma_apart("selected"@, "baseline"@, 0);
    lemma_apart("pages"@, "baseline"@, 0);
    lemma_apart("select,type"@, "baseline"@, 0);
    lemma_apart("select,selection,method"@, "baseline"@, 0);
    lemma_apart("select,selection,workspace"@, "baseline"@, 0);
    lemma_apart("select,selection,guidance"@, "baseline"@, 0);
    lemma_apart("select,selection,artifacts"@, "baseline"@, 0);
    lemma_apart("select,selection,pages"@, "baseline"@, 0);
    lemma_apart("select,selection,supersedes"@, "baseline"@, 0);
    lemma_apart("select,selection,approval"@, "baseline"@, 0);
    lemma_apart("selection"@, "baseline"@, 0);
    lemma_apart("loan_a"@, "baseline"@, 0);
    lemma_apart("loan_a_input"@, "baseline"@, 0);
    lemma_apart("loan_a_pair"@, "baseline"@, 0);
    lemma_apart("loan_b"@, "baseline"@, 0);
    lemma_apart("loan_b_input"@, "baseline"@, 0);
    lemma_apart("loan_b_pair"@, "baseline"@, 0);
    lemma_apart("class_a"@, "baseline"@, 0);
    lemma_apart("class_a_input"@, "baseline"@, 0);
    lemma_apart("class_a_pair"@, "baseline"@, 0);
    lemma_apart("class_b"@, "baseline"@, 0);
    lemma_apart("class_b_input"@, "baseline"@, 0);
    lemma_apart("class_b_pair"@, "baseline"@, 0);
    lemma_apart("pairs"@, "baseline"@, 0);
    lemma_apart("profile_artifact"@, "baseline"@, 0);
    lemma_apart("declaration,schema_version"@, "baseline"@, 0);
    lemma_apart("declaration,lane"@, "baseline"@, 0);
    lemma_apart("declaration,selection,actor"@, "baseline"@, 0);
    lemma_apart("declaration,selection,command"@, "baseline"@, 0);
    assert("baseline,id"@ =~= "baseline"@ + seq![','] + "id"@);
    assert("declaration,baseline"@ =~= "declaration"@ + seq![','] + "baseline"@);
    assert("declaration,proposal_run"@ =~= "declaration"@ + seq![','] + "proposal_run"@);
    lemma_under(Tree::Null, "declaration"@, "proposal_run"@, "declaration,proposal_run"@);
    lemma_single_segment("proposal_run"@);
    assert("proposal_run"@.len() == 12);
    assert("declaration,proposal_run"@.len() == 24);
    assert(segments("declaration,proposal_run"@)[1] == "proposal_run"@);
    assert("declaration,agreement"@ =~= "declaration"@ + seq![','] + "agreement"@);
    lemma_under(Tree::Null, "declaration"@, "agreement"@, "declaration,agreement"@);
    lemma_single_segment("agreement"@);
    assert("agreement"@.len() == 9);
    assert("declaration,agreement"@.len() == 21);
    assert(segments("declaration,agreement"@)[1] == "agreement"@);
    assert("declaration,policy"@ =~= "declaration"@ + seq![','] + "policy"@);
    lemma_under(Tree::Null, "declaration"@, "policy"@, "declaration,policy"@);
    lemma_single_segment("policy"@);
    assert("policy"@.len() == 6);
    assert("declaration,policy"@.len() == 18);
    assert(segments("declaration,policy"@)[1] == "policy"@);
    assert("declaration,verifier"@ =~= "declaration"@ + seq![','] + "verifier"@);
    lemma_under(Tree::Null, "declaration"@, "verifier"@, "declaration,verifier"@);
    lemma_single_segment("verifier"@);
    assert("verifier"@[0] != "baseline"@[0]);
    assert("declaration,verifier"@.len() == 20);
    assert(segments("declaration,verifier"@)[1] == "verifier"@);
    assert("declaration,checks"@ =~= "declaration"@ + seq![','] + "checks"@);
    lemma_under(Tree::Null, "declaration"@, "checks"@, "declaration,checks"@);
    lemma_single_segment("checks"@);
    assert("checks"@.len() == 6);
    assert("declaration,checks"@.len() == 18);
    assert(segments("declaration,checks"@)[1] == "checks"@);
    assert("declaration,input_field"@ =~= "declaration"@ + seq![','] + "input_field"@);
    lemma_under(Tree::Null, "declaration"@, "input_field"@, "declaration,input_field"@);
    lemma_single_segment("input_field"@);
    assert("input_field"@.len() == 11);
    assert("declaration,input_field"@.len() == 23);
    assert(segments("declaration,input_field"@)[1] == "input_field"@);
    assert("declaration,candidate_output"@ =~= "declaration"@ + seq![','] + "candidate_output"@);
    lemma_under(Tree::Null, "declaration"@, "candidate_output"@, "declaration,candidate_output"@);
    lemma_single_segment("candidate_output"@);
    assert("candidate_output"@.len() == 16);
    assert("declaration,candidate_output"@.len() == 28);
    assert(segments("declaration,candidate_output"@)[1] == "candidate_output"@);
    assert("declaration,pairs"@ =~= "declaration"@ + seq![','] + "pairs"@);
    lemma_under(Tree::Null, "declaration"@, "pairs"@, "declaration,pairs"@);
    lemma_single_segment("pairs"@);
    assert("pairs"@.len() == 5);
    assert("declaration,pairs"@.len() == 17);
    assert(segments("declaration,pairs"@)[1] == "pairs"@);
    assert("declaration,allowance"@ =~= "declaration"@ + seq![','] + "allowance"@);
    lemma_under(Tree::Null, "declaration"@, "allowance"@, "declaration,allowance"@);
    lemma_single_segment("allowance"@);
    assert("allowance"@.len() == 9);
    assert("declaration,allowance"@.len() == 21);
    assert(segments("declaration,allowance"@)[1] == "allowance"@);
    assert(
        "declaration,maximum_duration_ms"@ =~= "declaration"@ + seq![','] + "maximum_duration_ms"@
    );
    lemma_under(
        Tree::Null,
        "declaration"@,
        "maximum_duration_ms"@,
        "declaration,maximum_duration_ms"@,
    );
    lemma_single_segment("maximum_duration_ms"@);
    assert("maximum_duration_ms"@.len() == 19);
    assert("declaration,maximum_duration_ms"@.len() == 31);
    assert(segments("declaration,maximum_duration_ms"@)[1] == "maximum_duration_ms"@);
    assert(
        "declaration,maximum_submissions"@ =~= "declaration"@ + seq![','] + "maximum_submissions"@
    );
    lemma_under(
        Tree::Null,
        "declaration"@,
        "maximum_submissions"@,
        "declaration,maximum_submissions"@,
    );
    lemma_single_segment("maximum_submissions"@);
    assert("maximum_submissions"@.len() == 19);
    assert("declaration,maximum_submissions"@.len() == 31);
    assert(segments("declaration,maximum_submissions"@)[1] == "maximum_submissions"@);
    assert(
        "declaration,minimum_repair_reduction"@
            =~= "declaration"@ + seq![','] + "minimum_repair_reduction"@
    );
    lemma_under(
        Tree::Null,
        "declaration"@,
        "minimum_repair_reduction"@,
        "declaration,minimum_repair_reduction"@,
    );
    lemma_single_segment("minimum_repair_reduction"@);
    assert("minimum_repair_reduction"@.len() == 24);
    assert("declaration,minimum_repair_reduction"@.len() == 36);
    assert(segments("declaration,minimum_repair_reduction"@)[1] == "minimum_repair_reduction"@);
    assert("declaration,provenance"@ =~= "declaration"@ + seq![','] + "provenance"@);
    lemma_under(Tree::Null, "declaration"@, "provenance"@, "declaration,provenance"@);
    lemma_single_segment("provenance"@);
    assert("provenance"@.len() == 10);
    assert("declaration,provenance"@.len() == 22);
    assert(segments("declaration,provenance"@)[1] == "provenance"@);
    lemma_apart("unknown_template"@, "declaration"@, 0);
    lemma_apart("unknown_fixture"@, "declaration"@, 0);
    assert("declaration,unknowns"@ =~= "declaration"@ + seq![','] + "unknowns"@);
    lemma_under(Tree::Null, "declaration"@, "unknowns"@, "declaration,unknowns"@);
    lemma_single_segment("unknowns"@);
    assert("unknowns"@[0] != "baseline"@[0]);
    assert("declaration,unknowns"@.len() == 20);
    assert(segments("declaration,unknowns"@)[1] == "unknowns"@);
    assert("declaration,publication"@ =~= "declaration"@ + seq![','] + "publication"@);
    lemma_under(Tree::Null, "declaration"@, "publication"@, "declaration,publication"@);
    lemma_single_segment("publication"@);
    assert("publication"@.len() == 11);
    assert("declaration,publication"@.len() == 23);
    assert(segments("declaration,publication"@)[1] == "publication"@);
    assert("declaration,generation"@ =~= "declaration"@ + seq![','] + "generation"@);
    lemma_under(Tree::Null, "declaration"@, "generation"@, "declaration,generation"@);
    lemma_single_segment("generation"@);
    assert("generation"@.len() == 10);
    assert("declaration,generation"@.len() == 22);
    assert(segments("declaration,generation"@)[1] == "generation"@);
    lemma_apart("declare,type"@, "declaration"@, 6);
    assert("unknowns"@.len() == 8);
    assert(at(record[95], "declaration,baseline"@) == at(at(known, "baseline"@), "id"@)) by {
        assert(forall|j: int|
            0 <= j < 75 ==> is_check((#[trigger] l[j]).0@) || !touches(l[j].1@, "baseline"@));
        stays_through(l, known, answers, record, 0, 75, "baseline"@);
        lemma_under(record[75], "baseline"@, "id"@, "baseline,id"@);
        was_put(l, known, answers, record, 75);
        lemma_under(record[76], "declaration"@, "baseline"@, "declaration,baseline"@);
        stays_beside(l, known, answers, record, 76, "declaration"@, "baseline"@);
        stays_beside(l, known, answers, record, 77, "declaration"@, "baseline"@);
        stays_beside(l, known, answers, record, 78, "declaration"@, "baseline"@);
        stays_beside(l, known, answers, record, 79, "declaration"@, "baseline"@);
        stays_beside(l, known, answers, record, 80, "declaration"@, "baseline"@);
        stays_beside(l, known, answers, record, 81, "declaration"@, "baseline"@);
        stays_beside(l, known, answers, record, 82, "declaration"@, "baseline"@);
        stays_beside(l, known, answers, record, 83, "declaration"@, "baseline"@);
        stays_beside(l, known, answers, record, 84, "declaration"@, "baseline"@);
        stays_beside(l, known, answers, record, 85, "declaration"@, "baseline"@);
        stays_beside(l, known, answers, record, 86, "declaration"@, "baseline"@);
        stays_beside(l, known, answers, record, 87, "declaration"@, "baseline"@);
        stays_beside(l, known, answers, record, 88, "declaration"@, "baseline"@);
        stays(l, known, answers, record, 89, "declaration"@);
        stays(l, known, answers, record, 90, "declaration"@);
        stays_beside(l, known, answers, record, 91, "declaration"@, "baseline"@);
        stays_beside(l, known, answers, record, 92, "declaration"@, "baseline"@);
        stays_beside(l, known, answers, record, 93, "declaration"@, "baseline"@);
        stays(l, known, answers, record, 94, "declaration"@);
        lemma_under(record[95], "declaration"@, "baseline"@, "declaration,baseline"@);
    }
    assert(at(record[95], "declaration,pairs"@) == at(record[83], "pairs"@)) by {
        was_put(l, known, answers, record, 83);
        lemma_under(record[84], "declaration"@, "pairs"@, "declaration,pairs"@);
        stays_beside(l, known, answers, record, 84, "declaration"@, "pairs"@);
        stays_beside(l, known, answers, record, 85, "declaration"@, "pairs"@);
        stays_beside(l, known, answers, record, 86, "declaration"@, "pairs"@);
        stays_beside(l, known, answers, record, 87, "declaration"@, "pairs"@);
        stays_beside(l, known, answers, record, 88, "declaration"@, "pairs"@);
        stays(l, known, answers, record, 89, "declaration"@);
        stays(l, known, answers, record, 90, "declaration"@);
        stays_beside(l, known, answers, record, 91, "declaration"@, "pairs"@);
        stays_beside(l, known, answers, record, 92, "declaration"@, "pairs"@);
        stays_beside(l, known, answers, record, 93, "declaration"@, "pairs"@);
        stays(l, known, answers, record, 94, "declaration"@);
        lemma_under(record[95], "declaration"@, "pairs"@, "declaration,pairs"@);
    }
}

proof fn lemma_comparison_was_declared_4(known: Tree, answers: Seq<(Tree, bool)>, record: Seq<Tree>)
    requires
        passed(LEARN_SOURCE@, known, answers, record),
    ensures
        at(record[95], "declaration,allowance"@) == at(known, "budget"@),
        at(record[95], "declaration,maximum_submissions"@) == Tree::Integer(3),
{
    let l = LEARN_SOURCE@;
    reveal_strlit("declaration,allowance");
    reveal_strlit("declaration");
    reveal_strlit("reply");
    reveal_strlit("budget");
    reveal_strlit("");
    reveal_strlit("slots");
    reveal_strlit("source_slot");
    reveal_strlit("policy");
    reveal_strlit("failure_id");
    reveal_strlit("source_failure");
    reveal_strlit("pass_id");
    reveal_strlit("source_pass");
    reveal_strlit("source_worker");
    reveal_strlit("exported");
    reveal_strlit("knowledge");
    reveal_strlit("knowledge_id");
    reveal_strlit("downloaded");
    reveal_strlit("guidance");
    reveal_strlit("repair");
    reveal_strlit("source_method");
    reveal_strlit("failure_artifact");
    reveal_strlit("pass_artifact");
    reveal_strlit("repair_artifact");
    reveal_strlit("method_artifact");
    reveal_strlit("baseline_document,revision");
    reveal_strlit("baseline_artifact");
    reveal_strlit("brief");
    reveal_strlit("brief_artifact");
    reveal_strlit("selected");
    reveal_strlit("pages");
    reveal_strlit("select,type");
    reveal_strlit("select,selection,method");
    reveal_strlit("select,selection,workspace");
    reveal_strlit("select,selection,guidance");
    reveal_strlit("select,selection,artifacts");
    reveal_strlit("select,selection,pages");
    reveal_strlit("select,selection,supersedes");
    reveal_strlit("select,selection,approval");
    reveal_strlit("selection");
    reveal_strlit("loan_a");
    reveal_strlit("loan_a_input");
    reveal_strlit("loan_a_pair");
    reveal_strlit("loan_b");
    reveal_strlit("loan_b_input");
    reveal_strlit("loan_b_pair");
    reveal_strlit("class_a");
    reveal_strlit("class_a_input");
    reveal_strlit("class_a_pair");
    reveal_strlit("class_b");
    reveal_strlit("class_b_input");
    reveal_strlit("class_b_pair");
    reveal_strlit("pairs");
    reveal_strlit("profile_artifact");
    reveal_strlit("declaration,schema_version");
    reveal_strlit("declaration,lane");
    reveal_strlit("declaration,selection,actor");
    reveal_strlit("declaration,selection,command");
    reveal_strlit("declaration,baseline");
    reveal_strlit("declaration,proposal_run");
    reveal_strlit("declaration,agreement");
    reveal_strlit("declaration,policy");
    reveal_strlit("declaration,verifier");
    reveal_strlit("declaration,checks");
    reveal_strlit("declaration,input_field");
    reveal_strlit("declaration,candidate_output");
    reveal_strlit("declaration,pairs");
    reveal_strlit("allowance");
    reveal_strlit("maximum_duration_ms");
    reveal_strlit("declaration,maximum_duration_ms");
    reveal_strlit("maximum_submissions");
    reveal_strlit("declaration,maximum_submissions");
    reveal_strlit("minimum_repair_reduction");
    reveal_strlit("declaration,minimum_repair_reduction");
    reveal_strlit("provenance");
    reveal_strlit("declaration,provenance");
    reveal_strlit("unknown_template");
    reveal_strlit("unknown_fixture");
    reveal_strlit("unknowns");
    reveal_strlit("declaration,unknowns");
    reveal_strlit("publication");
    reveal_strlit("declaration,publication");
    reveal_strlit("generation");
    reveal_strlit("declaration,generation");
    reveal_strlit("declare,type");
    reveal_strlit("3");
    assert("declaration"@.len() == 11);
    assert("reply"@.len() == 5);
    assert("budget"@.len() == 6);
    lemma_apart(""@, "budget"@, 0);
    lemma_apart("slots"@, "budget"@, 0);
    lemma_apart("source_slot"@, "budget"@, 0);
    lemma_apart("policy"@, "budget"@, 0);
    lemma_apart("failure_id"@, "budget"@, 0);
    lemma_apart("source_failure"@, "budget"@, 0);
    lemma_apart("pass_id"@, "budget"@, 0);
    lemma_apart("source_pass"@, "budget"@, 0);
    lemma_apart("source_worker"@, "budget"@, 0);
    lemma_apart("exported"@, "budget"@, 0);
    lemma_apart("knowledge"@, "budget"@, 0);
    lemma_apart("knowledge_id"@, "budget"@, 0);
    lemma_apart("downloaded"@, "budget"@, 0);
    lemma_apart("guidance"@, "budget"@, 0);
    lemma_apart("repair"@, "budget"@, 0);
    lemma_apart("source_method"@, "budget"@, 0);
    lemma_apart("failure_artifact"@, "budget"@, 0);
    lemma_apart("pass_artifact"@, "budget"@, 0);
    lemma_apart("repair_artifact"@, "budget"@, 0);
    lemma_apart("method_artifact"@, "budget"@, 0);
    lemma_apart("baseline_document,revision"@, "budget"@, 1);
    lemma_apart("baseline_artifact"@, "budget"@, 1);
    lemma_apart("brief"@, "budget"@, 1);
    lemma_apart("brief_artifact"@, "budget"@, 1);
    lemma_apart("selected"@, "budget"@, 0);
    lemma_apart("pages"@, "budget"@, 0);
    lemma_apart("select,type"@, "budget"@, 0);
    lemma_apart("select,selection,method"@, "budget"@, 0);
    lemma_apart("select,selection,workspace"@, "budget"@, 0);
    lemma_apart("select,selection,guidance"@, "budget"@, 0);
    lemma_apart("select,selection,artifacts"@, "budget"@, 0);
    lemma_apart("select,selection,pages"@, "budget"@, 0);
    lemma_apart("select,selection,supersedes"@, "budget"@, 0);
    lemma_apart("select,selection,approval"@, "budget"@, 0);
    lemma_apart("selection"@, "budget"@, 0);
    lemma_apart("loan_a"@, "budget"@, 0);
    lemma_apart("loan_a_input"@, "budget"@, 0);
    lemma_apart("loan_a_pair"@, "budget"@, 0);
    lemma_apart("loan_b"@, "budget"@, 0);
    lemma_apart("loan_b_input"@, "budget"@, 0);
    lemma_apart("loan_b_pair"@, "budget"@, 0);
    lemma_apart("class_a"@, "budget"@, 0);
    lemma_apart("class_a_input"@, "budget"@, 0);
    lemma_apart("class_a_pair"@, "budget"@, 0);
    lemma_apart("class_b"@, "budget"@, 0);
    lemma_apart("class_b_input"@, "budget"@, 0);
    lemma_apart("class_b_pair"@, "budget"@, 0);
    lemma_apart("pairs"@, "budget"@, 0);
    lemma_apart("profile_artifact"@, "budget"@, 0);
    lemma_apart("declaration,schema_version"@, "budget"@, 0);
    lemma_apart("declaration,lane"@, "budget"@, 0);
    lemma_apart("declaration,selection,actor"@, "budget"@, 0);
    lemma_apart("declaration,selection,command"@, "budget"@, 0);
    lemma_apart("declaration,baseline"@, "budget"@, 0);
    lemma_apart("declaration,proposal_run"@, "budget"@, 0);
    lemma_apart("declaration,agreement"@, "budget"@, 0);
    lemma_apart("declaration,policy"@, "budget"@, 0);
    lemma_apart("declaration,verifier"@, "budget"@, 0);
    lemma_apart("declaration,checks"@, "budget"@, 0);
    lemma_apart("declaration,input_field"@, "budget"@, 0);
    lemma_apart("declaration,candidate_output"@, "budget"@, 0);
    lemma_apart("declaration,pairs"@, "budget"@, 0);
    assert("declaration,allowance"@ =~= "declaration"@ + seq![','] + "allowance"@);
    assert(
        "declaration,maximum_duration_ms"@ =~= "declaration"@ + seq![','] + "maximum_duration_ms"@
    );
    lemma_under(
        Tree::Null,
        "declaration"@,
        "maximum_duration_ms"@,
        "declaration,maximum_duration_ms"@,
    );
    lemma_single_segment("maximum_duration_ms"@);
    assert("maximum_duration_ms"@.len() == 19);
    assert("allowance"@.len() == 9);
    assert("declaration,maximum_duration_ms"@.len() == 31);
    assert(segments("declaration,maximum_duration_ms"@)[1] == "maximum_duration_ms"@);
    assert(
        "declaration,maximum_submissions"@ =~= "declaration"@ + seq![','] + "maximum_submissions"@
    );
    lemma_under(
        Tree::Null,
        "declaration"@,
        "maximum_submissions"@,
        "declaration,maximum_submissions"@,
    );
    lemma_single_segment("maximum_submissions"@);
    assert("maximum_submissions"@.len() == 19);
    assert("declaration,maximum_submissions"@.len() == 31);
    assert(segments("declaration,maximum_submissions"@)[1] == "maximum_submissions"@);
    assert(
        "declaration,minimum_repair_reduction"@
            =~= "declaration"@ + seq![','] + "minimum_repair_reduction"@
    );
    lemma_under(
        Tree::Null,
        "declaration"@,
        "minimum_repair_reduction"@,
        "declaration,minimum_repair_reduction"@,
    );
    lemma_single_segment("minimum_repair_reduction"@);
    assert("minimum_repair_reduction"@.len() == 24);
    assert("declaration,minimum_repair_reduction"@.len() == 36);
    assert(segments("declaration,minimum_repair_reduction"@)[1] == "minimum_repair_reduction"@);
    assert("declaration,provenance"@ =~= "declaration"@ + seq![','] + "provenance"@);
    lemma_under(Tree::Null, "declaration"@, "provenance"@, "declaration,provenance"@);
    lemma_single_segment("provenance"@);
    assert("provenance"@.len() == 10);
    assert("declaration,provenance"@.len() == 22);
    assert(segments("declaration,provenance"@)[1] == "provenance"@);
    lemma_apart("unknown_template"@, "declaration"@, 0);
    lemma_apart("unknown_fixture"@, "declaration"@, 0);
    assert("declaration,unknowns"@ =~= "declaration"@ + seq![','] + "unknowns"@);
    lemma_under(Tree::Null, "declaration"@, "unknowns"@, "declaration,unknowns"@);
    lemma_single_segment("unknowns"@);
    assert("unknowns"@.len() == 8);
    assert("declaration,unknowns"@.len() == 20);
    assert(segments("declaration,unknowns"@)[1] == "unknowns"@);
    assert("declaration,publication"@ =~= "declaration"@ + seq![','] + "publication"@);
    lemma_under(Tree::Null, "declaration"@, "publication"@, "declaration,publication"@);
    lemma_single_segment("publication"@);
    assert("publication"@.len() == 11);
    assert("declaration,publication"@.len() == 23);
    assert(segments("declaration,publication"@)[1] == "publication"@);
    assert("declaration,generation"@ =~= "declaration"@ + seq![','] + "generation"@);
    lemma_under(Tree::Null, "declaration"@, "generation"@, "declaration,generation"@);
    lemma_single_segment("generation"@);
    assert("generation"@.len() == 10);
    assert("declaration,generation"@.len() == 22);
    assert(segments("declaration,generation"@)[1] == "generation"@);
    lemma_apart("declare,type"@, "declaration"@, 6);
    lemma_one_digit("3"@);
    assert(number_of("3"@) == Some(3u64));
    assert(at(record[95], "declaration,allowance"@) == at(known, "budget"@)) by {
        assert(forall|j: int|
            0 <= j < 84 ==> is_check((#[trigger] l[j]).0@) || !touches(l[j].1@, "budget"@));
        stays_through(l, known, answers, record, 0, 84, "budget"@);
        was_put(l, known, answers, record, 84);
        lemma_under(record[85], "declaration"@, "allowance"@, "declaration,allowance"@);
        stays_beside(l, known, answers, record, 85, "declaration"@, "allowance"@);
        stays_beside(l, known, answers, record, 86, "declaration"@, "allowance"@);
        stays_beside(l, known, answers, record, 87, "declaration"@, "allowance"@);
        stays_beside(l, known, answers, record, 88, "declaration"@, "allowance"@);
        stays(l, known, answers, record, 89, "declaration"@);
        stays(l, known, answers, record, 90, "declaration"@);
        stays_beside(l, known, answers, record, 91, "declaration"@, "allowance"@);
        stays_beside(l, known, answers, record, 92, "declaration"@, "allowance"@);
        stays_beside(l, known, answers, record, 93, "declaration"@, "allowance"@);
        stays(l, known, answers, record, 94, "declaration"@);
        lemma_under(record[95], "declaration"@, "allowance"@, "declaration,allowance"@);
    }
    assert(at(record[95], "declaration,maximum_submissions"@) == Tree::Integer(3)) by {
        was_counted(l, known, answers, record, 86, 3);
        lemma_under(
            record[87],
            "declaration"@,
            "maximum_submissions"@,
            "declaration,maximum_submissions"@,
        );
        stays_beside(l, known, answers, record, 87, "declaration"@, "maximum_submissions"@);
        stays_beside(l, known, answers, record, 88, "declaration"@, "maximum_submissions"@);
        stays(l, known, answers, record, 89, "declaration"@);
        stays(l, known, answers, record, 90, "declaration"@);
        stays_beside(l, known, answers, record, 91, "declaration"@, "maximum_submissions"@);
        stays_beside(l, known, answers, record, 92, "declaration"@, "maximum_submissions"@);
        stays_beside(l, known, answers, record, 93, "declaration"@, "maximum_submissions"@);
        stays(l, known, answers, record, 94, "declaration"@);
        lemma_under(
            record[95],
            "declaration"@,
            "maximum_submissions"@,
            "declaration,maximum_submissions"@,
        );
    }
}

proof fn lemma_comparison_was_declared_5(known: Tree, answers: Seq<(Tree, bool)>, record: Seq<Tree>)
    requires
        passed(LEARN_SOURCE@, known, answers, record),
    ensures
        at(record[95], "declaration,minimum_repair_reduction"@) == Tree::Integer(2),
        at(record[96], "declare,declaration"@) == at(record[95], "declaration"@),
{
    let l = LEARN_SOURCE@;
    reveal_strlit("declaration,minimum_repair_reduction");
    reveal_strlit("declaration");
    reveal_strlit("reply");
    reveal_strlit("2");
    reveal_strlit("minimum_repair_reduction");
    reveal_strlit("provenance");
    reveal_strlit("declaration,provenance");
    reveal_strlit("unknown_template");
    reveal_strlit("unknown_fixture");
    reveal_strlit("unknowns");
    reveal_strlit("declaration,unknowns");
    reveal_strlit("publication");
    reveal_strlit("declaration,publication");
    reveal_strlit("generation");
    reveal_strlit("declaration,generation");
    reveal_strlit("declare,type");
    reveal_strlit("declare,declaration");
    reveal_strlit("declare");
    assert("declaration"@.len() == 11);
    assert("reply"@.len() == 5);
    lemma_one_digit("2"@);
    assert(number_of("2"@) == Some(2u64));
    assert(
        "declaration,minimum_repair_reduction"@
            =~= "declaration"@ + seq![','] + "minimum_repair_reduction"@
    );
    assert("declaration,provenance"@ =~= "declaration"@ + seq![','] + "provenance"@);
    lemma_under(Tree::Null, "declaration"@, "provenance"@, "declaration,provenance"@);
    lemma_single_segment("provenance"@);
    assert("provenance"@.len() == 10);
    assert("minimum_repair_reduction"@.len() == 24);
    assert("declaration,provenance"@.len() == 22);
    assert(segments("declaration,provenance"@)[1] == "provenance"@);
    lemma_apart("unknown_template"@, "declaration"@, 0);
    lemma_apart("unknown_fixture"@, "declaration"@, 0);
    assert("declaration,unknowns"@ =~= "declaration"@ + seq![','] + "unknowns"@);
    lemma_under(Tree::Null, "declaration"@, "unknowns"@, "declaration,unknowns"@);
    lemma_single_segment("unknowns"@);
    assert("unknowns"@.len() == 8);
    assert("declaration,unknowns"@.len() == 20);
    assert(segments("declaration,unknowns"@)[1] == "unknowns"@);
    assert("declaration,publication"@ =~= "declaration"@ + seq![','] + "publication"@);
    lemma_under(Tree::Null, "declaration"@, "publication"@, "declaration,publication"@);
    lemma_single_segment("publication"@);
    assert("publication"@.len() == 11);
    assert("declaration,publication"@.len() == 23);
    assert(segments("declaration,publication"@)[1] == "publication"@);
    assert("declaration,generation"@ =~= "declaration"@ + seq![','] + "generation"@);
    lemma_under(Tree::Null, "declaration"@, "generation"@, "declaration,generation"@);
    lemma_single_segment("generation"@);
    assert("generation"@.len() == 10);
    assert("declaration,generation"@.len() == 22);
    assert(segments("declaration,generation"@)[1] == "generation"@);
    lemma_apart("declare,type"@, "declaration"@, 6);
    assert("declare"@.len() == 7);
    assert("declare,declaration"@ =~= "declare"@ + seq![','] + "declaration"@);
    assert(at(record[95], "declaration,minimum_repair_reduction"@) == Tree::Integer(2)) by {
        was_counted(l, known, answers, record, 87, 2);
        lemma_under(
            record[88],
            "declaration"@,
            "minimum_repair_reduction"@,
            "declaration,minimum_repair_reduction"@,
        );
        stays_beside(l, known, answers, record, 88, "declaration"@, "minimum_repair_reduction"@);
        stays(l, known, answers, record, 89, "declaration"@);
        stays(l, known, answers, record, 90, "declaration"@);
        stays_beside(l, known, answers, record, 91, "declaration"@, "minimum_repair_reduction"@);
        stays_beside(l, known, answers, record, 92, "declaration"@, "minimum_repair_reduction"@);
        stays_beside(l, known, answers, record, 93, "declaration"@, "minimum_repair_reduction"@);
        stays(l, known, answers, record, 94, "declaration"@);
        lemma_under(
            record[95],
            "declaration"@,
            "minimum_repair_reduction"@,
            "declaration,minimum_repair_reduction"@,
        );
    }
    assert(at(record[96], "declare,declaration"@) == at(record[95], "declaration"@)) by {
        was_put(l, known, answers, record, 95);
        lemma_under(record[96], "declare"@, "declaration"@, "declare,declaration"@);
    }
}

proof fn lemma_comparison_was_declared_6(known: Tree, answers: Seq<(Tree, bool)>, record: Seq<Tree>)
    requires
        passed(LEARN_SOURCE@, known, answers, record),
    ensures
        made_last(said(record, 0)) == Ok::<Tree, Seq<char>>(at(record[4], "source_slot"@)),
        made_pages(at(known, "source"@)) == Ok::<Tree, Seq<char>>(at(record[42], "pages"@)),
{
    let l = LEARN_SOURCE@;
    reveal_strlit("source_slot");
    reveal_strlit("last");
    reveal_strlit("slots");
    reveal_strlit("last slots");
    reveal_strlit("reply");
    reveal_strlit("pages");
    reveal_strlit("source");
    reveal_strlit("pages source");
    reveal_strlit("");
    reveal_strlit("policy");
    reveal_strlit("failure_id");
    reveal_strlit("source_failure");
    reveal_strlit("pass_id");
    reveal_strlit("source_pass");
    reveal_strlit("source_worker");
    reveal_strlit("exported");
    reveal_strlit("knowledge");
    reveal_strlit("knowledge_id");
    reveal_strlit("downloaded");
    reveal_strlit("guidance");
    reveal_strlit("repair");
    reveal_strlit("source_method");
    reveal_strlit("failure_artifact");
    reveal_strlit("pass_artifact");
    reveal_strlit("repair_artifact");
    reveal_strlit("method_artifact");
    reveal_strlit("baseline_document,revision");
    reveal_strlit("baseline_artifact");
    reveal_strlit("brief");
    reveal_strlit("brief_artifact");
    reveal_strlit("selected");
    assert("last slots"@ =~= "last"@ + seq![' '] + "slots"@);
    lemma_two_words("last"@, "slots"@, "last slots"@);
    assert(parts("last slots"@) =~= seq!["last"@, "slots"@]);
    assert("slots"@.len() == 5);
    assert("slots"@[0] != "reply"@[0]);
    assert(parts("last slots"@).skip(1) =~= seq!["slots"@]);
    assert("pages source"@ =~= "pages"@ + seq![' '] + "source"@);
    lemma_two_words("pages"@, "source"@, "pages source"@);
    assert(parts("pages source"@) =~= seq!["pages"@, "source"@]);
    assert("source"@.len() == 6);
    assert("reply"@.len() == 5);
    lemma_apart(""@, "source"@, 0);
    lemma_apart("slots"@, "source"@, 1);
    lemma_apart("source_slot"@, "source"@, 6);
    lemma_apart("policy"@, "source"@, 0);
    lemma_apart("failure_id"@, "source"@, 0);
    lemma_apart("source_failure"@, "source"@, 6);
    lemma_apart("pass_id"@, "source"@, 0);
    lemma_apart("source_pass"@, "source"@, 6);
    lemma_apart("source_worker"@, "source"@, 6);
    lemma_apart("exported"@, "source"@, 0);
    lemma_apart("knowledge"@, "source"@, 0);
    lemma_apart("knowledge_id"@, "source"@, 0);
    lemma_apart("downloaded"@, "source"@, 0);
    lemma_apart("guidance"@, "source"@, 0);
    lemma_apart("repair"@, "source"@, 0);
    lemma_apart("source_method"@, "source"@, 6);
    lemma_apart("failure_artifact"@, "source"@, 0);
    lemma_apart("pass_artifact"@, "source"@, 0);
    lemma_apart("repair_artifact"@, "source"@, 0);
    lemma_apart("method_artifact"@, "source"@, 0);
    lemma_apart("baseline_document,revision"@, "source"@, 0);
    lemma_apart("baseline_artifact"@, "source"@, 0);
    lemma_apart("brief"@, "source"@, 0);
    lemma_apart("brief_artifact"@, "source"@, 0);
    lemma_apart("selected"@, "source"@, 1);
    assert(parts("pages source"@).skip(1) =~= seq!["source"@]);
    assert(made_last(said(record, 0)) == Ok::<Tree, Seq<char>>(at(record[4], "source_slot"@))) by {
        was_made(l, known, answers, record, 3);
        was_said(l, known, answers, record, 1);
        unchanged(l, known, answers, record, 2);
        let args3 = arguments(parts("last slots"@).skip(1), record[3]);
        assert(args3 =~= seq![said(record, 0)]);
        makes_last(args3, record[3]);
    }
    assert(made_pages(at(known, "source"@)) == Ok::<Tree, Seq<char>>(at(record[42], "pages"@))) by {
        was_made(l, known, answers, record, 41);
        assert(forall|j: int|
            0 <= j < 41 ==> is_check((#[trigger] l[j]).0@) || !touches(l[j].1@, "source"@));
        stays_through(l, known, answers, record, 0, 41, "source"@);
        let args41 = arguments(parts("pages source"@).skip(1), record[41]);
        assert(args41 =~= seq![at(known, "source"@)]);
        makes_pages(args41, record[41]);
    }
}

proof fn lemma_comparison_was_declared_7(known: Tree, answers: Seq<(Tree, bool)>, record: Seq<Tree>)
    requires
        passed(LEARN_SOURCE@, known, answers, record),
    ensures
        made_held_out_input(Tree::Text("loan-a"@), said(record, 4))
            == Ok::<Tree, Seq<char>>(at(record[53], "loan_a"@)),
        made_held_out_pair(Tree::Text("loan-a"@), said(record, 53), said(record, 0))
            == Ok::<Tree, Seq<char>>(at(record[56], "loan_a_pair"@)),
{
    let l = LEARN_SOURCE@;
    reveal_strlit("loan_a");
    reveal_strlit("held-out-input =loan-a policy");
    reveal_strlit("held-out-input");
    reveal_strlit("=loan-a policy");
    reveal_strlit("=loan-a");
    reveal_strlit("policy");
    reveal_strlit("loan-a");
    reveal_strlit("reply");
    reveal_strlit("failure_id");
    reveal_strlit("");
    reveal_strlit("source_failure");
    reveal_strlit("pass_id");
    reveal_strlit("source_pass");
    reveal_strlit("source_worker");
    reveal_strlit("exported");
    reveal_strlit("knowledge");
    reveal_strlit("knowledge_id");
    reveal_strlit("downloaded");
    reveal_strlit("guidance");
    reveal_strlit("repair");
    reveal_strlit("source_method");
    reveal_strlit("failure_artifact");
    reveal_strlit("pass_artifact");
    reveal_strlit("repair_artifact");
    reveal_strlit("method_artifact");
    reveal_strlit("baseline_document,revision");
    reveal_strlit("baseline_artifact");
    reveal_strlit("brief");
    reveal_strlit("brief_artifact");
    reveal_strlit("selected");
    reveal_strlit("pages");
    reveal_strlit("select,type");
    reveal_strlit("select,selection,method");
    reveal_strlit("select,selection,workspace");
    reveal_strlit("select,selection,guidance");
    reveal_strlit("select,selection,artifacts");
    reveal_strlit("select,selection,pages");
    reveal_strlit("select,selection,supersedes");
    reveal_strlit("select,selection,approval");
    reveal_strlit("selection");
    reveal_strlit("loan_a_pair");
    reveal_strlit("held-out-pair =loan-a loan_a_input slots");
    reveal_strlit("held-out-pair");
    reveal_strlit("=loan-a loan_a_input slots");
    reveal_strlit("loan_a_input slots");
    reveal_strlit("loan_a_input");
    reveal_strlit("slots");
    reveal_strlit("source_slot");
    assert("=loan-a policy"@ =~= "=loan-a"@ + seq![' '] + "policy"@);
    lemma_two_words("=loan-a"@, "policy"@, "=loan-a policy"@);
    assert("held-out-input =loan-a policy"@ =~= "held-out-input"@ + seq![' '] + "=loan-a policy"@);
    lemma_four_words("held-out-input"@, "=loan-a policy"@, "held-out-input =loan-a policy"@);
    assert(
        parts("held-out-input =loan-a policy"@) =~= seq!["held-out-input"@, "=loan-a"@, "policy"@]
    );
    assert("=loan-a"@.len() == 7);
    assert("=loan-a"@.skip(1) =~= "loan-a"@);
    assert("policy"@.len() == 6);
    assert("reply"@.len() == 5);
    lemma_apart("failure_id"@, "policy"@, 0);
    lemma_apart(""@, "policy"@, 0);
    lemma_apart("source_failure"@, "policy"@, 0);
    lemma_apart("pass_id"@, "policy"@, 1);
    lemma_apart("source_pass"@, "policy"@, 0);
    lemma_apart("source_worker"@, "policy"@, 0);
    lemma_apart("exported"@, "policy"@, 0);
    lemma_apart("knowledge"@, "policy"@, 0);
    lemma_apart("knowledge_id"@, "policy"@, 0);
    lemma_apart("downloaded"@, "policy"@, 0);
    lemma_apart("guidance"@, "policy"@, 0);
    lemma_apart("repair"@, "policy"@, 0);
    lemma_apart("source_method"@, "policy"@, 0);
    lemma_apart("failure_artifact"@, "policy"@, 0);
    lemma_apart("pass_artifact"@, "policy"@, 1);
    lemma_apart("repair_artifact"@, "policy"@, 0);
    lemma_apart("method_artifact"@, "policy"@, 0);
    lemma_apart("baseline_document,revision"@, "policy"@, 0);
    lemma_apart("baseline_artifact"@, "policy"@, 0);
    lemma_apart("brief"@, "policy"@, 0);
    lemma_apart("brief_artifact"@, "policy"@, 0);
    lemma_apart("selected"@, "policy"@, 0);
    lemma_apart("pages"@, "policy"@, 1);
    lemma_apart("select,type"@, "policy"@, 0);
    lemma_apart("select,selection,method"@, "policy"@, 0);
    lemma_apart("select,selection,workspace"@, "policy"@, 0);
    lemma_apart("select,selection,guidance"@, "policy"@, 0);
    lemma_apart("select,selection,artifacts"@, "policy"@, 0);
    lemma_apart("select,selection,pages"@, "policy"@, 0);
    lemma_apart("select,selection,supersedes"@, "policy"@, 0);
    lemma_apart("select,selection,approval"@, "policy"@, 0);
    lemma_apart("selection"@, "policy"@, 0);
    assert(parts("held-out-input =loan-a policy"@).skip(1) =~= seq!["=loan-a"@, "policy"@]);
    assert("loan_a_input slots"@ =~= "loan_a_input"@ + seq![' '] + "slots"@);
    lemma_two_words("loan_a_input"@, "slots"@, "loan_a_input slots"@);
    assert("=loan-a loan_a_input slots"@ =~= "=loan-a"@ + seq![' '] + "loan_a_input slots"@);
    lemma_four_words("=loan-a"@, "loan_a_input slots"@, "=loan-a loan_a_input slots"@);
    assert(
        "held-out-pair =loan-a loan_a_input slots"@
            =~= "held-out-pair"@ + seq![' '] + "=loan-a loan_a_input slots"@
    );
    lemma_four_words(
        "held-out-pair"@,
        "=loan-a loan_a_input slots"@,
        "held-out-pair =loan-a loan_a_input slots"@,
    );
    assert(
        parts("held-out-pair =loan-a loan_a_input slots"@)
            =~= seq!["held-out-pair"@, "=loan-a"@, "loan_a_input"@, "slots"@]
    );
    assert("loan_a_input"@.len() == 12);
    assert("slots"@.len() == 5);
    assert("slots"@[0] != "reply"@[0]);
    lemma_apart("source_slot"@, "slots"@, 1);
    lemma_apart(""@, "slots"@, 0);
    lemma_apart("policy"@, "slots"@, 0);
    lemma_apart("failure_id"@, "slots"@, 0);
    lemma_apart("source_failure"@, "slots"@, 1);
    lemma_apart("pass_id"@, "slots"@, 0);
    lemma_apart("source_pass"@, "slots"@, 1);
    lemma_apart("source_worker"@, "slots"@, 1);
    lemma_apart("exported"@, "slots"@, 0);
    lemma_apart("knowledge"@, "slots"@, 0);
    lemma_apart("knowledge_id"@, "slots"@, 0);
    lemma_apart("downloaded"@, "slots"@, 0);
    lemma_apart("guidance"@, "slots"@, 0);
    lemma_apart("repair"@, "slots"@, 0);
    lemma_apart("source_method"@, "slots"@, 1);
    lemma_apart("failure_artifact"@, "slots"@, 0);
    lemma_apart("pass_artifact"@, "slots"@, 0);
    lemma_apart("repair_artifact"@, "slots"@, 0);
    lemma_apart("method_artifact"@, "slots"@, 0);
    lemma_apart("baseline_document,revision"@, "slots"@, 0);
    lemma_apart("baseline_artifact"@, "slots"@, 0);
    lemma_apart("brief"@, "slots"@, 0);
    lemma_apart("brief_artifact"@, "slots"@, 0);
    lemma_apart("selected"@, "slots"@, 1);
    lemma_apart("pages"@, "slots"@, 0);
    lemma_apart("select,type"@, "slots"@, 1);
    lemma_apart("select,selection,method"@, "slots"@, 1);
    lemma_apart("select,selection,workspace"@, "slots"@, 1);
    lemma_apart("select,selection,guidance"@, "slots"@, 1);
    lemma_apart("select,selection,artifacts"@, "slots"@, 1);
    lemma_apart("select,selection,pages"@, "slots"@, 1);
    lemma_apart("select,selection,supersedes"@, "slots"@, 1);
    lemma_apart("select,selection,approval"@, "slots"@, 1);
    lemma_apart("selection"@, "slots"@, 1);
    lemma_apart("loan_a"@, "slots"@, 0);
    lemma_apart("loan_a_input"@, "slots"@, 0);
    assert(
        parts("held-out-pair =loan-a loan_a_input slots"@).skip(1)
            =~= seq!["=loan-a"@, "loan_a_input"@, "slots"@]
    );
    assert(made_held_out_input(Tree::Text("loan-a"@), said(record, 4))
            == Ok::<Tree, Seq<char>>(at(record[53], "loan_a"@))) by {
        was_made(l, known, answers, record, 52);
        was_said(l, known, answers, record, 5);
        assert(forall|j: int|
            6 <= j < 52 ==> is_check((#[trigger] l[j]).0@) || !touches(l[j].1@, "policy"@));
        stays_through(l, known, answers, record, 6, 52, "policy"@);
        let args52 = arguments(parts("held-out-input =loan-a policy"@).skip(1), record[52]);
        assert(args52 =~= seq![Tree::Text("loan-a"@), said(record, 4)]);
        makes_held_out_input(args52, record[52]);
    }
    assert(made_held_out_pair(Tree::Text("loan-a"@), said(record, 53), said(record, 0))
            == Ok::<Tree, Seq<char>>(at(record[56], "loan_a_pair"@))) by {
        was_made(l, known, answers, record, 55);
        was_said(l, known, answers, record, 54);
        was_said(l, known, answers, record, 1);
        assert(forall|j: int|
            2 <= j < 55 ==> is_check((#[trigger] l[j]).0@) || !touches(l[j].1@, "slots"@));
        stays_through(l, known, answers, record, 2, 55, "slots"@);
        let args55 = arguments(
            parts("held-out-pair =loan-a loan_a_input slots"@).skip(1),
            record[55],
        );
        assert(args55 =~= seq![Tree::Text("loan-a"@), said(record, 53), said(record, 0)]);
        makes_held_out_pair(args55, record[55]);
    }
}

proof fn lemma_comparison_was_declared_8(known: Tree, answers: Seq<(Tree, bool)>, record: Seq<Tree>)
    requires
        passed(LEARN_SOURCE@, known, answers, record),
    ensures
        made_held_out_input(Tree::Text("loan-b"@), said(record, 4))
            == Ok::<Tree, Seq<char>>(at(record[57], "loan_b"@)),
        made_held_out_pair(Tree::Text("loan-b"@), said(record, 57), said(record, 0))
            == Ok::<Tree, Seq<char>>(at(record[60], "loan_b_pair"@)),
{
    let l = LEARN_SOURCE@;
    reveal_strlit("loan_b");
    reveal_strlit("held-out-input =loan-b policy");
    reveal_strlit("held-out-input");
    reveal_strlit("=loan-b policy");
    reveal_strlit("=loan-b");
    reveal_strlit("policy");
    reveal_strlit("loan-b");
    reveal_strlit("reply");
    reveal_strlit("failure_id");
    reveal_strlit("");
    reveal_strlit("source_failure");
    reveal_strlit("pass_id");
    reveal_strlit("source_pass");
    reveal_strlit("source_worker");
    reveal_strlit("exported");
    reveal_strlit("knowledge");
    reveal_strlit("knowledge_id");
    reveal_strlit("downloaded");
    reveal_strlit("guidance");
    reveal_strlit("repair");
    reveal_strlit("source_method");
    reveal_strlit("failure_artifact");
    reveal_strlit("pass_artifact");
    reveal_strlit("repair_artifact");
    reveal_strlit("method_artifact");
    reveal_strlit("baseline_document,revision");
    reveal_strlit("baseline_artifact");
    reveal_strlit("brief");
    reveal_strlit("brief_artifact");
    reveal_strlit("selected");
    reveal_strlit("pages");
    reveal_strlit("select,type");
    reveal_strlit("select,selection,method");
    reveal_strlit("select,selection,workspace");
    reveal_strlit("select,selection,guidance");
    reveal_strlit("select,selection,artifacts");
    reveal_strlit("select,selection,pages");
    reveal_strlit("select,selection,supersedes");
    reveal_strlit("select,selection,approval");
    reveal_strlit("selection");
    reveal_strlit("loan_a");
    reveal_strlit("loan_a_input");
    reveal_strlit("loan_a_pair");
    reveal_strlit("loan_b_pair");
    reveal_strlit("held-out-pair =loan-b loan_b_input slots");
    reveal_strlit("held-out-pair");
    reveal_strlit("=loan-b loan_b_input slots");
    reveal_strlit("loan_b_input slots");
    reveal_strlit("loan_b_input");
    reveal_strlit("slots");
    reveal_strlit("source_slot");
    assert("=loan-b policy"@ =~= "=loan-b"@ + seq![' '] + "policy"@);
    lemma_two_words("=loan-b"@, "policy"@, "=loan-b policy"@);
    assert("held-out-input =loan-b policy"@ =~= "held-out-input"@ + seq![' '] + "=loan-b policy"@);
    lemma_four_words("held-out-input"@, "=loan-b policy"@, "held-out-input =loan-b policy"@);
    assert(
        parts("held-out-input =loan-b policy"@) =~= seq!["held-out-input"@, "=loan-b"@, "policy"@]
    );
    assert("=loan-b"@.len() == 7);
    assert("=loan-b"@.skip(1) =~= "loan-b"@);
    assert("policy"@.len() == 6);
    assert("reply"@.len() == 5);
    lemma_apart("failure_id"@, "policy"@, 0);
    lemma_apart(""@, "policy"@, 0);
    lemma_apart("source_failure"@, "policy"@, 0);
    lemma_apart("pass_id"@, "policy"@, 1);
    lemma_apart("source_pass"@, "policy"@, 0);
    lemma_apart("source_worker"@, "policy"@, 0);
    lemma_apart("exported"@, "policy"@, 0);
    lemma_apart("knowledge"@, "policy"@, 0);
    lemma_apart("knowledge_id"@, "policy"@, 0);
    lemma_apart("downloaded"@, "policy"@, 0);
    lemma_apart("guidance"@, "policy"@, 0);
    lemma_apart("repair"@, "policy"@, 0);
    lemma_apart("source_method"@, "policy"@, 0);
    lemma_apart("failure_artifact"@, "policy"@, 0);
    lemma_apart("pass_artifact"@, "policy"@, 1);
    lemma_apart("repair_artifact"@, "policy"@, 0);
    lemma_apart("method_artifact"@, "policy"@, 0);
    lemma_apart("baseline_document,revision"@, "policy"@, 0);
    lemma_apart("baseline_artifact"@, "policy"@, 0);
    lemma_apart("brief"@, "policy"@, 0);
    lemma_apart("brief_artifact"@, "policy"@, 0);
    lemma_apart("selected"@, "policy"@, 0);
    lemma_apart("pages"@, "policy"@, 1);
    lemma_apart("select,type"@, "policy"@, 0);
    lemma_apart("select,selection,method"@, "policy"@, 0);
    lemma_apart("select,selection,workspace"@, "policy"@, 0);
    lemma_apart("select,selection,guidance"@, "policy"@, 0);
    lemma_apart("select,selection,artifacts"@, "policy"@, 0);
    lemma_apart("select,selection,pages"@, "policy"@, 0);
    lemma_apart("select,selection,supersedes"@, "policy"@, 0);
    lemma_apart("select,selection,approval"@, "policy"@, 0);
    lemma_apart("selection"@, "policy"@, 0);
    lemma_apart("loan_a"@, "policy"@, 0);
    lemma_apart("loan_a_input"@, "policy"@, 0);
    lemma_apart("loan_a_pair"@, "policy"@, 0);
    assert(parts("held-out-input =loan-b policy"@).skip(1) =~= seq!["=loan-b"@, "policy"@]);
    assert("loan_b_input slots"@ =~= "loan_b_input"@ + seq![' '] + "slots"@);
    lemma_two_words("loan_b_input"@, "slots"@, "loan_b_input slots"@);
    assert("=loan-b loan_b_input slots"@ =~= "=loan-b"@ + seq![' '] + "loan_b_input slots"@);
    lemma_four_words("=loan-b"@, "loan_b_input slots"@, "=loan-b loan_b_input slots"@);
    assert(
        "held-out-pair =loan-b loan_b_input slots"@
            =~= "held-out-pair"@ + seq![' '] + "=loan-b loan_b_input slots"@
    );
    lemma_four_words(
        "held-out-pair"@,
        "=loan-b loan_b_input slots"@,
        "held-out-pair =loan-b loan_b_input slots"@,
    );
    assert(
        parts("held-out-pair =loan-b loan_b_input slots"@)
            =~= seq!["held-out-pair"@, "=loan-b"@, "loan_b_input"@, "slots"@]
    );
    assert("loan_b_input"@.len() == 12);
    assert("slots"@.len() == 5);
    assert("slots"@[0] != "reply"@[0]);
    lemma_apart("source_slot"@, "slots"@, 1);
    lemma_apart(""@, "slots"@, 0);
    lemma_apart("policy"@, "slots"@, 0);
    lemma_apart("failure_id"@, "slots"@, 0);
    lemma_apart("source_failure"@, "slots"@, 1);
    lemma_apart("pass_id"@, "slots"@, 0);
    lemma_apart("source_pass"@, "slots"@, 1);
    lemma_apart("source_worker"@, "slots"@, 1);
    lemma_apart("exported"@, "slots"@, 0);
    lemma_apart("knowledge"@, "slots"@, 0);
    lemma_apart("knowledge_id"@, "slots"@, 0);
    lemma_apart("downloaded"@, "slots"@, 0);
    lemma_apart("guidance"@, "slots"@, 0);
    lemma_apart("repair"@, "slots"@, 0);
    lemma_apart("source_method"@, "slots"@, 1);
    lemma_apart("failure_artifact"@, "slots"@, 0);
    lemma_apart("pass_artifact"@, "slots"@, 0);
    lemma_apart("repair_artifact"@, "slots"@, 0);
    lemma_apart("method_artifact"@, "slots"@, 0);
    lemma_apart("baseline_document,revision"@, "slots"@, 0);
    lemma_apart("baseline_artifact"@, "slots"@, 0);
    lemma_apart("brief"@, "slots"@, 0);
    lemma_apart("brief_artifact"@, "slots"@, 0);
    lemma_apart("selected"@, "slots"@, 1);
    lemma_apart("pages"@, "slots"@, 0);
    lemma_apart("select,type"@, "slots"@, 1);
    lemma_apart("select,selection,method"@, "slots"@, 1);
    lemma_apart("select,selection,workspace"@, "slots"@, 1);
    lemma_apart("select,selection,guidance"@, "slots"@, 1);
    lemma_apart("select,selection,artifacts"@, "slots"@, 1);
    lemma_apart("select,selection,pages"@, "slots"@, 1);
    lemma_apart("select,selection,supersedes"@, "slots"@, 1);
    lemma_apart("select,selection,approval"@, "slots"@, 1);
    lemma_apart("selection"@, "slots"@, 1);
    lemma_apart("loan_a"@, "slots"@, 0);
    lemma_apart("loan_a_input"@, "slots"@, 0);
    lemma_apart("loan_a_pair"@, "slots"@, 0);
    lemma_apart("loan_b"@, "slots"@, 0);
    lemma_apart("loan_b_input"@, "slots"@, 0);
    assert(
        parts("held-out-pair =loan-b loan_b_input slots"@).skip(1)
            =~= seq!["=loan-b"@, "loan_b_input"@, "slots"@]
    );
    assert(made_held_out_input(Tree::Text("loan-b"@), said(record, 4))
            == Ok::<Tree, Seq<char>>(at(record[57], "loan_b"@))) by {
        was_made(l, known, answers, record, 56);
        was_said(l, known, answers, record, 5);
        assert(forall|j: int|
            6 <= j < 56 ==> is_check((#[trigger] l[j]).0@) || !touches(l[j].1@, "policy"@));
        stays_through(l, known, answers, record, 6, 56, "policy"@);
        let args56 = arguments(parts("held-out-input =loan-b policy"@).skip(1), record[56]);
        assert(args56 =~= seq![Tree::Text("loan-b"@), said(record, 4)]);
        makes_held_out_input(args56, record[56]);
    }
    assert(made_held_out_pair(Tree::Text("loan-b"@), said(record, 57), said(record, 0))
            == Ok::<Tree, Seq<char>>(at(record[60], "loan_b_pair"@))) by {
        was_made(l, known, answers, record, 59);
        was_said(l, known, answers, record, 58);
        was_said(l, known, answers, record, 1);
        assert(forall|j: int|
            2 <= j < 59 ==> is_check((#[trigger] l[j]).0@) || !touches(l[j].1@, "slots"@));
        stays_through(l, known, answers, record, 2, 59, "slots"@);
        let args59 = arguments(
            parts("held-out-pair =loan-b loan_b_input slots"@).skip(1),
            record[59],
        );
        assert(args59 =~= seq![Tree::Text("loan-b"@), said(record, 57), said(record, 0)]);
        makes_held_out_pair(args59, record[59]);
    }
}

proof fn lemma_comparison_was_declared_9(known: Tree, answers: Seq<(Tree, bool)>, record: Seq<Tree>)
    requires
        passed(LEARN_SOURCE@, known, answers, record),
    ensures
        made_held_out_input(Tree::Text("class-a"@), said(record, 4))
            == Ok::<Tree, Seq<char>>(at(record[61], "class_a"@)),
        made_held_out_pair(Tree::Text("class-a"@), said(record, 61), said(record, 0))
            == Ok::<Tree, Seq<char>>(at(record[64], "class_a_pair"@)),
{
    let l = LEARN_SOURCE@;
    reveal_strlit("class_a");
    reveal_strlit("held-out-input =class-a policy");
    reveal_strlit("held-out-input");
    reveal_strlit("=class-a policy");
    reveal_strlit("=class-a");
    reveal_strlit("policy");
    reveal_strlit("class-a");
    reveal_strlit("reply");
    reveal_strlit("failure_id");
    reveal_strlit("");
    reveal_strlit("source_failure");
    reveal_strlit("pass_id");
    reveal_strlit("source_pass");
    reveal_strlit("source_worker");
    reveal_strlit("exported");
    reveal_strlit("knowledge");
    reveal_strlit("knowledge_id");
    reveal_strlit("downloaded");
    reveal_strlit("guidance");
    reveal_strlit("repair");
    reveal_strlit("source_method");
    reveal_strlit("failure_artifact");
    reveal_strlit("pass_artifact");
    reveal_strlit("repair_artifact");
    reveal_strlit("method_artifact");
    reveal_strlit("baseline_document,revision");
    reveal_strlit("baseline_artifact");
    reveal_strlit("brief");
    reveal_strlit("brief_artifact");
    reveal_strlit("selected");
    reveal_strlit("pages");
    reveal_strlit("select,type");
    reveal_strlit("select,selection,method");
    reveal_strlit("select,selection,workspace");
    reveal_strlit("select,selection,guidance");
    reveal_strlit("select,selection,artifacts");
    reveal_strlit("select,selection,pages");
    reveal_strlit("select,selection,supersedes");
    reveal_strlit("select,selection,approval");
    reveal_strlit("selection");
    reveal_strlit("loan_a");
    reveal_strlit("loan_a_input");
    reveal_strlit("loan_a_pair");
    reveal_strlit("loan_b");
    reveal_strlit("loan_b_input");
    reveal_strlit("loan_b_pair");
    reveal_strlit("class_a_pair");
    reveal_strlit("held-out-pair =class-a class_a_input slots");
    reveal_strlit("held-out-pair");
    reveal_strlit("=class-a class_a_input slots");
    reveal_strlit("class_a_input slots");
    reveal_strlit("class_a_input");
    reveal_strlit("slots");
    reveal_strlit("source_slot");
    assert("=class-a policy"@ =~= "=class-a"@ + seq![' '] + "policy"@);
    lemma_two_words("=class-a"@, "policy"@, "=class-a policy"@);
    assert(
        "held-out-input =class-a policy"@ =~= "held-out-input"@ + seq![' '] + "=class-a policy"@
    );
    lemma_four_words("held-out-input"@, "=class-a policy"@, "held-out-input =class-a policy"@);
    assert(
        parts("held-out-input =class-a policy"@)
            =~= seq!["held-out-input"@, "=class-a"@, "policy"@]
    );
    assert("=class-a"@.len() == 8);
    assert("=class-a"@.skip(1) =~= "class-a"@);
    assert("policy"@.len() == 6);
    assert("reply"@.len() == 5);
    lemma_apart("failure_id"@, "policy"@, 0);
    lemma_apart(""@, "policy"@, 0);
    lemma_apart("source_failure"@, "policy"@, 0);
    lemma_apart("pass_id"@, "policy"@, 1);
    lemma_apart("source_pass"@, "policy"@, 0);
    lemma_apart("source_worker"@, "policy"@, 0);
    lemma_apart("exported"@, "policy"@, 0);
    lemma_apart("knowledge"@, "policy"@, 0);
    lemma_apart("knowledge_id"@, "policy"@, 0);
    lemma_apart("downloaded"@, "policy"@, 0);
    lemma_apart("guidance"@, "policy"@, 0);
    lemma_apart("repair"@, "policy"@, 0);
    lemma_apart("source_method"@, "policy"@, 0);
    lemma_apart("failure_artifact"@, "policy"@, 0);
    lemma_apart("pass_artifact"@, "policy"@, 1);
    lemma_apart("repair_artifact"@, "policy"@, 0);
    lemma_apart("method_artifact"@, "policy"@, 0);
    lemma_apart("baseline_document,revision"@, "policy"@, 0);
    lemma_apart("baseline_artifact"@, "policy"@, 0);
    lemma_apart("brief"@, "policy"@, 0);
    lemma_apart("brief_artifact"@, "policy"@, 0);
    lemma_apart("selected"@, "policy"@, 0);
    lemma_apart("pages"@, "policy"@, 1);
    lemma_apart("select,type"@, "policy"@, 0);
    lemma_apart("select,selection,method"@, "policy"@, 0);
    lemma_apart("select,selection,workspace"@, "policy"@, 0);
    lemma_apart("select,selection,guidance"@, "policy"@, 0);
    lemma_apart("select,selection,artifacts"@, "policy"@, 0);
    lemma_apart("select,selection,pages"@, "policy"@, 0);
    lemma_apart("select,selection,supersedes"@, "policy"@, 0);
    lemma_apart("select,selection,approval"@, "policy"@, 0);
    lemma_apart("selection"@, "policy"@, 0);
    lemma_apart("loan_a"@, "policy"@, 0);
    lemma_apart("loan_a_input"@, "policy"@, 0);
    lemma_apart("loan_a_pair"@, "policy"@, 0);
    lemma_apart("loan_b"@, "policy"@, 0);
    lemma_apart("loan_b_input"@, "policy"@, 0);
    lemma_apart("loan_b_pair"@, "policy"@, 0);
    assert(parts("held-out-input =class-a policy"@).skip(1) =~= seq!["=class-a"@, "policy"@]);
    assert("class_a_input slots"@ =~= "class_a_input"@ + seq![' '] + "slots"@);
    lemma_two_words("class_a_input"@, "slots"@, "class_a_input slots"@);
    assert("=class-a class_a_input slots"@ =~= "=class-a"@ + seq![' '] + "class_a_input slots"@);
    lemma_four_words("=class-a"@, "class_a_input slots"@, "=class-a class_a_input slots"@);
    assert(
        "held-out-pair =class-a class_a_input slots"@
            =~= "held-out-pair"@ + seq![' '] + "=class-a class_a_input slots"@
    );
    lemma_four_words(
        "held-out-pair"@,
        "=class-a class_a_input slots"@,
        "held-out-pair =class-a class_a_input slots"@,
    );
    assert(
        parts("held-out-pair =class-a class_a_input slots"@)
            =~= seq!["held-out-pair"@, "=class-a"@, "class_a_input"@, "slots"@]
    );
    assert("class_a_input"@.len() == 13);
    assert("slots"@.len() == 5);
    assert("slots"@[0] != "reply"@[0]);
    lemma_apart("source_slot"@, "slots"@, 1);
    lemma_apart(""@, "slots"@, 0);
    lemma_apart("policy"@, "slots"@, 0);
    lemma_apart("failure_id"@, "slots"@, 0);
    lemma_apart("source_failure"@, "slots"@, 1);
    lemma_apart("pass_id"@, "slots"@, 0);
    lemma_apart("source_pass"@, "slots"@, 1);
    lemma_apart("source_worker"@, "slots"@, 1);
    lemma_apart("exported"@, "slots"@, 0);
    lemma_apart("knowledge"@, "slots"@, 0);
    lemma_apart("knowledge_id"@, "slots"@, 0);
    lemma_apart("downloaded"@, "slots"@, 0);
    lemma_apart("guidance"@, "slots"@, 0);
    lemma_apart("repair"@, "slots"@, 0);
    lemma_apart("source_method"@, "slots"@, 1);
    lemma_apart("failure_artifact"@, "slots"@, 0);
    lemma_apart("pass_artifact"@, "slots"@, 0);
    lemma_apart("repair_artifact"@, "slots"@, 0);
    lemma_apart("method_artifact"@, "slots"@, 0);
    lemma_apart("baseline_document,revision"@, "slots"@, 0);
    lemma_apart("baseline_artifact"@, "slots"@, 0);
    lemma_apart("brief"@, "slots"@, 0);
    lemma_apart("brief_artifact"@, "slots"@, 0);
    lemma_apart("selected"@, "slots"@, 1);
    lemma_apart("pages"@, "slots"@, 0);
    lemma_apart("select,type"@, "slots"@, 1);
    lemma_apart("select,selection,method"@, "slots"@, 1);
    lemma_apart("select,selection,workspace"@, "slots"@, 1);
    lemma_apart("select,selection,guidance"@, "slots"@, 1);
    lemma_apart("select,selection,artifacts"@, "slots"@, 1);
    lemma_apart("select,selection,pages"@, "slots"@, 1);
    lemma_apart("select,selection,supersedes"@, "slots"@, 1);
    lemma_apart("select,selection,approval"@, "slots"@, 1);
    lemma_apart("selection"@, "slots"@, 1);
    lemma_apart("loan_a"@, "slots"@, 0);
    lemma_apart("loan_a_input"@, "slots"@, 0);
    lemma_apart("loan_a_pair"@, "slots"@, 0);
    lemma_apart("loan_b"@, "slots"@, 0);
    lemma_apart("loan_b_input"@, "slots"@, 0);
    lemma_apart("loan_b_pair"@, "slots"@, 0);
    lemma_apart("class_a"@, "slots"@, 0);
    lemma_apart("class_a_input"@, "slots"@, 0);
    assert(
        parts("held-out-pair =class-a class_a_input slots"@).skip(1)
            =~= seq!["=class-a"@, "class_a_input"@, "slots"@]
    );
    assert(made_held_out_input(Tree::Text("class-a"@), said(record, 4))
            == Ok::<Tree, Seq<char>>(at(record[61], "class_a"@))) by {
        was_made(l, known, answers, record, 60);
        was_said(l, known, answers, record, 5);
        assert(forall|j: int|
            6 <= j < 60 ==> is_check((#[trigger] l[j]).0@) || !touches(l[j].1@, "policy"@));
        stays_through(l, known, answers, record, 6, 60, "policy"@);
        let args60 = arguments(parts("held-out-input =class-a policy"@).skip(1), record[60]);
        assert(args60 =~= seq![Tree::Text("class-a"@), said(record, 4)]);
        makes_held_out_input(args60, record[60]);
    }
    assert(made_held_out_pair(Tree::Text("class-a"@), said(record, 61), said(record, 0))
            == Ok::<Tree, Seq<char>>(at(record[64], "class_a_pair"@))) by {
        was_made(l, known, answers, record, 63);
        was_said(l, known, answers, record, 62);
        was_said(l, known, answers, record, 1);
        assert(forall|j: int|
            2 <= j < 63 ==> is_check((#[trigger] l[j]).0@) || !touches(l[j].1@, "slots"@));
        stays_through(l, known, answers, record, 2, 63, "slots"@);
        let args63 = arguments(
            parts("held-out-pair =class-a class_a_input slots"@).skip(1),
            record[63],
        );
        assert(args63 =~= seq![Tree::Text("class-a"@), said(record, 61), said(record, 0)]);
        makes_held_out_pair(args63, record[63]);
    }
}

proof fn lemma_comparison_was_declared_10(
    known: Tree,
    answers: Seq<(Tree, bool)>,
    record: Seq<Tree>,
)
    requires
        passed(LEARN_SOURCE@, known, answers, record),
    ensures
        made_held_out_input(Tree::Text("class-b"@), said(record, 4))
            == Ok::<Tree, Seq<char>>(at(record[65], "class_b"@)),
        made_held_out_pair(Tree::Text("class-b"@), said(record, 65), said(record, 0))
            == Ok::<Tree, Seq<char>>(at(record[68], "class_b_pair"@)),
{
    let l = LEARN_SOURCE@;
    reveal_strlit("class_b");
    reveal_strlit("held-out-input =class-b policy");
    reveal_strlit("held-out-input");
    reveal_strlit("=class-b policy");
    reveal_strlit("=class-b");
    reveal_strlit("policy");
    reveal_strlit("class-b");
    reveal_strlit("reply");
    reveal_strlit("failure_id");
    reveal_strlit("");
    reveal_strlit("source_failure");
    reveal_strlit("pass_id");
    reveal_strlit("source_pass");
    reveal_strlit("source_worker");
    reveal_strlit("exported");
    reveal_strlit("knowledge");
    reveal_strlit("knowledge_id");
    reveal_strlit("downloaded");
    reveal_strlit("guidance");
    reveal_strlit("repair");
    reveal_strlit("source_method");
    reveal_strlit("failure_artifact");
    reveal_strlit("pass_artifact");
    reveal_strlit("repair_artifact");
    reveal_strlit("method_artifact");
    reveal_strlit("baseline_document,revision");
    reveal_strlit("baseline_artifact");
    reveal_strlit("brief");
    reveal_strlit("brief_artifact");
    reveal_strlit("selected");
    reveal_strlit("pages");
    reveal_strlit("select,type");
    reveal_strlit("select,selection,method");
    reveal_strlit("select,selection,workspace");
    reveal_strlit("select,selection,guidance");
    reveal_strlit("select,selection,artifacts");
    reveal_strlit("select,selection,pages");
    reveal_strlit("select,selection,supersedes");
    reveal_strlit("select,selection,approval");
    reveal_strlit("selection");
    reveal_strlit("loan_a");
    reveal_strlit("loan_a_input");
    reveal_strlit("loan_a_pair");
    reveal_strlit("loan_b");
    reveal_strlit("loan_b_input");
    reveal_strlit("loan_b_pair");
    reveal_strlit("class_a");
    reveal_strlit("class_a_input");
    reveal_strlit("class_a_pair");
    reveal_strlit("class_b_pair");
    reveal_strlit("held-out-pair =class-b class_b_input slots");
    reveal_strlit("held-out-pair");
    reveal_strlit("=class-b class_b_input slots");
    reveal_strlit("class_b_input slots");
    reveal_strlit("class_b_input");
    reveal_strlit("slots");
    reveal_strlit("source_slot");
    assert("=class-b policy"@ =~= "=class-b"@ + seq![' '] + "policy"@);
    lemma_two_words("=class-b"@, "policy"@, "=class-b policy"@);
    assert(
        "held-out-input =class-b policy"@ =~= "held-out-input"@ + seq![' '] + "=class-b policy"@
    );
    lemma_four_words("held-out-input"@, "=class-b policy"@, "held-out-input =class-b policy"@);
    assert(
        parts("held-out-input =class-b policy"@)
            =~= seq!["held-out-input"@, "=class-b"@, "policy"@]
    );
    assert("=class-b"@.len() == 8);
    assert("=class-b"@.skip(1) =~= "class-b"@);
    assert("policy"@.len() == 6);
    assert("reply"@.len() == 5);
    lemma_apart("failure_id"@, "policy"@, 0);
    lemma_apart(""@, "policy"@, 0);
    lemma_apart("source_failure"@, "policy"@, 0);
    lemma_apart("pass_id"@, "policy"@, 1);
    lemma_apart("source_pass"@, "policy"@, 0);
    lemma_apart("source_worker"@, "policy"@, 0);
    lemma_apart("exported"@, "policy"@, 0);
    lemma_apart("knowledge"@, "policy"@, 0);
    lemma_apart("knowledge_id"@, "policy"@, 0);
    lemma_apart("downloaded"@, "policy"@, 0);
    lemma_apart("guidance"@, "policy"@, 0);
    lemma_apart("repair"@, "policy"@, 0);
    lemma_apart("source_method"@, "policy"@, 0);
    lemma_apart("failure_artifact"@, "policy"@, 0);
    lemma_apart("pass_artifact"@, "policy"@, 1);
    lemma_apart("repair_artifact"@, "policy"@, 0);
    lemma_apart("method_artifact"@, "policy"@, 0);
    lemma_apart("baseline_document,revision"@, "policy"@, 0);
    lemma_apart("baseline_artifact"@, "policy"@, 0);
    lemma_apart("brief"@, "policy"@, 0);
    lemma_apart("brief_artifact"@, "policy"@, 0);
    lemma_apart("selected"@, "policy"@, 0);
    lemma_apart("pages"@, "policy"@, 1);
    lemma_apart("select,type"@, "policy"@, 0);
    lemma_apart("select,selection,method"@, "policy"@, 0);
    lemma_apart("select,selection,workspace"@, "policy"@, 0);
    lemma_apart("select,selection,guidance"@, "policy"@, 0);
    lemma_apart("select,selection,artifacts"@, "policy"@, 0);
    lemma_apart("select,selection,pages"@, "policy"@, 0);
    lemma_apart("select,selection,supersedes"@, "policy"@, 0);
    lemma_apart("select,selection,approval"@, "policy"@, 0);
    lemma_apart("selection"@, "policy"@, 0);
    lemma_apart("loan_a"@, "policy"@, 0);
    lemma_apart("loan_a_input"@, "policy"@, 0);
    lemma_apart("loan_a_pair"@, "policy"@, 0);
    lemma_apart("loan_b"@, "policy"@, 0);
    lemma_apart("loan_b_input"@, "policy"@, 0);
    lemma_apart("loan_b_pair"@, "policy"@, 0);
    lemma_apart("class_a"@, "policy"@, 0);
    lemma_apart("class_a_input"@, "policy"@, 0);
    lemma_apart("class_a_pair"@, "policy"@, 0);
    assert(parts("held-out-input =class-b policy"@).skip(1) =~= seq!["=class-b"@, "policy"@]);
    assert("class_b_input slots"@ =~= "class_b_input"@ + seq![' '] + "slots"@);
    lemma_two_words("class_b_input"@, "slots"@, "class_b_input slots"@);
    assert("=class-b class_b_input slots"@ =~= "=class-b"@ + seq![' '] + "class_b_input slots"@);
    lemma_four_words("=class-b"@, "class_b_input slots"@, "=class-b class_b_input slots"@);
    assert(
        "held-out-pair =class-b class_b_input slots"@
            =~= "held-out-pair"@ + seq![' '] + "=class-b class_b_input slots"@
    );
    lemma_four_words(
        "held-out-pair"@,
        "=class-b class_b_input slots"@,
        "held-out-pair =class-b class_b_input slots"@,
    );
    assert(
        parts("held-out-pair =class-b class_b_input slots"@)
            =~= seq!["held-out-pair"@, "=class-b"@, "class_b_input"@, "slots"@]
    );
    assert("class_b_input"@.len() == 13);
    assert("slots"@.len() == 5);
    assert("slots"@[0] != "reply"@[0]);
    lemma_apart("source_slot"@, "slots"@, 1);
    lemma_apart(""@, "slots"@, 0);
    lemma_apart("policy"@, "slots"@, 0);
    lemma_apart("failure_id"@, "slots"@, 0);
    lemma_apart("source_failure"@, "slots"@, 1);
    lemma_apart("pass_id"@, "slots"@, 0);
    lemma_apart("source_pass"@, "slots"@, 1);
    lemma_apart("source_worker"@, "slots"@, 1);
    lemma_apart("exported"@, "slots"@, 0);
    lemma_apart("knowledge"@, "slots"@, 0);
    lemma_apart("knowledge_id"@, "slots"@, 0);
    lemma_apart("downloaded"@, "slots"@, 0);
    lemma_apart("guidance"@, "slots"@, 0);
    lemma_apart("repair"@, "slots"@, 0);
    lemma_apart("source_method"@, "slots"@, 1);
    lemma_apart("failure_artifact"@, "slots"@, 0);
    lemma_apart("pass_artifact"@, "slots"@, 0);
    lemma_apart("repair_artifact"@, "slots"@, 0);
    lemma_apart("method_artifact"@, "slots"@, 0);
    lemma_apart("baseline_document,revision"@, "slots"@, 0);
    lemma_apart("baseline_artifact"@, "slots"@, 0);
    lemma_apart("brief"@, "slots"@, 0);
    lemma_apart("brief_artifact"@, "slots"@, 0);
    lemma_apart("selected"@, "slots"@, 1);
    lemma_apart("pages"@, "slots"@, 0);
    lemma_apart("select,type"@, "slots"@, 1);
    lemma_apart("select,selection,method"@, "slots"@, 1);
    lemma_apart("select,selection,workspace"@, "slots"@, 1);
    lemma_apart("select,selection,guidance"@, "slots"@, 1);
    lemma_apart("select,selection,artifacts"@, "slots"@, 1);
    lemma_apart("select,selection,pages"@, "slots"@, 1);
    lemma_apart("select,selection,supersedes"@, "slots"@, 1);
    lemma_apart("select,selection,approval"@, "slots"@, 1);
    lemma_apart("selection"@, "slots"@, 1);
    lemma_apart("loan_a"@, "slots"@, 0);
    lemma_apart("loan_a_input"@, "slots"@, 0);
    lemma_apart("loan_a_pair"@, "slots"@, 0);
    lemma_apart("loan_b"@, "slots"@, 0);
    lemma_apart("loan_b_input"@, "slots"@, 0);
    lemma_apart("loan_b_pair"@, "slots"@, 0);
    lemma_apart("class_a"@, "slots"@, 0);
    lemma_apart("class_a_input"@, "slots"@, 0);
    lemma_apart("class_a_pair"@, "slots"@, 0);
    lemma_apart("class_b"@, "slots"@, 0);
    lemma_apart("class_b_input"@, "slots"@, 0);
    assert(
        parts("held-out-pair =class-b class_b_input slots"@).skip(1)
            =~= seq!["=class-b"@, "class_b_input"@, "slots"@]
    );
    assert(made_held_out_input(Tree::Text("class-b"@), said(record, 4))
            == Ok::<Tree, Seq<char>>(at(record[65], "class_b"@))) by {
        was_made(l, known, answers, record, 64);
        was_said(l, known, answers, record, 5);
        assert(forall|j: int|
            6 <= j < 64 ==> is_check((#[trigger] l[j]).0@) || !touches(l[j].1@, "policy"@));
        stays_through(l, known, answers, record, 6, 64, "policy"@);
        let args64 = arguments(parts("held-out-input =class-b policy"@).skip(1), record[64]);
        assert(args64 =~= seq![Tree::Text("class-b"@), said(record, 4)]);
        makes_held_out_input(args64, record[64]);
    }
    assert(made_held_out_pair(Tree::Text("class-b"@), said(record, 65), said(record, 0))
            == Ok::<Tree, Seq<char>>(at(record[68], "class_b_pair"@))) by {
        was_made(l, known, answers, record, 67);
        was_said(l, known, answers, record, 66);
        was_said(l, known, answers, record, 1);
        assert(forall|j: int|
            2 <= j < 67 ==> is_check((#[trigger] l[j]).0@) || !touches(l[j].1@, "slots"@));
        stays_through(l, known, answers, record, 2, 67, "slots"@);
        let args67 = arguments(
            parts("held-out-pair =class-b class_b_input slots"@).skip(1),
            record[67],
        );
        assert(args67 =~= seq![Tree::Text("class-b"@), said(record, 65), said(record, 0)]);
        makes_held_out_pair(args67, record[67]);
    }
}

/// A source is selected without a predecessor or an approval, and the comparison that is then
/// declared names the baseline, the pairs, the allowance and the bounds of the paired executions.
pub proof fn comparison_was_declared(known: Tree, answers: Seq<(Tree, bool)>) -> (record: Seq<Tree>)
    requires
        known is Object,
        finished(LEARN_SOURCE@, known, answers),
    ensures
        passed(LEARN_SOURCE@, known, answers, record),
        at(record[49], "select,selection,supersedes"@) == Tree::Null,
        at(record[50], "select,selection,approval"@) == Tree::Null,
        at(record[95], "declaration,lane"@) == Tree::Text("seeded_fixture"@),
        at(record[95], "declaration,selection,command"@) == Tree::Text("learning-select"@),
        at(record[95], "declaration,baseline"@) == at(at(known, "baseline"@), "id"@),
        at(record[95], "declaration,pairs"@) == at(record[83], "pairs"@),
        at(record[95], "declaration,allowance"@) == at(known, "budget"@),
        at(record[95], "declaration,maximum_submissions"@) == Tree::Integer(3),
        at(record[95], "declaration,minimum_repair_reduction"@) == Tree::Integer(2),
        at(record[96], "declare,declaration"@) == at(record[95], "declaration"@),
        LEARN_SOURCE@[0].2@ == "slots"@,
        made_last(said(record, 0)) == Ok::<Tree, Seq<char>>(at(record[4], "source_slot"@)),
        made_pages(at(known, "source"@)) == Ok::<Tree, Seq<char>>(at(record[42], "pages"@)),
        LEARN_SOURCE@[4].2@ == "load policy.json"@,
        made_held_out_input(Tree::Text("loan-a"@), said(record, 4))
            == Ok::<Tree, Seq<char>>(at(record[53], "loan_a"@)),
        LEARN_SOURCE@[53].2@ == "upload learning-input-loan-a application/json loan_a"@,
        made_held_out_pair(Tree::Text("loan-a"@), said(record, 53), said(record, 0))
            == Ok::<Tree, Seq<char>>(at(record[56], "loan_a_pair"@)),
        made_held_out_input(Tree::Text("loan-b"@), said(record, 4))
            == Ok::<Tree, Seq<char>>(at(record[57], "loan_b"@)),
        LEARN_SOURCE@[57].2@ == "upload learning-input-loan-b application/json loan_b"@,
        made_held_out_pair(Tree::Text("loan-b"@), said(record, 57), said(record, 0))
            == Ok::<Tree, Seq<char>>(at(record[60], "loan_b_pair"@)),
        made_held_out_input(Tree::Text("class-a"@), said(record, 4))
            == Ok::<Tree, Seq<char>>(at(record[61], "class_a"@)),
        LEARN_SOURCE@[61].2@ == "upload learning-input-class-a application/json class_a"@,
        made_held_out_pair(Tree::Text("class-a"@), said(record, 61), said(record, 0))
            == Ok::<Tree, Seq<char>>(at(record[64], "class_a_pair"@)),
        made_held_out_input(Tree::Text("class-b"@), said(record, 4))
            == Ok::<Tree, Seq<char>>(at(record[65], "class_b"@)),
        LEARN_SOURCE@[65].2@ == "upload learning-input-class-b application/json class_b"@,
        made_held_out_pair(Tree::Text("class-b"@), said(record, 65), said(record, 0))
            == Ok::<Tree, Seq<char>>(at(record[68], "class_b_pair"@)),
{
    let record = finished_scenarios_are_recorded(LEARN_SOURCE@, known, answers);
    lemma_comparison_was_declared_1(known, answers, record);
    lemma_comparison_was_declared_2(known, answers, record);
    lemma_comparison_was_declared_3(known, answers, record);
    lemma_comparison_was_declared_4(known, answers, record);
    lemma_comparison_was_declared_5(known, answers, record);
    lemma_comparison_was_declared_6(known, answers, record);
    lemma_comparison_was_declared_7(known, answers, record);
    lemma_comparison_was_declared_8(known, answers, record);
    lemma_comparison_was_declared_9(known, answers, record);
    lemma_comparison_was_declared_10(known, answers, record);
    record
}

proof fn lemma_declaration_was_read_again(
    known: Tree,
    answers: Seq<(Tree, bool)>,
    record: Seq<Tree>,
)
    requires
        passed(LEARN_RESUMED@, known, answers, record),
    ensures
        at(record[9], "declaration,proposal_run"@) == at(at(known, "keys"@), "proposal"@),
{
    let l = LEARN_RESUMED@;
    reveal_strlit("declaration,proposal_run");
    reveal_strlit("declaration");
    reveal_strlit("reply");
    reveal_strlit("keys");
    reveal_strlit("inspect,type");
    reveal_strlit("inspect,receipt,actor");
    reveal_strlit("inspect,receipt,command");
    reveal_strlit("");
    reveal_strlit("selection");
    reveal_strlit("declared");
    reveal_strlit("proposal");
    reveal_strlit("keys,proposal");
    reveal_strlit("proposal_run");
    assert("declaration"@.len() == 11);
    assert("reply"@.len() == 5);
    assert("keys"@.len() == 4);
    lemma_apart("inspect,type"@, "keys"@, 0);
    lemma_apart("inspect,receipt,actor"@, "keys"@, 0);
    lemma_apart("inspect,receipt,command"@, "keys"@, 0);
    lemma_apart(""@, "keys"@, 0);
    lemma_apart("selection"@, "keys"@, 0);
    lemma_apart("declared"@, "keys"@, 0);
    lemma_apart("declaration"@, "keys"@, 0);
    assert("keys,proposal"@ =~= "keys"@ + seq![','] + "proposal"@);
    assert("declaration,proposal_run"@ =~= "declaration"@ + seq![','] + "proposal_run"@);
    assert(at(record[9], "declaration,proposal_run"@) == at(at(known, "keys"@), "proposal"@)) by {
        assert(forall|j: int|
            0 <= j < 8 ==> is_check((#[trigger] l[j]).0@) || !touches(l[j].1@, "keys"@));
        stays_through(l, known, answers, record, 0, 8, "keys"@);
        lemma_under(record[8], "keys"@, "proposal"@, "keys,proposal"@);
        was_put(l, known, answers, record, 8);
        lemma_under(record[9], "declaration"@, "proposal_run"@, "declaration,proposal_run"@);
    }
}

/// A resumed study goes on with its retained selection and its retained declaration, under the
/// attempt's own proposal run.
pub proof fn declaration_was_read_again(
    known: Tree,
    answers: Seq<(Tree, bool)>,
) -> (record: Seq<Tree>)
    requires
        known is Object,
        finished(LEARN_RESUMED@, known, answers),
    ensures
        passed(LEARN_RESUMED@, known, answers, record),
        at(record[9], "declaration,proposal_run"@) == at(at(known, "keys"@), "proposal"@),
{
    let record = finished_scenarios_are_recorded(LEARN_RESUMED@, known, answers);
    lemma_declaration_was_read_again(known, answers, record);
    record
}

proof fn lemma_attempt_was_declared(known: Tree, answers: Seq<(Tree, bool)>, record: Seq<Tree>)
    requires
        passed(LEARN_REDECLARED@, known, answers, record),
    ensures
        made_including(at(at(known, "declaration"@), "provenance"@), said(record, 0)) is Ok
            && at(record[6], "declaration,provenance"@)
                == made_including(at(at(known, "declaration"@), "provenance"@), said(record, 0))->Ok_0,
        at(record[6], "declare,declaration"@) == at(record[5], "declaration"@),
        made_including(at(at(known, "declaration"@), "provenance"@), said(record, 0))
            == Ok::<Tree, Seq<char>>(at(record[3], "provenance"@)),
{
    let l = LEARN_REDECLARED@;
    reveal_strlit("declaration,provenance");
    reveal_strlit("declaration");
    reveal_strlit("reply");
    reveal_strlit("provenance");
    reveal_strlit("including declaration,provenance profile_artifact");
    reveal_strlit("including");
    reveal_strlit("declaration,provenance profile_artifact");
    reveal_strlit("profile_artifact");
    reveal_strlit("");
    reveal_strlit("declare,type");
    reveal_strlit("declare,declaration");
    reveal_strlit("declare");
    assert("declaration"@.len() == 11);
    assert("reply"@.len() == 5);
    assert("provenance"@.len() == 10);
    assert(
        "declaration,provenance profile_artifact"@
            =~= "declaration,provenance"@ + seq![' '] + "profile_artifact"@
    );
    lemma_two_words(
        "declaration,provenance"@,
        "profile_artifact"@,
        "declaration,provenance profile_artifact"@,
    );
    assert(
        "including declaration,provenance profile_artifact"@
            =~= "including"@ + seq![' '] + "declaration,provenance profile_artifact"@
    );
    lemma_four_words(
        "including"@,
        "declaration,provenance profile_artifact"@,
        "including declaration,provenance profile_artifact"@,
    );
    assert(
        parts("including declaration,provenance profile_artifact"@)
            =~= seq!["including"@, "declaration,provenance"@, "profile_artifact"@]
    );
    assert("declaration,provenance"@.len() == 22);
    lemma_apart(""@, "declaration"@, 0);
    lemma_apart("profile_artifact"@, "declaration"@, 0);
    assert("declaration,provenance"@ =~= "declaration"@ + seq![','] + "provenance"@);
    assert("profile_artifact"@.len() == 16);
    assert(
        parts("including declaration,provenance profile_artifact"@).skip(1)
            =~= seq!["declaration,provenance"@, "profile_artifact"@]
    );
    lemma_apart("declare,type"@, "declaration"@, 6);
    lemma_apart("declare,declaration"@, "declaration"@, 6);
    assert("declare"@.len() == 7);
    assert("declare,declaration"@ =~= "declare"@ + seq![','] + "declaration"@);
    assert(made_including(at(at(known, "declaration"@), "provenance"@), said(record, 0)) is Ok
            && at(record[6], "declaration,provenance"@)
                == made_including(at(at(known, "declaration"@), "provenance"@), said(record, 0))->Ok_0) by {
        was_made(l, known, answers, record, 2);
        stays(l, known, answers, record, 0, "declaration"@);
        stays(l, known, answers, record, 1, "declaration"@);
        lemma_under(record[2], "declaration"@, "provenance"@, "declaration,provenance"@);
        was_said(l, known, answers, record, 1);
        let args2 = arguments(
            parts("including declaration,provenance profile_artifact"@).skip(1),
            record[2],
        );
        assert(args2 =~= seq![at(at(known, "declaration"@), "provenance"@), said(record, 0)]);
        makes_including(args2, record[2]);
        was_put(l, known, answers, record, 3);
        lemma_under(record[4], "declaration"@, "provenance"@, "declaration,provenance"@);
        stays(l, known, answers, record, 4, "declaration"@);
        stays(l, known, answers, record, 5, "declaration"@);
        lemma_under(record[6], "declaration"@, "provenance"@, "declaration,provenance"@);
    }
    assert(at(record[6], "declare,declaration"@) == at(record[5], "declaration"@)) by {
        was_put(l, known, answers, record, 5);
        lemma_under(record[6], "declare"@, "declaration"@, "declare,declaration"@);
    }
    assert(made_including(at(at(known, "declaration"@), "provenance"@), said(record, 0))
            == Ok::<Tree, Seq<char>>(at(record[3], "provenance"@))) by {
        was_made(l, known, answers, record, 2);
        stays(l, known, answers, record, 0, "declaration"@);
        stays(l, known, answers, record, 1, "declaration"@);
        lemma_under(record[2], "declaration"@, "provenance"@, "declaration,provenance"@);
        was_said(l, known, answers, record, 1);
        let args2 = arguments(
            parts("including declaration,provenance profile_artifact"@).skip(1),
            record[2],
        );
        assert(args2 =~= seq![at(at(known, "declaration"@), "provenance"@), said(record, 0)]);
        makes_including(args2, record[2]);
    }
}

/// A later attempt is declared with the provenance that its own profile was added to.
pub proof fn attempt_was_declared(known: Tree, answers: Seq<(Tree, bool)>) -> (record: Seq<Tree>)
    requires
        known is Object,
        finished(LEARN_REDECLARED@, known, answers),
    ensures
        passed(LEARN_REDECLARED@, known, answers, record),
        LEARN_REDECLARED@[0].2@ == "upload $keys,profile application/json file:profile"@,
        made_including(at(at(known, "declaration"@), "provenance"@), said(record, 0)) is Ok
            && at(record[6], "declaration,provenance"@)
                == made_including(at(at(known, "declaration"@), "provenance"@), said(record, 0))->Ok_0,
        at(record[6], "declare,declaration"@) == at(record[5], "declaration"@),
        made_including(at(at(known, "declaration"@), "provenance"@), said(record, 0))
            == Ok::<Tree, Seq<char>>(at(record[3], "provenance"@)),
{
    let record = finished_scenarios_are_recorded(LEARN_REDECLARED@, known, answers);
    lemma_attempt_was_declared(known, answers, record);
    record
}

proof fn lemma_promotion_was_preauthorized_1(
    known: Tree,
    answers: Seq<(Tree, bool)>,
    record: Seq<Tree>,
)
    requires
        passed(LEARN_PREAUTHORIZED@, known, answers, record),
    ensures
        at(record[14], "future,descriptor,descriptor_revision"@) == Tree::Integer(2),
        at(record[14], "request,declaration,command"@) == at(at(known, "keys"@), "declare"@),
        at(record[14], "request,executor"@) == Tree::Text("agent:slotbook-evaluator"@),
{
    let l = LEARN_PREAUTHORIZED@;
    reveal_strlit("future,descriptor,descriptor_revision");
    reveal_strlit("future");
    reveal_strlit("reply");
    reveal_strlit("2");
    reveal_strlit("descriptor,descriptor_revision");
    reveal_strlit("request,type");
    reveal_strlit("request,declaration,actor");
    reveal_strlit("request,declaration,command");
    reveal_strlit("request,executor");
    reveal_strlit("request,method");
    reveal_strlit("request,expected_previous_version");
    reveal_strlit("descriptor");
    reveal_strlit("descriptor_revision");
    reveal_strlit("request");
    reveal_strlit("keys");
    reveal_strlit("");
    reveal_strlit("initial");
    reveal_strlit("retained");
    reveal_strlit("published");
    reveal_strlit("declare");
    reveal_strlit("keys,declare");
    reveal_strlit("declaration,command");
    reveal_strlit("executor");
    reveal_strlit("declaration");
    reveal_strlit("method");
    reveal_strlit("expected_previous_version");
    reveal_strlit("command");
    assert("future"@.len() == 6);
    assert("reply"@.len() == 5);
    lemma_one_digit("2"@);
    assert(number_of("2"@) == Some(2u64));
    assert(
        "future,descriptor,descriptor_revision"@
            =~= "future"@ + seq![','] + "descriptor,descriptor_revision"@
    );
    lemma_apart("request,type"@, "future"@, 0);
    lemma_apart("request,declaration,actor"@, "future"@, 0);
    lemma_apart("request,declaration,command"@, "future"@, 0);
    lemma_apart("request,executor"@, "future"@, 0);
    lemma_apart("request,method"@, "future"@, 0);
    lemma_apart("request,expected_previous_version"@, "future"@, 0);
    assert(
        "descriptor,descriptor_revision"@ =~= "descriptor"@ + seq![','] + "descriptor_revision"@
    );
    assert("request"@.len() == 7);
    assert("keys"@.len() == 4);
    lemma_apart(""@, "keys"@, 0);
    lemma_apart("initial"@, "keys"@, 0);
    lemma_apart("retained"@, "keys"@, 0);
    lemma_apart("published"@, "keys"@, 0);
    lemma_apart("future"@, "keys"@, 0);
    lemma_apart("future,descriptor,descriptor_revision"@, "keys"@, 0);
    lemma_apart("request,type"@, "keys"@, 0);
    lemma_apart("request,declaration,actor"@, "keys"@, 0);
    assert("keys,declare"@ =~= "keys"@ + seq![','] + "declare"@);
    assert("request,declaration,command"@ =~= "request"@ + seq![','] + "declaration,command"@);
    assert("request,executor"@ =~= "request"@ + seq![','] + "executor"@);
    lemma_under(Tree::Null, "request"@, "executor"@, "request,executor"@);
    lemma_single_segment("executor"@);
    assert("executor"@.len() == 8);
    assert("declaration"@.len() == 11);
    assert("request,executor"@.len() == 16);
    assert(segments("request,executor"@)[1] == "executor"@);
    assert("request,method"@ =~= "request"@ + seq![','] + "method"@);
    lemma_under(Tree::Null, "request"@, "method"@, "request,method"@);
    lemma_single_segment("method"@);
    assert("method"@.len() == 6);
    assert("request,method"@.len() == 14);
    assert(segments("request,method"@)[1] == "method"@);
    assert(
        "request,expected_previous_version"@
            =~= "request"@ + seq![','] + "expected_previous_version"@
    );
    lemma_under(
        Tree::Null,
        "request"@,
        "expected_previous_version"@,
        "request,expected_previous_version"@,
    );
    lemma_single_segment("expected_previous_version"@);
    assert("expected_previous_version"@.len() == 25);
    assert("request,expected_previous_version"@.len() == 33);
    assert(segments("request,expected_previous_version"@)[1] == "expected_previous_version"@);
    assert("declaration,command"@ =~= "declaration"@ + seq![','] + "command"@);
    assert(at(record[14], "future,descriptor,descriptor_revision"@) == Tree::Integer(2)) by {
        was_counted(l, known, answers, record, 7, 2);
        lemma_under(
            record[8],
            "future"@,
            "descriptor,descriptor_revision"@,
            "future,descriptor,descriptor_revision"@,
        );
        stays(l, known, answers, record, 8, "future"@);
        stays(l, known, answers, record, 9, "future"@);
        stays(l, known, answers, record, 10, "future"@);
        stays(l, known, answers, record, 11, "future"@);
        stays(l, known, answers, record, 12, "future"@);
        stays(l, known, answers, record, 13, "future"@);
        lemma_under(
            record[14],
            "future"@,
            "descriptor,descriptor_revision"@,
            "future,descriptor,descriptor_revision"@,
        );
        lemma_under(
            at(record[8], "future"@),
            "descriptor"@,
            "descriptor_revision"@,
            "descriptor,descriptor_revision"@,
        );
        lemma_under(
            at(record[14], "future"@),
            "descriptor"@,
            "descriptor_revision"@,
            "descriptor,descriptor_revision"@,
        );
    }
    assert(at(record[14], "request,declaration,command"@) == at(at(known, "keys"@), "declare"@)) by {
        assert(forall|j: int|
            0 <= j < 10 ==> is_check((#[trigger] l[j]).0@) || !touches(l[j].1@, "keys"@));
        stays_through(l, known, answers, record, 0, 10, "keys"@);
        lemma_under(record[10], "keys"@, "declare"@, "keys,declare"@);
        was_put(l, known, answers, record, 10);
        lemma_under(record[11], "request"@, "declaration,command"@, "request,declaration,command"@);
        stays_beside(l, known, answers, record, 11, "request"@, "declaration"@);
        stays_beside(l, known, answers, record, 12, "request"@, "declaration"@);
        stays_beside(l, known, answers, record, 13, "request"@, "declaration"@);
        lemma_under(record[14], "request"@, "declaration,command"@, "request,declaration,command"@);
        lemma_under(at(record[11], "request"@), "declaration"@, "command"@, "declaration,command"@);
        lemma_under(at(record[14], "request"@), "declaration"@, "command"@, "declaration,command"@);
    }
    assert(at(record[14], "request,executor"@) == Tree::Text("agent:slotbook-evaluator"@)) by {
        was_worded(l, known, answers, record, 11);
        lemma_under(record[12], "request"@, "executor"@, "request,executor"@);
        stays_beside(l, known, answers, record, 12, "request"@, "executor"@);
        stays_beside(l, known, answers, record, 13, "request"@, "executor"@);
        lemma_under(record[14], "request"@, "executor"@, "request,executor"@);
    }
}

proof fn lemma_promotion_was_preauthorized_2(
    known: Tree,
    answers: Seq<(Tree, bool)>,
    record: Seq<Tree>,
)
    requires
        passed(LEARN_PREAUTHORIZED@, known, answers, record),
    ensures
        at(record[14], "request,method"@) == at(record[12], "future"@),
        at(record[14], "request,expected_previous_version"@)
            == at(said(record, 4), "value,value,version"@),
{
    let l = LEARN_PREAUTHORIZED@;
    reveal_strlit("request,method");
    reveal_strlit("request");
    reveal_strlit("reply");
    reveal_strlit("method");
    reveal_strlit("expected_previous_version");
    reveal_strlit("request,expected_previous_version");
    reveal_strlit("published");
    reveal_strlit("future");
    reveal_strlit("future,descriptor,descriptor_revision");
    reveal_strlit("request,type");
    reveal_strlit("request,declaration,actor");
    reveal_strlit("request,declaration,command");
    reveal_strlit("request,executor");
    reveal_strlit("value,value,version");
    reveal_strlit("published,value,value,version");
    assert("request"@.len() == 7);
    assert("reply"@.len() == 5);
    assert("request,method"@ =~= "request"@ + seq![','] + "method"@);
    assert(
        "request,expected_previous_version"@
            =~= "request"@ + seq![','] + "expected_previous_version"@
    );
    lemma_under(
        Tree::Null,
        "request"@,
        "expected_previous_version"@,
        "request,expected_previous_version"@,
    );
    lemma_single_segment("expected_previous_version"@);
    assert("expected_previous_version"@.len() == 25);
    assert("method"@.len() == 6);
    assert("request,expected_previous_version"@.len() == 33);
    assert(segments("request,expected_previous_version"@)[1] == "expected_previous_version"@);
    assert("published"@.len() == 9);
    lemma_apart("future"@, "published"@, 0);
    lemma_apart("future,descriptor,descriptor_revision"@, "published"@, 0);
    lemma_apart("request,type"@, "published"@, 0);
    lemma_apart("request,declaration,actor"@, "published"@, 0);
    lemma_apart("request,declaration,command"@, "published"@, 0);
    lemma_apart("request,executor"@, "published"@, 0);
    lemma_apart("request,method"@, "published"@, 0);
    assert("published,value,value,version"@ =~= "published"@ + seq![','] + "value,value,version"@);
    assert(at(record[14], "request,method"@) == at(record[12], "future"@)) by {
        was_put(l, known, answers, record, 12);
        lemma_under(record[13], "request"@, "method"@, "request,method"@);
        stays_beside(l, known, answers, record, 13, "request"@, "method"@);
        lemma_under(record[14], "request"@, "method"@, "request,method"@);
    }
    assert(at(record[14], "request,expected_previous_version"@)
            == at(said(record, 4), "value,value,version"@)) by {
        was_said(l, known, answers, record, 5);
        assert(forall|j: int|
            6 <= j < 13 ==> is_check((#[trigger] l[j]).0@) || !touches(l[j].1@, "published"@));
        stays_through(l, known, answers, record, 6, 13, "published"@);
        lemma_under(
            record[13],
            "published"@,
            "value,value,version"@,
            "published,value,value,version"@,
        );
        was_put(l, known, answers, record, 13);
        lemma_under(
            record[14],
            "request"@,
            "expected_previous_version"@,
            "request,expected_previous_version"@,
        );
    }
}

/// A promotion is preauthorized under the declaration of its attempt, for the second revision of
/// the published method and over the version that was published.
pub proof fn promotion_was_preauthorized(
    known: Tree,
    answers: Seq<(Tree, bool)>,
) -> (record: Seq<Tree>)
    requires
        known is Object,
        finished(LEARN_PREAUTHORIZED@, known, answers),
    ensures
        passed(LEARN_PREAUTHORIZED@, known, answers, record),
        at(record[14], "future,descriptor,descriptor_revision"@) == Tree::Integer(2),
        at(record[14], "request,declaration,command"@) == at(at(known, "keys"@), "declare"@),
        at(record[14], "request,executor"@) == Tree::Text("agent:slotbook-evaluator"@),
        at(record[14], "request,method"@) == at(record[12], "future"@),
        LEARN_PREAUTHORIZED@[4].2@
            == "call learning-baseline-publish success operator method publish $paths,published_baseline"@,
        at(record[14], "request,expected_previous_version"@)
            == at(said(record, 4), "value,value,version"@),
{
    let record = finished_scenarios_are_recorded(LEARN_PREAUTHORIZED@, known, answers);
    lemma_promotion_was_preauthorized_1(known, answers, record);
    lemma_promotion_was_preauthorized_2(known, answers, record);
    record
}

proof fn lemma_proposal_was_observed_1(known: Tree, answers: Seq<(Tree, bool)>, record: Seq<Tree>)
    requires
        passed(PROPOSAL_RUN@, known, answers, record),
    ensures
        at(said(record, 29), "terminal"@) != Tree::Null
            || at(said(record, 29), "uncertainty_count"@) != Tree::Integer(0),
        at(record[43], "observation,run"@) == at(said(record, 31), "value"@),
        at(record[43], "observation,attempt"@) == at(said(record, 37), "value"@),
{
    let l = PROPOSAL_RUN@;
    reveal_strlit("until");
    reveal_strlit("reply");
    reveal_strlit("or");
    reveal_strlit("state");
    reveal_strlit("poll");
    reveal_strlit("wait");
    reveal_strlit("some state,terminal or differs state,uncertainty_count zero");
    reveal_strlit("some");
    reveal_strlit("state,terminal or differs state,uncertainty_count zero");
    reveal_strlit("state,terminal");
    reveal_strlit("or differs state,uncertainty_count zero");
    reveal_strlit("differs state,uncertainty_count zero");
    reveal_strlit("differs");
    reveal_strlit("state,uncertainty_count zero");
    reveal_strlit("state,uncertainty_count");
    reveal_strlit("zero");
    reveal_strlit("0");
    reveal_strlit("terminal");
    reveal_strlit("uncertainty_count");
    reveal_strlit("observation,run");
    reveal_strlit("observation");
    reveal_strlit("run");
    reveal_strlit("shown");
    reveal_strlit("value");
    reveal_strlit("shown,value");
    reveal_strlit("node");
    reveal_strlit("attempt_id");
    reveal_strlit("");
    reveal_strlit("inspected");
    reveal_strlit("attempt");
    reveal_strlit("observation,attempt");
    reveal_strlit("limit");
    reveal_strlit("observation,limit");
    reveal_strlit("inspected,value");
    assert("poll"@[0] != "wait"@[0]);
    assert("state"@[0] != "reply"@[0]);
    assert("state,uncertainty_count zero"@ =~= "state,uncertainty_count"@ + seq![' '] + "zero"@);
    lemma_two_words("state,uncertainty_count"@, "zero"@, "state,uncertainty_count zero"@);
    assert(
        "differs state,uncertainty_count zero"@
            =~= "differs"@ + seq![' '] + "state,uncertainty_count zero"@
    );
    lemma_four_words(
        "differs"@,
        "state,uncertainty_count zero"@,
        "differs state,uncertainty_count zero"@,
    );
    assert(
        "or differs state,uncertainty_count zero"@
            =~= "or"@ + seq![' '] + "differs state,uncertainty_count zero"@
    );
    lemma_four_words(
        "or"@,
        "differs state,uncertainty_count zero"@,
        "or differs state,uncertainty_count zero"@,
    );
    assert(
        "state,terminal or differs state,uncertainty_count zero"@
            =~= "state,terminal"@ + seq![' '] + "or differs state,uncertainty_count zero"@
    );
    lemma_four_words(
        "state,terminal"@,
        "or differs state,uncertainty_count zero"@,
        "state,terminal or differs state,uncertainty_count zero"@,
    );
    assert(
        "some state,terminal or differs state,uncertainty_count zero"@
            =~= "some"@ + seq![' '] + "state,terminal or differs state,uncertainty_count zero"@
    );
    lemma_four_words(
        "some"@,
        "state,terminal or differs state,uncertainty_count zero"@,
        "some state,terminal or differs state,uncertainty_count zero"@,
    );
    assert("some"@.len() == 4);
    assert("or"@.len() == 2);
    assert("state,terminal"@.len() == 14);
    assert("differs"@.len() == 7);
    assert("state,uncertainty_count"@.len() == 23);
    assert("zero"@.len() == 4);
    assert(
        parts("some state,terminal or differs state,uncertainty_count zero"@)
            =~= seq!["some"@, "state,terminal"@]
                + seq!["or"@]
                + seq!["differs"@, "state,uncertainty_count"@, "zero"@]
    );
    assert("reply"@.len() == 5);
    lemma_one_digit("0"@);
    assert(number_of("0"@) == Some(0u64));
    lemma_apart("state"@, "zero"@, 0);
    assert("state,terminal"@ =~= "state"@ + seq![','] + "terminal"@);
    assert("state,uncertainty_count"@ =~= "state"@ + seq![','] + "uncertainty_count"@);
    assert("observation"@.len() == 11);
    assert("run"@.len() == 3);
    assert("shown"@[0] != "reply"@[0]);
    assert("shown,value"@ =~= "shown"@ + seq![','] + "value"@);
    lemma_apart("node"@, "run"@, 0);
    lemma_apart("attempt_id"@, "run"@, 0);
    lemma_apart(""@, "run"@, 0);
    lemma_apart("inspected"@, "run"@, 0);
    lemma_apart("attempt"@, "run"@, 0);
    assert("observation,run"@ =~= "observation"@ + seq![','] + "run"@);
    assert("observation,attempt"@ =~= "observation"@ + seq![','] + "attempt"@);
    lemma_under(Tree::Null, "observation"@, "attempt"@, "observation,attempt"@);
    lemma_single_segment("attempt"@);
    assert("attempt"@.len() == 7);
    assert("observation,attempt"@.len() == 19);
    assert(segments("observation,attempt"@)[1] == "attempt"@);
    assert("observation,limit"@ =~= "observation"@ + seq![','] + "limit"@);
    lemma_under(Tree::Null, "observation"@, "limit"@, "observation,limit"@);
    lemma_single_segment("limit"@);
    assert("limit"@.len() == 5);
    assert("observation,limit"@.len() == 17);
    assert(segments("observation,limit"@)[1] == "limit"@);
    assert("inspected"@.len() == 9);
    assert("inspected,value"@ =~= "inspected"@ + seq![','] + "value"@);
    lemma_apart("observation,run"@, "attempt"@, 0);
    assert(at(said(record, 29), "terminal"@) != Tree::Null
            || at(said(record, 29), "uncertainty_count"@) != Tree::Integer(0)) by {
        was_awaited(l, known, answers, record, 29);
        awaited_condition(l, known, answers, record, 29, 30);
        lemma_either(
            seq!["some"@, "state,terminal"@],
            seq!["differs"@, "state,uncertainty_count"@, "zero"@],
            record[30],
        );
        lemma_judged_some("state,terminal"@, record[30]);
        lemma_judged_differs("state,uncertainty_count"@, "zero"@, record[30]);
        was_counted(l, known, answers, record, 28, 0);
        stays(l, known, answers, record, 29, "zero"@);
        lemma_under(record[30], "state"@, "terminal"@, "state,terminal"@);
        lemma_under(record[30], "state"@, "uncertainty_count"@, "state,uncertainty_count"@);
    }
    assert(at(record[43], "observation,run"@) == at(said(record, 31), "value"@)) by {
        was_kept(l, known, answers, record, 33);
        was_said(l, known, answers, record, 32);
        lemma_under(record[33], "shown"@, "value"@, "shown,value"@);
        assert(forall|j: int|
            34 <= j < 40 ==> is_check((#[trigger] l[j]).0@) || !touches(l[j].1@, "run"@));
        stays_through(l, known, answers, record, 34, 40, "run"@);
        was_put(l, known, answers, record, 40);
        lemma_under(record[41], "observation"@, "run"@, "observation,run"@);
        stays_beside(l, known, answers, record, 41, "observation"@, "run"@);
        stays_beside(l, known, answers, record, 42, "observation"@, "run"@);
        lemma_under(record[43], "observation"@, "run"@, "observation,run"@);
    }
    assert(at(record[43], "observation,attempt"@) == at(said(record, 37), "value"@)) by {
        was_kept(l, known, answers, record, 39);
        was_said(l, known, answers, record, 38);
        lemma_under(record[39], "inspected"@, "value"@, "inspected,value"@);
        stays(l, known, answers, record, 40, "attempt"@);
        was_put(l, known, answers, record, 41);
        lemma_under(record[42], "observation"@, "attempt"@, "observation,attempt"@);
        stays_beside(l, known, answers, record, 42, "observation"@, "attempt"@);
        lemma_under(record[43], "observation"@, "attempt"@, "observation,attempt"@);
    }
}

proof fn lemma_proposal_was_observed_2(known: Tree, answers: Seq<(Tree, bool)>, record: Seq<Tree>)
    requires
        passed(PROPOSAL_RUN@, known, answers, record),
    ensures
        made_proposal_prompt(at(known, "baseline"@), at(known, "selection"@))
            == Ok::<Tree, Seq<char>>(at(record[7], "question"@)),
        made_artifact_port() == Ok::<Tree, Seq<char>>(at(record[10], "answer_port"@)),
        made_source_evidence(at(known, "selection"@))
            == Ok::<Tree, Seq<char>>(at(record[11], "cited_sources"@)),
{
    let l = PROPOSAL_RUN@;
    reveal_strlit("question");
    reveal_strlit("proposal-prompt baseline selection");
    reveal_strlit("proposal-prompt");
    reveal_strlit("baseline selection");
    reveal_strlit("baseline");
    reveal_strlit("selection");
    reveal_strlit("reply");
    reveal_strlit("model_run");
    reveal_strlit("");
    reveal_strlit("example");
    reveal_strlit("template");
    reveal_strlit("model_profile");
    reveal_strlit("answer_port");
    reveal_strlit("artifact-port");
    reveal_strlit("cited_sources");
    reveal_strlit("source-evidence");
    reveal_strlit("source-evidence selection");
    reveal_strlit("structured");
    assert("baseline selection"@ =~= "baseline"@ + seq![' '] + "selection"@);
    lemma_two_words("baseline"@, "selection"@, "baseline selection"@);
    assert(
        "proposal-prompt baseline selection"@
            =~= "proposal-prompt"@ + seq![' '] + "baseline selection"@
    );
    lemma_four_words(
        "proposal-prompt"@,
        "baseline selection"@,
        "proposal-prompt baseline selection"@,
    );
    assert(
        parts("proposal-prompt baseline selection"@)
            =~= seq!["proposal-prompt"@, "baseline"@, "selection"@]
    );
    assert("baseline"@.len() == 8);
    assert("reply"@.len() == 5);
    lemma_apart("model_run"@, "baseline"@, 0);
    lemma_apart(""@, "baseline"@, 0);
    lemma_apart("example"@, "baseline"@, 0);
    lemma_apart("template"@, "baseline"@, 0);
    lemma_apart("model_profile"@, "baseline"@, 0);
    assert("selection"@.len() == 9);
    lemma_apart("model_run"@, "selection"@, 0);
    lemma_apart(""@, "selection"@, 0);
    lemma_apart("example"@, "selection"@, 0);
    lemma_apart("template"@, "selection"@, 0);
    lemma_apart("model_profile"@, "selection"@, 0);
    assert(
        parts("proposal-prompt baseline selection"@).skip(1) =~= seq!["baseline"@, "selection"@]
    );
    lemma_one_word("artifact-port"@);
    assert(parts("artifact-port"@) =~= seq!["artifact-port"@]);
    assert(parts("artifact-port"@).skip(1) =~= seq![]);
    assert("source-evidence selection"@ =~= "source-evidence"@ + seq![' '] + "selection"@);
    lemma_two_words("source-evidence"@, "selection"@, "source-evidence selection"@);
    assert(parts("source-evidence selection"@) =~= seq!["source-evidence"@, "selection"@]);
    lemma_apart("question"@, "selection"@, 0);
    lemma_apart("structured"@, "selection"@, 1);
    lemma_apart("answer_port"@, "selection"@, 0);
    assert(parts("source-evidence selection"@).skip(1) =~= seq!["selection"@]);
    assert(made_proposal_prompt(at(known, "baseline"@), at(known, "selection"@))
            == Ok::<Tree, Seq<char>>(at(record[7], "question"@))) by {
        was_made(l, known, answers, record, 6);
        assert(forall|j: int|
            0 <= j < 6 ==> is_check((#[trigger] l[j]).0@) || !touches(l[j].1@, "baseline"@));
        stays_through(l, known, answers, record, 0, 6, "baseline"@);
        assert(forall|j: int|
            0 <= j < 6 ==> is_check((#[trigger] l[j]).0@) || !touches(l[j].1@, "selection"@));
        stays_through(l, known, answers, record, 0, 6, "selection"@);
        let args6 = arguments(parts("proposal-prompt baseline selection"@).skip(1), record[6]);
        assert(args6 =~= seq![at(known, "baseline"@), at(known, "selection"@)]);
        makes_proposal_prompt(args6, record[6]);
    }
    assert(made_artifact_port() == Ok::<Tree, Seq<char>>(at(record[10], "answer_port"@))) by {
        was_made(l, known, answers, record, 9);
        let args9 = arguments(parts("artifact-port"@).skip(1), record[9]);
        assert(args9 =~= seq![]);
        makes_artifact_port(args9, record[9]);
    }
    assert(made_source_evidence(at(known, "selection"@))
            == Ok::<Tree, Seq<char>>(at(record[11], "cited_sources"@))) by {
        was_made(l, known, answers, record, 10);
        assert(forall|j: int|
            0 <= j < 10 ==> is_check((#[trigger] l[j]).0@) || !touches(l[j].1@, "selection"@));
        stays_through(l, known, answers, record, 0, 10, "selection"@);
        let args10 = arguments(parts("source-evidence selection"@).skip(1), record[10]);
        assert(args10 =~= seq![at(known, "selection"@)]);
        makes_source_evidence(args10, record[10]);
    }
}

proof fn lemma_proposal_was_observed_3(known: Tree, answers: Seq<(Tree, bool)>, record: Seq<Tree>)
    requires
        passed(PROPOSAL_RUN@, known, answers, record),
    ensures
        made_source_inputs(
            at(said(record, 1), "revision,semantic,nodes,model"@),
            at(known, "selection"@),
        )
            == Ok::<Tree, Seq<char>>(at(record[12], "shown_inputs"@)),
        document_of(PROPOSAL_MODEL@, at(record[19], "step"@))
            == Ok::<Tree, Seq<char>>(at(record[20], "proposing"@)),
        document_of(PROPOSAL_MODEL@, at(record[19], "step"@)) is Ok
            && made_proposal_mutations(document_of(PROPOSAL_MODEL@, at(record[19], "step"@))->Ok_0)
                == Ok::<Tree, Seq<char>>(at(record[21], "proposal_mutations"@)),
{
    let l = PROPOSAL_RUN@;
    reveal_strlit("shown_inputs");
    reveal_strlit("source-inputs template selection");
    reveal_strlit("source-inputs");
    reveal_strlit("template selection");
    reveal_strlit("template");
    reveal_strlit("selection");
    reveal_strlit("reply");
    reveal_strlit("example");
    reveal_strlit("revision,semantic,nodes,model");
    reveal_strlit("example,revision,semantic,nodes,model");
    reveal_strlit("");
    reveal_strlit("model_profile");
    reveal_strlit("question");
    reveal_strlit("structured");
    reveal_strlit("answer_port");
    reveal_strlit("cited_sources");
    reveal_strlit("model_run");
    reveal_strlit("proposing");
    reveal_strlit("proposal-model");
    reveal_strlit("step");
    reveal_strlit("proposal-model step");
    reveal_strlit("proposal_mutations");
    reveal_strlit("proposal-mutations");
    reveal_strlit("proposal-mutations proposing");
    assert("template selection"@ =~= "template"@ + seq![' '] + "selection"@);
    lemma_two_words("template"@, "selection"@, "template selection"@);
    assert(
        "source-inputs template selection"@
            =~= "source-inputs"@ + seq![' '] + "template selection"@
    );
    lemma_four_words("source-inputs"@, "template selection"@, "source-inputs template selection"@);
    assert(
        parts("source-inputs template selection"@)
            =~= seq!["source-inputs"@, "template"@, "selection"@]
    );
    assert("template"@.len() == 8);
    assert("reply"@.len() == 5);
    assert("example"@.len() == 7);
    assert(
        "example,revision,semantic,nodes,model"@
            =~= "example"@ + seq![','] + "revision,semantic,nodes,model"@
    );
    lemma_apart(""@, "template"@, 0);
    lemma_apart("model_profile"@, "template"@, 0);
    lemma_apart("question"@, "template"@, 0);
    lemma_apart("structured"@, "template"@, 0);
    lemma_apart("answer_port"@, "template"@, 0);
    lemma_apart("cited_sources"@, "template"@, 0);
    assert("selection"@.len() == 9);
    lemma_apart("model_run"@, "selection"@, 0);
    lemma_apart(""@, "selection"@, 0);
    lemma_apart("example"@, "selection"@, 0);
    lemma_apart("template"@, "selection"@, 0);
    lemma_apart("model_profile"@, "selection"@, 0);
    lemma_apart("question"@, "selection"@, 0);
    lemma_apart("structured"@, "selection"@, 1);
    lemma_apart("answer_port"@, "selection"@, 0);
    lemma_apart("cited_sources"@, "selection"@, 0);
    assert(parts("source-inputs template selection"@).skip(1) =~= seq!["template"@, "selection"@]);
    assert("proposal-model step"@ =~= "proposal-model"@ + seq![' '] + "step"@);
    lemma_two_words("proposal-model"@, "step"@, "proposal-model step"@);
    assert(parts("proposal-model step"@) =~= seq!["proposal-model"@, "step"@]);
    assert("step"@.len() == 4);
    assert(parts("proposal-model step"@).skip(1) =~= seq!["step"@]);
    assert("proposal-mutations proposing"@ =~= "proposal-mutations"@ + seq![' '] + "proposing"@);
    lemma_two_words("proposal-mutations"@, "proposing"@, "proposal-mutations proposing"@);
    assert(parts("proposal-mutations proposing"@) =~= seq!["proposal-mutations"@, "proposing"@]);
    assert("proposing"@.len() == 9);
    assert(parts("proposal-mutations proposing"@).skip(1) =~= seq!["proposing"@]);
    assert(made_source_inputs(
            at(said(record, 1), "revision,semantic,nodes,model"@),
            at(known, "selection"@),
        )
            == Ok::<Tree, Seq<char>>(at(record[12], "shown_inputs"@))) by {
        was_made(l, known, answers, record, 11);
        was_kept(l, known, answers, record, 3);
        was_said(l, known, answers, record, 2);
        lemma_under(
            record[3],
            "example"@,
            "revision,semantic,nodes,model"@,
            "example,revision,semantic,nodes,model"@,
        );
        assert(forall|j: int|
            4 <= j < 11 ==> is_check((#[trigger] l[j]).0@) || !touches(l[j].1@, "template"@));
        stays_through(l, known, answers, record, 4, 11, "template"@);
        assert(forall|j: int|
            0 <= j < 11 ==> is_check((#[trigger] l[j]).0@) || !touches(l[j].1@, "selection"@));
        stays_through(l, known, answers, record, 0, 11, "selection"@);
        let args11 = arguments(parts("source-inputs template selection"@).skip(1), record[11]);
        assert(
            args11
                =~= seq![
                    at(said(record, 1), "revision,semantic,nodes,model"@),
                    at(known, "selection"@),
                ]
        );
        makes_source_inputs(args11, record[11]);
    }
    assert(document_of(PROPOSAL_MODEL@, at(record[19], "step"@))
            == Ok::<Tree, Seq<char>>(at(record[20], "proposing"@))) by {
        was_made(l, known, answers, record, 19);
        let args19 = arguments(parts("proposal-model step"@).skip(1), record[19]);
        assert(args19 =~= seq![at(record[19], "step"@)]);
        makes_proposal_model(args19, record[19]);
    }
    assert(document_of(PROPOSAL_MODEL@, at(record[19], "step"@)) is Ok
            && made_proposal_mutations(document_of(PROPOSAL_MODEL@, at(record[19], "step"@))->Ok_0)
                == Ok::<Tree, Seq<char>>(at(record[21], "proposal_mutations"@))) by {
        was_made(l, known, answers, record, 20);
        was_made(l, known, answers, record, 19);
        let args19 = arguments(parts("proposal-model step"@).skip(1), record[19]);
        assert(args19 =~= seq![at(record[19], "step"@)]);
        makes_proposal_model(args19, record[19]);
        let args20 = arguments(parts("proposal-mutations proposing"@).skip(1), record[20]);
        assert(args20 =~= seq![document_of(PROPOSAL_MODEL@, at(record[19], "step"@))->Ok_0]);
        makes_proposal_mutations(args20, record[20]);
    }
}

/// A proposal is asked for with the prompt, the sources and the step that the library draws up from
/// the baseline, the selection and the example; it is decoded only after its run ended or became
/// uncertain, and what is retained of it is the run and the attempt that were read.
pub proof fn proposal_was_observed(known: Tree, answers: Seq<(Tree, bool)>) -> (record: Seq<Tree>)
    requires
        known is Object,
        finished(PROPOSAL_RUN@, known, answers),
    ensures
        passed(PROPOSAL_RUN@, known, answers, record),
        PROPOSAL_RUN@[29].2@ == "show-run $keys,observation $model_run"@,
        at(said(record, 29), "terminal"@) != Tree::Null
            || at(said(record, 29), "uncertainty_count"@) != Tree::Integer(0),
        PROPOSAL_RUN@[31].2@ == "call $keys,run success operator run show $model_run"@,
        at(record[43], "observation,run"@) == at(said(record, 31), "value"@),
        PROPOSAL_RUN@[37].2@
            == "call $keys,attempt success operator attempt inspect $model_run $attempt_id"@,
        at(record[43], "observation,attempt"@) == at(said(record, 37), "value"@),
        made_proposal_prompt(at(known, "baseline"@), at(known, "selection"@))
            == Ok::<Tree, Seq<char>>(at(record[7], "question"@)),
        made_artifact_port() == Ok::<Tree, Seq<char>>(at(record[10], "answer_port"@)),
        made_source_evidence(at(known, "selection"@))
            == Ok::<Tree, Seq<char>>(at(record[11], "cited_sources"@)),
        PROPOSAL_RUN@[1].2@ == "load example"@,
        made_source_inputs(
            at(said(record, 1), "revision,semantic,nodes,model"@),
            at(known, "selection"@),
        )
            == Ok::<Tree, Seq<char>>(at(record[12], "shown_inputs"@)),
        document_of(PROPOSAL_MODEL@, at(record[19], "step"@))
            == Ok::<Tree, Seq<char>>(at(record[20], "proposing"@)),
        document_of(PROPOSAL_MODEL@, at(record[19], "step"@)) is Ok
            && made_proposal_mutations(document_of(PROPOSAL_MODEL@, at(record[19], "step"@))->Ok_0)
                == Ok::<Tree, Seq<char>>(at(record[21], "proposal_mutations"@)),
{
    let record = finished_scenarios_are_recorded(PROPOSAL_RUN@, known, answers);
    lemma_proposal_was_observed_1(known, answers, record);
    lemma_proposal_was_observed_2(known, answers, record);
    lemma_proposal_was_observed_3(known, answers, record);
    record
}

proof fn lemma_submission_was_bounded_1(known: Tree, answers: Seq<(Tree, bool)>, record: Seq<Tree>)
    requires
        passed(PROPOSAL_SUBMITTED@, known, answers, record),
    ensures
        at(record[2], "declare,declaration"@) == at(known, "declaration"@),
        at(record[20], "forged,proposal,draft,evidence"@)
            == Tree::List(seq![at(record[19], "invented"@)]),
        at(record[26], "forged,proposal,draft,mutation"@)
            == Tree::List(seq![at(record[25], "removal"@)]),
{
    let l = PROPOSAL_SUBMITTED@;
    reveal_strlit("declare,declaration");
    reveal_strlit("declare");
    reveal_strlit("reply");
    reveal_strlit("declaration");
    reveal_strlit("declare,type");
    reveal_strlit("forged,proposal,draft,evidence");
    reveal_strlit("forged");
    reveal_strlit("invented");
    reveal_strlit("proposal,draft,evidence");
    reveal_strlit("forged,proposal,draft,mutation");
    reveal_strlit("removal");
    reveal_strlit("proposal,draft,mutation");
    assert("declare"@.len() == 7);
    assert("reply"@.len() == 5);
    assert("declaration"@.len() == 11);
    lemma_apart("declare,type"@, "declaration"@, 6);
    assert("declare,declaration"@ =~= "declare"@ + seq![','] + "declaration"@);
    assert("forged"@.len() == 6);
    lemma_one_word("invented"@);
    assert(
        "forged,proposal,draft,evidence"@ =~= "forged"@ + seq![','] + "proposal,draft,evidence"@
    );
    lemma_one_word("removal"@);
    assert(
        "forged,proposal,draft,mutation"@ =~= "forged"@ + seq![','] + "proposal,draft,mutation"@
    );
    assert(at(record[2], "declare,declaration"@) == at(known, "declaration"@)) by {
        stays(l, known, answers, record, 0, "declaration"@);
        was_put(l, known, answers, record, 1);
        lemma_under(record[2], "declare"@, "declaration"@, "declare,declaration"@);
    }
    assert(at(record[20], "forged,proposal,draft,evidence"@)
            == Tree::List(seq![at(record[19], "invented"@)])) by {
        was_gathered(l, known, answers, record, 19);
        assert(gathered(parts("invented"@), record[19]) =~= seq![at(record[19], "invented"@)]);
        lemma_under(
            record[20],
            "forged"@,
            "proposal,draft,evidence"@,
            "forged,proposal,draft,evidence"@,
        );
    }
    assert(at(record[26], "forged,proposal,draft,mutation"@)
            == Tree::List(seq![at(record[25], "removal"@)])) by {
        was_gathered(l, known, answers, record, 25);
        assert(gathered(parts("removal"@), record[25]) =~= seq![at(record[25], "removal"@)]);
        lemma_under(
            record[26],
            "forged"@,
            "proposal,draft,mutation"@,
            "forged,proposal,draft,mutation"@,
        );
    }
}

proof fn lemma_submission_was_bounded_2(known: Tree, answers: Seq<(Tree, bool)>, record: Seq<Tree>)
    requires
        passed(PROPOSAL_SUBMITTED@, known, answers, record),
    ensures
        at(record[28], "candidate,proposal"@) == at(known, "proposal"@),
        at(record[32], "candidate"@) == at(record[28], "candidate"@),
{
    let l = PROPOSAL_SUBMITTED@;
    reveal_strlit("candidate,proposal");
    reveal_strlit("candidate");
    reveal_strlit("reply");
    reveal_strlit("proposal");
    reveal_strlit("declare,type");
    reveal_strlit("declare,declaration");
    reveal_strlit("");
    reveal_strlit("refusal");
    reveal_strlit("inspect,type");
    reveal_strlit("inspect,receipt,actor");
    reveal_strlit("inspect,receipt,command");
    reveal_strlit("candidate,type");
    reveal_strlit("candidate,declaration,actor");
    reveal_strlit("candidate,declaration,command");
    reveal_strlit("expected_benefit");
    reveal_strlit("candidate,expected_benefit");
    reveal_strlit("applicability");
    reveal_strlit("candidate,applicability");
    reveal_strlit("counterevidence");
    reveal_strlit("candidate,counterevidence");
    reveal_strlit("forged");
    reveal_strlit("invented,kind");
    reveal_strlit("invented,id");
    reveal_strlit("forged,proposal,draft,evidence");
    reveal_strlit("removal,type");
    reveal_strlit("removal,node");
    reveal_strlit("forged,proposal,draft,mutation");
    reveal_strlit("result");
    reveal_strlit("restarted");
    assert("candidate"@.len() == 9);
    assert("reply"@.len() == 5);
    assert("proposal"@.len() == 8);
    lemma_apart("declare,type"@, "proposal"@, 0);
    lemma_apart("declare,declaration"@, "proposal"@, 0);
    lemma_apart(""@, "proposal"@, 0);
    lemma_apart("refusal"@, "proposal"@, 0);
    lemma_apart("inspect,type"@, "proposal"@, 0);
    lemma_apart("inspect,receipt,actor"@, "proposal"@, 0);
    lemma_apart("inspect,receipt,command"@, "proposal"@, 0);
    lemma_apart("candidate,type"@, "proposal"@, 0);
    lemma_apart("candidate,declaration,actor"@, "proposal"@, 0);
    lemma_apart("candidate,declaration,command"@, "proposal"@, 0);
    assert("candidate,proposal"@ =~= "candidate"@ + seq![','] + "proposal"@);
    assert("candidate,expected_benefit"@ =~= "candidate"@ + seq![','] + "expected_benefit"@);
    lemma_under(Tree::Null, "candidate"@, "expected_benefit"@, "candidate,expected_benefit"@);
    lemma_single_segment("expected_benefit"@);
    assert("expected_benefit"@.len() == 16);
    assert("candidate,expected_benefit"@.len() == 26);
    assert(segments("candidate,expected_benefit"@)[1] == "expected_benefit"@);
    assert("candidate,applicability"@ =~= "candidate"@ + seq![','] + "applicability"@);
    lemma_under(Tree::Null, "candidate"@, "applicability"@, "candidate,applicability"@);
    lemma_single_segment("applicability"@);
    assert("applicability"@.len() == 13);
    assert("candidate,applicability"@.len() == 23);
    assert(segments("candidate,applicability"@)[1] == "applicability"@);
    assert("candidate,counterevidence"@ =~= "candidate"@ + seq![','] + "counterevidence"@);
    lemma_under(Tree::Null, "candidate"@, "counterevidence"@, "candidate,counterevidence"@);
    lemma_single_segment("counterevidence"@);
    assert("counterevidence"@.len() == 15);
    assert("candidate,counterevidence"@.len() == 25);
    assert(segments("candidate,counterevidence"@)[1] == "counterevidence"@);
    lemma_apart("forged"@, "candidate"@, 0);
    lemma_apart("invented,kind"@, "candidate"@, 0);
    lemma_apart("invented,id"@, "candidate"@, 0);
    lemma_apart("forged,proposal,draft,evidence"@, "candidate"@, 0);
    lemma_apart(""@, "candidate"@, 0);
    lemma_apart("refusal"@, "candidate"@, 0);
    lemma_apart("removal,type"@, "candidate"@, 0);
    lemma_apart("removal,node"@, "candidate"@, 0);
    lemma_apart("forged,proposal,draft,mutation"@, "candidate"@, 0);
    lemma_apart("result"@, "candidate"@, 0);
    lemma_apart("restarted"@, "candidate"@, 0);
    assert(at(record[28], "candidate,proposal"@) == at(known, "proposal"@)) by {
        assert(forall|j: int|
            0 <= j < 12 ==> is_check((#[trigger] l[j]).0@) || !touches(l[j].1@, "proposal"@));
        stays_through(l, known, answers, record, 0, 12, "proposal"@);
        was_put(l, known, answers, record, 12);
        lemma_under(record[13], "candidate"@, "proposal"@, "candidate,proposal"@);
        stays_beside(l, known, answers, record, 13, "candidate"@, "proposal"@);
        stays_beside(l, known, answers, record, 14, "candidate"@, "proposal"@);
        stays_beside(l, known, answers, record, 15, "candidate"@, "proposal"@);
        stays(l, known, answers, record, 16, "candidate"@);
        stays(l, known, answers, record, 17, "candidate"@);
        stays(l, known, answers, record, 18, "candidate"@);
        stays(l, known, answers, record, 19, "candidate"@);
        stays(l, known, answers, record, 20, "candidate"@);
        stays(l, known, answers, record, 21, "candidate"@);
        stays(l, known, answers, record, 22, "candidate"@);
        stays(l, known, answers, record, 23, "candidate"@);
        stays(l, known, answers, record, 24, "candidate"@);
        stays(l, known, answers, record, 25, "candidate"@);
        stays(l, known, answers, record, 26, "candidate"@);
        stays(l, known, answers, record, 27, "candidate"@);
        lemma_under(record[28], "candidate"@, "proposal"@, "candidate,proposal"@);
    }
    assert(at(record[32], "candidate"@) == at(record[28], "candidate"@)) by {
        assert(forall|j: int|
            28 <= j < 32 ==> is_check((#[trigger] l[j]).0@) || !touches(l[j].1@, "candidate"@));
        stays_through(l, known, answers, record, 28, 32, "candidate"@);
    }
}

/// A submission finishes only after the learner was refused the declaration, a candidate with
/// invented evidence and one with an edit of a verifier; the candidate that was accepted holds the
/// proposal itself, and the very same one is replayed after the restart.
pub proof fn submission_was_bounded(known: Tree, answers: Seq<(Tree, bool)>) -> (record: Seq<Tree>)
    requires
        known is Object,
        finished(PROPOSAL_SUBMITTED@, known, answers),
    ensures
        passed(PROPOSAL_SUBMITTED@, known, answers, record),
        at(record[2], "declare,declaration"@) == at(known, "declaration"@),
        at(record[20], "forged,proposal,draft,evidence"@)
            == Tree::List(seq![at(record[19], "invented"@)]),
        at(record[26], "forged,proposal,draft,mutation"@)
            == Tree::List(seq![at(record[25], "removal"@)]),
        at(record[28], "candidate,proposal"@) == at(known, "proposal"@),
        at(record[32], "candidate"@) == at(record[28], "candidate"@),
{
    let record = finished_scenarios_are_recorded(PROPOSAL_SUBMITTED@, known, answers);
    lemma_submission_was_bounded_1(known, answers, record);
    lemma_submission_was_bounded_2(known, answers, record);
    record
}

proof fn lemma_invocation_was_exact_1(known: Tree, answers: Seq<(Tree, bool)>, record: Seq<Tree>)
    requires
        passed(EVALUATE_INVOKE@, known, answers, record),
    ensures
        at(said(record, 1), "revision"@) == at(at(known, "revision"@), "id"@),
        at(said(record, 1), "descriptor,identity"@) == at(at(known, "slot"@), "capability"@),
        at(at(said(record, 17), "value"@), "terminal"@) != Tree::Null
            || at(at(said(record, 17), "value"@), "history,type"@) == Tree::Text("archived"@),
{
    let l = EVALUATE_INVOKE@;
    reveal_strlit("method");
    reveal_strlit("reply");
    reveal_strlit("revision");
    reveal_strlit("method,revision");
    reveal_strlit("capability");
    reveal_strlit("");
    reveal_strlit("id");
    reveal_strlit("revision,id");
    reveal_strlit("descriptor,identity");
    reveal_strlit("method,descriptor,identity");
    reveal_strlit("slot");
    reveal_strlit("slot,capability");
    reveal_strlit("some completed,terminal or is completed,history,type archived");
    reveal_strlit("some");
    reveal_strlit("completed,terminal or is completed,history,type archived");
    reveal_strlit("completed,terminal");
    reveal_strlit("or is completed,history,type archived");
    reveal_strlit("or");
    reveal_strlit("is completed,history,type archived");
    reveal_strlit("is");
    reveal_strlit("completed,history,type archived");
    reveal_strlit("completed,history,type");
    reveal_strlit("archived");
    reveal_strlit("completed");
    reveal_strlit("waited");
    reveal_strlit("value");
    reveal_strlit("waited,value");
    reveal_strlit("lookup_label");
    reveal_strlit("looked");
    reveal_strlit("terminal");
    reveal_strlit("history,type");
    assert("method"@.len() == 6);
    assert("reply"@.len() == 5);
    assert("method,revision"@ =~= "method"@ + seq![','] + "revision"@);
    assert("revision"@.len() == 8);
    lemma_apart("capability"@, "revision"@, 0);
    lemma_apart(""@, "revision"@, 0);
    lemma_apart("method"@, "revision"@, 0);
    assert("revision,id"@ =~= "revision"@ + seq![','] + "id"@);
    assert("method,descriptor,identity"@ =~= "method"@ + seq![','] + "descriptor,identity"@);
    assert("capability"@.len() == 10);
    assert("slot"@.len() == 4);
    assert("slot,capability"@ =~= "slot"@ + seq![','] + "capability"@);
    lemma_apart(""@, "capability"@, 0);
    lemma_apart("method"@, "capability"@, 0);
    assert(
        "completed,history,type archived"@ =~= "completed,history,type"@ + seq![' '] + "archived"@
    );
    lemma_two_words("completed,history,type"@, "archived"@, "completed,history,type archived"@);
    assert(
        "is completed,history,type archived"@
            =~= "is"@ + seq![' '] + "completed,history,type archived"@
    );
    lemma_four_words(
        "is"@,
        "completed,history,type archived"@,
        "is completed,history,type archived"@,
    );
    assert(
        "or is completed,history,type archived"@
            =~= "or"@ + seq![' '] + "is completed,history,type archived"@
    );
    lemma_four_words(
        "or"@,
        "is completed,history,type archived"@,
        "or is completed,history,type archived"@,
    );
    assert(
        "completed,terminal or is completed,history,type archived"@
            =~= "completed,terminal"@ + seq![' '] + "or is completed,history,type archived"@
    );
    lemma_four_words(
        "completed,terminal"@,
        "or is completed,history,type archived"@,
        "completed,terminal or is completed,history,type archived"@,
    );
    assert(
        "some completed,terminal or is completed,history,type archived"@
            =~= "some"@ + seq![' '] + "completed,terminal or is completed,history,type archived"@
    );
    lemma_four_words(
        "some"@,
        "completed,terminal or is completed,history,type archived"@,
        "some completed,terminal or is completed,history,type archived"@,
    );
    assert("some"@.len() == 4);
    assert("or"@.len() == 2);
    assert("completed,terminal"@.len() == 18);
    assert("is"@[0] != "or"@[0]);
    assert("completed,history,type"@.len() == 22);
    assert("archived"@.len() == 8);
    assert("completed"@.len() == 9);
    assert("waited"@.len() == 6);
    assert("waited,value"@ =~= "waited"@ + seq![','] + "value"@);
    lemma_apart("lookup_label"@, "completed"@, 0);
    lemma_apart(""@, "completed"@, 0);
    lemma_apart("looked"@, "completed"@, 0);
    assert("completed,terminal"@ =~= "completed"@ + seq![','] + "terminal"@);
    assert("completed,history,type"@ =~= "completed"@ + seq![','] + "history,type"@);
    assert(
        parts("some completed,terminal or is completed,history,type archived"@)
            =~= seq!["some"@, "completed,terminal"@]
                + seq!["or"@]
                + seq!["is"@, "completed,history,type"@, "archived"@]
    );
    assert(at(said(record, 1), "revision"@) == at(at(known, "revision"@), "id"@)) by {
        was_said(l, known, answers, record, 2);
        lemma_under(record[3], "method"@, "revision"@, "method,revision"@);
        assert(forall|j: int|
            0 <= j < 3 ==> is_check((#[trigger] l[j]).0@) || !touches(l[j].1@, "revision"@));
        stays_through(l, known, answers, record, 0, 3, "revision"@);
        lemma_under(record[3], "revision"@, "id"@, "revision,id"@);
        saw_same(l, known, answers, record, 3);
    }
    assert(at(said(record, 1), "descriptor,identity"@) == at(at(known, "slot"@), "capability"@)) by {
        was_said(l, known, answers, record, 2);
        unchanged(l, known, answers, record, 3);
        lemma_under(record[4], "method"@, "descriptor,identity"@, "method,descriptor,identity"@);
        was_kept(l, known, answers, record, 0);
        lemma_under(record[0], "slot"@, "capability"@, "slot,capability"@);
        assert(forall|j: int|
            1 <= j < 4 ==> is_check((#[trigger] l[j]).0@) || !touches(l[j].1@, "capability"@));
        stays_through(l, known, answers, record, 1, 4, "capability"@);
        saw_same(l, known, answers, record, 4);
    }
    assert(at(at(said(record, 17), "value"@), "terminal"@) != Tree::Null
            || at(at(said(record, 17), "value"@), "history,type"@) == Tree::Text("archived"@)) by {
        was_kept(l, known, answers, record, 19);
        was_said(l, known, answers, record, 18);
        lemma_under(record[19], "waited"@, "value"@, "waited,value"@);
        assert(forall|j: int|
            20 <= j < 23 ==> is_check((#[trigger] l[j]).0@) || !touches(l[j].1@, "completed"@));
        stays_through(l, known, answers, record, 20, 23, "completed"@);
        lemma_under(record[23], "completed"@, "terminal"@, "completed,terminal"@);
        lemma_under(record[23], "completed"@, "history,type"@, "completed,history,type"@);
        saw_either(
            l,
            known,
            answers,
            record,
            23,
            seq!["some"@, "completed,terminal"@],
            seq!["is"@, "completed,history,type"@, "archived"@],
        );
        lemma_judged_some("completed,terminal"@, record[23]);
        lemma_judged_is("completed,history,type"@, "archived"@, record[23]);
    }
}

proof fn lemma_invocation_was_exact_2(known: Tree, answers: Seq<(Tree, bool)>, record: Seq<Tree>)
    requires
        passed(EVALUATE_INVOKE@, known, answers, record),
    ensures
        at(record[33], "result,invocation"@) == said(record, 14),
        at(record[33], "result,method"@) == at(at(known, "revision"@), "id"@),
        at(record[33], "result,input"@) == at(known, "input"@),
{
    let l = EVALUATE_INVOKE@;
    reveal_strlit("result,invocation");
    reveal_strlit("result");
    reveal_strlit("reply");
    reveal_strlit("execution");
    reveal_strlit("wait_label");
    reveal_strlit("");
    reveal_strlit("waited");
    reveal_strlit("completed");
    reveal_strlit("lookup_label");
    reveal_strlit("looked");
    reveal_strlit("outputs");
    reveal_strlit("invocation");
    reveal_strlit("lookup");
    reveal_strlit("result,lookup");
    reveal_strlit("observations");
    reveal_strlit("result,observations");
    reveal_strlit("result,outputs");
    reveal_strlit("method");
    reveal_strlit("result,method");
    reveal_strlit("input");
    reveal_strlit("result,input");
    reveal_strlit("slot");
    reveal_strlit("result,slot");
    reveal_strlit("revision");
    reveal_strlit("capability");
    reveal_strlit("retained");
    reveal_strlit("publish");
    reveal_strlit("published");
    reveal_strlit("variant");
    reveal_strlit("inputs_file");
    reveal_strlit("inputs");
    reveal_strlit("id");
    reveal_strlit("revision,id");
    assert("result"@.len() == 6);
    assert("reply"@.len() == 5);
    assert("execution"@.len() == 9);
    lemma_apart("wait_label"@, "execution"@, 0);
    lemma_apart(""@, "execution"@, 0);
    lemma_apart("waited"@, "execution"@, 0);
    lemma_apart("completed"@, "execution"@, 0);
    lemma_apart("lookup_label"@, "execution"@, 0);
    lemma_apart("looked"@, "execution"@, 0);
    lemma_apart("outputs"@, "execution"@, 0);
    assert("result,invocation"@ =~= "result"@ + seq![','] + "invocation"@);
    assert("result,lookup"@ =~= "result"@ + seq![','] + "lookup"@);
    lemma_under(Tree::Null, "result"@, "lookup"@, "result,lookup"@);
    lemma_single_segment("lookup"@);
    assert("lookup"@.len() == 6);
    assert("invocation"@.len() == 10);
    assert("result,lookup"@.len() == 13);
    assert(segments("result,lookup"@)[1] == "lookup"@);
    assert("result,observations"@ =~= "result"@ + seq![','] + "observations"@);
    lemma_under(Tree::Null, "result"@, "observations"@, "result,observations"@);
    lemma_single_segment("observations"@);
    assert("observations"@.len() == 12);
    assert("result,observations"@.len() == 19);
    assert(segments("result,observations"@)[1] == "observations"@);
    assert("result,outputs"@ =~= "result"@ + seq![','] + "outputs"@);
    lemma_under(Tree::Null, "result"@, "outputs"@, "result,outputs"@);
    lemma_single_segment("outputs"@);
    assert("outputs"@.len() == 7);
    assert("result,outputs"@.len() == 14);
    assert(segments("result,outputs"@)[1] == "outputs"@);
    assert("result,method"@ =~= "result"@ + seq![','] + "method"@);
    lemma_under(Tree::Null, "result"@, "method"@, "result,method"@);
    lemma_single_segment("method"@);
    assert("method"@.len() == 6);
    assert("result,method"@.len() == 13);
    assert(segments("result,method"@)[1] == "method"@);
    assert("result,input"@ =~= "result"@ + seq![','] + "input"@);
    lemma_under(Tree::Null, "result"@, "input"@, "result,input"@);
    lemma_single_segment("input"@);
    assert("input"@.len() == 5);
    assert("result,input"@.len() == 12);
    assert(segments("result,input"@)[1] == "input"@);
    assert("result,slot"@ =~= "result"@ + seq![','] + "slot"@);
    lemma_under(Tree::Null, "result"@, "slot"@, "result,slot"@);
    lemma_single_segment("slot"@);
    assert("slot"@.len() == 4);
    assert("result,slot"@.len() == 11);
    assert(segments("result,slot"@)[1] == "slot"@);
    assert("revision"@.len() == 8);
    lemma_apart("capability"@, "revision"@, 0);
    lemma_apart(""@, "revision"@, 0);
    lemma_apart("method"@, "revision"@, 0);
    lemma_apart("retained"@, "revision"@, 2);
    lemma_apart("publish"@, "revision"@, 0);
    lemma_apart("published"@, "revision"@, 0);
    lemma_apart("variant"@, "revision"@, 0);
    lemma_apart("inputs_file"@, "revision"@, 0);
    lemma_apart("inputs"@, "revision"@, 0);
    lemma_apart("execution"@, "revision"@, 0);
    lemma_apart("wait_label"@, "revision"@, 0);
    lemma_apart("waited"@, "revision"@, 0);
    lemma_apart("completed"@, "revision"@, 0);
    lemma_apart("lookup_label"@, "revision"@, 0);
    lemma_apart("looked"@, "revision"@, 0);
    lemma_apart("outputs"@, "revision"@, 0);
    lemma_apart("result,invocation"@, "revision"@, 2);
    lemma_apart("result,lookup"@, "revision"@, 2);
    lemma_apart("result,observations"@, "revision"@, 2);
    lemma_apart("result,outputs"@, "revision"@, 2);
    assert("revision,id"@ =~= "revision"@ + seq![','] + "id"@);
    assert("input"@[0] != "reply"@[0]);
    lemma_apart("capability"@, "input"@, 0);
    lemma_apart(""@, "input"@, 0);
    lemma_apart("method"@, "input"@, 0);
    lemma_apart("retained"@, "input"@, 0);
    lemma_apart("publish"@, "input"@, 0);
    lemma_apart("published"@, "input"@, 0);
    lemma_apart("variant"@, "input"@, 0);
    lemma_apart("inputs_file"@, "input"@, 5);
    lemma_apart("inputs"@, "input"@, 5);
    lemma_apart("execution"@, "input"@, 0);
    lemma_apart("wait_label"@, "input"@, 0);
    lemma_apart("waited"@, "input"@, 0);
    lemma_apart("completed"@, "input"@, 0);
    lemma_apart("lookup_label"@, "input"@, 0);
    lemma_apart("looked"@, "input"@, 0);
    lemma_apart("outputs"@, "input"@, 0);
    lemma_apart("result,invocation"@, "input"@, 0);
    lemma_apart("result,lookup"@, "input"@, 0);
    lemma_apart("result,observations"@, "input"@, 0);
    lemma_apart("result,outputs"@, "input"@, 0);
    lemma_apart("result,method"@, "input"@, 0);
    assert(at(record[33], "result,invocation"@) == said(record, 14)) by {
        was_said(l, known, answers, record, 15);
        assert(forall|j: int|
            16 <= j < 26 ==> is_check((#[trigger] l[j]).0@) || !touches(l[j].1@, "execution"@));
        stays_through(l, known, answers, record, 16, 26, "execution"@);
        was_put(l, known, answers, record, 26);
        lemma_under(record[27], "result"@, "invocation"@, "result,invocation"@);
        stays_beside(l, known, answers, record, 27, "result"@, "invocation"@);
        stays_beside(l, known, answers, record, 28, "result"@, "invocation"@);
        stays_beside(l, known, answers, record, 29, "result"@, "invocation"@);
        stays_beside(l, known, answers, record, 30, "result"@, "invocation"@);
        stays_beside(l, known, answers, record, 31, "result"@, "invocation"@);
        stays_beside(l, known, answers, record, 32, "result"@, "invocation"@);
        lemma_under(record[33], "result"@, "invocation"@, "result,invocation"@);
    }
    assert(at(record[33], "result,method"@) == at(at(known, "revision"@), "id"@)) by {
        assert(forall|j: int|
            0 <= j < 30 ==> is_check((#[trigger] l[j]).0@) || !touches(l[j].1@, "revision"@));
        stays_through(l, known, answers, record, 0, 30, "revision"@);
        lemma_under(record[30], "revision"@, "id"@, "revision,id"@);
        was_put(l, known, answers, record, 30);
        lemma_under(record[31], "result"@, "method"@, "result,method"@);
        stays_beside(l, known, answers, record, 31, "result"@, "method"@);
        stays_beside(l, known, answers, record, 32, "result"@, "method"@);
        lemma_under(record[33], "result"@, "method"@, "result,method"@);
    }
    assert(at(record[33], "result,input"@) == at(known, "input"@)) by {
        assert(forall|j: int|
            0 <= j < 31 ==> is_check((#[trigger] l[j]).0@) || !touches(l[j].1@, "input"@));
        stays_through(l, known, answers, record, 0, 31, "input"@);
        was_put(l, known, answers, record, 31);
        lemma_under(record[32], "result"@, "input"@, "result,input"@);
        stays_beside(l, known, answers, record, 32, "result"@, "input"@);
        lemma_under(record[33], "result"@, "input"@, "result,input"@);
    }
}

proof fn lemma_invocation_was_exact_3(known: Tree, answers: Seq<(Tree, bool)>, record: Seq<Tree>)
    requires
        passed(EVALUATE_INVOKE@, known, answers, record),
    ensures
        made_variant_inputs(at(known, "input"@), said(record, 1))
            == Ok::<Tree, Seq<char>>(at(record[11], "variant"@)),
        made_observed_artifacts(at(at(said(record, 17), "value"@), "observations"@))
            == Ok::<Tree, Seq<char>>(at(record[26], "outputs"@)),
{
    let l = EVALUATE_INVOKE@;
    reveal_strlit("variant");
    reveal_strlit("variant-inputs input method");
    reveal_strlit("variant-inputs");
    reveal_strlit("input method");
    reveal_strlit("input");
    reveal_strlit("method");
    reveal_strlit("reply");
    reveal_strlit("capability");
    reveal_strlit("");
    reveal_strlit("retained");
    reveal_strlit("publish");
    reveal_strlit("published");
    reveal_strlit("outputs");
    reveal_strlit("observed-artifacts");
    reveal_strlit("completed,observations");
    reveal_strlit("observed-artifacts completed,observations");
    reveal_strlit("completed");
    reveal_strlit("waited");
    reveal_strlit("value");
    reveal_strlit("waited,value");
    reveal_strlit("lookup_label");
    reveal_strlit("looked");
    reveal_strlit("observations");
    assert("input method"@ =~= "input"@ + seq![' '] + "method"@);
    lemma_two_words("input"@, "method"@, "input method"@);
    assert("variant-inputs input method"@ =~= "variant-inputs"@ + seq![' '] + "input method"@);
    lemma_four_words("variant-inputs"@, "input method"@, "variant-inputs input method"@);
    assert(parts("variant-inputs input method"@) =~= seq!["variant-inputs"@, "input"@, "method"@]);
    assert("input"@.len() == 5);
    assert("input"@[0] != "reply"@[0]);
    lemma_apart("capability"@, "input"@, 0);
    lemma_apart(""@, "input"@, 0);
    lemma_apart("method"@, "input"@, 0);
    lemma_apart("retained"@, "input"@, 0);
    lemma_apart("publish"@, "input"@, 0);
    lemma_apart("published"@, "input"@, 0);
    assert("method"@.len() == 6);
    assert("reply"@.len() == 5);
    lemma_apart(""@, "method"@, 0);
    lemma_apart("retained"@, "method"@, 0);
    lemma_apart("publish"@, "method"@, 0);
    lemma_apart("published"@, "method"@, 0);
    assert(parts("variant-inputs input method"@).skip(1) =~= seq!["input"@, "method"@]);
    assert(
        "observed-artifacts completed,observations"@
            =~= "observed-artifacts"@ + seq![' '] + "completed,observations"@
    );
    lemma_two_words(
        "observed-artifacts"@,
        "completed,observations"@,
        "observed-artifacts completed,observations"@,
    );
    assert(
        parts("observed-artifacts completed,observations"@)
            =~= seq!["observed-artifacts"@, "completed,observations"@]
    );
    assert("completed,observations"@.len() == 22);
    assert("completed"@.len() == 9);
    assert("waited"@.len() == 6);
    assert("waited,value"@ =~= "waited"@ + seq![','] + "value"@);
    lemma_apart("lookup_label"@, "completed"@, 0);
    lemma_apart(""@, "completed"@, 0);
    lemma_apart("looked"@, "completed"@, 0);
    assert("completed,observations"@ =~= "completed"@ + seq![','] + "observations"@);
    assert(
        parts("observed-artifacts completed,observations"@).skip(1)
            =~= seq!["completed,observations"@]
    );
    assert(made_variant_inputs(at(known, "input"@), said(record, 1))
            == Ok::<Tree, Seq<char>>(at(record[11], "variant"@))) by {
        was_made(l, known, answers, record, 10);
        assert(forall|j: int|
            0 <= j < 10 ==> is_check((#[trigger] l[j]).0@) || !touches(l[j].1@, "input"@));
        stays_through(l, known, answers, record, 0, 10, "input"@);
        was_said(l, known, answers, record, 2);
        assert(forall|j: int|
            3 <= j < 10 ==> is_check((#[trigger] l[j]).0@) || !touches(l[j].1@, "method"@));
        stays_through(l, known, answers, record, 3, 10, "method"@);
        let args10 = arguments(parts("variant-inputs input method"@).skip(1), record[10]);
        assert(args10 =~= seq![at(known, "input"@), said(record, 1)]);
        makes_variant_inputs(args10, record[10]);
    }
    assert(made_observed_artifacts(at(at(said(record, 17), "value"@), "observations"@))
            == Ok::<Tree, Seq<char>>(at(record[26], "outputs"@))) by {
        was_made(l, known, answers, record, 25);
        was_kept(l, known, answers, record, 19);
        was_said(l, known, answers, record, 18);
        lemma_under(record[19], "waited"@, "value"@, "waited,value"@);
        assert(forall|j: int|
            20 <= j < 25 ==> is_check((#[trigger] l[j]).0@) || !touches(l[j].1@, "completed"@));
        stays_through(l, known, answers, record, 20, 25, "completed"@);
        lemma_under(record[25], "completed"@, "observations"@, "completed,observations"@);
        let args25 = arguments(
            parts("observed-artifacts completed,observations"@).skip(1),
            record[25],
        );
        assert(args25 =~= seq![at(at(said(record, 17), "value"@), "observations"@)]);
        makes_observed_artifacts(args25, record[25]);
    }
}

/// A method is invoked only where the publication is of its revision and its slot, and its result
/// is complete, or archived, and names the revision and the input.
pub proof fn invocation_was_exact(known: Tree, answers: Seq<(Tree, bool)>) -> (record: Seq<Tree>)
    requires
        known is Object,
        finished(EVALUATE_INVOKE@, known, answers),
    ensures
        passed(EVALUATE_INVOKE@, known, answers, record),
        EVALUATE_INVOKE@[1].2@ == "retained-method $files,method"@,
        at(said(record, 1), "revision"@) == at(at(known, "revision"@), "id"@),
        at(said(record, 1), "descriptor,identity"@) == at(at(known, "slot"@), "capability"@),
        EVALUATE_INVOKE@[17].2@
            == "call $wait_label observation operator invocation wait $execution"@,
        at(at(said(record, 17), "value"@), "terminal"@) != Tree::Null
            || at(at(said(record, 17), "value"@), "history,type"@) == Tree::Text("archived"@),
        EVALUATE_INVOKE@[14].2@ == "invoke $key $capability method.invoke $inputs operator"@,
        at(record[33], "result,invocation"@) == said(record, 14),
        at(record[33], "result,method"@) == at(at(known, "revision"@), "id"@),
        at(record[33], "result,input"@) == at(known, "input"@),
        made_variant_inputs(at(known, "input"@), said(record, 1))
            == Ok::<Tree, Seq<char>>(at(record[11], "variant"@)),
        made_observed_artifacts(at(at(said(record, 17), "value"@), "observations"@))
            == Ok::<Tree, Seq<char>>(at(record[26], "outputs"@)),
{
    let record = finished_scenarios_are_recorded(EVALUATE_INVOKE@, known, answers);
    lemma_invocation_was_exact_1(known, answers, record);
    lemma_invocation_was_exact_2(known, answers, record);
    lemma_invocation_was_exact_3(known, answers, record);
    record
}

proof fn lemma_comparison_was_requested(known: Tree, answers: Seq<(Tree, bool)>, record: Seq<Tree>)
    requires
        passed(EVALUATE_COMPARED@, known, answers, record),
    ensures
        at(record[12], "unauthorized,revision"@) == at(at(known, "revised"@), "id"@),
        at(record[12], "unauthorized,descriptor,descriptor_revision"@) == Tree::Integer(2),
        at(record[20], "request,type"@) == Tree::Text("auto_promote"@),
        at(record[20], "request,comparison,command"@) == at(at(known, "keys"@), "comparison"@),
{
    let l = EVALUATE_COMPARED@;
    reveal_strlit("unauthorized,revision");
    reveal_strlit("unauthorized");
    reveal_strlit("reply");
    reveal_strlit("revised");
    reveal_strlit("compare,type");
    reveal_strlit("compare,declaration,actor");
    reveal_strlit("compare,declaration,command");
    reveal_strlit("compare,candidate,actor");
    reveal_strlit("compare,candidate,command");
    reveal_strlit("");
    reveal_strlit("comparison");
    reveal_strlit("id");
    reveal_strlit("revised,id");
    reveal_strlit("revision");
    reveal_strlit("descriptor,descriptor_revision");
    reveal_strlit("unauthorized,descriptor,descriptor_revision");
    reveal_strlit("descriptor");
    reveal_strlit("descriptor_revision");
    reveal_strlit("2");
    reveal_strlit("request,type");
    reveal_strlit("request");
    reveal_strlit("type");
    reveal_strlit("policy,actor");
    reveal_strlit("request,policy,actor");
    reveal_strlit("policy");
    reveal_strlit("actor");
    reveal_strlit("policy,command");
    reveal_strlit("request,policy,command");
    reveal_strlit("command");
    reveal_strlit("comparison,actor");
    reveal_strlit("request,comparison,actor");
    reveal_strlit("comparison,command");
    reveal_strlit("request,comparison,command");
    reveal_strlit("keys");
    reveal_strlit("publication");
    reveal_strlit("refusal");
    reveal_strlit("keys,comparison");
    assert("unauthorized"@.len() == 12);
    assert("reply"@.len() == 5);
    assert("revised"@.len() == 7);
    lemma_apart("compare,type"@, "revised"@, 0);
    lemma_apart("compare,declaration,actor"@, "revised"@, 0);
    lemma_apart("compare,declaration,command"@, "revised"@, 0);
    lemma_apart("compare,candidate,actor"@, "revised"@, 0);
    lemma_apart("compare,candidate,command"@, "revised"@, 0);
    lemma_apart(""@, "revised"@, 0);
    lemma_apart("comparison"@, "revised"@, 0);
    lemma_apart("unauthorized"@, "revised"@, 0);
    assert("revised,id"@ =~= "revised"@ + seq![','] + "id"@);
    assert("unauthorized,revision"@ =~= "unauthorized"@ + seq![','] + "revision"@);
    assert(
        "unauthorized,descriptor,descriptor_revision"@
            =~= "unauthorized"@ + seq![','] + "descriptor,descriptor_revision"@
    );
    lemma_under(
        Tree::Null,
        "unauthorized"@,
        "descriptor,descriptor_revision"@,
        "unauthorized,descriptor,descriptor_revision"@,
    );
    assert(
        "descriptor,descriptor_revision"@ =~= "descriptor"@ + seq![','] + "descriptor_revision"@
    );
    lemma_under(
        Tree::Null,
        "descriptor"@,
        "descriptor_revision"@,
        "descriptor,descriptor_revision"@,
    );
    assert("descriptor"@.len() == 10);
    assert("revision"@.len() == 8);
    assert("unauthorized,descriptor,descriptor_revision"@.len() == 43);
    assert(segments("unauthorized,descriptor,descriptor_revision"@)[1] == "descriptor"@);
    lemma_apart(""@, "unauthorized"@, 0);
    lemma_one_digit("2"@);
    assert(number_of("2"@) == Some(2u64));
    assert("request"@.len() == 7);
    assert("request,type"@ =~= "request"@ + seq![','] + "type"@);
    assert("request,policy,actor"@ =~= "request"@ + seq![','] + "policy,actor"@);
    lemma_under(Tree::Null, "request"@, "policy,actor"@, "request,policy,actor"@);
    assert("policy,actor"@ =~= "policy"@ + seq![','] + "actor"@);
    lemma_under(Tree::Null, "policy"@, "actor"@, "policy,actor"@);
    assert("policy"@.len() == 6);
    assert("type"@.len() == 4);
    assert("request,policy,actor"@.len() == 20);
    assert(segments("request,policy,actor"@)[1] == "policy"@);
    assert("request,policy,command"@ =~= "request"@ + seq![','] + "policy,command"@);
    lemma_under(Tree::Null, "request"@, "policy,command"@, "request,policy,command"@);
    assert("policy,command"@ =~= "policy"@ + seq![','] + "command"@);
    lemma_under(Tree::Null, "policy"@, "command"@, "policy,command"@);
    assert("request,policy,command"@.len() == 22);
    assert(segments("request,policy,command"@)[1] == "policy"@);
    assert("request,comparison,actor"@ =~= "request"@ + seq![','] + "comparison,actor"@);
    lemma_under(Tree::Null, "request"@, "comparison,actor"@, "request,comparison,actor"@);
    assert("comparison,actor"@ =~= "comparison"@ + seq![','] + "actor"@);
    lemma_under(Tree::Null, "comparison"@, "actor"@, "comparison,actor"@);
    assert("comparison"@.len() == 10);
    assert("request,comparison,actor"@.len() == 24);
    assert(segments("request,comparison,actor"@)[1] == "comparison"@);
    assert("request,comparison,command"@ =~= "request"@ + seq![','] + "comparison,command"@);
    lemma_under(Tree::Null, "request"@, "comparison,command"@, "request,comparison,command"@);
    assert("comparison,command"@ =~= "comparison"@ + seq![','] + "command"@);
    lemma_under(Tree::Null, "comparison"@, "command"@, "comparison,command"@);
    assert("request,comparison,command"@.len() == 26);
    assert(segments("request,comparison,command"@)[1] == "comparison"@);
    assert("keys"@.len() == 4);
    lemma_apart("compare,type"@, "keys"@, 0);
    lemma_apart("compare,declaration,actor"@, "keys"@, 0);
    lemma_apart("compare,declaration,command"@, "keys"@, 0);
    lemma_apart("compare,candidate,actor"@, "keys"@, 0);
    lemma_apart("compare,candidate,command"@, "keys"@, 0);
    lemma_apart(""@, "keys"@, 0);
    lemma_apart("comparison"@, "keys"@, 0);
    lemma_apart("unauthorized"@, "keys"@, 0);
    lemma_apart("unauthorized,revision"@, "keys"@, 0);
    lemma_apart("unauthorized,descriptor,descriptor_revision"@, "keys"@, 0);
    lemma_apart("publication"@, "keys"@, 0);
    lemma_apart("refusal"@, "keys"@, 0);
    lemma_apart("request,type"@, "keys"@, 0);
    lemma_apart("request,policy,actor"@, "keys"@, 0);
    lemma_apart("request,policy,command"@, "keys"@, 0);
    lemma_apart("request,comparison,actor"@, "keys"@, 0);
    assert("keys,comparison"@ =~= "keys"@ + seq![','] + "comparison"@);
    assert(at(record[12], "unauthorized,revision"@) == at(at(known, "revised"@), "id"@)) by {
        assert(forall|j: int|
            0 <= j < 9 ==> is_check((#[trigger] l[j]).0@) || !touches(l[j].1@, "revised"@));
        stays_through(l, known, answers, record, 0, 9, "revised"@);
        lemma_under(record[9], "revised"@, "id"@, "revised,id"@);
        was_put(l, known, answers, record, 9);
        lemma_under(record[10], "unauthorized"@, "revision"@, "unauthorized,revision"@);
        stays_beside(l, known, answers, record, 10, "unauthorized"@, "revision"@);
        stays(l, known, answers, record, 11, "unauthorized"@);
        lemma_under(record[12], "unauthorized"@, "revision"@, "unauthorized,revision"@);
    }
    assert(at(record[12], "unauthorized,descriptor,descriptor_revision"@) == Tree::Integer(2)) by {
        was_counted(l, known, answers, record, 10, 2);
        lemma_under(
            record[11],
            "unauthorized"@,
            "descriptor,descriptor_revision"@,
            "unauthorized,descriptor,descriptor_revision"@,
        );
        stays(l, known, answers, record, 11, "unauthorized"@);
        lemma_under(
            record[12],
            "unauthorized"@,
            "descriptor,descriptor_revision"@,
            "unauthorized,descriptor,descriptor_revision"@,
        );
        lemma_under(
            at(record[11], "unauthorized"@),
            "descriptor"@,
            "descriptor_revision"@,
            "descriptor,descriptor_revision"@,
        );
        lemma_under(
            at(record[12], "unauthorized"@),
            "descriptor"@,
            "descriptor_revision"@,
            "descriptor,descriptor_revision"@,
        );
    }
    assert(at(record[20], "request,type"@) == Tree::Text("auto_promote"@)) by {
        was_worded(l, known, answers, record, 15);
        lemma_under(record[16], "request"@, "type"@, "request,type"@);
        stays_beside(l, known, answers, record, 16, "request"@, "type"@);
        stays_beside(l, known, answers, record, 17, "request"@, "type"@);
        stays_beside(l, known, answers, record, 18, "request"@, "type"@);
        stays_beside(l, known, answers, record, 19, "request"@, "type"@);
        lemma_under(record[20], "request"@, "type"@, "request,type"@);
    }
    assert(at(record[20], "request,comparison,command"@) == at(at(known, "keys"@), "comparison"@)) by {
        assert(forall|j: int|
            0 <= j < 19 ==> is_check((#[trigger] l[j]).0@) || !touches(l[j].1@, "keys"@));
        stays_through(l, known, answers, record, 0, 19, "keys"@);
        lemma_under(record[19], "keys"@, "comparison"@, "keys,comparison"@);
        was_put(l, known, answers, record, 19);
        lemma_under(record[20], "request"@, "comparison,command"@, "request,comparison,command"@);
    }
}

/// Both arms are compared, and what the evaluator may not publish itself and the learner may not
/// promote is the very revision and the very comparison of the attempt.
pub proof fn comparison_was_requested(
    known: Tree,
    answers: Seq<(Tree, bool)>,
) -> (record: Seq<Tree>)
    requires
        known is Object,
        finished(EVALUATE_COMPARED@, known, answers),
    ensures
        passed(EVALUATE_COMPARED@, known, answers, record),
        at(record[12], "unauthorized,revision"@) == at(at(known, "revised"@), "id"@),
        at(record[12], "unauthorized,descriptor,descriptor_revision"@) == Tree::Integer(2),
        at(record[20], "request,type"@) == Tree::Text("auto_promote"@),
        at(record[20], "request,comparison,command"@) == at(at(known, "keys"@), "comparison"@),
{
    let record = finished_scenarios_are_recorded(EVALUATE_COMPARED@, known, answers);
    lemma_comparison_was_requested(known, answers, record);
    record
}

proof fn lemma_promotion_was_replayed(known: Tree, answers: Seq<(Tree, bool)>, record: Seq<Tree>)
    requires
        passed(EVALUATE_PROMOTED@, known, answers, record),
    ensures
        said(record, 0) == said(record, 4),
{
    let l = EVALUATE_PROMOTED@;
    reveal_strlit("promoted");
    reveal_strlit("reply");
    reveal_strlit("");
    reveal_strlit("restarted");
    reveal_strlit("replay");
    assert("promoted"@.len() == 8);
    assert("reply"@.len() == 5);
    lemma_apart(""@, "promoted"@, 0);
    lemma_apart("restarted"@, "promoted"@, 0);
    lemma_apart("replay"@, "promoted"@, 0);
    assert("replay"@.len() == 6);
    assert(said(record, 0) == said(record, 4)) by {
        was_said(l, known, answers, record, 1);
        assert(forall|j: int|
            2 <= j < 6 ==> is_check((#[trigger] l[j]).0@) || !touches(l[j].1@, "promoted"@));
        stays_through(l, known, answers, record, 2, 6, "promoted"@);
        was_said(l, known, answers, record, 5);
        saw_same(l, known, answers, record, 6);
    }
}

/// A promotion gives the same result again after a restart.
pub proof fn promotion_was_replayed(known: Tree, answers: Seq<(Tree, bool)>) -> (record: Seq<Tree>)
    requires
        known is Object,
        finished(EVALUATE_PROMOTED@, known, answers),
    ensures
        passed(EVALUATE_PROMOTED@, known, answers, record),
        EVALUATE_PROMOTED@[0].2@ == "command $keys,promotion success evaluator request"@,
        EVALUATE_PROMOTED@[4].2@ == "command $keys,promotion success evaluator request"@,
        said(record, 0) == said(record, 4),
{
    let record = finished_scenarios_are_recorded(EVALUATE_PROMOTED@, known, answers);
    lemma_promotion_was_replayed(known, answers, record);
    record
}

proof fn lemma_refusal_was_replayed(known: Tree, answers: Seq<(Tree, bool)>, record: Seq<Tree>)
    requires
        passed(EVALUATE_NOT_PROMOTED@, known, answers, record),
    ensures
        said(record, 0) == said(record, 4),
{
    let l = EVALUATE_NOT_PROMOTED@;
    reveal_strlit("promoted");
    reveal_strlit("reply");
    reveal_strlit("");
    reveal_strlit("restarted");
    reveal_strlit("replay");
    assert("promoted"@.len() == 8);
    assert("reply"@.len() == 5);
    lemma_apart(""@, "promoted"@, 0);
    lemma_apart("restarted"@, "promoted"@, 0);
    lemma_apart("replay"@, "promoted"@, 0);
    assert("replay"@.len() == 6);
    assert(said(record, 0) == said(record, 4)) by {
        was_said(l, known, answers, record, 1);
        assert(forall|j: int|
            2 <= j < 6 ==> is_check((#[trigger] l[j]).0@) || !touches(l[j].1@, "promoted"@));
        stays_through(l, known, answers, record, 2, 6, "promoted"@);
        was_said(l, known, answers, record, 5);
        saw_same(l, known, answers, record, 6);
    }
}

/// A refused promotion gives the same refusal again after a restart.
pub proof fn refusal_was_replayed(known: Tree, answers: Seq<(Tree, bool)>) -> (record: Seq<Tree>)
    requires
        known is Object,
        finished(EVALUATE_NOT_PROMOTED@, known, answers),
    ensures
        passed(EVALUATE_NOT_PROMOTED@, known, answers, record),
        EVALUATE_NOT_PROMOTED@[0].2@ == "command $keys,promotion refused evaluator request"@,
        EVALUATE_NOT_PROMOTED@[4].2@ == "command $keys,promotion refused evaluator request"@,
        said(record, 0) == said(record, 4),
{
    let record = finished_scenarios_are_recorded(EVALUATE_NOT_PROMOTED@, known, answers);
    lemma_refusal_was_replayed(known, answers, record);
    record
}

proof fn lemma_report_was_retained(known: Tree, answers: Seq<(Tree, bool)>, record: Seq<Tree>)
    requires
        passed(EVALUATE_RETAINED@, known, answers, record),
    ensures
        at(at(known, "report"@), "comparison"@) == at(known, "comparison"@),
        at(at(known, "report"@), "selected_method"@) == at(at(known, "selected"@), "id"@),
        at(at(known, "report"@), "declaration,actor"@) == Tree::Text("human:learning-operator"@),
        at(at(known, "report"@), "declaration,command"@) == at(at(known, "keys"@), "declare"@),
        key_count(at(at(known, "report"@), "declaration"@)) == 2,
{
    let l = EVALUATE_RETAINED@;
    reveal_strlit("report");
    reveal_strlit("reply");
    reveal_strlit("comparison");
    reveal_strlit("report,comparison");
    reveal_strlit("selected_method");
    reveal_strlit("report,selected_method");
    reveal_strlit("selected");
    reveal_strlit("id");
    reveal_strlit("selected,id");
    reveal_strlit("declaration,actor");
    reveal_strlit("report,declaration,actor");
    reveal_strlit("declaration,command");
    reveal_strlit("report,declaration,command");
    reveal_strlit("keys");
    reveal_strlit("declare");
    reveal_strlit("keys,declare");
    reveal_strlit("2");
    reveal_strlit("declaration");
    reveal_strlit("report,declaration");
    assert("report"@.len() == 6);
    assert("reply"@.len() == 5);
    assert("report,comparison"@ =~= "report"@ + seq![','] + "comparison"@);
    assert("comparison"@.len() == 10);
    assert("report,selected_method"@ =~= "report"@ + seq![','] + "selected_method"@);
    assert("selected"@.len() == 8);
    assert("selected,id"@ =~= "selected"@ + seq![','] + "id"@);
    assert("report,declaration,actor"@ =~= "report"@ + seq![','] + "declaration,actor"@);
    assert("report,declaration,command"@ =~= "report"@ + seq![','] + "declaration,command"@);
    assert("keys"@.len() == 4);
    assert("keys,declare"@ =~= "keys"@ + seq![','] + "declare"@);
    lemma_one_digit("2"@);
    assert(number_of("2"@) == Some(2u64));
    assert("report,declaration"@ =~= "report"@ + seq![','] + "declaration"@);
    assert(at(at(known, "report"@), "comparison"@) == at(known, "comparison"@)) by {
        lemma_under(record[0], "report"@, "comparison"@, "report,comparison"@);
        saw_same(l, known, answers, record, 0);
    }
    assert(at(at(known, "report"@), "selected_method"@) == at(at(known, "selected"@), "id"@)) by {
        unchanged(l, known, answers, record, 0);
        lemma_under(record[1], "report"@, "selected_method"@, "report,selected_method"@);
        lemma_under(record[1], "selected"@, "id"@, "selected,id"@);
        saw_same(l, known, answers, record, 1);
    }
    assert(at(at(known, "report"@), "declaration,actor"@) == Tree::Text("human:learning-operator"@)) by {
        unchanged(l, known, answers, record, 0);
        unchanged(l, known, answers, record, 1);
        lemma_under(record[2], "report"@, "declaration,actor"@, "report,declaration,actor"@);
        saw_is(l, known, answers, record, 2);
    }
    assert(at(at(known, "report"@), "declaration,command"@) == at(at(known, "keys"@), "declare"@)) by {
        unchanged(l, known, answers, record, 0);
        unchanged(l, known, answers, record, 1);
        unchanged(l, known, answers, record, 2);
        lemma_under(record[3], "report"@, "declaration,command"@, "report,declaration,command"@);
        lemma_under(record[3], "keys"@, "declare"@, "keys,declare"@);
        saw_same(l, known, answers, record, 3);
    }
    assert(key_count(at(at(known, "report"@), "declaration"@)) == 2) by {
        assert(forall|j: int|
            0 <= j < 4 ==> is_check((#[trigger] l[j]).0@) || !touches(l[j].1@, "report"@));
        stays_through(l, known, answers, record, 0, 4, "report"@);
        lemma_under(record[4], "report"@, "declaration"@, "report,declaration"@);
        saw_keys(l, known, answers, record, 4, 2);
    }
}

/// A retained report is accepted again only where it is of this comparison, this method and this
/// declaration.
pub proof fn report_was_retained(known: Tree, answers: Seq<(Tree, bool)>) -> (record: Seq<Tree>)
    requires
        known is Object,
        finished(EVALUATE_RETAINED@, known, answers),
    ensures
        passed(EVALUATE_RETAINED@, known, answers, record),
        at(at(known, "report"@), "comparison"@) == at(known, "comparison"@),
        at(at(known, "report"@), "selected_method"@) == at(at(known, "selected"@), "id"@),
        at(at(known, "report"@), "declaration,actor"@) == Tree::Text("human:learning-operator"@),
        at(at(known, "report"@), "declaration,command"@) == at(at(known, "keys"@), "declare"@),
        key_count(at(at(known, "report"@), "declaration"@)) == 2,
{
    let record = finished_scenarios_are_recorded(EVALUATE_RETAINED@, known, answers);
    lemma_report_was_retained(known, answers, record);
    record
}

proof fn lemma_variant_was_selected(known: Tree, answers: Seq<(Tree, bool)>, record: Seq<Tree>)
    requires
        passed(EVALUATE_SELECTED@, known, answers, record),
    ensures
        at(at(known, "result"@), "method"@) == at(at(known, "selected"@), "id"@),
        at(at(known, "result"@), "input"@) == at(known, "input"@),
{
    let l = EVALUATE_SELECTED@;
    reveal_strlit("result");
    reveal_strlit("reply");
    reveal_strlit("method");
    reveal_strlit("result,method");
    reveal_strlit("selected");
    reveal_strlit("id");
    reveal_strlit("selected,id");
    reveal_strlit("input");
    reveal_strlit("result,input");
    assert("result"@.len() == 6);
    assert("reply"@.len() == 5);
    assert("result,method"@ =~= "result"@ + seq![','] + "method"@);
    assert("selected"@.len() == 8);
    assert("selected,id"@ =~= "selected"@ + seq![','] + "id"@);
    assert("result,input"@ =~= "result"@ + seq![','] + "input"@);
    assert("input"@[0] != "reply"@[0]);
    assert(at(at(known, "result"@), "method"@) == at(at(known, "selected"@), "id"@)) by {
        lemma_under(record[0], "result"@, "method"@, "result,method"@);
        lemma_under(record[0], "selected"@, "id"@, "selected,id"@);
        saw_same(l, known, answers, record, 0);
    }
    assert(at(at(known, "result"@), "input"@) == at(known, "input"@)) by {
        unchanged(l, known, answers, record, 0);
        lemma_under(record[1], "result"@, "input"@, "result,input"@);
        saw_same(l, known, answers, record, 1);
    }
}

/// A variant is gone on with only where it belongs to the selected method and its own input.
pub proof fn variant_was_selected(known: Tree, answers: Seq<(Tree, bool)>) -> (record: Seq<Tree>)
    requires
        known is Object,
        finished(EVALUATE_SELECTED@, known, answers),
    ensures
        passed(EVALUATE_SELECTED@, known, answers, record),
        at(at(known, "result"@), "method"@) == at(at(known, "selected"@), "id"@),
        at(at(known, "result"@), "input"@) == at(known, "input"@),
{
    let record = finished_scenarios_are_recorded(EVALUATE_SELECTED@, known, answers);
    lemma_variant_was_selected(known, answers, record);
    record
}

proof fn lemma_variant_was_verified(known: Tree, answers: Seq<(Tree, bool)>, record: Seq<Tree>)
    requires
        passed(EVALUATE_VARIANT@, known, answers, record),
    ensures
        at(at(said(record, 2), "evaluation"@), "subject"@)
            == at(at(said(record, 7), "evaluation"@), "subject"@),
        at(at(said(record, 7), "evaluation"@), "complete"@) == Tree::Bool(true),
        every_element(
            items_of(at(at(said(record, 7), "evaluation"@), "checks"@)),
            "passed"@,
            Tree::Bool(true),
        ),
        at(at(said(record, 7), "evaluation"@), "subject,target"@)
            == at(at(known, "slot"@), "target"@),
{
    let l = EVALUATE_VARIANT@;
    reveal_strlit("receipt");
    reveal_strlit("reply");
    reveal_strlit("document");
    reveal_strlit("evaluation");
    reveal_strlit("document,evaluation");
    reveal_strlit("receipt_id");
    reveal_strlit("variant_target");
    reveal_strlit("");
    reveal_strlit("read");
    reveal_strlit("subject");
    reveal_strlit("receipt,subject");
    reveal_strlit("read,evaluation");
    reveal_strlit("evaluation,subject");
    reveal_strlit("complete");
    reveal_strlit("evaluation,complete");
    reveal_strlit("checks");
    reveal_strlit("evaluation,checks");
    reveal_strlit("true");
    reveal_strlit("passed");
    reveal_strlit("true passed");
    reveal_strlit("else");
    reveal_strlit("plus");
    reveal_strlit("subject,target");
    reveal_strlit("evaluation,subject,target");
    reveal_strlit("slot");
    reveal_strlit("evaluation_output");
    reveal_strlit("target");
    reveal_strlit("slot,target");
    assert("receipt"@.len() == 7);
    assert("reply"@.len() == 5);
    assert("document"@.len() == 8);
    assert("document,evaluation"@ =~= "document"@ + seq![','] + "evaluation"@);
    lemma_apart("receipt_id"@, "receipt"@, 7);
    lemma_apart("variant_target"@, "receipt"@, 0);
    lemma_apart(""@, "receipt"@, 0);
    lemma_apart("read"@, "receipt"@, 2);
    lemma_apart("evaluation"@, "receipt"@, 0);
    assert("receipt,subject"@ =~= "receipt"@ + seq![','] + "subject"@);
    assert("evaluation"@.len() == 10);
    assert("read"@.len() == 4);
    assert("read,evaluation"@ =~= "read"@ + seq![','] + "evaluation"@);
    assert("evaluation,subject"@ =~= "evaluation"@ + seq![','] + "subject"@);
    assert("evaluation,complete"@ =~= "evaluation"@ + seq![','] + "complete"@);
    assert("evaluation,checks"@ =~= "evaluation"@ + seq![','] + "checks"@);
    assert("true passed"@ =~= "true"@ + seq![' '] + "passed"@);
    lemma_two_words("true"@, "passed"@, "true passed"@);
    assert("passed"@.len() == 6);
    assert("else"@.len() == 4);
    assert("plus"@.len() == 4);
    assert("evaluation,subject,target"@ =~= "evaluation"@ + seq![','] + "subject,target"@);
    assert("slot"@.len() == 4);
    lemma_apart("evaluation_output"@, "slot"@, 0);
    lemma_apart(""@, "slot"@, 0);
    lemma_apart("document"@, "slot"@, 0);
    lemma_apart("receipt"@, "slot"@, 0);
    lemma_apart("receipt_id"@, "slot"@, 0);
    lemma_apart("variant_target"@, "slot"@, 0);
    lemma_apart("read"@, "slot"@, 0);
    lemma_apart("evaluation"@, "slot"@, 0);
    assert("slot,target"@ =~= "slot"@ + seq![','] + "target"@);
    assert(at(at(said(record, 2), "evaluation"@), "subject"@)
            == at(at(said(record, 7), "evaluation"@), "subject"@)) by {
        was_kept(l, known, answers, record, 4);
        was_said(l, known, answers, record, 3);
        lemma_under(record[4], "document"@, "evaluation"@, "document,evaluation"@);
        assert(forall|j: int|
            5 <= j < 10 ==> is_check((#[trigger] l[j]).0@) || !touches(l[j].1@, "receipt"@));
        stays_through(l, known, answers, record, 5, 10, "receipt"@);
        lemma_under(record[10], "receipt"@, "subject"@, "receipt,subject"@);
        was_kept(l, known, answers, record, 9);
        was_said(l, known, answers, record, 8);
        lemma_under(record[9], "read"@, "evaluation"@, "read,evaluation"@);
        lemma_under(record[10], "evaluation"@, "subject"@, "evaluation,subject"@);
        saw_same(l, known, answers, record, 10);
    }
    assert(at(at(said(record, 7), "evaluation"@), "complete"@) == Tree::Bool(true)) by {
        was_kept(l, known, answers, record, 9);
        was_said(l, known, answers, record, 8);
        lemma_under(record[9], "read"@, "evaluation"@, "read,evaluation"@);
        unchanged(l, known, answers, record, 10);
        lemma_under(record[11], "evaluation"@, "complete"@, "evaluation,complete"@);
        saw_true(l, known, answers, record, 11);
    }
    assert(every_element(
            items_of(at(at(said(record, 7), "evaluation"@), "checks"@)),
            "passed"@,
            Tree::Bool(true),
        )) by {
        was_kept(l, known, answers, record, 9);
        was_said(l, known, answers, record, 8);
        lemma_under(record[9], "read"@, "evaluation"@, "read,evaluation"@);
        unchanged(l, known, answers, record, 10);
        unchanged(l, known, answers, record, 11);
        lemma_under(record[12], "evaluation"@, "checks"@, "evaluation,checks"@);
        saw_each(l, known, answers, record, 12, "passed"@);
    }
    assert(at(at(said(record, 7), "evaluation"@), "subject,target"@)
            == at(at(known, "slot"@), "target"@)) by {
        was_kept(l, known, answers, record, 9);
        was_said(l, known, answers, record, 8);
        lemma_under(record[9], "read"@, "evaluation"@, "read,evaluation"@);
        unchanged(l, known, answers, record, 10);
        unchanged(l, known, answers, record, 11);
        unchanged(l, known, answers, record, 12);
        lemma_under(record[13], "evaluation"@, "subject,target"@, "evaluation,subject,target"@);
        assert(forall|j: int|
            0 <= j < 13 ==> is_check((#[trigger] l[j]).0@) || !touches(l[j].1@, "slot"@));
        stays_through(l, known, answers, record, 0, 13, "slot"@);
        lemma_under(record[13], "slot"@, "target"@, "slot,target"@);
        saw_same(l, known, answers, record, 13);
    }
}

/// A variant is accepted only where its receipt and the private evidence have one subject, which is
/// the slot's target, and the evidence is complete with every check passed.
pub proof fn variant_was_verified(known: Tree, answers: Seq<(Tree, bool)>) -> (record: Seq<Tree>)
    requires
        known is Object,
        finished(EVALUATE_VARIANT@, known, answers),
    ensures
        passed(EVALUATE_VARIANT@, known, answers, record),
        EVALUATE_VARIANT@[2].2@
            == "output-once $labels,output result,invocation evaluation_output,identity $paths,evaluation"@,
        EVALUATE_VARIANT@[7].2@
            == "resource $labels,evidence success $variant_target 0 evidence --evaluation $receipt_id"@,
        at(at(said(record, 2), "evaluation"@), "subject"@)
            == at(at(said(record, 7), "evaluation"@), "subject"@),
        at(at(said(record, 7), "evaluation"@), "complete"@) == Tree::Bool(true),
        every_element(
            items_of(at(at(said(record, 7), "evaluation"@), "checks"@)),
            "passed"@,
            Tree::Bool(true),
        ),
        at(at(said(record, 7), "evaluation"@), "subject,target"@)
            == at(at(known, "slot"@), "target"@),
{
    let record = finished_scenarios_are_recorded(EVALUATE_VARIANT@, known, answers);
    lemma_variant_was_verified(known, answers, record);
    record
}

proof fn lemma_selected_variant_was_deployed_1(
    known: Tree,
    answers: Seq<(Tree, bool)>,
    record: Seq<Tree>,
)
    requires
        passed(EVALUATE_DEPLOYED@, known, answers, record),
    ensures
        at(at(known, "first"@), "invocation"@) != at(at(known, "second"@), "invocation"@),
        at(at(known, "first_slot"@), "worker"@) != at(at(known, "second_slot"@), "worker"@),
        at(at(known, "first_slot"@), "application"@)
            != at(at(known, "second_slot"@), "application"@),
        at(said(record, 13), "desired_running"@) == Tree::Bool(true),
{
    let l = EVALUATE_DEPLOYED@;
    reveal_strlit("first");
    reveal_strlit("reply");
    reveal_strlit("invocation");
    reveal_strlit("first,invocation");
    reveal_strlit("second");
    reveal_strlit("second,invocation");
    reveal_strlit("first_slot");
    reveal_strlit("worker");
    reveal_strlit("first_slot,worker");
    reveal_strlit("second_slot");
    reveal_strlit("second_slot,worker");
    reveal_strlit("application");
    reveal_strlit("first_slot,application");
    reveal_strlit("second_slot,application");
    reveal_strlit("observed");
    reveal_strlit("desired_running");
    reveal_strlit("observed,desired_running");
    assert("first"@[0] != "reply"@[0]);
    assert("first,invocation"@ =~= "first"@ + seq![','] + "invocation"@);
    assert("second"@.len() == 6);
    assert("reply"@.len() == 5);
    assert("second,invocation"@ =~= "second"@ + seq![','] + "invocation"@);
    assert("first_slot"@.len() == 10);
    assert("first_slot,worker"@ =~= "first_slot"@ + seq![','] + "worker"@);
    assert("second_slot"@.len() == 11);
    assert("second_slot,worker"@ =~= "second_slot"@ + seq![','] + "worker"@);
    assert("first_slot,application"@ =~= "first_slot"@ + seq![','] + "application"@);
    assert("second_slot,application"@ =~= "second_slot"@ + seq![','] + "application"@);
    assert("observed"@.len() == 8);
    assert("observed,desired_running"@ =~= "observed"@ + seq![','] + "desired_running"@);
    assert(at(at(known, "first"@), "invocation"@) != at(at(known, "second"@), "invocation"@)) by {
        lemma_under(record[0], "first"@, "invocation"@, "first,invocation"@);
        lemma_under(record[0], "second"@, "invocation"@, "second,invocation"@);
        saw_differs(l, known, answers, record, 0);
    }
    assert(at(at(known, "first_slot"@), "worker"@) != at(at(known, "second_slot"@), "worker"@)) by {
        unchanged(l, known, answers, record, 0);
        lemma_under(record[1], "first_slot"@, "worker"@, "first_slot,worker"@);
        lemma_under(record[1], "second_slot"@, "worker"@, "second_slot,worker"@);
        saw_differs(l, known, answers, record, 1);
    }
    assert(at(at(known, "first_slot"@), "application"@)
            != at(at(known, "second_slot"@), "application"@)) by {
        unchanged(l, known, answers, record, 0);
        unchanged(l, known, answers, record, 1);
        lemma_under(record[2], "first_slot"@, "application"@, "first_slot,application"@);
        lemma_under(record[2], "second_slot"@, "application"@, "second_slot,application"@);
        saw_differs(l, known, answers, record, 2);
    }
    assert(at(said(record, 13), "desired_running"@) == Tree::Bool(true)) by {
        was_said(l, known, answers, record, 14);
        lemma_under(record[15], "observed"@, "desired_running"@, "observed,desired_running"@);
        saw_true(l, known, answers, record, 15);
    }
}

proof fn lemma_selected_variant_was_deployed_2(
    known: Tree,
    answers: Seq<(Tree, bool)>,
    record: Seq<Tree>,
)
    requires
        passed(EVALUATE_DEPLOYED@, known, answers, record),
    ensures
        at(said(record, 13), "observed_running"@) == Tree::Bool(true),
        at(said(record, 13), "accepted_evaluation"@)
            == at(at(known, "first_evaluation"@), "identity"@),
        at(said(record, 19), "desired_running"@) == Tree::Bool(false),
        at(said(record, 19), "accepted_evaluation"@) == Tree::Null,
{
    let l = EVALUATE_DEPLOYED@;
    reveal_strlit("observed");
    reveal_strlit("reply");
    reveal_strlit("observed_running");
    reveal_strlit("observed,observed_running");
    reveal_strlit("accepted_evaluation");
    reveal_strlit("observed,accepted_evaluation");
    reveal_strlit("first_evaluation");
    reveal_strlit("target");
    reveal_strlit("");
    reveal_strlit("before");
    reveal_strlit("other_evaluation");
    reveal_strlit("refusal");
    reveal_strlit("evaluation_id");
    reveal_strlit("deployed");
    reveal_strlit("identity");
    reveal_strlit("first_evaluation,identity");
    reveal_strlit("other");
    reveal_strlit("desired_running");
    reveal_strlit("other,desired_running");
    reveal_strlit("other,accepted_evaluation");
    assert("observed"@.len() == 8);
    assert("reply"@.len() == 5);
    assert("observed,observed_running"@ =~= "observed"@ + seq![','] + "observed_running"@);
    assert("observed,accepted_evaluation"@ =~= "observed"@ + seq![','] + "accepted_evaluation"@);
    assert("first_evaluation"@.len() == 16);
    lemma_apart("target"@, "first_evaluation"@, 0);
    lemma_apart(""@, "first_evaluation"@, 0);
    lemma_apart("before"@, "first_evaluation"@, 0);
    lemma_apart("other_evaluation"@, "first_evaluation"@, 0);
    lemma_apart("refusal"@, "first_evaluation"@, 0);
    lemma_apart("evaluation_id"@, "first_evaluation"@, 0);
    lemma_apart("deployed"@, "first_evaluation"@, 0);
    lemma_apart("observed"@, "first_evaluation"@, 0);
    assert("first_evaluation,identity"@ =~= "first_evaluation"@ + seq![','] + "identity"@);
    assert("other"@[0] != "reply"@[0]);
    assert("other,desired_running"@ =~= "other"@ + seq![','] + "desired_running"@);
    assert("other,accepted_evaluation"@ =~= "other"@ + seq![','] + "accepted_evaluation"@);
    assert(at(said(record, 13), "observed_running"@) == Tree::Bool(true)) by {
        was_said(l, known, answers, record, 14);
        unchanged(l, known, answers, record, 15);
        lemma_under(record[16], "observed"@, "observed_running"@, "observed,observed_running"@);
        saw_true(l, known, answers, record, 16);
    }
    assert(at(said(record, 13), "accepted_evaluation"@)
            == at(at(known, "first_evaluation"@), "identity"@)) by {
        was_said(l, known, answers, record, 14);
        unchanged(l, known, answers, record, 15);
        unchanged(l, known, answers, record, 16);
        lemma_under(
            record[17],
            "observed"@,
            "accepted_evaluation"@,
            "observed,accepted_evaluation"@,
        );
        assert(forall|j: int|
            0 <= j < 17
                ==> is_check((#[trigger] l[j]).0@) || !touches(l[j].1@, "first_evaluation"@));
        stays_through(l, known, answers, record, 0, 17, "first_evaluation"@);
        lemma_under(record[17], "first_evaluation"@, "identity"@, "first_evaluation,identity"@);
        saw_same(l, known, answers, record, 17);
    }
    assert(at(said(record, 19), "desired_running"@) == Tree::Bool(false)) by {
        was_said(l, known, answers, record, 20);
        lemma_under(record[21], "other"@, "desired_running"@, "other,desired_running"@);
        saw_false(l, known, answers, record, 21);
    }
    assert(at(said(record, 19), "accepted_evaluation"@) == Tree::Null) by {
        was_said(l, known, answers, record, 20);
        unchanged(l, known, answers, record, 21);
        lemma_under(record[22], "other"@, "accepted_evaluation"@, "other,accepted_evaluation"@);
        saw_null(l, known, answers, record, 22);
    }
}

proof fn lemma_selected_variant_was_deployed_3(
    known: Tree,
    answers: Seq<(Tree, bool)>,
    record: Seq<Tree>,
)
    requires
        passed(EVALUATE_DEPLOYED@, known, answers, record),
    ensures
        at(record[44], "report,promoted"@) == at(known, "eligible"@),
        at(record[44], "report,selected_method"@) == at(at(known, "selected"@), "id"@),
        at(record[37], "report,selection,evaluation"@)
            == at(at(known, "first_evaluation"@), "identity"@),
{
    let l = EVALUATE_DEPLOYED@;
    reveal_strlit("report,promoted");
    reveal_strlit("report");
    reveal_strlit("reply");
    reveal_strlit("eligible");
    reveal_strlit("target");
    reveal_strlit("");
    reveal_strlit("before");
    reveal_strlit("other_evaluation");
    reveal_strlit("refusal");
    reveal_strlit("evaluation_id");
    reveal_strlit("deployed");
    reveal_strlit("observed");
    reveal_strlit("other_target");
    reveal_strlit("other");
    reveal_strlit("profile");
    reveal_strlit("report,lane");
    reveal_strlit("report,proposal_profile");
    reveal_strlit("report,declaration,actor");
    reveal_strlit("report,declaration,command");
    reveal_strlit("report,comparison");
    reveal_strlit("promoted");
    reveal_strlit("selected_method");
    reveal_strlit("report,selected_method");
    reveal_strlit("variations");
    reveal_strlit("report,variations");
    reveal_strlit("acceptance");
    reveal_strlit("report,acceptance");
    reveal_strlit("selection,index");
    reveal_strlit("report,selection,index");
    reveal_strlit("selection");
    reveal_strlit("index");
    reveal_strlit("selection,reason");
    reveal_strlit("report,selection,reason");
    reveal_strlit("reason");
    reveal_strlit("selection,evaluation");
    reveal_strlit("report,selection,evaluation");
    reveal_strlit("evaluation");
    reveal_strlit("selection,deployment");
    reveal_strlit("report,selection,deployment");
    reveal_strlit("deployment");
    reveal_strlit("selection,observed_deployment");
    reveal_strlit("report,selection,observed_deployment");
    reveal_strlit("observed_deployment");
    reveal_strlit("selection,other");
    reveal_strlit("report,selection,other");
    reveal_strlit("retained");
    reveal_strlit("uploaded");
    reveal_strlit("selected");
    reveal_strlit("id");
    reveal_strlit("selected,id");
    reveal_strlit("first_evaluation");
    reveal_strlit("identity");
    reveal_strlit("first_evaluation,identity");
    assert("report"@.len() == 6);
    assert("reply"@.len() == 5);
    assert("eligible"@.len() == 8);
    lemma_apart("target"@, "eligible"@, 0);
    lemma_apart(""@, "eligible"@, 0);
    lemma_apart("before"@, "eligible"@, 0);
    lemma_apart("other_evaluation"@, "eligible"@, 0);
    lemma_apart("refusal"@, "eligible"@, 0);
    lemma_apart("evaluation_id"@, "eligible"@, 1);
    lemma_apart("deployed"@, "eligible"@, 0);
    lemma_apart("observed"@, "eligible"@, 0);
    lemma_apart("other_target"@, "eligible"@, 0);
    lemma_apart("other"@, "eligible"@, 0);
    lemma_apart("profile"@, "eligible"@, 0);
    lemma_apart("report,lane"@, "eligible"@, 0);
    lemma_apart("report,proposal_profile"@, "eligible"@, 0);
    lemma_apart("report,declaration,actor"@, "eligible"@, 0);
    lemma_apart("report,declaration,command"@, "eligible"@, 0);
    lemma_apart("report,comparison"@, "eligible"@, 0);
    assert("report,promoted"@ =~= "report"@ + seq![','] + "promoted"@);
    assert("report,selected_method"@ =~= "report"@ + seq![','] + "selected_method"@);
    lemma_under(Tree::Null, "report"@, "selected_method"@, "report,selected_method"@);
    lemma_single_segment("selected_method"@);
    assert("selected_method"@.len() == 15);
    assert("promoted"@.len() == 8);
    assert("report,selected_method"@.len() == 22);
    assert(segments("report,selected_method"@)[1] == "selected_method"@);
    assert("report,variations"@ =~= "report"@ + seq![','] + "variations"@);
    lemma_under(Tree::Null, "report"@, "variations"@, "report,variations"@);
    lemma_single_segment("variations"@);
    assert("variations"@.len() == 10);
    assert("report,variations"@.len() == 17);
    assert(segments("report,variations"@)[1] == "variations"@);
    assert("report,acceptance"@ =~= "report"@ + seq![','] + "acceptance"@);
    lemma_under(Tree::Null, "report"@, "acceptance"@, "report,acceptance"@);
    lemma_single_segment("acceptance"@);
    assert("acceptance"@.len() == 10);
    assert("report,acceptance"@.len() == 17);
    assert(segments("report,acceptance"@)[1] == "acceptance"@);
    assert("report,selection,index"@ =~= "report"@ + seq![','] + "selection,index"@);
    lemma_under(Tree::Null, "report"@, "selection,index"@, "report,selection,index"@);
    assert("selection,index"@ =~= "selection"@ + seq![','] + "index"@);
    lemma_under(Tree::Null, "selection"@, "index"@, "selection,index"@);
    assert("selection"@.len() == 9);
    assert("report,selection,index"@.len() == 22);
    assert(segments("report,selection,index"@)[1] == "selection"@);
    assert("report,selection,reason"@ =~= "report"@ + seq![','] + "selection,reason"@);
    lemma_under(Tree::Null, "report"@, "selection,reason"@, "report,selection,reason"@);
    assert("selection,reason"@ =~= "selection"@ + seq![','] + "reason"@);
    lemma_under(Tree::Null, "selection"@, "reason"@, "selection,reason"@);
    assert("report,selection,reason"@.len() == 23);
    assert(segments("report,selection,reason"@)[1] == "selection"@);
    assert("report,selection,evaluation"@ =~= "report"@ + seq![','] + "selection,evaluation"@);
    lemma_under(Tree::Null, "report"@, "selection,evaluation"@, "report,selection,evaluation"@);
    assert("selection,evaluation"@ =~= "selection"@ + seq![','] + "evaluation"@);
    lemma_under(Tree::Null, "selection"@, "evaluation"@, "selection,evaluation"@);
    assert("report,selection,evaluation"@.len() == 27);
    assert(segments("report,selection,evaluation"@)[1] == "selection"@);
    assert("report,selection,deployment"@ =~= "report"@ + seq![','] + "selection,deployment"@);
    lemma_under(Tree::Null, "report"@, "selection,deployment"@, "report,selection,deployment"@);
    assert("selection,deployment"@ =~= "selection"@ + seq![','] + "deployment"@);
    lemma_under(Tree::Null, "selection"@, "deployment"@, "selection,deployment"@);
    assert("report,selection,deployment"@.len() == 27);
    assert(segments("report,selection,deployment"@)[1] == "selection"@);
    assert(
        "report,selection,observed_deployment"@
            =~= "report"@ + seq![','] + "selection,observed_deployment"@
    );
    lemma_under(
        Tree::Null,
        "report"@,
        "selection,observed_deployment"@,
        "report,selection,observed_deployment"@,
    );
    assert("selection,observed_deployment"@ =~= "selection"@ + seq![','] + "observed_deployment"@);
    lemma_under(Tree::Null, "selection"@, "observed_deployment"@, "selection,observed_deployment"@);
    assert("report,selection,observed_deployment"@.len() == 36);
    assert(segments("report,selection,observed_deployment"@)[1] == "selection"@);
    assert("report,selection,other"@ =~= "report"@ + seq![','] + "selection,other"@);
    lemma_under(Tree::Null, "report"@, "selection,other"@, "report,selection,other"@);
    assert("selection,other"@ =~= "selection"@ + seq![','] + "other"@);
    lemma_under(Tree::Null, "selection"@, "other"@, "selection,other"@);
    assert("report,selection,other"@.len() == 22);
    assert(segments("report,selection,other"@)[1] == "selection"@);
    lemma_apart(""@, "report"@, 0);
    lemma_apart("retained"@, "report"@, 2);
    lemma_apart("uploaded"@, "report"@, 0);
    assert("selected"@.len() == 8);
    lemma_apart("target"@, "selected"@, 0);
    lemma_apart(""@, "selected"@, 0);
    lemma_apart("before"@, "selected"@, 0);
    lemma_apart("other_evaluation"@, "selected"@, 0);
    lemma_apart("refusal"@, "selected"@, 0);
    lemma_apart("evaluation_id"@, "selected"@, 0);
    lemma_apart("deployed"@, "selected"@, 0);
    lemma_apart("observed"@, "selected"@, 0);
    lemma_apart("other_target"@, "selected"@, 0);
    lemma_apart("other"@, "selected"@, 0);
    lemma_apart("profile"@, "selected"@, 0);
    lemma_apart("report,lane"@, "selected"@, 0);
    lemma_apart("report,proposal_profile"@, "selected"@, 0);
    lemma_apart("report,declaration,actor"@, "selected"@, 0);
    lemma_apart("report,declaration,command"@, "selected"@, 0);
    lemma_apart("report,comparison"@, "selected"@, 0);
    lemma_apart("report,promoted"@, "selected"@, 0);
    assert("selected,id"@ =~= "selected"@ + seq![','] + "id"@);
    assert("first_evaluation"@.len() == 16);
    lemma_apart("target"@, "first_evaluation"@, 0);
    lemma_apart(""@, "first_evaluation"@, 0);
    lemma_apart("before"@, "first_evaluation"@, 0);
    lemma_apart("other_evaluation"@, "first_evaluation"@, 0);
    lemma_apart("refusal"@, "first_evaluation"@, 0);
    lemma_apart("evaluation_id"@, "first_evaluation"@, 0);
    lemma_apart("deployed"@, "first_evaluation"@, 0);
    lemma_apart("observed"@, "first_evaluation"@, 0);
    lemma_apart("other_target"@, "first_evaluation"@, 0);
    lemma_apart("other"@, "first_evaluation"@, 0);
    lemma_apart("profile"@, "first_evaluation"@, 0);
    lemma_apart("report,lane"@, "first_evaluation"@, 0);
    lemma_apart("report,proposal_profile"@, "first_evaluation"@, 0);
    lemma_apart("report,declaration,actor"@, "first_evaluation"@, 0);
    lemma_apart("report,declaration,command"@, "first_evaluation"@, 0);
    lemma_apart("report,comparison"@, "first_evaluation"@, 0);
    lemma_apart("report,promoted"@, "first_evaluation"@, 0);
    lemma_apart("report,selected_method"@, "first_evaluation"@, 0);
    lemma_apart("report,variations"@, "first_evaluation"@, 0);
    lemma_apart("report,acceptance"@, "first_evaluation"@, 0);
    lemma_apart("report,selection,index"@, "first_evaluation"@, 0);
    lemma_apart("report,selection,reason"@, "first_evaluation"@, 0);
    assert("first_evaluation,identity"@ =~= "first_evaluation"@ + seq![','] + "identity"@);
    assert(at(record[44], "report,promoted"@) == at(known, "eligible"@)) by {
        assert(forall|j: int|
            0 <= j < 30 ==> is_check((#[trigger] l[j]).0@) || !touches(l[j].1@, "eligible"@));
        stays_through(l, known, answers, record, 0, 30, "eligible"@);
        was_put(l, known, answers, record, 30);
        lemma_under(record[31], "report"@, "promoted"@, "report,promoted"@);
        stays_beside(l, known, answers, record, 31, "report"@, "promoted"@);
        stays_beside(l, known, answers, record, 32, "report"@, "promoted"@);
        stays_beside(l, known, answers, record, 33, "report"@, "promoted"@);
        stays_beside(l, known, answers, record, 34, "report"@, "promoted"@);
        stays_beside(l, known, answers, record, 35, "report"@, "promoted"@);
        stays_beside(l, known, answers, record, 36, "report"@, "promoted"@);
        stays_beside(l, known, answers, record, 37, "report"@, "promoted"@);
        stays_beside(l, known, answers, record, 38, "report"@, "promoted"@);
        stays_beside(l, known, answers, record, 39, "report"@, "promoted"@);
        stays(l, known, answers, record, 40, "report"@);
        stays(l, known, answers, record, 41, "report"@);
        stays(l, known, answers, record, 42, "report"@);
        stays(l, known, answers, record, 43, "report"@);
        lemma_under(record[44], "report"@, "promoted"@, "report,promoted"@);
    }
    assert(at(record[44], "report,selected_method"@) == at(at(known, "selected"@), "id"@)) by {
        assert(forall|j: int|
            0 <= j < 31 ==> is_check((#[trigger] l[j]).0@) || !touches(l[j].1@, "selected"@));
        stays_through(l, known, answers, record, 0, 31, "selected"@);
        lemma_under(record[31], "selected"@, "id"@, "selected,id"@);
        was_put(l, known, answers, record, 31);
        lemma_under(record[32], "report"@, "selected_method"@, "report,selected_method"@);
        stays_beside(l, known, answers, record, 32, "report"@, "selected_method"@);
        stays_beside(l, known, answers, record, 33, "report"@, "selected_method"@);
        stays_beside(l, known, answers, record, 34, "report"@, "selected_method"@);
        stays_beside(l, known, answers, record, 35, "report"@, "selected_method"@);
        stays_beside(l, known, answers, record, 36, "report"@, "selected_method"@);
        stays_beside(l, known, answers, record, 37, "report"@, "selected_method"@);
        stays_beside(l, known, answers, record, 38, "report"@, "selected_method"@);
        stays_beside(l, known, answers, record, 39, "report"@, "selected_method"@);
        stays(l, known, answers, record, 40, "report"@);
        stays(l, known, answers, record, 41, "report"@);
        stays(l, known, answers, record, 42, "report"@);
        stays(l, known, answers, record, 43, "report"@);
        lemma_under(record[44], "report"@, "selected_method"@, "report,selected_method"@);
    }
    assert(at(record[37], "report,selection,evaluation"@)
            == at(at(known, "first_evaluation"@), "identity"@)) by {
        assert(forall|j: int|
            0 <= j < 36
                ==> is_check((#[trigger] l[j]).0@) || !touches(l[j].1@, "first_evaluation"@));
        stays_through(l, known, answers, record, 0, 36, "first_evaluation"@);
        lemma_under(record[36], "first_evaluation"@, "identity"@, "first_evaluation,identity"@);
        was_put(l, known, answers, record, 36);
        lemma_under(record[37], "report"@, "selection,evaluation"@, "report,selection,evaluation"@);
    }
}

/// A deployment finishes only where the variants are independent, the selected target runs, and was
/// to run, on its own evaluation, and the other is neither running nor deployed; its report says
/// whether the candidate was promoted and which method was selected.
pub proof fn selected_variant_was_deployed(
    known: Tree,
    answers: Seq<(Tree, bool)>,
) -> (record: Seq<Tree>)
    requires
        known is Object,
        finished(EVALUATE_DEPLOYED@, known, answers),
    ensures
        passed(EVALUATE_DEPLOYED@, known, answers, record),
        at(at(known, "first"@), "invocation"@) != at(at(known, "second"@), "invocation"@),
        at(at(known, "first_slot"@), "worker"@) != at(at(known, "second_slot"@), "worker"@),
        at(at(known, "first_slot"@), "application"@)
            != at(at(known, "second_slot"@), "application"@),
        EVALUATE_DEPLOYED@[13].2@
            == "resource selected-variant-observed success $target 0 inspect"@,
        at(said(record, 13), "desired_running"@) == Tree::Bool(true),
        at(said(record, 13), "observed_running"@) == Tree::Bool(true),
        at(said(record, 13), "accepted_evaluation"@)
            == at(at(known, "first_evaluation"@), "identity"@),
        EVALUATE_DEPLOYED@[19].2@
            == "resource unselected-variant-retained success $other_target 0 inspect"@,
        at(said(record, 19), "desired_running"@) == Tree::Bool(false),
        at(said(record, 19), "accepted_evaluation"@) == Tree::Null,
        at(record[44], "report,promoted"@) == at(known, "eligible"@),
        at(record[44], "report,selected_method"@) == at(at(known, "selected"@), "id"@),
        at(record[37], "report,selection,evaluation"@)
            == at(at(known, "first_evaluation"@), "identity"@),
{
    let record = finished_scenarios_are_recorded(EVALUATE_DEPLOYED@, known, answers);
    lemma_selected_variant_was_deployed_1(known, answers, record);
    lemma_selected_variant_was_deployed_2(known, answers, record);
    lemma_selected_variant_was_deployed_3(known, answers, record);
    record
}

proof fn lemma_tools_were_maintained_1(known: Tree, answers: Seq<(Tree, bool)>, record: Seq<Tree>)
    requires
        passed(TOOLS@, known, answers, record),
    ensures
        is_positive(said(record, 12)),
        is_at_least(Tree::Integer(4194304), said(record, 12)),
{
    let l = TOOLS@;
    reveal_strlit("tool_size");
    reveal_strlit("reply");
    reveal_strlit("bounds,candidate");
    reveal_strlit("bounds");
    reveal_strlit("4194304");
    reveal_strlit("4");
    reveal_strlit("41");
    reveal_strlit("419");
    reveal_strlit("4194");
    reveal_strlit("41943");
    reveal_strlit("419430");
    reveal_strlit("candidate");
    assert("tool_size"@.len() == 9);
    assert("reply"@.len() == 5);
    lemma_apart("bounds,candidate"@, "tool_size"@, 0);
    assert("bounds"@.len() == 6);
    lemma_one_digit("4"@);
    assert(number_of("4"@) == Some(4u64));
    assert("41"@.drop_last() =~= "4"@);
    lemma_next_digit("41"@, "4"@, 4);
    assert(number_of("41"@) == Some(41u64));
    assert("419"@.drop_last() =~= "41"@);
    lemma_next_digit("419"@, "41"@, 41);
    assert(number_of("419"@) == Some(419u64));
    assert("4194"@.drop_last() =~= "419"@);
    lemma_next_digit("4194"@, "419"@, 419);
    assert(number_of("4194"@) == Some(4194u64));
    assert("41943"@.drop_last() =~= "4194"@);
    lemma_next_digit("41943"@, "4194"@, 4194);
    assert(number_of("41943"@) == Some(41943u64));
    assert("419430"@.drop_last() =~= "41943"@);
    lemma_next_digit("419430"@, "41943"@, 41943);
    assert(number_of("419430"@) == Some(419430u64));
    assert("4194304"@.drop_last() =~= "419430"@);
    lemma_next_digit("4194304"@, "419430"@, 419430);
    assert(number_of("4194304"@) == Some(4194304u64));
    assert("bounds,candidate"@ =~= "bounds"@ + seq![','] + "candidate"@);
    assert(is_positive(said(record, 12))) by {
        was_said(l, known, answers, record, 13);
        stays(l, known, answers, record, 14, "tool_size"@);
        saw_positive(l, known, answers, record, 15);
    }
    assert(is_at_least(Tree::Integer(4194304), said(record, 12))) by {
        was_counted(l, known, answers, record, 14, 4194304);
        lemma_under(record[15], "bounds"@, "candidate"@, "bounds,candidate"@);
        unchanged(l, known, answers, record, 15);
        lemma_under(record[16], "bounds"@, "candidate"@, "bounds,candidate"@);
        was_said(l, known, answers, record, 13);
        stays(l, known, answers, record, 14, "tool_size"@);
        saw_reaches(l, known, answers, record, 16);
    }
}

proof fn lemma_tools_were_maintained_2(known: Tree, answers: Seq<(Tree, bool)>, record: Seq<Tree>)
    requires
        passed(TOOLS@, known, answers, record),
    ensures
        said(record, 24) == Tree::Bool(true),
        at(said(record, 29), "succeeded"@) == Tree::Bool(true),
{
    let l = TOOLS@;
    reveal_strlit("recorded");
    reveal_strlit("reply");
    reveal_strlit("built");
    reveal_strlit("succeeded");
    reveal_strlit("built,succeeded");
    assert("recorded"@.len() == 8);
    assert("reply"@.len() == 5);
    assert("built"@[0] != "reply"@[0]);
    assert("built,succeeded"@ =~= "built"@ + seq![','] + "succeeded"@);
    assert(said(record, 24) == Tree::Bool(true)) by {
        was_said(l, known, answers, record, 25);
        saw_true(l, known, answers, record, 26);
    }
    assert(at(said(record, 29), "succeeded"@) == Tree::Bool(true)) by {
        was_said(l, known, answers, record, 30);
        lemma_under(record[31], "built"@, "succeeded"@, "built,succeeded"@);
        saw_true(l, known, answers, record, 31);
    }
}

proof fn lemma_tools_were_maintained_3(known: Tree, answers: Seq<(Tree, bool)>, record: Seq<Tree>)
    requires
        passed(TOOLS@, known, answers, record),
    ensures
        said(record, 43) == Tree::Bool(true),
        at(said(record, 54), "pending"@) == Tree::Null,
{
    let l = TOOLS@;
    reveal_strlit("refusal");
    reveal_strlit("reply");
    reveal_strlit("stage");
    reveal_strlit("pending");
    reveal_strlit("stage,pending");
    assert("refusal"@.len() == 7);
    assert("reply"@.len() == 5);
    assert("stage"@[0] != "reply"@[0]);
    assert("stage,pending"@ =~= "stage"@ + seq![','] + "pending"@);
    assert(said(record, 43) == Tree::Bool(true)) by {
        was_said(l, known, answers, record, 44);
        saw_true(l, known, answers, record, 45);
    }
    assert(at(said(record, 54), "pending"@) == Tree::Null) by {
        was_said(l, known, answers, record, 55);
        lemma_under(record[56], "stage"@, "pending"@, "stage,pending"@);
        saw_null(l, known, answers, record, 56);
    }
}

proof fn lemma_tools_were_maintained_4(known: Tree, answers: Seq<(Tree, bool)>, record: Seq<Tree>)
    requires
        passed(TOOLS@, known, answers, record),
    ensures
        is_positive(at(said(record, 54), "generation"@)),
        at(at(at(record[63], "artifact_event"@), "event,kind,reference"@), "digest"@)
            == said(record, 17),
{
    let l = TOOLS@;
    reveal_strlit("stage");
    reveal_strlit("reply");
    reveal_strlit("generation");
    reveal_strlit("stage,generation");
    reveal_strlit("tool");
    reveal_strlit("artifact_event");
    reveal_strlit("event,kind,reference");
    reveal_strlit("artifact_event,event,kind,reference");
    reveal_strlit("digest");
    reveal_strlit("tool,digest");
    reveal_strlit("tool_digest");
    reveal_strlit("manifest,digest");
    reveal_strlit("manifest,size_bytes");
    reveal_strlit("manifest,build_path");
    reveal_strlit("");
    reveal_strlit("tool_manifest");
    reveal_strlit("recorded");
    reveal_strlit("build_input");
    reveal_strlit("built");
    reveal_strlit("image");
    reveal_strlit("recipe");
    reveal_strlit("recipe,name");
    reveal_strlit("recipe,worker_image");
    reveal_strlit("reference");
    reveal_strlit("recipe_path");
    reveal_strlit("expansion");
    reveal_strlit("expansion,manager_mount");
    reveal_strlit("refusal");
    reveal_strlit("retained");
    reveal_strlit("installed");
    reveal_strlit("recipe_name");
    reveal_strlit("recipe_digest");
    reveal_strlit("stage_receipt");
    reveal_strlit("staged_tool");
    assert("stage"@[0] != "reply"@[0]);
    assert("stage,generation"@ =~= "stage"@ + seq![','] + "generation"@);
    assert("tool"@.len() == 4);
    assert("reply"@.len() == 5);
    assert("artifact_event"@.len() == 14);
    assert(
        "artifact_event,event,kind,reference"@
            =~= "artifact_event"@ + seq![','] + "event,kind,reference"@
    );
    assert("tool,digest"@ =~= "tool"@ + seq![','] + "digest"@);
    assert("tool_digest"@.len() == 11);
    lemma_apart("manifest,digest"@, "tool_digest"@, 0);
    lemma_apart("manifest,size_bytes"@, "tool_digest"@, 0);
    lemma_apart("manifest,build_path"@, "tool_digest"@, 0);
    lemma_apart(""@, "tool_digest"@, 0);
    lemma_apart("tool_manifest"@, "tool_digest"@, 5);
    lemma_apart("recorded"@, "tool_digest"@, 0);
    lemma_apart("build_input"@, "tool_digest"@, 0);
    lemma_apart("built"@, "tool_digest"@, 0);
    lemma_apart("image"@, "tool_digest"@, 0);
    lemma_apart("recipe"@, "tool_digest"@, 0);
    lemma_apart("recipe,name"@, "tool_digest"@, 0);
    lemma_apart("recipe,worker_image"@, "tool_digest"@, 0);
    lemma_apart("reference"@, "tool_digest"@, 0);
    lemma_apart("recipe_path"@, "tool_digest"@, 0);
    lemma_apart("expansion"@, "tool_digest"@, 0);
    lemma_apart("expansion,manager_mount"@, "tool_digest"@, 0);
    lemma_apart("refusal"@, "tool_digest"@, 0);
    lemma_apart("retained"@, "tool_digest"@, 0);
    lemma_apart("installed"@, "tool_digest"@, 0);
    lemma_apart("recipe_name"@, "tool_digest"@, 0);
    lemma_apart("recipe_digest"@, "tool_digest"@, 0);
    lemma_apart("stage_receipt"@, "tool_digest"@, 0);
    lemma_apart("stage"@, "tool_digest"@, 0);
    lemma_apart("staged_tool"@, "tool_digest"@, 0);
    lemma_apart("artifact_event"@, "tool_digest"@, 0);
    lemma_apart("tool"@, "tool_digest"@, 4);
    assert(is_positive(at(said(record, 54), "generation"@))) by {
        was_said(l, known, answers, record, 55);
        unchanged(l, known, answers, record, 56);
        unchanged(l, known, answers, record, 57);
        lemma_under(record[58], "stage"@, "generation"@, "stage,generation"@);
        saw_positive(l, known, answers, record, 58);
    }
    assert(at(at(at(record[63], "artifact_event"@), "event,kind,reference"@), "digest"@)
            == said(record, 17)) by {
        was_kept(l, known, answers, record, 63);
        lemma_under(
            record[63],
            "artifact_event"@,
            "event,kind,reference"@,
            "artifact_event,event,kind,reference"@,
        );
        lemma_under(record[64], "tool"@, "digest"@, "tool,digest"@);
        was_said(l, known, answers, record, 18);
        assert(forall|j: int|
            19 <= j < 64 ==> is_check((#[trigger] l[j]).0@) || !touches(l[j].1@, "tool_digest"@));
        stays_through(l, known, answers, record, 19, 64, "tool_digest"@);
        saw_same(l, known, answers, record, 64);
    }
}

proof fn lemma_tools_were_maintained_5(known: Tree, answers: Seq<(Tree, bool)>, record: Seq<Tree>)
    requires
        passed(TOOLS@, known, answers, record),
    ensures
        at(at(at(record[63], "artifact_event"@), "event,kind,reference"@), "size_bytes"@)
            == said(record, 12),
        at(said(record, 81), "pending"@) == Tree::Null,
{
    let l = TOOLS@;
    reveal_strlit("tool");
    reveal_strlit("reply");
    reveal_strlit("artifact_event");
    reveal_strlit("event,kind,reference");
    reveal_strlit("artifact_event,event,kind,reference");
    reveal_strlit("size_bytes");
    reveal_strlit("tool,size_bytes");
    reveal_strlit("tool_size");
    reveal_strlit("bounds,candidate");
    reveal_strlit("");
    reveal_strlit("tool_digest");
    reveal_strlit("manifest,digest");
    reveal_strlit("manifest,size_bytes");
    reveal_strlit("manifest,build_path");
    reveal_strlit("tool_manifest");
    reveal_strlit("recorded");
    reveal_strlit("build_input");
    reveal_strlit("built");
    reveal_strlit("image");
    reveal_strlit("recipe");
    reveal_strlit("recipe,name");
    reveal_strlit("recipe,worker_image");
    reveal_strlit("reference");
    reveal_strlit("recipe_path");
    reveal_strlit("expansion");
    reveal_strlit("expansion,manager_mount");
    reveal_strlit("refusal");
    reveal_strlit("retained");
    reveal_strlit("installed");
    reveal_strlit("recipe_name");
    reveal_strlit("recipe_digest");
    reveal_strlit("stage_receipt");
    reveal_strlit("stage");
    reveal_strlit("staged_tool");
    reveal_strlit("updated");
    reveal_strlit("pending");
    reveal_strlit("updated,pending");
    assert("tool"@.len() == 4);
    assert("reply"@.len() == 5);
    assert("artifact_event"@.len() == 14);
    assert(
        "artifact_event,event,kind,reference"@
            =~= "artifact_event"@ + seq![','] + "event,kind,reference"@
    );
    assert("tool,size_bytes"@ =~= "tool"@ + seq![','] + "size_bytes"@);
    assert("tool_size"@.len() == 9);
    lemma_apart("bounds,candidate"@, "tool_size"@, 0);
    lemma_apart(""@, "tool_size"@, 0);
    lemma_apart("tool_digest"@, "tool_size"@, 5);
    lemma_apart("manifest,digest"@, "tool_size"@, 0);
    lemma_apart("manifest,size_bytes"@, "tool_size"@, 0);
    lemma_apart("manifest,build_path"@, "tool_size"@, 0);
    lemma_apart("tool_manifest"@, "tool_size"@, 5);
    lemma_apart("recorded"@, "tool_size"@, 0);
    lemma_apart("build_input"@, "tool_size"@, 0);
    lemma_apart("built"@, "tool_size"@, 0);
    lemma_apart("image"@, "tool_size"@, 0);
    lemma_apart("recipe"@, "tool_size"@, 0);
    lemma_apart("recipe,name"@, "tool_size"@, 0);
    lemma_apart("recipe,worker_image"@, "tool_size"@, 0);
    lemma_apart("reference"@, "tool_size"@, 0);
    lemma_apart("recipe_path"@, "tool_size"@, 0);
    lemma_apart("expansion"@, "tool_size"@, 0);
    lemma_apart("expansion,manager_mount"@, "tool_size"@, 0);
    lemma_apart("refusal"@, "tool_size"@, 0);
    lemma_apart("retained"@, "tool_size"@, 0);
    lemma_apart("installed"@, "tool_size"@, 0);
    lemma_apart("recipe_name"@, "tool_size"@, 0);
    lemma_apart("recipe_digest"@, "tool_size"@, 0);
    lemma_apart("stage_receipt"@, "tool_size"@, 0);
    lemma_apart("stage"@, "tool_size"@, 0);
    lemma_apart("staged_tool"@, "tool_size"@, 0);
    lemma_apart("artifact_event"@, "tool_size"@, 0);
    lemma_apart("tool"@, "tool_size"@, 4);
    assert("updated"@.len() == 7);
    assert("updated,pending"@ =~= "updated"@ + seq![','] + "pending"@);
    assert(at(at(at(record[63], "artifact_event"@), "event,kind,reference"@), "size_bytes"@)
            == said(record, 12)) by {
        was_kept(l, known, answers, record, 63);
        lemma_under(
            record[63],
            "artifact_event"@,
            "event,kind,reference"@,
            "artifact_event,event,kind,reference"@,
        );
        unchanged(l, known, answers, record, 64);
        lemma_under(record[65], "tool"@, "size_bytes"@, "tool,size_bytes"@);
        was_said(l, known, answers, record, 13);
        assert(forall|j: int|
            14 <= j < 65 ==> is_check((#[trigger] l[j]).0@) || !touches(l[j].1@, "tool_size"@));
        stays_through(l, known, answers, record, 14, 65, "tool_size"@);
        saw_same(l, known, answers, record, 65);
    }
    assert(at(said(record, 81), "pending"@) == Tree::Null) by {
        was_said(l, known, answers, record, 82);
        lemma_under(record[83], "updated"@, "pending"@, "updated,pending"@);
        saw_null(l, known, answers, record, 83);
    }
}

proof fn lemma_tools_were_maintained_6(known: Tree, answers: Seq<(Tree, bool)>, record: Seq<Tree>)
    requires
        passed(TOOLS@, known, answers, record),
    ensures
        is_above(at(said(record, 81), "generation"@), at(said(record, 72), "generation"@)),
        at(at(at(record[93], "artifact_event"@), "event,kind,reference"@), "digest"@)
            == at(at(at(record[11], "artifact_event"@), "event,kind,reference"@), "digest"@),
{
    let l = TOOLS@;
    reveal_strlit("updated");
    reveal_strlit("reply");
    reveal_strlit("generation");
    reveal_strlit("updated,generation");
    reveal_strlit("current");
    reveal_strlit("");
    reveal_strlit("refusal");
    reveal_strlit("update_receipt");
    reveal_strlit("current,generation");
    reveal_strlit("after_artifact");
    reveal_strlit("artifact_event");
    reveal_strlit("event,kind,reference");
    reveal_strlit("artifact_event,event,kind,reference");
    reveal_strlit("digest");
    reveal_strlit("after_artifact,digest");
    reveal_strlit("before_artifact");
    reveal_strlit("tool_size");
    reveal_strlit("bounds,candidate");
    reveal_strlit("tool_digest");
    reveal_strlit("manifest,digest");
    reveal_strlit("manifest,size_bytes");
    reveal_strlit("manifest,build_path");
    reveal_strlit("tool_manifest");
    reveal_strlit("recorded");
    reveal_strlit("build_input");
    reveal_strlit("built");
    reveal_strlit("image");
    reveal_strlit("recipe");
    reveal_strlit("recipe,name");
    reveal_strlit("recipe,worker_image");
    reveal_strlit("reference");
    reveal_strlit("recipe_path");
    reveal_strlit("expansion");
    reveal_strlit("expansion,manager_mount");
    reveal_strlit("retained");
    reveal_strlit("installed");
    reveal_strlit("recipe_name");
    reveal_strlit("recipe_digest");
    reveal_strlit("stage_receipt");
    reveal_strlit("stage");
    reveal_strlit("staged_tool");
    reveal_strlit("tool");
    reveal_strlit("done");
    reveal_strlit("staged");
    reveal_strlit("maintained");
    reveal_strlit("after");
    reveal_strlit("before_artifact,digest");
    assert("updated"@.len() == 7);
    assert("reply"@.len() == 5);
    assert("updated,generation"@ =~= "updated"@ + seq![','] + "generation"@);
    assert("current"@.len() == 7);
    lemma_apart(""@, "current"@, 0);
    lemma_apart("refusal"@, "current"@, 0);
    lemma_apart("update_receipt"@, "current"@, 0);
    lemma_apart("updated"@, "current"@, 0);
    assert("current,generation"@ =~= "current"@ + seq![','] + "generation"@);
    assert("after_artifact"@.len() == 14);
    assert("artifact_event"@.len() == 14);
    assert(
        "artifact_event,event,kind,reference"@
            =~= "artifact_event"@ + seq![','] + "event,kind,reference"@
    );
    assert("after_artifact,digest"@ =~= "after_artifact"@ + seq![','] + "digest"@);
    assert("before_artifact"@.len() == 15);
    lemma_apart(""@, "before_artifact"@, 0);
    lemma_apart("tool_size"@, "before_artifact"@, 0);
    lemma_apart("bounds,candidate"@, "before_artifact"@, 1);
    lemma_apart("tool_digest"@, "before_artifact"@, 0);
    lemma_apart("manifest,digest"@, "before_artifact"@, 0);
    lemma_apart("manifest,size_bytes"@, "before_artifact"@, 0);
    lemma_apart("manifest,build_path"@, "before_artifact"@, 0);
    lemma_apart("tool_manifest"@, "before_artifact"@, 0);
    lemma_apart("recorded"@, "before_artifact"@, 0);
    lemma_apart("build_input"@, "before_artifact"@, 1);
    lemma_apart("built"@, "before_artifact"@, 1);
    lemma_apart("image"@, "before_artifact"@, 0);
    lemma_apart("recipe"@, "before_artifact"@, 0);
    lemma_apart("recipe,name"@, "before_artifact"@, 0);
    lemma_apart("recipe,worker_image"@, "before_artifact"@, 0);
    lemma_apart("reference"@, "before_artifact"@, 0);
    lemma_apart("recipe_path"@, "before_artifact"@, 0);
    lemma_apart("expansion"@, "before_artifact"@, 0);
    lemma_apart("expansion,manager_mount"@, "before_artifact"@, 0);
    lemma_apart("refusal"@, "before_artifact"@, 0);
    lemma_apart("retained"@, "before_artifact"@, 0);
    lemma_apart("installed"@, "before_artifact"@, 0);
    lemma_apart("recipe_name"@, "before_artifact"@, 0);
    lemma_apart("recipe_digest"@, "before_artifact"@, 0);
    lemma_apart("stage_receipt"@, "before_artifact"@, 0);
    lemma_apart("stage"@, "before_artifact"@, 0);
    lemma_apart("staged_tool"@, "before_artifact"@, 0);
    lemma_apart("artifact_event"@, "before_artifact"@, 0);
    lemma_apart("tool"@, "before_artifact"@, 0);
    lemma_apart("done"@, "before_artifact"@, 0);
    lemma_apart("staged"@, "before_artifact"@, 0);
    lemma_apart("current"@, "before_artifact"@, 0);
    lemma_apart("update_receipt"@, "before_artifact"@, 0);
    lemma_apart("updated"@, "before_artifact"@, 0);
    lemma_apart("maintained"@, "before_artifact"@, 0);
    lemma_apart("after"@, "before_artifact"@, 0);
    lemma_apart("after_artifact"@, "before_artifact"@, 0);
    assert("before_artifact,digest"@ =~= "before_artifact"@ + seq![','] + "digest"@);
    assert(is_above(at(said(record, 81), "generation"@), at(said(record, 72), "generation"@))) by {
        was_said(l, known, answers, record, 82);
        unchanged(l, known, answers, record, 83);
        unchanged(l, known, answers, record, 84);
        unchanged(l, known, answers, record, 85);
        lemma_under(record[86], "updated"@, "generation"@, "updated,generation"@);
        was_said(l, known, answers, record, 73);
        assert(forall|j: int|
            74 <= j < 86 ==> is_check((#[trigger] l[j]).0@) || !touches(l[j].1@, "current"@));
        stays_through(l, known, answers, record, 74, 86, "current"@);
        lemma_under(record[86], "current"@, "generation"@, "current,generation"@);
        saw_exceeds(l, known, answers, record, 86);
    }
    assert(at(at(at(record[93], "artifact_event"@), "event,kind,reference"@), "digest"@)
            == at(at(at(record[11], "artifact_event"@), "event,kind,reference"@), "digest"@)) by {
        was_kept(l, known, answers, record, 93);
        lemma_under(
            record[93],
            "artifact_event"@,
            "event,kind,reference"@,
            "artifact_event,event,kind,reference"@,
        );
        lemma_under(record[94], "after_artifact"@, "digest"@, "after_artifact,digest"@);
        was_kept(l, known, answers, record, 11);
        lemma_under(
            record[11],
            "artifact_event"@,
            "event,kind,reference"@,
            "artifact_event,event,kind,reference"@,
        );
        assert(forall|j: int|
            12 <= j < 94
                ==> is_check((#[trigger] l[j]).0@) || !touches(l[j].1@, "before_artifact"@));
        stays_through(l, known, answers, record, 12, 94, "before_artifact"@);
        lemma_under(record[94], "before_artifact"@, "digest"@, "before_artifact,digest"@);
        saw_same(l, known, answers, record, 94);
    }
}

proof fn lemma_tools_were_maintained_7(known: Tree, answers: Seq<(Tree, bool)>, record: Seq<Tree>)
    requires
        passed(TOOLS@, known, answers, record),
    ensures
        at(said(record, 132), "selection,guidance"@)
            == at(at(said(record, 109), "selection"@), "guidance"@),
        at(said(record, 107), "digest"@)
            != at(at(at(said(record, 109), "selection"@), "guidance"@), "digest"@),
{
    let l = TOOLS@;
    reveal_strlit("previous");
    reveal_strlit("reply");
    reveal_strlit("selection,guidance");
    reveal_strlit("previous,selection,guidance");
    reveal_strlit("original_guidance");
    reveal_strlit("selection");
    reveal_strlit("select_document");
    reveal_strlit("select_document,selection");
    reveal_strlit("guidance");
    reveal_strlit("selection,method");
    reveal_strlit("selection,supersedes,actor");
    reveal_strlit("selection,supersedes,command");
    reveal_strlit("approval");
    reveal_strlit("selection,approval");
    reveal_strlit("select,type");
    reveal_strlit("select,selection");
    reveal_strlit("wrong");
    reveal_strlit("wrong,selection,workspace");
    reveal_strlit("");
    reveal_strlit("refusal");
    reveal_strlit("next");
    reveal_strlit("restarted");
    reveal_strlit("inspect,type");
    reveal_strlit("inspect,receipt,actor");
    reveal_strlit("inspect,receipt,command");
    reveal_strlit("digest");
    reveal_strlit("guidance,digest");
    reveal_strlit("original_guidance,digest");
    assert("previous"@.len() == 8);
    assert("reply"@.len() == 5);
    assert("previous,selection,guidance"@ =~= "previous"@ + seq![','] + "selection,guidance"@);
    assert("original_guidance"@.len() == 17);
    assert("selection"@.len() == 9);
    assert("select_document"@.len() == 15);
    assert("select_document,selection"@ =~= "select_document"@ + seq![','] + "selection"@);
    assert("selection,guidance"@ =~= "selection"@ + seq![','] + "guidance"@);
    lemma_apart("selection,guidance"@, "original_guidance"@, 0);
    lemma_apart("selection,method"@, "original_guidance"@, 0);
    lemma_apart("selection,supersedes,actor"@, "original_guidance"@, 0);
    lemma_apart("selection,supersedes,command"@, "original_guidance"@, 0);
    lemma_apart("approval"@, "original_guidance"@, 0);
    lemma_apart("selection,approval"@, "original_guidance"@, 0);
    lemma_apart("select,type"@, "original_guidance"@, 0);
    lemma_apart("select,selection"@, "original_guidance"@, 0);
    lemma_apart("wrong"@, "original_guidance"@, 0);
    lemma_apart("wrong,selection,workspace"@, "original_guidance"@, 0);
    lemma_apart(""@, "original_guidance"@, 0);
    lemma_apart("refusal"@, "original_guidance"@, 0);
    lemma_apart("next"@, "original_guidance"@, 0);
    lemma_apart("restarted"@, "original_guidance"@, 0);
    lemma_apart("inspect,type"@, "original_guidance"@, 0);
    lemma_apart("inspect,receipt,actor"@, "original_guidance"@, 0);
    lemma_apart("inspect,receipt,command"@, "original_guidance"@, 0);
    lemma_apart("previous"@, "original_guidance"@, 0);
    assert("guidance"@.len() == 8);
    lemma_apart(""@, "guidance"@, 0);
    lemma_apart("select_document"@, "guidance"@, 0);
    lemma_apart("selection"@, "guidance"@, 0);
    lemma_apart("original_guidance"@, "guidance"@, 0);
    lemma_apart("selection,guidance"@, "guidance"@, 0);
    lemma_apart("selection,method"@, "guidance"@, 0);
    lemma_apart("selection,supersedes,actor"@, "guidance"@, 0);
    lemma_apart("selection,supersedes,command"@, "guidance"@, 0);
    lemma_apart("approval"@, "guidance"@, 0);
    lemma_apart("selection,approval"@, "guidance"@, 0);
    lemma_apart("select,type"@, "guidance"@, 0);
    lemma_apart("select,selection"@, "guidance"@, 0);
    lemma_apart("wrong"@, "guidance"@, 0);
    lemma_apart("wrong,selection,workspace"@, "guidance"@, 0);
    lemma_apart("refusal"@, "guidance"@, 0);
    lemma_apart("next"@, "guidance"@, 0);
    lemma_apart("restarted"@, "guidance"@, 0);
    lemma_apart("inspect,type"@, "guidance"@, 0);
    lemma_apart("inspect,receipt,actor"@, "guidance"@, 0);
    lemma_apart("inspect,receipt,command"@, "guidance"@, 0);
    lemma_apart("previous"@, "guidance"@, 0);
    assert("guidance,digest"@ =~= "guidance"@ + seq![','] + "digest"@);
    assert("original_guidance,digest"@ =~= "original_guidance"@ + seq![','] + "digest"@);
    assert(at(said(record, 132), "selection,guidance"@)
            == at(at(said(record, 109), "selection"@), "guidance"@)) by {
        was_said(l, known, answers, record, 133);
        lemma_under(
            record[134],
            "previous"@,
            "selection,guidance"@,
            "previous,selection,guidance"@,
        );
        was_kept(l, known, answers, record, 112);
        was_kept(l, known, answers, record, 111);
        was_said(l, known, answers, record, 110);
        lemma_under(record[111], "select_document"@, "selection"@, "select_document,selection"@);
        lemma_under(record[112], "selection"@, "guidance"@, "selection,guidance"@);
        assert(forall|j: int|
            113 <= j < 134
                ==> is_check((#[trigger] l[j]).0@) || !touches(l[j].1@, "original_guidance"@));
        stays_through(l, known, answers, record, 113, 134, "original_guidance"@);
        saw_same(l, known, answers, record, 134);
    }
    assert(at(said(record, 107), "digest"@)
            != at(at(at(said(record, 109), "selection"@), "guidance"@), "digest"@)) by {
        was_said(l, known, answers, record, 108);
        assert(forall|j: int|
            109 <= j < 135 ==> is_check((#[trigger] l[j]).0@) || !touches(l[j].1@, "guidance"@));
        stays_through(l, known, answers, record, 109, 135, "guidance"@);
        lemma_under(record[135], "guidance"@, "digest"@, "guidance,digest"@);
        was_kept(l, known, answers, record, 112);
        was_kept(l, known, answers, record, 111);
        was_said(l, known, answers, record, 110);
        lemma_under(record[111], "select_document"@, "selection"@, "select_document,selection"@);
        lemma_under(record[112], "selection"@, "guidance"@, "selection,guidance"@);
        assert(forall|j: int|
            113 <= j < 135
                ==> is_check((#[trigger] l[j]).0@) || !touches(l[j].1@, "original_guidance"@));
        stays_through(l, known, answers, record, 113, 135, "original_guidance"@);
        lemma_under(record[135], "original_guidance"@, "digest"@, "original_guidance,digest"@);
        saw_differs(l, known, answers, record, 135);
    }
}

proof fn lemma_tools_were_maintained_8(known: Tree, answers: Seq<(Tree, bool)>, record: Seq<Tree>)
    requires
        passed(TOOLS@, known, answers, record),
    ensures
        at(record[115], "selection,method"@) == at(said(record, 95), "selected_method"@),
        made_guidance_note(
            said(record, 37),
            said(record, 81),
            said(record, 95),
            at(at(known, "keys"@), "comparison"@),
        )
            == Ok::<Tree, Seq<char>>(at(record[98], "note"@)),
{
    let l = TOOLS@;
    reveal_strlit("selection,method");
    reveal_strlit("selection");
    reveal_strlit("reply");
    reveal_strlit("learning_result");
    reveal_strlit("note");
    reveal_strlit("");
    reveal_strlit("done");
    reveal_strlit("updated_guidance");
    reveal_strlit("artifact_event");
    reveal_strlit("updated_reference");
    reveal_strlit("downloaded");
    reveal_strlit("guidance");
    reveal_strlit("select_document");
    reveal_strlit("original_guidance");
    reveal_strlit("selection,guidance");
    reveal_strlit("selected_method");
    reveal_strlit("learning_result,selected_method");
    reveal_strlit("method");
    reveal_strlit("guidance-note reference updated learning_result keys,comparison");
    reveal_strlit("guidance-note");
    reveal_strlit("reference updated learning_result keys,comparison");
    reveal_strlit("reference");
    reveal_strlit("updated learning_result keys,comparison");
    reveal_strlit("updated");
    reveal_strlit("learning_result keys,comparison");
    reveal_strlit("keys,comparison");
    reveal_strlit("recipe_path");
    reveal_strlit("expansion");
    reveal_strlit("expansion,manager_mount");
    reveal_strlit("refusal");
    reveal_strlit("retained");
    reveal_strlit("installed");
    reveal_strlit("recipe_name");
    reveal_strlit("recipe_digest");
    reveal_strlit("stage_receipt");
    reveal_strlit("stage");
    reveal_strlit("staged_tool");
    reveal_strlit("tool");
    reveal_strlit("staged");
    reveal_strlit("current");
    reveal_strlit("update_receipt");
    reveal_strlit("maintained");
    reveal_strlit("after");
    reveal_strlit("after_artifact");
    reveal_strlit("keys");
    reveal_strlit("workspace");
    reveal_strlit("scratch");
    reveal_strlit("before");
    reveal_strlit("before_artifact");
    reveal_strlit("tool_size");
    reveal_strlit("bounds,candidate");
    reveal_strlit("tool_digest");
    reveal_strlit("manifest,digest");
    reveal_strlit("manifest,size_bytes");
    reveal_strlit("manifest,build_path");
    reveal_strlit("tool_manifest");
    reveal_strlit("recorded");
    reveal_strlit("build_input");
    reveal_strlit("built");
    reveal_strlit("image");
    reveal_strlit("recipe");
    reveal_strlit("recipe,name");
    reveal_strlit("recipe,worker_image");
    reveal_strlit("comparison");
    assert("selection"@.len() == 9);
    assert("reply"@.len() == 5);
    assert("learning_result"@.len() == 15);
    lemma_apart("note"@, "learning_result"@, 0);
    lemma_apart(""@, "learning_result"@, 0);
    lemma_apart("done"@, "learning_result"@, 0);
    lemma_apart("updated_guidance"@, "learning_result"@, 0);
    lemma_apart("artifact_event"@, "learning_result"@, 0);
    lemma_apart("updated_reference"@, "learning_result"@, 0);
    lemma_apart("downloaded"@, "learning_result"@, 0);
    lemma_apart("guidance"@, "learning_result"@, 0);
    lemma_apart("select_document"@, "learning_result"@, 0);
    lemma_apart("selection"@, "learning_result"@, 0);
    lemma_apart("original_guidance"@, "learning_result"@, 0);
    lemma_apart("selection,guidance"@, "learning_result"@, 0);
    assert(
        "learning_result,selected_method"@ =~= "learning_result"@ + seq![','] + "selected_method"@
    );
    assert("selection,method"@ =~= "selection"@ + seq![','] + "method"@);
    assert(
        "learning_result keys,comparison"@ =~= "learning_result"@ + seq![' '] + "keys,comparison"@
    );
    lemma_two_words("learning_result"@, "keys,comparison"@, "learning_result keys,comparison"@);
    assert(
        "updated learning_result keys,comparison"@
            =~= "updated"@ + seq![' '] + "learning_result keys,comparison"@
    );
    lemma_four_words(
        "updated"@,
        "learning_result keys,comparison"@,
        "updated learning_result keys,comparison"@,
    );
    assert(
        "reference updated learning_result keys,comparison"@
            =~= "reference"@ + seq![' '] + "updated learning_result keys,comparison"@
    );
    lemma_four_words(
        "reference"@,
        "updated learning_result keys,comparison"@,
        "reference updated learning_result keys,comparison"@,
    );
    assert(
        "guidance-note reference updated learning_result keys,comparison"@
            =~= "guidance-note"@ + seq![' '] + "reference updated learning_result keys,comparison"@
    );
    lemma_four_words(
        "guidance-note"@,
        "reference updated learning_result keys,comparison"@,
        "guidance-note reference updated learning_result keys,comparison"@,
    );
    assert(
        parts("guidance-note reference updated learning_result keys,comparison"@)
            =~= seq![
                "guidance-note"@,
                "reference"@,
                "updated"@,
                "learning_result"@,
                "keys,comparison"@,
            ]
    );
    assert("reference"@.len() == 9);
    lemma_apart(""@, "reference"@, 0);
    lemma_apart("recipe_path"@, "reference"@, 2);
    lemma_apart("expansion"@, "reference"@, 0);
    lemma_apart("expansion,manager_mount"@, "reference"@, 0);
    lemma_apart("refusal"@, "reference"@, 3);
    lemma_apart("retained"@, "reference"@, 2);
    lemma_apart("installed"@, "reference"@, 0);
    lemma_apart("recipe_name"@, "reference"@, 2);
    lemma_apart("recipe_digest"@, "reference"@, 2);
    lemma_apart("stage_receipt"@, "reference"@, 0);
    lemma_apart("stage"@, "reference"@, 0);
    lemma_apart("staged_tool"@, "reference"@, 0);
    lemma_apart("artifact_event"@, "reference"@, 0);
    lemma_apart("tool"@, "reference"@, 0);
    lemma_apart("done"@, "reference"@, 0);
    lemma_apart("staged"@, "reference"@, 0);
    lemma_apart("current"@, "reference"@, 0);
    lemma_apart("update_receipt"@, "reference"@, 0);
    lemma_apart("updated"@, "reference"@, 0);
    lemma_apart("maintained"@, "reference"@, 0);
    lemma_apart("after"@, "reference"@, 0);
    lemma_apart("after_artifact"@, "reference"@, 0);
    lemma_apart("learning_result"@, "reference"@, 0);
    assert("updated"@.len() == 7);
    lemma_apart(""@, "updated"@, 0);
    lemma_apart("maintained"@, "updated"@, 0);
    lemma_apart("after"@, "updated"@, 0);
    lemma_apart("artifact_event"@, "updated"@, 0);
    lemma_apart("after_artifact"@, "updated"@, 0);
    lemma_apart("learning_result"@, "updated"@, 0);
    assert("keys,comparison"@.len() == 15);
    assert("keys"@.len() == 4);
    lemma_apart("workspace"@, "keys"@, 0);
    lemma_apart(""@, "keys"@, 0);
    lemma_apart("done"@, "keys"@, 0);
    lemma_apart("scratch"@, "keys"@, 0);
    lemma_apart("before"@, "keys"@, 0);
    lemma_apart("artifact_event"@, "keys"@, 0);
    lemma_apart("before_artifact"@, "keys"@, 0);
    lemma_apart("tool_size"@, "keys"@, 0);
    lemma_apart("bounds,candidate"@, "keys"@, 0);
    lemma_apart("tool_digest"@, "keys"@, 0);
    lemma_apart("manifest,digest"@, "keys"@, 0);
    lemma_apart("manifest,size_bytes"@, "keys"@, 0);
    lemma_apart("manifest,build_path"@, "keys"@, 0);
    lemma_apart("tool_manifest"@, "keys"@, 0);
    lemma_apart("recorded"@, "keys"@, 0);
    lemma_apart("build_input"@, "keys"@, 0);
    lemma_apart("built"@, "keys"@, 0);
    lemma_apart("image"@, "keys"@, 0);
    lemma_apart("recipe"@, "keys"@, 0);
    lemma_apart("recipe,name"@, "keys"@, 0);
    lemma_apart("recipe,worker_image"@, "keys"@, 0);
    lemma_apart("reference"@, "keys"@, 0);
    lemma_apart("recipe_path"@, "keys"@, 0);
    lemma_apart("expansion"@, "keys"@, 0);
    lemma_apart("expansion,manager_mount"@, "keys"@, 0);
    lemma_apart("refusal"@, "keys"@, 0);
    lemma_apart("retained"@, "keys"@, 0);
    lemma_apart("installed"@, "keys"@, 0);
    lemma_apart("recipe_name"@, "keys"@, 0);
    lemma_apart("recipe_digest"@, "keys"@, 0);
    lemma_apart("stage_receipt"@, "keys"@, 0);
    lemma_apart("stage"@, "keys"@, 0);
    lemma_apart("staged_tool"@, "keys"@, 0);
    lemma_apart("tool"@, "keys"@, 0);
    lemma_apart("staged"@, "keys"@, 0);
    lemma_apart("current"@, "keys"@, 0);
    lemma_apart("update_receipt"@, "keys"@, 0);
    lemma_apart("updated"@, "keys"@, 0);
    lemma_apart("maintained"@, "keys"@, 0);
    lemma_apart("after"@, "keys"@, 0);
    lemma_apart("after_artifact"@, "keys"@, 0);
    lemma_apart("learning_result"@, "keys"@, 0);
    assert("keys,comparison"@ =~= "keys"@ + seq![','] + "comparison"@);
    assert(
        parts("guidance-note reference updated learning_result keys,comparison"@).skip(1)
            =~= seq!["reference"@, "updated"@, "learning_result"@, "keys,comparison"@]
    );
    assert(at(record[115], "selection,method"@) == at(said(record, 95), "selected_method"@)) by {
        was_said(l, known, answers, record, 96);
        assert(forall|j: int|
            97 <= j < 114
                ==> is_check((#[trigger] l[j]).0@) || !touches(l[j].1@, "learning_result"@));
        stays_through(l, known, answers, record, 97, 114, "learning_result"@);
        lemma_under(
            record[114],
            "learning_result"@,
            "selected_method"@,
            "learning_result,selected_method"@,
        );
        was_put(l, known, answers, record, 114);
        lemma_under(record[115], "selection"@, "method"@, "selection,method"@);
    }
    assert(made_guidance_note(
            said(record, 37),
            said(record, 81),
            said(record, 95),
            at(at(known, "keys"@), "comparison"@),
        )
            == Ok::<Tree, Seq<char>>(at(record[98], "note"@))) by {
        was_made(l, known, answers, record, 97);
        was_said(l, known, answers, record, 38);
        assert(forall|j: int|
            39 <= j < 97 ==> is_check((#[trigger] l[j]).0@) || !touches(l[j].1@, "reference"@));
        stays_through(l, known, answers, record, 39, 97, "reference"@);
        was_said(l, known, answers, record, 82);
        assert(forall|j: int|
            83 <= j < 97 ==> is_check((#[trigger] l[j]).0@) || !touches(l[j].1@, "updated"@));
        stays_through(l, known, answers, record, 83, 97, "updated"@);
        was_said(l, known, answers, record, 96);
        assert(forall|j: int|
            0 <= j < 97 ==> is_check((#[trigger] l[j]).0@) || !touches(l[j].1@, "keys"@));
        stays_through(l, known, answers, record, 0, 97, "keys"@);
        lemma_under(record[97], "keys"@, "comparison"@, "keys,comparison"@);
        let args97 = arguments(
            parts("guidance-note reference updated learning_result keys,comparison"@).skip(1),
            record[97],
        );
        assert(
            args97
                =~= seq![
                    said(record, 37),
                    said(record, 81),
                    said(record, 95),
                    at(at(known, "keys"@), "comparison"@),
                ]
        );
        makes_guidance_note(args97, record[97]);
    }
}

proof fn lemma_tools_were_maintained_9(known: Tree, answers: Seq<(Tree, bool)>, record: Seq<Tree>)
    requires
        passed(TOOLS@, known, answers, record),
    ensures
        made_promotion_approval(said(record, 95), at(at(known, "keys"@), "promotion"@))
            == Ok::<Tree, Seq<char>>(at(record[118], "approval"@)),
{
    let l = TOOLS@;
    reveal_strlit("approval");
    reveal_strlit("promotion-approval learning_result keys,promotion");
    reveal_strlit("promotion-approval");
    reveal_strlit("learning_result keys,promotion");
    reveal_strlit("learning_result");
    reveal_strlit("keys,promotion");
    reveal_strlit("reply");
    reveal_strlit("note");
    reveal_strlit("");
    reveal_strlit("done");
    reveal_strlit("updated_guidance");
    reveal_strlit("artifact_event");
    reveal_strlit("updated_reference");
    reveal_strlit("downloaded");
    reveal_strlit("guidance");
    reveal_strlit("select_document");
    reveal_strlit("selection");
    reveal_strlit("original_guidance");
    reveal_strlit("selection,guidance");
    reveal_strlit("selection,method");
    reveal_strlit("selection,supersedes,actor");
    reveal_strlit("selection,supersedes,command");
    reveal_strlit("keys");
    reveal_strlit("workspace");
    reveal_strlit("scratch");
    reveal_strlit("before");
    reveal_strlit("before_artifact");
    reveal_strlit("tool_size");
    reveal_strlit("bounds,candidate");
    reveal_strlit("tool_digest");
    reveal_strlit("manifest,digest");
    reveal_strlit("manifest,size_bytes");
    reveal_strlit("manifest,build_path");
    reveal_strlit("tool_manifest");
    reveal_strlit("recorded");
    reveal_strlit("build_input");
    reveal_strlit("built");
    reveal_strlit("image");
    reveal_strlit("recipe");
    reveal_strlit("recipe,name");
    reveal_strlit("recipe,worker_image");
    reveal_strlit("reference");
    reveal_strlit("recipe_path");
    reveal_strlit("expansion");
    reveal_strlit("expansion,manager_mount");
    reveal_strlit("refusal");
    reveal_strlit("retained");
    reveal_strlit("installed");
    reveal_strlit("recipe_name");
    reveal_strlit("recipe_digest");
    reveal_strlit("stage_receipt");
    reveal_strlit("stage");
    reveal_strlit("staged_tool");
    reveal_strlit("tool");
    reveal_strlit("staged");
    reveal_strlit("current");
    reveal_strlit("update_receipt");
    reveal_strlit("updated");
    reveal_strlit("maintained");
    reveal_strlit("after");
    reveal_strlit("after_artifact");
    reveal_strlit("promotion");
    assert(
        "learning_result keys,promotion"@ =~= "learning_result"@ + seq![' '] + "keys,promotion"@
    );
    lemma_two_words("learning_result"@, "keys,promotion"@, "learning_result keys,promotion"@);
    assert(
        "promotion-approval learning_result keys,promotion"@
            =~= "promotion-approval"@ + seq![' '] + "learning_result keys,promotion"@
    );
    lemma_four_words(
        "promotion-approval"@,
        "learning_result keys,promotion"@,
        "promotion-approval learning_result keys,promotion"@,
    );
    assert(
        parts("promotion-approval learning_result keys,promotion"@)
            =~= seq!["promotion-approval"@, "learning_result"@, "keys,promotion"@]
    );
    assert("learning_result"@.len() == 15);
    assert("reply"@.len() == 5);
    lemma_apart("note"@, "learning_result"@, 0);
    lemma_apart(""@, "learning_result"@, 0);
    lemma_apart("done"@, "learning_result"@, 0);
    lemma_apart("updated_guidance"@, "learning_result"@, 0);
    lemma_apart("artifact_event"@, "learning_result"@, 0);
    lemma_apart("updated_reference"@, "learning_result"@, 0);
    lemma_apart("downloaded"@, "learning_result"@, 0);
    lemma_apart("guidance"@, "learning_result"@, 0);
    lemma_apart("select_document"@, "learning_result"@, 0);
    lemma_apart("selection"@, "learning_result"@, 0);
    lemma_apart("original_guidance"@, "learning_result"@, 0);
    lemma_apart("selection,guidance"@, "learning_result"@, 0);
    lemma_apart("selection,method"@, "learning_result"@, 0);
    lemma_apart("selection,supersedes,actor"@, "learning_result"@, 0);
    lemma_apart("selection,supersedes,command"@, "learning_result"@, 0);
    assert("keys,promotion"@.len() == 14);
    assert("keys"@.len() == 4);
    lemma_apart("workspace"@, "keys"@, 0);
    lemma_apart(""@, "keys"@, 0);
    lemma_apart("done"@, "keys"@, 0);
    lemma_apart("scratch"@, "keys"@, 0);
    lemma_apart("before"@, "keys"@, 0);
    lemma_apart("artifact_event"@, "keys"@, 0);
    lemma_apart("before_artifact"@, "keys"@, 0);
    lemma_apart("tool_size"@, "keys"@, 0);
    lemma_apart("bounds,candidate"@, "keys"@, 0);
    lemma_apart("tool_digest"@, "keys"@, 0);
    lemma_apart("manifest,digest"@, "keys"@, 0);
    lemma_apart("manifest,size_bytes"@, "keys"@, 0);
    lemma_apart("manifest,build_path"@, "keys"@, 0);
    lemma_apart("tool_manifest"@, "keys"@, 0);
    lemma_apart("recorded"@, "keys"@, 0);
    lemma_apart("build_input"@, "keys"@, 0);
    lemma_apart("built"@, "keys"@, 0);
    lemma_apart("image"@, "keys"@, 0);
    lemma_apart("recipe"@, "keys"@, 0);
    lemma_apart("recipe,name"@, "keys"@, 0);
    lemma_apart("recipe,worker_image"@, "keys"@, 0);
    lemma_apart("reference"@, "keys"@, 0);
    lemma_apart("recipe_path"@, "keys"@, 0);
    lemma_apart("expansion"@, "keys"@, 0);
    lemma_apart("expansion,manager_mount"@, "keys"@, 0);
    lemma_apart("refusal"@, "keys"@, 0);
    lemma_apart("retained"@, "keys"@, 0);
    lemma_apart("installed"@, "keys"@, 0);
    lemma_apart("recipe_name"@, "keys"@, 0);
    lemma_apart("recipe_digest"@, "keys"@, 0);
    lemma_apart("stage_receipt"@, "keys"@, 0);
    lemma_apart("stage"@, "keys"@, 0);
    lemma_apart("staged_tool"@, "keys"@, 0);
    lemma_apart("tool"@, "keys"@, 0);
    lemma_apart("staged"@, "keys"@, 0);
    lemma_apart("current"@, "keys"@, 0);
    lemma_apart("update_receipt"@, "keys"@, 0);
    lemma_apart("updated"@, "keys"@, 0);
    lemma_apart("maintained"@, "keys"@, 0);
    lemma_apart("after"@, "keys"@, 0);
    lemma_apart("after_artifact"@, "keys"@, 0);
    lemma_apart("learning_result"@, "keys"@, 0);
    lemma_apart("note"@, "keys"@, 0);
    lemma_apart("updated_guidance"@, "keys"@, 0);
    lemma_apart("updated_reference"@, "keys"@, 0);
    lemma_apart("downloaded"@, "keys"@, 0);
    lemma_apart("guidance"@, "keys"@, 0);
    lemma_apart("select_document"@, "keys"@, 0);
    lemma_apart("selection"@, "keys"@, 0);
    lemma_apart("original_guidance"@, "keys"@, 0);
    lemma_apart("selection,guidance"@, "keys"@, 0);
    lemma_apart("selection,method"@, "keys"@, 0);
    lemma_apart("selection,supersedes,actor"@, "keys"@, 0);
    lemma_apart("selection,supersedes,command"@, "keys"@, 0);
    assert("keys,promotion"@ =~= "keys"@ + seq![','] + "promotion"@);
    assert(
        parts("promotion-approval learning_result keys,promotion"@).skip(1)
            =~= seq!["learning_result"@, "keys,promotion"@]
    );
    assert(made_promotion_approval(said(record, 95), at(at(known, "keys"@), "promotion"@))
            == Ok::<Tree, Seq<char>>(at(record[118], "approval"@))) by {
        was_made(l, known, answers, record, 117);
        was_said(l, known, answers, record, 96);
        assert(forall|j: int|
            97 <= j < 117
                ==> is_check((#[trigger] l[j]).0@) || !touches(l[j].1@, "learning_result"@));
        stays_through(l, known, answers, record, 97, 117, "learning_result"@);
        assert(forall|j: int|
            0 <= j < 117 ==> is_check((#[trigger] l[j]).0@) || !touches(l[j].1@, "keys"@));
        stays_through(l, known, answers, record, 0, 117, "keys"@);
        lemma_under(record[117], "keys"@, "promotion"@, "keys,promotion"@);
        let args117 = arguments(
            parts("promotion-approval learning_result keys,promotion"@).skip(1),
            record[117],
        );
        assert(args117 =~= seq![said(record, 95), at(at(known, "keys"@), "promotion"@)]);
        makes_promotion_approval(args117, record[117]);
    }
}

/// Tools are maintained only where the recorded bytes fit the bound and are those that were staged,
/// the recipe reader refused access to the manager, the staged and the updated installation
/// verified a new generation with nothing pending, the working candidate kept its bytes, and the
/// original selection kept its guidance beside the new one.
pub proof fn tools_were_maintained(known: Tree, answers: Seq<(Tree, bool)>) -> (record: Seq<Tree>)
    requires
        known is Object,
        finished(TOOLS@, known, answers),
    ensures
        passed(TOOLS@, known, answers, record),
        TOOLS@[12].2@ == "measure-tool"@,
        is_positive(said(record, 12)),
        is_at_least(Tree::Integer(4194304), said(record, 12)),
        TOOLS@[24].2@ == "record-tool"@,
        said(record, 24) == Tree::Bool(true),
        TOOLS@[29].2@ == "build-image"@,
        at(said(record, 29), "succeeded"@) == Tree::Bool(true),
        TOOLS@[43].2@ == "recipe-refusal expansion"@,
        said(record, 43) == Tree::Bool(true),
        TOOLS@[54].2@ == "resource tools-stage-state success learn-tools-stage 0 inspect"@,
        at(said(record, 54), "pending"@) == Tree::Null,
        is_positive(at(said(record, 54), "generation"@)),
        TOOLS@[17].2@ == "hash-tool"@,
        at(at(at(record[63], "artifact_event"@), "event,kind,reference"@), "digest"@)
            == said(record, 17),
        at(at(at(record[63], "artifact_event"@), "event,kind,reference"@), "size_bytes"@)
            == said(record, 12),
        TOOLS@[81].2@ == "resource tools-updated-state success $workspace 0 inspect"@,
        at(said(record, 81), "pending"@) == Tree::Null,
        TOOLS@[72].2@ == "retained tools-old-state.json inspect $workspace"@,
        is_above(at(said(record, 81), "generation"@), at(said(record, 72), "generation"@)),
        at(at(at(record[93], "artifact_event"@), "event,kind,reference"@), "digest"@)
            == at(at(at(record[11], "artifact_event"@), "event,kind,reference"@), "digest"@),
        TOOLS@[132].2@
            == "command learning-original-selection-after-update success operator inspect"@,
        TOOLS@[109].2@ == "load learning-select.json"@,
        at(said(record, 132), "selection,guidance"@)
            == at(at(said(record, 109), "selection"@), "guidance"@),
        TOOLS@[107].2@ == "upload tools-updated-guidance text/plain file:updated_guidance"@,
        at(said(record, 107), "digest"@)
            != at(at(at(said(record, 109), "selection"@), "guidance"@), "digest"@),
        TOOLS@[95].2@ == "load result.json"@,
        at(record[115], "selection,method"@) == at(said(record, 95), "selected_method"@),
        TOOLS@[37].2@ == "recipe-reference recipe"@,
        made_guidance_note(
            said(record, 37),
            said(record, 81),
            said(record, 95),
            at(at(known, "keys"@), "comparison"@),
        )
            == Ok::<Tree, Seq<char>>(at(record[98], "note"@)),
        made_promotion_approval(said(record, 95), at(at(known, "keys"@), "promotion"@))
            == Ok::<Tree, Seq<char>>(at(record[118], "approval"@)),
{
    let record = finished_scenarios_are_recorded(TOOLS@, known, answers);
    lemma_tools_were_maintained_1(known, answers, record);
    lemma_tools_were_maintained_2(known, answers, record);
    lemma_tools_were_maintained_3(known, answers, record);
    lemma_tools_were_maintained_4(known, answers, record);
    lemma_tools_were_maintained_5(known, answers, record);
    lemma_tools_were_maintained_6(known, answers, record);
    lemma_tools_were_maintained_7(known, answers, record);
    lemma_tools_were_maintained_8(known, answers, record);
    lemma_tools_were_maintained_9(known, answers, record);
    record
}

} // verus!
