//! What finished local-model scenarios have shown.

use vstd::prelude::*;

use crate::findings::{
    awaited_text, beginnings_pass, endings_pass, is_check, items_of, lemma_apart, lemma_one_digit,
    lemma_three_words, lemma_two_words, lemma_under, no_element, said, saw_false, saw_is, saw_lacks,
    saw_len, saw_mentions, saw_none, saw_null, saw_num, saw_omits, saw_same, saw_true, stays,
    stays_through, text_lacks, text_with, text_without, told, touches, unchanged, was_awaited,
    was_kept, was_made, was_said, was_told,
};
use crate::json::{at, Tree};
use crate::makers::{made_rendered, made_rendered_elements, makes_rendered, makes_rendered_elements};
use crate::record::{finished, finished_scenarios_are_recorded, passed};
use crate::scenario::{arguments, number_of, parts};
use crate::scripts::local_model::{
    case_script, ACCEPTANCE, CONTINUATION, CONTINUATION_REJECTED, CONTINUATION_START, LOCAL_MODEL,
    PREPARATION,
};

verus! {

proof fn lemma_acceptance_was_gated_1(known: Tree, answers: Seq<(Tree, bool)>, record: Seq<Tree>)
    requires
        passed(ACCEPTANCE@, known, answers, record),
    ensures
        said(record, 9) == Tree::Integer(0),
        at(told(record, 14), "value,terminal"@) == Tree::Text("succeeded"@),
        at(told(record, 14), "value,model_generation,finish_reason"@) == Tree::Text("length"@),
        no_element(
            items_of(at(told(record, 22), "value,nodes"@)),
            "node_id"@,
            Tree::Text("first-acceptance"@),
        ),
        said(record, 24) == Tree::Integer(0),
{
    let l = ACCEPTANCE@;
    reveal_strlit("0");
    reveal_strlit("entries");
    reveal_strlit("reply");
    reveal_strlit("source");
    reveal_strlit("value,terminal");
    reveal_strlit("source,value,terminal");
    reveal_strlit("value,model_generation,finish_reason");
    reveal_strlit("source,value,model_generation,finish_reason");
    reveal_strlit("reopened");
    reveal_strlit("");
    reveal_strlit("value,nodes");
    reveal_strlit("reopened,value,nodes");
    reveal_strlit("is");
    reveal_strlit("node_id");
    reveal_strlit("first-acceptance");
    reveal_strlit("is node_id first-acceptance");
    reveal_strlit("else");
    reveal_strlit("plus");
    lemma_one_digit("0"@);
    assert(number_of("0"@) == Some(0u64));
    assert("entries"@.len() == 7);
    assert("reply"@.len() == 5);
    assert("source"@.len() == 6);
    assert("source,value,terminal"@ =~= "source"@ + seq![','] + "value,terminal"@);
    assert(
        "source,value,model_generation,finish_reason"@
            =~= "source"@ + seq![','] + "value,model_generation,finish_reason"@
    );
    assert("reopened"@.len() == 8);
    lemma_apart(""@, "reopened"@, 0);
    lemma_apart("entries"@, "reopened"@, 0);
    assert("reopened,value,nodes"@ =~= "reopened"@ + seq![','] + "value,nodes"@);
    assert(
        "is node_id first-acceptance"@
            =~= "is"@ + seq![' '] + "node_id"@ + seq![' '] + "first-acceptance"@
    );
    lemma_three_words("is"@, "node_id"@, "first-acceptance"@, "is node_id first-acceptance"@);
    assert("node_id"@.len() == 7);
    assert("else"@.len() == 4);
    assert("plus"@.len() == 4);
    assert("first-acceptance"@.len() == 16);
    assert(said(record, 9) == Tree::Integer(0)) by {
        was_said(l, known, answers, record, 10);
        saw_num(l, known, answers, record, 11, 0);
    }
    assert(at(told(record, 14), "value,terminal"@) == Tree::Text("succeeded"@)) by {
        was_told(l, known, answers, record, 15);
        lemma_under(record[16], "source"@, "value,terminal"@, "source,value,terminal"@);
        saw_is(l, known, answers, record, 16);
    }
    assert(at(told(record, 14), "value,model_generation,finish_reason"@) == Tree::Text("length"@)) by {
        was_told(l, known, answers, record, 15);
        unchanged(l, known, answers, record, 16);
        lemma_under(
            record[17],
            "source"@,
            "value,model_generation,finish_reason"@,
            "source,value,model_generation,finish_reason"@,
        );
        saw_is(l, known, answers, record, 17);
    }
    assert(no_element(
            items_of(at(told(record, 22), "value,nodes"@)),
            "node_id"@,
            Tree::Text("first-acceptance"@),
        )) by {
        was_told(l, known, answers, record, 23);
        stays(l, known, answers, record, 24, "reopened"@);
        stays(l, known, answers, record, 25, "reopened"@);
        lemma_under(record[26], "reopened"@, "value,nodes"@, "reopened,value,nodes"@);
        saw_none(l, known, answers, record, 26, "node_id"@, "first-acceptance"@);
    }
    assert(said(record, 24) == Tree::Integer(0)) by {
        was_said(l, known, answers, record, 25);
        unchanged(l, known, answers, record, 26);
        saw_num(l, known, answers, record, 27, 0);
    }
}

proof fn lemma_acceptance_was_gated_2(known: Tree, answers: Seq<(Tree, bool)>, record: Seq<Tree>)
    requires
        passed(ACCEPTANCE@, known, answers, record),
    ensures
        at(told(record, 31), "value,replayed"@) == Tree::Bool(true),
        said(record, 40) == Tree::Integer(0),
        at(told(record, 45), "value,terminal"@) == Tree::Text("succeeded"@),
        at(told(record, 45), "value,model_generation,finish_reason"@) == Tree::Text("length"@),
        at(at(record[50], "decision_node"@), "attempt_count"@) == Tree::Integer(1),
{
    let l = ACCEPTANCE@;
    reveal_strlit("replay");
    reveal_strlit("reply");
    reveal_strlit("value,replayed");
    reveal_strlit("replay,value,replayed");
    reveal_strlit("0");
    reveal_strlit("entries");
    reveal_strlit("source");
    reveal_strlit("value,terminal");
    reveal_strlit("source,value,terminal");
    reveal_strlit("value,model_generation,finish_reason");
    reveal_strlit("source,value,model_generation,finish_reason");
    reveal_strlit("1");
    reveal_strlit("decision_node");
    reveal_strlit("decision_attempt");
    reveal_strlit("");
    reveal_strlit("decision");
    reveal_strlit("attempt_count");
    reveal_strlit("decision_node,attempt_count");
    assert("replay"@.len() == 6);
    assert("reply"@.len() == 5);
    assert("replay,value,replayed"@ =~= "replay"@ + seq![','] + "value,replayed"@);
    lemma_one_digit("0"@);
    assert(number_of("0"@) == Some(0u64));
    assert("entries"@.len() == 7);
    assert("source"@.len() == 6);
    assert("source,value,terminal"@ =~= "source"@ + seq![','] + "value,terminal"@);
    assert(
        "source,value,model_generation,finish_reason"@
            =~= "source"@ + seq![','] + "value,model_generation,finish_reason"@
    );
    lemma_one_digit("1"@);
    assert(number_of("1"@) == Some(1u64));
    assert("decision_node"@.len() == 13);
    lemma_apart("decision_attempt"@, "decision_node"@, 9);
    lemma_apart(""@, "decision_node"@, 0);
    lemma_apart("decision"@, "decision_node"@, 8);
    assert("decision_node,attempt_count"@ =~= "decision_node"@ + seq![','] + "attempt_count"@);
    assert(at(told(record, 31), "value,replayed"@) == Tree::Bool(true)) by {
        was_told(l, known, answers, record, 32);
        lemma_under(record[33], "replay"@, "value,replayed"@, "replay,value,replayed"@);
        saw_true(l, known, answers, record, 33);
    }
    assert(said(record, 40) == Tree::Integer(0)) by {
        was_said(l, known, answers, record, 41);
        saw_num(l, known, answers, record, 42, 0);
    }
    assert(at(told(record, 45), "value,terminal"@) == Tree::Text("succeeded"@)) by {
        was_told(l, known, answers, record, 46);
        lemma_under(record[47], "source"@, "value,terminal"@, "source,value,terminal"@);
        saw_is(l, known, answers, record, 47);
    }
    assert(at(told(record, 45), "value,model_generation,finish_reason"@) == Tree::Text("length"@)) by {
        was_told(l, known, answers, record, 46);
        unchanged(l, known, answers, record, 47);
        lemma_under(
            record[48],
            "source"@,
            "value,model_generation,finish_reason"@,
            "source,value,model_generation,finish_reason"@,
        );
        saw_is(l, known, answers, record, 48);
    }
    assert(at(at(record[50], "decision_node"@), "attempt_count"@) == Tree::Integer(1)) by {
        assert(forall|j: int|
            50 <= j < 53 ==> is_check((#[trigger] l[j]).0@) || !touches(l[j].1@, "decision_node"@));
        stays_through(l, known, answers, record, 50, 53, "decision_node"@);
        lemma_under(record[53], "decision_node"@, "attempt_count"@, "decision_node,attempt_count"@);
        saw_num(l, known, answers, record, 53, 1);
    }
}

proof fn lemma_acceptance_was_gated_3(known: Tree, answers: Seq<(Tree, bool)>, record: Seq<Tree>)
    requires
        passed(ACCEPTANCE@, known, answers, record),
    ensures
        at(told(record, 51), "value,result_acceptance,accepted"@) == Tree::Bool(false),
        at(told(record, 51), "value,result_acceptance,reason"@)
            == Tree::Text("output_allowance_exhausted"@),
        no_element(
            items_of(at(told(record, 61), "value,nodes"@)),
            "node_id"@,
            Tree::Text("repair"@),
        ),
        said(record, 63) == Tree::Integer(0),
        at(told(record, 51), "value"@) == at(told(record, 67), "value"@),
{
    let l = ACCEPTANCE@;
    reveal_strlit("decision");
    reveal_strlit("reply");
    reveal_strlit("value,result_acceptance,accepted");
    reveal_strlit("decision,value,result_acceptance,accepted");
    reveal_strlit("value,result_acceptance,reason");
    reveal_strlit("decision,value,result_acceptance,reason");
    reveal_strlit("reopened");
    reveal_strlit("");
    reveal_strlit("entries");
    reveal_strlit("value,nodes");
    reveal_strlit("reopened,value,nodes");
    reveal_strlit("is");
    reveal_strlit("node_id");
    reveal_strlit("repair");
    reveal_strlit("is node_id repair");
    reveal_strlit("else");
    reveal_strlit("plus");
    reveal_strlit("0");
    reveal_strlit("report,rejected");
    reveal_strlit("killed");
    reveal_strlit("started");
    reveal_strlit("kept_decision");
    reveal_strlit("value");
    reveal_strlit("decision,value");
    reveal_strlit("kept_decision,value");
    assert("decision"@.len() == 8);
    assert("reply"@.len() == 5);
    assert(
        "decision,value,result_acceptance,accepted"@
            =~= "decision"@ + seq![','] + "value,result_acceptance,accepted"@
    );
    assert(
        "decision,value,result_acceptance,reason"@
            =~= "decision"@ + seq![','] + "value,result_acceptance,reason"@
    );
    assert("reopened"@.len() == 8);
    lemma_apart(""@, "reopened"@, 0);
    lemma_apart("entries"@, "reopened"@, 0);
    assert("reopened,value,nodes"@ =~= "reopened"@ + seq![','] + "value,nodes"@);
    assert("is node_id repair"@ =~= "is"@ + seq![' '] + "node_id"@ + seq![' '] + "repair"@);
    lemma_three_words("is"@, "node_id"@, "repair"@, "is node_id repair"@);
    assert("node_id"@.len() == 7);
    assert("else"@.len() == 4);
    assert("plus"@.len() == 4);
    assert("repair"@.len() == 6);
    lemma_one_digit("0"@);
    assert(number_of("0"@) == Some(0u64));
    assert("entries"@.len() == 7);
    lemma_apart("report,rejected"@, "decision"@, 0);
    lemma_apart(""@, "decision"@, 0);
    lemma_apart("killed"@, "decision"@, 0);
    lemma_apart("started"@, "decision"@, 0);
    lemma_apart("reopened"@, "decision"@, 0);
    lemma_apart("entries"@, "decision"@, 0);
    lemma_apart("kept_decision"@, "decision"@, 0);
    assert("decision,value"@ =~= "decision"@ + seq![','] + "value"@);
    assert("kept_decision"@.len() == 13);
    assert("kept_decision,value"@ =~= "kept_decision"@ + seq![','] + "value"@);
    assert(at(told(record, 51), "value,result_acceptance,accepted"@) == Tree::Bool(false)) by {
        was_told(l, known, answers, record, 52);
        unchanged(l, known, answers, record, 53);
        lemma_under(
            record[54],
            "decision"@,
            "value,result_acceptance,accepted"@,
            "decision,value,result_acceptance,accepted"@,
        );
        saw_false(l, known, answers, record, 54);
    }
    assert(at(told(record, 51), "value,result_acceptance,reason"@)
            == Tree::Text("output_allowance_exhausted"@)) by {
        was_told(l, known, answers, record, 52);
        unchanged(l, known, answers, record, 53);
        unchanged(l, known, answers, record, 54);
        lemma_under(
            record[55],
            "decision"@,
            "value,result_acceptance,reason"@,
            "decision,value,result_acceptance,reason"@,
        );
        saw_is(l, known, answers, record, 55);
    }
    assert(no_element(
            items_of(at(told(record, 61), "value,nodes"@)),
            "node_id"@,
            Tree::Text("repair"@),
        )) by {
        was_told(l, known, answers, record, 62);
        stays(l, known, answers, record, 63, "reopened"@);
        stays(l, known, answers, record, 64, "reopened"@);
        lemma_under(record[65], "reopened"@, "value,nodes"@, "reopened,value,nodes"@);
        saw_none(l, known, answers, record, 65, "node_id"@, "repair"@);
    }
    assert(said(record, 63) == Tree::Integer(0)) by {
        was_said(l, known, answers, record, 64);
        unchanged(l, known, answers, record, 65);
        saw_num(l, known, answers, record, 66, 0);
    }
    assert(at(told(record, 51), "value"@) == at(told(record, 67), "value"@)) by {
        was_told(l, known, answers, record, 52);
        assert(forall|j: int|
            53 <= j < 69 ==> is_check((#[trigger] l[j]).0@) || !touches(l[j].1@, "decision"@));
        stays_through(l, known, answers, record, 53, 69, "decision"@);
        lemma_under(record[69], "decision"@, "value"@, "decision,value"@);
        was_told(l, known, answers, record, 68);
        lemma_under(record[69], "kept_decision"@, "value"@, "kept_decision,value"@);
        saw_same(l, known, answers, record, 69);
    }
}

proof fn lemma_acceptance_was_gated_4(known: Tree, answers: Seq<(Tree, bool)>, record: Seq<Tree>)
    requires
        passed(ACCEPTANCE@, known, answers, record),
    ensures
        at(told(record, 73), "value,replayed"@) == Tree::Bool(true),
        said(record, 82) == Tree::Integer(0),
        at(told(record, 87), "value,terminal"@) == Tree::Text("succeeded"@),
        at(told(record, 87), "value,model_generation,finish_reason"@) == Tree::Text("length"@),
        at(at(record[92], "decision_node"@), "attempt_count"@) == Tree::Integer(1),
{
    let l = ACCEPTANCE@;
    reveal_strlit("replay");
    reveal_strlit("reply");
    reveal_strlit("value,replayed");
    reveal_strlit("replay,value,replayed");
    reveal_strlit("0");
    reveal_strlit("entries");
    reveal_strlit("source");
    reveal_strlit("value,terminal");
    reveal_strlit("source,value,terminal");
    reveal_strlit("value,model_generation,finish_reason");
    reveal_strlit("source,value,model_generation,finish_reason");
    reveal_strlit("1");
    reveal_strlit("decision_node");
    reveal_strlit("decision_attempt");
    reveal_strlit("");
    reveal_strlit("decision");
    reveal_strlit("attempt_count");
    reveal_strlit("decision_node,attempt_count");
    assert("replay"@.len() == 6);
    assert("reply"@.len() == 5);
    assert("replay,value,replayed"@ =~= "replay"@ + seq![','] + "value,replayed"@);
    lemma_one_digit("0"@);
    assert(number_of("0"@) == Some(0u64));
    assert("entries"@.len() == 7);
    assert("source"@.len() == 6);
    assert("source,value,terminal"@ =~= "source"@ + seq![','] + "value,terminal"@);
    assert(
        "source,value,model_generation,finish_reason"@
            =~= "source"@ + seq![','] + "value,model_generation,finish_reason"@
    );
    lemma_one_digit("1"@);
    assert(number_of("1"@) == Some(1u64));
    assert("decision_node"@.len() == 13);
    lemma_apart("decision_attempt"@, "decision_node"@, 9);
    lemma_apart(""@, "decision_node"@, 0);
    lemma_apart("decision"@, "decision_node"@, 8);
    assert("decision_node,attempt_count"@ =~= "decision_node"@ + seq![','] + "attempt_count"@);
    assert(at(told(record, 73), "value,replayed"@) == Tree::Bool(true)) by {
        was_told(l, known, answers, record, 74);
        lemma_under(record[75], "replay"@, "value,replayed"@, "replay,value,replayed"@);
        saw_true(l, known, answers, record, 75);
    }
    assert(said(record, 82) == Tree::Integer(0)) by {
        was_said(l, known, answers, record, 83);
        saw_num(l, known, answers, record, 84, 0);
    }
    assert(at(told(record, 87), "value,terminal"@) == Tree::Text("succeeded"@)) by {
        was_told(l, known, answers, record, 88);
        lemma_under(record[89], "source"@, "value,terminal"@, "source,value,terminal"@);
        saw_is(l, known, answers, record, 89);
    }
    assert(at(told(record, 87), "value,model_generation,finish_reason"@) == Tree::Text("length"@)) by {
        was_told(l, known, answers, record, 88);
        unchanged(l, known, answers, record, 89);
        lemma_under(
            record[90],
            "source"@,
            "value,model_generation,finish_reason"@,
            "source,value,model_generation,finish_reason"@,
        );
        saw_is(l, known, answers, record, 90);
    }
    assert(at(at(record[92], "decision_node"@), "attempt_count"@) == Tree::Integer(1)) by {
        assert(forall|j: int|
            92 <= j < 95 ==> is_check((#[trigger] l[j]).0@) || !touches(l[j].1@, "decision_node"@));
        stays_through(l, known, answers, record, 92, 95, "decision_node"@);
        lemma_under(record[95], "decision_node"@, "attempt_count"@, "decision_node,attempt_count"@);
        saw_num(l, known, answers, record, 95, 1);
    }
}

proof fn lemma_acceptance_was_gated_5(known: Tree, answers: Seq<(Tree, bool)>, record: Seq<Tree>)
    requires
        passed(ACCEPTANCE@, known, answers, record),
    ensures
        at(told(record, 93), "value,result_acceptance,accepted"@) == Tree::Bool(true),
        no_element(
            items_of(at(told(record, 102), "value,nodes"@)),
            "node_id"@,
            Tree::Text("dependent"@),
        ),
        said(record, 104) == Tree::Integer(0),
        at(told(record, 93), "value"@) == at(told(record, 108), "value"@),
        at(told(record, 114), "value,replayed"@) == Tree::Bool(true),
{
    let l = ACCEPTANCE@;
    reveal_strlit("decision");
    reveal_strlit("reply");
    reveal_strlit("value,result_acceptance,accepted");
    reveal_strlit("decision,value,result_acceptance,accepted");
    reveal_strlit("reopened");
    reveal_strlit("");
    reveal_strlit("entries");
    reveal_strlit("value,nodes");
    reveal_strlit("reopened,value,nodes");
    reveal_strlit("is");
    reveal_strlit("node_id");
    reveal_strlit("dependent");
    reveal_strlit("is node_id dependent");
    reveal_strlit("else");
    reveal_strlit("plus");
    reveal_strlit("0");
    reveal_strlit("report,accepted");
    reveal_strlit("killed");
    reveal_strlit("started");
    reveal_strlit("kept_decision");
    reveal_strlit("value");
    reveal_strlit("decision,value");
    reveal_strlit("kept_decision,value");
    reveal_strlit("replay");
    reveal_strlit("value,replayed");
    reveal_strlit("replay,value,replayed");
    assert("decision"@.len() == 8);
    assert("reply"@.len() == 5);
    assert(
        "decision,value,result_acceptance,accepted"@
            =~= "decision"@ + seq![','] + "value,result_acceptance,accepted"@
    );
    assert("reopened"@.len() == 8);
    lemma_apart(""@, "reopened"@, 0);
    lemma_apart("entries"@, "reopened"@, 0);
    assert("reopened,value,nodes"@ =~= "reopened"@ + seq![','] + "value,nodes"@);
    assert("is node_id dependent"@ =~= "is"@ + seq![' '] + "node_id"@ + seq![' '] + "dependent"@);
    lemma_three_words("is"@, "node_id"@, "dependent"@, "is node_id dependent"@);
    assert("node_id"@.len() == 7);
    assert("else"@.len() == 4);
    assert("plus"@.len() == 4);
    assert("dependent"@.len() == 9);
    lemma_one_digit("0"@);
    assert(number_of("0"@) == Some(0u64));
    assert("entries"@.len() == 7);
    lemma_apart("report,accepted"@, "decision"@, 0);
    lemma_apart(""@, "decision"@, 0);
    lemma_apart("killed"@, "decision"@, 0);
    lemma_apart("started"@, "decision"@, 0);
    lemma_apart("reopened"@, "decision"@, 0);
    lemma_apart("entries"@, "decision"@, 0);
    lemma_apart("kept_decision"@, "decision"@, 0);
    assert("decision,value"@ =~= "decision"@ + seq![','] + "value"@);
    assert("kept_decision"@.len() == 13);
    assert("kept_decision,value"@ =~= "kept_decision"@ + seq![','] + "value"@);
    assert("replay"@.len() == 6);
    assert("replay,value,replayed"@ =~= "replay"@ + seq![','] + "value,replayed"@);
    assert(at(told(record, 93), "value,result_acceptance,accepted"@) == Tree::Bool(true)) by {
        was_told(l, known, answers, record, 94);
        unchanged(l, known, answers, record, 95);
        lemma_under(
            record[96],
            "decision"@,
            "value,result_acceptance,accepted"@,
            "decision,value,result_acceptance,accepted"@,
        );
        saw_true(l, known, answers, record, 96);
    }
    assert(no_element(
            items_of(at(told(record, 102), "value,nodes"@)),
            "node_id"@,
            Tree::Text("dependent"@),
        )) by {
        was_told(l, known, answers, record, 103);
        stays(l, known, answers, record, 104, "reopened"@);
        stays(l, known, answers, record, 105, "reopened"@);
        lemma_under(record[106], "reopened"@, "value,nodes"@, "reopened,value,nodes"@);
        saw_none(l, known, answers, record, 106, "node_id"@, "dependent"@);
    }
    assert(said(record, 104) == Tree::Integer(0)) by {
        was_said(l, known, answers, record, 105);
        unchanged(l, known, answers, record, 106);
        saw_num(l, known, answers, record, 107, 0);
    }
    assert(at(told(record, 93), "value"@) == at(told(record, 108), "value"@)) by {
        was_told(l, known, answers, record, 94);
        assert(forall|j: int|
            95 <= j < 110 ==> is_check((#[trigger] l[j]).0@) || !touches(l[j].1@, "decision"@));
        stays_through(l, known, answers, record, 95, 110, "decision"@);
        lemma_under(record[110], "decision"@, "value"@, "decision,value"@);
        was_told(l, known, answers, record, 109);
        lemma_under(record[110], "kept_decision"@, "value"@, "kept_decision,value"@);
        saw_same(l, known, answers, record, 110);
    }
    assert(at(told(record, 114), "value,replayed"@) == Tree::Bool(true)) by {
        was_told(l, known, answers, record, 115);
        lemma_under(record[116], "replay"@, "value,replayed"@, "replay,value,replayed"@);
        saw_true(l, known, answers, record, 116);
    }
}

proof fn lemma_acceptance_was_gated_6(known: Tree, answers: Seq<(Tree, bool)>, record: Seq<Tree>)
    requires
        passed(ACCEPTANCE@, known, answers, record),
    ensures
        at(told(record, 120), "value,terminal"@) == Tree::Text("succeeded"@),
        no_element(
            items_of(at(told(record, 120), "value,nodes"@)),
            "node_id"@,
            Tree::Text("forbidden-dependent"@),
        ),
        said(record, 125) == Tree::Integer(1),
        said(record, 130) == Tree::Integer(1),
        said(record, 135) == Tree::Integer(1),
{
    let l = ACCEPTANCE@;
    reveal_strlit("until");
    reveal_strlit("reply");
    reveal_strlit("or");
    reveal_strlit("completed");
    reveal_strlit("is");
    reveal_strlit("completed,value,terminal");
    reveal_strlit("succeeded");
    reveal_strlit("is completed,value,terminal succeeded");
    reveal_strlit("value,terminal");
    reveal_strlit("");
    reveal_strlit("value,nodes");
    reveal_strlit("completed,value,nodes");
    reveal_strlit("node_id");
    reveal_strlit("forbidden-dependent");
    reveal_strlit("is node_id forbidden-dependent");
    reveal_strlit("else");
    reveal_strlit("plus");
    reveal_strlit("1");
    reveal_strlit("entries");
    assert("completed"@.len() == 9);
    assert("reply"@.len() == 5);
    assert(
        "is completed,value,terminal succeeded"@
            =~= "is"@ + seq![' '] + "completed,value,terminal"@ + seq![' '] + "succeeded"@
    );
    lemma_three_words(
        "is"@,
        "completed,value,terminal"@,
        "succeeded"@,
        "is completed,value,terminal succeeded"@,
    );
    assert("completed,value,terminal"@.len() == 24);
    assert("succeeded"@.len() == 9);
    assert("or"@.len() == 2);
    assert("completed,value,terminal"@ =~= "completed"@ + seq![','] + "value,terminal"@);
    lemma_apart(""@, "completed"@, 0);
    assert("completed,value,nodes"@ =~= "completed"@ + seq![','] + "value,nodes"@);
    assert(
        "is node_id forbidden-dependent"@
            =~= "is"@ + seq![' '] + "node_id"@ + seq![' '] + "forbidden-dependent"@
    );
    lemma_three_words("is"@, "node_id"@, "forbidden-dependent"@, "is node_id forbidden-dependent"@);
    assert("node_id"@.len() == 7);
    assert("else"@.len() == 4);
    assert("plus"@.len() == 4);
    assert("forbidden-dependent"@.len() == 19);
    lemma_one_digit("1"@);
    assert(number_of("1"@) == Some(1u64));
    assert("entries"@.len() == 7);
    assert(at(told(record, 120), "value,terminal"@) == Tree::Text("succeeded"@)) by {
        was_awaited(l, known, answers, record, 120);
        awaited_text(
            l,
            known,
            answers,
            record,
            120,
            121,
            "completed,value,terminal"@,
            "succeeded"@,
        );
        lemma_under(record[121], "completed"@, "value,terminal"@, "completed,value,terminal"@);
    }
    assert(no_element(
            items_of(at(told(record, 120), "value,nodes"@)),
            "node_id"@,
            Tree::Text("forbidden-dependent"@),
        )) by {
        was_awaited(l, known, answers, record, 120);
        stays(l, known, answers, record, 121, "completed"@);
        lemma_under(record[122], "completed"@, "value,nodes"@, "completed,value,nodes"@);
        saw_none(l, known, answers, record, 122, "node_id"@, "forbidden-dependent"@);
    }
    assert(said(record, 125) == Tree::Integer(1)) by {
        was_said(l, known, answers, record, 126);
        saw_num(l, known, answers, record, 127, 1);
    }
    assert(said(record, 130) == Tree::Integer(1)) by {
        was_said(l, known, answers, record, 131);
        saw_num(l, known, answers, record, 132, 1);
    }
    assert(said(record, 135) == Tree::Integer(1)) by {
        was_said(l, known, answers, record, 136);
        saw_num(l, known, answers, record, 137, 1);
    }
}

/// An acceptance run finishes only where the dependent endpoint had no request before the accepted
/// review and its release, across three restarts; the exhausted invocation stayed a success; the
/// first decision was a rejection and the second an acceptance, each evaluated once and kept by a
/// restart; and every endpoint was entered exactly once.
pub proof fn acceptance_was_gated(known: Tree, answers: Seq<(Tree, bool)>) -> (record: Seq<Tree>)
    requires
        known is Object,
        finished(ACCEPTANCE@, known, answers),
    ensures
        passed(ACCEPTANCE@, known, answers, record),
        ACCEPTANCE@[9].2@ == "requests dependent"@,
        said(record, 9) == Tree::Integer(0),
        ACCEPTANCE@[14].2@ == "cli attempt inspect acceptance-run $source_attempt"@,
        at(told(record, 14), "value,terminal"@) == Tree::Text("succeeded"@),
        at(told(record, 14), "value,model_generation,finish_reason"@) == Tree::Text("length"@),
        ACCEPTANCE@[22].2@ == "cli run show acceptance-run"@,
        no_element(
            items_of(at(told(record, 22), "value,nodes"@)),
            "node_id"@,
            Tree::Text("first-acceptance"@),
        ),
        ACCEPTANCE@[24].2@ == "requests dependent"@,
        said(record, 24) == Tree::Integer(0),
        ACCEPTANCE@[31].2@
            == "cli --command-id release-before-acceptance --expected-sequence $sequence run signal acceptance-run --signal-id release-before-acceptance --signal-type acceptance.evaluate --payload {\"authorized\":true}"@,
        at(told(record, 31), "value,replayed"@) == Tree::Bool(true),
        ACCEPTANCE@[40].2@ == "requests dependent"@,
        said(record, 40) == Tree::Integer(0),
        ACCEPTANCE@[45].2@ == "cli attempt inspect acceptance-run $source_attempt"@,
        at(told(record, 45), "value,terminal"@) == Tree::Text("succeeded"@),
        at(told(record, 45), "value,model_generation,finish_reason"@) == Tree::Text("length"@),
        at(at(record[50], "decision_node"@), "attempt_count"@) == Tree::Integer(1),
        ACCEPTANCE@[51].2@ == "cli attempt inspect acceptance-run $decision_attempt"@,
        at(told(record, 51), "value,result_acceptance,accepted"@) == Tree::Bool(false),
        at(told(record, 51), "value,result_acceptance,reason"@)
            == Tree::Text("output_allowance_exhausted"@),
        ACCEPTANCE@[61].2@ == "cli run show acceptance-run"@,
        no_element(
            items_of(at(told(record, 61), "value,nodes"@)),
            "node_id"@,
            Tree::Text("repair"@),
        ),
        ACCEPTANCE@[63].2@ == "requests dependent"@,
        said(record, 63) == Tree::Integer(0),
        ACCEPTANCE@[67].2@ == "cli attempt inspect acceptance-run $decision_attempt"@,
        at(told(record, 51), "value"@) == at(told(record, 67), "value"@),
        ACCEPTANCE@[73].2@
            == "cli --command-id release-remediation --expected-sequence $sequence run signal acceptance-run --signal-id release-remediation --signal-type acceptance.remediate --payload {\"authorized\":true}"@,
        at(told(record, 73), "value,replayed"@) == Tree::Bool(true),
        ACCEPTANCE@[82].2@ == "requests dependent"@,
        said(record, 82) == Tree::Integer(0),
        ACCEPTANCE@[87].2@ == "cli attempt inspect acceptance-run $source_attempt"@,
        at(told(record, 87), "value,terminal"@) == Tree::Text("succeeded"@),
        at(told(record, 87), "value,model_generation,finish_reason"@) == Tree::Text("length"@),
        at(at(record[92], "decision_node"@), "attempt_count"@) == Tree::Integer(1),
        ACCEPTANCE@[93].2@ == "cli attempt inspect acceptance-run $decision_attempt"@,
        at(told(record, 93), "value,result_acceptance,accepted"@) == Tree::Bool(true),
        ACCEPTANCE@[102].2@ == "cli run show acceptance-run"@,
        no_element(
            items_of(at(told(record, 102), "value,nodes"@)),
            "node_id"@,
            Tree::Text("dependent"@),
        ),
        ACCEPTANCE@[104].2@ == "requests dependent"@,
        said(record, 104) == Tree::Integer(0),
        ACCEPTANCE@[108].2@ == "cli attempt inspect acceptance-run $decision_attempt"@,
        at(told(record, 93), "value"@) == at(told(record, 108), "value"@),
        ACCEPTANCE@[114].2@
            == "cli --command-id release-before-continuation --expected-sequence $sequence run signal acceptance-run --signal-id release-before-continuation --signal-type acceptance.continue --payload {\"authorized\":true}"@,
        at(told(record, 114), "value,replayed"@) == Tree::Bool(true),
        ACCEPTANCE@[120].2@ == "cli run show acceptance-run"@,
        at(told(record, 120), "value,terminal"@) == Tree::Text("succeeded"@),
        no_element(
            items_of(at(told(record, 120), "value,nodes"@)),
            "node_id"@,
            Tree::Text("forbidden-dependent"@),
        ),
        ACCEPTANCE@[125].2@ == "requests original"@,
        said(record, 125) == Tree::Integer(1),
        ACCEPTANCE@[130].2@ == "requests remediation"@,
        said(record, 130) == Tree::Integer(1),
        ACCEPTANCE@[135].2@ == "requests dependent"@,
        said(record, 135) == Tree::Integer(1),
{
    let record = finished_scenarios_are_recorded(ACCEPTANCE@, known, answers);
    lemma_acceptance_was_gated_1(known, answers, record);
    lemma_acceptance_was_gated_2(known, answers, record);
    lemma_acceptance_was_gated_3(known, answers, record);
    lemma_acceptance_was_gated_4(known, answers, record);
    lemma_acceptance_was_gated_5(known, answers, record);
    lemma_acceptance_was_gated_6(known, answers, record);
    record
}

proof fn lemma_model_was_entered_once_1(known: Tree, answers: Seq<(Tree, bool)>, record: Seq<Tree>)
    requires
        passed(LOCAL_MODEL@, known, answers, record),
    ensures
        at(told(record, 29), "value,sequence"@) == at(told(record, 21), "value,sequence"@),
        no_element(
            items_of(at(told(record, 29), "value,nodes"@)),
            "node_id"@,
            Tree::Text("model"@),
        ),
        at(told(record, 38), "value,terminal"@) == Tree::Text("succeeded"@),
        at(at(record[45], "model"@), "attempt_count"@) == Tree::Integer(1),
{
    let l = LOCAL_MODEL@;
    reveal_strlit("reopened_sequence");
    reveal_strlit("reply");
    reveal_strlit("reopened_wait");
    reveal_strlit("value,sequence");
    reveal_strlit("reopened_wait,value,sequence");
    reveal_strlit("waiting_sequence");
    reveal_strlit("waiting");
    reveal_strlit("");
    reveal_strlit("waiting,value,sequence");
    reveal_strlit("killed");
    reveal_strlit("started");
    reveal_strlit("value,nodes");
    reveal_strlit("reopened_wait,value,nodes");
    reveal_strlit("is");
    reveal_strlit("node_id");
    reveal_strlit("model");
    reveal_strlit("is node_id model");
    reveal_strlit("else");
    reveal_strlit("plus");
    reveal_strlit("until");
    reveal_strlit("or");
    reveal_strlit("completed");
    reveal_strlit("completed,value,terminal");
    reveal_strlit("succeeded");
    reveal_strlit("is completed,value,terminal succeeded");
    reveal_strlit("value,terminal");
    reveal_strlit("1");
    reveal_strlit("attempt_count");
    reveal_strlit("model,attempt_count");
    assert("reopened_sequence"@.len() == 17);
    assert("reply"@.len() == 5);
    assert("reopened_wait"@.len() == 13);
    assert("reopened_wait,value,sequence"@ =~= "reopened_wait"@ + seq![','] + "value,sequence"@);
    assert("waiting_sequence"@.len() == 16);
    assert("waiting"@.len() == 7);
    lemma_apart(""@, "waiting"@, 0);
    assert("waiting,value,sequence"@ =~= "waiting"@ + seq![','] + "value,sequence"@);
    lemma_apart(""@, "waiting_sequence"@, 0);
    lemma_apart("killed"@, "waiting_sequence"@, 0);
    lemma_apart("started"@, "waiting_sequence"@, 0);
    lemma_apart("reopened_wait"@, "waiting_sequence"@, 0);
    lemma_apart("reopened_sequence"@, "waiting_sequence"@, 0);
    lemma_apart("reopened_sequence"@, "reopened_wait"@, 9);
    assert("reopened_wait,value,nodes"@ =~= "reopened_wait"@ + seq![','] + "value,nodes"@);
    assert("is node_id model"@ =~= "is"@ + seq![' '] + "node_id"@ + seq![' '] + "model"@);
    lemma_three_words("is"@, "node_id"@, "model"@, "is node_id model"@);
    assert("node_id"@.len() == 7);
    assert("else"@.len() == 4);
    assert("plus"@.len() == 4);
    assert("model"@.len() == 5);
    assert("completed"@.len() == 9);
    assert(
        "is completed,value,terminal succeeded"@
            =~= "is"@ + seq![' '] + "completed,value,terminal"@ + seq![' '] + "succeeded"@
    );
    lemma_three_words(
        "is"@,
        "completed,value,terminal"@,
        "succeeded"@,
        "is completed,value,terminal succeeded"@,
    );
    assert("completed,value,terminal"@.len() == 24);
    assert("succeeded"@.len() == 9);
    assert("or"@.len() == 2);
    assert("completed,value,terminal"@ =~= "completed"@ + seq![','] + "value,terminal"@);
    lemma_one_digit("1"@);
    assert(number_of("1"@) == Some(1u64));
    assert("model"@[0] != "reply"@[0]);
    assert("model,attempt_count"@ =~= "model"@ + seq![','] + "attempt_count"@);
    assert(at(told(record, 29), "value,sequence"@) == at(told(record, 21), "value,sequence"@)) by {
        was_kept(l, known, answers, record, 31);
        was_told(l, known, answers, record, 30);
        lemma_under(
            record[31],
            "reopened_wait"@,
            "value,sequence"@,
            "reopened_wait,value,sequence"@,
        );
        was_kept(l, known, answers, record, 24);
        was_awaited(l, known, answers, record, 21);
        stays(l, known, answers, record, 22, "waiting"@);
        stays(l, known, answers, record, 23, "waiting"@);
        lemma_under(record[24], "waiting"@, "value,sequence"@, "waiting,value,sequence"@);
        assert(forall|j: int|
            25 <= j < 32
                ==> is_check((#[trigger] l[j]).0@) || !touches(l[j].1@, "waiting_sequence"@));
        stays_through(l, known, answers, record, 25, 32, "waiting_sequence"@);
        saw_same(l, known, answers, record, 32);
    }
    assert(no_element(
            items_of(at(told(record, 29), "value,nodes"@)),
            "node_id"@,
            Tree::Text("model"@),
        )) by {
        was_told(l, known, answers, record, 30);
        stays(l, known, answers, record, 31, "reopened_wait"@);
        unchanged(l, known, answers, record, 32);
        lemma_under(record[33], "reopened_wait"@, "value,nodes"@, "reopened_wait,value,nodes"@);
        saw_none(l, known, answers, record, 33, "node_id"@, "model"@);
    }
    assert(at(told(record, 38), "value,terminal"@) == Tree::Text("succeeded"@)) by {
        was_awaited(l, known, answers, record, 38);
        awaited_text(l, known, answers, record, 38, 39, "completed,value,terminal"@, "succeeded"@);
        lemma_under(record[39], "completed"@, "value,terminal"@, "completed,value,terminal"@);
    }
    assert(at(at(record[45], "model"@), "attempt_count"@) == Tree::Integer(1)) by {
        lemma_under(record[45], "model"@, "attempt_count"@, "model,attempt_count"@);
        saw_num(l, known, answers, record, 45, 1);
    }
}

proof fn lemma_model_was_entered_once_2(known: Tree, answers: Seq<(Tree, bool)>, record: Seq<Tree>)
    requires
        passed(LOCAL_MODEL@, known, answers, record),
    ensures
        at(at(told(record, 53), "value"@), "state"@) == Tree::Text("terminal"@),
        at(at(told(record, 53), "value"@), "terminal"@) == Tree::Text("succeeded"@),
        at(at(told(record, 53), "value"@), "uncertain"@) == Tree::Bool(false),
        at(said(record, 88), "size"@) == at(at(record[81], "response"@), "artifact,size"@),
{
    let l = LOCAL_MODEL@;
    reveal_strlit("model_attempt");
    reveal_strlit("reply");
    reveal_strlit("attempt");
    reveal_strlit("value");
    reveal_strlit("attempt,value");
    reveal_strlit("state");
    reveal_strlit("model_attempt,state");
    reveal_strlit("terminal");
    reveal_strlit("model_attempt,terminal");
    reveal_strlit("uncertain");
    reveal_strlit("model_attempt,uncertain");
    reveal_strlit("downloaded");
    reveal_strlit("size");
    reveal_strlit("downloaded,size");
    reveal_strlit("artifact_size");
    reveal_strlit("response");
    reveal_strlit("artifact_id");
    reveal_strlit("artifact_digest");
    reveal_strlit("artifact,size");
    reveal_strlit("response,artifact,size");
    reveal_strlit("");
    reveal_strlit("got");
    assert("model_attempt"@.len() == 13);
    assert("reply"@.len() == 5);
    assert("attempt"@.len() == 7);
    assert("attempt,value"@ =~= "attempt"@ + seq![','] + "value"@);
    assert("model_attempt,state"@ =~= "model_attempt"@ + seq![','] + "state"@);
    assert("model_attempt,terminal"@ =~= "model_attempt"@ + seq![','] + "terminal"@);
    assert("model_attempt,uncertain"@ =~= "model_attempt"@ + seq![','] + "uncertain"@);
    assert("downloaded"@.len() == 10);
    assert("downloaded,size"@ =~= "downloaded"@ + seq![','] + "size"@);
    assert("artifact_size"@.len() == 13);
    assert("response"@.len() == 8);
    lemma_apart("artifact_id"@, "response"@, 0);
    lemma_apart("artifact_digest"@, "response"@, 0);
    assert("response,artifact,size"@ =~= "response"@ + seq![','] + "artifact,size"@);
    lemma_apart(""@, "artifact_size"@, 0);
    lemma_apart("got"@, "artifact_size"@, 0);
    lemma_apart("downloaded"@, "artifact_size"@, 0);
    assert(at(at(told(record, 53), "value"@), "state"@) == Tree::Text("terminal"@)) by {
        was_kept(l, known, answers, record, 55);
        was_told(l, known, answers, record, 54);
        lemma_under(record[55], "attempt"@, "value"@, "attempt,value"@);
        lemma_under(record[56], "model_attempt"@, "state"@, "model_attempt,state"@);
        saw_is(l, known, answers, record, 56);
    }
    assert(at(at(told(record, 53), "value"@), "terminal"@) == Tree::Text("succeeded"@)) by {
        was_kept(l, known, answers, record, 55);
        was_told(l, known, answers, record, 54);
        lemma_under(record[55], "attempt"@, "value"@, "attempt,value"@);
        unchanged(l, known, answers, record, 56);
        lemma_under(record[57], "model_attempt"@, "terminal"@, "model_attempt,terminal"@);
        saw_is(l, known, answers, record, 57);
    }
    assert(at(at(told(record, 53), "value"@), "uncertain"@) == Tree::Bool(false)) by {
        was_kept(l, known, answers, record, 55);
        was_told(l, known, answers, record, 54);
        lemma_under(record[55], "attempt"@, "value"@, "attempt,value"@);
        unchanged(l, known, answers, record, 56);
        unchanged(l, known, answers, record, 57);
        lemma_under(record[58], "model_attempt"@, "uncertain"@, "model_attempt,uncertain"@);
        saw_false(l, known, answers, record, 58);
    }
    assert(at(said(record, 88), "size"@) == at(at(record[81], "response"@), "artifact,size"@)) by {
        was_said(l, known, answers, record, 89);
        lemma_under(record[90], "downloaded"@, "size"@, "downloaded,size"@);
        was_kept(l, known, answers, record, 85);
        assert(forall|j: int|
            81 <= j < 85 ==> is_check((#[trigger] l[j]).0@) || !touches(l[j].1@, "response"@));
        stays_through(l, known, answers, record, 81, 85, "response"@);
        lemma_under(record[85], "response"@, "artifact,size"@, "response,artifact,size"@);
        assert(forall|j: int|
            86 <= j < 90 ==> is_check((#[trigger] l[j]).0@) || !touches(l[j].1@, "artifact_size"@));
        stays_through(l, known, answers, record, 86, 90, "artifact_size"@);
        saw_same(l, known, answers, record, 90);
    }
}

proof fn lemma_model_was_entered_once_3(known: Tree, answers: Seq<(Tree, bool)>, record: Seq<Tree>)
    requires
        passed(LOCAL_MODEL@, known, answers, record),
    ensures
        at(said(record, 88), "digest"@) == at(at(record[81], "response"@), "artifact,digest"@),
        at(at(record[108], "reopened_model"@), "attempt_count"@) == Tree::Integer(1),
        at(told(record, 110), "value,outputs"@) == at(told(record, 53), "value,outputs"@),
        at(at(record[122], "model"@), "attempt_count"@) == Tree::Integer(1),
{
    let l = LOCAL_MODEL@;
    reveal_strlit("downloaded");
    reveal_strlit("reply");
    reveal_strlit("digest");
    reveal_strlit("downloaded,digest");
    reveal_strlit("artifact_digest");
    reveal_strlit("response");
    reveal_strlit("artifact_id");
    reveal_strlit("artifact,digest");
    reveal_strlit("response,artifact,digest");
    reveal_strlit("artifact_size");
    reveal_strlit("");
    reveal_strlit("got");
    reveal_strlit("1");
    reveal_strlit("reopened_model");
    reveal_strlit("attempt_count");
    reveal_strlit("reopened_model,attempt_count");
    reveal_strlit("reopened_attempt");
    reveal_strlit("value,outputs");
    reveal_strlit("reopened_attempt,value,outputs");
    reveal_strlit("attempt");
    reveal_strlit("model_attempt");
    reveal_strlit("provenance");
    reveal_strlit("entries");
    reveal_strlit("omissions");
    reveal_strlit("body");
    reveal_strlit("captured");
    reveal_strlit("killed");
    reveal_strlit("started");
    reveal_strlit("reopened");
    reveal_strlit("attempt,value,outputs");
    reveal_strlit("model");
    reveal_strlit("model,attempt_count");
    assert("downloaded"@.len() == 10);
    assert("reply"@.len() == 5);
    assert("downloaded,digest"@ =~= "downloaded"@ + seq![','] + "digest"@);
    assert("artifact_digest"@.len() == 15);
    assert("response"@.len() == 8);
    lemma_apart("artifact_id"@, "response"@, 0);
    assert("response,artifact,digest"@ =~= "response"@ + seq![','] + "artifact,digest"@);
    lemma_apart("artifact_size"@, "artifact_digest"@, 9);
    lemma_apart(""@, "artifact_digest"@, 0);
    lemma_apart("got"@, "artifact_digest"@, 0);
    lemma_apart("downloaded"@, "artifact_digest"@, 0);
    lemma_one_digit("1"@);
    assert(number_of("1"@) == Some(1u64));
    assert("reopened_model"@.len() == 14);
    assert("reopened_model,attempt_count"@ =~= "reopened_model"@ + seq![','] + "attempt_count"@);
    assert("reopened_attempt"@.len() == 16);
    assert(
        "reopened_attempt,value,outputs"@ =~= "reopened_attempt"@ + seq![','] + "value,outputs"@
    );
    assert("attempt"@.len() == 7);
    lemma_apart("model_attempt"@, "attempt"@, 0);
    lemma_apart("provenance"@, "attempt"@, 0);
    lemma_apart("entries"@, "attempt"@, 0);
    lemma_apart("omissions"@, "attempt"@, 0);
    lemma_apart("response"@, "attempt"@, 0);
    lemma_apart("artifact_id"@, "attempt"@, 1);
    lemma_apart("artifact_digest"@, "attempt"@, 1);
    lemma_apart("artifact_size"@, "attempt"@, 1);
    lemma_apart(""@, "attempt"@, 0);
    lemma_apart("got"@, "attempt"@, 0);
    lemma_apart("downloaded"@, "attempt"@, 0);
    lemma_apart("body"@, "attempt"@, 0);
    lemma_apart("captured"@, "attempt"@, 0);
    lemma_apart("killed"@, "attempt"@, 0);
    lemma_apart("started"@, "attempt"@, 0);
    lemma_apart("reopened"@, "attempt"@, 0);
    lemma_apart("reopened_model"@, "attempt"@, 0);
    lemma_apart("reopened_attempt"@, "attempt"@, 0);
    assert("attempt,value,outputs"@ =~= "attempt"@ + seq![','] + "value,outputs"@);
    assert("model"@[0] != "reply"@[0]);
    assert("model,attempt_count"@ =~= "model"@ + seq![','] + "attempt_count"@);
    assert(at(said(record, 88), "digest"@) == at(at(record[81], "response"@), "artifact,digest"@)) by {
        was_said(l, known, answers, record, 89);
        unchanged(l, known, answers, record, 90);
        lemma_under(record[91], "downloaded"@, "digest"@, "downloaded,digest"@);
        was_kept(l, known, answers, record, 84);
        assert(forall|j: int|
            81 <= j < 84 ==> is_check((#[trigger] l[j]).0@) || !touches(l[j].1@, "response"@));
        stays_through(l, known, answers, record, 81, 84, "response"@);
        lemma_under(record[84], "response"@, "artifact,digest"@, "response,artifact,digest"@);
        assert(forall|j: int|
            85 <= j < 91
                ==> is_check((#[trigger] l[j]).0@) || !touches(l[j].1@, "artifact_digest"@));
        stays_through(l, known, answers, record, 85, 91, "artifact_digest"@);
        saw_same(l, known, answers, record, 91);
    }
    assert(at(at(record[108], "reopened_model"@), "attempt_count"@) == Tree::Integer(1)) by {
        lemma_under(
            record[108],
            "reopened_model"@,
            "attempt_count"@,
            "reopened_model,attempt_count"@,
        );
        saw_num(l, known, answers, record, 108, 1);
    }
    assert(at(told(record, 110), "value,outputs"@) == at(told(record, 53), "value,outputs"@)) by {
        was_told(l, known, answers, record, 111);
        lemma_under(
            record[112],
            "reopened_attempt"@,
            "value,outputs"@,
            "reopened_attempt,value,outputs"@,
        );
        was_told(l, known, answers, record, 54);
        assert(forall|j: int|
            55 <= j < 112 ==> is_check((#[trigger] l[j]).0@) || !touches(l[j].1@, "attempt"@));
        stays_through(l, known, answers, record, 55, 112, "attempt"@);
        lemma_under(record[112], "attempt"@, "value,outputs"@, "attempt,value,outputs"@);
        saw_same(l, known, answers, record, 112);
    }
    assert(at(at(record[122], "model"@), "attempt_count"@) == Tree::Integer(1)) by {
        lemma_under(record[122], "model"@, "attempt_count"@, "model,attempt_count"@);
        saw_num(l, known, answers, record, 122, 1);
    }
}

proof fn lemma_model_was_entered_once_4(known: Tree, answers: Seq<(Tree, bool)>, record: Seq<Tree>)
    requires
        passed(LOCAL_MODEL@, known, answers, record),
    ensures
        at(told(record, 124), "value,uncertain"@) == Tree::Bool(true),
        at(told(record, 141), "value,uncertain"@) == Tree::Bool(true),
        text_lacks(at(said(record, 144), "request"@), "HTTP/1.1 200"@),
        at(said(record, 144), "requests"@) == Tree::Integer(1),
{
    let l = LOCAL_MODEL@;
    reveal_strlit("unresolved");
    reveal_strlit("reply");
    reveal_strlit("value,uncertain");
    reveal_strlit("unresolved,value,uncertain");
    reveal_strlit("retained");
    reveal_strlit("retained,value,uncertain");
    reveal_strlit("failed_request");
    reveal_strlit("request");
    reveal_strlit("failed_request,request");
    reveal_strlit("1");
    reveal_strlit("requests");
    reveal_strlit("failed_request,requests");
    assert("unresolved"@.len() == 10);
    assert("reply"@.len() == 5);
    assert("unresolved,value,uncertain"@ =~= "unresolved"@ + seq![','] + "value,uncertain"@);
    assert("retained"@.len() == 8);
    assert("retained,value,uncertain"@ =~= "retained"@ + seq![','] + "value,uncertain"@);
    assert("failed_request"@.len() == 14);
    assert("failed_request,request"@ =~= "failed_request"@ + seq![','] + "request"@);
    lemma_one_digit("1"@);
    assert(number_of("1"@) == Some(1u64));
    assert("failed_request,requests"@ =~= "failed_request"@ + seq![','] + "requests"@);
    assert(at(told(record, 124), "value,uncertain"@) == Tree::Bool(true)) by {
        was_told(l, known, answers, record, 125);
        lemma_under(record[126], "unresolved"@, "value,uncertain"@, "unresolved,value,uncertain"@);
        saw_true(l, known, answers, record, 126);
    }
    assert(at(told(record, 141), "value,uncertain"@) == Tree::Bool(true)) by {
        was_told(l, known, answers, record, 142);
        lemma_under(record[143], "retained"@, "value,uncertain"@, "retained,value,uncertain"@);
        saw_true(l, known, answers, record, 143);
    }
    assert(text_lacks(at(said(record, 144), "request"@), "HTTP/1.1 200"@)) by {
        was_said(l, known, answers, record, 145);
        lemma_under(record[146], "failed_request"@, "request"@, "failed_request,request"@);
        saw_lacks(l, known, answers, record, 146);
    }
    assert(at(said(record, 144), "requests"@) == Tree::Integer(1)) by {
        was_said(l, known, answers, record, 145);
        unchanged(l, known, answers, record, 146);
        lemma_under(record[147], "failed_request"@, "requests"@, "failed_request,requests"@);
        saw_num(l, known, answers, record, 147, 1);
    }
}

proof fn lemma_model_was_entered_once_5(known: Tree, answers: Seq<(Tree, bool)>, record: Seq<Tree>)
    requires
        passed(LOCAL_MODEL@, known, answers, record),
    ensures
        at(told(record, 152), "value,uncertain"@) == Tree::Bool(true),
        made_rendered(at(at(told(record, 53), "value"@), "context,entries"@))
            == Ok::<Tree, Seq<char>>(at(record[74], "entries"@)),
        made_rendered(at(at(told(record, 53), "value"@), "context,omissions"@))
            == Ok::<Tree, Seq<char>>(at(record[75], "omissions"@)),
        made_rendered(at(at(told(record, 53), "value"@), "context,entries"@)) is Ok
            && text_without(
                made_rendered(at(at(told(record, 53), "value"@), "context,entries"@))->Ok_0,
                at(at(record[51], "omitted_output"@), "artifact,artifact_id"@),
            ),
{
    let l = LOCAL_MODEL@;
    reveal_strlit("kept");
    reveal_strlit("reply");
    reveal_strlit("value,uncertain");
    reveal_strlit("kept,value,uncertain");
    reveal_strlit("entries");
    reveal_strlit("rendered");
    reveal_strlit("model_attempt,context,entries");
    reveal_strlit("rendered model_attempt,context,entries");
    reveal_strlit("model_attempt");
    reveal_strlit("attempt");
    reveal_strlit("value");
    reveal_strlit("attempt,value");
    reveal_strlit("provenance");
    reveal_strlit("context,entries");
    reveal_strlit("omissions");
    reveal_strlit("model_attempt,context,omissions");
    reveal_strlit("rendered model_attempt,context,omissions");
    reveal_strlit("context,omissions");
    reveal_strlit("omitted_artifact");
    reveal_strlit("omitted_output");
    reveal_strlit("artifact,artifact_id");
    reveal_strlit("omitted_output,artifact,artifact_id");
    reveal_strlit("attempt_id");
    reveal_strlit("");
    assert("kept"@.len() == 4);
    assert("reply"@.len() == 5);
    assert("kept,value,uncertain"@ =~= "kept"@ + seq![','] + "value,uncertain"@);
    assert(
        "rendered model_attempt,context,entries"@
            =~= "rendered"@ + seq![' '] + "model_attempt,context,entries"@
    );
    lemma_two_words(
        "rendered"@,
        "model_attempt,context,entries"@,
        "rendered model_attempt,context,entries"@,
    );
    assert(
        parts("rendered model_attempt,context,entries"@)
            =~= seq!["rendered"@, "model_attempt,context,entries"@]
    );
    assert("model_attempt,context,entries"@.len() == 29);
    assert("model_attempt"@.len() == 13);
    assert("attempt"@.len() == 7);
    assert("attempt,value"@ =~= "attempt"@ + seq![','] + "value"@);
    lemma_apart("provenance"@, "model_attempt"@, 0);
    assert("model_attempt,context,entries"@ =~= "model_attempt"@ + seq![','] + "context,entries"@);
    assert(
        parts("rendered model_attempt,context,entries"@).skip(1)
            =~= seq!["model_attempt,context,entries"@]
    );
    assert(
        "rendered model_attempt,context,omissions"@
            =~= "rendered"@ + seq![' '] + "model_attempt,context,omissions"@
    );
    lemma_two_words(
        "rendered"@,
        "model_attempt,context,omissions"@,
        "rendered model_attempt,context,omissions"@,
    );
    assert(
        parts("rendered model_attempt,context,omissions"@)
            =~= seq!["rendered"@, "model_attempt,context,omissions"@]
    );
    assert("model_attempt,context,omissions"@.len() == 31);
    lemma_apart("entries"@, "model_attempt"@, 0);
    assert(
        "model_attempt,context,omissions"@ =~= "model_attempt"@ + seq![','] + "context,omissions"@
    );
    assert(
        parts("rendered model_attempt,context,omissions"@).skip(1)
            =~= seq!["model_attempt,context,omissions"@]
    );
    assert("entries"@.len() == 7);
    lemma_apart("omissions"@, "entries"@, 0);
    assert("omitted_artifact"@.len() == 16);
    assert("omitted_output"@.len() == 14);
    assert(
        "omitted_output,artifact,artifact_id"@
            =~= "omitted_output"@ + seq![','] + "artifact,artifact_id"@
    );
    lemma_apart("attempt_id"@, "omitted_artifact"@, 0);
    lemma_apart(""@, "omitted_artifact"@, 0);
    lemma_apart("attempt"@, "omitted_artifact"@, 0);
    lemma_apart("model_attempt"@, "omitted_artifact"@, 0);
    lemma_apart("provenance"@, "omitted_artifact"@, 0);
    lemma_apart("entries"@, "omitted_artifact"@, 0);
    lemma_apart("omissions"@, "omitted_artifact"@, 3);
    assert(at(told(record, 152), "value,uncertain"@) == Tree::Bool(true)) by {
        was_told(l, known, answers, record, 153);
        lemma_under(record[154], "kept"@, "value,uncertain"@, "kept,value,uncertain"@);
        saw_true(l, known, answers, record, 154);
    }
    assert(made_rendered(at(at(told(record, 53), "value"@), "context,entries"@))
            == Ok::<Tree, Seq<char>>(at(record[74], "entries"@))) by {
        was_made(l, known, answers, record, 73);
        was_kept(l, known, answers, record, 55);
        was_told(l, known, answers, record, 54);
        lemma_under(record[55], "attempt"@, "value"@, "attempt,value"@);
        assert(forall|j: int|
            56 <= j < 73 ==> is_check((#[trigger] l[j]).0@) || !touches(l[j].1@, "model_attempt"@));
        stays_through(l, known, answers, record, 56, 73, "model_attempt"@);
        lemma_under(
            record[73],
            "model_attempt"@,
            "context,entries"@,
            "model_attempt,context,entries"@,
        );
        let args73 = arguments(
            parts("rendered model_attempt,context,entries"@).skip(1),
            record[73],
        );
        assert(args73 =~= seq![at(at(told(record, 53), "value"@), "context,entries"@)]);
        makes_rendered(args73, record[73]);
    }
    assert(made_rendered(at(at(told(record, 53), "value"@), "context,omissions"@))
            == Ok::<Tree, Seq<char>>(at(record[75], "omissions"@))) by {
        was_made(l, known, answers, record, 74);
        was_kept(l, known, answers, record, 55);
        was_told(l, known, answers, record, 54);
        lemma_under(record[55], "attempt"@, "value"@, "attempt,value"@);
        assert(forall|j: int|
            56 <= j < 74 ==> is_check((#[trigger] l[j]).0@) || !touches(l[j].1@, "model_attempt"@));
        stays_through(l, known, answers, record, 56, 74, "model_attempt"@);
        lemma_under(
            record[74],
            "model_attempt"@,
            "context,omissions"@,
            "model_attempt,context,omissions"@,
        );
        let args74 = arguments(
            parts("rendered model_attempt,context,omissions"@).skip(1),
            record[74],
        );
        assert(args74 =~= seq![at(at(told(record, 53), "value"@), "context,omissions"@)]);
        makes_rendered(args74, record[74]);
    }
    assert(made_rendered(at(at(told(record, 53), "value"@), "context,entries"@)) is Ok
            && text_without(
                made_rendered(at(at(told(record, 53), "value"@), "context,entries"@))->Ok_0,
                at(at(record[51], "omitted_output"@), "artifact,artifact_id"@),
            )) by {
        was_made(l, known, answers, record, 73);
        was_kept(l, known, answers, record, 55);
        was_told(l, known, answers, record, 54);
        lemma_under(record[55], "attempt"@, "value"@, "attempt,value"@);
        assert(forall|j: int|
            56 <= j < 73 ==> is_check((#[trigger] l[j]).0@) || !touches(l[j].1@, "model_attempt"@));
        stays_through(l, known, answers, record, 56, 73, "model_attempt"@);
        lemma_under(
            record[73],
            "model_attempt"@,
            "context,entries"@,
            "model_attempt,context,entries"@,
        );
        let args73 = arguments(
            parts("rendered model_attempt,context,entries"@).skip(1),
            record[73],
        );
        assert(args73 =~= seq![at(at(told(record, 53), "value"@), "context,entries"@)]);
        makes_rendered(args73, record[73]);
        stays(l, known, answers, record, 74, "entries"@);
        unchanged(l, known, answers, record, 75);
        was_kept(l, known, answers, record, 51);
        lemma_under(
            record[51],
            "omitted_output"@,
            "artifact,artifact_id"@,
            "omitted_output,artifact,artifact_id"@,
        );
        assert(forall|j: int|
            52 <= j < 76
                ==> is_check((#[trigger] l[j]).0@) || !touches(l[j].1@, "omitted_artifact"@));
        stays_through(l, known, answers, record, 52, 76, "omitted_artifact"@);
        saw_omits(l, known, answers, record, 76);
    }
}

proof fn lemma_model_was_entered_once_6(known: Tree, answers: Seq<(Tree, bool)>, record: Seq<Tree>)
    requires
        passed(LOCAL_MODEL@, known, answers, record),
    ensures
        made_rendered(at(at(told(record, 53), "value"@), "context,omissions"@)) is Ok
            && text_with(
                made_rendered(at(at(told(record, 53), "value"@), "context,omissions"@))->Ok_0,
                at(at(record[51], "omitted_output"@), "artifact,artifact_id"@),
            ),
{
    let l = LOCAL_MODEL@;
    reveal_strlit("omissions");
    reveal_strlit("reply");
    reveal_strlit("rendered");
    reveal_strlit("model_attempt,context,omissions");
    reveal_strlit("rendered model_attempt,context,omissions");
    reveal_strlit("model_attempt");
    reveal_strlit("attempt");
    reveal_strlit("value");
    reveal_strlit("attempt,value");
    reveal_strlit("provenance");
    reveal_strlit("entries");
    reveal_strlit("context,omissions");
    reveal_strlit("omitted_artifact");
    reveal_strlit("omitted_output");
    reveal_strlit("artifact,artifact_id");
    reveal_strlit("omitted_output,artifact,artifact_id");
    reveal_strlit("attempt_id");
    reveal_strlit("");
    assert("omissions"@.len() == 9);
    assert("reply"@.len() == 5);
    assert(
        "rendered model_attempt,context,omissions"@
            =~= "rendered"@ + seq![' '] + "model_attempt,context,omissions"@
    );
    lemma_two_words(
        "rendered"@,
        "model_attempt,context,omissions"@,
        "rendered model_attempt,context,omissions"@,
    );
    assert(
        parts("rendered model_attempt,context,omissions"@)
            =~= seq!["rendered"@, "model_attempt,context,omissions"@]
    );
    assert("model_attempt,context,omissions"@.len() == 31);
    assert("model_attempt"@.len() == 13);
    assert("attempt"@.len() == 7);
    assert("attempt,value"@ =~= "attempt"@ + seq![','] + "value"@);
    lemma_apart("provenance"@, "model_attempt"@, 0);
    lemma_apart("entries"@, "model_attempt"@, 0);
    assert(
        "model_attempt,context,omissions"@ =~= "model_attempt"@ + seq![','] + "context,omissions"@
    );
    assert(
        parts("rendered model_attempt,context,omissions"@).skip(1)
            =~= seq!["model_attempt,context,omissions"@]
    );
    assert("omitted_artifact"@.len() == 16);
    assert("omitted_output"@.len() == 14);
    assert(
        "omitted_output,artifact,artifact_id"@
            =~= "omitted_output"@ + seq![','] + "artifact,artifact_id"@
    );
    lemma_apart("attempt_id"@, "omitted_artifact"@, 0);
    lemma_apart(""@, "omitted_artifact"@, 0);
    lemma_apart("attempt"@, "omitted_artifact"@, 0);
    lemma_apart("model_attempt"@, "omitted_artifact"@, 0);
    lemma_apart("provenance"@, "omitted_artifact"@, 0);
    lemma_apart("entries"@, "omitted_artifact"@, 0);
    lemma_apart("omissions"@, "omitted_artifact"@, 3);
    assert(made_rendered(at(at(told(record, 53), "value"@), "context,omissions"@)) is Ok
            && text_with(
                made_rendered(at(at(told(record, 53), "value"@), "context,omissions"@))->Ok_0,
                at(at(record[51], "omitted_output"@), "artifact,artifact_id"@),
            )) by {
        was_made(l, known, answers, record, 74);
        was_kept(l, known, answers, record, 55);
        was_told(l, known, answers, record, 54);
        lemma_under(record[55], "attempt"@, "value"@, "attempt,value"@);
        assert(forall|j: int|
            56 <= j < 74 ==> is_check((#[trigger] l[j]).0@) || !touches(l[j].1@, "model_attempt"@));
        stays_through(l, known, answers, record, 56, 74, "model_attempt"@);
        lemma_under(
            record[74],
            "model_attempt"@,
            "context,omissions"@,
            "model_attempt,context,omissions"@,
        );
        let args74 = arguments(
            parts("rendered model_attempt,context,omissions"@).skip(1),
            record[74],
        );
        assert(args74 =~= seq![at(at(told(record, 53), "value"@), "context,omissions"@)]);
        makes_rendered(args74, record[74]);
        unchanged(l, known, answers, record, 75);
        unchanged(l, known, answers, record, 76);
        was_kept(l, known, answers, record, 51);
        lemma_under(
            record[51],
            "omitted_output"@,
            "artifact,artifact_id"@,
            "omitted_output,artifact,artifact_id"@,
        );
        assert(forall|j: int|
            52 <= j < 77
                ==> is_check((#[trigger] l[j]).0@) || !touches(l[j].1@, "omitted_artifact"@));
        stays_through(l, known, answers, record, 52, 77, "omitted_artifact"@);
        saw_mentions(l, known, answers, record, 77);
    }
}

/// A local-model run finishes only where a restart kept the waiting sequence and entered no
/// unreleased model step, the released step succeeded with exactly one attempt, its response came
/// back with its size and digest, a restart kept the one attempt and its outputs, and the step
/// whose endpoint closed was attempted once, stayed uncertain through a refused retry and a
/// restart, and sent one request.
pub proof fn model_was_entered_once(known: Tree, answers: Seq<(Tree, bool)>) -> (record: Seq<Tree>)
    requires
        known is Object,
        finished(LOCAL_MODEL@, known, answers),
    ensures
        passed(LOCAL_MODEL@, known, answers, record),
        LOCAL_MODEL@[29].2@ == "cli run show run-local-model-dogfood"@,
        LOCAL_MODEL@[21].2@ == "cli run show run-local-model-dogfood"@,
        at(told(record, 29), "value,sequence"@) == at(told(record, 21), "value,sequence"@),
        no_element(
            items_of(at(told(record, 29), "value,nodes"@)),
            "node_id"@,
            Tree::Text("model"@),
        ),
        LOCAL_MODEL@[38].2@ == "cli run show run-local-model-dogfood"@,
        at(told(record, 38), "value,terminal"@) == Tree::Text("succeeded"@),
        at(at(record[45], "model"@), "attempt_count"@) == Tree::Integer(1),
        LOCAL_MODEL@[53].2@ == "cli attempt inspect run-local-model-dogfood $attempt_id"@,
        at(at(told(record, 53), "value"@), "state"@) == Tree::Text("terminal"@),
        at(at(told(record, 53), "value"@), "terminal"@) == Tree::Text("succeeded"@),
        at(at(told(record, 53), "value"@), "uncertain"@) == Tree::Bool(false),
        LOCAL_MODEL@[88].2@ == "hash $paths,response"@,
        at(said(record, 88), "size"@) == at(at(record[81], "response"@), "artifact,size"@),
        at(said(record, 88), "digest"@) == at(at(record[81], "response"@), "artifact,digest"@),
        at(at(record[108], "reopened_model"@), "attempt_count"@) == Tree::Integer(1),
        LOCAL_MODEL@[110].2@ == "cli attempt inspect run-local-model-dogfood $attempt_id"@,
        at(told(record, 110), "value,outputs"@) == at(told(record, 53), "value,outputs"@),
        at(at(record[122], "model"@), "attempt_count"@) == Tree::Integer(1),
        LOCAL_MODEL@[124].2@
            == "cli attempt inspect run-local-model-uncertainty $uncertain_attempt"@,
        at(told(record, 124), "value,uncertain"@) == Tree::Bool(true),
        LOCAL_MODEL@[141].2@
            == "cli attempt inspect run-local-model-uncertainty $uncertain_attempt"@,
        at(told(record, 141), "value,uncertain"@) == Tree::Bool(true),
        LOCAL_MODEL@[144].2@ == "endpoint failure"@,
        text_lacks(at(said(record, 144), "request"@), "HTTP/1.1 200"@),
        at(said(record, 144), "requests"@) == Tree::Integer(1),
        LOCAL_MODEL@[152].2@
            == "cli attempt inspect run-local-model-uncertainty $uncertain_attempt"@,
        at(told(record, 152), "value,uncertain"@) == Tree::Bool(true),
        made_rendered(at(at(told(record, 53), "value"@), "context,entries"@))
            == Ok::<Tree, Seq<char>>(at(record[74], "entries"@)),
        made_rendered(at(at(told(record, 53), "value"@), "context,omissions"@))
            == Ok::<Tree, Seq<char>>(at(record[75], "omissions"@)),
        made_rendered(at(at(told(record, 53), "value"@), "context,entries"@)) is Ok
            && text_without(
                made_rendered(at(at(told(record, 53), "value"@), "context,entries"@))->Ok_0,
                at(at(record[51], "omitted_output"@), "artifact,artifact_id"@),
            ),
        made_rendered(at(at(told(record, 53), "value"@), "context,omissions"@)) is Ok
            && text_with(
                made_rendered(at(at(told(record, 53), "value"@), "context,omissions"@))->Ok_0,
                at(at(record[51], "omitted_output"@), "artifact,artifact_id"@),
            ),
{
    let record = finished_scenarios_are_recorded(LOCAL_MODEL@, known, answers);
    lemma_model_was_entered_once_1(known, answers, record);
    lemma_model_was_entered_once_2(known, answers, record);
    lemma_model_was_entered_once_3(known, answers, record);
    lemma_model_was_entered_once_4(known, answers, record);
    lemma_model_was_entered_once_5(known, answers, record);
    lemma_model_was_entered_once_6(known, answers, record);
    record
}

proof fn lemma_continuation_was_held(known: Tree, answers: Seq<(Tree, bool)>, record: Seq<Tree>)
    requires
        passed(CONTINUATION_START@, known, answers, record),
    ensures
        no_element(
            items_of(at(told(record, 52), "value,nodes"@)),
            "node_id"@,
            Tree::Text("continued"@),
        ),
{
    let l = CONTINUATION_START@;
    reveal_strlit("reopened");
    reveal_strlit("reply");
    reveal_strlit("value,nodes");
    reveal_strlit("reopened,value,nodes");
    reveal_strlit("is");
    reveal_strlit("node_id");
    reveal_strlit("continued");
    reveal_strlit("is node_id continued");
    reveal_strlit("else");
    reveal_strlit("plus");
    assert("reopened"@.len() == 8);
    assert("reply"@.len() == 5);
    assert("reopened,value,nodes"@ =~= "reopened"@ + seq![','] + "value,nodes"@);
    assert("is node_id continued"@ =~= "is"@ + seq![' '] + "node_id"@ + seq![' '] + "continued"@);
    lemma_three_words("is"@, "node_id"@, "continued"@, "is node_id continued"@);
    assert("node_id"@.len() == 7);
    assert("else"@.len() == 4);
    assert("plus"@.len() == 4);
    assert("continued"@.len() == 9);
    assert(no_element(
            items_of(at(told(record, 52), "value,nodes"@)),
            "node_id"@,
            Tree::Text("continued"@),
        )) by {
        was_told(l, known, answers, record, 53);
        lemma_under(record[54], "reopened"@, "value,nodes"@, "reopened,value,nodes"@);
        saw_none(l, known, answers, record, 54, "node_id"@, "continued"@);
    }
}

proof fn lemma_continued_1(known: Tree, answers: Seq<(Tree, bool)>, record: Seq<Tree>)
    requires
        passed(CONTINUATION@, known, answers, record),
    ensures
        at(told(record, 0), "value,terminal"@) == Tree::Text("succeeded"@),
        items_of(at(said(record, 10), "turns"@)).len() == 1,
        text_lacks(said(record, 26), "ORIGINAL_QUESTION"@),
        text_lacks(said(record, 26), "EXACT_PRIOR_ANSWER"@),
        at(told(record, 38), "value"@) == at(told(record, 4), "value"@),
{
    let l = CONTINUATION@;
    reveal_strlit("until");
    reveal_strlit("reply");
    reveal_strlit("or");
    reveal_strlit("completed");
    reveal_strlit("is");
    reveal_strlit("completed,value,terminal");
    reveal_strlit("succeeded");
    reveal_strlit("is completed,value,terminal succeeded");
    reveal_strlit("value,terminal");
    reveal_strlit("1");
    reveal_strlit("history");
    reveal_strlit("turns");
    reveal_strlit("history,turns");
    reveal_strlit("fresh_request");
    reveal_strlit("retained");
    reveal_strlit("value");
    reveal_strlit("retained,value");
    reveal_strlit("consumed");
    reveal_strlit("selection");
    reveal_strlit("history_id");
    reveal_strlit("");
    reveal_strlit("got");
    reveal_strlit("joined");
    reveal_strlit("request");
    reveal_strlit("wire");
    reveal_strlit("messages");
    reveal_strlit("saved");
    reveal_strlit("killed");
    reveal_strlit("started");
    reveal_strlit("consumed,value");
    assert("completed"@.len() == 9);
    assert("reply"@.len() == 5);
    assert(
        "is completed,value,terminal succeeded"@
            =~= "is"@ + seq![' '] + "completed,value,terminal"@ + seq![' '] + "succeeded"@
    );
    lemma_three_words(
        "is"@,
        "completed,value,terminal"@,
        "succeeded"@,
        "is completed,value,terminal succeeded"@,
    );
    assert("completed,value,terminal"@.len() == 24);
    assert("succeeded"@.len() == 9);
    assert("or"@.len() == 2);
    assert("completed,value,terminal"@ =~= "completed"@ + seq![','] + "value,terminal"@);
    lemma_one_digit("1"@);
    assert(number_of("1"@) == Some(1u64));
    assert("history"@.len() == 7);
    assert("history,turns"@ =~= "history"@ + seq![','] + "turns"@);
    assert("fresh_request"@.len() == 13);
    assert("retained"@.len() == 8);
    assert("retained,value"@ =~= "retained"@ + seq![','] + "value"@);
    assert("consumed"@.len() == 8);
    lemma_apart("selection"@, "consumed"@, 0);
    lemma_apart("history_id"@, "consumed"@, 0);
    lemma_apart(""@, "consumed"@, 0);
    lemma_apart("got"@, "consumed"@, 0);
    lemma_apart("history"@, "consumed"@, 0);
    lemma_apart("joined"@, "consumed"@, 0);
    lemma_apart("request"@, "consumed"@, 0);
    lemma_apart("wire"@, "consumed"@, 0);
    lemma_apart("messages"@, "consumed"@, 0);
    lemma_apart("fresh_request"@, "consumed"@, 0);
    lemma_apart("saved"@, "consumed"@, 0);
    lemma_apart("killed"@, "consumed"@, 0);
    lemma_apart("started"@, "consumed"@, 0);
    lemma_apart("retained"@, "consumed"@, 0);
    assert("consumed,value"@ =~= "consumed"@ + seq![','] + "value"@);
    assert(at(told(record, 0), "value,terminal"@) == Tree::Text("succeeded"@)) by {
        was_awaited(l, known, answers, record, 0);
        awaited_text(l, known, answers, record, 0, 1, "completed,value,terminal"@, "succeeded"@);
        lemma_under(record[1], "completed"@, "value,terminal"@, "completed,value,terminal"@);
    }
    assert(items_of(at(said(record, 10), "turns"@)).len() == 1) by {
        was_said(l, known, answers, record, 11);
        lemma_under(record[12], "history"@, "turns"@, "history,turns"@);
        saw_len(l, known, answers, record, 12, 1);
    }
    assert(text_lacks(said(record, 26), "ORIGINAL_QUESTION"@)) by {
        was_said(l, known, answers, record, 27);
        saw_lacks(l, known, answers, record, 28);
    }
    assert(text_lacks(said(record, 26), "EXACT_PRIOR_ANSWER"@)) by {
        was_said(l, known, answers, record, 27);
        unchanged(l, known, answers, record, 28);
        saw_lacks(l, known, answers, record, 29);
    }
    assert(at(told(record, 38), "value"@) == at(told(record, 4), "value"@)) by {
        was_told(l, known, answers, record, 39);
        lemma_under(record[40], "retained"@, "value"@, "retained,value"@);
        was_told(l, known, answers, record, 5);
        assert(forall|j: int|
            6 <= j < 40 ==> is_check((#[trigger] l[j]).0@) || !touches(l[j].1@, "consumed"@));
        stays_through(l, known, answers, record, 6, 40, "consumed"@);
        lemma_under(record[40], "consumed"@, "value"@, "consumed,value"@);
        saw_same(l, known, answers, record, 40);
    }
}

proof fn lemma_continued_2(known: Tree, answers: Seq<(Tree, bool)>, record: Seq<Tree>)
    requires
        passed(CONTINUATION@, known, answers, record),
    ensures
        made_rendered_elements(at(said(record, 19), "messages"@))
            == Ok::<Tree, Seq<char>>(at(record[23], "messages"@)),
{
    let l = CONTINUATION@;
    reveal_strlit("messages");
    reveal_strlit("rendered-elements");
    reveal_strlit("wire,messages");
    reveal_strlit("rendered-elements wire,messages");
    reveal_strlit("wire");
    reveal_strlit("reply");
    assert(
        "rendered-elements wire,messages"@ =~= "rendered-elements"@ + seq![' '] + "wire,messages"@
    );
    lemma_two_words("rendered-elements"@, "wire,messages"@, "rendered-elements wire,messages"@);
    assert(
        parts("rendered-elements wire,messages"@) =~= seq!["rendered-elements"@, "wire,messages"@]
    );
    assert("wire,messages"@.len() == 13);
    assert("wire"@.len() == 4);
    assert("reply"@.len() == 5);
    assert("wire,messages"@ =~= "wire"@ + seq![','] + "messages"@);
    assert(parts("rendered-elements wire,messages"@).skip(1) =~= seq!["wire,messages"@]);
    assert(made_rendered_elements(at(said(record, 19), "messages"@))
            == Ok::<Tree, Seq<char>>(at(record[23], "messages"@))) by {
        was_made(l, known, answers, record, 22);
        was_said(l, known, answers, record, 20);
        unchanged(l, known, answers, record, 21);
        lemma_under(record[22], "wire"@, "messages"@, "wire,messages"@);
        let args22 = arguments(parts("rendered-elements wire,messages"@).skip(1), record[22]);
        assert(args22 =~= seq![at(said(record, 19), "messages"@)]);
        makes_rendered_elements(args22, record[22]);
    }
}

proof fn lemma_rejected(known: Tree, answers: Seq<(Tree, bool)>, record: Seq<Tree>)
    requires
        passed(CONTINUATION_REJECTED@, known, answers, record),
    ensures
        at(told(record, 0), "value,terminal"@) == Tree::Text("failed"@),
        at(told(record, 7), "value,result_acceptance,accepted"@) == Tree::Bool(false),
        said(record, 10) == Tree::Integer(0),
        said(record, 12) == Tree::Integer(0),
{
    let l = CONTINUATION_REJECTED@;
    reveal_strlit("until");
    reveal_strlit("reply");
    reveal_strlit("or");
    reveal_strlit("stopped");
    reveal_strlit("is");
    reveal_strlit("stopped,value,terminal");
    reveal_strlit("failed");
    reveal_strlit("is stopped,value,terminal failed");
    reveal_strlit("value,terminal");
    reveal_strlit("decided");
    reveal_strlit("value,result_acceptance,accepted");
    reveal_strlit("decided,value,result_acceptance,accepted");
    reveal_strlit("0");
    reveal_strlit("continued_requests");
    reveal_strlit("");
    reveal_strlit("fresh_requests");
    assert("stopped"@.len() == 7);
    assert("reply"@.len() == 5);
    assert(
        "is stopped,value,terminal failed"@
            =~= "is"@ + seq![' '] + "stopped,value,terminal"@ + seq![' '] + "failed"@
    );
    lemma_three_words(
        "is"@,
        "stopped,value,terminal"@,
        "failed"@,
        "is stopped,value,terminal failed"@,
    );
    assert("stopped,value,terminal"@.len() == 22);
    assert("failed"@.len() == 6);
    assert("or"@.len() == 2);
    assert("stopped,value,terminal"@ =~= "stopped"@ + seq![','] + "value,terminal"@);
    assert("decided"@.len() == 7);
    assert(
        "decided,value,result_acceptance,accepted"@
            =~= "decided"@ + seq![','] + "value,result_acceptance,accepted"@
    );
    lemma_one_digit("0"@);
    assert(number_of("0"@) == Some(0u64));
    assert("continued_requests"@.len() == 18);
    lemma_apart(""@, "continued_requests"@, 0);
    lemma_apart("fresh_requests"@, "continued_requests"@, 0);
    assert("fresh_requests"@.len() == 14);
    assert(at(told(record, 0), "value,terminal"@) == Tree::Text("failed"@)) by {
        was_awaited(l, known, answers, record, 0);
        awaited_text(l, known, answers, record, 0, 1, "stopped,value,terminal"@, "failed"@);
        lemma_under(record[1], "stopped"@, "value,terminal"@, "stopped,value,terminal"@);
    }
    assert(at(told(record, 7), "value,result_acceptance,accepted"@) == Tree::Bool(false)) by {
        was_told(l, known, answers, record, 8);
        lemma_under(
            record[9],
            "decided"@,
            "value,result_acceptance,accepted"@,
            "decided,value,result_acceptance,accepted"@,
        );
        saw_false(l, known, answers, record, 9);
    }
    assert(said(record, 10) == Tree::Integer(0)) by {
        was_said(l, known, answers, record, 11);
        stays(l, known, answers, record, 12, "continued_requests"@);
        stays(l, known, answers, record, 13, "continued_requests"@);
        saw_num(l, known, answers, record, 14, 0);
    }
    assert(said(record, 12) == Tree::Integer(0)) by {
        was_said(l, known, answers, record, 13);
        unchanged(l, known, answers, record, 14);
        saw_num(l, known, answers, record, 15, 0);
    }
}

/// A continuation finishes only where a restart entered no unreleased continuation, the run then
/// succeeded with one predecessor in its history, a fresh request held nothing of the earlier
/// conversation, and a restart kept the inspection.
pub proof fn continuation_was_exact(known: Tree, answers: Seq<(Tree, bool)>) -> (record: Seq<Tree>)
    requires
        known is Object,
        finished(case_script(false), known, answers),
    ensures
        passed(case_script(false), known, answers, record),
        CONTINUATION_START@[52].2@ == "cli run show continuation-run"@,
        no_element(
            items_of(at(told(record, 52), "value,nodes"@)),
            "node_id"@,
            Tree::Text("continued"@),
        ),
        CONTINUATION@[0].2@ == "cli run show continuation-run"@,
        at(told(record, 58), "value,terminal"@) == Tree::Text("succeeded"@),
        CONTINUATION@[10].2@ == "decode history $paths,history"@,
        items_of(at(said(record, 68), "turns"@)).len() == 1,
        CONTINUATION@[26].2@ == "join fresh"@,
        text_lacks(said(record, 84), "ORIGINAL_QUESTION"@),
        text_lacks(said(record, 84), "EXACT_PRIOR_ANSWER"@),
        CONTINUATION@[38].2@ == "cli attempt inspect continuation-run $attempt"@,
        CONTINUATION@[4].2@ == "cli attempt inspect continuation-run $attempt"@,
        at(told(record, 96), "value"@) == at(told(record, 62), "value"@),
        CONTINUATION@[19].2@ == "request-body continued"@,
        made_rendered_elements(at(said(record, 77), "messages"@))
            == Ok::<Tree, Seq<char>>(at(record[81], "messages"@)),
{
    let record = finished_scenarios_are_recorded(case_script(false), known, answers);
    beginnings_pass(CONTINUATION_START@, CONTINUATION@, known, answers, record);
    endings_pass(CONTINUATION_START@, CONTINUATION@, known, answers, record);
    let first = record.take(59);
    let rest = record.skip(58);
    lemma_continuation_was_held(known, answers, first);
    lemma_continued_1(record[58], answers, rest);
    lemma_continued_2(record[58], answers, rest);
    assert(forall|i: int| 0 <= i < rest.len() ==> rest[i] == #[trigger] record[58 + i]);
    record
}

/// A rejected continuation finishes only where a restart entered no unreleased continuation, the
/// run failed, the decision was a rejection, and no dependent endpoint had a request.
pub proof fn rejected_continuation_was_refused(
    known: Tree,
    answers: Seq<(Tree, bool)>,
) -> (record: Seq<Tree>)
    requires
        known is Object,
        finished(case_script(true), known, answers),
    ensures
        passed(case_script(true), known, answers, record),
        CONTINUATION_START@[52].2@ == "cli run show continuation-run"@,
        no_element(
            items_of(at(told(record, 52), "value,nodes"@)),
            "node_id"@,
            Tree::Text("continued"@),
        ),
        CONTINUATION_REJECTED@[0].2@ == "cli run show continuation-run"@,
        at(told(record, 58), "value,terminal"@) == Tree::Text("failed"@),
        CONTINUATION_REJECTED@[7].2@ == "cli attempt inspect continuation-run $acceptance_attempt"@,
        at(told(record, 65), "value,result_acceptance,accepted"@) == Tree::Bool(false),
        CONTINUATION_REJECTED@[10].2@ == "requests continued"@,
        said(record, 68) == Tree::Integer(0),
        CONTINUATION_REJECTED@[12].2@ == "requests fresh"@,
        said(record, 70) == Tree::Integer(0),
{
    let record = finished_scenarios_are_recorded(case_script(true), known, answers);
    beginnings_pass(CONTINUATION_START@, CONTINUATION_REJECTED@, known, answers, record);
    endings_pass(CONTINUATION_START@, CONTINUATION_REJECTED@, known, answers, record);
    let first = record.take(59);
    let rest = record.skip(58);
    lemma_continuation_was_held(known, answers, first);
    lemma_rejected(record[58], answers, rest);
    assert(forall|i: int| 0 <= i < rest.len() ==> rest[i] == #[trigger] record[58 + i]);
    record
}

proof fn lemma_preparation_was_refused_locally_1(
    known: Tree,
    answers: Seq<(Tree, bool)>,
    record: Seq<Tree>,
)
    requires
        passed(PREPARATION@, known, answers, record),
    ensures
        at(told(record, 6), "value,lifecycle"@) == Tree::Text("terminal"@),
        at(at(record[10], "model"@), "attempt_count"@) == Tree::Integer(1),
        at(told(record, 6), "value,uncertainty_count"@) == Tree::Integer(0),
{
    let l = PREPARATION@;
    reveal_strlit("until");
    reveal_strlit("reply");
    reveal_strlit("or");
    reveal_strlit("state");
    reveal_strlit("is");
    reveal_strlit("state,value,lifecycle");
    reveal_strlit("terminal");
    reveal_strlit("is state,value,lifecycle terminal");
    reveal_strlit("value,lifecycle");
    reveal_strlit("1");
    reveal_strlit("model");
    reveal_strlit("attempt");
    reveal_strlit("");
    reveal_strlit("before");
    reveal_strlit("attempt_count");
    reveal_strlit("model,attempt_count");
    reveal_strlit("0");
    reveal_strlit("value,uncertainty_count");
    reveal_strlit("state,value,uncertainty_count");
    assert("state"@[0] != "reply"@[0]);
    assert(
        "is state,value,lifecycle terminal"@
            =~= "is"@ + seq![' '] + "state,value,lifecycle"@ + seq![' '] + "terminal"@
    );
    lemma_three_words(
        "is"@,
        "state,value,lifecycle"@,
        "terminal"@,
        "is state,value,lifecycle terminal"@,
    );
    assert("state,value,lifecycle"@.len() == 21);
    assert("terminal"@.len() == 8);
    assert("or"@.len() == 2);
    assert("state,value,lifecycle"@ =~= "state"@ + seq![','] + "value,lifecycle"@);
    lemma_one_digit("1"@);
    assert(number_of("1"@) == Some(1u64));
    assert("model"@[0] != "reply"@[0]);
    lemma_apart("attempt"@, "model"@, 0);
    lemma_apart(""@, "model"@, 0);
    lemma_apart("before"@, "model"@, 0);
    assert("model,attempt_count"@ =~= "model"@ + seq![','] + "attempt_count"@);
    lemma_one_digit("0"@);
    assert(number_of("0"@) == Some(0u64));
    lemma_apart(""@, "state"@, 0);
    lemma_apart("model"@, "state"@, 0);
    lemma_apart("attempt"@, "state"@, 0);
    lemma_apart("before"@, "state"@, 0);
    assert("state,value,uncertainty_count"@ =~= "state"@ + seq![','] + "value,uncertainty_count"@);
    assert(at(told(record, 6), "value,lifecycle"@) == Tree::Text("terminal"@)) by {
        was_awaited(l, known, answers, record, 6);
        awaited_text(l, known, answers, record, 6, 7, "state,value,lifecycle"@, "terminal"@);
        lemma_under(record[7], "state"@, "value,lifecycle"@, "state,value,lifecycle"@);
    }
    assert(at(at(record[10], "model"@), "attempt_count"@) == Tree::Integer(1)) by {
        assert(forall|j: int|
            10 <= j < 13 ==> is_check((#[trigger] l[j]).0@) || !touches(l[j].1@, "model"@));
        stays_through(l, known, answers, record, 10, 13, "model"@);
        lemma_under(record[13], "model"@, "attempt_count"@, "model,attempt_count"@);
        saw_num(l, known, answers, record, 13, 1);
    }
    assert(at(told(record, 6), "value,uncertainty_count"@) == Tree::Integer(0)) by {
        was_awaited(l, known, answers, record, 6);
        assert(forall|j: int|
            7 <= j < 14 ==> is_check((#[trigger] l[j]).0@) || !touches(l[j].1@, "state"@));
        stays_through(l, known, answers, record, 7, 14, "state"@);
        lemma_under(
            record[14],
            "state"@,
            "value,uncertainty_count"@,
            "state,value,uncertainty_count"@,
        );
        saw_num(l, known, answers, record, 14, 0);
    }
}

proof fn lemma_preparation_was_refused_locally_2(
    known: Tree,
    answers: Seq<(Tree, bool)>,
    record: Seq<Tree>,
)
    requires
        passed(PREPARATION@, known, answers, record),
    ensures
        at(told(record, 11), "value,terminal"@) == Tree::Text("rejected"@),
        at(told(record, 11), "value,uncertain"@) == Tree::Bool(false),
        at(told(record, 11), "value,entry_authorization"@) == Tree::Null,
{
    let l = PREPARATION@;
    reveal_strlit("before");
    reveal_strlit("reply");
    reveal_strlit("value,terminal");
    reveal_strlit("before,value,terminal");
    reveal_strlit("value,uncertain");
    reveal_strlit("before,value,uncertain");
    reveal_strlit("value,entry_authorization");
    reveal_strlit("before,value,entry_authorization");
    assert("before"@.len() == 6);
    assert("reply"@.len() == 5);
    assert("before,value,terminal"@ =~= "before"@ + seq![','] + "value,terminal"@);
    assert("before,value,uncertain"@ =~= "before"@ + seq![','] + "value,uncertain"@);
    assert(
        "before,value,entry_authorization"@
            =~= "before"@ + seq![','] + "value,entry_authorization"@
    );
    assert(at(told(record, 11), "value,terminal"@) == Tree::Text("rejected"@)) by {
        was_told(l, known, answers, record, 12);
        unchanged(l, known, answers, record, 13);
        unchanged(l, known, answers, record, 14);
        lemma_under(record[15], "before"@, "value,terminal"@, "before,value,terminal"@);
        saw_is(l, known, answers, record, 15);
    }
    assert(at(told(record, 11), "value,uncertain"@) == Tree::Bool(false)) by {
        was_told(l, known, answers, record, 12);
        unchanged(l, known, answers, record, 13);
        unchanged(l, known, answers, record, 14);
        unchanged(l, known, answers, record, 15);
        lemma_under(record[16], "before"@, "value,uncertain"@, "before,value,uncertain"@);
        saw_false(l, known, answers, record, 16);
    }
    assert(at(told(record, 11), "value,entry_authorization"@) == Tree::Null) by {
        was_told(l, known, answers, record, 12);
        assert(forall|j: int|
            13 <= j < 17 ==> is_check((#[trigger] l[j]).0@) || !touches(l[j].1@, "before"@));
        stays_through(l, known, answers, record, 13, 17, "before"@);
        lemma_under(
            record[17],
            "before"@,
            "value,entry_authorization"@,
            "before,value,entry_authorization"@,
        );
        saw_null(l, known, answers, record, 17);
    }
}

proof fn lemma_preparation_was_refused_locally_3(
    known: Tree,
    answers: Seq<(Tree, bool)>,
    record: Seq<Tree>,
)
    requires
        passed(PREPARATION@, known, answers, record),
    ensures
        said(record, 18) == Tree::Text("would_block"@),
        at(told(record, 11), "value"@) == at(told(record, 27), "value"@),
        said(record, 30) == Tree::Text("would_block"@),
{
    let l = PREPARATION@;
    reveal_strlit("connection");
    reveal_strlit("reply");
    reveal_strlit("before");
    reveal_strlit("");
    reveal_strlit("saved");
    reveal_strlit("killed");
    reveal_strlit("started");
    reveal_strlit("after");
    reveal_strlit("value");
    reveal_strlit("before,value");
    reveal_strlit("after,value");
    assert("connection"@.len() == 10);
    assert("reply"@.len() == 5);
    assert("before"@.len() == 6);
    lemma_apart(""@, "before"@, 0);
    lemma_apart("connection"@, "before"@, 0);
    lemma_apart("saved"@, "before"@, 0);
    lemma_apart("killed"@, "before"@, 0);
    lemma_apart("started"@, "before"@, 0);
    lemma_apart("after"@, "before"@, 0);
    assert("before,value"@ =~= "before"@ + seq![','] + "value"@);
    assert("after"@[0] != "reply"@[0]);
    assert("after,value"@ =~= "after"@ + seq![','] + "value"@);
    assert(said(record, 18) == Tree::Text("would_block"@)) by {
        was_said(l, known, answers, record, 19);
        saw_is(l, known, answers, record, 20);
    }
    assert(at(told(record, 11), "value"@) == at(told(record, 27), "value"@)) by {
        was_told(l, known, answers, record, 12);
        assert(forall|j: int|
            13 <= j < 29 ==> is_check((#[trigger] l[j]).0@) || !touches(l[j].1@, "before"@));
        stays_through(l, known, answers, record, 13, 29, "before"@);
        lemma_under(record[29], "before"@, "value"@, "before,value"@);
        was_told(l, known, answers, record, 28);
        lemma_under(record[29], "after"@, "value"@, "after,value"@);
        saw_same(l, known, answers, record, 29);
    }
    assert(said(record, 30) == Tree::Text("would_block"@)) by {
        was_said(l, known, answers, record, 31);
        saw_is(l, known, answers, record, 32);
    }
}

/// A request that cannot be prepared is refused locally: one attempt, rejected, neither entered nor
/// uncertain, and no connection, before a restart and behind it, which leaves the attempt as it
/// was.
pub proof fn preparation_was_refused_locally(
    known: Tree,
    answers: Seq<(Tree, bool)>,
) -> (record: Seq<Tree>)
    requires
        known is Object,
        finished(PREPARATION@, known, answers),
    ensures
        passed(PREPARATION@, known, answers, record),
        PREPARATION@[6].2@ == "cli run show run-local-refusal"@,
        at(told(record, 6), "value,lifecycle"@) == Tree::Text("terminal"@),
        at(at(record[10], "model"@), "attempt_count"@) == Tree::Integer(1),
        at(told(record, 6), "value,uncertainty_count"@) == Tree::Integer(0),
        PREPARATION@[11].2@ == "cli attempt inspect run-local-refusal $attempt"@,
        at(told(record, 11), "value,terminal"@) == Tree::Text("rejected"@),
        at(told(record, 11), "value,uncertain"@) == Tree::Bool(false),
        at(told(record, 11), "value,entry_authorization"@) == Tree::Null,
        PREPARATION@[18].2@ == "accept"@,
        said(record, 18) == Tree::Text("would_block"@),
        PREPARATION@[27].2@ == "cli attempt inspect run-local-refusal $attempt"@,
        at(told(record, 11), "value"@) == at(told(record, 27), "value"@),
        PREPARATION@[30].2@ == "accept"@,
        said(record, 30) == Tree::Text("would_block"@),
{
    let record = finished_scenarios_are_recorded(PREPARATION@, known, answers);
    lemma_preparation_was_refused_locally_1(known, answers, record);
    lemma_preparation_was_refused_locally_2(known, answers, record);
    lemma_preparation_was_refused_locally_3(known, answers, record);
    record
}

} // verus!
