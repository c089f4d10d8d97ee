//! What finished controller scenarios have shown.

use vstd::prelude::*;

use crate::findings::{
    awaited_condition, awaited_text, elements_filled, elements_saying, is_check, is_positive,
    items_of, lemma_apart, lemma_four_words, lemma_judged_keys, lemma_judged_num,
    lemma_judged_where, lemma_no_alternatives, lemma_one_digit, lemma_three_together,
    lemma_three_words, lemma_truth_flag, lemma_truth_null, lemma_truth_positive, lemma_two_words,
    lemma_under, no_element, said, saw_contains, saw_false, saw_is, saw_keys, saw_len,
    saw_matching_filled, saw_matching_part, saw_none, saw_num, saw_positive, saw_refused, saw_same,
    saw_true, stays, stays_through, text_has, told, touches, unchanged, was_awaited, was_gathered,
    was_kept, was_made, was_said, was_told,
};
use crate::json::{at, element_with, key_count, Tree};
use crate::makers::{made_children, makes_children};
use crate::record::{finished, finished_scenarios_are_recorded, passed};
use crate::scenario::{arguments, gathered, number_of, parts, reply_output};
use crate::scripts::controller::{
    CONTROLLER, ENTERED_PROCESS, MODEL_REFUSAL, PRELUDE, RACE, RACE_RESERVED,
};

verus! {

proof fn lemma_controller_was_bounded_1(known: Tree, answers: Seq<(Tree, bool)>, record: Seq<Tree>)
    requires
        passed(CONTROLLER@, known, answers, record),
    ensures
        made_children(told(record, 16), Tree::Text("controller-evidence-body"@))
            == Ok::<Tree, Seq<char>>(at(record[19], "children"@)),
        made_children(said(record, 37), Tree::Text("controller-evidence-body"@))
            == Ok::<Tree, Seq<char>>(at(record[40], "created"@)),
        made_children(told(record, 178), Tree::Text("controller-evidence-body"@))
            == Ok::<Tree, Seq<char>>(at(record[181], "children"@)),
        reply_output(at(record[25], "reply"@)).code != Some(0i32),
{
    let l = CONTROLLER@;
    reveal_strlit("children");
    reveal_strlit("children runs =controller-evidence-body");
    reveal_strlit("runs =controller-evidence-body");
    reveal_strlit("runs");
    reveal_strlit("=controller-evidence-body");
    reveal_strlit("reply");
    reveal_strlit("controller-evidence-body");
    reveal_strlit("created");
    reveal_strlit("poll");
    reveal_strlit("wait");
    reveal_strlit("");
    assert(
        "runs =controller-evidence-body"@ =~= "runs"@ + seq![' '] + "=controller-evidence-body"@
    );
    lemma_two_words("runs"@, "=controller-evidence-body"@, "runs =controller-evidence-body"@);
    assert(
        "children runs =controller-evidence-body"@
            =~= "children"@ + seq![' '] + "runs =controller-evidence-body"@
    );
    lemma_four_words(
        "children"@,
        "runs =controller-evidence-body"@,
        "children runs =controller-evidence-body"@,
    );
    assert(
        parts("children runs =controller-evidence-body"@)
            =~= seq!["children"@, "runs"@, "=controller-evidence-body"@]
    );
    assert("runs"@.len() == 4);
    assert("reply"@.len() == 5);
    assert("=controller-evidence-body"@.len() == 25);
    assert("=controller-evidence-body"@.skip(1) =~= "controller-evidence-body"@);
    assert(
        parts("children runs =controller-evidence-body"@).skip(1)
            =~= seq!["runs"@, "=controller-evidence-body"@]
    );
    assert("poll"@[0] != "wait"@[0]);
    lemma_apart(""@, "runs"@, 0);
    assert(made_children(told(record, 16), Tree::Text("controller-evidence-body"@))
            == Ok::<Tree, Seq<char>>(at(record[19], "children"@))) by {
        was_made(l, known, answers, record, 18);
        was_told(l, known, answers, record, 17);
        let args18 = arguments(
            parts("children runs =controller-evidence-body"@).skip(1),
            record[18],
        );
        assert(args18 =~= seq![told(record, 16), Tree::Text("controller-evidence-body"@)]);
        makes_children(args18, record[18]);
    }
    assert(made_children(said(record, 37), Tree::Text("controller-evidence-body"@))
            == Ok::<Tree, Seq<char>>(at(record[40], "created"@))) by {
        was_made(l, known, answers, record, 39);
        was_awaited(l, known, answers, record, 37);
        stays(l, known, answers, record, 38, "runs"@);
        let args39 = arguments(
            parts("children runs =controller-evidence-body"@).skip(1),
            record[39],
        );
        assert(args39 =~= seq![said(record, 37), Tree::Text("controller-evidence-body"@)]);
        makes_children(args39, record[39]);
    }
    assert(made_children(told(record, 178), Tree::Text("controller-evidence-body"@))
            == Ok::<Tree, Seq<char>>(at(record[181], "children"@))) by {
        was_made(l, known, answers, record, 180);
        was_told(l, known, answers, record, 179);
        let args180 = arguments(
            parts("children runs =controller-evidence-body"@).skip(1),
            record[180],
        );
        assert(args180 =~= seq![told(record, 178), Tree::Text("controller-evidence-body"@)]);
        makes_children(args180, record[180]);
    }
    assert(reply_output(at(record[25], "reply"@)).code != Some(0i32)) by {
        saw_refused(l, known, answers, record, 25);
    }
}

proof fn lemma_controller_was_bounded_2(known: Tree, answers: Seq<(Tree, bool)>, record: Seq<Tree>)
    requires
        passed(CONTROLLER@, known, answers, record),
    ensures
        text_has(at(at(record[25], "reply"@), "stderr"@), "real external controller loop"@),
        at(at(told(record, 41), "value,controller_accounting"@), "state"@) == Tree::Text("active"@),
        at(at(told(record, 41), "value,controller_accounting"@), "committed,process_admissions"@)
            == Tree::Integer(2),
        at(told(record, 48), "value,result_acceptance,accepted"@) == Tree::Bool(false),
{
    let l = CONTROLLER@;
    reveal_strlit("reply");
    reveal_strlit("stderr");
    reveal_strlit("reply,stderr");
    reveal_strlit("original_account");
    reveal_strlit("rejected");
    reveal_strlit("");
    reveal_strlit("value,controller_accounting");
    reveal_strlit("rejected,value,controller_accounting");
    reveal_strlit("state");
    reveal_strlit("original_account,state");
    reveal_strlit("2");
    reveal_strlit("committed,process_admissions");
    reveal_strlit("original_account,committed,process_admissions");
    reveal_strlit("rejection");
    reveal_strlit("value,result_acceptance,accepted");
    reveal_strlit("rejection,value,result_acceptance,accepted");
    assert("reply,stderr"@ =~= "reply"@ + seq![','] + "stderr"@);
    assert("original_account"@.len() == 16);
    assert("reply"@.len() == 5);
    assert("rejected"@.len() == 8);
    lemma_apart(""@, "rejected"@, 0);
    assert(
        "rejected,value,controller_accounting"@
            =~= "rejected"@ + seq![','] + "value,controller_accounting"@
    );
    assert("original_account,state"@ =~= "original_account"@ + seq![','] + "state"@);
    lemma_one_digit("2"@);
    assert(number_of("2"@) == Some(2u64));
    assert(
        "original_account,committed,process_admissions"@
            =~= "original_account"@ + seq![','] + "committed,process_admissions"@
    );
    assert("rejection"@.len() == 9);
    assert(
        "rejection,value,result_acceptance,accepted"@
            =~= "rejection"@ + seq![','] + "value,result_acceptance,accepted"@
    );
    assert(text_has(at(at(record[25], "reply"@), "stderr"@), "real external controller loop"@)) by {
        unchanged(l, known, answers, record, 25);
        lemma_under(record[26], "reply"@, "stderr"@, "reply,stderr"@);
        saw_contains(l, known, answers, record, 26);
    }
    assert(at(at(told(record, 41), "value,controller_accounting"@), "state"@) == Tree::Text("active"@)) by {
        was_kept(l, known, answers, record, 43);
        was_awaited(l, known, answers, record, 41);
        stays(l, known, answers, record, 42, "rejected"@);
        lemma_under(
            record[43],
            "rejected"@,
            "value,controller_accounting"@,
            "rejected,value,controller_accounting"@,
        );
        lemma_under(record[44], "original_account"@, "state"@, "original_account,state"@);
        saw_is(l, known, answers, record, 44);
    }
    assert(at(at(told(record, 41), "value,controller_accounting"@), "committed,process_admissions"@)
            == Tree::Integer(2)) by {
        was_kept(l, known, answers, record, 43);
        was_awaited(l, known, answers, record, 41);
        stays(l, known, answers, record, 42, "rejected"@);
        lemma_under(
            record[43],
            "rejected"@,
            "value,controller_accounting"@,
            "rejected,value,controller_accounting"@,
        );
        unchanged(l, known, answers, record, 44);
        lemma_under(
            record[45],
            "original_account"@,
            "committed,process_admissions"@,
            "original_account,committed,process_admissions"@,
        );
        saw_num(l, known, answers, record, 45, 2);
    }
    assert(at(told(record, 48), "value,result_acceptance,accepted"@) == Tree::Bool(false)) by {
        was_told(l, known, answers, record, 49);
        lemma_under(
            record[50],
            "rejection"@,
            "value,result_acceptance,accepted"@,
            "rejection,value,result_acceptance,accepted"@,
        );
        saw_false(l, known, answers, record, 50);
    }
}

proof fn lemma_controller_was_bounded_3(known: Tree, answers: Seq<(Tree, bool)>, record: Seq<Tree>)
    requires
        passed(CONTROLLER@, known, answers, record),
    ensures
        at(told(record, 106), "value,revision_id"@) == at(at(known, "body"@), "id"@),
        no_element(
            items_of(at(told(record, 106), "value,nodes"@)),
            "node_id"@,
            Tree::Text("repair"@),
        ),
        reply_output(at(record[115], "reply"@)).code != Some(0i32),
        at(told(record, 122), "value,controller_accounting"@)
            == at(told(record, 106), "value,controller_accounting"@),
{
    let l = CONTROLLER@;
    reveal_strlit("before_approval");
    reveal_strlit("reply");
    reveal_strlit("value,revision_id");
    reveal_strlit("before_approval,value,revision_id");
    reveal_strlit("body");
    reveal_strlit("");
    reveal_strlit("started");
    reveal_strlit("imported");
    reveal_strlit("prelude");
    reveal_strlit("saved");
    reveal_strlit("disabled");
    reveal_strlit("runs");
    reveal_strlit("children");
    reveal_strlit("killed");
    reveal_strlit("configured");
    reveal_strlit("created");
    reveal_strlit("child");
    reveal_strlit("rejected");
    reveal_strlit("original_account");
    reveal_strlit("node");
    reveal_strlit("attempt");
    reveal_strlit("rejection");
    reveal_strlit("source");
    reveal_strlit("grant");
    reveal_strlit("grant_revision");
    reveal_strlit("revocation");
    reveal_strlit("rejected_sequence");
    reveal_strlit("repair");
    reveal_strlit("root_read");
    reveal_strlit("root_sequence");
    reveal_strlit("preparation");
    reveal_strlit("written");
    reveal_strlit("submitted");
    reveal_strlit("prepared_revision");
    reveal_strlit("decision_read");
    reveal_strlit("decision_sequence");
    reveal_strlit("approved");
    reveal_strlit("applied");
    reveal_strlit("signalled");
    reveal_strlit("proposed");
    reveal_strlit("proposer");
    reveal_strlit("output");
    reveal_strlit("artifact");
    reveal_strlit("got");
    reveal_strlit("result");
    reveal_strlit("proposed_revision");
    reveal_strlit("id");
    reveal_strlit("body,id");
    reveal_strlit("value,nodes");
    reveal_strlit("before_approval,value,nodes");
    reveal_strlit("is");
    reveal_strlit("node_id");
    reveal_strlit("is node_id repair");
    reveal_strlit("else");
    reveal_strlit("plus");
    reveal_strlit("reopened");
    reveal_strlit("value,controller_accounting");
    reveal_strlit("reopened,value,controller_accounting");
    reveal_strlit("before_approval,value,controller_accounting");
    assert("before_approval"@.len() == 15);
    assert("reply"@.len() == 5);
    assert(
        "before_approval,value,revision_id"@
            =~= "before_approval"@ + seq![','] + "value,revision_id"@
    );
    assert("body"@.len() == 4);
    lemma_apart(""@, "body"@, 0);
    lemma_apart("started"@, "body"@, 0);
    lemma_apart("imported"@, "body"@, 0);
    lemma_apart("prelude"@, "body"@, 0);
    lemma_apart("saved"@, "body"@, 0);
    lemma_apart("disabled"@, "body"@, 0);
    lemma_apart("runs"@, "body"@, 0);
    lemma_apart("children"@, "body"@, 0);
    lemma_apart("killed"@, "body"@, 0);
    lemma_apart("configured"@, "body"@, 0);
    lemma_apart("created"@, "body"@, 0);
    lemma_apart("child"@, "body"@, 0);
    lemma_apart("rejected"@, "body"@, 0);
    lemma_apart("original_account"@, "body"@, 0);
    lemma_apart("node"@, "body"@, 0);
    lemma_apart("attempt"@, "body"@, 0);
    lemma_apart("rejection"@, "body"@, 0);
    lemma_apart("source"@, "body"@, 0);
    lemma_apart("grant"@, "body"@, 0);
    lemma_apart("grant_revision"@, "body"@, 0);
    lemma_apart("revocation"@, "body"@, 0);
    lemma_apart("rejected_sequence"@, "body"@, 0);
    lemma_apart("repair"@, "body"@, 0);
    lemma_apart("root_read"@, "body"@, 0);
    lemma_apart("root_sequence"@, "body"@, 0);
    lemma_apart("preparation"@, "body"@, 0);
    lemma_apart("written"@, "body"@, 0);
    lemma_apart("submitted"@, "body"@, 0);
    lemma_apart("prepared_revision"@, "body"@, 0);
    lemma_apart("decision_read"@, "body"@, 0);
    lemma_apart("decision_sequence"@, "body"@, 0);
    lemma_apart("approved"@, "body"@, 0);
    lemma_apart("applied"@, "body"@, 0);
    lemma_apart("signalled"@, "body"@, 0);
    lemma_apart("proposed"@, "body"@, 0);
    lemma_apart("proposer"@, "body"@, 0);
    lemma_apart("output"@, "body"@, 0);
    lemma_apart("artifact"@, "body"@, 0);
    lemma_apart("got"@, "body"@, 0);
    lemma_apart("result"@, "body"@, 0);
    lemma_apart("proposed_revision"@, "body"@, 0);
    lemma_apart("before_approval"@, "body"@, 1);
    assert("body,id"@ =~= "body"@ + seq![','] + "id"@);
    assert("before_approval,value,nodes"@ =~= "before_approval"@ + seq![','] + "value,nodes"@);
    assert("is node_id repair"@ =~= "is"@ + seq![' '] + "node_id"@ + seq![' '] + "repair"@);
    lemma_three_words("is"@, "node_id"@, "repair"@, "is node_id repair"@);
    assert("node_id"@.len() == 7);
    assert("else"@.len() == 4);
    assert("plus"@.len() == 4);
    assert("repair"@.len() == 6);
    assert("reopened"@.len() == 8);
    assert(
        "reopened,value,controller_accounting"@
            =~= "reopened"@ + seq![','] + "value,controller_accounting"@
    );
    lemma_apart(""@, "before_approval"@, 0);
    lemma_apart("killed"@, "before_approval"@, 0);
    lemma_apart("configured"@, "before_approval"@, 0);
    lemma_apart("saved"@, "before_approval"@, 0);
    lemma_apart("started"@, "before_approval"@, 0);
    lemma_apart("reopened"@, "before_approval"@, 0);
    assert(
        "before_approval,value,controller_accounting"@
            =~= "before_approval"@ + seq![','] + "value,controller_accounting"@
    );
    assert(at(told(record, 106), "value,revision_id"@) == at(at(known, "body"@), "id"@)) by {
        was_told(l, known, answers, record, 107);
        lemma_under(
            record[108],
            "before_approval"@,
            "value,revision_id"@,
            "before_approval,value,revision_id"@,
        );
        assert(forall|j: int|
            0 <= j < 108 ==> is_check((#[trigger] l[j]).0@) || !touches(l[j].1@, "body"@));
        stays_through(l, known, answers, record, 0, 108, "body"@);
        lemma_under(record[108], "body"@, "id"@, "body,id"@);
        saw_same(l, known, answers, record, 108);
    }
    assert(no_element(
            items_of(at(told(record, 106), "value,nodes"@)),
            "node_id"@,
            Tree::Text("repair"@),
        )) by {
        was_told(l, known, answers, record, 107);
        unchanged(l, known, answers, record, 108);
        lemma_under(
            record[109],
            "before_approval"@,
            "value,nodes"@,
            "before_approval,value,nodes"@,
        );
        saw_none(l, known, answers, record, 109, "node_id"@, "repair"@);
    }
    assert(reply_output(at(record[115], "reply"@)).code != Some(0i32)) by {
        saw_refused(l, known, answers, record, 115);
    }
    assert(at(told(record, 122), "value,controller_accounting"@)
            == at(told(record, 106), "value,controller_accounting"@)) by {
        was_told(l, known, answers, record, 123);
        lemma_under(
            record[124],
            "reopened"@,
            "value,controller_accounting"@,
            "reopened,value,controller_accounting"@,
        );
        was_told(l, known, answers, record, 107);
        assert(forall|j: int|
            108 <= j < 124
                ==> is_check((#[trigger] l[j]).0@) || !touches(l[j].1@, "before_approval"@));
        stays_through(l, known, answers, record, 108, 124, "before_approval"@);
        lemma_under(
            record[124],
            "before_approval"@,
            "value,controller_accounting"@,
            "before_approval,value,controller_accounting"@,
        );
        saw_same(l, known, answers, record, 124);
    }
}

proof fn lemma_controller_was_bounded_4(known: Tree, answers: Seq<(Tree, bool)>, record: Seq<Tree>)
    requires
        passed(CONTROLLER@, known, answers, record),
    ensures
        reply_output(at(record[133], "reply"@)).code != Some(0i32),
        no_element(
            items_of(at(told(record, 136), "value,nodes"@)),
            "node_id"@,
            Tree::Text("repair"@),
        ),
        at(told(record, 160), "value,replayed"@) == Tree::Bool(true),
        at(told(record, 158), "value,command_id"@) == at(told(record, 160), "value,command_id"@),
{
    let l = CONTROLLER@;
    reveal_strlit("reply");
    reveal_strlit("revoked_read");
    reveal_strlit("value,nodes");
    reveal_strlit("revoked_read,value,nodes");
    reveal_strlit("is");
    reveal_strlit("node_id");
    reveal_strlit("repair");
    reveal_strlit("is node_id repair");
    reveal_strlit("else");
    reveal_strlit("plus");
    reveal_strlit("replayed");
    reveal_strlit("value,replayed");
    reveal_strlit("replayed,value,replayed");
    reveal_strlit("released");
    reveal_strlit("");
    reveal_strlit("value,command_id");
    reveal_strlit("released,value,command_id");
    reveal_strlit("replayed,value,command_id");
    assert("revoked_read"@.len() == 12);
    assert("reply"@.len() == 5);
    assert("revoked_read,value,nodes"@ =~= "revoked_read"@ + seq![','] + "value,nodes"@);
    assert("is node_id repair"@ =~= "is"@ + seq![' '] + "node_id"@ + seq![' '] + "repair"@);
    lemma_three_words("is"@, "node_id"@, "repair"@, "is node_id repair"@);
    assert("node_id"@.len() == 7);
    assert("else"@.len() == 4);
    assert("plus"@.len() == 4);
    assert("repair"@.len() == 6);
    assert("replayed"@.len() == 8);
    assert("replayed,value,replayed"@ =~= "replayed"@ + seq![','] + "value,replayed"@);
    assert("released"@.len() == 8);
    lemma_apart(""@, "released"@, 0);
    lemma_apart("replayed"@, "released"@, 2);
    assert("released,value,command_id"@ =~= "released"@ + seq![','] + "value,command_id"@);
    assert("replayed,value,command_id"@ =~= "replayed"@ + seq![','] + "value,command_id"@);
    assert(reply_output(at(record[133], "reply"@)).code != Some(0i32)) by {
        saw_refused(l, known, answers, record, 133);
    }
    assert(no_element(
            items_of(at(told(record, 136), "value,nodes"@)),
            "node_id"@,
            Tree::Text("repair"@),
        )) by {
        was_told(l, known, answers, record, 137);
        lemma_under(record[138], "revoked_read"@, "value,nodes"@, "revoked_read,value,nodes"@);
        saw_none(l, known, answers, record, 138, "node_id"@, "repair"@);
    }
    assert(at(told(record, 160), "value,replayed"@) == Tree::Bool(true)) by {
        was_told(l, known, answers, record, 161);
        lemma_under(record[162], "replayed"@, "value,replayed"@, "replayed,value,replayed"@);
        saw_true(l, known, answers, record, 162);
    }
    assert(at(told(record, 158), "value,command_id"@) == at(told(record, 160), "value,command_id"@)) by {
        was_told(l, known, answers, record, 159);
        assert(forall|j: int|
            160 <= j < 163 ==> is_check((#[trigger] l[j]).0@) || !touches(l[j].1@, "released"@));
        stays_through(l, known, answers, record, 160, 163, "released"@);
        lemma_under(record[163], "released"@, "value,command_id"@, "released,value,command_id"@);
        was_told(l, known, answers, record, 161);
        unchanged(l, known, answers, record, 162);
        lemma_under(record[163], "replayed"@, "value,command_id"@, "replayed,value,command_id"@);
        saw_same(l, known, answers, record, 163);
    }
}

proof fn lemma_controller_was_bounded_5(known: Tree, answers: Seq<(Tree, bool)>, record: Seq<Tree>)
    requires
        passed(CONTROLLER@, known, answers, record),
    ensures
        at(told(record, 168), "value,result_acceptance,accepted"@) == Tree::Bool(true),
        at(told(record, 175), "value,value,reached_bound"@) == Tree::Text("process_invocations"@),
        made_children(told(record, 178), Tree::Text("controller-evidence-body"@)) is Ok
            && items_of(
                made_children(told(record, 178), Tree::Text("controller-evidence-body"@))->Ok_0,
            ).len() == 1,
        at(at(told(record, 171), "value,controller_accounting"@), "committed,process_admissions"@)
            == Tree::Integer(4),
{
    let l = CONTROLLER@;
    reveal_strlit("accepted");
    reveal_strlit("reply");
    reveal_strlit("value,result_acceptance,accepted");
    reveal_strlit("accepted,value,result_acceptance,accepted");
    reveal_strlit("status");
    reveal_strlit("value,value,reached_bound");
    reveal_strlit("status,value,value,reached_bound");
    reveal_strlit("1");
    reveal_strlit("children");
    reveal_strlit("children runs =controller-evidence-body");
    reveal_strlit("runs =controller-evidence-body");
    reveal_strlit("runs");
    reveal_strlit("=controller-evidence-body");
    reveal_strlit("controller-evidence-body");
    reveal_strlit("4");
    reveal_strlit("accounting");
    reveal_strlit("stopped");
    reveal_strlit("");
    reveal_strlit("node");
    reveal_strlit("execution");
    reveal_strlit("value,controller_accounting");
    reveal_strlit("stopped,value,controller_accounting");
    reveal_strlit("committed,process_admissions");
    reveal_strlit("accounting,committed,process_admissions");
    assert("accepted"@.len() == 8);
    assert("reply"@.len() == 5);
    assert(
        "accepted,value,result_acceptance,accepted"@
            =~= "accepted"@ + seq![','] + "value,result_acceptance,accepted"@
    );
    assert("status"@.len() == 6);
    assert(
        "status,value,value,reached_bound"@
            =~= "status"@ + seq![','] + "value,value,reached_bound"@
    );
    lemma_one_digit("1"@);
    assert(number_of("1"@) == Some(1u64));
    assert("children"@.len() == 8);
    assert(
        "runs =controller-evidence-body"@ =~= "runs"@ + seq![' '] + "=controller-evidence-body"@
    );
    lemma_two_words("runs"@, "=controller-evidence-body"@, "runs =controller-evidence-body"@);
    assert(
        "children runs =controller-evidence-body"@
            =~= "children"@ + seq![' '] + "runs =controller-evidence-body"@
    );
    lemma_four_words(
        "children"@,
        "runs =controller-evidence-body"@,
        "children runs =controller-evidence-body"@,
    );
    assert(
        parts("children runs =controller-evidence-body"@)
            =~= seq!["children"@, "runs"@, "=controller-evidence-body"@]
    );
    assert("runs"@.len() == 4);
    assert("=controller-evidence-body"@.len() == 25);
    assert("=controller-evidence-body"@.skip(1) =~= "controller-evidence-body"@);
    assert(
        parts("children runs =controller-evidence-body"@).skip(1)
            =~= seq!["runs"@, "=controller-evidence-body"@]
    );
    lemma_one_digit("4"@);
    assert(number_of("4"@) == Some(4u64));
    assert("accounting"@.len() == 10);
    assert("stopped"@.len() == 7);
    lemma_apart(""@, "stopped"@, 0);
    lemma_apart("node"@, "stopped"@, 0);
    lemma_apart("execution"@, "stopped"@, 0);
    lemma_apart("status"@, "stopped"@, 2);
    lemma_apart("runs"@, "stopped"@, 0);
    lemma_apart("children"@, "stopped"@, 0);
    assert(
        "stopped,value,controller_accounting"@
            =~= "stopped"@ + seq![','] + "value,controller_accounting"@
    );
    assert(
        "accounting,committed,process_admissions"@
            =~= "accounting"@ + seq![','] + "committed,process_admissions"@
    );
    assert(at(told(record, 168), "value,result_acceptance,accepted"@) == Tree::Bool(true)) by {
        was_told(l, known, answers, record, 169);
        lemma_under(
            record[170],
            "accepted"@,
            "value,result_acceptance,accepted"@,
            "accepted,value,result_acceptance,accepted"@,
        );
        saw_true(l, known, answers, record, 170);
    }
    assert(at(told(record, 175), "value,value,reached_bound"@) == Tree::Text("process_invocations"@)) by {
        was_told(l, known, answers, record, 176);
        lemma_under(
            record[177],
            "status"@,
            "value,value,reached_bound"@,
            "status,value,value,reached_bound"@,
        );
        saw_is(l, known, answers, record, 177);
    }
    assert(made_children(told(record, 178), Tree::Text("controller-evidence-body"@)) is Ok
            && items_of(
                made_children(told(record, 178), Tree::Text("controller-evidence-body"@))->Ok_0,
            ).len() == 1) by {
        was_made(l, known, answers, record, 180);
        was_told(l, known, answers, record, 179);
        let args180 = arguments(
            parts("children runs =controller-evidence-body"@).skip(1),
            record[180],
        );
        assert(args180 =~= seq![told(record, 178), Tree::Text("controller-evidence-body"@)]);
        makes_children(args180, record[180]);
        saw_len(l, known, answers, record, 181, 1);
    }
    assert(at(at(told(record, 171), "value,controller_accounting"@), "committed,process_admissions"@)
            == Tree::Integer(4)) by {
        was_kept(l, known, answers, record, 182);
        was_awaited(l, known, answers, record, 171);
        assert(forall|j: int|
            172 <= j < 182 ==> is_check((#[trigger] l[j]).0@) || !touches(l[j].1@, "stopped"@));
        stays_through(l, known, answers, record, 172, 182, "stopped"@);
        lemma_under(
            record[182],
            "stopped"@,
            "value,controller_accounting"@,
            "stopped,value,controller_accounting"@,
        );
        lemma_under(
            record[183],
            "accounting"@,
            "committed,process_admissions"@,
            "accounting,committed,process_admissions"@,
        );
        saw_num(l, known, answers, record, 183, 4);
    }
}

proof fn lemma_controller_was_bounded_6(known: Tree, answers: Seq<(Tree, bool)>, record: Seq<Tree>)
    requires
        passed(CONTROLLER@, known, answers, record),
    ensures
        at(at(told(record, 171), "value,controller_accounting"@), "remaining,process_admissions"@)
            == Tree::Integer(0),
        key_count(
            at(at(told(record, 171), "value,controller_accounting"@), "account,reservations"@),
        )
            == 0,
        at(told(record, 201), "value,controller_accounting"@)
            == at(told(record, 171), "value,controller_accounting"@),
        is_positive(at(told(record, 204), "value,application_receipts,cold_count"@)),
{
    let l = CONTROLLER@;
    reveal_strlit("0");
    reveal_strlit("accounting");
    reveal_strlit("reply");
    reveal_strlit("stopped");
    reveal_strlit("");
    reveal_strlit("node");
    reveal_strlit("execution");
    reveal_strlit("status");
    reveal_strlit("runs");
    reveal_strlit("children");
    reveal_strlit("value,controller_accounting");
    reveal_strlit("stopped,value,controller_accounting");
    reveal_strlit("remaining,process_admissions");
    reveal_strlit("accounting,remaining,process_admissions");
    reveal_strlit("account,reservations");
    reveal_strlit("accounting,account,reservations");
    reveal_strlit("final_read");
    reveal_strlit("final_read,value,controller_accounting");
    reveal_strlit("saved");
    reveal_strlit("root_read");
    reveal_strlit("root_sequence");
    reveal_strlit("signalled");
    reveal_strlit("finished");
    reveal_strlit("killed");
    reveal_strlit("started");
    reveal_strlit("health");
    reveal_strlit("value,application_receipts,cold_count");
    reveal_strlit("health,value,application_receipts,cold_count");
    lemma_one_digit("0"@);
    assert(number_of("0"@) == Some(0u64));
    assert("accounting"@.len() == 10);
    assert("reply"@.len() == 5);
    assert("stopped"@.len() == 7);
    lemma_apart(""@, "stopped"@, 0);
    lemma_apart("node"@, "stopped"@, 0);
    lemma_apart("execution"@, "stopped"@, 0);
    lemma_apart("status"@, "stopped"@, 2);
    lemma_apart("runs"@, "stopped"@, 0);
    lemma_apart("children"@, "stopped"@, 0);
    assert(
        "stopped,value,controller_accounting"@
            =~= "stopped"@ + seq![','] + "value,controller_accounting"@
    );
    assert(
        "accounting,remaining,process_admissions"@
            =~= "accounting"@ + seq![','] + "remaining,process_admissions"@
    );
    assert(
        "accounting,account,reservations"@ =~= "accounting"@ + seq![','] + "account,reservations"@
    );
    assert("final_read"@.len() == 10);
    assert(
        "final_read,value,controller_accounting"@
            =~= "final_read"@ + seq![','] + "value,controller_accounting"@
    );
    lemma_apart(""@, "accounting"@, 0);
    lemma_apart("saved"@, "accounting"@, 0);
    lemma_apart("root_read"@, "accounting"@, 0);
    lemma_apart("root_sequence"@, "accounting"@, 0);
    lemma_apart("signalled"@, "accounting"@, 0);
    lemma_apart("finished"@, "accounting"@, 0);
    lemma_apart("killed"@, "accounting"@, 0);
    lemma_apart("started"@, "accounting"@, 0);
    lemma_apart("final_read"@, "accounting"@, 0);
    assert("health"@.len() == 6);
    assert(
        "health,value,application_receipts,cold_count"@
            =~= "health"@ + seq![','] + "value,application_receipts,cold_count"@
    );
    assert(at(at(told(record, 171), "value,controller_accounting"@), "remaining,process_admissions"@)
            == Tree::Integer(0)) by {
        was_kept(l, known, answers, record, 182);
        was_awaited(l, known, answers, record, 171);
        assert(forall|j: int|
            172 <= j < 182 ==> is_check((#[trigger] l[j]).0@) || !touches(l[j].1@, "stopped"@));
        stays_through(l, known, answers, record, 172, 182, "stopped"@);
        lemma_under(
            record[182],
            "stopped"@,
            "value,controller_accounting"@,
            "stopped,value,controller_accounting"@,
        );
        unchanged(l, known, answers, record, 183);
        lemma_under(
            record[184],
            "accounting"@,
            "remaining,process_admissions"@,
            "accounting,remaining,process_admissions"@,
        );
        saw_num(l, known, answers, record, 184, 0);
    }
    assert(key_count(
            at(at(told(record, 171), "value,controller_accounting"@), "account,reservations"@),
        )
            == 0) by {
        was_kept(l, known, answers, record, 182);
        was_awaited(l, known, answers, record, 171);
        assert(forall|j: int|
            172 <= j < 182 ==> is_check((#[trigger] l[j]).0@) || !touches(l[j].1@, "stopped"@));
        stays_through(l, known, answers, record, 172, 182, "stopped"@);
        lemma_under(
            record[182],
            "stopped"@,
            "value,controller_accounting"@,
            "stopped,value,controller_accounting"@,
        );
        unchanged(l, known, answers, record, 183);
        unchanged(l, known, answers, record, 184);
        lemma_under(
            record[185],
            "accounting"@,
            "account,reservations"@,
            "accounting,account,reservations"@,
        );
        saw_keys(l, known, answers, record, 185, 0);
    }
    assert(at(told(record, 201), "value,controller_accounting"@)
            == at(told(record, 171), "value,controller_accounting"@)) by {
        was_told(l, known, answers, record, 202);
        lemma_under(
            record[203],
            "final_read"@,
            "value,controller_accounting"@,
            "final_read,value,controller_accounting"@,
        );
        was_kept(l, known, answers, record, 182);
        was_awaited(l, known, answers, record, 171);
        assert(forall|j: int|
            172 <= j < 182 ==> is_check((#[trigger] l[j]).0@) || !touches(l[j].1@, "stopped"@));
        stays_through(l, known, answers, record, 172, 182, "stopped"@);
        lemma_under(
            record[182],
            "stopped"@,
            "value,controller_accounting"@,
            "stopped,value,controller_accounting"@,
        );
        assert(forall|j: int|
            183 <= j < 203 ==> is_check((#[trigger] l[j]).0@) || !touches(l[j].1@, "accounting"@));
        stays_through(l, known, answers, record, 183, 203, "accounting"@);
        saw_same(l, known, answers, record, 203);
    }
    assert(is_positive(at(told(record, 204), "value,application_receipts,cold_count"@))) by {
        was_told(l, known, answers, record, 205);
        lemma_under(
            record[206],
            "health"@,
            "value,application_receipts,cold_count"@,
            "health,value,application_receipts,cold_count"@,
        );
        saw_positive(l, known, answers, record, 206);
    }
}

proof fn lemma_controller_was_bounded_7(known: Tree, answers: Seq<(Tree, bool)>, record: Seq<Tree>)
    requires
        passed(CONTROLLER@, known, answers, record),
    ensures
        at(told(record, 207), "value,replayed"@) == Tree::Bool(true),
        at(told(record, 211), "value,outputs"@) == at(told(record, 94), "value,outputs"@),
        at(told(record, 223), "value,result_acceptance"@)
            == at(told(record, 48), "value,result_acceptance"@),
        at(told(record, 258), "value,uncertainty_count"@) == Tree::Integer(1),
{
    let l = CONTROLLER@;
    reveal_strlit("cold_replay");
    reveal_strlit("reply");
    reveal_strlit("value,replayed");
    reveal_strlit("cold_replay,value,replayed");
    reveal_strlit("retained_proposer");
    reveal_strlit("value,outputs");
    reveal_strlit("retained_proposer,value,outputs");
    reveal_strlit("proposer");
    reveal_strlit("output");
    reveal_strlit("artifact");
    reveal_strlit("");
    reveal_strlit("got");
    reveal_strlit("result");
    reveal_strlit("proposed_revision");
    reveal_strlit("written");
    reveal_strlit("before_approval");
    reveal_strlit("killed");
    reveal_strlit("configured");
    reveal_strlit("saved");
    reveal_strlit("started");
    reveal_strlit("reopened");
    reveal_strlit("reopened_sequence");
    reveal_strlit("revoked_read");
    reveal_strlit("decision_read");
    reveal_strlit("decision_sequence");
    reveal_strlit("approved");
    reveal_strlit("applied");
    reveal_strlit("release_read");
    reveal_strlit("release_sequence");
    reveal_strlit("released");
    reveal_strlit("replayed");
    reveal_strlit("child_done");
    reveal_strlit("node");
    reveal_strlit("attempt");
    reveal_strlit("accepted");
    reveal_strlit("stopped");
    reveal_strlit("execution");
    reveal_strlit("status");
    reveal_strlit("runs");
    reveal_strlit("children");
    reveal_strlit("accounting");
    reveal_strlit("root_read");
    reveal_strlit("root_sequence");
    reveal_strlit("signalled");
    reveal_strlit("finished");
    reveal_strlit("final_read");
    reveal_strlit("health");
    reveal_strlit("proposer,value,outputs");
    reveal_strlit("retained_rejection");
    reveal_strlit("value,result_acceptance");
    reveal_strlit("retained_rejection,value,result_acceptance");
    reveal_strlit("rejection");
    reveal_strlit("source");
    reveal_strlit("grant");
    reveal_strlit("grant_revision");
    reveal_strlit("revocation");
    reveal_strlit("rejected_sequence");
    reveal_strlit("repair");
    reveal_strlit("preparation");
    reveal_strlit("submitted");
    reveal_strlit("prepared_revision");
    reveal_strlit("proposed");
    reveal_strlit("compacted");
    reveal_strlit("rejection,value,result_acceptance");
    reveal_strlit("1");
    reveal_strlit("recovered");
    reveal_strlit("observation,entered");
    reveal_strlit("observation,recovered");
    reveal_strlit("value,uncertainty_count");
    reveal_strlit("recovered,value,uncertainty_count");
    assert("cold_replay"@.len() == 11);
    assert("reply"@.len() == 5);
    assert("cold_replay,value,replayed"@ =~= "cold_replay"@ + seq![','] + "value,replayed"@);
    assert("retained_proposer"@.len() == 17);
    assert(
        "retained_proposer,value,outputs"@ =~= "retained_proposer"@ + seq![','] + "value,outputs"@
    );
    assert("proposer"@.len() == 8);
    lemma_apart("output"@, "proposer"@, 0);
    lemma_apart("artifact"@, "proposer"@, 0);
    lemma_apart(""@, "proposer"@, 0);
    lemma_apart("got"@, "proposer"@, 0);
    lemma_apart("result"@, "proposer"@, 0);
    lemma_apart("proposed_revision"@, "proposer"@, 7);
    lemma_apart("written"@, "proposer"@, 0);
    lemma_apart("before_approval"@, "proposer"@, 0);
    lemma_apart("killed"@, "proposer"@, 0);
    lemma_apart("configured"@, "proposer"@, 0);
    lemma_apart("saved"@, "proposer"@, 0);
    lemma_apart("started"@, "proposer"@, 0);
    lemma_apart("reopened"@, "proposer"@, 0);
    lemma_apart("reopened_sequence"@, "proposer"@, 0);
    lemma_apart("revoked_read"@, "proposer"@, 0);
    lemma_apart("decision_read"@, "proposer"@, 0);
    lemma_apart("decision_sequence"@, "proposer"@, 0);
    lemma_apart("approved"@, "proposer"@, 0);
    lemma_apart("applied"@, "proposer"@, 0);
    lemma_apart("release_read"@, "proposer"@, 0);
    lemma_apart("release_sequence"@, "proposer"@, 0);
    lemma_apart("released"@, "proposer"@, 0);
    lemma_apart("replayed"@, "proposer"@, 0);
    lemma_apart("child_done"@, "proposer"@, 0);
    lemma_apart("node"@, "proposer"@, 0);
    lemma_apart("attempt"@, "proposer"@, 0);
    lemma_apart("accepted"@, "proposer"@, 0);
    lemma_apart("stopped"@, "proposer"@, 0);
    lemma_apart("execution"@, "proposer"@, 0);
    lemma_apart("status"@, "proposer"@, 0);
    lemma_apart("runs"@, "proposer"@, 0);
    lemma_apart("children"@, "proposer"@, 0);
    lemma_apart("accounting"@, "proposer"@, 0);
    lemma_apart("root_read"@, "proposer"@, 0);
    lemma_apart("root_sequence"@, "proposer"@, 0);
    lemma_apart("signalled"@, "proposer"@, 0);
    lemma_apart("finished"@, "proposer"@, 0);
    lemma_apart("final_read"@, "proposer"@, 0);
    lemma_apart("health"@, "proposer"@, 0);
    lemma_apart("cold_replay"@, "proposer"@, 0);
    lemma_apart("retained_proposer"@, "proposer"@, 0);
    assert("proposer,value,outputs"@ =~= "proposer"@ + seq![','] + "value,outputs"@);
    assert("retained_rejection"@.len() == 18);
    assert(
        "retained_rejection,value,result_acceptance"@
            =~= "retained_rejection"@ + seq![','] + "value,result_acceptance"@
    );
    assert("rejection"@.len() == 9);
    lemma_apart(""@, "rejection"@, 0);
    lemma_apart("saved"@, "rejection"@, 0);
    lemma_apart("node"@, "rejection"@, 0);
    lemma_apart("attempt"@, "rejection"@, 0);
    lemma_apart("source"@, "rejection"@, 0);
    lemma_apart("grant"@, "rejection"@, 0);
    lemma_apart("grant_revision"@, "rejection"@, 0);
    lemma_apart("revocation"@, "rejection"@, 2);
    lemma_apart("rejected_sequence"@, "rejection"@, 6);
    lemma_apart("repair"@, "rejection"@, 2);
    lemma_apart("root_read"@, "rejection"@, 1);
    lemma_apart("root_sequence"@, "rejection"@, 1);
    lemma_apart("preparation"@, "rejection"@, 0);
    lemma_apart("written"@, "rejection"@, 0);
    lemma_apart("submitted"@, "rejection"@, 0);
    lemma_apart("prepared_revision"@, "rejection"@, 0);
    lemma_apart("decision_read"@, "rejection"@, 0);
    lemma_apart("decision_sequence"@, "rejection"@, 0);
    lemma_apart("approved"@, "rejection"@, 0);
    lemma_apart("applied"@, "rejection"@, 0);
    lemma_apart("signalled"@, "rejection"@, 0);
    lemma_apart("proposed"@, "rejection"@, 0);
    lemma_apart("proposer"@, "rejection"@, 0);
    lemma_apart("output"@, "rejection"@, 0);
    lemma_apart("artifact"@, "rejection"@, 0);
    lemma_apart("got"@, "rejection"@, 0);
    lemma_apart("result"@, "rejection"@, 2);
    lemma_apart("proposed_revision"@, "rejection"@, 0);
    lemma_apart("before_approval"@, "rejection"@, 0);
    lemma_apart("killed"@, "rejection"@, 0);
    lemma_apart("configured"@, "rejection"@, 0);
    lemma_apart("started"@, "rejection"@, 0);
    lemma_apart("reopened"@, "rejection"@, 2);
    lemma_apart("reopened_sequence"@, "rejection"@, 2);
    lemma_apart("revoked_read"@, "rejection"@, 2);
    lemma_apart("release_read"@, "rejection"@, 2);
    lemma_apart("release_sequence"@, "rejection"@, 2);
    lemma_apart("released"@, "rejection"@, 2);
    lemma_apart("replayed"@, "rejection"@, 2);
    lemma_apart("child_done"@, "rejection"@, 0);
    lemma_apart("accepted"@, "rejection"@, 0);
    lemma_apart("stopped"@, "rejection"@, 0);
    lemma_apart("execution"@, "rejection"@, 0);
    lemma_apart("status"@, "rejection"@, 0);
    lemma_apart("runs"@, "rejection"@, 1);
    lemma_apart("children"@, "rejection"@, 0);
    lemma_apart("accounting"@, "rejection"@, 0);
    lemma_apart("finished"@, "rejection"@, 0);
    lemma_apart("final_read"@, "rejection"@, 0);
    lemma_apart("health"@, "rejection"@, 0);
    lemma_apart("cold_replay"@, "rejection"@, 0);
    lemma_apart("retained_proposer"@, "rejection"@, 2);
    lemma_apart("compacted"@, "rejection"@, 0);
    lemma_apart("retained_rejection"@, "rejection"@, 2);
    assert(
        "rejection,value,result_acceptance"@
            =~= "rejection"@ + seq![','] + "value,result_acceptance"@
    );
    lemma_one_digit("1"@);
    assert(number_of("1"@) == Some(1u64));
    assert("recovered"@.len() == 9);
    lemma_apart("observation,entered"@, "recovered"@, 0);
    lemma_apart("observation,recovered"@, "recovered"@, 0);
    lemma_apart(""@, "recovered"@, 0);
    lemma_apart("saved"@, "recovered"@, 0);
    assert(
        "recovered,value,uncertainty_count"@
            =~= "recovered"@ + seq![','] + "value,uncertainty_count"@
    );
    assert(at(told(record, 207), "value,replayed"@) == Tree::Bool(true)) by {
        was_told(l, known, answers, record, 208);
        lemma_under(record[209], "cold_replay"@, "value,replayed"@, "cold_replay,value,replayed"@);
        saw_true(l, known, answers, record, 209);
    }
    assert(at(told(record, 211), "value,outputs"@) == at(told(record, 94), "value,outputs"@)) by {
        was_told(l, known, answers, record, 212);
        lemma_under(
            record[213],
            "retained_proposer"@,
            "value,outputs"@,
            "retained_proposer,value,outputs"@,
        );
        was_told(l, known, answers, record, 95);
        assert(forall|j: int|
            96 <= j < 213 ==> is_check((#[trigger] l[j]).0@) || !touches(l[j].1@, "proposer"@));
        stays_through(l, known, answers, record, 96, 213, "proposer"@);
        lemma_under(record[213], "proposer"@, "value,outputs"@, "proposer,value,outputs"@);
        saw_same(l, known, answers, record, 213);
    }
    assert(at(told(record, 223), "value,result_acceptance"@)
            == at(told(record, 48), "value,result_acceptance"@)) by {
        was_told(l, known, answers, record, 224);
        unchanged(l, known, answers, record, 225);
        lemma_under(
            record[226],
            "retained_rejection"@,
            "value,result_acceptance"@,
            "retained_rejection,value,result_acceptance"@,
        );
        was_told(l, known, answers, record, 49);
        assert(forall|j: int|
            50 <= j < 226 ==> is_check((#[trigger] l[j]).0@) || !touches(l[j].1@, "rejection"@));
        stays_through(l, known, answers, record, 50, 226, "rejection"@);
        lemma_under(
            record[226],
            "rejection"@,
            "value,result_acceptance"@,
            "rejection,value,result_acceptance"@,
        );
        saw_same(l, known, answers, record, 226);
    }
    assert(at(told(record, 258), "value,uncertainty_count"@) == Tree::Integer(1)) by {
        was_told(l, known, answers, record, 259);
        assert(forall|j: int|
            260 <= j < 264 ==> is_check((#[trigger] l[j]).0@) || !touches(l[j].1@, "recovered"@));
        stays_through(l, known, answers, record, 260, 264, "recovered"@);
        lemma_under(
            record[264],
            "recovered"@,
            "value,uncertainty_count"@,
            "recovered,value,uncertainty_count"@,
        );
        saw_num(l, known, answers, record, 264, 1);
    }
}

proof fn lemma_controller_was_bounded_8(known: Tree, answers: Seq<(Tree, bool)>, record: Seq<Tree>)
    requires
        passed(CONTROLLER@, known, answers, record),
    ensures
        at(told(record, 258), "value,controller_accounting"@)
            == at(said(record, 249), "value,controller_accounting"@),
        at(told(record, 270), "value,uncertainty_count"@) == Tree::Integer(1),
{
    let l = CONTROLLER@;
    reveal_strlit("recovered");
    reveal_strlit("reply");
    reveal_strlit("observation,entered");
    reveal_strlit("observation,recovered");
    reveal_strlit("");
    reveal_strlit("saved");
    reveal_strlit("value,controller_accounting");
    reveal_strlit("recovered,value,controller_accounting");
    reveal_strlit("crash");
    reveal_strlit("killed");
    reveal_strlit("paused");
    reveal_strlit("started");
    reveal_strlit("crashed_run");
    reveal_strlit("crash,value,controller_accounting");
    reveal_strlit("1");
    reveal_strlit("reopened");
    reveal_strlit("value,uncertainty_count");
    reveal_strlit("reopened,value,uncertainty_count");
    assert("recovered"@.len() == 9);
    assert("reply"@.len() == 5);
    lemma_apart("observation,entered"@, "recovered"@, 0);
    lemma_apart("observation,recovered"@, "recovered"@, 0);
    lemma_apart(""@, "recovered"@, 0);
    lemma_apart("saved"@, "recovered"@, 0);
    assert(
        "recovered,value,controller_accounting"@
            =~= "recovered"@ + seq![','] + "value,controller_accounting"@
    );
    assert("crash"@[0] != "reply"@[0]);
    lemma_apart(""@, "crash"@, 0);
    lemma_apart("killed"@, "crash"@, 0);
    lemma_apart("paused"@, "crash"@, 0);
    lemma_apart("started"@, "crash"@, 0);
    lemma_apart("crashed_run"@, "crash"@, 5);
    lemma_apart("recovered"@, "crash"@, 0);
    lemma_apart("observation,entered"@, "crash"@, 0);
    lemma_apart("observation,recovered"@, "crash"@, 0);
    lemma_apart("saved"@, "crash"@, 0);
    assert(
        "crash,value,controller_accounting"@
            =~= "crash"@ + seq![','] + "value,controller_accounting"@
    );
    lemma_one_digit("1"@);
    assert(number_of("1"@) == Some(1u64));
    assert("reopened"@.len() == 8);
    assert(
        "reopened,value,uncertainty_count"@
            =~= "reopened"@ + seq![','] + "value,uncertainty_count"@
    );
    assert(at(told(record, 258), "value,controller_accounting"@)
            == at(said(record, 249), "value,controller_accounting"@)) by {
        was_told(l, known, answers, record, 259);
        assert(forall|j: int|
            260 <= j < 265 ==> is_check((#[trigger] l[j]).0@) || !touches(l[j].1@, "recovered"@));
        stays_through(l, known, answers, record, 260, 265, "recovered"@);
        lemma_under(
            record[265],
            "recovered"@,
            "value,controller_accounting"@,
            "recovered,value,controller_accounting"@,
        );
        was_said(l, known, answers, record, 250);
        assert(forall|j: int|
            251 <= j < 265 ==> is_check((#[trigger] l[j]).0@) || !touches(l[j].1@, "crash"@));
        stays_through(l, known, answers, record, 251, 265, "crash"@);
        lemma_under(
            record[265],
            "crash"@,
            "value,controller_accounting"@,
            "crash,value,controller_accounting"@,
        );
        saw_same(l, known, answers, record, 265);
    }
    assert(at(told(record, 270), "value,uncertainty_count"@) == Tree::Integer(1)) by {
        was_told(l, known, answers, record, 271);
        unchanged(l, known, answers, record, 272);
        lemma_under(
            record[273],
            "reopened"@,
            "value,uncertainty_count"@,
            "reopened,value,uncertainty_count"@,
        );
        saw_num(l, known, answers, record, 273, 1);
    }
}

/// A controller run finishes only where an unqualified activation, a disabled reopening and a
/// revoked approval were refused, the proposed repair was entered neither before its approval nor
/// behind a revocation, the first result was rejected and the last accepted, the bound of process
/// invocations was reached with none remaining, no reservation and one child, receipts were
/// archived, an exact release gave its retained receipt, and later reads kept the accounting, the
/// outputs, the rejection and the uncertainty.
pub proof fn controller_was_bounded(known: Tree, answers: Seq<(Tree, bool)>) -> (record: Seq<Tree>)
    requires
        known is Object,
        finished(CONTROLLER@, known, answers),
    ensures
        passed(CONTROLLER@, known, answers, record),
        CONTROLLER@[16].2@ == "cli run list --limit 100"@,
        made_children(told(record, 16), Tree::Text("controller-evidence-body"@))
            == Ok::<Tree, Seq<char>>(at(record[19], "children"@)),
        CONTROLLER@[37].2@ == "list-runs"@,
        made_children(said(record, 37), Tree::Text("controller-evidence-body"@))
            == Ok::<Tree, Seq<char>>(at(record[40], "created"@)),
        CONTROLLER@[178].2@ == "cli run list --limit 100"@,
        made_children(told(record, 178), Tree::Text("controller-evidence-body"@))
            == Ok::<Tree, Seq<char>>(at(record[181], "children"@)),
        reply_output(at(record[25], "reply"@)).code != Some(0i32),
        text_has(at(at(record[25], "reply"@), "stderr"@), "real external controller loop"@),
        CONTROLLER@[41].2@ == "cli run show $child"@,
        at(at(told(record, 41), "value,controller_accounting"@), "state"@) == Tree::Text("active"@),
        at(at(told(record, 41), "value,controller_accounting"@), "committed,process_admissions"@)
            == Tree::Integer(2),
        CONTROLLER@[48].2@ == "cli attempt inspect $child $attempt"@,
        at(told(record, 48), "value,result_acceptance,accepted"@) == Tree::Bool(false),
        CONTROLLER@[106].2@ == "cli run show $child"@,
        at(told(record, 106), "value,revision_id"@) == at(at(known, "body"@), "id"@),
        no_element(
            items_of(at(told(record, 106), "value,nodes"@)),
            "node_id"@,
            Tree::Text("repair"@),
        ),
        reply_output(at(record[115], "reply"@)).code != Some(0i32),
        CONTROLLER@[122].2@ == "cli run show $child"@,
        at(told(record, 122), "value,controller_accounting"@)
            == at(told(record, 106), "value,controller_accounting"@),
        reply_output(at(record[133], "reply"@)).code != Some(0i32),
        CONTROLLER@[136].2@ == "cli run show $child"@,
        no_element(
            items_of(at(told(record, 136), "value,nodes"@)),
            "node_id"@,
            Tree::Text("repair"@),
        ),
        CONTROLLER@[160].2@
            == "cli-as $paths,approver --command-id release-repair --expected-sequence $release_sequence run signal $child --signal-id release-repair --signal-type controller.repair-release --payload {}"@,
        at(told(record, 160), "value,replayed"@) == Tree::Bool(true),
        CONTROLLER@[158].2@
            == "cli-as $paths,approver --command-id release-repair --expected-sequence $release_sequence run signal $child --signal-id release-repair --signal-type controller.repair-release --payload {}"@,
        at(told(record, 158), "value,command_id"@) == at(told(record, 160), "value,command_id"@),
        CONTROLLER@[168].2@ == "cli attempt inspect $child $attempt"@,
        at(told(record, 168), "value,result_acceptance,accepted"@) == Tree::Bool(true),
        CONTROLLER@[175].2@ == "cli controller status run-controller-qualification $execution"@,
        at(told(record, 175), "value,value,reached_bound"@) == Tree::Text("process_invocations"@),
        made_children(told(record, 178), Tree::Text("controller-evidence-body"@)) is Ok
            && items_of(
                made_children(told(record, 178), Tree::Text("controller-evidence-body"@))->Ok_0,
            ).len() == 1,
        CONTROLLER@[171].2@ == "cli run show run-controller-qualification"@,
        at(at(told(record, 171), "value,controller_accounting"@), "committed,process_admissions"@)
            == Tree::Integer(4),
        at(at(told(record, 171), "value,controller_accounting"@), "remaining,process_admissions"@)
            == Tree::Integer(0),
        key_count(
            at(at(told(record, 171), "value,controller_accounting"@), "account,reservations"@),
        )
            == 0,
        CONTROLLER@[201].2@ == "cli run show run-controller-qualification"@,
        at(told(record, 201), "value,controller_accounting"@)
            == at(told(record, 171), "value,controller_accounting"@),
        CONTROLLER@[204].2@ == "cli daemon health"@,
        is_positive(at(told(record, 204), "value,application_receipts,cold_count"@)),
        CONTROLLER@[207].2@
            == "cli-as $paths,approver --command-id release-repair --expected-sequence $release_sequence run signal $child --signal-id release-repair --signal-type controller.repair-release --payload {}"@,
        at(told(record, 207), "value,replayed"@) == Tree::Bool(true),
        CONTROLLER@[211].2@ == "cli attempt inspect run-controller-qualification $attempt"@,
        CONTROLLER@[94].2@ == "cli attempt inspect run-controller-qualification $attempt"@,
        at(told(record, 211), "value,outputs"@) == at(told(record, 94), "value,outputs"@),
        CONTROLLER@[223].2@ == "cli attempt inspect $child $attempt"@,
        at(told(record, 223), "value,result_acceptance"@)
            == at(told(record, 48), "value,result_acceptance"@),
        CONTROLLER@[258].2@ == "cli run show $crashed_run"@,
        at(told(record, 258), "value,uncertainty_count"@) == Tree::Integer(1),
        CONTROLLER@[249].2@ == "run entered-process"@,
        at(told(record, 258), "value,controller_accounting"@)
            == at(said(record, 249), "value,controller_accounting"@),
        CONTROLLER@[270].2@ == "cli run show $crashed_run"@,
        at(told(record, 270), "value,uncertainty_count"@) == Tree::Integer(1),
{
    let record = finished_scenarios_are_recorded(CONTROLLER@, known, answers);
    lemma_controller_was_bounded_1(known, answers, record);
    lemma_controller_was_bounded_2(known, answers, record);
    lemma_controller_was_bounded_3(known, answers, record);
    lemma_controller_was_bounded_4(known, answers, record);
    lemma_controller_was_bounded_5(known, answers, record);
    lemma_controller_was_bounded_6(known, answers, record);
    lemma_controller_was_bounded_7(known, answers, record);
    lemma_controller_was_bounded_8(known, answers, record);
    record
}

proof fn lemma_unaccounted_start_was_refused_1(
    known: Tree,
    answers: Seq<(Tree, bool)>,
    record: Seq<Tree>,
)
    requires
        passed(PRELUDE@, known, answers, record),
    ensures
        reply_output(at(record[8], "reply"@)).code != Some(0i32),
        at(told(record, 9), "value,lifecycle"@) == Tree::Text("created"@),
{
    let l = PRELUDE@;
    reveal_strlit("reply");
    reveal_strlit("read");
    reveal_strlit("value,lifecycle");
    reveal_strlit("read,value,lifecycle");
    assert("read"@.len() == 4);
    assert("reply"@.len() == 5);
    assert("read,value,lifecycle"@ =~= "read"@ + seq![','] + "value,lifecycle"@);
    assert(reply_output(at(record[8], "reply"@)).code != Some(0i32)) by {
        saw_refused(l, known, answers, record, 8);
    }
    assert(at(told(record, 9), "value,lifecycle"@) == Tree::Text("created"@)) by {
        was_told(l, known, answers, record, 10);
        lemma_under(record[11], "read"@, "value,lifecycle"@, "read,value,lifecycle"@);
        saw_is(l, known, answers, record, 11);
    }
}

proof fn lemma_unaccounted_start_was_refused_2(
    known: Tree,
    answers: Seq<(Tree, bool)>,
    record: Seq<Tree>,
)
    requires
        passed(PRELUDE@, known, answers, record),
    ensures
        at(told(record, 9), "value,controller_accounting,state"@) == Tree::Text("inactive"@),
        made_children(told(record, 13), Tree::Text("controller-evidence-body"@)) is Ok
            && made_children(told(record, 4), Tree::Text("controller-evidence-body"@)) is Ok
            && made_children(told(record, 13), Tree::Text("controller-evidence-body"@))->Ok_0
                == made_children(told(record, 4), Tree::Text("controller-evidence-body"@))->Ok_0,
{
    let l = PRELUDE@;
    reveal_strlit("read");
    reveal_strlit("reply");
    reveal_strlit("value,controller_accounting,state");
    reveal_strlit("read,value,controller_accounting,state");
    reveal_strlit("after");
    reveal_strlit("children runs =controller-evidence-body");
    reveal_strlit("children");
    reveal_strlit("runs =controller-evidence-body");
    reveal_strlit("runs");
    reveal_strlit("=controller-evidence-body");
    reveal_strlit("controller-evidence-body");
    reveal_strlit("before");
    reveal_strlit("");
    assert("read"@.len() == 4);
    assert("reply"@.len() == 5);
    assert(
        "read,value,controller_accounting,state"@
            =~= "read"@ + seq![','] + "value,controller_accounting,state"@
    );
    assert("after"@[0] != "reply"@[0]);
    assert(
        "runs =controller-evidence-body"@ =~= "runs"@ + seq![' '] + "=controller-evidence-body"@
    );
    lemma_two_words("runs"@, "=controller-evidence-body"@, "runs =controller-evidence-body"@);
    assert(
        "children runs =controller-evidence-body"@
            =~= "children"@ + seq![' '] + "runs =controller-evidence-body"@
    );
    lemma_four_words(
        "children"@,
        "runs =controller-evidence-body"@,
        "children runs =controller-evidence-body"@,
    );
    assert(
        parts("children runs =controller-evidence-body"@)
            =~= seq!["children"@, "runs"@, "=controller-evidence-body"@]
    );
    assert("runs"@.len() == 4);
    assert("=controller-evidence-body"@.len() == 25);
    assert("=controller-evidence-body"@.skip(1) =~= "controller-evidence-body"@);
    assert(
        parts("children runs =controller-evidence-body"@).skip(1)
            =~= seq!["runs"@, "=controller-evidence-body"@]
    );
    assert("before"@.len() == 6);
    lemma_apart(""@, "before"@, 0);
    lemma_apart("read"@, "before"@, 0);
    lemma_apart("runs"@, "before"@, 0);
    lemma_apart("after"@, "before"@, 0);
    assert(at(told(record, 9), "value,controller_accounting,state"@) == Tree::Text("inactive"@)) by {
        was_told(l, known, answers, record, 10);
        unchanged(l, known, answers, record, 11);
        lemma_under(
            record[12],
            "read"@,
            "value,controller_accounting,state"@,
            "read,value,controller_accounting,state"@,
        );
        saw_is(l, known, answers, record, 12);
    }
    assert(made_children(told(record, 13), Tree::Text("controller-evidence-body"@)) is Ok
            && made_children(told(record, 4), Tree::Text("controller-evidence-body"@)) is Ok
            && made_children(told(record, 13), Tree::Text("controller-evidence-body"@))->Ok_0
                == made_children(told(record, 4), Tree::Text("controller-evidence-body"@))->Ok_0) by {
        was_made(l, known, answers, record, 15);
        was_told(l, known, answers, record, 14);
        let args15 = arguments(
            parts("children runs =controller-evidence-body"@).skip(1),
            record[15],
        );
        assert(args15 =~= seq![told(record, 13), Tree::Text("controller-evidence-body"@)]);
        makes_children(args15, record[15]);
        was_made(l, known, answers, record, 6);
        was_told(l, known, answers, record, 5);
        let args6 = arguments(parts("children runs =controller-evidence-body"@).skip(1), record[6]);
        assert(args6 =~= seq![told(record, 4), Tree::Text("controller-evidence-body"@)]);
        makes_children(args6, record[6]);
        assert(forall|j: int|
            7 <= j < 16 ==> is_check((#[trigger] l[j]).0@) || !touches(l[j].1@, "before"@));
        stays_through(l, known, answers, record, 7, 16, "before"@);
        saw_same(l, known, answers, record, 16);
    }
}

proof fn lemma_unaccounted_start_was_refused_3(
    known: Tree,
    answers: Seq<(Tree, bool)>,
    record: Seq<Tree>,
)
    requires
        passed(PRELUDE@, known, answers, record),
    ensures
        made_children(told(record, 4), Tree::Text("controller-evidence-body"@))
            == Ok::<Tree, Seq<char>>(at(record[7], "before"@)),
        made_children(told(record, 13), Tree::Text("controller-evidence-body"@))
            == Ok::<Tree, Seq<char>>(at(record[16], "after"@)),
{
    let l = PRELUDE@;
    reveal_strlit("before");
    reveal_strlit("children runs =controller-evidence-body");
    reveal_strlit("children");
    reveal_strlit("runs =controller-evidence-body");
    reveal_strlit("runs");
    reveal_strlit("=controller-evidence-body");
    reveal_strlit("reply");
    reveal_strlit("controller-evidence-body");
    reveal_strlit("after");
    assert(
        "runs =controller-evidence-body"@ =~= "runs"@ + seq![' '] + "=controller-evidence-body"@
    );
    lemma_two_words("runs"@, "=controller-evidence-body"@, "runs =controller-evidence-body"@);
    assert(
        "children runs =controller-evidence-body"@
            =~= "children"@ + seq![' '] + "runs =controller-evidence-body"@
    );
    lemma_four_words(
        "children"@,
        "runs =controller-evidence-body"@,
        "children runs =controller-evidence-body"@,
    );
    assert(
        parts("children runs =controller-evidence-body"@)
            =~= seq!["children"@, "runs"@, "=controller-evidence-body"@]
    );
    assert("runs"@.len() == 4);
    assert("reply"@.len() == 5);
    assert("=controller-evidence-body"@.len() == 25);
    assert("=controller-evidence-body"@.skip(1) =~= "controller-evidence-body"@);
    assert(
        parts("children runs =controller-evidence-body"@).skip(1)
            =~= seq!["runs"@, "=controller-evidence-body"@]
    );
    assert(made_children(told(record, 4), Tree::Text("controller-evidence-body"@))
            == Ok::<Tree, Seq<char>>(at(record[7], "before"@))) by {
        was_made(l, known, answers, record, 6);
        was_told(l, known, answers, record, 5);
        let args6 = arguments(parts("children runs =controller-evidence-body"@).skip(1), record[6]);
        assert(args6 =~= seq![told(record, 4), Tree::Text("controller-evidence-body"@)]);
        makes_children(args6, record[6]);
    }
    assert(made_children(told(record, 13), Tree::Text("controller-evidence-body"@))
            == Ok::<Tree, Seq<char>>(at(record[16], "after"@))) by {
        was_made(l, known, answers, record, 15);
        was_told(l, known, answers, record, 14);
        let args15 = arguments(
            parts("children runs =controller-evidence-body"@).skip(1),
            record[15],
        );
        assert(args15 =~= seq![told(record, 13), Tree::Text("controller-evidence-body"@)]);
        makes_children(args15, record[15]);
    }
}

/// An unaccounted start is refused, and leaves its run created, its accounting inactive and the
/// children as they were before.
pub proof fn unaccounted_start_was_refused(
    known: Tree,
    answers: Seq<(Tree, bool)>,
) -> (record: Seq<Tree>)
    requires
        known is Object,
        finished(PRELUDE@, known, answers),
    ensures
        passed(PRELUDE@, known, answers, record),
        reply_output(at(record[8], "reply"@)).code != Some(0i32),
        PRELUDE@[9].2@ == "cli run show $run"@,
        at(told(record, 9), "value,lifecycle"@) == Tree::Text("created"@),
        at(told(record, 9), "value,controller_accounting,state"@) == Tree::Text("inactive"@),
        PRELUDE@[13].2@ == "cli run list --limit 100"@,
        PRELUDE@[4].2@ == "cli run list --limit 100"@,
        made_children(told(record, 13), Tree::Text("controller-evidence-body"@)) is Ok
            && made_children(told(record, 4), Tree::Text("controller-evidence-body"@)) is Ok
            && made_children(told(record, 13), Tree::Text("controller-evidence-body"@))->Ok_0
                == made_children(told(record, 4), Tree::Text("controller-evidence-body"@))->Ok_0,
        made_children(told(record, 4), Tree::Text("controller-evidence-body"@))
            == Ok::<Tree, Seq<char>>(at(record[7], "before"@)),
        made_children(told(record, 13), Tree::Text("controller-evidence-body"@))
            == Ok::<Tree, Seq<char>>(at(record[16], "after"@)),
{
    let record = finished_scenarios_are_recorded(PRELUDE@, known, answers);
    lemma_unaccounted_start_was_refused_1(known, answers, record);
    lemma_unaccounted_start_was_refused_2(known, answers, record);
    lemma_unaccounted_start_was_refused_3(known, answers, record);
    record
}

proof fn lemma_unbounded_model_was_refused_1(
    known: Tree,
    answers: Seq<(Tree, bool)>,
    record: Seq<Tree>,
)
    requires
        passed(MODEL_REFUSAL@, known, answers, record),
    ensures
        at(told(record, 10), "value,terminal"@) == Tree::Text("failed"@),
        text_has(at(told(record, 14), "value,terminal_detail"@), "Unknown"@),
        text_has(at(told(record, 14), "value,terminal_detail"@), "input_units"@),
{
    let l = MODEL_REFUSAL@;
    reveal_strlit("until");
    reveal_strlit("reply");
    reveal_strlit("or");
    reveal_strlit("read");
    reveal_strlit("is");
    reveal_strlit("read,value,terminal");
    reveal_strlit("failed");
    reveal_strlit("is read,value,terminal failed");
    reveal_strlit("value,terminal");
    reveal_strlit("detail");
    reveal_strlit("inspected");
    reveal_strlit("value,terminal_detail");
    reveal_strlit("inspected,value,terminal_detail");
    assert("read"@.len() == 4);
    assert("reply"@.len() == 5);
    assert(
        "is read,value,terminal failed"@
            =~= "is"@ + seq![' '] + "read,value,terminal"@ + seq![' '] + "failed"@
    );
    lemma_three_words("is"@, "read,value,terminal"@, "failed"@, "is read,value,terminal failed"@);
    assert("read,value,terminal"@.len() == 19);
    assert("failed"@.len() == 6);
    assert("or"@.len() == 2);
    assert("read,value,terminal"@ =~= "read"@ + seq![','] + "value,terminal"@);
    assert("detail"@.len() == 6);
    assert("inspected"@.len() == 9);
    assert(
        "inspected,value,terminal_detail"@ =~= "inspected"@ + seq![','] + "value,terminal_detail"@
    );
    assert(at(told(record, 10), "value,terminal"@) == Tree::Text("failed"@)) by {
        was_awaited(l, known, answers, record, 10);
        awaited_text(l, known, answers, record, 10, 11, "read,value,terminal"@, "failed"@);
        lemma_under(record[11], "read"@, "value,terminal"@, "read,value,terminal"@);
    }
    assert(text_has(at(told(record, 14), "value,terminal_detail"@), "Unknown"@)) by {
        was_kept(l, known, answers, record, 16);
        was_told(l, known, answers, record, 15);
        lemma_under(
            record[16],
            "inspected"@,
            "value,terminal_detail"@,
            "inspected,value,terminal_detail"@,
        );
        saw_contains(l, known, answers, record, 17);
    }
    assert(text_has(at(told(record, 14), "value,terminal_detail"@), "input_units"@)) by {
        was_kept(l, known, answers, record, 16);
        was_told(l, known, answers, record, 15);
        lemma_under(
            record[16],
            "inspected"@,
            "value,terminal_detail"@,
            "inspected,value,terminal_detail"@,
        );
        unchanged(l, known, answers, record, 17);
        saw_contains(l, known, answers, record, 18);
    }
}

proof fn lemma_unbounded_model_was_refused_2(
    known: Tree,
    answers: Seq<(Tree, bool)>,
    record: Seq<Tree>,
)
    requires
        passed(MODEL_REFUSAL@, known, answers, record),
    ensures
        at(at(told(record, 10), "value,controller_accounting"@), "committed,model_admissions"@)
            == Tree::Integer(0),
        key_count(
            at(at(told(record, 10), "value,controller_accounting"@), "account,reservations"@),
        )
            == 0,
        at(told(record, 14), "value,uncertain"@) == Tree::Bool(false),
{
    let l = MODEL_REFUSAL@;
    reveal_strlit("0");
    reveal_strlit("accounting");
    reveal_strlit("reply");
    reveal_strlit("read");
    reveal_strlit("");
    reveal_strlit("node");
    reveal_strlit("attempt");
    reveal_strlit("inspected");
    reveal_strlit("detail");
    reveal_strlit("value,controller_accounting");
    reveal_strlit("read,value,controller_accounting");
    reveal_strlit("committed,model_admissions");
    reveal_strlit("accounting,committed,model_admissions");
    reveal_strlit("account,reservations");
    reveal_strlit("accounting,account,reservations");
    reveal_strlit("value,uncertain");
    reveal_strlit("inspected,value,uncertain");
    lemma_one_digit("0"@);
    assert(number_of("0"@) == Some(0u64));
    assert("accounting"@.len() == 10);
    assert("reply"@.len() == 5);
    assert("read"@.len() == 4);
    lemma_apart(""@, "read"@, 0);
    lemma_apart("node"@, "read"@, 0);
    lemma_apart("attempt"@, "read"@, 0);
    lemma_apart("inspected"@, "read"@, 0);
    lemma_apart("detail"@, "read"@, 0);
    assert(
        "read,value,controller_accounting"@
            =~= "read"@ + seq![','] + "value,controller_accounting"@
    );
    assert(
        "accounting,committed,model_admissions"@
            =~= "accounting"@ + seq![','] + "committed,model_admissions"@
    );
    assert(
        "accounting,account,reservations"@ =~= "accounting"@ + seq![','] + "account,reservations"@
    );
    assert("inspected"@.len() == 9);
    lemma_apart("detail"@, "inspected"@, 0);
    lemma_apart("accounting"@, "inspected"@, 0);
    assert("inspected,value,uncertain"@ =~= "inspected"@ + seq![','] + "value,uncertain"@);
    assert(at(at(told(record, 10), "value,controller_accounting"@), "committed,model_admissions"@)
            == Tree::Integer(0)) by {
        was_kept(l, known, answers, record, 19);
        was_awaited(l, known, answers, record, 10);
        assert(forall|j: int|
            11 <= j < 19 ==> is_check((#[trigger] l[j]).0@) || !touches(l[j].1@, "read"@));
        stays_through(l, known, answers, record, 11, 19, "read"@);
        lemma_under(
            record[19],
            "read"@,
            "value,controller_accounting"@,
            "read,value,controller_accounting"@,
        );
        lemma_under(
            record[20],
            "accounting"@,
            "committed,model_admissions"@,
            "accounting,committed,model_admissions"@,
        );
        saw_num(l, known, answers, record, 20, 0);
    }
    assert(key_count(
            at(at(told(record, 10), "value,controller_accounting"@), "account,reservations"@),
        )
            == 0) by {
        was_kept(l, known, answers, record, 19);
        was_awaited(l, known, answers, record, 10);
        assert(forall|j: int|
            11 <= j < 19 ==> is_check((#[trigger] l[j]).0@) || !touches(l[j].1@, "read"@));
        stays_through(l, known, answers, record, 11, 19, "read"@);
        lemma_under(
            record[19],
            "read"@,
            "value,controller_accounting"@,
            "read,value,controller_accounting"@,
        );
        unchanged(l, known, answers, record, 20);
        lemma_under(
            record[21],
            "accounting"@,
            "account,reservations"@,
            "accounting,account,reservations"@,
        );
        saw_keys(l, known, answers, record, 21, 0);
    }
    assert(at(told(record, 14), "value,uncertain"@) == Tree::Bool(false)) by {
        was_told(l, known, answers, record, 15);
        assert(forall|j: int|
            16 <= j < 22 ==> is_check((#[trigger] l[j]).0@) || !touches(l[j].1@, "inspected"@));
        stays_through(l, known, answers, record, 16, 22, "inspected"@);
        lemma_under(record[22], "inspected"@, "value,uncertain"@, "inspected,value,uncertain"@);
        saw_false(l, known, answers, record, 22);
    }
}

proof fn lemma_unbounded_model_was_refused_3(
    known: Tree,
    answers: Seq<(Tree, bool)>,
    record: Seq<Tree>,
)
    requires
        passed(MODEL_REFUSAL@, known, answers, record),
    ensures
        made_children(said(record, 6), at(at(known, "body"@), "workflow"@))
            == Ok::<Tree, Seq<char>>(at(record[9], "created"@)),
{
    let l = MODEL_REFUSAL@;
    reveal_strlit("created");
    reveal_strlit("children runs body,workflow");
    reveal_strlit("children");
    reveal_strlit("runs body,workflow");
    reveal_strlit("runs");
    reveal_strlit("body,workflow");
    reveal_strlit("reply");
    reveal_strlit("poll");
    reveal_strlit("wait");
    reveal_strlit("");
    reveal_strlit("body");
    reveal_strlit("imported");
    reveal_strlit("started");
    reveal_strlit("workflow");
    assert("runs body,workflow"@ =~= "runs"@ + seq![' '] + "body,workflow"@);
    lemma_two_words("runs"@, "body,workflow"@, "runs body,workflow"@);
    assert("children runs body,workflow"@ =~= "children"@ + seq![' '] + "runs body,workflow"@);
    lemma_four_words("children"@, "runs body,workflow"@, "children runs body,workflow"@);
    assert(parts("children runs body,workflow"@) =~= seq!["children"@, "runs"@, "body,workflow"@]);
    assert("runs"@.len() == 4);
    assert("reply"@.len() == 5);
    assert("poll"@[0] != "wait"@[0]);
    lemma_apart(""@, "runs"@, 0);
    assert("body,workflow"@.len() == 13);
    assert("body"@.len() == 4);
    lemma_apart(""@, "body"@, 0);
    lemma_apart("imported"@, "body"@, 0);
    lemma_apart("started"@, "body"@, 0);
    lemma_apart("runs"@, "body"@, 0);
    assert("body,workflow"@ =~= "body"@ + seq![','] + "workflow"@);
    assert(parts("children runs body,workflow"@).skip(1) =~= seq!["runs"@, "body,workflow"@]);
    assert(made_children(said(record, 6), at(at(known, "body"@), "workflow"@))
            == Ok::<Tree, Seq<char>>(at(record[9], "created"@))) by {
        was_made(l, known, answers, record, 8);
        was_awaited(l, known, answers, record, 6);
        stays(l, known, answers, record, 7, "runs"@);
        assert(forall|j: int|
            0 <= j < 8 ==> is_check((#[trigger] l[j]).0@) || !touches(l[j].1@, "body"@));
        stays_through(l, known, answers, record, 0, 8, "body"@);
        lemma_under(record[8], "body"@, "workflow"@, "body,workflow"@);
        let args8 = arguments(parts("children runs body,workflow"@).skip(1), record[8]);
        assert(args8 =~= seq![said(record, 6), at(at(known, "body"@), "workflow"@)]);
        makes_children(args8, record[8]);
    }
}

/// A model step with unknown usage bounds is refused with no admission, no reservation and no
/// uncertainty, and says which bound was unknown.
pub proof fn unbounded_model_was_refused(
    known: Tree,
    answers: Seq<(Tree, bool)>,
) -> (record: Seq<Tree>)
    requires
        known is Object,
        finished(MODEL_REFUSAL@, known, answers),
    ensures
        passed(MODEL_REFUSAL@, known, answers, record),
        MODEL_REFUSAL@[10].2@ == "cli run show $child"@,
        at(told(record, 10), "value,terminal"@) == Tree::Text("failed"@),
        MODEL_REFUSAL@[14].2@ == "cli attempt inspect $child $attempt"@,
        text_has(at(told(record, 14), "value,terminal_detail"@), "Unknown"@),
        text_has(at(told(record, 14), "value,terminal_detail"@), "input_units"@),
        at(at(told(record, 10), "value,controller_accounting"@), "committed,model_admissions"@)
            == Tree::Integer(0),
        key_count(
            at(at(told(record, 10), "value,controller_accounting"@), "account,reservations"@),
        )
            == 0,
        at(told(record, 14), "value,uncertain"@) == Tree::Bool(false),
        MODEL_REFUSAL@[6].2@ == "list-runs"@,
        made_children(said(record, 6), at(at(known, "body"@), "workflow"@))
            == Ok::<Tree, Seq<char>>(at(record[9], "created"@)),
{
    let record = finished_scenarios_are_recorded(MODEL_REFUSAL@, known, answers);
    lemma_unbounded_model_was_refused_1(known, answers, record);
    lemma_unbounded_model_was_refused_2(known, answers, record);
    lemma_unbounded_model_was_refused_3(known, answers, record);
    record
}

proof fn lemma_race_was_reserved(known: Tree, answers: Seq<(Tree, bool)>, record: Seq<Tree>)
    requires
        passed(RACE_RESERVED@, known, answers, record),
    ensures
        at(told(record, 0), "value,controller_accounting,committed,process_admissions"@)
            == Tree::Integer(2),
        key_count(at(told(record, 0), "value,controller_accounting,account,reservations"@)) == 2,
{
    let l = RACE_RESERVED@;
    reveal_strlit("until");
    reveal_strlit("reply");
    reveal_strlit("or");
    reveal_strlit("reserved");
    reveal_strlit("num reserved,value,controller_accounting,committed,process_admissions 2");
    reveal_strlit("num");
    reveal_strlit("reserved,value,controller_accounting,committed,process_admissions 2");
    reveal_strlit("reserved,value,controller_accounting,committed,process_admissions");
    reveal_strlit("2");
    reveal_strlit("value,controller_accounting,committed,process_admissions");
    reveal_strlit("keys reserved,value,controller_accounting,account,reservations 2");
    reveal_strlit("keys");
    reveal_strlit("reserved,value,controller_accounting,account,reservations 2");
    reveal_strlit("reserved,value,controller_accounting,account,reservations");
    reveal_strlit("value,controller_accounting,account,reservations");
    assert("reserved"@.len() == 8);
    assert("reply"@.len() == 5);
    assert(
        "reserved,value,controller_accounting,committed,process_admissions 2"@
            =~= "reserved,value,controller_accounting,committed,process_admissions"@ + seq![' '] + "2"@
    );
    lemma_two_words(
        "reserved,value,controller_accounting,committed,process_admissions"@,
        "2"@,
        "reserved,value,controller_accounting,committed,process_admissions 2"@,
    );
    assert(
        "num reserved,value,controller_accounting,committed,process_admissions 2"@
            =~= "num"@
                + seq![' ']
                + "reserved,value,controller_accounting,committed,process_admissions 2"@
    );
    lemma_four_words(
        "num"@,
        "reserved,value,controller_accounting,committed,process_admissions 2"@,
        "num reserved,value,controller_accounting,committed,process_admissions 2"@,
    );
    assert("num"@.len() == 3);
    assert("or"@.len() == 2);
    assert("reserved,value,controller_accounting,committed,process_admissions"@.len() == 65);
    assert("2"@.len() == 1);
    lemma_one_digit("2"@);
    assert(number_of("2"@) == Some(2u64));
    assert(
        parts("num reserved,value,controller_accounting,committed,process_admissions 2"@)
            =~= seq![
                "num"@,
                "reserved,value,controller_accounting,committed,process_admissions"@,
                "2"@,
            ]
    );
    assert(
        "reserved,value,controller_accounting,committed,process_admissions"@
            =~= "reserved"@ + seq![','] + "value,controller_accounting,committed,process_admissions"@
    );
    assert(
        "reserved,value,controller_accounting,account,reservations 2"@
            =~= "reserved,value,controller_accounting,account,reservations"@ + seq![' '] + "2"@
    );
    lemma_two_words(
        "reserved,value,controller_accounting,account,reservations"@,
        "2"@,
        "reserved,value,controller_accounting,account,reservations 2"@,
    );
    assert(
        "keys reserved,value,controller_accounting,account,reservations 2"@
            =~= "keys"@ + seq![' '] + "reserved,value,controller_accounting,account,reservations 2"@
    );
    lemma_four_words(
        "keys"@,
        "reserved,value,controller_accounting,account,reservations 2"@,
        "keys reserved,value,controller_accounting,account,reservations 2"@,
    );
    assert("keys"@.len() == 4);
    assert("reserved,value,controller_accounting,account,reservations"@.len() == 57);
    assert(
        parts("keys reserved,value,controller_accounting,account,reservations 2"@)
            =~= seq!["keys"@, "reserved,value,controller_accounting,account,reservations"@, "2"@]
    );
    assert(
        "reserved,value,controller_accounting,account,reservations"@
            =~= "reserved"@ + seq![','] + "value,controller_accounting,account,reservations"@
    );
    assert(at(told(record, 0), "value,controller_accounting,committed,process_admissions"@)
            == Tree::Integer(2)) by {
        was_awaited(l, known, answers, record, 0);
        awaited_condition(l, known, answers, record, 0, 1);
        lemma_no_alternatives(
            parts("num reserved,value,controller_accounting,committed,process_admissions 2"@),
            record[1],
        );
        lemma_judged_num(
            "reserved,value,controller_accounting,committed,process_admissions"@,
            "2"@,
            2,
            record[1],
        );
        lemma_under(
            record[1],
            "reserved"@,
            "value,controller_accounting,committed,process_admissions"@,
            "reserved,value,controller_accounting,committed,process_admissions"@,
        );
    }
    assert(key_count(at(told(record, 0), "value,controller_accounting,account,reservations"@)) == 2) by {
        was_awaited(l, known, answers, record, 0);
        awaited_condition(l, known, answers, record, 0, 2);
        lemma_no_alternatives(
            parts("keys reserved,value,controller_accounting,account,reservations 2"@),
            record[1],
        );
        lemma_judged_keys(
            "reserved,value,controller_accounting,account,reservations"@,
            "2"@,
            2,
            record[1],
        );
        lemma_under(
            record[1],
            "reserved"@,
            "value,controller_accounting,account,reservations"@,
            "reserved,value,controller_accounting,account,reservations"@,
        );
    }
}

/// Both admissions of a race are committed, with one reservation each.
pub proof fn race_was_reserved(known: Tree, answers: Seq<(Tree, bool)>) -> (record: Seq<Tree>)
    requires
        known is Object,
        finished(RACE_RESERVED@, known, answers),
    ensures
        passed(RACE_RESERVED@, known, answers, record),
        RACE_RESERVED@[0].2@ == "cli run show $child"@,
        at(told(record, 0), "value,controller_accounting,committed,process_admissions"@)
            == Tree::Integer(2),
        key_count(at(told(record, 0), "value,controller_accounting,account,reservations"@)) == 2,
{
    let record = finished_scenarios_are_recorded(RACE_RESERVED@, known, answers);
    lemma_race_was_reserved(known, answers, record);
    record
}

proof fn lemma_race_was_settled_1(known: Tree, answers: Seq<(Tree, bool)>, record: Seq<Tree>)
    requires
        passed(RACE@, known, answers, record),
    ensures
        at(at(known, "reserved"@), "value,controller_accounting,remaining,process_admissions"@)
            == Tree::Integer(0),
        at(told(record, 1), "value,terminal"@) == Tree::Text("failed"@),
{
    let l = RACE@;
    reveal_strlit("0");
    reveal_strlit("reserved");
    reveal_strlit("reply");
    reveal_strlit("value,controller_accounting,remaining,process_admissions");
    reveal_strlit("reserved,value,controller_accounting,remaining,process_admissions");
    reveal_strlit("until");
    reveal_strlit("or");
    reveal_strlit("failed");
    reveal_strlit("is");
    reveal_strlit("failed,value,terminal");
    reveal_strlit("is failed,value,terminal failed");
    reveal_strlit("value,terminal");
    lemma_one_digit("0"@);
    assert(number_of("0"@) == Some(0u64));
    assert("reserved"@.len() == 8);
    assert("reply"@.len() == 5);
    assert(
        "reserved,value,controller_accounting,remaining,process_admissions"@
            =~= "reserved"@ + seq![','] + "value,controller_accounting,remaining,process_admissions"@
    );
    assert("failed"@.len() == 6);
    assert(
        "is failed,value,terminal failed"@
            =~= "is"@ + seq![' '] + "failed,value,terminal"@ + seq![' '] + "failed"@
    );
    lemma_three_words(
        "is"@,
        "failed,value,terminal"@,
        "failed"@,
        "is failed,value,terminal failed"@,
    );
    assert("failed,value,terminal"@.len() == 21);
    assert("or"@.len() == 2);
    assert("failed,value,terminal"@ =~= "failed"@ + seq![','] + "value,terminal"@);
    assert(at(at(known, "reserved"@), "value,controller_accounting,remaining,process_admissions"@)
            == Tree::Integer(0)) by {
        lemma_under(
            record[0],
            "reserved"@,
            "value,controller_accounting,remaining,process_admissions"@,
            "reserved,value,controller_accounting,remaining,process_admissions"@,
        );
        saw_num(l, known, answers, record, 0, 0);
    }
    assert(at(told(record, 1), "value,terminal"@) == Tree::Text("failed"@)) by {
        was_awaited(l, known, answers, record, 1);
        awaited_text(l, known, answers, record, 1, 2, "failed,value,terminal"@, "failed"@);
        lemma_under(record[2], "failed"@, "value,terminal"@, "failed,value,terminal"@);
    }
}

proof fn lemma_race_was_settled_2(known: Tree, answers: Seq<(Tree, bool)>, record: Seq<Tree>)
    requires
        passed(RACE@, known, answers, record),
    ensures
        elements_filled(seq![told(record, 5), told(record, 9), told(record, 13)], "value,outputs"@)
            == 2,
        elements_saying(
            seq![told(record, 5), told(record, 9), told(record, 13)],
            "value,terminal_detail"@,
            "process_admissions"@,
        )
            == 1,
{
    let l = RACE@;
    reveal_strlit("attempts");
    reveal_strlit("reply");
    reveal_strlit("one two three");
    reveal_strlit("one");
    reveal_strlit("two three");
    reveal_strlit("two");
    reveal_strlit("three");
    reveal_strlit("node");
    reveal_strlit("attempt");
    reveal_strlit("");
    reveal_strlit("2");
    reveal_strlit("2 nonempty value,outputs");
    reveal_strlit("nonempty value,outputs");
    reveal_strlit("nonempty");
    reveal_strlit("value,outputs");
    reveal_strlit("else");
    reveal_strlit("plus");
    reveal_strlit("1");
    reveal_strlit("1 contains value,terminal_detail process_admissions");
    reveal_strlit("contains value,terminal_detail process_admissions");
    reveal_strlit("contains");
    reveal_strlit("value,terminal_detail process_admissions");
    reveal_strlit("value,terminal_detail");
    reveal_strlit("process_admissions");
    assert("attempts"@.len() == 8);
    assert("reply"@.len() == 5);
    assert("two three"@ =~= "two"@ + seq![' '] + "three"@);
    lemma_two_words("two"@, "three"@, "two three"@);
    assert("one two three"@ =~= "one"@ + seq![' '] + "two three"@);
    lemma_four_words("one"@, "two three"@, "one two three"@);
    assert("one"@.len() == 3);
    lemma_apart("node"@, "one"@, 0);
    lemma_apart("attempt"@, "one"@, 0);
    lemma_apart(""@, "one"@, 0);
    lemma_apart("two"@, "one"@, 0);
    lemma_apart("three"@, "one"@, 0);
    assert("two"@.len() == 3);
    lemma_apart("node"@, "two"@, 0);
    lemma_apart("attempt"@, "two"@, 0);
    lemma_apart(""@, "two"@, 0);
    lemma_apart("three"@, "two"@, 1);
    assert("three"@[0] != "reply"@[0]);
    lemma_one_digit("2"@);
    assert(number_of("2"@) == Some(2u64));
    assert("nonempty value,outputs"@ =~= "nonempty"@ + seq![' '] + "value,outputs"@);
    lemma_two_words("nonempty"@, "value,outputs"@, "nonempty value,outputs"@);
    assert("2 nonempty value,outputs"@ =~= "2"@ + seq![' '] + "nonempty value,outputs"@);
    lemma_four_words("2"@, "nonempty value,outputs"@, "2 nonempty value,outputs"@);
    assert("value,outputs"@.len() == 13);
    assert("else"@.len() == 4);
    assert("plus"@.len() == 4);
    assert(parts("2 nonempty value,outputs"@) =~= seq!["2"@, "nonempty"@, "value,outputs"@]);
    lemma_one_digit("1"@);
    assert(number_of("1"@) == Some(1u64));
    assert(
        "value,terminal_detail process_admissions"@
            =~= "value,terminal_detail"@ + seq![' '] + "process_admissions"@
    );
    lemma_two_words(
        "value,terminal_detail"@,
        "process_admissions"@,
        "value,terminal_detail process_admissions"@,
    );
    assert(
        "contains value,terminal_detail process_admissions"@
            =~= "contains"@ + seq![' '] + "value,terminal_detail process_admissions"@
    );
    lemma_four_words(
        "contains"@,
        "value,terminal_detail process_admissions"@,
        "contains value,terminal_detail process_admissions"@,
    );
    assert(
        "1 contains value,terminal_detail process_admissions"@
            =~= "1"@ + seq![' '] + "contains value,terminal_detail process_admissions"@
    );
    lemma_four_words(
        "1"@,
        "contains value,terminal_detail process_admissions"@,
        "1 contains value,terminal_detail process_admissions"@,
    );
    assert("value,terminal_detail"@.len() == 21);
    assert("process_admissions"@.len() == 18);
    assert(
        parts("1 contains value,terminal_detail process_admissions"@)
            =~= seq!["1"@, "contains"@, "value,terminal_detail"@, "process_admissions"@]
    );
    assert(elements_filled(seq![told(record, 5), told(record, 9), told(record, 13)], "value,outputs"@)
            == 2) by {
        was_told(l, known, answers, record, 6);
        assert(forall|j: int|
            7 <= j < 15 ==> is_check((#[trigger] l[j]).0@) || !touches(l[j].1@, "one"@));
        stays_through(l, known, answers, record, 7, 15, "one"@);
        was_told(l, known, answers, record, 10);
        assert(forall|j: int|
            11 <= j < 15 ==> is_check((#[trigger] l[j]).0@) || !touches(l[j].1@, "two"@));
        stays_through(l, known, answers, record, 11, 15, "two"@);
        was_told(l, known, answers, record, 14);
        was_gathered(l, known, answers, record, 15);
        assert(
            gathered(parts("one two three"@), record[15])
                =~= seq![told(record, 5), told(record, 9), told(record, 13)]
        );
        saw_matching_filled(l, known, answers, record, 16, "2"@, "value,outputs"@, 2);
    }
    assert(elements_saying(
            seq![told(record, 5), told(record, 9), told(record, 13)],
            "value,terminal_detail"@,
            "process_admissions"@,
        )
            == 1) by {
        was_told(l, known, answers, record, 6);
        assert(forall|j: int|
            7 <= j < 15 ==> is_check((#[trigger] l[j]).0@) || !touches(l[j].1@, "one"@));
        stays_through(l, known, answers, record, 7, 15, "one"@);
        was_told(l, known, answers, record, 10);
        assert(forall|j: int|
            11 <= j < 15 ==> is_check((#[trigger] l[j]).0@) || !touches(l[j].1@, "two"@));
        stays_through(l, known, answers, record, 11, 15, "two"@);
        was_told(l, known, answers, record, 14);
        was_gathered(l, known, answers, record, 15);
        assert(
            gathered(parts("one two three"@), record[15])
                =~= seq![told(record, 5), told(record, 9), told(record, 13)]
        );
        unchanged(l, known, answers, record, 16);
        saw_matching_part(
            l,
            known,
            answers,
            record,
            17,
            "1"@,
            "value,terminal_detail"@,
            "process_admissions"@,
            1,
        );
    }
}

proof fn lemma_race_was_settled_3(known: Tree, answers: Seq<(Tree, bool)>, record: Seq<Tree>)
    requires
        passed(RACE@, known, answers, record),
    ensures
        at(told(record, 18), "value,controller_accounting,committed,process_admissions"@)
            == Tree::Integer(2),
{
    let l = RACE@;
    reveal_strlit("2");
    reveal_strlit("settled");
    reveal_strlit("reply");
    reveal_strlit("value,controller_accounting,committed,process_admissions");
    reveal_strlit("settled,value,controller_accounting,committed,process_admissions");
    lemma_one_digit("2"@);
    assert(number_of("2"@) == Some(2u64));
    assert("settled"@.len() == 7);
    assert("reply"@.len() == 5);
    assert(
        "settled,value,controller_accounting,committed,process_admissions"@
            =~= "settled"@ + seq![','] + "value,controller_accounting,committed,process_admissions"@
    );
    assert(at(told(record, 18), "value,controller_accounting,committed,process_admissions"@)
            == Tree::Integer(2)) by {
        was_told(l, known, answers, record, 19);
        lemma_under(
            record[20],
            "settled"@,
            "value,controller_accounting,committed,process_admissions"@,
            "settled,value,controller_accounting,committed,process_admissions"@,
        );
        saw_num(l, known, answers, record, 20, 2);
    }
}

/// Three workers that raced for the last allowance gave two entries and one denial: the
/// reservations left none remaining, the run failed, and the settlement neither reset nor
/// duplicated the allowance.
pub proof fn race_was_settled(known: Tree, answers: Seq<(Tree, bool)>) -> (record: Seq<Tree>)
    requires
        known is Object,
        finished(RACE@, known, answers),
    ensures
        passed(RACE@, known, answers, record),
        at(at(known, "reserved"@), "value,controller_accounting,remaining,process_admissions"@)
            == Tree::Integer(0),
        RACE@[1].2@ == "cli run show run-controller-race"@,
        at(told(record, 1), "value,terminal"@) == Tree::Text("failed"@),
        RACE@[5].2@ == "cli attempt inspect $child $attempt"@,
        RACE@[9].2@ == "cli attempt inspect $child $attempt"@,
        RACE@[13].2@ == "cli attempt inspect $child $attempt"@,
        elements_filled(seq![told(record, 5), told(record, 9), told(record, 13)], "value,outputs"@)
            == 2,
        elements_saying(
            seq![told(record, 5), told(record, 9), told(record, 13)],
            "value,terminal_detail"@,
            "process_admissions"@,
        )
            == 1,
        RACE@[18].2@ == "cli run show $child"@,
        at(told(record, 18), "value,controller_accounting,committed,process_admissions"@)
            == Tree::Integer(2),
{
    let record = finished_scenarios_are_recorded(RACE@, known, answers);
    lemma_race_was_settled_1(known, answers, record);
    lemma_race_was_settled_2(known, answers, record);
    lemma_race_was_settled_3(known, answers, record);
    record
}

proof fn lemma_one_admission(known: Tree, answers: Seq<(Tree, bool)>, record: Seq<Tree>)
    requires
        passed(ENTERED_PROCESS@, known, answers, record),
    ensures
        at(told(record, 10), "value,controller_accounting,committed,process_admissions"@)
            == Tree::Integer(1),
        made_children(said(record, 6), Tree::Text("controller-crash-body"@))
            == Ok::<Tree, Seq<char>>(at(record[9], "created"@)),
{
    let l = ENTERED_PROCESS@;
    reveal_strlit("until");
    reveal_strlit("reply");
    reveal_strlit("or");
    reveal_strlit("entered");
    reveal_strlit("num entered,value,controller_accounting,committed,process_admissions 1");
    reveal_strlit("num");
    reveal_strlit("entered,value,controller_accounting,committed,process_admissions 1");
    reveal_strlit("entered,value,controller_accounting,committed,process_admissions");
    reveal_strlit("1");
    reveal_strlit("value,controller_accounting,committed,process_admissions");
    reveal_strlit("created");
    reveal_strlit("children runs =controller-crash-body");
    reveal_strlit("children");
    reveal_strlit("runs =controller-crash-body");
    reveal_strlit("runs");
    reveal_strlit("=controller-crash-body");
    reveal_strlit("poll");
    reveal_strlit("wait");
    reveal_strlit("");
    reveal_strlit("controller-crash-body");
    assert("entered"@.len() == 7);
    assert("reply"@.len() == 5);
    assert(
        "entered,value,controller_accounting,committed,process_admissions 1"@
            =~= "entered,value,controller_accounting,committed,process_admissions"@ + seq![' '] + "1"@
    );
    lemma_two_words(
        "entered,value,controller_accounting,committed,process_admissions"@,
        "1"@,
        "entered,value,controller_accounting,committed,process_admissions 1"@,
    );
    assert(
        "num entered,value,controller_accounting,committed,process_admissions 1"@
            =~= "num"@
                + seq![' ']
                + "entered,value,controller_accounting,committed,process_admissions 1"@
    );
    lemma_four_words(
        "num"@,
        "entered,value,controller_accounting,committed,process_admissions 1"@,
        "num entered,value,controller_accounting,committed,process_admissions 1"@,
    );
    assert("num"@.len() == 3);
    assert("or"@.len() == 2);
    assert("entered,value,controller_accounting,committed,process_admissions"@.len() == 64);
    assert("1"@.len() == 1);
    lemma_one_digit("1"@);
    assert(number_of("1"@) == Some(1u64));
    assert(
        parts("num entered,value,controller_accounting,committed,process_admissions 1"@)
            =~= seq!["num"@, "entered,value,controller_accounting,committed,process_admissions"@, "1"@]
    );
    assert(
        "entered,value,controller_accounting,committed,process_admissions"@
            =~= "entered"@ + seq![','] + "value,controller_accounting,committed,process_admissions"@
    );
    assert("runs =controller-crash-body"@ =~= "runs"@ + seq![' '] + "=controller-crash-body"@);
    lemma_two_words("runs"@, "=controller-crash-body"@, "runs =controller-crash-body"@);
    assert(
        "children runs =controller-crash-body"@
            =~= "children"@ + seq![' '] + "runs =controller-crash-body"@
    );
    lemma_four_words(
        "children"@,
        "runs =controller-crash-body"@,
        "children runs =controller-crash-body"@,
    );
    assert(
        parts("children runs =controller-crash-body"@)
            =~= seq!["children"@, "runs"@, "=controller-crash-body"@]
    );
    assert("runs"@.len() == 4);
    assert("poll"@[0] != "wait"@[0]);
    lemma_apart(""@, "runs"@, 0);
    assert("=controller-crash-body"@.len() == 22);
    assert("=controller-crash-body"@.skip(1) =~= "controller-crash-body"@);
    assert(
        parts("children runs =controller-crash-body"@).skip(1)
            =~= seq!["runs"@, "=controller-crash-body"@]
    );
    assert(at(told(record, 10), "value,controller_accounting,committed,process_admissions"@)
            == Tree::Integer(1)) by {
        was_awaited(l, known, answers, record, 10);
        awaited_condition(l, known, answers, record, 10, 11);
        lemma_no_alternatives(
            parts("num entered,value,controller_accounting,committed,process_admissions 1"@),
            record[11],
        );
        lemma_judged_num(
            "entered,value,controller_accounting,committed,process_admissions"@,
            "1"@,
            1,
            record[11],
        );
        lemma_under(
            record[11],
            "entered"@,
            "value,controller_accounting,committed,process_admissions"@,
            "entered,value,controller_accounting,committed,process_admissions"@,
        );
    }
    assert(made_children(said(record, 6), Tree::Text("controller-crash-body"@))
            == Ok::<Tree, Seq<char>>(at(record[9], "created"@))) by {
        was_made(l, known, answers, record, 8);
        was_awaited(l, known, answers, record, 6);
        stays(l, known, answers, record, 7, "runs"@);
        let args8 = arguments(parts("children runs =controller-crash-body"@).skip(1), record[8]);
        assert(args8 =~= seq![said(record, 6), Tree::Text("controller-crash-body"@)]);
        makes_children(args8, record[8]);
    }
}

#[verifier::rlimit(40)]
proof fn lemma_open_attempt_words()
    ensures
        parts(
            "where entered,value,nodes node_id work true latest_attempt,entry_authorization,allowed plus positive latest_attempt,progress_observations plus null latest_attempt,terminal"@,
        )
            == seq![
                "where"@,
                "entered,value,nodes"@,
                "node_id"@,
                "work"@,
                "true"@,
                "latest_attempt,entry_authorization,allowed"@,
                "plus"@,
                "positive"@,
                "latest_attempt,progress_observations"@,
                "plus"@,
                "null"@,
                "latest_attempt,terminal"@,
            ],
{
    reveal_strlit(
        "where entered,value,nodes node_id work true latest_attempt,entry_authorization,allowed plus positive latest_attempt,progress_observations plus null latest_attempt,terminal",
    );
    reveal_strlit("where");
    reveal_strlit(
        "entered,value,nodes node_id work true latest_attempt,entry_authorization,allowed plus positive latest_attempt,progress_observations plus null latest_attempt,terminal",
    );
    reveal_strlit("entered,value,nodes");
    reveal_strlit(
        "node_id work true latest_attempt,entry_authorization,allowed plus positive latest_attempt,progress_observations plus null latest_attempt,terminal",
    );
    reveal_strlit("node_id");
    reveal_strlit(
        "work true latest_attempt,entry_authorization,allowed plus positive latest_attempt,progress_observations plus null latest_attempt,terminal",
    );
    reveal_strlit("work");
    reveal_strlit(
        "true latest_attempt,entry_authorization,allowed plus positive latest_attempt,progress_observations plus null latest_attempt,terminal",
    );
    reveal_strlit("true");
    reveal_strlit(
        "latest_attempt,entry_authorization,allowed plus positive latest_attempt,progress_observations plus null latest_attempt,terminal",
    );
    reveal_strlit("latest_attempt,entry_authorization,allowed");
    reveal_strlit(
        "plus positive latest_attempt,progress_observations plus null latest_attempt,terminal",
    );
    reveal_strlit("plus");
    reveal_strlit(
        "positive latest_attempt,progress_observations plus null latest_attempt,terminal",
    );
    reveal_strlit("positive");
    reveal_strlit("latest_attempt,progress_observations plus null latest_attempt,terminal");
    reveal_strlit("latest_attempt,progress_observations");
    reveal_strlit("plus null latest_attempt,terminal");
    reveal_strlit("null latest_attempt,terminal");
    reveal_strlit("null");
    reveal_strlit("latest_attempt,terminal");
    assert("null latest_attempt,terminal"@ =~= "null"@ + seq![' '] + "latest_attempt,terminal"@);
    lemma_two_words("null"@, "latest_attempt,terminal"@, "null latest_attempt,terminal"@);
    assert(
        "plus null latest_attempt,terminal"@
            =~= "plus"@ + seq![' '] + "null latest_attempt,terminal"@
    );
    lemma_four_words(
        "plus"@,
        "null latest_attempt,terminal"@,
        "plus null latest_attempt,terminal"@,
    );
    assert(
        "latest_attempt,progress_observations plus null latest_attempt,terminal"@
            =~= "latest_attempt,progress_observations"@
                + seq![' ']
                + "plus null latest_attempt,terminal"@
    );
    lemma_four_words(
        "latest_attempt,progress_observations"@,
        "plus null latest_attempt,terminal"@,
        "latest_attempt,progress_observations plus null latest_attempt,terminal"@,
    );
    assert(
        "positive latest_attempt,progress_observations plus null latest_attempt,terminal"@
            =~= "positive"@
                + seq![' ']
                + "latest_attempt,progress_observations plus null latest_attempt,terminal"@
    );
    lemma_four_words(
        "positive"@,
        "latest_attempt,progress_observations plus null latest_attempt,terminal"@,
        "positive latest_attempt,progress_observations plus null latest_attempt,terminal"@,
    );
    assert(
        "plus positive latest_attempt,progress_observations plus null latest_attempt,terminal"@
            =~= "plus"@
                + seq![' ']
                + "positive latest_attempt,progress_observations plus null latest_attempt,terminal"@
    );
    lemma_four_words(
        "plus"@,
        "positive latest_attempt,progress_observations plus null latest_attempt,terminal"@,
        "plus positive latest_attempt,progress_observations plus null latest_attempt,terminal"@,
    );
    assert(
        "latest_attempt,entry_authorization,allowed plus positive latest_attempt,progress_observations plus null latest_attempt,terminal"@
            =~= "latest_attempt,entry_authorization,allowed"@
                + seq![' ']
                + "plus positive latest_attempt,progress_observations plus null latest_attempt,terminal"@
    );
    lemma_four_words(
        "latest_attempt,entry_authorization,allowed"@,
        "plus positive latest_attempt,progress_observations plus null latest_attempt,terminal"@,
        "latest_attempt,entry_authorization,allowed plus positive latest_attempt,progress_observations plus null latest_attempt,terminal"@,
    );
    assert(
        "true latest_attempt,entry_authorization,allowed plus positive latest_attempt,progress_observations plus null latest_attempt,terminal"@
            =~= "true"@
                + seq![' ']
                + "latest_attempt,entry_authorization,allowed plus positive latest_attempt,progress_observations plus null latest_attempt,terminal"@
    );
    lemma_four_words(
        "true"@,
        "latest_attempt,entry_authorization,allowed plus positive latest_attempt,progress_observations plus null latest_attempt,terminal"@,
        "true latest_attempt,entry_authorization,allowed plus positive latest_attempt,progress_observations plus null latest_attempt,terminal"@,
    );
    assert(
        "work true latest_attempt,entry_authorization,allowed plus positive latest_attempt,progress_observations plus null latest_attempt,terminal"@
            =~= "work"@
                + seq![' ']
                + "true latest_attempt,entry_authorization,allowed plus positive latest_attempt,progress_observations plus null latest_attempt,terminal"@
    );
    lemma_four_words(
        "work"@,
        "true latest_attempt,entry_authorization,allowed plus positive latest_attempt,progress_observations plus null latest_attempt,terminal"@,
        "work true latest_attempt,entry_authorization,allowed plus positive latest_attempt,progress_observations plus null latest_attempt,terminal"@,
    );
    assert(
        "node_id work true latest_attempt,entry_authorization,allowed plus positive latest_attempt,progress_observations plus null latest_attempt,terminal"@
            =~= "node_id"@
                + seq![' ']
                + "work true latest_attempt,entry_authorization,allowed plus positive latest_attempt,progress_observations plus null latest_attempt,terminal"@
    );
    lemma_four_words(
        "node_id"@,
        "work true latest_attempt,entry_authorization,allowed plus positive latest_attempt,progress_observations plus null latest_attempt,terminal"@,
        "node_id work true latest_attempt,entry_authorization,allowed plus positive latest_attempt,progress_observations plus null latest_attempt,terminal"@,
    );
    assert(
        "entered,value,nodes node_id work true latest_attempt,entry_authorization,allowed plus positive latest_attempt,progress_observations plus null latest_attempt,terminal"@
            =~= "entered,value,nodes"@
                + seq![' ']
                + "node_id work true latest_attempt,entry_authorization,allowed plus positive latest_attempt,progress_observations plus null latest_attempt,terminal"@
    );
    lemma_four_words(
        "entered,value,nodes"@,
        "node_id work true latest_attempt,entry_authorization,allowed plus positive latest_attempt,progress_observations plus null latest_attempt,terminal"@,
        "entered,value,nodes node_id work true latest_attempt,entry_authorization,allowed plus positive latest_attempt,progress_observations plus null latest_attempt,terminal"@,
    );
    assert(
        "where entered,value,nodes node_id work true latest_attempt,entry_authorization,allowed plus positive latest_attempt,progress_observations plus null latest_attempt,terminal"@
            =~= "where"@
                + seq![' ']
                + "entered,value,nodes node_id work true latest_attempt,entry_authorization,allowed plus positive latest_attempt,progress_observations plus null latest_attempt,terminal"@
    );
    lemma_four_words(
        "where"@,
        "entered,value,nodes node_id work true latest_attempt,entry_authorization,allowed plus positive latest_attempt,progress_observations plus null latest_attempt,terminal"@,
        "where entered,value,nodes node_id work true latest_attempt,entry_authorization,allowed plus positive latest_attempt,progress_observations plus null latest_attempt,terminal"@,
    );
    assert(
        parts(
            "where entered,value,nodes node_id work true latest_attempt,entry_authorization,allowed plus positive latest_attempt,progress_observations plus null latest_attempt,terminal"@,
        )
            =~= seq![
                "where"@,
                "entered,value,nodes"@,
                "node_id"@,
                "work"@,
                "true"@,
                "latest_attempt,entry_authorization,allowed"@,
                "plus"@,
                "positive"@,
                "latest_attempt,progress_observations"@,
                "plus"@,
                "null"@,
                "latest_attempt,terminal"@,
            ]
    );
}

#[verifier::rlimit(40)]
proof fn lemma_open_attempt(
    known: Tree,
    answers: Seq<(Tree, bool)>,
    record: Seq<Tree>,
) -> (node: Tree)
    requires
        passed(ENTERED_PROCESS@, known, answers, record),
    ensures
        element_with(
            items_of(at(told(record, 10), "value,nodes"@)),
            "node_id"@,
            Tree::Text("work"@),
        ) == Some(node),
        at(node, "latest_attempt,entry_authorization,allowed"@) == Tree::Bool(true),
        is_positive(at(node, "latest_attempt,progress_observations"@)),
        at(node, "latest_attempt,terminal"@) == Tree::Null,
{
    let l = ENTERED_PROCESS@;
    reveal_strlit("until");
    reveal_strlit("reply");
    reveal_strlit("or");
    reveal_strlit("entered");
    reveal_strlit("where");
    reveal_strlit("entered,value,nodes");
    reveal_strlit("node_id");
    reveal_strlit("work");
    reveal_strlit("true");
    reveal_strlit("latest_attempt,entry_authorization,allowed");
    reveal_strlit("plus");
    reveal_strlit("positive");
    reveal_strlit("latest_attempt,progress_observations");
    reveal_strlit("null");
    reveal_strlit("latest_attempt,terminal");
    reveal_strlit("value,nodes");
    reveal_strlit("else");
    assert("entered"@.len() == 7);
    assert("reply"@.len() == 5);
    was_awaited(l, known, answers, record, 10);
    awaited_condition(l, known, answers, record, 10, 12);
    lemma_open_attempt_words();
    assert("where"@.len() == 5);
    assert("or"@.len() == 2);
    assert("entered,value,nodes"@.len() == 19);
    assert("node_id"@.len() == 7);
    assert("work"@.len() == 4);
    assert("true"@.len() == 4);
    assert("latest_attempt,entry_authorization,allowed"@.len() == 42);
    assert("plus"@.len() == 4);
    assert("positive"@.len() == 8);
    assert("latest_attempt,progress_observations"@.len() == 36);
    assert("null"@.len() == 4);
    assert("latest_attempt,terminal"@.len() == 23);
    assert("entered,value,nodes"@ =~= "entered"@ + seq![','] + "value,nodes"@);
    lemma_under(record[11], "entered"@, "value,nodes"@, "entered,value,nodes"@);
    assert("true"@[0] != "else"@[0]);
    assert("true"@[0] != "plus"@[0]);
    assert("else"@.len() == 4);
    assert("null"@[0] != "else"@[0]);
    assert("null"@[0] != "plus"@[0]);
    let rest = seq!["true"@, "latest_attempt,entry_authorization,allowed"@]
        + seq!["plus"@]
        + seq!["positive"@, "latest_attempt,progress_observations"@]
        + seq!["plus"@]
        + seq!["null"@, "latest_attempt,terminal"@];
    assert(
        parts(
            "where entered,value,nodes node_id work true latest_attempt,entry_authorization,allowed plus positive latest_attempt,progress_observations plus null latest_attempt,terminal"@,
        )
            =~= seq!["where"@, "entered,value,nodes"@, "node_id"@, "work"@] + rest
    );
    assert(
        parts(
            "where entered,value,nodes node_id work true latest_attempt,entry_authorization,allowed plus positive latest_attempt,progress_observations plus null latest_attempt,terminal"@,
        )
            =~= seq![
                "where"@,
                "entered,value,nodes"@,
                "node_id"@,
                "work"@,
                "true"@,
                "latest_attempt,entry_authorization,allowed"@,
                "plus"@,
                "positive"@,
                "latest_attempt,progress_observations"@,
                "plus"@,
                "null"@,
                "latest_attempt,terminal"@,
            ]
    );
    lemma_no_alternatives(
        parts(
            "where entered,value,nodes node_id work true latest_attempt,entry_authorization,allowed plus positive latest_attempt,progress_observations plus null latest_attempt,terminal"@,
        ),
        record[11],
    );
    lemma_judged_where("entered,value,nodes"@, "node_id"@, "work"@, rest, record[11]);
    let node = element_with(items_of(at(told(record, 10), "value,nodes"@)), "node_id"@, Tree::Text("work"@))->0;
    lemma_three_together(
        seq!["true"@, "latest_attempt,entry_authorization,allowed"@],
        seq!["positive"@, "latest_attempt,progress_observations"@],
        seq!["null"@, "latest_attempt,terminal"@],
        node,
    );
    lemma_truth_flag("latest_attempt,entry_authorization,allowed"@, node);
    lemma_truth_positive("latest_attempt,progress_observations"@, node);
    lemma_truth_null("latest_attempt,terminal"@, node);
    node
}

/// A process is entered with exactly one admission, and its allowed attempt has made progress and is
/// still open.
pub proof fn process_was_entered(
    known: Tree,
    answers: Seq<(Tree, bool)>,
) -> (seen: (Seq<Tree>, Tree))
    requires
        known is Object,
        finished(ENTERED_PROCESS@, known, answers),
    ensures
        ({
            let (record, node) = seen;
            &&& passed(ENTERED_PROCESS@, known, answers, record)
            &&& ENTERED_PROCESS@[6].2@ == "list-runs"@
            &&& made_children(said(record, 6), Tree::Text("controller-crash-body"@)) == Ok::<
                Tree,
                Seq<char>,
            >(at(record[9], "created"@))
            &&& ENTERED_PROCESS@[10].2@ == "cli run show $child"@
            &&& at(
                told(record, 10),
                "value,controller_accounting,committed,process_admissions"@,
            ) == Tree::Integer(1)
            &&& element_with(
                items_of(at(told(record, 10), "value,nodes"@)),
                "node_id"@,
                Tree::Text("work"@),
            ) == Some(node)
            &&& at(node, "latest_attempt,entry_authorization,allowed"@) == Tree::Bool(true)
            &&& is_positive(at(node, "latest_attempt,progress_observations"@))
            &&& at(node, "latest_attempt,terminal"@) == Tree::Null
        }),
{
    let record = finished_scenarios_are_recorded(ENTERED_PROCESS@, known, answers);
    lemma_one_admission(known, answers, record);
    let node = lemma_open_attempt(known, answers, record);
    (record, node)
}

} // verus!
