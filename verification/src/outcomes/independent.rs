//! What finished exercises of independent hosts have shown.

use vstd::prelude::*;

use crate::findings::{
    elements_with, is_at_least, is_check, items_of, lemma_apart, lemma_four_words, lemma_next_digit,
    lemma_one_digit, lemma_two_words, lemma_under, said, saw_contains, saw_empty, saw_is, saw_keys,
    saw_matching_text, saw_num, saw_reaches, saw_same, saw_true, stays, stays_beside, stays_through,
    text_has, told, touches, unchanged, was_awaited, was_kept, was_marked, was_put, was_said,
    was_told,
};
use crate::json::{at, key_count, lemma_single_segment, segments, Tree};
use crate::record::{finished, finished_scenarios_are_recorded, passed};
use crate::scenario::{number_of, parts};
use crate::scripts::independent::{
    INDEPENDENT, REMOTE_CLOSE, REMOTE_LOST, REMOTE_MODEL, REMOTE_PROCESS, REMOTE_UNCERTAIN,
};

verus! {

proof fn lemma_host_worked_alone_1(known: Tree, answers: Seq<(Tree, bool)>, record: Seq<Tree>)
    requires
        passed(INDEPENDENT@, known, answers, record),
    ensures
        at(told(record, 2), "value,role"@) == Tree::Text("execution_only"@),
        at(said(record, 25), "type"@) == Tree::Text("accepted"@),
        at(said(record, 33), "terminal"@) == Tree::Bool(true),
        said(record, 36) == at(known, "process_text"@),
{
    let l = INDEPENDENT@;
    reveal_strlit("health");
    reveal_strlit("reply");
    reveal_strlit("value,role");
    reveal_strlit("health,value,role");
    reveal_strlit("acceptance");
    reveal_strlit("type");
    reveal_strlit("acceptance,type");
    reveal_strlit("process_page");
    reveal_strlit("terminal");
    reveal_strlit("process_page,terminal");
    reveal_strlit("marker");
    reveal_strlit("process_text");
    reveal_strlit("");
    reveal_strlit("started");
    reveal_strlit("written");
    reveal_strlit("catalog");
    reveal_strlit("discovery");
    reveal_strlit("uploaded");
    reveal_strlit("process_input");
    reveal_strlit("request");
    reveal_strlit("submitted");
    reveal_strlit("process_execution");
    reveal_strlit("observed");
    assert("health"@.len() == 6);
    assert("reply"@.len() == 5);
    assert("health,value,role"@ =~= "health"@ + seq![','] + "value,role"@);
    assert("acceptance"@.len() == 10);
    assert("acceptance,type"@ =~= "acceptance"@ + seq![','] + "type"@);
    assert("process_page"@.len() == 12);
    assert("process_page,terminal"@ =~= "process_page"@ + seq![','] + "terminal"@);
    assert("marker"@.len() == 6);
    assert("process_text"@.len() == 12);
    lemma_apart(""@, "process_text"@, 0);
    lemma_apart("started"@, "process_text"@, 0);
    lemma_apart("health"@, "process_text"@, 0);
    lemma_apart("written"@, "process_text"@, 0);
    lemma_apart("catalog"@, "process_text"@, 0);
    lemma_apart("discovery"@, "process_text"@, 0);
    lemma_apart("uploaded"@, "process_text"@, 0);
    lemma_apart("process_input"@, "process_text"@, 8);
    lemma_apart("request"@, "process_text"@, 0);
    lemma_apart("submitted"@, "process_text"@, 0);
    lemma_apart("acceptance"@, "process_text"@, 0);
    lemma_apart("process_execution"@, "process_text"@, 8);
    lemma_apart("observed"@, "process_text"@, 0);
    lemma_apart("process_page"@, "process_text"@, 8);
    lemma_apart("marker"@, "process_text"@, 0);
    assert(at(told(record, 2), "value,role"@) == Tree::Text("execution_only"@)) by {
        was_told(l, known, answers, record, 3);
        lemma_under(record[4], "health"@, "value,role"@, "health,value,role"@);
        saw_is(l, known, answers, record, 4);
    }
    assert(at(said(record, 25), "type"@) == Tree::Text("accepted"@)) by {
        was_said(l, known, answers, record, 26);
        lemma_under(record[27], "acceptance"@, "type"@, "acceptance,type"@);
        saw_is(l, known, answers, record, 27);
    }
    assert(at(said(record, 33), "terminal"@) == Tree::Bool(true)) by {
        was_said(l, known, answers, record, 34);
        lemma_under(record[35], "process_page"@, "terminal"@, "process_page,terminal"@);
        saw_true(l, known, answers, record, 35);
    }
    assert(said(record, 36) == at(known, "process_text"@)) by {
        was_said(l, known, answers, record, 37);
        assert(forall|j: int|
            0 <= j < 38 ==> is_check((#[trigger] l[j]).0@) || !touches(l[j].1@, "process_text"@));
        stays_through(l, known, answers, record, 0, 38, "process_text"@);
        saw_same(l, known, answers, record, 38);
    }
}

proof fn lemma_host_worked_alone_2(known: Tree, answers: Seq<(Tree, bool)>, record: Seq<Tree>)
    requires
        passed(INDEPENDENT@, known, answers, record),
    ensures
        said(record, 43) == at(known, "process_text"@),
        at(said(record, 66), "type"@) == Tree::Text("accepted"@),
        at(said(record, 74), "terminal"@) == Tree::Bool(true),
        text_has(said(record, 81), "independent model result"@),
{
    let l = INDEPENDENT@;
    reveal_strlit("result");
    reveal_strlit("reply");
    reveal_strlit("process_text");
    reveal_strlit("");
    reveal_strlit("started");
    reveal_strlit("health");
    reveal_strlit("written");
    reveal_strlit("catalog");
    reveal_strlit("discovery");
    reveal_strlit("uploaded");
    reveal_strlit("process_input");
    reveal_strlit("request");
    reveal_strlit("submitted");
    reveal_strlit("acceptance");
    reveal_strlit("process_execution");
    reveal_strlit("observed");
    reveal_strlit("process_page");
    reveal_strlit("marker");
    reveal_strlit("process_output");
    reveal_strlit("process_output_artifact");
    reveal_strlit("got");
    reveal_strlit("type");
    reveal_strlit("acceptance,type");
    reveal_strlit("model_page");
    reveal_strlit("terminal");
    reveal_strlit("model_page,terminal");
    assert("result"@.len() == 6);
    assert("reply"@.len() == 5);
    assert("process_text"@.len() == 12);
    lemma_apart(""@, "process_text"@, 0);
    lemma_apart("started"@, "process_text"@, 0);
    lemma_apart("health"@, "process_text"@, 0);
    lemma_apart("written"@, "process_text"@, 0);
    lemma_apart("catalog"@, "process_text"@, 0);
    lemma_apart("discovery"@, "process_text"@, 0);
    lemma_apart("uploaded"@, "process_text"@, 0);
    lemma_apart("process_input"@, "process_text"@, 8);
    lemma_apart("request"@, "process_text"@, 0);
    lemma_apart("submitted"@, "process_text"@, 0);
    lemma_apart("acceptance"@, "process_text"@, 0);
    lemma_apart("process_execution"@, "process_text"@, 8);
    lemma_apart("observed"@, "process_text"@, 0);
    lemma_apart("process_page"@, "process_text"@, 8);
    lemma_apart("marker"@, "process_text"@, 0);
    lemma_apart("process_output"@, "process_text"@, 8);
    lemma_apart("process_output_artifact"@, "process_text"@, 8);
    lemma_apart("got"@, "process_text"@, 0);
    lemma_apart("result"@, "process_text"@, 0);
    assert("acceptance"@.len() == 10);
    assert("acceptance,type"@ =~= "acceptance"@ + seq![','] + "type"@);
    assert("model_page"@.len() == 10);
    assert("model_page,terminal"@ =~= "model_page"@ + seq![','] + "terminal"@);
    assert(said(record, 43) == at(known, "process_text"@)) by {
        was_said(l, known, answers, record, 44);
        assert(forall|j: int|
            0 <= j < 45 ==> is_check((#[trigger] l[j]).0@) || !touches(l[j].1@, "process_text"@));
        stays_through(l, known, answers, record, 0, 45, "process_text"@);
        saw_same(l, known, answers, record, 45);
    }
    assert(at(said(record, 66), "type"@) == Tree::Text("accepted"@)) by {
        was_said(l, known, answers, record, 67);
        lemma_under(record[68], "acceptance"@, "type"@, "acceptance,type"@);
        saw_is(l, known, answers, record, 68);
    }
    assert(at(said(record, 74), "terminal"@) == Tree::Bool(true)) by {
        was_said(l, known, answers, record, 75);
        lemma_under(record[76], "model_page"@, "terminal"@, "model_page,terminal"@);
        saw_true(l, known, answers, record, 76);
    }
    assert(text_has(said(record, 81), "independent model result"@)) by {
        was_said(l, known, answers, record, 82);
        saw_contains(l, known, answers, record, 83);
    }
}

proof fn lemma_host_worked_alone_3(known: Tree, answers: Seq<(Tree, bool)>, record: Seq<Tree>)
    requires
        passed(INDEPENDENT@, known, answers, record),
    ensures
        at(said(record, 84), "invocations"@) == Tree::Integer(1),
        at(said(record, 84), "direct"@) == Tree::Integer(1),
        at(told(record, 88), "value,replayed"@) == Tree::Bool(true),
        at(told(record, 88), "value,execution"@) == at(said(record, 25), "execution"@),
{
    let l = INDEPENDENT@;
    reveal_strlit("1");
    reveal_strlit("counts");
    reveal_strlit("reply");
    reveal_strlit("invocations");
    reveal_strlit("counts,invocations");
    reveal_strlit("direct");
    reveal_strlit("counts,direct");
    reveal_strlit("replay");
    reveal_strlit("value,replayed");
    reveal_strlit("replay,value,replayed");
    reveal_strlit("value,execution");
    reveal_strlit("replay,value,execution");
    reveal_strlit("process_execution");
    reveal_strlit("acceptance");
    reveal_strlit("execution");
    reveal_strlit("acceptance,execution");
    reveal_strlit("");
    reveal_strlit("observed");
    reveal_strlit("process_page");
    reveal_strlit("marker");
    reveal_strlit("process_output");
    reveal_strlit("process_output_artifact");
    reveal_strlit("got");
    reveal_strlit("result");
    reveal_strlit("written");
    reveal_strlit("catalog");
    reveal_strlit("discovery");
    reveal_strlit("uploaded");
    reveal_strlit("model_input");
    reveal_strlit("request");
    reveal_strlit("submitted");
    reveal_strlit("model_execution");
    reveal_strlit("model_page");
    reveal_strlit("model_output");
    reveal_strlit("model_output_artifact");
    lemma_one_digit("1"@);
    assert(number_of("1"@) == Some(1u64));
    assert("counts"@.len() == 6);
    assert("reply"@.len() == 5);
    assert("counts,invocations"@ =~= "counts"@ + seq![','] + "invocations"@);
    assert("counts,direct"@ =~= "counts"@ + seq![','] + "direct"@);
    assert("replay"@.len() == 6);
    assert("replay,value,replayed"@ =~= "replay"@ + seq![','] + "value,replayed"@);
    assert("replay,value,execution"@ =~= "replay"@ + seq![','] + "value,execution"@);
    assert("process_execution"@.len() == 17);
    assert("acceptance"@.len() == 10);
    assert("acceptance,execution"@ =~= "acceptance"@ + seq![','] + "execution"@);
    lemma_apart(""@, "process_execution"@, 0);
    lemma_apart("observed"@, "process_execution"@, 0);
    lemma_apart("process_page"@, "process_execution"@, 8);
    lemma_apart("marker"@, "process_execution"@, 0);
    lemma_apart("process_output"@, "process_execution"@, 8);
    lemma_apart("process_output_artifact"@, "process_execution"@, 8);
    lemma_apart("got"@, "process_execution"@, 0);
    lemma_apart("result"@, "process_execution"@, 0);
    lemma_apart("written"@, "process_execution"@, 0);
    lemma_apart("catalog"@, "process_execution"@, 0);
    lemma_apart("discovery"@, "process_execution"@, 0);
    lemma_apart("uploaded"@, "process_execution"@, 0);
    lemma_apart("model_input"@, "process_execution"@, 0);
    lemma_apart("request"@, "process_execution"@, 0);
    lemma_apart("submitted"@, "process_execution"@, 0);
    lemma_apart("acceptance"@, "process_execution"@, 0);
    lemma_apart("model_execution"@, "process_execution"@, 0);
    lemma_apart("model_page"@, "process_execution"@, 0);
    lemma_apart("model_output"@, "process_execution"@, 0);
    lemma_apart("model_output_artifact"@, "process_execution"@, 0);
    lemma_apart("counts"@, "process_execution"@, 0);
    lemma_apart("replay"@, "process_execution"@, 0);
    assert(at(said(record, 84), "invocations"@) == Tree::Integer(1)) by {
        was_said(l, known, answers, record, 85);
        lemma_under(record[86], "counts"@, "invocations"@, "counts,invocations"@);
        saw_num(l, known, answers, record, 86, 1);
    }
    assert(at(said(record, 84), "direct"@) == Tree::Integer(1)) by {
        was_said(l, known, answers, record, 85);
        unchanged(l, known, answers, record, 86);
        lemma_under(record[87], "counts"@, "direct"@, "counts,direct"@);
        saw_num(l, known, answers, record, 87, 1);
    }
    assert(at(told(record, 88), "value,replayed"@) == Tree::Bool(true)) by {
        was_told(l, known, answers, record, 89);
        lemma_under(record[90], "replay"@, "value,replayed"@, "replay,value,replayed"@);
        saw_true(l, known, answers, record, 90);
    }
    assert(at(told(record, 88), "value,execution"@) == at(said(record, 25), "execution"@)) by {
        was_told(l, known, answers, record, 89);
        unchanged(l, known, answers, record, 90);
        lemma_under(record[91], "replay"@, "value,execution"@, "replay,value,execution"@);
        was_kept(l, known, answers, record, 28);
        was_said(l, known, answers, record, 26);
        unchanged(l, known, answers, record, 27);
        lemma_under(record[28], "acceptance"@, "execution"@, "acceptance,execution"@);
        assert(forall|j: int|
            29 <= j < 91
                ==> is_check((#[trigger] l[j]).0@) || !touches(l[j].1@, "process_execution"@));
        stays_through(l, known, answers, record, 29, 91, "process_execution"@);
        saw_same(l, known, answers, record, 91);
    }
}

proof fn lemma_host_worked_alone_4(known: Tree, answers: Seq<(Tree, bool)>, record: Seq<Tree>)
    requires
        passed(INDEPENDENT@, known, answers, record),
    ensures
        at(told(record, 92), "value,origin,type"@) == Tree::Text("direct"@),
        at(told(record, 95), "value,replayed"@) == Tree::Bool(true),
        at(told(record, 95), "value,execution"@) == at(said(record, 66), "execution"@),
        said(record, 104) is List && items_of(said(record, 104)).len() == 0,
{
    let l = INDEPENDENT@;
    reveal_strlit("inspected");
    reveal_strlit("reply");
    reveal_strlit("value,origin,type");
    reveal_strlit("inspected,value,origin,type");
    reveal_strlit("replay");
    reveal_strlit("value,replayed");
    reveal_strlit("replay,value,replayed");
    reveal_strlit("value,execution");
    reveal_strlit("replay,value,execution");
    reveal_strlit("model_execution");
    reveal_strlit("acceptance");
    reveal_strlit("execution");
    reveal_strlit("acceptance,execution");
    reveal_strlit("");
    reveal_strlit("observed");
    reveal_strlit("model_page");
    reveal_strlit("model_output");
    reveal_strlit("model_output_artifact");
    reveal_strlit("got");
    reveal_strlit("result");
    reveal_strlit("counts");
    reveal_strlit("stored_runs");
    assert("inspected"@.len() == 9);
    assert("reply"@.len() == 5);
    assert("inspected,value,origin,type"@ =~= "inspected"@ + seq![','] + "value,origin,type"@);
    assert("replay"@.len() == 6);
    assert("replay,value,replayed"@ =~= "replay"@ + seq![','] + "value,replayed"@);
    assert("replay,value,execution"@ =~= "replay"@ + seq![','] + "value,execution"@);
    assert("model_execution"@.len() == 15);
    assert("acceptance"@.len() == 10);
    assert("acceptance,execution"@ =~= "acceptance"@ + seq![','] + "execution"@);
    lemma_apart(""@, "model_execution"@, 0);
    lemma_apart("observed"@, "model_execution"@, 0);
    lemma_apart("model_page"@, "model_execution"@, 6);
    lemma_apart("model_output"@, "model_execution"@, 6);
    lemma_apart("model_output_artifact"@, "model_execution"@, 6);
    lemma_apart("got"@, "model_execution"@, 0);
    lemma_apart("result"@, "model_execution"@, 0);
    lemma_apart("counts"@, "model_execution"@, 0);
    lemma_apart("replay"@, "model_execution"@, 0);
    lemma_apart("inspected"@, "model_execution"@, 0);
    assert("stored_runs"@.len() == 11);
    assert(at(told(record, 92), "value,origin,type"@) == Tree::Text("direct"@)) by {
        was_told(l, known, answers, record, 93);
        lemma_under(record[94], "inspected"@, "value,origin,type"@, "inspected,value,origin,type"@);
        saw_is(l, known, answers, record, 94);
    }
    assert(at(told(record, 95), "value,replayed"@) == Tree::Bool(true)) by {
        was_told(l, known, answers, record, 96);
        lemma_under(record[97], "replay"@, "value,replayed"@, "replay,value,replayed"@);
        saw_true(l, known, answers, record, 97);
    }
    assert(at(told(record, 95), "value,execution"@) == at(said(record, 66), "execution"@)) by {
        was_told(l, known, answers, record, 96);
        unchanged(l, known, answers, record, 97);
        lemma_under(record[98], "replay"@, "value,execution"@, "replay,value,execution"@);
        was_kept(l, known, answers, record, 69);
        was_said(l, known, answers, record, 67);
        unchanged(l, known, answers, record, 68);
        lemma_under(record[69], "acceptance"@, "execution"@, "acceptance,execution"@);
        assert(forall|j: int|
            70 <= j < 98
                ==> is_check((#[trigger] l[j]).0@) || !touches(l[j].1@, "model_execution"@));
        stays_through(l, known, answers, record, 70, 98, "model_execution"@);
        saw_same(l, known, answers, record, 98);
    }
    assert(said(record, 104) is List && items_of(said(record, 104)).len() == 0) by {
        was_said(l, known, answers, record, 105);
        saw_empty(l, known, answers, record, 106);
    }
}

proof fn lemma_host_worked_alone_5(known: Tree, answers: Seq<(Tree, bool)>, record: Seq<Tree>)
    requires
        passed(INDEPENDENT@, known, answers, record),
    ensures
        at(told(record, 117), "value,replayed"@) == Tree::Bool(true),
        said(record, 123) == at(known, "process_text"@),
        at(said(record, 125), "invocations"@) == Tree::Integer(1),
        said(record, 133) == at(known, "process_text_twice"@),
{
    let l = INDEPENDENT@;
    reveal_strlit("replay");
    reveal_strlit("reply");
    reveal_strlit("value,replayed");
    reveal_strlit("replay,value,replayed");
    reveal_strlit("marker");
    reveal_strlit("");
    reveal_strlit("counts");
    reveal_strlit("process_text");
    reveal_strlit("started");
    reveal_strlit("health");
    reveal_strlit("written");
    reveal_strlit("catalog");
    reveal_strlit("discovery");
    reveal_strlit("uploaded");
    reveal_strlit("process_input");
    reveal_strlit("request");
    reveal_strlit("submitted");
    reveal_strlit("acceptance");
    reveal_strlit("process_execution");
    reveal_strlit("observed");
    reveal_strlit("process_page");
    reveal_strlit("process_output");
    reveal_strlit("process_output_artifact");
    reveal_strlit("got");
    reveal_strlit("result");
    reveal_strlit("model_input");
    reveal_strlit("model_execution");
    reveal_strlit("model_page");
    reveal_strlit("model_output");
    reveal_strlit("model_output_artifact");
    reveal_strlit("inspected");
    reveal_strlit("killed");
    reveal_strlit("stored_runs");
    reveal_strlit("producer");
    reveal_strlit("1");
    reveal_strlit("invocations");
    reveal_strlit("counts,invocations");
    reveal_strlit("process_text_twice");
    reveal_strlit("remote");
    assert("replay"@.len() == 6);
    assert("reply"@.len() == 5);
    assert("replay,value,replayed"@ =~= "replay"@ + seq![','] + "value,replayed"@);
    assert("marker"@.len() == 6);
    lemma_apart(""@, "marker"@, 0);
    lemma_apart("counts"@, "marker"@, 0);
    assert("process_text"@.len() == 12);
    lemma_apart(""@, "process_text"@, 0);
    lemma_apart("started"@, "process_text"@, 0);
    lemma_apart("health"@, "process_text"@, 0);
    lemma_apart("written"@, "process_text"@, 0);
    lemma_apart("catalog"@, "process_text"@, 0);
    lemma_apart("discovery"@, "process_text"@, 0);
    lemma_apart("uploaded"@, "process_text"@, 0);
    lemma_apart("process_input"@, "process_text"@, 8);
    lemma_apart("request"@, "process_text"@, 0);
    lemma_apart("submitted"@, "process_text"@, 0);
    lemma_apart("acceptance"@, "process_text"@, 0);
    lemma_apart("process_execution"@, "process_text"@, 8);
    lemma_apart("observed"@, "process_text"@, 0);
    lemma_apart("process_page"@, "process_text"@, 8);
    lemma_apart("marker"@, "process_text"@, 0);
    lemma_apart("process_output"@, "process_text"@, 8);
    lemma_apart("process_output_artifact"@, "process_text"@, 8);
    lemma_apart("got"@, "process_text"@, 0);
    lemma_apart("result"@, "process_text"@, 0);
    lemma_apart("model_input"@, "process_text"@, 0);
    lemma_apart("model_execution"@, "process_text"@, 0);
    lemma_apart("model_page"@, "process_text"@, 0);
    lemma_apart("model_output"@, "process_text"@, 0);
    lemma_apart("model_output_artifact"@, "process_text"@, 0);
    lemma_apart("counts"@, "process_text"@, 0);
    lemma_apart("replay"@, "process_text"@, 0);
    lemma_apart("inspected"@, "process_text"@, 0);
    lemma_apart("killed"@, "process_text"@, 0);
    lemma_apart("stored_runs"@, "process_text"@, 0);
    lemma_apart("producer"@, "process_text"@, 3);
    lemma_one_digit("1"@);
    assert(number_of("1"@) == Some(1u64));
    assert("counts"@.len() == 6);
    assert("counts,invocations"@ =~= "counts"@ + seq![','] + "invocations"@);
    assert("process_text_twice"@.len() == 18);
    lemma_apart(""@, "process_text_twice"@, 0);
    lemma_apart("started"@, "process_text_twice"@, 0);
    lemma_apart("health"@, "process_text_twice"@, 0);
    lemma_apart("written"@, "process_text_twice"@, 0);
    lemma_apart("catalog"@, "process_text_twice"@, 0);
    lemma_apart("discovery"@, "process_text_twice"@, 0);
    lemma_apart("uploaded"@, "process_text_twice"@, 0);
    lemma_apart("process_input"@, "process_text_twice"@, 8);
    lemma_apart("request"@, "process_text_twice"@, 0);
    lemma_apart("submitted"@, "process_text_twice"@, 0);
    lemma_apart("acceptance"@, "process_text_twice"@, 0);
    lemma_apart("process_execution"@, "process_text_twice"@, 8);
    lemma_apart("observed"@, "process_text_twice"@, 0);
    lemma_apart("process_page"@, "process_text_twice"@, 8);
    lemma_apart("marker"@, "process_text_twice"@, 0);
    lemma_apart("process_output"@, "process_text_twice"@, 8);
    lemma_apart("process_output_artifact"@, "process_text_twice"@, 8);
    lemma_apart("got"@, "process_text_twice"@, 0);
    lemma_apart("result"@, "process_text_twice"@, 0);
    lemma_apart("model_input"@, "process_text_twice"@, 0);
    lemma_apart("model_execution"@, "process_text_twice"@, 0);
    lemma_apart("model_page"@, "process_text_twice"@, 0);
    lemma_apart("model_output"@, "process_text_twice"@, 0);
    lemma_apart("model_output_artifact"@, "process_text_twice"@, 0);
    lemma_apart("counts"@, "process_text_twice"@, 0);
    lemma_apart("replay"@, "process_text_twice"@, 0);
    lemma_apart("inspected"@, "process_text_twice"@, 0);
    lemma_apart("killed"@, "process_text_twice"@, 0);
    lemma_apart("stored_runs"@, "process_text_twice"@, 0);
    lemma_apart("producer"@, "process_text_twice"@, 3);
    lemma_apart("remote"@, "process_text_twice"@, 0);
    assert(at(told(record, 117), "value,replayed"@) == Tree::Bool(true)) by {
        was_told(l, known, answers, record, 118);
        lemma_under(record[119], "replay"@, "value,replayed"@, "replay,value,replayed"@);
        saw_true(l, known, answers, record, 119);
    }
    assert(said(record, 123) == at(known, "process_text"@)) by {
        was_said(l, known, answers, record, 124);
        stays(l, known, answers, record, 125, "marker"@);
        stays(l, known, answers, record, 126, "marker"@);
        assert(forall|j: int|
            0 <= j < 127 ==> is_check((#[trigger] l[j]).0@) || !touches(l[j].1@, "process_text"@));
        stays_through(l, known, answers, record, 0, 127, "process_text"@);
        saw_same(l, known, answers, record, 127);
    }
    assert(at(said(record, 125), "invocations"@) == Tree::Integer(1)) by {
        was_said(l, known, answers, record, 126);
        unchanged(l, known, answers, record, 127);
        lemma_under(record[128], "counts"@, "invocations"@, "counts,invocations"@);
        saw_num(l, known, answers, record, 128, 1);
    }
    assert(said(record, 133) == at(known, "process_text_twice"@)) by {
        was_said(l, known, answers, record, 134);
        assert(forall|j: int|
            0 <= j < 135
                ==> is_check((#[trigger] l[j]).0@) || !touches(l[j].1@, "process_text_twice"@));
        stays_through(l, known, answers, record, 0, 135, "process_text_twice"@);
        saw_same(l, known, answers, record, 135);
    }
}

proof fn lemma_host_worked_alone_6(known: Tree, answers: Seq<(Tree, bool)>, record: Seq<Tree>)
    requires
        passed(INDEPENDENT@, known, answers, record),
    ensures
        at(said(record, 136), "invocations"@) == Tree::Integer(3),
        at(said(record, 136), "direct"@) == Tree::Integer(1),
{
    let l = INDEPENDENT@;
    reveal_strlit("3");
    reveal_strlit("counts");
    reveal_strlit("reply");
    reveal_strlit("invocations");
    reveal_strlit("counts,invocations");
    reveal_strlit("1");
    reveal_strlit("direct");
    reveal_strlit("counts,direct");
    lemma_one_digit("3"@);
    assert(number_of("3"@) == Some(3u64));
    assert("counts"@.len() == 6);
    assert("reply"@.len() == 5);
    assert("counts,invocations"@ =~= "counts"@ + seq![','] + "invocations"@);
    lemma_one_digit("1"@);
    assert(number_of("1"@) == Some(1u64));
    assert("counts,direct"@ =~= "counts"@ + seq![','] + "direct"@);
    assert(at(said(record, 136), "invocations"@) == Tree::Integer(3)) by {
        was_said(l, known, answers, record, 137);
        lemma_under(record[138], "counts"@, "invocations"@, "counts,invocations"@);
        saw_num(l, known, answers, record, 138, 3);
    }
    assert(at(said(record, 136), "direct"@) == Tree::Integer(1)) by {
        was_said(l, known, answers, record, 137);
        unchanged(l, known, answers, record, 138);
        lemma_under(record[139], "counts"@, "direct"@, "counts,direct"@);
        saw_num(l, known, answers, record, 139, 1);
    }
}

/// An independent host is exercised to the end only where it has no role but execution and stores
/// no runs, its process and its model call were accepted, ended and gave their very results,
/// replays gave the executions that were there, and the marker and the counts show no call but
/// those made.
pub proof fn host_worked_alone(known: Tree, answers: Seq<(Tree, bool)>) -> (record: Seq<Tree>)
    requires
        known is Object,
        finished(INDEPENDENT@, known, answers),
    ensures
        passed(INDEPENDENT@, known, answers, record),
        INDEPENDENT@[2].2@ == "cli daemon health"@,
        at(told(record, 2), "value,role"@) == Tree::Text("execution_only"@),
        INDEPENDENT@[25].2@ == "decode acceptance submitted,value"@,
        at(said(record, 25), "type"@) == Tree::Text("accepted"@),
        INDEPENDENT@[33].2@ == "decode observations observed,value"@,
        at(said(record, 33), "terminal"@) == Tree::Bool(true),
        INDEPENDENT@[36].2@ == "marker"@,
        said(record, 36) == at(known, "process_text"@),
        INDEPENDENT@[43].2@ == "read-file $paths,process_result"@,
        said(record, 43) == at(known, "process_text"@),
        INDEPENDENT@[66].2@ == "decode acceptance submitted,value"@,
        at(said(record, 66), "type"@) == Tree::Text("accepted"@),
        INDEPENDENT@[74].2@ == "decode observations observed,value"@,
        at(said(record, 74), "terminal"@) == Tree::Bool(true),
        INDEPENDENT@[81].2@ == "read-file $paths,model_result"@,
        text_has(said(record, 81), "independent model result"@),
        INDEPENDENT@[84].2@ == "model-counts"@,
        at(said(record, 84), "invocations"@) == Tree::Integer(1),
        at(said(record, 84), "direct"@) == Tree::Integer(1),
        INDEPENDENT@[88].2@ == "cli invocation submit $paths,process_direct"@,
        at(told(record, 88), "value,replayed"@) == Tree::Bool(true),
        at(told(record, 88), "value,execution"@) == at(said(record, 25), "execution"@),
        INDEPENDENT@[92].2@ == "cli invocation show $process_execution"@,
        at(told(record, 92), "value,origin,type"@) == Tree::Text("direct"@),
        INDEPENDENT@[95].2@ == "cli invocation submit $paths,model_direct"@,
        at(told(record, 95), "value,replayed"@) == Tree::Bool(true),
        at(told(record, 95), "value,execution"@) == at(said(record, 66), "execution"@),
        INDEPENDENT@[104].2@ == "store runs"@,
        said(record, 104) is List && items_of(said(record, 104)).len() == 0,
        INDEPENDENT@[117].2@ == "cli invocation submit $paths,process_direct"@,
        at(told(record, 117), "value,replayed"@) == Tree::Bool(true),
        INDEPENDENT@[123].2@ == "marker"@,
        said(record, 123) == at(known, "process_text"@),
        INDEPENDENT@[125].2@ == "model-counts"@,
        at(said(record, 125), "invocations"@) == Tree::Integer(1),
        INDEPENDENT@[133].2@ == "marker"@,
        said(record, 133) == at(known, "process_text_twice"@),
        INDEPENDENT@[136].2@ == "model-counts"@,
        at(said(record, 136), "invocations"@) == Tree::Integer(3),
        at(said(record, 136), "direct"@) == Tree::Integer(1),
{
    let record = finished_scenarios_are_recorded(INDEPENDENT@, known, answers);
    lemma_host_worked_alone_1(known, answers, record);
    lemma_host_worked_alone_2(known, answers, record);
    lemma_host_worked_alone_3(known, answers, record);
    lemma_host_worked_alone_4(known, answers, record);
    lemma_host_worked_alone_5(known, answers, record);
    lemma_host_worked_alone_6(known, answers, record);
    record
}

proof fn lemma_remote_process_was_settled_1(
    known: Tree,
    answers: Seq<(Tree, bool)>,
    record: Seq<Tree>,
)
    requires
        passed(REMOTE_PROCESS@, known, answers, record),
    ensures
        elements_with(
            items_of(at(told(record, 15), "value,items"@)),
            "workflow_id"@,
            Tree::Text("remote-process"@),
        )
            == 1,
        at(told(record, 22), "value,terminal"@) == Tree::Text("succeeded"@),
        at(at(told(record, 24), "value,controller_accounting"@), "state"@) == Tree::Text("active"@),
{
    let l = REMOTE_PROCESS@;
    reveal_strlit("runs");
    reveal_strlit("reply");
    reveal_strlit("runs_text");
    reveal_strlit("value,items");
    reveal_strlit("runs,value,items");
    reveal_strlit("1");
    reveal_strlit("1 is workflow_id remote-process");
    reveal_strlit("is workflow_id remote-process");
    reveal_strlit("is");
    reveal_strlit("workflow_id remote-process");
    reveal_strlit("workflow_id");
    reveal_strlit("remote-process");
    reveal_strlit("else");
    reveal_strlit("plus");
    reveal_strlit("completed");
    reveal_strlit("");
    reveal_strlit("controlled_read");
    reveal_strlit("account");
    reveal_strlit("run");
    reveal_strlit("node");
    reveal_strlit("attempt");
    reveal_strlit("inspected");
    reveal_strlit("invocation");
    reveal_strlit("inspected_text");
    reveal_strlit("account_text");
    reveal_strlit("words,failed");
    reveal_strlit("words,attempt");
    reveal_strlit("words,account");
    reveal_strlit("failure");
    reveal_strlit("value,terminal");
    reveal_strlit("completed,value,terminal");
    reveal_strlit("value,controller_accounting");
    reveal_strlit("controlled_read,value,controller_accounting");
    reveal_strlit("output");
    reveal_strlit("artifact");
    reveal_strlit("got");
    reveal_strlit("downloaded");
    reveal_strlit("state");
    reveal_strlit("account,state");
    assert("runs"@.len() == 4);
    assert("reply"@.len() == 5);
    lemma_apart("runs_text"@, "runs"@, 4);
    assert("runs,value,items"@ =~= "runs"@ + seq![','] + "value,items"@);
    lemma_one_digit("1"@);
    assert(number_of("1"@) == Some(1u64));
    assert("workflow_id remote-process"@ =~= "workflow_id"@ + seq![' '] + "remote-process"@);
    lemma_two_words("workflow_id"@, "remote-process"@, "workflow_id remote-process"@);
    assert("is workflow_id remote-process"@ =~= "is"@ + seq![' '] + "workflow_id remote-process"@);
    lemma_four_words("is"@, "workflow_id remote-process"@, "is workflow_id remote-process"@);
    assert(
        "1 is workflow_id remote-process"@ =~= "1"@ + seq![' '] + "is workflow_id remote-process"@
    );
    lemma_four_words("1"@, "is workflow_id remote-process"@, "1 is workflow_id remote-process"@);
    assert("workflow_id"@.len() == 11);
    assert("else"@.len() == 4);
    assert("plus"@.len() == 4);
    assert("remote-process"@.len() == 14);
    assert(
        parts("1 is workflow_id remote-process"@)
            =~= seq!["1"@, "is"@, "workflow_id"@, "remote-process"@]
    );
    assert("completed"@.len() == 9);
    lemma_apart(""@, "completed"@, 0);
    lemma_apart("controlled_read"@, "completed"@, 2);
    lemma_apart("account"@, "completed"@, 0);
    lemma_apart("run"@, "completed"@, 0);
    lemma_apart("node"@, "completed"@, 0);
    lemma_apart("attempt"@, "completed"@, 0);
    lemma_apart("inspected"@, "completed"@, 0);
    lemma_apart("invocation"@, "completed"@, 0);
    lemma_apart("inspected_text"@, "completed"@, 0);
    lemma_apart("account_text"@, "completed"@, 0);
    lemma_apart("words,failed"@, "completed"@, 0);
    lemma_apart("words,attempt"@, "completed"@, 0);
    lemma_apart("words,account"@, "completed"@, 0);
    lemma_apart("failure"@, "completed"@, 0);
    assert("completed,value,terminal"@ =~= "completed"@ + seq![','] + "value,terminal"@);
    assert("account"@.len() == 7);
    assert("controlled_read"@.len() == 15);
    assert(
        "controlled_read,value,controller_accounting"@
            =~= "controlled_read"@ + seq![','] + "value,controller_accounting"@
    );
    lemma_apart(""@, "account"@, 0);
    lemma_apart("run"@, "account"@, 0);
    lemma_apart("node"@, "account"@, 0);
    lemma_apart("attempt"@, "account"@, 1);
    lemma_apart("inspected"@, "account"@, 0);
    lemma_apart("invocation"@, "account"@, 0);
    lemma_apart("inspected_text"@, "account"@, 0);
    lemma_apart("account_text"@, "account"@, 7);
    lemma_apart("words,failed"@, "account"@, 0);
    lemma_apart("words,attempt"@, "account"@, 0);
    lemma_apart("words,account"@, "account"@, 0);
    lemma_apart("failure"@, "account"@, 0);
    lemma_apart("output"@, "account"@, 0);
    lemma_apart("artifact"@, "account"@, 1);
    lemma_apart("got"@, "account"@, 0);
    lemma_apart("downloaded"@, "account"@, 0);
    assert("account,state"@ =~= "account"@ + seq![','] + "state"@);
    assert(elements_with(
            items_of(at(told(record, 15), "value,items"@)),
            "workflow_id"@,
            Tree::Text("remote-process"@),
        )
            == 1) by {
        was_told(l, known, answers, record, 16);
        unchanged(l, known, answers, record, 17);
        stays(l, known, answers, record, 18, "runs"@);
        lemma_under(record[19], "runs"@, "value,items"@, "runs,value,items"@);
        saw_matching_text(
            l,
            known,
            answers,
            record,
            19,
            "1"@,
            "workflow_id"@,
            "remote-process"@,
            1,
        );
    }
    assert(at(told(record, 22), "value,terminal"@) == Tree::Text("succeeded"@)) by {
        was_awaited(l, known, answers, record, 22);
        assert(forall|j: int|
            23 <= j < 40 ==> is_check((#[trigger] l[j]).0@) || !touches(l[j].1@, "completed"@));
        stays_through(l, known, answers, record, 23, 40, "completed"@);
        lemma_under(record[40], "completed"@, "value,terminal"@, "completed,value,terminal"@);
        saw_is(l, known, answers, record, 40);
    }
    assert(at(at(told(record, 24), "value,controller_accounting"@), "state"@) == Tree::Text("active"@)) by {
        was_kept(l, known, answers, record, 26);
        was_told(l, known, answers, record, 25);
        lemma_under(
            record[26],
            "controlled_read"@,
            "value,controller_accounting"@,
            "controlled_read,value,controller_accounting"@,
        );
        assert(forall|j: int|
            27 <= j < 47 ==> is_check((#[trigger] l[j]).0@) || !touches(l[j].1@, "account"@));
        stays_through(l, known, answers, record, 27, 47, "account"@);
        lemma_under(record[47], "account"@, "state"@, "account,state"@);
        saw_is(l, known, answers, record, 47);
    }
}

proof fn lemma_remote_process_was_settled_2(
    known: Tree,
    answers: Seq<(Tree, bool)>,
    record: Seq<Tree>,
)
    requires
        passed(REMOTE_PROCESS@, known, answers, record),
    ensures
        at(at(told(record, 24), "value,controller_accounting"@), "committed,process_admissions"@)
            == Tree::Integer(1),
        is_at_least(
            at(at(told(record, 24), "value,controller_accounting"@), "committed,artifact_bytes"@),
            at(said(record, 45), "size"@),
        ),
        key_count(
            at(at(told(record, 24), "value,controller_accounting"@), "account,reservations"@),
        )
            == 0,
{
    let l = REMOTE_PROCESS@;
    reveal_strlit("1");
    reveal_strlit("account");
    reveal_strlit("reply");
    reveal_strlit("controlled_read");
    reveal_strlit("value,controller_accounting");
    reveal_strlit("controlled_read,value,controller_accounting");
    reveal_strlit("");
    reveal_strlit("run");
    reveal_strlit("node");
    reveal_strlit("attempt");
    reveal_strlit("inspected");
    reveal_strlit("invocation");
    reveal_strlit("inspected_text");
    reveal_strlit("account_text");
    reveal_strlit("words,failed");
    reveal_strlit("words,attempt");
    reveal_strlit("words,account");
    reveal_strlit("failure");
    reveal_strlit("output");
    reveal_strlit("artifact");
    reveal_strlit("got");
    reveal_strlit("downloaded");
    reveal_strlit("committed,process_admissions");
    reveal_strlit("account,committed,process_admissions");
    reveal_strlit("committed,artifact_bytes");
    reveal_strlit("account,committed,artifact_bytes");
    reveal_strlit("size");
    reveal_strlit("downloaded,size");
    reveal_strlit("0");
    reveal_strlit("account,reservations");
    reveal_strlit("account,account,reservations");
    lemma_one_digit("1"@);
    assert(number_of("1"@) == Some(1u64));
    assert("account"@.len() == 7);
    assert("reply"@.len() == 5);
    assert("controlled_read"@.len() == 15);
    assert(
        "controlled_read,value,controller_accounting"@
            =~= "controlled_read"@ + seq![','] + "value,controller_accounting"@
    );
    lemma_apart(""@, "account"@, 0);
    lemma_apart("run"@, "account"@, 0);
    lemma_apart("node"@, "account"@, 0);
    lemma_apart("attempt"@, "account"@, 1);
    lemma_apart("inspected"@, "account"@, 0);
    lemma_apart("invocation"@, "account"@, 0);
    lemma_apart("inspected_text"@, "account"@, 0);
    lemma_apart("account_text"@, "account"@, 7);
    lemma_apart("words,failed"@, "account"@, 0);
    lemma_apart("words,attempt"@, "account"@, 0);
    lemma_apart("words,account"@, "account"@, 0);
    lemma_apart("failure"@, "account"@, 0);
    lemma_apart("output"@, "account"@, 0);
    lemma_apart("artifact"@, "account"@, 1);
    lemma_apart("got"@, "account"@, 0);
    lemma_apart("downloaded"@, "account"@, 0);
    assert(
        "account,committed,process_admissions"@
            =~= "account"@ + seq![','] + "committed,process_admissions"@
    );
    assert(
        "account,committed,artifact_bytes"@
            =~= "account"@ + seq![','] + "committed,artifact_bytes"@
    );
    assert("downloaded"@.len() == 10);
    assert("downloaded,size"@ =~= "downloaded"@ + seq![','] + "size"@);
    lemma_one_digit("0"@);
    assert(number_of("0"@) == Some(0u64));
    assert("account,account,reservations"@ =~= "account"@ + seq![','] + "account,reservations"@);
    assert(at(at(told(record, 24), "value,controller_accounting"@), "committed,process_admissions"@)
            == Tree::Integer(1)) by {
        was_kept(l, known, answers, record, 26);
        was_told(l, known, answers, record, 25);
        lemma_under(
            record[26],
            "controlled_read"@,
            "value,controller_accounting"@,
            "controlled_read,value,controller_accounting"@,
        );
        assert(forall|j: int|
            27 <= j < 48 ==> is_check((#[trigger] l[j]).0@) || !touches(l[j].1@, "account"@));
        stays_through(l, known, answers, record, 27, 48, "account"@);
        lemma_under(
            record[48],
            "account"@,
            "committed,process_admissions"@,
            "account,committed,process_admissions"@,
        );
        saw_num(l, known, answers, record, 48, 1);
    }
    assert(is_at_least(
            at(at(told(record, 24), "value,controller_accounting"@), "committed,artifact_bytes"@),
            at(said(record, 45), "size"@),
        )) by {
        was_kept(l, known, answers, record, 26);
        was_told(l, known, answers, record, 25);
        lemma_under(
            record[26],
            "controlled_read"@,
            "value,controller_accounting"@,
            "controlled_read,value,controller_accounting"@,
        );
        assert(forall|j: int|
            27 <= j < 49 ==> is_check((#[trigger] l[j]).0@) || !touches(l[j].1@, "account"@));
        stays_through(l, known, answers, record, 27, 49, "account"@);
        lemma_under(
            record[49],
            "account"@,
            "committed,artifact_bytes"@,
            "account,committed,artifact_bytes"@,
        );
        was_said(l, known, answers, record, 46);
        unchanged(l, known, answers, record, 47);
        unchanged(l, known, answers, record, 48);
        lemma_under(record[49], "downloaded"@, "size"@, "downloaded,size"@);
        saw_reaches(l, known, answers, record, 49);
    }
    assert(key_count(
            at(at(told(record, 24), "value,controller_accounting"@), "account,reservations"@),
        )
            == 0) by {
        was_kept(l, known, answers, record, 26);
        was_told(l, known, answers, record, 25);
        lemma_under(
            record[26],
            "controlled_read"@,
            "value,controller_accounting"@,
            "controlled_read,value,controller_accounting"@,
        );
        assert(forall|j: int|
            27 <= j < 50 ==> is_check((#[trigger] l[j]).0@) || !touches(l[j].1@, "account"@));
        stays_through(l, known, answers, record, 27, 50, "account"@);
        lemma_under(
            record[50],
            "account"@,
            "account,reservations"@,
            "account,account,reservations"@,
        );
        saw_keys(l, known, answers, record, 50, 0);
    }
}

proof fn lemma_remote_process_was_settled_3(
    known: Tree,
    answers: Seq<(Tree, bool)>,
    record: Seq<Tree>,
)
    requires
        passed(REMOTE_PROCESS@, known, answers, record),
    ensures
        said(record, 51) == at(known, "process_text"@),
        at(record[57], "process,invocation"@) == at(told(record, 31), "value,invocation_id"@),
{
    let l = REMOTE_PROCESS@;
    reveal_strlit("result");
    reveal_strlit("reply");
    reveal_strlit("process_text");
    reveal_strlit("");
    reveal_strlit("capabilities");
    reveal_strlit("capabilities_text");
    reveal_strlit("registered");
    reveal_strlit("remote");
    reveal_strlit("built");
    reveal_strlit("imported");
    reveal_strlit("started");
    reveal_strlit("waited");
    reveal_strlit("runs");
    reveal_strlit("runs_text");
    reveal_strlit("child");
    reveal_strlit("child_run");
    reveal_strlit("completed");
    reveal_strlit("controlled_read");
    reveal_strlit("account");
    reveal_strlit("run");
    reveal_strlit("node");
    reveal_strlit("attempt");
    reveal_strlit("inspected");
    reveal_strlit("invocation");
    reveal_strlit("inspected_text");
    reveal_strlit("account_text");
    reveal_strlit("words,failed");
    reveal_strlit("words,attempt");
    reveal_strlit("words,account");
    reveal_strlit("failure");
    reveal_strlit("output");
    reveal_strlit("artifact");
    reveal_strlit("got");
    reveal_strlit("downloaded");
    reveal_strlit("process,invocation");
    reveal_strlit("process");
    reveal_strlit("value,invocation_id");
    reveal_strlit("inspected,value,invocation_id");
    reveal_strlit("process,run");
    reveal_strlit("process,artifact");
    assert("result"@.len() == 6);
    assert("reply"@.len() == 5);
    assert("process_text"@.len() == 12);
    lemma_apart(""@, "process_text"@, 0);
    lemma_apart("capabilities"@, "process_text"@, 0);
    lemma_apart("capabilities_text"@, "process_text"@, 0);
    lemma_apart("registered"@, "process_text"@, 0);
    lemma_apart("remote"@, "process_text"@, 0);
    lemma_apart("built"@, "process_text"@, 0);
    lemma_apart("imported"@, "process_text"@, 0);
    lemma_apart("started"@, "process_text"@, 0);
    lemma_apart("waited"@, "process_text"@, 0);
    lemma_apart("runs"@, "process_text"@, 0);
    lemma_apart("runs_text"@, "process_text"@, 0);
    lemma_apart("child"@, "process_text"@, 0);
    lemma_apart("child_run"@, "process_text"@, 0);
    lemma_apart("completed"@, "process_text"@, 0);
    lemma_apart("controlled_read"@, "process_text"@, 0);
    lemma_apart("account"@, "process_text"@, 0);
    lemma_apart("run"@, "process_text"@, 0);
    lemma_apart("node"@, "process_text"@, 0);
    lemma_apart("attempt"@, "process_text"@, 0);
    lemma_apart("inspected"@, "process_text"@, 0);
    lemma_apart("invocation"@, "process_text"@, 0);
    lemma_apart("inspected_text"@, "process_text"@, 0);
    lemma_apart("account_text"@, "process_text"@, 0);
    lemma_apart("words,failed"@, "process_text"@, 0);
    lemma_apart("words,attempt"@, "process_text"@, 0);
    lemma_apart("words,account"@, "process_text"@, 0);
    lemma_apart("failure"@, "process_text"@, 0);
    lemma_apart("output"@, "process_text"@, 0);
    lemma_apart("artifact"@, "process_text"@, 0);
    lemma_apart("got"@, "process_text"@, 0);
    lemma_apart("downloaded"@, "process_text"@, 0);
    lemma_apart("result"@, "process_text"@, 0);
    assert("process"@.len() == 7);
    assert("invocation"@.len() == 10);
    assert("inspected"@.len() == 9);
    assert("inspected,value,invocation_id"@ =~= "inspected"@ + seq![','] + "value,invocation_id"@);
    lemma_apart("inspected_text"@, "invocation"@, 2);
    lemma_apart("account_text"@, "invocation"@, 0);
    lemma_apart("words,failed"@, "invocation"@, 0);
    lemma_apart("words,attempt"@, "invocation"@, 0);
    lemma_apart("words,account"@, "invocation"@, 0);
    lemma_apart("failure"@, "invocation"@, 0);
    lemma_apart("output"@, "invocation"@, 0);
    lemma_apart("artifact"@, "invocation"@, 0);
    lemma_apart(""@, "invocation"@, 0);
    lemma_apart("got"@, "invocation"@, 0);
    lemma_apart("downloaded"@, "invocation"@, 0);
    lemma_apart("result"@, "invocation"@, 0);
    lemma_apart("process,run"@, "invocation"@, 0);
    assert("process,invocation"@ =~= "process"@ + seq![','] + "invocation"@);
    assert("process,artifact"@ =~= "process"@ + seq![','] + "artifact"@);
    lemma_under(Tree::Null, "process"@, "artifact"@, "process,artifact"@);
    lemma_single_segment("artifact"@);
    assert("artifact"@.len() == 8);
    assert("process,artifact"@.len() == 16);
    assert(segments("process,artifact"@)[1] == "artifact"@);
    assert(said(record, 51) == at(known, "process_text"@)) by {
        was_said(l, known, answers, record, 52);
        assert(forall|j: int|
            0 <= j < 53 ==> is_check((#[trigger] l[j]).0@) || !touches(l[j].1@, "process_text"@));
        stays_through(l, known, answers, record, 0, 53, "process_text"@);
        saw_same(l, known, answers, record, 53);
    }
    assert(at(record[57], "process,invocation"@) == at(told(record, 31), "value,invocation_id"@)) by {
        was_kept(l, known, answers, record, 33);
        was_told(l, known, answers, record, 32);
        lemma_under(
            record[33],
            "inspected"@,
            "value,invocation_id"@,
            "inspected,value,invocation_id"@,
        );
        assert(forall|j: int|
            34 <= j < 55 ==> is_check((#[trigger] l[j]).0@) || !touches(l[j].1@, "invocation"@));
        stays_through(l, known, answers, record, 34, 55, "invocation"@);
        was_put(l, known, answers, record, 55);
        lemma_under(record[56], "process"@, "invocation"@, "process,invocation"@);
        stays_beside(l, known, answers, record, 56, "process"@, "invocation"@);
        lemma_under(record[57], "process"@, "invocation"@, "process,invocation"@);
    }
}

/// A remote process run finishes only where its controller created one child and succeeded, the
/// result settled the reservation of its origin, with one admission, at least the bytes that came
/// back and nothing still reserved, and what came back is what the operation gives.
pub proof fn remote_process_was_settled(
    known: Tree,
    answers: Seq<(Tree, bool)>,
) -> (record: Seq<Tree>)
    requires
        known is Object,
        finished(REMOTE_PROCESS@, known, answers),
    ensures
        passed(REMOTE_PROCESS@, known, answers, record),
        REMOTE_PROCESS@[15].2@ == "cli run list --limit 100"@,
        elements_with(
            items_of(at(told(record, 15), "value,items"@)),
            "workflow_id"@,
            Tree::Text("remote-process"@),
        )
            == 1,
        REMOTE_PROCESS@[22].2@ == "cli run show controlled-remote-process"@,
        at(told(record, 22), "value,terminal"@) == Tree::Text("succeeded"@),
        REMOTE_PROCESS@[24].2@ == "cli run show controlled-remote-process"@,
        at(at(told(record, 24), "value,controller_accounting"@), "state"@) == Tree::Text("active"@),
        at(at(told(record, 24), "value,controller_accounting"@), "committed,process_admissions"@)
            == Tree::Integer(1),
        REMOTE_PROCESS@[45].2@ == "hash $paths,process_result"@,
        is_at_least(
            at(at(told(record, 24), "value,controller_accounting"@), "committed,artifact_bytes"@),
            at(said(record, 45), "size"@),
        ),
        key_count(
            at(at(told(record, 24), "value,controller_accounting"@), "account,reservations"@),
        )
            == 0,
        REMOTE_PROCESS@[51].2@ == "read-file $paths,process_result"@,
        said(record, 51) == at(known, "process_text"@),
        REMOTE_PROCESS@[31].2@ == "cli attempt inspect $child_run $attempt"@,
        at(record[57], "process,invocation"@) == at(told(record, 31), "value,invocation_id"@),
{
    let record = finished_scenarios_are_recorded(REMOTE_PROCESS@, known, answers);
    lemma_remote_process_was_settled_1(known, answers, record);
    lemma_remote_process_was_settled_2(known, answers, record);
    lemma_remote_process_was_settled_3(known, answers, record);
    record
}

proof fn lemma_remote_model_was_settled_1(
    known: Tree,
    answers: Seq<(Tree, bool)>,
    record: Seq<Tree>,
)
    requires
        passed(REMOTE_MODEL@, known, answers, record),
    ensures
        elements_with(
            items_of(at(told(record, 15), "value,items"@)),
            "workflow_id"@,
            Tree::Text("remote-model"@),
        )
            == 1,
        at(told(record, 22), "value,terminal"@) == Tree::Text("succeeded"@),
        at(at(told(record, 24), "value,controller_accounting"@), "state"@) == Tree::Text("active"@),
{
    let l = REMOTE_MODEL@;
    reveal_strlit("runs");
    reveal_strlit("reply");
    reveal_strlit("runs_text");
    reveal_strlit("value,items");
    reveal_strlit("runs,value,items");
    reveal_strlit("1");
    reveal_strlit("1 is workflow_id remote-model");
    reveal_strlit("is workflow_id remote-model");
    reveal_strlit("is");
    reveal_strlit("workflow_id remote-model");
    reveal_strlit("workflow_id");
    reveal_strlit("remote-model");
    reveal_strlit("else");
    reveal_strlit("plus");
    reveal_strlit("completed");
    reveal_strlit("");
    reveal_strlit("controlled_read");
    reveal_strlit("account");
    reveal_strlit("run");
    reveal_strlit("node");
    reveal_strlit("attempt");
    reveal_strlit("inspected");
    reveal_strlit("invocation");
    reveal_strlit("inspected_text");
    reveal_strlit("account_text");
    reveal_strlit("words,failed");
    reveal_strlit("words,attempt");
    reveal_strlit("words,account");
    reveal_strlit("failure");
    reveal_strlit("value,terminal");
    reveal_strlit("completed,value,terminal");
    reveal_strlit("value,controller_accounting");
    reveal_strlit("controlled_read,value,controller_accounting");
    reveal_strlit("output");
    reveal_strlit("artifact");
    reveal_strlit("got");
    reveal_strlit("downloaded");
    reveal_strlit("state");
    reveal_strlit("account,state");
    assert("runs"@.len() == 4);
    assert("reply"@.len() == 5);
    lemma_apart("runs_text"@, "runs"@, 4);
    assert("runs,value,items"@ =~= "runs"@ + seq![','] + "value,items"@);
    lemma_one_digit("1"@);
    assert(number_of("1"@) == Some(1u64));
    assert("workflow_id remote-model"@ =~= "workflow_id"@ + seq![' '] + "remote-model"@);
    lemma_two_words("workflow_id"@, "remote-model"@, "workflow_id remote-model"@);
    assert("is workflow_id remote-model"@ =~= "is"@ + seq![' '] + "workflow_id remote-model"@);
    lemma_four_words("is"@, "workflow_id remote-model"@, "is workflow_id remote-model"@);
    assert("1 is workflow_id remote-model"@ =~= "1"@ + seq![' '] + "is workflow_id remote-model"@);
    lemma_four_words("1"@, "is workflow_id remote-model"@, "1 is workflow_id remote-model"@);
    assert("workflow_id"@.len() == 11);
    assert("else"@.len() == 4);
    assert("plus"@.len() == 4);
    assert("remote-model"@.len() == 12);
    assert(
        parts("1 is workflow_id remote-model"@)
            =~= seq!["1"@, "is"@, "workflow_id"@, "remote-model"@]
    );
    assert("completed"@.len() == 9);
    lemma_apart(""@, "completed"@, 0);
    lemma_apart("controlled_read"@, "completed"@, 2);
    lemma_apart("account"@, "completed"@, 0);
    lemma_apart("run"@, "completed"@, 0);
    lemma_apart("node"@, "completed"@, 0);
    lemma_apart("attempt"@, "completed"@, 0);
    lemma_apart("inspected"@, "completed"@, 0);
    lemma_apart("invocation"@, "completed"@, 0);
    lemma_apart("inspected_text"@, "completed"@, 0);
    lemma_apart("account_text"@, "completed"@, 0);
    lemma_apart("words,failed"@, "completed"@, 0);
    lemma_apart("words,attempt"@, "completed"@, 0);
    lemma_apart("words,account"@, "completed"@, 0);
    lemma_apart("failure"@, "completed"@, 0);
    assert("completed,value,terminal"@ =~= "completed"@ + seq![','] + "value,terminal"@);
    assert("account"@.len() == 7);
    assert("controlled_read"@.len() == 15);
    assert(
        "controlled_read,value,controller_accounting"@
            =~= "controlled_read"@ + seq![','] + "value,controller_accounting"@
    );
    lemma_apart(""@, "account"@, 0);
    lemma_apart("run"@, "account"@, 0);
    lemma_apart("node"@, "account"@, 0);
    lemma_apart("attempt"@, "account"@, 1);
    lemma_apart("inspected"@, "account"@, 0);
    lemma_apart("invocation"@, "account"@, 0);
    lemma_apart("inspected_text"@, "account"@, 0);
    lemma_apart("account_text"@, "account"@, 7);
    lemma_apart("words,failed"@, "account"@, 0);
    lemma_apart("words,attempt"@, "account"@, 0);
    lemma_apart("words,account"@, "account"@, 0);
    lemma_apart("failure"@, "account"@, 0);
    lemma_apart("output"@, "account"@, 0);
    lemma_apart("artifact"@, "account"@, 1);
    lemma_apart("got"@, "account"@, 0);
    lemma_apart("downloaded"@, "account"@, 0);
    assert("account,state"@ =~= "account"@ + seq![','] + "state"@);
    assert(elements_with(
            items_of(at(told(record, 15), "value,items"@)),
            "workflow_id"@,
            Tree::Text("remote-model"@),
        )
            == 1) by {
        was_told(l, known, answers, record, 16);
        unchanged(l, known, answers, record, 17);
        stays(l, known, answers, record, 18, "runs"@);
        lemma_under(record[19], "runs"@, "value,items"@, "runs,value,items"@);
        saw_matching_text(l, known, answers, record, 19, "1"@, "workflow_id"@, "remote-model"@, 1);
    }
    assert(at(told(record, 22), "value,terminal"@) == Tree::Text("succeeded"@)) by {
        was_awaited(l, known, answers, record, 22);
        assert(forall|j: int|
            23 <= j < 40 ==> is_check((#[trigger] l[j]).0@) || !touches(l[j].1@, "completed"@));
        stays_through(l, known, answers, record, 23, 40, "completed"@);
        lemma_under(record[40], "completed"@, "value,terminal"@, "completed,value,terminal"@);
        saw_is(l, known, answers, record, 40);
    }
    assert(at(at(told(record, 24), "value,controller_accounting"@), "state"@) == Tree::Text("active"@)) by {
        was_kept(l, known, answers, record, 26);
        was_told(l, known, answers, record, 25);
        lemma_under(
            record[26],
            "controlled_read"@,
            "value,controller_accounting"@,
            "controlled_read,value,controller_accounting"@,
        );
        assert(forall|j: int|
            27 <= j < 47 ==> is_check((#[trigger] l[j]).0@) || !touches(l[j].1@, "account"@));
        stays_through(l, known, answers, record, 27, 47, "account"@);
        lemma_under(record[47], "account"@, "state"@, "account,state"@);
        saw_is(l, known, answers, record, 47);
    }
}

proof fn lemma_remote_model_was_settled_2(
    known: Tree,
    answers: Seq<(Tree, bool)>,
    record: Seq<Tree>,
)
    requires
        passed(REMOTE_MODEL@, known, answers, record),
    ensures
        at(at(told(record, 24), "value,controller_accounting"@), "committed,model_admissions"@)
            == Tree::Integer(1),
        is_at_least(
            at(at(told(record, 24), "value,controller_accounting"@), "committed,artifact_bytes"@),
            at(said(record, 45), "size"@),
        ),
        key_count(
            at(at(told(record, 24), "value,controller_accounting"@), "account,reservations"@),
        )
            == 0,
{
    let l = REMOTE_MODEL@;
    reveal_strlit("1");
    reveal_strlit("account");
    reveal_strlit("reply");
    reveal_strlit("controlled_read");
    reveal_strlit("value,controller_accounting");
    reveal_strlit("controlled_read,value,controller_accounting");
    reveal_strlit("");
    reveal_strlit("run");
    reveal_strlit("node");
    reveal_strlit("attempt");
    reveal_strlit("inspected");
    reveal_strlit("invocation");
    reveal_strlit("inspected_text");
    reveal_strlit("account_text");
    reveal_strlit("words,failed");
    reveal_strlit("words,attempt");
    reveal_strlit("words,account");
    reveal_strlit("failure");
    reveal_strlit("output");
    reveal_strlit("artifact");
    reveal_strlit("got");
    reveal_strlit("downloaded");
    reveal_strlit("committed,model_admissions");
    reveal_strlit("account,committed,model_admissions");
    reveal_strlit("committed,artifact_bytes");
    reveal_strlit("account,committed,artifact_bytes");
    reveal_strlit("size");
    reveal_strlit("downloaded,size");
    reveal_strlit("0");
    reveal_strlit("account,reservations");
    reveal_strlit("account,account,reservations");
    lemma_one_digit("1"@);
    assert(number_of("1"@) == Some(1u64));
    assert("account"@.len() == 7);
    assert("reply"@.len() == 5);
    assert("controlled_read"@.len() == 15);
    assert(
        "controlled_read,value,controller_accounting"@
            =~= "controlled_read"@ + seq![','] + "value,controller_accounting"@
    );
    lemma_apart(""@, "account"@, 0);
    lemma_apart("run"@, "account"@, 0);
    lemma_apart("node"@, "account"@, 0);
    lemma_apart("attempt"@, "account"@, 1);
    lemma_apart("inspected"@, "account"@, 0);
    lemma_apart("invocation"@, "account"@, 0);
    lemma_apart("inspected_text"@, "account"@, 0);
    lemma_apart("account_text"@, "account"@, 7);
    lemma_apart("words,failed"@, "account"@, 0);
    lemma_apart("words,attempt"@, "account"@, 0);
    lemma_apart("words,account"@, "account"@, 0);
    lemma_apart("failure"@, "account"@, 0);
    lemma_apart("output"@, "account"@, 0);
    lemma_apart("artifact"@, "account"@, 1);
    lemma_apart("got"@, "account"@, 0);
    lemma_apart("downloaded"@, "account"@, 0);
    assert(
        "account,committed,model_admissions"@
            =~= "account"@ + seq![','] + "committed,model_admissions"@
    );
    assert(
        "account,committed,artifact_bytes"@
            =~= "account"@ + seq![','] + "committed,artifact_bytes"@
    );
    assert("downloaded"@.len() == 10);
    assert("downloaded,size"@ =~= "downloaded"@ + seq![','] + "size"@);
    lemma_one_digit("0"@);
    assert(number_of("0"@) == Some(0u64));
    assert("account,account,reservations"@ =~= "account"@ + seq![','] + "account,reservations"@);
    assert(at(at(told(record, 24), "value,controller_accounting"@), "committed,model_admissions"@)
            == Tree::Integer(1)) by {
        was_kept(l, known, answers, record, 26);
        was_told(l, known, answers, record, 25);
        lemma_under(
            record[26],
            "controlled_read"@,
            "value,controller_accounting"@,
            "controlled_read,value,controller_accounting"@,
        );
        assert(forall|j: int|
            27 <= j < 48 ==> is_check((#[trigger] l[j]).0@) || !touches(l[j].1@, "account"@));
        stays_through(l, known, answers, record, 27, 48, "account"@);
        lemma_under(
            record[48],
            "account"@,
            "committed,model_admissions"@,
            "account,committed,model_admissions"@,
        );
        saw_num(l, known, answers, record, 48, 1);
    }
    assert(is_at_least(
            at(at(told(record, 24), "value,controller_accounting"@), "committed,artifact_bytes"@),
            at(said(record, 45), "size"@),
        )) by {
        was_kept(l, known, answers, record, 26);
        was_told(l, known, answers, record, 25);
        lemma_under(
            record[26],
            "controlled_read"@,
            "value,controller_accounting"@,
            "controlled_read,value,controller_accounting"@,
        );
        assert(forall|j: int|
            27 <= j < 49 ==> is_check((#[trigger] l[j]).0@) || !touches(l[j].1@, "account"@));
        stays_through(l, known, answers, record, 27, 49, "account"@);
        lemma_under(
            record[49],
            "account"@,
            "committed,artifact_bytes"@,
            "account,committed,artifact_bytes"@,
        );
        was_said(l, known, answers, record, 46);
        unchanged(l, known, answers, record, 47);
        unchanged(l, known, answers, record, 48);
        lemma_under(record[49], "downloaded"@, "size"@, "downloaded,size"@);
        saw_reaches(l, known, answers, record, 49);
    }
    assert(key_count(
            at(at(told(record, 24), "value,controller_accounting"@), "account,reservations"@),
        )
            == 0) by {
        was_kept(l, known, answers, record, 26);
        was_told(l, known, answers, record, 25);
        lemma_under(
            record[26],
            "controlled_read"@,
            "value,controller_accounting"@,
            "controlled_read,value,controller_accounting"@,
        );
        assert(forall|j: int|
            27 <= j < 50 ==> is_check((#[trigger] l[j]).0@) || !touches(l[j].1@, "account"@));
        stays_through(l, known, answers, record, 27, 50, "account"@);
        lemma_under(
            record[50],
            "account"@,
            "account,reservations"@,
            "account,account,reservations"@,
        );
        saw_keys(l, known, answers, record, 50, 0);
    }
}

proof fn lemma_remote_model_was_settled_3(
    known: Tree,
    answers: Seq<(Tree, bool)>,
    record: Seq<Tree>,
)
    requires
        passed(REMOTE_MODEL@, known, answers, record),
    ensures
        text_has(said(record, 51), "independent model result"@),
        at(record[57], "model,invocation"@) == at(told(record, 31), "value,invocation_id"@),
{
    let l = REMOTE_MODEL@;
    reveal_strlit("result");
    reveal_strlit("reply");
    reveal_strlit("model,invocation");
    reveal_strlit("model");
    reveal_strlit("invocation");
    reveal_strlit("inspected");
    reveal_strlit("value,invocation_id");
    reveal_strlit("inspected,value,invocation_id");
    reveal_strlit("inspected_text");
    reveal_strlit("account_text");
    reveal_strlit("words,failed");
    reveal_strlit("words,attempt");
    reveal_strlit("words,account");
    reveal_strlit("failure");
    reveal_strlit("output");
    reveal_strlit("artifact");
    reveal_strlit("");
    reveal_strlit("got");
    reveal_strlit("downloaded");
    reveal_strlit("model,run");
    reveal_strlit("model,artifact");
    assert("result"@.len() == 6);
    assert("reply"@.len() == 5);
    assert("model"@[0] != "reply"@[0]);
    assert("invocation"@.len() == 10);
    assert("inspected"@.len() == 9);
    assert("inspected,value,invocation_id"@ =~= "inspected"@ + seq![','] + "value,invocation_id"@);
    lemma_apart("inspected_text"@, "invocation"@, 2);
    lemma_apart("account_text"@, "invocation"@, 0);
    lemma_apart("words,failed"@, "invocation"@, 0);
    lemma_apart("words,attempt"@, "invocation"@, 0);
    lemma_apart("words,account"@, "invocation"@, 0);
    lemma_apart("failure"@, "invocation"@, 0);
    lemma_apart("output"@, "invocation"@, 0);
    lemma_apart("artifact"@, "invocation"@, 0);
    lemma_apart(""@, "invocation"@, 0);
    lemma_apart("got"@, "invocation"@, 0);
    lemma_apart("downloaded"@, "invocation"@, 0);
    lemma_apart("result"@, "invocation"@, 0);
    lemma_apart("model,run"@, "invocation"@, 0);
    assert("model,invocation"@ =~= "model"@ + seq![','] + "invocation"@);
    assert("model,artifact"@ =~= "model"@ + seq![','] + "artifact"@);
    lemma_under(Tree::Null, "model"@, "artifact"@, "model,artifact"@);
    lemma_single_segment("artifact"@);
    assert("artifact"@.len() == 8);
    assert("model,artifact"@.len() == 14);
    assert("model"@.len() == 5);
    assert(segments("model,artifact"@)[1] == "artifact"@);
    assert(text_has(said(record, 51), "independent model result"@)) by {
        was_said(l, known, answers, record, 52);
        saw_contains(l, known, answers, record, 53);
    }
    assert(at(record[57], "model,invocation"@) == at(told(record, 31), "value,invocation_id"@)) by {
        was_kept(l, known, answers, record, 33);
        was_told(l, known, answers, record, 32);
        lemma_under(
            record[33],
            "inspected"@,
            "value,invocation_id"@,
            "inspected,value,invocation_id"@,
        );
        assert(forall|j: int|
            34 <= j < 55 ==> is_check((#[trigger] l[j]).0@) || !touches(l[j].1@, "invocation"@));
        stays_through(l, known, answers, record, 34, 55, "invocation"@);
        was_put(l, known, answers, record, 55);
        lemma_under(record[56], "model"@, "invocation"@, "model,invocation"@);
        stays_beside(l, known, answers, record, 56, "model"@, "invocation"@);
        lemma_under(record[57], "model"@, "invocation"@, "model,invocation"@);
    }
}

/// A remote model run finishes only where its controller created one child and succeeded, the
/// result settled the reservation of its origin, with one admission, at least the bytes that came
/// back and nothing still reserved, and what came back is what the operation gives.
pub proof fn remote_model_was_settled(
    known: Tree,
    answers: Seq<(Tree, bool)>,
) -> (record: Seq<Tree>)
    requires
        known is Object,
        finished(REMOTE_MODEL@, known, answers),
    ensures
        passed(REMOTE_MODEL@, known, answers, record),
        REMOTE_MODEL@[15].2@ == "cli run list --limit 100"@,
        elements_with(
            items_of(at(told(record, 15), "value,items"@)),
            "workflow_id"@,
            Tree::Text("remote-model"@),
        )
            == 1,
        REMOTE_MODEL@[22].2@ == "cli run show controlled-remote-model"@,
        at(told(record, 22), "value,terminal"@) == Tree::Text("succeeded"@),
        REMOTE_MODEL@[24].2@ == "cli run show controlled-remote-model"@,
        at(at(told(record, 24), "value,controller_accounting"@), "state"@) == Tree::Text("active"@),
        at(at(told(record, 24), "value,controller_accounting"@), "committed,model_admissions"@)
            == Tree::Integer(1),
        REMOTE_MODEL@[45].2@ == "hash $paths,model_result"@,
        is_at_least(
            at(at(told(record, 24), "value,controller_accounting"@), "committed,artifact_bytes"@),
            at(said(record, 45), "size"@),
        ),
        key_count(
            at(at(told(record, 24), "value,controller_accounting"@), "account,reservations"@),
        )
            == 0,
        REMOTE_MODEL@[51].2@ == "read-file $paths,model_result"@,
        text_has(said(record, 51), "independent model result"@),
        REMOTE_MODEL@[31].2@ == "cli attempt inspect $child_run $attempt"@,
        at(record[57], "model,invocation"@) == at(told(record, 31), "value,invocation_id"@),
{
    let record = finished_scenarios_are_recorded(REMOTE_MODEL@, known, answers);
    lemma_remote_model_was_settled_1(known, answers, record);
    lemma_remote_model_was_settled_2(known, answers, record);
    lemma_remote_model_was_settled_3(known, answers, record);
    record
}

proof fn lemma_lost_response_kept_its_obligation_1(
    known: Tree,
    answers: Seq<(Tree, bool)>,
    record: Seq<Tree>,
)
    requires
        passed(REMOTE_UNCERTAIN@, known, answers, record),
    ensures
        elements_with(
            items_of(at(told(record, 17), "value,items"@)),
            "workflow_id"@,
            Tree::Text("remote-uncertain-model"@),
        )
            == 1,
        at(told(record, 33), "value,uncertain"@) == Tree::Bool(true),
        at(
            at(told(record, 26), "value,controller_accounting"@),
            "account,outstanding,input_units"@,
        )
            == Tree::Integer(65536),
{
    let l = REMOTE_UNCERTAIN@;
    reveal_strlit("runs");
    reveal_strlit("reply");
    reveal_strlit("runs_text");
    reveal_strlit("value,items");
    reveal_strlit("runs,value,items");
    reveal_strlit("1");
    reveal_strlit("1 is workflow_id remote-uncertain-model");
    reveal_strlit("is workflow_id remote-uncertain-model");
    reveal_strlit("is");
    reveal_strlit("workflow_id remote-uncertain-model");
    reveal_strlit("workflow_id");
    reveal_strlit("remote-uncertain-model");
    reveal_strlit("else");
    reveal_strlit("plus");
    reveal_strlit("inspected");
    reveal_strlit("invocation");
    reveal_strlit("inspected_text");
    reveal_strlit("account_text");
    reveal_strlit("words,account");
    reveal_strlit("obligation");
    reveal_strlit("value,uncertain");
    reveal_strlit("inspected,value,uncertain");
    reveal_strlit("65536");
    reveal_strlit("6");
    reveal_strlit("65");
    reveal_strlit("655");
    reveal_strlit("6553");
    reveal_strlit("account");
    reveal_strlit("controlled_read");
    reveal_strlit("value,controller_accounting");
    reveal_strlit("controlled_read,value,controller_accounting");
    reveal_strlit("");
    reveal_strlit("run");
    reveal_strlit("node");
    reveal_strlit("attempt");
    reveal_strlit("account,outstanding,input_units");
    reveal_strlit("account,account,outstanding,input_units");
    assert("runs"@.len() == 4);
    assert("reply"@.len() == 5);
    lemma_apart("runs_text"@, "runs"@, 4);
    assert("runs,value,items"@ =~= "runs"@ + seq![','] + "value,items"@);
    lemma_one_digit("1"@);
    assert(number_of("1"@) == Some(1u64));
    assert(
        "workflow_id remote-uncertain-model"@
            =~= "workflow_id"@ + seq![' '] + "remote-uncertain-model"@
    );
    lemma_two_words(
        "workflow_id"@,
        "remote-uncertain-model"@,
        "workflow_id remote-uncertain-model"@,
    );
    assert(
        "is workflow_id remote-uncertain-model"@
            =~= "is"@ + seq![' '] + "workflow_id remote-uncertain-model"@
    );
    lemma_four_words(
        "is"@,
        "workflow_id remote-uncertain-model"@,
        "is workflow_id remote-uncertain-model"@,
    );
    assert(
        "1 is workflow_id remote-uncertain-model"@
            =~= "1"@ + seq![' '] + "is workflow_id remote-uncertain-model"@
    );
    lemma_four_words(
        "1"@,
        "is workflow_id remote-uncertain-model"@,
        "1 is workflow_id remote-uncertain-model"@,
    );
    assert("workflow_id"@.len() == 11);
    assert("else"@.len() == 4);
    assert("plus"@.len() == 4);
    assert("remote-uncertain-model"@.len() == 22);
    assert(
        parts("1 is workflow_id remote-uncertain-model"@)
            =~= seq!["1"@, "is"@, "workflow_id"@, "remote-uncertain-model"@]
    );
    assert("inspected"@.len() == 9);
    lemma_apart("invocation"@, "inspected"@, 2);
    lemma_apart("inspected_text"@, "inspected"@, 9);
    lemma_apart("account_text"@, "inspected"@, 0);
    lemma_apart("words,account"@, "inspected"@, 0);
    lemma_apart("obligation"@, "inspected"@, 0);
    assert("inspected,value,uncertain"@ =~= "inspected"@ + seq![','] + "value,uncertain"@);
    lemma_one_digit("6"@);
    assert(number_of("6"@) == Some(6u64));
    assert("65"@.drop_last() =~= "6"@);
    lemma_next_digit("65"@, "6"@, 6);
    assert(number_of("65"@) == Some(65u64));
    assert("655"@.drop_last() =~= "65"@);
    lemma_next_digit("655"@, "65"@, 65);
    assert(number_of("655"@) == Some(655u64));
    assert("6553"@.drop_last() =~= "655"@);
    lemma_next_digit("6553"@, "655"@, 655);
    assert(number_of("6553"@) == Some(6553u64));
    assert("65536"@.drop_last() =~= "6553"@);
    lemma_next_digit("65536"@, "6553"@, 6553);
    assert(number_of("65536"@) == Some(65536u64));
    assert("account"@.len() == 7);
    assert("controlled_read"@.len() == 15);
    assert(
        "controlled_read,value,controller_accounting"@
            =~= "controlled_read"@ + seq![','] + "value,controller_accounting"@
    );
    lemma_apart(""@, "account"@, 0);
    lemma_apart("run"@, "account"@, 0);
    lemma_apart("node"@, "account"@, 0);
    lemma_apart("attempt"@, "account"@, 1);
    lemma_apart("inspected"@, "account"@, 0);
    lemma_apart("invocation"@, "account"@, 0);
    lemma_apart("inspected_text"@, "account"@, 0);
    lemma_apart("account_text"@, "account"@, 7);
    lemma_apart("words,account"@, "account"@, 0);
    lemma_apart("obligation"@, "account"@, 0);
    assert(
        "account,account,outstanding,input_units"@
            =~= "account"@ + seq![','] + "account,outstanding,input_units"@
    );
    assert(elements_with(
            items_of(at(told(record, 17), "value,items"@)),
            "workflow_id"@,
            Tree::Text("remote-uncertain-model"@),
        )
            == 1) by {
        was_told(l, known, answers, record, 18);
        unchanged(l, known, answers, record, 19);
        stays(l, known, answers, record, 20, "runs"@);
        lemma_under(record[21], "runs"@, "value,items"@, "runs,value,items"@);
        saw_matching_text(
            l,
            known,
            answers,
            record,
            21,
            "1"@,
            "workflow_id"@,
            "remote-uncertain-model"@,
            1,
        );
    }
    assert(at(told(record, 33), "value,uncertain"@) == Tree::Bool(true)) by {
        was_told(l, known, answers, record, 34);
        assert(forall|j: int|
            35 <= j < 40 ==> is_check((#[trigger] l[j]).0@) || !touches(l[j].1@, "inspected"@));
        stays_through(l, known, answers, record, 35, 40, "inspected"@);
        lemma_under(record[40], "inspected"@, "value,uncertain"@, "inspected,value,uncertain"@);
        saw_true(l, known, answers, record, 40);
    }
    assert(at(
            at(told(record, 26), "value,controller_accounting"@),
            "account,outstanding,input_units"@,
        )
            == Tree::Integer(65536)) by {
        was_kept(l, known, answers, record, 28);
        was_told(l, known, answers, record, 27);
        lemma_under(
            record[28],
            "controlled_read"@,
            "value,controller_accounting"@,
            "controlled_read,value,controller_accounting"@,
        );
        assert(forall|j: int|
            29 <= j < 41 ==> is_check((#[trigger] l[j]).0@) || !touches(l[j].1@, "account"@));
        stays_through(l, known, answers, record, 29, 41, "account"@);
        lemma_under(
            record[41],
            "account"@,
            "account,outstanding,input_units"@,
            "account,account,outstanding,input_units"@,
        );
        saw_num(l, known, answers, record, 41, 65536);
    }
}

proof fn lemma_lost_response_kept_its_obligation_2(
    known: Tree,
    answers: Seq<(Tree, bool)>,
    record: Seq<Tree>,
)
    requires
        passed(REMOTE_UNCERTAIN@, known, answers, record),
    ensures
        at(
            at(told(record, 26), "value,controller_accounting"@),
            "account,outstanding,output_units"@,
        )
            == Tree::Integer(4096),
        at(
            at(told(record, 26), "value,controller_accounting"@),
            "account,outstanding,artifact_bytes"@,
        )
            == Tree::Integer(16777216),
        at(
            at(told(record, 26), "value,controller_accounting"@),
            "account,settled,model_admissions"@,
        )
            == Tree::Integer(1),
{
    let l = REMOTE_UNCERTAIN@;
    reveal_strlit("4096");
    reveal_strlit("4");
    reveal_strlit("40");
    reveal_strlit("409");
    reveal_strlit("account");
    reveal_strlit("reply");
    reveal_strlit("controlled_read");
    reveal_strlit("value,controller_accounting");
    reveal_strlit("controlled_read,value,controller_accounting");
    reveal_strlit("");
    reveal_strlit("run");
    reveal_strlit("node");
    reveal_strlit("attempt");
    reveal_strlit("inspected");
    reveal_strlit("invocation");
    reveal_strlit("inspected_text");
    reveal_strlit("account_text");
    reveal_strlit("words,account");
    reveal_strlit("obligation");
    reveal_strlit("account,outstanding,output_units");
    reveal_strlit("account,account,outstanding,output_units");
    reveal_strlit("16777216");
    reveal_strlit("1");
    reveal_strlit("16");
    reveal_strlit("167");
    reveal_strlit("1677");
    reveal_strlit("16777");
    reveal_strlit("167772");
    reveal_strlit("1677721");
    reveal_strlit("account,outstanding,artifact_bytes");
    reveal_strlit("account,account,outstanding,artifact_bytes");
    reveal_strlit("account,settled,model_admissions");
    reveal_strlit("account,account,settled,model_admissions");
    lemma_one_digit("4"@);
    assert(number_of("4"@) == Some(4u64));
    assert("40"@.drop_last() =~= "4"@);
    lemma_next_digit("40"@, "4"@, 4);
    assert(number_of("40"@) == Some(40u64));
    assert("409"@.drop_last() =~= "40"@);
    lemma_next_digit("409"@, "40"@, 40);
    assert(number_of("409"@) == Some(409u64));
    assert("4096"@.drop_last() =~= "409"@);
    lemma_next_digit("4096"@, "409"@, 409);
    assert(number_of("4096"@) == Some(4096u64));
    assert("account"@.len() == 7);
    assert("reply"@.len() == 5);
    assert("controlled_read"@.len() == 15);
    assert(
        "controlled_read,value,controller_accounting"@
            =~= "controlled_read"@ + seq![','] + "value,controller_accounting"@
    );
    lemma_apart(""@, "account"@, 0);
    lemma_apart("run"@, "account"@, 0);
    lemma_apart("node"@, "account"@, 0);
    lemma_apart("attempt"@, "account"@, 1);
    lemma_apart("inspected"@, "account"@, 0);
    lemma_apart("invocation"@, "account"@, 0);
    lemma_apart("inspected_text"@, "account"@, 0);
    lemma_apart("account_text"@, "account"@, 7);
    lemma_apart("words,account"@, "account"@, 0);
    lemma_apart("obligation"@, "account"@, 0);
    assert(
        "account,account,outstanding,output_units"@
            =~= "account"@ + seq![','] + "account,outstanding,output_units"@
    );
    lemma_one_digit("1"@);
    assert(number_of("1"@) == Some(1u64));
    assert("16"@.drop_last() =~= "1"@);
    lemma_next_digit("16"@, "1"@, 1);
    assert(number_of("16"@) == Some(16u64));
    assert("167"@.drop_last() =~= "16"@);
    lemma_next_digit("167"@, "16"@, 16);
    assert(number_of("167"@) == Some(167u64));
    assert("1677"@.drop_last() =~= "167"@);
    lemma_next_digit("1677"@, "167"@, 167);
    assert(number_of("1677"@) == Some(1677u64));
    assert("16777"@.drop_last() =~= "1677"@);
    lemma_next_digit("16777"@, "1677"@, 1677);
    assert(number_of("16777"@) == Some(16777u64));
    assert("167772"@.drop_last() =~= "16777"@);
    lemma_next_digit("167772"@, "16777"@, 16777);
    assert(number_of("167772"@) == Some(167772u64));
    assert("1677721"@.drop_last() =~= "167772"@);
    lemma_next_digit("1677721"@, "167772"@, 167772);
    assert(number_of("1677721"@) == Some(1677721u64));
    assert("16777216"@.drop_last() =~= "1677721"@);
    lemma_next_digit("16777216"@, "1677721"@, 1677721);
    assert(number_of("16777216"@) == Some(16777216u64));
    assert(
        "account,account,outstanding,artifact_bytes"@
            =~= "account"@ + seq![','] + "account,outstanding,artifact_bytes"@
    );
    assert(
        "account,account,settled,model_admissions"@
            =~= "account"@ + seq![','] + "account,settled,model_admissions"@
    );
    assert(at(
            at(told(record, 26), "value,controller_accounting"@),
            "account,outstanding,output_units"@,
        )
            == Tree::Integer(4096)) by {
        was_kept(l, known, answers, record, 28);
        was_told(l, known, answers, record, 27);
        lemma_under(
            record[28],
            "controlled_read"@,
            "value,controller_accounting"@,
            "controlled_read,value,controller_accounting"@,
        );
        assert(forall|j: int|
            29 <= j < 42 ==> is_check((#[trigger] l[j]).0@) || !touches(l[j].1@, "account"@));
        stays_through(l, known, answers, record, 29, 42, "account"@);
        lemma_under(
            record[42],
            "account"@,
            "account,outstanding,output_units"@,
            "account,account,outstanding,output_units"@,
        );
        saw_num(l, known, answers, record, 42, 4096);
    }
    assert(at(
            at(told(record, 26), "value,controller_accounting"@),
            "account,outstanding,artifact_bytes"@,
        )
            == Tree::Integer(16777216)) by {
        was_kept(l, known, answers, record, 28);
        was_told(l, known, answers, record, 27);
        lemma_under(
            record[28],
            "controlled_read"@,
            "value,controller_accounting"@,
            "controlled_read,value,controller_accounting"@,
        );
        assert(forall|j: int|
            29 <= j < 43 ==> is_check((#[trigger] l[j]).0@) || !touches(l[j].1@, "account"@));
        stays_through(l, known, answers, record, 29, 43, "account"@);
        lemma_under(
            record[43],
            "account"@,
            "account,outstanding,artifact_bytes"@,
            "account,account,outstanding,artifact_bytes"@,
        );
        saw_num(l, known, answers, record, 43, 16777216);
    }
    assert(at(
            at(told(record, 26), "value,controller_accounting"@),
            "account,settled,model_admissions"@,
        )
            == Tree::Integer(1)) by {
        was_kept(l, known, answers, record, 28);
        was_told(l, known, answers, record, 27);
        lemma_under(
            record[28],
            "controlled_read"@,
            "value,controller_accounting"@,
            "controlled_read,value,controller_accounting"@,
        );
        assert(forall|j: int|
            29 <= j < 44 ==> is_check((#[trigger] l[j]).0@) || !touches(l[j].1@, "account"@));
        stays_through(l, known, answers, record, 29, 44, "account"@);
        lemma_under(
            record[44],
            "account"@,
            "account,settled,model_admissions"@,
            "account,account,settled,model_admissions"@,
        );
        saw_num(l, known, answers, record, 44, 1);
    }
}

proof fn lemma_lost_response_kept_its_obligation_3(
    known: Tree,
    answers: Seq<(Tree, bool)>,
    record: Seq<Tree>,
)
    requires
        passed(REMOTE_UNCERTAIN@, known, answers, record),
    ensures
        key_count(
            at(at(told(record, 26), "value,controller_accounting"@), "account,reservations"@),
        )
            == 1,
{
    let l = REMOTE_UNCERTAIN@;
    reveal_strlit("1");
    reveal_strlit("account");
    reveal_strlit("reply");
    reveal_strlit("controlled_read");
    reveal_strlit("value,controller_accounting");
    reveal_strlit("controlled_read,value,controller_accounting");
    reveal_strlit("");
    reveal_strlit("run");
    reveal_strlit("node");
    reveal_strlit("attempt");
    reveal_strlit("inspected");
    reveal_strlit("invocation");
    reveal_strlit("inspected_text");
    reveal_strlit("account_text");
    reveal_strlit("words,account");
    reveal_strlit("obligation");
    reveal_strlit("account,reservations");
    reveal_strlit("account,account,reservations");
    lemma_one_digit("1"@);
    assert(number_of("1"@) == Some(1u64));
    assert("account"@.len() == 7);
    assert("reply"@.len() == 5);
    assert("controlled_read"@.len() == 15);
    assert(
        "controlled_read,value,controller_accounting"@
            =~= "controlled_read"@ + seq![','] + "value,controller_accounting"@
    );
    lemma_apart(""@, "account"@, 0);
    lemma_apart("run"@, "account"@, 0);
    lemma_apart("node"@, "account"@, 0);
    lemma_apart("attempt"@, "account"@, 1);
    lemma_apart("inspected"@, "account"@, 0);
    lemma_apart("invocation"@, "account"@, 0);
    lemma_apart("inspected_text"@, "account"@, 0);
    lemma_apart("account_text"@, "account"@, 7);
    lemma_apart("words,account"@, "account"@, 0);
    lemma_apart("obligation"@, "account"@, 0);
    assert("account,account,reservations"@ =~= "account"@ + seq![','] + "account,reservations"@);
    assert(key_count(
            at(at(told(record, 26), "value,controller_accounting"@), "account,reservations"@),
        )
            == 1) by {
        was_kept(l, known, answers, record, 28);
        was_told(l, known, answers, record, 27);
        lemma_under(
            record[28],
            "controlled_read"@,
            "value,controller_accounting"@,
            "controlled_read,value,controller_accounting"@,
        );
        assert(forall|j: int|
            29 <= j < 45 ==> is_check((#[trigger] l[j]).0@) || !touches(l[j].1@, "account"@));
        stays_through(l, known, answers, record, 29, 45, "account"@);
        lemma_under(
            record[45],
            "account"@,
            "account,reservations"@,
            "account,account,reservations"@,
        );
        saw_keys(l, known, answers, record, 45, 1);
    }
}

/// A lost response leaves the attempt uncertain with its whole obligation outstanding: the units
/// and bytes that were reserved, one admission and one reservation.
pub proof fn lost_response_kept_its_obligation(
    known: Tree,
    answers: Seq<(Tree, bool)>,
) -> (record: Seq<Tree>)
    requires
        known is Object,
        finished(REMOTE_UNCERTAIN@, known, answers),
    ensures
        passed(REMOTE_UNCERTAIN@, known, answers, record),
        REMOTE_UNCERTAIN@[17].2@ == "cli run list --limit 100"@,
        elements_with(
            items_of(at(told(record, 17), "value,items"@)),
            "workflow_id"@,
            Tree::Text("remote-uncertain-model"@),
        )
            == 1,
        REMOTE_UNCERTAIN@[33].2@ == "cli attempt inspect $child_run $attempt"@,
        at(told(record, 33), "value,uncertain"@) == Tree::Bool(true),
        REMOTE_UNCERTAIN@[26].2@ == "cli run show controlled-remote-uncertain-model"@,
        at(
            at(told(record, 26), "value,controller_accounting"@),
            "account,outstanding,input_units"@,
        )
            == Tree::Integer(65536),
        at(
            at(told(record, 26), "value,controller_accounting"@),
            "account,outstanding,output_units"@,
        )
            == Tree::Integer(4096),
        at(
            at(told(record, 26), "value,controller_accounting"@),
            "account,outstanding,artifact_bytes"@,
        )
            == Tree::Integer(16777216),
        at(
            at(told(record, 26), "value,controller_accounting"@),
            "account,settled,model_admissions"@,
        )
            == Tree::Integer(1),
        key_count(
            at(at(told(record, 26), "value,controller_accounting"@), "account,reservations"@),
        )
            == 1,
{
    let record = finished_scenarios_are_recorded(REMOTE_UNCERTAIN@, known, answers);
    lemma_lost_response_kept_its_obligation_1(known, answers, record);
    lemma_lost_response_kept_its_obligation_2(known, answers, record);
    lemma_lost_response_kept_its_obligation_3(known, answers, record);
    record
}

proof fn lemma_origins_kept_their_records_1(
    known: Tree,
    answers: Seq<(Tree, bool)>,
    record: Seq<Tree>,
)
    requires
        passed(REMOTE_CLOSE@, known, answers, record),
    ensures
        at(told(record, 2), "value,controller_accounting"@) == at(known, "uncertain_account"@),
        said(record, 7) is List && items_of(said(record, 7)).len() == 0,
        at(said(record, 10), "state"@) == Tree::Text("hot"@),
{
    let l = REMOTE_CLOSE@;
    reveal_strlit("retained");
    reveal_strlit("reply");
    reveal_strlit("value,controller_accounting");
    reveal_strlit("retained,value,controller_accounting");
    reveal_strlit("uncertain_account");
    reveal_strlit("");
    reveal_strlit("restarted");
    reveal_strlit("stored_runs");
    reveal_strlit("record");
    reveal_strlit("state");
    reveal_strlit("record,state");
    assert("retained"@.len() == 8);
    assert("reply"@.len() == 5);
    assert(
        "retained,value,controller_accounting"@
            =~= "retained"@ + seq![','] + "value,controller_accounting"@
    );
    assert("uncertain_account"@.len() == 17);
    lemma_apart(""@, "uncertain_account"@, 0);
    lemma_apart("restarted"@, "uncertain_account"@, 0);
    lemma_apart("retained"@, "uncertain_account"@, 0);
    assert("stored_runs"@.len() == 11);
    assert("record"@.len() == 6);
    assert("record,state"@ =~= "record"@ + seq![','] + "state"@);
    assert(at(told(record, 2), "value,controller_accounting"@) == at(known, "uncertain_account"@)) by {
        was_told(l, known, answers, record, 3);
        lemma_under(
            record[4],
            "retained"@,
            "value,controller_accounting"@,
            "retained,value,controller_accounting"@,
        );
        assert(forall|j: int|
            0 <= j < 4
                ==> is_check((#[trigger] l[j]).0@) || !touches(l[j].1@, "uncertain_account"@));
        stays_through(l, known, answers, record, 0, 4, "uncertain_account"@);
        saw_same(l, known, answers, record, 4);
    }
    assert(said(record, 7) is List && items_of(said(record, 7)).len() == 0) by {
        was_said(l, known, answers, record, 8);
        saw_empty(l, known, answers, record, 9);
    }
    assert(at(said(record, 10), "state"@) == Tree::Text("hot"@)) by {
        was_said(l, known, answers, record, 11);
        unchanged(l, known, answers, record, 12);
        lemma_under(record[13], "record"@, "state"@, "record,state"@);
        saw_is(l, known, answers, record, 13);
    }
}

proof fn lemma_origins_kept_their_records_2(
    known: Tree,
    answers: Seq<(Tree, bool)>,
    record: Seq<Tree>,
)
    requires
        passed(REMOTE_CLOSE@, known, answers, record),
    ensures
        at(said(record, 10), "origin_run"@) == at(at(known, "process"@), "run"@),
        at(said(record, 10), "controller_reservation"@) == Tree::Bool(true),
        at(said(record, 16), "type"@) == Tree::Text("peer_claim"@),
{
    let l = REMOTE_CLOSE@;
    reveal_strlit("record");
    reveal_strlit("reply");
    reveal_strlit("origin_run");
    reveal_strlit("record,origin_run");
    reveal_strlit("process");
    reveal_strlit("");
    reveal_strlit("restarted");
    reveal_strlit("retained");
    reveal_strlit("killed");
    reveal_strlit("stored_runs");
    reveal_strlit("run");
    reveal_strlit("process,run");
    reveal_strlit("controller_reservation");
    reveal_strlit("record,controller_reservation");
    reveal_strlit("producer");
    reveal_strlit("type");
    reveal_strlit("producer,type");
    assert("record"@.len() == 6);
    assert("reply"@.len() == 5);
    assert("record,origin_run"@ =~= "record"@ + seq![','] + "origin_run"@);
    assert("process"@.len() == 7);
    lemma_apart(""@, "process"@, 0);
    lemma_apart("restarted"@, "process"@, 0);
    lemma_apart("retained"@, "process"@, 0);
    lemma_apart("killed"@, "process"@, 0);
    lemma_apart("stored_runs"@, "process"@, 0);
    lemma_apart("record"@, "process"@, 0);
    assert("process,run"@ =~= "process"@ + seq![','] + "run"@);
    assert("record,controller_reservation"@ =~= "record"@ + seq![','] + "controller_reservation"@);
    assert("producer"@.len() == 8);
    assert("producer,type"@ =~= "producer"@ + seq![','] + "type"@);
    assert(at(said(record, 10), "origin_run"@) == at(at(known, "process"@), "run"@)) by {
        was_said(l, known, answers, record, 11);
        unchanged(l, known, answers, record, 12);
        unchanged(l, known, answers, record, 13);
        lemma_under(record[14], "record"@, "origin_run"@, "record,origin_run"@);
        assert(forall|j: int|
            0 <= j < 14 ==> is_check((#[trigger] l[j]).0@) || !touches(l[j].1@, "process"@));
        stays_through(l, known, answers, record, 0, 14, "process"@);
        lemma_under(record[14], "process"@, "run"@, "process,run"@);
        saw_same(l, known, answers, record, 14);
    }
    assert(at(said(record, 10), "controller_reservation"@) == Tree::Bool(true)) by {
        was_said(l, known, answers, record, 11);
        unchanged(l, known, answers, record, 12);
        unchanged(l, known, answers, record, 13);
        unchanged(l, known, answers, record, 14);
        lemma_under(
            record[15],
            "record"@,
            "controller_reservation"@,
            "record,controller_reservation"@,
        );
        saw_true(l, known, answers, record, 15);
    }
    assert(at(said(record, 16), "type"@) == Tree::Text("peer_claim"@)) by {
        was_said(l, known, answers, record, 17);
        unchanged(l, known, answers, record, 18);
        lemma_under(record[19], "producer"@, "type"@, "producer,type"@);
        saw_is(l, known, answers, record, 19);
    }
}

proof fn lemma_origins_kept_their_records_3(
    known: Tree,
    answers: Seq<(Tree, bool)>,
    record: Seq<Tree>,
)
    requires
        passed(REMOTE_CLOSE@, known, answers, record),
    ensures
        at(said(record, 16), "peer"@) == Tree::Text("independent-evidence-host"@),
        at(said(record, 16), "reference"@) == Tree::Text("host_invocation"@),
        at(said(record, 22), "state"@) == Tree::Text("hot"@),
{
    let l = REMOTE_CLOSE@;
    reveal_strlit("producer");
    reveal_strlit("reply");
    reveal_strlit("peer");
    reveal_strlit("producer,peer");
    reveal_strlit("reference");
    reveal_strlit("producer,reference");
    reveal_strlit("record");
    reveal_strlit("state");
    reveal_strlit("record,state");
    assert("producer"@.len() == 8);
    assert("reply"@.len() == 5);
    assert("producer,peer"@ =~= "producer"@ + seq![','] + "peer"@);
    assert("producer,reference"@ =~= "producer"@ + seq![','] + "reference"@);
    assert("record"@.len() == 6);
    assert("record,state"@ =~= "record"@ + seq![','] + "state"@);
    assert(at(said(record, 16), "peer"@) == Tree::Text("independent-evidence-host"@)) by {
        was_said(l, known, answers, record, 17);
        unchanged(l, known, answers, record, 18);
        unchanged(l, known, answers, record, 19);
        lemma_under(record[20], "producer"@, "peer"@, "producer,peer"@);
        saw_is(l, known, answers, record, 20);
    }
    assert(at(said(record, 16), "reference"@) == Tree::Text("host_invocation"@)) by {
        was_said(l, known, answers, record, 17);
        unchanged(l, known, answers, record, 18);
        unchanged(l, known, answers, record, 19);
        unchanged(l, known, answers, record, 20);
        lemma_under(record[21], "producer"@, "reference"@, "producer,reference"@);
        saw_is(l, known, answers, record, 21);
    }
    assert(at(said(record, 22), "state"@) == Tree::Text("hot"@)) by {
        was_said(l, known, answers, record, 23);
        unchanged(l, known, answers, record, 24);
        lemma_under(record[25], "record"@, "state"@, "record,state"@);
        saw_is(l, known, answers, record, 25);
    }
}

proof fn lemma_origins_kept_their_records_4(
    known: Tree,
    answers: Seq<(Tree, bool)>,
    record: Seq<Tree>,
)
    requires
        passed(REMOTE_CLOSE@, known, answers, record),
    ensures
        at(said(record, 22), "origin_run"@) == at(at(known, "model"@), "run"@),
        at(said(record, 22), "controller_reservation"@) == Tree::Bool(true),
        at(said(record, 28), "type"@) == Tree::Text("peer_claim"@),
{
    let l = REMOTE_CLOSE@;
    reveal_strlit("record");
    reveal_strlit("reply");
    reveal_strlit("origin_run");
    reveal_strlit("record,origin_run");
    reveal_strlit("model");
    reveal_strlit("");
    reveal_strlit("restarted");
    reveal_strlit("retained");
    reveal_strlit("killed");
    reveal_strlit("stored_runs");
    reveal_strlit("producer");
    reveal_strlit("run");
    reveal_strlit("model,run");
    reveal_strlit("controller_reservation");
    reveal_strlit("record,controller_reservation");
    reveal_strlit("type");
    reveal_strlit("producer,type");
    assert("record"@.len() == 6);
    assert("reply"@.len() == 5);
    assert("record,origin_run"@ =~= "record"@ + seq![','] + "origin_run"@);
    assert("model"@[0] != "reply"@[0]);
    lemma_apart(""@, "model"@, 0);
    lemma_apart("restarted"@, "model"@, 0);
    lemma_apart("retained"@, "model"@, 0);
    lemma_apart("killed"@, "model"@, 0);
    lemma_apart("stored_runs"@, "model"@, 0);
    lemma_apart("record"@, "model"@, 0);
    lemma_apart("producer"@, "model"@, 0);
    assert("model,run"@ =~= "model"@ + seq![','] + "run"@);
    assert("record,controller_reservation"@ =~= "record"@ + seq![','] + "controller_reservation"@);
    assert("producer"@.len() == 8);
    assert("producer,type"@ =~= "producer"@ + seq![','] + "type"@);
    assert(at(said(record, 22), "origin_run"@) == at(at(known, "model"@), "run"@)) by {
        was_said(l, known, answers, record, 23);
        unchanged(l, known, answers, record, 24);
        unchanged(l, known, answers, record, 25);
        lemma_under(record[26], "record"@, "origin_run"@, "record,origin_run"@);
        assert(forall|j: int|
            0 <= j < 26 ==> is_check((#[trigger] l[j]).0@) || !touches(l[j].1@, "model"@));
        stays_through(l, known, answers, record, 0, 26, "model"@);
        lemma_under(record[26], "model"@, "run"@, "model,run"@);
        saw_same(l, known, answers, record, 26);
    }
    assert(at(said(record, 22), "controller_reservation"@) == Tree::Bool(true)) by {
        was_said(l, known, answers, record, 23);
        unchanged(l, known, answers, record, 24);
        unchanged(l, known, answers, record, 25);
        unchanged(l, known, answers, record, 26);
        lemma_under(
            record[27],
            "record"@,
            "controller_reservation"@,
            "record,controller_reservation"@,
        );
        saw_true(l, known, answers, record, 27);
    }
    assert(at(said(record, 28), "type"@) == Tree::Text("peer_claim"@)) by {
        was_said(l, known, answers, record, 29);
        unchanged(l, known, answers, record, 30);
        lemma_under(record[31], "producer"@, "type"@, "producer,type"@);
        saw_is(l, known, answers, record, 31);
    }
}

proof fn lemma_origins_kept_their_records_5(
    known: Tree,
    answers: Seq<(Tree, bool)>,
    record: Seq<Tree>,
)
    requires
        passed(REMOTE_CLOSE@, known, answers, record),
    ensures
        at(said(record, 28), "peer"@) == Tree::Text("independent-evidence-host"@),
        at(said(record, 28), "reference"@) == Tree::Text("host_invocation"@),
        at(said(record, 34), "state"@) == Tree::Text("hot"@),
{
    let l = REMOTE_CLOSE@;
    reveal_strlit("producer");
    reveal_strlit("reply");
    reveal_strlit("peer");
    reveal_strlit("producer,peer");
    reveal_strlit("reference");
    reveal_strlit("producer,reference");
    reveal_strlit("record");
    reveal_strlit("state");
    reveal_strlit("record,state");
    assert("producer"@.len() == 8);
    assert("reply"@.len() == 5);
    assert("producer,peer"@ =~= "producer"@ + seq![','] + "peer"@);
    assert("producer,reference"@ =~= "producer"@ + seq![','] + "reference"@);
    assert("record"@.len() == 6);
    assert("record,state"@ =~= "record"@ + seq![','] + "state"@);
    assert(at(said(record, 28), "peer"@) == Tree::Text("independent-evidence-host"@)) by {
        was_said(l, known, answers, record, 29);
        unchanged(l, known, answers, record, 30);
        unchanged(l, known, answers, record, 31);
        lemma_under(record[32], "producer"@, "peer"@, "producer,peer"@);
        saw_is(l, known, answers, record, 32);
    }
    assert(at(said(record, 28), "reference"@) == Tree::Text("host_invocation"@)) by {
        was_said(l, known, answers, record, 29);
        unchanged(l, known, answers, record, 30);
        unchanged(l, known, answers, record, 31);
        unchanged(l, known, answers, record, 32);
        lemma_under(record[33], "producer"@, "reference"@, "producer,reference"@);
        saw_is(l, known, answers, record, 33);
    }
    assert(at(said(record, 34), "state"@) == Tree::Text("hot"@)) by {
        was_said(l, known, answers, record, 35);
        unchanged(l, known, answers, record, 36);
        lemma_under(record[37], "record"@, "state"@, "record,state"@);
        saw_is(l, known, answers, record, 37);
    }
}

proof fn lemma_origins_kept_their_records_6(
    known: Tree,
    answers: Seq<(Tree, bool)>,
    record: Seq<Tree>,
)
    requires
        passed(REMOTE_CLOSE@, known, answers, record),
    ensures
        at(said(record, 34), "origin_run"@) == at(at(known, "uncertain_model"@), "run"@),
        at(said(record, 34), "controller_reservation"@) == Tree::Bool(true),
{
    let l = REMOTE_CLOSE@;
    reveal_strlit("record");
    reveal_strlit("reply");
    reveal_strlit("origin_run");
    reveal_strlit("record,origin_run");
    reveal_strlit("uncertain_model");
    reveal_strlit("");
    reveal_strlit("restarted");
    reveal_strlit("retained");
    reveal_strlit("killed");
    reveal_strlit("stored_runs");
    reveal_strlit("producer");
    reveal_strlit("run");
    reveal_strlit("uncertain_model,run");
    reveal_strlit("controller_reservation");
    reveal_strlit("record,controller_reservation");
    assert("record"@.len() == 6);
    assert("reply"@.len() == 5);
    assert("record,origin_run"@ =~= "record"@ + seq![','] + "origin_run"@);
    assert("uncertain_model"@.len() == 15);
    lemma_apart(""@, "uncertain_model"@, 0);
    lemma_apart("restarted"@, "uncertain_model"@, 0);
    lemma_apart("retained"@, "uncertain_model"@, 0);
    lemma_apart("killed"@, "uncertain_model"@, 0);
    lemma_apart("stored_runs"@, "uncertain_model"@, 0);
    lemma_apart("record"@, "uncertain_model"@, 0);
    lemma_apart("producer"@, "uncertain_model"@, 0);
    assert("uncertain_model,run"@ =~= "uncertain_model"@ + seq![','] + "run"@);
    assert("record,controller_reservation"@ =~= "record"@ + seq![','] + "controller_reservation"@);
    assert(at(said(record, 34), "origin_run"@) == at(at(known, "uncertain_model"@), "run"@)) by {
        was_said(l, known, answers, record, 35);
        unchanged(l, known, answers, record, 36);
        unchanged(l, known, answers, record, 37);
        lemma_under(record[38], "record"@, "origin_run"@, "record,origin_run"@);
        assert(forall|j: int|
            0 <= j < 38
                ==> is_check((#[trigger] l[j]).0@) || !touches(l[j].1@, "uncertain_model"@));
        stays_through(l, known, answers, record, 0, 38, "uncertain_model"@);
        lemma_under(record[38], "uncertain_model"@, "run"@, "uncertain_model,run"@);
        saw_same(l, known, answers, record, 38);
    }
    assert(at(said(record, 34), "controller_reservation"@) == Tree::Bool(true)) by {
        was_said(l, known, answers, record, 35);
        unchanged(l, known, answers, record, 36);
        unchanged(l, known, answers, record, 37);
        unchanged(l, known, answers, record, 38);
        lemma_under(
            record[39],
            "record"@,
            "controller_reservation"@,
            "record,controller_reservation"@,
        );
        saw_true(l, known, answers, record, 39);
    }
}

/// Remote serving finishes only where a restart kept the account of the unknown usage, the serving
/// host holds no runs of its own, each of the three acceptances is still live and keeps its real
/// origin and its reservation, and each imported output names the authenticated serving host.
pub proof fn origins_kept_their_records(
    known: Tree,
    answers: Seq<(Tree, bool)>,
) -> (record: Seq<Tree>)
    requires
        known is Object,
        finished(REMOTE_CLOSE@, known, answers),
    ensures
        passed(REMOTE_CLOSE@, known, answers, record),
        REMOTE_CLOSE@[2].2@ == "cli run show controlled-remote-uncertain-model"@,
        at(told(record, 2), "value,controller_accounting"@) == at(known, "uncertain_account"@),
        REMOTE_CLOSE@[7].2@ == "store serving-runs"@,
        said(record, 7) is List && items_of(said(record, 7)).len() == 0,
        REMOTE_CLOSE@[10].2@ == "store acceptance $process,invocation"@,
        at(said(record, 10), "state"@) == Tree::Text("hot"@),
        at(said(record, 10), "origin_run"@) == at(at(known, "process"@), "run"@),
        at(said(record, 10), "controller_reservation"@) == Tree::Bool(true),
        REMOTE_CLOSE@[16].2@ == "store origin-producer $process,artifact"@,
        at(said(record, 16), "type"@) == Tree::Text("peer_claim"@),
        at(said(record, 16), "peer"@) == Tree::Text("independent-evidence-host"@),
        at(said(record, 16), "reference"@) == Tree::Text("host_invocation"@),
        REMOTE_CLOSE@[22].2@ == "store acceptance $model,invocation"@,
        at(said(record, 22), "state"@) == Tree::Text("hot"@),
        at(said(record, 22), "origin_run"@) == at(at(known, "model"@), "run"@),
        at(said(record, 22), "controller_reservation"@) == Tree::Bool(true),
        REMOTE_CLOSE@[28].2@ == "store origin-producer $model,artifact"@,
        at(said(record, 28), "type"@) == Tree::Text("peer_claim"@),
        at(said(record, 28), "peer"@) == Tree::Text("independent-evidence-host"@),
        at(said(record, 28), "reference"@) == Tree::Text("host_invocation"@),
        REMOTE_CLOSE@[34].2@ == "store acceptance $uncertain_model,invocation"@,
        at(said(record, 34), "state"@) == Tree::Text("hot"@),
        at(said(record, 34), "origin_run"@) == at(at(known, "uncertain_model"@), "run"@),
        at(said(record, 34), "controller_reservation"@) == Tree::Bool(true),
{
    let record = finished_scenarios_are_recorded(REMOTE_CLOSE@, known, answers);
    lemma_origins_kept_their_records_1(known, answers, record);
    lemma_origins_kept_their_records_2(known, answers, record);
    lemma_origins_kept_their_records_3(known, answers, record);
    lemma_origins_kept_their_records_4(known, answers, record);
    lemma_origins_kept_their_records_5(known, answers, record);
    lemma_origins_kept_their_records_6(known, answers, record);
    record
}

/// A remote step whose wait failed is refused, whatever the run, its attempt and the serving host
/// show.
pub proof fn lost_steps_never_finish(known: Tree, answers: Seq<(Tree, bool)>)
    requires
        known is Object,
    ensures
        !finished(REMOTE_LOST@, known, answers),
{
    if finished(REMOTE_LOST@, known, answers) {
        let l = REMOTE_LOST@;
        let record = finished_scenarios_are_recorded(l, known, answers);
        reveal_strlit("true");
        reveal_strlit("false");
        reveal_strlit("mark");
        was_marked(l, known, answers, record, 22, false);
        saw_true(l, known, answers, record, 23);
    }
}

} // verus!
