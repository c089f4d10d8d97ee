//! What finished exercises of the installed client have shown.

use vstd::prelude::*;

use crate::findings::{
    awaited_text, is_below, is_check, is_positive, items_of, lemma_apart, lemma_four_words,
    lemma_judged_is, lemma_judged_isnot, lemma_next_digit, lemma_one_digit, lemma_one_word,
    lemma_three_words, lemma_two_words, lemma_under, said, saw_ascending, saw_below, saw_either,
    saw_false, saw_is, saw_len, saw_num, saw_object, saw_positive, saw_same, saw_true, saw_typed,
    stays, stays_through, told, touches, unchanged, was_awaited, was_kept, was_passed_over,
    was_said, was_told,
};
use crate::harness::typed_problem;
use crate::json::{at, Tree};
use crate::record::{finished, finished_scenarios_are_recorded, passed};
use crate::scenario::{all_ascend, number_of, parts, reply_diagnostic};
use crate::scripts::headless::{HEADLESS, MODEL_EXAMPLE, STARTER};

verus! {

proof fn lemma_client_was_exercised_1(known: Tree, answers: Seq<(Tree, bool)>, record: Seq<Tree>)
    requires
        passed(HEADLESS@, known, answers, record),
    ensures
        at(told(record, 6), "value,items"@) == at(told(record, 16), "value,items"@),
        at(told(record, 21), "value,result_type"@) == Tree::Text("blueprint_valid"@),
        at(told(record, 26), "value,value,revision_id"@) == at(at(known, "primary"@), "id"@),
        at(told(record, 30), "value,replayed"@) == Tree::Bool(true),
{
    let l = HEADLESS@;
    reveal_strlit("initial");
    reveal_strlit("reply");
    reveal_strlit("");
    reveal_strlit("written");
    reveal_strlit("after_invalid");
    reveal_strlit("value,items");
    reveal_strlit("initial,value,items");
    reveal_strlit("after_invalid,value,items");
    reveal_strlit("validated");
    reveal_strlit("value,result_type");
    reveal_strlit("validated,value,result_type");
    reveal_strlit("revision");
    reveal_strlit("imported");
    reveal_strlit("value,value,revision_id");
    reveal_strlit("imported,value,value,revision_id");
    reveal_strlit("primary");
    reveal_strlit("ready");
    reveal_strlit("authority");
    reveal_strlit("id");
    reveal_strlit("primary,id");
    reveal_strlit("replay");
    reveal_strlit("value,replayed");
    reveal_strlit("replay,value,replayed");
    assert("initial"@.len() == 7);
    assert("reply"@.len() == 5);
    lemma_apart(""@, "initial"@, 0);
    lemma_apart("written"@, "initial"@, 0);
    lemma_apart("after_invalid"@, "initial"@, 0);
    assert("initial,value,items"@ =~= "initial"@ + seq![','] + "value,items"@);
    assert("after_invalid"@.len() == 13);
    assert("after_invalid,value,items"@ =~= "after_invalid"@ + seq![','] + "value,items"@);
    assert("validated"@.len() == 9);
    assert("validated,value,result_type"@ =~= "validated"@ + seq![','] + "value,result_type"@);
    assert("revision"@.len() == 8);
    assert("imported"@.len() == 8);
    assert(
        "imported,value,value,revision_id"@
            =~= "imported"@ + seq![','] + "value,value,revision_id"@
    );
    assert("primary"@.len() == 7);
    lemma_apart(""@, "primary"@, 0);
    lemma_apart("ready"@, "primary"@, 0);
    lemma_apart("authority"@, "primary"@, 0);
    lemma_apart("initial"@, "primary"@, 0);
    lemma_apart("written"@, "primary"@, 0);
    lemma_apart("after_invalid"@, "primary"@, 0);
    lemma_apart("validated"@, "primary"@, 0);
    lemma_apart("imported"@, "primary"@, 0);
    lemma_apart("revision"@, "primary"@, 0);
    assert("primary,id"@ =~= "primary"@ + seq![','] + "id"@);
    assert("replay"@.len() == 6);
    assert("replay,value,replayed"@ =~= "replay"@ + seq![','] + "value,replayed"@);
    assert(at(told(record, 6), "value,items"@) == at(told(record, 16), "value,items"@)) by {
        was_told(l, known, answers, record, 7);
        assert(forall|j: int|
            8 <= j < 18 ==> is_check((#[trigger] l[j]).0@) || !touches(l[j].1@, "initial"@));
        stays_through(l, known, answers, record, 8, 18, "initial"@);
        lemma_under(record[18], "initial"@, "value,items"@, "initial,value,items"@);
        was_told(l, known, answers, record, 17);
        lemma_under(record[18], "after_invalid"@, "value,items"@, "after_invalid,value,items"@);
        saw_same(l, known, answers, record, 18);
    }
    assert(at(told(record, 21), "value,result_type"@) == Tree::Text("blueprint_valid"@)) by {
        was_told(l, known, answers, record, 22);
        lemma_under(record[23], "validated"@, "value,result_type"@, "validated,value,result_type"@);
        saw_is(l, known, answers, record, 23);
    }
    assert(at(told(record, 26), "value,value,revision_id"@) == at(at(known, "primary"@), "id"@)) by {
        was_kept(l, known, answers, record, 28);
        was_told(l, known, answers, record, 27);
        lemma_under(
            record[28],
            "imported"@,
            "value,value,revision_id"@,
            "imported,value,value,revision_id"@,
        );
        assert(forall|j: int|
            0 <= j < 29 ==> is_check((#[trigger] l[j]).0@) || !touches(l[j].1@, "primary"@));
        stays_through(l, known, answers, record, 0, 29, "primary"@);
        lemma_under(record[29], "primary"@, "id"@, "primary,id"@);
        saw_same(l, known, answers, record, 29);
    }
    assert(at(told(record, 30), "value,replayed"@) == Tree::Bool(true)) by {
        was_told(l, known, answers, record, 31);
        lemma_under(record[32], "replay"@, "value,replayed"@, "replay,value,replayed"@);
        saw_true(l, known, answers, record, 32);
    }
}

proof fn lemma_client_was_exercised_2(known: Tree, answers: Seq<(Tree, bool)>, record: Seq<Tree>)
    requires
        passed(HEADLESS@, known, answers, record),
    ensures
        at(at(record[38], "reply"@), "exit"@) == Tree::Integer(0),
        at(at(record[38], "reply"@), "stdout"@) == at(at(known, "primary"@), "text"@),
        said(record, 42) == at(at(known, "primary"@), "text"@),
        at(told(record, 47), "value,command_id"@) == at(told(record, 49), "value,command_id"@),
{
    let l = HEADLESS@;
    reveal_strlit("0");
    reveal_strlit("reply");
    reveal_strlit("exit");
    reveal_strlit("reply,exit");
    reveal_strlit("stdout");
    reveal_strlit("reply,stdout");
    reveal_strlit("primary");
    reveal_strlit("");
    reveal_strlit("ready");
    reveal_strlit("authority");
    reveal_strlit("initial");
    reveal_strlit("written");
    reveal_strlit("after_invalid");
    reveal_strlit("validated");
    reveal_strlit("imported");
    reveal_strlit("revision");
    reveal_strlit("replay");
    reveal_strlit("text");
    reveal_strlit("primary,text");
    reveal_strlit("exported");
    reveal_strlit("started");
    reveal_strlit("start_replay");
    reveal_strlit("value,command_id");
    reveal_strlit("started,value,command_id");
    reveal_strlit("start_replay,value,command_id");
    lemma_one_digit("0"@);
    assert(number_of("0"@) == Some(0u64));
    assert("reply,exit"@ =~= "reply"@ + seq![','] + "exit"@);
    assert("reply,stdout"@ =~= "reply"@ + seq![','] + "stdout"@);
    assert("primary"@.len() == 7);
    assert("reply"@.len() == 5);
    lemma_apart(""@, "primary"@, 0);
    lemma_apart("ready"@, "primary"@, 0);
    lemma_apart("authority"@, "primary"@, 0);
    lemma_apart("initial"@, "primary"@, 0);
    lemma_apart("written"@, "primary"@, 0);
    lemma_apart("after_invalid"@, "primary"@, 0);
    lemma_apart("validated"@, "primary"@, 0);
    lemma_apart("imported"@, "primary"@, 0);
    lemma_apart("revision"@, "primary"@, 0);
    lemma_apart("replay"@, "primary"@, 0);
    assert("primary,text"@ =~= "primary"@ + seq![','] + "text"@);
    assert("exported"@.len() == 8);
    lemma_apart("exported"@, "primary"@, 0);
    assert("started"@.len() == 7);
    lemma_apart(""@, "started"@, 0);
    lemma_apart("start_replay"@, "started"@, 5);
    assert("started,value,command_id"@ =~= "started"@ + seq![','] + "value,command_id"@);
    assert("start_replay"@.len() == 12);
    assert("start_replay,value,command_id"@ =~= "start_replay"@ + seq![','] + "value,command_id"@);
    assert(at(at(record[38], "reply"@), "exit"@) == Tree::Integer(0)) by {
        lemma_under(record[38], "reply"@, "exit"@, "reply,exit"@);
        saw_num(l, known, answers, record, 38, 0);
    }
    assert(at(at(record[38], "reply"@), "stdout"@) == at(at(known, "primary"@), "text"@)) by {
        unchanged(l, known, answers, record, 38);
        lemma_under(record[39], "reply"@, "stdout"@, "reply,stdout"@);
        assert(forall|j: int|
            0 <= j < 39 ==> is_check((#[trigger] l[j]).0@) || !touches(l[j].1@, "primary"@));
        stays_through(l, known, answers, record, 0, 39, "primary"@);
        lemma_under(record[39], "primary"@, "text"@, "primary,text"@);
        saw_same(l, known, answers, record, 39);
    }
    assert(said(record, 42) == at(at(known, "primary"@), "text"@)) by {
        was_said(l, known, answers, record, 43);
        assert(forall|j: int|
            0 <= j < 44 ==> is_check((#[trigger] l[j]).0@) || !touches(l[j].1@, "primary"@));
        stays_through(l, known, answers, record, 0, 44, "primary"@);
        lemma_under(record[44], "primary"@, "text"@, "primary,text"@);
        saw_same(l, known, answers, record, 44);
    }
    assert(at(told(record, 47), "value,command_id"@) == at(told(record, 49), "value,command_id"@)) by {
        was_told(l, known, answers, record, 48);
        stays(l, known, answers, record, 49, "started"@);
        stays(l, known, answers, record, 50, "started"@);
        lemma_under(record[51], "started"@, "value,command_id"@, "started,value,command_id"@);
        was_told(l, known, answers, record, 50);
        lemma_under(
            record[51],
            "start_replay"@,
            "value,command_id"@,
            "start_replay,value,command_id"@,
        );
        saw_same(l, known, answers, record, 51);
    }
}

proof fn lemma_client_was_exercised_3(known: Tree, answers: Seq<(Tree, bool)>, record: Seq<Tree>)
    requires
        passed(HEADLESS@, known, answers, record),
    ensures
        at(told(record, 49), "value,replayed"@) == Tree::Bool(true),
        at(told(record, 60), "value,lifecycle"@) == Tree::Text("paused"@),
        at(told(record, 102), "value,terminal"@) == Tree::Text("succeeded"@),
        at(told(record, 109), "value,digest"@)
            == at(at(record[105], "output"@), "artifact,digest"@),
{
    let l = HEADLESS@;
    reveal_strlit("start_replay");
    reveal_strlit("reply");
    reveal_strlit("value,replayed");
    reveal_strlit("start_replay,value,replayed");
    reveal_strlit("paused");
    reveal_strlit("value,lifecycle");
    reveal_strlit("paused,value,lifecycle");
    reveal_strlit("until");
    reveal_strlit("or");
    reveal_strlit("completed");
    reveal_strlit("is");
    reveal_strlit("completed,value,terminal");
    reveal_strlit("succeeded");
    reveal_strlit("is completed,value,terminal succeeded");
    reveal_strlit("value,terminal");
    reveal_strlit("metadata");
    reveal_strlit("value,digest");
    reveal_strlit("metadata,value,digest");
    reveal_strlit("artifact_digest");
    reveal_strlit("output");
    reveal_strlit("artifact_id");
    reveal_strlit("artifact,digest");
    reveal_strlit("output,artifact,digest");
    reveal_strlit("artifact_size");
    reveal_strlit("");
    assert("start_replay"@.len() == 12);
    assert("reply"@.len() == 5);
    assert("start_replay,value,replayed"@ =~= "start_replay"@ + seq![','] + "value,replayed"@);
    assert("paused"@.len() == 6);
    assert("paused,value,lifecycle"@ =~= "paused"@ + seq![','] + "value,lifecycle"@);
    assert("completed"@.len() == 9);
    assert(
        "is completed,value,terminal succeeded"@
            =~= "is"@ + seq![' '] + "completed,value,terminal"@ + seq![' '] + "succeeded"@
    );
    lemma_three_words(
        "is"@,
        "completed,value,terminal"@,
        "succeeded"@,
        "is completed,value,terminal succeeded"@,
    );
    assert("completed,value,terminal"@.len() == 24);
    assert("succeeded"@.len() == 9);
    assert("or"@.len() == 2);
    assert("completed,value,terminal"@ =~= "completed"@ + seq![','] + "value,terminal"@);
    assert("metadata"@.len() == 8);
    assert("metadata,value,digest"@ =~= "metadata"@ + seq![','] + "value,digest"@);
    assert("artifact_digest"@.len() == 15);
    assert("output"@.len() == 6);
    lemma_apart("artifact_id"@, "output"@, 0);
    assert("output,artifact,digest"@ =~= "output"@ + seq![','] + "artifact,digest"@);
    lemma_apart("artifact_size"@, "artifact_digest"@, 9);
    lemma_apart(""@, "artifact_digest"@, 0);
    lemma_apart("metadata"@, "artifact_digest"@, 0);
    assert(at(told(record, 49), "value,replayed"@) == Tree::Bool(true)) by {
        was_told(l, known, answers, record, 50);
        unchanged(l, known, answers, record, 51);
        lemma_under(record[52], "start_replay"@, "value,replayed"@, "start_replay,value,replayed"@);
        saw_true(l, known, answers, record, 52);
    }
    assert(at(told(record, 60), "value,lifecycle"@) == Tree::Text("paused"@)) by {
        was_told(l, known, answers, record, 61);
        lemma_under(record[62], "paused"@, "value,lifecycle"@, "paused,value,lifecycle"@);
        saw_is(l, known, answers, record, 62);
    }
    assert(at(told(record, 102), "value,terminal"@) == Tree::Text("succeeded"@)) by {
        was_awaited(l, known, answers, record, 102);
        awaited_text(
            l,
            known,
            answers,
            record,
            102,
            103,
            "completed,value,terminal"@,
            "succeeded"@,
        );
        lemma_under(record[103], "completed"@, "value,terminal"@, "completed,value,terminal"@);
    }
    assert(at(told(record, 109), "value,digest"@)
            == at(at(record[105], "output"@), "artifact,digest"@)) by {
        was_told(l, known, answers, record, 110);
        lemma_under(record[111], "metadata"@, "value,digest"@, "metadata,value,digest"@);
        was_kept(l, known, answers, record, 107);
        unchanged(l, known, answers, record, 105);
        stays(l, known, answers, record, 106, "output"@);
        lemma_under(record[107], "output"@, "artifact,digest"@, "output,artifact,digest"@);
        assert(forall|j: int|
            108 <= j < 111
                ==> is_check((#[trigger] l[j]).0@) || !touches(l[j].1@, "artifact_digest"@));
        stays_through(l, known, answers, record, 108, 111, "artifact_digest"@);
        saw_same(l, known, answers, record, 111);
    }
}

proof fn lemma_client_was_exercised_4(known: Tree, answers: Seq<(Tree, bool)>, record: Seq<Tree>)
    requires
        passed(HEADLESS@, known, answers, record),
    ensures
        at(told(record, 109), "value,size"@) == at(at(record[105], "output"@), "artifact,size"@),
        at(said(record, 115), "size"@) == at(at(record[105], "output"@), "artifact,size"@),
        at(said(record, 115), "digest"@) == at(at(record[105], "output"@), "artifact,digest"@),
        at(told(record, 148), "value,uncertain"@) == Tree::Bool(true),
{
    let l = HEADLESS@;
    reveal_strlit("metadata");
    reveal_strlit("reply");
    reveal_strlit("value,size");
    reveal_strlit("metadata,value,size");
    reveal_strlit("artifact_size");
    reveal_strlit("output");
    reveal_strlit("artifact_id");
    reveal_strlit("artifact_digest");
    reveal_strlit("artifact,size");
    reveal_strlit("output,artifact,size");
    reveal_strlit("");
    reveal_strlit("downloaded");
    reveal_strlit("size");
    reveal_strlit("downloaded,size");
    reveal_strlit("digest");
    reveal_strlit("downloaded,digest");
    reveal_strlit("artifact,digest");
    reveal_strlit("output,artifact,digest");
    reveal_strlit("retained");
    reveal_strlit("value,uncertain");
    reveal_strlit("retained,value,uncertain");
    assert("metadata"@.len() == 8);
    assert("reply"@.len() == 5);
    assert("metadata,value,size"@ =~= "metadata"@ + seq![','] + "value,size"@);
    assert("artifact_size"@.len() == 13);
    assert("output"@.len() == 6);
    lemma_apart("artifact_id"@, "output"@, 0);
    lemma_apart("artifact_digest"@, "output"@, 0);
    assert("output,artifact,size"@ =~= "output"@ + seq![','] + "artifact,size"@);
    lemma_apart(""@, "artifact_size"@, 0);
    lemma_apart("metadata"@, "artifact_size"@, 0);
    assert("downloaded"@.len() == 10);
    assert("downloaded,size"@ =~= "downloaded"@ + seq![','] + "size"@);
    lemma_apart("downloaded"@, "artifact_size"@, 0);
    assert("downloaded,digest"@ =~= "downloaded"@ + seq![','] + "digest"@);
    assert("artifact_digest"@.len() == 15);
    assert("output,artifact,digest"@ =~= "output"@ + seq![','] + "artifact,digest"@);
    lemma_apart("artifact_size"@, "artifact_digest"@, 9);
    lemma_apart(""@, "artifact_digest"@, 0);
    lemma_apart("metadata"@, "artifact_digest"@, 0);
    lemma_apart("downloaded"@, "artifact_digest"@, 0);
    assert("retained"@.len() == 8);
    assert("retained,value,uncertain"@ =~= "retained"@ + seq![','] + "value,uncertain"@);
    assert(at(told(record, 109), "value,size"@) == at(at(record[105], "output"@), "artifact,size"@)) by {
        was_told(l, known, answers, record, 110);
        unchanged(l, known, answers, record, 111);
        lemma_under(record[112], "metadata"@, "value,size"@, "metadata,value,size"@);
        was_kept(l, known, answers, record, 108);
        assert(forall|j: int|
            105 <= j < 108 ==> is_check((#[trigger] l[j]).0@) || !touches(l[j].1@, "output"@));
        stays_through(l, known, answers, record, 105, 108, "output"@);
        lemma_under(record[108], "output"@, "artifact,size"@, "output,artifact,size"@);
        assert(forall|j: int|
            109 <= j < 112
                ==> is_check((#[trigger] l[j]).0@) || !touches(l[j].1@, "artifact_size"@));
        stays_through(l, known, answers, record, 109, 112, "artifact_size"@);
        saw_same(l, known, answers, record, 112);
    }
    assert(at(said(record, 115), "size"@) == at(at(record[105], "output"@), "artifact,size"@)) by {
        was_said(l, known, answers, record, 116);
        lemma_under(record[117], "downloaded"@, "size"@, "downloaded,size"@);
        was_kept(l, known, answers, record, 108);
        assert(forall|j: int|
            105 <= j < 108 ==> is_check((#[trigger] l[j]).0@) || !touches(l[j].1@, "output"@));
        stays_through(l, known, answers, record, 105, 108, "output"@);
        lemma_under(record[108], "output"@, "artifact,size"@, "output,artifact,size"@);
        assert(forall|j: int|
            109 <= j < 117
                ==> is_check((#[trigger] l[j]).0@) || !touches(l[j].1@, "artifact_size"@));
        stays_through(l, known, answers, record, 109, 117, "artifact_size"@);
        saw_same(l, known, answers, record, 117);
    }
    assert(at(said(record, 115), "digest"@) == at(at(record[105], "output"@), "artifact,digest"@)) by {
        was_said(l, known, answers, record, 116);
        unchanged(l, known, answers, record, 117);
        lemma_under(record[118], "downloaded"@, "digest"@, "downloaded,digest"@);
        was_kept(l, known, answers, record, 107);
        unchanged(l, known, answers, record, 105);
        stays(l, known, answers, record, 106, "output"@);
        lemma_under(record[107], "output"@, "artifact,digest"@, "output,artifact,digest"@);
        assert(forall|j: int|
            108 <= j < 118
                ==> is_check((#[trigger] l[j]).0@) || !touches(l[j].1@, "artifact_digest"@));
        stays_through(l, known, answers, record, 108, 118, "artifact_digest"@);
        saw_same(l, known, answers, record, 118);
    }
    assert(at(told(record, 148), "value,uncertain"@) == Tree::Bool(true)) by {
        was_told(l, known, answers, record, 149);
        lemma_under(record[150], "retained"@, "value,uncertain"@, "retained,value,uncertain"@);
        saw_true(l, known, answers, record, 150);
    }
}

proof fn lemma_client_was_exercised_5(known: Tree, answers: Seq<(Tree, bool)>, record: Seq<Tree>)
    requires
        passed(HEADLESS@, known, answers, record),
    ensures
        typed_problem(reply_diagnostic(at(record[5], "reply"@)), 3, "authorization"@, Some("unauthenticated"@)) is None,
        typed_problem(reply_diagnostic(at(record[11], "reply"@)), 7, "daemon_api"@, Some("invalid_input"@)) is None,
        typed_problem(reply_diagnostic(at(record[15], "reply"@)), 2, "invalid_input"@, None) is None,
        typed_problem(reply_diagnostic(at(record[25], "reply"@)), 6, "not_found"@, Some("not_found"@)) is None,
{
    let l = HEADLESS@;
    reveal_strlit("reply");
    reveal_strlit("authorization");
    reveal_strlit("unauthenticated");
    reveal_strlit("authorization unauthenticated");
    reveal_strlit("3");
    reveal_strlit("daemon_api");
    reveal_strlit("invalid_input");
    reveal_strlit("daemon_api invalid_input");
    reveal_strlit("7");
    reveal_strlit("2");
    reveal_strlit("not_found");
    reveal_strlit("not_found not_found");
    reveal_strlit("6");
    assert("3"@.len() == 1);
    assert("authorization unauthenticated"@ =~= "authorization"@ + seq![' '] + "unauthenticated"@);
    lemma_two_words("authorization"@, "unauthenticated"@, "authorization unauthenticated"@);
    assert("7"@.len() == 1);
    assert("daemon_api invalid_input"@ =~= "daemon_api"@ + seq![' '] + "invalid_input"@);
    lemma_two_words("daemon_api"@, "invalid_input"@, "daemon_api invalid_input"@);
    assert("2"@.len() == 1);
    lemma_one_word("invalid_input"@);
    assert("6"@.len() == 1);
    assert("not_found not_found"@ =~= "not_found"@ + seq![' '] + "not_found"@);
    lemma_two_words("not_found"@, "not_found"@, "not_found not_found"@);
    assert(typed_problem(reply_diagnostic(at(record[5], "reply"@)), 3, "authorization"@, Some("unauthenticated"@)) is None) by {
        saw_typed(l, known, answers, record, 5, seq!["authorization"@, "unauthenticated"@]);
    }
    assert(typed_problem(reply_diagnostic(at(record[11], "reply"@)), 7, "daemon_api"@, Some("invalid_input"@)) is None) by {
        saw_typed(l, known, answers, record, 11, seq!["daemon_api"@, "invalid_input"@]);
    }
    assert(typed_problem(reply_diagnostic(at(record[15], "reply"@)), 2, "invalid_input"@, None) is None) by {
        saw_typed(l, known, answers, record, 15, seq!["invalid_input"@]);
    }
    assert(typed_problem(reply_diagnostic(at(record[25], "reply"@)), 6, "not_found"@, Some("not_found"@)) is None) by {
        saw_typed(l, known, answers, record, 25, seq!["not_found"@, "not_found"@]);
    }
}

proof fn lemma_client_was_exercised_6(known: Tree, answers: Seq<(Tree, bool)>, record: Seq<Tree>)
    requires
        passed(HEADLESS@, known, answers, record),
    ensures
        typed_problem(reply_diagnostic(at(record[36], "reply"@)), 4, "conflict"@, Some("conflict"@)) is None,
        typed_problem(reply_diagnostic(at(record[46], "reply"@)), 2, "invalid_input"@, None) is None,
        typed_problem(reply_diagnostic(at(record[54], "reply"@)), 4, "conflict"@, Some("conflict"@)) is None,
        typed_problem(reply_diagnostic(at(record[158], "reply"@)), 8, "failed_terminal"@, None) is None,
{
    let l = HEADLESS@;
    reveal_strlit("reply");
    reveal_strlit("conflict");
    reveal_strlit("conflict conflict");
    reveal_strlit("4");
    reveal_strlit("invalid_input");
    reveal_strlit("2");
    reveal_strlit("failed_terminal");
    reveal_strlit("8");
    assert("4"@.len() == 1);
    assert("conflict conflict"@ =~= "conflict"@ + seq![' '] + "conflict"@);
    lemma_two_words("conflict"@, "conflict"@, "conflict conflict"@);
    assert("2"@.len() == 1);
    lemma_one_word("invalid_input"@);
    assert("8"@.len() == 1);
    lemma_one_word("failed_terminal"@);
    assert(typed_problem(reply_diagnostic(at(record[36], "reply"@)), 4, "conflict"@, Some("conflict"@)) is None) by {
        saw_typed(l, known, answers, record, 36, seq!["conflict"@, "conflict"@]);
    }
    assert(typed_problem(reply_diagnostic(at(record[46], "reply"@)), 2, "invalid_input"@, None) is None) by {
        saw_typed(l, known, answers, record, 46, seq!["invalid_input"@]);
    }
    assert(typed_problem(reply_diagnostic(at(record[54], "reply"@)), 4, "conflict"@, Some("conflict"@)) is None) by {
        saw_typed(l, known, answers, record, 54, seq!["conflict"@, "conflict"@]);
    }
    assert(typed_problem(reply_diagnostic(at(record[158], "reply"@)), 8, "failed_terminal"@, None) is None) by {
        was_passed_over(l, known, answers, record, 158);
        saw_typed(l, known, answers, record, 159, seq!["failed_terminal"@]);
    }
}

proof fn lemma_client_was_exercised_7(known: Tree, answers: Seq<(Tree, bool)>, record: Seq<Tree>)
    requires
        passed(HEADLESS@, known, answers, record),
    ensures
        typed_problem(reply_diagnostic(at(record[163], "reply"@)), 5, "unavailable"@, None) is None,
{
    let l = HEADLESS@;
    reveal_strlit("reply");
    reveal_strlit("unavailable");
    reveal_strlit("5");
    assert("5"@.len() == 1);
    lemma_one_word("unavailable"@);
    assert(typed_problem(reply_diagnostic(at(record[163], "reply"@)), 5, "unavailable"@, None) is None) by {
        saw_typed(l, known, answers, record, 163, seq!["unavailable"@]);
    }
}

/// The installed client is exercised to the end only where an invalid blueprint left the stored
/// revisions as they were, an imported one came back byte for byte on standard output and in a
/// file, exact commands were replayed, the run paused and succeeded, its artifact came back with
/// its size and digest, retained work stayed uncertain, and each refusal, the failed run among
/// them, had the exit, the class and the code that it is documented to have.
pub proof fn client_was_exercised(known: Tree, answers: Seq<(Tree, bool)>) -> (record: Seq<Tree>)
    requires
        known is Object,
        finished(HEADLESS@, known, answers),
    ensures
        passed(HEADLESS@, known, answers, record),
        HEADLESS@[6].2@ == "cli blueprint list --limit 10"@,
        HEADLESS@[16].2@ == "cli blueprint list --limit 10"@,
        at(told(record, 6), "value,items"@) == at(told(record, 16), "value,items"@),
        HEADLESS@[21].2@
            == "cli-input $primary,text --command-id blueprint-validate-1 blueprint validate -"@,
        at(told(record, 21), "value,result_type"@) == Tree::Text("blueprint_valid"@),
        HEADLESS@[26].2@ == "cli --command-id blueprint-import-1 blueprint import $paths,primary"@,
        at(told(record, 26), "value,value,revision_id"@) == at(at(known, "primary"@), "id"@),
        HEADLESS@[30].2@ == "cli --command-id blueprint-import-1 blueprint import $paths,primary"@,
        at(told(record, 30), "value,replayed"@) == Tree::Bool(true),
        HEADLESS@[37].2@ == "cli blueprint show $revision --document"@,
        at(at(record[38], "reply"@), "exit"@) == Tree::Integer(0),
        at(at(record[38], "reply"@), "stdout"@) == at(at(known, "primary"@), "text"@),
        HEADLESS@[42].2@ == "read $paths,exported"@,
        said(record, 42) == at(at(known, "primary"@), "text"@),
        HEADLESS@[47].2@
            == "cli --command-id run-primary-start-1 run start run-headless-primary headless-cli-primary $revision"@,
        HEADLESS@[49].2@
            == "cli --command-id run-primary-start-1 run start run-headless-primary headless-cli-primary $revision"@,
        at(told(record, 47), "value,command_id"@) == at(told(record, 49), "value,command_id"@),
        at(told(record, 49), "value,replayed"@) == Tree::Bool(true),
        HEADLESS@[60].2@ == "cli run show run-headless-primary"@,
        at(told(record, 60), "value,lifecycle"@) == Tree::Text("paused"@),
        HEADLESS@[102].2@ == "cli run show run-headless-primary"@,
        at(told(record, 102), "value,terminal"@) == Tree::Text("succeeded"@),
        HEADLESS@[109].2@ == "cli artifact metadata $artifact_id"@,
        at(told(record, 109), "value,digest"@)
            == at(at(record[105], "output"@), "artifact,digest"@),
        at(told(record, 109), "value,size"@) == at(at(record[105], "output"@), "artifact,size"@),
        HEADLESS@[115].2@ == "digest $paths,artifact"@,
        at(said(record, 115), "size"@) == at(at(record[105], "output"@), "artifact,size"@),
        at(said(record, 115), "digest"@) == at(at(record[105], "output"@), "artifact,digest"@),
        HEADLESS@[148].2@ == "cli attempt inspect run-headless-uncertain $uncertain_attempt"@,
        at(told(record, 148), "value,uncertain"@) == Tree::Bool(true),
        HEADLESS@[4].2@ == "cli-as $paths,wrong_token daemon authority"@,
        typed_problem(reply_diagnostic(at(record[5], "reply"@)), 3, "authorization"@, Some("unauthenticated"@)) is None,
        HEADLESS@[10].2@
            == "cli --command-id blueprint-invalid-1 blueprint validate $paths,invalid"@,
        typed_problem(reply_diagnostic(at(record[11], "reply"@)), 7, "daemon_api"@, Some("invalid_input"@)) is None,
        HEADLESS@[14].2@ == "cli blueprint validate $paths,duplicate"@,
        typed_problem(reply_diagnostic(at(record[15], "reply"@)), 2, "invalid_input"@, None) is None,
        HEADLESS@[24].2@ == "cli blueprint show $primary,id"@,
        typed_problem(reply_diagnostic(at(record[25], "reply"@)), 6, "not_found"@, Some("not_found"@)) is None,
        HEADLESS@[35].2@ == "cli --command-id blueprint-import-1 blueprint import $paths,changed"@,
        typed_problem(reply_diagnostic(at(record[36], "reply"@)), 4, "conflict"@, Some("conflict"@)) is None,
        HEADLESS@[45].2@ == "cli blueprint show $revision --output $paths,exported"@,
        typed_problem(reply_diagnostic(at(record[46], "reply"@)), 2, "invalid_input"@, None) is None,
        HEADLESS@[53].2@
            == "cli --command-id run-primary-start-1 run start run-headless-other headless-cli-primary $revision"@,
        typed_problem(reply_diagnostic(at(record[54], "reply"@)), 4, "conflict"@, Some("conflict"@)) is None,
        HEADLESS@[157].2@ == "cli run show run-headless-failed"@,
        typed_problem(reply_diagnostic(at(record[158], "reply"@)), 8, "failed_terminal"@, None) is None,
        HEADLESS@[162].2@ == "cli daemon health"@,
        typed_problem(reply_diagnostic(at(record[163], "reply"@)), 5, "unavailable"@, None) is None,
{
    let record = finished_scenarios_are_recorded(HEADLESS@, known, answers);
    lemma_client_was_exercised_1(known, answers, record);
    lemma_client_was_exercised_2(known, answers, record);
    lemma_client_was_exercised_3(known, answers, record);
    lemma_client_was_exercised_4(known, answers, record);
    lemma_client_was_exercised_5(known, answers, record);
    lemma_client_was_exercised_6(known, answers, record);
    lemma_client_was_exercised_7(known, answers, record);
    record
}

proof fn lemma_starter_was_not_accounted(known: Tree, answers: Seq<(Tree, bool)>, record: Seq<Tree>)
    requires
        passed(STARTER@, known, answers, record),
    ensures
        at(told(record, 9), "value,controller_accounting,state"@) == Tree::Text("inactive"@),
{
    let l = STARTER@;
    reveal_strlit("shown");
    reveal_strlit("reply");
    reveal_strlit("value,controller_accounting,state");
    reveal_strlit("shown,value,controller_accounting,state");
    assert("shown"@[0] != "reply"@[0]);
    assert(
        "shown,value,controller_accounting,state"@
            =~= "shown"@ + seq![','] + "value,controller_accounting,state"@
    );
    assert(at(told(record, 9), "value,controller_accounting,state"@) == Tree::Text("inactive"@)) by {
        was_told(l, known, answers, record, 10);
        lemma_under(
            record[11],
            "shown"@,
            "value,controller_accounting,state"@,
            "shown,value,controller_accounting,state"@,
        );
        saw_is(l, known, answers, record, 11);
    }
}

/// An ordinary workflow runs to its end without controller accounting.
pub proof fn starter_was_not_accounted(
    known: Tree,
    answers: Seq<(Tree, bool)>,
) -> (record: Seq<Tree>)
    requires
        known is Object,
        finished(STARTER@, known, answers),
    ensures
        passed(STARTER@, known, answers, record),
        STARTER@[9].2@ == "cli run show starter"@,
        at(told(record, 9), "value,controller_accounting,state"@) == Tree::Text("inactive"@),
{
    let record = finished_scenarios_are_recorded(STARTER@, known, answers);
    lemma_starter_was_not_accounted(known, answers, record);
    record
}

proof fn lemma_model_example_was_bounded_1(
    known: Tree,
    answers: Seq<(Tree, bool)>,
    record: Seq<Tree>,
)
    requires
        passed(MODEL_EXAMPLE@, known, answers, record),
    ensures
        at(told(record, 5), "value,#0,generation"@) == Tree::Integer(1),
        at(told(record, 5), "value,#0,provider_profile"@) == Tree::Text("local-model-loopback"@),
        at(told(record, 13), "value,replayed"@) == Tree::Bool(true),
{
    let l = MODEL_EXAMPLE@;
    reveal_strlit("1");
    reveal_strlit("capability");
    reveal_strlit("reply");
    reveal_strlit("value,#0,generation");
    reveal_strlit("capability,value,#0,generation");
    reveal_strlit("value,#0,provider_profile");
    reveal_strlit("capability,value,#0,provider_profile");
    reveal_strlit("replay");
    reveal_strlit("value,replayed");
    reveal_strlit("replay,value,replayed");
    lemma_one_digit("1"@);
    assert(number_of("1"@) == Some(1u64));
    assert("capability"@.len() == 10);
    assert("reply"@.len() == 5);
    assert(
        "capability,value,#0,generation"@ =~= "capability"@ + seq![','] + "value,#0,generation"@
    );
    assert(
        "capability,value,#0,provider_profile"@
            =~= "capability"@ + seq![','] + "value,#0,provider_profile"@
    );
    assert("replay"@.len() == 6);
    assert("replay,value,replayed"@ =~= "replay"@ + seq![','] + "value,replayed"@);
    assert(at(told(record, 5), "value,#0,generation"@) == Tree::Integer(1)) by {
        was_told(l, known, answers, record, 6);
        lemma_under(
            record[7],
            "capability"@,
            "value,#0,generation"@,
            "capability,value,#0,generation"@,
        );
        saw_num(l, known, answers, record, 7, 1);
    }
    assert(at(told(record, 5), "value,#0,provider_profile"@) == Tree::Text("local-model-loopback"@)) by {
        was_told(l, known, answers, record, 6);
        unchanged(l, known, answers, record, 7);
        lemma_under(
            record[8],
            "capability"@,
            "value,#0,provider_profile"@,
            "capability,value,#0,provider_profile"@,
        );
        saw_is(l, known, answers, record, 8);
    }
    assert(at(told(record, 13), "value,replayed"@) == Tree::Bool(true)) by {
        was_told(l, known, answers, record, 14);
        lemma_under(record[15], "replay"@, "value,replayed"@, "replay,value,replayed"@);
        saw_true(l, known, answers, record, 15);
    }
}

proof fn lemma_model_example_was_bounded_2(
    known: Tree,
    answers: Seq<(Tree, bool)>,
    record: Seq<Tree>,
)
    requires
        passed(MODEL_EXAMPLE@, known, answers, record),
    ensures
        at(told(record, 23), "value,descriptor_revision"@) == Tree::Integer(1),
        at(told(record, 23), "value,provider_profile"@) == Tree::Text("local-model-loopback"@),
        at(told(record, 23), "value,uncertain"@) == Tree::Bool(false),
{
    let l = MODEL_EXAMPLE@;
    reveal_strlit("1");
    reveal_strlit("inspected");
    reveal_strlit("reply");
    reveal_strlit("value,descriptor_revision");
    reveal_strlit("inspected,value,descriptor_revision");
    reveal_strlit("value,provider_profile");
    reveal_strlit("inspected,value,provider_profile");
    reveal_strlit("value,uncertain");
    reveal_strlit("inspected,value,uncertain");
    lemma_one_digit("1"@);
    assert(number_of("1"@) == Some(1u64));
    assert("inspected"@.len() == 9);
    assert("reply"@.len() == 5);
    assert(
        "inspected,value,descriptor_revision"@
            =~= "inspected"@ + seq![','] + "value,descriptor_revision"@
    );
    assert(
        "inspected,value,provider_profile"@
            =~= "inspected"@ + seq![','] + "value,provider_profile"@
    );
    assert("inspected,value,uncertain"@ =~= "inspected"@ + seq![','] + "value,uncertain"@);
    assert(at(told(record, 23), "value,descriptor_revision"@) == Tree::Integer(1)) by {
        was_told(l, known, answers, record, 24);
        lemma_under(
            record[25],
            "inspected"@,
            "value,descriptor_revision"@,
            "inspected,value,descriptor_revision"@,
        );
        saw_num(l, known, answers, record, 25, 1);
    }
    assert(at(told(record, 23), "value,provider_profile"@) == Tree::Text("local-model-loopback"@)) by {
        was_told(l, known, answers, record, 24);
        unchanged(l, known, answers, record, 25);
        lemma_under(
            record[26],
            "inspected"@,
            "value,provider_profile"@,
            "inspected,value,provider_profile"@,
        );
        saw_is(l, known, answers, record, 26);
    }
    assert(at(told(record, 23), "value,uncertain"@) == Tree::Bool(false)) by {
        was_told(l, known, answers, record, 24);
        unchanged(l, known, answers, record, 25);
        unchanged(l, known, answers, record, 26);
        lemma_under(record[27], "inspected"@, "value,uncertain"@, "inspected,value,uncertain"@);
        saw_false(l, known, answers, record, 27);
    }
}

proof fn lemma_model_example_was_bounded_3(
    known: Tree,
    answers: Seq<(Tree, bool)>,
    record: Seq<Tree>,
)
    requires
        passed(MODEL_EXAMPLE@, known, answers, record),
    ensures
        at(told(record, 23), "value,context_access"@) == Tree::Text("authorized"@),
        at(told(record, 23), "value,context_manifest"@) is Object,
        is_positive(at(told(record, 23), "value,progress_observations"@)),
{
    let l = MODEL_EXAMPLE@;
    reveal_strlit("inspected");
    reveal_strlit("reply");
    reveal_strlit("value,context_access");
    reveal_strlit("inspected,value,context_access");
    reveal_strlit("value,context_manifest");
    reveal_strlit("inspected,value,context_manifest");
    reveal_strlit("value,progress_observations");
    reveal_strlit("inspected,value,progress_observations");
    assert("inspected"@.len() == 9);
    assert("reply"@.len() == 5);
    assert(
        "inspected,value,context_access"@ =~= "inspected"@ + seq![','] + "value,context_access"@
    );
    assert(
        "inspected,value,context_manifest"@
            =~= "inspected"@ + seq![','] + "value,context_manifest"@
    );
    assert(
        "inspected,value,progress_observations"@
            =~= "inspected"@ + seq![','] + "value,progress_observations"@
    );
    assert(at(told(record, 23), "value,context_access"@) == Tree::Text("authorized"@)) by {
        was_told(l, known, answers, record, 24);
        unchanged(l, known, answers, record, 25);
        unchanged(l, known, answers, record, 26);
        unchanged(l, known, answers, record, 27);
        lemma_under(
            record[28],
            "inspected"@,
            "value,context_access"@,
            "inspected,value,context_access"@,
        );
        saw_is(l, known, answers, record, 28);
    }
    assert(at(told(record, 23), "value,context_manifest"@) is Object) by {
        was_told(l, known, answers, record, 24);
        assert(forall|j: int|
            25 <= j < 29 ==> is_check((#[trigger] l[j]).0@) || !touches(l[j].1@, "inspected"@));
        stays_through(l, known, answers, record, 25, 29, "inspected"@);
        lemma_under(
            record[29],
            "inspected"@,
            "value,context_manifest"@,
            "inspected,value,context_manifest"@,
        );
        saw_object(l, known, answers, record, 29);
    }
    assert(is_positive(at(told(record, 23), "value,progress_observations"@))) by {
        was_told(l, known, answers, record, 24);
        assert(forall|j: int|
            25 <= j < 30 ==> is_check((#[trigger] l[j]).0@) || !touches(l[j].1@, "inspected"@));
        stays_through(l, known, answers, record, 25, 30, "inspected"@);
        lemma_under(
            record[30],
            "inspected"@,
            "value,progress_observations"@,
            "inspected,value,progress_observations"@,
        );
        saw_positive(l, known, answers, record, 30);
    }
}

proof fn lemma_model_example_was_bounded_4(
    known: Tree,
    answers: Seq<(Tree, bool)>,
    record: Seq<Tree>,
)
    requires
        passed(MODEL_EXAMPLE@, known, answers, record),
    ensures
        is_below(at(told(record, 23), "value,progress_observations"@), 10),
        at(told(record, 23), "value,usage,input_units"@) == Tree::Integer(5),
        at(told(record, 23), "value,usage,output_units"@) == Tree::Integer(1),
{
    let l = MODEL_EXAMPLE@;
    reveal_strlit("10");
    reveal_strlit("1");
    reveal_strlit("inspected");
    reveal_strlit("reply");
    reveal_strlit("value,progress_observations");
    reveal_strlit("inspected,value,progress_observations");
    reveal_strlit("5");
    reveal_strlit("value,usage,input_units");
    reveal_strlit("inspected,value,usage,input_units");
    reveal_strlit("value,usage,output_units");
    reveal_strlit("inspected,value,usage,output_units");
    lemma_one_digit("1"@);
    assert(number_of("1"@) == Some(1u64));
    assert("10"@.drop_last() =~= "1"@);
    lemma_next_digit("10"@, "1"@, 1);
    assert(number_of("10"@) == Some(10u64));
    assert("inspected"@.len() == 9);
    assert("reply"@.len() == 5);
    assert(
        "inspected,value,progress_observations"@
            =~= "inspected"@ + seq![','] + "value,progress_observations"@
    );
    lemma_one_digit("5"@);
    assert(number_of("5"@) == Some(5u64));
    assert(
        "inspected,value,usage,input_units"@
            =~= "inspected"@ + seq![','] + "value,usage,input_units"@
    );
    assert(
        "inspected,value,usage,output_units"@
            =~= "inspected"@ + seq![','] + "value,usage,output_units"@
    );
    assert(is_below(at(told(record, 23), "value,progress_observations"@), 10)) by {
        was_told(l, known, answers, record, 24);
        assert(forall|j: int|
            25 <= j < 31 ==> is_check((#[trigger] l[j]).0@) || !touches(l[j].1@, "inspected"@));
        stays_through(l, known, answers, record, 25, 31, "inspected"@);
        lemma_under(
            record[31],
            "inspected"@,
            "value,progress_observations"@,
            "inspected,value,progress_observations"@,
        );
        saw_below(l, known, answers, record, 31, 10);
    }
    assert(at(told(record, 23), "value,usage,input_units"@) == Tree::Integer(5)) by {
        was_told(l, known, answers, record, 24);
        assert(forall|j: int|
            25 <= j < 32 ==> is_check((#[trigger] l[j]).0@) || !touches(l[j].1@, "inspected"@));
        stays_through(l, known, answers, record, 25, 32, "inspected"@);
        lemma_under(
            record[32],
            "inspected"@,
            "value,usage,input_units"@,
            "inspected,value,usage,input_units"@,
        );
        saw_num(l, known, answers, record, 32, 5);
    }
    assert(at(told(record, 23), "value,usage,output_units"@) == Tree::Integer(1)) by {
        was_told(l, known, answers, record, 24);
        assert(forall|j: int|
            25 <= j < 33 ==> is_check((#[trigger] l[j]).0@) || !touches(l[j].1@, "inspected"@));
        stays_through(l, known, answers, record, 25, 33, "inspected"@);
        lemma_under(
            record[33],
            "inspected"@,
            "value,usage,output_units"@,
            "inspected,value,usage,output_units"@,
        );
        saw_num(l, known, answers, record, 33, 1);
    }
}

proof fn lemma_model_example_was_bounded_5(
    known: Tree,
    answers: Seq<(Tree, bool)>,
    record: Seq<Tree>,
)
    requires
        passed(MODEL_EXAMPLE@, known, answers, record),
    ensures
        items_of(at(told(record, 23), "value,outputs"@)).len() == 3,
        at(told(record, 23), "value,outputs,#0,name"@) != Tree::Text("provider_metadata"@)
            || at(said(record, 51), "org.milkdrift.openai/response,id"@)
                == Tree::Text("operator-response-1"@),
        at(told(record, 23), "value,outputs,#0,name"@) != Tree::Text("provider_metadata"@)
            || at(said(record, 51), "org.milkdrift.openai/response,model"@)
                == Tree::Text("operator-model"@),
{
    let l = MODEL_EXAMPLE@;
    reveal_strlit("3");
    reveal_strlit("inspected");
    reveal_strlit("reply");
    reveal_strlit("value,outputs");
    reveal_strlit("inspected,value,outputs");
    reveal_strlit(
        "isnot inspected,value,outputs,#0,name provider_metadata or is document,org.milkdrift.openai/response,id operator-response-1",
    );
    reveal_strlit("isnot");
    reveal_strlit(
        "inspected,value,outputs,#0,name provider_metadata or is document,org.milkdrift.openai/response,id operator-response-1",
    );
    reveal_strlit("inspected,value,outputs,#0,name");
    reveal_strlit(
        "provider_metadata or is document,org.milkdrift.openai/response,id operator-response-1",
    );
    reveal_strlit("provider_metadata");
    reveal_strlit("or is document,org.milkdrift.openai/response,id operator-response-1");
    reveal_strlit("or");
    reveal_strlit("is document,org.milkdrift.openai/response,id operator-response-1");
    reveal_strlit("is");
    reveal_strlit("document,org.milkdrift.openai/response,id operator-response-1");
    reveal_strlit("document,org.milkdrift.openai/response,id");
    reveal_strlit("operator-response-1");
    reveal_strlit("artifact");
    reveal_strlit("");
    reveal_strlit("metadata");
    reveal_strlit("fetched");
    reveal_strlit("document");
    reveal_strlit("value,outputs,#0,name");
    reveal_strlit("org.milkdrift.openai/response,id");
    reveal_strlit(
        "isnot inspected,value,outputs,#0,name provider_metadata or is document,org.milkdrift.openai/response,model operator-model",
    );
    reveal_strlit(
        "inspected,value,outputs,#0,name provider_metadata or is document,org.milkdrift.openai/response,model operator-model",
    );
    reveal_strlit(
        "provider_metadata or is document,org.milkdrift.openai/response,model operator-model",
    );
    reveal_strlit("or is document,org.milkdrift.openai/response,model operator-model");
    reveal_strlit("is document,org.milkdrift.openai/response,model operator-model");
    reveal_strlit("document,org.milkdrift.openai/response,model operator-model");
    reveal_strlit("document,org.milkdrift.openai/response,model");
    reveal_strlit("operator-model");
    reveal_strlit("org.milkdrift.openai/response,model");
    lemma_one_digit("3"@);
    assert(number_of("3"@) == Some(3u64));
    assert("inspected"@.len() == 9);
    assert("reply"@.len() == 5);
    assert("inspected,value,outputs"@ =~= "inspected"@ + seq![','] + "value,outputs"@);
    assert(
        "document,org.milkdrift.openai/response,id operator-response-1"@
            =~= "document,org.milkdrift.openai/response,id"@ + seq![' '] + "operator-response-1"@
    );
    lemma_two_words(
        "document,org.milkdrift.openai/response,id"@,
        "operator-response-1"@,
        "document,org.milkdrift.openai/response,id operator-response-1"@,
    );
    assert(
        "is document,org.milkdrift.openai/response,id operator-response-1"@
            =~= "is"@ + seq![' '] + "document,org.milkdrift.openai/response,id operator-response-1"@
    );
    lemma_four_words(
        "is"@,
        "document,org.milkdrift.openai/response,id operator-response-1"@,
        "is document,org.milkdrift.openai/response,id operator-response-1"@,
    );
    assert(
        "or is document,org.milkdrift.openai/response,id operator-response-1"@
            =~= "or"@ + seq![' '] + "is document,org.milkdrift.openai/response,id operator-response-1"@
    );
    lemma_four_words(
        "or"@,
        "is document,org.milkdrift.openai/response,id operator-response-1"@,
        "or is document,org.milkdrift.openai/response,id operator-response-1"@,
    );
    assert(
        "provider_metadata or is document,org.milkdrift.openai/response,id operator-response-1"@
            =~= "provider_metadata"@
                + seq![' ']
                + "or is document,org.milkdrift.openai/response,id operator-response-1"@
    );
    lemma_four_words(
        "provider_metadata"@,
        "or is document,org.milkdrift.openai/response,id operator-response-1"@,
        "provider_metadata or is document,org.milkdrift.openai/response,id operator-response-1"@,
    );
    assert(
        "inspected,value,outputs,#0,name provider_metadata or is document,org.milkdrift.openai/response,id operator-response-1"@
            =~= "inspected,value,outputs,#0,name"@
                + seq![' ']
                + "provider_metadata or is document,org.milkdrift.openai/response,id operator-response-1"@
    );
    lemma_four_words(
        "inspected,value,outputs,#0,name"@,
        "provider_metadata or is document,org.milkdrift.openai/response,id operator-response-1"@,
        "inspected,value,outputs,#0,name provider_metadata or is document,org.milkdrift.openai/response,id operator-response-1"@,
    );
    assert(
        "isnot inspected,value,outputs,#0,name provider_metadata or is document,org.milkdrift.openai/response,id operator-response-1"@
            =~= "isnot"@
                + seq![' ']
                + "inspected,value,outputs,#0,name provider_metadata or is document,org.milkdrift.openai/response,id operator-response-1"@
    );
    lemma_four_words(
        "isnot"@,
        "inspected,value,outputs,#0,name provider_metadata or is document,org.milkdrift.openai/response,id operator-response-1"@,
        "isnot inspected,value,outputs,#0,name provider_metadata or is document,org.milkdrift.openai/response,id operator-response-1"@,
    );
    assert("isnot"@.len() == 5);
    assert("or"@.len() == 2);
    assert("inspected,value,outputs,#0,name"@.len() == 31);
    assert("provider_metadata"@.len() == 17);
    assert("is"@[0] != "or"@[0]);
    assert("document,org.milkdrift.openai/response,id"@.len() == 41);
    assert("operator-response-1"@.len() == 19);
    lemma_apart("artifact"@, "inspected"@, 0);
    lemma_apart(""@, "inspected"@, 0);
    lemma_apart("metadata"@, "inspected"@, 0);
    lemma_apart("fetched"@, "inspected"@, 0);
    lemma_apart("document"@, "inspected"@, 0);
    assert(
        "inspected,value,outputs,#0,name"@ =~= "inspected"@ + seq![','] + "value,outputs,#0,name"@
    );
    assert("document"@.len() == 8);
    assert(
        "document,org.milkdrift.openai/response,id"@
            =~= "document"@ + seq![','] + "org.milkdrift.openai/response,id"@
    );
    assert(
        parts(
            "isnot inspected,value,outputs,#0,name provider_metadata or is document,org.milkdrift.openai/response,id operator-response-1"@,
        )
            =~= seq!["isnot"@, "inspected,value,outputs,#0,name"@, "provider_metadata"@]
                + seq!["or"@]
                + seq!["is"@, "document,org.milkdrift.openai/response,id"@, "operator-response-1"@]
    );
    assert(
        "document,org.milkdrift.openai/response,model operator-model"@
            =~= "document,org.milkdrift.openai/response,model"@ + seq![' '] + "operator-model"@
    );
    lemma_two_words(
        "document,org.milkdrift.openai/response,model"@,
        "operator-model"@,
        "document,org.milkdrift.openai/response,model operator-model"@,
    );
    assert(
        "is document,org.milkdrift.openai/response,model operator-model"@
            =~= "is"@ + seq![' '] + "document,org.milkdrift.openai/response,model operator-model"@
    );
    lemma_four_words(
        "is"@,
        "document,org.milkdrift.openai/response,model operator-model"@,
        "is document,org.milkdrift.openai/response,model operator-model"@,
    );
    assert(
        "or is document,org.milkdrift.openai/response,model operator-model"@
            =~= "or"@ + seq![' '] + "is document,org.milkdrift.openai/response,model operator-model"@
    );
    lemma_four_words(
        "or"@,
        "is document,org.milkdrift.openai/response,model operator-model"@,
        "or is document,org.milkdrift.openai/response,model operator-model"@,
    );
    assert(
        "provider_metadata or is document,org.milkdrift.openai/response,model operator-model"@
            =~= "provider_metadata"@
                + seq![' ']
                + "or is document,org.milkdrift.openai/response,model operator-model"@
    );
    lemma_four_words(
        "provider_metadata"@,
        "or is document,org.milkdrift.openai/response,model operator-model"@,
        "provider_metadata or is document,org.milkdrift.openai/response,model operator-model"@,
    );
    assert(
        "inspected,value,outputs,#0,name provider_metadata or is document,org.milkdrift.openai/response,model operator-model"@
            =~= "inspected,value,outputs,#0,name"@
                + seq![' ']
                + "provider_metadata or is document,org.milkdrift.openai/response,model operator-model"@
    );
    lemma_four_words(
        "inspected,value,outputs,#0,name"@,
        "provider_metadata or is document,org.milkdrift.openai/response,model operator-model"@,
        "inspected,value,outputs,#0,name provider_metadata or is document,org.milkdrift.openai/response,model operator-model"@,
    );
    assert(
        "isnot inspected,value,outputs,#0,name provider_metadata or is document,org.milkdrift.openai/response,model operator-model"@
            =~= "isnot"@
                + seq![' ']
                + "inspected,value,outputs,#0,name provider_metadata or is document,org.milkdrift.openai/response,model operator-model"@
    );
    lemma_four_words(
        "isnot"@,
        "inspected,value,outputs,#0,name provider_metadata or is document,org.milkdrift.openai/response,model operator-model"@,
        "isnot inspected,value,outputs,#0,name provider_metadata or is document,org.milkdrift.openai/response,model operator-model"@,
    );
    assert("document,org.milkdrift.openai/response,model"@.len() == 44);
    assert("operator-model"@.len() == 14);
    assert(
        "document,org.milkdrift.openai/response,model"@
            =~= "document"@ + seq![','] + "org.milkdrift.openai/response,model"@
    );
    assert(
        parts(
            "isnot inspected,value,outputs,#0,name provider_metadata or is document,org.milkdrift.openai/response,model operator-model"@,
        )
            =~= seq!["isnot"@, "inspected,value,outputs,#0,name"@, "provider_metadata"@]
                + seq!["or"@]
                + seq!["is"@, "document,org.milkdrift.openai/response,model"@, "operator-model"@]
    );
    assert(items_of(at(told(record, 23), "value,outputs"@)).len() == 3) by {
        was_told(l, known, answers, record, 24);
        assert(forall|j: int|
            25 <= j < 35 ==> is_check((#[trigger] l[j]).0@) || !touches(l[j].1@, "inspected"@));
        stays_through(l, known, answers, record, 25, 35, "inspected"@);
        lemma_under(record[35], "inspected"@, "value,outputs"@, "inspected,value,outputs"@);
        saw_len(l, known, answers, record, 35, 3);
    }
    assert(at(told(record, 23), "value,outputs,#0,name"@) != Tree::Text("provider_metadata"@)
            || at(said(record, 51), "org.milkdrift.openai/response,id"@)
                == Tree::Text("operator-response-1"@)) by {
        was_told(l, known, answers, record, 24);
        assert(forall|j: int|
            25 <= j < 53 ==> is_check((#[trigger] l[j]).0@) || !touches(l[j].1@, "inspected"@));
        stays_through(l, known, answers, record, 25, 53, "inspected"@);
        lemma_under(
            record[53],
            "inspected"@,
            "value,outputs,#0,name"@,
            "inspected,value,outputs,#0,name"@,
        );
        was_said(l, known, answers, record, 52);
        lemma_under(
            record[53],
            "document"@,
            "org.milkdrift.openai/response,id"@,
            "document,org.milkdrift.openai/response,id"@,
        );
        saw_either(
            l,
            known,
            answers,
            record,
            53,
            seq!["isnot"@, "inspected,value,outputs,#0,name"@, "provider_metadata"@],
            seq!["is"@, "document,org.milkdrift.openai/response,id"@, "operator-response-1"@],
        );
        lemma_judged_isnot("inspected,value,outputs,#0,name"@, "provider_metadata"@, record[53]);
        lemma_judged_is(
            "document,org.milkdrift.openai/response,id"@,
            "operator-response-1"@,
            record[53],
        );
    }
    assert(at(told(record, 23), "value,outputs,#0,name"@) != Tree::Text("provider_metadata"@)
            || at(said(record, 51), "org.milkdrift.openai/response,model"@)
                == Tree::Text("operator-model"@)) by {
        was_told(l, known, answers, record, 24);
        assert(forall|j: int|
            25 <= j < 54 ==> is_check((#[trigger] l[j]).0@) || !touches(l[j].1@, "inspected"@));
        stays_through(l, known, answers, record, 25, 54, "inspected"@);
        lemma_under(
            record[54],
            "inspected"@,
            "value,outputs,#0,name"@,
            "inspected,value,outputs,#0,name"@,
        );
        was_said(l, known, answers, record, 52);
        unchanged(l, known, answers, record, 53);
        lemma_under(
            record[54],
            "document"@,
            "org.milkdrift.openai/response,model"@,
            "document,org.milkdrift.openai/response,model"@,
        );
        saw_either(
            l,
            known,
            answers,
            record,
            54,
            seq!["isnot"@, "inspected,value,outputs,#0,name"@, "provider_metadata"@],
            seq!["is"@, "document,org.milkdrift.openai/response,model"@, "operator-model"@],
        );
        lemma_judged_isnot("inspected,value,outputs,#0,name"@, "provider_metadata"@, record[54]);
        lemma_judged_is(
            "document,org.milkdrift.openai/response,model"@,
            "operator-model"@,
            record[54],
        );
    }
}

proof fn lemma_model_example_was_bounded_6(
    known: Tree,
    answers: Seq<(Tree, bool)>,
    record: Seq<Tree>,
)
    requires
        passed(MODEL_EXAMPLE@, known, answers, record),
    ensures
        at(told(record, 23), "value,outputs,#1,name"@) != Tree::Text("provider_metadata"@)
            || at(said(record, 55), "org.milkdrift.openai/response,id"@)
                == Tree::Text("operator-response-1"@),
        at(told(record, 23), "value,outputs,#1,name"@) != Tree::Text("provider_metadata"@)
            || at(said(record, 55), "org.milkdrift.openai/response,model"@)
                == Tree::Text("operator-model"@),
        at(told(record, 23), "value,outputs,#2,name"@) != Tree::Text("provider_metadata"@)
            || at(said(record, 59), "org.milkdrift.openai/response,id"@)
                == Tree::Text("operator-response-1"@),
{
    let l = MODEL_EXAMPLE@;
    reveal_strlit(
        "isnot inspected,value,outputs,#1,name provider_metadata or is document,org.milkdrift.openai/response,id operator-response-1",
    );
    reveal_strlit("isnot");
    reveal_strlit(
        "inspected,value,outputs,#1,name provider_metadata or is document,org.milkdrift.openai/response,id operator-response-1",
    );
    reveal_strlit("inspected,value,outputs,#1,name");
    reveal_strlit(
        "provider_metadata or is document,org.milkdrift.openai/response,id operator-response-1",
    );
    reveal_strlit("provider_metadata");
    reveal_strlit("or is document,org.milkdrift.openai/response,id operator-response-1");
    reveal_strlit("or");
    reveal_strlit("is document,org.milkdrift.openai/response,id operator-response-1");
    reveal_strlit("is");
    reveal_strlit("document,org.milkdrift.openai/response,id operator-response-1");
    reveal_strlit("document,org.milkdrift.openai/response,id");
    reveal_strlit("operator-response-1");
    reveal_strlit("inspected");
    reveal_strlit("reply");
    reveal_strlit("artifact");
    reveal_strlit("");
    reveal_strlit("metadata");
    reveal_strlit("fetched");
    reveal_strlit("document");
    reveal_strlit("value,outputs,#1,name");
    reveal_strlit("org.milkdrift.openai/response,id");
    reveal_strlit(
        "isnot inspected,value,outputs,#1,name provider_metadata or is document,org.milkdrift.openai/response,model operator-model",
    );
    reveal_strlit(
        "inspected,value,outputs,#1,name provider_metadata or is document,org.milkdrift.openai/response,model operator-model",
    );
    reveal_strlit(
        "provider_metadata or is document,org.milkdrift.openai/response,model operator-model",
    );
    reveal_strlit("or is document,org.milkdrift.openai/response,model operator-model");
    reveal_strlit("is document,org.milkdrift.openai/response,model operator-model");
    reveal_strlit("document,org.milkdrift.openai/response,model operator-model");
    reveal_strlit("document,org.milkdrift.openai/response,model");
    reveal_strlit("operator-model");
    reveal_strlit("org.milkdrift.openai/response,model");
    reveal_strlit(
        "isnot inspected,value,outputs,#2,name provider_metadata or is document,org.milkdrift.openai/response,id operator-response-1",
    );
    reveal_strlit(
        "inspected,value,outputs,#2,name provider_metadata or is document,org.milkdrift.openai/response,id operator-response-1",
    );
    reveal_strlit("inspected,value,outputs,#2,name");
    reveal_strlit("value,outputs,#2,name");
    assert(
        "document,org.milkdrift.openai/response,id operator-response-1"@
            =~= "document,org.milkdrift.openai/response,id"@ + seq![' '] + "operator-response-1"@
    );
    lemma_two_words(
        "document,org.milkdrift.openai/response,id"@,
        "operator-response-1"@,
        "document,org.milkdrift.openai/response,id operator-response-1"@,
    );
    assert(
        "is document,org.milkdrift.openai/response,id operator-response-1"@
            =~= "is"@ + seq![' '] + "document,org.milkdrift.openai/response,id operator-response-1"@
    );
    lemma_four_words(
        "is"@,
        "document,org.milkdrift.openai/response,id operator-response-1"@,
        "is document,org.milkdrift.openai/response,id operator-response-1"@,
    );
    assert(
        "or is document,org.milkdrift.openai/response,id operator-response-1"@
            =~= "or"@ + seq![' '] + "is document,org.milkdrift.openai/response,id operator-response-1"@
    );
    lemma_four_words(
        "or"@,
        "is document,org.milkdrift.openai/response,id operator-response-1"@,
        "or is document,org.milkdrift.openai/response,id operator-response-1"@,
    );
    assert(
        "provider_metadata or is document,org.milkdrift.openai/response,id operator-response-1"@
            =~= "provider_metadata"@
                + seq![' ']
                + "or is document,org.milkdrift.openai/response,id operator-response-1"@
    );
    lemma_four_words(
        "provider_metadata"@,
        "or is document,org.milkdrift.openai/response,id operator-response-1"@,
        "provider_metadata or is document,org.milkdrift.openai/response,id operator-response-1"@,
    );
    assert(
        "inspected,value,outputs,#1,name provider_metadata or is document,org.milkdrift.openai/response,id operator-response-1"@
            =~= "inspected,value,outputs,#1,name"@
                + seq![' ']
                + "provider_metadata or is document,org.milkdrift.openai/response,id operator-response-1"@
    );
    lemma_four_words(
        "inspected,value,outputs,#1,name"@,
        "provider_metadata or is document,org.milkdrift.openai/response,id operator-response-1"@,
        "inspected,value,outputs,#1,name provider_metadata or is document,org.milkdrift.openai/response,id operator-response-1"@,
    );
    assert(
        "isnot inspected,value,outputs,#1,name provider_metadata or is document,org.milkdrift.openai/response,id operator-response-1"@
            =~= "isnot"@
                + seq![' ']
                + "inspected,value,outputs,#1,name provider_metadata or is document,org.milkdrift.openai/response,id operator-response-1"@
    );
    lemma_four_words(
        "isnot"@,
        "inspected,value,outputs,#1,name provider_metadata or is document,org.milkdrift.openai/response,id operator-response-1"@,
        "isnot inspected,value,outputs,#1,name provider_metadata or is document,org.milkdrift.openai/response,id operator-response-1"@,
    );
    assert("isnot"@.len() == 5);
    assert("or"@.len() == 2);
    assert("inspected,value,outputs,#1,name"@.len() == 31);
    assert("provider_metadata"@.len() == 17);
    assert("is"@[0] != "or"@[0]);
    assert("document,org.milkdrift.openai/response,id"@.len() == 41);
    assert("operator-response-1"@.len() == 19);
    assert("inspected"@.len() == 9);
    assert("reply"@.len() == 5);
    lemma_apart("artifact"@, "inspected"@, 0);
    lemma_apart(""@, "inspected"@, 0);
    lemma_apart("metadata"@, "inspected"@, 0);
    lemma_apart("fetched"@, "inspected"@, 0);
    lemma_apart("document"@, "inspected"@, 0);
    assert(
        "inspected,value,outputs,#1,name"@ =~= "inspected"@ + seq![','] + "value,outputs,#1,name"@
    );
    assert("document"@.len() == 8);
    assert(
        "document,org.milkdrift.openai/response,id"@
            =~= "document"@ + seq![','] + "org.milkdrift.openai/response,id"@
    );
    assert(
        parts(
            "isnot inspected,value,outputs,#1,name provider_metadata or is document,org.milkdrift.openai/response,id operator-response-1"@,
        )
            =~= seq!["isnot"@, "inspected,value,outputs,#1,name"@, "provider_metadata"@]
                + seq!["or"@]
                + seq!["is"@, "document,org.milkdrift.openai/response,id"@, "operator-response-1"@]
    );
    assert(
        "document,org.milkdrift.openai/response,model operator-model"@
            =~= "document,org.milkdrift.openai/response,model"@ + seq![' '] + "operator-model"@
    );
    lemma_two_words(
        "document,org.milkdrift.openai/response,model"@,
        "operator-model"@,
        "document,org.milkdrift.openai/response,model operator-model"@,
    );
    assert(
        "is document,org.milkdrift.openai/response,model operator-model"@
            =~= "is"@ + seq![' '] + "document,org.milkdrift.openai/response,model operator-model"@
    );
    lemma_four_words(
        "is"@,
        "document,org.milkdrift.openai/response,model operator-model"@,
        "is document,org.milkdrift.openai/response,model operator-model"@,
    );
    assert(
        "or is document,org.milkdrift.openai/response,model operator-model"@
            =~= "or"@ + seq![' '] + "is document,org.milkdrift.openai/response,model operator-model"@
    );
    lemma_four_words(
        "or"@,
        "is document,org.milkdrift.openai/response,model operator-model"@,
        "or is document,org.milkdrift.openai/response,model operator-model"@,
    );
    assert(
        "provider_metadata or is document,org.milkdrift.openai/response,model operator-model"@
            =~= "provider_metadata"@
                + seq![' ']
                + "or is document,org.milkdrift.openai/response,model operator-model"@
    );
    lemma_four_words(
        "provider_metadata"@,
        "or is document,org.milkdrift.openai/response,model operator-model"@,
        "provider_metadata or is document,org.milkdrift.openai/response,model operator-model"@,
    );
    assert(
        "inspected,value,outputs,#1,name provider_metadata or is document,org.milkdrift.openai/response,model operator-model"@
            =~= "inspected,value,outputs,#1,name"@
                + seq![' ']
                + "provider_metadata or is document,org.milkdrift.openai/response,model operator-model"@
    );
    lemma_four_words(
        "inspected,value,outputs,#1,name"@,
        "provider_metadata or is document,org.milkdrift.openai/response,model operator-model"@,
        "inspected,value,outputs,#1,name provider_metadata or is document,org.milkdrift.openai/response,model operator-model"@,
    );
    assert(
        "isnot inspected,value,outputs,#1,name provider_metadata or is document,org.milkdrift.openai/response,model operator-model"@
            =~= "isnot"@
                + seq![' ']
                + "inspected,value,outputs,#1,name provider_metadata or is document,org.milkdrift.openai/response,model operator-model"@
    );
    lemma_four_words(
        "isnot"@,
        "inspected,value,outputs,#1,name provider_metadata or is document,org.milkdrift.openai/response,model operator-model"@,
        "isnot inspected,value,outputs,#1,name provider_metadata or is document,org.milkdrift.openai/response,model operator-model"@,
    );
    assert("document,org.milkdrift.openai/response,model"@.len() == 44);
    assert("operator-model"@.len() == 14);
    assert(
        "document,org.milkdrift.openai/response,model"@
            =~= "document"@ + seq![','] + "org.milkdrift.openai/response,model"@
    );
    assert(
        parts(
            "isnot inspected,value,outputs,#1,name provider_metadata or is document,org.milkdrift.openai/response,model operator-model"@,
        )
            =~= seq!["isnot"@, "inspected,value,outputs,#1,name"@, "provider_metadata"@]
                + seq!["or"@]
                + seq!["is"@, "document,org.milkdrift.openai/response,model"@, "operator-model"@]
    );
    assert(
        "inspected,value,outputs,#2,name provider_metadata or is document,org.milkdrift.openai/response,id operator-response-1"@
            =~= "inspected,value,outputs,#2,name"@
                + seq![' ']
                + "provider_metadata or is document,org.milkdrift.openai/response,id operator-response-1"@
    );
    lemma_four_words(
        "inspected,value,outputs,#2,name"@,
        "provider_metadata or is document,org.milkdrift.openai/response,id operator-response-1"@,
        "inspected,value,outputs,#2,name provider_metadata or is document,org.milkdrift.openai/response,id operator-response-1"@,
    );
    assert(
        "isnot inspected,value,outputs,#2,name provider_metadata or is document,org.milkdrift.openai/response,id operator-response-1"@
            =~= "isnot"@
                + seq![' ']
                + "inspected,value,outputs,#2,name provider_metadata or is document,org.milkdrift.openai/response,id operator-response-1"@
    );
    lemma_four_words(
        "isnot"@,
        "inspected,value,outputs,#2,name provider_metadata or is document,org.milkdrift.openai/response,id operator-response-1"@,
        "isnot inspected,value,outputs,#2,name provider_metadata or is document,org.milkdrift.openai/response,id operator-response-1"@,
    );
    assert("inspected,value,outputs,#2,name"@.len() == 31);
    assert(
        "inspected,value,outputs,#2,name"@ =~= "inspected"@ + seq![','] + "value,outputs,#2,name"@
    );
    assert(
        parts(
            "isnot inspected,value,outputs,#2,name provider_metadata or is document,org.milkdrift.openai/response,id operator-response-1"@,
        )
            =~= seq!["isnot"@, "inspected,value,outputs,#2,name"@, "provider_metadata"@]
                + seq!["or"@]
                + seq!["is"@, "document,org.milkdrift.openai/response,id"@, "operator-response-1"@]
    );
    assert(at(told(record, 23), "value,outputs,#1,name"@) != Tree::Text("provider_metadata"@)
            || at(said(record, 55), "org.milkdrift.openai/response,id"@)
                == Tree::Text("operator-response-1"@)) by {
        was_told(l, known, answers, record, 24);
        assert(forall|j: int|
            25 <= j < 57 ==> is_check((#[trigger] l[j]).0@) || !touches(l[j].1@, "inspected"@));
        stays_through(l, known, answers, record, 25, 57, "inspected"@);
        lemma_under(
            record[57],
            "inspected"@,
            "value,outputs,#1,name"@,
            "inspected,value,outputs,#1,name"@,
        );
        was_said(l, known, answers, record, 56);
        lemma_under(
            record[57],
            "document"@,
            "org.milkdrift.openai/response,id"@,
            "document,org.milkdrift.openai/response,id"@,
        );
        saw_either(
            l,
            known,
            answers,
            record,
            57,
            seq!["isnot"@, "inspected,value,outputs,#1,name"@, "provider_metadata"@],
            seq!["is"@, "document,org.milkdrift.openai/response,id"@, "operator-response-1"@],
        );
        lemma_judged_isnot("inspected,value,outputs,#1,name"@, "provider_metadata"@, record[57]);
        lemma_judged_is(
            "document,org.milkdrift.openai/response,id"@,
            "operator-response-1"@,
            record[57],
        );
    }
    assert(at(told(record, 23), "value,outputs,#1,name"@) != Tree::Text("provider_metadata"@)
            || at(said(record, 55), "org.milkdrift.openai/response,model"@)
                == Tree::Text("operator-model"@)) by {
        was_told(l, known, answers, record, 24);
        assert(forall|j: int|
            25 <= j < 58 ==> is_check((#[trigger] l[j]).0@) || !touches(l[j].1@, "inspected"@));
        stays_through(l, known, answers, record, 25, 58, "inspected"@);
        lemma_under(
            record[58],
            "inspected"@,
            "value,outputs,#1,name"@,
            "inspected,value,outputs,#1,name"@,
        );
        was_said(l, known, answers, record, 56);
        unchanged(l, known, answers, record, 57);
        lemma_under(
            record[58],
            "document"@,
            "org.milkdrift.openai/response,model"@,
            "document,org.milkdrift.openai/response,model"@,
        );
        saw_either(
            l,
            known,
            answers,
            record,
            58,
            seq!["isnot"@, "inspected,value,outputs,#1,name"@, "provider_metadata"@],
            seq!["is"@, "document,org.milkdrift.openai/response,model"@, "operator-model"@],
        );
        lemma_judged_isnot("inspected,value,outputs,#1,name"@, "provider_metadata"@, record[58]);
        lemma_judged_is(
            "document,org.milkdrift.openai/response,model"@,
            "operator-model"@,
            record[58],
        );
    }
    assert(at(told(record, 23), "value,outputs,#2,name"@) != Tree::Text("provider_metadata"@)
            || at(said(record, 59), "org.milkdrift.openai/response,id"@)
                == Tree::Text("operator-response-1"@)) by {
        was_told(l, known, answers, record, 24);
        assert(forall|j: int|
            25 <= j < 61 ==> is_check((#[trigger] l[j]).0@) || !touches(l[j].1@, "inspected"@));
        stays_through(l, known, answers, record, 25, 61, "inspected"@);
        lemma_under(
            record[61],
            "inspected"@,
            "value,outputs,#2,name"@,
            "inspected,value,outputs,#2,name"@,
        );
        was_said(l, known, answers, record, 60);
        lemma_under(
            record[61],
            "document"@,
            "org.milkdrift.openai/response,id"@,
            "document,org.milkdrift.openai/response,id"@,
        );
        saw_either(
            l,
            known,
            answers,
            record,
            61,
            seq!["isnot"@, "inspected,value,outputs,#2,name"@, "provider_metadata"@],
            seq!["is"@, "document,org.milkdrift.openai/response,id"@, "operator-response-1"@],
        );
        lemma_judged_isnot("inspected,value,outputs,#2,name"@, "provider_metadata"@, record[61]);
        lemma_judged_is(
            "document,org.milkdrift.openai/response,id"@,
            "operator-response-1"@,
            record[61],
        );
    }
}

proof fn lemma_model_example_was_bounded_7(
    known: Tree,
    answers: Seq<(Tree, bool)>,
    record: Seq<Tree>,
)
    requires
        passed(MODEL_EXAMPLE@, known, answers, record),
    ensures
        at(told(record, 23), "value,outputs,#2,name"@) != Tree::Text("provider_metadata"@)
            || at(said(record, 59), "org.milkdrift.openai/response,model"@)
                == Tree::Text("operator-model"@),
        all_ascend(items_of(at(told(record, 63), "value,items"@)), "sequence"@),
{
    let l = MODEL_EXAMPLE@;
    reveal_strlit(
        "isnot inspected,value,outputs,#2,name provider_metadata or is document,org.milkdrift.openai/response,model operator-model",
    );
    reveal_strlit("isnot");
    reveal_strlit(
        "inspected,value,outputs,#2,name provider_metadata or is document,org.milkdrift.openai/response,model operator-model",
    );
    reveal_strlit("inspected,value,outputs,#2,name");
    reveal_strlit(
        "provider_metadata or is document,org.milkdrift.openai/response,model operator-model",
    );
    reveal_strlit("provider_metadata");
    reveal_strlit("or is document,org.milkdrift.openai/response,model operator-model");
    reveal_strlit("or");
    reveal_strlit("is document,org.milkdrift.openai/response,model operator-model");
    reveal_strlit("is");
    reveal_strlit("document,org.milkdrift.openai/response,model operator-model");
    reveal_strlit("document,org.milkdrift.openai/response,model");
    reveal_strlit("operator-model");
    reveal_strlit("inspected");
    reveal_strlit("reply");
    reveal_strlit("artifact");
    reveal_strlit("");
    reveal_strlit("metadata");
    reveal_strlit("fetched");
    reveal_strlit("document");
    reveal_strlit("value,outputs,#2,name");
    reveal_strlit("org.milkdrift.openai/response,model");
    reveal_strlit("timeline");
    reveal_strlit("value,items");
    reveal_strlit("timeline,value,items");
    assert(
        "document,org.milkdrift.openai/response,model operator-model"@
            =~= "document,org.milkdrift.openai/response,model"@ + seq![' '] + "operator-model"@
    );
    lemma_two_words(
        "document,org.milkdrift.openai/response,model"@,
        "operator-model"@,
        "document,org.milkdrift.openai/response,model operator-model"@,
    );
    assert(
        "is document,org.milkdrift.openai/response,model operator-model"@
            =~= "is"@ + seq![' '] + "document,org.milkdrift.openai/response,model operator-model"@
    );
    lemma_four_words(
        "is"@,
        "document,org.milkdrift.openai/response,model operator-model"@,
        "is document,org.milkdrift.openai/response,model operator-model"@,
    );
    assert(
        "or is document,org.milkdrift.openai/response,model operator-model"@
            =~= "or"@ + seq![' '] + "is document,org.milkdrift.openai/response,model operator-model"@
    );
    lemma_four_words(
        "or"@,
        "is document,org.milkdrift.openai/response,model operator-model"@,
        "or is document,org.milkdrift.openai/response,model operator-model"@,
    );
    assert(
        "provider_metadata or is document,org.milkdrift.openai/response,model operator-model"@
            =~= "provider_metadata"@
                + seq![' ']
                + "or is document,org.milkdrift.openai/response,model operator-model"@
    );
    lemma_four_words(
        "provider_metadata"@,
        "or is document,org.milkdrift.openai/response,model operator-model"@,
        "provider_metadata or is document,org.milkdrift.openai/response,model operator-model"@,
    );
    assert(
        "inspected,value,outputs,#2,name provider_metadata or is document,org.milkdrift.openai/response,model operator-model"@
            =~= "inspected,value,outputs,#2,name"@
                + seq![' ']
                + "provider_metadata or is document,org.milkdrift.openai/response,model operator-model"@
    );
    lemma_four_words(
        "inspected,value,outputs,#2,name"@,
        "provider_metadata or is document,org.milkdrift.openai/response,model operator-model"@,
        "inspected,value,outputs,#2,name provider_metadata or is document,org.milkdrift.openai/response,model operator-model"@,
    );
    assert(
        "isnot inspected,value,outputs,#2,name provider_metadata or is document,org.milkdrift.openai/response,model operator-model"@
            =~= "isnot"@
                + seq![' ']
                + "inspected,value,outputs,#2,name provider_metadata or is document,org.milkdrift.openai/response,model operator-model"@
    );
    lemma_four_words(
        "isnot"@,
        "inspected,value,outputs,#2,name provider_metadata or is document,org.milkdrift.openai/response,model operator-model"@,
        "isnot inspected,value,outputs,#2,name provider_metadata or is document,org.milkdrift.openai/response,model operator-model"@,
    );
    assert("isnot"@.len() == 5);
    assert("or"@.len() == 2);
    assert("inspected,value,outputs,#2,name"@.len() == 31);
    assert("provider_metadata"@.len() == 17);
    assert("is"@[0] != "or"@[0]);
    assert("document,org.milkdrift.openai/response,model"@.len() == 44);
    assert("operator-model"@.len() == 14);
    assert("inspected"@.len() == 9);
    assert("reply"@.len() == 5);
    lemma_apart("artifact"@, "inspected"@, 0);
    lemma_apart(""@, "inspected"@, 0);
    lemma_apart("metadata"@, "inspected"@, 0);
    lemma_apart("fetched"@, "inspected"@, 0);
    lemma_apart("document"@, "inspected"@, 0);
    assert(
        "inspected,value,outputs,#2,name"@ =~= "inspected"@ + seq![','] + "value,outputs,#2,name"@
    );
    assert("document"@.len() == 8);
    assert(
        "document,org.milkdrift.openai/response,model"@
            =~= "document"@ + seq![','] + "org.milkdrift.openai/response,model"@
    );
    assert(
        parts(
            "isnot inspected,value,outputs,#2,name provider_metadata or is document,org.milkdrift.openai/response,model operator-model"@,
        )
            =~= seq!["isnot"@, "inspected,value,outputs,#2,name"@, "provider_metadata"@]
                + seq!["or"@]
                + seq!["is"@, "document,org.milkdrift.openai/response,model"@, "operator-model"@]
    );
    assert("timeline"@.len() == 8);
    assert("timeline,value,items"@ =~= "timeline"@ + seq![','] + "value,items"@);
    assert(at(told(record, 23), "value,outputs,#2,name"@) != Tree::Text("provider_metadata"@)
            || at(said(record, 59), "org.milkdrift.openai/response,model"@)
                == Tree::Text("operator-model"@)) by {
        was_told(l, known, answers, record, 24);
        assert(forall|j: int|
            25 <= j < 62 ==> is_check((#[trigger] l[j]).0@) || !touches(l[j].1@, "inspected"@));
        stays_through(l, known, answers, record, 25, 62, "inspected"@);
        lemma_under(
            record[62],
            "inspected"@,
            "value,outputs,#2,name"@,
            "inspected,value,outputs,#2,name"@,
        );
        was_said(l, known, answers, record, 60);
        unchanged(l, known, answers, record, 61);
        lemma_under(
            record[62],
            "document"@,
            "org.milkdrift.openai/response,model"@,
            "document,org.milkdrift.openai/response,model"@,
        );
        saw_either(
            l,
            known,
            answers,
            record,
            62,
            seq!["isnot"@, "inspected,value,outputs,#2,name"@, "provider_metadata"@],
            seq!["is"@, "document,org.milkdrift.openai/response,model"@, "operator-model"@],
        );
        lemma_judged_isnot("inspected,value,outputs,#2,name"@, "provider_metadata"@, record[62]);
        lemma_judged_is(
            "document,org.milkdrift.openai/response,model"@,
            "operator-model"@,
            record[62],
        );
    }
    assert(all_ascend(items_of(at(told(record, 63), "value,items"@)), "sequence"@)) by {
        was_told(l, known, answers, record, 64);
        unchanged(l, known, answers, record, 65);
        lemma_under(record[66], "timeline"@, "value,items"@, "timeline,value,items"@);
        saw_ascending(l, known, answers, record, 66);
    }
}

/// The model example finishes only where its registration and its attempt are of the first
/// generation and the loopback profile, its start was replayed, its context was authorized, its
/// observations are bounded, its usage and its three outputs were kept, a provider document among
/// them names the supplied response and model, and its timeline ascends.
pub proof fn model_example_was_bounded(
    known: Tree,
    answers: Seq<(Tree, bool)>,
) -> (record: Seq<Tree>)
    requires
        known is Object,
        finished(MODEL_EXAMPLE@, known, answers),
    ensures
        passed(MODEL_EXAMPLE@, known, answers, record),
        MODEL_EXAMPLE@[5].2@ == "cli capability show operator-model"@,
        at(told(record, 5), "value,#0,generation"@) == Tree::Integer(1),
        at(told(record, 5), "value,#0,provider_profile"@) == Tree::Text("local-model-loopback"@),
        MODEL_EXAMPLE@[13].2@
            == "cli --command-id operator-model-start run start run-operator-model operator-starter $revision"@,
        at(told(record, 13), "value,replayed"@) == Tree::Bool(true),
        MODEL_EXAMPLE@[23].2@ == "cli attempt inspect run-operator-model $attempt"@,
        at(told(record, 23), "value,descriptor_revision"@) == Tree::Integer(1),
        at(told(record, 23), "value,provider_profile"@) == Tree::Text("local-model-loopback"@),
        at(told(record, 23), "value,uncertain"@) == Tree::Bool(false),
        at(told(record, 23), "value,context_access"@) == Tree::Text("authorized"@),
        at(told(record, 23), "value,context_manifest"@) is Object,
        is_positive(at(told(record, 23), "value,progress_observations"@)),
        is_below(at(told(record, 23), "value,progress_observations"@), 10),
        at(told(record, 23), "value,usage,input_units"@) == Tree::Integer(5),
        at(told(record, 23), "value,usage,output_units"@) == Tree::Integer(1),
        items_of(at(told(record, 23), "value,outputs"@)).len() == 3,
        MODEL_EXAMPLE@[51].2@ == "read-json $outputs,#0"@,
        at(told(record, 23), "value,outputs,#0,name"@) != Tree::Text("provider_metadata"@)
            || at(said(record, 51), "org.milkdrift.openai/response,id"@)
                == Tree::Text("operator-response-1"@),
        at(told(record, 23), "value,outputs,#0,name"@) != Tree::Text("provider_metadata"@)
            || at(said(record, 51), "org.milkdrift.openai/response,model"@)
                == Tree::Text("operator-model"@),
        MODEL_EXAMPLE@[55].2@ == "read-json $outputs,#1"@,
        at(told(record, 23), "value,outputs,#1,name"@) != Tree::Text("provider_metadata"@)
            || at(said(record, 55), "org.milkdrift.openai/response,id"@)
                == Tree::Text("operator-response-1"@),
        at(told(record, 23), "value,outputs,#1,name"@) != Tree::Text("provider_metadata"@)
            || at(said(record, 55), "org.milkdrift.openai/response,model"@)
                == Tree::Text("operator-model"@),
        MODEL_EXAMPLE@[59].2@ == "read-json $outputs,#2"@,
        at(told(record, 23), "value,outputs,#2,name"@) != Tree::Text("provider_metadata"@)
            || at(said(record, 59), "org.milkdrift.openai/response,id"@)
                == Tree::Text("operator-response-1"@),
        at(told(record, 23), "value,outputs,#2,name"@) != Tree::Text("provider_metadata"@)
            || at(said(record, 59), "org.milkdrift.openai/response,model"@)
                == Tree::Text("operator-model"@),
        MODEL_EXAMPLE@[63].2@ == "cli run timeline run-operator-model --limit 100"@,
        all_ascend(items_of(at(told(record, 63), "value,items"@)), "sequence"@),
{
    let record = finished_scenarios_are_recorded(MODEL_EXAMPLE@, known, answers);
    lemma_model_example_was_bounded_1(known, answers, record);
    lemma_model_example_was_bounded_2(known, answers, record);
    lemma_model_example_was_bounded_3(known, answers, record);
    lemma_model_example_was_bounded_4(known, answers, record);
    lemma_model_example_was_bounded_5(known, answers, record);
    lemma_model_example_was_bounded_6(known, answers, record);
    lemma_model_example_was_bounded_7(known, answers, record);
    record
}

} // verus!
