//! What finished external scenarios have shown.

use vstd::prelude::*;

use crate::external::{settled_qualifies, Settled};
use crate::findings::{
    awaited_text, beginnings_pass, is_check, items_of, lemma_apart, lemma_four_words,
    lemma_named_failure, lemma_one_digit, lemma_one_word, lemma_three_words, lemma_two_words,
    lemma_under, said, saw_any, saw_contains, saw_differs, saw_is, saw_nonempty, saw_null_or_len,
    saw_null_or_num, saw_same, saw_some, saw_true, saw_true_or_trimmed, some_element, stays,
    stays_beside, stays_through, text_has, text_trims, touches, unchanged, was_awaited, was_cleared,
    was_counted, was_gathered, was_kept, was_made, was_marked, was_put, was_said, was_worded,
};
use crate::json::{at, lemma_single_segment, segments, Tree};
use crate::makers::{
    made_attempt_artifacts, made_chained, made_model_failure, made_rendered,
    makes_attempt_artifacts, makes_chained, makes_model_failure, makes_rendered,
};
use crate::record::{finished, finished_scenarios_are_recorded, passed, played};
use crate::scenario::{
    arguments, effect_of, gathered, number_of, opening, parts, script_statements, EffectView,
};
use crate::scripts::external::{
    model_end, model_script, process_end, process_script, EXTERNAL_MODEL, EXTERNAL_MODEL_COMPLETED,
    EXTERNAL_MODEL_FAILED, EXTERNAL_MODEL_JUDGED, EXTERNAL_PROCESS, MODEL_FIXTURE, MODEL_REAL,
    PROCESS_FIXTURE, PROCESS_REAL,
};

verus! {

proof fn lemma_process_was_exercised_1(known: Tree, answers: Seq<(Tree, bool)>, record: Seq<Tree>)
    requires
        passed(EXTERNAL_PROCESS@, known, answers, record),
    ensures
        at(said(record, 24), "sequence"@) == at(said(record, 9), "sequence"@),
        some_element(
            items_of(at(said(record, 24), "nodes"@)),
            "node_id"@,
            Tree::Text("stage-repair-approval"@),
        ),
        at(said(record, 37), "document"@) != Tree::Null,
        at(said(record, 61), "terminal"@) == Tree::Text("succeeded"@),
{
    let l = EXTERNAL_PROCESS@;
    reveal_strlit("recovered");
    reveal_strlit("reply");
    reveal_strlit("sequence");
    reveal_strlit("recovered,sequence");
    reveal_strlit("before_restart");
    reveal_strlit("watch");
    reveal_strlit("wait");
    reveal_strlit("");
    reveal_strlit("node");
    reveal_strlit("original_agent_attempt");
    reveal_strlit("weak_attempt");
    reveal_strlit("reviewer_attempt");
    reveal_strlit("killed");
    reveal_strlit("started");
    reveal_strlit("before_restart,sequence");
    reveal_strlit("nodes");
    reveal_strlit("recovered,nodes");
    reveal_strlit("is");
    reveal_strlit("node_id");
    reveal_strlit("stage-repair-approval");
    reveal_strlit("is node_id stage-repair-approval");
    reveal_strlit("else");
    reveal_strlit("plus");
    reveal_strlit("revision_read");
    reveal_strlit("document");
    reveal_strlit("revision_read,document");
    reveal_strlit("until");
    reveal_strlit("or");
    reveal_strlit("completed");
    reveal_strlit("completed,terminal");
    reveal_strlit("succeeded");
    reveal_strlit("is completed,terminal succeeded");
    reveal_strlit("terminal");
    assert("recovered"@.len() == 9);
    assert("reply"@.len() == 5);
    assert("recovered,sequence"@ =~= "recovered"@ + seq![','] + "sequence"@);
    assert("before_restart"@.len() == 14);
    assert("watch"@.len() == 5);
    assert("wait"@.len() == 4);
    lemma_apart(""@, "before_restart"@, 0);
    lemma_apart("node"@, "before_restart"@, 0);
    lemma_apart("original_agent_attempt"@, "before_restart"@, 0);
    lemma_apart("weak_attempt"@, "before_restart"@, 0);
    lemma_apart("reviewer_attempt"@, "before_restart"@, 0);
    lemma_apart("killed"@, "before_restart"@, 0);
    lemma_apart("started"@, "before_restart"@, 0);
    lemma_apart("recovered"@, "before_restart"@, 0);
    assert("before_restart,sequence"@ =~= "before_restart"@ + seq![','] + "sequence"@);
    assert("recovered,nodes"@ =~= "recovered"@ + seq![','] + "nodes"@);
    assert(
        "is node_id stage-repair-approval"@
            =~= "is"@ + seq![' '] + "node_id"@ + seq![' '] + "stage-repair-approval"@
    );
    lemma_three_words(
        "is"@,
        "node_id"@,
        "stage-repair-approval"@,
        "is node_id stage-repair-approval"@,
    );
    assert("node_id"@.len() == 7);
    assert("else"@.len() == 4);
    assert("plus"@.len() == 4);
    assert("stage-repair-approval"@.len() == 21);
    assert("revision_read"@.len() == 13);
    assert("revision_read,document"@ =~= "revision_read"@ + seq![','] + "document"@);
    assert("completed"@.len() == 9);
    assert(
        "is completed,terminal succeeded"@
            =~= "is"@ + seq![' '] + "completed,terminal"@ + seq![' '] + "succeeded"@
    );
    lemma_three_words(
        "is"@,
        "completed,terminal"@,
        "succeeded"@,
        "is completed,terminal succeeded"@,
    );
    assert("completed,terminal"@.len() == 18);
    assert("succeeded"@.len() == 9);
    assert("or"@.len() == 2);
    assert("completed,terminal"@ =~= "completed"@ + seq![','] + "terminal"@);
    assert(at(said(record, 24), "sequence"@) == at(said(record, 9), "sequence"@)) by {
        was_said(l, known, answers, record, 25);
        lemma_under(record[26], "recovered"@, "sequence"@, "recovered,sequence"@);
        was_awaited(l, known, answers, record, 9);
        assert(forall|j: int|
            10 <= j < 26
                ==> is_check((#[trigger] l[j]).0@) || !touches(l[j].1@, "before_restart"@));
        stays_through(l, known, answers, record, 10, 26, "before_restart"@);
        lemma_under(record[26], "before_restart"@, "sequence"@, "before_restart,sequence"@);
        saw_same(l, known, answers, record, 26);
    }
    assert(some_element(
            items_of(at(said(record, 24), "nodes"@)),
            "node_id"@,
            Tree::Text("stage-repair-approval"@),
        )) by {
        was_said(l, known, answers, record, 25);
        unchanged(l, known, answers, record, 26);
        lemma_under(record[27], "recovered"@, "nodes"@, "recovered,nodes"@);
        saw_any(l, known, answers, record, 27, "node_id"@, "stage-repair-approval"@);
    }
    assert(at(said(record, 37), "document"@) != Tree::Null) by {
        was_said(l, known, answers, record, 38);
        lemma_under(record[39], "revision_read"@, "document"@, "revision_read,document"@);
        saw_some(l, known, answers, record, 39);
    }
    assert(at(said(record, 61), "terminal"@) == Tree::Text("succeeded"@)) by {
        was_awaited(l, known, answers, record, 61);
        awaited_text(l, known, answers, record, 61, 62, "completed,terminal"@, "succeeded"@);
        lemma_under(record[62], "completed"@, "terminal"@, "completed,terminal"@);
    }
}

proof fn lemma_process_was_exercised_2(known: Tree, answers: Seq<(Tree, bool)>, record: Seq<Tree>)
    requires
        passed(EXTERNAL_PROCESS@, known, answers, record),
    ensures
        at(at(said(record, 68), "capability_provenance"@), "implementation_content_digest"@)
            == at(at(known, "agent"@), "content_digest"@),
        at(at(said(record, 68), "capability_provenance"@), "implementation_size_bytes"@)
            == at(at(known, "agent"@), "size_bytes"@),
        at(at(said(record, 68), "capability_provenance"@), "process_profile_digest"@) != Tree::Null,
        at(at(said(record, 68), "capability_provenance"@), "execution_policy_digest"@)
            != Tree::Null,
{
    let l = EXTERNAL_PROCESS@;
    reveal_strlit("agent_provenance");
    reveal_strlit("reply");
    reveal_strlit("agent_read");
    reveal_strlit("capability_provenance");
    reveal_strlit("agent_read,capability_provenance");
    reveal_strlit("implementation_content_digest");
    reveal_strlit("agent_provenance,implementation_content_digest");
    reveal_strlit("agent");
    reveal_strlit("");
    reveal_strlit("started");
    reveal_strlit("ready");
    reveal_strlit("imported");
    reveal_strlit("revision");
    reveal_strlit("started_run");
    reveal_strlit("before_restart");
    reveal_strlit("node");
    reveal_strlit("original_agent_attempt");
    reveal_strlit("weak_attempt");
    reveal_strlit("reviewer_attempt");
    reveal_strlit("killed");
    reveal_strlit("recovered");
    reveal_strlit("boundary,boundary");
    reveal_strlit("boundary,sequence_before");
    reveal_strlit("boundary,sequence_after");
    reveal_strlit("boundary,recovered_state");
    reveal_strlit("boundary,duplicate_attempts");
    reveal_strlit("pausing");
    reveal_strlit("paused");
    reveal_strlit("revision_read");
    reveal_strlit("proposal");
    reveal_strlit("submitted");
    reveal_strlit("proposed_revision");
    reveal_strlit("decision_state");
    reveal_strlit("approved");
    reveal_strlit("apply_state");
    reveal_strlit("applied");
    reveal_strlit("signal_state");
    reveal_strlit("signalled");
    reveal_strlit("resume_state");
    reveal_strlit("resumed");
    reveal_strlit("completed");
    reveal_strlit("remediation_attempt");
    reveal_strlit("good_attempt");
    reveal_strlit("content_digest");
    reveal_strlit("agent,content_digest");
    reveal_strlit("implementation_size_bytes");
    reveal_strlit("agent_provenance,implementation_size_bytes");
    reveal_strlit("size_bytes");
    reveal_strlit("agent,size_bytes");
    reveal_strlit("process_profile_digest");
    reveal_strlit("agent_provenance,process_profile_digest");
    reveal_strlit("execution_policy_digest");
    reveal_strlit("agent_provenance,execution_policy_digest");
    assert("agent_provenance"@.len() == 16);
    assert("reply"@.len() == 5);
    assert("agent_read"@.len() == 10);
    assert(
        "agent_read,capability_provenance"@
            =~= "agent_read"@ + seq![','] + "capability_provenance"@
    );
    assert(
        "agent_provenance,implementation_content_digest"@
            =~= "agent_provenance"@ + seq![','] + "implementation_content_digest"@
    );
    assert("agent"@[0] != "reply"@[0]);
    lemma_apart(""@, "agent"@, 0);
    lemma_apart("started"@, "agent"@, 0);
    lemma_apart("ready"@, "agent"@, 0);
    lemma_apart("imported"@, "agent"@, 0);
    lemma_apart("revision"@, "agent"@, 0);
    lemma_apart("started_run"@, "agent"@, 0);
    lemma_apart("before_restart"@, "agent"@, 0);
    lemma_apart("node"@, "agent"@, 0);
    lemma_apart("original_agent_attempt"@, "agent"@, 0);
    lemma_apart("weak_attempt"@, "agent"@, 0);
    lemma_apart("reviewer_attempt"@, "agent"@, 0);
    lemma_apart("killed"@, "agent"@, 0);
    lemma_apart("recovered"@, "agent"@, 0);
    lemma_apart("boundary,boundary"@, "agent"@, 0);
    lemma_apart("boundary,sequence_before"@, "agent"@, 0);
    lemma_apart("boundary,sequence_after"@, "agent"@, 0);
    lemma_apart("boundary,recovered_state"@, "agent"@, 0);
    lemma_apart("boundary,duplicate_attempts"@, "agent"@, 0);
    lemma_apart("pausing"@, "agent"@, 0);
    lemma_apart("paused"@, "agent"@, 0);
    lemma_apart("revision_read"@, "agent"@, 0);
    lemma_apart("proposal"@, "agent"@, 0);
    lemma_apart("submitted"@, "agent"@, 0);
    lemma_apart("proposed_revision"@, "agent"@, 0);
    lemma_apart("decision_state"@, "agent"@, 0);
    lemma_apart("approved"@, "agent"@, 1);
    lemma_apart("apply_state"@, "agent"@, 1);
    lemma_apart("applied"@, "agent"@, 1);
    lemma_apart("signal_state"@, "agent"@, 0);
    lemma_apart("signalled"@, "agent"@, 0);
    lemma_apart("resume_state"@, "agent"@, 0);
    lemma_apart("resumed"@, "agent"@, 0);
    lemma_apart("completed"@, "agent"@, 0);
    lemma_apart("remediation_attempt"@, "agent"@, 0);
    lemma_apart("good_attempt"@, "agent"@, 0);
    lemma_apart("agent_read"@, "agent"@, 5);
    lemma_apart("agent_provenance"@, "agent"@, 5);
    assert("agent,content_digest"@ =~= "agent"@ + seq![','] + "content_digest"@);
    assert(
        "agent_provenance,implementation_size_bytes"@
            =~= "agent_provenance"@ + seq![','] + "implementation_size_bytes"@
    );
    assert("agent,size_bytes"@ =~= "agent"@ + seq![','] + "size_bytes"@);
    assert(
        "agent_provenance,process_profile_digest"@
            =~= "agent_provenance"@ + seq![','] + "process_profile_digest"@
    );
    assert(
        "agent_provenance,execution_policy_digest"@
            =~= "agent_provenance"@ + seq![','] + "execution_policy_digest"@
    );
    assert(at(at(said(record, 68), "capability_provenance"@), "implementation_content_digest"@)
            == at(at(known, "agent"@), "content_digest"@)) by {
        was_kept(l, known, answers, record, 71);
        was_said(l, known, answers, record, 69);
        unchanged(l, known, answers, record, 70);
        lemma_under(
            record[71],
            "agent_read"@,
            "capability_provenance"@,
            "agent_read,capability_provenance"@,
        );
        lemma_under(
            record[72],
            "agent_provenance"@,
            "implementation_content_digest"@,
            "agent_provenance,implementation_content_digest"@,
        );
        assert(forall|j: int|
            0 <= j < 72 ==> is_check((#[trigger] l[j]).0@) || !touches(l[j].1@, "agent"@));
        stays_through(l, known, answers, record, 0, 72, "agent"@);
        lemma_under(record[72], "agent"@, "content_digest"@, "agent,content_digest"@);
        saw_same(l, known, answers, record, 72);
    }
    assert(at(at(said(record, 68), "capability_provenance"@), "implementation_size_bytes"@)
            == at(at(known, "agent"@), "size_bytes"@)) by {
        was_kept(l, known, answers, record, 71);
        was_said(l, known, answers, record, 69);
        unchanged(l, known, answers, record, 70);
        lemma_under(
            record[71],
            "agent_read"@,
            "capability_provenance"@,
            "agent_read,capability_provenance"@,
        );
        unchanged(l, known, answers, record, 72);
        lemma_under(
            record[73],
            "agent_provenance"@,
            "implementation_size_bytes"@,
            "agent_provenance,implementation_size_bytes"@,
        );
        assert(forall|j: int|
            0 <= j < 73 ==> is_check((#[trigger] l[j]).0@) || !touches(l[j].1@, "agent"@));
        stays_through(l, known, answers, record, 0, 73, "agent"@);
        lemma_under(record[73], "agent"@, "size_bytes"@, "agent,size_bytes"@);
        saw_same(l, known, answers, record, 73);
    }
    assert(at(at(said(record, 68), "capability_provenance"@), "process_profile_digest"@) != Tree::Null) by {
        was_kept(l, known, answers, record, 71);
        was_said(l, known, answers, record, 69);
        unchanged(l, known, answers, record, 70);
        lemma_under(
            record[71],
            "agent_read"@,
            "capability_provenance"@,
            "agent_read,capability_provenance"@,
        );
        unchanged(l, known, answers, record, 72);
        unchanged(l, known, answers, record, 73);
        lemma_under(
            record[74],
            "agent_provenance"@,
            "process_profile_digest"@,
            "agent_provenance,process_profile_digest"@,
        );
        saw_some(l, known, answers, record, 74);
    }
    assert(at(at(said(record, 68), "capability_provenance"@), "execution_policy_digest"@)
            != Tree::Null) by {
        was_kept(l, known, answers, record, 71);
        was_said(l, known, answers, record, 69);
        unchanged(l, known, answers, record, 70);
        lemma_under(
            record[71],
            "agent_read"@,
            "capability_provenance"@,
            "agent_read,capability_provenance"@,
        );
        unchanged(l, known, answers, record, 72);
        unchanged(l, known, answers, record, 73);
        unchanged(l, known, answers, record, 74);
        lemma_under(
            record[75],
            "agent_provenance"@,
            "execution_policy_digest"@,
            "agent_provenance,execution_policy_digest"@,
        );
        saw_some(l, known, answers, record, 75);
    }
}

proof fn lemma_process_was_exercised_3(known: Tree, answers: Seq<(Tree, bool)>, record: Seq<Tree>)
    requires
        passed(EXTERNAL_PROCESS@, known, answers, record),
    ensures
        at(at(said(record, 68), "capability_provenance"@), "configured_path_digest"@) != Tree::Null,
        at(at(said(record, 68), "capability_provenance"@), "canonical_path_digest"@) != Tree::Null,
        some_element(
            items_of(at(said(record, 78), "outputs"@)),
            "name"@,
            Tree::Text("verification_result"@),
        ),
        some_element(
            items_of(at(said(record, 78), "outputs"@)),
            "name"@,
            Tree::Text("verification_logs"@),
        ),
{
    let l = EXTERNAL_PROCESS@;
    reveal_strlit("agent_provenance");
    reveal_strlit("reply");
    reveal_strlit("agent_read");
    reveal_strlit("capability_provenance");
    reveal_strlit("agent_read,capability_provenance");
    reveal_strlit("configured_path_digest");
    reveal_strlit("agent_provenance,configured_path_digest");
    reveal_strlit("canonical_path_digest");
    reveal_strlit("agent_provenance,canonical_path_digest");
    reveal_strlit("good_read");
    reveal_strlit("");
    reveal_strlit("weak_read");
    reveal_strlit("reviewer_read");
    reveal_strlit("remediation_read");
    reveal_strlit("outputs");
    reveal_strlit("good_read,outputs");
    reveal_strlit("is");
    reveal_strlit("name");
    reveal_strlit("verification_result");
    reveal_strlit("is name verification_result");
    reveal_strlit("else");
    reveal_strlit("plus");
    reveal_strlit("verification_logs");
    reveal_strlit("is name verification_logs");
    assert("agent_provenance"@.len() == 16);
    assert("reply"@.len() == 5);
    assert("agent_read"@.len() == 10);
    assert(
        "agent_read,capability_provenance"@
            =~= "agent_read"@ + seq![','] + "capability_provenance"@
    );
    assert(
        "agent_provenance,configured_path_digest"@
            =~= "agent_provenance"@ + seq![','] + "configured_path_digest"@
    );
    assert(
        "agent_provenance,canonical_path_digest"@
            =~= "agent_provenance"@ + seq![','] + "canonical_path_digest"@
    );
    assert("good_read"@.len() == 9);
    lemma_apart(""@, "good_read"@, 0);
    lemma_apart("weak_read"@, "good_read"@, 0);
    lemma_apart("reviewer_read"@, "good_read"@, 0);
    lemma_apart("remediation_read"@, "good_read"@, 0);
    assert("good_read,outputs"@ =~= "good_read"@ + seq![','] + "outputs"@);
    assert(
        "is name verification_result"@
            =~= "is"@ + seq![' '] + "name"@ + seq![' '] + "verification_result"@
    );
    lemma_three_words("is"@, "name"@, "verification_result"@, "is name verification_result"@);
    assert("name"@[0] != "else"@[0]);
    assert("name"@[0] != "plus"@[0]);
    assert("verification_result"@.len() == 19);
    assert("else"@.len() == 4);
    assert("plus"@.len() == 4);
    assert(
        "is name verification_logs"@
            =~= "is"@ + seq![' '] + "name"@ + seq![' '] + "verification_logs"@
    );
    lemma_three_words("is"@, "name"@, "verification_logs"@, "is name verification_logs"@);
    assert("verification_logs"@.len() == 17);
    assert(at(at(said(record, 68), "capability_provenance"@), "configured_path_digest"@) != Tree::Null) by {
        was_kept(l, known, answers, record, 71);
        was_said(l, known, answers, record, 69);
        unchanged(l, known, answers, record, 70);
        lemma_under(
            record[71],
            "agent_read"@,
            "capability_provenance"@,
            "agent_read,capability_provenance"@,
        );
        assert(forall|j: int|
            72 <= j < 76
                ==> is_check((#[trigger] l[j]).0@) || !touches(l[j].1@, "agent_provenance"@));
        stays_through(l, known, answers, record, 72, 76, "agent_provenance"@);
        lemma_under(
            record[76],
            "agent_provenance"@,
            "configured_path_digest"@,
            "agent_provenance,configured_path_digest"@,
        );
        saw_some(l, known, answers, record, 76);
    }
    assert(at(at(said(record, 68), "capability_provenance"@), "canonical_path_digest"@) != Tree::Null) by {
        was_kept(l, known, answers, record, 71);
        was_said(l, known, answers, record, 69);
        unchanged(l, known, answers, record, 70);
        lemma_under(
            record[71],
            "agent_read"@,
            "capability_provenance"@,
            "agent_read,capability_provenance"@,
        );
        assert(forall|j: int|
            72 <= j < 77
                ==> is_check((#[trigger] l[j]).0@) || !touches(l[j].1@, "agent_provenance"@));
        stays_through(l, known, answers, record, 72, 77, "agent_provenance"@);
        lemma_under(
            record[77],
            "agent_provenance"@,
            "canonical_path_digest"@,
            "agent_provenance,canonical_path_digest"@,
        );
        saw_some(l, known, answers, record, 77);
    }
    assert(some_element(
            items_of(at(said(record, 78), "outputs"@)),
            "name"@,
            Tree::Text("verification_result"@),
        )) by {
        was_said(l, known, answers, record, 79);
        assert(forall|j: int|
            80 <= j < 86 ==> is_check((#[trigger] l[j]).0@) || !touches(l[j].1@, "good_read"@));
        stays_through(l, known, answers, record, 80, 86, "good_read"@);
        lemma_under(record[86], "good_read"@, "outputs"@, "good_read,outputs"@);
        saw_any(l, known, answers, record, 86, "name"@, "verification_result"@);
    }
    assert(some_element(
            items_of(at(said(record, 78), "outputs"@)),
            "name"@,
            Tree::Text("verification_logs"@),
        )) by {
        was_said(l, known, answers, record, 79);
        assert(forall|j: int|
            80 <= j < 87 ==> is_check((#[trigger] l[j]).0@) || !touches(l[j].1@, "good_read"@));
        stays_through(l, known, answers, record, 80, 87, "good_read"@);
        lemma_under(record[87], "good_read"@, "outputs"@, "good_read,outputs"@);
        saw_any(l, known, answers, record, 87, "name"@, "verification_logs"@);
    }
}

/// A process scenario finishes only where the run came back from a kill at the sequence it had,
/// still waiting for its approval, and then succeeded, the agent's attempt names the very
/// executable of its profile and every policy, and the final verification has its result and its
/// logs.
pub proof fn process_was_exercised(
    fixture: bool,
    known: Tree,
    answers: Seq<(Tree, bool)>,
) -> (record: Seq<Tree>)
    requires
        known is Object,
        finished(process_script(fixture), known, answers),
    ensures
        passed(process_script(fixture), known, answers, record),
        EXTERNAL_PROCESS@[24].2@ == "client run run-external-process"@,
        EXTERNAL_PROCESS@[9].2@ == "client run run-external-process"@,
        at(said(record, 24), "sequence"@) == at(said(record, 9), "sequence"@),
        some_element(
            items_of(at(said(record, 24), "nodes"@)),
            "node_id"@,
            Tree::Text("stage-repair-approval"@),
        ),
        EXTERNAL_PROCESS@[37].2@ == "client revision $revision"@,
        at(said(record, 37), "document"@) != Tree::Null,
        EXTERNAL_PROCESS@[61].2@ == "client run run-external-process"@,
        at(said(record, 61), "terminal"@) == Tree::Text("succeeded"@),
        EXTERNAL_PROCESS@[68].2@ == "client attempt run-external-process $original_agent_attempt"@,
        at(at(said(record, 68), "capability_provenance"@), "implementation_content_digest"@)
            == at(at(known, "agent"@), "content_digest"@),
        at(at(said(record, 68), "capability_provenance"@), "implementation_size_bytes"@)
            == at(at(known, "agent"@), "size_bytes"@),
        at(at(said(record, 68), "capability_provenance"@), "process_profile_digest"@) != Tree::Null,
        at(at(said(record, 68), "capability_provenance"@), "execution_policy_digest"@)
            != Tree::Null,
        at(at(said(record, 68), "capability_provenance"@), "configured_path_digest"@) != Tree::Null,
        at(at(said(record, 68), "capability_provenance"@), "canonical_path_digest"@) != Tree::Null,
        EXTERNAL_PROCESS@[78].2@ == "client attempt run-external-process $good_attempt"@,
        some_element(
            items_of(at(said(record, 78), "outputs"@)),
            "name"@,
            Tree::Text("verification_result"@),
        ),
        some_element(
            items_of(at(said(record, 78), "outputs"@)),
            "name"@,
            Tree::Text("verification_logs"@),
        ),
{
    let record = finished_scenarios_are_recorded(process_script(fixture), known, answers);
    beginnings_pass(EXTERNAL_PROCESS@, process_end(fixture), known, answers, record);
    let first = record.take(EXTERNAL_PROCESS@.len() as int + 1);
    lemma_process_was_exercised_1(known, answers, first);
    lemma_process_was_exercised_2(known, answers, first);
    lemma_process_was_exercised_3(known, answers, first);
    record
}

proof fn lemma_process_artifacts_were_listed_1(
    known: Tree,
    answers: Seq<(Tree, bool)>,
    record: Seq<Tree>,
)
    requires
        passed(EXTERNAL_PROCESS@, known, answers, record),
    ensures
        made_attempt_artifacts(Tree::Text("initial_coding"@), said(record, 68))
            == Ok::<Tree, Seq<char>>(at(record[165], "initial_coding_artifacts"@)),
        made_attempt_artifacts(Tree::Text("controlled_verification"@), said(record, 80))
            == Ok::<Tree, Seq<char>>(at(record[166], "controlled_verification_artifacts"@)),
{
    let l = EXTERNAL_PROCESS@;
    reveal_strlit("initial_coding_artifacts");
    reveal_strlit("attempt-artifacts =initial_coding agent_read");
    reveal_strlit("attempt-artifacts");
    reveal_strlit("=initial_coding agent_read");
    reveal_strlit("=initial_coding");
    reveal_strlit("agent_read");
    reveal_strlit("initial_coding");
    reveal_strlit("reply");
    reveal_strlit("agent_provenance");
    reveal_strlit("");
    reveal_strlit("good_read");
    reveal_strlit("weak_read");
    reveal_strlit("reviewer_read");
    reveal_strlit("remediation_read");
    reveal_strlit("initial_coding_invocation");
    reveal_strlit("invocation,role");
    reveal_strlit("invocation,attempt_id");
    reveal_strlit("invocation,invocation_id");
    reveal_strlit("invocation,capability_id");
    reveal_strlit("invocation,descriptor_revision");
    reveal_strlit("invocation,snapshot_digest");
    reveal_strlit("invocation,process_profile_digest");
    reveal_strlit("invocation,context_manifest_digest");
    reveal_strlit("invocation,terminal");
    reveal_strlit("invocation,uncertain");
    reveal_strlit("controlled_verification_invocation");
    reveal_strlit("controlled_verification");
    reveal_strlit("independent_review_invocation");
    reveal_strlit("independent_review");
    reveal_strlit("remediation_coding_invocation");
    reveal_strlit("remediation_coding");
    reveal_strlit("final_verification_invocation");
    reveal_strlit("final_verification");
    reveal_strlit("invocations");
    reveal_strlit("controlled_verification_artifacts");
    reveal_strlit("attempt-artifacts =controlled_verification weak_read");
    reveal_strlit("=controlled_verification weak_read");
    reveal_strlit("=controlled_verification");
    assert("=initial_coding agent_read"@ =~= "=initial_coding"@ + seq![' '] + "agent_read"@);
    lemma_two_words("=initial_coding"@, "agent_read"@, "=initial_coding agent_read"@);
    assert(
        "attempt-artifacts =initial_coding agent_read"@
            =~= "attempt-artifacts"@ + seq![' '] + "=initial_coding agent_read"@
    );
    lemma_four_words(
        "attempt-artifacts"@,
        "=initial_coding agent_read"@,
        "attempt-artifacts =initial_coding agent_read"@,
    );
    assert(
        parts("attempt-artifacts =initial_coding agent_read"@)
            =~= seq!["attempt-artifacts"@, "=initial_coding"@, "agent_read"@]
    );
    assert("=initial_coding"@.len() == 15);
    assert("=initial_coding"@.skip(1) =~= "initial_coding"@);
    assert("agent_read"@.len() == 10);
    assert("reply"@.len() == 5);
    lemma_apart("agent_provenance"@, "agent_read"@, 6);
    lemma_apart(""@, "agent_read"@, 0);
    lemma_apart("good_read"@, "agent_read"@, 0);
    lemma_apart("weak_read"@, "agent_read"@, 0);
    lemma_apart("reviewer_read"@, "agent_read"@, 0);
    lemma_apart("remediation_read"@, "agent_read"@, 0);
    lemma_apart("initial_coding_invocation"@, "agent_read"@, 0);
    lemma_apart("invocation,role"@, "agent_read"@, 0);
    lemma_apart("invocation,attempt_id"@, "agent_read"@, 0);
    lemma_apart("invocation,invocation_id"@, "agent_read"@, 0);
    lemma_apart("invocation,capability_id"@, "agent_read"@, 0);
    lemma_apart("invocation,descriptor_revision"@, "agent_read"@, 0);
    lemma_apart("invocation,snapshot_digest"@, "agent_read"@, 0);
    lemma_apart("invocation,process_profile_digest"@, "agent_read"@, 0);
    lemma_apart("invocation,context_manifest_digest"@, "agent_read"@, 0);
    lemma_apart("invocation,terminal"@, "agent_read"@, 0);
    lemma_apart("invocation,uncertain"@, "agent_read"@, 0);
    lemma_apart("initial_coding"@, "agent_read"@, 0);
    lemma_apart("controlled_verification_invocation"@, "agent_read"@, 0);
    lemma_apart("controlled_verification"@, "agent_read"@, 0);
    lemma_apart("independent_review_invocation"@, "agent_read"@, 0);
    lemma_apart("independent_review"@, "agent_read"@, 0);
    lemma_apart("remediation_coding_invocation"@, "agent_read"@, 0);
    lemma_apart("remediation_coding"@, "agent_read"@, 0);
    lemma_apart("final_verification_invocation"@, "agent_read"@, 0);
    lemma_apart("final_verification"@, "agent_read"@, 0);
    lemma_apart("invocations"@, "agent_read"@, 0);
    assert(
        parts("attempt-artifacts =initial_coding agent_read"@).skip(1)
            =~= seq!["=initial_coding"@, "agent_read"@]
    );
    assert(
        "=controlled_verification weak_read"@
            =~= "=controlled_verification"@ + seq![' '] + "weak_read"@
    );
    lemma_two_words(
        "=controlled_verification"@,
        "weak_read"@,
        "=controlled_verification weak_read"@,
    );
    assert(
        "attempt-artifacts =controlled_verification weak_read"@
            =~= "attempt-artifacts"@ + seq![' '] + "=controlled_verification weak_read"@
    );
    lemma_four_words(
        "attempt-artifacts"@,
        "=controlled_verification weak_read"@,
        "attempt-artifacts =controlled_verification weak_read"@,
    );
    assert(
        parts("attempt-artifacts =controlled_verification weak_read"@)
            =~= seq!["attempt-artifacts"@, "=controlled_verification"@, "weak_read"@]
    );
    assert("=controlled_verification"@.len() == 24);
    assert("=controlled_verification"@.skip(1) =~= "controlled_verification"@);
    assert("weak_read"@.len() == 9);
    lemma_apart(""@, "weak_read"@, 0);
    lemma_apart("reviewer_read"@, "weak_read"@, 0);
    lemma_apart("remediation_read"@, "weak_read"@, 0);
    lemma_apart("initial_coding_invocation"@, "weak_read"@, 0);
    lemma_apart("invocation,role"@, "weak_read"@, 0);
    lemma_apart("invocation,attempt_id"@, "weak_read"@, 0);
    lemma_apart("invocation,invocation_id"@, "weak_read"@, 0);
    lemma_apart("invocation,capability_id"@, "weak_read"@, 0);
    lemma_apart("invocation,descriptor_revision"@, "weak_read"@, 0);
    lemma_apart("invocation,snapshot_digest"@, "weak_read"@, 0);
    lemma_apart("invocation,process_profile_digest"@, "weak_read"@, 0);
    lemma_apart("invocation,context_manifest_digest"@, "weak_read"@, 0);
    lemma_apart("invocation,terminal"@, "weak_read"@, 0);
    lemma_apart("invocation,uncertain"@, "weak_read"@, 0);
    lemma_apart("initial_coding"@, "weak_read"@, 0);
    lemma_apart("controlled_verification_invocation"@, "weak_read"@, 0);
    lemma_apart("controlled_verification"@, "weak_read"@, 0);
    lemma_apart("independent_review_invocation"@, "weak_read"@, 0);
    lemma_apart("independent_review"@, "weak_read"@, 0);
    lemma_apart("remediation_coding_invocation"@, "weak_read"@, 0);
    lemma_apart("remediation_coding"@, "weak_read"@, 0);
    lemma_apart("final_verification_invocation"@, "weak_read"@, 0);
    lemma_apart("final_verification"@, "weak_read"@, 0);
    lemma_apart("invocations"@, "weak_read"@, 0);
    lemma_apart("initial_coding_artifacts"@, "weak_read"@, 0);
    assert(
        parts("attempt-artifacts =controlled_verification weak_read"@).skip(1)
            =~= seq!["=controlled_verification"@, "weak_read"@]
    );
    assert(made_attempt_artifacts(Tree::Text("initial_coding"@), said(record, 68))
            == Ok::<Tree, Seq<char>>(at(record[165], "initial_coding_artifacts"@))) by {
        was_made(l, known, answers, record, 164);
        was_said(l, known, answers, record, 69);
        assert(forall|j: int|
            70 <= j < 164 ==> is_check((#[trigger] l[j]).0@) || !touches(l[j].1@, "agent_read"@));
        stays_through(l, known, answers, record, 70, 164, "agent_read"@);
        let args164 = arguments(
            parts("attempt-artifacts =initial_coding agent_read"@).skip(1),
            record[164],
        );
        assert(args164 =~= seq![Tree::Text("initial_coding"@), said(record, 68)]);
        makes_attempt_artifacts(args164, record[164]);
    }
    assert(made_attempt_artifacts(Tree::Text("controlled_verification"@), said(record, 80))
            == Ok::<Tree, Seq<char>>(at(record[166], "controlled_verification_artifacts"@))) by {
        was_made(l, known, answers, record, 165);
        was_said(l, known, answers, record, 81);
        assert(forall|j: int|
            82 <= j < 165 ==> is_check((#[trigger] l[j]).0@) || !touches(l[j].1@, "weak_read"@));
        stays_through(l, known, answers, record, 82, 165, "weak_read"@);
        let args165 = arguments(
            parts("attempt-artifacts =controlled_verification weak_read"@).skip(1),
            record[165],
        );
        assert(args165 =~= seq![Tree::Text("controlled_verification"@), said(record, 80)]);
        makes_attempt_artifacts(args165, record[165]);
    }
}

proof fn lemma_process_artifacts_were_listed_2(
    known: Tree,
    answers: Seq<(Tree, bool)>,
    record: Seq<Tree>,
)
    requires
        passed(EXTERNAL_PROCESS@, known, answers, record),
    ensures
        made_attempt_artifacts(Tree::Text("independent_review"@), said(record, 82))
            == Ok::<Tree, Seq<char>>(at(record[167], "independent_review_artifacts"@)),
        made_attempt_artifacts(Tree::Text("remediation_coding"@), said(record, 84))
            == Ok::<Tree, Seq<char>>(at(record[168], "remediation_coding_artifacts"@)),
{
    let l = EXTERNAL_PROCESS@;
    reveal_strlit("independent_review_artifacts");
    reveal_strlit("attempt-artifacts =independent_review reviewer_read");
    reveal_strlit("attempt-artifacts");
    reveal_strlit("=independent_review reviewer_read");
    reveal_strlit("=independent_review");
    reveal_strlit("reviewer_read");
    reveal_strlit("independent_review");
    reveal_strlit("reply");
    reveal_strlit("");
    reveal_strlit("remediation_read");
    reveal_strlit("initial_coding_invocation");
    reveal_strlit("invocation,role");
    reveal_strlit("invocation,attempt_id");
    reveal_strlit("invocation,invocation_id");
    reveal_strlit("invocation,capability_id");
    reveal_strlit("invocation,descriptor_revision");
    reveal_strlit("invocation,snapshot_digest");
    reveal_strlit("invocation,process_profile_digest");
    reveal_strlit("invocation,context_manifest_digest");
    reveal_strlit("invocation,terminal");
    reveal_strlit("invocation,uncertain");
    reveal_strlit("initial_coding");
    reveal_strlit("controlled_verification_invocation");
    reveal_strlit("controlled_verification");
    reveal_strlit("independent_review_invocation");
    reveal_strlit("remediation_coding_invocation");
    reveal_strlit("remediation_coding");
    reveal_strlit("final_verification_invocation");
    reveal_strlit("final_verification");
    reveal_strlit("invocations");
    reveal_strlit("initial_coding_artifacts");
    reveal_strlit("controlled_verification_artifacts");
    reveal_strlit("remediation_coding_artifacts");
    reveal_strlit("attempt-artifacts =remediation_coding remediation_read");
    reveal_strlit("=remediation_coding remediation_read");
    reveal_strlit("=remediation_coding");
    assert(
        "=independent_review reviewer_read"@
            =~= "=independent_review"@ + seq![' '] + "reviewer_read"@
    );
    lemma_two_words("=independent_review"@, "reviewer_read"@, "=independent_review reviewer_read"@);
    assert(
        "attempt-artifacts =independent_review reviewer_read"@
            =~= "attempt-artifacts"@ + seq![' '] + "=independent_review reviewer_read"@
    );
    lemma_four_words(
        "attempt-artifacts"@,
        "=independent_review reviewer_read"@,
        "attempt-artifacts =independent_review reviewer_read"@,
    );
    assert(
        parts("attempt-artifacts =independent_review reviewer_read"@)
            =~= seq!["attempt-artifacts"@, "=independent_review"@, "reviewer_read"@]
    );
    assert("=independent_review"@.len() == 19);
    assert("=independent_review"@.skip(1) =~= "independent_review"@);
    assert("reviewer_read"@.len() == 13);
    assert("reply"@.len() == 5);
    lemma_apart(""@, "reviewer_read"@, 0);
    lemma_apart("remediation_read"@, "reviewer_read"@, 2);
    lemma_apart("initial_coding_invocation"@, "reviewer_read"@, 0);
    lemma_apart("invocation,role"@, "reviewer_read"@, 0);
    lemma_apart("invocation,attempt_id"@, "reviewer_read"@, 0);
    lemma_apart("invocation,invocation_id"@, "reviewer_read"@, 0);
    lemma_apart("invocation,capability_id"@, "reviewer_read"@, 0);
    lemma_apart("invocation,descriptor_revision"@, "reviewer_read"@, 0);
    lemma_apart("invocation,snapshot_digest"@, "reviewer_read"@, 0);
    lemma_apart("invocation,process_profile_digest"@, "reviewer_read"@, 0);
    lemma_apart("invocation,context_manifest_digest"@, "reviewer_read"@, 0);
    lemma_apart("invocation,terminal"@, "reviewer_read"@, 0);
    lemma_apart("invocation,uncertain"@, "reviewer_read"@, 0);
    lemma_apart("initial_coding"@, "reviewer_read"@, 0);
    lemma_apart("controlled_verification_invocation"@, "reviewer_read"@, 0);
    lemma_apart("controlled_verification"@, "reviewer_read"@, 0);
    lemma_apart("independent_review_invocation"@, "reviewer_read"@, 0);
    lemma_apart("independent_review"@, "reviewer_read"@, 0);
    lemma_apart("remediation_coding_invocation"@, "reviewer_read"@, 2);
    lemma_apart("remediation_coding"@, "reviewer_read"@, 2);
    lemma_apart("final_verification_invocation"@, "reviewer_read"@, 0);
    lemma_apart("final_verification"@, "reviewer_read"@, 0);
    lemma_apart("invocations"@, "reviewer_read"@, 0);
    lemma_apart("initial_coding_artifacts"@, "reviewer_read"@, 0);
    lemma_apart("controlled_verification_artifacts"@, "reviewer_read"@, 0);
    assert(
        parts("attempt-artifacts =independent_review reviewer_read"@).skip(1)
            =~= seq!["=independent_review"@, "reviewer_read"@]
    );
    assert(
        "=remediation_coding remediation_read"@
            =~= "=remediation_coding"@ + seq![' '] + "remediation_read"@
    );
    lemma_two_words(
        "=remediation_coding"@,
        "remediation_read"@,
        "=remediation_coding remediation_read"@,
    );
    assert(
        "attempt-artifacts =remediation_coding remediation_read"@
            =~= "attempt-artifacts"@ + seq![' '] + "=remediation_coding remediation_read"@
    );
    lemma_four_words(
        "attempt-artifacts"@,
        "=remediation_coding remediation_read"@,
        "attempt-artifacts =remediation_coding remediation_read"@,
    );
    assert(
        parts("attempt-artifacts =remediation_coding remediation_read"@)
            =~= seq!["attempt-artifacts"@, "=remediation_coding"@, "remediation_read"@]
    );
    assert("=remediation_coding"@.len() == 19);
    assert("=remediation_coding"@.skip(1) =~= "remediation_coding"@);
    assert("remediation_read"@.len() == 16);
    lemma_apart("initial_coding_invocation"@, "remediation_read"@, 0);
    lemma_apart("invocation,role"@, "remediation_read"@, 0);
    lemma_apart("invocation,attempt_id"@, "remediation_read"@, 0);
    lemma_apart("invocation,invocation_id"@, "remediation_read"@, 0);
    lemma_apart("invocation,capability_id"@, "remediation_read"@, 0);
    lemma_apart("invocation,descriptor_revision"@, "remediation_read"@, 0);
    lemma_apart("invocation,snapshot_digest"@, "remediation_read"@, 0);
    lemma_apart("invocation,process_profile_digest"@, "remediation_read"@, 0);
    lemma_apart("invocation,context_manifest_digest"@, "remediation_read"@, 0);
    lemma_apart("invocation,terminal"@, "remediation_read"@, 0);
    lemma_apart("invocation,uncertain"@, "remediation_read"@, 0);
    lemma_apart("initial_coding"@, "remediation_read"@, 0);
    lemma_apart("controlled_verification_invocation"@, "remediation_read"@, 0);
    lemma_apart("controlled_verification"@, "remediation_read"@, 0);
    lemma_apart("independent_review_invocation"@, "remediation_read"@, 0);
    lemma_apart("independent_review"@, "remediation_read"@, 0);
    lemma_apart("remediation_coding_invocation"@, "remediation_read"@, 12);
    lemma_apart("remediation_coding"@, "remediation_read"@, 12);
    lemma_apart("final_verification_invocation"@, "remediation_read"@, 0);
    lemma_apart("final_verification"@, "remediation_read"@, 0);
    lemma_apart("invocations"@, "remediation_read"@, 0);
    lemma_apart("initial_coding_artifacts"@, "remediation_read"@, 0);
    lemma_apart("controlled_verification_artifacts"@, "remediation_read"@, 0);
    lemma_apart("independent_review_artifacts"@, "remediation_read"@, 0);
    assert(
        parts("attempt-artifacts =remediation_coding remediation_read"@).skip(1)
            =~= seq!["=remediation_coding"@, "remediation_read"@]
    );
    assert(made_attempt_artifacts(Tree::Text("independent_review"@), said(record, 82))
            == Ok::<Tree, Seq<char>>(at(record[167], "independent_review_artifacts"@))) by {
        was_made(l, known, answers, record, 166);
        was_said(l, known, answers, record, 83);
        assert(forall|j: int|
            84 <= j < 166
                ==> is_check((#[trigger] l[j]).0@) || !touches(l[j].1@, "reviewer_read"@));
        stays_through(l, known, answers, record, 84, 166, "reviewer_read"@);
        let args166 = arguments(
            parts("attempt-artifacts =independent_review reviewer_read"@).skip(1),
            record[166],
        );
        assert(args166 =~= seq![Tree::Text("independent_review"@), said(record, 82)]);
        makes_attempt_artifacts(args166, record[166]);
    }
    assert(made_attempt_artifacts(Tree::Text("remediation_coding"@), said(record, 84))
            == Ok::<Tree, Seq<char>>(at(record[168], "remediation_coding_artifacts"@))) by {
        was_made(l, known, answers, record, 167);
        was_said(l, known, answers, record, 85);
        assert(forall|j: int|
            86 <= j < 167
                ==> is_check((#[trigger] l[j]).0@) || !touches(l[j].1@, "remediation_read"@));
        stays_through(l, known, answers, record, 86, 167, "remediation_read"@);
        let args167 = arguments(
            parts("attempt-artifacts =remediation_coding remediation_read"@).skip(1),
            record[167],
        );
        assert(args167 =~= seq![Tree::Text("remediation_coding"@), said(record, 84)]);
        makes_attempt_artifacts(args167, record[167]);
    }
}

proof fn lemma_process_artifacts_were_listed_3(
    known: Tree,
    answers: Seq<(Tree, bool)>,
    record: Seq<Tree>,
)
    requires
        passed(EXTERNAL_PROCESS@, known, answers, record),
    ensures
        made_attempt_artifacts(Tree::Text("final_verification"@), said(record, 78))
            == Ok::<Tree, Seq<char>>(at(record[169], "final_verification_artifacts"@)),
        made_chained(
            at(record[169], "initial_coding_artifacts"@),
            at(record[169], "controlled_verification_artifacts"@),
            at(record[169], "independent_review_artifacts"@),
            at(record[169], "remediation_coding_artifacts"@),
            at(record[169], "final_verification_artifacts"@),
        )
            == Ok::<Tree, Seq<char>>(at(record[170], "artifacts"@)),
{
    let l = EXTERNAL_PROCESS@;
    reveal_strlit("final_verification_artifacts");
    reveal_strlit("attempt-artifacts =final_verification good_read");
    reveal_strlit("attempt-artifacts");
    reveal_strlit("=final_verification good_read");
    reveal_strlit("=final_verification");
    reveal_strlit("good_read");
    reveal_strlit("final_verification");
    reveal_strlit("reply");
    reveal_strlit("");
    reveal_strlit("weak_read");
    reveal_strlit("reviewer_read");
    reveal_strlit("remediation_read");
    reveal_strlit("initial_coding_invocation");
    reveal_strlit("invocation,role");
    reveal_strlit("invocation,attempt_id");
    reveal_strlit("invocation,invocation_id");
    reveal_strlit("invocation,capability_id");
    reveal_strlit("invocation,descriptor_revision");
    reveal_strlit("invocation,snapshot_digest");
    reveal_strlit("invocation,process_profile_digest");
    reveal_strlit("invocation,context_manifest_digest");
    reveal_strlit("invocation,terminal");
    reveal_strlit("invocation,uncertain");
    reveal_strlit("initial_coding");
    reveal_strlit("controlled_verification_invocation");
    reveal_strlit("controlled_verification");
    reveal_strlit("independent_review_invocation");
    reveal_strlit("independent_review");
    reveal_strlit("remediation_coding_invocation");
    reveal_strlit("remediation_coding");
    reveal_strlit("final_verification_invocation");
    reveal_strlit("invocations");
    reveal_strlit("initial_coding_artifacts");
    reveal_strlit("controlled_verification_artifacts");
    reveal_strlit("independent_review_artifacts");
    reveal_strlit("remediation_coding_artifacts");
    reveal_strlit("artifacts");
    reveal_strlit(
        "chained initial_coding_artifacts controlled_verification_artifacts independent_review_artifacts remediation_coding_artifacts final_verification_artifacts",
    );
    reveal_strlit("chained");
    reveal_strlit(
        "initial_coding_artifacts controlled_verification_artifacts independent_review_artifacts remediation_coding_artifacts final_verification_artifacts",
    );
    reveal_strlit(
        "controlled_verification_artifacts independent_review_artifacts remediation_coding_artifacts final_verification_artifacts",
    );
    reveal_strlit(
        "independent_review_artifacts remediation_coding_artifacts final_verification_artifacts",
    );
    reveal_strlit("remediation_coding_artifacts final_verification_artifacts");
    assert("=final_verification good_read"@ =~= "=final_verification"@ + seq![' '] + "good_read"@);
    lemma_two_words("=final_verification"@, "good_read"@, "=final_verification good_read"@);
    assert(
        "attempt-artifacts =final_verification good_read"@
            =~= "attempt-artifacts"@ + seq![' '] + "=final_verification good_read"@
    );
    lemma_four_words(
        "attempt-artifacts"@,
        "=final_verification good_read"@,
        "attempt-artifacts =final_verification good_read"@,
    );
    assert(
        parts("attempt-artifacts =final_verification good_read"@)
            =~= seq!["attempt-artifacts"@, "=final_verification"@, "good_read"@]
    );
    assert("=final_verification"@.len() == 19);
    assert("=final_verification"@.skip(1) =~= "final_verification"@);
    assert("good_read"@.len() == 9);
    assert("reply"@.len() == 5);
    lemma_apart(""@, "good_read"@, 0);
    lemma_apart("weak_read"@, "good_read"@, 0);
    lemma_apart("reviewer_read"@, "good_read"@, 0);
    lemma_apart("remediation_read"@, "good_read"@, 0);
    lemma_apart("initial_coding_invocation"@, "good_read"@, 0);
    lemma_apart("invocation,role"@, "good_read"@, 0);
    lemma_apart("invocation,attempt_id"@, "good_read"@, 0);
    lemma_apart("invocation,invocation_id"@, "good_read"@, 0);
    lemma_apart("invocation,capability_id"@, "good_read"@, 0);
    lemma_apart("invocation,descriptor_revision"@, "good_read"@, 0);
    lemma_apart("invocation,snapshot_digest"@, "good_read"@, 0);
    lemma_apart("invocation,process_profile_digest"@, "good_read"@, 0);
    lemma_apart("invocation,context_manifest_digest"@, "good_read"@, 0);
    lemma_apart("invocation,terminal"@, "good_read"@, 0);
    lemma_apart("invocation,uncertain"@, "good_read"@, 0);
    lemma_apart("initial_coding"@, "good_read"@, 0);
    lemma_apart("controlled_verification_invocation"@, "good_read"@, 0);
    lemma_apart("controlled_verification"@, "good_read"@, 0);
    lemma_apart("independent_review_invocation"@, "good_read"@, 0);
    lemma_apart("independent_review"@, "good_read"@, 0);
    lemma_apart("remediation_coding_invocation"@, "good_read"@, 0);
    lemma_apart("remediation_coding"@, "good_read"@, 0);
    lemma_apart("final_verification_invocation"@, "good_read"@, 0);
    lemma_apart("final_verification"@, "good_read"@, 0);
    lemma_apart("invocations"@, "good_read"@, 0);
    lemma_apart("initial_coding_artifacts"@, "good_read"@, 0);
    lemma_apart("controlled_verification_artifacts"@, "good_read"@, 0);
    lemma_apart("independent_review_artifacts"@, "good_read"@, 0);
    lemma_apart("remediation_coding_artifacts"@, "good_read"@, 0);
    assert(
        parts("attempt-artifacts =final_verification good_read"@).skip(1)
            =~= seq!["=final_verification"@, "good_read"@]
    );
    assert(
        "remediation_coding_artifacts final_verification_artifacts"@
            =~= "remediation_coding_artifacts"@ + seq![' '] + "final_verification_artifacts"@
    );
    lemma_two_words(
        "remediation_coding_artifacts"@,
        "final_verification_artifacts"@,
        "remediation_coding_artifacts final_verification_artifacts"@,
    );
    assert(
        "independent_review_artifacts remediation_coding_artifacts final_verification_artifacts"@
            =~= "independent_review_artifacts"@
                + seq![' ']
                + "remediation_coding_artifacts final_verification_artifacts"@
    );
    lemma_four_words(
        "independent_review_artifacts"@,
        "remediation_coding_artifacts final_verification_artifacts"@,
        "independent_review_artifacts remediation_coding_artifacts final_verification_artifacts"@,
    );
    assert(
        "controlled_verification_artifacts independent_review_artifacts remediation_coding_artifacts final_verification_artifacts"@
            =~= "controlled_verification_artifacts"@
                + seq![' ']
                + "independent_review_artifacts remediation_coding_artifacts final_verification_artifacts"@
    );
    lemma_four_words(
        "controlled_verification_artifacts"@,
        "independent_review_artifacts remediation_coding_artifacts final_verification_artifacts"@,
        "controlled_verification_artifacts independent_review_artifacts remediation_coding_artifacts final_verification_artifacts"@,
    );
    assert(
        "initial_coding_artifacts controlled_verification_artifacts independent_review_artifacts remediation_coding_artifacts final_verification_artifacts"@
            =~= "initial_coding_artifacts"@
                + seq![' ']
                + "controlled_verification_artifacts independent_review_artifacts remediation_coding_artifacts final_verification_artifacts"@
    );
    lemma_four_words(
        "initial_coding_artifacts"@,
        "controlled_verification_artifacts independent_review_artifacts remediation_coding_artifacts final_verification_artifacts"@,
        "initial_coding_artifacts controlled_verification_artifacts independent_review_artifacts remediation_coding_artifacts final_verification_artifacts"@,
    );
    assert(
        "chained initial_coding_artifacts controlled_verification_artifacts independent_review_artifacts remediation_coding_artifacts final_verification_artifacts"@
            =~= "chained"@
                + seq![' ']
                + "initial_coding_artifacts controlled_verification_artifacts independent_review_artifacts remediation_coding_artifacts final_verification_artifacts"@
    );
    lemma_four_words(
        "chained"@,
        "initial_coding_artifacts controlled_verification_artifacts independent_review_artifacts remediation_coding_artifacts final_verification_artifacts"@,
        "chained initial_coding_artifacts controlled_verification_artifacts independent_review_artifacts remediation_coding_artifacts final_verification_artifacts"@,
    );
    assert(
        parts(
            "chained initial_coding_artifacts controlled_verification_artifacts independent_review_artifacts remediation_coding_artifacts final_verification_artifacts"@,
        )
            =~= seq![
                "chained"@,
                "initial_coding_artifacts"@,
                "controlled_verification_artifacts"@,
                "independent_review_artifacts"@,
                "remediation_coding_artifacts"@,
                "final_verification_artifacts"@,
            ]
    );
    assert("initial_coding_artifacts"@.len() == 24);
    assert("controlled_verification_artifacts"@.len() == 33);
    assert("independent_review_artifacts"@.len() == 28);
    assert("remediation_coding_artifacts"@.len() == 28);
    assert("final_verification_artifacts"@.len() == 28);
    assert(
        parts(
            "chained initial_coding_artifacts controlled_verification_artifacts independent_review_artifacts remediation_coding_artifacts final_verification_artifacts"@,
        ).skip(1)
            =~= seq![
                "initial_coding_artifacts"@,
                "controlled_verification_artifacts"@,
                "independent_review_artifacts"@,
                "remediation_coding_artifacts"@,
                "final_verification_artifacts"@,
            ]
    );
    assert(made_attempt_artifacts(Tree::Text("final_verification"@), said(record, 78))
            == Ok::<Tree, Seq<char>>(at(record[169], "final_verification_artifacts"@))) by {
        was_made(l, known, answers, record, 168);
        was_said(l, known, answers, record, 79);
        assert(forall|j: int|
            80 <= j < 168 ==> is_check((#[trigger] l[j]).0@) || !touches(l[j].1@, "good_read"@));
        stays_through(l, known, answers, record, 80, 168, "good_read"@);
        let args168 = arguments(
            parts("attempt-artifacts =final_verification good_read"@).skip(1),
            record[168],
        );
        assert(args168 =~= seq![Tree::Text("final_verification"@), said(record, 78)]);
        makes_attempt_artifacts(args168, record[168]);
    }
    assert(made_chained(
            at(record[169], "initial_coding_artifacts"@),
            at(record[169], "controlled_verification_artifacts"@),
            at(record[169], "independent_review_artifacts"@),
            at(record[169], "remediation_coding_artifacts"@),
            at(record[169], "final_verification_artifacts"@),
        )
            == Ok::<Tree, Seq<char>>(at(record[170], "artifacts"@))) by {
        was_made(l, known, answers, record, 169);
        let args169 = arguments(
            parts(
                "chained initial_coding_artifacts controlled_verification_artifacts independent_review_artifacts remediation_coding_artifacts final_verification_artifacts"@,
            ).skip(1),
            record[169],
        );
        assert(
            args169
                =~= seq![
                    at(record[169], "initial_coding_artifacts"@),
                    at(record[169], "controlled_verification_artifacts"@),
                    at(record[169], "independent_review_artifacts"@),
                    at(record[169], "remediation_coding_artifacts"@),
                    at(record[169], "final_verification_artifacts"@),
                ]
        );
        makes_chained(args169, record[169]);
    }
}

/// The artifacts of a finished process scenario are those of its five attempts, each under the role
/// of its attempt, one behind another.
pub proof fn process_artifacts_were_listed(
    fixture: bool,
    known: Tree,
    answers: Seq<(Tree, bool)>,
) -> (record: Seq<Tree>)
    requires
        known is Object,
        finished(process_script(fixture), known, answers),
    ensures
        passed(process_script(fixture), known, answers, record),
        EXTERNAL_PROCESS@[68].2@ == "client attempt run-external-process $original_agent_attempt"@,
        made_attempt_artifacts(Tree::Text("initial_coding"@), said(record, 68))
            == Ok::<Tree, Seq<char>>(at(record[165], "initial_coding_artifacts"@)),
        EXTERNAL_PROCESS@[80].2@ == "client attempt run-external-process $weak_attempt"@,
        made_attempt_artifacts(Tree::Text("controlled_verification"@), said(record, 80))
            == Ok::<Tree, Seq<char>>(at(record[166], "controlled_verification_artifacts"@)),
        EXTERNAL_PROCESS@[82].2@ == "client attempt run-external-process $reviewer_attempt"@,
        made_attempt_artifacts(Tree::Text("independent_review"@), said(record, 82))
            == Ok::<Tree, Seq<char>>(at(record[167], "independent_review_artifacts"@)),
        EXTERNAL_PROCESS@[84].2@ == "client attempt run-external-process $remediation_attempt"@,
        made_attempt_artifacts(Tree::Text("remediation_coding"@), said(record, 84))
            == Ok::<Tree, Seq<char>>(at(record[168], "remediation_coding_artifacts"@)),
        EXTERNAL_PROCESS@[78].2@ == "client attempt run-external-process $good_attempt"@,
        made_attempt_artifacts(Tree::Text("final_verification"@), said(record, 78))
            == Ok::<Tree, Seq<char>>(at(record[169], "final_verification_artifacts"@)),
        made_chained(
            at(record[169], "initial_coding_artifacts"@),
            at(record[169], "controlled_verification_artifacts"@),
            at(record[169], "independent_review_artifacts"@),
            at(record[169], "remediation_coding_artifacts"@),
            at(record[169], "final_verification_artifacts"@),
        )
            == Ok::<Tree, Seq<char>>(at(record[170], "artifacts"@)),
{
    let record = finished_scenarios_are_recorded(process_script(fixture), known, answers);
    beginnings_pass(EXTERNAL_PROCESS@, process_end(fixture), known, answers, record);
    let first = record.take(EXTERNAL_PROCESS@.len() as int + 1);
    lemma_process_artifacts_were_listed_1(known, answers, first);
    lemma_process_artifacts_were_listed_2(known, answers, first);
    lemma_process_artifacts_were_listed_3(known, answers, first);
    record
}

proof fn lemma_initial_coding_invocation(known: Tree, answers: Seq<(Tree, bool)>, record: Seq<Tree>)
    requires
        passed(EXTERNAL_PROCESS@, known, answers, record),
    ensures
        at(record[89], "initial_coding_invocation"@) == at(said(record, 68), "invocation_id"@),
        at(record[102], "initial_coding_invocation"@) == at(said(record, 68), "invocation_id"@),
        at(record[116], "initial_coding_invocation"@) == at(said(record, 68), "invocation_id"@),
        at(record[131], "initial_coding_invocation"@) == at(said(record, 68), "invocation_id"@),
        at(record[147], "initial_coding_invocation"@) == at(said(record, 68), "invocation_id"@),
{
    let l = EXTERNAL_PROCESS@;
    reveal_strlit("initial_coding_invocation");
    reveal_strlit("reply");
    reveal_strlit("agent_read");
    reveal_strlit("agent_provenance");
    reveal_strlit("");
    reveal_strlit("good_read");
    reveal_strlit("weak_read");
    reveal_strlit("reviewer_read");
    reveal_strlit("remediation_read");
    reveal_strlit("invocation_id");
    reveal_strlit("agent_read,invocation_id");
    reveal_strlit("invocation,role");
    reveal_strlit("invocation,attempt_id");
    reveal_strlit("invocation,invocation_id");
    reveal_strlit("invocation,capability_id");
    reveal_strlit("invocation,descriptor_revision");
    reveal_strlit("invocation,snapshot_digest");
    reveal_strlit("invocation,process_profile_digest");
    reveal_strlit("invocation,context_manifest_digest");
    reveal_strlit("invocation,terminal");
    reveal_strlit("invocation,uncertain");
    reveal_strlit("initial_coding");
    reveal_strlit("controlled_verification_invocation");
    reveal_strlit("controlled_verification");
    reveal_strlit("independent_review_invocation");
    reveal_strlit("independent_review");
    reveal_strlit("remediation_coding_invocation");
    reveal_strlit("remediation_coding");
    reveal_strlit("final_verification_invocation");
    assert("initial_coding_invocation"@.len() == 25);
    assert("reply"@.len() == 5);
    assert("agent_read"@.len() == 10);
    lemma_apart("agent_provenance"@, "agent_read"@, 6);
    lemma_apart(""@, "agent_read"@, 0);
    lemma_apart("good_read"@, "agent_read"@, 0);
    lemma_apart("weak_read"@, "agent_read"@, 0);
    lemma_apart("reviewer_read"@, "agent_read"@, 0);
    lemma_apart("remediation_read"@, "agent_read"@, 0);
    assert("agent_read,invocation_id"@ =~= "agent_read"@ + seq![','] + "invocation_id"@);
    lemma_apart("invocation,role"@, "initial_coding_invocation"@, 2);
    lemma_apart("invocation,attempt_id"@, "initial_coding_invocation"@, 2);
    lemma_apart("invocation,invocation_id"@, "initial_coding_invocation"@, 2);
    lemma_apart("invocation,capability_id"@, "initial_coding_invocation"@, 2);
    lemma_apart("invocation,descriptor_revision"@, "initial_coding_invocation"@, 2);
    lemma_apart("invocation,snapshot_digest"@, "initial_coding_invocation"@, 2);
    lemma_apart("invocation,process_profile_digest"@, "initial_coding_invocation"@, 2);
    lemma_apart("invocation,context_manifest_digest"@, "initial_coding_invocation"@, 2);
    lemma_apart("invocation,terminal"@, "initial_coding_invocation"@, 2);
    lemma_apart("invocation,uncertain"@, "initial_coding_invocation"@, 2);
    lemma_apart("initial_coding"@, "initial_coding_invocation"@, 14);
    lemma_apart("controlled_verification_invocation"@, "initial_coding_invocation"@, 0);
    lemma_apart("controlled_verification"@, "initial_coding_invocation"@, 0);
    lemma_apart("independent_review_invocation"@, "initial_coding_invocation"@, 2);
    lemma_apart("independent_review"@, "initial_coding_invocation"@, 2);
    lemma_apart("remediation_coding_invocation"@, "initial_coding_invocation"@, 0);
    lemma_apart("remediation_coding"@, "initial_coding_invocation"@, 0);
    lemma_apart("final_verification_invocation"@, "initial_coding_invocation"@, 0);
    assert(at(record[89], "initial_coding_invocation"@) == at(said(record, 68), "invocation_id"@)) by {
        was_kept(l, known, answers, record, 88);
        was_said(l, known, answers, record, 69);
        assert(forall|j: int|
            70 <= j < 88 ==> is_check((#[trigger] l[j]).0@) || !touches(l[j].1@, "agent_read"@));
        stays_through(l, known, answers, record, 70, 88, "agent_read"@);
        lemma_under(record[88], "agent_read"@, "invocation_id"@, "agent_read,invocation_id"@);
    }
    assert(at(record[102], "initial_coding_invocation"@) == at(said(record, 68), "invocation_id"@)) by {
        assert(forall|j: int|
            89 <= j < 102
                ==> is_check((#[trigger] l[j]).0@) || !touches(l[j].1@, "initial_coding_invocation"@));
        stays_through(l, known, answers, record, 89, 102, "initial_coding_invocation"@);
    }
    assert(at(record[116], "initial_coding_invocation"@) == at(said(record, 68), "invocation_id"@)) by {
        assert(forall|j: int|
            102 <= j < 116
                ==> is_check((#[trigger] l[j]).0@) || !touches(l[j].1@, "initial_coding_invocation"@));
        stays_through(l, known, answers, record, 102, 116, "initial_coding_invocation"@);
    }
    assert(at(record[131], "initial_coding_invocation"@) == at(said(record, 68), "invocation_id"@)) by {
        assert(forall|j: int|
            116 <= j < 131
                ==> is_check((#[trigger] l[j]).0@) || !touches(l[j].1@, "initial_coding_invocation"@));
        stays_through(l, known, answers, record, 116, 131, "initial_coding_invocation"@);
    }
    assert(at(record[147], "initial_coding_invocation"@) == at(said(record, 68), "invocation_id"@)) by {
        assert(forall|j: int|
            131 <= j < 147
                ==> is_check((#[trigger] l[j]).0@) || !touches(l[j].1@, "initial_coding_invocation"@));
        stays_through(l, known, answers, record, 131, 147, "initial_coding_invocation"@);
    }
}

proof fn lemma_controlled_verification_invocation(
    known: Tree,
    answers: Seq<(Tree, bool)>,
    record: Seq<Tree>,
)
    requires
        passed(EXTERNAL_PROCESS@, known, answers, record),
    ensures
        at(record[102], "controlled_verification_invocation"@)
            == at(said(record, 80), "invocation_id"@),
        at(record[117], "controlled_verification_invocation"@)
            == at(said(record, 80), "invocation_id"@),
        at(record[132], "controlled_verification_invocation"@)
            == at(said(record, 80), "invocation_id"@),
        at(record[148], "controlled_verification_invocation"@)
            == at(said(record, 80), "invocation_id"@),
{
    let l = EXTERNAL_PROCESS@;
    reveal_strlit("controlled_verification_invocation");
    reveal_strlit("reply");
    reveal_strlit("weak_read");
    reveal_strlit("");
    reveal_strlit("reviewer_read");
    reveal_strlit("remediation_read");
    reveal_strlit("initial_coding_invocation");
    reveal_strlit("invocation,role");
    reveal_strlit("invocation,attempt_id");
    reveal_strlit("invocation,invocation_id");
    reveal_strlit("invocation,capability_id");
    reveal_strlit("invocation,descriptor_revision");
    reveal_strlit("invocation,snapshot_digest");
    reveal_strlit("invocation,process_profile_digest");
    reveal_strlit("invocation,context_manifest_digest");
    reveal_strlit("invocation,terminal");
    reveal_strlit("invocation,uncertain");
    reveal_strlit("initial_coding");
    reveal_strlit("invocation_id");
    reveal_strlit("weak_read,invocation_id");
    reveal_strlit("controlled_verification");
    reveal_strlit("independent_review_invocation");
    reveal_strlit("independent_review");
    reveal_strlit("remediation_coding_invocation");
    reveal_strlit("remediation_coding");
    reveal_strlit("final_verification_invocation");
    assert("controlled_verification_invocation"@.len() == 34);
    assert("reply"@.len() == 5);
    assert("weak_read"@.len() == 9);
    lemma_apart(""@, "weak_read"@, 0);
    lemma_apart("reviewer_read"@, "weak_read"@, 0);
    lemma_apart("remediation_read"@, "weak_read"@, 0);
    lemma_apart("initial_coding_invocation"@, "weak_read"@, 0);
    lemma_apart("invocation,role"@, "weak_read"@, 0);
    lemma_apart("invocation,attempt_id"@, "weak_read"@, 0);
    lemma_apart("invocation,invocation_id"@, "weak_read"@, 0);
    lemma_apart("invocation,capability_id"@, "weak_read"@, 0);
    lemma_apart("invocation,descriptor_revision"@, "weak_read"@, 0);
    lemma_apart("invocation,snapshot_digest"@, "weak_read"@, 0);
    lemma_apart("invocation,process_profile_digest"@, "weak_read"@, 0);
    lemma_apart("invocation,context_manifest_digest"@, "weak_read"@, 0);
    lemma_apart("invocation,terminal"@, "weak_read"@, 0);
    lemma_apart("invocation,uncertain"@, "weak_read"@, 0);
    lemma_apart("initial_coding"@, "weak_read"@, 0);
    assert("weak_read,invocation_id"@ =~= "weak_read"@ + seq![','] + "invocation_id"@);
    lemma_apart("invocation,role"@, "controlled_verification_invocation"@, 0);
    lemma_apart("invocation,attempt_id"@, "controlled_verification_invocation"@, 0);
    lemma_apart("invocation,invocation_id"@, "controlled_verification_invocation"@, 0);
    lemma_apart("invocation,capability_id"@, "controlled_verification_invocation"@, 0);
    lemma_apart("invocation,descriptor_revision"@, "controlled_verification_invocation"@, 0);
    lemma_apart("invocation,snapshot_digest"@, "controlled_verification_invocation"@, 0);
    lemma_apart("invocation,process_profile_digest"@, "controlled_verification_invocation"@, 0);
    lemma_apart("invocation,context_manifest_digest"@, "controlled_verification_invocation"@, 0);
    lemma_apart("invocation,terminal"@, "controlled_verification_invocation"@, 0);
    lemma_apart("invocation,uncertain"@, "controlled_verification_invocation"@, 0);
    lemma_apart("controlled_verification"@, "controlled_verification_invocation"@, 23);
    lemma_apart("independent_review_invocation"@, "controlled_verification_invocation"@, 0);
    lemma_apart("independent_review"@, "controlled_verification_invocation"@, 0);
    lemma_apart("remediation_coding_invocation"@, "controlled_verification_invocation"@, 0);
    lemma_apart("remediation_coding"@, "controlled_verification_invocation"@, 0);
    lemma_apart("final_verification_invocation"@, "controlled_verification_invocation"@, 0);
    assert(at(record[102], "controlled_verification_invocation"@)
            == at(said(record, 80), "invocation_id"@)) by {
        was_kept(l, known, answers, record, 101);
        was_said(l, known, answers, record, 81);
        assert(forall|j: int|
            82 <= j < 101 ==> is_check((#[trigger] l[j]).0@) || !touches(l[j].1@, "weak_read"@));
        stays_through(l, known, answers, record, 82, 101, "weak_read"@);
        lemma_under(record[101], "weak_read"@, "invocation_id"@, "weak_read,invocation_id"@);
    }
    assert(at(record[117], "controlled_verification_invocation"@)
            == at(said(record, 80), "invocation_id"@)) by {
        assert(forall|j: int|
            102 <= j < 117
                ==> is_check((#[trigger] l[j]).0@)
                    || !touches(l[j].1@, "controlled_verification_invocation"@));
        stays_through(l, known, answers, record, 102, 117, "controlled_verification_invocation"@);
    }
    assert(at(record[132], "controlled_verification_invocation"@)
            == at(said(record, 80), "invocation_id"@)) by {
        assert(forall|j: int|
            117 <= j < 132
                ==> is_check((#[trigger] l[j]).0@)
                    || !touches(l[j].1@, "controlled_verification_invocation"@));
        stays_through(l, known, answers, record, 117, 132, "controlled_verification_invocation"@);
    }
    assert(at(record[148], "controlled_verification_invocation"@)
            == at(said(record, 80), "invocation_id"@)) by {
        assert(forall|j: int|
            132 <= j < 148
                ==> is_check((#[trigger] l[j]).0@)
                    || !touches(l[j].1@, "controlled_verification_invocation"@));
        stays_through(l, known, answers, record, 132, 148, "controlled_verification_invocation"@);
    }
}

proof fn lemma_independent_review_invocation(
    known: Tree,
    answers: Seq<(Tree, bool)>,
    record: Seq<Tree>,
)
    requires
        passed(EXTERNAL_PROCESS@, known, answers, record),
    ensures
        at(record[116], "independent_review_invocation"@) == at(said(record, 82), "invocation_id"@),
        at(record[117], "independent_review_invocation"@) == at(said(record, 82), "invocation_id"@),
        at(record[133], "independent_review_invocation"@) == at(said(record, 82), "invocation_id"@),
        at(record[149], "independent_review_invocation"@) == at(said(record, 82), "invocation_id"@),
{
    let l = EXTERNAL_PROCESS@;
    reveal_strlit("independent_review_invocation");
    reveal_strlit("reply");
    reveal_strlit("reviewer_read");
    reveal_strlit("");
    reveal_strlit("remediation_read");
    reveal_strlit("initial_coding_invocation");
    reveal_strlit("invocation,role");
    reveal_strlit("invocation,attempt_id");
    reveal_strlit("invocation,invocation_id");
    reveal_strlit("invocation,capability_id");
    reveal_strlit("invocation,descriptor_revision");
    reveal_strlit("invocation,snapshot_digest");
    reveal_strlit("invocation,process_profile_digest");
    reveal_strlit("invocation,context_manifest_digest");
    reveal_strlit("invocation,terminal");
    reveal_strlit("invocation,uncertain");
    reveal_strlit("initial_coding");
    reveal_strlit("controlled_verification_invocation");
    reveal_strlit("controlled_verification");
    reveal_strlit("invocation_id");
    reveal_strlit("reviewer_read,invocation_id");
    reveal_strlit("independent_review");
    reveal_strlit("remediation_coding_invocation");
    reveal_strlit("remediation_coding");
    reveal_strlit("final_verification_invocation");
    assert("independent_review_invocation"@.len() == 29);
    assert("reply"@.len() == 5);
    assert("reviewer_read"@.len() == 13);
    lemma_apart(""@, "reviewer_read"@, 0);
    lemma_apart("remediation_read"@, "reviewer_read"@, 2);
    lemma_apart("initial_coding_invocation"@, "reviewer_read"@, 0);
    lemma_apart("invocation,role"@, "reviewer_read"@, 0);
    lemma_apart("invocation,attempt_id"@, "reviewer_read"@, 0);
    lemma_apart("invocation,invocation_id"@, "reviewer_read"@, 0);
    lemma_apart("invocation,capability_id"@, "reviewer_read"@, 0);
    lemma_apart("invocation,descriptor_revision"@, "reviewer_read"@, 0);
    lemma_apart("invocation,snapshot_digest"@, "reviewer_read"@, 0);
    lemma_apart("invocation,process_profile_digest"@, "reviewer_read"@, 0);
    lemma_apart("invocation,context_manifest_digest"@, "reviewer_read"@, 0);
    lemma_apart("invocation,terminal"@, "reviewer_read"@, 0);
    lemma_apart("invocation,uncertain"@, "reviewer_read"@, 0);
    lemma_apart("initial_coding"@, "reviewer_read"@, 0);
    lemma_apart("controlled_verification_invocation"@, "reviewer_read"@, 0);
    lemma_apart("controlled_verification"@, "reviewer_read"@, 0);
    assert("reviewer_read,invocation_id"@ =~= "reviewer_read"@ + seq![','] + "invocation_id"@);
    lemma_apart("invocation,role"@, "independent_review_invocation"@, 2);
    lemma_apart("invocation,attempt_id"@, "independent_review_invocation"@, 2);
    lemma_apart("invocation,invocation_id"@, "independent_review_invocation"@, 2);
    lemma_apart("invocation,capability_id"@, "independent_review_invocation"@, 2);
    lemma_apart("invocation,descriptor_revision"@, "independent_review_invocation"@, 2);
    lemma_apart("invocation,snapshot_digest"@, "independent_review_invocation"@, 2);
    lemma_apart("invocation,process_profile_digest"@, "independent_review_invocation"@, 2);
    lemma_apart("invocation,context_manifest_digest"@, "independent_review_invocation"@, 2);
    lemma_apart("invocation,terminal"@, "independent_review_invocation"@, 2);
    lemma_apart("invocation,uncertain"@, "independent_review_invocation"@, 2);
    lemma_apart("independent_review"@, "independent_review_invocation"@, 18);
    lemma_apart("remediation_coding_invocation"@, "independent_review_invocation"@, 0);
    lemma_apart("remediation_coding"@, "independent_review_invocation"@, 0);
    lemma_apart("final_verification_invocation"@, "independent_review_invocation"@, 0);
    assert(at(record[116], "independent_review_invocation"@) == at(said(record, 82), "invocation_id"@)) by {
        was_kept(l, known, answers, record, 115);
        was_said(l, known, answers, record, 83);
        assert(forall|j: int|
            84 <= j < 115
                ==> is_check((#[trigger] l[j]).0@) || !touches(l[j].1@, "reviewer_read"@));
        stays_through(l, known, answers, record, 84, 115, "reviewer_read"@);
        lemma_under(
            record[115],
            "reviewer_read"@,
            "invocation_id"@,
            "reviewer_read,invocation_id"@,
        );
    }
    assert(at(record[117], "independent_review_invocation"@) == at(said(record, 82), "invocation_id"@)) by {
        unchanged(l, known, answers, record, 116);
    }
    assert(at(record[133], "independent_review_invocation"@) == at(said(record, 82), "invocation_id"@)) by {
        assert(forall|j: int|
            117 <= j < 133
                ==> is_check((#[trigger] l[j]).0@)
                    || !touches(l[j].1@, "independent_review_invocation"@));
        stays_through(l, known, answers, record, 117, 133, "independent_review_invocation"@);
    }
    assert(at(record[149], "independent_review_invocation"@) == at(said(record, 82), "invocation_id"@)) by {
        assert(forall|j: int|
            133 <= j < 149
                ==> is_check((#[trigger] l[j]).0@)
                    || !touches(l[j].1@, "independent_review_invocation"@));
        stays_through(l, known, answers, record, 133, 149, "independent_review_invocation"@);
    }
}

proof fn lemma_remediation_coding_invocation(
    known: Tree,
    answers: Seq<(Tree, bool)>,
    record: Seq<Tree>,
)
    requires
        passed(EXTERNAL_PROCESS@, known, answers, record),
    ensures
        at(record[131], "remediation_coding_invocation"@) == at(said(record, 84), "invocation_id"@),
        at(record[132], "remediation_coding_invocation"@) == at(said(record, 84), "invocation_id"@),
        at(record[133], "remediation_coding_invocation"@) == at(said(record, 84), "invocation_id"@),
        at(record[150], "remediation_coding_invocation"@) == at(said(record, 84), "invocation_id"@),
{
    let l = EXTERNAL_PROCESS@;
    reveal_strlit("remediation_coding_invocation");
    reveal_strlit("reply");
    reveal_strlit("remediation_read");
    reveal_strlit("initial_coding_invocation");
    reveal_strlit("invocation,role");
    reveal_strlit("invocation,attempt_id");
    reveal_strlit("invocation,invocation_id");
    reveal_strlit("invocation,capability_id");
    reveal_strlit("invocation,descriptor_revision");
    reveal_strlit("invocation,snapshot_digest");
    reveal_strlit("invocation,process_profile_digest");
    reveal_strlit("invocation,context_manifest_digest");
    reveal_strlit("invocation,terminal");
    reveal_strlit("invocation,uncertain");
    reveal_strlit("initial_coding");
    reveal_strlit("controlled_verification_invocation");
    reveal_strlit("controlled_verification");
    reveal_strlit("independent_review_invocation");
    reveal_strlit("independent_review");
    reveal_strlit("invocation_id");
    reveal_strlit("remediation_read,invocation_id");
    reveal_strlit("remediation_coding");
    reveal_strlit("final_verification_invocation");
    assert("remediation_coding_invocation"@.len() == 29);
    assert("reply"@.len() == 5);
    assert("remediation_read"@.len() == 16);
    lemma_apart("initial_coding_invocation"@, "remediation_read"@, 0);
    lemma_apart("invocation,role"@, "remediation_read"@, 0);
    lemma_apart("invocation,attempt_id"@, "remediation_read"@, 0);
    lemma_apart("invocation,invocation_id"@, "remediation_read"@, 0);
    lemma_apart("invocation,capability_id"@, "remediation_read"@, 0);
    lemma_apart("invocation,descriptor_revision"@, "remediation_read"@, 0);
    lemma_apart("invocation,snapshot_digest"@, "remediation_read"@, 0);
    lemma_apart("invocation,process_profile_digest"@, "remediation_read"@, 0);
    lemma_apart("invocation,context_manifest_digest"@, "remediation_read"@, 0);
    lemma_apart("invocation,terminal"@, "remediation_read"@, 0);
    lemma_apart("invocation,uncertain"@, "remediation_read"@, 0);
    lemma_apart("initial_coding"@, "remediation_read"@, 0);
    lemma_apart("controlled_verification_invocation"@, "remediation_read"@, 0);
    lemma_apart("controlled_verification"@, "remediation_read"@, 0);
    lemma_apart("independent_review_invocation"@, "remediation_read"@, 0);
    lemma_apart("independent_review"@, "remediation_read"@, 0);
    assert(
        "remediation_read,invocation_id"@ =~= "remediation_read"@ + seq![','] + "invocation_id"@
    );
    lemma_apart("invocation,role"@, "remediation_coding_invocation"@, 0);
    lemma_apart("invocation,attempt_id"@, "remediation_coding_invocation"@, 0);
    lemma_apart("invocation,invocation_id"@, "remediation_coding_invocation"@, 0);
    lemma_apart("invocation,capability_id"@, "remediation_coding_invocation"@, 0);
    lemma_apart("invocation,descriptor_revision"@, "remediation_coding_invocation"@, 0);
    lemma_apart("invocation,snapshot_digest"@, "remediation_coding_invocation"@, 0);
    lemma_apart("invocation,process_profile_digest"@, "remediation_coding_invocation"@, 0);
    lemma_apart("invocation,context_manifest_digest"@, "remediation_coding_invocation"@, 0);
    lemma_apart("invocation,terminal"@, "remediation_coding_invocation"@, 0);
    lemma_apart("invocation,uncertain"@, "remediation_coding_invocation"@, 0);
    lemma_apart("remediation_coding"@, "remediation_coding_invocation"@, 18);
    lemma_apart("final_verification_invocation"@, "remediation_coding_invocation"@, 0);
    assert(at(record[131], "remediation_coding_invocation"@) == at(said(record, 84), "invocation_id"@)) by {
        was_kept(l, known, answers, record, 130);
        was_said(l, known, answers, record, 85);
        assert(forall|j: int|
            86 <= j < 130
                ==> is_check((#[trigger] l[j]).0@) || !touches(l[j].1@, "remediation_read"@));
        stays_through(l, known, answers, record, 86, 130, "remediation_read"@);
        lemma_under(
            record[130],
            "remediation_read"@,
            "invocation_id"@,
            "remediation_read,invocation_id"@,
        );
    }
    assert(at(record[132], "remediation_coding_invocation"@) == at(said(record, 84), "invocation_id"@)) by {
        unchanged(l, known, answers, record, 131);
    }
    assert(at(record[133], "remediation_coding_invocation"@) == at(said(record, 84), "invocation_id"@)) by {
        unchanged(l, known, answers, record, 132);
    }
    assert(at(record[150], "remediation_coding_invocation"@) == at(said(record, 84), "invocation_id"@)) by {
        assert(forall|j: int|
            133 <= j < 150
                ==> is_check((#[trigger] l[j]).0@)
                    || !touches(l[j].1@, "remediation_coding_invocation"@));
        stays_through(l, known, answers, record, 133, 150, "remediation_coding_invocation"@);
    }
}

proof fn lemma_final_verification_invocation(
    known: Tree,
    answers: Seq<(Tree, bool)>,
    record: Seq<Tree>,
)
    requires
        passed(EXTERNAL_PROCESS@, known, answers, record),
    ensures
        at(record[147], "final_verification_invocation"@) == at(said(record, 78), "invocation_id"@),
        at(record[148], "final_verification_invocation"@) == at(said(record, 78), "invocation_id"@),
        at(record[149], "final_verification_invocation"@) == at(said(record, 78), "invocation_id"@),
        at(record[150], "final_verification_invocation"@) == at(said(record, 78), "invocation_id"@),
{
    let l = EXTERNAL_PROCESS@;
    reveal_strlit("final_verification_invocation");
    reveal_strlit("reply");
    reveal_strlit("good_read");
    reveal_strlit("");
    reveal_strlit("weak_read");
    reveal_strlit("reviewer_read");
    reveal_strlit("remediation_read");
    reveal_strlit("initial_coding_invocation");
    reveal_strlit("invocation,role");
    reveal_strlit("invocation,attempt_id");
    reveal_strlit("invocation,invocation_id");
    reveal_strlit("invocation,capability_id");
    reveal_strlit("invocation,descriptor_revision");
    reveal_strlit("invocation,snapshot_digest");
    reveal_strlit("invocation,process_profile_digest");
    reveal_strlit("invocation,context_manifest_digest");
    reveal_strlit("invocation,terminal");
    reveal_strlit("invocation,uncertain");
    reveal_strlit("initial_coding");
    reveal_strlit("controlled_verification_invocation");
    reveal_strlit("controlled_verification");
    reveal_strlit("independent_review_invocation");
    reveal_strlit("independent_review");
    reveal_strlit("remediation_coding_invocation");
    reveal_strlit("remediation_coding");
    reveal_strlit("invocation_id");
    reveal_strlit("good_read,invocation_id");
    assert("final_verification_invocation"@.len() == 29);
    assert("reply"@.len() == 5);
    assert("good_read"@.len() == 9);
    lemma_apart(""@, "good_read"@, 0);
    lemma_apart("weak_read"@, "good_read"@, 0);
    lemma_apart("reviewer_read"@, "good_read"@, 0);
    lemma_apart("remediation_read"@, "good_read"@, 0);
    lemma_apart("initial_coding_invocation"@, "good_read"@, 0);
    lemma_apart("invocation,role"@, "good_read"@, 0);
    lemma_apart("invocation,attempt_id"@, "good_read"@, 0);
    lemma_apart("invocation,invocation_id"@, "good_read"@, 0);
    lemma_apart("invocation,capability_id"@, "good_read"@, 0);
    lemma_apart("invocation,descriptor_revision"@, "good_read"@, 0);
    lemma_apart("invocation,snapshot_digest"@, "good_read"@, 0);
    lemma_apart("invocation,process_profile_digest"@, "good_read"@, 0);
    lemma_apart("invocation,context_manifest_digest"@, "good_read"@, 0);
    lemma_apart("invocation,terminal"@, "good_read"@, 0);
    lemma_apart("invocation,uncertain"@, "good_read"@, 0);
    lemma_apart("initial_coding"@, "good_read"@, 0);
    lemma_apart("controlled_verification_invocation"@, "good_read"@, 0);
    lemma_apart("controlled_verification"@, "good_read"@, 0);
    lemma_apart("independent_review_invocation"@, "good_read"@, 0);
    lemma_apart("independent_review"@, "good_read"@, 0);
    lemma_apart("remediation_coding_invocation"@, "good_read"@, 0);
    lemma_apart("remediation_coding"@, "good_read"@, 0);
    assert("good_read,invocation_id"@ =~= "good_read"@ + seq![','] + "invocation_id"@);
    assert(at(record[147], "final_verification_invocation"@) == at(said(record, 78), "invocation_id"@)) by {
        was_kept(l, known, answers, record, 146);
        was_said(l, known, answers, record, 79);
        assert(forall|j: int|
            80 <= j < 146 ==> is_check((#[trigger] l[j]).0@) || !touches(l[j].1@, "good_read"@));
        stays_through(l, known, answers, record, 80, 146, "good_read"@);
        lemma_under(record[146], "good_read"@, "invocation_id"@, "good_read,invocation_id"@);
    }
    assert(at(record[148], "final_verification_invocation"@) == at(said(record, 78), "invocation_id"@)) by {
        unchanged(l, known, answers, record, 147);
    }
    assert(at(record[149], "final_verification_invocation"@) == at(said(record, 78), "invocation_id"@)) by {
        unchanged(l, known, answers, record, 148);
    }
    assert(at(record[150], "final_verification_invocation"@) == at(said(record, 78), "invocation_id"@)) by {
        unchanged(l, known, answers, record, 149);
    }
}

/// The five attempts of a finished process scenario have five invocation identities, no two alike.
pub proof fn process_invocations_are_distinct(
    fixture: bool,
    known: Tree,
    answers: Seq<(Tree, bool)>,
) -> (record: Seq<Tree>)
    requires
        known is Object,
        finished(process_script(fixture), known, answers),
    ensures
        passed(process_script(fixture), known, answers, record),
        EXTERNAL_PROCESS@[80].2@ == "client attempt run-external-process $weak_attempt"@,
        EXTERNAL_PROCESS@[68].2@ == "client attempt run-external-process $original_agent_attempt"@,
        at(said(record, 80), "invocation_id"@) != at(said(record, 68), "invocation_id"@),
        EXTERNAL_PROCESS@[82].2@ == "client attempt run-external-process $reviewer_attempt"@,
        at(said(record, 82), "invocation_id"@) != at(said(record, 68), "invocation_id"@),
        at(said(record, 82), "invocation_id"@) != at(said(record, 80), "invocation_id"@),
        EXTERNAL_PROCESS@[84].2@ == "client attempt run-external-process $remediation_attempt"@,
        at(said(record, 84), "invocation_id"@) != at(said(record, 68), "invocation_id"@),
        at(said(record, 84), "invocation_id"@) != at(said(record, 80), "invocation_id"@),
        at(said(record, 84), "invocation_id"@) != at(said(record, 82), "invocation_id"@),
        EXTERNAL_PROCESS@[78].2@ == "client attempt run-external-process $good_attempt"@,
        at(said(record, 78), "invocation_id"@) != at(said(record, 68), "invocation_id"@),
        at(said(record, 78), "invocation_id"@) != at(said(record, 80), "invocation_id"@),
        at(said(record, 78), "invocation_id"@) != at(said(record, 82), "invocation_id"@),
        at(said(record, 78), "invocation_id"@) != at(said(record, 84), "invocation_id"@),
{
    let record = finished_scenarios_are_recorded(process_script(fixture), known, answers);
    beginnings_pass(EXTERNAL_PROCESS@, process_end(fixture), known, answers, record);
    let l = EXTERNAL_PROCESS@;
    let first = record.take(l.len() as int + 1);
    lemma_initial_coding_invocation(known, answers, first);
    lemma_controlled_verification_invocation(known, answers, first);
    lemma_independent_review_invocation(known, answers, first);
    lemma_remediation_coding_invocation(known, answers, first);
    lemma_final_verification_invocation(known, answers, first);
    saw_differs(l, known, answers, first, 102);
    saw_differs(l, known, answers, first, 116);
    saw_differs(l, known, answers, first, 117);
    saw_differs(l, known, answers, first, 131);
    saw_differs(l, known, answers, first, 132);
    saw_differs(l, known, answers, first, 133);
    saw_differs(l, known, answers, first, 147);
    saw_differs(l, known, answers, first, 148);
    saw_differs(l, known, answers, first, 149);
    saw_differs(l, known, answers, first, 150);
    record
}

proof fn lemma_model_was_held_back(known: Tree, answers: Seq<(Tree, bool)>, record: Seq<Tree>)
    requires
        passed(EXTERNAL_MODEL@, known, answers, record),
    ensures
        said(record, 9) == Tree::Null || said(record, 9) == Tree::Integer(0),
        at(said(record, 16), "sequence"@) == at(said(record, 7), "sequence"@),
        some_element(
            items_of(at(said(record, 16), "nodes"@)),
            "node_id"@,
            Tree::Text("model-release"@),
        ),
{
    let l = EXTERNAL_MODEL@;
    reveal_strlit("null requests or num requests 0");
    reveal_strlit("null");
    reveal_strlit("requests or num requests 0");
    reveal_strlit("requests");
    reveal_strlit("or num requests 0");
    reveal_strlit("or");
    reveal_strlit("num requests 0");
    reveal_strlit("num");
    reveal_strlit("requests 0");
    reveal_strlit("0");
    reveal_strlit("reply");
    reveal_strlit("recovered");
    reveal_strlit("sequence");
    reveal_strlit("recovered,sequence");
    reveal_strlit("before_restart");
    reveal_strlit("watch");
    reveal_strlit("wait");
    reveal_strlit("");
    reveal_strlit("killed");
    reveal_strlit("started");
    reveal_strlit("before_restart,sequence");
    reveal_strlit("nodes");
    reveal_strlit("recovered,nodes");
    reveal_strlit("is");
    reveal_strlit("node_id");
    reveal_strlit("model-release");
    reveal_strlit("is node_id model-release");
    reveal_strlit("else");
    reveal_strlit("plus");
    assert("requests 0"@ =~= "requests"@ + seq![' '] + "0"@);
    lemma_two_words("requests"@, "0"@, "requests 0"@);
    assert("num requests 0"@ =~= "num"@ + seq![' '] + "requests 0"@);
    lemma_four_words("num"@, "requests 0"@, "num requests 0"@);
    assert("or num requests 0"@ =~= "or"@ + seq![' '] + "num requests 0"@);
    lemma_four_words("or"@, "num requests 0"@, "or num requests 0"@);
    assert("requests or num requests 0"@ =~= "requests"@ + seq![' '] + "or num requests 0"@);
    lemma_four_words("requests"@, "or num requests 0"@, "requests or num requests 0"@);
    assert(
        "null requests or num requests 0"@ =~= "null"@ + seq![' '] + "requests or num requests 0"@
    );
    lemma_four_words("null"@, "requests or num requests 0"@, "null requests or num requests 0"@);
    assert("requests"@.len() == 8);
    assert("reply"@.len() == 5);
    lemma_one_digit("0"@);
    assert(number_of("0"@) == Some(0u64));
    assert("or"@.len() == 2);
    assert("0"@.len() == 1);
    assert(
        parts("null requests or num requests 0"@)
            =~= seq!["null"@, "requests"@] + seq!["or"@] + seq!["num"@, "requests"@, "0"@]
    );
    assert("recovered"@.len() == 9);
    assert("recovered,sequence"@ =~= "recovered"@ + seq![','] + "sequence"@);
    assert("before_restart"@.len() == 14);
    assert("watch"@.len() == 5);
    assert("wait"@.len() == 4);
    lemma_apart(""@, "before_restart"@, 0);
    lemma_apart("requests"@, "before_restart"@, 0);
    lemma_apart("killed"@, "before_restart"@, 0);
    lemma_apart("started"@, "before_restart"@, 0);
    lemma_apart("recovered"@, "before_restart"@, 0);
    assert("before_restart,sequence"@ =~= "before_restart"@ + seq![','] + "sequence"@);
    assert("recovered,nodes"@ =~= "recovered"@ + seq![','] + "nodes"@);
    assert(
        "is node_id model-release"@
            =~= "is"@ + seq![' '] + "node_id"@ + seq![' '] + "model-release"@
    );
    lemma_three_words("is"@, "node_id"@, "model-release"@, "is node_id model-release"@);
    assert("node_id"@.len() == 7);
    assert("else"@.len() == 4);
    assert("plus"@.len() == 4);
    assert("model-release"@.len() == 13);
    assert(said(record, 9) == Tree::Null || said(record, 9) == Tree::Integer(0)) by {
        was_said(l, known, answers, record, 10);
        saw_null_or_num(l, known, answers, record, 11, "requests"@, "0"@, 0);
    }
    assert(at(said(record, 16), "sequence"@) == at(said(record, 7), "sequence"@)) by {
        was_said(l, known, answers, record, 17);
        lemma_under(record[18], "recovered"@, "sequence"@, "recovered,sequence"@);
        was_awaited(l, known, answers, record, 7);
        assert(forall|j: int|
            8 <= j < 18 ==> is_check((#[trigger] l[j]).0@) || !touches(l[j].1@, "before_restart"@));
        stays_through(l, known, answers, record, 8, 18, "before_restart"@);
        lemma_under(record[18], "before_restart"@, "sequence"@, "before_restart,sequence"@);
        saw_same(l, known, answers, record, 18);
    }
    assert(some_element(
            items_of(at(said(record, 16), "nodes"@)),
            "node_id"@,
            Tree::Text("model-release"@),
        )) by {
        was_said(l, known, answers, record, 17);
        unchanged(l, known, answers, record, 18);
        lemma_under(record[19], "recovered"@, "nodes"@, "recovered,nodes"@);
        saw_any(l, known, answers, record, 19, "node_id"@, "model-release"@);
    }
}

/// A model scenario reaches its terminal run only where no request entered the endpoint before the
/// release, and a kill brought the run back at the sequence it had, still waiting for its release.
pub proof fn model_was_held_back(known: Tree, answers: Seq<(Tree, bool)>) -> (record: Seq<Tree>)
    requires
        known is Object,
        finished(EXTERNAL_MODEL@, known, answers),
    ensures
        passed(EXTERNAL_MODEL@, known, answers, record),
        EXTERNAL_MODEL@[9].2@ == "fixture-requests"@,
        said(record, 9) == Tree::Null || said(record, 9) == Tree::Integer(0),
        EXTERNAL_MODEL@[16].2@ == "client run run-external-model"@,
        EXTERNAL_MODEL@[7].2@ == "client run run-external-model"@,
        at(said(record, 16), "sequence"@) == at(said(record, 7), "sequence"@),
        some_element(
            items_of(at(said(record, 16), "nodes"@)),
            "node_id"@,
            Tree::Text("model-release"@),
        ),
{
    let record = finished_scenarios_are_recorded(EXTERNAL_MODEL@, known, answers);
    lemma_model_was_held_back(known, answers, record);
    record
}

proof fn lemma_model_was_exercised_1(known: Tree, answers: Seq<(Tree, bool)>, record: Seq<Tree>)
    requires
        passed(EXTERNAL_MODEL_COMPLETED@, known, answers, record),
    ensures
        at(said(record, 2), "context"@) != Tree::Null,
        made_rendered(at(said(record, 2), "context,entries"@)) is Ok
            && text_has(made_rendered(at(said(record, 2), "context,entries"@))->Ok_0, "evidence-a"@),
        made_rendered(at(said(record, 2), "context,entries"@)) is Ok
            && text_has(made_rendered(at(said(record, 2), "context,entries"@))->Ok_0, "evidence-b"@),
        at(said(record, 2), "capability_provenance"@) != Tree::Null,
{
    let l = EXTERNAL_MODEL_COMPLETED@;
    reveal_strlit("attempt");
    reveal_strlit("reply");
    reveal_strlit("context");
    reveal_strlit("attempt,context");
    reveal_strlit("entries");
    reveal_strlit("rendered");
    reveal_strlit("attempt,context,entries");
    reveal_strlit("rendered attempt,context,entries");
    reveal_strlit("node");
    reveal_strlit("denied_attempt");
    reveal_strlit("");
    reveal_strlit("denied");
    reveal_strlit("denied_output");
    reveal_strlit("denied_artifact");
    reveal_strlit("context,entries");
    reveal_strlit("omissions");
    reveal_strlit("capability_provenance");
    reveal_strlit("attempt,capability_provenance");
    assert("attempt"@.len() == 7);
    assert("reply"@.len() == 5);
    assert("attempt,context"@ =~= "attempt"@ + seq![','] + "context"@);
    assert("entries"@.len() == 7);
    assert(
        "rendered attempt,context,entries"@
            =~= "rendered"@ + seq![' '] + "attempt,context,entries"@
    );
    lemma_two_words("rendered"@, "attempt,context,entries"@, "rendered attempt,context,entries"@);
    assert(
        parts("rendered attempt,context,entries"@)
            =~= seq!["rendered"@, "attempt,context,entries"@]
    );
    assert("attempt,context,entries"@.len() == 23);
    lemma_apart("node"@, "attempt"@, 0);
    lemma_apart("denied_attempt"@, "attempt"@, 0);
    lemma_apart(""@, "attempt"@, 0);
    lemma_apart("denied"@, "attempt"@, 0);
    lemma_apart("denied_output"@, "attempt"@, 0);
    lemma_apart("denied_artifact"@, "attempt"@, 0);
    assert("attempt,context,entries"@ =~= "attempt"@ + seq![','] + "context,entries"@);
    assert(parts("rendered attempt,context,entries"@).skip(1) =~= seq!["attempt,context,entries"@]);
    lemma_apart("omissions"@, "entries"@, 0);
    lemma_apart("entries"@, "attempt"@, 0);
    lemma_apart("omissions"@, "attempt"@, 0);
    assert("attempt,capability_provenance"@ =~= "attempt"@ + seq![','] + "capability_provenance"@);
    assert(at(said(record, 2), "context"@) != Tree::Null) by {
        was_said(l, known, answers, record, 3);
        unchanged(l, known, answers, record, 4);
        lemma_under(record[5], "attempt"@, "context"@, "attempt,context"@);
        saw_some(l, known, answers, record, 5);
    }
    assert(made_rendered(at(said(record, 2), "context,entries"@)) is Ok
            && text_has(made_rendered(at(said(record, 2), "context,entries"@))->Ok_0, "evidence-a"@)) by {
        was_made(l, known, answers, record, 12);
        was_said(l, known, answers, record, 3);
        assert(forall|j: int|
            4 <= j < 12 ==> is_check((#[trigger] l[j]).0@) || !touches(l[j].1@, "attempt"@));
        stays_through(l, known, answers, record, 4, 12, "attempt"@);
        lemma_under(record[12], "attempt"@, "context,entries"@, "attempt,context,entries"@);
        let args12 = arguments(parts("rendered attempt,context,entries"@).skip(1), record[12]);
        assert(args12 =~= seq![at(said(record, 2), "context,entries"@)]);
        makes_rendered(args12, record[12]);
        stays(l, known, answers, record, 13, "entries"@);
        saw_contains(l, known, answers, record, 14);
    }
    assert(made_rendered(at(said(record, 2), "context,entries"@)) is Ok
            && text_has(made_rendered(at(said(record, 2), "context,entries"@))->Ok_0, "evidence-b"@)) by {
        was_made(l, known, answers, record, 12);
        was_said(l, known, answers, record, 3);
        assert(forall|j: int|
            4 <= j < 12 ==> is_check((#[trigger] l[j]).0@) || !touches(l[j].1@, "attempt"@));
        stays_through(l, known, answers, record, 4, 12, "attempt"@);
        lemma_under(record[12], "attempt"@, "context,entries"@, "attempt,context,entries"@);
        let args12 = arguments(parts("rendered attempt,context,entries"@).skip(1), record[12]);
        assert(args12 =~= seq![at(said(record, 2), "context,entries"@)]);
        makes_rendered(args12, record[12]);
        stays(l, known, answers, record, 13, "entries"@);
        unchanged(l, known, answers, record, 14);
        saw_contains(l, known, answers, record, 15);
    }
    assert(at(said(record, 2), "capability_provenance"@) != Tree::Null) by {
        was_said(l, known, answers, record, 3);
        assert(forall|j: int|
            4 <= j < 19 ==> is_check((#[trigger] l[j]).0@) || !touches(l[j].1@, "attempt"@));
        stays_through(l, known, answers, record, 4, 19, "attempt"@);
        lemma_under(
            record[19],
            "attempt"@,
            "capability_provenance"@,
            "attempt,capability_provenance"@,
        );
        saw_some(l, known, answers, record, 19);
    }
}

proof fn lemma_model_was_exercised_2(known: Tree, answers: Seq<(Tree, bool)>, record: Seq<Tree>)
    requires
        passed(EXTERNAL_MODEL_COMPLETED@, known, answers, record),
    ensures
        at(at(said(record, 2), "capability_provenance"@), "model_profile_revision"@)
            == at(at(known, "profile"@), "revision"@),
        at(at(said(record, 2), "capability_provenance"@), "provider_protocol"@)
            == at(at(known, "profile"@), "protocol"@),
        at(at(said(record, 2), "capability_provenance"@), "model_alias"@)
            == at(at(known, "profile"@), "model_alias"@),
        at(at(said(record, 2), "capability_provenance"@), "endpoint_origin"@)
            == at(at(known, "profile"@), "endpoint_origin"@),
{
    let l = EXTERNAL_MODEL_COMPLETED@;
    reveal_strlit("provenance");
    reveal_strlit("reply");
    reveal_strlit("attempt");
    reveal_strlit("node");
    reveal_strlit("denied_attempt");
    reveal_strlit("");
    reveal_strlit("denied");
    reveal_strlit("denied_output");
    reveal_strlit("denied_artifact");
    reveal_strlit("entries");
    reveal_strlit("omissions");
    reveal_strlit("capability_provenance");
    reveal_strlit("attempt,capability_provenance");
    reveal_strlit("model_profile_revision");
    reveal_strlit("provenance,model_profile_revision");
    reveal_strlit("profile");
    reveal_strlit("model_attempt");
    reveal_strlit("revision");
    reveal_strlit("profile,revision");
    reveal_strlit("provider_protocol");
    reveal_strlit("provenance,provider_protocol");
    reveal_strlit("protocol");
    reveal_strlit("profile,protocol");
    reveal_strlit("model_alias");
    reveal_strlit("provenance,model_alias");
    reveal_strlit("profile,model_alias");
    reveal_strlit("endpoint_origin");
    reveal_strlit("provenance,endpoint_origin");
    reveal_strlit("profile,endpoint_origin");
    assert("provenance"@.len() == 10);
    assert("reply"@.len() == 5);
    assert("attempt"@.len() == 7);
    lemma_apart("node"@, "attempt"@, 0);
    lemma_apart("denied_attempt"@, "attempt"@, 0);
    lemma_apart(""@, "attempt"@, 0);
    lemma_apart("denied"@, "attempt"@, 0);
    lemma_apart("denied_output"@, "attempt"@, 0);
    lemma_apart("denied_artifact"@, "attempt"@, 0);
    lemma_apart("entries"@, "attempt"@, 0);
    lemma_apart("omissions"@, "attempt"@, 0);
    assert("attempt,capability_provenance"@ =~= "attempt"@ + seq![','] + "capability_provenance"@);
    assert(
        "provenance,model_profile_revision"@
            =~= "provenance"@ + seq![','] + "model_profile_revision"@
    );
    assert("profile"@.len() == 7);
    lemma_apart("node"@, "profile"@, 0);
    lemma_apart("model_attempt"@, "profile"@, 0);
    lemma_apart(""@, "profile"@, 0);
    lemma_apart("attempt"@, "profile"@, 0);
    lemma_apart("denied_attempt"@, "profile"@, 0);
    lemma_apart("denied"@, "profile"@, 0);
    lemma_apart("denied_output"@, "profile"@, 0);
    lemma_apart("denied_artifact"@, "profile"@, 0);
    lemma_apart("entries"@, "profile"@, 0);
    lemma_apart("omissions"@, "profile"@, 0);
    lemma_apart("provenance"@, "profile"@, 3);
    assert("profile,revision"@ =~= "profile"@ + seq![','] + "revision"@);
    assert("provenance,provider_protocol"@ =~= "provenance"@ + seq![','] + "provider_protocol"@);
    assert("profile,protocol"@ =~= "profile"@ + seq![','] + "protocol"@);
    assert("provenance,model_alias"@ =~= "provenance"@ + seq![','] + "model_alias"@);
    assert("profile,model_alias"@ =~= "profile"@ + seq![','] + "model_alias"@);
    assert("provenance,endpoint_origin"@ =~= "provenance"@ + seq![','] + "endpoint_origin"@);
    assert("profile,endpoint_origin"@ =~= "profile"@ + seq![','] + "endpoint_origin"@);
    assert(at(at(said(record, 2), "capability_provenance"@), "model_profile_revision"@)
            == at(at(known, "profile"@), "revision"@)) by {
        was_kept(l, known, answers, record, 20);
        was_said(l, known, answers, record, 3);
        assert(forall|j: int|
            4 <= j < 20 ==> is_check((#[trigger] l[j]).0@) || !touches(l[j].1@, "attempt"@));
        stays_through(l, known, answers, record, 4, 20, "attempt"@);
        lemma_under(
            record[20],
            "attempt"@,
            "capability_provenance"@,
            "attempt,capability_provenance"@,
        );
        unchanged(l, known, answers, record, 21);
        lemma_under(
            record[22],
            "provenance"@,
            "model_profile_revision"@,
            "provenance,model_profile_revision"@,
        );
        assert(forall|j: int|
            0 <= j < 22 ==> is_check((#[trigger] l[j]).0@) || !touches(l[j].1@, "profile"@));
        stays_through(l, known, answers, record, 0, 22, "profile"@);
        lemma_under(record[22], "profile"@, "revision"@, "profile,revision"@);
        saw_same(l, known, answers, record, 22);
    }
    assert(at(at(said(record, 2), "capability_provenance"@), "provider_protocol"@)
            == at(at(known, "profile"@), "protocol"@)) by {
        was_kept(l, known, answers, record, 20);
        was_said(l, known, answers, record, 3);
        assert(forall|j: int|
            4 <= j < 20 ==> is_check((#[trigger] l[j]).0@) || !touches(l[j].1@, "attempt"@));
        stays_through(l, known, answers, record, 4, 20, "attempt"@);
        lemma_under(
            record[20],
            "attempt"@,
            "capability_provenance"@,
            "attempt,capability_provenance"@,
        );
        unchanged(l, known, answers, record, 21);
        unchanged(l, known, answers, record, 22);
        lemma_under(
            record[23],
            "provenance"@,
            "provider_protocol"@,
            "provenance,provider_protocol"@,
        );
        assert(forall|j: int|
            0 <= j < 23 ==> is_check((#[trigger] l[j]).0@) || !touches(l[j].1@, "profile"@));
        stays_through(l, known, answers, record, 0, 23, "profile"@);
        lemma_under(record[23], "profile"@, "protocol"@, "profile,protocol"@);
        saw_same(l, known, answers, record, 23);
    }
    assert(at(at(said(record, 2), "capability_provenance"@), "model_alias"@)
            == at(at(known, "profile"@), "model_alias"@)) by {
        was_kept(l, known, answers, record, 20);
        was_said(l, known, answers, record, 3);
        assert(forall|j: int|
            4 <= j < 20 ==> is_check((#[trigger] l[j]).0@) || !touches(l[j].1@, "attempt"@));
        stays_through(l, known, answers, record, 4, 20, "attempt"@);
        lemma_under(
            record[20],
            "attempt"@,
            "capability_provenance"@,
            "attempt,capability_provenance"@,
        );
        unchanged(l, known, answers, record, 21);
        unchanged(l, known, answers, record, 22);
        unchanged(l, known, answers, record, 23);
        lemma_under(record[24], "provenance"@, "model_alias"@, "provenance,model_alias"@);
        assert(forall|j: int|
            0 <= j < 24 ==> is_check((#[trigger] l[j]).0@) || !touches(l[j].1@, "profile"@));
        stays_through(l, known, answers, record, 0, 24, "profile"@);
        lemma_under(record[24], "profile"@, "model_alias"@, "profile,model_alias"@);
        saw_same(l, known, answers, record, 24);
    }
    assert(at(at(said(record, 2), "capability_provenance"@), "endpoint_origin"@)
            == at(at(known, "profile"@), "endpoint_origin"@)) by {
        was_kept(l, known, answers, record, 20);
        was_said(l, known, answers, record, 3);
        assert(forall|j: int|
            4 <= j < 20 ==> is_check((#[trigger] l[j]).0@) || !touches(l[j].1@, "attempt"@));
        stays_through(l, known, answers, record, 4, 20, "attempt"@);
        lemma_under(
            record[20],
            "attempt"@,
            "capability_provenance"@,
            "attempt,capability_provenance"@,
        );
        assert(forall|j: int|
            21 <= j < 25 ==> is_check((#[trigger] l[j]).0@) || !touches(l[j].1@, "provenance"@));
        stays_through(l, known, answers, record, 21, 25, "provenance"@);
        lemma_under(record[25], "provenance"@, "endpoint_origin"@, "provenance,endpoint_origin"@);
        assert(forall|j: int|
            0 <= j < 25 ==> is_check((#[trigger] l[j]).0@) || !touches(l[j].1@, "profile"@));
        stays_through(l, known, answers, record, 0, 25, "profile"@);
        lemma_under(record[25], "profile"@, "endpoint_origin"@, "profile,endpoint_origin"@);
        saw_same(l, known, answers, record, 25);
    }
}

proof fn lemma_model_was_exercised_3(known: Tree, answers: Seq<(Tree, bool)>, record: Seq<Tree>)
    requires
        passed(EXTERNAL_MODEL_COMPLETED@, known, answers, record),
    ensures
        items_of(said(record, 30)).len() > 0,
        at(at(known, "profile"@), "structured_output"@) == Tree::Bool(true)
            || text_trims(at(said(record, 28), "text"@), "MILKDRIFT_EVIDENCE_OK"@),
        said(record, 36) == Tree::Null || said(record, 36) == Tree::Integer(1),
        said(record, 39) == Tree::Null || items_of(said(record, 39)).len() == 1,
{
    let l = EXTERNAL_MODEL_COMPLETED@;
    reveal_strlit("identities");
    reveal_strlit("reply");
    reveal_strlit("true profile,structured_output or trims response,text MILKDRIFT_EVIDENCE_OK");
    reveal_strlit("true");
    reveal_strlit("profile,structured_output or trims response,text MILKDRIFT_EVIDENCE_OK");
    reveal_strlit("profile,structured_output");
    reveal_strlit("or trims response,text MILKDRIFT_EVIDENCE_OK");
    reveal_strlit("or");
    reveal_strlit("trims response,text MILKDRIFT_EVIDENCE_OK");
    reveal_strlit("trims");
    reveal_strlit("response,text MILKDRIFT_EVIDENCE_OK");
    reveal_strlit("response,text");
    reveal_strlit("MILKDRIFT_EVIDENCE_OK");
    reveal_strlit("response");
    reveal_strlit("");
    reveal_strlit("text");
    reveal_strlit("profile");
    reveal_strlit("node");
    reveal_strlit("model_attempt");
    reveal_strlit("attempt");
    reveal_strlit("denied_attempt");
    reveal_strlit("denied");
    reveal_strlit("denied_output");
    reveal_strlit("denied_artifact");
    reveal_strlit("entries");
    reveal_strlit("omissions");
    reveal_strlit("provenance");
    reveal_strlit("response_output");
    reveal_strlit("provider_output");
    reveal_strlit("structured_output");
    reveal_strlit("null requests or num requests 1");
    reveal_strlit("null");
    reveal_strlit("requests or num requests 1");
    reveal_strlit("requests");
    reveal_strlit("or num requests 1");
    reveal_strlit("num requests 1");
    reveal_strlit("num");
    reveal_strlit("requests 1");
    reveal_strlit("1");
    reveal_strlit("null lines or len lines 1");
    reveal_strlit("lines or len lines 1");
    reveal_strlit("lines");
    reveal_strlit("or len lines 1");
    reveal_strlit("len lines 1");
    reveal_strlit("len");
    reveal_strlit("lines 1");
    assert("identities"@.len() == 10);
    assert("reply"@.len() == 5);
    assert(
        "response,text MILKDRIFT_EVIDENCE_OK"@
            =~= "response,text"@ + seq![' '] + "MILKDRIFT_EVIDENCE_OK"@
    );
    lemma_two_words(
        "response,text"@,
        "MILKDRIFT_EVIDENCE_OK"@,
        "response,text MILKDRIFT_EVIDENCE_OK"@,
    );
    assert(
        "trims response,text MILKDRIFT_EVIDENCE_OK"@
            =~= "trims"@ + seq![' '] + "response,text MILKDRIFT_EVIDENCE_OK"@
    );
    lemma_four_words(
        "trims"@,
        "response,text MILKDRIFT_EVIDENCE_OK"@,
        "trims response,text MILKDRIFT_EVIDENCE_OK"@,
    );
    assert(
        "or trims response,text MILKDRIFT_EVIDENCE_OK"@
            =~= "or"@ + seq![' '] + "trims response,text MILKDRIFT_EVIDENCE_OK"@
    );
    lemma_four_words(
        "or"@,
        "trims response,text MILKDRIFT_EVIDENCE_OK"@,
        "or trims response,text MILKDRIFT_EVIDENCE_OK"@,
    );
    assert(
        "profile,structured_output or trims response,text MILKDRIFT_EVIDENCE_OK"@
            =~= "profile,structured_output"@
                + seq![' ']
                + "or trims response,text MILKDRIFT_EVIDENCE_OK"@
    );
    lemma_four_words(
        "profile,structured_output"@,
        "or trims response,text MILKDRIFT_EVIDENCE_OK"@,
        "profile,structured_output or trims response,text MILKDRIFT_EVIDENCE_OK"@,
    );
    assert(
        "true profile,structured_output or trims response,text MILKDRIFT_EVIDENCE_OK"@
            =~= "true"@
                + seq![' ']
                + "profile,structured_output or trims response,text MILKDRIFT_EVIDENCE_OK"@
    );
    lemma_four_words(
        "true"@,
        "profile,structured_output or trims response,text MILKDRIFT_EVIDENCE_OK"@,
        "true profile,structured_output or trims response,text MILKDRIFT_EVIDENCE_OK"@,
    );
    assert("response"@.len() == 8);
    lemma_apart(""@, "response"@, 0);
    lemma_apart("identities"@, "response"@, 0);
    assert("response,text"@ =~= "response"@ + seq![','] + "text"@);
    assert("profile"@.len() == 7);
    lemma_apart("node"@, "profile"@, 0);
    lemma_apart("model_attempt"@, "profile"@, 0);
    lemma_apart(""@, "profile"@, 0);
    lemma_apart("attempt"@, "profile"@, 0);
    lemma_apart("denied_attempt"@, "profile"@, 0);
    lemma_apart("denied"@, "profile"@, 0);
    lemma_apart("denied_output"@, "profile"@, 0);
    lemma_apart("denied_artifact"@, "profile"@, 0);
    lemma_apart("entries"@, "profile"@, 0);
    lemma_apart("omissions"@, "profile"@, 0);
    lemma_apart("provenance"@, "profile"@, 3);
    lemma_apart("response_output"@, "profile"@, 0);
    lemma_apart("provider_output"@, "profile"@, 3);
    lemma_apart("response"@, "profile"@, 0);
    lemma_apart("identities"@, "profile"@, 0);
    assert("profile,structured_output"@ =~= "profile"@ + seq![','] + "structured_output"@);
    assert("profile,structured_output"@.len() == 25);
    assert("or"@.len() == 2);
    assert("response,text"@.len() == 13);
    assert("MILKDRIFT_EVIDENCE_OK"@.len() == 21);
    assert(
        parts("true profile,structured_output or trims response,text MILKDRIFT_EVIDENCE_OK"@)
            =~= seq!["true"@, "profile,structured_output"@]
                + seq!["or"@]
                + seq!["trims"@, "response,text"@, "MILKDRIFT_EVIDENCE_OK"@]
    );
    assert("requests 1"@ =~= "requests"@ + seq![' '] + "1"@);
    lemma_two_words("requests"@, "1"@, "requests 1"@);
    assert("num requests 1"@ =~= "num"@ + seq![' '] + "requests 1"@);
    lemma_four_words("num"@, "requests 1"@, "num requests 1"@);
    assert("or num requests 1"@ =~= "or"@ + seq![' '] + "num requests 1"@);
    lemma_four_words("or"@, "num requests 1"@, "or num requests 1"@);
    assert("requests or num requests 1"@ =~= "requests"@ + seq![' '] + "or num requests 1"@);
    lemma_four_words("requests"@, "or num requests 1"@, "requests or num requests 1"@);
    assert(
        "null requests or num requests 1"@ =~= "null"@ + seq![' '] + "requests or num requests 1"@
    );
    lemma_four_words("null"@, "requests or num requests 1"@, "null requests or num requests 1"@);
    assert("requests"@.len() == 8);
    lemma_one_digit("1"@);
    assert(number_of("1"@) == Some(1u64));
    assert("1"@.len() == 1);
    assert(
        parts("null requests or num requests 1"@)
            =~= seq!["null"@, "requests"@] + seq!["or"@] + seq!["num"@, "requests"@, "1"@]
    );
    assert("lines 1"@ =~= "lines"@ + seq![' '] + "1"@);
    lemma_two_words("lines"@, "1"@, "lines 1"@);
    assert("len lines 1"@ =~= "len"@ + seq![' '] + "lines 1"@);
    lemma_four_words("len"@, "lines 1"@, "len lines 1"@);
    assert("or len lines 1"@ =~= "or"@ + seq![' '] + "len lines 1"@);
    lemma_four_words("or"@, "len lines 1"@, "or len lines 1"@);
    assert("lines or len lines 1"@ =~= "lines"@ + seq![' '] + "or len lines 1"@);
    lemma_four_words("lines"@, "or len lines 1"@, "lines or len lines 1"@);
    assert("null lines or len lines 1"@ =~= "null"@ + seq![' '] + "lines or len lines 1"@);
    lemma_four_words("null"@, "lines or len lines 1"@, "null lines or len lines 1"@);
    assert("lines"@[0] != "reply"@[0]);
    assert("lines"@.len() == 5);
    assert(
        parts("null lines or len lines 1"@)
            =~= seq!["null"@, "lines"@] + seq!["or"@] + seq!["len"@, "lines"@, "1"@]
    );
    assert(items_of(said(record, 30)).len() > 0) by {
        was_said(l, known, answers, record, 31);
        saw_nonempty(l, known, answers, record, 32);
    }
    assert(at(at(known, "profile"@), "structured_output"@) == Tree::Bool(true)
            || text_trims(at(said(record, 28), "text"@), "MILKDRIFT_EVIDENCE_OK"@)) by {
        was_said(l, known, answers, record, 29);
        assert(forall|j: int|
            30 <= j < 35 ==> is_check((#[trigger] l[j]).0@) || !touches(l[j].1@, "response"@));
        stays_through(l, known, answers, record, 30, 35, "response"@);
        lemma_under(record[35], "response"@, "text"@, "response,text"@);
        assert(forall|j: int|
            0 <= j < 35 ==> is_check((#[trigger] l[j]).0@) || !touches(l[j].1@, "profile"@));
        stays_through(l, known, answers, record, 0, 35, "profile"@);
        lemma_under(record[35], "profile"@, "structured_output"@, "profile,structured_output"@);
        saw_true_or_trimmed(
            l,
            known,
            answers,
            record,
            35,
            "profile,structured_output"@,
            "response,text"@,
            "MILKDRIFT_EVIDENCE_OK"@,
        );
    }
    assert(said(record, 36) == Tree::Null || said(record, 36) == Tree::Integer(1)) by {
        was_said(l, known, answers, record, 37);
        saw_null_or_num(l, known, answers, record, 38, "requests"@, "1"@, 1);
    }
    assert(said(record, 39) == Tree::Null || items_of(said(record, 39)).len() == 1) by {
        was_said(l, known, answers, record, 40);
        saw_null_or_len(l, known, answers, record, 41, "lines"@, "1"@, 1);
    }
}

proof fn lemma_model_was_exercised_4(known: Tree, answers: Seq<(Tree, bool)>, record: Seq<Tree>)
    requires
        passed(EXTERNAL_MODEL_COMPLETED@, known, answers, record),
    ensures
        at(said(record, 28), "finish_reason"@) == Tree::Text("stop"@),
        at(said(record, 2), "usage"@) != Tree::Null,
        at(said(record, 2), "usage,input_units"@) == at(said(record, 28), "usage,input_units"@),
        at(said(record, 2), "usage,output_units"@) == at(said(record, 28), "usage,output_units"@),
{
    let l = EXTERNAL_MODEL_COMPLETED@;
    reveal_strlit("response");
    reveal_strlit("reply");
    reveal_strlit("");
    reveal_strlit("identities");
    reveal_strlit("requests");
    reveal_strlit("lines");
    reveal_strlit("finish_reason");
    reveal_strlit("response,finish_reason");
    reveal_strlit("attempt");
    reveal_strlit("node");
    reveal_strlit("denied_attempt");
    reveal_strlit("denied");
    reveal_strlit("denied_output");
    reveal_strlit("denied_artifact");
    reveal_strlit("entries");
    reveal_strlit("omissions");
    reveal_strlit("provenance");
    reveal_strlit("response_output");
    reveal_strlit("provider_output");
    reveal_strlit("usage");
    reveal_strlit("attempt,usage");
    reveal_strlit("usage,input_units");
    reveal_strlit("attempt,usage,input_units");
    reveal_strlit("response,usage,input_units");
    reveal_strlit("usage,output_units");
    reveal_strlit("attempt,usage,output_units");
    reveal_strlit("response,usage,output_units");
    assert("response"@.len() == 8);
    assert("reply"@.len() == 5);
    lemma_apart(""@, "response"@, 0);
    lemma_apart("identities"@, "response"@, 0);
    lemma_apart("requests"@, "response"@, 2);
    lemma_apart("lines"@, "response"@, 0);
    assert("response,finish_reason"@ =~= "response"@ + seq![','] + "finish_reason"@);
    assert("attempt"@.len() == 7);
    lemma_apart("node"@, "attempt"@, 0);
    lemma_apart("denied_attempt"@, "attempt"@, 0);
    lemma_apart(""@, "attempt"@, 0);
    lemma_apart("denied"@, "attempt"@, 0);
    lemma_apart("denied_output"@, "attempt"@, 0);
    lemma_apart("denied_artifact"@, "attempt"@, 0);
    lemma_apart("entries"@, "attempt"@, 0);
    lemma_apart("omissions"@, "attempt"@, 0);
    lemma_apart("provenance"@, "attempt"@, 0);
    lemma_apart("response_output"@, "attempt"@, 0);
    lemma_apart("provider_output"@, "attempt"@, 0);
    lemma_apart("response"@, "attempt"@, 0);
    lemma_apart("identities"@, "attempt"@, 0);
    lemma_apart("requests"@, "attempt"@, 0);
    lemma_apart("lines"@, "attempt"@, 0);
    assert("attempt,usage"@ =~= "attempt"@ + seq![','] + "usage"@);
    assert("attempt,usage,input_units"@ =~= "attempt"@ + seq![','] + "usage,input_units"@);
    assert("response,usage,input_units"@ =~= "response"@ + seq![','] + "usage,input_units"@);
    assert("attempt,usage,output_units"@ =~= "attempt"@ + seq![','] + "usage,output_units"@);
    assert("response,usage,output_units"@ =~= "response"@ + seq![','] + "usage,output_units"@);
    assert(at(said(record, 28), "finish_reason"@) == Tree::Text("stop"@)) by {
        was_said(l, known, answers, record, 29);
        assert(forall|j: int|
            30 <= j < 43 ==> is_check((#[trigger] l[j]).0@) || !touches(l[j].1@, "response"@));
        stays_through(l, known, answers, record, 30, 43, "response"@);
        lemma_under(record[43], "response"@, "finish_reason"@, "response,finish_reason"@);
        saw_is(l, known, answers, record, 43);
    }
    assert(at(said(record, 2), "usage"@) != Tree::Null) by {
        was_said(l, known, answers, record, 3);
        assert(forall|j: int|
            4 <= j < 45 ==> is_check((#[trigger] l[j]).0@) || !touches(l[j].1@, "attempt"@));
        stays_through(l, known, answers, record, 4, 45, "attempt"@);
        lemma_under(record[45], "attempt"@, "usage"@, "attempt,usage"@);
        saw_some(l, known, answers, record, 45);
    }
    assert(at(said(record, 2), "usage,input_units"@) == at(said(record, 28), "usage,input_units"@)) by {
        was_said(l, known, answers, record, 3);
        assert(forall|j: int|
            4 <= j < 46 ==> is_check((#[trigger] l[j]).0@) || !touches(l[j].1@, "attempt"@));
        stays_through(l, known, answers, record, 4, 46, "attempt"@);
        lemma_under(record[46], "attempt"@, "usage,input_units"@, "attempt,usage,input_units"@);
        was_said(l, known, answers, record, 29);
        assert(forall|j: int|
            30 <= j < 46 ==> is_check((#[trigger] l[j]).0@) || !touches(l[j].1@, "response"@));
        stays_through(l, known, answers, record, 30, 46, "response"@);
        lemma_under(record[46], "response"@, "usage,input_units"@, "response,usage,input_units"@);
        saw_same(l, known, answers, record, 46);
    }
    assert(at(said(record, 2), "usage,output_units"@) == at(said(record, 28), "usage,output_units"@)) by {
        was_said(l, known, answers, record, 3);
        assert(forall|j: int|
            4 <= j < 47 ==> is_check((#[trigger] l[j]).0@) || !touches(l[j].1@, "attempt"@));
        stays_through(l, known, answers, record, 4, 47, "attempt"@);
        lemma_under(record[47], "attempt"@, "usage,output_units"@, "attempt,usage,output_units"@);
        was_said(l, known, answers, record, 29);
        assert(forall|j: int|
            30 <= j < 47 ==> is_check((#[trigger] l[j]).0@) || !touches(l[j].1@, "response"@));
        stays_through(l, known, answers, record, 30, 47, "response"@);
        lemma_under(record[47], "response"@, "usage,output_units"@, "response,usage,output_units"@);
        saw_same(l, known, answers, record, 47);
    }
}

proof fn lemma_model_was_exercised_5(known: Tree, answers: Seq<(Tree, bool)>, record: Seq<Tree>)
    requires
        passed(EXTERNAL_MODEL_COMPLETED@, known, answers, record),
    ensures
        made_rendered(at(said(record, 2), "context,entries"@))
            == Ok::<Tree, Seq<char>>(at(record[13], "entries"@)),
        made_rendered(at(said(record, 2), "context,omissions"@))
            == Ok::<Tree, Seq<char>>(at(record[14], "omissions"@)),
        made_attempt_artifacts(at(known, "no_role"@), said(record, 2))
            == Ok::<Tree, Seq<char>>(at(record[49], "artifacts"@)),
{
    let l = EXTERNAL_MODEL_COMPLETED@;
    reveal_strlit("entries");
    reveal_strlit("rendered");
    reveal_strlit("attempt,context,entries");
    reveal_strlit("rendered attempt,context,entries");
    reveal_strlit("attempt");
    reveal_strlit("reply");
    reveal_strlit("node");
    reveal_strlit("denied_attempt");
    reveal_strlit("");
    reveal_strlit("denied");
    reveal_strlit("denied_output");
    reveal_strlit("denied_artifact");
    reveal_strlit("context,entries");
    reveal_strlit("omissions");
    reveal_strlit("attempt,context,omissions");
    reveal_strlit("rendered attempt,context,omissions");
    reveal_strlit("context,omissions");
    reveal_strlit("artifacts");
    reveal_strlit("attempt-artifacts no_role attempt");
    reveal_strlit("attempt-artifacts");
    reveal_strlit("no_role attempt");
    reveal_strlit("no_role");
    reveal_strlit("model_attempt");
    reveal_strlit("provenance");
    reveal_strlit("response_output");
    reveal_strlit("provider_output");
    reveal_strlit("response");
    reveal_strlit("identities");
    reveal_strlit("requests");
    reveal_strlit("lines");
    assert(
        "rendered attempt,context,entries"@
            =~= "rendered"@ + seq![' '] + "attempt,context,entries"@
    );
    lemma_two_words("rendered"@, "attempt,context,entries"@, "rendered attempt,context,entries"@);
    assert(
        parts("rendered attempt,context,entries"@)
            =~= seq!["rendered"@, "attempt,context,entries"@]
    );
    assert("attempt,context,entries"@.len() == 23);
    assert("attempt"@.len() == 7);
    assert("reply"@.len() == 5);
    lemma_apart("node"@, "attempt"@, 0);
    lemma_apart("denied_attempt"@, "attempt"@, 0);
    lemma_apart(""@, "attempt"@, 0);
    lemma_apart("denied"@, "attempt"@, 0);
    lemma_apart("denied_output"@, "attempt"@, 0);
    lemma_apart("denied_artifact"@, "attempt"@, 0);
    assert("attempt,context,entries"@ =~= "attempt"@ + seq![','] + "context,entries"@);
    assert(parts("rendered attempt,context,entries"@).skip(1) =~= seq!["attempt,context,entries"@]);
    assert(
        "rendered attempt,context,omissions"@
            =~= "rendered"@ + seq![' '] + "attempt,context,omissions"@
    );
    lemma_two_words(
        "rendered"@,
        "attempt,context,omissions"@,
        "rendered attempt,context,omissions"@,
    );
    assert(
        parts("rendered attempt,context,omissions"@)
            =~= seq!["rendered"@, "attempt,context,omissions"@]
    );
    assert("attempt,context,omissions"@.len() == 25);
    lemma_apart("entries"@, "attempt"@, 0);
    assert("attempt,context,omissions"@ =~= "attempt"@ + seq![','] + "context,omissions"@);
    assert(
        parts("rendered attempt,context,omissions"@).skip(1) =~= seq!["attempt,context,omissions"@]
    );
    assert("no_role attempt"@ =~= "no_role"@ + seq![' '] + "attempt"@);
    lemma_two_words("no_role"@, "attempt"@, "no_role attempt"@);
    assert(
        "attempt-artifacts no_role attempt"@
            =~= "attempt-artifacts"@ + seq![' '] + "no_role attempt"@
    );
    lemma_four_words(
        "attempt-artifacts"@,
        "no_role attempt"@,
        "attempt-artifacts no_role attempt"@,
    );
    assert(
        parts("attempt-artifacts no_role attempt"@)
            =~= seq!["attempt-artifacts"@, "no_role"@, "attempt"@]
    );
    assert("no_role"@.len() == 7);
    lemma_apart("node"@, "no_role"@, 2);
    lemma_apart("model_attempt"@, "no_role"@, 0);
    lemma_apart(""@, "no_role"@, 0);
    lemma_apart("attempt"@, "no_role"@, 0);
    lemma_apart("denied_attempt"@, "no_role"@, 0);
    lemma_apart("denied"@, "no_role"@, 0);
    lemma_apart("denied_output"@, "no_role"@, 0);
    lemma_apart("denied_artifact"@, "no_role"@, 0);
    lemma_apart("entries"@, "no_role"@, 0);
    lemma_apart("omissions"@, "no_role"@, 0);
    lemma_apart("provenance"@, "no_role"@, 0);
    lemma_apart("response_output"@, "no_role"@, 0);
    lemma_apart("provider_output"@, "no_role"@, 0);
    lemma_apart("response"@, "no_role"@, 0);
    lemma_apart("identities"@, "no_role"@, 0);
    lemma_apart("requests"@, "no_role"@, 0);
    lemma_apart("lines"@, "no_role"@, 0);
    lemma_apart("omissions"@, "attempt"@, 0);
    lemma_apart("provenance"@, "attempt"@, 0);
    lemma_apart("response_output"@, "attempt"@, 0);
    lemma_apart("provider_output"@, "attempt"@, 0);
    lemma_apart("response"@, "attempt"@, 0);
    lemma_apart("identities"@, "attempt"@, 0);
    lemma_apart("requests"@, "attempt"@, 0);
    lemma_apart("lines"@, "attempt"@, 0);
    assert(parts("attempt-artifacts no_role attempt"@).skip(1) =~= seq!["no_role"@, "attempt"@]);
    assert(made_rendered(at(said(record, 2), "context,entries"@))
            == Ok::<Tree, Seq<char>>(at(record[13], "entries"@))) by {
        was_made(l, known, answers, record, 12);
        was_said(l, known, answers, record, 3);
        assert(forall|j: int|
            4 <= j < 12 ==> is_check((#[trigger] l[j]).0@) || !touches(l[j].1@, "attempt"@));
        stays_through(l, known, answers, record, 4, 12, "attempt"@);
        lemma_under(record[12], "attempt"@, "context,entries"@, "attempt,context,entries"@);
        let args12 = arguments(parts("rendered attempt,context,entries"@).skip(1), record[12]);
        assert(args12 =~= seq![at(said(record, 2), "context,entries"@)]);
        makes_rendered(args12, record[12]);
    }
    assert(made_rendered(at(said(record, 2), "context,omissions"@))
            == Ok::<Tree, Seq<char>>(at(record[14], "omissions"@))) by {
        was_made(l, known, answers, record, 13);
        was_said(l, known, answers, record, 3);
        assert(forall|j: int|
            4 <= j < 13 ==> is_check((#[trigger] l[j]).0@) || !touches(l[j].1@, "attempt"@));
        stays_through(l, known, answers, record, 4, 13, "attempt"@);
        lemma_under(record[13], "attempt"@, "context,omissions"@, "attempt,context,omissions"@);
        let args13 = arguments(parts("rendered attempt,context,omissions"@).skip(1), record[13]);
        assert(args13 =~= seq![at(said(record, 2), "context,omissions"@)]);
        makes_rendered(args13, record[13]);
    }
    assert(made_attempt_artifacts(at(known, "no_role"@), said(record, 2))
            == Ok::<Tree, Seq<char>>(at(record[49], "artifacts"@))) by {
        was_made(l, known, answers, record, 48);
        assert(forall|j: int|
            0 <= j < 48 ==> is_check((#[trigger] l[j]).0@) || !touches(l[j].1@, "no_role"@));
        stays_through(l, known, answers, record, 0, 48, "no_role"@);
        was_said(l, known, answers, record, 3);
        assert(forall|j: int|
            4 <= j < 48 ==> is_check((#[trigger] l[j]).0@) || !touches(l[j].1@, "attempt"@));
        stays_through(l, known, answers, record, 4, 48, "attempt"@);
        let args48 = arguments(parts("attempt-artifacts no_role attempt"@).skip(1), record[48]);
        assert(args48 =~= seq![at(known, "no_role"@), said(record, 2)]);
        makes_attempt_artifacts(args48, record[48]);
    }
}

/// The evidence of a model finishes only where the attempt holds the context that was selected for
/// it and the provenance of its very profile, the endpoint was asked exactly once, the answer was
/// the required text or a structured one, it finished normally, and its usage is the attempt's.
pub proof fn model_was_exercised(
    fixture: bool,
    known: Tree,
    answers: Seq<(Tree, bool)>,
) -> (record: Seq<Tree>)
    requires
        known is Object,
        finished(model_script(fixture), known, answers),
    ensures
        passed(model_script(fixture), known, answers, record),
        EXTERNAL_MODEL_COMPLETED@[2].2@ == "client attempt run-external-model $model_attempt"@,
        at(said(record, 2), "context"@) != Tree::Null,
        made_rendered(at(said(record, 2), "context,entries"@)) is Ok
            && text_has(made_rendered(at(said(record, 2), "context,entries"@))->Ok_0, "evidence-a"@),
        made_rendered(at(said(record, 2), "context,entries"@)) is Ok
            && text_has(made_rendered(at(said(record, 2), "context,entries"@))->Ok_0, "evidence-b"@),
        at(said(record, 2), "capability_provenance"@) != Tree::Null,
        at(at(said(record, 2), "capability_provenance"@), "model_profile_revision"@)
            == at(at(known, "profile"@), "revision"@),
        at(at(said(record, 2), "capability_provenance"@), "provider_protocol"@)
            == at(at(known, "profile"@), "protocol"@),
        at(at(said(record, 2), "capability_provenance"@), "model_alias"@)
            == at(at(known, "profile"@), "model_alias"@),
        at(at(said(record, 2), "capability_provenance"@), "endpoint_origin"@)
            == at(at(known, "profile"@), "endpoint_origin"@),
        EXTERNAL_MODEL_COMPLETED@[30].2@
            == "client artifact values $provider_output,artifact,artifact_id $provider_output,artifact,size"@,
        items_of(said(record, 30)).len() > 0,
        EXTERNAL_MODEL_COMPLETED@[28].2@
            == "client artifact response $response_output,artifact,artifact_id $response_output,artifact,size"@,
        at(at(known, "profile"@), "structured_output"@) == Tree::Bool(true)
            || text_trims(at(said(record, 28), "text"@), "MILKDRIFT_EVIDENCE_OK"@),
        EXTERNAL_MODEL_COMPLETED@[36].2@ == "fixture-requests"@,
        said(record, 36) == Tree::Null || said(record, 36) == Tree::Integer(1),
        EXTERNAL_MODEL_COMPLETED@[39].2@ == "fixture-lines"@,
        said(record, 39) == Tree::Null || items_of(said(record, 39)).len() == 1,
        at(said(record, 28), "finish_reason"@) == Tree::Text("stop"@),
        at(said(record, 2), "usage"@) != Tree::Null,
        at(said(record, 2), "usage,input_units"@) == at(said(record, 28), "usage,input_units"@),
        at(said(record, 2), "usage,output_units"@) == at(said(record, 28), "usage,output_units"@),
        made_rendered(at(said(record, 2), "context,entries"@))
            == Ok::<Tree, Seq<char>>(at(record[13], "entries"@)),
        made_rendered(at(said(record, 2), "context,omissions"@))
            == Ok::<Tree, Seq<char>>(at(record[14], "omissions"@)),
        made_attempt_artifacts(at(known, "no_role"@), said(record, 2))
            == Ok::<Tree, Seq<char>>(at(record[49], "artifacts"@)),
{
    let record = finished_scenarios_are_recorded(model_script(fixture), known, answers);
    beginnings_pass(EXTERNAL_MODEL_COMPLETED@, model_end(fixture), known, answers, record);
    let first = record.take(EXTERNAL_MODEL_COMPLETED@.len() as int + 1);
    lemma_model_was_exercised_1(known, answers, first);
    lemma_model_was_exercised_2(known, answers, first);
    lemma_model_was_exercised_3(known, answers, first);
    lemma_model_was_exercised_4(known, answers, first);
    lemma_model_was_exercised_5(known, answers, first);
    record
}

proof fn lemma_process_evidence(
    fixture: bool,
    known: Tree,
    answers: Seq<(Tree, bool)>,
    record: Seq<Tree>,
)
    requires
        passed(process_script(fixture), known, answers, record),
    ensures
        at(record[211], "evidence,qualifying"@) == Tree::Bool(!fixture),
        at(record[211], "evidence,outcome"@) == Tree::Text("succeeded"@),
        at(record[211], "evidence,failure_reason"@) == Tree::Null,
        at(record[211], "evidence,revisions"@)
            == Tree::List(seq![at(record[201], "revision"@), at(record[201], "proposed_revision"@)]),
        at(record[211], "evidence,attempts"@)
            == Tree::List(
                seq![
                    at(record[202], "original_agent_attempt"@),
                    at(record[202], "weak_attempt"@),
                    at(record[202], "reviewer_attempt"@),
                    at(record[202], "remediation_attempt"@),
                    at(record[202], "good_attempt"@),
                ],
            ),
        at(record[211], "evidence,restart_boundaries"@)
            == Tree::List(seq![at(record[203], "boundary"@)]),
        at(record[211], "evidence,facts,distinct_process_invocations"@) == Tree::Integer(5),
{
    let l = process_script(fixture);
    assert(l[201] == EXTERNAL_PROCESS@[201]);
    assert(l[202] == EXTERNAL_PROCESS@[202]);
    assert(l[203] == EXTERNAL_PROCESS@[203]);
    assert(l[204] == EXTERNAL_PROCESS@[204]);
    assert(l[205] == EXTERNAL_PROCESS@[205]);
    assert(l[206] == EXTERNAL_PROCESS@[206]);
    if fixture {
        assert(l[207] == PROCESS_FIXTURE@[0]);
        assert(l[208] == PROCESS_FIXTURE@[1]);
        assert(l[209] == PROCESS_FIXTURE@[2]);
        assert(l[210] == PROCESS_FIXTURE@[3]);
    } else {
        assert(l[207] == PROCESS_REAL@[0]);
        assert(l[208] == PROCESS_REAL@[1]);
        assert(l[209] == PROCESS_REAL@[2]);
        assert(l[210] == PROCESS_REAL@[3]);
    }
    reveal_strlit("true");
    reveal_strlit("false");
    reveal_strlit("evidence");
    reveal_strlit("reply");
    reveal_strlit("qualifying");
    reveal_strlit("evidence,qualifying");
    reveal_strlit("");
    reveal_strlit("validated");
    reveal_strlit("outcome");
    reveal_strlit("evidence,outcome");
    reveal_strlit("failure_reason");
    reveal_strlit("evidence,failure_reason");
    reveal_strlit("facts,distinct_process_invocations");
    reveal_strlit("evidence,facts,distinct_process_invocations");
    reveal_strlit("facts");
    reveal_strlit("distinct_process_invocations");
    reveal_strlit("profile,fixture_rejected_for_qualification");
    reveal_strlit("evidence,profile,fixture_rejected_for_qualification");
    reveal_strlit("profile");
    reveal_strlit("fixture_rejected_for_qualification");
    reveal_strlit("null");
    reveal_strlit("revision proposed_revision");
    reveal_strlit("revision");
    reveal_strlit("proposed_revision");
    reveal_strlit("revisions");
    reveal_strlit("evidence,revisions");
    reveal_strlit("attempts");
    reveal_strlit("evidence,attempts");
    reveal_strlit("restart_boundaries");
    reveal_strlit("evidence,restart_boundaries");
    reveal_strlit(
        "original_agent_attempt weak_attempt reviewer_attempt remediation_attempt good_attempt",
    );
    reveal_strlit("original_agent_attempt");
    reveal_strlit("weak_attempt reviewer_attempt remediation_attempt good_attempt");
    reveal_strlit("weak_attempt");
    reveal_strlit("reviewer_attempt remediation_attempt good_attempt");
    reveal_strlit("reviewer_attempt");
    reveal_strlit("remediation_attempt good_attempt");
    reveal_strlit("remediation_attempt");
    reveal_strlit("good_attempt");
    reveal_strlit("boundary");
    reveal_strlit("5");
    assert("evidence"@.len() == 8);
    assert("reply"@.len() == 5);
    assert("evidence,qualifying"@ =~= "evidence"@ + seq![','] + "qualifying"@);
    lemma_apart(""@, "evidence"@, 0);
    lemma_apart("validated"@, "evidence"@, 0);
    assert("evidence,outcome"@ =~= "evidence"@ + seq![','] + "outcome"@);
    assert("evidence,failure_reason"@ =~= "evidence"@ + seq![','] + "failure_reason"@);
    lemma_under(Tree::Null, "evidence"@, "failure_reason"@, "evidence,failure_reason"@);
    lemma_single_segment("failure_reason"@);
    assert("failure_reason"@.len() == 14);
    assert("outcome"@.len() == 7);
    assert("evidence,failure_reason"@.len() == 23);
    assert(segments("evidence,failure_reason"@)[1] == "failure_reason"@);
    assert(
        "evidence,facts,distinct_process_invocations"@
            =~= "evidence"@ + seq![','] + "facts,distinct_process_invocations"@
    );
    lemma_under(
        Tree::Null,
        "evidence"@,
        "facts,distinct_process_invocations"@,
        "evidence,facts,distinct_process_invocations"@,
    );
    assert(
        "facts,distinct_process_invocations"@
            =~= "facts"@ + seq![','] + "distinct_process_invocations"@
    );
    lemma_under(
        Tree::Null,
        "facts"@,
        "distinct_process_invocations"@,
        "facts,distinct_process_invocations"@,
    );
    assert("facts"@.len() == 5);
    assert("evidence,facts,distinct_process_invocations"@.len() == 43);
    assert(segments("evidence,facts,distinct_process_invocations"@)[1] == "facts"@);
    assert(
        "evidence,profile,fixture_rejected_for_qualification"@
            =~= "evidence"@ + seq![','] + "profile,fixture_rejected_for_qualification"@
    );
    lemma_under(
        Tree::Null,
        "evidence"@,
        "profile,fixture_rejected_for_qualification"@,
        "evidence,profile,fixture_rejected_for_qualification"@,
    );
    assert(
        "profile,fixture_rejected_for_qualification"@
            =~= "profile"@ + seq![','] + "fixture_rejected_for_qualification"@
    );
    lemma_under(
        Tree::Null,
        "profile"@,
        "fixture_rejected_for_qualification"@,
        "profile,fixture_rejected_for_qualification"@,
    );
    assert("profile"@[0] != "outcome"@[0]);
    assert("evidence,profile,fixture_rejected_for_qualification"@.len() == 51);
    assert(segments("evidence,profile,fixture_rejected_for_qualification"@)[1] == "profile"@);
    lemma_under(Tree::Null, "evidence"@, "qualifying"@, "evidence,qualifying"@);
    lemma_single_segment("qualifying"@);
    assert("qualifying"@.len() == 10);
    assert("evidence,qualifying"@.len() == 19);
    assert(segments("evidence,qualifying"@)[1] == "qualifying"@);
    assert("profile"@.len() == 7);
    assert("revision proposed_revision"@ =~= "revision"@ + seq![' '] + "proposed_revision"@);
    lemma_two_words("revision"@, "proposed_revision"@, "revision proposed_revision"@);
    assert("evidence,revisions"@ =~= "evidence"@ + seq![','] + "revisions"@);
    assert("evidence,attempts"@ =~= "evidence"@ + seq![','] + "attempts"@);
    lemma_under(Tree::Null, "evidence"@, "attempts"@, "evidence,attempts"@);
    lemma_single_segment("attempts"@);
    assert("attempts"@.len() == 8);
    assert("revisions"@.len() == 9);
    assert("evidence,attempts"@.len() == 17);
    assert(segments("evidence,attempts"@)[1] == "attempts"@);
    assert("evidence,restart_boundaries"@ =~= "evidence"@ + seq![','] + "restart_boundaries"@);
    lemma_under(Tree::Null, "evidence"@, "restart_boundaries"@, "evidence,restart_boundaries"@);
    lemma_single_segment("restart_boundaries"@);
    assert("restart_boundaries"@.len() == 18);
    assert("evidence,restart_boundaries"@.len() == 27);
    assert(segments("evidence,restart_boundaries"@)[1] == "restart_boundaries"@);
    lemma_under(Tree::Null, "evidence"@, "outcome"@, "evidence,outcome"@);
    lemma_single_segment("outcome"@);
    assert("evidence,outcome"@.len() == 16);
    assert(segments("evidence,outcome"@)[1] == "outcome"@);
    assert(
        "remediation_attempt good_attempt"@
            =~= "remediation_attempt"@ + seq![' '] + "good_attempt"@
    );
    lemma_two_words("remediation_attempt"@, "good_attempt"@, "remediation_attempt good_attempt"@);
    assert(
        "reviewer_attempt remediation_attempt good_attempt"@
            =~= "reviewer_attempt"@ + seq![' '] + "remediation_attempt good_attempt"@
    );
    lemma_four_words(
        "reviewer_attempt"@,
        "remediation_attempt good_attempt"@,
        "reviewer_attempt remediation_attempt good_attempt"@,
    );
    assert(
        "weak_attempt reviewer_attempt remediation_attempt good_attempt"@
            =~= "weak_attempt"@ + seq![' '] + "reviewer_attempt remediation_attempt good_attempt"@
    );
    lemma_four_words(
        "weak_attempt"@,
        "reviewer_attempt remediation_attempt good_attempt"@,
        "weak_attempt reviewer_attempt remediation_attempt good_attempt"@,
    );
    assert(
        "original_agent_attempt weak_attempt reviewer_attempt remediation_attempt good_attempt"@
            =~= "original_agent_attempt"@
                + seq![' ']
                + "weak_attempt reviewer_attempt remediation_attempt good_attempt"@
    );
    lemma_four_words(
        "original_agent_attempt"@,
        "weak_attempt reviewer_attempt remediation_attempt good_attempt"@,
        "original_agent_attempt weak_attempt reviewer_attempt remediation_attempt good_attempt"@,
    );
    lemma_one_word("boundary"@);
    lemma_one_digit("5"@);
    assert(number_of("5"@) == Some(5u64));
    assert(at(record[211], "evidence,qualifying"@) == Tree::Bool(!fixture)) by {
        was_marked(l, known, answers, record, 208, !fixture);
        lemma_under(record[209], "evidence"@, "qualifying"@, "evidence,qualifying"@);
        stays(l, known, answers, record, 209, "evidence"@);
        stays(l, known, answers, record, 210, "evidence"@);
        lemma_under(record[211], "evidence"@, "qualifying"@, "evidence,qualifying"@);
    }
    assert(at(record[211], "evidence,outcome"@) == Tree::Text("succeeded"@)) by {
        was_worded(l, known, answers, record, 204);
        lemma_under(record[205], "evidence"@, "outcome"@, "evidence,outcome"@);
        stays_beside(l, known, answers, record, 205, "evidence"@, "outcome"@);
        stays_beside(l, known, answers, record, 206, "evidence"@, "outcome"@);
        stays_beside(l, known, answers, record, 207, "evidence"@, "outcome"@);
        stays_beside(l, known, answers, record, 208, "evidence"@, "outcome"@);
        stays(l, known, answers, record, 209, "evidence"@);
        stays(l, known, answers, record, 210, "evidence"@);
        lemma_under(record[211], "evidence"@, "outcome"@, "evidence,outcome"@);
    }
    assert(at(record[211], "evidence,failure_reason"@) == Tree::Null) by {
        was_cleared(l, known, answers, record, 205);
        lemma_under(record[206], "evidence"@, "failure_reason"@, "evidence,failure_reason"@);
        stays_beside(l, known, answers, record, 206, "evidence"@, "failure_reason"@);
        stays_beside(l, known, answers, record, 207, "evidence"@, "failure_reason"@);
        stays_beside(l, known, answers, record, 208, "evidence"@, "failure_reason"@);
        stays(l, known, answers, record, 209, "evidence"@);
        stays(l, known, answers, record, 210, "evidence"@);
        lemma_under(record[211], "evidence"@, "failure_reason"@, "evidence,failure_reason"@);
    }
    assert(at(record[211], "evidence,revisions"@)
            == Tree::List(seq![at(record[201], "revision"@), at(record[201], "proposed_revision"@)])) by {
        was_gathered(l, known, answers, record, 201);
        lemma_under(record[202], "evidence"@, "revisions"@, "evidence,revisions"@);
        stays_beside(l, known, answers, record, 202, "evidence"@, "revisions"@);
        stays_beside(l, known, answers, record, 203, "evidence"@, "revisions"@);
        stays_beside(l, known, answers, record, 204, "evidence"@, "revisions"@);
        stays_beside(l, known, answers, record, 205, "evidence"@, "revisions"@);
        stays_beside(l, known, answers, record, 206, "evidence"@, "revisions"@);
        stays_beside(l, known, answers, record, 207, "evidence"@, "revisions"@);
        stays_beside(l, known, answers, record, 208, "evidence"@, "revisions"@);
        stays(l, known, answers, record, 209, "evidence"@);
        stays(l, known, answers, record, 210, "evidence"@);
        lemma_under(record[211], "evidence"@, "revisions"@, "evidence,revisions"@);
        assert(
            gathered(parts("revision proposed_revision"@), record[201])
                =~= seq![at(record[201], "revision"@), at(record[201], "proposed_revision"@)]
        );
    }
    assert(at(record[211], "evidence,attempts"@)
            == Tree::List(
                seq![
                    at(record[202], "original_agent_attempt"@),
                    at(record[202], "weak_attempt"@),
                    at(record[202], "reviewer_attempt"@),
                    at(record[202], "remediation_attempt"@),
                    at(record[202], "good_attempt"@),
                ],
            )) by {
        was_gathered(l, known, answers, record, 202);
        lemma_under(record[203], "evidence"@, "attempts"@, "evidence,attempts"@);
        stays_beside(l, known, answers, record, 203, "evidence"@, "attempts"@);
        stays_beside(l, known, answers, record, 204, "evidence"@, "attempts"@);
        stays_beside(l, known, answers, record, 205, "evidence"@, "attempts"@);
        stays_beside(l, known, answers, record, 206, "evidence"@, "attempts"@);
        stays_beside(l, known, answers, record, 207, "evidence"@, "attempts"@);
        stays_beside(l, known, answers, record, 208, "evidence"@, "attempts"@);
        stays(l, known, answers, record, 209, "evidence"@);
        stays(l, known, answers, record, 210, "evidence"@);
        lemma_under(record[211], "evidence"@, "attempts"@, "evidence,attempts"@);
        assert(
            gathered(
                parts(
                    "original_agent_attempt weak_attempt reviewer_attempt remediation_attempt good_attempt"@,
                ),
                record[202],
            )
                =~= seq![
                    at(record[202], "original_agent_attempt"@),
                    at(record[202], "weak_attempt"@),
                    at(record[202], "reviewer_attempt"@),
                    at(record[202], "remediation_attempt"@),
                    at(record[202], "good_attempt"@),
                ]
        );
    }
    assert(at(record[211], "evidence,restart_boundaries"@)
            == Tree::List(seq![at(record[203], "boundary"@)])) by {
        was_gathered(l, known, answers, record, 203);
        lemma_under(
            record[204],
            "evidence"@,
            "restart_boundaries"@,
            "evidence,restart_boundaries"@,
        );
        stays_beside(l, known, answers, record, 204, "evidence"@, "restart_boundaries"@);
        stays_beside(l, known, answers, record, 205, "evidence"@, "restart_boundaries"@);
        stays_beside(l, known, answers, record, 206, "evidence"@, "restart_boundaries"@);
        stays_beside(l, known, answers, record, 207, "evidence"@, "restart_boundaries"@);
        stays_beside(l, known, answers, record, 208, "evidence"@, "restart_boundaries"@);
        stays(l, known, answers, record, 209, "evidence"@);
        stays(l, known, answers, record, 210, "evidence"@);
        lemma_under(
            record[211],
            "evidence"@,
            "restart_boundaries"@,
            "evidence,restart_boundaries"@,
        );
        assert(gathered(parts("boundary"@), record[203]) =~= seq![at(record[203], "boundary"@)]);
    }
    assert(at(record[211], "evidence,facts,distinct_process_invocations"@) == Tree::Integer(5)) by {
        was_counted(l, known, answers, record, 206, 5);
        lemma_under(
            record[207],
            "evidence"@,
            "facts,distinct_process_invocations"@,
            "evidence,facts,distinct_process_invocations"@,
        );
        stays_beside(l, known, answers, record, 207, "evidence"@, "facts"@);
        stays_beside(l, known, answers, record, 208, "evidence"@, "facts"@);
        stays(l, known, answers, record, 209, "evidence"@);
        stays(l, known, answers, record, 210, "evidence"@);
        lemma_under(
            at(record[207], "evidence"@),
            "facts"@,
            "distinct_process_invocations"@,
            "facts,distinct_process_invocations"@,
        );
        lemma_under(
            at(record[211], "evidence"@),
            "facts"@,
            "distinct_process_invocations"@,
            "facts,distinct_process_invocations"@,
        );
        lemma_under(
            record[211],
            "evidence"@,
            "facts,distinct_process_invocations"@,
            "evidence,facts,distinct_process_invocations"@,
        );
    }
}

proof fn lemma_model_evidence(
    fixture: bool,
    known: Tree,
    answers: Seq<(Tree, bool)>,
    record: Seq<Tree>,
)
    requires
        passed(model_script(fixture), known, answers, record),
    ensures
        at(record[97], "evidence,qualifying"@) == Tree::Bool(!fixture),
        at(record[97], "evidence,outcome"@) == Tree::Text("succeeded"@),
        at(record[97], "evidence,failure_reason"@) == Tree::Null,
        at(record[97], "evidence,revisions"@) == Tree::List(seq![at(record[90], "revision"@)]),
        at(record[97], "evidence,attempts"@) == Tree::List(seq![at(record[91], "model_attempt"@)]),
        at(record[97], "evidence,restart_boundaries"@)
            == Tree::List(seq![at(record[92], "boundary"@)]),
{
    let l = model_script(fixture);
    assert(l[90] == EXTERNAL_MODEL_COMPLETED@[90]);
    assert(l[91] == EXTERNAL_MODEL_COMPLETED@[91]);
    assert(l[92] == EXTERNAL_MODEL_COMPLETED@[92]);
    assert(l[93] == EXTERNAL_MODEL_COMPLETED@[93]);
    assert(l[94] == EXTERNAL_MODEL_COMPLETED@[94]);
    if fixture {
        assert(l[95] == MODEL_FIXTURE@[0]);
        assert(l[96] == MODEL_FIXTURE@[1]);
    } else {
        assert(l[95] == MODEL_REAL@[0]);
        assert(l[96] == MODEL_REAL@[1]);
    }
    reveal_strlit("true");
    reveal_strlit("false");
    reveal_strlit("evidence");
    reveal_strlit("reply");
    reveal_strlit("qualifying");
    reveal_strlit("evidence,qualifying");
    reveal_strlit("outcome");
    reveal_strlit("evidence,outcome");
    reveal_strlit("failure_reason");
    reveal_strlit("evidence,failure_reason");
    reveal_strlit("profile,fixture_rejected_for_qualification");
    reveal_strlit("evidence,profile,fixture_rejected_for_qualification");
    reveal_strlit("profile");
    reveal_strlit("fixture_rejected_for_qualification");
    reveal_strlit("null");
    reveal_strlit("revision");
    reveal_strlit("revisions");
    reveal_strlit("evidence,revisions");
    reveal_strlit("attempts");
    reveal_strlit("evidence,attempts");
    reveal_strlit("restart_boundaries");
    reveal_strlit("evidence,restart_boundaries");
    reveal_strlit("model_attempt");
    reveal_strlit("boundary");
    assert("evidence"@.len() == 8);
    assert("reply"@.len() == 5);
    assert("evidence,qualifying"@ =~= "evidence"@ + seq![','] + "qualifying"@);
    assert("evidence,outcome"@ =~= "evidence"@ + seq![','] + "outcome"@);
    assert("evidence,failure_reason"@ =~= "evidence"@ + seq![','] + "failure_reason"@);
    lemma_under(Tree::Null, "evidence"@, "failure_reason"@, "evidence,failure_reason"@);
    lemma_single_segment("failure_reason"@);
    assert("failure_reason"@.len() == 14);
    assert("outcome"@.len() == 7);
    assert("evidence,failure_reason"@.len() == 23);
    assert(segments("evidence,failure_reason"@)[1] == "failure_reason"@);
    assert(
        "evidence,profile,fixture_rejected_for_qualification"@
            =~= "evidence"@ + seq![','] + "profile,fixture_rejected_for_qualification"@
    );
    lemma_under(
        Tree::Null,
        "evidence"@,
        "profile,fixture_rejected_for_qualification"@,
        "evidence,profile,fixture_rejected_for_qualification"@,
    );
    assert(
        "profile,fixture_rejected_for_qualification"@
            =~= "profile"@ + seq![','] + "fixture_rejected_for_qualification"@
    );
    lemma_under(
        Tree::Null,
        "profile"@,
        "fixture_rejected_for_qualification"@,
        "profile,fixture_rejected_for_qualification"@,
    );
    assert("profile"@[0] != "outcome"@[0]);
    assert("evidence,profile,fixture_rejected_for_qualification"@.len() == 51);
    assert(segments("evidence,profile,fixture_rejected_for_qualification"@)[1] == "profile"@);
    lemma_under(Tree::Null, "evidence"@, "qualifying"@, "evidence,qualifying"@);
    lemma_single_segment("qualifying"@);
    assert("qualifying"@.len() == 10);
    assert("evidence,qualifying"@.len() == 19);
    assert(segments("evidence,qualifying"@)[1] == "qualifying"@);
    assert("profile"@.len() == 7);
    lemma_one_word("revision"@);
    assert("evidence,revisions"@ =~= "evidence"@ + seq![','] + "revisions"@);
    assert("evidence,attempts"@ =~= "evidence"@ + seq![','] + "attempts"@);
    lemma_under(Tree::Null, "evidence"@, "attempts"@, "evidence,attempts"@);
    lemma_single_segment("attempts"@);
    assert("attempts"@.len() == 8);
    assert("revisions"@.len() == 9);
    assert("evidence,attempts"@.len() == 17);
    assert(segments("evidence,attempts"@)[1] == "attempts"@);
    assert("evidence,restart_boundaries"@ =~= "evidence"@ + seq![','] + "restart_boundaries"@);
    lemma_under(Tree::Null, "evidence"@, "restart_boundaries"@, "evidence,restart_boundaries"@);
    lemma_single_segment("restart_boundaries"@);
    assert("restart_boundaries"@.len() == 18);
    assert("evidence,restart_boundaries"@.len() == 27);
    assert(segments("evidence,restart_boundaries"@)[1] == "restart_boundaries"@);
    lemma_under(Tree::Null, "evidence"@, "outcome"@, "evidence,outcome"@);
    lemma_single_segment("outcome"@);
    assert("evidence,outcome"@.len() == 16);
    assert(segments("evidence,outcome"@)[1] == "outcome"@);
    lemma_one_word("model_attempt"@);
    lemma_one_word("boundary"@);
    assert(at(record[97], "evidence,qualifying"@) == Tree::Bool(!fixture)) by {
        was_marked(l, known, answers, record, 96, !fixture);
        lemma_under(record[97], "evidence"@, "qualifying"@, "evidence,qualifying"@);
    }
    assert(at(record[97], "evidence,outcome"@) == Tree::Text("succeeded"@)) by {
        was_worded(l, known, answers, record, 93);
        lemma_under(record[94], "evidence"@, "outcome"@, "evidence,outcome"@);
        stays_beside(l, known, answers, record, 94, "evidence"@, "outcome"@);
        stays_beside(l, known, answers, record, 95, "evidence"@, "outcome"@);
        stays_beside(l, known, answers, record, 96, "evidence"@, "outcome"@);
        lemma_under(record[97], "evidence"@, "outcome"@, "evidence,outcome"@);
    }
    assert(at(record[97], "evidence,failure_reason"@) == Tree::Null) by {
        was_cleared(l, known, answers, record, 94);
        lemma_under(record[95], "evidence"@, "failure_reason"@, "evidence,failure_reason"@);
        stays_beside(l, known, answers, record, 95, "evidence"@, "failure_reason"@);
        stays_beside(l, known, answers, record, 96, "evidence"@, "failure_reason"@);
        lemma_under(record[97], "evidence"@, "failure_reason"@, "evidence,failure_reason"@);
    }
    assert(at(record[97], "evidence,revisions"@) == Tree::List(seq![at(record[90], "revision"@)])) by {
        was_gathered(l, known, answers, record, 90);
        lemma_under(record[91], "evidence"@, "revisions"@, "evidence,revisions"@);
        stays_beside(l, known, answers, record, 91, "evidence"@, "revisions"@);
        stays_beside(l, known, answers, record, 92, "evidence"@, "revisions"@);
        stays_beside(l, known, answers, record, 93, "evidence"@, "revisions"@);
        stays_beside(l, known, answers, record, 94, "evidence"@, "revisions"@);
        stays_beside(l, known, answers, record, 95, "evidence"@, "revisions"@);
        stays_beside(l, known, answers, record, 96, "evidence"@, "revisions"@);
        lemma_under(record[97], "evidence"@, "revisions"@, "evidence,revisions"@);
        assert(gathered(parts("revision"@), record[90]) =~= seq![at(record[90], "revision"@)]);
    }
    assert(at(record[97], "evidence,attempts"@) == Tree::List(seq![at(record[91], "model_attempt"@)])) by {
        was_gathered(l, known, answers, record, 91);
        lemma_under(record[92], "evidence"@, "attempts"@, "evidence,attempts"@);
        stays_beside(l, known, answers, record, 92, "evidence"@, "attempts"@);
        stays_beside(l, known, answers, record, 93, "evidence"@, "attempts"@);
        stays_beside(l, known, answers, record, 94, "evidence"@, "attempts"@);
        stays_beside(l, known, answers, record, 95, "evidence"@, "attempts"@);
        stays_beside(l, known, answers, record, 96, "evidence"@, "attempts"@);
        lemma_under(record[97], "evidence"@, "attempts"@, "evidence,attempts"@);
        assert(
            gathered(parts("model_attempt"@), record[91])
                =~= seq![at(record[91], "model_attempt"@)]
        );
    }
    assert(at(record[97], "evidence,restart_boundaries"@)
            == Tree::List(seq![at(record[92], "boundary"@)])) by {
        was_gathered(l, known, answers, record, 92);
        lemma_under(record[93], "evidence"@, "restart_boundaries"@, "evidence,restart_boundaries"@);
        stays_beside(l, known, answers, record, 93, "evidence"@, "restart_boundaries"@);
        stays_beside(l, known, answers, record, 94, "evidence"@, "restart_boundaries"@);
        stays_beside(l, known, answers, record, 95, "evidence"@, "restart_boundaries"@);
        stays_beside(l, known, answers, record, 96, "evidence"@, "restart_boundaries"@);
        lemma_under(record[97], "evidence"@, "restart_boundaries"@, "evidence,restart_boundaries"@);
        assert(gathered(parts("boundary"@), record[92]) =~= seq![at(record[92], "boundary"@)]);
    }
}

proof fn lemma_boundary(known: Tree, answers: Seq<(Tree, bool)>, record: Seq<Tree>)
    requires
        passed(EXTERNAL_PROCESS@, known, answers, record),
    ensures
        at(at(record[203], "boundary"@), "sequence_before"@)
            == at(at(record[203], "boundary"@), "sequence_after"@),
{
    let l = EXTERNAL_PROCESS@;
    reveal_strlit("boundary");
    reveal_strlit("reply");
    reveal_strlit("before_restart");
    reveal_strlit("watch");
    reveal_strlit("wait");
    reveal_strlit("");
    reveal_strlit("node");
    reveal_strlit("original_agent_attempt");
    reveal_strlit("weak_attempt");
    reveal_strlit("reviewer_attempt");
    reveal_strlit("killed");
    reveal_strlit("started");
    reveal_strlit("recovered");
    reveal_strlit("boundary,boundary");
    reveal_strlit("sequence");
    reveal_strlit("before_restart,sequence");
    reveal_strlit("boundary,sequence_before");
    reveal_strlit("recovered,sequence");
    reveal_strlit("sequence_before");
    reveal_strlit("sequence_after");
    reveal_strlit("boundary,sequence_after");
    reveal_strlit("recovered_state");
    reveal_strlit("boundary,recovered_state");
    reveal_strlit("duplicate_attempts");
    reveal_strlit("boundary,duplicate_attempts");
    reveal_strlit("pausing");
    reveal_strlit("paused");
    reveal_strlit("revision_read");
    reveal_strlit("proposal");
    reveal_strlit("submitted");
    reveal_strlit("proposed_revision");
    reveal_strlit("decision_state");
    reveal_strlit("approved");
    reveal_strlit("apply_state");
    reveal_strlit("applied");
    reveal_strlit("signal_state");
    reveal_strlit("signalled");
    reveal_strlit("resume_state");
    reveal_strlit("resumed");
    reveal_strlit("completed");
    reveal_strlit("remediation_attempt");
    reveal_strlit("good_attempt");
    reveal_strlit("agent_read");
    reveal_strlit("agent_provenance");
    reveal_strlit("good_read");
    reveal_strlit("weak_read");
    reveal_strlit("reviewer_read");
    reveal_strlit("remediation_read");
    reveal_strlit("initial_coding_invocation");
    reveal_strlit("invocation,role");
    reveal_strlit("invocation,attempt_id");
    reveal_strlit("invocation,invocation_id");
    reveal_strlit("invocation,capability_id");
    reveal_strlit("invocation,descriptor_revision");
    reveal_strlit("invocation,snapshot_digest");
    reveal_strlit("invocation,process_profile_digest");
    reveal_strlit("invocation,context_manifest_digest");
    reveal_strlit("invocation,terminal");
    reveal_strlit("invocation,uncertain");
    reveal_strlit("initial_coding");
    reveal_strlit("controlled_verification_invocation");
    reveal_strlit("controlled_verification");
    reveal_strlit("independent_review_invocation");
    reveal_strlit("independent_review");
    reveal_strlit("remediation_coding_invocation");
    reveal_strlit("remediation_coding");
    reveal_strlit("final_verification_invocation");
    reveal_strlit("final_verification");
    reveal_strlit("invocations");
    reveal_strlit("initial_coding_artifacts");
    reveal_strlit("controlled_verification_artifacts");
    reveal_strlit("independent_review_artifacts");
    reveal_strlit("remediation_coding_artifacts");
    reveal_strlit("final_verification_artifacts");
    reveal_strlit("artifacts");
    reveal_strlit("repository");
    reveal_strlit("evidence,profile,capability");
    reveal_strlit("evidence,profile,server_settings,status");
    reveal_strlit("evidence,profile,server_settings,scope");
    reveal_strlit("evidence,profile,server_settings,thinking");
    reveal_strlit("evidence,profile,server_settings,model_identity");
    reveal_strlit("evidence,profile,executable_configured_path_digest");
    reveal_strlit("evidence,profile,executable_canonical_path_digest");
    reveal_strlit("evidence,profile,executable_content_digest");
    reveal_strlit("evidence,profile,executable_size_bytes");
    reveal_strlit("evidence,profile,version_output");
    reveal_strlit("evidence,profile,profile_digest");
    reveal_strlit("evidence,profile,policy_digest");
    reveal_strlit("evidence,commands");
    reveal_strlit("evidence,runs");
    reveal_strlit("evidence,proposals");
    reveal_strlit("evidence,artifacts");
    reveal_strlit("evidence,facts,repository_initial_commit");
    reveal_strlit("evidence,facts,repository_initial_tree");
    reveal_strlit("evidence,facts,repository_final_commit");
    reveal_strlit("evidence,facts,repository_final_tree");
    reveal_strlit("evidence,facts,dirty_diff_digest");
    reveal_strlit("evidence,facts,dirty_diff_bytes");
    reveal_strlit("evidence,facts,controlled_failure");
    reveal_strlit("evidence,facts,fresh_agent_attempts");
    reveal_strlit("evidence,facts,process_invocations");
    reveal_strlit("evidence,facts,terminal_sequence");
    reveal_strlit("evidence,facts,wait_timeout_secs");
    reveal_strlit("evidence,revisions");
    reveal_strlit("evidence,attempts");
    assert("boundary"@.len() == 8);
    assert("reply"@.len() == 5);
    assert("before_restart"@.len() == 14);
    assert("watch"@.len() == 5);
    assert("wait"@.len() == 4);
    lemma_apart(""@, "before_restart"@, 0);
    lemma_apart("node"@, "before_restart"@, 0);
    lemma_apart("original_agent_attempt"@, "before_restart"@, 0);
    lemma_apart("weak_attempt"@, "before_restart"@, 0);
    lemma_apart("reviewer_attempt"@, "before_restart"@, 0);
    lemma_apart("killed"@, "before_restart"@, 0);
    lemma_apart("started"@, "before_restart"@, 0);
    lemma_apart("recovered"@, "before_restart"@, 0);
    lemma_apart("boundary,boundary"@, "before_restart"@, 1);
    assert("before_restart,sequence"@ =~= "before_restart"@ + seq![','] + "sequence"@);
    assert("recovered"@.len() == 9);
    lemma_apart("boundary,boundary"@, "recovered"@, 0);
    lemma_apart("boundary,sequence_before"@, "recovered"@, 0);
    assert("recovered,sequence"@ =~= "recovered"@ + seq![','] + "sequence"@);
    assert("boundary,sequence_before"@ =~= "boundary"@ + seq![','] + "sequence_before"@);
    assert("boundary,sequence_after"@ =~= "boundary"@ + seq![','] + "sequence_after"@);
    lemma_under(Tree::Null, "boundary"@, "sequence_after"@, "boundary,sequence_after"@);
    lemma_single_segment("sequence_after"@);
    assert("sequence_after"@.len() == 14);
    assert("sequence_before"@.len() == 15);
    assert("boundary,sequence_after"@.len() == 23);
    assert(segments("boundary,sequence_after"@)[1] == "sequence_after"@);
    assert("boundary,recovered_state"@ =~= "boundary"@ + seq![','] + "recovered_state"@);
    lemma_under(Tree::Null, "boundary"@, "recovered_state"@, "boundary,recovered_state"@);
    lemma_single_segment("recovered_state"@);
    assert("recovered_state"@[0] != "sequence_before"@[0]);
    assert("boundary,recovered_state"@.len() == 24);
    assert(segments("boundary,recovered_state"@)[1] == "recovered_state"@);
    assert("boundary,duplicate_attempts"@ =~= "boundary"@ + seq![','] + "duplicate_attempts"@);
    lemma_under(Tree::Null, "boundary"@, "duplicate_attempts"@, "boundary,duplicate_attempts"@);
    lemma_single_segment("duplicate_attempts"@);
    assert("duplicate_attempts"@.len() == 18);
    assert("boundary,duplicate_attempts"@.len() == 27);
    assert(segments("boundary,duplicate_attempts"@)[1] == "duplicate_attempts"@);
    assert("recovered_state"@.len() == 15);
    lemma_apart(""@, "boundary"@, 0);
    lemma_apart("pausing"@, "boundary"@, 0);
    lemma_apart("paused"@, "boundary"@, 0);
    lemma_apart("revision_read"@, "boundary"@, 0);
    lemma_apart("proposal"@, "boundary"@, 0);
    lemma_apart("submitted"@, "boundary"@, 0);
    lemma_apart("proposed_revision"@, "boundary"@, 0);
    lemma_apart("decision_state"@, "boundary"@, 0);
    lemma_apart("approved"@, "boundary"@, 0);
    lemma_apart("apply_state"@, "boundary"@, 0);
    lemma_apart("applied"@, "boundary"@, 0);
    lemma_apart("signal_state"@, "boundary"@, 0);
    lemma_apart("signalled"@, "boundary"@, 0);
    lemma_apart("resume_state"@, "boundary"@, 0);
    lemma_apart("resumed"@, "boundary"@, 0);
    lemma_apart("completed"@, "boundary"@, 0);
    lemma_apart("node"@, "boundary"@, 0);
    lemma_apart("remediation_attempt"@, "boundary"@, 0);
    lemma_apart("good_attempt"@, "boundary"@, 0);
    lemma_apart("agent_read"@, "boundary"@, 0);
    lemma_apart("agent_provenance"@, "boundary"@, 0);
    lemma_apart("good_read"@, "boundary"@, 0);
    lemma_apart("weak_read"@, "boundary"@, 0);
    lemma_apart("reviewer_read"@, "boundary"@, 0);
    lemma_apart("remediation_read"@, "boundary"@, 0);
    lemma_apart("initial_coding_invocation"@, "boundary"@, 0);
    lemma_apart("invocation,role"@, "boundary"@, 0);
    lemma_apart("invocation,attempt_id"@, "boundary"@, 0);
    lemma_apart("invocation,invocation_id"@, "boundary"@, 0);
    lemma_apart("invocation,capability_id"@, "boundary"@, 0);
    lemma_apart("invocation,descriptor_revision"@, "boundary"@, 0);
    lemma_apart("invocation,snapshot_digest"@, "boundary"@, 0);
    lemma_apart("invocation,process_profile_digest"@, "boundary"@, 0);
    lemma_apart("invocation,context_manifest_digest"@, "boundary"@, 0);
    lemma_apart("invocation,terminal"@, "boundary"@, 0);
    lemma_apart("invocation,uncertain"@, "boundary"@, 0);
    lemma_apart("initial_coding"@, "boundary"@, 0);
    lemma_apart("controlled_verification_invocation"@, "boundary"@, 0);
    lemma_apart("controlled_verification"@, "boundary"@, 0);
    lemma_apart("independent_review_invocation"@, "boundary"@, 0);
    lemma_apart("independent_review"@, "boundary"@, 0);
    lemma_apart("remediation_coding_invocation"@, "boundary"@, 0);
    lemma_apart("remediation_coding"@, "boundary"@, 0);
    lemma_apart("final_verification_invocation"@, "boundary"@, 0);
    lemma_apart("final_verification"@, "boundary"@, 0);
    lemma_apart("invocations"@, "boundary"@, 0);
    lemma_apart("initial_coding_artifacts"@, "boundary"@, 0);
    lemma_apart("controlled_verification_artifacts"@, "boundary"@, 0);
    lemma_apart("independent_review_artifacts"@, "boundary"@, 0);
    lemma_apart("remediation_coding_artifacts"@, "boundary"@, 0);
    lemma_apart("final_verification_artifacts"@, "boundary"@, 0);
    lemma_apart("artifacts"@, "boundary"@, 0);
    lemma_apart("repository"@, "boundary"@, 0);
    lemma_apart("killed"@, "boundary"@, 0);
    lemma_apart("evidence,profile,capability"@, "boundary"@, 0);
    lemma_apart("evidence,profile,server_settings,status"@, "boundary"@, 0);
    lemma_apart("evidence,profile,server_settings,scope"@, "boundary"@, 0);
    lemma_apart("evidence,profile,server_settings,thinking"@, "boundary"@, 0);
    lemma_apart("evidence,profile,server_settings,model_identity"@, "boundary"@, 0);
    lemma_apart("evidence,profile,executable_configured_path_digest"@, "boundary"@, 0);
    lemma_apart("evidence,profile,executable_canonical_path_digest"@, "boundary"@, 0);
    lemma_apart("evidence,profile,executable_content_digest"@, "boundary"@, 0);
    lemma_apart("evidence,profile,executable_size_bytes"@, "boundary"@, 0);
    lemma_apart("evidence,profile,version_output"@, "boundary"@, 0);
    lemma_apart("evidence,profile,profile_digest"@, "boundary"@, 0);
    lemma_apart("evidence,profile,policy_digest"@, "boundary"@, 0);
    lemma_apart("evidence,commands"@, "boundary"@, 0);
    lemma_apart("evidence,runs"@, "boundary"@, 0);
    lemma_apart("evidence,proposals"@, "boundary"@, 0);
    lemma_apart("evidence,artifacts"@, "boundary"@, 0);
    lemma_apart("evidence,facts,repository_initial_commit"@, "boundary"@, 0);
    lemma_apart("evidence,facts,repository_initial_tree"@, "boundary"@, 0);
    lemma_apart("evidence,facts,repository_final_commit"@, "boundary"@, 0);
    lemma_apart("evidence,facts,repository_final_tree"@, "boundary"@, 0);
    lemma_apart("evidence,facts,dirty_diff_digest"@, "boundary"@, 0);
    lemma_apart("evidence,facts,dirty_diff_bytes"@, "boundary"@, 0);
    lemma_apart("evidence,facts,controlled_failure"@, "boundary"@, 0);
    lemma_apart("evidence,facts,fresh_agent_attempts"@, "boundary"@, 0);
    lemma_apart("evidence,facts,process_invocations"@, "boundary"@, 0);
    lemma_apart("evidence,facts,terminal_sequence"@, "boundary"@, 0);
    lemma_apart("evidence,facts,wait_timeout_secs"@, "boundary"@, 0);
    lemma_apart("evidence,revisions"@, "boundary"@, 0);
    lemma_apart("evidence,attempts"@, "boundary"@, 0);
    assert(at(at(record[203], "boundary"@), "sequence_before"@)
            == at(at(record[203], "boundary"@), "sequence_after"@)) by {
        was_awaited(l, known, answers, record, 9);
        assert(forall|j: int|
            10 <= j < 29
                ==> is_check((#[trigger] l[j]).0@) || !touches(l[j].1@, "before_restart"@));
        stays_through(l, known, answers, record, 10, 29, "before_restart"@);
        lemma_under(record[29], "before_restart"@, "sequence"@, "before_restart,sequence"@);
        was_said(l, known, answers, record, 25);
        assert(forall|j: int|
            26 <= j < 30 ==> is_check((#[trigger] l[j]).0@) || !touches(l[j].1@, "recovered"@));
        stays_through(l, known, answers, record, 26, 30, "recovered"@);
        lemma_under(record[30], "recovered"@, "sequence"@, "recovered,sequence"@);
        lemma_under(record[26], "recovered"@, "sequence"@, "recovered,sequence"@);
        assert(forall|j: int|
            10 <= j < 26
                ==> is_check((#[trigger] l[j]).0@) || !touches(l[j].1@, "before_restart"@));
        stays_through(l, known, answers, record, 10, 26, "before_restart"@);
        lemma_under(record[26], "before_restart"@, "sequence"@, "before_restart,sequence"@);
        saw_same(l, known, answers, record, 26);
        was_put(l, known, answers, record, 29);
        lemma_under(record[30], "boundary"@, "sequence_before"@, "boundary,sequence_before"@);
        stays_beside(l, known, answers, record, 30, "boundary"@, "sequence_before"@);
        stays_beside(l, known, answers, record, 31, "boundary"@, "sequence_before"@);
        stays_beside(l, known, answers, record, 32, "boundary"@, "sequence_before"@);
        was_put(l, known, answers, record, 30);
        lemma_under(record[31], "boundary"@, "sequence_after"@, "boundary,sequence_after"@);
        stays_beside(l, known, answers, record, 31, "boundary"@, "sequence_after"@);
        stays_beside(l, known, answers, record, 32, "boundary"@, "sequence_after"@);
        assert(forall|j: int|
            33 <= j < 203 ==> is_check((#[trigger] l[j]).0@) || !touches(l[j].1@, "boundary"@));
        stays_through(l, known, answers, record, 33, 203, "boundary"@);
    }
}

/// Fixture evidence never qualifies: a finished process scenario qualifies exactly where it had no
/// fixture. It then holds a success with two revisions, five attempts of five distinct invocations
/// and one restart boundary, whose sequences before and after are equal, and no failure reason.
pub proof fn process_evidence_is_complete(
    fixture: bool,
    known: Tree,
    answers: Seq<(Tree, bool)>,
) -> (boundary: Tree)
    requires
        known is Object,
        finished(process_script(fixture), known, answers),
    ensures
        ({
            let evidence = at(
                played(opening(process_script(fixture), known), answers).0.env,
                "evidence"@,
            );
            &&& at(evidence, "qualifying"@) == Tree::Bool(!fixture)
            &&& at(evidence, "outcome"@) == Tree::Text("succeeded"@)
            &&& at(evidence, "failure_reason"@) == Tree::Null
            &&& items_of(at(evidence, "revisions"@)).len() == 2
            &&& items_of(at(evidence, "attempts"@)).len() == 5
            &&& at(evidence, "restart_boundaries"@) == Tree::List(seq![boundary])
            &&& at(evidence, "facts,distinct_process_invocations"@) == Tree::Integer(5)
        }),
        at(boundary, "sequence_before"@) == at(boundary, "sequence_after"@),
        at(
            played(opening(process_script(fixture), known), answers).0.env,
            "evidence,qualifying"@,
        ) == Tree::Bool(!fixture),
{
    let record = finished_scenarios_are_recorded(process_script(fixture), known, answers);
    assert(process_script(fixture).len() == 211);
    lemma_process_evidence(fixture, known, answers, record);
    beginnings_pass(EXTERNAL_PROCESS@, process_end(fixture), known, answers, record);
    let first = record.take(EXTERNAL_PROCESS@.len() as int + 1);
    lemma_boundary(known, answers, first);
    let env = record.last();
    lemma_fields(env);
    at(record[203], "boundary"@)
}


proof fn lemma_fields(env: Tree)
    ensures
        at(env, "evidence,qualifying"@) == at(at(env, "evidence"@), "qualifying"@),
        at(env, "evidence,outcome"@) == at(at(env, "evidence"@), "outcome"@),
        at(env, "evidence,failure_reason"@) == at(at(env, "evidence"@), "failure_reason"@),
        at(env, "evidence,revisions"@) == at(at(env, "evidence"@), "revisions"@),
        at(env, "evidence,attempts"@) == at(at(env, "evidence"@), "attempts"@),
        at(env, "evidence,restart_boundaries"@) == at(at(env, "evidence"@), "restart_boundaries"@),
        at(env, "evidence,facts,distinct_process_invocations"@)
            == at(at(env, "evidence"@), "facts,distinct_process_invocations"@),
{
    reveal_strlit("evidence");
    reveal_strlit("qualifying");
    reveal_strlit("evidence,qualifying");
    assert("evidence,qualifying"@ =~= "evidence"@ + seq![','] + "qualifying"@);
    lemma_under(env, "evidence"@, "qualifying"@, "evidence,qualifying"@);
    reveal_strlit("outcome");
    reveal_strlit("evidence,outcome");
    assert("evidence,outcome"@ =~= "evidence"@ + seq![','] + "outcome"@);
    lemma_under(env, "evidence"@, "outcome"@, "evidence,outcome"@);
    reveal_strlit("failure_reason");
    reveal_strlit("evidence,failure_reason");
    assert("evidence,failure_reason"@ =~= "evidence"@ + seq![','] + "failure_reason"@);
    lemma_under(env, "evidence"@, "failure_reason"@, "evidence,failure_reason"@);
    reveal_strlit("revisions");
    reveal_strlit("evidence,revisions");
    assert("evidence,revisions"@ =~= "evidence"@ + seq![','] + "revisions"@);
    lemma_under(env, "evidence"@, "revisions"@, "evidence,revisions"@);
    reveal_strlit("attempts");
    reveal_strlit("evidence,attempts");
    assert("evidence,attempts"@ =~= "evidence"@ + seq![','] + "attempts"@);
    lemma_under(env, "evidence"@, "attempts"@, "evidence,attempts"@);
    reveal_strlit("restart_boundaries");
    reveal_strlit("evidence,restart_boundaries");
    assert("evidence,restart_boundaries"@ =~= "evidence"@ + seq![','] + "restart_boundaries"@);
    lemma_under(env, "evidence"@, "restart_boundaries"@, "evidence,restart_boundaries"@);
    reveal_strlit("facts,distinct_process_invocations");
    reveal_strlit("evidence,facts,distinct_process_invocations");
    assert(
        "evidence,facts,distinct_process_invocations"@
            =~= "evidence"@ + seq![','] + "facts,distinct_process_invocations"@
    );
    lemma_under(
        env,
        "evidence"@,
        "facts,distinct_process_invocations"@,
        "evidence,facts,distinct_process_invocations"@,
    );
}

/// Fixture evidence never qualifies: a finished model scenario qualifies exactly where it had no
/// fixture. It then holds a success with one revision, one attempt and one restart boundary, and no
/// failure reason.
pub proof fn model_evidence_is_complete(fixture: bool, known: Tree, answers: Seq<(Tree, bool)>)
    requires
        known is Object,
        finished(model_script(fixture), known, answers),
    ensures
        ({
            let evidence = at(
                played(opening(model_script(fixture), known), answers).0.env,
                "evidence"@,
            );
            &&& at(evidence, "qualifying"@) == Tree::Bool(!fixture)
            &&& at(evidence, "outcome"@) == Tree::Text("succeeded"@)
            &&& at(evidence, "failure_reason"@) == Tree::Null
            &&& items_of(at(evidence, "revisions"@)).len() == 1
            &&& items_of(at(evidence, "attempts"@)).len() == 1
            &&& items_of(at(evidence, "restart_boundaries"@)).len() == 1
        }),
        at(
            played(opening(model_script(fixture), known), answers).0.env,
            "evidence,qualifying"@,
        ) == Tree::Bool(!fixture),
{
    let record = finished_scenarios_are_recorded(model_script(fixture), known, answers);
    assert(model_script(fixture).len() == 97);
    lemma_model_evidence(fixture, known, answers, record);
    lemma_fields(record.last());
}

/// The report of a run with fixtures never qualifies, however far its scenarios came.
pub proof fn fixture_reports_never_qualify(
    known: Tree,
    answers: Seq<(Tree, bool)>,
    process: Settled,
    model: Settled,
)
    requires
        known is Object,
        process matches Settled::Complete { evidence } ==> finished(
            process_script(true),
            known,
            answers,
        ) && evidence@ == at(
            played(opening(process_script(true), known), answers).0.env,
            "evidence"@,
        ),
    ensures
        !(settled_qualifies(process) && settled_qualifies(model)),
{
    if process is Complete {
        process_evidence_is_complete(true, known, answers);
    }
}

/// A model run that did not succeed fails its scenario, whatever was read of it.
pub proof fn failed_models_never_finish(known: Tree, answers: Seq<(Tree, bool)>)
    requires
        known is Object,
    ensures
        !finished(EXTERNAL_MODEL_FAILED@, known, answers),
        !finished(EXTERNAL_MODEL_JUDGED@, known, answers),
{
    reveal_strlit("true");
    reveal_strlit("false");
    reveal_strlit("mark");
    if finished(EXTERNAL_MODEL_FAILED@, known, answers) {
        let l = EXTERNAL_MODEL_FAILED@;
        let record = finished_scenarios_are_recorded(l, known, answers);
        was_marked(l, known, answers, record, 12, false);
        saw_true(l, known, answers, record, 13);
    }
    if finished(EXTERNAL_MODEL_JUDGED@, known, answers) {
        let l = EXTERNAL_MODEL_JUDGED@;
        let record = finished_scenarios_are_recorded(l, known, answers);
        was_marked(l, known, answers, record, 15, false);
        saw_true(l, known, answers, record, 16);
    }
}

/// A model run without an accepted or refused result that has come to the last statement of its
/// scenario fails with the reason that the health, the attempt and the requests that were read
/// give.
pub proof fn unjudged_failures_are_reported(
    known: Tree,
    answers: Seq<(Tree, bool)>,
    record: Seq<Tree>,
)
    requires
        passed(EXTERNAL_MODEL_FAILED@.take(13), known, answers, record),
    ensures
        EXTERNAL_MODEL_FAILED@[0].2@ == "client health"@,
        EXTERNAL_MODEL_FAILED@[4].2@ == "client attempt run-external-model $failed_attempt"@,
        EXTERNAL_MODEL_FAILED@[7].2@ == "fixture-requests"@,
        EXTERNAL_MODEL_FAILED@[9].2@ == "fixture-lines"@,
        made_model_failure(said(record, 0), said(record, 4), at(record[11], "acceptance"@), said(record, 7), said(record, 9)) matches Ok(Tree::Text(reason)) && effect_of(
            script_statements(EXTERNAL_MODEL_FAILED@)[13],
            record[13],
        ) == (EffectView::Fail { message: reason }),
{
    let l = EXTERNAL_MODEL_FAILED@.take(13);
    assert(l.len() == 13);
    assert(forall|i: int| 0 <= i < 13 ==> #[trigger] l[i] == EXTERNAL_MODEL_FAILED@[i]);
    reveal_strlit("failure");
    reveal_strlit("model-failure health failed_read acceptance requests lines");
    reveal_strlit("model-failure");
    reveal_strlit("health failed_read acceptance requests lines");
    reveal_strlit("health");
    reveal_strlit("failed_read acceptance requests lines");
    reveal_strlit("failed_read");
    reveal_strlit("acceptance requests lines");
    reveal_strlit("acceptance");
    reveal_strlit("requests lines");
    reveal_strlit("requests");
    reveal_strlit("lines");
    reveal_strlit("reply");
    reveal_strlit("node");
    reveal_strlit("failed_attempt");
    reveal_strlit("");
    reveal_strlit("settled");
    reveal_strlit("false");
    reveal_strlit("true");
    assert("requests lines"@ =~= "requests"@ + seq![' '] + "lines"@);
    lemma_two_words("requests"@, "lines"@, "requests lines"@);
    assert("acceptance requests lines"@ =~= "acceptance"@ + seq![' '] + "requests lines"@);
    lemma_four_words("acceptance"@, "requests lines"@, "acceptance requests lines"@);
    assert(
        "failed_read acceptance requests lines"@
            =~= "failed_read"@ + seq![' '] + "acceptance requests lines"@
    );
    lemma_four_words(
        "failed_read"@,
        "acceptance requests lines"@,
        "failed_read acceptance requests lines"@,
    );
    assert(
        "health failed_read acceptance requests lines"@
            =~= "health"@ + seq![' '] + "failed_read acceptance requests lines"@
    );
    lemma_four_words(
        "health"@,
        "failed_read acceptance requests lines"@,
        "health failed_read acceptance requests lines"@,
    );
    assert(
        "model-failure health failed_read acceptance requests lines"@
            =~= "model-failure"@ + seq![' '] + "health failed_read acceptance requests lines"@
    );
    lemma_four_words(
        "model-failure"@,
        "health failed_read acceptance requests lines"@,
        "model-failure health failed_read acceptance requests lines"@,
    );
    assert(
        parts("model-failure health failed_read acceptance requests lines"@)
            =~= seq!["model-failure"@, "health"@, "failed_read"@, "acceptance"@, "requests"@, "lines"@]
    );
    assert("health"@.len() == 6);
    assert("reply"@.len() == 5);
    lemma_apart("node"@, "health"@, 0);
    lemma_apart("failed_attempt"@, "health"@, 0);
    lemma_apart(""@, "health"@, 0);
    lemma_apart("failed_read"@, "health"@, 0);
    lemma_apart("acceptance"@, "health"@, 0);
    lemma_apart("requests"@, "health"@, 0);
    lemma_apart("lines"@, "health"@, 0);
    assert("failed_read"@.len() == 11);
    lemma_apart("acceptance"@, "failed_read"@, 0);
    lemma_apart(""@, "failed_read"@, 0);
    lemma_apart("requests"@, "failed_read"@, 0);
    lemma_apart("lines"@, "failed_read"@, 0);
    assert("acceptance"@.len() == 10);
    assert("requests"@.len() == 8);
    lemma_apart(""@, "requests"@, 0);
    lemma_apart("lines"@, "requests"@, 0);
    assert("lines"@.len() == 5);
    assert("lines"@[0] != "reply"@[0]);
    assert(
        parts("model-failure health failed_read acceptance requests lines"@).skip(1)
            =~= seq!["health"@, "failed_read"@, "acceptance"@, "requests"@, "lines"@]
    );
    assert("failure"@.len() == 7);
    lemma_apart("settled"@, "failure"@, 0);
    assert(made_model_failure(
            said(record, 0),
            said(record, 4),
            at(record[11], "acceptance"@),
            said(record, 7),
            said(record, 9),
        )
            == Ok::<Tree, Seq<char>>(at(record[12], "failure"@))) by {
        was_made(l, known, answers, record, 11);
        was_said(l, known, answers, record, 1);
        assert(forall|j: int|
            2 <= j < 11 ==> is_check((#[trigger] l[j]).0@) || !touches(l[j].1@, "health"@));
        stays_through(l, known, answers, record, 2, 11, "health"@);
        was_said(l, known, answers, record, 5);
        assert(forall|j: int|
            6 <= j < 11 ==> is_check((#[trigger] l[j]).0@) || !touches(l[j].1@, "failed_read"@));
        stays_through(l, known, answers, record, 6, 11, "failed_read"@);
        was_said(l, known, answers, record, 8);
        stays(l, known, answers, record, 9, "requests"@);
        stays(l, known, answers, record, 10, "requests"@);
        was_said(l, known, answers, record, 10);
        let args11 = arguments(
            parts("model-failure health failed_read acceptance requests lines"@).skip(1),
            record[11],
        );
        assert(
            args11
                =~= seq![
                    said(record, 0),
                    said(record, 4),
                    at(record[11], "acceptance"@),
                    said(record, 7),
                    said(record, 9),
                ]
        );
        makes_model_failure(args11, record[11]);
    }
    assert(at(record[13], "failure"@) == at(record[12], "failure"@)) by {
        stays(l, known, answers, record, 12, "failure"@);
        was_marked(l, known, answers, record, 12, false);
    }
    was_marked(l, known, answers, record, 12, false);
    reveal_strlit("$failure");
    lemma_named_failure(script_statements(EXTERNAL_MODEL_FAILED@)[13], record[13]);
}

/// A model run with a judged result that has come to the last statement of its scenario fails with
/// the reason that the health, the attempt, the acceptance and the requests that were read give.
pub proof fn judged_failures_are_reported(
    known: Tree,
    answers: Seq<(Tree, bool)>,
    record: Seq<Tree>,
)
    requires
        passed(EXTERNAL_MODEL_JUDGED@.take(16), known, answers, record),
    ensures
        EXTERNAL_MODEL_JUDGED@[0].2@ == "client health"@,
        EXTERNAL_MODEL_JUDGED@[4].2@ == "client attempt run-external-model $failed_attempt"@,
        EXTERNAL_MODEL_JUDGED@[8].2@ == "client attempt run-external-model $acceptance_attempt"@,
        EXTERNAL_MODEL_JUDGED@[10].2@ == "fixture-requests"@,
        EXTERNAL_MODEL_JUDGED@[12].2@ == "fixture-lines"@,
        made_model_failure(said(record, 0), said(record, 4), said(record, 8), said(record, 10), said(record, 12)) matches Ok(Tree::Text(reason)) && effect_of(
            script_statements(EXTERNAL_MODEL_JUDGED@)[16],
            record[16],
        ) == (EffectView::Fail { message: reason }),
{
    let l = EXTERNAL_MODEL_JUDGED@.take(16);
    assert(l.len() == 16);
    assert(forall|i: int| 0 <= i < 16 ==> #[trigger] l[i] == EXTERNAL_MODEL_JUDGED@[i]);
    reveal_strlit("failure");
    reveal_strlit("model-failure health failed_read acceptance requests lines");
    reveal_strlit("model-failure");
    reveal_strlit("health failed_read acceptance requests lines");
    reveal_strlit("health");
    reveal_strlit("failed_read acceptance requests lines");
    reveal_strlit("failed_read");
    reveal_strlit("acceptance requests lines");
    reveal_strlit("acceptance");
    reveal_strlit("requests lines");
    reveal_strlit("requests");
    reveal_strlit("lines");
    reveal_strlit("reply");
    reveal_strlit("node");
    reveal_strlit("failed_attempt");
    reveal_strlit("");
    reveal_strlit("acceptance_attempt");
    reveal_strlit("settled");
    reveal_strlit("false");
    reveal_strlit("true");
    assert("requests lines"@ =~= "requests"@ + seq![' '] + "lines"@);
    lemma_two_words("requests"@, "lines"@, "requests lines"@);
    assert("acceptance requests lines"@ =~= "acceptance"@ + seq![' '] + "requests lines"@);
    lemma_four_words("acceptance"@, "requests lines"@, "acceptance requests lines"@);
    assert(
        "failed_read acceptance requests lines"@
            =~= "failed_read"@ + seq![' '] + "acceptance requests lines"@
    );
    lemma_four_words(
        "failed_read"@,
        "acceptance requests lines"@,
        "failed_read acceptance requests lines"@,
    );
    assert(
        "health failed_read acceptance requests lines"@
            =~= "health"@ + seq![' '] + "failed_read acceptance requests lines"@
    );
    lemma_four_words(
        "health"@,
        "failed_read acceptance requests lines"@,
        "health failed_read acceptance requests lines"@,
    );
    assert(
        "model-failure health failed_read acceptance requests lines"@
            =~= "model-failure"@ + seq![' '] + "health failed_read acceptance requests lines"@
    );
    lemma_four_words(
        "model-failure"@,
        "health failed_read acceptance requests lines"@,
        "model-failure health failed_read acceptance requests lines"@,
    );
    assert(
        parts("model-failure health failed_read acceptance requests lines"@)
            =~= seq!["model-failure"@, "health"@, "failed_read"@, "acceptance"@, "requests"@, "lines"@]
    );
    assert("health"@.len() == 6);
    assert("reply"@.len() == 5);
    lemma_apart("node"@, "health"@, 0);
    lemma_apart("failed_attempt"@, "health"@, 0);
    lemma_apart(""@, "health"@, 0);
    lemma_apart("failed_read"@, "health"@, 0);
    lemma_apart("acceptance_attempt"@, "health"@, 0);
    lemma_apart("acceptance"@, "health"@, 0);
    lemma_apart("requests"@, "health"@, 0);
    lemma_apart("lines"@, "health"@, 0);
    assert("failed_read"@.len() == 11);
    lemma_apart("node"@, "failed_read"@, 0);
    lemma_apart("acceptance_attempt"@, "failed_read"@, 0);
    lemma_apart(""@, "failed_read"@, 0);
    lemma_apart("acceptance"@, "failed_read"@, 0);
    lemma_apart("requests"@, "failed_read"@, 0);
    lemma_apart("lines"@, "failed_read"@, 0);
    assert("acceptance"@.len() == 10);
    lemma_apart(""@, "acceptance"@, 0);
    lemma_apart("requests"@, "acceptance"@, 0);
    lemma_apart("lines"@, "acceptance"@, 0);
    assert("requests"@.len() == 8);
    lemma_apart(""@, "requests"@, 0);
    lemma_apart("lines"@, "requests"@, 0);
    assert("lines"@.len() == 5);
    assert("lines"@[0] != "reply"@[0]);
    assert(
        parts("model-failure health failed_read acceptance requests lines"@).skip(1)
            =~= seq!["health"@, "failed_read"@, "acceptance"@, "requests"@, "lines"@]
    );
    assert("failure"@.len() == 7);
    lemma_apart("settled"@, "failure"@, 0);
    assert(made_model_failure(
            said(record, 0),
            said(record, 4),
            said(record, 8),
            said(record, 10),
            said(record, 12),
        )
            == Ok::<Tree, Seq<char>>(at(record[15], "failure"@))) by {
        was_made(l, known, answers, record, 14);
        was_said(l, known, answers, record, 1);
        assert(forall|j: int|
            2 <= j < 14 ==> is_check((#[trigger] l[j]).0@) || !touches(l[j].1@, "health"@));
        stays_through(l, known, answers, record, 2, 14, "health"@);
        was_said(l, known, answers, record, 5);
        assert(forall|j: int|
            6 <= j < 14 ==> is_check((#[trigger] l[j]).0@) || !touches(l[j].1@, "failed_read"@));
        stays_through(l, known, answers, record, 6, 14, "failed_read"@);
        was_said(l, known, answers, record, 9);
        assert(forall|j: int|
            10 <= j < 14 ==> is_check((#[trigger] l[j]).0@) || !touches(l[j].1@, "acceptance"@));
        stays_through(l, known, answers, record, 10, 14, "acceptance"@);
        was_said(l, known, answers, record, 11);
        stays(l, known, answers, record, 12, "requests"@);
        stays(l, known, answers, record, 13, "requests"@);
        was_said(l, known, answers, record, 13);
        let args14 = arguments(
            parts("model-failure health failed_read acceptance requests lines"@).skip(1),
            record[14],
        );
        assert(
            args14
                =~= seq![
                    said(record, 0),
                    said(record, 4),
                    said(record, 8),
                    said(record, 10),
                    said(record, 12),
                ]
        );
        makes_model_failure(args14, record[14]);
    }
    assert(at(record[16], "failure"@) == at(record[15], "failure"@)) by {
        stays(l, known, answers, record, 15, "failure"@);
        was_marked(l, known, answers, record, 15, false);
    }
    was_marked(l, known, answers, record, 15, false);
    reveal_strlit("$failure");
    lemma_named_failure(script_statements(EXTERNAL_MODEL_JUDGED@)[16], record[16]);
}

} // verus!
