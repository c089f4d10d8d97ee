//! What finished sessions of provider evidence have shown.

use vstd::prelude::*;

use crate::findings::{
    is_check, lemma_apart, lemma_under, said, saw_false, saw_true, stays_through, touches, was_said,
};
use crate::json::{at, Tree};
use crate::record::{finished, finished_scenarios_are_recorded, passed};
use crate::scripts::external::EXTERNAL_SCENARIOS;

verus! {

proof fn lemma_sessions_ran_both_scenarios(
    known: Tree,
    answers: Seq<(Tree, bool)>,
    record: Seq<Tree>,
)
    requires
        passed(EXTERNAL_SCENARIOS@, known, answers, record),
    ensures
        at(at(known, "injected"@), "process"@) == Tree::Bool(false),
        at(at(known, "injected"@), "model"@) == Tree::Bool(false),
        at(said(record, 20), "reached"@) == Tree::Bool(true),
        said(record, 25) == Tree::Bool(true),
{
    let l = EXTERNAL_SCENARIOS@;
    reveal_strlit("injected");
    reveal_strlit("reply");
    reveal_strlit("");
    reveal_strlit("repository");
    reveal_strlit("agent");
    reveal_strlit("helpers");
    reveal_strlit("model_profile");
    reveal_strlit("facts");
    reveal_strlit("sources");
    reveal_strlit("configuration_digest");
    reveal_strlit("process");
    reveal_strlit("injected,process");
    reveal_strlit("model");
    reveal_strlit("injected,model");
    reveal_strlit("alive");
    reveal_strlit("reached");
    reveal_strlit("alive,reached");
    reveal_strlit("stopped");
    assert("injected"@.len() == 8);
    assert("reply"@.len() == 5);
    lemma_apart(""@, "injected"@, 0);
    lemma_apart("repository"@, "injected"@, 0);
    lemma_apart("agent"@, "injected"@, 0);
    lemma_apart("helpers"@, "injected"@, 0);
    lemma_apart("model_profile"@, "injected"@, 0);
    lemma_apart("facts"@, "injected"@, 0);
    lemma_apart("sources"@, "injected"@, 0);
    lemma_apart("configuration_digest"@, "injected"@, 0);
    assert("injected,process"@ =~= "injected"@ + seq![','] + "process"@);
    lemma_apart("process"@, "injected"@, 0);
    assert("injected,model"@ =~= "injected"@ + seq![','] + "model"@);
    assert("alive"@[0] != "reply"@[0]);
    assert("alive,reached"@ =~= "alive"@ + seq![','] + "reached"@);
    assert("stopped"@.len() == 7);
    assert(at(at(known, "injected"@), "process"@) == Tree::Bool(false)) by {
        assert(forall|j: int|
            0 <= j < 16 ==> is_check((#[trigger] l[j]).0@) || !touches(l[j].1@, "injected"@));
        stays_through(l, known, answers, record, 0, 16, "injected"@);
        lemma_under(record[16], "injected"@, "process"@, "injected,process"@);
        saw_false(l, known, answers, record, 16);
    }
    assert(at(at(known, "injected"@), "model"@) == Tree::Bool(false)) by {
        assert(forall|j: int|
            0 <= j < 19 ==> is_check((#[trigger] l[j]).0@) || !touches(l[j].1@, "injected"@));
        stays_through(l, known, answers, record, 0, 19, "injected"@);
        lemma_under(record[19], "injected"@, "model"@, "injected,model"@);
        saw_false(l, known, answers, record, 19);
    }
    assert(at(said(record, 20), "reached"@) == Tree::Bool(true)) by {
        was_said(l, known, answers, record, 21);
        lemma_under(record[22], "alive"@, "reached"@, "alive,reached"@);
        saw_true(l, known, answers, record, 22);
    }
    assert(said(record, 25) == Tree::Bool(true)) by {
        was_said(l, known, answers, record, 26);
        saw_true(l, known, answers, record, 27);
    }
}

/// A session finishes only where no failure was injected into either of its scenarios, the model
/// endpoint was alive before its scenario, and the endpoint stopped in good order.
pub proof fn sessions_ran_both_scenarios(
    known: Tree,
    answers: Seq<(Tree, bool)>,
) -> (record: Seq<Tree>)
    requires
        known is Object,
        finished(EXTERNAL_SCENARIOS@, known, answers),
    ensures
        passed(EXTERNAL_SCENARIOS@, known, answers, record),
        at(at(known, "injected"@), "process"@) == Tree::Bool(false),
        at(at(known, "injected"@), "model"@) == Tree::Bool(false),
        EXTERNAL_SCENARIOS@[20].2@ == "endpoint-alive"@,
        at(said(record, 20), "reached"@) == Tree::Bool(true),
        EXTERNAL_SCENARIOS@[25].2@ == "endpoint-stop"@,
        said(record, 25) == Tree::Bool(true),
{
    let record = finished_scenarios_are_recorded(EXTERNAL_SCENARIOS@, known, answers);
    lemma_sessions_ran_both_scenarios(known, answers, record);
    record
}

} // verus!
