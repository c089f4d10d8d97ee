//! The record of a finished scenario: what was known before each of its statements.

use vstd::prelude::*;

use crate::application::line_document;
use crate::json::{at, with, Tree};
use crate::scenario::{
    awaited, continued, effect_of, opening, reply_output, resumed, script_statements, until_end,
    until_holds, EffectView, Line, ScenarioView, StatementView, StepView,
};

verus! {

/// What a repeated action's answer is kept as.
pub open spec fn answered(op: Seq<char>, reply: Tree) -> Tree {
    if op == "watch"@ || op == "poll"@ {
        at(reply, "value"@)
    } else {
        match line_document(reply_output(reply).stdout, reply_output(reply).document) {
            Ok(t) => t,
            Err(_) => Tree::Null,
        }
    }
}

/// Whether a statement leads from one environment to another: by its own effect, by one of the
/// answers to its action, or by one under which the conditions behind it hold.
pub open spec fn crossed(
    statements: Seq<StatementView>,
    answers: Seq<(Tree, bool)>,
    i: int,
    before: Tree,
    after: Tree,
) -> bool {
    let s = statements[i];
    if s.op == "until"@ {
        after == before
    } else {
        match effect_of(s, before) {
            EffectView::Next { env } => after == env,
            EffectView::Ask { words } => exists|k: int|
                0 <= k < answers.len() && after == with(before, "reply"@, #[trigger] answers[k].0),
            EffectView::Await { words } => until_holds(statements, i + 1, after) && exists|k: int|
                0 <= k < answers.len() && after == with(
                    with(before, "reply"@, #[trigger] answers[k].0),
                    s.subject,
                    answered(s.op, answers[k].0),
                ),
            EffectView::Fail { message } => false,
        }
    }
}

/// A record up to some statement.
pub open spec fn recorded(
    statements: Seq<StatementView>,
    known: Tree,
    answers: Seq<(Tree, bool)>,
    record: Seq<Tree>,
) -> bool {
    &&& 1 <= record.len() <= statements.len() + 1
    &&& record[0] == known
    &&& forall|i: int|
        0 <= i < record.len() - 1 ==> #[trigger] crossed(
            statements,
            answers,
            i,
            record[i],
            record[i + 1],
        )
    &&& forall|i: int| 0 <= i < record.len() ==> #[trigger] record[i] is Object
}

/// The record of a script that ran to its end.
pub open spec fn passed(
    lines: Seq<Line>,
    known: Tree,
    answers: Seq<(Tree, bool)>,
    record: Seq<Tree>,
) -> bool {
    &&& recorded(script_statements(lines), known, answers, record)
    &&& record.len() == lines.len() + 1
}

/// A scenario after its first answers, each with whether a deadline had passed.
pub open spec fn played(v: ScenarioView, answers: Seq<(Tree, bool)>) -> (ScenarioView, StepView)
    decreases answers.len(),
{
    if answers.len() == 0 {
        continued(v)
    } else {
        resumed(played(v, answers.drop_last()).0, answers.last().0, answers.last().1)
    }
}

/// Whether every answer was asked for.
pub open spec fn driven(v: ScenarioView, answers: Seq<(Tree, bool)>) -> bool
    decreases answers.len(),
{
    answers.len() > 0 ==> driven(v, answers.drop_last()) && played(v, answers.drop_last()).1
        is Perform
}

/// Whether a script was driven to its end by some answers.
pub open spec fn finished(lines: Seq<Line>, known: Tree, answers: Seq<(Tree, bool)>) -> bool {
    &&& driven(opening(lines, known), answers)
    &&& played(opening(lines, known), answers).1 is Done
}

/// How a record stands to a scenario under way.
spec fn follows(
    v: ScenarioView,
    answers: Seq<(Tree, bool)>,
    w: ScenarioView,
    step: StepView,
    record: Seq<Tree>,
) -> bool {
    &&& w.statements == v.statements
    &&& recorded(v.statements, v.env, answers, record)
    &&& w.env is Object
    &&& match step {
        StepView::Done => record.len() == v.statements.len() + 1 && record.last() == w.env,
        StepView::Perform { words, again } => if w.waiting {
            &&& 0 <= w.position < v.statements.len()
            &&& record.len() == w.position + 1
            &&& effect_of(v.statements[w.position], record.last()) is Await
            &&& v.statements[w.position].op != "until"@
            &&& w.env == record.last() || exists|reply: Tree|
                w.env == #[trigger] with(record.last(), "reply"@, reply)
        } else {
            &&& 0 < w.position <= v.statements.len()
            &&& record.len() == w.position
            &&& record.last() == w.env
            &&& effect_of(v.statements[w.position - 1], w.env) is Ask
            &&& v.statements[w.position - 1].op != "until"@
        },
        StepView::Failed { message } => true,
    }
}

/// A record stays one when more answers are given.
proof fn lemma_more_answers(
    statements: Seq<StatementView>,
    known: Tree,
    answers: Seq<(Tree, bool)>,
    more: (Tree, bool),
    record: Seq<Tree>,
)
    requires
        recorded(statements, known, answers, record),
    ensures
        recorded(statements, known, answers.push(more), record),
{
    let all = answers.push(more);
    assert forall|i: int| 0 <= i < record.len() - 1 implies #[trigger] crossed(
        statements,
        all,
        i,
        record[i],
        record[i + 1],
    ) by {
        assert(crossed(statements, answers, i, record[i], record[i + 1]));
        let s = statements[i];
        if s.op != "until"@ {
            match effect_of(s, record[i]) {
                EffectView::Ask { words } => {
                    let k = choose|k: int|
                        0 <= k < answers.len() && record[i + 1] == with(
                            record[i],
                            "reply"@,
                            #[trigger] answers[k].0,
                        );
                    assert(all[k] == answers[k]);
                },
                EffectView::Await { words } => {
                    let k = choose|k: int|
                        0 <= k < answers.len() && record[i + 1] == with(
                            with(record[i], "reply"@, #[trigger] answers[k].0),
                            s.subject,
                            answered(s.op, answers[k].0),
                        );
                    assert(all[k] == answers[k]);
                },
                _ => {},
            }
        }
    }
}

proof fn lemma_push(
    statements: Seq<StatementView>,
    known: Tree,
    answers: Seq<(Tree, bool)>,
    record: Seq<Tree>,
    next: Tree,
)
    requires
        recorded(statements, known, answers, record),
        record.len() <= statements.len(),
        crossed(statements, answers, record.len() - 1, record.last(), next),
        next is Object,
    ensures
        recorded(statements, known, answers, record.push(next)),
{
    let longer = record.push(next);
    assert forall|i: int| 0 <= i < longer.len() - 1 implies #[trigger] crossed(
        statements,
        answers,
        i,
        longer[i],
        longer[i + 1],
    ) by {
        if i < record.len() - 1 {
            assert(crossed(statements, answers, i, record[i], record[i + 1]));
        }
    }
}

/// A condition behind a repeated action has no effect of its own.
proof fn lemma_until_effect(s: StatementView, env: Tree)
    requires
        s.op == "until"@,
    ensures
        effect_of(s, env) is Fail,
{
    crate::scenario::lemma_until_is_no_statement(s, env);
}

proof fn lemma_continues(
    v: ScenarioView,
    answers: Seq<(Tree, bool)>,
    x: ScenarioView,
    record: Seq<Tree>,
) -> (longer: Seq<Tree>)
    requires
        x.statements == v.statements,
        recorded(v.statements, v.env, answers, record),
        0 <= x.position <= v.statements.len(),
        record.len() == x.position + 1,
        record.last() == x.env,
    ensures
        follows(v, answers, continued(x).0, continued(x).1, longer),
    decreases v.statements.len() - x.position,
{
    if x.position >= v.statements.len() {
        record
    } else {
        let s = v.statements[x.position];
        if s.op == "until"@ {
            lemma_until_effect(s, x.env);
        }
        match effect_of(s, x.env) {
            EffectView::Next { env } => {
                crate::scenario::lemma_next_is_object(s, x.env);
                lemma_push(v.statements, v.env, answers, record, env);
                lemma_continues(
                    v,
                    answers,
                    ScenarioView { position: x.position + 1, waiting: false, env, ..x },
                    record.push(env),
                )
            },
            _ => record,
        }
    }
}

proof fn lemma_conditions_pass(
    statements: Seq<StatementView>,
    known: Tree,
    answers: Seq<(Tree, bool)>,
    record: Seq<Tree>,
    from: int,
) -> (longer: Seq<Tree>)
    requires
        recorded(statements, known, answers, record),
        0 <= from <= statements.len(),
        record.len() == from + 1,
    ensures
        recorded(statements, known, answers, longer),
        longer.len() == until_end(statements, from) + 1,
        longer.last() == record.last(),
        from <= until_end(statements, from) <= statements.len(),
    decreases statements.len() - from,
{
    if from < statements.len() && statements[from].op == "until"@ {
        lemma_push(statements, known, answers, record, record.last());
        lemma_conditions_pass(statements, known, answers, record.push(record.last()), from + 1)
    } else {
        record
    }
}

proof fn lemma_resumes(
    v: ScenarioView,
    answers: Seq<(Tree, bool)>,
    w: ScenarioView,
    step: StepView,
    record: Seq<Tree>,
    reply: Tree,
    expired: bool,
) -> (longer: Seq<Tree>)
    requires
        follows(v, answers, w, step, record),
        step is Perform,
    ensures
        follows(
            v,
            answers.push((reply, expired)),
            resumed(w, reply, expired).0,
            resumed(w, reply, expired).1,
            longer,
        ),
{
    let all = answers.push((reply, expired));
    lemma_more_answers(v.statements, v.env, answers, (reply, expired), record);
    assert(all[answers.len() as int].0 == reply);
    let env = with(w.env, "reply"@, reply);
    let known = ScenarioView { env, ..w };
    if !w.waiting {
        lemma_push(v.statements, v.env, all, record, env);
        lemma_continues(v, all, known, record.push(env))
    } else {
        let base = record.last();
        let s = v.statements[w.position];
        assert(env == with(base, "reply"@, reply)) by {
            if w.env != base {
                let earlier = choose|earlier: Tree|
                    w.env == #[trigger] with(base, "reply"@, earlier);
                assert(w.env->Object_0.insert("reply"@, reply) =~= base->Object_0.insert(
                    "reply"@,
                    reply,
                ));
            }
        }
        assert(at(env, "reply"@) == reply) by {
            crate::scenario::lemma_reply(w.env, reply);
        }
        let next = with(env, s.subject, answered(s.op, reply));
        let end = until_end(v.statements, w.position + 1);
        reveal_strlit("watch");
        reveal_strlit("poll");
        if until_holds(v.statements, w.position + 1, next) && resumed(w, reply, expired)
            == continued(ScenarioView { position: end, waiting: false, env: next, ..known }) {
            lemma_push(v.statements, v.env, all, record, next);
            let behind = lemma_conditions_pass(
                v.statements,
                v.env,
                all,
                record.push(next),
                w.position + 1,
            );
            lemma_continues(
                v,
                all,
                ScenarioView { position: end, waiting: false, env: next, ..known },
                behind,
            )
        } else {
            assert(resumed(w, reply, expired) == awaited(known, expired));
            assert(known.statements[known.position] == s);
            record
        }
    }
}

proof fn lemma_plays(v: ScenarioView, answers: Seq<(Tree, bool)>) -> (record: Seq<Tree>)
    requires
        v.env is Object,
        v.position == 0,
        driven(v, answers),
    ensures
        follows(v, answers, played(v, answers).0, played(v, answers).1, record),
    decreases answers.len(),
{
    if answers.len() == 0 {
        lemma_continues(v, answers, v, seq![v.env])
    } else {
        let before = lemma_plays(v, answers.drop_last());
        assert(answers.drop_last().push(answers.last()) =~= answers);
        lemma_resumes(
            v,
            answers.drop_last(),
            played(v, answers.drop_last()).0,
            played(v, answers.drop_last()).1,
            before,
            answers.last().0,
            answers.last().1,
        )
    }
}

/// Every finished scenario has a record, made of the answers that it was given, that ends in what
/// it knows.
pub proof fn finished_scenarios_are_recorded(
    lines: Seq<Line>,
    known: Tree,
    answers: Seq<(Tree, bool)>,
) -> (record: Seq<Tree>)
    requires
        known is Object,
        finished(lines, known, answers),
    ensures
        passed(lines, known, answers, record),
        record.last() == played(opening(lines, known), answers).0.env,
{
    lemma_plays(opening(lines, known), answers)
}

} // verus!
