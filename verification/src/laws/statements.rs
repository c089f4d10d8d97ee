//! What the statements of a scenario do.

use vstd::prelude::*;

use crate::json::{at, found, items, placed, segments, takes, with, Tree};
use crate::scenario::{
    continued, effect_of, parts, plain_effect, resolved_word, resolved_words, resumed, spoken,
    until_end, until_holds, EffectView, ScenarioView, StatementView, StepView,
};
use crate::text::decimal;

verus! {

proof fn lemma_ops()
    ensures
        "do"@.len() == 2 && "do"@[0] == 'd',
        "wait"@.len() == 4 && "wait"@[0] == 'w',
        "watch"@.len() == 5 && "watch"@[0] == 'w',
        "poll"@.len() == 4 && "poll"@[0] == 'p' && "poll"@[1] == 'o',
        "success"@.len() == 7 && "success"@[0] == 's',
        "refused"@.len() == 7 && "refused"@[0] == 'r',
        "put"@.len() == 3 && "put"@[0] == 'p',
        "say"@.len() == 3 && "say"@[0] == 's',
        "tell"@.len() == 4 && "tell"@[0] == 't' && "tell"@[2] == 'l',
        "mark"@.len() == 4 && "mark"@[0] == 'm' && "mark"@[2] == 'r',
        "gather"@.len() == 6 && "gather"@[0] == 'g',
        "add"@.len() == 3 && "add"@[0] == 'a',
        "glue"@.len() == 4 && "glue"@[0] == 'g',
        "void"@.len() == 4 && "void"@[0] == 'v',
        "names"@.len() == 5 && "names"@[0] == 'n',
        "size"@.len() == 4 && "size"@[0] == 's',
        "error"@.len() == 5 && "error"@[0] == 'e',
        "typed"@.len() == 5 && "typed"@[0] == 't',
        "keep"@.len() == 4 && "keep"@[0] == 'k',
        "text"@.len() == 4 && "text"@[0] == 't' && "text"@[2] == 'x',
        "number"@.len() == 6 && "number"@[0] == 'n',
        "pick"@.len() == 4 && "pick"@[0] == 'p' && "pick"@[1] == 'i',
        "first"@.len() == 5 && "first"@[0] == 'f',
        "need"@.len() == 4 && "need"@[0] == 'n',
        "ok"@.len() == 2 && "ok"@[0] == 'o',
        "make"@.len() == 4 && "make"@[0] == 'm' && "make"@[2] == 'k',
        "--"@.len() == 2 && "--"@[0] == '-',
        "until"@.len() == 5 && "until"@[0] == 'u',
{
    reveal_strlit("do");
    reveal_strlit("wait");
    reveal_strlit("watch");
    reveal_strlit("poll");
    reveal_strlit("success");
    reveal_strlit("refused");
    reveal_strlit("put");
    reveal_strlit("say");
    reveal_strlit("tell");
    reveal_strlit("mark");
    reveal_strlit("gather");
    reveal_strlit("add");
    reveal_strlit("glue");
    reveal_strlit("void");
    reveal_strlit("names");
    reveal_strlit("size");
    reveal_strlit("error");
    reveal_strlit("typed");
    reveal_strlit("keep");
    reveal_strlit("text");
    reveal_strlit("number");
    reveal_strlit("pick");
    reveal_strlit("first");
    reveal_strlit("need");
    reveal_strlit("ok");
    reveal_strlit("make");
    reveal_strlit("--");
    reveal_strlit("until");
}

/// A word is spoken as it is, unless it stands for a value: then the value's text or digits are.
pub proof fn words_stand_for_values(word: Seq<char>, env: Tree)
    ensures
        word.len() == 0 || word[0] != '$' ==> resolved_word(word, env) == Some(word),
        word.len() > 0 && word[0] == '$' ==> match at(env, word.skip(1)) {
            Tree::Text(t) => resolved_word(word, env) == Some(t),
            Tree::Integer(n) => 0 <= n <= u64::MAX ==> resolved_word(word, env) == Some(
                decimal(n as nat),
            ),
            _ => resolved_word(word, env) is None,
        },
{
}

proof fn lemma_resolved(words: Seq<Seq<char>>, env: Tree, i: int)
    requires
        0 <= i < words.len(),
    ensures
        resolved_words(words, env) matches Some(w) ==> w.len() == words.len() && resolved_word(
            words[i],
            env,
        ) == Some(w[i]),
        resolved_word(words[i], env) is None ==> resolved_words(words, env) is None,
    decreases words.len(),
{
    if i < words.len() - 1 {
        lemma_resolved(words.drop_last(), env, i);
    } else if resolved_words(words, env) is Some {
        lemma_resolved_len(words.drop_last(), env);
    }
}

proof fn lemma_resolved_len(words: Seq<Seq<char>>, env: Tree)
    ensures
        resolved_words(words, env) matches Some(w) ==> w.len() == words.len(),
    decreases words.len(),
{
    if words.len() > 0 {
        lemma_resolved_len(words.drop_last(), env);
    }
}

/// An action is handed out with every word resolved, once or until its conditions hold; where a
/// word has no value, the scenario fails.
pub proof fn actions_are_handed_out(s: StatementView, env: Tree, i: int)
    requires
        s.op == "do"@ || s.op == "wait"@ || s.op == "watch"@ || s.op == "poll"@,
        0 <= i < parts(s.rest).len(),
    ensures
        effect_of(s, env) is Ask ==> s.op == "do"@,
        effect_of(s, env) is Await ==> s.op != "do"@,
        effect_of(s, env) matches EffectView::Ask { words } ==> words.len() == parts(s.rest).len()
            && resolved_word(parts(s.rest)[i], env) == Some(words[i]),
        effect_of(s, env) matches EffectView::Await { words } ==> words.len() == parts(
            s.rest,
        ).len() && resolved_word(parts(s.rest)[i], env) == Some(words[i]),
        resolved_word(parts(s.rest)[i], env) is None ==> effect_of(s, env) == (EffectView::Fail {
            message: "scenario value is absent"@,
        }),
        !(effect_of(s, env) is Next),
{
    lemma_ops();
    reveal(effect_of);
    reveal(plain_effect);
    lemma_resolved(parts(s.rest), env, i);
}

/// A refusal is expected exactly where the command did not end with code zero.
pub proof fn refusals_are_expected(s: StatementView, env: Tree)
    requires
        s.op == "refused"@,
    ensures
        at(at(env, "reply"@), "exit"@) == Tree::Integer(0) ==> effect_of(s, env) == (
        EffectView::Fail { message: spoken(s.message, env) }),
        at(at(env, "reply"@), "exit"@) != Tree::Integer(0) ==> effect_of(s, env) == (
        EffectView::Next { env }),
{
    lemma_ops();
    reveal(effect_of);
    reveal(plain_effect);
}

/// A success is taken only from a command that ended with code zero.
pub proof fn successes_end_with_zero(s: StatementView, env: Tree)
    requires
        s.op == "success"@,
    ensures
        at(at(env, "reply"@), "exit"@) != Tree::Integer(0) ==> effect_of(s, env) is Fail,
{
    lemma_ops();
    reveal(effect_of);
    reveal(plain_effect);
}

/// A value is kept, read or required under a name, and an answer's value is taken where it has no
/// error.
pub proof fn values_are_kept(s: StatementView, env: Tree)
    ensures
        s.op == "keep"@ ==> effect_of(s, env) == (EffectView::Next {
            env: with(env, s.subject, at(env, s.rest)),
        }),
        s.op == "text"@ ==> (found(env, s.rest) matches Some(Tree::Text(t)) ==> effect_of(s, env)
            == (EffectView::Next { env: with(env, s.subject, Tree::Text(t)) })),
        s.op == "text"@ && !(found(env, s.rest) matches Some(Tree::Text(_))) ==> effect_of(s, env)
            is Fail,
        s.op == "number"@ ==> (found(env, s.rest) matches Some(Tree::Integer(n)) ==> (0 <= n
            <= u64::MAX ==> effect_of(s, env) == (EffectView::Next {
            env: with(env, s.subject, Tree::Integer(n)),
        }))),
        s.op == "number"@ && !(found(env, s.rest) matches Some(Tree::Integer(_))) ==> effect_of(
            s,
            env,
        ) is Fail,
        s.op == "need"@ ==> (at(env, s.rest) matches Tree::Text(t) ==> effect_of(s, env) == (
        EffectView::Next { env: with(env, s.subject, Tree::Text(t)) })),
        s.op == "need"@ && !(at(env, s.rest) is Text) ==> effect_of(s, env) == (EffectView::Fail {
            message: spoken(s.message, env),
        }),
        s.op == "ok"@ ==> (at(env, "reply,error"@) matches Tree::Text(t) ==> effect_of(s, env) == (
        EffectView::Fail { message: t })),
        s.op == "ok"@ && !(at(env, "reply,error"@) is Text) ==> effect_of(s, env) == (
        EffectView::Next { env: with(env, s.subject, at(env, "reply,value"@)) }),
{
    lemma_ops();
    if s.op == "keep"@ || s.op == "text"@ || s.op == "number"@ || s.op == "need"@ || s.op == "ok"@ {
        reveal(effect_of);
        reveal(plain_effect);
        reveal(found);
    }
}

/// A value is placed where its path can be taken: one that is known, a text, a count, the known
/// values of some paths, some words, or a list with one more value.
pub proof fn values_are_placed(s: StatementView, env: Tree)
    requires
        s.subject.len() > 0,
        takes(env, segments(s.subject)),
    ensures
        s.op == "put"@ ==> effect_of(s, env) == (EffectView::Next {
            env: placed(env, segments(s.subject), at(env, s.rest)),
        }),
        s.op == "say"@ ==> effect_of(s, env) == (EffectView::Next {
            env: placed(env, segments(s.subject), Tree::Text(s.rest)),
        }),
        s.op == "mark"@ && s.rest == "null"@ ==> effect_of(s, env) == (EffectView::Next {
            env: placed(env, segments(s.subject), Tree::Null),
        }),
        s.op == "void"@ ==> effect_of(s, env) == (EffectView::Next {
            env: placed(env, segments(s.subject), Tree::Object(map![])),
        }),
        s.op == "size"@ ==> effect_of(s, env) == (EffectView::Next {
            env: placed(
                env,
                segments(s.subject),
                Tree::Integer(items(env, s.rest).len() as int),
            ),
        }),
        s.op == "gather"@ ==> effect_of(s, env) == (EffectView::Next {
            env: placed(
                env,
                segments(s.subject),
                Tree::List(parts(s.rest).map_values(|p: Seq<char>| at(env, p))),
            ),
        }),
        s.op == "names"@ ==> effect_of(s, env) == (EffectView::Next {
            env: placed(
                env,
                segments(s.subject),
                Tree::List(parts(s.rest).map_values(|t: Seq<char>| Tree::Text(t))),
            ),
        }),
        s.op == "add"@ ==> (at(env, s.subject) matches Tree::List(l) ==> effect_of(s, env) == (
        EffectView::Next {
            env: placed(env, segments(s.subject), Tree::List(l.push(at(env, s.rest)))),
        })),
{
    lemma_ops();
    reveal_strlit("true");
    reveal_strlit("false");
    reveal_strlit("null");
    assert("true"@.len() == 4 && "false"@.len() == 5 && "null"@.len() == 4 && "true"@[0] == 't'
        && "null"@[0] == 'n');
    if s.op == "put"@ || s.op == "say"@ || s.op == "mark"@ || s.op == "void"@ || s.op == "size"@
        || s.op == "gather"@ || s.op == "names"@ || s.op == "add"@ {
        reveal(effect_of);
        reveal(plain_effect);
    }
}

/// A wait that was answered with an error fails with it; one whose conditions hold goes on behind
/// them with the answer's value; any other is asked again until the deadline, and fails then.
pub proof fn probes_go_on_once_they_hold(v: ScenarioView, reply: Tree, expired: bool)
    requires
        v.waiting,
        0 <= v.position < v.statements.len(),
        v.statements[v.position].op == "poll"@,
        v.env is Object,
    ensures
        ({
            let s = v.statements[v.position];
            let known = with(v.env, "reply"@, reply);
            let next = with(known, s.subject, at(reply, "value"@));
            let words = resolved_words(parts(s.rest), known);
            let (after, step) = resumed(v, reply, expired);
            &&& words is Some && at(reply, "error"@) is Text ==> step == (StepView::Failed {
                message: at(reply, "error"@)->Text_0,
            })
            &&& words is Some && !(at(reply, "error"@) is Text) && until_holds(
                v.statements,
                v.position + 1,
                next,
            ) ==> (after, step) == continued(
                ScenarioView {
                    statements: v.statements,
                    position: until_end(v.statements, v.position + 1),
                    waiting: false,
                    env: next,
                },
            )
            &&& words is Some && !(at(reply, "error"@) is Text) && !until_holds(
                v.statements,
                v.position + 1,
                next,
            ) ==> if expired {
                step == (StepView::Failed { message: spoken(s.message, known) })
            } else {
                step == (StepView::Perform { words: words->Some_0, again: true }) && after.waiting
                    && after.position == v.position
            }
        }),
{
    lemma_ops();
    crate::scenario::lemma_reply(v.env, reply);
}

/// A watch that stalls or is answered with an error fails; one whose conditions hold goes on; one
/// of a run that ended otherwise, or whose deadline passed, fails; any other is asked again.
pub proof fn watches_end_with_the_run(v: ScenarioView, reply: Tree, expired: bool)
    requires
        v.waiting,
        0 <= v.position < v.statements.len(),
        v.statements[v.position].op == "watch"@,
        v.env is Object,
        resolved_words(
            parts(v.statements[v.position].rest),
            with(v.env, "reply"@, reply),
        ) is Some,
    ensures
        ({
            let s = v.statements[v.position];
            let known = with(v.env, "reply"@, reply);
            let next = with(known, s.subject, at(reply, "value"@));
            let holds = until_holds(v.statements, v.position + 1, next);
            let ended = at(reply, "value,lifecycle"@) == Tree::Text("terminal"@);
            let (after, step) = resumed(v, reply, expired);
            &&& at(reply, "stalled"@) == Tree::Bool(true) || at(reply, "error"@) is Text ==> step
                is Failed
            &&& at(reply, "stalled"@) != Tree::Bool(true) && !(at(reply, "error"@) is Text)
                && holds ==> (after, step) == continued(
                ScenarioView {
                    statements: v.statements,
                    position: until_end(v.statements, v.position + 1),
                    waiting: false,
                    env: next,
                },
            )
            &&& at(reply, "stalled"@) != Tree::Bool(true) && !(at(reply, "error"@) is Text)
                && !holds ==> if ended || expired {
                step is Failed
            } else {
                step is Perform && after.waiting && after.position == v.position
            }
        }),
{
    lemma_ops();
    crate::scenario::lemma_reply(v.env, reply);
}

} // verus!
