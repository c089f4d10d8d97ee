//! What each statement of a finished scenario says of the answers that it was given.

use vstd::prelude::*;

use crate::application::line_document;
use crate::harness::typed_problem;
use crate::json::{
    at, element_with, found, items, key_count, keys_are_found, lemma_single_segment, paths_compose,
    placed, placed_is_found, segments, takes, with, Tree,
};
use crate::record::{answered, crossed, finished, passed, played};
use crate::scenario::{
    all_ascend, effect_of, element_meets, gathered, holds, holds_from, judged, lemma_reply,
    line_statement, listed_document, made_by, next_mark, number_of, opening, parts, plain_effect,
    reply_diagnostic, reply_output, script_statements, spoken_words, tally, together, truth,
    truth_of, until_end, until_holds, until_met, value_of, written_documents_run, EffectView, Line,
    StatementView,
};
use crate::text::{
    joined_with, lemma_pieces_shift, lemma_position, occurs, position, split_at_char, trimmed,
};

verus! {

/// The value of the answer to the action at a place of a record.
pub open spec fn said(record: Seq<Tree>, i: int) -> Tree {
    at(at(record[i + 1], "reply"@), "value"@)
}

/// The document of a client's answer.
pub open spec fn document_in(reply: Tree) -> Tree {
    match line_document(reply_output(reply).stdout, reply_output(reply).document) {
        Ok(t) => t,
        Err(_) => Tree::Null,
    }
}

/// The document of the client's answer to the command at a place of a record.
pub open spec fn told(record: Seq<Tree>, i: int) -> Tree {
    document_in(at(record[i + 1], "reply"@))
}

/// Whether no element of a list has a value at a field.
pub open spec fn no_element(l: Seq<Tree>, field: Seq<char>, value: Tree) -> bool {
    forall|i: int| 0 <= i < l.len() ==> at(#[trigger] l[i], field) != value
}

/// Whether some element of a list has a value at a field.
pub open spec fn some_element(l: Seq<Tree>, field: Seq<char>, value: Tree) -> bool {
    exists|i: int| 0 <= i < l.len() && at(#[trigger] l[i], field) == value
}

/// Whether every element of a list has a value at a field.
pub open spec fn every_element(l: Seq<Tree>, field: Seq<char>, value: Tree) -> bool {
    forall|i: int| 0 <= i < l.len() ==> at(#[trigger] l[i], field) == value
}

/// Whether a number is one above another.
pub open spec fn follows_by_one(t: Tree, other: Tree) -> bool {
    match (t, other) {
        (Tree::Integer(x), Tree::Integer(y)) => x == y + 1,
        _ => false,
    }
}

/// Whether a value is a positive number.
pub open spec fn is_positive(t: Tree) -> bool {
    t matches Tree::Integer(n) && n > 0
}

/// Whether a value is an unsigned number below a bound.
pub open spec fn is_below(t: Tree, bound: int) -> bool {
    t matches Tree::Integer(n) && 0 <= n < bound
}

/// Whether two values are numbers, of which the first is at least the second.
pub open spec fn is_at_least(t: Tree, other: Tree) -> bool {
    match (t, other) {
        (Tree::Integer(x), Tree::Integer(y)) => x >= y,
        _ => false,
    }
}

/// Whether two values are numbers, of which the first is above the second.
pub open spec fn is_above(t: Tree, other: Tree) -> bool {
    match (t, other) {
        (Tree::Integer(x), Tree::Integer(y)) => x > y,
        _ => false,
    }
}

/// How many elements of a list have a list with elements at a field.
pub open spec fn elements_filled(l: Seq<Tree>, field: Seq<char>) -> nat
    decreases l.len(),
{
    if l.len() == 0 {
        0
    } else {
        elements_filled(l.drop_last(), field) + if items_of(at(l.last(), field)).len() > 0 {
            1nat
        } else {
            0nat
        }
    }
}

/// How many elements of a list have a text at a field that contains a part.
pub open spec fn elements_saying(l: Seq<Tree>, field: Seq<char>, part: Seq<char>) -> nat
    decreases l.len(),
{
    if l.len() == 0 {
        0
    } else {
        elements_saying(l.drop_last(), field, part) + if text_has(at(l.last(), field), part) {
            1nat
        } else {
            0nat
        }
    }
}

/// How many elements of a list have a value at a field.
pub open spec fn elements_with(l: Seq<Tree>, field: Seq<char>, value: Tree) -> nat
    decreases l.len(),
{
    if l.len() == 0 {
        0
    } else {
        elements_with(l.drop_last(), field, value) + if at(l.last(), field) == value {
            1nat
        } else {
            0nat
        }
    }
}

/// What stands behind a comma of a path is read from what stands before it.
pub proof fn lemma_under(env: Tree, key: Seq<char>, rest: Seq<char>, path: Seq<char>)
    requires
        key.len() > 0,
        forall|i: int| 0 <= i < key.len() ==> key[i] != ',',
        rest.len() > 0,
        path == key + seq![','] + rest,
    ensures
        at(env, path) == at(at(env, key), rest),
        segments(path) == seq![key] + segments(rest),
{
    reveal(found);
    keys_are_found(env, key);
    paths_compose(env, key, rest);
    lemma_position(path, ',', 0);
    let p = position(path, ',', 0);
    assert(path[key.len() as int] == ',');
    assert(p == key.len()) by {
        if p < key.len() {
            assert(path[p] == key[p]);
        }
    }
    assert(path.subrange(0, key.len() as int) =~= key);
    let head = key + seq![','];
    assert(head + rest =~= path);
    lemma_pieces_shift(head, rest, ',', 0);
    assert(segments(path) =~= seq![key] + segments(rest));
    assert(segments(rest).len() > 0) by {
        lemma_position(rest, ',', 0);
    }
}

/// The words of a text of three.
pub proof fn lemma_three_words(a: Seq<char>, b: Seq<char>, c: Seq<char>, text: Seq<char>)
    requires
        a.len() > 0,
        forall|i: int| 0 <= i < a.len() ==> a[i] != ' ',
        forall|i: int| 0 <= i < b.len() ==> b[i] != ' ',
        forall|i: int| 0 <= i < c.len() ==> c[i] != ' ',
        text == a + seq![' '] + b + seq![' '] + c,
    ensures
        parts(text) == seq![a, b, c],
{
    let tail = b + seq![' '] + c;
    assert(text =~= a + seq![' '] + tail);
    lemma_split_first(a, tail, text);
    lemma_split_first(b, c, tail);
    lemma_position(c, ' ', 0);
    assert(position(c, ' ', 0) == c.len());
    assert(c.subrange(0, c.len() as int) =~= c);
    assert(split_at_char(c, ' ') =~= seq![c]);
    assert(parts(text) =~= seq![a, b, c]);
}

proof fn lemma_split_first(a: Seq<char>, rest: Seq<char>, text: Seq<char>)
    requires
        forall|i: int| 0 <= i < a.len() ==> a[i] != ' ',
        text == a + seq![' '] + rest,
    ensures
        split_at_char(text, ' ') == seq![a] + split_at_char(rest, ' '),
{
    lemma_position(text, ' ', 0);
    let p = position(text, ' ', 0);
    assert(text[a.len() as int] == ' ');
    assert(p == a.len()) by {
        if p < a.len() {
            assert(text[p] == a[p]);
        }
    }
    assert(text.subrange(0, a.len() as int) =~= a);
    let head = a + seq![' '];
    assert(head + rest =~= text);
    lemma_pieces_shift(head, rest, ' ', 0);
    assert(split_at_char(text, ' ') =~= seq![a] + split_at_char(rest, ' '));
}

/// Whether a path leads to a key of an object or below it.
pub open spec fn touches(path: Seq<char>, key: Seq<char>) -> bool {
    key.is_prefix_of(path) && (path.len() == key.len() || path[key.len() as int] == ',')
}

/// A path that differs from a key at some place, or goes on without a comma, leads elsewhere.
pub proof fn lemma_apart(path: Seq<char>, key: Seq<char>, d: int)
    requires
        0 <= d <= key.len(),
        d < key.len() ==> d >= path.len() || path[d] != key[d],
        d == key.len() ==> d < path.len() && path[d] != ',',
    ensures
        !touches(path, key),
{
    if key.is_prefix_of(path) && d < key.len() {
        assert(path.subrange(0, key.len() as int)[d] == path[d]);
    }
}

/// A place of a record.
pub open spec fn place(
    lines: Seq<Line>,
    known: Tree,
    answers: Seq<(Tree, bool)>,
    record: Seq<Tree>,
    m: int,
) -> bool {
    &&& passed(lines, known, answers, record)
    &&& 0 <= m < lines.len()
}

proof fn lemma_place(
    lines: Seq<Line>,
    known: Tree,
    answers: Seq<(Tree, bool)>,
    record: Seq<Tree>,
    m: int,
)
    requires
        place(lines, known, answers, record, m),
    ensures
        crossed(script_statements(lines), answers, m, record[m], record[m + 1]),
        script_statements(lines)[m] == line_statement(lines[m]),
        record[m] is Object,
        record[m + 1] is Object,
{
    assert(crossed(script_statements(lines), answers, m, record[m], record[m + 1]));
}

/// A statement changes nothing under a key that it is not about; only an action has a reply.
pub proof fn stays(
    lines: Seq<Line>,
    known: Tree,
    answers: Seq<(Tree, bool)>,
    record: Seq<Tree>,
    m: int,
    key: Seq<char>,
)
    requires
        place(lines, known, answers, record, m),
        key.len() > 0,
        forall|i: int| 0 <= i < key.len() ==> key[i] != ',',
        !touches(lines[m].1@, key),
        key != "reply"@,
    ensures
        at(record[m + 1], key) == at(record[m], key),
{
    lemma_place(lines, known, answers, record, m);
    reveal(effect_of);
    reveal(plain_effect);
    keys_are_found(record[m], key);
    keys_are_found(record[m + 1], key);
    let subject = lines[m].1@;
    assert(subject != key) by {
        assert(key.subrange(0, key.len() as int) =~= key);
    }
    if subject.len() > 0 {
        lemma_position(subject, ',', 0);
        let p = position(subject, ',', 0);
        assert(segments(subject)[0] == subject.subrange(0, p));
        if segments(subject)[0] == key {
            assert(subject.subrange(0, key.len() as int) =~= key);
            assert(touches(subject, key));
        }
    }
}

/// What an answer without an error is kept as.
pub proof fn was_said(
    lines: Seq<Line>,
    known: Tree,
    answers: Seq<(Tree, bool)>,
    record: Seq<Tree>,
    m: int,
)
    requires
        place(lines, known, answers, record, m),
        m > 0,
        lines[m].0@ == "ok"@,
        lines[m].1@.len() > 0,
        forall|i: int| 0 <= i < lines[m].1@.len() ==> lines[m].1@[i] != ',',
    ensures
        at(record[m + 1], lines[m].1@) == said(record, m - 1),
        !(at(at(record[m], "reply"@), "error"@) is Text),
{
    lemma_place(lines, known, answers, record, m);
    reveal(effect_of);
    reveal(plain_effect);
    lemma_effects(lines[m].0@);
    let key = lines[m].1@;
    keys_are_found(record[m + 1], key);
    reveal_strlit("reply");
    reveal_strlit("value");
    reveal_strlit("reply,value");
    reveal_strlit("reply,error");
    reveal_strlit("error");
    assert("reply,value"@ =~= "reply"@ + seq![','] + "value"@);
    assert("reply,error"@ =~= "reply"@ + seq![','] + "error"@);
    lemma_under(record[m], "reply"@, "value"@, "reply,value"@);
    lemma_under(record[m], "reply"@, "error"@, "reply,error"@);
}

/// What a client's successful answer is kept as.
pub proof fn was_told(
    lines: Seq<Line>,
    known: Tree,
    answers: Seq<(Tree, bool)>,
    record: Seq<Tree>,
    m: int,
)
    requires
        place(lines, known, answers, record, m),
        m > 0,
        lines[m].0@ == "success"@,
        lines[m].1@.len() > 0,
        forall|i: int| 0 <= i < lines[m].1@.len() ==> lines[m].1@[i] != ',',
    ensures
        at(record[m + 1], lines[m].1@) == told(record, m - 1),
        reply_output(at(record[m], "reply"@)).code == Some(0i32),
{
    lemma_place(lines, known, answers, record, m);
    reveal(effect_of);
    reveal(plain_effect);
    lemma_effects(lines[m].0@);
    keys_are_found(record[m + 1], lines[m].1@);
}

/// What the last answer to a repeated action is kept as.
pub proof fn was_awaited(
    lines: Seq<Line>,
    known: Tree,
    answers: Seq<(Tree, bool)>,
    record: Seq<Tree>,
    m: int,
)
    requires
        place(lines, known, answers, record, m),
        lines[m].0@ == "wait"@ || lines[m].0@ == "watch"@ || lines[m].0@ == "poll"@,
        lines[m].1@.len() > 0,
        forall|i: int| 0 <= i < lines[m].1@.len() ==> lines[m].1@[i] != ',',
        lines[m].1@ != "reply"@,
    ensures
        at(record[m + 1], lines[m].1@) == (if lines[m].0@ == "wait"@ {
            told(record, m)
        } else {
            said(record, m)
        }),
        until_holds(script_statements(lines), m + 1, record[m + 1]),
{
    lemma_place(lines, known, answers, record, m);
    reveal(effect_of);
    reveal(plain_effect);
    reveal_strlit("wait");
    reveal_strlit("watch");
    reveal_strlit("poll");
    reveal_strlit("until");
    reveal_strlit("--");
    reveal_strlit("do");
    reveal_strlit("make");
    assert("make"@.len() == 4);
    assert("make"@[0] != "wait"@[0]);
    assert("make"@[0] != "poll"@[0]);
    assert("wait"@.len() == 4);
    assert("watch"@.len() == 5);
    assert("poll"@.len() == 4);
    assert("--"@.len() == 2);
    assert("do"@.len() == 2);
    assert("until"@.len() == 5);
    assert("until"@[0] != "watch"@[0]);
    assert("wait"@[0] != "poll"@[0]);
    let s = line_statement(lines[m]);
    let k = choose|k: int|
        0 <= k < answers.len() && record[m + 1] == with(
            with(record[m], "reply"@, #[trigger] answers[k].0),
            s.subject,
            answered(s.op, answers[k].0),
        );
    let reply = answers[k].0;
    lemma_reply(record[m], reply);
    let middle = with(record[m], "reply"@, reply);
    keys_are_found(record[m + 1], lines[m].1@);
    reveal_strlit("reply");
    assert(forall|i: int| 0 <= i < "reply"@.len() ==> "reply"@[i] != ',');
    keys_are_found(record[m + 1], "reply"@);
    keys_are_found(middle, "reply"@);
    assert(at(record[m + 1], "reply"@) == reply);
}

/// A value is kept under a name; a required text or number is kept as it is.
pub proof fn was_kept(
    lines: Seq<Line>,
    known: Tree,
    answers: Seq<(Tree, bool)>,
    record: Seq<Tree>,
    m: int,
)
    requires
        place(lines, known, answers, record, m),
        lines[m].0@ == "keep"@ || lines[m].0@ == "text"@ || lines[m].0@ == "need"@ || lines[m].0@
            == "number"@,
        lines[m].1@.len() > 0,
        forall|i: int| 0 <= i < lines[m].1@.len() ==> lines[m].1@[i] != ',',
    ensures
        at(record[m + 1], lines[m].1@) == at(record[m], lines[m].2@),
{
    lemma_place(lines, known, answers, record, m);
    reveal(effect_of);
    reveal(plain_effect);
    lemma_effects(lines[m].0@);
    keys_are_found(record[m + 1], lines[m].1@);
}

/// A value stands where it was placed.
pub proof fn was_marked(
    lines: Seq<Line>,
    known: Tree,
    answers: Seq<(Tree, bool)>,
    record: Seq<Tree>,
    m: int,
    flag: bool,
)
    requires
        place(lines, known, answers, record, m),
        lines[m].0@ == "mark"@,
        lines[m].2@ == (if flag {
            "true"@
        } else {
            "false"@
        }),
    ensures
        at(record[m + 1], lines[m].1@) == Tree::Bool(flag),
        record[m + 1] == placed(record[m], segments(lines[m].1@), Tree::Bool(flag)),
        takes(record[m], segments(lines[m].1@)),
{
    lemma_place(lines, known, answers, record, m);
    reveal(effect_of);
    reveal(plain_effect);
    lemma_effects(lines[m].0@);
    reveal_strlit("true");
    reveal_strlit("false");
    assert("true"@.len() == 4);
    assert("false"@.len() == 5);
    reveal(found);
    placed_is_found(record[m], segments(lines[m].1@), Tree::Bool(flag));
}

/// A checked text was the required one.
pub proof fn saw_is(
    lines: Seq<Line>,
    known: Tree,
    answers: Seq<(Tree, bool)>,
    record: Seq<Tree>,
    m: int,
)
    requires
        place(lines, known, answers, record, m),
        lines[m].0@ == "is"@,
    ensures
        at(record[m], lines[m].1@) == Tree::Text(lines[m].2@),
        record[m + 1] == record[m],
{
    lemma_place(lines, known, answers, record, m);
    reveal(effect_of);
    reveal(plain_effect);
    reveal(truth_of);
    lemma_checks(lines[m].0@);
    lemma_plain(lines[m].0@);
    lemma_truths(lines[m].0@);
}

/// A checked text was not the excluded one.
pub proof fn saw_isnot(
    lines: Seq<Line>,
    known: Tree,
    answers: Seq<(Tree, bool)>,
    record: Seq<Tree>,
    m: int,
)
    requires
        place(lines, known, answers, record, m),
        lines[m].0@ == "isnot"@,
    ensures
        at(record[m], lines[m].1@) != Tree::Text(lines[m].2@),
        record[m + 1] == record[m],
{
    lemma_place(lines, known, answers, record, m);
    reveal(effect_of);
    reveal(plain_effect);
    reveal(truth_of);
    lemma_checks(lines[m].0@);
    lemma_plain(lines[m].0@);
    lemma_truths(lines[m].0@);
}

/// A checked flag was set.
pub proof fn saw_true(
    lines: Seq<Line>,
    known: Tree,
    answers: Seq<(Tree, bool)>,
    record: Seq<Tree>,
    m: int,
)
    requires
        place(lines, known, answers, record, m),
        lines[m].0@ == "true"@,
    ensures
        at(record[m], lines[m].1@) == Tree::Bool(true),
        record[m + 1] == record[m],
{
    lemma_place(lines, known, answers, record, m);
    reveal(effect_of);
    reveal(plain_effect);
    reveal(truth_of);
    lemma_checks(lines[m].0@);
    lemma_plain(lines[m].0@);
    lemma_truths(lines[m].0@);
}

/// A checked flag was not set.
pub proof fn saw_false(
    lines: Seq<Line>,
    known: Tree,
    answers: Seq<(Tree, bool)>,
    record: Seq<Tree>,
    m: int,
)
    requires
        place(lines, known, answers, record, m),
        lines[m].0@ == "false"@,
    ensures
        at(record[m], lines[m].1@) == Tree::Bool(false),
        record[m + 1] == record[m],
{
    lemma_place(lines, known, answers, record, m);
    reveal(effect_of);
    reveal(plain_effect);
    reveal(truth_of);
    lemma_checks(lines[m].0@);
    lemma_plain(lines[m].0@);
    lemma_truths(lines[m].0@);
}

/// A checked value was absent.
pub proof fn saw_null(
    lines: Seq<Line>,
    known: Tree,
    answers: Seq<(Tree, bool)>,
    record: Seq<Tree>,
    m: int,
)
    requires
        place(lines, known, answers, record, m),
        lines[m].0@ == "null"@,
    ensures
        at(record[m], lines[m].1@) == Tree::Null,
        record[m + 1] == record[m],
{
    lemma_place(lines, known, answers, record, m);
    reveal(effect_of);
    reveal(plain_effect);
    reveal(truth_of);
    lemma_checks(lines[m].0@);
    lemma_plain(lines[m].0@);
    lemma_truths(lines[m].0@);
}

/// A checked value was present.
pub proof fn saw_some(
    lines: Seq<Line>,
    known: Tree,
    answers: Seq<(Tree, bool)>,
    record: Seq<Tree>,
    m: int,
)
    requires
        place(lines, known, answers, record, m),
        lines[m].0@ == "some"@,
    ensures
        at(record[m], lines[m].1@) != Tree::Null,
        record[m + 1] == record[m],
{
    lemma_place(lines, known, answers, record, m);
    reveal(effect_of);
    reveal(plain_effect);
    reveal(truth_of);
    lemma_checks(lines[m].0@);
    lemma_plain(lines[m].0@);
    lemma_truths(lines[m].0@);
}

/// A checked list had no elements.
pub proof fn saw_empty(
    lines: Seq<Line>,
    known: Tree,
    answers: Seq<(Tree, bool)>,
    record: Seq<Tree>,
    m: int,
)
    requires
        place(lines, known, answers, record, m),
        lines[m].0@ == "empty"@,
    ensures
        at(record[m], lines[m].1@) matches Tree::List(l) && l.len() == 0,
        record[m + 1] == record[m],
{
    lemma_place(lines, known, answers, record, m);
    reveal(effect_of);
    reveal(plain_effect);
    reveal(truth_of);
    lemma_checks(lines[m].0@);
    lemma_plain(lines[m].0@);
    lemma_truths(lines[m].0@);
}

/// A checked list had elements.
pub proof fn saw_nonempty(
    lines: Seq<Line>,
    known: Tree,
    answers: Seq<(Tree, bool)>,
    record: Seq<Tree>,
    m: int,
)
    requires
        place(lines, known, answers, record, m),
        lines[m].0@ == "nonempty"@,
    ensures
        at(record[m], lines[m].1@) matches Tree::List(l) && l.len() > 0,
        record[m + 1] == record[m],
{
    lemma_place(lines, known, answers, record, m);
    reveal(effect_of);
    reveal(plain_effect);
    reveal(truth_of);
    lemma_checks(lines[m].0@);
    lemma_plain(lines[m].0@);
    lemma_truths(lines[m].0@);
}

/// A checked number was the required one.
pub proof fn saw_num(
    lines: Seq<Line>,
    known: Tree,
    answers: Seq<(Tree, bool)>,
    record: Seq<Tree>,
    m: int,
    n: u64,
)
    requires
        place(lines, known, answers, record, m),
        lines[m].0@ == "num"@,
        number_of(lines[m].2@) == Some(n),
    ensures
        at(record[m], lines[m].1@) == Tree::Integer(n as int),
        record[m + 1] == record[m],
{
    lemma_place(lines, known, answers, record, m);
    reveal(effect_of);
    reveal(plain_effect);
    reveal(truth_of);
    lemma_checks(lines[m].0@);
    lemma_plain(lines[m].0@);
    lemma_truths(lines[m].0@);
}

/// A checked list had the required length.
pub proof fn saw_len(
    lines: Seq<Line>,
    known: Tree,
    answers: Seq<(Tree, bool)>,
    record: Seq<Tree>,
    m: int,
    n: u64,
)
    requires
        place(lines, known, answers, record, m),
        lines[m].0@ == "len"@,
        number_of(lines[m].2@) == Some(n),
    ensures
        at(record[m], lines[m].1@) matches Tree::List(l) && l.len() == n,
        record[m + 1] == record[m],
{
    lemma_place(lines, known, answers, record, m);
    reveal(effect_of);
    reveal(plain_effect);
    reveal(truth_of);
    lemma_checks(lines[m].0@);
    lemma_plain(lines[m].0@);
    lemma_truths(lines[m].0@);
}

/// Two checked values agreed.
pub proof fn saw_same(
    lines: Seq<Line>,
    known: Tree,
    answers: Seq<(Tree, bool)>,
    record: Seq<Tree>,
    m: int,
)
    requires
        place(lines, known, answers, record, m),
        lines[m].0@ == "same"@,
    ensures
        at(record[m], lines[m].1@) == at(record[m], lines[m].2@),
        record[m + 1] == record[m],
{
    lemma_place(lines, known, answers, record, m);
    reveal(effect_of);
    reveal(plain_effect);
    reveal(truth_of);
    lemma_checks(lines[m].0@);
    lemma_plain(lines[m].0@);
    lemma_truths(lines[m].0@);
}

/// Two checked values differed.
pub proof fn saw_differs(
    lines: Seq<Line>,
    known: Tree,
    answers: Seq<(Tree, bool)>,
    record: Seq<Tree>,
    m: int,
)
    requires
        place(lines, known, answers, record, m),
        lines[m].0@ == "differs"@,
    ensures
        at(record[m], lines[m].1@) != at(record[m], lines[m].2@),
        record[m + 1] == record[m],
{
    lemma_place(lines, known, answers, record, m);
    reveal(effect_of);
    reveal(plain_effect);
    reveal(truth_of);
    lemma_checks(lines[m].0@);
    lemma_plain(lines[m].0@);
    lemma_truths(lines[m].0@);
}

/// A checked number was one above another.
pub proof fn saw_follows(
    lines: Seq<Line>,
    known: Tree,
    answers: Seq<(Tree, bool)>,
    record: Seq<Tree>,
    m: int,
)
    requires
        place(lines, known, answers, record, m),
        lines[m].0@ == "follows"@,
    ensures
        follows_by_one(at(record[m], lines[m].1@), at(record[m], lines[m].2@)),
        record[m + 1] == record[m],
{
    lemma_place(lines, known, answers, record, m);
    reveal(effect_of);
    reveal(plain_effect);
    reveal(truth_of);
    lemma_checks(lines[m].0@);
    lemma_plain(lines[m].0@);
    lemma_truths(lines[m].0@);
}

/// A checked text contained the required part.
pub proof fn saw_contains(
    lines: Seq<Line>,
    known: Tree,
    answers: Seq<(Tree, bool)>,
    record: Seq<Tree>,
    m: int,
)
    requires
        place(lines, known, answers, record, m),
        lines[m].0@ == "contains"@,
    ensures
        at(record[m], lines[m].1@) matches Tree::Text(s) && occurs(s, lines[m].2@),
        record[m + 1] == record[m],
{
    lemma_place(lines, known, answers, record, m);
    reveal(effect_of);
    reveal(plain_effect);
    reveal(truth_of);
    lemma_checks(lines[m].0@);
    lemma_plain(lines[m].0@);
    lemma_truths(lines[m].0@);
}

/// A checked text did not contain the excluded part.
pub proof fn saw_lacks(
    lines: Seq<Line>,
    known: Tree,
    answers: Seq<(Tree, bool)>,
    record: Seq<Tree>,
    m: int,
)
    requires
        place(lines, known, answers, record, m),
        lines[m].0@ == "lacks"@,
    ensures
        at(record[m], lines[m].1@) matches Tree::Text(s) && !occurs(s, lines[m].2@),
        record[m + 1] == record[m],
{
    lemma_place(lines, known, answers, record, m);
    reveal(effect_of);
    reveal(plain_effect);
    reveal(truth_of);
    lemma_checks(lines[m].0@);
    lemma_plain(lines[m].0@);
    lemma_truths(lines[m].0@);
}

/// A checked number was positive.
pub proof fn saw_positive(
    lines: Seq<Line>,
    known: Tree,
    answers: Seq<(Tree, bool)>,
    record: Seq<Tree>,
    m: int,
)
    requires
        place(lines, known, answers, record, m),
        lines[m].0@ == "positive"@,
    ensures
        is_positive(at(record[m], lines[m].1@)),
        record[m + 1] == record[m],
{
    lemma_place(lines, known, answers, record, m);
    reveal(effect_of);
    reveal(plain_effect);
    reveal(truth_of);
    lemma_checks(lines[m].0@);
    lemma_plain(lines[m].0@);
    lemma_truths(lines[m].0@);
}

/// A checked number was below the bound.
pub proof fn saw_below(
    lines: Seq<Line>,
    known: Tree,
    answers: Seq<(Tree, bool)>,
    record: Seq<Tree>,
    m: int,
    n: u64,
)
    requires
        place(lines, known, answers, record, m),
        lines[m].0@ == "below"@,
        number_of(lines[m].2@) == Some(n),
    ensures
        is_below(at(record[m], lines[m].1@), n as int),
        record[m + 1] == record[m],
{
    lemma_place(lines, known, answers, record, m);
    reveal(effect_of);
    reveal(plain_effect);
    reveal(truth_of);
    lemma_checks(lines[m].0@);
    lemma_plain(lines[m].0@);
    lemma_truths(lines[m].0@);
}

/// A checked object had the required number of entries.
pub proof fn saw_keys(
    lines: Seq<Line>,
    known: Tree,
    answers: Seq<(Tree, bool)>,
    record: Seq<Tree>,
    m: int,
    n: u64,
)
    requires
        place(lines, known, answers, record, m),
        lines[m].0@ == "keys"@,
        number_of(lines[m].2@) == Some(n),
    ensures
        at(record[m], lines[m].1@) is Object && key_count(at(record[m], lines[m].1@)) == n,
        record[m + 1] == record[m],
{
    lemma_place(lines, known, answers, record, m);
    reveal(effect_of);
    reveal(plain_effect);
    reveal(truth_of);
    lemma_checks(lines[m].0@);
    lemma_plain(lines[m].0@);
    lemma_truths(lines[m].0@);
}

/// A checked value was an object.
pub proof fn saw_object(
    lines: Seq<Line>,
    known: Tree,
    answers: Seq<(Tree, bool)>,
    record: Seq<Tree>,
    m: int,
)
    requires
        place(lines, known, answers, record, m),
        lines[m].0@ == "object"@,
    ensures
        at(record[m], lines[m].1@) is Object,
        record[m + 1] == record[m],
{
    lemma_place(lines, known, answers, record, m);
    reveal(effect_of);
    reveal(plain_effect);
    reveal(truth_of);
    lemma_checks(lines[m].0@);
    lemma_plain(lines[m].0@);
    lemma_truths(lines[m].0@);
}

/// A checked number was at least another.
pub proof fn saw_reaches(
    lines: Seq<Line>,
    known: Tree,
    answers: Seq<(Tree, bool)>,
    record: Seq<Tree>,
    m: int,
)
    requires
        place(lines, known, answers, record, m),
        lines[m].0@ == "reaches"@,
    ensures
        is_at_least(at(record[m], lines[m].1@), at(record[m], lines[m].2@)),
        record[m + 1] == record[m],
{
    lemma_place(lines, known, answers, record, m);
    reveal(effect_of);
    reveal(plain_effect);
    reveal(truth_of);
    lemma_checks(lines[m].0@);
    lemma_plain(lines[m].0@);
    lemma_truths(lines[m].0@);
}

/// A checked number was above another.
pub proof fn saw_exceeds(
    lines: Seq<Line>,
    known: Tree,
    answers: Seq<(Tree, bool)>,
    record: Seq<Tree>,
    m: int,
)
    requires
        place(lines, known, answers, record, m),
        lines[m].0@ == "exceeds"@,
    ensures
        is_above(at(record[m], lines[m].1@), at(record[m], lines[m].2@)),
        record[m + 1] == record[m],
{
    lemma_place(lines, known, answers, record, m);
    reveal(effect_of);
    reveal(plain_effect);
    reveal(truth_of);
    lemma_checks(lines[m].0@);
    lemma_plain(lines[m].0@);
    lemma_truths(lines[m].0@);
}

/// The elements of a checked list ascended.
pub proof fn saw_ascending(
    lines: Seq<Line>,
    known: Tree,
    answers: Seq<(Tree, bool)>,
    record: Seq<Tree>,
    m: int,
)
    requires
        place(lines, known, answers, record, m),
        lines[m].0@ == "ascending"@,
    ensures
        at(record[m], lines[m].1@) matches Tree::List(l) && all_ascend(l, lines[m].2@),
        record[m + 1] == record[m],
{
    lemma_place(lines, known, answers, record, m);
    reveal(effect_of);
    reveal(plain_effect);
    reveal(truth_of);
    lemma_checks(lines[m].0@);
    lemma_plain(lines[m].0@);
    lemma_truths(lines[m].0@);
}

/// A command was refused.
pub proof fn saw_refused(
    lines: Seq<Line>,
    known: Tree,
    answers: Seq<(Tree, bool)>,
    record: Seq<Tree>,
    m: int,
)
    requires
        place(lines, known, answers, record, m),
        lines[m].0@ == "refused"@,
    ensures
        reply_output(at(record[m], "reply"@)).code != Some(0i32),
        record[m + 1] == record[m],
{
    lemma_place(lines, known, answers, record, m);
    reveal(effect_of);
    reveal(plain_effect);
    lemma_checks(lines[m].0@);
}

/// Nothing stands where its absence was placed.
pub proof fn was_cleared(
    lines: Seq<Line>,
    known: Tree,
    answers: Seq<(Tree, bool)>,
    record: Seq<Tree>,
    m: int,
)
    requires
        place(lines, known, answers, record, m),
        lines[m].0@ == "mark"@,
        lines[m].2@ == "null"@,
    ensures
        at(record[m + 1], lines[m].1@) == Tree::Null,
{
    lemma_place(lines, known, answers, record, m);
    reveal(effect_of);
    reveal(plain_effect);
    lemma_effects(lines[m].0@);
    reveal_strlit("true");
    reveal_strlit("false");
    reveal_strlit("null");
    assert("null"@[0] != "true"@[0]);
    assert("false"@.len() == 5);
    assert("null"@.len() == 4);
    reveal(found);
    placed_is_found(record[m], segments(lines[m].1@), Tree::Null);
}

/// The truth of a condition of three words on an element.
proof fn lemma_element(op: Seq<char>, field: Seq<char>, value: Seq<char>, element: Tree)
    requires
        op != "else"@,
        op != "plus"@,
        field != "else"@,
        field != "plus"@,
        value != "else"@,
        value != "plus"@,
    ensures
        element_meets(seq![op, field, value], element, 0) == truth_of(op, field, value, element),
{
    let words = seq![op, field, value];
    reveal_with_fuel(next_mark, 5);
    reveal_with_fuel(together, 2);
    reveal_with_fuel(element_meets, 2);
    assert(next_mark(words, "else"@, 0) == 3);
    assert(words.subrange(0, 3) =~= words);
    assert(next_mark(words, "plus"@, 0) == 3);
    assert(words.skip(2) =~= seq![value]);
    lemma_joined_one(value);
}

proof fn lemma_joined_one(value: Seq<char>)
    ensures
        joined_with(seq![value], " "@) == value,
{
    reveal_with_fuel(joined_with, 2);
}

proof fn lemma_flagged_element(field: Seq<char>, element: Tree)
    requires
        field != "else"@,
        field != "plus"@,
    ensures
        element_meets(seq!["true"@, field], element, 0) == Some(
            at(element, field) == Tree::Bool(true),
        ),
{
    let words = seq!["true"@, field];
    reveal(truth_of);
    reveal_strlit("true");
    assert("true"@.len() == 4);
    reveal_strlit("is");
    assert("is"@.len() == 2);
    reveal_strlit("isnot");
    assert("isnot"@.len() == 5);
    reveal_strlit("else");
    assert("else"@[0] != "true"@[0]);
    reveal_strlit("plus");
    assert("plus"@[0] != "true"@[0]);
    reveal_with_fuel(next_mark, 4);
    reveal_with_fuel(together, 2);
    reveal_with_fuel(element_meets, 2);
    assert(next_mark(words, "else"@, 0) == 2);
    assert(words.subrange(0, 2) =~= words);
    assert(next_mark(words, "plus"@, 0) == 2);
}

/// A tally of a condition on a field counts the elements with the value.
proof fn lemma_tally(
    l: Seq<Tree>,
    words: Seq<Seq<char>>,
    field: Seq<char>,
    value: Tree,
    n: int,
)
    requires
        0 <= n <= l.len(),
        forall|t: Tree| #[trigger] element_meets(words, t, 0) == Some(at(t, field) == value),
    ensures
        tally(l, words, n) == Some(elements_with(l.take(n), field, value)),
    decreases n,
{
    if n > 0 {
        lemma_tally(l, words, field, value, n - 1);
        assert(l.take(n).drop_last() =~= l.take(n - 1));
        assert(l.take(n).last() == l[n - 1]);
        assert(element_meets(words, l[n - 1], 0) == Some(at(l[n - 1], field) == value));
    }
}

proof fn lemma_counts(l: Seq<Tree>, field: Seq<char>, value: Tree)
    ensures
        elements_with(l, field, value) <= l.len(),
        elements_with(l, field, value) == 0 ==> no_element(l, field, value),
        elements_with(l, field, value) > 0 ==> some_element(l, field, value),
        elements_with(l, field, value) == l.len() ==> every_element(l, field, value),
    decreases l.len(),
{
    if l.len() > 0 {
        let most = l.drop_last();
        lemma_counts(most, field, value);
        assert(forall|i: int| 0 <= i < most.len() ==> most[i] == l[i]);
        if elements_with(l, field, value) == 0 {
            assert forall|i: int| 0 <= i < l.len() implies at(#[trigger] l[i], field) != value by {
                if i < most.len() {
                    assert(at(most[i], field) != value);
                }
            }
        }
        if elements_with(l, field, value) > 0 {
            if at(l.last(), field) == value {
                assert(at(l[l.len() - 1], field) == value);
            } else {
                let i = choose|i: int| 0 <= i < most.len()
                    && at(#[trigger] most[i], field) == value;
                assert(at(l[i], field) == value);
            }
        }
        if elements_with(l, field, value) == l.len() {
            assert forall|i: int| 0 <= i < l.len() implies at(#[trigger] l[i], field) == value by {
                if i < most.len() {
                    assert(at(most[i], field) == value);
                }
            }
        }
    }
}

/// Whether a word may be part of a condition on an element.
pub open spec fn plain(word: Seq<char>) -> bool {
    word != "else"@ && word != "plus"@
}

proof fn lemma_text_elements(l: Seq<Tree>, field: Seq<char>, value: Seq<char>)
    requires
        plain(field),
        plain(value),
    ensures
        tally(l, seq!["is"@, field, value], l.len() as int) == Some(
            elements_with(l, field, Tree::Text(value)),
        ),
{
    reveal(truth_of);
    reveal_strlit("is");
    assert("is"@.len() == 2);
    reveal_strlit("else");
    assert("else"@.len() == 4);
    reveal_strlit("plus");
    assert("plus"@.len() == 4);
    let words = seq!["is"@, field, value];
    assert forall|t: Tree| #[trigger]
        element_meets(words, t, 0) == Some(at(t, field) == Tree::Text(value)) by {
        lemma_element("is"@, field, value, t);
    }
    lemma_tally(l, words, field, Tree::Text(value), l.len() as int);
    assert(l.take(l.len() as int) =~= l);
}

proof fn lemma_number_elements(l: Seq<Tree>, field: Seq<char>, value: Seq<char>, n: u64)
    requires
        plain(field),
        plain(value),
        number_of(value) == Some(n),
    ensures
        tally(l, seq!["num"@, field, value], l.len() as int) == Some(
            elements_with(l, field, Tree::Integer(n as int)),
        ),
{
    reveal(truth_of);
    lemma_truths("num"@);
    reveal_strlit("num");
    assert("num"@.len() == 3);
    reveal_strlit("else");
    assert("else"@.len() == 4);
    reveal_strlit("plus");
    assert("plus"@.len() == 4);
    let words = seq!["num"@, field, value];
    assert forall|t: Tree| #[trigger]
        element_meets(words, t, 0) == Some(at(t, field) == Tree::Integer(n as int)) by {
        lemma_element("num"@, field, value, t);
    }
    lemma_tally(l, words, field, Tree::Integer(n as int), l.len() as int);
    assert(l.take(l.len() as int) =~= l);
}

/// No element of a checked list had the excluded text.
pub proof fn saw_none(
    lines: Seq<Line>,
    known: Tree,
    answers: Seq<(Tree, bool)>,
    record: Seq<Tree>,
    m: int,
    field: Seq<char>,
    value: Seq<char>,
)
    requires
        place(lines, known, answers, record, m),
        lines[m].0@ == "none"@,
        parts(lines[m].2@) == seq!["is"@, field, value],
        plain(field),
        plain(value),
    ensures
        no_element(items(record[m], lines[m].1@), field, Tree::Text(value)),
        record[m + 1] == record[m],
{
    lemma_place(lines, known, answers, record, m);
    reveal(effect_of);
    reveal(plain_effect);
    lemma_checks(lines[m].0@);
    reveal_strlit("none");
    assert("none"@.len() == 4);
    reveal_strlit("either");
    assert("either"@.len() == 6);
    reveal_strlit("typed");
    assert("typed"@.len() == 5);
    reveal_strlit("error");
    assert("error"@.len() == 5);
    reveal_strlit("refused");
    assert("refused"@.len() == 7);
    reveal_strlit("matching");
    assert("matching"@.len() == 8);
    reveal_strlit("each");
    assert("each"@[0] != "none"@[0]);
    reveal_strlit("any");
    assert("any"@.len() == 3);
    let l = items(record[m], lines[m].1@);
    lemma_text_elements(l, field, value);
    lemma_counts(l, field, Tree::Text(value));
}

/// Some element of a checked list had the required text.
pub proof fn saw_any(
    lines: Seq<Line>,
    known: Tree,
    answers: Seq<(Tree, bool)>,
    record: Seq<Tree>,
    m: int,
    field: Seq<char>,
    value: Seq<char>,
)
    requires
        place(lines, known, answers, record, m),
        lines[m].0@ == "any"@,
        parts(lines[m].2@) == seq!["is"@, field, value],
        plain(field),
        plain(value),
    ensures
        some_element(items(record[m], lines[m].1@), field, Tree::Text(value)),
        record[m + 1] == record[m],
{
    lemma_place(lines, known, answers, record, m);
    reveal(effect_of);
    reveal(plain_effect);
    lemma_checks(lines[m].0@);
    reveal_strlit("any");
    assert("any"@.len() == 3);
    reveal_strlit("either");
    assert("either"@.len() == 6);
    reveal_strlit("typed");
    assert("typed"@.len() == 5);
    reveal_strlit("error");
    assert("error"@.len() == 5);
    reveal_strlit("refused");
    assert("refused"@.len() == 7);
    reveal_strlit("matching");
    assert("matching"@.len() == 8);
    reveal_strlit("each");
    assert("each"@.len() == 4);
    let l = items(record[m], lines[m].1@);
    lemma_text_elements(l, field, value);
    lemma_counts(l, field, Tree::Text(value));
}

/// Every element of a checked list had its flag set.
pub proof fn saw_each(
    lines: Seq<Line>,
    known: Tree,
    answers: Seq<(Tree, bool)>,
    record: Seq<Tree>,
    m: int,
    field: Seq<char>,
)
    requires
        place(lines, known, answers, record, m),
        lines[m].0@ == "each"@,
        parts(lines[m].2@) == seq!["true"@, field],
        plain(field),
    ensures
        every_element(items(record[m], lines[m].1@), field, Tree::Bool(true)),
        record[m + 1] == record[m],
{
    lemma_place(lines, known, answers, record, m);
    reveal(effect_of);
    reveal(plain_effect);
    lemma_checks(lines[m].0@);
    reveal_strlit("each");
    assert("each"@.len() == 4);
    reveal_strlit("either");
    assert("either"@.len() == 6);
    reveal_strlit("typed");
    assert("typed"@.len() == 5);
    reveal_strlit("error");
    assert("error"@.len() == 5);
    reveal_strlit("refused");
    assert("refused"@.len() == 7);
    reveal_strlit("matching");
    assert("matching"@.len() == 8);
    let l = items(record[m], lines[m].1@);
    let words = seq!["true"@, field];
    assert forall|t: Tree| #[trigger]
        element_meets(words, t, 0) == Some(at(t, field) == Tree::Bool(true)) by {
        lemma_flagged_element(field, t);
    }
    lemma_tally(l, words, field, Tree::Bool(true), l.len() as int);
    assert(l.take(l.len() as int) =~= l);
    lemma_counts(l, field, Tree::Bool(true));
}

/// Exactly the required number of a checked list's elements had the number.
pub proof fn saw_matching(
    lines: Seq<Line>,
    known: Tree,
    answers: Seq<(Tree, bool)>,
    record: Seq<Tree>,
    m: int,
    count: Seq<char>,
    field: Seq<char>,
    value: Seq<char>,
    c: u64,
    n: u64,
)
    requires
        place(lines, known, answers, record, m),
        lines[m].0@ == "matching"@,
        parts(lines[m].2@) == seq![count, "num"@, field, value],
        plain(field),
        plain(value),
        number_of(count) == Some(c),
        number_of(value) == Some(n),
    ensures
        elements_with(items(record[m], lines[m].1@), field, Tree::Integer(n as int)) == c,
        record[m + 1] == record[m],
{
    lemma_place(lines, known, answers, record, m);
    reveal(effect_of);
    reveal(plain_effect);
    lemma_checks(lines[m].0@);
    reveal_strlit("matching");
    assert("matching"@.len() == 8);
    reveal_strlit("either");
    assert("either"@.len() == 6);
    reveal_strlit("typed");
    assert("typed"@.len() == 5);
    reveal_strlit("error");
    assert("error"@.len() == 5);
    reveal_strlit("refused");
    assert("refused"@.len() == 7);
    let l = items(record[m], lines[m].1@);
    assert(parts(lines[m].2@).skip(1) =~= seq!["num"@, field, value]);
    lemma_number_elements(l, field, value, n);
}

/// The list of some values stands where it was placed.
pub proof fn was_gathered(
    lines: Seq<Line>,
    known: Tree,
    answers: Seq<(Tree, bool)>,
    record: Seq<Tree>,
    m: int,
)
    requires
        place(lines, known, answers, record, m),
        lines[m].0@ == "gather"@,
    ensures
        at(record[m + 1], lines[m].1@) == Tree::List(gathered(parts(lines[m].2@), record[m])),
{
    lemma_place(lines, known, answers, record, m);
    reveal(effect_of);
    reveal(plain_effect);
    lemma_effects(lines[m].0@);

    reveal(found);
    placed_is_found(
        record[m],
        segments(lines[m].1@),
        Tree::List(gathered(parts(lines[m].2@), record[m])),
    );
}

/// A number stands where it was placed.
pub proof fn was_counted(
    lines: Seq<Line>,
    known: Tree,
    answers: Seq<(Tree, bool)>,
    record: Seq<Tree>,
    m: int,
    n: u64,
)
    requires
        place(lines, known, answers, record, m),
        lines[m].0@ == "tell"@,
        number_of(lines[m].2@) == Some(n),
    ensures
        at(record[m + 1], lines[m].1@) == Tree::Integer(n as int),
{
    lemma_place(lines, known, answers, record, m);
    reveal(effect_of);
    reveal(plain_effect);
    lemma_effects(lines[m].0@);

    reveal(found);
    placed_is_found(record[m], segments(lines[m].1@), Tree::Integer(n as int));
}

/// A text stands where it was placed.
pub proof fn was_worded(
    lines: Seq<Line>,
    known: Tree,
    answers: Seq<(Tree, bool)>,
    record: Seq<Tree>,
    m: int,
)
    requires
        place(lines, known, answers, record, m),
        lines[m].0@ == "say"@,
    ensures
        at(record[m + 1], lines[m].1@) == Tree::Text(lines[m].2@),
{
    lemma_place(lines, known, answers, record, m);
    reveal(effect_of);
    reveal(plain_effect);
    lemma_effects(lines[m].0@);

    reveal(found);
    placed_is_found(record[m], segments(lines[m].1@), Tree::Text(lines[m].2@));
}

/// A value stands where it was placed.
pub proof fn was_put(
    lines: Seq<Line>,
    known: Tree,
    answers: Seq<(Tree, bool)>,
    record: Seq<Tree>,
    m: int,
)
    requires
        place(lines, known, answers, record, m),
        lines[m].0@ == "put"@,
    ensures
        at(record[m + 1], lines[m].1@) == at(record[m], lines[m].2@),
{
    lemma_place(lines, known, answers, record, m);
    reveal(effect_of);
    reveal(plain_effect);
    lemma_effects(lines[m].0@);

    reveal(found);
    placed_is_found(record[m], segments(lines[m].1@), at(record[m], lines[m].2@));
}

/// Placing a value under one field of an object changes nothing under another.
pub proof fn stays_beside(
    lines: Seq<Line>,
    known: Tree,
    answers: Seq<(Tree, bool)>,
    record: Seq<Tree>,
    m: int,
    key: Seq<char>,
    field: Seq<char>,
)
    requires
        place(lines, known, answers, record, m),
        key.len() > 0,
        forall|i: int| 0 <= i < key.len() ==> key[i] != ',',
        key != "reply"@,
        field.len() > 0,
        forall|i: int| 0 <= i < field.len() ==> field[i] != ',',
        field[0] != '#',
        segments(lines[m].1@).len() > 1,
        segments(lines[m].1@)[0] == key,
        segments(lines[m].1@)[1] != field,
        segments(lines[m].1@)[1].len() > 0,
        segments(lines[m].1@)[1][0] != '#',
        lines[m].1@ != key,
    ensures
        at(at(record[m + 1], key), field) == at(at(record[m], key), field),
{
    lemma_place(lines, known, answers, record, m);
    reveal(effect_of);
    reveal(plain_effect);
    keys_are_found(record[m], key);
    keys_are_found(record[m + 1], key);
    keys_are_found(at(record[m], key), field);
    keys_are_found(at(record[m + 1], key), field);
    let path = segments(lines[m].1@);
    assert(path.skip(1)[0] == path[1]);
    reveal_with_fuel(placed, 3);
    reveal_with_fuel(takes, 3);
}

/// A check changes nothing.
pub proof fn unchanged(
    lines: Seq<Line>,
    known: Tree,
    answers: Seq<(Tree, bool)>,
    record: Seq<Tree>,
    m: int,
)
    requires
        place(lines, known, answers, record, m),
        is_check(lines[m].0@),
    ensures
        record[m + 1] == record[m],
{
    lemma_place(lines, known, answers, record, m);
    reveal(effect_of);
    reveal(plain_effect);
    lemma_checks(lines[m].0@);
}

/// The statements that only check; those on a client's typed failure are among them.
pub open spec fn is_check(op: Seq<char>) -> bool {
    ||| op == "is"@
    ||| op == "isnot"@
    ||| op == "true"@
    ||| op == "false"@
    ||| op == "null"@
    ||| op == "some"@
    ||| op == "object"@
    ||| op == "list"@
    ||| op == "string"@
    ||| op == "whole"@
    ||| op == "positive"@
    ||| op == "nonempty"@
    ||| op == "empty"@
    ||| op == "num"@
    ||| op == "below"@
    ||| op == "len"@
    ||| op == "keys"@
    ||| op == "same"@
    ||| op == "differs"@
    ||| op == "reaches"@
    ||| op == "exceeds"@
    ||| op == "follows"@
    ||| op == "contains"@
    ||| op == "lacks"@
    ||| op == "mentions"@
    ||| op == "omits"@
    ||| op == "starts"@
    ||| op == "ends"@
    ||| op == "trims"@
    ||| op == "member"@
    ||| op == "holds"@
    ||| op == "ascending"@
    ||| op == "matching"@
    ||| op == "each"@
    ||| op == "any"@
    ||| op == "none"@
    ||| op == "where"@
    ||| op == "either"@
    ||| op == "typed"@
    ||| op == "error"@
    ||| op == "refused"@
}

proof fn lemma_checks(op: Seq<char>)
    requires
        is_check(op),
    ensures
        op != "until"@,
        op != "--"@,
        op != "do"@,
        op != "wait"@,
        op != "watch"@,
        op != "poll"@,
        op != "success"@,
        op != "put"@,
        op != "say"@,
        op != "tell"@,
        op != "mark"@,
        op != "gather"@,
        op != "add"@,
        op != "glue"@,
        op != "void"@,
        op != "names"@,
        op != "size"@,
        op != "keep"@,
        op != "text"@,
        op != "number"@,
        op != "pick"@,
        op != "first"@,
        op != "need"@,
        op != "ok"@,
        op != "make"@,
        op != "yields"@,
        op.len() > 0,
{
    reveal_strlit("make");
    assert("make"@.len() == 4);
    reveal_strlit("yields");
    assert("yields"@.len() == 6);
    reveal_strlit("true");
    assert("true"@[0] != "make"@[0]);
    reveal_strlit("null");
    assert("null"@[0] != "make"@[0]);
    reveal_strlit("some");
    assert("some"@[0] != "make"@[0]);
    reveal_strlit("object");
    assert("object"@[0] != "yields"@[0]);
    reveal_strlit("list");
    assert("list"@[0] != "make"@[0]);
    reveal_strlit("string");
    assert("string"@[0] != "yields"@[0]);
    reveal_strlit("keys");
    assert("keys"@[0] != "make"@[0]);
    reveal_strlit("same");
    assert("same"@[0] != "make"@[0]);
    reveal_strlit("starts");
    assert("starts"@[0] != "yields"@[0]);
    reveal_strlit("ends");
    assert("ends"@[0] != "make"@[0]);
    reveal_strlit("member");
    assert("member"@[0] != "yields"@[0]);
    reveal_strlit("each");
    assert("each"@[0] != "make"@[0]);
    reveal_strlit("none");
    assert("none"@[0] != "make"@[0]);
    reveal_strlit("either");
    assert("either"@[0] != "yields"@[0]);
    reveal_strlit("--");
    reveal_strlit("do");
    reveal_strlit("wait");
    reveal_strlit("watch");
    reveal_strlit("poll");
    reveal_strlit("success");
    reveal_strlit("put");
    reveal_strlit("say");
    reveal_strlit("tell");
    reveal_strlit("mark");
    reveal_strlit("gather");
    reveal_strlit("add");
    reveal_strlit("glue");
    reveal_strlit("void");
    reveal_strlit("names");
    reveal_strlit("size");
    reveal_strlit("keep");
    reveal_strlit("text");
    reveal_strlit("number");
    reveal_strlit("pick");
    reveal_strlit("first");
    reveal_strlit("need");
    reveal_strlit("ok");
    reveal_strlit("until");
    reveal_strlit("is");
    reveal_strlit("isnot");
    reveal_strlit("true");
    reveal_strlit("false");
    reveal_strlit("null");
    reveal_strlit("some");
    reveal_strlit("object");
    reveal_strlit("list");
    reveal_strlit("string");
    reveal_strlit("whole");
    reveal_strlit("positive");
    reveal_strlit("nonempty");
    reveal_strlit("empty");
    reveal_strlit("num");
    reveal_strlit("below");
    reveal_strlit("len");
    reveal_strlit("keys");
    reveal_strlit("same");
    reveal_strlit("differs");
    reveal_strlit("reaches");
    reveal_strlit("exceeds");
    reveal_strlit("follows");
    reveal_strlit("contains");
    reveal_strlit("lacks");
    reveal_strlit("mentions");
    reveal_strlit("omits");
    reveal_strlit("starts");
    reveal_strlit("ends");
    reveal_strlit("trims");
    reveal_strlit("member");
    reveal_strlit("holds");
    reveal_strlit("ascending");
    reveal_strlit("matching");
    reveal_strlit("each");
    reveal_strlit("any");
    reveal_strlit("none");
    reveal_strlit("where");
    reveal_strlit("either");
    reveal_strlit("typed");
    reveal_strlit("error");
    reveal_strlit("refused");
    assert("--"@.len() == 2);
    assert("do"@.len() == 2);
    assert("wait"@.len() == 4);
    assert("watch"@.len() == 5);
    assert("poll"@.len() == 4);
    assert("success"@.len() == 7);
    assert("put"@.len() == 3);
    assert("say"@.len() == 3);
    assert("tell"@.len() == 4);
    assert("mark"@.len() == 4);
    assert("gather"@.len() == 6);
    assert("add"@.len() == 3);
    assert("glue"@.len() == 4);
    assert("void"@.len() == 4);
    assert("names"@.len() == 5);
    assert("size"@.len() == 4);
    assert("keep"@.len() == 4);
    assert("text"@.len() == 4);
    assert("number"@.len() == 6);
    assert("pick"@.len() == 4);
    assert("first"@.len() == 5);
    assert("need"@.len() == 4);
    assert("ok"@.len() == 2);
    assert("until"@.len() == 5);
    assert("is"@.len() == 2);
    assert("isnot"@.len() == 5);
    assert("true"@.len() == 4);
    assert("false"@.len() == 5);
    assert("null"@.len() == 4);
    assert("some"@.len() == 4);
    assert("object"@.len() == 6);
    assert("list"@.len() == 4);
    assert("string"@.len() == 6);
    assert("whole"@.len() == 5);
    assert("positive"@.len() == 8);
    assert("nonempty"@.len() == 8);
    assert("empty"@.len() == 5);
    assert("num"@.len() == 3);
    assert("below"@.len() == 5);
    assert("len"@.len() == 3);
    assert("keys"@.len() == 4);
    assert("same"@.len() == 4);
    assert("differs"@.len() == 7);
    assert("reaches"@.len() == 7);
    assert("exceeds"@.len() == 7);
    assert("follows"@.len() == 7);
    assert("contains"@.len() == 8);
    assert("lacks"@.len() == 5);
    assert("mentions"@.len() == 8);
    assert("omits"@.len() == 5);
    assert("starts"@.len() == 6);
    assert("ends"@.len() == 4);
    assert("trims"@.len() == 5);
    assert("member"@.len() == 6);
    assert("holds"@.len() == 5);
    assert("ascending"@.len() == 9);
    assert("matching"@.len() == 8);
    assert("each"@.len() == 4);
    assert("any"@.len() == 3);
    assert("none"@.len() == 4);
    assert("where"@.len() == 5);
    assert("either"@.len() == 6);
    assert("typed"@.len() == 5);
    assert("error"@.len() == 5);
    assert("refused"@.len() == 7);
    assert("is"@[0] != "--"@[0]);
    assert("is"@[0] != "do"@[0]);
    assert("is"@[0] != "ok"@[0]);
    assert("isnot"@[0] != "watch"@[0]);
    assert("isnot"@[0] != "names"@[0]);
    assert("isnot"@[0] != "first"@[0]);
    assert("isnot"@[0] != "until"@[0]);
    assert("true"@[0] != "wait"@[0]);
    assert("true"@[0] != "poll"@[0]);
    assert("true"@[1] != "tell"@[1]);
    assert("true"@[0] != "mark"@[0]);
    assert("true"@[0] != "glue"@[0]);
    assert("true"@[0] != "void"@[0]);
    assert("true"@[0] != "size"@[0]);
    assert("true"@[0] != "keep"@[0]);
    assert("true"@[1] != "text"@[1]);
    assert("true"@[0] != "pick"@[0]);
    assert("true"@[0] != "need"@[0]);
    assert("false"@[0] != "watch"@[0]);
    assert("false"@[0] != "names"@[0]);
    assert("false"@[1] != "first"@[1]);
    assert("false"@[0] != "until"@[0]);
    assert("null"@[0] != "wait"@[0]);
    assert("null"@[0] != "poll"@[0]);
    assert("null"@[0] != "tell"@[0]);
    assert("null"@[0] != "mark"@[0]);
    assert("null"@[0] != "glue"@[0]);
    assert("null"@[0] != "void"@[0]);
    assert("null"@[0] != "size"@[0]);
    assert("null"@[0] != "keep"@[0]);
    assert("null"@[0] != "text"@[0]);
    assert("null"@[0] != "pick"@[0]);
    assert("null"@[1] != "need"@[1]);
    assert("some"@[0] != "wait"@[0]);
    assert("some"@[0] != "poll"@[0]);
    assert("some"@[0] != "tell"@[0]);
    assert("some"@[0] != "mark"@[0]);
    assert("some"@[0] != "glue"@[0]);
    assert("some"@[0] != "void"@[0]);
    assert("some"@[1] != "size"@[1]);
    assert("some"@[0] != "keep"@[0]);
    assert("some"@[0] != "text"@[0]);
    assert("some"@[0] != "pick"@[0]);
    assert("some"@[0] != "need"@[0]);
    assert("object"@[0] != "gather"@[0]);
    assert("object"@[0] != "number"@[0]);
    assert("list"@[0] != "wait"@[0]);
    assert("list"@[0] != "poll"@[0]);
    assert("list"@[0] != "tell"@[0]);
    assert("list"@[0] != "mark"@[0]);
    assert("list"@[0] != "glue"@[0]);
    assert("list"@[0] != "void"@[0]);
    assert("list"@[0] != "size"@[0]);
    assert("list"@[0] != "keep"@[0]);
    assert("list"@[0] != "text"@[0]);
    assert("list"@[0] != "pick"@[0]);
    assert("list"@[0] != "need"@[0]);
    assert("string"@[0] != "gather"@[0]);
    assert("string"@[0] != "number"@[0]);
    assert("whole"@[1] != "watch"@[1]);
    assert("whole"@[0] != "names"@[0]);
    assert("whole"@[0] != "first"@[0]);
    assert("whole"@[0] != "until"@[0]);
    assert("empty"@[0] != "watch"@[0]);
    assert("empty"@[0] != "names"@[0]);
    assert("empty"@[0] != "first"@[0]);
    assert("empty"@[0] != "until"@[0]);
    assert("num"@[0] != "put"@[0]);
    assert("num"@[0] != "say"@[0]);
    assert("num"@[0] != "add"@[0]);
    assert("below"@[0] != "watch"@[0]);
    assert("below"@[0] != "names"@[0]);
    assert("below"@[0] != "first"@[0]);
    assert("below"@[0] != "until"@[0]);
    assert("len"@[0] != "put"@[0]);
    assert("len"@[0] != "say"@[0]);
    assert("len"@[0] != "add"@[0]);
    assert("keys"@[0] != "wait"@[0]);
    assert("keys"@[0] != "poll"@[0]);
    assert("keys"@[0] != "tell"@[0]);
    assert("keys"@[0] != "mark"@[0]);
    assert("keys"@[0] != "glue"@[0]);
    assert("keys"@[0] != "void"@[0]);
    assert("keys"@[0] != "size"@[0]);
    assert("keys"@[2] != "keep"@[2]);
    assert("keys"@[0] != "text"@[0]);
    assert("keys"@[0] != "pick"@[0]);
    assert("keys"@[0] != "need"@[0]);
    assert("same"@[0] != "wait"@[0]);
    assert("same"@[0] != "poll"@[0]);
    assert("same"@[0] != "tell"@[0]);
    assert("same"@[0] != "mark"@[0]);
    assert("same"@[0] != "glue"@[0]);
    assert("same"@[0] != "void"@[0]);
    assert("same"@[1] != "size"@[1]);
    assert("same"@[0] != "keep"@[0]);
    assert("same"@[0] != "text"@[0]);
    assert("same"@[0] != "pick"@[0]);
    assert("same"@[0] != "need"@[0]);
    assert("differs"@[0] != "success"@[0]);
    assert("reaches"@[0] != "success"@[0]);
    assert("exceeds"@[0] != "success"@[0]);
    assert("follows"@[0] != "success"@[0]);
    assert("lacks"@[0] != "watch"@[0]);
    assert("lacks"@[0] != "names"@[0]);
    assert("lacks"@[0] != "first"@[0]);
    assert("lacks"@[0] != "until"@[0]);
    assert("omits"@[0] != "watch"@[0]);
    assert("omits"@[0] != "names"@[0]);
    assert("omits"@[0] != "first"@[0]);
    assert("omits"@[0] != "until"@[0]);
    assert("starts"@[0] != "gather"@[0]);
    assert("starts"@[0] != "number"@[0]);
    assert("ends"@[0] != "wait"@[0]);
    assert("ends"@[0] != "poll"@[0]);
    assert("ends"@[0] != "tell"@[0]);
    assert("ends"@[0] != "mark"@[0]);
    assert("ends"@[0] != "glue"@[0]);
    assert("ends"@[0] != "void"@[0]);
    assert("ends"@[0] != "size"@[0]);
    assert("ends"@[0] != "keep"@[0]);
    assert("ends"@[0] != "text"@[0]);
    assert("ends"@[0] != "pick"@[0]);
    assert("ends"@[0] != "need"@[0]);
    assert("trims"@[0] != "watch"@[0]);
    assert("trims"@[0] != "names"@[0]);
    assert("trims"@[0] != "first"@[0]);
    assert("trims"@[0] != "until"@[0]);
    assert("member"@[0] != "gather"@[0]);
    assert("member"@[0] != "number"@[0]);
    assert("holds"@[0] != "watch"@[0]);
    assert("holds"@[0] != "names"@[0]);
    assert("holds"@[0] != "first"@[0]);
    assert("holds"@[0] != "until"@[0]);
    assert("each"@[0] != "wait"@[0]);
    assert("each"@[0] != "poll"@[0]);
    assert("each"@[0] != "tell"@[0]);
    assert("each"@[0] != "mark"@[0]);
    assert("each"@[0] != "glue"@[0]);
    assert("each"@[0] != "void"@[0]);
    assert("each"@[0] != "size"@[0]);
    assert("each"@[0] != "keep"@[0]);
    assert("each"@[0] != "text"@[0]);
    assert("each"@[0] != "pick"@[0]);
    assert("each"@[0] != "need"@[0]);
    assert("any"@[0] != "put"@[0]);
    assert("any"@[0] != "say"@[0]);
    assert("any"@[1] != "add"@[1]);
    assert("none"@[0] != "wait"@[0]);
    assert("none"@[0] != "poll"@[0]);
    assert("none"@[0] != "tell"@[0]);
    assert("none"@[0] != "mark"@[0]);
    assert("none"@[0] != "glue"@[0]);
    assert("none"@[0] != "void"@[0]);
    assert("none"@[0] != "size"@[0]);
    assert("none"@[0] != "keep"@[0]);
    assert("none"@[0] != "text"@[0]);
    assert("none"@[0] != "pick"@[0]);
    assert("none"@[1] != "need"@[1]);
    assert("where"@[1] != "watch"@[1]);
    assert("where"@[0] != "names"@[0]);
    assert("where"@[0] != "first"@[0]);
    assert("where"@[0] != "until"@[0]);
    assert("either"@[0] != "gather"@[0]);
    assert("either"@[0] != "number"@[0]);
    assert("typed"@[0] != "watch"@[0]);
    assert("typed"@[0] != "names"@[0]);
    assert("typed"@[0] != "first"@[0]);
    assert("typed"@[0] != "until"@[0]);
    assert("error"@[0] != "watch"@[0]);
    assert("error"@[0] != "names"@[0]);
    assert("error"@[0] != "first"@[0]);
    assert("error"@[0] != "until"@[0]);
    assert("refused"@[0] != "success"@[0]);
}

/// The checks on a single value.
spec fn is_plain_check(op: Seq<char>) -> bool {
    ||| op == "trims"@
    ||| op == "is"@
    ||| op == "isnot"@
    ||| op == "true"@
    ||| op == "false"@
    ||| op == "null"@
    ||| op == "some"@
    ||| op == "empty"@
    ||| op == "nonempty"@
    ||| op == "num"@
    ||| op == "len"@
    ||| op == "same"@
    ||| op == "differs"@
    ||| op == "follows"@
    ||| op == "contains"@
    ||| op == "lacks"@
    ||| op == "positive"@
    ||| op == "below"@
    ||| op == "keys"@
    ||| op == "object"@
    ||| op == "reaches"@
    ||| op == "exceeds"@
    ||| op == "ascending"@
}

proof fn lemma_plain(op: Seq<char>)
    requires
        is_plain_check(op),
    ensures
        op != "matching"@,
        op != "each"@,
        op != "any"@,
        op != "none"@,
        op != "where"@,
        op != "either"@,
        op != "typed"@,
        op != "error"@,
        op != "refused"@,
{
    reveal_strlit("matching");
    reveal_strlit("each");
    reveal_strlit("any");
    reveal_strlit("none");
    reveal_strlit("where");
    reveal_strlit("either");
    reveal_strlit("typed");
    reveal_strlit("error");
    reveal_strlit("refused");
    reveal_strlit("trims");
    reveal_strlit("is");
    reveal_strlit("isnot");
    reveal_strlit("true");
    reveal_strlit("false");
    reveal_strlit("null");
    reveal_strlit("some");
    reveal_strlit("empty");
    reveal_strlit("nonempty");
    reveal_strlit("num");
    reveal_strlit("len");
    reveal_strlit("same");
    reveal_strlit("differs");
    reveal_strlit("follows");
    reveal_strlit("contains");
    reveal_strlit("lacks");
    reveal_strlit("positive");
    reveal_strlit("below");
    reveal_strlit("keys");
    reveal_strlit("object");
    reveal_strlit("reaches");
    reveal_strlit("exceeds");
    reveal_strlit("ascending");
    assert("matching"@.len() == 8);
    assert("each"@.len() == 4);
    assert("any"@.len() == 3);
    assert("none"@.len() == 4);
    assert("where"@.len() == 5);
    assert("either"@.len() == 6);
    assert("typed"@.len() == 5);
    assert("error"@.len() == 5);
    assert("refused"@.len() == 7);
    assert("trims"@.len() == 5);
    assert("is"@.len() == 2);
    assert("isnot"@.len() == 5);
    assert("true"@.len() == 4);
    assert("false"@.len() == 5);
    assert("null"@.len() == 4);
    assert("some"@.len() == 4);
    assert("empty"@.len() == 5);
    assert("nonempty"@.len() == 8);
    assert("num"@.len() == 3);
    assert("len"@.len() == 3);
    assert("same"@.len() == 4);
    assert("differs"@.len() == 7);
    assert("follows"@.len() == 7);
    assert("contains"@.len() == 8);
    assert("lacks"@.len() == 5);
    assert("positive"@.len() == 8);
    assert("below"@.len() == 5);
    assert("keys"@.len() == 4);
    assert("object"@.len() == 6);
    assert("reaches"@.len() == 7);
    assert("exceeds"@.len() == 7);
    assert("ascending"@.len() == 9);
    assert("trims"@[0] != "where"@[0]);
    assert("trims"@[1] != "typed"@[1]);
    assert("trims"@[0] != "error"@[0]);
    assert("isnot"@[0] != "where"@[0]);
    assert("isnot"@[0] != "typed"@[0]);
    assert("isnot"@[0] != "error"@[0]);
    assert("true"@[0] != "each"@[0]);
    assert("true"@[0] != "none"@[0]);
    assert("false"@[0] != "where"@[0]);
    assert("false"@[0] != "typed"@[0]);
    assert("false"@[0] != "error"@[0]);
    assert("null"@[0] != "each"@[0]);
    assert("null"@[1] != "none"@[1]);
    assert("some"@[0] != "each"@[0]);
    assert("some"@[0] != "none"@[0]);
    assert("empty"@[0] != "where"@[0]);
    assert("empty"@[0] != "typed"@[0]);
    assert("empty"@[1] != "error"@[1]);
    assert("nonempty"@[0] != "matching"@[0]);
    assert("num"@[0] != "any"@[0]);
    assert("len"@[0] != "any"@[0]);
    assert("same"@[0] != "each"@[0]);
    assert("same"@[0] != "none"@[0]);
    assert("differs"@[0] != "refused"@[0]);
    assert("follows"@[0] != "refused"@[0]);
    assert("contains"@[0] != "matching"@[0]);
    assert("lacks"@[0] != "where"@[0]);
    assert("lacks"@[0] != "typed"@[0]);
    assert("lacks"@[0] != "error"@[0]);
    assert("positive"@[0] != "matching"@[0]);
    assert("below"@[0] != "where"@[0]);
    assert("below"@[0] != "typed"@[0]);
    assert("below"@[0] != "error"@[0]);
    assert("keys"@[0] != "each"@[0]);
    assert("keys"@[0] != "none"@[0]);
    assert("object"@[0] != "either"@[0]);
    assert("reaches"@[2] != "refused"@[2]);
    assert("exceeds"@[0] != "refused"@[0]);
}

/// A statement's operation is none of those that are asked for before it.
proof fn lemma_effects(op: Seq<char>)
    ensures
        op == "ok"@
            ==> op != "make"@
                && op != "until"@
                && op != "--"@
                && op != "do"@
                && op != "wait"@
                && op != "watch"@
                && op != "poll"@
                && op != "success"@
                && op != "refused"@
                && op != "put"@
                && op != "say"@
                && op != "tell"@
                && op != "mark"@
                && op != "gather"@
                && op != "add"@
                && op != "glue"@
                && op != "void"@
                && op != "names"@
                && op != "size"@
                && op != "error"@
                && op != "typed"@
                && op != "keep"@
                && op != "text"@
                && op != "number"@
                && op != "pick"@
                && op != "first"@
                && op != "need"@,
        op == "success"@
            ==> op != "make"@
                && op != "until"@
                && op != "--"@
                && op != "do"@
                && op != "wait"@
                && op != "watch"@
                && op != "poll"@,
        op == "keep"@
            ==> op != "make"@
                && op != "until"@
                && op != "--"@
                && op != "do"@
                && op != "wait"@
                && op != "watch"@
                && op != "poll"@
                && op != "success"@
                && op != "refused"@
                && op != "put"@
                && op != "say"@
                && op != "tell"@
                && op != "mark"@
                && op != "gather"@
                && op != "add"@
                && op != "glue"@
                && op != "void"@
                && op != "names"@
                && op != "size"@
                && op != "error"@
                && op != "typed"@,
        op == "text"@
            ==> op != "make"@
                && op != "until"@
                && op != "--"@
                && op != "do"@
                && op != "wait"@
                && op != "watch"@
                && op != "poll"@
                && op != "success"@
                && op != "refused"@
                && op != "put"@
                && op != "say"@
                && op != "tell"@
                && op != "mark"@
                && op != "gather"@
                && op != "add"@
                && op != "glue"@
                && op != "void"@
                && op != "names"@
                && op != "size"@
                && op != "error"@
                && op != "typed"@
                && op != "keep"@,
        op == "need"@
            ==> op != "make"@
                && op != "until"@
                && op != "--"@
                && op != "do"@
                && op != "wait"@
                && op != "watch"@
                && op != "poll"@
                && op != "success"@
                && op != "refused"@
                && op != "put"@
                && op != "say"@
                && op != "tell"@
                && op != "mark"@
                && op != "gather"@
                && op != "add"@
                && op != "glue"@
                && op != "void"@
                && op != "names"@
                && op != "size"@
                && op != "error"@
                && op != "typed"@
                && op != "keep"@
                && op != "text"@
                && op != "number"@
                && op != "pick"@
                && op != "first"@,
        op == "number"@
            ==> op != "make"@
                && op != "until"@
                && op != "--"@
                && op != "do"@
                && op != "wait"@
                && op != "watch"@
                && op != "poll"@
                && op != "success"@
                && op != "refused"@
                && op != "put"@
                && op != "say"@
                && op != "tell"@
                && op != "mark"@
                && op != "gather"@
                && op != "add"@
                && op != "glue"@
                && op != "void"@
                && op != "names"@
                && op != "size"@
                && op != "error"@
                && op != "typed"@
                && op != "keep"@
                && op != "text"@,
        op == "mark"@
            ==> op != "make"@
                && op != "until"@
                && op != "--"@
                && op != "do"@
                && op != "wait"@
                && op != "watch"@
                && op != "poll"@
                && op != "success"@
                && op != "refused"@
                && op != "put"@
                && op != "say"@
                && op != "tell"@,
        op == "gather"@
            ==> op != "make"@
                && op != "until"@
                && op != "--"@
                && op != "do"@
                && op != "wait"@
                && op != "watch"@
                && op != "poll"@
                && op != "success"@
                && op != "refused"@
                && op != "put"@
                && op != "say"@
                && op != "tell"@
                && op != "mark"@,
        op == "tell"@
            ==> op != "make"@
                && op != "until"@
                && op != "--"@
                && op != "do"@
                && op != "wait"@
                && op != "watch"@
                && op != "poll"@
                && op != "success"@
                && op != "refused"@
                && op != "put"@
                && op != "say"@,
        op == "say"@
            ==> op != "make"@
                && op != "until"@
                && op != "--"@
                && op != "do"@
                && op != "wait"@
                && op != "watch"@
                && op != "poll"@
                && op != "success"@
                && op != "refused"@
                && op != "put"@,
        op == "put"@
            ==> op != "make"@
                && op != "until"@
                && op != "--"@
                && op != "do"@
                && op != "wait"@
                && op != "watch"@
                && op != "poll"@
                && op != "success"@
                && op != "refused"@,
        is_effect(op) ==> op.len() > 0,
{
    reveal_strlit("make");
    assert("make"@.len() == 4);
    reveal_strlit("keep");
    assert("keep"@[0] != "make"@[0]);
    reveal_strlit("text");
    assert("text"@[0] != "make"@[0]);
    reveal_strlit("need");
    assert("need"@[0] != "make"@[0]);
    reveal_strlit("mark");
    assert("mark"@[2] != "make"@[2]);
    reveal_strlit("tell");
    assert("tell"@[0] != "make"@[0]);
    reveal_strlit("--");
    reveal_strlit("do");
    reveal_strlit("wait");
    reveal_strlit("watch");
    reveal_strlit("poll");
    reveal_strlit("success");
    reveal_strlit("refused");
    reveal_strlit("put");
    reveal_strlit("say");
    reveal_strlit("tell");
    reveal_strlit("mark");
    reveal_strlit("gather");
    reveal_strlit("add");
    reveal_strlit("glue");
    reveal_strlit("void");
    reveal_strlit("names");
    reveal_strlit("size");
    reveal_strlit("error");
    reveal_strlit("typed");
    reveal_strlit("keep");
    reveal_strlit("text");
    reveal_strlit("number");
    reveal_strlit("pick");
    reveal_strlit("first");
    reveal_strlit("need");
    reveal_strlit("ok");
    reveal_strlit("until");
    assert("--"@.len() == 2);
    assert("do"@.len() == 2);
    assert("wait"@.len() == 4);
    assert("watch"@.len() == 5);
    assert("poll"@.len() == 4);
    assert("success"@.len() == 7);
    assert("refused"@.len() == 7);
    assert("put"@.len() == 3);
    assert("say"@.len() == 3);
    assert("tell"@.len() == 4);
    assert("mark"@.len() == 4);
    assert("gather"@.len() == 6);
    assert("add"@.len() == 3);
    assert("glue"@.len() == 4);
    assert("void"@.len() == 4);
    assert("names"@.len() == 5);
    assert("size"@.len() == 4);
    assert("error"@.len() == 5);
    assert("typed"@.len() == 5);
    assert("keep"@.len() == 4);
    assert("text"@.len() == 4);
    assert("number"@.len() == 6);
    assert("pick"@.len() == 4);
    assert("first"@.len() == 5);
    assert("need"@.len() == 4);
    assert("ok"@.len() == 2);
    assert("until"@.len() == 5);
    assert("ok"@[0] != "--"@[0]);
    assert("ok"@[0] != "do"@[0]);
    assert("keep"@[0] != "wait"@[0]);
    assert("keep"@[0] != "poll"@[0]);
    assert("keep"@[0] != "tell"@[0]);
    assert("keep"@[0] != "mark"@[0]);
    assert("keep"@[0] != "glue"@[0]);
    assert("keep"@[0] != "void"@[0]);
    assert("keep"@[0] != "size"@[0]);
    assert("text"@[0] != "wait"@[0]);
    assert("text"@[0] != "poll"@[0]);
    assert("text"@[2] != "tell"@[2]);
    assert("text"@[0] != "mark"@[0]);
    assert("text"@[0] != "glue"@[0]);
    assert("text"@[0] != "void"@[0]);
    assert("text"@[0] != "size"@[0]);
    assert("text"@[0] != "keep"@[0]);
    assert("need"@[0] != "wait"@[0]);
    assert("need"@[0] != "poll"@[0]);
    assert("need"@[0] != "tell"@[0]);
    assert("need"@[0] != "mark"@[0]);
    assert("need"@[0] != "glue"@[0]);
    assert("need"@[0] != "void"@[0]);
    assert("need"@[0] != "size"@[0]);
    assert("need"@[0] != "keep"@[0]);
    assert("need"@[0] != "text"@[0]);
    assert("need"@[0] != "pick"@[0]);
    assert("number"@[0] != "gather"@[0]);
    assert("mark"@[0] != "wait"@[0]);
    assert("mark"@[0] != "poll"@[0]);
    assert("mark"@[0] != "tell"@[0]);
    assert("tell"@[0] != "wait"@[0]);
    assert("tell"@[0] != "poll"@[0]);
    assert("say"@[0] != "put"@[0]);
}

spec fn is_effect(op: Seq<char>) -> bool {
    ||| op == "ok"@
    ||| op == "success"@
    ||| op == "keep"@
    ||| op == "text"@
    ||| op == "need"@
    ||| op == "number"@
    ||| op == "mark"@
    ||| op == "gather"@
    ||| op == "tell"@
    ||| op == "say"@
    ||| op == "put"@
}

/// A check's operation is none of those that are asked for before it.
proof fn lemma_truths(op: Seq<char>)
    ensures
        op == "trims"@
            ==> op != "is"@
                && op != "isnot"@
                && op != "true"@
                && op != "false"@
                && op != "null"@
                && op != "some"@
                && op != "object"@
                && op != "list"@
                && op != "string"@
                && op != "whole"@
                && op != "positive"@
                && op != "nonempty"@
                && op != "empty"@
                && op != "num"@
                && op != "below"@
                && op != "len"@
                && op != "keys"@
                && op != "same"@
                && op != "differs"@
                && op != "reaches"@
                && op != "exceeds"@
                && op != "follows"@
                && op != "contains"@
                && op != "lacks"@
                && op != "mentions"@
                && op != "omits"@
                && op != "starts"@
                && op != "ends"@,
        op == "isnot"@ ==> op != "is"@,
        op == "true"@ ==> op != "is"@ && op != "isnot"@,
        op == "false"@ ==> op != "is"@ && op != "isnot"@ && op != "true"@,
        op == "null"@ ==> op != "is"@ && op != "isnot"@ && op != "true"@ && op != "false"@,
        op == "some"@
            ==> op != "is"@ && op != "isnot"@ && op != "true"@ && op != "false"@ && op != "null"@,
        op == "empty"@
            ==> op != "is"@
                && op != "isnot"@
                && op != "true"@
                && op != "false"@
                && op != "null"@
                && op != "some"@
                && op != "object"@
                && op != "list"@
                && op != "string"@
                && op != "whole"@
                && op != "positive"@
                && op != "nonempty"@,
        op == "nonempty"@
            ==> op != "is"@
                && op != "isnot"@
                && op != "true"@
                && op != "false"@
                && op != "null"@
                && op != "some"@
                && op != "object"@
                && op != "list"@
                && op != "string"@
                && op != "whole"@
                && op != "positive"@,
        op == "num"@
            ==> op != "is"@
                && op != "isnot"@
                && op != "true"@
                && op != "false"@
                && op != "null"@
                && op != "some"@
                && op != "object"@
                && op != "list"@
                && op != "string"@
                && op != "whole"@
                && op != "positive"@
                && op != "nonempty"@
                && op != "empty"@,
        op == "len"@
            ==> op != "is"@
                && op != "isnot"@
                && op != "true"@
                && op != "false"@
                && op != "null"@
                && op != "some"@
                && op != "object"@
                && op != "list"@
                && op != "string"@
                && op != "whole"@
                && op != "positive"@
                && op != "nonempty"@
                && op != "empty"@
                && op != "num"@
                && op != "below"@,
        op == "same"@
            ==> op != "is"@
                && op != "isnot"@
                && op != "true"@
                && op != "false"@
                && op != "null"@
                && op != "some"@
                && op != "object"@
                && op != "list"@
                && op != "string"@
                && op != "whole"@
                && op != "positive"@
                && op != "nonempty"@
                && op != "empty"@
                && op != "num"@
                && op != "below"@
                && op != "len"@
                && op != "keys"@,
        op == "differs"@
            ==> op != "is"@
                && op != "isnot"@
                && op != "true"@
                && op != "false"@
                && op != "null"@
                && op != "some"@
                && op != "object"@
                && op != "list"@
                && op != "string"@
                && op != "whole"@
                && op != "positive"@
                && op != "nonempty"@
                && op != "empty"@
                && op != "num"@
                && op != "below"@
                && op != "len"@
                && op != "keys"@
                && op != "same"@,
        op == "follows"@
            ==> op != "is"@
                && op != "isnot"@
                && op != "true"@
                && op != "false"@
                && op != "null"@
                && op != "some"@
                && op != "object"@
                && op != "list"@
                && op != "string"@
                && op != "whole"@
                && op != "positive"@
                && op != "nonempty"@
                && op != "empty"@
                && op != "num"@
                && op != "below"@
                && op != "len"@
                && op != "keys"@
                && op != "same"@
                && op != "differs"@
                && op != "reaches"@
                && op != "exceeds"@,
        op == "contains"@
            ==> op != "is"@
                && op != "isnot"@
                && op != "true"@
                && op != "false"@
                && op != "null"@
                && op != "some"@
                && op != "object"@
                && op != "list"@
                && op != "string"@
                && op != "whole"@
                && op != "positive"@
                && op != "nonempty"@
                && op != "empty"@
                && op != "num"@
                && op != "below"@
                && op != "len"@
                && op != "keys"@
                && op != "same"@
                && op != "differs"@
                && op != "reaches"@
                && op != "exceeds"@
                && op != "follows"@,
        op == "lacks"@
            ==> op != "is"@
                && op != "isnot"@
                && op != "true"@
                && op != "false"@
                && op != "null"@
                && op != "some"@
                && op != "object"@
                && op != "list"@
                && op != "string"@
                && op != "whole"@
                && op != "positive"@
                && op != "nonempty"@
                && op != "empty"@
                && op != "num"@
                && op != "below"@
                && op != "len"@
                && op != "keys"@
                && op != "same"@
                && op != "differs"@
                && op != "reaches"@
                && op != "exceeds"@
                && op != "follows"@
                && op != "contains"@,
        op == "positive"@
            ==> op != "is"@
                && op != "isnot"@
                && op != "true"@
                && op != "false"@
                && op != "null"@
                && op != "some"@
                && op != "object"@
                && op != "list"@
                && op != "string"@
                && op != "whole"@,
        op == "below"@
            ==> op != "is"@
                && op != "isnot"@
                && op != "true"@
                && op != "false"@
                && op != "null"@
                && op != "some"@
                && op != "object"@
                && op != "list"@
                && op != "string"@
                && op != "whole"@
                && op != "positive"@
                && op != "nonempty"@
                && op != "empty"@
                && op != "num"@,
        op == "keys"@
            ==> op != "is"@
                && op != "isnot"@
                && op != "true"@
                && op != "false"@
                && op != "null"@
                && op != "some"@
                && op != "object"@
                && op != "list"@
                && op != "string"@
                && op != "whole"@
                && op != "positive"@
                && op != "nonempty"@
                && op != "empty"@
                && op != "num"@
                && op != "below"@
                && op != "len"@,
        op == "object"@
            ==> op != "is"@
                && op != "isnot"@
                && op != "true"@
                && op != "false"@
                && op != "null"@
                && op != "some"@,
        op == "reaches"@
            ==> op != "is"@
                && op != "isnot"@
                && op != "true"@
                && op != "false"@
                && op != "null"@
                && op != "some"@
                && op != "object"@
                && op != "list"@
                && op != "string"@
                && op != "whole"@
                && op != "positive"@
                && op != "nonempty"@
                && op != "empty"@
                && op != "num"@
                && op != "below"@
                && op != "len"@
                && op != "keys"@
                && op != "same"@
                && op != "differs"@,
        op == "exceeds"@
            ==> op != "is"@
                && op != "isnot"@
                && op != "true"@
                && op != "false"@
                && op != "null"@
                && op != "some"@
                && op != "object"@
                && op != "list"@
                && op != "string"@
                && op != "whole"@
                && op != "positive"@
                && op != "nonempty"@
                && op != "empty"@
                && op != "num"@
                && op != "below"@
                && op != "len"@
                && op != "keys"@
                && op != "same"@
                && op != "differs"@
                && op != "reaches"@,
        op == "ascending"@
            ==> op != "is"@
                && op != "isnot"@
                && op != "true"@
                && op != "false"@
                && op != "null"@
                && op != "some"@
                && op != "object"@
                && op != "list"@
                && op != "string"@
                && op != "whole"@
                && op != "positive"@
                && op != "nonempty"@
                && op != "empty"@
                && op != "num"@
                && op != "below"@
                && op != "len"@
                && op != "keys"@
                && op != "same"@
                && op != "differs"@
                && op != "reaches"@
                && op != "exceeds"@
                && op != "follows"@
                && op != "contains"@
                && op != "lacks"@
                && op != "mentions"@
                && op != "omits"@
                && op != "starts"@
                && op != "ends"@
                && op != "trims"@
                && op != "member"@
                && op != "holds"@,
{
    reveal_strlit("is");
    reveal_strlit("isnot");
    reveal_strlit("true");
    reveal_strlit("false");
    reveal_strlit("null");
    reveal_strlit("some");
    reveal_strlit("object");
    reveal_strlit("list");
    reveal_strlit("string");
    reveal_strlit("whole");
    reveal_strlit("positive");
    reveal_strlit("nonempty");
    reveal_strlit("empty");
    reveal_strlit("num");
    reveal_strlit("below");
    reveal_strlit("len");
    reveal_strlit("keys");
    reveal_strlit("same");
    reveal_strlit("differs");
    reveal_strlit("reaches");
    reveal_strlit("exceeds");
    reveal_strlit("follows");
    reveal_strlit("contains");
    reveal_strlit("lacks");
    reveal_strlit("mentions");
    reveal_strlit("omits");
    reveal_strlit("starts");
    reveal_strlit("ends");
    reveal_strlit("trims");
    reveal_strlit("member");
    reveal_strlit("holds");
    reveal_strlit("ascending");
    assert("is"@.len() == 2);
    assert("isnot"@.len() == 5);
    assert("true"@.len() == 4);
    assert("false"@.len() == 5);
    assert("null"@.len() == 4);
    assert("some"@.len() == 4);
    assert("object"@.len() == 6);
    assert("list"@.len() == 4);
    assert("string"@.len() == 6);
    assert("whole"@.len() == 5);
    assert("positive"@.len() == 8);
    assert("nonempty"@.len() == 8);
    assert("empty"@.len() == 5);
    assert("num"@.len() == 3);
    assert("below"@.len() == 5);
    assert("len"@.len() == 3);
    assert("keys"@.len() == 4);
    assert("same"@.len() == 4);
    assert("differs"@.len() == 7);
    assert("reaches"@.len() == 7);
    assert("exceeds"@.len() == 7);
    assert("follows"@.len() == 7);
    assert("contains"@.len() == 8);
    assert("lacks"@.len() == 5);
    assert("mentions"@.len() == 8);
    assert("omits"@.len() == 5);
    assert("starts"@.len() == 6);
    assert("ends"@.len() == 4);
    assert("trims"@.len() == 5);
    assert("member"@.len() == 6);
    assert("holds"@.len() == 5);
    assert("ascending"@.len() == 9);
    assert("trims"@[0] != "isnot"@[0]);
    assert("trims"@[0] != "false"@[0]);
    assert("trims"@[0] != "whole"@[0]);
    assert("trims"@[0] != "empty"@[0]);
    assert("trims"@[0] != "below"@[0]);
    assert("trims"@[0] != "lacks"@[0]);
    assert("trims"@[0] != "omits"@[0]);
    assert("false"@[0] != "isnot"@[0]);
    assert("null"@[0] != "true"@[0]);
    assert("some"@[0] != "true"@[0]);
    assert("some"@[0] != "null"@[0]);
    assert("empty"@[0] != "isnot"@[0]);
    assert("empty"@[0] != "false"@[0]);
    assert("empty"@[0] != "whole"@[0]);
    assert("nonempty"@[0] != "positive"@[0]);
    assert("len"@[0] != "num"@[0]);
    assert("same"@[0] != "true"@[0]);
    assert("same"@[0] != "null"@[0]);
    assert("same"@[1] != "some"@[1]);
    assert("same"@[0] != "list"@[0]);
    assert("same"@[0] != "keys"@[0]);
    assert("follows"@[0] != "differs"@[0]);
    assert("follows"@[0] != "reaches"@[0]);
    assert("follows"@[0] != "exceeds"@[0]);
    assert("contains"@[0] != "positive"@[0]);
    assert("contains"@[0] != "nonempty"@[0]);
    assert("lacks"@[0] != "isnot"@[0]);
    assert("lacks"@[0] != "false"@[0]);
    assert("lacks"@[0] != "whole"@[0]);
    assert("lacks"@[0] != "empty"@[0]);
    assert("lacks"@[0] != "below"@[0]);
    assert("below"@[0] != "isnot"@[0]);
    assert("below"@[0] != "false"@[0]);
    assert("below"@[0] != "whole"@[0]);
    assert("below"@[0] != "empty"@[0]);
    assert("keys"@[0] != "true"@[0]);
    assert("keys"@[0] != "null"@[0]);
    assert("keys"@[0] != "some"@[0]);
    assert("keys"@[0] != "list"@[0]);
    assert("reaches"@[0] != "differs"@[0]);
    assert("exceeds"@[0] != "differs"@[0]);
    assert("exceeds"@[0] != "reaches"@[0]);
}

/// The number that one digit denotes.
pub proof fn lemma_one_digit(s: Seq<char>)
    requires
        s.len() == 1,
        '0' <= s[0] <= '9',
    ensures
        number_of(s) == Some((s[0] as int - 48) as u64),
{
    reveal_with_fuel(crate::text::digits_value, 2);
    assert(s.drop_last() =~= seq![]);
    assert(s.last() == s[0]);
}

/// The number that three digits denote.
pub proof fn lemma_three_digits(s: Seq<char>)
    requires
        s.len() == 3,
        forall|i: int| 0 <= i < 3 ==> '0' <= #[trigger] s[i] <= '9',
    ensures
        number_of(s) == Some(
            ((s[0] as int - 48) * 100 + (s[1] as int - 48) * 10 + (s[2] as int - 48)) as u64,
        ),
{
    reveal_with_fuel(crate::text::digits_value, 4);
    let two = s.drop_last();
    let one = two.drop_last();
    assert(one.drop_last() =~= seq![]);
    assert(s.last() == s[2]);
    assert(two.last() == s[1]);
    assert(one.last() == s[0]);
}

/// The elements of a value that is a list.
pub open spec fn items_of(t: Tree) -> Seq<Tree> {
    match t {
        Tree::List(l) => l,
        _ => seq![],
    }
}

/// Whether a value is a text that contains a part.
pub open spec fn text_has(t: Tree, part: Seq<char>) -> bool {
    t matches Tree::Text(s) && occurs(s, part)
}

/// Whether a value is a text that does not contain a part.
pub open spec fn text_lacks(t: Tree, part: Seq<char>) -> bool {
    t matches Tree::Text(s) && !occurs(s, part)
}

/// The words of a text of two.
pub proof fn lemma_two_words(a: Seq<char>, b: Seq<char>, text: Seq<char>)
    requires
        a.len() > 0,
        forall|i: int| 0 <= i < a.len() ==> a[i] != ' ',
        forall|i: int| 0 <= i < b.len() ==> b[i] != ' ',
        text == a + seq![' '] + b,
    ensures
        parts(text) == seq![a, b],
{
    lemma_split_first(a, b, text);
    lemma_position(b, ' ', 0);
    assert(position(b, ' ', 0) == b.len());
    assert(b.subrange(0, b.len() as int) =~= b);
    assert(split_at_char(b, ' ') =~= seq![b]);
    assert(parts(text) =~= seq![a, b]);
}

/// A word before the words of a text.
pub proof fn lemma_four_words(a: Seq<char>, rest: Seq<char>, text: Seq<char>)
    requires
        a.len() > 0,
        forall|i: int| 0 <= i < a.len() ==> a[i] != ' ',
        rest.len() > 0,
        text == a + seq![' '] + rest,
    ensures
        parts(text) == seq![a] + parts(rest),
{
    lemma_split_first(a, rest, text);
}

/// How far the conditions behind a repeated action reach.
proof fn lemma_until_reach(statements: Seq<StatementView>, from: int, to: int)
    requires
        0 <= from <= to < statements.len(),
        forall|j: int| from <= j <= to ==> (#[trigger] statements[j]).op == "until"@,
    ensures
        until_end(statements, from) > to,
    decreases to - from,
{
    if from < to {
        lemma_until_reach(statements, from + 1, to);
    } else {
        reveal_with_fuel(until_end, 2);
        lemma_end_grows(statements, from + 1);
    }
}

proof fn lemma_end_grows(statements: Seq<StatementView>, from: int)
    requires
        0 <= from <= statements.len(),
    ensures
        until_end(statements, from) >= from,
    decreases statements.len() - from,
{
    if from < statements.len() && statements[from].op == "until"@ {
        lemma_end_grows(statements, from + 1);
    }
}

/// Alternatives hold where the first or the second does.
pub proof fn lemma_either(first: Seq<Seq<char>>, second: Seq<Seq<char>>, env: Tree)
    requires
        forall|i: int| 0 <= i < first.len() ==> first[i] != "or"@,
        forall|i: int| 0 <= i < second.len() ==> second[i] != "or"@,
    ensures
        holds(first + seq!["or"@] + second, env) == Some(true) ==> judged(first, env) == Some(true)
            || judged(second, env) == Some(true),
{
    let words = first + seq!["or"@] + second;
    let n = first.len() as int;
    lemma_mark(words, "or"@, 0, n);
    lemma_no_mark(words, "or"@, n + 1);
    assert(words.subrange(0, n) =~= first);
    assert(words.subrange(n + 1, words.len() as int) =~= second);
    reveal_with_fuel(holds_from, 3);
}

proof fn lemma_mark(words: Seq<Seq<char>>, mark: Seq<char>, from: int, n: int)
    requires
        0 <= from <= n < words.len(),
        words[n] == mark,
        forall|i: int| from <= i < n ==> words[i] != mark,
    ensures
        next_mark(words, mark, from) == n,
    decreases n - from,
{
    if from < n {
        lemma_mark(words, mark, from + 1, n);
    }
}

proof fn lemma_no_mark(words: Seq<Seq<char>>, mark: Seq<char>, from: int)
    requires
        0 <= from <= words.len(),
        forall|i: int| from <= i < words.len() ==> words[i] != mark,
    ensures
        next_mark(words, mark, from) == words.len(),
    decreases words.len() - from,
{
    if from < words.len() {
        lemma_no_mark(words, mark, from + 1);
    }
}

/// A repeated action ended with the required text in its answer.
pub proof fn awaited_text(
    lines: Seq<Line>,
    known: Tree,
    answers: Seq<(Tree, bool)>,
    record: Seq<Tree>,
    m: int,
    u: int,
    path: Seq<char>,
    value: Seq<char>,
)
    requires
        place(lines, known, answers, record, m),
        lines[m].0@ == "wait"@ || lines[m].0@ == "watch"@ || lines[m].0@ == "poll"@,
        lines[m].1@.len() > 0,
        forall|i: int| 0 <= i < lines[m].1@.len() ==> lines[m].1@[i] != ',',
        lines[m].1@ != "reply"@,
        m < u < lines.len(),
        forall|j: int| m < j <= u ==> (#[trigger] lines[j]).0@ == "until"@,
        parts(lines[u].2@) == seq!["is"@, path, value],
        path != "or"@,
        value != "or"@,
    ensures
        at(record[m + 1], path) == Tree::Text(value),
{
    was_awaited(lines, known, answers, record, m);
    let statements = script_statements(lines);
    assert forall|j: int| m + 1 <= j <= u implies (#[trigger] statements[j]).op == "until"@ by {
        assert(lines[j].0@ == "until"@);
    }
    lemma_until_reach(statements, m + 1, u);
    assert(until_met(parts(statements[u].rest), record[m + 1]));
    lemma_checks("is"@);
    let words = seq!["is"@, path, value];
    reveal(truth_of);
    lemma_plain("is"@);
    reveal_strlit("is");
    assert("is"@.len() == 2);
    reveal_strlit("or");
    assert("or"@[0] != "is"@[0]);
    lemma_no_mark(words, "or"@, 0);
    assert(words.subrange(0, 3) =~= words);
    assert(words.skip(2) =~= seq![value]);
    lemma_joined_one(value);
    reveal_with_fuel(holds_from, 2);
}

/// The truth of a condition in words.
pub proof fn lemma_judged_null(path: Seq<char>, env: Tree)
    ensures
        judged(seq!["null"@, path], env) == Some(at(env, path) == Tree::Null),
{
    reveal(truth_of);
    lemma_plain("null"@);
    lemma_truths("null"@);
    reveal_with_fuel(joined_with, 2);
    assert(seq!["null"@, path].skip(2) =~= seq![]);
}

/// The truth of a condition in words.
pub proof fn lemma_judged_some(path: Seq<char>, env: Tree)
    ensures
        judged(seq!["some"@, path], env) == Some(at(env, path) != Tree::Null),
{
    reveal(truth_of);
    lemma_plain("some"@);
    lemma_truths("some"@);
    reveal_with_fuel(joined_with, 2);
    assert(seq!["some"@, path].skip(2) =~= seq![]);
}

/// The truth of a condition in words.
pub proof fn lemma_judged_is(path: Seq<char>, value: Seq<char>, env: Tree)
    ensures
        judged(seq!["is"@, path, value], env) == Some(at(env, path) == Tree::Text(value)),
{
    reveal(truth_of);
    lemma_plain("is"@);
    lemma_truths("is"@);
    reveal_with_fuel(joined_with, 2);
    assert(seq!["is"@, path, value].skip(2) =~= seq![value]);
    lemma_joined_one(value);
}

/// The truth of a condition in words.
pub proof fn lemma_judged_isnot(path: Seq<char>, value: Seq<char>, env: Tree)
    ensures
        judged(seq!["isnot"@, path, value], env) == Some(at(env, path) != Tree::Text(value)),
{
    reveal(truth_of);
    lemma_plain("isnot"@);
    lemma_truths("isnot"@);
    reveal_with_fuel(joined_with, 2);
    assert(seq!["isnot"@, path, value].skip(2) =~= seq![value]);
    lemma_joined_one(value);
}

/// The truth of a condition in words.
pub proof fn lemma_judged_differs(path: Seq<char>, value: Seq<char>, env: Tree)
    ensures
        judged(seq!["differs"@, path, value], env) == Some(at(env, path) != at(env, value)),
{
    reveal(truth_of);
    lemma_plain("differs"@);
    lemma_truths("differs"@);
    reveal_with_fuel(joined_with, 2);
    assert(seq!["differs"@, path, value].skip(2) =~= seq![value]);
    lemma_joined_one(value);
}

/// The truth of a condition in words.
pub proof fn lemma_judged_keys(path: Seq<char>, value: Seq<char>, n: u64, env: Tree)
    requires
        number_of(value) == Some(n),
    ensures
        judged(seq!["keys"@, path, value], env)
            == Some(at(env, path) is Object && key_count(at(env, path)) == n),
{
    reveal(truth_of);
    lemma_plain("keys"@);
    lemma_truths("keys"@);
    reveal_with_fuel(joined_with, 2);
    assert(seq!["keys"@, path, value].skip(2) =~= seq![value]);
    lemma_joined_one(value);
}

/// The truth of a condition in words.
pub proof fn lemma_judged_num(path: Seq<char>, value: Seq<char>, n: u64, env: Tree)
    requires
        number_of(value) == Some(n),
    ensures
        judged(seq!["num"@, path, value], env) == Some(at(env, path) == Tree::Integer(n as int)),
{
    reveal(truth_of);
    lemma_plain("num"@);
    lemma_truths("num"@);
    reveal_with_fuel(joined_with, 2);
    assert(seq!["num"@, path, value].skip(2) =~= seq![value]);
    lemma_joined_one(value);
}

/// The truth of a condition in words.
pub proof fn lemma_judged_len(path: Seq<char>, value: Seq<char>, n: u64, env: Tree)
    requires
        number_of(value) == Some(n),
    ensures
        judged(seq!["len"@, path, value], env)
            == Some(at(env, path) matches Tree::List(l) && l.len() == n),
{
    reveal(truth_of);
    lemma_plain("len"@);
    lemma_truths("len"@);
    reveal_with_fuel(joined_with, 2);
    assert(seq!["len"@, path, value].skip(2) =~= seq![value]);
    lemma_joined_one(value);
}

/// The truth of a condition in words.
pub proof fn lemma_judged_true(path: Seq<char>, env: Tree)
    ensures
        judged(seq!["true"@, path], env) == Some(at(env, path) == Tree::Bool(true)),
{
    reveal(truth_of);
    lemma_plain("true"@);
    lemma_truths("true"@);
    reveal_with_fuel(joined_with, 2);
    assert(seq!["true"@, path].skip(2) =~= seq![]);
}

/// The truth of a condition in words.
pub proof fn lemma_judged_trims(path: Seq<char>, value: Seq<char>, env: Tree)
    ensures
        judged(seq!["trims"@, path, value], env)
            == Some(at(env, path) matches Tree::Text(s) && trimmed(s) == value),
{
    reveal(truth_of);
    lemma_plain("trims"@);
    lemma_truths("trims"@);
    reveal_with_fuel(joined_with, 2);
    assert(seq!["trims"@, path, value].skip(2) =~= seq![value]);
    lemma_joined_one(value);
}

/// The first or the second of two alternatives held.
pub proof fn saw_either(
    lines: Seq<Line>,
    known: Tree,
    answers: Seq<(Tree, bool)>,
    record: Seq<Tree>,
    m: int,
    first: Seq<Seq<char>>,
    second: Seq<Seq<char>>,
)
    requires
        place(lines, known, answers, record, m),
        lines[m].0@ == "either"@,
        parts(lines[m].2@) == first + seq!["or"@] + second,
        forall|i: int| 0 <= i < first.len() ==> first[i] != "or"@,
        forall|i: int| 0 <= i < second.len() ==> second[i] != "or"@,
    ensures
        judged(first, record[m]) == Some(true) || judged(second, record[m]) == Some(true),
        record[m + 1] == record[m],
{
    lemma_place(lines, known, answers, record, m);
    reveal(effect_of);
    reveal(plain_effect);
    lemma_checks(lines[m].0@);
    reveal_strlit("either");
    assert("either"@.len() == 6);
    reveal_strlit("refused");
    assert("refused"@.len() == 7);
    reveal_strlit("error");
    assert("error"@.len() == 5);
    reveal_strlit("typed");
    assert("typed"@.len() == 5);
    lemma_either(first, second, record[m]);
}

/// A checked value was absent or the required number.
pub proof fn saw_null_or_num(
    lines: Seq<Line>,
    known: Tree,
    answers: Seq<(Tree, bool)>,
    record: Seq<Tree>,
    m: int,
    path: Seq<char>,
    value: Seq<char>,
    n: u64,
)
    requires
        place(lines, known, answers, record, m),
        lines[m].0@ == "either"@,
        parts(lines[m].2@) == seq!["null"@, path] + seq!["or"@] + seq!["num"@, path, value],
        path != "or"@,
        value != "or"@,
        number_of(value) == Some(n),
    ensures
        at(record[m], path) == Tree::Null || at(record[m], path) == Tree::Integer(n as int),
        record[m + 1] == record[m],
{
    reveal_strlit("or");
    assert("or"@.len() == 2);
    reveal_strlit("null");
    assert("null"@.len() == 4);
    reveal_strlit("num");
    assert("num"@.len() == 3);
    reveal_strlit("len");
    assert("len"@.len() == 3);
    reveal_strlit("true");
    assert("true"@.len() == 4);
    reveal_strlit("trims");
    assert("trims"@.len() == 5);
    saw_either(lines, known, answers, record, m, seq!["null"@, path], seq!["num"@, path, value]);
    lemma_judged_null(path, record[m]);
    lemma_judged_num(path, value, n, record[m]);
}

/// A checked value was absent or a list of the required length.
pub proof fn saw_null_or_len(
    lines: Seq<Line>,
    known: Tree,
    answers: Seq<(Tree, bool)>,
    record: Seq<Tree>,
    m: int,
    path: Seq<char>,
    value: Seq<char>,
    n: u64,
)
    requires
        place(lines, known, answers, record, m),
        lines[m].0@ == "either"@,
        parts(lines[m].2@) == seq!["null"@, path] + seq!["or"@] + seq!["len"@, path, value],
        path != "or"@,
        value != "or"@,
        number_of(value) == Some(n),
    ensures
        at(record[m], path) == Tree::Null || items_of(at(record[m], path)).len() == n,
        record[m + 1] == record[m],
{
    reveal_strlit("or");
    assert("or"@.len() == 2);
    reveal_strlit("null");
    assert("null"@.len() == 4);
    reveal_strlit("num");
    assert("num"@.len() == 3);
    reveal_strlit("len");
    assert("len"@.len() == 3);
    reveal_strlit("true");
    assert("true"@.len() == 4);
    reveal_strlit("trims");
    assert("trims"@.len() == 5);
    saw_either(lines, known, answers, record, m, seq!["null"@, path], seq!["len"@, path, value]);
    lemma_judged_null(path, record[m]);
    lemma_judged_len(path, value, n, record[m]);
}

/// A checked flag was set, or a checked text was the required one but for white space around it.
pub proof fn saw_true_or_trimmed(
    lines: Seq<Line>,
    known: Tree,
    answers: Seq<(Tree, bool)>,
    record: Seq<Tree>,
    m: int,
    flag: Seq<char>,
    path: Seq<char>,
    value: Seq<char>,
)
    requires
        place(lines, known, answers, record, m),
        lines[m].0@ == "either"@,
        parts(lines[m].2@) == seq!["true"@, flag] + seq!["or"@] + seq!["trims"@, path, value],
        flag != "or"@,
        path != "or"@,
        value != "or"@,
    ensures
        at(record[m], flag) == Tree::Bool(true) || (at(record[m], path) matches Tree::Text(s)
            && trimmed(s) == value),
        record[m + 1] == record[m],
{
    reveal_strlit("or");
    assert("or"@.len() == 2);
    reveal_strlit("null");
    assert("null"@.len() == 4);
    reveal_strlit("num");
    assert("num"@.len() == 3);
    reveal_strlit("len");
    assert("len"@.len() == 3);
    reveal_strlit("true");
    assert("true"@.len() == 4);
    reveal_strlit("trims");
    assert("trims"@.len() == 5);
    saw_either(lines, known, answers, record, m, seq!["true"@, flag], seq!["trims"@, path, value]);
    lemma_judged_true(flag, record[m]);
    lemma_judged_trims(path, value, record[m]);
}

/// Whether a value is a text that is a given one but for white space around it.
pub open spec fn text_trims(t: Tree, value: Seq<char>) -> bool {
    t matches Tree::Text(s) && trimmed(s) == value
}

/// The words of a text of one.
pub proof fn lemma_one_word(text: Seq<char>)
    requires
        text.len() > 0,
        forall|i: int| 0 <= i < text.len() ==> text[i] != ' ',
    ensures
        parts(text) == seq![text],
{
    lemma_position(text, ' ', 0);
    assert(position(text, ' ', 0) == text.len());
    assert(text.subrange(0, text.len() as int) =~= text);
    assert(parts(text) =~= seq![text]);
}

/// What a range of statements that check, or are about something else, leaves under a key.
pub proof fn stays_through(
    lines: Seq<Line>,
    known: Tree,
    answers: Seq<(Tree, bool)>,
    record: Seq<Tree>,
    from: int,
    to: int,
    key: Seq<char>,
)
    requires
        passed(lines, known, answers, record),
        0 <= from <= to <= lines.len(),
        key.len() > 0,
        forall|i: int| 0 <= i < key.len() ==> key[i] != ',',
        key != "reply"@,
        forall|j: int|
            from <= j < to ==> is_check((#[trigger] lines[j]).0@) || !touches(lines[j].1@, key),
    ensures
        at(record[to], key) == at(record[from], key),
    decreases to - from,
{
    if from < to {
        stays_through(lines, known, answers, record, from, to - 1, key);
        let last = lines[to - 1];
        if is_check(last.0@) {
            unchanged(lines, known, answers, record, to - 1);
        } else {
            stays(lines, known, answers, record, to - 1, key);
        }
    }
}

proof fn lemma_prefix_end(a: Seq<StatementView>, b: Seq<StatementView>, from: int)
    requires
        0 <= from <= a.len(),
    ensures
        until_end(a, from) <= until_end(a + b, from),
    decreases a.len() - from,
{
    if from < a.len() {
        assert((a + b)[from] == a[from]);
        if a[from].op == "until"@ {
            lemma_prefix_end(a, b, from + 1);
        }
    } else {
        lemma_end_grows(a + b, from);
    }
}

/// The record of a script holds the record of each script that it begins with.
pub proof fn beginnings_pass(
    first: Seq<Line>,
    second: Seq<Line>,
    known: Tree,
    answers: Seq<(Tree, bool)>,
    record: Seq<Tree>,
)
    requires
        passed(first + second, known, answers, record),
    ensures
        passed(first, known, answers, record.take(first.len() as int + 1)),
{
    let a = script_statements(first);
    let b = script_statements(second);
    let all = script_statements(first + second);
    assert(all =~= a + b);
    let part = record.take(first.len() as int + 1);
    assert forall|i: int| 0 <= i < part.len() - 1 implies #[trigger] crossed(
        a,
        answers,
        i,
        part[i],
        part[i + 1],
    ) by {
        assert(crossed(all, answers, i, record[i], record[i + 1]));
        assert(all[i] == a[i]);
        lemma_prefix_end(a, b, i + 1);
        if until_holds(all, i + 1, part[i + 1]) {
            assert forall|j: int| i + 1 <= j < until_end(a, i + 1) implies until_met(
                parts((#[trigger] a[j]).rest),
                part[i + 1],
            ) by {
                lemma_end_within(a, i + 1);
                assert(all[j] == a[j]);
            }
        }
    }
}

proof fn lemma_end_within(statements: Seq<StatementView>, from: int)
    requires
        0 <= from <= statements.len(),
    ensures
        until_end(statements, from) <= statements.len(),
    decreases statements.len() - from,
{
    if from < statements.len() && statements[from].op == "until"@ {
        lemma_end_within(statements, from + 1);
    }
}

/// A maker's statement keeps what the maker gave.
pub proof fn was_made(
    lines: Seq<Line>,
    known: Tree,
    answers: Seq<(Tree, bool)>,
    record: Seq<Tree>,
    m: int,
)
    requires
        place(lines, known, answers, record, m),
        lines[m].0@ == "make"@,
        lines[m].1@.len() > 0,
        forall|i: int| 0 <= i < lines[m].1@.len() ==> lines[m].1@[i] != ',',
    ensures
        made_by(parts(lines[m].2@), record[m]) == Ok::<Tree, Seq<char>>(
            at(record[m + 1], lines[m].1@),
        ),
{
    lemma_place(lines, known, answers, record, m);
    reveal(effect_of);
    reveal_strlit("make");
    assert("make"@.len() == 4);
    reveal_strlit("until");
    assert("until"@.len() == 5);
    keys_are_found(record[m + 1], lines[m].1@);
}

/// A condition behind a repeated action leaves everything as it was.
pub proof fn was_passed_over(
    lines: Seq<Line>,
    known: Tree,
    answers: Seq<(Tree, bool)>,
    record: Seq<Tree>,
    m: int,
)
    requires
        place(lines, known, answers, record, m),
        lines[m].0@ == "until"@,
    ensures
        record[m + 1] == record[m],
{
    lemma_place(lines, known, answers, record, m);
}

/// Whether a value is a text that contains another text.
pub open spec fn text_with(t: Tree, part: Tree) -> bool {
    match (t, part) {
        (Tree::Text(s), Tree::Text(p)) => occurs(s, p),
        _ => false,
    }
}

/// Whether a value is a text that does not contain another text.
pub open spec fn text_without(t: Tree, part: Tree) -> bool {
    match (t, part) {
        (Tree::Text(s), Tree::Text(p)) => !occurs(s, p),
        _ => false,
    }
}

/// A checked text contained the required text.
pub proof fn saw_mentions(
    lines: Seq<Line>,
    known: Tree,
    answers: Seq<(Tree, bool)>,
    record: Seq<Tree>,
    m: int,
)
    requires
        place(lines, known, answers, record, m),
        lines[m].0@ == "mentions"@,
    ensures
        text_with(at(record[m], lines[m].1@), at(record[m], lines[m].2@)),
        record[m + 1] == record[m],
{
    lemma_place(lines, known, answers, record, m);
    reveal(effect_of);
    reveal(plain_effect);
    reveal(truth_of);
    lemma_checks(lines[m].0@);
    reveal_strlit("mentions");
    assert("mentions"@.len() == 8);
    reveal_strlit("matching");
    assert("matching"@.len() == 8);
    assert("matching"@[1] != "mentions"@[1]);
    reveal_strlit("each");
    assert("each"@.len() == 4);
    reveal_strlit("any");
    assert("any"@.len() == 3);
    reveal_strlit("none");
    assert("none"@.len() == 4);
    reveal_strlit("where");
    assert("where"@.len() == 5);
    reveal_strlit("either");
    assert("either"@.len() == 6);
    reveal_strlit("typed");
    assert("typed"@.len() == 5);
    reveal_strlit("error");
    assert("error"@.len() == 5);
    reveal_strlit("refused");
    assert("refused"@.len() == 7);
    reveal_strlit("is");
    assert("is"@.len() == 2);
    reveal_strlit("isnot");
    assert("isnot"@.len() == 5);
    reveal_strlit("true");
    assert("true"@.len() == 4);
    reveal_strlit("false");
    assert("false"@.len() == 5);
    reveal_strlit("null");
    assert("null"@.len() == 4);
    reveal_strlit("some");
    assert("some"@.len() == 4);
    reveal_strlit("object");
    assert("object"@.len() == 6);
    reveal_strlit("list");
    assert("list"@.len() == 4);
    reveal_strlit("string");
    assert("string"@.len() == 6);
    reveal_strlit("whole");
    assert("whole"@.len() == 5);
    reveal_strlit("positive");
    assert("positive"@.len() == 8);
    assert("positive"@[0] != "mentions"@[0]);
    reveal_strlit("nonempty");
    assert("nonempty"@.len() == 8);
    assert("nonempty"@[0] != "mentions"@[0]);
    reveal_strlit("empty");
    assert("empty"@.len() == 5);
    reveal_strlit("num");
    assert("num"@.len() == 3);
    reveal_strlit("below");
    assert("below"@.len() == 5);
    reveal_strlit("len");
    assert("len"@.len() == 3);
    reveal_strlit("keys");
    assert("keys"@.len() == 4);
    reveal_strlit("same");
    assert("same"@.len() == 4);
    reveal_strlit("differs");
    assert("differs"@.len() == 7);
    reveal_strlit("reaches");
    assert("reaches"@.len() == 7);
    reveal_strlit("exceeds");
    assert("exceeds"@.len() == 7);
    reveal_strlit("follows");
    assert("follows"@.len() == 7);
    reveal_strlit("contains");
    assert("contains"@.len() == 8);
    assert("contains"@[0] != "mentions"@[0]);
    reveal_strlit("lacks");
    assert("lacks"@.len() == 5);
}

/// A checked text did not contain the excluded text.
pub proof fn saw_omits(
    lines: Seq<Line>,
    known: Tree,
    answers: Seq<(Tree, bool)>,
    record: Seq<Tree>,
    m: int,
)
    requires
        place(lines, known, answers, record, m),
        lines[m].0@ == "omits"@,
    ensures
        text_without(at(record[m], lines[m].1@), at(record[m], lines[m].2@)),
        record[m + 1] == record[m],
{
    lemma_place(lines, known, answers, record, m);
    reveal(effect_of);
    reveal(plain_effect);
    reveal(truth_of);
    lemma_checks(lines[m].0@);
    reveal_strlit("omits");
    assert("omits"@.len() == 5);
    reveal_strlit("matching");
    assert("matching"@.len() == 8);
    reveal_strlit("each");
    assert("each"@.len() == 4);
    reveal_strlit("any");
    assert("any"@.len() == 3);
    reveal_strlit("none");
    assert("none"@.len() == 4);
    reveal_strlit("where");
    assert("where"@.len() == 5);
    assert("where"@[0] != "omits"@[0]);
    reveal_strlit("either");
    assert("either"@.len() == 6);
    reveal_strlit("typed");
    assert("typed"@.len() == 5);
    assert("typed"@[0] != "omits"@[0]);
    reveal_strlit("error");
    assert("error"@.len() == 5);
    assert("error"@[0] != "omits"@[0]);
    reveal_strlit("refused");
    assert("refused"@.len() == 7);
    reveal_strlit("is");
    assert("is"@.len() == 2);
    reveal_strlit("isnot");
    assert("isnot"@.len() == 5);
    assert("isnot"@[0] != "omits"@[0]);
    reveal_strlit("true");
    assert("true"@.len() == 4);
    reveal_strlit("false");
    assert("false"@.len() == 5);
    assert("false"@[0] != "omits"@[0]);
    reveal_strlit("null");
    assert("null"@.len() == 4);
    reveal_strlit("some");
    assert("some"@.len() == 4);
    reveal_strlit("object");
    assert("object"@.len() == 6);
    reveal_strlit("list");
    assert("list"@.len() == 4);
    reveal_strlit("string");
    assert("string"@.len() == 6);
    reveal_strlit("whole");
    assert("whole"@.len() == 5);
    assert("whole"@[0] != "omits"@[0]);
    reveal_strlit("positive");
    assert("positive"@.len() == 8);
    reveal_strlit("nonempty");
    assert("nonempty"@.len() == 8);
    reveal_strlit("empty");
    assert("empty"@.len() == 5);
    assert("empty"@[0] != "omits"@[0]);
    reveal_strlit("num");
    assert("num"@.len() == 3);
    reveal_strlit("below");
    assert("below"@.len() == 5);
    assert("below"@[0] != "omits"@[0]);
    reveal_strlit("len");
    assert("len"@.len() == 3);
    reveal_strlit("keys");
    assert("keys"@.len() == 4);
    reveal_strlit("same");
    assert("same"@.len() == 4);
    reveal_strlit("differs");
    assert("differs"@.len() == 7);
    reveal_strlit("reaches");
    assert("reaches"@.len() == 7);
    reveal_strlit("exceeds");
    assert("exceeds"@.len() == 7);
    reveal_strlit("follows");
    assert("follows"@.len() == 7);
    reveal_strlit("contains");
    assert("contains"@.len() == 8);
    reveal_strlit("lacks");
    assert("lacks"@.len() == 5);
    assert("lacks"@[0] != "omits"@[0]);
    reveal_strlit("mentions");
    assert("mentions"@.len() == 8);
}

/// A client command failed in the very way that was required, on standard error.
pub proof fn saw_typed(
    lines: Seq<Line>,
    known: Tree,
    answers: Seq<(Tree, bool)>,
    record: Seq<Tree>,
    m: int,
    words: Seq<Seq<char>>,
)
    requires
        place(lines, known, answers, record, m),
        lines[m].0@ == "typed"@,
        lines[m].1@.len() == 1,
        '0' <= lines[m].1@[0] <= '9',
        parts(lines[m].2@) == words,
        1 <= words.len() <= 2,
    ensures
        typed_problem(
            reply_diagnostic(at(record[m], "reply"@)),
            (lines[m].1@[0] as int - 48) as i32,
            words[0],
            if words.len() == 2 {
                Some(words[1])
            } else {
                None
            },
        ) is None,
        record[m + 1] == record[m],
{
    lemma_place(lines, known, answers, record, m);
    reveal(effect_of);
    reveal(plain_effect);
    lemma_checks(lines[m].0@);
    reveal_strlit("typed");
    assert("typed"@.len() == 5);
    reveal_strlit("refused");
    assert("refused"@.len() == 7);
    reveal_strlit("error");
    assert("error"@.len() == 5);
    assert("error"@[0] != "typed"@[0]);
    let s = lines[m].1@;
    reveal_with_fuel(crate::text::digits_value, 2);
    assert(s.drop_last() =~= seq![]);
    assert(s.last() == s[0]);
    assert(crate::text::unsigned(s, 255) == Some((s[0] as int - 48) as nat));
}

/// A check of a flag that is not set fails with the text that its message names.
pub proof fn lemma_named_failure(s: StatementView, env: Tree)
    requires
        s.op == "true"@,
        s.message == "$failure"@,
        at(env, s.subject) == Tree::Bool(false),
        at(env, "failure"@) is Text,
    ensures
        effect_of(s, env) == (EffectView::Fail { message: at(env, "failure"@)->Text_0 }),
{
    reveal(effect_of);
    reveal(plain_effect);
    reveal(truth_of);
    lemma_checks(s.op);
    lemma_plain(s.op);
    lemma_truths(s.op);
    reveal_strlit("true");
    reveal_strlit("each");
    assert("true"@[0] != "each"@[0]);
    reveal_strlit("$failure");
    reveal_strlit("failure");
    lemma_one_word(s.message);
    assert(s.message.skip(1) =~= "failure"@);
    let words = split_at_char(s.message, ' ');
    assert(words =~= seq![s.message]);
    assert(spoken_words(words, env) =~= seq![at(env, "failure"@)->Text_0]);
}

/// The first two elements of a list stand at their positions.
pub proof fn lemma_elements(t: Tree)
    requires
        items_of(t).len() == 2,
    ensures
        at(t, "#0"@) == items_of(t)[0],
        at(t, "#1"@) == items_of(t)[1],
{
    reveal_strlit("#0");
    reveal_strlit("#1");
    lemma_single_segment("#0"@);
    lemma_single_segment("#1"@);
    reveal_strlit("0");
    reveal_strlit("1");
    assert("#0"@.skip(1) =~= "0"@);
    assert("#1"@.skip(1) =~= "1"@);
    lemma_one_digit("0"@);
    lemma_one_digit("1"@);
    reveal(found);
    reveal_with_fuel(crate::json::walked, 3);
    assert(segments("#0"@).skip(1) =~= seq![]);
    assert(segments("#1"@).skip(1) =~= seq![]);
    assert(number_of("0"@) == Some(0u64));
    assert(number_of("1"@) == Some(1u64));
}

/// A document that is built is a scenario that finished without an answer.
pub proof fn built_documents_finish(lines: Seq<Line>, known: Tree)
    requires
        listed_document(lines, known) is Ok,
    ensures
        finished(lines, known, seq![]),
        listed_document(lines, known) == Ok::<Tree, Seq<char>>(
            at(played(opening(lines, known), seq![]).0.env, "document"@),
        ),
{
    written_documents_run(opening(lines, known));
}

proof fn lemma_shifted_end(a: Seq<StatementView>, b: Seq<StatementView>, from: int)
    requires
        0 <= from <= b.len(),
    ensures
        until_end(a + b, a.len() + from) == a.len() + until_end(b, from),
    decreases b.len() - from,
{
    if from < b.len() {
        assert((a + b)[a.len() + from] == b[from]);
        if b[from].op == "until"@ {
            lemma_shifted_end(a, b, from + 1);
        }
    }
}

/// The record of a script holds the record of each script that it ends with.
pub proof fn endings_pass(
    first: Seq<Line>,
    second: Seq<Line>,
    known: Tree,
    answers: Seq<(Tree, bool)>,
    record: Seq<Tree>,
)
    requires
        passed(first + second, known, answers, record),
    ensures
        passed(second, record[first.len() as int], answers, record.skip(first.len() as int)),
{
    let a = script_statements(first);
    let b = script_statements(second);
    let all = script_statements(first + second);
    let n = first.len() as int;
    assert(all =~= a + b);
    let part = record.skip(n);
    assert forall|i: int| 0 <= i < part.len() - 1 implies #[trigger] crossed(
        b,
        answers,
        i,
        part[i],
        part[i + 1],
    ) by {
        assert(crossed(all, answers, n + i, record[n + i], record[n + i + 1]));
        assert(all[n + i] == b[i]);
        lemma_shifted_end(a, b, i + 1);
        if until_holds(all, n + i + 1, part[i + 1]) {
            assert forall|j: int| i + 1 <= j < until_end(b, i + 1) implies until_met(
                parts((#[trigger] b[j]).rest),
                part[i + 1],
            ) by {
                lemma_end_within(b, i + 1);
                assert(all[n + j] == b[j]);
            }
        }
    }
}

/// A repeated action ended where the conditions behind it held.
pub proof fn awaited_condition(
    lines: Seq<Line>,
    known: Tree,
    answers: Seq<(Tree, bool)>,
    record: Seq<Tree>,
    m: int,
    u: int,
)
    requires
        place(lines, known, answers, record, m),
        lines[m].0@ == "wait"@ || lines[m].0@ == "watch"@ || lines[m].0@ == "poll"@,
        lines[m].1@.len() > 0,
        forall|i: int| 0 <= i < lines[m].1@.len() ==> lines[m].1@[i] != ',',
        lines[m].1@ != "reply"@,
        m < u < lines.len(),
        forall|j: int| m < j <= u ==> (#[trigger] lines[j]).0@ == "until"@,
    ensures
        parts(lines[u].2@).len() > 0 && is_check(parts(lines[u].2@)[0]) ==> holds(
            parts(lines[u].2@),
            record[m + 1],
        ) == Some(true),
        until_met(parts(lines[u].2@), record[m + 1]),
{
    was_awaited(lines, known, answers, record, m);
    let statements = script_statements(lines);
    assert forall|j: int| m + 1 <= j <= u implies (#[trigger] statements[j]).op == "until"@ by {
        assert(lines[j].0@ == "until"@);
    }
    lemma_until_reach(statements, m + 1, u);
    assert(until_met(parts(statements[u].rest), record[m + 1]));
    if parts(lines[u].2@).len() > 0 && is_check(parts(lines[u].2@)[0]) {
        lemma_checks(parts(lines[u].2@)[0]);
    }
}

/// A condition without alternatives.
pub proof fn lemma_no_alternatives(words: Seq<Seq<char>>, env: Tree)
    requires
        words.len() > 0,
        forall|i: int| 0 <= i < words.len() ==> words[i] != "or"@,
    ensures
        holds(words, env) == judged(words, env),
{
    lemma_no_mark(words, "or"@, 0);
    assert(words.subrange(0, words.len() as int) =~= words);
    reveal_with_fuel(holds_from, 2);
}

/// The truth of a condition on the first element with a text at a field.
pub proof fn lemma_judged_where(
    path: Seq<char>,
    field: Seq<char>,
    value: Seq<char>,
    rest: Seq<Seq<char>>,
    env: Tree,
)
    requires
        rest.len() >= 2,
    ensures
        judged(seq!["where"@, path, field, value] + rest, env) == (match element_with(
            items(env, path),
            field,
            Tree::Text(value),
        ) {
            Some(t) => element_meets(rest, t, 0),
            None => Some(false),
        }),
{
    reveal_strlit("where");
    assert("where"@.len() == 5);
    reveal_strlit("matching");
    assert("matching"@.len() == 8);
    reveal_strlit("each");
    assert("each"@.len() == 4);
    reveal_strlit("any");
    assert("any"@.len() == 3);
    reveal_strlit("none");
    assert("none"@.len() == 4);
    let words = seq!["where"@, path, field, value] + rest;
    assert(words.skip(2).skip(2) =~= rest);
    assert(words.skip(2)[0] == field);
    assert(words.skip(2)[1] == value);
}

/// Three conditions on an element that hold together hold each.
pub proof fn lemma_three_together(
    a: Seq<Seq<char>>,
    b: Seq<Seq<char>>,
    c: Seq<Seq<char>>,
    element: Tree,
)
    requires
        forall|i: int| 0 <= i < a.len() ==> plain(#[trigger] a[i]),
        forall|i: int| 0 <= i < b.len() ==> plain(#[trigger] b[i]),
        forall|i: int| 0 <= i < c.len() ==> plain(#[trigger] c[i]),
        element_meets(a + seq!["plus"@] + b + seq!["plus"@] + c, element, 0) == Some(true),
    ensures
        truth(a, element) == Some(true),
        truth(b, element) == Some(true),
        truth(c, element) == Some(true),
{
    reveal_strlit("else");
    reveal_strlit("plus");
    assert("else"@[0] != "plus"@[0]);
    let words = a + seq!["plus"@] + b + seq!["plus"@] + c;
    let n = a.len() as int;
    let k = n + 1 + b.len();
    assert forall|i: int| 0 <= i < words.len() implies words[i] != "else"@ by {
        if i < n {
            assert(words[i] == a[i]);
        } else if n < i < k {
            assert(words[i] == b[i - n - 1]);
        } else if k < i {
            assert(words[i] == c[i - k - 1]);
        }
    }
    lemma_no_mark(words, "else"@, 0);
    assert(words.subrange(0, words.len() as int) =~= words);
    reveal_with_fuel(element_meets, 2);
    assert forall|i: int| 0 <= i < n implies words[i] != "plus"@ by {
        assert(words[i] == a[i]);
    }
    assert forall|i: int| n < i < k implies words[i] != "plus"@ by {
        assert(words[i] == b[i - n - 1]);
    }
    assert forall|i: int| k < i < words.len() implies words[i] != "plus"@ by {
        assert(words[i] == c[i - k - 1]);
    }
    lemma_mark(words, "plus"@, 0, n);
    lemma_mark(words, "plus"@, n + 1, k);
    lemma_no_mark(words, "plus"@, k + 1);
    assert(words.subrange(0, n) =~= a);
    assert(words.subrange(n + 1, k) =~= b);
    assert(words.subrange(k + 1, words.len() as int) =~= c);
    reveal_with_fuel(together, 4);
}

/// The condition that a flag is set.
pub proof fn lemma_truth_flag(path: Seq<char>, env: Tree)
    ensures
        truth(seq!["true"@, path], env) == Some(at(env, path) == Tree::Bool(true)),
{
    lemma_truths("true"@);
    let words = seq!["true"@, path];
    assert(words[0] == "true"@ && words[1] == path);
    assert(truth(words, env) == truth_of("true"@, path, value_of(words), env));
    reveal(truth_of);
}

/// The condition that a number is positive.
pub proof fn lemma_truth_positive(path: Seq<char>, env: Tree)
    ensures
        truth(seq!["positive"@, path], env) == Some(true) ==> is_positive(at(env, path)),
{
    lemma_truths("positive"@);
    let words = seq!["positive"@, path];
    assert(words[0] == "positive"@ && words[1] == path);
    assert(truth(words, env) == truth_of("positive"@, path, value_of(words), env));
    reveal(truth_of);
}

/// The condition that a value is absent.
pub proof fn lemma_truth_null(path: Seq<char>, env: Tree)
    ensures
        truth(seq!["null"@, path], env) == Some(at(env, path) == Tree::Null),
{
    lemma_truths("null"@);
    let words = seq!["null"@, path];
    assert(words[0] == "null"@ && words[1] == path);
    assert(truth(words, env) == truth_of("null"@, path, value_of(words), env));
    reveal(truth_of);
}

proof fn lemma_filled_element(field: Seq<char>, element: Tree)
    requires
        plain(field),
    ensures
        element_meets(seq!["nonempty"@, field], element, 0) == Some(
            items_of(at(element, field)).len() > 0,
        ),
{
    let words = seq!["nonempty"@, field];
    reveal(truth_of);
    lemma_truths("nonempty"@);
    reveal_strlit("nonempty");
    assert("nonempty"@.len() == 8);
    reveal_strlit("else");
    assert("else"@.len() == 4);
    reveal_strlit("plus");
    assert("plus"@.len() == 4);
    lemma_no_mark(words, "else"@, 0);
    lemma_no_mark(words, "plus"@, 0);
    assert(words.subrange(0, 2) =~= words);
    reveal_with_fuel(together, 2);
    reveal_with_fuel(element_meets, 2);
}

proof fn lemma_filled_tally(l: Seq<Tree>, field: Seq<char>, n: int)
    requires
        0 <= n <= l.len(),
        plain(field),
    ensures
        tally(l, seq!["nonempty"@, field], n) == Some(elements_filled(l.take(n), field)),
    decreases n,
{
    if n > 0 {
        lemma_filled_tally(l, field, n - 1);
        lemma_filled_element(field, l[n - 1]);
        assert(l.take(n).drop_last() =~= l.take(n - 1));
        assert(l.take(n).last() == l[n - 1]);
    }
}

proof fn lemma_saying_tally(l: Seq<Tree>, field: Seq<char>, part: Seq<char>, n: int)
    requires
        0 <= n <= l.len(),
        plain(field),
        plain(part),
    ensures
        tally(l, seq!["contains"@, field, part], n) == Some(
            elements_saying(l.take(n), field, part),
        ),
    decreases n,
{
    if n > 0 {
        lemma_saying_tally(l, field, part, n - 1);
        reveal(truth_of);
        lemma_truths("contains"@);
        reveal_strlit("contains");
        assert("contains"@.len() == 8);
        reveal_strlit("else");
        assert("else"@.len() == 4);
        reveal_strlit("plus");
        assert("plus"@.len() == 4);
        lemma_element("contains"@, field, part, l[n - 1]);
        assert(l.take(n).drop_last() =~= l.take(n - 1));
        assert(l.take(n).last() == l[n - 1]);
    }
}

/// Exactly the required number of a checked list's elements had the text.
pub proof fn saw_matching_text(
    lines: Seq<Line>,
    known: Tree,
    answers: Seq<(Tree, bool)>,
    record: Seq<Tree>,
    m: int,
    count: Seq<char>,
    field: Seq<char>,
    value: Seq<char>,
    c: u64,
)
    requires
        place(lines, known, answers, record, m),
        lines[m].0@ == "matching"@,
        parts(lines[m].2@) == seq![count, "is"@, field, value],
        plain(field),
        plain(value),
        number_of(count) == Some(c),
    ensures
        elements_with(items(record[m], lines[m].1@), field, Tree::Text(value)) == c,
        record[m + 1] == record[m],
{
    lemma_place(lines, known, answers, record, m);
    reveal(effect_of);
    reveal(plain_effect);
    lemma_checks(lines[m].0@);
    reveal_strlit("matching");
    assert("matching"@.len() == 8);
    reveal_strlit("either");
    assert("either"@.len() == 6);
    reveal_strlit("typed");
    assert("typed"@.len() == 5);
    reveal_strlit("error");
    assert("error"@.len() == 5);
    reveal_strlit("refused");
    assert("refused"@.len() == 7);
    let l = items(record[m], lines[m].1@);
    assert(parts(lines[m].2@).skip(1) =~= seq!["is"@, field, value]);
    lemma_text_elements(l, field, value);
    assert(l.take(l.len() as int) =~= l);
}

/// Exactly the required number of a checked list's elements had a list with elements.
pub proof fn saw_matching_filled(
    lines: Seq<Line>,
    known: Tree,
    answers: Seq<(Tree, bool)>,
    record: Seq<Tree>,
    m: int,
    count: Seq<char>,
    field: Seq<char>,
    c: u64,
)
    requires
        place(lines, known, answers, record, m),
        lines[m].0@ == "matching"@,
        parts(lines[m].2@) == seq![count, "nonempty"@, field],
        plain(field),
        number_of(count) == Some(c),
    ensures
        elements_filled(items(record[m], lines[m].1@), field) == c,
        record[m + 1] == record[m],
{
    lemma_place(lines, known, answers, record, m);
    reveal(effect_of);
    reveal(plain_effect);
    lemma_checks(lines[m].0@);
    reveal_strlit("matching");
    assert("matching"@.len() == 8);
    reveal_strlit("either");
    assert("either"@.len() == 6);
    reveal_strlit("typed");
    assert("typed"@.len() == 5);
    reveal_strlit("error");
    assert("error"@.len() == 5);
    reveal_strlit("refused");
    assert("refused"@.len() == 7);
    let l = items(record[m], lines[m].1@);
    assert(parts(lines[m].2@).skip(1) =~= seq!["nonempty"@, field]);
    lemma_filled_tally(l, field, l.len() as int);
    assert(l.take(l.len() as int) =~= l);
}

/// Exactly the required number of a checked list's elements had a text with the part.
pub proof fn saw_matching_part(
    lines: Seq<Line>,
    known: Tree,
    answers: Seq<(Tree, bool)>,
    record: Seq<Tree>,
    m: int,
    count: Seq<char>,
    field: Seq<char>,
    part: Seq<char>,
    c: u64,
)
    requires
        place(lines, known, answers, record, m),
        lines[m].0@ == "matching"@,
        parts(lines[m].2@) == seq![count, "contains"@, field, part],
        plain(field),
        plain(part),
        number_of(count) == Some(c),
    ensures
        elements_saying(items(record[m], lines[m].1@), field, part) == c,
        record[m + 1] == record[m],
{
    lemma_place(lines, known, answers, record, m);
    reveal(effect_of);
    reveal(plain_effect);
    lemma_checks(lines[m].0@);
    reveal_strlit("matching");
    assert("matching"@.len() == 8);
    reveal_strlit("either");
    assert("either"@.len() == 6);
    reveal_strlit("typed");
    assert("typed"@.len() == 5);
    reveal_strlit("error");
    assert("error"@.len() == 5);
    reveal_strlit("refused");
    assert("refused"@.len() == 7);
    let l = items(record[m], lines[m].1@);
    assert(parts(lines[m].2@).skip(1) =~= seq!["contains"@, field, part]);
    lemma_saying_tally(l, field, part, l.len() as int);
    assert(l.take(l.len() as int) =~= l);
}

/// The number that a further digit makes of the digits before it.
pub proof fn lemma_next_digit(s: Seq<char>, t: Seq<char>, n: u64)
    requires
        t.len() > 0,
        '0' <= t[0] <= '9',
        s.drop_last() == t,
        s.len() > 0,
        '0' <= s.last() <= '9',
        number_of(t) == Some(n),
        n * 10 + (s.last() as int - 48) <= u64::MAX,
    ensures
        number_of(s) == Some((n * 10 + (s.last() as int - 48)) as u64),
{
    assert(s[0] == t[0]);
    reveal_with_fuel(crate::text::digits_value, 2);
}

} // verus!
