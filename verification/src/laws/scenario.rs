//! What a scenario's conditions say of the values that are known.

use vstd::prelude::*;

use crate::findings::lemma_no_alternatives;
use crate::json::{at, items, key_count, unsigned_at, Json, Tree};
use crate::scenario::{element_meets, evaluate, next_mark, tally, together, truth_of, value_of};
use crate::text::{occurs, texts, trimmed, unsigned};

verus! {

proof fn lemma_words()
    ensures
        "true"@.len() == 4 && "true"@[0] == 't',
        "false"@.len() == 5 && "false"@[0] == 'f',
        "null"@.len() == 4 && "null"@[0] == 'n' && "null"@[1] == 'u',
        "some"@.len() == 4 && "some"@[0] == 's' && "some"@[1] == 'o',
        "object"@.len() == 6 && "object"@[0] == 'o',
        "list"@.len() == 4 && "list"@[0] == 'l',
        "string"@.len() == 6 && "string"@[0] == 's' && "string"@[2] == 'r',
        "whole"@.len() == 5 && "whole"@[0] == 'w' && "whole"@[2] == 'o',
        "positive"@.len() == 8 && "positive"@[0] == 'p',
        "nonempty"@.len() == 8 && "nonempty"@[0] == 'n',
        "empty"@.len() == 5 && "empty"@[0] == 'e',
        "is"@.len() == 2 && "is"@[0] == 'i',
        "isnot"@.len() == 5 && "isnot"@[0] == 'i',
        "num"@.len() == 3 && "num"@[0] == 'n',
        "below"@.len() == 5 && "below"@[0] == 'b',
        "len"@.len() == 3 && "len"@[0] == 'l',
        "keys"@.len() == 4 && "keys"@[0] == 'k',
        "same"@.len() == 4 && "same"@[0] == 's' && "same"@[1] == 'a',
        "differs"@.len() == 7 && "differs"@[0] == 'd',
        "reaches"@.len() == 7 && "reaches"@[0] == 'r',
        "exceeds"@.len() == 7 && "exceeds"@[0] == 'e',
        "follows"@.len() == 7 && "follows"@[0] == 'f',
        "contains"@.len() == 8 && "contains"@[0] == 'c',
        "lacks"@.len() == 5 && "lacks"@[0] == 'l',
        "mentions"@.len() == 8 && "mentions"@[0] == 'm' && "mentions"@[1] == 'e',
        "omits"@.len() == 5 && "omits"@[0] == 'o',
        "starts"@.len() == 6 && "starts"@[0] == 's' && "starts"@[2] == 'a',
        "ends"@.len() == 4 && "ends"@[0] == 'e' && "ends"@[1] == 'n',
        "trims"@.len() == 5 && "trims"@[0] == 't',
        "member"@.len() == 6 && "member"@[0] == 'm',
        "holds"@.len() == 5 && "holds"@[0] == 'h',
        "ascending"@.len() == 9 && "ascending"@[0] == 'a',
        "matching"@.len() == 8 && "matching"@[0] == 'm' && "matching"@[1] == 'a',
        "each"@.len() == 4 && "each"@[0] == 'e' && "each"@[1] == 'a',
        "any"@.len() == 3 && "any"@[0] == 'a',
        "none"@.len() == 4 && "none"@[0] == 'n' && "none"@[1] == 'o',
        "where"@.len() == 5 && "where"@[0] == 'w' && "where"@[2] == 'e',
        "or"@.len() == 2 && "or"@[0] == 'o',
        "plus"@.len() == 4 && "plus"@[0] == 'p',
        "else"@.len() == 4 && "else"@[0] == 'e' && "else"@[1] == 'l',
{
    reveal_strlit("true");
    reveal_strlit("false");
    reveal_strlit("null");
    reveal_strlit("some");
    reveal_strlit("object");
    reveal_strlit("list");
    reveal_strlit("string");
    reveal_strlit("whole");
    reveal_strlit("positive");
    reveal_strlit("nonempty");
    reveal_strlit("empty");
    reveal_strlit("is");
    reveal_strlit("isnot");
    reveal_strlit("num");
    reveal_strlit("below");
    reveal_strlit("len");
    reveal_strlit("keys");
    reveal_strlit("same");
    reveal_strlit("differs");
    reveal_strlit("reaches");
    reveal_strlit("exceeds");
    reveal_strlit("follows");
    reveal_strlit("contains");
    reveal_strlit("lacks");
    reveal_strlit("mentions");
    reveal_strlit("omits");
    reveal_strlit("starts");
    reveal_strlit("ends");
    reveal_strlit("trims");
    reveal_strlit("member");
    reveal_strlit("holds");
    reveal_strlit("ascending");
    reveal_strlit("matching");
    reveal_strlit("each");
    reveal_strlit("any");
    reveal_strlit("none");
    reveal_strlit("where");
    reveal_strlit("or");
    reveal_strlit("plus");
    reveal_strlit("else");
}

proof fn lemma_judged(words: Seq<Seq<char>>, env: Tree)
    requires
        words.len() == 2 || words.len() == 3,
        words[0] != "or"@ && words[1] != "or"@,
        words.len() == 3 ==> words[2] != "or"@,
        words[0] != "matching"@ && words[0] != "each"@ && words[0] != "any"@ && words[0] != "none"@,
    ensures
        words.len() == 3 ==> crate::scenario::holds(words, env) == truth_of(
            words[0],
            words[1],
            words[2],
            env,
        ),
        words.len() == 2 ==> crate::scenario::holds(words, env) == truth_of(
            words[0],
            words[1],
            Seq::<char>::empty(),
            env,
        ),
{
    lemma_no_alternatives(words, env);
    let rest = words.skip(2);
    if words.len() == 3 {
        assert(rest[0] == words[2]);
        assert(value_of(words) == words[2]);
    } else {
        assert(rest =~= Seq::<Seq<char>>::empty());
        assert(value_of(words) =~= Seq::<char>::empty());
    }
}

/// Flags, absences and kinds are judged as they are.
pub proof fn kinds_are_judged(
    words: &Vec<String>,
    env: &Json,
    op: Seq<char>,
    subject: Seq<char>,
    r: Option<bool>,
)
    requires
        call_ensures(evaluate, (words, env), r),
        texts(words@) == seq![op, subject],
        subject != "or"@,
    ensures
        op == "true"@ ==> r == Some(at(env@, subject) == Tree::Bool(true)),
        op == "false"@ ==> r == Some(at(env@, subject) == Tree::Bool(false)),
        op == "null"@ ==> r == Some(at(env@, subject) == Tree::Null),
        op == "some"@ ==> r == Some(at(env@, subject) != Tree::Null),
        op == "object"@ ==> r == Some(at(env@, subject) is Object),
        op == "list"@ ==> r == Some(at(env@, subject) is List),
        op == "string"@ ==> r == Some(at(env@, subject) is Text),
        op == "whole"@
            ==> r == Some(at(env@, subject) matches Tree::Integer(n) && 0 <= n <= u64::MAX),
        op == "positive"@
            ==> r == Some(at(env@, subject) matches Tree::Integer(n) && 0 < n <= u64::MAX),
        op == "nonempty"@ ==> r == Some(at(env@, subject) matches Tree::List(l) && l.len() > 0),
        op == "empty"@ ==> r == Some(at(env@, subject) matches Tree::List(l) && l.len() == 0),
{
    lemma_words();
    if op == "true"@ || op == "false"@ || op == "null"@ || op == "some"@ || op == "object"@
        || op == "list"@ || op == "string"@ || op == "whole"@ || op == "positive"@
        || op == "nonempty"@ || op == "empty"@ {
        lemma_judged(texts(words@), env@);
        reveal(truth_of);
    }
}

/// A text is judged against another by equality, and a value against another value.
pub proof fn equalities_are_judged(
    words: &Vec<String>,
    env: &Json,
    op: Seq<char>,
    subject: Seq<char>,
    value: Seq<char>,
    r: Option<bool>,
)
    requires
        call_ensures(evaluate, (words, env), r),
        texts(words@) == seq![op, subject, value],
        subject != "or"@ && value != "or"@,
    ensures
        op == "is"@ ==> r == Some(at(env@, subject) == Tree::Text(value)),
        op == "isnot"@ ==> r == Some(at(env@, subject) != Tree::Text(value)),
        op == "same"@ ==> r == Some(at(env@, subject) == at(env@, value)),
        op == "differs"@ ==> r == Some(at(env@, subject) != at(env@, value)),
        op == "member"@ ==> r == Some(items(env@, subject).contains(Tree::Text(value))),
        op == "holds"@ ==> r == Some(items(env@, subject).contains(at(env@, value))),
{
    lemma_words();
    if op == "is"@ || op == "isnot"@ || op == "same"@ || op == "differs"@ || op == "member"@
        || op == "holds"@ {
        lemma_judged(texts(words@), env@);
        reveal(truth_of);
    }
}

/// A text is judged by what it holds, starts with and ends with.
pub proof fn parts_of_texts_are_judged(
    words: &Vec<String>,
    env: &Json,
    op: Seq<char>,
    subject: Seq<char>,
    value: Seq<char>,
    r: Option<bool>,
)
    requires
        call_ensures(evaluate, (words, env), r),
        texts(words@) == seq![op, subject, value],
        subject != "or"@ && value != "or"@,
    ensures
        op == "contains"@
            ==> r == Some(at(env@, subject) matches Tree::Text(s) && occurs(s, value)),
        op == "lacks"@ ==> r == Some(at(env@, subject) matches Tree::Text(s) && !occurs(s, value)),
        op == "starts"@
            ==> r == Some(at(env@, subject) matches Tree::Text(s) && value.is_prefix_of(s)),
        op == "ends"@
            ==> r == Some(at(env@, subject) matches Tree::Text(s) && value.is_suffix_of(s)),
        op == "trims"@
            ==> r == Some(at(env@, subject) matches Tree::Text(s) && trimmed(s) == value),
        op == "mentions"@
            ==> r
                == Some(
                    at(env@, subject) matches Tree::Text(s)
                        && (at(env@, value) matches Tree::Text(p) && occurs(s, p)),
                ),
        op == "omits"@
            ==> r
                == Some(
                    at(env@, subject) matches Tree::Text(s)
                        && (at(env@, value) matches Tree::Text(p) && !occurs(s, p)),
                ),
{
    lemma_words();
    if op == "contains"@ || op == "lacks"@ || op == "starts"@ || op == "ends"@ || op == "trims"@
        || op == "mentions"@ || op == "omits"@ {
        lemma_judged(texts(words@), env@);
        reveal(truth_of);
    }
}

/// A number is judged against one that is written out, and so are the length of a list and the
/// keys of an object.
pub proof fn counts_are_judged(
    words: &Vec<String>,
    env: &Json,
    op: Seq<char>,
    subject: Seq<char>,
    value: Seq<char>,
    n: u64,
    r: Option<bool>,
)
    requires
        call_ensures(evaluate, (words, env), r),
        texts(words@) == seq![op, subject, value],
        subject != "or"@ && value != "or"@,
        unsigned(value, u64::MAX as nat) == Some(n as nat),
    ensures
        op == "num"@ ==> r == Some(at(env@, subject) == Tree::Integer(n as int)),
        op == "below"@ ==> r == Some(at(env@, subject) matches Tree::Integer(x) && 0 <= x < n),
        op == "len"@ ==> r == Some(at(env@, subject) matches Tree::List(l) && l.len() == n),
        op == "keys"@
            ==> r == Some(at(env@, subject) is Object && key_count(at(env@, subject)) == n),
{
    lemma_words();
    if op == "num"@ || op == "below"@ || op == "len"@ || op == "keys"@ {
        lemma_judged(texts(words@), env@);
        reveal(truth_of);
    }
}

/// Two unsigned numbers are judged against each other; nothing else is above, at least or behind
/// another value.
pub proof fn numbers_are_compared(
    words: &Vec<String>,
    env: &Json,
    op: Seq<char>,
    subject: Seq<char>,
    value: Seq<char>,
    r: Option<bool>,
)
    requires
        call_ensures(evaluate, (words, env), r),
        texts(words@) == seq![op, subject, value],
        subject != "or"@ && value != "or"@,
    ensures
        op == "reaches"@ ==> r == Some(
            unsigned_at(env@, subject) is Some && unsigned_at(env@, value) is Some && unsigned_at(
                env@,
                subject,
            )->Some_0 >= unsigned_at(env@, value)->Some_0,
        ),
        op == "exceeds"@ ==> r == Some(
            unsigned_at(env@, subject) is Some && unsigned_at(env@, value) is Some && unsigned_at(
                env@,
                subject,
            )->Some_0 > unsigned_at(env@, value)->Some_0,
        ),
        op == "follows"@ ==> r == Some(
            unsigned_at(env@, subject) is Some && unsigned_at(env@, value) is Some && unsigned_at(
                env@,
                subject,
            )->Some_0 == unsigned_at(env@, value)->Some_0 + 1,
        ),
{
    lemma_words();
    if op == "reaches"@ || op == "exceeds"@ || op == "follows"@ {
        lemma_judged(texts(words@), env@);
        reveal(truth_of);
    }
}

/// Numbers ascend along a list where each is below the next one; one that is absent may come first
/// only before a number.
pub proof fn ascents_are_judged(
    words: &Vec<String>,
    env: &Json,
    subject: Seq<char>,
    field: Seq<char>,
    r: Option<bool>,
)
    requires
        call_ensures(evaluate, (words, env), r),
        texts(words@) == seq!["ascending"@, subject, field],
        subject != "or"@ && field != "or"@,
    ensures
        r == Some(
            at(env@, subject) matches Tree::List(l) && forall|i: int|
                0 <= i < l.len() - 1 ==> (unsigned_at(l[i + 1], field) matches Some(y) && (
                unsigned_at(#[trigger] l[i], field) matches Some(x) ==> x < y)),
        ),
{
    lemma_words();
    lemma_judged(texts(words@), env@);
    reveal(truth_of);
}

proof fn lemma_element(t: Tree, field: Seq<char>, value: Seq<char>)
    requires
        field != "plus"@ && field != "else"@ && value != "plus"@ && value != "else"@,
    ensures
        element_meets(seq!["is"@, field, value], t, 0) == Some(at(t, field) == Tree::Text(value)),
{
    lemma_words();
    let words = seq!["is"@, field, value];
    assert(words[0] == "is"@ && words[1] == field && words[2] == value);
    assert(words.subrange(0, 3) =~= words);
    reveal_with_fuel(next_mark, 4);
    assert(next_mark(words, "else"@, 0) == 3);
    assert(next_mark(words, "plus"@, 0) == 3);
    let rest = words.skip(2);
    assert(rest[0] == value);
    assert(value_of(words) == value);
    reveal(truth_of);
    reveal_with_fuel(together, 2);
    reveal_with_fuel(element_meets, 2);
}

/// How many of the first elements of a list have a text at a field.
pub open spec fn times_found(l: Seq<Tree>, field: Seq<char>, value: Seq<char>, n: int) -> nat
    decreases n,
{
    if n <= 0 {
        0
    } else {
        times_found(l, field, value, n - 1) + if at(l[n - 1], field) == Tree::Text(value) {
            1nat
        } else {
            0nat
        }
    }
}

proof fn lemma_tally(l: Seq<Tree>, field: Seq<char>, value: Seq<char>, n: int)
    requires
        0 <= n <= l.len(),
        field != "plus"@ && field != "else"@ && value != "plus"@ && value != "else"@,
    ensures
        tally(l, seq!["is"@, field, value], n) == Some(times_found(l, field, value, n)),
        times_found(l, field, value, n) <= n,
        times_found(l, field, value, n) == n <==> forall|i: int|
            0 <= i < n ==> at(#[trigger] l[i], field) == Tree::Text(value),
        times_found(l, field, value, n) == 0 <==> forall|i: int|
            0 <= i < n ==> at(#[trigger] l[i], field) != Tree::Text(value),
    decreases n,
{
    if n > 0 {
        lemma_tally(l, field, value, n - 1);
        lemma_element(l[n - 1], field, value);
    }
}

/// A condition on each element of a list holds where every element meets it, one on any where some
/// element does, and one on none where no element does.
pub proof fn elements_are_judged(
    words: &Vec<String>,
    env: &Json,
    op: Seq<char>,
    subject: Seq<char>,
    field: Seq<char>,
    value: Seq<char>,
    l: Seq<Tree>,
    r: Option<bool>,
)
    requires
        call_ensures(evaluate, (words, env), r),
        texts(words@) == seq![op, subject, "is"@, field, value],
        subject != "or"@ && field != "or"@ && value != "or"@,
        field != "plus"@ && field != "else"@ && value != "plus"@ && value != "else"@,
        at(env@, subject) == Tree::List(l),
    ensures
        op == "each"@ ==> r == Some(
            forall|i: int| 0 <= i < l.len() ==> at(#[trigger] l[i], field) == Tree::Text(value),
        ),
        op == "any"@ ==> r == Some(
            exists|i: int| 0 <= i < l.len() && at(#[trigger] l[i], field) == Tree::Text(value),
        ),
        op == "none"@ ==> r == Some(
            forall|i: int| 0 <= i < l.len() ==> at(#[trigger] l[i], field) != Tree::Text(value),
        ),
{
    lemma_words();
    let w = texts(words@);
    if op == "each"@ || op == "any"@ || op == "none"@ {
        lemma_no_alternatives(w, env@);
        assert(w.skip(2) =~= seq!["is"@, field, value]);
        lemma_tally(l, field, value, l.len() as int);
    }
}

/// A number of elements of a list meets a condition where exactly so many do.
pub proof fn matching_elements_are_counted(
    words: &Vec<String>,
    env: &Json,
    subject: Seq<char>,
    number: Seq<char>,
    n: u64,
    field: Seq<char>,
    value: Seq<char>,
    l: Seq<Tree>,
    r: Option<bool>,
)
    requires
        call_ensures(evaluate, (words, env), r),
        texts(words@) == seq!["matching"@, subject, number, "is"@, field, value],
        unsigned(number, u64::MAX as nat) == Some(n as nat),
        subject != "or"@ && number != "or"@ && field != "or"@ && value != "or"@,
        field != "plus"@ && field != "else"@ && value != "plus"@ && value != "else"@,
        at(env@, subject) == Tree::List(l),
    ensures
        r == Some(times_found(l, field, value, l.len() as int) == n),
{
    lemma_words();
    let w = texts(words@);
    lemma_no_alternatives(w, env@);
    let rest = w.skip(2);
    assert(rest[0] == number);
    assert(rest.skip(1) =~= seq!["is"@, field, value]);
    lemma_tally(l, field, value, l.len() as int);
}

} // verus!
