//! Evidence scenarios: scripts of outside actions and of checks on what they answered.
//!
//! A statement has an operation, the name or path that it is about, what follows, and the message
//! of a failed check. A scenario's script lists them as such; a document's script is a text with
//! one statement per line, whose words single spaces separate, with a bar before the message. A
//! value is named by a path into the scenario's environment, whose segments a comma separates. A
//! word that starts with `$` in an action stands for the value at the path behind it. `do`,
//! `until` and `either` are about no name: all their words follow.
//!
//! Statements that act:
//!   `do WORDS`                 hand an action out; its answer becomes `reply`
//!   `wait NAME WORDS`          repeat a client command until the `until` conditions behind it hold
//!   `watch NAME WORDS`         the same for a protocol request, which also ends at a terminal run
//!   `poll NAME WORDS`          the same for any other action, with a message of its own
//!   `until CONDITION`          one such condition, on the answer's document kept as `NAME`
//! Statements on the answer to a client command:
//!   `success NAME`             require a successful answer and keep its document
//!   `refused`                  require an exit status other than success
//!   `error EXIT CLASS [CODE]`  require exactly this typed failure
//!   `typed EXIT CLASS [CODE]`  the same of a failure that arrives on standard error
//! Statement on the answer to any other action:
//!   `ok NAME`                  require an answer without an error and keep its value
//! Statements on the environment:
//!   `keep NAME PATH`           keep a value
//!   `text NAME PATH`           keep a required text
//!   `need NAME PATH`           keep a required text, or fail with the statement's own message
//!   `number NAME PATH`         keep a required unsigned number
//!   `pick NAME LIST FIELD V`   keep the first element with the text `V` at a field
//!   `first NAME LIST CONDITION` keep the first element that meets a condition
//!   `put TARGET PATH`          place a value at a path
//!   `say TARGET TEXT`          place a text at a path
//!   `tell TARGET NUMBER`       place a number at a path
//!   `mark TARGET FLAG`         place `true`, `false` or `null` at a path
//!   `void TARGET`              place an object without entries
//!   `gather TARGET PATHS`      place the list of the values at some paths
//!   `add TARGET PATH`          append a value to a list, or fail with the statement's own message
//!   `glue TARGET WORDS`        place the text of some words, put together without spaces
//!   `names TARGET TEXTS`       place a list of texts
//!   `size TARGET LIST`         place the number of a list's elements
//!   `make NAME MAKER ARGS`     keep what one of the library's own makers gives, or fail with its
//!                              message; an argument is a path, or a text behind `=`
//! Every other statement is a condition that has to hold. `either CONDITIONS` has alternatives,
//! which `or` separates, as `until` may have; `until yields MAKER ARGS` holds once a maker gives
//! something or fails. `each`, `any`, `none` and `matching` put a condition to the elements of a
//! list, and `where` to the first element with a given text at a field; in it `else` separates
//! alternatives and `plus` what has to hold together. In a message a word that starts with `$`
//! stands for a value as in an action, and `$it` for the element that an `each` failed on.

use vstd::prelude::*;
use vstd::string::*;

use crate::application::{document_result, error_problem, line_document, success_of, OutputView};
use crate::failure::{failure, Checked, Failure};
use crate::harness::typed_problem;
use crate::json::{
    at, element_with, found, items, key_count, lemma_trees, lemma_trees_push, placed, segments,
    takes, trees, unsigned_at, with, Json, Tree,
};
use crate::makers::{made, make};
use crate::text::{
    decimal, join, joined3, joined_with, lemma_texts_push, lines, lines_of, number_text, occurs,
    parse_unsigned, part, same_text, split, split_at_char, starts_with, texts, trim, trimmed,
    unsigned,
};

verus! {

/// One statement: what it does, the name or path that it is about, what follows, and the message
/// of a failed check.
#[derive(Debug)]
pub struct Statement {
    pub op: String,
    pub subject: String,
    pub rest: String,
    pub message: String,
}

pub struct StatementView {
    pub op: Seq<char>,
    pub subject: Seq<char>,
    pub rest: Seq<char>,
    pub message: Seq<char>,
}

impl View for Statement {
    type V = StatementView;

    open spec fn view(&self) -> StatementView {
        StatementView {
            op: self.op@,
            subject: self.subject@,
            rest: self.rest@,
            message: self.message@,
        }
    }
}

/// One line of a scenario's script, in the order of a statement's fields.
pub type Line = (&'static str, &'static str, &'static str, &'static str);

pub open spec fn line_statement(line: Line) -> StatementView {
    StatementView { op: line.0@, subject: line.1@, rest: line.2@, message: line.3@ }
}

pub open spec fn script_statements(lines: Seq<Line>) -> Seq<StatementView> {
    lines.map_values(|line: Line| line_statement(line))
}

/// Whether a statement is about no name or path: everything behind its first word follows.
pub open spec fn takes_all(op: Seq<char>) -> bool {
    op == "do"@ || op == "until"@ || op == "either"@
}

/// The statement that a line of text denotes.
pub open spec fn statement_of(line: Seq<char>) -> StatementView {
    let sides = split_at_char(line, '|');
    let words = split_at_char(trimmed(sides[0]), ' ');
    let whole = takes_all(words[0]);
    StatementView {
        op: words[0],
        subject: if whole || words.len() < 2 {
            seq![]
        } else {
            words[1]
        },
        rest: joined_with(
            words.skip(
                if whole || words.len() < 2 {
                    1
                } else {
                    2
                },
            ),
            " "@,
        ),
        message: if sides.len() > 1 {
            trimmed(sides[1])
        } else {
            seq![]
        },
    }
}

pub open spec fn statements_of(text: Seq<char>) -> Seq<StatementView> {
    lines_of(text).map_values(|line: Seq<char>| statement_of(line))
}

pub open spec fn statement_views(v: Seq<Statement>) -> Seq<StatementView> {
    v.map_values(|s: Statement| s@)
}

/// The words of what follows in a statement.
pub open spec fn parts(text: Seq<char>) -> Seq<Seq<char>> {
    if text.len() == 0 {
        seq![]
    } else {
        split_at_char(text, ' ')
    }
}

fn parts_of(text: &str) -> (r: Vec<String>)
    ensures
        texts(r@) == parts(text@),
{
    if text.is_empty() {
        let none: Vec<String> = Vec::new();
        proof {
            assert(texts(none@) =~= seq![]);
        }
        none
    } else {
        split(text, ' ')
    }
}

fn parse_line(line: &str) -> (r: Statement)
    ensures
        r@ == statement_of(line@),
{
    let sides: Vec<String> = split(line, '|');
    let ghost view = texts(sides@);
    proof {
        crate::text::lemma_position(line@, '|', 0);
        assert(view.len() > 0);
        assert(view[0] == sides@[0]@);
        assert(sides@.len() > 1 ==> view[1] == sides@[1]@);
    }
    let side: String = trim(sides[0].as_str());
    let words: Vec<String> = split(side.as_str(), ' ');
    let ghost listed = texts(words@);
    proof {
        crate::text::lemma_position(side@, ' ', 0);
        assert(listed.len() > 0);
        assert(forall|i: int| 0 <= i < words@.len() ==> listed[i] == words@[i]@);
    }
    let message: String = if sides.len() > 1 {
        trim(sides[1].as_str())
    } else {
        String::new()
    };
    let op: String = words[0].as_str().to_owned();
    let whole: bool = same_text(op.as_str(), "do") || same_text(op.as_str(), "until") || same_text(
        op.as_str(),
        "either",
    );
    if whole || words.len() < 2 {
        let rest: String = join(&rest_of(&words, 1), " ");
        return Statement { op, subject: String::new(), rest, message };
    }
    let subject: String = words[1].as_str().to_owned();
    let rest: String = join(&rest_of(&words, 2), " ");
    Statement { op, subject, rest, message }
}

fn parse_script(text: &str) -> (r: Vec<Statement>)
    ensures
        statement_views(r@) == statements_of(text@),
{
    let all: Vec<String> = lines(text);
    let ghost view = lines_of(text@);
    let mut out: Vec<Statement> = Vec::new();
    let mut i: usize = 0;
    while i < all.len()
        invariant
            i <= all.len(),
            view == texts(all@),
            out.len() == i,
            forall|j: int| 0 <= j < i ==> (#[trigger] out@[j])@ == statement_of(view[j]),
        decreases all.len() - i,
    {
        proof {
            assert(view[i as int] == all@[i as int]@);
        }
        out.push(parse_line(all[i].as_str()));
        i = i + 1;
    }
    proof {
        assert(statement_views(out@) =~= statements_of(text@));
    }
    out
}

/// The statements of some lines, behind those that are there.
fn add_lines(out: &mut Vec<Statement>, lines: &[Line])
    ensures
        statement_views(final(out)@) == statement_views(old(out)@) + script_statements(lines@),
{
    let ghost start = statement_views(out@);
    let ghost wanted = script_statements(lines@);
    let mut i: usize = 0;
    proof {
        assert(start + wanted.take(0) =~= start);
    }
    while i < lines.len()
        invariant
            i <= lines@.len(),
            wanted == script_statements(lines@),
            statement_views(out@) == start + wanted.take(i as int),
        decreases lines@.len() - i,
    {
        let line: Line = lines[i];
        let statement: Statement = Statement {
            op: line.0.to_owned(),
            subject: line.1.to_owned(),
            rest: line.2.to_owned(),
            message: line.3.to_owned(),
        };
        proof {
            assert(statement@ == wanted[i as int]);
            assert(statement_views(out@.push(statement)) =~= statement_views(out@).push(
                statement@,
            ));
            assert(start + wanted.take(i + 1) =~= (start + wanted.take(i as int)).push(
                wanted[i as int],
            ));
        }
        out.push(statement);
        i = i + 1;
    }
    proof {
        assert(wanted.take(i as int) =~= wanted);
    }
}

/// The value of a condition: its words from the third on, with single spaces between them.
pub open spec fn value_of(words: Seq<Seq<char>>) -> Seq<char> {
    joined_with(words.skip(2), " "@)
}

fn value_text(words: &Vec<String>) -> (r: String)
    requires
        words.len() >= 2,
    ensures
        r@ == value_of(texts(words@)),
{
    let mut rest: Vec<String> = Vec::new();
    let mut i: usize = 2;
    proof {
        assert(texts(rest@) =~= texts(words@).subrange(2, 2));
    }
    while i < words.len()
        invariant
            2 <= i <= words.len(),
            texts(rest@) == texts(words@).subrange(2, i as int),
        decreases words.len() - i,
    {
        let w: String = words[i].as_str().to_owned();
        proof {
            lemma_texts_push(rest@, w);
            assert(texts(words@).subrange(2, i + 1) =~= texts(words@).subrange(2, i as int).push(
                w@,
            ));
        }
        rest.push(w);
        i = i + 1;
    }
    proof {
        assert(texts(words@).subrange(2, i as int) =~= texts(words@).skip(2));
    }
    join(&rest, " ")
}

/// The number of a condition.
pub open spec fn number_of(value: Seq<char>) -> Option<u64> {
    match unsigned(value, u64::MAX as nat) {
        Some(n) => Some(n as u64),
        None => None,
    }
}

fn number_value(value: &str) -> (r: Option<u64>)
    ensures
        r == number_of(value@),
{
    parse_unsigned(value, u64::MAX)
}

/// Whether two unsigned numbers, or their absence, ascend: absence comes before every number.
pub open spec fn ascends(a: Option<u64>, b: Option<u64>) -> bool {
    match (a, b) {
        (None, Some(_)) => true,
        (Some(x), Some(y)) => x < y,
        _ => false,
    }
}

pub open spec fn all_ascend(l: Seq<Tree>, field: Seq<char>) -> bool {
    forall|i: int|
        0 <= i < l.len() - 1 ==> ascends(
            unsigned_at(#[trigger] l[i], field),
            unsigned_at(l[i + 1], field),
        )
}

/// The truth of one condition on an environment; none where there is no such condition.
#[verifier::opaque]
pub open spec fn truth_of(
    op: Seq<char>,
    subject: Seq<char>,
    v: Seq<char>,
    env: Tree,
) -> Option<bool> {
    let t = at(env, subject);
    if op == "is"@ {
        Some(t == Tree::Text(v))
    } else if op == "isnot"@ {
        Some(t != Tree::Text(v))
    } else if op == "true"@ {
        Some(t == Tree::Bool(true))
    } else if op == "false"@ {
        Some(t == Tree::Bool(false))
    } else if op == "null"@ {
        Some(t == Tree::Null)
    } else if op == "some"@ {
        Some(t != Tree::Null)
    } else if op == "object"@ {
        Some(t is Object)
    } else if op == "list"@ {
        Some(t is List)
    } else if op == "string"@ {
        Some(t is Text)
    } else if op == "whole"@ {
        Some(unsigned_at(env, subject) is Some)
    } else if op == "positive"@ {
        Some(unsigned_at(env, subject) matches Some(n) && n > 0)
    } else if op == "nonempty"@ {
        Some(t matches Tree::List(l) && l.len() > 0)
    } else if op == "empty"@ {
        Some(t matches Tree::List(l) && l.len() == 0)
    } else if op == "num"@ {
        match number_of(v) {
            Some(n) => Some(t == Tree::Integer(n as int)),
            None => None,
        }
    } else if op == "below"@ {
        match number_of(v) {
            Some(n) => Some(unsigned_at(env, subject) matches Some(x) && x < n),
            None => None,
        }
    } else if op == "len"@ {
        match number_of(v) {
            Some(n) => Some(t matches Tree::List(l) && l.len() == n),
            None => None,
        }
    } else if op == "keys"@ {
        match number_of(v) {
            Some(n) => Some(t is Object && key_count(t) == n),
            None => None,
        }
    } else if op == "same"@ {
        Some(t == at(env, v))
    } else if op == "differs"@ {
        Some(t != at(env, v))
    } else if op == "reaches"@ {
        Some(
            match (unsigned_at(env, subject), unsigned_at(env, v)) {
                (Some(x), Some(y)) => x >= y,
                _ => false,
            },
        )
    } else if op == "exceeds"@ {
        Some(
            match (unsigned_at(env, subject), unsigned_at(env, v)) {
                (Some(x), Some(y)) => x > y,
                _ => false,
            },
        )
    } else if op == "follows"@ {
        Some(
            match (unsigned_at(env, subject), unsigned_at(env, v)) {
                (Some(x), Some(y)) => x == y + 1,
                _ => false,
            },
        )
    } else if op == "contains"@ {
        Some(t matches Tree::Text(s) && occurs(s, v))
    } else if op == "lacks"@ {
        Some(t matches Tree::Text(s) && !occurs(s, v))
    } else if op == "mentions"@ {
        Some(
            match (t, at(env, v)) {
                (Tree::Text(s), Tree::Text(part)) => occurs(s, part),
                _ => false,
            },
        )
    } else if op == "omits"@ {
        Some(
            match (t, at(env, v)) {
                (Tree::Text(s), Tree::Text(part)) => !occurs(s, part),
                _ => false,
            },
        )
    } else if op == "starts"@ {
        Some(t matches Tree::Text(s) && v.is_prefix_of(s))
    } else if op == "ends"@ {
        Some(t matches Tree::Text(s) && v.is_suffix_of(s))
    } else if op == "trims"@ {
        Some(t matches Tree::Text(s) && trimmed(s) == v)
    } else if op == "member"@ {
        Some(items(env, subject).contains(Tree::Text(v)))
    } else if op == "holds"@ {
        Some(items(env, subject).contains(at(env, v)))
    } else if op == "ascending"@ {
        Some(t matches Tree::List(l) && all_ascend(l, v))
    } else {
        None
    }
}

/// The truth of a condition in words.
pub open spec fn truth(words: Seq<Seq<char>>, env: Tree) -> Option<bool> {
    if words.len() < 2 {
        None
    } else {
        truth_of(words[0], words[1], value_of(words), env)
    }
}

fn has_item(env: &Json, path: &str, wanted: &Json) -> (r: bool)
    ensures
        r == items(env@, path@).contains(wanted@),
{
    let n: usize = env.count(path);
    let mut i: usize = 0;
    while i < n
        invariant
            i <= n,
            n == items(env@, path@).len(),
            forall|j: int| 0 <= j < i ==> items(env@, path@)[j] != wanted@,
        decreases n - i,
    {
        if env.item(path, i).same(wanted) {
            return true;
        }
        i = i + 1;
    }
    false
}

fn in_order(env: &Json, path: &str, field: &str) -> (r: bool)
    ensures
        r == all_ascend(items(env@, path@), field@),
{
    let n: usize = env.count(path);
    let ghost l = items(env@, path@);
    let mut i: usize = 1;
    while i < n
        invariant
            1 <= i,
            i <= n || n == 0,
            n == l.len(),
            l == items(env@, path@),
            forall|j: int|
                0 <= j < i - 1 ==> ascends(
                    unsigned_at(#[trigger] l[j], field@),
                    unsigned_at(l[j + 1], field@),
                ),
        decreases n - i,
    {
        let a: Option<u64> = env.item(path, i - 1).number_at(field);
        let b: Option<u64> = env.item(path, i).number_at(field);
        let fine: bool = match (a, b) {
            (None, Some(_)) => true,
            (Some(x), Some(y)) => x < y,
            _ => false,
        };
        if !fine {
            proof {
                assert(!ascends(unsigned_at(l[i - 1], field@), unsigned_at(l[i - 1 + 1], field@)));
            }
            return false;
        }
        i = i + 1;
    }
    true
}

fn copy_at(env: &Json, path: &str) -> (r: Json)
    ensures
        r@ == at(env@, path@),
{
    match env.find(path) {
        Some(j) => j.copy(),
        None => Json::Null,
    }
}

fn check_of(op: &str, path: &str, v: &str, env: &Json) -> (r: Option<bool>)
    ensures
        r == truth_of(op@, path@, v@, env@),
{
    proof {
        reveal(truth_of);
    }
    if same_text(op, "is") {
        Some(env.is_text(path, v))
    } else if same_text(op, "isnot") {
        Some(!env.is_text(path, v))
    } else if same_text(op, "true") {
        Some(env.is_flag(path, true))
    } else if same_text(op, "false") {
        Some(env.is_flag(path, false))
    } else if same_text(op, "null") {
        Some(env.is_null(path))
    } else if same_text(op, "some") {
        Some(!env.is_null(path))
    } else if same_text(op, "object") {
        Some(env.is_object(path))
    } else if same_text(op, "list") {
        Some(env.is_list(path))
    } else if same_text(op, "string") {
        Some(env.text_at(path).is_some())
    } else if same_text(op, "whole") {
        Some(env.number_at(path).is_some())
    } else if same_text(op, "positive") {
        Some(
            match env.number_at(path) {
                Some(n) => n > 0,
                None => false,
            },
        )
    } else if same_text(op, "nonempty") {
        Some(env.is_list(path) && env.count(path) > 0)
    } else if same_text(op, "empty") {
        Some(env.is_list(path) && env.count(path) == 0)
    } else if same_text(op, "num") {
        match number_value(v) {
            Some(n) => Some(env.is_number(path, n)),
            None => None,
        }
    } else if same_text(op, "below") {
        match number_value(v) {
            Some(n) => Some(
                match env.number_at(path) {
                    Some(x) => x < n,
                    None => false,
                },
            ),
            None => None,
        }
    } else if same_text(op, "len") {
        match number_value(v) {
            Some(n) => Some(env.is_list(path) && env.count(path) as u64 == n),
            None => None,
        }
    } else if same_text(op, "keys") {
        match number_value(v) {
            Some(n) => Some(env.is_object(path) && env.keys(path) as u64 == n),
            None => None,
        }
    } else if same_text(op, "same") {
        Some(env.agrees(path, env, v))
    } else if same_text(op, "differs") {
        Some(!env.agrees(path, env, v))
    } else if same_text(op, "reaches") {
        Some(
            match (env.number_at(path), env.number_at(v)) {
                (Some(x), Some(y)) => x >= y,
                _ => false,
            },
        )
    } else if same_text(op, "exceeds") {
        Some(
            match (env.number_at(path), env.number_at(v)) {
                (Some(x), Some(y)) => x > y,
                _ => false,
            },
        )
    } else if same_text(op, "follows") {
        Some(
            match (env.number_at(path), env.number_at(v)) {
                (Some(x), Some(y)) => x > y && x - y == 1,
                _ => false,
            },
        )
    } else if same_text(op, "contains") {
        Some(
            match env.text_at(path) {
                Some(s) => crate::text::contains(s.as_str(), v),
                None => false,
            },
        )
    } else if same_text(op, "lacks") {
        Some(
            match env.text_at(path) {
                Some(s) => !crate::text::contains(s.as_str(), v),
                None => false,
            },
        )
    } else if same_text(op, "mentions") {
        Some(
            match (env.text_at(path), env.text_at(v)) {
                (Some(s), Some(part)) => crate::text::contains(s.as_str(), part.as_str()),
                _ => false,
            },
        )
    } else if same_text(op, "omits") {
        Some(
            match (env.text_at(path), env.text_at(v)) {
                (Some(s), Some(part)) => !crate::text::contains(s.as_str(), part.as_str()),
                _ => false,
            },
        )
    } else if same_text(op, "starts") {
        Some(
            match env.text_at(path) {
                Some(s) => starts_with(s.as_str(), v),
                None => false,
            },
        )
    } else if same_text(op, "ends") {
        Some(
            match env.text_at(path) {
                Some(s) => crate::text::ends_with(s.as_str(), v),
                None => false,
            },
        )
    } else if same_text(op, "trims") {
        Some(
            match env.text_at(path) {
                Some(s) => same_text(trim(s.as_str()).as_str(), v),
                None => false,
            },
        )
    } else if same_text(op, "member") {
        Some(has_item(env, path, &Json::text(v)))
    } else if same_text(op, "holds") {
        Some(has_item(env, path, &copy_at(env, v)))
    } else if same_text(op, "ascending") {
        Some(env.is_list(path) && in_order(env, path, v))
    } else {
        None
    }
}

fn check(words: &Vec<String>, env: &Json) -> (r: Option<bool>)
    ensures
        r == truth(texts(words@), env@),
{
    let ghost view = texts(words@);
    if words.len() < 2 {
        return None;
    }
    proof {
        assert(view[0] == words@[0]@);
        assert(view[1] == words@[1]@);
    }
    let value: String = value_text(words);
    check_of(words[0].as_str(), words[1].as_str(), value.as_str(), env)
}

/// The position of the next word `mark` from `from` on, or the length.
pub open spec fn next_mark(words: Seq<Seq<char>>, mark: Seq<char>, from: int) -> int
    decreases words.len() - from,
{
    if from < 0 || from >= words.len() {
        words.len() as int
    } else if words[from] == mark {
        from
    } else {
        next_mark(words, mark, from + 1)
    }
}

proof fn lemma_next_mark(words: Seq<Seq<char>>, mark: Seq<char>, from: int)
    requires
        0 <= from <= words.len(),
    ensures
        from <= next_mark(words, mark, from) <= words.len(),
    decreases words.len() - from,
{
    if from < words.len() && words[from] != mark {
        lemma_next_mark(words, mark, from + 1);
    }
}

/// Whether all conditions from `from` on hold, which `plus` separates: the first that does not
/// decides.
pub open spec fn together(words: Seq<Seq<char>>, env: Tree, from: int) -> Option<bool>
    decreases words.len() - from,
    when 0 <= from <= words.len()
    via together_decreases
{
    let end = next_mark(words, "plus"@, from);
    match truth(words.subrange(from, end), env) {
        Some(true) => if end < words.len() {
            together(words, env, end + 1)
        } else {
            Some(true)
        },
        Some(false) => Some(false),
        None => None,
    }
}

#[via_fn]
proof fn together_decreases(words: Seq<Seq<char>>, env: Tree, from: int) {
    lemma_next_mark(words, "plus"@, from);
}

/// Whether an alternative from `from` on holds, which `else` separates: the first that does
/// decides.
pub open spec fn element_meets(words: Seq<Seq<char>>, env: Tree, from: int) -> Option<bool>
    decreases words.len() - from,
    when 0 <= from <= words.len()
    via element_decreases
{
    let end = next_mark(words, "else"@, from);
    match together(words.subrange(from, end), env, 0) {
        Some(true) => Some(true),
        Some(false) => if end < words.len() {
            element_meets(words, env, end + 1)
        } else {
            Some(false)
        },
        None => None,
    }
}

#[via_fn]
proof fn element_decreases(words: Seq<Seq<char>>, env: Tree, from: int) {
    lemma_next_mark(words, "else"@, from);
}

fn find_mark(words: &Vec<String>, mark: &str, from: usize) -> (r: usize)
    requires
        from <= words.len(),
    ensures
        r == next_mark(texts(words@), mark@, from as int),
        from <= r <= words.len(),
{
    let ghost view = texts(words@);
    let mut i: usize = from;
    while i < words.len() && !same_text(words[i].as_str(), mark)
        invariant
            from <= i <= words.len(),
            view == texts(words@),
            next_mark(view, mark@, from as int) == next_mark(view, mark@, i as int),
        decreases words.len() - i,
    {
        proof {
            assert(view[i as int] == words@[i as int]@);
        }
        i = i + 1;
    }
    proof {
        if i < words.len() {
            assert(view[i as int] == words@[i as int]@);
        }
    }
    i
}

fn check_together(words: &Vec<String>, env: &Json) -> (r: Option<bool>)
    ensures
        r == together(texts(words@), env@, 0),
{
    let ghost view = texts(words@);
    let mut from: usize = 0;
    loop
        invariant
            from <= words.len(),
            view == texts(words@),
            together(view, env@, 0) == together(view, env@, from as int),
        decreases words.len() - from,
    {
        let end: usize = find_mark(words, "plus", from);
        match check(&between(words, from, end), env) {
            Some(true) => {
                if end >= words.len() {
                    return Some(true);
                }
            },
            Some(false) => {
                return Some(false);
            },
            None => {
                return None;
            },
        }
        from = end + 1;
    }
}

fn check_element(words: &Vec<String>, env: &Json) -> (r: Option<bool>)
    ensures
        r == element_meets(texts(words@), env@, 0),
{
    let ghost view = texts(words@);
    let mut from: usize = 0;
    loop
        invariant
            from <= words.len(),
            view == texts(words@),
            element_meets(view, env@, 0) == element_meets(view, env@, from as int),
        decreases words.len() - from,
    {
        let end: usize = find_mark(words, "else", from);
        match check_together(&between(words, from, end), env) {
            Some(true) => {
                return Some(true);
            },
            Some(false) => {
                if end >= words.len() {
                    return Some(false);
                }
            },
            None => {
                return None;
            },
        }
        from = end + 1;
    }
}

/// How many of the first `n` elements of a list meet a condition; none where the words are none.
pub open spec fn tally(l: Seq<Tree>, words: Seq<Seq<char>>, n: int) -> Option<nat>
    decreases n,
{
    if n <= 0 {
        Some(0nat)
    } else {
        match (tally(l, words, n - 1), element_meets(words, l[n - 1], 0)) {
            (Some(c), Some(true)) => Some(c + 1),
            (Some(c), Some(false)) => Some(c),
            _ => None,
        }
    }
}

/// The truth of a condition, with `matching LIST N CONDITION` for a list of which exactly `N`
/// elements meet a condition, `each LIST CONDITION` for one of which all do, and
/// `any LIST CONDITION` for one of which at least one does.
pub open spec fn judged_of(
    op: Seq<char>,
    subject: Seq<char>,
    words: Seq<Seq<char>>,
    value: Seq<char>,
    env: Tree,
) -> Option<bool> {
    if words.len() >= 2 && op == "matching"@ {
        match (unsigned(words[0], u64::MAX as nat), at(env, subject)) {
            (Some(n), Tree::List(l)) => match tally(l, words.skip(1), l.len() as int) {
                Some(c) => Some(c == n),
                None => None,
            },
            (Some(_), _) => Some(false),
            _ => None,
        }
    } else if words.len() >= 1 && op == "each"@ {
        match at(env, subject) {
            Tree::List(l) => match tally(l, words, l.len() as int) {
                Some(c) => Some(c == l.len()),
                None => None,
            },
            _ => Some(false),
        }
    } else if words.len() >= 1 && op == "any"@ {
        match at(env, subject) {
            Tree::List(l) => match tally(l, words, l.len() as int) {
                Some(c) => Some(c > 0),
                None => None,
            },
            _ => Some(false),
        }
    } else if words.len() >= 1 && op == "none"@ {
        match tally(items(env, subject), words, items(env, subject).len() as int) {
            Some(c) => Some(c == 0),
            None => None,
        }
    } else if words.len() >= 4 && op == "where"@ {
        match element_with(items(env, subject), words[0], Tree::Text(words[1])) {
            Some(t) => element_meets(words.skip(2), t, 0),
            None => Some(false),
        }
    } else {
        truth_of(op, subject, value, env)
    }
}

pub open spec fn judged(words: Seq<Seq<char>>, env: Tree) -> Option<bool> {
    if words.len() < 2 {
        None
    } else {
        judged_of(words[0], words[1], words.skip(2), value_of(words), env)
    }
}

fn rest_of(words: &Vec<String>, from: usize) -> (r: Vec<String>)
    requires
        from <= words.len(),
    ensures
        texts(r@) == texts(words@).skip(from as int),
{
    between(words, from, words.len())
}

fn between(words: &Vec<String>, from: usize, to: usize) -> (r: Vec<String>)
    requires
        from <= to <= words.len(),
    ensures
        texts(r@) == texts(words@).subrange(from as int, to as int),
{
    let mut out: Vec<String> = Vec::new();
    let mut i: usize = from;
    proof {
        assert(texts(out@) =~= texts(words@).subrange(from as int, from as int));
    }
    while i < to
        invariant
            from <= i <= to <= words.len(),
            texts(out@) == texts(words@).subrange(from as int, i as int),
        decreases to - i,
    {
        let w: String = words[i].as_str().to_owned();
        proof {
            lemma_texts_push(out@, w);
            assert(texts(words@).subrange(from as int, i + 1) =~= texts(words@).subrange(
                from as int,
                i as int,
            ).push(w@));
        }
        out.push(w);
        i = i + 1;
    }
    out
}

fn count_matching(env: &Json, path: &str, words: &Vec<String>) -> (r: Option<usize>)
    ensures
        ({
            let l = items(env@, path@);
            match r {
                Some(n) => tally(l, texts(words@), l.len() as int) == Some(n as nat) && n
                    <= l.len(),
                None => tally(l, texts(words@), l.len() as int) is None,
            }
        }),
{
    let n: usize = env.count(path);
    let ghost l = items(env@, path@);
    let ghost view = texts(words@);
    let mut c: usize = 0;
    let mut i: usize = 0;
    while i < n
        invariant
            c <= i <= n,
            n == l.len(),
            l == items(env@, path@),
            view == texts(words@),
            tally(l, view, i as int) == Some(c as nat),
        decreases n - i,
    {
        match check_element(words, env.item(path, i)) {
            Some(true) => {
                c = c + 1;
            },
            Some(false) => {},
            None => {
                proof {
                    lemma_tally_none(l, view, i + 1, l.len() as int);
                }
                return None;
            },
        }
        i = i + 1;
    }
    Some(c)
}

proof fn lemma_tally_none(l: Seq<Tree>, words: Seq<Seq<char>>, i: int, n: int)
    requires
        0 <= i <= n,
        tally(l, words, i) is None,
    ensures
        tally(l, words, n) is None,
    decreases n - i,
{
    if i < n {
        lemma_tally_none(l, words, i, n - 1);
    }
}

fn judge_of(op: &str, path: &str, words: &Vec<String>, value: &str, env: &Json) -> (r: Option<
    bool,
>)
    ensures
        r == judged_of(op@, path@, texts(words@), value@, env@),
{
    let ghost view = texts(words@);
    proof {
        assert(forall|i: int| 0 <= i < words@.len() ==> view[i] == words@[i]@);
    }
    if words.len() >= 2 && same_text(op, "matching") {
        let wanted: Option<u64> = parse_unsigned(words[0].as_str(), u64::MAX);
        match wanted {
            None => None,
            Some(n) => {
                if !env.is_list(path) {
                    return Some(false);
                }
                match count_matching(env, path, &rest_of(words, 1)) {
                    Some(c) => Some(c as u64 == n),
                    None => None,
                }
            },
        }
    } else if words.len() >= 1 && same_text(op, "each") {
        if !env.is_list(path) {
            return Some(false);
        }
        match count_matching(env, path, words) {
            Some(c) => Some(c == env.count(path)),
            None => None,
        }
    } else if words.len() >= 1 && same_text(op, "any") {
        if !env.is_list(path) {
            return Some(false);
        }
        match count_matching(env, path, words) {
            Some(c) => Some(c > 0),
            None => None,
        }
    } else if words.len() >= 1 && same_text(op, "none") {
        match count_matching(env, path, words) {
            Some(c) => Some(c == 0),
            None => None,
        }
    } else if words.len() >= 4 && same_text(op, "where") {
        match env.item_with(path, words[0].as_str(), words[1].as_str()) {
            Some(j) => check_element(&rest_of(words, 2), j),
            None => Some(false),
        }
    } else {
        check_of(op, path, value, env)
    }
}

fn judge(words: &Vec<String>, env: &Json) -> (r: Option<bool>)
    ensures
        r == judged(texts(words@), env@),
{
    if words.len() < 2 {
        return None;
    }
    let value: String = value_text(words);
    judge_of(words[0].as_str(), words[1].as_str(), &rest_of(words, 2), value.as_str(), env)
}

/// The truth of the alternatives from `from` on, which `or` separates: the first that holds
/// decides.
pub open spec fn holds_from(words: Seq<Seq<char>>, env: Tree, from: int) -> Option<bool>
    decreases words.len() - from,
    when 0 <= from <= words.len()
    via holds_decreases
{
    let end = next_mark(words, "or"@, from);
    match judged(words.subrange(from, end), env) {
        Some(true) => Some(true),
        Some(false) => if end < words.len() {
            holds_from(words, env, end + 1)
        } else {
            Some(false)
        },
        None => None,
    }
}

#[via_fn]
proof fn holds_decreases(words: Seq<Seq<char>>, env: Tree, from: int) {
    lemma_next_mark(words, "or"@, from);
}

pub open spec fn holds(words: Seq<Seq<char>>, env: Tree) -> Option<bool> {
    holds_from(words, env, 0)
}

/// Whether a condition holds on an environment; none where the words are no condition.
pub fn evaluate(words: &Vec<String>, env: &Json) -> (r: Option<bool>)
    ensures
        r == holds(texts(words@), env@),
{
    let ghost view = texts(words@);
    let mut from: usize = 0;
    loop
        invariant
            from <= words.len(),
            view == texts(words@),
            holds(view, env@) == holds_from(view, env@, from as int),
        decreases words.len() - from,
    {
        let end: usize = find_mark(words, "or", from);
        match judge(&between(words, from, end), env) {
            Some(true) => {
                return Some(true);
            },
            Some(false) => {
                if end >= words.len() {
                    return Some(false);
                }
            },
            None => {
                return None;
            },
        }
        from = end + 1;
    }
}

/// The truth of a statement that is a condition; `either` has alternatives, which `or` separates.
pub open spec fn condition(s: StatementView, env: Tree) -> Option<bool> {
    if s.op == "either"@ {
        holds(parts(s.rest), env)
    } else {
        judged_of(s.op, s.subject, parts(s.rest), s.rest, env)
    }
}

fn decide(s: &Statement, env: &Json) -> (r: Option<bool>)
    ensures
        r == condition(s@, env@),
{
    let words: Vec<String> = parts_of(s.rest.as_str());
    if same_text(s.op.as_str(), "either") {
        evaluate(&words, env)
    } else {
        judge_of(s.op.as_str(), s.subject.as_str(), &words, s.rest.as_str(), env)
    }
}

/// A word of an action: itself, or the text or number at the path behind a dollar sign.
pub open spec fn resolved_word(word: Seq<char>, env: Tree) -> Option<Seq<char>> {
    if word.len() > 0 && word[0] == '$' {
        match at(env, word.skip(1)) {
            Tree::Text(s) => Some(s),
            Tree::Integer(n) => if 0 <= n <= u64::MAX {
                Some(decimal(n as nat))
            } else {
                None
            },
            _ => None,
        }
    } else {
        Some(word)
    }
}

pub open spec fn resolved_words(words: Seq<Seq<char>>, env: Tree) -> Option<Seq<Seq<char>>>
    decreases words.len(),
{
    if words.len() == 0 {
        Some(seq![])
    } else {
        match (resolved_words(words.drop_last(), env), resolved_word(words.last(), env)) {
            (Some(before), Some(word)) => Some(before.push(word)),
            _ => None,
        }
    }
}

fn resolve_word(word: &str, env: &Json) -> (r: Option<String>)
    ensures
        crate::text::text_option(r) == resolved_word(word@, env@),
{
    let chars: Vec<char> = crate::text::chars_of(word);
    if chars.len() > 0 && chars[0] == '$' {
        let path: String = part(word, 1, chars.len());
        proof {
            assert(path@ =~= word@.skip(1));
        }
        match env.text_at(path.as_str()) {
            Some(s) => Some(s),
            None => match env.number_at(path.as_str()) {
                Some(n) => Some(number_text(n)),
                None => None,
            },
        }
    } else {
        Some(word.to_owned())
    }
}

pub(crate) fn resolve(words: &Vec<String>, from: usize, env: &Json) -> (r: Option<Vec<String>>)
    requires
        from <= words.len(),
    ensures
        match r {
            Some(v) => resolved_words(texts(words@).skip(from as int), env@) == Some(texts(v@)),
            None => resolved_words(texts(words@).skip(from as int), env@) is None,
        },
{
    let ghost rest = texts(words@).skip(from as int);
    let mut out: Vec<String> = Vec::new();
    let mut i: usize = from;
    proof {
        assert(texts(out@) =~= seq![]);
        assert(rest.take(0) =~= seq![]);
    }
    while i < words.len()
        invariant
            from <= i <= words.len(),
            rest == texts(words@).skip(from as int),
            resolved_words(rest.take(i - from), env@) == Some(texts(out@)),
        decreases words.len() - i,
    {
        proof {
            assert(rest.take(i + 1 - from).drop_last() =~= rest.take(i - from));
            assert(rest.take(i + 1 - from).last() == words@[i as int]@);
        }
        match resolve_word(words[i].as_str(), env) {
            Some(w) => {
                proof {
                    lemma_texts_push(out@, w);
                }
                out.push(w);
            },
            None => {
                proof {
                    lemma_unresolved(rest, env@, i + 1 - from);
                }
                return None;
            },
        }
        i = i + 1;
    }
    proof {
        assert(rest.take(i - from) =~= rest);
    }
    Some(out)
}

fn resolve_all(words: &Vec<String>, env: &Json) -> (r: Option<Vec<String>>)
    ensures
        match r {
            Some(v) => resolved_words(texts(words@), env@) == Some(texts(v@)),
            None => resolved_words(texts(words@), env@) is None,
        },
{
    proof {
        assert(texts(words@).skip(0) =~= texts(words@));
    }
    resolve(words, 0, env)
}

proof fn lemma_unresolved(words: Seq<Seq<char>>, env: Tree, i: int)
    requires
        0 <= i <= words.len(),
        resolved_words(words.take(i), env) is None,
    ensures
        resolved_words(words, env) is None,
    decreases words.len() - i,
{
    if i == words.len() {
        assert(words.take(i) =~= words);
    } else {
        assert(words.take(i + 1).drop_last() =~= words.take(i));
        lemma_unresolved(words, env, i + 1);
    }
}

/// A message with its values filled in; a word whose value is absent stays.
pub open spec fn spoken_words(words: Seq<Seq<char>>, env: Tree) -> Seq<Seq<char>> {
    words.map_values(
        |w: Seq<char>|
            match resolved_word(w, env) {
                Some(t) => t,
                None => w,
            },
    )
}

pub open spec fn spoken(message: Seq<char>, env: Tree) -> Seq<char> {
    joined_with(spoken_words(split_at_char(message, ' '), env), " "@)
}

fn speak(message: &str, env: &Json) -> (r: String)
    ensures
        r@ == spoken(message@, env@),
{
    let words: Vec<String> = split(message, ' ');
    let ghost view = texts(words@);
    let mut out: Vec<String> = Vec::new();
    let mut i: usize = 0;
    while i < words.len()
        invariant
            i <= words.len(),
            view == texts(words@),
            out.len() == i,
            forall|j: int| 0 <= j < i ==> (#[trigger] out@[j])@ == spoken_words(view, env@)[j],
        decreases words.len() - i,
    {
        proof {
            assert(view[i as int] == words@[i as int]@);
        }
        let word: String = match resolve_word(words[i].as_str(), env) {
            Some(t) => t,
            None => words[i].as_str().to_owned(),
        };
        out.push(word);
        i = i + 1;
    }
    proof {
        assert(texts(out@) =~= spoken_words(view, env@));
    }
    join(&out, " ")
}

/// The first element from `from` on that does not meet a condition.
pub open spec fn first_unmet(l: Seq<Tree>, words: Seq<Seq<char>>, from: int) -> Tree
    decreases l.len() - from,
{
    if from < 0 || from >= l.len() {
        Tree::Null
    } else if element_meets(words, l[from], 0) != Some(true) {
        l[from]
    } else {
        first_unmet(l, words, from + 1)
    }
}

/// The first element from `from` on that meets a condition.
pub open spec fn first_met(l: Seq<Tree>, words: Seq<Seq<char>>, from: int) -> Option<Tree>
    decreases l.len() - from,
{
    if from < 0 || from >= l.len() {
        None
    } else if element_meets(words, l[from], 0) == Some(true) {
        Some(l[from])
    } else {
        first_met(l, words, from + 1)
    }
}

fn first_element(env: &Json, path: &str, words: &Vec<String>) -> (r: Option<Json>)
    ensures
        match r {
            Some(j) => first_met(items(env@, path@), texts(words@), 0) == Some(j@),
            None => first_met(items(env@, path@), texts(words@), 0) is None,
        },
{
    let n: usize = env.count(path);
    let ghost l = items(env@, path@);
    let mut i: usize = 0;
    while i < n
        invariant
            i <= n,
            n == l.len(),
            l == items(env@, path@),
            first_met(l, texts(words@), 0) == first_met(l, texts(words@), i as int),
        decreases n - i,
    {
        let element: &Json = env.item(path, i);
        match check_element(words, element) {
            Some(true) => {
                return Some(element.copy());
            },
            _ => {},
        }
        i = i + 1;
    }
    None
}

/// The environment of a failed condition's message.
pub open spec fn blamed(s: StatementView, env: Tree) -> Tree {
    if parts(s.rest).len() >= 1 && s.op == "each"@ {
        with(env, "it"@, first_unmet(items(env, s.subject), parts(s.rest), 0))
    } else {
        env
    }
}

fn blame(s: &Statement, env: Json) -> (r: Json)
    requires
        env@ is Object,
    ensures
        r@ == blamed(s@, env@),
{
    let inner: Vec<String> = parts_of(s.rest.as_str());
    if inner.len() >= 1 && same_text(s.op.as_str(), "each") {
        let path: &str = s.subject.as_str();
        let n: usize = env.count(path);
        let ghost l = items(env@, path@);
        let ghost condition = parts(s.rest@);
        let mut found: Json = Json::Null;
        let mut i: usize = 0;
        let mut open: bool = true;
        while i < n && open
            invariant
                i <= n,
                n == l.len(),
                l == items(env@, path@),
                condition == texts(inner@),
                open ==> first_unmet(l, condition, 0) == first_unmet(l, condition, i as int),
                open ==> found@ == Tree::Null,
                !open ==> first_unmet(l, condition, 0) == found@,
            decreases n - i,
        {
            let element: &Json = env.item(path, i);
            match check_element(&inner, element) {
                Some(true) => {},
                _ => {
                    found = element.copy();
                    open = false;
                },
            }
            i = i + 1;
        }
        env.with("it", found)
    } else {
        env
    }
}

/// A client answer as a scenario keeps it.
pub open spec fn reply_output(reply: Tree) -> OutputView {
    OutputView {
        code: match at(reply, "exit"@) {
            Tree::Integer(n) => if i32::MIN <= n <= i32::MAX {
                Some(n as i32)
            } else {
                None
            },
            _ => None,
        },
        stdout: text_or_empty(reply, "stdout"@),
        stderr: text_or_empty(reply, "stderr"@),
        document: match found(reply, "document"@) {
            Some(t) => Ok(t),
            None => Err(text_or_empty(reply, "refusal"@)),
        },
    }
}

pub open spec fn text_or_empty(t: Tree, path: Seq<char>) -> Seq<char> {
    match at(t, path) {
        Tree::Text(s) => s,
        _ => seq![],
    }
}

pub(crate) fn text_or_nothing(j: &Json, path: &str) -> (r: String)
    ensures
        r@ == text_or_empty(j@, path@),
{
    match j.text_at(path) {
        Some(s) => s,
        None => String::new(),
    }
}

fn read_reply(reply: &Json) -> (r: crate::application::CliOutput)
    ensures
        crate::application::output_view(r) == reply_output(reply@),
{
    let code: Option<i32> = match reply.find("exit") {
        Some(Json::Unsigned(n)) => if *n <= i32::MAX as u64 {
            Some(*n as i32)
        } else {
            None
        },
        Some(Json::Negative(n)) => if i32::MIN as i64 <= *n && *n <= i32::MAX as i64 {
            Some(*n as i32)
        } else {
            None
        },
        _ => None,
    };
    let document: Result<Json, String> = match reply.find("document") {
        Some(j) => Ok(j.copy()),
        None => Err(text_or_nothing(reply, "refusal")),
    };
    crate::application::CliOutput {
        code,
        stdout: text_or_nothing(reply, "stdout"),
        stderr: text_or_nothing(reply, "stderr"),
        document,
    }
}

/// A client answer whose document stands on standard error.
pub open spec fn reply_diagnostic(reply: Tree) -> OutputView {
    OutputView {
        document: match found(reply, "diagnostic"@) {
            Some(t) => Ok(t),
            None => Err(text_or_empty(reply, "refusal"@)),
        },
        ..reply_output(reply)
    }
}

fn read_diagnostic(reply: &Json) -> (r: crate::application::CliOutput)
    ensures
        crate::application::output_view(r) == reply_diagnostic(reply@),
{
    let output: crate::application::CliOutput = read_reply(reply);
    let document: Result<Json, String> = match reply.find("diagnostic") {
        Some(j) => Ok(j.copy()),
        None => Err(text_or_nothing(reply, "refusal")),
    };
    crate::application::CliOutput {
        code: output.code,
        stdout: output.stdout,
        stderr: output.stderr,
        document,
    }
}

/// What one statement does.
pub enum EffectView {
    /// The next statement runs in this environment.
    Next { env: Tree },
    /// An action is handed out; the next statement reads its answer.
    Ask { words: Seq<Seq<char>> },
    /// An action is handed out, and again until its conditions hold.
    Await { words: Seq<Seq<char>> },
    /// The scenario fails.
    Fail { message: Seq<char> },
}

#[derive(Debug)]
enum Effect {
    Next { env: Json },
    Ask { words: Vec<String> },
    Await { words: Vec<String> },
    Fail { message: String },
}

spec fn effect_view(e: Effect) -> EffectView {
    match e {
        Effect::Next { env } => EffectView::Next { env: env@ },
        Effect::Ask { words } => EffectView::Ask { words: texts(words@) },
        Effect::Await { words } => EffectView::Await { words: texts(words@) },
        Effect::Fail { message } => EffectView::Fail { message: message@ },
    }
}

pub open spec fn asked(words: Option<Seq<Seq<char>>>, again: bool) -> EffectView {
    match words {
        Some(w) => if again {
            EffectView::Await { words: w }
        } else {
            EffectView::Ask { words: w }
        },
        None => EffectView::Fail { message: "scenario value is absent"@ },
    }
}

/// Placing a value in the environment.
pub open spec fn stored(env: Tree, target: Seq<char>, value: Option<Tree>) -> EffectView {
    match value {
        None => EffectView::Fail { message: "scenario statement is unknown"@ },
        Some(t) => if target.len() > 0 && takes(env, segments(target)) {
            EffectView::Next { env: placed(env, segments(target), t) }
        } else {
            EffectView::Fail { message: "scenario value cannot be placed"@ }
        },
    }
}

/// The value that a placing statement places.
pub open spec fn placing(s: StatementView, env: Tree) -> Option<Tree> {
    if s.op == "put"@ {
        Some(at(env, s.rest))
    } else if s.op == "say"@ {
        Some(Tree::Text(s.rest))
    } else if s.op == "tell"@ {
        match number_of(s.rest) {
            Some(n) => Some(Tree::Integer(n as int)),
            None => None,
        }
    } else if s.rest == "true"@ {
        Some(Tree::Bool(true))
    } else if s.rest == "false"@ {
        Some(Tree::Bool(false))
    } else if s.rest == "null"@ {
        Some(Tree::Null)
    } else {
        None
    }
}

/// What a statement about a client's typed failure requires: the exit, the class and the code.
pub open spec fn typed_parts(s: StatementView) -> Option<(u64, Seq<char>, Option<Seq<char>>)> {
    let words = parts(s.rest);
    match unsigned(s.subject, 255) {
        Some(exit) if 1 <= words.len() <= 2 => Some(
            (
                exit as u64,
                words[0],
                if words.len() == 2 {
                    Some(words[1])
                } else {
                    None
                },
            ),
        ),
        _ => None,
    }
}

/// The values at some paths.
pub open spec fn gathered(paths: Seq<Seq<char>>, env: Tree) -> Seq<Tree> {
    paths.map_values(|p: Seq<char>| at(env, p))
}

/// The list of some texts.
pub open spec fn text_list(l: Seq<Seq<char>>) -> Tree {
    Tree::List(l.map_values(|t: Seq<char>| Tree::Text(t)))
}

/// The value of a maker's argument: a text behind `=`, or the value at a path.
pub open spec fn argument(word: Seq<char>, env: Tree) -> Tree {
    if word.len() > 0 && word[0] == '=' {
        Tree::Text(word.skip(1))
    } else {
        at(env, word)
    }
}

pub open spec fn arguments(words: Seq<Seq<char>>, env: Tree) -> Seq<Tree> {
    words.map_values(|w: Seq<char>| argument(w, env))
}

/// What the maker and the arguments that some words name give.
pub open spec fn made_by(words: Seq<Seq<char>>, env: Tree) -> Result<Tree, Seq<char>> {
    if words.len() == 0 {
        Err("scenario statement is unknown"@)
    } else {
        made(words[0], arguments(words.skip(1), env), env)
    }
}

/// The effect of a statement on an environment.
#[verifier::opaque]
pub open spec fn effect_of(s: StatementView, env: Tree) -> EffectView {
    if s.op == "make"@ {
        match made_by(parts(s.rest), env) {
            Ok(t) => EffectView::Next { env: with(env, s.subject, t) },
            Err(message) => EffectView::Fail { message },
        }
    } else {
        plain_effect(s, env)
    }
}

/// The effect of a statement that makes nothing.
#[verifier::opaque]
pub open spec fn plain_effect(s: StatementView, env: Tree) -> EffectView {
    let op = s.op;
    let name = s.subject;
    if op.len() == 0 || op == "--"@ {
        EffectView::Next { env }
    } else if op == "do"@ {
        asked(resolved_words(parts(s.rest), env), false)
    } else if op == "wait"@ || op == "watch"@ || op == "poll"@ {
        asked(resolved_words(parts(s.rest), env), true)
    } else if op == "success"@ {
        match success_of(reply_output(at(env, "reply"@))) {
            Ok(t) => EffectView::Next { env: with(env, name, t) },
            Err(message) => EffectView::Fail { message },
        }
    } else if op == "refused"@ {
        if reply_output(at(env, "reply"@)).code == Some(0i32) {
            EffectView::Fail { message: spoken(s.message, env) }
        } else {
            EffectView::Next { env }
        }
    } else if op == "put"@ || op == "say"@ || op == "tell"@ || op == "mark"@ {
        stored(env, name, placing(s, env))
    } else if op == "gather"@ {
        stored(env, name, Some(Tree::List(gathered(parts(s.rest), env))))
    } else if op == "add"@ {
        match at(env, name) {
            Tree::List(l) => stored(env, name, Some(Tree::List(l.push(at(env, s.rest))))),
            _ => EffectView::Fail { message: spoken(s.message, env) },
        }
    } else if op == "glue"@ {
        match resolved_words(parts(s.rest), env) {
            Some(t) => stored(env, name, Some(Tree::Text(joined_with(t, ""@)))),
            None => EffectView::Fail { message: "scenario value is absent"@ },
        }
    } else if op == "void"@ {
        stored(env, name, Some(Tree::Object(map![])))
    } else if op == "names"@ {
        stored(env, name, Some(text_list(parts(s.rest))))
    } else if op == "size"@ {
        stored(env, name, Some(Tree::Integer(items(env, s.rest).len() as int)))
    } else if op == "error"@ {
        match typed_parts(s) {
            None => EffectView::Fail { message: "scenario statement is unknown"@ },
            Some((exit, class, code)) => match error_problem(
                reply_output(at(env, "reply"@)),
                exit as i32,
                class,
                code,
            ) {
                Some(message) => EffectView::Fail { message },
                None => EffectView::Next { env },
            },
        }
    } else if op == "typed"@ {
        match typed_parts(s) {
            None => EffectView::Fail { message: "scenario statement is unknown"@ },
            Some((exit, class, code)) => match typed_problem(
                reply_diagnostic(at(env, "reply"@)),
                exit as i32,
                class,
                code,
            ) {
                Some(message) => EffectView::Fail { message },
                None => EffectView::Next { env },
            },
        }
    } else if op == "keep"@ {
        EffectView::Next { env: with(env, name, at(env, s.rest)) }
    } else if op == "text"@ {
        match found(env, s.rest) {
            None => EffectView::Fail { message: "JSON field is absent"@ },
            Some(Tree::Text(t)) => EffectView::Next { env: with(env, name, Tree::Text(t)) },
            Some(_) => EffectView::Fail { message: "JSON field is not text"@ },
        }
    } else if op == "number"@ {
        match (found(env, s.rest), unsigned_at(env, s.rest)) {
            (None, _) => EffectView::Fail { message: "JSON field is absent"@ },
            (Some(_), Some(n)) => EffectView::Next {
                env: with(env, name, Tree::Integer(n as int)),
            },
            (Some(_), None) => EffectView::Fail {
                message: "JSON field is not an unsigned integer"@,
            },
        }
    } else if op == "pick"@ {
        let words = parts(s.rest);
        if words.len() < 3 {
            EffectView::Fail { message: "scenario statement is unknown"@ }
        } else {
            match element_with(items(env, words[0]), words[1], Tree::Text(words[2])) {
                Some(t) => EffectView::Next { env: with(env, name, t) },
                None => EffectView::Fail { message: spoken(s.message, env) },
            }
        }
    } else if op == "first"@ {
        let words = parts(s.rest);
        if words.len() < 2 {
            EffectView::Fail { message: "scenario statement is unknown"@ }
        } else {
            match first_met(items(env, words[0]), words.skip(1), 0) {
                Some(t) => EffectView::Next { env: with(env, name, t) },
                None => EffectView::Fail { message: spoken(s.message, env) },
            }
        }
    } else if op == "need"@ {
        match at(env, s.rest) {
            Tree::Text(t) => EffectView::Next { env: with(env, name, Tree::Text(t)) },
            _ => EffectView::Fail { message: spoken(s.message, env) },
        }
    } else if op == "ok"@ {
        match at(env, "reply,error"@) {
            Tree::Text(message) => EffectView::Fail { message },
            _ => EffectView::Next { env: with(env, name, at(env, "reply,value"@)) },
        }
    } else {
        match condition(s, env) {
            Some(true) => EffectView::Next { env },
            Some(false) => EffectView::Fail { message: spoken(s.message, blamed(s, env)) },
            None => EffectView::Fail { message: "scenario statement is unknown"@ },
        }
    }
}

fn store(env: Json, target: &str, value: Option<Json>) -> (r: Effect)
    requires
        env@ is Object,
    ensures
        effect_view(r) == stored(
            env@,
            target@,
            match value {
                Some(j) => Some(j@),
                None => None,
            },
        ),
        r matches Effect::Next { env: e } ==> e@ is Object,
{
    match value {
        None => Effect::Fail { message: "scenario statement is unknown".to_owned() },
        Some(j) => if !target.is_empty() && env.takes(target) {
            Effect::Next { env: env.set(target, j) }
        } else {
            Effect::Fail { message: "scenario value cannot be placed".to_owned() }
        },
    }
}

fn gather(w: &Vec<String>, env: &Json) -> (r: Json)
    ensures
        r@ == Tree::List(gathered(texts(w@), env@)),
{
    let mut out: Json = Json::list();
    let mut i: usize = 0;
    let ghost wanted = gathered(texts(w@), env@);
    proof {
        assert(out@->List_0 =~= wanted.take(0));
    }
    while i < w.len()
        invariant
            i <= w.len(),
            wanted == gathered(texts(w@), env@),
            out@ == Tree::List(wanted.take(i as int)),
        decreases w.len() - i,
    {
        let value: Json = copy_at(env, w[i].as_str());
        proof {
            assert(texts(w@)[i as int] == w@[i as int]@);
            assert(wanted.take(i + 1) =~= wanted.take(i as int).push(value@));
        }
        out = out.and(value);
        i = i + 1;
    }
    proof {
        assert(wanted.take(i as int) =~= wanted);
    }
    out
}

pub(crate) fn name_list(w: &Vec<String>) -> (r: Json)
    ensures
        r@ == text_list(texts(w@)),
{
    let mut out: Json = Json::list();
    let mut i: usize = 0;
    let ghost wanted = text_list(texts(w@))->List_0;
    proof {
        assert(out@->List_0 =~= wanted.take(0));
    }
    while i < w.len()
        invariant
            i <= w.len(),
            wanted == text_list(texts(w@))->List_0,
            out@ == Tree::List(wanted.take(i as int)),
        decreases w.len() - i,
    {
        let value: Json = Json::text(w[i].as_str());
        proof {
            assert(texts(w@)[i as int] == w@[i as int]@);
            assert(wanted.take(i + 1) =~= wanted.take(i as int).push(value@));
        }
        out = out.and(value);
        i = i + 1;
    }
    proof {
        assert(wanted.take(i as int) =~= wanted);
    }
    out
}

proof fn lemma_failure_statements()
    ensures
        "error"@ != "--"@,
        "error"@ != "do"@,
        "error"@ != "wait"@,
        "error"@ != "watch"@,
        "error"@ != "poll"@,
        "error"@ != "success"@,
        "error"@ != "refused"@,
        "error"@ != "put"@,
        "error"@ != "say"@,
        "error"@ != "tell"@,
        "error"@ != "mark"@,
        "error"@ != "gather"@,
        "error"@ != "add"@,
        "error"@ != "glue"@,
        "error"@ != "void"@,
        "error"@ != "names"@,
        "error"@ != "size"@,
        "error"@.len() > 0,
        "typed"@ != "--"@,
        "typed"@ != "do"@,
        "typed"@ != "wait"@,
        "typed"@ != "watch"@,
        "typed"@ != "poll"@,
        "typed"@ != "success"@,
        "typed"@ != "refused"@,
        "typed"@ != "put"@,
        "typed"@ != "say"@,
        "typed"@ != "tell"@,
        "typed"@ != "mark"@,
        "typed"@ != "gather"@,
        "typed"@ != "add"@,
        "typed"@ != "glue"@,
        "typed"@ != "void"@,
        "typed"@ != "names"@,
        "typed"@ != "size"@,
        "typed"@.len() > 0,
        "typed"@ != "error"@,
{
    reveal_strlit("--");
    assert("--"@.len() == 2);
    reveal_strlit("do");
    assert("do"@.len() == 2);
    reveal_strlit("wait");
    assert("wait"@.len() == 4);
    reveal_strlit("watch");
    assert("watch"@.len() == 5);
    reveal_strlit("poll");
    assert("poll"@.len() == 4);
    reveal_strlit("success");
    assert("success"@.len() == 7);
    reveal_strlit("refused");
    assert("refused"@.len() == 7);
    reveal_strlit("put");
    assert("put"@.len() == 3);
    reveal_strlit("say");
    assert("say"@.len() == 3);
    reveal_strlit("tell");
    assert("tell"@.len() == 4);
    reveal_strlit("mark");
    assert("mark"@.len() == 4);
    reveal_strlit("gather");
    assert("gather"@.len() == 6);
    reveal_strlit("add");
    assert("add"@.len() == 3);
    reveal_strlit("glue");
    assert("glue"@.len() == 4);
    reveal_strlit("void");
    assert("void"@.len() == 4);
    reveal_strlit("names");
    assert("names"@.len() == 5);
    reveal_strlit("size");
    assert("size"@.len() == 4);
    reveal_strlit("error");
    assert("error"@.len() == 5);
    reveal_strlit("typed");
    assert("typed"@.len() == 5);
    assert("error"@[0] != "watch"@[0]);
    assert("error"@[0] != "names"@[0]);
    assert("typed"@[0] != "watch"@[0]);
    assert("typed"@[0] != "names"@[0]);
    assert("typed"@[0] != "error"@[0]);
}

fn require_failure(s: &Statement, env: Json) -> (r: Effect)
    requires
        env@ is Object,
        s.op@ == "error"@ || s.op@ == "typed"@,
    ensures
        effect_view(r) == plain_effect(s@, env@),
        r matches Effect::Next { env: e } ==> e@ is Object,
{
    let w: Vec<String> = parts_of(s.rest.as_str());
    let ghost view = texts(w@);
    proof {
        reveal(plain_effect);
        lemma_failure_statements();
        assert(forall|i: int| 0 <= i < w@.len() ==> view[i] == w@[i]@);
    }
    let exit: Option<u64> = parse_unsigned(s.subject.as_str(), 255);
    match exit {
        Some(exit) if w.len() == 1 || w.len() == 2 => {
            let reply: Json = copy_at(&env, "reply");
            let code: Option<&str> = if w.len() == 2 {
                Some(w[1].as_str())
            } else {
                None
            };
            let problem: Checked<()> = if same_text(s.op.as_str(), "error") {
                crate::application::assert_error(
                    &read_reply(&reply),
                    exit as i32,
                    w[0].as_str(),
                    code,
                )
            } else {
                crate::harness::assert_error(
                    &read_diagnostic(&reply),
                    exit as i32,
                    w[0].as_str(),
                    code,
                )
            };
            match problem {
                Ok(_) => Effect::Next { env },
                Err(f) => Effect::Fail { message: f.message },
            }
        },
        _ => Effect::Fail { message: "scenario statement is unknown".to_owned() },
    }
}

fn make_arguments(words: &Vec<String>, env: &Json) -> (r: Vec<Json>)
    requires
        words.len() > 0,
    ensures
        trees(r@) == arguments(texts(words@).skip(1), env@),
{
    let ghost wanted = arguments(texts(words@).skip(1), env@);
    let mut out: Vec<Json> = Vec::new();
    let mut i: usize = 1;
    proof {
        assert(trees(out@) =~= wanted.take(0));
    }
    while i < words.len()
        invariant
            1 <= i <= words.len(),
            wanted == arguments(texts(words@).skip(1), env@),
            trees(out@) == wanted.take(i - 1),
        decreases words.len() - i,
    {
        let word: &str = words[i].as_str();
        let value: Json = match after_equals(word) {
            Some(t) => Json::Text(t),
            None => copy_at(env, word),
        };
        proof {
            assert(texts(words@).skip(1)[i - 1] == word@);
            assert(wanted[i - 1] == value@);
            lemma_trees_push(out@, value);
            assert(wanted.take(i as int) =~= wanted.take(i - 1).push(value@));
        }
        out.push(value);
        i = i + 1;
    }
    proof {
        assert(wanted.take(i - 1) =~= wanted);
    }
    out
}

fn after_equals(word: &str) -> (r: Option<String>)
    ensures
        r matches Some(t) ==> word@.len() > 0 && word@[0] == '=' && t@ == word@.skip(1),
        r is None ==> !(word@.len() > 0 && word@[0] == '='),
{
    let n: usize = word.unicode_len();
    if n > 0 && word.get_char(0) == '=' {
        let t: String = part(word, 1, n);
        proof {
            assert(t@ =~= word@.skip(1));
        }
        Some(t)
    } else {
        None
    }
}

fn make_named(words: &Vec<String>, env: &Json) -> (r: Checked<Json>)
    requires
        env@ is Object,
    ensures
        document_result(r) == made_by(texts(words@), env@),
{
    if words.len() == 0 {
        return Err(failure("scenario statement is unknown"));
    }
    let args: Vec<Json> = make_arguments(words, env);
    proof {
        assert(texts(words@)[0] == words@[0]@);
    }
    make(words[0].as_str(), &args, env)
}

fn until_is_met(words: &Vec<String>, env: &Json) -> (r: bool)
    requires
        env@ is Object,
    ensures
        r == until_met(texts(words@), env@),
{
    proof {
        assert(words@.len() > 0 ==> texts(words@)[0] == words@[0]@);
    }
    if words.len() > 0 && same_text(words[0].as_str(), "yields") {
        match make_named(&rest_of(words, 1), env) {
            Ok(Json::List(l)) => {
                proof {
                    lemma_trees(l@);
                }
                l.len() > 0
            },
            _ => true,
        }
    } else {
        match evaluate(words, env) {
            Some(true) => true,
            _ => false,
        }
    }
}

fn perform(s: &Statement, env: Json) -> (r: Effect)
    requires
        env@ is Object,
    ensures
        effect_view(r) == effect_of(s@, env@),
        r matches Effect::Next { env: e } ==> e@ is Object,
{
    proof {
        reveal(effect_of);
    }
    if same_text(s.op.as_str(), "make") {
        match make_named(&parts_of(s.rest.as_str()), &env) {
            Ok(j) => Effect::Next { env: env.with(s.subject.as_str(), j) },
            Err(f) => Effect::Fail { message: f.message },
        }
    } else {
        perform_plain(s, env)
    }
}

fn perform_plain(s: &Statement, env: Json) -> (r: Effect)
    requires
        env@ is Object,
    ensures
        effect_view(r) == plain_effect(s@, env@),
        r matches Effect::Next { env: e } ==> e@ is Object,
{
    proof {
        reveal(plain_effect);
    }
    let op: &str = s.op.as_str();
    let name: &str = s.subject.as_str();
    let rest: &str = s.rest.as_str();
    if op.is_empty() || same_text(op, "--") {
        return Effect::Next { env };
    }
    if same_text(op, "do") {
        return match resolve_all(&parts_of(rest), &env) {
            Some(words) => Effect::Ask { words },
            None => Effect::Fail { message: "scenario value is absent".to_owned() },
        };
    }
    if same_text(op, "wait") || same_text(op, "watch") || same_text(op, "poll") {
        return match resolve_all(&parts_of(rest), &env) {
            Some(words) => Effect::Await { words },
            None => Effect::Fail { message: "scenario value is absent".to_owned() },
        };
    }
    if same_text(op, "success") {
        let reply: Json = copy_at(&env, "reply");
        return match crate::application::accept_success(&read_reply(&reply)) {
            Ok(j) => Effect::Next { env: env.with(name, j) },
            Err(f) => Effect::Fail { message: f.message },
        };
    }
    if same_text(op, "refused") {
        let reply: Json = copy_at(&env, "reply");
        return match read_reply(&reply).code {
            Some(0) => Effect::Fail { message: speak(s.message.as_str(), &env) },
            _ => Effect::Next { env },
        };
    }
    if same_text(op, "put") {
        let value: Json = copy_at(&env, rest);
        return store(env, name, Some(value));
    }
    if same_text(op, "say") {
        return store(env, name, Some(Json::text(rest)));
    }
    if same_text(op, "tell") {
        return match number_value(rest) {
            Some(n) => store(env, name, Some(Json::number(n))),
            None => store(env, name, None),
        };
    }
    if same_text(op, "mark") {
        let value: Option<Json> = if same_text(rest, "true") {
            Some(Json::Bool(true))
        } else if same_text(rest, "false") {
            Some(Json::Bool(false))
        } else if same_text(rest, "null") {
            Some(Json::Null)
        } else {
            None
        };
        return store(env, name, value);
    }
    if same_text(op, "gather") {
        let value: Json = gather(&parts_of(rest), &env);
        return store(env, name, Some(value));
    }
    if same_text(op, "add") {
        if !env.is_list(name) {
            return Effect::Fail { message: speak(s.message.as_str(), &env) };
        }
        let value: Json = copy_at(&env, name).and(copy_at(&env, rest));
        return store(env, name, Some(value));
    }
    if same_text(op, "glue") {
        return match resolve_all(&parts_of(rest), &env) {
            Some(t) => store(env, name, Some(Json::Text(join(&t, "")))),
            None => Effect::Fail { message: "scenario value is absent".to_owned() },
        };
    }
    if same_text(op, "void") {
        return store(env, name, Some(Json::object()));
    }
    if same_text(op, "names") {
        let value: Json = name_list(&parts_of(rest));
        return store(env, name, Some(value));
    }
    if same_text(op, "size") {
        let n: usize = env.count(rest);
        return store(env, name, Some(Json::number(n as u64)));
    }
    if same_text(op, "error") || same_text(op, "typed") {
        return require_failure(s, env);
    }
    if same_text(op, "keep") {
        let value: Json = copy_at(&env, rest);
        return Effect::Next { env: env.with(name, value) };
    }
    if same_text(op, "text") {
        let value: Json = match env.find(rest) {
            None => {
                return Effect::Fail { message: "JSON field is absent".to_owned() };
            },
            Some(Json::Text(t)) => Json::text(t.as_str()),
            Some(_) => {
                return Effect::Fail { message: "JSON field is not text".to_owned() };
            },
        };
        return Effect::Next { env: env.with(name, value) };
    }
    if same_text(op, "number") {
        if env.find(rest).is_none() {
            return Effect::Fail { message: "JSON field is absent".to_owned() };
        }
        return match env.number_at(rest) {
            Some(n) => Effect::Next { env: env.with(name, Json::number(n)) },
            None => Effect::Fail { message: "JSON field is not an unsigned integer".to_owned() },
        };
    }
    if same_text(op, "pick") {
        let w: Vec<String> = parts_of(rest);
        let ghost view = texts(w@);
        proof {
            assert(forall|i: int| 0 <= i < w@.len() ==> view[i] == w@[i]@);
        }
        if w.len() < 3 {
            return Effect::Fail { message: "scenario statement is unknown".to_owned() };
        }
        let picked: Option<Json> = match env.item_with(
            w[0].as_str(),
            w[1].as_str(),
            w[2].as_str(),
        ) {
            Some(j) => Some(j.copy()),
            None => None,
        };
        return match picked {
            Some(j) => Effect::Next { env: env.with(name, j) },
            None => Effect::Fail { message: speak(s.message.as_str(), &env) },
        };
    }
    if same_text(op, "first") {
        let w: Vec<String> = parts_of(rest);
        let ghost view = texts(w@);
        proof {
            assert(forall|i: int| 0 <= i < w@.len() ==> view[i] == w@[i]@);
        }
        if w.len() < 2 {
            return Effect::Fail { message: "scenario statement is unknown".to_owned() };
        }
        let picked: Option<Json> = first_element(&env, w[0].as_str(), &rest_of(&w, 1));
        return match picked {
            Some(j) => Effect::Next { env: env.with(name, j) },
            None => Effect::Fail { message: speak(s.message.as_str(), &env) },
        };
    }
    if same_text(op, "need") {
        return match env.text_at(rest) {
            Some(t) => Effect::Next { env: env.with(name, Json::Text(t)) },
            None => Effect::Fail { message: speak(s.message.as_str(), &env) },
        };
    }
    if same_text(op, "ok") {
        return match env.text_at("reply,error") {
            Some(message) => Effect::Fail { message },
            None => {
                let value: Json = copy_at(&env, "reply,value");
                Effect::Next { env: env.with(name, value) }
            },
        };
    }
    match decide(s, &env) {
        Some(true) => Effect::Next { env },
        Some(false) => Effect::Fail { message: speak(s.message.as_str(), &blame(s, env)) },
        None => Effect::Fail { message: "scenario statement is unknown".to_owned() },
    }
}

/// A scenario under way: its statements, the next one to run and what is known so far.
#[derive(Debug)]
pub struct Scenario {
    statements: Vec<Statement>,
    position: usize,
    waiting: bool,
    env: Json,
}

pub struct ScenarioView {
    pub statements: Seq<StatementView>,
    pub position: int,
    pub waiting: bool,
    pub env: Tree,
}

impl View for Scenario {
    type V = ScenarioView;

    closed spec fn view(&self) -> ScenarioView {
        ScenarioView {
            statements: statement_views(self.statements@),
            position: self.position as int,
            waiting: self.waiting,
            env: self.env@,
        }
    }
}

/// What a scenario asks of its surroundings next.
#[derive(Debug)]
pub enum Step {
    /// Perform this action and resume with its answer; `again` repeats one that was answered.
    Perform { words: Vec<String>, again: bool },
    /// Every statement ran.
    Done,
    /// A check did not hold.
    Failed { message: String },
}

pub enum StepView {
    Perform { words: Seq<Seq<char>>, again: bool },
    Done,
    Failed { message: Seq<char> },
}

impl View for Step {
    type V = StepView;

    open spec fn view(&self) -> StepView {
        match *self {
            Step::Perform { words, again } => StepView::Perform { words: texts(words@), again },
            Step::Done => StepView::Done,
            Step::Failed { message } => StepView::Failed { message: message@ },
        }
    }
}

/// A scenario that can be run: it stands at a statement or behind the last one, and it waits only
/// at a `wait` statement.
pub open spec fn well_formed(v: ScenarioView) -> bool {
    &&& v.env is Object
    &&& 0 <= v.position <= v.statements.len()
    &&& v.waiting ==> v.position < v.statements.len()
}

/// Runs statements up to the next action, the end or a failure.
pub open spec fn continued(v: ScenarioView) -> (ScenarioView, StepView)
    decreases v.statements.len() - v.position,
{
    if v.position < 0 || v.position >= v.statements.len() {
        (ScenarioView { waiting: false, ..v }, StepView::Done)
    } else {
        match effect_of(v.statements[v.position], v.env) {
            EffectView::Next { env } => continued(
                ScenarioView { position: v.position + 1, waiting: false, env, ..v },
            ),
            EffectView::Ask { words } => (
                ScenarioView { position: v.position + 1, waiting: false, ..v },
                StepView::Perform { words, again: false },
            ),
            EffectView::Await { words } => (
                ScenarioView { waiting: true, ..v },
                StepView::Perform { words, again: false },
            ),
            EffectView::Fail { message } => (
                ScenarioView { waiting: false, ..v },
                StepView::Failed { message },
            ),
        }
    }
}

/// Whether a scenario stands at a condition that does not hold.
pub open spec fn refuted_at(v: ScenarioView) -> bool {
    &&& 0 <= v.position < v.statements.len()
    &&& condition(v.statements[v.position], v.env) == Some(false)
}

/// The first statement from `from` on that is no `until` condition.
pub open spec fn until_end(statements: Seq<StatementView>, from: int) -> int
    decreases statements.len() - from,
{
    if from < 0 || from >= statements.len() {
        from
    } else if statements[from].op == "until"@ {
        until_end(statements, from + 1)
    } else {
        from
    }
}

/// Whether what an `until` says holds: its condition, or that a maker gives something or fails.
pub open spec fn until_met(words: Seq<Seq<char>>, env: Tree) -> bool {
    if words.len() > 0 && words[0] == "yields"@ {
        match made_by(words.skip(1), env) {
            Ok(Tree::List(l)) => l.len() > 0,
            _ => true,
        }
    } else {
        holds(words, env) == Some(true)
    }
}

/// Whether all `until` conditions from `from` on hold.
pub open spec fn until_holds(statements: Seq<StatementView>, from: int, env: Tree) -> bool {
    forall|i: int|
        from <= i < until_end(statements, from) ==> until_met(
            parts((#[trigger] statements[i]).rest),
            env,
        )
}

/// What the answer to a repeated protocol request leads to.
pub open spec fn watched(v: ScenarioView, expired: bool) -> (ScenarioView, StepView) {
    let s = v.statements[v.position];
    let reply = at(v.env, "reply"@);
    let next = with(v.env, s.subject, at(reply, "value"@));
    let words = resolved_words(parts(s.rest), v.env);
    let stopped = ScenarioView { waiting: false, ..v };
    match words {
        None => (stopped, StepView::Failed { message: "scenario value is absent"@ }),
        Some(w) => if at(reply, "stalled"@) == Tree::Bool(true) {
            (stopped, StepView::Failed { message: overdue(last_word(w), reply) })
        } else if at(reply, "error"@) is Text {
            (stopped, StepView::Failed { message: at(reply, "error"@)->Text_0 })
        } else if until_holds(v.statements, v.position + 1, next) {
            continued(
                ScenarioView {
                    position: until_end(v.statements, v.position + 1),
                    waiting: false,
                    env: next,
                    ..v
                },
            )
        } else if at(reply, "value,lifecycle"@) == Tree::Text("terminal"@) {
            (
                stopped,
                StepView::Failed {
                    message: "run "@ + last_word(w) + " reached unexpected terminal state: "@
                        + text_or_empty(reply, "rendered"@),
                },
            )
        } else if expired {
            (stopped, StepView::Failed { message: overdue(last_word(w), reply) })
        } else {
            (v, StepView::Perform { words: w, again: true })
        },
    }
}

/// The message of a run that did not reach its state in time, with the last state that was read.
pub open spec fn overdue(run: Seq<char>, reply: Tree) -> Seq<char> {
    "run "@ + run + " did not reach the expected state within "@ + text_or_empty(
        reply,
        "seconds"@,
    ) + " seconds; last="@ + text_or_empty(reply, "last"@)
}

/// What the answer to another repeated action leads to.
pub open spec fn probed(v: ScenarioView, expired: bool) -> (ScenarioView, StepView) {
    let s = v.statements[v.position];
    let reply = at(v.env, "reply"@);
    let next = with(v.env, s.subject, at(reply, "value"@));
    let stopped = ScenarioView { waiting: false, ..v };
    match resolved_words(parts(s.rest), v.env) {
        None => (stopped, StepView::Failed { message: "scenario value is absent"@ }),
        Some(w) => if at(reply, "error"@) is Text {
            (stopped, StepView::Failed { message: at(reply, "error"@)->Text_0 })
        } else if until_holds(v.statements, v.position + 1, next) {
            continued(
                ScenarioView {
                    position: until_end(v.statements, v.position + 1),
                    waiting: false,
                    env: next,
                    ..v
                },
            )
        } else if expired {
            (stopped, StepView::Failed { message: spoken(s.message, v.env) })
        } else {
            (v, StepView::Perform { words: w, again: true })
        },
    }
}

/// What a repeated action's answer leads to.
pub open spec fn awaited(v: ScenarioView, expired: bool) -> (ScenarioView, StepView) {
    if v.statements[v.position].op == "watch"@ {
        watched(v, expired)
    } else if v.statements[v.position].op == "poll"@ {
        probed(v, expired)
    } else {
        polled(v, expired)
    }
}

/// What the answer to a repeated client command leads to.
pub open spec fn polled(v: ScenarioView, expired: bool) -> (ScenarioView, StepView) {
    let s = v.statements[v.position];
    let reply = reply_output(at(v.env, "reply"@));
    let next = with(
        v.env,
        s.subject,
        match line_document(reply.stdout, reply.document) {
            Ok(t) => t,
            Err(_) => Tree::Null,
        },
    );
    let words = resolved_words(parts(s.rest), v.env);
    if reply.code == Some(0i32) && line_document(reply.stdout, reply.document) is Err {
        (
            ScenarioView { waiting: false, ..v },
            StepView::Failed { message: line_document(reply.stdout, reply.document)->Err_0 },
        )
    } else if reply.code == Some(0i32) && until_holds(v.statements, v.position + 1, next) {
        continued(
            ScenarioView {
                position: until_end(v.statements, v.position + 1),
                waiting: false,
                env: next,
                ..v
            },
        )
    } else {
        match words {
            None => (
                ScenarioView { waiting: false, ..v },
                StepView::Failed { message: "scenario value is absent"@ },
            ),
            Some(w) => if expired {
                (
                    ScenarioView { waiting: false, ..v },
                    StepView::Failed {
                        message: "run "@ + last_word(w)
                            + " did not reach its bounded expected state: "@ + reply.stdout,
                    },
                )
            } else {
                (v, StepView::Perform { words: w, again: true })
            },
        }
    }
}

pub open spec fn last_word(words: Seq<Seq<char>>) -> Seq<char> {
    if words.len() == 0 {
        seq![]
    } else {
        words.last()
    }
}

/// What an answer leads to; `expired` tells that a repeated action's deadline has passed.
pub open spec fn resumed(v: ScenarioView, reply: Tree, expired: bool) -> (ScenarioView, StepView) {
    let known = ScenarioView { env: with(v.env, "reply"@, reply), ..v };
    if v.waiting {
        awaited(known, expired)
    } else {
        continued(known)
    }
}

proof fn lemma_until_end(statements: Seq<StatementView>, from: int)
    requires
        0 <= from <= statements.len(),
    ensures
        from <= until_end(statements, from) <= statements.len(),
    decreases statements.len() - from,
{
    if from < statements.len() && statements[from].op == "until"@ {
        lemma_until_end(statements, from + 1);
    }
}

proof fn lemma_continued(v: ScenarioView)
    requires
        v.env is Object,
        0 <= v.position <= v.statements.len(),
    ensures
        continued(v).0.statements == v.statements,
        v.position <= continued(v).0.position <= v.statements.len(),
        well_formed(continued(v).0),
        continued(v).1 is Done ==> continued(v).0.position == v.statements.len(),
    decreases v.statements.len() - v.position,
{
    if v.position < v.statements.len() {
        lemma_next_is_object(v.statements[v.position], v.env);
        match effect_of(v.statements[v.position], v.env) {
            EffectView::Next { env } => {
                lemma_continued(
                    ScenarioView { position: v.position + 1, waiting: false, env, ..v },
                );
            },
            _ => {},
        }
    }
}

pub proof fn lemma_next_is_object(s: StatementView, env: Tree)
    requires
        env is Object,
    ensures
        effect_of(s, env) matches EffectView::Next { env: e } ==> e is Object,
{
    reveal(effect_of);
    reveal(plain_effect);
}

/// An `until` has no effect of its own: it only stands behind a repeated action.
pub proof fn lemma_until_is_no_statement(s: StatementView, env: Tree)
    requires
        s.op == "until"@,
    ensures
        effect_of(s, env) is Fail,
{
    reveal(effect_of);
    reveal(plain_effect);
    reveal_strlit("make");
    assert("make"@.len() == 4);
    reveal(truth_of);
    reveal_strlit("until");
    assert("until"@.len() == 5);
    reveal_strlit("--");
    assert("--"@.len() == 2);
    reveal_strlit("do");
    assert("do"@.len() == 2);
    reveal_strlit("wait");
    assert("wait"@.len() == 4);
    reveal_strlit("watch");
    assert("watch"@.len() == 5);
    assert("watch"@[0] != "until"@[0]);
    reveal_strlit("poll");
    assert("poll"@.len() == 4);
    reveal_strlit("success");
    assert("success"@.len() == 7);
    reveal_strlit("refused");
    assert("refused"@.len() == 7);
    reveal_strlit("put");
    assert("put"@.len() == 3);
    reveal_strlit("say");
    assert("say"@.len() == 3);
    reveal_strlit("tell");
    assert("tell"@.len() == 4);
    reveal_strlit("mark");
    assert("mark"@.len() == 4);
    reveal_strlit("gather");
    assert("gather"@.len() == 6);
    reveal_strlit("add");
    assert("add"@.len() == 3);
    reveal_strlit("glue");
    assert("glue"@.len() == 4);
    reveal_strlit("void");
    assert("void"@.len() == 4);
    reveal_strlit("names");
    assert("names"@.len() == 5);
    assert("names"@[0] != "until"@[0]);
    reveal_strlit("size");
    assert("size"@.len() == 4);
    reveal_strlit("error");
    assert("error"@.len() == 5);
    assert("error"@[0] != "until"@[0]);
    reveal_strlit("typed");
    assert("typed"@.len() == 5);
    assert("typed"@[0] != "until"@[0]);
    reveal_strlit("keep");
    assert("keep"@.len() == 4);
    reveal_strlit("text");
    assert("text"@.len() == 4);
    reveal_strlit("number");
    assert("number"@.len() == 6);
    reveal_strlit("pick");
    assert("pick"@.len() == 4);
    reveal_strlit("first");
    assert("first"@.len() == 5);
    assert("first"@[0] != "until"@[0]);
    reveal_strlit("need");
    assert("need"@.len() == 4);
    reveal_strlit("ok");
    assert("ok"@.len() == 2);
    reveal_strlit("either");
    assert("either"@.len() == 6);
    reveal_strlit("matching");
    assert("matching"@.len() == 8);
    reveal_strlit("each");
    assert("each"@.len() == 4);
    reveal_strlit("any");
    assert("any"@.len() == 3);
    reveal_strlit("none");
    assert("none"@.len() == 4);
    reveal_strlit("where");
    assert("where"@.len() == 5);
    assert("where"@[0] != "until"@[0]);
    reveal_strlit("is");
    assert("is"@.len() == 2);
    reveal_strlit("isnot");
    assert("isnot"@.len() == 5);
    assert("isnot"@[0] != "until"@[0]);
    reveal_strlit("true");
    assert("true"@.len() == 4);
    reveal_strlit("false");
    assert("false"@.len() == 5);
    assert("false"@[0] != "until"@[0]);
    reveal_strlit("null");
    assert("null"@.len() == 4);
    reveal_strlit("some");
    assert("some"@.len() == 4);
    reveal_strlit("object");
    assert("object"@.len() == 6);
    reveal_strlit("list");
    assert("list"@.len() == 4);
    reveal_strlit("string");
    assert("string"@.len() == 6);
    reveal_strlit("whole");
    assert("whole"@.len() == 5);
    assert("whole"@[0] != "until"@[0]);
    reveal_strlit("positive");
    assert("positive"@.len() == 8);
    reveal_strlit("nonempty");
    assert("nonempty"@.len() == 8);
    reveal_strlit("empty");
    assert("empty"@.len() == 5);
    assert("empty"@[0] != "until"@[0]);
    reveal_strlit("num");
    assert("num"@.len() == 3);
    reveal_strlit("below");
    assert("below"@.len() == 5);
    assert("below"@[0] != "until"@[0]);
    reveal_strlit("len");
    assert("len"@.len() == 3);
    reveal_strlit("keys");
    assert("keys"@.len() == 4);
    reveal_strlit("same");
    assert("same"@.len() == 4);
    reveal_strlit("differs");
    assert("differs"@.len() == 7);
    reveal_strlit("reaches");
    assert("reaches"@.len() == 7);
    reveal_strlit("exceeds");
    assert("exceeds"@.len() == 7);
    reveal_strlit("follows");
    assert("follows"@.len() == 7);
    reveal_strlit("contains");
    assert("contains"@.len() == 8);
    reveal_strlit("lacks");
    assert("lacks"@.len() == 5);
    assert("lacks"@[0] != "until"@[0]);
    reveal_strlit("mentions");
    assert("mentions"@.len() == 8);
    reveal_strlit("omits");
    assert("omits"@.len() == 5);
    assert("omits"@[0] != "until"@[0]);
    reveal_strlit("starts");
    assert("starts"@.len() == 6);
    reveal_strlit("ends");
    assert("ends"@.len() == 4);
    reveal_strlit("trims");
    assert("trims"@.len() == 5);
    assert("trims"@[0] != "until"@[0]);
    reveal_strlit("member");
    assert("member"@.len() == 6);
    reveal_strlit("holds");
    assert("holds"@.len() == 5);
    assert("holds"@[0] != "until"@[0]);
    reveal_strlit("ascending");
    assert("ascending"@.len() == 9);
}

proof fn lemma_make_is_not_plain(s: StatementView, env: Tree)
    requires
        s.op == "make"@,
    ensures
        plain_effect(s, env) is Fail,
{
    reveal(plain_effect);
    reveal(truth_of);
    reveal_strlit("make");
    assert("make"@.len() == 4);
    reveal_strlit("--");
    assert("--"@.len() == 2);
    reveal_strlit("do");
    assert("do"@.len() == 2);
    reveal_strlit("wait");
    assert("wait"@.len() == 4);
    assert("wait"@[0] != "make"@[0]);
    reveal_strlit("watch");
    assert("watch"@.len() == 5);
    reveal_strlit("poll");
    assert("poll"@.len() == 4);
    assert("poll"@[0] != "make"@[0]);
    reveal_strlit("success");
    assert("success"@.len() == 7);
    reveal_strlit("refused");
    assert("refused"@.len() == 7);
    reveal_strlit("put");
    assert("put"@.len() == 3);
    reveal_strlit("say");
    assert("say"@.len() == 3);
    reveal_strlit("tell");
    assert("tell"@.len() == 4);
    assert("tell"@[0] != "make"@[0]);
    reveal_strlit("mark");
    assert("mark"@.len() == 4);
    assert("mark"@[2] != "make"@[2]);
    reveal_strlit("gather");
    assert("gather"@.len() == 6);
    reveal_strlit("add");
    assert("add"@.len() == 3);
    reveal_strlit("glue");
    assert("glue"@.len() == 4);
    assert("glue"@[0] != "make"@[0]);
    reveal_strlit("void");
    assert("void"@.len() == 4);
    assert("void"@[0] != "make"@[0]);
    reveal_strlit("names");
    assert("names"@.len() == 5);
    reveal_strlit("size");
    assert("size"@.len() == 4);
    assert("size"@[0] != "make"@[0]);
    reveal_strlit("error");
    assert("error"@.len() == 5);
    reveal_strlit("typed");
    assert("typed"@.len() == 5);
    reveal_strlit("keep");
    assert("keep"@.len() == 4);
    assert("keep"@[0] != "make"@[0]);
    reveal_strlit("text");
    assert("text"@.len() == 4);
    assert("text"@[0] != "make"@[0]);
    reveal_strlit("number");
    assert("number"@.len() == 6);
    reveal_strlit("pick");
    assert("pick"@.len() == 4);
    assert("pick"@[0] != "make"@[0]);
    reveal_strlit("first");
    assert("first"@.len() == 5);
    reveal_strlit("need");
    assert("need"@.len() == 4);
    assert("need"@[0] != "make"@[0]);
    reveal_strlit("ok");
    assert("ok"@.len() == 2);
    reveal_strlit("either");
    assert("either"@.len() == 6);
    reveal_strlit("matching");
    assert("matching"@.len() == 8);
    reveal_strlit("each");
    assert("each"@.len() == 4);
    assert("each"@[0] != "make"@[0]);
    reveal_strlit("any");
    assert("any"@.len() == 3);
    reveal_strlit("none");
    assert("none"@.len() == 4);
    assert("none"@[0] != "make"@[0]);
    reveal_strlit("where");
    assert("where"@.len() == 5);
    reveal_strlit("is");
    assert("is"@.len() == 2);
    reveal_strlit("isnot");
    assert("isnot"@.len() == 5);
    reveal_strlit("true");
    assert("true"@.len() == 4);
    assert("true"@[0] != "make"@[0]);
    reveal_strlit("false");
    assert("false"@.len() == 5);
    reveal_strlit("null");
    assert("null"@.len() == 4);
    assert("null"@[0] != "make"@[0]);
    reveal_strlit("some");
    assert("some"@.len() == 4);
    assert("some"@[0] != "make"@[0]);
    reveal_strlit("object");
    assert("object"@.len() == 6);
    reveal_strlit("list");
    assert("list"@.len() == 4);
    assert("list"@[0] != "make"@[0]);
    reveal_strlit("string");
    assert("string"@.len() == 6);
    reveal_strlit("whole");
    assert("whole"@.len() == 5);
    reveal_strlit("positive");
    assert("positive"@.len() == 8);
    reveal_strlit("nonempty");
    assert("nonempty"@.len() == 8);
    reveal_strlit("empty");
    assert("empty"@.len() == 5);
    reveal_strlit("num");
    assert("num"@.len() == 3);
    reveal_strlit("below");
    assert("below"@.len() == 5);
    reveal_strlit("len");
    assert("len"@.len() == 3);
    reveal_strlit("keys");
    assert("keys"@.len() == 4);
    assert("keys"@[0] != "make"@[0]);
    reveal_strlit("same");
    assert("same"@.len() == 4);
    assert("same"@[0] != "make"@[0]);
    reveal_strlit("differs");
    assert("differs"@.len() == 7);
    reveal_strlit("reaches");
    assert("reaches"@.len() == 7);
    reveal_strlit("exceeds");
    assert("exceeds"@.len() == 7);
    reveal_strlit("follows");
    assert("follows"@.len() == 7);
    reveal_strlit("contains");
    assert("contains"@.len() == 8);
    reveal_strlit("lacks");
    assert("lacks"@.len() == 5);
    reveal_strlit("mentions");
    assert("mentions"@.len() == 8);
    reveal_strlit("omits");
    assert("omits"@.len() == 5);
    reveal_strlit("starts");
    assert("starts"@.len() == 6);
    reveal_strlit("ends");
    assert("ends"@.len() == 4);
    assert("ends"@[0] != "make"@[0]);
    reveal_strlit("trims");
    assert("trims"@.len() == 5);
    reveal_strlit("member");
    assert("member"@.len() == 6);
    reveal_strlit("holds");
    assert("holds"@.len() == 5);
    reveal_strlit("ascending");
    assert("ascending"@.len() == 9);
}

/// The last answer is what stands under `reply`.
pub proof fn lemma_reply(env: Tree, reply: Tree)
    ensures
        at(with(env, "reply"@, reply), "reply"@) == reply,
{
    reveal_strlit("reply");
    crate::json::keys_are_found(with(env, "reply"@, reply), "reply"@);
}

/// An answer never changes a scenario's statements, never moves it back, and leaves it runnable.
pub proof fn scenarios_only_move_forward(v: ScenarioView, reply: Tree, expired: bool)
    requires
        well_formed(v),
    ensures
        ({
            let after = resumed(v, reply, expired).0;
            &&& after.statements == v.statements
            &&& v.position <= after.position
            &&& well_formed(after)
        }),
{
    let known = ScenarioView { env: with(v.env, "reply"@, reply), ..v };
    if v.waiting {
        let s = known.statements[known.position];
        let out = reply_output(at(known.env, "reply"@));
        let next = with(
            known.env,
            s.subject,
            match line_document(out.stdout, out.document) {
                Ok(t) => t,
                Err(_) => Tree::Null,
            },
        );
        lemma_until_end(v.statements, v.position + 1);
        lemma_continued(
            ScenarioView {
                position: until_end(v.statements, v.position + 1),
                waiting: false,
                env: with(known.env, s.subject, at(at(known.env, "reply"@), "value"@)),
                ..known
            },
        );
        lemma_continued(
            ScenarioView {
                position: until_end(v.statements, v.position + 1),
                waiting: false,
                env: next,
                ..known
            },
        );
    } else {
        lemma_continued(known);
    }
}

/// A scenario is done only when it stands behind its last statement.
pub proof fn done_scenarios_ran_every_statement(v: ScenarioView, reply: Tree, expired: bool)
    requires
        well_formed(v),
        resumed(v, reply, expired).1 is Done,
    ensures
        resumed(v, reply, expired).0.position == v.statements.len(),
{
    let known = ScenarioView { env: with(v.env, "reply"@, reply), ..v };
    if v.waiting {
        let s = known.statements[known.position];
        let out = reply_output(at(known.env, "reply"@));
        let next = with(
            known.env,
            s.subject,
            match line_document(out.stdout, out.document) {
                Ok(t) => t,
                Err(_) => Tree::Null,
            },
        );
        lemma_until_end(v.statements, v.position + 1);
        lemma_continued(
            ScenarioView {
                position: until_end(v.statements, v.position + 1),
                waiting: false,
                env: with(known.env, s.subject, at(at(known.env, "reply"@), "value"@)),
                ..known
            },
        );
        lemma_continued(
            ScenarioView {
                position: until_end(v.statements, v.position + 1),
                waiting: false,
                env: next,
                ..known
            },
        );
    } else {
        lemma_continued(known);
    }
}

/// The environment after the statements from `from` to `to` ran without an action between them.
pub open spec fn env_after(v: ScenarioView, to: int) -> Option<Tree>
    decreases to - v.position,
{
    if to <= v.position {
        Some(v.env)
    } else {
        match env_after(v, to - 1) {
            None => None,
            Some(env) => match effect_of(v.statements[to - 1], env) {
                EffectView::Next { env: next } => Some(next),
                _ => None,
            },
        }
    }
}

proof fn lemma_env_after_shift(v: ScenarioView, env: Tree, to: int)
    requires
        0 <= v.position < v.statements.len(),
        effect_of(v.statements[v.position], v.env) == (EffectView::Next { env }),
        v.position + 1 <= to,
    ensures
        env_after(v, to) == env_after(
            ScenarioView { position: v.position + 1, waiting: false, env, ..v },
            to,
        ),
    decreases to,
{
    let w = ScenarioView { position: v.position + 1, waiting: false, env, ..v };
    if to == v.position + 1 {
        assert(env_after(v, v.position) == Some(v.env));
    } else {
        lemma_env_after_shift(v, env, to - 1);
    }
}

/// No check is passed over: whatever statement a run of statements stops at, each one before it
/// had its effect, and a failure is that of the statement it stopped at.
pub proof fn every_check_counts(v: ScenarioView)
    requires
        v.env is Object,
        0 <= v.position <= v.statements.len(),
    ensures
        continued(v).1 is Done ==> env_after(v, v.statements.len() as int) is Some,
        continued(v).1 matches StepView::Failed { message } ==> {
            let at = continued(v).0.position;
            &&& v.position <= at < v.statements.len()
            &&& env_after(v, at) matches Some(env) && effect_of(v.statements[at], env) == (
            EffectView::Fail { message })
        },
    decreases v.statements.len() - v.position,
{
    if v.position < v.statements.len() {
        match effect_of(v.statements[v.position], v.env) {
            EffectView::Next { env } => {
                let w = ScenarioView { position: v.position + 1, waiting: false, env, ..v };
                lemma_next_is_object(v.statements[v.position], v.env);
                every_check_counts(w);
                lemma_continued(w);
                lemma_env_after_shift(v, env, v.statements.len() as int);
                if continued(v).1 is Failed {
                    lemma_env_after_shift(v, env, continued(v).0.position);
                }
            },
            _ => {},
        }
    }
}

/// A script of text before its first statement, with what is known before it runs.
pub open spec fn begun(script: Seq<char>, known: Tree) -> ScenarioView {
    ScenarioView { statements: statements_of(script), position: 0, waiting: false, env: known }
}

/// A script of lines before its first statement, with what is known before it runs.
pub open spec fn opening(lines: Seq<Line>, known: Tree) -> ScenarioView {
    ScenarioView {
        statements: script_statements(lines),
        position: 0,
        waiting: false,
        env: known,
    }
}

impl Scenario {
    pub closed spec fn valid(&self) -> bool {
        well_formed(self@)
    }

    /// A valid scenario is one that can be run.
    pub proof fn validity(&self)
        ensures
            self.valid() == well_formed(self@),
    {
    }

    /// A script at its first statement, with what is known before it runs.
    pub fn start(script: &str, known: Json) -> (r: Scenario)
        requires
            known@ is Object,
        ensures
            r.valid(),
            r@ == begun(script@, known@),
    {
        let statements: Vec<Statement> = parse_script(script);
        Scenario { statements, position: 0, waiting: false, env: known }
    }

    /// A script of lines at its first statement, with what is known before it runs.
    pub fn open(lines: &[Line], known: Json) -> (r: Scenario)
        requires
            known@ is Object,
        ensures
            r.valid(),
            r@ == opening(lines@, known@),
    {
        let none: [Line; 0] = [];
        Scenario::ending(lines, none.as_slice(), known)
    }

    /// A script of lines with its ending, at its first statement.
    pub fn ending(lines: &[Line], end: &[Line], known: Json) -> (r: Scenario)
        requires
            known@ is Object,
        ensures
            r.valid(),
            r@ == opening(lines@ + end@, known@),
    {
        let mut statements: Vec<Statement> = Vec::new();
        proof {
            assert(statement_views(statements@) + script_statements(lines@) =~= script_statements(
                lines@,
            ));
            assert(script_statements(lines@) + script_statements(end@) =~= script_statements(
                lines@ + end@,
            ));
        }
        add_lines(&mut statements, lines);
        add_lines(&mut statements, end);
        Scenario { statements, position: 0, waiting: false, env: known }
    }

    /// What the scenario knows.
    pub fn known(&self) -> (r: &Json)
        ensures
            r@ == self@.env,
    {
        &self.env
    }

    /// Whether the scenario stands at a condition that does not hold. After a failure this tells
    /// a check that was refuted from an answer that could not be had.
    pub fn refuted(&self) -> (r: bool)
        requires
            self.valid(),
        ensures
            r == refuted_at(self@),
    {
        if self.position < self.statements.len() {
            proof {
                assert(
                    self@.statements[self.position as int]
                        == self.statements@[self.position as int]@
                );
            }
            match decide(&self.statements[self.position], &self.env) {
                Some(false) => true,
                _ => false,
            }
        } else {
            false
        }
    }

    fn advance(&mut self) -> (r: Step)
        requires
            old(self).valid(),
        ensures
            final(self).valid(),
            (final(self)@, r@) == continued(old(self)@),
    {
        let ghost start = self@;
        proof {
            lemma_continued(start);
        }
        self.waiting = false;
        proof {
            assert(self@ == (ScenarioView { waiting: false, ..start }));
            assert(continued(self@) == continued(start));
        }
        loop
            invariant
                self.env@ is Object,
                self.position <= self.statements.len(),
                !self.waiting,
                start == old(self)@,
                continued(self@) == continued(start),
            decreases self.statements.len() - self.position,
        {
            if self.position >= self.statements.len() {
                return Step::Done;
            }
            let ghost here = self@;
            proof {
                assert(here.statements[here.position] == self.statements@[self.position as int]@);
                lemma_next_is_object(self@.statements[self@.position], self@.env);
            }
            let env: Json = self.env.copy();
            match perform(&self.statements[self.position], env) {
                Effect::Next { env: next } => {
                    self.env = next;
                    self.position = self.position + 1;
                },
                Effect::Ask { words } => {
                    self.position = self.position + 1;
                    return Step::Perform { words, again: false };
                },
                Effect::Await { words } => {
                    self.waiting = true;
                    return Step::Perform { words, again: false };
                },
                Effect::Fail { message } => {
                    return Step::Failed { message };
                },
            }
        }
    }

    fn conditions_end(&self, from: usize) -> (r: usize)
        requires
            from <= self@.statements.len(),
        ensures
            r == until_end(self@.statements, from as int),
            from <= r <= self@.statements.len(),
    {
        let ghost all = self@.statements;
        let mut i: usize = from;
        while i < self.statements.len() && same_text(self.statements[i].op.as_str(), "until")
            invariant
                from <= i <= self.statements.len(),
                all == statement_views(self.statements@),
                until_end(all, from as int) == until_end(all, i as int),
            decreases self.statements.len() - i,
        {
            proof {
                assert(all[i as int] == self.statements@[i as int]@);
            }
            i = i + 1;
        }
        proof {
            if i < self.statements.len() {
                assert(all[i as int] == self.statements@[i as int]@);
            }
        }
        i
    }

    fn conditions_hold(&self, from: usize, end: usize, env: &Json) -> (r: bool)
        requires
            from <= end <= self@.statements.len(),
            end == until_end(self@.statements, from as int),
            env@ is Object,
        ensures
            r == until_holds(self@.statements, from as int, env@),
    {
        let ghost all = self@.statements;
        let mut i: usize = from;
        while i < end
            invariant
                from <= i <= end <= self.statements.len(),
                all == statement_views(self.statements@),
                end == until_end(all, from as int),
                env@ is Object,
                forall|j: int|
                    from <= j < i ==> until_met(parts((#[trigger] all[j]).rest), env@),
            decreases end - i,
        {
            proof {
                assert(all[i as int] == self.statements@[i as int]@);
            }
            let condition: Vec<String> = parts_of(self.statements[i].rest.as_str());
            if !until_is_met(&condition, env) {
                return false;
            }
            i = i + 1;
        }
        true
    }

    fn settle_watch(&mut self, expired: bool) -> (r: Step)
        requires
            old(self).valid(),
            old(self)@.waiting,
        ensures
            final(self).valid(),
            (final(self)@, r@) == watched(old(self)@, expired),
    {
        let ghost start = self@;
        let ghost s = start.statements[start.position];
        proof {
            assert(start.statements.len() == self.statements@.len());
            assert(self.position < self.statements.len());
            assert(start == old(self)@);
            assert(s == self.statements@[self.position as int]@);
        }
        let reply: Json = copy_at(&self.env, "reply");
        let words: Vec<String> = match resolve_all(&parts_of(self.statements[self.position].rest.as_str()), &self.env) {
            None => {
                self.waiting = false;
                return Step::Failed { message: "scenario value is absent".to_owned() };
            },
            Some(words) => words,
        };
        let last: String = if words.len() == 0 {
            String::new()
        } else {
            words[words.len() - 1].as_str().to_owned()
        };
        if reply.is_flag("stalled", true) {
            self.waiting = false;
            return Step::Failed { message: overdue_message(last.as_str(), &reply) };
        }
        if let Some(message) = reply.text_at("error") {
            self.waiting = false;
            return Step::Failed { message };
        }
        let name: String = self.statements[self.position].subject.as_str().to_owned();
        let next: Json = self.env.copy().with(name.as_str(), copy_at(&reply, "value"));
        let end: usize = self.conditions_end(self.position + 1);
        if self.conditions_hold(self.position + 1, end, &next) {
            self.env = next;
            self.position = end;
            self.waiting = false;
            return self.advance();
        }
        if reply.is_text("value,lifecycle", "terminal") {
            self.waiting = false;
            let mut message: String = joined3(
                "run ",
                last.as_str(),
                " reached unexpected terminal state: ",
            );
            message.append(text_or_nothing(&reply, "rendered").as_str());
            return Step::Failed { message };
        }
        if expired {
            self.waiting = false;
            return Step::Failed { message: overdue_message(last.as_str(), &reply) };
        }
        Step::Perform { words, again: true }
    }

    fn settle_probe(&mut self, expired: bool) -> (r: Step)
        requires
            old(self).valid(),
            old(self)@.waiting,
        ensures
            final(self).valid(),
            (final(self)@, r@) == probed(old(self)@, expired),
    {
        let ghost start = self@;
        let ghost s = start.statements[start.position];
        proof {
            assert(start.statements.len() == self.statements@.len());
            assert(self.position < self.statements.len());
            assert(start == old(self)@);
            assert(s == self.statements@[self.position as int]@);
        }
        let reply: Json = copy_at(&self.env, "reply");
        let words: Vec<String> = match resolve_all(&parts_of(self.statements[self.position].rest.as_str()), &self.env) {
            None => {
                self.waiting = false;
                return Step::Failed { message: "scenario value is absent".to_owned() };
            },
            Some(words) => words,
        };
        if let Some(message) = reply.text_at("error") {
            self.waiting = false;
            return Step::Failed { message };
        }
        let name: String = self.statements[self.position].subject.as_str().to_owned();
        let next: Json = self.env.copy().with(name.as_str(), copy_at(&reply, "value"));
        let end: usize = self.conditions_end(self.position + 1);
        if self.conditions_hold(self.position + 1, end, &next) {
            self.env = next;
            self.position = end;
            self.waiting = false;
            return self.advance();
        }
        if expired {
            self.waiting = false;
            return Step::Failed {
                message: speak(self.statements[self.position].message.as_str(), &self.env),
            };
        }
        Step::Perform { words, again: true }
    }

    fn settle(&mut self, expired: bool) -> (r: Step)
        requires
            old(self).valid(),
            old(self)@.waiting,
        ensures
            final(self).valid(),
            (final(self)@, r@) == awaited(old(self)@, expired),
    {
        proof {
            let s = self@.statements[self@.position];
            assert(self@.statements.len() == self.statements@.len());
            assert(s == self.statements@[self.position as int]@);
        }
        if same_text(self.statements[self.position].op.as_str(), "watch") {
            self.settle_watch(expired)
        } else if same_text(self.statements[self.position].op.as_str(), "poll") {
            self.settle_probe(expired)
        } else {
            self.settle_poll(expired)
        }
    }

    fn settle_poll(&mut self, expired: bool) -> (r: Step)
        requires
            old(self).valid(),
            old(self)@.waiting,
        ensures
            final(self).valid(),
            (final(self)@, r@) == polled(old(self)@, expired),
    {
        let ghost start = self@;
        let ghost s = start.statements[start.position];
        proof {
            assert(start.statements.len() == self.statements@.len());
            assert(self.position < self.statements.len());
            assert(start == old(self)@);
            assert(s == self.statements@[self.position as int]@);
        }
        let reply: Json = copy_at(&self.env, "reply");
        let output: crate::application::CliOutput = read_reply(&reply);
        match crate::application::read_run(&output) {
            Some(Err(f)) => {
                self.waiting = false;
                return Step::Failed { message: f.message };
            },
            Some(Ok(document)) => {
                let name: String = self.statements[self.position].subject.as_str().to_owned();
                let next: Json = self.env.copy().with(name.as_str(), document);
                let end: usize = self.conditions_end(self.position + 1);
                if self.conditions_hold(self.position + 1, end, &next) {
                    self.env = next;
                    self.position = end;
                    self.waiting = false;
                    return self.advance();
                }
            },
            None => {},
        }
        match resolve_all(&parts_of(self.statements[self.position].rest.as_str()), &self.env) {
            None => {
                self.waiting = false;
                Step::Failed { message: "scenario value is absent".to_owned() }
            },
            Some(words) => {
                if expired {
                    self.waiting = false;
                    let last: String = if words.len() == 0 {
                        String::new()
                    } else {
                        words[words.len() - 1].as_str().to_owned()
                    };
                    let mut message: String = joined3(
                        "run ",
                        last.as_str(),
                        " did not reach its bounded expected state: ",
                    );
                    message.append(output.stdout.as_str());
                    Step::Failed { message }
                } else {
                    Step::Perform { words, again: true }
                }
            },
        }
    }

    /// The first action of a scenario.
    pub fn begin(&mut self) -> (r: Step)
        requires
            old(self).valid(),
        ensures
            final(self).valid(),
            (final(self)@, r@) == continued(old(self)@),
    {
        self.advance()
    }

    /// What the answer to the last action leads to.
    pub fn resume(&mut self, reply: Json, expired: bool) -> (r: Step)
        requires
            old(self).valid(),
        ensures
            final(self).valid(),
            (final(self)@, r@) == resumed(old(self)@, reply@, expired),
    {
        let env: Json = self.env.copy().with("reply", reply);
        self.env = env;
        if self.waiting {
            self.settle(expired)
        } else {
            self.advance()
        }
    }
}

/// What statements that neither act nor make anything give, from one of them on: the environment
/// behind the last one, or why they failed.
pub open spec fn written(statements: Seq<StatementView>, env: Tree, from: int) -> Result<
    Tree,
    Seq<char>,
>
    decreases statements.len() - from,
{
    if from < 0 || from >= statements.len() {
        Ok(env)
    } else {
        match plain_effect(statements[from], env) {
            EffectView::Next { env } => written(statements, env, from + 1),
            EffectView::Fail { message } => Err(message),
            _ => Err("a document asks for no action"@),
        }
    }
}

fn write(statements: &Vec<Statement>, known: Json) -> (r: Checked<Json>)
    requires
        known@ is Object,
    ensures
        document_result(r) == (match written(statement_views(statements@), known@, 0) {
            Ok(env) => Ok(at(env, "document"@)),
            Err(message) => Err(message),
        }),
{
    let ghost all = statement_views(statements@);
    let mut env: Json = known;
    let mut i: usize = 0;
    while i < statements.len()
        invariant
            i <= statements.len(),
            all == statement_views(statements@),
            env@ is Object,
            written(all, known@, 0) == written(all, env@, i as int),
        decreases statements.len() - i,
    {
        proof {
            assert(all[i as int] == statements@[i as int]@);
        }
        match perform_plain(&statements[i], env) {
            Effect::Next { env: next } => {
                env = next;
            },
            Effect::Fail { message } => {
                return Err(Failure { message });
            },
            _ => {
                return Err(failure("a document asks for no action"));
            },
        }
        i = i + 1;
    }
    Ok(copy_at(&env, "document"))
}

/// The document that a script without actions builds.
pub open spec fn document_of(script: Seq<char>, known: Tree) -> Result<Tree, Seq<char>> {
    match written(statements_of(script), known, 0) {
        Ok(env) => Ok(at(env, "document"@)),
        Err(message) => Err(message),
    }
}

pub fn document(script: &str, known: Json) -> (r: Checked<Json>)
    requires
        known@ is Object,
    ensures
        document_result(r) == document_of(script@, known@),
{
    write(&parse_script(script), known)
}

/// The document that a list of statements without actions builds.
pub open spec fn listed_document(lines: Seq<Line>, known: Tree) -> Result<Tree, Seq<char>> {
    match written(script_statements(lines), known, 0) {
        Ok(env) => Ok(at(env, "document"@)),
        Err(message) => Err(message),
    }
}

pub fn build(lines: &[Line], known: Json) -> (r: Checked<Json>)
    requires
        known@ is Object,
    ensures
        document_result(r) == listed_document(lines@, known@),
{
    let mut statements: Vec<Statement> = Vec::new();
    proof {
        assert(statement_views(statements@) =~= seq![]);
    }
    add_lines(&mut statements, lines);
    proof {
        assert(statement_views(statements@) =~= script_statements(lines@));
    }
    write(&statements, known)
}

/// A document's statements run as a scenario's do.
pub proof fn written_documents_run(v: ScenarioView)
    requires
        0 <= v.position,
        written(v.statements, v.env, v.position) is Ok,
    ensures
        continued(v).1 is Done,
        written(v.statements, v.env, v.position) == Ok::<Tree, Seq<char>>(continued(v).0.env),
    decreases v.statements.len() - v.position,
{
    if v.position < v.statements.len() {
        let s = v.statements[v.position];
        if s.op == "make"@ {
            lemma_make_is_not_plain(s, v.env);
        }
        reveal(effect_of);
        match plain_effect(s, v.env) {
            EffectView::Next { env } => {
                written_documents_run(
                    ScenarioView { position: v.position + 1, waiting: false, env, ..v },
                );
            },
            _ => {},
        }
    }
}

fn overdue_message(run: &str, reply: &Json) -> (r: String)
    ensures
        r@ == overdue(run@, reply@),
{
    let mut message: String = joined3("run ", run, " did not reach the expected state within ");
    message.append(text_or_nothing(reply, "seconds").as_str());
    message.append(" seconds; last=");
    message.append(text_or_nothing(reply, "last").as_str());
    message
}

} // verus!
