//! Texts: their parts, their numbers and their order.

use vstd::prelude::*;

use crate::json::{Json, Tree};
use crate::order::{comes_before, precedes};
use crate::render::{render, rendered, rendered_list};
use crate::text::{
    contains, decimal, digits_value, divided_option, ends_with, first_occurrence, is_space,
    join, joined_with, lines_from, lines_of, listed, number_text, occurs_at, parse_number,
    parse_unsigned, pieces, position, replace, replaced_from, space, split, split_once,
    split_once_at, starts_with, strip_prefix, strip_suffix, texts, trim, trim_prefixes,
    unsigned, without_leading, without_trailing,
};

verus! {

/// A character is a blank exactly where Unicode says that it is white space.
pub proof fn blanks_are_white_space(c: char, r: bool)
    requires
        call_ensures(space, (c,), r),
    ensures
        r <==> {
            let u = c as u32;
            ||| 0x9 <= u <= 0xd
            ||| u == 0x20
            ||| u == 0x85
            ||| u == 0xa0
            ||| u == 0x1680
            ||| 0x2000 <= u <= 0x200a
            ||| u == 0x2028
            ||| u == 0x2029
            ||| u == 0x202f
            ||| u == 0x205f
            ||| u == 0x3000
        },
{
}

proof fn lemma_leading(s: Seq<char>)
    ensures
        ({
            let k = s.len() - without_leading(s).len();
            &&& 0 <= k
            &&& without_leading(s) =~= s.skip(k)
            &&& forall|i: int| 0 <= i < k ==> is_space(#[trigger] s[i])
            &&& k < s.len() ==> !is_space(s[k])
        }),
    decreases s.len(),
{
    if s.len() > 0 && is_space(s[0]) {
        let t = s.skip(1);
        lemma_leading(t);
        let k = t.len() - without_leading(t).len();
        assert(t.skip(k) =~= s.skip(k + 1));
        assert forall|i: int| 0 <= i < k + 1 implies is_space(#[trigger] s[i]) by {
            if i > 0 {
                assert(t[i - 1] == s[i]);
            }
        }
        if k < t.len() {
            assert(t[k] == s[k + 1]);
        }
    } else {
        assert(s.skip(0) =~= s);
    }
}

proof fn lemma_trailing(s: Seq<char>)
    ensures
        ({
            let n = without_trailing(s).len() as int;
            &&& n <= s.len()
            &&& without_trailing(s) =~= s.take(n)
            &&& forall|i: int| n <= i < s.len() ==> is_space(#[trigger] s[i])
            &&& 0 < n ==> !is_space(s[n - 1])
        }),
    decreases s.len(),
{
    if s.len() > 0 && is_space(s.last()) {
        let t = s.drop_last();
        lemma_trailing(t);
        let n = without_trailing(t).len() as int;
        assert(t.take(n) =~= s.take(n));
        assert forall|i: int| n <= i < s.len() implies is_space(#[trigger] s[i]) by {
            if i < t.len() {
                assert(t[i] == s[i]);
            }
        }
        if 0 < n {
            assert(t[n - 1] == s[n - 1]);
        }
    } else {
        assert(s.take(s.len() as int) =~= s);
    }
}

/// A trimmed text is the text between two positions, with nothing but blanks outside them and none
/// at its ends.
pub proof fn trimming_drops_blanks_alone(s: &str, r: String)
    requires
        call_ensures(trim, (s,), r),
    ensures
        exists|from: int, to: int|
            0 <= from <= to <= s@.len() && r@ == #[trigger] s@.subrange(from, to) && (forall|i: int|
                (0 <= i < from || to <= i < s@.len()) ==> is_space(#[trigger] s@[i])) && (from < to
                ==> !is_space(s@[from]) && !is_space(s@[to - 1])),
{
    let t = without_leading(s@);
    let from = s@.len() - t.len();
    lemma_leading(s@);
    lemma_trailing(t);
    let n = without_trailing(t).len() as int;
    let to = from + n;
    assert(t.take(n) =~= s@.subrange(from, to));
    assert forall|i: int| (0 <= i < from || to <= i < s@.len()) implies is_space(
        #[trigger] s@[i],
    ) by {
        if i >= to {
            assert(t[i - from] == s@[i]);
        }
    }
    if from < to {
        assert(t[0] == s@[from]);
        assert(t[n - 1] == s@[to - 1]);
    }
    assert(r@ == s@.subrange(from, to));
}

proof fn lemma_join_head(head: Seq<char>, v: Seq<Seq<char>>, separator: Seq<char>)
    requires
        v.len() > 0,
    ensures
        joined_with(seq![head] + v, separator) == head + separator + joined_with(v, separator),
    decreases v.len(),
{
    let all = seq![head] + v;
    assert(all.last() == v.last());
    assert(all.drop_last() =~= seq![head] + v.drop_last());
    if v.len() == 1 {
        assert(v.drop_last() =~= Seq::<Seq<char>>::empty());
        assert(all.drop_last() =~= seq![head]);
        reveal_with_fuel(joined_with, 2);
        assert(joined_with(all, separator) =~= head + separator + v[0]);
    } else {
        lemma_join_head(head, v.drop_last(), separator);
        assert(joined_with(all, separator) =~= head + separator + joined_with(
            v.drop_last(),
            separator,
        ) + separator + v.last());
        assert(joined_with(all, separator) =~= head + separator + joined_with(v, separator));
    }
}

proof fn lemma_pieces_join(s: Seq<char>, c: char, from: int)
    requires
        0 <= from <= s.len(),
    ensures
        pieces(s, c, from).len() > 0,
        joined_with(pieces(s, c, from), seq![c]) == s.skip(from),
        forall|i: int|
            0 <= i < pieces(s, c, from).len() ==> !(#[trigger] pieces(s, c, from)[i]).contains(c),
    decreases s.len() - from,
{
    crate::text::lemma_position(s, c, from);
    let end = position(s, c, from);
    if end >= s.len() {
        let only = s.subrange(from, s.len() as int);
        assert(only =~= s.skip(from));
        assert(!only.contains(c)) by {
            if only.contains(c) {
                let k = choose|k: int| 0 <= k < only.len() && only[k] == c;
                assert(s[from + k] == c);
            }
        }
        assert(pieces(s, c, from)[0] == only);
    } else {
        let head = s.subrange(from, end);
        let rest = pieces(s, c, end + 1);
        lemma_pieces_join(s, c, end + 1);
        lemma_join_head(head, rest, seq![c]);
        assert(s.skip(from) =~= head + seq![c] + s.skip(end + 1));
        assert(!head.contains(c)) by {
            if head.contains(c) {
                let k = choose|k: int| 0 <= k < head.len() && head[k] == c;
                assert(s[from + k] == c);
            }
        }
        assert forall|i: int| 0 <= i < pieces(s, c, from).len() implies !(#[trigger] pieces(
            s,
            c,
            from,
        )[i]).contains(c) by {
            if i > 0 {
                assert(pieces(s, c, from)[i] == rest[i - 1]);
            }
        }
    }
}

/// A split text is its pieces with the separator between them, and no piece has a separator in it.
pub proof fn splitting_loses_nothing(s: &str, c: char, r: Vec<String>)
    requires
        call_ensures(split, (s, c), r),
    ensures
        r@.len() > 0,
        joined_with(texts(r@), seq![c]) == s@,
        forall|i: int| 0 <= i < r@.len() ==> !(#[trigger] r@[i])@.contains(c),
{
    lemma_pieces_join(s@, c, 0);
    assert(s@.skip(0) =~= s@);
    assert(texts(r@).len() == r@.len());
    assert forall|i: int| 0 <= i < r@.len() implies !(#[trigger] r@[i])@.contains(c) by {
        assert(texts(r@)[i] == r@[i]@);
        assert(!pieces(s@, c, 0)[i].contains(c));
    }
}

proof fn lemma_lines_shift(a: Seq<char>, b: Seq<char>, from: int)
    requires
        0 <= from <= b.len(),
    ensures
        lines_from(a + b, a.len() + from) == lines_from(b, from),
    decreases b.len() - from,
{
    let s = a + b;
    let n = a.len() as int;
    lemma_position_moves(a, b, '\n', from);
    crate::text::lemma_position(b, '\n', from);
    let end = position(b, '\n', from);
    if from < b.len() {
        if end >= b.len() {
            assert(s.subrange(n + from, s.len() as int) =~= b.subrange(from, b.len() as int));
        } else {
            lemma_lines_shift(a, b, end + 1);
            assert(s.subrange(n + from, n + end) =~= b.subrange(from, end));
        }
    }
}

proof fn lemma_position_moves(a: Seq<char>, b: Seq<char>, c: char, from: int)
    requires
        0 <= from <= b.len(),
    ensures
        position(a + b, c, a.len() + from) == a.len() + position(b, c, from),
    decreases b.len() - from,
{
    if from < b.len() {
        assert((a + b)[a.len() + from] == b[from]);
        if b[from] != c {
            lemma_position_moves(a, b, c, from + 1);
        }
    }
}

/// A text's first line goes up to its first line feed, without a carriage return before it; the
/// other lines are those of what follows. A last line needs no line feed, and no text has no lines.
pub proof fn lines_end_at_line_feeds(line: Seq<char>, rest: Seq<char>)
    requires
        !line.contains('\n'),
    ensures
        lines_of(line + seq!['\n'] + rest) == seq![
            if line.len() > 0 && line.last() == '\r' {
                line.drop_last()
            } else {
                line
            },
        ] + lines_of(rest),
        line.len() > 0 ==> lines_of(line) == seq![line],
        lines_of(Seq::<char>::empty()) == Seq::<Seq<char>>::empty(),
{
    let a = line + seq!['\n'];
    let s = a + rest;
    let n = line.len() as int;
    assert(s =~= line + seq!['\n'] + rest);
    crate::text::lemma_position(s, '\n', 0);
    let p = position(s, '\n', 0);
    assert(s[n] == '\n');
    if p < n {
        assert(line[p] == s[p]);
        assert(line.contains('\n'));
    }
    assert(s.subrange(0, p) =~= line);
    lemma_lines_shift(a, rest, 0);
    crate::text::lemma_position(line, '\n', 0);
    if position(line, '\n', 0) < line.len() {
        assert(line.contains('\n'));
    }
    assert(line.subrange(0, line.len() as int) =~= line);
}

/// The lines of a text are as they are told of texts.
pub proof fn lines_are_listed(s: &str, r: Vec<String>)
    requires
        call_ensures(crate::text::lines, (s,), r),
    ensures
        texts(r@) == lines_of(s@),
{
}

/// Whether a text stands in another at a position.
pub open spec fn stands_at(s: Seq<char>, needle: Seq<char>, at: int) -> bool {
    0 <= at && at + needle.len() <= s.len() && forall|k: int|
        0 <= k < needle.len() ==> s[at + k] == #[trigger] needle[k]
}

proof fn lemma_stands(s: Seq<char>, needle: Seq<char>, at: int)
    ensures
        occurs_at(s, needle, at) == stands_at(s, needle, at),
{
    if 0 <= at && at + needle.len() <= s.len() {
        let there = s.subrange(at, at + needle.len());
        if there == needle {
            assert forall|k: int| 0 <= k < needle.len() implies s[at + k] == #[trigger] needle[k] by {
                assert(there[k] == s[at + k]);
            }
        }
        if stands_at(s, needle, at) {
            assert(there =~= needle);
        }
    }
}

/// A text holds another exactly where the other stands in it somewhere.
pub proof fn held_texts_stand_somewhere(s: &str, needle: &str, r: bool)
    requires
        call_ensures(contains, (s, needle), r),
    ensures
        r <==> exists|at: int| #[trigger] stands_at(s@, needle@, at),
{
    if r {
        let at = choose|at: int| #[trigger] occurs_at(s@, needle@, at);
        lemma_stands(s@, needle@, at);
        assert(stands_at(s@, needle@, at));
    }
    if exists|at: int| #[trigger] stands_at(s@, needle@, at) {
        let at = choose|at: int| #[trigger] stands_at(s@, needle@, at);
        lemma_stands(s@, needle@, at);
        assert(occurs_at(s@, needle@, at));
    }
}

/// A text starts with another exactly where the other stands at its start, and what is left without
/// it makes up the text with it.
pub proof fn prefixes_stand_at_the_start(s: &str, prefix: &str, r: bool, rest: Option<String>)
    requires
        call_ensures(starts_with, (s, prefix), r),
        call_ensures(strip_prefix, (s, prefix), rest),
    ensures
        r <==> stands_at(s@, prefix@, 0),
        rest is Some <==> r,
        rest matches Some(t) ==> s@ == prefix@ + t@,
{
    if prefix@.is_prefix_of(s@) {
        assert forall|k: int| 0 <= k < prefix@.len() implies s@[0 + k] == #[trigger] prefix@[k] by {
            assert(s@.take(prefix@.len() as int)[k] == s@[k]);
        }
        assert(s@ =~= prefix@ + s@.skip(prefix@.len() as int));
    }
    if stands_at(s@, prefix@, 0) {
        assert forall|k: int| 0 <= k < prefix@.len() implies s@[k] == prefix@[k] by {
            assert(s@[0 + k] == prefix@[k]);
        }
        assert(prefix@ =~= s@.take(prefix@.len() as int));
    }
}

/// A text ends with another exactly where the other stands at its end, and what is left without it
/// makes up the text with it.
pub proof fn suffixes_stand_at_the_end(s: &str, suffix: &str, r: bool, rest: Option<String>)
    requires
        call_ensures(ends_with, (s, suffix), r),
        call_ensures(strip_suffix, (s, suffix), rest),
    ensures
        r <==> stands_at(s@, suffix@, s@.len() - suffix@.len()),
        rest is Some <==> r,
        rest matches Some(t) ==> s@ == t@ + suffix@,
{
    let at = s@.len() - suffix@.len();
    if suffix@.is_suffix_of(s@) {
        let end = s@.subrange(at, s@.len() as int);
        assert forall|k: int| 0 <= k < suffix@.len() implies s@[at + k] == #[trigger] suffix@[k] by {
            assert(end[k] == s@[at + k]);
        }
        assert(s@ =~= s@.take(at) + suffix@);
    }
    if stands_at(s@, suffix@, at) {
        assert forall|k: int| 0 <= k < suffix@.len() implies s@.subrange(at, s@.len() as int)[k]
            == suffix@[k] by {
            assert(s@[at + k] == suffix@[k]);
        }
        assert(suffix@ =~= s@.subrange(at, s@.len() as int));
    }
}

/// A prefix is dropped as often as it stands at the start, and no more.
pub proof fn repeated_prefixes_are_dropped(
    s: &str,
    t: &str,
    prefix: &str,
    from_s: String,
    from_t: String,
)
    requires
        call_ensures(trim_prefixes, (s, prefix), from_s),
        call_ensures(trim_prefixes, (t, prefix), from_t),
        prefix@.len() > 0,
        s@ == prefix@ + t@,
    ensures
        from_s@ == from_t@,
        !prefix@.is_prefix_of(t@) ==> from_t@ == t@,
{
    assert(prefix@ =~= s@.take(prefix@.len() as int));
    assert(s@.skip(prefix@.len() as int) =~= t@);
}

proof fn lemma_decimal(n: nat)
    ensures
        decimal(n).len() > 0,
        digits_value(decimal(n)) == Some(n),
        '0' <= decimal(n)[0] && decimal(n)[0] <= '9',
    decreases n,
{
    if n < 10 {
        let d = decimal(n);
        assert(d.drop_last() =~= Seq::<char>::empty());
        assert(d.last() == crate::text::digit(n));
        reveal_with_fuel(digits_value, 2);
        assert(n % 10 == n);
    } else {
        lemma_decimal(n / 10);
        let d = decimal(n);
        assert(d.drop_last() =~= decimal(n / 10));
        assert(d.last() == crate::text::digit(n));
        assert(d[0] == decimal(n / 10)[0]);
        assert(n == (n / 10) * 10 + n % 10);
    }
}

/// A number is read back from its text, under any bound that it keeps.
pub proof fn numbers_are_read_back(n: u64, max: u64, t: String, s: &str, r: Option<u64>)
    requires
        call_ensures(number_text, (n,), t),
        s@ == t@,
        call_ensures(parse_unsigned, (s, max), r),
    ensures
        n <= max ==> r == Some(n),
        n > max ==> r is None,
{
    lemma_decimal(n as nat);
}

/// A digit behind a number makes it ten times as large and adds its own value; a number has digits
/// alone, but for a plus sign before them.
pub proof fn numbers_are_positional(
    s: &str,
    t: &str,
    c: char,
    max: u64,
    before: Option<u64>,
    r: Option<u64>,
)
    requires
        t@ == s@.push(c),
        call_ensures(parse_unsigned, (s, max), before),
        call_ensures(parse_unsigned, (t, max), r),
    ensures
        !('0' <= c && c <= '9') && s@.len() > 0 ==> r is None,
        before matches Some(v) ==> ('0' <= c && c <= '9' ==> if v * 10 + (c as int - 48) <= max {
            r matches Some(n) && n == v * 10 + (c as int - 48)
        } else {
            r is None
        }),
        s@.len() == 0 && '0' <= c && c <= '9' && c as int - 48 <= max ==> (r matches Some(n) && n
            == c as int - 48),
{
    let a = crate::text::unsigned_digits(s@);
    let b = crate::text::unsigned_digits(t@);
    if s@.len() > 0 {
        assert(t@[0] == s@[0]);
        assert(b =~= a.push(c));
        assert(b.drop_last() =~= a);
        assert(b.last() == c);
    } else {
        assert(t@ =~= seq![c]);
        if '0' <= c && c <= '9' {
            assert(b =~= seq![c]);
            assert(b.drop_last() =~= Seq::<char>::empty());
            assert(b.last() == c);
            reveal_with_fuel(digits_value, 2);
        }
    }
}

/// A number that cannot be read has a reason, and is read otherwise as it is elsewhere.
pub proof fn unread_numbers_have_a_reason(
    s: &str,
    max: u64,
    plain: Option<u64>,
    r: Result<u64, &'static str>,
)
    requires
        call_ensures(parse_unsigned, (s, max), plain),
        call_ensures(parse_number, (s, max), r),
    ensures
        plain matches Some(n) ==> r == Ok::<u64, &'static str>(n),
        plain is None ==> r is Err,
        s@.len() == 0 ==> (r matches Err(e) && e@ == "cannot parse integer from empty string"@),
{
    if s@.len() == 0 {
        assert(unsigned(s@, max as nat) is None);
    }
}

/// Texts are joined with the separator between them: one more adds the separator and the text.
pub proof fn joining_adds_separators(
    v: &Vec<String>,
    w: &Vec<String>,
    t: Seq<char>,
    separator: &str,
    of_v: String,
    of_w: String,
)
    requires
        texts(w@) == texts(v@).push(t),
        call_ensures(join, (v, separator), of_v),
        call_ensures(join, (w, separator), of_w),
    ensures
        v@.len() == 0 ==> of_v@.len() == 0 && of_w@ == t,
        v@.len() > 0 ==> of_w@ == of_v@ + separator@ + t,
{
    assert(texts(v@).len() == v@.len());
    assert(texts(w@).drop_last() =~= texts(v@));
    assert(texts(w@).last() == t);
    if v@.len() == 0 {
        assert(texts(w@)[0] == t);
    }
}

/// A text is listed exactly where it is one of the list.
pub proof fn listed_texts_are_in_the_list(v: &Vec<String>, t: &str, r: bool)
    requires
        call_ensures(listed, (v, t), r),
    ensures
        r <==> exists|i: int| 0 <= i < v@.len() && (#[trigger] v@[i])@ == t@,
{
    assert(texts(v@).len() == v@.len());
    if texts(v@).contains(t@) {
        let i = choose|i: int| 0 <= i < texts(v@).len() && texts(v@)[i] == t@;
        assert(v@[i]@ == t@);
    }
    if exists|i: int| 0 <= i < v@.len() && (#[trigger] v@[i])@ == t@ {
        let i = choose|i: int| 0 <= i < v@.len() && (#[trigger] v@[i])@ == t@;
        assert(texts(v@)[i] == t@);
    }
}

/// A text is divided at the first of the separators.
pub proof fn texts_are_divided_at_the_first(s: &str, c: char, r: Option<(String, String)>)
    requires
        call_ensures(split_once, (s, c), r),
    ensures
        r is Some <==> s@.contains(c),
        r matches Some(p) ==> s@ == p.0@ + seq![c] + p.1@ && !p.0@.contains(c),
{
    crate::text::lemma_position(s@, c, 0);
    let p = position(s@, c, 0);
    if s@.contains(c) {
        let k = choose|k: int| 0 <= k < s@.len() && s@[k] == c;
        assert(p <= k);
    }
    if p < s@.len() {
        assert(s@[p] == c);
        let head = s@.subrange(0, p);
        assert(s@ =~= head + seq![c] + s@.subrange(p + 1, s@.len() as int));
        if head.contains(c) {
            let k = choose|k: int| 0 <= k < head.len() && head[k] == c;
            assert(s@[k] == c);
        }
        assert(divided_option(r) is Some);
    }
}

/// A document is rendered as JSON: its words, its digits, its elements in brackets with commas
/// between them.
pub proof fn documents_are_rendered(j: &Json, l: Seq<Tree>, n: int, r: String)
    requires
        call_ensures(render, (j,), r),
    ensures
        j@ == Tree::Null ==> r@ == "null"@,
        j@ == Tree::Bool(true) ==> r@ == "true"@,
        j@ == Tree::Bool(false) ==> r@ == "false"@,
        j@ matches Tree::Integer(i) ==> (i >= 0 ==> r@ == decimal(i as nat)),
        j@ matches Tree::Integer(i) ==> (i < 0 ==> r@ == "-"@ + decimal((-i) as nat)),
        j@ == Tree::List(l) ==> r@ == "["@ + rendered_list(l, l.len() as int) + "]"@,
        1 < n <= l.len() ==> rendered_list(l, n) == rendered_list(l, n - 1) + ","@ + rendered(
            l[n - 1],
        ),
        l.len() > 0 ==> rendered_list(l, 1) == rendered(l[0]),
        rendered_list(l, 0).len() == 0,
{
    reveal_strlit("");
    assert(""@ =~= Seq::<char>::empty());
    if l.len() > 0 {
        reveal_with_fuel(rendered_list, 2);
        assert(rendered_list(l, 0) =~= Seq::<char>::empty());
        assert(rendered_list(l, 1) =~= rendered(l[0]));
    }
}

/// One text comes before another where it runs out first, or where it has the lower character at
/// the first place at which they differ.
pub proof fn order_is_by_the_first_difference(
    a: &str,
    b: &str,
    common: Seq<char>,
    x: char,
    y: char,
    p: Seq<char>,
    q: Seq<char>,
    r: bool,
)
    requires
        call_ensures(comes_before, (a, b), r),
    ensures
        x != y && a@ == common + seq![x] + p && b@ == common + seq![y] + q ==> (r <==> x < y),
        a@ == common && b@ == common + seq![y] + q ==> r,
        b@ == common && a@ == common + seq![x] + p ==> !r,
        a@ == b@ ==> !r,
{
    if x != y && a@ == common + seq![x] + p && b@ == common + seq![y] + q {
        lemma_common(common, seq![x] + p, seq![y] + q);
        assert(a@ =~= common + (seq![x] + p));
        assert(b@ =~= common + (seq![y] + q));
    }
    let none = Seq::<char>::empty();
    if a@ == common && b@ == common + seq![y] + q {
        lemma_common(common, none, seq![y] + q);
        assert(a@ =~= common + none);
        assert(b@ =~= common + (seq![y] + q));
    }
    if b@ == common && a@ == common + seq![x] + p {
        lemma_common(common, seq![x] + p, none);
        assert(b@ =~= common + none);
        assert(a@ =~= common + (seq![x] + p));
    }
    if a@ == b@ {
        lemma_common(a@, none, none);
        assert(a@ =~= a@ + none);
        assert(b@ =~= a@ + none);
    }
}

proof fn lemma_common(common: Seq<char>, a: Seq<char>, b: Seq<char>)
    ensures
        precedes(common + a, common + b) == precedes(a, b),
    decreases common.len(),
{
    if common.len() > 0 {
        let s = common + a;
        let t = common + b;
        lemma_common(common.skip(1), a, b);
        assert(s.skip(1) =~= common.skip(1) + a);
        assert(t.skip(1) =~= common.skip(1) + b);
        assert(s[0] == t[0]);
    } else {
        assert(common + a =~= a);
        assert(common + b =~= b);
    }
}

proof fn lemma_found_first(s: Seq<char>, needle: Seq<char>, i: int, from: int)
    requires
        0 <= from <= i,
        stands_at(s, needle, i),
        forall|j: int| from <= j < i ==> !#[trigger] stands_at(s, needle, j),
    ensures
        first_occurrence(s, needle, from) == Some(i),
    decreases i - from,
{
    lemma_stands(s, needle, from);
    if from < i {
        assert(!stands_at(s, needle, from));
        lemma_found_first(s, needle, i, from + 1);
    }
}

/// A text is divided at the first place at which another stands.
pub proof fn texts_are_divided_around(s: &str, needle: &str, i: int, r: Option<(String, String)>)
    requires
        call_ensures(split_once_at, (s, needle), r),
        stands_at(s@, needle@, i),
        forall|j: int| 0 <= j < i ==> !#[trigger] stands_at(s@, needle@, j),
    ensures
        r matches Some(p) && p.0@ == s@.take(i) && s@ == p.0@ + needle@ + p.1@,
{
    lemma_found_first(s@, needle@, i, 0);
    assert(s@.take(i) =~= s@.subrange(0, i));
    assert(s@ =~= s@.subrange(0, i) + needle@ + s@.subrange(i + needle@.len(), s@.len() as int));
    assert(divided_option(r) is Some);
}

/// Up to the first place at which a text stands, replacing it changes nothing; there the
/// replacement stands, and what follows goes on in the same way. A text that does not hold it
/// stays as it is.
pub proof fn replacements_stand_where_texts_stood(
    s: &str,
    needle: &str,
    replacement: &str,
    i: int,
    r: String,
)
    requires
        call_ensures(replace, (s, needle, replacement), r),
        needle@.len() > 0,
        stands_at(s@, needle@, i),
        forall|j: int| 0 <= j < i ==> !#[trigger] stands_at(s@, needle@, j),
    ensures
        r@ == s@.take(i) + replacement@ + replaced_from(
            s@,
            needle@,
            replacement@,
            i + needle@.len() as int,
        ),
{
    lemma_found_first(s@, needle@, i, 0);
    assert(s@.take(i) =~= s@.subrange(0, i));
}

} // verus!
