//! Text operations on Unicode scalar sequences, each stated over `Seq<char>`.

use vstd::prelude::*;
use vstd::string::*;

verus! {

/// The scalar values with the Unicode `White_Space` property.
pub open spec fn is_space(c: char) -> bool {
    let u = c as u32;
    ||| 0x9 <= u <= 0xd
    ||| u == 0x20
    ||| u == 0x85
    ||| u == 0xa0
    ||| u == 0x1680
    ||| 0x2000 <= u <= 0x200a
    ||| u == 0x2028
    ||| u == 0x2029
    ||| u == 0x202f
    ||| u == 0x205f
    ||| u == 0x3000
}

pub fn space(c: char) -> (r: bool)
    ensures
        r == is_space(c),
{
    let u: u32 = c as u32;
    (0x9 <= u && u <= 0xd) || u == 0x20 || u == 0x85 || u == 0xa0 || u == 0x1680 || (0x2000 <= u
        && u <= 0x200a) || u == 0x2028 || u == 0x2029 || u == 0x202f || u == 0x205f || u == 0x3000
}

/// The scalar values of a text, in order.
pub fn chars_of(s: &str) -> (r: Vec<char>)
    ensures
        r@ == s@,
{
    let mut out: Vec<char> = Vec::new();
    for c in it: s.chars()
        invariant
            it.seq() == s@,
            out@ == s@.take(it.index() as int),
    {
        proof {
            assert(s@.take(it.index() + 1) =~= s@.take(it.index() as int).push(c));
        }
        out.push(c);
    }
    proof {
        assert(s@.take(s@.len() as int) =~= s@);
    }
    out
}

/// Whether two texts hold the same scalar values.
pub fn same_text(a: &str, b: &str) -> (r: bool)
    ensures
        r == (a@ == b@),
{
    a.to_owned() == b.to_owned()
}

/// The part of a text between two scalar positions.
pub fn part(s: &str, from: usize, to: usize) -> (r: String)
    requires
        from <= to <= s@.len(),
    ensures
        r@ == s@.subrange(from as int, to as int),
{
    s.substring_char(from, to).to_owned()
}

/// One text after another.
pub fn joined(a: &str, b: &str) -> (r: String)
    ensures
        r@ == a@ + b@,
{
    let mut out: String = a.to_owned();
    out.append(b);
    out
}

/// Three texts in a row.
pub fn joined3(a: &str, b: &str, c: &str) -> (r: String)
    ensures
        r@ == a@ + b@ + c@,
{
    let mut out: String = a.to_owned();
    out.append(b);
    out.append(c);
    out
}

/// A text without its leading white space.
pub open spec fn without_leading(s: Seq<char>) -> Seq<char>
    decreases s.len(),
{
    if s.len() > 0 && is_space(s[0]) {
        without_leading(s.skip(1))
    } else {
        s
    }
}

/// A text without its trailing white space.
pub open spec fn without_trailing(s: Seq<char>) -> Seq<char>
    decreases s.len(),
{
    if s.len() > 0 && is_space(s.last()) {
        without_trailing(s.drop_last())
    } else {
        s
    }
}

/// A text without surrounding white space.
pub open spec fn trimmed(s: Seq<char>) -> Seq<char> {
    without_trailing(without_leading(s))
}

pub fn trim(s: &str) -> (r: String)
    ensures
        r@ == trimmed(s@),
{
    let chars: Vec<char> = chars_of(s);
    let mut from: usize = 0;
    proof {
        assert(s@.skip(0) =~= s@);
    }
    while from < chars.len() && space(chars[from])
        invariant
            from <= chars.len(),
            chars@ == s@,
            without_leading(s@) == without_leading(s@.skip(from as int)),
        decreases chars.len() - from,
    {
        proof {
            assert(s@.skip(from as int).skip(1) =~= s@.skip(from + 1));
        }
        from = from + 1;
    }
    let ghost rest = s@.skip(from as int);
    proof {
        assert(without_leading(s@) == rest);
    }
    let mut to: usize = chars.len();
    proof {
        assert(rest.take((to - from) as int) =~= rest);
    }
    while to > from && space(chars[to - 1])
        invariant
            from <= to <= chars.len(),
            chars@ == s@,
            rest == s@.skip(from as int),
            without_trailing(rest) == without_trailing(rest.take((to - from) as int)),
        decreases to,
    {
        proof {
            let cut = rest.take((to - from) as int);
            assert(cut.last() == s@[to - 1]);
            assert(cut.drop_last() =~= rest.take((to - 1 - from) as int));
        }
        to = to - 1;
    }
    proof {
        let cut = rest.take((to - from) as int);
        assert(cut.len() > 0 ==> cut.last() == s@[to - 1]);
        assert(cut =~= s@.subrange(from as int, to as int));
    }
    part(s, from, to)
}

/// The position of the first occurrence of `c` at or after `from`, or the length.
pub open spec fn position(s: Seq<char>, c: char, from: int) -> int
    decreases s.len() - from,
{
    if from < 0 || from >= s.len() {
        s.len() as int
    } else if s[from] == c {
        from
    } else {
        position(s, c, from + 1)
    }
}

pub proof fn lemma_position(s: Seq<char>, c: char, from: int)
    requires
        0 <= from <= s.len(),
    ensures
        from <= position(s, c, from) <= s.len(),
        position(s, c, from) < s.len() ==> s[position(s, c, from)] == c,
        forall|i: int| from <= i < position(s, c, from) ==> s[i] != c,
    decreases s.len() - from,
{
    if from < s.len() && s[from] != c {
        lemma_position(s, c, from + 1);
    }
}

fn position_of(chars: &Vec<char>, c: char, from: usize) -> (r: usize)
    requires
        from <= chars.len(),
    ensures
        r == position(chars@, c, from as int),
        from <= r <= chars.len(),
{
    let mut i: usize = from;
    while i < chars.len() && chars[i] != c
        invariant
            from <= i <= chars.len(),
            position(chars@, c, from as int) == position(chars@, c, i as int),
        decreases chars.len() - i,
    {
        i = i + 1;
    }
    i
}

/// The maximal pieces of `s` after position `from` that hold no `c`: one more than the `c`s.
pub open spec fn pieces(s: Seq<char>, c: char, from: int) -> Seq<Seq<char>>
    decreases s.len() - from,
    when 0 <= from <= s.len()
    via pieces_decreases
{
    let end = position(s, c, from);
    if end >= s.len() {
        seq![s.subrange(from, s.len() as int)]
    } else {
        seq![s.subrange(from, end)] + pieces(s, c, end + 1)
    }
}

#[via_fn]
proof fn pieces_decreases(s: Seq<char>, c: char, from: int) {
    lemma_position(s, c, from);
}

/// The text split at every `c`.
pub open spec fn split_at_char(s: Seq<char>, c: char) -> Seq<Seq<char>> {
    pieces(s, c, 0)
}

proof fn lemma_position_shift(a: Seq<char>, b: Seq<char>, c: char, from: int)
    requires
        0 <= from <= b.len(),
    ensures
        position(a + b, c, a.len() + from) == a.len() + position(b, c, from),
    decreases b.len() - from,
{
    if from < b.len() {
        assert((a + b)[a.len() + from] == b[from]);
        if b[from] != c {
            lemma_position_shift(a, b, c, from + 1);
        }
    }
}

/// The pieces behind a common start are those of the rest.
pub proof fn lemma_pieces_shift(a: Seq<char>, b: Seq<char>, c: char, from: int)
    requires
        0 <= from <= b.len(),
    ensures
        pieces(a + b, c, a.len() + from) == pieces(b, c, from),
    decreases b.len() - from,
{
    let end = position(b, c, from);
    lemma_position(b, c, from);
    lemma_position_shift(a, b, c, from);
    if end >= b.len() {
        assert((a + b).subrange(a.len() + from, (a + b).len() as int) =~= b.subrange(
            from,
            b.len() as int,
        ));
    } else {
        assert((a + b).subrange(a.len() + from, a.len() + end) =~= b.subrange(from, end));
        lemma_pieces_shift(a, b, c, end + 1);
        assert(a.len() + end + 1 == a.len() + (end + 1));
    }
}

/// The views of a list of texts.
pub open spec fn texts(v: Seq<String>) -> Seq<Seq<char>> {
    v.map_values(|t: String| t@)
}

/// Adding one text to a list adds its view to the views.
pub proof fn lemma_texts_push(v: Seq<String>, t: String)
    ensures
        texts(v.push(t)) == texts(v).push(t@),
{
    assert(texts(v.push(t)) =~= texts(v).push(t@));
}

pub fn split(s: &str, c: char) -> (r: Vec<String>)
    ensures
        texts(r@) == split_at_char(s@, c),
{
    let chars: Vec<char> = chars_of(s);
    let mut out: Vec<String> = Vec::new();
    let mut from: usize = 0;
    proof {
        assert(texts(out@) + pieces(s@, c, 0) =~= split_at_char(s@, c));
    }
    loop
        invariant
            from <= chars.len(),
            chars@ == s@,
            texts(out@) + pieces(s@, c, from as int) == split_at_char(s@, c),
        decreases chars.len() - from,
    {
        let end: usize = position_of(&chars, c, from);
        let piece: String = part(s, from, end);
        proof {
            lemma_position(s@, c, from as int);
            lemma_texts_push(out@, piece);
        }
        let ghost before = texts(out@);
        out.push(piece);
        if end >= chars.len() {
            proof {
                assert(before.push(piece@) =~= before + seq![piece@]);
            }
            return out;
        }
        proof {
            assert(before + (seq![piece@] + pieces(s@, c, end + 1)) =~= before.push(piece@)
                + pieces(s@, c, end + 1));
        }
        from = end + 1;
    }
}

/// A line without the carriage return before its newline.
pub open spec fn without_return(s: Seq<char>) -> Seq<char> {
    if s.len() > 0 && s.last() == '\r' {
        s.drop_last()
    } else {
        s
    }
}

/// The lines of a text from position `from`: each ends at a newline, which with a carriage return
/// directly before it is no part of the line; the newline of the last line is optional.
pub open spec fn lines_from(s: Seq<char>, from: int) -> Seq<Seq<char>>
    decreases s.len() - from,
    when 0 <= from <= s.len()
    via lines_decreases
{
    let end = position(s, '\n', from);
    if from >= s.len() {
        seq![]
    } else if end >= s.len() {
        seq![s.subrange(from, s.len() as int)]
    } else {
        seq![without_return(s.subrange(from, end))] + lines_from(s, end + 1)
    }
}

#[via_fn]
proof fn lines_decreases(s: Seq<char>, from: int) {
    lemma_position(s, '\n', from);
}

pub open spec fn lines_of(s: Seq<char>) -> Seq<Seq<char>> {
    lines_from(s, 0)
}

pub fn lines(s: &str) -> (r: Vec<String>)
    ensures
        texts(r@) == lines_of(s@),
{
    let chars: Vec<char> = chars_of(s);
    let mut out: Vec<String> = Vec::new();
    let mut from: usize = 0;
    proof {
        assert(texts(out@) + lines_from(s@, 0) =~= lines_of(s@));
    }
    while from < chars.len()
        invariant
            from <= chars.len(),
            chars@ == s@,
            texts(out@) + lines_from(s@, from as int) == lines_of(s@),
        decreases chars.len() - from,
    {
        let end: usize = position_of(&chars, '\n', from);
        proof {
            lemma_position(s@, '\n', from as int);
        }
        let ghost before = texts(out@);
        if end >= chars.len() {
            let line: String = part(s, from, end);
            proof {
                lemma_texts_push(out@, line);
                assert(before.push(line@) =~= before + seq![line@]);
            }
            out.push(line);
            return out;
        }
        let stop: usize = if end > from && chars[end - 1] == '\r' {
            end - 1
        } else {
            end
        };
        let line: String = part(s, from, stop);
        proof {
            let raw = s@.subrange(from as int, end as int);
            assert(raw.len() > 0 ==> raw.last() == s@[end - 1]);
            assert(line@ =~= without_return(raw));
            lemma_texts_push(out@, line);
            assert(before + (seq![line@] + lines_from(s@, end + 1)) =~= before.push(line@)
                + lines_from(s@, end + 1));
        }
        out.push(line);
        from = end + 1;
    }
    proof {
        assert(texts(out@) + lines_from(s@, from as int) =~= texts(out@));
    }
    out
}

/// Whether `needle` occurs in `s` at position `at`.
pub open spec fn occurs_at<T>(s: Seq<T>, needle: Seq<T>, at: int) -> bool {
    0 <= at && at + needle.len() <= s.len() && s.subrange(at, at + needle.len()) == needle
}

/// Whether `needle` occurs in `s`.
pub open spec fn occurs<T>(s: Seq<T>, needle: Seq<T>) -> bool {
    exists|at: int| #[trigger] occurs_at(s, needle, at)
}

fn chars_at(chars: &Vec<char>, needle: &Vec<char>, at: usize) -> (r: bool)
    ensures
        r == occurs_at(chars@, needle@, at as int),
{
    if at > chars.len() || needle.len() > chars.len() - at {
        return false;
    }
    let mut i: usize = 0;
    while i < needle.len()
        invariant
            i <= needle.len(),
            at + needle.len() <= chars.len(),
            forall|j: int| 0 <= j < i ==> chars@[at + j] == needle@[j],
        decreases needle.len() - i,
    {
        if chars[at + i] != needle[i] {
            proof {
                assert(chars@.subrange(at as int, at + needle@.len())[i as int] != needle@[i as int]);
            }
            return false;
        }
        i = i + 1;
    }
    proof {
        assert(chars@.subrange(at as int, at + needle@.len()) =~= needle@);
    }
    true
}

pub fn contains(s: &str, needle: &str) -> (r: bool)
    ensures
        r == occurs(s@, needle@),
{
    contains_chars(&chars_of(s), &chars_of(needle))
}

pub(crate) fn contains_chars(chars: &Vec<char>, wanted: &Vec<char>) -> (r: bool)
    ensures
        r == occurs(chars@, wanted@),
{
    if wanted.len() > chars.len() {
        return false;
    }
    let mut at: usize = 0;
    while at <= chars.len() - wanted.len()
        invariant
            at <= chars.len() - wanted.len() + 1,
            wanted.len() <= chars.len(),
            forall|j: int| 0 <= j < at ==> !#[trigger] occurs_at(chars@, wanted@, j),
        decreases chars.len() - wanted.len() + 1 - at,
    {
        if chars_at(chars, wanted, at) {
            return true;
        }
        if at == chars.len() - wanted.len() {
            return false;
        }
        at = at + 1;
    }
    false
}

fn bytes_at(bytes: &[u8], needle: &[u8], at: usize) -> (r: bool)
    ensures
        r == occurs_at(bytes@, needle@, at as int),
{
    if at > bytes.len() || needle.len() > bytes.len() - at {
        return false;
    }
    let mut i: usize = 0;
    while i < needle.len()
        invariant
            i <= needle.len(),
            at + needle.len() <= bytes.len(),
            forall|j: int| 0 <= j < i ==> bytes@[at + j] == needle@[j],
        decreases needle.len() - i,
    {
        if bytes[at + i] != needle[i] {
            proof {
                assert(bytes@.subrange(at as int, at + needle@.len())[i as int] != needle@[i as int]);
            }
            return false;
        }
        i = i + 1;
    }
    proof {
        assert(bytes@.subrange(at as int, at + needle@.len()) =~= needle@);
    }
    true
}

pub fn contains_bytes(bytes: &[u8], needle: &[u8]) -> (r: bool)
    ensures
        r == occurs(bytes@, needle@),
{
    if needle.len() > bytes.len() {
        return false;
    }
    let mut at: usize = 0;
    while at <= bytes.len() - needle.len()
        invariant
            at <= bytes.len() - needle.len() + 1,
            needle.len() <= bytes.len(),
            forall|j: int| 0 <= j < at ==> !#[trigger] occurs_at(bytes@, needle@, j),
        decreases bytes.len() - needle.len() + 1 - at,
    {
        if bytes_at(bytes, needle, at) {
            return true;
        }
        if at == bytes.len() - needle.len() {
            return false;
        }
        at = at + 1;
    }
    false
}

pub fn starts_with(s: &str, prefix: &str) -> (r: bool)
    ensures
        r == prefix@.is_prefix_of(s@),
{
    let chars: Vec<char> = chars_of(s);
    let wanted: Vec<char> = chars_of(prefix);
    let r: bool = chars_at(&chars, &wanted, 0);
    proof {
        if r {
            assert forall|i: int| 0 <= i < prefix@.len() implies prefix@[i] == s@[i] by {
                assert(s@.subrange(0, prefix@.len() as int)[i] == prefix@[i]);
            }
        } else if prefix@.is_prefix_of(s@) {
            assert(s@.subrange(0, prefix@.len() as int) =~= prefix@);
        }
    }
    r
}

pub fn ends_with(s: &str, suffix: &str) -> (r: bool)
    ensures
        r == suffix@.is_suffix_of(s@),
{
    let chars: Vec<char> = chars_of(s);
    let wanted: Vec<char> = chars_of(suffix);
    if wanted.len() > chars.len() {
        return false;
    }
    let at: usize = chars.len() - wanted.len();
    let r: bool = chars_at(&chars, &wanted, at);
    proof {
        let n = suffix@.len() as int;
        if r {
            assert(s@.subrange(s@.len() - n, s@.len() as int) =~= suffix@);
            assert(suffix@.is_suffix_of(s@));
        } else if suffix@.is_suffix_of(s@) {
            assert(s@.subrange(at as int, at + n) =~= suffix@);
        }
    }
    r
}

/// A text after a prefix, where it starts with it.
pub open spec fn after_prefix(s: Seq<char>, prefix: Seq<char>) -> Option<Seq<char>> {
    if prefix.is_prefix_of(s) {
        Some(s.skip(prefix.len() as int))
    } else {
        None
    }
}

/// A text before a suffix, where it ends with it.
pub open spec fn before_suffix(s: Seq<char>, suffix: Seq<char>) -> Option<Seq<char>> {
    if suffix.is_suffix_of(s) {
        Some(s.take(s.len() - suffix.len()))
    } else {
        None
    }
}

pub open spec fn text_option(r: Option<String>) -> Option<Seq<char>> {
    match r {
        Some(t) => Some(t@),
        None => None,
    }
}

pub fn strip_prefix(s: &str, prefix: &str) -> (r: Option<String>)
    ensures
        text_option(r) == after_prefix(s@, prefix@),
{
    if starts_with(s, prefix) {
        let n: usize = prefix.unicode_len();
        let t: String = part(s, n, s.unicode_len());
        proof {
            assert(t@ =~= s@.skip(n as int));
        }
        Some(t)
    } else {
        None
    }
}

pub fn strip_suffix(s: &str, suffix: &str) -> (r: Option<String>)
    ensures
        text_option(r) == before_suffix(s@, suffix@),
{
    if ends_with(s, suffix) {
        let t: String = part(s, 0, s.unicode_len() - suffix.unicode_len());
        proof {
            assert(t@ =~= s@.take(s@.len() - suffix@.len()));
        }
        Some(t)
    } else {
        None
    }
}

/// A text without the copies of a prefix that it starts with.
pub open spec fn without_prefixes(s: Seq<char>, prefix: Seq<char>) -> Seq<char>
    decreases s.len(),
{
    if prefix.len() > 0 && prefix.is_prefix_of(s) {
        without_prefixes(s.skip(prefix.len() as int), prefix)
    } else {
        s
    }
}

pub fn trim_prefixes(s: &str, prefix: &str) -> (r: String)
    ensures
        r@ == without_prefixes(s@, prefix@),
{
    let mut rest: String = s.to_owned();
    if prefix.is_empty() {
        return rest;
    }
    loop
        invariant
            prefix@.len() > 0,
            without_prefixes(rest@, prefix@) == without_prefixes(s@, prefix@),
        decreases rest@.len(),
    {
        match strip_prefix(rest.as_str(), prefix) {
            Some(t) => {
                rest = t;
            },
            None => {
                return rest;
            },
        }
    }
}

/// The digit of a number under ten.
pub open spec fn digit(n: nat) -> char {
    (48 + n % 10) as char
}

/// The decimal digits of a number, without leading zeros.
pub open spec fn decimal(n: nat) -> Seq<char>
    decreases n,
{
    if n < 10 {
        seq![digit(n)]
    } else {
        decimal(n / 10).push(digit(n))
    }
}

fn digit_text(n: u64) -> (r: &'static str)
    requires
        n < 10,
    ensures
        r@ == seq![digit(n as nat)],
{
    proof {
        reveal_strlit("0");
        reveal_strlit("1");
        reveal_strlit("2");
        reveal_strlit("3");
        reveal_strlit("4");
        reveal_strlit("5");
        reveal_strlit("6");
        reveal_strlit("7");
        reveal_strlit("8");
        reveal_strlit("9");
    }
    let r: &'static str = match n {
        0 => "0",
        1 => "1",
        2 => "2",
        3 => "3",
        4 => "4",
        5 => "5",
        6 => "6",
        7 => "7",
        8 => "8",
        _ => "9",
    };
    proof {
        assert(r@ =~= seq![digit(n as nat)]);
    }
    r
}

pub fn number_text(n: u64) -> (r: String)
    ensures
        r@ == decimal(n as nat),
    decreases n,
{
    if n < 10 {
        digit_text(n).to_owned()
    } else {
        let mut head: String = number_text(n / 10);
        head.append(digit_text(n % 10));
        proof {
            assert(digit((n % 10) as nat) == digit(n as nat));
            assert(head@ =~= decimal((n / 10) as nat).push(digit(n as nat)));
        }
        head
    }
}

pub open spec fn is_digit(c: char) -> bool {
    '0' <= c && c <= '9'
}

/// The value of a run of decimal digits; `None` where a scalar is no digit.
pub open spec fn digits_value(s: Seq<char>) -> Option<nat>
    decreases s.len(),
{
    if s.len() == 0 {
        Some(0nat)
    } else {
        match digits_value(s.drop_last()) {
            Some(v) => if is_digit(s.last()) {
                Some(v * 10 + (s.last() as nat - 48) as nat)
            } else {
                None
            },
            None => None,
        }
    }
}

/// The digits of a number text: what follows one optional plus sign.
pub open spec fn unsigned_digits(s: Seq<char>) -> Seq<char> {
    if s.len() > 0 && s[0] == '+' {
        s.skip(1)
    } else {
        s
    }
}

/// The unsigned number that a text denotes: one optional plus sign and at least one digit, with a
/// value of at most `max`.
pub open spec fn unsigned(s: Seq<char>, max: nat) -> Option<nat> {
    let d = unsigned_digits(s);
    match digits_value(d) {
        Some(v) => if d.len() > 0 && v <= max {
            Some(v)
        } else {
            None
        },
        None => None,
    }
}

pub open spec fn number_option(r: Option<u64>) -> Option<nat> {
    match r {
        Some(v) => Some(v as nat),
        None => None,
    }
}

/// A prefix of a digit run bounds the run's value from below, and a scalar that is no digit spoils
/// every longer run.
proof fn lemma_digits_prefix(s: Seq<char>, i: int)
    requires
        0 <= i <= s.len(),
    ensures
        digits_value(s.take(i)) is None ==> digits_value(s) is None,
        digits_value(s) matches Some(v) ==> digits_value(s.take(i)) matches Some(u) && u <= v,
    decreases s.len() - i,
{
    if i == s.len() {
        assert(s.take(i) =~= s);
    } else {
        lemma_digits_prefix(s, i + 1);
        assert(s.take(i + 1).drop_last() =~= s.take(i));
    }
}

pub fn parse_unsigned(s: &str, max: u64) -> (r: Option<u64>)
    ensures
        number_option(r) == unsigned(s@, max as nat),
{
    let chars: Vec<char> = chars_of(s);
    let from: usize = if chars.len() > 0 && chars[0] == '+' {
        1
    } else {
        0
    };
    let ghost d = unsigned_digits(s@);
    proof {
        assert(d =~= s@.skip(from as int));
    }
    if from == chars.len() {
        return None;
    }
    let mut value: u64 = 0;
    let mut i: usize = from;
    proof {
        assert(d.take(0) =~= Seq::<char>::empty());
    }
    while i < chars.len()
        invariant
            from <= i <= chars.len(),
            from < chars.len(),
            chars@ == s@,
            d == s@.skip(from as int),
            d == unsigned_digits(s@),
            digits_value(d.take(i - from)) == Some(value as nat),
            value <= max,
        decreases chars.len() - i,
    {
        let c: char = chars[i];
        proof {
            assert(d.take(i + 1 - from).drop_last() =~= d.take(i - from));
            assert(d.take(i + 1 - from).last() == c);
            lemma_digits_prefix(d, i + 1 - from);
        }
        if !('0' <= c && c <= '9') {
            return None;
        }
        let add: u64 = (c as u32 - 48) as u64;
        if value > max / 10 {
            proof {
                assert(value * 10 + add > max);
            }
            return None;
        }
        if add > max || value * 10 > max - add {
            return None;
        }
        value = value * 10 + add;
        i = i + 1;
    }
    proof {
        assert(d.take(i - from) =~= d);
    }
    Some(value)
}

/// What is wrong with some digits from a position on: the first scalar that is no digit, or the
/// first digit that takes the value above the bound.
pub open spec fn digits_problem(d: Seq<char>, max: nat, from: int) -> Seq<char>
    decreases d.len() - from,
{
    if from < 0 || from >= d.len() || !is_digit(d[from]) {
        "invalid digit found in string"@
    } else if digits_value(d.take(from + 1)) matches Some(v) && v > max {
        "number too large to fit in target type"@
    } else {
        digits_problem(d, max, from + 1)
    }
}

/// Why a text denotes no number up to `max`.
pub open spec fn number_problem(s: Seq<char>, max: nat) -> Seq<char> {
    if s.len() == 0 {
        "cannot parse integer from empty string"@
    } else {
        digits_problem(unsigned_digits(s), max, 0)
    }
}

/// The number that a text denotes, or why it denotes none.
pub fn parse_number(s: &str, max: u64) -> (r: Result<u64, &'static str>)
    ensures
        match unsigned(s@, max as nat) {
            Some(n) => r matches Ok(v) && v == n,
            None => r matches Err(reason) && reason@ == number_problem(s@, max as nat),
        },
{
    match parse_unsigned(s, max) {
        Some(v) => {
            return Ok(v);
        },
        None => {},
    }
    let chars: Vec<char> = chars_of(s);
    if chars.len() == 0 {
        return Err("cannot parse integer from empty string");
    }
    let from: usize = if chars[0] == '+' {
        1
    } else {
        0
    };
    let ghost d = unsigned_digits(s@);
    let mut value: u64 = 0;
    let mut i: usize = from;
    proof {
        assert(d =~= s@.skip(from as int));
        assert(d.take(0) =~= Seq::<char>::empty());
    }
    while i < chars.len()
        invariant
            from <= i <= chars.len(),
            chars@ == s@,
            s@.len() > 0,
            d == s@.skip(from as int),
            d == unsigned_digits(s@),
            digits_value(d.take(i - from)) == Some(value as nat),
            value <= max,
            unsigned(s@, max as nat) is None,
            digits_problem(d, max as nat, i - from) == number_problem(s@, max as nat),
        decreases chars.len() - i,
    {
        let c: char = chars[i];
        proof {
            assert(d[i - from] == c);
            assert(d.take(i + 1 - from).drop_last() =~= d.take(i - from));
            assert(d.take(i + 1 - from).last() == c);
        }
        if !('0' <= c && c <= '9') {
            return Err("invalid digit found in string");
        }
        let add: u64 = (c as u32 - 48) as u64;
        if value > max / 10 || add > max || value * 10 > max - add {
            proof {
                assert(value * 10 + add > max);
            }
            return Err("number too large to fit in target type");
        }
        value = value * 10 + add;
        i = i + 1;
    }
    proof {
        assert(d.take(i - from) =~= d);
    }
    Err("invalid digit found in string")
}

/// A list of texts in a row, with a separator between neighbours.
pub open spec fn joined_with(v: Seq<Seq<char>>, separator: Seq<char>) -> Seq<char>
    decreases v.len(),
{
    if v.len() == 0 {
        seq![]
    } else if v.len() == 1 {
        v[0]
    } else {
        joined_with(v.drop_last(), separator) + separator + v.last()
    }
}

pub fn join(v: &Vec<String>, separator: &str) -> (r: String)
    ensures
        r@ == joined_with(texts(v@), separator@),
{
    let mut out: String = String::new();
    let mut i: usize = 0;
    while i < v.len()
        invariant
            i <= v.len(),
            out@ == joined_with(texts(v@).take(i as int), separator@),
        decreases v.len() - i,
    {
        if i > 0 {
            out.append(separator);
        }
        out.append(v[i].as_str());
        proof {
            let next = texts(v@).take(i + 1);
            assert(next.drop_last() =~= texts(v@).take(i as int));
            assert(i == 0 ==> out@ =~= next[0]);
        }
        i = i + 1;
    }
    proof {
        assert(texts(v@).take(i as int) =~= texts(v@));
    }
    out
}

/// Whether a text is among the texts of a list.
pub fn listed(v: &Vec<String>, t: &str) -> (r: bool)
    ensures
        r == texts(v@).contains(t@),
{
    let mut i: usize = 0;
    while i < v.len()
        invariant
            i <= v.len(),
            forall|j: int| 0 <= j < i ==> texts(v@)[j] != t@,
        decreases v.len() - i,
    {
        if same_text(v[i].as_str(), t) {
            proof {
                assert(texts(v@)[i as int] == t@);
            }
            return true;
        }
        i = i + 1;
    }
    false
}

/// An independent copy of a list of texts.
pub fn copy_texts(v: &Vec<String>) -> (r: Vec<String>)
    ensures
        texts(r@) == texts(v@),
{
    let mut out: Vec<String> = Vec::new();
    let mut i: usize = 0;
    while i < v.len()
        invariant
            i <= v.len(),
            texts(out@) == texts(v@).take(i as int),
        decreases v.len() - i,
    {
        let t: String = v[i].as_str().to_owned();
        proof {
            lemma_texts_push(out@, t);
            assert(texts(v@).take(i + 1) =~= texts(v@).take(i as int).push(t@));
        }
        out.push(t);
        i = i + 1;
    }
    proof {
        assert(texts(v@).take(i as int) =~= texts(v@));
    }
    out
}

/// What stands before and after the first occurrence of a separator.
pub open spec fn divided(s: Seq<char>, c: char) -> Option<(Seq<char>, Seq<char>)> {
    let p = position(s, c, 0);
    if p < s.len() {
        Some((s.subrange(0, p), s.subrange(p + 1, s.len() as int)))
    } else {
        None
    }
}

pub open spec fn divided_option(r: Option<(String, String)>) -> Option<(Seq<char>, Seq<char>)> {
    match r {
        Some((a, b)) => Some((a@, b@)),
        None => None,
    }
}

pub fn split_once(s: &str, c: char) -> (r: Option<(String, String)>)
    ensures
        divided_option(r) == divided(s@, c),
{
    let chars: Vec<char> = chars_of(s);
    let p: usize = position_of(&chars, c, 0);
    proof {
        lemma_position(s@, c, 0);
    }
    if p < chars.len() {
        Some((part(s, 0, p), part(s, p + 1, chars.len())))
    } else {
        None
    }
}

/// The first position, from one on, at which a text occurs.
pub open spec fn first_occurrence(s: Seq<char>, needle: Seq<char>, from: int) -> Option<int>
    decreases s.len() + 1 - from,
{
    if from < 0 || from + needle.len() > s.len() {
        None
    } else if occurs_at(s, needle, from) {
        Some(from)
    } else {
        first_occurrence(s, needle, from + 1)
    }
}

proof fn lemma_first_occurrence(s: Seq<char>, needle: Seq<char>, from: int)
    requires
        0 <= from,
    ensures
        first_occurrence(s, needle, from) matches Some(i) ==> from <= i && occurs_at(s, needle, i),
    decreases s.len() + 1 - from,
{
    if from + needle.len() <= s.len() && !occurs_at(s, needle, from) {
        lemma_first_occurrence(s, needle, from + 1);
    }
}

fn find_chars(chars: &Vec<char>, needle: &Vec<char>, from: usize) -> (r: Option<usize>)
    requires
        from <= chars.len(),
    ensures
        match r {
            Some(i) => first_occurrence(chars@, needle@, from as int) == Some(i as int),
            None => first_occurrence(chars@, needle@, from as int) is None,
        },
{
    let mut at: usize = from;
    while at <= chars.len() && needle.len() <= chars.len() - at
        invariant
            from <= at <= chars.len() + 1,
            first_occurrence(chars@, needle@, from as int) == first_occurrence(
                chars@,
                needle@,
                at as int,
            ),
        decreases chars.len() + 1 - at,
    {
        if chars_at(chars, needle, at) {
            return Some(at);
        }
        if at == chars.len() {
            proof {
                assert(first_occurrence(chars@, needle@, at + 1) is None);
            }
            return None;
        }
        at = at + 1;
    }
    None
}

/// What stands before and after the first occurrence of a text.
pub open spec fn divided_at(s: Seq<char>, needle: Seq<char>) -> Option<(Seq<char>, Seq<char>)> {
    match first_occurrence(s, needle, 0) {
        Some(i) => Some((s.subrange(0, i), s.subrange(i + needle.len(), s.len() as int))),
        None => None,
    }
}

pub fn split_once_at(s: &str, needle: &str) -> (r: Option<(String, String)>)
    ensures
        divided_option(r) == divided_at(s@, needle@),
{
    let chars: Vec<char> = chars_of(s);
    let wanted: Vec<char> = chars_of(needle);
    match find_chars(&chars, &wanted, 0) {
        Some(i) => {
            proof {
                lemma_first_occurrence(s@, needle@, 0);
            }
            let end: usize = chars.len();
            Some((part(s, 0, i), part(s, i + wanted.len(), end)))
        },
        None => None,
    }
}

/// A text from a position on, with every occurrence of another in turn replaced.
pub open spec fn replaced_from(
    s: Seq<char>,
    needle: Seq<char>,
    replacement: Seq<char>,
    from: int,
) -> Seq<char>
    decreases s.len() - from,
{
    match first_occurrence(s, needle, from) {
        Some(i) => if needle.len() > 0 && from <= i && i + needle.len() <= s.len() {
            s.subrange(from, i) + replacement + replaced_from(
                s,
                needle,
                replacement,
                i + needle.len(),
            )
        } else {
            s.subrange(from, s.len() as int)
        },
        None => s.subrange(from, s.len() as int),
    }
}

pub fn replace(s: &str, needle: &str, replacement: &str) -> (r: String)
    requires
        needle@.len() > 0,
    ensures
        r@ == replaced_from(s@, needle@, replacement@, 0),
{
    let chars: Vec<char> = chars_of(s);
    let wanted: Vec<char> = chars_of(needle);
    let mut out: String = String::new();
    let mut from: usize = 0;
    proof {
        assert(out@ + replaced_from(s@, needle@, replacement@, 0) =~= replaced_from(
            s@,
            needle@,
            replacement@,
            0,
        ));
    }
    loop
        invariant
            chars@ == s@,
            wanted@ == needle@,
            needle@.len() > 0,
            from <= chars.len(),
            out@ + replaced_from(s@, needle@, replacement@, from as int) == replaced_from(
                s@,
                needle@,
                replacement@,
                0,
            ),
        decreases chars.len() - from,
    {
        proof {
            lemma_first_occurrence(s@, needle@, from as int);
        }
        match find_chars(&chars, &wanted, from) {
            Some(i) => {
                let ghost before = out@;
                out = joined3(out.as_str(), part(s, from, i).as_str(), replacement);
                proof {
                    let rest = replaced_from(s@, needle@, replacement@, i + needle@.len());
                    assert(before + (s@.subrange(from as int, i as int) + replacement@ + rest)
                        =~= out@ + rest);
                }
                from = i + wanted.len();
            },
            None => {
                return joined(out.as_str(), part(s, from, chars.len()).as_str());
            },
        }
    }
}

} // verus!
