//! JSON documents as plain values, with reads and updates stated over an abstract tree.

use vstd::prelude::*;
use vstd::string::*;

use crate::text::{
    chars_of, lemma_pieces_shift, lemma_position, parse_unsigned, part, pieces, position, same_text,
    split, split_at_char, texts, unsigned,
};

verus! {

/// A JSON document. An object's later entry for a key hides an earlier one. A number that is no
/// 64-bit integer is kept as its text.
#[derive(Debug)]
pub enum Json {
    Null,
    Bool(bool),
    Unsigned(u64),
    Negative(i64),
    Real(String),
    Text(String),
    List(Vec<Json>),
    Object(Vec<(String, Json)>),
}

/// What a JSON document denotes.
#[verifier::ext_equal]
pub enum Tree {
    Null,
    Bool(bool),
    Integer(int),
    Real(Seq<char>),
    Text(Seq<char>),
    List(Seq<Tree>),
    Object(Map<Seq<char>, Tree>),
}

pub open spec fn tree(j: Json) -> Tree
    decreases j,
{
    match j {
        Json::Null => Tree::Null,
        Json::Bool(b) => Tree::Bool(b),
        Json::Unsigned(n) => Tree::Integer(n as int),
        Json::Negative(n) => Tree::Integer(n as int),
        Json::Real(s) => Tree::Real(s@),
        Json::Text(s) => Tree::Text(s@),
        Json::List(v) => Tree::List(trees(v@)),
        Json::Object(v) => Tree::Object(entries(v@)),
    }
}

pub open spec fn trees(v: Seq<Json>) -> Seq<Tree>
    decreases v,
{
    if v.len() == 0 {
        seq![]
    } else {
        trees(v.drop_last()).push(tree(v.last()))
    }
}

pub open spec fn entries(v: Seq<(String, Json)>) -> Map<Seq<char>, Tree>
    decreases v,
{
    if v.len() == 0 {
        Map::empty()
    } else {
        entries(v.drop_last()).insert(v.last().0@, tree(v.last().1))
    }
}

impl View for Json {
    type V = Tree;

    open spec fn view(&self) -> Tree {
        tree(*self)
    }
}

/// Every element of a list denotes the tree at its position.
pub proof fn lemma_trees(v: Seq<Json>)
    ensures
        trees(v).len() == v.len(),
        forall|i: int| 0 <= i < v.len() ==> #[trigger] trees(v)[i] == tree(v[i]),
    decreases v.len(),
{
    if v.len() > 0 {
        lemma_trees(v.drop_last());
        assert forall|i: int| 0 <= i < v.len() implies #[trigger] trees(v)[i] == tree(v[i]) by {
            if i < v.len() - 1 {
                assert(trees(v.drop_last())[i] == tree(v.drop_last()[i]));
            }
        }
    }
}

pub proof fn lemma_trees_push(v: Seq<Json>, j: Json)
    ensures
        trees(v.push(j)) == trees(v).push(tree(j)),
{
    assert(v.push(j).drop_last() =~= v);
}

pub proof fn lemma_entries_push(v: Seq<(String, Json)>, e: (String, Json))
    ensures
        entries(v.push(e)) == entries(v).insert(e.0@, tree(e.1)),
{
    assert(v.push(e).drop_last() =~= v);
}

/// A key's value is that of its last entry.
proof fn lemma_last_entry(v: Seq<(String, Json)>, key: Seq<char>, at: int)
    requires
        0 <= at < v.len(),
        v[at].0@ == key,
        forall|i: int| at < i < v.len() ==> (#[trigger] v[i]).0@ != key,
    ensures
        entries(v).contains_key(key),
        entries(v)[key] == tree(v[at].1),
    decreases v.len(),
{
    if at < v.len() - 1 {
        assert(v[v.len() - 1].0@ != key);
        lemma_last_entry(v.drop_last(), key, at);
    }
}

proof fn lemma_no_entry(v: Seq<(String, Json)>, key: Seq<char>)
    requires
        forall|i: int| 0 <= i < v.len() ==> (#[trigger] v[i]).0@ != key,
    ensures
        !entries(v).contains_key(key),
    decreases v.len(),
{
    if v.len() > 0 {
        assert(v[v.len() - 1].0@ != key);
        assert forall|i: int| 0 <= i < v.len() - 1 implies (#[trigger] v.drop_last()[i]).0@
            != key by {
            assert(v.drop_last()[i] == v[i]);
        }
        lemma_no_entry(v.drop_last(), key);
    }
}

/// Every key of an object occurs in an entry.
pub(crate) proof fn lemma_key_occurs(v: Seq<(String, Json)>, key: Seq<char>)
    requires
        entries(v).contains_key(key),
    ensures
        exists|i: int| 0 <= i < v.len() && (#[trigger] v[i]).0@ == key,
{
    if forall|i: int| 0 <= i < v.len() ==> (#[trigger] v[i]).0@ != key {
        lemma_no_entry(v, key);
    }
}

pub(crate) fn last_entry(v: &Vec<(String, Json)>, key: &str) -> (r: Option<usize>)
    ensures
        match r {
            Some(i) => i < v@.len() && v@[i as int].0@ == key@ && entries(v@).contains_key(key@)
                && entries(v@)[key@] == tree(v@[i as int].1),
            None => !entries(v@).contains_key(key@),
        },
{
    let mut i: usize = v.len();
    while i > 0
        invariant
            i <= v.len(),
            forall|j: int| i <= j < v.len() ==> (#[trigger] v@[j]).0@ != key@,
        decreases i,
    {
        if same_text(v[i - 1].0.as_str(), key) {
            proof {
                lemma_last_entry(v@, key@, i - 1);
            }
            return Some(i - 1);
        }
        i = i - 1;
    }
    proof {
        lemma_no_entry(v@, key@);
    }
    None
}

/// One step of a path: a key of an object, or `#` and a position in a list.
pub open spec fn stepped(t: Tree, segment: Seq<char>) -> Option<Tree> {
    match t {
        Tree::Object(m) => if m.contains_key(segment) {
            Some(m[segment])
        } else {
            None
        },
        Tree::List(l) => match list_position(segment, l.len() as int) {
            Some(i) => Some(l[i]),
            None => None,
        },
        _ => None,
    }
}

pub open spec fn list_position(segment: Seq<char>, len: int) -> Option<int> {
    if segment.len() > 0 && segment[0] == '#' {
        match unsigned(segment.skip(1), u64::MAX as nat) {
            Some(i) => if i < len {
                Some(i as int)
            } else {
                None
            },
            None => None,
        }
    } else {
        None
    }
}

pub open spec fn walked(t: Tree, path: Seq<Seq<char>>) -> Option<Tree>
    decreases path.len(),
{
    if path.len() == 0 {
        Some(t)
    } else {
        match stepped(t, path[0]) {
            Some(next) => walked(next, path.skip(1)),
            None => None,
        }
    }
}

/// The segments of a path text, which a comma separates; the empty text is the empty path.
pub open spec fn segments(path: Seq<char>) -> Seq<Seq<char>> {
    if path.len() == 0 {
        seq![]
    } else {
        split_at_char(path, ',')
    }
}

/// What stands at a path.
#[verifier::opaque]
pub open spec fn found(t: Tree, path: Seq<char>) -> Option<Tree> {
    walked(t, segments(path))
}

/// What stands at a path, with `Null` where nothing does.
pub open spec fn at(t: Tree, path: Seq<char>) -> Tree {
    match found(t, path) {
        Some(x) => x,
        None => Tree::Null,
    }
}

/// The elements of the list at a path; none where no list stands there.
pub open spec fn items(t: Tree, path: Seq<char>) -> Seq<Tree> {
    match at(t, path) {
        Tree::List(l) => l,
        _ => seq![],
    }
}

/// The position of the first element from `from` on with the given value at a field.
pub open spec fn first_with(l: Seq<Tree>, field: Seq<char>, value: Tree, from: int) -> int
    decreases l.len() - from,
{
    if from < 0 || from >= l.len() || at(l[from], field) == value {
        from
    } else {
        first_with(l, field, value, from + 1)
    }
}

/// The first element of a list with the given value at a field.
pub open spec fn element_with(l: Seq<Tree>, field: Seq<char>, value: Tree) -> Option<Tree> {
    let i = first_with(l, field, value, 0);
    if i < l.len() {
        Some(l[i])
    } else {
        None
    }
}

pub open spec fn tree_option(r: Option<&Json>) -> Option<Tree> {
    match r {
        Some(j) => Some(j@),
        None => None,
    }
}

fn position_in(segment: &str, len: usize) -> (r: Option<usize>)
    ensures
        match r {
            Some(i) => list_position(segment@, len as int) == Some(i as int),
            None => list_position(segment@, len as int) is None,
        },
{
    let chars: Vec<char> = chars_of(segment);
    if chars.len() > 0 && chars[0] == '#' {
        let digits: String = part(segment, 1, chars.len());
        proof {
            assert(digits@ =~= segment@.skip(1));
        }
        match parse_unsigned(digits.as_str(), u64::MAX) {
            Some(i) => if i < len as u64 {
                Some(i as usize)
            } else {
                None
            },
            None => None,
        }
    } else {
        None
    }
}

impl Json {
    pub fn text(s: &str) -> (r: Json)
        ensures
            r@ == Tree::Text(s@),
    {
        Json::Text(s.to_owned())
    }

    pub fn number(n: u64) -> (r: Json)
        ensures
            r@ == Tree::Integer(n as int),
    {
        Json::Unsigned(n)
    }

    pub fn flag(b: bool) -> (r: Json)
        ensures
            r@ == Tree::Bool(b),
    {
        Json::Bool(b)
    }

    /// The empty object.
    pub fn object() -> (r: Json)
        ensures
            r@ == Tree::Object(Map::empty()),
    {
        Json::Object(Vec::new())
    }

    /// The empty list.
    pub fn list() -> (r: Json)
        ensures
            r@ == Tree::List(seq![]),
    {
        Json::List(Vec::new())
    }

    /// An object with one more entry, in place of any for the same key.
    pub fn with(self, key: &str, value: Json) -> (r: Json)
        requires
            self@ is Object,
        ensures
            r@ == with(self@, key@, value@),
    {
        match self {
            Json::Object(v) => {
                let mut v: Vec<(String, Json)> = v;
                let ghost old = v@;
                let entry: (String, Json) = (key.to_owned(), value);
                proof {
                    lemma_entries_push(old, entry);
                }
                v.push(entry);
                Json::Object(v)
            },
            other => other,
        }
    }

    /// A list with one more element at its end.
    pub fn and(self, value: Json) -> (r: Json)
        requires
            self@ is List,
        ensures
            r@ == and(self@, value@),
    {
        match self {
            Json::List(v) => {
                let mut v: Vec<Json> = v;
                proof {
                    lemma_trees_push(v@, value);
                }
                v.push(value);
                Json::List(v)
            },
            other => other,
        }
    }

    /// An independent copy.
    pub fn copy(&self) -> (r: Json)
        ensures
            r@ == self@,
        decreases self,
    {
        match self {
            Json::Null => Json::Null,
            Json::Bool(b) => Json::Bool(*b),
            Json::Unsigned(n) => Json::Unsigned(*n),
            Json::Negative(n) => Json::Negative(*n),
            Json::Real(s) => Json::Real(s.as_str().to_owned()),
            Json::Text(s) => Json::Text(s.as_str().to_owned()),
            Json::List(v) => {
                let mut out: Vec<Json> = Vec::new();
                let mut i: usize = 0;
                while i < v.len()
                    invariant
                        i <= v.len(),
                        decreases_to!(self => v@),
                        trees(out@) == trees(v@.take(i as int)),
                    decreases v.len() - i,
                {
                    let c: Json = v[i].copy();
                    proof {
                        lemma_trees_push(out@, c);
                        assert(v@.take(i + 1).drop_last() =~= v@.take(i as int));
                    }
                    out.push(c);
                    i = i + 1;
                }
                proof {
                    assert(v@.take(i as int) =~= v@);
                }
                Json::List(out)
            },
            Json::Object(v) => {
                let mut out: Vec<(String, Json)> = Vec::new();
                let mut i: usize = 0;
                while i < v.len()
                    invariant
                        i <= v.len(),
                        decreases_to!(self => v@),
                        entries(out@) == entries(v@.take(i as int)),
                    decreases v.len() - i,
                {
                    let c: Json = v[i].1.copy();
                    let e: (String, Json) = (v[i].0.as_str().to_owned(), c);
                    proof {
                        lemma_entries_push(out@, e);
                        assert(v@.take(i + 1).drop_last() =~= v@.take(i as int));
                    }
                    out.push(e);
                    i = i + 1;
                }
                proof {
                    assert(v@.take(i as int) =~= v@);
                }
                Json::Object(out)
            },
        }
    }

    /// Whether two documents denote the same tree.
    pub fn same(&self, other: &Json) -> (r: bool)
        ensures
            r == (self@ == other@),
        decreases self,
    {
        match (self, other) {
            (Json::Null, Json::Null) => true,
            (Json::Bool(a), Json::Bool(b)) => *a == *b,
            (Json::Unsigned(a), Json::Unsigned(b)) => *a == *b,
            (Json::Negative(a), Json::Negative(b)) => *a == *b,
            (Json::Unsigned(a), Json::Negative(b)) => *b >= 0 && *a == *b as u64,
            (Json::Negative(a), Json::Unsigned(b)) => *a >= 0 && *a as u64 == *b,
            (Json::Real(a), Json::Real(b)) => same_text(a.as_str(), b.as_str()),
            (Json::Text(a), Json::Text(b)) => same_text(a.as_str(), b.as_str()),
            (Json::List(a), Json::List(b)) => {
                proof {
                    lemma_trees(a@);
                    lemma_trees(b@);
                }
                if a.len() != b.len() {
                    return false;
                }
                let mut i: usize = 0;
                while i < a.len()
                    invariant
                        i <= a.len(),
                        a.len() == b.len(),
                        decreases_to!(self => a@),
                        trees(a@).len() == a.len(),
                        trees(b@).len() == b.len(),
                        forall|j: int| 0 <= j < a.len() ==> #[trigger] trees(a@)[j] == tree(a@[j]),
                        forall|j: int| 0 <= j < b.len() ==> #[trigger] trees(b@)[j] == tree(b@[j]),
                        forall|j: int| 0 <= j < i ==> trees(a@)[j] == trees(b@)[j],
                        self@ == Tree::List(trees(a@)),
                        other@ == Tree::List(trees(b@)),
                    decreases a.len() - i,
                {
                    if !a[i].same(&b[i]) {
                        proof {
                            assert(trees(a@)[i as int] != trees(b@)[i as int]);
                        }
                        return false;
                    }
                    i = i + 1;
                }
                proof {
                    assert(trees(a@) =~= trees(b@));
                }
                true
            },
            (Json::Object(a), Json::Object(b)) => {
                let ghost ma = entries(a@);
                let ghost mb = entries(b@);
                let mut i: usize = 0;
                while i < a.len()
                    invariant
                        i <= a.len(),
                        decreases_to!(self => a@),
                        ma == entries(a@),
                        mb == entries(b@),
                        self@ == Tree::Object(ma),
                        other@ == Tree::Object(mb),
                        forall|j: int|
                            0 <= j < i ==> mb.contains_key((#[trigger] a@[j]).0@) && ma[a@[j].0@]
                                == mb[a@[j].0@],
                    decreases a.len() - i,
                {
                    let key: &str = a[i].0.as_str();
                    match last_entry(a, key) {
                        Some(x) => match last_entry(b, key) {
                            Some(y) => {
                                if !a[x].1.same(&b[y].1) {
                                    return false;
                                }
                            },
                            None => {
                                return false;
                            },
                        },
                        None => {
                            proof {
                                lemma_present(a@, i as int);
                                assert(false);
                            }
                        },
                    }
                    i = i + 1;
                }
                let mut k: usize = 0;
                while k < b.len()
                    invariant
                        k <= b.len(),
                        ma == entries(a@),
                        mb == entries(b@),
                        self@ == Tree::Object(ma),
                        other@ == Tree::Object(mb),
                        forall|j: int|
                            0 <= j < a.len() ==> mb.contains_key((#[trigger] a@[j]).0@)
                                && ma[a@[j].0@] == mb[a@[j].0@],
                        forall|j: int| 0 <= j < k ==> ma.contains_key((#[trigger] b@[j]).0@),
                    decreases b.len() - k,
                {
                    if last_entry(a, b[k].0.as_str()).is_none() {
                        proof {
                            lemma_present(b@, k as int);
                        }
                        return false;
                    }
                    k = k + 1;
                }
                proof {
                    assert forall|key: Seq<char>| #[trigger] ma.dom().contains(key) implies
                        mb.dom().contains(key) && ma[key] == mb[key] by {
                        lemma_key_occurs(a@, key);
                    }
                    assert forall|key: Seq<char>| #[trigger] mb.dom().contains(key) implies
                        ma.dom().contains(key) by {
                        lemma_key_occurs(b@, key);
                    }
                    assert(ma.dom() =~= mb.dom());
                    assert(ma =~= mb);
                }
                true
            },
            _ => false,
        }
    }

    /// The value of an object's key.
    pub fn entry(&self, key: &str) -> (r: Option<&Json>)
        ensures
            tree_option(r) == match self@ {
                Tree::Object(m) => if m.contains_key(key@) {
                    Some(m[key@])
                } else {
                    None
                },
                _ => None,
            },
    {
        match self {
            Json::Object(v) => match last_entry(v, key) {
                Some(i) => Some(&v[i].1),
                None => None,
            },
            _ => None,
        }
    }

    fn step(&self, segment: &str) -> (r: Option<&Json>)
        ensures
            tree_option(r) == stepped(self@, segment@),
            r matches Some(j) ==> decreases_to!(self => j),
    {
        match self {
            Json::Object(v) => match last_entry(v, segment) {
                Some(i) => Some(&v[i].1),
                None => None,
            },
            Json::List(v) => {
                proof {
                    lemma_trees(v@);
                }
                match position_in(segment, v.len()) {
                    Some(i) => Some(&v[i]),
                    None => None,
                }
            },
            _ => None,
        }
    }

    /// What stands at a path.
    pub fn find(&self, path: &str) -> (r: Option<&Json>)
        ensures
            tree_option(r) == found(self@, path@),
    {
        proof {
            reveal(found);
        }
        if path.is_empty() {
            return Some(self);
        }
        let parts: Vec<String> = split(path, ',');
        let ghost all = texts(parts@);
        let mut current: &Json = self;
        let mut i: usize = 0;
        proof {
            assert(all.skip(0) =~= all);
        }
        while i < parts.len()
            invariant
                i <= parts.len(),
                all == texts(parts@),
                found(self@, path@) == walked(self@, all),
                walked(self@, all) == walked(current@, all.skip(i as int)),
            decreases parts.len() - i,
        {
            proof {
                assert(all.skip(i as int).skip(1) =~= all.skip(i + 1));
                assert(all.skip(i as int)[0] == parts@[i as int]@);
            }
            match current.step(parts[i].as_str()) {
                Some(next) => {
                    current = next;
                },
                None => {
                    return None;
                },
            }
            i = i + 1;
        }
        Some(current)
    }

    /// The value at a path, null where there is none.
    pub fn get(&self, path: &str) -> (r: Json)
        ensures
            r@ == at(self@, path@),
    {
        match self.find(path) {
            Some(value) => value.copy(),
            None => Json::Null,
        }
    }

    /// Whether a value can be placed at a path.
    pub fn takes(&self, path: &str) -> (r: bool)
        ensures
            r == takes(self@, segments(path@)),
    {
        if path.is_empty() {
            return true;
        }
        let parts: Vec<String> = split(path, ',');
        proof {
            assert(texts(parts@).skip(0) =~= texts(parts@));
        }
        self.takes_from(&parts, 0)
    }

    fn takes_from(&self, parts: &Vec<String>, from: usize) -> (r: bool)
        requires
            from <= parts.len(),
        ensures
            r == takes(self@, texts(parts@).skip(from as int)),
        decreases parts.len() - from,
    {
        if from == parts.len() {
            return true;
        }
        let ghost rest = texts(parts@).skip(from as int);
        let segment: &str = parts[from].as_str();
        proof {
            assert(rest[0] == segment@);
            assert(rest.skip(1) =~= texts(parts@).skip(from + 1));
        }
        match self {
            Json::Object(v) => {
                match last_entry(v, segment) {
                    Some(i) => v[i].1.takes_from(parts, from + 1),
                    None => Json::Null.takes_from(parts, from + 1),
                }
            },
            Json::List(v) => {
                proof {
                    lemma_trees(v@);
                }
                match position_in(segment, v.len()) {
                    Some(i) => v[i].takes_from(parts, from + 1),
                    None => false,
                }
            },
            Json::Null => Json::Null.takes_from(parts, from + 1),
            _ => false,
        }
    }

    /// The document with a value placed at a path.
    pub fn set(self, path: &str, value: Json) -> (r: Json)
        requires
            takes(self@, segments(path@)),
        ensures
            r@ == placed(self@, segments(path@), value@),
    {
        if path.is_empty() {
            return value;
        }
        let parts: Vec<String> = split(path, ',');
        proof {
            assert(texts(parts@).skip(0) =~= texts(parts@));
        }
        self.set_from(&parts, 0, value)
    }

    fn set_from(self, parts: &Vec<String>, from: usize, value: Json) -> (r: Json)
        requires
            from <= parts.len(),
            takes(self@, texts(parts@).skip(from as int)),
        ensures
            r@ == placed(self@, texts(parts@).skip(from as int), value@),
        decreases parts.len() - from,
    {
        if from == parts.len() {
            return value;
        }
        let ghost rest = texts(parts@).skip(from as int);
        let segment: &str = parts[from].as_str();
        proof {
            assert(rest[0] == segment@);
            assert(rest.skip(1) =~= texts(parts@).skip(from + 1));
        }
        match self {
            Json::Object(v) => {
                let mut v: Vec<(String, Json)> = v;
                let child: Json = match last_entry(&v, segment) {
                    Some(i) => v[i].1.copy(),
                    None => Json::Null,
                };
                let entry: (String, Json) = (
                    segment.to_owned(),
                    child.set_from(parts, from + 1, value),
                );
                proof {
                    lemma_entries_push(v@, entry);
                }
                v.push(entry);
                Json::Object(v)
            },
            Json::List(v) => {
                let mut v: Vec<Json> = v;
                proof {
                    lemma_trees(v@);
                }
                match position_in(segment, v.len()) {
                    Some(i) => {
                        let child: Json = v[i].copy();
                        let next: Json = child.set_from(parts, from + 1, value);
                        let ghost before = v@;
                        v.set(i, next);
                        proof {
                            lemma_trees(v@);
                            assert(trees(v@) =~= trees(before).update(i as int, next@));
                        }
                        Json::List(v)
                    },
                    None => Json::List(v),
                }
            },
            other => {
                let mut v: Vec<(String, Json)> = Vec::new();
                let entry: (String, Json) = (
                    segment.to_owned(),
                    Json::Null.set_from(parts, from + 1, value),
                );
                proof {
                    lemma_entries_push(v@, entry);
                }
                v.push(entry);
                Json::Object(v)
            },
        }
    }

    /// Whether the text `expected` stands at a path.
    pub fn is_text(&self, path: &str, expected: &str) -> (r: bool)
        ensures
            r == (at(self@, path@) == Tree::Text(expected@)),
    {
        match self.find(path) {
            Some(Json::Text(t)) => same_text(t.as_str(), expected),
            _ => false,
        }
    }

    /// Whether the truth value `expected` stands at a path.
    pub fn is_flag(&self, path: &str, expected: bool) -> (r: bool)
        ensures
            r == (at(self@, path@) == Tree::Bool(expected)),
    {
        match self.find(path) {
            Some(Json::Bool(b)) => *b == expected,
            _ => false,
        }
    }

    /// Whether the number `expected` stands at a path.
    pub fn is_number(&self, path: &str, expected: u64) -> (r: bool)
        ensures
            r == (at(self@, path@) == Tree::Integer(expected as int)),
    {
        match self.find(path) {
            Some(Json::Unsigned(n)) => *n == expected,
            Some(Json::Negative(n)) => *n >= 0 && *n as u64 == expected,
            _ => false,
        }
    }

    /// Whether nothing, or `null`, stands at a path.
    pub fn is_null(&self, path: &str) -> (r: bool)
        ensures
            r == (at(self@, path@) == Tree::Null),
    {
        match self.find(path) {
            Some(Json::Null) => true,
            Some(_) => false,
            None => true,
        }
    }

    /// Whether an object stands at a path.
    pub fn is_object(&self, path: &str) -> (r: bool)
        ensures
            r == (at(self@, path@) is Object),
    {
        match self.find(path) {
            Some(Json::Object(_)) => true,
            _ => false,
        }
    }

    /// Whether a list stands at a path.
    pub fn is_list(&self, path: &str) -> (r: bool)
        ensures
            r == (at(self@, path@) is List),
    {
        match self.find(path) {
            Some(Json::List(_)) => true,
            _ => false,
        }
    }

    /// The text at a path.
    pub fn text_at(&self, path: &str) -> (r: Option<String>)
        ensures
            r matches Some(t) ==> at(self@, path@) == Tree::Text(t@),
            r is None ==> !(at(self@, path@) is Text),
    {
        match self.find(path) {
            Some(Json::Text(t)) => Some(t.as_str().to_owned()),
            _ => None,
        }
    }

    /// The unsigned 64-bit number at a path.
    pub fn number_at(&self, path: &str) -> (r: Option<u64>)
        ensures
            r == unsigned_at(self@, path@),
    {
        match self.find(path) {
            Some(Json::Unsigned(n)) => Some(*n),
            Some(Json::Negative(n)) => if *n >= 0 {
                Some(*n as u64)
            } else {
                None
            },
            _ => None,
        }
    }

    /// Whether the same tree stands at two paths of two documents.
    pub fn agrees(&self, path: &str, other: &Json, other_path: &str) -> (r: bool)
        ensures
            r == (at(self@, path@) == at(other@, other_path@)),
    {
        match (self.find(path), other.find(other_path)) {
            (Some(a), Some(b)) => a.same(b),
            (Some(Json::Null), None) => true,
            (None, Some(Json::Null)) => true,
            (None, None) => true,
            _ => false,
        }
    }

    /// How many elements the list at a path has; 0 where no list stands there.
    pub fn count(&self, path: &str) -> (r: usize)
        ensures
            r == items(self@, path@).len(),
    {
        match self.find(path) {
            Some(Json::List(v)) => {
                proof {
                    lemma_trees(v@);
                }
                v.len()
            },
            _ => 0,
        }
    }

    /// An element of the list at a path.
    pub fn item(&self, path: &str, i: usize) -> (r: &Json)
        requires
            i < items(self@, path@).len(),
        ensures
            r@ == items(self@, path@)[i as int],
    {
        match self.find(path) {
            Some(Json::List(v)) => {
                proof {
                    lemma_trees(v@);
                }
                &v[i]
            },
            _ => self,
        }
    }

    /// How many keys the object at a path has; 0 where no object stands there.
    pub fn keys(&self, path: &str) -> (r: usize)
        ensures
            r == key_count(at(self@, path@)),
    {
        match self.find(path) {
            Some(Json::Object(v)) => {
                let mut n: usize = 0;
                let mut i: usize = 0;
                while i < v.len()
                    invariant
                        n <= i <= v.len(),
                        entries(v@.take(i as int)).dom().finite(),
                        n == entries(v@.take(i as int)).dom().len(),
                    decreases v.len() - i,
                {
                    let ghost before = entries(v@.take(i as int));
                    proof {
                        assert(v@.take(i + 1).drop_last() =~= v@.take(i as int));
                        assert(entries(v@.take(i + 1)) == before.insert(
                            v@[i as int].0@,
                            tree(v@[i as int].1),
                        ));
                        assert(entries(v@.take(i + 1)).dom() =~= before.dom().insert(
                            v@[i as int].0@,
                        ));
                    }
                    if !occurs_before(v, i) {
                        n = n + 1;
                    }
                    i = i + 1;
                }
                proof {
                    assert(v@.take(i as int) =~= v@);
                }
                n
            },
            _ => 0,
        }
    }

    /// The first element of the list at a path with the text `expected` at a field.
    pub fn item_with(&self, path: &str, field: &str, expected: &str) -> (r: Option<&Json>)
        ensures
            tree_option(r) == element_with(
                items(self@, path@),
                field@,
                Tree::Text(expected@),
            ),
    {
        let n: usize = self.count(path);
        let ghost l = items(self@, path@);
        let ghost wanted = Tree::Text(expected@);
        let mut i: usize = 0;
        while i < n
            invariant
                i <= n,
                n == l.len(),
                l == items(self@, path@),
                wanted == Tree::Text(expected@),
                first_with(l, field@, wanted, 0) == first_with(l, field@, wanted, i as int),
            decreases n - i,
        {
            let element: &Json = self.item(path, i);
            if element.is_text(field, expected) {
                return Some(element);
            }
            i = i + 1;
        }
        None
    }
}

/// How many keys an object has.
pub open spec fn key_count(t: Tree) -> nat {
    match t {
        Tree::Object(m) => m.dom().len(),
        _ => 0,
    }
}

/// Whether the key of an entry occurs in an earlier one.
fn occurs_before(v: &Vec<(String, Json)>, i: usize) -> (r: bool)
    requires
        i < v.len(),
    ensures
        r == entries(v@.take(i as int)).contains_key(v@[i as int].0@),
{
    let mut k: usize = 0;
    while k < i
        invariant
            k <= i < v.len(),
            forall|j: int| 0 <= j < k ==> (#[trigger] v@[j]).0@ != v@[i as int].0@,
        decreases i - k,
    {
        if same_text(v[k].0.as_str(), v[i].0.as_str()) {
            proof {
                assert(v@.take(i as int)[k as int] == v@[k as int]);
                lemma_present(v@.take(i as int), k as int);
            }
            return true;
        }
        k = k + 1;
    }
    proof {
        assert forall|j: int| 0 <= j < i implies (#[trigger] v@.take(i as int)[j]).0@
            != v@[i as int].0@ by {
            assert(v@.take(i as int)[j] == v@[j]);
        }
        lemma_no_entry(v@.take(i as int), v@[i as int].0@);
    }
    false
}

/// The unsigned 64-bit number at a path.
pub open spec fn unsigned_at(t: Tree, path: Seq<char>) -> Option<u64> {
    match at(t, path) {
        Tree::Integer(n) => if 0 <= n <= u64::MAX {
            Some(n as u64)
        } else {
            None
        },
        _ => None,
    }
}

/// Whether a value can be placed at a path: every step but the last leads into an object, a list
/// element or nothing yet.
pub open spec fn takes(t: Tree, path: Seq<Seq<char>>) -> bool
    decreases path.len(),
{
    if path.len() == 0 {
        true
    } else {
        match t {
            Tree::Object(m) => takes(
                if m.contains_key(path[0]) {
                    m[path[0]]
                } else {
                    Tree::Null
                },
                path.skip(1),
            ),
            Tree::List(l) => match list_position(path[0], l.len() as int) {
                Some(i) => takes(l[i], path.skip(1)),
                None => false,
            },
            Tree::Null => takes(Tree::Null, path.skip(1)),
            _ => false,
        }
    }
}

/// A tree with a value placed at a path; objects come into being where nothing stood.
pub open spec fn placed(t: Tree, path: Seq<Seq<char>>, value: Tree) -> Tree
    decreases path.len(),
{
    if path.len() == 0 {
        value
    } else {
        match t {
            Tree::Object(m) => Tree::Object(
                m.insert(
                    path[0],
                    placed(
                        if m.contains_key(path[0]) {
                            m[path[0]]
                        } else {
                            Tree::Null
                        },
                        path.skip(1),
                        value,
                    ),
                ),
            ),
            Tree::List(l) => match list_position(path[0], l.len() as int) {
                Some(i) => Tree::List(l.update(i, placed(l[i], path.skip(1), value))),
                None => t,
            },
            _ => Tree::Object(map![path[0] => placed(Tree::Null, path.skip(1), value)]),
        }
    }
}

/// Reading at the path where a value was placed gives that value back.
pub proof fn placed_is_found(t: Tree, path: Seq<Seq<char>>, value: Tree)
    requires
        takes(t, path),
    ensures
        walked(placed(t, path, value), path) == Some(value),
    decreases path.len(),
{
    if path.len() > 0 {
        match t {
            Tree::Object(m) => {
                placed_is_found(
                    if m.contains_key(path[0]) {
                        m[path[0]]
                    } else {
                        Tree::Null
                    },
                    path.skip(1),
                    value,
                );
            },
            Tree::List(l) => {
                if let Some(i) = list_position(path[0], l.len() as int) {
                    placed_is_found(l[i], path.skip(1), value);
                }
            },
            _ => {
                placed_is_found(Tree::Null, path.skip(1), value);
            },
        }
    }
}

/// Where something stands at a path, a value can be placed there.
pub proof fn found_paths_take(t: Tree, path: Seq<Seq<char>>)
    requires
        walked(t, path) is Some,
    ensures
        takes(t, path),
    decreases path.len(),
{
    if path.len() > 0 {
        found_paths_take(stepped(t, path[0])->Some_0, path.skip(1));
    }
}

/// A path without a comma is one step.
pub proof fn keys_are_found(t: Tree, key: Seq<char>)
    requires
        key.len() > 0,
        !key.contains(','),
    ensures
        found(t, key) == stepped(t, key),
{
    reveal(found);
    lemma_position(key, ',', 0);
    assert(position(key, ',', 0) == key.len()) by {
        if position(key, ',', 0) < key.len() {
            assert(key[position(key, ',', 0)] == ',');
        }
    }
    assert(key.subrange(0, key.len() as int) =~= key);
    assert(segments(key) =~= seq![key]);
    assert(segments(key).skip(1) =~= seq![]);
    match stepped(t, key) {
        Some(next) => {
            assert(walked(next, segments(key).skip(1)) == Some(next));
        },
        None => {},
    }
}

/// A comma composes paths: the first step, and the rest of the path from where it leads.
pub proof fn paths_compose(t: Tree, key: Seq<char>, rest: Seq<char>)
    requires
        key.len() > 0,
        !key.contains(','),
        rest.len() > 0,
    ensures
        found(t, key + seq![','] + rest) == match stepped(t, key) {
            Some(next) => found(next, rest),
            None => None,
        },
{
    reveal(found);
    let path = key + seq![','] + rest;
    let head = key + seq![','];
    lemma_position(path, ',', 0);
    assert(path[key.len() as int] == ',');
    assert(position(path, ',', 0) == key.len()) by {
        let p = position(path, ',', 0);
        if p < key.len() {
            assert(path[p] == key[p]);
        } else if p > key.len() {
            assert(path[key.len() as int] != ',');
        }
    }
    assert(path.subrange(0, key.len() as int) =~= key);
    assert(head + rest =~= path);
    lemma_pieces_shift(head, rest, ',', 0);
    assert(pieces(path, ',', key.len() as int + 1) == pieces(rest, ',', 0));
    assert(segments(path) =~= seq![key] + segments(rest));
    assert(segments(path)[0] == key);
    assert(segments(path).skip(1) =~= segments(rest));
}

/// The empty path leads to the root.
pub proof fn lemma_root(t: Tree)
    ensures
        found(t, ""@) == Some(t),
        at(t, ""@) == t,
{
    reveal(found);
    reveal_strlit("");
    assert(""@.len() == 0);
}

/// A path without a comma has one segment.
pub proof fn lemma_single_segment(path: Seq<char>)
    requires
        path.len() > 0,
        !path.contains(','),
    ensures
        segments(path) == seq![path],
{
    crate::text::lemma_position(path, ',', 0);
    let p = crate::text::position(path, ',', 0);
    if p < path.len() {
        assert(path[p] == ',');
    }
    assert(path.subrange(0, path.len() as int) =~= path);
    assert(segments(path) =~= seq![path]);
}

/// A segment that does not start as a list position leads into no list.
pub proof fn lemma_word_is_no_position(segment: Seq<char>, len: int)
    requires
        segment.len() > 0,
        segment[0] != '#',
    ensures
        list_position(segment, len) is None,
{
}

/// Placing a value under one key of an object changes nothing under another key.
pub proof fn placed_keeps_other_keys(
    t: Tree,
    path: Seq<Seq<char>>,
    value: Tree,
    other: Seq<Seq<char>>,
)
    requires
        takes(t, path),
        t is Object,
        path.len() > 0,
        other.len() > 0,
        path[0] != other[0],
    ensures
        walked(placed(t, path, value), other) == walked(t, other),
{
}

/// Placing a value changes nothing at a path that parts from it at some step.
pub proof fn placed_keeps_parting_paths(
    t: Tree,
    path: Seq<Seq<char>>,
    value: Tree,
    other: Seq<Seq<char>>,
    k: int,
)
    requires
        takes(t, path),
        0 <= k < path.len(),
        k < other.len(),
        forall|i: int| 0 <= i < k ==> path[i] == other[i],
        path[k] != other[k],
        path[k].len() > 0,
        path[k][0] != '#',
        other[k].len() > 0,
        other[k][0] != '#',
    ensures
        walked(placed(t, path, value), other) == walked(t, other),
    decreases k,
{
    if k > 0 {
        let below = match t {
            Tree::Object(m) => if m.contains_key(path[0]) {
                m[path[0]]
            } else {
                Tree::Null
            },
            Tree::List(l) => match list_position(path[0], l.len() as int) {
                Some(i) => l[i],
                None => Tree::Null,
            },
            _ => Tree::Null,
        };
        assert(path.skip(1)[k - 1] == path[k]);
        assert(other.skip(1)[k - 1] == other[k]);
        placed_keeps_parting_paths(below, path.skip(1), value, other.skip(1), k - 1);
        assert(walked(Tree::Null, other.skip(1)) is None);
    }
}

/// An object with one more entry, in place of any for the same key.
pub open spec fn with(t: Tree, key: Seq<char>, value: Tree) -> Tree {
    Tree::Object(t->Object_0.insert(key, value))
}

/// A list with one more element at its end.
pub open spec fn and(t: Tree, value: Tree) -> Tree {
    Tree::List(t->List_0.push(value))
}

pub(crate) proof fn lemma_present(v: Seq<(String, Json)>, i: int)
    requires
        0 <= i < v.len(),
    ensures
        entries(v).contains_key(v[i].0@),
    decreases v.len(),
{
    if i < v.len() - 1 {
        assert(v.drop_last()[i] == v[i]);
        lemma_present(v.drop_last(), i);
    }
}

} // verus!
