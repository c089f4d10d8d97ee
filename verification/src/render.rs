//! Documents and texts as other tools print them.

use vstd::prelude::*;

use crate::application::signed;
use crate::json::{
    entries, last_entry, lemma_key_occurs, lemma_present, lemma_trees, tree, trees, Json, Tree,
};
use crate::order::{ordered, ordered_texts};
use crate::text::{decimal, joined, joined3, lemma_texts_push, number_text, texts};

verus! {

/// What a text is rendered as by `serde_json`, as a JSON string.
pub uninterp spec fn quoted(t: Seq<char>) -> Seq<char>;

/// Calls `serde_json::Value::to_string` on the JSON string of a text: its quotes and escapes. The
/// contract claims that it depends on the text alone.
#[verifier::external_body]
fn quote(t: &str) -> (r: String)
    ensures
        r@ == quoted(t@),
{
    serde_json::Value::from(t).to_string()
}

/// What the standard library's `Debug` prints for a list of texts.
pub uninterp spec fn debugged_texts(v: Seq<Seq<char>>) -> Seq<char>;

/// Formats a list of texts with the standard library's `Debug`. The contract claims that the result
/// depends on the texts alone.
#[verifier::external_body]
pub(crate) fn debug_texts(v: &Vec<String>) -> (r: String)
    ensures
        r@ == debugged_texts(texts(v@)),
{
    format!("{v:?}")
}

/// What the standard library's `Debug` prints for a text that may be absent.
pub uninterp spec fn debugged_option(t: Option<Seq<char>>) -> Seq<char>;

pub open spec fn option_view(t: Option<String>) -> Option<Seq<char>> {
    match t {
        Some(s) => Some(s@),
        None => None,
    }
}

/// Formats a text that may be absent with the standard library's `Debug`. The contract claims that
/// the result depends on the text alone.
#[verifier::external_body]
pub(crate) fn debug_option(t: &Option<String>) -> (r: String)
    ensures
        r@ == debugged_option(option_view(*t)),
{
    format!("{t:?}")
}

/// A document as compact JSON, with the keys of each object in ascending order.
pub open spec fn rendered(t: Tree) -> Seq<char>
    decreases t, 0int,
{
    match t {
        Tree::Null => "null"@,
        Tree::Bool(b) => if b {
            "true"@
        } else {
            "false"@
        },
        Tree::Integer(n) => signed(n),
        Tree::Real(s) => s,
        Tree::Text(s) => quoted(s),
        Tree::List(l) => "["@ + rendered_list(l, l.len() as int) + "]"@,
        Tree::Object(m) => "{"@ + rendered_entries(
            m,
            ordered(m.dom()),
            ordered(m.dom()).len() as int,
        ) + "}"@,
    }
}

/// The first `n` elements of a list, with commas between them.
pub open spec fn rendered_list(l: Seq<Tree>, n: int) -> Seq<char>
    decreases l, n,
{
    if n <= 0 || n > l.len() {
        seq![]
    } else {
        rendered_list(l, n - 1) + (if n == 1 {
            ""@
        } else {
            ","@
        }) + rendered(l[n - 1])
    }
}

/// The entries of the first `n` keys, with commas between them.
pub open spec fn rendered_entries(
    m: Map<Seq<char>, Tree>,
    keys: Seq<Seq<char>>,
    n: int,
) -> Seq<char>
    decreases m, n,
{
    if n <= 0 || n > keys.len() || !m.dom().finite() || !m.contains_key(keys[n - 1]) {
        seq![]
    } else {
        rendered_entries(m, keys, n - 1) + (if n == 1 {
            ""@
        } else {
            ","@
        }) + quoted(keys[n - 1]) + ":"@ + rendered(m[keys[n - 1]])
    }
}

proof fn lemma_finite(v: Seq<(String, Json)>)
    ensures
        entries(v).dom().finite(),
    decreases v.len(),
{
    if v.len() > 0 {
        lemma_finite(v.drop_last());
        assert(entries(v).dom() =~= entries(v.drop_last()).dom().insert(v.last().0@));
    }
}

fn separator(first: bool) -> (r: &'static str)
    ensures
        r@ == (if first {
            ""@
        } else {
            ","@
        }),
{
    if first {
        ""
    } else {
        ","
    }
}

/// The keys of an object, ascending.
fn keys_of(v: &Vec<(String, Json)>) -> (r: Vec<String>)
    ensures
        texts(r@) == ordered(entries(v@).dom()),
        forall|k: int| 0 <= k < r@.len() ==> entries(v@).contains_key(#[trigger] texts(r@)[k]),
{
    let mut names: Vec<String> = Vec::new();
    let mut i: usize = 0;
    proof {
        assert(texts(names@) =~= seq![]);
    }
    while i < v.len()
        invariant
            i <= v.len(),
            names.len() == i,
            forall|j: int| 0 <= j < i ==> texts(names@)[j] == (#[trigger] v@[j]).0@,
        decreases v.len() - i,
    {
        let name: String = v[i].0.as_str().to_owned();
        proof {
            lemma_texts_push(names@, name);
        }
        names.push(name);
        i = i + 1;
    }
    proof {
        let listed = texts(names@);
        assert forall|k: Seq<char>| listed.to_set().contains(k) <==> entries(v@).dom().contains(
            k,
        ) by {
            if listed.contains(k) {
                let j = choose|j: int| 0 <= j < listed.len() && listed[j] == k;
                assert(v@[j].0@ == k);
                lemma_present(v@, j);
            }
            if entries(v@).contains_key(k) {
                lemma_key_occurs(v@, k);
                let j = choose|j: int| 0 <= j < v@.len() && (#[trigger] v@[j]).0@ == k;
                assert(listed[j] == k);
            }
        }
        assert(listed.to_set() =~= entries(v@).dom());
    }
    let sorted: Vec<String> = ordered_texts(&names);
    proof {
        assert forall|k: int| 0 <= k < sorted@.len() implies entries(v@).contains_key(
            #[trigger] texts(sorted@)[k],
        ) by {
            assert(texts(sorted@).contains(texts(sorted@)[k]));
            assert(texts(names@).to_set().contains(texts(sorted@)[k]));
        }
    }
    sorted
}

pub fn render(j: &Json) -> (r: String)
    ensures
        r@ == rendered(j@),
    decreases j,
{
    match j {
        Json::Null => "null".to_owned(),
        Json::Bool(b) => if *b {
            "true".to_owned()
        } else {
            "false".to_owned()
        },
        Json::Unsigned(n) => number_text(*n),
        Json::Negative(n) => if *n < 0 {
            let size: u64 = if *n == i64::MIN {
                0x8000_0000_0000_0000u64
            } else {
                (-*n) as u64
            };
            joined("-", number_text(size).as_str())
        } else {
            number_text(*n as u64)
        },
        Json::Real(s) => s.as_str().to_owned(),
        Json::Text(s) => quote(s.as_str()),
        Json::List(v) => {
            let mut out: String = String::new();
            let mut i: usize = 0;
            proof {
                lemma_trees(v@);
                assert(out@ =~= rendered_list(trees(v@), 0));
            }
            while i < v.len()
                invariant
                    i <= v.len(),
                    decreases_to!(j => v@),
                    trees(v@).len() == v.len(),
                    forall|k: int| 0 <= k < v.len() ==> #[trigger] trees(v@)[k] == tree(v@[k]),
                    out@ == rendered_list(trees(v@), i as int),
                decreases v.len() - i,
            {
                let part: String = render(&v[i]);
                out.append(separator(i == 0));
                out.append(part.as_str());
                proof {
                    assert(trees(v@)[i as int] == tree(v@[i as int]));
                }
                i = i + 1;
            }
            joined3("[", out.as_str(), "]")
        },
        Json::Object(v) => {
            let keys: Vec<String> = keys_of(v);
            let ghost m = entries(v@);
            let ghost names = texts(keys@);
            let mut out: String = String::new();
            let mut i: usize = 0;
            proof {
                assert(out@ =~= rendered_entries(m, names, 0));
                lemma_finite(v@);
            }
            while i < keys.len()
                invariant
                    i <= keys.len(),
                    decreases_to!(j => v@),
                    m == entries(v@),
                    m.dom().finite(),
                    names == texts(keys@),
                    forall|k: int| 0 <= k < names.len() ==> m.contains_key(#[trigger] names[k]),
                    out@ == rendered_entries(m, names, i as int),
                decreases keys.len() - i,
            {
                let key: &str = keys[i].as_str();
                proof {
                    assert(names[i as int] == key@);
                }
                match last_entry(v, key) {
                    Some(at) => {
                        let part: String = render(&v[at].1);
                        out.append(separator(i == 0));
                        out.append(quote(key).as_str());
                        out.append(":");
                        out.append(part.as_str());
                    },
                    None => {},
                }
                i = i + 1;
            }
            joined3("{", out.as_str(), "}")
        },
    }
}

} // verus!
