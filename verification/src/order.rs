//! The order of texts, and lists kept in it.

use vstd::prelude::*;

use crate::text::{chars_of, same_text, texts};

verus! {

/// Whether one text comes before another: by their first different characters, and a prefix first.
pub open spec fn precedes(a: Seq<char>, b: Seq<char>) -> bool
    decreases a.len(),
{
    if b.len() == 0 {
        false
    } else if a.len() == 0 {
        true
    } else if a[0] == b[0] {
        precedes(a.skip(1), b.skip(1))
    } else {
        a[0] < b[0]
    }
}

pub proof fn lemma_order(a: Seq<char>, b: Seq<char>)
    ensures
        a != b ==> precedes(a, b) || precedes(b, a),
        precedes(a, b) ==> a != b && !precedes(b, a),
    decreases a.len(),
{
    if a.len() > 0 && b.len() > 0 {
        lemma_order(a.skip(1), b.skip(1));
        if a[0] == b[0] && a != b {
            if a.skip(1) == b.skip(1) {
                assert(a =~= seq![a[0]] + a.skip(1));
                assert(b =~= seq![b[0]] + b.skip(1));
            }
        }
    } else if a.len() == 0 && b.len() == 0 {
        assert(a =~= b);
    }
}

proof fn lemma_order_chains(a: Seq<char>, b: Seq<char>, c: Seq<char>)
    requires
        precedes(a, b),
        precedes(b, c),
    ensures
        precedes(a, c),
    decreases a.len(),
{
    if a.len() > 0 && b.len() > 0 && c.len() > 0 && a[0] == b[0] && b[0] == c[0] {
        lemma_order_chains(a.skip(1), b.skip(1), c.skip(1));
    }
}

pub fn comes_before(a: &str, b: &str) -> (r: bool)
    ensures
        r == precedes(a@, b@),
{
    let left: Vec<char> = chars_of(a);
    let right: Vec<char> = chars_of(b);
    let mut i: usize = 0;
    proof {
        assert(left@.skip(0) =~= left@);
        assert(right@.skip(0) =~= right@);
    }
    while i < left.len() && i < right.len()
        invariant
            left@ == a@,
            right@ == b@,
            i <= left.len(),
            i <= right.len(),
            precedes(a@, b@) == precedes(left@.skip(i as int), right@.skip(i as int)),
        decreases left.len() - i,
    {
        proof {
            assert(left@.skip(i as int)[0] == left@[i as int]);
            assert(right@.skip(i as int)[0] == right@[i as int]);
            assert(left@.skip(i as int).skip(1) =~= left@.skip(i + 1));
            assert(right@.skip(i as int).skip(1) =~= right@.skip(i + 1));
        }
        if left[i] != right[i] {
            return left[i] < right[i];
        }
        i = i + 1;
    }
    i < right.len()
}

pub open spec fn in_order(v: Seq<Seq<char>>) -> bool {
    forall|i: int, j: int| 0 <= i < j < v.len() ==> precedes(#[trigger] v[i], #[trigger] v[j])
}

/// Files a text among ordered ones, unless it is there.
pub fn file_text(v: &mut Vec<String>, t: &str)
    requires
        in_order(texts(old(v)@)),
    ensures
        in_order(texts(final(v)@)),
        forall|k: Seq<char>|
            #[trigger] texts(final(v)@).contains(k) <==> texts(old(v)@).contains(k) || k == t@,
{
    let ghost before = texts(v@);
    let mut i: usize = 0;
    while i < v.len() && comes_before(v[i].as_str(), t)
        invariant
            i <= v.len(),
            before == texts(v@),
            forall|j: int| 0 <= j < i ==> precedes(#[trigger] before[j], t@),
        decreases v.len() - i,
    {
        i = i + 1;
    }
    proof {
        assert forall|j: int| 0 <= j < before.len() implies before[j] == v@[j]@ by {}
    }
    if i < v.len() && same_text(v[i].as_str(), t) {
        proof {
            assert(before[i as int] == t@);
        }
        return ;
    }
    proof {
        if i < v.len() {
            assert(before[i as int] == v@[i as int]@);
            lemma_order(before[i as int], t@);
            assert forall|j: int| i <= j < before.len() implies precedes(t@, #[trigger] before[j]) by {
                if i < j {
                    lemma_order_chains(t@, before[i as int], before[j]);
                }
            }
        }
    }
    v.insert(i, t.to_owned());
    proof {
        let after = texts(v@);
        assert(after =~= before.insert(i as int, t@));
        assert forall|a: int, b: int| 0 <= a < b < after.len() implies precedes(
            #[trigger] after[a],
            #[trigger] after[b],
        ) by {
            if b < i as int {
                assert(after[a] == before[a] && after[b] == before[b]);
            } else if b == i as int {
                assert(after[a] == before[a]);
            } else if a < i as int {
                assert(after[a] == before[a] && after[b] == before[b - 1]);
            } else if a == i as int {
                assert(after[b] == before[b - 1]);
            } else {
                assert(after[a] == before[a - 1] && after[b] == before[b - 1]);
            }
        }
        assert forall|k: Seq<char>| #[trigger] after.contains(k) implies before.contains(k) || k
            == t@ by {
            let x = choose|x: int| 0 <= x < after.len() && after[x] == k;
            if x < i as int {
                assert(before[x] == k);
            } else if x > i as int {
                assert(before[x - 1] == k);
            }
        }
        assert forall|k: Seq<char>| before.contains(k) || k == t@ implies #[trigger] after.contains(
            k,
        ) by {
            if k == t@ {
                assert(after[i as int] == k);
            } else {
                let x = choose|x: int| 0 <= x < before.len() && before[x] == k;
                if x < i as int {
                    assert(after[x] == k);
                } else {
                    assert(after[x + 1] == k);
                }
            }
        }
    }
}

/// Two ordered lists of the same texts are the same list.
pub proof fn lemma_ordered_lists_agree(a: Seq<Seq<char>>, b: Seq<Seq<char>>)
    requires
        in_order(a),
        in_order(b),
        forall|k: Seq<char>| #[trigger] a.contains(k) <==> b.contains(k),
    ensures
        a == b,
    decreases a.len(),
{
    if a.len() == 0 {
        if b.len() > 0 {
            assert(b.contains(b[0]));
            assert(a.contains(b[0]));
        }
        assert(a =~= b);
    } else {
        assert(a.contains(a[0]));
        assert(b.contains(a[0]));
        let j = choose|j: int| 0 <= j < b.len() && b[j] == a[0];
        assert(b.contains(b[0]));
        assert(a.contains(b[0]));
        let i = choose|i: int| 0 <= i < a.len() && a[i] == b[0];
        lemma_order(a[0], b[0]);
        assert(a[0] == b[0]);
        let x = a.skip(1);
        let y = b.skip(1);
        assert forall|k: Seq<char>| #[trigger] x.contains(k) implies y.contains(k) by {
            let p = choose|p: int| 0 <= p < x.len() && x[p] == k;
            assert(a[p + 1] == k);
            lemma_order(a[0], a[p + 1]);
            assert(a.contains(k));
            let q = choose|q: int| 0 <= q < b.len() && b[q] == k;
            assert(q != 0);
            assert(y[q - 1] == k);
        }
        assert forall|k: Seq<char>| #[trigger] y.contains(k) implies x.contains(k) by {
            let p = choose|p: int| 0 <= p < y.len() && y[p] == k;
            assert(b[p + 1] == k);
            lemma_order(b[0], b[p + 1]);
            assert(b.contains(k));
            assert(a.contains(k));
            let q = choose|q: int| 0 <= q < a.len() && a[q] == k;
            assert(q != 0);
            assert(x[q - 1] == k);
        }
        lemma_ordered_lists_agree(x, y);
        assert(a =~= seq![a[0]] + x);
        assert(b =~= seq![b[0]] + y);
    }
}

/// The ordered list of a set of texts; there is only one.
pub open spec fn ordered(set: Set<Seq<char>>) -> Seq<Seq<char>> {
    choose|v: Seq<Seq<char>>|
        in_order(v) && forall|k: Seq<char>| #[trigger] v.contains(k) <==> set.contains(k)
}

/// An ordered list of a set's texts is the set's ordered list.
pub proof fn sets_are_listed_once(v: Seq<Seq<char>>, set: Set<Seq<char>>)
    requires
        in_order(v),
        forall|k: Seq<char>| #[trigger] v.contains(k) <==> set.contains(k),
    ensures
        v == ordered(set),
{
    let w = ordered(set);
    assert forall|k: Seq<char>| #[trigger] v.contains(k) <==> w.contains(k) by {
        assert(w.contains(k) <==> set.contains(k));
    }
    lemma_ordered_lists_agree(v, w);
}

/// The distinct ones of some texts, in order.
pub fn ordered_texts(v: &Vec<String>) -> (r: Vec<String>)
    ensures
        texts(r@) == ordered(texts(v@).to_set()),
        in_order(texts(r@)),
        forall|k: Seq<char>| #[trigger] texts(r@).contains(k) <==> texts(v@).contains(k),
{
    let mut out: Vec<String> = Vec::new();
    let mut i: usize = 0;
    proof {
        assert(texts(out@) =~= seq![]);
    }
    while i < v.len()
        invariant
            i <= v.len(),
            in_order(texts(out@)),
            forall|k: Seq<char>| #[trigger]
                texts(out@).contains(k) <==> texts(v@).take(i as int).contains(k),
        decreases v.len() - i,
    {
        let ghost before = texts(out@);
        file_text(&mut out, v[i].as_str());
        proof {
            let all = texts(v@);
            assert(all[i as int] == v@[i as int]@);
            assert forall|k: Seq<char>| #[trigger]
                texts(out@).contains(k) <==> all.take(i + 1).contains(k) by {
                assert(before.contains(k) <==> all.take(i as int).contains(k));
                if all.take(i as int).contains(k) {
                    let x = choose|x: int| 0 <= x < i && all.take(i as int)[x] == k;
                    assert(all.take(i + 1)[x] == k);
                }
                if k == all[i as int] {
                    assert(all.take(i + 1)[i as int] == k);
                }
                if all.take(i + 1).contains(k) && k != all[i as int] {
                    let later = all.take(i + 1);
                    let x = choose|x: int| 0 <= x < later.len() && later[x] == k;
                    assert(all.take(i as int)[x] == k);
                }
            }
        }
        i = i + 1;
    }
    proof {
        assert(texts(v@).take(i as int) =~= texts(v@));
        sets_are_listed_once(texts(out@), texts(v@).to_set());
    }
    out
}

} // verus!
