//! The product client of the Slotbook scenarios: who calls, what is expected, what an answer is.

use vstd::prelude::*;

use crate::application::{document_result, joined_path, under};
use crate::failure::{ensure, failed, failure, Checked, Failure};
use crate::json::{
    at, found, found_paths_take, items, lemma_root, placed, placed_is_found, segments, unsigned_at,
    Json, Tree,
};
use crate::text::{
    decimal, joined, joined3, lemma_texts_push, lines, lines_of, number_text, same_text, texts,
    trim, trimmed,
};

verus! {

/// Whose credential a call carries.
#[derive(Clone, Copy, Debug, PartialEq, Eq, Structural)]
pub enum Caller {
    Operator,
    Consumer,
    Origin,
    Learner,
    Evaluator,
}

/// What a call has to end in.
#[derive(Clone, Copy, Debug, PartialEq, Eq, Structural)]
pub enum Expected {
    Success,
    Refused,
    /// Success, or a refusal before acceptance that a new preparation may follow.
    PreAcceptanceRetry,
    /// Success, or the observed end of a failed invocation.
    InvocationObservation,
}

/// How a published method is invoked.
#[derive(Clone, Copy, Debug, PartialEq, Eq, Structural)]
pub enum InvocationMode {
    Direct,
    Workflow,
    Peer,
}

impl InvocationMode {
    pub fn name(self) -> (r: &'static str)
        ensures
            r@ == match self {
                InvocationMode::Direct => "direct"@,
                InvocationMode::Workflow => "workflow"@,
                InvocationMode::Peer => "peer"@,
            },
    {
        match self {
            InvocationMode::Direct => "direct",
            InvocationMode::Workflow => "workflow",
            InvocationMode::Peer => "peer",
        }
    }
}

/// A text of a product response.
pub fn text(value: &Json) -> (r: Checked<String>)
    ensures
        match value@ {
            Tree::Text(t) => r matches Ok(s) && s@ == t,
            _ => failed(r, "expected string in product response"@),
        },
{
    match value {
        Json::Text(t) => Ok(t.as_str().to_owned()),
        _ => Err(failure("expected string in product response")),
    }
}

/// An unsigned number of a product response.
pub fn number(value: &Json) -> (r: Checked<u64>)
    ensures
        match unsigned_at(value@, ""@) {
            Some(n) => r == Ok::<u64, Failure>(n),
            None => failed(r, "expected integer in product response"@),
        },
{
    match value.number_at("") {
        Some(n) => Ok(n),
        None => Err(failure("expected integer in product response")),
    }
}

/// Whether a command waits for a run's end.
pub open spec fn waits_for_run(arguments: Seq<Seq<char>>) -> bool {
    exists|i: int|
        #![trigger arguments[i]]
        0 <= i < arguments.len() - 1 && arguments[i] == "run"@ && arguments[i + 1] == "wait"@
}

/// The seconds that a command may take.
pub open spec fn timeout_of(arguments: Seq<Seq<char>>) -> u64 {
    if waits_for_run(arguments) {
        600
    } else {
        240
    }
}

pub fn timeout_secs(arguments: &Vec<String>) -> (r: u64)
    ensures
        r == timeout_of(texts(arguments@)),
{
    let ghost view = texts(arguments@);
    let mut i: usize = 1;
    while i < arguments.len()
        invariant
            1 <= i,
            view == texts(arguments@),
            forall|j: int|
                0 <= j < i - 1 && j < view.len() - 1 ==> !(#[trigger] view[j] == "run"@ && view[j
                    + 1] == "wait"@),
        decreases arguments.len() - i,
    {
        proof {
            assert(view[i - 1] == arguments@[i - 1]@);
            assert(view[i as int] == arguments@[i as int]@);
        }
        if same_text(arguments[i - 1].as_str(), "run") && same_text(arguments[i].as_str(), "wait") {
            return 600;
        }
        i = i + 1;
    }
    240
}

/// The command line of a call: the client's own options before the command.
pub open spec fn call_words(label: Seq<char>, arguments: Seq<Seq<char>>) -> Seq<Seq<char>> {
    seq![
        "--json"@,
        "--yes"@,
        "--timeout-secs"@,
        decimal(timeout_of(arguments) as nat),
        "--command-id"@,
        label,
    ] + arguments
}

pub fn call_arguments(label: &str, arguments: &Vec<String>) -> (r: Vec<String>)
    ensures
        texts(r@) == call_words(label@, texts(arguments@)),
{
    let seconds: u64 = timeout_secs(arguments);
    let mut out: Vec<String> = vec![
        "--json".to_owned(),
        "--yes".to_owned(),
        "--timeout-secs".to_owned(),
        number_text(seconds),
        "--command-id".to_owned(),
        label.to_owned(),
    ];
    append(&mut out, arguments);
    proof {
        assert(texts(out@) =~= call_words(label@, texts(arguments@)));
    }
    out
}

fn append(out: &mut Vec<String>, more: &Vec<String>)
    ensures
        texts(final(out)@) == texts(old(out)@) + texts(more@),
{
    let ghost start = texts(out@);
    let mut i: usize = 0;
    proof {
        assert(start + texts(more@).take(0) =~= start);
    }
    while i < more.len()
        invariant
            i <= more.len(),
            start == texts(old(out)@),
            texts(out@) == start + texts(more@).take(i as int),
        decreases more.len() - i,
    {
        let t: String = more[i].as_str().to_owned();
        proof {
            lemma_texts_push(out@, t);
            assert(start + texts(more@).take(i + 1) =~= (start + texts(more@).take(i as int)).push(
                t@,
            ));
        }
        out.push(t);
        i = i + 1;
    }
    proof {
        assert(texts(more@).take(i as int) =~= texts(more@));
    }
}

/// The credential file of a caller.
pub open spec fn credential_of(root: Seq<char>, own: Seq<char>, caller: Caller) -> Seq<char> {
    match caller {
        Caller::Consumer => under(root, "consumer.token"@),
        Caller::Learner => under(root, "learning-05/learner.token"@),
        Caller::Evaluator => under(root, "learning-05/evaluator.token"@),
        _ => own,
    }
}

/// The endpoint and the credential file that a caller's client is given. The origin has a port of
/// its own where there is one.
pub fn command_environment(
    root: &str,
    own_token: &str,
    port: u16,
    origin: Option<u16>,
    caller: Caller,
) -> (r: (String, String))
    ensures
        r.0@ == "http://127.0.0.1:"@ + decimal(
            (if caller == Caller::Origin && origin is Some {
                origin->Some_0
            } else {
                port
            }) as nat,
        ),
        r.1@ == credential_of(root@, own_token@, caller),
{
    let selected: u16 = match (caller, origin) {
        (Caller::Origin, Some(p)) => p,
        _ => port,
    };
    let token: String = match caller {
        Caller::Consumer => joined_path(root, "consumer.token"),
        Caller::Learner => joined_path(root, "learning-05/learner.token"),
        Caller::Evaluator => joined_path(root, "learning-05/evaluator.token"),
        _ => own_token.to_owned(),
    };
    (joined("http://127.0.0.1:", number_text(selected as u64).as_str()), token)
}

/// The name under which a call is logged: a replay gets a name of its own.
pub fn log_label(label: &str, logged: bool, calls: u64) -> (r: String)
    ensures
        r@ == if logged {
            label@ + "-replay-"@ + decimal(calls as nat)
        } else {
            label@
        },
{
    if logged {
        joined3(label, "-replay-", number_text(calls).as_str())
    } else {
        label.to_owned()
    }
}

/// A refusal before acceptance after which a new preparation may be submitted.
pub open spec fn retryable(page: Tree) -> bool {
    &&& at(page, "status"@) == Tree::Text("failure"@)
    &&& at(page, "value,type"@) == Tree::Text("rejected"@)
    &&& at(page, "value,code"@) == Tree::Text("catalog_stale"@) || at(page, "value,code"@)
        == Tree::Text("deadline"@)
    &&& at(page, "value,known_execution"@) == Tree::Null
}

/// The observed end of a failed invocation.
pub open spec fn observed_failure(page: Tree) -> bool {
    &&& at(page, "type"@) == Tree::Text("invocation.wait"@)
    &&& at(page, "error,code"@) == Tree::Text("invocation_failed"@)
}

/// Whether a call ended as expected.
pub open spec fn accepts(expected: Expected, succeeded: bool, page: Tree) -> bool {
    match expected {
        Expected::Success => succeeded,
        Expected::Refused => !succeeded,
        Expected::PreAcceptanceRetry => succeeded || retryable(page),
        Expected::InvocationObservation => succeeded || observed_failure(page),
    }
}

fn is_accepted(expected: Expected, succeeded: bool, page: &Json) -> (r: bool)
    ensures
        r == accepts(expected, succeeded, page@),
{
    match expected {
        Expected::Success => succeeded,
        Expected::Refused => !succeeded,
        Expected::PreAcceptanceRetry => succeeded || (page.is_text("status", "failure")
            && page.is_text("value,type", "rejected") && (page.is_text(
            "value,code",
            "catalog_stale",
        ) || page.is_text("value,code", "deadline")) && page.is_null("value,known_execution")),
        Expected::InvocationObservation => succeeded || (page.is_text("type", "invocation.wait")
            && page.is_text("error,code", "invocation_failed")),
    }
}

/// Observations by sequence, in ascending order, with one more filed: a later observation of the
/// same sequence takes the place of the earlier.
pub open spec fn filed(l: Seq<(u64, Tree)>, key: u64, value: Tree) -> Seq<(u64, Tree)>
    decreases l.len(),
{
    if l.len() == 0 {
        seq![(key, value)]
    } else if key < l[0].0 {
        seq![(key, value)] + l
    } else if key == l[0].0 {
        seq![(key, value)] + l.skip(1)
    } else {
        seq![l[0]] + filed(l.skip(1), key, value)
    }
}

pub open spec fn ascending(l: Seq<(u64, Tree)>) -> bool {
    forall|i: int, j: int| 0 <= i < j < l.len() ==> (#[trigger] l[i]).0 < (#[trigger] l[j]).0
}

proof fn lemma_filed(l: Seq<(u64, Tree)>, key: u64, value: Tree, at: int)
    requires
        0 <= at <= l.len(),
        forall|j: int| 0 <= j < at ==> (#[trigger] l[j]).0 < key,
        at < l.len() ==> l[at].0 >= key,
    ensures
        filed(l, key, value) == if at < l.len() && l[at].0 == key {
            l.update(at, (key, value))
        } else {
            l.insert(at, (key, value))
        },
    decreases l.len(),
{
    if l.len() == 0 {
        assert(l.insert(at, (key, value)) =~= seq![(key, value)]);
    } else if at == 0 {
        if l[0].0 == key {
            assert(seq![(key, value)] + l.skip(1) =~= l.update(0, (key, value)));
        } else {
            assert(seq![(key, value)] + l =~= l.insert(0, (key, value)));
        }
    } else {
        let rest = l.skip(1);
        assert forall|j: int| 0 <= j < at - 1 implies (#[trigger] rest[j]).0 < key by {
            assert(rest[j] == l[j + 1]);
        }
        assert(at < l.len() ==> rest[at - 1] == l[at]);
        assert(l[0].0 < key);
        lemma_filed(rest, key, value, at - 1);
        if at < l.len() && l[at].0 == key {
            assert(seq![l[0]] + rest.update(at - 1, (key, value)) =~= l.update(at, (key, value)));
        } else {
            assert(seq![l[0]] + rest.insert(at - 1, (key, value)) =~= l.insert(at, (key, value)));
        }
    }
}

/// Filing keeps the observations in strictly ascending order, and the filed one is among them.
pub proof fn filing_keeps_order(l: Seq<(u64, Tree)>, key: u64, value: Tree)
    requires
        ascending(l),
    ensures
        ascending(filed(l, key, value)),
        filed(l, key, value).contains((key, value)),
        forall|e: (u64, Tree)|
            e.0 != key ==> (filed(l, key, value).contains(e) <==> l.contains(e)),
    decreases l.len(),
{
    let f = filed(l, key, value);
    if l.len() == 0 {
        assert(f[0] == (key, value));
    } else if key < l[0].0 {
        assert(f[0] == (key, value));
        assert(forall|i: int| 0 <= i < l.len() ==> f[i + 1] == #[trigger] l[i]);
        assert forall|i: int, j: int| 0 <= i < j < f.len() implies (#[trigger] f[i]).0
            < (#[trigger] f[j]).0 by {
            assert(f[j] == l[j - 1]);
            if i > 0 {
                assert(f[i] == l[i - 1]);
            }
        }
        assert forall|e: (u64, Tree)| e.0 != key implies (f.contains(e) <==> l.contains(e)) by {
            if l.contains(e) {
                let i = choose|i: int| 0 <= i < l.len() && l[i] == e;
                assert(f[i + 1] == e);
            }
            if f.contains(e) {
                let i = choose|i: int| 0 <= i < f.len() && f[i] == e;
                assert(l[i - 1] == e);
            }
        }
    } else if key == l[0].0 {
        assert(f[0] == (key, value));
        assert(forall|i: int| 1 <= i < l.len() ==> f[i] == #[trigger] l[i]);
        assert forall|e: (u64, Tree)| e.0 != key implies (f.contains(e) <==> l.contains(e)) by {
            if l.contains(e) {
                let i = choose|i: int| 0 <= i < l.len() && l[i] == e;
                assert(f[i] == e);
            }
            if f.contains(e) {
                let i = choose|i: int| 0 <= i < f.len() && f[i] == e;
                assert(l[i] == e);
            }
        }
    } else {
        let rest = l.skip(1);
        let g = filed(rest, key, value);
        assert(forall|i: int| 0 <= i < rest.len() ==> rest[i] == #[trigger] l[i + 1]);
        filing_keeps_order(rest, key, value);
        assert(f == seq![l[0]] + g);
        assert(forall|i: int| 0 <= i < g.len() ==> f[i + 1] == #[trigger] g[i]);
        let p = choose|i: int| 0 <= i < g.len() && g[i] == (key, value);
        assert(f[p + 1] == (key, value));
        assert forall|i: int, j: int| 0 <= i < j < f.len() implies (#[trigger] f[i]).0
            < (#[trigger] f[j]).0 by {
            assert(f[j] == g[j - 1]);
            if i > 0 {
                assert(f[i] == g[i - 1]);
            } else if g[j - 1].0 != key {
                assert(g.contains(g[j - 1]));
                assert(rest.contains(g[j - 1]));
                let k = choose|k: int| 0 <= k < rest.len() && rest[k] == g[j - 1];
                assert(l[k + 1] == g[j - 1]);
            }
        }
        assert forall|e: (u64, Tree)| e.0 != key implies (f.contains(e) <==> l.contains(e)) by {
            if l.contains(e) {
                let i = choose|i: int| 0 <= i < l.len() && l[i] == e;
                if i == 0 {
                    assert(f[0] == e);
                } else {
                    assert(rest[i - 1] == e);
                    assert(rest.contains(e));
                    assert(g.contains(e));
                    let k = choose|k: int| 0 <= k < g.len() && g[k] == e;
                    assert(f[k + 1] == e);
                }
            }
            if f.contains(e) {
                let i = choose|i: int| 0 <= i < f.len() && f[i] == e;
                if i == 0 {
                    assert(l[0] == e);
                } else {
                    assert(g[i - 1] == e);
                    assert(rest.contains(e));
                    let k = choose|k: int| 0 <= k < rest.len() && rest[k] == e;
                    assert(l[k + 1] == e);
                }
            }
        }
    }
}

/// The first `n` observations of a list, filed.
pub open spec fn filed_all(l: Seq<(u64, Tree)>, observations: Seq<Tree>, n: int) -> Option<
    Seq<(u64, Tree)>,
>
    decreases n,
{
    if n <= 0 {
        Some(l)
    } else {
        match filed_all(l, observations, n - 1) {
            None => None,
            Some(before) => match unsigned_at(observations[n - 1], "sequence"@) {
                Some(key) => Some(filed(before, key, observations[n - 1])),
                None => None,
            },
        }
    }
}

/// The observations of the first `n` pages, filed, or why they cannot be.
pub open spec fn filed_pages(pages: Seq<Tree>, n: int) -> Result<Seq<(u64, Tree)>, Seq<char>>
    decreases n,
{
    if n <= 0 {
        Ok(seq![])
    } else {
        match filed_pages(pages, n - 1) {
            Err(e) => Err(e),
            Ok(before) => match at(pages[n - 1], "value,observations"@) {
                Tree::List(l) => match filed_all(before, l, l.len() as int) {
                    Some(after) => Ok(after),
                    None => Err("expected integer in product response"@),
                },
                _ => Err("observations absent"@),
            },
        }
    }
}

/// The same with what an archived history retains: its outputs and its final observation.
pub open spec fn filed_history(before: Seq<(u64, Tree)>, page: Tree) -> Result<
    Seq<(u64, Tree)>,
    Seq<char>,
> {
    if at(page, "value,history,type"@) != Tree::Text("archived"@) {
        Ok(before)
    } else {
        match at(page, "value,history,summary,output_observations"@) {
            Tree::List(l) => match filed_all(before, l, l.len() as int) {
                None => Err("expected integer in product response"@),
                Some(after) => {
                    let last = at(page, "value,history,summary,final_observation"@);
                    if last == Tree::Null {
                        Ok(after)
                    } else {
                        match unsigned_at(last, "sequence"@) {
                            Some(key) => Ok(filed(after, key, last)),
                            None => Err("expected integer in product response"@),
                        }
                    }
                },
            },
            _ => Err("archived outputs absent"@),
        }
    }
}

pub open spec fn filed_values(l: Seq<(u64, Tree)>) -> Tree {
    Tree::List(l.map_values(|e: (u64, Tree)| e.1))
}

/// What a call gives: its last page, with every observation of an awaited invocation merged by
/// sequence, or why it gives none.
pub open spec fn call_result(
    label: Seq<char>,
    expected: Expected,
    succeeded: bool,
    stdout: Seq<char>,
    stderr: Seq<char>,
    pages: Seq<Tree>,
) -> Result<Tree, Seq<char>> {
    if pages.len() == 0 {
        Err("CLI produced no response"@)
    } else {
        let page = pages.last();
        if !accepts(expected, succeeded, page) {
            Err(label + " returned unexpected disposition: "@ + stdout + " "@ + stderr)
        } else if at(page, "type"@) != Tree::Text("invocation.wait"@) {
            Ok(page)
        } else {
            match filed_pages(pages, pages.len() as int) {
                Err(e) => Err(e),
                Ok(hot) => match filed_history(hot, page) {
                    Err(e) => Err(e),
                    Ok(all) => Ok(
                        placed(page, segments("value,observations"@), filed_values(all)),
                    ),
                },
            }
        }
    }
}

spec fn filed_view(v: Seq<(u64, Json)>) -> Seq<(u64, Tree)> {
    v.map_values(|e: (u64, Json)| (e.0, e.1@))
}

fn file(l: &mut Vec<(u64, Json)>, key: u64, value: Json)
    ensures
        filed_view(final(l)@) == filed(filed_view(old(l)@), key, value@),
{
    let ghost start = filed_view(l@);
    let mut i: usize = 0;
    while i < l.len() && l[i].0 < key
        invariant
            i <= l.len(),
            l@ == old(l)@,
            start == filed_view(l@),
            forall|j: int| 0 <= j < i ==> (#[trigger] start[j]).0 < key,
        decreases l.len() - i,
    {
        proof {
            assert(start[i as int] == (l@[i as int].0, l@[i as int].1@));
        }
        i = i + 1;
    }
    proof {
        if i < l.len() {
            assert(start[i as int] == (l@[i as int].0, l@[i as int].1@));
        }
        lemma_filed(start, key, value@, i as int);
    }
    let ghost entry = (key, value);
    if i < l.len() && l[i].0 == key {
        l.set(i, (key, value));
        proof {
            assert(filed_view(l@) =~= start.update(i as int, (entry.0, entry.1@)));
        }
    } else {
        l.insert(i, (key, value));
        proof {
            assert(filed_view(l@) =~= start.insert(i as int, (entry.0, entry.1@)));
        }
    }
}

proof fn lemma_unfiled(l: Seq<(u64, Tree)>, observations: Seq<Tree>, m: int, n: int)
    requires
        0 <= m <= n,
        filed_all(l, observations, m) is None,
    ensures
        filed_all(l, observations, n) is None,
    decreases n - m,
{
    if m < n {
        lemma_unfiled(l, observations, m, n - 1);
    }
}

fn file_all(l: &mut Vec<(u64, Json)>, page: &Json, path: &str) -> (r: Checked<()>)
    ensures
        match filed_all(
            filed_view(old(l)@),
            items(page@, path@),
            items(page@, path@).len() as int,
        ) {
            Some(after) => r is Ok && filed_view(final(l)@) == after,
            None => failed(r, "expected integer in product response"@),
        },
{
    let n: usize = page.count(path);
    let ghost start = filed_view(l@);
    let ghost all = items(page@, path@);
    let mut i: usize = 0;
    while i < n
        invariant
            i <= n,
            n == all.len(),
            all == items(page@, path@),
            start == filed_view(old(l)@),
            filed_all(start, all, i as int) == Some(filed_view(l@)),
        decreases n - i,
    {
        let o: &Json = page.item(path, i);
        match o.number_at("sequence") {
            Some(key) => {
                file(l, key, o.copy());
            },
            None => {
                proof {
                    assert(filed_all(start, all, i + 1) is None);
                    lemma_unfiled(start, all, i + 1, n as int);
                }
                return Err(failure("expected integer in product response"));
            },
        }
        i = i + 1;
    }
    Ok(())
}

proof fn lemma_unfiled_pages(pages: Seq<Tree>, m: int, n: int)
    requires
        0 <= m <= n,
        filed_pages(pages, m) is Err,
    ensures
        filed_pages(pages, n) == filed_pages(pages, m),
    decreases n - m,
{
    if m < n {
        lemma_unfiled_pages(pages, m, n - 1);
    }
}

fn file_pages(pages: &Vec<Json>) -> (r: Checked<Vec<(u64, Json)>>)
    ensures
        match filed_pages(page_views(pages@), pages@.len() as int) {
            Ok(l) => r matches Ok(v) && filed_view(v@) == l,
            Err(message) => failed(r, message),
        },
{
    let ghost all = page_views(pages@);
    let mut filed_so_far: Vec<(u64, Json)> = Vec::new();
    let mut i: usize = 0;
    proof {
        assert(filed_view(filed_so_far@) =~= seq![]);
    }
    while i < pages.len()
        invariant
            i <= pages.len(),
            all == page_views(pages@),
            filed_pages(all, i as int) == Ok::<Seq<(u64, Tree)>, Seq<char>>(
                filed_view(filed_so_far@),
            ),
        decreases pages.len() - i,
    {
        proof {
            assert(all[i as int] == pages@[i as int]@);
        }
        if !pages[i].is_list("value,observations") {
            proof {
                assert(filed_pages(all, i + 1) is Err);
                lemma_unfiled_pages(all, i + 1, all.len() as int);
            }
            return Err(failure("observations absent"));
        }
        match file_all(&mut filed_so_far, &pages[i], "value,observations") {
            Ok(_) => {},
            Err(f) => {
                proof {
                    assert(filed_pages(all, i + 1) is Err);
                    lemma_unfiled_pages(all, i + 1, all.len() as int);
                }
                return Err(f);
            },
        }
        i = i + 1;
    }
    Ok(filed_so_far)
}

pub open spec fn page_views(v: Seq<Json>) -> Seq<Tree> {
    v.map_values(|j: Json| j@)
}

fn file_history(hot: Vec<(u64, Json)>, page: &Json) -> (r: Checked<Vec<(u64, Json)>>)
    ensures
        match filed_history(filed_view(hot@), page@) {
            Ok(l) => r matches Ok(v) && filed_view(v@) == l,
            Err(message) => failed(r, message),
        },
{
    let mut all: Vec<(u64, Json)> = hot;
    if !page.is_text("value,history,type", "archived") {
        return Ok(all);
    }
    ensure(
        page.is_list("value,history,summary,output_observations"),
        "archived outputs absent",
    )?;
    file_all(&mut all, page, "value,history,summary,output_observations")?;
    match page.find("value,history,summary,final_observation") {
        None => {},
        Some(last) => {
            proof {
                lemma_root(last@);
            }
            if !last.is_null("") {
                match last.number_at("sequence") {
                    Some(key) => {
                        file(&mut all, key, last.copy());
                    },
                    None => {
                        return Err(failure("expected integer in product response"));
                    },
                }
            }
        },
    }
    Ok(all)
}

fn values(l: &Vec<(u64, Json)>) -> (r: Json)
    ensures
        r@ == filed_values(filed_view(l@)),
{
    let ghost wanted = filed_values(filed_view(l@))->List_0;
    let mut out: Json = Json::list();
    let mut i: usize = 0;
    proof {
        assert(out@->List_0 =~= wanted.take(0));
    }
    while i < l.len()
        invariant
            i <= l.len(),
            wanted == filed_values(filed_view(l@))->List_0,
            out@ == Tree::List(wanted.take(i as int)),
        decreases l.len() - i,
    {
        let value: Json = l[i].1.copy();
        proof {
            assert(filed_view(l@)[i as int] == (l@[i as int].0, l@[i as int].1@));
            assert(wanted.take(i + 1) =~= wanted.take(i as int).push(value@));
        }
        out = out.and(value);
        i = i + 1;
    }
    proof {
        assert(wanted.take(i as int) =~= wanted);
    }
    out
}

/// The lines of an output that hold more than white space.
pub open spec fn response_lines_of(lines: Seq<Seq<char>>) -> Seq<Seq<char>>
    decreases lines.len(),
{
    if lines.len() == 0 {
        seq![]
    } else if trimmed(lines.last()).len() == 0 {
        response_lines_of(lines.drop_last())
    } else {
        response_lines_of(lines.drop_last()).push(lines.last())
    }
}

/// The lines of a client's output, one document each; blank lines do not count.
pub fn response_lines(stdout: &str) -> (r: Vec<String>)
    ensures
        texts(r@) == response_lines_of(lines_of(stdout@)),
{
    let all: Vec<String> = lines(stdout);
    let ghost view = lines_of(stdout@);
    let mut out: Vec<String> = Vec::new();
    let mut i: usize = 0;
    proof {
        assert(view.take(0) =~= seq![]);
        assert(texts(out@) =~= seq![]);
    }
    while i < all.len()
        invariant
            i <= all.len(),
            view == texts(all@),
            texts(out@) == response_lines_of(view.take(i as int)),
        decreases all.len() - i,
    {
        proof {
            assert(view.take(i + 1).drop_last() =~= view.take(i as int));
            assert(view.take(i + 1).last() == all@[i as int]@);
        }
        if !trim(all[i].as_str()).as_str().is_empty() {
            let line: String = all[i].as_str().to_owned();
            proof {
                lemma_texts_push(out@, line);
            }
            out.push(line);
        }
        i = i + 1;
    }
    proof {
        assert(view.take(i as int) =~= view);
    }
    out
}

/// The result of a call whose output was split into its pages, one document per line that is not
/// blank.
pub fn call(
    label: &str,
    expected: Expected,
    succeeded: bool,
    stdout: &str,
    stderr: &str,
    pages: &Vec<Json>,
) -> (r: Checked<Json>)
    requires
        pages@.len() == response_lines_of(lines_of(stdout@)).len(),
    ensures
        document_result(r) == call_result(
            label@,
            expected,
            succeeded,
            stdout@,
            stderr@,
            page_views(pages@),
        ),
{
    let ghost all = page_views(pages@);
    if pages.len() == 0 {
        return Err(failure("CLI produced no response"));
    }
    let page: &Json = &pages[pages.len() - 1];
    proof {
        assert(all.last() == page@);
    }
    if !is_accepted(expected, succeeded, page) {
        let head: String = joined3(label, " returned unexpected disposition: ", stdout);
        return Err(failure(joined3(head.as_str(), " ", stderr).as_str()));
    }
    if !page.is_text("type", "invocation.wait") {
        return Ok(page.copy());
    }
    let hot: Vec<(u64, Json)> = file_pages(pages)?;
    proof {
        lemma_filed_last(all);
        reveal(found);
        found_paths_take(page@, segments("value,observations"@));
    }
    let merged: Vec<(u64, Json)> = file_history(hot, page)?;
    Ok(page.copy().set("value,observations", values(&merged)))
}

proof fn lemma_filed_all_ascends(l: Seq<(u64, Tree)>, observations: Seq<Tree>, n: int)
    requires
        ascending(l),
        filed_all(l, observations, n) is Some,
    ensures
        ascending(filed_all(l, observations, n)->Some_0),
    decreases n,
{
    if n > 0 {
        lemma_filed_all_ascends(l, observations, n - 1);
        filing_keeps_order(
            filed_all(l, observations, n - 1)->Some_0,
            unsigned_at(observations[n - 1], "sequence"@)->Some_0,
            observations[n - 1],
        );
    }
}

/// However its pages overlap, the merged observations of an awaited invocation ascend strictly by
/// sequence.
pub proof fn merged_observations_ascend(pages: Seq<Tree>, n: int)
    requires
        filed_pages(pages, n) is Ok,
    ensures
        ascending(filed_pages(pages, n)->Ok_0),
    decreases n,
{
    if n > 0 {
        merged_observations_ascend(pages, n - 1);
        let l = at(pages[n - 1], "value,observations"@)->List_0;
        lemma_filed_all_ascends(filed_pages(pages, n - 1)->Ok_0, l, l.len() as int);
    }
}

/// What an archived history retains is filed by sequence too.
pub proof fn archived_observations_ascend(before: Seq<(u64, Tree)>, page: Tree)
    requires
        ascending(before),
        filed_history(before, page) is Ok,
    ensures
        ascending(filed_history(before, page)->Ok_0),
{
    if at(page, "value,history,type"@) == Tree::Text("archived"@) {
        let l = at(page, "value,history,summary,output_observations"@)->List_0;
        lemma_filed_all_ascends(before, l, l.len() as int);
        let after = filed_all(before, l, l.len() as int)->Some_0;
        let last = at(page, "value,history,summary,final_observation"@);
        if last != Tree::Null {
            filing_keeps_order(after, unsigned_at(last, "sequence"@)->Some_0, last);
        }
    }
}

/// Whether its history is archived or not, all that a call merges of an awaited invocation ascends
/// strictly by sequence.
pub proof fn awaited_observations_ascend(pages: Seq<Tree>)
    requires
        pages.len() > 0,
        filed_pages(pages, pages.len() as int) is Ok,
        filed_history(filed_pages(pages, pages.len() as int)->Ok_0, pages.last()) is Ok,
    ensures
        ascending(
            filed_history(filed_pages(pages, pages.len() as int)->Ok_0, pages.last())->Ok_0,
        ),
{
    merged_observations_ascend(pages, pages.len() as int);
    archived_observations_ascend(filed_pages(pages, pages.len() as int)->Ok_0, pages.last());
}

/// Filing what is already there changes nothing, so an overlapping page adds nothing.
pub proof fn refiling_changes_nothing(l: Seq<(u64, Tree)>, key: u64, value: Tree)
    requires
        ascending(l),
        l.contains((key, value)),
    ensures
        filed(l, key, value) == l,
{
    let i = choose|i: int| 0 <= i < l.len() && l[i] == (key, value);
    lemma_filed(l, key, value, i);
    assert(l.update(i, (key, value)) =~= l);
}

proof fn lemma_filing(l: Seq<(u64, Tree)>, key: u64, value: Tree)
    requires
        ascending(l),
    ensures
        ascending(filed(l, key, value)),
        forall|e: (u64, Tree)|
            #[trigger] filed(l, key, value).contains(e) <==> e == (key, value) || (e.0 != key
                && l.contains(e)),
{
    filing_keeps_order(l, key, value);
    let f = filed(l, key, value);
    assert forall|e: (u64, Tree)| #[trigger] f.contains(e) implies e == (key, value) || (e.0 != key
        && l.contains(e)) by {
        if e.0 == key {
            let i = choose|i: int| 0 <= i < f.len() && f[i] == e;
            let j = choose|j: int| 0 <= j < f.len() && f[j] == (key, value);
            if i < j {
                assert(f[i].0 < f[j].0);
            } else if j < i {
                assert(f[j].0 < f[i].0);
            }
        }
    }
}

/// Whether some entry has a key.
spec fn has_key(l: Seq<(u64, Tree)>, key: u64) -> bool {
    exists|e: (u64, Tree)| #[trigger] l.contains(e) && e.0 == key
}

/// Whether no observation from `from` up to `n` has the sequence of another.
spec fn last_of(observation: Tree, observations: Seq<Tree>, from: int, n: int) -> bool {
    forall|j: int|
        from <= j < n ==> unsigned_at(#[trigger] observations[j], "sequence"@) != unsigned_at(
            observation,
            "sequence"@,
        )
}

proof fn lemma_list_kept(l: Seq<(u64, Tree)>, observations: Seq<Tree>, n: int)
    requires
        ascending(l),
        0 <= n <= observations.len(),
        filed_all(l, observations, n) is Some,
    ensures
        ({
            let f = filed_all(l, observations, n)->Some_0;
            &&& ascending(f)
            &&& forall|i: int|
                0 <= i < n ==> unsigned_at(#[trigger] observations[i], "sequence"@) is Some
            &&& forall|e: (u64, Tree)|
                #[trigger] f.contains(e) ==> l.contains(e) || exists|i: int|
                    #![trigger observations[i]]
                    0 <= i < n && unsigned_at(observations[i], "sequence"@) == Some(e.0) && e.1
                        == observations[i]
            &&& forall|e: (u64, Tree)|
                #[trigger] l.contains(e) ==> has_key(f, e.0) && ((forall|j: int|
                    0 <= j < n ==> unsigned_at(#[trigger] observations[j], "sequence"@) != Some(
                        e.0,
                    )) ==> f.contains(e))
            &&& forall|i: int|
                #![trigger observations[i]]
                0 <= i < n ==> has_key(f, unsigned_at(observations[i], "sequence"@)->Some_0) && (
                last_of(observations[i], observations, i + 1, n) ==> f.contains(
                    (unsigned_at(observations[i], "sequence"@)->Some_0, observations[i]),
                ))
        }),
    decreases n,
{
    if n > 0 {
        lemma_list_kept(l, observations, n - 1);
        let before = filed_all(l, observations, n - 1)->Some_0;
        let last = observations[n - 1];
        let key = unsigned_at(last, "sequence"@)->Some_0;
        lemma_filing(before, key, last);
        let f = filed(before, key, last);
        assert(f.contains((key, last)));
        assert forall|k: u64| has_key(before, k) implies has_key(f, k) by {
            let e = choose|e: (u64, Tree)| #[trigger] before.contains(e) && e.0 == k;
            if k != key {
                assert(f.contains(e));
            }
        }
        assert forall|i: int|
            #![trigger observations[i]]
            0 <= i < n implies has_key(f, unsigned_at(observations[i], "sequence"@)->Some_0) && (
        last_of(observations[i], observations, i + 1, n) ==> f.contains(
            (unsigned_at(observations[i], "sequence"@)->Some_0, observations[i]),
        )) by {
            if i < n - 1 && last_of(observations[i], observations, i + 1, n) {
                assert(observations[n - 1] == last);
                assert(last_of(observations[i], observations, i + 1, n - 1));
            }
        }
        assert forall|e: (u64, Tree)| #[trigger] l.contains(e) implies has_key(f, e.0) && ((forall|
            j: int,
        |
            0 <= j < n ==> unsigned_at(#[trigger] observations[j], "sequence"@) != Some(e.0))
            ==> f.contains(e)) by {
            if forall|j: int|
                0 <= j < n ==> unsigned_at(#[trigger] observations[j], "sequence"@) != Some(e.0) {
                assert(observations[n - 1] == last);
            }
        }
    } else {
        assert forall|e: (u64, Tree)| #[trigger] l.contains(e) implies has_key(l, e.0) by {}
    }
}

proof fn lemma_pages_listed(pages: Seq<Tree>, n: int)
    requires
        0 <= n <= pages.len(),
        filed_pages(pages, n) is Ok,
    ensures
        ({
            let f = filed_pages(pages, n)->Ok_0;
            &&& ascending(f)
            &&& forall|p: int, i: int|
                #![trigger items(pages[p], "value,observations"@)[i]]
                0 <= p < n && 0 <= i < items(pages[p], "value,observations"@).len() ==> unsigned_at(
                    items(pages[p], "value,observations"@)[i],
                    "sequence"@,
                ) is Some && has_key(
                    f,
                    unsigned_at(
                        items(pages[p], "value,observations"@)[i],
                        "sequence"@,
                    )->Some_0,
                )
        }),
    decreases n,
{
    if n > 0 {
        lemma_pages_listed(pages, n - 1);
        let before = filed_pages(pages, n - 1)->Ok_0;
        let l = items(pages[n - 1], "value,observations"@);
        lemma_list_kept(before, l, l.len() as int);
        let f = filed_pages(pages, n)->Ok_0;
        assert forall|p: int, i: int|
            #![trigger items(pages[p], "value,observations"@)[i]]
            0 <= p < n && 0 <= i < items(pages[p], "value,observations"@).len() implies unsigned_at(
            items(pages[p], "value,observations"@)[i],
            "sequence"@,
        ) is Some && has_key(
            f,
            unsigned_at(items(pages[p], "value,observations"@)[i], "sequence"@)->Some_0,
        ) by {
            if p == n - 1 {
                assert(l[i] == items(pages[p], "value,observations"@)[i]);
            } else {
                let key = unsigned_at(
                    items(pages[p], "value,observations"@)[i],
                    "sequence"@,
                )->Some_0;
                let e = choose|e: (u64, Tree)| #[trigger] before.contains(e) && e.0 == key;
                assert(before.contains(e));
            }
        }
    }
}

proof fn lemma_pages_told(pages: Seq<Tree>, n: int)
    requires
        0 <= n <= pages.len(),
        filed_pages(pages, n) is Ok,
    ensures
        forall|e: (u64, Tree)|
            #[trigger] filed_pages(pages, n)->Ok_0.contains(e) ==> exists|p: int, i: int|
                #![trigger items(pages[p], "value,observations"@)[i]]
                0 <= p < n && 0 <= i < items(pages[p], "value,observations"@).len() && unsigned_at(
                    items(pages[p], "value,observations"@)[i],
                    "sequence"@,
                ) == Some(e.0) && e.1 == items(pages[p], "value,observations"@)[i],
    decreases n,
{
    if n > 0 {
        lemma_pages_told(pages, n - 1);
        lemma_pages_listed(pages, n - 1);
        let before = filed_pages(pages, n - 1)->Ok_0;
        let l = items(pages[n - 1], "value,observations"@);
        lemma_list_kept(before, l, l.len() as int);
        let f = filed_pages(pages, n)->Ok_0;
        assert forall|e: (u64, Tree)| #[trigger] f.contains(e) implies exists|p: int, i: int|
            #![trigger items(pages[p], "value,observations"@)[i]]
            0 <= p < n && 0 <= i < items(pages[p], "value,observations"@).len() && unsigned_at(
                items(pages[p], "value,observations"@)[i],
                "sequence"@,
            ) == Some(e.0) && e.1 == items(pages[p], "value,observations"@)[i] by {
            if before.contains(e) {
                let (p, i) = choose|p: int, i: int|
                    #![trigger items(pages[p], "value,observations"@)[i]]
                    0 <= p < n - 1 && 0 <= i < items(pages[p], "value,observations"@).len()
                        && unsigned_at(
                        items(pages[p], "value,observations"@)[i],
                        "sequence"@,
                    ) == Some(e.0) && e.1 == items(pages[p], "value,observations"@)[i];
                assert(items(pages[p], "value,observations"@)[i] == e.1);
            } else {
                let i = choose|i: int|
                    #![trigger l[i]]
                    0 <= i < l.len() && unsigned_at(l[i], "sequence"@) == Some(e.0) && e.1 == l[i];
                assert(items(pages[n - 1], "value,observations"@)[i] == e.1);
            }
        }
    }
}

proof fn lemma_page_latest(pages: Seq<Tree>, p: int, i: int, n: int)
    requires
        0 <= p < n <= pages.len(),
        0 <= i < items(pages[p], "value,observations"@).len(),
        filed_pages(pages, n) is Ok,
        latest_of(pages, p, i, n),
    ensures
        filed_pages(pages, n)->Ok_0.contains(
            (
                unsigned_at(items(pages[p], "value,observations"@)[i], "sequence"@)->Some_0,
                items(pages[p], "value,observations"@)[i],
            ),
        ),
    decreases n,
{
    lemma_pages_listed(pages, n - 1);
    let before = filed_pages(pages, n - 1)->Ok_0;
    let l = items(pages[n - 1], "value,observations"@);
    lemma_list_kept(before, l, l.len() as int);
    let o = items(pages[p], "value,observations"@)[i];
    if p == n - 1 {
        assert forall|j: int| i + 1 <= j < l.len() implies unsigned_at(
            #[trigger] l[j],
            "sequence"@,
        ) != unsigned_at(o, "sequence"@) by {
            assert(l[j] == items(pages[p], "value,observations"@)[j]);
        }
        assert(last_of(l[i], l, i + 1, l.len() as int));
    } else {
        assert(latest_of(pages, p, i, n - 1));
        lemma_page_latest(pages, p, i, n - 1);
        let key = unsigned_at(o, "sequence"@)->Some_0;
        assert(before.contains((key, o)));
        assert forall|j: int| 0 <= j < l.len() implies unsigned_at(#[trigger] l[j], "sequence"@)
            != Some(key) by {
            assert(l[j] == items(pages[n - 1], "value,observations"@)[j]);
        }
    }
}

/// Whether no later observation of the first `n` pages has the sequence of this one.
spec fn latest_of(pages: Seq<Tree>, p: int, i: int, n: int) -> bool {
    forall|q: int, j: int|
        #![trigger items(pages[q], "value,observations"@)[j]]
        p <= q < n && 0 <= j < items(pages[q], "value,observations"@).len() && (p < q || i < j)
            ==> unsigned_at(items(pages[q], "value,observations"@)[j], "sequence"@) != unsigned_at(
            items(pages[p], "value,observations"@)[i],
            "sequence"@,
        )
}

proof fn lemma_history_kept(pages: Seq<Tree>)
    requires
        pages.len() > 0,
        filed_pages(pages, pages.len() as int) is Ok,
        filed_history(filed_pages(pages, pages.len() as int)->Ok_0, pages.last()) is Ok,
    ensures
        ({
            let before = filed_pages(pages, pages.len() as int)->Ok_0;
            let f = filed_history(before, pages.last())->Ok_0;
            let archived = at(pages.last(), "value,history,type"@) == Tree::Text("archived"@);
            let outputs = items(pages.last(), "value,history,summary,output_observations"@);
            let end = at(pages.last(), "value,history,summary,final_observation"@);
            &&& ascending(f)
            &&& !archived ==> f == before
            &&& archived ==> {
                &&& forall|i: int|
                    #![trigger outputs[i]]
                    0 <= i < outputs.len() ==> unsigned_at(outputs[i], "sequence"@) is Some
                        && has_key(f, unsigned_at(outputs[i], "sequence"@)->Some_0)
                &&& forall|i: int|
                    #![trigger outputs[i]]
                    0 <= i < outputs.len() && last_of(
                        outputs[i],
                        outputs,
                        i + 1,
                        outputs.len() as int,
                    ) && (end == Tree::Null || unsigned_at(end, "sequence"@) != unsigned_at(
                        outputs[i],
                        "sequence"@,
                    )) ==> f.contains(
                        (unsigned_at(outputs[i], "sequence"@)->Some_0, outputs[i]),
                    )
                &&& end != Tree::Null ==> unsigned_at(end, "sequence"@) is Some && f.contains(
                    (unsigned_at(end, "sequence"@)->Some_0, end),
                )
                &&& forall|e: (u64, Tree)|
                    #[trigger] before.contains(e) ==> has_key(f, e.0) && ((forall|j: int|
                        0 <= j < outputs.len() ==> unsigned_at(#[trigger] outputs[j], "sequence"@)
                            != Some(e.0)) && (end == Tree::Null || unsigned_at(end, "sequence"@)
                        != Some(e.0)) ==> f.contains(e))
                &&& forall|e: (u64, Tree)|
                    #[trigger] f.contains(e) ==> before.contains(e) || (end != Tree::Null && e.1
                        == end && unsigned_at(end, "sequence"@) == Some(e.0)) || exists|i: int|
                        #![trigger outputs[i]]
                        0 <= i < outputs.len() && unsigned_at(outputs[i], "sequence"@) == Some(e.0)
                            && e.1 == outputs[i]
            }
        }),
{
    let before = filed_pages(pages, pages.len() as int)->Ok_0;
    lemma_pages_listed(pages, pages.len() as int);
    if at(pages.last(), "value,history,type"@) == Tree::Text("archived"@) {
        let outputs = items(pages.last(), "value,history,summary,output_observations"@);
        let end = at(pages.last(), "value,history,summary,final_observation"@);
        lemma_list_kept(before, outputs, outputs.len() as int);
        let middle = filed_all(before, outputs, outputs.len() as int)->Some_0;
        let f = filed_history(before, pages.last())->Ok_0;
        if end != Tree::Null {
            let key = unsigned_at(end, "sequence"@)->Some_0;
            lemma_filing(middle, key, end);
            assert(f.contains((key, end)));
            assert forall|k: u64| has_key(middle, k) implies has_key(f, k) by {
                let e = choose|e: (u64, Tree)| #[trigger] middle.contains(e) && e.0 == k;
                if k != key {
                    assert(f.contains(e));
                }
            }
        }
    }
}

/// Everything of the pages that was filed, with what an archived history retains.
spec fn merged(pages: Seq<Tree>) -> Seq<(u64, Tree)> {
    filed_history(filed_pages(pages, pages.len() as int)->Ok_0, pages.last())->Ok_0
}

proof fn lemma_merged(pages: Seq<Tree>, t: Tree)
    requires
        pages.len() > 0,
        filed_pages(pages, pages.len() as int) is Ok,
        filed_history(filed_pages(pages, pages.len() as int)->Ok_0, pages.last()) is Ok,
        t == placed(pages.last(), segments("value,observations"@), filed_values(merged(pages))),
    ensures
        ({
            let f = merged(pages);
            let kept = items(t, "value,observations"@);
            &&& t == placed(pages.last(), segments("value,observations"@), Tree::List(kept))
            &&& kept.len() == f.len()
            &&& forall|i: int| #![trigger kept[i]] #![trigger f[i]]
                0 <= i < kept.len() ==> kept[i] == f[i].1 && f.contains(f[i]) && unsigned_at(
                    kept[i],
                    "sequence"@,
                ) == Some(f[i].0)
            &&& forall|e: (u64, Tree)| #[trigger] f.contains(e) ==> kept.contains(e.1)
            &&& forall|k: u64|
                has_key(f, k) ==> exists|i: int|
                    0 <= i < kept.len() && unsigned_at(#[trigger] kept[i], "sequence"@) == Some(k)
        }),
{
    let last = pages.last();
    let f = merged(pages);
    lemma_filed_last(pages);
    reveal(found);
    found_paths_take(last, segments("value,observations"@));
    placed_is_found(last, segments("value,observations"@), filed_values(f));
    let kept = items(t, "value,observations"@);
    assert(kept =~= f.map_values(|e: (u64, Tree)| e.1));
    lemma_pages_told(pages, pages.len() as int);
    lemma_history_kept(pages);
    assert forall|i: int| 0 <= i < kept.len() implies (#[trigger] kept[i]) == f[i].1 && f.contains(
        f[i],
    ) && unsigned_at(kept[i], "sequence"@) == Some(f[i].0) by {
        assert(f.contains(f[i]));
    }
    assert forall|e: (u64, Tree)| #[trigger] f.contains(e) implies kept.contains(e.1) by {
        let i = choose|i: int| 0 <= i < f.len() && f[i] == e;
        assert(kept[i] == e.1);
    }
    assert forall|k: u64| has_key(f, k) implies exists|i: int|
        0 <= i < kept.len() && unsigned_at(#[trigger] kept[i], "sequence"@) == Some(k) by {
        let e = choose|e: (u64, Tree)| #[trigger] f.contains(e) && e.0 == k;
        let i = choose|i: int| 0 <= i < f.len() && f[i] == e;
        assert(unsigned_at(kept[i], "sequence"@) == Some(k));
    }
}

/// Whether its command succeeded or not, an awaited invocation that a call accepts keeps everything
/// that was told of it. The result is the last page with its observations replaced: they ascend
/// strictly by sequence, and among them stand the sequences of every observation of every page and,
/// where the history is archived, of every archived output and of the final observation.
pub proof fn awaited_observations_are_kept(
    label: &str,
    expected: Expected,
    succeeded: bool,
    stdout: &str,
    stderr: &str,
    pages: &Vec<Json>,
    r: Checked<Json>,
)
    requires
        call_ensures(call, (label, expected, succeeded, stdout, stderr, pages), r),
        r is Ok,
        pages@.len() > 0,
        at(pages@.last()@, "type"@) == Tree::Text("invocation.wait"@),
    ensures
        ({
            let all = page_views(pages@);
            let kept = items(r->Ok_0@, "value,observations"@);
            let archived = at(all.last(), "value,history,type"@) == Tree::Text("archived"@);
            let outputs = items(all.last(), "value,history,summary,output_observations"@);
            let end = at(all.last(), "value,history,summary,final_observation"@);
            &&& r->Ok_0@ == placed(all.last(), segments("value,observations"@), Tree::List(kept))
            &&& forall|i: int|
                0 <= i < kept.len() ==> unsigned_at(#[trigger] kept[i], "sequence"@) is Some
            &&& forall|i: int, j: int|
                0 <= i < j < kept.len() ==> unsigned_at(#[trigger] kept[i], "sequence"@)->Some_0
                    < unsigned_at(#[trigger] kept[j], "sequence"@)->Some_0
            &&& forall|p: int, i: int|
                #![trigger items(all[p], "value,observations"@)[i]]
                0 <= p < all.len() && 0 <= i < items(all[p], "value,observations"@).len()
                    ==> exists|k: int|
                    0 <= k < kept.len() && unsigned_at(#[trigger] kept[k], "sequence"@)
                        == unsigned_at(items(all[p], "value,observations"@)[i], "sequence"@)
            &&& archived ==> forall|i: int|
                #![trigger outputs[i]]
                0 <= i < outputs.len() ==> exists|k: int|
                    0 <= k < kept.len() && unsigned_at(#[trigger] kept[k], "sequence"@)
                        == unsigned_at(outputs[i], "sequence"@)
            &&& archived && end != Tree::Null ==> kept.contains(end)
        }),
{
    let all = page_views(pages@);
    assert(all.last() == pages@.last()@);
    lemma_filed_last(all);
    lemma_merged(all, r->Ok_0@);
    let kept = items(r->Ok_0@, "value,observations"@);
    let before = filed_pages(all, all.len() as int)->Ok_0;
    let f = merged(all);
    lemma_pages_listed(all, all.len() as int);
    lemma_history_kept(all);
    assert forall|p: int, i: int|
        #![trigger items(all[p], "value,observations"@)[i]]
        0 <= p < all.len() && 0 <= i < items(all[p], "value,observations"@).len() implies exists|
        k: int,
    |
        0 <= k < kept.len() && unsigned_at(#[trigger] kept[k], "sequence"@) == unsigned_at(
            items(all[p], "value,observations"@)[i],
            "sequence"@,
        ) by {
        let key = unsigned_at(items(all[p], "value,observations"@)[i], "sequence"@)->Some_0;
        let e = choose|e: (u64, Tree)| #[trigger] before.contains(e) && e.0 == key;
        assert(before.contains(e));
        assert(has_key(f, key));
    }
}

/// Of one sequence the latest observation stands: the final one of an archived history, else the
/// last archived output, else the last that a page told.
pub proof fn latest_observations_stand(
    label: &str,
    expected: Expected,
    succeeded: bool,
    stdout: &str,
    stderr: &str,
    pages: &Vec<Json>,
    r: Checked<Json>,
)
    requires
        call_ensures(call, (label, expected, succeeded, stdout, stderr, pages), r),
        r is Ok,
        pages@.len() > 0,
        at(pages@.last()@, "type"@) == Tree::Text("invocation.wait"@),
    ensures
        ({
            let all = page_views(pages@);
            let kept = items(r->Ok_0@, "value,observations"@);
            let archived = at(all.last(), "value,history,type"@) == Tree::Text("archived"@);
            let outputs = items(all.last(), "value,history,summary,output_observations"@);
            let end = at(all.last(), "value,history,summary,final_observation"@);
            &&& archived && end != Tree::Null ==> kept.contains(end)
            &&& archived ==> forall|i: int|
                #![trigger outputs[i]]
                0 <= i < outputs.len() && (forall|j: int|
                    i < j < outputs.len() ==> unsigned_at(#[trigger] outputs[j], "sequence"@)
                        != unsigned_at(outputs[i], "sequence"@)) && (end == Tree::Null
                    || unsigned_at(end, "sequence"@) != unsigned_at(outputs[i], "sequence"@))
                    ==> kept.contains(outputs[i])
            &&& forall|p: int, i: int|
                #![trigger items(all[p], "value,observations"@)[i]]
                0 <= p < all.len() && 0 <= i < items(all[p], "value,observations"@).len() && (
                forall|q: int, j: int|
                    #![trigger items(all[q], "value,observations"@)[j]]
                    p <= q < all.len() && 0 <= j < items(all[q], "value,observations"@).len() && (p
                        < q || i < j) ==> unsigned_at(
                        items(all[q], "value,observations"@)[j],
                        "sequence"@,
                    ) != unsigned_at(items(all[p], "value,observations"@)[i], "sequence"@)) && (
                archived ==> (forall|j: int|
                    0 <= j < outputs.len() ==> unsigned_at(#[trigger] outputs[j], "sequence"@)
                        != unsigned_at(items(all[p], "value,observations"@)[i], "sequence"@)) && (
                end == Tree::Null || unsigned_at(end, "sequence"@) != unsigned_at(
                    items(all[p], "value,observations"@)[i],
                    "sequence"@,
                ))) ==> kept.contains(items(all[p], "value,observations"@)[i])
        }),
{
    let all = page_views(pages@);
    assert(all.last() == pages@.last()@);
    lemma_filed_last(all);
    lemma_merged(all, r->Ok_0@);
    let kept = items(r->Ok_0@, "value,observations"@);
    let archived = at(all.last(), "value,history,type"@) == Tree::Text("archived"@);
    let outputs = items(all.last(), "value,history,summary,output_observations"@);
    let end = at(all.last(), "value,history,summary,final_observation"@);
    let before = filed_pages(all, all.len() as int)->Ok_0;
    let f = merged(all);
    lemma_pages_listed(all, all.len() as int);
    lemma_history_kept(all);
    if archived {
        assert forall|i: int|
            #![trigger outputs[i]]
            0 <= i < outputs.len() && (forall|j: int|
                i < j < outputs.len() ==> unsigned_at(#[trigger] outputs[j], "sequence"@)
                    != unsigned_at(outputs[i], "sequence"@)) && (end == Tree::Null || unsigned_at(
                end,
                "sequence"@,
            ) != unsigned_at(outputs[i], "sequence"@)) implies kept.contains(outputs[i]) by {
            assert(last_of(outputs[i], outputs, i + 1, outputs.len() as int));
            assert(f.contains((unsigned_at(outputs[i], "sequence"@)->Some_0, outputs[i])));
        }
    }
    assert forall|p: int, i: int|
        #![trigger items(all[p], "value,observations"@)[i]]
        0 <= p < all.len() && 0 <= i < items(all[p], "value,observations"@).len() && (forall|
            q: int,
            j: int,
        |
            #![trigger items(all[q], "value,observations"@)[j]]
            p <= q < all.len() && 0 <= j < items(all[q], "value,observations"@).len() && (p < q || i
                < j) ==> unsigned_at(items(all[q], "value,observations"@)[j], "sequence"@)
                != unsigned_at(items(all[p], "value,observations"@)[i], "sequence"@)) && (archived
            ==> (forall|j: int|
            0 <= j < outputs.len() ==> unsigned_at(#[trigger] outputs[j], "sequence"@)
                != unsigned_at(items(all[p], "value,observations"@)[i], "sequence"@)) && (end
            == Tree::Null || unsigned_at(end, "sequence"@) != unsigned_at(
            items(all[p], "value,observations"@)[i],
            "sequence"@,
        ))) implies kept.contains(items(all[p], "value,observations"@)[i]) by {
        let o = items(all[p], "value,observations"@)[i];
        assert(latest_of(all, p, i, all.len() as int));
        lemma_page_latest(all, p, i, all.len() as int);
        let e = (unsigned_at(o, "sequence"@)->Some_0, o);
        assert(before.contains(e));
        assert(f.contains(e));
    }
}

/// Nothing stands among the observations of an awaited invocation that was not told of it.
pub proof fn awaited_observations_were_told(
    label: &str,
    expected: Expected,
    succeeded: bool,
    stdout: &str,
    stderr: &str,
    pages: &Vec<Json>,
    r: Checked<Json>,
)
    requires
        call_ensures(call, (label, expected, succeeded, stdout, stderr, pages), r),
        r is Ok,
        pages@.len() > 0,
        at(pages@.last()@, "type"@) == Tree::Text("invocation.wait"@),
    ensures
        ({
            let all = page_views(pages@);
            let kept = items(r->Ok_0@, "value,observations"@);
            let archived = at(all.last(), "value,history,type"@) == Tree::Text("archived"@);
            let outputs = items(all.last(), "value,history,summary,output_observations"@);
            let end = at(all.last(), "value,history,summary,final_observation"@);
            forall|k: int|
                #![trigger kept[k]]
                0 <= k < kept.len() ==> (exists|p: int|
                    0 <= p < all.len() && items(
                        #[trigger] all[p],
                        "value,observations"@,
                    ).contains(kept[k])) || (archived && (outputs.contains(kept[k]) || kept[k]
                    == end))
        }),
{
    let all = page_views(pages@);
    assert(all.last() == pages@.last()@);
    lemma_filed_last(all);
    lemma_merged(all, r->Ok_0@);
    let kept = items(r->Ok_0@, "value,observations"@);
    let archived = at(all.last(), "value,history,type"@) == Tree::Text("archived"@);
    let outputs = items(all.last(), "value,history,summary,output_observations"@);
    let end = at(all.last(), "value,history,summary,final_observation"@);
    let before = filed_pages(all, all.len() as int)->Ok_0;
    let f = merged(all);
    lemma_pages_told(all, all.len() as int);
    lemma_history_kept(all);
    assert forall|k: int| #![trigger kept[k]] 0 <= k < kept.len() implies (exists|p: int|
        0 <= p < all.len() && items(#[trigger] all[p], "value,observations"@).contains(kept[k]))
        || (archived && (outputs.contains(kept[k]) || kept[k] == end)) by {
        let e = f[k];
        assert(f.contains(e));
        if before.contains(e) {
            let (p, i) = choose|p: int, i: int|
                #![trigger items(all[p], "value,observations"@)[i]]
                0 <= p < all.len() && 0 <= i < items(all[p], "value,observations"@).len()
                    && unsigned_at(items(all[p], "value,observations"@)[i], "sequence"@) == Some(
                    e.0,
                ) && e.1 == items(all[p], "value,observations"@)[i];
            assert(items(all[p], "value,observations"@).contains(kept[k]));
        }
    }
}

/// A call is accepted exactly where it ended as expected, and where every observation of an awaited
/// invocation can be filed: any other end is refused with what was printed. A result that is no
/// awaited invocation is the last page as it is.
pub proof fn calls_end_as_expected(
    label: &str,
    expected: Expected,
    succeeded: bool,
    stdout: &str,
    stderr: &str,
    pages: &Vec<Json>,
    r: Checked<Json>,
)
    requires
        call_ensures(call, (label, expected, succeeded, stdout, stderr, pages), r),
    ensures
        pages@.len() == 0 ==> failed(r, "CLI produced no response"@),
        pages@.len() > 0 ==> {
            let last = pages@.last()@;
            let refused = label@ + " returned unexpected disposition: "@ + stdout@ + " "@ + stderr@;
            let ended = (succeeded && expected != Expected::Refused) || (!succeeded && expected
                == Expected::Refused) || (!succeeded && expected == Expected::PreAcceptanceRetry
                && at(last, "status"@) == Tree::Text("failure"@) && at(last, "value,type"@)
                == Tree::Text("rejected"@) && (at(last, "value,code"@) == Tree::Text(
                "catalog_stale"@,
            ) || at(last, "value,code"@) == Tree::Text("deadline"@)) && at(
                last,
                "value,known_execution"@,
            ) == Tree::Null) || (!succeeded && expected == Expected::InvocationObservation && at(
                last,
                "type"@,
            ) == Tree::Text("invocation.wait"@) && at(last, "error,code"@) == Tree::Text(
                "invocation_failed"@,
            ));
            &&& !ended ==> failed(r, refused)
            &&& ended && at(last, "type"@) != Tree::Text("invocation.wait"@) ==> (r matches Ok(
                j,
            ) && j@ == last)
            &&& ended && (exists|p: int|
                0 <= p < pages@.len() && !(at((#[trigger] pages@[p])@, "value,observations"@)
                    is List)) && at(last, "type"@) == Tree::Text("invocation.wait"@) ==> r is Err
        },
{
    let all = page_views(pages@);
    assert(all.len() == pages@.len());
    assert(forall|p: int| 0 <= p < all.len() ==> #[trigger] all[p] == pages@[p]@);
    if pages@.len() > 0 {
        assert(all.last() == pages@.last()@);
        assert forall|p: int|
            0 <= p < pages@.len() && !(at((#[trigger] pages@[p])@, "value,observations"@)
                is List) implies filed_pages(all, all.len() as int) is Err by {
            assert(all[p] == pages@[p]@);
            assert(filed_pages(all, p + 1) is Err);
            lemma_unfiled_pages(all, p + 1, all.len() as int);
        }
    }
}

proof fn lemma_filed_last(pages: Seq<Tree>)
    requires
        pages.len() > 0,
        filed_pages(pages, pages.len() as int) is Ok,
    ensures
        found(pages.last(), "value,observations"@) is Some,
{
}

} // verus!
