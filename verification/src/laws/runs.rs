//! Runs, their nodes, their attempts and the commands that settle them.

use vstd::prelude::*;

use crate::application::{poll_fails, Poll};
use crate::endpoint::{
    checked_text, loopback, model_destination, parsed_url, profile_destination, HostView, UrlHost,
};
use crate::failure::{failed, Checked};
use crate::json::{at, items, Json, Tree};
use crate::runs::{
    accept_configuration, accept_direct, accept_fixture_input, check_profiles, children,
    direct_output, runs_of, settlement_arguments, signal_arguments,
    submit_arguments, wait_for_child, Settlement,
};
use crate::text::{decimal, texts};

verus! {

/// The first run of a workflow is the child that is waited for, and nothing else ends the wait but
/// the deadline.
pub proof fn first_children_are_taken(found: &Vec<String>, expired: bool, r: Poll<String>)
    requires
        call_ensures(wait_for_child, (found, expired), r),
    ensures
        r is Ready <==> found@.len() > 0,
        r matches Poll::Ready { value } ==> value@ == found@[0]@,
        r is Again <==> found@.len() == 0 && !expired,
        found@.len() == 0 && expired ==> poll_fails(r, "controller child was not created"@),
{
}

proof fn lemma_run_field(t: Tree)
    ensures
        crate::local_model::text_under(t, seq!["run_id"]) matches Ok(s) ==> at(t, "run_id"@)
            == Tree::Text(s),
{
    reveal_strlit("run_id");
    assert(seq!["run_id"].skip(1) =~= Seq::<&str>::empty());
    reveal_with_fuel(crate::application::under_keys, 2);
    crate::json::lemma_single_segment("run_id"@);
    reveal(crate::json::found);
    reveal_with_fuel(crate::json::walked, 3);
    assert(crate::json::segments("run_id"@).skip(1) =~= Seq::<Seq<char>>::empty());
}

/// Whether one of the first `n` entries lists a run under a workflow.
pub open spec fn lists_run(l: Seq<Tree>, workflow: Seq<char>, run: Seq<char>, n: int) -> bool {
    exists|i: int|
        0 <= i < n && at(#[trigger] l[i], "workflow_id"@) == Tree::Text(workflow) && at(
            l[i],
            "run_id"@,
        ) == Tree::Text(run)
}

proof fn lemma_runs(l: Seq<Tree>, workflow: Seq<char>, run: Seq<char>, n: int)
    requires
        0 <= n <= l.len(),
        runs_of(l, workflow, n) is Ok,
    ensures
        runs_of(l, workflow, n)->Ok_0.contains(run) <==> lists_run(l, workflow, run, n),
    decreases n,
{
    if n > 0 {
        lemma_runs(l, workflow, run, n - 1);
        let before = runs_of(l, workflow, n - 1)->Ok_0;
        let v = runs_of(l, workflow, n)->Ok_0;
        let e = l[n - 1];
        lemma_run_field(e);
        if at(e, "workflow_id"@) == Tree::Text(workflow) {
            assert(v == before.push(v.last()));
            assert(v[v.len() - 1] == v.last());
            if before.contains(run) {
                let k = choose|k: int| 0 <= k < before.len() && before[k] == run;
                assert(v[k] == run);
            }
            if v.contains(run) && !before.contains(run) {
                let k = choose|k: int| 0 <= k < v.len() && v[k] == run;
                if k < before.len() {
                    assert(before[k] == run);
                }
            }
        }
    }
}

/// The children of a workflow are exactly the runs that the page lists under it.
pub proof fn children_are_the_runs_of_their_workflow(
    page: &Json,
    workflow: &str,
    run: Seq<char>,
    r: Checked<Vec<String>>,
)
    requires
        call_ensures(children, (page, workflow), r),
    ensures
        !(at(page@, "value,items"@) is List) ==> failed(r, "run list absent"@),
        r matches Ok(v) ==> (texts(v@).contains(run) <==> lists_run(
            items(page@, "value,items"@),
            workflow@,
            run,
            items(page@, "value,items"@).len() as int,
        )),
{
    if r is Ok {
        let l = items(page@, "value,items"@);
        lemma_runs(l, workflow@, run, l.len() as int);
    }
}

/// A settlement is guarded by the very sequence and revision that were seen, and names its run, its
/// proposal and the digest; only an approval has a decision of its own.
pub proof fn settlements_are_guarded(
    settlement: Settlement,
    run: &str,
    name: &str,
    sequence: u64,
    digest: &str,
    revision: &str,
    r: Vec<String>,
)
    requires
        call_ensures(settlement_arguments, (settlement, run, name, sequence, digest, revision), r),
    ensures
        settlement == Settlement::Approve ==> r@.len() == 14,
        settlement == Settlement::Apply ==> r@.len() == 13,
        r@[3]@ == "--expected-sequence"@ && r@[4]@ == decimal(sequence as nat),
        r@[5]@ == "--expected-revision"@ && r@[6]@ == revision@,
        r@[7]@ == "proposal"@,
        settlement == Settlement::Approve ==> r@[8]@ == "approve"@ && r@[13]@ == "decision-"@
            + name@,
        settlement == Settlement::Apply ==> r@[8]@ == "apply"@,
        r@[9]@ == run@ && r@[10]@ == name@ && r@[11]@ == digest@ && r@[12]@ == revision@,
{
    let t = texts(r@);
    assert(t.len() == r@.len());
    assert(forall|i: int| 0 <= i < t.len() ==> #[trigger] t[i] == r@[i]@);
    assert(t[3] == r@[3]@ && t[4] == r@[4]@ && t[5] == r@[5]@ && t[6] == r@[6]@ && t[7] == r@[7]@);
    assert(t[8] == r@[8]@ && t[9] == r@[9]@ && t[10] == r@[10]@ && t[11] == r@[11]@ && t[12]
        == r@[12]@);
    if settlement == Settlement::Approve {
        assert(t[13] == r@[13]@);
    }
}

/// A submission and a signal are guarded by the sequence that was seen.
pub proof fn submissions_are_guarded(
    name: &str,
    sequence: u64,
    revision: &str,
    path: &str,
    submitted: Vec<String>,
    run: &str,
    signal: &str,
    identity: &str,
    signalled: Vec<String>,
)
    requires
        call_ensures(submit_arguments, (name, sequence, revision, path), submitted),
        call_ensures(signal_arguments, (run, signal, identity, sequence), signalled),
    ensures
        submitted@.len() == 9,
        submitted@[1]@ == "submit-"@ + name@,
        submitted@[2]@ == "--expected-sequence"@ && submitted@[3]@ == decimal(sequence as nat),
        submitted@[4]@ == "--expected-revision"@ && submitted@[5]@ == revision@,
        submitted@[6]@ == "proposal"@ && submitted@[7]@ == "submit"@ && submitted@[8]@ == path@,
        signalled@.len() == 13,
        signalled@[1]@ == identity@ && signalled@[8]@ == identity@,
        signalled@[2]@ == "--expected-sequence"@ && signalled@[3]@ == decimal(sequence as nat),
        signalled@[4]@ == "run"@ && signalled@[5]@ == "signal"@ && signalled@[6]@ == run@,
        signalled@[10]@ == "controller."@ + signal@,
{
    let a = texts(submitted@);
    assert(a.len() == submitted@.len());
    assert(a[1] == submitted@[1]@ && a[2] == submitted@[2]@ && a[3] == submitted@[3]@ && a[4]
        == submitted@[4]@ && a[5] == submitted@[5]@ && a[6] == submitted@[6]@ && a[7]
        == submitted@[7]@ && a[8] == submitted@[8]@);
    let b = texts(signalled@);
    assert(b.len() == signalled@.len());
    assert(b[1] == signalled@[1]@ && b[2] == signalled@[2]@ && b[3] == signalled@[3]@ && b[4]
        == signalled@[4]@ && b[5] == signalled@[5]@ && b[6] == signalled@[6]@ && b[8]
        == signalled@[8]@ && b[10] == signalled@[10]@);
}

/// Four model profiles are refused at most, a fixture reads four kibibytes, and neither a refused
/// configuration nor a direct invocation without its end is accepted.
pub proof fn fixtures_are_bounded(
    profiles: usize,
    checked: Checked<()>,
    accepted: bool,
    stderr: &str,
    configured: Checked<()>,
    waited: bool,
    output: &str,
    terminal: bool,
    direct: Checked<()>,
    size: u64,
    sized: Checked<()>,
)
    requires
        call_ensures(accept_fixture_input, (size,), sized),
        call_ensures(check_profiles, (profiles,), checked),
        call_ensures(accept_configuration, (accepted, stderr), configured),
        call_ensures(accept_direct, (accepted, waited, output, terminal), direct),
    ensures
        checked is Ok <==> profiles <= 4,
        sized is Ok <==> size <= 4096,
        configured is Ok <==> accepted,
        direct is Ok <==> accepted && waited && terminal,
        accepted && !waited ==> failed(direct, "direct invocation failed: "@ + output@),
{
}

/// The output that is taken is the first of its name, and one is taken exactly where there is one.
pub proof fn outputs_are_found_by_name(names: &Vec<String>, name: &str, r: Checked<usize>)
    requires
        call_ensures(direct_output, (names, name), r),
    ensures
        r is Ok <==> exists|i: int| 0 <= i < names@.len() && (#[trigger] names@[i])@ == name@,
        r matches Ok(n) ==> n < names@.len() && names@[n as int]@ == name@ && forall|i: int|
            0 <= i < n ==> (#[trigger] names@[i])@ != name@,
{
    let t = texts(names@);
    assert(t.len() == names@.len());
    assert(forall|i: int| 0 <= i < t.len() ==> #[trigger] t[i] == names@[i]@);
    lemma_output(t, name@, 0);
    if exists|i: int| 0 <= i < names@.len() && (#[trigger] names@[i])@ == name@ {
        let i = choose|i: int| 0 <= i < names@.len() && (#[trigger] names@[i])@ == name@;
        assert(t[i] == name@);
    }
    if r is Ok {
        let n = r->Ok_0 as int;
        assert(t[n] == names@[n]@);
        assert forall|i: int| 0 <= i < n implies (#[trigger] names@[i])@ != name@ by {
            assert(t[i] == names@[i]@);
        }
    }
}

proof fn lemma_output(names: Seq<Seq<char>>, name: Seq<char>, from: int)
    requires
        0 <= from <= names.len(),
    ensures
        match crate::runs::output_from(names, name, from) {
            Some(i) => from <= i < names.len() && names[i] == name && forall|j: int|
                from <= j < i ==> #[trigger] names[j] != name,
            None => forall|j: int| from <= j < names.len() ==> #[trigger] names[j] != name,
        },
    decreases names.len() - from,
{
    if from < names.len() && names[from] != name {
        lemma_output(names, name, from + 1);
    }
}

/// A host stays on this machine exactly where it is of the range 127.0.0.0/8, the address one of
/// the sixth version, or the name `localhost` in any case.
pub proof fn loopback_hosts(h: &UrlHost, r: bool)
    requires
        call_ensures(loopback, (h,), r),
    ensures
        h@ matches HostView::V4 { bits, text }
            ==> (r <==> bits >= 0x7f00_0000 && bits < 0x8000_0000),
        h@ matches HostView::V6 { wide, text } ==> (r <==> wide == 1),
        h@ matches HostView::Domain { name } ==> (name == "localhost"@ ==> r),
        h@ matches HostView::Domain { name } ==> (r ==> name.len() == 9),
{
    reveal_strlit("localhost");
}

/// A destination is a host and a known port with a colon between them, and every destination has
/// both; an address of the sixth version stands in brackets in a profile's.
pub proof fn destinations_have_host_and_port(
    origin: &str,
    r: Checked<String>,
    named: Checked<String>,
)
    requires
        call_ensures(profile_destination, (origin,), r),
        call_ensures(model_destination, (origin,), named),
    ensures
        r is Ok <==> (parsed_url(origin@) matches Ok(u) && u.host is Some && u.known_port is Some),
        parsed_url(origin@) matches Ok(u) ==> (u.known_port matches Some(p) ==> {
            &&& u.host matches Some(HostView::Domain { name }) ==> checked_text(r) == Ok::<
                Seq<char>,
                Seq<char>,
            >(name + ":"@ + decimal(p as nat))
            &&& u.host matches Some(HostView::V4 { bits, text }) ==> checked_text(r) == Ok::<
                Seq<char>,
                Seq<char>,
            >(text + ":"@ + decimal(p as nat))
            &&& u.host matches Some(HostView::V6 { wide, text }) ==> checked_text(r) == Ok::<
                Seq<char>,
                Seq<char>,
            >("["@ + text + "]"@ + ":"@ + decimal(p as nat))
            &&& u.host_text matches Some(h) ==> checked_text(named) == Ok::<Seq<char>, Seq<char>>(
                h + ":"@ + decimal(p as nat),
            )
        }),
        named is Ok <==> (parsed_url(origin@) matches Ok(u) && u.host_text is Some
            && u.known_port is Some),
{
}

} // verus!
