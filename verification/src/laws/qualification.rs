//! The qualification of a candidate: its case, its checks, its invocations and their runs.

use vstd::prelude::*;

use crate::application::{poll_fails, texts_result, Poll};
use crate::endpoint::checked_text;
use crate::failure::{failed, Checked};
use crate::json::{at, found, items, Json, Tree};
use crate::slotbook::case::Case;
use crate::slotbook::client::InvocationMode;
use crate::slotbook::qualification::{
    accepted_execution, attempt_identity, attempt_order, await_readiness, candidate_args,
    check_start, check_stopped, failed_checks, failed_names, forge, invocation_attempts,
    linked_runs, links, next_attempt, parts, passed, peer_capability, reference_args,
    resource_arguments,
};
use crate::text::{decimal, texts};

verus! {

/// A case is one of five, known by its resource, its capacity and its notice together; each has its
/// own quantity and times, and the times it gives for a cancellation are the last before the cutoff
/// and the cutoff itself.
pub proof fn cases_are_known(
    value: &Json,
    resource: Seq<char>,
    capacity: u64,
    notice: u64,
    r: Checked<Case>,
)
    requires
        call_ensures(Case::from_application, (value,), r),
        at(value@, "resource"@) == Tree::Text(resource),
        at(value@, "capacity"@) == Tree::Integer(capacity as int),
        if found(value@, "cancellation_notice_seconds"@) is None {
            notice == 0
        } else {
            at(value@, "cancellation_notice_seconds"@) == Tree::Integer(notice as int)
        },
    ensures
        resource == "pottery"@ && capacity == 2 && notice == 0 ==> (r matches Ok(c) && c.quantity
            == 1 && c.start@ == "2027-04-10T10:00:00Z"@ && c.end@ == "2027-04-10T11:00:00Z"@
            && c.overlap@ == "2027-04-10T10:30:00Z"@ && c.adjacent_end@
            == "2027-04-10T12:00:00Z"@ && c.before@ == "2027-04-10T09:59:00Z"@ && c.cutoff@
            == "2027-04-10T10:00:00Z"@),
        resource == "camera"@ && capacity == 1 && notice == 0 ==> (r matches Ok(c) && c.quantity
            == 1 && c.start@ == "2027-05-03T09:00:00Z"@ && c.end@ == "2027-05-03T12:00:00Z"@
            && c.overlap@ == "2027-05-03T11:00:00Z"@ && c.adjacent_end@
            == "2027-05-03T13:00:00Z"@ && c.before@ == "2027-05-03T08:59:00Z"@ && c.cutoff@
            == "2027-05-03T09:00:00Z"@),
        resource == "tripod"@ && capacity == 2 && notice == 3600 ==> (r matches Ok(c)
            && c.quantity == 2 && c.start@ == "2027-05-04T09:00:00Z"@ && c.end@
            == "2027-05-04T12:00:00Z"@ && c.overlap@ == "2027-05-04T11:00:00Z"@
            && c.adjacent_end@ == "2027-05-04T13:00:00Z"@ && c.before@
            == "2027-05-04T07:59:00Z"@ && c.cutoff@ == "2027-05-04T08:00:00Z"@),
        resource == "yoga"@ && capacity == 4 && notice == 7200 ==> (r matches Ok(c) && c.quantity
            == 2 && c.start@ == "2027-06-08T17:00:00Z"@ && c.end@ == "2027-06-08T18:00:00Z"@
            && c.overlap@ == "2027-06-08T17:30:00Z"@ && c.adjacent_end@
            == "2027-06-08T19:00:00Z"@ && c.before@ == "2027-06-08T14:59:00Z"@ && c.cutoff@
            == "2027-06-08T15:00:00Z"@),
        resource == "ceramics"@ && capacity == 6 && notice == 86400 ==> (r matches Ok(c)
            && c.quantity == 3 && c.start@ == "2027-06-09T18:00:00Z"@ && c.end@
            == "2027-06-09T20:00:00Z"@ && c.overlap@ == "2027-06-09T19:00:00Z"@
            && c.adjacent_end@ == "2027-06-09T21:00:00Z"@ && c.before@
            == "2027-06-08T17:59:00Z"@ && c.cutoff@ == "2027-06-08T18:00:00Z"@),
        r matches Ok(c) ==> c.capacity == capacity && {
            ||| resource == "pottery"@ && capacity == 2 && notice == 0
            ||| resource == "camera"@ && capacity == 1 && notice == 0
            ||| resource == "tripod"@ && capacity == 2 && notice == 3600
            ||| resource == "yoga"@ && capacity == 4 && notice == 7200
            ||| resource == "ceramics"@ && capacity == 6 && notice == 86400
        },
        r is Err ==> failed(
            r,
            "application configuration is outside the declared Slotbook cases"@,
        ),
{
    reveal_strlit("pottery");
    reveal_strlit("camera");
    reveal_strlit("tripod");
    reveal_strlit("yoga");
    reveal_strlit("ceramics");
    assert("camera"@[0] != "tripod"@[0]);
    assert("pottery"@.len() != "camera"@.len());
    assert("ceramics"@.len() != "pottery"@.len());
}

/// A case needs its resource, its capacity and, where it is stated, a notice in seconds.
pub proof fn cases_need_their_parts(value: &Json, r: Checked<Case>)
    requires
        call_ensures(Case::from_application, (value,), r),
    ensures
        !(at(value@, "resource"@) is Text) ==> failed(r, "resource absent"@),
        at(value@, "resource"@) is Text && !(at(value@, "capacity"@) is Integer) ==> failed(
            r,
            "capacity absent"@,
        ),
        at(value@, "resource"@) is Text && (at(value@, "capacity"@) matches Tree::Integer(c) && 0
            <= c <= u64::MAX) && found(value@, "cancellation_notice_seconds"@) is Some && !(at(
            value@,
            "cancellation_notice_seconds"@,
        ) is Integer) ==> failed(r, "invalid cancellation notice"@),
{
}

/// A mode other than the direct one is for published methods, and a candidate has four mebibytes.
pub proof fn starts_are_allowed(
    published: bool,
    mode: InvocationMode,
    candidate_bytes: u64,
    r: Checked<()>,
)
    requires
        call_ensures(check_start, (published, mode, candidate_bytes), r),
    ensures
        r is Ok <==> (published || mode == InvocationMode::Direct) && candidate_bytes <= 4194304,
        !published && mode != InvocationMode::Direct ==> failed(
            r,
            "invocation mode requires --published"@,
        ),
        (published || mode == InvocationMode::Direct) && candidate_bytes > 4194304 ==> failed(
            r,
            "candidate exceeds example allocation"@,
        ),
{
}

/// An evaluation passed exactly where it is complete and has checks, all of which passed.
pub proof fn evaluations_pass_complete(evaluation: &Json, r: bool)
    requires
        call_ensures(passed, (evaluation,), r),
    ensures
        r <==> {
            let checks = items(evaluation@, "checks"@);
            &&& at(evaluation@, "complete"@) == Tree::Bool(true)
            &&& checks.len() > 0
            &&& forall|i: int|
                #![trigger checks[i]]
                0 <= i < checks.len() ==> at(checks[i], "passed"@) == Tree::Bool(true)
        },
{
}

/// Whether one of the first `n` checks did not pass and has the name.
pub open spec fn fails_under(checks: Seq<Tree>, name: Seq<char>, n: int) -> bool {
    exists|i: int|
        0 <= i < n && at(#[trigger] checks[i], "passed"@) == Tree::Bool(false) && at(
            checks[i],
            "name"@,
        ) == Tree::Text(name)
}

proof fn lemma_failed(checks: Seq<Tree>, name: Seq<char>, n: int)
    requires
        0 <= n <= checks.len(),
    ensures
        failed_names(checks, n) matches Some(names) ==> (names.contains(name) <==> fails_under(
            checks,
            name,
            n,
        )),
        failed_names(checks, n) is None <==> exists|i: int|
            0 <= i < n && at(#[trigger] checks[i], "passed"@) == Tree::Bool(false) && !(at(
                checks[i],
                "name"@,
            ) is Text),
    decreases n,
{
    if n > 0 {
        lemma_failed(checks, name, n - 1);
        let c = checks[n - 1];
        if failed_names(checks, n) is Some {
            let before = failed_names(checks, n - 1)->Some_0;
            let v = failed_names(checks, n)->Some_0;
            if at(c, "passed"@) == Tree::Bool(false) {
                let t = at(c, "name"@)->Text_0;
                assert(v == before.push(t));
                assert(v[v.len() - 1] == t);
                if before.contains(name) {
                    let k = choose|k: int| 0 <= k < before.len() && before[k] == name;
                    assert(v[k] == name);
                }
                if v.contains(name) && !before.contains(name) {
                    let k = choose|k: int| 0 <= k < v.len() && v[k] == name;
                    if k < before.len() {
                        assert(before[k] == name);
                    }
                }
            }
        }
    }
}

/// The failed checks are named, all of them and no others.
pub proof fn failed_checks_are_named(evaluation: &Json, name: Seq<char>, r: Checked<Vec<String>>)
    requires
        call_ensures(failed_checks, (evaluation,), r),
    ensures
        !(at(evaluation@, "checks"@) is List) ==> failed(r, "checks absent"@),
        at(evaluation@, "checks"@) is List && r is Err ==> exists|i: int|
            0 <= i < items(evaluation@, "checks"@).len() && at(
                #[trigger] items(evaluation@, "checks"@)[i],
                "passed"@,
            ) == Tree::Bool(false) && !(at(items(evaluation@, "checks"@)[i], "name"@) is Text),
        r matches Ok(v) ==> (texts(v@).contains(name) <==> fails_under(
            items(evaluation@, "checks"@),
            name,
            items(evaluation@, "checks"@).len() as int,
        )),
{
    let l = items(evaluation@, "checks"@);
    lemma_failed(l, name, l.len() as int);
}

/// A forged report has every check, and each of them claims to have passed; what else a check said
/// stands.
pub proof fn forged_reports_claim_to_pass(report: &Json, r: Checked<Json>)
    requires
        call_ensures(forge, (report,), r),
    ensures
        r is Ok <==> at(report@, "evaluation,checks"@) is List,
        r matches Ok(j) ==> {
            let checks = items(report@, "evaluation,checks"@);
            let forged = j@->List_0;
            &&& j@ is List
            &&& forged.len() == checks.len()
            &&& forall|i: int|
                #![trigger forged[i]]
                0 <= i < forged.len() ==> (checks[i] matches Tree::Object(m) ==> forged[i]
                    == Tree::Object(
                    m.insert("passed"@, Tree::Bool(true)).insert(
                        "diagnostic"@,
                        Tree::Text("untrusted fabricated pass"@),
                    ),
                )) && (checks[i] is Null ==> forged[i] == Tree::Object(
                    map![
                        "passed"@ => Tree::Bool(true),
                        "diagnostic"@ => Tree::Text("untrusted fabricated pass"@),
                    ],
                ))
        },
        r is Err ==> failed(r, "checks absent"@),
{
}

/// A recipe is named by its name and its digest.
pub proof fn recipes_are_named(reference: &Json, r: Checked<Vec<String>>)
    requires
        call_ensures(reference_args, (reference,), r),
    ensures
        at(reference@, "name"@) matches Tree::Text(name) ==> (at(reference@, "digest"@)
            matches Tree::Text(digest) ==> texts_result(r) == Ok::<Seq<Seq<char>>, Seq<char>>(
            seq!["--recipe"@, name, "--digest"@, digest],
        )),
        r is Ok ==> at(reference@, "name"@) is Text && at(reference@, "digest"@) is Text,
{
}

/// A candidate is named by its artifact, its digest, its media type and its size.
pub proof fn candidates_are_named(candidate: &Json, key: &str, size: u64, r: Checked<Vec<String>>)
    requires
        call_ensures(candidate_args, (candidate, key), r),
        at(candidate@, "size_bytes"@) == Tree::Integer(size as int),
    ensures
        r is Ok <==> at(candidate@, key@) is Text && at(candidate@, "digest"@) is Text && at(
            candidate@,
            "media_type"@,
        ) is Text,
        r matches Ok(v) ==> texts(v@) == seq![
            "--artifact"@,
            at(candidate@, key@)->Text_0,
            "--digest"@,
            at(candidate@, "digest"@)->Text_0,
            "--media-type"@,
            at(candidate@, "media_type"@)->Text_0,
            "--size-bytes"@,
            decimal(size as nat),
        ],
{
}

/// A command on an installation names the installation and the version it expects before the action
/// and its own words.
pub proof fn resource_commands_expect_a_version(
    installation: &str,
    version: u64,
    action: &str,
    extra: &Vec<String>,
    r: Vec<String>,
)
    requires
        call_ensures(resource_arguments, (installation, version, action, extra), r),
    ensures
        texts(r@) == seq![
            "resource"@,
            "--installation"@,
            installation@,
            "--expected-version"@,
            decimal(version as nat),
            action@,
        ] + texts(extra@),
{
}

/// The linked runs are those of the page that name the execution as their source, where there is
/// one, and otherwise those that serve a peer or that the caller began.
pub proof fn linked_runs_name_their_source(
    page: &Json,
    public: Option<&str>,
    mode: InvocationMode,
    run: Tree,
    r: Checked<Json>,
)
    requires
        call_ensures(linked_runs, (page, public, mode), r),
    ensures
        r is Ok <==> at(page@, "value,items"@) is List,
        r is Err ==> failed(r, "run inventory absent"@),
        r matches Ok(j) ==> j@ is List && (j@->List_0.contains(run) <==> items(
            page@,
            "value,items"@,
        ).contains(run) && (match public {
            Some(execution) => at(run, "published_source,execution"@) == Tree::Text(execution@),
            None => if mode == InvocationMode::Peer {
                at(run, "published_source,type"@) == Tree::Text("serving"@)
            } else {
                at(run, "published_source,run"@) == Tree::Text("slotbook-caller"@)
            },
        })),
{
    if r is Ok {
        let l = items(page@, "value,items"@);
        let p = match public {
            Some(t) => Some(t@),
            None => None,
        };
        let f = |run: Tree| links(run, p, mode);
        broadcast use vstd::seq_lib::group_filter_ensures;

        assert(r->Ok_0@ == Tree::List(l.filter(f)));
        if l.filter(f).contains(run) {
            let k = choose|k: int| 0 <= k < l.filter(f).len() && l.filter(f)[k] == run;
            assert(f(l.filter(f)[k]));
            lemma_filtered_are_of(l, f, k);
        }
        if l.contains(run) && f(run) {
            let k = choose|k: int| 0 <= k < l.len() && l[k] == run;
            assert(l.filter(f).contains(l[k]));
        }
    }
}

proof fn lemma_filtered_are_of(l: Seq<Tree>, f: spec_fn(Tree) -> bool, k: int)
    requires
        0 <= k < l.filter(f).len(),
    ensures
        l.contains(l.filter(f)[k]),
    decreases l.len(),
{
    reveal(Seq::filter);
    if l.len() > 0 {
        let before = l.drop_last();
        if k < before.filter(f).len() {
            lemma_filtered_are_of(before, f, k);
            assert(l.filter(f)[k] == before.filter(f)[k]);
            let i = choose|i: int| 0 <= i < before.len() && before[i] == before.filter(f)[k];
            assert(l[i] == before[i]);
        } else {
            assert(l.filter(f)[k] == l.last());
            assert(l[l.len() - 1] == l.last());
        }
    }
}

proof fn lemma_first_with(l: Seq<Tree>, field: Seq<char>, value: Tree, i: int, from: int)
    requires
        0 <= from <= i < l.len(),
        at(l[i], field) == value,
        forall|j: int| from <= j < i ==> at(#[trigger] l[j], field) != value,
    ensures
        crate::json::first_with(l, field, value, from) == i,
    decreases i - from,
{
    if from < i {
        lemma_first_with(l, field, value, i, from + 1);
    }
}

proof fn lemma_none_with(l: Seq<Tree>, field: Seq<char>, value: Tree, from: int)
    requires
        0 <= from <= l.len(),
        forall|j: int| from <= j < l.len() ==> at(#[trigger] l[j], field) != value,
    ensures
        crate::json::first_with(l, field, value, from) == l.len(),
    decreases l.len() - from,
{
    if from < l.len() {
        lemma_none_with(l, field, value, from + 1);
    }
}

/// The peer capability is that of the first entry of the catalog whose locality is a peer; a
/// catalog is a list, bare or under its items.
pub proof fn peer_capabilities_are_of_peers(
    catalog: &Json,
    l: Seq<Tree>,
    i: int,
    r: Checked<String>,
)
    requires
        call_ensures(peer_capability, (catalog,), r),
        match found(catalog@, "items"@) {
            Some(t) => t == Tree::List(l),
            None => catalog@ == Tree::List(l),
        },
    ensures
        0 <= i < l.len() && at(l[i], "locality"@) == Tree::Text("peer"@) && (forall|j: int|
            0 <= j < i ==> at(#[trigger] l[j], "locality"@) != Tree::Text("peer"@)) ==> (at(
            l[i],
            "capability_id"@,
        ) matches Tree::Text(t) ==> checked_text(r) == Ok::<Seq<char>, Seq<char>>(t)),
        (forall|j: int|
            0 <= j < l.len() ==> at(#[trigger] l[j], "locality"@) != Tree::Text("peer"@))
            ==> failed(r, "peer capability absent"@),
{
    if 0 <= i < l.len() && at(l[i], "locality"@) == Tree::Text("peer"@) && (forall|j: int|
        0 <= j < i ==> at(#[trigger] l[j], "locality"@) != Tree::Text("peer"@)) {
        lemma_first_with(l, "locality"@, Tree::Text("peer"@), i, 0);
    }
    if forall|j: int|
        0 <= j < l.len() ==> at(#[trigger] l[j], "locality"@) != Tree::Text("peer"@) {
        lemma_none_with(l, "locality"@, Tree::Text("peer"@), 0);
    }
}

proof fn lemma_order(retained: Seq<bool>, n: int)
    requires
        0 <= n <= retained.len(),
    ensures
        ({
            let o = attempt_order(retained, n);
            &&& o.len() == n
            &&& forall|p: int| 0 <= p < n ==> 0 <= #[trigger] o[p] < n
            &&& forall|p: int, q: int|
                #![trigger o[p], o[q]]
                0 <= p < q < n ==> o[p] != o[q] && (!retained[o[p]] ==> !retained[o[q]] && o[p]
                    < o[q]) && (retained[o[p]] && retained[o[q]] ==> o[p] > o[q])
        }),
    decreases n,
{
    if n > 0 {
        lemma_order(retained, n - 1);
        let rest = attempt_order(retained, n - 1);
        let o = attempt_order(retained, n);
        if retained[n - 1] {
            assert(o[0] == n - 1);
            assert(forall|p: int| 1 <= p < n ==> #[trigger] o[p] == rest[p - 1]);
        } else {
            assert(o[n - 1] == n - 1);
            assert(forall|p: int| 0 <= p < n - 1 ==> #[trigger] o[p] == rest[p]);
        }
    }
}

/// Six attempts are tried, each once: those that were retained first, the latest of them before the
/// earlier ones, and then the others in their order.
pub proof fn retained_attempts_come_first(retained: &Vec<bool>, p: int, q: int, r: Vec<usize>)
    requires
        call_ensures(invocation_attempts, (retained,), r),
        retained@.len() == 6,
        0 <= p < q < 6,
    ensures
        r@.len() == 6,
        r@[p] < 6 && r@[q] < 6 && r@[p] != r@[q],
        !retained@[r@[p] as int] ==> !retained@[r@[q] as int] && r@[p] < r@[q],
        retained@[r@[p] as int] && retained@[r@[q] as int] ==> r@[p] > r@[q],
{
    lemma_order(retained@, 6);
    let o = attempt_order(retained@, 6);
    let v = r@.map_values(|i: usize| i as int);
    assert(v == o);
    assert(v.len() == r@.len());
    assert(v[p] == r@[p] as int);
    assert(v[q] == r@[q] as int);
}

/// An attempt after the first is named by its number.
pub proof fn later_attempts_are_numbered(label: &str, attempt: u64, r: String)
    requires
        call_ensures(attempt_identity, (label, attempt), r),
    ensures
        attempt == 0 ==> r@ == label@,
        attempt > 0 ==> r@ == label@ + "-"@ + decimal(attempt as nat),
{
}

/// An execution is accepted exactly by a success, and is the one that the success names.
pub proof fn successes_name_their_execution(page: &Json, r: Checked<Option<String>>)
    requires
        call_ensures(accepted_execution, (page,), r),
    ensures
        at(page@, "status"@) != Tree::Text("success"@) ==> r matches Ok(None),
        at(page@, "status"@) == Tree::Text("success"@) ==> match at(page@, "value,execution"@) {
            Tree::Text(t) => r matches Ok(Some(s)) && s@ == t,
            _ => failed(r, "expected string in product response"@),
        },
{
}

/// The parts of a qualification, in the order in which they are gone through.
pub proof fn parts_are_gone_through(published: bool, mode: InvocationMode, r: Vec<&'static str>)
    requires
        call_ensures(parts, (published, mode), r),
    ensures
        ({
            let v = r@.map_values(|t: &str| t@);
            &&& !published ==> v =~= seq![
                "open"@,
                "run"@,
                "repair"@,
                "completed"@,
                "served"@,
                "renewed"@,
            ]
            &&& published && mode == InvocationMode::Direct ==> v =~= seq![
                "open"@,
                "direct"@,
                "link"@,
                "repair"@,
                "handoff"@,
                "completed"@,
                "public-result"@,
                "served"@,
                "public-replay"@,
                "no-deployment"@,
                "renewed"@,
            ]
            &&& published && mode != InvocationMode::Direct ==> v =~= seq![
                "open"@,
                if mode == InvocationMode::Peer {
                    "peer"@
                } else {
                    "workflow"@
                },
                "link"@,
                "repair"@,
                "handoff"@,
                "completed"@,
                "outer-result"@,
                "served"@,
                "outer-replay"@,
                "no-deployment"@,
                "renewed"@,
            ]
        }),
{
}

/// After a refusal the next attempt is tried, until there is none.
pub proof fn refusals_move_on(attempts: &Vec<usize>, refused: usize, r: Checked<usize>)
    requires
        call_ensures(next_attempt, (attempts, refused), r),
    ensures
        r is Ok <==> refused < attempts@.len(),
        r matches Ok(attempt) ==> attempt == attempts@[refused as int],
        r is Err ==> failed(
            r,
            "catalog changed across six explicit refusals without acceptance"@,
        ),
{
}

/// A qualification begins exactly where no daemon runs.
pub proof fn qualifications_begin_alone(running: usize, r: Checked<()>)
    requires
        call_ensures(check_stopped, (running,), r),
    ensures
        r is Ok <==> running == 0,
        r is Err ==> failed(r, "qualification daemons already running"@),
{
}

/// A daemon is ready once it says so and its origin, where there is one, says so too; two hundred
/// looks are made at most, and none at a daemon that exited.
pub proof fn daemons_become_ready(
    exited: bool,
    is_ready: bool,
    origin: Option<bool>,
    looks: u32,
    r: Poll<()>,
)
    requires
        call_ensures(await_readiness, (exited, is_ready, origin, looks), r),
    ensures
        r is Ready <==> looks < 200 && !exited && is_ready && origin != Some(false),
        r is Again <==> looks < 200 && !exited && !(is_ready && origin != Some(false)),
        looks >= 200 ==> poll_fails(r, "qualification readiness deadline"@),
        looks < 200 && exited ==> poll_fails(r, "daemon exited before readiness"@),
{
}

} // verus!
