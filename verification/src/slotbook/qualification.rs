//! The rules of the Slotbook qualification.

use vstd::prelude::*;

use crate::application::{poll_fails, texts_result, Poll};
use crate::endpoint::checked_text;
use crate::failure::{ensure, failed, failure, Checked};
use crate::json::{at, element_with, found, items, unsigned_at, with, Json, Tree};
use crate::slotbook::client::InvocationMode;
use crate::text::{decimal, joined3, lemma_texts_push, number_text, texts};

verus! {

/// The largest immutable candidate of the example, in bytes.
pub const CANDIDATE_BYTES: u64 = 4 * 1024 * 1024;

/// The artifact allowance of the example's internal work, in bytes.
pub const INTERNAL_ARTIFACT_BYTES: u64 = 128 * 1024 * 1024;

/// Whether a qualification can start: a mode other than the direct one needs a published method,
/// and the candidate has to fit its allocation.
pub fn check_start(published: bool, mode: InvocationMode, candidate_bytes: u64) -> (r: Checked<()>)
    ensures
        if !published && mode != InvocationMode::Direct {
            failed(r, "invocation mode requires --published"@)
        } else if candidate_bytes > CANDIDATE_BYTES {
            failed(r, "candidate exceeds example allocation"@)
        } else {
            r is Ok
        },
{
    let direct: bool = match mode {
        InvocationMode::Direct => true,
        _ => false,
    };
    ensure(published || direct, "invocation mode requires --published")?;
    ensure(candidate_bytes <= CANDIDATE_BYTES, "candidate exceeds example allocation")
}

/// An evaluation passes where it is complete and has at least one check, and every check passed.
pub open spec fn passing(evaluation: Tree) -> bool {
    &&& at(evaluation, "complete"@) == Tree::Bool(true)
    &&& items(evaluation, "checks"@).len() > 0
    &&& forall|i: int|
        #![trigger items(evaluation, "checks"@)[i]]
        0 <= i < items(evaluation, "checks"@).len() ==> at(
            items(evaluation, "checks"@)[i],
            "passed"@,
        ) == Tree::Bool(true)
}

pub fn passed(evaluation: &Json) -> (r: bool)
    ensures
        r == passing(evaluation@),
{
    if !evaluation.is_flag("complete", true) {
        return false;
    }
    let n: usize = evaluation.count("checks");
    let ghost checks = items(evaluation@, "checks"@);
    let mut i: usize = 0;
    while i < n
        invariant
            i <= n,
            n == checks.len(),
            checks == items(evaluation@, "checks"@),
            forall|j: int|
                0 <= j < i ==> at(#[trigger] checks[j], "passed"@) == Tree::Bool(true),
        decreases n - i,
    {
        if !evaluation.item("checks", i).is_flag("passed", true) {
            return false;
        }
        i = i + 1;
    }
    n > 0
}

/// The names of the failed ones among the first `n` checks; none where such a name is no text.
pub open spec fn failed_names(checks: Seq<Tree>, n: int) -> Option<Seq<Seq<char>>>
    decreases n,
{
    if n <= 0 {
        Some(seq![])
    } else {
        match failed_names(checks, n - 1) {
            None => None,
            Some(before) => if at(checks[n - 1], "passed"@) != Tree::Bool(false) {
                Some(before)
            } else {
                match at(checks[n - 1], "name"@) {
                    Tree::Text(t) => Some(before.push(t)),
                    _ => None,
                }
            },
        }
    }
}

proof fn lemma_unnamed(checks: Seq<Tree>, m: int, n: int)
    requires
        0 <= m <= n,
        failed_names(checks, m) is None,
    ensures
        failed_names(checks, n) is None,
    decreases n - m,
{
    if m < n {
        lemma_unnamed(checks, m, n - 1);
    }
}

/// The names of an evaluation's failed checks, in its order.
pub fn failed_checks(evaluation: &Json) -> (r: Checked<Vec<String>>)
    ensures
        match at(evaluation@, "checks"@) {
            Tree::List(l) => match failed_names(l, l.len() as int) {
                Some(names) => r matches Ok(v) && texts(v@) == names,
                None => failed(r, "expected string in product response"@),
            },
            _ => failed(r, "checks absent"@),
        },
{
    ensure(evaluation.is_list("checks"), "checks absent")?;
    let n: usize = evaluation.count("checks");
    let ghost checks = items(evaluation@, "checks"@);
    let mut out: Vec<String> = Vec::new();
    let mut i: usize = 0;
    proof {
        assert(texts(out@) =~= seq![]);
    }
    while i < n
        invariant
            i <= n,
            n == checks.len(),
            checks == items(evaluation@, "checks"@),
            at(evaluation@, "checks"@) == Tree::List(checks),
            failed_names(checks, i as int) == Some(texts(out@)),
        decreases n - i,
    {
        let c: &Json = evaluation.item("checks", i);
        if c.is_flag("passed", false) {
            match c.text_at("name") {
                Some(t) => {
                    proof {
                        lemma_texts_push(out@, t);
                    }
                    out.push(t);
                },
                None => {
                    proof {
                        assert(failed_names(checks, i + 1) is None);
                        lemma_unnamed(checks, i + 1, n as int);
                    }
                    return Err(failure("expected string in product response"));
                },
            }
        }
        i = i + 1;
    }
    Ok(out)
}

/// An evaluation that passes has no failed check, and one with a failed check does not pass.
pub proof fn passing_evaluations_have_no_failed_check(evaluation: Tree, n: int)
    requires
        passing(evaluation),
        0 <= n <= items(evaluation, "checks"@).len(),
    ensures
        failed_names(items(evaluation, "checks"@), n) == Some(Seq::<Seq<char>>::empty()),
    decreases n,
{
    if n > 0 {
        passing_evaluations_have_no_failed_check(evaluation, n - 1);
        assert(at(items(evaluation, "checks"@)[n - 1], "passed"@) == Tree::Bool(true));
    }
}

/// A check as a forger writes it.
pub open spec fn forged_check(check: Tree) -> Tree {
    with(
        with(
            if check is Null {
                Tree::Object(map![])
            } else {
                check
            },
            "passed"@,
            Tree::Bool(true),
        ),
        "diagnostic"@,
        Tree::Text("untrusted fabricated pass"@),
    )
}

/// The checks of a report with every one of them forged into a pass.
pub open spec fn forged_checks(checks: Seq<Tree>) -> Seq<Tree> {
    checks.map_values(|c: Tree| forged_check(c))
}

/// Whether every check of a report can be written to: it is an object or nothing yet.
pub open spec fn forgeable(report: Tree) -> bool {
    forall|i: int|
        #![trigger items(report, "evaluation,checks"@)[i]]
        0 <= i < items(report, "evaluation,checks"@).len() ==> (items(
            report,
            "evaluation,checks"@,
        )[i] is Object || items(report, "evaluation,checks"@)[i] is Null)
}

/// The forged checks of a failed report.
pub fn forge(report: &Json) -> (r: Checked<Json>)
    requires
        forgeable(report@),
    ensures
        match at(report@, "evaluation,checks"@) {
            Tree::List(l) => r matches Ok(j) && j@ == Tree::List(forged_checks(l)),
            _ => failed(r, "checks absent"@),
        },
{
    ensure(report.is_list("evaluation,checks"), "checks absent")?;
    let n: usize = report.count("evaluation,checks");
    let ghost checks = items(report@, "evaluation,checks"@);
    let ghost wanted = forged_checks(checks);
    let mut out: Json = Json::list();
    let mut i: usize = 0;
    proof {
        assert(out@->List_0 =~= wanted.take(0));
    }
    while i < n
        invariant
            i <= n,
            n == checks.len(),
            checks == items(report@, "evaluation,checks"@),
            wanted == forged_checks(checks),
            forgeable(report@),
            out@ == Tree::List(wanted.take(i as int)),
        decreases n - i,
    {
        let c: Json = report.item("evaluation,checks", i).copy();
        let base: Json = match c {
            Json::Null => Json::object(),
            other => other,
        };
        let next: Json = base.with("passed", Json::Bool(true)).with(
            "diagnostic",
            Json::text("untrusted fabricated pass"),
        );
        proof {
            assert(wanted[i as int] == next@);
            assert(wanted.take(i + 1) =~= wanted.take(i as int).push(next@));
        }
        out = out.and(next);
        i = i + 1;
    }
    proof {
        assert(wanted.take(i as int) =~= wanted);
    }
    Ok(out)
}

/// A forged report shows every check as passed, whatever it showed before.
pub proof fn forged_reports_look_passed(checks: Seq<Tree>, i: int)
    requires
        0 <= i < checks.len(),
        checks[i] is Object || checks[i] is Null,
    ensures
        at(forged_checks(checks)[i], "passed"@) == Tree::Bool(true),
{
    reveal_strlit("passed");
    reveal_strlit("diagnostic");
    assert(!"passed"@.contains(','));
    crate::json::keys_are_found(forged_checks(checks)[i], "passed"@);
    assert("passed"@.len() != "diagnostic"@.len());
}

/// The options that name a recipe.
pub fn reference_args(reference: &Json) -> (r: Checked<Vec<String>>)
    ensures
        texts_result(r) == match (at(reference@, "name"@), at(reference@, "digest"@)) {
            (Tree::Text(name), Tree::Text(digest)) => Ok(
                seq!["--recipe"@, name, "--digest"@, digest],
            ),
            _ => Err("expected string in product response"@),
        },
{
    let name: String = required(reference, "name")?;
    let digest: String = required(reference, "digest")?;
    let v: Vec<String> = vec!["--recipe".to_owned(), name, "--digest".to_owned(), digest];
    proof {
        assert(texts(v@) =~= seq!["--recipe"@, name@, "--digest"@, digest@]);
    }
    Ok(v)
}

fn required(value: &Json, path: &str) -> (r: Checked<String>)
    ensures
        match at(value@, path@) {
            Tree::Text(t) => r matches Ok(s) && s@ == t,
            _ => failed(r, "expected string in product response"@),
        },
{
    match value.text_at(path) {
        Some(t) => Ok(t),
        None => Err(failure("expected string in product response")),
    }
}

/// The options that name a candidate artifact, whose identity stands at `key`.
pub fn candidate_args(candidate: &Json, key: &str) -> (r: Checked<Vec<String>>)
    ensures
        texts_result(r) == match (
            at(candidate@, key@),
            at(candidate@, "digest"@),
            at(candidate@, "media_type"@),
        ) {
            (Tree::Text(artifact), Tree::Text(digest), Tree::Text(media)) => match unsigned_at(
                candidate@,
                "size_bytes"@,
            ) {
                Some(size) => Ok(
                    seq![
                        "--artifact"@,
                        artifact,
                        "--digest"@,
                        digest,
                        "--media-type"@,
                        media,
                        "--size-bytes"@,
                        decimal(size as nat),
                    ],
                ),
                None => Err("expected integer in product response"@),
            },
            _ => Err("expected string in product response"@),
        },
{
    let artifact: String = required(candidate, key)?;
    let digest: String = required(candidate, "digest")?;
    let media: String = required(candidate, "media_type")?;
    let size: u64 = match candidate.number_at("size_bytes") {
        Some(n) => n,
        None => {
            return Err(failure("expected integer in product response"));
        },
    };
    let v: Vec<String> = vec![
        "--artifact".to_owned(),
        artifact,
        "--digest".to_owned(),
        digest,
        "--media-type".to_owned(),
        media,
        "--size-bytes".to_owned(),
        number_text(size),
    ];
    proof {
        assert(texts(v@) =~= seq![
            "--artifact"@,
            artifact@,
            "--digest"@,
            digest@,
            "--media-type"@,
            media@,
            "--size-bytes"@,
            decimal(size as nat),
        ]);
    }
    Ok(v)
}

/// The command line of an action on an installation.
pub fn resource_arguments(
    installation: &str,
    version: u64,
    action: &str,
    extra: &Vec<String>,
) -> (r: Vec<String>)
    ensures
        texts(r@) == seq![
            "resource"@,
            "--installation"@,
            installation@,
            "--expected-version"@,
            decimal(version as nat),
            action@,
        ] + texts(extra@),
{
    let mut out: Vec<String> = vec![
        "resource".to_owned(),
        "--installation".to_owned(),
        installation.to_owned(),
        "--expected-version".to_owned(),
        number_text(version),
        action.to_owned(),
    ];
    let ghost head = texts(out@);
    let mut i: usize = 0;
    proof {
        assert(head + texts(extra@).take(0) =~= head);
    }
    while i < extra.len()
        invariant
            i <= extra.len(),
            texts(out@) == head + texts(extra@).take(i as int),
        decreases extra.len() - i,
    {
        let t: String = extra[i].as_str().to_owned();
        proof {
            lemma_texts_push(out@, t);
            assert(head + texts(extra@).take(i + 1) =~= (head + texts(extra@).take(i as int)).push(
                t@,
            ));
        }
        out.push(t);
        i = i + 1;
    }
    proof {
        assert(texts(extra@).take(i as int) =~= texts(extra@));
        assert(head =~= seq![
            "resource"@,
            "--installation"@,
            installation@,
            "--expected-version"@,
            decimal(version as nat),
            action@,
        ]);
    }
    out
}

/// Whether a run is the internal run of the accepted call.
pub open spec fn links(run: Tree, public: Option<Seq<char>>, mode: InvocationMode) -> bool {
    match public {
        Some(execution) => at(run, "published_source,execution"@) == Tree::Text(execution),
        None => if mode == InvocationMode::Peer {
            at(run, "published_source,type"@) == Tree::Text("serving"@)
        } else {
            at(run, "published_source,run"@) == Tree::Text("slotbook-caller"@)
        },
    }
}

/// The internal runs of an accepted call.
pub open spec fn linked_of(runs: Seq<Tree>, public: Option<Seq<char>>, mode: InvocationMode) -> Seq<
    Tree,
> {
    runs.filter(|run: Tree| links(run, public, mode))
}

/// The runs of a page that belong to the accepted call.
pub fn linked_runs(page: &Json, public: Option<&str>, mode: InvocationMode) -> (r: Checked<Json>)
    ensures
        match at(page@, "value,items"@) {
            Tree::List(l) => r matches Ok(j) && j@ == Tree::List(
                linked_of(
                    l,
                    match public {
                        Some(t) => Some(t@),
                        None => None,
                    },
                    mode,
                ),
            ),
            _ => failed(r, "run inventory absent"@),
        },
{
    ensure(page.is_list("value,items"), "run inventory absent")?;
    let n: usize = page.count("value,items");
    let ghost runs = items(page@, "value,items"@);
    let ghost execution = match public {
        Some(t) => Some(t@),
        None => None,
    };
    let ghost keep = |run: Tree| links(run, execution, mode);
    let mut out: Json = Json::list();
    let mut i: usize = 0;
    proof {
        reveal(Seq::filter);
        assert(out@->List_0 =~= runs.take(0).filter(keep));
    }
    while i < n
        invariant
            i <= n,
            n == runs.len(),
            runs == items(page@, "value,items"@),
            execution == (match public {
                Some(t) => Some(t@),
                None => None,
            }),
            keep == (|run: Tree| links(run, execution, mode)),
            out@ == Tree::List(runs.take(i as int).filter(keep)),
        decreases n - i,
    {
        let run: &Json = page.item("value,items", i);
        let linked: bool = match public {
            Some(execution) => run.is_text("published_source,execution", execution),
            None => match mode {
                InvocationMode::Peer => run.is_text("published_source,type", "serving"),
                _ => run.is_text("published_source,run", "slotbook-caller"),
            },
        };
        proof {
            reveal(Seq::filter);
            assert(runs.take(i + 1).drop_last() =~= runs.take(i as int));
            assert(runs.take(i + 1).last() == run@);
            assert(linked == keep(run@));
        }
        if linked {
            out = out.and(run.copy());
        }
        i = i + 1;
    }
    proof {
        assert(runs.take(i as int) =~= runs);
    }
    Ok(out)
}

/// The list of a catalog: its items where it has an entry for them, or itself.
pub open spec fn catalog_entries(catalog: Tree) -> Tree {
    match found(catalog, "items"@) {
        Some(t) => t,
        None => catalog,
    }
}

/// The capability of a peer in the origin's catalog.
pub fn peer_capability(catalog: &Json) -> (r: Checked<String>)
    ensures
        checked_text(r) == match catalog_entries(catalog@) {
            Tree::List(l) => match element_with(l, "locality"@, Tree::Text("peer"@)) {
                Some(e) => match at(e, "capability_id"@) {
                    Tree::Text(t) => Ok(t),
                    _ => Err("expected string in product response"@),
                },
                None => Err("peer capability absent"@),
            },
            _ => Err("origin catalog absent"@),
        },
{
    let entries: &Json = match catalog.find("items") {
        Some(j) => j,
        None => catalog,
    };
    proof {
        crate::json::lemma_root(entries@);
    }
    ensure(entries.is_list(""), "origin catalog absent")?;
    match entries.item_with("", "locality", "peer") {
        Some(e) => required(e, "capability_id"),
        None => Err(failure("peer capability absent")),
    }
}

/// How many prepared requests an invocation tries.
pub const INVOCATION_ATTEMPTS: usize = 6;

/// The order in which prepared requests are tried: the newest retained one first, then the ones
/// that are not prepared yet, in ascending order.
pub open spec fn attempt_order(retained: Seq<bool>, n: int) -> Seq<int>
    decreases n,
{
    if n <= 0 {
        seq![]
    } else {
        let rest = attempt_order(retained, n - 1);
        if retained[n - 1] {
            seq![n - 1] + rest
        } else {
            rest.push(n - 1)
        }
    }
}

pub fn invocation_attempts(retained: &Vec<bool>) -> (r: Vec<usize>)
    requires
        retained.len() == INVOCATION_ATTEMPTS,
    ensures
        r@.map_values(|i: usize| i as int) == attempt_order(retained@, INVOCATION_ATTEMPTS as int),
{
    let mut out: Vec<usize> = Vec::new();
    let mut n: usize = 0;
    proof {
        assert(out@.map_values(|i: usize| i as int) =~= attempt_order(retained@, 0));
    }
    while n < INVOCATION_ATTEMPTS
        invariant
            n <= INVOCATION_ATTEMPTS,
            retained.len() == INVOCATION_ATTEMPTS,
            out@.map_values(|i: usize| i as int) == attempt_order(retained@, n as int),
        decreases INVOCATION_ATTEMPTS - n,
    {
        let ghost before = out@;
        if retained[n] {
            out.insert(0, n);
            proof {
                assert(out@.map_values(|i: usize| i as int) =~= seq![n as int] + before.map_values(
                    |i: usize| i as int,
                ));
            }
        } else {
            out.push(n);
            proof {
                assert(out@.map_values(|i: usize| i as int) =~= before.map_values(
                    |i: usize| i as int,
                ).push(n as int));
            }
        }
        n = n + 1;
    }
    out
}

/// Every attempt is tried once.
pub proof fn every_attempt_is_tried(retained: Seq<bool>, n: int, i: int)
    requires
        0 <= i < n <= retained.len(),
    ensures
        attempt_order(retained, n).contains(i),
        attempt_order(retained, n).len() == n,
    decreases n,
{
    let rest = attempt_order(retained, n - 1);
    let all = attempt_order(retained, n);
    if n > 1 {
        every_attempt_is_tried(retained, n - 1, if i < n - 1 {
            i
        } else {
            0
        });
    }
    if i < n - 1 {
        let k = choose|k: int| 0 <= k < rest.len() && rest[k] == i;
        if retained[n - 1] {
            assert(all[k + 1] == i);
        } else {
            assert(all[k] == i);
        }
    } else {
        if retained[n - 1] {
            assert(all[0] == i);
        } else {
            assert(all[rest.len() as int] == i);
        }
    }
}

/// The identity of an attempt: the first has the label itself.
pub fn attempt_identity(label: &str, attempt: u64) -> (r: String)
    ensures
        r@ == if attempt == 0 {
            label@
        } else {
            label@ + "-"@ + decimal(attempt as nat)
        },
{
    if attempt == 0 {
        label.to_owned()
    } else {
        joined3(label, "-", number_text(attempt).as_str())
    }
}

/// What a submission gives: the execution where it was accepted, or nothing where another attempt
/// may follow.
pub fn accepted_execution(page: &Json) -> (r: Checked<Option<String>>)
    ensures
        if at(page@, "status"@) != Tree::Text("success"@) {
            r matches Ok(None)
        } else {
            match at(page@, "value,execution"@) {
                Tree::Text(t) => r matches Ok(Some(s)) && s@ == t,
                _ => failed(r, "expected string in product response"@),
            }
        },
{
    if !page.is_text("status", "success") {
        return Ok(None);
    }
    let execution: String = required(page, "value,execution")?;
    Ok(Some(execution))
}

/// The scripts of a qualification, in their order.
pub open spec fn parts_of(published: bool, mode: InvocationMode) -> Seq<Seq<char>> {
    let start = if !published {
        seq!["run"@]
    } else {
        match mode {
            InvocationMode::Direct => seq!["direct"@, "link"@],
            InvocationMode::Workflow => seq!["workflow"@, "link"@],
            InvocationMode::Peer => seq!["peer"@, "link"@],
        }
    };
    let outer = published && mode != InvocationMode::Direct;
    let public = published && mode == InvocationMode::Direct;
    seq!["open"@] + start + seq!["repair"@] + (if published {
        seq!["handoff"@]
    } else {
        seq![]
    }) + seq!["completed"@] + (if outer {
        seq!["outer-result"@]
    } else {
        seq![]
    }) + (if public {
        seq!["public-result"@]
    } else {
        seq![]
    }) + seq!["served"@] + (if outer {
        seq!["outer-replay"@]
    } else {
        seq![]
    }) + (if public {
        seq!["public-replay"@]
    } else {
        seq![]
    }) + (if published {
        seq!["no-deployment"@]
    } else {
        seq![]
    }) + seq!["renewed"@]
}

/// The names of a qualification's parts, in the order in which they run.
pub fn parts(published: bool, mode: InvocationMode) -> (r: Vec<&'static str>)
    ensures
        r@.map_values(|t: &str| t@) == parts_of(published, mode),
{
    let mut out: Vec<&'static str> = vec!["open"];
    if published {
        match mode {
            InvocationMode::Direct => {
                out.push("direct");
            },
            InvocationMode::Workflow => {
                out.push("workflow");
            },
            InvocationMode::Peer => {
                out.push("peer");
            },
        }
        out.push("link");
    } else {
        out.push("run");
    }
    let direct: bool = match mode {
        InvocationMode::Direct => true,
        _ => false,
    };
    out.push("repair");
    if published {
        out.push("handoff");
    }
    out.push("completed");
    if published && !direct {
        out.push("outer-result");
    }
    if published && direct {
        out.push("public-result");
    }
    out.push("served");
    if published && !direct {
        out.push("outer-replay");
    }
    if published && direct {
        out.push("public-replay");
    }
    if published {
        out.push("no-deployment");
    }
    out.push("renewed");
    proof {
        assert(out@.map_values(|t: &str| t@) =~= parts_of(published, mode));
    }
    out
}

/// The attempt to make next, after some were refused.
pub fn next_attempt(attempts: &Vec<usize>, refused: usize) -> (r: Checked<usize>)
    ensures
        if refused < attempts@.len() {
            r matches Ok(attempt) && attempt == attempts@[refused as int]
        } else {
            failed(r, "catalog changed across six explicit refusals without acceptance"@)
        },
{
    ensure(
        refused < attempts.len(),
        "catalog changed across six explicit refusals without acceptance",
    )?;
    Ok(attempts[refused])
}

/// The looks at a starting qualification before it is overdue.
pub const MAX_READINESS_LOOKS: u32 = 200;

/// Whether a qualification's daemons can be started: none may be running.
pub fn check_stopped(running: usize) -> (r: Checked<()>)
    ensures
        r is Ok <==> running == 0,
        running > 0 ==> failed(r, "qualification daemons already running"@),
{
    ensure(running == 0, "qualification daemons already running")
}

/// A wait for the daemons of a qualification: its own, and the origin where there is one.
pub fn await_readiness(exited: bool, ready: bool, origin: Option<bool>, looks: u32) -> (r: Poll<()>)
    ensures
        if looks >= MAX_READINESS_LOOKS {
            poll_fails(r, "qualification readiness deadline"@)
        } else if exited {
            poll_fails(r, "daemon exited before readiness"@)
        } else if ready && origin != Some(false) {
            r is Ready
        } else {
            r is Again
        },
{
    if looks >= MAX_READINESS_LOOKS {
        return Poll::Failed { message: "qualification readiness deadline".to_owned() };
    }
    if exited {
        return Poll::Failed { message: "daemon exited before readiness".to_owned() };
    }
    let origin_ready: bool = match origin {
        Some(value) => value,
        None => true,
    };
    if ready && origin_ready {
        Poll::Ready { value: () }
    } else {
        Poll::Again
    }
}

} // verus!
