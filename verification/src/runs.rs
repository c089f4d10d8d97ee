//! What the controller reads of runs and attempts, and the commands that it sends about them.

use vstd::prelude::*;

use crate::application::{required_text, required_u64, under_keys, Poll};
use crate::failure::{ensure, failed, failure, Checked};
use crate::json::{at, element_with, items, Json, Tree};
use crate::local_model::text_under;
use crate::text::{decimal, joined, joined3, lemma_texts_push, number_text, same_text, texts};

verus! {

/// The attempt of a node that a run reached.
pub fn node_attempt(read: &Json, name: &str) -> (r: Checked<String>)
    ensures
        match element_with(items(read@, "value,nodes"@), "node_id"@, Tree::Text(name@)) {
            None => failed(r, "expected node absent"@),
            Some(node) => match text_under(node, seq!["latest_attempt_id"]) {
                Ok(t) => r matches Ok(s) && s@ == t,
                Err(e) => failed(r, e),
            },
        },
{
    proof {
        assert(["latest_attempt_id"]@ =~= seq!["latest_attempt_id"]);
    }
    match read.item_with("value,nodes", "node_id", name) {
        None => Err(failure("expected node absent")),
        Some(node) => required_text(node, &["latest_attempt_id"]),
    }
}

/// The runs of a workflow among the first `n` ones.
pub open spec fn runs_of(l: Seq<Tree>, workflow: Seq<char>, n: int) -> Result<
    Seq<Seq<char>>,
    Seq<char>,
>
    decreases n,
{
    if n <= 0 {
        Ok(seq![])
    } else {
        match runs_of(l, workflow, n - 1) {
            Err(e) => Err(e),
            Ok(before) => if at(l[n - 1], "workflow_id"@) == Tree::Text(workflow) {
                match text_under(l[n - 1], seq!["run_id"]) {
                    Ok(t) => Ok(before.push(t)),
                    Err(e) => Err(e),
                }
            } else {
                Ok(before)
            },
        }
    }
}

proof fn lemma_runs_fail(l: Seq<Tree>, workflow: Seq<char>, m: int, n: int)
    requires
        0 <= m <= n,
        runs_of(l, workflow, m) is Err,
    ensures
        runs_of(l, workflow, n) == runs_of(l, workflow, m),
    decreases n - m,
{
    if m < n {
        lemma_runs_fail(l, workflow, m, n - 1);
    }
}

/// The runs of a workflow on one page of runs, in its order.
pub fn children(page: &Json, workflow: &str) -> (r: Checked<Vec<String>>)
    ensures
        match at(page@, "value,items"@) {
            Tree::List(l) => match runs_of(l, workflow@, l.len() as int) {
                Ok(runs) => r matches Ok(v) && texts(v@) == runs,
                Err(e) => failed(r, e),
            },
            _ => failed(r, "run list absent"@),
        },
{
    ensure(page.is_list("value,items"), "run list absent")?;
    let ghost l = items(page@, "value,items"@);
    let n: usize = page.count("value,items");
    let mut out: Vec<String> = Vec::new();
    let mut i: usize = 0;
    proof {
        assert(texts(out@) =~= seq![]);
        assert(["run_id"]@ =~= seq!["run_id"]);
    }
    while i < n
        invariant
            i <= n,
            n == l.len(),
            l == items(page@, "value,items"@),
            at(page@, "value,items"@) == Tree::List(l),
            ["run_id"]@ == seq!["run_id"],
            runs_of(l, workflow@, i as int) == Ok::<Seq<Seq<char>>, Seq<char>>(texts(out@)),
        decreases n - i,
    {
        proof {
            if runs_of(l, workflow@, i + 1) is Err {
                lemma_runs_fail(l, workflow@, i + 1, l.len() as int);
            }
        }
        let run: &Json = page.item("value,items", i);
        if run.is_text("workflow_id", workflow) {
            let id: String = required_text(run, &["run_id"])?;
            proof {
                lemma_texts_push(out@, id);
            }
            out.push(id);
        }
        i = i + 1;
    }
    Ok(out)
}

/// A wait for a workflow's first run.
pub fn wait_for_child(children: &Vec<String>, expired: bool) -> (r: Poll<String>)
    ensures
        if children@.len() > 0 {
            r matches Poll::Ready { value } && value@ == children@[0]@
        } else if expired {
            crate::application::poll_fails(r, "controller child was not created"@)
        } else {
            r is Again
        },
{
    if children.len() > 0 {
        Poll::Ready { value: children[0].as_str().to_owned() }
    } else if expired {
        Poll::Failed { message: "controller child was not created".to_owned() }
    } else {
        Poll::Again
    }
}

/// An artifact of an attempt.
pub struct Reference {
    pub identity: String,
    pub digest: String,
    pub media_type: Option<String>,
    pub size: u64,
}

pub struct ReferenceView {
    pub identity: Seq<char>,
    pub digest: Seq<char>,
    pub media_type: Option<Seq<char>>,
    pub size: u64,
}

impl View for Reference {
    type V = ReferenceView;

    open spec fn view(&self) -> ReferenceView {
        ReferenceView {
            identity: self.identity@,
            digest: self.digest@,
            media_type: crate::text::text_option(self.media_type),
            size: self.size,
        }
    }
}

pub open spec fn number_under(t: Tree, path: Seq<&str>) -> Result<u64, Seq<char>> {
    match under_keys(t, path) {
        None => Err("JSON field is absent"@),
        Some(Tree::Integer(n)) => if 0 <= n <= u64::MAX {
            Ok(n as u64)
        } else {
            Err("JSON field is not an unsigned integer"@)
        },
        Some(_) => Err("JSON field is not an unsigned integer"@),
    }
}

/// The reference of one output.
pub open spec fn reference_of(output: Tree) -> Result<ReferenceView, Seq<char>> {
    let artifact = at(output, "artifact"@);
    match text_under(artifact, seq!["artifact_id"]) {
        Err(e) => Err(e),
        Ok(identity) => match text_under(artifact, seq!["digest"]) {
            Err(e) => Err(e),
            Ok(digest) => match number_under(artifact, seq!["size"]) {
                Err(e) => Err(e),
                Ok(size) => Ok(
                    ReferenceView {
                        identity,
                        digest,
                        media_type: match at(artifact, "content_type"@) {
                            Tree::Text(t) => Some(t),
                            _ => None,
                        },
                        size,
                    },
                ),
            },
        },
    }
}

pub open spec fn reference_result(r: Checked<Reference>) -> Result<ReferenceView, Seq<char>> {
    match r {
        Ok(v) => Ok(v@),
        Err(e) => Err(e.message@),
    }
}

fn reference(output: &Json) -> (r: Checked<Reference>)
    ensures
        reference_result(r) == reference_of(output@),
{
    let artifact: Json = output.get("artifact");
    proof {
        assert(["artifact_id"]@ =~= seq!["artifact_id"]);
        assert(["digest"]@ =~= seq!["digest"]);
        assert(["size"]@ =~= seq!["size"]);
    }
    let identity: String = required_text(&artifact, &["artifact_id"])?;
    let digest: String = required_text(&artifact, &["digest"])?;
    let media_type: Option<String> = artifact.text_at("content_type");
    let size: u64 = required_u64(&artifact, &["size"])?;
    Ok(Reference { identity, digest, media_type, size })
}

/// The references of the first `n` outputs.
pub open spec fn references_of(outputs: Seq<Tree>, n: int) -> Result<Seq<ReferenceView>, Seq<char>>
    decreases n,
{
    if n <= 0 {
        Ok(seq![])
    } else {
        match references_of(outputs, n - 1) {
            Err(e) => Err(e),
            Ok(before) => match reference_of(outputs[n - 1]) {
                Err(e) => Err(e),
                Ok(next) => Ok(before.push(next)),
            },
        }
    }
}

proof fn lemma_references_fail(outputs: Seq<Tree>, m: int, n: int)
    requires
        0 <= m <= n,
        references_of(outputs, m) is Err,
    ensures
        references_of(outputs, n) == references_of(outputs, m),
    decreases n - m,
{
    if m < n {
        lemma_references_fail(outputs, m, n - 1);
    }
}

pub open spec fn reference_views(v: Seq<Reference>) -> Seq<ReferenceView> {
    v.map_values(|r: Reference| r@)
}

/// The artifacts that an attempt left as evidence, in its order.
pub fn artifact_references(attempt: &Json) -> (r: Checked<Vec<Reference>>)
    ensures
        match at(attempt@, "value,outputs"@) {
            Tree::List(l) => match references_of(l, l.len() as int) {
                Ok(references) => r matches Ok(v) && reference_views(v@) == references,
                Err(e) => failed(r, e),
            },
            _ => failed(r, "evidence outputs absent"@),
        },
{
    ensure(attempt.is_list("value,outputs"), "evidence outputs absent")?;
    let ghost l = items(attempt@, "value,outputs"@);
    let n: usize = attempt.count("value,outputs");
    let mut out: Vec<Reference> = Vec::new();
    let mut i: usize = 0;
    proof {
        assert(reference_views(out@) =~= seq![]);
    }
    while i < n
        invariant
            i <= n,
            n == l.len(),
            l == items(attempt@, "value,outputs"@),
            at(attempt@, "value,outputs"@) == Tree::List(l),
            references_of(l, i as int) == Ok::<Seq<ReferenceView>, Seq<char>>(
                reference_views(out@),
            ),
        decreases n - i,
    {
        proof {
            if references_of(l, i + 1) is Err {
                lemma_references_fail(l, i + 1, l.len() as int);
            }
        }
        let next: Reference = reference(attempt.item("value,outputs", i))?;
        proof {
            assert(reference_views(out@.push(next)) =~= reference_views(out@).push(next@));
        }
        out.push(next);
        i = i + 1;
    }
    Ok(out)
}

/// The artifact of an attempt's named output.
pub fn named_output(attempt: &Json, name: &str) -> (r: Checked<String>)
    ensures
        if !(at(attempt@, "value,outputs"@) is List) {
            failed(r, "attempt outputs absent"@)
        } else {
            match element_with(items(attempt@, "value,outputs"@), "name"@, Tree::Text(name@)) {
                None => failed(r, "named output absent"@),
                Some(output) => match text_under(output, seq!["artifact", "artifact_id"]) {
                    Ok(t) => r matches Ok(s) && s@ == t,
                    Err(e) => failed(r, e),
                },
            }
        },
{
    proof {
        assert(["artifact", "artifact_id"]@ =~= seq!["artifact", "artifact_id"]);
    }
    ensure(attempt.is_list("value,outputs"), "attempt outputs absent")?;
    match attempt.item_with("value,outputs", "name", name) {
        None => Err(failure("named output absent")),
        Some(output) => required_text(output, &["artifact", "artifact_id"]),
    }
}

fn line(v: &Vec<&str>) -> (r: Vec<String>)
    ensures
        texts(r@) == crate::application::words(v@),
{
    let mut out: Vec<String> = Vec::new();
    let ghost all = crate::application::words(v@);
    let mut i: usize = 0;
    proof {
        assert(texts(out@) =~= all.take(0));
    }
    while i < v.len()
        invariant
            i <= v.len(),
            all == crate::application::words(v@),
            texts(out@) == all.take(i as int),
        decreases v.len() - i,
    {
        let next: String = v[i].to_owned();
        proof {
            lemma_texts_push(out@, next);
            assert(all.take(i + 1) =~= all.take(i as int).push(next@));
        }
        out.push(next);
        i = i + 1;
    }
    proof {
        assert(all.take(i as int) =~= all);
    }
    out
}

/// The command that submits a proposal on an observed run.
pub fn submit_arguments(name: &str, sequence: u64, revision: &str, path: &str) -> (r: Vec<String>)
    ensures
        texts(r@) == seq![
            "--command-id"@,
            "submit-"@ + name@,
            "--expected-sequence"@,
            decimal(sequence as nat),
            "--expected-revision"@,
            revision@,
            "proposal"@,
            "submit"@,
            path@,
        ],
{
    let command: String = joined("submit-", name);
    let at: String = number_text(sequence);
    let v: Vec<&str> = vec![
        "--command-id",
        command.as_str(),
        "--expected-sequence",
        at.as_str(),
        "--expected-revision",
        revision,
        "proposal",
        "submit",
        path,
    ];
    let r: Vec<String> = line(&v);
    proof {
        assert(texts(r@) =~= seq![
            "--command-id"@,
            "submit-"@ + name@,
            "--expected-sequence"@,
            decimal(sequence as nat),
            "--expected-revision"@,
            revision@,
            "proposal"@,
            "submit"@,
            path@,
        ]);
    }
    r
}

/// What is done with a submitted proposal.
#[derive(Clone, Copy)]
pub enum Settlement {
    Approve,
    Apply,
}

pub open spec fn settlement_name(s: Settlement) -> Seq<char> {
    match s {
        Settlement::Approve => "approve"@,
        Settlement::Apply => "apply"@,
    }
}

pub open spec fn settlement_words(
    settlement: Settlement,
    run: Seq<char>,
    name: Seq<char>,
    sequence: u64,
    digest: Seq<char>,
    revision: Seq<char>,
) -> Seq<Seq<char>> {
    let words = seq![
        "--yes"@,
        "--command-id"@,
        name + "-"@ + settlement_name(settlement),
        "--expected-sequence"@,
        decimal(sequence as nat),
        "--expected-revision"@,
        revision,
        "proposal"@,
        settlement_name(settlement),
        run,
        name,
        digest,
        revision,
    ];
    match settlement {
        Settlement::Approve => words.push("decision-"@ + name),
        Settlement::Apply => words,
    }
}

/// The command that approves or applies an exact proposal on an observed run.
pub fn settlement_arguments(
    settlement: Settlement,
    run: &str,
    name: &str,
    sequence: u64,
    digest: &str,
    revision: &str,
) -> (r: Vec<String>)
    ensures
        texts(r@) == settlement_words(settlement, run@, name@, sequence, digest@, revision@),
{
    let operation: &str = match settlement {
        Settlement::Approve => "approve",
        Settlement::Apply => "apply",
    };
    let command: String = joined3(name, "-", operation);
    let at: String = number_text(sequence);
    let decision: String = joined("decision-", name);
    let mut v: Vec<&str> = vec![
        "--yes",
        "--command-id",
        command.as_str(),
        "--expected-sequence",
        at.as_str(),
        "--expected-revision",
        revision,
        "proposal",
        operation,
        run,
        name,
        digest,
        revision,
    ];
    if let Settlement::Approve = settlement {
        v.push(decision.as_str());
    }
    let r: Vec<String> = line(&v);
    proof {
        assert(texts(r@) =~= settlement_words(
            settlement,
            run@,
            name@,
            sequence,
            digest@,
            revision@,
        ));
    }
    r
}

/// The command that signals a run at an observed sequence.
pub fn signal_arguments(run: &str, signal: &str, identity: &str, sequence: u64) -> (r: Vec<String>)
    ensures
        texts(r@) == seq![
            "--command-id"@,
            identity@,
            "--expected-sequence"@,
            decimal(sequence as nat),
            "run"@,
            "signal"@,
            run@,
            "--signal-id"@,
            identity@,
            "--signal-type"@,
            "controller."@ + signal@,
            "--payload"@,
            "{}"@,
        ],
{
    let kind: String = joined("controller.", signal);
    let at: String = number_text(sequence);
    let v: Vec<&str> = vec![
        "--command-id",
        identity,
        "--expected-sequence",
        at.as_str(),
        "run",
        "signal",
        run,
        "--signal-id",
        identity,
        "--signal-type",
        kind.as_str(),
        "--payload",
        "{}",
    ];
    let r: Vec<String> = line(&v);
    proof {
        assert(texts(r@) =~= seq![
            "--command-id"@,
            identity@,
            "--expected-sequence"@,
            decimal(sequence as nat),
            "run"@,
            "signal"@,
            run@,
            "--signal-id"@,
            identity@,
            "--signal-type"@,
            "controller."@ + signal@,
            "--payload"@,
            "{}"@,
        ]);
    }
    r
}

/// Whether the refused models stay within their bound.
pub fn check_profiles(profiles: usize) -> (r: Checked<()>)
    ensures
        r is Ok <==> profiles <= 4,
        profiles > 4 ==> failed(r, "model refusal fixture is bounded to four profiles"@),
{
    ensure(profiles <= 4, "model refusal fixture is bounded to four profiles")
}

/// The most bytes that the independent process reads.
pub const MAX_FIXTURE_INPUT: u64 = 4096;

/// Whether an input of the independent process stays within its bound.
pub fn accept_fixture_input(size: u64) -> (r: Checked<()>)
    ensures
        r is Ok <==> size <= MAX_FIXTURE_INPUT,
        size > MAX_FIXTURE_INPUT ==> failed(r, "fixture input exceeds bound"@),
{
    ensure(size <= MAX_FIXTURE_INPUT, "fixture input exceeds bound")
}

/// A refused configuration with the daemon's own reason.
pub fn accept_configuration(accepted: bool, stderr: &str) -> (r: Checked<()>)
    ensures
        r is Ok <==> accepted,
        !accepted ==> failed(r, "operator configuration was refused: "@ + stderr@),
{
    ensure(accepted, joined("operator configuration was refused: ", stderr).as_str())
}

/// Whether a direct call was admitted, waited for and ended.
pub fn accept_direct(accepted: bool, waited: bool, output: &str, terminal: bool) -> (r: Checked<()>)
    ensures
        if !accepted {
            failed(r, "direct admission was not accepted"@)
        } else if !waited {
            failed(r, "direct invocation failed: "@ + output@)
        } else if !terminal {
            failed(r, "invocation omitted terminal evidence"@)
        } else {
            r is Ok
        },
{
    ensure(accepted, "direct admission was not accepted")?;
    ensure(waited, joined("direct invocation failed: ", output).as_str())?;
    ensure(terminal, "invocation omitted terminal evidence")
}

/// The position of the first named output among those that a call gave.
pub open spec fn output_from(names: Seq<Seq<char>>, name: Seq<char>, from: int) -> Option<int>
    decreases names.len() - from,
{
    if from < 0 || from >= names.len() {
        None
    } else if names[from] == name {
        Some(from)
    } else {
        output_from(names, name, from + 1)
    }
}

/// The output of a direct call: the first one of a name.
pub fn direct_output(names: &Vec<String>, name: &str) -> (r: Checked<usize>)
    ensures
        match output_from(texts(names@), name@, 0) {
            Some(i) => r matches Ok(n) && n == i,
            None => failed(r, "expected output artifact absent"@),
        },
{
    let ghost all = texts(names@);
    let mut i: usize = 0;
    while i < names.len()
        invariant
            i <= names.len(),
            all == texts(names@),
            output_from(all, name@, 0) == output_from(all, name@, i as int),
        decreases names.len() - i,
    {
        proof {
            assert(all[i as int] == names@[i as int]@);
        }
        if same_text(names[i].as_str(), name) {
            return Ok(i);
        }
        i = i + 1;
    }
    Err(failure("expected output artifact absent"))
}

/// What a host's idle observation says where it was not measured.
pub fn idle_note(role: &str, process: u32) -> (r: String)
    ensures
        r@ == "idle role observation not measured on this platform: role="@ + role@ + ", process="@
            + decimal(process as nat),
{
    let head: String = joined3(
        "idle role observation not measured on this platform: role=",
        role,
        ", process=",
    );
    joined(head.as_str(), number_text(process as u64).as_str())
}

} // verus!
