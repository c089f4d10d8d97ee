//! Operational evidence: bounded overload of a daemon, stream drains, context accounting and the
//! runner's own arguments.

use vstd::prelude::*;

use crate::application::Poll;
use crate::digest::{blake3_hex, content_digest};
use crate::failure::{ensure, failed, failure, Checked};
use crate::text::{
    decimal, join, joined, joined3, joined_with, number_problem, number_text, parse_number,
    same_text, texts, trim, trimmed, unsigned,
};

verus! {

/// The operations of a lane that names no count.
pub const DEFAULT_OPERATION_COUNT: u32 = 256;

/// The least requests that show bounded overload.
pub const MIN_OPERATIONS: u32 = 64;

/// Machine-readable daemon load, overload, recovery, stream, and shutdown evidence.
pub struct DaemonEvidence {
    /// Fixed owner queue capacity verified through the health contract.
    pub queue_capacity: u32,
    /// Requests accepted under the saturated phase.
    pub accepted: u64,
    /// Requests rejected with the stable overload status.
    pub overloaded: u64,
    /// End-to-end request latencies in microseconds.
    pub latency: Vec<u64>,
    /// A deliberately slow health-stream consumer received an observation.
    pub slow_consumer_observed: bool,
    /// A cursor-bound reconnect received a fresh authenticated health observation.
    pub stream_reconnected: bool,
    /// A low-load request succeeded after overload.
    pub recovered: bool,
    /// Process task/thread count before the load phase, when observable.
    pub tasks_before: Option<u64>,
    /// Process task/thread count after recovery, when observable.
    pub tasks_after: Option<u64>,
    /// Graceful shutdown completed within the configured deadline.
    pub graceful_shutdown: bool,
}

/// Whether one owner request met the health contract of a queue of four.
pub fn daemon_owner_round_trip(ready: bool, queue_capacity: u32) -> (r: Checked<()>)
    ensures
        r is Ok <==> ready && queue_capacity == 4,
        !(ready && queue_capacity == 4) ==> failed(r, "daemon health contract changed"@),
{
    ensure(ready && queue_capacity == 4, "daemon health contract changed")
}

/// Whether a load has enough requests.
pub fn check_operations(operations: u32) -> (r: Checked<()>)
    ensures
        r is Ok <==> operations >= MIN_OPERATIONS,
        operations < MIN_OPERATIONS ==> failed(r, "daemon evidence needs at least 64 requests"@),
{
    ensure(operations >= MIN_OPERATIONS, "daemon evidence needs at least 64 requests")
}

/// Whether the single slot of the queue is observable before the load.
pub fn check_queue(ready: bool, queue_capacity: u32) -> (r: Checked<()>)
    ensures
        r is Ok <==> ready && queue_capacity == 1,
        !(ready && queue_capacity == 1) ==> failed(r, "daemon queue bound is not observable"@),
{
    ensure(ready && queue_capacity == 1, "daemon queue bound is not observable")
}

/// Whether the daemon stays ready under medium load.
pub fn check_medium_load(ready: bool) -> (r: Checked<()>)
    ensures
        r is Ok <==> ready,
        !ready ==> failed(r, "medium-load health request was not ready"@),
{
    ensure(ready, "medium-load health request was not ready")
}

/// Whether an observation of the health stream shows a ready daemon. `ready` is none where the
/// observation is of another kind.
pub fn observes_health(feed: &str, ready: Option<bool>) -> (r: bool)
    ensures
        r == (feed@ == "daemon-health"@ && ready == Some(true)),
{
    let healthy: bool = match ready {
        Some(value) => value,
        None => false,
    };
    same_text(feed, "daemon-health") && healthy
}

/// What one request of the saturated phase came to.
pub enum Outcome {
    Ready,
    NotReady,
    Overload { message: String },
    Refused { message: String },
}

/// The requests of the saturated phase, by what they came to.
pub struct Load {
    pub accepted: u64,
    pub overloaded: u64,
}

/// The load after one more request: none where the request ends the evidence.
pub open spec fn loaded(accepted: u64, overloaded: u64, outcome: Outcome) -> Result<
    (int, int),
    Seq<char>,
> {
    match outcome {
        Outcome::Ready => Ok(
            (
                if accepted < u64::MAX {
                    accepted + 1
                } else {
                    accepted as int
                },
                overloaded as int,
            ),
        ),
        Outcome::Overload { .. } => Ok(
            (
                accepted as int,
                if overloaded < u64::MAX {
                    overloaded + 1
                } else {
                    overloaded as int
                },
            ),
        ),
        Outcome::NotReady => Err("daemon became non-ready under load"@),
        Outcome::Refused { message } => Err(message@),
    }
}

impl Load {
    pub fn new() -> (r: Load)
        ensures
            r.accepted == 0,
            r.overloaded == 0,
    {
        Load { accepted: 0, overloaded: 0 }
    }

    pub fn settle(&mut self, outcome: &Outcome) -> (r: Checked<()>)
        ensures
            match loaded(old(self).accepted, old(self).overloaded, *outcome) {
                Ok((accepted, overloaded)) => {
                    &&& r is Ok
                    &&& final(self).accepted == accepted
                    &&& final(self).overloaded == overloaded
                },
                Err(message) => failed(r, message) && *final(self) == *old(self),
            },
    {
        match outcome {
            Outcome::Ready => {
                self.accepted = self.accepted.saturating_add(1);
                Ok(())
            },
            Outcome::Overload { .. } => {
                self.overloaded = self.overloaded.saturating_add(1);
                Ok(())
            },
            Outcome::NotReady => Err(failure("daemon became non-ready under load")),
            Outcome::Refused { message } => Err(failure(message.as_str())),
        }
    }

    /// Whether every request was answered, and at least one with the overload status.
    pub fn check(&self, operations: u32) -> (r: Checked<()>)
        ensures
            r is Ok <==> self.accepted + self.overloaded == operations && self.overloaded > 0,
            !(self.accepted + self.overloaded == operations && self.overloaded > 0) ==> failed(
                r,
                "saturated phase did not prove bounded overload"@,
            ),
    {
        ensure(
            self.accepted.saturating_add(self.overloaded) == operations as u64 && self.overloaded
                > 0,
            "saturated phase did not prove bounded overload",
        )
    }
}

/// The load of the first `n` outcomes, none where one of them ends the evidence.
pub open spec fn total_load(outcomes: Seq<Outcome>, n: int) -> Option<(int, int)>
    decreases n,
{
    if n <= 0 {
        Some((0, 0))
    } else {
        match total_load(outcomes, n - 1) {
            None => None,
            Some((accepted, overloaded)) => match outcomes[n - 1] {
                Outcome::Ready => Some((accepted + 1, overloaded)),
                Outcome::Overload { .. } => Some((accepted, overloaded + 1)),
                _ => None,
            },
        }
    }
}

/// Every request of a load that goes on is counted exactly once.
pub proof fn loads_count_every_request(outcomes: Seq<Outcome>, n: int)
    requires
        0 <= n <= outcomes.len(),
    ensures
        total_load(outcomes, n) matches Some((accepted, overloaded)) ==> accepted + overloaded == n
            && accepted >= 0 && overloaded >= 0,
    decreases n,
{
    if n > 0 {
        loads_count_every_request(outcomes, n - 1);
    }
}

/// A wait for a low-load answer after overload.
pub fn recovery(outcome: &Outcome, expired: bool) -> (r: Poll<bool>)
    ensures
        match *outcome {
            Outcome::Ready => r matches Poll::Ready { value } && value,
            Outcome::NotReady => r matches Poll::Ready { value } && !value,
            Outcome::Overload { message } => if expired {
                crate::application::poll_fails(r, message@)
            } else {
                r is Again
            },
            Outcome::Refused { message } => crate::application::poll_fails(r, message@),
        },
{
    match outcome {
        Outcome::Ready => Poll::Ready { value: true },
        Outcome::NotReady => Poll::Ready { value: false },
        Outcome::Overload { message } => if expired {
            Poll::Failed { message: message.as_str().to_owned() }
        } else {
            Poll::Again
        },
        Outcome::Refused { message } => Poll::Failed { message: message.as_str().to_owned() },
    }
}

/// Whether a load left at most eight tasks behind, as far as they can be counted.
pub open spec fn tasks_bounded(before: Option<u64>, after: Option<u64>) -> bool {
    match (before, after) {
        (Some(b), Some(a)) => a <= b + 8,
        _ => true,
    }
}

pub fn check_tasks(before: Option<u64>, after: Option<u64>) -> (r: Checked<()>)
    ensures
        r is Ok <==> tasks_bounded(before, after),
        !tasks_bounded(before, after) ==> failed(r, "daemon load left unbounded process tasks"@),
{
    let bounded: bool = match (before, after) {
        (Some(b), Some(a)) => a <= b.saturating_add(8),
        _ => true,
    };
    ensure(bounded, "daemon load left unbounded process tasks")
}

/// Whether a resumed stream went on: a later cursor, of the same feed, from a ready daemon.
pub fn stream_resumed(before: Option<&str>, cursor: &str, feed: &str, ready: Option<bool>) -> (r:
    bool)
    ensures
        r == ((match before {
            Some(b) => b@ != cursor@,
            None => true,
        }) && feed@ == "daemon-health"@ && ready == Some(true)),
{
    let moved: bool = match before {
        Some(b) => !same_text(b, cursor),
        None => true,
    };
    moved && observes_health(feed, ready)
}

pub open spec fn flag_text(b: bool) -> Seq<char> {
    if b {
        "true"@
    } else {
        "false"@
    }
}

fn flag_word(b: bool) -> (r: &'static str)
    ensures
        r@ == flag_text(b),
{
    if b {
        "true"
    } else {
        "false"
    }
}

/// What the phases of a saturated daemon came to.
pub struct Phases {
    pub load: Load,
    pub latency: Vec<u64>,
    pub slow_consumer_observed: bool,
    pub stream_reconnected: bool,
    pub recovered: bool,
    pub tasks_before: Option<u64>,
    pub tasks_after: Option<u64>,
    pub graceful_shutdown: bool,
}

/// The evidence of a saturated daemon: refused unless enough requests were made, each was answered
/// and at least one with the overload status, no unbounded tasks were left, and the daemon
/// recovered, was observed by a slow and by a reconnected consumer, and shut down in order.
pub fn measure_daemon_saturation(operations: u32, phases: Phases) -> (r: Checked<DaemonEvidence>)
    ensures
        r is Ok <==> operations >= 64 && phases.load.accepted + phases.load.overloaded == operations
            && phases.load.overloaded > 0 && tasks_bounded(phases.tasks_before, phases.tasks_after)
            && phases.graceful_shutdown && phases.recovered && phases.slow_consumer_observed
            && phases.stream_reconnected,
        r matches Ok(e) ==> e.queue_capacity == 1 && e.accepted == phases.load.accepted
            && e.overloaded == phases.load.overloaded && e.latency@ == phases.latency@
            && e.slow_consumer_observed && e.stream_reconnected && e.recovered && e.tasks_before
            == phases.tasks_before && e.tasks_after == phases.tasks_after && e.graceful_shutdown,
        r is Err ==> failed(
            r,
            if operations < 64 {
                "daemon evidence needs at least 64 requests"@
            } else if phases.load.accepted + phases.load.overloaded != operations
                || phases.load.overloaded == 0 {
                "saturated phase did not prove bounded overload"@
            } else if !tasks_bounded(phases.tasks_before, phases.tasks_after) {
                "daemon load left unbounded process tasks"@
            } else {
                "daemon evidence failed: recovered="@ + flag_text(phases.recovered)
                    + ", slow_consumer="@ + flag_text(phases.slow_consumer_observed)
                    + ", reconnected="@ + flag_text(phases.stream_reconnected) + ", shutdown="@
                    + flag_text(phases.graceful_shutdown)
            },
        ),
{
    check_operations(operations)?;
    phases.load.check(operations)?;
    check_tasks(phases.tasks_before, phases.tasks_after)?;
    if !phases.graceful_shutdown || !phases.recovered || !phases.slow_consumer_observed
        || !phases.stream_reconnected {
        let a: String = joined3(
            "daemon evidence failed: recovered=",
            flag_word(phases.recovered),
            ", slow_consumer=",
        );
        let b: String = joined3(
            a.as_str(),
            flag_word(phases.slow_consumer_observed),
            ", reconnected=",
        );
        let c: String = joined3(b.as_str(), flag_word(phases.stream_reconnected), ", shutdown=");
        return Err(failure(joined(c.as_str(), flag_word(phases.graceful_shutdown)).as_str()));
    }
    Ok(
        DaemonEvidence {
            queue_capacity: 1,
            accepted: phases.load.accepted,
            overloaded: phases.load.overloaded,
            latency: phases.latency,
            slow_consumer_observed: phases.slow_consumer_observed,
            stream_reconnected: phases.stream_reconnected,
            recovered: phases.recovered,
            tasks_before: phases.tasks_before,
            tasks_after: phases.tasks_after,
            graceful_shutdown: phases.graceful_shutdown,
        },
    )
}

/// The bytes that the controlled process writes to each of its streams.
pub const STREAM_BYTES: u64 = 262144;

/// Whether the helper that a drain needs is named.
pub fn check_process_helper(named: bool) -> (r: Checked<()>)
    ensures
        r is Ok <==> named,
        !named ==> failed(
            r,
            "MILKDRIFT_EVIDENCE_PROCESS_HELPER must name the built evidence-process-helper"@,
        ),
{
    ensure(named, "MILKDRIFT_EVIDENCE_PROCESS_HELPER must name the built evidence-process-helper")
}

/// The measurement of a controlled process that succeeded and whose streams were both drained
/// whole; the size of a stream that was not published is none. `evidence` is what the process's
/// events and outputs are encoded as.
pub fn local_process_stream_drain(
    succeeded: bool,
    stdout: Option<u64>,
    stderr: Option<u64>,
    events: u64,
    evidence: &[u8],
) -> (r: Checked<ScenarioMeasurement>)
    ensures
        if !succeeded {
            failed(r, "local process fixture did not succeed"@)
        } else if stdout is None {
            failed(r, "stdout missing"@)
        } else if stderr is None {
            failed(r, "stderr missing"@)
        } else if stdout != Some(STREAM_BYTES) || stderr != Some(STREAM_BYTES) {
            failed(r, "local process stream capture was incomplete"@)
        } else {
            r matches Ok(m) && m.scenario@
                == "adapters/local_process_stdout_stderr_524288_bytes"@ && m.operations == events
                && m.bytes == 524288 && m.checksum@ == blake3_hex(evidence@)
        },
{
    ensure(succeeded, "local process fixture did not succeed")?;
    let out: u64 = match stdout {
        Some(n) => n,
        None => {
            return Err(failure("stdout missing"));
        },
    };
    let err: u64 = match stderr {
        Some(n) => n,
        None => {
            return Err(failure("stderr missing"));
        },
    };
    ensure(
        out == STREAM_BYTES && err == STREAM_BYTES,
        "local process stream capture was incomplete",
    )?;
    Ok(
        ScenarioMeasurement {
            scenario: "adapters/local_process_stdout_stderr_524288_bytes".to_owned(),
            operations: events,
            bytes: out + err,
            checksum: content_digest(evidence),
        },
    )
}

/// The candidates of a context discovery.
pub const DISCOVERY_CANDIDATES: u32 = 2048;

/// The candidates of a context materialization.
pub const MATERIALIZED_CANDIDATES: u32 = 64;

/// Whether a selection accounts for every candidate: it takes its bound and omits all others.
pub fn context_discovery_and_selection(entries: usize, omissions: usize) -> (r: Checked<()>)
    ensures
        r is Ok <==> entries == 128 && entries + omissions == DISCOVERY_CANDIDATES,
        !(entries == 128 && entries + omissions == DISCOVERY_CANDIDATES) ==> failed(
            r,
            "context selection accounting changed"@,
        ),
{
    ensure(
        entries == 128 && entries.saturating_add(omissions) == DISCOVERY_CANDIDATES as usize,
        "context selection accounting changed",
    )
}

/// Whether exactly the selected candidates were materialized.
pub fn context_materialization(materialized: usize) -> (r: Checked<()>)
    ensures
        r is Ok <==> materialized == MATERIALIZED_CANDIDATES,
        materialized != MATERIALIZED_CANDIDATES ==> failed(
            r,
            "selected-only materialization count changed"@,
        ),
{
    ensure(
        materialized == MATERIALIZED_CANDIDATES as usize,
        "selected-only materialization count changed",
    )
}

/// Some zeros.
pub open spec fn zeros(n: int) -> Seq<char>
    decreases n,
{
    if n <= 0 {
        seq![]
    } else {
        "0"@ + zeros(n - 1)
    }
}

/// A number with leading zeros up to a width.
pub open spec fn padded(n: nat, width: nat) -> Seq<char> {
    zeros(width - decimal(n).len()) + decimal(n)
}

fn padded_number(n: u64, width: usize) -> (r: String)
    ensures
        r@ == padded(n as nat, width as nat),
{
    let digits: String = number_text(n);
    let mut out: String = digits.as_str().to_owned();
    let size: usize = digits.as_str().unicode_len();
    let mut left: usize = if width > size {
        width - size
    } else {
        0
    };
    let ghost target = padded(n as nat, width as nat);
    proof {
        assert(zeros(left as int) + out@ =~= target) by {
            if width <= size {
                assert(zeros(width - size) =~= seq![]);
                assert(zeros(0) =~= seq![]);
            }
        }
    }
    while left > 0
        invariant
            zeros(left as int) + out@ == target,
        decreases left,
    {
        let ghost before = out@;
        out = joined("0", out.as_str());
        proof {
            lemma_zeros(left as int);
            assert(zeros(left - 1) + ("0"@ + before) =~= (zeros(left - 1) + "0"@) + before);
        }
        left = left - 1;
    }
    proof {
        assert(zeros(0) + out@ =~= out@);
    }
    out
}

proof fn lemma_zeros(n: int)
    requires
        n > 0,
    ensures
        zeros(n) == zeros(n - 1) + "0"@,
    decreases n,
{
    if n > 1 {
        lemma_zeros(n - 1);
        assert("0"@ + (zeros(n - 2) + "0"@) =~= ("0"@ + zeros(n - 2)) + "0"@);
    } else {
        assert(zeros(0) =~= seq![]);
        assert("0"@ + seq![] =~= seq![] + "0"@);
    }
}

/// The name of a discovery candidate.
pub fn candidate_name(index: u32) -> (r: String)
    ensures
        r@ == "prompt-"@ + padded(index as nat, 5),
{
    joined("prompt-", padded_number(index as u64, 5).as_str())
}

/// The execution and attempt names of a materialized candidate.
pub fn execution_names(index: u32) -> (r: (String, String))
    ensures
        r.0@ == "execution-"@ + padded(index as nat, 4),
        r.1@ == "attempt-"@ + padded(index as nat, 4),
{
    let number: String = padded_number(index as u64, 4);
    (joined("execution-", number.as_str()), joined("attempt-", number.as_str()))
}

/// What the runner was asked for.
pub struct Request {
    pub output: String,
    pub operations: u32,
}

/// What some arguments, from a position on, make of a request.
pub open spec fn requested(arguments: Seq<Seq<char>>, from: int, output: Seq<char>, operations: u32) -> Result<
    (Seq<char>, u32),
    Seq<char>,
>
    decreases arguments.len() - from,
{
    if from < 0 || from >= arguments.len() {
        Ok((output, operations))
    } else if arguments[from] == "--output"@ {
        if from + 1 >= arguments.len() {
            Err("--output requires a directory"@)
        } else {
            requested(arguments, from + 2, arguments[from + 1], operations)
        }
    } else if arguments[from] == "--operations"@ {
        if from + 1 >= arguments.len() {
            Err("--operations requires a count"@)
        } else {
            match unsigned(arguments[from + 1], u32::MAX as nat) {
                Some(n) => requested(arguments, from + 2, output, n as u32),
                None => Err(number_problem(arguments[from + 1], u32::MAX as nat)),
            }
        }
    } else {
        Err("unknown argument "@ + arguments[from])
    }
}

pub open spec fn request_view(r: Checked<Request>) -> Result<(Seq<char>, u32), Seq<char>> {
    match r {
        Ok(q) => Ok((q.output@, q.operations)),
        Err(e) => Err(e.message@),
    }
}

/// The request of the runner's arguments.
pub fn parse_arguments(arguments: &Vec<String>) -> (r: Checked<Request>)
    ensures
        request_view(r) == requested(
            texts(arguments@),
            0,
            "target/evidence"@,
            DEFAULT_OPERATION_COUNT,
        ),
{
    let ghost all = texts(arguments@);
    let ghost wanted = requested(all, 0, "target/evidence"@, DEFAULT_OPERATION_COUNT);
    let mut output: String = "target/evidence".to_owned();
    let mut operations: u32 = DEFAULT_OPERATION_COUNT;
    let mut i: usize = 0;
    while i < arguments.len()
        invariant
            i <= arguments.len(),
            all == texts(arguments@),
            wanted == requested(all, 0, "target/evidence"@, DEFAULT_OPERATION_COUNT),
            wanted == requested(all, i as int, output@, operations),
        decreases arguments.len() - i,
    {
        let argument: &str = arguments[i].as_str();
        proof {
            assert(all[i as int] == argument@);
        }
        if same_text(argument, "--output") {
            if arguments.len() - i < 2 {
                return Err(failure("--output requires a directory"));
            }
            output = arguments[i + 1].as_str().to_owned();
            proof {
                assert(all[i + 1] == output@);
            }
        } else if same_text(argument, "--operations") {
            if arguments.len() - i < 2 {
                return Err(failure("--operations requires a count"));
            }
            proof {
                assert(all[i + 1] == arguments@[i + 1]@);
            }
            match parse_number(arguments[i + 1].as_str(), u32::MAX as u64) {
                Ok(n) => {
                    operations = n as u32;
                },
                Err(reason) => {
                    return Err(failure(reason));
                },
            }
        } else {
            return Err(failure(joined("unknown argument ", argument).as_str()));
        }
        i = i + 2;
    }
    Ok(Request { output, operations })
}

/// What one scenario measured.
pub struct ScenarioMeasurement {
    pub scenario: String,
    pub operations: u64,
    pub bytes: u64,
    pub checksum: String,
}

pub open spec fn csv_row(m: ScenarioMeasurement) -> Seq<char> {
    m.scenario@ + ","@ + decimal(m.operations as nat) + ","@ + decimal(m.bytes as nat) + ","@
        + m.checksum@ + "\n"@
}

pub open spec fn csv_of(v: Seq<ScenarioMeasurement>, n: int) -> Seq<char>
    decreases n,
{
    if n <= 0 {
        "scenario,operations,bytes,checksum\n"@
    } else {
        csv_of(v, n - 1) + csv_row(v[n - 1])
    }
}

/// The summary of some measurements, one row each under a header.
pub fn summary(v: &Vec<ScenarioMeasurement>) -> (r: String)
    ensures
        r@ == csv_of(v@, v@.len() as int),
{
    let mut out: String = "scenario,operations,bytes,checksum\n".to_owned();
    let mut i: usize = 0;
    while i < v.len()
        invariant
            i <= v.len(),
            out@ == csv_of(v@, i as int),
        decreases v.len() - i,
    {
        let m: &ScenarioMeasurement = &v[i];
        let a: String = joined3(m.scenario.as_str(), ",", number_text(m.operations).as_str());
        let b: String = joined3(a.as_str(), ",", number_text(m.bytes).as_str());
        let c: String = joined3(b.as_str(), ",", m.checksum.as_str());
        let row: String = joined(c.as_str(), "\n");
        proof {
            assert(row@ =~= csv_row(*m));
        }
        out = joined(out.as_str(), row.as_str());
        i = i + 1;
    }
    out
}

/// What a command wrote, without the space around it. `status` is the rendered exit status, and
/// `stdout` the text that it wrote.
pub fn command_stdout(
    program: &str,
    arguments: &Vec<String>,
    succeeded: bool,
    status: &str,
    stdout: &str,
) -> (r: Checked<String>)
    ensures
        if succeeded {
            r matches Ok(t) && t@ == trimmed(stdout@)
        } else {
            failed(
                r,
                program@ + " "@ + joined_with(texts(arguments@), " "@) + " failed with "@
                    + status@,
            )
        },
{
    if !succeeded {
        let all: String = join(arguments, " ");
        let command: String = joined3(program, " ", all.as_str());
        return Err(failure(joined3(command.as_str(), " failed with ", status).as_str()));
    }
    Ok(trim(stdout))
}

} // verus!
