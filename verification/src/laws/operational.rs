//! A daemon under load, and the scenarios that are measured.

use vstd::prelude::*;

use crate::application::{poll_fails, Poll};
use crate::digest::blake3_hex;
use crate::failure::{failed, Checked};
use crate::operational::{
    candidate_name, check_medium_load, check_operations, check_process_helper, check_queue,
    check_tasks, command_stdout, context_discovery_and_selection, context_materialization, csv_of,
    daemon_owner_round_trip, execution_names, loaded, local_process_stream_drain,
    measure_daemon_saturation, observes_health, parse_arguments, recovery, requested,
    stream_resumed, summary, DaemonEvidence, Load, Outcome, Phases, Request, ScenarioMeasurement,
};
use crate::text::{decimal, joined_with, texts, trimmed, unsigned};

verus! {

/// An owner answers where it is ready with a queue of four.
pub proof fn owners_have_four_places(ready: bool, queue_capacity: u32, r: Checked<()>)
    requires
        call_ensures(daemon_owner_round_trip, (ready, queue_capacity), r),
    ensures
        r is Ok <==> ready && queue_capacity == 4,
        r is Err ==> failed(r, "daemon health contract changed"@),
{
}

/// Evidence of a load needs sixty-four requests.
pub proof fn loads_need_requests(operations: u32, r: Checked<()>)
    requires
        call_ensures(check_operations, (operations,), r),
    ensures
        r is Ok <==> operations >= 64,
        r is Err ==> failed(r, "daemon evidence needs at least 64 requests"@),
{
}

/// A saturated daemon is ready with a queue of one.
pub proof fn saturated_queues_have_one_place(ready: bool, queue_capacity: u32, r: Checked<()>)
    requires
        call_ensures(check_queue, (ready, queue_capacity), r),
    ensures
        r is Ok <==> ready && queue_capacity == 1,
        r is Err ==> failed(r, "daemon queue bound is not observable"@),
{
}

/// A daemon stays ready under a medium load.
pub proof fn medium_loads_are_served(ready: bool, r: Checked<()>)
    requires
        call_ensures(check_medium_load, (ready,), r),
    ensures
        r is Ok <==> ready,
        r is Err ==> failed(r, "medium-load health request was not ready"@),
{
}

/// Health is observed on the feed of the daemon's health, where it says that it is ready.
pub proof fn health_is_observed(feed: &str, ready: Option<bool>, r: bool)
    requires
        call_ensures(observes_health, (feed, ready), r),
    ensures
        r <==> feed@ == "daemon-health"@ && ready == Some(true),
{
}

/// A load begins with nothing.
pub proof fn loads_begin_empty(r: Load)
    requires
        call_ensures(Load::new, (), r),
    ensures
        r.accepted == 0 && r.overloaded == 0,
{
}

/// One more request counts as accepted where it was answered as ready, and as overloaded where it
/// was turned away; any other answer ends the evidence.
pub proof fn requests_are_counted(accepted: u64, overloaded: u64, outcome: Outcome)
    ensures
        accepted < u64::MAX && outcome is Ready ==> loaded(accepted, overloaded, outcome) == Ok::<
            (int, int),
            Seq<char>,
        >((accepted + 1, overloaded as int)),
        overloaded < u64::MAX && outcome is Overload ==> loaded(accepted, overloaded, outcome)
            == Ok::<(int, int), Seq<char>>((accepted as int, overloaded + 1)),
        outcome is NotReady ==> loaded(accepted, overloaded, outcome) == Err::<
            (int, int),
            Seq<char>,
        >("daemon became non-ready under load"@),
        outcome matches Outcome::Refused { message } ==> loaded(accepted, overloaded, outcome)
            == Err::<(int, int), Seq<char>>(message@),
{
}

/// A load is evidence exactly where every request was counted and at least one was turned away.
pub proof fn loads_prove_overload(load: &Load, operations: u32, r: Checked<()>)
    requires
        call_ensures(Load::check, (load, operations), r),
    ensures
        r is Ok <==> load.accepted + load.overloaded == operations && load.overloaded > 0,
        r is Err ==> failed(r, "saturated phase did not prove bounded overload"@),
{
}

/// A daemon recovers once it answers; it is asked again only while it turns requests away and the
/// deadline has not passed.
pub proof fn daemons_recover(outcome: &Outcome, expired: bool, r: Poll<bool>)
    requires
        call_ensures(recovery, (outcome, expired), r),
    ensures
        *outcome is Ready <==> (r matches Poll::Ready { value } && value),
        *outcome is NotReady <==> (r matches Poll::Ready { value } && !value),
        r is Again <==> *outcome is Overload && !expired,
        *outcome matches Outcome::Refused { message } ==> poll_fails(r, message@),
        *outcome matches Outcome::Overload { message } ==> (expired ==> poll_fails(r, message@)),
{
}

/// A load leaves at most eight tasks more than there were, where both are known.
pub proof fn tasks_stay_bounded(before: Option<u64>, after: Option<u64>, r: Checked<()>)
    requires
        call_ensures(check_tasks, (before, after), r),
    ensures
        r is Ok <==> (before matches Some(b) ==> (after matches Some(a) ==> a <= b + 8)),
        r is Err ==> failed(r, "daemon load left unbounded process tasks"@),
{
}

/// A stream is resumed by a ready health observation under another cursor than before.
pub proof fn streams_are_resumed(
    before: Option<&str>,
    cursor: &str,
    feed: &str,
    ready: Option<bool>,
    r: bool,
)
    requires
        call_ensures(stream_resumed, (before, cursor, feed, ready), r),
    ensures
        r <==> (before matches Some(b) ==> b@ != cursor@) && feed@ == "daemon-health"@ && ready
            == Some(true),
{
}

/// Saturation is measured exactly where there were requests enough, all counted and some turned
/// away, the tasks stayed bounded, and the daemon recovered, was observed, was reached again and
/// shut down; the evidence has what was measured.
pub proof fn saturation_is_measured(operations: u32, phases: Phases, r: Checked<DaemonEvidence>)
    requires
        call_ensures(measure_daemon_saturation, (operations, phases), r),
    ensures
        r is Ok <==> {
            &&& operations >= 64
            &&& phases.load.accepted + phases.load.overloaded == operations
            &&& phases.load.overloaded > 0
            &&& phases.tasks_before matches Some(b) ==> (phases.tasks_after matches Some(a) ==> a
                <= b + 8)
            &&& phases.graceful_shutdown
            &&& phases.recovered
            &&& phases.slow_consumer_observed
            &&& phases.stream_reconnected
        },
        r matches Ok(e) ==> e.queue_capacity == 1 && e.accepted == phases.load.accepted
            && e.overloaded == phases.load.overloaded && e.latency@ == phases.latency@
            && e.tasks_before == phases.tasks_before && e.tasks_after == phases.tasks_after,
        operations < 64 ==> failed(r, "daemon evidence needs at least 64 requests"@),
{
}

/// The helper has to be named.
pub proof fn helpers_are_named(named: bool, r: Checked<()>)
    requires
        call_ensures(check_process_helper, (named,), r),
    ensures
        r is Ok <==> named,
{
}

/// A drained process succeeded and wrote a quarter of a mebibyte to each of its streams; it is
/// measured by its events, both streams together and the digest of the evidence.
pub proof fn streams_are_drained(
    succeeded: bool,
    stdout: Option<u64>,
    stderr: Option<u64>,
    events: u64,
    evidence: &[u8],
    r: Checked<ScenarioMeasurement>,
)
    requires
        call_ensures(local_process_stream_drain, (succeeded, stdout, stderr, events, evidence), r),
    ensures
        r is Ok <==> succeeded && stdout == Some(262144u64) && stderr == Some(262144u64),
        r matches Ok(m) ==> m.scenario@ == "adapters/local_process_stdout_stderr_524288_bytes"@
            && m.operations == events && m.bytes == 524288 && m.checksum@ == blake3_hex(evidence@),
        !succeeded ==> failed(r, "local process fixture did not succeed"@),
        succeeded && stdout is None ==> failed(r, "stdout missing"@),
        succeeded && stdout is Some && stderr is None ==> failed(r, "stderr missing"@),
{
}

/// A selection has a hundred and twenty-eight entries, and tells of all two thousand and
/// forty-eight candidates.
pub proof fn selections_account_for_candidates(entries: usize, omissions: usize, r: Checked<()>)
    requires
        call_ensures(context_discovery_and_selection, (entries, omissions), r),
    ensures
        r is Ok <==> entries == 128 && omissions == 1920,
        r is Err ==> failed(r, "context selection accounting changed"@),
{
}

/// Sixty-four candidates are materialized.
pub proof fn selected_candidates_are_materialized(materialized: usize, r: Checked<()>)
    requires
        call_ensures(context_materialization, (materialized,), r),
    ensures
        r is Ok <==> materialized == 64,
        r is Err ==> failed(r, "selected-only materialization count changed"@),
{
}

proof fn lemma_zeros(n: int)
    ensures
        crate::operational::zeros(n).len() == if n > 0 {
            n
        } else {
            0
        },
        forall|i: int|
            0 <= i < crate::operational::zeros(n).len() ==> crate::operational::zeros(n)[i] == '0',
    decreases n,
{
    reveal_strlit("0");
    if n > 0 {
        lemma_zeros(n - 1);
    }
}

/// A padded number ends with its digits, has only zeros before them, and is as wide as asked where
/// the digits are not wider.
pub proof fn numbers_are_padded(index: u32, r: String)
    requires
        call_ensures(candidate_name, (index,), r),
    ensures
        exists|padding: Seq<char>|
            r@ == "prompt-"@ + (#[trigger] (padding + decimal(index as nat))) && (forall|i: int|
                0 <= i < padding.len() ==> padding[i] == '0') && (if decimal(index as nat).len() <= 5 {
                padding.len() + decimal(index as nat).len() == 5
            } else {
                padding.len() == 0
            }),
{
    let padding = crate::operational::zeros(5 - decimal(index as nat).len());
    lemma_zeros(5 - decimal(index as nat).len());
    assert(r@ == "prompt-"@ + (padding + decimal(index as nat)));
}

/// An execution and its attempt have one number, padded to four places.
pub proof fn executions_share_their_number(index: u32, r: (String, String))
    requires
        call_ensures(execution_names, (index,), r),
    ensures
        exists|number: Seq<char>| #[trigger]
            ("execution-"@ + number) == r.0@ && r.1@ == "attempt-"@ + number && number
                == crate::operational::padded(index as nat, 4),
{
    let number = crate::operational::padded(index as nat, 4);
    assert("execution-"@ + number == r.0@);
}

/// A command line without words asks for the standard output and number of operations.
pub proof fn requests_have_defaults(arguments: &Vec<String>, r: Checked<Request>)
    requires
        call_ensures(parse_arguments, (arguments,), r),
    ensures
        arguments@.len() == 0 ==> (r matches Ok(q) && q.output@ == "target/evidence"@
            && q.operations == 256),
{
    assert(texts(arguments@).len() == arguments@.len());
}

/// An option takes the word behind it, the last one of its kind stands, and any other word is
/// refused.
pub proof fn options_take_the_next_word(
    arguments: Seq<Seq<char>>,
    from: int,
    output: Seq<char>,
    operations: u32,
)
    requires
        0 <= from < arguments.len(),
    ensures
        arguments[from] == "--output"@ && from + 1 < arguments.len() ==> requested(
            arguments,
            from,
            output,
            operations,
        ) == requested(arguments, from + 2, arguments[from + 1], operations),
        arguments[from] == "--operations"@ && from + 1 < arguments.len() ==> (unsigned(
            arguments[from + 1],
            4294967295,
        ) matches Some(n) ==> requested(arguments, from, output, operations) == requested(
            arguments,
            from + 2,
            output,
            n as u32,
        )),
        arguments[from] == "--operations"@ && from + 1 < arguments.len() && unsigned(
            arguments[from + 1],
            4294967295,
        ) is None ==> requested(arguments, from, output, operations) is Err,
        arguments[from] == "--output"@ && from + 1 == arguments.len() ==> requested(
            arguments,
            from,
            output,
            operations,
        ) == Err::<(Seq<char>, u32), Seq<char>>("--output requires a directory"@),
        arguments[from] == "--operations"@ && from + 1 == arguments.len() ==> requested(
            arguments,
            from,
            output,
            operations,
        ) == Err::<(Seq<char>, u32), Seq<char>>("--operations requires a count"@),
        arguments[from] != "--output"@ && arguments[from] != "--operations"@ ==> requested(
            arguments,
            from,
            output,
            operations,
        ) == Err::<(Seq<char>, u32), Seq<char>>("unknown argument "@ + arguments[from]),
        requested(arguments, arguments.len() as int, output, operations) == Ok::<
            (Seq<char>, u32),
            Seq<char>,
        >((output, operations)),
{
    reveal_strlit("--output");
    reveal_strlit("--operations");
    assert("--output"@.len() != "--operations"@.len());
}

/// A summary has a heading, and for each measurement a row behind those before it.
pub proof fn summaries_have_a_row_each(v: &Vec<ScenarioMeasurement>, n: int, r: String)
    requires
        call_ensures(summary, (v,), r),
        0 < n <= v@.len(),
    ensures
        r@ == csv_of(v@, v@.len() as int),
        csv_of(v@, 0) == "scenario,operations,bytes,checksum\n"@,
        csv_of(v@, n) == csv_of(v@, n - 1) + (v@[n - 1].scenario@ + ","@ + decimal(
            v@[n - 1].operations as nat,
        ) + ","@ + decimal(v@[n - 1].bytes as nat) + ","@ + v@[n - 1].checksum@ + "\n"@),
{
}

/// A command's output is taken without the blanks around it, exactly where the command succeeded.
pub proof fn command_outputs_are_trimmed(
    program: &str,
    arguments: &Vec<String>,
    succeeded: bool,
    status: &str,
    stdout: &str,
    r: Checked<String>,
)
    requires
        call_ensures(command_stdout, (program, arguments, succeeded, status, stdout), r),
    ensures
        r is Ok <==> succeeded,
        r matches Ok(t) ==> t@ == trimmed(stdout@),
        r is Err ==> failed(
            r,
            program@ + " "@ + joined_with(texts(arguments@), " "@) + " failed with "@ + status@,
        ),
{
}

} // verus!
