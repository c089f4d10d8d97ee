//! The client's command lines, its answers and the waits for them.

use vstd::prelude::*;

use crate::application::{
    accept_input, accept_success, assert_error, captured_text, failed_exit_arguments, joined_path,
    one_json_line, poll_fails, read_run, run_command, shutdown, wait_for_failed_exit,
    wait_for_readiness, wait_for_run, wait_until, CliOutput, CliRunner, Poll,
};
use crate::digest::{blake3_hex, content_digest, content_identity, hash_file, is_preserved};
use crate::failure::{failed, Checked};
use crate::harness;
use crate::json::{at, Json, Tree};
use crate::text::{lines_of, texts};

verus! {

/// A command line names the endpoint, the credential and JSON before its arguments, which follow
/// unchanged, and is refused exactly where one of them is the database path.
pub proof fn commands_keep_their_arguments(
    runner: &CliRunner,
    arguments: &Vec<String>,
    r: Checked<Vec<String>>,
)
    requires
        call_ensures(CliRunner::run, (runner, arguments), r),
    ensures
        r is Err <==> exists|i: int|
            0 <= i < arguments@.len() && (#[trigger] arguments@[i])@
                == runner.forbidden_storage_path@,
        r is Err ==> failed(r, "CLI invocation received the database path"@),
        r matches Ok(v) ==> {
            &&& v@.len() == arguments@.len() + 5
            &&& v@[0]@ == "--endpoint"@ && v@[1]@ == runner.endpoint@
            &&& v@[2]@ == "--token-file"@ && v@[3]@ == runner.token_file@
            &&& v@[4]@ == "--json"@
            &&& forall|i: int|
                0 <= i < arguments@.len() ==> v@[i + 5]@ == (#[trigger] arguments@[i])@
        },
{
    lemma_command(runner.endpoint@, runner.token_file@, arguments, r);
    lemma_forbidden(runner, arguments);
}

/// The same under a credential of its own.
pub proof fn commands_carry_the_given_credential(
    runner: &CliRunner,
    token_file: &str,
    arguments: &Vec<String>,
    r: Checked<Vec<String>>,
)
    requires
        call_ensures(CliRunner::run_with_token, (runner, token_file, arguments), r),
    ensures
        r is Err <==> exists|i: int|
            0 <= i < arguments@.len() && (#[trigger] arguments@[i])@
                == runner.forbidden_storage_path@,
        r matches Ok(v) ==> {
            &&& v@.len() == arguments@.len() + 5
            &&& v@[0]@ == "--endpoint"@ && v@[1]@ == runner.endpoint@
            &&& v@[2]@ == "--token-file"@ && v@[3]@ == token_file@
            &&& v@[4]@ == "--json"@
            &&& forall|i: int|
                0 <= i < arguments@.len() ==> v@[i + 5]@ == (#[trigger] arguments@[i])@
        },
{
    lemma_command(runner.endpoint@, token_file@, arguments, r);
    lemma_forbidden(runner, arguments);
}

proof fn lemma_command(
    endpoint: Seq<char>,
    token_file: Seq<char>,
    arguments: &Vec<String>,
    r: Checked<Vec<String>>,
)
    requires
        r matches Ok(v) ==> texts(v@) == seq![
            "--endpoint"@,
            endpoint,
            "--token-file"@,
            token_file,
            "--json"@,
        ] + texts(arguments@),
    ensures
        r matches Ok(v) ==> {
            &&& v@.len() == arguments@.len() + 5
            &&& v@[0]@ == "--endpoint"@ && v@[1]@ == endpoint
            &&& v@[2]@ == "--token-file"@ && v@[3]@ == token_file
            &&& v@[4]@ == "--json"@
            &&& forall|i: int|
                0 <= i < arguments@.len() ==> v@[i + 5]@ == (#[trigger] arguments@[i])@
        },
{
    if r is Ok {
        let v = r->Ok_0;
        let t = texts(v@);
        assert(t.len() == v@.len());
        assert(texts(arguments@).len() == arguments@.len());
        assert(forall|i: int| 0 <= i < v@.len() ==> #[trigger] t[i] == v@[i]@);
        assert(t[0] == v@[0]@ && t[1] == v@[1]@ && t[2] == v@[2]@ && t[3] == v@[3]@ && t[4]
            == v@[4]@);
        assert forall|i: int| 0 <= i < arguments@.len() implies v@[i + 5]@ == (
        #[trigger] arguments@[i])@ by {
            assert(texts(arguments@)[i] == arguments@[i]@);
            assert(t[i + 5] == texts(arguments@)[i]);
        }
    }
}

proof fn lemma_forbidden(runner: &CliRunner, arguments: &Vec<String>)
    ensures
        texts(arguments@).contains(runner.forbidden_storage_path@) <==> exists|i: int|
            0 <= i < arguments@.len() && (#[trigger] arguments@[i])@
                == runner.forbidden_storage_path@,
{
    let t = texts(arguments@);
    assert(t.len() == arguments@.len());
    assert(forall|i: int| 0 <= i < t.len() ==> #[trigger] t[i] == arguments@[i]@);
    if t.contains(runner.forbidden_storage_path@) {
        let i = choose|i: int| 0 <= i < t.len() && t[i] == runner.forbidden_storage_path@;
        assert(arguments@[i]@ == runner.forbidden_storage_path@);
    }
    if exists|i: int|
        0 <= i < arguments@.len() && (#[trigger] arguments@[i])@ == runner.forbidden_storage_path@ {
        let i = choose|i: int|
            0 <= i < arguments@.len() && (#[trigger] arguments@[i])@
                == runner.forbidden_storage_path@;
        assert(t[i] == runner.forbidden_storage_path@);
    }
}

/// A document is taken from exactly one line without an escape, and is that line.
pub proof fn one_line_is_taken(text: &str, r: Checked<String>)
    requires
        call_ensures(one_json_line, (text,), r),
    ensures
        r is Ok <==> lines_of(text@).len() == 1 && !lines_of(text@)[0].contains('\u{1b}'),
        r matches Ok(line) ==> line@ == lines_of(text@)[0],
        lines_of(text@).len() == 0 ==> failed(r, "expected one JSON document"@),
        lines_of(text@).len() > 1 ==> failed(r, "expected exactly one JSON document"@),
{
}

/// A command succeeded exactly where it ended with 0 and printed one line, and its document is that
/// of the line.
pub proof fn successes_ended_with_zero(output: &CliOutput, r: Checked<Json>)
    requires
        call_ensures(accept_success, (output,), r),
    ensures
        r matches Ok(j) ==> output.code == Some(0i32) && lines_of(output.stdout@).len() == 1
            && !lines_of(output.stdout@)[0].contains('\u{1b}') && (output.document matches Ok(d)
            && d@ == j@),
        output.code == Some(0i32) && lines_of(output.stdout@).len() == 1 && !lines_of(
            output.stdout@,
        )[0].contains('\u{1b}') && output.document is Ok ==> r is Ok,
        output.document matches Err(e) ==> (output.code == Some(0i32) && lines_of(
            output.stdout@,
        ).len() == 1 && !lines_of(output.stdout@)[0].contains('\u{1b}') ==> failed(r, e@)),
{
}

/// What a runner takes as a success is what any client's success is.
pub proof fn runners_take_successes(
    runner: &CliRunner,
    output: &CliOutput,
    r: Checked<Json>,
    same: Checked<Json>,
)
    requires
        call_ensures(CliRunner::success, (runner, output), r),
        call_ensures(accept_success, (output,), same),
    ensures
        r is Ok <==> same is Ok,
        r is Ok ==> r->Ok_0@ == same->Ok_0@,
        r is Err ==> r->Err_0.message@ == same->Err_0.message@,
{
}

/// A refusal is accepted exactly where it has the documented exit, nothing on standard error, and
/// one line that is a final failure of the second schema with the documented class and code.
pub proof fn refusals_are_typed(
    output: &CliOutput,
    exit: i32,
    classification: &str,
    daemon_code: Option<&str>,
    r: Checked<()>,
)
    requires
        call_ensures(assert_error, (output, exit, classification, daemon_code), r),
    ensures
        r is Ok <==> {
            &&& output.code == Some(exit)
            &&& output.stderr@.len() == 0
            &&& lines_of(output.stdout@).len() == 1 && !lines_of(output.stdout@)[0].contains(
                '\u{1b}',
            )
            &&& output.document matches Ok(d) && at(d@, "status"@) == Tree::Text("failure"@) && at(
                d@,
                "schema_version"@,
            ) == Tree::Integer(2) && at(d@, "final"@) == Tree::Bool(true) && at(
                d@,
                "error,classification"@,
            ) == Tree::Text(classification@) && (daemon_code matches Some(c) ==> at(
                d@,
                "error,daemon_code"@,
            ) == Tree::Text(c@))
        },
{
}

/// A failed run is one that ended with 8 and is classified as a failed terminal.
pub proof fn failed_runs_end_with_eight(output: &CliOutput, r: Checked<()>)
    requires
        call_ensures(wait_for_failed_exit, (output,), r),
    ensures
        r is Ok <==> {
            &&& output.code == Some(8i32)
            &&& output.stderr@.len() == 0
            &&& lines_of(output.stdout@).len() == 1 && !lines_of(output.stdout@)[0].contains(
                '\u{1b}',
            )
            &&& output.document matches Ok(d) && at(d@, "status"@) == Tree::Text("failure"@) && at(
                d@,
                "schema_version"@,
            ) == Tree::Integer(2) && at(d@, "final"@) == Tree::Bool(true) && at(
                d@,
                "error,classification"@,
            ) == Tree::Text("failed_terminal"@)
        },
{
}

/// A failed run is waited for by its own name, for five seconds.
pub proof fn failed_runs_are_waited_for(run: &str, r: Vec<String>)
    requires
        call_ensures(failed_exit_arguments, (run,), r),
    ensures
        r@.len() == 5,
        r@[0]@ == "--timeout-secs"@ && r@[1]@ == "5"@,
        r@[2]@ == "run"@ && r@[3]@ == "wait"@ && r@[4]@ == run@,
{
    let t = texts(r@);
    assert(t.len() == r@.len());
    assert(t[0] == r@[0]@ && t[1] == r@[1]@ && t[2] == r@[2]@ && t[3] == r@[3]@ && t[4] == r@[4]@);
}

/// The harness accepts a refusal exactly where it has the documented exit, nothing on standard
/// output, and one line of a typed error with the documented class and code on standard error.
pub proof fn diagnostics_are_typed(
    output: &CliOutput,
    exit: i32,
    classification: &str,
    daemon_code: Option<&str>,
    r: Checked<()>,
)
    requires
        call_ensures(harness::assert_error, (output, exit, classification, daemon_code), r),
    ensures
        r is Ok <==> {
            &&& output.code == Some(exit)
            &&& output.stdout@.len() == 0
            &&& lines_of(output.stderr@).len() == 1 && !lines_of(output.stderr@)[0].contains(
                '\u{1b}',
            )
            &&& output.document matches Ok(d) && at(d@, "type"@) == Tree::Text("error"@) && at(
                d@,
                "value,classification"@,
            ) == Tree::Text(classification@) && (daemon_code matches Some(c) ==> at(
                d@,
                "value,daemon_code"@,
            ) == Tree::Text(c@))
        },
{
}

/// The harness waits until a run ends with 8: another exit is looked at again before the deadline
/// and never after it, and an exit of 8 ends the wait at once.
pub proof fn failed_exits_are_polled(output: &CliOutput, expired: bool, r: Poll<()>)
    requires
        call_ensures(harness::wait_for_failed_exit, (output, expired), r),
    ensures
        r is Again <==> output.code != Some(8i32) && !expired,
        output.code != Some(8i32) && expired ==> poll_fails(
            r,
            "failed run did not reach the stable failed-terminal exit"@,
        ),
        r is Ready <==> {
            &&& output.code == Some(8i32)
            &&& output.stdout@.len() == 0
            &&& lines_of(output.stderr@).len() == 1 && !lines_of(output.stderr@)[0].contains(
                '\u{1b}',
            )
            &&& output.document matches Ok(d) && at(d@, "type"@) == Tree::Text("error"@) && at(
                d@,
                "value,classification"@,
            ) == Tree::Text("failed_terminal"@)
        },
{
}

/// A daemon is ready exactly where it still runs and says so; one that exited never is, and the
/// deadline ends the wait for one that does not say so.
pub proof fn readiness_is_said_by_a_running_daemon(
    exited: Option<&str>,
    ready: bool,
    expired: bool,
    r: Poll<()>,
)
    requires
        call_ensures(wait_for_readiness, (exited, ready, expired), r),
    ensures
        r is Ready <==> exited is None && ready,
        r is Again <==> exited is None && !ready && !expired,
        exited matches Some(s) ==> poll_fails(r, "daemon exited before readiness: "@ + s@),
{
}

/// The same in the harness, which tells what the daemon printed.
pub proof fn harness_readiness_is_said_by_a_running_daemon(
    exited: Option<&str>,
    ready: bool,
    stderr: &str,
    expired: bool,
    r: Poll<()>,
)
    requires
        call_ensures(harness::wait_for_readiness, (exited, ready, stderr, expired), r),
    ensures
        r is Ready <==> exited is None && ready,
        r is Again <==> exited is None && !ready && !expired,
        exited matches Some(s) ==> poll_fails(r, "daemon exited before readiness: "@ + s@),
        exited is None && !ready && expired ==> poll_fails(
            r,
            "daemon did not become ready: "@ + stderr@,
        ),
{
}

/// A run is read only from a command that ended with 0; the wait for it ends with the state that
/// was read, with what made it unreadable, or at the deadline.
pub proof fn runs_are_waited_for(
    run: &str,
    stdout: &str,
    read: Option<Checked<Json>>,
    reached: bool,
    expired: bool,
    r: Poll<Json>,
)
    requires
        call_ensures(wait_for_run, (run, stdout, read, reached, expired), r),
    ensures
        r is Ready <==> reached && (read matches Some(Ok(_))),
        r matches Poll::Ready { value } ==> (read matches Some(Ok(j)) && value@ == j@),
        r is Again <==> !expired && !(read matches Some(Err(_))) && !(reached && (read matches Some(
            Ok(_),
        ))),
        read matches Some(Err(f)) ==> poll_fails(r, f.message@),
{
}

/// A run is read exactly where the command ended with 0.
pub proof fn runs_are_read_from_successes(output: &CliOutput, r: Option<Checked<Json>>)
    requires
        call_ensures(read_run, (output,), r),
    ensures
        r is Some <==> output.code == Some(0i32),
        r matches Some(Ok(j)) ==> lines_of(output.stdout@).len() == 1 && (output.document matches Ok(
            d,
        ) && d@ == j@),
        output.code == Some(0i32) && lines_of(output.stdout@).len() == 1 && !lines_of(
            output.stdout@,
        )[0].contains('\u{1b}') && output.document is Ok ==> (r matches Some(Ok(_))),
{
}

/// A child may print eight mebibytes on either stream and not a byte more; within that it is done
/// once it exited, and late once its deadline passed.
pub proof fn children_are_bounded(
    stdout_bytes: u64,
    stderr_bytes: u64,
    exited: bool,
    expired: bool,
    r: Poll<()>,
)
    requires
        call_ensures(run_command, (stdout_bytes, stderr_bytes, exited, expired), r),
    ensures
        r is Ready <==> exited && stdout_bytes <= 8388608 && stderr_bytes <= 8388608,
        r is Again <==> !exited && !expired && stdout_bytes <= 8388608 && stderr_bytes <= 8388608,
        stdout_bytes > 8388608 || stderr_bytes > 8388608 ==> poll_fails(
            r,
            "child output exceeds evidence bound"@,
        ),
{
}

/// A child is given eight mebibytes at most.
pub proof fn inputs_are_bounded(bytes: &[u8], r: Checked<()>)
    requires
        call_ensures(accept_input, (bytes,), r),
    ensures
        r is Ok <==> bytes@.len() <= 8388608,
{
}

/// Captured bytes within the bound are a text exactly where they are UTF-8, and then that text.
pub proof fn captured_texts_are_their_bytes(bytes: Vec<u8>, r: Checked<Option<String>>)
    requires
        call_ensures(captured_text, (bytes,), r),
    ensures
        r is Err <==> bytes@.len() > 8388608,
        r matches Ok(Some(s)) ==> vstd::utf8::valid_utf8(bytes@) && s@ == vstd::utf8::decode_utf8(
            bytes@,
        ),
        r matches Ok(None) ==> !vstd::utf8::valid_utf8(bytes@),
{
}

/// An owned child is waited for until it exits or is late, and a daemon was shut down only where
/// its signal arrived and it ended well.
pub proof fn children_are_owned(
    exited: bool,
    expired: bool,
    waited: Poll<()>,
    delivered: bool,
    ended: bool,
    r: Checked<()>,
)
    requires
        call_ensures(wait_until, (exited, expired), waited),
        call_ensures(shutdown, (delivered, ended), r),
    ensures
        waited is Ready <==> exited,
        waited is Again <==> !exited && !expired,
        r is Ok <==> delivered && ended,
        !delivered ==> failed(r, "owned daemon signal delivery failed"@),
{
}

/// A relative name stands under its directory behind one slash, and an absolute one stays.
pub proof fn names_stand_under_directories(directory: &str, name: &str, r: String)
    requires
        call_ensures(joined_path, (directory, name), r),
    ensures
        name@.len() > 0 && name@[0] == '/' ==> r@ == name@,
        !(name@.len() > 0 && name@[0] == '/') ==> directory@.is_prefix_of(r@) && name@
            == r@.skip(r@.len() - name@.len()),
        !(name@.len() > 0 && name@[0] == '/') && directory@.len() > 0 && directory@.last() != '/'
            ==> r@.len() == directory@.len() + 1 + name@.len() && r@[directory@.len() as int]
            == '/',
        !(name@.len() > 0 && name@[0] == '/') && (directory@.len() == 0 || directory@.last() == '/')
            ==> r@.len() == directory@.len() + name@.len(),
{
    reveal_strlit("/");
    if !(name@.len() > 0 && name@[0] == '/') {
        assert(r@.skip(r@.len() - name@.len()) =~= name@);
        assert(r@.subrange(0, directory@.len() as int) =~= directory@);
    }
}

/// What is hashed has the expected size and is named by the digest of its very bytes.
pub proof fn hashes_are_of_the_bytes(
    bytes: &[u8],
    expected: u64,
    r: Checked<(String, u64)>,
    digest: String,
    identity: String,
)
    requires
        call_ensures(hash_file, (bytes, expected), r),
        call_ensures(content_digest, (bytes,), digest),
        call_ensures(content_identity, (bytes,), identity),
    ensures
        r is Ok <==> bytes@.len() == expected,
        r matches Ok((named, size)) ==> named@ == "b3_"@ + blake3_hex(bytes@) && size == expected,
        digest@ == blake3_hex(bytes@),
        identity@ == "b3_"@ + digest@,
{
}

/// A file was preserved exactly where it has the recorded size and digest.
pub proof fn files_are_preserved_whole(bytes: &[u8], size: u64, digest: &str, r: bool)
    requires
        call_ensures(is_preserved, (bytes, size, digest), r),
    ensures
        r <==> bytes@.len() == size && blake3_hex(bytes@) == digest@,
{
}

} // verus!
