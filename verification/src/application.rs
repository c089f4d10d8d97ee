//! Decisions at the boundary to child processes: their command lines, their bounded output and the
//! JSON documents that the command-line client answers with.

use vstd::prelude::*;
use vstd::string::*;

use crate::failure::{ensure, failed, failure, Checked};
use crate::json::{and, at, with, Json, Tree};
use crate::text::{
    chars_of, contains, decimal, joined, joined3, lemma_texts_push, lines, lines_of, number_text,
    part, same_text, texts,
};

verus! {

/// The most bytes that a child may be given or may write to one stream.
pub const MAX_CAPTURE: u64 = 8388608;

/// An invocation boundary to the actual client; the database is never an argument.
#[derive(Debug)]
pub struct CliRunner {
    /// Built client executable.
    pub executable: String,
    /// Loopback daemon endpoint.
    pub endpoint: String,
    /// Private credential reference.
    pub token_file: String,
    /// Storage path forbidden in client arguments.
    pub forbidden_storage_path: String,
}

/// A captured child result. The document is what parsing its one output line gave.
#[derive(Debug)]
pub struct CliOutput {
    /// Exit code, where the child ended with one.
    pub code: Option<i32>,
    /// Bounded standard output.
    pub stdout: String,
    /// Bounded standard error.
    pub stderr: String,
    /// The parsed output line, or the parser's reason against it.
    pub document: Result<Json, String>,
}

/// The texts of borrowed arguments.
pub open spec fn words(v: Seq<&str>) -> Seq<Seq<char>> {
    v.map_values(|s: &str| s@)
}

/// The client's whole command line for arguments under a credential.
pub open spec fn command_line(
    endpoint: Seq<char>,
    token_file: Seq<char>,
    arguments: Seq<Seq<char>>,
) -> Seq<Seq<char>> {
    seq!["--endpoint"@, endpoint, "--token-file"@, token_file, "--json"@] + arguments
}

fn add_word(out: &mut Vec<String>, word: &str)
    ensures
        texts(final(out)@) == texts(old(out)@).push(word@),
{
    let w: String = word.to_owned();
    proof {
        lemma_texts_push(out@, w);
    }
    out.push(w);
}

pub open spec fn texts_result(r: Checked<Vec<String>>) -> Result<Seq<Seq<char>>, Seq<char>> {
    match r {
        Ok(v) => Ok(texts(v@)),
        Err(f) => Err(f.message@),
    }
}

impl CliRunner {
    /// The command line under the runner's own credential.
    pub fn run(&self, arguments: &Vec<String>) -> (r: Checked<Vec<String>>)
        ensures
            texts_result(r) == (if texts(arguments@).contains(self.forbidden_storage_path@) {
                Err::<Seq<Seq<char>>, Seq<char>>("CLI invocation received the database path"@)
            } else {
                Ok(command_line(self.endpoint@, self.token_file@, texts(arguments@)))
            }),
    {
        self.run_with_token(self.token_file.as_str(), arguments)
    }

    /// The command line under an explicit credential file: refused where an argument is the
    /// database path.
    pub fn run_with_token(&self, token_file: &str, arguments: &Vec<String>) -> (r: Checked<
        Vec<String>,
    >)
        ensures
            texts_result(r) == (if texts(arguments@).contains(self.forbidden_storage_path@) {
                Err::<Seq<Seq<char>>, Seq<char>>("CLI invocation received the database path"@)
            } else {
                Ok(command_line(self.endpoint@, token_file@, texts(arguments@)))
            }),
    {
        ensure(
            !crate::text::listed(arguments, self.forbidden_storage_path.as_str()),
            "CLI invocation received the database path",
        )?;
        let mut out: Vec<String> = Vec::new();
        proof {
            assert(texts(out@) =~= seq![]);
        }
        add_word(&mut out, "--endpoint");
        add_word(&mut out, self.endpoint.as_str());
        add_word(&mut out, "--token-file");
        add_word(&mut out, token_file);
        add_word(&mut out, "--json");
        let ghost head = texts(out@);
        let mut i: usize = 0;
        proof {
            assert(head =~= seq![
                "--endpoint"@,
                self.endpoint@,
                "--token-file"@,
                token_file@,
                "--json"@,
            ]);
            assert(head + texts(arguments@).take(0) =~= head);
        }
        while i < arguments.len()
            invariant
                i <= arguments.len(),
                texts(out@) == head + texts(arguments@).take(i as int),
            decreases arguments.len() - i,
        {
            add_word(&mut out, arguments[i].as_str());
            proof {
                assert(head + texts(arguments@).take(i + 1) =~= (head + texts(arguments@).take(
                    i as int,
                )).push(arguments@[i as int]@));
            }
            i = i + 1;
        }
        proof {
            assert(texts(arguments@).take(i as int) =~= texts(arguments@));
        }
        Ok(out)
    }

    /// The document of a successful answer.
    pub fn success(&self, output: &CliOutput) -> (r: Checked<Json>)
        ensures
            document_result(r) == success_of(output_view(*output)),
    {
        accept_success(output)
    }
}

/// A client answer as plain values.
pub struct OutputView {
    pub code: Option<i32>,
    pub stdout: Seq<char>,
    pub stderr: Seq<char>,
    pub document: Result<Tree, Seq<char>>,
}

pub open spec fn output_view(o: CliOutput) -> OutputView {
    OutputView {
        code: o.code,
        stdout: o.stdout@,
        stderr: o.stderr@,
        document: match o.document {
            Ok(j) => Ok(j@),
            Err(e) => Err(e@),
        },
    }
}

pub open spec fn document_result(r: Checked<Json>) -> Result<Tree, Seq<char>> {
    match r {
        Ok(j) => Ok(j@),
        Err(f) => Err(f.message@),
    }
}

/// The digits of a number, after a minus sign where it is negative.
pub open spec fn signed(n: int) -> Seq<char> {
    if n < 0 {
        "-"@ + decimal((-n) as nat)
    } else {
        decimal(n as nat)
    }
}

/// An exit code as a diagnostic shows it.
pub open spec fn code_text(code: Option<i32>) -> Seq<char> {
    match code {
        Some(c) => "Some("@ + signed(c as int) + ")"@,
        None => "None"@,
    }
}

fn show_code(code: Option<i32>) -> (r: String)
    ensures
        r@ == code_text(code),
{
    match code {
        Some(c) => {
            let number: String = if c < 0 {
                joined("-", number_text((-(c as i64)) as u64).as_str())
            } else {
                number_text(c as u64)
            };
            joined3("Some(", number.as_str(), ")")
        },
        None => "None".to_owned(),
    }
}

/// Why an output is not one line free of terminal escapes.
pub open spec fn line_problem(text: Seq<char>) -> Option<Seq<char>> {
    let l = lines_of(text);
    if l.len() == 0 {
        Some("expected one JSON document"@)
    } else if l.len() > 1 {
        Some("expected exactly one JSON document"@)
    } else if l[0].contains('\u{1b}') {
        Some("JSON output contained an ANSI escape"@)
    } else {
        None
    }
}

fn has_char(s: &str, c: char) -> (r: bool)
    ensures
        r == s@.contains(c),
{
    let chars: Vec<char> = chars_of(s);
    let mut i: usize = 0;
    while i < chars.len()
        invariant
            i <= chars.len(),
            chars@ == s@,
            forall|j: int| 0 <= j < i ==> s@[j] != c,
        decreases chars.len() - i,
    {
        if chars[i] == c {
            proof {
                assert(s@[i as int] == c);
            }
            return true;
        }
        i = i + 1;
    }
    false
}

/// The one line of an output that holds its JSON document.
pub fn one_json_line(text: &str) -> (r: Checked<String>)
    ensures
        match line_problem(text@) {
            Some(message) => failed(r, message),
            None => r matches Ok(line) && line@ == lines_of(text@)[0],
        },
{
    let mut all: Vec<String> = lines(text);
    let ghost view = texts(all@);
    ensure(all.len() > 0, "expected one JSON document")?;
    ensure(all.len() == 1, "expected exactly one JSON document")?;
    proof {
        assert(view[0] == all@[0]@);
    }
    ensure(!has_char(all[0].as_str(), '\u{1b}'), "JSON output contained an ANSI escape")?;
    Ok(all.swap_remove(0))
}

/// The document of a text, given what parsing its one line gave.
pub open spec fn line_document(text: Seq<char>, document: Result<Tree, Seq<char>>) -> Result<
    Tree,
    Seq<char>,
> {
    match line_problem(text) {
        Some(message) => Err(message),
        None => document,
    }
}

pub(crate) fn document_of(text: &str, document: &Result<Json, String>) -> (r: Checked<Json>)
    ensures
        document_result(r) == line_document(
            text@,
            match *document {
                Ok(j) => Ok(j@),
                Err(e) => Err(e@),
            },
        ),
{
    match one_json_line(text) {
        Err(f) => Err(f),
        Ok(_) => match document {
            Ok(j) => Ok(j.copy()),
            Err(e) => Err(failure(e.as_str())),
        },
    }
}

/// What a required success gives: the document of an answer that ended with code 0.
pub open spec fn success_of(o: OutputView) -> Result<Tree, Seq<char>> {
    if o.code != Some(0i32) {
        Err("CLI command failed with exit "@ + code_text(o.code) + ": "@ + o.stdout)
    } else {
        line_document(o.stdout, o.document)
    }
}

fn succeeded(output: &CliOutput) -> (r: bool)
    ensures
        r == (output.code == Some(0i32)),
{
    match output.code {
        Some(c) => c == 0,
        None => false,
    }
}

/// The document of a successful answer.
pub fn accept_success(output: &CliOutput) -> (r: Checked<Json>)
    ensures
        document_result(r) == success_of(output_view(*output)),
{
    if !succeeded(output) {
        let mut message: String = joined3(
            "CLI command failed with exit ",
            show_code(output.code).as_str(),
            ": ",
        );
        message.append(output.stdout.as_str());
        return Err(failure(message.as_str()));
    }
    document_of(output.stdout.as_str(), &output.document)
}

/// Why an answer is not the expected typed failure.
pub open spec fn error_problem(
    o: OutputView,
    exit: i32,
    classification: Seq<char>,
    daemon_code: Option<Seq<char>>,
) -> Option<Seq<char>> {
    if o.code != Some(exit) {
        Some(
            "CLI exit code was not stable: expected "@ + signed(exit as int) + ", observed "@
                + code_text(o.code) + ": "@ + o.stdout,
        )
    } else if o.stderr.len() > 0 {
        Some("JSON failure leaked diagnostics to stderr"@)
    } else {
        match line_document(o.stdout, o.document) {
            Err(message) => Some(message),
            Ok(d) => if at(d, "status"@) != Tree::Text("failure"@) || at(d, "schema_version"@)
                != Tree::Integer(2) || at(d, "final"@) != Tree::Bool(true) {
                Some("failure was not a typed JSON error"@)
            } else if at(d, "error,classification"@) != Tree::Text(classification) {
                Some("failure classification changed"@)
            } else {
                match daemon_code {
                    Some(code) => if at(d, "error,daemon_code"@) != Tree::Text(code) {
                        Some("daemon error code changed"@)
                    } else {
                        None
                    },
                    None => None,
                }
            },
        }
    }
}

/// Verifies the stable JSON failure and process exit classifications.
pub fn assert_error(
    output: &CliOutput,
    exit: i32,
    classification: &str,
    daemon_code: Option<&str>,
) -> (r: Checked<()>)
    ensures
        match error_problem(
            output_view(*output),
            exit,
            classification@,
            match daemon_code {
                Some(c) => Some(c@),
                None => None,
            },
        ) {
            Some(message) => failed(r, message),
            None => r is Ok,
        },
{
    let stable: bool = match output.code {
        Some(c) => c == exit,
        None => false,
    };
    if !stable {
        let number: String = if exit < 0 {
            joined("-", number_text((-(exit as i64)) as u64).as_str())
        } else {
            number_text(exit as u64)
        };
        let mut message: String = joined3(
            "CLI exit code was not stable: expected ",
            number.as_str(),
            ", observed ",
        );
        message.append(show_code(output.code).as_str());
        message.append(": ");
        message.append(output.stdout.as_str());
        return Err(failure(message.as_str()));
    }
    ensure(output.stderr.as_str().is_empty(), "JSON failure leaked diagnostics to stderr")?;
    let document: Json = document_of(output.stdout.as_str(), &output.document)?;
    ensure(
        document.is_text("status", "failure") && document.is_number("schema_version", 2)
            && document.is_flag("final", true),
        "failure was not a typed JSON error",
    )?;
    ensure(
        document.is_text("error,classification", classification),
        "failure classification changed",
    )?;
    match daemon_code {
        Some(code) => ensure(
            document.is_text("error,daemon_code", code),
            "daemon error code changed",
        ),
        None => Ok(()),
    }
}

/// What to ask the client for a run's end, bounded by its own deadline.
pub fn failed_exit_arguments(run: &str) -> (r: Vec<String>)
    ensures
        texts(r@) == seq!["--timeout-secs"@, "5"@, "run"@, "wait"@, run@],
{
    let mut out: Vec<String> = Vec::new();
    proof {
        assert(texts(out@) =~= seq![]);
    }
    add_word(&mut out, "--timeout-secs");
    add_word(&mut out, "5");
    add_word(&mut out, "run");
    add_word(&mut out, "wait");
    add_word(&mut out, run);
    out
}

/// Requires the client's failed-terminal exit in its answer on a run's end.
pub fn wait_for_failed_exit(output: &CliOutput) -> (r: Checked<()>)
    ensures
        match error_problem(output_view(*output), 8, "failed_terminal"@, None) {
            Some(message) => failed(r, message),
            None => r is Ok,
        },
{
    assert_error(output, 8, "failed_terminal", None)
}

/// What follows one poll.
#[derive(Debug)]
pub enum Poll<T> {
    /// The awaited state was reached.
    Ready { value: T },
    /// Poll again after a pause.
    Again,
    /// The state cannot be reached.
    Failed { message: String },
}

pub open spec fn poll_fails<T>(r: Poll<T>, message: Seq<char>) -> bool {
    r matches Poll::Failed { message: m } && m@ == message
}

/// One readiness poll: a daemon that exited, or that is not ready at the deadline, fails.
pub fn wait_for_readiness(exited: Option<&str>, ready: bool, expired: bool) -> (r: Poll<()>)
    ensures
        match exited {
            Some(status) => poll_fails(r, "daemon exited before readiness: "@ + status@),
            None => if ready {
                r is Ready
            } else if expired {
                poll_fails(r, "daemon did not become ready before its deadline"@)
            } else {
                r is Again
            },
        },
{
    match exited {
        Some(status) => Poll::Failed {
            message: joined("daemon exited before readiness: ", status),
        },
        None => if ready {
            Poll::Ready { value: () }
        } else if expired {
            Poll::Failed { message: "daemon did not become ready before its deadline".to_owned() }
        } else {
            Poll::Again
        },
    }
}

/// The client's answer to a run poll: its document where the answer was a success.
pub open spec fn run_read(o: OutputView) -> Option<Result<Tree, Seq<char>>> {
    if o.code == Some(0i32) {
        Some(line_document(o.stdout, o.document))
    } else {
        None
    }
}

pub fn read_run(output: &CliOutput) -> (r: Option<Checked<Json>>)
    ensures
        match r {
            Some(read) => run_read(output_view(*output)) == Some(document_result(read)),
            None => run_read(output_view(*output)) is None,
        },
{
    if succeeded(output) {
        Some(document_of(output.stdout.as_str(), &output.document))
    } else {
        None
    }
}

/// One poll of a run: done where its document has the awaited state, failed where the answer is no
/// document or the deadline has passed.
pub fn wait_for_run(
    run: &str,
    stdout: &str,
    read: Option<Checked<Json>>,
    reached: bool,
    expired: bool,
) -> (r: Poll<Json>)
    ensures
        match read {
            Some(Err(f)) => poll_fails(r, f.message@),
            Some(Ok(j)) if reached => r matches Poll::Ready { value } && value@ == j@,
            _ => if expired {
                poll_fails(
                    r,
                    "run "@ + run@ + " did not reach its bounded expected state: "@ + stdout@,
                )
            } else {
                r is Again
            },
        },
{
    if let Some(answer) = read {
        match answer {
            Err(f) => {
                return Poll::Failed { message: f.message };
            },
            Ok(j) => {
                if reached {
                    return Poll::Ready { value: j };
                }
            },
        }
    }
    if expired {
        let mut message: String = joined3(
            "run ",
            run,
            " did not reach its bounded expected state: ",
        );
        message.append(stdout);
        Poll::Failed { message }
    } else {
        Poll::Again
    }
}

/// One poll of a child whose output is captured in files: the output bound is held before its exit
/// and its deadline are looked at.
pub fn run_command(stdout_bytes: u64, stderr_bytes: u64, exited: bool, expired: bool) -> (r: Poll<
    (),
>)
    ensures
        if stdout_bytes > MAX_CAPTURE || stderr_bytes > MAX_CAPTURE {
            poll_fails(r, "child output exceeds evidence bound"@)
        } else if exited {
            r is Ready
        } else if expired {
            poll_fails(r, "child command exceeded its deadline"@)
        } else {
            r is Again
        },
{
    if stdout_bytes > MAX_CAPTURE || stderr_bytes > MAX_CAPTURE {
        Poll::Failed { message: "child output exceeds evidence bound".to_owned() }
    } else if exited {
        Poll::Ready { value: () }
    } else if expired {
        Poll::Failed { message: "child command exceeded its deadline".to_owned() }
    } else {
        Poll::Again
    }
}

/// Whether a child may be given an input.
pub fn accept_input(bytes: &[u8]) -> (r: Checked<()>)
    ensures
        r is Ok <==> bytes@.len() <= MAX_CAPTURE,
        r is Err ==> failed(r, "child input exceeds evidence bound"@),
{
    ensure(bytes.len() as u64 <= MAX_CAPTURE, "child input exceeds evidence bound")
}

/// The text of a captured stream, of which one byte more than the bound was read at most; none
/// where its bytes encode no text.
pub fn captured_text(bytes: Vec<u8>) -> (r: Checked<Option<String>>)
    ensures
        if bytes@.len() > MAX_CAPTURE {
            failed(r, "child output exceeds evidence bound"@)
        } else if !vstd::utf8::valid_utf8(bytes@) {
            r matches Ok(None)
        } else {
            r matches Ok(Some(s)) && s@ == vstd::utf8::decode_utf8(bytes@)
        },
{
    ensure(bytes.len() as u64 <= MAX_CAPTURE, "child output exceeds evidence bound")?;
    Ok(crate::http_fixture::decoded(bytes))
}

/// One poll of an owned child that was told to end.
pub fn wait_until(exited: bool, expired: bool) -> (r: Poll<()>)
    ensures
        if exited {
            r is Ready
        } else if expired {
            poll_fails(r, "owned child did not exit before its deadline"@)
        } else {
            r is Again
        },
{
    if exited {
        Poll::Ready { value: () }
    } else if expired {
        Poll::Failed { message: "owned child did not exit before its deadline".to_owned() }
    } else {
        Poll::Again
    }
}

/// The outcome of a graceful shutdown: the signal was delivered and the daemon ended with success.
pub fn shutdown(delivered: bool, ended: bool) -> (r: Checked<()>)
    ensures
        r is Ok <==> delivered && ended,
        !delivered ==> failed(r, "owned daemon signal delivery failed"@),
        delivered && !ended ==> failed(r, "daemon did not shut down successfully"@),
{
    ensure(delivered, "owned daemon signal delivery failed")?;
    ensure(ended, "daemon did not shut down successfully")
}

/// The last position of a scalar before `end`, or -1.
pub open spec fn last_position(s: Seq<char>, c: char, end: int) -> int
    decreases end,
{
    if end <= 0 {
        -1
    } else if s[end - 1] == c {
        end - 1
    } else {
        last_position(s, c, end - 1)
    }
}

/// Where the last piece of a path starts.
pub open spec fn piece_start(path: Seq<char>) -> int {
    last_position(path, '/', path.len() as int) + 1
}

/// A path without the empty and `.` pieces at its end; the root and a leading `.` stay.
pub open spec fn without_empty_end(path: Seq<char>) -> Seq<char>
    decreases path.len(),
    via without_empty_end_shortens
{
    let start = piece_start(path);
    let piece = path.skip(start);
    if start == 0 || !(piece.len() == 0 || piece == "."@) {
        path
    } else if start == 1 {
        "/"@
    } else {
        without_empty_end(path.take(start - 1))
    }
}

#[via_fn]
proof fn without_empty_end_shortens(path: Seq<char>) {
    lemma_last_position(path, '/', path.len() as int);
}

proof fn lemma_last_position(s: Seq<char>, c: char, end: int)
    requires
        end <= s.len(),
    ensures
        -1 <= last_position(s, c, end) < s.len() || s.len() == 0 && last_position(s, c, end) == -1,
    decreases end,
{
    if end > 0 && s[end - 1] != c {
        lemma_last_position(s, c, end - 1);
    }
}

/// The directory that a path stands in: the path without its last piece. The root and the empty
/// path stand in none.
pub open spec fn parent(path: Seq<char>) -> Option<Seq<char>> {
    let p = without_empty_end(path);
    let start = piece_start(p);
    if p.len() == 0 || p == "/"@ {
        None
    } else if start == 0 {
        Some(""@)
    } else if start == 1 {
        Some("/"@)
    } else {
        Some(without_empty_end(p.take(start - 1)))
    }
}

/// The name of a path: what follows its last slash.
pub open spec fn file_name(path: Seq<char>) -> Seq<char> {
    path.skip(last_position(path, '/', path.len() as int) + 1)
}

fn last_slash(chars: &Vec<char>) -> (r: Option<usize>)
    ensures
        match r {
            Some(i) => i < chars.len() && last_position(chars@, '/', chars@.len() as int) == i,
            None => last_position(chars@, '/', chars@.len() as int) == -1,
        },
{
    let mut i: usize = chars.len();
    while i > 0
        invariant
            i <= chars.len(),
            last_position(chars@, '/', chars@.len() as int) == last_position(chars@, '/', i as int),
        decreases i,
    {
        if chars[i - 1] == '/' {
            return Some(i - 1);
        }
        i = i - 1;
    }
    None
}

fn shortened(path: &str) -> (r: String)
    ensures
        r@ == without_empty_end(path@),
    decreases path@.len(),
{
    let chars: Vec<char> = chars_of(path);
    let start: usize = match last_slash(&chars) {
        None => 0,
        Some(i) => i + 1,
    };
    let piece: String = part(path, start, chars.len());
    proof {
        assert(piece@ =~= path@.skip(start as int));
    }
    if start == 0 || !(piece.as_str().is_empty() || same_text(piece.as_str(), ".")) {
        path.to_owned()
    } else if start == 1 {
        "/".to_owned()
    } else {
        let rest: String = part(path, 0, start - 1);
        proof {
            assert(rest@ =~= path@.take(start - 1));
        }
        shortened(rest.as_str())
    }
}

pub fn parent_directory(path: &str) -> (r: Option<String>)
    ensures
        crate::text::text_option(r) == parent(path@),
{
    let p: String = shortened(path);
    let chars: Vec<char> = chars_of(p.as_str());
    if chars.len() == 0 || same_text(p.as_str(), "/") {
        return None;
    }
    match last_slash(&chars) {
        None => Some("".to_owned()),
        Some(i) => {
            if i == 0 {
                Some("/".to_owned())
            } else {
                let rest: String = part(p.as_str(), 0, i);
                proof {
                    assert(rest@ =~= p@.take(i as int));
                }
                Some(shortened(rest.as_str()))
            }
        },
    }
}

fn named(path: &str) -> (r: String)
    ensures
        r@ == file_name(path@),
{
    let chars: Vec<char> = chars_of(path);
    let from: usize = match last_slash(&chars) {
        None => 0,
        Some(i) => i + 1,
    };
    let t: String = part(path, from, chars.len());
    proof {
        assert(t@ =~= path@.skip(from as int));
    }
    t
}

/// A path under a directory; an absolute path stays what it is.
pub open spec fn under(directory: Seq<char>, name: Seq<char>) -> Seq<char> {
    if name.len() > 0 && name[0] == '/' {
        name
    } else if directory.len() == 0 || directory.last() == '/' {
        directory + name
    } else {
        directory + "/"@ + name
    }
}

pub fn joined_path(directory: &str, name: &str) -> (r: String)
    ensures
        r@ == under(directory@, name@),
{
    let chars: Vec<char> = chars_of(directory);
    let named: Vec<char> = chars_of(name);
    if named.len() > 0 && named[0] == '/' {
        name.to_owned()
    } else if chars.len() == 0 || chars[chars.len() - 1] == '/' {
        joined(directory, name)
    } else {
        joined3(directory, "/", name)
    }
}

/// The sibling application of an executable, beside it or above a `deps` directory.
pub open spec fn sibling(executable: Seq<char>, file: Seq<char>) -> Result<Seq<char>, Seq<char>> {
    match parent(executable) {
        None => Err("executable directory is absent"@),
        Some(directory) => if file_name(directory) == "deps"@ {
            match parent(directory) {
                None => Err("Cargo profile directory is absent"@),
                Some(profile) => Ok(under(profile, file)),
            }
        } else {
            Ok(under(directory, file))
        },
    }
}

/// Locates a previously built sibling application by the path of the running executable.
pub fn application_binary(executable: &str, file: &str) -> (r: Checked<String>)
    ensures
        crate::endpoint::checked_text(r) == sibling(executable@, file@),
{
    match parent_directory(executable) {
        None => Err(failure("executable directory is absent")),
        Some(directory) => {
            if same_text(named(directory.as_str()).as_str(), "deps") {
                match parent_directory(directory.as_str()) {
                    None => Err(failure("Cargo profile directory is absent")),
                    Some(profile) => Ok(joined_path(profile.as_str(), file)),
                }
            } else {
                Ok(joined_path(directory.as_str(), file))
            }
        },
    }
}

/// Requires a built application where it was located.
pub fn require_application(is_file: bool) -> (r: Checked<()>)
    ensures
        r is Ok <==> is_file,
        !is_file ==> failed(
            r,
            "required application is absent; build milkdrift-daemon and milkdrift first"@,
        ),
{
    ensure(is_file, "required application is absent; build milkdrift-daemon and milkdrift first")
}

/// Requires a UTF-8 path at the client's argument boundary: the path's text, where it has one.
pub fn path_text<'a>(text: Option<&'a str>) -> (r: Checked<&'a str>)
    ensures
        match text {
            Some(t) => r matches Ok(s) && s@ == t@,
            None => failed(r, "fixture path is not UTF-8"@),
        },
{
    match text {
        Some(t) => Ok(t),
        None => Err(failure("fixture path is not UTF-8")),
    }
}

/// Requires a regular file where a built application is expected.
pub fn require_executable(is_file: bool) -> (r: Checked<()>)
    ensures
        r is Ok <==> is_file,
        !is_file ==> failed(r, "required binary path is not a file"@),
{
    ensure(is_file, "required binary path is not a file")
}

/// What stands under a chain of object keys.
pub open spec fn under_keys(t: Tree, path: Seq<&str>) -> Option<Tree>
    decreases path.len(),
{
    if path.len() == 0 {
        Some(t)
    } else {
        match t {
            Tree::Object(m) => if m.contains_key(path[0]@) {
                under_keys(m[path[0]@], path.skip(1))
            } else {
                None
            },
            _ => None,
        }
    }
}

fn follow_keys<'a>(value: &'a Json, path: &[&str]) -> (r: Option<&'a Json>)
    ensures
        crate::json::tree_option(r) == under_keys(value@, path@),
{
    let mut current: &'a Json = value;
    let mut i: usize = 0;
    proof {
        assert(path@.skip(0) =~= path@);
    }
    while i < path.len()
        invariant
            i <= path.len(),
            under_keys(value@, path@) == under_keys(current@, path@.skip(i as int)),
        decreases path.len() - i,
    {
        proof {
            assert(path@.skip(i as int).skip(1) =~= path@.skip(i + 1));
            assert(path@.skip(i as int)[0] == path@[i as int]);
        }
        match current.entry(path[i]) {
            Some(next) => {
                current = next;
            },
            None => {
                return None;
            },
        }
        i = i + 1;
    }
    Some(current)
}

/// Reads a required textual field without defaulting missing evidence.
pub fn required_text(value: &Json, path: &[&str]) -> (r: Checked<String>)
    ensures
        match under_keys(value@, path@) {
            None => failed(r, "JSON field is absent"@),
            Some(Tree::Text(t)) => r matches Ok(s) && s@ == t,
            Some(_) => failed(r, "JSON field is not text"@),
        },
{
    match follow_keys(value, path) {
        None => Err(failure("JSON field is absent")),
        Some(Json::Text(t)) => Ok(t.as_str().to_owned()),
        Some(_) => Err(failure("JSON field is not text")),
    }
}

/// Reads a required unsigned field without defaulting missing evidence.
pub fn required_u64(value: &Json, path: &[&str]) -> (r: Checked<u64>)
    ensures
        match under_keys(value@, path@) {
            None => failed(r, "JSON field is absent"@),
            Some(Tree::Integer(n)) => if 0 <= n <= u64::MAX {
                r matches Ok(v) && v == n
            } else {
                failed(r, "JSON field is not an unsigned integer"@)
            },
            Some(_) => failed(r, "JSON field is not an unsigned integer"@),
        },
{
    match follow_keys(value, path) {
        None => Err(failure("JSON field is absent")),
        Some(Json::Unsigned(n)) => Ok(*n),
        Some(Json::Negative(n)) => if *n >= 0 {
            Ok(*n as u64)
        } else {
            Err(failure("JSON field is not an unsigned integer"))
        },
        Some(_) => Err(failure("JSON field is not an unsigned integer")),
    }
}

} // verus!
