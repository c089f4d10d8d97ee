//! The headless client's own boundary: typed failures arrive on standard error.

use vstd::prelude::*;
use vstd::string::*;

use crate::application::{line_document, output_view, poll_fails, CliOutput, OutputView, Poll};
use crate::failure::{ensure, failed, failure, Checked};
use crate::json::{at, Json, Tree};
use crate::text::joined;

verus! {

/// Why an answer is not the expected typed failure. The answer's document is that of its one line
/// on standard error.
pub open spec fn typed_problem(
    o: OutputView,
    exit: i32,
    classification: Seq<char>,
    daemon_code: Option<Seq<char>>,
) -> Option<Seq<char>> {
    if o.code != Some(exit) {
        Some("CLI exit code was not stable"@)
    } else if o.stdout.len() > 0 {
        Some("failed CLI command emitted success output"@)
    } else {
        match line_document(o.stderr, o.document) {
            Err(message) => Some(message),
            Ok(d) => if at(d, "type"@) != Tree::Text("error"@) {
                Some("failure was not a typed JSON error"@)
            } else if at(d, "value,classification"@) != Tree::Text(classification) {
                Some("failure classification changed"@)
            } else {
                match daemon_code {
                    Some(code) => if at(d, "value,daemon_code"@) != Tree::Text(code) {
                        Some("daemon error code changed"@)
                    } else {
                        None
                    },
                    None => None,
                }
            },
        }
    }
}

/// Verifies a typed failure on standard error and its process exit.
pub fn assert_error(
    output: &CliOutput,
    exit: i32,
    classification: &str,
    daemon_code: Option<&str>,
) -> (r: Checked<()>)
    ensures
        match typed_problem(
            output_view(*output),
            exit,
            classification@,
            match daemon_code {
                Some(c) => Some(c@),
                None => None,
            },
        ) {
            Some(message) => failed(r, message),
            None => r is Ok,
        },
{
    let stable: bool = match output.code {
        Some(c) => c == exit,
        None => false,
    };
    ensure(stable, "CLI exit code was not stable")?;
    ensure(output.stdout.as_str().is_empty(), "failed CLI command emitted success output")?;
    let document: Json = crate::application::document_of(output.stderr.as_str(), &output.document)?;
    ensure(document.is_text("type", "error"), "failure was not a typed JSON error")?;
    ensure(
        document.is_text("value,classification", classification),
        "failure classification changed",
    )?;
    match daemon_code {
        Some(code) => ensure(
            document.is_text("value,daemon_code", code),
            "daemon error code changed",
        ),
        None => Ok(()),
    }
}

/// One poll of a run that has to end in failure: its typed failure is checked as soon as the
/// client's exit tells of it.
pub fn wait_for_failed_exit(output: &CliOutput, expired: bool) -> (r: Poll<()>)
    ensures
        if output.code == Some(8i32) {
            match typed_problem(output_view(*output), 8, "failed_terminal"@, None) {
                Some(message) => poll_fails(r, message),
                None => r is Ready,
            }
        } else if expired {
            poll_fails(r, "failed run did not reach the stable failed-terminal exit"@)
        } else {
            r is Again
        },
{
    let failed_terminal: bool = match output.code {
        Some(c) => c == 8,
        None => false,
    };
    if failed_terminal {
        return match assert_error(output, 8, "failed_terminal", None) {
            Ok(_) => Poll::Ready { value: () },
            Err(f) => Poll::Failed { message: f.message },
        };
    }
    if expired {
        Poll::Failed {
            message: "failed run did not reach the stable failed-terminal exit".to_owned(),
        }
    } else {
        Poll::Again
    }
}

/// One readiness poll, with the client's diagnostics where the deadline passed.
pub fn wait_for_readiness(exited: Option<&str>, ready: bool, stderr: &str, expired: bool) -> (r:
    Poll<()>)
    ensures
        match exited {
            Some(status) => poll_fails(r, "daemon exited before readiness: "@ + status@),
            None => if ready {
                r is Ready
            } else if expired {
                poll_fails(r, "daemon did not become ready: "@ + stderr@)
            } else {
                r is Again
            },
        },
{
    match exited {
        Some(status) => Poll::Failed {
            message: joined("daemon exited before readiness: ", status),
        },
        None => if ready {
            Poll::Ready { value: () }
        } else if expired {
            Poll::Failed { message: joined("daemon did not become ready: ", stderr) }
        } else {
            Poll::Again
        },
    }
}

} // verus!
