//! The client's outputs, the waits on it and the located applications.

use milkdrift_evidence::application::{
    accept_input, accept_success, application_binary, assert_error, captured_text,
    failed_exit_arguments, one_json_line, path_text, read_run, require_application,
    require_executable, required_text, required_u64, run_command, shutdown, wait_for_failed_exit,
    wait_for_readiness, wait_for_run, wait_until, CliOutput, CliRunner, Poll,
};
use milkdrift_evidence::failure::Checked;
use milkdrift_evidence::harness;
use milkdrift_evidence::json::Json;
use serde_json::Value;

fn converted(value: &Value) -> Json {
    match value {
        Value::Null => Json::Null,
        Value::Bool(b) => Json::flag(*b),
        Value::Number(n) => match (n.as_u64(), n.as_i64()) {
            (Some(n), _) => Json::number(n),
            (None, Some(n)) => Json::Negative(n),
            (None, None) => Json::Real(n.to_string()),
        },
        Value::String(s) => Json::text(s),
        Value::Array(v) => Json::List(v.iter().map(converted).collect()),
        Value::Object(m) => {
            Json::Object(m.iter().map(|(k, v)| (k.clone(), converted(v))).collect())
        }
    }
}

fn value(json: &Json) -> Value {
    match json {
        Json::Null => Value::Null,
        Json::Bool(b) => Value::Bool(*b),
        Json::Unsigned(n) => Value::from(*n),
        Json::Negative(n) => Value::from(*n),
        Json::Real(text) => serde_json::from_str(text).unwrap_or(Value::Null),
        Json::Text(text) => Value::String(text.clone()),
        Json::List(items) => Value::Array(items.iter().map(value).collect()),
        Json::Object(entries) => {
            Value::Object(entries.iter().map(|(k, v)| (k.clone(), value(v))).collect())
        }
    }
}

fn parsed(text: &str) -> Value {
    match serde_json::from_str(text) {
        Ok(value) => value,
        Err(error) => panic!("{error}: {text}"),
    }
}

fn json(text: &str) -> Json {
    converted(&parsed(text))
}

fn words(v: &[&str]) -> Vec<String> {
    v.iter().map(|w| (*w).to_owned()).collect()
}

fn message<T>(r: Checked<T>) -> String {
    match r {
        Ok(_) => String::new(),
        Err(failure) => failure.message,
    }
}

fn good<T>(r: Checked<T>) -> T {
    match r {
        Ok(value) => value,
        Err(failure) => panic!("{}", failure.message),
    }
}

fn output(code: Option<i32>, stdout: &str, stderr: &str) -> CliOutput {
    let text = if stdout.is_empty() { stderr } else { stdout };
    let document = match serde_json::from_str::<Value>(text) {
        Ok(value) => Ok(converted(&value)),
        Err(error) => Err(error.to_string()),
    };
    CliOutput { code, stdout: stdout.to_owned(), stderr: stderr.to_owned(), document }
}

fn outcome<T>(poll: Poll<T>) -> String {
    match poll {
        Poll::Ready { .. } => "ready".to_owned(),
        Poll::Again => "again".to_owned(),
        Poll::Failed { message } => message,
    }
}

#[test]
fn the_database_is_never_an_argument() {
    let runner = CliRunner {
        executable: "/bin/milkdrift".to_owned(),
        endpoint: "http://127.0.0.1:1".to_owned(),
        token_file: "/t".to_owned(),
        forbidden_storage_path: "/data".to_owned(),
    };
    assert_eq!(
        good(runner.run(&words(&["run", "show"]))),
        words(&["--endpoint", "http://127.0.0.1:1", "--token-file", "/t", "--json", "run", "show"])
    );
    assert_eq!(
        good(runner.run_with_token("/other", &Vec::new())),
        words(&["--endpoint", "http://127.0.0.1:1", "--token-file", "/other", "--json"])
    );
    assert_eq!(
        message(runner.run(&words(&["backup", "/data"]))),
        "CLI invocation received the database path"
    );
    assert!(runner.success(&output(Some(0), "{}\n", "")).is_ok());
}

#[test]
fn successes_print_one_document() {
    assert_eq!(value(&good(accept_success(&output(Some(0), "{\"a\":1}\n", "")))), parsed("{\"a\":1}"));
    assert_eq!(
        message(accept_success(&output(Some(3), "text", ""))),
        "CLI command failed with exit Some(3): text"
    );
    assert_eq!(
        message(accept_success(&output(None, "", ""))),
        "CLI command failed with exit None: "
    );
    assert_eq!(
        message(accept_success(&output(Some(-1), "", ""))),
        "CLI command failed with exit Some(-1): "
    );
    assert_eq!(message(one_json_line("")), "expected one JSON document");
    assert_eq!(message(one_json_line("{}\n{}\n")), "expected exactly one JSON document");
    assert_eq!(message(one_json_line("\u{1b}[0m{}\n")), "JSON output contained an ANSI escape");
    assert_eq!(good(one_json_line("{}\n")), "{}");
}

#[test]
fn failures_are_typed_and_stable() {
    let document = "{\"status\":\"failure\",\"schema_version\":2,\"final\":true,\"error\":{\"classification\":\"conflict\",\"daemon_code\":\"stale\"}}\n";
    let failure = output(Some(5), document, "");
    assert!(assert_error(&failure, 5, "conflict", Some("stale")).is_ok());
    assert!(assert_error(&failure, 5, "conflict", None).is_ok());
    assert_eq!(
        message(assert_error(&failure, 6, "conflict", None)),
        format!("CLI exit code was not stable: expected 6, observed Some(5): {document}")
    );
    assert_eq!(
        message(assert_error(&output(Some(5), document, "x"), 5, "conflict", None)),
        "JSON failure leaked diagnostics to stderr"
    );
    assert_eq!(
        message(assert_error(&failure, 5, "denied", None)),
        "failure classification changed"
    );
    assert_eq!(
        message(assert_error(&failure, 5, "conflict", Some("other"))),
        "daemon error code changed"
    );
    assert_eq!(
        message(assert_error(&output(Some(5), "{}\n", ""), 5, "conflict", None)),
        "failure was not a typed JSON error"
    );
    let terminal = document.replace("conflict", "failed_terminal");
    assert!(wait_for_failed_exit(&output(Some(8), &terminal, "")).is_ok());
    assert!(wait_for_failed_exit(&output(Some(0), &terminal, "")).is_err());
    assert_eq!(failed_exit_arguments("r"), words(&["--timeout-secs", "5", "run", "wait", "r"]));
}

#[test]
fn harness_failures_stand_on_the_error_stream() {
    let document = "{\"type\":\"error\",\"value\":{\"classification\":\"conflict\",\"daemon_code\":\"stale\"}}\n";
    let failure = output(Some(5), "", document);
    assert!(harness::assert_error(&failure, 5, "conflict", Some("stale")).is_ok());
    assert_eq!(
        message(harness::assert_error(&failure, 6, "conflict", None)),
        "CLI exit code was not stable"
    );
    assert_eq!(
        message(harness::assert_error(&output(Some(5), document, ""), 5, "conflict", None)),
        "failed CLI command emitted success output"
    );
    assert_eq!(
        message(harness::assert_error(&output(Some(5), "", "{}\n"), 5, "conflict", None)),
        "failure was not a typed JSON error"
    );
    assert_eq!(
        message(harness::assert_error(&failure, 5, "conflict", Some("x"))),
        "daemon error code changed"
    );
    let terminal = document.replace("conflict", "failed_terminal");
    let ended = output(Some(8), "", &terminal);
    assert_eq!(outcome(harness::wait_for_failed_exit(&ended, true)), "ready");
    assert_eq!(outcome(harness::wait_for_failed_exit(&failure, false)), "again");
    assert_eq!(
        outcome(harness::wait_for_failed_exit(&failure, true)),
        "failed run did not reach the stable failed-terminal exit"
    );
    assert_eq!(
        outcome(harness::wait_for_readiness(None, false, "log", true)),
        "daemon did not become ready: log"
    );
    assert_eq!(
        outcome(harness::wait_for_readiness(Some("1"), true, "", false)),
        "daemon exited before readiness: 1"
    );
    assert_eq!(outcome(harness::wait_for_readiness(None, true, "", true)), "ready");
}

#[test]
fn waits_are_bounded() {
    assert_eq!(outcome(wait_for_readiness(None, true, true)), "ready");
    assert_eq!(outcome(wait_for_readiness(None, false, false)), "again");
    assert_eq!(
        outcome(wait_for_readiness(None, false, true)),
        "daemon did not become ready before its deadline"
    );
    assert_eq!(
        outcome(wait_for_readiness(Some("exit status: 1"), false, false)),
        "daemon exited before readiness: exit status: 1"
    );
    let read = output(Some(0), "{\"value\":{\"terminal\":\"succeeded\"}}\n", "");
    match wait_for_run("r", "", read_run(&read), true, false) {
        Poll::Ready { value } => assert!(value.is_text("value,terminal", "succeeded")),
        other => panic!("{other:?}"),
    }
    assert_eq!(outcome(wait_for_run("r", "s", read_run(&read), false, false)), "again");
    assert_eq!(
        outcome(wait_for_run("r", "s", read_run(&output(Some(4), "", "")), true, true)),
        "run r did not reach its bounded expected state: s"
    );
    assert_eq!(
        outcome(wait_for_run("r", "s", read_run(&output(Some(0), "", "")), true, false)),
        "expected one JSON document"
    );
}

#[test]
fn children_are_bounded_in_output_and_time() {
    assert_eq!(outcome(run_command(8_388_608, 0, true, false)), "ready");
    assert_eq!(outcome(run_command(0, 0, false, false)), "again");
    assert_eq!(outcome(run_command(0, 0, false, true)), "child command exceeded its deadline");
    assert_eq!(
        outcome(run_command(0, 8_388_609, true, false)),
        "child output exceeds evidence bound"
    );
    assert!(accept_input(b"x").is_ok());
    assert_eq!(good(captured_text(b"x".to_vec())), Some("x".to_owned()));
    assert_eq!(good(captured_text(vec![0xff])), None);
    assert_eq!(outcome(wait_until(true, true)), "ready");
    assert_eq!(outcome(wait_until(false, true)), "owned child did not exit before its deadline");
    assert!(shutdown(true, true).is_ok());
    assert_eq!(message(shutdown(false, true)), "owned daemon signal delivery failed");
    assert_eq!(message(shutdown(true, false)), "daemon did not shut down successfully");
}

#[test]
fn applications_stand_beside_the_running_one() {
    assert_eq!(good(application_binary("/t/debug/tool", "daemon")), "/t/debug/daemon");
    assert_eq!(good(application_binary("/t/debug/deps/tool", "daemon")), "/t/debug/daemon");
    assert_eq!(message(application_binary("/", "daemon")), "executable directory is absent");
    assert!(require_application(true).is_ok() && require_executable(true).is_ok());
    assert_eq!(
        message(require_application(false)),
        "required application is absent; build milkdrift-daemon and milkdrift first"
    );
    assert_eq!(message(require_executable(false)), "required binary path is not a file");
    assert!(matches!(path_text(Some("p")), Ok("p")));
    assert_eq!(message(path_text(None)), "fixture path is not UTF-8");
}

#[test]
fn fields_are_required_by_key() {
    let read = json("{\"a\":{\"b\":\"x\",\"n\":7,\"m\":-7}}");
    assert_eq!(good(required_text(&read, &["a", "b"])), "x");
    assert_eq!(message(required_text(&read, &["a", "c"])), "JSON field is absent");
    assert_eq!(message(required_text(&read, &["a", "n"])), "JSON field is not text");
    assert_eq!(good(required_u64(&read, &["a", "n"])), 7);
    assert_eq!(
        message(required_u64(&read, &["a", "m"])),
        "JSON field is not an unsigned integer"
    );
    assert_eq!(message(required_u64(&read, &["b"])), "JSON field is absent");
}
