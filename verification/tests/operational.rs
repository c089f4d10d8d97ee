//! Operational measurements and the native fixture.

use milkdrift_evidence::application::Poll;
use milkdrift_evidence::digest::content_identity;
use milkdrift_evidence::failure::Checked;
use milkdrift_evidence::native_fixture::{
    accept_prompt, accept_source, checkpoint, conclude, evidence_payload, inventory, operation,
    remediation_document, repaired, review_document, state_identity, verification_log,
    verification_result, Operation, Written,
};
use milkdrift_evidence::operational::{
    candidate_name, check_medium_load, check_operations, check_process_helper, check_queue,
    check_tasks, command_stdout,
    context_discovery_and_selection, context_materialization, daemon_owner_round_trip,
    execution_names, local_process_stream_drain, measure_daemon_saturation, observes_health,
    parse_arguments, recovery, stream_resumed, summary, Load, Outcome, Phases, ScenarioMeasurement,
};
use milkdrift_evidence::json::Json;
use serde_json::Value;

fn converted(value: &Value) -> Json {
    match value {
        Value::Null => Json::Null,
        Value::Bool(b) => Json::flag(*b),
        Value::Number(n) => match (n.as_u64(), n.as_i64()) {
            (Some(n), _) => Json::number(n),
            (None, Some(n)) => Json::Negative(n),
            (None, None) => Json::Real(n.to_string()),
        },
        Value::String(s) => Json::text(s),
        Value::Array(v) => Json::List(v.iter().map(converted).collect()),
        Value::Object(m) => {
            Json::Object(m.iter().map(|(k, v)| (k.clone(), converted(v))).collect())
        }
    }
}

fn value(json: &Json) -> Value {
    match json {
        Json::Null => Value::Null,
        Json::Bool(b) => Value::Bool(*b),
        Json::Unsigned(n) => Value::from(*n),
        Json::Negative(n) => Value::from(*n),
        Json::Real(text) => serde_json::from_str(text).unwrap_or(Value::Null),
        Json::Text(text) => Value::String(text.clone()),
        Json::List(items) => Value::Array(items.iter().map(value).collect()),
        Json::Object(entries) => {
            Value::Object(entries.iter().map(|(k, v)| (k.clone(), value(v))).collect())
        }
    }
}

fn parsed(text: &str) -> Value {
    match serde_json::from_str(text) {
        Ok(value) => value,
        Err(error) => panic!("{error}: {text}"),
    }
}

fn json(text: &str) -> Json {
    converted(&parsed(text))
}

fn words(v: &[&str]) -> Vec<String> {
    v.iter().map(|w| (*w).to_owned()).collect()
}

fn message<T>(r: Checked<T>) -> String {
    match r {
        Ok(_) => String::new(),
        Err(failure) => failure.message,
    }
}

fn good<T>(r: Checked<T>) -> T {
    match r {
        Ok(value) => value,
        Err(failure) => panic!("{}", failure.message),
    }
}

#[test]
fn health_contracts_are_exact() {
    assert!(daemon_owner_round_trip(true, 4).is_ok() && check_queue(true, 1).is_ok());
    assert_eq!(message(daemon_owner_round_trip(true, 3)), "daemon health contract changed");
    assert_eq!(message(check_queue(false, 1)), "daemon queue bound is not observable");
    assert!(check_operations(64).is_ok() && check_medium_load(true).is_ok());
    assert_eq!(message(check_operations(63)), "daemon evidence needs at least 64 requests");
    assert_eq!(message(check_medium_load(false)), "medium-load health request was not ready");
    assert!(observes_health("daemon-health", Some(true)));
    assert!(!observes_health("runs", Some(true)) && !observes_health("daemon-health", None));
}

#[test]
fn loads_count_every_request_once() {
    let mut load = Load::new();
    for outcome in [
        Outcome::Ready,
        Outcome::Overload { message: "busy".to_owned() },
        Outcome::Ready,
    ] {
        assert!(load.settle(&outcome).is_ok());
    }
    assert_eq!((load.accepted, load.overloaded), (2, 1));
    assert_eq!(message(load.settle(&Outcome::NotReady)), "daemon became non-ready under load");
    assert_eq!(message(load.settle(&Outcome::Refused { message: "no".to_owned() })), "no");
    assert_eq!((load.accepted, load.overloaded), (2, 1));
    assert!(load.check(3).is_ok());
    assert_eq!(message(load.check(4)), "saturated phase did not prove bounded overload");
    assert!(Load { accepted: 3, overloaded: 0 }.check(3).is_err());
}

#[test]
fn overload_is_recovered_from_or_reported() {
    let busy = Outcome::Overload { message: "busy".to_owned() };
    assert!(matches!(recovery(&Outcome::Ready, false), Poll::Ready { value: true }));
    assert!(matches!(recovery(&Outcome::NotReady, false), Poll::Ready { value: false }));
    assert!(matches!(recovery(&busy, false), Poll::Again));
    assert!(matches!(recovery(&busy, true), Poll::Failed { message } if message == "busy"));
    assert!(check_tasks(Some(2), Some(10)).is_ok() && check_tasks(None, Some(99)).is_ok());
    assert_eq!(
        message(check_tasks(Some(2), Some(11))),
        "daemon load left unbounded process tasks"
    );
    assert!(stream_resumed(Some("a"), "b", "daemon-health", Some(true)));
    assert!(!stream_resumed(Some("a"), "a", "daemon-health", Some(true)));
    assert!(stream_resumed(None, "a", "daemon-health", Some(true)));
}

#[test]
fn saturation_needs_every_phase() {
    let phases = |recovered: bool| Phases {
        load: Load { accepted: 60, overloaded: 4 },
        latency: vec![5, 6],
        slow_consumer_observed: true,
        stream_reconnected: true,
        recovered,
        tasks_before: Some(1),
        tasks_after: None,
        graceful_shutdown: true,
    };
    let evidence = good(measure_daemon_saturation(64, phases(true)));
    assert_eq!((evidence.queue_capacity, evidence.accepted, evidence.overloaded), (1, 60, 4));
    assert_eq!(evidence.latency, vec![5, 6]);
    assert_eq!(
        message(measure_daemon_saturation(64, phases(false))),
        "daemon evidence failed: recovered=false, slow_consumer=true, reconnected=true, shutdown=true"
    );
    assert_eq!(
        message(measure_daemon_saturation(63, phases(true))),
        "daemon evidence needs at least 64 requests"
    );
    assert_eq!(
        message(measure_daemon_saturation(65, phases(true))),
        "saturated phase did not prove bounded overload"
    );
    let crowded = Phases { tasks_after: Some(10), ..phases(false) };
    assert_eq!(
        message(measure_daemon_saturation(64, crowded)),
        "daemon load left unbounded process tasks"
    );
}

#[test]
fn streams_and_contexts_are_complete() {
    let drained = good(local_process_stream_drain(true, Some(262_144), Some(262_144), 9, b"e"));
    assert_eq!(drained.scenario, "adapters/local_process_stdout_stderr_524288_bytes");
    assert_eq!((drained.operations, drained.bytes), (9, 524_288));
    assert_eq!(drained.checksum, blake3::hash(b"e").to_hex().to_string());
    assert!(check_process_helper(true).is_ok());
    assert_eq!(
        message(check_process_helper(false)),
        "MILKDRIFT_EVIDENCE_PROCESS_HELPER must name the built evidence-process-helper"
    );
    assert_eq!(
        message(local_process_stream_drain(false, None, None, 0, b"")),
        "local process fixture did not succeed"
    );
    assert_eq!(message(local_process_stream_drain(true, None, Some(1), 0, b"")), "stdout missing");
    assert_eq!(message(local_process_stream_drain(true, Some(1), None, 0, b"")), "stderr missing");
    assert_eq!(
        message(local_process_stream_drain(true, Some(262_144), Some(1), 0, b"")),
        "local process stream capture was incomplete"
    );
    assert!(context_discovery_and_selection(128, 1920).is_ok());
    assert_eq!(
        message(context_discovery_and_selection(128, 1919)),
        "context selection accounting changed"
    );
    assert!(context_materialization(64).is_ok());
    assert_eq!(
        message(context_materialization(63)),
        "selected-only materialization count changed"
    );
    assert_eq!(candidate_name(7), "prompt-00007");
    assert_eq!(candidate_name(123_456), "prompt-123456");
    assert_eq!(execution_names(42), ("execution-0042".to_owned(), "attempt-0042".to_owned()));
}

#[test]
fn measurements_take_two_options() {
    let asked = good(parse_arguments(&words(&["--operations", "8", "--output", "o"])));
    assert_eq!((asked.output.as_str(), asked.operations), ("o", 8));
    let defaults = good(parse_arguments(&Vec::new()));
    assert_eq!((defaults.output.as_str(), defaults.operations), ("target/evidence", 256));
    assert_eq!(message(parse_arguments(&words(&["--output"]))), "--output requires a directory");
    assert_eq!(message(parse_arguments(&words(&["--operations"]))), "--operations requires a count");
    assert_eq!(
        message(parse_arguments(&words(&["--operations", "x"]))),
        "invalid digit found in string"
    );
    assert_eq!(message(parse_arguments(&words(&["-x"]))), "unknown argument -x");
}

#[test]
fn summaries_are_tables() {
    let rows = vec![ScenarioMeasurement {
        scenario: "s".to_owned(),
        operations: 3,
        bytes: 4,
        checksum: "c".to_owned(),
    }];
    assert_eq!(summary(&rows), "scenario,operations,bytes,checksum\ns,3,4,c\n");
    assert_eq!(good(command_stdout("git", &Vec::new(), true, "0", " x\n")), "x");
    assert_eq!(
        message(command_stdout("git", &words(&["rev-parse", "HEAD"]), false, "exit status: 1", "")),
        "git rev-parse HEAD failed with exit status: 1"
    );
}

#[test]
fn inventories_are_ordered_sets() {
    assert_eq!(good(inventory(true, "b\0a\0b\0\0")), words(&["a", "b"]));
    assert_eq!(message(inventory(false, "")), "Git inventory failed");
    let many: Vec<String> = (0..65).map(|i| format!("f{i}")).collect();
    assert_eq!(message(inventory(true, &many.join("\0"))), "fixture repository inventory overflow");
    assert_eq!(good(inventory(true, &many[..64].join("\0"))).len(), 64);
    assert!(accept_source(1_048_576).is_ok() && accept_prompt(65_536).is_ok());
    assert_eq!(message(accept_source(1_048_577)), "fixture source exceeds bound");
    assert_eq!(message(accept_prompt(65_537)), "fixture prompt exceeds bound");
}

#[test]
fn checkpoints_name_files_and_contents() {
    let files = vec![("a".to_owned(), b"".to_vec())];
    let rendered = "[[\"a\",\"af1349b9f5f9a1a6a0404dea36dcc9499bcb25c9adc112b7cc9a93cae41f3262\"]]";
    assert_eq!(good(checkpoint(&files)), content_identity(rendered.as_bytes()));
    let changed = vec![("a".to_owned(), b"x".to_vec())];
    assert_ne!(good(checkpoint(&files)), good(checkpoint(&changed)));
    assert_eq!(good(state_identity(&Ok(b"x".to_vec()))), content_identity(b"x"));
    assert_eq!(message(state_identity(&Err("e".to_owned()))), "e");
}

#[test]
fn fixture_operations_are_parsed() {
    let parse = |arguments: &[&str]| operation(&words(arguments));
    assert!(matches!(parse(&["agent"]), Ok(Operation::Agent { compiler: None })));
    assert!(matches!(parse(&["agent", "rustc"]), Ok(Operation::Agent { compiler: Some(c) }) if c == "rustc"));
    assert!(matches!(parse(&["verify", "good", "git", "rustc", "/r"]), Ok(Operation::Verify { mode, root, .. })
        if mode == "good" && root == "/r"));
    assert!(matches!(parse(&["review", "/r"]), Ok(Operation::Review { root }) if root == "/r"));
    assert!(matches!(parse(&["evidence", "/r"]), Ok(Operation::Evidence { root }) if root == "/r"));
    assert_eq!(message(parse(&[])), "unknown native fixture operation");
    assert_eq!(message(parse(&["x"])), "unknown native fixture operation");
    assert_eq!(
        message(parse(&["verify"])),
        "verifier expects mode, Git, rustc and execution root"
    );
    assert_eq!(message(parse(&["review"])), "review root absent");
    assert_eq!(message(parse(&["evidence"])), "evidence root absent");
}

#[test]
fn the_defect_is_repaired_everywhere() {
    assert_eq!(repaired("a - b; a - b"), Some("a + b; a + b".to_owned()));
    assert_eq!(repaired("a + b"), None);
    let log = verification_log(
        "weak",
        &Written { stdout: "o".to_owned(), stderr: "e".to_owned() },
        &Some(Written { stdout: "t".to_owned(), stderr: String::new() }),
    );
    assert_eq!(log, "ORCHESTRATION_FAULT_INJECTION=true\noet");
    let result = value(&verification_result("b", "a", "good", true, true, ""));
    assert_eq!(result["checks"], parsed("{\"rust.tests\":true,\"git.diff\":true}"));
    assert_eq!(result["coding"]["type"], Value::from("no_change"));
    let weak = value(&verification_result("b", "a", "weak", true, true, "x"));
    assert_eq!(weak["checks"]["rust.tests"], Value::Bool(false));
    assert_eq!(weak["coding"], parsed("{\"type\":\"changed\"}"));
    assert!(conclude(true, true).is_ok());
    assert_eq!(message(conclude(true, false)), "independent Rust verification failed");
    assert_eq!(value(&review_document(true))["context_manifest_observed"], Value::Bool(true));
    assert_eq!(
        value(&remediation_document()),
        parsed("{\"schema_version\":1,\"action\":\"rerun coding and independent verification\"}")
    );
    assert_eq!(good(evidence_payload(&json("\"x\""))), "x");
    assert_eq!(message(evidence_payload(&json("1"))), "evidence payload must be text");
}
