//! External evidence: sources, grants, the controlled endpoint, waits and redaction.

use milkdrift_evidence::application::Poll;
use milkdrift_evidence::external::{
    artifact_evidence, attempt_for_node, check_fixture, check_injection, check_source,
    endpoint_stopped, evidence_report, execute, explicit_grant, forbidden_values, grant_choice,
    grant_destination, grant_filesystem, grant_operations, grant_secrets, grant_validity,
    json_string, model_failure, parse_mapping, qualifies, redaction_check, rust_build_target,
    secret_sources, serve_mock_connection, validation_steps, wait_for_run, FixtureFailure, Look,
    GrantRequest, ModelNeeds, Settled, Source, Unfinished, MAX_LOGGED_REQUESTS, SERVED_BODY,
};
use milkdrift_evidence::failure::{Checked, Failure};
use milkdrift_evidence::json::Json;
use milkdrift_evidence::scripts::documents::remediation_proposal;
use serde_json::Value;

fn converted(value: &Value) -> Json {
    match value {
        Value::Null => Json::Null,
        Value::Bool(b) => Json::flag(*b),
        Value::Number(n) => match n.as_u64() {
            Some(n) => Json::number(n),
            None => Json::Real(n.to_string()),
        },
        Value::String(s) => Json::text(s),
        Value::Array(v) => Json::List(v.iter().map(converted).collect()),
        Value::Object(m) => {
            Json::Object(m.iter().map(|(k, v)| (k.clone(), converted(v))).collect())
        }
    }
}

fn json(text: &str) -> Json {
    match serde_json::from_str::<Value>(text) {
        Ok(value) => converted(&value),
        Err(error) => panic!("{error}"),
    }
}

fn message<T>(r: Checked<T>) -> String {
    match r {
        Ok(_) => String::new(),
        Err(failure) => failure.message,
    }
}

fn words(v: &[&str]) -> Vec<String> {
    v.iter().map(|w| (*w).to_owned()).collect()
}

fn good<T>(r: Checked<T>) -> T {
    match r {
        Ok(value) => value,
        Err(failure) => panic!("{}", failure.message),
    }
}

#[test]
fn grants_cover_separate_helper_executables_without_extra_access() {
    let model = ModelNeeds {
        profile_id: "test-model".to_owned(),
        endpoint_origin: "http://127.0.0.1:8080".to_owned(),
        secret_refs: Vec::new(),
    };
    let helper_scope = json(
        "{\"path\":\"/root/python\",\"read\":false,\"write\":false,\"execute\":true}",
    );
    for same_executable in [false, true] {
        let helper = if same_executable { "/root/agent/agent.exe" } else { "/root/python/python.exe" };
        let request = GrantRequest {
            workflow: "workflow-external-process".to_owned(),
            capabilities: vec!["test-agent".to_owned()],
            session: "/root/session".to_owned(),
            repository: "/root/repository".to_owned(),
            agent: "/root/agent/agent.exe".to_owned(),
            helper: helper.to_owned(),
            now: 100_000,
        };
        for model_profile in [None, Some(&model)] {
            let grant = good(explicit_grant(&request, model_profile, &Vec::new(), &Vec::new()));
            let scopes = grant.count("resources,filesystem");
            assert_eq!(scopes, if same_executable { 3 } else { 4 });
            let found = (0..scopes)
                .any(|i| grant.get(&format!("resources,filesystem,#{i}")).same(&helper_scope));
            assert_eq!(found, !same_executable);
            for i in 0..scopes {
                let scope = grant.get(&format!("resources,filesystem,#{i}"));
                let own = scope.is_text("path", "/root/session")
                    || scope.is_text("path", "/root/repository");
                assert_eq!(scope.is_flag("read", true) && scope.is_flag("write", true), own);
            }
        }
    }
}

#[test]
fn an_executable_without_a_parent_is_not_granted() {
    assert_eq!(
        message(grant_filesystem("/s", "/r", "/", "/python/python")),
        "process executable has no parent"
    );
}

#[test]
fn workflow_deadline_includes_a_stalled_daemon_read() {
    match wait_for_run("test-run", None, "none", true, 0) {
        Poll::Failed { message } => {
            assert!(message.contains("did not reach the expected state"));
            assert_eq!(
                message,
                "run test-run did not reach the expected state within 0 seconds; last=none"
            );
        }
        _ => panic!("a stalled read cannot establish workflow completion"),
    }
}

#[test]
fn waits_end_with_the_state_or_the_deadline() {
    let look = |expected: bool, terminal: bool| Look { expected, terminal, rendered: "seen".to_owned() };
    assert!(matches!(
        wait_for_run("r", Some(&look(true, true)), "", true, 9),
        Poll::Ready { value: () }
    ));
    assert!(matches!(wait_for_run("r", Some(&look(false, false)), "", false, 9), Poll::Again));
    assert!(matches!(wait_for_run("r", Some(&look(false, true)), "", false, 9), Poll::Failed { message }
        if message == "run r reached unexpected terminal state: seen"));
    assert!(matches!(wait_for_run("r", Some(&look(false, false)), "", true, 9), Poll::Failed { message }
        if message == "run r did not reach the expected state within 9 seconds; last=seen"));
}

#[test]
fn fixture_evidence_never_qualifies_silently() {
    assert_eq!(
        message(check_fixture(true, false)),
        "--fixture requires --allow-fixture and remains non-qualifying"
    );
    assert!(check_fixture(true, true).is_ok() && check_fixture(false, false).is_ok());
    assert!(check_source(true, true).is_ok() && check_source(false, false).is_ok());
    assert!(message(check_source(false, true)).starts_with("qualifying real evidence requires"));
    assert_eq!(
        message(check_injection(Some(FixtureFailure::Model), FixtureFailure::Model)),
        "fixture-injected model scenario failure"
    );
    assert_eq!(
        message(check_injection(Some(FixtureFailure::Process), FixtureFailure::Process)),
        "fixture-injected process scenario failure"
    );
    assert!(check_injection(Some(FixtureFailure::Process), FixtureFailure::Model).is_ok());
    assert!(check_injection(None, FixtureFailure::Model).is_ok());
    assert!(qualifies(true, true) && !qualifies(true, false) && !qualifies(false, true));
}

#[test]
fn mappings_name_a_variable_or_a_file() {
    assert!(matches!(parse_mapping("a=env:X"), Ok((r, Source::Environment { variable }))
        if r == "a" && variable == "X"));
    assert!(matches!(parse_mapping("a=file:/x=y"), Ok((r, Source::File { path }))
        if r == "a" && path == "/x=y"));
    assert_eq!(message(parse_mapping("a")), "secret source mapping requires reference=source");
    assert_eq!(message(parse_mapping("a=X")), "secret source must use env: or file:");
}

#[test]
fn secrets_need_a_source_each() {
    let none = secret_sources(&Vec::new(), &Vec::new(), &Vec::new(), "/unused");
    assert!(matches!(&none, Ok(v) if v.len() == 1 && v[0].0 == "secret:unused-evidence-sentinel"
        && matches!(&v[0].1, Source::File { path } if path == "/unused")));
    let mapped = words(&["a=env:X", "b=file:/f"]);
    let found = secret_sources(&mapped, &vec![true, false], &words(&["b", "a"]), "/unused");
    match found {
        Ok(sources) => {
            assert_eq!(sources.len(), 2);
            assert_eq!(grant_secrets(&words(&["b", "c", "a"]), &sources), words(&["b", "a"]));
        }
        Err(failure) => panic!("{}", failure.message),
    }
    assert_eq!(
        message(secret_sources(&mapped, &vec![false, false], &Vec::new(), "")),
        "required secret environment variable X is not set"
    );
    assert_eq!(
        message(secret_sources(&mapped, &vec![true, false], &words(&["c"]), "")),
        "missing --secret-source mapping for required reference c"
    );
}

#[test]
fn reports_disclose_neither_values_nor_keys() {
    let forbidden = forbidden_values(vec![b"hidden".to_vec(), Vec::new()]);
    assert_eq!(forbidden, vec![b"hidden".to_vec()]);
    assert_eq!(
        message(redaction_check(b"{\"a\":\"xhiddeny\"}".to_vec(), &forbidden)),
        "redaction validation found a secret value in the report"
    );
    assert_eq!(
        message(redaction_check(b"{\"Full_Prompt\":1}".to_vec(), &forbidden)),
        "redaction validation found forbidden key full_prompt"
    );
    assert!(matches!(redaction_check(b"{\"a\":1}".to_vec(), &forbidden), Ok(Some(t)) if t == "{\"a\":1}"));
    assert!(matches!(redaction_check(vec![0xff], &forbidden), Ok(None)));
}

#[test]
fn the_compiler_states_its_target() {
    assert!(matches!(rust_build_target(true, "rustc 1\nhost: x86_64\nhost: other\n"), Ok(t) if t == "x86_64"));
    assert_eq!(message(rust_build_target(false, "host: x")), "rustc build-target query failed");
    assert_eq!(
        message(rust_build_target(true, "rustc\nhost: ")),
        "rustc build-target query omitted the host triple"
    );
    assert_eq!(
        message(rust_build_target(true, "rustc")),
        "rustc build-target query omitted the host triple"
    );
}

#[test]
fn grants_list_operations_destinations_and_times() {
    assert_eq!(grant_operations(true), ["model.generate", "process.execute", "workflow.inspect"]);
    assert_eq!(grant_operations(false), ["process.execute", "workflow.inspect"]);
    assert!(matches!(grant_destination("http://127.0.0.1:8080"), Ok(d) if d == "127.0.0.1:8080"));
    assert_eq!(message(grant_destination("127.0.0.1")), "model endpoint origin is invalid");
    assert_eq!(grant_validity(100_000), (40_000, 86_500_000));
    assert_eq!(grant_validity(5), (0, 86_400_005));
    assert_eq!(grant_validity(u64::MAX), (u64::MAX - 60_000, u64::MAX));
}

#[test]
fn the_controlled_endpoint_serves_one_request_line() {
    match serve_mock_connection("POST /v1/chat/completions HTTP/1.1\r\nHost: x\r\n\r\n", 0) {
        Ok(served) => {
            assert!(served.counted);
            assert_eq!(served.line, "POST /v1/chat/completions HTTP/1.1");
            assert!(served.response.starts_with("HTTP/1.1 200 OK\r\nContent-Type: text/event-stream\r\n"));
            assert!(served.response.ends_with(SERVED_BODY));
        }
        Err(failure) => panic!("{}", failure.message),
    }
    match serve_mock_connection("GET / HTTP/1.1\r\n", 63) {
        Ok(served) => {
            assert!(!served.counted);
            assert!(served.response.starts_with("HTTP/1.1 404 Not Found\r\n"));
        }
        Err(failure) => panic!("{}", failure.message),
    }
    assert_eq!(
        message(serve_mock_connection("GET /", MAX_LOGGED_REQUESTS)),
        "fixture request log exceeds bound"
    );
}

#[test]
fn attempts_and_responses_are_read_by_name() {
    let run = json("{\"nodes\":[{\"node_id\":\"a\",\"latest_attempt_id\":\"x\"},{\"node_id\":\"b\"}]}");
    assert!(matches!(attempt_for_node(&run, "a"), Ok(t) if t == "x"));
    assert_eq!(message(attempt_for_node(&run, "b")), "node b has no attempt");
    assert_eq!(message(attempt_for_node(&run, "c")), "node c has no attempt");
    assert!(matches!(json_string(&json("{\"a\":\"x\"}"), "a"), Ok(t) if t == "x"));
    assert_eq!(message(json_string(&json("{\"a\":1}"), "a")), "command response omitted a");
    assert_eq!(message(json_string(&json("[]"), "a")), "command response omitted a");
}

#[test]
fn unfinished_models_say_why() {
    let known = Unfinished {
        fixture_requests: 2,
        request_lines: "[]".to_owned(),
        worker_failure: "None".to_owned(),
        terminal: "null".to_owned(),
        outputs: "[1]".to_owned(),
    };
    let attempt = json("{\"state\":\"entered\",\"progress_observations\":3}");
    assert_eq!(
        model_failure(None, &attempt, &known),
        "model attempt did not complete; fixture_requests=2; fixture_request_lines=[]; worker_failure=None; attempt_state=entered; progress=3; terminal=null; outputs=[1]"
    );
    let refused = json("{\"result_acceptance\":{\"accepted\":false,\"reason\":\"no\"}}");
    assert_eq!(
        model_failure(Some(&refused), &attempt, &known),
        "model result not accepted: no; invocation terminal=unobserved"
    );
    assert_eq!(
        endpoint_stopped(true, "gone"),
        "fixture model endpoint stopped before model scenario (task_finished=true): gone"
    );
}

fn named(v: &[String]) -> Vec<&str> {
    v.iter().map(String::as_str).collect()
}

#[test]
fn grants_follow_the_model() {
    let sources = vec![
        ("a".to_owned(), Source::Environment { variable: "A".to_owned() }),
        ("m".to_owned(), Source::Environment { variable: "M".to_owned() }),
    ];
    let agent = vec!["a".to_owned(), "unmapped".to_owned()];
    let alone = good(grant_choice(None, &agent, &sources));
    assert_eq!(alone.operations, vec!["process.execute", "workflow.inspect"]);
    assert!(alone.profiles.is_empty() && alone.destinations.is_empty());
    assert_eq!(named(&alone.secrets), vec!["a"]);
    let mut model = ModelNeeds {
        profile_id: "local".to_owned(),
        endpoint_origin: "http://127.0.0.1:9".to_owned(),
        secret_refs: vec!["m".to_owned()],
    };
    let with = good(grant_choice(Some(&model), &agent, &sources));
    assert!(with.operations.contains(&"model.generate"));
    assert_eq!(named(&with.profiles), vec!["local"]);
    assert_eq!(named(&with.destinations), vec!["127.0.0.1:9"]);
    assert_eq!(named(&with.secrets), vec!["m"]);
    model.endpoint_origin = "nowhere".to_owned();
    assert_eq!(
        message(grant_choice(Some(&model), &agent, &sources)),
        "model endpoint origin is invalid"
    );
}

#[test]
fn grants_are_whole_documents() {
    let sources = vec![("a".to_owned(), Source::Environment { variable: "A".to_owned() })];
    let agent = vec!["a".to_owned(), "unmapped".to_owned()];
    let mut request = GrantRequest {
        workflow: "w".to_owned(),
        capabilities: vec!["c1".to_owned(), "c2".to_owned()],
        session: "/s".to_owned(),
        repository: "/r".to_owned(),
        agent: "/bin/agent".to_owned(),
        helper: "/bin/helper".to_owned(),
        now: 100_000,
    };
    let grant = good(explicit_grant(&request, None, &agent, &sources));
    let wanted = json("{\"resources\":{\"workflow_run\":{\"type\":\"workflow\",\"workflow\":\"w\"},\"capability\":{\"type\":\"allow\",\"maximum_side_effect\":\"unknown\",\"identities\":{\"type\":\"only\",\"values\":[\"c1\",\"c2\"]},\"operations\":{\"type\":\"only\",\"values\":[\"process.execute\",\"workflow.inspect\"]}},\"filesystem\":[{\"path\":\"/s\",\"read\":true,\"write\":true,\"execute\":true},{\"path\":\"/r\",\"read\":true,\"write\":true,\"execute\":true},{\"path\":\"/bin\",\"read\":false,\"write\":false,\"execute\":true}],\"network\":{\"profiles\":[],\"destinations\":[]},\"secrets\":[\"a\"],\"artifacts\":{\"type\":\"allow\",\"identities\":{\"type\":\"any\"},\"sensitivities\":[\"public\",\"internal\",\"restricted\"]},\"layouts\":{\"type\":\"none\"},\"peers\":{\"type\":\"none\"},\"daemon\":{\"readiness\":true,\"detailed_health\":true,\"own_authority\":true,\"configuration\":false,\"audit\":false},\"workspace\":{\"scopes\":[],\"allow_any_in_run\":true}},\"budget\":{\"cost_minor\":1000000000,\"duration_ms\":604800000,\"invocations\":10000,\"artifact_bytes\":17179869184,\"units\":1000000000,\"concurrency\":32},\"valid_from\":40000,\"valid_until\":86500000,\"dangerous_allow_broad_authority\":true}");
    assert!(grant.same(&wanted));
    let mut model = ModelNeeds {
        profile_id: "local".to_owned(),
        endpoint_origin: "http://127.0.0.1:9".to_owned(),
        secret_refs: vec!["m".to_owned()],
    };
    let with = good(explicit_grant(&request, Some(&model), &agent, &sources));
    assert!(with.is_text("resources,network,destinations,#0", "127.0.0.1:9"));
    assert!(with.is_text("resources,capability,operations,values,#0", "model.generate"));
    assert_eq!(with.count("resources,secrets"), 0);
    model.endpoint_origin = "nowhere".to_owned();
    assert_eq!(
        message(explicit_grant(&request, Some(&model), &agent, &sources)),
        "model endpoint origin is invalid"
    );
    request.helper = "/".to_owned();
    assert_eq!(
        message(explicit_grant(&request, Some(&model), &agent, &sources)),
        "process executable has no parent"
    );
}

#[test]
fn conclusions_report_the_first_failure() {
    assert_eq!(
        message(execute(true, false, None, None, None)),
        "--fixture requires --allow-fixture and remains non-qualifying"
    );
    let flagged = |flag: bool| Some(Ok(Json::object().with("qualifying", Json::flag(flag))));
    let both = good(execute(false, false, flagged(true), flagged(true), None));
    assert!(both.qualifying && !both.fixture_mode && both.failure_reason.is_none());
    let fixture = good(execute(true, true, flagged(false), flagged(false), None));
    assert!(!fixture.qualifying && fixture.fixture_mode);
    let failed = |m: &str| Some(Err(Failure { message: m.to_owned() }));
    let process = good(execute(false, false, failed("p"), None, None));
    assert_eq!(process.failure_reason.as_deref(), Some("p"));
    assert!(matches!(&process.process, Settled::Failed { reason } if reason == "p"));
    assert!(matches!(&process.model, Settled::Pending { reason } if reason == "model scenario has not run"));
    let model = good(execute(false, false, flagged(true), failed("m"), None));
    assert_eq!(model.failure_reason.as_deref(), Some("m"));
    assert!(!model.qualifying);
    let early = good(execute(false, false, None, None, Some("e")));
    assert_eq!(early.failure_reason.as_deref(), Some("e"));
    let report = good(evidence_report(json("{\"platform\":{\"os\":\"x\"}}"), &early));
    assert!(report.is_text("failure_reason", "e") && report.is_flag("qualifying", false));
    assert!(report.is_flag("fixture_mode", false) && report.is_text("platform,os", "x"));
    assert!(report.is_text("redactions,#2", "private repository file contents"));
    assert!(good(evidence_report(json("{}"), &both)).is_null("failure_reason"));
    assert_eq!((validation_steps(true).len(), validation_steps(false).len()), (3, 0));
}

#[test]
fn artifacts_carry_their_roles() {
    let read = json("{\"outputs\":[{\"name\":\"stdout\",\"artifact\":{\"artifact_id\":\"i\",\"digest\":\"d\",\"size\":3,\"content_type\":\"t\"}}]}");
    let process = artifact_evidence(Some("initial_coding"), &read);
    assert!(process.is_text("#0,role", "initial_coding:stdout"));
    assert!(process.is_text("#0,digest", "d") && process.is_number("#0,size", 3));
    assert!(artifact_evidence(None, &read).is_text("#0,role", "stdout"));
    assert_eq!(artifact_evidence(None, &json("{}")).count(""), 0);
}

#[test]
fn remediations_ask_for_a_bounded_repair() {
    let known = json("{\"observed_sequence\":7,\"verification\":{\"profile\":{\"capability\":\"evidence-verifier-weak\"},\"kept\":true}}");
    let proposal = good(remediation_proposal(known));
    assert!(proposal.is_text("run", "run-external-process"));
    assert!(proposal.is_number("observed_sequence", 7) && proposal.is_number("generation", 1));
    assert!(proposal.is_text("proposal", "proposal-external-remediation-1"));
    assert!(proposal.is_text("proposer", "human:external-process"));
    assert!(proposal.is_text("stage_id", "repair"));
    assert!(proposal.is_text("prompt", "In a fresh process, inspect the current accepted repository state, make only any remaining bounded repair needed for the unittest, run it, and do not commit.\n"));
    assert!(proposal.is_text("verification,profile,capability", "evidence-verifier-good"));
    assert!(proposal.is_flag("verification,kept", true));
}
