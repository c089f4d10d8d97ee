//! Local models, the reads of runs and the review of the controller.

use milkdrift_evidence::application::Poll;
use milkdrift_evidence::failure::Checked;
use milkdrift_evidence::local_model::{
    check_initial_page, check_secrets, follow_line, inspect_profile, observe_success,
    parse_secret_source, require_file, validate_mode, validate_real_profile, Mode,
};
use milkdrift_evidence::review::{
    accept_facts_size, accept_review, check_agent, check_billing, check_endpoint, check_facts,
    check_untracked, extend_network, identities, Decision,
};
use milkdrift_evidence::runs::{
    accept_configuration, accept_direct, accept_fixture_input, artifact_references, check_profiles,
    children, direct_output, idle_note, named_output, node_attempt, settlement_arguments,
    signal_arguments, submit_arguments, wait_for_child, Settlement,
};
use milkdrift_evidence::json::Json;
use serde_json::Value;

fn converted(value: &Value) -> Json {
    match value {
        Value::Null => Json::Null,
        Value::Bool(b) => Json::flag(*b),
        Value::Number(n) => match (n.as_u64(), n.as_i64()) {
            (Some(n), _) => Json::number(n),
            (None, Some(n)) => Json::Negative(n),
            (None, None) => Json::Real(n.to_string()),
        },
        Value::String(s) => Json::text(s),
        Value::Array(v) => Json::List(v.iter().map(converted).collect()),
        Value::Object(m) => {
            Json::Object(m.iter().map(|(k, v)| (k.clone(), converted(v))).collect())
        }
    }
}

fn value(json: &Json) -> Value {
    match json {
        Json::Null => Value::Null,
        Json::Bool(b) => Value::Bool(*b),
        Json::Unsigned(n) => Value::from(*n),
        Json::Negative(n) => Value::from(*n),
        Json::Real(text) => serde_json::from_str(text).unwrap_or(Value::Null),
        Json::Text(text) => Value::String(text.clone()),
        Json::List(items) => Value::Array(items.iter().map(value).collect()),
        Json::Object(entries) => {
            Value::Object(entries.iter().map(|(k, v)| (k.clone(), value(v))).collect())
        }
    }
}

fn parsed(text: &str) -> Value {
    match serde_json::from_str(text) {
        Ok(value) => value,
        Err(error) => panic!("{error}: {text}"),
    }
}

fn json(text: &str) -> Json {
    converted(&parsed(text))
}

fn words(v: &[&str]) -> Vec<String> {
    v.iter().map(|w| (*w).to_owned()).collect()
}

fn message<T>(r: Checked<T>) -> String {
    match r {
        Ok(_) => String::new(),
        Err(failure) => failure.message,
    }
}

fn good<T>(r: Checked<T>) -> T {
    match r {
        Ok(value) => value,
        Err(failure) => panic!("{}", failure.message),
    }
}

fn profile(extra: &str) -> Json {
    json(&format!("{{\"base_url\":\"http://127.0.0.1:1234/v1\",\"features\":[\"streaming\"],\"revision\":3,\"protocol\":{{\"type\":\"open_ai_compatible\"}},\"model\":\"m\",\"local_development\":true,\"redirect\":\"deny\",\"proxy\":\"disabled\"{extra}}}"))
}

#[test]
fn modes_take_only_their_arguments() {
    assert!(validate_mode(Mode::Deterministic, false, 0).is_ok());
    assert_eq!(
        message(validate_mode(Mode::Deterministic, true, 0)),
        "deterministic mode rejects real profile and secret arguments"
    );
    assert!(validate_mode(Mode::OperatorRealEndpoint, true, 2).is_ok());
    assert_eq!(
        message(validate_mode(Mode::OperatorRealEndpoint, false, 0)),
        "operator real-endpoint mode requires --model-profile and never falls back"
    );
    assert_eq!(Mode::OperatorRealEndpoint.name(), "operator_real_endpoint");
    assert_eq!(good(parse_secret_source("a=/f=g")), ("a".to_owned(), "/f=g".to_owned()));
    assert_eq!(message(parse_secret_source("a")), "secret source must be REFERENCE=FILE");
    assert_eq!(
        message(parse_secret_source("=f")),
        "secret source must contain a nonempty reference and file"
    );
    assert_eq!(message(require_file(false, "daemon")), "required daemon path is not a file");
}

#[test]
fn profiles_state_their_facts() {
    let facts = good(inspect_profile("p", &profile(",\"auth\":{\"secret\":\"s\"}")));
    assert_eq!(
        (facts.profile_id.as_str(), facts.revision, facts.protocol.as_str(), facts.model_alias.as_str()),
        ("p", 3, "open_ai_compatible", "m")
    );
    assert_eq!(facts.endpoint_origin, "http://127.0.0.1:1234");
    assert!(facts.streaming);
    assert_eq!(facts.secret, Some("s".to_owned()));
    assert!(check_secrets(&words(&["s"]), &facts).is_ok());
    assert_eq!(
        message(check_secrets(&words(&["t"]), &facts)),
        "real profile secret reference lacks an explicit --secret-source mapping"
    );
    assert_eq!(
        message(check_secrets(&words(&["s", "t", "s"]), &facts)),
        "duplicate secret source 's'"
    );
    assert_eq!(message(inspect_profile("p", &json("{}"))), "JSON field is absent");
    assert_eq!(
        message(inspect_profile("p", &json("{\"base_url\":\"nothing\"}"))),
        "relative URL without a base"
    );
    assert_eq!(
        message(inspect_profile("p", &json("{\"base_url\":\"http://h\"}"))),
        "model profile features are absent"
    );
    assert_eq!(
        message(inspect_profile("p", &json("{\"base_url\":\"http://h\",\"features\":[]}"))),
        "model profile revision is absent"
    );
}

#[test]
fn real_profiles_stay_on_the_machine() {
    let facts = good(inspect_profile("p", &profile("")));
    assert!(validate_real_profile(Mode::OperatorRealEndpoint, &profile(""), &facts).is_ok());
    let away = profile(",\"base_url\":\"http://example.org\"");
    assert!(message(validate_real_profile(Mode::OperatorRealEndpoint, &away, &facts))
        .starts_with("real local-model profile must use explicit loopback"));
    assert!(validate_real_profile(Mode::Deterministic, &away, &facts).is_ok());
    let mut other = good(inspect_profile("p", &profile("")));
    other.protocol = "anthropic".to_owned();
    assert!(message(validate_real_profile(Mode::Deterministic, &away, &other))
        .starts_with("local-model lane reuses only"));
}

#[test]
fn successes_are_observed_without_guessing() {
    let seen = observe_success(
        &json("{\"progress_observations\":4,\"usage\":{\"input_units\":1},\"outputs\":[1,2]}"),
        true,
        false,
    );
    assert_eq!(
        (seen.progress, seen.usage_input, seen.usage_output, seen.artifacts),
        (4, true, false, 2)
    );
    assert!(seen.finish_reason && !seen.response_identity);
}

#[test]
fn followed_lines_are_bounded() {
    assert!(!good(follow_line(0, 99)));
    assert!(good(follow_line(131_072, 63)));
    assert_eq!(message(follow_line(131_073, 0)), "timeline line exceeds bound");
    assert_eq!(message(follow_line(1, 64)), "timeline observation queue overflow");
    assert!(check_initial_page("{\"type\":\"run.timeline\"}").is_ok());
    assert_eq!(
        message(check_initial_page("{}")),
        "timeline follower did not establish its bounded initial page"
    );
}

#[test]
fn runs_give_attempts_children_and_outputs() {
    let read = json("{\"value\":{\"nodes\":[{\"node_id\":\"a\",\"latest_attempt_id\":\"x\"},{\"node_id\":\"b\"}]}}");
    assert_eq!(good(node_attempt(&read, "a")), "x");
    assert_eq!(message(node_attempt(&read, "b")), "JSON field is absent");
    assert_eq!(message(node_attempt(&read, "c")), "expected node absent");
    let page = json("{\"value\":{\"items\":[{\"workflow_id\":\"w\",\"run_id\":\"1\"},{\"workflow_id\":\"v\"},{\"workflow_id\":\"w\",\"run_id\":\"2\"}]}}");
    assert_eq!(good(children(&page, "w")), words(&["1", "2"]));
    assert_eq!(message(children(&page, "v")), "JSON field is absent");
    assert_eq!(message(children(&json("{}"), "v")), "run list absent");
    assert!(matches!(wait_for_child(&words(&["1", "2"]), true), Poll::Ready { value } if value == "1"));
    assert!(matches!(wait_for_child(&Vec::new(), false), Poll::Again));
    assert!(matches!(wait_for_child(&Vec::new(), true), Poll::Failed { message }
        if message == "controller child was not created"));
    let attempt = json("{\"value\":{\"outputs\":[{\"name\":\"o\",\"artifact\":{\"artifact_id\":\"i\",\"digest\":\"d\",\"size\":2,\"content_type\":\"t\"}}]}}");
    let references = good(artifact_references(&attempt));
    assert_eq!(references.len(), 1);
    assert_eq!(
        (references[0].identity.as_str(), references[0].digest.as_str(), references[0].size),
        ("i", "d", 2)
    );
    assert_eq!(references[0].media_type, Some("t".to_owned()));
    assert_eq!(good(named_output(&attempt, "o")), "i");
    assert_eq!(message(named_output(&attempt, "p")), "named output absent");
    assert_eq!(message(named_output(&json("{}"), "p")), "attempt outputs absent");
    assert_eq!(message(artifact_references(&json("{}"))), "evidence outputs absent");
}

#[test]
fn commands_are_fenced_by_sequence() {
    assert_eq!(
        submit_arguments("n", 4, "r", "/p"),
        words(&["--command-id", "submit-n", "--expected-sequence", "4", "--expected-revision", "r", "proposal", "submit", "/p"])
    );
    let approve = settlement_arguments(Settlement::Approve, "run", "n", 4, "d", "r");
    assert_eq!(
        approve,
        words(&["--yes", "--command-id", "n-approve", "--expected-sequence", "4", "--expected-revision", "r", "proposal", "approve", "run", "n", "d", "r", "decision-n"])
    );
    let apply = settlement_arguments(Settlement::Apply, "run", "n", 4, "d", "r");
    assert_eq!(apply.len(), 13);
    assert_eq!(apply[8], "apply");
    assert_eq!(
        signal_arguments("run", "go", "i", 2),
        words(&["--command-id", "i", "--expected-sequence", "2", "run", "signal", "run", "--signal-id", "i", "--signal-type", "controller.go", "--payload", "{}"])
    );
}

#[test]
fn fixtures_and_direct_work_are_checked() {
    assert!(check_profiles(4).is_ok() && accept_fixture_input(4096).is_ok());
    assert_eq!(message(check_profiles(5)), "model refusal fixture is bounded to four profiles");
    assert_eq!(message(accept_fixture_input(4097)), "fixture input exceeds bound");
    assert_eq!(
        message(accept_configuration(false, "e")),
        "operator configuration was refused: e"
    );
    assert!(accept_direct(true, true, "", true).is_ok());
    assert_eq!(message(accept_direct(false, true, "", true)), "direct admission was not accepted");
    assert_eq!(message(accept_direct(true, false, "o", true)), "direct invocation failed: o");
    assert_eq!(
        message(accept_direct(true, true, "o", false)),
        "invocation omitted terminal evidence"
    );
    assert_eq!(good(direct_output(&words(&["a", "b"]), "b")), 1);
    assert_eq!(message(direct_output(&words(&["a"]), "b")), "expected output artifact absent");
    assert_eq!(
        idle_note("origin", 7),
        "idle role observation not measured on this platform: role=origin, process=7"
    );
}

#[test]
fn reviewing_models_are_local_and_unbilled() {
    let approved = json("{\"base_url\":\"http://localhost:1/v1\",\"auth\":{\"type\":\"no_auth\"},\"billing\":{\"type\":\"unbilled\"},\"model\":\"m\"}");
    assert!(check_endpoint(&approved).is_ok() && check_billing(&approved).is_ok());
    assert_eq!(
        message(check_endpoint(&json("{\"base_url\":\"http://example.org\"}"))),
        "controller real review requires the approved loopback endpoint"
    );
    assert_eq!(
        message(check_endpoint(&json("{\"base_url\":\"http://127.0.0.1\"}"))),
        "this local scenario requires the explicitly approved no-auth endpoint"
    );
    assert_eq!(
        message(check_billing(&json("{}"))),
        "the zero-spend scenario requires an explicit unbilled declaration"
    );
    let facts = json("{\"model\":\"m\",\"base_url\":\"http://localhost:1/v1\",\"inspected\":{},\"operator_declared\":{},\"unknown\":[]}");
    assert!(check_facts(&facts, &approved).is_ok());
    assert!(check_facts(&json("{}"), &approved).is_err());
    assert!(accept_facts_size(262_144).is_ok());
    assert_eq!(message(accept_facts_size(262_145)), "server facts exceed 256 KiB");
}

#[test]
fn agents_need_no_cloud_credential() {
    let agent = |secrets: &str, arguments: &str| {
        message(check_agent(&json(&format!("{{\"profile\":{{\"environment\":{{\"secrets\":{secrets}}},\"arguments\":{arguments}}}}}"))))
    };
    assert_eq!(agent("{}", "[\"--oss\",\"--local-provider\",\"lmstudio\"]"), "");
    assert_eq!(
        agent("{\"a\":1}", "[]"),
        "local controller agent profile must not require a cloud credential"
    );
    assert_eq!(agent("{}", "null"), "agent arguments absent");
    assert_eq!(
        agent("{}", "[\"--oss\",\"lmstudio\",\"--local-provider\"]"),
        "real controller lane requires the approved local Codex/LM Studio profile"
    );
}

#[test]
fn networks_and_sources_are_extended_exactly() {
    let network = good(extend_network(json("{\"profiles\":[\"a\"],\"destinations\":[]}"), "p", "d"));
    assert_eq!(value(&network), parsed("{\"profiles\":[\"a\",\"p\"],\"destinations\":[\"d\"]}"));
    assert_eq!(message(extend_network(json("{}"), "p", "d")), "network profiles missing");
    assert_eq!(
        message(extend_network(json("{\"profiles\":[]}"), "p", "d")),
        "network destinations missing"
    );
    assert!(check_untracked("src/a.rs").is_ok());
    for path in ["/etc/x", "../x", "a/../b", "./a"] {
        assert_eq!(message(check_untracked(path)), "source path is not repository relative");
    }
    assert_eq!(
        value(&identities(json("1"), " h\n", "d", json("2"))),
        parsed("{\"binaries\":1,\"source_head\":\"h\",\"tracked_source_diff\":\"d\",\"new_source_files\":2}")
    );
}

#[test]
fn reviews_need_a_decision_and_usage() {
    let stop = json("{\"finish_reason\":\"stop\"}");
    let used = json("{\"value\":{\"usage\":{\"input_units\":1,\"output_units\":2}}}");
    let decided = Some(Decision { repair: "approved_repair".to_owned(), reason: "r".to_owned() });
    assert!(accept_review(&stop, &decided, &used).is_ok());
    assert_eq!(
        message(accept_review(&json("{}"), &decided, &used)),
        "controller review did not finish usefully"
    );
    assert_eq!(
        message(accept_review(&stop, &None, &used)),
        "untrusted model decision does not authorize the supported repair"
    );
    assert_eq!(message(accept_review(&stop, &decided, &json("{}"))), "model usage missing");
}
