//! The Slotbook product: its cases, its verification, its callers and its qualification.

use milkdrift_evidence::application::Poll;
use milkdrift_evidence::digest::{content_digest, content_identity};
use milkdrift_evidence::failure::Checked;
use milkdrift_evidence::scripts::slotbook::{observe, qualify};
use milkdrift_evidence::slotbook::case::Case;
use milkdrift_evidence::slotbook::client::{
    call, call_arguments, command_environment, log_label, number, response_lines, text,
    timeout_secs, Caller, Expected, InvocationMode,
};
use milkdrift_evidence::slotbook::qualification::{
    accepted_execution, attempt_identity, await_readiness, candidate_args, check_start,
    check_stopped, failed_checks, forge, invocation_attempts, linked_runs, next_attempt, parts,
    passed, peer_capability, reference_args, resource_arguments,
};
use milkdrift_evidence::slotbook::service::{
    accept_input, accept_response, active, availability_path, booking, candidate_subject,
    check_candidate, check_contract, check_deployment, check_owner, cleared,
    container_identity, container_output, inspected, launch_arguments, observation, path, ready,
    remaining, require, service_base, service_token, Finding, Launch, Verdict,
};
use milkdrift_evidence::json::Json;
use serde_json::Value;

fn converted(value: &Value) -> Json {
    match value {
        Value::Null => Json::Null,
        Value::Bool(b) => Json::flag(*b),
        Value::Number(n) => match (n.as_u64(), n.as_i64()) {
            (Some(n), _) => Json::number(n),
            (None, Some(n)) => Json::Negative(n),
            (None, None) => Json::Real(n.to_string()),
        },
        Value::String(s) => Json::text(s),
        Value::Array(v) => Json::List(v.iter().map(converted).collect()),
        Value::Object(m) => {
            Json::Object(m.iter().map(|(k, v)| (k.clone(), converted(v))).collect())
        }
    }
}

fn value(json: &Json) -> Value {
    match json {
        Json::Null => Value::Null,
        Json::Bool(b) => Value::Bool(*b),
        Json::Unsigned(n) => Value::from(*n),
        Json::Negative(n) => Value::from(*n),
        Json::Real(text) => serde_json::from_str(text).unwrap_or(Value::Null),
        Json::Text(text) => Value::String(text.clone()),
        Json::List(items) => Value::Array(items.iter().map(value).collect()),
        Json::Object(entries) => {
            Value::Object(entries.iter().map(|(k, v)| (k.clone(), value(v))).collect())
        }
    }
}

fn parsed(text: &str) -> Value {
    match serde_json::from_str(text) {
        Ok(value) => value,
        Err(error) => panic!("{error}: {text}"),
    }
}

fn json(text: &str) -> Json {
    converted(&parsed(text))
}

fn words(v: &[&str]) -> Vec<String> {
    v.iter().map(|w| (*w).to_owned()).collect()
}

fn message<T>(r: Checked<T>) -> String {
    match r {
        Ok(_) => String::new(),
        Err(failure) => failure.message,
    }
}

fn good<T>(r: Checked<T>) -> T {
    match r {
        Ok(value) => value,
        Err(failure) => panic!("{}", failure.message),
    }
}

fn finding<T>(r: Verdict<T>) -> String {
    match r {
        Ok(_) => String::new(),
        Err(Finding::Violation { message }) => format!("violation: {message}"),
        Err(Finding::Unobserved { message }) => format!("unobserved: {message}"),
    }
}

#[test]
fn held_out_cases_keep_their_fixed_cutoffs_and_capacities() {
    for (resource, capacity, notice, cutoff) in [
        ("camera", 1, 0, "2027-05-03T09:00:00Z"),
        ("tripod", 2, 3600, "2027-05-04T08:00:00Z"),
        ("yoga", 4, 7200, "2027-06-08T15:00:00Z"),
        ("ceramics", 6, 86400, "2027-06-08T18:00:00Z"),
    ] {
        let application = |capacity: u64| {
            json(&format!("{{\"resource\":\"{resource}\",\"capacity\":{capacity},\"cancellation_notice_seconds\":{notice}}}"))
        };
        assert_eq!(good(Case::from_application(&application(capacity))).cutoff, cutoff);
        assert!(Case::from_application(&application(capacity + 1)).is_err());
    }
}

#[test]
fn cases_need_a_resource_a_capacity_and_a_sound_notice() {
    assert_eq!(message(Case::from_application(&json("{}"))), "resource absent");
    assert_eq!(
        message(Case::from_application(&json("{\"resource\":\"pottery\"}"))),
        "capacity absent"
    );
    assert_eq!(
        message(Case::from_application(&json(
            "{\"resource\":\"pottery\",\"capacity\":2,\"cancellation_notice_seconds\":\"0\"}"
        ))),
        "invalid cancellation notice"
    );
    let pottery = good(Case::from_application(&json("{\"resource\":\"pottery\",\"capacity\":2}")));
    assert_eq!((pottery.quantity, pottery.start), (1, "2027-04-10T10:00:00Z"));
}

#[test]
fn verifier_inputs_and_contracts_are_bounded() {
    assert!(accept_input(65_536).is_ok());
    assert_eq!(finding(accept_input(65_537)), "violation: verifier input exceeds bound");
    assert!(check_contract(2, 32).is_ok());
    assert_eq!(finding(check_contract(2, 33)), "violation: unsupported verifier contract");
    assert_eq!(finding(check_contract(1, 1)), "violation: unsupported verifier contract");
    assert!(require(true, "x").is_ok());
    assert_eq!(finding(require(false, "x")), "violation: x");
}

#[test]
fn candidates_are_their_subject_byte_for_byte() {
    let bytes = b"candidate";
    let subject = |digest: &str, size: u64| {
        json(&format!("{{\"artifact\":{{\"digest\":\"{digest}\",\"size_bytes\":{size}}}}}"))
    };
    let checked = |digest: &str, size: u64| match candidate_subject(&subject(digest, size)) {
        Ok(subject) => {
            assert_eq!(subject.read_bound, size + 1);
            finding(check_candidate(bytes, &subject))
        }
        Err(_) => "no subject".to_owned(),
    };
    assert_eq!(checked(&content_identity(bytes), 9), "");
    assert_eq!(checked(&content_digest(bytes), 9), "");
    assert_eq!(checked("candidate", 9), "violation: candidate bytes differ from subject");
    assert_eq!(
        checked(&content_digest(bytes), 8),
        "violation: candidate size differs from subject"
    );
    assert_eq!(finding(candidate_subject(&json("{}"))), "unobserved: candidate subject absent");
    assert_eq!(
        finding(candidate_subject(&json("{\"artifact\":{\"size_bytes\":1}}"))),
        "unobserved: candidate digest absent"
    );
    assert_eq!(
        finding(candidate_subject(&json("{\"artifact\":{\"digest\":\"x\"}}"))),
        "unobserved: candidate size absent"
    );
    assert_eq!(
        finding(candidate_subject(&subject("x", u64::MAX))),
        "unobserved: candidate size overflows"
    );
}

#[test]
fn digests_are_those_of_the_hash_function() {
    assert_eq!(
        content_digest(b""),
        "af1349b9f5f9a1a6a0404dea36dcc9499bcb25c9adc112b7cc9a93cae41f3262"
    );
    assert_eq!(
        content_identity(b""),
        "b3_af1349b9f5f9a1a6a0404dea36dcc9499bcb25c9adc112b7cc9a93cae41f3262"
    );
}

#[test]
fn credentials_stay_private_and_bounded() {
    assert!(matches!(service_token(" key\n"), Ok(t) if t == "key"));
    assert_eq!(finding(service_token(" \n")), "violation: invalid verifier credential");
    assert_eq!(
        finding(service_token(&"k".repeat(1025))),
        "violation: invalid verifier credential"
    );
    assert!(accept_response(b"fine", "key").is_ok());
    assert_eq!(
        finding(accept_response(b"a key b", "key")),
        "violation: candidate disclosed service credential"
    );
    assert_eq!(
        finding(accept_response(&vec![b'x'; 16_385], "key")),
        "violation: candidate response exceeds bound"
    );
}

#[test]
fn containers_are_observed_within_bounds() {
    assert!(container_output(true, 1_048_576).is_ok());
    assert_eq!(
        finding(container_output(false, 0)),
        "unobserved: container observation unavailable"
    );
    assert_eq!(
        finding(container_output(true, 1_048_577)),
        "violation: container observation exceeds bound"
    );
    let identity = "0123456789abcdefABCDEF0123456789abcdefABCDEF0123456789abcdefABCD";
    assert!(matches!(container_identity(&format!("{identity}\n")), Ok(t) if t == identity));
    assert_eq!(
        finding(container_identity(&identity[1..])),
        "violation: container identity invalid"
    );
    assert_eq!(
        finding(container_identity(&identity.replace('0', "g"))),
        "violation: container identity invalid"
    );
}

#[test]
fn launches_state_every_limit() {
    let launch = Launch {
        container: "c".to_owned(),
        directory: "/d".to_owned(),
        evaluation: "e".to_owned(),
        platform_owner: "o".to_owned(),
        candidate: "/app".to_owned(),
        image: "i".to_owned(),
    };
    let limits = json("{\"temporary_bytes\":1,\"memory_bytes\":2,\"cpu_percent\":105,\"pids\":4}");
    match launch_arguments(&launch, &limits) {
        Ok(arguments) => {
            assert_eq!(arguments.len(), 26);
            for expected in [
                "run", "--detach", "--name=c", "--cidfile=/d/container.cid",
                "--label=org.milkdrift.verification=e", "--label=org.milkdrift.platform=o",
                "--tmpfs=/tmp:rw,size=1", "--memory=2", "--memory-swap=2", "--cpus=1.05",
                "--pids-limit=4", "--volume=/app:/candidate/app:ro", "--volume=/d/config:/config:ro",
                "--volume=/d/data:/data:U", "i",
            ] {
                assert!(arguments.contains(&expected.to_owned()), "{expected}");
            }
        }
        Err(_) => panic!("limits are complete"),
    }
    assert_eq!(
        finding(launch_arguments(&launch, &json("{}"))),
        "unobserved: container limit absent"
    );
}

#[test]
fn the_published_port_gives_the_base_address() {
    assert!(matches!(service_base("8080/tcp -> 127.0.0.1:4321\n"), Ok(b) if b == "http://127.0.0.1:4321"));
    assert_eq!(finding(service_base("x")), "unobserved: invalid digit found in string");
    assert_eq!(
        finding(service_base(":65536")),
        "unobserved: number too large to fit in target type"
    );
    assert_eq!(
        finding(service_base("a:")),
        "unobserved: cannot parse integer from empty string"
    );
}

#[test]
fn readiness_is_asked_a_hundred_times() {
    assert!(matches!(ready(Some(200), 100), Ok(true)));
    assert!(matches!(ready(Some(503), 99), Ok(false)));
    assert!(matches!(ready(None, 0), Ok(false)));
    assert_eq!(finding(ready(None, 100)), "unobserved: candidate readiness not observed");
}

#[test]
fn inspections_tell_owner_and_mounts() {
    assert!(matches!(inspected(&json("[{\"a\":1},2]")), Ok(first) if value(&first) == parsed("{\"a\":1}")));
    assert_eq!(finding(inspected(&json("[]"))), "unobserved: container inspection absent");
    let owned = json("{\"Config\":{\"Labels\":{\"org.milkdrift.platform\":\"o\",\"org.milkdrift.verification\":\"e\"}}}");
    assert!(check_owner(&owned, "o", "e").is_ok());
    assert_eq!(
        finding(check_owner(&owned, "o", "f")),
        "violation: verifier cleanup ownership differs"
    );
    let state = |image: &str, mounts: &str| {
        json(&format!("{{\"Image\":\"{image}\",\"HostConfig\":{{\"ReadonlyRootfs\":true}},\"Mounts\":{mounts}}}"))
    };
    let app = "{\"Destination\":\"/candidate/app\",\"Source\":\"/a\",\"RW\":false}";
    let config = "{\"Destination\":\"/config\",\"Source\":\"/c\",\"RW\":false}";
    let checked = |image: &str, mounts: String| {
        finding(check_deployment(&state(image, &mounts), "i", "/a", "/c"))
    };
    assert_eq!(checked("sha256:i", format!("[{app},{config},{{\"Destination\":\"/data\"}}]")), "");
    assert_eq!(
        checked("j", "[]".to_owned()),
        "violation: candidate image or root protection differs"
    );
    assert_eq!(checked("i", "null".to_owned()), "unobserved: mounts absent");
    assert_eq!(checked("i", format!("[{app}]")), "violation: candidate/config mount differs");
    assert_eq!(
        checked("i", format!("[{app},{app},{config}]")),
        "violation: candidate/config mount differs"
    );
    assert_eq!(
        checked("i", format!("[{app},{config},{{\"Destination\":\"/host\"}}]")),
        "violation: unexpected candidate mount"
    );
}

#[test]
fn bookings_and_queries_are_written_exactly() {
    assert_eq!(
        value(&booking("Ada", "s", "e", 2)),
        parsed("{\"name\":\"Ada\",\"start\":\"s\",\"end\":\"e\",\"quantity\":2}")
    );
    assert_eq!(
        availability_path("2027-04-10T10:00:00Z", "a b"),
        "/availability?start=2027-04-10T10%3A00%3A00Z&end=a+b"
    );
    assert_eq!(
        availability_path("*-._~&=+%/", "\u{e9}"),
        "/availability?start=*-._%7E%26%3D%2B%25%2F&end=%C3%A9"
    );
    assert!(matches!(path(&json("{\"id\":\"7\"}"), "\"7\""), Ok(p) if p == "/reservations/7"));
    assert!(matches!(path(&json("{\"id\":7}"), "7"), Ok(p) if p == "/reservations/7"));
    assert_eq!(finding(path(&json("{}"), "")), "unobserved: booking identity absent");
    assert!(cleared(200).is_ok());
    assert_eq!(finding(cleared(204)), "violation: fixture cleanup refused");
}

#[test]
fn availability_states_the_interval_and_hides_names() {
    let asked = |status: u16, body: &str, rendered: &str| {
        let resource = json("\"pottery\"");
        match remaining(status, &json(body), rendered, &resource, "s", "e") {
            Ok(n) => n.to_string(),
            other => finding(other),
        }
    };
    let body = "{\"resource\":\"pottery\",\"start\":\"s\",\"end\":\"e\",\"remaining\":2}";
    assert_eq!(asked(200, body, body), "2");
    assert_eq!(asked(404, body, body), "violation: availability contract differs");
    assert_eq!(
        asked(200, body, "Ada"),
        "violation: public response disclosed private names"
    );
    let negative = "{\"resource\":\"pottery\",\"start\":\"s\",\"end\":\"e\",\"remaining\":-1}";
    assert_eq!(asked(200, negative, ""), "unobserved: remaining capacity absent");
    let wide = "{\"resource\":\"pottery\",\"start\":\"s\",\"end\":\"e\",\"remaining\":2,\"x\":1}";
    assert_eq!(asked(200, wide, ""), "violation: availability contract differs");
    assert!(matches!(active(200, &json("[1]")), Ok(l) if value(&l) == parsed("[1]")));
    assert_eq!(finding(active(200, &json("{}"))), "violation: private bookings unavailable");
}

#[test]
fn observations_keep_refused_and_unseen_apart() {
    assert_eq!(
        value(&observation("c", &Ok(()))),
        parsed("{\"name\":\"c\",\"passed\":true,\"diagnostic\":\"observed declared check\"}")
    );
    assert_eq!(
        value(&observation("c", &Err(Finding::Violation { message: "m".to_owned() }))),
        parsed("{\"name\":\"c\",\"passed\":false,\"diagnostic\":\"m\"}")
    );
    assert_eq!(
        value(&observation("c", &Err(Finding::Unobserved { message: "m".to_owned() }))),
        parsed("{\"name\":\"c\",\"passed\":null,\"diagnostic\":\"declared check could not be observed\"}")
    );
    assert!(observe("public-availability", json("{}")).is_some());
    assert!(observe("other", json("{}")).is_none());
    assert!(observe("exact-deployment", json("{}")).is_none());
    for mode in [InvocationMode::Direct, InvocationMode::Workflow, InvocationMode::Peer] {
        for part in parts(true, mode) {
            assert!(qualify(part, json("{}")).is_some(), "{part}");
        }
    }
    assert!(qualify("other", json("{}")).is_none());
}

#[test]
fn calls_carry_their_label_and_timeout() {
    assert_eq!(timeout_secs(&words(&["run", "wait", "r"])), 600);
    assert_eq!(timeout_secs(&words(&["wait", "run"])), 240);
    assert_eq!(
        call_arguments("l", &words(&["run", "show"])),
        words(&["--json", "--yes", "--timeout-secs", "240", "--command-id", "l", "run", "show"])
    );
    let environment = |caller: Caller| command_environment("/r", "/own", 1, Some(2), caller);
    assert_eq!(environment(Caller::Operator), ("http://127.0.0.1:1".to_owned(), "/own".to_owned()));
    assert_eq!(environment(Caller::Origin), ("http://127.0.0.1:2".to_owned(), "/own".to_owned()));
    assert_eq!(environment(Caller::Consumer).1, "/r/consumer.token");
    assert_eq!(environment(Caller::Learner).1, "/r/learning-05/learner.token");
    assert_eq!(environment(Caller::Evaluator).1, "/r/learning-05/evaluator.token");
    assert_eq!(log_label("l", false, 3), "l");
    assert_eq!(log_label("l", true, 3), "l-replay-3");
    assert_eq!(InvocationMode::Peer.name(), "peer");
    assert_eq!(message(text(&json("1"))), "expected string in product response");
    assert_eq!(message(number(&json("\"1\""))), "expected integer in product response");
}

#[test]
fn dispositions_decide_whether_a_call_counts() {
    let called = |expected: Expected, succeeded: bool, page: &str| {
        call("l", expected, succeeded, "out", "err", &vec![json(page)])
    };
    assert!(called(Expected::Success, true, "{}").is_ok());
    assert_eq!(
        message(called(Expected::Success, false, "{}")),
        "l returned unexpected disposition: out err"
    );
    assert!(called(Expected::Refused, false, "{}").is_ok());
    assert!(called(Expected::Refused, true, "{}").is_err());
    let stale = "{\"status\":\"failure\",\"value\":{\"type\":\"rejected\",\"code\":\"catalog_stale\"}}";
    assert!(called(Expected::PreAcceptanceRetry, false, stale).is_ok());
    let known = "{\"status\":\"failure\",\"value\":{\"type\":\"rejected\",\"code\":\"deadline\",\"known_execution\":\"x\"}}";
    assert!(called(Expected::PreAcceptanceRetry, false, known).is_err());
    assert_eq!(
        message(call("l", Expected::Success, true, "", "", &Vec::new())),
        "CLI produced no response"
    );
}

#[test]
fn blank_lines_are_no_pages() {
    assert_eq!(response_lines("{\"a\":1}\n \t\n{}\r\n"), vec!["{\"a\":1}", "{}"]);
    assert!(response_lines(" \n").is_empty());
}

#[test]
fn observations_of_pages_merge_in_sequence() {
    let pages = vec![
        json("{\"type\":\"invocation.wait\",\"value\":{\"observations\":[{\"sequence\":3},{\"sequence\":1}]}}"),
        json("{\"type\":\"invocation.wait\",\"value\":{\"observations\":[{\"sequence\":3,\"new\":true}],\"history\":{\"type\":\"archived\",\"summary\":{\"output_observations\":[{\"sequence\":2}],\"final_observation\":{\"sequence\":9}}}}}"),
    ];
    let merged = good(call("l", Expected::Success, true, "1\n\n2\n", "", &pages));
    assert_eq!(
        value(&merged.get("value,observations")),
        parsed("[{\"sequence\":1},{\"sequence\":2},{\"sequence\":3,\"new\":true},{\"sequence\":9}]")
    );
    let again = good(call("l", Expected::Success, true, "1\n", "", &vec![merged.copy()]));
    assert!(again.same(&merged));
    let absent = vec![json("{\"type\":\"invocation.wait\",\"value\":{}}")];
    assert_eq!(
        message(call("l", Expected::Success, true, "1\n", "", &absent)),
        "observations absent"
    );
}

#[test]
fn qualification_starts_within_its_rules() {
    assert!(check_start(false, InvocationMode::Direct, 4_194_304).is_ok());
    assert_eq!(
        message(check_start(false, InvocationMode::Peer, 1)),
        "invocation mode requires --published"
    );
    assert_eq!(
        message(check_start(true, InvocationMode::Peer, 4_194_305)),
        "candidate exceeds example allocation"
    );
    assert!(check_stopped(0).is_ok());
    assert_eq!(message(check_stopped(1)), "qualification daemons already running");
}

#[test]
fn evaluations_pass_with_every_check() {
    let evaluation = |checks: &str| json(&format!("{{\"complete\":true,\"checks\":{checks}}}"));
    assert!(passed(&evaluation("[{\"passed\":true},{\"passed\":true}]")));
    assert!(!passed(&evaluation("[]")));
    assert!(!passed(&evaluation("[{\"passed\":true},{\"passed\":null}]")));
    assert!(!passed(&json("{\"complete\":false,\"checks\":[{\"passed\":true}]}")));
    let mixed = evaluation("[{\"name\":\"a\",\"passed\":false},{\"name\":\"b\",\"passed\":true},{\"name\":\"c\",\"passed\":false}]");
    assert_eq!(good(failed_checks(&mixed)), words(&["a", "c"]));
    assert_eq!(message(failed_checks(&json("{}"))), "checks absent");
    assert_eq!(
        message(failed_checks(&evaluation("[{\"passed\":false}]"))),
        "expected string in product response"
    );
}

#[test]
fn forged_reports_pass_every_check() {
    let report = json("{\"evaluation\":{\"complete\":true,\"checks\":[{\"name\":\"a\",\"passed\":false,\"diagnostic\":\"d\"},null]}}");
    let forged = good(forge(&report));
    assert_eq!(
        value(&forged),
        parsed("[{\"name\":\"a\",\"passed\":true,\"diagnostic\":\"untrusted fabricated pass\"},{\"passed\":true,\"diagnostic\":\"untrusted fabricated pass\"}]")
    );
    let complete = json("{\"complete\":true}").with("checks", forged);
    assert!(passed(&complete));
    assert_eq!(message(forge(&json("{}"))), "checks absent");
}

#[test]
fn arguments_name_recipes_and_candidates() {
    assert_eq!(
        good(reference_args(&json("{\"name\":\"n\",\"digest\":\"d\"}"))),
        words(&["--recipe", "n", "--digest", "d"])
    );
    assert_eq!(
        message(reference_args(&json("{\"name\":\"n\"}"))),
        "expected string in product response"
    );
    let candidate = json("{\"id\":\"i\",\"digest\":\"d\",\"media_type\":\"m\",\"size_bytes\":5}");
    assert_eq!(
        good(candidate_args(&candidate, "id")),
        words(&["--artifact", "i", "--digest", "d", "--media-type", "m", "--size-bytes", "5"])
    );
    assert!(candidate_args(&candidate, "other").is_err());
    assert_eq!(
        resource_arguments("x", 3, "stop", &words(&["--now"])),
        words(&["resource", "--installation", "x", "--expected-version", "3", "stop", "--now"])
    );
}

#[test]
fn runs_link_to_their_publication() {
    let page = json("{\"value\":{\"items\":[{\"n\":1,\"published_source\":{\"execution\":\"x\",\"run\":\"slotbook-caller\"}},{\"n\":2,\"published_source\":{\"type\":\"serving\"}}]}}");
    let linked = |public: Option<&str>, mode: InvocationMode| {
        value(&good(linked_runs(&page, public, mode)))
            .as_array()
            .map(|v| v.iter().map(|r| r["n"].clone()).collect::<Vec<Value>>())
    };
    assert_eq!(linked(Some("x"), InvocationMode::Direct), Some(vec![Value::from(1)]));
    assert_eq!(linked(Some("y"), InvocationMode::Direct), Some(Vec::new()));
    assert_eq!(linked(None, InvocationMode::Peer), Some(vec![Value::from(2)]));
    assert_eq!(linked(None, InvocationMode::Workflow), Some(vec![Value::from(1)]));
    assert_eq!(
        message(linked_runs(&json("{}"), None, InvocationMode::Peer)),
        "run inventory absent"
    );
    let catalog = json("{\"items\":[{\"locality\":\"local\"},{\"locality\":\"peer\",\"capability_id\":\"c\"}]}");
    assert_eq!(good(peer_capability(&catalog)), "c");
    assert_eq!(message(peer_capability(&json("[]"))), "peer capability absent");
    assert_eq!(message(peer_capability(&json("{}"))), "origin catalog absent");
}

#[test]
fn retained_attempts_come_first_and_none_is_lost() {
    let order = invocation_attempts(&vec![false, true, false, true, false, false]);
    assert_eq!(order, vec![3, 1, 0, 2, 4, 5]);
    assert_eq!(good(next_attempt(&order, 0)), 3);
    assert_eq!(good(next_attempt(&order, 5)), 5);
    assert_eq!(
        message(next_attempt(&order, 6)),
        "catalog changed across six explicit refusals without acceptance"
    );
    assert_eq!(attempt_identity("l", 0), "l");
    assert_eq!(attempt_identity("l", 2), "l-2");
    assert_eq!(
        good(accepted_execution(&json("{\"status\":\"success\",\"value\":{\"execution\":\"x\"}}"))),
        Some("x".to_owned())
    );
    assert_eq!(good(accepted_execution(&json("{\"status\":\"failure\"}"))), None);
    assert!(accepted_execution(&json("{\"status\":\"success\"}")).is_err());
}

#[test]
fn parts_follow_how_the_build_is_invoked() {
    assert_eq!(
        parts(false, InvocationMode::Direct),
        ["open", "run", "repair", "completed", "served", "renewed"]
    );
    assert_eq!(
        parts(true, InvocationMode::Direct),
        [
            "open", "direct", "link", "repair", "handoff", "completed", "public-result", "served",
            "public-replay", "no-deployment", "renewed"
        ]
    );
    assert_eq!(
        parts(true, InvocationMode::Peer),
        [
            "open", "peer", "link", "repair", "handoff", "completed", "outer-result", "served",
            "outer-replay", "no-deployment", "renewed"
        ]
    );
}

#[test]
fn readiness_of_the_daemons_is_awaited() {
    assert!(matches!(await_readiness(false, true, None, 0), Poll::Ready { value: () }));
    assert!(matches!(await_readiness(false, true, Some(false), 0), Poll::Again));
    assert!(matches!(await_readiness(false, false, Some(true), 199), Poll::Again));
    assert!(matches!(await_readiness(true, true, None, 0), Poll::Failed { message }
        if message == "daemon exited before readiness"));
    assert!(matches!(await_readiness(false, true, None, 200), Poll::Failed { message }
        if message == "qualification readiness deadline"));
}
