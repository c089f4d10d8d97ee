//! What a scenario has made of known values.

use milkdrift_evidence::json::Json;
use milkdrift_evidence::makers::make;
use milkdrift_evidence::render::render;
use milkdrift_evidence::scenario::{Line, Scenario, Step};
use serde_json::Value;

fn converted(value: &Value) -> Json {
    match value {
        Value::Null => Json::Null,
        Value::Bool(b) => Json::flag(*b),
        Value::Number(n) => match (n.as_u64(), n.as_i64()) {
            (Some(n), _) => Json::number(n),
            (None, Some(n)) => Json::Negative(n),
            (None, None) => Json::Real(n.to_string()),
        },
        Value::String(s) => Json::text(s),
        Value::Array(v) => Json::List(v.iter().map(converted).collect()),
        Value::Object(m) => {
            Json::Object(m.iter().map(|(k, v)| (k.clone(), converted(v))).collect())
        }
    }
}

fn parsed(text: &str) -> Value {
    match serde_json::from_str(text) {
        Ok(value) => value,
        Err(error) => panic!("{error}: {text}"),
    }
}

fn json(text: &str) -> Json {
    converted(&parsed(text))
}

fn made(name: &str, args: &[&str]) -> String {
    let args: Vec<Json> = args.iter().map(|a| json(a)).collect();
    match make(name, &args, &Json::object()) {
        Ok(json) => render(&json),
        Err(failure) => format!("!{}", failure.message),
    }
}

#[test]
fn documents_are_rendered_as_compact_json() {
    for text in [
        "null",
        "[true,false,null,0,18446744073709551615,-9]",
        "{\"b\":[],\"a\":{},\"ab\":1,\"A\":\"x\"}",
        "\"quote \\\" slash \\\\ line \\n tab \\t bell \\u0007 snow \\u2603\"",
        "{\"key \\\"quoted\\\"\":{\"nested\":[{\"z\":1,\"y\":[\"\"]}]}}",
    ] {
        assert_eq!(render(&json(text)), parsed(text).to_string());
    }
    let unordered = Json::Object(vec![
        ("b".to_owned(), Json::number(1)),
        ("a".to_owned(), Json::number(2)),
    ]);
    assert_eq!(render(&unordered), "{\"a\":2,\"b\":1}");
}

#[test]
fn checks_are_filtered_and_forged() {
    let failure = "{\"checks\":[{\"name\":\"a\",\"passed\":false},{\"name\":\"b\",\"passed\":true},{\"name\":\"c\",\"passed\":false}]}";
    assert_eq!(made("failed-checks", &[failure]), "[\"a\",\"c\"]");
    assert_eq!(made("failed-checks", &["{}"]), "!checks absent");
    let unnamed = "{\"checks\":[{\"passed\":false}]}";
    assert_eq!(made("failed-checks", &[unnamed]), "!expected string in product response");
    assert_eq!(made("forged-checks", &["{}"]), "!checks absent");
    assert_eq!(made("forged-checks", &["{\"evaluation\":{\"checks\":[7]}}"]), "!checks absent");
    let report = "{\"evaluation\":{\"checks\":[{\"name\":\"a\",\"passed\":false}]}}";
    assert!(made("forged-checks", &[report]).contains("\"passed\":true"));
}

#[test]
fn runs_are_found_on_their_page() {
    let page = "{\"value\":{\"items\":[{\"workflow_id\":\"w\",\"run_id\":\"r1\"},{\"workflow_id\":\"x\",\"run_id\":\"r2\"},{\"workflow_id\":\"w\",\"run_id\":\"r3\"}]}}";
    assert_eq!(made("children", &[page, "\"w\""]), "[\"r1\",\"r3\"]");
    assert_eq!(made("children", &["{}", "\"w\""]), "!run list absent");
    assert_eq!(made("children", &[page, "null"]), "!scenario value is absent");
    let linked = "{\"value\":{\"items\":[{\"id\":1,\"published_source\":{\"execution\":\"e\"}},{\"id\":2,\"published_source\":{\"type\":\"serving\"}},{\"id\":3,\"published_source\":{\"run\":\"slotbook-caller\"}}]}}";
    for (public, mode, id) in [("\"e\"", "\"direct\"", 1), ("null", "\"peer\"", 2), ("null", "\"workflow\"", 3)] {
        let runs = made("linked-runs", &[linked, public, mode]);
        assert!(runs.starts_with(&format!("[{{\"id\":{id},")) && !runs.contains("},{"), "{runs}");
    }
    assert_eq!(made("linked-runs", &["{}", "null", "null"]), "!run inventory absent");
    let catalog = "[{\"locality\":\"host\",\"capability_id\":\"h\"},{\"locality\":\"peer\",\"capability_id\":\"p\"}]";
    assert_eq!(made("peer-capability", &[catalog]), "\"p\"");
    assert_eq!(made("peer-capability", &["[]"]), "!peer capability absent");
    assert_eq!(made("peer-capability", &["{}"]), "!origin catalog absent");
}

#[test]
fn answers_of_the_service_are_judged() {
    assert_eq!(made("active", &["{\"status\":200,\"body\":[{\"id\":1}]}"]), "{\"items\":[{\"id\":1}]}");
    assert_eq!(
        made("active", &["{\"status\":500,\"body\":[]}"]),
        "{\"violation\":\"private bookings unavailable\"}"
    );
    let period = ["\"pottery\"", "\"2027-04-10T10:00:00Z\"", "\"2027-04-10T11:00:00Z\""];
    let left = |body: &str| {
        let answer = format!("{{\"status\":200,\"body\":{body}}}");
        made("remaining", &[&answer, period[0], period[1], period[2]])
    };
    let stated = "{\"resource\":\"pottery\",\"start\":\"2027-04-10T10:00:00Z\",\"end\":\"2027-04-10T11:00:00Z\",\"remaining\":2}";
    assert_eq!(left(stated), "{\"count\":2}");
    assert_eq!(left("{}"), "{\"violation\":\"availability contract differs\"}");
    assert_eq!(
        left(&stated.replace("\"remaining\":2", "\"name\":\"Ada\"")),
        "{\"violation\":\"public response disclosed private names\"}"
    );
    assert_eq!(
        made("availability-path", &[period[1], period[2]]),
        "\"/availability?start=2027-04-10T10%3A00%3A00Z&end=2027-04-10T11%3A00%3A00Z\""
    );
    assert_eq!(made("booking-path", &["{\"id\":\"b\"}"]), "\"/reservations/b\"");
    assert_eq!(made("booking-path", &["{\"id\":7}"]), "\"/reservations/7\"");
    assert_eq!(made("booking-path", &["{}"]), "!booking identity absent");
    assert_eq!(made("first-booking", &["[{\"id\":1},{\"id\":2}]"]), "{\"id\":1}");
    assert_eq!(made("first-booking", &["[]"]), "!booking absent");
}

#[test]
fn studies_are_drawn_up() {
    let open = "{\"revision\":{\"semantic\":{\"nodes\":{\"verify-candidate\":7}}}}";
    assert_eq!(made("learning-mutations", &[open]), "!governed method is incomplete");
    let governed = "{\"revision\":{\"semantic\":{\"nodes\":{\"repair.begin\":{\"kind\":{\"config\":{\"requirement\":{}}}},\"verify-candidate\":{}}}}}";
    assert!(made("learning-mutations", &[governed]).starts_with("[{"));
    assert_eq!(made("model-destination", &["\"http://127.0.0.1:8080/v1\""]), "\"127.0.0.1:8080\"");
    assert_eq!(made("last", &["[1,2]"]), "2");
    assert_eq!(made("last", &["[]"]), "!source slot absent");
    assert_eq!(made("including", &["[1]", "2"]), "[1,2]");
    assert_eq!(made("including", &["[1]", "1"]), "[1]");
    assert_eq!(made("including", &["{}", "1"]), "!declaration provenance absent");
    assert_eq!(made("pages", &["{\"completed_run\":{\"sequence\":2}}"]), "!source run is too short");
    let granted = made("grant-slot", &["{}", "\"c\"", "\"g\""]);
    assert_eq!(granted, "{\"runtime\":{\"publication_services\":{\"c\":\"g\"}}}");
    assert_eq!(made("grant-slot", &["{}", "7", "\"g\""]), "!expected string in product response");
    assert_eq!(
        made("grant-slot", &["{\"runtime\":7}", "\"c\"", "\"g\""]),
        "!configuration is not open"
    );
    assert!(made("held-out-input", &["\"loan-a\"", "{\"required_checks\":[\"x\"]}"]).contains("\"requirements\":[\"x\"]"));
    assert_eq!(made("held-out-input", &["\"other\"", "{}"]), "!pairs absent");
    assert_eq!(made("chained", &["[1]", "[2]", "[]", "[3]", "[4]"]), "[1,2,3,4]");
    assert_eq!(
        made("rendered-elements", &["[{\"role\":\"user\",\"content\":\"x\"}]"]),
        "[{\"role\":\"user\",\"text\":\"{\\\"content\\\":\\\"x\\\",\\\"role\\\":\\\"user\\\"}\"}]"
    );
    assert_eq!(made("no-such-maker", &[]), "!scenario statement is unknown");
}

#[test]
fn proposals_are_asked_for_with_their_sources() {
    let baseline = "{\"id\":\"r\",\"content_digest\":\"d\",\"semantic\":{\"nodes\":{\"repair.plan\":{},\"done\":{}}}}";
    let selection = "{\"artifact\":\"s\",\"selection\":{\"guidance\":\"g\",\"artifacts\":[{\"artifact\":\"a\"}]}}";
    let asked = made("proposal-prompt", &[baseline, selection]);
    assert!(asked.contains("exactly [\\\"repair.plan\\\"]"), "{asked}");
    assert!(asked.contains("citation IDs are [\\\"a\\\"]"), "{asked}");
    assert_eq!(made("proposal-prompt", &[baseline, "{}"]), "!selected artifacts absent");
    assert_eq!(made("proposal-prompt", &["{}", "{}"]), "!expected string in product response");
    assert_eq!(
        made("source-evidence", &["{\"artifact\":1,\"selection\":{\"guidance\":2,\"artifacts\":[3]}}"]),
        "[\"{\\\"reference\\\":1,\\\"type\\\":\\\"artifact\\\"}\",\"{\\\"reference\\\":2,\\\"type\\\":\\\"artifact\\\"}\",\"{\\\"reference\\\":3,\\\"type\\\":\\\"artifact\\\"}\"]"
    );
    assert_eq!(made("source-evidence", &["{}"]), "!source artifacts absent");
    assert_eq!(made("source-inputs", &["{}", selection]), "!model step absent");
    let inputs = made("source-inputs", &["{\"data_inputs\":{\"own\":1}}", selection]);
    for name in ["own", "source-0", "source-1", "source-2"] {
        assert!(inputs.contains(&format!("\"{name}\":")), "{inputs}");
    }
    assert!(made("proposal-mutations", &["{\"id\":\"model\"}"]).starts_with("[{\"node\":{\"id\":\"model\"}"));
}

#[test]
fn failures_of_models_are_told_as_they_are_debugged() {
    let attempt = "{\"state\":\"s\",\"terminal\":\"line\\nbreak\",\"outputs\":[{\"name\":\"a\\\"b\"}]}";
    assert_eq!(
        made("model-failure", &["{}", attempt, "null", "2", "[\"one\",\"two\"]"]),
        Value::from(format!(
            "model attempt did not complete; fixture_requests=2; fixture_request_lines={:?}; \
             worker_failure={:?}; attempt_state=s; progress=0; terminal={:?}; outputs={:?}",
            ["one", "two"],
            None::<String>,
            Some("line\nbreak"),
            ["a\"b"],
        ))
        .to_string()
    );
}

const WAITING: [Line; 4] = [
    ("poll", "runs", "list-runs", "no child"),
    ("until", "", "yields children runs =w", ""),
    ("make", "created", "children runs =w", ""),
    ("text", "child", "created,#0", ""),
];

#[test]
fn polls_go_on_until_something_is_made() {
    let page = |runs: &str| json(&format!("{{\"value\":{{\"value\":{{\"items\":[{runs}]}}}}}}"));
    let mut scenario = Scenario::open(&WAITING, Json::object());
    assert!(matches!(scenario.begin(), Step::Perform { again: false, .. }));
    let other = "{\"workflow_id\":\"x\",\"run_id\":\"r0\"}";
    assert!(matches!(scenario.resume(page(other), false), Step::Perform { again: true, .. }));
    let child = format!("{other},{{\"workflow_id\":\"w\",\"run_id\":\"r1\"}}");
    assert!(matches!(scenario.resume(page(&child), false), Step::Done));
    assert!(scenario.known().is_text("child", "r1"));
    let mut late = Scenario::open(&WAITING, Json::object());
    late.begin();
    match late.resume(page(other), true) {
        Step::Failed { message } => assert_eq!(message, "no child"),
        step => panic!("{step:?}"),
    }
}

const MAKING: [Line; 2] = [
    ("make", "path", "booking-path item", ""),
    ("make", "url", "model-destination =http://localhost:7/", ""),
];

#[test]
fn statements_keep_what_they_make_or_fail_with_its_reason() {
    let mut scenario = Scenario::open(&MAKING, json("{\"item\":{\"id\":\"b\"}}"));
    assert!(matches!(scenario.begin(), Step::Done));
    assert!(scenario.known().is_text("path", "/reservations/b"));
    assert!(scenario.known().is_text("url", "localhost:7"));
    let mut absent = Scenario::open(&MAKING, Json::object());
    match absent.begin() {
        Step::Failed { message } => assert_eq!(message, "booking identity absent"),
        step => panic!("{step:?}"),
    }
}
