//! The study that learns a method: its documents, its proposals and its comparison.

use milkdrift_evidence::failure::Checked;
use milkdrift_evidence::slotbook::learning::{
    admit_learner, artifacts, cap_reference, check_attempt, check_network, command_result, including, keys,
    metadata_reference, operator_of, output, receipt, retain, slot_declaration, study_receipt,
    uploaded_reference, Attempt, LEARNER, OPERATOR,
};
use milkdrift_evidence::slotbook::method::{
    effect, learning_mutations, method_mutations, repair_mutations, worker,
};
use milkdrift_evidence::slotbook::proposal::{
    accept_request, authorized_artifacts, candidate_draft, citations, completion, draft,
    editable_nodes, exchange_label, prompt, proposal_mutations, provenance, refusal, sources,
    with_sources, Mode, PROMPT_CLOSE, PROMPT_TASK,
};
use milkdrift_evidence::slotbook::study::{
    approval, cases, containerfile, eligible, evaluation_key, grant_slot, next_phase, note, pages, pair,
    product_document, selected, slot_document, slot_grant, slot_port, slots, trust_slot, variant_document,
    variant_inputs, worker_descriptor, worker_inputs, Phase, OBLIGATIONS,
};
use milkdrift_evidence::json::Json;
use serde_json::Value;

fn converted(value: &Value) -> Json {
    match value {
        Value::Null => Json::Null,
        Value::Bool(b) => Json::flag(*b),
        Value::Number(n) => match (n.as_u64(), n.as_i64()) {
            (Some(n), _) => Json::number(n),
            (None, Some(n)) => Json::Negative(n),
            (None, None) => Json::Real(n.to_string()),
        },
        Value::String(s) => Json::text(s),
        Value::Array(v) => Json::List(v.iter().map(converted).collect()),
        Value::Object(m) => {
            Json::Object(m.iter().map(|(k, v)| (k.clone(), converted(v))).collect())
        }
    }
}

fn value(json: &Json) -> Value {
    match json {
        Json::Null => Value::Null,
        Json::Bool(b) => Value::Bool(*b),
        Json::Unsigned(n) => Value::from(*n),
        Json::Negative(n) => Value::from(*n),
        Json::Real(text) => serde_json::from_str(text).unwrap_or(Value::Null),
        Json::Text(text) => Value::String(text.clone()),
        Json::List(items) => Value::Array(items.iter().map(value).collect()),
        Json::Object(entries) => {
            Value::Object(entries.iter().map(|(k, v)| (k.clone(), value(v))).collect())
        }
    }
}

fn parsed(text: &str) -> Value {
    match serde_json::from_str(text) {
        Ok(value) => value,
        Err(error) => panic!("{error}: {text}"),
    }
}

fn json(text: &str) -> Json {
    converted(&parsed(text))
}

fn words(v: &[&str]) -> Vec<String> {
    v.iter().map(|w| (*w).to_owned()).collect()
}

fn message<T>(r: Checked<T>) -> String {
    match r {
        Ok(_) => String::new(),
        Err(failure) => failure.message,
    }
}

fn good<T>(r: Checked<T>) -> T {
    match r {
        Ok(value) => value,
        Err(failure) => panic!("{}", failure.message),
    }
}

fn requirement() -> Json {
    json("{\"categories\":[],\"operation\":\"process.execute\"}")
}

fn baseline() -> Json {
    let node = worker(
        "repair.build-1",
        &requirement(),
        &vec!["/bin/cp", "/fixtures/slotbook-seeded", "/workspace/app"],
        false,
    );
    json("{\"id\":\"base-1\",\"content_digest\":\"b3_x\",\"semantic\":{\"nodes\":{\"verify-1\":{},\"repair.a\":{}}}}")
        .set("semantic,nodes,repair.build-1", node)
}

#[test]
fn controlled_responses_use_the_ordinary_closed_proposal_reader() {
    let base = baseline();
    let selection = json("{\"artifacts\":[{\"artifact\":\"selected-source\"}]}");
    for mode in [Mode::Useful, Mode::NoImprovement, Mode::InventedEvidence, Mode::ForbiddenEdit] {
        let proposal = good(draft(&base, &selection, mode));
        assert_eq!(proposal.text_at("draft,base_revision"), base.text_at("id"));
        let fields = value(&proposal.get("draft"));
        assert_eq!(fields.as_object().map(|m| m.len()), Some(18));
    }
    let malformed = good(draft(&base, &selection, Mode::Malformed));
    assert_eq!(value(&malformed), parsed("{\"schema_version\":1,\"draft\":{}}"));
}

#[test]
fn drafts_differ_by_mode() {
    let base = baseline();
    let selection = json("{\"artifacts\":[{\"artifact\":\"selected-source\"}]}");
    let argv = "draft,mutation,#0,node,data_inputs,command,binding,value,argv";
    let useful = good(draft(&base, &selection, Mode::Useful));
    assert_eq!(value(&useful.get(argv)), parsed("[\"/bin/cp\",\"/fixtures/slotbook\",\"/workspace/app\"]"));
    assert_eq!(
        value(&useful.get("draft,evidence")),
        parsed("[{\"kind\":\"worker_observation\",\"id\":\"selected-source\"}]")
    );
    let same = good(draft(&base, &selection, Mode::NoImprovement));
    assert_eq!(
        value(&same.get(argv)),
        parsed("[\"/bin/cp\",\"-f\",\"/fixtures/slotbook-seeded\",\"/workspace/app\"]")
    );
    let invented = good(draft(&base, &json("{}"), Mode::InventedEvidence));
    assert_eq!(
        value(&invented.get("draft,evidence")),
        parsed("[{\"kind\":\"worker_observation\",\"id\":\"invented-source\"}]")
    );
    let forbidden = good(draft(&base, &selection, Mode::ForbiddenEdit));
    assert_eq!(
        value(&forbidden.get("draft,mutation")),
        parsed("[{\"type\":\"remove_node\",\"node\":\"verify-1\"}]")
    );
    assert_eq!(
        message(draft(&json("{}"), &selection, Mode::Useful)),
        "fixture baseline has no native worker command"
    );
    assert_eq!(
        message(draft(&base, &json("{}"), Mode::Useful)),
        "fixture source artifacts absent"
    );
}

#[test]
fn prompts_list_the_editable_nodes_as_json() {
    let base = baseline();
    assert_eq!(good(editable_nodes(&base)), words(&["repair.a", "repair.build-1"]));
    let asked = good(prompt(&base, "[\"s\"]"));
    assert!(asked.starts_with(PROMPT_TASK) && asked.ends_with(PROMPT_CLOSE));
    assert!(asked.contains(" are exactly [\"repair.a\",\"repair.build-1\"]. A replace_node"));
    assert!(asked.contains("base_revision base-1, base_digest b3_x, observed"));
    assert!(asked.contains("citation IDs are [\"s\"]. Cite"));
    assert_eq!(
        message(prompt(&json("{\"id\":\"a\",\"content_digest\":\"b\"}"), "[]")),
        "baseline nodes absent"
    );
    assert_eq!(message(prompt(&json("{}"), "[]")), "expected string in product response");
}

#[test]
fn selections_give_citations_and_sources() {
    let selection = json("{\"artifact\":\"a\",\"selection\":{\"guidance\":\"g\",\"artifacts\":[{\"artifact\":\"x\"},{}]}}");
    assert_eq!(value(&good(citations(&selection))), parsed("[\"x\",null]"));
    assert_eq!(value(&good(sources(&selection))), parsed("[\"a\",\"g\",{\"artifact\":\"x\"},{}]"));
    assert_eq!(message(citations(&json("{}"))), "selected artifacts absent");
    assert_eq!(message(sources(&json("{}"))), "source artifacts absent");
    let allowed = authorized_artifacts(
        &json("[{\"artifact\":\"x\"}]"),
        &json("{\"artifact_id\":\"r\"}"),
        &json("{\"context_manifest\":{\"artifact_id\":\"m\"}}"),
    );
    assert_eq!(value(&allowed), parsed("[\"x\",\"r\",\"m\"]"));
    let inputs = value(&with_sources(json("{\"prompt\":1}"), &words(&["r0", "r1"])));
    assert_eq!(inputs["source-1"]["binding"]["reference"], Value::from("r1"));
    assert_eq!(inputs["source-0"]["required"], Value::Bool(true));
    assert_eq!(inputs["prompt"], Value::from(1));
}

#[test]
fn candidates_keep_the_proposal_and_its_provenance() {
    let made = good(candidate_draft(
        &json("{\"digest\":\"d\",\"rationale\":\"r\",\"proposer\":\"x\"}"),
        json("{\"type\":\"model\"}"),
        json("[1]"),
    ));
    assert_eq!(
        value(&made),
        parsed("{\"rationale\":\"r\",\"proposer\":\"agent:slotbook-learner\",\"identity\":\"learning-candidate\",\"provenance\":{\"type\":\"model\"},\"mutation\":[1]}")
    );
    assert_eq!(message(candidate_draft(&json("[]"), json("{}"), json("[]"))), "proposal absent");
    let origin = value(&provenance(
        &json("{\"invocation_id\":\"i\",\"provider_profile\":\"p\",\"context_manifest\":{\"artifact_id\":\"m\",\"digest\":\"d\",\"content_type\":\"c\",\"size\":1}}"),
        &json("{\"artifact_id\":\"r\",\"digest\":\"e\",\"content_type\":\"f\",\"size\":2}"),
    ));
    assert_eq!(
        origin,
        parsed("{\"type\":\"model\",\"capability\":\"slotbook-learning-model\",\"invocation\":\"i\",\"model_profile\":\"p\",\"context_manifest\":{\"identity\":\"m\",\"digest\":\"d\",\"media_type\":\"c\",\"size_bytes\":1},\"response_artifact\":{\"identity\":\"r\",\"digest\":\"e\",\"media_type\":\"f\",\"size_bytes\":2}}")
    );
    assert_eq!(
        value(&refusal("r", &json("1"), "why")),
        parsed("{\"run\":\"r\",\"response\":1,\"outcome\":\"invalid_proposal\",\"reason\":\"why\",\"candidate_substituted\":false}")
    );
}

#[test]
fn the_fixture_model_answers_chat_completions() {
    assert!(accept_request("POST /v1/chat/completions HTTP/1.1").is_ok());
    assert_eq!(
        message(accept_request("GET /v1/chat/completions HTTP/1.1")),
        "fixture endpoint only accepts chat completions"
    );
    let answer = value(&completion(3, "text"));
    assert_eq!(answer["id"], Value::from("slotbook-fixture-3"));
    assert_eq!(answer["choices"][0]["message"]["content"], Value::from("text"));
    assert_eq!(answer["usage"]["total_tokens"], Value::from(2));
    assert_eq!(good(exchange_label(&baseline(), 2)), "fixture-base-1-2");
}

#[test]
fn attempts_have_keys_of_their_own() {
    let first = Attempt { proposal: 1, validation: 1 };
    let second = Attempt { proposal: 2, validation: 3 };
    assert_eq!(first.key("stem"), "stem");
    assert_eq!(second.key("stem"), "stem-2");
    assert_eq!(second.key("learning-candidate"), "learning-candidate-validation-3-2");
    assert!(check_attempt(first, false).is_ok());
    assert_eq!(
        message(check_attempt(second, false)),
        "a new proposal attempt requires --resume of its frozen study"
    );
    assert_eq!(value(&receipt("c", "a")), parsed("{\"actor\":\"a\",\"command\":\"c\"}"));
    assert_eq!(
        value(&study_receipt(second, "c", "a")),
        parsed("{\"actor\":\"a\",\"command\":\"c-2\"}")
    );
}

#[test]
fn retained_documents_do_not_change() {
    assert!(good(retain(None, b"a", "m")));
    assert!(!good(retain(Some(b"a"), b"a", "m")));
    assert_eq!(message(retain(Some(b"b"), b"a", "m")), "m");
}

#[test]
fn references_are_rewritten_field_by_field() {
    let uploaded = uploaded_reference(&json(
        "{\"artifact_id\":\"i\",\"digest\":\"d\",\"content_type\":\"m\",\"size\":3}",
    ));
    assert_eq!(
        value(&uploaded),
        parsed("{\"artifact\":\"i\",\"digest\":\"d\",\"media_type\":\"m\",\"size_bytes\":3}")
    );
    assert_eq!(
        value(&cap_reference(&uploaded)),
        parsed("{\"identity\":\"i\",\"digest\":\"d\",\"media_type\":\"m\",\"size_bytes\":3}")
    );
    assert_eq!(
        value(&metadata_reference(&json("{\"artifact_id\":\"i\"}"))),
        parsed("{\"identity\":\"i\",\"digest\":null,\"media_type\":null,\"size_bytes\":null}")
    );
    assert_eq!(
        value(&command_result(&json("{\"status\":\"success\",\"value\":{\"value\":7}}"))),
        Value::from(7)
    );
    assert_eq!(value(&command_result(&json("{\"a\":1}"))), parsed("{\"a\":1}"));
}

#[test]
fn slots_are_declared_with_their_state() {
    let slot = json("{\"worker\":\"w\",\"target\":\"t\",\"worker_state\":{\"recipe\":{\"digest\":\"a\"},\"generation\":1},\"target_state\":{\"recipe\":{\"digest\":\"b\"},\"generation\":2}}");
    assert_eq!(
        value(&slot_declaration(&slot, "q")),
        parsed("{\"invocation\":{\"actor\":\"human:learning-operator\",\"request\":\"q\"},\"workspace\":\"w\",\"workspace_configuration\":\"a\",\"workspace_generation\":1,\"target\":\"t\",\"configuration\":\"b\",\"generation\":2}")
    );
}

#[test]
fn worker_outputs_are_found_by_media_type() {
    let observed = json("{\"observations\":[{\"category\":\"progress\"},{\"category\":\"artifact\",\"event\":{\"kind\":{\"reference\":{\"media_type\":\"m\",\"identity\":\"x\"}}}}]}");
    assert_eq!(good(output(&observed, "m")).text_at("identity"), Some("x".to_owned()));
    assert_eq!(message(output(&observed, "n")), "worker artifact absent");
    assert_eq!(message(output(&json("{}"), "m")), "worker observations absent");
}

#[test]
fn inclusion_repeats_nothing() {
    let once = good(including(json("{\"a\":{\"b\":[1]}}"), "a,b", &json("2"), "m"));
    assert_eq!(value(&once), parsed("{\"a\":{\"b\":[1,2]}}"));
    let twice = good(including(once.copy(), "a,b", &json("2"), "m"));
    assert!(twice.same(&once));
    assert_eq!(message(including(json("{}"), "a,b", &json("2"), "m")), "m");
}

#[test]
fn actors_are_admitted_once() {
    let config = json(&format!("{{\"actors\":[{{\"actor\":\"{OPERATOR}\",\"authority\":{{\"resources\":{{\"network\":{{\"profiles\":[\"p\"],\"destinations\":[\"d\"]}}}}}}}}]}}"));
    assert_eq!(good(operator_of(&config, "m")).text_at("actor"), Some(OPERATOR.to_owned()));
    assert_eq!(message(operator_of(&json("{\"actors\":[]}"), "m")), "m");
    assert_eq!(message(operator_of(&json("{}"), "m")), "actors absent");
    let learner = json(&format!("{{\"actor\":\"{LEARNER}\",\"grant\":1}}"));
    let admitted = good(admit_learner(config.copy(), &learner));
    assert_eq!(admitted.count("actors"), 2);
    assert!(good(admit_learner(admitted.copy(), &learner)).same(&admitted));
    let other = json(&format!("{{\"actor\":\"{LEARNER}\",\"grant\":2}}"));
    assert_eq!(
        message(admit_learner(admitted, &other)),
        "retained learner grant differs; explicit new grant revision required"
    );
    assert!(check_network(&config, &json("{\"identity\":\"p\"}"), "d").is_ok());
    assert!(message(check_network(&config, &json("{\"identity\":\"q\"}"), "d"))
        .starts_with("the new proposal profile requires"));
    assert_eq!(
        message(check_network(&json("{\"actors\":[]}"), &json("{}"), "d")),
        "learning operator absent"
    );
}

#[test]
fn the_study_has_four_cases_and_eleven_slots() {
    let held_out = cases();
    assert_eq!(held_out.iter().map(|c| c.name).collect::<Vec<&str>>(), ["loan-a", "loan-b", "class-a", "class-b"]);
    assert_eq!(
        value(&held_out[1].application),
        parsed("{\"resource\":\"tripod\",\"capacity\":2,\"cancellation_notice_seconds\":3600}")
    );
    let all = slots();
    assert_eq!(all.len(), 11);
    assert_eq!(all[10].0, "learn-source");
    assert_eq!(slot_port(65_525, 10), 65_535);
    assert_eq!(slot_grant("learn-source"), "grant:learning-source");
    assert_eq!(slot_grant("learn-loan-a-baseline"), "grant:learn-loan-a-baseline");
    assert_eq!(
        value(&slot_document("n", json("1"))),
        parsed("{\"name\":\"n\",\"worker\":\"n-work\",\"target\":\"n-target\",\"capability\":\"evaluation:n\",\"application\":1}")
    );
    let product = value(&product_document(&held_out[0], &json("{\"required_checks\":[\"c\"]}")));
    assert_eq!(product["operator_obligations"], Value::from(OBLIGATIONS));
    assert_eq!(product["requirements"], parsed("[\"c\"]"));
}

#[test]
fn configurations_take_grants_and_credentials() {
    let config = json("{\"runtime\":{},\"secret_sources\":{\"a\":1}}");
    let granted = grant_slot(config, "evaluation:n", "grant:n");
    assert_eq!(
        value(&granted.get("runtime")),
        parsed("{\"publication_services\":{\"evaluation:n\":\"grant:n\"}}")
    );
    let trusted = trust_slot(granted, "n", "/t");
    assert_eq!(
        value(&trusted.get("secret_sources")),
        parsed("{\"a\":1,\"credential:n\":{\"type\":\"file\",\"path\":\"/t\"}}")
    );
}

#[test]
fn both_arms_share_their_product() {
    let state: Vec<Json> = (0..11)
        .map(|i| json(&format!("{{\"worker\":\"w{i}\",\"application\":{i}}}")))
        .collect();
    let made = value(&pair("loan-b", &json("\"input\""), &state, 1));
    assert_eq!(made["input"], Value::from("input"));
    assert_eq!(made["baseline"]["workspace"], Value::from("w2"));
    assert_eq!(made["candidate"]["workspace"], Value::from("w3"));
    assert_eq!(made["candidate"]["invocation"]["request"], Value::from("evaluate-loan-b-candidate"));
    assert_eq!(evaluation_key("loan-b", "baseline"), "evaluate-loan-b-baseline");
    assert_eq!(
        value(&variant_document(&json("{\"input\":1}"), &json("{\"application\":2}"), &json("{\"id\":3}"))),
        parsed("{\"lineage\":1,\"application\":2,\"method\":3,\"purpose\":\"independent product variant under the selected method\"}")
    );
}

#[test]
fn observed_pages_cover_both_ends_of_a_run() {
    let source = json("{\"internal_run\":\"r\",\"completed_run\":{\"sequence\":20}}");
    assert_eq!(
        value(&good(pages(&source))),
        parsed("[{\"run\":\"r\",\"first\":1,\"count\":3},{\"run\":\"r\",\"first\":10,\"count\":3},{\"run\":\"r\",\"first\":17,\"count\":4}]")
    );
    assert_eq!(message(pages(&json("{}"))), "expected integer in product response");
}

#[test]
fn invocations_name_their_inputs() {
    let inputs = value(&variant_inputs(
        &json("{\"artifact\":\"a\",\"digest\":\"d\",\"media_type\":\"m\",\"size_bytes\":1}"),
        &json("{\"inputs\":{\"target-1\":{\"values\":[\"x\"]},\"target-2\":{\"values\":[\"y\"]},\"target-3\":{\"values\":[\"z\"]}}}"),
    ));
    assert_eq!(inputs[0]["value"]["reference"]["identity"], Value::from("a"));
    assert_eq!(inputs[3], parsed("{\"name\":\"target-3\",\"value\":{\"type\":\"inline\",\"value\":\"z\"}}"));
    assert_eq!(
        value(&worker_inputs(&vec!["/bin/cat"], true)),
        parsed("[{\"name\":\"command\",\"value\":{\"type\":\"inline\",\"value\":{\"argv\":[\"/bin/cat\"],\"stdout_artifact\":true}}}]")
    );
    let catalog = json("{\"value\":{\"catalog\":{\"entries\":[{\"descriptor\":{\"identity\":\"managed.w.worker\",\"n\":1}}]}}}");
    assert_eq!(good(worker_descriptor(&catalog, "w")).number_at("n"), Some(1));
    assert_eq!(message(worker_descriptor(&catalog, "v")), "worker descriptor absent");
    assert_eq!(message(worker_descriptor(&json("{}"), "v")), "catalog absent");
}

#[test]
fn comparisons_decide_the_promotion() {
    let won = json("{\"result\":{\"outcome\":\"eligible\"}}");
    assert!(eligible(&won) && !eligible(&json("{}")));
    let attempt = Attempt { proposal: 2, validation: 1 };
    assert_eq!(
        value(&approval(&json("{\"promoted\":true}"), &attempt.key("learning-automatic-promotion"))),
        parsed("{\"actor\":\"agent:slotbook-evaluator\",\"command\":\"learning-automatic-promotion-2\"}")
    );
    assert_eq!(value(&approval(&json("{\"promoted\":false}"), "")), Value::Null);
    assert_eq!(
        good(note(&json("{\"digest\":\"d\"}"), &json("{\"generation\":4}"), &json("{\"selected_method\":\"m\",\"promoted\":true}"), &attempt.key("learning-comparison"))),
        "Maintained tool recipe d at generation 4 was verified in a fresh installation before activation. Candidate bytes were preserved. Selected method: m. Comparison: agent:slotbook-evaluator/learning-comparison-2; promoted: true. Future tasks must select this guidance explicitly."
    );
    assert_eq!(
        message(note(&json("{}"), &json("{}"), &json("{}"), "")),
        "expected string in product response"
    );
}

#[test]
fn variants_use_the_selected_method() {
    let (revised, baseline) = (json("{\"id\":\"new\"}"), json("{\"id\":\"old\"}"));
    let won = json("{\"result\":{\"outcome\":\"eligible\"}}");
    assert!(selected(&won, &revised, &baseline).is_text("id", "new"));
    assert!(selected(&json("{}"), &revised, &baseline).is_text("id", "old"));
}

fn phases(retained: bool, proposal: u8, proposal_only: bool) -> Vec<Phase> {
    let attempt = Attempt { proposal, validation: 1 };
    let mut all = vec![Phase::Begin];
    while all.last() != Some(&Phase::Done) {
        let done = all[all.len() - 1];
        all.push(next_phase(done, retained, attempt, proposal_only));
    }
    all
}

#[test]
fn the_comparison_is_fixed_before_the_proposal() {
    assert_eq!(
        phases(false, 1, false),
        vec![
            Phase::Begin, Phase::Import, Phase::SetUp, Phase::Declare, Phase::Preauthorize,
            Phase::Propose, Phase::Evaluate, Phase::Maintain, Phase::Done,
        ]
    );
    assert_eq!(
        phases(true, 1, true),
        vec![
            Phase::Begin, Phase::Resume, Phase::Preauthorize, Phase::Propose, Phase::Done,
        ]
    );
    assert_eq!(
        phases(true, 2, false),
        vec![
            Phase::Begin, Phase::Resume, Phase::Redeclare, Phase::Preauthorize, Phase::Propose,
            Phase::Evaluate, Phase::Maintain, Phase::Done,
        ]
    );
    let attempt = Attempt { proposal: 1, validation: 1 };
    assert_eq!(next_phase(Phase::Done, true, attempt, true), Phase::Done);
}

#[test]
fn methods_chain_their_steps() {
    let made = value(&method_mutations(&requirement(), 5));
    let all = made.as_array().cloned().unwrap_or_default();
    assert_eq!(all.len(), 13);
    assert_eq!(all[0]["node"]["kind"]["duration_ms"], Value::from(45_000));
    assert_eq!(
        all[3]["node"]["data_inputs"]["target"]["binding"]["value"],
        parsed("{\"schema_version\":3,\"command\":\"verify-candidate\",\"installation\":\"slotbook-test\",\"expected_version\":5}")
    );
    assert_eq!(
        all[6]["edge"],
        parsed("{\"id\":\"control-0\",\"kind\":\"control\",\"source_node\":\"repair-window\",\"source_port\":\"out\",\"target_node\":\"repair.begin\",\"target_port\":\"in\"}")
    );
    let evaluate = value(&effect("v", &requirement(), "resource.evaluate_candidate", "candidate", 1));
    assert_eq!(
        evaluate["kind"]["config"]["requirement"]["exact_capability"],
        Value::from("milkdrift.resources")
    );
    let repair = value(&repair_mutations(&requirement()));
    assert!(repair.as_array().is_some_and(|v| !v.is_empty()));
    let proposal = value(&proposal_mutations(json("{\"id\":\"model\"}")));
    assert_eq!(proposal[0], parsed("{\"type\":\"add_node\",\"node\":{\"id\":\"model\"}}"));
    assert_eq!(proposal[2]["edge"]["source_port"], Value::from("next"));
}

#[test]
fn learned_methods_build_on_the_governed_one() {
    let governed = json("{\"revision\":{\"semantic\":{\"nodes\":{\"repair.begin\":{\"kind\":{\"config\":{\"requirement\":{\"operation\":\"x\"}}}},\"verify-candidate\":{\"id\":\"verify-candidate\",\"data_inputs\":{\"target\":{\"binding\":{\"type\":\"literal\",\"value\":1}}}}}}}}");
    let made = value(&learning_mutations(&governed));
    assert!(made.as_array().is_some_and(|v| v.len() > 3));
}

#[test]
fn every_command_of_an_attempt_has_its_key() {
    let first = value(&keys(Attempt { proposal: 1, validation: 1 }));
    assert_eq!(first["declare"], "learning-declare");
    assert_eq!(first["proposal"], "slotbook-learning-proposal");
    assert_eq!(first["promotion"], "learning-automatic-promotion");
    let third = keys(Attempt { proposal: 3, validation: 2 });
    assert_eq!(third.keys(""), 19);
    let third = value(&third);
    assert_eq!(third["candidate"], "learning-candidate-validation-2-3");
    assert_eq!(third["policy"], "learning-promotion-policy-v1-3");
    assert_eq!(third["cannot_inspect"], "learner-cannot-inspect-held-out-declaration-3");
}

#[test]
fn only_artifacts_are_outputs_of_an_invocation() {
    let observed = json("[{\"category\":\"artifact\",\"event\":{\"kind\":{\"reference\":{\"identity\":\"a\"}}}},{\"category\":\"progress\",\"event\":{}},{\"category\":\"artifact\"}]");
    assert_eq!(value(&artifacts(&observed)), parsed("[{\"identity\":\"a\"},null]"));
    assert_eq!(value(&artifacts(&json("{}"))), parsed("[]"));
}

#[test]
fn the_tool_image_copies_one_recorded_tool() {
    assert_eq!(
        containerfile("sha256:base"),
        "FROM sha256:base\nCOPY slotbook-workspace /usr/local/bin/slotbook-workspace\n"
    );
}
