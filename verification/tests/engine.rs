//! The statements that scenarios are made of, the documents and the blueprints.

use milkdrift_evidence::blueprint::{
    child, control_edge, is_closed, path, plan, remote_limits, schema, wrapper_limits, Change, NodeKind, SideEffect,
};
use milkdrift_evidence::failure::Checked;
use milkdrift_evidence::plans::{
    acceptance_graph, body, continuation_graph, crash_body, model_alone, model_with_evidence,
    plain_process, prelude_root, proposer_step, race_body, remote_blueprint, repair_step, root,
    signalled_process, terminal_blueprint,
};
use milkdrift_evidence::scenario::{document, evaluate, Scenario, Step};
use milkdrift_evidence::scripts::documents::{
    controller_config, controller_verify_profile, controller_waiting_profile, metered_task,
    metering_profile, outer_mutations,
    agent_profile_document, daemon_config, external_config, forged_inputs,
    headless_config, independent_model_profile, independent_profile, independent_relationship,
    independent_task, learning_budget, learning_config, learning_evaluator, learning_learner,
    learning_method, learning_operator, learning_service, learning_target_recipe,
    learning_worker_recipe, local_model_report, model_profile, operational_config,
    outer_peer_task, outer_task, peer_origin_config, peer_provider_config, peer_relationship,
    process_profile, publication_config, published_descriptor, published_method,
    proposal_model, repair_proposal, review_fixture_profile, review_task, seed_inputs, slotbook_policy,
    slotbook_protected_recipe, slotbook_requirement, slotbook_scope, slotbook_session_config,
    slotbook_worker_recipe, starter_config, text_evidence_profile,
};
use milkdrift_evidence::json::Json;
use serde_json::Value;

fn converted(value: &Value) -> Json {
    match value {
        Value::Null => Json::Null,
        Value::Bool(b) => Json::flag(*b),
        Value::Number(n) => match (n.as_u64(), n.as_i64()) {
            (Some(n), _) => Json::number(n),
            (None, Some(n)) => Json::Negative(n),
            (None, None) => Json::Real(n.to_string()),
        },
        Value::String(s) => Json::text(s),
        Value::Array(v) => Json::List(v.iter().map(converted).collect()),
        Value::Object(m) => {
            Json::Object(m.iter().map(|(k, v)| (k.clone(), converted(v))).collect())
        }
    }
}

fn value(json: &Json) -> Value {
    match json {
        Json::Null => Value::Null,
        Json::Bool(b) => Value::Bool(*b),
        Json::Unsigned(n) => Value::from(*n),
        Json::Negative(n) => Value::from(*n),
        Json::Real(text) => serde_json::from_str(text).unwrap_or(Value::Null),
        Json::Text(text) => Value::String(text.clone()),
        Json::List(items) => Value::Array(items.iter().map(value).collect()),
        Json::Object(entries) => {
            Value::Object(entries.iter().map(|(k, v)| (k.clone(), value(v))).collect())
        }
    }
}

fn parsed(text: &str) -> Value {
    match serde_json::from_str(text) {
        Ok(value) => value,
        Err(error) => panic!("{error}: {text}"),
    }
}

fn json(text: &str) -> Json {
    converted(&parsed(text))
}

fn words(v: &[&str]) -> Vec<String> {
    v.iter().map(|w| (*w).to_owned()).collect()
}

fn message<T>(r: Checked<T>) -> String {
    match r {
        Ok(_) => String::new(),
        Err(failure) => failure.message,
    }
}

fn good<T>(r: Checked<T>) -> T {
    match r {
        Ok(value) => value,
        Err(failure) => panic!("{}", failure.message),
    }
}

fn truth(condition: &str, env: &str) -> Option<bool> {
    let words: Vec<String> = condition.split(' ').map(str::to_owned).collect();
    evaluate(&words, &json(env))
}

type Make = fn(Json) -> Checked<Json>;

type Plan = fn(&Json) -> Checked<Vec<Change>>;

fn made(make: Make, known: &str) -> Value {
    value(&good(make(json(known))))
}

fn failed(step: Step) -> String {
    match step {
        Step::Failed { message } => message,
        Step::Done => "done".to_owned(),
        Step::Perform { words, again } => format!("{} {again}", words.join(" ")),
    }
}

#[test]
fn conditions_judge_values() {
    let env = "{\"t\":\"a b\",\"n\":3,\"m\":4,\"b\":true,\"l\":[{\"k\":\"x\",\"s\":1},{\"k\":\"y\",\"s\":2}],\"o\":{\"p\":1},\"v\":[\"a b\"],\"e\":[],\"u\":\"a\",\"w\":\" x\\n\"}";
    for (condition, expected) in [
        ("is t a b", true),
        ("isnot t a", true),
        ("true b", true),
        ("false b", false),
        ("null z", true),
        ("some t", true),
        ("object o", true),
        ("list l", true),
        ("string n", false),
        ("whole n", true),
        ("positive n", true),
        ("nonempty e", false),
        ("empty e", true),
        ("num n 3", true),
        ("below n 3", false),
        ("len l 2", true),
        ("keys o 1", true),
        ("same t v,#0", true),
        ("differs t u", true),
        ("reaches m n", true),
        ("exceeds n n", false),
        ("follows m n", true),
        ("contains t  b", true),
        ("lacks t c", true),
        ("mentions t u", true),
        ("omits t u", false),
        ("starts t a", true),
        ("ends t a", false),
        ("member v a b", true),
        ("holds v t", true),
        ("ascending l s", true),
        ("each l string k", true),
        ("any l is k y", true),
        ("none l is k z", true),
        ("none z is k z", true),
        ("each z is k z", false),
        ("matching l 1 is k x", true),
        ("matching l 1 is k x else is k y", false),
        ("any l is k x plus num s 2", false),
        ("where l k y num s 2", true),
        ("is t no or true b", true),
        ("trims w x", true),
        ("trims w  x", false),
    ] {
        assert_eq!(truth(condition, env), Some(expected), "{condition}");
    }
    assert_eq!(truth("unknown t", env), None);
    assert_eq!(truth("num n x", env), None);
    assert_eq!(truth("is", env), None);
}

#[test]
fn scenarios_ask_and_continue() {
    let script = "\ndo read $name now\nok seen\nis seen,state open | state of $name was $seen,state\nkeep last seen\n";
    let mut scenario = Scenario::start(script, json("{\"name\":\"door\"}"));
    assert_eq!(failed(scenario.begin()), "read door now false");
    let step = scenario.resume(json("{\"value\":{\"state\":\"open\"}}"), false);
    assert!(matches!(step, Step::Done));
    assert!(scenario.known().is_text("last,state", "open"));
    let mut other = Scenario::start(script, json("{\"name\":\"door\"}"));
    other.begin();
    let step = other.resume(json("{\"value\":{\"state\":\"shut\"}}"), false);
    assert_eq!(failed(step), "state of door was shut");
    assert!(other.refuted());
    let mut third = Scenario::start(script, json("{\"name\":\"door\"}"));
    third.begin();
    assert_eq!(failed(third.resume(json("{\"error\":\"stuck\"}"), false)), "stuck");
    assert!(!third.refuted());
    let mut absent = Scenario::start(script, json("{}"));
    assert_eq!(failed(absent.begin()), "scenario value is absent");
}

#[test]
fn waits_repeat_until_their_conditions_hold() {
    let script = "wait run cli run show r\nuntil is run,value,state done\nkeep end run\n";
    let reply = |state: &str| {
        json(&format!("{{\"exit\":0,\"stdout\":\"line\\n\",\"document\":{{\"value\":{{\"state\":\"{state}\"}}}}}}"))
    };
    let mut scenario = Scenario::start(script, json("{}"));
    assert_eq!(failed(scenario.begin()), "cli run show r false");
    assert_eq!(failed(scenario.resume(reply("open"), false)), "cli run show r true");
    assert!(matches!(scenario.resume(reply("done"), true), Step::Done));
    let mut late = Scenario::start(script, json("{}"));
    late.begin();
    assert_eq!(
        failed(late.resume(reply("open"), true)),
        "run r did not reach its bounded expected state: line\n"
    );
}

#[test]
fn watches_end_at_unexpected_states() {
    let script = "watch run client run r\nuntil is run,terminal succeeded\n";
    let watched = |reply: &str, expired: bool| {
        let mut scenario = Scenario::start(script, json("{}"));
        scenario.begin();
        failed(scenario.resume(json(reply), expired))
    };
    assert_eq!(watched("{\"value\":{\"terminal\":\"succeeded\"}}", true), "done");
    assert_eq!(watched("{\"value\":{}}", false), "client run r true");
    assert_eq!(
        watched("{\"value\":{\"lifecycle\":\"terminal\"},\"rendered\":\"X\"}", false),
        "run r reached unexpected terminal state: X"
    );
    assert_eq!(
        watched("{\"stalled\":true,\"seconds\":\"5\",\"last\":\"L\"}", false),
        "run r did not reach the expected state within 5 seconds; last=L"
    );
    assert_eq!(watched("{\"error\":\"broken\"}", false), "broken");
    let poll = "poll held holds x | never $none held\nuntil true held\n";
    let mut scenario = Scenario::start(poll, json("{}"));
    scenario.begin();
    assert_eq!(failed(scenario.resume(json("{\"value\":false}"), true)), "never $none held");
}

#[test]
fn outputs_of_the_client_are_checked() {
    let ended = |statement: &str, reply: &str| {
        let mut scenario = Scenario::start(&format!("do x\n{statement}\n"), json("{}"));
        scenario.begin();
        failed(scenario.resume(json(reply), false))
    };
    assert_eq!(ended("success a", "{\"exit\":0,\"stdout\":\"{}\\n\",\"document\":{}}"), "done");
    assert_eq!(
        ended("success a", "{\"exit\":2,\"stdout\":\"o\"}"),
        "CLI command failed with exit Some(2): o"
    );
    assert_eq!(ended("refused | accepted", "{\"exit\":0}"), "accepted");
    assert_eq!(ended("refused | accepted", "{\"exit\":9}"), "done");
    let failure = "{\"exit\":5,\"stdout\":\"{}\\n\",\"stderr\":\"\",\"document\":{\"status\":\"failure\",\"schema_version\":2,\"final\":true,\"error\":{\"classification\":\"conflict\",\"daemon_code\":\"c\"}}}";
    assert_eq!(ended("error 5 conflict c", failure), "done");
    assert_eq!(ended("error 5 conflict d", failure), "daemon error code changed");
    let typed = "{\"exit\":5,\"stdout\":\"\",\"stderr\":\"{}\\n\",\"diagnostic\":{\"type\":\"error\",\"value\":{\"classification\":\"conflict\"}}}";
    assert_eq!(ended("typed 5 conflict", typed), "done");
    assert_eq!(ended("typed 5 denied", typed), "failure classification changed");
    assert_eq!(ended("text a reply,b", "{\"b\":1}"), "JSON field is not text");
    assert_eq!(ended("number a reply,b", "{\"b\":\"1\"}"), "JSON field is not an unsigned integer");
    assert_eq!(ended("need a reply,b | no b", "{}"), "no b");
    assert_eq!(ended("pick a reply,b k v | no v", "{\"b\":[{\"k\":\"w\"}]}"), "no v");
    assert_eq!(ended("first a reply,b is k v | no v", "{\"b\":[{\"k\":\"v\"}]}"), "done");
    assert_eq!(ended("each reply,b num n 1 | bad $it,k", "{\"b\":[{\"k\":\"w\",\"n\":2}]}"), "bad w");
    assert_eq!(ended("nonsense a b", "{}"), "scenario statement is unknown");
}

#[test]
fn documents_are_built_statement_by_statement() {
    let script = "say document,a b c\ntell document,n 7\nmark document,f false\nmark document,z null\nvoid document,o\nnames document,l x y\nput document,p known\ngather document,g known missing\nadd document,l known\nglue document,t run- $known - $number\nsize document,s document,l\n";
    assert_eq!(
        value(&good(document(script, json("{\"known\":\"k\",\"number\":12}")))),
        parsed("{\"a\":\"b c\",\"n\":7,\"f\":false,\"z\":null,\"o\":{},\"l\":[\"x\",\"y\",\"k\"],\"p\":\"k\",\"g\":[\"k\",null],\"t\":\"run-k-12\",\"s\":3}")
    );
    assert_eq!(message(document("do x\n", json("{}"))), "a document asks for no action");
    assert_eq!(message(document("add a b | no list\n", json("{}"))), "no list");
    assert_eq!(
        value(&good(document("mark document,a null\n", json("{\"null\":1,\"nothing\":2}")))),
        parsed("{\"a\":null}")
    );
    assert_eq!(message(document("mark a nothing\n", json("{}"))), "scenario statement is unknown");
    assert_eq!(
        message(document("say a,b c\n", json("{\"a\":1}"))),
        "scenario value cannot be placed"
    );
}

#[test]
fn every_document_can_be_made() {
    let known = "{\"config\":{\"runtime\":{},\"actors\":[{\"authority\":{\"resources\":{\"capability\":{\"identities\":{\"values\":[]},\"operations\":{\"values\":[]}}}}}]},\"profile\":{\"profile\":{\"filesystem_roots\":[]}},\"template\":{\"data_inputs\":{\"milkdrift.model_task\":{\"binding\":{\"value\":{\"request\":{\"messages\":[{\"parts\":[{}]}]}}}}}},\"policy\":{}}";
    for (i, make) in [
        process_profile as Make, text_evidence_profile, model_profile, daemon_config,
        external_config, operational_config, local_model_report,
        headless_config, starter_config, review_task, agent_profile_document,
        independent_relationship, slotbook_requirement, slotbook_policy, slotbook_scope,
        slotbook_protected_recipe, slotbook_worker_recipe, slotbook_session_config,
        publication_config, published_descriptor, published_method, peer_relationship,
        learning_budget, learning_evaluator, learning_learner, learning_service,
        learning_config, learning_worker_recipe, learning_method, repair_proposal,
        seed_inputs, forged_inputs, independent_task, review_fixture_profile,
        independent_profile, independent_model_profile, outer_task, outer_peer_task,
        peer_provider_config, peer_origin_config, learning_operator,
        learning_target_recipe, proposal_model, controller_verify_profile,
        controller_waiting_profile, metering_profile, metered_task, controller_config,
        outer_mutations,
    ]
    .into_iter()
    .enumerate()
    {
        assert_eq!(message(make(json(known))), "", "{i}");
    }
    assert_eq!(
        message(publication_config(json("{}"))),
        "runtime config absent"
    );
    assert_eq!(
        message(agent_profile_document(json("{}"))),
        "agent roots absent"
    );
}

#[test]
fn documents_state_their_fixed_values() {
    assert_eq!(
        made(seed_inputs, "{}"),
        parsed("[{\"name\":\"command\",\"value\":{\"type\":\"inline\",\"value\":{\"argv\":[\"/bin/sh\",\"-c\",\"cp /fixtures/slotbook-seeded /workspace/app && cat /workspace/app\"],\"stdout_artifact\":true}}}]")
    );
    assert_eq!(
        made(learning_budget, "{}"),
        parsed("{\"cost_micros\":0,\"currency\":null,\"input_units\":200000,\"output_units\":60000,\"artifact_bytes\":268435456,\"process_admissions\":100,\"model_admissions\":20}")
    );
    let config = made(
        operational_config,
        "{\"data_root\":\"/d\",\"bind\":\"127.0.0.1:1\",\"token_file\":\"/t\",\"authority\":\"a\",\"request_queue\":4}",
    );
    assert_eq!(
        config,
        parsed("{\"data_root\":\"/d\",\"bind\":\"127.0.0.1:1\",\"secret_sources\":{\"credential:evidence\":{\"type\":\"file\",\"path\":\"/t\"}},\"actors\":[{\"credential_ref\":\"credential:evidence\",\"actor\":\"system:operational-evidence\",\"grant_id\":\"grant:operational-evidence\",\"grant_revision\":1,\"revocation_generation\":0,\"preset\":\"controller\",\"authority\":\"a\",\"enabled\":true}],\"runtime\":{\"request_queue\":4,\"maintenance_interval_ms\":10},\"application_receipts\":{\"hot_receipt_bound\":128,\"archive_batch_size\":16},\"security_audit_record_bound\":256}")
    );
    let report = made(local_model_report, "{\"mode\":\"deterministic\",\"facts\":{\"revision\":3},\"observation\":{\"artifacts\":2}}");
    assert_eq!(report["qualifying"], Value::Bool(false));
    assert_eq!(report["kind"], Value::from("local_model_smoke"));
    assert_eq!(report["strict_external_evidence"]["run"], Value::Bool(false));
    assert_eq!(report["model"]["profile_revision"], Value::from(3));
    assert_eq!(report["success"]["artifact_count"], Value::from(2));
    assert_eq!(report["success"]["adapter_entry_count_observed"], Value::Null);
    let forged = made(forged_inputs, "{\"version\":9,\"uploaded\":{\"artifact_id\":\"i\"}}");
    assert_eq!(forged[0]["value"]["value"]["expected_version"], Value::from(9));
    assert_eq!(forged[1]["value"]["reference"]["identity"], Value::from("i"));
}

#[test]
fn whole_plans_are_closed() {
    let known = json("{\"capability\":\"c\",\"operation\":\"model.generate\",\"input\":\"i\",\"output\":\"o\",\"profile\":\"p\",\"mode\":\"stream\",\"outcome\":\"success\",\"requirement\":\"model_prose\",\"profiles\":{\"empty\":\"e\",\"review\":\"r\",\"next\":\"n\",\"first\":\"f\",\"continued\":\"c\",\"fresh\":\"g\"}}");
    for (i, make) in [signalled_process as Plan, plain_process, terminal_blueprint, body, race_body, crash_body, remote_blueprint, model_alone, model_with_evidence, acceptance_graph, continuation_graph].into_iter().enumerate() {
        assert!(is_closed(&good(make(&known))), "{i}");
    }
    for (i, make) in [root as Plan, prelude_root, proposer_step, repair_step].into_iter().enumerate() {
        assert!(!is_closed(&good(make(&known))), "{i}");
    }
    assert_eq!(message(plan("plain process $capability first", &json("{}"))), "plan line is unknown");
    assert_eq!(message(plan("unknown x y", &json("{}"))), "plan line is unknown");
}

#[test]
fn plans_close_only_with_both_ends_and_once() {
    let known = json("{}");
    let closed = |text: &str| is_closed(&good(plan(text, &known)));
    assert!(closed("plain a c first\nterminal d success after\ncontrol e a next d in\n"));
    assert!(!closed("plain a c first\ncontrol e a next d in\n"));
    assert!(!closed("plain a c first\nterminal d success after\ndata e a next d in\n"));
    assert!(!closed("plain a c first\nplain a c first\n"));
}

#[test]
fn nodes_carry_what_their_line_says() {
    let made = good(plan("writer work cap after\nmodel m c p stream select first\n", &json("{}")));
    match &made[0] {
        Change::AddNode(node) => {
            assert_eq!(node.id, "work");
            assert_eq!(node.control_inputs, words(&["in"]));
            assert_eq!(node.data_outputs, words(&["stdout"]));
            assert!(matches!(&node.kind, NodeKind::Task { operation, side_effect, .. }
                if operation == "process.execute" && *side_effect == SideEffect::NonIdempotentWrite));
        }
        _ => panic!("a node is added"),
    }
    match &made[1] {
        Change::AddNode(node) => assert!(matches!(&node.kind, NodeKind::Task { profile, streaming: true, .. }
            if profile == "p")),
        _ => panic!("a node is added"),
    }
    assert_eq!(path("first", "model", "yes", "no").len(), 7);
    assert_eq!(child("c", true).control_outputs, words(&["out"]));
    assert!(matches!(control_edge("e", "a", "out", "b", "in"), Change::AddEdge(edge)
        if edge.source_port == "out" && !edge.carries_data));
    assert_eq!(schema(), ("evidence.stdout", 1));
    assert_eq!(wrapper_limits(5)[9], 5);
    assert_eq!(remote_limits().len(), 15);
}

#[test]
fn the_proposing_step_reads_only_what_was_selected() {
    assert_eq!(
        made(
            proposal_model,
            "{\"model\":{\"id\":\"model\",\"kind\":{\"config\":{\"requirement\":{\"trust_zones\":[\"z\"]}}}},\"inputs\":{\"milkdrift.model_task\":{\"binding\":{\"value\":{\"request\":{\"streaming\":true,\"extensions\":{\"x\":1}}}}},\"source-0\":\"s\"},\"identity\":\"local\",\"prompt\":\"ask\",\"structured\":{\"name\":\"n\"},\"evidence\":[\"e\"],\"output\":\"o\"}"
        ),
        parsed("{\"id\":\"model\",\"kind\":{\"config\":{\"requirement\":{\"trust_zones\":[],\"exact_capability\":\"slotbook-learning-model\",\"provider_profile\":\"local\"},\"context_policy\":{\"include_direct_inputs\":true,\"include_categories\":[\"direct_input\"],\"fail_closed\":true,\"explicit_evidence\":[\"e\"]}}},\"data_inputs\":{\"milkdrift.model_task\":{\"binding\":{\"value\":{\"request\":{\"streaming\":false,\"extensions\":{\"org.milkdrift.openai/request\":{\"reasoning_effort\":\"none\"}},\"messages\":[{\"role\":\"user\",\"parts\":[{\"type\":\"text\",\"text\":\"ask\"}],\"tool_call_id\":null}],\"maximum_output_units\":4096,\"structured_output\":{\"name\":\"n\"}}}}},\"source-0\":\"s\"},\"data_outputs\":{\"structured_output\":\"o\"}}")
    );
}

#[test]
fn the_approver_is_configured_beside_the_controller() {
    assert_eq!(
        made(
            controller_config,
            "{\"config\":{\"actors\":[{\"actor\":\"controller\",\"authority\":{\"resources\":{\"network\":{\"x\":1}}}}],\"runtime\":{\"effect_threads\":1}},\"adapters\":[\"a\"],\"profiles\":[\"p\"],\"destinations\":[\"d\"],\"approver\":\"/token\"}"
        ),
        parsed("{\"actors\":[{\"actor\":\"controller\",\"authority\":{\"resources\":{\"network\":{\"profiles\":[\"p\"],\"destinations\":[\"d\"]}}}},{\"actor\":\"human:qualification\",\"grant_id\":\"grant:controller-human\",\"credential_ref\":\"credential:controller-human\",\"authority\":{\"resources\":{\"network\":{\"profiles\":[\"p\"],\"destinations\":[\"d\"]}}}}],\"runtime\":{\"effect_threads\":4},\"adapters\":{\"model_profiles\":[\"a\"]},\"application_receipts\":{\"hot_receipt_bound\":8,\"archive_batch_size\":4},\"secret_sources\":{\"credential:controller-human\":{\"type\":\"file\",\"path\":\"/token\"}}}")
    );
    assert_eq!(
        made(controller_verify_profile, "{\"profile\":{\"profile\":{\"inputs\":[]}}}"),
        parsed("{\"profile\":{\"inputs\":[{\"input\":\"work\",\"relative_path\":\"work.txt\"}]}}")
    );
    assert_eq!(
        made(controller_waiting_profile, "{\"profile\":{}}"),
        parsed("{\"profile\":{\"max_concurrent\":3,\"limits\":{\"wall_timeout_ms\":30000},\"stdout\":{\"stream_progress\":true,\"max_progress_events\":4}}}")
    );
    assert_eq!(
        made(outer_mutations, "{\"task\":1,\"done\":2,\"finish\":3}"),
        parsed("[{\"type\":\"add_node\",\"node\":1},{\"type\":\"add_node\",\"node\":2},{\"type\":\"add_edge\",\"edge\":3}]")
    );
}
