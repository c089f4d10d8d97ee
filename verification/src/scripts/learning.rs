//! Learning from retained source evidence: selection, proposal, paired evaluation, variants and maintained tools.

use vstd::prelude::*;

use crate::json::Json;
use crate::scenario::{opening, Line, Scenario};
use crate::slotbook::study::{eligible, promotes};

verus! {

/// The operator authors the study's method, its governance and its actors before any source is
/// selected. Known before: the `source` qualification, the `image` and the file `paths`.
pub const LEARN_PREPARE: [Line; 50] = [
    ("need", "internal_run", "source,internal_run", "accepted source qualification has no internal run"),
    ("do", "", "load governed", ""),
    ("ok", "original", "", ""),
    ("make", "mutations", "learning-mutations original", ""),
    ("do", "", "validate-method mutations", ""),
    ("ok", "validated", "", ""),
    ("do", "", "save method-mutations.json mutations", ""),
    ("ok", "mutations_file", "", ""),
    ("do", "", "local blueprint create $mutations_file --workflow slotbook-learning --author human:learning-operator --output $paths,base", ""),
    ("ok", "created", "", ""),
    ("do", "", "trusted-verifier", ""),
    ("ok", "verifier_copy", "", ""),
    ("do", "", "load policy", ""),
    ("ok", "policy", "", ""),
    ("put", "policy,verifier", "verifier_copy,digest", ""),
    ("do", "", "save policy.json policy", ""),
    ("ok", "policy_file", "", ""),
    ("do", "", "local blueprint effect-policy $policy_file", ""),
    ("ok", "described", "", ""),
    ("keep", "policy_digest_value", "described,digest", ""),
    ("keep", "requirement", "original,revision,semantic,nodes,repair.begin,kind,config,requirement", ""),
    ("mark", "requirement,exact_capability", "null", ""),
    ("make", "scope", "slotbook-scope", ""),
    ("do", "", "save scope.json scope", ""),
    ("ok", "scope_file", "", ""),
    ("need", "policy_digest", "policy_digest_value", "expected string in product response"),
    ("do", "", "local blueprint govern $paths,base --scope $scope_file --name slotbook-learning-agreement --effect-policy $policy_digest --author human:learning-operator --output $paths,governed", ""),
    ("ok", "governed_result", "", ""),
    ("do", "", "load learning-governed", ""),
    ("ok", "baseline", "", ""),
    ("keep", "agreement", "baseline,revision,semantic,agreement,digest", ""),
    ("do", "", "load host", ""),
    ("ok", "config", "", ""),
    ("keep", "actor", "config,actors,#0", ""),
    ("do", "", "load profile", ""),
    ("ok", "model", "", ""),
    ("need", "base_url", "model,base_url", "expected string in product response"),
    ("make", "destination", "model-destination base_url", ""),
    ("keep", "identity", "model,identity", ""),
    ("make", "operator", "learning-operator", ""),
    ("do", "", "credential operator.token", ""),
    ("ok", "operator_credential", "", ""),
    ("keep", "operator_token", "operator_credential,path", ""),
    ("make", "evaluator", "learning-evaluator", ""),
    ("do", "", "credential evaluator.token", ""),
    ("ok", "evaluator_credential", "", ""),
    ("keep", "evaluator_token", "evaluator_credential,path", ""),
    ("make", "config", "learning-config", ""),
    ("keep", "verifier_digest", "verifier_copy,digest", ""),
    ("keep", "verifier", "verifier_copy,path", ""),
];

/// One slot gets its recipes, its grant, its credential and its service. Known before: what
/// `LEARN_PREPARE` left, the slot's names and its `files`.
pub const LEARN_PREPARE_SLOT: [Line; 20] = [
    ("do", "", "load worker-recipe", ""),
    ("ok", "recipe", "", ""),
    ("keep", "name", "slot,worker", ""),
    ("make", "worker_recipe", "learning-worker-recipe", ""),
    ("do", "", "save $files,worker worker_recipe", ""),
    ("ok", "worker_path", "", ""),
    ("do", "", "load protected-recipe", ""),
    ("ok", "recipe", "", ""),
    ("keep", "name", "slot,target", ""),
    ("make", "target_recipe", "learning-target-recipe", ""),
    ("do", "", "save $files,target target_recipe", ""),
    ("ok", "target_path", "", ""),
    ("add", "config,adapters,managed_linux,recipes", "worker_path", "recipes absent"),
    ("add", "config,adapters,managed_linux,recipes", "target_path", "recipes absent"),
    ("make", "config", "grant-slot config slot,capability grant", ""),
    ("do", "", "credential $files,token", ""),
    ("ok", "slot_credential", "", ""),
    ("make", "config", "trust-slot config slot,name slot_credential,path", ""),
    ("make", "service_actor", "learning-service", ""),
    ("add", "config,actors", "service_actor", "actors absent"),
];

/// The authored method and its governance are imported before any workspace is prepared. Known
/// before: the file `paths`.
pub const LEARN_IMPORT: [Line; 4] = [
    ("do", "", "call learning-base-import success operator blueprint import $paths,base", ""),
    ("ok", "imported", "", ""),
    ("do", "", "call learning-governed-import success operator blueprint import $paths,governed", ""),
    ("ok", "imported", "", ""),
];

/// One prepared workspace and target reach a verified generation and hold the shared knowledge.
/// Known before: the `slot`.
pub const LEARN_SLOT: [Line; 29] = [
    ("need", "installation", "slot,worker", "expected string in product response"),
    ("do", "", "recipe $installation worker", ""),
    ("ok", "reference", "", ""),
    ("need", "recipe_name", "reference,name", "expected string in product response"),
    ("need", "recipe_digest", "reference,digest", "expected string in product response"),
    ("do", "", "resource-of $installation apply --recipe $recipe_name --digest $recipe_digest", ""),
    ("ok", "applied", "", ""),
    ("do", "", "resource-of $installation inspect", ""),
    ("ok", "actual", "", ""),
    ("null", "actual,pending", "", "learning resource did not reach a verified generation"),
    ("positive", "actual,generation", "", "learning resource did not reach a verified generation"),
    ("put", "slot,worker_state", "actual", ""),
    ("need", "installation", "slot,target", "expected string in product response"),
    ("do", "", "recipe $installation target", ""),
    ("ok", "reference", "", ""),
    ("need", "recipe_name", "reference,name", "expected string in product response"),
    ("need", "recipe_digest", "reference,digest", "expected string in product response"),
    ("do", "", "resource-of $installation apply --recipe $recipe_name --digest $recipe_digest", ""),
    ("ok", "applied", "", ""),
    ("do", "", "resource-of $installation inspect", ""),
    ("ok", "actual", "", ""),
    ("null", "actual,pending", "", "learning resource did not reach a verified generation"),
    ("positive", "actual,generation", "", "learning resource did not reach a verified generation"),
    ("put", "slot,target_state", "actual", ""),
    ("need", "slot_name", "slot,name", "expected string in product response"),
    ("need", "worker_name", "slot,worker", "expected string in product response"),
    ("glue", "key", "$slot_name -knowledge", ""),
    ("do", "", "worker $key $worker_name plain /fixtures/slotbook-workspace knowledge /workspace", ""),
    ("ok", "prepared", "", ""),
];

/// The retained source run, its evidence and its method are selected, and the comparison is
/// declared before any proposal. Known before: the `source` qualification, the `baseline`
/// revision, the `budget` and the file `paths`.
pub const LEARN_SOURCE: [Line; 100] = [
    ("do", "", "slots", ""),
    ("ok", "slots", "", ""),
    ("list", "slots", "", "slots absent"),
    ("make", "source_slot", "last slots", ""),
    ("do", "", "load policy.json", ""),
    ("ok", "policy", "", ""),
    ("need", "failure_id", "source,failure_evidence", "expected string in product response"),
    ("do", "", "resource learning-source-failure success slotbook-test 0 evidence --evaluation $failure_id", ""),
    ("ok", "source_failure", "", ""),
    ("need", "pass_id", "source,protected_target,accepted_evaluation", "expected string in product response"),
    ("do", "", "resource learning-source-pass success slotbook-test 0 evidence --evaluation $pass_id", ""),
    ("ok", "source_pass", "", ""),
    ("need", "source_worker", "source_slot,worker", "expected string in product response"),
    ("do", "", "worker learning-knowledge-export $source_worker capture /bin/cat /workspace/KNOWLEDGE.md", ""),
    ("ok", "exported", "", ""),
    ("list", "exported,observations", "", "knowledge observations absent"),
    ("first", "knowledge", "exported,observations is category artifact plus is event,kind,reference,media_type application/octet-stream", "knowledge export absent"),
    ("need", "knowledge_id", "knowledge,event,kind,reference,identity", "expected string in product response"),
    ("do", "", "call learning-knowledge-download success operator artifact get $knowledge_id --output $paths,knowledge", ""),
    ("ok", "downloaded", "", ""),
    ("do", "", "upload learning-guidance text/plain file:knowledge", ""),
    ("ok", "guidance", "", ""),
    ("do", "", "load repair-proposal", ""),
    ("ok", "repair", "", ""),
    ("do", "", "load governed", ""),
    ("ok", "source_method", "", ""),
    ("do", "", "upload learning-source-failure application/json source_failure", ""),
    ("ok", "failure_artifact", "", ""),
    ("do", "", "upload learning-source-pass application/json source_pass", ""),
    ("ok", "pass_artifact", "", ""),
    ("do", "", "upload learning-source-repair application/json repair", ""),
    ("ok", "repair_artifact", "", ""),
    ("do", "", "upload learning-source-method application/json source_method", ""),
    ("ok", "method_artifact", "", ""),
    ("put", "baseline_document,revision", "baseline", ""),
    ("do", "", "upload learning-reusable-baseline application/json baseline_document", ""),
    ("ok", "baseline_artifact", "", ""),
    ("say", "brief", "Build a service for a community workshop with two seats per session. Visitors should see current availability without signing in. Make reservations frictionless: no accounts, just a name and booking details. Keep setup lightweight; an in-memory prototype is fine. The service must also satisfy operator requirements for authenticated mutations, private names and durable bookings. Use the supplied test target and preserve bookings when it restarts. The operator requirements govern deployment. Observed decisions: the initial native seeded fixture interpreted convenience as anonymous writes and in-memory storage; these are harness choices, not model choices. The retained repair replaced that fixture and introduced an investigation check. Missing model planning evidence remains unknown.", ""),
    ("do", "", "upload learning-source-input text/plain brief", ""),
    ("ok", "brief_artifact", "", ""),
    ("gather", "selected", "failure_artifact pass_artifact repair_artifact method_artifact baseline_artifact brief_artifact", ""),
    ("make", "pages", "pages source", ""),
    ("say", "select,type", "select", ""),
    ("put", "select,selection,method", "baseline,id", ""),
    ("put", "select,selection,workspace", "source_slot,worker", ""),
    ("put", "select,selection,guidance", "guidance", ""),
    ("put", "select,selection,artifacts", "selected", ""),
    ("put", "select,selection,pages", "pages", ""),
    ("mark", "select,selection,supersedes", "null", ""),
    ("mark", "select,selection,approval", "null", ""),
    ("do", "", "command learning-select success operator select", ""),
    ("ok", "selection", "", ""),
    ("make", "loan_a", "held-out-input =loan-a policy", ""),
    ("do", "", "upload learning-input-loan-a application/json loan_a", ""),
    ("ok", "loan_a_input", "", ""),
    ("make", "loan_a_pair", "held-out-pair =loan-a loan_a_input slots", ""),
    ("make", "loan_b", "held-out-input =loan-b policy", ""),
    ("do", "", "upload learning-input-loan-b application/json loan_b", ""),
    ("ok", "loan_b_input", "", ""),
    ("make", "loan_b_pair", "held-out-pair =loan-b loan_b_input slots", ""),
    ("make", "class_a", "held-out-input =class-a policy", ""),
    ("do", "", "upload learning-input-class-a application/json class_a", ""),
    ("ok", "class_a_input", "", ""),
    ("make", "class_a_pair", "held-out-pair =class-a class_a_input slots", ""),
    ("make", "class_b", "held-out-input =class-b policy", ""),
    ("do", "", "upload learning-input-class-b application/json class_b", ""),
    ("ok", "class_b_input", "", ""),
    ("make", "class_b_pair", "held-out-pair =class-b class_b_input slots", ""),
    ("gather", "pairs", "loan_a_pair loan_b_pair class_a_pair class_b_pair", ""),
    ("do", "", "upload learning-model-profile application/json file:profile", ""),
    ("ok", "profile_artifact", "", ""),
    ("tell", "declaration,schema_version", "1", ""),
    ("say", "declaration,lane", "seeded_fixture", ""),
    ("say", "declaration,selection,actor", "human:learning-operator", ""),
    ("say", "declaration,selection,command", "learning-select", ""),
    ("put", "declaration,baseline", "baseline,id", ""),
    ("say", "declaration,proposal_run", "slotbook-learning-proposal", ""),
    ("put", "declaration,agreement", "baseline,semantic,agreement,digest", ""),
    ("put", "declaration,policy", "baseline,semantic,agreement,effect_policy", ""),
    ("put", "declaration,verifier", "policy,verifier", ""),
    ("put", "declaration,checks", "policy,required_checks", ""),
    ("say", "declaration,input_field", "product", ""),
    ("say", "declaration,candidate_output", "candidate", ""),
    ("put", "declaration,pairs", "pairs", ""),
    ("put", "declaration,allowance", "budget", ""),
    ("tell", "declaration,maximum_duration_ms", "3600000", ""),
    ("tell", "declaration,maximum_submissions", "3", ""),
    ("tell", "declaration,minimum_repair_reduction", "2", ""),
    ("gather", "declaration,provenance", "profile_artifact", ""),
    ("say", "unknown_template", "Model server effective template, sampling and tokenizer bounds are operator-unqualified; proposal generation is outside the paired execution account.", ""),
    ("say", "unknown_fixture", "Native seeded implementation and repair are controlled fixtures; no live-model implementation or source planning failure is claimed.", ""),
    ("gather", "declaration,unknowns", "unknown_template unknown_fixture", ""),
    ("say", "declaration,publication", "method:slotbook-learning", ""),
    ("tell", "declaration,generation", "2", ""),
    ("say", "declare,type", "declare", ""),
    ("put", "declare,declaration", "declaration", ""),
    ("do", "", "command learning-declare success operator declare", ""),
    ("ok", "declared", "", ""),
    ("do", "", "retain accepted-slots.json slots", ""),
    ("ok", "retained", "", ""),
];

/// A retained selection and its declaration are read again. Known before: the attempt's `keys`.
pub const LEARN_RESUMED: [Line; 9] = [
    ("say", "inspect,type", "inspect", ""),
    ("say", "inspect,receipt,actor", "human:learning-operator", ""),
    ("say", "inspect,receipt,command", "learning-select", ""),
    ("do", "", "command learning-selected-inspect success operator inspect", ""),
    ("ok", "selection", "", ""),
    ("do", "", "load learning-declare.json", ""),
    ("ok", "declared", "", ""),
    ("keep", "declaration", "declared,declaration", ""),
    ("put", "declaration,proposal_run", "keys,proposal", ""),
];

/// A later proposal attempt declares its own run and profile.
pub const LEARN_REDECLARED: [Line; 8] = [
    ("do", "", "upload $keys,profile application/json file:profile", ""),
    ("ok", "profile_artifact", "", ""),
    ("make", "provenance", "including declaration,provenance profile_artifact", ""),
    ("put", "declaration,provenance", "provenance", ""),
    ("say", "declare,type", "declare", ""),
    ("put", "declare,declaration", "declaration", ""),
    ("do", "", "command $keys,declare success operator declare", ""),
    ("ok", "declared", "", ""),
];

/// The baseline is published and its promotion preauthorized. Known before: the attempt's `keys`
/// and the file `paths`.
pub const LEARN_PREAUTHORIZED: [Line; 16] = [
    ("do", "", "retained-method published-baseline.json", ""),
    ("ok", "initial", "", ""),
    ("do", "", "retain published-baseline.json initial", ""),
    ("ok", "retained", "", ""),
    ("do", "", "call learning-baseline-publish success operator method publish $paths,published_baseline", ""),
    ("ok", "published", "", ""),
    ("keep", "future", "initial", ""),
    ("tell", "future,descriptor,descriptor_revision", "2", ""),
    ("say", "request,type", "preauthorize", ""),
    ("say", "request,declaration,actor", "human:learning-operator", ""),
    ("put", "request,declaration,command", "keys,declare", ""),
    ("say", "request,executor", "agent:slotbook-evaluator", ""),
    ("put", "request,method", "future", ""),
    ("put", "request,expected_previous_version", "published,value,value,version", ""),
    ("do", "", "command $keys,policy success operator request", ""),
    ("ok", "preauthorized", "", ""),
];

/// The model proposes from exactly the selected sources, and its response is retained whatever its
/// run's end. Known before: the `baseline`, the `selection`, the `declaration`, the attempt's `keys`
/// and `files` and the file `paths`.
pub const PROPOSAL_RUN: [Line; 52] = [
    ("need", "model_run", "declaration,proposal_run", "expected string in product response"),
    ("do", "", "load example", ""),
    ("ok", "example", "", ""),
    ("keep", "template", "example,revision,semantic,nodes,model", ""),
    ("do", "", "load profile", ""),
    ("ok", "model_profile", "", ""),
    ("make", "question", "proposal-prompt baseline selection", ""),
    ("do", "", "structured-output", ""),
    ("ok", "structured", "", ""),
    ("make", "answer_port", "artifact-port", ""),
    ("make", "cited_sources", "source-evidence selection", ""),
    ("make", "shown_inputs", "source-inputs template selection", ""),
    ("put", "step,model", "template", ""),
    ("put", "step,inputs", "shown_inputs", ""),
    ("put", "step,identity", "model_profile,identity", ""),
    ("put", "step,prompt", "question", ""),
    ("put", "step,structured", "structured", ""),
    ("put", "step,evidence", "cited_sources", ""),
    ("put", "step,output", "answer_port", ""),
    ("make", "proposing", "proposal-model step", ""),
    ("make", "proposal_mutations", "proposal-mutations proposing", ""),
    ("do", "", "author-proposal proposal_mutations", ""),
    ("ok", "workflow", "", ""),
    ("do", "", "call $keys,import success operator blueprint import $paths,proposal_workflow", ""),
    ("ok", "imported", "", ""),
    ("need", "workflow_id", "workflow,id", "expected string in product response"),
    ("do", "", "call $keys,start success operator run start $model_run $model_run $workflow_id", ""),
    ("ok", "started", "", ""),
    ("tell", "zero", "0", ""),
    ("poll", "state", "show-run $keys,observation $model_run", "model proposal exceeded the bounded observation window"),
    ("until", "", "some state,terminal or differs state,uncertainty_count zero", ""),
    ("do", "", "call $keys,run success operator run show $model_run", ""),
    ("ok", "shown", "", ""),
    ("keep", "run", "shown,value", ""),
    ("list", "run,nodes", "", "proposal nodes absent"),
    ("pick", "node", "run,nodes node_id model", "model node absent"),
    ("need", "attempt_id", "node,latest_attempt_id", "expected string in product response"),
    ("do", "", "call $keys,attempt success operator attempt inspect $model_run $attempt_id", ""),
    ("ok", "inspected", "", ""),
    ("keep", "attempt", "inspected,value", ""),
    ("put", "observation,run", "run", ""),
    ("put", "observation,attempt", "attempt", ""),
    ("say", "observation,limit", "A retained model response may be analyzed even when local reporting failed. This does not settle unknown provider usage or claim the proposal run succeeded.", ""),
    ("do", "", "retain $files,observation observation", ""),
    ("ok", "retained", "", ""),
    ("list", "attempt,outputs", "", "model outputs absent"),
    ("pick", "response_output", "attempt,outputs name model_response", "structured response absent"),
    ("keep", "response", "response_output,artifact", ""),
    ("do", "", "download-once $keys,download response,artifact_id $paths,response", ""),
    ("ok", "downloaded", "", ""),
    ("do", "", "decode-proposal $paths,response", ""),
    ("ok", "original", "", ""),
];

/// The learner cannot read one held-out input. Known before: the `pair`.
pub const PROPOSAL_DENIED: [Line; 5] = [
    ("need", "pair_name", "pair,name", "expected string in product response"),
    ("need", "pair_artifact", "pair,input,artifact", "expected string in product response"),
    ("glue", "label", "learner-denied- $pair_name", ""),
    ("do", "", "call $label refused learner artifact get $pair_artifact --output $paths,forbidden", ""),
    ("ok", "refusal", "", ""),
];

/// The learner can neither declare nor read the held-out declaration, nor submit invented evidence
/// or an edit of a verifier, and its own candidate replays exactly. Known before: the
/// `declaration`, the `proposal`, the `original` and the attempt's `keys`.
pub const PROPOSAL_SUBMITTED: [Line; 34] = [
    ("say", "declare,type", "declare", ""),
    ("put", "declare,declaration", "declaration", ""),
    ("do", "", "command $keys,cannot_declare refused learner declare", ""),
    ("ok", "refusal", "", ""),
    ("say", "inspect,type", "inspect", ""),
    ("say", "inspect,receipt,actor", "human:learning-operator", ""),
    ("put", "inspect,receipt,command", "keys,declare", ""),
    ("do", "", "command $keys,cannot_inspect refused learner inspect", ""),
    ("ok", "refusal", "", ""),
    ("say", "candidate,type", "candidate", ""),
    ("say", "candidate,declaration,actor", "human:learning-operator", ""),
    ("put", "candidate,declaration,command", "keys,declare", ""),
    ("put", "candidate,proposal", "proposal", ""),
    ("put", "candidate,expected_benefit", "original,rationale", ""),
    ("put", "candidate,applicability", "original,applicability", ""),
    ("put", "candidate,counterevidence", "original,counterevidence", ""),
    ("keep", "forged", "candidate", ""),
    ("say", "invented,kind", "worker_observation", ""),
    ("say", "invented,id", "invented-source", ""),
    ("gather", "forged,proposal,draft,evidence", "invented", ""),
    ("do", "", "command $keys,invented refused learner forged", ""),
    ("ok", "refusal", "", ""),
    ("keep", "forged", "candidate", ""),
    ("say", "removal,type", "remove_node", ""),
    ("say", "removal,node", "verify-1", ""),
    ("gather", "forged,proposal,draft,mutation", "removal", ""),
    ("do", "", "command $keys,forbidden refused learner forged", ""),
    ("ok", "refusal", "", ""),
    ("do", "", "command $keys,candidate success learner candidate", ""),
    ("ok", "result", "", ""),
    ("do", "", "session restart", ""),
    ("ok", "restarted", "", ""),
    ("do", "", "command $keys,candidate success learner candidate", ""),
    ("ok", "replayed", "", ""),
];

/// One method is published and invoked on one slot. Known before: the `key`, the `slot`, the
/// `revision`, the `input`, the `files` and the file `paths`.
pub const EVALUATE_INVOKE: [Line; 33] = [
    ("need", "capability", "slot,capability", "expected string in product response"),
    ("do", "", "retained-method $files,method", ""),
    ("ok", "method", "", ""),
    ("same", "method,revision", "revision,id", "retained publication selected another method or slot"),
    ("same", "method,descriptor,identity", "capability", "retained publication selected another method or slot"),
    ("do", "", "retain $files,method method", ""),
    ("ok", "retained", "", ""),
    ("glue", "publish", "$key -publish", ""),
    ("do", "", "call $publish success operator method publish $paths,method", ""),
    ("ok", "published", "", ""),
    ("make", "variant", "variant-inputs input method", ""),
    ("glue", "inputs_file", "$key -inputs.json", ""),
    ("do", "", "retain $inputs_file variant", ""),
    ("ok", "inputs", "", ""),
    ("do", "", "invoke $key $capability method.invoke $inputs operator", ""),
    ("ok", "execution", "", ""),
    ("glue", "wait_label", "$key -wait", ""),
    ("do", "", "call $wait_label observation operator invocation wait $execution", ""),
    ("ok", "waited", "", ""),
    ("keep", "completed", "waited,value", ""),
    ("glue", "lookup_label", "$key -lookup", ""),
    ("do", "", "call $lookup_label success operator invocation show $execution", ""),
    ("ok", "looked", "", ""),
    ("either", "", "some completed,terminal or is completed,history,type archived", "variant invocation has no terminal observation"),
    ("list", "completed,observations", "", "invocation observations absent"),
    ("make", "outputs", "observed-artifacts completed,observations", ""),
    ("put", "result,invocation", "execution", ""),
    ("put", "result,lookup", "looked,value", ""),
    ("put", "result,observations", "completed", ""),
    ("put", "result,outputs", "outputs", ""),
    ("put", "result,method", "revision,id", ""),
    ("put", "result,input", "input", ""),
    ("put", "result,slot", "slot", ""),
];

/// The evaluator compares, and neither publishes by itself nor lets the learner promote. Known
/// before: the `revised` revision and the attempt's `keys`.
pub const EVALUATE_COMPARED: [Line; 22] = [
    ("say", "compare,type", "compare", ""),
    ("say", "compare,declaration,actor", "human:learning-operator", ""),
    ("put", "compare,declaration,command", "keys,declare", ""),
    ("say", "compare,candidate,actor", "agent:slotbook-learner", ""),
    ("put", "compare,candidate,command", "keys,candidate", ""),
    ("do", "", "command $keys,comparison success evaluator compare", ""),
    ("ok", "comparison", "", ""),
    ("do", "", "load published-baseline.json", ""),
    ("ok", "unauthorized", "", ""),
    ("put", "unauthorized,revision", "revised,id", ""),
    ("tell", "unauthorized,descriptor,descriptor_revision", "2", ""),
    ("do", "", "retain evaluator-cannot-publish.json unauthorized", ""),
    ("ok", "publication", "", ""),
    ("do", "", "call evaluator-cannot-publish refused evaluator method publish $publication", ""),
    ("ok", "refusal", "", ""),
    ("say", "request,type", "auto_promote", ""),
    ("say", "request,policy,actor", "human:learning-operator", ""),
    ("put", "request,policy,command", "keys,policy", ""),
    ("say", "request,comparison,actor", "agent:slotbook-evaluator", ""),
    ("put", "request,comparison,command", "keys,comparison", ""),
    ("do", "", "command $keys,cannot_promote refused learner request", ""),
    ("ok", "refusal", "", ""),
];

/// An eligible candidate is promoted, and the promotion replays exactly.
pub const EVALUATE_PROMOTED: [Line; 7] = [
    ("do", "", "command $keys,promotion success evaluator request", ""),
    ("ok", "promoted", "", ""),
    ("do", "", "session restart", ""),
    ("ok", "restarted", "", ""),
    ("do", "", "command $keys,promotion success evaluator request", ""),
    ("ok", "replay", "", ""),
    ("same", "promoted", "replay", "promotion replay changed its result"),
];

/// An ineligible candidate is refused promotion, and the refusal replays exactly.
pub const EVALUATE_NOT_PROMOTED: [Line; 7] = [
    ("do", "", "command $keys,promotion refused evaluator request", ""),
    ("ok", "promoted", "", ""),
    ("do", "", "session restart", ""),
    ("ok", "restarted", "", ""),
    ("do", "", "command $keys,promotion refused evaluator request", ""),
    ("ok", "replay", "", ""),
    ("same", "promoted", "replay", "promotion replay changed its result"),
];

/// A retained report belongs to this comparison and method. Known before: the `report` and the
/// `selected` revision.
pub const EVALUATE_RETAINED: [Line; 7] = [
    ("same", "report,comparison", "comparison", "retained product result belongs to another comparison or method"),
    ("same", "report,selected_method", "selected,id", "retained product result belongs to another comparison or method"),
    ("is", "report,declaration,actor", "human:learning-operator", "retained product result belongs to another comparison or method"),
    ("same", "report,declaration,command", "keys,declare", "retained product result belongs to another comparison or method"),
    ("keys", "report,declaration", "2", "retained product result belongs to another comparison or method"),
    ("do", "", "upload learning-result application/json report", ""),
    ("ok", "uploaded", "", ""),
];

/// A variant belongs to the selected method and its own input, which is asked before the next one is
/// invoked. Known before: the `result`, the `input` and the `selected` revision.
pub const EVALUATE_SELECTED: [Line; 2] = [
    ("same", "result,method", "selected,id", "retained variant belongs to another selected method or input"),
    ("same", "result,input", "input", "retained variant belongs to another selected method or input"),
];

/// One product variant has complete passing evidence of its own target. Known before: the
/// `result`, the `slot` and the `labels`.
pub const EVALUATE_VARIANT: [Line; 14] = [
    ("list", "result,outputs", "", "variant outputs absent"),
    ("pick", "evaluation_output", "result,outputs media_type application/vnd.milkdrift.managed+json", "variant verification output absent"),
    ("do", "", "output-once $labels,output result,invocation evaluation_output,identity $paths,evaluation", ""),
    ("ok", "document", "", ""),
    ("keep", "receipt", "document,evaluation", ""),
    ("need", "receipt_id", "receipt,identity", "expected string in product response"),
    ("need", "variant_target", "slot,target", "expected string in product response"),
    ("do", "", "resource $labels,evidence success $variant_target 0 evidence --evaluation $receipt_id", ""),
    ("ok", "read", "", ""),
    ("keep", "evaluation", "read,evaluation", ""),
    ("same", "receipt,subject", "evaluation,subject", "variant receipt and private evidence differ"),
    ("true", "evaluation,complete", "", "variant has no complete passing evidence"),
    ("each", "evaluation,checks", "true passed", "variant has no complete passing evidence"),
    ("same", "evaluation,subject,target", "slot,target", "variant evidence belongs to another target"),
];

/// One verified variant is deployed on its own evidence and the other is not. Known before: both
/// slots, results and evaluations, the `comparison`, whether it was `eligible` and the `selected`
/// revision.
pub const EVALUATE_DEPLOYED: [Line; 44] = [
    ("differs", "first,invocation", "second,invocation", "variants lack independent execution or different product configuration"),
    ("differs", "first_slot,worker", "second_slot,worker", "variants lack independent execution or different product configuration"),
    ("differs", "first_slot,application", "second_slot,application", "variants lack independent execution or different product configuration"),
    ("need", "target", "first_slot,target", "expected string in product response"),
    ("do", "", "retained selected-target-before.json inspect $target", ""),
    ("ok", "before", "", ""),
    ("whole", "before,version", "", "expected integer in product response"),
    ("need", "other_evaluation", "second_evaluation,identity", "expected string in product response"),
    ("do", "", "resource wrong-variant-evidence refused $target $before,version publish --evaluation $other_evaluation", ""),
    ("ok", "refusal", "", ""),
    ("need", "evaluation_id", "first_evaluation,identity", "expected string in product response"),
    ("do", "", "resource selected-variant-deploy success $target $before,version publish --evaluation $evaluation_id", ""),
    ("ok", "deployed", "", ""),
    ("do", "", "resource selected-variant-observed success $target 0 inspect", ""),
    ("ok", "observed", "", ""),
    ("true", "observed,desired_running", "", "selected variant has no observed protected deployment"),
    ("true", "observed,observed_running", "", "selected variant has no observed protected deployment"),
    ("same", "observed,accepted_evaluation", "first_evaluation,identity", "selected variant has no observed protected deployment"),
    ("need", "other_target", "second_slot,target", "expected string in product response"),
    ("do", "", "resource unselected-variant-retained success $other_target 0 inspect", ""),
    ("ok", "other", "", ""),
    ("false", "other,desired_running", "", "unselected variant was deployed"),
    ("null", "other,accepted_evaluation", "", "unselected variant was deployed"),
    ("do", "", "load profile", ""),
    ("ok", "profile", "", ""),
    ("say", "report,lane", "seeded_fixture", ""),
    ("put", "report,proposal_profile", "profile", ""),
    ("say", "report,declaration,actor", "human:learning-operator", ""),
    ("put", "report,declaration,command", "keys,declare", ""),
    ("put", "report,comparison", "comparison", ""),
    ("put", "report,promoted", "eligible", ""),
    ("put", "report,selected_method", "selected,id", ""),
    ("gather", "report,variations", "first second", ""),
    ("gather", "report,acceptance", "first_evaluation second_evaluation", ""),
    ("tell", "report,selection,index", "0", ""),
    ("say", "report,selection,reason", "Operator scenario chooses the independently verified camera-loan variant; the class variant remains retained without deployment.", ""),
    ("put", "report,selection,evaluation", "first_evaluation,identity", ""),
    ("put", "report,selection,deployment", "deployed", ""),
    ("put", "report,selection,observed_deployment", "observed", ""),
    ("put", "report,selection,other", "other", ""),
    ("do", "", "retain result.json report", ""),
    ("ok", "retained", "", ""),
    ("do", "", "upload learning-result application/json report", ""),
    ("ok", "uploaded", "", ""),
];

/// Scratch files become maintained tools only through an exact image and a verified recipe update,
/// which preserves candidate bytes and earlier guidance. Known before: the `source_slot` and the
/// `first_slot`, the `containerfile` and the file `paths`.
pub const TOOLS: [Line; 165] = [
    ("need", "workspace", "source_slot,worker", "expected string in product response"),
    ("do", "", "worker tools-seed-app $workspace plain /bin/cp /fixtures/slotbook /workspace/app", ""),
    ("ok", "done", "", ""),
    ("do", "", "worker tools-scratch-install $workspace plain /bin/cp /fixtures/slotbook-workspace /workspace/scratch-tool", ""),
    ("ok", "done", "", ""),
    ("do", "", "worker tools-scratch-inspect $workspace capture /workspace/scratch-tool inspect /workspace", ""),
    ("ok", "scratch", "", ""),
    ("do", "", "worker tools-before-update $workspace capture /bin/cat /workspace/app", ""),
    ("ok", "before", "", ""),
    ("list", "before,observations", "", "worker observations absent"),
    ("first", "artifact_event", "before,observations is category artifact plus is event,kind,reference,media_type application/octet-stream", "worker artifact absent"),
    ("keep", "before_artifact", "artifact_event,event,kind,reference", ""),
    ("do", "", "measure-tool", ""),
    ("ok", "tool_size", "", ""),
    ("tell", "bounds,candidate", "4194304", ""),
    ("positive", "tool_size", "", "native tool exceeds the managed artifact capture bound"),
    ("reaches", "bounds,candidate", "tool_size", "native tool exceeds the managed artifact capture bound"),
    ("do", "", "hash-tool", ""),
    ("ok", "tool_digest", "", ""),
    ("put", "manifest,digest", "tool_digest", ""),
    ("put", "manifest,size_bytes", "tool_size", ""),
    ("say", "manifest,build_path", "slotbook-workspace", ""),
    ("do", "", "upload tools-native-input-manifest application/json manifest", ""),
    ("ok", "tool_manifest", "", ""),
    ("do", "", "record-tool", ""),
    ("ok", "recorded", "", ""),
    ("true", "recorded", "", "recorded native tool differs"),
    ("do", "", "upload tools-build-input text/plain containerfile", ""),
    ("ok", "build_input", "", ""),
    ("do", "", "build-image", ""),
    ("ok", "built", "", ""),
    ("true", "built,succeeded", "", "recorded tool image build failed"),
    ("keep", "image", "built,image", ""),
    ("do", "", "load-recipe $workspace", ""),
    ("ok", "recipe", "", ""),
    ("say", "recipe,name", "learn-tools-v2", ""),
    ("put", "recipe,worker_image", "image", ""),
    ("do", "", "recipe-reference recipe", ""),
    ("ok", "reference", "", ""),
    ("do", "", "retain learn-tools-v2.json recipe", ""),
    ("ok", "recipe_path", "", ""),
    ("keep", "expansion", "recipe", ""),
    ("say", "expansion,manager_mount", "/private/manager", ""),
    ("do", "", "recipe-refusal expansion", ""),
    ("ok", "refusal", "", ""),
    ("true", "refusal", "", "recipe reader accepted manager-access expansion"),
    ("do", "", "retain tools-refused-manager-expansion.json expansion", ""),
    ("ok", "retained", "", ""),
    ("do", "", "install-recipe $recipe_path", ""),
    ("ok", "installed", "", ""),
    ("need", "recipe_name", "reference,name", "expected string in product response"),
    ("need", "recipe_digest", "reference,digest", "expected string in product response"),
    ("do", "", "resource tools-stage-apply success learn-tools-stage 0 apply --recipe $recipe_name --digest $recipe_digest", ""),
    ("ok", "stage_receipt", "", ""),
    ("do", "", "resource tools-stage-state success learn-tools-stage 0 inspect", ""),
    ("ok", "stage", "", ""),
    ("null", "stage,pending", "", "tool candidate did not verify in its fresh installation"),
    ("whole", "stage,generation", "", "expected integer in product response"),
    ("positive", "stage,generation", "", "tool candidate did not verify in its fresh installation"),
    ("do", "", "worker tools-stage-native-bytes learn-tools-stage capture /bin/cat /usr/local/bin/slotbook-workspace", ""),
    ("ok", "staged_tool", "", ""),
    ("list", "staged_tool,observations", "", "worker observations absent"),
    ("first", "artifact_event", "staged_tool,observations is category artifact plus is event,kind,reference,media_type application/octet-stream", "worker artifact absent"),
    ("keep", "tool", "artifact_event,event,kind,reference", ""),
    ("same", "tool,digest", "tool_digest", "staged native bytes differ from the recorded build input"),
    ("same", "tool,size_bytes", "tool_size", "staged native bytes differ from the recorded build input"),
    ("do", "", "worker tools-stage-knowledge learn-tools-stage plain /usr/local/bin/slotbook-workspace knowledge /workspace", ""),
    ("ok", "done", "", ""),
    ("do", "", "worker tools-stage-candidate learn-tools-stage plain /bin/cp /fixtures/slotbook /workspace/app", ""),
    ("ok", "done", "", ""),
    ("do", "", "worker tools-stage-inspect learn-tools-stage capture /usr/local/bin/slotbook-workspace inspect /workspace", ""),
    ("ok", "staged", "", ""),
    ("do", "", "retained tools-old-state.json inspect $workspace", ""),
    ("ok", "current", "", ""),
    ("whole", "current,version", "", "expected integer in product response"),
    ("do", "", "call learner-cannot-update-recipe-with-interruption refused learner resource --installation $workspace --expected-version $current,version update --recipe $recipe_name --digest $recipe_digest --allow-interruption", ""),
    ("ok", "refusal", "", ""),
    ("do", "", "resource tools-approved-update refused $workspace $current,version update --recipe $recipe_name --digest $recipe_digest", ""),
    ("ok", "refusal", "", ""),
    ("do", "", "resource tools-approved-drained-update success $workspace $current,version update --recipe $recipe_name --digest $recipe_digest --allow-interruption", ""),
    ("ok", "update_receipt", "", ""),
    ("do", "", "resource tools-updated-state success $workspace 0 inspect", ""),
    ("ok", "updated", "", ""),
    ("null", "updated,pending", "", "recipe update did not activate a verified new generation"),
    ("whole", "updated,generation", "", "expected integer in product response"),
    ("whole", "current,generation", "", "expected integer in product response"),
    ("exceeds", "updated,generation", "current,generation", "recipe update did not activate a verified new generation"),
    ("do", "", "worker tools-maintained-inspect $workspace capture /usr/local/bin/slotbook-workspace inspect /workspace", ""),
    ("ok", "maintained", "", ""),
    ("do", "", "worker tools-after-update $workspace capture /bin/cat /workspace/app", ""),
    ("ok", "after", "", ""),
    ("list", "after,observations", "", "worker observations absent"),
    ("first", "artifact_event", "after,observations is category artifact plus is event,kind,reference,media_type application/octet-stream", "worker artifact absent"),
    ("keep", "after_artifact", "artifact_event,event,kind,reference", ""),
    ("same", "after_artifact,digest", "before_artifact,digest", "tool update changed working candidate bytes"),
    ("do", "", "load result.json", ""),
    ("ok", "learning_result", "", ""),
    ("make", "note", "guidance-note reference updated learning_result keys,comparison", ""),
    ("do", "", "worker-note $workspace", ""),
    ("ok", "done", "", ""),
    ("do", "", "worker tools-export-guidance $workspace capture /bin/cat /workspace/KNOWLEDGE.md", ""),
    ("ok", "updated_guidance", "", ""),
    ("list", "updated_guidance,observations", "", "worker observations absent"),
    ("first", "artifact_event", "updated_guidance,observations is category artifact plus is event,kind,reference,media_type application/octet-stream", "worker artifact absent"),
    ("keep", "updated_reference", "artifact_event,event,kind,reference", ""),
    ("do", "", "download-once tools-guidance-download updated_reference,identity $paths,updated_guidance", ""),
    ("ok", "downloaded", "", ""),
    ("do", "", "upload tools-updated-guidance text/plain file:updated_guidance", ""),
    ("ok", "guidance", "", ""),
    ("do", "", "load learning-select.json", ""),
    ("ok", "select_document", "", ""),
    ("keep", "selection", "select_document,selection", ""),
    ("keep", "original_guidance", "selection,guidance", ""),
    ("put", "selection,guidance", "guidance", ""),
    ("put", "selection,method", "learning_result,selected_method", ""),
    ("say", "selection,supersedes,actor", "human:learning-operator", ""),
    ("say", "selection,supersedes,command", "learning-select", ""),
    ("make", "approval", "promotion-approval learning_result keys,promotion", ""),
    ("put", "selection,approval", "approval", ""),
    ("say", "select,type", "select", ""),
    ("put", "select,selection", "selection", ""),
    ("keep", "wrong", "select", ""),
    ("put", "wrong,selection,workspace", "first_slot,worker", ""),
    ("do", "", "command learning-refused-cross-workspace-supersession refused operator wrong", ""),
    ("ok", "refusal", "", ""),
    ("do", "", "command learning-next-selection success operator select", ""),
    ("ok", "next", "", ""),
    ("do", "", "session restart", ""),
    ("ok", "restarted", "", ""),
    ("say", "inspect,type", "inspect", ""),
    ("say", "inspect,receipt,actor", "human:learning-operator", ""),
    ("say", "inspect,receipt,command", "learning-select", ""),
    ("do", "", "command learning-original-selection-after-update success operator inspect", ""),
    ("ok", "previous", "", ""),
    ("same", "previous,selection,guidance", "original_guidance", "future knowledge selection rewrote the original guidance"),
    ("differs", "guidance,digest", "original_guidance,digest", "future knowledge selection rewrote the original guidance"),
    ("do", "", "load $files,observation", ""),
    ("ok", "observation", "", ""),
    ("put", "knowledge,previous", "previous", ""),
    ("put", "knowledge,next", "next", ""),
    ("put", "knowledge,proposal_context", "observation,attempt,context_manifest", ""),
    ("do", "", "retain knowledge-update-result.json knowledge", ""),
    ("ok", "retained", "", ""),
    ("put", "report,scratch", "scratch", ""),
    ("put", "report,native_input", "tool", ""),
    ("put", "report,native_manifest", "tool_manifest", ""),
    ("put", "report,build_input", "build_input", ""),
    ("put", "report,image", "image", ""),
    ("put", "report,recipe", "reference", ""),
    ("put", "report,fresh_stage_receipt", "stage_receipt", ""),
    ("put", "report,fresh_stage", "stage", ""),
    ("put", "report,staged_observation", "staged", ""),
    ("put", "report,old_setup", "current", ""),
    ("put", "report,activation_receipt", "update_receipt", ""),
    ("put", "report,activated_setup", "updated", ""),
    ("put", "report,maintained_observation", "maintained", ""),
    ("put", "report,preserved_candidate", "before_artifact", ""),
    ("say", "report,relationship", "The selected method and its prior invocation receipts are unchanged. The recipe has a separately recorded generation; no active context receives new guidance or a new publication implicitly.", ""),
    ("say", "limit_base", "Base OCI bytes must remain preloaded; no upstream rebuild availability is claimed.", ""),
    ("say", "limit_data", "Working bookings and notes require data backup; rebuilding the tool image does not restore mutable data.", ""),
    ("gather", "report,limits", "limit_base limit_data", ""),
    ("do", "", "retain setup-improvement.json report", ""),
    ("ok", "retained", "", ""),
    ("do", "", "upload tools-improvement-result application/json report", ""),
    ("ok", "uploaded", "", ""),
];

/// The study is authored.
pub fn prepare(known: Json) -> (r: Scenario)
    requires
        known@ is Object,
    ensures
        r.valid(),
        r@ == opening(LEARN_PREPARE@, known@),
{
    Scenario::open(LEARN_PREPARE.as_slice(), known)
}

/// One slot of the study is authored.
pub fn prepare_slot(known: Json) -> (r: Scenario)
    requires
        known@ is Object,
    ensures
        r.valid(),
        r@ == opening(LEARN_PREPARE_SLOT@, known@),
{
    Scenario::open(LEARN_PREPARE_SLOT.as_slice(), known)
}

/// The authored method is imported.
pub fn import_method(known: Json) -> (r: Scenario)
    requires
        known@ is Object,
    ensures
        r.valid(),
        r@ == opening(LEARN_IMPORT@, known@),
{
    Scenario::open(LEARN_IMPORT.as_slice(), known)
}

/// One slot is made ready.
pub fn setup_slot(known: Json) -> (r: Scenario)
    requires
        known@ is Object,
    ensures
        r.valid(),
        r@ == opening(LEARN_SLOT@, known@),
{
    Scenario::open(LEARN_SLOT.as_slice(), known)
}

/// The source is selected and the comparison declared.
pub fn select_source(known: Json) -> (r: Scenario)
    requires
        known@ is Object,
    ensures
        r.valid(),
        r@ == opening(LEARN_SOURCE@, known@),
{
    Scenario::open(LEARN_SOURCE.as_slice(), known)
}

/// A retained selection is read again.
pub fn resume(known: Json) -> (r: Scenario)
    requires
        known@ is Object,
    ensures
        r.valid(),
        r@ == opening(LEARN_RESUMED@, known@),
{
    Scenario::open(LEARN_RESUMED.as_slice(), known)
}

/// A later attempt is declared.
pub fn redeclare(known: Json) -> (r: Scenario)
    requires
        known@ is Object,
    ensures
        r.valid(),
        r@ == opening(LEARN_REDECLARED@, known@),
{
    Scenario::open(LEARN_REDECLARED.as_slice(), known)
}

/// The promotion is preauthorized.
pub fn preauthorize(known: Json) -> (r: Scenario)
    requires
        known@ is Object,
    ensures
        r.valid(),
        r@ == opening(LEARN_PREAUTHORIZED@, known@),
{
    Scenario::open(LEARN_PREAUTHORIZED.as_slice(), known)
}

/// The model proposes.
pub fn propose(known: Json) -> (r: Scenario)
    requires
        known@ is Object,
    ensures
        r.valid(),
        r@ == opening(PROPOSAL_RUN@, known@),
{
    Scenario::open(PROPOSAL_RUN.as_slice(), known)
}

/// A held-out input stays unread.
pub fn deny_input(known: Json) -> (r: Scenario)
    requires
        known@ is Object,
    ensures
        r.valid(),
        r@ == opening(PROPOSAL_DENIED@, known@),
{
    Scenario::open(PROPOSAL_DENIED.as_slice(), known)
}

/// The proposal is submitted within its bounds.
pub fn submit(known: Json) -> (r: Scenario)
    requires
        known@ is Object,
    ensures
        r.valid(),
        r@ == opening(PROPOSAL_SUBMITTED@, known@),
{
    Scenario::open(PROPOSAL_SUBMITTED.as_slice(), known)
}

/// One method is invoked on one slot.
pub fn invoke(known: Json) -> (r: Scenario)
    requires
        known@ is Object,
    ensures
        r.valid(),
        r@ == opening(EVALUATE_INVOKE@, known@),
{
    Scenario::open(EVALUATE_INVOKE.as_slice(), known)
}

/// The evaluator compares both arms.
pub fn compare_arms(known: Json) -> (r: Scenario)
    requires
        known@ is Object,
    ensures
        r.valid(),
        r@ == opening(EVALUATE_COMPARED@, known@),
{
    Scenario::open(EVALUATE_COMPARED.as_slice(), known)
}

/// A retained report is accepted again.
pub fn retained(known: Json) -> (r: Scenario)
    requires
        known@ is Object,
    ensures
        r.valid(),
        r@ == opening(EVALUATE_RETAINED@, known@),
{
    Scenario::open(EVALUATE_RETAINED.as_slice(), known)
}

/// A variant belongs to the selected method and its own input.
pub fn check_variant(known: Json) -> (r: Scenario)
    requires
        known@ is Object,
    ensures
        r.valid(),
        r@ == opening(EVALUATE_SELECTED@, known@),
{
    Scenario::open(EVALUATE_SELECTED.as_slice(), known)
}

/// One variant is verified.
pub fn vary(known: Json) -> (r: Scenario)
    requires
        known@ is Object,
    ensures
        r.valid(),
        r@ == opening(EVALUATE_VARIANT@, known@),
{
    Scenario::open(EVALUATE_VARIANT.as_slice(), known)
}

/// One variant is deployed.
pub fn deploy(known: Json) -> (r: Scenario)
    requires
        known@ is Object,
    ensures
        r.valid(),
        r@ == opening(EVALUATE_DEPLOYED@, known@),
{
    Scenario::open(EVALUATE_DEPLOYED.as_slice(), known)
}

/// Scratch files become maintained tools.
pub fn maintain_tools(known: Json) -> (r: Scenario)
    requires
        known@ is Object,
    ensures
        r.valid(),
        r@ == opening(TOOLS@, known@),
{
    Scenario::open(TOOLS.as_slice(), known)
}

/// The candidate is promoted where the comparison says so, and refused otherwise.
pub fn settle_promotion(comparison: &Json, known: Json) -> (r: Scenario)
    requires
        known@ is Object,
    ensures
        r.valid(),
        r@ == (if promotes(comparison@) {
            opening(EVALUATE_PROMOTED@, known@)
        } else {
            opening(EVALUATE_NOT_PROMOTED@, known@)
        }),
{
    if eligible(comparison) {
        Scenario::open(EVALUATE_PROMOTED.as_slice(), known)
    } else {
        Scenario::open(EVALUATE_NOT_PROMOTED.as_slice(), known)
    }
}

} // verus!
