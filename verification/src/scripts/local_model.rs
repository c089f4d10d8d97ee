//! Local-model interoperability: a clean generation, retained uncertainty, acceptance, continuation and refusal.

use vstd::prelude::*;

use crate::json::Json;
use crate::scenario::{opening, Line, Scenario};

verus! {

/// A released model step that enters its endpoint once across restarts, with exact context and
/// contract, and a step whose endpoint closes after entry, which stays uncertain and is never
/// retried. Known before: the `capability`, the profile's `facts`, whether the endpoint is
/// `deterministic`, the file `paths`, and the built `success` and `failure` blueprints with `id`,
/// `path` and `text`.
pub const LOCAL_MODEL: [Line; 157] = [
    ("do", "", "daemon start", ""),
    ("ok", "started", "", ""),
    ("do", "", "cli daemon readiness", ""),
    ("success", "ready", "", ""),
    ("do", "", "cli capability show $capability", ""),
    ("success", "shown", "", ""),
    ("nonempty", "shown,value", "", "capability show omitted its generation"),
    ("keep", "generation", "shown,value,#0", ""),
    ("same", "generation,capability_id", "capability", "capability show contradicted exact model profile generation"),
    ("same", "generation,generation", "facts,revision", "capability show contradicted exact model profile generation"),
    ("same", "generation,provider_profile", "facts,profile_id", "capability show contradicted exact model profile generation"),
    ("pick", "operation", "generation,operation_contracts operation model.generate", "capability show omitted model.generate contract"),
    ("is", "operation,side_effect", "unknown", "capability show reinterpreted the model external-effect contract"),
    ("is", "operation,idempotency", "unsupported", "capability show reinterpreted the model external-effect contract"),
    ("is", "operation,cancellation", "best_effort", "capability show reinterpreted the model external-effect contract"),
    ("do", "", "cli-input $success,text --command-id local-model-validate-1 blueprint validate -", ""),
    ("success", "validated", "", ""),
    ("do", "", "cli --command-id local-model-import-1 blueprint import $success,path", ""),
    ("success", "imported", "", ""),
    ("do", "", "cli --command-id local-model-start-1 run start run-local-model-dogfood local-model-dogfood $success,id", ""),
    ("success", "started", "", ""),
    ("wait", "waiting", "cli run show run-local-model-dogfood", ""),
    ("until", "", "any waiting,value,nodes is node_id model-release", ""),
    ("until", "", "none waiting,value,nodes is node_id model", ""),
    ("number", "waiting_sequence", "waiting,value,sequence", ""),
    ("do", "", "daemon kill", ""),
    ("ok", "killed", "", ""),
    ("do", "", "daemon start", ""),
    ("ok", "started", "", ""),
    ("do", "", "cli run show run-local-model-dogfood", ""),
    ("success", "reopened_wait", "", ""),
    ("number", "reopened_sequence", "reopened_wait,value,sequence", ""),
    ("same", "reopened_sequence", "waiting_sequence", "restart changed the unreleased wait boundary or entered the model"),
    ("none", "reopened_wait,value,nodes", "is node_id model", "restart changed the unreleased wait boundary or entered the model"),
    ("do", "", "follow start run-local-model-dogfood", ""),
    ("ok", "following", "", ""),
    ("do", "", "cli --command-id local-model-signal-1 --expected-sequence $waiting_sequence run signal run-local-model-dogfood --signal-id local-model-release-1 --signal-type evidence.model.release --payload {\"release\":true}", ""),
    ("success", "signalled", "", ""),
    ("wait", "completed", "cli run show run-local-model-dogfood", ""),
    ("until", "", "is completed,value,terminal succeeded", ""),
    ("do", "", "follow stop", ""),
    ("ok", "followed", "", ""),
    ("contains", "followed", "run.timeline", "timeline follow did not expose both its bounded page and resumed observations"),
    ("contains", "followed", "run.observation", "timeline follow did not expose both its bounded page and resumed observations"),
    ("pick", "model", "completed,value,nodes node_id model", "model execution is absent"),
    ("num", "model,attempt_count", "1", "clean model workflow created more than one attempt"),
    ("pick", "omitted", "completed,value,nodes node_id omitted-evidence", "omitted evidence execution is absent"),
    ("text", "omitted_attempt_id", "omitted,latest_attempt_id", ""),
    ("do", "", "cli attempt inspect run-local-model-dogfood $omitted_attempt_id", ""),
    ("success", "omitted_attempt", "", ""),
    ("pick", "omitted_output", "omitted_attempt,value,outputs name evidence", "omitted evidence attempt did not publish its artifact"),
    ("need", "omitted_artifact", "omitted_output,artifact,artifact_id", "omitted evidence attempt did not publish its artifact"),
    ("text", "attempt_id", "model,latest_attempt_id", ""),
    ("do", "", "cli attempt inspect run-local-model-dogfood $attempt_id", ""),
    ("success", "attempt", "", ""),
    ("keep", "model_attempt", "attempt,value", ""),
    ("is", "model_attempt,state", "terminal", "clean model attempt did not expose one accepted non-uncertain terminal"),
    ("is", "model_attempt,terminal", "succeeded", "clean model attempt did not expose one accepted non-uncertain terminal"),
    ("false", "model_attempt,uncertain", "", "clean model attempt did not expose one accepted non-uncertain terminal"),
    ("same", "model_attempt,capability_id", "capability", "clean model attempt did not expose one accepted non-uncertain terminal"),
    ("same", "model_attempt,provider_profile", "facts,profile_id", "clean model attempt did not expose one accepted non-uncertain terminal"),
    ("is", "model_attempt,operation_contract,operation", "model.generate", "attempt read contradicted its frozen model external-effect contract"),
    ("is", "model_attempt,operation_contract,side_effect", "unknown", "attempt read contradicted its frozen model external-effect contract"),
    ("is", "model_attempt,operation_contract,idempotency", "unsupported", "attempt read contradicted its frozen model external-effect contract"),
    ("is", "model_attempt,operation_contract,cancellation", "best_effort", "attempt read contradicted its frozen model external-effect contract"),
    ("false", "model_attempt,idempotency_key_present", "", "attempt read contradicted its frozen model external-effect contract"),
    ("keep", "provenance", "model_attempt,capability_provenance", ""),
    ("same", "provenance,model_profile_revision", "facts,revision", "attempt read omitted exact redacted model profile provenance"),
    ("same", "provenance,provider_protocol", "facts,protocol", "attempt read omitted exact redacted model profile provenance"),
    ("same", "provenance,model_alias", "facts,model_alias", "attempt read omitted exact redacted model profile provenance"),
    ("same", "provenance,endpoint_origin", "facts,endpoint_origin", "attempt read omitted exact redacted model profile provenance"),
    ("starts", "provenance,model_profile_digest", "b3_", "attempt read omitted exact redacted model profile provenance"),
    ("is", "model_attempt,context_access", "authorized", "controller could not inspect the frozen context manifest"),
    ("make", "entries", "rendered model_attempt,context,entries", ""),
    ("make", "omissions", "rendered model_attempt,context,omissions", ""),
    ("contains", "entries", "selected-evidence", "attempt context did not preserve selected and omitted source identities"),
    ("omits", "entries", "omitted_artifact", "attempt context did not preserve selected and omitted source identities"),
    ("mentions", "omissions", "omitted_artifact", "attempt context did not preserve selected and omitted source identities"),
    ("either", "", "false facts,streaming or positive model_attempt,progress_observations", "streaming profile produced no ordered fragments"),
    ("list", "model_attempt,outputs", "", "model attempt outputs are absent"),
    ("pick", "response", "model_attempt,outputs name model_response", "model attempt omitted its canonical response artifact"),
    ("whole", "response,report_sequence", "", "model output omitted attempt and publication linkage"),
    ("whole", "response,publication_sequence", "", "model output omitted attempt and publication linkage"),
    ("text", "artifact_id", "response,artifact,artifact_id", ""),
    ("text", "artifact_digest", "response,artifact,digest", ""),
    ("number", "artifact_size", "response,artifact,size", ""),
    ("do", "", "cli artifact get $artifact_id --output $paths,response", ""),
    ("success", "got", "", ""),
    ("do", "", "hash $paths,response", ""),
    ("ok", "downloaded", "", ""),
    ("same", "downloaded,size", "artifact_size", "downloaded model artifact contradicted its digest or size"),
    ("same", "downloaded,digest", "artifact_digest", "downloaded model artifact contradicted its digest or size"),
    ("do", "", "decode response $paths,response", ""),
    ("ok", "body", "", ""),
    ("either", "", "any model_attempt,outputs is name provider_metadata or empty body,provider_metadata", "provider metadata artifact disagreed with the canonical model response"),
    ("either", "", "none model_attempt,outputs is name provider_metadata or nonempty body,provider_metadata", "provider metadata artifact disagreed with the canonical model response"),
    ("do", "", "endpoint success", ""),
    ("ok", "captured", "", ""),
    ("either", "", "false deterministic or contains captured,request selected architecture evidence", "deterministic provider request contradicted frozen context selection"),
    ("either", "", "false deterministic or lacks captured,request omitted unrelated evidence", "deterministic provider request contradicted frozen context selection"),
    ("either", "", "false deterministic or num captured,requests 1", "deterministic success endpoint observed duplicate entry"),
    ("do", "", "daemon kill", ""),
    ("ok", "killed", "", ""),
    ("do", "", "daemon start", ""),
    ("ok", "started", "", ""),
    ("do", "", "cli run show run-local-model-dogfood", ""),
    ("success", "reopened", "", ""),
    ("pick", "reopened_model", "reopened,value,nodes node_id model", "reopened model execution is absent"),
    ("num", "reopened_model,attempt_count", "1", "restart duplicated or replaced the successful model attempt"),
    ("same", "reopened_model,latest_attempt_id", "attempt_id", "restart duplicated or replaced the successful model attempt"),
    ("do", "", "cli attempt inspect run-local-model-dogfood $attempt_id", ""),
    ("success", "reopened_attempt", "", ""),
    ("same", "reopened_attempt,value,outputs", "attempt,value,outputs", "restart changed successful model artifact publications"),
    ("do", "", "cli-input $failure,text --command-id local-model-uncertain-validate-1 blueprint validate -", ""),
    ("success", "validated", "", ""),
    ("do", "", "cli --command-id local-model-uncertain-import-1 blueprint import $failure,path", ""),
    ("success", "imported", "", ""),
    ("do", "", "cli --command-id local-model-uncertain-start-1 run start run-local-model-uncertainty local-model-uncertainty $failure,id", ""),
    ("success", "started", "", ""),
    ("wait", "uncertain", "cli run show run-local-model-uncertainty", ""),
    ("until", "", "num uncertain,value,uncertainty_count 1", ""),
    ("pick", "model", "uncertain,value,nodes node_id model", "uncertain model execution is absent"),
    ("num", "model,attempt_count", "1", "uncertain model work was automatically retried"),
    ("text", "uncertain_attempt", "model,latest_attempt_id", ""),
    ("do", "", "cli attempt inspect run-local-model-uncertainty $uncertain_attempt", ""),
    ("success", "unresolved", "", ""),
    ("true", "unresolved,value,uncertain", "", "post-entry close did not retain the exact unsupported-idempotency obligation"),
    ("is", "unresolved,value,operation_contract,side_effect", "unknown", "post-entry close did not retain the exact unsupported-idempotency obligation"),
    ("is", "unresolved,value,operation_contract,idempotency", "unsupported", "post-entry close did not retain the exact unsupported-idempotency obligation"),
    ("false", "unresolved,value,idempotency_key_present", "", "post-entry close did not retain the exact unsupported-idempotency obligation"),
    ("number", "uncertain_sequence", "uncertain,value,sequence", ""),
    ("do", "", "cli --yes --command-id local-model-unsafe-retry-1 --expected-sequence $uncertain_sequence --evidence recovery_observation=evidence-local-model-retry-1 attempt resolve run-local-model-uncertainty $uncertain_attempt local-model-retry-decision-1 --action retry", ""),
    ("refused", "", "", "authorized retry bypassed unsupported provider idempotency"),
    ("is", "reply,stdout", "", "authorized retry bypassed unsupported provider idempotency"),
    ("contains", "reply,stderr", "\"classification\":\"conflict\"", "authorized retry bypassed unsupported provider idempotency"),
    ("contains", "reply,stderr", "manual retry", "authorized retry bypassed unsupported provider idempotency"),
    ("do", "", "cli run show run-local-model-uncertainty", ""),
    ("success", "retain_state", "", ""),
    ("number", "retain_sequence", "retain_state,value,sequence", ""),
    ("do", "", "cli --command-id local-model-retain-1 --expected-sequence $retain_sequence --evidence recovery_observation=evidence-local-model-retain-1 attempt resolve run-local-model-uncertainty $uncertain_attempt local-model-retain-decision-1 --action retain", ""),
    ("success", "resolved", "", ""),
    ("do", "", "cli attempt inspect run-local-model-uncertainty $uncertain_attempt", ""),
    ("success", "retained", "", ""),
    ("true", "retained,value,uncertain", "", "retain resolution hid the unresolved provider outcome"),
    ("do", "", "endpoint failure", ""),
    ("ok", "failed_request", "", ""),
    ("lacks", "failed_request,request", "HTTP/1.1 200", "controlled request capture unexpectedly contains a response"),
    ("num", "failed_request,requests", "1", "unsupported-idempotency model work was automatically retried"),
    ("do", "", "daemon kill", ""),
    ("ok", "killed", "", ""),
    ("do", "", "daemon start", ""),
    ("ok", "started", "", ""),
    ("do", "", "cli attempt inspect run-local-model-uncertainty $uncertain_attempt", ""),
    ("success", "kept", "", ""),
    ("true", "kept,value,uncertain", "", "retained uncertainty disappeared after restart"),
    ("do", "", "daemon kill", ""),
    ("ok", "killed", "", ""),
];

/// A rejected review opens no dependent work; remediation and continuation each wait for their
/// exact release across a restart. Known before: the built `revision` with `id` and `path`.
pub const ACCEPTANCE: [Line; 145] = [
    ("do", "", "daemon start", ""),
    ("ok", "started", "", ""),
    ("do", "", "cli --command-id acceptance-import blueprint import $revision,path", ""),
    ("success", "imported", "", ""),
    ("do", "", "cli --command-id acceptance-start run start acceptance-run acceptance-workflow $revision,id", ""),
    ("success", "started", "", ""),
    ("wait", "state", "cli run show acceptance-run", ""),
    ("until", "", "any state,value,nodes is node_id before-acceptance", ""),
    ("until", "", "none state,value,nodes is node_id first-acceptance", ""),
    ("do", "", "requests dependent", ""),
    ("ok", "entries", "", ""),
    ("num", "entries", "0", "dependent model entered before accepted review and release"),
    ("pick", "source_node", "state,value,nodes node_id model", "original model absent"),
    ("text", "source_attempt", "source_node,latest_attempt_id", ""),
    ("do", "", "cli attempt inspect acceptance-run $source_attempt", ""),
    ("success", "source", "", ""),
    ("is", "source,value,terminal", "succeeded", "acceptance changed or lost the successful exhausted invocation"),
    ("is", "source,value,model_generation,finish_reason", "length", "acceptance changed or lost the successful exhausted invocation"),
    ("do", "", "daemon kill", ""),
    ("ok", "killed", "", ""),
    ("do", "", "daemon start", ""),
    ("ok", "started", "", ""),
    ("do", "", "cli run show acceptance-run", ""),
    ("success", "reopened", "", ""),
    ("do", "", "requests dependent", ""),
    ("ok", "entries", "", ""),
    ("none", "reopened,value,nodes", "is node_id first-acceptance", "restart opened an unreleased acceptance boundary"),
    ("num", "entries", "0", "restart opened an unreleased acceptance boundary"),
    ("number", "sequence", "reopened,value,sequence", ""),
    ("do", "", "cli --command-id release-before-acceptance --expected-sequence $sequence run signal acceptance-run --signal-id release-before-acceptance --signal-type acceptance.evaluate --payload {\"authorized\":true}", ""),
    ("success", "released", "", ""),
    ("do", "", "cli --command-id release-before-acceptance --expected-sequence $sequence run signal acceptance-run --signal-id release-before-acceptance --signal-type acceptance.evaluate --payload {\"authorized\":true}", ""),
    ("success", "replay", "", ""),
    ("true", "replay,value,replayed", "", "release did not return its retained receipt"),
    ("mark", "released,value,replayed", "true", ""),
    ("same", "released,value", "replay,value", "exact authorized release replay changed its durable result"),
    ("same", "released,ok", "replay,ok", "exact authorized release replay changed its durable result"),
    ("wait", "state", "cli run show acceptance-run", ""),
    ("until", "", "any state,value,nodes is node_id remediation", ""),
    ("until", "", "none state,value,nodes is node_id repair", ""),
    ("do", "", "requests dependent", ""),
    ("ok", "entries", "", ""),
    ("num", "entries", "0", "dependent model entered before accepted review and release"),
    ("pick", "source_node", "state,value,nodes node_id model", "original model absent"),
    ("text", "source_attempt", "source_node,latest_attempt_id", ""),
    ("do", "", "cli attempt inspect acceptance-run $source_attempt", ""),
    ("success", "source", "", ""),
    ("is", "source,value,terminal", "succeeded", "acceptance changed or lost the successful exhausted invocation"),
    ("is", "source,value,model_generation,finish_reason", "length", "acceptance changed or lost the successful exhausted invocation"),
    ("pick", "decision_node", "state,value,nodes node_id first-acceptance", "acceptance node absent"),
    ("text", "decision_attempt", "decision_node,latest_attempt_id", ""),
    ("do", "", "cli attempt inspect acceptance-run $decision_attempt", ""),
    ("success", "decision", "", ""),
    ("num", "decision_node,attempt_count", "1", "acceptance evaluation repeated"),
    ("false", "decision,value,result_acceptance,accepted", "", "acceptance result contradicted its workflow route"),
    ("is", "decision,value,result_acceptance,reason", "output_allowance_exhausted", "empty exhausted review lost its rejection reason"),
    ("put", "report,rejected", "decision,value,result_acceptance", ""),
    ("do", "", "daemon kill", ""),
    ("ok", "killed", "", ""),
    ("do", "", "daemon start", ""),
    ("ok", "started", "", ""),
    ("do", "", "cli run show acceptance-run", ""),
    ("success", "reopened", "", ""),
    ("do", "", "requests dependent", ""),
    ("ok", "entries", "", ""),
    ("none", "reopened,value,nodes", "is node_id repair", "restart opened an unreleased acceptance boundary"),
    ("num", "entries", "0", "restart opened an unreleased acceptance boundary"),
    ("do", "", "cli attempt inspect acceptance-run $decision_attempt", ""),
    ("success", "kept_decision", "", ""),
    ("same", "decision,value", "kept_decision,value", "restart altered the retained acceptance decision"),
    ("number", "sequence", "reopened,value,sequence", ""),
    ("do", "", "cli --command-id release-remediation --expected-sequence $sequence run signal acceptance-run --signal-id release-remediation --signal-type acceptance.remediate --payload {\"authorized\":true}", ""),
    ("success", "released", "", ""),
    ("do", "", "cli --command-id release-remediation --expected-sequence $sequence run signal acceptance-run --signal-id release-remediation --signal-type acceptance.remediate --payload {\"authorized\":true}", ""),
    ("success", "replay", "", ""),
    ("true", "replay,value,replayed", "", "release did not return its retained receipt"),
    ("mark", "released,value,replayed", "true", ""),
    ("same", "released,value", "replay,value", "exact authorized release replay changed its durable result"),
    ("same", "released,ok", "replay,ok", "exact authorized release replay changed its durable result"),
    ("wait", "state", "cli run show acceptance-run", ""),
    ("until", "", "any state,value,nodes is node_id before-continuation", ""),
    ("until", "", "none state,value,nodes is node_id dependent", ""),
    ("do", "", "requests dependent", ""),
    ("ok", "entries", "", ""),
    ("num", "entries", "0", "dependent model entered before accepted review and release"),
    ("pick", "source_node", "state,value,nodes node_id model", "original model absent"),
    ("text", "source_attempt", "source_node,latest_attempt_id", ""),
    ("do", "", "cli attempt inspect acceptance-run $source_attempt", ""),
    ("success", "source", "", ""),
    ("is", "source,value,terminal", "succeeded", "acceptance changed or lost the successful exhausted invocation"),
    ("is", "source,value,model_generation,finish_reason", "length", "acceptance changed or lost the successful exhausted invocation"),
    ("pick", "decision_node", "state,value,nodes node_id second-acceptance", "acceptance node absent"),
    ("text", "decision_attempt", "decision_node,latest_attempt_id", ""),
    ("do", "", "cli attempt inspect acceptance-run $decision_attempt", ""),
    ("success", "decision", "", ""),
    ("num", "decision_node,attempt_count", "1", "acceptance evaluation repeated"),
    ("true", "decision,value,result_acceptance,accepted", "", "acceptance result contradicted its workflow route"),
    ("put", "report,accepted", "decision,value,result_acceptance", ""),
    ("do", "", "daemon kill", ""),
    ("ok", "killed", "", ""),
    ("do", "", "daemon start", ""),
    ("ok", "started", "", ""),
    ("do", "", "cli run show acceptance-run", ""),
    ("success", "reopened", "", ""),
    ("do", "", "requests dependent", ""),
    ("ok", "entries", "", ""),
    ("none", "reopened,value,nodes", "is node_id dependent", "restart opened an unreleased acceptance boundary"),
    ("num", "entries", "0", "restart opened an unreleased acceptance boundary"),
    ("do", "", "cli attempt inspect acceptance-run $decision_attempt", ""),
    ("success", "kept_decision", "", ""),
    ("same", "decision,value", "kept_decision,value", "restart altered the retained acceptance decision"),
    ("number", "sequence", "reopened,value,sequence", ""),
    ("do", "", "cli --command-id release-before-continuation --expected-sequence $sequence run signal acceptance-run --signal-id release-before-continuation --signal-type acceptance.continue --payload {\"authorized\":true}", ""),
    ("success", "released", "", ""),
    ("do", "", "cli --command-id release-before-continuation --expected-sequence $sequence run signal acceptance-run --signal-id release-before-continuation --signal-type acceptance.continue --payload {\"authorized\":true}", ""),
    ("success", "replay", "", ""),
    ("true", "replay,value,replayed", "", "release did not return its retained receipt"),
    ("mark", "released,value,replayed", "true", ""),
    ("same", "released,value", "replay,value", "exact authorized release replay changed its durable result"),
    ("same", "released,ok", "replay,ok", "exact authorized release replay changed its durable result"),
    ("wait", "completed", "cli run show acceptance-run", ""),
    ("until", "", "is completed,value,terminal succeeded", ""),
    ("none", "completed,value,nodes", "is node_id forbidden-dependent", "rejected source opened the original dependent path"),
    ("do", "", "join original", ""),
    ("ok", "joined", "", ""),
    ("do", "", "requests original", ""),
    ("ok", "entries", "", ""),
    ("num", "entries", "1", "original entry count was not exactly one"),
    ("do", "", "join remediation", ""),
    ("ok", "joined", "", ""),
    ("do", "", "requests remediation", ""),
    ("ok", "entries", "", ""),
    ("num", "entries", "1", "remediation entry count was not exactly one"),
    ("do", "", "join dependent", ""),
    ("ok", "joined", "", ""),
    ("do", "", "requests dependent", ""),
    ("ok", "entries", "", ""),
    ("num", "entries", "1", "dependent entry count was not exactly one"),
    ("do", "", "daemon kill", ""),
    ("ok", "killed", "", ""),
    ("say", "report,run", "acceptance-run", ""),
    ("tell", "report,dependent_entries_before_acceptance", "0", ""),
    ("tell", "report,dependent_entries_after_release", "1", ""),
    ("tell", "report,restart_boundaries", "3", ""),
    ("mark", "report,exact_release_replay", "true", ""),
];

/// A finished first step whose continuation is proposed, approved, applied and, behind a restart,
/// released. Known before: the file `paths` and the built `initial` blueprint with `id` and `path`.
pub const CONTINUATION_START: [Line; 58] = [
    ("do", "", "daemon start", ""),
    ("ok", "started", "", ""),
    ("do", "", "cli --command-id continuation-import blueprint import $initial,path", ""),
    ("success", "imported", "", ""),
    ("do", "", "cli --command-id continuation-start run start continuation-run continuation-workflow $initial,id", ""),
    ("success", "started", "", ""),
    ("wait", "waiting", "cli run show continuation-run", ""),
    ("until", "", "any waiting,value,nodes is node_id hold", ""),
    ("until", "", "none waiting,value,nodes is node_id continued", ""),
    ("pick", "first", "waiting,value,nodes node_id first", "first invocation absent"),
    ("text", "first_attempt", "first,latest_attempt_id", ""),
    ("do", "", "cli attempt inspect continuation-run $first_attempt", ""),
    ("success", "inspected", "", ""),
    ("text", "part", "inspected,value,context_manifest,artifact_id", ""),
    ("put", "manifest,artifact_id", "part", ""),
    ("text", "part", "inspected,value,context_manifest,digest", ""),
    ("put", "manifest,digest", "part", ""),
    ("text", "part", "inspected,value,context_manifest,content_type", ""),
    ("put", "manifest,content_type", "part", ""),
    ("number", "part", "inspected,value,context_manifest,size", ""),
    ("put", "manifest,size", "part", ""),
    ("pick", "output", "inspected,value,outputs name model_response", "canonical response missing"),
    ("text", "part", "output,artifact,artifact_id", ""),
    ("put", "response,artifact_id", "part", ""),
    ("text", "part", "output,artifact,digest", ""),
    ("put", "response,digest", "part", ""),
    ("text", "part", "output,artifact,content_type", ""),
    ("put", "response,content_type", "part", ""),
    ("number", "part", "output,artifact,size", ""),
    ("put", "response,size", "part", ""),
    ("number", "waiting_sequence", "waiting,value,sequence", ""),
    ("do", "", "build continuation $waiting_sequence", ""),
    ("ok", "proposal", "", ""),
    ("do", "", "write $paths,proposal $proposal,text", ""),
    ("ok", "written", "", ""),
    ("do", "", "cli --command-id continuation-submit --expected-sequence $waiting_sequence --expected-revision $initial,id proposal submit $paths,proposal", ""),
    ("success", "submitted", "", ""),
    ("text", "revision", "submitted,value,value,proposed_revision", ""),
    ("do", "", "cli run show continuation-run", ""),
    ("success", "state", "", ""),
    ("number", "sequence", "state,value,sequence", ""),
    ("do", "", "cli --yes --command-id continuation-approve --expected-sequence $sequence --expected-revision $revision proposal approve continuation-run continuation-proposal $proposal,digest $revision continuation-decision", ""),
    ("success", "approved", "", ""),
    ("do", "", "cli run show continuation-run", ""),
    ("success", "state", "", ""),
    ("number", "sequence", "state,value,sequence", ""),
    ("do", "", "cli --yes --command-id continuation-apply --expected-sequence $sequence --expected-revision $revision proposal apply continuation-run continuation-proposal $proposal,digest $revision", ""),
    ("success", "applied", "", ""),
    ("do", "", "daemon kill", ""),
    ("ok", "killed", "", ""),
    ("do", "", "daemon start", ""),
    ("ok", "started", "", ""),
    ("do", "", "cli run show continuation-run", ""),
    ("success", "reopened", "", ""),
    ("none", "reopened,value,nodes", "is node_id continued", "restart entered an unreleased continuation"),
    ("number", "reopened_sequence", "reopened,value,sequence", ""),
    ("do", "", "cli --command-id continuation-release --expected-sequence $reopened_sequence run signal continuation-run --signal-id continue --signal-type continuation.release --payload {}", ""),
    ("success", "released", "", ""),
];

/// An exact prior answer is continued after a prospective revision, and a fresh step sees none of
/// it.
pub const CONTINUATION: [Line; 49] = [
    ("wait", "completed", "cli run show continuation-run", ""),
    ("until", "", "is completed,value,terminal succeeded", ""),
    ("pick", "continued", "completed,value,nodes node_id continued", "continued invocation missing"),
    ("text", "attempt", "continued,latest_attempt_id", ""),
    ("do", "", "cli attempt inspect continuation-run $attempt", ""),
    ("success", "consumed", "", ""),
    ("pick", "selection", "consumed,value,context,entries reason continuation", "inspector omitted continuation selection"),
    ("need", "history_id", "selection,source,reference,artifact", "continuation artifact identity missing"),
    ("do", "", "cli artifact get $history_id --output $paths,history", ""),
    ("success", "got", "", ""),
    ("do", "", "decode history $paths,history", ""),
    ("ok", "history", "", ""),
    ("len", "history,turns", "1", "inspected history changed the selected predecessor"),
    ("same", "history,turns,#0,manifest", "manifest", "inspected history changed the selected predecessor"),
    ("same", "history,turns,#0,response", "response", "inspected history changed the selected predecessor"),
    ("do", "", "join first", ""),
    ("ok", "joined", "", ""),
    ("do", "", "join continued", ""),
    ("ok", "request", "", ""),
    ("do", "", "request-body continued", ""),
    ("ok", "wire", "", ""),
    ("list", "wire,messages", "", "continued messages absent"),
    ("make", "messages", "rendered-elements wire,messages", ""),
    ("any", "messages", "is role assistant plus contains text EXACT_PRIOR_ANSWER", "wire lost exact role-labelled continuation"),
    ("any", "messages", "is role user plus contains text ORIGINAL_QUESTION", "wire lost exact role-labelled continuation"),
    ("any", "messages", "contains text NEW_QUESTION", "wire lost exact role-labelled continuation"),
    ("do", "", "join fresh", ""),
    ("ok", "fresh_request", "", ""),
    ("lacks", "fresh_request", "ORIGINAL_QUESTION", "Fresh implicitly included earlier conversation"),
    ("lacks", "fresh_request", "EXACT_PRIOR_ANSWER", "Fresh implicitly included earlier conversation"),
    ("do", "", "save continued-request.http request", ""),
    ("ok", "saved", "", ""),
    ("do", "", "save fresh-request.http fresh_request", ""),
    ("ok", "saved", "", ""),
    ("do", "", "daemon kill", ""),
    ("ok", "killed", "", ""),
    ("do", "", "daemon start", ""),
    ("ok", "started", "", ""),
    ("do", "", "cli attempt inspect continuation-run $attempt", ""),
    ("success", "retained", "", ""),
    ("same", "retained,value", "consumed,value", "restart changed exact continuation inspection"),
    ("do", "", "daemon kill", ""),
    ("ok", "killed", "", ""),
    ("tell", "report,requests", "3", ""),
    ("mark", "report,explicit_continuation", "true", ""),
    ("mark", "report,fresh_isolated", "true", ""),
    ("tell", "report,restart_boundaries", "2", ""),
    ("mark", "report,inspection_preserved", "true", ""),
    ("put", "report,history_artifact", "history_id", ""),
];

/// A rejected prior answer reaches no dependent endpoint.
pub const CONTINUATION_REJECTED: [Line; 25] = [
    ("wait", "stopped", "cli run show continuation-run", ""),
    ("until", "", "is stopped,value,terminal failed", ""),
    ("where", "stopped,value,nodes", "node_id continued num attempt_count 0", "rejected predecessor was scheduled"),
    ("do", "", "cli run timeline continuation-run --limit 100", ""),
    ("success", "timeline", "", ""),
    ("pick", "acceptance", "stopped,value,nodes node_id acceptance", "acceptance absent"),
    ("text", "acceptance_attempt", "acceptance,latest_attempt_id", ""),
    ("do", "", "cli attempt inspect continuation-run $acceptance_attempt", ""),
    ("success", "decided", "", ""),
    ("false", "decided,value,result_acceptance,accepted", "", "fixture did not reject its complete prior answer"),
    ("do", "", "requests continued", ""),
    ("ok", "continued_requests", "", ""),
    ("do", "", "requests fresh", ""),
    ("ok", "fresh_requests", "", ""),
    ("num", "continued_requests", "0", "rejected prior answer reached a dependent endpoint"),
    ("num", "fresh_requests", "0", "rejected prior answer reached a dependent endpoint"),
    ("do", "", "save refusal.json timeline", ""),
    ("ok", "saved", "", ""),
    ("do", "", "join first", ""),
    ("ok", "joined", "", ""),
    ("do", "", "daemon kill", ""),
    ("ok", "killed", "", ""),
    ("tell", "report,requests", "1", ""),
    ("mark", "report,rejected_prior_refused", "true", ""),
    ("tell", "report,restart_boundaries", "1", ""),
];

/// A request over the profile's limit is refused locally and stays refused across a restart. Known
/// before: the built `revision` with `id` and `path`.
pub const PREPARATION: [Line; 41] = [
    ("do", "", "daemon start", ""),
    ("ok", "started", "", ""),
    ("do", "", "cli --command-id refusal-import blueprint import $revision,path", ""),
    ("success", "imported", "", ""),
    ("do", "", "cli --command-id refusal-start run start run-local-refusal local-refusal $revision,id", ""),
    ("success", "started", "", ""),
    ("wait", "state", "cli run show run-local-refusal", ""),
    ("until", "", "is state,value,lifecycle terminal", ""),
    ("until", "", "any state,value,nodes is node_id model", ""),
    ("pick", "model", "state,value,nodes node_id model", "refused model absent"),
    ("text", "attempt", "model,latest_attempt_id", ""),
    ("do", "", "cli attempt inspect run-local-refusal $attempt", ""),
    ("success", "before", "", ""),
    ("num", "model,attempt_count", "1", "local preparation refusal was retried, submitted, or classified as uncertain"),
    ("num", "state,value,uncertainty_count", "0", "local preparation refusal was retried, submitted, or classified as uncertain"),
    ("is", "before,value,terminal", "rejected", "local preparation refusal was retried, submitted, or classified as uncertain"),
    ("false", "before,value,uncertain", "", "local preparation refusal was retried, submitted, or classified as uncertain"),
    ("null", "before,value,entry_authorization", "", "local preparation refusal was retried, submitted, or classified as uncertain"),
    ("do", "", "accept", ""),
    ("ok", "connection", "", ""),
    ("is", "connection", "would_block", "local preparation refusal was retried, submitted, or classified as uncertain"),
    ("do", "", "save attempt-before.json before", ""),
    ("ok", "saved", "", ""),
    ("do", "", "daemon kill", ""),
    ("ok", "killed", "", ""),
    ("do", "", "daemon start", ""),
    ("ok", "started", "", ""),
    ("do", "", "cli attempt inspect run-local-refusal $attempt", ""),
    ("success", "after", "", ""),
    ("same", "before,value", "after,value", "restart changed the refused attempt or submitted its request"),
    ("do", "", "accept", ""),
    ("ok", "connection", "", ""),
    ("is", "connection", "would_block", "restart changed the refused attempt or submitted its request"),
    ("do", "", "daemon kill", ""),
    ("ok", "killed", "", ""),
    ("put", "report,attempt_id", "attempt", ""),
    ("say", "report,terminal", "rejected", ""),
    ("tell", "report,provider_requests", "0", ""),
    ("mark", "report,entry_intent", "false", ""),
    ("tell", "report,uncertainty_count", "0", ""),
    ("mark", "report,restart_preserved", "true", ""),
];

/// A model on this machine, its restart and its uncertainty.
pub fn run(known: Json) -> (r: Scenario)
    requires
        known@ is Object,
    ensures
        r.valid(),
        r@ == opening(LOCAL_MODEL@, known@),
{
    Scenario::open(LOCAL_MODEL.as_slice(), known)
}

/// An empty review that is remedied.
pub fn acceptance(known: Json) -> (r: Scenario)
    requires
        known@ is Object,
    ensures
        r.valid(),
        r@ == opening(ACCEPTANCE@, known@),
{
    Scenario::open(ACCEPTANCE.as_slice(), known)
}

/// A request that is refused before it is sent.
pub fn preparation(known: Json) -> (r: Scenario)
    requires
        known@ is Object,
    ensures
        r.valid(),
        r@ == opening(PREPARATION@, known@),
{
    Scenario::open(PREPARATION.as_slice(), known)
}

/// The whole case of an accepted or of a rejected predecessor.
pub open spec fn case_script(rejected: bool) -> Seq<Line> {
    CONTINUATION_START@ + (if rejected {
        CONTINUATION_REJECTED@
    } else {
        CONTINUATION@
    })
}

/// A continued answer, and one whose prior answer was rejected.
pub fn run_case(rejected: bool, known: Json) -> (r: Scenario)
    requires
        known@ is Object,
    ensures
        r.valid(),
        r@ == opening(case_script(rejected), known@),
{
    if rejected {
        Scenario::ending(CONTINUATION_START.as_slice(), CONTINUATION_REJECTED.as_slice(), known)
    } else {
        Scenario::ending(CONTINUATION_START.as_slice(), CONTINUATION.as_slice(), known)
    }
}

} // verus!
