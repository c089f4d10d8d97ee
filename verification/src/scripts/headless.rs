//! The storage-free client against the actual daemon.

use vstd::prelude::*;

use crate::json::Json;
use crate::scenario::{opening, Line, Scenario};

verus! {

/// Blueprints, a run with a pause, a proposal, a signal and an artifact, restart, retained
/// uncertainty, a failed run and an unavailable daemon. Known before: the file `paths`, the built
/// `primary`, `changed`, `uncertain` and `failed` blueprints with their `id` and `text`.
pub const HEADLESS: [Line; 164] = [
    ("do", "", "cli daemon readiness", ""),
    ("success", "ready", "", ""),
    ("do", "", "cli daemon authority", ""),
    ("success", "authority", "", ""),
    ("do", "", "cli-as $paths,wrong_token daemon authority", ""),
    ("typed", "3", "authorization unauthenticated", ""),
    ("do", "", "cli blueprint list --limit 10", ""),
    ("success", "initial", "", ""),
    ("do", "", "write $paths,invalid {}", ""),
    ("ok", "written", "", ""),
    ("do", "", "cli --command-id blueprint-invalid-1 blueprint validate $paths,invalid", ""),
    ("typed", "7", "daemon_api invalid_input", ""),
    ("do", "", "write $paths,duplicate {\"schema_version\":2,\"schema_version\":2}", ""),
    ("ok", "written", "", ""),
    ("do", "", "cli blueprint validate $paths,duplicate", ""),
    ("typed", "2", "invalid_input", ""),
    ("do", "", "cli blueprint list --limit 10", ""),
    ("success", "after_invalid", "", ""),
    ("same", "initial,value,items", "after_invalid,value,items", "invalid blueprint validation changed revision storage"),
    ("do", "", "write $paths,primary $primary,text", ""),
    ("ok", "written", "", ""),
    ("do", "", "cli-input $primary,text --command-id blueprint-validate-1 blueprint validate -", ""),
    ("success", "validated", "", ""),
    ("is", "validated,value,result_type", "blueprint_valid", "valid blueprint did not validate through the daemon"),
    ("do", "", "cli blueprint show $primary,id", ""),
    ("typed", "6", "not_found not_found", ""),
    ("do", "", "cli --command-id blueprint-import-1 blueprint import $paths,primary", ""),
    ("success", "imported", "", ""),
    ("text", "revision", "imported,value,value,revision_id", ""),
    ("same", "revision", "primary,id", "import returned another revision"),
    ("do", "", "cli --command-id blueprint-import-1 blueprint import $paths,primary", ""),
    ("success", "replay", "", ""),
    ("true", "replay,value,replayed", "", "exact import command did not replay"),
    ("do", "", "write $paths,changed $changed,text", ""),
    ("ok", "written", "", ""),
    ("do", "", "cli --command-id blueprint-import-1 blueprint import $paths,changed", ""),
    ("typed", "4", "conflict conflict", ""),
    ("do", "", "cli blueprint show $revision --document", ""),
    ("num", "reply,exit", "0", "canonical blueprint stdout failed"),
    ("same", "reply,stdout", "primary,text", "canonical stdout bytes changed"),
    ("do", "", "cli blueprint show $revision --output $paths,exported", ""),
    ("success", "exported", "", ""),
    ("do", "", "read $paths,exported", ""),
    ("ok", "exported", "", ""),
    ("same", "exported", "primary,text", "canonical file bytes changed"),
    ("do", "", "cli blueprint show $revision --output $paths,exported", ""),
    ("typed", "2", "invalid_input", ""),
    ("do", "", "cli --command-id run-primary-start-1 run start run-headless-primary headless-cli-primary $revision", ""),
    ("success", "started", "", ""),
    ("do", "", "cli --command-id run-primary-start-1 run start run-headless-primary headless-cli-primary $revision", ""),
    ("success", "start_replay", "", ""),
    ("same", "started,value,command_id", "start_replay,value,command_id", "exact run-start command did not replay"),
    ("true", "start_replay,value,replayed", "", "exact run-start command did not replay"),
    ("do", "", "cli --command-id run-primary-start-1 run start run-headless-other headless-cli-primary $revision", ""),
    ("typed", "4", "conflict conflict", ""),
    ("wait", "waiting", "cli run show run-headless-primary", ""),
    ("until", "", "any waiting,value,nodes is node_id approval", ""),
    ("number", "pause_sequence", "waiting,value,sequence", ""),
    ("do", "", "cli --command-id run-primary-pause-1 --expected-sequence $pause_sequence run pause run-headless-primary", ""),
    ("success", "pausing", "", ""),
    ("do", "", "cli run show run-headless-primary", ""),
    ("success", "paused", "", ""),
    ("is", "paused,value,lifecycle", "paused", "run did not pause"),
    ("number", "paused_sequence", "paused,value,sequence", ""),
    ("pick", "process_node", "paused,value,nodes node_id process", "process node is absent"),
    ("text", "execution", "process_node,execution_id", ""),
    ("text", "attempt", "process_node,latest_attempt_id", ""),
    ("do", "", "cli node run-headless-primary $execution", ""),
    ("success", "node_read", "", ""),
    ("do", "", "cli attempt inspect run-headless-primary $attempt", ""),
    ("success", "attempt_read", "", ""),
    ("do", "", "cli run timeline run-headless-primary --limit 100", ""),
    ("success", "timeline", "", ""),
    ("do", "", "build proposal $paused_sequence", ""),
    ("ok", "proposal", "", ""),
    ("do", "", "write $paths,proposal $proposal,text", ""),
    ("ok", "written", "", ""),
    ("do", "", "cli --command-id proposal-submit-1 --expected-sequence $paused_sequence --expected-revision $primary,id proposal submit $paths,proposal", ""),
    ("success", "submitted", "", ""),
    ("text", "proposed_revision", "submitted,value,value,proposed_revision", ""),
    ("do", "", "cli proposal show run-headless-primary proposal-headless-cli-1 $proposed_revision", ""),
    ("success", "shown", "", ""),
    ("do", "", "cli run show run-headless-primary", ""),
    ("success", "decision_state", "", ""),
    ("number", "decision_sequence", "decision_state,value,sequence", ""),
    ("do", "", "cli --yes --command-id proposal-approve-1 --expected-sequence $decision_sequence --expected-revision $proposed_revision proposal approve run-headless-primary proposal-headless-cli-1 $proposal,digest $proposed_revision proposal-decision-1", ""),
    ("success", "approved", "", ""),
    ("do", "", "cli run show run-headless-primary", ""),
    ("success", "apply_state", "", ""),
    ("number", "apply_sequence", "apply_state,value,sequence", ""),
    ("do", "", "cli --yes --command-id proposal-apply-1 --expected-sequence $apply_sequence --expected-revision $proposed_revision proposal apply run-headless-primary proposal-headless-cli-1 $proposal,digest $proposed_revision", ""),
    ("success", "applied", "", ""),
    ("do", "", "cli run show run-headless-primary", ""),
    ("success", "signal_state", "", ""),
    ("number", "signal_sequence", "signal_state,value,sequence", ""),
    ("do", "", "cli --command-id run-primary-signal-1 --expected-sequence $signal_sequence run signal run-headless-primary --signal-id signal-primary-1 --signal-type evidence.continue --payload {\"approved\":true}", ""),
    ("success", "signalled", "", ""),
    ("do", "", "cli run show run-headless-primary", ""),
    ("success", "resume_state", "", ""),
    ("number", "resume_sequence", "resume_state,value,sequence", ""),
    ("do", "", "cli --command-id run-primary-resume-1 --expected-sequence $resume_sequence run resume run-headless-primary", ""),
    ("success", "resumed", "", ""),
    ("wait", "completed", "cli run show run-headless-primary", ""),
    ("until", "", "is completed,value,terminal succeeded", ""),
    ("pick", "output", "attempt_read,value,outputs name stdout", "attempt did not expose its stdout artifact"),
    ("some", "output,artifact", "", "attempt did not expose its stdout artifact"),
    ("text", "artifact_id", "output,artifact,artifact_id", ""),
    ("text", "artifact_digest", "output,artifact,digest", ""),
    ("number", "artifact_size", "output,artifact,size", ""),
    ("do", "", "cli artifact metadata $artifact_id", ""),
    ("success", "metadata", "", ""),
    ("same", "metadata,value,digest", "artifact_digest", "artifact metadata changed"),
    ("same", "metadata,value,size", "artifact_size", "artifact metadata changed"),
    ("do", "", "cli artifact get $artifact_id --output $paths,artifact", ""),
    ("success", "downloaded", "", ""),
    ("do", "", "digest $paths,artifact", ""),
    ("ok", "downloaded", "", ""),
    ("same", "downloaded,size", "artifact_size", "artifact download did not preserve size and digest"),
    ("same", "downloaded,digest", "artifact_digest", "artifact download did not preserve size and digest"),
    ("do", "", "daemon restart", ""),
    ("ok", "restarted", "", ""),
    ("do", "", "cli blueprint show $revision", ""),
    ("success", "reopened", "", ""),
    ("do", "", "cli run show run-headless-primary", ""),
    ("success", "reopened", "", ""),
    ("do", "", "cli artifact metadata $artifact_id", ""),
    ("success", "reopened", "", ""),
    ("do", "", "write $paths,uncertain $uncertain,text", ""),
    ("ok", "written", "", ""),
    ("do", "", "cli --command-id uncertain-import-1 blueprint import $paths,uncertain", ""),
    ("success", "imported", "", ""),
    ("do", "", "cli --command-id uncertain-start-1 run start run-headless-uncertain headless-cli-uncertain $uncertain,id", ""),
    ("success", "started", "", ""),
    ("wait", "entered", "cli run show run-headless-uncertain", ""),
    ("until", "", "any entered,value,nodes is node_id process plus string latest_attempt,invocation_id", ""),
    ("pick", "entered_node", "entered,value,nodes node_id process", "uncertain run omitted its attempt identity"),
    ("need", "uncertain_attempt", "entered_node,latest_attempt_id", "uncertain run omitted its attempt identity"),
    ("do", "", "daemon stop", ""),
    ("ok", "stopped", "", ""),
    ("do", "", "pause 200", ""),
    ("ok", "paused", "", ""),
    ("do", "", "daemon start", ""),
    ("ok", "started", "", ""),
    ("wait", "uncertain_run", "cli run show run-headless-uncertain", ""),
    ("until", "", "positive uncertain_run,value,uncertainty_count", ""),
    ("number", "resolution_sequence", "uncertain_run,value,sequence", ""),
    ("do", "", "cli --command-id uncertain-retain-1 --expected-sequence $resolution_sequence --evidence recovery_observation=evidence-retain-1 attempt resolve run-headless-uncertain $uncertain_attempt uncertain-decision-1 --action retain", ""),
    ("success", "resolved", "", ""),
    ("do", "", "cli attempt inspect run-headless-uncertain $uncertain_attempt", ""),
    ("success", "retained", "", ""),
    ("true", "retained,value,uncertain", "", "retained work was hidden"),
    ("do", "", "write $paths,failed $failed,text", ""),
    ("ok", "written", "", ""),
    ("do", "", "cli --command-id failed-import-1 blueprint import $paths,failed", ""),
    ("success", "imported", "", ""),
    ("do", "", "cli --command-id failed-start-1 run start run-headless-failed headless-cli-failed $failed,id", ""),
    ("success", "started", "", ""),
    ("poll", "shown", "cli run show run-headless-failed", "failed run did not reach the stable failed-terminal exit"),
    ("until", "", "num reply,exit 8", ""),
    ("typed", "8", "failed_terminal", ""),
    ("do", "", "daemon stop", ""),
    ("ok", "stopped", "", ""),
    ("do", "", "cli daemon health", ""),
    ("typed", "5", "unavailable", ""),
];

/// The maintained starter example under its own safe authority. Known before: the starter
/// `document` path.
pub const STARTER: [Line; 14] = [
    ("do", "", "cli blueprint validate $document", ""),
    ("success", "validated", "", ""),
    ("do", "", "cli --command-id starter-import blueprint import $document", ""),
    ("success", "imported", "", ""),
    ("text", "revision", "imported,value,value,revision_id", ""),
    ("do", "", "cli --command-id starter-start run start starter operator-starter $revision", ""),
    ("success", "started", "", ""),
    ("do", "", "cli --timeout-secs 5 run wait starter --terminal succeeded", ""),
    ("success", "waited", "", ""),
    ("do", "", "cli run show starter", ""),
    ("success", "shown", "", ""),
    ("is", "shown,value,controller_accounting,state", "inactive", "ordinary workflow acquired controller accounting"),
    ("do", "", "daemon stop", ""),
    ("ok", "stopped", "", ""),
];

/// The maintained model example: registration identity, one attempt, its provenance, usage, three
/// outputs and an ordered timeline. Known before: the example `blueprint` path and the three
/// `outputs` paths.
pub const MODEL_EXAMPLE: [Line; 67] = [
    ("do", "", "cli --command-id operator-model-validate blueprint validate $blueprint", ""),
    ("success", "validated", "", ""),
    ("do", "", "cli --command-id operator-model-import blueprint import $blueprint", ""),
    ("success", "imported", "", ""),
    ("text", "revision", "imported,value,value,revision_id", ""),
    ("do", "", "cli capability show operator-model", ""),
    ("success", "capability", "", ""),
    ("num", "capability,value,#0,generation", "1", "model registration identity changed"),
    ("is", "capability,value,#0,provider_profile", "local-model-loopback", "model registration identity changed"),
    ("do", "", "cli provider show local-model-loopback", ""),
    ("success", "provider", "", ""),
    ("do", "", "cli --command-id operator-model-start run start run-operator-model operator-starter $revision", ""),
    ("success", "started", "", ""),
    ("do", "", "cli --command-id operator-model-start run start run-operator-model operator-starter $revision", ""),
    ("success", "replay", "", ""),
    ("true", "replay,value,replayed", "", "model start was not replayed"),
    ("do", "", "cli --timeout-secs 5 run wait run-operator-model --terminal succeeded", ""),
    ("success", "run", "", ""),
    ("pick", "node", "run,value,nodes node_id model", "model node absent"),
    ("text", "execution", "node,execution_id", ""),
    ("text", "attempt", "node,latest_attempt_id", ""),
    ("do", "", "cli node run-operator-model $execution", ""),
    ("success", "node_read", "", ""),
    ("do", "", "cli attempt inspect run-operator-model $attempt", ""),
    ("success", "inspected", "", ""),
    ("num", "inspected,value,descriptor_revision", "1", "model attempt generation or outcome changed"),
    ("is", "inspected,value,provider_profile", "local-model-loopback", "model attempt generation or outcome changed"),
    ("false", "inspected,value,uncertain", "", "model attempt generation or outcome changed"),
    ("is", "inspected,value,context_access", "authorized", "model context provenance absent"),
    ("object", "inspected,value,context_manifest", "", "model context provenance absent"),
    ("positive", "inspected,value,progress_observations", "", "model observations unbounded or absent"),
    ("below", "inspected,value,progress_observations", "10", "model observations unbounded or absent"),
    ("num", "inspected,value,usage,input_units", "5", "supplied usage was lost"),
    ("num", "inspected,value,usage,output_units", "1", "supplied usage was lost"),
    ("list", "inspected,value,outputs", "", "model outputs absent"),
    ("len", "inspected,value,outputs", "3", "model outputs incomplete"),
    ("text", "artifact", "inspected,value,outputs,#0,artifact,artifact_id", ""),
    ("do", "", "cli artifact metadata $artifact", ""),
    ("success", "metadata", "", ""),
    ("do", "", "cli artifact get $artifact --output $outputs,#0", ""),
    ("success", "fetched", "", ""),
    ("text", "artifact", "inspected,value,outputs,#1,artifact,artifact_id", ""),
    ("do", "", "cli artifact metadata $artifact", ""),
    ("success", "metadata", "", ""),
    ("do", "", "cli artifact get $artifact --output $outputs,#1", ""),
    ("success", "fetched", "", ""),
    ("text", "artifact", "inspected,value,outputs,#2,artifact,artifact_id", ""),
    ("do", "", "cli artifact metadata $artifact", ""),
    ("success", "metadata", "", ""),
    ("do", "", "cli artifact get $artifact --output $outputs,#2", ""),
    ("success", "fetched", "", ""),
    ("do", "", "read-json $outputs,#0", ""),
    ("ok", "document", "", ""),
    ("either", "", "isnot inspected,value,outputs,#0,name provider_metadata or is document,org.milkdrift.openai/response,id operator-response-1", "supplied model identity was not retained"),
    ("either", "", "isnot inspected,value,outputs,#0,name provider_metadata or is document,org.milkdrift.openai/response,model operator-model", "supplied model identity was not retained"),
    ("do", "", "read-json $outputs,#1", ""),
    ("ok", "document", "", ""),
    ("either", "", "isnot inspected,value,outputs,#1,name provider_metadata or is document,org.milkdrift.openai/response,id operator-response-1", "supplied model identity was not retained"),
    ("either", "", "isnot inspected,value,outputs,#1,name provider_metadata or is document,org.milkdrift.openai/response,model operator-model", "supplied model identity was not retained"),
    ("do", "", "read-json $outputs,#2", ""),
    ("ok", "document", "", ""),
    ("either", "", "isnot inspected,value,outputs,#2,name provider_metadata or is document,org.milkdrift.openai/response,id operator-response-1", "supplied model identity was not retained"),
    ("either", "", "isnot inspected,value,outputs,#2,name provider_metadata or is document,org.milkdrift.openai/response,model operator-model", "supplied model identity was not retained"),
    ("do", "", "cli run timeline run-operator-model --limit 100", ""),
    ("success", "timeline", "", ""),
    ("list", "timeline,value,items", "", "timeline absent"),
    ("ascending", "timeline,value,items", "sequence", "model timeline is out of order"),
];

/// The installed client against its daemon.
pub fn run(known: Json) -> (r: Scenario)
    requires
        known@ is Object,
    ensures
        r.valid(),
        r@ == opening(HEADLESS@, known@),
{
    Scenario::open(HEADLESS.as_slice(), known)
}

/// The maintained starter example.
pub fn exercise_starter(known: Json) -> (r: Scenario)
    requires
        known@ is Object,
    ensures
        r.valid(),
        r@ == opening(STARTER@, known@),
{
    Scenario::open(STARTER.as_slice(), known)
}

/// The maintained model example.
pub fn exercise_model(known: Json) -> (r: Scenario)
    requires
        known@ is Object,
    ensures
        r.valid(),
        r@ == opening(MODEL_EXAMPLE@, known@),
{
    Scenario::open(MODEL_EXAMPLE.as_slice(), known)
}

} // verus!
