//! Isolated controller installation, remediation, accounting and restart.

use vstd::prelude::*;

use crate::json::Json;
use crate::scenario::{opening, Line, Scenario};

verus! {

/// The installed controller loop. It is refused while disabled and in unqualified production,
/// shares one account between work and verification, repairs only after an approved proposal,
/// stops at its cumulative ceiling, and keeps account, evidence and receipts across restarts.
/// Known before: the file `paths` and the built `body`, `base` and `root` revisions with `id`,
/// `workflow` and `path`.
pub const CONTROLLER: [Line; 281] = [
    ("do", "", "daemon start", ""),
    ("ok", "started", "", ""),
    ("do", "", "cli blueprint import $body,path", ""),
    ("success", "imported", "", ""),
    ("do", "", "run prelude disabled", ""),
    ("ok", "prelude", "", ""),
    ("do", "", "cli blueprint import $base,path", ""),
    ("success", "imported", "", ""),
    ("do", "", "cli blueprint import $root,path", ""),
    ("success", "imported", "", ""),
    ("do", "", "cli --command-id controller-start run start run-controller-disabled $root,workflow $root,id", ""),
    ("do", "", "save disabled-start.txt reply,stdout", ""),
    ("ok", "saved", "", ""),
    ("do", "", "cli run show run-controller-disabled", ""),
    ("success", "disabled", "", ""),
    ("is", "disabled,value,controller_accounting,state", "inactive", "disabled controller acquired an account"),
    ("do", "", "cli run list --limit 100", ""),
    ("success", "runs", "", ""),
    ("make", "children", "children runs =controller-evidence-body", ""),
    ("empty", "children", "", "disabled controller created a child"),
    ("do", "", "daemon kill", ""),
    ("ok", "killed", "", ""),
    ("do", "", "configure activation enabled", ""),
    ("ok", "configured", "", ""),
    ("do", "", "daemon check-config", ""),
    ("refused", "", "", "unqualified production activation was accepted"),
    ("contains", "reply,stderr", "real external controller loop", "unqualified production activation was accepted"),
    ("do", "", "save production-activation-refusal.txt reply,stderr", ""),
    ("ok", "saved", "", ""),
    ("do", "", "configure activation qualification", ""),
    ("ok", "configured", "", ""),
    ("do", "", "daemon start", ""),
    ("ok", "started", "", ""),
    ("do", "", "run prelude qualification", ""),
    ("ok", "prelude", "", ""),
    ("do", "", "cli --command-id controller-start-qualified run start run-controller-qualification $root,workflow $root,id", ""),
    ("success", "started", "", ""),
    ("poll", "runs", "list-runs", "controller child was not created"),
    ("until", "", "yields children runs =controller-evidence-body", ""),
    ("make", "created", "children runs =controller-evidence-body", ""),
    ("text", "child", "created,#0", ""),
    ("wait", "rejected", "cli run show $child", ""),
    ("until", "", "any rejected,value,nodes is node_id repair-release", ""),
    ("keep", "original_account", "rejected,value,controller_accounting", ""),
    ("is", "original_account,state", "active", "independent work and verification did not share the canonical account"),
    ("num", "original_account,committed,process_admissions", "2", "independent work and verification did not share the canonical account"),
    ("pick", "node", "rejected,value,nodes node_id first-acceptance", "expected node absent"),
    ("text", "attempt", "node,latest_attempt_id", ""),
    ("do", "", "cli attempt inspect $child $attempt", ""),
    ("success", "rejection", "", ""),
    ("false", "rejection,value,result_acceptance,accepted", "", "failed verification was accepted"),
    ("do", "", "save rejected.json rejection", ""),
    ("ok", "saved", "", ""),
    ("pick", "node", "rejected,value,nodes node_id verify", "expected node absent"),
    ("text", "attempt", "node,latest_attempt_id", ""),
    ("do", "", "cli attempt inspect $child $attempt", ""),
    ("success", "source", "", ""),
    ("text", "grant", "source,value,execution_authority,grant_id", ""),
    ("number", "grant_revision", "source,value,execution_authority,grant_revision", ""),
    ("number", "revocation", "source,value,execution_authority,revocation_generation", ""),
    ("number", "rejected_sequence", "rejected,value,sequence", ""),
    ("list", "source,value,outputs", "", "evidence outputs absent"),
    ("list", "rejection,value,outputs", "", "evidence outputs absent"),
    ("do", "", "build repair $child $rejected_sequence", ""),
    ("ok", "repair", "", ""),
    ("do", "", "cli run show run-controller-qualification", ""),
    ("success", "root_read", "", ""),
    ("number", "root_sequence", "root_read,value,sequence", ""),
    ("do", "", "build install-decision $root_sequence", ""),
    ("ok", "preparation", "", ""),
    ("do", "", "write $paths,preparation $preparation,text", ""),
    ("ok", "written", "", ""),
    ("do", "", "cli-as $paths,approver --command-id submit-install-decision --expected-sequence $root_sequence --expected-revision $root,id proposal submit $paths,preparation", ""),
    ("success", "submitted", "", ""),
    ("text", "prepared_revision", "submitted,value,value,proposed_revision", ""),
    ("do", "", "cli run show run-controller-qualification", ""),
    ("success", "decision_read", "", ""),
    ("number", "decision_sequence", "decision_read,value,sequence", ""),
    ("do", "", "cli-as $paths,approver --yes --command-id install-decision-approve --expected-sequence $decision_sequence --expected-revision $prepared_revision proposal approve run-controller-qualification install-decision $preparation,digest $prepared_revision decision-install-decision", ""),
    ("success", "approved", "", ""),
    ("do", "", "cli run show run-controller-qualification", ""),
    ("success", "decision_read", "", ""),
    ("number", "decision_sequence", "decision_read,value,sequence", ""),
    ("do", "", "cli-as $paths,approver --yes --command-id install-decision-apply --expected-sequence $decision_sequence --expected-revision $prepared_revision proposal apply run-controller-qualification install-decision $preparation,digest $prepared_revision", ""),
    ("success", "applied", "", ""),
    ("do", "", "cli run show run-controller-qualification", ""),
    ("success", "root_read", "", ""),
    ("number", "root_sequence", "root_read,value,sequence", ""),
    ("do", "", "cli-as $paths,approver --command-id release-proposer --expected-sequence $root_sequence run signal run-controller-qualification --signal-id release-proposer --signal-type controller.authorize-proposer --payload {}", ""),
    ("success", "signalled", "", ""),
    ("wait", "proposed", "cli run show run-controller-qualification", ""),
    ("until", "", "any proposed,value,nodes is node_id proposer-finished", ""),
    ("pick", "node", "proposed,value,nodes node_id proposer", "expected node absent"),
    ("text", "attempt", "node,latest_attempt_id", ""),
    ("do", "", "cli attempt inspect run-controller-qualification $attempt", ""),
    ("success", "proposer", "", ""),
    ("list", "proposer,value,outputs", "", "attempt outputs absent"),
    ("pick", "output", "proposer,value,outputs name control_result", "named output absent"),
    ("text", "artifact", "output,artifact,artifact_id", ""),
    ("do", "", "cli artifact get $artifact --output $paths,proposed_output", ""),
    ("success", "got", "", ""),
    ("do", "", "read-json $paths,proposed_output", ""),
    ("ok", "result", "", ""),
    ("text", "proposed_revision", "result,value,proposed_revision", ""),
    ("do", "", "write $paths,repair $repair,text", ""),
    ("ok", "written", "", ""),
    ("do", "", "cli run show $child", ""),
    ("success", "before_approval", "", ""),
    ("same", "before_approval,value,revision_id", "body,id", "proposal ran or replaced work before approval"),
    ("none", "before_approval,value,nodes", "is node_id repair", "proposal ran or replaced work before approval"),
    ("do", "", "daemon kill", ""),
    ("ok", "killed", "", ""),
    ("do", "", "configure activation disabled", ""),
    ("ok", "configured", "", ""),
    ("do", "", "daemon run-to-exit", ""),
    ("refused", "", "", "disabled daemon recovered active accounted work"),
    ("do", "", "save disabled-recovery-refusal.txt reply,stderr", ""),
    ("ok", "saved", "", ""),
    ("do", "", "configure activation qualification", ""),
    ("ok", "configured", "", ""),
    ("do", "", "daemon start", ""),
    ("ok", "started", "", ""),
    ("do", "", "cli run show $child", ""),
    ("success", "reopened", "", ""),
    ("same", "reopened,value,controller_accounting", "before_approval,value,controller_accounting", "settled restart changed the cumulative account"),
    ("do", "", "daemon kill", ""),
    ("ok", "killed", "", ""),
    ("do", "", "configure approver disabled", ""),
    ("ok", "configured", "", ""),
    ("do", "", "daemon start", ""),
    ("ok", "started", "", ""),
    ("number", "reopened_sequence", "reopened,value,sequence", ""),
    ("do", "", "cli-as $paths,approver --yes --command-id revoked-approval --expected-sequence $reopened_sequence --expected-revision $proposed_revision proposal approve $child repair $repair,digest $proposed_revision revoked-decision", ""),
    ("refused", "", "", "revoked approver released remediation"),
    ("do", "", "save revoked-approval.json reply,stdout", ""),
    ("ok", "saved", "", ""),
    ("do", "", "cli run show $child", ""),
    ("success", "revoked_read", "", ""),
    ("none", "revoked_read,value,nodes", "is node_id repair", "revoked approval entered repair"),
    ("do", "", "daemon kill", ""),
    ("ok", "killed", "", ""),
    ("do", "", "configure approver enabled", ""),
    ("ok", "configured", "", ""),
    ("do", "", "daemon start", ""),
    ("ok", "started", "", ""),
    ("do", "", "cli run show $child", ""),
    ("success", "decision_read", "", ""),
    ("number", "decision_sequence", "decision_read,value,sequence", ""),
    ("do", "", "cli-as $paths,approver --yes --command-id repair-approve --expected-sequence $decision_sequence --expected-revision $proposed_revision proposal approve $child repair $repair,digest $proposed_revision decision-repair", ""),
    ("success", "approved", "", ""),
    ("do", "", "cli run show $child", ""),
    ("success", "decision_read", "", ""),
    ("number", "decision_sequence", "decision_read,value,sequence", ""),
    ("do", "", "cli-as $paths,approver --yes --command-id repair-apply --expected-sequence $decision_sequence --expected-revision $proposed_revision proposal apply $child repair $repair,digest $proposed_revision", ""),
    ("success", "applied", "", ""),
    ("do", "", "cli run show $child", ""),
    ("success", "release_read", "", ""),
    ("number", "release_sequence", "release_read,value,sequence", ""),
    ("do", "", "cli-as $paths,approver --command-id release-repair --expected-sequence $release_sequence run signal $child --signal-id release-repair --signal-type controller.repair-release --payload {}", ""),
    ("success", "released", "", ""),
    ("do", "", "cli-as $paths,approver --command-id release-repair --expected-sequence $release_sequence run signal $child --signal-id release-repair --signal-type controller.repair-release --payload {}", ""),
    ("success", "replayed", "", ""),
    ("true", "replayed,value,replayed", "", "lost signal reply did not recover by exact replay"),
    ("same", "released,value,command_id", "replayed,value,command_id", "lost signal reply did not recover by exact replay"),
    ("wait", "child_done", "cli run show $child", ""),
    ("until", "", "is child_done,value,terminal succeeded", ""),
    ("pick", "node", "child_done,value,nodes node_id second-acceptance", "expected node absent"),
    ("text", "attempt", "node,latest_attempt_id", ""),
    ("do", "", "cli attempt inspect $child $attempt", ""),
    ("success", "accepted", "", ""),
    ("true", "accepted,value,result_acceptance,accepted", "", "remediation did not pass independent acceptance"),
    ("wait", "stopped", "cli run show run-controller-qualification", ""),
    ("until", "", "where stopped,value,nodes node_id controller-repeat is state terminal(_failed)", ""),
    ("pick", "node", "stopped,value,nodes node_id controller-repeat", "controller occurrence absent"),
    ("text", "execution", "node,execution_id", ""),
    ("do", "", "cli controller status run-controller-qualification $execution", ""),
    ("success", "status", "", ""),
    ("is", "status,value,value,reached_bound", "process_invocations", "second cycle did not stop at cumulative process ceiling"),
    ("do", "", "cli run list --limit 100", ""),
    ("success", "runs", "", ""),
    ("make", "children", "children runs =controller-evidence-body", ""),
    ("len", "children", "1", "bound admitted an extra child cycle"),
    ("keep", "accounting", "stopped,value,controller_accounting", ""),
    ("num", "accounting,committed,process_admissions", "4", "settled cumulative account is wrong"),
    ("num", "accounting,remaining,process_admissions", "0", "settled cumulative account is wrong"),
    ("keys", "accounting,account,reservations", "0", "settled cumulative account is wrong"),
    ("do", "", "save accepted.json accepted", ""),
    ("ok", "saved", "", ""),
    ("do", "", "save controller-status.json status", ""),
    ("ok", "saved", "", ""),
    ("do", "", "cli run show run-controller-qualification", ""),
    ("success", "root_read", "", ""),
    ("number", "root_sequence", "root_read,value,sequence", ""),
    ("do", "", "cli-as $paths,approver --command-id finish-decision --expected-sequence $root_sequence run signal run-controller-qualification --signal-id finish-decision --signal-type controller.proposer-finished --payload {}", ""),
    ("success", "signalled", "", ""),
    ("wait", "finished", "cli run show run-controller-qualification", ""),
    ("until", "", "is finished,value,terminal failed", ""),
    ("do", "", "daemon kill", ""),
    ("ok", "killed", "", ""),
    ("do", "", "daemon start", ""),
    ("ok", "started", "", ""),
    ("do", "", "cli run show run-controller-qualification", ""),
    ("success", "final_read", "", ""),
    ("same", "final_read,value,controller_accounting", "accounting", "terminal reopen reset or charged the account"),
    ("do", "", "cli daemon health", ""),
    ("success", "health", "", ""),
    ("positive", "health,value,application_receipts,cold_count", "", "receipt archival did not occur"),
    ("do", "", "cli-as $paths,approver --command-id release-repair --expected-sequence $release_sequence run signal $child --signal-id release-repair --signal-type controller.repair-release --payload {}", ""),
    ("success", "cold_replay", "", ""),
    ("true", "cold_replay,value,replayed", "", "archived command lost exact replay"),
    ("text", "attempt", "proposer,value,attempt_id", ""),
    ("do", "", "cli attempt inspect run-controller-qualification $attempt", ""),
    ("success", "retained_proposer", "", ""),
    ("same", "retained_proposer,value,outputs", "proposer,value,outputs", "compaction lost the exact proposal result artifact"),
    ("list", "retained_proposer,value,outputs", "", "attempt outputs absent"),
    ("pick", "output", "retained_proposer,value,outputs name control_result", "named output absent"),
    ("text", "artifact", "output,artifact,artifact_id", ""),
    ("do", "", "cli artifact get $artifact --output $paths,compacted_output", ""),
    ("success", "got", "", ""),
    ("do", "", "read-json $paths,compacted_output", ""),
    ("ok", "compacted", "", ""),
    ("same", "compacted", "result", "compacted proposal bytes changed"),
    ("text", "attempt", "rejection,value,attempt_id", ""),
    ("do", "", "cli attempt inspect $child $attempt", ""),
    ("success", "retained_rejection", "", ""),
    ("same", "retained_rejection,value,outputs", "rejection,value,outputs", "compaction changed failed acceptance evidence"),
    ("same", "retained_rejection,value,result_acceptance", "rejection,value,result_acceptance", "compaction changed failed acceptance evidence"),
    ("do", "", "cli run show run-controller-qualification", ""),
    ("success", "replay_read", "", ""),
    ("same", "replay_read,value,controller_accounting", "accounting", "cold replay changed the cumulative account"),
    ("say", "report,production_activation", "blocked", ""),
    ("say", "report,reason", "bounded real external controller loop remains unqualified", ""),
    ("say", "report,installed_qualification_loop", "passed", ""),
    ("put", "report,initial_account", "original_account", ""),
    ("put", "report,final_account", "accounting", ""),
    ("put", "report,accepted", "accepted", ""),
    ("put", "report,status", "status", ""),
    ("put", "report,receipt_health", "health", ""),
    ("say", "report,external_model_settings", "unknown", ""),
    ("do", "", "run model-refusals", ""),
    ("ok", "refusals", "", ""),
    ("do", "", "run race", ""),
    ("ok", "race", "", ""),
    ("do", "", "daemon kill", ""),
    ("ok", "killed", "", ""),
    ("do", "", "configure lease 30000", ""),
    ("ok", "configured", "", ""),
    ("do", "", "daemon start", ""),
    ("ok", "started", "", ""),
    ("do", "", "run entered-process", ""),
    ("ok", "crash", "", ""),
    ("do", "", "daemon kill", ""),
    ("ok", "killed", "", ""),
    ("do", "", "pause 31000", ""),
    ("ok", "paused", "", ""),
    ("do", "", "daemon start", ""),
    ("ok", "started", "", ""),
    ("text", "crashed_run", "crash,value,run_id", ""),
    ("do", "", "cli run show $crashed_run", ""),
    ("success", "recovered", "", ""),
    ("put", "observation,entered", "crash", ""),
    ("put", "observation,recovered", "recovered", ""),
    ("do", "", "save crash-observation.json observation", ""),
    ("ok", "saved", "", ""),
    ("num", "recovered,value,uncertainty_count", "1", "recovery released or duplicated the entered process reservation"),
    ("same", "recovered,value,controller_accounting", "crash,value,controller_accounting", "recovery released or duplicated the entered process reservation"),
    ("do", "", "daemon kill", ""),
    ("ok", "killed", "", ""),
    ("do", "", "daemon start", ""),
    ("ok", "started", "", ""),
    ("do", "", "cli run show $crashed_run", ""),
    ("success", "reopened", "", ""),
    ("same", "reopened,value,controller_accounting", "recovered,value,controller_accounting", "second reopen retried uncertain controlled work"),
    ("num", "reopened,value,uncertainty_count", "1", "second reopen retried uncertain controlled work"),
    ("put", "observation,reopened", "reopened", ""),
    ("do", "", "save entered-process-crash.json observation", ""),
    ("ok", "saved", "", ""),
    ("do", "", "save report.json report", ""),
    ("ok", "saved", "", ""),
    ("do", "", "daemon kill", ""),
    ("ok", "killed", "", ""),
];

/// A child before activation cannot escape cumulative accounting. Known before: the `run` to
/// start, the built `base` and `root` revisions and the `file` to write.
pub const PRELUDE: [Line; 19] = [
    ("do", "", "cli blueprint import $base,path", ""),
    ("success", "imported", "", ""),
    ("do", "", "cli blueprint import $root,path", ""),
    ("success", "imported", "", ""),
    ("do", "", "cli run list --limit 100", ""),
    ("success", "runs", "", ""),
    ("make", "before", "children runs =controller-evidence-body", ""),
    ("do", "", "cli run start $run $root,workflow $root,id", ""),
    ("refused", "", "", "unaccounted prelude start was accepted"),
    ("do", "", "cli run show $run", ""),
    ("success", "read", "", ""),
    ("is", "read,value,lifecycle", "created", "refused prelude created or entered an unaccounted child"),
    ("is", "read,value,controller_accounting,state", "inactive", "refused prelude created or entered an unaccounted child"),
    ("do", "", "cli run list --limit 100", ""),
    ("success", "runs", "", ""),
    ("make", "after", "children runs =controller-evidence-body", ""),
    ("same", "after", "before", "refused prelude created or entered an unaccounted child"),
    ("do", "", "save $file read", ""),
    ("ok", "saved", "", ""),
];

/// One model with unknown metering is refused before its transport is entered. Known before: the
/// `profile`, the run's `identity`, its built `body` and `root` revisions and the `file` to write.
pub const MODEL_REFUSAL: [Line; 32] = [
    ("do", "", "cli blueprint import $body,path", ""),
    ("success", "imported", "", ""),
    ("do", "", "cli blueprint import $root,path", ""),
    ("success", "imported", "", ""),
    ("do", "", "cli run start $identity $root,workflow $root,id", ""),
    ("success", "started", "", ""),
    ("poll", "runs", "list-runs", "controller child was not created"),
    ("until", "", "yields children runs body,workflow", ""),
    ("make", "created", "children runs body,workflow", ""),
    ("text", "child", "created,#0", ""),
    ("wait", "read", "cli run show $child", ""),
    ("until", "", "is read,value,terminal failed", ""),
    ("pick", "node", "read,value,nodes node_id model", "expected node absent"),
    ("text", "attempt", "node,latest_attempt_id", ""),
    ("do", "", "cli attempt inspect $child $attempt", ""),
    ("success", "inspected", "", ""),
    ("text", "detail", "inspected,value,terminal_detail", ""),
    ("contains", "detail", "Unknown", "model did not refuse unknown hard usage bounds"),
    ("contains", "detail", "input_units", "model did not refuse unknown hard usage bounds"),
    ("keep", "accounting", "read,value,controller_accounting", ""),
    ("num", "accounting,committed,model_admissions", "0", "refused model entered or reserved external usage"),
    ("keys", "accounting,account,reservations", "0", "refused model entered or reserved external usage"),
    ("false", "inspected,value,uncertain", "", "refused model entered or reserved external usage"),
    ("mark", "report,qualifying", "false", ""),
    ("say", "report,negative_evidence", "unknown hard input/output/cost bounds refuse before transport entry", ""),
    ("put", "report,profile", "profile", ""),
    ("tell", "report,requested_output_units", "64", ""),
    ("say", "report,effective_server_settings", "unknown", ""),
    ("put", "report,attempt", "inspected,value", ""),
    ("put", "report,accounting", "accounting", ""),
    ("do", "", "save $file report", ""),
    ("ok", "saved", "", ""),
];

/// Three racing workers are started under an allowance for two. Known before: both revisions and
/// their paths.
pub const RACE_START: [Line; 10] = [
    ("do", "", "cli blueprint import $body,path", ""),
    ("success", "imported", "", ""),
    ("do", "", "cli blueprint import $root,path", ""),
    ("success", "imported", "", ""),
    ("do", "", "cli run start run-controller-race $root,workflow $root,id", ""),
    ("success", "started", "", ""),
    ("poll", "runs", "list-runs", "controller child was not created"),
    ("until", "", "yields children runs =controller-race-body", ""),
    ("make", "created", "children runs =controller-race-body", ""),
    ("text", "child", "created,#0", ""),
];

/// Both admissions of a race become reserved. Known before: the `child`.
pub const RACE_RESERVED: [Line; 3] = [
    ("wait", "reserved", "cli run show $child", ""),
    ("until", "", "num reserved,value,controller_accounting,committed,process_admissions 2", ""),
    ("until", "", "keys reserved,value,controller_accounting,account,reservations 2", ""),
];

/// The daemon's health is kept, whether both admissions became reserved or not.
pub const RACE_HEALTH: [Line; 4] = [
    ("do", "", "cli daemon health", ""),
    ("success", "health", "", ""),
    ("do", "", "save race-health.json health", ""),
    ("ok", "saved", "", ""),
];

/// The workers that raced for the last allowance settle with two entries and one denial. Known
/// before: the `child` and its `reserved` run.
pub const RACE: [Line; 27] = [
    ("num", "reserved,value,controller_accounting,remaining,process_admissions", "0", "racing reservations did not consume the last allowance"),
    ("wait", "failed", "cli run show run-controller-race", ""),
    ("until", "", "is failed,value,terminal failed", ""),
    ("pick", "node", "reserved,value,nodes node_id one", "expected node absent"),
    ("text", "attempt", "node,latest_attempt_id", ""),
    ("do", "", "cli attempt inspect $child $attempt", ""),
    ("success", "one", "", ""),
    ("pick", "node", "reserved,value,nodes node_id two", "expected node absent"),
    ("text", "attempt", "node,latest_attempt_id", ""),
    ("do", "", "cli attempt inspect $child $attempt", ""),
    ("success", "two", "", ""),
    ("pick", "node", "reserved,value,nodes node_id three", "expected node absent"),
    ("text", "attempt", "node,latest_attempt_id", ""),
    ("do", "", "cli attempt inspect $child $attempt", ""),
    ("success", "three", "", ""),
    ("gather", "attempts", "one two three", ""),
    ("matching", "attempts", "2 nonempty value,outputs", "racing workers did not produce exactly two entries and one budget denial"),
    ("matching", "attempts", "1 contains value,terminal_detail process_admissions", "racing workers did not produce exactly two entries and one budget denial"),
    ("do", "", "cli run show $child", ""),
    ("success", "settled", "", ""),
    ("num", "settled,value,controller_accounting,committed,process_admissions", "2", "settlement reset or duplicated the racing allowance"),
    ("put", "report,reserved", "reserved", ""),
    ("put", "report,settled", "settled", ""),
    ("tell", "report,admitted", "2", ""),
    ("tell", "report,denied", "1", ""),
    ("do", "", "save concurrent-admission.json report", ""),
    ("ok", "saved", "", ""),
];

/// A process is entered while its artifact obligation is reserved. Known before: the built `body`
/// and `root` revisions.
pub const ENTERED_PROCESS: [Line; 13] = [
    ("do", "", "cli blueprint import $body,path", ""),
    ("success", "imported", "", ""),
    ("do", "", "cli blueprint import $root,path", ""),
    ("success", "imported", "", ""),
    ("do", "", "cli run start run-controller-crash $root,workflow $root,id", ""),
    ("success", "started", "", ""),
    ("poll", "runs", "list-runs", "controller child was not created"),
    ("until", "", "yields children runs =controller-crash-body", ""),
    ("make", "created", "children runs =controller-crash-body", ""),
    ("text", "child", "created,#0", ""),
    ("wait", "entered", "cli run show $child", ""),
    ("until", "", "num entered,value,controller_accounting,committed,process_admissions 1", ""),
    ("until", "", "where entered,value,nodes node_id work true latest_attempt,entry_authorization,allowed plus positive latest_attempt,progress_observations plus null latest_attempt,terminal", ""),
];

/// The installed controller loop.
pub fn run(known: Json) -> (r: Scenario)
    requires
        known@ is Object,
    ensures
        r.valid(),
        r@ == opening(CONTROLLER@, known@),
{
    Scenario::open(CONTROLLER.as_slice(), known)
}

/// A child before the loop.
pub fn prelude(known: Json) -> (r: Scenario)
    requires
        known@ is Object,
    ensures
        r.valid(),
        r@ == opening(PRELUDE@, known@),
{
    Scenario::open(PRELUDE.as_slice(), known)
}

/// A model with unknown metering.
pub fn exercise(known: Json) -> (r: Scenario)
    requires
        known@ is Object,
    ensures
        r.valid(),
        r@ == opening(MODEL_REFUSAL@, known@),
{
    Scenario::open(MODEL_REFUSAL.as_slice(), known)
}

/// Three workers are started.
pub fn race_start(known: Json) -> (r: Scenario)
    requires
        known@ is Object,
    ensures
        r.valid(),
        r@ == opening(RACE_START@, known@),
{
    Scenario::open(RACE_START.as_slice(), known)
}

/// Both admissions become reserved.
pub fn race_reserved(known: Json) -> (r: Scenario)
    requires
        known@ is Object,
    ensures
        r.valid(),
        r@ == opening(RACE_RESERVED@, known@),
{
    Scenario::open(RACE_RESERVED.as_slice(), known)
}

/// The daemon's health is kept.
pub fn race_health(known: Json) -> (r: Scenario)
    requires
        known@ is Object,
    ensures
        r.valid(),
        r@ == opening(RACE_HEALTH@, known@),
{
    Scenario::open(RACE_HEALTH.as_slice(), known)
}

/// Concurrent descendants of one account.
pub fn race(known: Json) -> (r: Scenario)
    requires
        known@ is Object,
    ensures
        r.valid(),
        r@ == opening(RACE@, known@),
{
    Scenario::open(RACE.as_slice(), known)
}

/// A process that is entered under a reservation.
pub fn entered_process(known: Json) -> (r: Scenario)
    requires
        known@ is Object,
    ensures
        r.valid(),
        r@ == opening(ENTERED_PROCESS@, known@),
{
    Scenario::open(ENTERED_PROCESS.as_slice(), known)
}

} // verus!
