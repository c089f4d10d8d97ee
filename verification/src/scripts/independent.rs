//! Independent calls through public upload, discovery, saved requests and observations, on one host and on two.

use vstd::prelude::*;

use crate::json::Json;
use crate::scenario::{opening, Line, Scenario};

verus! {

/// A process and a fresh model are called directly on an execution-only host: each enters once,
/// replays exactly across a restart and creates no workflow records. Known before: the file
/// `paths`, and `process_text` and `process_text_twice`.
pub const INDEPENDENT: [Line; 142] = [
    ("do", "", "daemon start", ""),
    ("ok", "started", "", ""),
    ("do", "", "cli daemon health", ""),
    ("success", "health", "", ""),
    ("is", "health,value,role", "execution_only", "binary reported another role"),
    ("do", "", "write-file $paths,process_input process", ""),
    ("ok", "written", "", ""),
    ("do", "", "cli invocation catalog", ""),
    ("success", "catalog", "", ""),
    ("do", "", "decode discovery catalog,value", ""),
    ("ok", "discovery", "", ""),
    ("do", "", "cli artifact upload $paths,process_input --host $discovery,host --upload-id process-input --media-type text/plain", ""),
    ("success", "uploaded", "", ""),
    ("do", "", "decode artifact uploaded,value", ""),
    ("ok", "process_input", "", ""),
    ("do", "", "cli invocation catalog", ""),
    ("success", "catalog", "", ""),
    ("do", "", "decode discovery catalog,value", ""),
    ("ok", "discovery", "", ""),
    ("do", "", "write-inputs $paths,process_direct_inputs source process_input", ""),
    ("ok", "written", "", ""),
    ("do", "", "cli invocation prepare independent-process process.execute --host $discovery,host --request-id process-direct --inputs $paths,process_direct_inputs --output $paths,process_direct", ""),
    ("success", "request", "", ""),
    ("do", "", "cli invocation submit $paths,process_direct", ""),
    ("success", "submitted", "", ""),
    ("do", "", "decode acceptance submitted,value", ""),
    ("ok", "acceptance", "", ""),
    ("is", "acceptance,type", "accepted", "direct admission was not accepted"),
    ("text", "process_execution", "acceptance,execution", ""),
    ("do", "", "cli --timeout-secs 8 invocation wait $process_execution", ""),
    ("num", "reply,exit", "0", "direct invocation failed: $reply,stdout"),
    ("do", "", "cli invocation observations $process_execution --limit 128", ""),
    ("success", "observed", "", ""),
    ("do", "", "decode observations observed,value", ""),
    ("ok", "process_page", "", ""),
    ("true", "process_page,terminal", "", "invocation omitted terminal evidence"),
    ("do", "", "marker", ""),
    ("ok", "marker", "", ""),
    ("same", "marker", "process_text", "process entry counter did not record exactly one input"),
    ("pick", "process_output", "process_page,outputs name stdout", "expected output artifact absent"),
    ("text", "process_output_artifact", "process_output,artifact_id", ""),
    ("do", "", "cli artifact get $process_output_artifact --output $paths,process_result", ""),
    ("success", "got", "", ""),
    ("do", "", "read-file $paths,process_result", ""),
    ("ok", "result", "", ""),
    ("same", "result", "process_text", "direct process returned different bytes"),
    ("do", "", "write-file $paths,model_input task", ""),
    ("ok", "written", "", ""),
    ("do", "", "cli invocation catalog", ""),
    ("success", "catalog", "", ""),
    ("do", "", "decode discovery catalog,value", ""),
    ("ok", "discovery", "", ""),
    ("do", "", "cli artifact upload $paths,model_input --host $discovery,host --upload-id model-input --media-type application/json", ""),
    ("success", "uploaded", "", ""),
    ("do", "", "decode artifact uploaded,value", ""),
    ("ok", "model_input", "", ""),
    ("do", "", "cli invocation catalog", ""),
    ("success", "catalog", "", ""),
    ("do", "", "decode discovery catalog,value", ""),
    ("ok", "discovery", "", ""),
    ("do", "", "write-inputs $paths,model_direct_inputs milkdrift.model_task model_input", ""),
    ("ok", "written", "", ""),
    ("do", "", "cli invocation prepare operator-model model.generate --host $discovery,host --request-id model-direct --inputs $paths,model_direct_inputs --output $paths,model_direct", ""),
    ("success", "request", "", ""),
    ("do", "", "cli invocation submit $paths,model_direct", ""),
    ("success", "submitted", "", ""),
    ("do", "", "decode acceptance submitted,value", ""),
    ("ok", "acceptance", "", ""),
    ("is", "acceptance,type", "accepted", "direct admission was not accepted"),
    ("text", "model_execution", "acceptance,execution", ""),
    ("do", "", "cli --timeout-secs 8 invocation wait $model_execution", ""),
    ("num", "reply,exit", "0", "direct invocation failed: $reply,stdout"),
    ("do", "", "cli invocation observations $model_execution --limit 128", ""),
    ("success", "observed", "", ""),
    ("do", "", "decode observations observed,value", ""),
    ("ok", "model_page", "", ""),
    ("true", "model_page,terminal", "", "invocation omitted terminal evidence"),
    ("pick", "model_output", "model_page,outputs name final_text", "expected output artifact absent"),
    ("text", "model_output_artifact", "model_output,artifact_id", ""),
    ("do", "", "cli artifact get $model_output_artifact --output $paths,model_result", ""),
    ("success", "got", "", ""),
    ("do", "", "read-file $paths,model_result", ""),
    ("ok", "result", "", ""),
    ("contains", "result", "independent model result", "fresh direct model result missing"),
    ("do", "", "model-counts", ""),
    ("ok", "counts", "", ""),
    ("num", "counts,invocations", "1", "model did not receive exactly one explicit direct selection"),
    ("num", "counts,direct", "1", "model did not receive exactly one explicit direct selection"),
    ("do", "", "cli invocation submit $paths,process_direct", ""),
    ("success", "replay", "", ""),
    ("true", "replay,value,replayed", "", "hot exact replay changed acceptance"),
    ("same", "replay,value,execution", "process_execution", "hot exact replay changed acceptance"),
    ("do", "", "cli invocation show $process_execution", ""),
    ("success", "inspected", "", ""),
    ("is", "inspected,value,origin,type", "direct", "independent invocation acquired workflow provenance"),
    ("do", "", "cli invocation submit $paths,model_direct", ""),
    ("success", "replay", "", ""),
    ("true", "replay,value,replayed", "", "hot exact replay changed acceptance"),
    ("same", "replay,value,execution", "model_execution", "hot exact replay changed acceptance"),
    ("do", "", "cli invocation show $model_execution", ""),
    ("success", "inspected", "", ""),
    ("is", "inspected,value,origin,type", "direct", "independent invocation acquired workflow provenance"),
    ("do", "", "daemon kill", ""),
    ("ok", "killed", "", ""),
    ("do", "", "store runs", ""),
    ("ok", "stored_runs", "", ""),
    ("empty", "stored_runs", "", "independent daemon wrote fake run records"),
    ("do", "", "store producer $process_output_artifact", ""),
    ("ok", "producer", "", ""),
    ("some", "producer", "", "produced metadata absent"),
    ("is", "producer,type", "host_invocation", "direct output producer is not a host invocation"),
    ("do", "", "store producer $model_output_artifact", ""),
    ("ok", "producer", "", ""),
    ("some", "producer", "", "produced metadata absent"),
    ("is", "producer,type", "host_invocation", "direct output producer is not a host invocation"),
    ("do", "", "daemon start", ""),
    ("ok", "started", "", ""),
    ("do", "", "cli invocation submit $paths,process_direct", ""),
    ("success", "replay", "", ""),
    ("true", "replay,value,replayed", "", "restart did not retain exact acceptance"),
    ("do", "", "cli invocation submit $paths,model_direct", ""),
    ("success", "replay", "", ""),
    ("true", "replay,value,replayed", "", "restart did not retain exact acceptance"),
    ("do", "", "marker", ""),
    ("ok", "marker", "", ""),
    ("do", "", "model-counts", ""),
    ("ok", "counts", "", ""),
    ("same", "marker", "process_text", "restart repeated external work"),
    ("num", "counts,invocations", "1", "restart repeated external work"),
    ("do", "", "daemon kill", ""),
    ("ok", "killed", "", ""),
    ("do", "", "run remote", ""),
    ("ok", "remote", "", ""),
    ("do", "", "marker", ""),
    ("ok", "marker", "", ""),
    ("same", "marker", "process_text_twice", "workflow remote process did not enter the same operation exactly once"),
    ("do", "", "model-counts", ""),
    ("ok", "counts", "", ""),
    ("num", "counts,invocations", "3", "workflow remote model did not retain causal selection"),
    ("num", "counts,direct", "1", "workflow remote model did not retain causal selection"),
    ("do", "", "model-finish", ""),
    ("ok", "finished", "", ""),
];

/// The origin and the serving host are connected and the inputs uploaded. Known before: the file
/// `paths`.
pub const REMOTE_OPEN: [Line; 26] = [
    ("do", "", "daemons start", ""),
    ("ok", "started", "", ""),
    ("do", "", "measure-idle", ""),
    ("ok", "measured", "", ""),
    ("do", "", "cli peer connect independent-evidence-host", ""),
    ("success", "connected", "", ""),
    ("do", "", "write-file $paths,remote_process_input process", ""),
    ("ok", "written", "", ""),
    ("do", "", "cli invocation catalog", ""),
    ("success", "catalog", "", ""),
    ("do", "", "decode discovery catalog,value", ""),
    ("ok", "discovery", "", ""),
    ("do", "", "cli artifact upload $paths,remote_process_input --host $discovery,host --upload-id remote-process-input --media-type text/plain", ""),
    ("success", "uploaded", "", ""),
    ("do", "", "decode artifact uploaded,value", ""),
    ("ok", "remote_process_input", "", ""),
    ("do", "", "write-file $paths,remote_model_input task", ""),
    ("ok", "written", "", ""),
    ("do", "", "cli invocation catalog", ""),
    ("success", "catalog", "", ""),
    ("do", "", "decode discovery catalog,value", ""),
    ("ok", "discovery", "", ""),
    ("do", "", "cli artifact upload $paths,remote_model_input --host $discovery,host --upload-id remote-model-input --media-type application/json", ""),
    ("success", "uploaded", "", ""),
    ("do", "", "decode artifact uploaded,value", ""),
    ("ok", "remote_model_input", "", ""),
];

/// A controlled process step enters the serving host and settles the origin's reservation. Where its
/// wait fails, `REMOTE_LOST` is played on what is known by then.
pub const REMOTE_PROCESS: [Line; 57] = [
    ("do", "", "cli capability list", ""),
    ("success", "capabilities", "", ""),
    ("make", "capabilities_text", "rendered capabilities", ""),
    ("first", "registered", "capabilities,value starts capability_id peer: plus ends capability_id independent-process", "remote capability missing: $capabilities_text"),
    ("text", "remote", "registered,capability_id", ""),
    ("do", "", "build remote-process $remote", ""),
    ("ok", "built", "", ""),
    ("do", "", "cli --command-id import-process blueprint import $built,path", ""),
    ("success", "imported", "", ""),
    ("do", "", "cli --command-id import-controller-process blueprint import $built,root_path", ""),
    ("success", "imported", "", ""),
    ("do", "", "cli --command-id start-process run start controlled-remote-process controlled-remote-process $built,root_id", ""),
    ("success", "started", "", ""),
    ("do", "", "cli --timeout-secs 8 run wait controlled-remote-process --terminal succeeded", ""),
    ("keep", "waited", "reply,stdout", ""),
    ("do", "", "cli run list --limit 100", ""),
    ("success", "runs", "", ""),
    ("list", "runs,value,items", "", "run list absent"),
    ("make", "runs_text", "rendered runs", ""),
    ("matching", "runs,value,items", "1 is workflow_id remote-process", "controller did not create one child: $runs_text"),
    ("pick", "child", "runs,value,items workflow_id remote-process", "controller did not create one child: $runs_text"),
    ("text", "child_run", "child,run_id", ""),
    ("wait", "completed", "cli run show controlled-remote-process", ""),
    ("until", "", "some completed,value,terminal or positive completed,value,uncertainty_count", ""),
    ("do", "", "cli run show controlled-remote-process", ""),
    ("success", "controlled_read", "", ""),
    ("keep", "account", "controlled_read,value,controller_accounting", ""),
    ("do", "", "cli run show $child_run", ""),
    ("success", "run", "", ""),
    ("pick", "node", "run,value,nodes node_id operation", "remote task node missing"),
    ("text", "attempt", "node,latest_attempt_id", ""),
    ("do", "", "cli attempt inspect $child_run $attempt", ""),
    ("success", "inspected", "", ""),
    ("text", "invocation", "inspected,value,invocation_id", ""),
    ("make", "inspected_text", "rendered inspected", ""),
    ("make", "account_text", "rendered account", ""),
    ("say", "words,failed", "remote process failed: ", ""),
    ("say", "words,attempt", "; attempt=", ""),
    ("say", "words,account", "; account=", ""),
    ("glue", "failure", "$words,failed $waited $words,attempt $inspected_text $words,account $account_text", ""),
    ("is", "completed,value,terminal", "succeeded", "$failure"),
    ("pick", "output", "inspected,value,outputs name stdout", "remote output was not imported"),
    ("text", "artifact", "output,artifact,artifact_id", ""),
    ("do", "", "cli artifact get $artifact --output $paths,process_result", ""),
    ("success", "got", "", ""),
    ("do", "", "hash $paths,process_result", ""),
    ("ok", "downloaded", "", ""),
    ("is", "account,state", "active", "remote result did not settle the origin's reservation: $account_text"),
    ("num", "account,committed,process_admissions", "1", "remote result did not settle the origin's reservation: $account_text"),
    ("reaches", "account,committed,artifact_bytes", "downloaded,size", "remote result did not settle the origin's reservation: $account_text"),
    ("keys", "account,account,reservations", "0", "remote result did not settle the origin's reservation: $account_text"),
    ("do", "", "read-file $paths,process_result", ""),
    ("ok", "result", "", ""),
    ("same", "result", "process_text", "remote operation returned different bytes"),
    ("put", "process,run", "child_run", ""),
    ("put", "process,invocation", "invocation", ""),
    ("put", "process,artifact", "artifact", ""),
];

/// A controlled model step enters the serving host and settles the origin's reservation. Where its
/// wait fails, `REMOTE_LOST` is played on what is known by then.
pub const REMOTE_MODEL: [Line; 57] = [
    ("do", "", "cli capability list", ""),
    ("success", "capabilities", "", ""),
    ("make", "capabilities_text", "rendered capabilities", ""),
    ("first", "registered", "capabilities,value starts capability_id peer: plus ends capability_id operator-model", "remote capability missing: $capabilities_text"),
    ("text", "remote", "registered,capability_id", ""),
    ("do", "", "build remote-model $remote", ""),
    ("ok", "built", "", ""),
    ("do", "", "cli --command-id import-model blueprint import $built,path", ""),
    ("success", "imported", "", ""),
    ("do", "", "cli --command-id import-controller-model blueprint import $built,root_path", ""),
    ("success", "imported", "", ""),
    ("do", "", "cli --command-id start-model run start controlled-remote-model controlled-remote-model $built,root_id", ""),
    ("success", "started", "", ""),
    ("do", "", "cli --timeout-secs 8 run wait controlled-remote-model --terminal succeeded", ""),
    ("keep", "waited", "reply,stdout", ""),
    ("do", "", "cli run list --limit 100", ""),
    ("success", "runs", "", ""),
    ("list", "runs,value,items", "", "run list absent"),
    ("make", "runs_text", "rendered runs", ""),
    ("matching", "runs,value,items", "1 is workflow_id remote-model", "controller did not create one child: $runs_text"),
    ("pick", "child", "runs,value,items workflow_id remote-model", "controller did not create one child: $runs_text"),
    ("text", "child_run", "child,run_id", ""),
    ("wait", "completed", "cli run show controlled-remote-model", ""),
    ("until", "", "some completed,value,terminal or positive completed,value,uncertainty_count", ""),
    ("do", "", "cli run show controlled-remote-model", ""),
    ("success", "controlled_read", "", ""),
    ("keep", "account", "controlled_read,value,controller_accounting", ""),
    ("do", "", "cli run show $child_run", ""),
    ("success", "run", "", ""),
    ("pick", "node", "run,value,nodes node_id operation", "remote task node missing"),
    ("text", "attempt", "node,latest_attempt_id", ""),
    ("do", "", "cli attempt inspect $child_run $attempt", ""),
    ("success", "inspected", "", ""),
    ("text", "invocation", "inspected,value,invocation_id", ""),
    ("make", "inspected_text", "rendered inspected", ""),
    ("make", "account_text", "rendered account", ""),
    ("say", "words,failed", "remote model failed: ", ""),
    ("say", "words,attempt", "; attempt=", ""),
    ("say", "words,account", "; account=", ""),
    ("glue", "failure", "$words,failed $waited $words,attempt $inspected_text $words,account $account_text", ""),
    ("is", "completed,value,terminal", "succeeded", "$failure"),
    ("pick", "output", "inspected,value,outputs name final_text", "remote output was not imported"),
    ("text", "artifact", "output,artifact,artifact_id", ""),
    ("do", "", "cli artifact get $artifact --output $paths,model_result", ""),
    ("success", "got", "", ""),
    ("do", "", "hash $paths,model_result", ""),
    ("ok", "downloaded", "", ""),
    ("is", "account,state", "active", "remote result did not settle the origin's reservation: $account_text"),
    ("num", "account,committed,model_admissions", "1", "remote result did not settle the origin's reservation: $account_text"),
    ("reaches", "account,committed,artifact_bytes", "downloaded,size", "remote result did not settle the origin's reservation: $account_text"),
    ("keys", "account,account,reservations", "0", "remote result did not settle the origin's reservation: $account_text"),
    ("do", "", "read-file $paths,model_result", ""),
    ("ok", "result", "", ""),
    ("contains", "result", "independent model result", "remote operation returned different bytes"),
    ("put", "model,run", "child_run", ""),
    ("put", "model,invocation", "invocation", ""),
    ("put", "model,artifact", "artifact", ""),
];

/// A lost response keeps its whole reservation outstanding. Where its wait fails, `REMOTE_LOST` is
/// played on what is known by then.
pub const REMOTE_UNCERTAIN: [Line; 49] = [
    ("do", "", "disconnect-next", ""),
    ("ok", "armed", "", ""),
    ("do", "", "cli capability list", ""),
    ("success", "capabilities", "", ""),
    ("make", "capabilities_text", "rendered capabilities", ""),
    ("first", "registered", "capabilities,value starts capability_id peer: plus ends capability_id operator-model", "remote capability missing: $capabilities_text"),
    ("text", "remote", "registered,capability_id", ""),
    ("do", "", "build remote-uncertain-model $remote", ""),
    ("ok", "built", "", ""),
    ("do", "", "cli --command-id import-uncertain-model blueprint import $built,path", ""),
    ("success", "imported", "", ""),
    ("do", "", "cli --command-id import-controller-uncertain-model blueprint import $built,root_path", ""),
    ("success", "imported", "", ""),
    ("do", "", "cli --command-id start-uncertain-model run start controlled-remote-uncertain-model controlled-remote-uncertain-model $built,root_id", ""),
    ("success", "started", "", ""),
    ("do", "", "cli --timeout-secs 8 run wait controlled-remote-uncertain-model --terminal succeeded", ""),
    ("keep", "waited", "reply,stdout", ""),
    ("do", "", "cli run list --limit 100", ""),
    ("success", "runs", "", ""),
    ("list", "runs,value,items", "", "run list absent"),
    ("make", "runs_text", "rendered runs", ""),
    ("matching", "runs,value,items", "1 is workflow_id remote-uncertain-model", "controller did not create one child: $runs_text"),
    ("pick", "child", "runs,value,items workflow_id remote-uncertain-model", "controller did not create one child: $runs_text"),
    ("text", "child_run", "child,run_id", ""),
    ("wait", "completed", "cli run show $child_run", ""),
    ("until", "", "some completed,value,terminal or positive completed,value,uncertainty_count", ""),
    ("do", "", "cli run show controlled-remote-uncertain-model", ""),
    ("success", "controlled_read", "", ""),
    ("keep", "account", "controlled_read,value,controller_accounting", ""),
    ("do", "", "cli run show $child_run", ""),
    ("success", "run", "", ""),
    ("pick", "node", "run,value,nodes node_id operation", "remote task node missing"),
    ("text", "attempt", "node,latest_attempt_id", ""),
    ("do", "", "cli attempt inspect $child_run $attempt", ""),
    ("success", "inspected", "", ""),
    ("text", "invocation", "inspected,value,invocation_id", ""),
    ("make", "inspected_text", "rendered inspected", ""),
    ("make", "account_text", "rendered account", ""),
    ("say", "words,account", "; account=", ""),
    ("glue", "obligation", "$inspected_text $words,account $account_text", ""),
    ("true", "inspected,value,uncertain", "", "lost response released or concealed its obligation: $obligation"),
    ("num", "account,account,outstanding,input_units", "65536", "lost response released or concealed its obligation: $obligation"),
    ("num", "account,account,outstanding,output_units", "4096", "lost response released or concealed its obligation: $obligation"),
    ("num", "account,account,outstanding,artifact_bytes", "16777216", "lost response released or concealed its obligation: $obligation"),
    ("num", "account,account,settled,model_admissions", "1", "lost response released or concealed its obligation: $obligation"),
    ("keys", "account,account,reservations", "1", "lost response released or concealed its obligation: $obligation"),
    ("keep", "uncertain_account", "account", ""),
    ("put", "uncertain_model,run", "child_run", ""),
    ("put", "uncertain_model,invocation", "invocation", ""),
];

/// A remote step whose wait failed: the run, its attempt and what the serving host retained of it are
/// read, both daemons end, and the step is refused with all of that. Known before: the `root` run, the
/// `child_run` and the `error` of the wait.
pub const REMOTE_LOST: [Line; 24] = [
    ("do", "", "cli run show $root", ""),
    ("success", "controlled_read", "", ""),
    ("do", "", "cli run show $child_run", ""),
    ("success", "run", "", ""),
    ("pick", "node", "run,value,nodes node_id operation", "remote task node missing"),
    ("text", "attempt", "node,latest_attempt_id", ""),
    ("do", "", "cli attempt inspect $child_run $attempt", ""),
    ("success", "inspected", "", ""),
    ("text", "invocation", "inspected,value,invocation_id", ""),
    ("do", "", "daemons kill", ""),
    ("ok", "killed", "", ""),
    ("do", "", "store acceptance-shown $invocation", ""),
    ("ok", "retained", "", ""),
    ("do", "", "model-counts", ""),
    ("ok", "counts", "", ""),
    ("make", "run_text", "rendered run", ""),
    ("make", "inspected_text", "rendered inspected", ""),
    ("say", "words,run", "; child=", ""),
    ("say", "words,attempt", "; attempt=", ""),
    ("say", "words,requests", "; model requests=", ""),
    ("say", "words,retained", "; serving=", ""),
    ("glue", "lost", "$error $words,run $run_text $words,attempt $inspected_text $words,requests $counts,invocations $words,retained $retained", ""),
    ("mark", "settled", "false", ""),
    ("true", "settled", "", "$lost"),
];

/// The outstanding obligation survives a restart, the serving host holds no runs, and every
/// acceptance and output names its real origin.
pub const REMOTE_CLOSE: [Line; 40] = [
    ("do", "", "daemon restart", ""),
    ("ok", "restarted", "", ""),
    ("do", "", "cli run show controlled-remote-uncertain-model", ""),
    ("success", "retained", "", ""),
    ("same", "retained,value,controller_accounting", "uncertain_account", "restart changed or released unknown remote usage"),
    ("do", "", "daemons kill", ""),
    ("ok", "killed", "", ""),
    ("do", "", "store serving-runs", ""),
    ("ok", "stored_runs", "", ""),
    ("empty", "stored_runs", "", "remote serving created synthetic runs"),
    ("do", "", "store acceptance $process,invocation", ""),
    ("ok", "record", "", ""),
    ("some", "record", "", "remote acceptance missing"),
    ("is", "record,state", "hot", "remote acceptance unexpectedly archived"),
    ("same", "record,origin_run", "process,run", "remote acceptance lost its real workflow origin"),
    ("true", "record,controller_reservation", "", "controlled remote request lost its originating reservation"),
    ("do", "", "store origin-producer $process,artifact", ""),
    ("ok", "producer", "", ""),
    ("some", "producer", "", "origin output missing"),
    ("is", "producer,type", "peer_claim", "imported output lost the authenticated serving producer"),
    ("is", "producer,peer", "independent-evidence-host", "imported output lost the authenticated serving producer"),
    ("is", "producer,reference", "host_invocation", "imported output lost the authenticated serving producer"),
    ("do", "", "store acceptance $model,invocation", ""),
    ("ok", "record", "", ""),
    ("some", "record", "", "remote acceptance missing"),
    ("is", "record,state", "hot", "remote acceptance unexpectedly archived"),
    ("same", "record,origin_run", "model,run", "remote acceptance lost its real workflow origin"),
    ("true", "record,controller_reservation", "", "controlled remote request lost its originating reservation"),
    ("do", "", "store origin-producer $model,artifact", ""),
    ("ok", "producer", "", ""),
    ("some", "producer", "", "origin output missing"),
    ("is", "producer,type", "peer_claim", "imported output lost the authenticated serving producer"),
    ("is", "producer,peer", "independent-evidence-host", "imported output lost the authenticated serving producer"),
    ("is", "producer,reference", "host_invocation", "imported output lost the authenticated serving producer"),
    ("do", "", "store acceptance $uncertain_model,invocation", ""),
    ("ok", "record", "", ""),
    ("some", "record", "", "remote acceptance missing"),
    ("is", "record,state", "hot", "remote acceptance unexpectedly archived"),
    ("same", "record,origin_run", "uncertain_model,run", "remote acceptance lost its real workflow origin"),
    ("true", "record,controller_reservation", "", "controlled remote request lost its originating reservation"),
];

/// Direct calls on an execution-only host.
pub fn run(known: Json) -> (r: Scenario)
    requires
        known@ is Object,
    ensures
        r.valid(),
        r@ == opening(INDEPENDENT@, known@),
{
    Scenario::open(INDEPENDENT.as_slice(), known)
}

/// An origin and its serving host are connected.
pub fn remote_open(known: Json) -> (r: Scenario)
    requires
        known@ is Object,
    ensures
        r.valid(),
        r@ == opening(REMOTE_OPEN@, known@),
{
    Scenario::open(REMOTE_OPEN.as_slice(), known)
}

/// A process step of a serving host.
pub fn remote_process(known: Json) -> (r: Scenario)
    requires
        known@ is Object,
    ensures
        r.valid(),
        r@ == opening(REMOTE_PROCESS@, known@),
{
    Scenario::open(REMOTE_PROCESS.as_slice(), known)
}

/// A model step of a serving host.
pub fn remote_model(known: Json) -> (r: Scenario)
    requires
        known@ is Object,
    ensures
        r.valid(),
        r@ == opening(REMOTE_MODEL@, known@),
{
    Scenario::open(REMOTE_MODEL.as_slice(), known)
}

/// A lost response of a serving host.
pub fn remote_uncertain(known: Json) -> (r: Scenario)
    requires
        known@ is Object,
    ensures
        r.valid(),
        r@ == opening(REMOTE_UNCERTAIN@, known@),
{
    Scenario::open(REMOTE_UNCERTAIN.as_slice(), known)
}

/// A remote step whose wait failed.
pub fn remote_lost(known: Json) -> (r: Scenario)
    requires
        known@ is Object,
    ensures
        r.valid(),
        r@ == opening(REMOTE_LOST@, known@),
{
    Scenario::open(REMOTE_LOST.as_slice(), known)
}

/// What the origin and the serving host keep.
pub fn remote_close(known: Json) -> (r: Scenario)
    requires
        known@ is Object,
    ensures
        r.valid(),
        r@ == opening(REMOTE_CLOSE@, known@),
{
    Scenario::open(REMOTE_CLOSE.as_slice(), known)
}

} // verus!
