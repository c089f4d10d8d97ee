//! External process and model interoperability over the control protocol.

use vstd::prelude::*;

use crate::json::{at, element_with, items, Json, Tree};
use crate::scenario::{opening, Line, Scenario};

verus! {

/// The profiles, the configuration and both scenarios of external evidence, in their order; an
/// injected fault ends them where its scenario would begin. Known before: the `fixture` and
/// `dirty` flags and the `injected` ones.
pub const EXTERNAL_SCENARIOS: [Line; 30] = [
    ("do", "", "repository", ""),
    ("ok", "repository", "", ""),
    ("do", "", "agent-profile", ""),
    ("ok", "agent", "", ""),
    ("do", "", "helper-profiles", ""),
    ("ok", "helpers", "", ""),
    ("do", "", "model-profile", ""),
    ("ok", "model_profile", "", ""),
    ("some", "model_profile", "", "--model-profile is required"),
    ("do", "", "model-facts $model_profile", ""),
    ("ok", "facts", "", ""),
    ("do", "", "secret-sources", ""),
    ("ok", "sources", "", ""),
    ("do", "", "configure", ""),
    ("ok", "configuration_digest", "", ""),
    ("either", "", "true fixture or false dirty", "qualifying real evidence requires a clean Milkdrift checkout so commit/tree identify the tested source"),
    ("false", "injected,process", "", "fixture-injected process scenario failure"),
    ("do", "", "process-scenario", ""),
    ("ok", "process", "", ""),
    ("false", "injected,model", "", "fixture-injected model scenario failure"),
    ("do", "", "endpoint-alive", ""),
    ("ok", "alive", "", ""),
    ("true", "alive,reached", "", "$alive,message"),
    ("do", "", "model-scenario", ""),
    ("ok", "model", "", ""),
    ("do", "", "endpoint-stop", ""),
    ("ok", "stopped", "", ""),
    ("true", "stopped", "", "fixture model endpoint thread panicked"),
    ("do", "", "redaction", ""),
    ("ok", "redacted", "", ""),
];

/// A real coding process whose verification fails, is reviewed and is remediated in a fresh
/// process after a restart, with exact provenance of five distinct invocations. Known before: the
/// `agent` with `capability`, `content_digest`, `size_bytes` and `version_output`, the `workflow`,
/// the initial commit and tree and the wait bound.
pub const EXTERNAL_PROCESS: [Line; 207] = [
    ("do", "", "daemon start", ""),
    ("ok", "started", "", ""),
    ("do", "", "client readiness", ""),
    ("ok", "ready", "", ""),
    ("do", "", "submit external-process-import none import-sequence", ""),
    ("ok", "imported", "", ""),
    ("need", "revision", "imported,revision_id", "command response omitted revision_id"),
    ("do", "", "submit external-process-start none start-run run-external-process $workflow $revision", ""),
    ("ok", "started_run", "", ""),
    ("watch", "before_restart", "client run run-external-process", ""),
    ("until", "", "any before_restart,nodes is node_id stage-repair-coding plus some latest_attempt_id", ""),
    ("until", "", "any before_restart,nodes is node_id stage-repair-verification plus some latest_attempt_id", ""),
    ("until", "", "any before_restart,nodes is node_id stage-repair-review plus some latest_attempt_id", ""),
    ("until", "", "any before_restart,nodes is node_id stage-repair-approval", ""),
    ("pick", "node", "before_restart,nodes node_id stage-repair-coding", "node stage-repair-coding has no attempt"),
    ("need", "original_agent_attempt", "node,latest_attempt_id", "node stage-repair-coding has no attempt"),
    ("pick", "node", "before_restart,nodes node_id stage-repair-verification", "node stage-repair-verification has no attempt"),
    ("need", "weak_attempt", "node,latest_attempt_id", "node stage-repair-verification has no attempt"),
    ("pick", "node", "before_restart,nodes node_id stage-repair-review", "node stage-repair-review has no attempt"),
    ("need", "reviewer_attempt", "node,latest_attempt_id", "node stage-repair-review has no attempt"),
    ("do", "", "daemon kill", ""),
    ("ok", "killed", "", ""),
    ("do", "", "daemon start", ""),
    ("ok", "started", "", ""),
    ("do", "", "client run run-external-process", ""),
    ("ok", "recovered", "", ""),
    ("same", "recovered,sequence", "before_restart,sequence", "process run did not recover the durable review boundary"),
    ("any", "recovered,nodes", "is node_id stage-repair-approval", "process run did not recover the durable review boundary"),
    ("say", "boundary,boundary", "after controlled verification failure and independent review", ""),
    ("put", "boundary,sequence_before", "before_restart,sequence", ""),
    ("put", "boundary,sequence_after", "recovered,sequence", ""),
    ("say", "boundary,recovered_state", "awaiting remediation approval", ""),
    ("mark", "boundary,duplicate_attempts", "false", ""),
    ("do", "", "submit external-process-pause $recovered,sequence pause-run run-external-process", ""),
    ("ok", "pausing", "", ""),
    ("do", "", "client run run-external-process", ""),
    ("ok", "paused", "", ""),
    ("do", "", "client revision $revision", ""),
    ("ok", "revision_read", "", ""),
    ("some", "revision_read,document", "", "process base revision document is absent"),
    ("do", "", "build remediation $paused,sequence", ""),
    ("ok", "proposal", "", ""),
    ("do", "", "submit-with $revision external-process-proposal $paused,sequence submit-proposal", ""),
    ("ok", "submitted", "", ""),
    ("need", "proposed_revision", "submitted,proposed_revision", "command response omitted proposed_revision"),
    ("do", "", "client run run-external-process", ""),
    ("ok", "decision_state", "", ""),
    ("do", "", "submit-with $proposed_revision external-process-approve $decision_state,sequence decide-proposal run-external-process proposal-external-remediation-1 $proposal,digest $proposed_revision decision-external-remediation-1 approve", ""),
    ("ok", "approved", "", ""),
    ("do", "", "client run run-external-process", ""),
    ("ok", "apply_state", "", ""),
    ("do", "", "submit-with $proposed_revision external-process-apply $apply_state,sequence apply-proposal run-external-process proposal-external-remediation-1 $proposal,digest $proposed_revision", ""),
    ("ok", "applied", "", ""),
    ("do", "", "client run run-external-process", ""),
    ("ok", "signal_state", "", ""),
    ("do", "", "submit external-process-signal $signal_state,sequence signal-run run-external-process signal-external-remediation-1 sequence.approved proposal-external-remediation-1 $proposed_revision", ""),
    ("ok", "signalled", "", ""),
    ("do", "", "client run run-external-process", ""),
    ("ok", "resume_state", "", ""),
    ("do", "", "submit external-process-resume $resume_state,sequence resume-run run-external-process", ""),
    ("ok", "resumed", "", ""),
    ("watch", "completed", "client run run-external-process", ""),
    ("until", "", "is completed,terminal succeeded", ""),
    ("each", "completed,nodes", "null latest_attempt_id else num attempt_count 1", "task $it,node_id did not retain exactly one attempt"),
    ("pick", "node", "completed,nodes node_id stage-repair-remediation-1-coding", "node stage-repair-remediation-1-coding has no attempt"),
    ("need", "remediation_attempt", "node,latest_attempt_id", "node stage-repair-remediation-1-coding has no attempt"),
    ("pick", "node", "completed,nodes node_id stage-repair-remediation-1-verification", "node stage-repair-remediation-1-verification has no attempt"),
    ("need", "good_attempt", "node,latest_attempt_id", "node stage-repair-remediation-1-verification has no attempt"),
    ("do", "", "client attempt run-external-process $original_agent_attempt", ""),
    ("ok", "agent_read", "", ""),
    ("some", "agent_read,capability_provenance", "", "agent attempt omitted capability provenance"),
    ("keep", "agent_provenance", "agent_read,capability_provenance", ""),
    ("same", "agent_provenance,implementation_content_digest", "agent,content_digest", "agent attempt omitted exact executable/profile provenance"),
    ("same", "agent_provenance,implementation_size_bytes", "agent,size_bytes", "agent attempt omitted exact executable/profile provenance"),
    ("some", "agent_provenance,process_profile_digest", "", "agent attempt omitted exact executable/profile provenance"),
    ("some", "agent_provenance,execution_policy_digest", "", "agent attempt omitted exact executable/profile provenance"),
    ("some", "agent_provenance,configured_path_digest", "", "agent attempt omitted exact executable/profile provenance"),
    ("some", "agent_provenance,canonical_path_digest", "", "agent attempt omitted exact executable/profile provenance"),
    ("do", "", "client attempt run-external-process $good_attempt", ""),
    ("ok", "good_read", "", ""),
    ("do", "", "client attempt run-external-process $weak_attempt", ""),
    ("ok", "weak_read", "", ""),
    ("do", "", "client attempt run-external-process $reviewer_attempt", ""),
    ("ok", "reviewer_read", "", ""),
    ("do", "", "client attempt run-external-process $remediation_attempt", ""),
    ("ok", "remediation_read", "", ""),
    ("any", "good_read,outputs", "is name verification_result", "good verification omitted checkpoint/check and log artifacts"),
    ("any", "good_read,outputs", "is name verification_logs", "good verification omitted checkpoint/check and log artifacts"),
    ("need", "initial_coding_invocation", "agent_read,invocation_id", "initial_coding attempt omitted its invocation identity"),
    ("some", "agent_read,capability_provenance", "", "initial_coding attempt omitted capability provenance"),
    ("say", "invocation,role", "initial_coding", ""),
    ("put", "invocation,attempt_id", "agent_read,attempt_id", ""),
    ("put", "invocation,invocation_id", "initial_coding_invocation", ""),
    ("put", "invocation,capability_id", "agent_read,capability_id", ""),
    ("put", "invocation,descriptor_revision", "agent_read,descriptor_revision", ""),
    ("put", "invocation,snapshot_digest", "agent_read,capability_provenance,snapshot_digest", ""),
    ("put", "invocation,process_profile_digest", "agent_read,capability_provenance,process_profile_digest", ""),
    ("put", "invocation,context_manifest_digest", "agent_read,context,digest", ""),
    ("put", "invocation,terminal", "agent_read,terminal", ""),
    ("put", "invocation,uncertain", "agent_read,uncertain", ""),
    ("keep", "initial_coding", "invocation", ""),
    ("need", "controlled_verification_invocation", "weak_read,invocation_id", "controlled_verification attempt omitted its invocation identity"),
    ("differs", "controlled_verification_invocation", "initial_coding_invocation", "process attempts reused an external invocation identity"),
    ("some", "weak_read,capability_provenance", "", "controlled_verification attempt omitted capability provenance"),
    ("say", "invocation,role", "controlled_verification", ""),
    ("put", "invocation,attempt_id", "weak_read,attempt_id", ""),
    ("put", "invocation,invocation_id", "controlled_verification_invocation", ""),
    ("put", "invocation,capability_id", "weak_read,capability_id", ""),
    ("put", "invocation,descriptor_revision", "weak_read,descriptor_revision", ""),
    ("put", "invocation,snapshot_digest", "weak_read,capability_provenance,snapshot_digest", ""),
    ("put", "invocation,process_profile_digest", "weak_read,capability_provenance,process_profile_digest", ""),
    ("put", "invocation,context_manifest_digest", "weak_read,context,digest", ""),
    ("put", "invocation,terminal", "weak_read,terminal", ""),
    ("put", "invocation,uncertain", "weak_read,uncertain", ""),
    ("keep", "controlled_verification", "invocation", ""),
    ("need", "independent_review_invocation", "reviewer_read,invocation_id", "independent_review attempt omitted its invocation identity"),
    ("differs", "independent_review_invocation", "initial_coding_invocation", "process attempts reused an external invocation identity"),
    ("differs", "independent_review_invocation", "controlled_verification_invocation", "process attempts reused an external invocation identity"),
    ("some", "reviewer_read,capability_provenance", "", "independent_review attempt omitted capability provenance"),
    ("say", "invocation,role", "independent_review", ""),
    ("put", "invocation,attempt_id", "reviewer_read,attempt_id", ""),
    ("put", "invocation,invocation_id", "independent_review_invocation", ""),
    ("put", "invocation,capability_id", "reviewer_read,capability_id", ""),
    ("put", "invocation,descriptor_revision", "reviewer_read,descriptor_revision", ""),
    ("put", "invocation,snapshot_digest", "reviewer_read,capability_provenance,snapshot_digest", ""),
    ("put", "invocation,process_profile_digest", "reviewer_read,capability_provenance,process_profile_digest", ""),
    ("put", "invocation,context_manifest_digest", "reviewer_read,context,digest", ""),
    ("put", "invocation,terminal", "reviewer_read,terminal", ""),
    ("put", "invocation,uncertain", "reviewer_read,uncertain", ""),
    ("keep", "independent_review", "invocation", ""),
    ("need", "remediation_coding_invocation", "remediation_read,invocation_id", "remediation_coding attempt omitted its invocation identity"),
    ("differs", "remediation_coding_invocation", "initial_coding_invocation", "process attempts reused an external invocation identity"),
    ("differs", "remediation_coding_invocation", "controlled_verification_invocation", "process attempts reused an external invocation identity"),
    ("differs", "remediation_coding_invocation", "independent_review_invocation", "process attempts reused an external invocation identity"),
    ("some", "remediation_read,capability_provenance", "", "remediation_coding attempt omitted capability provenance"),
    ("say", "invocation,role", "remediation_coding", ""),
    ("put", "invocation,attempt_id", "remediation_read,attempt_id", ""),
    ("put", "invocation,invocation_id", "remediation_coding_invocation", ""),
    ("put", "invocation,capability_id", "remediation_read,capability_id", ""),
    ("put", "invocation,descriptor_revision", "remediation_read,descriptor_revision", ""),
    ("put", "invocation,snapshot_digest", "remediation_read,capability_provenance,snapshot_digest", ""),
    ("put", "invocation,process_profile_digest", "remediation_read,capability_provenance,process_profile_digest", ""),
    ("put", "invocation,context_manifest_digest", "remediation_read,context,digest", ""),
    ("put", "invocation,terminal", "remediation_read,terminal", ""),
    ("put", "invocation,uncertain", "remediation_read,uncertain", ""),
    ("keep", "remediation_coding", "invocation", ""),
    ("need", "final_verification_invocation", "good_read,invocation_id", "final_verification attempt omitted its invocation identity"),
    ("differs", "final_verification_invocation", "initial_coding_invocation", "process attempts reused an external invocation identity"),
    ("differs", "final_verification_invocation", "controlled_verification_invocation", "process attempts reused an external invocation identity"),
    ("differs", "final_verification_invocation", "independent_review_invocation", "process attempts reused an external invocation identity"),
    ("differs", "final_verification_invocation", "remediation_coding_invocation", "process attempts reused an external invocation identity"),
    ("some", "good_read,capability_provenance", "", "final_verification attempt omitted capability provenance"),
    ("say", "invocation,role", "final_verification", ""),
    ("put", "invocation,attempt_id", "good_read,attempt_id", ""),
    ("put", "invocation,invocation_id", "final_verification_invocation", ""),
    ("put", "invocation,capability_id", "good_read,capability_id", ""),
    ("put", "invocation,descriptor_revision", "good_read,descriptor_revision", ""),
    ("put", "invocation,snapshot_digest", "good_read,capability_provenance,snapshot_digest", ""),
    ("put", "invocation,process_profile_digest", "good_read,capability_provenance,process_profile_digest", ""),
    ("put", "invocation,context_manifest_digest", "good_read,context,digest", ""),
    ("put", "invocation,terminal", "good_read,terminal", ""),
    ("put", "invocation,uncertain", "good_read,uncertain", ""),
    ("keep", "final_verification", "invocation", ""),
    ("gather", "invocations", "initial_coding controlled_verification independent_review remediation_coding final_verification", ""),
    ("make", "initial_coding_artifacts", "attempt-artifacts =initial_coding agent_read", ""),
    ("make", "controlled_verification_artifacts", "attempt-artifacts =controlled_verification weak_read", ""),
    ("make", "independent_review_artifacts", "attempt-artifacts =independent_review reviewer_read", ""),
    ("make", "remediation_coding_artifacts", "attempt-artifacts =remediation_coding remediation_read", ""),
    ("make", "final_verification_artifacts", "attempt-artifacts =final_verification good_read", ""),
    ("make", "artifacts", "chained initial_coding_artifacts controlled_verification_artifacts independent_review_artifacts remediation_coding_artifacts final_verification_artifacts", ""),
    ("do", "", "repository", ""),
    ("ok", "repository", "", ""),
    ("do", "", "daemon kill", ""),
    ("ok", "killed", "", ""),
    ("put", "evidence,profile,capability", "agent,capability", ""),
    ("say", "evidence,profile,server_settings,status", "unknown", ""),
    ("say", "evidence,profile,server_settings,scope", "endpoint_inside_coding_agent", ""),
    ("mark", "evidence,profile,server_settings,thinking", "null", ""),
    ("mark", "evidence,profile,server_settings,model_identity", "null", ""),
    ("put", "evidence,profile,executable_configured_path_digest", "agent_provenance,configured_path_digest", ""),
    ("put", "evidence,profile,executable_canonical_path_digest", "agent_provenance,canonical_path_digest", ""),
    ("put", "evidence,profile,executable_content_digest", "agent,content_digest", ""),
    ("put", "evidence,profile,executable_size_bytes", "agent,size_bytes", ""),
    ("put", "evidence,profile,version_output", "agent,version_output", ""),
    ("put", "evidence,profile,profile_digest", "agent_provenance,process_profile_digest", ""),
    ("put", "evidence,profile,policy_digest", "agent_provenance,execution_policy_digest", ""),
    ("names", "evidence,commands", "external-process-import external-process-start external-process-pause external-process-proposal external-process-approve external-process-apply external-process-signal external-process-resume", ""),
    ("names", "evidence,runs", "run-external-process", ""),
    ("names", "evidence,proposals", "proposal-external-remediation-1", ""),
    ("put", "evidence,artifacts", "artifacts", ""),
    ("put", "evidence,facts,repository_initial_commit", "initial_commit", ""),
    ("put", "evidence,facts,repository_initial_tree", "initial_tree", ""),
    ("put", "evidence,facts,repository_final_commit", "repository,commit", ""),
    ("put", "evidence,facts,repository_final_tree", "repository,tree", ""),
    ("put", "evidence,facts,dirty_diff_digest", "repository,diff_digest", ""),
    ("put", "evidence,facts,dirty_diff_bytes", "repository,diff_bytes", ""),
    ("say", "evidence,facts,controlled_failure", "orchestration verifier report deliberately failed a required check", ""),
    ("tell", "evidence,facts,fresh_agent_attempts", "2", ""),
    ("put", "evidence,facts,process_invocations", "invocations", ""),
    ("put", "evidence,facts,terminal_sequence", "completed,sequence", ""),
    ("put", "evidence,facts,wait_timeout_secs", "wait_timeout_secs", ""),
    ("gather", "evidence,revisions", "revision proposed_revision", ""),
    ("gather", "evidence,attempts", "original_agent_attempt weak_attempt reviewer_attempt remediation_attempt good_attempt", ""),
    ("gather", "evidence,restart_boundaries", "boundary", ""),
    ("say", "evidence,outcome", "succeeded", ""),
    ("mark", "evidence,failure_reason", "null", ""),
    ("tell", "evidence,facts,distinct_process_invocations", "5", ""),
];

/// A model step that waits for its release across a restart, up to its end. Known before: the
/// `workflow`.
pub const EXTERNAL_MODEL: [Line; 24] = [
    ("do", "", "daemon start", ""),
    ("ok", "started", "", ""),
    ("do", "", "submit external-model-import none import-blueprint", ""),
    ("ok", "imported", "", ""),
    ("need", "revision", "imported,revision_id", "command response omitted revision_id"),
    ("do", "", "submit external-model-start none start-run run-external-model $workflow $revision", ""),
    ("ok", "started_run", "", ""),
    ("watch", "before_restart", "client run run-external-model", ""),
    ("until", "", "any before_restart,nodes is node_id model-release", ""),
    ("do", "", "fixture-requests", ""),
    ("ok", "requests", "", ""),
    ("either", "", "null requests or num requests 0", "fixture model endpoint was entered before release boundary"),
    ("do", "", "daemon kill", ""),
    ("ok", "killed", "", ""),
    ("do", "", "daemon start", ""),
    ("ok", "started", "", ""),
    ("do", "", "client run run-external-model", ""),
    ("ok", "recovered", "", ""),
    ("same", "recovered,sequence", "before_restart,sequence", "model workflow did not recover the pre-entry release boundary"),
    ("any", "recovered,nodes", "is node_id model-release", "model workflow did not recover the pre-entry release boundary"),
    ("do", "", "submit external-model-release $recovered,sequence signal-run run-external-model signal-external-model-release evidence.model.release", ""),
    ("ok", "released", "", ""),
    ("watch", "completed", "client run run-external-model", ""),
    ("until", "", "some completed,terminal or any completed,nodes is node_id model plus contains state uncertain else is node_id model plus contains state rejected else is node_id model plus contains state failed", ""),
];

/// A model run that did not succeed and whose result no one judged: its attempt is read, and the
/// scenario fails with the reason. Known before: what `EXTERNAL_MODEL` left.
pub const EXTERNAL_MODEL_FAILED: [Line; 14] = [
    ("do", "", "client health", ""),
    ("ok", "health", "", ""),
    ("pick", "node", "completed,nodes node_id model", "node model has no attempt"),
    ("need", "failed_attempt", "node,latest_attempt_id", "node model has no attempt"),
    ("do", "", "client attempt run-external-model $failed_attempt", ""),
    ("ok", "failed_read", "", ""),
    ("mark", "acceptance", "null", ""),
    ("do", "", "fixture-requests", ""),
    ("ok", "requests", "", ""),
    ("do", "", "fixture-lines", ""),
    ("ok", "lines", "", ""),
    ("make", "failure", "model-failure health failed_read acceptance requests lines", ""),
    ("mark", "settled", "false", ""),
    ("true", "settled", "", "$failure"),
];

/// A model run that did not succeed and whose result was judged: the judgement is read too, and the
/// scenario fails with the reason. Known before: what `EXTERNAL_MODEL` left.
pub const EXTERNAL_MODEL_JUDGED: [Line; 17] = [
    ("do", "", "client health", ""),
    ("ok", "health", "", ""),
    ("pick", "node", "completed,nodes node_id model", "node model has no attempt"),
    ("need", "failed_attempt", "node,latest_attempt_id", "node model has no attempt"),
    ("do", "", "client attempt run-external-model $failed_attempt", ""),
    ("ok", "failed_read", "", ""),
    ("pick", "node", "completed,nodes node_id model-acceptance", "node model-acceptance has no attempt"),
    ("need", "acceptance_attempt", "node,latest_attempt_id", "node model-acceptance has no attempt"),
    ("do", "", "client attempt run-external-model $acceptance_attempt", ""),
    ("ok", "acceptance", "", ""),
    ("do", "", "fixture-requests", ""),
    ("ok", "requests", "", ""),
    ("do", "", "fixture-lines", ""),
    ("ok", "lines", "", ""),
    ("make", "failure", "model-failure health failed_read acceptance requests lines", ""),
    ("mark", "settled", "false", ""),
    ("true", "settled", "", "$failure"),
];

/// What a model run that succeeded has to show. Known before: what `EXTERNAL_MODEL` left, the
/// `profile`, the output bound and ceiling and the wait bound.
pub const EXTERNAL_MODEL_COMPLETED: [Line; 95] = [
    ("pick", "node", "completed,nodes node_id model", "node model has no attempt"),
    ("need", "model_attempt", "node,latest_attempt_id", "node model has no attempt"),
    ("do", "", "client attempt run-external-model $model_attempt", ""),
    ("ok", "attempt", "", ""),
    ("where", "completed,nodes", "node_id model num attempt_count 1", "model external entry was duplicated"),
    ("some", "attempt,context", "", "model attempt omitted authorized context manifest"),
    ("pick", "node", "completed,nodes node_id evidence-denied", "node evidence-denied has no attempt"),
    ("need", "denied_attempt", "node,latest_attempt_id", "node evidence-denied has no attempt"),
    ("do", "", "client attempt run-external-model $denied_attempt", ""),
    ("ok", "denied", "", ""),
    ("pick", "denied_output", "denied,outputs name evidence", "denied evidence task omitted its artifact"),
    ("keep", "denied_artifact", "denied_output,artifact,artifact_id", ""),
    ("make", "entries", "rendered attempt,context,entries", ""),
    ("make", "omissions", "rendered attempt,context,omissions", ""),
    ("contains", "entries", "evidence-a", "frozen context manifest selected/omitted the wrong evidence"),
    ("contains", "entries", "evidence-b", "frozen context manifest selected/omitted the wrong evidence"),
    ("omits", "entries", "denied_artifact", "frozen context manifest selected/omitted the wrong evidence"),
    ("mentions", "omissions", "denied_artifact", "frozen context manifest selected/omitted the wrong evidence"),
    ("either", "", "false profile,streaming or positive attempt,progress_observations", "streaming profile produced no durable fragment observation"),
    ("some", "attempt,capability_provenance", "", "model attempt omitted capability provenance"),
    ("keep", "provenance", "attempt,capability_provenance", ""),
    ("some", "provenance,model_profile_digest", "", "model attempt omitted exact profile/protocol/model/origin provenance"),
    ("same", "provenance,model_profile_revision", "profile,revision", "model attempt omitted exact profile/protocol/model/origin provenance"),
    ("same", "provenance,provider_protocol", "profile,protocol", "model attempt omitted exact profile/protocol/model/origin provenance"),
    ("same", "provenance,model_alias", "profile,model_alias", "model attempt omitted exact profile/protocol/model/origin provenance"),
    ("same", "provenance,endpoint_origin", "profile,endpoint_origin", "model attempt omitted exact profile/protocol/model/origin provenance"),
    ("pick", "response_output", "attempt,outputs name model_response", "model response artifact is absent"),
    ("pick", "provider_output", "attempt,outputs name provider_metadata", "provider metadata artifact is absent"),
    ("do", "", "client artifact response $response_output,artifact,artifact_id $response_output,artifact,size", ""),
    ("ok", "response", "", ""),
    ("do", "", "client artifact values $provider_output,artifact,artifact_id $provider_output,artifact,size", ""),
    ("ok", "identities", "", ""),
    ("nonempty", "identities", "", "provider metadata artifact is empty or malformed"),
    ("any", "identities", "string id plus isnot id plus string model plus isnot model", "provider metadata omitted response identity or model"),
    ("either", "", "false profile,structured_output or true response,structured,ok", "model response did not satisfy the bounded parseable contract"),
    ("either", "", "true profile,structured_output or trims response,text MILKDRIFT_EVIDENCE_OK", "model response did not satisfy the bounded parseable contract"),
    ("do", "", "fixture-requests", ""),
    ("ok", "requests", "", ""),
    ("either", "", "null requests or num requests 1", "fixture endpoint observed a duplicate or missing remote request"),
    ("do", "", "fixture-lines", ""),
    ("ok", "lines", "", ""),
    ("either", "", "null lines or len lines 1", "fixture endpoint observed the wrong request target"),
    ("either", "", "null lines or is lines,#0 POST /v1/chat/completions HTTP/1.1", "fixture endpoint observed the wrong request target"),
    ("is", "response,finish_reason", "stop", "provider response did not finish normally; truncated or incomplete output cannot qualify"),
    ("either", "", "some response,usage,input_units or some response,usage,output_units or some response,usage,cached_input_units or some response,usage,cost_micros", "provider response omitted all usage facts"),
    ("some", "attempt,usage", "", "model terminal evidence omitted durable usage facts"),
    ("same", "attempt,usage,input_units", "response,usage,input_units", "durable attempt usage differs from the committed response"),
    ("same", "attempt,usage,output_units", "response,usage,output_units", "durable attempt usage differs from the committed response"),
    ("make", "artifacts", "attempt-artifacts no_role attempt", ""),
    ("do", "", "daemon kill", ""),
    ("ok", "killed", "", ""),
    ("put", "evidence,profile,profile_digest", "provenance,model_profile_digest", ""),
    ("put", "evidence,profile,profile_revision", "profile,revision", ""),
    ("put", "evidence,profile,provider_protocol", "profile,protocol", ""),
    ("put", "evidence,profile,model_alias", "profile,model_alias", ""),
    ("say", "evidence,profile,server_settings,status", "unknown", ""),
    ("say", "evidence,profile,server_settings,scope", "direct_endpoint", ""),
    ("mark", "evidence,profile,server_settings,thinking", "null", ""),
    ("put", "evidence,profile,generation_limits,requested_output_units", "max_output_units", ""),
    ("mark", "evidence,profile,generation_limits,reasoning_request", "null", ""),
    ("mark", "evidence,profile,generation_limits,profile_token_limit", "null", ""),
    ("put", "evidence,profile,generation_limits,contract_ceiling", "contract_ceiling", ""),
    ("tell", "evidence,profile,generation_limits,harness_default", "64", ""),
    ("tell", "evidence,profile,generation_limits,harness_ceiling", "65536", ""),
    ("put", "evidence,profile,endpoint_origin", "profile,endpoint_origin", ""),
    ("names", "evidence,commands", "external-model-import external-model-start external-model-release", ""),
    ("names", "evidence,runs", "run-external-model", ""),
    ("gather", "evidence,proposals", "", ""),
    ("put", "evidence,artifacts", "artifacts", ""),
    ("say", "boundary,boundary", "durable signal wait before model adapter entry", ""),
    ("put", "boundary,sequence_before", "before_restart,sequence", ""),
    ("put", "boundary,sequence_after", "recovered,sequence", ""),
    ("say", "boundary,recovered_state", "model request unreleased; no external entry", ""),
    ("mark", "boundary,duplicate_attempts", "false", ""),
    ("put", "evidence,facts,context_manifest_digest", "attempt,context,digest", ""),
    ("put", "evidence,facts,max_output_units", "max_output_units", ""),
    ("put", "evidence,facts,wait_timeout_secs", "wait_timeout_secs", ""),
    ("size", "evidence,facts,selected_count", "attempt,context,entries", ""),
    ("size", "evidence,facts,omitted_count", "attempt,context,omissions", ""),
    ("put", "evidence,facts,denied_context_artifact_digest", "denied_output,artifact,digest", ""),
    ("put", "evidence,facts,streaming_observations", "attempt,progress_observations", ""),
    ("put", "evidence,facts,streaming_bytes", "attempt,progress_bytes", ""),
    ("put", "evidence,facts,finish_reason", "response,finish_reason", ""),
    ("put", "evidence,facts,usage", "response,usage", ""),
    ("put", "evidence,facts,usage,duration_ms", "attempt,usage,duration_ms", ""),
    ("put", "evidence,facts,provider_metadata_artifact_digest", "provider_output,artifact,digest", ""),
    ("say", "evidence,facts,terminal", "succeeded", ""),
    ("put", "evidence,facts,uncertain", "attempt,uncertain", ""),
    ("put", "evidence,facts,capability_generation", "attempt,descriptor_revision", ""),
    ("put", "evidence,facts,invocation_id", "attempt,invocation_id", ""),
    ("gather", "evidence,revisions", "revision", ""),
    ("gather", "evidence,attempts", "model_attempt", ""),
    ("gather", "evidence,restart_boundaries", "boundary", ""),
    ("say", "evidence,outcome", "succeeded", ""),
    ("mark", "evidence,failure_reason", "null", ""),
];

/// The end of a process scenario with a fixture agent.
pub const PROCESS_FIXTURE: [Line; 4] = [
    ("mark", "evidence,profile,fixture_rejected_for_qualification", "true", ""),
    ("mark", "evidence,qualifying", "false", ""),
    ("do", "", "validate-evidence process", ""),
    ("ok", "validated", "", ""),
];

/// The end of a process scenario with a real agent.
pub const PROCESS_REAL: [Line; 4] = [
    ("mark", "evidence,profile,fixture_rejected_for_qualification", "false", ""),
    ("mark", "evidence,qualifying", "true", ""),
    ("do", "", "validate-evidence process", ""),
    ("ok", "validated", "", ""),
];

/// The end of a model scenario with a fixture endpoint.
pub const MODEL_FIXTURE: [Line; 2] = [
    ("mark", "evidence,profile,fixture_rejected_for_qualification", "true", ""),
    ("mark", "evidence,qualifying", "false", ""),
];

/// The end of a model scenario with a real endpoint.
pub const MODEL_REAL: [Line; 2] = [
    ("mark", "evidence,profile,fixture_rejected_for_qualification", "false", ""),
    ("mark", "evidence,qualifying", "true", ""),
];

/// Both external scenarios in their order.
pub fn run_scenarios(known: Json) -> (r: Scenario)
    requires
        known@ is Object,
    ensures
        r.valid(),
        r@ == opening(EXTERNAL_SCENARIOS@, known@),
{
    Scenario::open(EXTERNAL_SCENARIOS.as_slice(), known)
}

/// The whole process scenario.
pub open spec fn process_script(fixture: bool) -> Seq<Line> {
    EXTERNAL_PROCESS@ + process_end(fixture)
}

/// How the evidence of a process ends: fixture evidence never qualifies.
pub open spec fn process_end(fixture: bool) -> Seq<Line> {
    if fixture {
        PROCESS_FIXTURE@
    } else {
        PROCESS_REAL@
    }
}

/// A real process agent, its restart and its remediation.
pub fn run_process_scenario(fixture: bool, known: Json) -> (r: Scenario)
    requires
        known@ is Object,
    ensures
        r.valid(),
        r@ == opening(process_script(fixture), known@),
{
    if fixture {
        Scenario::ending(EXTERNAL_PROCESS.as_slice(), PROCESS_FIXTURE.as_slice(), known)
    } else {
        Scenario::ending(EXTERNAL_PROCESS.as_slice(), PROCESS_REAL.as_slice(), known)
    }
}

/// A real model until its run is terminal.
pub fn run_model_scenario(known: Json) -> (r: Scenario)
    requires
        known@ is Object,
    ensures
        r.valid(),
        r@ == opening(EXTERNAL_MODEL@, known@),
{
    Scenario::open(EXTERNAL_MODEL.as_slice(), known)
}

/// How the evidence of a model ends: fixture evidence never qualifies.
pub open spec fn model_end(fixture: bool) -> Seq<Line> {
    if fixture {
        MODEL_FIXTURE@
    } else {
        MODEL_REAL@
    }
}

/// The evidence of a model run that succeeded.
pub open spec fn model_script(fixture: bool) -> Seq<Line> {
    EXTERNAL_MODEL_COMPLETED@ + model_end(fixture)
}

/// Whether the judgement of a model's result has an attempt.
pub open spec fn was_judged(completed: Tree) -> bool {
    element_with(items(completed, "nodes"@), "node_id"@, Tree::Text("model-acceptance"@)) matches Some(
        node,
    ) && at(node, "latest_attempt_id"@) is Text
}

/// What follows a terminal model run: the evidence of a success, or the reason of a failure.
pub open spec fn model_continuation(fixture: bool, completed: Tree) -> Seq<Line> {
    if at(completed, "terminal"@) == Tree::Text("succeeded"@) {
        model_script(fixture)
    } else if was_judged(completed) {
        EXTERNAL_MODEL_JUDGED@
    } else {
        EXTERNAL_MODEL_FAILED@
    }
}

pub fn finish_model_scenario(fixture: bool, completed: &Json, known: Json) -> (r: Scenario)
    requires
        known@ is Object,
    ensures
        r.valid(),
        r@ == opening(model_continuation(fixture, completed@), known@),
{
    if !completed.is_text("terminal", "succeeded") {
        let judged: bool = match completed.item_with("nodes", "node_id", "model-acceptance") {
            Some(node) => node.text_at("latest_attempt_id").is_some(),
            None => false,
        };
        if judged {
            Scenario::open(EXTERNAL_MODEL_JUDGED.as_slice(), known)
        } else {
            Scenario::open(EXTERNAL_MODEL_FAILED.as_slice(), known)
        }
    } else if fixture {
        Scenario::ending(EXTERNAL_MODEL_COMPLETED.as_slice(), MODEL_FIXTURE.as_slice(), known)
    } else {
        Scenario::ending(EXTERNAL_MODEL_COMPLETED.as_slice(), MODEL_REAL.as_slice(), known)
    }
}

} // verus!
