//! The documents that the scenarios hand out, one script each.

use vstd::prelude::*;

use crate::application::document_result;
use crate::failure::Checked;
use crate::json::Json;
use crate::scenario::{build, document, document_of, listed_document, Line};

verus! {

/// The deterministic evidence process profile. Known before: `profile_id`, `capability`,
/// `side_effect`, `executable`, `executable_root`, `content_digest`, `size_bytes`, `argument`,
/// `directory`, `platform` and the name of the `stdout` artifact.
pub const PROCESS_PROFILE: &'static str = "
tell document,schema_version 2
put document,profile,profile_id profile_id
tell document,profile,revision 1
put document,profile,capability capability
tell document,profile,descriptor_revision 1
mark document,profile,provider_profile null
say document,profile,operation process.execute
put document,profile,side_effect side_effect
say document,profile,idempotency unsupported
say document,profile,cancellation best_effort
say document,profile,trust_class trusted_host_process
put document,profile,executable executable
put document,profile,implementation,content_digest content_digest
put document,profile,implementation,size_bytes size_bytes
say document,profile,implementation,package_revision headless-cli-evidence-v1
say document,profile,implementation,documentation_reference urn:milkdrift:headless-cli-evidence
gather document,profile,arguments argument
void document,profile,substitutions
say document,profile,working_directory,type isolated_root
put part1,path executable_root
say part1,access execute
put part2,path directory
say part2,access read_write
gather document,profile,filesystem_roots part1 part2
gather document,profile,inputs
gather document,profile,environment,allowed_non_secret
void document,profile,environment,secrets
tell document,profile,environment,max_value_bytes 4096
say document,profile,stdin,type disabled
tell document,profile,stdout,max_capture_bytes 4096
mark document,profile,stdout,stream_progress false
tell document,profile,stdout,max_progress_events 0
say document,profile,stdout,overflow_action terminate
put document,profile,stdout,artifact_name stdout
tell document,profile,stderr,max_capture_bytes 4096
mark document,profile,stderr,stream_progress false
tell document,profile,stderr,max_progress_events 0
say document,profile,stderr,overflow_action terminate
mark document,profile,stderr,artifact_name null
gather document,profile,outputs
tell document,profile,limits,max_argv_entries 8
tell document,profile,limits,max_argv_bytes 4096
tell document,profile,limits,max_children_observed 4
tell document,profile,limits,max_files 8
tell document,profile,limits,max_file_bytes 1048576
tell document,profile,limits,max_total_materialized_bytes 2097152
tell document,profile,limits,max_path_bytes 4096
tell document,profile,limits,max_directory_depth 16
tell document,profile,limits,artifact_chunk_bytes 65536
tell document,profile,limits,max_output_files 4
tell document,profile,limits,max_total_output_bytes 2097152
tell document,profile,limits,wall_timeout_ms 10000
tell document,profile,limits,graceful_termination_ms 100
tell document,profile,limits,forced_termination_ms 100
tell document,profile,limits,heartbeat_interval_ms 100
say document,profile,restart retain_uncertain
put document,profile,platform platform
tell document,profile,max_concurrent 1
void document,profile,extensions
";

/// The profile of a process that writes one text of evidence. Known before: as for
/// `PROCESS_PROFILE`.
pub const TEXT_EVIDENCE_PROFILE: &'static str = "
tell document,schema_version 2
put document,profile,profile_id profile_id
tell document,profile,revision 1
put document,profile,capability capability
tell document,profile,descriptor_revision 1
mark document,profile,provider_profile null
say document,profile,operation process.execute
say document,profile,side_effect read_only
say document,profile,idempotency unsupported
say document,profile,cancellation best_effort
say document,profile,trust_class trusted_host_process
put document,profile,executable executable
put document,profile,implementation,content_digest content_digest
put document,profile,implementation,size_bytes size_bytes
say document,profile,implementation,package_revision local-model-evidence-v1
say document,profile,implementation,documentation_reference urn:milkdrift:local-model-evidence
gather document,profile,arguments argument
void document,profile,substitutions
say document,profile,working_directory,type isolated_root
put part1,path executable_root
say part1,access execute
put part2,path directory
say part2,access read_write
gather document,profile,filesystem_roots part1 part2
gather document,profile,inputs
gather document,profile,environment,allowed_non_secret
void document,profile,environment,secrets
tell document,profile,environment,max_value_bytes 4096
say document,profile,stdin,type disabled
tell document,profile,stdout,max_capture_bytes 4096
mark document,profile,stdout,stream_progress false
tell document,profile,stdout,max_progress_events 0
say document,profile,stdout,overflow_action terminate
mark document,profile,stdout,artifact_name null
tell document,profile,stderr,max_capture_bytes 4096
mark document,profile,stderr,stream_progress false
tell document,profile,stderr,max_progress_events 0
say document,profile,stderr,overflow_action terminate
mark document,profile,stderr,artifact_name null
say part3,name evidence
say part3,relative_path evidence.txt
say part3,media_type text/plain
mark part3,required true
gather document,profile,outputs part3
tell document,profile,limits,max_argv_entries 8
tell document,profile,limits,max_argv_bytes 4096
tell document,profile,limits,max_children_observed 4
tell document,profile,limits,max_files 8
tell document,profile,limits,max_file_bytes 1048576
tell document,profile,limits,max_total_materialized_bytes 2097152
tell document,profile,limits,max_path_bytes 4096
tell document,profile,limits,max_directory_depth 16
tell document,profile,limits,artifact_chunk_bytes 65536
tell document,profile,limits,max_output_files 4
tell document,profile,limits,max_total_output_bytes 2097152
tell document,profile,limits,wall_timeout_ms 10000
tell document,profile,limits,graceful_termination_ms 100
tell document,profile,limits,forced_termination_ms 100
tell document,profile,limits,heartbeat_interval_ms 100
say document,profile,restart retain_uncertain
put document,profile,platform platform
tell document,profile,max_concurrent 1
mark document,profile,extensions,org.milkdrift/local-model-fixture,deterministic true
";

/// The profile of a loopback model endpoint. Known before: `identity`, `base_url` and `model`.
pub const MODEL_PROFILE: &'static str = "
tell document,schema_version 1
put document,identity identity
tell document,revision 1
say document,protocol,type open_ai_compatible
say document,protocol,path v1/chat/completions
put document,base_url base_url
put document,model model
say document,auth,type no_auth
tell document,limits,connect_timeout_ms 2000
tell document,limits,request_timeout_ms 10000
tell document,limits,idle_timeout_ms 5000
tell document,limits,max_headers 64
tell document,limits,max_header_bytes 16384
tell document,limits,max_request_bytes 1048576
tell document,limits,max_response_bytes 1048576
tell document,limits,max_stream_line_bytes 65536
tell document,limits,max_stream_event_bytes 131072
tell document,limits,max_fragment_bytes 4096
say document,redirect deny
say document,tls web_pki_roots
say document,proxy disabled
names document,features streaming system_role
tell document,max_concurrent 1
mark document,local_development true
names document,allowed_hosts 127.0.0.1
names document,trust_zones local-model-evidence
void document,provider_options
";

/// What an evidence daemon is configured with beside its defaults. Known before: the `data_root`,
/// the loopback `bind`, the `token_file`, the `secret_sources`, the `actor`, its `authority`, the
/// lease and the profiles.
pub const DAEMON_CONFIG: &'static str = "
say credential,type file
put credential,path token_file
put secret_sources,credential:headless-cli credential
put document,data_root data_root
put document,bind bind
put document,secret_sources secret_sources
say document,actor,credential_ref credential:headless-cli
put document,actor,actor actor
say document,actor,grant_id grant:headless-cli-evidence
tell document,actor,grant_revision 1
tell document,actor,revocation_generation 0
say document,actor,preset controller
put document,actor,authority authority
mark document,actor,enabled true
tell document,runtime,request_queue 8
tell document,runtime,maintenance_interval_ms 10
put document,runtime,lease_duration_ms lease_duration_ms
tell document,runtime,effect_threads 1
tell document,runtime,effect_queue 8
tell document,runtime,cancellation_queue 8
put document,adapters,process_profiles process_profiles
put document,adapters,model_profiles model_profiles
tell document,shutdown,deadline_ms 1000
say document,shutdown,effect_policy retain
tell document,application_receipts,hot_receipt_bound 1000
tell document,application_receipts,archive_batch_size 64
tell document,security_audit_record_bound 1000
";

/// The remediation that follows a failed verification. Known before: the paused run's
/// `observed_sequence` and the `verification` of the sequence's first stage.
pub const REMEDIATION_PROPOSAL: [Line; 9] = [
    ("say", "document,run", "run-external-process", ""),
    ("put", "document,observed_sequence", "observed_sequence", ""),
    ("say", "document,proposal", "proposal-external-remediation-1", ""),
    ("say", "document,proposer", "human:external-process", ""),
    ("say", "document,stage_id", "repair", ""),
    ("tell", "document,generation", "1", ""),
    ("say", "document,prompt", "In a fresh process, inspect the current accepted repository state, make only any remaining bounded repair needed for the unittest, run it, and do not commit.\n", ""),
    ("put", "document,verification", "verification", ""),
    ("say", "document,verification,profile,capability", "evidence-verifier-good", ""),
];

/// The report of external evidence. Known before: the `schema_version`, the moment
/// `generated_at_unix_ms`, the `platform`, the `milkdrift` source, the `configuration_digest`, the
/// `validation` steps, the `process` and the `model` evidence, and what the run came to: its
/// `fixture_mode`, its `failure_reason` and whether it is `qualifying`.
pub const EXTERNAL_REPORT: [Line; 16] = [
    ("put", "document,schema_version", "schema_version", ""),
    ("put", "document,generated_at_unix_ms", "generated_at_unix_ms", ""),
    ("put", "document,platform", "platform", ""),
    ("put", "document,milkdrift", "milkdrift", ""),
    ("put", "document,configuration_digest", "configuration_digest", ""),
    ("put", "document,process", "process", ""),
    ("put", "document,model", "model", ""),
    ("put", "document,validation", "validation", ""),
    ("say", "redaction,secrets", "secret values and authorization headers", ""),
    ("say", "redaction,texts", "complete prompts and model/process outputs", ""),
    ("say", "redaction,files", "private repository file contents", ""),
    ("say", "redaction,endpoints", "endpoint paths, queries, fragments, and user information", ""),
    ("gather", "document,redactions", "redaction,secrets redaction,texts redaction,files redaction,endpoints", ""),
    ("put", "document,fixture_mode", "fixture_mode", ""),
    ("put", "document,failure_reason", "failure_reason", ""),
    ("put", "document,qualifying", "qualifying", ""),
];

/// What the daemon of the external scenarios is configured with beside its defaults. Known before:
/// the `data_root`, the loopback `bind`, the `secret_sources`, the two token files, the two grants,
/// the process `profiles`, the `model_capability` and the `model_profile`.
pub const EXTERNAL_CONFIG: &'static str = "
say process_credential,type file
put process_credential,path process_token
put secret_sources,credential:external-process process_credential
say model_credential,type file
put model_credential,path model_token
put secret_sources,credential:external-model model_credential
put document,data_root data_root
put document,bind bind
put document,secret_sources secret_sources
say part1,credential_ref credential:external-process
say part1,actor human:external-process
say part1,grant_id grant:external-process
tell part1,grant_revision 1
tell part1,revocation_generation 0
say part1,preset controller
put part1,authority process_grant
mark part1,enabled true
say part2,credential_ref credential:external-model
say part2,actor human:external-model
say part2,grant_id grant:external-model
tell part2,grant_revision 1
tell part2,revocation_generation 0
say part2,preset controller
put part2,authority model_grant
mark part2,enabled true
gather document,actors part1 part2
tell document,runtime,maintenance_interval_ms 10
put document,adapters,process_profiles profiles
put part3,capability_id model_capability
put part3,profile model_profile
gather document,adapters,model_profiles part3
tell document,shutdown,deadline_ms 30000
say document,shutdown,effect_policy retain
tell document,application_receipts,hot_receipt_bound 1000
tell document,application_receipts,archive_batch_size 64
tell document,security_audit_record_bound 2000
";

/// What the measured daemon is configured with beside its defaults. Known before: the `data_root`,
/// the loopback `bind`, the `token_file`, the `authority` and the bound of the `request_queue`.
pub const OPERATIONAL_CONFIG: &'static str = "
put document,data_root data_root
put document,bind bind
say document,secret_sources,credential:evidence,type file
put document,secret_sources,credential:evidence,path token_file
say part1,credential_ref credential:evidence
say part1,actor system:operational-evidence
say part1,grant_id grant:operational-evidence
tell part1,grant_revision 1
tell part1,revocation_generation 0
say part1,preset controller
put part1,authority authority
mark part1,enabled true
gather document,actors part1
put document,runtime,request_queue request_queue
tell document,runtime,maintenance_interval_ms 10
tell document,application_receipts,hot_receipt_bound 128
tell document,application_receipts,archive_batch_size 16
tell document,security_audit_record_bound 256
";

/// The report of a local model's run. Known before: the `mode`, the model's `capability` and
/// `facts`, the successful `attempt`, the `entries` that were counted, the `observation` and the
/// `uncertain_attempt`.
pub const LOCAL_MODEL_REPORT: [Line; 36] = [
    ("tell", "document,schema_version", "1", ""),
    ("say", "document,kind", "local_model_smoke", ""),
    ("put", "document,mode", "mode", ""),
    ("put", "document,model,capability", "capability", ""),
    ("put", "document,model,profile", "facts,profile_id", ""),
    ("put", "document,model,profile_revision", "facts,revision", ""),
    ("put", "document,model,protocol", "facts,protocol", ""),
    ("put", "document,model,model_alias", "facts,model_alias", ""),
    ("put", "document,model,endpoint_origin", "facts,endpoint_origin", ""),
    ("say", "document,success,run", "run-local-model-dogfood", ""),
    ("put", "document,success,attempt", "attempt", ""),
    ("tell", "document,success,attempt_count", "1", ""),
    ("put", "document,success,adapter_entry_count_observed", "entries", ""),
    ("say", "document,success,terminal", "success", ""),
    ("say", "document,success,side_effect", "unknown", ""),
    ("say", "document,success,idempotency", "unsupported", ""),
    ("say", "document,success,cancellation", "best_effort", ""),
    ("mark", "document,success,selected_context_observed", "true", ""),
    ("mark", "document,success,omitted_context_observed", "true", ""),
    ("put", "document,success,progress_observations", "observation,progress", ""),
    ("put", "document,success,usage_input_supplied", "observation,usage_input", ""),
    ("put", "document,success,usage_output_supplied", "observation,usage_output", ""),
    ("put", "document,success,finish_reason_supplied", "observation,finish_reason", ""),
    ("put", "document,success,response_identity_supplied", "observation,response_identity", ""),
    ("put", "document,success,artifact_count", "observation,artifacts", ""),
    ("mark", "document,success,restart_duplicate_free", "true", ""),
    ("say", "document,uncertainty,run", "run-local-model-uncertainty", ""),
    ("put", "document,uncertainty,attempt", "uncertain_attempt", ""),
    ("tell", "document,uncertainty,adapter_entry_count", "1", ""),
    ("mark", "document,uncertainty,automatic_retry_refused", "true", ""),
    ("mark", "document,uncertainty,authorized_retry_refused", "true", ""),
    ("mark", "document,uncertainty,retained", "true", ""),
    ("mark", "document,uncertainty,restart_duplicate_free", "true", ""),
    ("say", "document,strict_external_evidence,reason", "model-only smoke never qualifies the combined real-agent and real-model gate", ""),
    ("mark", "document,strict_external_evidence,run", "false", ""),
    ("mark", "document,qualifying", "false", ""),
];

/// The maintained configuration with the scenario's own coordinates and authority. Known before:
/// the `config`, the `bind`, the `actor`, the model's `address`, the `filesystem` scopes, the
/// process `profiles` and the `model_profile`.
pub const HEADLESS_CONFIG: &'static str = "
keep document config
put document,bind bind
void document,secret_sources
say document,secret_sources,credential:operator,type file
say document,secret_sources,credential:operator,path operator.token
put document,actors,#0,actor actor
mark document,actors,#0,authority,dangerous_allow_broad_authority true
void document,actors,#0,authority,resources,workflow_run
say document,actors,#0,authority,resources,workflow_run,type any
void document,actors,#0,authority,resources,capability
say document,actors,#0,authority,resources,capability,type allow
say document,actors,#0,authority,resources,capability,maximum_side_effect unknown
say document,actors,#0,authority,resources,capability,identities,type any
say document,actors,#0,authority,resources,capability,categories,type any
say document,actors,#0,authority,resources,capability,operations,type any
say document,actors,#0,authority,resources,capability,provider_profiles,type any
say document,actors,#0,authority,resources,capability,trust_zones,type any
say document,actors,#0,authority,resources,capability,execution_trust_classes,type any
say document,actors,#0,authority,resources,capability,localities,type any
say document,actors,#0,authority,resources,capability,peers,type any
void document,actors,#0,authority,resources,artifacts
say document,actors,#0,authority,resources,artifacts,type allow
say document,actors,#0,authority,resources,artifacts,identities,type any
names document,actors,#0,authority,resources,artifacts,sensitivities public internal restricted
void document,actors,#0,authority,resources,layouts
say document,actors,#0,authority,resources,layouts,type shared
say document,actors,#0,authority,resources,layouts,revisions,type any
void document,actors,#0,authority,resources,workspace
gather document,actors,#0,authority,resources,workspace,scopes
mark document,actors,#0,authority,resources,workspace,allow_any_in_run true
void document,actors,#0,authority,resources,network
names document,actors,#0,authority,resources,network,profiles local-model-loopback
gather document,actors,#0,authority,resources,network,destinations address
put document,actors,#0,authority,resources,filesystem filesystem
void document,adapters
put document,adapters,process_profiles profiles
say part1,capability_id operator-model
put part1,profile model_profile
gather document,adapters,model_profiles part1
tell document,runtime,lease_duration_ms 5000
tell document,runtime,maintenance_interval_ms 10
";

/// The maintained safe configuration with new coordinates only. Known before: the `config` and the
/// `bind`.
pub const STARTER_CONFIG: &'static str = "
keep document config
put document,bind bind
void document,secret_sources
say document,secret_sources,credential:operator,type file
say document,secret_sources,credential:operator,path operator.token
";

/// The review profile of a controlled fixture. Known before: the `profile` and its `base_url`.
pub const REVIEW_FIXTURE_PROFILE: &'static str = "
keep document profile
put document,base_url base_url
say document,model operator-model
void document,billing
say document,billing,type unbilled
say document,billing,source controlled fixture v1, no provider charge
void document,token_limits
say document,token_limits,type byte_bpe
tell document,token_limits,template_tokens_per_message 64
tell document,token_limits,template_tokens_per_request 64
tell document,token_limits,maximum_input_tokens 32768
tell document,token_limits,maximum_output_tokens 4096
say document,token_limits,output_control max_tokens
say document,token_limits,source controlled text fixture v1; complete input counted once, one capped choice
";

/// The review step of the controller. Known before: the `template`, the `name`, the `source` step,
/// the profile's `identity`, the default context `policy` and the `question`.
pub const REVIEW_TASK: &'static str = "
keep document template
put document,id name
names document,control_inputs in
say document,kind,config,requirement,exact_capability controller-review
put document,kind,config,requirement,provider_profile identity
gather document,kind,config,requirement,trust_zones
put document,kind,config,context_policy policy
mark document,kind,config,context_policy,include_direct_inputs false
gather document,kind,config,context_policy,include_categories
gather document,kind,config,context_policy,selected_nodes source
tell document,data_inputs,milkdrift.model_task,binding,value,request,maximum_output_units 4096
put document,data_inputs,milkdrift.model_task,binding,value,request,messages,#0,parts,#0,text question
";

/// One local agent profile of the controller. Known before: the `profile`, the `name`, the
/// `repository` and the `directory`.
pub const AGENT_PROFILE_DOCUMENT: &'static str = "
keep document profile
put document,profile,profile_id name
put document,profile,capability name
void document,profile,working_directory
say document,profile,working_directory,type authorized_host_path
put document,profile,working_directory,path repository
put root,path directory
say root,access read_write
add document,profile,filesystem_roots root | agent roots absent
tell document,profile,limits,wall_timeout_ms 300000
say document,profile,stdout,artifact_name stdout
mark document,profile,stderr,artifact_name null
";

/// The process profile of the independent scenario. Known before: the `profile` and the `marker`.
pub const INDEPENDENT_PROFILE: &'static str = "
keep document profile
say flag --fixture-independent
gather document,profile,arguments flag marker
say part1,input source
say part1,relative_path source.txt
gather document,profile,inputs part1
void document,profile,stdin
say document,profile,stdin,type input
say document,profile,stdin,input source
tell document,profile,stdin,max_bytes 4096
";

/// The unbilled model profile of the independent scenario. Known before: the `profile`.
pub const INDEPENDENT_MODEL_PROFILE: &'static str = "
keep document profile
void document,billing
say document,billing,type unbilled
say document,billing,source deterministic fixture performs no provider billing
void document,token_limits
say document,token_limits,type byte_bpe
tell document,token_limits,template_tokens_per_message 32
tell document,token_limits,template_tokens_per_request 64
tell document,token_limits,maximum_input_tokens 65536
tell document,token_limits,maximum_output_tokens 4096
say document,token_limits,output_control max_tokens
say document,token_limits,source deterministic fixture response is one bounded token sequence
tell document,limits,max_request_bytes 65536
tell document,limits,max_response_bytes 65536
";

/// The peer relationship of the remote scenario. Known before: the peer's `peer_id` and
/// `endpoint`, the `filesystem` scopes and the network `destinations`.
pub const INDEPENDENT_RELATIONSHIP: &'static str = "
put document,peer_id peer_id
put document,endpoint endpoint
say document,credential_ref credential:peer
mark document,insecure_loopback_development true
names document,actions read_catalog invoke cancel artifact_upload artifact_download
names document,capability_allow independent-process operator-model
gather document,capability_deny
names document,operation_allow process.execute model.generate
say document,maximum_side_effect unknown
put document,execution_filesystem filesystem
names document,execution_network_profiles local-model-loopback
put document,execution_network_destinations destinations
tell document,maximum_artifact_bytes 16777216
names document,artifact_sensitivities public internal restricted
tell document,maximum_duration_ms 300000
tell document,maximum_input_units 65536
tell document,maximum_output_units 4096
tell document,maximum_observations 4096
tell document,maximum_requests_per_minute 10000
tell document,catalog_ttl_ms 300000
say document,trust_zone binary-peer
say document,delegation_ref delegation:binary-peer
tell document,expires_at_unix_ms 4102444800000
";

/// The requirement of the managed worker.
pub const SLOTBOOK_REQUIREMENT: &'static str = "
mark document,cancellation_required false
say part1,type process
gather document,categories part1
say document,exact_capability managed.slotbook-build.worker
say document,maximum_side_effect non_idempotent_write
say document,operation workspace.execute
mark document,provider_profile null
gather document,required_features
mark document,streaming null
gather document,trust_zones
";

/// The effect policy of the protected target. Known before: the `verifier` digest.
pub const SLOTBOOK_POLICY: &'static str = "
tell document,schema_version 1
names document,required_checks public-availability authenticated-mutation capacity-and-intervals durable-bookings cancellation-policy exact-deployment
put document,verifier verifier
say document,producer trusted:slotbook-verifier
tell document,maximum_candidate_bytes 4194304
tell document,validity_ms 3600000
";

/// The region that a repair may edit. Known before: the `requirement`.
pub const SLOTBOOK_SCOPE: &'static str = "
say document,node_prefix repair.
tell document,maximum_nodes 8
tell document,maximum_revisions 4
gather document,requirements requirement
";

/// The recipe of the protected service. Known before: the `image`, the token and clock files, the
/// `token_digest`, the `agreement`, the `policy`, the verifier and its digest.
pub const SLOTBOOK_PROTECTED_RECIPE: &'static str = "
tell document,schema_version 2
say document,kind protected_service
say document,name slotbook-test
put document,image image
tell document,limits,memory_bytes 536870912
tell document,limits,cpu_percent 100
tell document,limits,pids 64
tell document,limits,temporary_bytes 16777216
tell document,startup_ms 30000
tell document,shutdown_ms 10000
tell document,port 19848
say document,application,resource pottery
tell document,application,capacity 2
put document,token_file token_file
put document,token_digest token_digest
put document,clock_file clock_file
put document,agreement agreement
put document,policy policy
put document,verifier_executable verifier
put document,verifier_digest verifier_digest
tell document,verification_timeout_ms 180000
say document,data_disposition preserve
";

/// The recipe of the managed worker. Known before: the `image`.
pub const SLOTBOOK_WORKER_RECIPE: &'static str = "
tell document,schema_version 2
say document,name slotbook-build
put document,worker_image image
say document,worker_network none
tell document,worker_limits,memory_bytes 536870912
tell document,worker_limits,cpu_percent 100
tell document,worker_limits,pids 64
tell document,worker_limits,temporary_bytes 16777216
tell document,task_timeout_ms 30000
tell document,output_bytes 4194304
tell document,minimum_free_bytes 16777216
say document,data_disposition preserve
say document,model_service,type disabled
";

/// The bootstrap configuration with the qualification's role, coordinates and recipes. Known
/// before: the `config`, the `bind` and both recipe paths.
pub const SLOTBOOK_SESSION_CONFIG: &'static str = "
keep document config
say document,role workflow_enabled
put document,bind bind
say document,actors,#0,actor agent:repair
tell document,actors,#0,authority,budget,artifact_bytes 134217728
gather document,adapters,managed_linux,recipes protected_recipe worker_recipe
say build managed.slotbook-build
add document,actors,#0,authority,resources,capability,identities,values build | bootstrap capability scope absent
say build managed.slotbook-build.worker
add document,actors,#0,authority,resources,capability,identities,values build | bootstrap capability scope absent
tell document,serving,clients,execution_limits,artifact_bytes 134217728
";

/// The configuration of a published method and its consumer. Known before: the `config` and the
/// consumer's `credential` file.
pub const PUBLICATION_CONFIG: &'static str = "
keep document config
object document,runtime | runtime config absent
tell document,runtime,effect_threads 1
tell document,runtime,effect_queue 1
tell document,runtime,global_concurrency 1
tell document,runtime,per_run_concurrency 1
tell document,runtime,per_capability_concurrency 1
tell document,runtime,per_branch_concurrency 1
tell document,runtime,maximum_effect_claim 1
say document,runtime,controller_activation enabled
void document,runtime,publication_services
say document,runtime,publication_services,method:slotbook grant:operator
tell document,serving,worker_threads 1
tell document,serving,observation_hot_retention_ms 100
void document,serving,clients,execution_limits,nested_invocations
tell document,serving,clients,execution_limits,nested_invocations,process 8
tell document,serving,clients,execution_limits,nested_invocations,model 0
tell document,serving,clients,execution_limits,artifact_bytes 134217728
say entry method:slotbook
add document,actors,#0,authority,resources,capability,identities,values entry | capability identities absent
say entry method.publish
add document,actors,#0,authority,resources,capability,operations,values entry | capability operations absent
say entry method.inspect
add document,actors,#0,authority,resources,capability,operations,values entry | capability operations absent
say entry method.retire
add document,actors,#0,authority,resources,capability,operations,values entry | capability operations absent
say entry method.invoke
add document,actors,#0,authority,resources,capability,operations,values entry | capability operations absent
keep consumer document,actors,#0
say consumer,actor human:consumer
say consumer,credential_ref credential:consumer
say consumer,grant_id grant:consumer
say consumer,preset invoker
names consumer,authority,resources,capability,identities,values method:slotbook
names consumer,authority,resources,capability,operations,values method.invoke
void consumer,authority,resources,artifacts
say consumer,authority,resources,artifacts,type deny_all
gather consumer,authority,resources,filesystem
void consumer,authority,resources,workspace
mark consumer,authority,resources,workspace,allow_any_in_run false
gather consumer,authority,resources,workspace,scopes
gather consumer,authority,resources,secrets
add document,actors consumer | actors absent
void document,secret_sources,credential:consumer
say document,secret_sources,credential:consumer,type file
put document,secret_sources,credential:consumer,path credential
";

/// The worker's descriptor as that of the published method. Known before: the worker's
/// `descriptor`.
pub const PUBLISHED_DESCRIPTOR: &'static str = "
keep document descriptor
say document,identity method:slotbook
tell document,descriptor_revision 1
void document,category
say document,category,type tool
keep execute document,operations,workspace.execute
void document,operations
put document,operations,method.invoke execute
";

/// The published method. Known before: its `descriptor`, the `revision` and the service's
/// `authority`.
pub const PUBLISHED_METHOD: &'static str = "
tell document,schema_version 1
put document,descriptor descriptor
say document,documentation Verify and deploy the governed Slotbook candidate to the fixed test installation. A successful invocation confirms the internal agreement; application service state remains separately inspectable.
put document,revision revision,id
put document,agreement revision,semantic,agreement,digest
put document,service,actor authority,actor
put document,service,grant authority,grant_id
put document,service,grant_revision authority,grant_revision
put document,service,grant_digest authority,grant_digest
tell document,service,revocation_generation 0
void document,inputs
void document,outputs
tell document,workspace_budget,max_value_versions 1024
tell document,workspace_budget,max_inline_bytes_per_value 65536
tell document,workspace_budget,max_total_inline_bytes 1048576
tell document,workspace_budget,max_artifacts 256
tell document,workspace_budget,max_bytes_per_artifact 33554432
tell document,workspace_budget,max_total_artifact_bytes 134217728
tell document,allowance,cost_micros 0
mark document,allowance,currency null
tell document,allowance,input_units 0
tell document,allowance,output_units 0
tell document,allowance,artifact_bytes 134217728
tell document,allowance,process_admissions 8
tell document,allowance,model_admissions 0
tell document,maximum_outstanding 1
tell document,maximum_depth 4
tell document,maximum_duration_ms 240000
";

/// The step of another workflow that invokes the published method. Known before: the internal
/// `task` and the `capability`.
pub const OUTER_TASK: &'static str = "
keep document task
say document,id invoke-method
gather document,control_inputs
void document,data_inputs
void document,data_outputs
say part1,type tool
gather document,kind,config,requirement,categories part1
put document,kind,config,requirement,exact_capability capability
say document,kind,config,requirement,operation method.invoke
";

/// The same step, placed on the peer. Known before: the `task`.
pub const OUTER_PEER_TASK: &'static str = "
keep document task
void document,kind,config,requirement,placement
names document,kind,config,requirement,placement,localities peer
names document,kind,config,requirement,placement,peers host:slotbook-test
";

/// A peer relationship of the qualification. Known before: the `peer` and its `endpoint`.
pub const PEER_RELATIONSHIP: &'static str = "
put document,peer_id peer
put document,endpoint endpoint
say document,credential_ref credential:peer
mark document,insecure_loopback_development true
tell document,minimum_minor 5
tell document,maximum_minor 5
names document,actions read_catalog invoke cancel artifact_upload artifact_download
names document,capability_allow method:slotbook
gather document,capability_deny
names document,operation_allow method.invoke
say document,maximum_side_effect non_idempotent_write
tell document,maximum_concurrent 1
tell document,maximum_requests_per_minute 6000
tell document,maximum_artifact_bytes 134217728
names document,artifact_sensitivities internal restricted
tell document,maximum_duration_ms 240000
tell document,maximum_cost_micros 0
tell document,maximum_input_units 0
tell document,maximum_output_units 0
tell document,nested_invocations,process 8
tell document,nested_invocations,model 0
tell document,maximum_observations 256
tell document,catalog_ttl_ms 300000
say document,trust_zone slotbook-qualification
say document,delegation_ref delegation:slotbook
tell document,expires_at_unix_ms 4102444800000
mark document,enabled true
";

/// The provider's configuration with its peer. Known before: the `config`, the `credential` file
/// and the `relationship`.
pub const PEER_PROVIDER_CONFIG: &'static str = "
keep document config
void document,secret_sources,credential:peer
say document,secret_sources,credential:peer,type file
put document,secret_sources,credential:peer,path credential
void document,peers
say document,peers,mode enabled
gather document,peers,relationships relationship
";

/// The origin's configuration. Known before: the provider's `config`, the `data_root`, the `bind`,
/// the `relationship` and the provider's `destination`.
pub const PEER_ORIGIN_CONFIG: &'static str = "
keep document config
say document,host_id host:slotbook-caller
put document,data_root data_root
put document,bind bind
void document,runtime,publication_services
void document,adapters
gather document,adapters,process_profiles
gather document,adapters,model_profiles
gather document,peers,relationships relationship
keep origin document,actors,#0
gather document,actors origin
void document,actors,#0,authority,resources,capability,identities
say document,actors,#0,authority,resources,capability,identities,type any
void document,actors,#0,authority,resources,capability,operations
say document,actors,#0,authority,resources,capability,operations,type only
names document,actors,#0,authority,resources,capability,operations,values method.invoke
gather document,actors,#0,authority,resources,filesystem
void document,actors,#0,authority,resources,network
names document,actors,#0,authority,resources,network,profiles peer:host:slotbook-test
gather document,actors,#0,authority,resources,network,destinations destination
void document,actors,#0,authority,resources,peers
mark document,actors,#0,authority,resources,peers,allow_any false
names document,actors,#0,authority,resources,peers,identities host:slotbook-test
";

/// The allowance of the paired evaluation.
pub const LEARNING_BUDGET: &'static str = "
tell document,cost_micros 0
mark document,currency null
tell document,input_units 200000
tell document,output_units 60000
tell document,artifact_bytes 268435456
tell document,process_admissions 100
tell document,model_admissions 20
";

/// The learning operator. Known before: the first `actor`, the model's `identity` and its
/// `destination`.
pub const LEARNING_OPERATOR: &'static str = "
keep document actor
say document,actor human:learning-operator
say document,grant_id grant:learning-operator
say document,credential_ref credential:learning-operator
void document,authority,resources,capability,identities
say document,authority,resources,capability,identities,type any
void document,authority,resources,capability,operations
say document,authority,resources,capability,operations,type any
tell document,authority,budget,artifact_bytes 272711680
tell document,authority,budget,duration_ms 3600000
void document,authority,resources,network
gather document,authority,resources,network,profiles identity
gather document,authority,resources,network,destinations destination
";

/// The evaluator. Known before: the learning `operator`.
pub const LEARNING_EVALUATOR: &'static str = "
keep document operator
say document,actor agent:slotbook-evaluator
say document,grant_id grant:slotbook-evaluator
say document,credential_ref credential:slotbook-evaluator
void document,authority,resources,capability,operations
say document,authority,resources,capability,operations,type only
names document,authority,resources,capability,operations,values learning.inspect learning.compare learning.auto_promote resource.evidence resource.inspect
";

/// The learner, which reads only the selected artifacts. Known before: the learning `operator` and
/// the `artifacts`.
pub const LEARNING_LEARNER: &'static str = "
keep document operator
say document,actor agent:slotbook-learner
say document,preset advisor
say document,grant_id grant:slotbook-learner
say document,credential_ref credential:slotbook-learner
void document,authority,resources,artifacts,identities
say document,authority,resources,artifacts,identities,type only
put document,authority,resources,artifacts,identities,values artifacts
void document,authority,resources,capability,identities
say document,authority,resources,capability,identities,type any
void document,authority,resources,capability,operations
say document,authority,resources,capability,operations,type only
names document,authority,resources,capability,operations,values learning.candidate learning.inspect workflow.propose workspace.execute resource.evaluate_candidate
gather document,authority,resources,filesystem
void document,authority,resources,network
gather document,authority,resources,network,profiles
gather document,authority,resources,network,destinations
";

/// The service of one slot. Known before: the learning `operator`, the `service`, its `grant` and
/// `credential`, and the identities of its `worker` and `target`.
pub const LEARNING_SERVICE: &'static str = "
keep document operator
put document,actor service
put document,grant_id grant
put document,credential_ref credential
void document,authority,resources,capability,identities
say document,authority,resources,capability,identities,type only
say part1 milkdrift.resources
gather document,authority,resources,capability,identities,values worker target part1
void document,authority,resources,capability,operations
say document,authority,resources,capability,operations,type only
names document,authority,resources,capability,operations,values workspace.execute resource.evaluate_candidate resource.evaluate resource.evidence resource.inspect
void document,authority,resources,network
gather document,authority,resources,network,profiles
gather document,authority,resources,network,destinations
";

/// The host's configuration for the study. Known before: the `config`, the `bind`, the `operator`
/// and `evaluator` actors, their credential files and the model `profile`.
pub const LEARNING_CONFIG: &'static str = "
keep document config
put document,bind bind
void document,secret_sources,credential:learning-operator
say document,secret_sources,credential:learning-operator,type file
put document,secret_sources,credential:learning-operator,path operator_token
add document,actors operator | actors absent
void document,secret_sources,credential:slotbook-evaluator
say document,secret_sources,credential:slotbook-evaluator,type file
put document,secret_sources,credential:slotbook-evaluator,path evaluator_token
add document,actors evaluator | actors absent
say part1,capability_id slotbook-learning-model
put part1,profile profile
gather document,adapters,model_profiles part1
tell document,serving,clients,execution_limits,artifact_bytes 272711680
tell document,serving,clients,execution_limits,duration_ms 3600000
void document,serving,clients,execution_limits,nested_invocations
tell document,serving,clients,execution_limits,nested_invocations,process 100
tell document,serving,clients,execution_limits,nested_invocations,model 20
say document,runtime,publication_services,method:slotbook-learning grant:learning-source
";

/// The worker recipe of one slot. Known before: the `recipe`, the `name` and the `image`.
pub const LEARNING_WORKER_RECIPE: &'static str = "
keep document recipe
put document,name name
put document,worker_image image
";

/// The target recipe of one slot. Known before: the `recipe`, the `name`, the `image`, the `port`,
/// the `application`, the `agreement`, the `policy` and the verifier with its digest.
pub const LEARNING_TARGET_RECIPE: &'static str = "
keep document recipe
put document,name name
put document,image image
put document,port port
put document,application application
put document,agreement agreement
put document,policy policy
put document,verifier_digest verifier_digest
put document,verifier_executable verifier
";

/// The published method of one slot. Known before: the `method`, the `capability`, the
/// `generation`, the `budget`, the `slot` and the three verification `commands`.
pub const LEARNING_METHOD: &'static str = "
keep document method
put document,descriptor,identity capability
put document,descriptor,descriptor_revision generation
say document,documentation Finite seeded Slotbook method: construct and inspect three candidate submissions under fixed protected checks. Published inputs and the service grant select one independent prepared product workspace. Passing this invocation is not automatic deployment.
put document,allowance budget
tell document,maximum_duration_ms 3600000
tell document,workspace_budget,max_total_artifact_bytes 268435456
say document,inputs,product,type artifact
say document,inputs,product,media_type application/json
tell document,inputs,product,maximum_bytes 16384
say document,inputs,target-1,type choice
tell part1,schema_version 3
put part1,command commands,#0
put part1,installation slot,target
put part1,expected_version slot,target_state,version
gather document,inputs,target-1,values part1
say document,inputs,target-2,type choice
tell part2,schema_version 3
put part2,command commands,#1
put part2,installation slot,target
put part2,expected_version slot,target_state,version
gather document,inputs,target-2,values part2
say document,inputs,target-3,type choice
tell part3,schema_version 3
put part3,command commands,#2
put part3,installation slot,target
put part3,expected_version slot,target_state,version
gather document,inputs,target-3,values part3
void document,outputs
say document,outputs,candidate,field candidate
say document,outputs,candidate,media_type application/octet-stream
tell document,outputs,candidate,maximum_bytes 4194304
say document,outputs,evaluation,field evaluation
say document,outputs,evaluation,media_type application/vnd.milkdrift.managed+json
tell document,outputs,evaluation,maximum_bytes 65536
";

/// The proposing step over exactly the selected sources. Known before: the `model` step with its
/// `inputs`, the profile's `identity`, the `prompt`, the `structured` output request, the rendered
/// `evidence` and the `output` port.
pub const PROPOSAL_MODEL: &'static str = "
keep document model
put document,data_inputs inputs
say document,kind,config,requirement,exact_capability slotbook-learning-model
put document,kind,config,requirement,provider_profile identity
gather document,kind,config,requirement,trust_zones
mark document,kind,config,context_policy,include_direct_inputs true
names document,kind,config,context_policy,include_categories direct_input
mark document,kind,config,context_policy,fail_closed true
put document,kind,config,context_policy,explicit_evidence evidence
say part1,type text
put part1,text prompt
say part2,role user
gather part2,parts part1
mark part2,tool_call_id null
gather document,data_inputs,milkdrift.model_task,binding,value,request,messages part2
tell document,data_inputs,milkdrift.model_task,binding,value,request,maximum_output_units 4096
mark document,data_inputs,milkdrift.model_task,binding,value,request,streaming false
void document,data_inputs,milkdrift.model_task,binding,value,request,extensions
say document,data_inputs,milkdrift.model_task,binding,value,request,extensions,org.milkdrift.openai/request,reasoning_effort none
put document,data_inputs,milkdrift.model_task,binding,value,request,structured_output structured
put document,data_outputs,structured_output output
";

/// The verifying process of the controller, which reads the work. Known before: the `profile`.
pub const CONTROLLER_VERIFY_PROFILE: &'static str = "
keep document profile
say part1,input work
say part1,relative_path work.txt
gather document,profile,inputs part1
";

/// A waiting process of the controller, which shows that it entered. Known before: the `profile`.
pub const CONTROLLER_WAITING_PROFILE: &'static str = "
keep document profile
tell document,profile,max_concurrent 3
tell document,profile,limits,wall_timeout_ms 30000
mark document,profile,stdout,stream_progress true
tell document,profile,stdout,max_progress_events 4
";

/// The endpoint profile whose metering is unknown. Known before: the `profile` and its `base_url`.
pub const METERING_PROFILE: &'static str = "
keep document profile
say document,identity controller-metering-fixture
put document,base_url base_url
say document,model operator-model
";

/// The step that asks an unmetered model. Known before: the `template`, the `capability` and the
/// profile's `identity`.
pub const METERED_TASK: &'static str = "
keep document template
put document,kind,config,requirement,exact_capability capability
put document,kind,config,requirement,provider_profile identity
";

/// The configuration of the controller and its approver. Known before: the `config`, the model
/// `adapters`, the network `profiles` and `destinations` and the `approver` credential.
pub const CONTROLLER_CONFIG: &'static str = "
keep document config
put document,adapters,model_profiles adapters
void document,actors,#0,authority,resources,network
put document,actors,#0,authority,resources,network,profiles profiles
put document,actors,#0,authority,resources,network,destinations destinations
keep own document,actors,#0
keep human own
say human,actor human:qualification
say human,grant_id grant:controller-human
say human,credential_ref credential:controller-human
gather document,actors own human
tell document,runtime,effect_threads 4
tell document,application_receipts,hot_receipt_bound 8
tell document,application_receipts,archive_batch_size 4
void document,secret_sources,credential:controller-human
say document,secret_sources,credential:controller-human,type file
put document,secret_sources,credential:controller-human,path approver
";

/// The mutations that create the calling workflow. Known before: the `task`, the `done` step and the
/// `finish` edge.
pub const OUTER_MUTATIONS: &'static str = "
say part1,type add_node
put part1,node task
say part2,type add_node
put part2,node done
say part3,type add_edge
put part3,edge finish
gather document part1 part2 part3
";

/// The proposed repair of the observed run. Known before: the `run`, the `revision`, the observed
/// `sequence`, the `mutation`, the `evaluation` and the `candidate`.
pub const REPAIR_PROPOSAL: &'static str = "
tell document,schema_version 1
say document,draft,identity repair-slotbook
say document,draft,proposer agent:repair
say document,draft,provenance,type direct
say document,draft,workflow slotbook
put document,draft,run run
put document,draft,base_revision revision,id
put document,draft,base_digest revision,content_digest
put document,draft,observed_run_sequence sequence
put document,draft,mutation mutation
say document,draft,rationale Retain observed authentication and restart failures, replace the candidate with the compiled repair fixture and obtain fresh trusted evidence.
mark document,draft,rationale_artifact null
gather document,draft,risk_notes
say part1 Finite compiled fixture, not model-generated repair
gather document,draft,assumptions part1
say part2,kind worker_observation
put part2,id evaluation
gather document,draft,evidence part2
gather document,draft,artifacts candidate
say document,draft,application_policy auto_apply_low_risk
mark document,draft,requested_action null
say document,draft,claimed_stop complete
";

/// The inputs of the seeded candidate.
pub const SEED_INPUTS: &'static str = "
say part1,name command
say part1,value,type inline
say part2 /bin/sh
say part3 -c
say part4 cp /fixtures/slotbook-seeded /workspace/app && cat /workspace/app
gather part1,value,value,argv part2 part3 part4
mark part1,value,value,stdout_artifact true
gather document part1
";

/// The inputs of a publication on a forged report. Known before: the target's `version` and the
/// `uploaded` artifact.
pub const FORGED_INPUTS: &'static str = "
say part1,name target
say part1,value,type inline
tell part1,value,value,schema_version 3
say part1,value,value,command forged-serving
say part1,value,value,installation slotbook-test
put part1,value,value,expected_version version
say part2,name evaluation
say part2,value,type artifact
put part2,value,reference,identity uploaded,artifact_id
put part2,value,reference,digest uploaded,digest
put part2,value,reference,media_type uploaded,content_type
put part2,value,reference,size_bytes uploaded,size
gather document part1 part2
";

/// The model task of the independent scenario.
pub const INDEPENDENT_TASK: &'static str = "
tell document,schema_version 1
say part1,role user
say part2,type text
say part2,text Return the deterministic independent result.
gather part1,parts part2
mark part1,tool_call_id null
gather document,request,messages part1
gather document,request,tools
mark document,request,structured_output null
say document,request,session,type fresh
mark document,request,reasoning null
tell document,request,maximum_output_units 64
mark document,request,streaming true
void document,request,extensions
";

/// The deterministic evidence process profile.
pub fn process_profile(known: Json) -> (r: Checked<Json>)
    requires
        known@ is Object,
    ensures
        document_result(r) == document_of(PROCESS_PROFILE@, known@),
{
    document(PROCESS_PROFILE, known)
}

/// The profile of a process that writes one text of evidence.
pub fn text_evidence_profile(known: Json) -> (r: Checked<Json>)
    requires
        known@ is Object,
    ensures
        document_result(r) == document_of(TEXT_EVIDENCE_PROFILE@, known@),
{
    document(TEXT_EVIDENCE_PROFILE, known)
}

/// The profile of a loopback model endpoint.
pub fn model_profile(known: Json) -> (r: Checked<Json>)
    requires
        known@ is Object,
    ensures
        document_result(r) == document_of(MODEL_PROFILE@, known@),
{
    document(MODEL_PROFILE, known)
}

/// What an evidence daemon is configured with beside its defaults.
pub fn daemon_config(known: Json) -> (r: Checked<Json>)
    requires
        known@ is Object,
    ensures
        document_result(r) == document_of(DAEMON_CONFIG@, known@),
{
    document(DAEMON_CONFIG, known)
}

pub fn remediation_proposal(known: Json) -> (r: Checked<Json>)
    requires
        known@ is Object,
    ensures
        document_result(r) == listed_document(REMEDIATION_PROPOSAL@, known@),
{
    build(REMEDIATION_PROPOSAL.as_slice(), known)
}

/// What the daemon of the external scenarios is configured with beside its defaults.
pub fn external_config(known: Json) -> (r: Checked<Json>)
    requires
        known@ is Object,
    ensures
        document_result(r) == document_of(EXTERNAL_CONFIG@, known@),
{
    document(EXTERNAL_CONFIG, known)
}

/// What the measured daemon is configured with beside its defaults.
pub fn operational_config(known: Json) -> (r: Checked<Json>)
    requires
        known@ is Object,
    ensures
        document_result(r) == document_of(OPERATIONAL_CONFIG@, known@),
{
    document(OPERATIONAL_CONFIG, known)
}

/// The report of a local model's run.
pub fn local_model_report(known: Json) -> (r: Checked<Json>)
    requires
        known@ is Object,
    ensures
        document_result(r) == listed_document(LOCAL_MODEL_REPORT@, known@),
{
    build(LOCAL_MODEL_REPORT.as_slice(), known)
}

/// The maintained configuration with the scenario's own coordinates and authority.
pub fn headless_config(known: Json) -> (r: Checked<Json>)
    requires
        known@ is Object,
    ensures
        document_result(r) == document_of(HEADLESS_CONFIG@, known@),
{
    document(HEADLESS_CONFIG, known)
}

/// The maintained safe configuration with new coordinates only.
pub fn starter_config(known: Json) -> (r: Checked<Json>)
    requires
        known@ is Object,
    ensures
        document_result(r) == document_of(STARTER_CONFIG@, known@),
{
    document(STARTER_CONFIG, known)
}

/// The review profile of a controlled fixture.
pub fn review_fixture_profile(known: Json) -> (r: Checked<Json>)
    requires
        known@ is Object,
    ensures
        document_result(r) == document_of(REVIEW_FIXTURE_PROFILE@, known@),
{
    document(REVIEW_FIXTURE_PROFILE, known)
}

/// The review step of the controller.
pub fn review_task(known: Json) -> (r: Checked<Json>)
    requires
        known@ is Object,
    ensures
        document_result(r) == document_of(REVIEW_TASK@, known@),
{
    document(REVIEW_TASK, known)
}

/// One local agent profile of the controller.
pub fn agent_profile_document(known: Json) -> (r: Checked<Json>)
    requires
        known@ is Object,
    ensures
        document_result(r) == document_of(AGENT_PROFILE_DOCUMENT@, known@),
{
    document(AGENT_PROFILE_DOCUMENT, known)
}

/// The process profile of the independent scenario.
pub fn independent_profile(known: Json) -> (r: Checked<Json>)
    requires
        known@ is Object,
    ensures
        document_result(r) == document_of(INDEPENDENT_PROFILE@, known@),
{
    document(INDEPENDENT_PROFILE, known)
}

/// The unbilled model profile of the independent scenario.
pub fn independent_model_profile(known: Json) -> (r: Checked<Json>)
    requires
        known@ is Object,
    ensures
        document_result(r) == document_of(INDEPENDENT_MODEL_PROFILE@, known@),
{
    document(INDEPENDENT_MODEL_PROFILE, known)
}

/// The peer relationship of the remote scenario.
pub fn independent_relationship(known: Json) -> (r: Checked<Json>)
    requires
        known@ is Object,
    ensures
        document_result(r) == document_of(INDEPENDENT_RELATIONSHIP@, known@),
{
    document(INDEPENDENT_RELATIONSHIP, known)
}

/// The requirement of the managed worker.
pub fn slotbook_requirement(known: Json) -> (r: Checked<Json>)
    requires
        known@ is Object,
    ensures
        document_result(r) == document_of(SLOTBOOK_REQUIREMENT@, known@),
{
    document(SLOTBOOK_REQUIREMENT, known)
}

/// The effect policy of the protected target.
pub fn slotbook_policy(known: Json) -> (r: Checked<Json>)
    requires
        known@ is Object,
    ensures
        document_result(r) == document_of(SLOTBOOK_POLICY@, known@),
{
    document(SLOTBOOK_POLICY, known)
}

/// The region that a repair may edit.
pub fn slotbook_scope(known: Json) -> (r: Checked<Json>)
    requires
        known@ is Object,
    ensures
        document_result(r) == document_of(SLOTBOOK_SCOPE@, known@),
{
    document(SLOTBOOK_SCOPE, known)
}

/// The recipe of the protected service.
pub fn slotbook_protected_recipe(known: Json) -> (r: Checked<Json>)
    requires
        known@ is Object,
    ensures
        document_result(r) == document_of(SLOTBOOK_PROTECTED_RECIPE@, known@),
{
    document(SLOTBOOK_PROTECTED_RECIPE, known)
}

/// The recipe of the managed worker.
pub fn slotbook_worker_recipe(known: Json) -> (r: Checked<Json>)
    requires
        known@ is Object,
    ensures
        document_result(r) == document_of(SLOTBOOK_WORKER_RECIPE@, known@),
{
    document(SLOTBOOK_WORKER_RECIPE, known)
}

/// The bootstrap configuration with the qualification's role, coordinates and recipes.
pub fn slotbook_session_config(known: Json) -> (r: Checked<Json>)
    requires
        known@ is Object,
    ensures
        document_result(r) == document_of(SLOTBOOK_SESSION_CONFIG@, known@),
{
    document(SLOTBOOK_SESSION_CONFIG, known)
}

/// The configuration of a published method and its consumer.
pub fn publication_config(known: Json) -> (r: Checked<Json>)
    requires
        known@ is Object,
    ensures
        document_result(r) == document_of(PUBLICATION_CONFIG@, known@),
{
    document(PUBLICATION_CONFIG, known)
}

/// The worker's descriptor as that of the published method.
pub fn published_descriptor(known: Json) -> (r: Checked<Json>)
    requires
        known@ is Object,
    ensures
        document_result(r) == document_of(PUBLISHED_DESCRIPTOR@, known@),
{
    document(PUBLISHED_DESCRIPTOR, known)
}

/// The published method.
pub fn published_method(known: Json) -> (r: Checked<Json>)
    requires
        known@ is Object,
    ensures
        document_result(r) == document_of(PUBLISHED_METHOD@, known@),
{
    document(PUBLISHED_METHOD, known)
}

/// The step of another workflow that invokes the published method.
pub fn outer_task(known: Json) -> (r: Checked<Json>)
    requires
        known@ is Object,
    ensures
        document_result(r) == document_of(OUTER_TASK@, known@),
{
    document(OUTER_TASK, known)
}

/// The same step, placed on the peer.
pub fn outer_peer_task(known: Json) -> (r: Checked<Json>)
    requires
        known@ is Object,
    ensures
        document_result(r) == document_of(OUTER_PEER_TASK@, known@),
{
    document(OUTER_PEER_TASK, known)
}

/// A peer relationship of the qualification.
pub fn peer_relationship(known: Json) -> (r: Checked<Json>)
    requires
        known@ is Object,
    ensures
        document_result(r) == document_of(PEER_RELATIONSHIP@, known@),
{
    document(PEER_RELATIONSHIP, known)
}

/// The provider's configuration with its peer.
pub fn peer_provider_config(known: Json) -> (r: Checked<Json>)
    requires
        known@ is Object,
    ensures
        document_result(r) == document_of(PEER_PROVIDER_CONFIG@, known@),
{
    document(PEER_PROVIDER_CONFIG, known)
}

/// The origin's configuration.
pub fn peer_origin_config(known: Json) -> (r: Checked<Json>)
    requires
        known@ is Object,
    ensures
        document_result(r) == document_of(PEER_ORIGIN_CONFIG@, known@),
{
    document(PEER_ORIGIN_CONFIG, known)
}

/// The allowance of the paired evaluation.
pub fn learning_budget(known: Json) -> (r: Checked<Json>)
    requires
        known@ is Object,
    ensures
        document_result(r) == document_of(LEARNING_BUDGET@, known@),
{
    document(LEARNING_BUDGET, known)
}

/// The learning operator.
pub fn learning_operator(known: Json) -> (r: Checked<Json>)
    requires
        known@ is Object,
    ensures
        document_result(r) == document_of(LEARNING_OPERATOR@, known@),
{
    document(LEARNING_OPERATOR, known)
}

/// The evaluator.
pub fn learning_evaluator(known: Json) -> (r: Checked<Json>)
    requires
        known@ is Object,
    ensures
        document_result(r) == document_of(LEARNING_EVALUATOR@, known@),
{
    document(LEARNING_EVALUATOR, known)
}

/// The learner, which reads only the selected artifacts.
pub fn learning_learner(known: Json) -> (r: Checked<Json>)
    requires
        known@ is Object,
    ensures
        document_result(r) == document_of(LEARNING_LEARNER@, known@),
{
    document(LEARNING_LEARNER, known)
}

/// The service of one slot.
pub fn learning_service(known: Json) -> (r: Checked<Json>)
    requires
        known@ is Object,
    ensures
        document_result(r) == document_of(LEARNING_SERVICE@, known@),
{
    document(LEARNING_SERVICE, known)
}

/// The host's configuration for the study.
pub fn learning_config(known: Json) -> (r: Checked<Json>)
    requires
        known@ is Object,
    ensures
        document_result(r) == document_of(LEARNING_CONFIG@, known@),
{
    document(LEARNING_CONFIG, known)
}

/// The worker recipe of one slot.
pub fn learning_worker_recipe(known: Json) -> (r: Checked<Json>)
    requires
        known@ is Object,
    ensures
        document_result(r) == document_of(LEARNING_WORKER_RECIPE@, known@),
{
    document(LEARNING_WORKER_RECIPE, known)
}

/// The target recipe of one slot.
pub fn learning_target_recipe(known: Json) -> (r: Checked<Json>)
    requires
        known@ is Object,
    ensures
        document_result(r) == document_of(LEARNING_TARGET_RECIPE@, known@),
{
    document(LEARNING_TARGET_RECIPE, known)
}

/// The published method of one slot.
pub fn learning_method(known: Json) -> (r: Checked<Json>)
    requires
        known@ is Object,
    ensures
        document_result(r) == document_of(LEARNING_METHOD@, known@),
{
    document(LEARNING_METHOD, known)
}

/// The proposing step over exactly the selected sources.
pub fn proposal_model(known: Json) -> (r: Checked<Json>)
    requires
        known@ is Object,
    ensures
        document_result(r) == document_of(PROPOSAL_MODEL@, known@),
{
    document(PROPOSAL_MODEL, known)
}

/// The verifying process of the controller, which reads the work.
pub fn controller_verify_profile(known: Json) -> (r: Checked<Json>)
    requires
        known@ is Object,
    ensures
        document_result(r) == document_of(CONTROLLER_VERIFY_PROFILE@, known@),
{
    document(CONTROLLER_VERIFY_PROFILE, known)
}

/// A waiting process of the controller, which shows that it entered.
pub fn controller_waiting_profile(known: Json) -> (r: Checked<Json>)
    requires
        known@ is Object,
    ensures
        document_result(r) == document_of(CONTROLLER_WAITING_PROFILE@, known@),
{
    document(CONTROLLER_WAITING_PROFILE, known)
}

/// The endpoint profile whose metering is unknown.
pub fn metering_profile(known: Json) -> (r: Checked<Json>)
    requires
        known@ is Object,
    ensures
        document_result(r) == document_of(METERING_PROFILE@, known@),
{
    document(METERING_PROFILE, known)
}

/// The step that asks an unmetered model.
pub fn metered_task(known: Json) -> (r: Checked<Json>)
    requires
        known@ is Object,
    ensures
        document_result(r) == document_of(METERED_TASK@, known@),
{
    document(METERED_TASK, known)
}

/// The configuration of the controller and its approver.
pub fn controller_config(known: Json) -> (r: Checked<Json>)
    requires
        known@ is Object,
    ensures
        document_result(r) == document_of(CONTROLLER_CONFIG@, known@),
{
    document(CONTROLLER_CONFIG, known)
}

/// The mutations that create the calling workflow.
pub fn outer_mutations(known: Json) -> (r: Checked<Json>)
    requires
        known@ is Object,
    ensures
        document_result(r) == document_of(OUTER_MUTATIONS@, known@),
{
    document(OUTER_MUTATIONS, known)
}

/// The proposed repair of the observed run.
pub fn repair_proposal(known: Json) -> (r: Checked<Json>)
    requires
        known@ is Object,
    ensures
        document_result(r) == document_of(REPAIR_PROPOSAL@, known@),
{
    document(REPAIR_PROPOSAL, known)
}

/// The inputs of the seeded candidate.
pub fn seed_inputs(known: Json) -> (r: Checked<Json>)
    requires
        known@ is Object,
    ensures
        document_result(r) == document_of(SEED_INPUTS@, known@),
{
    document(SEED_INPUTS, known)
}

/// The inputs of a publication on a forged report.
pub fn forged_inputs(known: Json) -> (r: Checked<Json>)
    requires
        known@ is Object,
    ensures
        document_result(r) == document_of(FORGED_INPUTS@, known@),
{
    document(FORGED_INPUTS, known)
}

/// The model task of the independent scenario.
pub fn independent_task(known: Json) -> (r: Checked<Json>)
    requires
        known@ is Object,
    ensures
        document_result(r) == document_of(INDEPENDENT_TASK@, known@),
{
    document(INDEPENDENT_TASK, known)
}

} // verus!
