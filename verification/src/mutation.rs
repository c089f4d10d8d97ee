//! Mutation campaigns: their shards, command lines and the classification of surviving mutants.

use vstd::prelude::*;
use vstd::string::*;

use crate::application::{joined_path, under};
use crate::text::{
    decimal, joined, joined3, lemma_texts_push, lines, lines_of, number_problem, number_text,
    parse_number, same_text, texts, trim, trimmed, unsigned,
};

verus! {

/// Where the accepted classifications are kept.
pub const CLASSIFICATION_PATH: &'static str = ".cargo/mutation-classifications.json";

/// How many jobs a campaign runs unless told otherwise.
pub const DEFAULT_JOBS: u32 = 2;

/// A failed campaign with the exit code of its process.
#[derive(Debug)]
pub struct ToolFailure {
    pub exit_code: u8,
    pub message: String,
}

pub type ToolResult<T> = Result<T, ToolFailure>;

impl ToolFailure {
    pub fn new(exit_code: u8, message: &str) -> (r: ToolFailure)
        ensures
            r.exit_code == exit_code,
            r.message@ == message@,
    {
        ToolFailure { exit_code, message: message.to_owned() }
    }

    /// The campaign could not be run.
    pub fn operational(message: &str) -> (r: ToolFailure)
        ensures
            r.exit_code == 1,
            r.message@ == message@,
    {
        ToolFailure::new(1, message)
    }

    /// The campaign ran and its outcome is not acceptable.
    pub fn mutation_outcome(message: &str) -> (r: ToolFailure)
        ensures
            r.exit_code == 2,
            r.message@ == message@,
    {
        ToolFailure::new(2, message)
    }
}

pub open spec fn fails<T>(r: ToolResult<T>, exit_code: u8, message: Seq<char>) -> bool {
    r matches Err(f) && f.exit_code == exit_code && f.message@ == message
}

/// A semantic area of the code base.
#[derive(Clone, Copy, Debug, PartialEq, Eq, Structural)]
pub enum MutationShard {
    Authority,
    Retention,
    Runtime,
    Uncertainty,
    Controller,
    Context,
    Peer,
}

/// What one shard mutates and which tests judge it.
#[derive(Debug)]
pub struct ShardSpecification {
    pub files: Vec<&'static str>,
    pub pattern: &'static str,
    pub test_packages: Vec<&'static str>,
    pub cargo_test_arguments: Vec<&'static str>,
}

pub struct ShardPlan {
    pub files: Seq<&'static str>,
    pub pattern: &'static str,
    pub test_packages: Seq<&'static str>,
    pub cargo_test_arguments: Seq<&'static str>,
}

impl View for ShardSpecification {
    type V = ShardPlan;

    open spec fn view(&self) -> ShardPlan {
        ShardPlan {
            files: self.files@,
            pattern: self.pattern,
            test_packages: self.test_packages@,
            cargo_test_arguments: self.cargo_test_arguments@,
        }
    }
}

pub open spec fn shard_name(shard: MutationShard) -> &'static str {
    match shard {
        MutationShard::Authority => "authority",
        MutationShard::Retention => "retention",
        MutationShard::Runtime => "runtime",
        MutationShard::Uncertainty => "uncertainty",
        MutationShard::Controller => "controller",
        MutationShard::Context => "context",
        MutationShard::Peer => "peer",
    }
}

pub open spec fn shard_plan(shard: MutationShard) -> ShardPlan {
    match shard {
        MutationShard::Authority => ShardPlan {
            files: seq![
                "crates/authority/src/selection.rs",
                "crates/authority/src/evaluator.rs",
                "crates/authority/src/model/capability.rs",
                "crates/authority/src/model/resource.rs",
                "adapters/redb-store/src/peer.rs",
                "adapters/redb-store/src/peer/validation.rs",
            ],
            pattern: "(Selection.*(matches|is_subset_of)|validate_count|GrantSetEvaluator.*evaluate|CapabilityAuthorityScope::is_subset_of|AuthorityBudget::fits_within|within|validate_admission)",
            test_packages: seq!["milkdrift-authority", "milkdrift-peer-http", "milkdrift-evidence"],
            cargo_test_arguments: seq![],
        },
        MutationShard::Retention => ShardPlan {
            files: seq!["adapters/redb-store/src/application.rs"],
            pattern: "(commit_application_command|archive_application_command_receipts|archive_oldest_hot_receipts|receipt_accounting_values|ReceiptLocation::status)",
            test_packages: seq!["milkdrift-redb-store", "milkdrift-evidence"],
            cargo_test_arguments: seq![],
        },
        MutationShard::Runtime => ShardPlan {
            files: seq![
                "crates/runtime/src/engine/reconciliation.rs",
                "crates/runtime/src/engine.rs",
            ],
            pattern: "(handle_new_command|replay_if_present|projection_checkpoint_due|plan_revision_adoption|plan_reconciliation_decision|plan_reconciliation_application)",
            test_packages: seq!["milkdrift-runtime"],
            cargo_test_arguments: seq![
                "--lib",
                "--test",
                "durable_runtime",
                "--test",
                "structured_runtime",
            ],
        },
        MutationShard::Uncertainty => ShardPlan {
            files: seq![
                "crates/runtime/src/engine/effects.rs",
                "crates/runtime/src/engine/support.rs",
            ],
            pattern: "(recovery_classification|record_effect_uncertainty)",
            test_packages: seq!["milkdrift-runtime"],
            cargo_test_arguments: seq!["--test", "structured_runtime"],
        },
        MutationShard::Controller => ShardPlan {
            files: seq![
                "crates/control/src/controller/lifecycle.rs",
                "crates/control/src/controller/policy.rs",
            ],
            pattern: "(ControllerPolicy::assess|ControllerLifecycleOwner.*(progress|assess)|bound_outcome)",
            test_packages: seq!["milkdrift-control"],
            cargo_test_arguments: seq!["--lib", "--test", "control_service"],
        },
        MutationShard::Context => ShardPlan {
            files: seq!["crates/runtime/src/context.rs"],
            pattern: "(CausalContextBuilder::build|budget_overflow)",
            test_packages: seq!["milkdrift-runtime"],
            cargo_test_arguments: seq!["--test", "causal_context"],
        },
        MutationShard::Peer => ShardPlan {
            files: seq![
                "adapters/redb-store/src/peer.rs",
                "adapters/redb-store/src/peer/accounting.rs",
                "adapters/redb-store/src/peer/retention.rs",
                "adapters/redb-store/src/peer/validation.rs",
            ],
            pattern: "(admit_peer_execution|claim_peer_dispatch|mark_peer_entered|release_peer_claim|mark_peer_uncertain|append_peer_observation|request_peer_cancellation|acknowledge_peer_cancellation|recover_peer_claims|archive_peer_executions|release_active_accounting|validate_record|validate_tombstone)",
            test_packages: seq!["milkdrift-peer-http", "milkdrift-evidence"],
            cargo_test_arguments: seq![],
        },
    }
}

fn shard_specification(
    files: Vec<&'static str>,
    pattern: &'static str,
    test_packages: Vec<&'static str>,
    cargo_test_arguments: Vec<&'static str>,
) -> (r: ShardSpecification)
    ensures
        r@ == (ShardPlan {
            files: files@,
            pattern,
            test_packages: test_packages@,
            cargo_test_arguments: cargo_test_arguments@,
        }),
{
    ShardSpecification { files, pattern, test_packages, cargo_test_arguments }
}

impl MutationShard {
    pub fn name(self) -> (r: &'static str)
        ensures
            r == shard_name(self),
    {
        match self {
            MutationShard::Authority => "authority",
            MutationShard::Retention => "retention",
            MutationShard::Runtime => "runtime",
            MutationShard::Uncertainty => "uncertainty",
            MutationShard::Controller => "controller",
            MutationShard::Context => "context",
            MutationShard::Peer => "peer",
        }
    }

    pub fn specification(self) -> (r: ShardSpecification)
        ensures
            r@.files =~= shard_plan(self).files,
            r@.pattern == shard_plan(self).pattern,
            r@.test_packages =~= shard_plan(self).test_packages,
            r@.cargo_test_arguments =~= shard_plan(self).cargo_test_arguments,
    {
        match self {
            MutationShard::Authority => shard_specification(
                vec![
                    "crates/authority/src/selection.rs",
                    "crates/authority/src/evaluator.rs",
                    "crates/authority/src/model/capability.rs",
                    "crates/authority/src/model/resource.rs",
                    "adapters/redb-store/src/peer.rs",
                    "adapters/redb-store/src/peer/validation.rs",
                ],
                "(Selection.*(matches|is_subset_of)|validate_count|GrantSetEvaluator.*evaluate|CapabilityAuthorityScope::is_subset_of|AuthorityBudget::fits_within|within|validate_admission)",
                vec!["milkdrift-authority", "milkdrift-peer-http", "milkdrift-evidence"],
                vec![],
            ),
            MutationShard::Retention => shard_specification(
                vec!["adapters/redb-store/src/application.rs"],
                "(commit_application_command|archive_application_command_receipts|archive_oldest_hot_receipts|receipt_accounting_values|ReceiptLocation::status)",
                vec!["milkdrift-redb-store", "milkdrift-evidence"],
                vec![],
            ),
            MutationShard::Runtime => shard_specification(
                vec![
                    "crates/runtime/src/engine/reconciliation.rs",
                    "crates/runtime/src/engine.rs",
                ],
                "(handle_new_command|replay_if_present|projection_checkpoint_due|plan_revision_adoption|plan_reconciliation_decision|plan_reconciliation_application)",
                vec!["milkdrift-runtime"],
                vec!["--lib", "--test", "durable_runtime", "--test", "structured_runtime"],
            ),
            MutationShard::Uncertainty => shard_specification(
                vec![
                    "crates/runtime/src/engine/effects.rs",
                    "crates/runtime/src/engine/support.rs",
                ],
                "(recovery_classification|record_effect_uncertainty)",
                vec!["milkdrift-runtime"],
                vec!["--test", "structured_runtime"],
            ),
            MutationShard::Controller => shard_specification(
                vec![
                    "crates/control/src/controller/lifecycle.rs",
                    "crates/control/src/controller/policy.rs",
                ],
                "(ControllerPolicy::assess|ControllerLifecycleOwner.*(progress|assess)|bound_outcome)",
                vec!["milkdrift-control"],
                vec!["--lib", "--test", "control_service"],
            ),
            MutationShard::Context => shard_specification(
                vec!["crates/runtime/src/context.rs"],
                "(CausalContextBuilder::build|budget_overflow)",
                vec!["milkdrift-runtime"],
                vec!["--test", "causal_context"],
            ),
            MutationShard::Peer => shard_specification(
                vec![
                    "adapters/redb-store/src/peer.rs",
                    "adapters/redb-store/src/peer/accounting.rs",
                    "adapters/redb-store/src/peer/retention.rs",
                    "adapters/redb-store/src/peer/validation.rs",
                ],
                "(admit_peer_execution|claim_peer_dispatch|mark_peer_entered|release_peer_claim|mark_peer_uncertain|append_peer_observation|request_peer_cancellation|acknowledge_peer_cancellation|recover_peer_claims|archive_peer_executions|release_active_accounting|validate_record|validate_tombstone)",
                vec!["milkdrift-peer-http", "milkdrift-evidence"],
                vec![],
            ),
        }
    }
}

/// The command line of a campaign: one positional value and one flag, as they were matched.
pub open spec fn matched_view(r: Option<(String, bool)>) -> Option<(Seq<char>, bool)> {
    match r {
        Some((value, flag)) => Some((value@, flag)),
        None => None,
    }
}

/// What matching a command line gives against one required positional value, named `value`, and
/// one long option, named `flag`, that takes no value: the value and whether the option was given,
/// or nothing where the command line does not match.
pub uninterp spec fn matched_arguments(
    arguments: Seq<Seq<char>>,
    value: Seq<char>,
    flag: Seq<char>,
) -> Option<(Seq<char>, bool)>;

/// Whether a word of a command line can only be a positional value.
pub open spec fn is_plain_word(word: Seq<char>) -> bool {
    word.len() > 0 && word[0] != '-'
}

/// Whether a word of a command line is a long option other than a given one.
pub open spec fn is_other_option(word: Seq<char>, flag: Seq<char>) -> bool {
    word.len() > 2 && word[0] == '-' && word[1] == '-' && word != "--"@ + flag
}

/// Calls `clap::Command::try_get_matches_from` on a command with one required positional argument
/// and one `SetTrue` long option: the matches depend on the arguments and the two names alone. The
/// first argument is the program's name. Behind it, nothing does not match, one plain word matches
/// as the value, and the option before or behind it is found. Any other long option there, one for
/// help and one with a value attached among them, does not match, whatever follows.
#[verifier::external_body]
fn match_arguments(arguments: &Vec<String>, value: &'static str, flag: &'static str) -> (r: Option<
    (String, bool),
>)
    requires
        value@ == "shard"@,
        flag@ == "list"@,
    ensures
        matched_view(r) == matched_arguments(texts(arguments@), value@, flag@),
        arguments@.len() == 1 ==> r is None,
        arguments@.len() == 2 && is_plain_word(arguments@[1]@) ==> matched_view(r) == Some(
            (arguments@[1]@, false),
        ),
        arguments@.len() == 3 && is_plain_word(arguments@[1]@) && arguments@[2]@ == "--list"@
            ==> matched_view(r) == Some((arguments@[1]@, true)),
        arguments@.len() == 3 && is_plain_word(arguments@[2]@) && arguments@[1]@ == "--list"@
            ==> matched_view(r) == Some((arguments@[2]@, true)),
        arguments@.len() >= 2 && is_other_option(arguments@[1]@, flag@) ==> r is None,
        arguments@.len() >= 3 && is_plain_word(arguments@[1]@) && is_other_option(
            arguments@[2]@,
            flag@,
        ) ==> r is None,
{
    let positional = clap::Arg::new(value).required(true);
    let option = clap::Arg::new(flag).long(flag).action(clap::ArgAction::SetTrue);
    let command = clap::Command::new("mutation-evidence").arg(positional).arg(option);
    let matches = command.try_get_matches_from(arguments).ok()?;
    let text = matches.get_one::<String>(value)?.clone();
    Some((text, matches.get_flag(flag)))
}

/// The arguments of one campaign.
#[derive(Debug)]
pub struct Arguments {
    /// Semantic mutation area to list or execute.
    pub shard: MutationShard,
    /// List the selected mutants without running the campaign.
    pub list: bool,
}

/// The shard with a name.
pub open spec fn named_shard(name: Seq<char>) -> Option<MutationShard> {
    if name == "authority"@ {
        Some(MutationShard::Authority)
    } else if name == "retention"@ {
        Some(MutationShard::Retention)
    } else if name == "runtime"@ {
        Some(MutationShard::Runtime)
    } else if name == "uncertainty"@ {
        Some(MutationShard::Uncertainty)
    } else if name == "controller"@ {
        Some(MutationShard::Controller)
    } else if name == "context"@ {
        Some(MutationShard::Context)
    } else if name == "peer"@ {
        Some(MutationShard::Peer)
    } else {
        None
    }
}

/// A shard is found again by its name, so no two shards share one.
pub proof fn shard_names_are_distinct(shard: MutationShard)
    ensures
        named_shard(shard_name(shard)@) == Some(shard),
{
    reveal_strlit("authority");
    reveal_strlit("retention");
    reveal_strlit("runtime");
    reveal_strlit("uncertainty");
    reveal_strlit("controller");
    reveal_strlit("context");
    reveal_strlit("peer");
    let name = shard_name(shard)@;
    assert(name[0] == 'a' || name[0] == 'r' || name[0] == 'u' || name[0] == 'c' || name[0] == 'p');
    assert(name.len() > 2);
    assert("retention"@[1] == 'e' && "runtime"@[1] == 'u');
    assert("controller"@.len() == 10 && "context"@.len() == 7);
    assert("authority"@[0] == 'a' && "uncertainty"@[0] == 'u' && "peer"@[0] == 'p');
    assert("controller"@[0] == 'c' && "context"@[0] == 'c' && "retention"@[0] == 'r'
        && "runtime"@[0] == 'r');
}

/// The arguments that a matched command line denotes.
pub open spec fn arguments_of(matched: Option<(Seq<char>, bool)>) -> Option<Arguments> {
    match matched {
        Some((name, list)) => match named_shard(name) {
            Some(shard) => Some(Arguments { shard, list }),
            None => None,
        },
        None => None,
    }
}

impl MutationShard {
    pub fn from_name(name: &str) -> (r: Option<MutationShard>)
        ensures
            r == named_shard(name@),
    {
        if same_text(name, "authority") {
            Some(MutationShard::Authority)
        } else if same_text(name, "retention") {
            Some(MutationShard::Retention)
        } else if same_text(name, "runtime") {
            Some(MutationShard::Runtime)
        } else if same_text(name, "uncertainty") {
            Some(MutationShard::Uncertainty)
        } else if same_text(name, "controller") {
            Some(MutationShard::Controller)
        } else if same_text(name, "context") {
            Some(MutationShard::Context)
        } else if same_text(name, "peer") {
            Some(MutationShard::Peer)
        } else {
            None
        }
    }
}

impl Arguments {
    /// The arguments that a matched command line denotes.
    pub fn from_matches(matched: Option<(String, bool)>) -> (r: Option<Arguments>)
        ensures
            r == arguments_of(matched_view(matched)),
    {
        match matched {
            Some((name, list)) => match MutationShard::from_name(name.as_str()) {
                Some(shard) => Some(Arguments { shard, list }),
                None => None,
            },
            None => None,
        }
    }

    /// Reads a whole command line, whose first word names the program.
    pub fn try_parse_from(arguments: &Vec<String>) -> (r: Option<Arguments>)
        ensures
            r == arguments_of(matched_arguments(texts(arguments@), "shard"@, "list"@)),
            arguments@.len() == 1 ==> r is None,
            arguments@.len() == 2 && is_plain_word(arguments@[1]@) ==> r == arguments_of(
                Some((arguments@[1]@, false)),
            ),
            arguments@.len() == 3 && is_plain_word(arguments@[1]@) && arguments@[2]@ == "--list"@
                ==> r == arguments_of(Some((arguments@[1]@, true))),
            arguments@.len() == 3 && is_plain_word(arguments@[2]@) && arguments@[1]@ == "--list"@
                ==> r == arguments_of(Some((arguments@[2]@, true))),
            arguments@.len() >= 2 && is_other_option(arguments@[1]@, "list"@) ==> r is None,
            arguments@.len() >= 3 && is_plain_word(arguments@[1]@) && is_other_option(
                arguments@[2]@,
                "list"@,
            ) ==> r is None,
    {
        proof {
            reveal_strlit("shard");
            reveal_strlit("list");
            assert("shard"@.len() != "list"@.len());
        }
        Arguments::from_matches(match_arguments(arguments, "shard", "list"))
    }
}

/// A judgement on a mutant that no test kills.
#[derive(Clone, Copy, Debug, PartialEq, Eq, Structural)]
pub enum Classification {
    Equivalent,
    UnreachableByValidContract,
    ToolLimitation,
}

pub open spec fn classification_name(c: Classification) -> &'static str {
    match c {
        Classification::Equivalent => "equivalent",
        Classification::UnreachableByValidContract => "unreachable_by_valid_contract",
        Classification::ToolLimitation => "tool_limitation",
    }
}

impl Classification {
    pub fn name(self) -> (r: &'static str)
        ensures
            r == classification_name(self),
    {
        match self {
            Classification::Equivalent => "equivalent",
            Classification::UnreachableByValidContract => "unreachable_by_valid_contract",
            Classification::ToolLimitation => "tool_limitation",
        }
    }
}

/// One accepted survivor.
#[derive(Debug)]
pub struct ClassificationEntry {
    pub mutant: String,
    pub classification: Classification,
    pub explanation: String,
}

pub struct EntryView {
    pub mutant: Seq<char>,
    pub classification: Classification,
    pub explanation: Seq<char>,
}

impl View for ClassificationEntry {
    type V = EntryView;

    open spec fn view(&self) -> EntryView {
        EntryView {
            mutant: self.mutant@,
            classification: self.classification,
            explanation: self.explanation@,
        }
    }
}

impl ClassificationEntry {
    pub fn copy(&self) -> (r: ClassificationEntry)
        ensures
            r@ == self@,
    {
        ClassificationEntry {
            mutant: self.mutant.as_str().to_owned(),
            classification: self.classification,
            explanation: self.explanation.as_str().to_owned(),
        }
    }
}

#[derive(Debug)]
pub struct ClassificationPolicy {
    pub survivors_require_exact_mutant_identity: bool,
    pub allowed_classifications: Vec<Classification>,
    pub unclassified_survivors_fail_the_lane: bool,
}

#[derive(Debug)]
pub struct ClassificationDocument {
    pub schema_version: u32,
    pub cargo_mutants_version: String,
    pub policy: ClassificationPolicy,
    pub classifications: Vec<ClassificationEntry>,
}

#[derive(Debug)]
pub struct ClassificationReport {
    pub schema_version: u32,
    pub cargo_mutants_version: String,
    pub missed: Vec<ClassificationEntry>,
    pub timeouts: Vec<String>,
}

pub open spec fn entry_views(v: Seq<ClassificationEntry>) -> Seq<EntryView> {
    v.map_values(|e: ClassificationEntry| e@)
}

/// The byte length of a text's UTF-8 encoding, as a machine word holds it.
pub open spec fn byte_len(s: Seq<char>) -> nat {
    vstd::utf8::encode_utf8(s).len() as usize as nat
}

/// What is wrong with the entry at a position, given those before it.
pub open spec fn entry_problem(
    entries: Seq<EntryView>,
    allowed: Seq<Classification>,
    i: int,
) -> Option<Seq<char>> {
    let entry = entries[i];
    if trimmed(entry.mutant).len() == 0 {
        Some("mutation classification has an empty mutant identity"@)
    } else if !allowed.contains(entry.classification) {
        Some(
            "invalid classification '"@ + classification_name(entry.classification)@ + "' for "@
                + entry.mutant,
        )
    } else if byte_len(trimmed(entry.explanation)) < 20 {
        Some("classification explanation is missing or too short for "@ + entry.mutant)
    } else if has_entry(entries.take(i), entry.mutant) {
        Some("duplicate mutation classification for "@ + entry.mutant)
    } else {
        None
    }
}

/// What is wrong with the first bad entry from a position on.
pub open spec fn first_problem(
    entries: Seq<EntryView>,
    allowed: Seq<Classification>,
    from: int,
) -> Option<Seq<char>>
    decreases entries.len() - from,
{
    if from < 0 || from >= entries.len() {
        None
    } else {
        match entry_problem(entries, allowed, from) {
            Some(p) => Some(p),
            None => first_problem(entries, allowed, from + 1),
        }
    }
}

/// What is wrong with a classification document.
pub open spec fn document_problem(d: ClassificationDocument) -> Option<Seq<char>> {
    let allowed = d.policy.allowed_classifications@;
    if d.schema_version != 1 {
        Some("unsupported mutation classification schema "@ + decimal(d.schema_version as nat))
    } else if trimmed(d.cargo_mutants_version@).len() == 0 {
        Some("mutation classification document has no cargo-mutants version"@)
    } else if !d.policy.survivors_require_exact_mutant_identity
        || !d.policy.unclassified_survivors_fail_the_lane {
        Some(
            "mutation classification policy must require exact identities and reject unclassified survivors"@,
        )
    } else if !allowed.no_duplicates() || allowed.len() == 0 {
        Some("allowed mutation classifications must be unique and nonempty"@)
    } else {
        first_problem(entry_views(d.classifications@), allowed, 0)
    }
}

fn allows(allowed: &Vec<Classification>, c: Classification) -> (r: bool)
    ensures
        r == allowed@.contains(c),
{
    let mut i: usize = 0;
    while i < allowed.len()
        invariant
            i <= allowed.len(),
            forall|j: int| 0 <= j < i ==> allowed@[j] != c,
        decreases allowed.len() - i,
    {
        if allowed[i] == c {
            return true;
        }
        i = i + 1;
    }
    false
}

fn unique(allowed: &Vec<Classification>) -> (r: bool)
    ensures
        r == allowed@.no_duplicates(),
{
    let mut i: usize = 0;
    while i < allowed.len()
        invariant
            i <= allowed.len(),
            forall|a: int, b: int|
                0 <= a < b < allowed.len() && a < i ==> allowed@[a] != allowed@[b],
        decreases allowed.len() - i,
    {
        let mut k: usize = i + 1;
        while k < allowed.len()
            invariant
                i < k <= allowed.len(),
                forall|b: int| i < b < k ==> allowed@[i as int] != allowed@[b],
            decreases allowed.len() - k,
        {
            if allowed[i] == allowed[k] {
                return false;
            }
            k = k + 1;
        }
        i = i + 1;
    }
    true
}

/// Whether one of the first `n` entries is for a mutant.
fn classified_before(entries: &Vec<ClassificationEntry>, n: usize, mutant: &str) -> (r: bool)
    requires
        n <= entries.len(),
    ensures
        r == has_entry(entry_views(entries@).take(n as int), mutant@),
{
    let ghost views = entry_views(entries@).take(n as int);
    let mut i: usize = 0;
    while i < n
        invariant
            i <= n <= entries.len(),
            views == entry_views(entries@).take(n as int),
            forall|j: int| 0 <= j < i ==> (#[trigger] views[j]).mutant != mutant@,
        decreases n - i,
    {
        if same_text(entries[i].mutant.as_str(), mutant) {
            proof {
                assert(views[i as int].mutant == mutant@);
            }
            return true;
        }
        i = i + 1;
    }
    false
}

fn check_entry(entries: &Vec<ClassificationEntry>, allowed: &Vec<Classification>, i: usize) -> (r:
    Option<String>)
    requires
        i < entries.len(),
    ensures
        crate::text::text_option(r) == entry_problem(entry_views(entries@), allowed@, i as int),
{
    let entry: &ClassificationEntry = &entries[i];
    proof {
        assert(entry_views(entries@)[i as int] == entry@);
    }
    if trim(entry.mutant.as_str()).as_str().is_empty() {
        return Some("mutation classification has an empty mutant identity".to_owned());
    }
    if !allows(allowed, entry.classification) {
        let mut message: String = joined3(
            "invalid classification '",
            entry.classification.name(),
            "' for ",
        );
        message.append(entry.mutant.as_str());
        return Some(message);
    }
    let explanation: String = trim(entry.explanation.as_str());
    if explanation.as_str().len() < 20 {
        return Some(
            joined(
                "classification explanation is missing or too short for ",
                entry.mutant.as_str(),
            ),
        );
    }
    if classified_before(entries, i, entry.mutant.as_str()) {
        return Some(
            joined("duplicate mutation classification for ", entry.mutant.as_str()),
        );
    }
    None
}

/// Entries by their exact mutant; a later entry takes the place of an earlier one.
pub open spec fn by_mutant(entries: Seq<EntryView>) -> Map<Seq<char>, EntryView>
    decreases entries.len(),
{
    if entries.len() == 0 {
        Map::empty()
    } else {
        by_mutant(entries.drop_last()).insert(entries.last().mutant, entries.last())
    }
}

/// Whether no two entries are for one mutant.
pub open spec fn distinct_mutants(entries: Seq<EntryView>) -> bool {
    forall|i: int, j: int|
        0 <= i < j < entries.len() ==> (#[trigger] entries[i]).mutant != (
        #[trigger] entries[j]).mutant
}

/// Entries of distinct mutants are each found under their mutant, and nothing else is.
pub proof fn distinct_entries_are_found(entries: Seq<EntryView>)
    requires
        distinct_mutants(entries),
    ensures
        by_mutant(entries).dom().finite(),
        by_mutant(entries).dom().len() == entries.len(),
        forall|key: Seq<char>| #[trigger]
            by_mutant(entries).contains_key(key) <==> has_entry(entries, key),
        forall|i: int|
            0 <= i < entries.len() ==> by_mutant(entries)[(#[trigger] entries[i]).mutant]
                == entries[i],
    decreases entries.len(),
{
    if entries.len() > 0 {
        let most = entries.drop_last();
        let last = entries.last();
        distinct_entries_are_found(most);
        assert(!has_entry(most, last.mutant));
        assert(by_mutant(entries).dom() =~= by_mutant(most).dom().insert(last.mutant));
        assert forall|key: Seq<char>| #[trigger]
            by_mutant(entries).contains_key(key) <==> has_entry(entries, key) by {
            if has_entry(most, key) {
                let i = choose|i: int| 0 <= i < most.len() && (#[trigger] most[i]).mutant == key;
                assert(entries[i].mutant == key);
            }
            if key == last.mutant {
                assert(entries[entries.len() - 1].mutant == key);
            }
            if has_entry(entries, key) && key != last.mutant {
                let i = choose|i: int|
                    0 <= i < entries.len() && (#[trigger] entries[i]).mutant == key;
                assert(most[i].mutant == key);
            }
        }
        assert forall|i: int| 0 <= i < entries.len() implies by_mutant(entries)[(
        #[trigger] entries[i]).mutant] == entries[i] by {
            if i < most.len() {
                assert(most[i] == entries[i]);
                assert(entries[i].mutant != entries[entries.len() - 1].mutant);
            }
        }
    } else {
        assert(by_mutant(entries).dom() =~= Set::empty());
    }
}

/// The accepted classifications of a document, each under its exact mutant.
pub struct Accepted<'a> {
    entries: &'a Vec<ClassificationEntry>,
}

impl<'a> View for Accepted<'a> {
    type V = Map<Seq<char>, EntryView>;

    closed spec fn view(&self) -> Map<Seq<char>, EntryView> {
        by_mutant(entry_views(self.entries@))
    }
}

impl<'a> Accepted<'a> {
    pub closed spec fn valid(&self) -> bool {
        distinct_mutants(entry_views(self.entries@))
    }

    pub fn len(&self) -> (r: usize)
        requires
            self.valid(),
        ensures
            r == self@.dom().len(),
    {
        proof {
            distinct_entries_are_found(entry_views(self.entries@));
        }
        self.entries.len()
    }

    /// The entry for a mutant.
    pub fn get(&self, mutant: &str) -> (r: Option<&'a ClassificationEntry>)
        requires
            self.valid(),
        ensures
            match r {
                Some(entry) => self@.contains_key(mutant@) && self@[mutant@] == entry@,
                None => !self@.contains_key(mutant@),
            },
    {
        let ghost views = entry_views(self.entries@);
        proof {
            distinct_entries_are_found(views);
        }
        let mut i: usize = 0;
        while i < self.entries.len()
            invariant
                i <= self.entries.len(),
                views == entry_views(self.entries@),
                self@ == by_mutant(views),
                forall|key: Seq<char>| #[trigger]
                    by_mutant(views).contains_key(key) <==> has_entry(views, key),
                forall|j: int|
                    0 <= j < views.len() ==> by_mutant(views)[(#[trigger] views[j]).mutant]
                        == views[j],
                forall|j: int| 0 <= j < i ==> (#[trigger] views[j]).mutant != mutant@,
            decreases self.entries.len() - i,
        {
            let entry: &'a ClassificationEntry = &self.entries[i];
            proof {
                assert(views[i as int] == entry@);
            }
            if same_text(entry.mutant.as_str(), mutant) {
                return Some(entry);
            }
            i = i + 1;
        }
        None
    }
}

/// Where no entry from a position on is bad, each differs from all before it.
proof fn lemma_sound_entries_differ(
    entries: Seq<EntryView>,
    allowed: Seq<Classification>,
    from: int,
    j: int,
)
    requires
        0 <= from <= j < entries.len(),
        first_problem(entries, allowed, from) is None,
    ensures
        !has_entry(entries.take(j), entries[j].mutant),
    decreases j - from,
{
    if from < j {
        lemma_sound_entries_differ(entries, allowed, from + 1, j);
    }
}

/// Accepts a classification document whose policy is strict and whose entries are allowed,
/// explained and unique: each entry under its exact mutant, and no other.
pub fn validate_classification_document<'a>(document: &'a ClassificationDocument) -> (r: ToolResult<
    Accepted<'a>,
>)
    ensures
        match document_problem(*document) {
            Some(message) => fails(r, 2, message),
            None => r matches Ok(accepted) && accepted.valid() && accepted@ == by_mutant(
                entry_views(document.classifications@),
            ) && distinct_mutants(entry_views(document.classifications@)),
        },
{
    if document.schema_version != 1 {
        return Err(
            ToolFailure::mutation_outcome(
                joined(
                    "unsupported mutation classification schema ",
                    number_text(document.schema_version as u64).as_str(),
                ).as_str(),
            ),
        );
    }
    if trim(document.cargo_mutants_version.as_str()).as_str().is_empty() {
        return Err(
            ToolFailure::mutation_outcome(
                "mutation classification document has no cargo-mutants version",
            ),
        );
    }
    if !document.policy.survivors_require_exact_mutant_identity
        || !document.policy.unclassified_survivors_fail_the_lane {
        return Err(
            ToolFailure::mutation_outcome(
                "mutation classification policy must require exact identities and reject unclassified survivors",
            ),
        );
    }
    let allowed: &Vec<Classification> = &document.policy.allowed_classifications;
    if !unique(allowed) || allowed.len() == 0 {
        return Err(
            ToolFailure::mutation_outcome(
                "allowed mutation classifications must be unique and nonempty",
            ),
        );
    }
    let entries: &Vec<ClassificationEntry> = &document.classifications;
    let ghost views = entry_views(entries@);
    let mut i: usize = 0;
    while i < entries.len()
        invariant
            i <= entries.len(),
            views == entry_views(entries@),
            document_problem(*document) == first_problem(views, allowed@, i as int),
        decreases entries.len() - i,
    {
        if let Some(message) = check_entry(entries, allowed, i) {
            return Err(ToolFailure::mutation_outcome(message.as_str()));
        }
        i = i + 1;
    }
    proof {
        assert(document_problem(*document) is None);
        assert forall|a: int, b: int| 0 <= a < b < views.len() implies (#[trigger] views[a]).mutant
            != (#[trigger] views[b]).mutant by {
            lemma_sound_entries_differ(views, allowed@, 0, b);
            assert(views.take(b)[a] == views[a]);
        }
    }
    Ok(Accepted { entries })
}

/// The lines of a report that hold more than white space, without surrounding white space.
pub open spec fn nonempty_lines(lines: Seq<Seq<char>>) -> Seq<Seq<char>>
    decreases lines.len(),
{
    if lines.len() == 0 {
        seq![]
    } else {
        let before = nonempty_lines(lines.drop_last());
        let line = trimmed(lines.last());
        if line.len() == 0 {
            before
        } else {
            before.push(line)
        }
    }
}

/// The nonempty lines of a report; a report that was not written has none.
pub fn read_nonempty_lines(contents: Option<&str>) -> (r: Vec<String>)
    ensures
        texts(r@) == match contents {
            Some(c) => nonempty_lines(lines_of(c@)),
            None => seq![],
        },
{
    let mut out: Vec<String> = Vec::new();
    match contents {
        None => {
            proof {
                assert(texts(out@) =~= seq![]);
            }
            out
        },
        Some(c) => {
            let all: Vec<String> = lines(c);
            let ghost view = lines_of(c@);
            let mut i: usize = 0;
            proof {
                assert(texts(out@) =~= nonempty_lines(view.take(0)));
            }
            while i < all.len()
                invariant
                    i <= all.len(),
                    view == texts(all@),
                    texts(out@) == nonempty_lines(view.take(i as int)),
                decreases all.len() - i,
            {
                let line: String = trim(all[i].as_str());
                proof {
                    assert(view.take(i + 1).drop_last() =~= view.take(i as int));
                    assert(view.take(i + 1).last() == all@[i as int]@);
                    lemma_texts_push(out@, line);
                }
                if !line.as_str().is_empty() {
                    out.push(line);
                }
                i = i + 1;
            }
            proof {
                assert(view.take(i as int) =~= view);
            }
            out
        },
    }
}

/// What the reports of a failed campaign rule out before any classification is read.
pub open spec fn outcome_problem(timeouts: Seq<Seq<char>>, missed: Seq<Seq<char>>) -> Option<
    Seq<char>,
> {
    if timeouts.len() > 0 {
        Some(
            "mutation lane has "@ + decimal(timeouts.len())
                + " timeout(s); classifications cannot hide timeouts"@,
        )
    } else if missed.len() == 0 {
        Some("cargo-mutants failed without a classifiable missed mutant"@)
    } else {
        None
    }
}

pub fn check_outcome(timeouts: &Vec<String>, missed: &Vec<String>) -> (r: ToolResult<()>)
    ensures
        match outcome_problem(texts(timeouts@), texts(missed@)) {
            Some(message) => fails(r, 2, message),
            None => r is Ok,
        },
{
    if timeouts.len() > 0 {
        return Err(
            ToolFailure::mutation_outcome(
                joined3(
                    "mutation lane has ",
                    number_text(timeouts.len() as u64).as_str(),
                    " timeout(s); classifications cannot hide timeouts",
                ).as_str(),
            ),
        );
    }
    if missed.len() == 0 {
        return Err(
            ToolFailure::mutation_outcome(
                "cargo-mutants failed without a classifiable missed mutant",
            ),
        );
    }
    Ok(())
}

/// Whether an entry list has an entry for a mutant.
pub open spec fn has_entry(entries: Seq<EntryView>, mutant: Seq<char>) -> bool {
    exists|i: int| 0 <= i < entries.len() && (#[trigger] entries[i]).mutant == mutant
}

/// The missed mutants without an entry, each on a line of its own.
pub open spec fn unexplained_lines(missed: Seq<Seq<char>>, entries: Seq<EntryView>) -> Seq<char>
    decreases missed.len(),
{
    if missed.len() == 0 {
        seq![]
    } else {
        let before = unexplained_lines(missed.drop_last(), entries);
        if has_entry(entries, missed.last()) {
            before
        } else {
            before + "\n- "@ + missed.last()
        }
    }
}

pub open spec fn all_explained(missed: Seq<Seq<char>>, entries: Seq<EntryView>) -> bool {
    forall|i: int| 0 <= i < missed.len() ==> has_entry(entries, #[trigger] missed[i])
}

/// The report of a lane whose survivors are all classified: one entry per missed mutant, in the
/// order of the misses, each taken from the document.
pub open spec fn reports(
    report: ClassificationReport,
    missed: Seq<Seq<char>>,
    document: ClassificationDocument,
) -> bool {
    &&& report.schema_version == 1
    &&& report.cargo_mutants_version@ == document.cargo_mutants_version@
    &&& report.timeouts@.len() == 0
    &&& report.missed@.len() == missed.len()
    &&& forall|i: int|
        0 <= i < missed.len() ==> (#[trigger] report.missed@[i])@.mutant == missed[i]
            && entry_views(document.classifications@).contains(report.missed@[i]@)
}

fn entry_for(entries: &Vec<ClassificationEntry>, mutant: &str) -> (r: Option<usize>)
    ensures
        match r {
            Some(i) => i < entries.len() && entries@[i as int]@.mutant == mutant@ && has_entry(
                entry_views(entries@),
                mutant@,
            ),
            None => !has_entry(entry_views(entries@), mutant@),
        },
{
    let ghost views = entry_views(entries@);
    let mut i: usize = 0;
    while i < entries.len()
        invariant
            i <= entries.len(),
            views == entry_views(entries@),
            forall|j: int| 0 <= j < i ==> (#[trigger] views[j]).mutant != mutant@,
        decreases entries.len() - i,
    {
        if same_text(entries[i].mutant.as_str(), mutant) {
            proof {
                assert(views[i as int].mutant == mutant@);
            }
            return Some(i);
        }
        i = i + 1;
    }
    None
}

/// Classifies the survivors of a campaign that ended with missed mutants: every one of them needs
/// an entry of its exact identity in a valid document.
pub fn classify_mutation_outcomes(
    timeouts: &Vec<String>,
    missed: &Vec<String>,
    document: &ClassificationDocument,
) -> (r: ToolResult<ClassificationReport>)
    ensures
        ({
            let misses = texts(missed@);
            let entries = entry_views(document.classifications@);
            match outcome_problem(texts(timeouts@), misses) {
                Some(message) => fails(r, 2, message),
                None => match document_problem(*document) {
                    Some(message) => fails(r, 2, message),
                    None => if all_explained(misses, entries) {
                        r matches Ok(report) && reports(report, misses, *document)
                    } else {
                        fails(
                            r,
                            2,
                            "unclassified surviving mutants:"@ + unexplained_lines(misses, entries),
                        )
                    },
                },
            }
        }),
        r is Ok <==> timeouts@.len() == 0 && missed@.len() > 0 && document_problem(*document)
            is None && all_explained(texts(missed@), entry_views(document.classifications@)),
{
    check_outcome(timeouts, missed)?;
    validate_classification_document(document)?;
    let entries: &Vec<ClassificationEntry> = &document.classifications;
    let ghost views = entry_views(entries@);
    let ghost misses = texts(missed@);
    let mut classified: Vec<ClassificationEntry> = Vec::new();
    let mut message: String = "unclassified surviving mutants:".to_owned();
    let mut complete: bool = true;
    let mut i: usize = 0;
    proof {
        assert(message@ =~= "unclassified surviving mutants:"@ + unexplained_lines(
            misses.take(0),
            views,
        ));
    }
    while i < missed.len()
        invariant
            i <= missed.len(),
            views == entry_views(entries@),
            misses == texts(missed@),
            complete <==> all_explained(misses.take(i as int), views),
            message@ == "unclassified surviving mutants:"@ + unexplained_lines(
                misses.take(i as int),
                views,
            ),
            complete ==> classified.len() == i,
            complete ==> forall|j: int|
                0 <= j < i ==> (#[trigger] classified@[j])@.mutant == misses[j] && views.contains(
                    classified@[j]@,
                ),
        decreases missed.len() - i,
    {
        let ghost next = misses.take(i + 1);
        proof {
            assert(next.drop_last() =~= misses.take(i as int));
            assert(next.last() == missed@[i as int]@);
            assert(forall|j: int| 0 <= j < i ==> next[j] == misses.take(i as int)[j]);
        }
        match entry_for(entries, missed[i].as_str()) {
            Some(k) => {
                proof {
                    assert(views[k as int] == entries@[k as int]@);
                    if complete {
                        assert forall|j: int| 0 <= j < next.len() implies has_entry(
                            views,
                            #[trigger] next[j],
                        ) by {
                            if j < i {
                                assert(misses.take(i as int)[j] == next[j]);
                            }
                        }
                    } else {
                        let w = choose|j: int|
                            0 <= j < misses.take(i as int).len() && !has_entry(
                                views,
                                #[trigger] misses.take(i as int)[j],
                            );
                        assert(!has_entry(views, next[w]));
                    }
                }
                classified.push(entries[k].copy());
            },
            None => {
                proof {
                    assert(!has_entry(views, next[i as int]));
                    assert(("unclassified surviving mutants:"@ + unexplained_lines(
                        misses.take(i as int),
                        views,
                    )) + "\n- "@ + missed@[i as int]@ =~= "unclassified surviving mutants:"@ + (
                    unexplained_lines(misses.take(i as int), views) + "\n- "@
                        + missed@[i as int]@));
                }
                complete = false;
                message.append("\n- ");
                message.append(missed[i].as_str());
            },
        }
        i = i + 1;
    }
    proof {
        assert(misses.take(i as int) =~= misses);
    }
    if !complete {
        return Err(ToolFailure::mutation_outcome(message.as_str()));
    }
    Ok(
        ClassificationReport {
            schema_version: 1,
            cargo_mutants_version: document.cargo_mutants_version.as_str().to_owned(),
            missed: classified,
            timeouts: Vec::new(),
        },
    )
}

/// Requires a complete specification all of whose sources are among the files that exist.
pub fn validate_specification(specification: &ShardSpecification, present: &Vec<String>) -> (r:
    ToolResult<()>)
    ensures
        ({
            let files = specification.files@;
            if files.len() == 0 || specification.pattern@.len() == 0
                || specification.test_packages@.len() == 0 {
                fails(r, 1, "mutation shard specification must be complete"@)
            } else {
                match first_missing(files, texts(present@), 0) {
                    Some(file) => fails(r, 1, "mutation shard source does not exist: "@ + file),
                    None => r is Ok,
                }
            }
        }),
{
    if specification.files.len() == 0 || specification.pattern.is_empty()
        || specification.test_packages.len() == 0 {
        return Err(ToolFailure::operational("mutation shard specification must be complete"));
    }
    let files: &Vec<&'static str> = &specification.files;
    let mut i: usize = 0;
    while i < files.len()
        invariant
            i <= files.len(),
            files@ == specification.files@,
            files@.len() > 0,
            specification.pattern@.len() > 0,
            specification.test_packages@.len() > 0,
            first_missing(files@, texts(present@), 0) == first_missing(
                files@,
                texts(present@),
                i as int,
            ),
        decreases files.len() - i,
    {
        if !crate::text::listed(present, files[i]) {
            return Err(
                ToolFailure::operational(
                    joined("mutation shard source does not exist: ", files[i]).as_str(),
                ),
            );
        }
        i = i + 1;
    }
    Ok(())
}

/// The first file from a position on that is not present.
pub open spec fn first_missing(files: Seq<&'static str>, present: Seq<Seq<char>>, from: int) -> Option<
    Seq<char>,
>
    decreases files.len() - from,
{
    if from < 0 || from >= files.len() {
        None
    } else if !present.contains(files[from]@) {
        Some(files[from]@)
    } else {
        first_missing(files, present, from + 1)
    }
}

/// Where a campaign writes its reports: the configured directory, or one per shard.
pub fn mutation_output(shard: MutationShard, configured: Option<&str>) -> (r: ToolResult<String>)
    ensures
        match configured {
            Some(value) => if value@.len() == 0 {
                fails(r, 1, "CARGO_MUTANTS_OUTPUT must not be empty"@)
            } else {
                r matches Ok(path) && path@ == value@
            },
            None => r matches Ok(path) && path@ == "target/mutation/"@ + shard_name(shard)@,
        },
{
    match configured {
        Some(value) => {
            if value.is_empty() {
                Err(ToolFailure::operational("CARGO_MUTANTS_OUTPUT must not be empty"))
            } else {
                Ok(value.to_owned())
            }
        },
        None => Ok(joined("target/mutation/", shard.name())),
    }
}

/// What the environment says of a setting.
pub enum Setting {
    Absent,
    NotUnicode,
    Text { value: String },
}

/// The number of jobs of a campaign: a positive number, where one is configured.
pub fn mutation_jobs(configured: &Setting) -> (r: ToolResult<u32>)
    ensures
        match configured {
            Setting::Absent => r == Ok::<u32, ToolFailure>(DEFAULT_JOBS),
            Setting::NotUnicode => fails(r, 1, "CARGO_MUTANTS_JOBS must be valid Unicode"@),
            Setting::Text { value } => match unsigned(value@, u32::MAX as nat) {
                None => fails(
                    r,
                    1,
                    "CARGO_MUTANTS_JOBS must be a positive integer: "@ + number_problem(
                        value@,
                        u32::MAX as nat,
                    ),
                ),
                Some(n) => if n == 0 {
                    fails(r, 1, "CARGO_MUTANTS_JOBS must be greater than zero"@)
                } else {
                    r matches Ok(jobs) && jobs == n
                },
            },
        },
{
    match configured {
        Setting::Absent => Ok(DEFAULT_JOBS),
        Setting::NotUnicode => Err(
            ToolFailure::operational("CARGO_MUTANTS_JOBS must be valid Unicode"),
        ),
        Setting::Text { value } => match parse_number(value.as_str(), u32::MAX as u64) {
            Err(reason) => Err(
                ToolFailure::operational(
                    joined("CARGO_MUTANTS_JOBS must be a positive integer: ", reason).as_str(),
                ),
            ),
            Ok(jobs) => if jobs == 0 {
                Err(ToolFailure::operational("CARGO_MUTANTS_JOBS must be greater than zero"))
            } else {
                Ok(jobs as u32)
            },
        },
    }
}

/// One option before each value of a list.
pub open spec fn options(option: Seq<char>, values: Seq<&'static str>) -> Seq<Seq<char>>
    decreases values.len(),
{
    if values.len() == 0 {
        seq![]
    } else {
        options(option, values.drop_last()).push(option).push(values.last()@)
    }
}

/// The arguments of the mutation tool for one campaign.
pub open spec fn command_of(output: Seq<char>, jobs: u32, plan: ShardPlan, list: bool) -> Seq<
    Seq<char>,
> {
    let fixed = seq![
        "mutants"@,
        "--workspace"@,
        "--output"@,
        output,
        "--jobs"@,
        decimal(jobs as nat),
        "--re"@,
        plan.pattern@,
        "--baseline"@,
        "run"@,
        "--build-timeout"@,
        "180"@,
        "--no-shuffle"@,
    ];
    fixed + options("--file"@, plan.files) + options("--test-package"@, plan.test_packages)
        + options("--cargo-test-arg"@, plan.cargo_test_arguments) + (if list {
        seq!["--list"@]
    } else {
        seq![]
    })
}

fn add(out: &mut Vec<String>, word: &str)
    ensures
        texts(final(out)@) == texts(old(out)@).push(word@),
{
    let w: String = word.to_owned();
    proof {
        lemma_texts_push(out@, w);
    }
    out.push(w);
}

fn add_options(out: &mut Vec<String>, option: &str, values: &Vec<&'static str>)
    ensures
        texts(final(out)@) == texts(old(out)@) + options(option@, values@),
{
    let ghost start = texts(out@);
    let mut i: usize = 0;
    proof {
        assert(start + options(option@, values@.take(0)) =~= start);
    }
    while i < values.len()
        invariant
            i <= values.len(),
            texts(out@) == start + options(option@, values@.take(i as int)),
        decreases values.len() - i,
    {
        self::add(out, option);
        self::add(out, values[i]);
        proof {
            assert(values@.take(i + 1).drop_last() =~= values@.take(i as int));
            assert(texts(out@) =~= start + options(option@, values@.take(i + 1)));
        }
        i = i + 1;
    }
    proof {
        assert(values@.take(i as int) =~= values@);
    }
}

/// The arguments of the mutation tool; with `list` it only names the selected mutants.
pub fn mutation_command(
    output: &str,
    jobs: u32,
    specification: &ShardSpecification,
    list: bool,
) -> (r: Vec<String>)
    ensures
        texts(r@) == command_of(output@, jobs, specification@, list),
{
    let mut out: Vec<String> = Vec::new();
    proof {
        assert(texts(out@) =~= seq![]);
    }
    self::add(&mut out, "mutants");
    self::add(&mut out, "--workspace");
    self::add(&mut out, "--output");
    self::add(&mut out, output);
    self::add(&mut out, "--jobs");
    self::add(&mut out, number_text(jobs as u64).as_str());
    self::add(&mut out, "--re");
    self::add(&mut out, specification.pattern);
    self::add(&mut out, "--baseline");
    self::add(&mut out, "run");
    self::add(&mut out, "--build-timeout");
    self::add(&mut out, "180");
    self::add(&mut out, "--no-shuffle");
    add_options(&mut out, "--file", &specification.files);
    add_options(&mut out, "--test-package", &specification.test_packages);
    add_options(&mut out, "--cargo-test-arg", &specification.cargo_test_arguments);
    let ghost body = texts(out@);
    if list {
        self::add(&mut out, "--list");
        proof {
            assert(body.push("--list"@) =~= body + seq!["--list"@]);
        }
    } else {
        proof {
            assert(body + Seq::<Seq<char>>::empty() =~= body);
        }
    }
    out
}

/// What follows the end of the mutation tool.
#[derive(Clone, Copy, Debug, PartialEq, Eq, Structural)]
pub enum Conclusion {
    /// The process ends with this code.
    Exit { code: u8 },
    /// Mutants were missed: they have to be classified.
    Classify,
}

/// The exit code of a tool that may have ended without one, or with one that no process can hand
/// on.
pub open spec fn status_code(code: Option<i32>) -> u8 {
    match code {
        Some(c) => if 0 <= c <= 255 {
            c as u8
        } else {
            1
        },
        None => 1,
    }
}

/// A listing, and every end but that with missed mutants, is handed on.
pub fn conclude(list: bool, code: Option<i32>) -> (r: Conclusion)
    ensures
        r == (if list || status_code(code) != 2 {
            Conclusion::Exit { code: status_code(code) }
        } else {
            Conclusion::Classify
        }),
{
    let status: u8 = match code {
        Some(c) => if 0 <= c && c <= 255 {
            c as u8
        } else {
            1
        },
        None => 1,
    };
    if list || status != 2 {
        Conclusion::Exit { code: status }
    } else {
        Conclusion::Classify
    }
}

/// Every end that a process can hand on is handed on as it is, but that with missed mutants
/// outside of a listing, which alone is classified; an end without such a code is handed on as 1.
/// So the lane succeeds at once only where the tool ended with 0.
pub proof fn ends_are_handed_on(list: bool, code: Option<i32>, r: Conclusion)
    requires
        call_ensures(conclude, (list, code), r),
    ensures
        forall|c: i32|
            #![trigger c as u8]
            code == Some(c) && 0 <= c <= 255 && (list || c != 2) ==> r == (Conclusion::Exit {
                code: c as u8,
            }),
        code == Some(2i32) && !list <==> r == Conclusion::Classify,
        r == (Conclusion::Exit { code: 0 }) <==> code == Some(0i32),
        code is None ==> r == (Conclusion::Exit { code: 1 }),
        code matches Some(c) && (c < 0 || c > 255) ==> r == (Conclusion::Exit { code: 1 }),
{
}

/// A path of the repository: an absolute path stays, another stands under the repository.
pub fn resolve_path(repository: &str, path: &str) -> (r: String)
    ensures
        r@ == under(repository@, path@),
{
    joined_path(repository, path)
}

/// The words that announce an accepted survivor.
pub fn announcement(entry: &ClassificationEntry) -> (r: String)
    ensures
        r@ == "CLASSIFIED "@ + classification_name(entry.classification)@ + ": "@ + entry.mutant@,
{
    let mut out: String = joined3("CLASSIFIED ", entry.classification.name(), ": ");
    out.append(entry.mutant.as_str());
    out
}

proof fn lemma_no_problem(entries: Seq<EntryView>, allowed: Seq<Classification>, from: int, i: int)
    requires
        0 <= from <= i < entries.len(),
        first_problem(entries, allowed, from) is None,
    ensures
        entry_problem(entries, allowed, i) is None,
    decreases i - from,
{
    if from < i {
        lemma_no_problem(entries, allowed, from + 1, i);
    }
}

/// In a valid document every entry is allowed, names a mutant, is explained in at least twenty
/// bytes, and no two entries name one mutant.
pub proof fn valid_documents_identify_mutants(document: ClassificationDocument, i: int, j: int)
    requires
        document_problem(document) is None,
        0 <= i < j < document.classifications@.len(),
    ensures
        ({
            let entries = entry_views(document.classifications@);
            &&& entries[i].mutant != entries[j].mutant
            &&& trimmed(entries[j].mutant).len() > 0
            &&& document.policy.allowed_classifications@.contains(entries[j].classification)
            &&& byte_len(trimmed(entries[j].explanation)) >= 20
        }),
{
    let entries = entry_views(document.classifications@);
    let allowed = document.policy.allowed_classifications@;
    lemma_no_problem(entries, allowed, 0, j);
    let before = entries.take(j);
    assert(before[i] == entries[i]);
    if entries[i].mutant == entries[j].mutant {
        assert(has_entry(before, entries[j].mutant));
    }
}

} // verus!
