//! Mutation campaigns: their shards, their commands and what becomes of survivors.

use vstd::prelude::*;
use vstd::utf8::encode_utf8;

use crate::mutation::{
    announcement, check_outcome, classify_mutation_outcomes, entry_problem, entry_views, fails,
    first_missing, first_problem, has_entry, mutation_command, mutation_jobs, mutation_output,
    nonempty_lines, options, read_nonempty_lines, resolve_path, validate_classification_document,
    validate_specification, Accepted, Arguments, Classification, ClassificationDocument,
    ClassificationEntry, ClassificationReport, EntryView, MutationShard, Setting,
    ShardSpecification, ToolResult,
};
use crate::text::{decimal, lines_of, texts, trimmed, unsigned};

verus! {

/// A shard is called by its name.
pub proof fn shards_are_named(shard: MutationShard, r: &'static str)
    requires
        call_ensures(MutationShard::name, (shard,), r),
    ensures
        shard == MutationShard::Authority ==> r@ == "authority"@,
        shard == MutationShard::Retention ==> r@ == "retention"@,
        shard == MutationShard::Runtime ==> r@ == "runtime"@,
        shard == MutationShard::Uncertainty ==> r@ == "uncertainty"@,
        shard == MutationShard::Controller ==> r@ == "controller"@,
        shard == MutationShard::Context ==> r@ == "context"@,
        shard == MutationShard::Peer ==> r@ == "peer"@,
{
}

/// A name is that of one shard, or of none.
pub proof fn names_are_of_shards(name: &str, r: Option<MutationShard>)
    requires
        call_ensures(MutationShard::from_name, (name,), r),
    ensures
        name@ == "authority"@ <==> r == Some(MutationShard::Authority),
        name@ == "retention"@ <==> r == Some(MutationShard::Retention),
        name@ == "runtime"@ <==> r == Some(MutationShard::Runtime),
        name@ == "uncertainty"@ <==> r == Some(MutationShard::Uncertainty),
        name@ == "controller"@ <==> r == Some(MutationShard::Controller),
        name@ == "context"@ <==> r == Some(MutationShard::Context),
        name@ == "peer"@ <==> r == Some(MutationShard::Peer),
{
    reveal_strlit("authority");
    reveal_strlit("retention");
    reveal_strlit("runtime");
    reveal_strlit("uncertainty");
    reveal_strlit("controller");
    reveal_strlit("context");
    reveal_strlit("peer");
    assert(
        "retention"@.len() == 9 && "authority"@.len() == 9 && "authority"@[0] != "retention"@[0]
    );
    assert("runtime"@.len() == 7 && "context"@.len() == 7 && "runtime"@[0] != "context"@[0]);
    assert("uncertainty"@.len() == 11 && "controller"@.len() == 10 && "peer"@.len() == 4);
}

/// What each shard mutates, by which pattern, and which tests have to notice.
pub proof fn shards_cover_their_sources(shard: MutationShard, r: ShardSpecification)
    requires
        call_ensures(MutationShard::specification, (shard,), r),
    ensures
        shard == MutationShard::Authority
            ==> r.files@
                =~= seq![
                    "crates/authority/src/selection.rs",
                    "crates/authority/src/evaluator.rs",
                    "crates/authority/src/model/capability.rs",
                    "crates/authority/src/model/resource.rs",
                    "adapters/redb-store/src/peer.rs",
                    "adapters/redb-store/src/peer/validation.rs",
                ]
                && r.pattern
                    == "(Selection.*(matches|is_subset_of)|validate_count|GrantSetEvaluator.*evaluate|CapabilityAuthorityScope::is_subset_of|AuthorityBudget::fits_within|within|validate_admission)"
                && r.test_packages@
                    =~= seq!["milkdrift-authority", "milkdrift-peer-http", "milkdrift-evidence"]
                && r.cargo_test_arguments@ =~= Seq::<&'static str>::empty(),
        shard == MutationShard::Retention
            ==> r.files@ =~= seq!["adapters/redb-store/src/application.rs"]
                && r.pattern
                    == "(commit_application_command|archive_application_command_receipts|archive_oldest_hot_receipts|receipt_accounting_values|ReceiptLocation::status)"
                && r.test_packages@ =~= seq!["milkdrift-redb-store", "milkdrift-evidence"]
                && r.cargo_test_arguments@ =~= Seq::<&'static str>::empty(),
        shard == MutationShard::Runtime
            ==> r.files@
                =~= seq!["crates/runtime/src/engine/reconciliation.rs", "crates/runtime/src/engine.rs"]
                && r.pattern
                    == "(handle_new_command|replay_if_present|projection_checkpoint_due|plan_revision_adoption|plan_reconciliation_decision|plan_reconciliation_application)"
                && r.test_packages@ =~= seq!["milkdrift-runtime"]
                && r.cargo_test_arguments@
                    =~= seq!["--lib", "--test", "durable_runtime", "--test", "structured_runtime"],
        shard == MutationShard::Uncertainty
            ==> r.files@
                =~= seq![
                    "crates/runtime/src/engine/effects.rs",
                    "crates/runtime/src/engine/support.rs",
                ]
                && r.pattern == "(recovery_classification|record_effect_uncertainty)"
                && r.test_packages@ =~= seq!["milkdrift-runtime"]
                && r.cargo_test_arguments@ =~= seq!["--test", "structured_runtime"],
        shard == MutationShard::Controller
            ==> r.files@
                =~= seq![
                    "crates/control/src/controller/lifecycle.rs",
                    "crates/control/src/controller/policy.rs",
                ]
                && r.pattern
                    == "(ControllerPolicy::assess|ControllerLifecycleOwner.*(progress|assess)|bound_outcome)"
                && r.test_packages@ =~= seq!["milkdrift-control"]
                && r.cargo_test_arguments@ =~= seq!["--lib", "--test", "control_service"],
        shard == MutationShard::Context
            ==> r.files@ =~= seq!["crates/runtime/src/context.rs"]
                && r.pattern == "(CausalContextBuilder::build|budget_overflow)"
                && r.test_packages@ =~= seq!["milkdrift-runtime"]
                && r.cargo_test_arguments@ =~= seq!["--test", "causal_context"],
        shard == MutationShard::Peer
            ==> r.files@
                =~= seq![
                    "adapters/redb-store/src/peer.rs",
                    "adapters/redb-store/src/peer/accounting.rs",
                    "adapters/redb-store/src/peer/retention.rs",
                    "adapters/redb-store/src/peer/validation.rs",
                ]
                && r.pattern
                    == "(admit_peer_execution|claim_peer_dispatch|mark_peer_entered|release_peer_claim|mark_peer_uncertain|append_peer_observation|request_peer_cancellation|acknowledge_peer_cancellation|recover_peer_claims|archive_peer_executions|release_active_accounting|validate_record|validate_tombstone)"
                && r.test_packages@ =~= seq!["milkdrift-peer-http", "milkdrift-evidence"]
                && r.cargo_test_arguments@ =~= Seq::<&'static str>::empty(),
{
}

/// A command line selects the shard that it names, and lists exactly where it asks for it.
pub proof fn matches_select_a_shard(
    matched: Option<(String, bool)>,
    shard: Option<MutationShard>,
    name: &str,
    r: Option<Arguments>,
)
    requires
        call_ensures(Arguments::from_matches, (matched,), r),
        call_ensures(MutationShard::from_name, (name,), shard),
        matched matches Some(m) ==> m.0@ == name@,
    ensures
        matched is None ==> r is None,
        matched matches Some(m) ==> match shard {
            Some(s) => r == Some(Arguments { shard: s, list: m.1 }),
            None => r is None,
        },
{
}

/// A command line with a shard's name runs it, and one with the list option beside it lists it; a
/// command line without words, or with another option, is not understood.
pub proof fn commands_name_a_shard(
    arguments: &Vec<String>,
    name: &str,
    shard: Option<MutationShard>,
    r: Option<Arguments>,
)
    requires
        call_ensures(Arguments::try_parse_from, (arguments,), r),
        call_ensures(MutationShard::from_name, (name,), shard),
    ensures
        arguments@.len() == 1 ==> r is None,
        arguments@.len() == 2 && arguments@[1]@ == name@ && name@.len() > 0 && name@[0] != '-'
            ==> match shard {
            Some(s) => r == Some(Arguments { shard: s, list: false }),
            None => r is None,
        },
        arguments@.len() == 3 && name@.len() > 0 && name@[0] != '-' && ((arguments@[1]@ == name@
            && arguments@[2]@ == "--list"@) || (arguments@[2]@ == name@ && arguments@[1]@
            == "--list"@)) ==> match shard {
            Some(s) => r == Some(Arguments { shard: s, list: true }),
            None => r is None,
        },
{
    reveal_strlit("--list");
}

/// A classification is called by its name.
pub proof fn classifications_are_named(c: Classification, r: &'static str)
    requires
        call_ensures(Classification::name, (c,), r),
    ensures
        c == Classification::Equivalent ==> r@ == "equivalent"@,
        c == Classification::UnreachableByValidContract ==> r@ == "unreachable_by_valid_contract"@,
        c == Classification::ToolLimitation ==> r@ == "tool_limitation"@,
{
}

/// An announcement names the classification and the mutant.
pub proof fn announcements_name_the_mutant(
    entry: &ClassificationEntry,
    name: &'static str,
    r: String,
)
    requires
        call_ensures(Classification::name, (entry.classification,), name),
        call_ensures(announcement, (entry,), r),
    ensures
        r@ == "CLASSIFIED "@ + name@ + ": "@ + entry.mutant@,
{
}

/// Whether a policy is strict: it has a version and a tool, asks for exact identities, lets no
/// survivor go unclassified, and allows at least one classification, none of them twice.
pub open spec fn strict_policy(document: ClassificationDocument) -> bool {
    &&& document.schema_version == 1
    &&& trimmed(document.cargo_mutants_version@).len() > 0
    &&& document.policy.survivors_require_exact_mutant_identity
    &&& document.policy.unclassified_survivors_fail_the_lane
    &&& document.policy.allowed_classifications@.len() > 0
    &&& forall|i: int, j: int|
        0 <= i < j < document.policy.allowed_classifications@.len()
            ==> document.policy.allowed_classifications@[i]
            != document.policy.allowed_classifications@[j]
}

/// Whether an entry names a mutant, is allowed, and is explained in at least twenty bytes.
pub open spec fn sound_entry(document: ClassificationDocument, i: int) -> bool {
    let entry = document.classifications@[i];
    &&& trimmed(entry.mutant@).len() > 0
    &&& document.policy.allowed_classifications@.contains(entry.classification)
    &&& encode_utf8(trimmed(entry.explanation@)).len() as usize >= 20
}

proof fn lemma_problems(entries: Seq<EntryView>, allowed: Seq<Classification>, from: int)
    requires
        0 <= from <= entries.len(),
    ensures
        first_problem(entries, allowed, from) is None <==> forall|i: int|
            from <= i < entries.len() ==> #[trigger] entry_problem(entries, allowed, i) is None,
    decreases entries.len() - from,
{
    if from < entries.len() {
        lemma_problems(entries, allowed, from + 1);
        if entry_problem(entries, allowed, from) is None && first_problem(
            entries,
            allowed,
            from + 1,
        ) is None {
            assert forall|i: int| from <= i < entries.len() implies #[trigger] entry_problem(
                entries,
                allowed,
                i,
            ) is None by {
                if i > from {
                    assert(from + 1 <= i);
                }
            }
        }
    }
}

/// A document is accepted exactly where its policy is strict, every entry is sound, and no mutant
/// is classified twice; a refusal ends the lane with code two.
pub proof fn documents_are_sound(document: &ClassificationDocument, r: ToolResult<Accepted>)
    requires
        call_ensures(validate_classification_document, (document,), r),
    ensures
        r is Ok <==> {
            let n = document.classifications@.len();
            &&& strict_policy(*document)
            &&& forall|i: int| 0 <= i < n ==> #[trigger] sound_entry(*document, i)
            &&& forall|i: int, j: int|
                0 <= i < j < n ==> (#[trigger] document.classifications@[i]).mutant@ != (
                #[trigger] document.classifications@[j]).mutant@
        },
        r matches Err(f) ==> f.exit_code == 2,
        document.schema_version != 1 ==> fails(
            r,
            2,
            "unsupported mutation classification schema "@ + decimal(
                document.schema_version as nat,
            ),
        ),
        r matches Ok(accepted) ==> forall|i: int|
            0 <= i < document.classifications@.len() ==> accepted@.contains_key(
                (#[trigger] document.classifications@[i]).mutant@,
            ) && accepted@[document.classifications@[i].mutant@] == document.classifications@[i]@,
{
    let entries = entry_views(document.classifications@);
    let allowed = document.policy.allowed_classifications@;
    lemma_problems(entries, allowed, 0);
    assert(entries.len() == document.classifications@.len());
    assert forall|i: int| 0 <= i < entries.len() implies #[trigger] entries[i]
        == document.classifications@[i]@ by {}
    if strict_policy(*document) {
        assert(allowed.no_duplicates());
        if first_problem(entries, allowed, 0) is None {
            assert forall|i: int| 0 <= i < entries.len() implies #[trigger] sound_entry(
                *document,
                i,
            ) by {
                assert(entry_problem(entries, allowed, i) is None);
            }
            assert forall|i: int, j: int| 0 <= i < j < entries.len() implies (
            #[trigger] document.classifications@[i]).mutant@ != (
            #[trigger] document.classifications@[j]).mutant@ by {
                assert(entry_problem(entries, allowed, j) is None);
                assert(entries.take(j)[i] == entries[i]);
            }
        } else {
            let i = choose|i: int|
                0 <= i < entries.len() && !(#[trigger] entry_problem(entries, allowed, i) is None);
            if sound_entry(*document, i) {
                assert(has_entry(entries.take(i), entries[i].mutant));
                let k = choose|k: int|
                    0 <= k < i && (#[trigger] entries.take(i)[k]).mutant == entries[i].mutant;
                assert(entries.take(i)[k] == entries[k]);
                assert(
                    document.classifications@[k].mutant@ == document.classifications@[i].mutant@
                );
            }
        }
    }
    if r is Ok {
        assert(allowed.no_duplicates());
        crate::mutation::distinct_entries_are_found(entries);
        assert forall|i: int| 0 <= i < entries.len() implies r->Ok_0@.contains_key(
            (#[trigger] document.classifications@[i]).mutant@,
        ) by {
            assert(entries[i].mutant == document.classifications@[i].mutant@);
            assert(has_entry(entries, entries[i].mutant));
        }
    }
}

proof fn lemma_nonempty(lines: Seq<Seq<char>>, line: Seq<char>)
    ensures
        nonempty_lines(lines).contains(line) <==> line.len() > 0 && exists|i: int|
            0 <= i < lines.len() && trimmed(#[trigger] lines[i]) == line,
    decreases lines.len(),
{
    if lines.len() > 0 {
        let before = lines.drop_last();
        let last = trimmed(lines.last());
        lemma_nonempty(before, line);
        let kept = nonempty_lines(before);
        let v = nonempty_lines(lines);
        assert(lines[lines.len() - 1] == lines.last());
        if exists|i: int| 0 <= i < before.len() && trimmed(#[trigger] before[i]) == line {
            let i = choose|i: int| 0 <= i < before.len() && trimmed(#[trigger] before[i]) == line;
            assert(trimmed(lines[i]) == line);
        }
        if exists|i: int| 0 <= i < lines.len() && trimmed(#[trigger] lines[i]) == line {
            let i = choose|i: int| 0 <= i < lines.len() && trimmed(#[trigger] lines[i]) == line;
            if i < before.len() {
                assert(trimmed(before[i]) == line);
            }
        }
        if last.len() > 0 {
            assert(v == kept.push(last));
            assert(v[v.len() - 1] == last);
            if kept.contains(line) {
                let k = choose|k: int| 0 <= k < kept.len() && kept[k] == line;
                assert(v[k] == line);
            }
            if v.contains(line) && line != last {
                let k = choose|k: int| 0 <= k < v.len() && v[k] == line;
                assert(kept[k] == line);
            }
        }
    }
}

/// The lines of a file are read without their blanks, and blank lines not at all; a file that is
/// not there has none.
pub proof fn listed_lines_are_read(contents: Option<&str>, line: Seq<char>, r: Vec<String>)
    requires
        call_ensures(read_nonempty_lines, (contents,), r),
    ensures
        contents is None ==> r@.len() == 0,
        contents matches Some(c) ==> (texts(r@).contains(line) <==> line.len() > 0 && exists|i: int|
            0 <= i < lines_of(c@).len() && trimmed(#[trigger] lines_of(c@)[i]) == line),
{
    assert(texts(r@).len() == r@.len());
    if contents is Some {
        lemma_nonempty(lines_of(contents->Some_0@), line);
    }
}

/// Survivors can be classified exactly where nothing timed out and something survived.
pub proof fn timeouts_are_not_classified(
    timeouts: &Vec<String>,
    missed: &Vec<String>,
    r: ToolResult<()>,
)
    requires
        call_ensures(check_outcome, (timeouts, missed), r),
    ensures
        r is Ok <==> timeouts@.len() == 0 && missed@.len() > 0,
        timeouts@.len() > 0 ==> fails(
            r,
            2,
            "mutation lane has "@ + decimal(timeouts@.len())
                + " timeout(s); classifications cannot hide timeouts"@,
        ),
        timeouts@.len() == 0 && missed@.len() == 0 ==> fails(
            r,
            2,
            "cargo-mutants failed without a classifiable missed mutant"@,
        ),
{
    assert(texts(timeouts@).len() == timeouts@.len());
    assert(texts(missed@).len() == missed@.len());
}

/// Whether a document classifies a mutant by its exact identity.
pub open spec fn classifies(document: ClassificationDocument, mutant: Seq<char>) -> bool {
    exists|j: int|
        0 <= j < document.classifications@.len() && (
        #[trigger] document.classifications@[j]).mutant@ == mutant
}

/// A lane passes exactly where nothing timed out, something survived, the document is accepted, and
/// it classifies every survivor; the report has each survivor's own entry, in order.
pub proof fn survivors_are_classified(
    timeouts: &Vec<String>,
    missed: &Vec<String>,
    document: &ClassificationDocument,
    accepted: ToolResult<Accepted>,
    r: ToolResult<ClassificationReport>,
)
    requires
        call_ensures(validate_classification_document, (document,), accepted),
        call_ensures(classify_mutation_outcomes, (timeouts, missed, document), r),
    ensures
        r is Ok <==> timeouts@.len() == 0 && missed@.len() > 0 && accepted is Ok && forall|i: int|
            0 <= i < missed@.len() ==> classifies(*document, (#[trigger] missed@[i])@),
        r matches Err(f) ==> f.exit_code == 2,
        r matches Ok(report) ==> {
            &&& report.schema_version == 1
            &&& report.cargo_mutants_version@ == document.cargo_mutants_version@
            &&& report.timeouts@.len() == 0
            &&& report.missed@.len() == missed@.len()
            &&& forall|i: int|
                0 <= i < missed@.len() ==> (#[trigger] report.missed@[i]).mutant@ == missed@[i]@
                    && entry_views(document.classifications@).contains(report.missed@[i]@)
        },
{
    let misses = texts(missed@);
    let entries = entry_views(document.classifications@);
    assert(misses.len() == missed@.len());
    assert(texts(timeouts@).len() == timeouts@.len());
    assert(entries.len() == document.classifications@.len());
    assert forall|j: int| 0 <= j < entries.len() implies #[trigger] entries[j]
        == document.classifications@[j]@ by {}
    assert forall|i: int| 0 <= i < misses.len() implies #[trigger] misses[i] == missed@[i]@ by {}
    assert forall|m: Seq<char>| #[trigger] has_entry(entries, m) == classifies(*document, m) by {
        if has_entry(entries, m) {
            let j = choose|j: int| 0 <= j < entries.len() && (#[trigger] entries[j]).mutant == m;
            assert(document.classifications@[j].mutant@ == m);
        }
        if classifies(*document, m) {
            let j = choose|j: int|
                0 <= j < document.classifications@.len() && (
                #[trigger] document.classifications@[j]).mutant@ == m;
            assert(entries[j].mutant == m);
        }
    }
    if crate::mutation::all_explained(misses, entries) {
        assert forall|i: int| 0 <= i < missed@.len() implies classifies(
            *document,
            (#[trigger] missed@[i])@,
        ) by {
            assert(has_entry(entries, misses[i]));
        }
    }
    if forall|i: int|
        0 <= i < missed@.len() ==> classifies(*document, (#[trigger] missed@[i])@) {
        assert forall|i: int| 0 <= i < misses.len() implies has_entry(
            entries,
            #[trigger] misses[i],
        ) by {
            assert(classifies(*document, missed@[i]@));
        }
    }
    if r is Ok {
        assert forall|i: int| 0 <= i < missed@.len() implies (
        #[trigger] r->Ok_0.missed@[i]).mutant@ == missed@[i]@ by {
            assert(r->Ok_0.missed@[i]@.mutant == misses[i]);
        }
    }
}

proof fn lemma_missing(files: Seq<&'static str>, present: Seq<Seq<char>>, from: int)
    requires
        0 <= from <= files.len(),
    ensures
        first_missing(files, present, from) is None <==> forall|i: int|
            from <= i < files.len() ==> present.contains((#[trigger] files[i])@),
    decreases files.len() - from,
{
    if from < files.len() {
        lemma_missing(files, present, from + 1);
        if present.contains(files[from]@) && first_missing(files, present, from + 1) is None {
            assert forall|i: int| from <= i < files.len() implies present.contains(
                (#[trigger] files[i])@,
            ) by {
                if i > from {
                    assert(from + 1 <= i);
                }
            }
        }
    }
}

/// A shard is run exactly where it has files, a pattern and test packages, and all of its files are
/// there.
pub proof fn shards_are_complete(
    specification: &ShardSpecification,
    present: &Vec<String>,
    r: ToolResult<()>,
)
    requires
        call_ensures(validate_specification, (specification, present), r),
    ensures
        r is Ok <==> specification.files@.len() > 0 && specification.pattern@.len() > 0
            && specification.test_packages@.len() > 0 && forall|i: int|
            0 <= i < specification.files@.len() ==> texts(present@).contains(
                (#[trigger] specification.files@[i])@,
            ),
        r matches Err(f) ==> f.exit_code == 1,
{
    lemma_missing(specification.files@, texts(present@), 0);
}

/// The output directory is the configured one, which must have a name, or one after the shard.
pub proof fn outputs_have_a_directory(
    shard: MutationShard,
    configured: Option<&str>,
    name: &'static str,
    r: ToolResult<String>,
)
    requires
        call_ensures(MutationShard::name, (shard,), name),
        call_ensures(mutation_output, (shard, configured), r),
    ensures
        configured is None ==> (r matches Ok(p) && p@ == "target/mutation/"@ + name@),
        configured matches Some(v) ==> (v@.len() > 0 ==> (r matches Ok(p) && p@ == v@)),
        configured matches Some(v) ==> (v@.len() == 0 ==> fails(
            r,
            1,
            "CARGO_MUTANTS_OUTPUT must not be empty"@,
        )),
{
}

/// Two jobs run where none are configured; a configured number must be a positive one of thirty-two
/// bits.
pub proof fn jobs_are_positive(configured: &Setting, r: ToolResult<u32>)
    requires
        call_ensures(mutation_jobs, (configured,), r),
    ensures
        *configured is Absent ==> (r matches Ok(n) && n == 2),
        *configured is NotUnicode ==> fails(r, 1, "CARGO_MUTANTS_JOBS must be valid Unicode"@),
        *configured matches Setting::Text { value } ==> match unsigned(value@, 4294967295) {
            Some(n) => if n > 0 {
                r matches Ok(jobs) && jobs == n
            } else {
                fails(r, 1, "CARGO_MUTANTS_JOBS must be greater than zero"@)
            },
            None => r matches Err(f) && f.exit_code == 1,
        },
{
}

proof fn lemma_options_len(option: Seq<char>, values: Seq<&'static str>)
    ensures
        options(option, values).len() == 2 * values.len(),
    decreases values.len(),
{
    if values.len() > 0 {
        lemma_options_len(option, values.drop_last());
    }
}

proof fn lemma_options(option: Seq<char>, values: Seq<&'static str>, i: int)
    requires
        0 <= i < values.len(),
    ensures
        options(option, values).len() == 2 * values.len(),
        options(option, values)[2 * i] == option,
        options(option, values)[2 * i + 1] == values[i]@,
    decreases values.len(),
{
    let before = values.drop_last();
    lemma_options_len(option, before);
    if i < before.len() {
        lemma_options(option, before, i);
        assert(before[i] == values[i]);
    }
}

/// A campaign runs in the workspace, into its output, with its jobs and its pattern, from a
/// baseline run and in order; then it names every file, every test package and every test
/// argument, and asks for a list last where one is wanted.
pub proof fn campaigns_name_their_parts(
    output: &str,
    jobs: u32,
    specification: &ShardSpecification,
    list: bool,
    i: int,
    r: Vec<String>,
)
    requires
        call_ensures(mutation_command, (output, jobs, specification, list), r),
    ensures
        ({
            let t = texts(r@);
            let files = specification.files@;
            let packages = specification.test_packages@;
            let arguments = specification.cargo_test_arguments@;
            let p = 13 + 2 * files.len();
            let a = p + 2 * packages.len();
            let e = a + 2 * arguments.len();
            &&& t.len() == if list {
                e + 1
            } else {
                e
            }
            &&& t.take(13) =~= seq![
                "mutants"@,
                "--workspace"@,
                "--output"@,
                output@,
                "--jobs"@,
                decimal(jobs as nat),
                "--re"@,
                specification.pattern@,
                "--baseline"@,
                "run"@,
                "--build-timeout"@,
                "180"@,
                "--no-shuffle"@,
            ]
            &&& 0 <= i < files.len() ==> t[13 + 2 * i] == "--file"@ && t[13 + 2 * i + 1]
                == files[i]@
            &&& 0 <= i < packages.len() ==> t[p + 2 * i] == "--test-package"@ && t[p + 2 * i + 1]
                == packages[i]@
            &&& 0 <= i < arguments.len() ==> t[a + 2 * i] == "--cargo-test-arg"@ && t[a + 2 * i
                + 1] == arguments[i]@
            &&& list ==> t[e as int] == "--list"@
        }),
{
    let files = options("--file"@, specification.files@);
    let packages = options("--test-package"@, specification.test_packages@);
    let arguments = options("--cargo-test-arg"@, specification.cargo_test_arguments@);
    lemma_options_len("--file"@, specification.files@);
    lemma_options_len("--test-package"@, specification.test_packages@);
    lemma_options_len("--cargo-test-arg"@, specification.cargo_test_arguments@);
    let t = texts(r@);
    if 0 <= i < specification.files@.len() {
        lemma_options("--file"@, specification.files@, i);
        assert(t[13 + 2 * i] == files[2 * i]);
        assert(t[13 + 2 * i + 1] == files[2 * i + 1]);
    }
    if 0 <= i < specification.test_packages@.len() {
        lemma_options("--test-package"@, specification.test_packages@, i);
        let p = 13 + 2 * specification.files@.len();
        assert(t[p + 2 * i] == packages[2 * i]);
        assert(t[p + 2 * i + 1] == packages[2 * i + 1]);
    }
    if 0 <= i < specification.cargo_test_arguments@.len() {
        lemma_options("--cargo-test-arg"@, specification.cargo_test_arguments@, i);
        let a = 13 + 2 * specification.files@.len() + 2 * specification.test_packages@.len();
        assert(t[a + 2 * i] == arguments[2 * i]);
        assert(t[a + 2 * i + 1] == arguments[2 * i + 1]);
    }
}

/// A path is taken as it is where it is absolute, and under the repository otherwise.
pub proof fn paths_are_in_the_repository(repository: &str, path: &str, r: String)
    requires
        call_ensures(resolve_path, (repository, path), r),
    ensures
        path@.len() > 0 && path@[0] == '/' ==> r@ == path@,
        !(path@.len() > 0 && path@[0] == '/') && repository@.len() > 0 && repository@.last() != '/'
            ==> r@ == repository@ + "/"@ + path@,
{
}

} // verus!
