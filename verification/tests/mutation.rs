//! Mutation campaigns: arguments, shards, classifications and the command that runs them.

use milkdrift_evidence::mutation::{
    announcement, check_outcome, classify_mutation_outcomes, conclude, mutation_command,
    mutation_jobs, mutation_output, read_nonempty_lines, resolve_path,
    validate_classification_document, validate_specification, Arguments, Classification,
    ClassificationDocument, ClassificationEntry, ClassificationPolicy, Conclusion, MutationShard,
    Setting, ShardSpecification,
};

const ALL_SHARDS: [MutationShard; 7] = [
    MutationShard::Authority,
    MutationShard::Retention,
    MutationShard::Runtime,
    MutationShard::Uncertainty,
    MutationShard::Controller,
    MutationShard::Context,
    MutationShard::Peer,
];

fn words(v: &[&str]) -> Vec<String> {
    v.iter().map(|w| (*w).to_owned()).collect()
}

fn valid_explanation() -> &'static str {
    "This exact mutant is behaviorally equivalent by construction."
}

fn entry(mutant: &str, classification: Classification, explanation: &str) -> ClassificationEntry {
    ClassificationEntry {
        mutant: mutant.to_owned(),
        classification,
        explanation: explanation.to_owned(),
    }
}

fn valid_policy() -> ClassificationPolicy {
    ClassificationPolicy {
        survivors_require_exact_mutant_identity: true,
        allowed_classifications: vec![
            Classification::Equivalent,
            Classification::UnreachableByValidContract,
            Classification::ToolLimitation,
        ],
        unclassified_survivors_fail_the_lane: true,
    }
}

fn document(classifications: Vec<ClassificationEntry>) -> ClassificationDocument {
    ClassificationDocument {
        schema_version: 1,
        cargo_mutants_version: "27.1.0".to_owned(),
        policy: valid_policy(),
        classifications,
    }
}

fn refusal(document: &ClassificationDocument) -> String {
    match validate_classification_document(document) {
        Ok(_) => String::new(),
        Err(failure) => {
            assert_eq!(failure.exit_code, 2);
            failure.message
        }
    }
}

#[test]
fn arguments_accept_exact_shards_and_optional_list_mode() {
    let authority = Arguments::try_parse_from(&words(&["mutation-evidence", "authority"]));
    assert!(matches!(authority, Some(a) if a.shard == MutationShard::Authority && !a.list));
    let peer = Arguments::try_parse_from(&words(&["mutation-evidence", "peer", "--list"]));
    assert!(matches!(peer, Some(a) if a.shard == MutationShard::Peer && a.list));
    assert!(Arguments::try_parse_from(&words(&["mutation-evidence"])).is_none());
    assert!(Arguments::try_parse_from(&words(&["mutation-evidence", "unknown"])).is_none());
    assert!(Arguments::try_parse_from(&words(&["mutation-evidence", "peer", "--run"])).is_none());
}

#[test]
fn arguments_take_the_option_anywhere_and_once() {
    let first = Arguments::try_parse_from(&words(&["mutation-evidence", "--list", "runtime"]));
    assert!(matches!(first, Some(a) if a.shard == MutationShard::Runtime && a.list));
    assert!(Arguments::try_parse_from(&words(&["mutation-evidence", "peer", "runtime"])).is_none());
    assert!(Arguments::try_parse_from(&words(&["mutation-evidence", "--help"])).is_none());
    assert!(Arguments::try_parse_from(&words(&["mutation-evidence", "--run", "peer"])).is_none());
    assert!(Arguments::try_parse_from(&words(&["mutation-evidence", "peer", "--list=x"])).is_none());
    assert!(Arguments::try_parse_from(&words(&["mutation-evidence", "peer", "--li"])).is_none());
    assert!(Arguments::try_parse_from(&words(&["mutation-evidence", "peer", "--=x"])).is_none());
}

#[test]
fn matched_values_name_shards() {
    assert!(Arguments::from_matches(None).is_none());
    assert!(Arguments::from_matches(Some(("Peer".to_owned(), false))).is_none());
    let retention = Arguments::from_matches(Some(("retention".to_owned(), true)));
    assert!(matches!(retention, Some(a) if a.shard == MutationShard::Retention && a.list));
}

#[test]
fn every_shard_names_existing_sources_after_module_splits() {
    for shard in ALL_SHARDS {
        let specification = shard.specification();
        let present: Vec<String> = specification.files.iter().map(|f| (*f).to_owned()).collect();
        assert!(validate_specification(&specification, &present).is_ok());
    }
    let controller = MutationShard::Controller.specification();
    assert!(controller.files.contains(&"crates/control/src/controller/lifecycle.rs"));
    assert!(controller.files.contains(&"crates/control/src/controller/policy.rs"));
    let authority = MutationShard::Authority.specification();
    assert!(authority.files.contains(&"crates/authority/src/model/resource.rs"));
    let peer = MutationShard::Peer.specification();
    assert!(peer.files.contains(&"adapters/redb-store/src/peer/validation.rs"));
}

#[test]
fn a_missing_source_and_an_incomplete_shard_are_refused() {
    let specification = MutationShard::Peer.specification();
    let missing = validate_specification(&specification, &Vec::new());
    assert!(matches!(missing, Err(f) if f.exit_code == 1
        && f.message == format!("mutation shard source does not exist: {}", specification.files[0])));
    let empty = ShardSpecification {
        files: Vec::new(),
        pattern: "x",
        test_packages: vec!["p"],
        cargo_test_arguments: Vec::new(),
    };
    let refused = validate_specification(&empty, &Vec::new());
    assert!(matches!(refused, Err(f) if f.message == "mutation shard specification must be complete"));
}

#[test]
fn shard_names_tell_shards_apart() {
    for shard in ALL_SHARDS {
        assert_eq!(MutationShard::from_name(shard.name()), Some(shard));
    }
    assert_eq!(MutationShard::from_name("unknown"), None);
}

#[test]
fn accepted_survivors_write_the_canonical_report() {
    let missed = read_nonempty_lines(Some("mutant-a\n"));
    let timeouts = read_nonempty_lines(None);
    let accepted =
        document(vec![entry("mutant-a", Classification::Equivalent, valid_explanation())]);
    match classify_mutation_outcomes(&timeouts, &missed, &accepted) {
        Ok(report) => {
            assert_eq!(report.missed.len(), 1);
            assert_eq!(report.missed[0].mutant, "mutant-a");
            assert_eq!(report.schema_version, 1);
            assert_eq!(report.cargo_mutants_version, "27.1.0");
            assert!(report.timeouts.is_empty());
        }
        Err(failure) => panic!("{}", failure.message),
    }
}

#[test]
fn timeouts_and_unclassified_survivors_fail_closed() {
    let known =
        document(vec![entry("known-mutant", Classification::Equivalent, valid_explanation())]);
    let timeouts = read_nonempty_lines(Some("timed-out-mutant\n"));
    let timeout = classify_mutation_outcomes(&timeouts, &Vec::new(), &known);
    assert!(matches!(timeout, Err(f) if f.exit_code == 2
        && f.message == "mutation lane has 1 timeout(s); classifications cannot hide timeouts"));
    let missed = read_nonempty_lines(Some("unknown-mutant\n"));
    let unclassified =
        classify_mutation_outcomes(&read_nonempty_lines(Some("")), &missed, &known);
    assert!(matches!(unclassified, Err(f) if f.exit_code == 2
        && f.message == "unclassified surviving mutants:\n- unknown-mutant"));
}

#[test]
fn an_outcome_without_missed_mutants_cannot_be_classified() {
    assert!(check_outcome(&Vec::new(), &words(&["m"])).is_ok());
    let nothing = check_outcome(&Vec::new(), &Vec::new());
    assert!(matches!(nothing, Err(f)
        if f.message == "cargo-mutants failed without a classifiable missed mutant"));
}

#[test]
fn accepted_entries_are_found_under_their_mutant() {
    let one = document(vec![entry("mutant-a", Classification::Equivalent, valid_explanation())]);
    let accepted = match validate_classification_document(&one) {
        Ok(accepted) => accepted,
        Err(failure) => panic!("{}", failure.message),
    };
    assert_eq!(accepted.len(), 1);
    assert!(matches!(accepted.get("mutant-a"), Some(e) if e.mutant == "mutant-a"));
    assert!(accepted.get("mutant-b").is_none());
}

#[test]
fn malformed_policy_duplicate_identity_and_short_explanation_are_rejected() {
    let short = document(vec![entry("mutant-a", Classification::Equivalent, "too short")]);
    assert_eq!(
        refusal(&short),
        "classification explanation is missing or too short for mutant-a"
    );
    let duplicate = document(vec![
        entry("mutant-a", Classification::Equivalent, valid_explanation()),
        entry("mutant-a", Classification::ToolLimitation, valid_explanation()),
    ]);
    assert_eq!(refusal(&duplicate), "duplicate mutation classification for mutant-a");
    let mut disabled = document(Vec::new());
    disabled.policy.survivors_require_exact_mutant_identity = false;
    disabled.policy.allowed_classifications = vec![Classification::Equivalent];
    assert_eq!(
        refusal(&disabled),
        "mutation classification policy must require exact identities and reject unclassified survivors"
    );
}

#[test]
fn every_part_of_a_document_is_checked() {
    let mut schema = document(Vec::new());
    schema.schema_version = 2;
    assert_eq!(refusal(&schema), "unsupported mutation classification schema 2");
    let mut version = document(Vec::new());
    version.cargo_mutants_version = " \t".to_owned();
    assert_eq!(
        refusal(&version),
        "mutation classification document has no cargo-mutants version"
    );
    let mut twice = document(Vec::new());
    twice.policy.allowed_classifications.push(Classification::Equivalent);
    assert_eq!(
        refusal(&twice),
        "allowed mutation classifications must be unique and nonempty"
    );
    let mut none = document(Vec::new());
    none.policy.allowed_classifications.clear();
    assert_eq!(
        refusal(&none),
        "allowed mutation classifications must be unique and nonempty"
    );
    let blank = document(vec![entry(" ", Classification::Equivalent, valid_explanation())]);
    assert_eq!(refusal(&blank), "mutation classification has an empty mutant identity");
    let mut narrow = document(vec![entry("m", Classification::ToolLimitation, valid_explanation())]);
    narrow.policy.allowed_classifications = vec![Classification::Equivalent];
    assert_eq!(refusal(&narrow), "invalid classification 'tool_limitation' for m");
    assert_eq!(refusal(&document(Vec::new())), "");
}

#[test]
fn explanations_are_measured_in_bytes_without_surrounding_space() {
    let exact = document(vec![entry("m", Classification::Equivalent, "  12345678901234567890 ")]);
    assert_eq!(refusal(&exact), "");
    let wide = document(vec![entry("m", Classification::Equivalent, "\u{20ac}\u{20ac}\u{20ac}\u{20ac}\u{20ac}\u{20ac}\u{20ac}")]);
    assert_eq!(refusal(&wide), "");
    let short = document(vec![entry("m", Classification::Equivalent, "1234567890123456789   ")]);
    assert_ne!(refusal(&short), "");
}

#[test]
fn blank_lines_are_dropped_and_others_trimmed() {
    assert_eq!(read_nonempty_lines(Some("a\n\n  b \r\n\t\nc")), words(&["a", "b", "c"]));
    assert!(read_nonempty_lines(None).is_empty());
}

#[test]
fn output_and_jobs_come_from_the_environment() {
    assert!(matches!(mutation_output(MutationShard::Peer, None), Ok(p) if p == "target/mutation/peer"));
    assert!(matches!(mutation_output(MutationShard::Peer, Some("o")), Ok(p) if p == "o"));
    assert!(matches!(mutation_output(MutationShard::Peer, Some("")), Err(f)
        if f.exit_code == 1 && f.message == "CARGO_MUTANTS_OUTPUT must not be empty"));
    assert!(matches!(mutation_jobs(&Setting::Absent), Ok(2)));
    assert!(matches!(mutation_jobs(&Setting::Text { value: "7".to_owned() }), Ok(7)));
    assert!(matches!(mutation_jobs(&Setting::Text { value: "+7".to_owned() }), Ok(7)));
    assert!(matches!(mutation_jobs(&Setting::NotUnicode), Err(f)
        if f.message == "CARGO_MUTANTS_JOBS must be valid Unicode"));
    assert!(matches!(mutation_jobs(&Setting::Text { value: "0".to_owned() }), Err(f)
        if f.message == "CARGO_MUTANTS_JOBS must be greater than zero"));
    assert!(matches!(mutation_jobs(&Setting::Text { value: "x".to_owned() }), Err(f)
        if f.message == "CARGO_MUTANTS_JOBS must be a positive integer: invalid digit found in string"));
    assert!(matches!(mutation_jobs(&Setting::Text { value: "4294967296".to_owned() }), Err(f)
        if f.message
            == "CARGO_MUTANTS_JOBS must be a positive integer: number too large to fit in target type"));
}

#[test]
fn the_command_lists_files_packages_and_arguments_in_order() {
    let specification = ShardSpecification {
        files: vec!["a.rs", "b.rs"],
        pattern: "(f|g)",
        test_packages: vec!["p"],
        cargo_test_arguments: vec!["--lib"],
    };
    let run = mutation_command("out", 3, &specification, false);
    assert_eq!(
        run,
        words(&[
            "mutants", "--workspace", "--output", "out", "--jobs", "3", "--re", "(f|g)",
            "--baseline", "run", "--build-timeout", "180", "--no-shuffle", "--file", "a.rs",
            "--file", "b.rs", "--test-package", "p", "--cargo-test-arg", "--lib",
        ])
    );
    let list = mutation_command("out", 3, &specification, true);
    assert_eq!(list[..run.len()], run[..]);
    assert_eq!(list[run.len()..], ["--list".to_owned()]);
}

#[test]
fn exit_codes_decide_what_follows() {
    assert_eq!(conclude(false, Some(0)), Conclusion::Exit { code: 0 });
    assert_eq!(conclude(false, Some(2)), Conclusion::Classify);
    assert_eq!(conclude(true, Some(2)), Conclusion::Exit { code: 2 });
    assert_eq!(conclude(false, Some(256)), Conclusion::Exit { code: 1 });
    assert_eq!(conclude(false, None), Conclusion::Exit { code: 1 });
}

#[test]
fn relative_paths_lie_in_the_repository() {
    assert_eq!(resolve_path("/r", "target/x"), "/r/target/x");
    assert_eq!(resolve_path("/r", "/x"), "/x");
}

#[test]
fn classified_mutants_are_announced() {
    let accepted = entry("m", Classification::UnreachableByValidContract, valid_explanation());
    assert_eq!(announcement(&accepted), "CLASSIFIED unreachable_by_valid_contract: m");
}
