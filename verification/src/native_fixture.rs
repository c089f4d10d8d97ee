//! The native helper of external evidence: its operations, its checkpoints and its verification.

use vstd::prelude::*;

use crate::digest::{blake3_hex, content_identity, hash_hex, identity_of};
use crate::endpoint::checked_text;
use crate::failure::{ensure, failed, failure, Checked};
use crate::json::{Json, Tree};
use crate::order::{ordered, ordered_texts};
use crate::text::{
    contains, joined3, occurs, replace, replaced_from, same_text, split, split_at_char, texts,
};

verus! {

/// The most files that a checkpoint covers.
pub const MAX_FILES: usize = 64;

/// The most bytes of a file that a checkpoint covers.
pub const MAX_SOURCE_BYTES: u64 = 1048576;

/// The most bytes of a prompt that the controlled agent reads.
pub const MAX_PROMPT_BYTES: u64 = 65536;

pub open spec fn nonempty(t: Seq<char>) -> bool {
    t.len() > 0
}

/// The files that Git lists, each between two zero characters.
pub open spec fn listed_files(stdout: Seq<char>) -> Set<Seq<char>> {
    Set::new(|name: Seq<char>| nonempty(name) && split_at_char(stdout, '\0').contains(name))
}

/// The files of a checkpoint, in order.
pub fn inventory(succeeded: bool, stdout: &str) -> (r: Checked<Vec<String>>)
    ensures
        if !succeeded {
            failed(r, "Git inventory failed"@)
        } else if ordered(listed_files(stdout@)).len() > MAX_FILES {
            failed(r, "fixture repository inventory overflow"@)
        } else {
            r matches Ok(v) && texts(v@) == ordered(listed_files(stdout@))
        },
        r matches Ok(v) ==> forall|k: Seq<char>| #[trigger]
            texts(v@).contains(k) <==> nonempty(k) && split_at_char(stdout@, '\0').contains(k),
{
    ensure(succeeded, "Git inventory failed")?;
    let pieces: Vec<String> = split(stdout, '\0');
    let ghost all = texts(pieces@);
    let mut named: Vec<String> = Vec::new();
    let mut i: usize = 0;
    proof {
        assert(texts(named@) =~= seq![]);
    }
    while i < pieces.len()
        invariant
            i <= pieces.len(),
            succeeded,
            all == texts(pieces@),
            all == split_at_char(stdout@, '\0'),
            forall|k: Seq<char>| #[trigger]
                texts(named@).contains(k) <==> nonempty(k) && all.take(i as int).contains(k),
        decreases pieces.len() - i,
    {
        let ghost before = texts(named@);
        proof {
            assert(all[i as int] == pieces@[i as int]@);
        }
        let piece: &str = pieces[i].as_str();
        if !piece.is_empty() {
            let next: String = piece.to_owned();
            proof {
                crate::text::lemma_texts_push(named@, next);
            }
            named.push(next);
        }
        proof {
            let later = all.take(i + 1);
            assert(later =~= all.take(i as int).push(piece@));
            assert forall|k: Seq<char>| #[trigger]
                texts(named@).contains(k) <==> nonempty(k) && later.contains(k) by {
                assert(before.contains(k) <==> nonempty(k) && all.take(i as int).contains(k));
                assert(later.contains(k) <==> all.take(i as int).contains(k) || k == piece@) by {
                    if all.take(i as int).contains(k) {
                        let x = choose|x: int|
                            0 <= x < all.take(i as int).len() && all.take(i as int)[x] == k;
                        assert(later[x] == k);
                    }
                    assert(later[i as int] == piece@);
                }
                assert(texts(named@).contains(k) <==> before.contains(k) || (k == piece@
                    && nonempty(k))) by {
                    if nonempty(piece@) {
                        assert(texts(named@) =~= before.push(piece@));
                        if before.contains(k) {
                            let x = choose|x: int| 0 <= x < before.len() && before[x] == k;
                            assert(texts(named@)[x] == k);
                        }
                        assert(texts(named@)[before.len() as int] == piece@);
                    }
                }
            }
        }
        i = i + 1;
    }
    let v: Vec<String> = ordered_texts(&named);
    proof {
        assert(all.take(i as int) =~= all);
        assert(texts(named@).to_set() =~= listed_files(stdout@));
    }
    ensure(v.len() <= MAX_FILES, "fixture repository inventory overflow")?;
    Ok(v)
}

/// Whether a file of a checkpoint stays within its bound.
pub fn accept_source(size: u64) -> (r: Checked<()>)
    ensures
        r is Ok <==> size <= MAX_SOURCE_BYTES,
        size > MAX_SOURCE_BYTES ==> failed(r, "fixture source exceeds bound"@),
{
    ensure(size <= MAX_SOURCE_BYTES, "fixture source exceeds bound")
}

/// Whether a prompt of the controlled agent stays within its bound.
pub fn accept_prompt(size: u64) -> (r: Checked<()>)
    ensures
        r is Ok <==> size <= MAX_PROMPT_BYTES,
        size > MAX_PROMPT_BYTES ==> failed(r, "fixture prompt exceeds bound"@),
{
    ensure(size <= MAX_PROMPT_BYTES, "fixture prompt exceeds bound")
}

pub open spec fn pair_views(v: Seq<(String, String)>) -> Seq<(Seq<char>, Seq<char>)> {
    v.map_values(|p: (String, String)| (p.0@, p.1@))
}

pub open spec fn bytes_result(r: Result<Vec<u8>, String>) -> Result<Seq<u8>, Seq<char>> {
    match r {
        Ok(b) => Ok(b@),
        Err(e) => Err(e@),
    }
}

/// What a list of pairs of texts is rendered as by `serde_json::to_vec`.
pub uninterp spec fn rendered_pairs(v: Seq<(Seq<char>, Seq<char>)>) -> Result<Seq<u8>, Seq<char>>;

/// Calls `serde_json::to_vec` on a list of pairs of texts: its JSON bytes, or the rendered error.
/// The contract claims that it depends on the texts alone.
#[verifier::external_body]
fn render_pairs(v: &Vec<(String, String)>) -> (r: Result<Vec<u8>, String>)
    ensures
        bytes_result(r) == rendered_pairs(pair_views(v@)),
{
    match serde_json::to_vec(v) {
        Ok(rendered) => Ok(rendered),
        Err(error) => Err(error.to_string()),
    }
}

/// The digests of some files, each with its name.
pub open spec fn file_digests(files: Seq<(String, Vec<u8>)>) -> Seq<(Seq<char>, Seq<char>)> {
    files.map_values(|f: (String, Vec<u8>)| (f.0@, blake3_hex(f.1@)))
}

/// The identity of a rendered state.
pub open spec fn checkpoint_of(rendered: Result<Seq<u8>, Seq<char>>) -> Result<
    Seq<char>,
    Seq<char>,
> {
    match rendered {
        Ok(bytes) => Ok(identity_of(bytes)),
        Err(e) => Err(e),
    }
}

pub fn state_identity(rendered: &Result<Vec<u8>, String>) -> (r: Checked<String>)
    ensures
        checked_text(r) == checkpoint_of(bytes_result(*rendered)),
{
    match rendered {
        Ok(bytes) => Ok(content_identity(bytes.as_slice())),
        Err(e) => Err(failure(e.as_str())),
    }
}

/// The checkpoint of some files: the identity of their names and digests.
pub fn checkpoint(files: &Vec<(String, Vec<u8>)>) -> (r: Checked<String>)
    ensures
        checked_text(r) == checkpoint_of(rendered_pairs(file_digests(files@))),
{
    let mut state: Vec<(String, String)> = Vec::new();
    let ghost wanted = file_digests(files@);
    let mut i: usize = 0;
    proof {
        assert(pair_views(state@) =~= wanted.take(0));
    }
    while i < files.len()
        invariant
            i <= files.len(),
            wanted == file_digests(files@),
            pair_views(state@) == wanted.take(i as int),
        decreases files.len() - i,
    {
        let next: (String, String) = (
            files[i].0.as_str().to_owned(),
            hash_hex(files[i].1.as_slice()),
        );
        proof {
            assert(pair_views(state@.push(next)) =~= pair_views(state@).push(
                (next.0@, next.1@),
            ));
            assert(wanted.take(i + 1) =~= wanted.take(i as int).push((next.0@, next.1@)));
        }
        state.push(next);
        i = i + 1;
    }
    proof {
        assert(wanted.take(i as int) =~= wanted);
    }
    state_identity(&render_pairs(&state))
}

/// Files of the same names and bytes have the same checkpoint.
pub proof fn checkpoints_follow_contents(a: Seq<(String, Vec<u8>)>, b: Seq<(String, Vec<u8>)>)
    requires
        a.len() == b.len(),
        forall|i: int| 0 <= i < a.len() ==> (#[trigger] a[i]).0@ == b[i].0@ && a[i].1@ == b[i].1@,
    ensures
        checkpoint_of(rendered_pairs(file_digests(a))) == checkpoint_of(
            rendered_pairs(file_digests(b)),
        ),
{
    assert(file_digests(a) =~= file_digests(b));
}

/// What the native helper is asked to do.
pub enum Operation {
    Agent { compiler: Option<String> },
    Verify { mode: String, git: String, rustc: String, root: String },
    Review { root: String },
    Evidence { root: String },
}

pub enum OperationView {
    Agent { compiler: Option<Seq<char>> },
    Verify { mode: Seq<char>, git: Seq<char>, rustc: Seq<char>, root: Seq<char> },
    Review { root: Seq<char> },
    Evidence { root: Seq<char> },
}

pub open spec fn operation_view(r: Checked<Operation>) -> Result<OperationView, Seq<char>> {
    match r {
        Ok(Operation::Agent { compiler }) => Ok(
            OperationView::Agent { compiler: crate::text::text_option(compiler) },
        ),
        Ok(Operation::Verify { mode, git, rustc, root }) => Ok(
            OperationView::Verify { mode: mode@, git: git@, rustc: rustc@, root: root@ },
        ),
        Ok(Operation::Review { root }) => Ok(OperationView::Review { root: root@ }),
        Ok(Operation::Evidence { root }) => Ok(OperationView::Evidence { root: root@ }),
        Err(e) => Err(e.message@),
    }
}

/// The operation that some arguments name.
pub open spec fn operation_of(arguments: Seq<Seq<char>>) -> Result<OperationView, Seq<char>> {
    if arguments.len() == 0 {
        Err("unknown native fixture operation"@)
    } else if arguments[0] == "agent"@ {
        Ok(
            OperationView::Agent {
                compiler: if arguments.len() > 1 {
                    Some(arguments[1])
                } else {
                    None
                },
            },
        )
    } else if arguments[0] == "verify"@ {
        if arguments.len() == 5 {
            Ok(
                OperationView::Verify {
                    mode: arguments[1],
                    git: arguments[2],
                    rustc: arguments[3],
                    root: arguments[4],
                },
            )
        } else {
            Err("verifier expects mode, Git, rustc and execution root"@)
        }
    } else if arguments[0] == "review"@ {
        if arguments.len() > 1 {
            Ok(OperationView::Review { root: arguments[1] })
        } else {
            Err("review root absent"@)
        }
    } else if arguments[0] == "evidence"@ {
        if arguments.len() > 1 {
            Ok(OperationView::Evidence { root: arguments[1] })
        } else {
            Err("evidence root absent"@)
        }
    } else {
        Err("unknown native fixture operation"@)
    }
}

fn argument(arguments: &Vec<String>, i: usize) -> (r: String)
    requires
        i < arguments.len(),
    ensures
        r@ == texts(arguments@)[i as int],
{
    arguments[i].as_str().to_owned()
}

pub fn operation(arguments: &Vec<String>) -> (r: Checked<Operation>)
    ensures
        operation_view(r) == operation_of(texts(arguments@)),
{
    let unknown: &str = "unknown native fixture operation";
    if arguments.len() == 0 {
        return Err(failure(unknown));
    }
    let name: String = argument(arguments, 0);
    if same_text(name.as_str(), "agent") {
        let compiler: Option<String> = if arguments.len() > 1 {
            Some(argument(arguments, 1))
        } else {
            None
        };
        return Ok(Operation::Agent { compiler });
    }
    if same_text(name.as_str(), "verify") {
        ensure(
            arguments.len() == 5,
            "verifier expects mode, Git, rustc and execution root",
        )?;
        return Ok(
            Operation::Verify {
                mode: argument(arguments, 1),
                git: argument(arguments, 2),
                rustc: argument(arguments, 3),
                root: argument(arguments, 4),
            },
        );
    }
    if same_text(name.as_str(), "review") {
        ensure(arguments.len() > 1, "review root absent")?;
        return Ok(Operation::Review { root: argument(arguments, 1) });
    }
    if same_text(name.as_str(), "evidence") {
        ensure(arguments.len() > 1, "evidence root absent")?;
        return Ok(Operation::Evidence { root: argument(arguments, 1) });
    }
    Err(failure(unknown))
}

/// The calculator's source as the controlled agent leaves it, where it changes it at all.
pub fn repaired(source: &str) -> (r: Option<String>)
    ensures
        match r {
            Some(t) => occurs(source@, "a - b"@) && t@ == replaced_from(
                source@,
                "a - b"@,
                "a + b"@,
                0,
            ),
            None => !occurs(source@, "a - b"@),
        },
{
    if contains(source, "a - b") {
        proof {
            reveal_strlit("a - b");
        }
        Some(replace(source, "a - b", "a + b"))
    } else {
        None
    }
}

/// What the independent review writes.
pub fn review_document(context_observed: bool) -> (r: Json)
    ensures
        r@ == Tree::Object(
            map![
                "schema_version"@ => Tree::Integer(1),
                "independent_process"@ => Tree::Bool(true),
                "context_manifest_observed"@ => Tree::Bool(context_observed),
                "finding"@ => Tree::Text(
                    "controlled verifier gate requires remediation workflow"@,
                ),
            ],
        ),
{
    Json::object().with("schema_version", Json::number(1)).with(
        "independent_process",
        Json::flag(true),
    ).with("context_manifest_observed", Json::flag(context_observed)).with(
        "finding",
        Json::text("controlled verifier gate requires remediation workflow"),
    )
}

/// What the review asks for.
pub fn remediation_document() -> (r: Json)
    ensures
        r@ == Tree::Object(
            map![
                "schema_version"@ => Tree::Integer(1),
                "action"@ => Tree::Text("rerun coding and independent verification"@),
            ],
        ),
{
    Json::object().with("schema_version", Json::number(1)).with(
        "action",
        Json::text("rerun coding and independent verification"),
    )
}

/// The text that the evidence source repeats.
pub fn evidence_payload(payload: &Json) -> (r: Checked<String>)
    ensures
        match payload@ {
            Tree::Text(t) => r matches Ok(s) && s@ == t,
            _ => failed(r, "evidence payload must be text"@),
        },
{
    match payload {
        Json::Text(t) => Ok(t.as_str().to_owned()),
        _ => Err(failure("evidence payload must be text")),
    }
}

/// What a command wrote.
pub struct Written {
    pub stdout: String,
    pub stderr: String,
}

pub open spec fn log_of(mode: Seq<char>, compile: Written, tests: Option<Written>) -> Seq<char> {
    let head = "ORCHESTRATION_FAULT_INJECTION="@ + (if mode == "weak"@ {
        "true"@
    } else {
        "false"@
    }) + "\n"@ + compile.stdout@ + compile.stderr@;
    match tests {
        Some(t) => head + t.stdout@ + t.stderr@,
        None => head,
    }
}

/// The verifier's log: whether a fault was injected, and what the compiler and the tests wrote.
pub fn verification_log(mode: &str, compile: &Written, tests: &Option<Written>) -> (r: String)
    ensures
        r@ == log_of(mode@, *compile, *tests),
{
    let flag: &str = if same_text(mode, "weak") {
        "true"
    } else {
        "false"
    };
    let head: String = joined3("ORCHESTRATION_FAULT_INJECTION=", flag, "\n");
    let compiled: String = joined3(
        head.as_str(),
        compile.stdout.as_str(),
        compile.stderr.as_str(),
    );
    match tests {
        Some(t) => joined3(compiled.as_str(), t.stdout.as_str(), t.stderr.as_str()),
        None => compiled,
    }
}

/// What the verifier states of a checkpoint. Only the mode that injects no fault lets passing tests
/// count.
pub fn verification_result(
    before: &str,
    after: &str,
    mode: &str,
    tested: bool,
    diff_succeeded: bool,
    diff: &str,
) -> (r: Json)
    ensures
        r@ == Tree::Object(
            map![
                "checkpoint"@ => Tree::Text(before@),
                "checked_checkpoint"@ => Tree::Text(after@),
                "checks"@ => Tree::Object(
                    map![
                        "rust.tests"@ => Tree::Bool(mode@ == "good"@ && tested),
                        "git.diff"@ => Tree::Bool(diff_succeeded),
                    ],
                ),
                "coding"@ => (if diff@.len() == 0 {
                    Tree::Object(
                        map![
                            "type"@ => Tree::Text("no_change"@),
                            "justification"@ => Tree::Text(
                                "Independent Rust tests verify the requested calculator behavior at the unchanged checkpoint."@,
                            ),
                        ],
                    )
                } else {
                    Tree::Object(map!["type"@ => Tree::Text("changed"@)])
                }),
            ],
        ),
{
    let checks: Json = Json::object().with(
        "rust.tests",
        Json::flag(same_text(mode, "good") && tested),
    ).with("git.diff", Json::flag(diff_succeeded));
    let coding: Json = if diff.is_empty() {
        Json::object().with("type", Json::text("no_change")).with(
            "justification",
            Json::text(
                "Independent Rust tests verify the requested calculator behavior at the unchanged checkpoint.",
            ),
        )
    } else {
        Json::object().with("type", Json::text("changed"))
    };
    Json::object().with("checkpoint", Json::text(before)).with(
        "checked_checkpoint",
        Json::text(after),
    ).with("checks", checks).with("coding", coding)
}

/// A verification succeeds where its diff and its tests did.
pub fn conclude(diff_succeeded: bool, tested: bool) -> (r: Checked<()>)
    ensures
        r is Ok <==> diff_succeeded && tested,
        !(diff_succeeded && tested) ==> failed(r, "independent Rust verification failed"@),
{
    ensure(diff_succeeded && tested, "independent Rust verification failed")
}

} // verus!
