//! The documents that a method is made of.

use vstd::prelude::*;

use crate::application::words;
use crate::json::{Json, Tree};
use crate::order::{ordered_texts, precedes};
use crate::slotbook::method::{
    artifact_schema, edge, effect, node, port, repair_mutations, worker,
};
use crate::text::texts;

verus! {

/// An artifact is referred to by the first version of its schema.
pub proof fn artifacts_have_a_schema(r: Json)
    requires
        call_ensures(artifact_schema, (), r),
    ensures
        r@ == artifact_schema_of(),
{
}

/// The first version of the schema of a reference to an artifact.
pub open spec fn artifact_schema_of() -> Tree {
    Tree::Object(
        map![
            "id"@ => Tree::Text("milkdrift.artifact-reference"@),
            "version"@ => Tree::Integer(1),
        ],
    )
}

/// A port of a direction, with its schema, its binding and whether it is required.
pub open spec fn port_of(
    direction: Seq<char>,
    schema: Tree,
    binding: Tree,
    required: bool,
) -> Tree {
    Tree::Object(
        map![
            "direction"@ => Tree::Text(direction),
            "schema"@ => schema,
            "binding"@ => binding,
            "required"@ => Tree::Bool(required),
        ],
    )
}

/// A port says its direction, its schema, its binding and whether it is required.
pub proof fn ports_say_their_parts(
    direction: &str,
    schema: Json,
    binding: Json,
    required: bool,
    r: Json,
)
    requires
        call_ensures(port, (direction, schema, binding, required), r),
    ensures
        r@ == port_of(direction@, schema@, binding@, required),
{
}

/// A node is entered and left by one control port each, where it is at all.
pub proof fn nodes_have_control_ports(id: &str, kind: Json, incoming: bool, outgoing: bool, r: Json)
    requires
        call_ensures(node, (id, kind, incoming, outgoing), r),
    ensures
        r@ == node_with_ports(
            id@,
            kind@,
            incoming,
            outgoing,
            Tree::Object(map![]),
            Tree::Object(map![]),
        ),
{
}

/// A node of a kind, with its control ports and its data ports.
pub open spec fn node_with_ports(
    id: Seq<char>,
    kind: Tree,
    incoming: bool,
    outgoing: bool,
    inputs: Tree,
    outputs: Tree,
) -> Tree {
    Tree::Object(
        map![
            "id"@ => Tree::Text(id),
            "kind"@ => kind,
            "control_inputs"@ => Tree::List(
                if incoming {
                    seq![Tree::Text("in"@)]
                } else {
                    seq![]
                },
            ),
            "control_outputs"@ => Tree::List(
                if outgoing {
                    seq![Tree::Text("out"@)]
                } else {
                    seq![]
                },
            ),
            "data_inputs"@ => inputs,
            "data_outputs"@ => outputs,
        ],
    )
}

/// An edge says its ends, their ports and what it carries.
pub proof fn edges_say_their_ends(
    id: &str,
    source: &str,
    target: &str,
    kind: &str,
    from: &str,
    to: &str,
    r: Json,
)
    requires
        call_ensures(edge, (id, source, target, kind, from, to), r),
    ensures
        r@ == edge_between(id@, source@, target@, kind@, from@, to@),
{
}

/// An edge of a kind between two ports.
pub open spec fn edge_between(
    id: Seq<char>,
    source: Seq<char>,
    target: Seq<char>,
    kind: Seq<char>,
    from: Seq<char>,
    to: Seq<char>,
) -> Tree {
    Tree::Object(
        map![
            "id"@ => Tree::Text(id),
            "kind"@ => Tree::Text(kind),
            "source_node"@ => Tree::Text(source),
            "source_port"@ => Tree::Text(from),
            "target_node"@ => Tree::Text(target),
            "target_port"@ => Tree::Text(to),
        ],
    )
}

/// A list of texts.
pub open spec fn listed_texts(v: Seq<Seq<char>>) -> Tree {
    Tree::List(v.map_values(|t: Seq<char>| Tree::Text(t)))
}

/// A task that sees its direct inputs, bounded and closed, in a fresh session.
pub open spec fn task_of(requirement: Tree) -> Tree {
    Tree::Object(
        map![
            "type"@ => Tree::Text("task"@),
            "config"@ => Tree::Object(
                map![
                    "requirement"@ => requirement,
                    "context_policy"@ => Tree::Object(
                        map![
                            "ancestor_depth"@ => Tree::Null,
                            "artifact_selector"@ => Tree::Null,
                            "budget"@ => Tree::Object(
                                map![
                                    "max_artifact_bytes"@ => Tree::Integer(33554432),
                                    "max_bytes"@ => Tree::Integer(262144),
                                    "max_items"@ => Tree::Integer(64),
                                    "max_model_input_units"@ => Tree::Null,
                                ],
                            ),
                            "exclude_categories"@ => listed_texts(
                                seq![
                                    "raw_progress"@,
                                    "tool_trace"@,
                                    "verbose_command_output"@,
                                    "prior_prompt"@,
                                ],
                            ),
                            "fail_closed"@ => Tree::Bool(true),
                            "include_categories"@ => listed_texts(seq!["direct_input"@]),
                            "include_direct_inputs"@ => Tree::Bool(true),
                            "ordering"@ => Tree::Text("causal_kind_source"@),
                            "selected_nodes"@ => listed_texts(seq![]),
                            "selected_roles"@ => listed_texts(seq![]),
                            "session"@ => Tree::Text("fresh"@),
                            "truncation"@ => Tree::Text("omit_oversized"@),
                        ],
                    ),
                ],
            ),
        ],
    )
}

/// An artifact that a task may give.
pub open spec fn optional_output() -> Tree {
    port_of("Output"@, artifact_schema_of(), Tree::Null, false)
}

/// A worker's command is a task on its words that gives the worker's result and what it wrote.
pub proof fn workers_run_their_words(
    id: &str,
    requirement: &Json,
    argv: &Vec<&str>,
    capture: bool,
    r: Json,
)
    requires
        call_ensures(worker, (id, requirement, argv, capture), r),
    ensures
        r@ == worker_of(id@, requirement@, words(argv@), capture),
{
    lemma_worker(id@, requirement@, words(argv@), capture);
}

/// A worker's command.
pub open spec fn worker_of(
    id: Seq<char>,
    requirement: Tree,
    argv: Seq<Seq<char>>,
    capture: bool,
) -> Tree {
    node_with_ports(
        id,
        task_of(requirement),
        true,
        true,
        Tree::Object(
            map![
                "command"@ => port_of(
                    "Input"@,
                    Tree::Object(
                        map![
                            "id"@ => Tree::Text("milkdrift.managed.worker"@),
                            "version"@ => Tree::Integer(2),
                        ],
                    ),
                    Tree::Object(
                        map![
                            "type"@ => Tree::Text("literal"@),
                            "value"@ => Tree::Object(
                                map![
                                    "argv"@ => listed_texts(argv),
                                    "stdout_artifact"@ => Tree::Bool(capture),
                                ],
                            ),
                        ],
                    ),
                    true,
                ),
            ],
        ),
        Tree::Object(map!["worker_result"@ => optional_output(), "stdout"@ => optional_output()]),
    )
}

proof fn lemma_worker(id: Seq<char>, requirement: Tree, argv: Seq<Seq<char>>, capture: bool)
    ensures
        crate::slotbook::method::worker_tree(id, requirement, argv, capture) == worker_of(
            id,
            requirement,
            argv,
            capture,
        ),
{
    let names = seq!["worker_result"@, "stdout"@];
    assert(names.drop_last() =~= seq!["worker_result"@]);
    assert(names.drop_last().drop_last() =~= Seq::<Seq<char>>::empty());
    reveal_with_fuel(crate::slotbook::method::output_ports, 3);
    assert(crate::slotbook::method::output_ports(names)->Object_0 =~= map![
        "worker_result"@ => optional_output(),
        "stdout"@ => optional_output(),
    ]);
    assert(crate::slotbook::method::port_tree(
        "Output"@,
        crate::slotbook::method::artifact_tree(),
        Tree::Null,
        false,
    ) == optional_output());
}

/// A repair runs the copied application in place of the first step, looks at what it made, and then
/// goes on as before.
pub proof fn repairs_copy_and_look(requirement: &Json, r: Json)
    requires
        call_ensures(repair_mutations, (requirement,), r),
    ensures
        r@ == Tree::List(
            seq![
                Tree::Object(
                    map![
                        "type"@ => Tree::Text("replace_node"@),
                        "node"@ => worker_of(
                            "repair.begin"@,
                            requirement@,
                            seq!["/bin/cp"@, "/fixtures/slotbook"@, "/workspace/app"@],
                            false,
                        ),
                    ],
                ),
                Tree::Object(
                    map![
                        "type"@ => Tree::Text("add_node"@),
                        "node"@ => worker_of(
                            "repair.investigate"@,
                            requirement@,
                            seq!["/bin/test"@, "-s"@, "/workspace/app"@],
                            false,
                        ),
                    ],
                ),
                Tree::Object(
                    map![
                        "type"@ => Tree::Text("replace_edge"@),
                        "edge"@ => edge_between(
                            "control-1"@,
                            "repair.begin"@,
                            "repair.investigate"@,
                            "control"@,
                            "out"@,
                            "in"@,
                        ),
                    ],
                ),
                Tree::Object(
                    map![
                        "type"@ => Tree::Text("add_edge"@),
                        "edge"@ => edge_between(
                            "investigated"@,
                            "repair.investigate"@,
                            "repair.end"@,
                            "control"@,
                            "out"@,
                            "in"@,
                        ),
                    ],
                ),
            ],
        ),
{
    lemma_worker(
        "repair.begin"@,
        requirement@,
        seq!["/bin/cp"@, "/fixtures/slotbook"@, "/workspace/app"@],
        false,
    );
    lemma_worker(
        "repair.investigate"@,
        requirement@,
        seq!["/bin/test"@, "-s"@, "/workspace/app"@],
        false,
    );
}

/// A command on the target, of an identity and at the version that it expects.
pub open spec fn target_command(id: Seq<char>, version: u64) -> Tree {
    Tree::Object(
        map![
            "schema_version"@ => Tree::Integer(3),
            "command"@ => Tree::Text(id),
            "installation"@ => Tree::Text("slotbook-test"@),
            "expected_version"@ => Tree::Integer(version as int),
        ],
    )
}

/// An effect on the protected target.
pub open spec fn effect_of_target(
    id: Seq<char>,
    requirement: Map<Seq<char>, Tree>,
    operation: Seq<char>,
    selected: Seq<char>,
    version: u64,
) -> Tree {
    node_with_ports(
        id,
        task_of(
            Tree::Object(
                requirement.insert(
                    "categories"@,
                    Tree::List(seq![Tree::Object(map!["type"@ => Tree::Text("tool"@)])]),
                ).insert("exact_capability"@, Tree::Text("milkdrift.resources"@)).insert(
                    "maximum_side_effect"@,
                    Tree::Text("idempotent_write"@),
                ).insert("operation"@, Tree::Text(operation)),
            ),
        ),
        true,
        true,
        Tree::Object(
            map![
                "target"@ => port_of(
                    "Input"@,
                    Tree::Object(
                        map![
                            "id"@ => Tree::Text("milkdrift.managed.command"@),
                            "version"@ => Tree::Integer(3),
                        ],
                    ),
                    Tree::Object(
                        map![
                            "type"@ => Tree::Text("literal"@),
                            "value"@ => target_command(id, version),
                        ],
                    ),
                    true,
                ),
            ].insert(selected, port_of("Input"@, artifact_schema_of(), Tree::Null, true)),
        ),
        Tree::Object(map!["resource_result"@ => optional_output()]),
    )
}

proof fn lemma_effect(
    id: Seq<char>,
    requirement: Tree,
    operation: Seq<char>,
    selected: Seq<char>,
    version: u64,
)
    requires
        requirement is Object,
    ensures
        crate::slotbook::method::effect_tree(id, requirement, operation, selected, version)
            == effect_of_target(id, requirement->Object_0, operation, selected, version),
{
    let names = seq!["resource_result"@];
    assert(names.drop_last() =~= Seq::<Seq<char>>::empty());
    reveal_with_fuel(crate::slotbook::method::output_ports, 2);
    assert(crate::slotbook::method::output_ports(names)->Object_0 =~= map![
        "resource_result"@ => optional_output(),
    ]);
}

/// An effect is a tool's operation on the protected target at the version it expects, at most an
/// idempotent write, on one selected artifact.
pub proof fn effects_are_on_the_target(
    id: &str,
    requirement: &Json,
    operation: &str,
    selected: &str,
    version: u64,
    r: Json,
)
    requires
        requirement@ is Object,
        call_ensures(effect, (id, requirement, operation, selected, version), r),
    ensures
        r@ == effect_of_target(
            id@,
            requirement@->Object_0,
            operation@,
            selected@,
            version,
        ),
{
    lemma_effect(id@, requirement@, operation@, selected@, version);
}

/// Texts are put in order, each once.
pub proof fn texts_are_ordered(v: &Vec<String>, t: Seq<char>, i: int, j: int, r: Vec<String>)
    requires
        call_ensures(ordered_texts, (v,), r),
    ensures
        texts(r@).contains(t) <==> texts(v@).contains(t),
        0 <= i < j < r@.len() ==> precedes(r@[i]@, r@[j]@),
{
    assert(texts(r@).len() == r@.len());
    if 0 <= i < j < r@.len() {
        assert(texts(r@)[i] == r@[i]@);
        assert(texts(r@)[j] == r@[j]@);
    }
}

} // verus!
