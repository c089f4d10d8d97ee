//! The documents of the Slotbook method: its nodes, ports, edges and mutations.

use vstd::prelude::*;

use crate::application::words;
use crate::json::{at, placed, segments, takes, with, Json, Tree};
use crate::text::{decimal, joined, number_text};

verus! {

pub open spec fn schema_tree(id: Seq<char>, version: u64) -> Tree {
    Tree::Object(map!["id"@ => Tree::Text(id), "version"@ => Tree::Integer(version as int)])
}

pub(crate) fn schema_of(id: &str, version: u64) -> (r: Json)
    ensures
        r@ == schema_tree(id@, version),
{
    let r: Json = Json::object().with("id", Json::text(id)).with("version", Json::number(version));
    proof {
        assert(r@->Object_0 =~= schema_tree(id@, version)->Object_0);
    }
    r
}

pub open spec fn artifact_tree() -> Tree {
    schema_tree("milkdrift.artifact-reference"@, 1)
}

/// The schema of an artifact reference.
pub fn artifact_schema() -> (r: Json)
    ensures
        r@ == artifact_tree(),
{
    schema_of("milkdrift.artifact-reference", 1)
}

pub open spec fn port_tree(direction: Seq<char>, schema: Tree, binding: Tree, required: bool) -> Tree {
    Tree::Object(
        map![
            "direction"@ => Tree::Text(direction),
            "schema"@ => schema,
            "binding"@ => binding,
            "required"@ => Tree::Bool(required),
        ],
    )
}

/// A data port.
pub fn port(direction: &str, schema: Json, binding: Json, required: bool) -> (r: Json)
    ensures
        r@ == port_tree(direction@, schema@, binding@, required),
{
    let r: Json = Json::object().with("direction", Json::text(direction)).with(
        "schema",
        schema,
    ).with("binding", binding).with("required", Json::flag(required));
    proof {
        assert(r@->Object_0 =~= port_tree(direction@, schema@, binding@, required)->Object_0);
    }
    r
}

/// The list of one text, or of none.
pub open spec fn single(present: bool, name: Seq<char>) -> Tree {
    Tree::List(
        if present {
            seq![Tree::Text(name)]
        } else {
            seq![]
        },
    )
}

fn single_list(present: bool, name: &str) -> (r: Json)
    ensures
        r@ == single(present, name@),
{
    let r: Json = if present {
        Json::list().and(Json::text(name))
    } else {
        Json::list()
    };
    proof {
        assert(r@->List_0 =~= single(present, name@)->List_0);
    }
    r
}

pub open spec fn node_tree(
    id: Seq<char>,
    kind: Tree,
    incoming: bool,
    outgoing: bool,
    inputs: Tree,
    outputs: Tree,
) -> Tree {
    Tree::Object(
        map![
            "id"@ => Tree::Text(id),
            "kind"@ => kind,
            "control_inputs"@ => single(incoming, "in"@),
            "control_outputs"@ => single(outgoing, "out"@),
            "data_inputs"@ => inputs,
            "data_outputs"@ => outputs,
        ],
    )
}

fn node_with(
    id: &str,
    kind: Json,
    incoming: bool,
    outgoing: bool,
    inputs: Json,
    outputs: Json,
) -> (r: Json)
    ensures
        r@ == node_tree(id@, kind@, incoming, outgoing, inputs@, outputs@),
{
    let r: Json = Json::object().with("id", Json::text(id)).with("kind", kind).with(
        "control_inputs",
        single_list(incoming, "in"),
    ).with("control_outputs", single_list(outgoing, "out")).with("data_inputs", inputs).with(
        "data_outputs",
        outputs,
    );
    proof {
        assert(r@->Object_0 =~= node_tree(
            id@,
            kind@,
            incoming,
            outgoing,
            inputs@,
            outputs@,
        )->Object_0);
    }
    r
}

pub open spec fn no_entries() -> Tree {
    Tree::Object(map![])
}

/// A node without data ports.
pub fn node(id: &str, kind: Json, incoming: bool, outgoing: bool) -> (r: Json)
    ensures
        r@ == node_tree(id@, kind@, incoming, outgoing, no_entries(), no_entries()),
{
    node_with(id, kind, incoming, outgoing, Json::object(), Json::object())
}

pub open spec fn edge_tree(
    id: Seq<char>,
    source: Seq<char>,
    target: Seq<char>,
    kind: Seq<char>,
    from: Seq<char>,
    to: Seq<char>,
) -> Tree {
    Tree::Object(
        map![
            "id"@ => Tree::Text(id),
            "kind"@ => Tree::Text(kind),
            "source_node"@ => Tree::Text(source),
            "source_port"@ => Tree::Text(from),
            "target_node"@ => Tree::Text(target),
            "target_port"@ => Tree::Text(to),
        ],
    )
}

/// An edge between two ports.
pub fn edge(id: &str, source: &str, target: &str, kind: &str, from: &str, to: &str) -> (r: Json)
    ensures
        r@ == edge_tree(id@, source@, target@, kind@, from@, to@),
{
    let r: Json = Json::object().with("id", Json::text(id)).with("kind", Json::text(kind)).with(
        "source_node",
        Json::text(source),
    ).with("source_port", Json::text(from)).with("target_node", Json::text(target)).with(
        "target_port",
        Json::text(to),
    );
    proof {
        assert(r@->Object_0 =~= edge_tree(id@, source@, target@, kind@, from@, to@)->Object_0);
    }
    r
}

pub open spec fn mutation_tree(kind: Seq<char>, field: Seq<char>, value: Tree) -> Tree {
    with(with(no_entries(), "type"@, Tree::Text(kind)), field, value)
}

fn mutation(kind: &str, field: &str, value: Json) -> (r: Json)
    ensures
        r@ == mutation_tree(kind@, field@, value@),
{
    Json::object().with("type", Json::text(kind)).with(field, value)
}

pub open spec fn text_trees(v: Seq<Seq<char>>) -> Tree {
    Tree::List(v.map_values(|t: Seq<char>| Tree::Text(t)))
}

pub(crate) fn text_list(v: &Vec<&str>) -> (r: Json)
    ensures
        r@ == text_trees(words(v@)),
{
    let ghost wanted = text_trees(words(v@))->List_0;
    let mut out: Json = Json::list();
    let mut i: usize = 0;
    proof {
        assert(out@->List_0 =~= wanted.take(0));
    }
    while i < v.len()
        invariant
            i <= v.len(),
            wanted == text_trees(words(v@))->List_0,
            out@ == Tree::List(wanted.take(i as int)),
        decreases v.len() - i,
    {
        let value: Json = Json::text(v[i]);
        proof {
            assert(words(v@)[i as int] == v@[i as int]@);
            assert(wanted.take(i + 1) =~= wanted.take(i as int).push(value@));
        }
        out = out.and(value);
        i = i + 1;
    }
    proof {
        assert(wanted.take(i as int) =~= wanted);
    }
    out
}

pub open spec fn budget_tree() -> Tree {
    Tree::Object(
        map![
            "max_artifact_bytes"@ => Tree::Integer(33554432),
            "max_bytes"@ => Tree::Integer(262144),
            "max_items"@ => Tree::Integer(64),
            "max_model_input_units"@ => Tree::Null,
        ],
    )
}

/// The context that a method's task sees: its direct inputs, bounded, and no raw output.
pub open spec fn context_tree() -> Tree {
    Tree::Object(
        map![
            "ancestor_depth"@ => Tree::Null,
            "artifact_selector"@ => Tree::Null,
            "budget"@ => budget_tree(),
            "exclude_categories"@ => text_trees(
                seq!["raw_progress"@, "tool_trace"@, "verbose_command_output"@, "prior_prompt"@],
            ),
            "fail_closed"@ => Tree::Bool(true),
            "include_categories"@ => text_trees(seq!["direct_input"@]),
            "include_direct_inputs"@ => Tree::Bool(true),
            "ordering"@ => Tree::Text("causal_kind_source"@),
            "selected_nodes"@ => text_trees(seq![]),
            "selected_roles"@ => text_trees(seq![]),
            "session"@ => Tree::Text("fresh"@),
            "truncation"@ => Tree::Text("omit_oversized"@),
        ],
    )
}

fn context_policy() -> (r: Json)
    ensures
        r@ == context_tree(),
{
    let budget: Json = Json::object().with("max_artifact_bytes", Json::number(33554432)).with(
        "max_bytes",
        Json::number(262144),
    ).with("max_items", Json::number(64)).with("max_model_input_units", Json::Null);
    let excluded: Vec<&str> = vec![
        "raw_progress",
        "tool_trace",
        "verbose_command_output",
        "prior_prompt",
    ];
    let included: Vec<&str> = vec!["direct_input"];
    let none: Vec<&str> = vec![];
    proof {
        assert(words(excluded@) =~= seq![
            "raw_progress"@,
            "tool_trace"@,
            "verbose_command_output"@,
            "prior_prompt"@,
        ]);
        assert(words(included@) =~= seq!["direct_input"@]);
        assert(words(none@) =~= seq![]);
        assert(budget@ == budget_tree());
    }
    Json::object().with("ancestor_depth", Json::Null).with("artifact_selector", Json::Null).with(
        "budget",
        budget,
    ).with("exclude_categories", text_list(&excluded)).with("fail_closed", Json::flag(true)).with(
        "include_categories",
        text_list(&included),
    ).with("include_direct_inputs", Json::flag(true)).with(
        "ordering",
        Json::text("causal_kind_source"),
    ).with("selected_nodes", text_list(&none)).with("selected_roles", text_list(&none)).with(
        "session",
        Json::text("fresh"),
    ).with("truncation", Json::text("omit_oversized"))
}

pub open spec fn task_kind(requirement: Tree) -> Tree {
    Tree::Object(
        map![
            "type"@ => Tree::Text("task"@),
            "config"@ => Tree::Object(
                map!["requirement"@ => requirement, "context_policy"@ => context_tree()],
            ),
        ],
    )
}

/// The optional artifact outputs of a task.
pub open spec fn output_ports(names: Seq<Seq<char>>) -> Tree
    decreases names.len(),
{
    if names.len() == 0 {
        no_entries()
    } else {
        with(
            output_ports(names.drop_last()),
            names.last(),
            port_tree("Output"@, artifact_tree(), Tree::Null, false),
        )
    }
}

fn outputs_of(names: &Vec<&str>) -> (r: Json)
    ensures
        r@ == output_ports(words(names@)),
        r@ is Object,
{
    let mut out: Json = Json::object();
    let mut i: usize = 0;
    let ghost all = words(names@);
    proof {
        assert(all.take(0) =~= seq![]);
    }
    while i < names.len()
        invariant
            i <= names.len(),
            all == words(names@),
            out@ == output_ports(all.take(i as int)),
            out@ is Object,
        decreases names.len() - i,
    {
        proof {
            assert(all[i as int] == names@[i as int]@);
            assert(all.take(i + 1).drop_last() =~= all.take(i as int));
            assert(all.take(i + 1).last() == names@[i as int]@);
        }
        out = out.with(names[i], port("Output", artifact_schema(), Json::Null, false));
        i = i + 1;
    }
    proof {
        assert(all.take(i as int) =~= all);
    }
    out
}

pub open spec fn task_tree(
    id: Seq<char>,
    requirement: Tree,
    name: Seq<char>,
    literal: Tree,
    schema: Tree,
    outputs: Seq<Seq<char>>,
) -> Tree {
    node_tree(
        id,
        task_kind(requirement),
        true,
        true,
        with(
            no_entries(),
            name,
            port_tree(
                "Input"@,
                schema,
                with(with(no_entries(), "type"@, Tree::Text("literal"@)), "value"@, literal),
                true,
            ),
        ),
        output_ports(outputs),
    )
}

fn kind_of(requirement: Json) -> (r: Json)
    ensures
        r@ == task_kind(requirement@),
{
    let config: Json = Json::object().with("requirement", requirement).with(
        "context_policy",
        context_policy(),
    );
    Json::object().with("type", Json::text("task")).with("config", config)
}

/// A task with one literal input and artifact outputs.
pub fn task(
    id: &str,
    requirement: Json,
    name: &str,
    literal: Json,
    schema: Json,
    outputs: &Vec<&str>,
) -> (r: Json)
    ensures
        r@ == task_tree(id@, requirement@, name@, literal@, schema@, words(outputs@)),
{
    let binding: Json = Json::object().with("type", Json::text("literal")).with("value", literal);
    let inputs: Json = Json::object().with(name, port("Input", schema, binding, true));
    node_with(id, kind_of(requirement), true, true, inputs, outputs_of(outputs))
}

pub open spec fn worker_command(argv: Seq<Seq<char>>, capture: bool) -> Tree {
    Tree::Object(map!["argv"@ => text_trees(argv), "stdout_artifact"@ => Tree::Bool(capture)])
}

pub open spec fn worker_tree(
    id: Seq<char>,
    requirement: Tree,
    argv: Seq<Seq<char>>,
    capture: bool,
) -> Tree {
    task_tree(
        id,
        requirement,
        "command"@,
        worker_command(argv, capture),
        schema_tree("milkdrift.managed.worker"@, 2),
        seq!["worker_result"@, "stdout"@],
    )
}

/// A command of the managed worker.
pub fn worker(id: &str, requirement: &Json, argv: &Vec<&str>, capture: bool) -> (r: Json)
    ensures
        r@ == worker_tree(id@, requirement@, words(argv@), capture),
{
    let command: Json = Json::object().with("argv", text_list(argv)).with(
        "stdout_artifact",
        Json::flag(capture),
    );
    let outputs: Vec<&str> = vec!["worker_result", "stdout"];
    proof {
        assert(words(outputs@) =~= seq!["worker_result"@, "stdout"@]);
    }
    task(
        id,
        requirement.copy(),
        "command",
        command,
        schema_of("milkdrift.managed.worker", 2),
        &outputs,
    )
}

/// The requirement of an effect on the protected target.
pub open spec fn effect_requirement(requirement: Tree, operation: Seq<char>) -> Tree {
    with(
        with(
            with(
                with(
                    requirement,
                    "categories"@,
                    Tree::List(seq![Tree::Object(map!["type"@ => Tree::Text("tool"@)])]),
                ),
                "exact_capability"@,
                Tree::Text("milkdrift.resources"@),
            ),
            "maximum_side_effect"@,
            Tree::Text("idempotent_write"@),
        ),
        "operation"@,
        Tree::Text(operation),
    )
}

pub open spec fn command_tree(command: Seq<char>, installation: Seq<char>, version: u64) -> Tree {
    Tree::Object(
        map![
            "schema_version"@ => Tree::Integer(3),
            "command"@ => Tree::Text(command),
            "installation"@ => Tree::Text(installation),
            "expected_version"@ => Tree::Integer(version as int),
        ],
    )
}

pub open spec fn effect_tree(
    id: Seq<char>,
    requirement: Tree,
    operation: Seq<char>,
    selected: Seq<char>,
    version: u64,
) -> Tree {
    node_tree(
        id,
        task_kind(effect_requirement(requirement, operation)),
        true,
        true,
        with(
            with(
                no_entries(),
                "target"@,
                port_tree(
                    "Input"@,
                    schema_tree("milkdrift.managed.command"@, 3),
                    with(
                        with(no_entries(), "type"@, Tree::Text("literal"@)),
                        "value"@,
                        command_tree(id, "slotbook-test"@, version),
                    ),
                    true,
                ),
            ),
            selected,
            port_tree("Input"@, artifact_tree(), Tree::Null, true),
        ),
        output_ports(seq!["resource_result"@]),
    )
}

/// An effect on the protected target at an expected version, on one selected artifact.
pub fn effect(id: &str, requirement: &Json, operation: &str, selected: &str, version: u64) -> (r:
    Json)
    requires
        requirement@ is Object,
    ensures
        r@ == effect_tree(id@, requirement@, operation@, selected@, version),
{
    let category: Json = Json::object().with("type", Json::text("tool"));
    let categories: Json = Json::list().and(category);
    proof {
        assert(categories@->List_0 =~= seq![Tree::Object(map!["type"@ => Tree::Text("tool"@)])]);
    }
    let needed: Json = requirement.copy().with("categories", categories).with(
        "exact_capability",
        Json::text("milkdrift.resources"),
    ).with("maximum_side_effect", Json::text("idempotent_write")).with(
        "operation",
        Json::text(operation),
    );
    let command: Json = Json::object().with("schema_version", Json::number(3)).with(
        "command",
        Json::text(id),
    ).with("installation", Json::text("slotbook-test")).with(
        "expected_version",
        Json::number(version),
    );
    let binding: Json = Json::object().with("type", Json::text("literal")).with("value", command);
    let inputs: Json = Json::object().with(
        "target",
        port("Input", schema_of("milkdrift.managed.command", 3), binding, true),
    ).with(selected, port("Input", artifact_schema(), Json::Null, true));
    let outputs: Vec<&str> = vec!["resource_result"];
    proof {
        assert(words(outputs@) =~= seq!["resource_result"@]);
    }
    node_with(id, kind_of(needed), true, true, inputs, outputs_of(&outputs))
}

/// The control edges that join some nodes in a chain; the first `n` of them.
pub open spec fn chain_edges(prefix: Seq<char>, ids: Seq<Seq<char>>, n: int) -> Seq<Tree>
    decreases n,
{
    if n <= 0 {
        seq![]
    } else {
        chain_edges(prefix, ids, n - 1).push(
            mutation_tree(
                "add_edge"@,
                "edge"@,
                edge_tree(
                    prefix + decimal((n - 1) as nat),
                    ids[n - 1],
                    ids[n],
                    "control"@,
                    "out"@,
                    "in"@,
                ),
            ),
        )
    }
}

pub open spec fn json_views(v: Seq<Json>) -> Seq<Tree> {
    v.map_values(|j: Json| j@)
}

fn push_chain(out: &mut Vec<Json>, prefix: &str, ids: &Vec<&str>)
    requires
        ids.len() > 0,
    ensures
        json_views(final(out)@) == json_views(old(out)@) + chain_edges(
            prefix@,
            words(ids@),
            ids@.len() - 1,
        ),
{
    let ghost start = json_views(out@);
    let ghost all = words(ids@);
    let mut i: usize = 0;
    proof {
        assert(start + chain_edges(prefix@, all, 0) =~= start);
    }
    while i + 1 < ids.len()
        invariant
            i < ids.len(),
            all == words(ids@),
            start == json_views(old(out)@),
            json_views(out@) == start + chain_edges(prefix@, all, i as int),
        decreases ids.len() - i,
    {
        let id: String = joined(prefix, number_text(i as u64).as_str());
        let next: Json = mutation(
            "add_edge",
            "edge",
            edge(id.as_str(), ids[i], ids[i + 1], "control", "out", "in"),
        );
        proof {
            assert(all[i as int] == ids@[i as int]@);
            assert(all[i + 1] == ids@[i + 1]@);
            assert(json_views(out@.push(next)) =~= json_views(out@).push(next@));
            assert(chain_edges(prefix@, all, i + 1) =~= chain_edges(prefix@, all, i as int).push(
                next@,
            ));
            assert(start + chain_edges(prefix@, all, i as int).push(next@) =~= (start + chain_edges(
                prefix@,
                all,
                i as int,
            )).push(next@));
        }
        out.push(next);
        i = i + 1;
    }
}

pub(crate) fn push(out: &mut Vec<Json>, next: Json)
    ensures
        json_views(final(out)@) == json_views(old(out)@).push(next@),
{
    proof {
        assert(json_views(out@.push(next)) =~= json_views(out@).push(next@));
    }
    out.push(next);
}

pub(crate) fn listed(v: Vec<Json>) -> (r: Json)
    ensures
        r@ == Tree::List(json_views(v@)),
{
    proof {
        crate::json::lemma_trees(v@);
        assert(crate::json::trees(v@) =~= json_views(v@));
    }
    Json::List(v)
}

pub open spec fn terminal_kind() -> Tree {
    Tree::Object(map!["type"@ => Tree::Text("terminal"@), "outcome"@ => Tree::Text("success"@)])
}

fn terminal_of() -> (r: Json)
    ensures
        r@ == terminal_kind(),
{
    Json::object().with("type", Json::text("terminal")).with("outcome", Json::text("success"))
}

pub open spec fn added(node: Tree) -> Tree {
    mutation_tree("add_node"@, "node"@, node)
}

/// The nodes of the method: a window for repairs, the worker's two steps, the verification and the
/// publication of their candidate, and the end.
pub open spec fn method_nodes(requirement: Tree, version: u64) -> Seq<Tree> {
    seq![
        added(
            node_tree(
                "repair-window"@,
                Tree::Object(
                    map!["type"@ => Tree::Text("wait"@), "duration_ms"@ => Tree::Integer(45000)],
                ),
                false,
                true,
                no_entries(),
                no_entries(),
            ),
        ),
        added(
            worker_tree(
                "repair.begin"@,
                requirement,
                seq!["/bin/test"@, "-r"@, "/workspace/app"@],
                false,
            ),
        ),
        added(
            worker_tree("repair.end"@, requirement, seq!["/bin/cat"@, "/workspace/app"@], true),
        ),
        added(
            effect_tree(
                "verify-candidate"@,
                requirement,
                "resource.evaluate_candidate"@,
                "candidate"@,
                version,
            ),
        ),
        added(
            effect_tree(
                "publish-candidate"@,
                requirement,
                "resource.publish_candidate"@,
                "evaluation"@,
                version,
            ),
        ),
        added(node_tree("done"@, terminal_kind(), true, false, no_entries(), no_entries())),
    ]
}

pub open spec fn method_ids() -> Seq<Seq<char>> {
    seq![
        "repair-window"@,
        "repair.begin"@,
        "repair.end"@,
        "verify-candidate"@,
        "publish-candidate"@,
        "done"@,
    ]
}

pub open spec fn joined_edge(
    id: Seq<char>,
    source: Seq<char>,
    target: Seq<char>,
    from: Seq<char>,
    to: Seq<char>,
) -> Tree {
    mutation_tree("add_edge"@, "edge"@, edge_tree(id, source, target, "data"@, from, to))
}

/// The mutations that create the method: its nodes, their chain and the data between them.
pub open spec fn method_tree(requirement: Tree, version: u64) -> Tree {
    Tree::List(
        method_nodes(requirement, version) + chain_edges("control-"@, method_ids(), 5) + seq![
            joined_edge(
                "candidate-input"@,
                "repair.end"@,
                "verify-candidate"@,
                "stdout"@,
                "candidate"@,
            ),
            joined_edge(
                "evaluation-input"@,
                "verify-candidate"@,
                "publish-candidate"@,
                "resource_result"@,
                "evaluation"@,
            ),
        ],
    )
}

pub fn method_mutations(requirement: &Json, version: u64) -> (r: Json)
    requires
        requirement@ is Object,
    ensures
        r@ == method_tree(requirement@, version),
{
    let window: Json = Json::object().with("type", Json::text("wait")).with(
        "duration_ms",
        Json::number(45000),
    );
    let test: Vec<&str> = vec!["/bin/test", "-r", "/workspace/app"];
    let cat: Vec<&str> = vec!["/bin/cat", "/workspace/app"];
    proof {
        assert(words(test@) =~= seq!["/bin/test"@, "-r"@, "/workspace/app"@]);
        assert(words(cat@) =~= seq!["/bin/cat"@, "/workspace/app"@]);
    }
    let mut out: Vec<Json> = Vec::new();
    proof {
        assert(json_views(out@) =~= seq![]);
    }
    push(&mut out, mutation("add_node", "node", node("repair-window", window, false, true)));
    push(
        &mut out,
        mutation("add_node", "node", worker("repair.begin", requirement, &test, false)),
    );
    push(&mut out, mutation("add_node", "node", worker("repair.end", requirement, &cat, true)));
    push(
        &mut out,
        mutation(
            "add_node",
            "node",
            effect(
                "verify-candidate",
                requirement,
                "resource.evaluate_candidate",
                "candidate",
                version,
            ),
        ),
    );
    push(
        &mut out,
        mutation(
            "add_node",
            "node",
            effect(
                "publish-candidate",
                requirement,
                "resource.publish_candidate",
                "evaluation",
                version,
            ),
        ),
    );
    push(&mut out, mutation("add_node", "node", node("done", terminal_of(), true, false)));
    proof {
        assert(json_views(out@) =~= method_nodes(requirement@, version));
    }
    let ids: Vec<&str> = vec![
        "repair-window",
        "repair.begin",
        "repair.end",
        "verify-candidate",
        "publish-candidate",
        "done",
    ];
    proof {
        assert(words(ids@) =~= method_ids());
    }
    push_chain(&mut out, "control-", &ids);
    push(
        &mut out,
        mutation(
            "add_edge",
            "edge",
            edge(
                "candidate-input",
                "repair.end",
                "verify-candidate",
                "data",
                "stdout",
                "candidate",
            ),
        ),
    );
    push(
        &mut out,
        mutation(
            "add_edge",
            "edge",
            edge(
                "evaluation-input",
                "verify-candidate",
                "publish-candidate",
                "data",
                "resource_result",
                "evaluation",
            ),
        ),
    );
    proof {
        assert(json_views(out@) =~= method_tree(requirement@, version)->List_0);
    }
    listed(out)
}

/// The mutations of the repair: the corrected candidate and a check that it is there.
pub open spec fn repair_tree(requirement: Tree) -> Tree {
    Tree::List(
        seq![
            mutation_tree(
                "replace_node"@,
                "node"@,
                worker_tree(
                    "repair.begin"@,
                    requirement,
                    seq!["/bin/cp"@, "/fixtures/slotbook"@, "/workspace/app"@],
                    false,
                ),
            ),
            added(
                worker_tree(
                    "repair.investigate"@,
                    requirement,
                    seq!["/bin/test"@, "-s"@, "/workspace/app"@],
                    false,
                ),
            ),
            mutation_tree(
                "replace_edge"@,
                "edge"@,
                edge_tree(
                    "control-1"@,
                    "repair.begin"@,
                    "repair.investigate"@,
                    "control"@,
                    "out"@,
                    "in"@,
                ),
            ),
            mutation_tree(
                "add_edge"@,
                "edge"@,
                edge_tree(
                    "investigated"@,
                    "repair.investigate"@,
                    "repair.end"@,
                    "control"@,
                    "out"@,
                    "in"@,
                ),
            ),
        ],
    )
}

pub fn repair_mutations(requirement: &Json) -> (r: Json)
    ensures
        r@ == repair_tree(requirement@),
{
    let copy: Vec<&str> = vec!["/bin/cp", "/fixtures/slotbook", "/workspace/app"];
    let test: Vec<&str> = vec!["/bin/test", "-s", "/workspace/app"];
    proof {
        assert(words(copy@) =~= seq!["/bin/cp"@, "/fixtures/slotbook"@, "/workspace/app"@]);
        assert(words(test@) =~= seq!["/bin/test"@, "-s"@, "/workspace/app"@]);
    }
    let mut out: Vec<Json> = Vec::new();
    proof {
        assert(json_views(out@) =~= seq![]);
    }
    push(
        &mut out,
        mutation("replace_node", "node", worker("repair.begin", requirement, &copy, false)),
    );
    push(
        &mut out,
        mutation("add_node", "node", worker("repair.investigate", requirement, &test, false)),
    );
    push(
        &mut out,
        mutation(
            "replace_edge",
            "edge",
            edge("control-1", "repair.begin", "repair.investigate", "control", "out", "in"),
        ),
    );
    push(
        &mut out,
        mutation(
            "add_edge",
            "edge",
            edge("investigated", "repair.investigate", "repair.end", "control", "out", "in"),
        ),
    );
    proof {
        assert(json_views(out@) =~= repair_tree(requirement@)->List_0);
    }
    listed(out)
}

/// A document to place values in, which may not be there yet.
pub open spec fn opened(t: Tree) -> Tree {
    if t is Null {
        no_entries()
    } else {
        t
    }
}

pub(crate) fn open_document(document: &Json, path: &str) -> (r: Json)
    ensures
        r@ == opened(at(document@, path@)),
{
    match document.find(path) {
        Some(value) => match value {
            Json::Null => Json::object(),
            _ => value.copy(),
        },
        None => Json::object(),
    }
}

/// The step that the method verifies one submission with: its command comes from the workflow's
/// input.
pub open spec fn verification_tree(verify: Tree, id: Seq<char>, field: Seq<char>) -> Tree {
    with(
        placed(
            verify,
            segments("data_inputs,target,binding"@),
            with(
                with(no_entries(), "type"@, Tree::Text("workflow_input"@)),
                "field"@,
                Tree::Text(field),
            ),
        ),
        "id"@,
        Tree::Text(id),
    )
}

fn verification(verify: &Json, id: &str, field: &str) -> (r: Json)
    requires
        verify@ is Object,
        takes(verify@, segments("data_inputs,target,binding"@)),
    ensures
        r@ == verification_tree(verify@, id@, field@),
{
    let binding: Json = Json::object().with("type", Json::text("workflow_input")).with(
        "field",
        Json::text(field),
    );
    verify.copy().set("data_inputs,target,binding", binding).with("id", Json::text(id))
}

/// The three submissions of the learning method: each builds, captures and verifies.
pub open spec fn submission_nodes(requirement: Tree, verify: Tree) -> Seq<Tree> {
    seq![
        with(
            worker_tree(
                "repair.build-1"@,
                requirement,
                seq!["/bin/cp"@, "/fixtures/slotbook-seeded"@, "/workspace/app"@],
                false,
            ),
            "control_inputs"@,
            Tree::List(seq![]),
        ),
        worker_tree("repair.capture-1"@, requirement, seq!["/bin/cat"@, "/workspace/app"@], true),
        verification_tree(verify, "verify-1"@, "target-1"@),
        worker_tree(
            "repair.build-2"@,
            requirement,
            seq!["/bin/cp"@, "/fixtures/slotbook"@, "/workspace/app"@],
            false,
        ),
        worker_tree("repair.capture-2"@, requirement, seq!["/bin/cat"@, "/workspace/app"@], true),
        verification_tree(verify, "verify-2"@, "target-2"@),
        worker_tree(
            "repair.build-3"@,
            requirement,
            seq!["/bin/cp"@, "/fixtures/slotbook"@, "/workspace/app"@],
            false,
        ),
        worker_tree("repair.capture-3"@, requirement, seq!["/bin/cat"@, "/workspace/app"@], true),
        verification_tree(verify, "verify-3"@, "target-3"@),
    ]
}

pub open spec fn submission_ids() -> Seq<Seq<char>> {
    seq![
        "repair.build-1"@,
        "repair.capture-1"@,
        "verify-1"@,
        "repair.build-2"@,
        "repair.capture-2"@,
        "verify-2"@,
        "repair.build-3"@,
        "repair.capture-3"@,
        "verify-3"@,
        "done"@,
    ]
}

/// An input of the end that is bound to a node's output.
pub open spec fn result_port(node: Seq<char>, port: Seq<char>) -> Tree {
    port_tree(
        "Input"@,
        artifact_tree(),
        Tree::Object(
            map![
                "type"@ => Tree::Text("node_output"@),
                "node"@ => Tree::Text(node),
                "port"@ => Tree::Text(port),
                "path"@ => Tree::List(seq![]),
            ],
        ),
        true,
    )
}

fn result_input(node: &str, from: &str) -> (r: Json)
    ensures
        r@ == result_port(node@, from@),
{
    let nowhere: Json = Json::list();
    proof {
        assert(nowhere@->List_0 =~= seq![]);
    }
    let binding: Json = Json::object().with("type", Json::text("node_output")).with(
        "node",
        Json::text(node),
    ).with("port", Json::text(from)).with("path", nowhere);
    port("Input", artifact_schema(), binding, true)
}

/// The end of the learning method, which gives the third candidate and its evaluation.
pub open spec fn result_node() -> Tree {
    node_tree(
        "done"@,
        terminal_kind(),
        true,
        false,
        with(
            with(no_entries(), "candidate"@, result_port("repair.capture-3"@, "stdout"@)),
            "evaluation"@,
            result_port("verify-3"@, "resource_result"@),
        ),
        no_entries(),
    )
}

pub open spec fn required_field(schema: Tree) -> Tree {
    Tree::Object(map!["schema"@ => schema, "required"@ => Tree::Bool(true)])
}

fn required_of(schema: Json) -> (r: Json)
    ensures
        r@ == required_field(schema@),
{
    Json::object().with("schema", schema).with("required", Json::flag(true))
}

/// What the learning method takes and gives.
pub open spec fn interface_tree() -> Tree {
    let command = required_field(schema_tree("milkdrift.managed.command"@, 3));
    let artifact = required_field(artifact_tree());
    Tree::Object(
        map![
            "inputs"@ => Tree::Object(
                map![
                    "product"@ => artifact,
                    "target-1"@ => command,
                    "target-2"@ => command,
                    "target-3"@ => command,
                ],
            ),
            "outputs"@ => Tree::Object(
                map!["candidate"@ => artifact, "evaluation"@ => artifact],
            ),
        ],
    )
}

fn interface() -> (r: Json)
    ensures
        r@ == interface_tree(),
{
    let inputs: Json = Json::object().with("product", required_of(artifact_schema())).with(
        "target-1",
        required_of(schema_of("milkdrift.managed.command", 3)),
    ).with("target-2", required_of(schema_of("milkdrift.managed.command", 3))).with(
        "target-3",
        required_of(schema_of("milkdrift.managed.command", 3)),
    );
    let outputs: Json = Json::object().with("candidate", required_of(artifact_schema())).with(
        "evaluation",
        required_of(artifact_schema()),
    );
    Json::object().with("inputs", inputs).with("outputs", outputs)
}

/// The requirement of the learning method's worker: whichever its service's authority selects.
pub open spec fn shared_requirement(governed: Tree) -> Tree {
    with(
        opened(at(governed, "revision,semantic,nodes,repair.begin,kind,config,requirement"@)),
        "exact_capability"@,
        Tree::Null,
    )
}

/// The verification step of the governed method.
pub open spec fn governed_verification(governed: Tree) -> Tree {
    opened(at(governed, "revision,semantic,nodes,verify-candidate"@))
}

/// The mutations that create the learning method from the governed one.
pub open spec fn learning_tree(governed: Tree) -> Tree {
    let nodes = submission_nodes(shared_requirement(governed), governed_verification(governed)).push(
        result_node(),
    );
    Tree::List(
        nodes.map_values(|n: Tree| added(n)) + chain_edges("sequence-"@, submission_ids(), 9)
            + seq![
            joined_edge(
                "candidate-1"@,
                "repair.capture-1"@,
                "verify-1"@,
                "stdout"@,
                "candidate"@,
            ),
            joined_edge(
                "candidate-2"@,
                "repair.capture-2"@,
                "verify-2"@,
                "stdout"@,
                "candidate"@,
            ),
            joined_edge(
                "candidate-3"@,
                "repair.capture-3"@,
                "verify-3"@,
                "stdout"@,
                "candidate"@,
            ),
            joined_edge("result-candidate"@, "repair.capture-3"@, "done"@, "stdout"@, "candidate"@),
            joined_edge(
                "result-evaluation"@,
                "verify-3"@,
                "done"@,
                "resource_result"@,
                "evaluation"@,
            ),
            mutation_tree("set_interface"@, "interface"@, interface_tree()),
        ],
    )
}

fn push_data(out: &mut Vec<Json>, id: &str, source: &str, target: &str, from: &str, to: &str)
    ensures
        json_views(final(out)@) == json_views(old(out)@).push(
            joined_edge(id@, source@, target@, from@, to@),
        ),
{
    push(out, mutation("add_edge", "edge", edge(id, source, target, "data", from, to)));
}

/// The worker and capture steps of one submission and its verification.
fn push_submission(
    out: &mut Vec<Json>,
    requirement: &Json,
    verify: &Json,
    ids: (&str, &str, &str),
    fixture: &str,
    field: &str,
    first: bool,
)
    requires
        verify@ is Object,
        takes(verify@, segments("data_inputs,target,binding"@)),
    ensures
        ({
            let build = worker_tree(
                ids.0@,
                requirement@,
                seq!["/bin/cp"@, fixture@, "/workspace/app"@],
                false,
            );
            json_views(final(out)@) == json_views(old(out)@).push(
                added(
                    if first {
                        with(build, "control_inputs"@, Tree::List(seq![]))
                    } else {
                        build
                    },
                ),
            ).push(
                added(
                    worker_tree(
                        ids.1@,
                        requirement@,
                        seq!["/bin/cat"@, "/workspace/app"@],
                        true,
                    ),
                ),
            ).push(added(verification_tree(verify@, ids.2@, field@)))
        }),
{
    let copy: Vec<&str> = vec!["/bin/cp", fixture, "/workspace/app"];
    let cat: Vec<&str> = vec!["/bin/cat", "/workspace/app"];
    proof {
        assert(words(copy@) =~= seq!["/bin/cp"@, fixture@, "/workspace/app"@]);
        assert(words(cat@) =~= seq!["/bin/cat"@, "/workspace/app"@]);
    }
    let mut build: Json = worker(ids.0, requirement, &copy, false);
    if first {
        let none: Json = Json::list();
        proof {
            assert(none@->List_0 =~= seq![]);
        }
        build = build.with("control_inputs", none);
    }
    push(out, mutation("add_node", "node", build));
    push(out, mutation("add_node", "node", worker(ids.1, requirement, &cat, true)));
    push(out, mutation("add_node", "node", verification(verify, ids.2, field)));
}

pub fn learning_mutations(governed: &Json) -> (r: Json)
    requires
        opened(
            at(governed@, "revision,semantic,nodes,repair.begin,kind,config,requirement"@),
        ) is Object,
        governed_verification(governed@) is Object,
        takes(governed_verification(governed@), segments("data_inputs,target,binding"@)),
    ensures
        r@ == learning_tree(governed@),
{
    let requirement: Json = open_document(
        governed,
        "revision,semantic,nodes,repair.begin,kind,config,requirement",
    ).with("exact_capability", Json::Null);
    let verify: Json = open_document(governed, "revision,semantic,nodes,verify-candidate");
    let mut out: Vec<Json> = Vec::new();
    proof {
        assert(json_views(out@) =~= seq![]);
    }
    push_submission(
        &mut out,
        &requirement,
        &verify,
        ("repair.build-1", "repair.capture-1", "verify-1"),
        "/fixtures/slotbook-seeded",
        "target-1",
        true,
    );
    push_submission(
        &mut out,
        &requirement,
        &verify,
        ("repair.build-2", "repair.capture-2", "verify-2"),
        "/fixtures/slotbook",
        "target-2",
        false,
    );
    push_submission(
        &mut out,
        &requirement,
        &verify,
        ("repair.build-3", "repair.capture-3", "verify-3"),
        "/fixtures/slotbook",
        "target-3",
        false,
    );
    let inputs: Json = Json::object().with(
        "candidate",
        result_input("repair.capture-3", "stdout"),
    ).with("evaluation", result_input("verify-3", "resource_result"));
    let done: Json = node_with("done", terminal_of(), true, false, inputs, Json::object());
    push(&mut out, mutation("add_node", "node", done));
    proof {
        assert(json_views(out@) =~= submission_nodes(
            shared_requirement(governed@),
            governed_verification(governed@),
        ).push(result_node()).map_values(|n: Tree| added(n)));
    }
    let ids: Vec<&str> = vec![
        "repair.build-1",
        "repair.capture-1",
        "verify-1",
        "repair.build-2",
        "repair.capture-2",
        "verify-2",
        "repair.build-3",
        "repair.capture-3",
        "verify-3",
        "done",
    ];
    proof {
        assert(words(ids@) =~= submission_ids());
    }
    push_chain(&mut out, "sequence-", &ids);
    push_data(&mut out, "candidate-1", "repair.capture-1", "verify-1", "stdout", "candidate");
    push_data(&mut out, "candidate-2", "repair.capture-2", "verify-2", "stdout", "candidate");
    push_data(&mut out, "candidate-3", "repair.capture-3", "verify-3", "stdout", "candidate");
    push_data(&mut out, "result-candidate", "repair.capture-3", "done", "stdout", "candidate");
    push_data(
        &mut out,
        "result-evaluation",
        "verify-3",
        "done",
        "resource_result",
        "evaluation",
    );
    push(&mut out, mutation("set_interface", "interface", interface()));
    proof {
        assert(json_views(out@) =~= learning_tree(governed@)->List_0);
    }
    listed(out)
}

} // verus!
