//! The nodes and edges that graphs are made of.

use vstd::prelude::*;

use crate::blueprint::{
    acceptance, change_of, change_views, child, control_edge, data, edge, evidence_node, fork, gate,
    is_closed, join_all, link, model_node, node_of, path, process, proposer, remote_limits,
    remote_node, schema, signal_wait, terminal, terminal_node, wait, wrapper_limits, Change,
    ChangeView, Context, EdgeView, KindView, Node, SideEffect,
};
use crate::text::texts;

verus! {

/// What a node is entered by: one port where something comes before it, and none otherwise.
pub open spec fn entered(after: bool) -> Seq<Seq<char>> {
    if after {
        seq!["in"@]
    } else {
        seq![]
    }
}

/// Outputs have the first schema of standard output.
pub proof fn outputs_have_a_schema(r: (&'static str, u32))
    requires
        call_ensures(schema, (), r),
    ensures
        r.0@ == "evidence.stdout"@ && r.1 == 1,
{
}

/// A process only reads, sees its direct inputs and gives its standard output; a verifier takes the
/// work.
pub proof fn processes_read(
    id: &str,
    capability: &str,
    predecessor: bool,
    verifier: bool,
    r: Node,
)
    requires
        call_ensures(process, (id, capability, predecessor, verifier), r),
    ensures
        r@.id == id@,
        r@.kind == (KindView::Task {
            operation: "process.execute"@,
            capability: capability@,
            profile: ""@,
            side_effect: SideEffect::ReadOnly,
            streaming: false,
            context: Context::Direct,
        }),
        r@.control_inputs == entered(predecessor),
        r@.control_outputs == seq!["next"@],
        verifier ==> r@.data_inputs == seq!["work"@],
        !verifier ==> r@.data_inputs.len() == 0,
        r@.data_outputs == seq!["stdout"@],
{
}

/// An evidence node is a process whose output is evidence.
pub proof fn evidence_nodes_give_evidence(id: &str, capability: &str, after: bool, r: Node)
    requires
        call_ensures(evidence_node, (id, capability, after), r),
    ensures
        r@.id == id@,
        r@.kind == (KindView::Task {
            operation: "process.execute"@,
            capability: capability@,
            profile: ""@,
            side_effect: SideEffect::ReadOnly,
            streaming: false,
            context: Context::Evidence,
        }),
        r@.control_inputs == entered(after),
        r@.control_outputs == seq!["next"@],
        r@.data_inputs.len() == 0,
        r@.data_outputs == seq!["evidence"@],
{
}

/// A model node generates under its profile, with selected evidence or afresh, and gives its
/// response, its text and what its provider told.
pub proof fn model_nodes_generate(
    id: &str,
    capability: &str,
    profile: &str,
    streaming: bool,
    selects: bool,
    after: bool,
    r: Node,
)
    requires
        call_ensures(model_node, (id, capability, profile, streaming, selects, after), r),
    ensures
        r@.id == id@,
        r@.kind == (KindView::Task {
            operation: "model.generate"@,
            capability: capability@,
            profile: profile@,
            side_effect: SideEffect::Unknown,
            streaming,
            context: if selects {
                Context::Selected
            } else {
                Context::Fresh
            },
        }),
        r@.control_inputs == entered(after),
        r@.control_outputs == seq!["next"@],
        r@.data_inputs == seq!["milkdrift.model_task"@],
        r@.data_outputs == seq!["model_response"@, "final_text"@, "provider_metadata"@],
{
}

/// A remote node does its operation with one input and gives one output, and a generation its
/// response and what its provider told beside it.
pub proof fn remote_nodes_do_their_operation(
    id: &str,
    capability: &str,
    operation: &str,
    input: &str,
    output: &str,
    after: bool,
    r: Node,
)
    requires
        call_ensures(remote_node, (id, capability, operation, input, output, after), r),
    ensures
        r@.id == id@,
        r@.kind == (KindView::Task {
            operation: operation@,
            capability: capability@,
            profile: ""@,
            side_effect: SideEffect::Unknown,
            streaming: false,
            context: Context::Direct,
        }),
        r@.control_inputs == entered(after),
        r@.control_outputs == seq!["next"@],
        r@.data_inputs == seq![input@],
        operation@ == "model.generate"@ ==> r@.data_outputs == seq![
            output@,
            "model_response"@,
            "provider_metadata"@,
        ],
        operation@ != "model.generate"@ ==> r@.data_outputs == seq![output@],
{
}

/// A proposer writes what may be written again, from a request to a result.
pub proof fn proposers_propose(id: &str, capability: &str, after: bool, r: Node)
    requires
        call_ensures(proposer, (id, capability, after), r),
    ensures
        r@.id == id@,
        r@.kind == (KindView::Task {
            operation: "workflow.propose"@,
            capability: capability@,
            profile: ""@,
            side_effect: SideEffect::IdempotentWrite,
            streaming: false,
            context: Context::Direct,
        }),
        r@.control_inputs == entered(after),
        r@.control_outputs == seq!["next"@],
        r@.data_inputs == seq!["milkdrift.control_request"@],
        r@.data_outputs == seq!["control_result"@],
{
}

/// A wait is for its signal; a controller's is named after the node.
pub proof fn waits_are_for_signals(
    id: &str,
    signal: &str,
    after: bool,
    named: Node,
    r: Node,
)
    requires
        call_ensures(signal_wait, (id, signal, after), r),
        call_ensures(wait, (id, after), named),
    ensures
        r@.id == id@ && named@.id == id@,
        r@.kind == (KindView::SignalWait { signal: signal@ }),
        named@.kind == (KindView::SignalWait { signal: "controller."@ + id@ }),
        r@.control_inputs == entered(after) && named@.control_inputs == entered(after),
        r@.control_outputs == seq!["next"@] && named@.control_outputs == seq!["next"@],
        r@.data_inputs.len() == 0 && r@.data_outputs.len() == 0,
{
}

/// An end says whether it is a success and leads nowhere.
pub proof fn ends_lead_nowhere(id: &str, success: bool, after: bool, change: Change, r: Node)
    requires
        call_ensures(terminal_node, (id, success, after), r),
        call_ensures(terminal, (id, success), change),
    ensures
        r@.id == id@,
        r@.kind == (KindView::Terminal { success }),
        r@.control_inputs == entered(after),
        r@.control_outputs.len() == 0 && r@.data_inputs.len() == 0 && r@.data_outputs.len() == 0,
        change@ matches ChangeView::AddNode(n) && n.id == id@ && n.kind == (KindView::Terminal {
            success,
        }) && n.control_inputs == entered(true) && n.control_outputs.len() == 0,
{
}

/// An acceptance takes a result and its evidence and gives the accepted result, and a gate passes
/// or fails by it.
pub proof fn gates_pass_or_fail(
    id: &str,
    requirement: &str,
    evidence: &Vec<String>,
    accepting: &str,
    accepted: Node,
    r: Node,
)
    requires
        call_ensures(acceptance, (id, requirement, evidence), accepted),
        call_ensures(gate, (id, accepting), r),
    ensures
        accepted@.id == id@ && r@.id == id@,
        accepted@.kind == (KindView::Acceptance {
            requirement: requirement@,
            evidence: texts(evidence@),
        }),
        accepted@.control_inputs == seq!["in"@] && accepted@.control_outputs == seq!["out"@],
        accepted@.data_inputs == seq!["result"@] + texts(evidence@),
        accepted@.data_outputs == seq!["accepted_result"@],
        r@.kind == (KindView::Gate { acceptance: accepting@ }),
        r@.control_inputs == seq!["in"@] && r@.control_outputs == seq!["pass"@, "fail"@],
        r@.data_inputs == seq!["accepted_result"@] && r@.data_outputs.len() == 0,
{
}

/// A fork leads to every port, and its join waits for every port.
pub proof fn forks_are_joined(
    id: &str,
    forked: &str,
    ports: &Vec<String>,
    apart: Node,
    r: Node,
)
    requires
        call_ensures(fork, (id, ports), apart),
        call_ensures(join_all, (id, forked, ports), r),
    ensures
        apart@.id == id@ && r@.id == id@,
        apart@.kind is Fork && apart@.control_inputs.len() == 0 && apart@.control_outputs == texts(
            ports@,
        ),
        r@.kind == (KindView::Join { fork: forked@ }) && r@.control_inputs == texts(ports@)
            && r@.control_outputs == seq!["out"@],
        apart@.data_inputs.len() == 0 && apart@.data_outputs.len() == 0 && r@.data_inputs.len()
            == 0 && r@.data_outputs.len() == 0,
{
}

/// A child is a workflow of its own between its entrance and its exit.
pub proof fn children_are_workflows(id: &str, after: bool, r: Node)
    requires
        call_ensures(child, (id, after), r),
    ensures
        r@.id == id@ && r@.kind is Subworkflow,
        r@.control_inputs == entered(after) && r@.control_outputs == seq!["out"@],
        r@.data_inputs.len() == 0 && r@.data_outputs.len() == 0,
{
}

/// An edge goes from a port of its source to a port of its target, and carries data or control.
pub proof fn edges_go_from_port_to_port(
    id: &str,
    carries_data: bool,
    source: &str,
    source_port: &str,
    target: &str,
    target_port: &str,
    control: Change,
    carried: Change,
    plain: Change,
    r: Change,
)
    requires
        call_ensures(link, (id, carries_data, source, source_port, target, target_port), r),
        call_ensures(control_edge, (id, source, source_port, target, target_port), control),
        call_ensures(data, (id, source, source_port, target, target_port), carried),
        call_ensures(edge, (id, source, target), plain),
    ensures
        r@ == ChangeView::AddEdge(
            EdgeView {
                id: id@,
                carries_data,
                source: source@,
                source_port: source_port@,
                target: target@,
                target_port: target_port@,
            },
        ),
        control@ == ChangeView::AddEdge(
            EdgeView {
                id: id@,
                carries_data: false,
                source: source@,
                source_port: source_port@,
                target: target@,
                target_port: target_port@,
            },
        ),
        carried@ == ChangeView::AddEdge(
            EdgeView {
                id: id@,
                carries_data: true,
                source: source@,
                source_port: source_port@,
                target: target@,
                target_port: target_port@,
            },
        ),
        plain@ == ChangeView::AddEdge(
            EdgeView {
                id: id@,
                carries_data: false,
                source: source@,
                source_port: "next"@,
                target: target@,
                target_port: "in"@,
            },
        ),
{
}

/// The response of a model is assessed as prose, and leads to one node where it was accepted and to
/// another where it was not.
pub proof fn responses_are_assessed(
    prefix: &str,
    source: &str,
    pass: &str,
    fail: &str,
    r: Vec<Change>,
)
    requires
        call_ensures(path, (prefix, source, pass, fail), r),
    ensures
        ({
            let c = change_views(r@);
            let assessing = prefix@ + "-acceptance"@;
            let gating = prefix@ + "-gate"@;
            &&& c.len() == 7
            &&& c[0] matches ChangeView::AddNode(n) && n.id == assessing && n.kind == (
            KindView::Acceptance { requirement: "model_prose"@, evidence: seq![] })
            &&& c[1] matches ChangeView::AddNode(n) && n.id == gating && n.kind == (KindView::Gate {
                acceptance: assessing,
            })
            &&& c[2] == joining(
                prefix@ + "-response"@,
                true,
                source@,
                "model_response"@,
                assessing,
                "result"@,
            )
            &&& c[3] == joining(prefix@ + "-assessed"@, false, assessing, "out"@, gating, "in"@)
            &&& c[4] == joining(
                prefix@ + "-accepted"@,
                true,
                assessing,
                "accepted_result"@,
                gating,
                "accepted_result"@,
            )
            &&& c[5] == joining(prefix@ + "-pass"@, false, gating, "pass"@, pass@, "in"@)
            &&& c[6] == joining(prefix@ + "-fail"@, false, gating, "fail"@, fail@, "in"@)
        }),
{
}

/// The change that joins two ports by an edge.
pub open spec fn joining(
    id: Seq<char>,
    carries_data: bool,
    source: Seq<char>,
    source_port: Seq<char>,
    target: Seq<char>,
    target_port: Seq<char>,
) -> ChangeView {
    ChangeView::AddEdge(
        EdgeView { id, carries_data, source, source_port, target, target_port },
    )
}

/// Whether a node of a graph has an exit of an edge's kind.
pub open spec fn has_exit(
    changes: Seq<ChangeView>,
    node: Seq<char>,
    port: Seq<char>,
    carries_data: bool,
) -> bool {
    exists|i: int|
        #![trigger changes[i]]
        0 <= i < changes.len() && (changes[i] matches ChangeView::AddNode(n) && n.id == node && (
        if carries_data {
            n.data_outputs
        } else {
            n.control_outputs
        }).contains(port))
}

/// Whether a node of a graph has an entrance of an edge's kind.
pub open spec fn has_entrance(
    changes: Seq<ChangeView>,
    node: Seq<char>,
    port: Seq<char>,
    carries_data: bool,
) -> bool {
    exists|i: int|
        #![trigger changes[i]]
        0 <= i < changes.len() && (changes[i] matches ChangeView::AddNode(n) && n.id == node && (
        if carries_data {
            n.data_inputs
        } else {
            n.control_inputs
        }).contains(port))
}

proof fn lemma_offers(
    changes: Seq<ChangeView>,
    node: Seq<char>,
    port: Seq<char>,
    carries_data: bool,
)
    ensures
        crate::blueprint::offers(changes, node, port, true, carries_data) == has_exit(
            changes,
            node,
            port,
            carries_data,
        ),
        crate::blueprint::offers(changes, node, port, false, carries_data) == has_entrance(
            changes,
            node,
            port,
            carries_data,
        ),
{
    assert forall|i: int| #![trigger changes[i]] 0 <= i < changes.len() implies (
    crate::blueprint::offered(changes[i], node, port, true, carries_data) <==> (
    changes[i] matches ChangeView::AddNode(n) && n.id == node && if carries_data {
        n.data_outputs.contains(port)
    } else {
        n.control_outputs.contains(port)
    })) by {}
    assert forall|i: int| #![trigger changes[i]] 0 <= i < changes.len() implies (
    crate::blueprint::offered(changes[i], node, port, false, carries_data) <==> (
    changes[i] matches ChangeView::AddNode(n) && n.id == node && if carries_data {
        n.data_inputs.contains(port)
    } else {
        n.control_inputs.contains(port)
    })) by {}
}

/// A graph is closed only where it adds nodes and edges alone, every edge leaves by an exit and
/// enters by an entrance that the graph has, and no two nodes and no two edges share a name.
pub proof fn closed_graphs_join_their_ports(changes: &Vec<Change>, i: int, j: int, r: bool)
    requires
        call_ensures(is_closed, (changes,), r),
        0 <= i < changes@.len(),
        0 <= j < changes@.len(),
        i != j,
    ensures
        ({
            let c = change_views(changes@);
            r ==> {
                &&& c[i] is AddNode || c[i] is AddEdge
                &&& c[i] matches ChangeView::AddEdge(e) ==> has_exit(
                    c,
                    e.source,
                    e.source_port,
                    e.carries_data,
                ) && has_entrance(c, e.target, e.target_port, e.carries_data)
                &&& c[i] matches ChangeView::AddNode(m) ==> (c[j] matches ChangeView::AddNode(n)
                    ==> m.id != n.id)
                &&& c[i] matches ChangeView::AddEdge(m) ==> (c[j] matches ChangeView::AddEdge(n)
                    ==> m.id != n.id)
            }
        }),
{
    let c = change_views(changes@);
    assert(c.len() == changes@.len());
    if r {
        assert(crate::blueprint::supported(c, c[i]));
        if c[i] is AddEdge {
            let e = c[i]->AddEdge_0;
            lemma_offers(c, e.source, e.source_port, e.carries_data);
            lemma_offers(c, e.target, e.target_port, e.carries_data);
        }
        if i < j {
            assert(!crate::blueprint::clash(c[i], c[j]));
        } else {
            assert(!crate::blueprint::clash(c[j], c[i]));
        }
    }
}

/// A graph of nodes and edges whose edges join ports that it has, all under names of their own, is
/// closed.
pub proof fn joined_graphs_are_closed(changes: &Vec<Change>, r: bool)
    requires
        call_ensures(is_closed, (changes,), r),
        ({
            let c = change_views(changes@);
            &&& forall|i: int|
                0 <= i < c.len() ==> (#[trigger] c[i] is AddNode || (c[i] matches ChangeView::AddEdge(
                    e,
                ) && has_exit(c, e.source, e.source_port, e.carries_data) && has_entrance(
                    c,
                    e.target,
                    e.target_port,
                    e.carries_data,
                )))
            &&& forall|i: int, j: int|
                #![trigger c[i], c[j]]
                0 <= i < j < c.len() ==> (c[i] matches ChangeView::AddNode(m) ==> (
                c[j] matches ChangeView::AddNode(n) ==> m.id != n.id)) && (
                c[i] matches ChangeView::AddEdge(m) ==> (c[j] matches ChangeView::AddEdge(n) ==> m.id
                    != n.id))
        }),
    ensures
        r,
{
    let c = change_views(changes@);
    assert forall|i: int| 0 <= i < c.len() implies crate::blueprint::supported(
        c,
        #[trigger] c[i],
    ) by {
        if c[i] is AddEdge {
            let e = c[i]->AddEdge_0;
            lemma_offers(c, e.source, e.source_port, e.carries_data);
            lemma_offers(c, e.target, e.target_port, e.carries_data);
        }
    }
    assert forall|i: int, j: int| 0 <= i < j < c.len() implies !crate::blueprint::clash(
        #[trigger] c[i],
        #[trigger] c[j],
    ) by {}
}

/// The limits of a wrapped run and of a remote one.
pub proof fn runs_are_limited(processes: u64, wrapped: Vec<u64>, remote: Vec<u64>)
    requires
        call_ensures(wrapper_limits, (processes,), wrapped),
        call_ensures(remote_limits, (), remote),
    ensures
        wrapped@ =~= seq![
            8u64,
            8,
            16,
            8,
            300000,
            1000000,
            32768,
            32768,
            32000000,
            processes,
            8,
            2,
            4,
            2,
            2,
        ],
        remote@ =~= seq![4u64, 4, 4, 4, 900000, 0, 1000000, 32768, 64000000, 2, 2, 2, 2, 2, 2],
{
}

/// A line of a plan adds an edge between two ports, takes one away, or opens a node again.
pub proof fn plan_lines_join_ports(w: Seq<Seq<char>>)
    ensures
        w.len() == 6 && w[0] == "control"@ ==> change_of(w) == Some(
            joining(w[1], false, w[2], w[3], w[4], w[5]),
        ),
        w.len() == 6 && w[0] == "data"@ ==> change_of(w) == Some(
            joining(w[1], true, w[2], w[3], w[4], w[5]),
        ),
        w.len() == 2 && w[0] == "unlink"@ ==> change_of(w) == Some(ChangeView::RemoveEdge(w[1])),
        w.len() == 2 && w[0] == "reopen"@ ==> change_of(w) == Some(ChangeView::Reopen(w[1])),
        w.len() > 0 && w[0] == "replace"@ ==> match node_of(w.skip(1)) {
            Some(n) => change_of(w) == Some(ChangeView::ReplaceNode(n)),
            None => change_of(w) is None,
        },
{
    reveal_strlit("control");
    reveal_strlit("data");
    reveal_strlit("unlink");
    reveal_strlit("reopen");
    reveal_strlit("replace");
    assert("control"@.len() == 7 && "data"@.len() == 4 && "unlink"@.len() == 6 && "reopen"@.len()
        == 6 && "replace"@.len() == 7);
    assert("control"@[0] == 'c' && "replace"@[0] == 'r' && "unlink"@[0] == 'u' && "reopen"@[0]
        == 'r');
}

} // verus!
