//! Plans of workflow blueprints: the nodes and edges that a scenario asks for.
//!
//! A plan is written one change per line:
//!   `process ID CAPABILITY PLACE [NAME]`  a read-only process, with a data input `NAME`
//!   `plain ID CAPABILITY PLACE`           a process without a stated side effect
//!   `writer ID CAPABILITY PLACE`          a process whose writes are not idempotent
//!   `evidence ID CAPABILITY PLACE`        a process whose output is evidence for later context
//!   `model ID CAPABILITY PROFILE MODE CONTEXT PLACE`  a generation, `stream` or `whole`, that
//!                                         selects evidence (`select`) or none (`free`)
//!   `remote ID CAPABILITY OPERATION INPUT OUTPUT PLACE`  an operation of another host
//!   `proposer ID CAPABILITY PLACE`        a workflow proposal
//!   `wait ID SIGNAL PLACE`                a wait for a signal
//!   `terminal ID OUTCOME PLACE`           an end, in `success` or `failure`
//!   `assess ID REQUIREMENT [NAME]`        an acceptance of a result, with evidence `NAME`
//!   `gate ID ACCEPTANCE`                  the branch on an acceptance
//!   `fork ID PORT PORT ..`, `join ID FORK PORT PORT ..`, `child ID PLACE`
//!   `reopen ID`                           an existing node becomes a successor
//!   `replace CHANGE`                      an existing node is replaced
//!   `unlink ID`                           an existing edge is removed
//!   `control ID NODE PORT NODE PORT`, `data ID NODE PORT NODE PORT`
//! A place is `first` or `after`: whether the node follows another.

use vstd::prelude::*;

use crate::failure::{failure, Checked};
use crate::json::{Json, Tree};
use crate::scenario::{resolve, resolved_words};
use crate::text::{copy_texts, joined, lines, lines_of, same_text, split, split_at_char, texts, trim,
    trimmed};

verus! {

/// How much a task may change outside.
#[derive(Clone, Copy, Debug, PartialEq, Eq, Structural)]
pub enum SideEffect {
    Unstated,
    ReadOnly,
    IdempotentWrite,
    NonIdempotentWrite,
    Unknown,
}

/// What a task sees of earlier work.
#[derive(Clone, Copy, Debug, PartialEq, Eq, Structural)]
pub enum Context {
    /// Its direct inputs.
    Direct,
    /// The default policy, with its own output marked as evidence.
    Evidence,
    /// The selected evidence node and nothing else.
    Selected,
    /// A fresh session without selected evidence.
    Fresh,
}

#[derive(Debug)]
pub enum NodeKind {
    Task {
        operation: String,
        capability: String,
        profile: String,
        side_effect: SideEffect,
        streaming: bool,
        context: Context,
    },
    SignalWait { signal: String },
    Terminal { success: bool },
    Acceptance { requirement: String, evidence: Vec<String> },
    Gate { acceptance: String },
    Fork,
    Join { fork: String },
    Subworkflow,
}

/// A node with its control and data ports.
#[derive(Debug)]
pub struct Node {
    pub id: String,
    pub kind: NodeKind,
    pub control_inputs: Vec<String>,
    pub control_outputs: Vec<String>,
    pub data_inputs: Vec<String>,
    pub data_outputs: Vec<String>,
}

#[derive(Debug)]
pub struct Edge {
    pub id: String,
    /// Whether the edge carries data; otherwise it carries control.
    pub carries_data: bool,
    pub source: String,
    pub source_port: String,
    pub target: String,
    pub target_port: String,
}

#[derive(Debug)]
pub enum Change {
    AddNode(Node),
    ReplaceNode(Node),
    Reopen(String),
    AddEdge(Edge),
    RemoveEdge(String),
}

pub enum KindView {
    Task {
        operation: Seq<char>,
        capability: Seq<char>,
        profile: Seq<char>,
        side_effect: SideEffect,
        streaming: bool,
        context: Context,
    },
    SignalWait { signal: Seq<char> },
    Terminal { success: bool },
    Acceptance { requirement: Seq<char>, evidence: Seq<Seq<char>> },
    Gate { acceptance: Seq<char> },
    Fork,
    Join { fork: Seq<char> },
    Subworkflow,
}

pub struct NodeView {
    pub id: Seq<char>,
    pub kind: KindView,
    pub control_inputs: Seq<Seq<char>>,
    pub control_outputs: Seq<Seq<char>>,
    pub data_inputs: Seq<Seq<char>>,
    pub data_outputs: Seq<Seq<char>>,
}

pub struct EdgeView {
    pub id: Seq<char>,
    pub carries_data: bool,
    pub source: Seq<char>,
    pub source_port: Seq<char>,
    pub target: Seq<char>,
    pub target_port: Seq<char>,
}

pub enum ChangeView {
    AddNode(NodeView),
    ReplaceNode(NodeView),
    Reopen(Seq<char>),
    AddEdge(EdgeView),
    RemoveEdge(Seq<char>),
}

impl View for NodeKind {
    type V = KindView;

    open spec fn view(&self) -> KindView {
        match *self {
            NodeKind::Task { operation, capability, profile, side_effect, streaming, context } =>
            KindView::Task {
                operation: operation@,
                capability: capability@,
                profile: profile@,
                side_effect,
                streaming,
                context,
            },
            NodeKind::SignalWait { signal } => KindView::SignalWait { signal: signal@ },
            NodeKind::Terminal { success } => KindView::Terminal { success },
            NodeKind::Acceptance { requirement, evidence } => KindView::Acceptance {
                requirement: requirement@,
                evidence: texts(evidence@),
            },
            NodeKind::Gate { acceptance } => KindView::Gate { acceptance: acceptance@ },
            NodeKind::Fork => KindView::Fork,
            NodeKind::Join { fork } => KindView::Join { fork: fork@ },
            NodeKind::Subworkflow => KindView::Subworkflow,
        }
    }
}

impl View for Node {
    type V = NodeView;

    open spec fn view(&self) -> NodeView {
        NodeView {
            id: self.id@,
            kind: self.kind@,
            control_inputs: texts(self.control_inputs@),
            control_outputs: texts(self.control_outputs@),
            data_inputs: texts(self.data_inputs@),
            data_outputs: texts(self.data_outputs@),
        }
    }
}

impl View for Edge {
    type V = EdgeView;

    open spec fn view(&self) -> EdgeView {
        EdgeView {
            id: self.id@,
            carries_data: self.carries_data,
            source: self.source@,
            source_port: self.source_port@,
            target: self.target@,
            target_port: self.target_port@,
        }
    }
}

impl View for Change {
    type V = ChangeView;

    open spec fn view(&self) -> ChangeView {
        match *self {
            Change::AddNode(n) => ChangeView::AddNode(n@),
            Change::ReplaceNode(n) => ChangeView::ReplaceNode(n@),
            Change::Reopen(id) => ChangeView::Reopen(id@),
            Change::AddEdge(e) => ChangeView::AddEdge(e@),
            Change::RemoveEdge(id) => ChangeView::RemoveEdge(id@),
        }
    }
}

/// The identity and version of the schema of a process's standard output.
pub fn schema() -> (r: (&'static str, u32))
    ensures
        r.0@ == "evidence.stdout"@,
        r.1 == 1,
{
    ("evidence.stdout", 1)
}

fn one(name: &str) -> (r: Vec<String>)
    ensures
        texts(r@) == seq![name@],
{
    let v: Vec<String> = vec![name.to_owned()];
    proof {
        assert(texts(v@) =~= seq![name@]);
    }
    v
}

fn two(a: &str, b: &str) -> (r: Vec<String>)
    ensures
        texts(r@) == seq![a@, b@],
{
    let v: Vec<String> = vec![a.to_owned(), b.to_owned()];
    proof {
        assert(texts(v@) =~= seq![a@, b@]);
    }
    v
}

fn three(a: &str, b: &str, c: &str) -> (r: Vec<String>)
    ensures
        texts(r@) == seq![a@, b@, c@],
{
    let v: Vec<String> = vec![a.to_owned(), b.to_owned(), c.to_owned()];
    proof {
        assert(texts(v@) =~= seq![a@, b@, c@]);
    }
    v
}

fn nothing() -> (r: Vec<String>)
    ensures
        texts(r@) == Seq::<Seq<char>>::empty(),
{
    let v: Vec<String> = Vec::new();
    proof {
        assert(texts(v@) =~= Seq::<Seq<char>>::empty());
    }
    v
}

/// The control inputs of a node that follows another, or of one that does not.
pub open spec fn entrance(after: bool) -> Seq<Seq<char>> {
    if after {
        seq!["in"@]
    } else {
        seq![]
    }
}

fn entry(after: bool) -> (r: Vec<String>)
    ensures
        texts(r@) == entrance(after),
{
    if after {
        one("in")
    } else {
        nothing()
    }
}

pub open spec fn process_node(
    id: Seq<char>,
    capability: Seq<char>,
    side_effect: SideEffect,
    after: bool,
    inputs: Seq<Seq<char>>,
) -> NodeView {
    NodeView {
        id,
        kind: KindView::Task {
            operation: "process.execute"@,
            capability,
            profile: ""@,
            side_effect,
            streaming: false,
            context: Context::Direct,
        },
        control_inputs: entrance(after),
        control_outputs: seq!["next"@],
        data_inputs: inputs,
        data_outputs: seq!["stdout"@],
    }
}

/// A read-only process; a verifier takes the work that it judges.
pub fn process(id: &str, capability: &str, predecessor: bool, verifier: bool) -> (r: Node)
    ensures
        r@ == process_node(
            id@,
            capability@,
            SideEffect::ReadOnly,
            predecessor,
            if verifier {
                seq!["work"@]
            } else {
                seq![]
            },
        ),
{
    let inputs: Vec<String> = if verifier {
        one("work")
    } else {
        nothing()
    };
    task_process(id, capability, SideEffect::ReadOnly, predecessor, inputs)
}

fn task_process(
    id: &str,
    capability: &str,
    side_effect: SideEffect,
    after: bool,
    inputs: Vec<String>,
) -> (r: Node)
    ensures
        r@ == process_node(id@, capability@, side_effect, after, texts(inputs@)),
{
    Node {
        id: id.to_owned(),
        kind: NodeKind::Task {
            operation: "process.execute".to_owned(),
            capability: capability.to_owned(),
            profile: "".to_owned(),
            side_effect,
            streaming: false,
            context: Context::Direct,
        },
        control_inputs: entry(after),
        control_outputs: one("next"),
        data_inputs: inputs,
        data_outputs: one("stdout"),
    }
}

pub open spec fn evidence_plan(id: Seq<char>, capability: Seq<char>, after: bool) -> NodeView {
    NodeView {
        id,
        kind: KindView::Task {
            operation: "process.execute"@,
            capability,
            profile: ""@,
            side_effect: SideEffect::ReadOnly,
            streaming: false,
            context: Context::Evidence,
        },
        control_inputs: entrance(after),
        control_outputs: seq!["next"@],
        data_inputs: seq![],
        data_outputs: seq!["evidence"@],
    }
}

/// A process whose output later steps may select as evidence.
pub fn evidence_node(id: &str, capability: &str, after: bool) -> (r: Node)
    ensures
        r@ == evidence_plan(id@, capability@, after),
{
    Node {
        id: id.to_owned(),
        kind: NodeKind::Task {
            operation: "process.execute".to_owned(),
            capability: capability.to_owned(),
            profile: "".to_owned(),
            side_effect: SideEffect::ReadOnly,
            streaming: false,
            context: Context::Evidence,
        },
        control_inputs: entry(after),
        control_outputs: one("next"),
        data_inputs: nothing(),
        data_outputs: one("evidence"),
    }
}

pub open spec fn model_plan(
    id: Seq<char>,
    capability: Seq<char>,
    profile: Seq<char>,
    streaming: bool,
    selects: bool,
    after: bool,
) -> NodeView {
    NodeView {
        id,
        kind: KindView::Task {
            operation: "model.generate"@,
            capability,
            profile,
            side_effect: SideEffect::Unknown,
            streaming,
            context: if selects {
                Context::Selected
            } else {
                Context::Fresh
            },
        },
        control_inputs: entrance(after),
        control_outputs: seq!["next"@],
        data_inputs: seq!["milkdrift.model_task"@],
        data_outputs: seq!["model_response"@, "final_text"@, "provider_metadata"@],
    }
}

/// A generation by an exact model capability and profile.
pub fn model_node(
    id: &str,
    capability: &str,
    profile: &str,
    streaming: bool,
    selects: bool,
    after: bool,
) -> (r: Node)
    ensures
        r@ == model_plan(id@, capability@, profile@, streaming, selects, after),
{
    Node {
        id: id.to_owned(),
        kind: NodeKind::Task {
            operation: "model.generate".to_owned(),
            capability: capability.to_owned(),
            profile: profile.to_owned(),
            side_effect: SideEffect::Unknown,
            streaming,
            context: if selects {
                Context::Selected
            } else {
                Context::Fresh
            },
        },
        control_inputs: entry(after),
        control_outputs: one("next"),
        data_inputs: one("milkdrift.model_task"),
        data_outputs: three("model_response", "final_text", "provider_metadata"),
    }
}

/// The data outputs of an operation of another host: a generation also keeps its response and
/// its provider's metadata.
pub open spec fn remote_outputs(operation: Seq<char>, output: Seq<char>) -> Seq<Seq<char>> {
    if operation == "model.generate"@ {
        seq![output, "model_response"@, "provider_metadata"@]
    } else {
        seq![output]
    }
}

pub open spec fn remote_plan(
    id: Seq<char>,
    capability: Seq<char>,
    operation: Seq<char>,
    input: Seq<char>,
    output: Seq<char>,
    after: bool,
) -> NodeView {
    NodeView {
        id,
        kind: KindView::Task {
            operation,
            capability,
            profile: ""@,
            side_effect: SideEffect::Unknown,
            streaming: false,
            context: Context::Direct,
        },
        control_inputs: entrance(after),
        control_outputs: seq!["next"@],
        data_inputs: seq![input],
        data_outputs: remote_outputs(operation, output),
    }
}

/// An operation of another host on one uploaded input.
pub fn remote_node(
    id: &str,
    capability: &str,
    operation: &str,
    input: &str,
    output: &str,
    after: bool,
) -> (r: Node)
    ensures
        r@ == remote_plan(id@, capability@, operation@, input@, output@, after),
{
    let outputs: Vec<String> = if same_text(operation, "model.generate") {
        three(output, "model_response", "provider_metadata")
    } else {
        one(output)
    };
    Node {
        id: id.to_owned(),
        kind: NodeKind::Task {
            operation: operation.to_owned(),
            capability: capability.to_owned(),
            profile: "".to_owned(),
            side_effect: SideEffect::Unknown,
            streaming: false,
            context: Context::Direct,
        },
        control_inputs: entry(after),
        control_outputs: one("next"),
        data_inputs: one(input),
        data_outputs: outputs,
    }
}

pub open spec fn proposer_plan(id: Seq<char>, capability: Seq<char>, after: bool) -> NodeView {
    NodeView {
        id,
        kind: KindView::Task {
            operation: "workflow.propose"@,
            capability,
            profile: ""@,
            side_effect: SideEffect::IdempotentWrite,
            streaming: false,
            context: Context::Direct,
        },
        control_inputs: entrance(after),
        control_outputs: seq!["next"@],
        data_inputs: seq!["milkdrift.control_request"@],
        data_outputs: seq!["control_result"@],
    }
}

/// A step that submits a workflow proposal through the control capability.
pub fn proposer(id: &str, capability: &str, after: bool) -> (r: Node)
    ensures
        r@ == proposer_plan(id@, capability@, after),
{
    Node {
        id: id.to_owned(),
        kind: NodeKind::Task {
            operation: "workflow.propose".to_owned(),
            capability: capability.to_owned(),
            profile: "".to_owned(),
            side_effect: SideEffect::IdempotentWrite,
            streaming: false,
            context: Context::Direct,
        },
        control_inputs: entry(after),
        control_outputs: one("next"),
        data_inputs: one("milkdrift.control_request"),
        data_outputs: one("control_result"),
    }
}

pub open spec fn wait_plan(id: Seq<char>, signal: Seq<char>, after: bool) -> NodeView {
    NodeView {
        id,
        kind: KindView::SignalWait { signal },
        control_inputs: entrance(after),
        control_outputs: seq!["next"@],
        data_inputs: seq![],
        data_outputs: seq![],
    }
}

/// A wait for a signal.
pub fn signal_wait(id: &str, signal: &str, after: bool) -> (r: Node)
    ensures
        r@ == wait_plan(id@, signal@, after),
{
    Node {
        id: id.to_owned(),
        kind: NodeKind::SignalWait { signal: signal.to_owned() },
        control_inputs: entry(after),
        control_outputs: one("next"),
        data_inputs: nothing(),
        data_outputs: nothing(),
    }
}

/// A wait for the controller signal named after the node.
pub fn wait(id: &str, input: bool) -> (r: Node)
    ensures
        r@ == wait_plan(id@, "controller."@ + id@, input),
{
    signal_wait(id, joined("controller.", id).as_str(), input)
}

pub open spec fn terminal_plan(id: Seq<char>, success: bool, after: bool) -> NodeView {
    NodeView {
        id,
        kind: KindView::Terminal { success },
        control_inputs: entrance(after),
        control_outputs: seq![],
        data_inputs: seq![],
        data_outputs: seq![],
    }
}

pub fn terminal_node(id: &str, success: bool, input: bool) -> (r: Node)
    ensures
        r@ == terminal_plan(id@, success, input),
{
    Node {
        id: id.to_owned(),
        kind: NodeKind::Terminal { success },
        control_inputs: entry(input),
        control_outputs: nothing(),
        data_inputs: nothing(),
        data_outputs: nothing(),
    }
}

/// The addition of an end that follows another node.
pub fn terminal(id: &str, success: bool) -> (r: Change)
    ensures
        r@ == ChangeView::AddNode(terminal_plan(id@, success, true)),
{
    Change::AddNode(terminal_node(id, success, true))
}

pub open spec fn acceptance_plan(
    id: Seq<char>,
    requirement: Seq<char>,
    evidence: Seq<Seq<char>>,
) -> NodeView {
    NodeView {
        id,
        kind: KindView::Acceptance { requirement, evidence },
        control_inputs: seq!["in"@],
        control_outputs: seq!["out"@],
        data_inputs: seq!["result"@] + evidence,
        data_outputs: seq!["accepted_result"@],
    }
}

/// The acceptance of a result against a requirement, with named evidence.
pub fn acceptance(id: &str, requirement: &str, evidence: &Vec<String>) -> (r: Node)
    ensures
        r@ == acceptance_plan(id@, requirement@, texts(evidence@)),
{
    let mut inputs: Vec<String> = one("result");
    let mut i: usize = 0;
    proof {
        assert(seq!["result"@] + texts(evidence@).take(0) =~= seq!["result"@]);
    }
    while i < evidence.len()
        invariant
            i <= evidence.len(),
            texts(inputs@) == seq!["result"@] + texts(evidence@).take(i as int),
        decreases evidence.len() - i,
    {
        let name: String = evidence[i].as_str().to_owned();
        proof {
            crate::text::lemma_texts_push(inputs@, name);
            assert(seq!["result"@] + texts(evidence@).take(i + 1) =~= (seq!["result"@] + texts(
                evidence@,
            ).take(i as int)).push(name@));
        }
        inputs.push(name);
        i = i + 1;
    }
    proof {
        assert(texts(evidence@).take(i as int) =~= texts(evidence@));
    }
    Node {
        id: id.to_owned(),
        kind: NodeKind::Acceptance {
            requirement: requirement.to_owned(),
            evidence: copy_texts(evidence),
        },
        control_inputs: one("in"),
        control_outputs: one("out"),
        data_inputs: inputs,
        data_outputs: one("accepted_result"),
    }
}

pub open spec fn gate_plan(id: Seq<char>, acceptance: Seq<char>) -> NodeView {
    NodeView {
        id,
        kind: KindView::Gate { acceptance },
        control_inputs: seq!["in"@],
        control_outputs: seq!["pass"@, "fail"@],
        data_inputs: seq!["accepted_result"@],
        data_outputs: seq![],
    }
}

/// The branch on an acceptance.
pub fn gate(id: &str, acceptance: &str) -> (r: Node)
    ensures
        r@ == gate_plan(id@, acceptance@),
{
    Node {
        id: id.to_owned(),
        kind: NodeKind::Gate { acceptance: acceptance.to_owned() },
        control_inputs: one("in"),
        control_outputs: two("pass", "fail"),
        data_inputs: one("accepted_result"),
        data_outputs: nothing(),
    }
}

pub open spec fn fork_plan(id: Seq<char>, ports: Seq<Seq<char>>) -> NodeView {
    NodeView {
        id,
        kind: KindView::Fork,
        control_inputs: seq![],
        control_outputs: ports,
        data_inputs: seq![],
        data_outputs: seq![],
    }
}

pub fn fork(id: &str, ports: &Vec<String>) -> (r: Node)
    ensures
        r@ == fork_plan(id@, texts(ports@)),
{
    Node {
        id: id.to_owned(),
        kind: NodeKind::Fork,
        control_inputs: nothing(),
        control_outputs: copy_texts(ports),
        data_inputs: nothing(),
        data_outputs: nothing(),
    }
}

pub open spec fn join_plan(id: Seq<char>, fork: Seq<char>, ports: Seq<Seq<char>>) -> NodeView {
    NodeView {
        id,
        kind: KindView::Join { fork },
        control_inputs: ports,
        control_outputs: seq!["out"@],
        data_inputs: seq![],
        data_outputs: seq![],
    }
}

/// The wait for every branch of a fork.
pub fn join_all(id: &str, fork: &str, ports: &Vec<String>) -> (r: Node)
    ensures
        r@ == join_plan(id@, fork@, texts(ports@)),
{
    Node {
        id: id.to_owned(),
        kind: NodeKind::Join { fork: fork.to_owned() },
        control_inputs: copy_texts(ports),
        control_outputs: one("out"),
        data_inputs: nothing(),
        data_outputs: nothing(),
    }
}

pub open spec fn child_plan(id: Seq<char>, after: bool) -> NodeView {
    NodeView {
        id,
        kind: KindView::Subworkflow,
        control_inputs: entrance(after),
        control_outputs: seq!["out"@],
        data_inputs: seq![],
        data_outputs: seq![],
    }
}

/// A run of the pinned body.
pub fn child(id: &str, after: bool) -> (r: Node)
    ensures
        r@ == child_plan(id@, after),
{
    Node {
        id: id.to_owned(),
        kind: NodeKind::Subworkflow,
        control_inputs: entry(after),
        control_outputs: one("out"),
        data_inputs: nothing(),
        data_outputs: nothing(),
    }
}

/// The addition of an edge.
pub fn link(
    id: &str,
    carries_data: bool,
    source: &str,
    source_port: &str,
    target: &str,
    target_port: &str,
) -> (r: Change)
    ensures
        r@ == ChangeView::AddEdge(
            EdgeView {
                id: id@,
                carries_data,
                source: source@,
                source_port: source_port@,
                target: target@,
                target_port: target_port@,
            },
        ),
{
    Change::AddEdge(
        Edge {
            id: id.to_owned(),
            carries_data,
            source: source.to_owned(),
            source_port: source_port.to_owned(),
            target: target.to_owned(),
            target_port: target_port.to_owned(),
        },
    )
}

pub fn control_edge(
    id: &str,
    source: &str,
    source_port: &str,
    target: &str,
    target_port: &str,
) -> (r: Change)
    ensures
        r@ == ChangeView::AddEdge(
            EdgeView {
                id: id@,
                carries_data: false,
                source: source@,
                source_port: source_port@,
                target: target@,
                target_port: target_port@,
            },
        ),
{
    link(id, false, source, source_port, target, target_port)
}

pub fn data(id: &str, from: &str, output: &str, to: &str, input: &str) -> (r: Change)
    ensures
        r@ == ChangeView::AddEdge(
            EdgeView {
                id: id@,
                carries_data: true,
                source: from@,
                source_port: output@,
                target: to@,
                target_port: input@,
            },
        ),
{
    link(id, true, from, output, to, input)
}

/// The control edge from a step's `next` to the following step.
pub fn edge(id: &str, source: &str, target: &str) -> (r: Change)
    ensures
        r@ == ChangeView::AddEdge(
            EdgeView {
                id: id@,
                carries_data: false,
                source: source@,
                source_port: "next"@,
                target: target@,
                target_port: "in"@,
            },
        ),
{
    link(id, false, source, "next", target, "in")
}

/// The changes that assess a result and branch on it.
pub open spec fn acceptance_path(
    prefix: Seq<char>,
    source: Seq<char>,
    pass: Seq<char>,
    fail: Seq<char>,
) -> Seq<ChangeView> {
    let acceptance = prefix + "-acceptance"@;
    let gate = prefix + "-gate"@;
    seq![
        ChangeView::AddNode(acceptance_plan(acceptance, "model_prose"@, seq![])),
        ChangeView::AddNode(gate_plan(gate, acceptance)),
        linked(prefix + "-response"@, true, source, "model_response"@, acceptance, "result"@),
        linked(prefix + "-assessed"@, false, acceptance, "out"@, gate, "in"@),
        linked(
            prefix + "-accepted"@,
            true,
            acceptance,
            "accepted_result"@,
            gate,
            "accepted_result"@,
        ),
        linked(prefix + "-pass"@, false, gate, "pass"@, pass, "in"@),
        linked(prefix + "-fail"@, false, gate, "fail"@, fail, "in"@),
    ]
}

pub open spec fn linked(
    id: Seq<char>,
    carries_data: bool,
    source: Seq<char>,
    source_port: Seq<char>,
    target: Seq<char>,
    target_port: Seq<char>,
) -> ChangeView {
    ChangeView::AddEdge(
        EdgeView { id, carries_data, source, source_port, target, target_port },
    )
}

pub open spec fn change_views(v: Seq<Change>) -> Seq<ChangeView> {
    v.map_values(|c: Change| c@)
}

/// The acceptance of a model's answer, its gate and the edges that connect them.
pub fn path(prefix: &str, source: &str, pass: &str, fail: &str) -> (r: Vec<Change>)
    ensures
        change_views(r@) == acceptance_path(prefix@, source@, pass@, fail@),
{
    let assess: String = joined(prefix, "-acceptance");
    let branch: String = joined(prefix, "-gate");
    let a: &str = assess.as_str();
    let g: &str = branch.as_str();
    let r: Vec<Change> = vec![
        Change::AddNode(acceptance(a, "model_prose", &nothing())),
        Change::AddNode(gate(g, a)),
        link(joined(prefix, "-response").as_str(), true, source, "model_response", a, "result"),
        link(joined(prefix, "-assessed").as_str(), false, a, "out", g, "in"),
        link(joined(prefix, "-accepted").as_str(), true, a, "accepted_result", g, "accepted_result"),
        link(joined(prefix, "-pass").as_str(), false, g, "pass", pass, "in"),
        link(joined(prefix, "-fail").as_str(), false, g, "fail", fail, "in"),
    ];
    proof {
        assert(change_views(r@) =~= acceptance_path(prefix@, source@, pass@, fail@));
    }
    r
}

/// Where a node stands: whether it follows another.
pub open spec fn place(word: Seq<char>) -> Option<bool> {
    if word == "first"@ {
        Some(false)
    } else if word == "after"@ {
        Some(true)
    } else {
        None
    }
}

fn read_place(word: &str) -> (r: Option<bool>)
    ensures
        r == place(word@),
{
    if same_text(word, "first") {
        Some(false)
    } else if same_text(word, "after") {
        Some(true)
    } else {
        None
    }
}

/// One of two words, as a flag.
pub open spec fn choice(word: Seq<char>, yes: Seq<char>, no: Seq<char>) -> Option<bool> {
    if word == yes {
        Some(true)
    } else if word == no {
        Some(false)
    } else {
        None
    }
}

fn read_choice(word: &str, yes: &str, no: &str) -> (r: Option<bool>)
    ensures
        r == choice(word@, yes@, no@),
{
    if same_text(word, yes) {
        Some(true)
    } else if same_text(word, no) {
        Some(false)
    } else {
        None
    }
}

/// The node that a line of a plan denotes.
pub open spec fn node_of(w: Seq<Seq<char>>) -> Option<NodeView> {
    if w.len() < 3 {
        None
    } else {
        let op = w[0];
        let id = w[1];
        if op == "process"@ && (w.len() == 4 || w.len() == 5) {
            match place(w[3]) {
                Some(after) => Some(
                    process_node(id, w[2], SideEffect::ReadOnly, after, w.skip(4)),
                ),
                None => None,
            }
        } else if op == "plain"@ && w.len() == 4 {
            match place(w[3]) {
                Some(after) => Some(
                    process_node(id, w[2], SideEffect::Unstated, after, seq![]),
                ),
                None => None,
            }
        } else if op == "writer"@ && w.len() == 4 {
            match place(w[3]) {
                Some(after) => Some(
                    process_node(id, w[2], SideEffect::NonIdempotentWrite, after, seq![]),
                ),
                None => None,
            }
        } else if op == "evidence"@ && w.len() == 4 {
            match place(w[3]) {
                Some(after) => Some(evidence_plan(id, w[2], after)),
                None => None,
            }
        } else if op == "model"@ && w.len() == 7 {
            match (choice(w[4], "stream"@, "whole"@), choice(w[5], "select"@, "free"@), place(
                w[6],
            )) {
                (Some(streaming), Some(selects), Some(after)) => Some(
                    model_plan(id, w[2], w[3], streaming, selects, after),
                ),
                _ => None,
            }
        } else if op == "remote"@ && w.len() == 7 {
            match place(w[6]) {
                Some(after) => Some(remote_plan(id, w[2], w[3], w[4], w[5], after)),
                None => None,
            }
        } else if op == "proposer"@ && w.len() == 4 {
            match place(w[3]) {
                Some(after) => Some(proposer_plan(id, w[2], after)),
                None => None,
            }
        } else if op == "wait"@ && w.len() == 4 {
            match place(w[3]) {
                Some(after) => Some(wait_plan(id, w[2], after)),
                None => None,
            }
        } else if op == "terminal"@ && w.len() == 4 {
            match (choice(w[2], "success"@, "failure"@), place(w[3])) {
                (Some(success), Some(after)) => Some(terminal_plan(id, success, after)),
                _ => None,
            }
        } else if op == "assess"@ {
            Some(acceptance_plan(id, w[2], w.skip(3)))
        } else if op == "gate"@ && w.len() == 3 {
            Some(gate_plan(id, w[2]))
        } else if op == "fork"@ {
            Some(fork_plan(id, w.skip(2)))
        } else if op == "join"@ {
            Some(join_plan(id, w[2], w.skip(3)))
        } else if op == "child"@ && w.len() == 3 {
            match place(w[2]) {
                Some(after) => Some(child_plan(id, after)),
                None => None,
            }
        } else {
            None
        }
    }
}

fn from_word(w: &Vec<String>, from: usize) -> (r: Vec<String>)
    requires
        from <= w.len(),
    ensures
        texts(r@) == texts(w@).skip(from as int),
{
    let mut out: Vec<String> = Vec::new();
    let mut i: usize = from;
    proof {
        assert(texts(out@) =~= texts(w@).subrange(from as int, from as int));
    }
    while i < w.len()
        invariant
            from <= i <= w.len(),
            texts(out@) == texts(w@).subrange(from as int, i as int),
        decreases w.len() - i,
    {
        let t: String = w[i].as_str().to_owned();
        proof {
            crate::text::lemma_texts_push(out@, t);
            assert(texts(w@).subrange(from as int, i + 1) =~= texts(w@).subrange(
                from as int,
                i as int,
            ).push(t@));
        }
        out.push(t);
        i = i + 1;
    }
    proof {
        assert(texts(w@).subrange(from as int, i as int) =~= texts(w@).skip(from as int));
    }
    out
}

pub open spec fn node_option(r: Option<Node>) -> Option<NodeView> {
    match r {
        Some(n) => Some(n@),
        None => None,
    }
}

fn read_node(w: &Vec<String>) -> (r: Option<Node>)
    ensures
        node_option(r) == node_of(texts(w@)),
{
    let ghost view = texts(w@);
    proof {
        assert(forall|i: int| 0 <= i < w@.len() ==> view[i] == w@[i]@);
    }
    if w.len() < 3 {
        return None;
    }
    let op: &str = w[0].as_str();
    let id: &str = w[1].as_str();
    if same_text(op, "process") && (w.len() == 4 || w.len() == 5) {
        return match read_place(w[3].as_str()) {
            Some(after) => Some(
                task_process(id, w[2].as_str(), SideEffect::ReadOnly, after, from_word(w, 4)),
            ),
            None => None,
        };
    }
    if same_text(op, "plain") && w.len() == 4 {
        return match read_place(w[3].as_str()) {
            Some(after) => Some(
                task_process(id, w[2].as_str(), SideEffect::Unstated, after, nothing()),
            ),
            None => None,
        };
    }
    if same_text(op, "writer") && w.len() == 4 {
        return match read_place(w[3].as_str()) {
            Some(after) => Some(
                task_process(id, w[2].as_str(), SideEffect::NonIdempotentWrite, after, nothing()),
            ),
            None => None,
        };
    }
    if same_text(op, "evidence") && w.len() == 4 {
        return match read_place(w[3].as_str()) {
            Some(after) => Some(evidence_node(id, w[2].as_str(), after)),
            None => None,
        };
    }
    if same_text(op, "model") && w.len() == 7 {
        return match (
            read_choice(w[4].as_str(), "stream", "whole"),
            read_choice(w[5].as_str(), "select", "free"),
            read_place(w[6].as_str()),
        ) {
            (Some(streaming), Some(selects), Some(after)) => Some(
                model_node(id, w[2].as_str(), w[3].as_str(), streaming, selects, after),
            ),
            _ => None,
        };
    }
    if same_text(op, "remote") && w.len() == 7 {
        return match read_place(w[6].as_str()) {
            Some(after) => Some(
                remote_node(
                    id,
                    w[2].as_str(),
                    w[3].as_str(),
                    w[4].as_str(),
                    w[5].as_str(),
                    after,
                ),
            ),
            None => None,
        };
    }
    if same_text(op, "proposer") && w.len() == 4 {
        return match read_place(w[3].as_str()) {
            Some(after) => Some(proposer(id, w[2].as_str(), after)),
            None => None,
        };
    }
    if same_text(op, "wait") && w.len() == 4 {
        return match read_place(w[3].as_str()) {
            Some(after) => Some(signal_wait(id, w[2].as_str(), after)),
            None => None,
        };
    }
    if same_text(op, "terminal") && w.len() == 4 {
        return match (read_choice(w[2].as_str(), "success", "failure"), read_place(w[3].as_str())) {
            (Some(success), Some(after)) => Some(terminal_node(id, success, after)),
            _ => None,
        };
    }
    if same_text(op, "assess") {
        return Some(acceptance(id, w[2].as_str(), &from_word(w, 3)));
    }
    if same_text(op, "gate") && w.len() == 3 {
        return Some(gate(id, w[2].as_str()));
    }
    if same_text(op, "fork") {
        return Some(fork(id, &from_word(w, 2)));
    }
    if same_text(op, "join") {
        return Some(join_all(id, w[2].as_str(), &from_word(w, 3)));
    }
    if same_text(op, "child") && w.len() == 3 {
        return match read_place(w[2].as_str()) {
            Some(after) => Some(child(id, after)),
            None => None,
        };
    }
    None
}

/// The change that a line of a plan denotes.
pub open spec fn change_of(w: Seq<Seq<char>>) -> Option<ChangeView> {
    if w.len() == 2 && w[0] == "reopen"@ {
        Some(ChangeView::Reopen(w[1]))
    } else if w.len() == 2 && w[0] == "unlink"@ {
        Some(ChangeView::RemoveEdge(w[1]))
    } else if w.len() == 6 && w[0] == "control"@ {
        Some(linked(w[1], false, w[2], w[3], w[4], w[5]))
    } else if w.len() == 6 && w[0] == "data"@ {
        Some(linked(w[1], true, w[2], w[3], w[4], w[5]))
    } else if w.len() > 0 && w[0] == "replace"@ {
        match node_of(w.skip(1)) {
            Some(n) => Some(ChangeView::ReplaceNode(n)),
            None => None,
        }
    } else {
        match node_of(w) {
            Some(n) => Some(ChangeView::AddNode(n)),
            None => None,
        }
    }
}

pub open spec fn change_option(r: Option<Change>) -> Option<ChangeView> {
    match r {
        Some(c) => Some(c@),
        None => None,
    }
}

fn read_change(w: &Vec<String>) -> (r: Option<Change>)
    ensures
        change_option(r) == change_of(texts(w@)),
{
    let ghost view = texts(w@);
    proof {
        assert(forall|i: int| 0 <= i < w@.len() ==> view[i] == w@[i]@);
    }
    if w.len() == 2 && same_text(w[0].as_str(), "reopen") {
        return Some(Change::Reopen(w[1].as_str().to_owned()));
    }
    if w.len() == 2 && same_text(w[0].as_str(), "unlink") {
        return Some(Change::RemoveEdge(w[1].as_str().to_owned()));
    }
    if w.len() == 6 && same_text(w[0].as_str(), "control") {
        return Some(
            link(
                w[1].as_str(),
                false,
                w[2].as_str(),
                w[3].as_str(),
                w[4].as_str(),
                w[5].as_str(),
            ),
        );
    }
    if w.len() == 6 && same_text(w[0].as_str(), "data") {
        return Some(
            link(
                w[1].as_str(),
                true,
                w[2].as_str(),
                w[3].as_str(),
                w[4].as_str(),
                w[5].as_str(),
            ),
        );
    }
    if w.len() > 0 && same_text(w[0].as_str(), "replace") {
        return match read_node(&from_word(w, 1)) {
            Some(n) => Some(Change::ReplaceNode(n)),
            None => None,
        };
    }
    match read_node(w) {
        Some(n) => Some(Change::AddNode(n)),
        None => None,
    }
}

/// The changes of the first `n` lines of a plan; none where one of them denotes no change.
pub open spec fn planned(all: Seq<Seq<char>>, known: Tree, n: int) -> Option<Seq<ChangeView>>
    decreases n,
{
    if n <= 0 {
        Some(seq![])
    } else {
        match planned(all, known, n - 1) {
            None => None,
            Some(before) => if trimmed(all[n - 1]).len() == 0 {
                Some(before)
            } else {
                match resolved_words(split_at_char(trimmed(all[n - 1]), ' '), known) {
                    None => None,
                    Some(w) => match change_of(w) {
                        Some(c) => Some(before.push(c)),
                        None => None,
                    },
                }
            },
        }
    }
}

/// The changes of a plan, with the values of its `$` words taken from what is known.
pub open spec fn plan_of(text: Seq<char>, known: Tree) -> Option<Seq<ChangeView>> {
    planned(lines_of(text), known, lines_of(text).len() as int)
}

proof fn lemma_unplanned(all: Seq<Seq<char>>, known: Tree, m: int, n: int)
    requires
        0 <= m <= n,
        planned(all, known, m) is None,
    ensures
        planned(all, known, n) is None,
    decreases n - m,
{
    if m < n {
        lemma_unplanned(all, known, m, n - 1);
    }
}

pub fn plan(text: &str, known: &Json) -> (r: Checked<Vec<Change>>)
    ensures
        match r {
            Ok(v) => plan_of(text@, known@) == Some(change_views(v@)),
            Err(f) => plan_of(text@, known@) is None && f.message@ == "plan line is unknown"@,
        },
{
    let all: Vec<String> = lines(text);
    let ghost view = lines_of(text@);
    let mut out: Vec<Change> = Vec::new();
    let mut i: usize = 0;
    proof {
        assert(change_views(out@) =~= seq![]);
    }
    while i < all.len()
        invariant
            i <= all.len(),
            view == texts(all@),
            view == lines_of(text@),
            planned(view, known@, i as int) == Some(change_views(out@)),
        decreases all.len() - i,
    {
        proof {
            assert(view[i as int] == all@[i as int]@);
        }
        let line: String = trim(all[i].as_str());
        if !line.as_str().is_empty() {
            let words: Vec<String> = split(line.as_str(), ' ');
            proof {
                assert(texts(words@).skip(0) =~= texts(words@));
            }
            let resolved: Option<Vec<String>> = resolve(&words, 0, known);
            let change: Option<Change> = match &resolved {
                Some(w) => read_change(w),
                None => None,
            };
            match change {
                Some(c) => {
                    proof {
                        assert(change_views(out@.push(c)) =~= change_views(out@).push(c@));
                    }
                    out.push(c);
                },
                None => {
                    proof {
                        assert(planned(view, known@, i + 1) is None);
                        lemma_unplanned(view, known@, i + 1, view.len() as int);
                    }
                    return Err(failure("plan line is unknown"));
                },
            }
        }
        i = i + 1;
    }
    Ok(out)
}

/// Whether changes add a node that offers a port to the outgoing or the incoming side of an edge.
pub open spec fn offers(
    changes: Seq<ChangeView>,
    node: Seq<char>,
    port: Seq<char>,
    outgoing: bool,
    carries_data: bool,
) -> bool {
    exists|i: int| #![trigger changes[i]] 0 <= i < changes.len() && offered(changes[i], node, port, outgoing, carries_data)
}

pub open spec fn offered(
    change: ChangeView,
    node: Seq<char>,
    port: Seq<char>,
    outgoing: bool,
    carries_data: bool,
) -> bool {
    change matches ChangeView::AddNode(n) && n.id == node && (if outgoing {
        if carries_data {
            n.data_outputs
        } else {
            n.control_outputs
        }
    } else {
        if carries_data {
            n.data_inputs
        } else {
            n.control_inputs
        }
    }).contains(port)
}

/// Whether two changes add nodes, or edges, of the same identity.
pub open spec fn clash(a: ChangeView, b: ChangeView) -> bool {
    match (a, b) {
        (ChangeView::AddNode(m), ChangeView::AddNode(n)) => m.id == n.id,
        (ChangeView::AddEdge(m), ChangeView::AddEdge(n)) => m.id == n.id,
        _ => false,
    }
}

/// Whether a change needs nothing that the changes do not add.
pub open spec fn supported(changes: Seq<ChangeView>, change: ChangeView) -> bool {
    match change {
        ChangeView::AddEdge(e) => offers(changes, e.source, e.source_port, true, e.carries_data)
            && offers(changes, e.target, e.target_port, false, e.carries_data),
        ChangeView::AddNode(_) => true,
        _ => false,
    }
}

/// A plan of a new blueprint is closed where every edge joins ports of its own nodes and no
/// identity is used twice.
pub open spec fn closed(changes: Seq<ChangeView>) -> bool {
    &&& forall|i: int| 0 <= i < changes.len() ==> supported(changes, #[trigger] changes[i])
    &&& forall|i: int, j: int|
        0 <= i < j < changes.len() ==> !clash(#[trigger] changes[i], #[trigger] changes[j])
}

fn lists(v: &Vec<String>, port: &str) -> (r: bool)
    ensures
        r == texts(v@).contains(port@),
{
    let mut i: usize = 0;
    while i < v.len()
        invariant
            i <= v.len(),
            forall|j: int| 0 <= j < i ==> texts(v@)[j] != port@,
        decreases v.len() - i,
    {
        if same_text(v[i].as_str(), port) {
            proof {
                assert(texts(v@)[i as int] == port@);
            }
            return true;
        }
        i = i + 1;
    }
    false
}

fn is_offered(change: &Change, node: &str, port: &str, outgoing: bool, carries_data: bool) -> (r:
    bool)
    ensures
        r == offered(change@, node@, port@, outgoing, carries_data),
{
    match change {
        Change::AddNode(n) => {
            let ports: &Vec<String> = if outgoing {
                if carries_data {
                    &n.data_outputs
                } else {
                    &n.control_outputs
                }
            } else {
                if carries_data {
                    &n.data_inputs
                } else {
                    &n.control_inputs
                }
            };
            same_text(n.id.as_str(), node) && lists(ports, port)
        },
        _ => false,
    }
}

fn is_offering(
    changes: &Vec<Change>,
    node: &str,
    port: &str,
    outgoing: bool,
    carries_data: bool,
) -> (r: bool)
    ensures
        r == offers(change_views(changes@), node@, port@, outgoing, carries_data),
{
    let ghost all = change_views(changes@);
    let mut i: usize = 0;
    while i < changes.len()
        invariant
            i <= changes.len(),
            all == change_views(changes@),
            forall|j: int|
                0 <= j < i ==> !offered(#[trigger] all[j], node@, port@, outgoing, carries_data),
        decreases changes.len() - i,
    {
        proof {
            assert(all[i as int] == changes@[i as int]@);
        }
        if is_offered(&changes[i], node, port, outgoing, carries_data) {
            return true;
        }
        i = i + 1;
    }
    false
}

fn clashes(a: &Change, b: &Change) -> (r: bool)
    ensures
        r == clash(a@, b@),
{
    match (a, b) {
        (Change::AddNode(m), Change::AddNode(n)) => same_text(m.id.as_str(), n.id.as_str()),
        (Change::AddEdge(m), Change::AddEdge(n)) => same_text(m.id.as_str(), n.id.as_str()),
        _ => false,
    }
}

pub fn is_closed(changes: &Vec<Change>) -> (r: bool)
    ensures
        r == closed(change_views(changes@)),
{
    let ghost all = change_views(changes@);
    let mut i: usize = 0;
    while i < changes.len()
        invariant
            i <= changes.len(),
            all == change_views(changes@),
            forall|k: int| 0 <= k < i ==> supported(all, #[trigger] all[k]),
            forall|k: int, j: int|
                0 <= k < i && k < j < all.len() ==> !clash(#[trigger] all[k], #[trigger] all[j]),
        decreases changes.len() - i,
    {
        proof {
            assert(all[i as int] == changes@[i as int]@);
        }
        let fine: bool = match &changes[i] {
            Change::AddEdge(e) => is_offering(
                changes,
                e.source.as_str(),
                e.source_port.as_str(),
                true,
                e.carries_data,
            ) && is_offering(
                changes,
                e.target.as_str(),
                e.target_port.as_str(),
                false,
                e.carries_data,
            ),
            Change::AddNode(_) => true,
            _ => false,
        };
        if !fine {
            proof {
                assert(!supported(all, all[i as int]));
            }
            return false;
        }
        let mut j: usize = i + 1;
        while j < changes.len()
            invariant
                i < j <= changes.len(),
                all == change_views(changes@),
                forall|k: int| i < k < j ==> !clash(all[i as int], #[trigger] all[k]),
            decreases changes.len() - j,
        {
            proof {
                assert(all[i as int] == changes@[i as int]@);
                assert(all[j as int] == changes@[j as int]@);
            }
            if clashes(&changes[i], &changes[j]) {
                proof {
                    assert(clash(all[i as int], all[j as int]));
                }
                return false;
            }
            j = j + 1;
        }
        i = i + 1;
    }
    true
}

proof fn lemma_supported_in_more(
    few: Seq<ChangeView>,
    many: Seq<ChangeView>,
    shift: int,
    change: ChangeView,
)
    requires
        0 <= shift,
        shift + few.len() <= many.len(),
        forall|i: int| 0 <= i < few.len() ==> many[i + shift] == #[trigger] few[i],
        supported(few, change),
    ensures
        supported(many, change),
{
    if let ChangeView::AddEdge(e) = change {
        let s = choose|i: int|
            #![trigger few[i]]
            0 <= i < few.len() && offered(few[i], e.source, e.source_port, true, e.carries_data);
        let t = choose|i: int|
            #![trigger few[i]]
            0 <= i < few.len() && offered(few[i], e.target, e.target_port, false, e.carries_data);
        assert(offered(many[s + shift], e.source, e.source_port, true, e.carries_data));
        assert(offered(many[t + shift], e.target, e.target_port, false, e.carries_data));
    }
}

/// Two closed plans without a common identity make a closed plan together.
pub proof fn closed_plans_compose(a: Seq<ChangeView>, b: Seq<ChangeView>)
    requires
        closed(a),
        closed(b),
        forall|i: int, j: int|
            0 <= i < a.len() && 0 <= j < b.len() ==> !clash(#[trigger] a[i], #[trigger] b[j]),
    ensures
        closed(a + b),
{
    let c = a + b;
    assert forall|i: int| 0 <= i < c.len() implies supported(c, #[trigger] c[i]) by {
        if i < a.len() {
            lemma_supported_in_more(a, c, 0, a[i]);
        } else {
            lemma_supported_in_more(b, c, a.len() as int, b[i - a.len()]);
        }
    }
    assert forall|i: int, j: int| 0 <= i < j < c.len() implies !clash(
        #[trigger] c[i],
        #[trigger] c[j],
    ) by {
        if j < a.len() {
            assert(!clash(a[i], a[j]));
        } else if i < a.len() {
            assert(!clash(a[i], b[j - a.len()]));
        } else {
            assert(!clash(b[i - a.len()], b[j - a.len()]));
        }
    }
}

/// The bounds of a controller over a body: cycles, revisions, actions and their rates, durations
/// and units, with the number of processes that the account admits.
pub fn wrapper_limits(processes: u64) -> (r: Vec<u64>)
    ensures
        r@ == seq![
            8u64,
            8,
            16,
            8,
            300_000,
            1_000_000,
            32_768,
            32_768,
            32_000_000,
            processes,
            8,
            2,
            4,
            2,
            2,
        ],
{
    vec![
        8, 8, 16, 8, 300_000, 1_000_000, 32_768, 32_768, 32_000_000, processes, 8, 2, 4, 2, 2,
    ]
}

/// The bounds of a controller over one remote operation.
pub fn remote_limits() -> (r: Vec<u64>)
    ensures
        r@ == seq![
            4u64,
            4,
            4,
            4,
            900_000,
            0,
            1_000_000,
            32_768,
            64_000_000,
            2,
            2,
            2,
            2,
            2,
            2,
        ],
{
    vec![4, 4, 4, 4, 900_000, 0, 1_000_000, 32_768, 64_000_000, 2, 2, 2, 2, 2, 2]
}

} // verus!
