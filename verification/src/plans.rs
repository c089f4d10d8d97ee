//! The blueprints of the scenarios, one plan each.

use vstd::prelude::*;

use crate::blueprint::{change_views, plan, plan_of, Change};
use crate::failure::{failed, Checked};
use crate::json::{Json, Tree};

verus! {

/// A process that waits for an approval before its end.
pub const SIGNALLED_PROCESS: &'static str = "
plain process $capability first
wait approval evidence.continue after
terminal done success after
control process-approval process next approval in
control approval-done approval next done in
";

/// A process and its end.
pub const PLAIN_PROCESS: &'static str = "
plain process $capability first
terminal done success after
control process-done process next done in
";

/// An end alone.
pub const TERMINAL: &'static str = "
terminal done $outcome first
";

/// Work that is verified independently, repaired once and verified again.
pub const CONTROLLER_BODY: &'static str = "
process work controller-work first
process verify controller-verify after work
wait repair-release controller.repair-release after
process repair controller-work after
process reverify controller-verify after work
wait failed-again controller.failed-again after
terminal done success after
terminal unexpected failure after
terminal failed failure after
assess first-acceptance verification:correct work
gate first-gate first-acceptance
control first-evaluate verify next first-acceptance in
control first-branch first-acceptance out first-gate in
control first-pass first-gate pass unexpected in
control first-fail first-gate fail repair-release in
data first-result verify stdout first-acceptance result
data first-evidence work stdout first-acceptance work
data first-accepted first-acceptance accepted_result first-gate accepted_result
assess second-acceptance verification:correct work
gate second-gate second-acceptance
control second-evaluate reverify next second-acceptance in
control second-branch second-acceptance out second-gate in
control second-pass second-gate pass done in
control second-fail second-gate fail failed-again in
data second-result reverify stdout second-acceptance result
data second-evidence repair stdout second-acceptance work
data second-accepted second-acceptance accepted_result second-gate accepted_result
control failed-again-stop failed-again next failed in
control work-verify work next verify in
data work-input work stdout verify work
control release-repair repair-release next repair in
control repair-reverify repair next reverify in
data repair-input repair stdout reverify work
";

/// The controller's loop beside an explicit decision boundary, as a revision of its wrapper.
pub const CONTROLLER_ROOT: &'static str = "
reopen controller-repeat
replace terminal controller-complete failure after
fork fork loop decision
join join fork loop decision
unlink controller-finished
wait authorize-proposer controller.authorize-proposer after
wait proposer controller.proposer after
wait proposer-finished controller.proposer-finished after
control fork-loop fork loop controller-repeat in
control fork-decision fork decision authorize-proposer in
control loop-join controller-repeat out join loop
control decision-join proposer-finished next join decision
control join-complete join out controller-complete in
control release-proposer authorize-proposer next proposer in
control proposer-finished proposer next proposer-finished in
";

/// A child before the controller's loop, as a revision of its wrapper.
pub const CONTROLLER_PRELUDE: &'static str = "
reopen controller-repeat
child prelude first
control prelude-repeat prelude out controller-repeat in
";

/// The decision step that submits a proposal, in place of its wait.
pub const CONTROLLER_PROPOSER: &'static str = "
replace proposer proposer milkdrift-workflow-control after
";

/// The proposed repair of the body.
pub const CONTROLLER_REPAIR: &'static str = "
replace process repair controller-repair after
";

/// Three concurrent processes.
pub const RACE_BODY: &'static str = "
process one controller-race after
control fork-one fork one one in
control join-one one next join one
process two controller-race after
control fork-two fork two two in
control join-two two next join two
process three controller-race after
control fork-three fork three three in
control join-three three next join three
fork fork one two three
join join fork one two three
terminal done success after
control join-done join out done in
";

/// A process whose writes are not idempotent.
pub const CRASH_BODY: &'static str = "
writer work controller-crash first
terminal done success after
control work-done work next done in
";

/// One operation of another host.
pub const REMOTE_BODY: &'static str = "
remote operation $capability $operation $input $output first
terminal done success after
control operation-done operation next done in
";

/// A generation and its end.
pub const MODEL_ALONE: &'static str = "
model model $capability $profile $mode free first
terminal done success after
control model-done model next done in
";

/// A generation that waits for its release and selects one of two evidence steps.
pub const MODEL_WITH_EVIDENCE: &'static str = "
evidence selected-evidence local-model-selected-evidence first
evidence omitted-evidence local-model-omitted-evidence after
wait model-release evidence.model.release after
model model $capability $profile $mode select after
terminal done success after
control selected-omitted selected-evidence next omitted-evidence in
control omitted-release omitted-evidence next model-release in
control release-model model-release next model in
control model-done model next done in
";

/// A review that is assessed, remedied and assessed again before its dependent step.
pub const ACCEPTANCE_GRAPH: &'static str = "
model model empty-review $profiles,empty $mode free first
wait before-acceptance acceptance.evaluate after
wait remediation acceptance.remediate after
model repair remedied-review $profiles,review $mode free after
wait before-continuation acceptance.continue after
model dependent dependent $profiles,next $mode free after
model forbidden-dependent dependent $profiles,next $mode free after
terminal done success after
terminal unexpected success after
terminal failed failure after
control model-evaluate-wait model next before-acceptance in
control evaluate-wait-acceptance before-acceptance next first-acceptance in
control remediation-repair remediation next repair in
control repair-acceptance repair next second-acceptance in
control continue-dependent before-continuation next dependent in
control dependent-done dependent next done in
control forbidden-unexpected forbidden-dependent next unexpected in
assess first-acceptance model_prose
gate first-gate first-acceptance
data first-response model model_response first-acceptance result
control first-assessed first-acceptance out first-gate in
data first-accepted first-acceptance accepted_result first-gate accepted_result
control first-pass first-gate pass forbidden-dependent in
control first-fail first-gate fail remediation in
assess second-acceptance model_prose
gate second-gate second-acceptance
data second-response repair model_response second-acceptance result
control second-assessed second-acceptance out second-gate in
data second-accepted second-acceptance accepted_result second-gate accepted_result
control second-pass second-gate pass before-continuation in
control second-fail second-gate fail failed in
";

/// A first answer, its acceptance, a held continuation and a fresh step.
pub const CONTINUATION_GRAPH: &'static str = "
model first first $profiles,first $mode free first
wait hold continuation.release after
model continued continued $profiles,continued $mode free after
model fresh fresh $profiles,fresh $mode free after
terminal done success after
control hold-continued hold next continued in
control continued-fresh continued next fresh in
control fresh-done fresh next done in
assess acceptance $requirement
control first-acceptance first next acceptance in
control acceptance-hold acceptance out hold in
data acceptance-subject first model_response acceptance result
";

/// Whether some changes are those of a plan.
pub open spec fn planned_by(r: Checked<Vec<Change>>, text: Seq<char>, known: Tree) -> bool {
    match r {
        Ok(v) => plan_of(text, known) == Some(change_views(v@)),
        Err(_) => plan_of(text, known) is None && failed(r, "plan line is unknown"@),
    }
}

/// A process that waits for an approval before its end.
pub fn signalled_process(known: &Json) -> (r: Checked<Vec<Change>>)
    ensures
        planned_by(r, SIGNALLED_PROCESS@, known@),
{
    plan(SIGNALLED_PROCESS, known)
}

/// A process and its end.
pub fn plain_process(known: &Json) -> (r: Checked<Vec<Change>>)
    ensures
        planned_by(r, PLAIN_PROCESS@, known@),
{
    plan(PLAIN_PROCESS, known)
}

/// An end alone.
pub fn terminal_blueprint(known: &Json) -> (r: Checked<Vec<Change>>)
    ensures
        planned_by(r, TERMINAL@, known@),
{
    plan(TERMINAL, known)
}

/// Work that is verified independently, repaired once and verified again.
pub fn body(known: &Json) -> (r: Checked<Vec<Change>>)
    ensures
        planned_by(r, CONTROLLER_BODY@, known@),
{
    plan(CONTROLLER_BODY, known)
}

/// The controller's loop beside an explicit decision boundary, as a revision of its wrapper.
pub fn root(known: &Json) -> (r: Checked<Vec<Change>>)
    ensures
        planned_by(r, CONTROLLER_ROOT@, known@),
{
    plan(CONTROLLER_ROOT, known)
}

/// A child before the controller's loop, as a revision of its wrapper.
pub fn prelude_root(known: &Json) -> (r: Checked<Vec<Change>>)
    ensures
        planned_by(r, CONTROLLER_PRELUDE@, known@),
{
    plan(CONTROLLER_PRELUDE, known)
}

/// The decision step that submits a proposal, in place of its wait.
pub fn proposer_step(known: &Json) -> (r: Checked<Vec<Change>>)
    ensures
        planned_by(r, CONTROLLER_PROPOSER@, known@),
{
    plan(CONTROLLER_PROPOSER, known)
}

/// The proposed repair of the body.
pub fn repair_step(known: &Json) -> (r: Checked<Vec<Change>>)
    ensures
        planned_by(r, CONTROLLER_REPAIR@, known@),
{
    plan(CONTROLLER_REPAIR, known)
}

/// Three concurrent processes.
pub fn race_body(known: &Json) -> (r: Checked<Vec<Change>>)
    ensures
        planned_by(r, RACE_BODY@, known@),
{
    plan(RACE_BODY, known)
}

/// A process whose writes are not idempotent.
pub fn crash_body(known: &Json) -> (r: Checked<Vec<Change>>)
    ensures
        planned_by(r, CRASH_BODY@, known@),
{
    plan(CRASH_BODY, known)
}

/// One operation of another host.
pub fn remote_blueprint(known: &Json) -> (r: Checked<Vec<Change>>)
    ensures
        planned_by(r, REMOTE_BODY@, known@),
{
    plan(REMOTE_BODY, known)
}

/// A generation and its end.
pub fn model_alone(known: &Json) -> (r: Checked<Vec<Change>>)
    ensures
        planned_by(r, MODEL_ALONE@, known@),
{
    plan(MODEL_ALONE, known)
}

/// A generation that waits for its release and selects one of two evidence steps.
pub fn model_with_evidence(known: &Json) -> (r: Checked<Vec<Change>>)
    ensures
        planned_by(r, MODEL_WITH_EVIDENCE@, known@),
{
    plan(MODEL_WITH_EVIDENCE, known)
}

/// A review that is assessed, remedied and assessed again before its dependent step.
pub fn acceptance_graph(known: &Json) -> (r: Checked<Vec<Change>>)
    ensures
        planned_by(r, ACCEPTANCE_GRAPH@, known@),
{
    plan(ACCEPTANCE_GRAPH, known)
}

/// A first answer, its acceptance, a held continuation and a fresh step.
pub fn continuation_graph(known: &Json) -> (r: Checked<Vec<Change>>)
    ensures
        planned_by(r, CONTINUATION_GRAPH@, known@),
{
    plan(CONTINUATION_GRAPH, known)
}

} // verus!
