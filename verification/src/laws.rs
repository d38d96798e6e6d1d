//! Laws of the orchestration machine, stated over whole runs.
//!
//! A run is the start state followed by a trace: the sequence of consumed
//! events with the state and the action each produced. The laws say what can
//! never happen in any valid run: no rename before the canonical name is
//! vacated, and no further collaborator work once a stage has failed.

use vstd::prelude::*;

use crate::machine::Action;
use crate::machine::CleanStep;
use crate::machine::Deployment;
use crate::machine::Event;
use crate::machine::Phase;
use crate::machine::step_rel;

verus! {

/// One consumed event, with the state and the action it produced.
pub struct TraceStep {
    pub ev: Event,
    pub state: Deployment,
    pub act: Action,
}

/// The trace records successive transitions of the machine from `start`.
pub open spec fn valid_trace(start: Deployment, tr: Seq<TraceStep>) -> bool
    decreases tr.len(),
{
    tr.len() == 0 || (step_rel(start, tr[0].ev, tr[0].state, tr[0].act) && valid_trace(
        tr[0].state,
        tr.drop_first(),
    ))
}

/// Actions that only wind a run down.
pub open spec fn halting_action(a: Action) -> bool {
    a matches Action::ReleaseLock || a matches Action::ExitErr(_)
}

/// Actions of the provisioner.
pub open spec fn provisioning_action(a: Action) -> bool {
    ||| a matches Action::ReadEnvFile
    ||| a matches Action::CreateContainer(_)
    ||| a matches Action::StartContainer(_)
    ||| a matches Action::InspectContainer(_)
}

/// The proxy cutover.
pub open spec fn swap_action(a: Action) -> bool {
    a matches Action::SwapProxy(_)
}

/// Actions of the decommissioner.
pub open spec fn cleaning_action(a: Action) -> bool {
    ||| a matches Action::ProbeCanonical
    ||| a matches Action::RemoveCanonical
    ||| a matches Action::RenameNext
}

/// Law: the decommissioner never renames before the canonical name is vacated.
/// A rename is requested only right after the canonical container was observed
/// absent, or right after its removal succeeded.
pub proof fn lemma_rename_only_after_vacated(
    pre: Deployment,
    ev: Event,
    post: Deployment,
    a: Action,
)
    requires
        step_rel(pre, ev, post, a),
        a matches Action::RenameNext,
    ensures
        (pre.phase == Phase::Cleaning(CleanStep::Probe) && ev == Event::CanonicalFound(false)) || (
        pre.phase == Phase::Cleaning(CleanStep::Remove) && (ev matches Event::Removed(r) && r
            is Ok)),
{
}

/// Law: a failed machine stays failed, and every action it still issues only
/// releases the lock or exits.
pub proof fn lemma_failed_halts(start: Deployment, tr: Seq<TraceStep>)
    requires
        start.phase matches Phase::Failed(_),
        valid_trace(start, tr),
    ensures
        forall|i: int| 0 <= i < tr.len() ==> halting_action(#[trigger] tr[i].act),
        forall|i: int| 0 <= i < tr.len() ==> (#[trigger] tr[i].state).phase matches Phase::Failed(
            _,
        ),
    decreases tr.len(),
{
    if tr.len() > 0 {
        assert(tr[0].state.phase matches Phase::Failed(_));
        lemma_failed_halts(tr[0].state, tr.drop_first());
        assert forall|i: int| 0 <= i < tr.len() implies halting_action(#[trigger] tr[i].act) && (
        tr[i].state.phase matches Phase::Failed(_)) by {
            if i > 0 {
                assert(tr.drop_first()[i - 1] == tr[i]);
            }
        }
    }
}

/// Law: if the image pull reports an error, provisioning, swapping and
/// cleaning are never invoked — the machine releases the lock at once, and
/// every later action only winds the failed run down.
pub proof fn lemma_pull_error_stops_pipeline(
    pre: Deployment,
    ev: Event,
    post: Deployment,
    a: Action,
    tr: Seq<TraceStep>,
)
    requires
        pre.phase == Phase::Pulling,
        ev matches Event::PullFailed(_),
        step_rel(pre, ev, post, a),
        valid_trace(post, tr),
    ensures
        a == Action::ReleaseLock,
        forall|i: int|
            0 <= i < tr.len() ==> !provisioning_action(#[trigger] tr[i].act) && !swap_action(
                tr[i].act,
            ) && !cleaning_action(tr[i].act),
{
    lemma_failed_halts(post, tr);
}

/// Law: if provisioning fails, the proxy swap is never invoked — no cutover
/// happens without a resolved address.
pub proof fn lemma_provision_error_no_swap(
    pre: Deployment,
    ev: Event,
    post: Deployment,
    a: Action,
    tr: Seq<TraceStep>,
)
    requires
        pre.phase matches Phase::Provisioning(_),
        step_rel(pre, ev, post, a),
        post.phase matches Phase::Failed(_),
        valid_trace(post, tr),
    ensures
        a == Action::ReleaseLock,
        !swap_action(a),
        forall|i: int| 0 <= i < tr.len() ==> !swap_action(#[trigger] tr[i].act),
{
    lemma_failed_halts(post, tr);
}

} // verus!
