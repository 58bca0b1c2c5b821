//! General laws of the approval engine, stated over [`FlowModel`] and proved
//! once and for all.  [`FlowProcess::handle_action`] is specified exactly by
//! [`spec_decide`] and [`spec_apply`], so every law here carries over to the
//! executable engine.

use vstd::prelude::*;

use crate::flow::ApprovalAction;
use crate::flow::EngineError;
use crate::flow::FlowModel;
use crate::flow::FlowProcess;
use crate::flow::Outcome;
use crate::flow::StepStatus;
use crate::flow::cur;
use crate::flow::current_approver;
use crate::flow::decided_step;
use crate::flow::in_range;
use crate::flow::spec_apply;
use crate::flow::spec_decide;

verus! {

/// Every step at index `k` or later is still pending and unstamped.
pub open spec fn all_pending_from(m: FlowModel, k: int) -> bool {
    forall|i: int|
        k <= i < m.steps.len() ==> (#[trigger] m.steps[i]).status == StepStatus::Pending
            && m.steps[i].timestamp is None
}

/// Every step before index `k` has been approved and stamped.
pub open spec fn approved_before(m: FlowModel, k: int) -> bool {
    forall|i: int|
        0 <= i < k ==> (#[trigger] m.steps[i]).status == StepStatus::Approved
            && m.steps[i].timestamp is Some
}

/// The state invariant of an active chain: the pointer designates an existing
/// step, every step before it is approved, and every step after it is still
/// pending and untouched.  The designated step itself may be in any state.
pub open spec fn flow_inv(m: FlowModel) -> bool {
    in_range(m) && approved_before(m, cur(m)) && all_pending_from(m, cur(m) + 1)
}

/// A chain as it looks when a request is created: the pointer at the first
/// step and every step pending and unstamped.
pub open spec fn fresh_flow(m: FlowModel) -> bool {
    m.current_step == 1 && all_pending_from(m, 0)
}

/// Applying an action never breaks the state invariant.
pub proof fn lemma_apply_preserves_inv(
    m: FlowModel,
    action: ApprovalAction,
    actor_id: u128,
    now: i64,
)
    requires
        flow_inv(m),
    ensures
        flow_inv(spec_apply(m, action, actor_id, now)),
{
}

/// An action by anyone but the designated approver of the (still pending)
/// current step is refused as [`EngineError::Forbidden`] and leaves the chain
/// unchanged.
pub proof fn lemma_wrong_actor_forbidden(
    m: FlowModel,
    action: ApprovalAction,
    actor_id: u128,
    now: i64,
)
    requires
        in_range(m),
        m.steps[cur(m)].status == StepStatus::Pending,
        actor_id != current_approver(m),
    ensures
        spec_decide(m, action, actor_id) == Err::<Outcome, EngineError>(EngineError::Forbidden),
        spec_apply(m, action, actor_id, now) == m,
{
}

/// Any action on a current step that is no longer pending is refused as
/// [`EngineError::AlreadyProcessed`] and leaves the chain unchanged.
pub proof fn lemma_already_processed(
    m: FlowModel,
    action: ApprovalAction,
    actor_id: u128,
    now: i64,
)
    requires
        in_range(m),
        m.steps[cur(m)].status != StepStatus::Pending,
    ensures
        spec_decide(m, action, actor_id) == Err::<Outcome, EngineError>(
            EngineError::AlreadyProcessed,
        ),
        spec_apply(m, action, actor_id, now) == m,
{
}

/// Any action while the pointer designates no existing step is refused as
/// [`EngineError::InvalidState`] and leaves the chain unchanged.
pub proof fn lemma_out_of_range_invalid(
    m: FlowModel,
    action: ApprovalAction,
    actor_id: u128,
    now: i64,
)
    requires
        !in_range(m),
    ensures
        spec_decide(m, action, actor_id) == Err::<Outcome, EngineError>(EngineError::InvalidState),
        spec_apply(m, action, actor_id, now) == m,
{
}

/// Rejecting the pending current step yields [`Outcome::Rejected`], stamps
/// and rejects exactly that step, and moves nothing: the pointer stays, the
/// approved prefix stays approved, and the steps after the pointer stay
/// pending and unstamped.
pub proof fn lemma_reject_freezes(m: FlowModel, actor_id: u128, now: i64)
    requires
        flow_inv(m),
        m.steps[cur(m)].status == StepStatus::Pending,
        actor_id == current_approver(m),
    ensures
        spec_decide(m, ApprovalAction::Reject, actor_id) == Ok::<Outcome, EngineError>(
            Outcome::Rejected,
        ),
        spec_apply(m, ApprovalAction::Reject, actor_id, now).current_step == m.current_step,
        spec_apply(m, ApprovalAction::Reject, actor_id, now).steps[cur(m)].status
            == StepStatus::Rejected,
        spec_apply(m, ApprovalAction::Reject, actor_id, now).steps[cur(m)].timestamp == Some(now),
        approved_before(spec_apply(m, ApprovalAction::Reject, actor_id, now), cur(m)),
        forall|i: int|
            cur(m) < i < m.steps.len() ==> #[trigger] spec_apply(
                m,
                ApprovalAction::Reject,
                actor_id,
                now,
            ).steps[i] == m.steps[i],
        all_pending_from(spec_apply(m, ApprovalAction::Reject, actor_id, now), cur(m) + 1),
{
}

/// The chain after `n` repetitions of the same action by the same actor.
pub open spec fn repeat_apply(
    m: FlowModel,
    action: ApprovalAction,
    actor_id: u128,
    now: i64,
    n: nat,
) -> FlowModel
    decreases n,
{
    if n == 0 {
        m
    } else {
        repeat_apply(spec_apply(m, action, actor_id, now), action, actor_id, now, (n - 1) as nat)
    }
}

/// Failure is idempotent: once an action is refused, repeating it any number
/// of times leaves the chain exactly as it was and reports the same error
/// every time.  There is no partial mutation on a failure path.
pub proof fn lemma_failure_idempotent(
    m: FlowModel,
    action: ApprovalAction,
    actor_id: u128,
    now: i64,
    n: nat,
)
    requires
        spec_decide(m, action, actor_id) is Err,
    ensures
        repeat_apply(m, action, actor_id, now, n) == m,
        spec_decide(repeat_apply(m, action, actor_id, now, n), action, actor_id) == spec_decide(
            m,
            action,
            actor_id,
        ),
    decreases n,
{
    if n > 0 {
        assert(spec_apply(m, action, actor_id, now) == m);
        lemma_failure_idempotent(m, action, actor_id, now, (n - 1) as nat);
    }
}

/// The chain after `n` successive approvals, each made by the designated
/// approver of the step that is current at that moment.
pub open spec fn approve_run(m: FlowModel, n: nat, now: i64) -> FlowModel
    decreases n,
{
    if n == 0 {
        m
    } else {
        approve_run(
            spec_apply(m, ApprovalAction::Approve, current_approver(m), now),
            (n - 1) as nat,
            now,
        )
    }
}

/// Unfolding [`approve_run`] from the far end: `n + 1` approvals are `n`
/// approvals followed by one more.
proof fn lemma_approve_run_snoc(m: FlowModel, n: nat, now: i64)
    ensures
        approve_run(m, (n + 1) as nat, now) == spec_apply(
            approve_run(m, n, now),
            ApprovalAction::Approve,
            current_approver(approve_run(m, n, now)),
            now,
        ),
    decreases n,
{
    let m1 = spec_apply(m, ApprovalAction::Approve, current_approver(m), now);
    if n == 0 {
        assert(approve_run(m, 1, now) == approve_run(m1, 0, now));
    } else {
        lemma_approve_run_snoc(m1, (n - 1) as nat, now);
    }
}

/// After `k` approvals of a fresh chain (`k` at most `N - 1`), the pointer
/// stands at step `k + 1`, the first `k` steps are approved and stamped, and
/// the rest are exactly as they were.
proof fn lemma_approve_run_partial(m: FlowModel, k: nat, now: i64)
    requires
        fresh_flow(m),
        1 <= m.steps.len(),
        k <= m.steps.len() - 1,
    ensures
        approve_run(m, k, now).steps.len() == m.steps.len(),
        approve_run(m, k, now).current_step == k + 1,
        forall|i: int|
            0 <= i < k ==> #[trigger] approve_run(m, k, now).steps[i] == decided_step(
                m.steps[i],
                ApprovalAction::Approve,
                now,
            ),
        forall|i: int|
            k <= i < m.steps.len() ==> #[trigger] approve_run(m, k, now).steps[i] == m.steps[i],
    decreases k,
{
    if k > 0 {
        lemma_approve_run_partial(m, (k - 1) as nat, now);
        lemma_approve_run_snoc(m, (k - 1) as nat, now);
        let prev = approve_run(m, (k - 1) as nat, now);
        assert(spec_decide(prev, ApprovalAction::Approve, current_approver(prev)) == Ok::<
            Outcome,
            EngineError,
        >(Outcome::Advanced));
    }
}

/// Fully approving a fresh chain of `N >= 1` steps: after `N - 1` approvals
/// the final approval is accepted and reports [`Outcome::Completed`]; after
/// all `N` the pointer stands at `N` and every step is approved and stamped.
pub proof fn lemma_full_approval_completes(m: FlowModel, now: i64)
    requires
        fresh_flow(m),
        1 <= m.steps.len(),
    ensures
        spec_decide(
            approve_run(m, (m.steps.len() - 1) as nat, now),
            ApprovalAction::Approve,
            current_approver(approve_run(m, (m.steps.len() - 1) as nat, now)),
        ) == Ok::<Outcome, EngineError>(Outcome::Completed),
        approve_run(m, m.steps.len() as nat, now).current_step == m.steps.len(),
        forall|i: int|
            0 <= i < m.steps.len() ==> (#[trigger] approve_run(
                m,
                m.steps.len() as nat,
                now,
            ).steps[i]).status == StepStatus::Approved && approve_run(
                m,
                m.steps.len() as nat,
                now,
            ).steps[i].timestamp == Some(now),
{
    let n = m.steps.len();
    lemma_approve_run_partial(m, (n - 1) as nat, now);
    lemma_approve_run_snoc(m, (n - 1) as nat, now);
    let last = approve_run(m, (n - 1) as nat, now);
    assert(spec_decide(last, ApprovalAction::Approve, current_approver(last)) == Ok::<
        Outcome,
        EngineError,
    >(Outcome::Completed));
}

} // verus!
