//! The sequential approval state machine.
//!
//! A [`FlowProcess`] is an ordered chain of [`ApprovalStep`]s plus a 1-based
//! pointer `current_step` into that chain.  [`FlowProcess::handle_action`]
//! applies one [`ApprovalAction`] by the acting user and either advances,
//! completes, or freezes the chain.  The whole transition is captured by the
//! spec functions [`spec_decide`] (which outcome or error an action yields)
//! and [`spec_apply`] (the successor state), and `handle_action` is proved
//! to follow them exactly.

use vstd::prelude::*;

verus! {

/// An action a user can attempt on the step that is currently pending.
#[derive(Clone, Copy, Debug, PartialEq, Eq, Structural)]
pub enum ApprovalAction {
    Approve,
    Reject,
}

/// The decision state of a single step.
#[derive(Clone, Copy, Debug, PartialEq, Eq, Structural)]
pub enum StepStatus {
    Pending,
    Approved,
    Rejected,
}

/// What a successful action did to the chain.
#[derive(Clone, Copy, Debug, PartialEq, Eq, Structural)]
pub enum Outcome {
    /// The current step was approved and the pointer moved to the next step.
    Advanced,
    /// The last step was approved; the whole chain is now approved.
    Completed,
    /// The current step was rejected; the pointer stays where it is.
    Rejected,
}

/// Why an action was refused.  Refused actions leave the chain unchanged.
#[derive(Clone, Copy, Debug, PartialEq, Eq, Structural)]
pub enum EngineError {
    /// `current_step` does not point at an existing step.
    InvalidState,
    /// The current step has already been approved or rejected.
    AlreadyProcessed,
    /// The actor is not the designated approver of the current step.
    Forbidden,
}

/// One approval gate in a chain, owned by exactly one designated approver.
///
/// `seq` is the 1-based position of the step, `approver_id` the identity of
/// the one user who may decide it (a 128-bit user id), and `timestamp` the
/// decision time in Unix seconds, set exactly once when the step is decided.
#[derive(Clone, Debug, PartialEq, Eq)]
pub struct ApprovalStep {
    pub seq: i32,
    pub name: String,
    pub approver_id: u128,
    pub status: StepStatus,
    pub timestamp: Option<i64>,
}

/// The ordered approval chain plus the 1-based pointer to the active step.
#[derive(Clone, Debug, PartialEq, Eq)]
pub struct FlowProcess {
    pub current_step: i32,
    pub steps: Vec<ApprovalStep>,
}

/// The mathematical value of a [`FlowProcess`]: the pointer as an `int` and
/// the steps as a sequence.
#[verifier::ext_equal]
pub ghost struct FlowModel {
    pub current_step: int,
    pub steps: Seq<ApprovalStep>,
}

impl View for FlowProcess {
    type V = FlowModel;

    open spec fn view(&self) -> FlowModel {
        FlowModel { current_step: self.current_step as int, steps: self.steps@ }
    }
}

/// Does `current_step` point at an existing step?
pub open spec fn in_range(m: FlowModel) -> bool {
    1 <= m.current_step <= m.steps.len()
}

/// The 0-based index of the step the pointer designates.
pub open spec fn cur(m: FlowModel) -> int {
    m.current_step - 1
}

/// The designated approver of the step the pointer designates.
pub open spec fn current_approver(m: FlowModel) -> u128 {
    m.steps[cur(m)].approver_id
}

/// Which outcome or error applying `action` as `actor_id` yields, checked in
/// this order: the pointer must be in range, the current step must still be
/// pending, and the actor must be the step's designated approver.
pub open spec fn spec_decide(
    m: FlowModel,
    action: ApprovalAction,
    actor_id: u128,
) -> Result<Outcome, EngineError> {
    if !in_range(m) {
        Err(EngineError::InvalidState)
    } else if m.steps[cur(m)].status != StepStatus::Pending {
        Err(EngineError::AlreadyProcessed)
    } else if m.steps[cur(m)].approver_id != actor_id {
        Err(EngineError::Forbidden)
    } else {
        match action {
            ApprovalAction::Approve => if m.current_step < m.steps.len() {
                Ok(Outcome::Advanced)
            } else {
                Ok(Outcome::Completed)
            },
            ApprovalAction::Reject => Ok(Outcome::Rejected),
        }
    }
}

/// The step as it looks after `action` decided it at time `now`.
pub open spec fn decided_step(s: ApprovalStep, action: ApprovalAction, now: i64) -> ApprovalStep {
    ApprovalStep {
        status: match action {
            ApprovalAction::Approve => StepStatus::Approved,
            ApprovalAction::Reject => StepStatus::Rejected,
        },
        timestamp: Some(now),
        ..s
    }
}

/// The successor state: unchanged when the action is refused; otherwise the
/// current step is decided and the pointer advances exactly when the outcome
/// is [`Outcome::Advanced`].
pub open spec fn spec_apply(
    m: FlowModel,
    action: ApprovalAction,
    actor_id: u128,
    now: i64,
) -> FlowModel {
    match spec_decide(m, action, actor_id) {
        Err(_) => m,
        Ok(outcome) => FlowModel {
            current_step: if outcome == Outcome::Advanced {
                m.current_step + 1
            } else {
                m.current_step
            },
            steps: m.steps.update(cur(m), decided_step(m.steps[cur(m)], action, now)),
        },
    }
}

impl FlowProcess {
    /// Apply one action by `actor_id` at time `now` (Unix seconds).
    ///
    /// On success the current step is stamped and the chain advances,
    /// completes, or freezes; on any error the chain is left untouched.
    pub fn handle_action(
        &mut self,
        action: ApprovalAction,
        actor_id: u128,
        now: i64,
    ) -> (result: Result<Outcome, EngineError>)
        requires
            old(self).steps@.len() <= i32::MAX,
        ensures
            result == spec_decide(old(self)@, action, actor_id),
            final(self)@ == spec_apply(old(self)@, action, actor_id, now),
            result matches Err(_) ==> *final(self) == *old(self),
    {
        if self.current_step < 1 || self.current_step as usize > self.steps.len() {
            return Err(EngineError::InvalidState);
        }
        let idx: usize = (self.current_step - 1) as usize;
        match self.steps[idx].status {
            StepStatus::Pending => {},
            _ => {
                return Err(EngineError::AlreadyProcessed);
            },
        }
        if self.steps[idx].approver_id != actor_id {
            return Err(EngineError::Forbidden);
        }
        let outcome = match action {
            ApprovalAction::Approve => {
                let step = &mut self.steps[idx];
                step.status = StepStatus::Approved;
                step.timestamp = Some(now);
                if idx + 1 < self.steps.len() {
                    self.current_step = self.current_step + 1;
                    Outcome::Advanced
                } else {
                    Outcome::Completed
                }
            },
            ApprovalAction::Reject => {
                let step = &mut self.steps[idx];
                step.status = StepStatus::Rejected;
                step.timestamp = Some(now);
                Outcome::Rejected
            },
        };
        proof {
            assert(self@ =~= spec_apply(old(self)@, action, actor_id, now));
        }
        Ok(outcome)
    }

    /// A deep copy of the chain, proved to have the same value.  Seeding a
    /// request from a template copies the template's chain with this, so the
    /// two share nothing afterwards.
    pub fn duplicate(&self) -> (r: FlowProcess)
        ensures
            r@ == self@,
    {
        let mut steps: Vec<ApprovalStep> = Vec::new();
        let mut i: usize = 0;
        while i < self.steps.len()
            invariant
                i <= self.steps@.len(),
                steps@ =~= self.steps@.subrange(0, i as int),
            decreases self.steps@.len() - i,
        {
            let s = &self.steps[i];
            steps.push(
                ApprovalStep {
                    seq: s.seq,
                    name: s.name.clone(),
                    approver_id: s.approver_id,
                    status: s.status,
                    timestamp: s.timestamp,
                },
            );
            i = i + 1;
        }
        proof {
            assert(steps@ =~= self.steps@);
        }
        FlowProcess { current_step: self.current_step, steps }
    }
}

} // verus!
