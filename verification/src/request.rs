//! Request-level bookkeeping around the engine.
//!
//! An [`ApprovalRequest`] owns one [`FlowProcess`] exclusively.  Its overall
//! status is derived from the outcome the engine reports, and every change
//! yields one [`LogEntry`] for the caller to append to the audit log.
//! [`ApprovalRequest::process_action`] ties the three together: it lets the
//! engine decide, derives the new overall status, and hands back the record
//! to log — or reports the engine's error with the request untouched.

use vstd::prelude::*;
use vstd::string::StringExecFns;

use crate::flow::ApprovalAction;
use crate::flow::EngineError;
use crate::flow::FlowModel;
use crate::flow::FlowProcess;
use crate::flow::Outcome;
use crate::flow::spec_apply;
use crate::flow::spec_decide;

verus! {

/// The overall status of a request, derivable from its chain.
#[derive(Clone, Copy, Debug, PartialEq, Eq, Structural)]
pub enum RequestStatus {
    Pending,
    Approved,
    Rejected,
}

/// The kind of an audit-log record.
#[derive(Clone, Copy, Debug, PartialEq, Eq, Structural)]
pub enum LogAction {
    Created,
    Approved,
    Rejected,
    Comment,
}

/// One append-only audit record: who acted, what they did, and the optional
/// text that goes with it (a rejection reason, a comment).  The caller
/// persists it against the request it belongs to.
#[derive(Clone, Debug, PartialEq, Eq)]
pub struct LogEntry {
    pub actor_id: u128,
    pub action: LogAction,
    pub content: Option<String>,
}

/// A request moving through its approval chain.  Identities are 128-bit user
/// ids; the free-form form data of a request is carried by the caller, not by
/// the engine.
#[derive(Clone, Debug, PartialEq, Eq)]
pub struct ApprovalRequest {
    pub id: u128,
    pub title: String,
    pub requester_id: u128,
    pub status: RequestStatus,
    pub flow_process: FlowProcess,
}

/// A reusable template: a named workflow snapshot that seeds new requests.
/// The form schema that goes with it is free-form and carried by the caller.
#[derive(Clone, Debug, PartialEq, Eq)]
pub struct Template {
    pub id: u128,
    pub name: String,
    pub description: Option<String>,
    pub workflow_snapshot: FlowProcess,
}

/// Body of a rejection: the reason recorded in the audit log.
#[derive(Clone, Debug, PartialEq, Eq)]
pub struct RejectDto {
    pub reason: String,
}

/// Body of a comment on a request.
#[derive(Clone, Debug, PartialEq, Eq)]
pub struct CommentDto {
    pub content: String,
}

/// The overall status a request takes after the engine reports `outcome`:
/// completion approves it, rejection rejects it, and a plain advance leaves
/// the status as it was.
pub open spec fn spec_outcome_status(outcome: Outcome, current: RequestStatus) -> RequestStatus {
    match outcome {
        Outcome::Advanced => current,
        Outcome::Completed => RequestStatus::Approved,
        Outcome::Rejected => RequestStatus::Rejected,
    }
}

/// Executable form of [`spec_outcome_status`].
pub fn outcome_status(outcome: Outcome, current: RequestStatus) -> (r: RequestStatus)
    ensures
        r == spec_outcome_status(outcome, current),
{
    match outcome {
        Outcome::Advanced => current,
        Outcome::Completed => RequestStatus::Approved,
        Outcome::Rejected => RequestStatus::Rejected,
    }
}

/// On an accepted approval the overall status follows the engine's outcome
/// alone: the request becomes approved exactly when the chain completes —
/// that is, when the pointer stood on the last step — and is otherwise left
/// as it was, so a pending request stays pending while the chain merely
/// advances.
pub proof fn lemma_approve_status_derivation(m: FlowModel, actor_id: u128, status: RequestStatus)
    requires
        spec_decide(m, ApprovalAction::Approve, actor_id) is Ok,
    ensures
        spec_decide(m, ApprovalAction::Approve, actor_id) == Ok::<Outcome, EngineError>(
            Outcome::Completed,
        ) <==> m.current_step == m.steps.len(),
        spec_decide(m, ApprovalAction::Approve, actor_id) matches Ok(outcome)
            ==> spec_outcome_status(outcome, status) == (if m.current_step == m.steps.len() {
            RequestStatus::Approved
        } else {
            status
        }),
{
}

/// The audit-log kind an action is recorded under.
pub open spec fn spec_log_action_of(action: ApprovalAction) -> LogAction {
    match action {
        ApprovalAction::Approve => LogAction::Approved,
        ApprovalAction::Reject => LogAction::Rejected,
    }
}

/// Executable form of [`spec_log_action_of`].
pub fn log_action_of(action: ApprovalAction) -> (r: LogAction)
    ensures
        r == spec_log_action_of(action),
{
    match action {
        ApprovalAction::Approve => LogAction::Approved,
        ApprovalAction::Reject => LogAction::Rejected,
    }
}

/// The wire label of an audit-log kind, as the log store records it.
pub fn log_action_label(action: LogAction) -> (r: String)
    ensures
        action == LogAction::Created ==> r@ == "CREATED"@,
        action == LogAction::Approved ==> r@ == "APPROVED"@,
        action == LogAction::Rejected ==> r@ == "REJECTED"@,
        action == LogAction::Comment ==> r@ == "COMMENT"@,
{
    match action {
        LogAction::Created => "CREATED".to_owned(),
        LogAction::Approved => "APPROVED".to_owned(),
        LogAction::Rejected => "REJECTED".to_owned(),
        LogAction::Comment => "COMMENT".to_owned(),
    }
}

/// The audit record appended when a request is created.
pub fn created_record(actor_id: u128) -> (r: LogEntry)
    ensures
        r == (LogEntry { actor_id, action: LogAction::Created, content: None::<String> }),
{
    LogEntry { actor_id, action: LogAction::Created, content: None }
}

/// The audit record appended for a comment by `actor_id`.
pub fn comment_record(actor_id: u128, content: String) -> (r: LogEntry)
    ensures
        r == (LogEntry { actor_id, action: LogAction::Comment, content: Some(content) }),
{
    LogEntry { actor_id, action: LogAction::Comment, content: Some(content) }
}

pub uninterp spec fn minute_text_of(secs: i64) -> Seq<char>;

/// Timestamps that certainly render as a date: from the Unix epoch through
/// the last second of year 9999.  Chrono reaches further in both directions;
/// this range is all a real clock produces.
pub open spec fn minute_renders(secs: i64) -> bool {
    0 <= secs < 253402300800
}

/// Relies on chrono's `DateTime::from_timestamp` and `format`: rendering a
/// Unix timestamp as a UTC minute (`%Y-%m-%d %H:%M`) depends on the timestamp
/// alone.  `from_timestamp` refuses only timestamps whose day count falls
/// outside chrono's calendar, far beyond [`minute_renders`]; inside that
/// range it always answers.
#[verifier::external_body]
fn format_minute(secs: i64) -> (r: Option<String>)
    ensures
        r matches Some(s) ==> s@ == minute_text_of(secs),
        minute_renders(secs) ==> r is Some,
{
    let date = chrono::DateTime::<chrono::Utc>::from_timestamp(secs, 0)?;
    Some(date.format("%Y-%m-%d %H:%M").to_string())
}

impl ApprovalRequest {
    /// A new request: overall status pending, the chain pointer at the first
    /// step, and the given chain otherwise as supplied.
    pub fn new(id: u128, title: String, requester_id: u128, flow_process: FlowProcess) -> (r:
        ApprovalRequest)
        ensures
            r.id == id,
            r.title == title,
            r.requester_id == requester_id,
            r.status == RequestStatus::Pending,
            r.flow_process.current_step == 1,
            r.flow_process.steps@ == flow_process.steps@,
    {
        let mut flow = flow_process;
        flow.current_step = 1;
        ApprovalRequest { id, title, requester_id, status: RequestStatus::Pending, flow_process: flow }
    }

    /// Seed a new request from a template: a deep copy of the template's
    /// chain with the pointer reset to the first step, overall status
    /// pending.  The title is the requested one, or else the template name
    /// followed by the request minute; only for a timestamp beyond chrono's
    /// calendar — which no real clock produces — does the date drop out and
    /// the template name stand alone.
    pub fn from_template(
        template: &Template,
        id: u128,
        requester_id: u128,
        title: Option<String>,
        now: i64,
    ) -> (r: ApprovalRequest)
        ensures
            r.id == id,
            r.requester_id == requester_id,
            r.status == RequestStatus::Pending,
            r.flow_process.current_step == 1,
            r.flow_process.steps@ == template.workflow_snapshot.steps@,
            title matches Some(t) ==> r.title == t,
            title is None && minute_renders(now) ==> r.title@ == template.name@ + " - "@
                + minute_text_of(now),
            title is None ==> r.title@ == template.name@ + " - "@ + minute_text_of(now)
                || r.title@ == template.name@,
    {
        let chosen = match title {
            Some(t) => t,
            None => match format_minute(now) {
                Some(date) => template.name.clone().concat(" - ").concat(date.as_str()),
                None => template.name.clone(),
            },
        };
        Self::new(id, chosen, requester_id, template.workflow_snapshot.duplicate())
    }

    /// Apply one action to this request: the engine alone decides, the
    /// overall status is derived from the outcome, and the audit record to
    /// append (the actor, the action's log kind, and `reason` as its text) is
    /// handed back.  On any engine error the request is left untouched and
    /// the error is passed through.
    pub fn process_action(
        &mut self,
        action: ApprovalAction,
        actor_id: u128,
        reason: Option<String>,
        now: i64,
    ) -> (r: Result<LogEntry, EngineError>)
        requires
            old(self).flow_process.steps@.len() <= i32::MAX,
        ensures
            spec_decide(old(self).flow_process@, action, actor_id) matches Err(e) ==> r == Err::<
                LogEntry,
                EngineError,
            >(e) && *final(self) == *old(self),
            spec_decide(old(self).flow_process@, action, actor_id) matches Ok(outcome) ==> {
                &&& r == Ok::<LogEntry, EngineError>(
                    LogEntry {
                        actor_id,
                        action: spec_log_action_of(action),
                        content: reason,
                    },
                )
                &&& final(self).flow_process@ == spec_apply(
                    old(self).flow_process@,
                    action,
                    actor_id,
                    now,
                )
                &&& final(self).status == spec_outcome_status(outcome, old(self).status)
                &&& final(self).id == old(self).id
                &&& final(self).title == old(self).title
                &&& final(self).requester_id == old(self).requester_id
            },
    {
        match self.flow_process.handle_action(action, actor_id, now) {
            Ok(outcome) => {
                self.status = outcome_status(outcome, self.status);
                Ok(LogEntry { actor_id, action: log_action_of(action), content: reason })
            },
            Err(e) => Err(e),
        }
    }
}

} // verus!
