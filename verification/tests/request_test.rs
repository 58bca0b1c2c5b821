use approval_flow::flow::ApprovalAction;
use approval_flow::flow::ApprovalStep;
use approval_flow::flow::EngineError;
use approval_flow::flow::FlowProcess;
use approval_flow::flow::Outcome;
use approval_flow::flow::StepStatus;
use approval_flow::request::ApprovalRequest;
use approval_flow::request::LogAction;
use approval_flow::request::LogEntry;
use approval_flow::request::RequestStatus;
use approval_flow::request::Template;
use approval_flow::request::comment_record;
use approval_flow::request::created_record;
use approval_flow::request::log_action_label;
use approval_flow::request::outcome_status;

const ALICE: u128 = 0xA11CE;
const BOB: u128 = 0xB0B;
const REQUESTER: u128 = 7;

fn step(seq: i32, approver_id: u128) -> ApprovalStep {
    ApprovalStep {
        seq,
        name: format!("step {seq}"),
        approver_id,
        status: StepStatus::Pending,
        timestamp: None,
    }
}

fn two_step_request() -> ApprovalRequest {
    ApprovalRequest::new(
        1,
        "Purchase laptop".to_string(),
        REQUESTER,
        FlowProcess { current_step: 1, steps: vec![step(1, ALICE), step(2, BOB)] },
    )
}

#[test]
fn new_request_is_pending_at_step_one() {
    let request = two_step_request();
    assert_eq!(request.status, RequestStatus::Pending);
    assert_eq!(request.flow_process.current_step, 1);
    assert_eq!(request.title, "Purchase laptop");
    assert_eq!(request.requester_id, REQUESTER);
    assert_eq!(request.flow_process.steps.len(), 2);
}

#[test]
fn approvals_drive_request_to_approved() {
    let mut request = two_step_request();

    let entry = request.process_action(ApprovalAction::Approve, ALICE, None, 10).unwrap();
    assert_eq!(
        entry,
        LogEntry { actor_id: ALICE, action: LogAction::Approved, content: None }
    );
    assert_eq!(request.status, RequestStatus::Pending);
    assert_eq!(request.flow_process.current_step, 2);

    let entry = request.process_action(ApprovalAction::Approve, BOB, None, 20).unwrap();
    assert_eq!(entry.action, LogAction::Approved);
    assert_eq!(request.status, RequestStatus::Approved);
    assert_eq!(request.flow_process.steps[1].status, StepStatus::Approved);
}

#[test]
fn rejection_records_the_reason() {
    let mut request = two_step_request();

    let entry = request
        .process_action(ApprovalAction::Reject, ALICE, Some("too expensive".to_string()), 30)
        .unwrap();
    assert_eq!(
        entry,
        LogEntry {
            actor_id: ALICE,
            action: LogAction::Rejected,
            content: Some("too expensive".to_string()),
        }
    );
    assert_eq!(request.status, RequestStatus::Rejected);
    assert_eq!(request.flow_process.current_step, 1);
    assert_eq!(request.flow_process.steps[0].status, StepStatus::Rejected);
    assert_eq!(request.flow_process.steps[1].status, StepStatus::Pending);
}

#[test]
fn engine_error_leaves_request_untouched() {
    let mut request = two_step_request();
    let before = request.clone();

    let result = request.process_action(ApprovalAction::Approve, BOB, None, 40);
    assert_eq!(result, Err(EngineError::Forbidden));
    assert_eq!(request, before);

    request.flow_process.current_step = 9;
    let stale = request.clone();
    let result = request.process_action(ApprovalAction::Reject, ALICE, None, 41);
    assert_eq!(result, Err(EngineError::InvalidState));
    assert_eq!(request, stale);
}

#[test]
fn outcome_status_mapping_is_fixed() {
    assert_eq!(outcome_status(Outcome::Completed, RequestStatus::Pending), RequestStatus::Approved);
    assert_eq!(outcome_status(Outcome::Rejected, RequestStatus::Pending), RequestStatus::Rejected);
    assert_eq!(outcome_status(Outcome::Advanced, RequestStatus::Pending), RequestStatus::Pending);
}

#[test]
fn log_labels_match_the_store() {
    assert_eq!(log_action_label(LogAction::Created), "CREATED");
    assert_eq!(log_action_label(LogAction::Approved), "APPROVED");
    assert_eq!(log_action_label(LogAction::Rejected), "REJECTED");
    assert_eq!(log_action_label(LogAction::Comment), "COMMENT");
}

#[test]
fn bookkeeping_records_carry_the_actor() {
    assert_eq!(
        created_record(REQUESTER),
        LogEntry { actor_id: REQUESTER, action: LogAction::Created, content: None }
    );
    assert_eq!(
        comment_record(ALICE, "looks fine".to_string()),
        LogEntry { actor_id: ALICE, action: LogAction::Comment, content: Some("looks fine".to_string()) }
    );
}

fn sample_template() -> Template {
    Template {
        id: 99,
        name: "Expense".to_string(),
        description: Some("expense approval".to_string()),
        workflow_snapshot: FlowProcess {
            current_step: 2,
            steps: vec![step(1, ALICE), step(2, BOB)],
        },
    }
}

#[test]
fn template_seeds_a_fresh_request() {
    let template = sample_template();
    let request = ApprovalRequest::from_template(
        &template,
        5,
        REQUESTER,
        Some("March expenses".to_string()),
        0,
    );
    assert_eq!(request.id, 5);
    assert_eq!(request.title, "March expenses");
    assert_eq!(request.status, RequestStatus::Pending);
    assert_eq!(request.flow_process.current_step, 1);
    assert_eq!(request.flow_process.steps, template.workflow_snapshot.steps);
}

#[test]
fn template_title_defaults_to_name_and_minute() {
    let template = sample_template();
    let request = ApprovalRequest::from_template(&template, 6, REQUESTER, None, 0);
    assert_eq!(request.title, "Expense - 1970-01-01 00:00");
}

#[test]
fn default_title_renders_late_timestamps_too() {
    let template = sample_template();
    // 2099-12-31T23:59:59Z
    let request = ApprovalRequest::from_template(&template, 8, REQUESTER, None, 4_102_444_799);
    assert_eq!(request.title, "Expense - 2099-12-31 23:59");
}

#[test]
fn seeded_request_does_not_share_its_chain() {
    let template = sample_template();
    let mut request = ApprovalRequest::from_template(&template, 7, REQUESTER, None, 0);
    request.process_action(ApprovalAction::Approve, ALICE, None, 1).unwrap();
    assert_eq!(template.workflow_snapshot.steps[0].status, StepStatus::Pending);
    assert_eq!(request.flow_process.steps[0].status, StepStatus::Approved);
}
