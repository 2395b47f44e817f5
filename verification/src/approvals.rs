//! Deciding requests: approving and rejecting leave requests, expense claims
//! and travel requests, with their workflow instances, the leave balance,
//! the outbox event of an approved leave and the requester's notification.
use vstd::prelude::*;

use crate::calendar::{date_to_string, naive_date_text, valid_date, Ymd};
use crate::csv::{int_text, push_int};
use crate::decimal::{dec_normalize, dec_text, dec_to_string, normalize_spec, Dec};
use crate::error::{fails_as, not_found, validation, ErrorSpec, KabiPayError};
use crate::ids::{uuid_text, uuid_to_string};
use crate::leave::{
    consume_fits, consume_reserved_days, consumed, release_fits, release_reserved_days, released,
    reserve_fits, reserved, LeaveBalance, LeaveSubmission,
};
use crate::requests::{
    expense_approved_message, expense_rejected_message, leave_rejected_message, reason_suffix,
    travel_rejected_message,
};
use crate::text::{owned, push_str, str_eq};
use crate::workflow::{
    advance_on_approve, approvable_step, approval_current_step, cancel_on_reject, require_step_found, check_pending, in_progress,
    instance_missing_text, not_in_progress_text, not_pending_text, RejectEffect, RequestKind,
    WorkflowInstanceState,
};

verus! {

// ----------------------------------------------------------------------------
// Routing an approval through the workflow
// ----------------------------------------------------------------------------

/// Where an approval goes.
#[derive(Clone, Debug)]
pub enum ApprovalRoute {
    /// An intermediate step: the instance moves to the next step and the
    /// request stays `PENDING`.
    Advance(WorkflowInstanceState),
    /// Final approval; under a workflow, the instance is completed.
    Finalize(Option<WorkflowInstanceState>),
}

/// Why an approval under a workflow cannot act on the instance, if it cannot.
pub open spec fn approval_step_error(kind: RequestKind, inst: Option<WorkflowInstanceState>) -> Option<
    Seq<char>,
> {
    match inst {
        None => Some(instance_missing_text(kind)),
        Some(s) => if !in_progress(s) {
            Some(not_in_progress_text(kind))
        } else if s.current_step_id is None {
            Some("workflow instance has no current step"@)
        } else {
            None
        },
    }
}

/// What an approval does to the workflow: without one it is final; with one
/// (`instance` is `None` when its row is not found) the instance must be in
/// progress at a step that exists (`step_found`); with a later step
/// (`next_step`, by sequence order) it moves there, else the instance is
/// completed and the approval is final.
pub fn route_approval(
    kind: RequestKind,
    has_workflow: bool,
    instance: &Option<WorkflowInstanceState>,
    step_found: bool,
    next_step: Option<u128>,
) -> (r: Result<ApprovalRoute, KabiPayError>)
    requires
        kind != RequestKind::TravelRequest,
    ensures
        !has_workflow ==> r matches Ok(ApprovalRoute::Finalize(None)),
        has_workflow ==> match approval_step_error(kind, *instance) {
            Some(m) => fails_as(r, ErrorSpec::Validation(m)),
            None => if !step_found {
                fails_as(r, ErrorSpec::Validation("workflow step not found"@))
            } else {
                match next_step {
                    Some(n) => r matches Ok(ApprovalRoute::Advance(s)) && s.status@ == "IN_PROGRESS"@
                        && s.current_step_id == Some(n),
                    None => r matches Ok(ApprovalRoute::Finalize(Some(s))) && s.status@
                        == "COMPLETED"@ && s.current_step_id is None,
                }
            },
        },
{
    if !has_workflow {
        return Ok(ApprovalRoute::Finalize(None));
    }
    let _step = approval_current_step(kind, instance)?;
    require_step_found(step_found)?;
    let inst = match instance {
        Some(i) => i,
        None => {
            return Err(validation("workflow step not found"));
        },
    };
    let (next, is_final) = advance_on_approve(inst, next_step);
    if is_final {
        Ok(ApprovalRoute::Finalize(Some(next)))
    } else {
        Ok(ApprovalRoute::Advance(next))
    }
}

/// The instance a request gets on submission when its tenant has an active
/// workflow whose first step (by sequence order) is `first_step`.
pub fn attach_workflow(first_step: Option<u128>) -> (r: Option<WorkflowInstanceState>)
    ensures
        first_step is None ==> r is None,
        first_step matches Some(s) ==> (r matches Some(i) && i.status@ == "IN_PROGRESS"@
            && i.current_step_id == Some(s)),
{
    match first_step {
        None => None,
        Some(s) => Some(WorkflowInstanceState { status: owned("IN_PROGRESS"), current_step_id: Some(s) }),
    }
}

/// A freshly attached workflow can be approved at its first step.
pub proof fn law_attached_workflow_is_approvable(i: WorkflowInstanceState, first_step: u128)
    requires
        i.status@ == "IN_PROGRESS"@,
        i.current_step_id == Some(first_step),
    ensures
        approvable_step(Some(i)) == Some(first_step),
        approval_step_error(RequestKind::LeaveRequest, Some(i)) is None,
        approval_step_error(RequestKind::Expense, Some(i)) is None,
{
}

// ----------------------------------------------------------------------------
// Workflow actions and outbox events
// ----------------------------------------------------------------------------

/// A `workflow_action` row: who acted on which step of an instance, and how.
#[derive(Clone, Debug)]
pub struct WorkflowAction {
    pub step_id: u128,
    pub performed_by: u128,
    pub action: String,
    pub remarks: Option<String>,
}

/// `a` records an approval by `approver` at the step the instance is at.
pub open spec fn approve_action_of(
    a: WorkflowAction,
    inst: Option<WorkflowInstanceState>,
    approver: u128,
) -> bool {
    &&& approvable_step(inst) == Some(a.step_id)
    &&& a.performed_by == approver
    &&& a.action@ == "APPROVE"@
    &&& a.remarks is None
}

/// The `APPROVE` action of `approver` at the instance's current step, when
/// the instance is in progress at a step.
fn approve_action(inst: &Option<WorkflowInstanceState>, approver: u128) -> (r: Option<
    WorkflowAction,
>)
    ensures
        approvable_step(*inst) is None ==> r is None,
        approvable_step(*inst) is Some ==> (r matches Some(a) && approve_action_of(
            a,
            *inst,
            approver,
        )),
{
    match inst {
        Some(i) => {
            if !str_eq(i.status.as_str(), "IN_PROGRESS") {
                return None;
            }
            match i.current_step_id {
                Some(st) => Some(
                    WorkflowAction {
                        step_id: st,
                        performed_by: approver,
                        action: owned("APPROVE"),
                        remarks: None,
                    },
                ),
                None => None,
            }
        },
        None => None,
    }
}

/// An `outbox_event` row for other services to consume.
#[derive(Clone, Debug)]
pub struct OutboxEvent {
    pub aggregate_type: String,
    pub aggregate_id: u128,
    pub event_type: String,
    pub payload: String,
    /// `PENDING` until a consumer processes it.
    pub status: String,
}

// ----------------------------------------------------------------------------
// Leave requests
// ----------------------------------------------------------------------------

/// A leave request row as the decisions read and write it.
#[derive(Clone, Debug)]
pub struct LeaveRequestRow {
    pub id: u128,
    pub employee_id: u128,
    pub leave_type_id: u128,
    pub from_date: Ymd,
    pub to_date: Ymd,
    pub days_requested: Dec,
    pub is_half_day: bool,
    pub status: String,
    pub rejection_reason: Option<String>,
    pub approved_by: Option<u128>,
    pub workflow_instance_id: Option<u128>,
}

/// The id text of a missing leave balance: `{employee_id}-{year}`.
pub open spec fn balance_key(employee_id: u128, year: int) -> Seq<char> {
    uuid_text(employee_id) + "-"@ + int_text(year)
}

fn leave_balance_missing(employee_id: u128, year: i32) -> (e: KabiPayError)
    ensures
        fails_as(Err::<(), KabiPayError>(e), ErrorSpec::NotFound("leave_balance"@, balance_key(employee_id, year as int))),
{
    let mut id = uuid_to_string(employee_id);
    push_str(&mut id, "-");
    push_int(&mut id, year as i64);
    not_found("leave_balance", id)
}

/// `true` / `false` as JSON.
pub open spec fn json_bool(b: bool) -> Seq<char> {
    if b {
        "true"@
    } else {
        "false"@
    }
}

/// The payload of the `leave_request.approved` outbox event: a JSON object
/// with its keys in order, written compactly.
pub open spec fn leave_approved_payload(m: LeaveRequestRow, approver_user_id: u128) -> Seq<char> {
    "{\"approver_user_id\":\""@ + uuid_text(approver_user_id) + "\",\"days_requested\":\""@
        + dec_text(normalize_spec(m.days_requested)) + "\",\"employee_id\":\""@ + uuid_text(
        m.employee_id,
    ) + "\",\"from_date\":\""@ + naive_date_text(m.from_date) + "\",\"is_half_day\":"@ + json_bool(
        m.is_half_day,
    ) + ",\"leave_request_id\":\""@ + uuid_text(m.id) + "\",\"leave_type_id\":\""@ + uuid_text(
        m.leave_type_id,
    ) + "\",\"schema_version\":1,\"status\":\"APPROVED\",\"to_date\":\""@ + naive_date_text(
        m.to_date,
    ) + "\"}"@
}

fn leave_payload(m: &LeaveRequestRow, approver_user_id: u128) -> (r: String)
    requires
        m.days_requested.wf(),
        valid_date(m.from_date),
        valid_date(m.to_date),
    ensures
        r@ == leave_approved_payload(*m, approver_user_id),
{
    let mut s = owned("{\"approver_user_id\":\"");
    push_str(&mut s, uuid_to_string(approver_user_id).as_str());
    push_str(&mut s, "\",\"days_requested\":\"");
    push_str(&mut s, dec_to_string(dec_normalize(m.days_requested)).as_str());
    push_str(&mut s, "\",\"employee_id\":\"");
    push_str(&mut s, uuid_to_string(m.employee_id).as_str());
    push_str(&mut s, "\",\"from_date\":\"");
    push_str(&mut s, date_to_string(m.from_date).as_str());
    push_str(&mut s, "\",\"is_half_day\":");
    if m.is_half_day {
        push_str(&mut s, "true");
    } else {
        push_str(&mut s, "false");
    }
    push_str(&mut s, ",\"leave_request_id\":\"");
    push_str(&mut s, uuid_to_string(m.id).as_str());
    push_str(&mut s, "\",\"leave_type_id\":\"");
    push_str(&mut s, uuid_to_string(m.leave_type_id).as_str());
    push_str(&mut s, "\",\"schema_version\":1,\"status\":\"APPROVED\",\"to_date\":\"");
    push_str(&mut s, date_to_string(m.to_date).as_str());
    push_str(&mut s, "\"}");
    s
}

/// What approving a leave request writes.
#[derive(Clone, Debug)]
pub enum LeaveApproval {
    /// The workflow moved to a later step: the new instance state and the
    /// approval recorded at the step it left.
    Advanced(WorkflowInstanceState, WorkflowAction),
    /// Final approval: the request row, the balance after moving the days
    /// from pending to used, the completed instance and the approval at its
    /// last step (under a workflow), the outbox event, and the notification
    /// sent to the requester.
    Approved {
        request: LeaveRequestRow,
        balance: LeaveBalance,
        instance: Option<WorkflowInstanceState>,
        action: Option<WorkflowAction>,
        outbox: OutboxEvent,
        message: String,
    },
}

/// The first reason a leave approval fails, if any.
pub open spec fn leave_approval_error(
    request_id: u128,
    row: Option<LeaveRequestRow>,
    instance: Option<WorkflowInstanceState>,
    step_found: bool,
    next_step: Option<u128>,
    balance: Option<LeaveBalance>,
) -> Option<ErrorSpec> {
    match row {
        None => Some(ErrorSpec::NotFound("leave_request"@, uuid_text(request_id))),
        Some(m) => if m.status@ != "PENDING"@ {
            Some(ErrorSpec::Validation(not_pending_text(RequestKind::LeaveRequest)))
        } else if m.workflow_instance_id is Some && approval_step_error(
            RequestKind::LeaveRequest,
            instance,
        ) is Some {
            Some(
                ErrorSpec::Validation(
                    approval_step_error(RequestKind::LeaveRequest, instance)->0,
                ),
            )
        } else if m.workflow_instance_id is Some && !step_found {
            Some(ErrorSpec::Validation("workflow step not found"@))
        } else if m.workflow_instance_id is Some && next_step is Some {
            None
        } else {
            match balance {
                None => Some(
                    ErrorSpec::NotFound(
                        "leave_balance"@,
                        balance_key(m.employee_id, m.from_date.year as int),
                    ),
                ),
                Some(b) => if b.pending_days.units() - m.days_requested.units() < 0 {
                    Some(ErrorSpec::Validation("leave balance pending mismatch — cannot approve"@))
                } else {
                    None
                },
            }
        },
    }
}

/// What a leave request's inputs must satisfy for its decisions to be
/// computed: amounts within range and real dates.
pub open spec fn leave_inputs_ok(row: Option<LeaveRequestRow>, balance: Option<LeaveBalance>) -> bool {
    &&& row matches Some(m) ==> m.days_requested.wf() && valid_date(m.from_date) && valid_date(
        m.to_date,
    )
    &&& balance matches Some(b) ==> b.wf()
    &&& row matches Some(m) ==> (balance matches Some(b) ==> consume_fits(b, m.days_requested)
        && release_fits(b, m.days_requested))
}

/// Approves a leave request (`row` is the request, `None` when not found):
/// it must be `PENDING`; under a workflow the approval is recorded at the
/// current step and the instance moves to the next step, or is completed at
/// the last one; the final approval marks the request `APPROVED` by the
/// approver (no rejection reason), moves its days from pending to used on
/// the year's balance (`balance`, `None` when missing) and emits a
/// `PENDING` `leave_request.approved` outbox event for the request; the
/// requester is notified that the leave was approved.
pub fn approve_leave_request(
    request_id: u128,
    row: Option<LeaveRequestRow>,
    instance: Option<WorkflowInstanceState>,
    step_found: bool,
    next_step: Option<u128>,
    balance: Option<LeaveBalance>,
    approver_user_id: u128,
) -> (r: Result<LeaveApproval, KabiPayError>)
    requires
        leave_inputs_ok(row, balance),
    ensures
        match leave_approval_error(request_id, row, instance, step_found, next_step, balance) {
            Some(e) => fails_as(r, e),
            None => r is Ok,
        },
        r matches Ok(LeaveApproval::Advanced(s, a)) ==> row->0.workflow_instance_id is Some
            && next_step is Some && s.status@ == "IN_PROGRESS"@ && s.current_step_id == next_step
            && approve_action_of(a, instance, approver_user_id),
        r matches Ok(
            LeaveApproval::Approved { request, balance: nb, instance: inst, action, outbox, message },
        ) ==> {
            let m = row->0;
            &&& (m.workflow_instance_id is None || next_step is None)
            &&& request == (LeaveRequestRow {
                status: request.status,
                rejection_reason: None,
                approved_by: Some(approver_user_id),
                ..m
            })
            &&& request.status@ == "APPROVED"@
            &&& nb == consumed(balance->0, m.days_requested)
            &&& (m.workflow_instance_id is None ==> inst is None)
            &&& (m.workflow_instance_id is Some ==> (inst matches Some(s) && s.status@
                == "COMPLETED"@ && s.current_step_id is None))
            &&& (m.workflow_instance_id is None ==> action is None)
            &&& (m.workflow_instance_id is Some ==> (action matches Some(a) && approve_action_of(
                a,
                instance,
                approver_user_id,
            )))
            &&& outbox.aggregate_type@ == "leave_request"@
            &&& outbox.aggregate_id == request_id
            &&& outbox.event_type@ == "leave_request.approved"@
            &&& outbox.payload@ == leave_approved_payload(m, approver_user_id)
            &&& outbox.status@ == "PENDING"@
            &&& message@ == "Your leave request was approved."@
        },
{
    let m = match row {
        None => {
            return Err(not_found("leave_request", uuid_to_string(request_id)));
        },
        Some(m) => m,
    };
    check_pending(RequestKind::LeaveRequest, m.status.as_str())?;
    let route = route_approval(
        RequestKind::LeaveRequest,
        m.workflow_instance_id.is_some(),
        &instance,
        step_found,
        next_step,
    )?;
    let action = if m.workflow_instance_id.is_some() {
        approve_action(&instance, approver_user_id)
    } else {
        None
    };
    let inst = match route {
        ApprovalRoute::Advance(s) => {
            return match action {
                Some(a) => Ok(LeaveApproval::Advanced(s, a)),
                None => Err(validation("workflow step not found")),
            };
        },
        ApprovalRoute::Finalize(i) => i,
    };
    let b = match balance {
        None => {
            return Err(leave_balance_missing(m.employee_id, m.from_date.year));
        },
        Some(b) => b,
    };
    let nb = consume_reserved_days(&b, m.days_requested)?;
    let payload = leave_payload(&m, approver_user_id);
    let request = LeaveRequestRow {
        status: owned("APPROVED"),
        rejection_reason: None,
        approved_by: Some(approver_user_id),
        ..m
    };
    let outbox = OutboxEvent {
        aggregate_type: owned("leave_request"),
        aggregate_id: request_id,
        event_type: owned("leave_request.approved"),
        payload,
        status: owned("PENDING"),
    };
    Ok(
        LeaveApproval::Approved {
            request,
            balance: nb,
            instance: inst,
            action,
            outbox,
            message: owned("Your leave request was approved."),
        },
    )
}

/// Rejecting a request right after submitting it undoes the submission:
/// when `submit_leave_request` accepted `sub` over balance `b` (`sub`'s
/// balance is `b` with the days reserved, its row is the new `PENDING`
/// request) and `m` is that request as stored, rejecting `m` against the
/// balance the submission left succeeds (when no days were pending below
/// zero before); the available and pending days
/// return to those of `b`, the other columns stay, and the workflow
/// instance the submission attached, if any, is in progress, so the
/// rejection cancels it.
pub proof fn law_reject_after_submit(
    b: LeaveBalance,
    sub: LeaveSubmission,
    m: LeaveRequestRow,
    request_id: u128,
)
    requires
        b.wf(),
        sub.days.wf(),
        reserve_fits(b, sub.days),
        b.pending_days.units() >= 0,
        sub.balance == reserved(b, sub.days),
        sub.request.days_requested == sub.days,
        sub.request.status@ == "PENDING"@,
        sub.request.workflow_instance matches Some(i) ==> i.status@ == "IN_PROGRESS"@,
        release_fits(sub.balance, sub.days),
        m.employee_id == sub.request.employee_id,
        m.leave_type_id == sub.request.leave_type_id,
        m.days_requested == sub.request.days_requested,
        m.status@ == sub.request.status@,
    ensures
        leave_rejection_error(request_id, Some(m), Some(sub.balance)) is None,
        released(sub.balance, m.days_requested).balance_days.units() == b.balance_days.units(),
        released(sub.balance, m.days_requested).pending_days.units() == b.pending_days.units(),
        released(sub.balance, m.days_requested).used_days == b.used_days,
        released(sub.balance, m.days_requested).entitled_days == b.entitled_days,
        released(sub.balance, m.days_requested).carried_forward_days == b.carried_forward_days,
        sub.request.workflow_instance matches Some(i) ==> in_progress(i),
{
    crate::leave::law_reject_undoes_submit(b, sub.days);
    crate::decimal::lemma_sum_units(b.pending_days, sub.days);
    assert(sub.balance.pending_days.units() - m.days_requested.units() >= 0);
}

/// What rejecting a leave request writes.
#[derive(Clone, Debug)]
pub struct LeaveRejection {
    /// The request, `REJECTED` with the reason and no approver.
    pub request: LeaveRequestRow,
    /// The balance with the request's days released.
    pub balance: LeaveBalance,
    /// The cancellation of an in-progress workflow instance.
    pub workflow: Option<RejectEffect>,
    /// The notification sent to the requester.
    pub message: String,
}

/// The first reason a leave rejection fails, if any.
pub open spec fn leave_rejection_error(
    request_id: u128,
    row: Option<LeaveRequestRow>,
    balance: Option<LeaveBalance>,
) -> Option<ErrorSpec> {
    match row {
        None => Some(ErrorSpec::NotFound("leave_request"@, uuid_text(request_id))),
        Some(m) => if m.status@ != "PENDING"@ {
            Some(ErrorSpec::Validation(not_pending_text(RequestKind::LeaveRequest)))
        } else {
            match balance {
                None => Some(
                    ErrorSpec::NotFound(
                        "leave_balance"@,
                        balance_key(m.employee_id, m.from_date.year as int),
                    ),
                ),
                Some(b) => if b.pending_days.units() - m.days_requested.units() < 0 {
                    Some(ErrorSpec::Validation("leave balance pending mismatch — cannot reject"@))
                } else {
                    None
                },
            }
        },
    }
}

/// Rejects a `PENDING` leave request: cancels its workflow instance when in
/// progress, gives its days back to the balance, stores the reason and
/// clears the approver.
pub fn reject_leave_request(
    request_id: u128,
    row: Option<LeaveRequestRow>,
    instance: Option<WorkflowInstanceState>,
    balance: Option<LeaveBalance>,
    rejection_reason: Option<String>,
) -> (r: Result<LeaveRejection, KabiPayError>)
    requires
        leave_inputs_ok(row, balance),
    ensures
        match leave_rejection_error(request_id, row, balance) {
            Some(e) => fails_as(r, e),
            None => r is Ok,
        },
        r matches Ok(x) ==> {
            let m = row->0;
            &&& x.request == (LeaveRequestRow {
                status: x.request.status,
                rejection_reason: rejection_reason,
                approved_by: None,
                ..m
            })
            &&& x.request.status@ == "REJECTED"@
            &&& x.balance == released(balance->0, m.days_requested)
            &&& (m.workflow_instance_id is None ==> x.workflow is None)
            &&& (m.workflow_instance_id is Some ==> match instance {
                Some(s) => if in_progress(s) {
                    x.workflow matches Some(e) && e.cancelled.status@ == "CANCELLED"@
                        && e.cancelled.current_step_id == s.current_step_id && e.action_step_id
                        == s.current_step_id
                } else {
                    x.workflow is None
                },
                None => x.workflow is None,
            })
            &&& x.message@ == match rejection_reason {
                Some(s) => if s@.len() > 0 {
                    "Your leave was rejected. Reason: "@ + s@
                } else {
                    "Your leave request was rejected."@
                },
                None => "Your leave request was rejected."@,
            }
        },
{
    let m = match row {
        None => {
            return Err(not_found("leave_request", uuid_to_string(request_id)));
        },
        Some(m) => m,
    };
    check_pending(RequestKind::LeaveRequest, m.status.as_str())?;
    let workflow = if m.workflow_instance_id.is_some() {
        cancel_on_reject(&instance)
    } else {
        None
    };
    let b = match balance {
        None => {
            return Err(leave_balance_missing(m.employee_id, m.from_date.year));
        },
        Some(b) => b,
    };
    let nb = release_reserved_days(&b, m.days_requested)?;
    let message = leave_rejected_message(&rejection_reason);
    let request = LeaveRequestRow {
        status: owned("REJECTED"),
        rejection_reason,
        approved_by: None,
        ..m
    };
    Ok(LeaveRejection { request, balance: nb, workflow, message })
}

// ----------------------------------------------------------------------------
// Expense claims
// ----------------------------------------------------------------------------

/// An expense claim row as the decisions read and write it.
#[derive(Clone, Debug)]
pub struct ExpenseRow {
    pub id: u128,
    pub employee_id: u128,
    pub title: String,
    pub status: String,
    pub rejection_reason: Option<String>,
    pub approved_by: Option<u128>,
    pub workflow_instance_id: Option<u128>,
}

/// What approving an expense claim writes.
#[derive(Clone, Debug)]
pub enum ExpenseApproval {
    /// The workflow moved to a later step: the new instance state and the
    /// approval recorded at the step it left.
    Advanced(WorkflowInstanceState, WorkflowAction),
    /// Final approval: the claim, the completed instance and the approval at
    /// its last step (under a workflow), and the notification.
    Approved {
        expense: ExpenseRow,
        instance: Option<WorkflowInstanceState>,
        action: Option<WorkflowAction>,
        message: String,
    },
}

/// The first reason an expense approval fails, if any.
pub open spec fn expense_approval_error(
    expense_id: u128,
    row: Option<ExpenseRow>,
    instance: Option<WorkflowInstanceState>,
    step_found: bool,
) -> Option<ErrorSpec> {
    match row {
        None => Some(ErrorSpec::NotFound("expense"@, uuid_text(expense_id))),
        Some(m) => if m.status@ != "PENDING"@ {
            Some(ErrorSpec::Validation(not_pending_text(RequestKind::Expense)))
        } else if m.workflow_instance_id is Some && approval_step_error(
            RequestKind::Expense,
            instance,
        ) is Some {
            Some(ErrorSpec::Validation(approval_step_error(RequestKind::Expense, instance)->0))
        } else if m.workflow_instance_id is Some && !step_found {
            Some(ErrorSpec::Validation("workflow step not found"@))
        } else {
            None
        },
    }
}

/// Approves an expense claim: like a leave request, through its workflow
/// when it has one; the final approval marks it `APPROVED` by the approver
/// with no rejection reason.
pub fn approve_expense(
    expense_id: u128,
    row: Option<ExpenseRow>,
    instance: Option<WorkflowInstanceState>,
    step_found: bool,
    next_step: Option<u128>,
    approver_user_id: u128,
) -> (r: Result<ExpenseApproval, KabiPayError>)
    ensures
        match expense_approval_error(expense_id, row, instance, step_found) {
            Some(e) => fails_as(r, e),
            None => r is Ok,
        },
        r matches Ok(ExpenseApproval::Advanced(s, a)) ==> row->0.workflow_instance_id is Some
            && next_step is Some && s.status@ == "IN_PROGRESS"@ && s.current_step_id == next_step
            && approve_action_of(a, instance, approver_user_id),
        r matches Ok(ExpenseApproval::Approved { expense, instance: inst, action, message }) ==> {
            let m = row->0;
            &&& (m.workflow_instance_id is None || next_step is None)
            &&& expense == (ExpenseRow {
                status: expense.status,
                rejection_reason: None,
                approved_by: Some(approver_user_id),
                ..m
            })
            &&& expense.status@ == "APPROVED"@
            &&& (m.workflow_instance_id is None ==> inst is None)
            &&& (m.workflow_instance_id is Some ==> (inst matches Some(s) && s.status@
                == "COMPLETED"@ && s.current_step_id is None))
            &&& (m.workflow_instance_id is None ==> action is None)
            &&& (m.workflow_instance_id is Some ==> (action matches Some(a) && approve_action_of(
                a,
                instance,
                approver_user_id,
            )))
            &&& message@ == "Your expense claim \""@ + m.title@ + "\" was approved."@
        },
{
    let m = match row {
        None => {
            return Err(not_found("expense", uuid_to_string(expense_id)));
        },
        Some(m) => m,
    };
    check_pending(RequestKind::Expense, m.status.as_str())?;
    let route = route_approval(
        RequestKind::Expense,
        m.workflow_instance_id.is_some(),
        &instance,
        step_found,
        next_step,
    )?;
    let action = if m.workflow_instance_id.is_some() {
        approve_action(&instance, approver_user_id)
    } else {
        None
    };
    let inst = match route {
        ApprovalRoute::Advance(s) => {
            return match action {
                Some(a) => Ok(ExpenseApproval::Advanced(s, a)),
                None => Err(validation("workflow step not found")),
            };
        },
        ApprovalRoute::Finalize(i) => i,
    };
    let message = expense_approved_message(m.title.as_str());
    let expense = ExpenseRow {
        status: owned("APPROVED"),
        rejection_reason: None,
        approved_by: Some(approver_user_id),
        ..m
    };
    Ok(ExpenseApproval::Approved { expense, instance: inst, action, message })
}

/// What rejecting an expense claim writes.
#[derive(Clone, Debug)]
pub struct ExpenseRejection {
    pub expense: ExpenseRow,
    pub workflow: Option<RejectEffect>,
    pub message: String,
}

/// Rejects a `PENDING` expense claim: cancels its workflow instance when in
/// progress, stores the reason and clears the approver.
pub fn reject_expense(
    expense_id: u128,
    row: Option<ExpenseRow>,
    instance: Option<WorkflowInstanceState>,
    rejection_reason: Option<String>,
) -> (r: Result<ExpenseRejection, KabiPayError>)
    ensures
        row is None ==> fails_as(r, ErrorSpec::NotFound("expense"@, uuid_text(expense_id))),
        row matches Some(m) ==> (m.status@ != "PENDING"@ ==> fails_as(
            r,
            ErrorSpec::Validation(not_pending_text(RequestKind::Expense)),
        )),
        r is Ok <==> (row matches Some(m) && m.status@ == "PENDING"@),
        r matches Ok(x) ==> {
            let m = row->0;
            &&& x.expense == (ExpenseRow {
                status: x.expense.status,
                rejection_reason: rejection_reason,
                approved_by: None,
                ..m
            })
            &&& x.expense.status@ == "REJECTED"@
            &&& (m.workflow_instance_id is None ==> x.workflow is None)
            &&& (m.workflow_instance_id is Some ==> match instance {
                Some(s) => if in_progress(s) {
                    x.workflow matches Some(e) && e.cancelled.status@ == "CANCELLED"@
                        && e.cancelled.current_step_id == s.current_step_id && e.action_step_id
                        == s.current_step_id
                } else {
                    x.workflow is None
                },
                None => x.workflow is None,
            })
            &&& x.message@ == "Your expense claim \""@ + m.title@ + "\" was rejected."@
                + reason_suffix(rejection_reason)
        },
{
    let m = match row {
        None => {
            return Err(not_found("expense", uuid_to_string(expense_id)));
        },
        Some(m) => m,
    };
    check_pending(RequestKind::Expense, m.status.as_str())?;
    let workflow = if m.workflow_instance_id.is_some() {
        cancel_on_reject(&instance)
    } else {
        None
    };
    let message = expense_rejected_message(m.title.as_str(), &rejection_reason);
    let expense = ExpenseRow {
        status: owned("REJECTED"),
        rejection_reason,
        approved_by: None,
        ..m
    };
    Ok(ExpenseRejection { expense, workflow, message })
}

// ----------------------------------------------------------------------------
// Travel requests
// ----------------------------------------------------------------------------

/// A travel request row as the decisions read and write it.
#[derive(Clone, Debug)]
pub struct TravelRequestRow {
    pub id: u128,
    pub employee_id: u128,
    pub status: String,
    pub rejection_reason: Option<String>,
    pub approved_by: Option<u128>,
    pub rejected_by: Option<u128>,
}

/// Approves a `PENDING` travel request: `APPROVED` by the approver, no
/// rejection and no rejector. Returns the row and the notification text.
pub fn approve_travel_request(
    travel_request_id: u128,
    row: Option<TravelRequestRow>,
    approver_user_id: u128,
) -> (r: Result<(TravelRequestRow, String), KabiPayError>)
    ensures
        row is None ==> fails_as(
            r,
            ErrorSpec::NotFound("travel_request"@, uuid_text(travel_request_id)),
        ),
        row matches Some(m) ==> (m.status@ != "PENDING"@ ==> fails_as(
            r,
            ErrorSpec::Validation(not_pending_text(RequestKind::TravelRequest)),
        )),
        r is Ok <==> (row matches Some(m) && m.status@ == "PENDING"@),
        r matches Ok(x) ==> {
            &&& x.0 == (TravelRequestRow {
                status: x.0.status,
                rejection_reason: None,
                approved_by: Some(approver_user_id),
                rejected_by: None,
                ..row->0
            })
            &&& x.0.status@ == "APPROVED"@
            &&& x.1@ == "Your travel request was approved."@
        },
{
    let m = match row {
        None => {
            return Err(not_found("travel_request", uuid_to_string(travel_request_id)));
        },
        Some(m) => m,
    };
    check_pending(RequestKind::TravelRequest, m.status.as_str())?;
    let out = TravelRequestRow {
        status: owned("APPROVED"),
        rejection_reason: None,
        approved_by: Some(approver_user_id),
        rejected_by: None,
        ..m
    };
    Ok((out, owned("Your travel request was approved.")))
}

/// Rejects a `PENDING` travel request: `REJECTED` by the rejector with the
/// reason, no approver. Returns the row and the notification text.
pub fn reject_travel_request(
    travel_request_id: u128,
    row: Option<TravelRequestRow>,
    rejector_user_id: u128,
    rejection_reason: Option<String>,
) -> (r: Result<(TravelRequestRow, String), KabiPayError>)
    ensures
        row is None ==> fails_as(
            r,
            ErrorSpec::NotFound("travel_request"@, uuid_text(travel_request_id)),
        ),
        row matches Some(m) ==> (m.status@ != "PENDING"@ ==> fails_as(
            r,
            ErrorSpec::Validation(not_pending_text(RequestKind::TravelRequest)),
        )),
        r is Ok <==> (row matches Some(m) && m.status@ == "PENDING"@),
        r matches Ok(x) ==> {
            &&& x.0 == (TravelRequestRow {
                status: x.0.status,
                rejection_reason: rejection_reason,
                approved_by: None,
                rejected_by: Some(rejector_user_id),
                ..row->0
            })
            &&& x.0.status@ == "REJECTED"@
            &&& x.1@ == "Your travel request was rejected."@ + reason_suffix(rejection_reason)
        },
{
    let m = match row {
        None => {
            return Err(not_found("travel_request", uuid_to_string(travel_request_id)));
        },
        Some(m) => m,
    };
    check_pending(RequestKind::TravelRequest, m.status.as_str())?;
    let message = travel_rejected_message(&rejection_reason);
    let out = TravelRequestRow {
        status: owned("REJECTED"),
        rejection_reason,
        approved_by: None,
        rejected_by: Some(rejector_user_id),
        ..m
    };
    Ok((out, message))
}

} // verus!
