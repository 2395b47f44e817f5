//! Multi-step approval workflows for leave requests and expense claims:
//! only `PENDING` requests are decided; an approval advances the instance
//! step by step and completes it (finalizing the request) at the last step;
//! a rejection cancels an instance that is in progress.
use vstd::prelude::*;

use crate::error::{is_validation, validation, KabiPayError};
use crate::text::{owned, str_eq};

verus! {

/// What a workflow serves; picks the wording of refusals.
#[derive(Clone, Copy, Debug, PartialEq, Eq)]
pub enum RequestKind {
    LeaveRequest,
    Expense,
    TravelRequest,
}

/// The refusal for deciding a request that is no longer `PENDING`.
pub open spec fn not_pending_text(kind: RequestKind) -> Seq<char> {
    match kind {
        RequestKind::LeaveRequest => "only PENDING leave requests can be approved or rejected"@,
        RequestKind::Expense => "only PENDING expenses can be approved or rejected"@,
        RequestKind::TravelRequest => "only PENDING travel requests can be approved or rejected"@,
    }
}

/// Only `PENDING` requests can be approved or rejected.
pub fn check_pending(kind: RequestKind, status: &str) -> (r: Result<(), KabiPayError>)
    ensures
        r is Ok <==> status@ == "PENDING"@,
        status@ != "PENDING"@ ==> is_validation(r, not_pending_text(kind)),
{
    if str_eq(status, "PENDING") {
        Ok(())
    } else {
        match kind {
            RequestKind::LeaveRequest => Err(
                validation("only PENDING leave requests can be approved or rejected"),
            ),
            RequestKind::Expense => Err(
                validation("only PENDING expenses can be approved or rejected"),
            ),
            RequestKind::TravelRequest => Err(
                validation("only PENDING travel requests can be approved or rejected"),
            ),
        }
    }
}

/// The mutable part of a `workflow_instance` row.
#[derive(Clone, Debug)]
pub struct WorkflowInstanceState {
    pub status: String,
    pub current_step_id: Option<u128>,
}

pub open spec fn in_progress(s: WorkflowInstanceState) -> bool {
    s.status@ == "IN_PROGRESS"@
}

pub open spec fn instance_missing_text(kind: RequestKind) -> Seq<char> {
    match kind {
        RequestKind::LeaveRequest => "leave_request workflow_instance not found"@,
        _ => "expense workflow_instance not found"@,
    }
}

pub open spec fn not_in_progress_text(kind: RequestKind) -> Seq<char> {
    match kind {
        RequestKind::LeaveRequest => "workflow instance is not in progress — cannot approve this leave"@,
        _ => "workflow instance is not in progress — cannot approve this expense"@,
    }
}

/// The step an approval acts on: the instance must exist, be
/// `IN_PROGRESS` and have a current step.
pub open spec fn approvable_step(inst: Option<WorkflowInstanceState>) -> Option<u128> {
    match inst {
        Some(s) => if in_progress(s) {
            s.current_step_id
        } else {
            None
        },
        None => None,
    }
}

/// Before approving under a workflow: the instance (`None` when not found)
/// must be `IN_PROGRESS` with a current step, which is returned.
pub fn approval_current_step(kind: RequestKind, inst: &Option<WorkflowInstanceState>) -> (r: Result<
    u128,
    KabiPayError,
>)
    requires
        kind != RequestKind::TravelRequest,
    ensures
        inst is None ==> is_validation(r, instance_missing_text(kind)),
        *inst matches Some(s) && !in_progress(s) ==> is_validation(r, not_in_progress_text(kind)),
        *inst matches Some(s) && in_progress(s) && s.current_step_id is None ==> is_validation(
            r,
            "workflow instance has no current step"@,
        ),
        approvable_step(*inst) matches Some(id) ==> r == Ok::<u128, KabiPayError>(id),
        r is Ok <==> approvable_step(*inst) is Some,
{
    match inst {
        None => match kind {
            RequestKind::LeaveRequest => Err(validation("leave_request workflow_instance not found")),
            _ => Err(validation("expense workflow_instance not found")),
        },
        Some(s) => {
            if !str_eq(s.status.as_str(), "IN_PROGRESS") {
                return match kind {
                    RequestKind::LeaveRequest => Err(
                        validation(
                            "workflow instance is not in progress — cannot approve this leave",
                        ),
                    ),
                    _ => Err(
                        validation(
                            "workflow instance is not in progress — cannot approve this expense",
                        ),
                    ),
                };
            }
            match s.current_step_id {
                None => Err(validation("workflow instance has no current step")),
                Some(id) => Ok(id),
            }
        },
    }
}

/// The current step row must exist.
pub fn require_step_found(found: bool) -> (r: Result<(), KabiPayError>)
    ensures
        r is Ok <==> found,
        !found ==> is_validation(r, "workflow step not found"@),
{
    if found {
        Ok(())
    } else {
        Err(validation("workflow step not found"))
    }
}

/// Approval outcome for the instance: a later step exists → move to it and
/// keep the request pending; no later step → complete the instance (no
/// current step) and finalize the request.
pub open spec fn approved_state(next_step: Option<u128>) -> (Seq<char>, Option<u128>, bool) {
    match next_step {
        Some(n) => ("IN_PROGRESS"@, Some(n), false),
        None => ("COMPLETED"@, None, true),
    }
}

/// After recording the approval at the current step, advance the instance
/// to `next_step` (the following step by sequence order, if any). Returns
/// the new state and whether the request is finally approved.
pub fn advance_on_approve(inst: &WorkflowInstanceState, next_step: Option<u128>) -> (r: (
    WorkflowInstanceState,
    bool,
))
    requires
        approvable_step(Some(*inst)) is Some,
    ensures
        (r.0.status@, r.0.current_step_id, r.1) == approved_state(next_step),
{
    match next_step {
        Some(n) => (WorkflowInstanceState { status: owned("IN_PROGRESS"), current_step_id: Some(n) }, false),
        None => (WorkflowInstanceState { status: owned("COMPLETED"), current_step_id: None }, true),
    }
}

/// What a rejection does to the instance: one `IN_PROGRESS` is cancelled
/// (keeping its current step) and a `REJECT` action is recorded at its
/// current step when it has one; otherwise nothing changes.
#[derive(Clone, Debug)]
pub struct RejectEffect {
    pub cancelled: WorkflowInstanceState,
    pub action_step_id: Option<u128>,
}

/// Rejecting a request under a workflow (`inst` is `None` when the instance
/// is not found): cancel it when it is in progress.
pub fn cancel_on_reject(inst: &Option<WorkflowInstanceState>) -> (r: Option<RejectEffect>)
    ensures
        match *inst {
            Some(s) => if in_progress(s) {
                r matches Some(e) && e.cancelled.status@ == "CANCELLED"@ && e.cancelled.current_step_id
                    == s.current_step_id && e.action_step_id == s.current_step_id
            } else {
                r is None
            },
            None => r is None,
        },
{
    match inst {
        Some(s) => {
            if str_eq(s.status.as_str(), "IN_PROGRESS") {
                Some(
                    RejectEffect {
                        cancelled: WorkflowInstanceState {
                            status: owned("CANCELLED"),
                            current_step_id: s.current_step_id,
                        },
                        action_step_id: s.current_step_id,
                    },
                )
            } else {
                None
            }
        },
        None => None,
    }
}

/// A cancelled instance can no longer be approved, and neither can a
/// completed one; approving with a later step leaves the instance
/// approvable at that step.
pub proof fn law_decided_workflow_is_closed(s: WorkflowInstanceState, n: u128)
    ensures
        s.status@ == "CANCELLED"@ ==> approvable_step(Some(s)) is None,
        s.status@ == "COMPLETED"@ ==> approvable_step(Some(s)) is None,
        approved_state(Some(n)).0 == "IN_PROGRESS"@ && approved_state(Some(n)).1 == Some(n)
            && !approved_state(Some(n)).2,
        approved_state(None).2 && approved_state(None).1 is None,
{
    reveal_strlit("CANCELLED");
    reveal_strlit("COMPLETED");
    reveal_strlit("IN_PROGRESS");
    if s.status@ == "CANCELLED"@ {
        assert(s.status@[0] != "IN_PROGRESS"@[0]);
    }
    if s.status@ == "COMPLETED"@ {
        assert(s.status@[1] != "IN_PROGRESS"@[1]);
    }
}

} // verus!
