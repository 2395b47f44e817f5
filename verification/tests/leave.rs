use kabipay::approvals::{
    approve_leave_request, reject_leave_request, LeaveApproval, LeaveRequestRow,
};
use kabipay::calendar::Ymd;
use kabipay::decimal::Dec;
use kabipay::error::KabiPayError;
use kabipay::leave::{
    consume_reserved_days, release_reserved_days, requested_days, reserve_days,
    submit_leave_request, LeaveBalance, LeaveTypeRules,
};
use kabipay::workflow::WorkflowInstanceState;

fn d(m: i128, s: u32) -> Dec {
    Dec { mantissa: m, scale: s }
}

fn units(x: Dec) -> i128 {
    x.mantissa * 10i128.pow(4 - x.scale)
}

fn validation_text<T>(r: Result<T, KabiPayError>) -> String {
    match r {
        Err(KabiPayError::Validation(m)) => m,
        Err(e) => panic!("expected a validation error, got {:?}", e),
        Ok(_) => panic!("expected a validation error, got Ok"),
    }
}

fn balance(available: i128, pending: i128, used: i128) -> LeaveBalance {
    LeaveBalance {
        entitled_days: d(20, 0),
        used_days: d(used, 0),
        pending_days: d(pending, 0),
        carried_forward_days: d(0, 0),
        balance_days: d(available, 0),
    }
}

#[test]
fn requested_day_counts() {
    assert_eq!(requested_days(100, 104, false).unwrap().mantissa, 5);
    let h = requested_days(100, 100, true).unwrap();
    assert_eq!((h.mantissa, h.scale), (5, 1));
    assert_eq!(validation_text(requested_days(100, 101, true)), "half-day leave must have the same fromDate and toDate");
    assert_eq!(validation_text(requested_days(101, 100, false)), "fromDate must be on or before toDate");
}

#[test]
fn submitting_reserves_days() {
    let s = submit_leave_request(5, 1, 10, 12, false, Some(LeaveTypeRules { half_day_allowed: false }), Some(balance(10, 0, 0)), None).unwrap();
    assert_eq!(s.days.mantissa, 3);
    assert_eq!(units(s.balance.balance_days), 70000);
    assert_eq!(units(s.balance.pending_days), 30000);
    let q = &s.request;
    assert_eq!((q.employee_id, q.leave_type_id, q.from_day, q.to_day, q.status.as_str()), (5, 1, 10, 12, "PENDING"));
    assert!(q.workflow_instance.is_none());
    let w = submit_leave_request(5, 1, 10, 12, false, Some(LeaveTypeRules { half_day_allowed: false }), Some(balance(10, 0, 0)), Some(44)).unwrap();
    let inst = w.request.workflow_instance.unwrap();
    assert_eq!((inst.status.as_str(), inst.current_step_id), ("IN_PROGRESS", Some(44)));
    assert_eq!(validation_text(submit_leave_request(5, 1, 12, 10, false, None, None, None)), "fromDate must be on or before toDate");
    assert!(matches!(submit_leave_request(5, 1, 10, 10, false, None, None, None), Err(KabiPayError::NotFound { entity, .. }) if entity == "leave_type"));
    assert_eq!(validation_text(submit_leave_request(5, 1, 10, 10, true, Some(LeaveTypeRules { half_day_allowed: false }), Some(balance(1, 0, 0)), None)), "this leave type does not allow half-day requests");
    assert_eq!(validation_text(submit_leave_request(5, 1, 10, 10, false, Some(LeaveTypeRules { half_day_allowed: true }), None, None)), "no leave balance for this leave type and year — ask HR to provision balances");
    assert_eq!(validation_text(submit_leave_request(5, 1, 10, 14, false, Some(LeaveTypeRules { half_day_allowed: true }), Some(balance(4, 0, 0)), None)), "insufficient leave balance for this request");
}

#[test]
fn ledger_moves_conserve_days() {
    let b = balance(10, 0, 0);
    let r = reserve_days(&b, d(3, 0)).unwrap();
    let total = |x: &LeaveBalance| units(x.balance_days) + units(x.pending_days) + units(x.used_days);
    assert_eq!(total(&r), total(&b));
    let c = consume_reserved_days(&r, d(3, 0)).unwrap();
    assert_eq!(total(&c), total(&b));
    assert_eq!((units(c.pending_days), units(c.used_days)), (0, 30000));
    let back = release_reserved_days(&r, d(3, 0)).unwrap();
    assert_eq!((units(back.balance_days), units(back.pending_days)), (units(b.balance_days), units(b.pending_days)));
    assert_eq!(validation_text(consume_reserved_days(&b, d(1, 0))), "leave balance pending mismatch — cannot approve");
    assert_eq!(validation_text(release_reserved_days(&b, d(1, 0))), "leave balance pending mismatch — cannot reject");
}

fn request(status: &str, workflow: Option<u128>) -> LeaveRequestRow {
    LeaveRequestRow {
        id: 0x77,
        employee_id: 0x11,
        leave_type_id: 0x22,
        from_date: Ymd { year: 2024, month: 5, day: 6 },
        to_date: Ymd { year: 2024, month: 5, day: 8 },
        days_requested: d(3, 0),
        is_half_day: false,
        status: status.to_string(),
        rejection_reason: None,
        approved_by: None,
        workflow_instance_id: workflow,
    }
}

fn in_progress(step: u128) -> WorkflowInstanceState {
    WorkflowInstanceState { status: "IN_PROGRESS".to_string(), current_step_id: Some(step) }
}

#[test]
fn approval_without_workflow_finalizes() {
    let r = approve_leave_request(0x77, Some(request("PENDING", None)), None, false, None, Some(balance(7, 3, 0)), 0x99).unwrap();
    match r {
        LeaveApproval::Approved { request, balance, instance, action, outbox, message } => {
            assert_eq!(message, "Your leave request was approved.");
            assert!(action.is_none());
            assert_eq!((outbox.aggregate_type.as_str(), outbox.aggregate_id, outbox.event_type.as_str(), outbox.status.as_str()), ("leave_request", 0x77, "leave_request.approved", "PENDING"));
            let outbox_payload = outbox.payload;
            assert_eq!(request.status, "APPROVED");
            assert_eq!(request.approved_by, Some(0x99));
            assert_eq!((units(balance.pending_days), units(balance.used_days)), (0, 30000));
            assert!(instance.is_none());
            assert_eq!(outbox_payload, "{\"approver_user_id\":\"00000000-0000-0000-0000-000000000099\",\"days_requested\":\"3\",\"employee_id\":\"00000000-0000-0000-0000-000000000011\",\"from_date\":\"2024-05-06\",\"is_half_day\":false,\"leave_request_id\":\"00000000-0000-0000-0000-000000000077\",\"leave_type_id\":\"00000000-0000-0000-0000-000000000022\",\"schema_version\":1,\"status\":\"APPROVED\",\"to_date\":\"2024-05-08\"}");
            let v: serde_json::Value = serde_json::from_str(&outbox_payload).unwrap();
            assert_eq!(v["schema_version"], 1);
        }
        LeaveApproval::Advanced(..) => panic!("expected a final approval"),
    }
}

#[test]
fn approval_under_workflow_advances_then_completes() {
    let r = approve_leave_request(0x77, Some(request("PENDING", Some(5))), Some(in_progress(1)), true, Some(2), Some(balance(7, 3, 0)), 0x99).unwrap();
    match r {
        LeaveApproval::Advanced(s, a) => {
            assert_eq!((s.status.as_str(), s.current_step_id), ("IN_PROGRESS", Some(2)));
            assert_eq!((a.step_id, a.performed_by, a.action.as_str(), a.remarks), (1, 0x99, "APPROVE", None));
        }
        _ => panic!("expected the workflow to advance"),
    }
    let r = approve_leave_request(0x77, Some(request("PENDING", Some(5))), Some(in_progress(2)), true, None, Some(balance(7, 3, 0)), 0x99).unwrap();
    match r {
        LeaveApproval::Approved { instance, action, .. } => {
            let a = action.unwrap();
            assert_eq!((a.step_id, a.action.as_str()), (2, "APPROVE"));
            let s = instance.unwrap();
            assert_eq!((s.status.as_str(), s.current_step_id), ("COMPLETED", None));
        }
        _ => panic!("expected a final approval"),
    }
}

#[test]
fn approval_refusals() {
    assert!(matches!(approve_leave_request(0x77, None, None, false, None, None, 1), Err(KabiPayError::NotFound { entity, .. }) if entity == "leave_request"));
    assert_eq!(validation_text(approve_leave_request(0x77, Some(request("APPROVED", None)), None, false, None, None, 1)), "only PENDING leave requests can be approved or rejected");
    assert_eq!(validation_text(approve_leave_request(0x77, Some(request("PENDING", Some(5))), None, true, None, None, 1)), "leave_request workflow_instance not found");
    let cancelled = WorkflowInstanceState { status: "CANCELLED".to_string(), current_step_id: Some(1) };
    assert_eq!(validation_text(approve_leave_request(0x77, Some(request("PENDING", Some(5))), Some(cancelled), true, None, None, 1)), "workflow instance is not in progress — cannot approve this leave");
    let stepless = WorkflowInstanceState { status: "IN_PROGRESS".to_string(), current_step_id: None };
    assert_eq!(validation_text(approve_leave_request(0x77, Some(request("PENDING", Some(5))), Some(stepless), true, None, None, 1)), "workflow instance has no current step");
    assert_eq!(validation_text(approve_leave_request(0x77, Some(request("PENDING", Some(5))), Some(in_progress(1)), false, None, None, 1)), "workflow step not found");
    assert!(matches!(approve_leave_request(0x77, Some(request("PENDING", None)), None, false, None, None, 1), Err(KabiPayError::NotFound { entity, id }) if entity == "leave_balance" && id == "00000000-0000-0000-0000-000000000011-2024"));
}

#[test]
fn rejection_releases_and_cancels() {
    let r = reject_leave_request(0x77, Some(request("PENDING", Some(5))), Some(in_progress(3)), Some(balance(7, 3, 0)), Some("busy".into())).unwrap();
    assert_eq!(r.request.status, "REJECTED");
    assert_eq!(r.request.rejection_reason.as_deref(), Some("busy"));
    assert_eq!((units(r.balance.balance_days), units(r.balance.pending_days)), (100000, 0));
    let w = r.workflow.unwrap();
    assert_eq!((w.cancelled.status.as_str(), w.action_step_id), ("CANCELLED", Some(3)));
    assert_eq!(r.message, "Your leave was rejected. Reason: busy");
    let r2 = reject_leave_request(0x77, Some(request("PENDING", None)), None, Some(balance(7, 3, 0)), None).unwrap();
    assert!(r2.workflow.is_none());
    assert_eq!(r2.message, "Your leave request was rejected.");
    assert_eq!(validation_text(reject_leave_request(0x77, Some(request("PENDING", None)), None, Some(balance(7, 0, 0)), None)), "leave balance pending mismatch — cannot reject");
}

#[test]
fn rejecting_right_after_submitting_restores_the_balance() {
    let before = balance(10, 1, 2);
    let sub = submit_leave_request(0x11, 0x22, 10, 12, false, Some(LeaveTypeRules { half_day_allowed: false }), Some(before), Some(4)).unwrap();
    let stored = LeaveRequestRow {
        status: sub.request.status.clone(),
        days_requested: sub.request.days_requested,
        workflow_instance_id: Some(0x55),
        ..request("PENDING", None)
    };
    let x = reject_leave_request(0x77, Some(stored), sub.request.workflow_instance.clone(), Some(sub.balance), Some("plans changed".into())).unwrap();
    assert_eq!((units(x.balance.balance_days), units(x.balance.pending_days), units(x.balance.used_days)), (units(before.balance_days), units(before.pending_days), units(before.used_days)));
    assert_eq!((x.request.status.as_str(), x.request.approved_by), ("REJECTED", None));
    let cancelled = x.workflow.unwrap();
    assert_eq!(cancelled.cancelled.status, "CANCELLED");
}
