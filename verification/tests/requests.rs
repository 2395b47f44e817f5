use kabipay::approvals::{
    approve_expense, approve_travel_request, attach_workflow, reject_expense,
    reject_travel_request, ExpenseApproval, ExpenseRow, TravelRequestRow,
};
use kabipay::decimal::Dec;
use kabipay::error::KabiPayError;
use kabipay::requests::{
    expense_approved_message, expense_rejected_message, parse_amount, parse_optional_estimate,
    submit_case, submit_expense, submit_travel_request, travel_currency, travel_rejected_message,
    TravelRequestOwner,
};
use kabipay::workflow::WorkflowInstanceState;

fn validation_text<T>(r: Result<T, KabiPayError>) -> String {
    match r {
        Err(KabiPayError::Validation(m)) => m,
        Err(e) => panic!("expected a validation error, got {:?}", e),
        Ok(_) => panic!("expected a validation error, got Ok"),
    }
}

fn d(m: i128, s: u32) -> Dec {
    Dec { mantissa: m, scale: s }
}

#[test]
fn amounts() {
    let a = parse_amount("  12.50 ").unwrap();
    assert_eq!((a.mantissa, a.scale), (1250, 2));
    assert_eq!(validation_text(parse_amount("12,50")), "invalid amount; must be a decimal string");
    assert!(parse_optional_estimate(&None).unwrap().is_none());
    assert!(parse_optional_estimate(&Some("  ".into())).unwrap().is_none());
    assert_eq!(parse_optional_estimate(&Some("99".into())).unwrap().unwrap().mantissa, 99);
    assert_eq!(travel_currency("  "), "INR");
    assert_eq!(travel_currency(" usd "), "usd");
}

#[test]
fn expense_submission_rules() {
    assert!(submit_expense(1, 2, d(10, 0), true, None, None, None).is_ok());
    assert_eq!(validation_text(submit_expense(1, 2, d(0, 0), true, None, None, None)), "amount must be greater than zero");
    assert!(matches!(submit_expense(1, 2, d(10, 0), false, None, None, None), Err(KabiPayError::NotFound { entity, .. }) if entity == "expense_category"));
    assert!(matches!(submit_expense(1, 2, d(10, 0), true, Some(3), None, None), Err(KabiPayError::NotFound { entity, .. }) if entity == "travel_request"));
    assert_eq!(validation_text(submit_expense(1, 2, d(10, 0), true, Some(3), Some(TravelRequestOwner { employee_id: 9 }), None)), "travel request must belong to the submitting employee");
    assert!(submit_expense(1, 2, d(10, 0), true, Some(3), Some(TravelRequestOwner { employee_id: 1 }), None).is_ok());
    let x = submit_expense(1, 2, d(10, 0), true, Some(3), Some(TravelRequestOwner { employee_id: 1 }), Some(8)).unwrap();
    assert_eq!((x.employee_id, x.expense_category_id, x.amount.mantissa, x.amount.scale, x.travel_request_id, x.status.as_str()), (1, 2, 10, 0, Some(3), "PENDING"));
    assert_eq!(x.workflow_instance.unwrap().current_step_id, Some(8));
}

#[test]
fn travel_submission_rules() {
    let t = submit_travel_request(Some(String::new()), Some("Pune".into()), 1, 3, "  client visit ", Some(d(500, 0)), "INR").unwrap();
    assert_eq!(t.origin_location, None);
    assert_eq!(t.destination_location.as_deref(), Some("Pune"));
    assert_eq!(t.purpose, "client visit");
    assert_eq!(validation_text(submit_travel_request(None, None, 3, 1, "x", None, "INR")), "from_date must be on or before to_date");
    assert_eq!(validation_text(submit_travel_request(None, None, 1, 1, " ", None, "INR")), "purpose is required");
    assert_eq!(validation_text(submit_travel_request(None, None, 1, 1, "x", Some(d(-1, 0)), "INR")), "estimated_amount cannot be negative");
}

#[test]
fn grievance_cases() {
    let c = submit_case(1, "  harassment ", Some("  details "), true).unwrap();
    assert_eq!((c.subject.as_str(), c.description.as_deref()), ("harassment", Some("details")));
    assert_eq!(submit_case(1, "s", Some("   "), true).unwrap().description, None);
    assert_eq!(validation_text(submit_case(1, "  ", None, true)), "subject is required");
    assert!(matches!(submit_case(1, "s", None, false), Err(KabiPayError::NotFound { entity, .. }) if entity == "grievance_category"));
}

#[test]
fn notification_texts() {
    assert_eq!(expense_approved_message("Taxi"), "Your expense claim \"Taxi\" was approved.");
    assert_eq!(expense_rejected_message("Taxi", &Some("no receipt".into())), "Your expense claim \"Taxi\" was rejected. Reason: no receipt");
    assert_eq!(expense_rejected_message("Taxi", &Some(String::new())), "Your expense claim \"Taxi\" was rejected.");
    assert_eq!(travel_rejected_message(&None), "Your travel request was rejected.");
}

fn expense(status: &str, wf: Option<u128>) -> ExpenseRow {
    ExpenseRow { id: 1, employee_id: 2, title: "Taxi".into(), status: status.into(), rejection_reason: None, approved_by: None, workflow_instance_id: wf }
}

#[test]
fn expense_decisions() {
    match approve_expense(1, Some(expense("PENDING", None)), None, false, None, 9).unwrap() {
        ExpenseApproval::Approved { expense, instance, action, message } => {
            assert!(action.is_none());
            assert_eq!((expense.status.as_str(), expense.approved_by), ("APPROVED", Some(9)));
            assert!(instance.is_none());
            assert_eq!(message, "Your expense claim \"Taxi\" was approved.");
        }
        _ => panic!("expected a final approval"),
    }
    let inst = WorkflowInstanceState { status: "IN_PROGRESS".into(), current_step_id: Some(4) };
    assert!(matches!(approve_expense(1, Some(expense("PENDING", Some(7))), Some(inst.clone()), true, Some(5), 9).unwrap(), ExpenseApproval::Advanced(s, a) if s.current_step_id == Some(5) && a.step_id == 4 && a.action == "APPROVE"));
    assert_eq!(validation_text(approve_expense(1, Some(expense("PENDING", Some(7))), None, true, None, 9)), "expense workflow_instance not found");
    assert_eq!(validation_text(approve_expense(1, Some(expense("REJECTED", None)), None, true, None, 9)), "only PENDING expenses can be approved or rejected");
    let r = reject_expense(1, Some(expense("PENDING", Some(7))), Some(inst), Some("dup".into())).unwrap();
    assert_eq!((r.expense.status.as_str(), r.expense.rejection_reason.as_deref()), ("REJECTED", Some("dup")));
    assert!(r.workflow.is_some());
    assert_eq!(r.message, "Your expense claim \"Taxi\" was rejected. Reason: dup");
    assert!(matches!(reject_expense(1, None, None, None), Err(KabiPayError::NotFound { entity, .. }) if entity == "expense"));
}

#[test]
fn travel_decisions() {
    let row = TravelRequestRow { id: 1, employee_id: 2, status: "PENDING".into(), rejection_reason: None, approved_by: None, rejected_by: None };
    let (a, m) = approve_travel_request(1, Some(row.clone()), 5).unwrap();
    assert_eq!((a.status.as_str(), a.approved_by, a.rejected_by), ("APPROVED", Some(5), None));
    assert_eq!(m, "Your travel request was approved.");
    let (r, m) = reject_travel_request(1, Some(row), 6, Some("budget".into())).unwrap();
    assert_eq!((r.status.as_str(), r.approved_by, r.rejected_by), ("REJECTED", None, Some(6)));
    assert_eq!(m, "Your travel request was rejected. Reason: budget");
    assert!(matches!(approve_travel_request(1, None, 5), Err(KabiPayError::NotFound { entity, .. }) if entity == "travel_request"));
    let done = TravelRequestRow { id: 1, employee_id: 2, status: "APPROVED".into(), rejection_reason: None, approved_by: None, rejected_by: None };
    assert_eq!(validation_text(reject_travel_request(1, Some(done), 6, None)), "only PENDING travel requests can be approved or rejected");
}

#[test]
fn attached_workflows_start_at_the_first_step() {
    assert!(attach_workflow(None).is_none());
    let i = attach_workflow(Some(3)).unwrap();
    assert_eq!((i.status.as_str(), i.current_step_id), ("IN_PROGRESS", Some(3)));
}
