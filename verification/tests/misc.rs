use kabipay::error::KabiPayError;
use kabipay::ids::{parse_id_arg, parse_uuid_text, uuid_to_string};
use kabipay::notification::{announcements_shown, mark_all_read, mark_read, NotificationRow};
use kabipay::resolvers;
use kabipay::scope::EmployeeScopeFilter;
use kabipay::text::{to_lowercase, to_uppercase, trim};

#[test]
fn uuid_text_round_trip() {
    let v = 0x1234_5678_9abc_def0_0fed_cba9_8765_4321u128;
    let t = uuid_to_string(v);
    assert_eq!(t, "12345678-9abc-def0-0fed-cba987654321");
    assert_eq!(parse_uuid_text(&t).unwrap(), v);
    assert!(parse_uuid_text("nope").is_err());
    match parse_id_arg("nope", "invalid id: ") {
        Err(KabiPayError::Validation(m)) => assert!(m.starts_with("invalid id: ")),
        other => panic!("unexpected {:?}", other),
    }
}

#[test]
fn text_helpers() {
    assert_eq!(trim("\u{2003} a b \n"), "a b");
    assert_eq!(to_lowercase("ÀB"), "àb");
    assert_eq!(to_uppercase("straße"), "STRASSE");
}

#[test]
fn notifications_read_state() {
    let n = NotificationRow { id: 1, user_id: 5, is_read: false, read_at: None };
    let once = mark_read(1, Some(n), 5, 100).unwrap();
    assert_eq!((once.is_read, once.read_at), (true, Some(100)));
    let twice = mark_read(1, Some(once), 5, 200).unwrap();
    assert_eq!(twice.read_at, Some(100));
    assert!(matches!(mark_read(1, Some(n), 6, 1), Err(KabiPayError::NotFound { entity, id }) if entity == "notification" && id == "00000000-0000-0000-0000-000000000001"));
    assert!(matches!(mark_read(1, None, 6, 1), Err(KabiPayError::NotFound { entity, .. }) if entity == "notification"));
    let (rows, count) = mark_all_read(&vec![n, NotificationRow { id: 2, ..n }], 7);
    assert_eq!(count, 2);
    assert!(rows.iter().all(|r| r.is_read && r.read_at == Some(7)));
    assert!(announcements_shown(true, false));
    assert!(!announcements_shown(false, false));
}

#[test]
fn resolver_arguments() {
    let ok = "00000000-0000-0000-0000-000000000001";
    assert!(matches!(resolvers::leave::MutationRoot::decide_leave_request(false, ok), Err(KabiPayError::Forbidden(m)) if m == "leave approve permission required (leave:approve or HR/tenant admin role)"));
    assert_eq!(resolvers::leave::MutationRoot::decide_leave_request(true, ok).unwrap(), 1);
    assert!(matches!(resolvers::expense::MutationRoot::decide_expense(false, ok), Err(KabiPayError::Forbidden(_))));
    let args = resolvers::expense::MutationRoot::submit_expense(ok, " 10.5 ", &None).unwrap();
    assert_eq!((args.expense_category_id, args.amount.mantissa, args.travel_request_id), (1, 105, None));
    assert!(matches!(resolvers::payroll::MutationRoot::run_payroll_for_cycle(false, ok), Err(KabiPayError::Forbidden(m)) if m == "run payroll requires payroll:statutory_export or HR / tenant admin role"));
    match resolvers::payroll::MutationRoot::create_payroll_arrear(true, ok, "abc") {
        Err(KabiPayError::Validation(m)) => assert!(m.starts_with("amount: ")),
        other => panic!("unexpected {:?}", other),
    }
    let (t, m, s, o) = resolvers::ops::MutationRoot::upsert_tenant_subscription(ok, ok, None, None).unwrap();
    assert_eq!((t, m, s.as_str(), o.as_str()), (1, 1, "ACTIVE", "BLOCK"));
    let (u, roles) = resolvers::ops::MutationRoot::set_operator_user_roles(ok, &vec![ok.to_string()]).unwrap();
    assert_eq!((u, roles), (1, vec![1]));
    match resolvers::ops::QueryRoot::optional_id_filter(&Some("x".into()), "tenantId") {
        Err(KabiPayError::Validation(m)) => assert!(m.starts_with("tenantId is not a UUID: ")),
        other => panic!("unexpected {:?}", other),
    }
    assert_eq!(resolvers::operator::QueryRoot::operator_roles_page_size(1000), 100);
    assert_eq!(resolvers::grievance::QueryRoot::cases_page_size(0), 1);
    assert!(resolvers::payroll::QueryRoot::payslip_visible(&EmployeeScopeFilter::EmployeeIds(vec![3]), 3));
    assert!(!resolvers::leave::QueryRoot::balances_visible(&EmployeeScopeFilter::Empty, 3));
    let new = resolvers::employee::MutationRoot::create_employee(resolvers::employee::CreateEmployeeInput {
        employee_code: "E1".into(),
        first_name: "A".into(),
        last_name: "B".into(),
        date_of_joining: kabipay::calendar::Ymd { year: 2024, month: 1, day: 1 },
        department_id: Some(ok.into()),
        designation_id: None,
        reporting_manager_id: Some(ok.into()),
        employment_type: None,
        status: Some(String::new()),
        user_id: None,
    })
    .unwrap();
    assert_eq!((new.department_id, new.reporting_manager_id, new.status.as_str()), (Some(1), Some(1), "ACTIVE"));
    let (doc_owner, file, ttl) = resolvers::employee::QueryRoot::signed_read_target(1, Some((2, Some(3))), 5).unwrap();
    assert_eq!((doc_owner, file, ttl), (2, 3, 60));
    assert!(matches!(resolvers::employee::QueryRoot::signed_read_target(1, Some((2, None)), 5), Err(KabiPayError::Validation(m)) if m == "document has no file yet"));
    assert!(matches!(resolvers::notification::QueryRoot::require_manager(false), Err(KabiPayError::Forbidden(_))));
}
