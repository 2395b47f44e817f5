use kabipay::calendar::Ymd;
use kabipay::employee::{
    create, distinct_sorted_ids, full_name, org_chart_rows, plan_document_upload,
    set_task_completed, update, visible_employee, EmployeePatch, EmployeeRow, NewEmployee,
};
use kabipay::error::KabiPayError;
use kabipay::profile::{
    normalize_aadhaar_last4, upsert_primary_aadhaar, upsert_primary_bank, upsert_primary_pan,
    validate_pan, RowFlag,
};
use kabipay::scope::{
    department_peer_employee_ids, is_employee_in_scope, leave_request_filter, list_employees,
    team_member_employee_ids, ClientViewerEmployee, EmployeeRef, RequesterFilter, ScopeType,
};

fn validation_text<T>(r: Result<T, KabiPayError>) -> String {
    match r {
        Err(KabiPayError::Validation(m)) => m,
        Err(e) => panic!("expected a validation error, got {:?}", e),
        Ok(_) => panic!("expected a validation error, got Ok"),
    }
}

fn row(id: u128, first: &str, last: &str) -> EmployeeRow {
    EmployeeRow {
        id,
        tenant_id: 1,
        employee_code: format!("E{id}"),
        first_name: first.into(),
        last_name: last.into(),
        date_of_joining: Ymd { year: 2020, month: 1, day: 1 },
        department_id: Some(10),
        designation_id: None,
        reporting_manager_id: Some(1),
        employment_type: None,
        status: "ACTIVE".into(),
        user_id: None,
    }
}

#[test]
fn display_names() {
    assert_eq!(full_name(" Asha ", " Rao "), "Asha Rao");
    assert_eq!(full_name("Asha", "  "), "Asha");
    assert_eq!(full_name("", "Rao"), "Rao");
}

#[test]
fn creating_and_updating() {
    let n = NewEmployee {
        employee_code: "E9".into(),
        first_name: "A".into(),
        last_name: "B".into(),
        date_of_joining: Ymd { year: 2024, month: 1, day: 2 },
        department_id: None,
        designation_id: Some(4),
        reporting_manager_id: None,
        employment_type: None,
        status: "ACTIVE".into(),
        user_id: None,
    };
    assert!(matches!(create(1, 9, n.clone(), true, false), Err(KabiPayError::Conflict(m)) if m == "employee code is already in use in this tenant"));
    let managed = NewEmployee { reporting_manager_id: Some(7), ..n.clone() };
    assert_eq!(create(1, 9, managed.clone(), false, true).unwrap().reporting_manager_id, Some(7));
    assert!(matches!(create(1, 9, managed, false, false), Err(KabiPayError::Validation(m)) if m == "reporting manager must be an active employee of this tenant"));
    let own = NewEmployee { reporting_manager_id: Some(9), ..n.clone() };
    assert!(matches!(create(1, 9, own, false, true), Err(KabiPayError::Validation(m)) if m == "reporting manager cannot be the employee themself"));
    let e = create(1, 9, n, false, false).unwrap();
    assert_eq!((e.id, e.reporting_manager_id, e.designation_id), (9, None, Some(4)));
    let patch = EmployeePatch { first_name: Some("Z".into()), last_name: None, department_id: Some(3), designation_id: None, employment_type: None, status: None, user_id: None };
    let u = update(9, Some(e), patch.clone()).unwrap();
    assert_eq!((u.first_name.as_str(), u.last_name.as_str(), u.department_id, u.designation_id), ("Z", "B", Some(3), Some(4)));
    assert!(matches!(update(9, None, patch), Err(KabiPayError::NotFound { entity, .. }) if entity == "employee"));
}

#[test]
fn scopes_of_employee_views() {
    let me = ClientViewerEmployee { employee_id: 1, department_id: Some(10) };
    let boss = EmployeeRef { id: 1, reporting_manager_id: None, department_id: Some(10) };
    let report = EmployeeRef { id: 2, reporting_manager_id: Some(1), department_id: Some(20) };
    let peer = EmployeeRef { id: 3, reporting_manager_id: None, department_id: Some(10) };
    let other = EmployeeRef { id: 4, reporting_manager_id: None, department_id: Some(30) };
    assert!(is_employee_in_scope(ScopeType::All, None, &other));
    assert!(!is_employee_in_scope(ScopeType::Self_, None, &boss));
    assert!(is_employee_in_scope(ScopeType::Self_, Some(me), &boss));
    assert!(is_employee_in_scope(ScopeType::Team, Some(me), &report));
    assert!(!is_employee_in_scope(ScopeType::Team, Some(me), &peer));
    assert!(is_employee_in_scope(ScopeType::Department, Some(me), &peer));
    assert!(!is_employee_in_scope(ScopeType::Department, Some(me), &report));
    let rows = vec![boss, report, peer, other];
    let team: Vec<u128> = list_employees(ScopeType::Team, Some(me), &rows, 20).iter().map(|e| e.id).collect();
    assert_eq!(team, vec![1, 2]);
    let all: Vec<u128> = list_employees(ScopeType::All, None, &rows, 2).iter().map(|e| e.id).collect();
    assert_eq!(all, vec![1, 2]);
    assert_eq!(list_employees(ScopeType::All, None, &rows, 0).len(), 1);
    assert!(list_employees(ScopeType::Department, None, &rows, 20).is_empty());
    for e in list_employees(ScopeType::Department, Some(me), &rows, 20) {
        assert!(is_employee_in_scope(ScopeType::Department, Some(me), &e));
    }
    let found = row(3, "P", "Q");
    assert!(visible_employee(Some(found.clone()), ScopeType::Self_, Some(me)).is_none());
    assert!(visible_employee(Some(found), ScopeType::All, None).is_some());
}

#[test]
fn leave_list_filters() {
    let rows = vec![
        EmployeeRef { id: 2, reporting_manager_id: Some(1), department_id: Some(10) },
        EmployeeRef { id: 3, reporting_manager_id: Some(9), department_id: Some(10) },
    ];
    let team = team_member_employee_ids(1, &rows);
    assert_eq!(team, vec![2, 1]);
    let me = ClientViewerEmployee { employee_id: 1, department_id: Some(10) };
    assert_eq!(department_peer_employee_ids(me, &rows), vec![2, 3]);
    let lone = ClientViewerEmployee { employee_id: 1, department_id: None };
    assert_eq!(department_peer_employee_ids(lone, &rows), vec![1]);
    assert!(matches!(leave_request_filter(ScopeType::All, None, vec![], vec![]), RequesterFilter::Everyone));
    assert!(matches!(leave_request_filter(ScopeType::Team, None, vec![1], vec![]), RequesterFilter::Nobody));
    assert!(matches!(leave_request_filter(ScopeType::Self_, Some(me), vec![], vec![]), RequesterFilter::Employees(ids) if ids == vec![1]));
    assert!(matches!(leave_request_filter(ScopeType::Department, Some(me), vec![], vec![]), RequesterFilter::Nobody));
}

#[test]
fn org_chart() {
    let emps = vec![row(2, " Asha", "Rao "), row(3, "Ben", "")];
    let depts = vec![(10u128, "Engineering".to_string())];
    let rows = org_chart_rows(&emps, &depts, &vec![]);
    assert_eq!(rows[0].full_name, "Asha Rao");
    assert_eq!(rows[1].full_name, "Ben");
    assert_eq!(rows[0].department_name.as_deref(), Some("Engineering"));
    assert_eq!(rows[0].designation_title, None);
    assert_eq!(rows[0].reporting_manager_id, Some(1));
    assert_eq!(distinct_sorted_ids(&vec![Some(5), None, Some(2), Some(5), Some(9), Some(2)]), vec![2, 5, 9]);
}

#[test]
fn onboarding_tasks() {
    let t = set_task_completed(1, true, true, 1700).unwrap();
    assert_eq!((t.is_completed, t.completed_at), (true, Some(1700)));
    let u = set_task_completed(1, true, false, 1800).unwrap();
    assert_eq!((u.is_completed, u.completed_at), (false, None));
    assert!(matches!(set_task_completed(1, false, true, 1), Err(KabiPayError::NotFound { entity, .. }) if entity == "onboarding_checklist"));
}

#[test]
fn document_uploads() {
    let (f, doc) = plan_document_upload(1, 2, 3, Some(4), "cv.pdf".into(), Some("application/pdf".into()), 10, 5, 6).unwrap();
    assert_eq!(f.provider, "LOCAL");
    assert_eq!(f.storage_path, "00000000-0000-0000-0000-000000000001/00000000-0000-0000-0000-000000000005");
    assert_eq!(f.file_size_bytes, Some(10));
    assert_eq!((doc.file_storage_id, doc.status.as_str()), (Some(5), "PENDING"));
    assert_eq!(validation_text(plan_document_upload(1, 2, 3, None, "a".into(), None, 0, 5, 6)), "upload file content must not be empty");
    assert_eq!(validation_text(plan_document_upload(1, 2, 3, None, "a".into(), None, 6 * 1024 * 1024 + 1, 5, 6)), "file exceeds max size of 6291456 bytes");
    assert!(plan_document_upload(1, 2, 3, None, "a".into(), None, 6 * 1024 * 1024, 5, 6).is_ok());
}

#[test]
fn pan_numbers() {
    assert_eq!(validate_pan(" abcde 1234 f ").unwrap(), "ABCDE1234F");
    assert_eq!(validation_text(validate_pan("ABCDE1234")), "PAN must be 10 characters");
    assert_eq!(validation_text(validate_pan("ABCD11234F")), "PAN: first 5 characters must be letters");
    assert_eq!(validation_text(validate_pan("ABCDE12X4F")), "PAN: characters 6–9 must be digits");
    assert_eq!(validation_text(validate_pan("ABCDE12345")), "PAN: last character must be a letter");
}

#[test]
fn aadhaar_numbers() {
    assert_eq!(normalize_aadhaar_last4("1234 5678 9012").unwrap(), "9012");
    assert_eq!(normalize_aadhaar_last4("xx-4321").unwrap(), "4321");
    assert_eq!(validation_text(normalize_aadhaar_last4("12345")), "Aadhaar: enter 12 digits or the last 4 digits");
}

#[test]
fn exactly_one_primary_row() {
    let rows = vec![
        RowFlag { id: 1, is_primary: false },
        RowFlag { id: 2, is_primary: true },
        RowFlag { id: 3, is_primary: true },
    ];
    let (pan, u) = upsert_primary_pan(&rows, 9, "abcde1234f").unwrap();
    assert_eq!(pan, "ABCDE1234F");
    assert_eq!((u.target_id, u.is_new, u.is_verified, u.verified_at), (2, false, false, None));
    let primaries: Vec<u128> = u.flags.iter().filter(|f| f.is_primary).map(|f| f.id).collect();
    assert_eq!(primaries, vec![2]);
    let none_primary = vec![RowFlag { id: 7, is_primary: false }, RowFlag { id: 8, is_primary: false }];
    let (_, u) = upsert_primary_aadhaar(&none_primary, 9, "1234").unwrap();
    assert_eq!(u.target_id, 7);
    let (details, u) = upsert_primary_bank(&vec![], 9, " SBI ", " 001 ", " sbin0001 ", Some("  ".into())).unwrap();
    assert_eq!((details.bank_name.as_str(), details.account_number.as_str(), details.ifsc_code.as_str()), ("SBI", "001", "SBIN0001"));
    assert_eq!(details.account_type, None);
    assert_eq!((u.target_id, u.is_new, u.flags.len(), u.is_verified), (9, true, 0, false));
    assert_eq!(validation_text(upsert_primary_bank(&vec![], 9, "SBI", " ", "X", None)), "bankName, accountNumber, and ifscCode are required");
}
