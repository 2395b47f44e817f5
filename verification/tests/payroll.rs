use kabipay::csv::{csv_cell, dec_cell};
use kabipay::decimal::Dec;
use kabipay::error::KabiPayError;
use kabipay::payroll::{
    check_cycle_runnable, create_payroll_cycle, plan_payslip, run_payroll_for_cycle,
    EmployeePayInput, PendingArrear,
};
use kabipay::payroll_admin::{
    arrear_component, arrears_to_apply, create_arrear, default_earning_component,
    latest_tds_by_employee, lines_of_payslip, payslip_amount_texts, set_monthly_salary,
    ComponentRef, EmployeeOrg, PayslipAmounts, TaxComputation,
};
use kabipay::payroll_export::{
    india_pf_esi_monthly_summary_csv, india_tds_monthly_summary_csv, payroll_bank_transfer_csv,
    BankRecord, CycleExport, EmployeeRecord, PanRecord, PayslipRecord,
};
use kabipay::calendar::Ymd;

fn d(m: i128, s: u32) -> Dec {
    Dec { mantissa: m, scale: s }
}

fn validation_text<T>(r: Result<T, KabiPayError>) -> String {
    match r {
        Err(KabiPayError::Validation(m)) => m,
        Err(e) => panic!("expected a validation error, got {:?}", e),
        Ok(_) => panic!("expected a validation error, got Ok"),
    }
}

#[test]
fn csv_cells() {
    assert_eq!(csv_cell("plain"), "plain");
    assert_eq!(csv_cell("a,b"), "\"a,b\"");
    assert_eq!(csv_cell("say \"hi\""), "\"say \"\"hi\"\"\"");
    assert_eq!(csv_cell("two\nlines"), "\"two\nlines\"");
    assert_eq!(dec_cell(d(150000, 2)), "1500");
    assert_eq!(dec_cell(d(-1050, 3)), "-1.05");
    assert_eq!(dec_cell(d(0, 4)), "0");
}

#[test]
fn payroll_cycles() {
    let c = create_payroll_cycle("  June run ", 6, 2024, None, false).unwrap();
    assert_eq!((c.name.as_str(), c.month, c.year), ("June run", 6, 2024));
    assert_eq!((c.status.as_str(), c.payment_date, c.processed_by, c.processed_at), ("DRAFT", None, None, None));
    let paid = create_payroll_cycle("July", 7, 2024, Some(Ymd { year: 2024, month: 7, day: 31 }), false).unwrap();
    assert_eq!(paid.payment_date, Some(Ymd { year: 2024, month: 7, day: 31 }));
    assert_eq!(validation_text(create_payroll_cycle(" ", 6, 2024, None, false)), "name must not be empty");
    assert_eq!(validation_text(create_payroll_cycle("x", 13, 2024, None, false)), "month must be 1–12");
    assert_eq!(validation_text(create_payroll_cycle("x", 6, 1999, None, false)), "year must be between 2000 and 2200");
    assert_eq!(validation_text(create_payroll_cycle("x", 6, 2024, None, true)), "a payroll cycle already exists for 06/2024");
    assert_eq!(validation_text(create_payroll_cycle("x", 11, 2024, None, true)), "a payroll cycle already exists for 11/2024");
    assert!(check_cycle_runnable("draft").is_ok());
    assert_eq!(validation_text(check_cycle_runnable("PROCESSED")), "payroll cycle must be DRAFT to run (current status: PROCESSED)");
}

#[test]
fn payslip_plans() {
    assert!(plan_payslip(None, &vec![], None).is_none());
    assert!(plan_payslip(Some(d(0, 0)), &vec![], None).is_none());
    let p = plan_payslip(Some(d(20000, 0)), &vec![PendingArrear { id: 1, amount: d(500, 0) }], Some(d(100, 0))).unwrap();
    assert_eq!(p.gross.mantissa * 10i128.pow(2 - p.gross.scale), 2050000);
    // deductions: PF 1800, ESI 153.75 (0.75% of 20500), PT 200, TDS 100
    let total = p.total_deductions.mantissa * 10i128.pow(2 - p.total_deductions.scale);
    assert_eq!(total, 225375);
    let net = p.net.mantissa * 10i128.pow(2 - p.net.scale);
    assert_eq!(net, 2050000 - 225375);
    assert!(p.arrear_line.is_some());
}

#[test]
fn pay_run_skips_existing_and_empty() {
    let emps = vec![
        EmployeePayInput { employee_id: 1, latest_salary: Some(d(30000, 0)), pending_arrears: vec![], tds_per_month: None, uan_number: None, esic_number: None },
        EmployeePayInput { employee_id: 2, latest_salary: None, pending_arrears: vec![], tds_per_month: None, uan_number: None, esic_number: None },
        EmployeePayInput { employee_id: 3, latest_salary: Some(d(10000, 0)), pending_arrears: vec![PendingArrear { id: 9, amount: d(1, 0) }], tds_per_month: None, uan_number: Some("UAN3".into()), esic_number: None },
        EmployeePayInput { employee_id: 3, latest_salary: Some(d(10000, 0)), pending_arrears: vec![], tds_per_month: None, uan_number: None, esic_number: None },
    ];
    let basic = ComponentRef { id: 100, component_type: "EARNING".into() };
    let arrear = ComponentRef { id: 101, component_type: "earning".into() };
    let run = run_payroll_for_cycle(77, Some("Draft".into()), Some(basic.clone()), &vec![], Some(arrear.clone()), 5, 1_700_000_000, &vec![1], &emps).unwrap();
    assert_eq!((run.cycle_status.as_str(), run.processed_by, run.processed_at), ("PROCESSED", Some(5), Some(1_700_000_000)));
    let slips = &run.payslips;
    assert_eq!(slips.len(), 1);
    assert_eq!((slips[0].index, slips[0].employee_id, slips[0].payroll_cycle_id, slips[0].status.as_str()), (2, 3, 77, "GENERATED"));
    assert_eq!(slips[0].applied_arrears.len(), 1);
    let a = &slips[0].applied_arrears[0];
    assert_eq!((a.id, a.status.as_str(), a.applied_payroll_cycle_id), (9, "APPLIED", Some(77)));
    assert_eq!((slips[0].uan_number.as_deref(), slips[0].esic_number.as_deref()), (Some("UAN3"), None));
    let lines = &slips[0].lines;
    assert_eq!(lines.len(), 2);
    assert_eq!((lines[0].salary_component_id, lines[0].amount.mantissa, lines[0].component_type.as_str()), (100, 10000, "EARNING"));
    assert_eq!((lines[1].salary_component_id, lines[1].amount.mantissa, lines[1].component_type.as_str()), (101, 1, "earning"));
}

#[test]
fn pay_run_refusals() {
    let emps = vec![
        EmployeePayInput { employee_id: 3, latest_salary: Some(d(10000, 0)), pending_arrears: vec![PendingArrear { id: 9, amount: d(1, 0) }], tds_per_month: None, uan_number: None, esic_number: None },
    ];
    let basic = ComponentRef { id: 100, component_type: "EARNING".into() };
    let r = run_payroll_for_cycle(77, None, Some(basic.clone()), &vec![], None, 5, 0, &vec![], &emps);
    assert!(matches!(r, Err(KabiPayError::NotFound { entity, id }) if entity == "payroll_cycle" && id == "00000000-0000-0000-0000-00000000004d"));
    let r = run_payroll_for_cycle(77, Some("PROCESSED".into()), Some(basic.clone()), &vec![], None, 5, 0, &vec![], &emps);
    assert_eq!(validation_text(r), "payroll cycle must be DRAFT to run (current status: PROCESSED)");
    let deduction = ComponentRef { id: 7, component_type: "DEDUCTION".into() };
    let r = run_payroll_for_cycle(77, Some("DRAFT".into()), None, &vec![deduction], None, 5, 0, &vec![], &emps);
    assert_eq!(validation_text(r), "no active EARNING salary component — seed salary_component (e.g. BASIC) first");
    let r = run_payroll_for_cycle(77, Some("DRAFT".into()), Some(basic.clone()), &vec![], None, 5, 0, &vec![], &emps);
    assert_eq!(validation_text(r), "arrear payout lines require an active EARNING `salary_component` with code ARREAR");
    let wrong = ComponentRef { id: 8, component_type: "DEDUCTION".into() };
    let r = run_payroll_for_cycle(77, Some("DRAFT".into()), Some(basic.clone()), &vec![], Some(wrong), 5, 0, &vec![], &emps);
    assert_eq!(validation_text(r), "salary component ARREAR must have type EARNING");
    // No arrears due: a missing ARREAR component is not needed.
    let plain = vec![EmployeePayInput { employee_id: 4, latest_salary: Some(d(10000, 0)), pending_arrears: vec![], tds_per_month: None, uan_number: None, esic_number: None }];
    let run = run_payroll_for_cycle(77, Some("DRAFT".into()), Some(basic), &vec![], None, 5, 0, &vec![], &plain).unwrap();
    assert_eq!(run.payslips[0].lines.len(), 1);
}

fn payslip(id: u128, emp: u128) -> PayslipRecord {
    PayslipRecord {
        id,
        employee_id: emp,
        gross_salary: d(5000000, 2),
        total_deductions: d(200000, 2),
        net_salary: d(4800000, 2),
        tds_amount: Some(d(1000, 0)),
        pf_employee: Some(d(1800, 0)),
        pf_employer: Some(d(1800, 0)),
        esi_employee: None,
        esi_employer: None,
        uan_number: Some("UAN1".into()),
        esic_number: None,
        status: "GENERATED".into(),
    }
}

fn cycle() -> CycleExport {
    CycleExport {
        cycle_name: "June, 2024".into(),
        payslips: vec![payslip(0x11, 1), payslip(0x22, 2)],
        employees: vec![
            EmployeeRecord { id: 1, employee_code: "E1".into(), first_name: "Asha".into(), last_name: "Rao".into() },
            EmployeeRecord { id: 2, employee_code: "E2".into(), first_name: "Ben".into(), last_name: "Oak".into() },
        ],
        pans: vec![PanRecord { employee_id: 1, pan_number: "ABCDE1234F".into() }],
        banks: vec![BankRecord { employee_id: 2, bank_name: "SBI".into(), account_number: "123".into(), ifsc_code: "SBIN0001".into(), account_type: Some("SAVINGS".into()) }],
    }
}

#[test]
fn tds_summary_csv() {
    let c = cycle();
    let s = india_tds_monthly_summary_csv(6, 2024, Some(&c)).unwrap();
    let lines: Vec<&str> = s.lines().collect();
    assert_eq!(lines[0], "employee_code,employee_name,pan,period_month,period_year,payroll_cycle_name,gross_salary,total_deductions,tds_amount,net_salary,payslip_status,payslip_id");
    assert_eq!(lines[1], "E1,Asha Rao,ABCDE1234F,6,2024,\"June, 2024\",50000,2000,1000,48000,GENERATED,00000000-0000-0000-0000-000000000011");
    assert_eq!(lines[2], "E2,Ben Oak,,6,2024,\"June, 2024\",50000,2000,1000,48000,GENERATED,00000000-0000-0000-0000-000000000022");
    assert_eq!(lines.len(), 3);
    let empty = india_tds_monthly_summary_csv(6, 2024, None).unwrap();
    assert_eq!(empty.lines().count(), 1);
    assert_eq!(validation_text(india_tds_monthly_summary_csv(0, 2024, None)), "month must be 1–12 and year a plausible calendar year");
}

#[test]
fn pf_esi_and_bank_csv() {
    let c = cycle();
    let s = india_pf_esi_monthly_summary_csv(6, 2024, Some(&c)).unwrap();
    let lines: Vec<&str> = s.lines().collect();
    assert_eq!(lines[1], "E1,Asha Rao,ABCDE1234F,UAN1,,6,2024,\"June, 2024\",1800,1800,0,0,50000,GENERATED,00000000-0000-0000-0000-000000000011");
    let b = payroll_bank_transfer_csv(6, 2024, Some(&c)).unwrap();
    let lines: Vec<&str> = b.lines().collect();
    assert_eq!(lines[1], "E1,Asha Rao,Asha Rao,,,,,INR,48000,6,2024,\"June, 2024\",MISSING_BANK,00000000-0000-0000-0000-000000000011");
    assert_eq!(lines[2], "E2,Ben Oak,Ben Oak,SBI,123,SBIN0001,SAVINGS,INR,48000,6,2024,\"June, 2024\",OK,00000000-0000-0000-0000-000000000022");
}

#[test]
fn arrears() {
    assert_eq!(validation_text(create_arrear(1, d(0, 0), None)), "arrear amount must be positive");
    assert_eq!(validation_text(create_arrear(1, d(-5, 1), None)), "arrear amount must be positive");
    let a = create_arrear(1, d(5, 1), Some("back pay".into())).unwrap();
    assert_eq!((a.employee_id, a.amount.mantissa, a.reason.as_deref()), (1, 5, Some("back pay")));
    let ids = vec![1u128, 2, 3];
    let st = vec![Some("PENDING".to_string()), Some("APPLIED".to_string()), Some("PENDING".to_string())];
    assert_eq!(arrears_to_apply(&ids, &st).unwrap(), vec![1, 3]);
    let st2 = vec![Some("PENDING".to_string()), None, Some("PENDING".to_string())];
    assert!(matches!(arrears_to_apply(&ids, &st2), Err(KabiPayError::NotFound { entity, id }) if entity == "payroll_arrear" && id == "00000000-0000-0000-0000-000000000002"));
}

#[test]
fn salary_components() {
    let basic = ComponentRef { id: 1, component_type: "EARNING".into() };
    let active = vec![
        ComponentRef { id: 5, component_type: "DEDUCTION".into() },
        ComponentRef { id: 6, component_type: "earning".into() },
        ComponentRef { id: 7, component_type: "EARNING".into() },
    ];
    assert_eq!(default_earning_component(Some(basic), &active).unwrap().id, 1);
    assert_eq!(default_earning_component(None, &active).unwrap().id, 6);
    assert_eq!(
        validation_text(default_earning_component(None, &vec![ComponentRef { id: 5, component_type: "DEDUCTION".into() }])),
        "no active EARNING salary component — seed salary_component (e.g. BASIC) first"
    );
    assert_eq!(arrear_component(Some(ComponentRef { id: 3, component_type: "Earning".into() })).unwrap().id, 3);
    assert_eq!(validation_text(arrear_component(Some(ComponentRef { id: 3, component_type: "DEDUCTION".into() }))), "salary component ARREAR must have type EARNING");
    assert_eq!(validation_text(arrear_component(None)), "arrear payout lines require an active EARNING `salary_component` with code ARREAR");
}

#[test]
fn latest_tds_per_employee() {
    let rows = vec![
        TaxComputation { employee_id: 1, computed_at: 10, tds_per_month: Some(d(100, 0)) },
        TaxComputation { employee_id: 2, computed_at: 5, tds_per_month: Some(d(50, 0)) },
        TaxComputation { employee_id: 1, computed_at: 20, tds_per_month: Some(d(200, 0)) },
        TaxComputation { employee_id: 2, computed_at: 5, tds_per_month: Some(d(60, 0)) },
        TaxComputation { employee_id: 3, computed_at: 1, tds_per_month: None },
    ];
    let r = latest_tds_by_employee(&rows);
    assert_eq!(r.len(), 2);
    assert_eq!((r[0].0, r[0].1.mantissa), (2, 50));
    assert_eq!((r[1].0, r[1].1.mantissa), (1, 200));
}

#[test]
fn monthly_salary_rows() {
    let org = EmployeeOrg { department_id: Some(4), designation_id: None, cost_center_id: Some(8) };
    let from = Ymd { year: 2024, month: 4, day: 1 };
    let h = set_monthly_salary(1, Some(org), None, 9, d(50000, 0), from, 77, None).unwrap();
    assert_eq!((h.id, h.employee_id, h.department_id, h.cost_center_id, h.changed_by), (9, 1, Some(4), Some(8), Some(77)));
    assert!(matches!(set_monthly_salary(1, None, None, 9, d(1, 0), from, 77, None), Err(KabiPayError::NotFound { entity, .. }) if entity == "employee"));
}

#[test]
fn payslip_details() {
    let t = payslip_amount_texts(&PayslipAmounts {
        gross_salary: d(5000000, 2),
        total_deductions: d(0, 0),
        net_salary: d(-150, 2),
        pf_employee: Some(d(180000, 2)),
        pf_employer: None,
        esi_employee: None,
        esi_employer: None,
        tds_amount: Some(d(5, 1)),
        professional_tax: None,
    });
    assert_eq!(t.gross_salary, "50000.00");
    assert_eq!(t.total_deductions, "0");
    assert_eq!(t.net_salary, "-1.50");
    assert_eq!(t.pf_employee.as_deref(), Some("1800.00"));
    assert_eq!(t.tds_amount.as_deref(), Some("0.5"));
    assert_eq!(t.pf_employer, None);
    assert_eq!(lines_of_payslip(&vec![1, 2, 1, 3, 1], 1), vec![0, 2, 4]);
    assert!(lines_of_payslip(&vec![1, 2], 9).is_empty());
}

fn read_cell(c: &str) -> String {
    if c.len() >= 2 && c.starts_with('"') && c.ends_with('"') {
        c[1..c.len() - 1].replace("\"\"", "\"")
    } else {
        c.to_string()
    }
}

#[test]
fn csv_cells_read_back() {
    for raw in ["plain", "a,b", "say \"hi\"", "\"", "line\nbreak", ""] {
        assert_eq!(read_cell(&csv_cell(raw)), raw);
    }
}
