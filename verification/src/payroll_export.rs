//! India payroll stub exports: monthly TDS summary, PF/ESI summary and bank
//! transfer sheet, one CSV row per payslip of the month's payroll cycle.
use vstd::prelude::*;
use std::collections::HashMap;

use crate::csv::{csv_cell, csv_cell_text, csv_line, dec_cell, dec_cell_text, int_text, push_csv_line, push_int, views};
use crate::decimal::Dec;
use crate::error::{is_validation, validation, KabiPayError};
use crate::ids::{uuid_text, uuid_to_string};
use crate::text::{owned, push_char, push_str};

verus! {

/// A payslip row as the exports read it.
#[derive(Clone, Debug)]
pub struct PayslipRecord {
    pub id: u128,
    pub employee_id: u128,
    pub gross_salary: Dec,
    pub total_deductions: Dec,
    pub net_salary: Dec,
    pub tds_amount: Option<Dec>,
    pub pf_employee: Option<Dec>,
    pub pf_employer: Option<Dec>,
    pub esi_employee: Option<Dec>,
    pub esi_employer: Option<Dec>,
    pub uan_number: Option<String>,
    pub esic_number: Option<String>,
    pub status: String,
}

/// An employee row (non-deleted) referenced by a payslip.
#[derive(Clone, Debug)]
pub struct EmployeeRecord {
    pub id: u128,
    pub employee_code: String,
    pub first_name: String,
    pub last_name: String,
}

/// A primary PAN row.
#[derive(Clone, Debug)]
pub struct PanRecord {
    pub employee_id: u128,
    pub pan_number: String,
}

/// A primary bank row.
#[derive(Clone, Debug)]
pub struct BankRecord {
    pub employee_id: u128,
    pub bank_name: String,
    pub account_number: String,
    pub ifsc_code: String,
    pub account_type: Option<String>,
}

/// The payroll cycle of the requested month with what its export reads:
/// payslips ordered by employee, the employees they reference, and their
/// primary PAN and bank rows.
#[derive(Clone, Debug)]
pub struct CycleExport {
    pub cycle_name: String,
    pub payslips: Vec<PayslipRecord>,
    pub employees: Vec<EmployeeRecord>,
    pub pans: Vec<PanRecord>,
    pub banks: Vec<BankRecord>,
}

pub open spec fn wf_payslip(p: PayslipRecord) -> bool {
    &&& p.gross_salary.wf()
    &&& p.total_deductions.wf()
    &&& p.net_salary.wf()
    &&& (p.tds_amount matches Some(d) ==> d.wf())
    &&& (p.pf_employee matches Some(d) ==> d.wf())
    &&& (p.pf_employer matches Some(d) ==> d.wf())
    &&& (p.esi_employee matches Some(d) ==> d.wf())
    &&& (p.esi_employer matches Some(d) ==> d.wf())
}

pub open spec fn wf_export(c: CycleExport) -> bool {
    forall|i: int| 0 <= i < c.payslips@.len() ==> wf_payslip(#[trigger] c.payslips@[i])
}

/// Month `1..=12` and a plausible year `1900..=2200`.
pub open spec fn period_ok(month: int, year: int) -> bool {
    1 <= month <= 12 && 1900 <= year <= 2200
}

/// The exports refuse an implausible month or year.
pub fn check_export_period(month: i32, year: i32) -> (r: Result<(), KabiPayError>)
    ensures
        r is Ok <==> period_ok(month as int, year as int),
        !period_ok(month as int, year as int) ==> is_validation(
            r,
            "month must be 1–12 and year a plausible calendar year"@,
        ),
{
    if !(1 <= month && month <= 12) || !(1900 <= year && year <= 2200) {
        Err(validation("month must be 1–12 and year a plausible calendar year"))
    } else {
        Ok(())
    }
}

// ----------------------------------------------------------------------------
// Lookups
// ----------------------------------------------------------------------------

/// The employee row with this id; when several match, the last one (the
/// export keys employees by id, later rows replacing earlier ones).
pub open spec fn employee_for(emps: Seq<EmployeeRecord>, id: u128) -> Option<EmployeeRecord>
    decreases emps.len(),
{
    if emps.len() == 0 {
        None
    } else if emps.last().id == id {
        Some(emps.last())
    } else {
        employee_for(emps.drop_last(), id)
    }
}

/// The first PAN row of the employee.
pub open spec fn pan_for(pans: Seq<PanRecord>, id: u128) -> Option<PanRecord>
    decreases pans.len(),
{
    if pans.len() == 0 {
        None
    } else if pan_for(pans.drop_last(), id) is Some {
        pan_for(pans.drop_last(), id)
    } else if pans.last().employee_id == id {
        Some(pans.last())
    } else {
        None
    }
}

/// The first bank row of the employee.
pub open spec fn bank_for(banks: Seq<BankRecord>, id: u128) -> Option<BankRecord>
    decreases banks.len(),
{
    if banks.len() == 0 {
        None
    } else if bank_for(banks.drop_last(), id) is Some {
        bank_for(banks.drop_last(), id)
    } else if banks.last().employee_id == id {
        Some(banks.last())
    } else {
        None
    }
}

/// `m` maps each employee id to the position of the row [`employee_for`]
/// picks, and no other id.
pub open spec fn employee_index_ok(emps: Seq<EmployeeRecord>, m: Map<u128, usize>) -> bool {
    forall|id: u128|
        match #[trigger] employee_for(emps, id) {
            None => !m.contains_key(id),
            Some(e) => m.contains_key(id) && m[id] < emps.len() && emps[m[id] as int] == e,
        }
}

/// `m` maps each employee id to the position of the row [`pan_for`] picks.
pub open spec fn pan_index_ok(pans: Seq<PanRecord>, m: Map<u128, usize>) -> bool {
    forall|id: u128|
        match #[trigger] pan_for(pans, id) {
            None => !m.contains_key(id),
            Some(p) => m.contains_key(id) && m[id] < pans.len() && pans[m[id] as int] == p,
        }
}

/// `m` maps each employee id to the position of the row [`bank_for`] picks.
pub open spec fn bank_index_ok(banks: Seq<BankRecord>, m: Map<u128, usize>) -> bool {
    forall|id: u128|
        match #[trigger] bank_for(banks, id) {
            None => !m.contains_key(id),
            Some(b) => m.contains_key(id) && m[id] < banks.len() && banks[m[id] as int] == b,
        }
}

/// Employees keyed by id, later rows replacing earlier ones.
fn employee_index(emps: &Vec<EmployeeRecord>) -> (m: HashMap<u128, usize>)
    ensures
        employee_index_ok(emps@, m@),
{
    broadcast use vstd::std_specs::hash::group_hash_axioms;

    let mut m: HashMap<u128, usize> = HashMap::new();
    let mut i: usize = 0;
    while i < emps.len()
        invariant
            i <= emps.len(),
            employee_index_ok(emps@.take(i as int), m@),
            forall|id: u128| #[trigger] m@.contains_key(id) ==> m@[id] < i,
        decreases emps.len() - i,
    {
        let ghost t = emps@.take((i + 1) as int);
        assert(t.drop_last() == emps@.take(i as int));
        assert(t.last() == emps@[i as int]);
        m.insert(emps[i].id, i);
        assert forall|id: u128| match #[trigger] employee_for(t, id) {
            None => !m@.contains_key(id),
            Some(e) => m@.contains_key(id) && m@[id] < t.len() && t[m@[id] as int] == e,
        } by {
            assert(employee_for(emps@.take(i as int), id) == employee_for(t.drop_last(), id));
            if id != emps@[i as int].id {
                match employee_for(t.drop_last(), id) {
                    None => {},
                    Some(e) => {
                        assert(t[m@[id] as int] == emps@.take(i as int)[m@[id] as int]);
                    },
                }
            }
        }
        i = i + 1;
    }
    assert(emps@.take(emps.len() as int) == emps@);
    m
}

/// PAN rows keyed by employee, the first row of each kept.
fn pan_index(pans: &Vec<PanRecord>) -> (m: HashMap<u128, usize>)
    ensures
        pan_index_ok(pans@, m@),
{
    broadcast use vstd::std_specs::hash::group_hash_axioms;

    let mut m: HashMap<u128, usize> = HashMap::new();
    let mut i: usize = 0;
    while i < pans.len()
        invariant
            i <= pans.len(),
            pan_index_ok(pans@.take(i as int), m@),
            forall|id: u128| #[trigger] m@.contains_key(id) ==> m@[id] < i,
        decreases pans.len() - i,
    {
        let ghost t = pans@.take((i + 1) as int);
        assert(t.drop_last() == pans@.take(i as int));
        assert(t.last() == pans@[i as int]);
        if !m.contains_key(&pans[i].employee_id) {
            m.insert(pans[i].employee_id, i);
        }
        assert forall|id: u128| match #[trigger] pan_for(t, id) {
            None => !m@.contains_key(id),
            Some(p) => m@.contains_key(id) && m@[id] < t.len() && t[m@[id] as int] == p,
        } by {
            assert(pan_for(pans@.take(i as int), id) == pan_for(t.drop_last(), id));
            match pan_for(t.drop_last(), id) {
                None => {},
                Some(p) => {
                    assert(t[m@[id] as int] == pans@.take(i as int)[m@[id] as int]);
                },
            }
        }
        i = i + 1;
    }
    assert(pans@.take(pans.len() as int) == pans@);
    m
}

/// Bank rows keyed by employee, the first row of each kept.
fn bank_index(banks: &Vec<BankRecord>) -> (m: HashMap<u128, usize>)
    ensures
        bank_index_ok(banks@, m@),
{
    broadcast use vstd::std_specs::hash::group_hash_axioms;

    let mut m: HashMap<u128, usize> = HashMap::new();
    let mut i: usize = 0;
    while i < banks.len()
        invariant
            i <= banks.len(),
            bank_index_ok(banks@.take(i as int), m@),
            forall|id: u128| #[trigger] m@.contains_key(id) ==> m@[id] < i,
        decreases banks.len() - i,
    {
        let ghost t = banks@.take((i + 1) as int);
        assert(t.drop_last() == banks@.take(i as int));
        assert(t.last() == banks@[i as int]);
        if !m.contains_key(&banks[i].employee_id) {
            m.insert(banks[i].employee_id, i);
        }
        assert forall|id: u128| match #[trigger] bank_for(t, id) {
            None => !m@.contains_key(id),
            Some(b) => m@.contains_key(id) && m@[id] < t.len() && t[m@[id] as int] == b,
        } by {
            assert(bank_for(banks@.take(i as int), id) == bank_for(t.drop_last(), id));
            match bank_for(t.drop_last(), id) {
                None => {},
                Some(b) => {
                    assert(t[m@[id] as int] == banks@.take(i as int)[m@[id] as int]);
                },
            }
        }
        i = i + 1;
    }
    assert(banks@.take(banks.len() as int) == banks@);
    m
}

/// The position an index holds for an id.
fn lookup(m: &HashMap<u128, usize>, id: u128) -> (r: Option<usize>)
    ensures
        m@.contains_key(id) ==> r == Some(m@[id]),
        !m@.contains_key(id) ==> r is None,
{
    broadcast use vstd::std_specs::hash::group_hash_axioms;

    match m.get(&id) {
        Some(k) => Some(*k),
        None => None,
    }
}

/// Employee code of the payslip's employee (empty when unknown).
pub open spec fn code_of(emps: Seq<EmployeeRecord>, id: u128) -> Seq<char> {
    match employee_for(emps, id) {
        Some(e) => e.employee_code@,
        None => Seq::empty(),
    }
}

/// `"{first} {last}"` of the payslip's employee (empty when unknown).
pub open spec fn name_of(emps: Seq<EmployeeRecord>, id: u128) -> Seq<char> {
    match employee_for(emps, id) {
        Some(e) => e.first_name@ + seq![' '] + e.last_name@,
        None => Seq::empty(),
    }
}

/// Primary PAN of the employee (empty when none).
pub open spec fn pan_of(pans: Seq<PanRecord>, id: u128) -> Seq<char> {
    match pan_for(pans, id) {
        Some(p) => p.pan_number@,
        None => Seq::empty(),
    }
}

fn code_and_name(emps: &Vec<EmployeeRecord>, index: &HashMap<u128, usize>, id: u128) -> (r: (
    String,
    String,
))
    requires
        employee_index_ok(emps@, index@),
    ensures
        r.0@ == code_of(emps@, id),
        r.1@ == name_of(emps@, id),
{
    assert(match employee_for(emps@, id) {
        None => !index@.contains_key(id),
        Some(e) => index@.contains_key(id) && index@[id] < emps@.len() && emps@[index@[id] as int] == e,
    });
    match lookup(index, id) {
        Some(k) => {
            let e = &emps[k];
            let mut name = owned(e.first_name.as_str());
            push_char(&mut name, ' ');
            push_str(&mut name, e.last_name.as_str());
            (owned(e.employee_code.as_str()), name)
        },
        None => (String::new(), String::new()),
    }
}

fn pan_text(pans: &Vec<PanRecord>, index: &HashMap<u128, usize>, id: u128) -> (r: String)
    requires
        pan_index_ok(pans@, index@),
    ensures
        r@ == pan_of(pans@, id),
{
    assert(match pan_for(pans@, id) {
        None => !index@.contains_key(id),
        Some(p) => index@.contains_key(id) && index@[id] < pans@.len() && pans@[index@[id] as int] == p,
    });
    match lookup(index, id) {
        Some(k) => owned(pans[k].pan_number.as_str()),
        None => String::new(),
    }
}

pub open spec fn opt_dec(d: Option<Dec>) -> Dec {
    match d {
        Some(x) => x,
        None => Dec { mantissa: 0, scale: 0 },
    }
}

pub open spec fn opt_text(s: Option<String>) -> Seq<char> {
    match s {
        Some(x) => x@,
        None => Seq::empty(),
    }
}

fn opt_dec_exec(d: Option<Dec>) -> (r: Dec)
    ensures
        r == opt_dec(d),
{
    match d {
        Some(x) => x,
        None => Dec::zero(),
    }
}

fn opt_text_exec(s: &Option<String>) -> (r: String)
    ensures
        r@ == opt_text(*s),
{
    match s {
        Some(x) => owned(x.as_str()),
        None => String::new(),
    }
}

// ----------------------------------------------------------------------------
// Monthly TDS summary
// ----------------------------------------------------------------------------

pub open spec fn tds_header() -> Seq<char> {
    "employee_code,employee_name,pan,period_month,period_year,payroll_cycle_name,gross_salary,total_deductions,tds_amount,net_salary,payslip_status,payslip_id\n"@
}

/// The cells of one TDS summary row.
pub open spec fn tds_cells(month: int, year: int, c: CycleExport, p: PayslipRecord) -> Seq<
    Seq<char>,
> {
    seq![
        csv_cell_text(code_of(c.employees@, p.employee_id)),
        csv_cell_text(name_of(c.employees@, p.employee_id)),
        csv_cell_text(pan_of(c.pans@, p.employee_id)),
        int_text(month),
        int_text(year),
        csv_cell_text(c.cycle_name@),
        dec_cell_text(p.gross_salary),
        dec_cell_text(p.total_deductions),
        dec_cell_text(opt_dec(p.tds_amount)),
        dec_cell_text(p.net_salary),
        csv_cell_text(p.status@),
        csv_cell_text(uuid_text(p.id)),
    ]
}

/// The rows for the first `n` payslips.
pub open spec fn tds_rows(month: int, year: int, c: CycleExport, n: int) -> Seq<char>
    decreases n,
{
    if n <= 0 {
        Seq::empty()
    } else {
        tds_rows(month, year, c, n - 1) + csv_line(tds_cells(month, year, c, c.payslips@[n - 1]))
    }
}

/// All rows of the TDS summary; none without a cycle.
pub open spec fn tds_body(month: int, year: int, cycle: Option<&CycleExport>) -> Seq<char> {
    match cycle {
        None => Seq::empty(),
        Some(c) => tds_rows(month, year, *c, c.payslips@.len() as int),
    }
}

fn int_string(n: i32) -> (r: String)
    ensures
        r@ == int_text(n as int),
{
    let mut s = String::new();
    push_int(&mut s, n as i64);
    s
}

/// India payroll stub: one CSV listing all payslips in a payroll cycle
/// (month + year) with TDS and PAN. The header is always present; the body
/// is empty when there is no matching cycle (`cycle` is `None`) or it has no
/// payslips.
pub fn india_tds_monthly_summary_csv(month: i32, year: i32, cycle: Option<&CycleExport>) -> (r: Result<
    String,
    KabiPayError,
>)
    requires
        cycle matches Some(c) ==> wf_export(*c),
    ensures
        !period_ok(month as int, year as int) ==> is_validation(
            r,
            "month must be 1–12 and year a plausible calendar year"@,
        ),
        period_ok(month as int, year as int) ==> (r matches Ok(s) && s@ == tds_header() + tds_body(
            month as int,
            year as int,
            cycle,
        )),
{
    check_export_period(month, year)?;
    let mut out = owned("employee_code,employee_name,pan,period_month,period_year,payroll_cycle_name,gross_salary,total_deductions,tds_amount,net_salary,payslip_status,payslip_id\n");
    let c = match cycle {
        None => {
            assert(out@ == tds_header() + Seq::<char>::empty());
            return Ok(out);
        },
        Some(c) => c,
    };
    let employees = employee_index(&c.employees);
    let pans = pan_index(&c.pans);
    let n = c.payslips.len();
    let mut i: usize = 0;
    while i < n
        invariant
            n == c.payslips@.len(),
            i <= n,
            wf_export(*c),
            employee_index_ok(c.employees@, employees@),
            pan_index_ok(c.pans@, pans@),
            out@ == tds_header() + tds_rows(month as int, year as int, *c, i as int),
        decreases n - i,
    {
        let p = &c.payslips[i];
        assert(wf_payslip(c.payslips@[i as int]));
        let (code, name) = code_and_name(&c.employees, &employees, p.employee_id);
        let pan = pan_text(&c.pans, &pans, p.employee_id);
        let mut cells: Vec<String> = Vec::new();
        cells.push(csv_cell(code.as_str()));
        cells.push(csv_cell(name.as_str()));
        cells.push(csv_cell(pan.as_str()));
        cells.push(int_string(month));
        cells.push(int_string(year));
        cells.push(csv_cell(c.cycle_name.as_str()));
        cells.push(dec_cell(p.gross_salary));
        cells.push(dec_cell(p.total_deductions));
        cells.push(dec_cell(opt_dec_exec(p.tds_amount)));
        cells.push(dec_cell(p.net_salary));
        cells.push(csv_cell(p.status.as_str()));
        let id_text = uuid_to_string(p.id);
        cells.push(csv_cell(id_text.as_str()));
        assert(views(cells@) =~= tds_cells(month as int, year as int, *c, c.payslips@[i as int]));
        push_csv_line(&mut out, &cells);
        i = i + 1;
    }
    Ok(out)
}

// ----------------------------------------------------------------------------
// Monthly PF / ESI summary
// ----------------------------------------------------------------------------

pub open spec fn pf_esi_header() -> Seq<char> {
    "employee_code,employee_name,pan,uan_number,esic_number,period_month,period_year,payroll_cycle_name,pf_employee,pf_employer,esi_employee,esi_employer,gross_salary,payslip_status,payslip_id\n"@
}

/// The cells of one PF / ESI summary row (missing amounts are zero,
/// missing UAN / ESIC numbers empty).
pub open spec fn pf_esi_cells(month: int, year: int, c: CycleExport, p: PayslipRecord) -> Seq<
    Seq<char>,
> {
    seq![
        csv_cell_text(code_of(c.employees@, p.employee_id)),
        csv_cell_text(name_of(c.employees@, p.employee_id)),
        csv_cell_text(pan_of(c.pans@, p.employee_id)),
        csv_cell_text(opt_text(p.uan_number)),
        csv_cell_text(opt_text(p.esic_number)),
        int_text(month),
        int_text(year),
        csv_cell_text(c.cycle_name@),
        dec_cell_text(opt_dec(p.pf_employee)),
        dec_cell_text(opt_dec(p.pf_employer)),
        dec_cell_text(opt_dec(p.esi_employee)),
        dec_cell_text(opt_dec(p.esi_employer)),
        dec_cell_text(p.gross_salary),
        csv_cell_text(p.status@),
        csv_cell_text(uuid_text(p.id)),
    ]
}

pub open spec fn pf_esi_rows(month: int, year: int, c: CycleExport, n: int) -> Seq<char>
    decreases n,
{
    if n <= 0 {
        Seq::empty()
    } else {
        pf_esi_rows(month, year, c, n - 1) + csv_line(
            pf_esi_cells(month, year, c, c.payslips@[n - 1]),
        )
    }
}

/// All rows of the PF / ESI summary; none without a cycle.
pub open spec fn pf_esi_body(month: int, year: int, cycle: Option<&CycleExport>) -> Seq<char> {
    match cycle {
        None => Seq::empty(),
        Some(c) => pf_esi_rows(month, year, *c, c.payslips@.len() as int),
    }
}

/// India payroll stub: PF + ESI columns from each payslip of the payroll
/// cycle (`month` + `year`). Statutory prep only, not an ECR / challan file.
pub fn india_pf_esi_monthly_summary_csv(month: i32, year: i32, cycle: Option<&CycleExport>) -> (r:
    Result<String, KabiPayError>)
    requires
        cycle matches Some(c) ==> wf_export(*c),
    ensures
        !period_ok(month as int, year as int) ==> is_validation(
            r,
            "month must be 1–12 and year a plausible calendar year"@,
        ),
        period_ok(month as int, year as int) ==> (r matches Ok(s) && s@ == pf_esi_header()
            + pf_esi_body(month as int, year as int, cycle)),
{
    check_export_period(month, year)?;
    let mut out = owned("employee_code,employee_name,pan,uan_number,esic_number,period_month,period_year,payroll_cycle_name,pf_employee,pf_employer,esi_employee,esi_employer,gross_salary,payslip_status,payslip_id\n");
    let c = match cycle {
        None => {
            assert(out@ == pf_esi_header() + Seq::<char>::empty());
            return Ok(out);
        },
        Some(c) => c,
    };
    let employees = employee_index(&c.employees);
    let pans = pan_index(&c.pans);
    let n = c.payslips.len();
    let mut i: usize = 0;
    while i < n
        invariant
            n == c.payslips@.len(),
            i <= n,
            wf_export(*c),
            employee_index_ok(c.employees@, employees@),
            pan_index_ok(c.pans@, pans@),
            out@ == pf_esi_header() + pf_esi_rows(month as int, year as int, *c, i as int),
        decreases n - i,
    {
        let p = &c.payslips[i];
        assert(wf_payslip(c.payslips@[i as int]));
        let (code, name) = code_and_name(&c.employees, &employees, p.employee_id);
        let pan = pan_text(&c.pans, &pans, p.employee_id);
        let uan = opt_text_exec(&p.uan_number);
        let esic = opt_text_exec(&p.esic_number);
        let mut cells: Vec<String> = Vec::new();
        cells.push(csv_cell(code.as_str()));
        cells.push(csv_cell(name.as_str()));
        cells.push(csv_cell(pan.as_str()));
        cells.push(csv_cell(uan.as_str()));
        cells.push(csv_cell(esic.as_str()));
        cells.push(int_string(month));
        cells.push(int_string(year));
        cells.push(csv_cell(c.cycle_name.as_str()));
        cells.push(dec_cell(opt_dec_exec(p.pf_employee)));
        cells.push(dec_cell(opt_dec_exec(p.pf_employer)));
        cells.push(dec_cell(opt_dec_exec(p.esi_employee)));
        cells.push(dec_cell(opt_dec_exec(p.esi_employer)));
        cells.push(dec_cell(p.gross_salary));
        cells.push(csv_cell(p.status.as_str()));
        let id_text = uuid_to_string(p.id);
        cells.push(csv_cell(id_text.as_str()));
        assert(views(cells@) =~= pf_esi_cells(month as int, year as int, *c, c.payslips@[i as int]));
        push_csv_line(&mut out, &cells);
        i = i + 1;
    }
    Ok(out)
}

// ----------------------------------------------------------------------------
// Bank transfer sheet
// ----------------------------------------------------------------------------

pub open spec fn bank_header() -> Seq<char> {
    "employee_code,employee_name,beneficiary_name,bank_name,account_number,ifsc_code,account_type,currency,amount,period_month,period_year,payroll_cycle_name,bank_status,payslip_id\n"@
}

/// `OK` with the bank columns when the employee has a primary bank row;
/// `MISSING_BANK` with empty bank columns otherwise.
pub open spec fn bank_columns(banks: Seq<BankRecord>, id: u128) -> (Seq<char>, Seq<char>, Seq<
    char,
>, Seq<char>, Seq<char>) {
    match bank_for(banks, id) {
        Some(b) => ("OK"@, b.bank_name@, b.account_number@, b.ifsc_code@, opt_text(b.account_type)),
        None => ("MISSING_BANK"@, Seq::empty(), Seq::empty(), Seq::empty(), Seq::empty()),
    }
}

/// The cells of one bank transfer row: the net salary is the amount, in INR.
pub open spec fn bank_cells(month: int, year: int, c: CycleExport, p: PayslipRecord) -> Seq<
    Seq<char>,
> {
    let (status, bank_name, account, ifsc, account_type) = bank_columns(c.banks@, p.employee_id);
    seq![
        csv_cell_text(code_of(c.employees@, p.employee_id)),
        csv_cell_text(name_of(c.employees@, p.employee_id)),
        csv_cell_text(name_of(c.employees@, p.employee_id)),
        csv_cell_text(bank_name),
        csv_cell_text(account),
        csv_cell_text(ifsc),
        csv_cell_text(account_type),
        csv_cell_text("INR"@),
        dec_cell_text(p.net_salary),
        int_text(month),
        int_text(year),
        csv_cell_text(c.cycle_name@),
        status,
        csv_cell_text(uuid_text(p.id)),
    ]
}

pub open spec fn bank_rows(month: int, year: int, c: CycleExport, n: int) -> Seq<char>
    decreases n,
{
    if n <= 0 {
        Seq::empty()
    } else {
        bank_rows(month, year, c, n - 1) + csv_line(bank_cells(month, year, c, c.payslips@[n - 1]))
    }
}

/// All rows of the bank sheet; none without a cycle.
pub open spec fn bank_body(month: int, year: int, cycle: Option<&CycleExport>) -> Seq<char> {
    match cycle {
        None => Seq::empty(),
        Some(c) => bank_rows(month, year, *c, c.payslips@.len() as int),
    }
}

/// **Bank disbursement (CSV).** One row per payslip in the payroll cycle for
/// `month` + `year`, with the employee's primary bank account when present;
/// `net_salary` is the transfer amount. Generic prep, not one bank's format.
pub fn payroll_bank_transfer_csv(month: i32, year: i32, cycle: Option<&CycleExport>) -> (r: Result<
    String,
    KabiPayError,
>)
    requires
        cycle matches Some(c) ==> wf_export(*c),
    ensures
        !period_ok(month as int, year as int) ==> is_validation(
            r,
            "month must be 1–12 and year a plausible calendar year"@,
        ),
        period_ok(month as int, year as int) ==> (r matches Ok(s) && s@ == bank_header()
            + bank_body(month as int, year as int, cycle)),
{
    check_export_period(month, year)?;
    let mut out = owned("employee_code,employee_name,beneficiary_name,bank_name,account_number,ifsc_code,account_type,currency,amount,period_month,period_year,payroll_cycle_name,bank_status,payslip_id\n");
    let c = match cycle {
        None => {
            assert(out@ == bank_header() + Seq::<char>::empty());
            return Ok(out);
        },
        Some(c) => c,
    };
    let employees = employee_index(&c.employees);
    let banks = bank_index(&c.banks);
    let n = c.payslips.len();
    let mut i: usize = 0;
    while i < n
        invariant
            n == c.payslips@.len(),
            i <= n,
            wf_export(*c),
            employee_index_ok(c.employees@, employees@),
            bank_index_ok(c.banks@, banks@),
            out@ == bank_header() + bank_rows(month as int, year as int, *c, i as int),
        decreases n - i,
    {
        let p = &c.payslips[i];
        assert(wf_payslip(c.payslips@[i as int]));
        let (code, name) = code_and_name(&c.employees, &employees, p.employee_id);
        assert(match bank_for(c.banks@, p.employee_id) {
            None => !banks@.contains_key(p.employee_id),
            Some(b) => banks@.contains_key(p.employee_id) && banks@[p.employee_id] < c.banks@.len()
                && c.banks@[banks@[p.employee_id] as int] == b,
        });
        let (status, bank_name, account, ifsc, account_type) = match lookup(&banks, p.employee_id) {
            Some(k) => {
                let b = &c.banks[k];
                (
                    owned("OK"),
                    owned(b.bank_name.as_str()),
                    owned(b.account_number.as_str()),
                    owned(b.ifsc_code.as_str()),
                    opt_text_exec(&b.account_type),
                )
            },
            None => (
                owned("MISSING_BANK"),
                String::new(),
                String::new(),
                String::new(),
                String::new(),
            ),
        };
        let mut cells: Vec<String> = Vec::new();
        cells.push(csv_cell(code.as_str()));
        cells.push(csv_cell(name.as_str()));
        cells.push(csv_cell(name.as_str()));
        cells.push(csv_cell(bank_name.as_str()));
        cells.push(csv_cell(account.as_str()));
        cells.push(csv_cell(ifsc.as_str()));
        cells.push(csv_cell(account_type.as_str()));
        cells.push(csv_cell("INR"));
        cells.push(dec_cell(p.net_salary));
        cells.push(int_string(month));
        cells.push(int_string(year));
        cells.push(csv_cell(c.cycle_name.as_str()));
        cells.push(status);
        let id_text = uuid_to_string(p.id);
        cells.push(csv_cell(id_text.as_str()));
        assert(views(cells@) =~= bank_cells(month as int, year as int, *c, c.payslips@[i as int]));
        push_csv_line(&mut out, &cells);
        i = i + 1;
    }
    Ok(out)
}

} // verus!
