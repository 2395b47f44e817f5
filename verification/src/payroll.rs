//! Payroll: cycle creation rules, the pay run (which employees get a payslip
//! and what it holds), arrears, and the monthly statutory CSV exports.
use vstd::prelude::*;
use std::collections::HashSet;

use crate::calendar::Ymd;
use crate::csv::{int_text, push_int};
use crate::decimal::{
    dec_add, dec_le, dec_lt, dec_round_dp, dec_sub, diff_fits, diff_spec, round_dp_spec, sum_fits,
    sum_spec, Dec,
};
use crate::error::{fails_as, is_validation, not_found, validation, ErrorSpec, KabiPayError};
use crate::ids::{uuid_text, uuid_to_string};
use crate::payroll_admin::{
    arrear_component, default_earning_component, first_earning, is_earning, ComponentRef,
};
use crate::statutory::{
    compute, deduction_total_fits, deduction_total_spec, employee_deduction_total, gross_in_range,
    statutory_spec, stub_wf, tds_withheld, IndiaStatutoryStub,
};
use crate::text::{
    chars_of, owned, push_char, push_str, string_from_chars, to_ascii_upper, trim_chars, trimmed,
    upper_seq,
};

verus! {

// ----------------------------------------------------------------------------
// Payroll cycles
// ----------------------------------------------------------------------------

/// A payroll cycle ready to be inserted.
#[derive(Clone, Debug)]
pub struct NewPayrollCycle {
    pub name: String,
    pub month: i32,
    pub year: i32,
    /// `DRAFT` for a new cycle.
    pub status: String,
    pub payment_date: Option<Ymd>,
    /// Who ran the cycle; unset until it is run.
    pub processed_by: Option<u128>,
    /// When the cycle was run (seconds since the epoch); unset until then.
    pub processed_at: Option<i64>,
}

/// `m` with at least two digits (`{:02}`) for a month `1..=12`.
pub open spec fn two_digit_month(m: int) -> Seq<char> {
    if m < 10 {
        seq!['0'] + int_text(m)
    } else {
        int_text(m)
    }
}

/// Text of the refusal for a period that already has a cycle.
pub open spec fn cycle_exists_text(month: int, year: int) -> Seq<char> {
    "a payroll cycle already exists for "@ + two_digit_month(month) + seq!['/'] + int_text(year)
}

/// Rules for a new **DRAFT** payroll cycle of a calendar month: the trimmed
/// name must not be empty, the month is `1..=12`, the year `2000..=2200`,
/// and the tenant may not already have a cycle for that month and year
/// (`period_taken`). Returns what to insert: status `DRAFT`, the given
/// payment date, not yet processed.
pub fn create_payroll_cycle(
    name: &str,
    month: i32,
    year: i32,
    payment_date: Option<Ymd>,
    period_taken: bool,
) -> (r: Result<NewPayrollCycle, KabiPayError>)
    ensures
        trimmed(name@).len() == 0 ==> is_validation(r, "name must not be empty"@),
        trimmed(name@).len() != 0 && !(1 <= month <= 12) ==> is_validation(
            r,
            "month must be 1–12"@,
        ),
        trimmed(name@).len() != 0 && 1 <= month <= 12 && !(2000 <= year <= 2200) ==> is_validation(
            r,
            "year must be between 2000 and 2200"@,
        ),
        trimmed(name@).len() != 0 && 1 <= month <= 12 && 2000 <= year <= 2200 && period_taken
            ==> is_validation(r, cycle_exists_text(month as int, year as int)),
        r is Ok <==> (trimmed(name@).len() != 0 && 1 <= month <= 12 && 2000 <= year <= 2200
            && !period_taken),
        r matches Ok(c) ==> {
            &&& c.name@ == trimmed(name@)
            &&& c.month == month
            &&& c.year == year
            &&& c.status@ == "DRAFT"@
            &&& c.payment_date == payment_date
            &&& c.processed_by is None
            &&& c.processed_at is None
        },
{
    let v = chars_of(name);
    let t = trim_chars(&v);
    if t.len() == 0 {
        return Err(validation("name must not be empty"));
    }
    if !(1 <= month && month <= 12) {
        return Err(validation("month must be 1–12"));
    }
    if !(2000 <= year && year <= 2200) {
        return Err(validation("year must be between 2000 and 2200"));
    }
    if period_taken {
        let mut msg = owned("a payroll cycle already exists for ");
        if month < 10 {
            push_char(&mut msg, '0');
        }
        push_int(&mut msg, month as i64);
        push_char(&mut msg, '/');
        push_int(&mut msg, year as i64);
        assert(msg@ =~= cycle_exists_text(month as int, year as int));
        return Err(KabiPayError::Validation(msg));
    }
    Ok(
        NewPayrollCycle {
            name: string_from_chars(t.as_slice()),
            month,
            year,
            status: owned("DRAFT"),
            payment_date,
            processed_by: None,
            processed_at: None,
        },
    )
}

/// A cycle may be run only while its status is `DRAFT` (ASCII case ignored).
pub open spec fn run_allowed_spec(status: Seq<char>) -> bool {
    upper_seq(status) == "DRAFT"@
}

/// Text of the refusal to run a cycle that is not `DRAFT`.
pub open spec fn not_draft_text(status: Seq<char>) -> Seq<char> {
    "payroll cycle must be DRAFT to run (current status: "@ + status + ")"@
}

/// The pay run refuses a cycle whose status is not `DRAFT` (ASCII case ignored).
pub fn check_cycle_runnable(status: &str) -> (r: Result<(), KabiPayError>)
    ensures
        r is Ok <==> run_allowed_spec(status@),
        !run_allowed_spec(status@) ==> is_validation(r, not_draft_text(status@)),
{
    let v = chars_of(status);
    let up = to_ascii_upper(v.as_slice());
    let draft = chars_of("DRAFT");
    if crate::text::chars_eq(up.as_slice(), draft.as_slice()) {
        Ok(())
    } else {
        let mut msg = owned("payroll cycle must be DRAFT to run (current status: ");
        push_str(&mut msg, status);
        push_str(&mut msg, ")");
        Err(KabiPayError::Validation(msg))
    }
}

// ----------------------------------------------------------------------------
// Pay run: one payslip
// ----------------------------------------------------------------------------

/// A `PENDING` arrear waiting for the next pay run.
#[derive(Clone, Copy, Debug)]
pub struct PendingArrear {
    pub id: u128,
    pub amount: Dec,
}

/// Sum of arrear amounts, added left to right from zero.
pub open spec fn arrear_total(s: Seq<PendingArrear>) -> Dec
    decreases s.len(),
{
    if s.len() == 0 {
        Dec { mantissa: 0, scale: 0 }
    } else {
        sum_spec(arrear_total(s.drop_last()), s.last().amount)
    }
}

/// Adding the `i`-th amount to the running sum stays within range.
pub open spec fn arrear_step_fits(s: Seq<PendingArrear>, i: int) -> bool {
    sum_fits(arrear_total(s.take(i)), s[i].amount)
}

/// Every amount is well formed and every running sum stays within range.
pub open spec fn arrears_in_range(s: Seq<PendingArrear>) -> bool {
    &&& forall|i: int| 0 <= i < s.len() ==> (#[trigger] s[i]).amount.wf()
    &&& forall|i: int| 0 <= i < s.len() ==> #[trigger] arrear_step_fits(s, i)
}

/// What a generated payslip holds.
#[derive(Clone, Copy, Debug)]
pub struct PayslipPlan {
    pub gross: Dec,
    pub total_deductions: Dec,
    pub net: Dec,
    pub statutory: IndiaStatutoryStub,
    pub tds: Dec,
    /// Amount of the base-salary line, when the salary is positive.
    pub basic_line: Option<Dec>,
    /// Amount of the arrear payout line, when pending arrears sum above zero.
    pub arrear_line: Option<Dec>,
}

/// Base salary used for gross: the latest salary, zero when there is none.
pub open spec fn base_of(latest_salary: Option<Dec>) -> Dec {
    match latest_salary {
        Some(s) => s,
        None => Dec { mantissa: 0, scale: 0 },
    }
}

/// Gross: base plus arrears, rounded to paise.
pub open spec fn gross_of(latest_salary: Option<Dec>, arrears: Seq<PendingArrear>) -> Dec {
    round_dp_spec(sum_spec(base_of(latest_salary), arrear_total(arrears)), 2)
}

/// TDS handed to the statutory stub: the tax figure rounded to paise.
pub open spec fn tds_in(tds: Option<Dec>) -> Option<Dec> {
    match tds {
        Some(t) => Some(round_dp_spec(t, 2)),
        None => None,
    }
}

/// The payslip an employee gets, or `None` when neither salary nor pending
/// arrears are above zero.
pub open spec fn payslip_spec(
    latest_salary: Option<Dec>,
    arrears: Seq<PendingArrear>,
    tds: Option<Dec>,
) -> Option<PayslipPlan> {
    let base = base_of(latest_salary);
    let arrear_sum = arrear_total(arrears);
    if base.units() <= 0 && arrear_sum.units() <= 0 {
        None
    } else {
        let gross = gross_of(latest_salary, arrears);
        let stat = statutory_spec(gross);
        let tds_w = tds_withheld(tds_in(tds));
        let total = deduction_total_spec(stat, tds_w);
        Some(
            PayslipPlan {
                gross,
                total_deductions: total,
                net: round_dp_spec(diff_spec(gross, total), 2),
                statutory: stat,
                tds: tds_w,
                basic_line: if base.units() > 0 {
                    Some(base)
                } else {
                    None
                },
                arrear_line: if arrear_sum.units() > 0 {
                    Some(arrear_sum)
                } else {
                    None
                },
            },
        )
    }
}

/// Amounts that the decimal type adds, multiplies and subtracts exactly for
/// this payslip (the machine range of the computation).
pub open spec fn payslip_in_range(
    latest_salary: Option<Dec>,
    arrears: Seq<PendingArrear>,
    tds: Option<Dec>,
) -> bool {
    let base = base_of(latest_salary);
    let gross = gross_of(latest_salary, arrears);
    let stat = statutory_spec(gross);
    let tds_w = tds_withheld(tds_in(tds));
    let total = deduction_total_spec(stat, tds_w);
    &&& base.wf()
    &&& (tds matches Some(t) ==> t.wf())
    &&& arrears_in_range(arrears)
    &&& sum_fits(base, arrear_total(arrears))
    &&& gross_in_range(gross)
    &&& deduction_total_fits(stat, tds_w)
    &&& diff_fits(gross, total)
}

proof fn lemma_arrear_total_wf(s: Seq<PendingArrear>)
    requires
        arrears_in_range(s),
    ensures
        arrear_total(s).wf(),
    decreases s.len(),
{
    if s.len() > 0 {
        let t = s.drop_last();
        assert forall|i: int| 0 <= i < t.len() implies (#[trigger] t[i]).amount.wf() by {
            assert(t[i] == s[i]);
        }
        assert forall|i: int| 0 <= i < t.len() implies #[trigger] arrear_step_fits(t, i) by {
            assert(arrear_step_fits(s, i));
            assert(t[i] == s[i]);
            assert(t.take(i) == s.take(i));
        }
        lemma_arrear_total_wf(t);
        assert(s.take(s.len() - 1) == t);
        assert(arrear_step_fits(s, s.len() - 1));
        crate::decimal::lemma_sum_wf(arrear_total(t), s.last().amount);
    }
}

/// Adds up pending arrear amounts left to right from zero.
pub fn sum_arrears(arrears: &Vec<PendingArrear>) -> (total: Dec)
    requires
        arrears_in_range(arrears@),
    ensures
        total == arrear_total(arrears@),
        total.wf(),
{
    let mut total = Dec::zero();
    let mut i: usize = 0;
    while i < arrears.len()
        invariant
            i <= arrears.len(),
            arrears_in_range(arrears@),
            total == arrear_total(arrears@.take(i as int)),
            total.wf(),
        decreases arrears.len() - i,
    {
        assert(arrears@.take((i + 1) as int).drop_last() == arrears@.take(i as int));
        assert(arrear_step_fits(arrears@, i as int));
        assert(arrears@[i as int].amount.wf());
        total = dec_add(total, arrears[i].amount);
        assert(arrears@.take((i + 1) as int).last() == arrears@[i as int]);
        i = i + 1;
    }
    assert(arrears@.take(arrears.len() as int) == arrears@);
    total
}

/// One employee's payslip for the pay run: base = latest salary (zero when
/// none), plus pending arrears; no payslip when neither is above zero.
/// Gross is rounded to paise, the India statutory stub applied (with TDS
/// rounded to paise), and net = gross − employee deductions, rounded.
pub fn plan_payslip(latest_salary: Option<Dec>, arrears: &Vec<PendingArrear>, tds: Option<Dec>) -> (r:
    Option<PayslipPlan>)
    requires
        payslip_in_range(latest_salary, arrears@, tds),
    ensures
        r == payslip_spec(latest_salary, arrears@, tds),
{
    let base = match latest_salary {
        Some(s) => s,
        None => Dec::zero(),
    };
    let arrear_sum = sum_arrears(arrears);
    let zero = Dec::zero();
    if dec_le(base, zero) && dec_le(arrear_sum, zero) {
        return None;
    }
    let gross = dec_round_dp(dec_add(base, arrear_sum), 2);
    let tds_m = match tds {
        Some(t) => Some(dec_round_dp(t, 2)),
        None => None,
    };
    let (stat, tds_w) = compute(gross, tds_m);
    let total = employee_deduction_total(&stat, tds_w);
    let net = dec_round_dp(dec_sub(gross, total), 2);
    let basic_line = if dec_lt(zero, base) {
        Some(base)
    } else {
        None
    };
    let arrear_line = if dec_lt(zero, arrear_sum) {
        Some(arrear_sum)
    } else {
        None
    };
    Some(
        PayslipPlan {
            gross,
            total_deductions: total,
            net,
            statutory: stat,
            tds: tds_w,
            basic_line,
            arrear_line,
        },
    )
}

// ----------------------------------------------------------------------------
// Pay run: the whole cycle
// ----------------------------------------------------------------------------

/// What the pay run knows about one `ACTIVE` employee.
#[derive(Clone, Debug)]
pub struct EmployeePayInput {
    pub employee_id: u128,
    /// Latest `employment_history.salary`, if any.
    pub latest_salary: Option<Dec>,
    /// The employee's `PENDING` arrears.
    pub pending_arrears: Vec<PendingArrear>,
    /// Monthly TDS from the latest tax computation of the pay month's FY.
    pub tds_per_month: Option<Dec>,
    pub uan_number: Option<String>,
    pub esic_number: Option<String>,
}

/// A `payslip_component` line: the salary component it is paid under, the
/// amount, and the component's type.
#[derive(Clone, Debug)]
pub struct PayslipLine {
    pub salary_component_id: u128,
    pub amount: Dec,
    pub component_type: String,
}

/// `l` pays `amount` under component `c`.
pub open spec fn line_of(l: PayslipLine, c: ComponentRef, amount: Dec) -> bool {
    &&& l.salary_component_id == c.id
    &&& l.amount == amount
    &&& l.component_type@ == c.component_type@
}

/// The lines of a payslip: the base-salary line under `basic` when the
/// salary is positive, then the arrear line under `arrear` when arrears are
/// paid (and an arrear component is at hand).
pub open spec fn lines_ok(
    lines: Seq<PayslipLine>,
    p: PayslipPlan,
    basic: ComponentRef,
    arrear: Option<ComponentRef>,
) -> bool {
    let nb: int = if p.basic_line is Some {
        1
    } else {
        0
    };
    let na: int = if p.arrear_line is Some && arrear is Some {
        1
    } else {
        0
    };
    &&& lines.len() == nb + na
    &&& (p.basic_line matches Some(a) ==> line_of(lines[0], basic, a))
    &&& (p.arrear_line matches Some(a) ==> (arrear matches Some(c) ==> line_of(lines[nb], c, a)))
}

fn copy_component(c: &ComponentRef) -> (r: ComponentRef)
    ensures
        r.id == c.id,
        r.component_type@ == c.component_type@,
{
    ComponentRef { id: c.id, component_type: owned(c.component_type.as_str()) }
}

fn payslip_lines(p: &PayslipPlan, basic: &ComponentRef, arrear: &Option<ComponentRef>) -> (r: Vec<
    PayslipLine,
>)
    ensures
        lines_ok(r@, *p, *basic, *arrear),
{
    let mut lines: Vec<PayslipLine> = Vec::new();
    if let Some(a) = p.basic_line {
        lines.push(
            PayslipLine {
                salary_component_id: basic.id,
                amount: a,
                component_type: owned(basic.component_type.as_str()),
            },
        );
    }
    if let Some(a) = p.arrear_line {
        if let Some(c) = arrear {
            lines.push(
                PayslipLine {
                    salary_component_id: c.id,
                    amount: a,
                    component_type: owned(c.component_type.as_str()),
                },
            );
        }
    }
    lines
}

/// A pending arrear as the pay run leaves it: `APPLIED` in the cycle.
#[derive(Clone, Debug)]
pub struct AppliedArrear {
    pub id: u128,
    pub status: String,
    pub applied_payroll_cycle_id: Option<u128>,
}

/// A payslip the pay run generates.
#[derive(Clone, Debug)]
pub struct PlannedPayslip {
    /// Position of the employee in the run's input.
    pub index: usize,
    pub employee_id: u128,
    pub payroll_cycle_id: u128,
    /// `GENERATED`.
    pub status: String,
    pub plan: PayslipPlan,
    /// The payslip's component lines.
    pub lines: Vec<PayslipLine>,
    /// The employee's UAN and ESIC numbers, copied onto the payslip.
    pub uan_number: Option<String>,
    pub esic_number: Option<String>,
    /// The employee's arrears as they are written back (all pending ones,
    /// when they sum above zero).
    pub applied_arrears: Vec<AppliedArrear>,
}

/// What a pay run writes: the new payslips, and the cycle's new status with
/// who ran it and when.
#[derive(Clone, Debug)]
pub struct PayRun {
    pub payslips: Vec<PlannedPayslip>,
    /// `PROCESSED`.
    pub cycle_status: String,
    pub processed_by: Option<u128>,
    /// Seconds since the epoch.
    pub processed_at: Option<i64>,
}

/// The arrear rows of a planned payslip as written back: the listed ids,
/// each `APPLIED` in cycle `cycle_id`.
pub open spec fn arrears_applied(a: Seq<AppliedArrear>, ids: Seq<u128>, cycle_id: u128) -> bool {
    &&& a.len() == ids.len()
    &&& forall|j: int|
        0 <= j < a.len() ==> {
            &&& (#[trigger] a[j]).id == ids[j]
            &&& a[j].status@ == "APPLIED"@
            &&& a[j].applied_payroll_cycle_id == Some(cycle_id)
        }
}

pub open spec fn employee_payslip(e: EmployeePayInput) -> Option<PayslipPlan> {
    payslip_spec(e.latest_salary, e.pending_arrears@, e.tds_per_month)
}

/// The ids of the arrears a planned payslip marks applied.
pub open spec fn applied_ids(e: EmployeePayInput, p: PayslipPlan) -> Seq<u128> {
    if p.arrear_line is Some {
        Seq::new(e.pending_arrears@.len(), |i: int| e.pending_arrears@[i].id)
    } else {
        Seq::empty()
    }
}

/// The rows written back are the employee's pending arrears, one for one
/// and in order (each is then `APPLIED`, see [`arrears_applied`]).
pub open spec fn covers_pending(a: Seq<AppliedArrear>, pending: Seq<PendingArrear>) -> bool {
    &&& a.len() == pending.len()
    &&& forall|j: int| 0 <= j < a.len() ==> (#[trigger] a[j]).id == pending[j].id
}

/// A payslip that pays arrears applies every pending arrear of the
/// employee, and only those: the applied ids are exactly the pending
/// arrears' ids, one for one, and the arrear line pays their total; a
/// payslip without an arrear line applies none.
pub proof fn law_paid_arrears_all_applied(e: EmployeePayInput, p: PayslipPlan)
    requires
        employee_payslip(e) == Some(p),
    ensures
        p.arrear_line is Some ==> applied_ids(e, p).len() == e.pending_arrears@.len(),
        p.arrear_line is Some ==> forall|j: int|
            0 <= j < e.pending_arrears@.len() ==> #[trigger] applied_ids(e, p)[j]
                == e.pending_arrears@[j].id,
        p.arrear_line is Some ==> forall|x: u128|
            (exists|j: int| 0 <= j < e.pending_arrears@.len() && e.pending_arrears@[j].id == x)
                ==> #[trigger] applied_ids(e, p).contains(x),
        p.arrear_line matches Some(a) ==> a == arrear_total(e.pending_arrears@),
        p.arrear_line is None ==> applied_ids(e, p).len() == 0,
{
    if p.arrear_line is Some {
        assert forall|x: u128|
            (exists|j: int| 0 <= j < e.pending_arrears@.len() && e.pending_arrears@[j].id == x)
                implies #[trigger] applied_ids(e, p).contains(x) by {
            let j = choose|j: int| 0 <= j < e.pending_arrears@.len() && e.pending_arrears@[j].id == x;
            assert(applied_ids(e, p)[j] == x);
        }
    }
}

/// Employees from position `start` on that get a payslip, given the ids
/// that already have one: an employee is skipped when they already have a
/// payslip or nothing to pay; a generated payslip marks the employee done.
pub open spec fn run_plan(have: Set<u128>, emps: Seq<EmployeePayInput>, start: int) -> Seq<
    (int, PayslipPlan),
>
    decreases emps.len() - start,
{
    if start < 0 || start >= emps.len() {
        Seq::empty()
    } else {
        let e = emps[start];
        if have.contains(e.employee_id) {
            run_plan(have, emps, start + 1)
        } else {
            match employee_payslip(e) {
                None => run_plan(have, emps, start + 1),
                Some(p) => seq![(start, p)] + run_plan(have.insert(e.employee_id), emps, start + 1),
            }
        }
    }
}

pub open spec fn employee_in_range(e: EmployeePayInput) -> bool {
    payslip_in_range(e.latest_salary, e.pending_arrears@, e.tds_per_month)
}

/// What a pay run writes for a cycle `cycle_id` it may run, run by
/// `processed_by` at `now`: for each `ACTIVE` employee, in order, without a
/// payslip in the cycle (`existing` holds the employees that have one), a
/// `GENERATED` payslip when salary or pending arrears are above zero, with
/// its lines under `basic` and `arrear`, the employee's UAN and ESIC
/// numbers, and the employee's pending arrears `APPLIED` in the cycle when
/// they are paid; the cycle becomes `PROCESSED`, recording who ran it and
/// when.
pub fn plan_pay_run(
    cycle_id: u128,
    processed_by: u128,
    now: i64,
    existing: &Vec<u128>,
    employees: &Vec<EmployeePayInput>,
    basic: &ComponentRef,
    arrear: &Option<ComponentRef>,
) -> (r: PayRun)
    requires
        forall|i: int| 0 <= i < employees.len() ==> employee_in_range(#[trigger] employees@[i]),
    ensures
        r.cycle_status@ == "PROCESSED"@,
        r.processed_by == Some(processed_by),
        r.processed_at == Some(now),
        r.payslips@.len() == run_plan(existing@.to_set(), employees@, 0).len(),
        forall|k: int|
            0 <= k < r.payslips@.len() ==> {
                let (idx, plan) = run_plan(existing@.to_set(), employees@, 0)[k];
                &&& (#[trigger] r.payslips@[k]).index == idx
                &&& r.payslips@[k].employee_id == employees@[idx].employee_id
                &&& r.payslips@[k].payroll_cycle_id == cycle_id
                &&& r.payslips@[k].status@ == "GENERATED"@
                &&& r.payslips@[k].plan == plan
                &&& lines_ok(r.payslips@[k].lines@, plan, *basic, *arrear)
                &&& r.payslips@[k].uan_number == employees@[idx].uan_number
                &&& r.payslips@[k].esic_number == employees@[idx].esic_number
                &&& (plan.arrear_line is Some ==> covers_pending(
                    r.payslips@[k].applied_arrears@,
                    employees@[idx].pending_arrears@,
                ))
                &&& (plan.arrear_line is None ==> r.payslips@[k].applied_arrears@.len() == 0)
                &&& arrears_applied(
                    r.payslips@[k].applied_arrears@,
                    applied_ids(employees@[idx], plan),
                    cycle_id,
                )
            },
{
    broadcast use vstd::std_specs::hash::group_hash_axioms;

    let ghost full = run_plan(existing@.to_set(), employees@, 0);
    let mut have: HashSet<u128> = HashSet::new();
    let mut e0: usize = 0;
    while e0 < existing.len()
        invariant
            e0 <= existing.len(),
            have@ == existing@.take(e0 as int).to_set(),
        decreases existing.len() - e0,
    {
        let ghost before = have@;
        have.insert(existing[e0]);
        proof {
            let t = existing@.take(e0 as int);
            assert(existing@.take((e0 + 1) as int) == t + seq![existing@[e0 as int]]);
            Seq::<u128>::lemma_to_set_insert_commutes(t, existing@[e0 as int]);
        }
        e0 = e0 + 1;
    }
    assert(existing@.take(existing.len() as int) == existing@);
    let mut out: Vec<PlannedPayslip> = Vec::new();
    let ghost mut done: Seq<(int, PayslipPlan)> = Seq::empty();
    let mut i: usize = 0;
    while i < employees.len()
        invariant
            i <= employees.len(),
            forall|j: int| 0 <= j < employees.len() ==> employee_in_range(#[trigger] employees@[j]),
            full == run_plan(existing@.to_set(), employees@, 0),
            full == done + run_plan(have@, employees@, i as int),
            out@.len() == done.len(),
            forall|k: int|
                0 <= k < out@.len() ==> {
                    let (idx, plan) = done[k];
                    &&& 0 <= idx < employees.len()
                    &&& (#[trigger] out@[k]).index == idx
                    &&& out@[k].employee_id == employees@[idx].employee_id
                    &&& out@[k].payroll_cycle_id == cycle_id
                    &&& out@[k].status@ == "GENERATED"@
                    &&& out@[k].plan == plan
                    &&& lines_ok(out@[k].lines@, plan, *basic, *arrear)
                    &&& out@[k].uan_number == employees@[idx].uan_number
                    &&& out@[k].esic_number == employees@[idx].esic_number
                    &&& arrears_applied(
                        out@[k].applied_arrears@,
                        applied_ids(employees@[idx], plan),
                        cycle_id,
                    )
                },
        decreases employees.len() - i,
    {
        let e = &employees[i];
        let ghost rest = run_plan(have@, employees@, i as int);
        if have.contains(&e.employee_id) {
            assert(rest == run_plan(have@, employees@, i + 1));
        } else {
            assert(employee_in_range(employees@[i as int]));
            let p = plan_payslip(e.latest_salary, &e.pending_arrears, e.tds_per_month);
            match p {
                None => {
                    assert(rest == run_plan(have@, employees@, i + 1));
                },
                Some(plan) => {
                    let mut applied: Vec<AppliedArrear> = Vec::new();
                    let ghost mut ids: Seq<u128> = Seq::empty();
                    if plan.arrear_line.is_some() {
                        let mut j: usize = 0;
                        while j < e.pending_arrears.len()
                            invariant
                                j <= e.pending_arrears.len(),
                                ids == Seq::new(j as nat, |q: int| e.pending_arrears@[q].id),
                                arrears_applied(applied@, ids, cycle_id),
                            decreases e.pending_arrears.len() - j,
                        {
                            applied.push(
                                AppliedArrear {
                                    id: e.pending_arrears[j].id,
                                    status: owned("APPLIED"),
                                    applied_payroll_cycle_id: Some(cycle_id),
                                },
                            );
                            proof {
                                ids = ids.push(e.pending_arrears@[j as int].id);
                            }
                            j = j + 1;
                        }
                    }
                    assert(ids == applied_ids(employees@[i as int], plan));
                    have.insert(e.employee_id);
                    let lines = payslip_lines(&plan, basic, arrear);
                    out.push(
                        PlannedPayslip {
                            index: i,
                            employee_id: e.employee_id,
                            payroll_cycle_id: cycle_id,
                            status: owned("GENERATED"),
                            plan,
                            lines,
                            uan_number: e.uan_number.clone(),
                            esic_number: e.esic_number.clone(),
                            applied_arrears: applied,
                        },
                    );
                    proof {
                        assert(rest == seq![(i as int, plan)] + run_plan(have@, employees@, i + 1));
                        done = done.push((i as int, plan));
                        assert(full == done + run_plan(have@, employees@, i + 1));
                    }
                },
            }
        }
        i = i + 1;
    }
    assert(run_plan(have@, employees@, employees.len() as int) == Seq::<(int, PayslipPlan)>::empty());
    assert(full == done);
    PayRun {
        payslips: out,
        cycle_status: owned("PROCESSED"),
        processed_by: Some(processed_by),
        processed_at: Some(now),
    }
}

/// How many lines a payslip has: one for a positive base salary, one for
/// paid arrears.
pub open spec fn line_count(p: PayslipPlan) -> int {
    (if p.basic_line is Some {
        1int
    } else {
        0int
    }) + (if p.arrear_line is Some {
        1int
    } else {
        0int
    })
}

/// The component base salary is paid under: `basic`, else the first
/// `EARNING` one of `active`.
pub open spec fn default_component(basic: Option<ComponentRef>, active: Seq<ComponentRef>) -> ComponentRef {
    match basic {
        Some(b) => b,
        None => active[first_earning(active)->0],
    }
}

/// Whether some planned payslip pays arrears.
pub open spec fn pays_arrears(plans: Seq<(int, PayslipPlan)>) -> bool {
    exists|k: int| 0 <= k < plans.len() && (#[trigger] plans[k]).1.arrear_line is Some
}

/// Text of the refusal to pay arrears without a usable `ARREAR` component.
pub open spec fn arrear_component_error(arrear: Option<ComponentRef>) -> Option<Seq<char>> {
    match arrear {
        None => Some(
            "arrear payout lines require an active EARNING `salary_component` with code ARREAR"@,
        ),
        Some(c) => if !is_earning(c.component_type@) {
            Some("salary component ARREAR must have type EARNING"@)
        } else {
            None
        },
    }
}

/// The first reason a pay run is refused, if any, in the order the run
/// checks: the cycle exists (`cycle_status` is its status), it is `DRAFT`,
/// the tenant has a default earning component (`basic`, else the first
/// `EARNING` one of `active`), and, when some payslip pays arrears, an
/// active `EARNING` `ARREAR` component (`arrear`).
pub open spec fn pay_run_error(
    cycle_id: u128,
    cycle_status: Option<String>,
    basic: Option<ComponentRef>,
    active: Seq<ComponentRef>,
    arrear: Option<ComponentRef>,
    plans: Seq<(int, PayslipPlan)>,
) -> Option<ErrorSpec> {
    match cycle_status {
        None => Some(ErrorSpec::NotFound("payroll_cycle"@, uuid_text(cycle_id))),
        Some(st) => if !run_allowed_spec(st@) {
            Some(ErrorSpec::Validation(not_draft_text(st@)))
        } else if basic is None && first_earning(active) is None {
            Some(
                ErrorSpec::Validation(
                    "no active EARNING salary component — seed salary_component (e.g. BASIC) first"@,
                ),
            )
        } else if pays_arrears(plans) && arrear_component_error(arrear) is Some {
            Some(ErrorSpec::Validation(arrear_component_error(arrear)->0))
        } else {
            None
        },
    }
}

/// v2 pay run of payroll cycle `cycle_id` (`cycle_status` is its status,
/// `None` when the tenant has no such cycle), run by `processed_by` at
/// `now`. It is refused, with nothing written, as [`pay_run_error`] says;
/// otherwise it writes what [`plan_pay_run`] plans, with lines under the
/// default earning component and, for arrears, the `ARREAR` component.
pub fn run_payroll_for_cycle(
    cycle_id: u128,
    cycle_status: Option<String>,
    basic: Option<ComponentRef>,
    active: &Vec<ComponentRef>,
    arrear: Option<ComponentRef>,
    processed_by: u128,
    now: i64,
    existing: &Vec<u128>,
    employees: &Vec<EmployeePayInput>,
) -> (r: Result<PayRun, KabiPayError>)
    requires
        forall|i: int| 0 <= i < employees.len() ==> employee_in_range(#[trigger] employees@[i]),
    ensures
        match pay_run_error(
            cycle_id,
            cycle_status,
            basic,
            active@,
            arrear,
            run_plan(existing@.to_set(), employees@, 0),
        ) {
            Some(e) => fails_as(r, e),
            None => r is Ok,
        },
        r matches Ok(run) ==> {
            let plans = run_plan(existing@.to_set(), employees@, 0);
            let b = default_component(basic, active@);
            &&& run.cycle_status@ == "PROCESSED"@
            &&& run.processed_by == Some(processed_by)
            &&& run.processed_at == Some(now)
            &&& run.payslips@.len() == plans.len()
            &&& (forall|k: int|
                0 <= k < run.payslips@.len() ==> {
                    let (idx, plan) = plans[k];
                    &&& (#[trigger] run.payslips@[k]).index == idx
                    &&& run.payslips@[k].employee_id == employees@[idx].employee_id
                    &&& run.payslips@[k].payroll_cycle_id == cycle_id
                    &&& run.payslips@[k].status@ == "GENERATED"@
                    &&& run.payslips@[k].plan == plan
                    &&& run.payslips@[k].uan_number == employees@[idx].uan_number
                    &&& run.payslips@[k].esic_number == employees@[idx].esic_number
                    &&& (plan.arrear_line is Some ==> covers_pending(
                        run.payslips@[k].applied_arrears@,
                        employees@[idx].pending_arrears@,
                    ))
                    &&& (plan.arrear_line is None ==> run.payslips@[k].applied_arrears@.len() == 0)
                    &&& (plan.basic_line matches Some(a) ==> line_of(
                        run.payslips@[k].lines@[0],
                        b,
                        a,
                    ))
                    &&& (plan.arrear_line matches Some(a) ==> (arrear matches Some(c) && line_of(
                        run.payslips@[k].lines@[run.payslips@[k].lines@.len() - 1],
                        c,
                        a,
                    )))
                    &&& run.payslips@[k].lines@.len() == line_count(plan)
                    &&& arrears_applied(
                        run.payslips@[k].applied_arrears@,
                        applied_ids(employees@[idx], plan),
                        cycle_id,
                    )
                })
        },
{
    let st = match cycle_status {
        None => {
            return Err(not_found("payroll_cycle", uuid_to_string(cycle_id)));
        },
        Some(st) => st,
    };
    check_cycle_runnable(st.as_str())?;
    let b = default_earning_component(basic, active)?;
    let arrear_c = arrear_component(arrear);
    let arrear_line_comp: Option<ComponentRef> = match &arrear_c {
        Ok(c) => Some(copy_component(c)),
        Err(_) => None,
    };
    let run = plan_pay_run(cycle_id, processed_by, now, existing, employees, &b, &arrear_line_comp);
    let ghost plans = run_plan(existing@.to_set(), employees@, 0);
    let mut k: usize = 0;
    let mut pays: bool = false;
    while k < run.payslips.len()
        invariant
            k <= run.payslips@.len(),
            run.payslips@.len() == plans.len(),
            forall|j: int| 0 <= j < run.payslips@.len() ==> (#[trigger] run.payslips@[j]).plan == plans[j].1,
            pays <==> exists|j: int| 0 <= j < k && (#[trigger] plans[j]).1.arrear_line is Some,
        decreases run.payslips@.len() - k,
    {
        if run.payslips[k].plan.arrear_line.is_some() {
            assert(plans[k as int].1.arrear_line is Some);
            pays = true;
        }
        k = k + 1;
    }
    if pays {
        match arrear_c {
            Err(e) => {
                return Err(e);
            },
            Ok(_) => {},
        }
    }
    Ok(run)
}

} // verus!
