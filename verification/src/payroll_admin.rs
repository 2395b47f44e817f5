//! Payroll administration around the pay run: access to statutory exports,
//! arrears, salary history, the salary components a run uses, TDS figures,
//! and payslip details.
use vstd::prelude::*;
use std::collections::HashMap;

use crate::calendar::Ymd;
use crate::decimal::{dec_le, dec_text, dec_to_string, decimal_from_str, lemma_zero_units, Dec};
use crate::error::{fails_as, is_forbidden, is_validation, not_found, validation, validation_owned, ErrorSpec, KabiPayError};
use crate::ids::{parse_id_arg, uuid_parse, uuid_text, uuid_to_string};
use crate::payroll_export::{
    india_pf_esi_monthly_summary_csv, india_tds_monthly_summary_csv, period_ok, pf_esi_body,
    pf_esi_header, tds_body, tds_header, wf_export, CycleExport,
};
use crate::requests::opt_view;
use crate::text::{chars_of, lower_seq, owned, push_str, str_eq, to_ascii_lower, trim, trimmed};

verus! {

// ----------------------------------------------------------------------------
// Arrears
// ----------------------------------------------------------------------------

/// A new `PENDING` arrear.
#[derive(Clone, Debug)]
pub struct NewArrear {
    pub employee_id: u128,
    pub amount: Dec,
    pub reason: Option<String>,
}

/// Records an arrear for the next pay run; the amount must be positive.
pub fn create_arrear(employee_id: u128, amount: Dec, reason: Option<String>) -> (r: Result<
    NewArrear,
    KabiPayError,
>)
    requires
        amount.wf(),
    ensures
        amount.units() <= 0 ==> is_validation(r, "arrear amount must be positive"@),
        amount.units() > 0 ==> (r matches Ok(a) && a.employee_id == employee_id && a.amount
            == amount && a.reason == reason),
{
    proof {
        lemma_zero_units(Dec { mantissa: 0, scale: 0 });
    }
    if dec_le(amount, Dec::zero()) {
        return Err(validation("arrear amount must be positive"));
    }
    Ok(NewArrear { employee_id, amount, reason })
}

/// Marking arrears applied for a processed cycle: `statuses[i]` is the
/// status of arrear `ids[i]` (`None` when not found). A missing arrear is an
/// error; those no longer `PENDING` are skipped; the others are returned,
/// in order, to be set `APPLIED` for the cycle.
pub fn arrears_to_apply(ids: &Vec<u128>, statuses: &Vec<Option<String>>) -> (r: Result<
    Vec<u128>,
    KabiPayError,
>)
    requires
        ids.len() == statuses.len(),
    ensures
        (forall|i: int| 0 <= i < ids.len() ==> statuses@[i] is Some) ==> (r matches Ok(v) && v@
            == pending_ids(ids@, statuses@)),
        r is Err ==> exists|i: int|
            0 <= i < ids.len() && statuses@[i] is None && (forall|j: int|
                0 <= j < i ==> statuses@[j] is Some) && fails_as(
                r,
                ErrorSpec::NotFound("payroll_arrear"@, uuid_text(ids@[i])),
            ),
{
    let mut out: Vec<u128> = Vec::new();
    let mut i: usize = 0;
    while i < ids.len()
        invariant
            i <= ids.len(),
            ids.len() == statuses.len(),
            forall|j: int| 0 <= j < i ==> statuses@[j] is Some,
            out@ == pending_ids(ids@.take(i as int), statuses@.take(i as int)),
        decreases ids.len() - i,
    {
        assert(ids@.take((i + 1) as int).drop_last() == ids@.take(i as int));
        assert(statuses@.take((i + 1) as int).drop_last() == statuses@.take(i as int));
        match &statuses[i] {
            None => {
                return Err(not_found("payroll_arrear", uuid_to_string(ids[i])));
            },
            Some(s) => {
                if str_eq(s.as_str(), "PENDING") {
                    out.push(ids[i]);
                }
            },
        }
        i = i + 1;
    }
    assert(ids@.take(ids.len() as int) == ids@);
    assert(statuses@.take(statuses.len() as int) == statuses@);
    Ok(out)
}

/// The ids whose status is `PENDING`, in order.
pub open spec fn pending_ids(ids: Seq<u128>, statuses: Seq<Option<String>>) -> Seq<u128>
    decreases ids.len(),
{
    if ids.len() == 0 || statuses.len() == 0 {
        Seq::empty()
    } else {
        let rest = pending_ids(ids.drop_last(), statuses.drop_last());
        if statuses.last() matches Some(s) && s@ == "PENDING"@ {
            rest.push(ids.last())
        } else {
            rest
        }
    }
}

/// Applying arrears marks exactly the pending ones: an arrear whose status
/// is `PENDING` is among the ids marked, and every id marked is that of an
/// arrear that was `PENDING`.
pub proof fn law_apply_marks_exactly_pending(ids: Seq<u128>, statuses: Seq<Option<String>>)
    requires
        ids.len() == statuses.len(),
    ensures
        forall|i: int|
            0 <= i < ids.len() && (statuses[i] matches Some(s) && s@ == "PENDING"@)
                ==> #[trigger] pending_ids(ids, statuses).contains(ids[i]),
        forall|x: u128|
            #[trigger] pending_ids(ids, statuses).contains(x) ==> exists|i: int|
                0 <= i < ids.len() && ids[i] == x && (statuses[i] matches Some(s) && s@
                    == "PENDING"@),
    decreases ids.len(),
{
    if ids.len() > 0 {
        let ia = ids.drop_last();
        let sa = statuses.drop_last();
        law_apply_marks_exactly_pending(ia, sa);
        let rest = pending_ids(ia, sa);
        let n = ids.len() - 1;
        assert forall|i: int|
            0 <= i < ids.len() && (statuses[i] matches Some(s) && s@ == "PENDING"@) implies #[trigger] pending_ids(
            ids,
            statuses,
        ).contains(ids[i]) by {
            if i < n {
                assert(ia[i] == ids[i] && sa[i] == statuses[i]);
                assert(rest.contains(ia[i]));
                let k = choose|k: int| 0 <= k < rest.len() && rest[k] == ia[i];
                if statuses.last() matches Some(s) && s@ == "PENDING"@ {
                    assert(rest.push(ids.last())[k] == ids[i]);
                }
            } else {
                assert(rest.push(ids.last())[rest.len() as int] == ids[i]);
            }
        }
        assert forall|x: u128| #[trigger] pending_ids(ids, statuses).contains(x) implies exists|i: int|
            0 <= i < ids.len() && ids[i] == x && (statuses[i] matches Some(s) && s@ == "PENDING"@) by {
            let r = pending_ids(ids, statuses);
            let k = choose|k: int| 0 <= k < r.len() && r[k] == x;
            if k < rest.len() {
                assert(rest[k] == x);
                assert(rest.contains(x));
                let i = choose|i: int|
                    0 <= i < ia.len() && ia[i] == x && (sa[i] matches Some(s) && s@ == "PENDING"@);
                assert(ids[i] == x && statuses[i] == sa[i]);
            } else {
                assert(ids[n] == x);
            }
        }
    }
}

// ----------------------------------------------------------------------------
// Salary components
// ----------------------------------------------------------------------------

/// What a pay run reads of a salary component.
#[derive(Clone, Debug)]
pub struct ComponentRef {
    pub id: u128,
    pub component_type: String,
}

/// `str::eq_ignore_ascii_case` with `EARNING`.
pub open spec fn is_earning(t: Seq<char>) -> bool {
    lower_seq(t) == "earning"@
}

fn is_earning_exec(t: &str) -> (b: bool)
    ensures
        b == is_earning(t@),
{
    let v = chars_of(t);
    let l = to_ascii_lower(v.as_slice());
    let e = chars_of("earning");
    crate::text::chars_eq(l.as_slice(), e.as_slice())
}

/// The component base salary is paid under: the active `BASIC` component
/// (`basic`), else the first `EARNING` one among the active components.
pub fn default_earning_component(basic: Option<ComponentRef>, active: &Vec<ComponentRef>) -> (r:
    Result<ComponentRef, KabiPayError>)
    ensures
        basic matches Some(b) ==> r matches Ok(c) && c.id == b.id && c.component_type@
            == b.component_type@,
        basic is None ==> match first_earning(active@) {
            Some(k) => r matches Ok(c) && c.id == active@[k].id && c.component_type@
                == active@[k].component_type@,
            None => is_validation(
                r,
                "no active EARNING salary component — seed salary_component (e.g. BASIC) first"@,
            ),
        },
{
    if let Some(b) = basic {
        return Ok(b);
    }
    let mut i: usize = 0;
    while i < active.len()
        invariant
            i <= active.len(),
            basic is None,
            forall|j: int| 0 <= j < i ==> !is_earning(#[trigger] active@[j].component_type@),
        decreases active.len() - i,
    {
        if is_earning_exec(active[i].component_type.as_str()) {
            proof {
                lemma_first_earning_at(active@, i as int);
            }
            return Ok(
                ComponentRef {
                    id: active[i].id,
                    component_type: owned(active[i].component_type.as_str()),
                },
            );
        }
        i = i + 1;
    }
    proof {
        lemma_no_earning(active@);
    }
    Err(validation("no active EARNING salary component — seed salary_component (e.g. BASIC) first"))
}

/// Index of the first `EARNING` component.
pub open spec fn first_earning(s: Seq<ComponentRef>) -> Option<int> {
    if exists|i: int| 0 <= i < s.len() && is_earning(#[trigger] s[i].component_type@) {
        Some(
            choose|i: int|
                0 <= i < s.len() && is_earning(#[trigger] s[i].component_type@) && forall|j: int|
                    0 <= j < i ==> !is_earning(#[trigger] s[j].component_type@),
        )
    } else {
        None
    }
}

proof fn lemma_first_earning_at(s: Seq<ComponentRef>, k: int)
    requires
        0 <= k < s.len(),
        is_earning(s[k].component_type@),
        forall|j: int| 0 <= j < k ==> !is_earning(#[trigger] s[j].component_type@),
    ensures
        first_earning(s) == Some(k),
{
    let c = choose|i: int|
        0 <= i < s.len() && is_earning(#[trigger] s[i].component_type@) && forall|j: int|
            0 <= j < i ==> !is_earning(#[trigger] s[j].component_type@);
    if c < k {
        assert(!is_earning(s[c].component_type@));
    } else if c > k {
        assert(!is_earning(s[k].component_type@));
    }
}

proof fn lemma_no_earning(s: Seq<ComponentRef>)
    requires
        forall|j: int| 0 <= j < s.len() ==> !is_earning(#[trigger] s[j].component_type@),
    ensures
        first_earning(s) is None,
{
}

/// The component arrears are paid under: the active `ARREAR` component,
/// which must be an `EARNING`.
pub fn arrear_component(arrear: Option<ComponentRef>) -> (r: Result<ComponentRef, KabiPayError>)
    ensures
        arrear is None ==> is_validation(
            r,
            "arrear payout lines require an active EARNING `salary_component` with code ARREAR"@,
        ),
        arrear matches Some(c) ==> (!is_earning(c.component_type@) ==> is_validation(
            r,
            "salary component ARREAR must have type EARNING"@,
        )),
        arrear matches Some(c) ==> (is_earning(c.component_type@) ==> (r matches Ok(x) && x.id
            == c.id && x.component_type@ == c.component_type@)),
{
    match arrear {
        None => Err(
            validation(
                "arrear payout lines require an active EARNING `salary_component` with code ARREAR",
            ),
        ),
        Some(c) => {
            if !is_earning_exec(c.component_type.as_str()) {
                return Err(validation("salary component ARREAR must have type EARNING"));
            }
            Ok(c)
        },
    }
}

// ----------------------------------------------------------------------------
// TDS figures
// ----------------------------------------------------------------------------

/// A `tax_computation` row of the financial year.
#[derive(Clone, Copy, Debug)]
pub struct TaxComputation {
    pub employee_id: u128,
    /// When it was computed (ordered instants).
    pub computed_at: i64,
    pub tds_per_month: Option<Dec>,
}

/// Row `k` is the one kept for its employee: the latest computation, the
/// first of equally late ones.
pub open spec fn is_latest(rows: Seq<TaxComputation>, k: int) -> bool {
    &&& 0 <= k < rows.len()
    &&& forall|j: int|
        0 <= j < rows.len() && (#[trigger] rows[j]).employee_id == rows[k].employee_id ==> rows[j].computed_at
            <= rows[k].computed_at
    &&& forall|j: int|
        0 <= j < k && (#[trigger] rows[j]).employee_id == rows[k].employee_id ==> rows[j].computed_at
            < rows[k].computed_at
}

/// Row `k` is the one kept for its employee among the first `n` rows.
pub open spec fn latest_upto(rows: Seq<TaxComputation>, n: int, k: int) -> bool {
    &&& 0 <= k < n
    &&& forall|j: int|
        0 <= j < n && (#[trigger] rows[j]).employee_id == rows[k].employee_id ==> rows[j].computed_at
            <= rows[k].computed_at
    &&& forall|j: int|
        0 <= j < k && (#[trigger] rows[j]).employee_id == rows[k].employee_id ==> rows[j].computed_at
            < rows[k].computed_at
}

/// `m` maps each employee with a row among the first `n` to the position
/// of the row kept for them there.
pub open spec fn latest_index_ok(rows: Seq<TaxComputation>, n: int, m: Map<u128, usize>) -> bool {
    &&& forall|e: u128|
        #[trigger] m.contains_key(e) <==> exists|j: int| 0 <= j < n && rows[j].employee_id == e
    &&& forall|e: u128|
        #[trigger] m.contains_key(e) ==> rows[m[e] as int].employee_id == e && latest_upto(
            rows,
            n,
            m[e] as int,
        )
}

/// For each employee, the position of their latest computation (the first
/// of equally late ones), as the computations are read in order: a later
/// one replaces the kept one only when strictly later.
fn latest_index(rows: &Vec<TaxComputation>) -> (m: HashMap<u128, usize>)
    ensures
        latest_index_ok(rows@, rows@.len() as int, m@),
{
    broadcast use vstd::std_specs::hash::group_hash_axioms;

    let mut m: HashMap<u128, usize> = HashMap::new();
    let mut i: usize = 0;
    while i < rows.len()
        invariant
            i <= rows.len(),
            latest_index_ok(rows@, i as int, m@),
        decreases rows.len() - i,
    {
        let e = rows[i].employee_id;
        let t = rows[i].computed_at;
        let ghost old_m = m@;
        let replace = match m.get(&e) {
            None => true,
            Some(b) => t > rows[*b].computed_at,
        };
        if replace {
            m.insert(e, i);
        }
        assert forall|x: u128| #[trigger] m@.contains_key(x) <==> exists|j: int|
            0 <= j < i + 1 && rows@[j].employee_id == x by {
            if x == e {
                assert(rows@[i as int].employee_id == x);
            }
            if exists|j: int| 0 <= j < i + 1 && rows@[j].employee_id == x {
                let j = choose|j: int| 0 <= j < i + 1 && rows@[j].employee_id == x;
                if j < i {
                    assert(old_m.contains_key(x));
                }
            }
        }
        assert forall|x: u128| #[trigger] m@.contains_key(x) implies rows@[m@[x] as int].employee_id == x
            && latest_upto(rows@, i + 1, m@[x] as int) by {
            if x != e {
                assert(old_m.contains_key(x));
                assert(latest_upto(rows@, i as int, old_m[x] as int));
                assert(rows@[i as int].employee_id != rows@[old_m[x] as int].employee_id);
            } else if replace {
                if old_m.contains_key(e) {
                    assert(latest_upto(rows@, i as int, old_m[e] as int));
                }
                assert forall|j: int|
                    0 <= j < i + 1 && (#[trigger] rows@[j]).employee_id == e implies rows@[j].computed_at
                    <= t by {
                    if j < i {
                        assert(old_m.contains_key(e));
                    }
                }
            } else {
                assert(latest_upto(rows@, i as int, old_m[e] as int));
            }
        }
        i = i + 1;
    }
    m
}

/// The monthly TDS per employee from the year's computations: for each
/// employee the figure of their latest computation (the first of equally
/// late ones), when it has one; in the order of those computations.
pub fn latest_tds_by_employee(rows: &Vec<TaxComputation>) -> (r: Vec<(u128, Dec)>)
    ensures
        r@ == latest_tds_upto(rows@, rows@.len() as int),
{
    broadcast use vstd::std_specs::hash::group_hash_axioms;

    let best = latest_index(rows);
    let mut r: Vec<(u128, Dec)> = Vec::new();
    let mut i: usize = 0;
    while i < rows.len()
        invariant
            i <= rows.len(),
            latest_index_ok(rows@, rows@.len() as int, best@),
            r@ == latest_tds_upto(rows@, i as int),
        decreases rows.len() - i,
    {
        let e = rows[i].employee_id;
        let kept = match best.get(&e) {
            Some(b) => *b == i,
            None => false,
        };
        proof {
            assert(best@.contains_key(e)) by {
                assert(rows@[i as int].employee_id == e);
            }
            let b = best@[e] as int;
            assert(latest_upto(rows@, rows@.len() as int, b));
            assert(is_latest(rows@, b));
            if is_latest(rows@, i as int) && b != i {
                if b < i {
                    law_one_latest_per_employee(rows@, b, i as int);
                } else {
                    law_one_latest_per_employee(rows@, i as int, b);
                }
            }
            assert(kept == is_latest(rows@, i as int));
        }
        if kept {
            if let Some(d) = rows[i].tds_per_month {
                r.push((rows[i].employee_id, d));
            }
        }
        i = i + 1;
    }
    r
}

/// The TDS figures kept among the first `n` rows, each row judged against
/// all rows.
pub open spec fn latest_tds_upto(rows: Seq<TaxComputation>, n: int) -> Seq<(u128, Dec)>
    decreases n,
{
    if n <= 0 {
        Seq::empty()
    } else {
        let rest = latest_tds_upto(rows, n - 1);
        let k = n - 1;
        if is_latest(rows, k) && rows[k].tds_per_month is Some {
            rest.push((rows[k].employee_id, rows[k].tds_per_month->0))
        } else {
            rest
        }
    }
}

/// Each employee gets one TDS figure at most: two rows kept as latest belong
/// to different employees.
pub proof fn law_one_latest_per_employee(rows: Seq<TaxComputation>, a: int, b: int)
    requires
        is_latest(rows, a),
        is_latest(rows, b),
        a < b,
    ensures
        rows[a].employee_id != rows[b].employee_id,
{
    if rows[a].employee_id == rows[b].employee_id {
        assert(rows[a].computed_at < rows[b].computed_at);
        assert(rows[b].computed_at <= rows[a].computed_at);
    }
}

// ----------------------------------------------------------------------------
// Monthly salary
// ----------------------------------------------------------------------------

/// The org columns of an employee that a salary row snapshots.
#[derive(Clone, Copy, Debug)]
pub struct EmployeeOrg {
    pub department_id: Option<u128>,
    pub designation_id: Option<u128>,
    pub cost_center_id: Option<u128>,
}

/// An `employment_history` row.
#[derive(Clone, Debug)]
pub struct SalaryHistoryRow {
    pub id: u128,
    pub employee_id: u128,
    pub department_id: Option<u128>,
    pub designation_id: Option<u128>,
    pub cost_center_id: Option<u128>,
    pub salary: Option<Dec>,
    pub effective_from: Ymd,
    pub effective_to: Option<Ymd>,
    pub change_reason: Option<String>,
    pub changed_by: Option<u128>,
}

/// Sets an employee's monthly salary from a date: the employee must exist
/// (`employee` holds its org columns); the row already effective from that
/// date (`existing`) is updated, else a new row `new_id` is made. Either way
/// the department and designation are snapshotted from the employee.
pub fn set_monthly_salary(
    employee_id: u128,
    employee: Option<EmployeeOrg>,
    existing: Option<SalaryHistoryRow>,
    new_id: u128,
    monthly_salary: Dec,
    effective_from: Ymd,
    actor_user_id: u128,
    change_reason: Option<String>,
) -> (r: Result<SalaryHistoryRow, KabiPayError>)
    ensures
        employee is None ==> fails_as(r, ErrorSpec::NotFound("employee"@, uuid_text(employee_id))),
        employee matches Some(o) ==> (r matches Ok(h) && {
            &&& h.salary == Some(monthly_salary)
            &&& h.changed_by == Some(actor_user_id)
            &&& h.change_reason == change_reason
            &&& h.department_id == o.department_id
            &&& h.designation_id == o.designation_id
            &&& match existing {
                Some(x) => h.id == x.id && h.employee_id == x.employee_id && h.effective_from
                    == x.effective_from && h.effective_to == x.effective_to && h.cost_center_id
                    == x.cost_center_id,
                None => h.id == new_id && h.employee_id == employee_id && h.effective_from
                    == effective_from && h.effective_to is None && h.cost_center_id
                    == o.cost_center_id,
            }
        }),
{
    let o = match employee {
        None => {
            return Err(not_found("employee", uuid_to_string(employee_id)));
        },
        Some(o) => o,
    };
    match existing {
        Some(x) => Ok(
            SalaryHistoryRow {
                salary: Some(monthly_salary),
                changed_by: Some(actor_user_id),
                change_reason,
                department_id: o.department_id,
                designation_id: o.designation_id,
                ..x
            },
        ),
        None => Ok(
            SalaryHistoryRow {
                id: new_id,
                employee_id,
                department_id: o.department_id,
                designation_id: o.designation_id,
                cost_center_id: o.cost_center_id,
                salary: Some(monthly_salary),
                effective_from,
                effective_to: None,
                change_reason,
                changed_by: Some(actor_user_id),
            },
        ),
    }
}

// ----------------------------------------------------------------------------
// Payslip details
// ----------------------------------------------------------------------------

/// A payslip's amounts as the API shows them (decimal text).
#[derive(Clone, Debug)]
pub struct PayslipAmountTexts {
    pub gross_salary: String,
    pub total_deductions: String,
    pub net_salary: String,
    pub pf_employee: Option<String>,
    pub pf_employer: Option<String>,
    pub esi_employee: Option<String>,
    pub esi_employer: Option<String>,
    pub tds_amount: Option<String>,
    pub professional_tax: Option<String>,
}

/// The text of an optional amount.
pub open spec fn opt_dec_text(d: Option<Dec>) -> Option<Seq<char>> {
    match d {
        Some(x) => Some(dec_text(x)),
        None => None,
    }
}

fn opt_dec_string(d: Option<Dec>) -> (r: Option<String>)
    requires
        d matches Some(x) ==> x.wf(),
    ensures
        opt_view(r) == opt_dec_text(d),
{
    match d {
        Some(x) => Some(dec_to_string(x)),
        None => None,
    }
}

/// The stored amounts of a payslip.
#[derive(Clone, Copy, Debug)]
pub struct PayslipAmounts {
    pub gross_salary: Dec,
    pub total_deductions: Dec,
    pub net_salary: Dec,
    pub pf_employee: Option<Dec>,
    pub pf_employer: Option<Dec>,
    pub esi_employee: Option<Dec>,
    pub esi_employer: Option<Dec>,
    pub tds_amount: Option<Dec>,
    pub professional_tax: Option<Dec>,
}

impl PayslipAmounts {
    pub open spec fn wf(self) -> bool {
        &&& self.gross_salary.wf() && self.total_deductions.wf() && self.net_salary.wf()
        &&& self.pf_employee matches Some(x) ==> x.wf()
        &&& self.pf_employer matches Some(x) ==> x.wf()
        &&& self.esi_employee matches Some(x) ==> x.wf()
        &&& self.esi_employer matches Some(x) ==> x.wf()
        &&& self.tds_amount matches Some(x) ==> x.wf()
        &&& self.professional_tax matches Some(x) ==> x.wf()
    }
}

/// The amounts of a payslip detail (`PayslipDetailDto::from_head`), each as
/// `Decimal::to_string` writes it.
pub fn payslip_amount_texts(m: &PayslipAmounts) -> (r: PayslipAmountTexts)
    requires
        m.wf(),
    ensures
        r.gross_salary@ == dec_text(m.gross_salary),
        r.total_deductions@ == dec_text(m.total_deductions),
        r.net_salary@ == dec_text(m.net_salary),
        opt_view(r.pf_employee) == opt_dec_text(m.pf_employee),
        opt_view(r.pf_employer) == opt_dec_text(m.pf_employer),
        opt_view(r.esi_employee) == opt_dec_text(m.esi_employee),
        opt_view(r.esi_employer) == opt_dec_text(m.esi_employer),
        opt_view(r.tds_amount) == opt_dec_text(m.tds_amount),
        opt_view(r.professional_tax) == opt_dec_text(m.professional_tax),
{
    PayslipAmountTexts {
        gross_salary: dec_to_string(m.gross_salary),
        total_deductions: dec_to_string(m.total_deductions),
        net_salary: dec_to_string(m.net_salary),
        pf_employee: opt_dec_string(m.pf_employee),
        pf_employer: opt_dec_string(m.pf_employer),
        esi_employee: opt_dec_string(m.esi_employee),
        esi_employer: opt_dec_string(m.esi_employer),
        tds_amount: opt_dec_string(m.tds_amount),
        professional_tax: opt_dec_string(m.professional_tax),
    }
}

/// Indices of the lines of payslip `id`, in their stored order (the lines
/// of several payslips fetched together, grouped by payslip).
pub fn lines_of_payslip(line_payslip_ids: &Vec<u128>, id: u128) -> (r: Vec<usize>)
    ensures
        forall|a: int, b: int| 0 <= a < b < r@.len() ==> r@[a] < r@[b],
        forall|a: int| 0 <= a < r@.len() ==> (#[trigger] r@[a]) < line_payslip_ids@.len()
            && line_payslip_ids@[r@[a] as int] == id,
        forall|j: int|
            0 <= j < line_payslip_ids@.len() && line_payslip_ids@[j] == id ==> exists|a: int|
                0 <= a < r@.len() && r@[a] == j,
{
    let mut r: Vec<usize> = Vec::new();
    let mut i: usize = 0;
    while i < line_payslip_ids.len()
        invariant
            i <= line_payslip_ids.len(),
            forall|a: int, b: int| 0 <= a < b < r@.len() ==> r@[a] < r@[b],
            forall|a: int| 0 <= a < r@.len() ==> (#[trigger] r@[a]) < i && line_payslip_ids@[r@[a] as int] == id,
            forall|j: int|
                0 <= j < i && line_payslip_ids@[j] == id ==> exists|a: int|
                    0 <= a < r@.len() && r@[a] == j,
        decreases line_payslip_ids.len() - i,
    {
        if line_payslip_ids[i] == id {
            let ghost old_r = r@;
            r.push(i);
            assert forall|j: int|
                0 <= j < i + 1 && line_payslip_ids@[j] == id implies exists|a: int|
                    0 <= a < r@.len() && r@[a] == j by {
                if j == i {
                    assert(r@[old_r.len() as int] == j);
                } else {
                    let a = choose|a: int| 0 <= a < old_r.len() && old_r[a] == j;
                    assert(r@[a] == j);
                }
            }
        }
        i = i + 1;
    }
    r
}

} // verus!
