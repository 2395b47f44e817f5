//! Resolvers of the payroll service.
use vstd::prelude::*;

use crate::decimal::{dec_from_str, decimal_from_str, Dec};
use crate::error::{forbidden, is_forbidden, is_validation, validation_owned, KabiPayError};
use crate::ids::{parse_id_arg, uuid_parse};
use crate::payroll_export::{
    india_pf_esi_monthly_summary_csv, india_tds_monthly_summary_csv, period_ok, pf_esi_body,
    pf_esi_header, tds_body, tds_header, wf_export, CycleExport,
};
use crate::scope::EmployeeScopeFilter;
use crate::text::{owned, push_str, trim, trimmed};

verus! {

/// Statutory payroll work needs the `payroll:statutory_export` permission or
/// an HR / tenant admin role (`can_export`); otherwise `refusal` is returned
/// as a forbidden error.
pub fn require_statutory_export(can_export: bool, refusal: &str) -> (r: Result<(), KabiPayError>)
    ensures
        can_export ==> r is Ok,
        !can_export ==> is_forbidden(r, refusal@),
{
    if can_export {
        Ok(())
    } else {
        Err(forbidden(refusal))
    }
}

/// The refusal of a statutory CSV export.
pub open spec fn export_refusal() -> Seq<char> {
    "payroll statutory export requires payroll:statutory_export or HR / tenant admin role"@
}

/// The resolvers of the payroll service's queries.
pub struct QueryRoot;

impl QueryRoot {
    /// India monthly TDS summary CSV, for callers allowed statutory exports.
    pub fn india_tds_monthly_summary_csv(
        can_export: bool,
        month: i32,
        year: i32,
        cycle: Option<&CycleExport>,
    ) -> (r: Result<String, KabiPayError>)
        requires
            cycle matches Some(c) ==> wf_export(*c),
        ensures
            !can_export ==> is_forbidden(r, export_refusal()),
            can_export && !period_ok(month as int, year as int) ==> is_validation(
                r,
                "month must be 1–12 and year a plausible calendar year"@,
            ),
            can_export && period_ok(month as int, year as int) ==> (r matches Ok(s) && s@
                == tds_header() + tds_body(month as int, year as int, cycle)),
    {
        require_statutory_export(
            can_export,
            "payroll statutory export requires payroll:statutory_export or HR / tenant admin role",
        )?;
        india_tds_monthly_summary_csv(month, year, cycle)
    }

    /// India monthly PF / ESI summary CSV, for callers allowed statutory
    /// exports.
    pub fn india_pf_esi_monthly_summary_csv(
        can_export: bool,
        month: i32,
        year: i32,
        cycle: Option<&CycleExport>,
    ) -> (r: Result<String, KabiPayError>)
        requires
            cycle matches Some(c) ==> wf_export(*c),
        ensures
            !can_export ==> is_forbidden(r, export_refusal()),
            can_export && !period_ok(month as int, year as int) ==> is_validation(
                r,
                "month must be 1–12 and year a plausible calendar year"@,
            ),
            can_export && period_ok(month as int, year as int) ==> (r matches Ok(s) && s@
                == pf_esi_header() + pf_esi_body(month as int, year as int, cycle)),
    {
        require_statutory_export(
            can_export,
            "payroll statutory export requires payroll:statutory_export or HR / tenant admin role",
        )?;
        india_pf_esi_monthly_summary_csv(month, year, cycle)
    }

    /// `payslip(id:)`: the id argument.
    pub fn payslip_id(raw: &str) -> (r: Result<u128, KabiPayError>)
        ensures
            uuid_parse(raw@) matches Ok(v) ==> r == Ok::<u128, KabiPayError>(v),
            uuid_parse(raw@) matches Err(e) ==> is_validation(r, "invalid id: "@ + e),
    {
        parse_id_arg(raw, "invalid id: ")
    }

    /// `payslips`: an explicit `employeeId` argument, read; without one the
    /// caller's own employee is used (`None` here).
    pub fn payslips_employee(raw: &Option<String>) -> (r: Result<Option<u128>, KabiPayError>)
        ensures
            raw is None ==> r == Ok::<Option<u128>, KabiPayError>(None),
            raw matches Some(s) ==> (uuid_parse(s@) matches Ok(v) ==> r == Ok::<
                Option<u128>,
                KabiPayError,
            >(Some(v))),
            raw matches Some(s) ==> (uuid_parse(s@) matches Err(e) ==> is_validation(
                r,
                "invalid employeeId: "@ + e,
            )),
    {
        crate::ids::parse_opt_id_arg(raw, "invalid employeeId: ")
    }

    /// Payslips are shown only for employees the caller's scope allows.
    pub fn payslip_visible(filter: &EmployeeScopeFilter, employee_id: u128) -> (b: bool)
        ensures
            b == filter.allows(employee_id),
    {
        filter.allows_employee(employee_id)
    }
}

/// The resolvers of the payroll service's mutations.
pub struct MutationRoot;

impl MutationRoot {
    /// `createPayrollArrear`: permission, the employee id, then the amount
    /// (read trimmed; `amount: {error}` when refused).
    pub fn create_payroll_arrear(can_export: bool, employee_id: &str, amount: &str) -> (r: Result<
        (u128, Dec),
        KabiPayError,
    >)
        ensures
            !can_export ==> is_forbidden(
                r,
                "create payroll arrear requires payroll:statutory_export or HR / tenant admin"@,
            ),
            can_export ==> (uuid_parse(employee_id@) matches Err(e) ==> is_validation(
                r,
                "invalid employeeId: "@ + e,
            )),
            can_export && uuid_parse(employee_id@) is Ok ==> (decimal_from_str(trimmed(amount@)) matches Err(e)
                ==> is_validation(r, "amount: "@ + e)),
            r is Ok <==> (can_export && uuid_parse(employee_id@) is Ok && decimal_from_str(
                trimmed(amount@),
            ) is Ok),
            r matches Ok(x) ==> (uuid_parse(employee_id@) matches Ok(v) && x.0 == v) && (
            decimal_from_str(trimmed(amount@)) matches Ok(p) && p == (
                x.1.mantissa as int,
                x.1.scale as int,
            )) && x.1.wf(),
    {
        require_statutory_export(
            can_export,
            "create payroll arrear requires payroll:statutory_export or HR / tenant admin",
        )?;
        let eid = parse_id_arg(employee_id, "invalid employeeId: ")?;
        let t = trim(amount);
        match dec_from_str(t.as_str()) {
            Ok(a) => Ok((eid, a)),
            Err(e) => {
                let mut m = owned("amount: ");
                push_str(&mut m, e.as_str());
                Err(validation_owned(m))
            },
        }
    }

    /// `runPayrollForCycle` before the run: permission, then the cycle id.
    pub fn run_payroll_for_cycle(can_export: bool, payroll_cycle_id: &str) -> (r: Result<
        u128,
        KabiPayError,
    >)
        ensures
            !can_export ==> is_forbidden(
                r,
                "run payroll requires payroll:statutory_export or HR / tenant admin role"@,
            ),
            can_export ==> (uuid_parse(payroll_cycle_id@) matches Err(e) ==> is_validation(
                r,
                "invalid payrollCycleId: "@ + e,
            )),
            can_export ==> (uuid_parse(payroll_cycle_id@) matches Ok(v) ==> r
                == Ok::<u128, KabiPayError>(v)),
    {
        require_statutory_export(
            can_export,
            "run payroll requires payroll:statutory_export or HR / tenant admin role",
        )?;
        parse_id_arg(payroll_cycle_id, "invalid payrollCycleId: ")
    }

    /// `createPayrollCycle`: permission, then the cycle rules.
    pub fn create_payroll_cycle(
        can_export: bool,
        name: &str,
        month: i32,
        year: i32,
        payment_date: Option<crate::calendar::Ymd>,
        period_taken: bool,
    ) -> (r: Result<crate::payroll::NewPayrollCycle, KabiPayError>)
        ensures
            !can_export ==> is_forbidden(
                r,
                "create payroll cycle requires payroll:statutory_export or HR / tenant admin role"@,
            ),
            can_export ==> (r is Ok <==> (trimmed(name@).len() != 0 && 1 <= month <= 12 && 2000
                <= year <= 2200 && !period_taken)),
            r matches Ok(c) ==> {
                &&& c.name@ == trimmed(name@)
                &&& c.month == month
                &&& c.year == year
                &&& c.status@ == "DRAFT"@
                &&& c.payment_date == payment_date
                &&& c.processed_by is None
                &&& c.processed_at is None
            },
    {
        require_statutory_export(
            can_export,
            "create payroll cycle requires payroll:statutory_export or HR / tenant admin role",
        )?;
        crate::payroll::create_payroll_cycle(name, month, year, payment_date, period_taken)
    }

    /// `upsertPayrollComplianceSetting`: permission, then the optional logo
    /// file id.
    pub fn upsert_payroll_compliance_setting(can_export: bool, payslip_logo_file_storage_id: &Option<
        String,
    >) -> (r: Result<Option<u128>, KabiPayError>)
        ensures
            !can_export ==> is_forbidden(
                r,
                "upsert payroll compliance setting requires payroll:statutory_export or HR / tenant admin role"@,
            ),
            can_export && payslip_logo_file_storage_id is None ==> r == Ok::<
                Option<u128>,
                KabiPayError,
            >(None),
            can_export ==> (payslip_logo_file_storage_id matches Some(s) ==> (uuid_parse(s@) matches Ok(v)
                ==> r == Ok::<Option<u128>, KabiPayError>(Some(v)))),
            can_export ==> (payslip_logo_file_storage_id matches Some(s) ==> (uuid_parse(s@) matches Err(e)
                ==> is_validation(r, "invalid payslipLogoFileStorageId: "@ + e))),
    {
        require_statutory_export(
            can_export,
            "upsert payroll compliance setting requires payroll:statutory_export or HR / tenant admin role",
        )?;
        crate::ids::parse_opt_id_arg(payslip_logo_file_storage_id, "invalid payslipLogoFileStorageId: ")
    }
}

} // verus!
