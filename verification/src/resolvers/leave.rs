//! Resolvers of the leave service.
use vstd::prelude::*;

use crate::error::{forbidden, is_forbidden, is_validation, KabiPayError};
use crate::ids::{parse_id_arg, parse_opt_id_arg, uuid_parse};
use crate::scope::EmployeeScopeFilter;

verus! {

/// Deciding leave needs `leave:approve` or an HR / tenant admin role.
pub open spec fn leave_refusal() -> Seq<char> {
    "leave approve permission required (leave:approve or HR/tenant admin role)"@
}

/// The resolvers of the leave service's mutations.
pub struct MutationRoot;

impl MutationRoot {
    /// `submitLeaveRequest`: the leave type id.
    pub fn submit_leave_request(leave_type_id: &str) -> (r: Result<u128, KabiPayError>)
        ensures
            uuid_parse(leave_type_id@) matches Ok(v) ==> r == Ok::<u128, KabiPayError>(v),
            uuid_parse(leave_type_id@) matches Err(e) ==> is_validation(
                r,
                "invalid leaveTypeId: "@ + e,
            ),
    {
        parse_id_arg(leave_type_id, "invalid leaveTypeId: ")
    }

    /// `approveLeaveRequest` / `rejectLeaveRequest`: permission, then the
    /// request id.
    pub fn decide_leave_request(can_approve: bool, leave_request_id: &str) -> (r: Result<
        u128,
        KabiPayError,
    >)
        ensures
            !can_approve ==> is_forbidden(r, leave_refusal()),
            can_approve ==> (uuid_parse(leave_request_id@) matches Ok(v) ==> r == Ok::<
                u128,
                KabiPayError,
            >(v)),
            can_approve ==> (uuid_parse(leave_request_id@) matches Err(e) ==> is_validation(
                r,
                "invalid leaveRequestId: "@ + e,
            )),
    {
        if !can_approve {
            return Err(
                forbidden("leave approve permission required (leave:approve or HR/tenant admin role)"),
            );
        }
        parse_id_arg(leave_request_id, "invalid leaveRequestId: ")
    }
}

/// The resolvers of the leave service's queries.
pub struct QueryRoot;

impl QueryRoot {
    /// `leaveBalances`: an explicit `employeeId` argument, read; without one
    /// the caller's own employee is used (`None` here).
    pub fn leave_balances_employee(raw: &Option<String>) -> (r: Result<Option<u128>, KabiPayError>)
        ensures
            raw is None ==> r == Ok::<Option<u128>, KabiPayError>(None),
            raw matches Some(s) ==> (uuid_parse(s@) matches Ok(v) ==> r == Ok::<
                Option<u128>,
                KabiPayError,
            >(Some(v))),
            raw matches Some(s) ==> (uuid_parse(s@) matches Err(e) ==> is_validation(
                r,
                "invalid employeeId: "@ + e,
            )),
    {
        parse_opt_id_arg(raw, "invalid employeeId: ")
    }

    /// Balances are listed only for an employee the caller's scope allows.
    pub fn balances_visible(filter: &EmployeeScopeFilter, employee_id: u128) -> (b: bool)
        ensures
            b == filter.allows(employee_id),
    {
        filter.allows_employee(employee_id)
    }

    /// Page size of the leave lists (1 to 200).
    pub fn page_size(limit: u64) -> (n: u64)
        ensures
            n == if limit < 1 {
                1
            } else if limit > 200 {
                200
            } else {
                limit
            },
    {
        crate::scope::clamp_limit(limit, 200)
    }
}

} // verus!
