//! Resolvers of the expense service (expense claims and travel requests).
use vstd::prelude::*;

use crate::decimal::{decimal_from_str, Dec};
use crate::error::{forbidden, is_forbidden, is_validation, KabiPayError};
use crate::ids::{parse_id_arg, parse_opt_id_arg, uuid_parse};
use crate::requests::{parse_amount, parse_optional_estimate, travel_currency};
use crate::text::trimmed;

verus! {

/// The arguments of `submitExpense`, read.
#[derive(Clone, Copy, Debug)]
pub struct ExpenseArgs {
    pub expense_category_id: u128,
    pub amount: Dec,
    pub travel_request_id: Option<u128>,
}

/// Deciding expense claims needs `expense:approve` or an HR / tenant admin
/// role.
pub open spec fn expense_refusal() -> Seq<char> {
    "expense approve permission required (expense:approve or HR/tenant admin role)"@
}

fn require_approver(can_approve: bool, refusal: &str) -> (r: Result<(), KabiPayError>)
    ensures
        can_approve ==> r is Ok,
        !can_approve ==> is_forbidden(r, refusal@),
{
    if can_approve {
        Ok(())
    } else {
        Err(forbidden(refusal))
    }
}

/// The resolvers of the expense service's mutations.
pub struct MutationRoot;

impl MutationRoot {
    /// `submitExpense`: the category id, the amount, then the optional
    /// travel request id.
    pub fn submit_expense(expense_category_id: &str, amount: &str, travel_request_id: &Option<String>) -> (r:
        Result<ExpenseArgs, KabiPayError>)
        ensures
            uuid_parse(expense_category_id@) matches Err(e) ==> is_validation(
                r,
                "invalid expenseCategoryId: "@ + e,
            ),
            uuid_parse(expense_category_id@) is Ok && decimal_from_str(trimmed(amount@)) is Err
                ==> is_validation(r, "invalid amount; must be a decimal string"@),
            r matches Ok(a) ==> {
                &&& uuid_parse(expense_category_id@) matches Ok(v) && a.expense_category_id == v
                &&& decimal_from_str(trimmed(amount@)) matches Ok(p) && p == (
                    a.amount.mantissa as int,
                    a.amount.scale as int,
                )
                &&& a.amount.wf()
                &&& match *travel_request_id {
                    None => a.travel_request_id is None,
                    Some(s) => uuid_parse(s@) matches Ok(v) && a.travel_request_id == Some(v),
                }
            },
            r is Ok <==> (uuid_parse(expense_category_id@) is Ok && decimal_from_str(
                trimmed(amount@),
            ) is Ok && (travel_request_id matches Some(s) ==> uuid_parse(s@) is Ok)),
    {
        let category = parse_id_arg(expense_category_id, "invalid expenseCategoryId: ")?;
        let a = parse_amount(amount)?;
        let travel = parse_opt_id_arg(travel_request_id, "invalid travelRequestId: ")?;
        Ok(ExpenseArgs { expense_category_id: category, amount: a, travel_request_id: travel })
    }

    /// `approveExpense` / `rejectExpense`: permission, then the claim id.
    pub fn decide_expense(can_approve: bool, expense_id: &str) -> (r: Result<u128, KabiPayError>)
        ensures
            !can_approve ==> is_forbidden(r, expense_refusal()),
            can_approve ==> (uuid_parse(expense_id@) matches Ok(v) ==> r == Ok::<u128, KabiPayError>(
                v,
            )),
            can_approve ==> (uuid_parse(expense_id@) matches Err(e) ==> is_validation(
                r,
                "invalid expenseId: "@ + e,
            )),
    {
        require_approver(
            can_approve,
            "expense approve permission required (expense:approve or HR/tenant admin role)",
        )?;
        parse_id_arg(expense_id, "invalid expenseId: ")
    }

    /// `submitTravelRequest`: the optional estimate (blank is none) and the
    /// currency (trimmed, `INR` when blank).
    pub fn submit_travel_request(estimated_amount: &Option<String>, currency: &str) -> (r: Result<
        (Option<Dec>, String),
        KabiPayError,
    >)
        ensures
            match *estimated_amount {
                None => r matches Ok(x) && x.0 is None,
                Some(s) => if trimmed(s@).len() == 0 {
                    r matches Ok(x) && x.0 is None
                } else {
                    match decimal_from_str(trimmed(s@)) {
                        Err(_) => is_validation(r, "invalid amount; must be a decimal string"@),
                        Ok(p) => r matches Ok(x) && x.0 matches Some(d) && d.wf() && p == (
                            d.mantissa as int,
                            d.scale as int,
                        ),
                    }
                },
            },
            r matches Ok(x) ==> x.1@ == if trimmed(currency@).len() == 0 {
                "INR"@
            } else {
                trimmed(currency@)
            },
    {
        let est = parse_optional_estimate(estimated_amount)?;
        Ok((est, travel_currency(currency)))
    }

    /// `approveTravelRequest`: permission (the expenses' one), then the id.
    pub fn approve_travel_request(can_approve: bool, travel_request_id: &str) -> (r: Result<
        u128,
        KabiPayError,
    >)
        ensures
            !can_approve ==> is_forbidden(
                r,
                "travel approve uses the same RBAC as expenses (expense:approve or HR/tenant admin)"@,
            ),
            can_approve ==> (uuid_parse(travel_request_id@) matches Ok(v) ==> r == Ok::<
                u128,
                KabiPayError,
            >(v)),
            can_approve ==> (uuid_parse(travel_request_id@) matches Err(e) ==> is_validation(
                r,
                "invalid travelRequestId: "@ + e,
            )),
    {
        require_approver(
            can_approve,
            "travel approve uses the same RBAC as expenses (expense:approve or HR/tenant admin)",
        )?;
        parse_id_arg(travel_request_id, "invalid travelRequestId: ")
    }

    /// `rejectTravelRequest`: permission (the expenses' one), then the id.
    pub fn reject_travel_request(can_approve: bool, travel_request_id: &str) -> (r: Result<
        u128,
        KabiPayError,
    >)
        ensures
            !can_approve ==> is_forbidden(
                r,
                "travel reject uses the same RBAC as expenses (expense:approve or HR/tenant admin)"@,
            ),
            can_approve ==> (uuid_parse(travel_request_id@) matches Ok(v) ==> r == Ok::<
                u128,
                KabiPayError,
            >(v)),
            can_approve ==> (uuid_parse(travel_request_id@) matches Err(e) ==> is_validation(
                r,
                "invalid travelRequestId: "@ + e,
            )),
    {
        require_approver(
            can_approve,
            "travel reject uses the same RBAC as expenses (expense:approve or HR/tenant admin)",
        )?;
        parse_id_arg(travel_request_id, "invalid travelRequestId: ")
    }
}

/// The resolvers of the expense service's queries.
pub struct QueryRoot;

impl QueryRoot {
    /// Page size of `expenseCategories` and `expenses` (1 to 200).
    pub fn page_size(limit: u64) -> (n: u64)
        ensures
            n == if limit < 1 {
                1
            } else if limit > 200 {
                200
            } else {
                limit
            },
    {
        crate::scope::clamp_limit(limit, 200)
    }
}

} // verus!
