//! Leave: days a request takes, the annual balance ledger (reserve on
//! submit, consume on approval, release on rejection), and which requests a
//! viewer may list.
use vstd::prelude::*;

use crate::decimal::{
    dec_add, dec_lt, dec_sub, diff_fits, diff_spec, lemma_diff_units, lemma_sum_units,
    lemma_zero_units, sum_fits, sum_spec, Dec,
};
use crate::error::{is_validation, not_found, validation, KabiPayError};
use crate::approvals::attach_workflow;
use crate::ids::{uuid_text, uuid_to_string};
use crate::text::owned;
use crate::workflow::WorkflowInstanceState;

verus! {

/// One annual leave balance row (per employee, leave type and year).
#[derive(Clone, Copy, Debug)]
pub struct LeaveBalance {
    pub entitled_days: Dec,
    pub used_days: Dec,
    pub pending_days: Dec,
    pub carried_forward_days: Dec,
    pub balance_days: Dec,
}

impl LeaveBalance {
    pub open spec fn wf(self) -> bool {
        &&& self.entitled_days.wf()
        &&& self.used_days.wf()
        &&& self.pending_days.wf()
        &&& self.carried_forward_days.wf()
        &&& self.balance_days.wf()
    }

    /// Days accounted for: still available, reserved by pending requests,
    /// and used by approved ones.
    pub open spec fn total_units(self) -> int {
        self.balance_days.units() + self.pending_days.units() + self.used_days.units()
    }
}

/// Days a request covers: half a day for a half-day request (which must
/// start and end on the same date), else the inclusive count of calendar
/// days; dates are day numbers.
pub open spec fn requested_days_spec(from_day: int, to_day: int, is_half_day: bool) -> Result<
    Dec,
    Seq<char>,
> {
    if is_half_day {
        if from_day != to_day {
            Err("half-day leave must have the same fromDate and toDate"@)
        } else {
            Ok(Dec { mantissa: 5, scale: 1 })
        }
    } else if to_day - from_day + 1 < 1 {
        Err("fromDate must be on or before toDate"@)
    } else {
        Ok(Dec { mantissa: (to_day - from_day + 1) as i128, scale: 0 })
    }
}

/// Number of days a request takes (`from_day` / `to_day` count days from a
/// fixed epoch, e.g. `NaiveDate::num_days_from_ce`).
pub fn requested_days(from_day: i32, to_day: i32, is_half_day: bool) -> (r: Result<
    Dec,
    KabiPayError,
>)
    ensures
        match requested_days_spec(from_day as int, to_day as int, is_half_day) {
            Ok(d) => r == Ok::<Dec, KabiPayError>(d),
            Err(msg) => is_validation(r, msg),
        },
        r matches Ok(d) ==> d.wf() && d.units() > 0,
{
    if is_half_day {
        if from_day != to_day {
            return Err(validation("half-day leave must have the same fromDate and toDate"));
        }
        let d = Dec { mantissa: 5, scale: 1 };
        proof {
            crate::decimal::lemma_pow10_pos(27);
            assert(d.units() == 5 * crate::decimal::pow10(27));
        }
        return Ok(d);
    }
    let n: i64 = (to_day as i64) - (from_day as i64) + 1;
    if n < 1 {
        return Err(validation("fromDate must be on or before toDate"));
    }
    let d = Dec { mantissa: n as i128, scale: 0 };
    proof {
        crate::decimal::lemma_pow10_pos(28);
        assert(d.units() == n * crate::decimal::pow10(28));
        assert(n * crate::decimal::pow10(28) > 0) by (nonlinear_arith)
            requires
                n >= 1,
                crate::decimal::pow10(28) >= 1,
        ;
    }
    Ok(d)
}

// ----------------------------------------------------------------------------
// The balance ledger
// ----------------------------------------------------------------------------

/// Reserving `days`: pending grows and the available balance shrinks by
/// the same amount.
pub open spec fn reserved(b: LeaveBalance, days: Dec) -> LeaveBalance {
    LeaveBalance {
        pending_days: sum_spec(b.pending_days, days),
        balance_days: diff_spec(b.balance_days, days),
        ..b
    }
}

/// Consuming reserved `days` on approval: pending shrinks, used grows.
pub open spec fn consumed(b: LeaveBalance, days: Dec) -> LeaveBalance {
    LeaveBalance { pending_days: diff_spec(b.pending_days, days), used_days: sum_spec(b.used_days, days), ..b }
}

/// Releasing reserved `days` on rejection: pending shrinks, the available
/// balance grows back.
pub open spec fn released(b: LeaveBalance, days: Dec) -> LeaveBalance {
    LeaveBalance {
        pending_days: diff_spec(b.pending_days, days),
        balance_days: sum_spec(b.balance_days, days),
        ..b
    }
}

/// The arithmetic of a reservation stays within range.
pub open spec fn reserve_fits(b: LeaveBalance, days: Dec) -> bool {
    sum_fits(b.pending_days, days) && diff_fits(b.balance_days, days)
}

pub open spec fn consume_fits(b: LeaveBalance, days: Dec) -> bool {
    diff_fits(b.pending_days, days) && sum_fits(b.used_days, days)
}

pub open spec fn release_fits(b: LeaveBalance, days: Dec) -> bool {
    diff_fits(b.pending_days, days) && sum_fits(b.balance_days, days)
}

/// Reserve `days` against the balance for a new `PENDING` request; refused
/// when the available balance is below `days`.
pub fn reserve_days(b: &LeaveBalance, days: Dec) -> (r: Result<LeaveBalance, KabiPayError>)
    requires
        b.wf(),
        days.wf(),
        reserve_fits(*b, days),
    ensures
        b.balance_days.units() < days.units() ==> is_validation(
            r,
            "insufficient leave balance for this request"@,
        ),
        b.balance_days.units() >= days.units() ==> r == Ok::<LeaveBalance, KabiPayError>(
            reserved(*b, days),
        ),
        r matches Ok(nb) ==> nb.wf(),
{
    if dec_lt(b.balance_days, days) {
        return Err(validation("insufficient leave balance for this request"));
    }
    let pending = dec_add(b.pending_days, days);
    let balance = dec_sub(b.balance_days, days);
    Ok(LeaveBalance { pending_days: pending, balance_days: balance, ..*b })
}

/// Final approval moves the request's days from pending to used; refused
/// when pending would go below zero.
pub fn consume_reserved_days(b: &LeaveBalance, days: Dec) -> (r: Result<
    LeaveBalance,
    KabiPayError,
>)
    requires
        b.wf(),
        days.wf(),
        consume_fits(*b, days),
    ensures
        b.pending_days.units() - days.units() < 0 ==> is_validation(
            r,
            "leave balance pending mismatch — cannot approve"@,
        ),
        b.pending_days.units() - days.units() >= 0 ==> r == Ok::<LeaveBalance, KabiPayError>(
            consumed(*b, days),
        ),
        r matches Ok(nb) ==> nb.wf(),
{
    let pending = dec_sub(b.pending_days, days);
    proof {
        lemma_diff_units(b.pending_days, days);
        lemma_zero_units(Dec { mantissa: 0, scale: 0 });
    }
    if dec_lt(pending, Dec::zero()) {
        return Err(validation("leave balance pending mismatch — cannot approve"));
    }
    let used = dec_add(b.used_days, days);
    Ok(LeaveBalance { pending_days: pending, used_days: used, ..*b })
}

/// Rejection gives the request's days back to the available balance;
/// refused when pending would go below zero.
pub fn release_reserved_days(b: &LeaveBalance, days: Dec) -> (r: Result<
    LeaveBalance,
    KabiPayError,
>)
    requires
        b.wf(),
        days.wf(),
        release_fits(*b, days),
    ensures
        b.pending_days.units() - days.units() < 0 ==> is_validation(
            r,
            "leave balance pending mismatch — cannot reject"@,
        ),
        b.pending_days.units() - days.units() >= 0 ==> r == Ok::<LeaveBalance, KabiPayError>(
            released(*b, days),
        ),
        r matches Ok(nb) ==> nb.wf(),
{
    let pending = dec_sub(b.pending_days, days);
    proof {
        lemma_diff_units(b.pending_days, days);
        lemma_zero_units(Dec { mantissa: 0, scale: 0 });
    }
    if dec_lt(pending, Dec::zero()) {
        return Err(validation("leave balance pending mismatch — cannot reject"));
    }
    let balance = dec_add(b.balance_days, days);
    Ok(LeaveBalance { pending_days: pending, balance_days: balance, ..*b })
}

// ----------------------------------------------------------------------------
// Submitting a request
// ----------------------------------------------------------------------------

/// What the submission rules read of the leave type.
#[derive(Clone, Copy, Debug)]
pub struct LeaveTypeRules {
    pub half_day_allowed: bool,
}

/// The `leave_request` row a submission inserts.
#[derive(Clone, Debug)]
pub struct NewLeaveRequest {
    pub employee_id: u128,
    pub leave_type_id: u128,
    pub from_day: i32,
    pub to_day: i32,
    pub is_half_day: bool,
    pub days_requested: Dec,
    /// `PENDING`.
    pub status: String,
    /// The approval workflow instance attached to the request, if any.
    pub workflow_instance: Option<WorkflowInstanceState>,
}

/// An accepted request: the days it takes, the balance after reserving
/// them, and the request row.
#[derive(Clone, Debug)]
pub struct LeaveSubmission {
    pub days: Dec,
    pub balance: LeaveBalance,
    pub request: NewLeaveRequest,
}

/// The row inserted for a request of `days` days: `PENDING`, with the
/// employee, type, dates and days, and an `IN_PROGRESS` workflow instance at
/// `first_step` exactly when the tenant's active leave workflow has a first
/// step.
pub open spec fn new_leave_request_ok(
    q: NewLeaveRequest,
    employee_id: u128,
    leave_type_id: u128,
    from_day: i32,
    to_day: i32,
    is_half_day: bool,
    days: Dec,
    first_step: Option<u128>,
) -> bool {
    &&& q.employee_id == employee_id
    &&& q.leave_type_id == leave_type_id
    &&& q.from_day == from_day
    &&& q.to_day == to_day
    &&& q.is_half_day == is_half_day
    &&& q.days_requested == days
    &&& q.status@ == "PENDING"@
    &&& (first_step is None ==> q.workflow_instance is None)
    &&& (first_step matches Some(st) ==> (q.workflow_instance matches Some(i) && i.status@
        == "IN_PROGRESS"@ && i.current_step_id == Some(st)))
}

/// Rules for submitting a leave request, in order: dates in order; the
/// requested days (half-day requests on one date); the leave type exists
/// (`leave_type` is `None` when not found) and allows half days when asked;
/// a balance row exists for the year of `from`; the balance covers the
/// days. On success the days are reserved and a `PENDING` request of
/// `employee_id` is inserted, with a workflow instance when the tenant's
/// active leave workflow has a first step (`first_step`).
pub fn submit_leave_request(
    employee_id: u128,
    leave_type_id: u128,
    from_day: i32,
    to_day: i32,
    is_half_day: bool,
    leave_type: Option<LeaveTypeRules>,
    balance: Option<LeaveBalance>,
    first_step: Option<u128>,
) -> (r: Result<LeaveSubmission, KabiPayError>)
    requires
        balance matches Some(b) ==> b.wf() && reserve_fits(
            b,
            requested_days_spec(from_day as int, to_day as int, is_half_day)->Ok_0,
        ),
    ensures
        from_day > to_day ==> is_validation(r, "fromDate must be on or before toDate"@),
        from_day <= to_day && requested_days_spec(from_day as int, to_day as int, is_half_day) is Err
            ==> is_validation(
            r,
            requested_days_spec(from_day as int, to_day as int, is_half_day)->Err_0,
        ),
        from_day <= to_day && requested_days_spec(from_day as int, to_day as int, is_half_day) is Ok
            && leave_type is None ==> (r matches Err(KabiPayError::NotFound { entity, id }) && entity@
            == "leave_type"@ && id@ == uuid_text(leave_type_id)),
        ({
            let days = requested_days_spec(from_day as int, to_day as int, is_half_day)->Ok_0;
            leave_type matches Some(t) ==> (from_day <= to_day && requested_days_spec(
                from_day as int,
                to_day as int,
                is_half_day,
            ) is Ok ==> {
                &&& is_half_day && !t.half_day_allowed ==> is_validation(
                    r,
                    "this leave type does not allow half-day requests"@,
                )
                &&& !(is_half_day && !t.half_day_allowed) && balance is None ==> is_validation(
                    r,
                    "no leave balance for this leave type and year — ask HR to provision balances"@,
                )
                &&& balance matches Some(b) ==> (!(is_half_day && !t.half_day_allowed) ==> {
                    &&& b.balance_days.units() < days.units() ==> is_validation(
                        r,
                        "insufficient leave balance for this request"@,
                    )
                    &&& b.balance_days.units() >= days.units() ==> (r matches Ok(sub) && sub.days
                        == days && sub.balance == reserved(b, days) && new_leave_request_ok(
                        sub.request,
                        employee_id,
                        leave_type_id,
                        from_day,
                        to_day,
                        is_half_day,
                        days,
                        first_step,
                    ))
                })
            })
        }),
{
    if from_day > to_day {
        return Err(validation("fromDate must be on or before toDate"));
    }
    let days = requested_days(from_day, to_day, is_half_day)?;
    let t = match leave_type {
        None => {
            return Err(not_found("leave_type", uuid_to_string(leave_type_id)));
        },
        Some(t) => t,
    };
    if is_half_day && !t.half_day_allowed {
        return Err(validation("this leave type does not allow half-day requests"));
    }
    let b = match balance {
        None => {
            return Err(
                validation(
                    "no leave balance for this leave type and year — ask HR to provision balances",
                ),
            );
        },
        Some(b) => b,
    };
    let nb = reserve_days(&b, days)?;
    let request = NewLeaveRequest {
        employee_id,
        leave_type_id,
        from_day,
        to_day,
        is_half_day,
        days_requested: days,
        status: owned("PENDING"),
        workflow_instance: attach_workflow(first_step),
    };
    Ok(LeaveSubmission { days, balance: nb, request })
}

// ----------------------------------------------------------------------------
// Laws of the ledger
// ----------------------------------------------------------------------------

/// Every ledger move keeps `balance + pending + used`: reserving, consuming
/// and releasing only shift days between those columns.
pub proof fn law_ledger_conserves_days(b: LeaveBalance, days: Dec)
    requires
        b.wf(),
        days.wf(),
    ensures
        reserve_fits(b, days) ==> reserved(b, days).total_units() == b.total_units(),
        consume_fits(b, days) ==> consumed(b, days).total_units() == b.total_units(),
        release_fits(b, days) ==> released(b, days).total_units() == b.total_units(),
{
    if reserve_fits(b, days) {
        lemma_sum_units(b.pending_days, days);
        lemma_diff_units(b.balance_days, days);
    }
    if consume_fits(b, days) {
        lemma_diff_units(b.pending_days, days);
        lemma_sum_units(b.used_days, days);
    }
    if release_fits(b, days) {
        lemma_diff_units(b.pending_days, days);
        lemma_sum_units(b.balance_days, days);
    }
}

/// Rejecting a request gives back exactly what submitting it reserved: the
/// available and pending days return to their values before the request,
/// and the other columns are untouched.
pub proof fn law_reject_undoes_submit(b: LeaveBalance, days: Dec)
    requires
        b.wf(),
        days.wf(),
        reserve_fits(b, days),
        release_fits(reserved(b, days), days),
    ensures
        released(reserved(b, days), days).balance_days.units() == b.balance_days.units(),
        released(reserved(b, days), days).pending_days.units() == b.pending_days.units(),
        released(reserved(b, days), days).used_days == b.used_days,
        released(reserved(b, days), days).entitled_days == b.entitled_days,
        released(reserved(b, days), days).carried_forward_days == b.carried_forward_days,
{
    let r = reserved(b, days);
    lemma_sum_units(b.pending_days, days);
    lemma_diff_units(b.balance_days, days);
    crate::decimal::lemma_sum_wf(b.pending_days, days);
    crate::decimal::lemma_diff_wf(b.balance_days, days);
    lemma_diff_units(r.pending_days, days);
    lemma_sum_units(r.balance_days, days);
}

/// Approving a request after submitting it leaves pending as it was before
/// the request and moves the days from the available balance to used.
pub proof fn law_approve_after_submit(b: LeaveBalance, days: Dec)
    requires
        b.wf(),
        days.wf(),
        reserve_fits(b, days),
        consume_fits(reserved(b, days), days),
    ensures
        consumed(reserved(b, days), days).pending_days.units() == b.pending_days.units(),
        consumed(reserved(b, days), days).used_days.units() == b.used_days.units()
            + days.units(),
        consumed(reserved(b, days), days).balance_days.units() == b.balance_days.units()
            - days.units(),
{
    let r = reserved(b, days);
    lemma_sum_units(b.pending_days, days);
    lemma_diff_units(b.balance_days, days);
    crate::decimal::lemma_sum_wf(b.pending_days, days);
    crate::decimal::lemma_diff_wf(b.balance_days, days);
    lemma_diff_units(r.pending_days, days);
    lemma_sum_units(r.used_days, days);
}

/// A reservation never overdraws: when it is accepted, the available
/// balance left is not negative.
pub proof fn law_reserve_never_overdraws(b: LeaveBalance, days: Dec)
    requires
        b.wf(),
        days.wf(),
        reserve_fits(b, days),
        b.balance_days.units() >= days.units(),
    ensures
        reserved(b, days).balance_days.units() >= 0,
{
    lemma_diff_units(b.balance_days, days);
}

} // verus!
