//! Employee requests other than leave: expense claims, travel requests and
//! grievance cases — what a submission must satisfy, what is stored, and
//! the notifications sent when a request is decided.
use vstd::prelude::*;

use crate::decimal::{dec_from_str, dec_le, dec_lt, decimal_from_str, Dec};
use crate::error::{is_validation, not_found, validation, KabiPayError};
use crate::ids::{uuid_text, uuid_to_string};
use crate::workflow::WorkflowInstanceState;
use crate::text::{chars_of, owned, push_char, push_str, string_from_chars, trim, trim_chars, trimmed};

verus! {

// ----------------------------------------------------------------------------
// Amounts
// ----------------------------------------------------------------------------

/// Parse a decimal amount from text (GraphQL input): the trimmed text as
/// `Decimal::from_str` reads it.
pub fn parse_amount(s: &str) -> (r: Result<Dec, KabiPayError>)
    ensures
        decimal_from_str(trimmed(s@)) is Err ==> is_validation(
            r,
            "invalid amount; must be a decimal string"@,
        ),
        decimal_from_str(trimmed(s@)) matches Ok(p) ==> (r matches Ok(d) && d.wf() && p == (
            d.mantissa as int,
            d.scale as int,
        )),
{
    let t = trim(s);
    match dec_from_str(t.as_str()) {
        Ok(d) => Ok(d),
        Err(_) => Err(validation("invalid amount; must be a decimal string")),
    }
}

// ----------------------------------------------------------------------------
// Expense claims
// ----------------------------------------------------------------------------

/// What an expense submission reads of the linked travel request.
#[derive(Clone, Copy, Debug)]
pub struct TravelRequestOwner {
    pub employee_id: u128,
}

/// The `expense` row a submission inserts.
#[derive(Clone, Debug)]
pub struct NewExpense {
    pub employee_id: u128,
    pub expense_category_id: u128,
    pub amount: Dec,
    pub travel_request_id: Option<u128>,
    /// `PENDING`.
    pub status: String,
    /// The approval workflow instance attached to the claim, if any.
    pub workflow_instance: Option<WorkflowInstanceState>,
}

/// Rules for a new `PENDING` expense claim, in order: the amount is above
/// zero; the category exists in the tenant (`category_found`); a linked
/// travel request exists (`travel` is `None` when not found) and belongs to
/// the submitting employee. The claim records the employee, category,
/// amount and travel request, with an `IN_PROGRESS` workflow instance at
/// `first_step` when the tenant's active expense workflow has one.
pub fn submit_expense(
    employee_id: u128,
    expense_category_id: u128,
    amount: Dec,
    category_found: bool,
    travel_request_id: Option<u128>,
    travel: Option<TravelRequestOwner>,
    first_step: Option<u128>,
) -> (r: Result<NewExpense, KabiPayError>)
    requires
        amount.wf(),
    ensures
        r matches Ok(x) ==> {
            &&& x.employee_id == employee_id
            &&& x.expense_category_id == expense_category_id
            &&& x.amount == amount
            &&& x.travel_request_id == travel_request_id
            &&& x.status@ == "PENDING"@
            &&& (first_step is None ==> x.workflow_instance is None)
            &&& (first_step matches Some(st) ==> (x.workflow_instance matches Some(i) && i.status@
                == "IN_PROGRESS"@ && i.current_step_id == Some(st)))
        },
        amount.units() <= 0 ==> is_validation(r, "amount must be greater than zero"@),
        amount.units() > 0 && !category_found ==> (r matches Err(
            KabiPayError::NotFound { entity, id },
        ) && entity@ == "expense_category"@ && id@ == uuid_text(expense_category_id)),
        amount.units() > 0 && category_found && travel_request_id is None ==> r is Ok,
        travel_request_id matches Some(tid) ==> (amount.units() > 0 && category_found ==> {
            &&& travel is None ==> (r matches Err(KabiPayError::NotFound { entity, id }) && entity@
                == "travel_request"@ && id@ == uuid_text(tid))
            &&& travel matches Some(t) ==> (t.employee_id != employee_id ==> is_validation(
                r,
                "travel request must belong to the submitting employee"@,
            ))
            &&& travel matches Some(t) ==> (t.employee_id == employee_id ==> r is Ok)
        }),
{
    if dec_le(amount, Dec::zero()) {
        proof {
            crate::decimal::lemma_zero_units(Dec { mantissa: 0, scale: 0 });
        }
        return Err(validation("amount must be greater than zero"));
    }
    proof {
        crate::decimal::lemma_zero_units(Dec { mantissa: 0, scale: 0 });
    }
    if !category_found {
        return Err(not_found("expense_category", uuid_to_string(expense_category_id)));
    }
    if let Some(tid) = travel_request_id {
        match travel {
            None => {
                return Err(not_found("travel_request", uuid_to_string(tid)));
            },
            Some(t) => {
                if t.employee_id != employee_id {
                    return Err(validation("travel request must belong to the submitting employee"));
                }
            },
        }
    }
    Ok(
        NewExpense {
            employee_id,
            expense_category_id,
            amount,
            travel_request_id,
            status: owned("PENDING"),
            workflow_instance: crate::approvals::attach_workflow(first_step),
        },
    )
}

/// `" Reason: {s}"` for a non-empty reason, else nothing.
pub open spec fn reason_suffix(reason: Option<String>) -> Seq<char> {
    match reason {
        Some(s) => if s@.len() > 0 {
            " Reason: "@ + s@
        } else {
            Seq::empty()
        },
        None => Seq::empty(),
    }
}

fn push_reason_suffix(out: &mut String, reason: &Option<String>)
    ensures
        final(out)@ == old(out)@ + reason_suffix(*reason),
{
    match reason {
        Some(s) => {
            if s.as_str().is_empty() {
                assert(reason_suffix(*reason) == Seq::<char>::empty());
            } else {
                push_str(out, " Reason: ");
                push_str(out, s.as_str());
            }
        },
        None => {},
    }
}

/// Notification text for an approved expense claim.
pub fn expense_approved_message(title: &str) -> (m: String)
    ensures
        m@ == "Your expense claim \""@ + title@ + "\" was approved."@,
{
    let mut m = owned("Your expense claim \"");
    push_str(&mut m, title);
    push_str(&mut m, "\" was approved.");
    m
}

/// Notification text for a rejected expense claim.
pub fn expense_rejected_message(title: &str, reason: &Option<String>) -> (m: String)
    ensures
        m@ == "Your expense claim \""@ + title@ + "\" was rejected."@ + reason_suffix(*reason),
{
    let mut m = owned("Your expense claim \"");
    push_str(&mut m, title);
    push_str(&mut m, "\" was rejected.");
    push_reason_suffix(&mut m, reason);
    m
}

/// Notification text for a rejected travel request.
pub fn travel_rejected_message(reason: &Option<String>) -> (m: String)
    ensures
        m@ == "Your travel request was rejected."@ + reason_suffix(*reason),
{
    let mut m = owned("Your travel request was rejected.");
    push_reason_suffix(&mut m, reason);
    m
}

/// Notification text for a rejected leave request.
pub fn leave_rejected_message(reason: &Option<String>) -> (m: String)
    ensures
        m@ == match *reason {
            Some(s) => if s@.len() > 0 {
                "Your leave was rejected. Reason: "@ + s@
            } else {
                "Your leave request was rejected."@
            },
            None => "Your leave request was rejected."@,
        },
{
    match reason {
        Some(s) => {
            if s.as_str().is_empty() {
                owned("Your leave request was rejected.")
            } else {
                let mut m = owned("Your leave was rejected. Reason: ");
                push_str(&mut m, s.as_str());
                m
            }
        },
        None => owned("Your leave request was rejected."),
    }
}

// ----------------------------------------------------------------------------
// Travel requests
// ----------------------------------------------------------------------------

/// A travel request ready to be inserted as `PENDING`.
#[derive(Clone, Debug)]
pub struct NewTravelRequest {
    pub origin_location: Option<String>,
    pub destination_location: Option<String>,
    pub purpose: String,
    pub estimated_amount: Option<Dec>,
    pub currency: String,
}

/// `None` for an absent or empty text.
pub open spec fn non_empty(s: Option<String>) -> Option<Seq<char>> {
    match s {
        Some(x) => if x@.len() > 0 {
            Some(x@)
        } else {
            None
        },
        None => None,
    }
}

pub open spec fn opt_view(s: Option<String>) -> Option<Seq<char>> {
    match s {
        Some(x) => Some(x@),
        None => None,
    }
}

fn keep_non_empty(s: Option<String>) -> (r: Option<String>)
    ensures
        opt_view(r) == non_empty(s),
{
    match s {
        Some(x) => {
            if x.as_str().is_empty() {
                None
            } else {
                Some(x)
            }
        },
        None => None,
    }
}

/// Rules for a new `PENDING` travel request, in order: dates in order
/// (`from_day` / `to_day` are day numbers), a purpose that is not blank, an
/// estimate that is not negative. Empty locations are stored as absent and
/// the purpose trimmed.
pub fn submit_travel_request(
    origin_location: Option<String>,
    destination_location: Option<String>,
    from_day: i32,
    to_day: i32,
    purpose: &str,
    estimated_amount: Option<Dec>,
    currency: &str,
) -> (r: Result<NewTravelRequest, KabiPayError>)
    requires
        estimated_amount matches Some(a) ==> a.wf(),
    ensures
        from_day > to_day ==> is_validation(r, "from_date must be on or before to_date"@),
        from_day <= to_day && trimmed(purpose@).len() == 0 ==> is_validation(
            r,
            "purpose is required"@,
        ),
        from_day <= to_day && trimmed(purpose@).len() > 0 && (estimated_amount matches Some(a)
            && a.units() < 0) ==> is_validation(r, "estimated_amount cannot be negative"@),
        r is Ok <==> (from_day <= to_day && trimmed(purpose@).len() > 0 && !(
        estimated_amount matches Some(a) && a.units() < 0)),
        r matches Ok(t) ==> {
            &&& opt_view(t.origin_location) == non_empty(origin_location)
            &&& opt_view(t.destination_location) == non_empty(destination_location)
            &&& t.purpose@ == trimmed(purpose@)
            &&& t.estimated_amount == estimated_amount
            &&& t.currency@ == currency@
        },
{
    if from_day > to_day {
        return Err(validation("from_date must be on or before to_date"));
    }
    let p = trim(purpose);
    if p.as_str().is_empty() {
        return Err(validation("purpose is required"));
    }
    if let Some(a) = estimated_amount {
        proof {
            crate::decimal::lemma_zero_units(Dec { mantissa: 0, scale: 0 });
        }
        if dec_lt(a, Dec::zero()) {
            return Err(validation("estimated_amount cannot be negative"));
        }
    }
    Ok(
        NewTravelRequest {
            origin_location: keep_non_empty(origin_location),
            destination_location: keep_non_empty(destination_location),
            purpose: p,
            estimated_amount,
            currency: owned(currency),
        },
    )
}

/// The optional estimate of a travel request form: blank or absent means
/// none; otherwise it must parse as a decimal.
pub fn parse_optional_estimate(raw: &Option<String>) -> (r: Result<Option<Dec>, KabiPayError>)
    ensures
        match *raw {
            None => r == Ok::<Option<Dec>, KabiPayError>(None),
            Some(s) => if trimmed(s@).len() == 0 {
                r == Ok::<Option<Dec>, KabiPayError>(None)
            } else {
                match decimal_from_str(trimmed(s@)) {
                    Err(_) => is_validation(r, "invalid amount; must be a decimal string"@),
                    Ok(p) => r matches Ok(Some(d)) && d.wf() && p == (
                        d.mantissa as int,
                        d.scale as int,
                    ),
                }
            },
        },
{
    match raw {
        None => Ok(None),
        Some(s) => {
            let t = trim(s.as_str());
            if t.as_str().is_empty() {
                Ok(None)
            } else {
                let d = parse_amount(s.as_str())?;
                Ok(Some(d))
            }
        },
    }
}

/// Currency of a travel request form: the trimmed code, `INR` when blank.
pub fn travel_currency(raw: &str) -> (c: String)
    ensures
        c@ == if trimmed(raw@).len() == 0 {
            "INR"@
        } else {
            trimmed(raw@)
        },
{
    let t = trim(raw);
    if t.as_str().is_empty() {
        owned("INR")
    } else {
        t
    }
}

// ----------------------------------------------------------------------------
// Grievance cases
// ----------------------------------------------------------------------------

/// A grievance case ready to be inserted as `OPEN`.
#[derive(Clone, Debug)]
pub struct NewGrievanceCase {
    pub subject: String,
    pub description: Option<String>,
}

/// The stored description: trimmed, absent when blank.
pub open spec fn case_description(d: Option<&str>) -> Option<Seq<char>> {
    match d {
        Some(s) => if trimmed(s@).len() > 0 {
            Some(trimmed(s@))
        } else {
            None
        },
        None => None,
    }
}

/// Rules for filing a grievance case: a subject that is not blank, then a
/// category of the tenant (`category_found`). Subject and description are
/// stored trimmed; a blank description is stored as absent.
pub fn submit_case(
    grievance_category_id: u128,
    subject: &str,
    description: Option<&str>,
    category_found: bool,
) -> (r: Result<NewGrievanceCase, KabiPayError>)
    ensures
        trimmed(subject@).len() == 0 ==> is_validation(r, "subject is required"@),
        trimmed(subject@).len() > 0 && !category_found ==> (r matches Err(
            KabiPayError::NotFound { entity, id },
        ) && entity@ == "grievance_category"@ && id@ == uuid_text(grievance_category_id)),
        r is Ok <==> trimmed(subject@).len() > 0 && category_found,
        r matches Ok(c) ==> c.subject@ == trimmed(subject@) && opt_view(c.description)
            == case_description(description),
{
    let subj = trim(subject);
    if subj.as_str().is_empty() {
        return Err(validation("subject is required"));
    }
    if !category_found {
        return Err(not_found("grievance_category", uuid_to_string(grievance_category_id)));
    }
    let desc = match description {
        Some(s) => {
            let t = trim(s);
            if t.as_str().is_empty() {
                None
            } else {
                Some(t)
            }
        },
        None => None,
    };
    Ok(NewGrievanceCase { subject: subj, description: desc })
}

} // verus!
