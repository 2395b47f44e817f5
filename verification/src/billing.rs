//! Operator billing: monthly billing cycles, invoices and payments.
use vstd::prelude::*;

use crate::decimal::{
    dec_add, dec_from_str, decimal_from_str, lemma_sum_units, lemma_sum_wf, lemma_zero_units,
    sum_fits, sum_spec, Dec,
};
use crate::error::{is_not_found, is_validation, not_found, validation, validation_owned, KabiPayError};
use crate::ids::{hex32, uuid_text, uuid_to_string};
use crate::calendar::{month_period_containing, month_period_spec, valid_date, max_year, Ymd};
use crate::ops::or_default;
use crate::text::{
    byte_len, chars_of, owned, push_char, push_str, str_byte_len, str_eq, to_uppercase, trim,
    trimmed, unicode_uppercase,
};

verus! {

/// A tenant's billing cycle.
#[derive(Clone, Debug)]
pub struct BillingCycle {
    pub id: u128,
    pub tenant_id: u128,
    pub period_start: Ymd,
    pub period_end: Ymd,
    pub frequency: String,
    pub status: String,
}

/// The tenant's monthly cycle for the month containing `today`: the stored
/// one (`existing`, looked up by that period), or a new `PENDING`, `MONTHLY`
/// cycle with `new_id`.
pub fn monthly_cycle(existing: Option<BillingCycle>, new_id: u128, tenant_id: u128, today: Ymd) -> (r: BillingCycle)
    requires
        valid_date(today),
        today.year < max_year(),
    ensures
        existing matches Some(c) ==> r == c,
        existing is None ==> {
            &&& r.id == new_id
            &&& r.tenant_id == tenant_id
            &&& (r.period_start, r.period_end) == month_period_spec(today)
            &&& r.frequency@ == "MONTHLY"@
            &&& r.status@ == "PENDING"@
        },
{
    match existing {
        Some(c) => c,
        None => {
            let (start, end) = month_period_containing(today);
            BillingCycle {
                id: new_id,
                tenant_id,
                period_start: start,
                period_end: end,
                frequency: owned("MONTHLY"),
                status: owned("PENDING"),
            }
        },
    }
}

// ----------------------------------------------------------------------------
// Invoices
// ----------------------------------------------------------------------------

/// The invoice statuses.
pub open spec fn is_invoice_status(s: Seq<char>) -> bool {
    s == "DRAFT"@ || s == "PENDING"@ || s == "SENT"@ || s == "PAID"@ || s == "OVERDUE"@ || s
        == "CANCELLED"@ || s == "DISPUTED"@
}

/// The payment statuses.
pub open spec fn is_payment_status(s: Seq<char>) -> bool {
    s == "PENDING"@ || s == "PROCESSING"@ || s == "SUCCEEDED"@ || s == "FAILED"@ || s
        == "REFUNDED"@
}

fn invoice_status_ok(s: &str) -> (b: bool)
    ensures
        b == is_invoice_status(s@),
{
    str_eq(s, "DRAFT") || str_eq(s, "PENDING") || str_eq(s, "SENT") || str_eq(s, "PAID")
        || str_eq(s, "OVERDUE") || str_eq(s, "CANCELLED") || str_eq(s, "DISPUTED")
}

fn payment_status_ok(s: &str) -> (b: bool)
    ensures
        b == is_payment_status(s@),
{
    str_eq(s, "PENDING") || str_eq(s, "PROCESSING") || str_eq(s, "SUCCEEDED") || str_eq(
        s,
        "FAILED",
    ) || str_eq(s, "REFUNDED")
}

/// The amounts, currency and status of a new invoice.
#[derive(Clone, Debug)]
pub struct InvoiceDraft {
    pub subtotal: Dec,
    pub discount_total: Dec,
    pub tax_amount: Dec,
    pub total_amount: Dec,
    pub currency: String,
    pub status: String,
}

/// The currency code stored on an invoice: trimmed and upper-cased.
pub open spec fn invoice_currency(c: Seq<char>) -> Seq<char> {
    unicode_uppercase(trimmed(c))
}

/// The first rule the invoice input breaks, if any, in the order checked:
/// the status, the four amounts as decimals (absent discount and tax read as
/// `0`), a currency of three bytes.
pub open spec fn invoice_input_error(
    subtotal: Seq<char>,
    discount: Seq<char>,
    tax: Seq<char>,
    total: Seq<char>,
    currency: Seq<char>,
    status: Seq<char>,
) -> Option<Seq<char>> {
    if !is_invoice_status(status) {
        Some("invalid invoice status "@ + status)
    } else if decimal_from_str(subtotal) is Err {
        Some("subtotal is not a valid decimal"@)
    } else if decimal_from_str(discount) is Err {
        Some("discount_total is not a valid decimal"@)
    } else if decimal_from_str(tax) is Err {
        Some("tax_amount is not a valid decimal"@)
    } else if decimal_from_str(total) is Err {
        Some("total_amount is not a valid decimal"@)
    } else if byte_len(invoice_currency(currency)) != 3 {
        Some("currency must be a 3-letter ISO code"@)
    } else {
        None
    }
}

/// Whether `d` is what `Decimal::from_str` reads from `s`.
pub open spec fn parsed_as(d: Dec, s: Seq<char>) -> bool {
    d.wf() && decimal_from_str(s) == Ok::<(int, int), Seq<char>>((d.mantissa as int, d.scale as int))
}

fn parse_or(s: &str, msg: &str) -> (r: Result<Dec, KabiPayError>)
    ensures
        decimal_from_str(s@) is Err ==> is_validation(r, msg@),
        r is Ok <==> decimal_from_str(s@) is Ok,
        r matches Ok(d) ==> parsed_as(d, s@),
{
    match dec_from_str(s) {
        Ok(d) => Ok(d),
        Err(_) => Err(validation(msg)),
    }
}

fn or_zero(s: &Option<String>) -> (r: String)
    ensures
        r@ == or_default(*s, "0"@),
{
    match s {
        Some(x) => owned(x.as_str()),
        None => owned("0"),
    }
}

/// Checks and reads the input of a new invoice. The status defaults to
/// `PENDING`, discount and tax to `0`.
pub fn prepare_invoice(
    subtotal: &str,
    discount_total: &Option<String>,
    tax_amount: &Option<String>,
    total_amount: &str,
    currency: &str,
    status: Option<String>,
) -> (r: Result<InvoiceDraft, KabiPayError>)
    ensures
        ({
            let e = invoice_input_error(
                subtotal@,
                or_default(*discount_total, "0"@),
                or_default(*tax_amount, "0"@),
                total_amount@,
                currency@,
                or_default(status, "PENDING"@),
            );
            &&& e matches Some(m) ==> is_validation(r, m)
            &&& r is Ok <==> e is None
        }),
        r matches Ok(d) ==> {
            &&& parsed_as(d.subtotal, subtotal@)
            &&& parsed_as(d.discount_total, or_default(*discount_total, "0"@))
            &&& parsed_as(d.tax_amount, or_default(*tax_amount, "0"@))
            &&& parsed_as(d.total_amount, total_amount@)
            &&& d.currency@ == invoice_currency(currency@)
            &&& d.status@ == or_default(status, "PENDING"@)
        },
{
    let status = match status {
        Some(s) => s,
        None => owned("PENDING"),
    };
    if !invoice_status_ok(status.as_str()) {
        let mut m = owned("invalid invoice status ");
        push_str(&mut m, status.as_str());
        return Err(validation_owned(m));
    }
    let sub = parse_or(subtotal, "subtotal is not a valid decimal")?;
    let disc_text = or_zero(discount_total);
    let disc = parse_or(disc_text.as_str(), "discount_total is not a valid decimal")?;
    let tax_text = or_zero(tax_amount);
    let tax = parse_or(tax_text.as_str(), "tax_amount is not a valid decimal")?;
    let total = parse_or(total_amount, "total_amount is not a valid decimal")?;
    let t = trim(currency);
    let cur = to_uppercase(t.as_str());
    if str_byte_len(cur.as_str()) != 3 {
        return Err(validation("currency must be a 3-letter ISO code"));
    }
    Ok(
        InvoiceDraft {
            subtotal: sub,
            discount_total: disc,
            tax_amount: tax,
            total_amount: total,
            currency: cur,
            status,
        },
    )
}

/// The billing cycle an invoice is attached to. An explicit cycle must exist
/// (`cycle_tenant` is its tenant) and belong to the invoice's tenant;
/// without one, `Ok(None)` asks for the tenant's current monthly cycle.
pub fn invoice_cycle(tenant_id: u128, billing_cycle_id: Option<u128>, cycle_tenant: Option<u128>) -> (r:
    Result<Option<u128>, KabiPayError>)
    ensures
        billing_cycle_id is None ==> r == Ok::<Option<u128>, KabiPayError>(None),
        billing_cycle_id matches Some(id) ==> (cycle_tenant is None ==> is_not_found(
            r,
            "billing_cycle"@,
            uuid_text(id),
        )),
        billing_cycle_id matches Some(id) ==> (cycle_tenant matches Some(t) ==> (t != tenant_id
            ==> is_validation(r, "billing_cycle does not belong to tenant"@))),
        billing_cycle_id matches Some(id) ==> (cycle_tenant == Some(tenant_id) ==> r == Ok::<
            Option<u128>,
            KabiPayError,
        >(Some(id))),
{
    match billing_cycle_id {
        None => Ok(None),
        Some(id) => match cycle_tenant {
            None => Err(not_found("billing_cycle", uuid_to_string(id))),
            Some(t) => {
                if t != tenant_id {
                    Err(validation("billing_cycle does not belong to tenant"))
                } else {
                    Ok(Some(id))
                }
            },
        },
    }
}

/// `INV-{stamp}-{first group of a fresh UUID}`; `stamp` is the creation time
/// as `%Y%m%d%H%M%S`.
pub fn invoice_number(stamp: &str, id: u128) -> (r: String)
    ensures
        r@ == "INV-"@ + stamp@ + "-"@ + hex32(id).subrange(0, 8),
{
    let u = uuid_to_string(id);
    let v = chars_of(u.as_str());
    let mut s = owned("INV-");
    push_str(&mut s, stamp);
    push_str(&mut s, "-");
    let ghost base = s@;
    let mut i: usize = 0;
    while i < 8
        invariant
            i <= 8,
            v@ == uuid_text(id),
            s@ == base + hex32(id).subrange(0, i as int),
        decreases 8 - i,
    {
        assert(v@[i as int] == hex32(id)[i as int]);
        push_char(&mut s, v[i]);
        assert(hex32(id).subrange(0, i as int).push(hex32(id)[i as int]) == hex32(id).subrange(
            0,
            (i + 1) as int,
        ));
        i = i + 1;
    }
    s
}

// ----------------------------------------------------------------------------
// Payments
// ----------------------------------------------------------------------------

/// Checks and reads a payment: the status (default `SUCCEEDED`), then the
/// amount as a decimal.
pub fn prepare_payment(amount: &str, status: Option<String>) -> (r: Result<(Dec, String), KabiPayError>)
    ensures
        !is_payment_status(or_default(status, "SUCCEEDED"@)) ==> is_validation(
            r,
            "invalid payment status "@ + or_default(status, "SUCCEEDED"@),
        ),
        is_payment_status(or_default(status, "SUCCEEDED"@)) && decimal_from_str(amount@) is Err
            ==> is_validation(r, "amount is not a valid decimal"@),
        r is Ok <==> is_payment_status(or_default(status, "SUCCEEDED"@)) && decimal_from_str(
            amount@,
        ) is Ok,
        r matches Ok(p) ==> parsed_as(p.0, amount@) && p.1@ == or_default(status, "SUCCEEDED"@),
{
    let status = match status {
        Some(s) => s,
        None => owned("SUCCEEDED"),
    };
    if !payment_status_ok(status.as_str()) {
        let mut m = owned("invalid payment status ");
        push_str(&mut m, status.as_str());
        return Err(validation_owned(m));
    }
    let a = parse_or(amount, "amount is not a valid decimal")?;
    Ok((a, status))
}

/// The invoice a payment is recorded against must exist (`is_deleted` is its
/// deletion flag) and not be deleted.
pub fn check_payable_invoice(invoice_id: u128, is_deleted: Option<bool>) -> (r: Result<(), KabiPayError>)
    ensures
        is_deleted is None ==> is_not_found(r, "invoice"@, uuid_text(invoice_id)),
        is_deleted == Some(true) ==> is_validation(r, "invoice is deleted"@),
        is_deleted == Some(false) ==> r is Ok,
{
    match is_deleted {
        None => Err(not_found("invoice", uuid_to_string(invoice_id))),
        Some(true) => Err(validation("invoice is deleted")),
        Some(false) => Ok(()),
    }
}

/// A payment is stamped as paid, and may settle its invoice, only when it
/// succeeded.
pub fn payment_succeeded(status: &str) -> (b: bool)
    ensures
        b == (status@ == "SUCCEEDED"@),
{
    str_eq(status, "SUCCEEDED")
}

/// When a payment of `status` recorded at `now` was paid: at `now` when it
/// succeeded, else not.
pub fn payment_paid_at(status: &str, now: i64) -> (r: Option<i64>)
    ensures
        r == (if status@ == "SUCCEEDED"@ {
            Some(now)
        } else {
            None
        }),
{
    if payment_succeeded(status) {
        Some(now)
    } else {
        None
    }
}

/// Left-to-right sum from zero, as `Iterator::sum` over decimals adds.
pub open spec fn dec_fold(s: Seq<Dec>) -> Dec
    decreases s.len(),
{
    if s.len() == 0 {
        Dec { mantissa: 0, scale: 0 }
    } else {
        sum_spec(dec_fold(s.drop_last()), s.last())
    }
}

/// Adding the `i`-th amount to the running sum stays within range.
pub open spec fn fold_step_fits(s: Seq<Dec>, i: int) -> bool {
    sum_fits(dec_fold(s.take(i)), s[i])
}

/// Every amount is well formed and no running sum leaves the 96-bit range.
pub open spec fn fold_in_range(s: Seq<Dec>) -> bool {
    &&& forall|i: int| 0 <= i < s.len() ==> (#[trigger] s[i]).wf()
    &&& forall|i: int| 0 <= i < s.len() ==> #[trigger] fold_step_fits(s, i)
}

/// The exact total of the values.
pub open spec fn units_sum(s: Seq<Dec>) -> int
    decreases s.len(),
{
    if s.len() == 0 {
        0
    } else {
        units_sum(s.drop_last()) + s.last().units()
    }
}

proof fn lemma_fold(s: Seq<Dec>)
    requires
        fold_in_range(s),
    ensures
        dec_fold(s).wf(),
        dec_fold(s).units() == units_sum(s),
    decreases s.len(),
{
    if s.len() == 0 {
        lemma_zero_units(Dec { mantissa: 0, scale: 0 });
    } else {
        let t = s.drop_last();
        assert forall|i: int| 0 <= i < t.len() implies (#[trigger] t[i]).wf() by {
            assert(t[i] == s[i]);
        }
        assert forall|i: int| 0 <= i < t.len() implies #[trigger] fold_step_fits(t, i) by {
            assert(fold_step_fits(s, i));
            assert(t[i] == s[i]);
            assert(t.take(i) == s.take(i));
        }
        lemma_fold(t);
        assert(s.take(s.len() - 1) == t);
        assert(fold_step_fits(s, s.len() - 1));
        assert(s[s.len() - 1].wf());
        lemma_sum_wf(dec_fold(t), s.last());
        lemma_sum_units(dec_fold(t), s.last());
    }
}

/// Adds up amounts left to right from zero.
pub fn sum_amounts(v: &Vec<Dec>) -> (total: Dec)
    requires
        fold_in_range(v@),
    ensures
        total == dec_fold(v@),
        total.wf(),
        total.units() == units_sum(v@),
{
    proof {
        lemma_fold(v@);
    }
    let mut total = Dec::zero();
    let mut i: usize = 0;
    while i < v.len()
        invariant
            i <= v.len(),
            fold_in_range(v@),
            total == dec_fold(v@.take(i as int)),
            total.wf(),
        decreases v.len() - i,
    {
        assert(v@.take((i + 1) as int).drop_last() == v@.take(i as int));
        assert(fold_step_fits(v@, i as int));
        assert(v@[i as int].wf());
        total = dec_add(total, v[i]);
        assert(v@.take((i + 1) as int).last() == v@[i as int]);
        i = i + 1;
    }
    assert(v@.take(v.len() as int) == v@);
    total
}

/// Whether the succeeded payments of an invoice (`paid`, the new one
/// included) add up to at least its total: the invoice is then marked `PAID`.
pub fn invoice_paid_in_full(paid: &Vec<Dec>, total_amount: Dec) -> (r: bool)
    requires
        fold_in_range(paid@),
        total_amount.wf(),
    ensures
        r == (units_sum(paid@) >= total_amount.units()),
{
    let s = sum_amounts(paid);
    crate::decimal::dec_le(total_amount, s)
}

/// An invoice's payment state.
#[derive(Clone, Debug)]
pub struct InvoicePayState {
    pub status: String,
    /// When it was paid (seconds since the epoch).
    pub paid_at: Option<i64>,
}

/// The invoice after a succeeded payment recorded at `now` (`paid` are its
/// succeeded payments, the new one included): `PAID` at `now` once they add
/// up to at least its total, else unchanged.
pub fn settle_invoice(inv: InvoicePayState, paid: &Vec<Dec>, total_amount: Dec, now: i64) -> (r:
    InvoicePayState)
    requires
        fold_in_range(paid@),
        total_amount.wf(),
    ensures
        units_sum(paid@) >= total_amount.units() ==> r.status@ == "PAID"@ && r.paid_at == Some(now),
        units_sum(paid@) < total_amount.units() ==> r == inv,
{
    if invoice_paid_in_full(paid, total_amount) {
        InvoicePayState { status: owned("PAID"), paid_at: Some(now) }
    } else {
        inv
    }
}

/// Once the succeeded payments cover an invoice, a further payment that is
/// not negative keeps it covered.
pub proof fn law_settled_invoice_stays_settled(paid: Seq<Dec>, extra: Dec, total: int)
    requires
        units_sum(paid) >= total,
        extra.units() >= 0,
    ensures
        units_sum(paid.push(extra)) >= total,
{
    assert(paid.push(extra).drop_last() == paid);
}

} // verus!
