use kabipay::billing::{
    check_payable_invoice, invoice_cycle, invoice_number, invoice_paid_in_full, monthly_cycle, payment_paid_at, settle_invoice, InvoicePayState,
    payment_succeeded, prepare_invoice, prepare_payment, sum_amounts, BillingCycle,
};
use kabipay::calendar::{date_to_string, month_period_containing, Ymd};
use kabipay::decimal::Dec;
use kabipay::error::KabiPayError;

fn validation_text<T>(r: Result<T, KabiPayError>) -> String {
    match r {
        Err(KabiPayError::Validation(m)) => m,
        Err(e) => panic!("expected a validation error, got {:?}", e),
        Ok(_) => panic!("expected a validation error, got Ok"),
    }
}

fn ymd(year: i32, month: u32, day: u32) -> Ymd {
    Ymd { year, month, day }
}

fn d(m: i128, s: u32) -> Dec {
    Dec { mantissa: m, scale: s }
}

#[test]
fn month_periods() {
    assert_eq!(month_period_containing(ymd(2024, 2, 10)), (ymd(2024, 2, 1), ymd(2024, 2, 29)));
    assert_eq!(month_period_containing(ymd(2023, 2, 10)), (ymd(2023, 2, 1), ymd(2023, 2, 28)));
    assert_eq!(month_period_containing(ymd(1900, 2, 1)), (ymd(1900, 2, 1), ymd(1900, 2, 28)));
    assert_eq!(month_period_containing(ymd(2000, 2, 1)), (ymd(2000, 2, 1), ymd(2000, 2, 29)));
    assert_eq!(month_period_containing(ymd(2024, 12, 31)), (ymd(2024, 12, 1), ymd(2024, 12, 31)));
    assert_eq!(month_period_containing(ymd(2024, 4, 30)), (ymd(2024, 4, 1), ymd(2024, 4, 30)));
}

#[test]
fn dates_as_text() {
    assert_eq!(date_to_string(ymd(2024, 3, 5)), "2024-03-05");
    assert_eq!(date_to_string(ymd(987, 12, 31)), "0987-12-31");
    assert_eq!(date_to_string(ymd(10000, 1, 2)), "+10000-01-02");
    assert_eq!(date_to_string(ymd(-1, 1, 1)), "-0001-01-01");
}

#[test]
fn monthly_cycles() {
    let c = monthly_cycle(None, 7, 2, ymd(2024, 6, 15));
    assert_eq!((c.id, c.tenant_id, c.period_start, c.period_end), (7, 2, ymd(2024, 6, 1), ymd(2024, 6, 30)));
    assert_eq!((c.frequency.as_str(), c.status.as_str()), ("MONTHLY", "PENDING"));
    let existing = BillingCycle { id: 1, tenant_id: 2, period_start: ymd(2024, 6, 1), period_end: ymd(2024, 6, 30), frequency: "MONTHLY".into(), status: "PAID".into() };
    assert_eq!(monthly_cycle(Some(existing), 7, 2, ymd(2024, 6, 15)).id, 1);
}

#[test]
fn invoices() {
    let inv = prepare_invoice("100.50", &None, &Some("18".to_string()), "118.50", " inr ", None).unwrap();
    assert_eq!((inv.subtotal.mantissa, inv.subtotal.scale), (10050, 2));
    assert_eq!((inv.discount_total.mantissa, inv.discount_total.scale), (0, 0));
    assert_eq!(inv.tax_amount.mantissa, 18);
    assert_eq!(inv.currency, "INR");
    assert_eq!(inv.status, "PENDING");
    assert_eq!(validation_text(prepare_invoice("1", &None, &None, "1", "INR", Some("OPEN".into()))), "invalid invoice status OPEN");
    assert_eq!(validation_text(prepare_invoice("x", &None, &None, "1", "INR", None)), "subtotal is not a valid decimal");
    assert_eq!(validation_text(prepare_invoice("1", &Some("y".into()), &None, "1", "INR", None)), "discount_total is not a valid decimal");
    assert_eq!(validation_text(prepare_invoice("1", &None, &Some("z".into()), "1", "INR", None)), "tax_amount is not a valid decimal");
    assert_eq!(validation_text(prepare_invoice("1", &None, &None, "w", "INR", None)), "total_amount is not a valid decimal");
    assert_eq!(validation_text(prepare_invoice("1", &None, &None, "1", "RUPEE", None)), "currency must be a 3-letter ISO code");
}

#[test]
fn invoice_cycles_and_numbers() {
    assert_eq!(invoice_cycle(2, None, None).unwrap(), None);
    assert_eq!(invoice_cycle(2, Some(5), Some(2)).unwrap(), Some(5));
    assert_eq!(validation_text(invoice_cycle(2, Some(5), Some(3))), "billing_cycle does not belong to tenant");
    assert!(matches!(invoice_cycle(2, Some(5), None), Err(KabiPayError::NotFound { entity, .. }) if entity == "billing_cycle"));
    let id = 0xdeadbeef_0000_0000_0000_000000000001u128;
    assert_eq!(invoice_number("20240102030405", id), "INV-20240102030405-deadbeef");
}

#[test]
fn payments() {
    let (a, s) = prepare_payment("250.00", None).unwrap();
    assert_eq!((a.mantissa, a.scale, s.as_str()), (25000, 2, "SUCCEEDED"));
    assert_eq!(validation_text(prepare_payment("1", Some("DONE".into()))), "invalid payment status DONE");
    assert_eq!(validation_text(prepare_payment("abc", Some("PENDING".into()))), "amount is not a valid decimal");
    assert!(check_payable_invoice(1, Some(false)).is_ok());
    assert_eq!(validation_text(check_payable_invoice(1, Some(true))), "invoice is deleted");
    assert!(matches!(check_payable_invoice(1, None), Err(KabiPayError::NotFound { entity, .. }) if entity == "invoice"));
    assert!(payment_succeeded("SUCCEEDED"));
    assert!(!payment_succeeded("PENDING"));
}

#[test]
fn invoice_settles_once_payments_cover_it() {
    let total = d(11850, 2);
    let paid = vec![d(5000, 2), d(50, 0)];
    assert_eq!(sum_amounts(&paid).mantissa, 10000);
    assert!(!invoice_paid_in_full(&paid, total));
    let more = vec![d(5000, 2), d(50, 0), d(1850, 2)];
    assert!(invoice_paid_in_full(&more, total));
    let more_still = vec![d(5000, 2), d(50, 0), d(1850, 2), d(1, 0)];
    assert!(invoice_paid_in_full(&more_still, total));
    let open = InvoicePayState { status: "ISSUED".into(), paid_at: None };
    let still_open = settle_invoice(open.clone(), &paid, total, 500);
    assert_eq!((still_open.status.as_str(), still_open.paid_at), ("ISSUED", None));
    let settled = settle_invoice(open, &more, total, 500);
    assert_eq!((settled.status.as_str(), settled.paid_at), ("PAID", Some(500)));
    assert_eq!(payment_paid_at("SUCCEEDED", 7), Some(7));
    assert_eq!(payment_paid_at("FAILED", 7), None);
}
