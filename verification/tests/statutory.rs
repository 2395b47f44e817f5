use kabipay::decimal::Dec;
use kabipay::statutory::{compute, employee_deduction_total, india_fy_start_year};
use rust_decimal::Decimal;
use std::str::FromStr;

fn dec(s: &str) -> Dec {
    let d = Decimal::from_str(s).unwrap();
    Dec { mantissa: d.mantissa(), scale: d.scale() }
}

fn val(d: Dec) -> Decimal {
    Decimal::from_i128_with_scale(d.mantissa, d.scale)
}

#[test]
fn epf_caps_at_1800() {
    let g = dec("85000");
    let (a, tds) = compute(g, None);
    assert_eq!(val(a.pf_employee), Decimal::from_str("1800.00").unwrap());
    assert_eq!(val(tds), Decimal::ZERO);
}

#[test]
fn pf_is_twelve_percent_below_the_ceiling() {
    let (a, _) = compute(dec("10000"), None);
    assert_eq!(val(a.pf_employee), Decimal::from_str("1200").unwrap());
    assert_eq!(val(a.pf_employer), Decimal::from_str("1200").unwrap());
}

#[test]
fn esi_applies_up_to_21000() {
    let (a, _) = compute(dec("20000"), None);
    assert_eq!(val(a.esi_employee), Decimal::from_str("150.00").unwrap());
    assert_eq!(val(a.esi_employer), Decimal::from_str("650.00").unwrap());
    let (b, _) = compute(dec("21000.01"), None);
    assert_eq!(val(b.esi_employee), Decimal::ZERO);
    assert_eq!(val(b.esi_employer), Decimal::ZERO);
}

#[test]
fn professional_tax_above_10000() {
    let (a, _) = compute(dec("10000"), None);
    assert_eq!(val(a.professional_tax), Decimal::ZERO);
    let (b, _) = compute(dec("10000.01"), None);
    assert_eq!(val(b.professional_tax), Decimal::from_str("200").unwrap());
}

#[test]
fn tds_is_rounded_to_paise() {
    let (_, tds) = compute(dec("50000"), Some(dec("1234.565")));
    assert_eq!(val(tds), Decimal::from_str("1234.56").unwrap());
    let (_, tds2) = compute(dec("50000"), Some(dec("1234.575")));
    assert_eq!(val(tds2), Decimal::from_str("1234.58").unwrap());
}

#[test]
fn deduction_total_adds_employee_side() {
    let (a, tds) = compute(dec("20000"), Some(dec("100")));
    let total = employee_deduction_total(&a, tds);
    // 1800 PF (capped wage) + 150 ESI + 200 PT + 100 TDS
    assert_eq!(val(total), Decimal::from_str("2250").unwrap());
}

#[test]
fn financial_year_starts_in_april() {
    assert_eq!(india_fy_start_year(4, 2024), 2024);
    assert_eq!(india_fy_start_year(12, 2024), 2024);
    assert_eq!(india_fy_start_year(1, 2025), 2024);
    assert_eq!(india_fy_start_year(3, 2025), 2024);
}

#[test]
fn fine_grained_gross_above_the_esi_ceiling() {
    // 30000 with 24 fractional digits: no ESI, so only the capped PF wage is multiplied.
    let g = Dec { mantissa: 30_000 * 10i128.pow(24), scale: 24 };
    let (a, _) = compute(g, None);
    assert_eq!(val(a.pf_employee), Decimal::from_str("1800.00").unwrap());
    assert_eq!(val(a.esi_employee), Decimal::ZERO);
    assert_eq!(val(a.professional_tax), Decimal::from_str("200.00").unwrap());
}
