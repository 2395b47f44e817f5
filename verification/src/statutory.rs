//! India payroll statutory **stub** for the automated pay run.
//! Not legal/tax advice: EPF/ESI use simplified percentages; professional tax
//! is a fixed stub above a threshold; TDS is the monthly figure from the tax
//! computation for the India financial year of the pay month.
use vstd::prelude::*;

use crate::decimal::{
    abs, dec_add, lemma_pow10_add, lemma_pow10_pos, lemma_pow10_small, lemma_round_half_even_bound, lemma_round_half_even_le, pow10, dec_le, dec_lt, dec_min, dec_mul, dec_round_dp, product_spec, round_dp_spec,
    sum_fits, sum_spec, Dec, DEC_MAX_MANTISSA,
};

verus! {

/// EPF wage ceiling: ₹15,000.00 (PF wage = `min(gross, ceiling)`).
pub open spec fn pf_wage_ceiling() -> Dec {
    Dec { mantissa: 1500000, scale: 2 }
}

/// EPF rate, employee and employer alike: 0.12.
pub open spec fn pf_rate() -> Dec {
    Dec { mantissa: 12, scale: 2 }
}

/// ESI applies when gross is at or below ₹21,000.00.
pub open spec fn esi_gross_ceiling() -> Dec {
    Dec { mantissa: 2100000, scale: 2 }
}

/// Employee ESI rate: 0.0075.
pub open spec fn esi_employee_rate() -> Dec {
    Dec { mantissa: 75, scale: 4 }
}

/// Employer ESI rate: 0.0325.
pub open spec fn esi_employer_rate() -> Dec {
    Dec { mantissa: 325, scale: 4 }
}

/// Professional tax applies when gross is above ₹10,000.00.
pub open spec fn pt_gross_floor() -> Dec {
    Dec { mantissa: 1000000, scale: 2 }
}

/// Professional tax stub: ₹200.00.
pub open spec fn pt_amount() -> Dec {
    Dec { mantissa: 20000, scale: 2 }
}

/// Employer and employee statutory columns of one payslip row.
#[derive(Clone, Copy, Debug)]
pub struct IndiaStatutoryStub {
    pub pf_employee: Dec,
    pub pf_employer: Dec,
    pub esi_employee: Dec,
    pub esi_employer: Dec,
    pub professional_tax: Dec,
}

/// India financial year "start year" (April–March): May 2025 → 2025,
/// March 2025 → 2024.
pub open spec fn fy_start_year_spec(cycle_month: int, cycle_year: int) -> int {
    if 4 <= cycle_month <= 12 {
        cycle_year
    } else {
        cycle_year - 1
    }
}

/// India financial year "start year" (April–March): e.g. May 2025 → `2025`; Mar 2025 → `2024`.
pub fn india_fy_start_year(cycle_month: i32, cycle_year: i32) -> (fy: i32)
    requires
        !(4 <= cycle_month <= 12) ==> cycle_year > i32::MIN,
    ensures
        fy == fy_start_year_spec(cycle_month as int, cycle_year as int),
{
    if 4 <= cycle_month && cycle_month <= 12 {
        cycle_year
    } else {
        cycle_year - 1
    }
}

/// PF contribution: 12% of `min(gross, ₹15,000.00)`, rounded to paise.
pub open spec fn pf_contribution(gross: Dec) -> Dec {
    let wage = if pf_wage_ceiling().units() < gross.units() {
        pf_wage_ceiling()
    } else {
        gross
    };
    round_dp_spec(product_spec(wage, pf_rate()), 2)
}

/// ESI at `rate` on gross, rounded to paise, when gross is at or below the
/// ESI ceiling; zero (scale 0) above it.
pub open spec fn esi_contribution(gross: Dec, rate: Dec) -> Dec {
    if gross.units() <= esi_gross_ceiling().units() {
        round_dp_spec(product_spec(gross, rate), 2)
    } else {
        Dec { mantissa: 0, scale: 0 }
    }
}

/// ₹200.00 when gross exceeds ₹10,000.00, else zero.
pub open spec fn professional_tax_spec(gross: Dec) -> Dec {
    if pt_gross_floor().units() < gross.units() {
        pt_amount()
    } else {
        Dec { mantissa: 0, scale: 0 }
    }
}

/// The monthly TDS withheld: the given figure rounded to paise, zero when
/// there is none.
pub open spec fn tds_withheld(tds: Option<Dec>) -> Dec {
    match tds {
        Some(t) => round_dp_spec(t, 2),
        None => Dec { mantissa: 0, scale: 0 },
    }
}

/// The statutory columns for a gross amount.
pub open spec fn statutory_spec(gross: Dec) -> IndiaStatutoryStub {
    IndiaStatutoryStub {
        pf_employee: pf_contribution(gross),
        pf_employer: pf_contribution(gross),
        esi_employee: esi_contribution(gross, esi_employee_rate()),
        esi_employer: esi_contribution(gross, esi_employer_rate()),
        professional_tax: professional_tax_spec(gross),
    }
}

/// All five columns are well-formed decimals.
pub open spec fn stub_wf(s: IndiaStatutoryStub) -> bool {
    &&& s.pf_employee.wf()
    &&& s.pf_employer.wf()
    &&& s.esi_employee.wf()
    &&& s.esi_employer.wf()
    &&& s.professional_tax.wf()
}

/// Gross amounts the stub can work on without the decimal type rounding a
/// product: any amount above the ESI ceiling (only the capped PF wage is
/// multiplied then); at or below it, at most 24 fractional digits and a
/// mantissa small enough for the largest ESI rate.
pub open spec fn gross_in_range(gross: Dec) -> bool {
    &&& gross.wf()
    &&& gross.units() <= esi_gross_ceiling().units() ==> {
        &&& gross.scale <= 24
        &&& abs(gross.mantissa as int) * 325 <= DEC_MAX_MANTISSA
    }
}

/// `tds` is the monthly TDS to withhold (e.g. from `tax_computation.tds_per_month`); if none, 0.
pub fn compute(gross: Dec, tds: Option<Dec>) -> (out: (IndiaStatutoryStub, Dec))
    requires
        gross_in_range(gross),
        tds matches Some(t) ==> t.wf(),
    ensures
        out.0 == statutory_spec(gross),
        out.1 == tds_withheld(tds),
        stub_wf(out.0),
        out.1.wf(),
{
    let tds_m = match tds {
        Some(t) => dec_round_dp(t, 2),
        None => dec_round_dp(Dec::zero(), 2),
    };
    let ceiling_pf = Dec { mantissa: 1500000, scale: 2 };
    let pf_wage = dec_min(gross, ceiling_pf);
    let r12 = Dec { mantissa: 12, scale: 2 };
    assert(abs(pf_wage.mantissa * r12.mantissa) <= DEC_MAX_MANTISSA) by (nonlinear_arith)
        requires
            abs(pf_wage.mantissa as int) * 325 <= DEC_MAX_MANTISSA || pf_wage.mantissa == 1500000,
            r12.mantissa == 12,
    ;
    let pf_employee = dec_round_dp(dec_mul(pf_wage, r12), 2);
    let pf_employer = dec_round_dp(dec_mul(pf_wage, r12), 2);

    let ceiling_esi = Dec { mantissa: 2100000, scale: 2 };
    let (esi_employee, esi_employer) = if dec_le(gross, ceiling_esi) {
        let emp = Dec { mantissa: 75, scale: 4 };
        let empr = Dec { mantissa: 325, scale: 4 };
        assert(abs(gross.mantissa * emp.mantissa) <= DEC_MAX_MANTISSA
            && abs(gross.mantissa * empr.mantissa) <= DEC_MAX_MANTISSA) by (nonlinear_arith)
            requires
                abs(gross.mantissa as int) * 325 <= DEC_MAX_MANTISSA,
                emp.mantissa == 75,
                empr.mantissa == 325,
        ;
        let a = dec_round_dp(dec_mul(gross, emp), 2);
        let b = dec_round_dp(dec_mul(gross, empr), 2);
        (a, b)
    } else {
        (Dec::zero(), Dec::zero())
    };

    let floor_pt = Dec { mantissa: 1000000, scale: 2 };
    let professional_tax = if dec_lt(floor_pt, gross) {
        Dec { mantissa: 20000, scale: 2 }
    } else {
        Dec::zero()
    };

    let stat = IndiaStatutoryStub {
        pf_employee,
        pf_employer,
        esi_employee,
        esi_employer,
        professional_tax,
    };
    (stat, tds_m)
}

/// What [`employee_deduction_total`] adds up, left to right.
pub open spec fn deduction_total_spec(s: IndiaStatutoryStub, tds: Dec) -> Dec {
    sum_spec(sum_spec(sum_spec(s.pf_employee, s.esi_employee), s.professional_tax), tds)
}

/// The additions of [`employee_deduction_total`] stay within range.
pub open spec fn deduction_total_fits(s: IndiaStatutoryStub, tds: Dec) -> bool {
    &&& sum_fits(s.pf_employee, s.esi_employee)
    &&& sum_fits(sum_spec(s.pf_employee, s.esi_employee), s.professional_tax)
    &&& sum_fits(sum_spec(sum_spec(s.pf_employee, s.esi_employee), s.professional_tax), tds)
}

/// Sum of all employee deductions that reduce net from gross (employer EPF/ESI are **not** included).
pub fn employee_deduction_total(s: &IndiaStatutoryStub, tds: Dec) -> (total: Dec)
    requires
        stub_wf(*s),
        tds.wf(),
        deduction_total_fits(*s, tds),
    ensures
        total == deduction_total_spec(*s, tds),
        total.wf(),
{
    let a = dec_add(s.pf_employee, s.esi_employee);
    let b = dec_add(a, s.professional_tax);
    dec_add(b, tds)
}

} // verus!

verus! {

/// The most PF any one contribution can reach: ₹1,800.00.
pub open spec fn pf_cap() -> Dec {
    Dec { mantissa: 180000, scale: 2 }
}

/// EPF is capped: 12% of a PF wage of at most ₹15,000 never exceeds
/// ₹1,800.00, whatever the gross.
pub proof fn law_pf_capped(gross: Dec)
    requires
        gross_in_range(gross),
    ensures
        pf_contribution(gross).units() <= pf_cap().units(),
{
    let ceiling = pf_wage_ceiling();
    let wage = if ceiling.units() < gross.units() {
        ceiling
    } else {
        gross
    };
    lemma_pow10_add(2, 26);
    lemma_pow10_pos(26);
    lemma_pow10_small();
    assert(ceiling.units() == 1500000 * pow10(26));
    assert(pf_cap().units() == 180000 * pow10(26));
    assert(wage.units() <= 1500000 * pow10(26));
    assert(esi_gross_ceiling().units() == 2100000 * pow10(26));
    assert(wage == ceiling || (wage.scale <= 24 && abs(wage.mantissa as int) * 325
        <= DEC_MAX_MANTISSA));
    let p = product_spec(wage, pf_rate());
    let r = round_dp_spec(p, 2);
    if wage.mantissa == 0 {
        assert(r.units() == 0);
    } else {
        let ws = wage.scale as nat;
        let mp: int = wage.mantissa * 12;
        assert(abs(mp) <= DEC_MAX_MANTISSA) by (nonlinear_arith)
            requires
                abs(wage.mantissa as int) * 325 <= DEC_MAX_MANTISSA || wage.mantissa == 1500000,
                mp == wage.mantissa * 12,
        ;
        assert(p.mantissa == mp);
        assert(p.scale == ws + 2);
        if wage.mantissa < 0 {
            if ws == 0 {
                assert(r == p);
            } else {
                lemma_pow10_pos(ws);
                lemma_round_half_even_bound(abs(mp), pow10(ws));
                assert(r.mantissa <= 0);
            }
            assert(r.units() <= 0) by (nonlinear_arith)
                requires
                    r.units() == r.mantissa * pow10((28 - r.scale) as nat),
                    r.mantissa <= 0,
            ;
        } else {
            let e = pow10((26 - ws) as nat);
            lemma_pow10_add((26 - ws) as nat, 2);
            assert(((26 - ws) as nat + 2) as nat == (28 - ws) as nat);
            assert(pow10((28 - ws) as nat) == e * 100);
            assert(wage.units() == wage.mantissa * (e * 100));
            lemma_pow10_add((26 - ws) as nat, ws);
            assert(((26 - ws) as nat + ws) as nat == 26);
            assert(pow10(26) == e * pow10(ws));
            lemma_pow10_pos((26 - ws) as nat);
            assert(wage.mantissa * 100 <= 1500000 * pow10(ws)) by (nonlinear_arith)
                requires
                    wage.mantissa * (e * 100) <= 1500000 * (e * pow10(ws)),
                    e >= 1,
            ;
            assert(mp <= 180000 * pow10(ws)) by (nonlinear_arith)
                requires
                    mp == wage.mantissa * 12,
                    wage.mantissa * 100 <= 1500000 * pow10(ws),
                    wage.mantissa >= 0,
            ;
            if ws == 0 {
                assert(r == p);
                assert(r.mantissa <= 180000);
            } else {
                lemma_pow10_pos(ws);
                lemma_round_half_even_le(abs(mp), pow10(ws), 180000);
                lemma_round_half_even_bound(abs(mp), pow10(ws));
                assert(r.scale == 2);
                assert(r.mantissa <= 180000);
            }
            assert(r.scale == 2);
            assert(r.units() <= 180000 * pow10(26)) by (nonlinear_arith)
                requires
                    r.units() == r.mantissa * pow10(26),
                    r.mantissa <= 180000,
                    pow10(26) >= 1,
            ;
        }
    }
}

} // verus!
