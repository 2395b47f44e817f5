//! Fixed-point decimal amounts (money, leave days) and the `rust_decimal`
//! operations the services perform on them.
//!
//! A [`Dec`] holds what a `rust_decimal::Decimal` is made of: a signed
//! mantissa of at most 96 bits and a scale (count of fractional digits) of at
//! most 28. Its value is `mantissa / 10^scale`; [`Dec::units`] gives the value
//! scaled by `10^28`, an exact integer for every well-formed decimal.
use vstd::prelude::*;

verus! {

/// Largest magnitude of a mantissa (`2^96 - 1`).
pub const DEC_MAX_MANTISSA: i128 = 79228162514264337593543950335i128;

/// Largest scale a decimal may carry.
pub const DEC_MAX_SCALE: u32 = 28u32;

/// `10^n`.
pub open spec fn pow10(n: nat) -> nat
    decreases n,
{
    if n == 0 {
        1
    } else {
        10 * pow10((n - 1) as nat)
    }
}

pub open spec fn abs(x: int) -> nat {
    if x < 0 {
        (-x) as nat
    } else {
        x as nat
    }
}

pub open spec fn max_nat(a: nat, b: nat) -> nat {
    if a >= b {
        a
    } else {
        b
    }
}

/// A decimal number `mantissa / 10^scale`.
#[derive(Clone, Copy, Debug)]
pub struct Dec {
    pub mantissa: i128,
    pub scale: u32,
}

impl Dec {
    /// Within the range of `rust_decimal::Decimal`.
    pub open spec fn wf(self) -> bool {
        &&& self.scale <= DEC_MAX_SCALE
        &&& -DEC_MAX_MANTISSA <= self.mantissa <= DEC_MAX_MANTISSA
    }

    /// The value times `10^28`.
    pub open spec fn units(self) -> int {
        self.mantissa * pow10((DEC_MAX_SCALE - self.scale) as nat)
    }

    /// Zero with scale 0 (`Decimal::ZERO`).
    pub fn zero() -> (d: Dec)
        ensures
            d.wf(),
            d.mantissa == 0,
            d.scale == 0,
    {
        Dec { mantissa: 0, scale: 0 }
    }
}

/// Mantissa of `a` rescaled to `s` fractional digits (`s >= a.scale`).
pub open spec fn rescaled(a: Dec, s: nat) -> int {
    a.mantissa * pow10((s - a.scale) as nat)
}

/// Exact sum at the larger of the two scales.
pub open spec fn aligned_sum(a: Dec, b: Dec) -> int {
    let s = max_nat(a.scale as nat, b.scale as nat);
    rescaled(a, s) + rescaled(b, s)
}

/// Exact difference at the larger of the two scales.
pub open spec fn aligned_diff(a: Dec, b: Dec) -> int {
    let s = max_nat(a.scale as nat, b.scale as nat);
    rescaled(a, s) - rescaled(b, s)
}

/// What `a + b` yields: a zero operand gives back the other operand as it
/// is; otherwise the exact sum at the larger scale.
pub open spec fn sum_spec(a: Dec, b: Dec) -> Dec {
    if a.mantissa == 0 {
        b
    } else if b.mantissa == 0 {
        a
    } else {
        Dec {
            mantissa: aligned_sum(a, b) as i128,
            scale: max_nat(a.scale as nat, b.scale as nat) as u32,
        }
    }
}

/// What `a - b` yields (same shape as [`sum_spec`]).
pub open spec fn diff_spec(a: Dec, b: Dec) -> Dec {
    if a.mantissa == 0 {
        Dec { mantissa: (-b.mantissa) as i128, scale: b.scale }
    } else if b.mantissa == 0 {
        a
    } else {
        Dec {
            mantissa: aligned_diff(a, b) as i128,
            scale: max_nat(a.scale as nat, b.scale as nat) as u32,
        }
    }
}

/// `a + b` cannot leave the 96-bit range.
pub open spec fn sum_fits(a: Dec, b: Dec) -> bool {
    a.mantissa == 0 || b.mantissa == 0 || abs(aligned_sum(a, b)) <= DEC_MAX_MANTISSA
}

/// `a - b` cannot leave the 96-bit range.
pub open spec fn diff_fits(a: Dec, b: Dec) -> bool {
    a.mantissa == 0 || b.mantissa == 0 || abs(aligned_diff(a, b)) <= DEC_MAX_MANTISSA
}

/// What `a * b` yields when no rounding is needed: zero (scale 0) when an
/// operand is zero, else the product of the mantissas at the summed scale.
pub open spec fn product_spec(a: Dec, b: Dec) -> Dec {
    if a.mantissa == 0 || b.mantissa == 0 {
        Dec { mantissa: 0, scale: 0 }
    } else {
        Dec { mantissa: (a.mantissa * b.mantissa) as i128, scale: (a.scale + b.scale) as u32 }
    }
}

/// `a * b` is exact: the scales add up to at most 28 and the product of the
/// mantissas stays within 96 bits.
pub open spec fn product_exact(a: Dec, b: Dec) -> bool {
    a.scale + b.scale <= DEC_MAX_SCALE && abs(a.mantissa * b.mantissa) <= DEC_MAX_MANTISSA
}

/// `n / d` rounded to the nearest integer, ties to the even neighbour.
pub open spec fn round_half_even(n: nat, d: nat) -> nat {
    let q = n / d;
    let r = n % d;
    if 2 * r > d || (2 * r == d && q % 2 == 1) {
        q + 1
    } else {
        q
    }
}

/// Mantissa of `a` rounded to `dp` fractional digits (banker's rounding,
/// symmetric around zero); unchanged when `a` has no more than `dp` digits.
pub open spec fn round_dp_mantissa(a: Dec, dp: nat) -> int {
    if a.scale <= dp {
        a.mantissa as int
    } else {
        let mag = round_half_even(abs(a.mantissa as int), pow10((a.scale - dp) as nat));
        if a.mantissa < 0 {
            -(mag as int)
        } else {
            mag as int
        }
    }
}

/// What `a.round_dp(dp)` yields.
pub open spec fn round_dp_spec(a: Dec, dp: nat) -> Dec {
    if a.scale <= dp {
        a
    } else {
        Dec { mantissa: round_dp_mantissa(a, dp) as i128, scale: dp as u32 }
    }
}

/// Number of trailing zero digits that `normalize` strips.
pub open spec fn trailing_zeros(m: int, s: nat) -> nat
    decreases s,
{
    if s == 0 || m % 10 != 0 {
        0
    } else {
        1 + trailing_zeros(m / 10, (s - 1) as nat)
    }
}

/// What `a.normalize()` yields: zero becomes `0` with scale 0; otherwise
/// trailing zero digits of the fraction are dropped.
pub open spec fn normalize_spec(a: Dec) -> Dec {
    if a.mantissa == 0 {
        Dec { mantissa: 0, scale: 0 }
    } else {
        let k = trailing_zeros(a.mantissa as int, a.scale as nat);
        Dec { mantissa: ((a.mantissa as int) / (pow10(k) as int)) as i128, scale: (a.scale - k) as u32 }
    }
}

/// The decimal digits of `n`, most significant first; empty for zero.
pub open spec fn digits(n: nat) -> Seq<char>
    decreases n,
{
    if n == 0 {
        Seq::empty()
    } else {
        digits(n / 10).push(digit_char(n % 10))
    }
}

pub open spec fn digit_char(d: nat) -> char {
    ((d + 48) as u8) as char
}

/// `k` zero characters.
pub open spec fn zeros(k: nat) -> Seq<char> {
    Seq::new(k, |i: int| '0')
}

/// Digits of `n` left-padded with zeros to at least `width` characters.
pub open spec fn padded_digits(n: nat, width: nat) -> Seq<char> {
    let d = digits(n);
    if d.len() < width {
        zeros((width - d.len()) as nat) + d
    } else {
        d
    }
}

/// The text `a.to_string()` produces: an optional `-`, the integer part
/// (`0` when empty), and, for a positive scale, `.` and exactly `scale`
/// fractional digits.
pub open spec fn dec_text(a: Dec) -> Seq<char> {
    let d = padded_digits(abs(a.mantissa as int), a.scale as nat);
    let w = d.len() - a.scale;
    let body = if a.scale == 0 {
        if d.len() == 0 {
            seq!['0']
        } else {
            d
        }
    } else {
        (if w == 0 {
            seq!['0']
        } else {
            d.subrange(0, w)
        }) + seq!['.'] + d.subrange(w, d.len() as int)
    };
    if a.mantissa < 0 {
        seq!['-'] + body
    } else {
        body
    }
}

/// What `Decimal::from_str` gives for a text: the mantissa and scale read,
/// or the display text of its error.
pub uninterp spec fn decimal_from_str(s: Seq<char>) -> Result<(int, int), Seq<char>>;

/// `a + b` (`<Decimal as Add>::add`). The crate keeps a zero operand's
/// partner as it is and otherwise adds at the larger scale; it is exact
/// whenever the result fits in 96 bits, which `requires` asks for (beyond
/// that it would round or panic).
#[verifier::external_body]
pub fn dec_add(a: Dec, b: Dec) -> (r: Dec)
    requires
        a.wf(),
        b.wf(),
        sum_fits(a, b),
    ensures
        r == sum_spec(a, b),
        r.wf(),
{
    let x = rust_decimal::Decimal::from_i128_with_scale(a.mantissa, a.scale);
    let y = rust_decimal::Decimal::from_i128_with_scale(b.mantissa, b.scale);
    let z = x + y;
    Dec { mantissa: z.mantissa(), scale: z.scale() }
}

/// `a - b` (`<Decimal as Sub>::sub`), exact under the same condition as
/// [`dec_add`]; `0 - b` is `-b` at `b`'s scale.
#[verifier::external_body]
pub fn dec_sub(a: Dec, b: Dec) -> (r: Dec)
    requires
        a.wf(),
        b.wf(),
        diff_fits(a, b),
    ensures
        r == diff_spec(a, b),
        r.wf(),
{
    let x = rust_decimal::Decimal::from_i128_with_scale(a.mantissa, a.scale);
    let y = rust_decimal::Decimal::from_i128_with_scale(b.mantissa, b.scale);
    let z = x - y;
    Dec { mantissa: z.mantissa(), scale: z.scale() }
}

/// `a * b` (`<Decimal as Mul>::mul`). A zero operand gives `Decimal::ZERO`;
/// otherwise, when the scales sum to at most 28 and the mantissa product fits
/// in 96 bits (required here), the crate returns that product unrounded.
#[verifier::external_body]
pub fn dec_mul(a: Dec, b: Dec) -> (r: Dec)
    requires
        a.wf(),
        b.wf(),
        product_exact(a, b),
    ensures
        r == product_spec(a, b),
        r.wf(),
{
    let x = rust_decimal::Decimal::from_i128_with_scale(a.mantissa, a.scale);
    let y = rust_decimal::Decimal::from_i128_with_scale(b.mantissa, b.scale);
    let z = x * y;
    Dec { mantissa: z.mantissa(), scale: z.scale() }
}

/// `a.round_dp(dp)` (`Decimal::round_dp`): banker's rounding of the
/// magnitude to `dp` fractional digits; a decimal with at most `dp` digits
/// comes back unchanged.
#[verifier::external_body]
pub fn dec_round_dp(a: Dec, dp: u32) -> (r: Dec)
    requires
        a.wf(),
        dp <= DEC_MAX_SCALE,
    ensures
        r == round_dp_spec(a, dp as nat),
        r.wf(),
{
    let x = rust_decimal::Decimal::from_i128_with_scale(a.mantissa, a.scale);
    let z = x.round_dp(dp);
    Dec { mantissa: z.mantissa(), scale: z.scale() }
}

/// `a.normalize()` (`Decimal::normalize`): strips trailing fractional zeros
/// and turns any zero into `0`.
#[verifier::external_body]
pub fn dec_normalize(a: Dec) -> (r: Dec)
    requires
        a.wf(),
    ensures
        r == normalize_spec(a),
        r.wf(),
{
    let x = rust_decimal::Decimal::from_i128_with_scale(a.mantissa, a.scale);
    let z = x.normalize();
    Dec { mantissa: z.mantissa(), scale: z.scale() }
}

/// `a.to_string()` (`<Decimal as Display>::fmt` without flags): sign,
/// integer digits and exactly `scale` fractional digits.
#[verifier::external_body]
pub fn dec_to_string(a: Dec) -> (r: String)
    requires
        a.wf(),
    ensures
        r@ == dec_text(a),
{
    rust_decimal::Decimal::from_i128_with_scale(a.mantissa, a.scale).to_string()
}

/// `Decimal::from_str(s)`: the parsed decimal, or the display text of the
/// crate's error. What it accepts is not restated here; the result is named
/// by [`decimal_from_str`].
#[verifier::external_body]
pub fn dec_from_str(s: &str) -> (r: Result<Dec, String>)
    ensures
        r matches Ok(d) ==> d.wf(),
        r matches Ok(d) ==> (decimal_from_str(s@) matches Ok(p) && p == (
            d.mantissa as int,
            d.scale as int,
        )),
        r matches Err(e) ==> (decimal_from_str(s@) matches Err(m) && m == e@),
{
    match <rust_decimal::Decimal as std::str::FromStr>::from_str(s) {
        Ok(z) => Ok(Dec { mantissa: z.mantissa(), scale: z.scale() }),
        Err(e) => Err(e.to_string()),
    }
}

/// `a < b` (`<Decimal as PartialOrd>::lt`): compares the values.
#[verifier::external_body]
pub fn dec_lt(a: Dec, b: Dec) -> (r: bool)
    requires
        a.wf(),
        b.wf(),
    ensures
        r == (a.units() < b.units()),
{
    rust_decimal::Decimal::from_i128_with_scale(a.mantissa, a.scale)
        < rust_decimal::Decimal::from_i128_with_scale(b.mantissa, b.scale)
}

/// `a <= b` (`<Decimal as PartialOrd>::le`): compares the values.
#[verifier::external_body]
pub fn dec_le(a: Dec, b: Dec) -> (r: bool)
    requires
        a.wf(),
        b.wf(),
    ensures
        r == (a.units() <= b.units()),
{
    rust_decimal::Decimal::from_i128_with_scale(a.mantissa, a.scale)
        <= rust_decimal::Decimal::from_i128_with_scale(b.mantissa, b.scale)
}

/// `a.min(b)` (`<Decimal as Ord>::min`): `b` when it is strictly smaller,
/// else `a`.
#[verifier::external_body]
pub fn dec_min(a: Dec, b: Dec) -> (r: Dec)
    requires
        a.wf(),
        b.wf(),
    ensures
        r == (if b.units() < a.units() {
            b
        } else {
            a
        }),
{
    let x = rust_decimal::Decimal::from_i128_with_scale(a.mantissa, a.scale);
    let y = rust_decimal::Decimal::from_i128_with_scale(b.mantissa, b.scale);
    let z = x.min(y);
    Dec { mantissa: z.mantissa(), scale: z.scale() }
}

} // verus!

verus! {

pub proof fn lemma_pow10_pos(n: nat)
    ensures
        pow10(n) >= 1,
    decreases n,
{
    if n > 0 {
        lemma_pow10_pos((n - 1) as nat);
    }
}

pub proof fn lemma_pow10_add(a: nat, b: nat)
    ensures
        pow10(a + b) == pow10(a) * pow10(b),
    decreases b,
{
    if b == 0 {
        assert(pow10(a + b) == pow10(a));
        assert(pow10(b) == 1);
        assert(pow10(a) * 1 == pow10(a));
    } else {
        let b1 = (b - 1) as nat;
        lemma_pow10_add(a, b1);
        assert((a + b - 1) as nat == a + b1);
        assert(pow10(a + b) == 10 * pow10(a + b1));
        assert(pow10(b) == 10 * pow10(b1));
        let x = pow10(a);
        let y = pow10(b1);
        assert(10 * (x * y) == x * (10 * y)) by (nonlinear_arith);
        assert(pow10(a + b) == 10 * (x * y));
        assert(pow10(a) * pow10(b) == x * (10 * y));
    }
}

pub proof fn lemma_pow10_small()
    ensures
        pow10(0) == 1,
        pow10(1) == 10,
        pow10(2) == 100,
        pow10(3) == 1000,
        pow10(4) == 10000,
{
    reveal_with_fuel(pow10, 5);
}

/// Rounding a magnitude never increases it.
pub proof fn lemma_round_half_even_bound(n: nat, d: nat)
    requires
        d > 0,
    ensures
        round_half_even(n, d) <= n,
{
    let q = n / d;
    let r = n % d;
    assert(n == q * d + r) by (nonlinear_arith)
        requires
            d > 0,
            q == n / d,
            r == n % d,
    ;
    if d == 1 {
        assert(r == 0);
        assert(q == n);
    } else {
        assert(q * d >= q) by (nonlinear_arith)
            requires
                d >= 1,
        ;
        if q * d == q {
            assert(q == 0) by (nonlinear_arith)
                requires
                    q * d == q,
                    d >= 2,
            ;
        } else {
            assert(q * d >= 2 * q) by (nonlinear_arith)
                requires
                    d >= 2,
            ;
        }
    }
}

/// Rounding never goes above a whole bound: `n <= k * d` gives
/// `round_half_even(n, d) <= k`.
pub proof fn lemma_round_half_even_le(n: nat, d: nat, k: nat)
    requires
        d > 0,
        n <= k * d,
    ensures
        round_half_even(n, d) <= k,
{
    let q = n / d;
    let r = n % d;
    assert(n == q * d + r) by (nonlinear_arith)
        requires
            d > 0,
            q == n / d,
            r == n % d,
    ;
    if q > k {
        assert(q * d >= (k + 1) * d) by (nonlinear_arith)
            requires
                q > k,
                d > 0,
        ;
        assert((k + 1) * d == k * d + d) by (nonlinear_arith);
        assert(false);
    }
    if q == k {
        assert(q * d == k * d);
        assert(r == 0);
    }
}

} // verus!

verus! {

/// A sum that fits is a well-formed decimal.
pub proof fn lemma_sum_wf(a: Dec, b: Dec)
    requires
        a.wf(),
        b.wf(),
        sum_fits(a, b),
    ensures
        sum_spec(a, b).wf(),
{
}

/// A difference that fits is a well-formed decimal.
pub proof fn lemma_diff_wf(a: Dec, b: Dec)
    requires
        a.wf(),
        b.wf(),
        diff_fits(a, b),
    ensures
        diff_spec(a, b).wf(),
{
}

} // verus!

verus! {

/// Rescaling to a larger scale keeps the value.
pub proof fn lemma_rescaled_units(a: Dec, s: nat)
    requires
        a.scale <= s <= DEC_MAX_SCALE,
    ensures
        rescaled(a, s) * pow10((DEC_MAX_SCALE - s) as nat) == a.units(),
{
    let x = (s - a.scale) as nat;
    let y = (DEC_MAX_SCALE - s) as nat;
    lemma_pow10_add(x, y);
    assert(x + y == (DEC_MAX_SCALE - a.scale) as nat);
    let m = a.mantissa as int;
    assert(m * pow10(x) * pow10(y) == m * (pow10(x) * pow10(y))) by (nonlinear_arith);
}

/// A sum that fits adds the values.
pub proof fn lemma_sum_units(a: Dec, b: Dec)
    requires
        a.wf(),
        b.wf(),
        sum_fits(a, b),
    ensures
        sum_spec(a, b).units() == a.units() + b.units(),
{
    if a.mantissa == 0 {
        lemma_zero_units(a);
    } else if b.mantissa == 0 {
        lemma_zero_units(b);
    } else {
        let s = max_nat(a.scale as nat, b.scale as nat);
        lemma_rescaled_units(a, s);
        lemma_rescaled_units(b, s);
        let p = pow10((DEC_MAX_SCALE - s) as nat);
        assert((rescaled(a, s) + rescaled(b, s)) * p == rescaled(a, s) * p + rescaled(b, s) * p)
            by (nonlinear_arith);
    }
}

/// A difference that fits subtracts the values.
pub proof fn lemma_diff_units(a: Dec, b: Dec)
    requires
        a.wf(),
        b.wf(),
        diff_fits(a, b),
    ensures
        diff_spec(a, b).units() == a.units() - b.units(),
{
    if a.mantissa == 0 {
        lemma_zero_units(a);
        let p = pow10((DEC_MAX_SCALE - b.scale) as nat);
        assert((-b.mantissa) * p == -(b.mantissa * p)) by (nonlinear_arith);
    } else if b.mantissa == 0 {
        lemma_zero_units(b);
    } else {
        let s = max_nat(a.scale as nat, b.scale as nat);
        lemma_rescaled_units(a, s);
        lemma_rescaled_units(b, s);
        let p = pow10((DEC_MAX_SCALE - s) as nat);
        assert((rescaled(a, s) - rescaled(b, s)) * p == rescaled(a, s) * p - rescaled(b, s) * p)
            by (nonlinear_arith);
    }
}

/// Zero has no units.
pub proof fn lemma_zero_units(a: Dec)
    requires
        a.mantissa == 0,
    ensures
        a.units() == 0,
{
    let p = pow10((DEC_MAX_SCALE - a.scale) as nat);
    assert(0 * p == 0) by (nonlinear_arith);
}

} // verus!
