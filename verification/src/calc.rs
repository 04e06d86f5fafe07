//! Pure numeric derivation: ratios, percentage ratios and year-over-year
//! growth over fixed-point integers.
//!
//! A ratio or growth value is reported at two-decimal precision, scaled by
//! 100 (so `3333` stands for `33.33`), rounded half away from zero. Every
//! undefined case — a missing operand, a zero denominator, or a result that
//! does not fit in `i64` — resolves to an absent value, never a fault.
use vstd::prelude::*;

verus! {

/// Absolute value of a mathematical integer.
pub open spec fn abs_i(n: int) -> int {
    if n < 0 {
        -n
    } else {
        n
    }
}

/// `n / d` rounded to the nearest integer, halves away from zero (`d != 0`).
pub open spec fn round_div_half_away(n: int, d: int) -> int
    recommends
        d != 0,
{
    let m = (2 * abs_i(n) + abs_i(d)) / (2 * abs_i(d));
    if (n >= 0) == (d >= 0) {
        m
    } else {
        -m
    }
}

/// `scale * n / d` rounded half away from zero, as far as it exists and fits:
/// absent when `d == 0` or the rounded value falls outside `i64`.
pub open spec fn spec_scaled_ratio(n: int, d: int, scale: int) -> Option<int> {
    if d == 0 {
        None
    } else {
        let v = round_div_half_away(scale * n, d);
        if i64::MIN <= v <= i64::MAX {
            Some(v)
        } else {
            None
        }
    }
}

/// The plain ratio `n / d` at two-decimal precision, scaled by 100.
pub open spec fn spec_ratio(n: int, d: int) -> Option<int> {
    spec_scaled_ratio(n, d, 100)
}

/// The percentage `n / d * 100` at two-decimal precision, scaled by 100.
pub open spec fn spec_ratio_pct(n: int, d: int) -> Option<int> {
    spec_scaled_ratio(n, d, 10000)
}

/// Year-over-year growth `(c - p) / |p| * 100` as a percentage at two-decimal
/// precision, scaled by 100; absent when the prior value is zero.
pub open spec fn spec_yoy_growth(c: int, p: int) -> Option<int> {
    spec_scaled_ratio(c - p, abs_i(p), 10000)
}

/// Rounds `scale * n / d` half away from zero in 128-bit arithmetic.
fn rounded_scaled_div(n: i64, d: i64, scale: i64) -> (r: Option<i64>)
    requires
        1 <= scale <= 10000,
    ensures
        r is Some <==> spec_scaled_ratio(n as int, d as int, scale as int) is Some,
        r is Some ==> r->Some_0 as int == spec_scaled_ratio(
            n as int,
            d as int,
            scale as int,
        )->Some_0,
{
    if d == 0 {
        return None;
    }
    proof {
        assert((n as int) * (scale as int) <= 92233720368547758070000 && (n as int) * (scale
            as int) >= -92233720368547758080000) by (nonlinear_arith)
            requires
                1 <= scale <= 10000,
                -9223372036854775808 <= n <= 9223372036854775807,
        ;
    }
    let sn: i128 = (n as i128) * (scale as i128);
    let na: u128 = if sn < 0 {
        (-sn) as u128
    } else {
        sn as u128
    };
    let da: u128 = if d < 0 {
        (-(d as i128)) as u128
    } else {
        d as u128
    };
    assert(na == abs_i(scale as int * n as int));
    assert(da == abs_i(d as int));
    let m: u128 = (2 * na + da) / (2 * da);
    assert(m == (2 * abs_i(scale as int * n as int) + abs_i(d as int)) / (2 * abs_i(
        d as int,
    )));
    let neg: bool = (sn < 0) != (d < 0);
    let ghost v: int = round_div_half_away(scale as int * n as int, d as int);
    assert(neg ==> v == -(m as int));
    assert(!neg ==> v == m as int);
    if neg {
        if m <= 9223372036854775808u128 {
            let r128: i128 = -(m as i128);
            Some(r128 as i64)
        } else {
            None
        }
    } else {
        if m <= i64::MAX as u128 {
            Some(m as i64)
        } else {
            None
        }
    }
}

/// The plain ratio of two present fixed-point values, two-decimal precision,
/// scaled by 100; absent on a zero denominator or an unrepresentable result.
pub fn ratio_scaled(numerator: i64, denominator: i64) -> (r: Option<i64>)
    ensures
        r is Some <==> spec_ratio(numerator as int, denominator as int) is Some,
        r is Some ==> r->Some_0 as int == spec_ratio(numerator as int, denominator as int)->Some_0,
{
    rounded_scaled_div(numerator, denominator, 100)
}

/// The percentage ratio of two present fixed-point values, two-decimal
/// precision, scaled by 100; absent on a zero denominator or an
/// unrepresentable result.
pub fn ratio_pct_scaled(numerator: i64, denominator: i64) -> (r: Option<i64>)
    ensures
        r is Some <==> spec_ratio_pct(numerator as int, denominator as int) is Some,
        r is Some ==> r->Some_0 as int == spec_ratio_pct(
            numerator as int,
            denominator as int,
        )->Some_0,
{
    rounded_scaled_div(numerator, denominator, 10000)
}

/// What `calculate_ratio` and `calculate_ratio_option` return: absent when an
/// operand is absent, else the plain two-decimal ratio.
pub open spec fn spec_ratio_opt(n: Option<i64>, d: Option<i64>) -> Option<int> {
    match (n, d) {
        (Some(nv), Some(dv)) => spec_ratio(nv as int, dv as int),
        _ => None,
    }
}

/// What the percentage variants return: absent when an operand is absent,
/// else the two-decimal percentage ratio.
pub open spec fn spec_ratio_pct_opt(n: Option<i64>, d: Option<i64>) -> Option<int> {
    match (n, d) {
        (Some(nv), Some(dv)) => spec_ratio_pct(nv as int, dv as int),
        _ => None,
    }
}

/// What `calculate_yoy_growth_option` returns: absent when an operand is
/// absent or the prior value is zero, else the two-decimal growth percentage.
pub open spec fn spec_yoy_growth_opt(c: Option<i64>, p: Option<i64>) -> Option<int> {
    match (c, p) {
        (Some(cv), Some(pv)) => spec_yoy_growth(cv as int, pv as int),
        _ => None,
    }
}

/// Plain ratio of an optional numerator over a mandatory denominator.
pub fn calculate_ratio(numerator: Option<i64>, denominator: i64) -> (r: Option<i64>)
    ensures
        numerator is None ==> r is None,
        r is Some <==> spec_ratio_opt(numerator, Some(denominator)) is Some,
        r is Some ==> r->Some_0 as int == spec_ratio_opt(numerator, Some(denominator))->Some_0,
{
    match numerator {
        Some(n) => ratio_scaled(n, denominator),
        None => None,
    }
}

/// Plain ratio of two optional operands; absent whenever either is absent.
pub fn calculate_ratio_option(numerator: Option<i64>, denominator: Option<i64>) -> (r: Option<
    i64,
>)
    ensures
        numerator is None || denominator is None ==> r is None,
        r is Some <==> spec_ratio_opt(numerator, denominator) is Some,
        r is Some ==> r->Some_0 as int == spec_ratio_opt(numerator, denominator)->Some_0,
{
    match (numerator, denominator) {
        (Some(n), Some(d)) => ratio_scaled(n, d),
        _ => None,
    }
}

/// Percentage ratio of an optional numerator over a mandatory denominator.
pub fn calculate_ratio_as_pct(numerator: Option<i64>, denominator: i64) -> (r: Option<i64>)
    ensures
        numerator is None ==> r is None,
        r is Some <==> spec_ratio_pct_opt(numerator, Some(denominator)) is Some,
        r is Some ==> r->Some_0 as int == spec_ratio_pct_opt(numerator, Some(denominator))->Some_0,
{
    match numerator {
        Some(n) => ratio_pct_scaled(n, denominator),
        None => None,
    }
}

/// Percentage ratio of two optional operands; absent whenever either is
/// absent.
pub fn calculate_ratio_as_pct_option(numerator: Option<i64>, denominator: Option<i64>) -> (r:
    Option<i64>)
    ensures
        numerator is None || denominator is None ==> r is None,
        r is Some <==> spec_ratio_pct_opt(numerator, denominator) is Some,
        r is Some ==> r->Some_0 as int == spec_ratio_pct_opt(numerator, denominator)->Some_0,
{
    match (numerator, denominator) {
        (Some(n), Some(d)) => ratio_pct_scaled(n, d),
        _ => None,
    }
}

/// Year-over-year growth of two optional operands; absent whenever either is
/// absent or the prior value is zero.
pub fn calculate_yoy_growth_option(current: Option<i64>, previous: Option<i64>) -> (r: Option<
    i64,
>)
    ensures
        current is None || previous is None ==> r is None,
        previous == Some(0i64) ==> r is None,
        r is Some <==> spec_yoy_growth_opt(current, previous) is Some,
        r is Some ==> r->Some_0 as int == spec_yoy_growth_opt(current, previous)->Some_0,
{
    match (current, previous) {
        (Some(c), Some(p)) => {
            if p == 0 {
                None
            } else {
                let pa: i64 = if p < 0 {
                    if p == i64::MIN {
                        return yoy_growth_wide(c, p);
                    }
                    -p
                } else {
                    p
                };
                if let Some(diff) = c.checked_sub(p) {
                    rounded_scaled_div(diff, pa, 10000)
                } else {
                    yoy_growth_wide(c, p)
                }
            }
        },
        _ => None,
    }
}

/// Growth computation falling back to 128-bit arithmetic where the difference
/// or the magnitude of the prior value does not fit in `i64`.
fn yoy_growth_wide(c: i64, p: i64) -> (r: Option<i64>)
    requires
        p != 0,
    ensures
        r is Some <==> spec_yoy_growth(c as int, p as int) is Some,
        r is Some ==> r->Some_0 as int == spec_yoy_growth(c as int, p as int)->Some_0,
{
    let diff: i128 = (c as i128) - (p as i128);
    let num: i128 = diff * 10000;
    let na: u128 = if num < 0 {
        (-num) as u128
    } else {
        num as u128
    };
    let da: u128 = if p < 0 {
        (-(p as i128)) as u128
    } else {
        p as u128
    };
    assert(na == abs_i(10000 * (c as int - p as int)));
    assert(da == abs_i(p as int));
    let m: u128 = (2 * na + da) / (2 * da);
    let ghost d: int = abs_i(p as int);
    let ghost n: int = 10000 * (c as int - p as int);
    assert(m == (2 * abs_i(n) + abs_i(d)) / (2 * abs_i(d)));
    let neg: bool = num < 0;
    let ghost v: int = round_div_half_away(n, d);
    assert(neg ==> v == -(m as int));
    assert(!neg ==> v == m as int);
    if neg {
        if m <= 9223372036854775808u128 {
            let r128: i128 = -(m as i128);
            Some(r128 as i64)
        } else {
            None
        }
    } else {
        if m <= i64::MAX as u128 {
            Some(m as i64)
        } else {
            None
        }
    }
}

} // verus!
