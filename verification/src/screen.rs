//! Screening checks over canonical records: qualitative boolean checks and
//! trend extraction over an ordered record history.
//!
//! A trend getter takes the field to analyse as a function value, applies it
//! to every record of the (chronologically ordered) history, and classifies
//! the resulting series. The qualitative checks compare margins and cash
//! positions exactly, over the fixed-point representation: a margin factor is
//! scaled by 100 (300 stands for 3.0), margins by 100 as everywhere else.
use vstd::prelude::*;
use crate::calc::ratio_scaled;
use crate::calc::spec_ratio;
use crate::report::EarningsReport;
use crate::trend::Trend;
use crate::trend::calculate_long_term_trend;
use crate::trend::calculate_long_term_trend_option;
use crate::trend::calculate_short_term_trend;
use crate::trend::calculate_short_term_trend_option;
use crate::trend::concat_trend;
use crate::trend::spec_long_term_trend;
use crate::trend::spec_short_term_trend;

verus! {

/// The gross margin a record reports, or 100% (scaled: 10000) where absent.
pub open spec fn spec_gross_margin_or_default(r: EarningsReport) -> int {
    match r.gross_margin {
        Some(g) => g as int,
        None => 10000,
    }
}

/// The net margin is optimized: the theoretical net margin (gross margin over
/// the industry margin factor) does not exceed the actual net margin, and the
/// operating margin strictly exceeds the net margin. Compared exactly over
/// rationals: for a positive factor, `gm / (factor/100) <= nm` is
/// `100 * gm <= nm * factor`.
pub open spec fn spec_net_margin_optimized(gm: int, factor: int, nm: int, om: int) -> bool {
    &&& factor != 0
    &&& if factor > 0 {
        100 * gm <= nm * factor
    } else {
        100 * gm >= nm * factor
    }
    &&& om > nm
}

/// Computes the theoretical net margin (absent on a zero factor or an
/// unrepresentable value) and whether the record's net margin is optimized
/// against it.
pub fn is_net_margin_optimized(stock_data: &EarningsReport, margin_factor: i64) -> (r: (
    Option<i64>,
    bool,
))
    ensures
        r.0 is Some <==> spec_ratio(
            spec_gross_margin_or_default(*stock_data),
            margin_factor as int,
        ) is Some,
        r.0 is Some ==> r.0->Some_0 as int == spec_ratio(
            spec_gross_margin_or_default(*stock_data),
            margin_factor as int,
        )->Some_0,
        r.1 == spec_net_margin_optimized(
            spec_gross_margin_or_default(*stock_data),
            margin_factor as int,
            stock_data.net_margin as int,
            stock_data.operating_margin as int,
        ),
{
    let curr_gross_margin: i64 = match stock_data.gross_margin {
        Some(g) => g,
        None => 10000,
    };
    let curr_theoretical_net_margin = ratio_scaled(curr_gross_margin, margin_factor);
    let gm: i128 = curr_gross_margin as i128;
    let nm: i128 = stock_data.net_margin as i128;
    let factor: i128 = margin_factor as i128;
    proof {
        assert(nm * factor <= 9223372036854775808i128 * 9223372036854775808i128 && nm * factor
            >= -(9223372036854775808i128 * 9223372036854775808i128)) by (nonlinear_arith)
            requires
                -9223372036854775808 <= nm <= 9223372036854775807,
                -9223372036854775808 <= factor <= 9223372036854775807,
        ;
    }
    let theory_le_actual: bool = if margin_factor > 0 {
        100 * gm <= nm * factor
    } else if margin_factor < 0 {
        100 * gm >= nm * factor
    } else {
        false
    };
    let is_optimized = theory_le_actual && stock_data.operating_margin > stock_data.net_margin;
    (curr_theoretical_net_margin, is_optimized)
}

/// A healthy cash position: net cash is nonnegative, or net income is
/// positive and the cash shortfall is below twice the net income.
pub open spec fn spec_healthy_cash(net_cash: int, net_income: int) -> bool {
    net_cash >= 0 || (net_income > 0 && -net_cash < 2 * net_income)
}

/// Tells whether the record's net cash is at a healthy level.
pub fn has_healthy_cash_position(stock_data: &EarningsReport) -> (b: bool)
    ensures
        b == spec_healthy_cash(stock_data.net_cash as int, stock_data.net_income as int),
{
    if stock_data.net_cash >= 0 {
        true
    } else {
        let nc: i128 = stock_data.net_cash as i128;
        let ni: i128 = stock_data.net_income as i128;
        ni > 0 && -nc < 2 * ni
    }
}

/// The overall short-term trend of a mandatory numeric field over the
/// (chronologically ordered) record history: per-window directions collapsed
/// by the count threshold, and mixed whenever the history is shorter than one
/// window.
pub fn get_short_term_trend<F: Fn(&EarningsReport) -> i64>(
    target: &Vec<EarningsReport>,
    field: F,
    length: usize,
    flat_threshold_bp: u32,
    count_threshold: usize,
) -> (t: Trend)
    requires
        length >= 1,
        forall|i: int| 0 <= i < target@.len() ==> call_requires(field, (&target@[i],)),
    ensures
        exists|vals: Seq<i64>|
            {
                &&& #[trigger] vals.len() == target@.len()
                &&& forall|i: int|
                    0 <= i < vals.len() ==> call_ensures(field, (&target@[i],), #[trigger] vals[i])
                &&& t == spec_short_term_trend(
                    vals.map_values(|v: i64| Some(v)),
                    length as int,
                    false,
                    flat_threshold_bp as int,
                    count_threshold as int,
                )
            },
{
    let mut values: Vec<i64> = Vec::new();
    let mut i: usize = 0;
    while i < target.len()
        invariant
            i <= target@.len(),
            values@.len() == i,
            forall|j: int| 0 <= j < target@.len() ==> call_requires(field, (&target@[j],)),
            forall|j: int|
                0 <= j < i ==> call_ensures(field, (&target@[j],), #[trigger] values@[j]),
        decreases target@.len() - i,
    {
        values.push(field(&target[i]));
        i += 1;
    }
    if values.len() < length {
        return Trend::Mixed;
    }
    let trend_vec = calculate_short_term_trend(&values, length, flat_threshold_bp);
    concat_trend(trend_vec, count_threshold)
}

/// The overall short-term trend of an optional numeric field over the record
/// history: mixed whenever the history is shorter than one window.
pub fn get_short_term_trend_option<F: Fn(&EarningsReport) -> Option<i64>>(
    target: &Vec<EarningsReport>,
    field: F,
    length: usize,
    ignore_none: bool,
    flat_threshold_bp: u32,
    count_threshold: usize,
) -> (t: Trend)
    requires
        length >= 1,
        forall|i: int| 0 <= i < target@.len() ==> call_requires(field, (&target@[i],)),
    ensures
        exists|vals: Seq<Option<i64>>|
            {
                &&& #[trigger] vals.len() == target@.len()
                &&& forall|i: int|
                    0 <= i < vals.len() ==> call_ensures(field, (&target@[i],), #[trigger] vals[i])
                &&& t == spec_short_term_trend(
                    vals,
                    length as int,
                    ignore_none,
                    flat_threshold_bp as int,
                    count_threshold as int,
                )
            },
{
    let mut values: Vec<Option<i64>> = Vec::new();
    let mut i: usize = 0;
    while i < target.len()
        invariant
            i <= target@.len(),
            values@.len() == i,
            forall|j: int| 0 <= j < target@.len() ==> call_requires(field, (&target@[j],)),
            forall|j: int|
                0 <= j < i ==> call_ensures(field, (&target@[j],), #[trigger] values@[j]),
        decreases target@.len() - i,
    {
        values.push(field(&target[i]));
        i += 1;
    }
    if values.len() < length {
        return Trend::Mixed;
    }
    let trend_vec = calculate_short_term_trend_option(
        &values,
        length,
        ignore_none,
        flat_threshold_bp,
    );
    concat_trend(trend_vec, count_threshold)
}

/// The long-term trend of a mandatory numeric field over the record history:
/// the direction from the earliest to the latest value.
pub fn get_long_term_trend<F: Fn(&EarningsReport) -> i64>(
    target: &Vec<EarningsReport>,
    field: F,
    flat_threshold_bp: u32,
) -> (t: Trend)
    requires
        forall|i: int| 0 <= i < target@.len() ==> call_requires(field, (&target@[i],)),
    ensures
        exists|vals: Seq<i64>|
            {
                &&& #[trigger] vals.len() == target@.len()
                &&& forall|i: int|
                    0 <= i < vals.len() ==> call_ensures(field, (&target@[i],), #[trigger] vals[i])
                &&& t == spec_long_term_trend(
                    vals.map_values(|v: i64| Some(v)),
                    false,
                    flat_threshold_bp as int,
                )
            },
{
    let mut values: Vec<i64> = Vec::new();
    let mut i: usize = 0;
    while i < target.len()
        invariant
            i <= target@.len(),
            values@.len() == i,
            forall|j: int| 0 <= j < target@.len() ==> call_requires(field, (&target@[j],)),
            forall|j: int|
                0 <= j < i ==> call_ensures(field, (&target@[j],), #[trigger] values@[j]),
        decreases target@.len() - i,
    {
        values.push(field(&target[i]));
        i += 1;
    }
    calculate_long_term_trend(&values, flat_threshold_bp)
}

/// The long-term trend of an optional numeric field over the record history.
pub fn get_long_term_trend_option<F: Fn(&EarningsReport) -> Option<i64>>(
    target: &Vec<EarningsReport>,
    field: F,
    ignore_none: bool,
    flat_threshold_bp: u32,
) -> (t: Trend)
    requires
        forall|i: int| 0 <= i < target@.len() ==> call_requires(field, (&target@[i],)),
    ensures
        exists|vals: Seq<Option<i64>>|
            {
                &&& #[trigger] vals.len() == target@.len()
                &&& forall|i: int|
                    0 <= i < vals.len() ==> call_ensures(field, (&target@[i],), #[trigger] vals[i])
                &&& t == spec_long_term_trend(vals, ignore_none, flat_threshold_bp as int)
            },
{
    let mut values: Vec<Option<i64>> = Vec::new();
    let mut i: usize = 0;
    while i < target.len()
        invariant
            i <= target@.len(),
            values@.len() == i,
            forall|j: int| 0 <= j < target@.len() ==> call_requires(field, (&target@[j],)),
            forall|j: int|
                0 <= j < i ==> call_ensures(field, (&target@[j],), #[trigger] values@[j]),
        decreases target@.len() - i,
    {
        values.push(field(&target[i]));
        i += 1;
    }
    calculate_long_term_trend_option(&values, ignore_none, flat_threshold_bp)
}

} // verus!
