//! Trend classification over an ordered series of a single numeric field.
//!
//! The series is ordered oldest to newest. The flat threshold is a relative
//! move in units of 1/10000 of the starting value (200 stands for 2%): a step
//! from `a` to `b` is flat when `|b - a| * 10000 < threshold * |a|`, and
//! directional otherwise. A short-term classification partitions the series
//! into consecutive windows of a given length, labels each window by the
//! direction from its first to its last usable value, and collapses the
//! window labels into one overall label; a long-term classification compares
//! the earliest to the latest usable value of the whole series. Sparse or
//! short input never faults: it yields the mixed/insufficient label.
use vstd::prelude::*;
use crate::calc::abs_i;

verus! {

/// A trend label: a directional move, a flat series, or mixed/insufficient
/// data.
#[derive(Clone, Copy, PartialEq, Eq, Structural, Debug)]
pub enum Trend {
    Up,
    Down,
    Flat,
    Mixed,
}

/// The direction of one move from `a` to `b` under flat threshold `t`
/// (in 1/10000 of `|a|`).
pub open spec fn spec_direction(a: int, b: int, t: int) -> Trend {
    if b == a {
        Trend::Flat
    } else if 10000 * abs_i(b - a) < t * abs_i(a) {
        Trend::Flat
    } else if b > a {
        Trend::Up
    } else {
        Trend::Down
    }
}

/// The direction of the move from `a` to `b`: flat below the threshold, else
/// up or down by sign.
pub fn direction(a: i64, b: i64, flat_threshold_bp: u32) -> (t: Trend)
    ensures
        t == spec_direction(a as int, b as int, flat_threshold_bp as int),
{
    if b == a {
        return Trend::Flat;
    }
    let diff: i128 = (b as i128) - (a as i128);
    let ad: i128 = if diff < 0 {
        -diff
    } else {
        diff
    };
    let a128: i128 = a as i128;
    let aa: i128 = if a128 < 0 {
        -a128
    } else {
        a128
    };
    proof {
        assert(ad == abs_i(b as int - a as int));
        assert(aa == abs_i(a as int));
        assert((flat_threshold_bp as int) * aa <= 4294967295 * 9223372036854775808)
            by (nonlinear_arith)
            requires
                0 <= flat_threshold_bp as int <= 4294967295,
                0 <= aa <= 9223372036854775808,
        ;
    }
    let lhs: i128 = 10000 * ad;
    let rhs: i128 = (flat_threshold_bp as i128) * aa;
    if lhs < rhs {
        Trend::Flat
    } else if b > a {
        Trend::Up
    } else {
        Trend::Down
    }
}

/// The first present value of a window, scanning oldest first.
pub open spec fn spec_first_present(w: Seq<Option<i64>>) -> Option<i64>
    decreases w.len(),
{
    if w.len() == 0 {
        None
    } else if w[0] is Some {
        w[0]
    } else {
        spec_first_present(w.drop_first())
    }
}

/// The last present value of a window.
pub open spec fn spec_last_present(w: Seq<Option<i64>>) -> Option<i64>
    decreases w.len(),
{
    if w.len() == 0 {
        None
    } else if w.last() is Some {
        w.last()
    } else {
        spec_last_present(w.drop_last())
    }
}

/// Whether a window holds a missing value.
pub open spec fn spec_has_none(w: Seq<Option<i64>>) -> bool {
    exists|i: int| 0 <= i < w.len() && w[i] is None
}

/// Appending a value on the right leaves an earlier first-present value in
/// place.
proof fn lemma_first_present_push(w: Seq<Option<i64>>, x: Option<i64>)
    ensures
        spec_first_present(w.push(x)) == if spec_first_present(w) is Some {
            spec_first_present(w)
        } else {
            x
        },
    decreases w.len(),
{
    if w.len() == 0 {
        assert(spec_first_present(w) is None);
        assert(w.push(x)[0] == x);
        if x is Some {
            assert(spec_first_present(w.push(x)) == x);
        } else {
            assert(w.push(x).drop_first() =~= Seq::<Option<i64>>::empty());
            assert(spec_first_present(w.push(x)) == spec_first_present(w.push(x).drop_first()));
            assert(spec_first_present(w.push(x)) is None);
        }
    } else {
        assert(w.push(x)[0] == w[0]);
        assert(w.push(x).drop_first() =~= w.drop_first().push(x));
        lemma_first_present_push(w.drop_first(), x);
        if w[0] is Some {
            assert(spec_first_present(w.push(x)) == w[0]);
            assert(spec_first_present(w) == w[0]);
        } else {
            assert(spec_first_present(w.push(x)) == spec_first_present(w.drop_first().push(x)));
            assert(spec_first_present(w) == spec_first_present(w.drop_first()));
        }
    }
}

/// The label of one window: the direction from its first to its last usable
/// value. With `ignore_none` set, missing values are skipped and a window
/// with no present value is mixed; without it, any missing value poisons the
/// window.
pub open spec fn spec_window_label(w: Seq<Option<i64>>, ignore_none: bool, t: int) -> Trend {
    if ignore_none {
        match (spec_first_present(w), spec_last_present(w)) {
            (Some(a), Some(b)) => spec_direction(a as int, b as int, t),
            _ => Trend::Mixed,
        }
    } else {
        if w.len() == 0 || spec_has_none(w) {
            Trend::Mixed
        } else {
            spec_direction(w[0]->Some_0 as int, w.last()->Some_0 as int, t)
        }
    }
}

/// The labels of the consecutive windows of `len` values each; the last
/// window may be shorter.
pub open spec fn spec_window_labels(
    vals: Seq<Option<i64>>,
    len: int,
    ignore_none: bool,
    t: int,
) -> Seq<Trend>
    recommends
        len >= 1,
    decreases vals.len(),
{
    if vals.len() == 0 || len < 1 {
        Seq::empty()
    } else if vals.len() <= len {
        seq![spec_window_label(vals, ignore_none, t)]
    } else {
        seq![spec_window_label(vals.take(len), ignore_none, t)] + spec_window_labels(
            vals.skip(len),
            len,
            ignore_none,
            t,
        )
    }
}

/// The label of the window `vals[start..end]`, computed by one scan.
fn window_label(vals: &Vec<Option<i64>>, start: usize, end: usize, ignore_none: bool,
    flat_threshold_bp: u32) -> (t: Trend)
    requires
        start < end <= vals@.len(),
    ensures
        t == spec_window_label(
            vals@.subrange(start as int, end as int),
            ignore_none,
            flat_threshold_bp as int,
        ),
{
    let ghost w = vals@.subrange(start as int, end as int);
    let mut first: Option<i64> = None;
    let mut last: Option<i64> = None;
    let mut saw_none: bool = false;
    let mut i: usize = start;
    while i < end
        invariant
            start <= i <= end <= vals@.len(),
            w == vals@.subrange(start as int, end as int),
            first == spec_first_present(w.take(i - start)),
            last == spec_last_present(w.take(i - start)),
            saw_none == spec_has_none(w.take(i - start)),
        decreases end - i,
    {
        let v = vals[i];
        proof {
            assert(w.take(i + 1 - start) =~= w.take(i - start).push(v));
            assert(w.take(i + 1 - start).drop_last() =~= w.take(i - start));
            assert(w.take(i + 1 - start).last() == v);
            lemma_first_present_push(w.take(i - start), v);
            if v is None {
                assert(w.take(i + 1 - start)[i - start] is None);
            }
            if !saw_none && v is Some {
                assert forall|j: int| 0 <= j < w.take(i + 1 - start).len() implies (#[trigger] w.take(
                    i + 1 - start,
                )[j]) is Some by {
                    if j < i - start {
                        assert(w.take(i - start)[j] is Some);
                    }
                };
            }
        }
        if v.is_none() {
            saw_none = true;
        } else {
            if first.is_none() {
                first = v;
            }
            last = v;
        }
        i += 1;
    }
    proof {
        assert(w.take(end - start) =~= w);
    }
    if ignore_none {
        match (first, last) {
            (Some(a), Some(b)) => direction(a, b, flat_threshold_bp),
            _ => Trend::Mixed,
        }
    } else {
        if saw_none {
            Trend::Mixed
        } else {
            proof {
                assert(w[0] is Some && w.last() is Some);
            }
            match (first, last) {
                (Some(_), Some(_)) => direction(
                    vals[start].unwrap(),
                    vals[end - 1].unwrap(),
                    flat_threshold_bp,
                ),
                _ => Trend::Mixed,
            }
        }
    }
}

/// The per-window direction labels of a series of optional values, windows of
/// `length` values each.
pub fn calculate_short_term_trend_option(
    values: &Vec<Option<i64>>,
    length: usize,
    ignore_none: bool,
    flat_threshold_bp: u32,
) -> (r: Vec<Trend>)
    requires
        length >= 1,
    ensures
        r@ == spec_window_labels(values@, length as int, ignore_none, flat_threshold_bp as int),
{
    let ghost thr = flat_threshold_bp as int;
    let mut r: Vec<Trend> = Vec::new();
    let mut pos: usize = 0;
    proof {
        assert(values@.skip(0) =~= values@);
        assert(r@ + spec_window_labels(values@, length as int, ignore_none, thr)
            =~= spec_window_labels(values@, length as int, ignore_none, thr));
    }
    while pos < values.len()
        invariant
            length >= 1,
            pos <= values@.len(),
            thr == flat_threshold_bp as int,
            r@ + spec_window_labels(
                values@.skip(pos as int),
                length as int,
                ignore_none,
                flat_threshold_bp as int,
            ) == spec_window_labels(
                values@,
                length as int,
                ignore_none,
                flat_threshold_bp as int,
            ),
        decreases values@.len() - pos,
    {
        let end: usize = if values.len() - pos > length {
            pos + length
        } else {
            values.len()
        };
        let label = window_label(values, pos, end, ignore_none, flat_threshold_bp);
        let ghost prev = r@;
        proof {
            let rest = values@.skip(pos as int);
            assert(label == spec_window_label(
                values@.subrange(pos as int, end as int),
                ignore_none,
                flat_threshold_bp as int,
            ));
            assert(values@.subrange(pos as int, end as int) =~= if rest.len() <= length as int {
                rest
            } else {
                rest.take(length as int)
            });
            assert(rest.skip(end - pos) =~= values@.skip(end as int));
            assert(rest.len() == values@.len() - pos);
            if rest.len() <= length as int {
                assert(end == values@.len());
                assert(values@.subrange(pos as int, end as int) =~= rest);
                assert(label == spec_window_label(rest, ignore_none, thr));
                assert(spec_window_labels(rest, length as int, ignore_none, thr) == seq![
                    spec_window_label(rest, ignore_none, thr),
                ]);
                assert(spec_window_labels(rest, length as int, ignore_none, thr) =~= seq![label]);
                assert(values@.skip(end as int).len() == 0);
                assert(spec_window_labels(
                    values@.skip(end as int),
                    length as int,
                    ignore_none,
                    thr,
                ) =~= Seq::<Trend>::empty());
            } else {
                assert(rest.take(length as int) =~= values@.subrange(pos as int, end as int));
                assert(label == spec_window_label(rest.take(length as int), ignore_none, thr));
                assert(spec_window_labels(rest, length as int, ignore_none, thr) == seq![
                    spec_window_label(rest.take(length as int), ignore_none, thr),
                ] + spec_window_labels(rest.skip(length as int), length as int, ignore_none, thr));
                assert(rest.skip(length as int) =~= values@.skip(end as int));
            }
            assert(spec_window_labels(rest, length as int, ignore_none, thr) =~= seq![label]
                + spec_window_labels(values@.skip(end as int), length as int, ignore_none, thr));
            assert(prev.push(label) + spec_window_labels(
                values@.skip(end as int),
                length as int,
                ignore_none,
                thr,
            ) =~= prev + (seq![label] + spec_window_labels(
                values@.skip(end as int),
                length as int,
                ignore_none,
                thr,
            )));
        }
        r.push(label);
        pos = end;
    }
    proof {
        assert(values@.skip(pos as int) =~= Seq::<Option<i64>>::empty());
        assert(r@ =~= r@ + Seq::<Trend>::empty());
    }
    r
}

/// The per-window direction labels of a series of mandatory values.
pub fn calculate_short_term_trend(values: &Vec<i64>, length: usize, flat_threshold_bp: u32) -> (r:
    Vec<Trend>)
    requires
        length >= 1,
    ensures
        r@ == spec_window_labels(
            values@.map_values(|v: i64| Some(v)),
            length as int,
            false,
            flat_threshold_bp as int,
        ),
{
    let mut wrapped: Vec<Option<i64>> = Vec::new();
    let mut i: usize = 0;
    while i < values.len()
        invariant
            i <= values@.len(),
            wrapped@ == values@.take(i as int).map_values(|v: i64| Some(v)),
        decreases values@.len() - i,
    {
        let v = values[i];
        wrapped.push(Some(v));
        proof {
            assert(values@.take(i + 1).map_values(|x: i64| Some(x)) =~= values@.take(
                i as int,
            ).map_values(|x: i64| Some(x)).push(Some(v)));
        }
        i += 1;
    }
    proof {
        assert(values@.take(values@.len() as int) =~= values@);
    }
    calculate_short_term_trend_option(&wrapped, length, false, flat_threshold_bp)
}

/// How many windows carry a given label.
pub open spec fn spec_count_label(s: Seq<Trend>, t: Trend) -> int
    decreases s.len(),
{
    if s.len() == 0 {
        0
    } else {
        spec_count_label(s.drop_last(), t) + if s.last() == t {
            1int
        } else {
            0int
        }
    }
}

/// The overall label of a list of window labels: confidently up (down) only
/// when at least `count_threshold` windows agree on that direction and it is
/// strictly more frequent than each other definite label; anything else —
/// disagreement, flat dominance, too few windows — is mixed.
pub open spec fn spec_concat_trend(s: Seq<Trend>, count_threshold: int) -> Trend {
    let u = spec_count_label(s, Trend::Up);
    let d = spec_count_label(s, Trend::Down);
    let f = spec_count_label(s, Trend::Flat);
    if u >= count_threshold && u > d && u > f {
        Trend::Up
    } else if d >= count_threshold && d > u && d > f {
        Trend::Down
    } else {
        Trend::Mixed
    }
}

/// Collapses per-window labels into one overall short-term label: a
/// confident direction or mixed, never flat.
pub fn concat_trend(trend_vec: Vec<Trend>, count_threshold: usize) -> (t: Trend)
    ensures
        t == spec_concat_trend(trend_vec@, count_threshold as int),
{
    let mut u: usize = 0;
    let mut d: usize = 0;
    let mut f: usize = 0;
    let mut i: usize = 0;
    while i < trend_vec.len()
        invariant
            i <= trend_vec@.len(),
            u == spec_count_label(trend_vec@.take(i as int), Trend::Up),
            d == spec_count_label(trend_vec@.take(i as int), Trend::Down),
            f == spec_count_label(trend_vec@.take(i as int), Trend::Flat),
            u + d + f <= i,
        decreases trend_vec@.len() - i,
    {
        proof {
            assert(trend_vec@.take(i + 1).drop_last() =~= trend_vec@.take(i as int));
        }
        match trend_vec[i] {
            Trend::Up => {
                u += 1;
            },
            Trend::Down => {
                d += 1;
            },
            Trend::Flat => {
                f += 1;
            },
            Trend::Mixed => {},
        }
        i += 1;
    }
    proof {
        assert(trend_vec@.take(trend_vec@.len() as int) =~= trend_vec@);
    }
    if u >= count_threshold && u > d && u > f {
        Trend::Up
    } else if d >= count_threshold && d > u && d > f {
        Trend::Down
    } else {
        Trend::Mixed
    }
}

/// The overall short-term label of a series: mixed where the series is
/// shorter than one window, else the collapse of its per-window labels.
pub open spec fn spec_short_term_trend(
    vals: Seq<Option<i64>>,
    len: int,
    ignore_none: bool,
    t: int,
    count_threshold: int,
) -> Trend {
    if vals.len() < len {
        Trend::Mixed
    } else {
        spec_concat_trend(spec_window_labels(vals, len, ignore_none, t), count_threshold)
    }
}

/// The long-term label of a series of optional values: the direction from
/// the earliest to the latest usable value.
pub open spec fn spec_long_term_trend(vals: Seq<Option<i64>>, ignore_none: bool, t: int) -> Trend {
    spec_window_label(vals, ignore_none, t)
}

/// Long-term trend of a series of mandatory values: the direction from the
/// first to the last value; mixed on an empty series.
pub fn calculate_long_term_trend(values: &Vec<i64>, flat_threshold_bp: u32) -> (t: Trend)
    ensures
        t == spec_long_term_trend(
            values@.map_values(|v: i64| Some(v)),
            false,
            flat_threshold_bp as int,
        ),
{
    let ghost w = values@.map_values(|v: i64| Some(v));
    if values.len() == 0 {
        proof {
            assert(w.len() == 0);
        }
        return Trend::Mixed;
    }
    proof {
        assert(!spec_has_none(w));
        assert(w[0] is Some && w.last() is Some);
        assert(w[0]->Some_0 == values@[0] && w.last()->Some_0 == values@.last());
    }
    direction(values[0], values[values.len() - 1], flat_threshold_bp)
}

/// Long-term trend of a series of optional values. With `ignore_none` set,
/// missing values are skipped; without it, any missing value yields mixed.
pub fn calculate_long_term_trend_option(
    values: &Vec<Option<i64>>,
    ignore_none: bool,
    flat_threshold_bp: u32,
) -> (t: Trend)
    ensures
        t == spec_long_term_trend(values@, ignore_none, flat_threshold_bp as int),
{
    if values.len() == 0 {
        proof {
            assert(values@.len() == 0);
            assert(spec_first_present(values@) is None);
        }
        return Trend::Mixed;
    }
    let label = window_label(values, 0, values.len(), ignore_none, flat_threshold_bp);
    proof {
        assert(values@.subrange(0, values@.len() as int) =~= values@);
    }
    label
}

} // verus!
