use bullseye_core::trend::Trend;
use bullseye_core::trend::calculate_long_term_trend;
use bullseye_core::trend::calculate_long_term_trend_option;
use bullseye_core::trend::calculate_short_term_trend;
use bullseye_core::trend::calculate_short_term_trend_option;
use bullseye_core::trend::concat_trend;
use bullseye_core::trend::direction;

#[test]
fn direction_applies_relative_flat_threshold() {
    // 10 -> 10.5 (scaled by 100) is a 5% move: directional at a 2% threshold.
    assert_eq!(direction(1000, 1050, 200), Trend::Up);
    // 10 -> 10.1 is 1%: flat at a 2% threshold.
    assert_eq!(direction(1000, 1010, 200), Trend::Flat);
    assert_eq!(direction(1050, 1000, 200), Trend::Down);
    assert_eq!(direction(7, 7, 0), Trend::Flat);
}

#[test]
fn example_series_trends_up() {
    // The series 10, 10.5, 11, 15, 20 (scaled by 100), 2% threshold.
    let series: Vec<i64> = vec![1000, 1050, 1100, 1500, 2000];
    let labels = calculate_short_term_trend(&series, 2, 200);
    // Windows of two: [10, 10.5] up, [11, 15] up; the trailing singleton
    // window has no move and is flat.
    assert_eq!(labels, vec![Trend::Up, Trend::Up, Trend::Flat]);
    assert_eq!(concat_trend(labels, 2), Trend::Up);
    // Long term: first 10 -> last 20 is +100%, well over the threshold.
    assert_eq!(calculate_long_term_trend(&series, 200), Trend::Up);
}

#[test]
fn constant_series_is_flat_long_term() {
    let series: Vec<i64> = vec![1000, 1000, 1000, 1000];
    assert_eq!(calculate_long_term_trend(&series, 200), Trend::Flat);
    let labels = calculate_short_term_trend(&series, 2, 200);
    assert_eq!(labels, vec![Trend::Flat, Trend::Flat]);
    // Flat windows never add up to a confident short-term direction: the
    // overall label is only ever up, down or mixed.
    assert_eq!(concat_trend(labels, 2), Trend::Mixed);
}

#[test]
fn short_series_is_mixed_not_an_error() {
    let empty: Vec<i64> = Vec::new();
    assert_eq!(calculate_long_term_trend(&empty, 200), Trend::Mixed);
    let labels = calculate_short_term_trend(&empty, 3, 200);
    assert!(labels.is_empty());
    assert_eq!(concat_trend(labels, 1), Trend::Mixed);
}

#[test]
fn missing_values_skipped_when_ignore_none() {
    let series: Vec<Option<i64>> = vec![None, Some(1000), None, Some(2000), None];
    assert_eq!(calculate_long_term_trend_option(&series, true, 200), Trend::Up);
    // Without ignore_none a missing value poisons the series.
    assert_eq!(calculate_long_term_trend_option(&series, false, 200), Trend::Mixed);
}

#[test]
fn all_missing_values_yield_mixed() {
    let series: Vec<Option<i64>> = vec![None, None, None];
    assert_eq!(calculate_long_term_trend_option(&series, true, 200), Trend::Mixed);
    let labels = calculate_short_term_trend_option(&series, 2, true, 200);
    assert_eq!(labels, vec![Trend::Mixed, Trend::Mixed]);
}

#[test]
fn window_labels_respect_ignore_none() {
    let series: Vec<Option<i64>> = vec![Some(1000), None, Some(2000), Some(1000), None, Some(900)];
    // Windows of three. Skipping the missing values: [10, -, 20] up,
    // [10, -, 9] down (a 10% drop).
    let skipped = calculate_short_term_trend_option(&series, 3, true, 200);
    assert_eq!(skipped, vec![Trend::Up, Trend::Down]);
    // Poisoning: both windows hold a missing value.
    let poisoned = calculate_short_term_trend_option(&series, 3, false, 200);
    assert_eq!(poisoned, vec![Trend::Mixed, Trend::Mixed]);
}

#[test]
fn concat_trend_requires_agreement() {
    let labels = vec![Trend::Up, Trend::Up, Trend::Down];
    // Two rising windows beat one falling window at threshold two...
    assert_eq!(concat_trend(labels.clone(), 2), Trend::Up);
    // ...but not at threshold three.
    assert_eq!(concat_trend(labels, 3), Trend::Mixed);
    // A tie is never a confident label.
    assert_eq!(concat_trend(vec![Trend::Up, Trend::Down], 1), Trend::Mixed);
    // Dominant flat windows collapse to mixed, never to an overall flat.
    assert_eq!(concat_trend(vec![Trend::Flat, Trend::Flat, Trend::Flat], 1), Trend::Mixed);
    assert_eq!(concat_trend(vec![Trend::Up, Trend::Flat, Trend::Flat], 2), Trend::Mixed);
}

#[test]
fn moves_away_from_zero_are_directional() {
    assert_eq!(direction(0, 5, 200), Trend::Up);
    assert_eq!(direction(0, -5, 200), Trend::Down);
    assert_eq!(direction(0, 0, 200), Trend::Flat);
}
