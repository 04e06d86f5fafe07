use bullseye_core::dates::CalendarDate;
use bullseye_core::report::Duration;
use bullseye_core::report::EarningsReport;
use bullseye_core::screen::get_long_term_trend;
use bullseye_core::screen::get_long_term_trend_option;
use bullseye_core::screen::get_short_term_trend;
use bullseye_core::screen::get_short_term_trend_option;
use bullseye_core::screen::has_healthy_cash_position;
use bullseye_core::screen::is_net_margin_optimized;
use bullseye_core::trend::Trend;

fn sample_report(id: i32, company_id: i32, duration: Duration, quarter: i16, year: i16) -> EarningsReport {
    EarningsReport {
        id,
        company_id,
        duration,
        quarter_str: quarter,
        year_str: year,
        period_ending: CalendarDate { year: year as i32, month: 12, day: 31 },
        currency: "USD".to_string(),
        net_interest_income: None,
        net_interest_growth_yoy: None,
        net_interest_margin: None,
        provision_for_loan_loss: None,
        cost_of_risk: None,
        revenue: 1000,
        revenue_growth_yoy: None,
        cost_of_revenue: None,
        gross_profit: None,
        gross_margin: None,
        gross_profit_growth_yoy: None,
        sga_expenses: None,
        sga_gp_ratio: None,
        rnd_expenses: None,
        rnd_gp_ratio: None,
        operating_expenses: 100,
        operating_income: 200,
        operating_margin: 2000,
        interest_expenses: None,
        interest_expenses_op_income_ratio: None,
        goodwill_impairment: 0,
        net_income: 150,
        net_margin: 1500,
        eps_basic: 100,
        eps_diluted: 100,
        shares_outstanding_basic: 500,
        shares_outstanding_diluted: 500,
        shares_change_yoy: 0,
        ffo: None,
        ffo_margin: None,
        cash_and_equivalents: 300,
        cash_and_short_term_investments: None,
        total_investments: None,
        gross_loans: None,
        accounts_receivable: None,
        inventory: None,
        total_current_assets: None,
        goodwill: None,
        total_assets: 5000,
        accounts_payable: None,
        total_current_liabilities: None,
        total_liabilities: 2000,
        retained_earnings: 800,
        shareholders_equity: 3000,
        total_debt: None,
        net_cash: 250,
        depreciation_and_amortization: None,
        stock_based_compensation: None,
        operating_cash_flow: None,
        operating_cash_flow_margin: None,
        capital_expenditure: None,
        investing_cash_flow: None,
        financing_cash_flow: None,
        free_cash_flow: None,
        free_cash_flow_margin: None,
        ratio_calculated: false,
        growth_calculated: false,
    }
}
#[test]
fn healthy_cash_position_examples() {
    // net_cash = -50, net_income = 30: |−50| / 30 = 1.667 < 2 -> healthy.
    let mut r = sample_report(1, 1, Duration::Ttm, 1, 2024);
    r.net_cash = -50;
    r.net_income = 30;
    assert!(has_healthy_cash_position(&r));
    // net_cash = -50, net_income = 20: 2.5 >= 2 -> not healthy.
    r.net_income = 20;
    assert!(!has_healthy_cash_position(&r));
}

#[test]
fn nonnegative_net_cash_is_always_healthy() {
    let mut r = sample_report(1, 1, Duration::Ttm, 1, 2024);
    r.net_cash = 0;
    r.net_income = -100;
    assert!(has_healthy_cash_position(&r));
    r.net_cash = -1;
    assert!(!has_healthy_cash_position(&r));
}

#[test]
fn healthy_cash_boundary_is_strict() {
    let mut r = sample_report(1, 1, Duration::Ttm, 1, 2024);
    // Exactly twice the net income is not healthy.
    r.net_cash = -60;
    r.net_income = 30;
    assert!(!has_healthy_cash_position(&r));
    r.net_cash = -59;
    assert!(has_healthy_cash_position(&r));
}

#[test]
fn net_margin_optimized_example() {
    let mut r = sample_report(1, 1, Duration::Ttm, 1, 2024);
    // Gross margin 75%, factor 3.0: theoretical net margin 25%.
    r.gross_margin = Some(7500);
    r.net_margin = 5000;
    r.operating_margin = 6000;
    let (theoretical, optimized) = is_net_margin_optimized(&r, 300);
    assert_eq!(theoretical, Some(2500));
    assert!(optimized);
    // Actual net margin below the theoretical one: not optimized.
    r.net_margin = 2000;
    let (_, optimized2) = is_net_margin_optimized(&r, 300);
    assert!(!optimized2);
    // Operating margin must strictly exceed the net margin.
    r.net_margin = 6000;
    let (_, optimized3) = is_net_margin_optimized(&r, 300);
    assert!(!optimized3);
}

#[test]
fn net_margin_default_gross_margin_is_full() {
    let mut r = sample_report(1, 1, Duration::Ttm, 1, 2024);
    r.gross_margin = None;
    // Default gross margin 100%, factor 4.0: theoretical 25%.
    let (theoretical, _) = is_net_margin_optimized(&r, 400);
    assert_eq!(theoretical, Some(2500));
    // A zero factor yields no theoretical margin and never optimizes.
    let (none_theory, optimized) = is_net_margin_optimized(&r, 0);
    assert_eq!(none_theory, None);
    assert!(!optimized);
}

#[test]
fn history_shorter_than_window_is_mixed() {
    let mut short_history = Vec::new();
    for (i, rev) in [1000i64, 2000].iter().enumerate() {
        let mut r = sample_report(i as i32 + 1, 1, Duration::Ttm, 1, 2023 + i as i16);
        r.revenue = *rev;
        short_history.push(r);
    }
    // Two rising values cannot fill a window of three: the short-term label
    // is mixed however low the count threshold, not up.
    assert_eq!(
        get_short_term_trend(&short_history, |r: &EarningsReport| r.revenue, 3, 200, 1),
        Trend::Mixed
    );
    assert_eq!(
        get_short_term_trend_option(
            &short_history,
            |r: &EarningsReport| r.gross_profit,
            3,
            true,
            200,
            1
        ),
        Trend::Mixed
    );
    // The same series fills a window of two and trends up.
    assert_eq!(
        get_short_term_trend(&short_history, |r: &EarningsReport| r.revenue, 2, 200, 1),
        Trend::Up
    );
}

#[test]
fn trend_getters_extract_fields_in_order() {
    let mut history = Vec::new();
    let revenues = [1000i64, 1050, 1100, 1500, 2000];
    for (i, rev) in revenues.iter().enumerate() {
        let mut r = sample_report(i as i32 + 1, 1, Duration::Ttm, 1, 2020 + i as i16);
        r.revenue = *rev;
        r.gross_profit = if i == 2 { None } else { Some(*rev) };
        history.push(r);
    }
    assert_eq!(get_long_term_trend(&history, |r: &EarningsReport| r.revenue, 200), Trend::Up);
    assert_eq!(
        get_short_term_trend(&history, |r: &EarningsReport| r.revenue, 2, 200, 2),
        Trend::Up
    );
    assert_eq!(
        get_long_term_trend_option(
            &history,
            |r: &EarningsReport| r.gross_profit,
            true,
            200
        ),
        Trend::Up
    );
    assert_eq!(
        get_long_term_trend_option(
            &history,
            |r: &EarningsReport| r.gross_profit,
            false,
            200
        ),
        Trend::Mixed
    );
}
