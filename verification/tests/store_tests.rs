use bullseye_core::dates::CalendarDate;
use bullseye_core::report::Duration;
use bullseye_core::report::EarningsError;
use bullseye_core::report::EarningsReport;
use bullseye_core::report::NewEarningsReport;
use bullseye_core::store::EarningsStore;
use bullseye_core::store::insert_earnings_report_batch;

fn sample_entry(company_id: i32, duration: Duration, quarter: i16, year: i16) -> NewEarningsReport {
    NewEarningsReport {
        company_id,
        duration,
        quarter_str: quarter,
        year_str: year,
        period_ending: CalendarDate { year: year as i32, month: 12, day: 31 },
        currency: "USD".to_string(),
        net_interest_income: None,
        net_interest_growth_yoy: None,
        net_interest_margin: None,
        provision_for_loan_loss: None,
        cost_of_risk: None,
        revenue: 1000,
        revenue_growth_yoy: None,
        cost_of_revenue: None,
        gross_profit: None,
        gross_margin: None,
        gross_profit_growth_yoy: None,
        sga_expenses: None,
        sga_gp_ratio: None,
        rnd_expenses: None,
        rnd_gp_ratio: None,
        operating_expenses: 100,
        operating_income: 200,
        operating_margin: 2000,
        interest_expenses: None,
        interest_expenses_op_income_ratio: None,
        goodwill_impairment: 0,
        net_income: 150,
        net_margin: 1500,
        eps_basic: 100,
        eps_diluted: 100,
        shares_outstanding_basic: 500,
        shares_outstanding_diluted: 500,
        shares_change_yoy: 0,
        ffo: None,
        ffo_margin: None,
        cash_and_equivalents: 300,
        cash_and_short_term_investments: None,
        total_investments: None,
        gross_loans: None,
        accounts_receivable: None,
        inventory: None,
        total_current_assets: None,
        goodwill: None,
        total_assets: 5000,
        accounts_payable: None,
        total_current_liabilities: None,
        total_liabilities: 2000,
        retained_earnings: 800,
        shareholders_equity: 3000,
        total_debt: None,
        net_cash: 250,
        depreciation_and_amortization: None,
        stock_based_compensation: None,
        operating_cash_flow: None,
        operating_cash_flow_margin: None,
        capital_expenditure: None,
        investing_cash_flow: None,
        financing_cash_flow: None,
        free_cash_flow: None,
        free_cash_flow_margin: None,
        ratio_calculated: false,
        growth_calculated: false,
    }
}

fn batch_for(company: i32) -> Vec<NewEarningsReport> {
    vec![
        sample_entry(company, Duration::Ttm, 1, 2024),
        sample_entry(company, Duration::Ttm, 2, 2024),
        sample_entry(company, Duration::Annual, 4, 2023),
    ]
}

#[test]
fn inserting_twice_keeps_one_record_per_key() {
    let mut store = EarningsStore::new();
    let first = insert_earnings_report_batch(batch_for(1), &mut store);
    assert!(first);
    assert_eq!(store.len(), 3);
    // The identical batch conflicts on every key: nothing is inserted and the
    // call reports no rows affected.
    let second = insert_earnings_report_batch(batch_for(1), &mut store);
    assert!(!second);
    assert_eq!(store.len(), 3);
}

#[test]
fn conflicting_entries_within_one_batch_are_dropped() {
    let mut store = EarningsStore::new();
    let batch = vec![
        sample_entry(1, Duration::Ttm, 1, 2024),
        sample_entry(1, Duration::Ttm, 1, 2024),
    ];
    assert!(insert_earnings_report_batch(batch, &mut store));
    assert_eq!(store.len(), 1);
}

#[test]
fn partially_conflicting_batch_reports_rows_affected() {
    let mut store = EarningsStore::new();
    assert!(insert_earnings_report_batch(batch_for(1), &mut store));
    let batch = vec![
        sample_entry(1, Duration::Ttm, 1, 2024),
        sample_entry(1, Duration::Ttm, 3, 2024),
    ];
    assert!(insert_earnings_report_batch(batch, &mut store));
    assert_eq!(store.len(), 4);
}

#[test]
fn latest_quarter_data_picks_newest_ttm() {
    let mut store = EarningsStore::new();
    let batch = vec![
        sample_entry(1, Duration::Ttm, 2, 2023),
        sample_entry(1, Duration::Ttm, 3, 2024),
        sample_entry(1, Duration::Ttm, 1, 2024),
        sample_entry(1, Duration::Annual, 4, 2025),
        sample_entry(2, Duration::Ttm, 4, 2030),
    ];
    insert_earnings_report_batch(batch, &mut store);
    let latest = EarningsReport::latest_quarter_data(1, &store).unwrap();
    assert_eq!((latest.year_str, latest.quarter_str), (2024, 3));
    assert_eq!(latest.duration, Duration::Ttm);
    let latest_opt = EarningsReport::latest_quarter_data_if_existed(1, &store).unwrap();
    assert_eq!((latest_opt.year_str, latest_opt.quarter_str), (2024, 3));
}

#[test]
fn latest_lookup_misses_are_distinguishable() {
    let store = EarningsStore::new();
    assert_eq!(
        EarningsReport::latest_quarter_data(1, &store).unwrap_err(),
        EarningsError::NotFound
    );
    assert!(EarningsReport::latest_quarter_data_if_existed(1, &store).is_none());
    assert_eq!(
        EarningsReport::latest_annual_data(1, &store).unwrap_err(),
        EarningsError::NotFound
    );
}

#[test]
fn latest_annual_data_orders_by_year() {
    let mut store = EarningsStore::new();
    let batch = vec![
        sample_entry(1, Duration::Annual, 4, 2022),
        sample_entry(1, Duration::Annual, 4, 2024),
        sample_entry(1, Duration::Ttm, 1, 2030),
        sample_entry(1, Duration::Annual, 4, 2023),
    ];
    insert_earnings_report_batch(batch, &mut store);
    let latest = EarningsReport::latest_annual_data(1, &store).unwrap();
    assert_eq!(latest.year_str, 2024);
    assert_eq!(latest.duration, Duration::Annual);
}

#[test]
fn same_quarter_prev_year_finds_exact_key() {
    let mut store = EarningsStore::new();
    let batch = vec![
        sample_entry(1, Duration::Ttm, 2, 2023),
        sample_entry(1, Duration::Ttm, 2, 2024),
        sample_entry(1, Duration::Ttm, 1, 2023),
    ];
    insert_earnings_report_batch(batch, &mut store);
    let current = EarningsReport::latest_quarter_data(1, &store).unwrap();
    assert_eq!((current.year_str, current.quarter_str), (2024, 2));
    let prev = current.same_quarter_prev_year_data(&store).unwrap();
    assert_eq!((prev.year_str, prev.quarter_str), (2023, 2));
    assert_eq!(prev.duration, Duration::Ttm);
    // No record two years back from the prior one.
    assert!(prev.same_quarter_prev_year_data(&store).is_none());
}

#[test]
fn load_by_company_orders_year_then_quarter_descending() {
    let mut store = EarningsStore::new();
    let batch = vec![
        sample_entry(1, Duration::Ttm, 1, 2023),
        sample_entry(1, Duration::Ttm, 3, 2024),
        sample_entry(2, Duration::Ttm, 4, 2030),
        sample_entry(1, Duration::Annual, 4, 2023),
        sample_entry(1, Duration::Ttm, 1, 2024),
    ];
    insert_earnings_report_batch(batch, &mut store);
    let rows = bullseye_core::store::load_by_company(1, &store);
    let listed: Vec<(i16, i16)> = rows.iter().map(|r| (r.year_str, r.quarter_str)).collect();
    assert_eq!(listed, vec![(2024, 3), (2024, 1), (2023, 4), (2023, 1)]);
}

#[test]
fn load_by_company_of_unknown_company_is_empty() {
    let mut store = EarningsStore::new();
    insert_earnings_report_batch(batch_for(1), &mut store);
    assert!(bullseye_core::store::load_by_company(99, &store).is_empty());
}
