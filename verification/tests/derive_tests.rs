use bullseye_core::dates::CalendarDate;
use bullseye_core::report::Duration;
use bullseye_core::report::EarningsReport;
use bullseye_core::report::NewEarningsReport;
use bullseye_core::store::EarningsStore;
use bullseye_core::store::insert_earnings_report_batch;

fn sample_entry(company_id: i32, duration: Duration, quarter: i16, year: i16) -> NewEarningsReport {
    NewEarningsReport {
        company_id,
        duration,
        quarter_str: quarter,
        year_str: year,
        period_ending: CalendarDate { year: year as i32, month: 12, day: 31 },
        currency: "USD".to_string(),
        net_interest_income: None,
        net_interest_growth_yoy: None,
        net_interest_margin: None,
        provision_for_loan_loss: None,
        cost_of_risk: None,
        revenue: 1000,
        revenue_growth_yoy: None,
        cost_of_revenue: None,
        gross_profit: None,
        gross_margin: None,
        gross_profit_growth_yoy: None,
        sga_expenses: None,
        sga_gp_ratio: None,
        rnd_expenses: None,
        rnd_gp_ratio: None,
        operating_expenses: 100,
        operating_income: 200,
        operating_margin: 2000,
        interest_expenses: None,
        interest_expenses_op_income_ratio: None,
        goodwill_impairment: 0,
        net_income: 150,
        net_margin: 1500,
        eps_basic: 100,
        eps_diluted: 100,
        shares_outstanding_basic: 500,
        shares_outstanding_diluted: 500,
        shares_change_yoy: 0,
        ffo: None,
        ffo_margin: None,
        cash_and_equivalents: 300,
        cash_and_short_term_investments: None,
        total_investments: None,
        gross_loans: None,
        accounts_receivable: None,
        inventory: None,
        total_current_assets: None,
        goodwill: None,
        total_assets: 5000,
        accounts_payable: None,
        total_current_liabilities: None,
        total_liabilities: 2000,
        retained_earnings: 800,
        shareholders_equity: 3000,
        total_debt: None,
        net_cash: 250,
        depreciation_and_amortization: None,
        stock_based_compensation: None,
        operating_cash_flow: None,
        operating_cash_flow_margin: None,
        capital_expenditure: None,
        investing_cash_flow: None,
        financing_cash_flow: None,
        free_cash_flow: None,
        free_cash_flow_margin: None,
        ratio_calculated: false,
        growth_calculated: false,
    }
}
fn rich_entry(company: i32, quarter: i16, year: i16) -> NewEarningsReport {
    let mut e = sample_entry(company, Duration::Ttm, quarter, year);
    e.revenue = 1000;
    e.operating_income = 200;
    e.net_income = 150;
    e.net_interest_income = Some(90);
    e.total_investments = Some(400);
    e.gross_loans = Some(500);
    e.provision_for_loan_loss = Some(45);
    e.sga_expenses = Some(30);
    e.rnd_expenses = Some(20);
    e.gross_profit = Some(600);
    e.interest_expenses = Some(50);
    e.ffo = Some(120);
    e.operating_cash_flow = Some(250);
    e
}

fn observable(r: &EarningsReport) -> Vec<Option<i64>> {
    vec![
        r.net_interest_margin,
        r.cost_of_risk,
        r.sga_gp_ratio,
        r.rnd_gp_ratio,
        r.interest_expenses_op_income_ratio,
        Some(r.operating_margin),
        Some(r.net_margin),
        r.ffo_margin,
        r.operating_cash_flow_margin,
        r.net_interest_growth_yoy,
        r.gross_profit_growth_yoy,
    ]
}

#[test]
fn update_ratios_populates_derived_fields() {
    let mut store = EarningsStore::new();
    insert_earnings_report_batch(vec![rich_entry(1, 2, 2024)], &mut store);
    let rec = EarningsReport::latest_quarter_data(1, &store).unwrap();
    assert!(!rec.ratio_calculated);
    assert!(rec.update_ratios(&mut store));
    let after = EarningsReport::latest_quarter_data(1, &store).unwrap();
    // Net interest margin: 90 / (400 + 500) = 10.00%.
    assert_eq!(after.net_interest_margin, Some(1000));
    // Cost of risk: 45 / 500 = 9.00%.
    assert_eq!(after.cost_of_risk, Some(900));
    // SGA over gross profit: 30 / 600 = 0.05.
    assert_eq!(after.sga_gp_ratio, Some(5));
    // R&D over gross profit: 20 / 600 = 0.0333... -> 0.03.
    assert_eq!(after.rnd_gp_ratio, Some(3));
    // Interest expenses over operating income: 50 / 200 = 0.25.
    assert_eq!(after.interest_expenses_op_income_ratio, Some(25));
    // Operating margin: 200 / 1000 = 20.00%.
    assert_eq!(after.operating_margin, 2000);
    // Net margin: 150 / 1000 = 15.00%.
    assert_eq!(after.net_margin, 1500);
    // FFO margin: 120 / 1000 = 12.00%.
    assert_eq!(after.ffo_margin, Some(1200));
    // Operating-cash-flow margin: 250 / 1000 = 25.00%.
    assert_eq!(after.operating_cash_flow_margin, Some(2500));
    assert!(after.ratio_calculated);
}

#[test]
fn recompute_twice_is_bit_identical() {
    let mut store = EarningsStore::new();
    insert_earnings_report_batch(
        vec![rich_entry(1, 2, 2023), rich_entry(1, 2, 2024)],
        &mut store,
    );
    let rec = EarningsReport::latest_quarter_data(1, &store).unwrap();
    assert!(rec.update_ratios(&mut store));
    assert!(rec.update_yoy_growth(&mut store));
    let once = EarningsReport::latest_quarter_data(1, &store).unwrap();
    assert!(once.ratio_calculated && once.growth_calculated);
    // Recompute from the stored (already derived) record: nothing may change.
    assert!(once.update_ratios(&mut store));
    assert!(once.update_yoy_growth(&mut store));
    let twice = EarningsReport::latest_quarter_data(1, &store).unwrap();
    assert_eq!(observable(&once), observable(&twice));
    assert!(twice.ratio_calculated && twice.growth_calculated);
    assert_eq!(store.len(), 2);
}

#[test]
fn growth_uses_same_quarter_prior_year() {
    let mut store = EarningsStore::new();
    let mut prior = rich_entry(1, 2, 2023);
    prior.gross_profit = Some(500);
    prior.net_interest_income = Some(60);
    let current = rich_entry(1, 2, 2024);
    insert_earnings_report_batch(vec![prior, current], &mut store);
    let rec = EarningsReport::latest_quarter_data(1, &store).unwrap();
    assert_eq!((rec.year_str, rec.quarter_str), (2024, 2));
    assert!(rec.update_yoy_growth(&mut store));
    let after = EarningsReport::latest_quarter_data(1, &store).unwrap();
    // Gross profit: 500 -> 600 is +20.00%.
    assert_eq!(after.gross_profit_growth_yoy, Some(2000));
    // Net interest income: 60 -> 90 is +50.00%.
    assert_eq!(after.net_interest_growth_yoy, Some(5000));
    assert!(after.growth_calculated);
}

#[test]
fn growth_fields_absent_without_prior_year_record() {
    let mut store = EarningsStore::new();
    insert_earnings_report_batch(vec![rich_entry(1, 2, 2024)], &mut store);
    let rec = EarningsReport::latest_quarter_data(1, &store).unwrap();
    assert!(rec.update_yoy_growth(&mut store));
    let after = EarningsReport::latest_quarter_data(1, &store).unwrap();
    assert_eq!(after.gross_profit_growth_yoy, None);
    assert_eq!(after.net_interest_growth_yoy, None);
    assert!(after.growth_calculated);
}

#[test]
fn update_on_missing_row_changes_nothing() {
    let mut store = EarningsStore::new();
    insert_earnings_report_batch(vec![rich_entry(1, 2, 2024)], &mut store);
    let mut stray_rec = EarningsReport::latest_quarter_data(1, &store).unwrap();
    stray_rec.id = 42;
    assert!(!stray_rec.update_ratios(&mut store));
    assert!(!stray_rec.update_yoy_growth(&mut store));
    let after = EarningsReport::latest_quarter_data(1, &store).unwrap();
    assert!(!after.ratio_calculated);
    assert!(!after.growth_calculated);
}

#[test]
fn zero_revenue_leaves_mandatory_margins_unchanged() {
    let mut store = EarningsStore::new();
    let mut e = rich_entry(1, 2, 2024);
    e.revenue = 0;
    e.operating_margin = 1234;
    e.net_margin = 567;
    insert_earnings_report_batch(vec![e], &mut store);
    let rec = EarningsReport::latest_quarter_data(1, &store).unwrap();
    assert!(rec.update_ratios(&mut store));
    let after = EarningsReport::latest_quarter_data(1, &store).unwrap();
    // Division by zero revenue: the optional margins resolve to absent and
    // the mandatory margins keep their prior values.
    assert_eq!(after.operating_margin, 1234);
    assert_eq!(after.net_margin, 567);
    assert_eq!(after.ffo_margin, None);
    assert_eq!(after.operating_cash_flow_margin, None);
    assert!(after.ratio_calculated);
}
