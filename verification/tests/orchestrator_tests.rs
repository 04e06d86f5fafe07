use bullseye_core::dates::CalendarDate;
use bullseye_core::orchestrator::RefreshAction;
use bullseye_core::orchestrator::decide_refresh;
use bullseye_core::orchestrator::decide_refresh_for;
use bullseye_core::report::Duration;
use bullseye_core::report::NewEarningsReport;
use bullseye_core::store::EarningsStore;
use bullseye_core::store::insert_earnings_report_batch;

fn sample_entry(company_id: i32, duration: Duration, quarter: i16, year: i16) -> NewEarningsReport {
    NewEarningsReport {
        company_id,
        duration,
        quarter_str: quarter,
        year_str: year,
        period_ending: CalendarDate { year: year as i32, month: 12, day: 31 },
        currency: "USD".to_string(),
        net_interest_income: None,
        net_interest_growth_yoy: None,
        net_interest_margin: None,
        provision_for_loan_loss: None,
        cost_of_risk: None,
        revenue: 1000,
        revenue_growth_yoy: None,
        cost_of_revenue: None,
        gross_profit: None,
        gross_margin: None,
        gross_profit_growth_yoy: None,
        sga_expenses: None,
        sga_gp_ratio: None,
        rnd_expenses: None,
        rnd_gp_ratio: None,
        operating_expenses: 100,
        operating_income: 200,
        operating_margin: 2000,
        interest_expenses: None,
        interest_expenses_op_income_ratio: None,
        goodwill_impairment: 0,
        net_income: 150,
        net_margin: 1500,
        eps_basic: 100,
        eps_diluted: 100,
        shares_outstanding_basic: 500,
        shares_outstanding_diluted: 500,
        shares_change_yoy: 0,
        ffo: None,
        ffo_margin: None,
        cash_and_equivalents: 300,
        cash_and_short_term_investments: None,
        total_investments: None,
        gross_loans: None,
        accounts_receivable: None,
        inventory: None,
        total_current_assets: None,
        goodwill: None,
        total_assets: 5000,
        accounts_payable: None,
        total_current_liabilities: None,
        total_liabilities: 2000,
        retained_earnings: 800,
        shareholders_equity: 3000,
        total_debt: None,
        net_cash: 250,
        depreciation_and_amortization: None,
        stock_based_compensation: None,
        operating_cash_flow: None,
        operating_cash_flow_margin: None,
        capital_expenditure: None,
        investing_cash_flow: None,
        financing_cash_flow: None,
        free_cash_flow: None,
        free_cash_flow_margin: None,
        ratio_calculated: false,
        growth_calculated: false,
    }
}
#[test]
fn no_ttm_record_forces_full_backfill() {
    // Even with a regular update also due, the earnings path wins and a
    // missing record selects the full backfill, never the incremental path.
    assert_eq!(decide_refresh(true, true, None), RefreshAction::FullBackfill);
    assert_eq!(decide_refresh(true, false, None), RefreshAction::FullBackfill);
}

#[test]
fn third_quarter_record_forces_full_backfill() {
    assert_eq!(decide_refresh(true, false, Some(3)), RefreshAction::FullBackfill);
    assert_eq!(decide_refresh(true, true, Some(3)), RefreshAction::FullBackfill);
}

#[test]
fn other_quarters_take_incremental_path() {
    assert_eq!(decide_refresh(true, false, Some(1)), RefreshAction::IncrementalTtm);
    assert_eq!(decide_refresh(true, true, Some(2)), RefreshAction::IncrementalTtm);
    assert_eq!(decide_refresh(true, false, Some(4)), RefreshAction::IncrementalTtm);
}

#[test]
fn regular_update_runs_only_without_earnings_update() {
    assert_eq!(decide_refresh(false, true, None), RefreshAction::RegularUpdate);
    assert_eq!(decide_refresh(false, true, Some(3)), RefreshAction::RegularUpdate);
}

#[test]
fn no_update_due_recomputes_annual_metrics_only() {
    assert_eq!(decide_refresh(false, false, None), RefreshAction::RecomputeAnnualOnly);
    assert_eq!(decide_refresh(false, false, Some(2)), RefreshAction::RecomputeAnnualOnly);
}

#[test]
fn decide_refresh_for_reads_latest_ttm_quarter() {
    let mut store = EarningsStore::new();
    // No record yet: full backfill.
    assert_eq!(decide_refresh_for(&store, 1, true, true), RefreshAction::FullBackfill);
    let batch = vec![
        sample_entry(1, Duration::Ttm, 1, 2024),
        sample_entry(1, Duration::Ttm, 2, 2024),
    ];
    insert_earnings_report_batch(batch, &mut store);
    // Latest quarter is 2: incremental.
    assert_eq!(decide_refresh_for(&store, 1, true, false), RefreshAction::IncrementalTtm);
    // A third-quarter record arrives: the next earnings update backfills.
    insert_earnings_report_batch(vec![sample_entry(1, Duration::Ttm, 3, 2024)], &mut store);
    assert_eq!(decide_refresh_for(&store, 1, true, false), RefreshAction::FullBackfill);
    // No earnings update due: the quarter no longer matters.
    assert_eq!(decide_refresh_for(&store, 1, false, true), RefreshAction::RegularUpdate);
    assert_eq!(decide_refresh_for(&store, 1, false, false), RefreshAction::RecomputeAnnualOnly);
}
