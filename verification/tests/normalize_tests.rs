use bullseye_core::dates::CalendarDate;
use bullseye_core::normalize::BankStatement;
use bullseye_core::normalize::Earnings;
use bullseye_core::normalize::NominalStatement;
use bullseye_core::normalize::OtherStatement;
use bullseye_core::normalize::from_bank;
use bullseye_core::normalize::from_nominal;
use bullseye_core::normalize::from_other;
use bullseye_core::report::Duration;
use bullseye_core::report::EarningsError;
use bullseye_core::report::NewEarningsReport;

fn sample_nominal(fiscal_quarter: &str, period_ending: &str) -> NominalStatement {
    NominalStatement {
        term: Duration::Ttm,
        fiscal_quarter: fiscal_quarter.to_string(),
        period_ending: period_ending.to_string(),
        revenue: 10,
        revenue_growth_yoy: 20,
        cost_of_revenue: 30,
        gross_profit: 40,
        gross_margin: 50,
        sga_expenses: 60,
        rnd_expenses: 70,
        operating_expenses: 80,
        operating_income: 90,
        operating_margin: 100,
        interest_expenses: 110,
        goodwill_impairment: 120,
        net_income: 130,
        net_margin: 140,
        eps_basic: 150,
        eps_diluted: 160,
        shares_outstanding_basic: 170,
        shares_outstanding_diluted: 180,
        shares_change_yoy: 190,
        cash_and_equivalents: 200,
        cash_and_short_term_investments: 210,
        accounts_receivable: 220,
        inventory: 230,
        total_current_assets: 240,
        goodwill: 250,
        total_assets: 260,
        accounts_payable: 270,
        total_current_liabilities: 280,
        total_liabilities: 290,
        retained_earnings: 300,
        shareholders_equity: 310,
        total_debt: 320,
        net_cash: 330,
        depreciation_and_amortization: 340,
        stock_based_compensation: 350,
        operating_cash_flow: 360,
        capital_expenditure: 370,
        investing_cash_flow: 380,
        financing_cash_flow: 390,
        free_cash_flow: 400,
        free_cash_flow_margin: 410,
    }
}

fn sample_bank(fiscal_quarter: &str, period_ending: &str) -> BankStatement {
    BankStatement {
        term: Duration::Ttm,
        fiscal_quarter: fiscal_quarter.to_string(),
        period_ending: period_ending.to_string(),
        net_interest_income: 10,
        provision_for_loan_loss: 20,
        revenue: 30,
        revenue_growth_yoy: 40,
        operating_expenses: 50,
        adjusted_operating_income: 60,
        adjusted_operating_margin: 70,
        goodwill_impairment: 80,
        net_income: 90,
        net_margin: 100,
        eps_basic: 110,
        eps_diluted: 120,
        shares_outstanding_basic: 130,
        shares_outstanding_diluted: 140,
        shares_change_yoy: 150,
        cash_and_equivalents: 160,
        total_investments: 170,
        gross_loans: 180,
        goodwill: 190,
        total_assets: 200,
        total_liabilities: 210,
        retained_earnings: 220,
        shareholders_equity: 230,
        total_debt: 240,
        net_cash: 250,
        depreciation_and_amortization: 260,
        stock_based_compensation: 270,
        operating_cash_flow: 280,
        investing_cash_flow: 290,
        financing_cash_flow: 300,
    }
}

fn sample_other(fiscal_quarter: &str, period_ending: &str) -> OtherStatement {
    OtherStatement {
        term: Duration::Ttm,
        fiscal_quarter: fiscal_quarter.to_string(),
        period_ending: period_ending.to_string(),
        revenue: 7,
        revenue_growth_yoy: 14,
        cost_of_revenue: 21,
        gross_profit: 28,
        sga_expenses: 35,
        rnd_expenses: 42,
        operating_expenses: 49,
        operating_income: 56,
        operating_margin: 63,
        interest_expenses: 70,
        goodwill_impairment: 77,
        net_income: 84,
        net_margin: 91,
        eps_basic: 98,
        eps_diluted: 105,
        shares_outstanding_basic: 112,
        shares_outstanding_diluted: 119,
        shares_change_yoy: 126,
        cash_and_equivalents: 133,
        goodwill: 140,
        total_assets: 147,
        total_liabilities: 154,
        retained_earnings: 161,
        shareholders_equity: 168,
        total_debt: 175,
        net_cash: 182,
        depreciation_and_amortization: 189,
        stock_based_compensation: 196,
        operating_cash_flow: 203,
        investing_cash_flow: 210,
        financing_cash_flow: 217,
        free_cash_flow: 224,
        free_cash_flow_margin: 231,
    }
}
#[test]
fn nominal_statement_maps_to_canonical_record() {
    let st = sample_nominal("2024-Q2", "2024-06-30");
    let rec = from_nominal(7, "USD", &st).unwrap().unwrap();
    assert_eq!(rec.company_id, 7);
    assert_eq!(rec.duration, Duration::Ttm);
    assert_eq!(rec.quarter_str, 2);
    assert_eq!(rec.year_str, 2024);
    assert_eq!(rec.period_ending, CalendarDate { year: 2024, month: 6, day: 30 });
    assert_eq!(rec.currency, "USD");
    assert_eq!(rec.revenue, st.revenue);
    assert_eq!(rec.gross_profit, Some(st.gross_profit));
    assert_eq!(rec.sga_expenses, Some(st.sga_expenses));
    assert_eq!(rec.operating_income, st.operating_income);
    // Fields with no nominal counterpart are absent, not zero.
    assert_eq!(rec.net_interest_income, None);
    assert_eq!(rec.provision_for_loan_loss, None);
    assert_eq!(rec.ffo, None);
    assert_eq!(rec.total_investments, None);
    assert_eq!(rec.gross_loans, None);
    // Derived fields are left for the derivation engine.
    assert_eq!(rec.sga_gp_ratio, None);
    assert_eq!(rec.gross_profit_growth_yoy, None);
    assert!(!rec.ratio_calculated);
    assert!(!rec.growth_calculated);
}

#[test]
fn bank_statement_maps_to_canonical_record() {
    let st = sample_bank("2023-Q4", "2023-12-31");
    let rec = from_bank(9, "EUR", &st).unwrap().unwrap();
    assert_eq!(rec.company_id, 9);
    assert_eq!(rec.net_interest_income, Some(st.net_interest_income));
    assert_eq!(rec.provision_for_loan_loss, Some(st.provision_for_loan_loss));
    assert_eq!(rec.operating_income, st.adjusted_operating_income);
    assert_eq!(rec.operating_margin, st.adjusted_operating_margin);
    // A bank statement has no gross profit, SGA or R&D concepts.
    assert_eq!(rec.cost_of_revenue, None);
    assert_eq!(rec.gross_profit, None);
    assert_eq!(rec.sga_expenses, None);
    assert_eq!(rec.rnd_expenses, None);
    assert_eq!(rec.free_cash_flow, None);
    assert_eq!(rec.total_investments, Some(st.total_investments));
    assert_eq!(rec.gross_loans, Some(st.gross_loans));
}

#[test]
fn malformed_fiscal_string_drops_statement_softly() {
    let st = sample_nominal("junk", "2024-06-30");
    assert!(from_nominal(1, "USD", &st).unwrap().is_none());
}

#[test]
fn malformed_date_is_a_hard_error_for_one_statement() {
    let st = sample_nominal("2024-Q1", "not-a-date");
    assert_eq!(from_nominal(1, "USD", &st).unwrap_err(), EarningsError::MalformedDate);
    let st2 = sample_nominal("2024-Q1", "2024-13-45");
    assert_eq!(from_nominal(1, "USD", &st2).unwrap_err(), EarningsError::MalformedDate);
}

#[test]
fn batch_of_n_with_m_malformed_yields_n_minus_m() {
    let batch = Earnings::Nominal(vec![
        sample_nominal("2024-Q1", "2024-03-31"),
        sample_nominal("bad-fiscal", "2024-06-30"),
        sample_nominal("2024-Q3", "2024-09-30"),
        sample_nominal("also bad", "2024-12-31"),
        sample_nominal("2024-Q4", "2024-12-31"),
    ]);
    let records = NewEarningsReport::create_new_entry(3, "USD", batch);
    assert_eq!(records.len(), 3);
    assert_eq!(records[0].quarter_str, 1);
    assert_eq!(records[1].quarter_str, 3);
    assert_eq!(records[2].quarter_str, 4);
}

#[test]
fn batch_skips_statements_with_malformed_dates() {
    let batch = Earnings::Bank(vec![
        sample_bank("2024-Q1", "2024-03-31"),
        sample_bank("2024-Q2", "never"),
    ]);
    let records = NewEarningsReport::create_new_entry(3, "USD", batch);
    assert_eq!(records.len(), 1);
    assert_eq!(records[0].quarter_str, 1);
}

#[test]
fn empty_batch_yields_no_records() {
    let batch = Earnings::Nominal(Vec::new());
    assert!(NewEarningsReport::create_new_entry(3, "USD", batch).is_empty());
}

#[test]
fn period_ending_date_is_parsed_not_echoed() {
    // The period-ending string must be decoded into its date components.
    let st = sample_nominal("2021-Q2", "2021-05-07");
    let rec = from_nominal(2, "USD", &st).unwrap().unwrap();
    assert_eq!(rec.period_ending, CalendarDate { year: 2021, month: 5, day: 7 });
    let st2 = sample_nominal("2021-Q2", "1999-12-01");
    let rec2 = from_nominal(2, "USD", &st2).unwrap().unwrap();
    assert_eq!(rec2.period_ending, CalendarDate { year: 1999, month: 12, day: 1 });
}

#[test]
fn other_statement_carries_cost_gross_sga_rnd() {
    let st = sample_other("2022-Q3", "2022-09-30");
    let rec = from_other(5, "USD", &st).unwrap().unwrap();
    assert_eq!(rec.company_id, 5);
    assert_eq!(rec.quarter_str, 3);
    assert_eq!(rec.year_str, 2022);
    // The Other variant carries the cost/gross-profit/SGA/R&D concepts.
    assert_eq!(rec.cost_of_revenue, Some(st.cost_of_revenue));
    assert_eq!(rec.gross_profit, Some(st.gross_profit));
    assert_eq!(rec.sga_expenses, Some(st.sga_expenses));
    assert_eq!(rec.rnd_expenses, Some(st.rnd_expenses));
    assert_eq!(rec.free_cash_flow, Some(st.free_cash_flow));
    // It reports no provider gross margin and none of the bank or REIT
    // concepts.
    assert_eq!(rec.gross_margin, None);
    assert_eq!(rec.net_interest_income, None);
    assert_eq!(rec.provision_for_loan_loss, None);
    assert_eq!(rec.ffo, None);
    assert_eq!(rec.capital_expenditure, None);
    assert!(!rec.ratio_calculated);
    assert!(!rec.growth_calculated);
}
