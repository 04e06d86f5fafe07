//! The canonical earnings record: one company-period financial statement in
//! the unified schema every statement variant is normalized into.
//!
//! Monetary amounts are fixed-point `i64` values; derived ratios, margins and
//! growth rates are `i64` values scaled by 100 (two decimal places). A field
//! that does not apply to a statement type is absent, never zero. The
//! `ratio_calculated` / `growth_calculated` flags record whether the metrics
//! derivation engine has populated the dependent derived fields.
use vstd::prelude::*;
use crate::dates::CalendarDate;

verus! {

/// An error of the core: a malformed period-ending date string, or a store
/// lookup that found no record where one was required.
#[derive(Clone, Copy, PartialEq, Eq, Structural, Debug)]
pub enum EarningsError {
    MalformedDate,
    NotFound,
}

/// The duration tag of a record: a trailing-twelve-month/quarterly statement
/// or an annual one.
#[derive(Clone, Copy, PartialEq, Eq, Structural, Debug, Hash)]
pub enum Duration {
    Ttm,
    Annual,
}

/// A stored canonical earnings record, uniquely identified by
/// (company_id, duration, quarter_str, year_str).
#[derive(Debug)]
pub struct EarningsReport {
    pub id: i32,

    pub company_id: i32,
    pub duration: Duration,
    pub quarter_str: i16,
    pub year_str: i16,
    pub period_ending: CalendarDate,
    pub currency: String,
    pub net_interest_income: Option<i64>,
    pub net_interest_growth_yoy: Option<i64>,
    pub net_interest_margin: Option<i64>,
    pub provision_for_loan_loss: Option<i64>,
    pub cost_of_risk: Option<i64>,
    pub revenue: i64,
    pub revenue_growth_yoy: Option<i64>,
    pub cost_of_revenue: Option<i64>,
    pub gross_profit: Option<i64>,
    pub gross_margin: Option<i64>,
    pub gross_profit_growth_yoy: Option<i64>,
    pub sga_expenses: Option<i64>,
    pub sga_gp_ratio: Option<i64>,
    pub rnd_expenses: Option<i64>,
    pub rnd_gp_ratio: Option<i64>,
    pub operating_expenses: i64,
    pub operating_income: i64,
    pub operating_margin: i64,
    pub interest_expenses: Option<i64>,
    pub interest_expenses_op_income_ratio: Option<i64>,
    pub goodwill_impairment: i64,
    pub net_income: i64,
    pub net_margin: i64,
    pub eps_basic: i64,
    pub eps_diluted: i64,
    pub shares_outstanding_basic: i64,
    pub shares_outstanding_diluted: i64,
    pub shares_change_yoy: i64,
    pub ffo: Option<i64>,
    pub ffo_margin: Option<i64>,
    pub cash_and_equivalents: i64,
    pub cash_and_short_term_investments: Option<i64>,
    pub total_investments: Option<i64>,
    pub gross_loans: Option<i64>,
    pub accounts_receivable: Option<i64>,
    pub inventory: Option<i64>,
    pub total_current_assets: Option<i64>,
    pub goodwill: Option<i64>,
    pub total_assets: i64,
    pub accounts_payable: Option<i64>,
    pub total_current_liabilities: Option<i64>,
    pub total_liabilities: i64,
    pub retained_earnings: i64,
    pub shareholders_equity: i64,
    pub total_debt: Option<i64>,
    pub net_cash: i64,
    pub depreciation_and_amortization: Option<i64>,
    pub stock_based_compensation: Option<i64>,
    pub operating_cash_flow: Option<i64>,
    pub operating_cash_flow_margin: Option<i64>,
    pub capital_expenditure: Option<i64>,
    pub investing_cash_flow: Option<i64>,
    pub financing_cash_flow: Option<i64>,
    pub free_cash_flow: Option<i64>,
    pub free_cash_flow_margin: Option<i64>,
    pub ratio_calculated: bool,
    pub growth_calculated: bool,
}

/// A canonical earnings record produced by normalization, not yet stored and
/// so not yet carrying a store id.
#[derive(Debug)]
pub struct NewEarningsReport {

    pub company_id: i32,
    pub duration: Duration,
    pub quarter_str: i16,
    pub year_str: i16,
    pub period_ending: CalendarDate,
    pub currency: String,
    pub net_interest_income: Option<i64>,
    pub net_interest_growth_yoy: Option<i64>,
    pub net_interest_margin: Option<i64>,
    pub provision_for_loan_loss: Option<i64>,
    pub cost_of_risk: Option<i64>,
    pub revenue: i64,
    pub revenue_growth_yoy: Option<i64>,
    pub cost_of_revenue: Option<i64>,
    pub gross_profit: Option<i64>,
    pub gross_margin: Option<i64>,
    pub gross_profit_growth_yoy: Option<i64>,
    pub sga_expenses: Option<i64>,
    pub sga_gp_ratio: Option<i64>,
    pub rnd_expenses: Option<i64>,
    pub rnd_gp_ratio: Option<i64>,
    pub operating_expenses: i64,
    pub operating_income: i64,
    pub operating_margin: i64,
    pub interest_expenses: Option<i64>,
    pub interest_expenses_op_income_ratio: Option<i64>,
    pub goodwill_impairment: i64,
    pub net_income: i64,
    pub net_margin: i64,
    pub eps_basic: i64,
    pub eps_diluted: i64,
    pub shares_outstanding_basic: i64,
    pub shares_outstanding_diluted: i64,
    pub shares_change_yoy: i64,
    pub ffo: Option<i64>,
    pub ffo_margin: Option<i64>,
    pub cash_and_equivalents: i64,
    pub cash_and_short_term_investments: Option<i64>,
    pub total_investments: Option<i64>,
    pub gross_loans: Option<i64>,
    pub accounts_receivable: Option<i64>,
    pub inventory: Option<i64>,
    pub total_current_assets: Option<i64>,
    pub goodwill: Option<i64>,
    pub total_assets: i64,
    pub accounts_payable: Option<i64>,
    pub total_current_liabilities: Option<i64>,
    pub total_liabilities: i64,
    pub retained_earnings: i64,
    pub shareholders_equity: i64,
    pub total_debt: Option<i64>,
    pub net_cash: i64,
    pub depreciation_and_amortization: Option<i64>,
    pub stock_based_compensation: Option<i64>,
    pub operating_cash_flow: Option<i64>,
    pub operating_cash_flow_margin: Option<i64>,
    pub capital_expenditure: Option<i64>,
    pub investing_cash_flow: Option<i64>,
    pub financing_cash_flow: Option<i64>,
    pub free_cash_flow: Option<i64>,
    pub free_cash_flow_margin: Option<i64>,
    pub ratio_calculated: bool,
    pub growth_calculated: bool,
}

/// Two stored records agree on every field (the currency code character for
/// character).
pub open spec fn equiv(a: EarningsReport, b: EarningsReport) -> bool {
    &&& a.id == b.id

    &&& a.company_id == b.company_id
    &&& a.duration == b.duration
    &&& a.quarter_str == b.quarter_str
    &&& a.year_str == b.year_str
    &&& a.period_ending == b.period_ending
    &&& a.currency@ == b.currency@
    &&& a.net_interest_income == b.net_interest_income
    &&& a.net_interest_growth_yoy == b.net_interest_growth_yoy
    &&& a.net_interest_margin == b.net_interest_margin
    &&& a.provision_for_loan_loss == b.provision_for_loan_loss
    &&& a.cost_of_risk == b.cost_of_risk
    &&& a.revenue == b.revenue
    &&& a.revenue_growth_yoy == b.revenue_growth_yoy
    &&& a.cost_of_revenue == b.cost_of_revenue
    &&& a.gross_profit == b.gross_profit
    &&& a.gross_margin == b.gross_margin
    &&& a.gross_profit_growth_yoy == b.gross_profit_growth_yoy
    &&& a.sga_expenses == b.sga_expenses
    &&& a.sga_gp_ratio == b.sga_gp_ratio
    &&& a.rnd_expenses == b.rnd_expenses
    &&& a.rnd_gp_ratio == b.rnd_gp_ratio
    &&& a.operating_expenses == b.operating_expenses
    &&& a.operating_income == b.operating_income
    &&& a.operating_margin == b.operating_margin
    &&& a.interest_expenses == b.interest_expenses
    &&& a.interest_expenses_op_income_ratio == b.interest_expenses_op_income_ratio
    &&& a.goodwill_impairment == b.goodwill_impairment
    &&& a.net_income == b.net_income
    &&& a.net_margin == b.net_margin
    &&& a.eps_basic == b.eps_basic
    &&& a.eps_diluted == b.eps_diluted
    &&& a.shares_outstanding_basic == b.shares_outstanding_basic
    &&& a.shares_outstanding_diluted == b.shares_outstanding_diluted
    &&& a.shares_change_yoy == b.shares_change_yoy
    &&& a.ffo == b.ffo
    &&& a.ffo_margin == b.ffo_margin
    &&& a.cash_and_equivalents == b.cash_and_equivalents
    &&& a.cash_and_short_term_investments == b.cash_and_short_term_investments
    &&& a.total_investments == b.total_investments
    &&& a.gross_loans == b.gross_loans
    &&& a.accounts_receivable == b.accounts_receivable
    &&& a.inventory == b.inventory
    &&& a.total_current_assets == b.total_current_assets
    &&& a.goodwill == b.goodwill
    &&& a.total_assets == b.total_assets
    &&& a.accounts_payable == b.accounts_payable
    &&& a.total_current_liabilities == b.total_current_liabilities
    &&& a.total_liabilities == b.total_liabilities
    &&& a.retained_earnings == b.retained_earnings
    &&& a.shareholders_equity == b.shareholders_equity
    &&& a.total_debt == b.total_debt
    &&& a.net_cash == b.net_cash
    &&& a.depreciation_and_amortization == b.depreciation_and_amortization
    &&& a.stock_based_compensation == b.stock_based_compensation
    &&& a.operating_cash_flow == b.operating_cash_flow
    &&& a.operating_cash_flow_margin == b.operating_cash_flow_margin
    &&& a.capital_expenditure == b.capital_expenditure
    &&& a.investing_cash_flow == b.investing_cash_flow
    &&& a.financing_cash_flow == b.financing_cash_flow
    &&& a.free_cash_flow == b.free_cash_flow
    &&& a.free_cash_flow_margin == b.free_cash_flow_margin
    &&& a.ratio_calculated == b.ratio_calculated
    &&& a.growth_calculated == b.growth_calculated
}

impl Clone for EarningsReport {
    /// Cloning a record preserves every field.
    fn clone(&self) -> (r: Self)
        ensures
            equiv(r, *self),
    {
        EarningsReport {
            id: self.id,

            company_id: self.company_id,
            duration: self.duration,
            quarter_str: self.quarter_str,
            year_str: self.year_str,
            period_ending: self.period_ending,
            currency: self.currency.clone(),
            net_interest_income: self.net_interest_income,
            net_interest_growth_yoy: self.net_interest_growth_yoy,
            net_interest_margin: self.net_interest_margin,
            provision_for_loan_loss: self.provision_for_loan_loss,
            cost_of_risk: self.cost_of_risk,
            revenue: self.revenue,
            revenue_growth_yoy: self.revenue_growth_yoy,
            cost_of_revenue: self.cost_of_revenue,
            gross_profit: self.gross_profit,
            gross_margin: self.gross_margin,
            gross_profit_growth_yoy: self.gross_profit_growth_yoy,
            sga_expenses: self.sga_expenses,
            sga_gp_ratio: self.sga_gp_ratio,
            rnd_expenses: self.rnd_expenses,
            rnd_gp_ratio: self.rnd_gp_ratio,
            operating_expenses: self.operating_expenses,
            operating_income: self.operating_income,
            operating_margin: self.operating_margin,
            interest_expenses: self.interest_expenses,
            interest_expenses_op_income_ratio: self.interest_expenses_op_income_ratio,
            goodwill_impairment: self.goodwill_impairment,
            net_income: self.net_income,
            net_margin: self.net_margin,
            eps_basic: self.eps_basic,
            eps_diluted: self.eps_diluted,
            shares_outstanding_basic: self.shares_outstanding_basic,
            shares_outstanding_diluted: self.shares_outstanding_diluted,
            shares_change_yoy: self.shares_change_yoy,
            ffo: self.ffo,
            ffo_margin: self.ffo_margin,
            cash_and_equivalents: self.cash_and_equivalents,
            cash_and_short_term_investments: self.cash_and_short_term_investments,
            total_investments: self.total_investments,
            gross_loans: self.gross_loans,
            accounts_receivable: self.accounts_receivable,
            inventory: self.inventory,
            total_current_assets: self.total_current_assets,
            goodwill: self.goodwill,
            total_assets: self.total_assets,
            accounts_payable: self.accounts_payable,
            total_current_liabilities: self.total_current_liabilities,
            total_liabilities: self.total_liabilities,
            retained_earnings: self.retained_earnings,
            shareholders_equity: self.shareholders_equity,
            total_debt: self.total_debt,
            net_cash: self.net_cash,
            depreciation_and_amortization: self.depreciation_and_amortization,
            stock_based_compensation: self.stock_based_compensation,
            operating_cash_flow: self.operating_cash_flow,
            operating_cash_flow_margin: self.operating_cash_flow_margin,
            capital_expenditure: self.capital_expenditure,
            investing_cash_flow: self.investing_cash_flow,
            financing_cash_flow: self.financing_cash_flow,
            free_cash_flow: self.free_cash_flow,
            free_cash_flow_margin: self.free_cash_flow_margin,
            ratio_calculated: self.ratio_calculated,
            growth_calculated: self.growth_calculated,
        }
    }
}

/// Two unstored records agree on every field.
pub open spec fn new_equiv(a: NewEarningsReport, b: NewEarningsReport) -> bool {

    &&& a.company_id == b.company_id
    &&& a.duration == b.duration
    &&& a.quarter_str == b.quarter_str
    &&& a.year_str == b.year_str
    &&& a.period_ending == b.period_ending
    &&& a.currency@ == b.currency@
    &&& a.net_interest_income == b.net_interest_income
    &&& a.net_interest_growth_yoy == b.net_interest_growth_yoy
    &&& a.net_interest_margin == b.net_interest_margin
    &&& a.provision_for_loan_loss == b.provision_for_loan_loss
    &&& a.cost_of_risk == b.cost_of_risk
    &&& a.revenue == b.revenue
    &&& a.revenue_growth_yoy == b.revenue_growth_yoy
    &&& a.cost_of_revenue == b.cost_of_revenue
    &&& a.gross_profit == b.gross_profit
    &&& a.gross_margin == b.gross_margin
    &&& a.gross_profit_growth_yoy == b.gross_profit_growth_yoy
    &&& a.sga_expenses == b.sga_expenses
    &&& a.sga_gp_ratio == b.sga_gp_ratio
    &&& a.rnd_expenses == b.rnd_expenses
    &&& a.rnd_gp_ratio == b.rnd_gp_ratio
    &&& a.operating_expenses == b.operating_expenses
    &&& a.operating_income == b.operating_income
    &&& a.operating_margin == b.operating_margin
    &&& a.interest_expenses == b.interest_expenses
    &&& a.interest_expenses_op_income_ratio == b.interest_expenses_op_income_ratio
    &&& a.goodwill_impairment == b.goodwill_impairment
    &&& a.net_income == b.net_income
    &&& a.net_margin == b.net_margin
    &&& a.eps_basic == b.eps_basic
    &&& a.eps_diluted == b.eps_diluted
    &&& a.shares_outstanding_basic == b.shares_outstanding_basic
    &&& a.shares_outstanding_diluted == b.shares_outstanding_diluted
    &&& a.shares_change_yoy == b.shares_change_yoy
    &&& a.ffo == b.ffo
    &&& a.ffo_margin == b.ffo_margin
    &&& a.cash_and_equivalents == b.cash_and_equivalents
    &&& a.cash_and_short_term_investments == b.cash_and_short_term_investments
    &&& a.total_investments == b.total_investments
    &&& a.gross_loans == b.gross_loans
    &&& a.accounts_receivable == b.accounts_receivable
    &&& a.inventory == b.inventory
    &&& a.total_current_assets == b.total_current_assets
    &&& a.goodwill == b.goodwill
    &&& a.total_assets == b.total_assets
    &&& a.accounts_payable == b.accounts_payable
    &&& a.total_current_liabilities == b.total_current_liabilities
    &&& a.total_liabilities == b.total_liabilities
    &&& a.retained_earnings == b.retained_earnings
    &&& a.shareholders_equity == b.shareholders_equity
    &&& a.total_debt == b.total_debt
    &&& a.net_cash == b.net_cash
    &&& a.depreciation_and_amortization == b.depreciation_and_amortization
    &&& a.stock_based_compensation == b.stock_based_compensation
    &&& a.operating_cash_flow == b.operating_cash_flow
    &&& a.operating_cash_flow_margin == b.operating_cash_flow_margin
    &&& a.capital_expenditure == b.capital_expenditure
    &&& a.investing_cash_flow == b.investing_cash_flow
    &&& a.financing_cash_flow == b.financing_cash_flow
    &&& a.free_cash_flow == b.free_cash_flow
    &&& a.free_cash_flow_margin == b.free_cash_flow_margin
    &&& a.ratio_calculated == b.ratio_calculated
    &&& a.growth_calculated == b.growth_calculated
}

impl Clone for NewEarningsReport {
    /// Cloning an unstored record preserves every field.
    fn clone(&self) -> (r: Self)
        ensures
            new_equiv(r, *self),
    {
        NewEarningsReport {

            company_id: self.company_id,
            duration: self.duration,
            quarter_str: self.quarter_str,
            year_str: self.year_str,
            period_ending: self.period_ending,
            currency: self.currency.clone(),
            net_interest_income: self.net_interest_income,
            net_interest_growth_yoy: self.net_interest_growth_yoy,
            net_interest_margin: self.net_interest_margin,
            provision_for_loan_loss: self.provision_for_loan_loss,
            cost_of_risk: self.cost_of_risk,
            revenue: self.revenue,
            revenue_growth_yoy: self.revenue_growth_yoy,
            cost_of_revenue: self.cost_of_revenue,
            gross_profit: self.gross_profit,
            gross_margin: self.gross_margin,
            gross_profit_growth_yoy: self.gross_profit_growth_yoy,
            sga_expenses: self.sga_expenses,
            sga_gp_ratio: self.sga_gp_ratio,
            rnd_expenses: self.rnd_expenses,
            rnd_gp_ratio: self.rnd_gp_ratio,
            operating_expenses: self.operating_expenses,
            operating_income: self.operating_income,
            operating_margin: self.operating_margin,
            interest_expenses: self.interest_expenses,
            interest_expenses_op_income_ratio: self.interest_expenses_op_income_ratio,
            goodwill_impairment: self.goodwill_impairment,
            net_income: self.net_income,
            net_margin: self.net_margin,
            eps_basic: self.eps_basic,
            eps_diluted: self.eps_diluted,
            shares_outstanding_basic: self.shares_outstanding_basic,
            shares_outstanding_diluted: self.shares_outstanding_diluted,
            shares_change_yoy: self.shares_change_yoy,
            ffo: self.ffo,
            ffo_margin: self.ffo_margin,
            cash_and_equivalents: self.cash_and_equivalents,
            cash_and_short_term_investments: self.cash_and_short_term_investments,
            total_investments: self.total_investments,
            gross_loans: self.gross_loans,
            accounts_receivable: self.accounts_receivable,
            inventory: self.inventory,
            total_current_assets: self.total_current_assets,
            goodwill: self.goodwill,
            total_assets: self.total_assets,
            accounts_payable: self.accounts_payable,
            total_current_liabilities: self.total_current_liabilities,
            total_liabilities: self.total_liabilities,
            retained_earnings: self.retained_earnings,
            shareholders_equity: self.shareholders_equity,
            total_debt: self.total_debt,
            net_cash: self.net_cash,
            depreciation_and_amortization: self.depreciation_and_amortization,
            stock_based_compensation: self.stock_based_compensation,
            operating_cash_flow: self.operating_cash_flow,
            operating_cash_flow_margin: self.operating_cash_flow_margin,
            capital_expenditure: self.capital_expenditure,
            investing_cash_flow: self.investing_cash_flow,
            financing_cash_flow: self.financing_cash_flow,
            free_cash_flow: self.free_cash_flow,
            free_cash_flow_margin: self.free_cash_flow_margin,
            ratio_calculated: self.ratio_calculated,
            growth_calculated: self.growth_calculated,
        }
    }
}

/// The stored record an unstored one becomes under a given id.
pub open spec fn with_id(e: NewEarningsReport, id: int) -> EarningsReport {
    EarningsReport {
        id: id as i32,

        company_id: e.company_id,
        duration: e.duration,
        quarter_str: e.quarter_str,
        year_str: e.year_str,
        period_ending: e.period_ending,
        currency: e.currency,
        net_interest_income: e.net_interest_income,
        net_interest_growth_yoy: e.net_interest_growth_yoy,
        net_interest_margin: e.net_interest_margin,
        provision_for_loan_loss: e.provision_for_loan_loss,
        cost_of_risk: e.cost_of_risk,
        revenue: e.revenue,
        revenue_growth_yoy: e.revenue_growth_yoy,
        cost_of_revenue: e.cost_of_revenue,
        gross_profit: e.gross_profit,
        gross_margin: e.gross_margin,
        gross_profit_growth_yoy: e.gross_profit_growth_yoy,
        sga_expenses: e.sga_expenses,
        sga_gp_ratio: e.sga_gp_ratio,
        rnd_expenses: e.rnd_expenses,
        rnd_gp_ratio: e.rnd_gp_ratio,
        operating_expenses: e.operating_expenses,
        operating_income: e.operating_income,
        operating_margin: e.operating_margin,
        interest_expenses: e.interest_expenses,
        interest_expenses_op_income_ratio: e.interest_expenses_op_income_ratio,
        goodwill_impairment: e.goodwill_impairment,
        net_income: e.net_income,
        net_margin: e.net_margin,
        eps_basic: e.eps_basic,
        eps_diluted: e.eps_diluted,
        shares_outstanding_basic: e.shares_outstanding_basic,
        shares_outstanding_diluted: e.shares_outstanding_diluted,
        shares_change_yoy: e.shares_change_yoy,
        ffo: e.ffo,
        ffo_margin: e.ffo_margin,
        cash_and_equivalents: e.cash_and_equivalents,
        cash_and_short_term_investments: e.cash_and_short_term_investments,
        total_investments: e.total_investments,
        gross_loans: e.gross_loans,
        accounts_receivable: e.accounts_receivable,
        inventory: e.inventory,
        total_current_assets: e.total_current_assets,
        goodwill: e.goodwill,
        total_assets: e.total_assets,
        accounts_payable: e.accounts_payable,
        total_current_liabilities: e.total_current_liabilities,
        total_liabilities: e.total_liabilities,
        retained_earnings: e.retained_earnings,
        shareholders_equity: e.shareholders_equity,
        total_debt: e.total_debt,
        net_cash: e.net_cash,
        depreciation_and_amortization: e.depreciation_and_amortization,
        stock_based_compensation: e.stock_based_compensation,
        operating_cash_flow: e.operating_cash_flow,
        operating_cash_flow_margin: e.operating_cash_flow_margin,
        capital_expenditure: e.capital_expenditure,
        investing_cash_flow: e.investing_cash_flow,
        financing_cash_flow: e.financing_cash_flow,
        free_cash_flow: e.free_cash_flow,
        free_cash_flow_margin: e.free_cash_flow_margin,
        ratio_calculated: e.ratio_calculated,
        growth_calculated: e.growth_calculated,
    }
}

impl NewEarningsReport {
    /// Attaches a store id, moving every field.
    pub fn into_report(self, id: i32) -> (r: EarningsReport)
        ensures
            r == with_id(self, id as int),
    {
        EarningsReport {
            id,

            company_id: self.company_id,
            duration: self.duration,
            quarter_str: self.quarter_str,
            year_str: self.year_str,
            period_ending: self.period_ending,
            currency: self.currency,
            net_interest_income: self.net_interest_income,
            net_interest_growth_yoy: self.net_interest_growth_yoy,
            net_interest_margin: self.net_interest_margin,
            provision_for_loan_loss: self.provision_for_loan_loss,
            cost_of_risk: self.cost_of_risk,
            revenue: self.revenue,
            revenue_growth_yoy: self.revenue_growth_yoy,
            cost_of_revenue: self.cost_of_revenue,
            gross_profit: self.gross_profit,
            gross_margin: self.gross_margin,
            gross_profit_growth_yoy: self.gross_profit_growth_yoy,
            sga_expenses: self.sga_expenses,
            sga_gp_ratio: self.sga_gp_ratio,
            rnd_expenses: self.rnd_expenses,
            rnd_gp_ratio: self.rnd_gp_ratio,
            operating_expenses: self.operating_expenses,
            operating_income: self.operating_income,
            operating_margin: self.operating_margin,
            interest_expenses: self.interest_expenses,
            interest_expenses_op_income_ratio: self.interest_expenses_op_income_ratio,
            goodwill_impairment: self.goodwill_impairment,
            net_income: self.net_income,
            net_margin: self.net_margin,
            eps_basic: self.eps_basic,
            eps_diluted: self.eps_diluted,
            shares_outstanding_basic: self.shares_outstanding_basic,
            shares_outstanding_diluted: self.shares_outstanding_diluted,
            shares_change_yoy: self.shares_change_yoy,
            ffo: self.ffo,
            ffo_margin: self.ffo_margin,
            cash_and_equivalents: self.cash_and_equivalents,
            cash_and_short_term_investments: self.cash_and_short_term_investments,
            total_investments: self.total_investments,
            gross_loans: self.gross_loans,
            accounts_receivable: self.accounts_receivable,
            inventory: self.inventory,
            total_current_assets: self.total_current_assets,
            goodwill: self.goodwill,
            total_assets: self.total_assets,
            accounts_payable: self.accounts_payable,
            total_current_liabilities: self.total_current_liabilities,
            total_liabilities: self.total_liabilities,
            retained_earnings: self.retained_earnings,
            shareholders_equity: self.shareholders_equity,
            total_debt: self.total_debt,
            net_cash: self.net_cash,
            depreciation_and_amortization: self.depreciation_and_amortization,
            stock_based_compensation: self.stock_based_compensation,
            operating_cash_flow: self.operating_cash_flow,
            operating_cash_flow_margin: self.operating_cash_flow_margin,
            capital_expenditure: self.capital_expenditure,
            investing_cash_flow: self.investing_cash_flow,
            financing_cash_flow: self.financing_cash_flow,
            free_cash_flow: self.free_cash_flow,
            free_cash_flow_margin: self.free_cash_flow_margin,
            ratio_calculated: self.ratio_calculated,
            growth_calculated: self.growth_calculated,
        }
    }
}

/// The composite uniqueness key of a stored record.
pub open spec fn key_of(r: EarningsReport) -> (int, Duration, int, int) {
    (r.company_id as int, r.duration, r.quarter_str as int, r.year_str as int)
}

/// The composite uniqueness key an unstored record will take.
pub open spec fn new_key_of(e: NewEarningsReport) -> (int, Duration, int, int) {
    (e.company_id as int, e.duration, e.quarter_str as int, e.year_str as int)
}

} // verus!
