//! The statement normalizer: maps each of the four provider statement
//! variants into the canonical earnings record.
//!
//! A statement whose fiscal-period string does not match the expected pattern
//! is dropped softly: it yields no record and batch processing continues. A
//! malformed period-ending date string is a hard parse error for that one
//! statement; batch normalization adopts the skip-and-continue policy and
//! drops such a statement as well. Every canonical field with no counterpart
//! in a variant is absent, and no derived metric is computed at creation:
//! both derivation flags start false.
use vstd::prelude::*;
use vstd::seq_lib::*;
use crate::dates::CalendarDate;
use crate::dates::convert_period_ending_str;
use crate::dates::date_parse;
use crate::fiscal::fiscal_matches;
use crate::fiscal::fiscal_quarter_of;
use crate::fiscal::fiscal_year_of;
use crate::fiscal::process_fiscal_string;
use crate::report::Duration;
use crate::report::EarningsError;
use crate::report::NewEarningsReport;

verus! {

/// A raw nominal statement as supplied by the provider, with amounts as
/// fixed-point values.
#[derive(Debug)]
pub struct NominalStatement {
    pub term: Duration,
    pub fiscal_quarter: String,
    pub period_ending: String,
    pub revenue: i64,
    pub revenue_growth_yoy: i64,
    pub cost_of_revenue: i64,
    pub gross_profit: i64,
    pub gross_margin: i64,
    pub sga_expenses: i64,
    pub rnd_expenses: i64,
    pub operating_expenses: i64,
    pub operating_income: i64,
    pub operating_margin: i64,
    pub interest_expenses: i64,
    pub goodwill_impairment: i64,
    pub net_income: i64,
    pub net_margin: i64,
    pub eps_basic: i64,
    pub eps_diluted: i64,
    pub shares_outstanding_basic: i64,
    pub shares_outstanding_diluted: i64,
    pub shares_change_yoy: i64,
    pub cash_and_equivalents: i64,
    pub cash_and_short_term_investments: i64,
    pub accounts_receivable: i64,
    pub inventory: i64,
    pub total_current_assets: i64,
    pub goodwill: i64,
    pub total_assets: i64,
    pub accounts_payable: i64,
    pub total_current_liabilities: i64,
    pub total_liabilities: i64,
    pub retained_earnings: i64,
    pub shareholders_equity: i64,
    pub total_debt: i64,
    pub net_cash: i64,
    pub depreciation_and_amortization: i64,
    pub stock_based_compensation: i64,
    pub operating_cash_flow: i64,
    pub capital_expenditure: i64,
    pub investing_cash_flow: i64,
    pub financing_cash_flow: i64,
    pub free_cash_flow: i64,
    pub free_cash_flow_margin: i64,
}

/// A raw bank statement as supplied by the provider, with amounts as
/// fixed-point values.
#[derive(Debug)]
pub struct BankStatement {
    pub term: Duration,
    pub fiscal_quarter: String,
    pub period_ending: String,
    pub net_interest_income: i64,
    pub provision_for_loan_loss: i64,
    pub revenue: i64,
    pub revenue_growth_yoy: i64,
    pub operating_expenses: i64,
    pub adjusted_operating_income: i64,
    pub adjusted_operating_margin: i64,
    pub goodwill_impairment: i64,
    pub net_income: i64,
    pub net_margin: i64,
    pub eps_basic: i64,
    pub eps_diluted: i64,
    pub shares_outstanding_basic: i64,
    pub shares_outstanding_diluted: i64,
    pub shares_change_yoy: i64,
    pub cash_and_equivalents: i64,
    pub total_investments: i64,
    pub gross_loans: i64,
    pub goodwill: i64,
    pub total_assets: i64,
    pub total_liabilities: i64,
    pub retained_earnings: i64,
    pub shareholders_equity: i64,
    pub total_debt: i64,
    pub net_cash: i64,
    pub depreciation_and_amortization: i64,
    pub stock_based_compensation: i64,
    pub operating_cash_flow: i64,
    pub investing_cash_flow: i64,
    pub financing_cash_flow: i64,
}

/// A raw reits statement as supplied by the provider, with amounts as
/// fixed-point values.
#[derive(Debug)]
pub struct ReitsStatement {
    pub term: Duration,
    pub fiscal_quarter: String,
    pub period_ending: String,
    pub revenue: i64,
    pub revenue_growth_yoy: i64,
    pub operating_expenses: i64,
    pub operating_income: i64,
    pub operating_margin: i64,
    pub interest_expenses: i64,
    pub goodwill_impairment: i64,
    pub net_income: i64,
    pub net_margin: i64,
    pub eps_basic: i64,
    pub eps_diluted: i64,
    pub shares_outstanding_basic: i64,
    pub shares_outstanding_diluted: i64,
    pub shares_change_yoy: i64,
    pub ffo: i64,
    pub cash_and_equivalents: i64,
    pub goodwill: i64,
    pub total_assets: i64,
    pub total_liabilities: i64,
    pub retained_earnings: i64,
    pub shareholders_equity: i64,
    pub total_debt: i64,
    pub net_cash: i64,
    pub depreciation_and_amortization: i64,
    pub stock_based_compensation: i64,
    pub operating_cash_flow: i64,
}

/// A raw other statement as supplied by the provider, with amounts as
/// fixed-point values.
#[derive(Debug)]
pub struct OtherStatement {
    pub term: Duration,
    pub fiscal_quarter: String,
    pub period_ending: String,
    pub revenue: i64,
    pub revenue_growth_yoy: i64,
    pub cost_of_revenue: i64,
    pub gross_profit: i64,
    pub sga_expenses: i64,
    pub rnd_expenses: i64,
    pub operating_expenses: i64,
    pub operating_income: i64,
    pub operating_margin: i64,
    pub interest_expenses: i64,
    pub goodwill_impairment: i64,
    pub net_income: i64,
    pub net_margin: i64,
    pub eps_basic: i64,
    pub eps_diluted: i64,
    pub shares_outstanding_basic: i64,
    pub shares_outstanding_diluted: i64,
    pub shares_change_yoy: i64,
    pub cash_and_equivalents: i64,
    pub goodwill: i64,
    pub total_assets: i64,
    pub total_liabilities: i64,
    pub retained_earnings: i64,
    pub shareholders_equity: i64,
    pub total_debt: i64,
    pub net_cash: i64,
    pub depreciation_and_amortization: i64,
    pub stock_based_compensation: i64,
    pub operating_cash_flow: i64,
    pub investing_cash_flow: i64,
    pub financing_cash_flow: i64,
    pub free_cash_flow: i64,
    pub free_cash_flow_margin: i64,
}

/// A raw statement batch, tagged with its variant kind.
#[derive(Debug)]
pub enum Earnings {
    Nominal(Vec<NominalStatement>),
    Bank(Vec<BankStatement>),
    Reits(Vec<ReitsStatement>),
    Other(Vec<OtherStatement>),
}

/// A nominal statement normalizes successfully: its fiscal-period string
/// matches and its period-ending date string parses.
pub open spec fn nominal_ok(st: NominalStatement) -> bool {
    fiscal_matches(st.fiscal_quarter@) && date_parse(st.period_ending@) is Some
}

/// The normalization predicate on nominal statements, as one function value.
pub open spec fn nominal_pred() -> spec_fn(NominalStatement) -> bool {
    |st: NominalStatement| nominal_ok(st)
}

/// The canonical record a nominal statement maps to: every canonical field
/// is pinned, fields with no nominal counterpart are absent, and the
/// derivation flags start false.
pub open spec fn nominal_maps_to(comp_id: int, currency: Seq<char>, st: NominalStatement, rec: NewEarningsReport) -> bool {
    &&& rec.company_id as int == comp_id
    &&& rec.duration == st.term
    &&& rec.quarter_str as int == fiscal_quarter_of(st.fiscal_quarter@)
    &&& rec.year_str as int == fiscal_year_of(st.fiscal_quarter@)
    &&& date_parse(st.period_ending@) is Some
    &&& rec.period_ending.year as int == date_parse(st.period_ending@)->Some_0.0
    &&& rec.period_ending.month as int == date_parse(st.period_ending@)->Some_0.1
    &&& rec.period_ending.day as int == date_parse(st.period_ending@)->Some_0.2
    &&& rec.currency@ == currency
    &&& rec.net_interest_income is None
    &&& rec.net_interest_growth_yoy is None
    &&& rec.net_interest_margin is None
    &&& rec.provision_for_loan_loss is None
    &&& rec.cost_of_risk is None
    &&& rec.revenue == st.revenue
    &&& rec.revenue_growth_yoy == Some(st.revenue_growth_yoy)
    &&& rec.cost_of_revenue == Some(st.cost_of_revenue)
    &&& rec.gross_profit == Some(st.gross_profit)
    &&& rec.gross_margin == Some(st.gross_margin)
    &&& rec.gross_profit_growth_yoy is None
    &&& rec.sga_expenses == Some(st.sga_expenses)
    &&& rec.sga_gp_ratio is None
    &&& rec.rnd_expenses == Some(st.rnd_expenses)
    &&& rec.rnd_gp_ratio is None
    &&& rec.operating_expenses == st.operating_expenses
    &&& rec.operating_income == st.operating_income
    &&& rec.operating_margin == st.operating_margin
    &&& rec.interest_expenses == Some(st.interest_expenses)
    &&& rec.interest_expenses_op_income_ratio is None
    &&& rec.goodwill_impairment == st.goodwill_impairment
    &&& rec.net_income == st.net_income
    &&& rec.net_margin == st.net_margin
    &&& rec.eps_basic == st.eps_basic
    &&& rec.eps_diluted == st.eps_diluted
    &&& rec.shares_outstanding_basic == st.shares_outstanding_basic
    &&& rec.shares_outstanding_diluted == st.shares_outstanding_diluted
    &&& rec.shares_change_yoy == st.shares_change_yoy
    &&& rec.ffo is None
    &&& rec.ffo_margin is None
    &&& rec.cash_and_equivalents == st.cash_and_equivalents
    &&& rec.cash_and_short_term_investments == Some(st.cash_and_short_term_investments)
    &&& rec.total_investments is None
    &&& rec.gross_loans is None
    &&& rec.accounts_receivable == Some(st.accounts_receivable)
    &&& rec.inventory == Some(st.inventory)
    &&& rec.total_current_assets == Some(st.total_current_assets)
    &&& rec.goodwill == Some(st.goodwill)
    &&& rec.total_assets == st.total_assets
    &&& rec.accounts_payable == Some(st.accounts_payable)
    &&& rec.total_current_liabilities == Some(st.total_current_liabilities)
    &&& rec.total_liabilities == st.total_liabilities
    &&& rec.retained_earnings == st.retained_earnings
    &&& rec.shareholders_equity == st.shareholders_equity
    &&& rec.total_debt == Some(st.total_debt)
    &&& rec.net_cash == st.net_cash
    &&& rec.depreciation_and_amortization == Some(st.depreciation_and_amortization)
    &&& rec.stock_based_compensation == Some(st.stock_based_compensation)
    &&& rec.operating_cash_flow == Some(st.operating_cash_flow)
    &&& rec.operating_cash_flow_margin is None
    &&& rec.capital_expenditure == Some(st.capital_expenditure)
    &&& rec.investing_cash_flow == Some(st.investing_cash_flow)
    &&& rec.financing_cash_flow == Some(st.financing_cash_flow)
    &&& rec.free_cash_flow == Some(st.free_cash_flow)
    &&& rec.free_cash_flow_margin == Some(st.free_cash_flow_margin)
    &&& rec.ratio_calculated == false
    &&& rec.growth_calculated == false
}

/// Normalizes one nominal statement: no record on a non-matching fiscal
/// string, a malformed-date error on an unparseable period-ending date,
/// and otherwise exactly the canonical record the statement maps to.
pub fn from_nominal(comp_id: i32, currency: &str, st: &NominalStatement) -> (r: Result<Option<NewEarningsReport>, EarningsError>)
    ensures
        r is Ok && r->Ok_0 is Some <==> nominal_ok(*st),
        r is Ok && r->Ok_0 is None <==> !fiscal_matches(st.fiscal_quarter@),
        r is Err <==> fiscal_matches(st.fiscal_quarter@) && date_parse(st.period_ending@) is None,
        r is Err ==> r->Err_0 == EarningsError::MalformedDate,
        r is Ok && r->Ok_0 is Some ==> nominal_maps_to(comp_id as int, currency@, *st, r->Ok_0->Some_0),
{
    if let Some((fiscal_y, fiscal_q)) = process_fiscal_string(&st.fiscal_quarter) {
        match convert_period_ending_str(&st.period_ending) {
            Some(pe) => Ok(Some(NewEarningsReport {
                company_id: comp_id,
                duration: st.term,
                quarter_str: fiscal_q,
                year_str: fiscal_y,
                period_ending: pe,
                currency: currency.to_owned(),
                net_interest_income: None,
                net_interest_growth_yoy: None,
                net_interest_margin: None,
                provision_for_loan_loss: None,
                cost_of_risk: None,
                revenue: st.revenue,
                revenue_growth_yoy: Some(st.revenue_growth_yoy),
                cost_of_revenue: Some(st.cost_of_revenue),
                gross_profit: Some(st.gross_profit),
                gross_margin: Some(st.gross_margin),
                gross_profit_growth_yoy: None,
                sga_expenses: Some(st.sga_expenses),
                sga_gp_ratio: None,
                rnd_expenses: Some(st.rnd_expenses),
                rnd_gp_ratio: None,
                operating_expenses: st.operating_expenses,
                operating_income: st.operating_income,
                operating_margin: st.operating_margin,
                interest_expenses: Some(st.interest_expenses),
                interest_expenses_op_income_ratio: None,
                goodwill_impairment: st.goodwill_impairment,
                net_income: st.net_income,
                net_margin: st.net_margin,
                eps_basic: st.eps_basic,
                eps_diluted: st.eps_diluted,
                shares_outstanding_basic: st.shares_outstanding_basic,
                shares_outstanding_diluted: st.shares_outstanding_diluted,
                shares_change_yoy: st.shares_change_yoy,
                ffo: None,
                ffo_margin: None,
                cash_and_equivalents: st.cash_and_equivalents,
                cash_and_short_term_investments: Some(st.cash_and_short_term_investments),
                total_investments: None,
                gross_loans: None,
                accounts_receivable: Some(st.accounts_receivable),
                inventory: Some(st.inventory),
                total_current_assets: Some(st.total_current_assets),
                goodwill: Some(st.goodwill),
                total_assets: st.total_assets,
                accounts_payable: Some(st.accounts_payable),
                total_current_liabilities: Some(st.total_current_liabilities),
                total_liabilities: st.total_liabilities,
                retained_earnings: st.retained_earnings,
                shareholders_equity: st.shareholders_equity,
                total_debt: Some(st.total_debt),
                net_cash: st.net_cash,
                depreciation_and_amortization: Some(st.depreciation_and_amortization),
                stock_based_compensation: Some(st.stock_based_compensation),
                operating_cash_flow: Some(st.operating_cash_flow),
                operating_cash_flow_margin: None,
                capital_expenditure: Some(st.capital_expenditure),
                investing_cash_flow: Some(st.investing_cash_flow),
                financing_cash_flow: Some(st.financing_cash_flow),
                free_cash_flow: Some(st.free_cash_flow),
                free_cash_flow_margin: Some(st.free_cash_flow_margin),
                ratio_calculated: false,
                growth_calculated: false,
            })),
            None => Err(EarningsError::MalformedDate),
        }
    } else {
        Ok(None)
    }
}

/// A batch result is exactly the in-order normalization of the nominal
/// statements that normalize successfully; the others are dropped.
pub open spec fn normalized_nominal(comp_id: int, currency: Seq<char>, sts: Seq<NominalStatement>, out: Seq<NewEarningsReport>) -> bool {
    &&& out.len() == sts.filter(nominal_pred()).len()
    &&& forall|j: int| 0 <= j < out.len() ==> nominal_maps_to(comp_id, currency, sts.filter(nominal_pred())[j], #[trigger] out[j])
}

/// Normalizes a batch of nominal statements, dropping the statements whose
/// fiscal string or period-ending date does not parse and keeping the rest
/// in order.
pub fn normalize_nominal_batch(comp_id: i32, currency: &str, sts: &Vec<NominalStatement>) -> (out: Vec<NewEarningsReport>)
    ensures
        normalized_nominal(comp_id as int, currency@, sts@, out@),
{
    let mut out: Vec<NewEarningsReport> = Vec::new();
    let mut i: usize = 0;
    proof {
        reveal(Seq::filter);
        assert(sts@.take(0).filter(nominal_pred()).len() == 0);
    }
    while i < sts.len()
        invariant
            i <= sts@.len(),
            out@.len() == sts@.take(i as int).filter(nominal_pred()).len(),
            forall|j: int| 0 <= j < out@.len() ==> nominal_maps_to(comp_id as int, currency@, sts@.take(i as int).filter(nominal_pred())[j], #[trigger] out@[j]),
        decreases sts@.len() - i,
    {
        let st = &sts[i];
        let ghost prefix = sts@.take(i as int);
        proof {
            reveal(Seq::filter);
            assert(sts@.take(i + 1) =~= prefix.push(sts@[i as int]));
            assert(prefix.push(sts@[i as int]).drop_last() =~= prefix);
            assert(prefix.push(sts@[i as int]).last() == sts@[i as int]);
            if nominal_ok(sts@[i as int]) {
                assert(sts@.take(i + 1).filter(nominal_pred()) == prefix.filter(nominal_pred()).push(sts@[i as int]));
            } else {
                assert(sts@.take(i + 1).filter(nominal_pred()) == prefix.filter(nominal_pred()));
            }
        }
        match from_nominal(comp_id, currency, st) {
            Ok(Some(rec)) => { out.push(rec); },
            _ => {},
        }
        i += 1;
    }
    proof {
        assert(sts@.take(sts@.len() as int) =~= sts@);
    }
    out
}

/// A bank statement normalizes successfully: its fiscal-period string
/// matches and its period-ending date string parses.
pub open spec fn bank_ok(st: BankStatement) -> bool {
    fiscal_matches(st.fiscal_quarter@) && date_parse(st.period_ending@) is Some
}

/// The normalization predicate on bank statements, as one function value.
pub open spec fn bank_pred() -> spec_fn(BankStatement) -> bool {
    |st: BankStatement| bank_ok(st)
}

/// The canonical record a bank statement maps to: every canonical field
/// is pinned, fields with no bank counterpart are absent, and the
/// derivation flags start false.
pub open spec fn bank_maps_to(comp_id: int, currency: Seq<char>, st: BankStatement, rec: NewEarningsReport) -> bool {
    &&& rec.company_id as int == comp_id
    &&& rec.duration == st.term
    &&& rec.quarter_str as int == fiscal_quarter_of(st.fiscal_quarter@)
    &&& rec.year_str as int == fiscal_year_of(st.fiscal_quarter@)
    &&& date_parse(st.period_ending@) is Some
    &&& rec.period_ending.year as int == date_parse(st.period_ending@)->Some_0.0
    &&& rec.period_ending.month as int == date_parse(st.period_ending@)->Some_0.1
    &&& rec.period_ending.day as int == date_parse(st.period_ending@)->Some_0.2
    &&& rec.currency@ == currency
    &&& rec.net_interest_income == Some(st.net_interest_income)
    &&& rec.net_interest_growth_yoy is None
    &&& rec.net_interest_margin is None
    &&& rec.provision_for_loan_loss == Some(st.provision_for_loan_loss)
    &&& rec.cost_of_risk is None
    &&& rec.revenue == st.revenue
    &&& rec.revenue_growth_yoy == Some(st.revenue_growth_yoy)
    &&& rec.cost_of_revenue is None
    &&& rec.gross_profit is None
    &&& rec.gross_margin is None
    &&& rec.gross_profit_growth_yoy is None
    &&& rec.sga_expenses is None
    &&& rec.sga_gp_ratio is None
    &&& rec.rnd_expenses is None
    &&& rec.rnd_gp_ratio is None
    &&& rec.operating_expenses == st.operating_expenses
    &&& rec.operating_income == st.adjusted_operating_income
    &&& rec.operating_margin == st.adjusted_operating_margin
    &&& rec.interest_expenses is None
    &&& rec.interest_expenses_op_income_ratio is None
    &&& rec.goodwill_impairment == st.goodwill_impairment
    &&& rec.net_income == st.net_income
    &&& rec.net_margin == st.net_margin
    &&& rec.eps_basic == st.eps_basic
    &&& rec.eps_diluted == st.eps_diluted
    &&& rec.shares_outstanding_basic == st.shares_outstanding_basic
    &&& rec.shares_outstanding_diluted == st.shares_outstanding_diluted
    &&& rec.shares_change_yoy == st.shares_change_yoy
    &&& rec.ffo is None
    &&& rec.ffo_margin is None
    &&& rec.cash_and_equivalents == st.cash_and_equivalents
    &&& rec.cash_and_short_term_investments is None
    &&& rec.total_investments == Some(st.total_investments)
    &&& rec.gross_loans == Some(st.gross_loans)
    &&& rec.accounts_receivable is None
    &&& rec.inventory is None
    &&& rec.total_current_assets is None
    &&& rec.goodwill == Some(st.goodwill)
    &&& rec.total_assets == st.total_assets
    &&& rec.accounts_payable is None
    &&& rec.total_current_liabilities is None
    &&& rec.total_liabilities == st.total_liabilities
    &&& rec.retained_earnings == st.retained_earnings
    &&& rec.shareholders_equity == st.shareholders_equity
    &&& rec.total_debt == Some(st.total_debt)
    &&& rec.net_cash == st.net_cash
    &&& rec.depreciation_and_amortization == Some(st.depreciation_and_amortization)
    &&& rec.stock_based_compensation == Some(st.stock_based_compensation)
    &&& rec.operating_cash_flow == Some(st.operating_cash_flow)
    &&& rec.operating_cash_flow_margin is None
    &&& rec.capital_expenditure is None
    &&& rec.investing_cash_flow == Some(st.investing_cash_flow)
    &&& rec.financing_cash_flow == Some(st.financing_cash_flow)
    &&& rec.free_cash_flow is None
    &&& rec.free_cash_flow_margin is None
    &&& rec.ratio_calculated == false
    &&& rec.growth_calculated == false
}

/// Normalizes one bank statement: no record on a non-matching fiscal
/// string, a malformed-date error on an unparseable period-ending date,
/// and otherwise exactly the canonical record the statement maps to.
pub fn from_bank(comp_id: i32, currency: &str, st: &BankStatement) -> (r: Result<Option<NewEarningsReport>, EarningsError>)
    ensures
        r is Ok && r->Ok_0 is Some <==> bank_ok(*st),
        r is Ok && r->Ok_0 is None <==> !fiscal_matches(st.fiscal_quarter@),
        r is Err <==> fiscal_matches(st.fiscal_quarter@) && date_parse(st.period_ending@) is None,
        r is Err ==> r->Err_0 == EarningsError::MalformedDate,
        r is Ok && r->Ok_0 is Some ==> bank_maps_to(comp_id as int, currency@, *st, r->Ok_0->Some_0),
{
    if let Some((fiscal_y, fiscal_q)) = process_fiscal_string(&st.fiscal_quarter) {
        match convert_period_ending_str(&st.period_ending) {
            Some(pe) => Ok(Some(NewEarningsReport {
                company_id: comp_id,
                duration: st.term,
                quarter_str: fiscal_q,
                year_str: fiscal_y,
                period_ending: pe,
                currency: currency.to_owned(),
                net_interest_income: Some(st.net_interest_income),
                net_interest_growth_yoy: None,
                net_interest_margin: None,
                provision_for_loan_loss: Some(st.provision_for_loan_loss),
                cost_of_risk: None,
                revenue: st.revenue,
                revenue_growth_yoy: Some(st.revenue_growth_yoy),
                cost_of_revenue: None,
                gross_profit: None,
                gross_margin: None,
                gross_profit_growth_yoy: None,
                sga_expenses: None,
                sga_gp_ratio: None,
                rnd_expenses: None,
                rnd_gp_ratio: None,
                operating_expenses: st.operating_expenses,
                operating_income: st.adjusted_operating_income,
                operating_margin: st.adjusted_operating_margin,
                interest_expenses: None,
                interest_expenses_op_income_ratio: None,
                goodwill_impairment: st.goodwill_impairment,
                net_income: st.net_income,
                net_margin: st.net_margin,
                eps_basic: st.eps_basic,
                eps_diluted: st.eps_diluted,
                shares_outstanding_basic: st.shares_outstanding_basic,
                shares_outstanding_diluted: st.shares_outstanding_diluted,
                shares_change_yoy: st.shares_change_yoy,
                ffo: None,
                ffo_margin: None,
                cash_and_equivalents: st.cash_and_equivalents,
                cash_and_short_term_investments: None,
                total_investments: Some(st.total_investments),
                gross_loans: Some(st.gross_loans),
                accounts_receivable: None,
                inventory: None,
                total_current_assets: None,
                goodwill: Some(st.goodwill),
                total_assets: st.total_assets,
                accounts_payable: None,
                total_current_liabilities: None,
                total_liabilities: st.total_liabilities,
                retained_earnings: st.retained_earnings,
                shareholders_equity: st.shareholders_equity,
                total_debt: Some(st.total_debt),
                net_cash: st.net_cash,
                depreciation_and_amortization: Some(st.depreciation_and_amortization),
                stock_based_compensation: Some(st.stock_based_compensation),
                operating_cash_flow: Some(st.operating_cash_flow),
                operating_cash_flow_margin: None,
                capital_expenditure: None,
                investing_cash_flow: Some(st.investing_cash_flow),
                financing_cash_flow: Some(st.financing_cash_flow),
                free_cash_flow: None,
                free_cash_flow_margin: None,
                ratio_calculated: false,
                growth_calculated: false,
            })),
            None => Err(EarningsError::MalformedDate),
        }
    } else {
        Ok(None)
    }
}

/// A batch result is exactly the in-order normalization of the bank
/// statements that normalize successfully; the others are dropped.
pub open spec fn normalized_bank(comp_id: int, currency: Seq<char>, sts: Seq<BankStatement>, out: Seq<NewEarningsReport>) -> bool {
    &&& out.len() == sts.filter(bank_pred()).len()
    &&& forall|j: int| 0 <= j < out.len() ==> bank_maps_to(comp_id, currency, sts.filter(bank_pred())[j], #[trigger] out[j])
}

/// Normalizes a batch of bank statements, dropping the statements whose
/// fiscal string or period-ending date does not parse and keeping the rest
/// in order.
pub fn normalize_bank_batch(comp_id: i32, currency: &str, sts: &Vec<BankStatement>) -> (out: Vec<NewEarningsReport>)
    ensures
        normalized_bank(comp_id as int, currency@, sts@, out@),
{
    let mut out: Vec<NewEarningsReport> = Vec::new();
    let mut i: usize = 0;
    proof {
        reveal(Seq::filter);
        assert(sts@.take(0).filter(bank_pred()).len() == 0);
    }
    while i < sts.len()
        invariant
            i <= sts@.len(),
            out@.len() == sts@.take(i as int).filter(bank_pred()).len(),
            forall|j: int| 0 <= j < out@.len() ==> bank_maps_to(comp_id as int, currency@, sts@.take(i as int).filter(bank_pred())[j], #[trigger] out@[j]),
        decreases sts@.len() - i,
    {
        let st = &sts[i];
        let ghost prefix = sts@.take(i as int);
        proof {
            reveal(Seq::filter);
            assert(sts@.take(i + 1) =~= prefix.push(sts@[i as int]));
            assert(prefix.push(sts@[i as int]).drop_last() =~= prefix);
            assert(prefix.push(sts@[i as int]).last() == sts@[i as int]);
            if bank_ok(sts@[i as int]) {
                assert(sts@.take(i + 1).filter(bank_pred()) == prefix.filter(bank_pred()).push(sts@[i as int]));
            } else {
                assert(sts@.take(i + 1).filter(bank_pred()) == prefix.filter(bank_pred()));
            }
        }
        match from_bank(comp_id, currency, st) {
            Ok(Some(rec)) => { out.push(rec); },
            _ => {},
        }
        i += 1;
    }
    proof {
        assert(sts@.take(sts@.len() as int) =~= sts@);
    }
    out
}

/// A reits statement normalizes successfully: its fiscal-period string
/// matches and its period-ending date string parses.
pub open spec fn reits_ok(st: ReitsStatement) -> bool {
    fiscal_matches(st.fiscal_quarter@) && date_parse(st.period_ending@) is Some
}

/// The normalization predicate on reits statements, as one function value.
pub open spec fn reits_pred() -> spec_fn(ReitsStatement) -> bool {
    |st: ReitsStatement| reits_ok(st)
}

/// The canonical record a reits statement maps to: every canonical field
/// is pinned, fields with no reits counterpart are absent, and the
/// derivation flags start false.
pub open spec fn reits_maps_to(comp_id: int, currency: Seq<char>, st: ReitsStatement, rec: NewEarningsReport) -> bool {
    &&& rec.company_id as int == comp_id
    &&& rec.duration == st.term
    &&& rec.quarter_str as int == fiscal_quarter_of(st.fiscal_quarter@)
    &&& rec.year_str as int == fiscal_year_of(st.fiscal_quarter@)
    &&& date_parse(st.period_ending@) is Some
    &&& rec.period_ending.year as int == date_parse(st.period_ending@)->Some_0.0
    &&& rec.period_ending.month as int == date_parse(st.period_ending@)->Some_0.1
    &&& rec.period_ending.day as int == date_parse(st.period_ending@)->Some_0.2
    &&& rec.currency@ == currency
    &&& rec.net_interest_income is None
    &&& rec.net_interest_growth_yoy is None
    &&& rec.net_interest_margin is None
    &&& rec.provision_for_loan_loss is None
    &&& rec.cost_of_risk is None
    &&& rec.revenue == st.revenue
    &&& rec.revenue_growth_yoy == Some(st.revenue_growth_yoy)
    &&& rec.cost_of_revenue is None
    &&& rec.gross_profit is None
    &&& rec.gross_margin is None
    &&& rec.gross_profit_growth_yoy is None
    &&& rec.sga_expenses is None
    &&& rec.sga_gp_ratio is None
    &&& rec.rnd_expenses is None
    &&& rec.rnd_gp_ratio is None
    &&& rec.operating_expenses == st.operating_expenses
    &&& rec.operating_income == st.operating_income
    &&& rec.operating_margin == st.operating_margin
    &&& rec.interest_expenses == Some(st.interest_expenses)
    &&& rec.interest_expenses_op_income_ratio is None
    &&& rec.goodwill_impairment == st.goodwill_impairment
    &&& rec.net_income == st.net_income
    &&& rec.net_margin == st.net_margin
    &&& rec.eps_basic == st.eps_basic
    &&& rec.eps_diluted == st.eps_diluted
    &&& rec.shares_outstanding_basic == st.shares_outstanding_basic
    &&& rec.shares_outstanding_diluted == st.shares_outstanding_diluted
    &&& rec.shares_change_yoy == st.shares_change_yoy
    &&& rec.ffo == Some(st.ffo)
    &&& rec.ffo_margin is None
    &&& rec.cash_and_equivalents == st.cash_and_equivalents
    &&& rec.cash_and_short_term_investments is None
    &&& rec.total_investments is None
    &&& rec.gross_loans is None
    &&& rec.accounts_receivable is None
    &&& rec.inventory is None
    &&& rec.total_current_assets is None
    &&& rec.goodwill == Some(st.goodwill)
    &&& rec.total_assets == st.total_assets
    &&& rec.accounts_payable is None
    &&& rec.total_current_liabilities is None
    &&& rec.total_liabilities == st.total_liabilities
    &&& rec.retained_earnings == st.retained_earnings
    &&& rec.shareholders_equity == st.shareholders_equity
    &&& rec.total_debt == Some(st.total_debt)
    &&& rec.net_cash == st.net_cash
    &&& rec.depreciation_and_amortization == Some(st.depreciation_and_amortization)
    &&& rec.stock_based_compensation == Some(st.stock_based_compensation)
    &&& rec.operating_cash_flow == Some(st.operating_cash_flow)
    &&& rec.operating_cash_flow_margin is None
    &&& rec.capital_expenditure is None
    &&& rec.investing_cash_flow is None
    &&& rec.financing_cash_flow is None
    &&& rec.free_cash_flow is None
    &&& rec.free_cash_flow_margin is None
    &&& rec.ratio_calculated == false
    &&& rec.growth_calculated == false
}

/// Normalizes one reits statement: no record on a non-matching fiscal
/// string, a malformed-date error on an unparseable period-ending date,
/// and otherwise exactly the canonical record the statement maps to.
pub fn from_reits(comp_id: i32, currency: &str, st: &ReitsStatement) -> (r: Result<Option<NewEarningsReport>, EarningsError>)
    ensures
        r is Ok && r->Ok_0 is Some <==> reits_ok(*st),
        r is Ok && r->Ok_0 is None <==> !fiscal_matches(st.fiscal_quarter@),
        r is Err <==> fiscal_matches(st.fiscal_quarter@) && date_parse(st.period_ending@) is None,
        r is Err ==> r->Err_0 == EarningsError::MalformedDate,
        r is Ok && r->Ok_0 is Some ==> reits_maps_to(comp_id as int, currency@, *st, r->Ok_0->Some_0),
{
    if let Some((fiscal_y, fiscal_q)) = process_fiscal_string(&st.fiscal_quarter) {
        match convert_period_ending_str(&st.period_ending) {
            Some(pe) => Ok(Some(NewEarningsReport {
                company_id: comp_id,
                duration: st.term,
                quarter_str: fiscal_q,
                year_str: fiscal_y,
                period_ending: pe,
                currency: currency.to_owned(),
                net_interest_income: None,
                net_interest_growth_yoy: None,
                net_interest_margin: None,
                provision_for_loan_loss: None,
                cost_of_risk: None,
                revenue: st.revenue,
                revenue_growth_yoy: Some(st.revenue_growth_yoy),
                cost_of_revenue: None,
                gross_profit: None,
                gross_margin: None,
                gross_profit_growth_yoy: None,
                sga_expenses: None,
                sga_gp_ratio: None,
                rnd_expenses: None,
                rnd_gp_ratio: None,
                operating_expenses: st.operating_expenses,
                operating_income: st.operating_income,
                operating_margin: st.operating_margin,
                interest_expenses: Some(st.interest_expenses),
                interest_expenses_op_income_ratio: None,
                goodwill_impairment: st.goodwill_impairment,
                net_income: st.net_income,
                net_margin: st.net_margin,
                eps_basic: st.eps_basic,
                eps_diluted: st.eps_diluted,
                shares_outstanding_basic: st.shares_outstanding_basic,
                shares_outstanding_diluted: st.shares_outstanding_diluted,
                shares_change_yoy: st.shares_change_yoy,
                ffo: Some(st.ffo),
                ffo_margin: None,
                cash_and_equivalents: st.cash_and_equivalents,
                cash_and_short_term_investments: None,
                total_investments: None,
                gross_loans: None,
                accounts_receivable: None,
                inventory: None,
                total_current_assets: None,
                goodwill: Some(st.goodwill),
                total_assets: st.total_assets,
                accounts_payable: None,
                total_current_liabilities: None,
                total_liabilities: st.total_liabilities,
                retained_earnings: st.retained_earnings,
                shareholders_equity: st.shareholders_equity,
                total_debt: Some(st.total_debt),
                net_cash: st.net_cash,
                depreciation_and_amortization: Some(st.depreciation_and_amortization),
                stock_based_compensation: Some(st.stock_based_compensation),
                operating_cash_flow: Some(st.operating_cash_flow),
                operating_cash_flow_margin: None,
                capital_expenditure: None,
                investing_cash_flow: None,
                financing_cash_flow: None,
                free_cash_flow: None,
                free_cash_flow_margin: None,
                ratio_calculated: false,
                growth_calculated: false,
            })),
            None => Err(EarningsError::MalformedDate),
        }
    } else {
        Ok(None)
    }
}

/// A batch result is exactly the in-order normalization of the reits
/// statements that normalize successfully; the others are dropped.
pub open spec fn normalized_reits(comp_id: int, currency: Seq<char>, sts: Seq<ReitsStatement>, out: Seq<NewEarningsReport>) -> bool {
    &&& out.len() == sts.filter(reits_pred()).len()
    &&& forall|j: int| 0 <= j < out.len() ==> reits_maps_to(comp_id, currency, sts.filter(reits_pred())[j], #[trigger] out[j])
}

/// Normalizes a batch of reits statements, dropping the statements whose
/// fiscal string or period-ending date does not parse and keeping the rest
/// in order.
pub fn normalize_reits_batch(comp_id: i32, currency: &str, sts: &Vec<ReitsStatement>) -> (out: Vec<NewEarningsReport>)
    ensures
        normalized_reits(comp_id as int, currency@, sts@, out@),
{
    let mut out: Vec<NewEarningsReport> = Vec::new();
    let mut i: usize = 0;
    proof {
        reveal(Seq::filter);
        assert(sts@.take(0).filter(reits_pred()).len() == 0);
    }
    while i < sts.len()
        invariant
            i <= sts@.len(),
            out@.len() == sts@.take(i as int).filter(reits_pred()).len(),
            forall|j: int| 0 <= j < out@.len() ==> reits_maps_to(comp_id as int, currency@, sts@.take(i as int).filter(reits_pred())[j], #[trigger] out@[j]),
        decreases sts@.len() - i,
    {
        let st = &sts[i];
        let ghost prefix = sts@.take(i as int);
        proof {
            reveal(Seq::filter);
            assert(sts@.take(i + 1) =~= prefix.push(sts@[i as int]));
            assert(prefix.push(sts@[i as int]).drop_last() =~= prefix);
            assert(prefix.push(sts@[i as int]).last() == sts@[i as int]);
            if reits_ok(sts@[i as int]) {
                assert(sts@.take(i + 1).filter(reits_pred()) == prefix.filter(reits_pred()).push(sts@[i as int]));
            } else {
                assert(sts@.take(i + 1).filter(reits_pred()) == prefix.filter(reits_pred()));
            }
        }
        match from_reits(comp_id, currency, st) {
            Ok(Some(rec)) => { out.push(rec); },
            _ => {},
        }
        i += 1;
    }
    proof {
        assert(sts@.take(sts@.len() as int) =~= sts@);
    }
    out
}

/// A other statement normalizes successfully: its fiscal-period string
/// matches and its period-ending date string parses.
pub open spec fn other_ok(st: OtherStatement) -> bool {
    fiscal_matches(st.fiscal_quarter@) && date_parse(st.period_ending@) is Some
}

/// The normalization predicate on other statements, as one function value.
pub open spec fn other_pred() -> spec_fn(OtherStatement) -> bool {
    |st: OtherStatement| other_ok(st)
}

/// The canonical record a other statement maps to: every canonical field
/// is pinned, fields with no other counterpart are absent, and the
/// derivation flags start false.
pub open spec fn other_maps_to(comp_id: int, currency: Seq<char>, st: OtherStatement, rec: NewEarningsReport) -> bool {
    &&& rec.company_id as int == comp_id
    &&& rec.duration == st.term
    &&& rec.quarter_str as int == fiscal_quarter_of(st.fiscal_quarter@)
    &&& rec.year_str as int == fiscal_year_of(st.fiscal_quarter@)
    &&& date_parse(st.period_ending@) is Some
    &&& rec.period_ending.year as int == date_parse(st.period_ending@)->Some_0.0
    &&& rec.period_ending.month as int == date_parse(st.period_ending@)->Some_0.1
    &&& rec.period_ending.day as int == date_parse(st.period_ending@)->Some_0.2
    &&& rec.currency@ == currency
    &&& rec.net_interest_income is None
    &&& rec.net_interest_growth_yoy is None
    &&& rec.net_interest_margin is None
    &&& rec.provision_for_loan_loss is None
    &&& rec.cost_of_risk is None
    &&& rec.revenue == st.revenue
    &&& rec.revenue_growth_yoy == Some(st.revenue_growth_yoy)
    &&& rec.cost_of_revenue == Some(st.cost_of_revenue)
    &&& rec.gross_profit == Some(st.gross_profit)
    &&& rec.gross_margin is None
    &&& rec.gross_profit_growth_yoy is None
    &&& rec.sga_expenses == Some(st.sga_expenses)
    &&& rec.sga_gp_ratio is None
    &&& rec.rnd_expenses == Some(st.rnd_expenses)
    &&& rec.rnd_gp_ratio is None
    &&& rec.operating_expenses == st.operating_expenses
    &&& rec.operating_income == st.operating_income
    &&& rec.operating_margin == st.operating_margin
    &&& rec.interest_expenses == Some(st.interest_expenses)
    &&& rec.interest_expenses_op_income_ratio is None
    &&& rec.goodwill_impairment == st.goodwill_impairment
    &&& rec.net_income == st.net_income
    &&& rec.net_margin == st.net_margin
    &&& rec.eps_basic == st.eps_basic
    &&& rec.eps_diluted == st.eps_diluted
    &&& rec.shares_outstanding_basic == st.shares_outstanding_basic
    &&& rec.shares_outstanding_diluted == st.shares_outstanding_diluted
    &&& rec.shares_change_yoy == st.shares_change_yoy
    &&& rec.ffo is None
    &&& rec.ffo_margin is None
    &&& rec.cash_and_equivalents == st.cash_and_equivalents
    &&& rec.cash_and_short_term_investments is None
    &&& rec.total_investments is None
    &&& rec.gross_loans is None
    &&& rec.accounts_receivable is None
    &&& rec.inventory is None
    &&& rec.total_current_assets is None
    &&& rec.goodwill == Some(st.goodwill)
    &&& rec.total_assets == st.total_assets
    &&& rec.accounts_payable is None
    &&& rec.total_current_liabilities is None
    &&& rec.total_liabilities == st.total_liabilities
    &&& rec.retained_earnings == st.retained_earnings
    &&& rec.shareholders_equity == st.shareholders_equity
    &&& rec.total_debt == Some(st.total_debt)
    &&& rec.net_cash == st.net_cash
    &&& rec.depreciation_and_amortization == Some(st.depreciation_and_amortization)
    &&& rec.stock_based_compensation == Some(st.stock_based_compensation)
    &&& rec.operating_cash_flow == Some(st.operating_cash_flow)
    &&& rec.operating_cash_flow_margin is None
    &&& rec.capital_expenditure is None
    &&& rec.investing_cash_flow == Some(st.investing_cash_flow)
    &&& rec.financing_cash_flow == Some(st.financing_cash_flow)
    &&& rec.free_cash_flow == Some(st.free_cash_flow)
    &&& rec.free_cash_flow_margin == Some(st.free_cash_flow_margin)
    &&& rec.ratio_calculated == false
    &&& rec.growth_calculated == false
}

/// Normalizes one other statement: no record on a non-matching fiscal
/// string, a malformed-date error on an unparseable period-ending date,
/// and otherwise exactly the canonical record the statement maps to.
pub fn from_other(comp_id: i32, currency: &str, st: &OtherStatement) -> (r: Result<Option<NewEarningsReport>, EarningsError>)
    ensures
        r is Ok && r->Ok_0 is Some <==> other_ok(*st),
        r is Ok && r->Ok_0 is None <==> !fiscal_matches(st.fiscal_quarter@),
        r is Err <==> fiscal_matches(st.fiscal_quarter@) && date_parse(st.period_ending@) is None,
        r is Err ==> r->Err_0 == EarningsError::MalformedDate,
        r is Ok && r->Ok_0 is Some ==> other_maps_to(comp_id as int, currency@, *st, r->Ok_0->Some_0),
{
    if let Some((fiscal_y, fiscal_q)) = process_fiscal_string(&st.fiscal_quarter) {
        match convert_period_ending_str(&st.period_ending) {
            Some(pe) => Ok(Some(NewEarningsReport {
                company_id: comp_id,
                duration: st.term,
                quarter_str: fiscal_q,
                year_str: fiscal_y,
                period_ending: pe,
                currency: currency.to_owned(),
                net_interest_income: None,
                net_interest_growth_yoy: None,
                net_interest_margin: None,
                provision_for_loan_loss: None,
                cost_of_risk: None,
                revenue: st.revenue,
                revenue_growth_yoy: Some(st.revenue_growth_yoy),
                cost_of_revenue: Some(st.cost_of_revenue),
                gross_profit: Some(st.gross_profit),
                gross_margin: None,
                gross_profit_growth_yoy: None,
                sga_expenses: Some(st.sga_expenses),
                sga_gp_ratio: None,
                rnd_expenses: Some(st.rnd_expenses),
                rnd_gp_ratio: None,
                operating_expenses: st.operating_expenses,
                operating_income: st.operating_income,
                operating_margin: st.operating_margin,
                interest_expenses: Some(st.interest_expenses),
                interest_expenses_op_income_ratio: None,
                goodwill_impairment: st.goodwill_impairment,
                net_income: st.net_income,
                net_margin: st.net_margin,
                eps_basic: st.eps_basic,
                eps_diluted: st.eps_diluted,
                shares_outstanding_basic: st.shares_outstanding_basic,
                shares_outstanding_diluted: st.shares_outstanding_diluted,
                shares_change_yoy: st.shares_change_yoy,
                ffo: None,
                ffo_margin: None,
                cash_and_equivalents: st.cash_and_equivalents,
                cash_and_short_term_investments: None,
                total_investments: None,
                gross_loans: None,
                accounts_receivable: None,
                inventory: None,
                total_current_assets: None,
                goodwill: Some(st.goodwill),
                total_assets: st.total_assets,
                accounts_payable: None,
                total_current_liabilities: None,
                total_liabilities: st.total_liabilities,
                retained_earnings: st.retained_earnings,
                shareholders_equity: st.shareholders_equity,
                total_debt: Some(st.total_debt),
                net_cash: st.net_cash,
                depreciation_and_amortization: Some(st.depreciation_and_amortization),
                stock_based_compensation: Some(st.stock_based_compensation),
                operating_cash_flow: Some(st.operating_cash_flow),
                operating_cash_flow_margin: None,
                capital_expenditure: None,
                investing_cash_flow: Some(st.investing_cash_flow),
                financing_cash_flow: Some(st.financing_cash_flow),
                free_cash_flow: Some(st.free_cash_flow),
                free_cash_flow_margin: Some(st.free_cash_flow_margin),
                ratio_calculated: false,
                growth_calculated: false,
            })),
            None => Err(EarningsError::MalformedDate),
        }
    } else {
        Ok(None)
    }
}

/// A batch result is exactly the in-order normalization of the other
/// statements that normalize successfully; the others are dropped.
pub open spec fn normalized_other(comp_id: int, currency: Seq<char>, sts: Seq<OtherStatement>, out: Seq<NewEarningsReport>) -> bool {
    &&& out.len() == sts.filter(other_pred()).len()
    &&& forall|j: int| 0 <= j < out.len() ==> other_maps_to(comp_id, currency, sts.filter(other_pred())[j], #[trigger] out[j])
}

/// Normalizes a batch of other statements, dropping the statements whose
/// fiscal string or period-ending date does not parse and keeping the rest
/// in order.
pub fn normalize_other_batch(comp_id: i32, currency: &str, sts: &Vec<OtherStatement>) -> (out: Vec<NewEarningsReport>)
    ensures
        normalized_other(comp_id as int, currency@, sts@, out@),
{
    let mut out: Vec<NewEarningsReport> = Vec::new();
    let mut i: usize = 0;
    proof {
        reveal(Seq::filter);
        assert(sts@.take(0).filter(other_pred()).len() == 0);
    }
    while i < sts.len()
        invariant
            i <= sts@.len(),
            out@.len() == sts@.take(i as int).filter(other_pred()).len(),
            forall|j: int| 0 <= j < out@.len() ==> other_maps_to(comp_id as int, currency@, sts@.take(i as int).filter(other_pred())[j], #[trigger] out@[j]),
        decreases sts@.len() - i,
    {
        let st = &sts[i];
        let ghost prefix = sts@.take(i as int);
        proof {
            reveal(Seq::filter);
            assert(sts@.take(i + 1) =~= prefix.push(sts@[i as int]));
            assert(prefix.push(sts@[i as int]).drop_last() =~= prefix);
            assert(prefix.push(sts@[i as int]).last() == sts@[i as int]);
            if other_ok(sts@[i as int]) {
                assert(sts@.take(i + 1).filter(other_pred()) == prefix.filter(other_pred()).push(sts@[i as int]));
            } else {
                assert(sts@.take(i + 1).filter(other_pred()) == prefix.filter(other_pred()));
            }
        }
        match from_other(comp_id, currency, st) {
            Ok(Some(rec)) => { out.push(rec); },
            _ => {},
        }
        i += 1;
    }
    proof {
        assert(sts@.take(sts@.len() as int) =~= sts@);
    }
    out
}

impl NewEarningsReport {
    /// Normalizes one tagged raw statement batch into the ordered canonical
    /// record sequence: as many records as statements that parsed, in order,
    /// the rest dropped. Statements with a malformed period-ending date are
    /// skipped under the same skip-and-continue policy as malformed fiscal
    /// strings.
    pub fn create_new_entry(comp_id: i32, currency: &str, earnings_enum: Earnings) -> (r: Vec<
        NewEarningsReport,
    >)
        ensures
            match earnings_enum {
                Earnings::Nominal(sts) => normalized_nominal(comp_id as int, currency@, sts@, r@),
                Earnings::Bank(sts) => normalized_bank(comp_id as int, currency@, sts@, r@),
                Earnings::Reits(sts) => normalized_reits(comp_id as int, currency@, sts@, r@),
                Earnings::Other(sts) => normalized_other(comp_id as int, currency@, sts@, r@),
            },
    {
        match earnings_enum {
            Earnings::Nominal(val_vec) => normalize_nominal_batch(comp_id, currency, &val_vec),
            Earnings::Bank(val_vec) => normalize_bank_batch(comp_id, currency, &val_vec),
            Earnings::Reits(val_vec) => normalize_reits_batch(comp_id, currency, &val_vec),
            Earnings::Other(val_vec) => normalize_other_batch(comp_id, currency, &val_vec),
        }
    }
}


/// With every period-ending date well formed, normalizing a batch of N
/// nominal statements of which M have non-matching fiscal strings keeps
/// exactly N - M: the M are dropped, the batch never fails.
pub proof fn lemma_nominal_batch_count(sts: Seq<NominalStatement>)
    requires
        forall|i: int|
            0 <= i < sts.len() ==> date_parse((#[trigger] sts[i]).period_ending@) is Some,
    ensures
        sts.filter(nominal_pred()).len() == sts.len() - sts.filter(
            |st: NominalStatement| !fiscal_matches(st.fiscal_quarter@),
        ).len(),
    decreases sts.len(),
{
    reveal(Seq::filter);
    if sts.len() > 0 {
        let rest = sts.drop_last();
        assert(forall|i: int|
            0 <= i < rest.len() ==> date_parse((#[trigger] rest[i]).period_ending@) is Some);
        lemma_nominal_batch_count(rest);
        assert(date_parse(sts.last().period_ending@) is Some);
        assert(nominal_ok(sts.last()) <==> fiscal_matches(sts.last().fiscal_quarter@));
    }
}


/// With every period-ending date well formed, normalizing a batch of N
/// bank statements of which M have non-matching fiscal strings keeps
/// exactly N - M: the M are dropped, the batch never fails.
pub proof fn lemma_bank_batch_count(sts: Seq<BankStatement>)
    requires
        forall|i: int|
            0 <= i < sts.len() ==> date_parse((#[trigger] sts[i]).period_ending@) is Some,
    ensures
        sts.filter(bank_pred()).len() == sts.len() - sts.filter(
            |st: BankStatement| !fiscal_matches(st.fiscal_quarter@),
        ).len(),
    decreases sts.len(),
{
    reveal(Seq::filter);
    if sts.len() > 0 {
        let rest = sts.drop_last();
        assert(forall|i: int|
            0 <= i < rest.len() ==> date_parse((#[trigger] rest[i]).period_ending@) is Some);
        lemma_bank_batch_count(rest);
        assert(date_parse(sts.last().period_ending@) is Some);
        assert(bank_ok(sts.last()) <==> fiscal_matches(sts.last().fiscal_quarter@));
    }
}


/// With every period-ending date well formed, normalizing a batch of N
/// reits statements of which M have non-matching fiscal strings keeps
/// exactly N - M: the M are dropped, the batch never fails.
pub proof fn lemma_reits_batch_count(sts: Seq<ReitsStatement>)
    requires
        forall|i: int|
            0 <= i < sts.len() ==> date_parse((#[trigger] sts[i]).period_ending@) is Some,
    ensures
        sts.filter(reits_pred()).len() == sts.len() - sts.filter(
            |st: ReitsStatement| !fiscal_matches(st.fiscal_quarter@),
        ).len(),
    decreases sts.len(),
{
    reveal(Seq::filter);
    if sts.len() > 0 {
        let rest = sts.drop_last();
        assert(forall|i: int|
            0 <= i < rest.len() ==> date_parse((#[trigger] rest[i]).period_ending@) is Some);
        lemma_reits_batch_count(rest);
        assert(date_parse(sts.last().period_ending@) is Some);
        assert(reits_ok(sts.last()) <==> fiscal_matches(sts.last().fiscal_quarter@));
    }
}


/// With every period-ending date well formed, normalizing a batch of N
/// other statements of which M have non-matching fiscal strings keeps
/// exactly N - M: the M are dropped, the batch never fails.
pub proof fn lemma_other_batch_count(sts: Seq<OtherStatement>)
    requires
        forall|i: int|
            0 <= i < sts.len() ==> date_parse((#[trigger] sts[i]).period_ending@) is Some,
    ensures
        sts.filter(other_pred()).len() == sts.len() - sts.filter(
            |st: OtherStatement| !fiscal_matches(st.fiscal_quarter@),
        ).len(),
    decreases sts.len(),
{
    reveal(Seq::filter);
    if sts.len() > 0 {
        let rest = sts.drop_last();
        assert(forall|i: int|
            0 <= i < rest.len() ==> date_parse((#[trigger] rest[i]).period_ending@) is Some);
        lemma_other_batch_count(rest);
        assert(date_parse(sts.last().period_ending@) is Some);
        assert(other_ok(sts.last()) <==> fiscal_matches(sts.last().fiscal_quarter@));
    }
}

/// A successfully normalized statement's (year, quarter) pair rebuilds its
/// fiscal-period string character for character: on matching strings, parsing
/// inside normalization is a bijection with rendering.
pub proof fn lemma_normalized_fiscal_round_trip(
    comp_id: int,
    currency: Seq<char>,
    st: NominalStatement,
    rec: NewEarningsReport,
)
    requires
        fiscal_matches(st.fiscal_quarter@),
        nominal_maps_to(comp_id, currency, st, rec),
    ensures
        crate::fiscal::fiscal_seq(rec.year_str as int, rec.quarter_str as int)
            == st.fiscal_quarter@,
{
    crate::fiscal::lemma_fiscal_parse_render(st.fiscal_quarter@);
}

} // verus!
