//! The metrics derivation engine: record-level ratio recompute and
//! year-over-year growth recompute, applied to the store through targeted
//! partial-field updates.
//!
//! Both recomputes are idempotent: the fields they write are disjoint from
//! the fields they read, so recomputing on unchanged inputs reproduces the
//! same record and leaves the derivation flag set. A mandatory margin whose
//! recomputed value is undefined (zero revenue or an unrepresentable result)
//! is left unchanged; every optional derived field resolves to absent in the
//! undefined case.
use vstd::prelude::*;
use crate::calc::calculate_ratio;
use crate::calc::calculate_ratio_as_pct;
use crate::calc::calculate_ratio_as_pct_option;
use crate::calc::calculate_ratio_option;
use crate::calc::calculate_yoy_growth_option;
use crate::calc::ratio_pct_scaled;
use crate::calc::spec_ratio_opt;
use crate::calc::spec_ratio_pct;
use crate::calc::spec_ratio_pct_opt;
use crate::calc::spec_yoy_growth_opt;
use crate::report::EarningsReport;
use crate::report::key_of;
use crate::store::EarningsStore;
use crate::store::has_key;

verus! {

/// A two-decimal value known to fit `i64`, as an optional `i64`.
pub open spec fn as_opt_i64(v: Option<int>) -> Option<i64> {
    match v {
        Some(x) => Some(x as i64),
        None => None,
    }
}

/// A defined recomputed value, or the prior value where undefined.
pub open spec fn or_else_i64(v: Option<int>, prior: i64) -> i64 {
    match v {
        Some(x) => x as i64,
        None => prior,
    }
}

/// Interest-earning assets: total investments plus gross loans, absent when
/// either is absent or the sum leaves `i64`.
pub open spec fn spec_iea(ti: Option<i64>, gl: Option<i64>) -> Option<int> {
    match (ti, gl) {
        (Some(x), Some(y)) => if i64::MIN <= x + y <= i64::MAX {
            Some(x as int + y as int)
        } else {
            None
        },
        _ => None,
    }
}

/// Net interest margin: net interest income as a percentage of
/// interest-earning assets.
pub open spec fn spec_nim(r: EarningsReport) -> Option<int> {
    match (r.net_interest_income, spec_iea(r.total_investments, r.gross_loans)) {
        (Some(n), Some(d)) => spec_ratio_pct(n as int, d),
        _ => None,
    }
}

/// Cost of risk: provision for loan loss as a percentage of gross loans.
pub open spec fn spec_cor(r: EarningsReport) -> Option<int> {
    spec_ratio_pct_opt(r.provision_for_loan_loss, r.gross_loans)
}

/// SGA expenses over gross profit.
pub open spec fn spec_sga_gp_ratio(r: EarningsReport) -> Option<int> {
    spec_ratio_opt(r.sga_expenses, r.gross_profit)
}

/// R&D expenses over gross profit.
pub open spec fn spec_rnd_gp_ratio(r: EarningsReport) -> Option<int> {
    spec_ratio_opt(r.rnd_expenses, r.gross_profit)
}

/// Interest expenses over operating income.
pub open spec fn spec_interest_op_ratio(r: EarningsReport) -> Option<int> {
    spec_ratio_opt(r.interest_expenses, Some(r.operating_income))
}

/// Operating margin: operating income as a percentage of revenue.
pub open spec fn spec_op_margin(r: EarningsReport) -> Option<int> {
    spec_ratio_pct(r.operating_income as int, r.revenue as int)
}

/// Net margin: net income as a percentage of revenue.
pub open spec fn spec_nt_margin(r: EarningsReport) -> Option<int> {
    spec_ratio_pct(r.net_income as int, r.revenue as int)
}

/// FFO margin: funds from operations as a percentage of revenue.
pub open spec fn spec_ffom(r: EarningsReport) -> Option<int> {
    spec_ratio_pct_opt(r.ffo, Some(r.revenue))
}

/// Operating-cash-flow margin as a percentage of revenue.
pub open spec fn spec_ocfm(r: EarningsReport) -> Option<int> {
    spec_ratio_pct_opt(r.operating_cash_flow, Some(r.revenue))
}

/// The stored record after the ratio recompute: the nine derived ratio and
/// margin fields take the values computed from `src`, the ratio flag is set,
/// and every other field keeps its stored value.
pub open spec fn spec_ratio_fields_applied(stored: EarningsReport, src: EarningsReport) -> EarningsReport {
    EarningsReport {
        id: stored.id,
        company_id: stored.company_id,
        duration: stored.duration,
        quarter_str: stored.quarter_str,
        year_str: stored.year_str,
        period_ending: stored.period_ending,
        currency: stored.currency,
        net_interest_income: stored.net_interest_income,
        net_interest_growth_yoy: stored.net_interest_growth_yoy,
        net_interest_margin: as_opt_i64(spec_nim(src)),
        provision_for_loan_loss: stored.provision_for_loan_loss,
        cost_of_risk: as_opt_i64(spec_cor(src)),
        revenue: stored.revenue,
        revenue_growth_yoy: stored.revenue_growth_yoy,
        cost_of_revenue: stored.cost_of_revenue,
        gross_profit: stored.gross_profit,
        gross_margin: stored.gross_margin,
        gross_profit_growth_yoy: stored.gross_profit_growth_yoy,
        sga_expenses: stored.sga_expenses,
        sga_gp_ratio: as_opt_i64(spec_sga_gp_ratio(src)),
        rnd_expenses: stored.rnd_expenses,
        rnd_gp_ratio: as_opt_i64(spec_rnd_gp_ratio(src)),
        operating_expenses: stored.operating_expenses,
        operating_income: stored.operating_income,
        operating_margin: or_else_i64(spec_op_margin(src), stored.operating_margin),
        interest_expenses: stored.interest_expenses,
        interest_expenses_op_income_ratio: as_opt_i64(spec_interest_op_ratio(src)),
        goodwill_impairment: stored.goodwill_impairment,
        net_income: stored.net_income,
        net_margin: or_else_i64(spec_nt_margin(src), stored.net_margin),
        eps_basic: stored.eps_basic,
        eps_diluted: stored.eps_diluted,
        shares_outstanding_basic: stored.shares_outstanding_basic,
        shares_outstanding_diluted: stored.shares_outstanding_diluted,
        shares_change_yoy: stored.shares_change_yoy,
        ffo: stored.ffo,
        ffo_margin: as_opt_i64(spec_ffom(src)),
        cash_and_equivalents: stored.cash_and_equivalents,
        cash_and_short_term_investments: stored.cash_and_short_term_investments,
        total_investments: stored.total_investments,
        gross_loans: stored.gross_loans,
        accounts_receivable: stored.accounts_receivable,
        inventory: stored.inventory,
        total_current_assets: stored.total_current_assets,
        goodwill: stored.goodwill,
        total_assets: stored.total_assets,
        accounts_payable: stored.accounts_payable,
        total_current_liabilities: stored.total_current_liabilities,
        total_liabilities: stored.total_liabilities,
        retained_earnings: stored.retained_earnings,
        shareholders_equity: stored.shareholders_equity,
        total_debt: stored.total_debt,
        net_cash: stored.net_cash,
        depreciation_and_amortization: stored.depreciation_and_amortization,
        stock_based_compensation: stored.stock_based_compensation,
        operating_cash_flow: stored.operating_cash_flow,
        operating_cash_flow_margin: as_opt_i64(spec_ocfm(src)),
        capital_expenditure: stored.capital_expenditure,
        investing_cash_flow: stored.investing_cash_flow,
        financing_cash_flow: stored.financing_cash_flow,
        free_cash_flow: stored.free_cash_flow,
        free_cash_flow_margin: stored.free_cash_flow_margin,
        ratio_calculated: true,
        growth_calculated: stored.growth_calculated,
    }
}

/// The stored record after the growth recompute: the two growth fields take
/// the values computed from `src` and the prior-year operands, the growth
/// flag is set, and every other field keeps its stored value.
pub open spec fn spec_growth_fields_applied(stored: EarningsReport, src: EarningsReport, prev_gp: Option<i64>, prev_nii: Option<i64>) -> EarningsReport {
    EarningsReport {
        id: stored.id,
        company_id: stored.company_id,
        duration: stored.duration,
        quarter_str: stored.quarter_str,
        year_str: stored.year_str,
        period_ending: stored.period_ending,
        currency: stored.currency,
        net_interest_income: stored.net_interest_income,
        net_interest_growth_yoy: as_opt_i64(spec_yoy_growth_opt(src.net_interest_income, prev_nii)),
        net_interest_margin: stored.net_interest_margin,
        provision_for_loan_loss: stored.provision_for_loan_loss,
        cost_of_risk: stored.cost_of_risk,
        revenue: stored.revenue,
        revenue_growth_yoy: stored.revenue_growth_yoy,
        cost_of_revenue: stored.cost_of_revenue,
        gross_profit: stored.gross_profit,
        gross_margin: stored.gross_margin,
        gross_profit_growth_yoy: as_opt_i64(spec_yoy_growth_opt(src.gross_profit, prev_gp)),
        sga_expenses: stored.sga_expenses,
        sga_gp_ratio: stored.sga_gp_ratio,
        rnd_expenses: stored.rnd_expenses,
        rnd_gp_ratio: stored.rnd_gp_ratio,
        operating_expenses: stored.operating_expenses,
        operating_income: stored.operating_income,
        operating_margin: stored.operating_margin,
        interest_expenses: stored.interest_expenses,
        interest_expenses_op_income_ratio: stored.interest_expenses_op_income_ratio,
        goodwill_impairment: stored.goodwill_impairment,
        net_income: stored.net_income,
        net_margin: stored.net_margin,
        eps_basic: stored.eps_basic,
        eps_diluted: stored.eps_diluted,
        shares_outstanding_basic: stored.shares_outstanding_basic,
        shares_outstanding_diluted: stored.shares_outstanding_diluted,
        shares_change_yoy: stored.shares_change_yoy,
        ffo: stored.ffo,
        ffo_margin: stored.ffo_margin,
        cash_and_equivalents: stored.cash_and_equivalents,
        cash_and_short_term_investments: stored.cash_and_short_term_investments,
        total_investments: stored.total_investments,
        gross_loans: stored.gross_loans,
        accounts_receivable: stored.accounts_receivable,
        inventory: stored.inventory,
        total_current_assets: stored.total_current_assets,
        goodwill: stored.goodwill,
        total_assets: stored.total_assets,
        accounts_payable: stored.accounts_payable,
        total_current_liabilities: stored.total_current_liabilities,
        total_liabilities: stored.total_liabilities,
        retained_earnings: stored.retained_earnings,
        shareholders_equity: stored.shareholders_equity,
        total_debt: stored.total_debt,
        net_cash: stored.net_cash,
        depreciation_and_amortization: stored.depreciation_and_amortization,
        stock_based_compensation: stored.stock_based_compensation,
        operating_cash_flow: stored.operating_cash_flow,
        operating_cash_flow_margin: stored.operating_cash_flow_margin,
        capital_expenditure: stored.capital_expenditure,
        investing_cash_flow: stored.investing_cash_flow,
        financing_cash_flow: stored.financing_cash_flow,
        free_cash_flow: stored.free_cash_flow,
        free_cash_flow_margin: stored.free_cash_flow_margin,
        ratio_calculated: stored.ratio_calculated,
        growth_calculated: true,
    }
}

/// The prior-year key a record's growth recompute looks up.
pub open spec fn prev_year_key(r: EarningsReport) -> (int, crate::report::Duration, int, int) {
    (r.company_id as int, r.duration, r.quarter_str as int, r.year_str as int - 1)
}

/// The prior-year operands a growth recompute uses: the gross profit and net
/// interest income of the stored record under the prior-year key, both absent
/// when no such record is stored.
pub open spec fn spec_prev_lookup(
    recs: Seq<EarningsReport>,
    src: EarningsReport,
    gp: Option<i64>,
    nii: Option<i64>,
) -> bool {
    if has_key(recs, prev_year_key(src)) {
        exists|i: int|
            0 <= i < recs.len() && key_of(#[trigger] recs[i]) == prev_year_key(src) && gp
                == recs[i].gross_profit && nii == recs[i].net_interest_income
    } else {
        gp is None && nii is None
    }
}

/// The ratio recompute never unsets the flag and never touches its own
/// inputs, so recomputing on the unchanged record reproduces it exactly.
pub proof fn lemma_ratio_recompute_idempotent(r: EarningsReport)
    ensures
        spec_ratio_fields_applied(
            spec_ratio_fields_applied(r, r),
            spec_ratio_fields_applied(r, r),
        ) == spec_ratio_fields_applied(r, r),
        spec_ratio_fields_applied(r, r).ratio_calculated,
{
}

/// The growth recompute never unsets the flag and never touches its own
/// inputs, so recomputing with the same prior-year operands reproduces the
/// record exactly.
pub proof fn lemma_growth_recompute_idempotent(
    r: EarningsReport,
    prev_gp: Option<i64>,
    prev_nii: Option<i64>,
)
    ensures
        spec_growth_fields_applied(
            spec_growth_fields_applied(r, r, prev_gp, prev_nii),
            spec_growth_fields_applied(r, r, prev_gp, prev_nii),
            prev_gp,
            prev_nii,
        ) == spec_growth_fields_applied(r, r, prev_gp, prev_nii),
        spec_growth_fields_applied(r, r, prev_gp, prev_nii).growth_calculated,
{
}


/// A recompute mutates only derived fields and the bookkeeping flags: the
/// identifying (company, duration, quarter, year) tuple, the id and every
/// provider-supplied field of the stored row survive both recomputes.
pub proof fn lemma_recompute_preserves_identity(
    stored: EarningsReport,
    src: EarningsReport,
    prev_gp: Option<i64>,
    prev_nii: Option<i64>,
)
    ensures
        key_of(spec_ratio_fields_applied(stored, src)) == key_of(stored),
        spec_ratio_fields_applied(stored, src).id == stored.id,
        spec_ratio_fields_applied(stored, src).revenue == stored.revenue,
        spec_ratio_fields_applied(stored, src).net_income == stored.net_income,
        spec_ratio_fields_applied(stored, src).gross_profit == stored.gross_profit,
        key_of(spec_growth_fields_applied(stored, src, prev_gp, prev_nii)) == key_of(stored),
        spec_growth_fields_applied(stored, src, prev_gp, prev_nii).id == stored.id,
        spec_growth_fields_applied(stored, src, prev_gp, prev_nii).revenue == stored.revenue,
        spec_growth_fields_applied(stored, src, prev_gp, prev_nii).ratio_calculated
            == stored.ratio_calculated,
{
}

impl EarningsReport {
    /// Recomputes the nine derived ratio and margin fields of this record's
    /// stored row from this record's values, sets the ratio flag, and leaves
    /// every other row and field unchanged. Reports whether the row exists.
    pub fn update_ratios(&self, store: &mut EarningsStore) -> (found: bool)
        requires
            old(store).wf(),
        ensures
            final(store).wf(),
            found <==> 1 <= self.id as int <= old(store).recs().len(),
            !found ==> final(store).recs() == old(store).recs(),
            found ==> final(store).recs() =~= old(store).recs().update(
                self.id as int - 1,
                spec_ratio_fields_applied(old(store).recs()[self.id as int - 1], *self),
            ),
    {
        let iea: Option<i64> = match (self.total_investments, self.gross_loans) {
            (Some(x), Some(y)) => x.checked_add(y),
            _ => None,
        };
        let nim = calculate_ratio_as_pct_option(self.net_interest_income, iea);
        let cor = calculate_ratio_as_pct_option(self.provision_for_loan_loss, self.gross_loans);
        let sga_ratio = calculate_ratio_option(self.sga_expenses, self.gross_profit);
        let rnd_ratio = calculate_ratio_option(self.rnd_expenses, self.gross_profit);
        let interest_ratio = calculate_ratio(self.interest_expenses, self.operating_income);
        let op_margin = ratio_pct_scaled(self.operating_income, self.revenue);
        let nt_margin = ratio_pct_scaled(self.net_income, self.revenue);
        let ffom = calculate_ratio_as_pct(self.ffo, self.revenue);
        let ocfm = calculate_ratio_as_pct(self.operating_cash_flow, self.revenue);
        match store.row_index(self.id) {
            Some(idx) => {
                let mut updated = store.take_row(idx);
                updated.net_interest_margin = nim;
                updated.cost_of_risk = cor;
                updated.sga_gp_ratio = sga_ratio;
                updated.rnd_gp_ratio = rnd_ratio;
                updated.interest_expenses_op_income_ratio = interest_ratio;
                updated.operating_margin = match op_margin {
                    Some(v) => v,
                    None => updated.operating_margin,
                };
                updated.net_margin = match nt_margin {
                    Some(v) => v,
                    None => updated.net_margin,
                };
                updated.ffo_margin = ffom;
                updated.operating_cash_flow_margin = ocfm;
                updated.ratio_calculated = true;
                proof {
                    assert(updated == spec_ratio_fields_applied(
                        old(store).recs()[self.id as int - 1],
                        *self,
                    ));
                }
                store.put_row(idx, updated);
                true
            },
            None => false,
        }
    }

    /// Recomputes the two year-over-year growth fields of this record's
    /// stored row: looks up the same-quarter prior-year record, derives the
    /// growth operands from it (absent when it is missing), sets the growth
    /// flag, and leaves every other row and field unchanged. Reports whether
    /// the row exists.
    pub fn update_yoy_growth(&self, store: &mut EarningsStore) -> (found: bool)
        requires
            old(store).wf(),
        ensures
            final(store).wf(),
            found <==> 1 <= self.id as int <= old(store).recs().len(),
            !found ==> final(store).recs() == old(store).recs(),
            found ==> exists|gp: Option<i64>, nii: Option<i64>|
                spec_prev_lookup(old(store).recs(), *self, gp, nii) && final(store).recs()
                    =~= old(store).recs().update(
                    self.id as int - 1,
                    spec_growth_fields_applied(
                        old(store).recs()[self.id as int - 1],
                        *self,
                        gp,
                        nii,
                    ),
                ),
    {
        let prev_year_data = self.same_quarter_prev_year_data(store);
        let prev_gross_profit: Option<i64> = match &prev_year_data {
            Some(data) => data.gross_profit,
            None => None,
        };
        let prev_net_interest_income: Option<i64> = match &prev_year_data {
            Some(data) => data.net_interest_income,
            None => None,
        };
        let gp_growth = calculate_yoy_growth_option(self.gross_profit, prev_gross_profit);
        let net_interest_income_growth = calculate_yoy_growth_option(
            self.net_interest_income,
            prev_net_interest_income,
        );
        proof {
            assert(spec_prev_lookup(
                store.recs(),
                *self,
                prev_gross_profit,
                prev_net_interest_income,
            ));
        }
        match store.row_index(self.id) {
            Some(idx) => {
                let mut updated = store.take_row(idx);
                updated.net_interest_growth_yoy = net_interest_income_growth;
                updated.gross_profit_growth_yoy = gp_growth;
                updated.growth_calculated = true;
                proof {
                    assert(updated == spec_growth_fields_applied(
                        old(store).recs()[self.id as int - 1],
                        *self,
                        prev_gross_profit,
                        prev_net_interest_income,
                    ));
                }
                store.put_row(idx, updated);
                true
            },
            None => false,
        }
    }
}

} // verus!
