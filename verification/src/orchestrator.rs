//! The staleness-driven refresh orchestrator: a decision table, evaluated
//! fresh on every ticker lookup, that picks which refresh path to run.
//!
//! When an earnings update is due, a missing trailing-twelve-month record or
//! one already at the third quarter (the domain convention signalling that
//! the next full-year statement is expected) selects the full backfill path;
//! any other existing record selects the incremental path. When only a
//! regular (non-earnings) update is due, the regular path runs; otherwise the
//! annual derived metrics are recomputed so the response stays consistent.
use vstd::prelude::*;
use crate::report::EarningsReport;
use crate::store::EarningsStore;

verus! {

/// The refresh path a lookup must take.
#[derive(Clone, Copy, PartialEq, Eq, Structural, Debug)]
pub enum RefreshAction {
    /// Normalize and persist the complete statement history, then recompute
    /// annual derived metrics.
    FullBackfill,
    /// Normalize and persist only the latest trailing-twelve-month statement,
    /// then recompute its derived metrics.
    IncrementalTtm,
    /// Run the regular non-earnings update, then recompute annual derived
    /// metrics.
    RegularUpdate,
    /// Recompute annual derived metrics only.
    RecomputeAnnualOnly,
}

/// The decision table: earnings updates dominate, and within them a missing
/// or third-quarter trailing-twelve-month record forces the full backfill.
pub open spec fn spec_decide_refresh(
    earnings_update_needed: bool,
    regular_update_needed: bool,
    latest_ttm_quarter: Option<i16>,
) -> RefreshAction {
    if earnings_update_needed {
        match latest_ttm_quarter {
            None => RefreshAction::FullBackfill,
            Some(q) => if q == 3 {
                RefreshAction::FullBackfill
            } else {
                RefreshAction::IncrementalTtm
            },
        }
    } else if regular_update_needed {
        RefreshAction::RegularUpdate
    } else {
        RefreshAction::RecomputeAnnualOnly
    }
}

/// Decides the refresh path from the two staleness predicates and the quarter
/// of the latest stored trailing-twelve-month record, if any.
pub fn decide_refresh(
    earnings_update_needed: bool,
    regular_update_needed: bool,
    latest_ttm_quarter: Option<i16>,
) -> (a: RefreshAction)
    ensures
        a == spec_decide_refresh(
            earnings_update_needed,
            regular_update_needed,
            latest_ttm_quarter,
        ),
{
    if earnings_update_needed {
        match latest_ttm_quarter {
            None => RefreshAction::FullBackfill,
            Some(q) => if q == 3 {
                RefreshAction::FullBackfill
            } else {
                RefreshAction::IncrementalTtm
            },
        }
    } else if regular_update_needed {
        RefreshAction::RegularUpdate
    } else {
        RefreshAction::RecomputeAnnualOnly
    }
}

/// Decides the refresh path for a company directly from the store: looks up
/// the latest trailing-twelve-month record and applies the decision table to
/// its quarter.
pub fn decide_refresh_for(
    store: &EarningsStore,
    company_id: i32,
    earnings_update_needed: bool,
    regular_update_needed: bool,
) -> (a: RefreshAction)
    ensures
        exists|q: Option<i16>|
            #[trigger] spec_latest_ttm_quarter(store, company_id as int, q) && a
                == spec_decide_refresh(earnings_update_needed, regular_update_needed, q),
{
    let latest = EarningsReport::latest_quarter_data_if_existed(company_id, store);
    let q: Option<i16> = match &latest {
        Some(earnings) => Some(earnings.quarter_str),
        None => None,
    };
    proof {
        assert(spec_latest_ttm_quarter(store, company_id as int, q));
    }
    decide_refresh(earnings_update_needed, regular_update_needed, q)
}

/// `q` is the quarter of a latest trailing-twelve-month record of the
/// company, or nothing when the company has none.
pub open spec fn spec_latest_ttm_quarter(
    store: &EarningsStore,
    comp: int,
    q: Option<i16>,
) -> bool {
    if exists|j: int|
        0 <= j < store.recs().len() && crate::store::matches_cd(
            #[trigger] store.recs()[j],
            comp,
            crate::report::Duration::Ttm,
        ) {
        exists|i: int|
            crate::store::is_latest(store.recs(), i, comp, crate::report::Duration::Ttm, true)
                && q == Some((#[trigger] store.recs()[i]).quarter_str)
    } else {
        q is None
    }
}

/// With an earnings update due and no existing trailing-twelve-month record,
/// the full backfill path is selected, never the incremental one, whether or
/// not a regular update is also due.
pub proof fn lemma_backfill_when_no_ttm(earnings_update_needed: bool, regular_update_needed: bool)
    requires
        earnings_update_needed,
    ensures
        spec_decide_refresh(earnings_update_needed, regular_update_needed, None)
            == RefreshAction::FullBackfill,
        spec_decide_refresh(earnings_update_needed, regular_update_needed, None)
            != RefreshAction::IncrementalTtm,
{
}

} // verus!
