//! Core engine of an investment-screening backend: it parses provider fiscal
//! periods, normalizes four statement shapes into one canonical earnings
//! record, derives ratios and year-over-year growth at fixed two-decimal
//! precision, classifies multi-period trends, and decides which refresh path
//! a ticker lookup must take.
//!
//! Monetary amounts are fixed-point `i64` values (any consistent scale);
//! every derived ratio, margin or growth rate is an `i64` holding the value
//! scaled by 100 (two decimal places), rounded half away from zero.
pub mod calc;
pub mod dates;
pub mod derive;
pub mod fiscal;
pub mod normalize;
pub mod orchestrator;
pub mod report;
pub mod screen;
pub mod store;
pub mod trend;
