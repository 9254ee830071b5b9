//! Verified core of the StellarLend analytics and referral contracts.

pub mod numeric;
pub mod bounded;
pub mod referral;
pub mod analytics;
pub mod gas_benchmarks;
