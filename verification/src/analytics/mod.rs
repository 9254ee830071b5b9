//! Protocol-wide and per-user analytics, reporting, activity tracking,
//! metric history and alerts, collateral ratio monitoring, position
//! simulation and lender budget planning.
//!
//! All of it reads and writes an `AnalyticsStore`, the contract storage
//! that the analytics own together with the records of the lending modules
//! that they read. The ledger time of a call is passed as `now`.

pub mod types;
pub mod store;


pub mod protocol;
pub mod users;
pub mod activity;
pub mod history;
pub mod collateral;
pub mod simulation;
pub mod budget;
pub mod reports;
