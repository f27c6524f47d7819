//! What holds of the contract as a whole.

pub mod access;
pub mod announcements;
pub mod consistency;
pub mod effects;
pub mod footprint;
pub mod funds;
pub mod history;
pub mod lifecycle;
pub mod payments;
pub mod queries;
pub mod reading;
pub mod records;
pub mod splits;
pub mod upkeep;
pub mod verdicts;
