//! Verified core of a pooled lending protocol: token reserves, sub markets,
//! per-user tab accounts, interest indexes, fee splitting, borrowing limits and
//! liquidation arithmetic.
pub mod errors;
pub mod structs;
pub mod rates;
pub mod fixed_point;
pub mod interest;
pub mod user_interest;
pub mod oracle;
pub mod initialization;
pub mod validation;
pub mod steps;
pub mod lending;
pub mod liquidation;
pub mod cross_liquidation;
pub mod health;
pub mod fees;
pub mod admin;
pub mod laws;
pub mod price_mock;
