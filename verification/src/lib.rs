//! Verified logic of a family of lending-pool contracts: pools of one
//! underlying token that lend to borrowers against collateral held in the
//! other pools of a ring, with interest accrual, liquidation, pool shares as
//! a token, flash loans and an admin that feeds prices and parameters.
pub mod wide;
pub mod map;
pub mod account;
pub mod errors;
pub mod structs;
pub mod valuation;
pub mod lasset;
pub mod token;
pub mod finance;
pub mod flash;
pub mod admin;
pub mod assetpool;
pub mod laws;
