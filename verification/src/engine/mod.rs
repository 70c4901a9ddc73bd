//! The arithmetic of the ledger: amounts and their decimals, asset values and
//! health ratios, interest and fees. Pure functions, exact or rounded down
//! once.

pub mod amount;
pub mod health;
pub mod interest;
