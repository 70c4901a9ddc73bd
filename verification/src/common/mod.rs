//! What every part of the ledger shares: addresses, settings, units,
//! rejections and events.

pub mod config;
pub mod constant;
pub mod error;
pub mod event;
pub mod pubkey;
