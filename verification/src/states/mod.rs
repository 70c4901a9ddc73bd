//! The records of the ledger and the messages it exchanges, each with the
//! transitions it allows.

pub mod collateral_payload;
pub mod emitter;
pub mod lend_offer;
pub mod loan_offer;
pub mod setting_account;
pub mod token;
pub mod wormhole_message;
