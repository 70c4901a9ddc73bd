//! The operations of the ledger. Each one takes the records it works on,
//! changes them only if every check passes, and returns what the caller has
//! to carry out.

pub mod activate_loan_offer;
pub mod cancel_lend_offer;
pub mod close_setting_account;
pub mod create_lend_offer;
pub mod create_loan_offer;
pub mod deposit_collateral;
pub mod liquidate_loan_offer;
pub mod repay_loan_offer;
pub mod system_cancel_lend_offer;
pub mod verify_attestation;
pub mod withdraw_expired_loan_offer;
