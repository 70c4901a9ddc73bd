use crate::common::pubkey::Pubkey;
use vstd::prelude::*;

verus! {

/// Recorded once a lend offer has been created.
#[derive(Clone, Debug, PartialEq, Eq)]
pub struct CreateLendOfferEvent {
    pub lender: Pubkey,
    pub interest: u64,
    pub lender_fee_percent: u64,
    pub amount: u64,
    pub duration: u64,
    pub offer_id: String,
    pub tier_id: String,
}

/// Recorded once a lend offer's cancellation has been settled. `amount` is
/// what went back to the lender.
#[derive(Clone, Debug, PartialEq, Eq)]
pub struct LendOfferCanceledEvent {
    pub lender: Pubkey,
    pub amount: u64,
    pub duration: u64,
    pub interest: u64,
    pub lender_fee_percent: u64,
    pub offer_id: String,
}

/// Recorded once a tier configuration has been closed.
#[derive(Clone, Debug, PartialEq, Eq)]
pub struct CloseSettingAccountEvent {
    pub tier_id: String,
}

} // verus!
