use crate::common::pubkey::Pubkey;
use vstd::prelude::*;

verus! {

/// A tier: the terms under which lend offers of one size are made.
///
/// `amount` is in whole units of the lend asset, `lender_fee_percent` in the
/// fixed-point unit of [`WHOLE`](crate::common::constant::WHOLE), `duration`
/// in seconds. `receiver` is the authority of the custody balance.
#[derive(Clone, Debug, PartialEq, Eq)]
pub struct SettingAccount {
    pub amount: u64,
    pub duration: u64,
    pub owner: Pubkey,
    pub receiver: Pubkey,
    pub lender_fee_percent: u64,
    pub tier_id: String,
    pub bump: u8,
}

} // verus!
