use crate::common::pubkey::Pubkey;
use vstd::prelude::*;

verus! {

/// An asset as the custody ledger declares it.
#[derive(Clone, Copy, Debug, PartialEq, Eq)]
pub struct Mint {
    pub key: Pubkey,
    pub decimals: u8,
}

/// A balance of one asset, as last read from the custody ledger.
#[derive(Clone, Copy, Debug, PartialEq, Eq)]
pub struct TokenAccount {
    pub key: Pubkey,
    pub mint: Pubkey,
    pub owner: Pubkey,
    pub amount: u64,
}

/// An asset that the ledger accepts, registered under its mint.
#[derive(Clone, Copy, Debug, PartialEq, Eq)]
pub struct Asset {
    pub token_mint: Pubkey,
    pub decimals: u8,
}

/// An order to the custody ledger: move `amount` smallest units of `mint` from
/// one balance to another, on behalf of `authority`. The ledger checks mint
/// and decimals against its own record and the amount against the balance.
#[derive(Clone, Copy, Debug, PartialEq, Eq)]
pub struct TransferChecked {
    pub from: Pubkey,
    pub mint: Pubkey,
    pub to: Pubkey,
    pub authority: Pubkey,
    pub amount: u64,
    pub decimals: u8,
}

} // verus!
