use crate::common::config::Config;
use crate::common::error::LendOfferError;
use crate::common::event::CreateLendOfferEvent;
use crate::common::pubkey::Pubkey;
use crate::engine::amount::{pow10, scale_amount, scaled_amount};
use crate::states::lend_offer::{LendOfferAccount, LendOfferStatus};
use crate::states::setting_account::SettingAccount;
use crate::states::token::{Asset, Mint, TokenAccount, TransferChecked};
use vstd::prelude::*;

verus! {

/// The records that the creation of a lend offer works on.
#[derive(Clone, Debug, PartialEq, Eq)]
pub struct CreateLendOffer {
    /// Who makes the offer and pays the escrow.
    pub lender: Pubkey,
    /// The asset registered for lending.
    pub lend_asset: Asset,
    /// The asset that the lender posts.
    pub mint_asset: Mint,
    /// The lender's balance of the posted asset.
    pub lender_ata_asset: TokenAccount,
    /// The tier under which the offer is made.
    pub setting_account: SettingAccount,
    /// The custody balance that takes the escrow.
    pub hot_wallet_ata: TokenAccount,
}

/// What the creation of a lend offer leaves behind: the offer to persist, the
/// deposit to carry out, and the event to record once both are done.
#[derive(Clone, Debug, PartialEq, Eq)]
pub struct LendOfferCreated {
    pub lend_offer: LendOfferAccount,
    pub deposit: TransferChecked,
    pub event: CreateLendOfferEvent,
}

impl CreateLendOffer {
    /// The amount to escrow: the tier's amount in the posted asset's smallest
    /// units.
    pub open spec fn escrow(&self) -> int {
        scaled_amount(self.setting_account.amount as int, self.mint_asset.decimals as nat)
    }

    /// Why an offer at `interest` is turned down, if it is: the first of the
    /// checks, in this order, that fails.
    pub open spec fn rejection(&self, config: &Config, interest: u64) -> Option<LendOfferError> {
        if interest == 0 {
            Some(LendOfferError::InterestGreaterThanZero)
        } else if interest >= config.max_allowed_interest {
            Some(LendOfferError::InterestOverLimit)
        } else if self.mint_asset.key != self.lend_asset.token_mint {
            Some(LendOfferError::InvalidMintAsset)
        } else if self.lender_ata_asset.amount < self.setting_account.amount {
            Some(LendOfferError::NotEnoughAmount)
        } else if self.escrow() > u64::MAX {
            Some(LendOfferError::InvalidLendAmount)
        } else {
            None
        }
    }

    /// The offer that a successful creation persists.
    pub open spec fn created_offer(&self, bump: u8, offer_id: String, interest: u64)
        -> LendOfferAccount {
        LendOfferAccount {
            interest,
            lender_fee_percent: self.setting_account.lender_fee_percent,
            duration: self.setting_account.duration,
            offer_id,
            lender: self.lender,
            lend_mint_token: self.mint_asset.key,
            amount: self.escrow() as u64,
            bump,
            status: LendOfferStatus::Created,
        }
    }

    /// The deposit that a successful creation orders: the escrow, from the
    /// lender's balance into custody.
    pub open spec fn deposit_order(&self) -> TransferChecked {
        TransferChecked {
            from: self.lender_ata_asset.key,
            mint: self.mint_asset.key,
            to: self.hot_wallet_ata.key,
            authority: self.lender,
            amount: self.escrow() as u64,
            decimals: self.mint_asset.decimals,
        }
    }

    /// Creates a lend offer under the tier, at `interest`.
    ///
    /// The offer is turned down with the error of [`Self::rejection`], and
    /// created otherwise: in status `Created`, on the tier's terms, for
    /// exactly the tier's amount times ten to the power of the asset's
    /// decimals, which is also what the deposit moves.
    pub fn create_lend_offer(
        &self,
        config: &Config,
        bump: u8,
        offer_id: String,
        interest: u64,
    ) -> (result: Result<LendOfferCreated, LendOfferError>)
        ensures
            match result {
                Ok(created) => {
                    &&& self.rejection(config, interest) is None
                    &&& created.lend_offer == self.created_offer(bump, offer_id, interest)
                    &&& created.lend_offer.amount == self.setting_account.amount * pow10(
                        self.mint_asset.decimals as nat,
                    )
                    &&& created.lend_offer.interest_in_range(config.max_allowed_interest)
                    &&& created.deposit == self.deposit_order()
                    &&& created.event == (CreateLendOfferEvent {
                        lender: self.lender,
                        interest,
                        lender_fee_percent: self.setting_account.lender_fee_percent,
                        amount: self.escrow() as u64,
                        duration: self.setting_account.duration,
                        offer_id,
                        tier_id: self.setting_account.tier_id,
                    })
                },
                Err(e) => self.rejection(config, interest) == Some(e),
            },
    {
        if interest == 0 {
            return Err(LendOfferError::InterestGreaterThanZero);
        }
        if interest >= config.max_allowed_interest {
            return Err(LendOfferError::InterestOverLimit);
        }
        if self.mint_asset.key != self.lend_asset.token_mint {
            return Err(LendOfferError::InvalidMintAsset);
        }
        if self.lender_ata_asset.amount < self.setting_account.amount {
            return Err(LendOfferError::NotEnoughAmount);
        }
        let amount: u64 = match scale_amount(self.setting_account.amount, self.mint_asset.decimals) {
            Some(amount) => amount,
            None => {
                return Err(LendOfferError::InvalidLendAmount);
            },
        };
        let event = CreateLendOfferEvent {
            lender: self.lender,
            interest,
            lender_fee_percent: self.setting_account.lender_fee_percent,
            amount,
            duration: self.setting_account.duration,
            offer_id: offer_id.clone(),
            tier_id: self.setting_account.tier_id.clone(),
        };
        let lend_offer = LendOfferAccount {
            interest,
            lender_fee_percent: self.setting_account.lender_fee_percent,
            duration: self.setting_account.duration,
            offer_id,
            lender: self.lender,
            lend_mint_token: self.mint_asset.key,
            amount,
            bump,
            status: LendOfferStatus::Created,
        };
        let deposit = TransferChecked {
            from: self.lender_ata_asset.key,
            mint: self.mint_asset.key,
            to: self.hot_wallet_ata.key,
            authority: self.lender,
            amount,
            decimals: self.mint_asset.decimals,
        };
        Ok(LendOfferCreated { lend_offer, deposit, event })
    }

    /// With the right asset, a sufficient balance and an escrow that fits,
    /// an offer is created exactly when its interest lies strictly between
    /// zero and the allowed maximum.
    pub proof fn lemma_created_iff_interest_in_range(&self, config: &Config, interest: u64)
        requires
            self.mint_asset.key == self.lend_asset.token_mint,
            self.lender_ata_asset.amount >= self.setting_account.amount,
            self.escrow() <= u64::MAX,
        ensures
            self.rejection(config, interest) is None <==> 0 < interest
                < config.max_allowed_interest,
            interest == 0 ==> self.rejection(config, interest) == Some(
                LendOfferError::InterestGreaterThanZero,
            ),
            interest >= config.max_allowed_interest && interest > 0 ==> self.rejection(
                config,
                interest,
            ) == Some(LendOfferError::InterestOverLimit),
    {
    }
}

} // verus!
