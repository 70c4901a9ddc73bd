use crate::common::config::Config;
use crate::common::error::LendOfferError;
use crate::common::event::LendOfferCanceledEvent;
use crate::common::pubkey::Pubkey;
use crate::engine::interest::{get_total_repay, total_repay_spec};
use crate::states::lend_offer::{LendOfferAccount, LendOfferStatus, LendOfferTransition};
use crate::states::token::{Mint, TokenAccount, TransferChecked};
use vstd::prelude::*;

verus! {

/// The records that the settlement of a cancellation works on.
#[derive(Clone, Debug, PartialEq, Eq)]
pub struct SystemCancelLendOffer {
    /// The lender who gets the escrow back.
    pub lender: Pubkey,
    /// The lender's balance of the lend asset.
    pub lender_ata_asset: TokenAccount,
    /// The asset that is paid back.
    pub mint_asset: Mint,
    pub lend_offer: LendOfferAccount,
    /// Who settles.
    pub system: Pubkey,
    /// The balance that the settlement is paid from.
    pub system_ata: TokenAccount,
}

/// What the settlement of a cancellation leaves behind: the refund to carry
/// out and the event to record once it is done.
#[derive(Clone, Debug, PartialEq, Eq)]
pub struct LendOfferCanceled {
    pub refund: TransferChecked,
    pub event: LendOfferCanceledEvent,
}

impl SystemCancelLendOffer {
    /// What the lender is owed: the escrow and the interest that has been
    /// waiting on it.
    pub open spec fn total_repay(&self, waiting_interest: u64) -> int {
        total_repay_spec(self.lend_offer.amount as int, waiting_interest as int)
    }

    /// Why the settlement is turned down, if it is: the first of the checks,
    /// in this order, that fails.
    pub open spec fn rejection(&self, config: &Config, waiting_interest: u64) -> Option<
        LendOfferError,
    > {
        if self.system != config.system_operator {
            Some(LendOfferError::InvalidSigner)
        } else if self.lender != self.lend_offer.lender {
            Some(LendOfferError::InvalidLender)
        } else if self.mint_asset.key != self.lend_offer.lend_mint_token {
            Some(LendOfferError::InvalidMintAsset)
        } else if self.lend_offer.status.next(LendOfferTransition::ExecuteCancel) is None {
            Some(LendOfferError::InvalidOfferStatus)
        } else if self.total_repay(waiting_interest) > self.system_ata.amount {
            Some(LendOfferError::NotEnoughAmount)
        } else {
            None
        }
    }

    /// The operator settles a requested cancellation.
    ///
    /// A `Canceling` offer goes to `Canceled`, and exactly the escrow plus
    /// `waiting_interest` is ordered from the operator's balance to the
    /// lender's. Any other settlement is turned down with the error of
    /// [`Self::rejection`] and leaves the records as they were.
    pub fn system_cancel_lend_offer(
        &mut self,
        config: &Config,
        waiting_interest: u64,
    ) -> (result: Result<LendOfferCanceled, LendOfferError>)
        ensures
            match result {
                Ok(canceled) => {
                    &&& old(self).rejection(config, waiting_interest) is None
                    &&& old(self).lend_offer.status == LendOfferStatus::Canceling
                    &&& *final(self) == (SystemCancelLendOffer {
                        lend_offer: LendOfferAccount {
                            status: LendOfferStatus::Canceled,
                            ..old(self).lend_offer
                        },
                        ..*old(self)
                    })
                    &&& canceled.refund == (TransferChecked {
                        from: old(self).system_ata.key,
                        mint: old(self).mint_asset.key,
                        to: old(self).lender_ata_asset.key,
                        authority: old(self).system,
                        amount: old(self).total_repay(waiting_interest) as u64,
                        decimals: old(self).mint_asset.decimals,
                    })
                    &&& canceled.refund.amount == old(self).lend_offer.amount + waiting_interest
                    &&& canceled.event == (LendOfferCanceledEvent {
                        lender: old(self).lender,
                        amount: old(self).total_repay(waiting_interest) as u64,
                        duration: old(self).lend_offer.duration,
                        interest: old(self).lend_offer.interest,
                        lender_fee_percent: old(self).lend_offer.lender_fee_percent,
                        offer_id: old(self).lend_offer.offer_id,
                    })
                },
                Err(e) => old(self).rejection(config, waiting_interest) == Some(e) && *final(self)
                    == *old(self),
            },
    {
        if !config.is_system_operator(&self.system) {
            return Err(LendOfferError::InvalidSigner);
        }
        if self.lender != self.lend_offer.lender {
            return Err(LendOfferError::InvalidLender);
        }
        if self.mint_asset.key != self.lend_offer.lend_mint_token {
            return Err(LendOfferError::InvalidMintAsset);
        }
        let status = self.lend_offer.status.transition(LendOfferTransition::ExecuteCancel)?;
        let total_repay: u128 = get_total_repay(self.lend_offer.amount, waiting_interest);
        if total_repay > self.system_ata.amount as u128 {
            return Err(LendOfferError::NotEnoughAmount);
        }
        let amount: u64 = total_repay as u64;
        let refund = TransferChecked {
            from: self.system_ata.key,
            mint: self.mint_asset.key,
            to: self.lender_ata_asset.key,
            authority: self.system,
            amount,
            decimals: self.mint_asset.decimals,
        };
        let event = LendOfferCanceledEvent {
            lender: self.lender,
            amount,
            duration: self.lend_offer.duration,
            interest: self.lend_offer.interest,
            lender_fee_percent: self.lend_offer.lender_fee_percent,
            offer_id: self.lend_offer.offer_id.clone(),
        };
        self.lend_offer.status = status;
        Ok(LendOfferCanceled { refund, event })
    }

    /// Cancel ordering: a settlement goes through only on an offer that is
    /// `Canceling`, that is, one whose lender has asked for cancellation. On
    /// an offer that is still `Created` it fails with `InvalidOfferStatus`,
    /// whoever else is in order and however much the operator holds.
    pub proof fn lemma_settles_only_after_request(&self, config: &Config, waiting_interest: u64)
        ensures
            self.rejection(config, waiting_interest) is None ==> self.lend_offer.status
                == LendOfferStatus::Canceling,
            self.system == config.system_operator && self.lender == self.lend_offer.lender
                && self.mint_asset.key == self.lend_offer.lend_mint_token
                && self.lend_offer.status == LendOfferStatus::Created ==> self.rejection(
                config,
                waiting_interest,
            ) == Some(LendOfferError::InvalidOfferStatus),
    {
    }

    /// What is refunded is the escrow plus the waiting interest, exactly, for
    /// every pair of amounts: the sum is never rounded and never wraps.
    pub proof fn lemma_total_repay_exact(&self, waiting_interest: u64)
        ensures
            self.total_repay(waiting_interest) == self.lend_offer.amount + waiting_interest,
    {
    }
}

} // verus!
