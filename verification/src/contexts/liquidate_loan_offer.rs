use crate::common::config::Config;
use crate::common::error::{LendingError, LiquidateOfferError, LoanOfferError};
use crate::common::pubkey::Pubkey;
use crate::engine::health::PriceFeed;
use crate::engine::interest::{lender_fee, lender_proceeds_spec};
use crate::states::loan_offer::{LoanOfferAccount, LoanOfferStatus, LoanOfferTransition};
use crate::states::token::{TokenAccount, TransferChecked};
use vstd::prelude::*;

verus! {

/// The records that a liquidation works on.
#[derive(Clone, Debug, PartialEq, Eq)]
pub struct LiquidateLoanOffer {
    /// Who liquidates.
    pub system: Pubkey,
    /// The borrower that the caller names.
    pub borrower: Pubkey,
    /// The lender that the caller names.
    pub lender: Pubkey,
    pub loan_offer: LoanOfferAccount,
    /// The price of the collateral asset, read for this call.
    pub collateral_price_feed: PriceFeed,
    /// The price of the lend asset, read for this call.
    pub lend_price_feed: PriceFeed,
    /// The operator's balance of the lend asset, which pays the lender.
    pub system_ata_asset: TokenAccount,
    /// The lender's balance of the lend asset.
    pub lender_ata_asset: TokenAccount,
    /// The custody balance that holds the collateral.
    pub hot_wallet_ata_collateral: TokenAccount,
    /// The operator's balance of the collateral asset, which takes the
    /// collateral.
    pub system_ata_collateral: TokenAccount,
}

/// What a liquidation leaves behind: the two moves to carry out.
#[derive(Clone, Copy, Debug, PartialEq, Eq)]
pub struct LoanLiquidated {
    /// All the collateral, to the operator, who sells it.
    pub seized: TransferChecked,
    /// What the lender receives: principal and interest, less the fee, which
    /// stays with the operator.
    pub to_lender: TransferChecked,
}

impl LiquidateLoanOffer {
    /// The health ratio of the position as recomputed for this call, from
    /// the price readings given, or the error for which there is none. What
    /// the loan offer recorded at activation plays no part.
    pub open spec fn health(&self, config: &Config, now: i64) -> Result<int, LoanOfferError> {
        self.loan_offer.health_at(
            self.collateral_price_feed,
            self.lend_price_feed,
            now,
            config.price_staleness_bound,
        )
    }

    /// Why a liquidation is turned down, if it is: the first of the checks,
    /// in this order, that fails.
    pub open spec fn rejection(&self, config: &Config, now: i64) -> Option<LendingError> {
        if self.system != config.system_operator {
            Some(LendingError::LiquidateOffer(LiquidateOfferError::InvalidSystem))
        } else if self.borrower != self.loan_offer.borrower {
            Some(LendingError::LiquidateOffer(LiquidateOfferError::InvalidBorrower))
        } else if self.lender != self.loan_offer.lender {
            Some(LendingError::LiquidateOffer(LiquidateOfferError::InvalidLender))
        } else if self.loan_offer.status.next(LoanOfferTransition::Liquidate) is None {
            Some(LendingError::LiquidateOffer(LiquidateOfferError::InvalidOfferStatus))
        } else {
            match self.health(config, now) {
                Err(e) => Some(LendingError::LoanOffer(e)),
                Ok(ratio) => if ratio >= config.liquidation_health_ratio_limit {
                    Some(LendingError::LoanOffer(LoanOfferError::HealthRatioLimit))
                } else if self.loan_offer.total_repay(now) > self.system_ata_asset.amount {
                    Some(LendingError::LiquidateOffer(LiquidateOfferError::NotEnoughAmount))
                } else {
                    None
                },
            }
        }
    }

    /// The operator liquidates the position at the time `now`.
    ///
    /// Only the configured operator liquidates, only an `Active` loan, and
    /// only while the health ratio recomputed from the price readings given
    /// is strictly below the liquidation limit. Then the loan offer becomes
    /// `Liquidated` with the recomputed ratio and no collateral, all the
    /// collateral is ordered to the operator, and principal plus accrued
    /// interest, less the fee, is ordered from the operator to the lender.
    /// Any other liquidation is turned down with the error of
    /// [`Self::rejection`] and leaves the records as they were.
    pub fn liquidate(&mut self, config: &Config, now: i64) -> (result: Result<
        LoanLiquidated,
        LendingError,
    >)
        ensures
            match result {
                Ok(liquidated) => {
                    &&& old(self).rejection(config, now) is None
                    &&& old(self).loan_offer.status == LoanOfferStatus::Active
                    &&& old(self).health(config, now) == Ok::<int, LoanOfferError>(
                        final(self).loan_offer.health_ratio as int,
                    )
                    &&& final(self).loan_offer.health_ratio
                        < config.liquidation_health_ratio_limit
                    &&& *final(self) == (LiquidateLoanOffer {
                        loan_offer: LoanOfferAccount {
                            status: LoanOfferStatus::Liquidated,
                            health_ratio: final(self).loan_offer.health_ratio,
                            collateral_amount: 0,
                            ..old(self).loan_offer
                        },
                        ..*old(self)
                    })
                    &&& liquidated.seized == (TransferChecked {
                        from: old(self).hot_wallet_ata_collateral.key,
                        mint: old(self).loan_offer.collateral_mint_token,
                        to: old(self).system_ata_collateral.key,
                        authority: old(self).hot_wallet_ata_collateral.owner,
                        amount: old(self).loan_offer.collateral_amount,
                        decimals: old(self).loan_offer.collateral_decimals,
                    })
                    &&& liquidated.to_lender == (TransferChecked {
                        from: old(self).system_ata_asset.key,
                        mint: old(self).loan_offer.lend_mint_token,
                        to: old(self).lender_ata_asset.key,
                        authority: old(self).system,
                        amount: lender_proceeds_spec(
                            old(self).loan_offer.total_repay(now),
                            old(self).loan_offer.lender_fee_percent as int,
                        ) as u64,
                        decimals: old(self).loan_offer.lend_decimals,
                    })
                },
                Err(e) => old(self).rejection(config, now) == Some(e) && *final(self) == *old(
                    self,
                ),
            },
    {
        if !config.is_system_operator(&self.system) {
            return Err(LendingError::LiquidateOffer(LiquidateOfferError::InvalidSystem));
        }
        if self.borrower != self.loan_offer.borrower {
            return Err(LendingError::LiquidateOffer(LiquidateOfferError::InvalidBorrower));
        }
        if self.lender != self.loan_offer.lender {
            return Err(LendingError::LiquidateOffer(LiquidateOfferError::InvalidLender));
        }
        let status: LoanOfferStatus = match self.loan_offer.status.transition(
            LoanOfferTransition::Liquidate,
        ) {
            Some(status) => status,
            None => {
                return Err(LendingError::LiquidateOffer(LiquidateOfferError::InvalidOfferStatus));
            },
        };
        let ratio: u128 = match self.loan_offer.compute_health(
            &self.collateral_price_feed,
            &self.lend_price_feed,
            now,
            config.price_staleness_bound,
        ) {
            Ok(ratio) => ratio,
            Err(e) => {
                return Err(LendingError::LoanOffer(e));
            },
        };
        if ratio >= config.liquidation_health_ratio_limit as u128 {
            return Err(LendingError::LoanOffer(LoanOfferError::HealthRatioLimit));
        }
        let total_repay: u128 = self.loan_offer.total_repay_at(now);
        if total_repay > self.system_ata_asset.amount as u128 {
            return Err(LendingError::LiquidateOffer(LiquidateOfferError::NotEnoughAmount));
        }
        let total: u64 = total_repay as u64;
        let fee: u64 = lender_fee(total, self.loan_offer.lender_fee_percent);
        let seized = TransferChecked {
            from: self.hot_wallet_ata_collateral.key,
            mint: self.loan_offer.collateral_mint_token,
            to: self.system_ata_collateral.key,
            authority: self.hot_wallet_ata_collateral.owner,
            amount: self.loan_offer.collateral_amount,
            decimals: self.loan_offer.collateral_decimals,
        };
        let to_lender = TransferChecked {
            from: self.system_ata_asset.key,
            mint: self.loan_offer.lend_mint_token,
            to: self.lender_ata_asset.key,
            authority: self.system,
            amount: total - fee,
            decimals: self.loan_offer.lend_decimals,
        };
        self.loan_offer.status = status;
        self.loan_offer.health_ratio = ratio;
        self.loan_offer.collateral_amount = 0;
        Ok(LoanLiquidated { seized, to_lender })
    }

    /// The liquidation gate: whenever the configured operator calls on an
    /// `Active` loan of the borrower and lender named, and the health ratio
    /// recomputed for the call is at or above the limit, the liquidation
    /// fails with `HealthRatioLimit`, whatever ratio the loan offer recorded
    /// before and however far below the limit that one was.
    pub proof fn lemma_liquidation_gate(&self, config: &Config, now: i64, recorded: u128)
        requires
            self.system == config.system_operator,
            self.borrower == self.loan_offer.borrower,
            self.lender == self.loan_offer.lender,
            self.loan_offer.status == LoanOfferStatus::Active,
            self.health(config, now) matches Ok(ratio) && ratio
                >= config.liquidation_health_ratio_limit,
        ensures
            self.rejection(config, now) == Some(
                LendingError::LoanOffer(LoanOfferError::HealthRatioLimit),
            ),
            (LiquidateLoanOffer {
                loan_offer: LoanOfferAccount { health_ratio: recorded, ..self.loan_offer },
                ..*self
            }).rejection(config, now) == Some(
                LendingError::LoanOffer(LoanOfferError::HealthRatioLimit),
            ),
    {
    }
}

} // verus!
