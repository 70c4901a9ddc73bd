use crate::common::config::Config;
use crate::common::error::LoanOfferError;
use crate::common::pubkey::Pubkey;
use crate::engine::health::PriceFeed;
use crate::states::lend_offer::{LendOfferAccount, LendOfferStatus, LendOfferTransition};
use crate::states::loan_offer::{LoanOfferAccount, LoanOfferStatus, LoanOfferTransition};
use crate::states::token::{TokenAccount, TransferChecked};
use vstd::prelude::*;

verus! {

/// The records that the activation of a loan works on.
#[derive(Clone, Debug, PartialEq, Eq)]
pub struct ActivateLoanOffer {
    /// Who takes the loan.
    pub borrower: Pubkey,
    pub loan_offer: LoanOfferAccount,
    /// The lend offer that the loan offer matches.
    pub lend_offer: LendOfferAccount,
    /// The price of the collateral asset.
    pub collateral_price_feed: PriceFeed,
    /// The price of the lend asset.
    pub lend_price_feed: PriceFeed,
    /// The custody balance that holds the escrow.
    pub hot_wallet_ata: TokenAccount,
    /// The borrower's balance of the lend asset.
    pub borrower_ata_asset: TokenAccount,
}

impl ActivateLoanOffer {
    /// The health ratio of the position under the price readings given, at
    /// the time `now`, or the error for which there is none.
    pub open spec fn health(&self, config: &Config, now: i64) -> Result<int, LoanOfferError> {
        self.loan_offer.health_at(
            self.collateral_price_feed,
            self.lend_price_feed,
            now,
            config.price_staleness_bound,
        )
    }

    /// Why the activation is turned down, if it is: the first of the checks,
    /// in this order, that fails.
    pub open spec fn rejection(&self, config: &Config, now: i64) -> Option<LoanOfferError> {
        if self.borrower != self.loan_offer.borrower {
            Some(LoanOfferError::InvalidBorrower)
        } else if self.loan_offer.status.next(LoanOfferTransition::Activate) is None {
            Some(LoanOfferError::InvalidOfferStatus)
        } else if self.loan_offer.is_expired(now) {
            Some(LoanOfferError::LoanOfferExpired)
        } else if self.lend_offer.lender != self.loan_offer.lender || self.lend_offer.offer_id@
            != self.loan_offer.lend_offer_id@ {
            Some(LoanOfferError::LendOfferIdNotMatch)
        } else if self.lend_offer.status.next(LendOfferTransition::Match) is None {
            Some(LoanOfferError::LendOfferIsNotAvailable)
        } else if self.lend_offer.interest != self.loan_offer.interest {
            Some(LoanOfferError::CanNotCreateLoanCauseLendInterestUpdated)
        } else if self.lend_offer.amount != self.loan_offer.borrow_amount {
            Some(LoanOfferError::InvalidLendOfferAmount)
        } else {
            match self.health(config, now) {
                Err(e) => Some(e),
                Ok(ratio) => if ratio < config.min_health_ratio_to_borrow {
                    Some(LoanOfferError::CanNotTakeALoanBecauseHealthRatioIsNotValid)
                } else {
                    None
                },
            }
        }
    }

    /// Activates the loan at the time `now`.
    ///
    /// The loan is activated only against a `Created` lend offer whose
    /// interest and amount are still the ones quoted, and only at a health
    /// ratio, computed from the price readings given, of at least the minimum
    /// to borrow. Then the loan offer becomes `Active` with that ratio and
    /// with `now` as the start of its term, the lend offer becomes `Matched`,
    /// and the move of the principal from custody to the borrower is ordered. Any other activation is turned
    /// down with the error of [`Self::rejection`] and leaves the records as
    /// they were.
    pub fn activate(&mut self, config: &Config, now: i64) -> (result: Result<
        TransferChecked,
        LoanOfferError,
    >)
        ensures
            match result {
                Ok(payout) => {
                    &&& old(self).rejection(config, now) is None
                    &&& old(self).loan_offer.status == LoanOfferStatus::AwaitingCollateral
                    &&& old(self).lend_offer.status == LendOfferStatus::Created
                    &&& old(self).health(config, now) == Ok::<int, LoanOfferError>(
                        final(self).loan_offer.health_ratio as int,
                    )
                    &&& final(self).loan_offer.health_ratio >= config.min_health_ratio_to_borrow
                    &&& *final(self) == (ActivateLoanOffer {
                        loan_offer: LoanOfferAccount {
                            status: LoanOfferStatus::Active,
                            health_ratio: final(self).loan_offer.health_ratio,
                            started_at: now,
                            ..old(self).loan_offer
                        },
                        lend_offer: LendOfferAccount {
                            status: LendOfferStatus::Matched,
                            ..old(self).lend_offer
                        },
                        ..*old(self)
                    })
                    &&& payout == (TransferChecked {
                        from: old(self).hot_wallet_ata.key,
                        mint: old(self).lend_offer.lend_mint_token,
                        to: old(self).borrower_ata_asset.key,
                        authority: old(self).hot_wallet_ata.owner,
                        amount: old(self).lend_offer.amount,
                        decimals: old(self).loan_offer.lend_decimals,
                    })
                },
                Err(e) => old(self).rejection(config, now) == Some(e) && *final(self) == *old(
                    self,
                ),
            },
    {
        if self.borrower != self.loan_offer.borrower {
            return Err(LoanOfferError::InvalidBorrower);
        }
        let loan_status: LoanOfferStatus = match self.loan_offer.status.transition(
            LoanOfferTransition::Activate,
        ) {
            Some(status) => status,
            None => {
                return Err(LoanOfferError::InvalidOfferStatus);
            },
        };
        if self.loan_offer.expired(now) {
            return Err(LoanOfferError::LoanOfferExpired);
        }
        if self.lend_offer.lender != self.loan_offer.lender || self.lend_offer.offer_id
            != self.loan_offer.lend_offer_id {
            return Err(LoanOfferError::LendOfferIdNotMatch);
        }
        let lend_status: LendOfferStatus = match self.lend_offer.status.transition(
            LendOfferTransition::Match,
        ) {
            Ok(status) => status,
            Err(_) => {
                return Err(LoanOfferError::LendOfferIsNotAvailable);
            },
        };
        if self.lend_offer.interest != self.loan_offer.interest {
            return Err(LoanOfferError::CanNotCreateLoanCauseLendInterestUpdated);
        }
        if self.lend_offer.amount != self.loan_offer.borrow_amount {
            return Err(LoanOfferError::InvalidLendOfferAmount);
        }
        let ratio: u128 = self.loan_offer.compute_health(
            &self.collateral_price_feed,
            &self.lend_price_feed,
            now,
            config.price_staleness_bound,
        )?;
        if ratio < config.min_health_ratio_to_borrow as u128 {
            return Err(LoanOfferError::CanNotTakeALoanBecauseHealthRatioIsNotValid);
        }
        let payout = TransferChecked {
            from: self.hot_wallet_ata.key,
            mint: self.lend_offer.lend_mint_token,
            to: self.borrower_ata_asset.key,
            authority: self.hot_wallet_ata.owner,
            amount: self.lend_offer.amount,
            decimals: self.loan_offer.lend_decimals,
        };
        self.loan_offer.status = loan_status;
        self.loan_offer.health_ratio = ratio;
        self.loan_offer.started_at = now;
        self.lend_offer.status = lend_status;
        Ok(payout)
    }
}

} // verus!
