use crate::common::error::RepayOfferError;
use crate::common::pubkey::Pubkey;
use crate::engine::interest::{lender_fee, lender_fee_spec, lender_proceeds_spec};
use crate::states::loan_offer::{LoanOfferAccount, LoanOfferStatus, LoanOfferTransition};
use crate::states::token::{TokenAccount, TransferChecked};
use vstd::prelude::*;

verus! {

/// The records that a repayment works on.
#[derive(Clone, Debug, PartialEq, Eq)]
pub struct RepayLoanOffer {
    /// Who repays.
    pub borrower: Pubkey,
    pub loan_offer: LoanOfferAccount,
    /// The borrower's balance of the lend asset, which pays.
    pub borrower_ata_asset: TokenAccount,
    /// The lender's balance of the lend asset.
    pub lender_ata_asset: TokenAccount,
    /// The protocol's balance of the lend asset, which takes the fee.
    pub hot_wallet_ata_asset: TokenAccount,
    /// The custody balance that holds the collateral.
    pub hot_wallet_ata_collateral: TokenAccount,
    /// The borrower's balance of the collateral asset.
    pub borrower_ata_collateral: TokenAccount,
}

/// What a repayment leaves behind: the three moves to carry out.
#[derive(Clone, Copy, Debug, PartialEq, Eq)]
pub struct LoanRepaid {
    /// What the lender receives: principal and interest, less the fee.
    pub to_lender: TransferChecked,
    /// The protocol's fee.
    pub fee: TransferChecked,
    /// The collateral, back to the borrower.
    pub collateral: TransferChecked,
}

impl RepayLoanOffer {
    /// Why a repayment is turned down, if it is: the first of the checks, in
    /// this order, that fails.
    pub open spec fn rejection(&self, amount: u64, now: i64) -> Option<RepayOfferError> {
        if self.borrower != self.loan_offer.borrower {
            Some(RepayOfferError::InvalidBorrower)
        } else if self.loan_offer.status.next(LoanOfferTransition::Repay) is None {
            Some(RepayOfferError::InvalidOfferStatus)
        } else if self.lender_ata_asset.owner != self.loan_offer.lender {
            Some(RepayOfferError::InvalidLender)
        } else if !self.loan_offer.in_repay_window(now) {
            Some(RepayOfferError::TimeUnmetException)
        } else if amount < self.loan_offer.total_repay(now) {
            Some(RepayOfferError::NotEnoughAmount)
        } else {
            None
        }
    }

    /// The borrower repays at the time `now`, offering `amount`.
    ///
    /// An `Active` loan is repaid within its term by an offer that covers
    /// principal plus the interest accrued at `now`. Exactly that total is
    /// ordered away from the borrower, split between the lender and the
    /// protocol's fee with nothing lost; all the collateral is ordered back to
    /// the borrower; the loan offer becomes `Repaid` and holds no collateral.
    /// Any other repayment is turned down with the error of
    /// [`Self::rejection`] and leaves the records as they were.
    pub fn repay(&mut self, amount: u64, now: i64) -> (result: Result<LoanRepaid, RepayOfferError>)
        ensures
            match result {
                Ok(repaid) => {
                    &&& old(self).rejection(amount, now) is None
                    &&& old(self).loan_offer.status == LoanOfferStatus::Active
                    &&& *final(self) == (RepayLoanOffer {
                        loan_offer: LoanOfferAccount {
                            status: LoanOfferStatus::Repaid,
                            collateral_amount: 0,
                            ..old(self).loan_offer
                        },
                        ..*old(self)
                    })
                    &&& repaid.to_lender == (TransferChecked {
                        from: old(self).borrower_ata_asset.key,
                        mint: old(self).loan_offer.lend_mint_token,
                        to: old(self).lender_ata_asset.key,
                        authority: old(self).borrower,
                        amount: lender_proceeds_spec(
                            old(self).loan_offer.total_repay(now),
                            old(self).loan_offer.lender_fee_percent as int,
                        ) as u64,
                        decimals: old(self).loan_offer.lend_decimals,
                    })
                    &&& repaid.fee == (TransferChecked {
                        from: old(self).borrower_ata_asset.key,
                        mint: old(self).loan_offer.lend_mint_token,
                        to: old(self).hot_wallet_ata_asset.key,
                        authority: old(self).borrower,
                        amount: lender_fee_spec(
                            old(self).loan_offer.total_repay(now),
                            old(self).loan_offer.lender_fee_percent as int,
                        ) as u64,
                        decimals: old(self).loan_offer.lend_decimals,
                    })
                    &&& repaid.to_lender.amount + repaid.fee.amount == old(
                        self,
                    ).loan_offer.total_repay(now)
                    &&& repaid.collateral == (TransferChecked {
                        from: old(self).hot_wallet_ata_collateral.key,
                        mint: old(self).loan_offer.collateral_mint_token,
                        to: old(self).borrower_ata_collateral.key,
                        authority: old(self).hot_wallet_ata_collateral.owner,
                        amount: old(self).loan_offer.collateral_amount,
                        decimals: old(self).loan_offer.collateral_decimals,
                    })
                },
                Err(e) => old(self).rejection(amount, now) == Some(e) && *final(self) == *old(
                    self,
                ),
            },
    {
        if self.borrower != self.loan_offer.borrower {
            return Err(RepayOfferError::InvalidBorrower);
        }
        let status: LoanOfferStatus = match self.loan_offer.status.transition(
            LoanOfferTransition::Repay,
        ) {
            Some(status) => status,
            None => {
                return Err(RepayOfferError::InvalidOfferStatus);
            },
        };
        if self.lender_ata_asset.owner != self.loan_offer.lender {
            return Err(RepayOfferError::InvalidLender);
        }
        if !self.loan_offer.within_repay_window(now) {
            return Err(RepayOfferError::TimeUnmetException);
        }
        let total_repay: u128 = self.loan_offer.total_repay_at(now);
        if (amount as u128) < total_repay {
            return Err(RepayOfferError::NotEnoughAmount);
        }
        let total: u64 = total_repay as u64;
        let fee_amount: u64 = lender_fee(total, self.loan_offer.lender_fee_percent);
        let to_lender = TransferChecked {
            from: self.borrower_ata_asset.key,
            mint: self.loan_offer.lend_mint_token,
            to: self.lender_ata_asset.key,
            authority: self.borrower,
            amount: total - fee_amount,
            decimals: self.loan_offer.lend_decimals,
        };
        let fee = TransferChecked {
            from: self.borrower_ata_asset.key,
            mint: self.loan_offer.lend_mint_token,
            to: self.hot_wallet_ata_asset.key,
            authority: self.borrower,
            amount: fee_amount,
            decimals: self.loan_offer.lend_decimals,
        };
        let collateral = TransferChecked {
            from: self.hot_wallet_ata_collateral.key,
            mint: self.loan_offer.collateral_mint_token,
            to: self.borrower_ata_collateral.key,
            authority: self.hot_wallet_ata_collateral.owner,
            amount: self.loan_offer.collateral_amount,
            decimals: self.loan_offer.collateral_decimals,
        };
        self.loan_offer.status = status;
        self.loan_offer.collateral_amount = 0;
        Ok(LoanRepaid { to_lender, fee, collateral })
    }
}

} // verus!
