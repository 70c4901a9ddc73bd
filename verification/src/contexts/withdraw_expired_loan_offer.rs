use crate::common::error::LoanOfferError;
use crate::common::pubkey::Pubkey;
use crate::states::loan_offer::{LoanOfferAccount, LoanOfferStatus, LoanOfferTransition};
use crate::states::token::{TokenAccount, TransferChecked};
use vstd::prelude::*;

verus! {

/// The records that the winding up of an expired loan offer works on.
#[derive(Clone, Debug, PartialEq, Eq)]
pub struct WithdrawExpiredLoanOffer {
    /// Who asks: the loan offer's borrower or its lender.
    pub caller: Pubkey,
    pub loan_offer: LoanOfferAccount,
    /// The custody balance that holds the collateral.
    pub hot_wallet_ata: TokenAccount,
    /// The borrower's balance of the collateral asset.
    pub borrower_ata_asset: TokenAccount,
}

impl WithdrawExpiredLoanOffer {
    /// Why the withdrawal is turned down, if it is: the first of the checks,
    /// in this order, that fails.
    pub open spec fn rejection(&self, now: i64) -> Option<LoanOfferError> {
        if self.caller != self.loan_offer.borrower && self.caller != self.loan_offer.lender {
            Some(LoanOfferError::InvalidBorrower)
        } else if self.loan_offer.status.next(LoanOfferTransition::ExpireWithdraw) is None {
            Some(LoanOfferError::NotAvailableToWithdraw)
        } else if !self.loan_offer.is_expired(now) {
            Some(LoanOfferError::LoanOfferNotExpired)
        } else {
            None
        }
    }

    /// Winds up a loan offer that was never activated.
    ///
    /// Once a loan offer that still awaits collateral has passed its
    /// deadline, its borrower or its lender may have it marked `Expired`; all
    /// the collateral that came in is ordered back to the borrower, and the
    /// loan offer holds none. Any other withdrawal is turned down with the
    /// error of [`Self::rejection`] and leaves the records as they were.
    pub fn expire_withdraw(&mut self, now: i64) -> (result: Result<TransferChecked, LoanOfferError>)
        ensures
            match result {
                Ok(refund) => {
                    &&& old(self).rejection(now) is None
                    &&& old(self).loan_offer.status == LoanOfferStatus::AwaitingCollateral
                    &&& old(self).loan_offer.is_expired(now)
                    &&& *final(self) == (WithdrawExpiredLoanOffer {
                        loan_offer: LoanOfferAccount {
                            status: LoanOfferStatus::Expired,
                            collateral_amount: 0,
                            ..old(self).loan_offer
                        },
                        ..*old(self)
                    })
                    &&& refund == (TransferChecked {
                        from: old(self).hot_wallet_ata.key,
                        mint: old(self).loan_offer.collateral_mint_token,
                        to: old(self).borrower_ata_asset.key,
                        authority: old(self).hot_wallet_ata.owner,
                        amount: old(self).loan_offer.collateral_amount,
                        decimals: old(self).loan_offer.collateral_decimals,
                    })
                },
                Err(e) => old(self).rejection(now) == Some(e) && *final(self) == *old(self),
            },
    {
        if self.caller != self.loan_offer.borrower && self.caller != self.loan_offer.lender {
            return Err(LoanOfferError::InvalidBorrower);
        }
        let status: LoanOfferStatus = match self.loan_offer.status.transition(
            LoanOfferTransition::ExpireWithdraw,
        ) {
            Some(status) => status,
            None => {
                return Err(LoanOfferError::NotAvailableToWithdraw);
            },
        };
        if !self.loan_offer.expired(now) {
            return Err(LoanOfferError::LoanOfferNotExpired);
        }
        let refund = TransferChecked {
            from: self.hot_wallet_ata.key,
            mint: self.loan_offer.collateral_mint_token,
            to: self.borrower_ata_asset.key,
            authority: self.hot_wallet_ata.owner,
            amount: self.loan_offer.collateral_amount,
            decimals: self.loan_offer.collateral_decimals,
        };
        self.loan_offer.status = status;
        self.loan_offer.collateral_amount = 0;
        Ok(refund)
    }

    /// The two sides of the clock: at any time a loan offer is either still
    /// open to deposits and activation or open to this withdrawal, never
    /// both.
    pub proof fn lemma_expiry_guards_exclusive(&self, now: i64)
        ensures
            self.rejection(now) is None ==> self.loan_offer.is_expired(now),
            self.rejection(now) == Some(LoanOfferError::LoanOfferNotExpired)
                ==> !self.loan_offer.is_expired(now),
    {
    }
}

} // verus!
