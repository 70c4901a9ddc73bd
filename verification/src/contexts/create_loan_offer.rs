use crate::common::error::LoanOfferError;
use crate::common::pubkey::Pubkey;
use crate::states::lend_offer::{LendOfferAccount, LendOfferStatus, LendOfferTransition};
use crate::states::loan_offer::{LoanOfferAccount, LoanOfferStatus};
use crate::states::token::Mint;
use vstd::prelude::*;

verus! {

/// The records that the matching of a lend offer works on.
#[derive(Clone, Debug, PartialEq, Eq)]
pub struct CreateLoanOffer {
    /// Who wants to borrow.
    pub borrower: Pubkey,
    /// The lend offer to match.
    pub lend_offer: LendOfferAccount,
    /// The asset that is lent.
    pub lend_mint: Mint,
    /// The asset that will secure the loan.
    pub collateral_mint: Mint,
}

impl CreateLoanOffer {
    /// Why the match is turned down, if it is.
    pub open spec fn rejection(&self) -> Option<LoanOfferError> {
        if self.lend_offer.status.next(LendOfferTransition::Match) is None {
            Some(LoanOfferError::LendOfferIsNotAvailable)
        } else if self.lend_mint.key != self.lend_offer.lend_mint_token {
            Some(LoanOfferError::InvalidLendMintAsset)
        } else {
            None
        }
    }

    /// The loan offer that a match at the time `now` opens: on the lend
    /// offer's terms, without collateral yet, awaiting it.
    pub open spec fn opened(&self, now: i64) -> LoanOfferAccount {
        LoanOfferAccount {
            borrower: self.borrower,
            lender: self.lend_offer.lender,
            lend_offer_id: self.lend_offer.offer_id,
            lend_mint_token: self.lend_offer.lend_mint_token,
            lend_decimals: self.lend_mint.decimals,
            borrow_amount: self.lend_offer.amount,
            interest: self.lend_offer.interest,
            lender_fee_percent: self.lend_offer.lender_fee_percent,
            duration: self.lend_offer.duration,
            collateral_mint_token: self.collateral_mint.key,
            collateral_decimals: self.collateral_mint.decimals,
            collateral_amount: 0,
            health_ratio: 0,
            created_at: now,
            started_at: now,
            status: LoanOfferStatus::AwaitingCollateral,
        }
    }

    /// Matches the lend offer: opens a loan offer against it.
    ///
    /// Only a `Created` lend offer of the lend asset can be matched. The lend
    /// offer itself stays as it is until the loan is activated.
    pub fn create_loan_offer(&self, now: i64) -> (result: Result<LoanOfferAccount, LoanOfferError>)
        ensures
            match result {
                Ok(loan_offer) => self.rejection() is None && self.lend_offer.status
                    == LendOfferStatus::Created && loan_offer == self.opened(now),
                Err(e) => self.rejection() == Some(e),
            },
    {
        if self.lend_offer.status.transition(LendOfferTransition::Match).is_err() {
            return Err(LoanOfferError::LendOfferIsNotAvailable);
        }
        if self.lend_mint.key != self.lend_offer.lend_mint_token {
            return Err(LoanOfferError::InvalidLendMintAsset);
        }
        Ok(
            LoanOfferAccount {
                borrower: self.borrower,
                lender: self.lend_offer.lender,
                lend_offer_id: self.lend_offer.offer_id.clone(),
                lend_mint_token: self.lend_offer.lend_mint_token,
                lend_decimals: self.lend_mint.decimals,
                borrow_amount: self.lend_offer.amount,
                interest: self.lend_offer.interest,
                lender_fee_percent: self.lend_offer.lender_fee_percent,
                duration: self.lend_offer.duration,
                collateral_mint_token: self.collateral_mint.key,
                collateral_decimals: self.collateral_mint.decimals,
                collateral_amount: 0,
                health_ratio: 0,
                created_at: now,
                started_at: now,
                status: LoanOfferStatus::AwaitingCollateral,
            },
        )
    }
}

} // verus!
