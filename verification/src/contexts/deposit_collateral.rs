use crate::common::error::{LendingError, LoanOfferError, ParseVaaError};
use crate::common::pubkey::Pubkey;
use crate::states::collateral_payload::ParsedCollateralPayload;
use crate::states::loan_offer::{LoanOfferAccount, LoanOfferStatus, LoanOfferTransition};
use crate::states::token::{TokenAccount, TransferChecked};
use vstd::prelude::*;

verus! {

/// The records that a deposit of collateral works on.
#[derive(Clone, Debug, PartialEq, Eq)]
pub struct DepositCollateral {
    /// Who deposits.
    pub borrower: Pubkey,
    pub loan_offer: LoanOfferAccount,
    /// The borrower's balance of the collateral asset.
    pub borrower_ata_asset: TokenAccount,
    /// The custody balance that takes the collateral.
    pub hot_wallet_ata: TokenAccount,
}

impl DepositCollateral {
    /// Why a deposit is turned down, if it is: the first of the checks, in
    /// this order, that fails. `attested` holds the fields of the attested
    /// message where the collateral comes from a foreign chain; the deposit
    /// must then agree with them exactly.
    pub open spec fn rejection(
        &self,
        amount: u64,
        decimals: u8,
        attested: Option<ParsedCollateralPayload>,
        now: i64,
    ) -> Option<LendingError> {
        if self.borrower != self.loan_offer.borrower {
            Some(LendingError::LoanOffer(LoanOfferError::InvalidBorrower))
        } else if self.loan_offer.status.next(LoanOfferTransition::DepositCollateral) is None {
            Some(
                LendingError::LoanOffer(
                    LoanOfferError::CanNotDepositCollateralToContractThatNotAvailable,
                ),
            )
        } else if self.loan_offer.is_expired(now) {
            Some(LendingError::LoanOffer(LoanOfferError::LoanOfferExpired))
        } else if attested matches Some(parsed) && amount != parsed.collateral_amount {
            Some(LendingError::ParseVaa(ParseVaaError::InvalidCollateralAmount))
        } else if attested matches Some(parsed) && decimals != parsed.collateral_decimals {
            Some(LendingError::ParseVaa(ParseVaaError::InvalidCollateralDecimal))
        } else if decimals != self.loan_offer.collateral_decimals {
            Some(LendingError::ParseVaa(ParseVaaError::InvalidCollateralDecimal))
        } else if self.loan_offer.collateral_amount + amount > u64::MAX {
            Some(LendingError::ParseVaa(ParseVaaError::InvalidCollateralAmount))
        } else {
            None
        }
    }

    /// Deposits `amount` of collateral, given with `decimals` decimals.
    ///
    /// On a loan offer of this borrower that still awaits collateral and has
    /// not expired, the collateral recorded grows by exactly `amount`, the
    /// status stays, and the move of `amount` from the borrower's balance into
    /// custody is ordered. Any other deposit is turned down with the error of
    /// [`Self::rejection`] and leaves the records as they were.
    pub fn deposit_collateral(
        &mut self,
        amount: u64,
        decimals: u8,
        attested: Option<ParsedCollateralPayload>,
        now: i64,
    ) -> (result: Result<TransferChecked, LendingError>)
        ensures
            match result {
                Ok(deposit) => {
                    &&& old(self).rejection(amount, decimals, attested, now) is None
                    &&& old(self).loan_offer.status == LoanOfferStatus::AwaitingCollateral
                    &&& *final(self) == (DepositCollateral {
                        loan_offer: LoanOfferAccount {
                            collateral_amount: (old(self).loan_offer.collateral_amount
                                + amount) as u64,
                            ..old(self).loan_offer
                        },
                        ..*old(self)
                    })
                    &&& final(self).loan_offer.collateral_amount == old(
                        self,
                    ).loan_offer.collateral_amount + amount
                    &&& deposit == (TransferChecked {
                        from: old(self).borrower_ata_asset.key,
                        mint: old(self).loan_offer.collateral_mint_token,
                        to: old(self).hot_wallet_ata.key,
                        authority: old(self).borrower,
                        amount,
                        decimals,
                    })
                },
                Err(e) => old(self).rejection(amount, decimals, attested, now) == Some(e)
                    && *final(self) == *old(self),
            },
    {
        if self.borrower != self.loan_offer.borrower {
            return Err(LendingError::LoanOffer(LoanOfferError::InvalidBorrower));
        }
        let status: LoanOfferStatus = match self.loan_offer.status.transition(
            LoanOfferTransition::DepositCollateral,
        ) {
            Some(status) => status,
            None => {
                return Err(
                    LendingError::LoanOffer(
                        LoanOfferError::CanNotDepositCollateralToContractThatNotAvailable,
                    ),
                );
            },
        };
        if self.loan_offer.expired(now) {
            return Err(LendingError::LoanOffer(LoanOfferError::LoanOfferExpired));
        }
        match attested {
            Some(parsed) => {
                if amount != parsed.collateral_amount {
                    return Err(LendingError::ParseVaa(ParseVaaError::InvalidCollateralAmount));
                }
                if decimals != parsed.collateral_decimals {
                    return Err(LendingError::ParseVaa(ParseVaaError::InvalidCollateralDecimal));
                }
            },
            None => {},
        }
        if decimals != self.loan_offer.collateral_decimals {
            return Err(LendingError::ParseVaa(ParseVaaError::InvalidCollateralDecimal));
        }
        let collateral_amount: u64 = match self.loan_offer.collateral_amount.checked_add(amount) {
            Some(sum) => sum,
            None => {
                return Err(LendingError::ParseVaa(ParseVaaError::InvalidCollateralAmount));
            },
        };
        let deposit = TransferChecked {
            from: self.borrower_ata_asset.key,
            mint: self.loan_offer.collateral_mint_token,
            to: self.hot_wallet_ata.key,
            authority: self.borrower,
            amount,
            decimals,
        };
        self.loan_offer.collateral_amount = collateral_amount;
        self.loan_offer.status = status;
        Ok(deposit)
    }
}

} // verus!
