use crate::common::error::LendOfferError;
use crate::common::pubkey::Pubkey;
use crate::states::lend_offer::{LendOfferAccount, LendOfferStatus, LendOfferTransition};
use vstd::prelude::*;

verus! {

/// The records that a lender's request for cancellation works on.
#[derive(Clone, Debug, PartialEq, Eq)]
pub struct CancelLendOffer {
    /// Who asks.
    pub lender: Pubkey,
    pub lend_offer: LendOfferAccount,
}

impl CancelLendOffer {
    /// Why the request is turned down, if it is.
    pub open spec fn rejection(&self) -> Option<LendOfferError> {
        if self.lender != self.lend_offer.lender {
            Some(LendOfferError::InvalidLender)
        } else if self.lend_offer.status.next(LendOfferTransition::RequestCancel) is None {
            Some(LendOfferError::InvalidOfferStatus)
        } else {
            None
        }
    }

    /// The lender asks for the escrow back: a `Created` offer of this lender
    /// goes to `Canceling`, and nothing else about it changes. Any other
    /// request is turned down and leaves the records as they were.
    pub fn cancel_lend_offer(&mut self) -> (result: Result<(), LendOfferError>)
        ensures
            match result {
                Ok(()) => {
                    &&& old(self).rejection() is None
                    &&& old(self).lend_offer.status == LendOfferStatus::Created
                    &&& *final(self) == (CancelLendOffer {
                        lend_offer: LendOfferAccount {
                            status: LendOfferStatus::Canceling,
                            ..old(self).lend_offer
                        },
                        ..*old(self)
                    })
                },
                Err(e) => old(self).rejection() == Some(e) && *final(self) == *old(self),
            },
    {
        if self.lender != self.lend_offer.lender {
            return Err(LendOfferError::InvalidLender);
        }
        let status = self.lend_offer.status.transition(LendOfferTransition::RequestCancel)?;
        self.lend_offer.status = status;
        Ok(())
    }
}

} // verus!
