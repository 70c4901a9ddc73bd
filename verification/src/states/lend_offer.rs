use crate::common::error::LendOfferError;
use crate::common::pubkey::Pubkey;
use vstd::prelude::*;

verus! {

/// Where a lend offer stands.
#[derive(Clone, Copy, Debug, PartialEq, Eq, Structural)]
pub enum LendOfferStatus {
    /// Escrowed and open to a borrower.
    Created,
    /// The lender has asked for the escrow back; the operator has not settled
    /// yet.
    Canceling,
    /// The escrow has gone back to the lender.
    Canceled,
    /// The principal has gone to a borrower.
    Matched,
}

/// What can happen to a lend offer.
#[derive(Clone, Copy, Debug, PartialEq, Eq, Structural)]
pub enum LendOfferTransition {
    /// The lender asks for the escrow back.
    RequestCancel,
    /// The operator settles a requested cancellation.
    ExecuteCancel,
    /// A borrower's loan is activated against the offer.
    Match,
}

impl LendOfferStatus {
    /// The status after a transition, where the transition starts from this
    /// status.
    pub open spec fn next(self, transition: LendOfferTransition) -> Option<LendOfferStatus> {
        match (self, transition) {
            (LendOfferStatus::Created, LendOfferTransition::RequestCancel) => Some(
                LendOfferStatus::Canceling,
            ),
            (LendOfferStatus::Canceling, LendOfferTransition::ExecuteCancel) => Some(
                LendOfferStatus::Canceled,
            ),
            (LendOfferStatus::Created, LendOfferTransition::Match) => Some(
                LendOfferStatus::Matched,
            ),
            _ => None,
        }
    }

    /// A status that nothing leads out of.
    pub open spec fn is_terminal(self) -> bool {
        self == LendOfferStatus::Canceled || self == LendOfferStatus::Matched
    }

    /// How far along its life an offer in this status is.
    pub open spec fn rank(self) -> nat {
        match self {
            LendOfferStatus::Created => 0,
            LendOfferStatus::Canceling => 1,
            LendOfferStatus::Canceled => 2,
            LendOfferStatus::Matched => 2,
        }
    }

    /// Takes a transition: the new status, or `InvalidOfferStatus` where the
    /// transition does not start from this status.
    pub fn transition(self, transition: LendOfferTransition) -> (result: Result<
        LendOfferStatus,
        LendOfferError,
    >)
        ensures
            result == match self.next(transition) {
                Some(status) => Ok::<LendOfferStatus, LendOfferError>(status),
                None => Err::<LendOfferStatus, LendOfferError>(LendOfferError::InvalidOfferStatus),
            },
    {
        match (self, transition) {
            (LendOfferStatus::Created, LendOfferTransition::RequestCancel) => Ok(
                LendOfferStatus::Canceling,
            ),
            (LendOfferStatus::Canceling, LendOfferTransition::ExecuteCancel) => Ok(
                LendOfferStatus::Canceled,
            ),
            (LendOfferStatus::Created, LendOfferTransition::Match) => Ok(LendOfferStatus::Matched),
            _ => Err(LendOfferError::InvalidOfferStatus),
        }
    }

    /// Transitions run one way: each one moves the offer strictly further
    /// along, and none starts from a terminal status.
    pub proof fn lemma_one_directional(self, transition: LendOfferTransition)
        ensures
            self.is_terminal() ==> self.next(transition) is None,
            self.next(transition) matches Some(after) ==> self.rank() < after.rank(),
    {
    }

    /// Cancel ordering: a cancellation is settled only from `Canceling`, and
    /// an offer is in `Canceling` only through the lender's request on a
    /// `Created` offer. Settling straight from `Created` is no transition.
    pub proof fn lemma_cancel_ordering(self, transition: LendOfferTransition)
        ensures
            self.next(LendOfferTransition::ExecuteCancel) is Some ==> self
                == LendOfferStatus::Canceling,
            self.next(transition) == Some(LendOfferStatus::Canceling) ==> self
                == LendOfferStatus::Created && transition == LendOfferTransition::RequestCancel,
            LendOfferStatus::Created.next(LendOfferTransition::ExecuteCancel) is None,
    {
    }
}

/// A lender's escrowed, interest-bearing principal.
///
/// `amount` is in the lend asset's smallest units; `interest` and
/// `lender_fee_percent` are in the fixed-point unit of
/// [`WHOLE`](crate::common::constant::WHOLE); `duration` is in seconds.
#[derive(Clone, Debug, PartialEq, Eq)]
pub struct LendOfferAccount {
    pub interest: u64,
    pub lender_fee_percent: u64,
    pub duration: u64,
    pub offer_id: String,
    pub lender: Pubkey,
    pub lend_mint_token: Pubkey,
    pub amount: u64,
    pub bump: u8,
    pub status: LendOfferStatus,
}

impl LendOfferAccount {
    /// The interest of an offer lies strictly between zero and the allowed
    /// maximum.
    pub open spec fn interest_in_range(&self, max_allowed_interest: u64) -> bool {
        0 < self.interest < max_allowed_interest
    }
}

} // verus!
