use crate::common::constant::WHOLE;
use crate::common::error::LoanOfferError;
use crate::common::pubkey::Pubkey;
use crate::engine::health::{
    check_price_feeds, position_health, position_health_spec, price_feeds_rejection, PriceFeed,
};
use crate::engine::interest::{
    accrued_interest, accrued_interest_spec, full_term_interest, lemma_product_fits,
    total_repay_spec,
};
use vstd::arithmetic::div_mod::lemma_div_is_ordered;
use vstd::prelude::*;

verus! {

/// Where a loan offer stands.
#[derive(Clone, Copy, Debug, PartialEq, Eq, Structural)]
pub enum LoanOfferStatus {
    /// Matched to a lend offer; collateral may still come in.
    AwaitingCollateral,
    /// The principal is with the borrower.
    Active,
    /// The borrower has paid principal and interest and has the collateral
    /// back.
    Repaid,
    /// The operator has closed the position by force.
    Liquidated,
    /// The deadline passed before the loan was activated.
    Expired,
}

/// What can happen to a loan offer.
#[derive(Clone, Copy, Debug, PartialEq, Eq, Structural)]
pub enum LoanOfferTransition {
    DepositCollateral,
    Activate,
    Repay,
    Liquidate,
    ExpireWithdraw,
}

impl LoanOfferStatus {
    /// The status after a transition, where the transition starts from this
    /// status.
    pub open spec fn next(self, transition: LoanOfferTransition) -> Option<LoanOfferStatus> {
        match (self, transition) {
            (LoanOfferStatus::AwaitingCollateral, LoanOfferTransition::DepositCollateral) => Some(
                LoanOfferStatus::AwaitingCollateral,
            ),
            (LoanOfferStatus::AwaitingCollateral, LoanOfferTransition::Activate) => Some(
                LoanOfferStatus::Active,
            ),
            (LoanOfferStatus::AwaitingCollateral, LoanOfferTransition::ExpireWithdraw) => Some(
                LoanOfferStatus::Expired,
            ),
            (LoanOfferStatus::Active, LoanOfferTransition::Repay) => Some(
                LoanOfferStatus::Repaid,
            ),
            (LoanOfferStatus::Active, LoanOfferTransition::Liquidate) => Some(
                LoanOfferStatus::Liquidated,
            ),
            _ => None,
        }
    }

    /// A status that nothing leads out of.
    pub open spec fn is_terminal(self) -> bool {
        self == LoanOfferStatus::Repaid || self == LoanOfferStatus::Liquidated || self
            == LoanOfferStatus::Expired
    }

    /// How far along its life a loan offer in this status is.
    pub open spec fn rank(self) -> nat {
        match self {
            LoanOfferStatus::AwaitingCollateral => 0,
            LoanOfferStatus::Active => 1,
            LoanOfferStatus::Repaid => 2,
            LoanOfferStatus::Liquidated => 2,
            LoanOfferStatus::Expired => 2,
        }
    }

    /// Takes a transition: the new status, or `None` where the transition
    /// does not start from this status.
    pub fn transition(self, transition: LoanOfferTransition) -> (after: Option<LoanOfferStatus>)
        ensures
            after == self.next(transition),
    {
        match (self, transition) {
            (LoanOfferStatus::AwaitingCollateral, LoanOfferTransition::DepositCollateral) => Some(
                LoanOfferStatus::AwaitingCollateral,
            ),
            (LoanOfferStatus::AwaitingCollateral, LoanOfferTransition::Activate) => Some(
                LoanOfferStatus::Active,
            ),
            (LoanOfferStatus::AwaitingCollateral, LoanOfferTransition::ExpireWithdraw) => Some(
                LoanOfferStatus::Expired,
            ),
            (LoanOfferStatus::Active, LoanOfferTransition::Repay) => Some(LoanOfferStatus::Repaid),
            (LoanOfferStatus::Active, LoanOfferTransition::Liquidate) => Some(
                LoanOfferStatus::Liquidated,
            ),
            _ => None,
        }
    }

    /// Transitions run one way: none starts from a terminal status, none
    /// moves a loan offer back, and all but a deposit move it strictly
    /// further along.
    pub proof fn lemma_one_directional(self, transition: LoanOfferTransition)
        ensures
            self.is_terminal() ==> self.next(transition) is None,
            self.next(transition) matches Some(after) ==> self.rank() <= after.rank(),
            self.next(transition) matches Some(after) ==> transition
                != LoanOfferTransition::DepositCollateral ==> self.rank() < after.rank(),
    {
    }
}

/// A borrower's collateralized position against a lend offer.
///
/// Amounts are in the smallest units of their assets; `interest`,
/// `lender_fee_percent` and `health_ratio` are in the fixed-point unit of
/// [`WHOLE`]; times are in seconds.
#[derive(Clone, Debug, PartialEq, Eq)]
pub struct LoanOfferAccount {
    pub borrower: Pubkey,
    /// The lender of the lend offer that this loan offer matches.
    pub lender: Pubkey,
    /// The id, among the lender's offers, of that lend offer.
    pub lend_offer_id: String,
    pub lend_mint_token: Pubkey,
    pub lend_decimals: u8,
    /// The principal.
    pub borrow_amount: u64,
    /// The interest quoted when the lend offer was matched.
    pub interest: u64,
    pub lender_fee_percent: u64,
    /// The term of the loan, and the time allowed for collateral to come in.
    pub duration: u64,
    pub collateral_mint_token: Pubkey,
    pub collateral_decimals: u8,
    pub collateral_amount: u64,
    /// The health ratio computed when the loan was activated.
    pub health_ratio: u128,
    /// When the lend offer was matched.
    pub created_at: i64,
    /// When the loan was activated.
    pub started_at: i64,
    pub status: LoanOfferStatus,
}

impl LoanOfferAccount {
    /// Whether the time for activation has run out: more than `duration` has
    /// passed since the match.
    pub open spec fn is_expired(&self, now: i64) -> bool {
        now - self.created_at > self.duration
    }

    /// The part of the term that has run at `now`; zero before activation.
    pub open spec fn elapsed(&self, now: i64) -> int {
        if now > self.started_at {
            now - self.started_at
        } else {
            0
        }
    }

    /// Whether `now` lies within the term: not before activation, and at
    /// most `duration` after it.
    pub open spec fn in_repay_window(&self, now: i64) -> bool {
        self.started_at <= now && now - self.started_at <= self.duration
    }

    /// The interest accrued at `now`.
    pub open spec fn accrued_interest(&self, now: i64) -> int {
        accrued_interest_spec(
            self.borrow_amount as int,
            self.interest as int,
            self.elapsed(now),
            self.duration as int,
        )
    }

    /// What settles the loan at `now`: the principal and the interest
    /// accrued.
    pub open spec fn total_repay(&self, now: i64) -> int {
        total_repay_spec(self.borrow_amount as int, self.accrued_interest(now))
    }

    /// The health of the position under a pair of price readings: the error
    /// for which the readings are turned down, or else the ratio of the
    /// collateral's value to the principal's, or `HealthRatioInvalid` where
    /// there is no such ratio.
    pub open spec fn health_at(
        &self,
        collateral_feed: PriceFeed,
        lend_feed: PriceFeed,
        now: i64,
        staleness_bound: u64,
    ) -> Result<int, LoanOfferError> {
        match price_feeds_rejection(
            collateral_feed,
            lend_feed,
            self.collateral_mint_token,
            self.lend_mint_token,
            now,
            staleness_bound,
        ) {
            Some(e) => Err(e),
            None => match position_health_spec(
                self.collateral_amount,
                self.collateral_decimals,
                collateral_feed.price,
                self.borrow_amount,
                self.lend_decimals,
                lend_feed.price,
            ) {
                Some(ratio) => Ok(ratio),
                None => Err(LoanOfferError::HealthRatioInvalid),
            },
        }
    }

    /// Whether the time for activation has run out; see [`Self::is_expired`].
    pub fn expired(&self, now: i64) -> (expired: bool)
        ensures
            expired == self.is_expired(now),
    {
        (now as i128) - (self.created_at as i128) > self.duration as i128
    }

    /// Whether `now` lies within the term; see [`Self::in_repay_window`].
    pub fn within_repay_window(&self, now: i64) -> (within: bool)
        ensures
            within == self.in_repay_window(now),
    {
        self.started_at <= now && (now as i128) - (self.started_at as i128)
            <= self.duration as i128
    }

    /// What settles the loan at `now`, exactly; see [`Self::total_repay`].
    pub fn total_repay_at(&self, now: i64) -> (total: u128)
        ensures
            total == self.total_repay(now),
            total >= self.borrow_amount,
    {
        let elapsed: u64 = if now > self.started_at {
            ((now as i128) - (self.started_at as i128)) as u64
        } else {
            0
        };
        let accrued: u128 = accrued_interest(
            self.borrow_amount,
            self.interest,
            elapsed,
            self.duration,
        );
        proof {
            lemma_product_fits(self.borrow_amount, self.interest);
            lemma_div_is_ordered(
                self.borrow_amount as int * self.interest as int,
                u128::MAX as int,
                WHOLE as int,
            );
            assert(full_term_interest(self.borrow_amount as int, self.interest as int)
                <= u128::MAX as int / (WHOLE as int));
        }
        self.borrow_amount as u128 + accrued
    }

    /// The health of the position under a pair of price readings; see
    /// [`Self::health_at`].
    pub fn compute_health(
        &self,
        collateral_feed: &PriceFeed,
        lend_feed: &PriceFeed,
        now: i64,
        staleness_bound: u64,
    ) -> (result: Result<u128, LoanOfferError>)
        ensures
            match result {
                Ok(ratio) => self.health_at(*collateral_feed, *lend_feed, now, staleness_bound)
                    == Ok::<int, LoanOfferError>(ratio as int),
                Err(e) => self.health_at(*collateral_feed, *lend_feed, now, staleness_bound)
                    == Err::<int, LoanOfferError>(e),
            },
    {
        check_price_feeds(
            collateral_feed,
            lend_feed,
            &self.collateral_mint_token,
            &self.lend_mint_token,
            now,
            staleness_bound,
        )?;
        position_health(
            self.collateral_amount,
            self.collateral_decimals,
            collateral_feed.price,
            self.borrow_amount,
            self.lend_decimals,
            lend_feed.price,
        )
    }
}

} // verus!
