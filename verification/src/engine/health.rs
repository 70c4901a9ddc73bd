use crate::common::constant::WHOLE;
use crate::common::error::LoanOfferError;
use crate::common::pubkey::Pubkey;
use crate::engine::amount::{checked_pow10_u128, lemma_pow10_positive, pow10};
use crate::engine::interest::lemma_product_fits;
use vstd::arithmetic::div_mod::{lemma_basic_div, lemma_div_pos_is_pos};
use vstd::prelude::*;

verus! {

/// One reading of a price oracle: the price of one whole unit of an asset, in
/// the smallest unit of the quote currency, and when it was published.
#[derive(Clone, Copy, Debug, PartialEq, Eq)]
pub struct PriceFeed {
    /// The asset that the reading prices.
    pub asset: Pubkey,
    pub price: u64,
    pub confidence: u64,
    /// Time of publication, in seconds.
    pub publish_time: i64,
}

impl PriceFeed {
    /// Whether the reading is at most `bound` seconds old at the time `now`.
    pub open spec fn is_fresh(&self, now: i64, bound: u64) -> bool {
        now - self.publish_time <= bound
    }

    /// Whether the reading is at most `bound` seconds old at the time `now`.
    pub fn fresh(&self, now: i64, bound: u64) -> (fresh: bool)
        ensures
            fresh == self.is_fresh(now, bound),
    {
        (now as i128) - (self.publish_time as i128) <= bound as i128
    }
}

/// The value of `amount` smallest units of an asset with `decimals` decimals
/// at `price` per whole unit, rounded down to the quote currency's smallest
/// unit.
pub open spec fn asset_value_spec(amount: int, decimals: nat, price: int) -> int {
    amount * price / (pow10(decimals) as int)
}

/// The ratio of collateral value to loan value in the fixed-point unit of
/// [`WHOLE`], rounded down.
pub open spec fn health_ratio_spec(collateral_value: int, loan_value: int) -> int {
    collateral_value * WHOLE as int / loan_value
}

/// Whether a ratio can be formed of the two values and held in 128 bits.
pub open spec fn health_ratio_defined(collateral_value: int, loan_value: int) -> bool {
    loan_value != 0 && collateral_value * WHOLE as int <= u128::MAX
}

/// The value of an amount of an asset; see [`asset_value_spec`]. Every input
/// is allowed.
pub fn asset_value(amount: u64, decimals: u8, price: u64) -> (value: u128)
    ensures
        value == asset_value_spec(amount as int, decimals as nat, price as int),
{
    proof {
        lemma_product_fits(amount, price);
        lemma_pow10_positive(decimals as nat);
    }
    let product: u128 = (amount as u128) * (price as u128);
    match checked_pow10_u128(decimals) {
        Some(unit) => product / unit,
        None => {
            proof {
                lemma_basic_div(product as int, pow10(decimals as nat) as int);
            }
            0
        },
    }
}

/// The health ratio of a position; see [`health_ratio_spec`].
///
/// Fails with `HealthRatioInvalid` exactly when the loan has no value, or when
/// the collateral's value is so large that the ratio's numerator leaves 128
/// bits.
pub fn health_ratio(collateral_value: u128, loan_value: u128) -> (result: Result<
    u128,
    LoanOfferError,
>)
    ensures
        match result {
            Ok(ratio) => health_ratio_defined(collateral_value as int, loan_value as int) && ratio
                == health_ratio_spec(collateral_value as int, loan_value as int),
            Err(e) => !health_ratio_defined(collateral_value as int, loan_value as int) && e
                == LoanOfferError::HealthRatioInvalid,
        },
{
    if loan_value == 0 {
        return Err(LoanOfferError::HealthRatioInvalid);
    }
    match collateral_value.checked_mul(WHOLE as u128) {
        Some(numerator) => Ok(numerator / loan_value),
        None => Err(LoanOfferError::HealthRatioInvalid),
    }
}

/// Whether a position with this health ratio may be opened: the ratio is at
/// least the minimum to borrow.
pub fn meets_borrow_minimum(ratio: u128, min_health_ratio_to_borrow: u64) -> (allowed: bool)
    ensures
        allowed == (ratio >= min_health_ratio_to_borrow),
{
    ratio >= min_health_ratio_to_borrow as u128
}

/// Whether a position with this health ratio may be liquidated: the ratio is
/// strictly below the liquidation limit.
pub fn is_liquidatable(ratio: u128, liquidation_health_ratio_limit: u64) -> (eligible: bool)
    ensures
        eligible == (ratio < liquidation_health_ratio_limit),
{
    ratio < liquidation_health_ratio_limit as u128
}

/// Rounding the ratio down loses nothing at a threshold: the rounded ratio
/// reaches `threshold` exactly when the collateral is worth at least
/// `threshold / WHOLE` times the loan.
pub proof fn lemma_threshold_exact(collateral_value: int, loan_value: int, threshold: int)
    requires
        0 <= collateral_value,
        0 < loan_value,
    ensures
        health_ratio_spec(collateral_value, loan_value) >= threshold <==> collateral_value
            * WHOLE as int >= threshold * loan_value,
{
    let n = collateral_value * WHOLE as int;
    let q = n / loan_value;
    vstd::arithmetic::div_mod::lemma_fundamental_div_mod(n, loan_value);
    vstd::arithmetic::div_mod::lemma_mod_bound(n, loan_value);
    let r = n % loan_value;
    if q >= threshold {
        assert(n >= threshold * loan_value) by (nonlinear_arith)
            requires
                n == loan_value * q + r,
                0 <= r,
                q >= threshold,
                0 < loan_value,
        ;
    } else {
        assert(n < threshold * loan_value) by (nonlinear_arith)
            requires
                n == loan_value * q + r,
                r < loan_value,
                q + 1 <= threshold,
                0 < loan_value,
        ;
    }
}


/// The health ratio of a position, from its amounts and the two prices: the
/// value of the collateral over the value of what was borrowed, or `None`
/// where no ratio can be formed of the two.
pub open spec fn position_health_spec(
    collateral_amount: u64,
    collateral_decimals: u8,
    collateral_price: u64,
    borrow_amount: u64,
    lend_decimals: u8,
    lend_price: u64,
) -> Option<int> {
    let collateral_value = asset_value_spec(
        collateral_amount as int,
        collateral_decimals as nat,
        collateral_price as int,
    );
    let loan_value = asset_value_spec(borrow_amount as int, lend_decimals as nat, lend_price as int);
    if health_ratio_defined(collateral_value, loan_value) {
        Some(health_ratio_spec(collateral_value, loan_value))
    } else {
        None
    }
}

/// The health ratio of a position; see [`position_health_spec`]. Fails with
/// `HealthRatioInvalid` exactly where no ratio can be formed.
pub fn position_health(
    collateral_amount: u64,
    collateral_decimals: u8,
    collateral_price: u64,
    borrow_amount: u64,
    lend_decimals: u8,
    lend_price: u64,
) -> (result: Result<u128, LoanOfferError>)
    ensures
        match result {
            Ok(ratio) => position_health_spec(
                collateral_amount,
                collateral_decimals,
                collateral_price,
                borrow_amount,
                lend_decimals,
                lend_price,
            ) == Some(ratio as int),
            Err(e) => e == LoanOfferError::HealthRatioInvalid && position_health_spec(
                collateral_amount,
                collateral_decimals,
                collateral_price,
                borrow_amount,
                lend_decimals,
                lend_price,
            ) is None,
        },
{
    let collateral_value = asset_value(collateral_amount, collateral_decimals, collateral_price);
    let loan_value = asset_value(borrow_amount, lend_decimals, lend_price);
    health_ratio(collateral_value, loan_value)
}

/// Why a pair of price readings is turned down, if it is: a reading prices
/// another asset than the one asked about, or is older than `bound`.
pub open spec fn price_feeds_rejection(
    collateral_feed: PriceFeed,
    lend_feed: PriceFeed,
    collateral_mint: Pubkey,
    lend_mint: Pubkey,
    now: i64,
    bound: u64,
) -> Option<LoanOfferError> {
    if collateral_feed.asset != collateral_mint {
        Some(LoanOfferError::InvalidPriceFeedAccountForCollateralAsset)
    } else if lend_feed.asset != lend_mint {
        Some(LoanOfferError::InvalidPriceFeedAccountForLendAsset)
    } else if !collateral_feed.is_fresh(now, bound) || !lend_feed.is_fresh(now, bound) {
        Some(LoanOfferError::InvalidPriceFeedAccount)
    } else {
        None
    }
}

/// Holds a pair of price readings to the assets they are meant for and to
/// the staleness bound; see [`price_feeds_rejection`].
pub fn check_price_feeds(
    collateral_feed: &PriceFeed,
    lend_feed: &PriceFeed,
    collateral_mint: &Pubkey,
    lend_mint: &Pubkey,
    now: i64,
    bound: u64,
) -> (result: Result<(), LoanOfferError>)
    ensures
        result == match price_feeds_rejection(
            *collateral_feed,
            *lend_feed,
            *collateral_mint,
            *lend_mint,
            now,
            bound,
        ) {
            Some(e) => Err::<(), LoanOfferError>(e),
            None => Ok::<(), LoanOfferError>(()),
        },
{
    if collateral_feed.asset != *collateral_mint {
        return Err(LoanOfferError::InvalidPriceFeedAccountForCollateralAsset);
    }
    if lend_feed.asset != *lend_mint {
        return Err(LoanOfferError::InvalidPriceFeedAccountForLendAsset);
    }
    if !collateral_feed.fresh(now, bound) || !lend_feed.fresh(now, bound) {
        return Err(LoanOfferError::InvalidPriceFeedAccount);
    }
    Ok(())
}

} // verus!
