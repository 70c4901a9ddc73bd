use enso_lending::common::constant::PERCENT;
use enso_lending::contexts::activate_loan_offer::ActivateLoanOffer;
use enso_lending::contexts::create_loan_offer::CreateLoanOffer;
use enso_lending::contexts::deposit_collateral::DepositCollateral;
use enso_lending::contexts::liquidate_loan_offer::LiquidateLoanOffer;
use enso_lending::contexts::repay_loan_offer::RepayLoanOffer;
use enso_lending::contexts::withdraw_expired_loan_offer::WithdrawExpiredLoanOffer;
use enso_lending::engine::health::PriceFeed;
use enso_lending::states::collateral_payload::ParsedCollateralPayload;
use enso_lending::states::lend_offer::{LendOfferAccount, LendOfferStatus};
use enso_lending::states::loan_offer::{LoanOfferAccount, LoanOfferStatus, LoanOfferTransition};
use enso_lending::states::token::{Mint, TokenAccount, TransferChecked};
use enso_lending::{
    Config, LendingError, LiquidateOfferError, LoanOfferError, ParseVaaError, Pubkey,
    RepayOfferError,
};

const LENDER: u8 = 1;
const OPERATOR: u8 = 2;
const LEND_MINT: u8 = 3;
const RECEIVER: u8 = 4;
const BORROWER: u8 = 5;
const COLLATERAL_MINT: u8 = 6;
const T0: i64 = 1_700_000_000;
const DURATION: u64 = 1_000;

fn key(tag: u8) -> Pubkey {
    Pubkey::new([tag; 32])
}

fn account(tag: u8, mint: u8, owner: u8, amount: u64) -> TokenAccount {
    TokenAccount { key: key(tag), mint: key(mint), owner: key(owner), amount }
}

fn config() -> Config {
    Config {
        system_operator: key(OPERATOR),
        max_allowed_interest: 100 * PERCENT,
        min_health_ratio_to_borrow: 120 * PERCENT,
        liquidation_health_ratio_limit: 110 * PERCENT,
        vaa_validity_window: 3_600,
        price_staleness_bound: 60,
    }
}

fn lend_offer(status: LendOfferStatus) -> LendOfferAccount {
    LendOfferAccount {
        interest: 5 * PERCENT,
        lender_fee_percent: 10 * PERCENT,
        duration: DURATION,
        offer_id: String::from("offer_1"),
        lender: key(LENDER),
        lend_mint_token: key(LEND_MINT),
        amount: 100_000_000,
        bump: 255,
        status,
    }
}

/// A loan offer of 100 units (6 decimals) against `collateral` smallest units
/// of a 9-decimal asset.
fn loan_offer(status: LoanOfferStatus, collateral: u64) -> LoanOfferAccount {
    LoanOfferAccount {
        borrower: key(BORROWER),
        lender: key(LENDER),
        lend_offer_id: String::from("offer_1"),
        lend_mint_token: key(LEND_MINT),
        lend_decimals: 6,
        borrow_amount: 100_000_000,
        interest: 5 * PERCENT,
        lender_fee_percent: 10 * PERCENT,
        duration: DURATION,
        collateral_mint_token: key(COLLATERAL_MINT),
        collateral_decimals: 9,
        collateral_amount: collateral,
        health_ratio: 0,
        created_at: T0,
        started_at: T0,
        status,
    }
}

fn collateral_feed(price: u64, publish_time: i64) -> PriceFeed {
    PriceFeed { asset: key(COLLATERAL_MINT), price, confidence: 1, publish_time }
}

fn lend_feed(price: u64, publish_time: i64) -> PriceFeed {
    PriceFeed { asset: key(LEND_MINT), price, confidence: 1, publish_time }
}

fn deposit_context(loan: LoanOfferAccount) -> DepositCollateral {
    DepositCollateral {
        borrower: key(BORROWER),
        loan_offer: loan,
        borrower_ata_asset: account(20, COLLATERAL_MINT, BORROWER, u64::MAX),
        hot_wallet_ata: account(21, COLLATERAL_MINT, RECEIVER, 0),
    }
}

/// Collateral priced at `collateral_price` per unit, the lend asset at 1.
fn activate_context(loan: LoanOfferAccount, collateral_price: u64) -> ActivateLoanOffer {
    ActivateLoanOffer {
        borrower: key(BORROWER),
        loan_offer: loan,
        lend_offer: lend_offer(LendOfferStatus::Created),
        collateral_price_feed: collateral_feed(collateral_price, T0),
        lend_price_feed: lend_feed(1, T0),
        hot_wallet_ata: account(22, LEND_MINT, RECEIVER, 100_000_000),
        borrower_ata_asset: account(23, LEND_MINT, BORROWER, 0),
    }
}

fn repay_context(loan: LoanOfferAccount) -> RepayLoanOffer {
    RepayLoanOffer {
        borrower: key(BORROWER),
        loan_offer: loan,
        borrower_ata_asset: account(23, LEND_MINT, BORROWER, u64::MAX),
        lender_ata_asset: account(24, LEND_MINT, LENDER, 0),
        hot_wallet_ata_asset: account(22, LEND_MINT, RECEIVER, 0),
        hot_wallet_ata_collateral: account(21, COLLATERAL_MINT, RECEIVER, u64::MAX),
        borrower_ata_collateral: account(20, COLLATERAL_MINT, BORROWER, 0),
    }
}

fn liquidate_context(loan: LoanOfferAccount, collateral_price: u64, now: i64) -> LiquidateLoanOffer {
    LiquidateLoanOffer {
        system: key(OPERATOR),
        borrower: key(BORROWER),
        lender: key(LENDER),
        loan_offer: loan,
        collateral_price_feed: collateral_feed(collateral_price, now),
        lend_price_feed: lend_feed(1, now),
        system_ata_asset: account(25, LEND_MINT, OPERATOR, 1_000_000_000),
        lender_ata_asset: account(24, LEND_MINT, LENDER, 0),
        hot_wallet_ata_collateral: account(21, COLLATERAL_MINT, RECEIVER, u64::MAX),
        system_ata_collateral: account(26, COLLATERAL_MINT, OPERATOR, 0),
    }
}

fn withdraw_context(loan: LoanOfferAccount, caller: u8) -> WithdrawExpiredLoanOffer {
    WithdrawExpiredLoanOffer {
        caller: key(caller),
        loan_offer: loan,
        hot_wallet_ata: account(21, COLLATERAL_MINT, RECEIVER, u64::MAX),
        borrower_ata_asset: account(20, COLLATERAL_MINT, BORROWER, 0),
    }
}

fn loan_error(e: LoanOfferError) -> LendingError {
    LendingError::LoanOffer(e)
}

#[test]
fn matching_opens_a_loan_offer_on_the_lend_offers_terms() {
    let context = CreateLoanOffer {
        borrower: key(BORROWER),
        lend_offer: lend_offer(LendOfferStatus::Created),
        lend_mint: Mint { key: key(LEND_MINT), decimals: 6 },
        collateral_mint: Mint { key: key(COLLATERAL_MINT), decimals: 9 },
    };
    assert_eq!(
        context.create_loan_offer(T0),
        Ok(loan_offer(LoanOfferStatus::AwaitingCollateral, 0))
    );
}

#[test]
fn matching_needs_an_open_lend_offer_of_the_lend_asset() {
    for status in [
        LendOfferStatus::Canceling,
        LendOfferStatus::Canceled,
        LendOfferStatus::Matched,
    ] {
        let context = CreateLoanOffer {
            borrower: key(BORROWER),
            lend_offer: lend_offer(status),
            lend_mint: Mint { key: key(LEND_MINT), decimals: 6 },
            collateral_mint: Mint { key: key(COLLATERAL_MINT), decimals: 9 },
        };
        assert_eq!(context.create_loan_offer(T0), Err(LoanOfferError::LendOfferIsNotAvailable));
    }
    let context = CreateLoanOffer {
        borrower: key(BORROWER),
        lend_offer: lend_offer(LendOfferStatus::Created),
        lend_mint: Mint { key: key(99), decimals: 6 },
        collateral_mint: Mint { key: key(COLLATERAL_MINT), decimals: 9 },
    };
    assert_eq!(context.create_loan_offer(T0), Err(LoanOfferError::InvalidLendMintAsset));
}

#[test]
fn deposit_adds_to_the_collateral_and_orders_the_move() {
    let mut context = deposit_context(loan_offer(LoanOfferStatus::AwaitingCollateral, 0));
    let order = context.deposit_collateral(1_500_000_000, 9, None, T0 + 10).unwrap();
    assert_eq!(
        order,
        TransferChecked {
            from: key(20),
            mint: key(COLLATERAL_MINT),
            to: key(21),
            authority: key(BORROWER),
            amount: 1_500_000_000,
            decimals: 9,
        }
    );
    assert_eq!(context.loan_offer, loan_offer(LoanOfferStatus::AwaitingCollateral, 1_500_000_000));
    assert!(context.deposit_collateral(500_000_000, 9, None, T0 + 20).is_ok());
    assert_eq!(context.loan_offer.collateral_amount, 2_000_000_000);
    assert_eq!(context.loan_offer.status, LoanOfferStatus::AwaitingCollateral);
}

#[test]
fn deposit_is_for_the_borrower_alone() {
    let mut context = deposit_context(loan_offer(LoanOfferStatus::AwaitingCollateral, 0));
    context.borrower = key(LENDER);
    let before = context.clone();
    assert_eq!(
        context.deposit_collateral(1, 9, None, T0),
        Err(loan_error(LoanOfferError::InvalidBorrower))
    );
    assert_eq!(context, before);
}

#[test]
fn deposit_needs_a_loan_offer_that_awaits_collateral() {
    for status in [
        LoanOfferStatus::Active,
        LoanOfferStatus::Repaid,
        LoanOfferStatus::Liquidated,
        LoanOfferStatus::Expired,
    ] {
        let mut context = deposit_context(loan_offer(status, 5));
        let before = context.clone();
        assert_eq!(
            context.deposit_collateral(1, 9, None, T0),
            Err(loan_error(LoanOfferError::CanNotDepositCollateralToContractThatNotAvailable))
        );
        assert_eq!(context, before);
    }
}

#[test]
fn deposit_after_the_deadline_is_too_late() {
    let mut context = deposit_context(loan_offer(LoanOfferStatus::AwaitingCollateral, 0));
    assert!(context.deposit_collateral(1, 9, None, T0 + 1_000).is_ok());
    assert_eq!(
        context.deposit_collateral(1, 9, None, T0 + 1_001),
        Err(loan_error(LoanOfferError::LoanOfferExpired))
    );
    assert_eq!(context.loan_offer.collateral_amount, 1);
}

#[test]
fn attested_deposit_must_agree_with_the_attestation() {
    let attested = ParsedCollateralPayload {
        target_chain_id: 1,
        collateral_amount: 2_000_000_000,
        collateral_decimals: 9,
        remaining_collateral_amount: 0,
    };
    let mut context = deposit_context(loan_offer(LoanOfferStatus::AwaitingCollateral, 0));
    let before = context.clone();
    assert_eq!(
        context.deposit_collateral(1_999_999_999, 9, Some(attested), T0),
        Err(LendingError::ParseVaa(ParseVaaError::InvalidCollateralAmount))
    );
    assert_eq!(
        context.deposit_collateral(2_000_000_001, 9, Some(attested), T0),
        Err(LendingError::ParseVaa(ParseVaaError::InvalidCollateralAmount))
    );
    assert_eq!(
        context.deposit_collateral(2_000_000_000, 8, Some(attested), T0),
        Err(LendingError::ParseVaa(ParseVaaError::InvalidCollateralDecimal))
    );
    // Amount and decimals both off: the amount is named first.
    assert_eq!(
        context.deposit_collateral(1, 8, Some(attested), T0),
        Err(LendingError::ParseVaa(ParseVaaError::InvalidCollateralAmount))
    );
    assert_eq!(context, before);
    let order = context.deposit_collateral(2_000_000_000, 9, Some(attested), T0).unwrap();
    assert_eq!(order.amount, 2_000_000_000);
    assert_eq!(context.loan_offer.collateral_amount, 2_000_000_000);
}

#[test]
fn deposit_must_be_in_the_loan_offers_decimals() {
    let mut context = deposit_context(loan_offer(LoanOfferStatus::AwaitingCollateral, 0));
    assert_eq!(
        context.deposit_collateral(1, 6, None, T0),
        Err(LendingError::ParseVaa(ParseVaaError::InvalidCollateralDecimal))
    );
    let attested = ParsedCollateralPayload {
        target_chain_id: 1,
        collateral_amount: 1,
        collateral_decimals: 6,
        remaining_collateral_amount: 0,
    };
    assert_eq!(
        context.deposit_collateral(1, 6, Some(attested), T0),
        Err(LendingError::ParseVaa(ParseVaaError::InvalidCollateralDecimal))
    );
}

#[test]
fn deposit_beyond_64_bits_is_refused() {
    let mut context = deposit_context(loan_offer(LoanOfferStatus::AwaitingCollateral, u64::MAX - 1));
    assert_eq!(
        context.deposit_collateral(2, 9, None, T0),
        Err(LendingError::ParseVaa(ParseVaaError::InvalidCollateralAmount))
    );
    assert!(context.deposit_collateral(1, 9, None, T0).is_ok());
    assert_eq!(context.loan_offer.collateral_amount, u64::MAX);
}

#[test]
fn activation_at_a_healthy_ratio() {
    // 2 units of collateral at 75 are worth 150; 100 units lent at 1 are
    // worth 100.
    let mut context = activate_context(
        loan_offer(LoanOfferStatus::AwaitingCollateral, 2_000_000_000),
        75,
    );
    let payout = context.activate(&config(), T0 + 30).unwrap();
    assert_eq!(
        payout,
        TransferChecked {
            from: key(22),
            mint: key(LEND_MINT),
            to: key(23),
            authority: key(RECEIVER),
            amount: 100_000_000,
            decimals: 6,
        }
    );
    let mut expected = loan_offer(LoanOfferStatus::Active, 2_000_000_000);
    expected.health_ratio = 150 * PERCENT as u128;
    expected.started_at = T0 + 30;
    assert_eq!(context.loan_offer, expected);
    assert_eq!(context.lend_offer, lend_offer(LendOfferStatus::Matched));
}

#[test]
fn activation_needs_the_minimum_health_ratio() {
    // Exactly 120 %.
    let mut context = activate_context(
        loan_offer(LoanOfferStatus::AwaitingCollateral, 2_000_000_000),
        60,
    );
    assert!(context.activate(&config(), T0).is_ok());
    assert_eq!(context.loan_offer.health_ratio, 120 * PERCENT as u128);
    // Just below.
    let mut context = activate_context(
        loan_offer(LoanOfferStatus::AwaitingCollateral, 1_999_999_999),
        60,
    );
    let before = context.clone();
    assert_eq!(
        context.activate(&config(), T0),
        Err(LoanOfferError::CanNotTakeALoanBecauseHealthRatioIsNotValid)
    );
    assert_eq!(context, before);
    // Without collateral.
    let mut context = activate_context(loan_offer(LoanOfferStatus::AwaitingCollateral, 0), 60);
    assert_eq!(
        context.activate(&config(), T0),
        Err(LoanOfferError::CanNotTakeALoanBecauseHealthRatioIsNotValid)
    );
}

#[test]
fn activation_is_for_the_borrower_of_an_awaiting_loan_offer() {
    let mut context = activate_context(
        loan_offer(LoanOfferStatus::AwaitingCollateral, 2_000_000_000),
        75,
    );
    context.borrower = key(LENDER);
    assert_eq!(context.activate(&config(), T0), Err(LoanOfferError::InvalidBorrower));
    for status in [
        LoanOfferStatus::Active,
        LoanOfferStatus::Repaid,
        LoanOfferStatus::Liquidated,
        LoanOfferStatus::Expired,
    ] {
        let mut context = activate_context(loan_offer(status, 2_000_000_000), 75);
        assert_eq!(context.activate(&config(), T0), Err(LoanOfferError::InvalidOfferStatus));
    }
    let mut context = activate_context(
        loan_offer(LoanOfferStatus::AwaitingCollateral, 2_000_000_000),
        75,
    );
    context.collateral_price_feed.publish_time = T0 + 1_001;
    context.lend_price_feed.publish_time = T0 + 1_001;
    assert_eq!(context.activate(&config(), T0 + 1_001), Err(LoanOfferError::LoanOfferExpired));
}

#[test]
fn activation_holds_the_lend_offer_to_the_match() {
    let fresh = || activate_context(loan_offer(LoanOfferStatus::AwaitingCollateral, 2_000_000_000), 75);

    let mut context = fresh();
    context.lend_offer.offer_id = String::from("offer_2");
    assert_eq!(context.activate(&config(), T0), Err(LoanOfferError::LendOfferIdNotMatch));

    let mut context = fresh();
    context.lend_offer.lender = key(77);
    assert_eq!(context.activate(&config(), T0), Err(LoanOfferError::LendOfferIdNotMatch));

    for status in [
        LendOfferStatus::Canceling,
        LendOfferStatus::Canceled,
        LendOfferStatus::Matched,
    ] {
        let mut context = fresh();
        context.lend_offer.status = status;
        let before = context.clone();
        assert_eq!(context.activate(&config(), T0), Err(LoanOfferError::LendOfferIsNotAvailable));
        assert_eq!(context, before);
    }

    let mut context = fresh();
    context.lend_offer.interest = 6 * PERCENT;
    assert_eq!(
        context.activate(&config(), T0),
        Err(LoanOfferError::CanNotCreateLoanCauseLendInterestUpdated)
    );

    let mut context = fresh();
    context.lend_offer.amount = 100_000_001;
    assert_eq!(context.activate(&config(), T0), Err(LoanOfferError::InvalidLendOfferAmount));
}

#[test]
fn activation_holds_the_price_readings_to_their_assets_and_age() {
    let fresh = || activate_context(loan_offer(LoanOfferStatus::AwaitingCollateral, 2_000_000_000), 75);

    let mut context = fresh();
    context.collateral_price_feed.asset = key(LEND_MINT);
    assert_eq!(
        context.activate(&config(), T0),
        Err(LoanOfferError::InvalidPriceFeedAccountForCollateralAsset)
    );

    let mut context = fresh();
    context.lend_price_feed.asset = key(COLLATERAL_MINT);
    assert_eq!(
        context.activate(&config(), T0),
        Err(LoanOfferError::InvalidPriceFeedAccountForLendAsset)
    );

    let mut context = fresh();
    assert_eq!(context.activate(&config(), T0 + 61), Err(LoanOfferError::InvalidPriceFeedAccount));
    assert!(context.activate(&config(), T0 + 60).is_ok());

    let mut context = fresh();
    context.lend_price_feed.price = 0;
    assert_eq!(context.activate(&config(), T0), Err(LoanOfferError::HealthRatioInvalid));
}

#[test]
fn total_repay_grows_with_time_up_to_the_full_term() {
    let loan = loan_offer(LoanOfferStatus::Active, 2_000_000_000);
    assert_eq!(loan.total_repay_at(T0 - 5), 100_000_000);
    assert_eq!(loan.total_repay_at(T0), 100_000_000);
    assert_eq!(loan.total_repay_at(T0 + 500), 102_500_000);
    assert_eq!(loan.total_repay_at(T0 + 1_000), 105_000_000);
    assert_eq!(loan.total_repay_at(T0 + 5_000), 105_000_000);
    assert_eq!(loan.total_repay_at(i64::MAX), 105_000_000);
}

#[test]
fn repayment_settles_lender_fee_and_collateral() {
    let mut context = repay_context(loan_offer(LoanOfferStatus::Active, 2_000_000_000));
    let repaid = context.repay(200_000_000, T0 + 500).unwrap();
    // 102.5 units are due; 10 % of them are the fee.
    assert_eq!(
        repaid.to_lender,
        TransferChecked {
            from: key(23),
            mint: key(LEND_MINT),
            to: key(24),
            authority: key(BORROWER),
            amount: 92_250_000,
            decimals: 6,
        }
    );
    assert_eq!(
        repaid.fee,
        TransferChecked {
            from: key(23),
            mint: key(LEND_MINT),
            to: key(22),
            authority: key(BORROWER),
            amount: 10_250_000,
            decimals: 6,
        }
    );
    assert_eq!(
        repaid.collateral,
        TransferChecked {
            from: key(21),
            mint: key(COLLATERAL_MINT),
            to: key(20),
            authority: key(RECEIVER),
            amount: 2_000_000_000,
            decimals: 9,
        }
    );
    assert_eq!(context.loan_offer, loan_offer(LoanOfferStatus::Repaid, 0));
}

#[test]
fn repayment_must_cover_principal_and_accrued_interest() {
    let mut context = repay_context(loan_offer(LoanOfferStatus::Active, 2_000_000_000));
    let before = context.clone();
    assert_eq!(context.repay(102_499_999, T0 + 500), Err(RepayOfferError::NotEnoughAmount));
    assert_eq!(context.repay(0, T0), Err(RepayOfferError::NotEnoughAmount));
    assert_eq!(context, before);
    let repaid = context.repay(102_500_000, T0 + 500).unwrap();
    assert_eq!(repaid.to_lender.amount + repaid.fee.amount, 102_500_000);
}

#[test]
fn repayment_covers_a_total_the_fee_does_not_divide() {
    let mut loan = loan_offer(LoanOfferStatus::Active, 1);
    loan.borrow_amount = 1_001;
    loan.interest = 0;
    loan.lender_fee_percent = 2_500_000;
    let mut context = repay_context(loan);
    let repaid = context.repay(1_001, T0).unwrap();
    assert_eq!(repaid.fee.amount, 25);
    assert_eq!(repaid.to_lender.amount, 976);
}

#[test]
fn repayment_is_for_the_borrower_of_an_active_loan() {
    let mut context = repay_context(loan_offer(LoanOfferStatus::Active, 2_000_000_000));
    context.borrower = key(77);
    assert_eq!(context.repay(u64::MAX, T0), Err(RepayOfferError::InvalidBorrower));
    for status in [
        LoanOfferStatus::AwaitingCollateral,
        LoanOfferStatus::Repaid,
        LoanOfferStatus::Liquidated,
        LoanOfferStatus::Expired,
    ] {
        let mut context = repay_context(loan_offer(status, 2_000_000_000));
        let before = context.clone();
        assert_eq!(context.repay(u64::MAX, T0), Err(RepayOfferError::InvalidOfferStatus));
        assert_eq!(context, before);
    }
    let mut context = repay_context(loan_offer(LoanOfferStatus::Active, 2_000_000_000));
    context.lender_ata_asset.owner = key(77);
    assert_eq!(context.repay(u64::MAX, T0), Err(RepayOfferError::InvalidLender));
}

#[test]
fn repayment_outside_the_term_is_refused() {
    let mut context = repay_context(loan_offer(LoanOfferStatus::Active, 2_000_000_000));
    assert_eq!(context.repay(u64::MAX, T0 - 1), Err(RepayOfferError::TimeUnmetException));
    assert_eq!(context.repay(u64::MAX, T0 + 1_001), Err(RepayOfferError::TimeUnmetException));
    assert_eq!(context.repay(u64::MAX, i64::MAX), Err(RepayOfferError::TimeUnmetException));
    assert_eq!(context.loan_offer.status, LoanOfferStatus::Active);
    let repaid = context.repay(u64::MAX, T0 + 1_000).unwrap();
    assert_eq!(repaid.to_lender.amount + repaid.fee.amount, 105_000_000);
    // Repaid once, it cannot be repaid again.
    assert_eq!(context.repay(u64::MAX, T0 + 1_000), Err(RepayOfferError::InvalidOfferStatus));
}

#[test]
fn repayment_of_a_debt_beyond_64_bits_is_never_covered() {
    let mut loan = loan_offer(LoanOfferStatus::Active, 1);
    loan.borrow_amount = u64::MAX;
    loan.interest = u64::MAX;
    loan.duration = 0;
    let mut context = repay_context(loan);
    assert_eq!(context.repay(u64::MAX, T0), Err(RepayOfferError::NotEnoughAmount));
}

#[test]
fn expired_loan_offer_gives_the_collateral_back() {
    for caller in [BORROWER, LENDER] {
        let mut context = withdraw_context(
            loan_offer(LoanOfferStatus::AwaitingCollateral, 700),
            caller,
        );
        let refund = context.expire_withdraw(T0 + 1_001).unwrap();
        assert_eq!(
            refund,
            TransferChecked {
                from: key(21),
                mint: key(COLLATERAL_MINT),
                to: key(20),
                authority: key(RECEIVER),
                amount: 700,
                decimals: 9,
            }
        );
        assert_eq!(context.loan_offer, loan_offer(LoanOfferStatus::Expired, 0));
        // Expired once, nothing is left to withdraw.
        assert_eq!(
            context.expire_withdraw(T0 + 2_000),
            Err(LoanOfferError::NotAvailableToWithdraw)
        );
    }
}

#[test]
fn withdrawal_before_the_deadline_is_refused() {
    let mut context = withdraw_context(loan_offer(LoanOfferStatus::AwaitingCollateral, 700), BORROWER);
    let before = context.clone();
    assert_eq!(context.expire_withdraw(T0), Err(LoanOfferError::LoanOfferNotExpired));
    assert_eq!(context.expire_withdraw(T0 + 1_000), Err(LoanOfferError::LoanOfferNotExpired));
    assert_eq!(context, before);
    // The other side of the same clock: a deposit is still welcome.
    let mut deposit = deposit_context(loan_offer(LoanOfferStatus::AwaitingCollateral, 700));
    assert!(deposit.deposit_collateral(1, 9, None, T0 + 1_000).is_ok());
}

#[test]
fn withdrawal_is_for_borrower_or_lender_of_an_awaiting_loan_offer() {
    let mut context = withdraw_context(loan_offer(LoanOfferStatus::AwaitingCollateral, 700), OPERATOR);
    assert_eq!(context.expire_withdraw(T0 + 5_000), Err(LoanOfferError::InvalidBorrower));
    for status in [
        LoanOfferStatus::Active,
        LoanOfferStatus::Repaid,
        LoanOfferStatus::Liquidated,
        LoanOfferStatus::Expired,
    ] {
        let mut context = withdraw_context(loan_offer(status, 700), BORROWER);
        let before = context.clone();
        assert_eq!(
            context.expire_withdraw(T0 + 5_000),
            Err(LoanOfferError::NotAvailableToWithdraw)
        );
        assert_eq!(context, before);
    }
}

#[test]
fn liquidation_below_the_limit() {
    // 2 units of collateral at 54 are worth 108 against 100: 108 % < 110 %.
    let mut loan = loan_offer(LoanOfferStatus::Active, 2_000_000_000);
    loan.health_ratio = 150 * PERCENT as u128;
    let mut context = liquidate_context(loan, 54, T0 + 500);
    let liquidated = context.liquidate(&config(), T0 + 500).unwrap();
    assert_eq!(
        liquidated.seized,
        TransferChecked {
            from: key(21),
            mint: key(COLLATERAL_MINT),
            to: key(26),
            authority: key(RECEIVER),
            amount: 2_000_000_000,
            decimals: 9,
        }
    );
    assert_eq!(
        liquidated.to_lender,
        TransferChecked {
            from: key(25),
            mint: key(LEND_MINT),
            to: key(24),
            authority: key(OPERATOR),
            amount: 92_250_000,
            decimals: 6,
        }
    );
    let mut expected = loan_offer(LoanOfferStatus::Liquidated, 0);
    expected.health_ratio = 108 * PERCENT as u128;
    assert_eq!(context.loan_offer, expected);
    // Liquidated once, it cannot be liquidated again.
    assert_eq!(
        context.liquidate(&config(), T0 + 500),
        Err(LendingError::LiquidateOffer(LiquidateOfferError::InvalidOfferStatus))
    );
}

#[test]
fn liquidation_is_refused_once_the_position_is_healthy_again() {
    // The loan offer records a ratio far below the limit ...
    let mut loan = loan_offer(LoanOfferStatus::Active, 2_000_000_000);
    loan.health_ratio = 50 * PERCENT as u128;
    // ... but at the prices read for this call it stands at exactly 110 %.
    let mut context = liquidate_context(loan, 55, T0 + 500);
    let before = context.clone();
    assert_eq!(
        context.liquidate(&config(), T0 + 500),
        Err(loan_error(LoanOfferError::HealthRatioLimit))
    );
    assert_eq!(context, before);
    context.collateral_price_feed.price = 500;
    assert_eq!(
        context.liquidate(&config(), T0 + 500),
        Err(loan_error(LoanOfferError::HealthRatioLimit))
    );
    // One smallest unit of collateral less than 110 % is enough to liquidate.
    context.collateral_price_feed.price = 55;
    context.loan_offer.collateral_amount = 1_999_999_999;
    assert!(context.liquidate(&config(), T0 + 500).is_ok());
}

#[test]
fn liquidation_is_for_the_operator_alone() {
    let mut context = liquidate_context(loan_offer(LoanOfferStatus::Active, 2_000_000_000), 54, T0);
    context.system = key(BORROWER);
    let before = context.clone();
    assert_eq!(
        context.liquidate(&config(), T0),
        Err(LendingError::LiquidateOffer(LiquidateOfferError::InvalidSystem))
    );
    assert_eq!(context, before);
}

#[test]
fn liquidation_holds_borrower_and_lender_to_the_loan_offer() {
    let mut context = liquidate_context(loan_offer(LoanOfferStatus::Active, 2_000_000_000), 54, T0);
    context.borrower = key(77);
    context.lender = key(77);
    assert_eq!(
        context.liquidate(&config(), T0),
        Err(LendingError::LiquidateOffer(LiquidateOfferError::InvalidBorrower))
    );
    context.borrower = key(BORROWER);
    assert_eq!(
        context.liquidate(&config(), T0),
        Err(LendingError::LiquidateOffer(LiquidateOfferError::InvalidLender))
    );
}

#[test]
fn liquidation_needs_an_active_loan() {
    for status in [
        LoanOfferStatus::AwaitingCollateral,
        LoanOfferStatus::Repaid,
        LoanOfferStatus::Liquidated,
        LoanOfferStatus::Expired,
    ] {
        let mut context = liquidate_context(loan_offer(status, 2_000_000_000), 54, T0);
        assert_eq!(
            context.liquidate(&config(), T0),
            Err(LendingError::LiquidateOffer(LiquidateOfferError::InvalidOfferStatus))
        );
    }
}

#[test]
fn liquidation_needs_fresh_prices_of_the_right_assets() {
    let fresh = || liquidate_context(loan_offer(LoanOfferStatus::Active, 2_000_000_000), 54, T0);

    let mut context = fresh();
    assert_eq!(
        context.liquidate(&config(), T0 + 61),
        Err(loan_error(LoanOfferError::InvalidPriceFeedAccount))
    );
    let mut context = fresh();
    context.collateral_price_feed.asset = key(77);
    assert_eq!(
        context.liquidate(&config(), T0),
        Err(loan_error(LoanOfferError::InvalidPriceFeedAccountForCollateralAsset))
    );
    let mut context = fresh();
    context.lend_price_feed.asset = key(77);
    assert_eq!(
        context.liquidate(&config(), T0),
        Err(loan_error(LoanOfferError::InvalidPriceFeedAccountForLendAsset))
    );
    let mut context = fresh();
    context.lend_price_feed.price = 0;
    assert_eq!(
        context.liquidate(&config(), T0),
        Err(loan_error(LoanOfferError::HealthRatioInvalid))
    );
}

#[test]
fn liquidation_needs_the_operator_to_cover_the_debt() {
    let mut context = liquidate_context(loan_offer(LoanOfferStatus::Active, 2_000_000_000), 54, T0 + 500);
    context.system_ata_asset.amount = 102_499_999;
    let before = context.clone();
    assert_eq!(
        context.liquidate(&config(), T0 + 500),
        Err(LendingError::LiquidateOffer(LiquidateOfferError::NotEnoughAmount))
    );
    assert_eq!(context, before);
    context.system_ata_asset.amount = 102_500_000;
    assert!(context.liquidate(&config(), T0 + 500).is_ok());
}

#[test]
fn loan_offer_transitions() {
    let awaiting = LoanOfferStatus::AwaitingCollateral;
    let active = LoanOfferStatus::Active;
    assert_eq!(awaiting.transition(LoanOfferTransition::DepositCollateral), Some(awaiting));
    assert_eq!(awaiting.transition(LoanOfferTransition::Activate), Some(active));
    assert_eq!(
        awaiting.transition(LoanOfferTransition::ExpireWithdraw),
        Some(LoanOfferStatus::Expired)
    );
    assert_eq!(active.transition(LoanOfferTransition::Repay), Some(LoanOfferStatus::Repaid));
    assert_eq!(
        active.transition(LoanOfferTransition::Liquidate),
        Some(LoanOfferStatus::Liquidated)
    );
    assert_eq!(awaiting.transition(LoanOfferTransition::Repay), None);
    assert_eq!(awaiting.transition(LoanOfferTransition::Liquidate), None);
    assert_eq!(active.transition(LoanOfferTransition::DepositCollateral), None);
    assert_eq!(active.transition(LoanOfferTransition::Activate), None);
    assert_eq!(active.transition(LoanOfferTransition::ExpireWithdraw), None);
    for terminal in [
        LoanOfferStatus::Repaid,
        LoanOfferStatus::Liquidated,
        LoanOfferStatus::Expired,
    ] {
        for transition in [
            LoanOfferTransition::DepositCollateral,
            LoanOfferTransition::Activate,
            LoanOfferTransition::Repay,
            LoanOfferTransition::Liquidate,
            LoanOfferTransition::ExpireWithdraw,
        ] {
            assert_eq!(terminal.transition(transition), None);
        }
    }
}

#[test]
fn loan_offer_clocks() {
    let loan = loan_offer(LoanOfferStatus::AwaitingCollateral, 0);
    assert!(!loan.expired(T0 - 1));
    assert!(!loan.expired(T0 + 1_000));
    assert!(loan.expired(T0 + 1_001));
    assert!(loan.expired(i64::MAX));
    assert!(!loan.expired(i64::MIN));
    assert!(!loan.within_repay_window(T0 - 1));
    assert!(loan.within_repay_window(T0));
    assert!(loan.within_repay_window(T0 + 1_000));
    assert!(!loan.within_repay_window(T0 + 1_001));
}
