use vstd::prelude::*;

verus! {

/// Rejections when a tier configuration is looked up or closed.
#[derive(Clone, Copy, Debug, PartialEq, Eq, Structural)]
pub enum SettingAccountError {
    /// The tier id given does not name this configuration.
    InvalidTierId,
    /// The caller does not own the configuration.
    InvalidOwner,
}

/// Rejections of the lend offer transitions: creation and the two phases of cancellation.
#[derive(Clone, Copy, Debug, PartialEq, Eq, Structural)]
pub enum LendOfferError {
    /// The amount to escrow cannot be held in the asset's units.
    InvalidLendAmount,
    /// The paying balance does not cover the amount to move.
    NotEnoughAmount,
    /// The asset posted is not the one the record names.
    InvalidMintAsset,
    /// The interest offered is not greater than zero.
    InterestGreaterThanZero,
    /// The offer does not belong to this lender.
    InvalidLender,
    /// The offer is not in the status that the transition starts from.
    InvalidOfferStatus,
    /// The offer id given does not name this offer.
    InvalidOfferId,
    /// The receiving account is not the configured one.
    InvalidReceiver,
    /// The interest offered reaches or passes the allowed maximum.
    InterestOverLimit,
    /// The signer is not allowed to ask for this transition.
    InvalidSigner,
}

/// Rejections of the loan offer transitions: deposit, activation, expiry and liquidation.
#[derive(Clone, Copy, Debug, PartialEq, Eq, Structural)]
pub enum LoanOfferError {
    /// The receiving account is not the configured one.
    InvalidReceiver,
    /// Collateral is deposited into a loan offer that no longer awaits it.
    CanNotDepositCollateralToContractThatNotAvailable,
    /// The health ratio is below the minimum to borrow.
    CanNotTakeALoanBecauseHealthRatioIsNotValid,
    /// The price reading is not one of the collateral asset.
    InvalidPriceFeedAccountForCollateralAsset,
    /// The price reading is not one of the lend asset.
    InvalidPriceFeedAccountForLendAsset,
    /// The paying balance does not cover the amount to move.
    NotEnoughAmount,
    /// The collateral asset is not the one the loan offer names.
    InvalidCollateralMintAsset,
    /// The lend asset is not the one the lend offer names.
    InvalidLendMintAsset,
    /// The loan offer is not in the status that the transition starts from.
    InvalidOfferStatus,
    /// The lend offer to match is no longer open.
    LendOfferIsNotAvailable,
    /// The position is at or above the liquidation limit.
    HealthRatioLimit,
    /// The loan offer has passed its deadline.
    LoanOfferExpired,
    /// The loan offer has not passed its deadline yet.
    LoanOfferNotExpired,
    /// The custody account is not the configured one.
    InvalidHotWallet,
    /// The caller is not the configured system operator.
    InvalidSystem,
    /// The loan offer does not belong to this borrower.
    InvalidBorrower,
    /// The loan offer is not the one referred to.
    InvalidLoanOffer,
    /// The amount to borrow is not the one agreed.
    InvalidBorrowAmount,
    /// The loan offer is not in a status that allows withdrawal.
    NotAvailableToWithdraw,
    /// No health ratio can be computed from the two values.
    HealthRatioInvalid,
    /// The lend offer's interest is no longer the one quoted.
    CanNotCreateLoanCauseLendInterestUpdated,
    /// The price reading is too old.
    InvalidPriceFeedAccount,
    /// The asset record is not the one referred to.
    InvalidAssetAccount,
    /// The collateral held does not cover the request.
    NotEnoughCollateral,
    /// The vault authority is not the configured one.
    InvalidInitializerVaultAuthority,
    /// The message asks for another operation.
    InvalidTargetFunction,
    /// The lend offer is not the one the loan offer refers to.
    LendOfferIdNotMatch,
    /// The tier is not the one the loan offer refers to.
    TierIdNotMatch,
    /// The attested message is older than the validity window.
    PostedVaaExpired,
    /// The borrower has already signed the loan offer.
    BorrowerSignedLoanOffer,
    /// The loan offer is still within its validity.
    LoanOfferInValidity,
    /// The lend offer's amount is not the one agreed.
    InvalidLendOfferAmount,
    /// The chain id is not the one expected.
    InvalidChainId,
    /// The amount withdrawn is not the one recorded.
    WithdrawAmountNotMatch,
}

/// Rejections of a repayment.
#[derive(Clone, Copy, Debug, PartialEq, Eq, Structural)]
pub enum RepayOfferError {
    /// The asset repaid is not the one that was lent.
    InvalidMintAsset,
    /// The amount offered does not cover principal and interest.
    NotEnoughAmount,
    /// The loan offer cannot be repaid.
    LoanOfferIsNotAvailable,
    /// The lend amount is not the one recorded.
    InvalidLendAmount,
    /// The loan offer does not belong to this borrower.
    InvalidBorrower,
    /// The collateral amount is not the one recorded.
    InvalidCollateralAmount,
    /// The loan offer is not active.
    InvalidOfferStatus,
    /// The loan offer does not belong to this lender.
    InvalidLender,
    /// The repayment falls outside the loan's term.
    TimeUnmetException,
}

/// Rejections of a liquidation.
#[derive(Clone, Copy, Debug, PartialEq, Eq, Structural)]
pub enum LiquidateOfferError {
    /// The loan offer does not belong to this lender.
    InvalidLender,
    /// The loan offer does not belong to this borrower.
    InvalidBorrower,
    /// The loan offer is not active.
    InvalidOfferStatus,
    /// The lend amount is not the one recorded.
    InvalidLendAmount,
    /// The proceeds do not cover the amount to move.
    NotEnoughAmount,
    /// The asset is not the one recorded.
    InvalidMintAsset,
    /// The caller is not the configured system operator.
    InvalidSystem,
}

/// Rejections of a cross-chain message before its payload is read.
#[derive(Clone, Copy, Debug, PartialEq, Eq, Structural)]
pub enum WormholeError {
    /// The caller does not own the record.
    InvalidOwner,
    /// The caller is not the configured system operator.
    InvalidSystem,
    /// The emitter is not the one registered for its chain.
    InvalidForeignEmitter,
    /// The message is not framed as the wire format asks.
    InvalidMessage,
    /// No emitter is registered for the chain.
    NotSupportThisChainId,
    /// The sequence number was consumed before.
    InvalidSequence,
    /// The fee collector is not the configured one.
    InvalidWormholeFeeCollector,
    /// The bridge configuration is not the configured one.
    InvalidWormholeConfig,
}

/// Rejections when an emitter registration is changed.
#[derive(Clone, Copy, Debug, PartialEq, Eq, Structural)]
pub enum EmitterAccountError {
    /// The caller does not own the registration.
    InvalidOwner,
}

/// Rejections of an attested payload whose fields break the schema.
#[derive(Clone, Copy, Debug, PartialEq, Eq, Structural)]
pub enum ParseVaaError {
    /// The target chain field is missing or names another chain.
    InvalidTargetChain,
    /// The collateral amount field is missing, zero, or not the amount deposited.
    InvalidCollateralAmount,
    /// The collateral decimals field is missing, unsupported, or not the deposit's.
    InvalidCollateralDecimal,
    /// The emitter is not the one registered for its chain.
    InvalidForeignEmitter,
    /// The lend amount field is missing or malformed.
    InvalidLendAmount,
    /// The remaining collateral field is missing or has the wrong width.
    InvalidRemainingCollateralAmount,
}

/// Any rejection that a transition of the ledger can end in, tagged by the
/// family it belongs to.
///
/// Transitions that draw on one family only return that family's type; those
/// that cross families (the attestation verifier, deposit, liquidation) return
/// this one.
#[derive(Clone, Copy, Debug, PartialEq, Eq, Structural)]
pub enum LendingError {
    SettingAccount(SettingAccountError),
    LendOffer(LendOfferError),
    LoanOffer(LoanOfferError),
    RepayOffer(RepayOfferError),
    LiquidateOffer(LiquidateOfferError),
    Wormhole(WormholeError),
    EmitterAccount(EmitterAccountError),
    ParseVaa(ParseVaaError),
}

/// Rejections of the wire codec.
#[derive(Clone, Copy, Debug, PartialEq, Eq, Structural)]
pub enum CodecError {
    /// The payload, declared or carried, is longer than the bound.
    PayloadTooLarge,
    /// The buffer is too short for a length prefix, or does not hold exactly
    /// the number of bytes that its prefix declares.
    LengthMismatch,
}

} // verus!
