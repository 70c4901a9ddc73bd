//! Verified core of a cross-chain collateralized lending ledger.
//!
//! Lenders escrow an asset under a tier configuration, borrowers match a lend
//! offer by depositing collateral (possibly attested from a foreign chain), and
//! every change of a record is one atomic transition with a contract: on
//! success the new record and the transfers to perform, on failure the error
//! and an unchanged record.
//!
//! Nothing here touches a ledger, a clock or a price oracle. Each operation
//! takes the records it works on and the outside readings (time, prices,
//! balances) as plain values, and hands back the transfers and events that the
//! caller has to carry out.

pub mod common;
pub mod contexts;
pub mod engine;
pub mod states;

pub use common::config::Config;
pub use common::error::{
    CodecError, EmitterAccountError, LendOfferError, LendingError, LiquidateOfferError,
    LoanOfferError, ParseVaaError, RepayOfferError, SettingAccountError, WormholeError,
};
pub use common::pubkey::Pubkey;
pub use contexts::close_setting_account::CloseSettingAccount;
pub use contexts::create_lend_offer::CreateLendOffer;
pub use contexts::system_cancel_lend_offer::SystemCancelLendOffer;
pub use states::wormhole_message::{WormholeMessage, MESSAGE_PAYLOAD_MAX_LENGTH};
