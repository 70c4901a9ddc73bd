use crate::common::pubkey::Pubkey;
use vstd::prelude::*;

verus! {

/// The settings of the whole ledger: read when it starts, never changed after.
///
/// Rates and ratios are in the fixed-point unit of
/// [`WHOLE`](crate::common::constant::WHOLE), windows in seconds.
#[derive(Clone, Copy, Debug, PartialEq, Eq)]
pub struct Config {
    /// The one authority that may settle cancellations and liquidate.
    pub system_operator: Pubkey,
    /// Interest offered must stay strictly below this.
    pub max_allowed_interest: u64,
    /// A loan is activated only at a health ratio of at least this.
    pub min_health_ratio_to_borrow: u64,
    /// A loan may be liquidated only at a health ratio strictly below this.
    pub liquidation_health_ratio_limit: u64,
    /// How long an attested message stays valid after its creation.
    pub vaa_validity_window: u64,
    /// How old a price reading may be.
    pub price_staleness_bound: u64,
}

impl Config {
    /// The liquidation limit lies strictly below the minimum to borrow, so
    /// that a position is never opened into liquidation.
    pub open spec fn has_safety_margin(&self) -> bool {
        self.liquidation_health_ratio_limit < self.min_health_ratio_to_borrow
    }

    /// Whether the settings leave a safety margin between entry and
    /// liquidation.
    pub fn check_safety_margin(&self) -> (ok: bool)
        ensures
            ok == self.has_safety_margin(),
    {
        self.liquidation_health_ratio_limit < self.min_health_ratio_to_borrow
    }

    /// With a safety margin, no position is opened into liquidation: a
    /// health ratio that allows activation does not allow liquidation.
    pub proof fn lemma_safety_margin(&self, ratio: u128)
        requires
            self.has_safety_margin(),
            ratio >= self.min_health_ratio_to_borrow,
        ensures
            !(ratio < self.liquidation_health_ratio_limit),
    {
    }

    /// Whether `signer` is the configured system operator.
    pub fn is_system_operator(&self, signer: &Pubkey) -> (yes: bool)
        ensures
            yes == (*signer == self.system_operator),
    {
        *signer == self.system_operator
    }
}

} // verus!
