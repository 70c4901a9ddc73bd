use vstd::prelude::*;

verus! {

/// One percent, in the fixed-point unit in which interest rates, fees and
/// health ratios are held.
pub const PERCENT: u64 = 1_000_000;

/// One hundred percent, the ratio 1, in that unit.
pub const WHOLE: u64 = 100_000_000;

/// The largest number of decimals whose power of ten is a 64-bit amount.
pub const MAX_DECIMALS: u8 = 19;

} // verus!
