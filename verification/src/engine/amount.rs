use crate::common::constant::MAX_DECIMALS;
use vstd::prelude::*;

verus! {

/// Ten to the power `d`.
pub open spec fn pow10(d: nat) -> nat
    decreases d,
{
    if d == 0 {
        1
    } else {
        10 * pow10((d - 1) as nat)
    }
}

/// The amount `amount`, given in whole units of an asset with `decimals`
/// decimals, in the asset's smallest units.
pub open spec fn scaled_amount(amount: int, decimals: nat) -> int {
    amount * pow10(decimals)
}

/// A power of ten is at least one.
pub proof fn lemma_pow10_positive(d: nat)
    ensures
        pow10(d) >= 1,
    decreases d,
{
    if d > 0 {
        lemma_pow10_positive((d - 1) as nat);
    }
}

/// Powers of ten grow with the exponent.
pub proof fn lemma_pow10_monotonic(a: nat, b: nat)
    requires
        a <= b,
    ensures
        pow10(a) <= pow10(b),
    decreases b,
{
    if a < b {
        lemma_pow10_monotonic(a, (b - 1) as nat);
        lemma_pow10_positive((b - 1) as nat);
    }
}

/// The largest powers of ten that 64 and 128 bits hold, and the first ones
/// that they do not.
pub proof fn lemma_pow10_limits()
    ensures
        pow10(19) == 10_000_000_000_000_000_000,
        pow10(19) <= u64::MAX < pow10(20),
        pow10(38) == 100_000_000_000_000_000_000_000_000_000_000_000_000,
        pow10(38) <= u128::MAX < pow10(39),
{
    reveal_with_fuel(pow10, 20);
    assert(pow10(19) == 10_000_000_000_000_000_000);
    assert(pow10(20) == 10 * pow10(19));
    lemma_pow10_times(19, 19);
    assert(pow10(38) == 100_000_000_000_000_000_000_000_000_000_000_000_000) by (nonlinear_arith)
        requires
            pow10(38) == pow10(19) * pow10(19),
            pow10(19) == 10_000_000_000_000_000_000,
    ;
    assert(pow10(39) == 10 * pow10(38));
}

/// Exponents add when powers of ten are multiplied.
pub proof fn lemma_pow10_times(a: nat, b: nat)
    ensures
        pow10(a + b) == pow10(a) * pow10(b),
    decreases b,
{
    if b == 0 {
        assert(pow10(a) * 1 == pow10(a));
    } else {
        lemma_pow10_times(a, (b - 1) as nat);
        assert(pow10(a + b) == 10 * pow10((a + b - 1) as nat));
        assert(10 * (pow10(a) * pow10((b - 1) as nat)) == pow10(a) * (10 * pow10((b - 1) as nat)))
            by (nonlinear_arith);
    }
}

/// Ten to the power `decimals`, where 128 bits hold it.
pub fn checked_pow10_u128(decimals: u8) -> (power: Option<u128>)
    ensures
        power == if pow10(decimals as nat) <= u128::MAX {
            Some(pow10(decimals as nat) as u128)
        } else {
            None
        },
        power is Some <==> decimals <= 38,
{
    let mut acc: u128 = 1;
    let mut i: u8 = 0;
    proof {
        lemma_pow10_limits();
        if decimals <= 38 {
            lemma_pow10_monotonic(decimals as nat, 38);
        } else {
            lemma_pow10_monotonic(39, decimals as nat);
        }
    }
    while i < decimals
        invariant
            i <= decimals,
            acc == pow10(i as nat),
            decimals <= 38 <==> pow10(decimals as nat) <= u128::MAX,
        decreases decimals - i,
    {
        match acc.checked_mul(10) {
            Some(next) => {
                acc = next;
            },
            None => {
                proof {
                    lemma_pow10_monotonic((i + 1) as nat, decimals as nat);
                }
                return None;
            },
        }
        i += 1;
    }
    Some(acc)
}

/// Ten to the power `decimals`, where 64 bits hold it: for up to
/// [`MAX_DECIMALS`] decimals.
pub fn checked_pow10(decimals: u8) -> (power: Option<u64>)
    ensures
        power == if decimals <= MAX_DECIMALS {
            Some(pow10(decimals as nat) as u64)
        } else {
            None
        },
        decimals <= MAX_DECIMALS <==> pow10(decimals as nat) <= u64::MAX,
{
    proof {
        lemma_pow10_limits();
        if decimals <= 19 {
            lemma_pow10_monotonic(decimals as nat, 19);
        } else {
            lemma_pow10_monotonic(20, decimals as nat);
        }
    }
    match checked_pow10_u128(decimals) {
        Some(power) => if power <= u64::MAX as u128 {
            Some(power as u64)
        } else {
            None
        },
        None => None,
    }
}

/// An amount of whole units in the asset's smallest units: `amount` times ten
/// to the power `decimals`, exactly, or `None` where 64 bits do not hold the
/// product.
pub fn scale_amount(amount: u64, decimals: u8) -> (scaled: Option<u64>)
    ensures
        scaled == if scaled_amount(amount as int, decimals as nat) <= u64::MAX {
            Some(scaled_amount(amount as int, decimals as nat) as u64)
        } else {
            None
        },
{
    if amount == 0 {
        assert(0 * pow10(decimals as nat) == 0);
        return Some(0);
    }
    match checked_pow10(decimals) {
        Some(power) => amount.checked_mul(power),
        None => {
            proof {
                let p = pow10(decimals as nat);
                assert(amount * p >= p) by (nonlinear_arith)
                    requires
                        amount >= 1,
                        p >= 0,
                ;
            }
            None
        },
    }
}

} // verus!
