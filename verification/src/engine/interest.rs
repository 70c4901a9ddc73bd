use crate::common::constant::WHOLE;
use vstd::arithmetic::div_mod::{
    lemma_div_denominator, lemma_div_is_ordered, lemma_div_multiples_vanish, lemma_div_pos_is_pos,
    lemma_fundamental_div_mod, lemma_hoist_over_denominator, lemma_mod_bound,
};
use vstd::arithmetic::mul::{lemma_mul_inequality, lemma_mul_upper_bound};
use vstd::prelude::*;

verus! {

/// The interest that a principal bears over the whole term, rounded down to
/// the asset's smallest unit. `interest` is the rate for the term in the
/// fixed-point unit of [`WHOLE`].
pub open spec fn full_term_interest(principal: int, interest: int) -> int {
    principal * interest / (WHOLE as int)
}

/// The interest accrued after `elapsed` of a term of `duration`: the
/// full-term interest in proportion to the time elapsed, rounded down once,
/// and the full-term interest from the end of the term on.
pub open spec fn accrued_interest_spec(
    principal: int,
    interest: int,
    elapsed: int,
    duration: int,
) -> int {
    if elapsed >= duration {
        full_term_interest(principal, interest)
    } else {
        principal * interest * elapsed / (WHOLE as int * duration)
    }
}

/// What settles a debt: the principal and the interest on it.
pub open spec fn total_repay_spec(principal: int, interest_amount: int) -> int {
    principal + interest_amount
}

/// The protocol's share of a settlement of `total`: `fee_percent` of it,
/// rounded down, and never more than the settlement itself.
pub open spec fn lender_fee_spec(total: int, fee_percent: int) -> int {
    let fee = total * fee_percent / (WHOLE as int);
    if fee > total {
        total
    } else {
        fee
    }
}

/// What the lender receives of a settlement of `total`: all but the fee.
pub open spec fn lender_proceeds_spec(total: int, fee_percent: int) -> int {
    total - lender_fee_spec(total, fee_percent)
}

/// The product of two 64-bit numbers is a 128-bit number.
pub proof fn lemma_product_fits(a: u64, b: u64)
    ensures
        0 <= a * b <= u128::MAX,
{
    lemma_mul_upper_bound(a as int, u64::MAX as int, b as int, u64::MAX as int);
    assert(0 <= a * b) by (nonlinear_arith);
}

/// Prorating without a wide product: `x * e / d`, for `e < d`, from the
/// quotient and the remainder of `x` by `d`.
proof fn lemma_prorate(x: int, e: int, d: int)
    requires
        0 <= x,
        0 <= e < d,
    ensures
        (x / d) * e + ((x % d) * e) / d == (x * e) / d,
        0 <= (x / d) * e <= x,
        0 <= (x % d) * e <= d * d,
        0 <= ((x % d) * e) / d,
        0 <= (x * e) / d <= x,
{
    let q = x / d;
    let r = x % d;
    lemma_fundamental_div_mod(x, d);
    lemma_mod_bound(x, d);
    lemma_div_pos_is_pos(x, d);
    assert(x * e == r * e + (q * e) * d) by (nonlinear_arith)
        requires
            x == d * q + r,
    ;
    lemma_hoist_over_denominator(r * e, q * e, d as nat);
    assert(0 <= q * e <= x) by (nonlinear_arith)
        requires
            x == d * q + r,
            0 <= r,
            0 <= q,
            0 <= e < d,
    ;
    assert(0 <= r * e <= d * d) by (nonlinear_arith)
        requires
            0 <= r < d,
            0 <= e < d,
    ;
    lemma_div_pos_is_pos(r * e, d);
    assert(0 <= x * e <= d * x) by (nonlinear_arith)
        requires
            0 <= x,
            0 <= e < d,
    ;
    lemma_div_pos_is_pos(x * e, d);
    lemma_div_is_ordered(x * e, d * x, d);
    lemma_div_multiples_vanish(x, d);
}

/// The interest accrued on `principal` at the rate `interest` after `elapsed`
/// of a term of `duration`, in the asset's smallest units, rounded down.
///
/// It grows in proportion to the time elapsed and stays at the full-term
/// interest from the end of the term on. Every input is allowed; a term of
/// zero is over at once.
pub fn accrued_interest(principal: u64, interest: u64, elapsed: u64, duration: u64) -> (accrued: u128)
    ensures
        accrued == accrued_interest_spec(
            principal as int,
            interest as int,
            elapsed as int,
            duration as int,
        ),
        accrued <= full_term_interest(principal as int, interest as int),
{
    proof {
        lemma_product_fits(principal, interest);
        lemma_accrual_capped(principal as int, interest as int, elapsed as int, duration as int);
    }
    let product: u128 = (principal as u128) * (interest as u128);
    if elapsed >= duration {
        product / (WHOLE as u128)
    } else {
        let d: u128 = duration as u128;
        let e: u128 = elapsed as u128;
        proof {
            lemma_prorate(product as int, e as int, d as int);
            lemma_product_fits(duration, duration);
            lemma_div_denominator(product as int * e as int, d as int, WHOLE as int);
            assert(d as int * WHOLE as int == WHOLE as int * duration as int);
            assert(principal as int * interest as int * elapsed as int == product as int * e as int);
        }
        let prorated: u128 = (product / d) * e + ((product % d) * e) / d;
        prorated / (WHOLE as u128)
    }
}

/// Accrual is capped: at no time does the accrued interest exceed the
/// full-term interest, and it is never negative.
pub proof fn lemma_accrual_capped(principal: int, interest: int, elapsed: int, duration: int)
    requires
        0 <= principal,
        0 <= interest,
        0 <= elapsed,
        0 <= duration,
    ensures
        0 <= accrued_interest_spec(principal, interest, elapsed, duration) <= full_term_interest(
            principal,
            interest,
        ),
{
    let x = principal * interest;
    assert(0 <= x) by (nonlinear_arith)
        requires
            x == principal * interest,
            0 <= principal,
            0 <= interest,
    ;
    lemma_div_pos_is_pos(x, WHOLE as int);
    if elapsed < duration {
        lemma_prorate(x, elapsed, duration);
        lemma_div_denominator(x * elapsed, duration, WHOLE as int);
        assert(duration * WHOLE as int == WHOLE as int * duration);
        lemma_div_is_ordered((x * elapsed) / duration, x, WHOLE as int);
        lemma_div_pos_is_pos((x * elapsed) / duration, WHOLE as int);
    }
}

/// Accrual never runs backwards: more time elapsed never means less interest.
pub proof fn lemma_accrual_monotonic(
    principal: int,
    interest: int,
    earlier: int,
    later: int,
    duration: int,
)
    requires
        0 <= principal,
        0 <= interest,
        0 <= earlier <= later,
        0 <= duration,
    ensures
        accrued_interest_spec(principal, interest, earlier, duration) <= accrued_interest_spec(
            principal,
            interest,
            later,
            duration,
        ),
{
    let x = principal * interest;
    if later >= duration {
        lemma_accrual_capped(principal, interest, earlier, duration);
    } else {
        assert(0 <= x) by (nonlinear_arith)
            requires
                x == principal * interest,
                0 <= principal,
                0 <= interest,
        ;
        lemma_mul_inequality(earlier, later, x);
        assert(x * earlier == earlier * x && x * later == later * x) by (nonlinear_arith);
        assert(0 < WHOLE as int * duration) by (nonlinear_arith)
            requires
                0 < duration,
        ;
        lemma_div_is_ordered(x * earlier, x * later, WHOLE as int * duration);
    }
}

/// Principal plus interest, exactly: the sum is formed in 128 bits, so no pair
/// of amounts overflows or is rounded.
pub fn get_total_repay(lend_amount: u64, waiting_interest: u64) -> (total_repay: u128)
    ensures
        total_repay == total_repay_spec(lend_amount as int, waiting_interest as int),
        total_repay == lend_amount + waiting_interest,
{
    lend_amount as u128 + waiting_interest as u128
}

/// The protocol's fee on a settlement of `total`.
pub fn lender_fee(total: u64, fee_percent: u64) -> (fee: u64)
    ensures
        fee == lender_fee_spec(total as int, fee_percent as int),
        fee <= total,
{
    proof {
        lemma_product_fits(total, fee_percent);
        lemma_div_pos_is_pos(total as int * fee_percent as int, WHOLE as int);
    }
    let fee: u128 = (total as u128) * (fee_percent as u128) / (WHOLE as u128);
    if fee > total as u128 {
        total
    } else {
        fee as u64
    }
}

/// What the lender receives of a settlement of `total`.
pub fn lender_proceeds(total: u64, fee_percent: u64) -> (proceeds: u64)
    ensures
        proceeds == lender_proceeds_spec(total as int, fee_percent as int),
        proceeds + lender_fee_spec(total as int, fee_percent as int) == total,
{
    total - lender_fee(total, fee_percent)
}

} // verus!
