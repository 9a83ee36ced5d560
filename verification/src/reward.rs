//! The reward accrual engine: the reward that a principal earns between a
//! checkpoint and a reference block, at a fixed rate per block.

use vstd::prelude::*;
use vstd::arithmetic::div_mod::lemma_div_is_ordered;
use crate::wide::U256;

verus! {

/// The reward earned by `principal` over `elapsed` blocks at the rate
/// `numerator / denominator` per block, rounded down, as a mathematical
/// integer. Meaningful for a positive `denominator`.
pub open spec fn accrued(principal: int, numerator: int, denominator: int, elapsed: int) -> int {
    (principal * numerator * elapsed) / denominator
}

/// What [`accrue`] returns: the accrued reward where it can be computed and
/// fits in 128 bits, and `None` where the reference block lies before the
/// checkpoint, the denominator is zero, or the reward does not fit.
pub open spec fn accrue_spec(
    principal: u128,
    numerator: u32,
    denominator: u64,
    reference_block: u64,
    checkpoint_block: u64,
) -> Option<u128> {
    let reward = accrued(
        principal as int,
        numerator as int,
        denominator as int,
        reference_block - checkpoint_block,
    );
    if reference_block < checkpoint_block || denominator == 0 || reward > u128::MAX {
        None
    } else {
        Some(reward as u128)
    }
}

/// The height against which accrual is measured: the height at which the pool
/// was paused while it is paused, the current height otherwise.
pub open spec fn reference_block_spec(
    paused: bool,
    paused_in_block: u64,
    current_block: u64,
) -> u64 {
    if paused {
        paused_in_block
    } else {
        current_block
    }
}

/// The height against which accrual is measured.
pub fn reference_block(paused: bool, paused_in_block: u64, current_block: u64) -> (r: u64)
    ensures
        r == reference_block_spec(paused, paused_in_block, current_block),
{
    if paused {
        paused_in_block
    } else {
        current_block
    }
}

/// A rate times a number of blocks stays below two to the power 96.
proof fn lemma_rate_bound(numerator: int, elapsed: int)
    by (nonlinear_arith)
    requires
        0 <= numerator <= 0xffff_ffff,
        0 <= elapsed <= 0xffff_ffff_ffff_ffff,
    ensures
        0 <= numerator * elapsed <= 0xffff_ffff * 0xffff_ffff_ffff_ffff,
{
}

/// The reward earned by `principal` between `checkpoint_block` and
/// `reference_block`. The product is formed in 256 bits before it is divided,
/// so no intermediate value is cut off.
pub fn accrue(
    principal: u128,
    numerator: u32,
    denominator: u64,
    reference_block: u64,
    checkpoint_block: u64,
) -> (r: Option<u128>)
    ensures
        r == accrue_spec(principal, numerator, denominator, reference_block, checkpoint_block),
{
    if reference_block < checkpoint_block {
        return None;
    }
    let elapsed: u64 = reference_block - checkpoint_block;
    proof {
        lemma_rate_bound(numerator as int, elapsed as int);
    }
    let rate: u128 = (numerator as u128) * (elapsed as u128);
    let product = U256::full_mul(principal, rate);
    assert(product@ == principal * numerator * elapsed) by (nonlinear_arith)
        requires
            product@ == principal * rate,
            rate == numerator * elapsed,
    ;
    match product.checked_div_u64(denominator) {
        Some(quotient) => quotient.as_u128(),
        None => None,
    }
}

/// Accrual never decreases as blocks elapse: for a fixed principal and rate,
/// more elapsed blocks earn at least as much.
pub proof fn lemma_accrued_monotonic(
    principal: int,
    numerator: int,
    denominator: int,
    elapsed1: int,
    elapsed2: int,
)
    requires
        0 <= principal,
        0 <= numerator,
        0 < denominator,
        0 <= elapsed1 <= elapsed2,
    ensures
        0 <= accrued(principal, numerator, denominator, elapsed1) <= accrued(
            principal,
            numerator,
            denominator,
            elapsed2,
        ),
{
    let x = principal * numerator * elapsed1;
    let y = principal * numerator * elapsed2;
    assert(0 <= x <= y) by (nonlinear_arith)
        requires
            0 <= principal,
            0 <= numerator,
            0 <= elapsed1 <= elapsed2,
            x == principal * numerator * elapsed1,
            y == principal * numerator * elapsed2,
    ;
    lemma_div_is_ordered(x, y, denominator);
    lemma_div_is_ordered(0, x, denominator);
}

/// Accrual depends on principal and elapsed blocks through their product
/// alone: it is the rate applied to `principal * elapsed`, rounded down.
pub proof fn lemma_accrued_proportional(
    principal: int,
    numerator: int,
    denominator: int,
    elapsed: int,
)
    ensures
        accrued(principal, numerator, denominator, elapsed) == ((principal * elapsed) * numerator)
            / denominator,
{
    assert(principal * numerator * elapsed == (principal * elapsed) * numerator)
        by (nonlinear_arith);
}

} // verus!
