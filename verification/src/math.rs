//! Fixed-point arithmetic shared by pricing, fees, the buyback controller
//! and the reward program: products are taken in 128 bits, quotients are
//! floored, and a value is narrowed to 64 bits only where it is known to fit.

use vstd::prelude::*;

verus! {

/// Lamports in one SOL.
pub const LAMPORTS_PER_SOL: u64 = 1_000_000_000;

/// `floor(amount * bps / 10000)`: the part of `amount` that `bps` basis
/// points stand for.
pub open spec fn bps_share(amount: int, bps: int) -> int {
    (amount * bps) / 10_000
}

/// `floor(a * b / d)`.
pub open spec fn mul_div(a: int, b: int, d: int) -> int {
    (a * b) / d
}

/// The smaller of two integers.
pub open spec fn min_int(a: int, b: int) -> int {
    if a <= b {
        a
    } else {
        b
    }
}

/// The larger of two integers.
pub open spec fn max_int(a: int, b: int) -> int {
    if a >= b {
        a
    } else {
        b
    }
}

/// `a + b`, stopping at the largest 64-bit value.
pub open spec fn sat_add(a: int, b: int) -> int {
    min_int(a + b, u64::MAX as int)
}

/// `a - b`, stopping at 0.
pub open spec fn sat_sub(a: int, b: int) -> int {
    max_int(a - b, 0)
}

/// The product of two 64-bit values fits 128 bits.
pub proof fn lemma_product_fits(a: u64, b: u64)
    ensures
        0 <= (a as int) * (b as int) <= 0xffff_ffff_ffff_fffe_0000_0000_0000_0001,
        (a as int) * (b as int) <= u128::MAX,
{
    assert(0 <= (a as int) * (b as int) <= 0xffff_ffff_ffff_ffff * 0xffff_ffff_ffff_ffff)
        by (nonlinear_arith)
        requires
            0 <= a <= 0xffff_ffff_ffff_ffff,
            0 <= b <= 0xffff_ffff_ffff_ffff,
    ;
}

/// A share of at most the whole is at most the amount.
pub proof fn lemma_bps_share_bounded(amount: int, bps: int)
    requires
        0 <= amount,
        0 <= bps <= 10_000,
    ensures
        0 <= bps_share(amount, bps) <= amount,
{
    assert(0 <= (amount * bps) / 10_000 <= amount) by (nonlinear_arith)
        requires
            0 <= amount,
            0 <= bps <= 10_000,
    ;
}

/// `floor(amount * bps / 10000)`, computed without loss in 128 bits.
pub fn bps_share_wide(amount: u64, bps: u64) -> (share: u128)
    ensures
        share == bps_share(amount as int, bps as int),
{
    proof {
        lemma_product_fits(amount, bps);
    }
    (amount as u128) * (bps as u128) / 10_000
}

/// `floor(a * b / d)`, computed without loss in 128 bits.
pub fn mul_div_wide(a: u64, b: u64, d: u128) -> (q: u128)
    requires
        d > 0,
    ensures
        q == mul_div(a as int, b as int, d as int),
{
    proof {
        lemma_product_fits(a, b);
    }
    (a as u128) * (b as u128) / d
}

/// Narrows a 128-bit value to 64 bits where it fits.
pub fn narrow(value: u128) -> (narrowed: Option<u64>)
    ensures
        narrowed == if value <= u64::MAX {
            Some(value as u64)
        } else {
            None::<u64>
        },
{
    if value <= 0xffff_ffff_ffff_ffff {
        Some(value as u64)
    } else {
        None
    }
}

/// The smaller of two amounts.
pub fn min_u64(a: u64, b: u64) -> (m: u64)
    ensures
        m == min_int(a as int, b as int),
{
    if a <= b {
        a
    } else {
        b
    }
}

} // verus!
