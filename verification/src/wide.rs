//! Exact comparison of `u128` products, by way of a full 256-bit multiply.

use core::cmp::Ordering;
use vstd::prelude::*;

verus! {

/// `2^64`, the base of one limb.
pub const LIMB: u128 = 0x1_0000_0000_0000_0000;

/// The value of a two-word number: `high * 2^128 + low`.
pub open spec fn wide_value(high: u128, low: u128) -> int {
    high * 0x1_0000_0000_0000_0000_0000_0000_0000_0000int + low
}

/// How two integers order.
pub open spec fn int_order(x: int, y: int) -> Ordering {
    if x < y {
        Ordering::Less
    } else if x == y {
        Ordering::Equal
    } else {
        Ordering::Greater
    }
}

/// The limbs of a word: quotient and remainder by `2^64`.
proof fn lemma_limbs(a: u128)
    ensures
        a & 0xffff_ffff_ffff_ffffu128 == a % LIMB,
        a >> 64u32 == a / LIMB,
        a == (a / LIMB) * LIMB + a % LIMB,
{
    assert(a & 0xffff_ffff_ffff_ffffu128 == a % 0x1_0000_0000_0000_0000u128) by (bit_vector);
    assert(a >> 64u32 == a / 0x1_0000_0000_0000_0000u128) by (bit_vector);
}

/// Shifting a word up by one limb drops its high limb.
proof fn lemma_shift_up(a: u128)
    ensures
        a << 64u32 == (a % LIMB) * LIMB,
{
    assert(a << 64u32 == (a % 0x1_0000_0000_0000_0000u128) * 0x1_0000_0000_0000_0000u128)
        by (bit_vector);
}

/// The product of two limbs fits in one word.
proof fn lemma_limb_product(x: int, y: int)
    requires
        0 <= x < LIMB,
        0 <= y < LIMB,
    ensures
        0 <= x * y <= (LIMB - 1) * (LIMB - 1),
{
    assert(0 <= x * y <= (LIMB - 1) * (LIMB - 1)) by (nonlinear_arith)
        requires
            0 <= x < LIMB,
            0 <= y < LIMB,
    ;
}

/// Schoolbook multiplication on limbs, before any carry.
proof fn lemma_schoolbook(ah: int, al: int, bh: int, bl: int)
    ensures
        (ah * LIMB + al) * (bh * LIMB + bl) == (ah * bh) * (LIMB * LIMB) + (al * bh + ah * bl)
            * LIMB + al * bl,
{
    let m = LIMB as int;
    let (p, q) = (ah * m, bh * m);
    assert((p + al) * (q + bl) == p * q + p * bl + al * q + al * bl) by (nonlinear_arith);
    assert(p * q == (ah * bh) * (m * m)) by (nonlinear_arith)
        requires
            p == ah * m,
            q == bh * m,
    ;
    assert(p * bl == (ah * bl) * m) by (nonlinear_arith)
        requires
            p == ah * m,
    ;
    assert(al * q == (al * bh) * m) by (nonlinear_arith)
        requires
            q == bh * m,
    ;
}

/// 128x128 -> 256-bit multiply, returned as `(high, low)` words.
pub(crate) fn wide_mul(a: u128, b: u128) -> (r: (u128, u128))
    ensures
        wide_value(r.0, r.1) == a * b,
{
    let a_lo: u128 = a & 0xffff_ffff_ffff_ffff;
    let a_hi: u128 = a >> 64u32;
    let b_lo: u128 = b & 0xffff_ffff_ffff_ffff;
    let b_hi: u128 = b >> 64u32;
    proof {
        lemma_limbs(a);
        lemma_limbs(b);
        lemma_limb_product(a_lo as int, b_lo as int);
        lemma_limb_product(a_lo as int, b_hi as int);
        lemma_limb_product(a_hi as int, b_lo as int);
        lemma_limb_product(a_hi as int, b_hi as int);
        lemma_schoolbook(a_hi as int, a_lo as int, b_hi as int, b_lo as int);
    }

    let ll: u128 = a_lo * b_lo;
    let lh: u128 = a_lo * b_hi;
    let hl: u128 = a_hi * b_lo;
    let hh: u128 = a_hi * b_hi;

    // The two cross products, with the carry out of bit 128.
    let cross: u128 = lh.wrapping_add(hl);
    let cross_carry: u128 = if lh > cross { 1 } else { 0 };
    proof {
        lemma_limbs(cross);
        lemma_shift_up(cross);
        lemma_shift_up(cross_carry);
    }

    // The low word takes the low limb of `cross`, with its own carry.
    let low: u128 = ll.wrapping_add(cross << 64u32);
    let low_carry: u128 = if low < ll { 1 } else { 0 };
    assert(low == ll + (cross % LIMB) * LIMB - low_carry * (LIMB * LIMB));
    assert(lh + hl == cross + cross_carry * (LIMB * LIMB));

    let high: u128 = hh + (cross >> 64u32) + (cross_carry << 64u32) + low_carry;
    (high, low)
}

/// The ordering of `a * b` relative to `c * d`, exact for all operands.
pub(crate) fn cmp_u128_products(a: u128, b: u128, c: u128, d: u128) -> (r: Ordering)
    ensures
        r == int_order(a * b, c * d),
{
    let (hi1, lo1) = wide_mul(a, b);
    let (hi2, lo2) = wide_mul(c, d);
    if hi1 < hi2 {
        Ordering::Less
    } else if hi1 > hi2 {
        Ordering::Greater
    } else if lo1 < lo2 {
        Ordering::Less
    } else if lo1 > lo2 {
        Ordering::Greater
    } else {
        Ordering::Equal
    }
}

} // verus!
