//! Bit-field primitives shared by the instruction decoder and executor.

use vstd::arithmetic::div_mod::{lemma_mod_breakdown, lemma_small_mod};
use vstd::arithmetic::power2::{
    lemma2_to64, lemma_pow2_pos, lemma_pow2_strictly_increases, lemma_pow2_unfold, pow2,
};
use vstd::bits::{
    lemma_u32_low_bits_mask_is_mod, lemma_u32_shr_is_div, lemma_u64_pow2_no_overflow,
    lemma_u64_shl_is_mul, low_bits_mask,
};
use vstd::prelude::*;

verus! {

/// The number with exactly bits `lo..=hi` set: `2^(hi+1) - 2^lo`.
pub open spec fn spec_mask(hi: u32, lo: u32) -> int
    recommends
        lo <= hi < 64,
{
    pow2((hi + 1) as nat) - pow2(lo as nat)
}

/// Bits `lo..=hi` of `input`, read as an unsigned number.
pub open spec fn spec_field(input: u32, hi: u32, lo: u32) -> int
    recommends
        lo <= hi < 32,
{
    (input as int / pow2(lo as nat) as int) % pow2((hi - lo + 1) as nat) as int
}

/// Bits `0..=msb` of `input`, read as a two's complement number of
/// `msb + 1` bits.
pub open spec fn spec_sign_extend(input: u32, msb: u32) -> int
    recommends
        msb < 32,
{
    let low = input as int % pow2((msb + 1) as nat) as int;
    if low >= pow2(msb as nat) {
        low - pow2((msb + 1) as nat)
    } else {
        low
    }
}

/// `2^n` for an exponent that keeps it inside 64 bits.
fn power_of_two(n: u32) -> (p: u64)
    requires
        n < 64,
    ensures
        p == pow2(n as nat),
{
    proof {
        lemma_u64_pow2_no_overflow(n as nat);
        lemma_u64_shl_is_mul(1, n as u64);
    }
    1u64 << n
}

/// Builds the mask that selects bits `lo..=hi` of a 64-bit word.
pub fn mask(hi: u32, lo: u32) -> (m: u64)
    requires
        lo <= hi < 64,
    ensures
        m == spec_mask(hi, lo),
{
    let below = power_of_two(lo);
    proof {
        lemma2_to64();
        lemma_pow2_pos(lo as nat);
        lemma_pow2_strictly_increases(lo as nat, (hi + 1) as nat);
    }
    if hi == 63 {
        (u64::MAX - below) + 1
    } else {
        power_of_two(hi + 1) - below
    }
}

/// Extracts bits `lo..=hi` of an instruction word.
pub fn field(input: u32, hi: u32, lo: u32) -> (v: u32)
    requires
        lo <= hi < 32,
    ensures
        v == spec_field(input, hi, lo),
        v < pow2((hi - lo + 1) as nat),
{
    let width = hi - lo + 1;
    let shifted = input >> lo;
    let low_bits = mask(hi - lo, 0);
    proof {
        lemma2_to64();
        lemma_u32_shr_is_div(input, lo);
        lemma_pow2_pos(width as nat);
        assert(low_bits == low_bits_mask(width as nat));
        if width == 32 {
            lemma_small_mod(shifted as nat, pow2(32));
            assert(shifted & 0xffff_ffffu32 == shifted) by (bit_vector);
        } else {
            lemma_u32_low_bits_mask_is_mod(shifted, width as nat);
        }
    }
    shifted & (low_bits as u32)
}

/// Widens the two's complement number in bits `0..=msb` of `input` to
/// 32 bits.
pub fn sign_extend(input: u32, msb: u32) -> (v: i32)
    requires
        msb < 32,
    ensures
        v == spec_sign_extend(input, msb),
{
    let low = field(input, msb, 0);
    let sign = field(input, msb, msb);
    let half = power_of_two(msb);
    proof {
        let p = pow2(msb as nat) as int;
        lemma2_to64();
        lemma_pow2_pos(msb as nat);
        lemma_pow2_unfold((msb + 1) as nat);
        lemma_pow2_strictly_increases(msb as nat, 32);
        lemma_mod_breakdown(input as int, p, 2);
        assert(p * 2 == pow2((msb + 1) as nat));
        assert(low == input as int % (p * 2));
        assert(sign == (input as int / p) % 2);
        assert(low == p * sign + input as int % p);
        assert(0 <= input as int % p < p);
        assert(sign == 0 || sign == 1);
        assert(sign == 0 ==> p * sign == 0) by (nonlinear_arith);
        assert(sign == 1 ==> p * sign == p) by (nonlinear_arith);
    }
    if sign == 0 {
        low as i32
    } else {
        (low as i64 - 2 * (half as i64)) as i32
    }
}

} // verus!
