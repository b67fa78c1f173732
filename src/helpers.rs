//! Bit-level construction of the VM's floating-point values.
//!
//! A double is handled here as its IEEE-754 bit pattern in a `u64`: the
//! protocol fixes the exact bits, and nothing in this module rounds.
use vstd::arithmetic::power2::{
    lemma2_to64, lemma_pow2_adds, lemma_pow2_strictly_increases, lemma_pow2_unfold, pow2,
};
use vstd::prelude::*;

verus! {

/// 2^52: the weight of the lowest exponent bit of a double.
pub open spec fn mantissa_unit() -> int {
    0x10_0000_0000_0000
}

/// The 11-bit biased exponent field of a double given by its bits.
pub open spec fn exponent_field(bits: u64) -> u64 {
    (bits >> 52) & 0x7ff
}

/// The bits encode a finite, normal double: the exponent field is neither
/// all zeros (zero or subnormal) nor all ones (infinity or NaN).
pub open spec fn is_finite_normal(bits: u64) -> bool {
    0 < exponent_field(bits) < 0x7ff
}

/// The double built from a seed word: bits 0-51 are the mantissa, bits 59-63
/// select an exponent in `0..32`, which is biased by 1023; the sign is positive.
pub open spec fn small_positive_float(v: u64) -> int {
    ((v >> 59) + 1023) * mantissa_unit() + v % (mantissa_unit() as u64)
}

/// Exponent bits of a "group A" mask: the constant exponent bits, with the top
/// four bits of the word as the dynamic part, shifted into the exponent field.
pub open spec fn static_exponent_of(v: u64) -> int {
    (0x300 + (v >> 60) * 16) * mantissa_unit()
}

/// The float mask of a word: its low 22 bits under the static exponent.
pub open spec fn float_mask_of(v: u64) -> int {
    v % 0x40_0000 + static_exponent_of(v)
}

/// The fraction has full 52 bits of precision and the exponent value ranges
/// from 0 to 31. These values are obtained from the initialization quadword (in
/// little endian format) according to Table below:
/// -----------------------
/// | bits  | description |
/// | 0-51  | mantissa    |
/// | 52-58 | (reserved)  |
/// | 59-63 | exponent    |
/// -----------------------
/// The result is the bit pattern of the double, which is always finite and normal.
pub fn f64_from_u64(v: u64) -> (r: u64)
    ensures
        r as int == small_positive_float(v),
        exponent_field(r) == 1023 + (v >> 59),
        is_finite_normal(r),
{
    // bits 59-63, biased into the exponent range and moved above the mantissa
    let exponent: u64 = v >> 59;
    assert(v >> 59 < 32) by (bit_vector);
    let mantissa: u64 = v & 0xf_ffff_ffff_ffff;
    let r = (((exponent + 1023) & 0x7ff) << 52) | mantissa;
    assert(((((v >> 59) + 1023) as u64 & 0x7ff) << 52) | (v & 0xf_ffff_ffff_ffff) == ((v >> 59)
        + 1023) * 0x10_0000_0000_0000 + v % 0x10_0000_0000_0000) by (bit_vector);
    assert((((((((v >> 59) + 1023) as u64 & 0x7ff) << 52) | (v & 0xf_ffff_ffff_ffff)) >> 52)
        & 0x7ff) == 1023 + (v >> 59)) by (bit_vector);
    r
}

/// The exponent bits of a "group A" register mask, built from the constant
/// exponent bits and the top four bits of `v`.
pub fn static_exponent(v: u64) -> (r: u64)
    ensures
        r as int == static_exponent_of(v),
{
    // the constant exponent bits 0x300, and the top four bits of `v` above the dynamic window
    let exponent: u64 = 0x300 | ((v >> 60) << 4);
    assert((0x300u64 | ((v >> 60u64) << 4u64)) << 52u64 == (0x300 + (v >> 60) * 16)
        * 0x10_0000_0000_0000) by (bit_vector);
    exponent << 52
}

/// The mask of a "group A" register: the low 22 bits of `v` under its static exponent.
pub fn float_mask(v: u64) -> (r: u64)
    ensures
        r as int == float_mask_of(v),
{
    let e = static_exponent(v);
    assert((0x300u64 | ((v >> 60u64) << 4u64)) << 52u64 == (0x300 + (v >> 60) * 16)
        * 0x10_0000_0000_0000) by (bit_vector);
    assert((v & 0x3f_ffff) | ((0x300u64 | ((v >> 60u64) << 4u64)) << 52u64) == v % 0x40_0000 + (
    0x300 + (v >> 60) * 16) * 0x10_0000_0000_0000) by (bit_vector);
    (v & 0x3f_ffff) | e
}

/// The number of significant bits of `x`.
pub open spec fn bit_length(x: nat) -> nat
    decreases x,
{
    if x == 0 {
        0
    } else {
        1 + bit_length(x / 2)
    }
}

/// The reciprocal multiplier of a divisor: `2^(63 + b) / d`, where `b` is
/// the bit length of `d`, truncated to 64 bits. When `d` is not a power of
/// two the quotient already fits.
pub open spec fn reciprocal_of(d: u32) -> u64 {
    (pow2((63 + bit_length(d as nat)) as nat) / (d as nat)) as u64
}

proof fn lemma_bit_length_bound(x: nat, n: nat)
    requires
        x < pow2(n),
    ensures
        bit_length(x) <= n,
    decreases n,
{
    if x > 0 {
        if n == 0 {
            lemma2_to64();
        } else {
            lemma_pow2_unfold(n);
            lemma_bit_length_bound(x / 2, (n - 1) as nat);
        }
    }
}

/// The reciprocal multiplier of a non-zero divisor.
pub fn reciprocal(d: u32) -> (r: u64)
    requires
        d != 0,
    ensures
        r == reciprocal_of(d),
{
    proof {
        lemma2_to64();
        lemma_bit_length_bound(d as nat, 32);
    }
    let mut x: u32 = d;
    let mut bits: u32 = 0;
    while x > 0
        invariant
            bits + bit_length(x as nat) == bit_length(d as nat),
            bit_length(d as nat) <= 32,
        decreases x,
    {
        x = x / 2;
        bits = bits + 1;
    }
    let mut p: u128 = 1;
    let mut k: u32 = 0;
    proof {
        lemma_pow2_adds(64, 32);
    }
    while k < 63 + bits
        invariant
            bits <= 32,
            k <= 63 + bits,
            p == pow2(k as nat),
            pow2(96) == 0x1_0000_0000_0000_0000_0000_0000,
        decreases 63 + bits - k,
    {
        proof {
            lemma_pow2_unfold((k + 1) as nat);
            lemma_pow2_strictly_increases((k + 1) as nat, 96);
        }
        p = p * 2;
        k = k + 1;
    }
    (p / (d as u128)) as u64
}

/// An integer reduced modulo 2^64.
pub open spec fn wrap64(x: int) -> u64 {
    (x % 0x1_0000_0000_0000_0000) as u64
}

/// A 32-bit immediate sign-extended to 64 bits.
pub open spec fn sign_extend(imm: u32) -> u64 {
    imm as i32 as i64 as u64
}

/// `x` rotated right by `n % 64` bits.
pub open spec fn rotate_right(x: u64, n: u64) -> u64 {
    let k = n % 64;
    if k == 0 {
        x
    } else {
        (x >> k) | (x << (64 - k) as u64)
    }
}

/// `x` rotated left by `n % 64` bits.
pub open spec fn rotate_left(x: u64, n: u64) -> u64 {
    let k = n % 64;
    if k == 0 {
        x
    } else {
        (x << k) | (x >> (64 - k) as u64)
    }
}

/// The high 64 bits of the unsigned 128-bit product.
pub open spec fn mul_high(a: u64, b: u64) -> u64 {
    (a as int * b as int / 0x1_0000_0000_0000_0000) as u64
}

/// The high 64 bits of the signed 128-bit product of the two words read as
/// two's-complement integers.
pub open spec fn signed_mul_high(a: u64, b: u64) -> u64 {
    (((a as i64 as int) * (b as i64 as int)) as i128 >> 64u32) as u64
}

/// The immediate sign-extended to 64 bits.
pub fn sign_extend_imm(imm: u32) -> (r: u64)
    ensures
        r == sign_extend(imm),
{
    imm as i32 as i64 as u64
}

/// `x` rotated right by `n % 64` bits.
pub fn rotr(x: u64, n: u64) -> (r: u64)
    ensures
        r == rotate_right(x, n),
{
    let k = n % 64;
    if k == 0 {
        x
    } else {
        (x >> k) | (x << (64 - k))
    }
}

/// `x` rotated left by `n % 64` bits.
pub fn rotl(x: u64, n: u64) -> (r: u64)
    ensures
        r == rotate_left(x, n),
{
    let k = n % 64;
    if k == 0 {
        x
    } else {
        (x << k) | (x >> (64 - k))
    }
}

/// The high 64 bits of the unsigned product.
pub fn mulh(a: u64, b: u64) -> (r: u64)
    ensures
        r == mul_high(a, b),
{
    assert(a as int * b as int <= 0xffff_ffff_ffff_ffff * 0xffff_ffff_ffff_ffff) by (nonlinear_arith)
        requires
            a <= 0xffff_ffff_ffff_ffff,
            b <= 0xffff_ffff_ffff_ffff,
    ;
    let p: u128 = (a as u128) * (b as u128);
    (p / 0x1_0000_0000_0000_0000) as u64
}

/// The high 64 bits of the signed product.
pub fn smulh(a: u64, b: u64) -> (r: u64)
    ensures
        r == signed_mul_high(a, b),
{
    let x: i128 = a as i64 as i128;
    let y: i128 = b as i64 as i128;
    assert(-(0x8000_0000_0000_0000 * 0x8000_0000_0000_0000) <= x * y <= 0x8000_0000_0000_0000
        * 0x8000_0000_0000_0000)
        by (nonlinear_arith)
        requires
            -0x8000_0000_0000_0000 <= x <= 0x7fff_ffff_ffff_ffff,
            -0x8000_0000_0000_0000 <= y <= 0x7fff_ffff_ffff_ffff,
    ;
    let p: i128 = x * y;
    (p >> 64u32) as u64
}

/// A seed word always gives the same double: two results of
/// `f64_from_u64` on one word have the same bits.
pub proof fn lemma_float_deterministic(v: u64, r1: u64, r2: u64)
    requires
        r1 as int == small_positive_float(v),
        r2 as int == small_positive_float(v),
    ensures
        r1 == r2,
{
}

} // verus!
