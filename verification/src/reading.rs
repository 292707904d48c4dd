//! Utilization readings as the metrics provider hands them out: bit patterns
//! of IEEE 754 single-precision numbers that stand for a percentage.
//!
//! A pattern is taken apart with integer arithmetic alone and turned into a
//! [`Usage`]; no floating-point operation takes part.

use crate::usage::{Usage, FULL_SCALE, MICRO_PER_PERCENT};
use vstd::arithmetic::div_mod::{lemma_basic_div, lemma_div_is_ordered_by_denominator};
use vstd::arithmetic::power2::{
    lemma2_to64,
    lemma2_to64_rest,
    lemma_pow2_pos,
    lemma_pow2_strictly_increases,
    pow2,
};
use vstd::bits::lemma_u64_shr_is_div;
use vstd::prelude::*;

verus! {

/// Whether the sign bit of the pattern is set.
pub open spec fn sign_bit(bits: u32) -> bool {
    bits >= 0x8000_0000
}

/// The eight-bit exponent field of the pattern.
pub open spec fn exponent_field(bits: u32) -> nat {
    (bits as nat / 0x80_0000) % 0x100
}

/// The 23-bit fraction field of the pattern.
pub open spec fn fraction_field(bits: u32) -> nat {
    bits as nat % 0x80_0000
}

/// Whether the pattern is not a number.
pub open spec fn is_nan(bits: u32) -> bool {
    exponent_field(bits) == 0xff && fraction_field(bits) != 0
}

/// The integer significand: the fraction field, with the implicit leading
/// one unless the number is subnormal.
pub open spec fn significand(bits: u32) -> nat {
    if exponent_field(bits) == 0 {
        fraction_field(bits)
    } else {
        0x80_0000 + fraction_field(bits)
    }
}

/// The power of two that scales the significand: the magnitude of the number
/// is `significand(bits)` times two to the power `binary_exponent(bits)`.
pub open spec fn binary_exponent(bits: u32) -> int {
    if exponent_field(bits) == 0 {
        -149
    } else {
        exponent_field(bits) - 150
    }
}

/// The magnitude of the number in millionths, rounded down. An infinity
/// counts as the magnitude its fields spell out, which is beyond any finite
/// single-precision number.
pub open spec fn magnitude_micro(bits: u32) -> nat {
    let scaled = significand(bits) * (MICRO_PER_PERCENT as nat);
    let exponent = binary_exponent(bits);
    if exponent >= 0 {
        scaled * pow2(exponent as nat)
    } else {
        scaled / pow2((-exponent) as nat)
    }
}

/// The utilization, in millionths of a percent, that a reading stands for:
/// its magnitude rounded down to a millionth and held at 100 %. A negative
/// reading and one that is not a number count as no utilization.
pub open spec fn usage_of_bits(bits: u32) -> nat {
    if sign_bit(bits) || is_nan(bits) {
        0
    } else if magnitude_micro(bits) >= FULL_SCALE {
        FULL_SCALE as nat
    } else {
        magnitude_micro(bits)
    }
}

/// The utilizations that a sequence of readings stands for, in order.
pub open spec fn usages_of_bits(readings: Seq<u32>) -> Seq<nat> {
    readings.map_values(|bits: u32| usage_of_bits(bits))
}

/// A reading of 128 or more, or an infinite one, is beyond 100 %.
proof fn lemma_large_magnitude(bits: u32)
    requires
        exponent_field(bits) >= 134,
    ensures
        magnitude_micro(bits) >= FULL_SCALE,
{
    let scaled = significand(bits) * (MICRO_PER_PERCENT as nat);
    let exponent = binary_exponent(bits);
    assert(scaled >= 0x80_0000 * 1_000_000);
    if exponent >= 0 {
        lemma_pow2_pos(exponent as nat);
        assert(scaled * pow2(exponent as nat) >= scaled) by (nonlinear_arith)
            requires
                pow2(exponent as nat) >= 1,
        ;
    } else {
        let down = (-exponent) as nat;
        lemma2_to64();
        lemma_pow2_pos(down);
        if down < 16 {
            lemma_pow2_strictly_increases(down, 16);
        }
        lemma_div_is_ordered_by_denominator(scaled as int, pow2(down) as int, 0x1_0000);
        assert(scaled / 0x1_0000 >= FULL_SCALE);
    }
}

/// A reading below two to the power -20 has no whole millionth in it.
proof fn lemma_small_magnitude(bits: u32)
    requires
        exponent_field(bits) <= 106,
    ensures
        magnitude_micro(bits) == 0,
{
    let scaled = significand(bits) * (MICRO_PER_PERCENT as nat);
    let down = (-binary_exponent(bits)) as nat;
    assert(scaled < 0x100_0000 * 1_000_000);
    lemma2_to64_rest();
    if down > 44 {
        lemma_pow2_strictly_increases(44, down);
    }
    lemma_basic_div(scaled as int, pow2(down) as int);
}

/// Decodes one reading into the utilization it stands for.
pub fn decode(bits: u32) -> (usage: Usage)
    ensures
        usage@ == usage_of_bits(bits),
{
    let exponent: u32 = (bits >> 23) & 0xff;
    let fraction: u32 = bits & 0x7f_ffff;
    proof {
        assert((bits >> 23) & 0xff == (bits / 0x80_0000) % 0x100) by (bit_vector);
        assert(bits & 0x7f_ffff == bits % 0x80_0000) by (bit_vector);
        assert(exponent == exponent_field(bits));
        assert(fraction == fraction_field(bits));
    }
    if bits >= 0x8000_0000 || (exponent == 0xff && fraction != 0) {
        return Usage::idle();
    }
    if exponent >= 134 {
        proof {
            lemma_large_magnitude(bits);
        }
        return Usage::full();
    }
    if exponent <= 106 {
        proof {
            lemma_small_magnitude(bits);
        }
        return Usage::idle();
    }
    let down: u64 = 150 - exponent as u64;
    let scaled: u64 = (0x80_0000 + fraction as u64) * (MICRO_PER_PERCENT as u64);
    let micro: u64 = scaled >> down;
    proof {
        lemma_u64_shr_is_div(scaled, down);
        assert(scaled == significand(bits) * MICRO_PER_PERCENT);
        assert(down == (-binary_exponent(bits)) as nat);
    }
    Usage::saturating(micro)
}

} // verus!
