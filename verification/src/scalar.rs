//! Conversion between 8-bit samples and the 32-bit numbers of a tensor.
//!
//! A tensor element is a 32-bit IEEE 754 binary number, handled here by its
//! bit pattern. A sample becomes the element nearest to the sample divided
//! by 255. A raw score becomes an opacity by limiting it to the range from 0
//! to 1, multiplying by 255 in 32-bit arithmetic (rounding to nearest, ties
//! to even) and cutting the product off toward zero.

use vstd::arithmetic::div_mod::{lemma_fundamental_div_mod, lemma_mod_bound};
use vstd::arithmetic::power2::{lemma2_to64, lemma_pow2_adds, lemma_pow2_unfold, pow2};
use vstd::prelude::*;

verus! {

/// The sign bit of a 32-bit pattern.
pub open spec fn sign_of(bits: u32) -> int {
    bits as int / 0x8000_0000
}

/// The biased exponent field of a 32-bit pattern.
pub open spec fn exponent_of(bits: u32) -> int {
    (bits as int / 0x80_0000) % 0x100
}

/// The fraction field of a 32-bit pattern.
pub open spec fn fraction_of(bits: u32) -> int {
    bits as int % 0x80_0000
}

/// The bit pattern of the number one.
pub const ONE: u32 = 0x3f80_0000;

/// The position of the highest set bit of a non-zero sample.
pub open spec fn leading_bit(sample: u8) -> int {
    if sample >= 128 {
        7
    } else if sample >= 64 {
        6
    } else if sample >= 32 {
        5
    } else if sample >= 16 {
        4
    } else if sample >= 8 {
        3
    } else if sample >= 4 {
        2
    } else if sample >= 2 {
        1
    } else {
        0
    }
}

/// The bit pattern of the 32-bit number nearest to `sample / 255`.
///
/// Zero has the pattern 0. Otherwise the quotient lies in the binade whose
/// exponent field is `119 + leading_bit(sample)`, where a step of the
/// significand is `2^-k` with `k = 31 - leading_bit(sample)`. The
/// significand is `sample * 2^k / 255` rounded to the nearest whole number;
/// since 255 is odd no quotient lies halfway between two of them. A
/// significand that rounds up to 2^24 carries into the exponent field, which
/// only happens at 255 and gives the pattern of one.
pub open spec fn normalized(sample: u8) -> int {
    if sample == 0 {
        0
    } else {
        let lead = leading_bit(sample);
        let scale = pow2((31 - lead) as nat) as int;
        let significand = (2 * sample as int * scale + 255) / 510;
        (119 + lead) * 0x80_0000 + (significand - 0x80_0000)
    }
}

/// The bit pattern stands for a number from 0 to 1.
pub open spec fn in_unit_range(bits: u32) -> bool {
    bits <= ONE
}

/// The scale `2^(31 - leading_bit)` of a non-zero sample and the range of
/// its scaled value.
proof fn lemma_scale(sample: u8)
    requires
        sample > 0,
    ensures
        0x100_0000 <= pow2((31 - leading_bit(sample)) as nat) <= 0x8000_0000,
        0x8000_0000 <= sample as int * pow2((31 - leading_bit(sample)) as nat) <= 255
            * 0x100_0000,
        leading_bit(sample) < 7 ==> sample as int * pow2((31 - leading_bit(sample)) as nat)
            <= 0x1_0000_0000 - 0x200_0000,
{
    let lead = leading_bit(sample);
    let floor = pow2(lead as nat) as int;
    let scale = pow2((31 - lead) as nat) as int;
    lemma2_to64();
    lemma_pow2_adds(lead as nat, (31 - lead) as nat);
    assert(floor * scale == 0x8000_0000);
    assert(floor <= sample < 2 * floor);
    assert(floor * scale <= sample as int * scale <= 2 * (floor * scale) - scale)
        by (nonlinear_arith)
        requires
            floor <= sample as int <= 2 * floor - 1,
            scale > 0,
    ;
}

/// A normalised sample stands for a number from 0 to 1: its pattern is at
/// most that of one.
pub proof fn lemma_normalized_range(sample: u8)
    ensures
        0 <= normalized(sample) <= ONE,
{
    if sample > 0 {
        lemma_scale(sample);
        let lead = leading_bit(sample);
        let scale = pow2((31 - lead) as nat) as int;
        let scaled = sample as int * scale;
        assert(2 * sample as int * scale == 2 * scaled) by (nonlinear_arith)
            requires
                scaled == sample as int * scale,
        ;
        assert(0x80_0000 * 510 <= 2 * scaled + 255);
        assert(2 * scaled + 255 < 0x100_0001 * 510);
        if lead < 7 {
            assert(2 * scaled + 255 < 0x100_0000 * 510);
        }
    }
}

/// The significand of a normalised sample is the whole number nearest to
/// `sample * 2^k / 255`: the two differ by less than one half.
pub proof fn lemma_normalized_is_nearest(sample: u8)
    requires
        sample > 0,
    ensures
        ({
            let lead = leading_bit(sample);
            let scale = pow2((31 - lead) as nat) as int;
            let significand = normalized(sample) - (119 + lead) * 0x80_0000 + 0x80_0000;
            510 * significand - 255 <= 2 * sample as int * scale < 510 * significand + 255
        }),
{
    let lead = leading_bit(sample);
    let scale = pow2((31 - lead) as nat) as int;
    let doubled = 2 * sample as int * scale + 255;
    lemma_fundamental_div_mod(doubled, 510);
}

/// Computes the bit pattern of the 32-bit number nearest to `sample / 255`.
pub fn normalize(sample: u8) -> (bits: u32)
    ensures
        bits == normalized(sample),
        in_unit_range(bits),
{
    if sample == 0 {
        return 0;
    }
    let mut lead: u32 = 7;
    let mut scale: u64 = 0x100_0000;
    let mut floor: u8 = 128;
    proof {
        lemma2_to64();
        lemma_scale(sample);
        lemma_normalized_range(sample);
    }
    while sample < floor
        invariant
            0 < sample,
            lead <= 7,
            lead >= leading_bit(sample),
            floor == pow2(lead as nat),
            scale == pow2((31 - lead) as nat),
            lead == leading_bit(sample) <==> sample >= floor,
        decreases lead,
    {
        proof {
            lemma2_to64();
        }
        floor = floor / 2;
        scale = scale * 2;
        lead = lead - 1;
    }
    let scaled: u64 = sample as u64 * scale;
    assert(2 * sample as int * scale as int == 2 * scaled) by (nonlinear_arith)
        requires
            scaled == sample as int * scale as int,
    ;
    let significand: u64 = (2 * scaled + 255) / 510;
    let bits: u64 = (119 + lead as u64) * 0x80_0000 + (significand - 0x80_0000);
    bits as u32
}

/// The opacity of the score with the given bit pattern.
///
/// Negative scores and not-a-number give 0; scores of 1 and above give 255;
/// scores below 2^-9 give 0, since 255 times such a score is under one half.
/// For the rest the score is `m * 2^(e - 150)` with `m` the 24-bit
/// significand and `e` the exponent field, so 255 times the score is
/// `n / unit` with `n = 255 * m` and `unit = 2^(150 - e)`. The product keeps
/// 24 significant bits of `n`; it reaches the next whole number exactly when
/// `n` is not a multiple of `unit` and lies within half a unit in the last
/// place below one.
pub open spec fn quantized(bits: u32) -> int {
    let exponent = exponent_of(bits);
    let fraction = fraction_of(bits);
    if sign_of(bits) == 1 || (exponent == 255 && fraction != 0) {
        0
    } else if exponent >= 127 {
        255
    } else if exponent < 118 {
        0
    } else {
        let n = (0x80_0000 + fraction) * 255;
        let unit = pow2((150 - exponent) as nat) as int;
        let whole = n / unit;
        let rest = n % unit;
        let half_step: int = if n >= 0x8000_0000 {
            128
        } else {
            64
        };
        if rest != 0 && unit - rest <= half_step {
            whole + 1
        } else {
            whole
        }
    }
}

/// Every opacity is a byte.
pub proof fn lemma_quantized_range(bits: u32)
    ensures
        0 <= quantized(bits) <= 255,
{
    let exponent = exponent_of(bits);
    if 118 <= exponent < 127 {
        lemma_unit_bounds(exponent);
        let n = (0x80_0000 + fraction_of(bits)) * 255;
        let unit = pow2((150 - exponent) as nat) as int;
        assert(0 <= n / unit < 255) by (nonlinear_arith)
            requires
                0 <= n < 255 * 0x100_0000,
                unit >= 0x100_0000,
        ;
    }
}

/// For a score from 2^-9 up to but not including one, the opacity is 255
/// times the score cut off toward zero, except that a product within half a
/// unit in the last place below the next whole number counts as that number.
/// With `n / unit` the exact product: `opacity * unit - 128 <= n` and
/// `n < (opacity + 1) * unit`.
pub proof fn lemma_quantized_truncates(bits: u32)
    requires
        sign_of(bits) == 0,
        118 <= exponent_of(bits) < 127,
    ensures
        ({
            let n = (0x80_0000 + fraction_of(bits)) * 255;
            let unit = pow2((150 - exponent_of(bits)) as nat) as int;
            quantized(bits) * unit - 128 <= n < (quantized(bits) + 1) * unit
        }),
{
    let n = (0x80_0000 + fraction_of(bits)) * 255;
    let unit = pow2((150 - exponent_of(bits)) as nat) as int;
    lemma_unit_bounds(exponent_of(bits));
    lemma_fundamental_div_mod(n, unit);
    let whole = n / unit;
    let rest = n % unit;
    assert(0 <= rest < unit) by {
        lemma_mod_bound(n, unit);
    }
    assert(whole * unit == unit * whole && (whole + 1) * unit == unit * whole + unit && (whole
        + 2) * unit == unit * whole + 2 * unit) by (nonlinear_arith);
    let q = quantized(bits);
    assert(q == whole || q == whole + 1);
    if q == whole {
        assert(q * unit == whole * unit);
        assert((q + 1) * unit == (whole + 1) * unit);
    } else {
        assert(unit - rest <= 128);
        assert(q * unit == (whole + 1) * unit);
        assert((q + 1) * unit == (whole + 2) * unit);
    }
}

/// For the exponents whose product with 255 can reach one half, the unit of
/// the scaled product lies between 2^24 and 2^32.
proof fn lemma_unit_bounds(exponent: int)
    requires
        118 <= exponent < 127,
    ensures
        0x100_0000 <= pow2((150 - exponent) as nat) <= 0x1_0000_0000,
{
    lemma2_to64();
    let k = 150 - exponent;
    assert(k == 24 || k == 25 || k == 26 || k == 27 || k == 28 || k == 29 || k == 30 || k == 31
        || k == 32);
}

/// Computes the opacity of the score with the given bit pattern.
pub fn quantize(bits: u32) -> (q: u8)
    ensures
        q == quantized(bits),
{
    let sign: u32 = bits / 0x8000_0000;
    let exponent: u32 = (bits / 0x80_0000) % 0x100;
    let fraction: u32 = bits % 0x80_0000;
    if sign == 1 || (exponent == 255 && fraction != 0) {
        return 0;
    }
    if exponent >= 127 {
        return 255;
    }
    if exponent < 118 {
        return 0;
    }
    let n: u64 = (0x80_0000u64 + fraction as u64) * 255;
    let shift: u32 = 150 - exponent;
    let mut unit: u64 = 0x100_0000;
    let mut k: u32 = 24;
    proof {
        lemma2_to64();
    }
    while k < shift
        invariant
            24 <= k <= shift <= 32,
            unit == pow2(k as nat),
            unit <= 0x1_0000_0000,
        decreases shift - k,
    {
        proof {
            lemma_pow2_unfold((k + 1) as nat);
            lemma_unit_bounds(150 - (k + 1));
        }
        unit = unit * 2;
        k = k + 1;
    }
    let whole: u64 = n / unit;
    let rest: u64 = n % unit;
    let half_step: u64 = if n >= 0x8000_0000 {
        128
    } else {
        64
    };
    proof {
        assert(0 <= (n as int) / (unit as int) < 255) by (nonlinear_arith)
            requires
                0 <= n < 255 * 0x100_0000,
                unit >= 0x100_0000,
        ;
    }
    if rest != 0 && unit - rest <= half_step {
        (whole + 1) as u8
    } else {
        whole as u8
    }
}

} // verus!
