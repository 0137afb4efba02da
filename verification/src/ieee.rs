//! IEEE-754 numbers, read exactly from their bit patterns.
//!
//! A finite binary number is an integer divided by a power of two, so what
//! this crate needs of one (which of two distances is nearer, how many of
//! `count` items a ratio selects) can be had without rounding, in integers.
use vstd::prelude::*;
use vstd::arithmetic::power2::{pow2, lemma2_to64, lemma_pow2_adds, lemma_pow2_strictly_increases, lemma_pow2_unfold, lemma_pow2_pos};

verus! {

/// The sign bit of a double-precision number.
pub const DOUBLE_SIGN: u64 = 0x8000_0000_0000_0000;

/// The bit pattern of positive infinity in double precision. Every larger
/// magnitude is not a number.
pub const DOUBLE_INFINITY: u64 = 0x7FF0_0000_0000_0000;

/// The sign bit of a single-precision number.
pub const SINGLE_SIGN: u32 = 0x8000_0000;

/// The bit pattern of positive infinity in single precision.
pub const SINGLE_INFINITY: u32 = 0x7F80_0000;

/// The implicit leading bit of a normal single-precision significand.
pub const SINGLE_HIDDEN_BIT: u32 = 0x0080_0000;

/// The pattern without its sign bit.
pub open spec fn double_magnitude(bits: u64) -> nat {
    (bits % DOUBLE_SIGN) as nat
}

/// Whether the pattern is not a number.
pub open spec fn double_is_nan(bits: u64) -> bool {
    double_magnitude(bits) > DOUBLE_INFINITY
}

/// An integer that orders the patterns as the numbers they stand for are
/// ordered: among numbers of one sign a larger magnitude is a larger
/// pattern, and both zeros get 0.
pub open spec fn double_rank(bits: u64) -> int {
    if bits >= DOUBLE_SIGN {
        -(double_magnitude(bits) as int)
    } else {
        double_magnitude(bits) as int
    }
}

/// Numeric equality: false as soon as one side is not a number, and true of
/// the two zeros.
pub open spec fn double_equal(a: u64, b: u64) -> bool {
    !double_is_nan(a) && !double_is_nan(b) && double_rank(a) == double_rank(b)
}

/// Numeric `<`: false as soon as one side is not a number.
pub open spec fn double_less(a: u64, b: u64) -> bool {
    !double_is_nan(a) && !double_is_nan(b) && double_rank(a) < double_rank(b)
}

/// Whether the pattern is not a number.
pub open spec fn single_is_nan(bits: u32) -> bool {
    bits % SINGLE_SIGN > SINGLE_INFINITY
}

/// The biased exponent field.
pub open spec fn single_exponent(bits: u32) -> nat {
    ((bits / SINGLE_HIDDEN_BIT) % 256) as nat
}

/// The significand as an integer, hidden bit included.
pub open spec fn single_significand(bits: u32) -> nat {
    if single_exponent(bits) == 0 {
        (bits % SINGLE_HIDDEN_BIT) as nat
    } else {
        (SINGLE_HIDDEN_BIT + bits % SINGLE_HIDDEN_BIT) as nat
    }
}

/// For a magnitude below one, the power of two that divides the
/// significand: the magnitude is `significand / 2^scale`.
pub open spec fn single_scale(bits: u32) -> nat {
    if single_exponent(bits) == 0 {
        149
    } else {
        (150 - single_exponent(bits)) as nat
    }
}

/// `numerator / denominator`, rounded to the nearest integer, halves up.
pub open spec fn round_div(numerator: nat, denominator: nat) -> nat
    recommends
        denominator > 0,
{
    (2 * numerator + denominator) / (2 * denominator)
}

/// How many of `count` items the ratio selects: the ratio is first brought
/// into `[0, 1]`, and the product is rounded to the nearest integer, halves
/// up. A ratio that is not a number selects nothing.
pub open spec fn spec_share(ratio: u32, count: nat) -> nat {
    if single_is_nan(ratio) || ratio >= SINGLE_SIGN {
        0
    } else if single_exponent(ratio) >= 127 {
        count
    } else {
        round_div(single_significand(ratio) * count, pow2(single_scale(ratio)))
    }
}

fn double_rank_of(bits: u64) -> (rank: i128)
    ensures
        rank == double_rank(bits),
{
    let magnitude: i128 = (bits % DOUBLE_SIGN) as i128;
    if bits >= DOUBLE_SIGN {
        -magnitude
    } else {
        magnitude
    }
}

/// Whether the pattern is not a number.
pub fn is_double_nan(bits: u64) -> (nan: bool)
    ensures
        nan == double_is_nan(bits),
{
    bits % DOUBLE_SIGN > DOUBLE_INFINITY
}

/// Whether the two patterns stand for the same number.
pub fn doubles_equal(a: u64, b: u64) -> (equal: bool)
    ensures
        equal == double_equal(a, b),
{
    !is_double_nan(a) && !is_double_nan(b) && double_rank_of(a) == double_rank_of(b)
}

/// Whether the number that `a` stands for is below the one `b` stands for.
pub fn double_is_less(a: u64, b: u64) -> (less: bool)
    ensures
        less == double_less(a, b),
{
    !is_double_nan(a) && !is_double_nan(b) && double_rank_of(a) < double_rank_of(b)
}

proof fn pow2_89()
    ensures
        pow2(89) == 0x200_0000_0000_0000_0000_0000,
        pow2(24) == 0x100_0000,
{
    lemma2_to64();
    lemma_pow2_adds(64, 25);
}

/// Below half a unit the quotient rounds to zero.
proof fn round_div_small(numerator: nat, denominator: nat)
    requires
        2 * numerator < denominator,
    ensures
        round_div(numerator, denominator) == 0,
{
    assert((2 * numerator + denominator) / (2 * denominator) == 0) by (nonlinear_arith)
        requires
            2 * numerator < denominator,
    ;
}

/// A ratio below one never selects more than there is.
proof fn round_div_bounded(significand: nat, count: nat, denominator: nat)
    requires
        significand <= denominator,
        denominator > 0,
    ensures
        round_div(significand * count, denominator) <= count,
{
    assert((2 * (significand * count) + denominator) / (2 * denominator) <= count)
        by (nonlinear_arith)
        requires
            significand <= denominator,
            denominator > 0,
    ;
}

/// No ratio selects more items than there are.
pub proof fn share_is_bounded(ratio: u32, count: nat)
    ensures
        spec_share(ratio, count) <= count,
{
    if !(single_is_nan(ratio) || ratio >= SINGLE_SIGN) && single_exponent(ratio) < 127 {
        pow2_89();
        let scale = single_scale(ratio);
        if scale > 24 {
            lemma_pow2_strictly_increases(24, scale);
        }
        round_div_bounded(single_significand(ratio), count, pow2(scale));
    }
}

/// The ratio 1 selects every item.
pub proof fn one_selects_all(count: nat)
    ensures
        spec_share(0x3F80_0000, count) == count,
{
}

/// The ratio 0 selects no item.
pub proof fn zero_selects_none(count: nat)
    ensures
        spec_share(0, count) == 0,
{
    lemma_pow2_pos(149);
    assert(0 * count == 0) by (nonlinear_arith);
    round_div_small(0, pow2(149));
}

/// How many of `count` items the ratio selects.
pub fn share(ratio: u32, count: usize) -> (selected: usize)
    ensures
        selected == spec_share(ratio, count as nat),
        selected <= count,
{
    if ratio % SINGLE_SIGN > SINGLE_INFINITY || ratio >= SINGLE_SIGN {
        return 0;
    }
    let exponent: u32 = (ratio / SINGLE_HIDDEN_BIT) % 256;
    if exponent >= 127 {
        return count;
    }
    let fraction: u32 = ratio % SINGLE_HIDDEN_BIT;
    let significand: u32 = if exponent == 0 {
        fraction
    } else {
        SINGLE_HIDDEN_BIT + fraction
    };
    let scale: u32 = if exponent == 0 {
        149
    } else {
        150 - exponent
    };
    proof {
        pow2_89();
        if scale > 24 {
            lemma_pow2_strictly_increases(24, scale as nat);
        }
        round_div_bounded(significand as nat, count as nat, pow2(scale as nat));
    }
    assert(0 <= (significand as int) * (count as int) < 0x100_0000_0000_0000_0000_0000)
        by (nonlinear_arith)
        requires
            0 <= significand < 0x100_0000,
            0 <= count < 0x1_0000_0000_0000_0000,
    ;
    let product: u128 = (significand as u128) * (count as u128);
    assert(product == single_significand(ratio) * (count as nat));
    if scale >= 90 {
        proof {
            if scale > 90 {
                lemma_pow2_strictly_increases(90, scale as nat);
            }
            lemma_pow2_unfold(90);
            round_div_small(product as nat, pow2(scale as nat));
        }
        return 0;
    }
    let mut denominator: u128 = 1;
    let mut done: u32 = 0;
    proof {
        lemma2_to64();
    }
    while done < scale
        invariant
            done <= scale < 90,
            denominator == pow2(done as nat),
            pow2(89) == 0x200_0000_0000_0000_0000_0000,
        decreases scale - done,
    {
        proof {
            lemma_pow2_unfold((done + 1) as nat);
            if done + 1 < 89 {
                lemma_pow2_strictly_increases((done + 1) as nat, 89);
            }
        }
        denominator = denominator * 2;
        done += 1;
    }
    proof {
        if scale < 89 {
            lemma_pow2_strictly_increases(scale as nat, 89);
        }
        lemma_pow2_pos(scale as nat);
    }
    let rounded: u128 = (2 * product + denominator) / (2 * denominator);
    rounded as usize
}

} // verus!
