//! Floating-point constants, held as IEEE-754 binary64 bit patterns.
//!
//! Nothing here computes with hardware floating point. A float constant is the 64 bits
//! of its binary64 encoding, and this module reads those bits with integer arithmetic
//! wherever a rewrite has to look inside one: to recognise zero and one, and to convert
//! between integers and floats.

use vstd::prelude::*;
use vstd::arithmetic::power2::{
    pow2, lemma2_to64, lemma2_to64_rest, lemma_pow2_adds, lemma_pow2_pos,
    lemma_pow2_strictly_increases, lemma_pow2_unfold,
};
use vstd::arithmetic::div_mod::{
    lemma_div_is_ordered, lemma_div_multiples_vanish, lemma_fundamental_div_mod,
    lemma_multiply_divide_lt,
};

verus! {

/// The sign bit of an encoding.
pub const SIGN_BIT: u64 = 0x8000_0000_0000_0000;

/// Two to the power of 52: the weight of the implicit leading bit of the significand.
pub const HIDDEN_BIT: u64 = 0x10_0000_0000_0000;

/// The encoding of `1.0`.
pub const FLOAT_ONE: u64 = 0x3ff0_0000_0000_0000;

/// Whether the sign bit is set.
pub open spec fn float_negative(bits: u64) -> bool {
    bits >= SIGN_BIT
}

/// The biased exponent field, between 0 and 2047.
pub open spec fn float_exponent(bits: u64) -> int {
    (bits / HIDDEN_BIT) as int % 2048
}

/// The fraction field: the 52 low bits.
pub open spec fn float_fraction(bits: u64) -> int {
    (bits % HIDDEN_BIT) as int
}

/// Whether the encoding is a NaN.
pub open spec fn float_is_nan(bits: u64) -> bool {
    float_exponent(bits) == 2047 && float_fraction(bits) != 0
}

/// Whether the encoding is positive or negative zero.
pub open spec fn float_is_zero(bits: u64) -> bool {
    bits == 0 || bits == SIGN_BIT
}

/// Whether the encoding is exactly `1.0`.
pub open spec fn float_is_one(bits: u64) -> bool {
    bits == FLOAT_ONE
}

/// The integer part of the magnitude of a finite float below two to the power of 64.
///
/// A normal float with biased exponent `e` and fraction `f` has the magnitude
/// `(2^52 + f) * 2^(e - 1075)`; below exponent 1023 that is less than one.
pub open spec fn float_magnitude(bits: u64) -> nat
    recommends
        float_exponent(bits) < 1087,
{
    let e = float_exponent(bits);
    let m = (HIDDEN_BIT + float_fraction(bits)) as nat;
    if e < 1023 {
        0
    } else if e <= 1075 {
        m / pow2((1075 - e) as nat)
    } else {
        m * pow2((e - 1075) as nat)
    }
}

/// The float truncated toward zero and saturated to the range from `lo` to `hi`,
/// with NaN converted to zero. From exponent 1087 on the magnitude is at least two to
/// the power of 64 (or infinite), beyond every 64-bit range.
pub open spec fn float_to_int(bits: u64, lo: int, hi: int) -> int {
    if float_is_nan(bits) {
        0
    } else if float_exponent(bits) >= 1087 {
        if float_negative(bits) {
            lo
        } else {
            hi
        }
    } else {
        let mag = float_magnitude(bits) as int;
        let v = if float_negative(bits) {
            -mag
        } else {
            mag
        };
        if v < lo {
            lo
        } else if v > hi {
            hi
        } else {
            v
        }
    }
}

/// Index of the highest set bit of `v`, and 0 for 0.
pub open spec fn highest_bit(v: nat) -> nat
    decreases v,
{
    if v <= 1 {
        0
    } else {
        1 + highest_bit(v / 2)
    }
}

/// The encoding of the float nearest to the natural number `v`, ties going to the even
/// significand. Up to two to the power of 53 the conversion is exact.
pub open spec fn float_of_nat(v: nat) -> int {
    if v == 0 {
        0
    } else {
        let p = highest_bit(v);
        if p <= 52 {
            (1023 + p) * HIDDEN_BIT + (v * pow2((52 - p) as nat) - HIDDEN_BIT)
        } else {
            let unit = pow2((p - 52) as nat);
            let q = v / unit;
            let r = v % unit;
            let round_up = 2 * r > unit || (2 * r == unit && q % 2 == 1);
            (1023 + p) * HIDDEN_BIT + (q - HIDDEN_BIT) + if round_up {
                1int
            } else {
                0int
            }
        }
    }
}

/// The encoding of the float nearest to the integer `v`.
pub open spec fn float_of_int(v: int) -> int {
    if v < 0 {
        SIGN_BIT + float_of_nat((-v) as nat)
    } else {
        float_of_nat(v as nat)
    }
}

/// The highest set bit of a positive number brackets it between two powers of two.
pub proof fn lemma_highest_bit_bounds(v: nat)
    requires
        v >= 1,
    ensures
        pow2(highest_bit(v)) <= v < pow2(highest_bit(v) + 1),
    decreases v,
{
    if v <= 1 {
        lemma2_to64();
    } else {
        lemma_highest_bit_bounds(v / 2);
        lemma_pow2_unfold(highest_bit(v));
        lemma_pow2_unfold(highest_bit(v) + 1);
    }
}

/// A 64-bit number has its highest set bit below position 64.
pub proof fn lemma_highest_bit_u64(v: u64)
    ensures
        highest_bit(v as nat) < 64,
{
    if v >= 1 {
        lemma_highest_bit_bounds(v as nat);
        lemma2_to64();
        if highest_bit(v as nat) > 64 {
            lemma_pow2_strictly_increases(64, highest_bit(v as nat));
        }
    }
}

/// A natural number below two to the power of 53 is represented exactly: converted to a
/// float and back, it is the number it was.
pub proof fn lemma_float_round_trip(v: nat, lo: int, hi: int)
    requires
        v < 0x20_0000_0000_0000,
        lo <= v <= hi,
    ensures
        0 <= float_of_nat(v) < SIGN_BIT,
        float_exponent(float_of_nat(v) as u64) <= 1075,
        float_magnitude(float_of_nat(v) as u64) == v,
        float_to_int(float_of_nat(v) as u64, lo, hi) == v,
{
    if v > 0 {
        let p = highest_bit(v);
        lemma_highest_bit_bounds(v);
        lemma2_to64_rest();
        if p > 53 {
            lemma_pow2_strictly_increases(53, p);
        }
        assert(p <= 52);
        let shift = (52 - p) as nat;
        let scale = pow2(shift) as int;
        lemma_pow2_adds(p, shift);
        lemma_pow2_adds(p + 1, shift);
        lemma_pow2_pos(shift);
        let m = v * scale;
        assert(pow2(p) * scale <= m) by (nonlinear_arith)
            requires
                pow2(p) <= v,
                scale > 0,
                m == v * scale,
        ;
        assert(m < pow2(p + 1) * scale) by (nonlinear_arith)
            requires
                v < pow2(p + 1),
                scale > 0,
                m == v * scale,
        ;
        let fraction = m - HIDDEN_BIT;
        let bits = (1023 + p) * HIDDEN_BIT + fraction;
        assert(float_of_nat(v) == bits);
        vstd::arithmetic::div_mod::lemma_fundamental_div_mod_converse(
            bits,
            HIDDEN_BIT as int,
            (1023 + p) as int,
            fraction,
        );
        assert(float_exponent(bits as u64) == 1023 + p);
        assert(float_fraction(bits as u64) == fraction);
        assert(1075 - (1023 + p) == shift);
        lemma_div_multiples_vanish(v as int, scale);
        assert(m == scale * v) by (nonlinear_arith)
            requires
                m == v * scale,
        ;
        assert(float_magnitude(bits as u64) == v);
    }
}

/// Setting the sign bit of an encoding changes neither its exponent nor its fraction,
/// and so not its magnitude.
pub proof fn lemma_sign_bit(bits: u64)
    requires
        bits < SIGN_BIT,
    ensures
        float_negative((bits + SIGN_BIT) as u64),
        !float_negative(bits),
        float_exponent((bits + SIGN_BIT) as u64) == float_exponent(bits),
        float_fraction((bits + SIGN_BIT) as u64) == float_fraction(bits),
        float_magnitude((bits + SIGN_BIT) as u64) == float_magnitude(bits),
{
    let signed = (bits + SIGN_BIT) as u64;
    assert(signed / HIDDEN_BIT == bits / HIDDEN_BIT + 2048);
    assert(signed % HIDDEN_BIT == bits % HIDDEN_BIT);
}

/// An integer of magnitude below two to the power of 53 is represented exactly:
/// converted to a float and back, it is the number it was.
pub proof fn lemma_float_round_trip_signed(v: int, lo: int, hi: int)
    requires
        -0x20_0000_0000_0000 < v < 0x20_0000_0000_0000,
        lo <= v <= hi,
        lo <= 0 <= hi,
    ensures
        0 <= float_of_int(v) <= u64::MAX,
        float_to_int(float_of_int(v) as u64, lo, hi) == v,
{
    if v >= 0 {
        lemma_float_round_trip(v as nat, lo, hi);
    } else {
        lemma_float_round_trip((-v) as nat, 0, -v);
        lemma_sign_bit(float_of_nat((-v) as nat) as u64);
    }
}

/// Two to the power of `k`.
pub fn pow2_u64(k: u64) -> (r: u64)
    requires
        k < 64,
    ensures
        r == pow2(k as nat),
{
    let mut r: u64 = 1;
    let mut i: u64 = 0;
    proof {
        lemma2_to64();
    }
    while i < k
        invariant
            i <= k < 64,
            r == pow2(i as nat),
        decreases k - i,
    {
        proof {
            lemma_pow2_unfold((i + 1) as nat);
            lemma_pow2_strictly_increases((i + 1) as nat, 64);
            lemma2_to64();
        }
        r = r * 2;
        i = i + 1;
    }
    r
}

/// Index of the highest set bit.
pub fn highest_bit_of(v: u64) -> (p: u64)
    ensures
        p == highest_bit(v as nat),
        p < 64,
{
    let mut t: u64 = v;
    let mut p: u64 = 0;
    proof {
        lemma_highest_bit_u64(v);
    }
    while t > 1
        invariant
            highest_bit(v as nat) == p + highest_bit(t as nat),
            highest_bit(v as nat) < 64,
        decreases t,
    {
        t = t / 2;
        p = p + 1;
    }
    p
}

/// Whether a float constant is positive or negative zero.
pub fn is_zero_bits(bits: u64) -> (r: bool)
    ensures
        r == float_is_zero(bits),
{
    bits == 0 || bits == SIGN_BIT
}

/// Whether a float constant is exactly one.
pub fn is_one_bits(bits: u64) -> (r: bool)
    ensures
        r == float_is_one(bits),
{
    bits == FLOAT_ONE
}

/// Converts an unsigned integer to the nearest float.
pub fn float_from_u64(v: u64) -> (bits: u64)
    ensures
        bits == float_of_nat(v as nat),
        bits < SIGN_BIT,
{
    if v == 0 {
        return 0;
    }
    let p = highest_bit_of(v);
    proof {
        lemma_highest_bit_bounds(v as nat);
    }
    if p <= 52 {
        let scale = pow2_u64(52 - p);
        proof {
            let s = scale as int;
            lemma_pow2_adds(p as nat, (52 - p) as nat);
            lemma_pow2_adds((p + 1) as nat, (52 - p) as nat);
            lemma2_to64_rest();
            lemma_pow2_pos((52 - p) as nat);
            assert(pow2(p as nat) * s <= v * s) by (nonlinear_arith)
                requires
                    pow2(p as nat) <= v,
                    s > 0,
            ;
            assert(v * s < pow2((p + 1) as nat) * s) by (nonlinear_arith)
                requires
                    v < pow2((p + 1) as nat),
                    s > 0,
            ;
        }
        (1023 + p) * HIDDEN_BIT + (v * scale - HIDDEN_BIT)
    } else {
        let unit = pow2_u64(p - 52);
        proof {
            let u = unit as int;
            lemma_pow2_adds(52, (p - 52) as nat);
            lemma_pow2_adds(53, (p - 52) as nat);
            lemma2_to64_rest();
            lemma_pow2_pos((p - 52) as nat);
            lemma_pow2_strictly_increases((p - 52) as nat, 12);
            lemma2_to64();
            lemma_div_multiples_vanish(pow2(52) as int, u);
            lemma_div_is_ordered(pow2(p as nat) as int, v as int, u);
            lemma_multiply_divide_lt(v as int, u, pow2(53) as int);
            lemma_fundamental_div_mod(v as int, u);
        }
        let q = v / unit;
        let r = v % unit;
        let round_up = 2 * r > unit || (2 * r == unit && q % 2 == 1);
        let base = (1023 + p) * HIDDEN_BIT + (q - HIDDEN_BIT);
        if round_up {
            base + 1
        } else {
            base
        }
    }
}

/// Converts a signed integer to the nearest float.
pub fn float_from_i64(v: i64) -> (bits: u64)
    ensures
        bits == float_of_int(v as int),
{
    if v >= 0 {
        float_from_u64(v as u64)
    } else if v == i64::MIN {
        SIGN_BIT + float_from_u64(SIGN_BIT)
    } else {
        SIGN_BIT + float_from_u64((-v) as u64)
    }
}

/// The integer part of the magnitude of a float whose exponent is below 1087.
fn float_magnitude_of(bits: u64) -> (mag: u64)
    requires
        float_exponent(bits) < 1087,
    ensures
        mag == float_magnitude(bits),
{
    let e = (bits / HIDDEN_BIT) % 2048;
    let m = HIDDEN_BIT + bits % HIDDEN_BIT;
    if e < 1023 {
        0
    } else if e <= 1075 {
        let unit = pow2_u64(1075 - e);
        proof {
            lemma_pow2_pos((1075 - e) as nat);
        }
        m / unit
    } else {
        let scale = pow2_u64(e - 1075);
        proof {
            let s = scale as int;
            lemma2_to64();
            if e - 1075 < 11 {
                lemma_pow2_strictly_increases((e - 1075) as nat, 11);
            }
            assert(m * s < 0x20_0000_0000_0000 * 0x800) by (nonlinear_arith)
                requires
                    0 <= m < 0x20_0000_0000_0000,
                    0 <= s <= 0x800,
            ;
        }
        m * scale
    }
}

/// Converts a float to a signed integer: toward zero, saturating, NaN to zero.
pub fn float_to_i64(bits: u64) -> (r: i64)
    ensures
        r == float_to_int(bits, i64::MIN as int, i64::MAX as int),
{
    let e = (bits / HIDDEN_BIT) % 2048;
    let f = bits % HIDDEN_BIT;
    let negative = bits >= SIGN_BIT;
    if e == 2047 && f != 0 {
        0
    } else if e >= 1087 {
        if negative {
            i64::MIN
        } else {
            i64::MAX
        }
    } else {
        let mag = float_magnitude_of(bits);
        if negative {
            if mag >= SIGN_BIT {
                i64::MIN
            } else {
                -(mag as i64)
            }
        } else if mag >= SIGN_BIT {
            i64::MAX
        } else {
            mag as i64
        }
    }
}

/// Converts a float to an unsigned integer: toward zero, saturating, NaN to zero.
pub fn float_to_u64(bits: u64) -> (r: u64)
    ensures
        r == float_to_int(bits, 0, u64::MAX as int),
{
    let e = (bits / HIDDEN_BIT) % 2048;
    let f = bits % HIDDEN_BIT;
    let negative = bits >= SIGN_BIT;
    if e == 2047 && f != 0 {
        0
    } else if e >= 1087 {
        if negative {
            0
        } else {
            u64::MAX
        }
    } else if negative {
        0
    } else {
        float_magnitude_of(bits)
    }
}

} // verus!
