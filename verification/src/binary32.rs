//! IEEE 754 binary32 values held as their bit patterns.
//!
//! Positions and font sizes are single-precision values. The library carries
//! them as `u32` bit patterns (`f32::to_bits`) and decides the model's rules
//! about them (finite, non-negative, positive, inside the canvas) from the
//! encoding, with the exact real-number meaning stated in the specs below.

use vstd::prelude::*;
use vstd::arithmetic::power2::*;
use vstd::arithmetic::div_mod::*;
use vstd::arithmetic::mul::*;

verus! {

/// The biased exponent field (bits 23..30).
pub open spec fn exponent_field(bits: u32) -> u32 {
    (bits >> 23u32) & 0xffu32
}

/// The fraction field (bits 0..22).
pub open spec fn fraction_field(bits: u32) -> u32 {
    bits & 0x7f_ffffu32
}

/// The sign bit.
pub open spec fn sign_bit(bits: u32) -> bool {
    (bits >> 31u32) == 1
}

/// Not an infinity or a NaN (`f32::is_finite`).
pub open spec fn is_finite(bits: u32) -> bool {
    exponent_field(bits) != 0xff
}

/// Positive or negative zero.
pub open spec fn is_zero(bits: u32) -> bool {
    bits & 0x7fff_ffffu32 == 0
}

/// The integer significand of a finite value: its magnitude is
/// `significand * 2^scale`.
pub open spec fn significand(bits: u32) -> nat {
    if exponent_field(bits) == 0 {
        fraction_field(bits) as nat
    } else {
        (fraction_field(bits) + 0x80_0000) as nat
    }
}

/// The binary scale of a finite value: its magnitude is
/// `significand * 2^scale`.
pub open spec fn scale(bits: u32) -> int {
    (if exponent_field(bits) == 0 {
        1
    } else {
        exponent_field(bits) as int
    }) - 150
}

/// The magnitude of a finite value is greater than the natural number `n`.
pub open spec fn magnitude_exceeds(bits: u32, n: nat) -> bool {
    if scale(bits) >= 0 {
        significand(bits) * pow2(scale(bits) as nat) > n
    } else {
        significand(bits) > n * pow2((-scale(bits)) as nat)
    }
}

/// A finite value is less than zero (`x < 0.0`).
pub open spec fn is_negative(bits: u32) -> bool {
    sign_bit(bits) && !is_zero(bits)
}

/// A finite value is greater than the natural number `n` (`x > n as f32`
/// where `n` is already a binary32 value).
pub open spec fn exceeds(bits: u32, n: nat) -> bool {
    !sign_bit(bits) && magnitude_exceeds(bits, n)
}

/// How many times `w` must be halved before it fits in 24 bits.
pub open spec fn halvings_to_24_bits(w: nat) -> nat
    decreases w,
{
    if w < 0x100_0000 {
        0
    } else {
        1 + halvings_to_24_bits(w / 2)
    }
}

/// The binary32 value nearest to the natural number `w`, ties to even
/// (`w as f32` for a `u32`). A binary32 value has a 24-bit significand, so
/// with `k` halvings needed, the candidates are the multiples of `2^k`.
pub open spec fn round_to_binary32(w: nat) -> nat {
    let k = halvings_to_24_bits(w);
    if k == 0 {
        w
    } else {
        let p = pow2(k);
        let q = w / p;
        let r = w % p;
        let up = r > p / 2 || (r == p / 2 && q % 2 == 1);
        (q + if up {
            1nat
        } else {
            0nat
        }) * p
    }
}

/// The rule for a position in general: both coordinates are finite and not
/// less than zero.
pub open spec fn position_is_valid(x: u32, y: u32) -> bool {
    is_finite(x) && is_finite(y) && !is_negative(x) && !is_negative(y)
}

/// The rule for a position on a canvas: valid, and neither coordinate exceeds
/// the canvas dimension converted to binary32.
pub open spec fn position_in_canvas(x: u32, y: u32, width: u32, height: u32) -> bool {
    position_is_valid(x, y) && !exceeds(x, round_to_binary32(width as nat)) && !exceeds(
        y,
        round_to_binary32(height as nat),
    )
}

/// The rule for a font size: finite and greater than zero.
pub open spec fn font_size_is_valid(size: u32) -> bool {
    is_finite(size) && !sign_bit(size) && !is_zero(size)
}

fn exponent_of(bits: u32) -> (e: u32)
    ensures
        e == exponent_field(bits),
        e <= 0xff,
{
    let e = (bits >> 23u32) & 0xffu32;
    assert(((bits >> 23u32) & 0xffu32) <= 0xff) by (bit_vector);
    e
}

fn fraction_of(bits: u32) -> (f: u32)
    ensures
        f == fraction_field(bits),
        f < 0x80_0000,
{
    let f = bits & 0x7f_ffffu32;
    assert((bits & 0x7f_ffffu32) < 0x80_0000) by (bit_vector);
    f
}

/// Whether the value is finite (`f32::is_finite`).
pub fn bits_are_finite(bits: u32) -> (finite: bool)
    ensures
        finite == is_finite(bits),
{
    exponent_of(bits) != 0xff
}

/// Whether the value is less than zero.
pub fn bits_are_negative(bits: u32) -> (negative: bool)
    ensures
        negative == is_negative(bits),
{
    (bits >> 31u32) == 1 && bits & 0x7fff_ffffu32 != 0
}

/// `x * 2^shift`.
fn times_pow2(x: u64, shift: u32) -> (r: u64)
    requires
        x * pow2(shift as nat) <= u64::MAX,
    ensures
        r == x * pow2(shift as nat),
{
    let mut r = x;
    let mut i: u32 = 0;
    proof {
        lemma2_to64();
    }
    while i < shift
        invariant
            i <= shift,
            r == x * pow2(i as nat),
            x * pow2(shift as nat) <= u64::MAX,
        decreases shift - i,
    {
        proof {
            lemma_pow2_unfold((i + 1) as nat);
            lemma_pow2_pos(i as nat);
            if i + 1 < shift {
                lemma_pow2_strictly_increases((i + 1) as nat, shift as nat);
            }
            lemma_mul_inequality(pow2((i + 1) as nat) as int, pow2(shift as nat) as int, x as int);
            lemma_mul_is_commutative(x as int, pow2((i + 1) as nat) as int);
            lemma_mul_is_commutative(x as int, pow2(shift as nat) as int);
            lemma_mul_is_associative(x as int, pow2(i as nat) as int, 2);
        }
        r = r * 2;
        i = i + 1;
    }
    r
}

/// Whether a finite value exceeds `n` (a binary32 value below `2^33`).
pub fn bits_exceed(bits: u32, n: u64) -> (r: bool)
    requires
        is_finite(bits),
        n < 0x2_0000_0000,
    ensures
        r == exceeds(bits, n as nat),
{
    if (bits >> 31u32) == 1 {
        return false;
    }
    let e = exponent_of(bits);
    let f = fraction_of(bits);
    let m: u64 = if e == 0 {
        f as u64
    } else {
        f as u64 + 0x80_0000
    };
    assert(m == significand(bits));
    assert(m < 0x100_0000);
    let raw: u32 = if e == 0 {
        1
    } else {
        e
    };
    proof {
        lemma2_to64();
    }
    if raw >= 150 {
        let shift = raw - 150;
        assert(scale(bits) == shift);
        if shift >= 10 {
            proof {
                if shift > 10 {
                    lemma_pow2_strictly_increases(10, shift as nat);
                }
                assert(m >= 0x80_0000);
                lemma_mul_inequality(0x80_0000, m as int, pow2(10) as int);
                lemma_mul_inequality(pow2(10) as int, pow2(shift as nat) as int, m as int);
                lemma_mul_is_commutative(m as int, pow2(10) as int);
                lemma_mul_is_commutative(m as int, pow2(shift as nat) as int);
            }
            if shift > 10 {
            } else {
                assert(shift == 10);
            }
            return true;
        }
        proof {
            if shift < 9 {
                lemma_pow2_strictly_increases(shift as nat, 9);
            }
            lemma_mul_inequality(m as int, 0x100_0000, pow2(shift as nat) as int);
            lemma_mul_inequality(pow2(shift as nat) as int, 512, 0x100_0000);
            lemma_mul_is_commutative(0x100_0000, pow2(shift as nat) as int);
        }
        let big = times_pow2(m, shift);
        big > n
    } else {
        let shift = 150 - raw;
        assert(scale(bits) == -(shift as int));
        if n == 0 {
            return m > 0;
        }
        if shift >= 25 {
            proof {
                lemma_pow2_strictly_increases(24, shift as nat);
                lemma_mul_inequality(1, n as int, pow2(shift as nat) as int);
            }
            return false;
        }
        proof {
            if shift < 24 {
                lemma_pow2_strictly_increases(shift as nat, 24);
            }
            lemma_mul_inequality(n as int, 0x2_0000_0000, pow2(shift as nat) as int);
            lemma_mul_inequality(pow2(shift as nat) as int, 0x100_0000, 0x2_0000_0000);
            lemma_mul_is_commutative(0x2_0000_0000, pow2(shift as nat) as int);
        }
        let big = times_pow2(n, shift);
        m > big
    }
}

/// The binary32 value nearest to `w`, ties to even (`w as f32`).
pub fn round_u32_to_binary32(w: u32) -> (r: u64)
    ensures
        r == round_to_binary32(w as nat),
        r <= 0x1_0000_0000,
{
    let mut t: u64 = w as u64;
    let mut p: u64 = 1;
    let ghost mut k: nat = 0;
    proof {
        lemma2_to64();
        lemma2_to64_rest();
    }
    while t >= 0x100_0000
        invariant
            p == pow2(k),
            p >= 1,
            t == w as nat / p as nat,
            halvings_to_24_bits(w as nat) == k + halvings_to_24_bits(t as nat),
            t * p <= w,
            p <= 256,
        decreases t,
    {
        proof {
            assert(t * p <= w);
            assert(p < 256) by (nonlinear_arith)
                requires
                    t >= 0x100_0000,
                    t * p <= w,
                    w <= 0xffff_ffff,
            ;
            lemma2_to64();
            assert(pow2(8) == 256);
            if k >= 8 {
                if k > 8 {
                    lemma_pow2_strictly_increases(8, k);
                }
                assert(false);
            }
            if k + 1 < 8 {
                lemma_pow2_strictly_increases(k + 1, 8);
            }
            lemma_div_denominator(w as int, p as int, 2);
            lemma_pow2_unfold(k + 1);
            lemma_fundamental_div_mod(t as int, 2);
            assert((t / 2) * (p * 2) <= w) by (nonlinear_arith)
                requires
                    t * p <= w,
                    (t / 2) * 2 <= t,
                    p >= 1,
            ;
        }
        t = t / 2;
        p = p * 2;
        proof {
            k = k + 1;
        }
    }
    if p == 1 {
        assert(k == 0) by {
            if k > 0 {
                lemma_pow2_strictly_increases(0, k);
            }
        }
        return w as u64;
    }
    assert(k > 0);
    proof {
        lemma_fundamental_div_mod(w as int, p as int);
    }
    let q = t;
    let r = w as u64 - q * p;
    assert(r == (w as nat) % (p as nat));
    let half = p / 2;
    let up = r > half || (r == half && q % 2 == 1);
    proof {
        assert(q < 0x100_0000);
        assert((q + 1) * p <= 0x1_0000_0000) by (nonlinear_arith)
            requires
                q < 0x100_0000,
                q * p <= w,
                w <= 0xffff_ffff,
                r == w - q * p,
                r < p,
                p <= 256,
        ;
    }
    if up {
        (q + 1) * p
    } else {
        q * p
    }
}

/// Whether a position is valid in general (finite, non-negative).
pub fn check_position(x: u32, y: u32) -> (valid: bool)
    ensures
        valid == position_is_valid(x, y),
{
    bits_are_finite(x) && bits_are_finite(y) && !bits_are_negative(x) && !bits_are_negative(y)
}

/// Whether a position lies on a canvas of the given size.
pub fn check_position_in_canvas(x: u32, y: u32, width: u32, height: u32) -> (valid: bool)
    ensures
        valid == position_in_canvas(x, y, width, height),
{
    if !check_position(x, y) {
        return false;
    }
    let w = round_u32_to_binary32(width);
    let h = round_u32_to_binary32(height);
    !bits_exceed(x, w) && !bits_exceed(y, h)
}

/// Whether a font size is valid (finite, greater than zero).
pub fn check_font_size(size: u32) -> (valid: bool)
    ensures
        valid == font_size_is_valid(size),
{
    bits_are_finite(size) && (size >> 31u32) != 1 && size & 0x7fff_ffffu32 != 0
}

} // verus!
