//! Pixel output: a linear channel value becomes a byte, and bytes become
//! the text of a plain (ASCII) portable pixmap.
use vstd::prelude::*;
use crate::scalar::Real;
use crate::utils::Interval;
use vstd::arithmetic::div_mod::{lemma_basic_div, lemma_div_is_ordered, lemma_div_is_ordered_by_denominator};
use vstd::arithmetic::power2::{lemma2_to64_rest, lemma_pow2_strictly_increases, pow2};
use vstd::bits::lemma_u64_shr_is_div;

verus! {

/// The pattern of 0.999, the brightest a channel may be before it is scaled to a byte.
pub const INTENSITY_MAX_BITS: u64 = 0x3fef_f7ce_d916_872b;

/// 2 to the 52nd: the unit of the exponent field, and the hidden bit of a normal value.
pub const FRACTION_UNIT: u64 = 0x10_0000_0000_0000;

/// The range a channel is clamped to: `[0, 0.999]`.
pub open spec fn intensity() -> Interval {
    Interval { min: Real::spec_zero(), max: Real { bits: INTENSITY_MAX_BITS } }
}

/// The biased exponent field of a pattern.
pub open spec fn exponent(c: Real) -> int {
    c.magnitude() / FRACTION_UNIT as int
}

/// The significand as an integer, with the hidden bit of a normal value.
pub open spec fn significand(c: Real) -> int {
    c.magnitude() % FRACTION_UNIT as int + if exponent(c) > 0 { FRACTION_UNIT as int } else { 0 }
}

/// `floor(256 * c)` for a value `c` that is not negative: `c` is
/// `significand(c) * 2^(e - 1075)`, where `e` is the exponent field, or 1
/// for a subnormal value.
pub open spec fn scaled_byte(c: Real) -> int {
    let e = if exponent(c) > 0 { exponent(c) } else { 1 };
    significand(c) / pow2((1067 - e) as nat) as int
}

/// The byte of one linear channel value after gamma correction: clamped to
/// `[0, 0.999]`, then scaled by 256 and truncated. NaN becomes 0, as a cast
/// of NaN to an integer does.
pub fn channel_byte(c: Real) -> (r: u8)
    ensures
        r == (if c.is_nan() { 0 } else { scaled_byte(intensity().clamp_spec(c)) }),
{
    if c.is_nan_exec() {
        return 0;
    }
    let range = Interval::new(Real::zero(), Real::from_bits(INTENSITY_MAX_BITS));
    let clamped = range.clamp(c);
    let mag = clamped.abs().to_bits();
    assert(mag == clamped.magnitude());
    assert(mag <= INTENSITY_MAX_BITS);
    let e = mag / FRACTION_UNIT;
    let frac = mag % FRACTION_UNIT;
    let sig = if e > 0 { frac + FRACTION_UNIT } else { frac };
    let e1 = if e > 0 { e } else { 1 };
    assert(e <= 1022);
    let shift = 1067 - e1;
    proof {
        lemma2_to64_rest();
        assert(pow2(53) == 0x20_0000_0000_0000) by {
            vstd::arithmetic::power2::lemma_pow2_unfold(53);
        }
        assert(sig < pow2(53));
    }
    if shift >= 64 {
        proof {
            lemma_pow2_strictly_increases(53, shift as nat);
            lemma_basic_div(sig as int, pow2(shift as nat) as int);
        }
        0
    } else {
        proof {
            lemma_u64_shr_is_div(sig, shift);
            vstd::arithmetic::power2::lemma_pow2_pos(shift as nat);
            if shift > 45 {
                lemma_pow2_strictly_increases(45, shift as nat);
            }
            lemma_div_is_ordered_by_denominator(sig as int, pow2(45) as int, pow2(shift as nat) as int);
            lemma_div_is_ordered(sig as int, 0x1f_ffff_ffff_ffff, pow2(45) as int);
            assert(0x1f_ffff_ffff_ffffint / 0x2000_0000_0000int == 255);
        }
        (sig >> shift) as u8
    }
}

/// The decimal digits of `n`, in ASCII.
pub open spec fn decimal(n: nat) -> Seq<u8>
    decreases n,
{
    if n < 10 {
        seq![(48 + n) as u8]
    } else {
        decimal(n / 10).push((48 + n % 10) as u8)
    }
}

/// The header of a plain-text pixmap: the magic number of the ASCII color
/// format, the size, and the largest channel value.
pub open spec fn header_spec(width: nat, height: nat) -> Seq<u8> {
    seq![80u8, 51u8, 10u8] + decimal(width) + seq![32u8] + decimal(height) + seq![10u8, 50u8, 53u8, 53u8, 10u8]
}

/// One pixel's line: the three channels, separated by spaces.
pub open spec fn pixel_spec(r: u8, g: u8, b: u8) -> Seq<u8> {
    decimal(r as nat) + seq![32u8] + decimal(g as nat) + seq![32u8] + decimal(b as nat) + seq![10u8]
}

/// Appends the decimal digits of `n`.
pub fn push_decimal(out: &mut Vec<u8>, n: u32)
    ensures
        final(out)@ == old(out)@ + decimal(n as nat),
    decreases n,
{
    if n >= 10 {
        push_decimal(out, n / 10);
    }
    let digit: u8 = (n % 10) as u8;
    out.push(48u8 + digit);
    proof {
        if n >= 10 {
            assert(old(out)@ + decimal(n as nat) =~= old(out)@ + decimal((n / 10) as nat) + seq![(48 + n % 10) as u8]);
        } else {
            assert(old(out)@ + decimal(n as nat) =~= old(out)@ + seq![(48 + n) as u8]);
        }
    }
}

/// The pixmap header for an image of `width` by `height` pixels.
pub fn ppm_header(width: u32, height: u32) -> (r: Vec<u8>)
    ensures
        r@ == header_spec(width as nat, height as nat),
{
    let mut out: Vec<u8> = Vec::new();
    out.push(80u8);
    out.push(51u8);
    out.push(10u8);
    push_decimal(&mut out, width);
    out.push(32u8);
    push_decimal(&mut out, height);
    out.push(10u8);
    out.push(50u8);
    out.push(53u8);
    out.push(53u8);
    out.push(10u8);
    assert(out@ =~= header_spec(width as nat, height as nat));
    out
}

/// The pixmap line of one pixel.
pub fn pixel_line(r: u8, g: u8, b: u8) -> (line: Vec<u8>)
    ensures
        line@ == pixel_spec(r, g, b),
{
    let mut out: Vec<u8> = Vec::new();
    push_decimal(&mut out, r as u32);
    out.push(32u8);
    push_decimal(&mut out, g as u32);
    out.push(32u8);
    push_decimal(&mut out, b as u32);
    out.push(10u8);
    assert(out@ =~= pixel_spec(r, g, b));
    out
}

} // verus!
