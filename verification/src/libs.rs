//! Linear color interpolation, used for the flap and score highlights.

use vstd::arithmetic::div_mod::{lemma_div_is_ordered, lemma_div_multiples_vanish};
use vstd::arithmetic::mul::{lemma_mul_inequality, lemma_mul_nonnegative};
use vstd::prelude::*;

use crate::palette::Cor;

verus! {

/// The interpolation progress: `num/den`, clamped from above to 1.
pub open spec fn clamped_progress(num: int, den: int) -> int {
    if num > den {
        den
    } else {
        num
    }
}

/// Linear interpolation of one 8-bit channel at progress `t/den`:
/// `a` at progress 0, `b` at progress 1, truncated toward zero.
pub open spec fn blend_channel(a: u8, b: u8, t: int, den: int) -> int
    recommends
        0 < den,
        0 <= t <= den,
{
    (a * (den - t) + b * t) / den
}

/// The per-channel interpolation of two colors at progress `num/den`.
pub open spec fn spec_blend(c1: Cor, c2: Cor, num: int, den: int) -> Cor
    recommends
        0 < den,
        0 <= num,
{
    let t = clamped_progress(num, den);
    Cor {
        r: blend_channel(c1.r, c2.r, t, den) as u8,
        g: blend_channel(c1.g, c2.g, t, den) as u8,
        b: blend_channel(c1.b, c2.b, t, den) as u8,
    }
}

/// The interpolated channel lies between 0 and 255, equals `a` at the ends of
/// the scale when `a == b`, equals `a` at progress 0 and `b` at progress 1.
pub proof fn lemma_blend_channel(a: u8, b: u8, t: int, den: int)
    requires
        0 < den,
        0 <= t <= den,
    ensures
        0 <= blend_channel(a, b, t, den) <= 255,
        a == b ==> blend_channel(a, b, t, den) == a,
        t == 0 ==> blend_channel(a, b, t, den) == a,
        t == den ==> blend_channel(a, b, t, den) == b,
{
    let s = a * (den - t) + b * t;
    lemma_mul_nonnegative(a as int, den - t);
    lemma_mul_nonnegative(b as int, t);
    lemma_mul_inequality(a as int, 255, den - t);
    lemma_mul_inequality(b as int, 255, t);
    assert(s <= 255 * (den - t) + 255 * t);
    assert(255 * (den - t) + 255 * t == 255 * den) by (nonlinear_arith);
    lemma_div_is_ordered(0, s, den);
    lemma_div_is_ordered(s, 255 * den, den);
    lemma_div_multiples_vanish(255, den);
    if a == b {
        assert(a * (den - t) + a * t == a * den) by (nonlinear_arith);
        lemma_div_multiples_vanish(a as int, den);
    }
    if t == 0 {
        lemma_div_multiples_vanish(a as int, den);
    }
    if t == den {
        assert(a * (den - t) + b * t == b * den) by (nonlinear_arith)
            requires
                t == den,
        ;
        lemma_div_multiples_vanish(b as int, den);
    }
}

/// One channel of the interpolation, on machine integers.
fn blend_channel_exec(a: u8, b: u8, t: u32, den: u32) -> (r: u8)
    requires
        0 < den,
        t <= den,
    ensures
        r == blend_channel(a, b, t as int, den as int),
{
    proof {
        lemma_blend_channel(a, b, t as int, den as int);
        lemma_mul_inequality(a as int, 255, den - t);
        lemma_mul_inequality(b as int, 255, t as int);
        lemma_mul_nonnegative(a as int, den - t);
        lemma_mul_nonnegative(b as int, t as int);
    }
    let s: u64 = (a as u64) * ((den - t) as u64) + (b as u64) * (t as u64);
    (s / (den as u64)) as u8
}

/// Per-channel linear interpolation of `color1` toward `color2` by the
/// progress `num/den` (clamped to at most 1), each channel truncated to a
/// byte. At progress 0 the result is `color1`, at progress 1 it is `color2`,
/// and blending a color with itself changes nothing.
pub fn blend_colors(color1: Cor, color2: Cor, num: u32, den: u32) -> (c: Cor)
    requires
        den > 0,
    ensures
        c == spec_blend(color1, color2, num as int, den as int),
        color1 == color2 ==> c == color1,
        num == 0 ==> c == color1,
        num >= den ==> c == color2,
{
    let t = if num > den {
        den
    } else {
        num
    };
    proof {
        lemma_blend_channel(color1.r, color2.r, t as int, den as int);
        lemma_blend_channel(color1.g, color2.g, t as int, den as int);
        lemma_blend_channel(color1.b, color2.b, t as int, den as int);
    }
    Cor {
        r: blend_channel_exec(color1.r, color2.r, t, den),
        g: blend_channel_exec(color1.g, color2.g, t, den),
        b: blend_channel_exec(color1.b, color2.b, t, den),
    }
}

} // verus!
