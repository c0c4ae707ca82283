//! The clamped-unit-range color model: an RGB triple whose channels are
//! fixed-point values meant to lie between zero and one unit, clamped on
//! construction and after every arithmetic operation, with a
//! linear-light (squared-channel) blend.

use vstd::prelude::*;

use crate::fixed::{
    fp_div, fp_mul, isqrt_u128, lemma_isqrt_bounds, lemma_isqrt_monotone, lemma_isqrt_square,
    sat64, spec_fp_div, spec_fp_mul, spec_isqrt, spec_sat64, spec_tdiv, SCALE,
};
use crate::screen::Pixelatable;

verus! {

/// An RGB triple; the invariant `valid()` — every channel between zero and
/// one unit — is established by every constructor and every operation here.
#[derive(Clone, Copy, Debug, PartialEq, Eq, Structural)]
pub struct Color {
    pub r: i64,
    pub g: i64,
    pub b: i64,
}

/// A value clamped into the unit channel range.
pub open spec fn spec_clamp01(v: int) -> int {
    if v < 0 {
        0
    } else if v > SCALE {
        SCALE as int
    } else {
        v
    }
}

/// A channel value rounded to the nearest of 256 display steps.
pub open spec fn spec_channel_to_u8(v: int) -> int {
    spec_tdiv(spec_clamp01(v) * 255 + (SCALE as int) / 2, SCALE as int)
}

/// One channel of the linear-light blend: the channels are squared, mixed
/// by the given ratio and the integer square root of the mix is taken.
pub open spec fn spec_blend_channel(v1: int, v2: int, ratio: int) -> int {
    spec_isqrt(spec_tdiv(v1 * v1 * ((SCALE as int) - ratio) + v2 * v2 * ratio, SCALE as int))
}

/// Clamp a wide intermediate into the unit channel range.
fn clamp01_wide(v: i128) -> (r: i64)
    ensures
        r as int == spec_clamp01(v as int),
{
    if v < 0 {
        0
    } else if v > SCALE as i128 {
        SCALE
    } else {
        v as i64
    }
}

/// Round a unit channel to its 8-bit display value.
pub fn channel_to_u8(c: i64) -> (r: u8)
    ensures
        r as int == spec_channel_to_u8(c as int),
{
    let cl: i64 = clamp01_wide(c as i128);
    let wide: i64 = cl * 255 + SCALE / 2;
    proof {
        assert(spec_tdiv(wide as int, SCALE as int) <= 255 && spec_tdiv(wide as int, SCALE as int)
            >= 0) by (nonlinear_arith)
            requires
                0 <= cl as int <= SCALE as int,
                wide as int == cl as int * 255 + (SCALE as int) / 2,
                spec_tdiv(wide as int, SCALE as int) == wide as int / (SCALE as int),
        ;
    }
    let q: i64 = crate::fixed::tdiv64(wide, SCALE);
    q as u8
}

impl Color {
    /// Every channel lies between zero and one unit.
    pub open spec fn valid(self) -> bool {
        0 <= self.r <= SCALE && 0 <= self.g <= SCALE && 0 <= self.b <= SCALE
    }

    /// The triple a construction from these channel values yields: each
    /// clamped into the unit range.
    pub open spec fn spec_new(r: int, g: int, b: int) -> Color {
        Color { r: spec_clamp01(r) as i64, g: spec_clamp01(g) as i64, b: spec_clamp01(b) as i64 }
    }

    /// A color from three fixed-point channels, clamped on construction.
    pub fn new(r: i64, g: i64, b: i64) -> (c: Self)
        ensures
            c == Self::spec_new(r as int, g as int, b as int),
            c.valid(),
    {
        let mut s = Color { r, g, b };
        s.clamp();
        s
    }

    /// The channel triple.
    pub fn get_components(&self) -> (t: (i64, i64, i64))
        ensures
            t.0 == self.r && t.1 == self.g && t.2 == self.b,
    {
        (self.r, self.g, self.b)
    }

    /// The channel triple rounded to 8-bit display values.
    pub fn get_u8_components(&self) -> (t: (u8, u8, u8))
        ensures
            t.0 as int == spec_channel_to_u8(self.r as int),
            t.1 as int == spec_channel_to_u8(self.g as int),
            t.2 as int == spec_channel_to_u8(self.b as int),
    {
        (channel_to_u8(self.r), channel_to_u8(self.g), channel_to_u8(self.b))
    }

    /// The red channel.
    pub fn r(&self) -> (v: i64)
        ensures
            v == self.r,
    {
        self.r
    }

    /// The green channel.
    pub fn g(&self) -> (v: i64)
        ensures
            v == self.g,
    {
        self.g
    }

    /// The blue channel.
    pub fn b(&self) -> (v: i64)
        ensures
            v == self.b,
    {
        self.b
    }

    /// Clamp every channel into the unit range in place.
    pub fn clamp(&mut self)
        ensures
            final(self).r as int == spec_clamp01(old(self).r as int),
            final(self).g as int == spec_clamp01(old(self).g as int),
            final(self).b as int == spec_clamp01(old(self).b as int),
            final(self).valid(),
    {
        self.r = clamp01_wide(self.r as i128);
        self.g = clamp01_wide(self.g as i128);
        self.b = clamp01_wide(self.b as i128);
    }

    /// Componentwise sum, clamped.
    pub fn add(self, rhs: Self) -> (c: Self)
        ensures
            c.r as int == spec_clamp01(self.r + rhs.r),
            c.g as int == spec_clamp01(self.g + rhs.g),
            c.b as int == spec_clamp01(self.b + rhs.b),
            c.valid(),
    {
        Self {
            r: clamp01_wide(self.r as i128 + rhs.r as i128),
            g: clamp01_wide(self.g as i128 + rhs.g as i128),
            b: clamp01_wide(self.b as i128 + rhs.b as i128),
        }
    }

    /// Componentwise difference, clamped.
    pub fn sub(self, rhs: Self) -> (c: Self)
        ensures
            c.r as int == spec_clamp01(self.r - rhs.r),
            c.g as int == spec_clamp01(self.g - rhs.g),
            c.b as int == spec_clamp01(self.b - rhs.b),
            c.valid(),
    {
        Self {
            r: clamp01_wide(self.r as i128 - rhs.r as i128),
            g: clamp01_wide(self.g as i128 - rhs.g as i128),
            b: clamp01_wide(self.b as i128 - rhs.b as i128),
        }
    }

    /// Componentwise fixed-point product, clamped.
    pub fn mul(self, rhs: Self) -> (c: Self)
        ensures
            c.r as int == spec_clamp01(spec_fp_mul(self.r as int, rhs.r as int)),
            c.g as int == spec_clamp01(spec_fp_mul(self.g as int, rhs.g as int)),
            c.b as int == spec_clamp01(spec_fp_mul(self.b as int, rhs.b as int)),
            c.valid(),
    {
        Self {
            r: clamp01_wide(fp_mul(self.r, rhs.r) as i128),
            g: clamp01_wide(fp_mul(self.g, rhs.g) as i128),
            b: clamp01_wide(fp_mul(self.b, rhs.b) as i128),
        }
    }

    /// Componentwise fixed-point quotient, clamped; zero channels in the
    /// divisor are ruled out by precondition.
    pub fn div(self, rhs: Self) -> (c: Self)
        requires
            rhs.r != 0 && rhs.g != 0 && rhs.b != 0,
        ensures
            c.r as int == spec_clamp01(spec_fp_div(self.r as int, rhs.r as int)),
            c.g as int == spec_clamp01(spec_fp_div(self.g as int, rhs.g as int)),
            c.b as int == spec_clamp01(spec_fp_div(self.b as int, rhs.b as int)),
            c.valid(),
    {
        Self {
            r: clamp01_wide(fp_div(self.r, rhs.r) as i128),
            g: clamp01_wide(fp_div(self.g, rhs.g) as i128),
            b: clamp01_wide(fp_div(self.b, rhs.b) as i128),
        }
    }

    /// Every channel shifted by a fixed-point value, clamped.
    pub fn add_scalar(self, k: i64) -> (c: Self)
        ensures
            c.r as int == spec_clamp01(self.r + k),
            c.g as int == spec_clamp01(self.g + k),
            c.b as int == spec_clamp01(self.b + k),
            c.valid(),
    {
        Self {
            r: clamp01_wide(self.r as i128 + k as i128),
            g: clamp01_wide(self.g as i128 + k as i128),
            b: clamp01_wide(self.b as i128 + k as i128),
        }
    }

    /// Every channel reduced by a fixed-point value, clamped.
    pub fn sub_scalar(self, k: i64) -> (c: Self)
        ensures
            c.r as int == spec_clamp01(self.r - k),
            c.g as int == spec_clamp01(self.g - k),
            c.b as int == spec_clamp01(self.b - k),
            c.valid(),
    {
        Self {
            r: clamp01_wide(self.r as i128 - k as i128),
            g: clamp01_wide(self.g as i128 - k as i128),
            b: clamp01_wide(self.b as i128 - k as i128),
        }
    }

    /// Every channel scaled by a fixed-point factor, clamped.
    pub fn mul_scalar(self, k: i64) -> (c: Self)
        ensures
            c.r as int == spec_clamp01(spec_fp_mul(self.r as int, k as int)),
            c.g as int == spec_clamp01(spec_fp_mul(self.g as int, k as int)),
            c.b as int == spec_clamp01(spec_fp_mul(self.b as int, k as int)),
            c.valid(),
    {
        Self {
            r: clamp01_wide(fp_mul(self.r, k) as i128),
            g: clamp01_wide(fp_mul(self.g, k) as i128),
            b: clamp01_wide(fp_mul(self.b, k) as i128),
        }
    }

    /// Every channel divided by a nonzero fixed-point factor, clamped.
    pub fn div_scalar(self, k: i64) -> (c: Self)
        requires
            k != 0,
        ensures
            c.r as int == spec_clamp01(spec_fp_div(self.r as int, k as int)),
            c.g as int == spec_clamp01(spec_fp_div(self.g as int, k as int)),
            c.b as int == spec_clamp01(spec_fp_div(self.b as int, k as int)),
            c.valid(),
    {
        Self {
            r: clamp01_wide(fp_div(self.r, k) as i128),
            g: clamp01_wide(fp_div(self.g, k) as i128),
            b: clamp01_wide(fp_div(self.b, k) as i128),
        }
    }

    /// The blend of two colors in specification terms.
    pub open spec fn spec_blend(c1: Color, c2: Color, ratio: int) -> Color {
        (Color {
            r: spec_blend_channel(c1.r as int, c2.r as int, ratio) as i64,
            g: spec_blend_channel(c1.g as int, c2.g as int, ratio) as i64,
            b: spec_blend_channel(c1.b as int, c2.b as int, ratio) as i64,
        })
    }

    /// Blend two colors in linear-light space: each channel pair is squared,
    /// mixed by `ratio`, and the square root of the mix is taken. A ratio of
    /// zero returns the first color exactly, a ratio of one unit the second.
    pub fn blend_colors(color1: &Self, color2: &Self, ratio: i64) -> (c: Self)
        requires
            color1.valid(),
            color2.valid(),
            0 <= ratio <= SCALE,
        ensures
            c == Self::spec_blend(*color1, *color2, ratio as int),
            c.valid(),
            ratio == 0 ==> c == *color1,
            ratio == SCALE ==> c == *color2,
    {
        let c = Self {
            r: blend_channel(color1.r, color2.r, ratio),
            g: blend_channel(color1.g, color2.g, ratio),
            b: blend_channel(color1.b, color2.b, ratio),
        };
        proof {
            if ratio == 0 || ratio == SCALE {
                lemma_blend_channel_endpoints(color1.r as int, color2.r as int, ratio as int);
                lemma_blend_channel_endpoints(color1.g as int, color2.g as int, ratio as int);
                lemma_blend_channel_endpoints(color1.b as int, color2.b as int, ratio as int);
            }
        }
        c
    }
}

/// One executable blend channel, mirroring `spec_blend_channel`.
fn blend_channel(v1: i64, v2: i64, ratio: i64) -> (r: i64)
    requires
        0 <= v1 <= SCALE,
        0 <= v2 <= SCALE,
        0 <= ratio <= SCALE,
    ensures
        r as int == spec_blend_channel(v1 as int, v2 as int, ratio as int),
        0 <= r <= SCALE,
{
    let s: u128 = SCALE as u128;
    proof {
        lemma_blend_mix_bounded(v1 as int, v2 as int, ratio as int);
    }
    let mix: u128 = (v1 as u128) * (v1 as u128) * (s - ratio as u128) + (v2 as u128) * (
    v2 as u128) * (ratio as u128);
    let q: u128 = mix / s;
    let root: u128 = isqrt_u128(q);
    proof {
        lemma_isqrt_monotone(q as int, (SCALE as int) * (SCALE as int));
        lemma_isqrt_square(SCALE as int);
        lemma_isqrt_bounds(q as int);
    }
    root as i64
}

/// The blend mix of valid channels stays below the cube of one unit, and
/// its scaled-down value below the square.
proof fn lemma_blend_mix_bounded(v1: int, v2: int, ratio: int)
    requires
        0 <= v1 <= SCALE,
        0 <= v2 <= SCALE,
        0 <= ratio <= SCALE,
    ensures
        0 <= v1 * v1 <= (SCALE as int) * (SCALE as int),
        0 <= v2 * v2 <= (SCALE as int) * (SCALE as int),
        0 <= v1 * v1 * ((SCALE as int) - ratio) <= (SCALE as int) * (SCALE as int) * (
        SCALE as int),
        0 <= v2 * v2 * ratio <= (SCALE as int) * (SCALE as int) * (SCALE as int),
        0 <= v1 * v1 * ((SCALE as int) - ratio) + v2 * v2 * ratio <= (SCALE as int) * (
        SCALE as int) * (SCALE as int),
        spec_tdiv(v1 * v1 * ((SCALE as int) - ratio) + v2 * v2 * ratio, SCALE as int) <= (
        SCALE as int) * (SCALE as int),
{
    let s = SCALE as int;
    assert(0 <= v1 * v1 <= s * s && 0 <= v2 * v2 <= s * s && 0 <= v1 * v1 * (s - ratio) <= s * s
        * s && 0 <= v2 * v2 * ratio <= s * s * s && v1 * v1 * (s - ratio) + v2 * v2 * ratio <= s
        * s * s) by (nonlinear_arith)
        requires
            0 <= v1 <= s,
            0 <= v2 <= s,
            0 <= ratio <= s,
    ;
    let mix = v1 * v1 * (s - ratio) + v2 * v2 * ratio;
    assert(mix / s <= s * s) by (nonlinear_arith)
        requires
            0 <= mix <= s * s * s,
            s == SCALE as int,
    ;
}

/// At the ratio endpoints the blend returns a valid channel unchanged.
proof fn lemma_blend_channel_endpoints(v1: int, v2: int, ratio: int)
    requires
        0 <= v1 <= SCALE,
        0 <= v2 <= SCALE,
        ratio == 0 || ratio == SCALE as int,
    ensures
        ratio == 0 ==> spec_blend_channel(v1, v2, ratio) == v1,
        ratio == SCALE as int ==> spec_blend_channel(v1, v2, ratio) == v2,
{
    let s = SCALE as int;
    if ratio == 0 {
        assert(v1 * v1 * (s - 0) + v2 * v2 * 0 == (v1 * v1) * s) by (nonlinear_arith);
        assert(((v1 * v1) * s) / s == v1 * v1) by (nonlinear_arith)
            requires
                s > 0,
        ;
        lemma_isqrt_square(v1);
    } else {
        assert(v1 * v1 * (s - s) + v2 * v2 * s == (v2 * v2) * s) by (nonlinear_arith);
        assert(((v2 * v2) * s) / s == v2 * v2) by (nonlinear_arith)
            requires
                s > 0,
        ;
        lemma_isqrt_square(v2);
    }
}

impl Pixelatable for Color {
    type Component = i64;

    open spec fn red_spec(&self) -> i64 {
        self.r
    }

    open spec fn green_spec(&self) -> i64 {
        self.g
    }

    open spec fn blue_spec(&self) -> i64 {
        self.b
    }

    fn get_red_channel(&self) -> (r: i64) {
        self.r()
    }

    fn get_green_channel(&self) -> (r: i64) {
        self.g()
    }

    fn get_blue_channel(&self) -> (r: i64) {
        self.b()
    }

    fn set_red_channel(&mut self, new_r: i64) {
        self.r = new_r;
    }

    fn set_green_channel(&mut self, new_g: i64) {
        self.g = new_g;
    }

    fn set_blue_channel(&mut self, new_b: i64) {
        self.b = new_b;
    }

    /// A fresh pixel starts out white.
    open spec fn new_spec() -> Color {
        Color { r: SCALE, g: SCALE, b: SCALE }
    }

    fn new() -> Self {
        Color::new(SCALE, SCALE, SCALE)
    }
}

} // verus!
