//! Linear RGB color over the fixed-point scalar, and its encoding into
//! 16-bit big-endian channel bytes.
//!
//! A channel is gamma-encoded by square root, clamped just below one and
//! scaled to the 16-bit range, exactly as the contracts state.

use vstd::prelude::*;

use crate::fixed::{abs_int, add_spec, clip, div_spec, mul_spec, sqrt_spec, sub_spec, Fx, SCALE};

verus! {

/// Raw clamp ceiling for an encoded channel: just below one.
pub const CLAMP_RAW: i64 = 65470;

/// Mathematical model of a color: the three raw scaled channels.
pub ghost struct C3 {
    pub r: int,
    pub g: int,
    pub b: int,
}

/// A linear RGB color; channels are fixed-point scalars where one is
/// full intensity.
#[derive(Clone, Copy, Debug, PartialEq, Eq, Structural)]
pub struct Color {
    pub r: Fx,
    pub g: Fx,
    pub b: Fx,
}

impl View for Color {
    type V = C3;

    open spec fn view(&self) -> C3 {
        C3 { r: self.r@, g: self.g@, b: self.b@ }
    }
}

/// The model of black: no light.
pub open spec fn c3_black() -> C3 {
    C3 { r: 0, g: 0, b: 0 }
}

/// The model of white: full intensity.
pub open spec fn c3_white() -> C3 {
    C3 { r: SCALE as int, g: SCALE as int, b: SCALE as int }
}

/// The model of the sky's zenith color.
pub open spec fn c3_sky_blue() -> C3 {
    C3 { r: 32768, g: 45875, b: SCALE as int }
}

/// Channelwise sum.
pub open spec fn c3_add(a: C3, b: C3) -> C3 {
    C3 { r: add_spec(a.r, b.r), g: add_spec(a.g, b.g), b: add_spec(a.b, b.b) }
}

/// Channelwise difference.
pub open spec fn c3_sub(a: C3, b: C3) -> C3 {
    C3 { r: sub_spec(a.r, b.r), g: sub_spec(a.g, b.g), b: sub_spec(a.b, b.b) }
}

/// Channelwise product, the attenuation of one color by another.
pub open spec fn c3_mul(a: C3, b: C3) -> C3 {
    C3 { r: mul_spec(a.r, b.r), g: mul_spec(a.g, b.g), b: mul_spec(a.b, b.b) }
}

/// Scaling every channel by a scalar.
pub open spec fn c3_scale(a: C3, s: int) -> C3 {
    C3 { r: mul_spec(a.r, s), g: mul_spec(a.g, s), b: mul_spec(a.b, s) }
}

/// Division of every channel by a non-zero scalar.
pub open spec fn c3_div(a: C3, s: int) -> C3 {
    C3 { r: div_spec(a.r, s), g: div_spec(a.g, s), b: div_spec(a.b, s) }
}

/// The 16-bit encoding of one linear channel: gamma by square root,
/// clamp into `[0, CLAMP_RAW]`, then scale to the 16-bit range. A
/// non-positive channel encodes to zero.
pub open spec fn channel16_spec(v: int) -> int {
    if v <= 0 {
        0
    } else {
        let s = sqrt_spec(v);
        let c = if s > CLAMP_RAW {
            CLAMP_RAW as int
        } else {
            s
        };
        (c * 65535) / (SCALE as int)
    }
}

/// The six bytes of a pixel: each channel big-endian.
pub open spec fn c3_bytes(c: C3) -> Seq<u8> {
    seq![
        (channel16_spec(c.r) / 256) as u8,
        (channel16_spec(c.r) % 256) as u8,
        (channel16_spec(c.g) / 256) as u8,
        (channel16_spec(c.g) % 256) as u8,
        (channel16_spec(c.b) / 256) as u8,
        (channel16_spec(c.b) % 256) as u8,
    ]
}

/// The six bytes of a pixel after averaging over `n` samples.
pub open spec fn c3_bytes_sampled(c: C3, n: int) -> Seq<u8> {
    c3_bytes(c3_div(c, clip(n * (SCALE as int))))
}

/// The encoded channel fits 16 bits.
proof fn lemma_channel16_bounds(v: int)
    ensures
        0 <= channel16_spec(v) < 65536,
{
    if v > 0 {
        crate::fixed::lemma_sqrt_bounds(v * (SCALE as int));
        assert(v * (SCALE as int) >= 0) by (nonlinear_arith)
            requires
                v > 0,
        ;
    }
}

/// Dividing a channel by the scalar one leaves its encoding unchanged.
proof fn lemma_channel_div_one(a: int)
    requires
        -0x8000_0000_0000_0000 <= a <= crate::fixed::MAX_RAW as int,
    ensures
        channel16_spec(div_spec(a, SCALE as int)) == channel16_spec(a),
{
    if a >= -(crate::fixed::MAX_RAW as int) {
        crate::fixed::lemma_div_by_one(a);
    } else {
        assert((abs_int(a) * (SCALE as int)) / (SCALE as int) == abs_int(a)) by (nonlinear_arith)
            requires
                abs_int(a) >= 0,
        ;
    }
}

/// Encodes one linear channel into its 16-bit value.
fn channel16(v: Fx) -> (c: u16)
    ensures
        c as int == channel16_spec(v@),
{
    proof {
        lemma_channel16_bounds(v@);
    }
    if v.raw <= 0 {
        0u16
    } else {
        let s = v.sqrt();
        let cl: i64 = if s.raw > CLAMP_RAW {
            CLAMP_RAW
        } else {
            s.raw
        };
        (((cl as u64) * 65535) / (SCALE as u64)) as u16
    }
}

impl Color {
    /// Builds a color from its channels.
    pub fn new(r: Fx, g: Fx, b: Fx) -> (c: Color)
        ensures
            c@ == (C3 { r: r@, g: g@, b: b@ }),
    {
        Color { r, g, b }
    }

    /// No light: every channel zero.
    pub fn black() -> (c: Color)
        ensures
            c@ == (C3 { r: 0, g: 0, b: 0 }),
    {
        Color { r: Fx::zero(), g: Fx::zero(), b: Fx::zero() }
    }

    /// Full intensity in every channel; also the attenuation of a
    /// surface that passes light through unchanged.
    pub fn white() -> (c: Color)
        ensures
            c@ == (C3 { r: SCALE as int, g: SCALE as int, b: SCALE as int }),
    {
        Color { r: Fx::one(), g: Fx::one(), b: Fx::one() }
    }

    /// The zenith color of the sky gradient.
    pub fn sky_blue() -> (c: Color)
        ensures
            c@ == (C3 { r: 32768, g: 45875, b: SCALE as int }),
    {
        Color { r: Fx::from_raw(32768), g: Fx::from_raw(45875), b: Fx::from_raw(SCALE) }
    }

    /// Channelwise sum.
    pub fn add(self, other: Color) -> (c: Color)
        ensures
            c@ == c3_add(self@, other@),
    {
        Color { r: self.r.add(other.r), g: self.g.add(other.g), b: self.b.add(other.b) }
    }

    /// Channelwise difference.
    pub fn sub(self, other: Color) -> (c: Color)
        ensures
            c@ == c3_sub(self@, other@),
    {
        Color { r: self.r.sub(other.r), g: self.g.sub(other.g), b: self.b.sub(other.b) }
    }

    /// Channelwise product: attenuates this color by the other.
    pub fn mul(self, other: Color) -> (c: Color)
        ensures
            c@ == c3_mul(self@, other@),
    {
        Color { r: self.r.mul(other.r), g: self.g.mul(other.g), b: self.b.mul(other.b) }
    }

    /// Scales every channel by a scalar.
    pub fn scale(self, s: Fx) -> (c: Color)
        ensures
            c@ == c3_scale(self@, s@),
    {
        Color { r: self.r.mul(s), g: self.g.mul(s), b: self.b.mul(s) }
    }

    /// Divides every channel by a non-zero scalar.
    pub fn div(self, s: Fx) -> (c: Color)
        requires
            s@ != 0,
        ensures
            c@ == c3_div(self@, s@),
    {
        Color { r: self.r.div(s), g: self.g.div(s), b: self.b.div(s) }
    }

    /// Appends the six big-endian channel bytes of this color.
    pub fn write_16(self, out: &mut Vec<u8>)
        ensures
            final(out)@ == old(out)@ + c3_bytes(self@),
    {
        self.write_16_sampled(out, 1);
        proof {
            assert(clip(1 * (SCALE as int)) == SCALE as int);
            lemma_channel_div_one(self@.r);
            lemma_channel_div_one(self@.g);
            lemma_channel_div_one(self@.b);
            assert(c3_bytes_sampled(self@, 1) =~= c3_bytes(self@));
        }
    }

    /// Divides by the sample count and appends the six channel bytes.
    pub fn write_16_sampled(self, out: &mut Vec<u8>, num_samples: u16)
        requires
            num_samples > 0,
        ensures
            final(out)@ == old(out)@ + c3_bytes_sampled(self@, num_samples as int),
    {
        let n = Fx::from_int(num_samples as i64);
        let avg = self.div(n);
        let cr = channel16(avg.r);
        let cg = channel16(avg.g);
        let cb = channel16(avg.b);
        proof {
            lemma_channel16_bounds(avg.r@);
            lemma_channel16_bounds(avg.g@);
            lemma_channel16_bounds(avg.b@);
        }
        out.push((cr / 256) as u8);
        out.push((cr % 256) as u8);
        out.push((cg / 256) as u8);
        out.push((cg % 256) as u8);
        out.push((cb / 256) as u8);
        out.push((cb % 256) as u8);
        proof {
            assert(out@ =~= old(out)@ + c3_bytes_sampled(self@, num_samples as int));
        }
    }
}

} // verus!
