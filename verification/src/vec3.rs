//! Three-component vectors over the fixed-point scalar.
//!
//! The same triple serves as a spatial point or direction; each operation
//! mirrors a scalar-level specification exactly, so vector contracts stay
//! exact all the way up to the renderer.

use vstd::prelude::*;

use crate::fixed::{
    abs_int, add_spec, clip, div_spec, mul_spec, neg_spec, sqrt_spec, sub_spec, Fx, SCALE,
};

verus! {

/// Mathematical model of a vector: the three raw scaled components.
pub ghost struct V3 {
    pub x: int,
    pub y: int,
    pub z: int,
}

/// A vector of three fixed-point components.
#[derive(Clone, Copy, Debug, PartialEq, Eq, Structural)]
pub struct Vec3 {
    pub x: Fx,
    pub y: Fx,
    pub z: Fx,
}

impl View for Vec3 {
    type V = V3;

    open spec fn view(&self) -> V3 {
        V3 { x: self.x@, y: self.y@, z: self.z@ }
    }
}

/// The zero vector model.
pub open spec fn v3_zero() -> V3 {
    V3 { x: 0, y: 0, z: 0 }
}

/// Componentwise sum.
pub open spec fn v3_add(a: V3, b: V3) -> V3 {
    V3 { x: add_spec(a.x, b.x), y: add_spec(a.y, b.y), z: add_spec(a.z, b.z) }
}

/// Componentwise difference.
pub open spec fn v3_sub(a: V3, b: V3) -> V3 {
    V3 { x: sub_spec(a.x, b.x), y: sub_spec(a.y, b.y), z: sub_spec(a.z, b.z) }
}

/// Componentwise negation.
pub open spec fn v3_neg(a: V3) -> V3 {
    V3 { x: neg_spec(a.x), y: neg_spec(a.y), z: neg_spec(a.z) }
}

/// Scaling by a scalar.
pub open spec fn v3_scale(a: V3, s: int) -> V3 {
    V3 { x: mul_spec(a.x, s), y: mul_spec(a.y, s), z: mul_spec(a.z, s) }
}

/// Division by a non-zero scalar.
pub open spec fn v3_div(a: V3, s: int) -> V3 {
    V3 { x: div_spec(a.x, s), y: div_spec(a.y, s), z: div_spec(a.z, s) }
}

/// Dot product, summed left to right as the executable code does.
pub open spec fn v3_dot(a: V3, b: V3) -> int {
    add_spec(add_spec(mul_spec(a.x, b.x), mul_spec(a.y, b.y)), mul_spec(a.z, b.z))
}

/// Cross product.
pub open spec fn v3_cross(a: V3, b: V3) -> V3 {
    V3 {
        x: sub_spec(mul_spec(a.y, b.z), mul_spec(a.z, b.y)),
        y: sub_spec(mul_spec(a.z, b.x), mul_spec(a.x, b.z)),
        z: sub_spec(mul_spec(a.x, b.y), mul_spec(a.y, b.x)),
    }
}

/// Magnitude: the scalar square root of the self dot product.
pub open spec fn v3_length(a: V3) -> int {
    sqrt_spec(v3_dot(a, a))
}

/// Normalization; a vector whose magnitude rounds to zero maps to the
/// zero vector, so the operation is total.
pub open spec fn v3_unit(a: V3) -> V3 {
    if v3_length(a) == 0 {
        v3_zero()
    } else {
        v3_div(a, v3_length(a))
    }
}

/// True when every component is below one raw unit in magnitude, which
/// in this representation means the vector is exactly zero.
pub open spec fn v3_near_zero(a: V3) -> bool {
    a.x == 0 && a.y == 0 && a.z == 0
}

/// Reflection of `v` about the normal `n`.
pub open spec fn v3_reflect(v: V3, n: V3) -> V3 {
    v3_sub(v, v3_scale(n, mul_spec(2 * SCALE, v3_dot(v, n))))
}

/// Refraction of the unit direction `v` at a surface with normal `n` and
/// index ratio `ratio`, by Snell's law split into the perpendicular and
/// parallel parts.
pub open spec fn v3_refract(v: V3, n: V3, ratio: int) -> V3 {
    let cos_theta = if v3_dot(v3_neg(v), n) <= SCALE {
        v3_dot(v3_neg(v), n)
    } else {
        SCALE as int
    };
    let perp = v3_scale(v3_add(v, v3_scale(n, cos_theta)), ratio);
    let par_len = sqrt_spec(abs_int(sub_spec(SCALE as int, v3_dot(perp, perp))));
    v3_add(perp, v3_scale(n, neg_spec(par_len)))
}

/// A square is never negative, so neither is a scaled-down, clipped one.
proof fn lemma_sq_nonneg(v: int)
    ensures
        mul_spec(v, v) >= 0,
{
    assert(v * v >= 0) by (nonlinear_arith);
}

/// The self dot product is never negative.
pub proof fn lemma_dot_self_nonneg(a: V3)
    ensures
        v3_dot(a, a) >= 0,
{
    lemma_sq_nonneg(a.x);
    lemma_sq_nonneg(a.y);
    lemma_sq_nonneg(a.z);
}

impl Vec3 {
    /// Builds a vector from its components.
    pub fn new(x: Fx, y: Fx, z: Fx) -> (r: Vec3)
        ensures
            r@ == (V3 { x: x@, y: y@, z: z@ }),
    {
        Vec3 { x, y, z }
    }

    /// The zero vector.
    pub fn zero() -> (r: Vec3)
        ensures
            r@ == v3_zero(),
    {
        Vec3 { x: Fx::zero(), y: Fx::zero(), z: Fx::zero() }
    }

    /// Componentwise sum.
    pub fn add(self, other: Vec3) -> (r: Vec3)
        ensures
            r@ == v3_add(self@, other@),
    {
        Vec3 { x: self.x.add(other.x), y: self.y.add(other.y), z: self.z.add(other.z) }
    }

    /// Componentwise difference.
    pub fn sub(self, other: Vec3) -> (r: Vec3)
        ensures
            r@ == v3_sub(self@, other@),
    {
        Vec3 { x: self.x.sub(other.x), y: self.y.sub(other.y), z: self.z.sub(other.z) }
    }

    /// Componentwise negation.
    pub fn neg(self) -> (r: Vec3)
        ensures
            r@ == v3_neg(self@),
    {
        Vec3 { x: self.x.neg(), y: self.y.neg(), z: self.z.neg() }
    }

    /// Scaling by a scalar.
    pub fn mul(self, s: Fx) -> (r: Vec3)
        ensures
            r@ == v3_scale(self@, s@),
    {
        Vec3 { x: self.x.mul(s), y: self.y.mul(s), z: self.z.mul(s) }
    }

    /// Division by a non-zero scalar.
    pub fn div(self, s: Fx) -> (r: Vec3)
        requires
            s@ != 0,
        ensures
            r@ == v3_div(self@, s@),
    {
        Vec3 { x: self.x.div(s), y: self.y.div(s), z: self.z.div(s) }
    }

    /// Dot product.
    pub fn dot(&self, other: &Vec3) -> (r: Fx)
        ensures
            r@ == v3_dot(self@, other@),
    {
        self.x.mul(other.x).add(self.y.mul(other.y)).add(self.z.mul(other.z))
    }

    /// Cross product.
    pub fn cross(&self, other: &Vec3) -> (r: Vec3)
        ensures
            r@ == v3_cross(self@, other@),
    {
        Vec3 {
            x: self.y.mul(other.z).sub(self.z.mul(other.y)),
            y: self.z.mul(other.x).sub(self.x.mul(other.z)),
            z: self.x.mul(other.y).sub(self.y.mul(other.x)),
        }
    }

    /// Magnitude.
    pub fn length(&self) -> (r: Fx)
        ensures
            r@ == v3_length(self@),
            r@ >= 0,
    {
        proof {
            lemma_dot_self_nonneg(self@);
        }
        self.dot(self).sqrt()
    }

    /// The vector scaled to unit magnitude, as closely as the
    /// representation allows; a vector whose magnitude rounds to zero
    /// yields the zero vector.
    pub fn unit_vec(&self) -> (r: Vec3)
        ensures
            r@ == v3_unit(self@),
    {
        let l = self.length();
        if l.raw == 0 {
            Vec3::zero()
        } else {
            self.div(l)
        }
    }

    /// True when the vector is exactly zero, the closest this
    /// representation comes to an all-components-tiny test.
    pub fn near_zero(&self) -> (r: bool)
        ensures
            r == v3_near_zero(self@),
    {
        self.x.raw == 0 && self.y.raw == 0 && self.z.raw == 0
    }

    /// Reflection about the normal `n`.
    pub fn reflect(&self, n: &Vec3) -> (r: Vec3)
        ensures
            r@ == v3_reflect(self@, n@),
    {
        let two = Fx::from_raw(2 * SCALE);
        self.sub(n.mul(two.mul(self.dot(n))))
    }

    /// Refraction at a surface with normal `n` and index ratio `ratio`.
    pub fn refract(&self, n: &Vec3, ratio: Fx) -> (r: Vec3)
        ensures
            r@ == v3_refract(self@, n@, ratio@),
    {
        let one = Fx::one();
        let cos_theta = self.neg().dot(n).min(one);
        let perp = self.add(n.mul(cos_theta)).mul(ratio);
        let par_len = one.sub(perp.dot(&perp)).abs().sqrt();
        perp.add(n.mul(par_len.neg()))
    }
}

} // verus!
