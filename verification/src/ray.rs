//! Rays: an origin and a direction, with point-at-parameter evaluation.

use vstd::prelude::*;

use crate::fixed::Fx;
use crate::vec3::{v3_add, v3_scale, Vec3, V3};

verus! {

/// Mathematical model of a ray.
pub ghost struct RayV {
    pub o: V3,
    pub d: V3,
}

/// A ray, immutable once constructed.
#[derive(Clone, Copy, Debug, PartialEq, Eq, Structural)]
pub struct Ray {
    pub o: Vec3,
    pub d: Vec3,
}

impl View for Ray {
    type V = RayV;

    open spec fn view(&self) -> RayV {
        RayV { o: self.o@, d: self.d@ }
    }
}

/// The point a ray reaches at parameter `t`.
pub open spec fn ray_at_spec(r: RayV, t: int) -> V3 {
    v3_add(r.o, v3_scale(r.d, t))
}

impl Ray {
    /// Builds a ray from origin and direction.
    pub fn new(o: Vec3, d: Vec3) -> (r: Ray)
        ensures
            r@ == (RayV { o: o@, d: d@ }),
    {
        Ray { o, d }
    }

    /// The point this ray reaches at parameter `t`.
    pub fn at(&self, t: Fx) -> (p: Vec3)
        ensures
            p@ == ray_at_spec(self@, t@),
    {
        self.o.add(self.d.mul(t))
    }
}

} // verus!
