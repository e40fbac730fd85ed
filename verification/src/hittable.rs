//! Spheres, hit records, and the scene composite.
//!
//! A sphere intersection solves the quadratic `|ray(t) - center|^2 =
//! radius^2` over the fixed-point scalar and reports the nearer root
//! inside the open interval `(tmin, tmax)`, falling back to the farther
//! root so that a hollow or negative-radius shell can be hit from
//! inside. The composite queries every sphere in order while shrinking
//! the interval to the best hit found so far, so only the closest
//! surface is reported.

use vstd::prelude::*;

use crate::fixed::{add_spec, clip, div_spec, mul_spec, neg_spec, scale_down, sqrt_spec, sub_spec, Fx};
use crate::material::Material;
use crate::ray::{ray_at_spec, Ray, RayV};
use crate::vec3::{v3_div, v3_dot, v3_neg, v3_sub, Vec3, V3};

verus! {

/// Mathematical model of a hit record.
pub ghost struct HitV {
    pub point: V3,
    pub normal: V3,
    pub t: int,
    pub front_face: bool,
    pub mat: Material,
}

/// What a ray reports when it strikes a surface: the point, the normal
/// re-oriented against the incoming ray, the parameter, which side was
/// struck, and the material of the surface.
#[derive(Clone, Copy, Debug, PartialEq, Eq, Structural)]
pub struct Hit {
    pub point: Vec3,
    pub normal: Vec3,
    pub t: Fx,
    pub front_face: bool,
    pub mat: Material,
}

impl View for Hit {
    type V = HitV;

    open spec fn view(&self) -> HitV {
        HitV {
            point: self.point@,
            normal: self.normal@,
            t: self.t@,
            front_face: self.front_face,
            mat: self.mat,
        }
    }
}

impl Hit {
    /// Builds a hit record from its parts.
    pub fn new(point: Vec3, normal: Vec3, t: Fx, front_face: bool, mat: Material) -> (h: Hit)
        ensures
            h@ == (HitV { point: point@, normal: normal@, t: t@, front_face, mat }),
    {
        Hit { point, normal, t, front_face, mat }
    }
}

/// Mathematical model of a sphere.
pub ghost struct SphereV {
    pub center: V3,
    pub radius: int,
    pub mat: Material,
}

/// A sphere with its material; immutable after construction. A
/// negative radius is allowed — it models a hollow shell whose normals
/// point inward — but a zero radius is not.
#[derive(Clone, Copy, Debug)]
pub struct Sphere {
    center: Vec3,
    radius: Fx,
    mat: Material,
}

impl View for Sphere {
    type V = SphereV;

    closed spec fn view(&self) -> SphereV {
        SphereV { center: self.center@, radius: self.radius@, mat: self.mat }
    }
}

/// The view of an optional hit.
pub open spec fn opt_hit_view(o: Option<Hit>) -> Option<HitV> {
    match o {
        Some(h) => Some(h@),
        None => None,
    }
}

/// The quadratic discriminant of a ray against a sphere, as the
/// fixed-point evaluation computes it.
pub open spec fn discriminant_spec(s: SphereV, r: RayV) -> int {
    let oc = v3_sub(r.o, s.center);
    let a = v3_dot(r.d, r.d);
    let half_b = v3_dot(oc, r.d);
    let c = sub_spec(v3_dot(oc, oc), mul_spec(s.radius, s.radius));
    sub_spec(mul_spec(half_b, half_b), mul_spec(a, c))
}

/// The hit record a sphere reports at parameter `root`.
pub open spec fn hit_at_spec(s: SphereV, r: RayV, root: int) -> HitV {
    let point = ray_at_spec(r, root);
    let outward = v3_div(v3_sub(point, s.center), s.radius);
    let front_face = v3_dot(r.d, outward) < 0;
    HitV {
        point,
        normal: if front_face {
            outward
        } else {
            v3_neg(outward)
        },
        t: root,
        front_face,
        mat: s.mat,
    }
}

/// What intersecting one sphere returns: no hit when the discriminant
/// is negative or the direction rounds to zero; otherwise the nearer
/// root of the quadratic if it lies in the open interval, else the
/// farther root under the same test, else no hit.
pub open spec fn sphere_intersect_spec(s: SphereV, r: RayV, tmin: int, tmax: int) -> Option<
    HitV,
> {
    let oc = v3_sub(r.o, s.center);
    let a = v3_dot(r.d, r.d);
    let half_b = v3_dot(oc, r.d);
    let disc = discriminant_spec(s, r);
    if disc < 0 || a == 0 {
        None
    } else {
        let sqrtd = sqrt_spec(disc);
        let root1 = div_spec(sub_spec(neg_spec(half_b), sqrtd), a);
        if tmin < root1 && root1 < tmax {
            Some(hit_at_spec(s, r, root1))
        } else {
            let root2 = div_spec(add_spec(neg_spec(half_b), sqrtd), a);
            if tmin < root2 && root2 < tmax {
                Some(hit_at_spec(s, r, root2))
            } else {
                None
            }
        }
    }
}

impl Sphere {
    #[verifier::type_invariant]
    /// A sphere's radius is never zero and its material is well formed.
    pub closed spec fn inv(self) -> bool {
        self.radius@ != 0 && self.mat.wf()
    }

    /// Builds a sphere; the radius must not be zero and the material
    /// must be well formed.
    pub fn new(center: Vec3, radius: Fx, mat: Material) -> (s: Sphere)
        requires
            radius@ != 0,
            mat.wf(),
        ensures
            s@ == (SphereV { center: center@, radius: radius@, mat }),
    {
        Sphere { center, radius, mat }
    }

    /// Intersects a ray against this sphere over the open interval
    /// `(tmin, tmax)`.
    pub fn intersect(&self, r: &Ray, tmin: Fx, tmax: Fx) -> (res: Option<Hit>)
        ensures
            opt_hit_view(res) == sphere_intersect_spec(self@, r@, tmin@, tmax@),
            res matches Some(h) ==> h.mat.wf(),
    {
        proof {
            use_type_invariant(self);
        }
        let oc = r.o.sub(self.center);
        let a = r.d.dot(&r.d);
        let half_b = oc.dot(&r.d);
        let c = oc.dot(&oc).sub(self.radius.mul(self.radius));
        let disc = half_b.mul(half_b).sub(a.mul(c));
        if disc.lt(Fx::zero()) || a.raw() == 0 {
            None
        } else {
            proof {
                crate::vec3::lemma_dot_self_nonneg(r.d@);
            }
            let sqrtd = disc.sqrt();
            let root1 = half_b.neg().sub(sqrtd).div(a);
            if tmin.lt(root1) && root1.lt(tmax) {
                Some(self.hit_at(r, root1))
            } else {
                let root2 = half_b.neg().add(sqrtd).div(a);
                if tmin.lt(root2) && root2.lt(tmax) {
                    Some(self.hit_at(r, root2))
                } else {
                    None
                }
            }
        }
    }

    /// Builds the hit record for a found root.
    fn hit_at(&self, r: &Ray, root: Fx) -> (h: Hit)
        ensures
            h@ == hit_at_spec(self@, r@, root@),
            h.mat.wf(),
    {
        proof {
            use_type_invariant(self);
        }
        let point = r.at(root);
        let outward = point.sub(self.center).div(self.radius);
        let front_face = r.d.dot(&outward).lt(Fx::zero());
        let normal = if front_face {
            outward
        } else {
            outward.neg()
        };
        Hit { point, normal, t: root, front_face, mat: self.mat }
    }
}

/// The composite's answer for the spheres from position `i` on, with
/// the best hit found so far in `acc`: each sphere is queried with the
/// interval shrunk to the current best parameter.
pub open spec fn list_intersect_from(
    l: Seq<SphereV>,
    i: int,
    r: RayV,
    tmin: int,
    tmax: int,
    acc: Option<HitV>,
) -> Option<HitV>
    decreases l.len() - i,
{
    if i < 0 || i >= l.len() {
        acc
    } else {
        let bound = match acc {
            Some(h) => h.t,
            None => tmax,
        };
        match sphere_intersect_spec(l[i], r, tmin, bound) {
            Some(h) => list_intersect_from(l, i + 1, r, tmin, tmax, Some(h)),
            None => list_intersect_from(l, i + 1, r, tmin, tmax, acc),
        }
    }
}

/// What intersecting the whole collection returns: the closest hit
/// along the ray within the open interval, found left to right with a
/// shrinking upper bound.
pub open spec fn list_intersect_spec(l: Seq<SphereV>, r: RayV, tmin: int, tmax: int) -> Option<
    HitV,
> {
    list_intersect_from(l, 0, r, tmin, tmax, None)
}

/// A negative discriminant yields no hit, whatever the interval.
pub proof fn lemma_negative_discriminant_misses(s: SphereV, r: RayV, tmin: int, tmax: int)
    requires
        discriminant_spec(s, r) < 0,
    ensures
        sphere_intersect_spec(s, r, tmin, tmax) is None,
{
}

/// A ray whose origin lies exactly on the sphere — the constant term of
/// the quadratic vanishes — and whose direction points outward returns
/// no hit over any interval of positive parameters: both roots are at
/// or behind the origin.
pub proof fn lemma_on_sphere_pointing_outward_misses(s: SphereV, r: RayV, tmin: int, tmax: int)
    requires
        sub_spec(
            v3_dot(v3_sub(r.o, s.center), v3_sub(r.o, s.center)),
            mul_spec(s.radius, s.radius),
        ) == 0,
        v3_dot(v3_sub(r.o, s.center), r.d) > 0,
        tmin >= 0,
    ensures
        sphere_intersect_spec(s, r, tmin, tmax) is None,
{
    let oc = v3_sub(r.o, s.center);
    let a = v3_dot(r.d, r.d);
    let hb = v3_dot(oc, r.d);
    crate::vec3::lemma_dot_self_nonneg(r.d);
    assert(mul_spec(a, 0) == 0);
    let bb = mul_spec(hb, hb);
    assert(hb * hb >= 0) by (nonlinear_arith)
        requires
            hb > 0,
    ;
    let disc = discriminant_spec(s, r);
    assert(disc == clip(scale_down(hb * hb)));
    assert(disc >= 0);
    if a != 0 {
        crate::fixed::lemma_sqrt_bounds(disc * (crate::fixed::SCALE as int));
        let sqrtd = sqrt_spec(disc);
        // The square root of the rounded square of `hb` is at most `hb`.
        assert(((hb * hb) / (crate::fixed::SCALE as int)) * (crate::fixed::SCALE as int) <= hb
            * hb) by (nonlinear_arith)
            requires
                hb * hb >= 0,
        ;
        assert(disc * (crate::fixed::SCALE as int) <= hb * hb);
        crate::fixed::lemma_sqrt_le(disc * (crate::fixed::SCALE as int), hb);
        assert(sqrtd <= hb);
        assert(sqrtd >= 0);
        let num1 = sub_spec(neg_spec(hb), sqrtd);
        assert(num1 <= 0);
        let root1 = div_spec(num1, a);
        crate::fixed::lemma_div_spec_nonpos(num1, a);
        assert(!(tmin < root1 && root1 < tmax));
        let num2 = add_spec(neg_spec(hb), sqrtd);
        assert(num2 <= 0);
        let root2 = div_spec(num2, a);
        crate::fixed::lemma_div_spec_nonpos(num2, a);
        assert(!(tmin < root2 && root2 < tmax));
    }
}

/// The farther root never precedes the nearer one.
proof fn lemma_roots_ordered(s: SphereV, r: RayV)
    requires
        v3_dot(r.d, r.d) > 0,
        discriminant_spec(s, r) >= 0,
    ensures
        div_spec(
            sub_spec(neg_spec(v3_dot(v3_sub(r.o, s.center), r.d)), sqrt_spec(discriminant_spec(s, r))),
            v3_dot(r.d, r.d),
        ) <= div_spec(
            add_spec(neg_spec(v3_dot(v3_sub(r.o, s.center), r.d)), sqrt_spec(discriminant_spec(s, r))),
            v3_dot(r.d, r.d),
        ),
{
    let hb = v3_dot(v3_sub(r.o, s.center), r.d);
    let disc = discriminant_spec(s, r);
    crate::fixed::lemma_sqrt_bounds(disc * (crate::fixed::SCALE as int));
    assert(disc * (crate::fixed::SCALE as int) >= 0) by (nonlinear_arith)
        requires
            disc >= 0,
    ;
    let sqrtd = sqrt_spec(disc);
    crate::fixed::lemma_div_spec_monotone(
        sub_spec(neg_spec(hb), sqrtd),
        add_spec(neg_spec(hb), sqrtd),
        v3_dot(r.d, r.d),
    );
}

/// Shrinking the upper bound below the found parameter loses the hit;
/// keeping it above keeps the same hit.
#[verifier::rlimit(100)]
proof fn lemma_sphere_intersect_tighter(s: SphereV, r: RayV, tmin: int, tmax: int, tmax2: int)
    requires
        tmax2 <= tmax,
        sphere_intersect_spec(s, r, tmin, tmax) is Some,
    ensures
        sphere_intersect_spec(s, r, tmin, tmax) matches Some(h) ==> {
            &&& h.t < tmax2 ==> sphere_intersect_spec(s, r, tmin, tmax2) == Some(h)
            &&& tmax2 <= h.t ==> sphere_intersect_spec(s, r, tmin, tmax2) is None
        },
{
    let a = v3_dot(r.d, r.d);
    crate::vec3::lemma_dot_self_nonneg(r.d);
    if a != 0 {
        lemma_roots_ordered(s, r);
    }
}

/// With two spheres that each report a hit over the full interval at
/// different parameters, the composite reports the hit with the
/// strictly smaller parameter.
#[verifier::rlimit(100)]
pub proof fn lemma_composite_returns_closer_hit(
    s1: SphereV,
    s2: SphereV,
    r: RayV,
    tmin: int,
    tmax: int,
    h1: HitV,
    h2: HitV,
)
    requires
        sphere_intersect_spec(s1, r, tmin, tmax) == Some(h1),
        sphere_intersect_spec(s2, r, tmin, tmax) == Some(h2),
        h1.t != h2.t,
    ensures
        list_intersect_spec(seq![s1, s2], r, tmin, tmax) == Some(
            if h1.t < h2.t {
                h1
            } else {
                h2
            },
        ),
{
    let l = seq![s1, s2];
    assert(l[0] == s1 && l[1] == s2);
    // Both hits lie inside the open interval.
    assert(tmin < h1.t < tmax);
    assert(tmin < h2.t < tmax);
    lemma_sphere_intersect_tighter(s2, r, tmin, tmax, h1.t);
    assert(list_intersect_spec(l, r, tmin, tmax) == list_intersect_from(
        l,
        1,
        r,
        tmin,
        tmax,
        Some(h1),
    ));
    if h2.t < h1.t {
        assert(sphere_intersect_spec(s2, r, tmin, h1.t) == Some(h2));
        assert(list_intersect_from(l, 1, r, tmin, tmax, Some(h1)) == list_intersect_from(
            l,
            2,
            r,
            tmin,
            tmax,
            Some(h2),
        ));
        assert(list_intersect_from(l, 2, r, tmin, tmax, Some(h2)) == Some(h2));
    } else {
        assert(sphere_intersect_spec(s2, r, tmin, h1.t) is None);
        assert(list_intersect_from(l, 1, r, tmin, tmax, Some(h1)) == list_intersect_from(
            l,
            2,
            r,
            tmin,
            tmax,
            Some(h1),
        ));
        assert(list_intersect_from(l, 2, r, tmin, tmax, Some(h1)) == Some(h1));
    }
}

/// An ordered collection of spheres, itself intersectable.
#[derive(Debug)]
pub struct Hittables {
    list: Vec<Sphere>,
}

impl View for Hittables {
    type V = Seq<SphereV>;

    closed spec fn view(&self) -> Seq<SphereV> {
        self.list@.map_values(|s: Sphere| s@)
    }
}

impl Hittables {
    /// An empty scene.
    pub fn new() -> (h: Hittables)
        ensures
            h@ == Seq::<SphereV>::empty(),
    {
        let h = Hittables { list: Vec::new() };
        proof {
            assert(h@ =~= Seq::<SphereV>::empty());
        }
        h
    }

    /// Appends a sphere to the scene.
    pub fn add(&mut self, shape: Sphere)
        ensures
            final(self)@ == old(self)@.push(shape@),
    {
        self.list.push(shape);
        proof {
            assert(self@ =~= old(self)@.push(shape@));
        }
    }

    /// How many spheres the scene holds.
    pub fn len(&self) -> (n: usize)
        ensures
            n == self@.len(),
    {
        self.list.len()
    }

    /// Intersects a ray against every sphere and reports only the
    /// closest hit within the open interval `(tmin, tmax)`.
    pub fn intersect(&self, r: &Ray, tmin: Fx, tmax: Fx) -> (res: Option<Hit>)
        ensures
            opt_hit_view(res) == list_intersect_spec(self@, r@, tmin@, tmax@),
            res matches Some(h) ==> h.mat.wf(),
    {
        let mut result: Option<Hit> = None;
        let mut i: usize = 0;
        while i < self.list.len()
            invariant
                0 <= i <= self.list.len(),
                list_intersect_from(self@, i as int, r@, tmin@, tmax@, opt_hit_view(result))
                    == list_intersect_spec(self@, r@, tmin@, tmax@),
                result matches Some(h) ==> h.mat.wf(),
            decreases self.list.len() - i,
        {
            let bound = match &result {
                Some(h) => h.t,
                None => tmax,
            };
            let cur = self.list[i].intersect(r, tmin, bound);
            proof {
                assert(self@[i as int] == self.list@[i as int]@);
            }
            if let Some(h) = cur {
                result = Some(h);
            }
            i = i + 1;
        }
        result
    }
}

} // verus!
