//! The material scattering models: diffuse, specular and dielectric.
//!
//! Scattering is a single probabilistic transition: given a hit record
//! and the incoming ray, a material either produces an outgoing ray
//! with an attenuation color, or signals absorption with `None`. The
//! deterministic part of each model is a function of the random draw it
//! consumed, stated exactly; the public `scatter` pins both the result
//! and the number of raw draws taken from the sampler.

use vstd::prelude::*;

use crate::color::{c3_white, Color, C3};
use crate::fixed::{abs_int, add_spec, div_spec, mul_spec, sqrt_spec, sub_spec, Fx, SCALE};
use crate::hittable::{Hit, HitV};
use crate::ray::{Ray, RayV};
use crate::sampler::{
    sphere_draw_spec, unit_draw_spec, unit_fx_spec, xoshiro_stream, Sampler, DRAW_TRIES,
};
use crate::vec3::{
    v3_add, v3_dot, v3_near_zero, v3_neg, v3_reflect, v3_refract, v3_scale, v3_unit, Vec3, V3,
};

verus! {

/// A surface material: one closed set of variants, dispatched by match.
#[derive(Clone, Copy, Debug, PartialEq, Eq, Structural)]
pub enum Material {
    /// Diffuse: always scatters about the normal; carries its albedo.
    Lambertian(Color),
    /// Specular: reflects, perturbed by a fuzz radius in `[0, 1]`.
    Metal(Color, Fx),
    /// Clear: refracts or reflects by Fresnel weighting; carries its
    /// refractive index, which must be positive.
    Dielectric(Fx),
}

impl Material {
    /// The construction-time conditions of each variant.
    pub open spec fn wf(self) -> bool {
        match self {
            Material::Lambertian(_) => true,
            Material::Metal(_, fuzz) => 0 <= fuzz@ <= SCALE as int,
            Material::Dielectric(ir) => ir@ > 0,
        }
    }
}

/// What the diffuse model does with its random unit direction: scatter
/// from the hit point along normal plus draw, falling back to the
/// normal itself when the sum cancels to zero.
pub open spec fn lambertian_spec(albedo: C3, hit: HitV, ru: V3) -> (RayV, C3) {
    let d0 = v3_add(hit.normal, ru);
    let dir = if v3_near_zero(d0) {
        hit.normal
    } else {
        d0
    };
    (RayV { o: hit.point, d: dir }, albedo)
}

/// The perturbed specular direction: the unit incoming direction
/// reflected about the normal, plus the fuzz-scaled random point.
pub open spec fn metal_dir_spec(fuzz: int, hit: HitV, ri: RayV, fv: V3) -> V3 {
    v3_add(v3_reflect(v3_unit(ri.d), hit.normal), v3_scale(fv, fuzz))
}

/// What the specular model does with its random point: scatter along
/// the perturbed reflection, absorbing exactly when that direction does
/// not leave the surface.
pub open spec fn metal_spec(albedo: C3, fuzz: int, hit: HitV, ri: RayV, fv: V3) -> Option<
    (RayV, C3),
> {
    let dir = metal_dir_spec(fuzz, hit, ri, fv);
    if v3_dot(dir, hit.normal) > 0 {
        Some((RayV { o: hit.point, d: dir }, albedo))
    } else {
        None
    }
}

/// The fifth power, multiplied out left to right.
pub open spec fn pow5_spec(x: int) -> int {
    mul_spec(mul_spec(mul_spec(mul_spec(x, x), x), x), x)
}

/// Schlick's approximation of the Fresnel reflectance.
pub open spec fn reflectance_spec(cosine: int, ref_idx: int) -> int {
    let r0t = div_spec(sub_spec(SCALE as int, ref_idx), add_spec(SCALE as int, ref_idx));
    let r0 = mul_spec(r0t, r0t);
    add_spec(r0, mul_spec(sub_spec(SCALE as int, r0), pow5_spec(sub_spec(SCALE as int, cosine))))
}

/// The index ratio a dielectric uses: inverted when the ray comes from
/// outside the surface.
pub open spec fn dielectric_ratio_spec(ir: int, front_face: bool) -> int {
    if front_face {
        div_spec(SCALE as int, ir)
    } else {
        ir
    }
}

/// Cosine of the angle of incidence, capped at one.
pub open spec fn dielectric_cos_spec(hit: HitV, ri: RayV) -> int {
    let ud = v3_unit(ri.d);
    let d = v3_dot(v3_neg(ud), hit.normal);
    if d <= SCALE {
        d
    } else {
        SCALE as int
    }
}

/// Sine of the angle of incidence, from the cosine.
pub open spec fn dielectric_sin_spec(cos: int) -> int {
    sqrt_spec(abs_int(sub_spec(SCALE as int, mul_spec(cos, cos))))
}

/// Total internal reflection: the index ratio times the sine exceeds
/// one, so no refracted direction exists.
pub open spec fn dielectric_tir_spec(ratio: int, sin: int) -> bool {
    mul_spec(ratio, sin) > SCALE as int
}

/// What the dielectric model does with its uniform draw `u`: reflect on
/// total internal reflection or when the Fresnel reflectance exceeds
/// the draw, refract otherwise; a clear surface passes light through
/// unattenuated, so the attenuation is white.
pub open spec fn dielectric_spec(ir: int, hit: HitV, ri: RayV, u: int) -> (RayV, C3) {
    let ratio = dielectric_ratio_spec(ir, hit.front_face);
    let ud = v3_unit(ri.d);
    let cos = dielectric_cos_spec(hit, ri);
    let sin = dielectric_sin_spec(cos);
    if dielectric_tir_spec(ratio, sin) || reflectance_spec(cos, ratio) > u {
        (RayV { o: hit.point, d: v3_reflect(ud, hit.normal) }, c3_white())
    } else {
        (RayV { o: hit.point, d: v3_refract(ud, hit.normal, ratio) }, c3_white())
    }
}

/// The view of an optional scatter result.
pub open spec fn opt_scatter_view(o: Option<(Ray, Color)>) -> Option<(RayV, C3)> {
    match o {
        Some((r, c)) => Some((r@, c@)),
        None => None,
    }
}

/// What `Material::scatter` returns and how many raw draws it takes:
/// the diffuse model consumes a unit-direction draw, the specular model
/// a unit-sphere draw, the dielectric one uniform draw.
pub open spec fn scatter_spec(m: Material, hit: HitV, ri: RayV, seed: u64, index: int) -> (
    Option<(RayV, C3)>,
    int,
) {
    match m {
        Material::Lambertian(a) => {
            let (ru, k2) = unit_draw_spec(seed, index, DRAW_TRIES as nat);
            (Some(lambertian_spec(a@, hit, ru)), k2)
        },
        Material::Metal(a, f) => {
            let (fv, k2) = sphere_draw_spec(seed, index, DRAW_TRIES as nat);
            (metal_spec(a@, f@, hit, ri, fv), k2)
        },
        Material::Dielectric(ir) => {
            let u = unit_fx_spec(xoshiro_stream(seed, index));
            (Some(dielectric_spec(ir@, hit, ri, u)), index + 1)
        },
    }
}

/// The deterministic part of the diffuse model, taking the random unit
/// direction as an argument; it always scatters.
pub fn scatter_lambertian_with(albedo: Color, hit: &Hit, ru: Vec3) -> (res: (Ray, Color))
    ensures
        res.0@ == lambertian_spec(albedo@, hit@, ru@).0,
        res.1@ == lambertian_spec(albedo@, hit@, ru@).1,
{
    let mut scatter_direction = hit.normal.add(ru);
    if scatter_direction.near_zero() {
        scatter_direction = hit.normal;
    }
    (Ray::new(hit.point, scatter_direction), albedo)
}

/// The deterministic part of the specular model, taking the random
/// fuzz point as an argument; it absorbs exactly when the perturbed
/// reflected direction's dot product with the normal is not positive.
pub fn scatter_metal_with(albedo: Color, fuzz: Fx, hit: &Hit, ri: &Ray, fv: Vec3) -> (res:
    Option<(Ray, Color)>)
    ensures
        opt_scatter_view(res) == metal_spec(albedo@, fuzz@, hit@, ri@, fv@),
        res is Some <==> v3_dot(metal_dir_spec(fuzz@, hit@, ri@, fv@), hit@.normal) > 0,
{
    let reflected = ri.d.unit_vec().reflect(&hit.normal);
    let dir = reflected.add(fv.mul(fuzz));
    let scattered = Ray::new(hit.point, dir);
    if Fx::zero().lt(scattered.d.dot(&hit.normal)) {
        Some((scattered, albedo))
    } else {
        None
    }
}

/// Schlick's reflectance approximation.
pub fn reflectance(cosine: Fx, ref_idx: Fx) -> (r: Fx)
    requires
        ref_idx@ >= 0,
    ensures
        r@ == reflectance_spec(cosine@, ref_idx@),
{
    let one = Fx::one();
    let r0_temp = one.sub(ref_idx).div(one.add(ref_idx));
    let r0 = r0_temp.mul(r0_temp);
    let x = one.sub(cosine);
    let x5 = x.mul(x).mul(x).mul(x).mul(x);
    r0.add(one.sub(r0).mul(x5))
}

/// The deterministic part of the dielectric model, taking the uniform
/// reflectance draw as an argument; it always scatters.
pub fn scatter_dielectric_with(ir: Fx, hit: &Hit, ri: &Ray, u: Fx) -> (res: (Ray, Color))
    requires
        ir@ > 0,
    ensures
        res.0@ == dielectric_spec(ir@, hit@, ri@, u@).0,
        res.1@ == dielectric_spec(ir@, hit@, ri@, u@).1,
{
    let one = Fx::one();
    let refraction_ratio = if hit.front_face {
        one.div(ir)
    } else {
        ir
    };
    let unit_direction = ri.d.unit_vec();
    let cos_theta = unit_direction.neg().dot(&hit.normal).min(one);
    let sin_theta = one.sub(cos_theta.mul(cos_theta)).abs().sqrt();
    let white = Color::white();
    if one.lt(refraction_ratio.mul(sin_theta)) || u.lt(reflectance(cos_theta, refraction_ratio)) {
        (Ray::new(hit.point, unit_direction.reflect(&hit.normal)), white)
    } else {
        (Ray::new(hit.point, unit_direction.refract(&hit.normal, refraction_ratio)), white)
    }
}

impl Material {
    /// One scattering transition: draws what the variant needs from the
    /// sampler and hands it to the deterministic model.
    pub fn scatter(&self, hit: &Hit, ri: &Ray, sp: &mut Sampler) -> (res: Option<(Ray, Color)>)
        requires
            self.wf(),
        ensures
            opt_scatter_view(res) == scatter_spec(
                *self,
                hit@,
                ri@,
                old(sp).seed(),
                old(sp).index(),
            ).0,
            final(sp).index() == scatter_spec(
                *self,
                hit@,
                ri@,
                old(sp).seed(),
                old(sp).index(),
            ).1,
            final(sp).seed() == old(sp).seed(),
            res matches Some((r, c)) ==> c@ == scatter_attenuation_spec(*self),
    {
        match self {
            Material::Lambertian(albedo) => {
                let ru = Vec3::random_unit_vec(sp);
                Some(scatter_lambertian_with(*albedo, hit, ru))
            },
            Material::Metal(albedo, fuzz) => {
                let fv = Vec3::random_in_unit_sphere(sp);
                scatter_metal_with(*albedo, *fuzz, hit, ri, fv)
            },
            Material::Dielectric(ir) => {
                let u = sp.next_unit();
                Some(scatter_dielectric_with(*ir, hit, ri, u))
            },
        }
    }
}

/// A diffuse surface never absorbs: whatever the sampler draws, its
/// scatter is present.
pub proof fn lemma_lambertian_never_absorbs(
    albedo: Color,
    hit: HitV,
    ri: RayV,
    seed: u64,
    index: int,
)
    ensures
        scatter_spec(Material::Lambertian(albedo), hit, ri, seed, index).0 is Some,
{
}

/// A specular surface absorbs exactly when the perturbed reflected
/// direction's dot product with the normal is not positive.
pub proof fn lemma_metal_absorbs_iff(albedo: C3, fuzz: int, hit: HitV, ri: RayV, fv: V3)
    ensures
        metal_spec(albedo, fuzz, hit, ri, fv) is Some <==> v3_dot(
            metal_dir_spec(fuzz, hit, ri, fv),
            hit.normal,
        ) > 0,
{
}

/// At normal incidence the cosine is one, the sine is zero, and total
/// internal reflection never triggers, whatever the index ratio.
pub proof fn lemma_no_tir_at_normal_incidence(ratio: int)
    ensures
        !dielectric_tir_spec(ratio, dielectric_sin_spec(SCALE as int)),
{
    assert(mul_spec(SCALE as int, SCALE as int) == SCALE as int);
    assert(abs_int(sub_spec(SCALE as int, SCALE as int)) == 0);
    crate::fixed::lemma_sqrt_bounds(0);
    let z = crate::fixed::sqrt_nat(0);
    assert(z == 0) by (nonlinear_arith)
        requires
            0 <= z,
            z * z <= 0,
    ;
    assert(dielectric_sin_spec(SCALE as int) == 0);
    assert(mul_spec(ratio, 0) == 0);
}

/// The attenuation each variant reports on a successful scatter.
pub open spec fn scatter_attenuation_spec(m: Material) -> C3 {
    match m {
        Material::Lambertian(a) => a@,
        Material::Metal(a, _) => a@,
        Material::Dielectric(_) => c3_white(),
    }
}

} // verus!
