//! The camera: immutable configuration computed once from the view
//! parameters, producing one ray per normalized image-plane coordinate,
//! with lens-aperture jitter for depth of field.
//!
//! The vertical field of view enters as the tangent of its half angle,
//! which the caller computes when it chooses the angle; everything from
//! there on is fixed-point arithmetic with exact contracts.

use vstd::prelude::*;

use crate::fixed::{add_spec, div_spec, mul_spec, Fx, SCALE};
use crate::ray::{Ray, RayV};
use crate::sampler::{disk_draw_spec, Sampler, DRAW_TRIES};
use crate::vec3::{v3_add, v3_cross, v3_div, v3_scale, v3_sub, v3_unit, Vec3, V3};

verus! {

/// Mathematical model of a camera: its derived fields.
pub ghost struct CameraV {
    pub origin: V3,
    pub lower_left: V3,
    pub horizontal: V3,
    pub vertical: V3,
    pub u: V3,
    pub v: V3,
    pub lens_radius: int,
}

/// A camera; immutable once constructed.
#[derive(Clone, Copy, Debug)]
pub struct SimpleCamera {
    origin: Vec3,
    lower_left: Vec3,
    horizontal: Vec3,
    vertical: Vec3,
    u: Vec3,
    v: Vec3,
    lens_radius: Fx,
}

impl View for SimpleCamera {
    type V = CameraV;

    closed spec fn view(&self) -> CameraV {
        CameraV {
            origin: self.origin@,
            lower_left: self.lower_left@,
            horizontal: self.horizontal@,
            vertical: self.vertical@,
            u: self.u@,
            v: self.v@,
            lens_radius: self.lens_radius@,
        }
    }
}

/// The derived fields computed from the view parameters: an orthogonal
/// basis from the look direction and the up vector, viewport extents
/// from the field of view and aspect ratio scaled to the focus plane,
/// and the lens radius as half the aperture.
pub open spec fn camera_setup_spec(
    lookfrom: V3,
    lookat: V3,
    vup: V3,
    tan_half_fov: int,
    aspect_ratio: int,
    aperture: int,
    focus_dist: int,
) -> CameraV {
    let viewport_height = mul_spec(2 * SCALE, tan_half_fov);
    let viewport_width = mul_spec(aspect_ratio, viewport_height);
    let w = v3_unit(v3_sub(lookfrom, lookat));
    let u = v3_unit(v3_cross(vup, w));
    let v = v3_cross(w, u);
    let horizontal = v3_scale(u, mul_spec(focus_dist, viewport_width));
    let vertical = v3_scale(v, mul_spec(focus_dist, viewport_height));
    CameraV {
        origin: lookfrom,
        lower_left: v3_sub(
            v3_sub(
                v3_sub(lookfrom, v3_div(horizontal, 2 * SCALE)),
                v3_div(vertical, 2 * SCALE),
            ),
            v3_scale(w, focus_dist),
        ),
        horizontal,
        vertical,
        u,
        v,
        lens_radius: div_spec(aperture, 2 * SCALE),
    }
}

/// What one ray generation returns and how many raw draws it takes:
/// a point of the unit disk scaled by the lens radius offsets the
/// origin along the camera basis, and the direction targets the
/// image-plane point at `(s, t)`.
pub open spec fn make_ray_spec(c: CameraV, s: int, t: int, seed: u64, index: int) -> (RayV, int) {
    let (dp, k2) = disk_draw_spec(seed, index, DRAW_TRIES as nat);
    let rd = v3_scale(dp, c.lens_radius);
    let offset = v3_add(v3_scale(c.u, rd.x), v3_scale(c.v, rd.y));
    (
        RayV {
            o: v3_add(offset, c.origin),
            d: v3_sub(
                v3_sub(
                    v3_add(v3_add(c.lower_left, v3_scale(c.horizontal, s)), v3_scale(c.vertical, t)),
                    c.origin,
                ),
                offset,
            ),
        },
        k2,
    )
}

impl SimpleCamera {
    /// Builds a camera from where it looks from and at, its up vector,
    /// the tangent of half the vertical field of view, the aspect
    /// ratio, the aperture and the focus distance.
    pub fn new(
        lookfrom: Vec3,
        lookat: Vec3,
        vup: Vec3,
        tan_half_fov: Fx,
        aspect_ratio: Fx,
        aperture: Fx,
        focus_dist: Fx,
    ) -> (c: SimpleCamera)
        ensures
            c@ == camera_setup_spec(
                lookfrom@,
                lookat@,
                vup@,
                tan_half_fov@,
                aspect_ratio@,
                aperture@,
                focus_dist@,
            ),
    {
        let two = Fx::from_raw(2 * SCALE);
        let viewport_height = two.mul(tan_half_fov);
        let viewport_width = aspect_ratio.mul(viewport_height);

        let w = lookfrom.sub(lookat).unit_vec();
        let u = vup.cross(&w).unit_vec();
        let v = w.cross(&u);

        let origin = lookfrom;
        let horizontal = u.mul(focus_dist.mul(viewport_width));
        let vertical = v.mul(focus_dist.mul(viewport_height));

        SimpleCamera {
            origin,
            horizontal,
            vertical,
            u,
            v,
            lower_left: origin.sub(horizontal.div(two)).sub(vertical.div(two)).sub(
                w.mul(focus_dist),
            ),
            lens_radius: aperture.div(two),
        }
    }

    /// Generates the ray for normalized image-plane coordinates
    /// `(s, t)`, jittering the origin over the lens aperture.
    pub fn make_ray(&self, s: Fx, t: Fx, sp: &mut Sampler) -> (r: Ray)
        ensures
            (r@, final(sp).index()) == make_ray_spec(
                self@,
                s@,
                t@,
                old(sp).seed(),
                old(sp).index(),
            ),
            final(sp).seed() == old(sp).seed(),
    {
        let rd = Vec3::random_in_unit_disk(sp).mul(self.lens_radius);
        let offset = self.u.mul(rd.x).add(self.v.mul(rd.y));
        Ray::new(
            offset.add(self.origin),
            self.lower_left.add(self.horizontal.mul(s)).add(self.vertical.mul(t)).sub(
                self.origin,
            ).sub(offset),
        )
    }
}

} // verus!
