//! The radiance estimator and the render driver.
//!
//! `ray_color` bounces a ray through the scene until absorption, a
//! miss, or the depth cutoff, gathering light from the sky gradient;
//! the driver takes jittered samples per pixel, averages them, and
//! lays the encoded pixel bytes out row by row from the top of the
//! image down, while the scene is walked bottom-to-top. Every function
//! here is pinned to a specification that is a function of the scene,
//! the camera and the sampler seed, so a whole render is reproducible.

use vstd::prelude::*;

use crate::camera::{make_ray_spec, CameraV, SimpleCamera};
use crate::color::{c3_add, c3_black, c3_bytes, c3_div, c3_mul, c3_scale, c3_sky_blue, c3_white, Color, C3};
use crate::fixed::{add_spec, clip, div_spec, mul_spec, sub_spec, Fx, MAX_RAW, SCALE};
use crate::hittable::{list_intersect_spec, Hittables, SphereV};
use crate::material::scatter_spec;
use crate::ray::{Ray, RayV};
use crate::sampler::{unit_fx_spec, xoshiro_stream, Sampler};
use crate::vec3::v3_unit;

verus! {

/// Raw lower bound of the intersection interval: one raw unit above
/// zero, which avoids immediate self-intersection.
pub const T_MIN_RAW: i64 = 1;

/// Mathematical model of a renderer configuration.
pub ghost struct RendererV {
    pub world: Seq<SphereV>,
    pub camera: CameraV,
    pub image_width: int,
    pub aspect_ratio: int,
    pub max_depth: nat,
    pub num_samples: int,
}

/// The sky gradient: a blend from white at the horizon-down direction
/// to sky blue straight up, driven by the y component of the unit
/// direction.
pub open spec fn sky_spec(r: RayV) -> C3 {
    let ud = v3_unit(r.d);
    let t = mul_spec(32768, add_spec(ud.y, SCALE as int));
    c3_add(c3_scale(c3_white(), sub_spec(SCALE as int, t)), c3_scale(c3_sky_blue(), t))
}

/// What the radiance estimator returns and how many raw draws it
/// takes: black at depth zero; otherwise the closest intersection over
/// `(T_MIN_RAW, MAX_RAW)` is scattered, the estimator recurses one
/// depth down and attenuates, absorption yields black, and a miss
/// yields the sky gradient.
pub open spec fn ray_color_spec(
    world: Seq<SphereV>,
    r: RayV,
    depth: nat,
    seed: u64,
    index: int,
) -> (C3, int)
    decreases depth,
{
    if depth == 0 {
        (c3_black(), index)
    } else {
        match list_intersect_spec(world, r, T_MIN_RAW as int, MAX_RAW as int) {
            Some(hit) => {
                let (sc, k2) = scatter_spec(hit.mat, hit, r, seed, index);
                match sc {
                    Some(rc) => {
                        let (rec, k3) = ray_color_spec(world, rc.0, (depth - 1) as nat, seed, k2);
                        (c3_mul(rc.1, rec), k3)
                    },
                    None => (c3_black(), k2),
                }
            },
            None => (sky_spec(r), index),
        }
    }
}

/// Computes the color seen along a ray by bouncing through the scene
/// until absorption, a miss, or the depth cutoff.
pub fn ray_color(r: &Ray, world: &Hittables, depth: u16, sp: &mut Sampler) -> (c: Color)
    ensures
        (c@, final(sp).index()) == ray_color_spec(
            world@,
            r@,
            depth as nat,
            old(sp).seed(),
            old(sp).index(),
        ),
        final(sp).seed() == old(sp).seed(),
        depth == 0 ==> c@ == c3_black(),
    decreases depth,
{
    if depth == 0 {
        Color::black()
    } else if let Some(hit) = world.intersect(r, Fx::from_raw(T_MIN_RAW), Fx::from_raw(MAX_RAW)) {
        if let Some((scattered, atten)) = hit.mat.scatter(&hit, r, sp) {
            atten.mul(ray_color(&scattered, world, depth - 1, sp))
        } else {
            Color::black()
        }
    } else {
        let unit_dir = r.d.unit_vec();
        let t = Fx::from_raw(32768).mul(unit_dir.y.add(Fx::one()));
        Color::white().scale(Fx::one().sub(t)).add(Color::sky_blue().scale(t))
    }
}

/// One jittered sample of pixel `(i, j)`: two uniform draws jitter the
/// pixel coordinate, the last column and row normalize it, a camera
/// ray is generated, and its radiance is estimated.
pub open spec fn sample_once_spec(
    world: Seq<SphereV>,
    cam: CameraV,
    i: int,
    j: int,
    width: int,
    height: int,
    depth: nat,
    seed: u64,
    index: int,
) -> (C3, int) {
    let s = div_spec(
        add_spec(clip(i * (SCALE as int)), unit_fx_spec(xoshiro_stream(seed, index))),
        clip((width - 1) * (SCALE as int)),
    );
    let t = div_spec(
        add_spec(clip(j * (SCALE as int)), unit_fx_spec(xoshiro_stream(seed, index + 1))),
        clip((height - 1) * (SCALE as int)),
    );
    let (ray, k2) = make_ray_spec(cam, s, t, seed, index + 2);
    ray_color_spec(world, ray, depth, seed, k2)
}

/// The accumulated color and stream index after the next `n` jittered
/// samples of pixel `(i, j)`.
pub open spec fn sample_loop_spec(
    world: Seq<SphereV>,
    cam: CameraV,
    i: int,
    j: int,
    width: int,
    height: int,
    depth: nat,
    acc: C3,
    n: nat,
    seed: u64,
    index: int,
) -> (C3, int)
    decreases n,
{
    if n == 0 {
        (acc, index)
    } else {
        let (col, k2) = sample_once_spec(world, cam, i, j, width, height, depth, seed, index);
        sample_loop_spec(
            world,
            cam,
            i,
            j,
            width,
            height,
            depth,
            c3_add(acc, col),
            (n - 1) as nat,
            seed,
            k2,
        )
    }
}

/// The averaged color of pixel `(i, j)` and the stream index after its
/// samples.
pub open spec fn render_pixel_spec(
    rv: RendererV,
    i: int,
    j: int,
    height: int,
    seed: u64,
    index: int,
) -> (C3, int) {
    let (sum, k) = sample_loop_spec(
        rv.world,
        rv.camera,
        i,
        j,
        rv.image_width,
        height,
        rv.max_depth,
        c3_black(),
        rv.num_samples as nat,
        seed,
        index,
    );
    (c3_div(sum, clip(rv.num_samples * (SCALE as int))), k)
}

/// The pixel bytes of one row up to column `i`, with the stream index
/// after them; the row's sampler starts at index zero.
pub open spec fn row_prefix_spec(
    rv: RendererV,
    j: int,
    height: int,
    seed: u64,
    i: int,
) -> (Seq<u8>, int)
    decreases i,
{
    if i <= 0 {
        (Seq::<u8>::empty(), 0)
    } else {
        let (pre, k) = row_prefix_spec(rv, j, height, seed, i - 1);
        let (c, k2) = render_pixel_spec(rv, i - 1, j, height, seed, k);
        (pre + c3_bytes(c), k2)
    }
}

/// The bytes of one whole row.
pub open spec fn render_row_spec(rv: RendererV, j: int, height: int, seed: u64) -> Seq<u8> {
    row_prefix_spec(rv, j, height, seed, rv.image_width).0
}

/// The bytes of the first `idx` pixels of a whole sequential render:
/// pixels are laid out row-major from the top of the image, while the
/// scene row index runs from `height` at the top downward, and one
/// sampler serves every pixel in order.
pub open spec fn image_prefix_spec(rv: RendererV, height: int, seed: u64, idx: int) -> (
    Seq<u8>,
    int,
)
    decreases idx,
{
    if idx <= 0 {
        (Seq::<u8>::empty(), 0)
    } else {
        let (pre, k) = image_prefix_spec(rv, height, seed, idx - 1);
        let i = (idx - 1) % rv.image_width;
        let j = height - (idx - 1) / rv.image_width;
        let (c, k2) = render_pixel_spec(rv, i, j, height, seed, k);
        (pre + c3_bytes(c), k2)
    }
}

/// The bytes of a whole sequential render: a function of the scene,
/// the camera, the configuration and the seed alone, which is why
/// rendering twice with one seed gives identical bytes.
pub open spec fn render_image_spec(rv: RendererV, height: int, seed: u64) -> Seq<u8> {
    image_prefix_spec(rv, height, seed, rv.image_width * height).0
}

/// A renderer: the scene, the camera, and the sampling configuration.
#[derive(Debug)]
pub struct Renderer {
    world: Hittables,
    camera: SimpleCamera,
    image_width: u32,
    aspect_ratio: Fx,
    max_depth: u16,
    num_samples: u16,
}

impl View for Renderer {
    type V = RendererV;

    closed spec fn view(&self) -> RendererV {
        RendererV {
            world: self.world@,
            camera: self.camera@,
            image_width: self.image_width as int,
            aspect_ratio: self.aspect_ratio@,
            max_depth: self.max_depth as nat,
            num_samples: self.num_samples as int,
        }
    }
}

/// The image height a configuration derives: the width divided by the
/// aspect ratio, truncated.
pub open spec fn height_spec(rv: RendererV) -> int {
    div_spec(clip(rv.image_width * (SCALE as int)), rv.aspect_ratio) / (SCALE as int)
}

/// The conditions a configuration must meet before rendering: at least
/// two columns and rows so that jitter can normalize by the last one,
/// at least one sample, a positive aspect ratio, and a height that
/// fits the image dimensions.
pub open spec fn renderer_wf(rv: RendererV) -> bool {
    &&& 2 <= rv.image_width < 0x1_0000_0000
    &&& rv.aspect_ratio > 0
    &&& 2 <= height_spec(rv) < 0x1_0000_0000
    &&& 1 <= rv.num_samples
}

impl Renderer {
    /// Builds a renderer over a scene and a camera with the default
    /// width, aspect ratio, recursion depth and sample count.
    pub fn new(world: Hittables, camera: SimpleCamera) -> (r: Renderer)
        ensures
            r@.world == world@,
            r@.camera == camera@,
            r@.image_width == 800,
            r@.aspect_ratio == div_spec(clip(16 * (SCALE as int)), clip(9 * (SCALE as int))),
            r@.max_depth == 50,
            r@.num_samples == 100,
    {
        Renderer {
            world,
            camera,
            image_width: 800,
            aspect_ratio: Fx::from_int(16).div(Fx::from_int(9)),
            max_depth: 50,
            num_samples: 100,
        }
    }

    /// Replaces the image width.
    pub fn width(self, image_width: u32) -> (r: Renderer)
        ensures
            r@ == (RendererV { image_width: image_width as int, ..self@ }),
    {
        Renderer { image_width, ..self }
    }

    /// Replaces the aspect ratio.
    pub fn aspect_ratio(self, aspect_ratio: Fx) -> (r: Renderer)
        ensures
            r@ == (RendererV { aspect_ratio: aspect_ratio@, ..self@ }),
    {
        Renderer { aspect_ratio, ..self }
    }

    /// Replaces the per-pixel sample count.
    pub fn num_samples(self, num_samples: u16) -> (r: Renderer)
        requires
            num_samples >= 1,
        ensures
            r@ == (RendererV { num_samples: num_samples as int, ..self@ }),
    {
        Renderer { num_samples, ..self }
    }

    /// The derived image height.
    pub fn image_height(&self) -> (h: u32)
        requires
            renderer_wf(self@),
        ensures
            h as int == height_spec(self@),
    {
        let wfx = Fx::from_int(self.image_width as i64);
        let hfx = wfx.div(self.aspect_ratio);
        ((hfx.raw() as u64) / (SCALE as u64)) as u32
    }

    /// The averaged color of pixel `(i, j)`, over the configured number
    /// of jittered samples.
    #[verifier::rlimit(100)]
    pub fn render_pixel(&self, i: u32, j: u32, height: u32, sp: &mut Sampler) -> (c: Color)
        requires
            renderer_wf(self@),
            2 <= height,
        ensures
            (c@, final(sp).index()) == render_pixel_spec(
                self@,
                i as int,
                j as int,
                height as int,
                old(sp).seed(),
                old(sp).index(),
            ),
            final(sp).seed() == old(sp).seed(),
    {
        let ghost seed = sp.seed();
        let ghost k0 = sp.index();
        let mut color = Color::black();
        let mut n: u16 = 0;
        while n < self.num_samples
            invariant
                renderer_wf(self@),
                n <= self.num_samples,
                2 <= height as int,
                sp.seed() == seed,
                sample_loop_spec(
                    self@.world,
                    self@.camera,
                    i as int,
                    j as int,
                    self@.image_width,
                    height as int,
                    self@.max_depth,
                    color@,
                    (self.num_samples - n) as nat,
                    seed,
                    sp.index(),
                ) == sample_loop_spec(
                    self@.world,
                    self@.camera,
                    i as int,
                    j as int,
                    self@.image_width,
                    height as int,
                    self@.max_depth,
                    c3_black(),
                    self@.num_samples as nat,
                    seed,
                    k0,
                ),
            decreases self.num_samples - n,
        {
            let sample = self.sample_once(i, j, height, sp);
            color = color.add(sample);
            n = n + 1;
        }
        color.div(Fx::from_int(self.num_samples as i64))
    }

    /// Takes one jittered sample of pixel `(i, j)`.
    #[verifier::rlimit(100)]
    fn sample_once(&self, i: u32, j: u32, height: u32, sp: &mut Sampler) -> (c: Color)
        requires
            renderer_wf(self@),
            2 <= height,
        ensures
            (c@, final(sp).index()) == sample_once_spec(
                self@.world,
                self@.camera,
                i as int,
                j as int,
                self@.image_width,
                height as int,
                self@.max_depth,
                old(sp).seed(),
                old(sp).index(),
            ),
            final(sp).seed() == old(sp).seed(),
    {
        let wm1 = Fx::from_int((self.image_width - 1) as i64);
        let hm1 = Fx::from_int((height - 1) as i64);
        let du = sp.next_unit();
        let s = Fx::from_int(i as i64).add(du).div(wm1);
        let dv = sp.next_unit();
        let t = Fx::from_int(j as i64).add(dv).div(hm1);
        let r = self.camera.make_ray(s, t, sp);
        ray_color(&r, &self.world, self.max_depth, sp)
    }

    /// The encoded bytes of one row of the image, rendered with a
    /// sampler seeded by `seed` for this row alone; `j` is the scene
    /// row index, counted from the bottom of the image.
    #[verifier::rlimit(100)]
    pub fn render_row(&self, j: u32, height: u32, seed: u64) -> (row: Vec<u8>)
        requires
            renderer_wf(self@),
            2 <= height,
        ensures
            row@ == render_row_spec(self@, j as int, height as int, seed),
    {
        let mut sp = Sampler::new(seed);
        let mut row: Vec<u8> = Vec::new();
        let mut i: u32 = 0;
        while i < self.image_width
            invariant
                renderer_wf(self@),
                2 <= height,
                i <= self.image_width,
                sp.seed() == seed,
                (row@, sp.index()) == row_prefix_spec(
                    self@,
                    j as int,
                    height as int,
                    seed,
                    i as int,
                ),
            decreases self.image_width - i,
        {
            let c = self.render_pixel(i, j, height, &mut sp);
            c.write_16(&mut row);
            i = i + 1;
        }
        row
    }

    /// The encoded bytes of the whole image, rendered sequentially with
    /// one sampler: pixels run row-major from the top of the image while
    /// the scene row index runs from `height` downward. Rendering twice
    /// with one seed gives byte-identical output.
    #[verifier::rlimit(100)]
    pub fn render_image(&self, seed: u64) -> (data: Vec<u8>)
        requires
            renderer_wf(self@),
        ensures
            data@ == render_image_spec(self@, height_spec(self@), seed),
    {
        let height = self.image_height();
        proof {
            let wz = self.image_width as int;
            let hz = height as int;
            assert(wz * hz < 0x1_0000_0000_0000_0000) by (nonlinear_arith)
                requires
                    0 <= wz < 0x1_0000_0000,
                    0 <= hz < 0x1_0000_0000,
            ;
        }
        let mut sp = Sampler::new(seed);
        let mut data: Vec<u8> = Vec::new();
        let total: u64 = (self.image_width as u64) * (height as u64);
        let mut idx: u64 = 0;
        while idx < total
            invariant
                renderer_wf(self@),
                height as int == height_spec(self@),
                total == self@.image_width * height_spec(self@),
                idx <= total,
                sp.seed() == seed,
                (data@, sp.index()) == image_prefix_spec(
                    self@,
                    height as int,
                    seed,
                    idx as int,
                ),
            decreases total - idx,
        {
            proof {
                let wz = self.image_width as int;
                let hz = height as int;
                let iz = idx as int;
                assert(iz / wz < hz) by (nonlinear_arith)
                    requires
                        0 <= iz,
                        iz < wz * hz,
                        wz > 0,
                ;
            }
            let i = (idx % (self.image_width as u64)) as u32;
            let j = height - (idx / (self.image_width as u64)) as u32;
            let c = self.render_pixel(i, j, height, &mut sp);
            c.write_16(&mut data);
            idx = idx + 1;
        }
        data
    }
}

/// At depth zero the estimator returns black for any ray and scene,
/// and consumes no draws.
pub proof fn lemma_depth_zero_black(world: Seq<SphereV>, r: RayV, seed: u64, index: int)
    ensures
        ray_color_spec(world, r, 0, seed, index) == (c3_black(), index),
{
}

/// A scene with no primitives misses every ray, so at positive depth
/// the estimator returns exactly the sky gradient and consumes no
/// draws.
pub proof fn lemma_empty_scene_sky(r: RayV, depth: nat, seed: u64, index: int)
    requires
        depth > 0,
    ensures
        ray_color_spec(Seq::<SphereV>::empty(), r, depth, seed, index) == (sky_spec(r), index),
{
    assert(list_intersect_spec(
        Seq::<SphereV>::empty(),
        r,
        T_MIN_RAW as int,
        MAX_RAW as int,
    ) is None);
}

/// The endpoints of the sky gradient: a unit direction pointing
/// straight down gives pure white, straight up gives the sky blue.
pub proof fn lemma_sky_endpoints(r: RayV)
    ensures
        v3_unit(r.d).y == -(SCALE as int) ==> sky_spec(r) == c3_white(),
        v3_unit(r.d).y == SCALE as int ==> sky_spec(r) == c3_sky_blue(),
{
}

/// Rendering is reproducible: two configurations with the same scene,
/// camera, dimensions and seed produce identical bytes.
pub proof fn lemma_render_round_trip(
    rv1: RendererV,
    rv2: RendererV,
    height: int,
    seed1: u64,
    seed2: u64,
)
    requires
        rv1 == rv2,
        seed1 == seed2,
    ensures
        render_image_spec(rv1, height, seed1) == render_image_spec(rv2, height, seed2),
{
}

} // verus!
