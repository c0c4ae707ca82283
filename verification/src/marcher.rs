//! The marching engine: it owns the ray population and the scene, drives
//! the sphere-tracing tick — query, advance, stop or blend-and-scatter —
//! across all rays for a bounce budget, restarts the population with a
//! small angular jitter between iterations, and exposes the final color by
//! pixel coordinate.
//!
//! Each iteration overwrites the rays' accumulated colors rather than
//! averaging across iterations: single-pass semantics, restated here on
//! purpose.

use rayon::iter::{IntoParallelRefMutIterator, ParallelIterator};
use vstd::prelude::*;

use crate::camera::Camera;
use crate::color_data_types::Color;
use crate::fixed::{fp_mul, lemma_fp_mul_unit_bounded, SCALE};
use crate::random::random_in_range;
use crate::ray::{spec_white, Ray};
use crate::scene::{spec_closest_witness, Scene};
use crate::scene_objects::{SceneObject, SurfaceMaterial};
use crate::threed_data_types::{Direction, Point};

verus! {

/// The hard cap on reflections before a ray is stopped.
pub const MAX_HITS: i32 = 10;

/// The sphere-tracing convergence tolerance: a scene distance below this
/// counts as a surface hit.
pub const MIN_HIT_DIST: i64 = 1_000_000;

/// The default escape threshold handed to the engine: a scene distance at
/// or above the engine's threshold counts as a ray lost to infinity.
pub const MAX_DISTANCE: i64 = 10_000_000_000_000_000;

/// The finite-difference step for surface normals during marching.
pub const EPSILON: i64 = 100;

/// The angular jitter applied to regenerated rays between iterations.
pub const MIN_ANGLE: i64 = 100_000_000;

/// The widest scatter perturbation, for a fully diffuse material.
pub const MAX_SCATTER_ANGLE: i64 = 2_094_395_102;

/// How far a ray backs off along the surface normal before reflecting.
pub const BACK_OFF_DIST: i64 = 1_000_000;

/// The fixed blend ratio at which a hit surface's color is mixed into the
/// ray's accumulated color.
pub const BLEND_RATIO: i64 = 500_000_000;

/// A ray the engine accepts: well formed, with the hit counter inside the
/// engine's cap plus the one reflection a final hit may add.
pub open spec fn spec_ray_bounded(r: Ray) -> bool {
    r.wf() && r.num_hits <= MAX_HITS + 1
}

/// Position `i` is the first minimum of the signed distances at `p`.
pub open spec fn spec_first_argmin(objs: Seq<SceneObject>, p: Point, i: int) -> bool {
    &&& 0 <= i < objs.len()
    &&& forall|j: int|
        0 <= j < objs.len() ==> objs[i].spec_signed_distance(p)
            <= #[trigger] objs[j].spec_signed_distance(p)
    &&& forall|j: int|
        0 <= j < i ==> objs[i].spec_signed_distance(p) < #[trigger] objs[j].spec_signed_distance(
            p,
        )
}

/// After a hit, the ray either stops — when rounding collapsed the surface
/// normal to zero — or scatters off the normal with some pair of
/// perturbation draws.
pub open spec fn spec_scatter_or_stop(
    o: Ray,
    normal: Direction,
    mat: SurfaceMaterial,
    n: Ray,
) -> bool {
    if normal.is_zero() {
        n == (Ray { must_stop: true, ..o })
    } else {
        exists|rz: int, ry: int|
            #![trigger o.spec_scatter(normal, mat, MAX_SCATTER_ANGLE as int, BACK_OFF_DIST as int, rz, ry)]
            {
                &&& -(SCALE as int) <= rz <= SCALE as int
                &&& -(SCALE as int) <= ry <= SCALE as int
                &&& n == o.spec_scatter(
                    normal,
                    mat,
                    MAX_SCATTER_ANGLE as int,
                    BACK_OFF_DIST as int,
                    rz,
                    ry,
                )
            }
    }
}

/// A genuine surface hit on `obj` after stepping: in debug mode the ray is
/// colored from the normalized surface normal and stopped; otherwise the
/// object's color is blended into the accumulated color at the fixed
/// ratio. Either way the ray then scatters off the normal (or stops on a
/// degenerate zero normal).
pub open spec fn spec_hit_outcome(obj: SceneObject, stepped: Ray, n: Ray, debug: bool) -> bool {
    let normal = obj.spec_surface_normal(stepped.position, EPSILON as int);
    let mat = obj.spec_material();
    if debug {
        let nc = Color::spec_new(normal.x as int, normal.y as int, normal.z as int);
        let dbg = Ray { color: nc, must_stop: true, ..stepped };
        spec_scatter_or_stop(dbg, normal, mat, n)
    } else {
        let blended = Ray {
            color: Color::spec_blend(mat.color, stepped.color, BLEND_RATIO as int),
            ..stepped
        };
        spec_scatter_or_stop(blended, normal, mat, n)
    }
}

/// The outcome of one tick against the nearest object `obj`: the ray steps
/// by the returned distance, stops on escape or an exhausted hit cap,
/// registers a hit below the tolerance, and otherwise just advances.
pub open spec fn spec_tick_outcome(
    obj: SceneObject,
    o: Ray,
    n: Ray,
    debug: bool,
    max_d: int,
) -> bool {
    let d = obj.spec_signed_distance(o.position);
    let stepped = o.spec_step(d);
    if d >= max_d || o.num_hits > MAX_HITS {
        n == (Ray { must_stop: true, ..stepped })
    } else if d < MIN_HIT_DIST as int {
        spec_hit_outcome(obj, stepped, n, debug)
    } else {
        n == stepped
    }
}

/// One tick of the marching loop on a single ray: stopped rays and rays in
/// an empty scene are left unchanged; otherwise the ray meets the first
/// nearest object.
pub open spec fn spec_ray_ticked(
    objs: Seq<SceneObject>,
    o: Ray,
    n: Ray,
    debug: bool,
    max_d: int,
) -> bool {
    if o.must_stop || objs.len() == 0 {
        n == o
    } else {
        exists|i: int|
            #![trigger objs[i]]
            spec_first_argmin(objs, o.position, i) && spec_tick_outcome(objs[i], o, n, debug, max_d)
    }
}

/// What a whole march guarantees ray by ray: the hit counter never
/// shrinks; a stopped ray keeps its color, counter and flag; and in an
/// empty scene color, counter and flag are all left alone.
pub open spec fn spec_ray_evolved(o: Ray, n: Ray, objs: Seq<SceneObject>) -> bool {
    &&& n.num_hits >= o.num_hits
    &&& (o.must_stop ==> n.must_stop && n.color == o.color && n.num_hits == o.num_hits)
    &&& (objs.len() == 0 ==> n.color == o.color && n.num_hits == o.num_hits && n.must_stop
        == o.must_stop)
}

/// The ray-by-ray march guarantee composes across phases.
pub proof fn lemma_evolved_trans(a: Ray, b: Ray, c: Ray, objs: Seq<SceneObject>)
    requires
        spec_ray_evolved(a, b, objs),
        spec_ray_evolved(b, c, objs),
    ensures
        spec_ray_evolved(a, c, objs),
{
}

/// With no scene objects, a ray that has never hit a surface still
/// reports the white no-hit sentinel after any march: marching an empty
/// scene leaves every pixel white.
pub proof fn lemma_empty_scene_keeps_white(o: Ray, n: Ray, objs: Seq<SceneObject>)
    requires
        objs.len() == 0,
        o.num_hits == 0,
        spec_ray_evolved(o, n, objs),
    ensures
        n.spec_color() == spec_white(),
{
}

/// A single tick satisfies the march guarantee.
pub proof fn lemma_ticked_evolved(objs: Seq<SceneObject>, o: Ray, n: Ray, debug: bool, max_d: int)
    requires
        spec_ray_ticked(objs, o, n, debug, max_d),
        spec_ray_bounded(o),
    ensures
        spec_ray_evolved(o, n, objs),
{
    if o.must_stop || objs.len() == 0 {
    } else {
        let i = choose|i: int|
            #![trigger objs[i]]
            spec_first_argmin(objs, o.position, i) && spec_tick_outcome(
                objs[i],
                o,
                n,
                debug,
                max_d,
            );
        let obj = objs[i];
        let d = obj.spec_signed_distance(o.position);
        let stepped = o.spec_step(d);
        if d >= max_d || o.num_hits > MAX_HITS {
        } else if d < MIN_HIT_DIST as int {
            let normal = obj.spec_surface_normal(stepped.position, EPSILON as int);
            let mat = obj.spec_material();
            if debug {
                let nc = Color::spec_new(normal.x as int, normal.y as int, normal.z as int);
                let dbg = Ray { color: nc, must_stop: true, ..stepped };
                lemma_scatter_or_stop_hits(dbg, normal, mat, n);
            } else {
                let blended = Ray {
                    color: Color::spec_blend(mat.color, stepped.color, BLEND_RATIO as int),
                    ..stepped
                };
                lemma_scatter_or_stop_hits(blended, normal, mat, n);
            }
        } else {
        }
    }
}

/// A scatter-or-stop adds at most one hit and never removes any.
proof fn lemma_scatter_or_stop_hits(o: Ray, normal: Direction, mat: SurfaceMaterial, n: Ray)
    requires
        spec_scatter_or_stop(o, normal, mat, n),
        o.num_hits < i32::MAX,
    ensures
        o.num_hits <= n.num_hits <= o.num_hits + 1,
        n.color == o.color,
{
    if normal.is_zero() {
    } else {
        let (rz, ry) = choose|rz: int, ry: int|
            #![trigger o.spec_scatter(normal, mat, MAX_SCATTER_ANGLE as int, BACK_OFF_DIST as int, rz, ry)]
            {
                &&& -(SCALE as int) <= rz <= SCALE as int
                &&& -(SCALE as int) <= ry <= SCALE as int
                &&& n == o.spec_scatter(
                    normal,
                    mat,
                    MAX_SCATTER_ANGLE as int,
                    BACK_OFF_DIST as int,
                    rz,
                    ry,
                )
            };
    }
}

/// One tick of the marching loop on one ray, exactly as the engine runs
/// it: query the scene, advance, stop past the escape threshold
/// `max_distance` or on an exhausted hit cap, and on a hit blend (or
/// debug-color) and scatter.
pub fn step_ray(ray: &mut Ray, scene: &Scene, debug: bool, max_distance: i64)
    requires
        scene.valid(),
        spec_ray_bounded(*old(ray)),
    ensures
        spec_ray_ticked(scene.scene_objects@, *old(ray), *final(ray), debug, max_distance as int),
        spec_ray_bounded(*final(ray)),
{
    if ray.has_stopped() {
        return ;
    }
    let closest = scene.get_closest_object(ray.get_position());
    match closest {
        Some(co) => {
            let ghost i = choose|i: int|
                #[trigger]
                spec_closest_witness(scene.scene_objects@, old(ray).position, co, i);
            let distance: i64 = co.distance;
            ray.step(distance);
            if distance >= max_distance || ray.get_num_hits() > MAX_HITS {
                ray.stop();
                proof {
                    assert(spec_tick_outcome(
                        scene.scene_objects@[i],
                        *old(ray),
                        *ray,
                        debug,
                        max_distance as int,
                    ));
                }
                return ;
            }
            if distance < MIN_HIT_DIST {
                let mat: SurfaceMaterial = co.obj.get_surface_material();
                let normal: Direction = co.obj.get_surface_normal(ray.get_position(), EPSILON);
                let normal_zero: bool = normal.x == 0 && normal.y == 0 && normal.z == 0;
                if debug {
                    ray.color = Color::new(normal.x, normal.y, normal.z);
                    ray.stop();
                }
                else {
                    ray.color = Color::blend_colors(&mat.color, &ray.color, BLEND_RATIO);
                }
                if normal_zero {
                    ray.stop();
                } else {
                    ray.scatter(&normal, &mat, MAX_SCATTER_ANGLE, BACK_OFF_DIST);
                }
                proof {
                    assert(spec_tick_outcome(
                        scene.scene_objects@[i],
                        *old(ray),
                        *ray,
                        debug,
                        max_distance as int,
                    ));
                }
            } else {
                proof {
                    assert(spec_tick_outcome(
                        scene.scene_objects@[i],
                        *old(ray),
                        *ray,
                        debug,
                        max_distance as int,
                    ));
                }
            }
        },
        None => {
        },
    }
}

/// The primary ray of the pixel at row-major position `idx`, fresh from
/// the camera: generation is row-major, columns moving fastest.
pub open spec fn spec_primary_ray(cam: Camera, idx: int) -> Ray {
    let r = idx % (cam.resolution.0 as int);
    let c = idx / (cam.resolution.0 as int);
    (Ray {
        position: cam.spec_near_plane_point(r, c),
        direction: cam.spec_near_plane_dir(r, c),
        num_hits: 0,
        must_stop: false,
        color: spec_white(),
    })
}

/// A regenerated ray: color, hit counter and stopped flag are kept, the
/// position returns to the pixel's near-plane point, and the direction is
/// the pixel's primary direction under some small angular jitter.
pub open spec fn spec_ray_reset(o: Ray, n: Ray, cam: Camera, idx: int) -> bool {
    &&& n.color == o.color
    &&& n.num_hits == o.num_hits
    &&& n.must_stop == o.must_stop
    &&& n.position == spec_primary_ray(cam, idx).position
    &&& exists|az: int, ay: int|
        #![trigger spec_primary_ray(cam, idx).direction.spec_rotate(az, ay)]
        {
            &&& -(MIN_ANGLE as int) <= az <= MIN_ANGLE as int
            &&& -(MIN_ANGLE as int) <= ay <= MIN_ANGLE as int
            &&& n.direction == spec_primary_ray(cam, idx).direction.spec_rotate(az, ay)
        }
}

/// `b` follows from `a` by exactly `n` marching ticks.
pub open spec fn spec_ticked_n(
    objs: Seq<SceneObject>,
    debug: bool,
    max_d: int,
    a: Ray,
    b: Ray,
    n: nat,
) -> bool
    decreases n,
{
    if n == 0 {
        b == a
    } else {
        exists|m: Ray|
            #![trigger spec_ray_ticked(objs, m, b, debug, max_d)]
            spec_ticked_n(objs, debug, max_d, a, m, (n - 1) as nat) && spec_ray_ticked(
                objs,
                m,
                b,
                debug,
                max_d,
            )
    }
}

/// One whole engine iteration on one ray: a full bounce budget of ticks,
/// then the jittered regeneration from the camera.
pub open spec fn spec_iteration(
    objs: Seq<SceneObject>,
    debug: bool,
    max_d: int,
    cam: Camera,
    idx: int,
    steps: nat,
    a: Ray,
    b: Ray,
) -> bool {
    exists|m: Ray|
        #![trigger spec_ray_reset(m, b, cam, idx)]
        spec_ticked_n(objs, debug, max_d, a, m, steps) && spec_ray_reset(m, b, cam, idx)
}

/// The whole march on one ray: `iters` iterations, each a bounce budget
/// of ticks followed by a regeneration.
pub open spec fn spec_march_trace(
    objs: Seq<SceneObject>,
    debug: bool,
    max_d: int,
    cam: Camera,
    idx: int,
    steps: nat,
    iters: nat,
    a: Ray,
    b: Ray,
) -> bool
    decreases iters,
{
    if iters == 0 {
        b == a
    } else {
        exists|m: Ray|
            #![trigger spec_iteration(objs, debug, max_d, cam, idx, steps, m, b)]
            spec_march_trace(objs, debug, max_d, cam, idx, steps, (iters - 1) as nat, a, m)
                && spec_iteration(objs, debug, max_d, cam, idx, steps, m, b)
    }
}

/// Advance every ray of the population by one tick against the scene,
/// one parallel task per ray.
///
/// Relies on rayon's par_iter_mut and ParallelIterator::for_each: every
/// element of the vector is handed exactly once, by mutable reference, to
/// the closure — which only calls the verified `step_ray` — so each final
/// element satisfies `step_ray`'s postcondition against its own initial
/// value, and the length is unchanged. The scene is shared read-only
/// across the workers.
#[verifier::external_body]
fn tick_all_rays(rays: &mut Vec<Ray>, scene: &Scene, debug: bool, max_distance: i64)
    requires
        scene.valid(),
        forall|i: int| 0 <= i < old(rays)@.len() ==> spec_ray_bounded(#[trigger] old(rays)@[i]),
    ensures
        final(rays)@.len() == old(rays)@.len(),
        forall|i: int|
            0 <= i < old(rays)@.len() ==> spec_ray_ticked(
                scene.scene_objects@,
                old(rays)@[i],
                #[trigger] final(rays)@[i],
                debug,
                max_distance as int,
            ),
        forall|i: int| 0 <= i < final(rays)@.len() ==> spec_ray_bounded(#[trigger] final(rays)@[i]),
{
    rays.par_iter_mut().for_each(|ray| step_ray(ray, scene, debug, max_distance));
}

/// The marching engine: the ray population, the scene, the camera and the
/// iteration budget.
pub struct MarcherHandler {
    pub num_steps: u32,
    pub num_iterations: u32,
    pub max_distance: i64,
    pub rays: Vec<Ray>,
    pub scene: Scene,
    pub camera: Camera,
    pub debug: bool,
}

impl MarcherHandler {
    /// Engine well-formedness: a workable camera, a well-formed scene, and
    /// one bounded ray per pixel.
    pub open spec fn wf(self) -> bool {
        &&& self.camera.wf()
        &&& self.scene.valid()
        &&& (self.camera.resolution.0 as int) * (self.camera.resolution.1 as int) <= u32::MAX
        &&& self.rays@.len() == (self.camera.resolution.0 as int) * (
        self.camera.resolution.1 as int)
        &&& forall|i: int| 0 <= i < self.rays@.len() ==> spec_ray_bounded(#[trigger] self.rays@[i])
        &&& self.num_steps >= 1
        &&& self.num_iterations >= 1
    }

    /// A fresh engine: an empty scene and one primary ray per pixel.
    pub fn new(num_bounces: u32, max_distance: i64, num_iterations: u32, camera: Camera) -> (m:
        Self)
        requires
            camera.wf(),
            num_bounces >= 1,
            num_iterations >= 1,
            (camera.resolution.0 as int) * (camera.resolution.1 as int) <= u32::MAX,
        ensures
            m.wf(),
            m.camera == camera,
            m.num_steps == num_bounces,
            m.num_iterations == num_iterations,
            m.max_distance == max_distance,
            !m.debug,
            m.scene.scene_objects@.len() == 0,
            forall|i: int|
                0 <= i < m.rays@.len() ==> #[trigger] m.rays@[i] == spec_primary_ray(camera, i),
    {
        let mut ret = MarcherHandler {
            num_steps: num_bounces,
            rays: Vec::<Ray>::new(),
            scene: Scene::new(),
            camera,
            debug: false,
            max_distance,
            num_iterations,
        };
        ret.generate_rays();
        ret
    }

    /// The engine's camera.
    pub fn get_camera(&self) -> (c: &Camera)
        ensures
            *c == self.camera,
    {
        &self.camera
    }

    /// Add an object to the scene.
    pub fn add_scene_object(&mut self, o: SceneObject)
        requires
            old(self).wf(),
            o.valid(),
        ensures
            final(self).wf(),
            *final(self) == (MarcherHandler {
                scene: Scene {
                    scene_objects: final(self).scene.scene_objects,
                },
                ..*old(self)
            }),
            final(self).scene.scene_objects@ == old(self).scene.scene_objects@.push(o),
    {
        self.scene.add_scene_object(o);
    }

    /// Append one ray to the population.
    fn add_ray(&mut self, r: Ray)
        ensures
            final(self).rays@ == old(self).rays@.push(r),
            *final(self) == (MarcherHandler { rays: final(self).rays, ..*old(self) }),
    {
        self.rays.push(r);
    }

    /// Build the ray population: one primary ray per pixel, row-major with
    /// columns moving fastest.
    fn generate_rays(&mut self)
        requires
            old(self).camera.wf(),
            old(self).rays@.len() == 0,
            (old(self).camera.resolution.0 as int) * (old(self).camera.resolution.1 as int)
                <= u32::MAX,
        ensures
            *final(self) == (MarcherHandler { rays: final(self).rays, ..*old(self) }),
            final(self).rays@.len() == (old(self).camera.resolution.0 as int) * (
            old(self).camera.resolution.1 as int),
            forall|i: int|
                0 <= i < final(self).rays@.len() ==> #[trigger] final(self).rays@[i]
                    == spec_primary_ray(old(self).camera, i),
    {
        let (res_w, res_h) = self.camera.get_resolution();
        let mut c: u32 = 0;
        while c < res_h
            invariant
                *self == (MarcherHandler { rays: self.rays, ..*old(self) }),
                self.camera.wf(),
                0 <= c <= res_h,
                res_w == self.camera.resolution.0,
                res_h == self.camera.resolution.1,
                (res_w as int) * (res_h as int) <= u32::MAX,
                self.rays@.len() == (c as int) * (res_w as int),
                forall|i: int|
                    0 <= i < self.rays@.len() ==> #[trigger] self.rays@[i] == spec_primary_ray(
                        self.camera,
                        i,
                    ),
            decreases res_h - c,
        {
            let mut r: u32 = 0;
            proof {
                assert((c as int) * (res_w as int) + res_w <= (res_h as int) * (res_w as int))
                    by (nonlinear_arith)
                    requires
                        (c as int) < res_h as int,
                        res_w >= 0,
                ;
            }
            while r < res_w
                invariant
                    *self == (MarcherHandler { rays: self.rays, ..*old(self) }),
                    self.camera.wf(),
                    0 <= r <= res_w,
                    c < res_h,
                    res_w == self.camera.resolution.0,
                    res_h == self.camera.resolution.1,
                    (c as int) * (res_w as int) + res_w <= (res_h as int) * (res_w as int)
                        <= u32::MAX,
                    self.rays@.len() == (c as int) * (res_w as int) + r as int,
                    forall|i: int|
                        0 <= i < self.rays@.len() ==> #[trigger] self.rays@[i] == spec_primary_ray(
                            self.camera,
                            i,
                        ),
                decreases res_w - r,
            {
                let (p, d) = self.camera.get_near_plane_point(r, c);
                proof {
                    let idx = (c as int) * (res_w as int) + r as int;
                    vstd::arithmetic::div_mod::lemma_fundamental_div_mod_converse(
                        idx,
                        res_w as int,
                        c as int,
                        r as int,
                    );
                }
                self.add_ray(Ray::new(p, d));
                r = r + 1;
            }
            c = c + 1;
            proof {
                assert((c as int) * (res_w as int) == (c as int - 1) * (res_w as int) + (
                res_w as int)) by (nonlinear_arith);
            }
        }
        proof {
            assert(self.rays@.len() == (res_h as int) * (res_w as int));
            assert((res_h as int) * (res_w as int) == (res_w as int) * (res_h as int))
                by (nonlinear_arith);
        }
    }

    /// The row-major pixel coordinate of linear index `i`: the column is
    /// the remainder by the width, the row the quotient.
    pub fn index_to_res_coords(cam_row: u32, cam_col: u32, i: usize) -> (rc: (u32, u32))
        requires
            cam_row >= 1,
            i <= u32::MAX,
        ensures
            rc.0 as int == (i as int) % (cam_row as int),
            rc.1 as int == (i as int) / (cam_row as int),
    {
        let iw: u32 = i as u32;
        let _ = cam_col;
        (iw % cam_row, iw / cam_row)
    }

    /// Regenerate every ray's origin and direction from the camera, with a
    /// small random angular jitter; colors, hit counters and stopped flags
    /// are kept.
    fn reset_rays(&mut self)
        requires
            old(self).camera.wf(),
            (old(self).camera.resolution.0 as int) * (old(self).camera.resolution.1 as int)
                <= u32::MAX,
            old(self).rays@.len() <= u32::MAX,
        ensures
            *final(self) == (MarcherHandler { rays: final(self).rays, ..*old(self) }),
            final(self).rays@.len() == old(self).rays@.len(),
            forall|i: int|
                0 <= i < old(self).rays@.len() ==> spec_ray_reset(
                    old(self).rays@[i],
                    #[trigger] final(self).rays@[i],
                    old(self).camera,
                    i,
                ),
    {
        let (cam_row, cam_col) = self.camera.get_resolution();
        let n: usize = self.rays.len();
        let mut k: usize = 0;
        while k < n
            invariant
                *self == (MarcherHandler { rays: self.rays, ..*old(self) }),
                self.camera.wf(),
                cam_row == self.camera.resolution.0,
                cam_col == self.camera.resolution.1,
                n == self.rays@.len() == old(self).rays@.len(),
                n <= u32::MAX,
                0 <= k <= n,
                forall|i: int| k <= i < n ==> self.rays@[i] == old(self).rays@[i],
                forall|i: int|
                    0 <= i < k ==> spec_ray_reset(
                        old(self).rays@[i],
                        #[trigger] self.rays@[i],
                        old(self).camera,
                        i,
                    ),
            decreases n - k,
        {
            let (r, c) = Self::index_to_res_coords(cam_row, cam_col, k);
            let (p, mut d) = self.camera.get_near_plane_point(r, c);
            let rand_y: i64 = random_in_range(-SCALE, SCALE);
            let rand_z: i64 = random_in_range(-SCALE, SCALE);
            let az: i64 = fp_mul(rand_z, MIN_ANGLE);
            let ay: i64 = fp_mul(rand_y, MIN_ANGLE);
            proof {
                lemma_fp_mul_unit_bounded(rand_z as int, MIN_ANGLE as int);
                lemma_fp_mul_unit_bounded(rand_y as int, MIN_ANGLE as int);
            }
            let ghost d0 = d;
            d.rotate_vector(az, ay);
            let ray: &mut Ray = &mut self.rays[k];
            ray.set_position(p);
            ray.set_direction(d);
            proof {
                let pr = spec_primary_ray(old(self).camera, k as int);
                assert(pr.direction == d0);
                assert(pr.position == p);
                assert(d == pr.direction.spec_rotate(az as int, ay as int));
                assert(spec_ray_reset(
                    old(self).rays@[k as int],
                    self.rays@[k as int],
                    old(self).camera,
                    k as int,
                ));
            }
            k = k + 1;
        }
    }

    /// Run the march to completion: for each iteration, tick every ray
    /// through the bounce budget, then regenerate the population with
    /// jitter for the next pass. Ray by ray, the run is pinned by
    /// `spec_march_trace`: exactly `num_iterations` blocks of `num_steps`
    /// ticks — each tick stepping against the nearest object, stopping
    /// past the escape threshold `max_distance` or the hit cap, blending
    /// and scattering on hits — each block closed by a jittered
    /// regeneration. On top of the trace, `spec_ray_evolved` summarizes:
    /// hit counters never shrink, stopped rays keep their color, and an
    /// empty scene changes no ray's color, counter or flag.
    pub fn march(&mut self)
        requires
            old(self).wf(),
        ensures
            final(self).wf(),
            *final(self) == (MarcherHandler { rays: final(self).rays, ..*old(self) }),
            final(self).rays@.len() == old(self).rays@.len(),
            forall|i: int|
                0 <= i < old(self).rays@.len() ==> spec_march_trace(
                    old(self).scene.scene_objects@,
                    old(self).debug,
                    old(self).max_distance as int,
                    old(self).camera,
                    i,
                    old(self).num_steps as nat,
                    old(self).num_iterations as nat,
                    old(self).rays@[i],
                    #[trigger] final(self).rays@[i],
                ),
            forall|i: int|
                0 <= i < old(self).rays@.len() ==> spec_ray_evolved(
                    old(self).rays@[i],
                    #[trigger] final(self).rays@[i],
                    old(self).scene.scene_objects@,
                ),
    {
        let ghost objs = old(self).scene.scene_objects@;
        let ghost cam = old(self).camera;
        let ghost dbg = old(self).debug;
        let ghost md = old(self).max_distance as int;
        let ghost steps_n = old(self).num_steps as nat;
        let ghost rays0 = old(self).rays@;
        let num_bounce_const: u32 = self.num_steps;
        let mut iter_left: u32 = self.num_iterations;
        let ghost mut done: nat = 0;
        while iter_left > 0
            invariant
                *self == (MarcherHandler { rays: self.rays, ..*old(self) }),
                objs == self.scene.scene_objects@,
                cam == self.camera,
                dbg == self.debug,
                md == self.max_distance as int,
                num_bounce_const == self.num_steps,
                steps_n == num_bounce_const as nat,
                rays0 == old(self).rays@,
                self.wf(),
                self.rays@.len() == rays0.len(),
                done + (iter_left as nat) == old(self).num_iterations as nat,
                forall|i: int|
                    0 <= i < rays0.len() ==> spec_march_trace(
                        objs,
                        dbg,
                        md,
                        cam,
                        i,
                        steps_n,
                        done,
                        rays0[i],
                        #[trigger] self.rays@[i],
                    ),
                forall|i: int|
                    0 <= i < rays0.len() ==> spec_ray_evolved(
                        rays0[i],
                        #[trigger] self.rays@[i],
                        objs,
                    ),
            decreases iter_left,
        {
            let ghost iter_start = self.rays@;
            let mut t: u32 = 0;
            while t < num_bounce_const
                invariant
                    *self == (MarcherHandler { rays: self.rays, ..*old(self) }),
                    objs == self.scene.scene_objects@,
                    cam == self.camera,
                    dbg == self.debug,
                    md == self.max_distance as int,
                    num_bounce_const == self.num_steps,
                    steps_n == num_bounce_const as nat,
                    self.wf(),
                    self.rays@.len() == rays0.len(),
                    iter_start.len() == rays0.len(),
                    0 <= t <= num_bounce_const,
                    forall|i: int|
                        0 <= i < rays0.len() ==> spec_march_trace(
                            objs,
                            dbg,
                            md,
                            cam,
                            i,
                            steps_n,
                            done,
                            rays0[i],
                            #[trigger] iter_start[i],
                        ),
                    forall|i: int|
                        0 <= i < rays0.len() ==> spec_ticked_n(
                            objs,
                            dbg,
                            md,
                            iter_start[i],
                            #[trigger] self.rays@[i],
                            t as nat,
                        ),
                    forall|i: int|
                        0 <= i < rays0.len() ==> spec_ray_evolved(
                            rays0[i],
                            #[trigger] self.rays@[i],
                            objs,
                        ),
                decreases num_bounce_const - t,
            {
                let ghost prev = self.rays@;
                tick_all_rays(&mut self.rays, &self.scene, self.debug, self.max_distance);
                proof {
                    assert forall|i: int| 0 <= i < rays0.len() implies spec_ticked_n(
                        objs,
                        dbg,
                        md,
                        iter_start[i],
                        #[trigger] self.rays@[i],
                        (t + 1) as nat,
                    ) by {
                        assert(spec_ray_ticked(objs, prev[i], self.rays@[i], dbg, md));
                        assert(spec_ticked_n(objs, dbg, md, iter_start[i], prev[i], t as nat));
                    }
                    assert forall|i: int| 0 <= i < rays0.len() implies spec_ray_evolved(
                        rays0[i],
                        #[trigger] self.rays@[i],
                        objs,
                    ) by {
                        lemma_ticked_evolved(objs, prev[i], self.rays@[i], dbg, md);
                        lemma_evolved_trans(rays0[i], prev[i], self.rays@[i], objs);
                    }
                }
                t = t + 1;
            }
            let ghost pre_reset = self.rays@;
            self.reset_rays();
            proof {
                assert forall|i: int| 0 <= i < rays0.len() implies spec_march_trace(
                    objs,
                    dbg,
                    md,
                    cam,
                    i,
                    steps_n,
                    done + 1,
                    rays0[i],
                    #[trigger] self.rays@[i],
                ) by {
                    assert(spec_ray_reset(pre_reset[i], self.rays@[i], cam, i));
                    assert(spec_ticked_n(objs, dbg, md, iter_start[i], pre_reset[i], steps_n));
                    assert(spec_iteration(
                        objs,
                        dbg,
                        md,
                        cam,
                        i,
                        steps_n,
                        iter_start[i],
                        self.rays@[i],
                    ));
                    assert(spec_march_trace(
                        objs,
                        dbg,
                        md,
                        cam,
                        i,
                        steps_n,
                        done,
                        rays0[i],
                        iter_start[i],
                    ));
                }
                assert forall|i: int| 0 <= i < rays0.len() implies spec_ray_evolved(
                    rays0[i],
                    #[trigger] self.rays@[i],
                    objs,
                ) by {
                    assert(spec_ray_reset(pre_reset[i], self.rays@[i], cam, i));
                    assert(spec_ray_evolved(pre_reset[i], self.rays@[i], objs));
                    lemma_evolved_trans(rays0[i], pre_reset[i], self.rays@[i], objs);
                }
                done = done + 1;
            }
            iter_left = iter_left - 1;
        }
    }

    /// The final color of the pixel at column `x`, row `y`: the reported
    /// color of the matching ray — white when it never hit a surface.
    pub fn get_color(&self, x: u32, y: u32) -> (c: Color)
        requires
            self.wf(),
            x < self.camera.resolution.0,
            y < self.camera.resolution.1,
        ensures
            c == self.rays@[(y as int) * (self.camera.resolution.0 as int) + x as int].spec_color(),
    {
        let (rows, _cols) = self.camera.get_resolution();
        let buf_len: usize = self.rays.len();
        proof {
            assert(0 <= (y as int) * (rows as int) + (x as int) && (y as int) * (rows as int) + (
            x as int) < (rows as int) * (self.camera.resolution.1 as int)) by (nonlinear_arith)
                requires
                    x < rows,
                    y < self.camera.resolution.1,
                    rows >= 1,
            ;
        }
        let index: usize = (y as usize) * (rows as usize) + x as usize;
        self.rays[index].get_color()
    }
}

} // verus!
