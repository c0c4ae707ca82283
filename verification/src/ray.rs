//! The per-pixel trace state: current position and direction, the
//! accumulated color, a hit counter and a stopped flag, with the stepping,
//! reflection and stochastic scattering transitions of the marching loop.

use vstd::prelude::*;

use crate::color_data_types::Color;
use crate::fixed::{
    fp_mul, lemma_fp_mul_zero, lemma_isqrt_square, lemma_tdiv_scale_exact, sat_sub64, spec_fp_mul,
    spec_sat64, SCALE,
};
use crate::random::random_in_range;
use crate::scene_objects::SurfaceMaterial;
use crate::threed_data_types::{Direction, Point};

verus! {

/// The no-hit sentinel: full white.
pub open spec fn spec_white() -> Color {
    Color { r: SCALE, g: SCALE, b: SCALE }
}

/// A ray's mutable trace state.
pub struct Ray {
    pub position: Point,
    pub direction: Direction,
    pub num_hits: i32,
    pub must_stop: bool,
    pub color: Color,
}

impl Ray {
    /// The accumulated color stays a valid channel triple and the hit
    /// counter nonnegative.
    pub open spec fn wf(self) -> bool {
        self.color.valid() && self.num_hits >= 0
    }

    /// The state after one step of the given size: unchanged when stopped,
    /// else the position advanced along the direction.
    pub open spec fn spec_step(self, step_size: int) -> Ray {
        if self.must_stop {
            self
        } else {
            Ray {
                position: self.position.spec_add(
                    self.direction.to_point_spec().spec_scale(step_size),
                ),
                ..self
            }
        }
    }

    /// The state after a specular reflection about `surf_normal`: the
    /// direction loses twice its projection onto the normalized normal and
    /// the hit counter grows by one.
    pub open spec fn spec_reflect(self, surf_normal: Direction) -> Ray {
        let normal = surf_normal.spec_norm();
        let d = Direction::spec_dot(self.direction, normal);
        Ray {
            direction: self.direction.spec_sub(
                normal.spec_scale(2 * (SCALE as int)).spec_scale(d),
            ),
            num_hits: spec_sat64(self.num_hits + 1) as i32,
            ..self
        }
    }

    /// The state after a scatter with perturbation draws `rz` and `ry`:
    /// the position backs off along the raw surface normal, the normal is
    /// rotated by the two scaled perturbation angles — falling back to the
    /// raw normal if rounding collapses the rotation to zero — and the ray
    /// reflects about the result.
    pub open spec fn spec_scatter(
        self,
        surf_normal: Direction,
        surf_material: SurfaceMaterial,
        max_angle_change: int,
        back_off_dist: int,
        rz: int,
        ry: int,
    ) -> Ray {
        let amount = spec_fp_mul(
            spec_sat64((SCALE as int) - surf_material.reflectivity),
            max_angle_change,
        );
        let az = spec_fp_mul(rz, amount);
        let ay = spec_fp_mul(ry, amount);
        let backed = Ray {
            position: self.position.spec_add(
                surf_normal.to_point_spec().spec_scale(back_off_dist),
            ),
            ..self
        };
        let rotated = surf_normal.spec_rotate(az, ay);
        let n2 = if rotated.is_zero() {
            surf_normal
        } else {
            rotated
        };
        backed.spec_reflect(n2)
    }

    /// The color the ray reports: the accumulated color after at least one
    /// hit, the white no-hit sentinel otherwise.
    pub open spec fn spec_color(self) -> Color {
        if self.num_hits > 0 {
            self.color
        } else {
            spec_white()
        }
    }

    /// A fresh ray at `pos` heading along `dir`: no hits, not stopped, the
    /// accumulated color starting at the white sentinel so that the first
    /// surface blend mixes against white.
    pub fn new(pos: Point, dir: Direction) -> (r: Ray)
        ensures
            r.position == pos,
            r.direction == dir,
            r.num_hits == 0,
            !r.must_stop,
            r.color == spec_white(),
            r.wf(),
    {
        Ray {
            position: pos,
            direction: dir,
            num_hits: 0,
            color: Color::new(SCALE, SCALE, SCALE),
            must_stop: false,
        }
    }

    /// Advance the position by `step_size` along the direction; stopped
    /// rays do not move.
    pub fn step(&mut self, step_size: i64)
        ensures
            *final(self) == old(self).spec_step(step_size as int),
    {
        if !self.must_stop {
            self.position = self.position.add(self.direction.to_point().scale(step_size));
        }
    }

    /// The current position.
    pub fn get_position(&self) -> (p: &Point)
        ensures
            *p == self.position,
    {
        &self.position
    }

    /// Overwrite the position.
    pub fn set_position(&mut self, new_pos: Point)
        ensures
            *final(self) == (Ray { position: new_pos, ..*old(self) }),
    {
        self.position = new_pos;
    }

    /// The current direction.
    pub fn get_direction(&self) -> (d: &Direction)
        ensures
            *d == self.direction,
    {
        &self.direction
    }

    /// Overwrite the direction.
    pub fn set_direction(&mut self, new_dir: Direction)
        ensures
            *final(self) == (Ray { direction: new_dir, ..*old(self) }),
    {
        self.direction = new_dir;
    }

    /// How many surfaces the ray has hit.
    pub fn get_num_hits(&self) -> (n: i32)
        ensures
            n == self.num_hits,
    {
        self.num_hits
    }

    /// Reflect the direction about `surf_normal` and count the hit; the
    /// position is left where it is.
    pub fn reflect(&mut self, surf_normal: &Direction, _back_off_dist: i64)
        requires
            !surf_normal.is_zero(),
            old(self).num_hits < i32::MAX,
        ensures
            *final(self) == old(self).spec_reflect(*surf_normal),
    {
        let normal: Direction = surf_normal.get_norm();
        let d: i64 = Direction::get_dot(&self.direction, &normal);
        self.direction = self.direction.sub(normal.scale(2 * SCALE).scale(d));
        self.num_hits = self.num_hits + 1;
    }

    /// Scatter off a surface: back the position off along the raw normal,
    /// perturb the normal by two random rotations scaled by how diffuse the
    /// material is, and reflect about the perturbed normal. A perfect
    /// mirror — reflectivity of one unit — scatters not at all.
    #[verifier::rlimit(100)]
    pub fn scatter(
        &mut self,
        surf_normal: &Direction,
        surf_material: &SurfaceMaterial,
        max_angle_change: i64,
        back_off_dist: i64,
    )
        requires
            !surf_normal.is_zero(),
            surf_material.valid(),
            old(self).num_hits < i32::MAX,
        ensures
            exists|rz: int, ry: int|
                #![trigger old(self).spec_scatter(*surf_normal, *surf_material, max_angle_change as int, back_off_dist as int, rz, ry)]
                {
                    &&& -(SCALE as int) <= rz <= SCALE as int
                    &&& -(SCALE as int) <= ry <= SCALE as int
                    &&& *final(self) == old(self).spec_scatter(
                        *surf_normal,
                        *surf_material,
                        max_angle_change as int,
                        back_off_dist as int,
                        rz,
                        ry,
                    )
                },
            surf_material.reflectivity == SCALE ==> *final(self) == old(self).spec_scatter(
                *surf_normal,
                *surf_material,
                max_angle_change as int,
                back_off_dist as int,
                0,
                0,
            ),
    {
        let rand_z_rot: i64 = random_in_range(-SCALE, SCALE);
        let rand_y_rot: i64 = random_in_range(-SCALE, SCALE);
        let amount: i64 = fp_mul(sat_sub64(SCALE, surf_material.reflectivity), max_angle_change);
        let az: i64 = fp_mul(rand_z_rot, amount);
        let ay: i64 = fp_mul(rand_y_rot, amount);

        self.position = self.position.add(surf_normal.to_point().scale(back_off_dist));
        let mut normal: Direction = *surf_normal;
        normal.rotate_vector(az, ay);
        let n2: Direction = if normal.x == 0 && normal.y == 0 && normal.z == 0 {
            *surf_normal
        } else {
            normal
        };
        self.reflect(&n2, back_off_dist);
        proof {
            assert(*self == old(self).spec_scatter(
                *surf_normal,
                *surf_material,
                max_angle_change as int,
                back_off_dist as int,
                rand_z_rot as int,
                rand_y_rot as int,
            ));
            if surf_material.reflectivity == SCALE {
                lemma_fp_mul_zero(max_angle_change as int);
                lemma_fp_mul_zero(rand_z_rot as int);
                lemma_fp_mul_zero(rand_y_rot as int);
            }
        }
    }

    /// Stop the ray for good.
    pub fn stop(&mut self)
        ensures
            *final(self) == (Ray { must_stop: true, ..*old(self) }),
    {
        self.must_stop = true;
    }

    /// Whether the ray has stopped.
    pub fn has_stopped(&self) -> (b: bool)
        ensures
            b == self.must_stop,
    {
        self.must_stop
    }

    /// The color the ray reports: white until the first hit, the
    /// accumulated color afterwards.
    pub fn get_color(&self) -> (c: Color)
        ensures
            c == self.spec_color(),
    {
        if self.num_hits > 0 {
            return self.color;
        }
        Color::new(SCALE, SCALE, SCALE)
    }
}

/// Reflecting any unit-bounded direction about the downward vertical unit
/// normal flips exactly the vertical component and keeps the others: the
/// angle of incidence equals the angle of reflection.
pub proof fn lemma_reflect_vertical_axis(r: Ray)
    requires
        -SCALE <= r.direction.x <= SCALE,
        -SCALE <= r.direction.y <= SCALE,
        -SCALE <= r.direction.z <= SCALE,
        r.num_hits < i32::MAX,
    ensures
        r.spec_reflect(Direction { x: 0 as i64, y: (-SCALE) as i64, z: 0 as i64 }).direction
            == (Direction { x: r.direction.x, y: (-r.direction.y) as i64, z: r.direction.z }),
        r.spec_reflect(Direction { x: 0 as i64, y: (-SCALE) as i64, z: 0 as i64 }).position
            == r.position,
        r.spec_reflect(Direction { x: 0 as i64, y: (-SCALE) as i64, z: 0 as i64 }).num_hits as int
            == r.num_hits + 1,
{
    let s = SCALE as int;
    let n = Direction { x: 0 as i64, y: (-SCALE) as i64, z: 0 as i64 };
    assert(crate::threed_data_types::spec_len_sq(0, -s, 0) == s * s) by (nonlinear_arith);
    lemma_isqrt_square(s);
    let nn = n.spec_norm();
    assert(n.spec_length() == s);
    assert((0 * s) / s == 0 && (s * s) / s == s) by (nonlinear_arith)
        requires
            s > 0,
    ;
    assert(nn == Direction { x: 0 as i64, y: (-SCALE) as i64, z: 0 as i64 });

    let dy = r.direction.y as int;
    lemma_fp_mul_zero(r.direction.x as int);
    lemma_fp_mul_zero(r.direction.z as int);
    assert(dy * (-s) == (-dy) * s) by (nonlinear_arith);
    lemma_tdiv_scale_exact(-dy);
    assert(spec_fp_mul(dy, -s) == -dy);
    let d = Direction::spec_dot(r.direction, nn);
    assert(d == -dy);

    lemma_fp_mul_zero(2 * s);
    assert((-s) * (2 * s) == (-2 * s) * s) by (nonlinear_arith);
    lemma_tdiv_scale_exact(-2 * s);
    let n2 = nn.spec_scale(2 * s);
    assert(n2 == Direction { x: 0 as i64, y: (-2 * SCALE) as i64, z: 0 as i64 });

    lemma_fp_mul_zero(d);
    assert((-2 * s) * (-dy) == (2 * dy) * s) by (nonlinear_arith);
    lemma_tdiv_scale_exact(2 * dy);
    let n3 = n2.spec_scale(d);
    assert(n3 == Direction { x: 0 as i64, y: (2 * dy) as i64, z: 0 as i64 });
}

} // verus!
