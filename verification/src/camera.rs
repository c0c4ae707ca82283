//! The pinhole camera: maps a discrete pixel coordinate to a primary ray.
//! A near-plane point is placed along the view direction and offset along
//! two basis vectors by angles proportional to the pixel's position in the
//! field of view; the ray direction is the normalized vector from the
//! camera position to that point. At zero field of view every pixel maps
//! to the view direction unchanged, by contract.

use vstd::prelude::*;

use crate::fixed::{fp_mul, sat_sub64, spec_fp_mul, spec_sat64, spec_tdiv, tdiv128, SCALE};
use crate::threed_data_types::{Direction, Point};

verus! {

/// The camera: position, view direction (expected normalized), near-plane
/// distance, horizontal half-field-of-view angle and pixel resolution.
pub struct Camera {
    pub position: Point,
    pub view_direction: Direction,
    pub near_plane_dist: i64,
    pub camera_angle: i64,
    pub resolution: (u32, u32),
}

impl Camera {
    /// The view direction scaled out to the near plane.
    pub open spec fn spec_pos_delta(self) -> Direction {
        self.view_direction.spec_scale(self.near_plane_dist as int)
    }

    /// Well-formedness: at least one pixel each way, and a near-plane
    /// displacement that does not collapse to zero.
    pub open spec fn wf(self) -> bool {
        &&& self.resolution.0 >= 1
        &&& self.resolution.1 >= 1
        &&& !self.spec_pos_delta().is_zero()
    }

    /// The horizontal basis: the near-plane displacement turned a quarter
    /// turn in the horizontal plane, normalized.
    pub open spec fn spec_horz_basis(self) -> Direction {
        let pd = self.spec_pos_delta();
        (Direction { x: pd.z, y: pd.y, z: spec_sat64(0 - pd.x) as i64 }).spec_norm()
    }

    /// The vertical basis: the near-plane displacement turned a quarter
    /// turn in the vertical plane, normalized.
    pub open spec fn spec_vert_basis(self) -> Direction {
        let pd = self.spec_pos_delta();
        (Direction { x: spec_sat64(0 - pd.y) as i64, y: pd.x, z: pd.z }).spec_norm()
    }

    /// The horizontal offset angle of pixel column `r`: the camera angle
    /// scaled by how far the column sits from the center of the row.
    pub open spec fn spec_horz_delta(self, r: int) -> int {
        spec_fp_mul(
            self.camera_angle as int,
            spec_tdiv(2 * r * (SCALE as int), self.resolution.0 as int) - SCALE as int,
        )
    }

    /// The vertical offset angle of pixel row `c`: the camera angle scaled
    /// by the aspect ratio and the row's distance from the center.
    pub open spec fn spec_vert_delta(self, c: int) -> int {
        let aspect = spec_tdiv((self.resolution.1 as int) * (SCALE as int), self.resolution.0 as int);
        spec_fp_mul(
            spec_fp_mul(self.camera_angle as int, aspect),
            (SCALE as int) - spec_tdiv(2 * c * (SCALE as int), self.resolution.1 as int),
        )
    }

    /// The near-plane point of pixel `(r, c)`: the camera position,
    /// translated out along the view direction and offset in the plane.
    pub open spec fn spec_near_plane_point(self, r: int, c: int) -> Point {
        let pd = self.spec_pos_delta();
        let h = self.spec_horz_basis().spec_scale(self.spec_horz_delta(r));
        let v = self.spec_vert_basis().spec_scale(self.spec_vert_delta(c));
        self.position.spec_add(pd.spec_add(h).spec_add(v).to_point_spec())
    }

    /// The primary ray direction of pixel `(r, c)`: the normalized vector
    /// from the camera to the near-plane point; with no offset at all — in
    /// particular at zero field of view — the view direction itself.
    pub open spec fn spec_near_plane_dir(self, r: int, c: int) -> Direction {
        let h = self.spec_horz_basis().spec_scale(self.spec_horz_delta(r));
        let v = self.spec_vert_basis().spec_scale(self.spec_vert_delta(c));
        if h.is_zero() && v.is_zero() {
            self.view_direction
        } else {
            let diff = self.spec_near_plane_point(r, c).spec_sub(
                self.position,
            ).to_direction_spec();
            if diff.is_zero() {
                self.view_direction
            } else {
                diff.spec_norm()
            }
        }
    }

    pub fn new(
        position: Point,
        view_direction: Direction,
        near_plane_dist: i64,
        camera_angle: i64,
        resolution: (u32, u32),
    ) -> (cam: Self)
        ensures
            cam.position == position,
            cam.view_direction == view_direction,
            cam.near_plane_dist == near_plane_dist,
            cam.camera_angle == camera_angle,
            cam.resolution == resolution,
    {
        Camera { position, view_direction, near_plane_dist, camera_angle, resolution }
    }

    /// The near-plane point and primary ray direction of pixel `(r, c)`.
    /// At zero field of view the direction is the view direction exactly.
    pub fn get_near_plane_point(&self, r: u32, c: u32) -> (res: (Point, Direction))
        requires
            self.wf(),
        ensures
            res.0 == self.spec_near_plane_point(r as int, c as int),
            res.1 == self.spec_near_plane_dir(r as int, c as int),
            self.camera_angle == 0 ==> res.1 == self.view_direction,
    {
        let pos_delta: Direction = self.view_direction.scale(self.near_plane_dist);
        let horz0 = Direction {
            x: pos_delta.z,
            y: pos_delta.y,
            z: sat_sub64(0, pos_delta.x),
        };
        let vert0 = Direction {
            x: sat_sub64(0, pos_delta.y),
            y: pos_delta.x,
            z: pos_delta.z,
        };
        proof {
            assert(!horz0.is_zero());
            assert(!vert0.is_zero());
        }
        let horz_basis: Direction = horz0.get_norm();
        let vert_basis: Direction = vert0.get_norm();

        let two_r: i128 = 2 * (r as i128) * (SCALE as i128);
        let frac_r: i64 = (tdiv128(two_r, self.resolution.0 as i128) - SCALE as i128) as i64;
        let horz_delta: i64 = fp_mul(self.camera_angle, frac_r);

        let aspect: i64 = tdiv128(
            (self.resolution.1 as i128) * (SCALE as i128),
            self.resolution.0 as i128,
        ) as i64;
        let vert_cam_angle: i64 = fp_mul(self.camera_angle, aspect);
        let two_c: i128 = 2 * (c as i128) * (SCALE as i128);
        let frac_c: i64 = (SCALE as i128 - tdiv128(two_c, self.resolution.1 as i128)) as i64;
        let vert_delta: i64 = fp_mul(vert_cam_angle, frac_c);

        let h: Direction = horz_basis.scale(horz_delta);
        let v: Direction = vert_basis.scale(vert_delta);
        proof {
            if self.camera_angle == 0 {
                crate::fixed::lemma_fp_mul_zero(frac_r as int);
                crate::fixed::lemma_fp_mul_zero(aspect as int);
                crate::fixed::lemma_fp_mul_zero(frac_c as int);
                crate::fixed::lemma_fp_mul_zero(horz_basis.x as int);
                crate::fixed::lemma_fp_mul_zero(horz_basis.y as int);
                crate::fixed::lemma_fp_mul_zero(horz_basis.z as int);
                crate::fixed::lemma_fp_mul_zero(vert_basis.x as int);
                crate::fixed::lemma_fp_mul_zero(vert_basis.y as int);
                crate::fixed::lemma_fp_mul_zero(vert_basis.z as int);
            }
        }
        let p: Point = self.position.add(pos_delta.add(h).add(v).to_point());

        let d: Direction = if h.x == 0 && h.y == 0 && h.z == 0 && v.x == 0 && v.y == 0 && v.z
            == 0 {
            self.view_direction
        } else {
            let diff: Direction = p.sub(self.position).to_direction();
            if diff.x == 0 && diff.y == 0 && diff.z == 0 {
                self.view_direction
            } else {
                diff.get_norm()
            }
        };
        (p, d)
    }

    /// The pixel resolution.
    pub fn get_resolution(&self) -> (res: (u32, u32))
        ensures
            res == self.resolution,
    {
        self.resolution
    }
}

} // verus!
