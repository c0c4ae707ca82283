//! Three-component vectors in fixed-point: absolute positions (`Point`) and
//! displacements or orientations (`Direction`), with saturating component
//! arithmetic, Euclidean length, normalization, dot product and axis
//! rotations — each operation pinned to an exact specification.

use vstd::prelude::*;

use crate::fixed::{
    abs_u128, fp_div, fp_mul, fp_sin, fp_cos, isqrt_u128, lemma_isqrt_bounds, sat_add64, sat_sub64,
    sat64, spec_abs, spec_fp_div, spec_fp_mul, spec_fp_sin, spec_fp_cos, spec_isqrt, spec_sat64,
    spec_tdiv, tdiv128, SCALE,
};

verus! {

/// An absolute position in space.
#[derive(Clone, Copy, Debug, PartialEq, Eq, Structural)]
pub struct Point {
    pub x: i64,
    pub y: i64,
    pub z: i64,
}

/// A displacement or an orientation in space.
#[derive(Clone, Copy, Debug, PartialEq, Eq, Structural)]
pub struct Direction {
    pub x: i64,
    pub y: i64,
    pub z: i64,
}

/// The exact sum of the squares of three components.
pub open spec fn spec_len_sq(x: int, y: int, z: int) -> int {
    x * x + y * y + z * z
}

/// The saturated integer square root of the sum of squares: the fixed-point
/// Euclidean length of a component triple.
pub open spec fn spec_vlen(x: int, y: int, z: int) -> int {
    spec_sat64(spec_isqrt(spec_len_sq(x, y, z)))
}

/// The saturated Euclidean length of a component triple, computed through
/// the verified integer square root.
fn vlen(x: i64, y: i64, z: i64) -> (r: i64)
    ensures
        r as int == spec_vlen(x as int, y as int, z as int),
        r >= 0,
{
    let ax: u128 = abs_u128(x);
    let ay: u128 = abs_u128(y);
    let az: u128 = abs_u128(z);
    proof {
        assert(ax as int * (ax as int) == x as int * (x as int) && ax as int * (ax as int)
            <= 0x8000000000000000 * 0x8000000000000000) by (nonlinear_arith)
            requires
                ax as int == spec_abs(x as int),
                -0x8000000000000000 <= x as int <= 0x7fffffffffffffff,
        ;
        assert(ay as int * (ay as int) == y as int * (y as int) && ay as int * (ay as int)
            <= 0x8000000000000000 * 0x8000000000000000) by (nonlinear_arith)
            requires
                ay as int == spec_abs(y as int),
                -0x8000000000000000 <= y as int <= 0x7fffffffffffffff,
        ;
        assert(az as int * (az as int) == z as int * (z as int) && az as int * (az as int)
            <= 0x8000000000000000 * 0x8000000000000000) by (nonlinear_arith)
            requires
                az as int == spec_abs(z as int),
                -0x8000000000000000 <= z as int <= 0x7fffffffffffffff,
        ;
    }
    let sq: u128 = ax * ax + ay * ay + az * az;
    let root: u128 = isqrt_u128(sq);
    if root > i64::MAX as u128 {
        i64::MAX
    } else {
        root as i64
    }
}

impl Point {
    /// The component triple as a specification value.
    pub open spec fn spec_new(x: int, y: int, z: int) -> Point {
        Point { x: x as i64, y: y as i64, z: z as i64 }
    }

    /// The componentwise saturating sum, in specification terms.
    pub open spec fn spec_add(self, rhs: Point) -> Point {
        (Point {
            x: spec_sat64(self.x + rhs.x) as i64,
            y: spec_sat64(self.y + rhs.y) as i64,
            z: spec_sat64(self.z + rhs.z) as i64,
        })
    }

    /// The componentwise saturating difference, in specification terms.
    pub open spec fn spec_sub(self, rhs: Point) -> Point {
        (Point {
            x: spec_sat64(self.x - rhs.x) as i64,
            y: spec_sat64(self.y - rhs.y) as i64,
            z: spec_sat64(self.z - rhs.z) as i64,
        })
    }

    /// The componentwise fixed-point scaling, in specification terms.
    pub open spec fn spec_scale(self, k: int) -> Point {
        (Point {
            x: spec_fp_mul(self.x as int, k) as i64,
            y: spec_fp_mul(self.y as int, k) as i64,
            z: spec_fp_mul(self.z as int, k) as i64,
        })
    }

    /// The exact distance specification: length of the saturated difference.
    pub open spec fn spec_distance_to(self, p: Point) -> int {
        spec_vlen(
            spec_sat64(p.x - self.x),
            spec_sat64(p.y - self.y),
            spec_sat64(p.z - self.z),
        )
    }

    pub fn new(x: i64, y: i64, z: i64) -> (r: Self)
        ensures
            r.x == x && r.y == y && r.z == z,
    {
        Self { x, y, z }
    }

    /// Reinterpret the position as a displacement from the origin.
    pub fn to_direction(self) -> (r: Direction)
        ensures
            r.x == self.x && r.y == self.y && r.z == self.z,
    {
        Direction { x: self.x, y: self.y, z: self.z }
    }

    /// The Euclidean distance to another point.
    pub fn distance_to(&self, p: &Self) -> (r: i64)
        ensures
            r as int == self.spec_distance_to(*p),
            r >= 0,
    {
        let dx: i64 = sat_sub64(p.x, self.x);
        let dy: i64 = sat_sub64(p.y, self.y);
        let dz: i64 = sat_sub64(p.z, self.z);
        vlen(dx, dy, dz)
    }

    /// Componentwise saturating sum.
    pub fn add(self, rhs: Self) -> (r: Self)
        ensures
            r == self.spec_add(rhs),
            r.x as int == spec_sat64(self.x + rhs.x),
            r.y as int == spec_sat64(self.y + rhs.y),
            r.z as int == spec_sat64(self.z + rhs.z),
    {
        Self { x: sat_add64(self.x, rhs.x), y: sat_add64(self.y, rhs.y), z: sat_add64(
            self.z,
            rhs.z,
        ) }
    }

    /// Componentwise saturating difference.
    pub fn sub(self, rhs: Self) -> (r: Self)
        ensures
            r == self.spec_sub(rhs),
            r.x as int == spec_sat64(self.x - rhs.x),
            r.y as int == spec_sat64(self.y - rhs.y),
            r.z as int == spec_sat64(self.z - rhs.z),
    {
        Self { x: sat_sub64(self.x, rhs.x), y: sat_sub64(self.y, rhs.y), z: sat_sub64(
            self.z,
            rhs.z,
        ) }
    }

    /// Scaling by a fixed-point factor.
    pub fn scale(self, k: i64) -> (r: Self)
        ensures
            r == self.spec_scale(k as int),
            r.x as int == spec_fp_mul(self.x as int, k as int),
            r.y as int == spec_fp_mul(self.y as int, k as int),
            r.z as int == spec_fp_mul(self.z as int, k as int),
    {
        Self { x: fp_mul(self.x, k), y: fp_mul(self.y, k), z: fp_mul(self.z, k) }
    }

    /// Rescale the components so the distance to the origin is one unit.
    /// A degenerate all-zero position is ruled out by precondition.
    pub fn normalize(&mut self) -> (r: Self)
        requires
            !(old(self).x == 0 && old(self).y == 0 && old(self).z == 0),
        ensures
            *final(self) == old(self).to_direction_spec().spec_norm().to_point_spec(),
            r == *final(self),
    {
        let d = Direction { x: self.x, y: self.y, z: self.z }.get_norm();
        *self = Point { x: d.x, y: d.y, z: d.z };
        *self
    }

    /// The position reinterpreted as a displacement, in specification terms.
    pub open spec fn to_direction_spec(self) -> Direction {
        Direction { x: self.x, y: self.y, z: self.z }
    }
}

impl Direction {
    /// The displacement reinterpreted as a position, in specification terms.
    pub open spec fn to_point_spec(self) -> Point {
        Point { x: self.x, y: self.y, z: self.z }
    }

    /// The fixed-point Euclidean length of the displacement.
    pub open spec fn spec_length(self) -> int {
        spec_vlen(self.x as int, self.y as int, self.z as int)
    }

    /// Whether the displacement is the degenerate zero vector.
    pub open spec fn is_zero(self) -> bool {
        self.x == 0 && self.y == 0 && self.z == 0
    }

    /// The normalized displacement: each component rescaled by the length.
    pub open spec fn spec_norm(self) -> Direction {
        (Direction {
            x: spec_fp_div(self.x as int, self.spec_length()) as i64,
            y: spec_fp_div(self.y as int, self.spec_length()) as i64,
            z: spec_fp_div(self.z as int, self.spec_length()) as i64,
        })
    }

    /// The componentwise saturating sum, in specification terms.
    pub open spec fn spec_add(self, rhs: Direction) -> Direction {
        (Direction {
            x: spec_sat64(self.x + rhs.x) as i64,
            y: spec_sat64(self.y + rhs.y) as i64,
            z: spec_sat64(self.z + rhs.z) as i64,
        })
    }

    /// The componentwise saturating difference, in specification terms.
    pub open spec fn spec_sub(self, rhs: Direction) -> Direction {
        (Direction {
            x: spec_sat64(self.x - rhs.x) as i64,
            y: spec_sat64(self.y - rhs.y) as i64,
            z: spec_sat64(self.z - rhs.z) as i64,
        })
    }

    /// The componentwise fixed-point scaling, in specification terms.
    pub open spec fn spec_scale(self, k: int) -> Direction {
        (Direction {
            x: spec_fp_mul(self.x as int, k) as i64,
            y: spec_fp_mul(self.y as int, k) as i64,
            z: spec_fp_mul(self.z as int, k) as i64,
        })
    }

    /// The saturated fixed-point dot product of two displacements.
    pub open spec fn spec_dot(d1: Direction, d2: Direction) -> int {
        spec_sat64(
            spec_fp_mul(d1.x as int, d2.x as int) + spec_fp_mul(d1.y as int, d2.y as int)
                + spec_fp_mul(d1.z as int, d2.z as int),
        )
    }

    pub fn new(x: i64, y: i64, z: i64) -> (r: Self)
        ensures
            r.x == x && r.y == y && r.z == z,
    {
        Self { x, y, z }
    }

    /// The Euclidean length of the displacement.
    pub fn length(&self) -> (r: i64)
        ensures
            r as int == self.spec_length(),
            r >= 0,
    {
        vlen(self.x, self.y, self.z)
    }

    /// A zero length happens exactly for the zero vector.
    pub proof fn lemma_length_zero_iff_zero(self)
        ensures
            self.spec_length() == 0 <==> self.is_zero(),
    {
        let x = self.x as int;
        let y = self.y as int;
        let z = self.z as int;
        let sq = spec_len_sq(x, y, z);
        assert(x * x >= 0 && y * y >= 0 && z * z >= 0 && (x != 0 ==> x * x >= 1) && (y != 0
            ==> y * y >= 1) && (z != 0 ==> z * z >= 1)) by (nonlinear_arith);
        lemma_isqrt_bounds(sq);
        if sq >= 1 && spec_isqrt(sq) == 0 {
            assert(sq < (spec_isqrt(sq) + 1) * (spec_isqrt(sq) + 1));
            assert(sq < 1) by (nonlinear_arith)
                requires
                    sq < (0 + 1) * (0 + 1),
            ;
        }
    }

    /// The normalized copy of the displacement; the zero vector is ruled out
    /// by precondition.
    pub fn get_norm(&self) -> (r: Self)
        requires
            !self.is_zero(),
        ensures
            r == self.spec_norm(),
    {
        let len: i64 = self.length();
        proof {
            self.lemma_length_zero_iff_zero();
        }
        Self { x: fp_div(self.x, len), y: fp_div(self.y, len), z: fp_div(self.z, len) }
    }

    /// Reinterpret the displacement as a position.
    pub fn to_point(self) -> (r: Point)
        ensures
            r == self.to_point_spec(),
    {
        Point { x: self.x, y: self.y, z: self.z }
    }

    /// The dot product of two displacements.
    pub fn get_dot(d1: &Self, d2: &Self) -> (r: i64)
        ensures
            r as int == Self::spec_dot(*d1, *d2),
    {
        let px: i64 = fp_mul(d1.x, d2.x);
        let py: i64 = fp_mul(d1.y, d2.y);
        let pz: i64 = fp_mul(d1.z, d2.z);
        sat64(px as i128 + py as i128 + pz as i128)
    }

    /// Componentwise saturating sum.
    pub fn add(self, rhs: Self) -> (r: Self)
        ensures
            r == self.spec_add(rhs),
            r.x as int == spec_sat64(self.x + rhs.x),
            r.y as int == spec_sat64(self.y + rhs.y),
            r.z as int == spec_sat64(self.z + rhs.z),
    {
        Self { x: sat_add64(self.x, rhs.x), y: sat_add64(self.y, rhs.y), z: sat_add64(
            self.z,
            rhs.z,
        ) }
    }

    /// Componentwise saturating difference.
    pub fn sub(self, rhs: Self) -> (r: Self)
        ensures
            r == self.spec_sub(rhs),
            r.x as int == spec_sat64(self.x - rhs.x),
            r.y as int == spec_sat64(self.y - rhs.y),
            r.z as int == spec_sat64(self.z - rhs.z),
    {
        Self { x: sat_sub64(self.x, rhs.x), y: sat_sub64(self.y, rhs.y), z: sat_sub64(
            self.z,
            rhs.z,
        ) }
    }

    /// Scaling by a fixed-point factor.
    pub fn scale(self, k: i64) -> (r: Self)
        ensures
            r == self.spec_scale(k as int),
            r.x as int == spec_fp_mul(self.x as int, k as int),
            r.y as int == spec_fp_mul(self.y as int, k as int),
            r.z as int == spec_fp_mul(self.z as int, k as int),
    {
        Self { x: fp_mul(self.x, k), y: fp_mul(self.y, k), z: fp_mul(self.z, k) }
    }

    /// Division of every component by a fixed-point factor.
    pub fn scale_div(self, k: i64) -> (r: Self)
        requires
            k != 0,
        ensures
            r.x as int == spec_fp_div(self.x as int, k as int),
            r.y as int == spec_fp_div(self.y as int, k as int),
            r.z as int == spec_fp_div(self.z as int, k as int),
    {
        Self { x: fp_div(self.x, k), y: fp_div(self.y, k), z: fp_div(self.z, k) }
    }

    /// The displacement rotated around the vertical axis by a fixed-point
    /// angle: the plane components are recombined through sine and cosine,
    /// so a displacement lying on the axis itself is left unchanged.
    pub open spec fn spec_rotate_z(self, around_z: int) -> Direction {
        let s = spec_fp_sin(around_z);
        let c = spec_fp_cos(around_z);
        (Direction {
            x: spec_sat64(spec_tdiv(self.x * c - self.y * s, SCALE as int)) as i64,
            y: spec_sat64(spec_tdiv(self.x * s + self.y * c, SCALE as int)) as i64,
            z: self.z,
        })
    }

    /// The displacement rotated around the second horizontal axis.
    pub open spec fn spec_rotate_y(self, around_y: int) -> Direction {
        let s = spec_fp_sin(around_y);
        let c = spec_fp_cos(around_y);
        (Direction {
            x: spec_sat64(spec_tdiv(self.x * c + self.z * s, SCALE as int)) as i64,
            y: self.y,
            z: spec_sat64(spec_tdiv(self.z * c - self.x * s, SCALE as int)) as i64,
        })
    }

    /// Both rotations applied in order.
    pub open spec fn spec_rotate(self, around_z: int, around_y: int) -> Direction {
        self.spec_rotate_z(around_z).spec_rotate_y(around_y)
    }

    /// Rotate the displacement in place around the vertical axis.
    pub fn rotate_vector_around_z(&mut self, around_z: i64)
        ensures
            *final(self) == old(self).spec_rotate_z(around_z as int),
    {
        let s: i64 = fp_sin(around_z);
        let c: i64 = fp_cos(around_z);
        proof {
            lemma_rotation_products_bounded(self.x as int, self.y as int, s as int, c as int);
        }
        let nx: i128 = self.x as i128 * (c as i128) - self.y as i128 * (s as i128);
        let ny: i128 = self.x as i128 * (s as i128) + self.y as i128 * (c as i128);
        self.x = sat64(tdiv128(nx, SCALE as i128));
        self.y = sat64(tdiv128(ny, SCALE as i128));
    }

    /// Rotate the displacement in place around the second horizontal axis.
    pub fn rotate_vector_around_y(&mut self, around_y: i64)
        ensures
            *final(self) == old(self).spec_rotate_y(around_y as int),
    {
        let s: i64 = fp_sin(around_y);
        let c: i64 = fp_cos(around_y);
        proof {
            lemma_rotation_products_bounded(self.x as int, self.z as int, s as int, c as int);
        }
        let nx: i128 = self.x as i128 * (c as i128) + self.z as i128 * (s as i128);
        let nz: i128 = self.z as i128 * (c as i128) - self.x as i128 * (s as i128);
        self.x = sat64(tdiv128(nx, SCALE as i128));
        self.z = sat64(tdiv128(nz, SCALE as i128));
    }

    /// Rotate the displacement in place around both axes, vertical first.
    pub fn rotate_vector(&mut self, around_z: i64, around_y: i64)
        ensures
            *final(self) == old(self).spec_rotate(around_z as int, around_y as int),
    {
        self.rotate_vector_around_z(around_z);
        self.rotate_vector_around_y(around_y);
    }

    /// Normalize the displacement in place; the zero vector is ruled out by
    /// precondition.
    pub fn set_norm(&mut self)
        requires
            !old(self).is_zero(),
        ensures
            *final(self) == old(self).spec_norm(),
    {
        *self = self.get_norm();
    }
}

/// The products inside a rotation stay far inside the wide intermediate
/// range, because sine and cosine are clamped to one unit.
proof fn lemma_rotation_products_bounded(a: int, b: int, s: int, c: int)
    requires
        -0x8000000000000000 <= a <= 0x7fffffffffffffff,
        -0x8000000000000000 <= b <= 0x7fffffffffffffff,
        -(SCALE as int) <= s <= SCALE as int,
        -(SCALE as int) <= c <= SCALE as int,
    ensures
        spec_abs(a * c) <= 0x8000000000000000 * (SCALE as int),
        spec_abs(b * s) <= 0x8000000000000000 * (SCALE as int),
        spec_abs(a * s) <= 0x8000000000000000 * (SCALE as int),
        spec_abs(b * c) <= 0x8000000000000000 * (SCALE as int),
{
    assert(spec_abs(a * c) <= 0x8000000000000000 * (SCALE as int) && spec_abs(b * s)
        <= 0x8000000000000000 * (SCALE as int) && spec_abs(a * s) <= 0x8000000000000000 * (
    SCALE as int) && spec_abs(b * c) <= 0x8000000000000000 * (SCALE as int)) by (nonlinear_arith)
        requires
            -0x8000000000000000 <= a <= 0x7fffffffffffffff,
            -0x8000000000000000 <= b <= 0x7fffffffffffffff,
            -(SCALE as int) <= s <= SCALE as int,
            -(SCALE as int) <= c <= SCALE as int,
    ;
}

} // verus!
