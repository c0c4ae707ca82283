//! Scene object abstraction: the surface material value and the closed
//! union of primitive shapes, dispatched by match, with the
//! finite-difference surface normal shared by every variant.

pub mod objects;

use vstd::prelude::*;

use crate::color_data_types::Color;
use crate::fixed::{spec_abs, spec_fp_div, spec_sat64, SCALE};
use crate::threed_data_types::{Direction, Point};

verus! {

/// An immutable surface description: a base color and a reflectivity
/// between zero (fully diffuse) and one unit (perfect mirror).
#[derive(Clone, Copy, Debug, PartialEq, Eq, Structural)]
pub struct SurfaceMaterial {
    pub color: Color,
    pub reflectivity: i64,
}

impl SurfaceMaterial {
    /// The color is a valid channel triple and the reflectivity lies
    /// between zero and one unit.
    pub open spec fn valid(self) -> bool {
        self.color.valid() && 0 <= self.reflectivity <= SCALE
    }

    /// The material a sphere gets when none is supplied: black and fully
    /// reflective.
    pub fn default_material() -> (m: Self)
        ensures
            m.color.r == 0 && m.color.g == 0 && m.color.b == 0,
            m.reflectivity == SCALE,
            m.valid(),
    {
        SurfaceMaterial { color: Color::new(0, 0, 0), reflectivity: SCALE }
    }
}

/// The closed union of scene primitives; a signed-distance query, a surface
/// normal and a material lookup are dispatched over the variants.
#[derive(Clone, Copy, Debug, PartialEq, Eq, Structural)]
pub enum SceneObject {
    Sphere(objects::Sphere),
}

impl SceneObject {
    /// The held primitive is well formed.
    pub open spec fn valid(self) -> bool {
        match self {
            SceneObject::Sphere(s) => s.valid(),
        }
    }

    /// The surface material of the primitive, in specification terms.
    pub open spec fn spec_material(self) -> SurfaceMaterial {
        match self {
            SceneObject::Sphere(s) => s.material,
        }
    }

    /// The signed distance of the object's surface from a point: negative
    /// inside the surface, zero on it, positive outside.
    pub open spec fn spec_signed_distance(self, p: Point) -> int {
        match self {
            SceneObject::Sphere(s) => s.spec_signed_distance(p),
        }
    }

    /// The finite-difference gradient of the signed distance at `p` with
    /// step `epsilon`: each axis offset changes the distance by roughly the
    /// matching normal component times `epsilon`.
    pub open spec fn spec_surface_gradient(self, p: Point, epsilon: int) -> Direction {
        let center = self.spec_signed_distance(p);
        let x_off = self.spec_signed_distance(
            (Point {
                x: spec_sat64(p.x + epsilon) as i64,
                y: p.y,
                z: p.z,
            }),
        );
        let y_off = self.spec_signed_distance(
            (Point {
                x: p.x,
                y: spec_sat64(p.y + epsilon) as i64,
                z: p.z,
            }),
        );
        let z_off = self.spec_signed_distance(
            (Point {
                x: p.x,
                y: p.y,
                z: spec_sat64(p.z + epsilon) as i64,
            }),
        );
        (Direction {
            x: spec_fp_div(spec_sat64(x_off - center), epsilon) as i64,
            y: spec_fp_div(spec_sat64(y_off - center), epsilon) as i64,
            z: spec_fp_div(spec_sat64(z_off - center), epsilon) as i64,
        })
    }

    /// The surface normal at `p`: the finite-difference gradient with step
    /// `epsilon`, normalized; when rounding collapses the gradient to zero
    /// the degenerate zero vector is passed through.
    pub open spec fn spec_surface_normal(self, p: Point, epsilon: int) -> Direction {
        let g = self.spec_surface_gradient(p, epsilon);
        if g.is_zero() {
            g
        } else {
            g.spec_norm()
        }
    }

    /// The signed distance between the object's surface and a point.
    pub fn signed_distance(&self, p: &Point) -> (r: i64)
        requires
            self.valid(),
        ensures
            r as int == self.spec_signed_distance(*p),
    {
        match self {
            SceneObject::Sphere(s) => s.signed_distance(p),
        }
    }

    /// The anchor position of the primitive.
    pub fn get_position(&self) -> (r: &Point)
        ensures
            (match self {
                SceneObject::Sphere(s) => *r == s.position,
            }),
    {
        match self {
            SceneObject::Sphere(s) => s.get_position(),
        }
    }

    /// The surface normal at `p`, found by forward finite differencing of
    /// the signed distance along each axis with step `epsilon` and
    /// normalizing the result; a gradient that rounds to zero is returned
    /// as the zero vector for the caller to handle.
    pub fn get_surface_normal(&self, p: &Point, epsilon: i64) -> (n: Direction)
        requires
            self.valid(),
            epsilon > 0,
        ensures
            n == self.spec_surface_normal(*p, epsilon as int),
            n.is_zero() <==> self.spec_surface_gradient(*p, epsilon as int).is_zero(),
    {
        let center: i64 = self.signed_distance(p);
        let px = Point { x: crate::fixed::sat_add64(p.x, epsilon), y: p.y, z: p.z };
        let py = Point { x: p.x, y: crate::fixed::sat_add64(p.y, epsilon), z: p.z };
        let pz = Point { x: p.x, y: p.y, z: crate::fixed::sat_add64(p.z, epsilon) };
        let x_off: i64 = self.signed_distance(&px);
        let y_off: i64 = self.signed_distance(&py);
        let z_off: i64 = self.signed_distance(&pz);
        let diff = Point {
            x: crate::fixed::sat_sub64(x_off, center),
            y: crate::fixed::sat_sub64(y_off, center),
            z: crate::fixed::sat_sub64(z_off, center),
        };
        let g: Direction = diff.to_direction().scale_div(epsilon);
        if g.x == 0 && g.y == 0 && g.z == 0 {
            g
        } else {
            let n = g.get_norm();
            proof {
                lemma_norm_of_nonzero_is_nonzero(g);
            }
            n
        }
    }

    /// The surface material of the primitive.
    pub fn get_surface_material(&self) -> (m: SurfaceMaterial)
        ensures
            m == self.spec_material(),
            self.valid() ==> m.valid(),
    {
        match self {
            SceneObject::Sphere(s) => s.get_surface_material(),
        }
    }
}

/// Normalizing a nonzero displacement cannot round it to zero: the
/// length is below twice the largest component's magnitude, so that
/// component keeps at least half a unit after the rescale.
proof fn lemma_norm_of_nonzero_is_nonzero(g: Direction)
    requires
        !g.is_zero(),
    ensures
        !g.spec_norm().is_zero(),
{
    let x = g.x as int;
    let y = g.y as int;
    let z = g.z as int;
    let m = if spec_abs(x) >= spec_abs(y) && spec_abs(x) >= spec_abs(z) {
        spec_abs(x)
    } else if spec_abs(y) >= spec_abs(z) {
        spec_abs(y)
    } else {
        spec_abs(z)
    };
    assert(m >= 1);
    let sq = crate::threed_data_types::spec_len_sq(x, y, z);
    assert(0 <= sq <= 3 * m * m) by (nonlinear_arith)
        requires
            sq == x * x + y * y + z * z,
            spec_abs(x) <= m,
            spec_abs(y) <= m,
            spec_abs(z) <= m,
            m == spec_abs(x) || m == spec_abs(y) || m == spec_abs(z),
    ;
    crate::fixed::lemma_isqrt_bounds(sq);
    let root = crate::fixed::spec_isqrt(sq);
    assert(root < 2 * m) by (nonlinear_arith)
        requires
            root >= 0,
            root * root <= sq,
            sq <= 3 * m * m,
            m >= 1,
    ;
    let len = g.spec_length();
    assert(len <= root && len >= 1) by {
        g.lemma_length_zero_iff_zero();
    };
    if spec_abs(x) == m {
        lemma_big_component_survives(x, len, m);
        assert(g.spec_norm().x != 0);
    } else if spec_abs(y) == m {
        lemma_big_component_survives(y, len, m);
        assert(g.spec_norm().y != 0);
    } else {
        lemma_big_component_survives(z, len, m);
        assert(g.spec_norm().z != 0);
    }
}

/// A component whose magnitude is more than half the length keeps at
/// least one fixed-point step after the rescale by the length.
proof fn lemma_big_component_survives(c: int, len: int, m: int)
    requires
        spec_abs(c) == m,
        m >= 1,
        1 <= len < 2 * m,
    ensures
        spec_fp_div(c, len) != 0,
{
    let q = (spec_abs(c) * (SCALE as int)) / spec_abs(len);
    assert(q >= 1) by (nonlinear_arith)
        requires
            q == (m * (SCALE as int)) / len,
            m >= 1,
            1 <= len < 2 * m,
    ;
}

} // verus!
