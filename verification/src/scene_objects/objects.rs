//! The sphere primitive: a center, a nonnegative radius and a surface
//! material, with the exact signed-distance contract.

use vstd::prelude::*;

use crate::fixed::{
    lemma_isqrt_bounds, lemma_isqrt_monotone, lemma_isqrt_square, spec_abs, spec_fp_div,
    spec_isqrt, spec_sat64, spec_tdiv,
};
use crate::scene_objects::{SceneObject, SurfaceMaterial};
use crate::threed_data_types::{spec_len_sq, Point};

verus! {

/// A sphere-shaped scene primitive.
#[derive(Clone, Copy, Debug, PartialEq, Eq, Structural)]
pub struct Sphere {
    pub radius: i64,
    pub position: Point,
    pub material: SurfaceMaterial,
}

impl Sphere {
    /// The radius is nonnegative and the material well formed.
    pub open spec fn valid(self) -> bool {
        self.radius >= 0 && self.material.valid()
    }

    /// The signed distance of the sphere's surface from `p`: the distance
    /// from `p` to the center, less the radius.
    pub open spec fn spec_signed_distance(self, p: Point) -> int {
        p.spec_distance_to(self.position) - self.radius
    }

    /// A sphere at `pos` with the given radius; when no material is
    /// supplied the default one is used.
    pub fn new(pos: Point, radius: i64, sm: Option<SurfaceMaterial>) -> (s: Self)
        requires
            radius >= 0,
            (match sm {
                Some(m) => m.valid(),
                None => true,
            }),
        ensures
            s.position == pos,
            s.radius == radius,
            (match sm {
                Some(m) => s.material == m,
                None => s.material == SurfaceMaterial {
                    color: crate::color_data_types::Color { r: 0, g: 0, b: 0 },
                    reflectivity: crate::fixed::SCALE,
                },
            }),
            s.valid(),
    {
        let material = match sm {
            Some(m) => m,
            None => SurfaceMaterial::default_material(),
        };
        Sphere { radius, position: pos, material }
    }

    /// The signed distance of the sphere's surface from `p`, exactly the
    /// center distance less the radius.
    pub fn signed_distance(&self, p: &Point) -> (r: i64)
        requires
            self.valid(),
        ensures
            r as int == self.spec_signed_distance(*p),
            r as int == p.spec_distance_to(self.position) - self.radius,
    {
        let d: i64 = p.distance_to(&self.position);
        d - self.radius
    }

    /// The center of the sphere.
    pub fn get_position(&self) -> (r: &Point)
        ensures
            *r == self.position,
    {
        &self.position
    }

    /// The surface material of the sphere.
    pub fn get_surface_material(&self) -> (m: SurfaceMaterial)
        ensures
            m == self.material,
    {
        self.material
    }
}

/// At an axis-aligned surface point the finite-difference gradient agrees
/// with the analytic normal exactly along the axis, and its stray
/// components vanish linearly with the step: each is nonnegative and, once
/// scaled by twice the radius, stays below the step times one unit. The
/// normalized surface normal inherits the same linear bound on its stray
/// components while its axis component keeps at least half a unit — so the
/// finite-difference surface normal converges to the analytic normal as
/// the step shrinks.
pub proof fn lemma_sphere_axis_normal_bound(s: Sphere, eps: int)
    requires
        s.valid(),
        1 <= s.radius <= 1_000_000_000_000_000,
        spec_abs(s.position.x as int) <= 1_000_000_000_000_000,
        spec_abs(s.position.y as int) <= 1_000_000_000_000_000,
        spec_abs(s.position.z as int) <= 1_000_000_000_000_000,
        1 <= eps <= crate::fixed::SCALE as int,
    ensures
        ({
            let p = Point {
                x: (s.position.x + s.radius) as i64,
                y: s.position.y,
                z: s.position.z,
            };
            let n = SceneObject::Sphere(s).spec_surface_gradient(p, eps);
            let nn = SceneObject::Sphere(s).spec_surface_normal(p, eps);
            &&& n.x == crate::fixed::SCALE
            &&& 0 <= n.y
            &&& 2 * (s.radius as int) * (n.y as int) <= eps * (crate::fixed::SCALE as int)
            &&& n.z == n.y
            &&& nn.x as int >= (crate::fixed::SCALE as int) / 2
            &&& 0 <= nn.y <= n.y
            &&& 2 * (s.radius as int) * (nn.y as int) <= eps * (crate::fixed::SCALE as int)
            &&& nn.z == nn.y
        }),
{
    let sc = crate::fixed::SCALE as int;
    let q = s.position;
    let rr = s.radius as int;
    let p = Point { x: (q.x + s.radius) as i64, y: q.y, z: q.z };

    // The distance from the surface point itself is exactly the radius.
    lemma_isqrt_square(rr);
    assert(spec_sat64(q.x - p.x) == -rr);
    assert(spec_sat64(q.y - p.y) == 0);
    assert(spec_sat64(q.z - p.z) == 0);
    assert((-rr) * (-rr) + 0 * 0 + 0 * 0 == rr * rr) by (nonlinear_arith);
    assert(spec_len_sq(-rr, 0, 0) == rr * rr);
    assert(p.spec_distance_to(q) == rr);
    let center = SceneObject::Sphere(s).spec_signed_distance(p);
    assert(center == 0);

    // Along the axis the offset point is a further `eps` out exactly.
    let px = Point { x: spec_sat64(p.x + eps) as i64, y: p.y, z: p.z };
    lemma_isqrt_square(rr + eps);
    assert(spec_sat64(q.x - px.x) == -(rr + eps));
    assert((-(rr + eps)) * (-(rr + eps)) + 0 * 0 + 0 * 0 == (rr + eps) * (rr + eps))
        by (nonlinear_arith);
    assert(spec_len_sq(-(rr + eps), 0, 0) == (rr + eps) * (rr + eps));
    let x_off = SceneObject::Sphere(s).spec_signed_distance(px);
    assert(x_off == eps);
    assert(spec_tdiv(eps * sc, eps) == sc) by (nonlinear_arith)
        requires
            eps >= 1,
            sc >= 0,
    ;
    assert(spec_fp_div(eps, eps) == sc);

    // Across the axis the distance grows by at most the square of the
    // step over twice the radius.
    let py = Point { x: p.x, y: spec_sat64(p.y + eps) as i64, z: p.z };
    let sq = spec_len_sq(spec_sat64(q.x - py.x), spec_sat64(q.y - py.y), spec_sat64(q.z - py.z));
    assert(spec_sat64(q.x - py.x) == -rr);
    assert(spec_sat64(q.y - py.y) == -eps);
    assert(spec_sat64(q.z - py.z) == 0);
    assert((-rr) * (-rr) + (-eps) * (-eps) + 0 * 0 == rr * rr + eps * eps) by (nonlinear_arith);
    assert(sq == rr * rr + eps * eps);
    lemma_isqrt_bounds(sq);
    let d = spec_isqrt(sq);
    assert(rr * rr <= sq) by (nonlinear_arith)
        requires
            sq == rr * rr + eps * eps,
    ;
    lemma_isqrt_monotone(rr * rr, sq);
    assert(d >= rr);
    assert(d < rr + eps) by (nonlinear_arith)
        requires
            d >= 0,
            d * d <= rr * rr + eps * eps,
            rr >= 1,
            eps >= 1,
    ;
    let k = d - rr;
    assert(2 * rr * k <= eps * eps) by (nonlinear_arith)
        requires
            k == d - rr,
            d * d <= rr * rr + eps * eps,
            0 <= k,
            rr >= 1,
    ;
    assert(spec_sat64(d) == d);
    let y_off = SceneObject::Sphere(s).spec_signed_distance(py);
    assert(y_off == k);

    // The third axis gives the very same growth by symmetry.
    let pz = Point { x: p.x, y: p.y, z: spec_sat64(p.z + eps) as i64 };
    assert(spec_sat64(q.x - pz.x) == -rr);
    assert(spec_sat64(q.y - pz.y) == 0);
    assert(spec_sat64(q.z - pz.z) == -eps);
    assert((-rr) * (-rr) + 0 * 0 + (-eps) * (-eps) == rr * rr + eps * eps) by (nonlinear_arith);
    assert(spec_len_sq(-rr, 0, -eps) == sq);
    let z_off = SceneObject::Sphere(s).spec_signed_distance(pz);
    assert(z_off == k);

    // Dividing the cross-axis growth by the step keeps the linear bound.
    let comp = spec_fp_div(k, eps);
    assert(comp == spec_tdiv(k * sc, eps));
    assert((k * sc) / eps >= 0 && 2 * rr * ((k * sc) / eps) <= eps * sc) by (nonlinear_arith)
        requires
            0 <= k,
            2 * rr * k <= eps * eps,
            eps >= 1,
            rr >= 1,
            sc == 1_000_000_000,
    ;
    assert(spec_sat64(comp) == comp);

    // The normalized normal: its stray components only shrink under the
    // rescale by the length, and the axis component keeps half a unit.
    let g = SceneObject::Sphere(s).spec_surface_gradient(p, eps);
    assert(g.x as int == sc && g.y as int == comp && g.z as int == comp);
    assert(((k * sc) / eps) * eps + (k * sc) % eps == k * sc && 0 <= (k * sc) % eps) by {
        assert(k * sc >= 0) by (nonlinear_arith)
            requires
                k >= 0,
                sc >= 0,
        ;
        vstd::arithmetic::div_mod::lemma_fundamental_div_mod(k * sc, eps);
        vstd::arithmetic::div_mod::lemma_mod_division_less_than_divisor(k * sc, eps);
        assert(eps * ((k * sc) / eps) == ((k * sc) / eps) * eps) by (nonlinear_arith);
    };
    assert(comp < sc) by (nonlinear_arith)
        requires
            comp == (k * sc) / eps,
            ((k * sc) / eps) * eps <= k * sc,
            0 <= k < eps,
            eps >= 1,
            sc >= 1,
    ;
    assert(!g.is_zero());
    let gsq = spec_len_sq(sc, comp, comp);
    assert(sc * sc <= gsq < 4 * (sc * sc)) by (nonlinear_arith)
        requires
            gsq == sc * sc + comp * comp + comp * comp,
            0 <= comp < sc,
            sc >= 1,
    ;
    lemma_isqrt_bounds(gsq);
    lemma_isqrt_square(sc);
    lemma_isqrt_monotone(sc * sc, gsq);
    let root = spec_isqrt(gsq);
    assert(root < 2 * sc) by (nonlinear_arith)
        requires
            root >= 0,
            root * root <= gsq,
            gsq < 4 * (sc * sc),
            sc >= 1,
    ;
    let len = g.spec_length();
    assert(len == root && sc <= len < 2 * sc);
    let nn = g.spec_norm();

    // Axis component: dividing one unit squared by under two units leaves
    // at least half a unit.
    let qx = (sc * sc) / len;
    assert(len * qx + (sc * sc) % len == sc * sc && 0 <= (sc * sc) % len < len) by {
        vstd::arithmetic::div_mod::lemma_fundamental_div_mod(sc * sc, len);
        vstd::arithmetic::div_mod::lemma_mod_division_less_than_divisor(sc * sc, len);
    };
    assert(qx >= sc / 2 && qx <= sc) by (nonlinear_arith)
        requires
            qx == (sc * sc) / len,
            len * qx + (sc * sc) % len == sc * sc,
            0 <= (sc * sc) % len < len,
            sc <= len < 2 * sc,
            sc == 1_000_000_000,
    ;
    assert(nn.x as int == qx);

    // Stray components: a larger divisor only shrinks the quotient.
    let qy = (comp * sc) / len;
    assert(comp * sc >= 0) by (nonlinear_arith)
        requires
            comp >= 0,
            sc >= 0,
    ;
    vstd::arithmetic::div_mod::lemma_div_is_ordered_by_denominator(comp * sc, sc, len);
    assert((comp * sc) / sc == comp) by (nonlinear_arith)
        requires
            sc >= 1,
            comp >= 0,
    ;
    assert(0 <= qy <= comp) by {
        vstd::arithmetic::div_mod::lemma_div_pos_is_pos(comp * sc, len);
    };
    assert(2 * rr * qy <= 2 * rr * comp) by (nonlinear_arith)
        requires
            qy <= comp,
            rr >= 1,
    ;
    assert(nn.y as int == qy && nn.z as int == qy);
}

/// The sign of the sphere's distance tells where the point stands: zero
/// exactly on the surface, negative strictly inside, positive outside.
pub proof fn lemma_sphere_distance_sign(s: Sphere, p: Point)
    requires
        s.valid(),
    ensures
        p.spec_distance_to(s.position) == s.radius ==> s.spec_signed_distance(p) == 0,
        p.spec_distance_to(s.position) < s.radius ==> s.spec_signed_distance(p) < 0,
        p.spec_distance_to(s.position) > s.radius ==> s.spec_signed_distance(p) > 0,
{
}

} // verus!
