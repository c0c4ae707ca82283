//! The per-pixel trace state: stepping, reflection, scattering and the
//! no-hit sentinel.

use ray_marcher::color_data_types::Color;
use ray_marcher::ray::Ray;
use ray_marcher::scene_objects::SurfaceMaterial;
use ray_marcher::threed_data_types::{Direction, Point};
use ray_marcher::SCALE;

fn origin() -> Point {
    Point::new(0, 0, 0)
}

fn x_dir() -> Direction {
    Direction::new(SCALE, 0, 0)
}

#[test]
fn test_new() {
    let n_ray = Ray::new(origin(), x_dir());
    assert_eq!(*n_ray.get_position(), origin());
}

#[test]
fn test_step() {
    let step_size: i64 = 10 * SCALE;
    let mut n_ray = Ray::new(origin(), x_dir());
    n_ray.step(step_size);
    assert_eq!(*n_ray.get_position(), x_dir().scale(step_size).to_point());
}

#[test]
fn test_reflection() {
    let mut incoming = Ray::new(Point::new(0, 0, 0), Direction::new(SCALE, SCALE, 0).get_norm());
    let surf_norm = Direction::new(0, -SCALE, 0);
    incoming.reflect(&surf_norm, 10_000_000);
    assert_eq!(*incoming.get_direction(), Direction::new(SCALE, -SCALE, 0).get_norm());
}

#[test]
fn test_reflection_exact_components() {
    let mut incoming = Ray::new(origin(), Direction::new(SCALE, SCALE, 0).get_norm());
    incoming.reflect(&Direction::new(0, -SCALE, 0), 0);
    assert_eq!(*incoming.get_direction(), Direction::new(707_106_781, -707_106_781, 0));
    assert_eq!(incoming.get_num_hits(), 1);
}

#[test]
fn test_new_ray_reports_white_sentinel() {
    let r = Ray::new(origin(), x_dir());
    assert_eq!(r.get_num_hits(), 0);
    assert_eq!(r.get_color(), Color::new(SCALE, SCALE, SCALE));
}

#[test]
fn test_stopped_ray_does_not_step() {
    let mut r = Ray::new(origin(), x_dir());
    r.stop();
    assert!(r.has_stopped());
    r.step(5 * SCALE);
    assert_eq!(*r.get_position(), origin());
}

#[test]
fn test_scatter_mirror_is_pure_reflection() {
    // A fully reflective material ignores the random perturbation draws:
    // the direction reverses exactly and the position backs off along the
    // raw normal.
    let mut r = Ray::new(Point::new(9 * SCALE, 0, 0), x_dir());
    let normal = Direction::new(-SCALE, 0, 0);
    let mat = SurfaceMaterial { color: Color::new(SCALE, 0, 0), reflectivity: SCALE };
    r.scatter(&normal, &mat, 2_094_395_102, 1_000_000);
    assert_eq!(*r.get_direction(), Direction::new(-SCALE, 0, 0));
    assert_eq!(*r.get_position(), Point::new(9 * SCALE - 1_000_000, 0, 0));
    assert_eq!(r.get_num_hits(), 1);
}

#[test]
fn test_set_position_and_direction() {
    let mut r = Ray::new(origin(), x_dir());
    r.set_position(Point::new(1, 2, 3));
    r.set_direction(Direction::new(0, SCALE, 0));
    assert_eq!(*r.get_position(), Point::new(1, 2, 3));
    assert_eq!(*r.get_direction(), Direction::new(0, SCALE, 0));
}
