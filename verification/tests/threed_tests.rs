//! Vector algebra: lengths, normalization, distances and axis rotations,
//! in fixed-point units of one billionth.

use ray_marcher::threed_data_types::{Direction, Point};
use ray_marcher::SCALE;

const ROT_90: i64 = 1_570_796_327;

#[test]
fn test_direction_length() {
    let dir = Direction::new(SCALE, SCALE, 0);
    assert_eq!(dir.length(), 1_414_213_562);
}

#[test]
fn test_normalize_single_axis_len() {
    let dir = Direction::new(2 * SCALE, 0, 0);
    assert_eq!(dir.get_norm().length(), SCALE);
}

#[test]
fn test_normalize_single_axis_dot() {
    let dir = Direction::new(2 * SCALE, 0, 0);
    assert_eq!(Direction::get_dot(&dir.get_norm(), &dir), dir.length());
}

#[test]
fn test_normalize_double_axis_len() {
    let dir = Direction::new(SCALE, SCALE, 0);
    assert!((SCALE - dir.get_norm().length()).abs() < 100_000);
}

#[test]
fn test_normalize_double_axis_dot() {
    let dir = Direction::new(2 * SCALE, SCALE, 0);
    // The dot of a vector with its own normalization reproduces the length
    // up to the fixed-point truncation of the normalized components.
    assert!((Direction::get_dot(&dir.get_norm(), &dir) - dir.length()).abs() <= 2);
}

#[test]
fn test_point_distance_single_axis() {
    let dir1 = Point::new(SCALE, 0, 0);
    let dir2 = Point::new(-SCALE, 0, 0);
    assert_eq!(dir1.distance_to(&dir2).abs(), 2 * SCALE);
}

#[test]
fn test_point_distance_double_axis() {
    let dir1 = Point::new(SCALE, SCALE, 0);
    let dir2 = Point::new(-SCALE, -SCALE, 0);
    let expected_dist: i64 = 2_828_427_124;
    assert!((expected_dist - dir1.distance_to(&dir2).abs()).abs() < 100_000);
}

#[test]
fn test_rotation_90_degrees_around_z() {
    let mut dir = Direction::new(SCALE, 0, 0);
    dir.rotate_vector_around_z(ROT_90);
    println!("{:?}", dir);
    assert!(dir.sub(Direction::new(0, SCALE, 0)).length() < 100_000);
}

#[test]
fn test_rotation_around_z_on_z() {
    let mut dir = Direction::new(0, 0, SCALE);
    dir.rotate_vector_around_z(ROT_90);
    println!("{:?}", dir);
    assert!(dir.sub(Direction::new(0, 0, SCALE)).length() < 100_000);
}

#[test]
fn test_rotation_90_degrees_around_y() {
    let mut dir = Direction::new(SCALE, 0, 0);
    dir.rotate_vector_around_y(ROT_90);
    println!("{:?}", dir);
    assert!(dir.sub(Direction::new(0, 0, -SCALE)).length() < 100_000);
}

#[test]
fn test_rotation_around_y_on_y() {
    let mut dir = Direction::new(0, SCALE, 0);
    dir.rotate_vector_around_y(ROT_90);
    println!("{:?}", dir);
    assert!(dir.sub(Direction::new(0, SCALE, 0)).length() < 100_000);
}

#[test]
fn test_rotation_90_degrees_x_y() {
    let mut dir = Direction::new(SCALE, 0, 0);
    dir.rotate_vector(ROT_90, ROT_90);
    println!("{:?}", dir);
    assert!(dir.sub(Direction::new(0, SCALE, 0)).length() < 100_000);
}

#[test]
fn test_rotation_360_degrees_round_trip() {
    let mut dir = Direction::new(700_000_000, -100_000_000, 50_000_000);
    dir.rotate_vector_around_z(4 * ROT_90);
    assert!(dir.sub(Direction::new(700_000_000, -100_000_000, 50_000_000)).length() < 100_000);
}

#[test]
fn test_set_norm_matches_get_norm() {
    let base = Direction::new(3 * SCALE, -4 * SCALE, 0);
    let mut d = base;
    d.set_norm();
    assert_eq!(d, base.get_norm());
    assert_eq!(d, Direction::new(600_000_000, -800_000_000, 0));
}

#[test]
fn test_point_normalize_matches_direction() {
    let mut p = Point::new(0, -2 * SCALE, 0);
    let r = p.normalize();
    assert_eq!(r, Point::new(0, -SCALE, 0));
    assert_eq!(p, Point::new(0, -SCALE, 0));
}
