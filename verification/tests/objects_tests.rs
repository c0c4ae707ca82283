//! The sphere primitive and the scene: signed distances, finite-difference
//! surface normals and the nearest-object query.

use ray_marcher::scene::Scene;
use ray_marcher::scene_objects::objects::Sphere;
use ray_marcher::scene_objects::{SceneObject, SurfaceMaterial};
use ray_marcher::color_data_types::Color;
use ray_marcher::threed_data_types::{Direction, Point};
use ray_marcher::SCALE;

const EPS: i64 = 100_000;

fn unit_sphere() -> SceneObject {
    SceneObject::Sphere(Sphere::new(Point::new(0, 0, 0), SCALE, None))
}

#[test]
fn test_sphere_sdf_x() {
    let s = unit_sphere();
    let p = Point::new(2 * SCALE, 0, 0);
    assert_eq!(s.signed_distance(&p), SCALE);
}

#[test]
fn test_sphere_sdf_y() {
    let s = unit_sphere();
    let p = Point::new(0, 2 * SCALE, 0);
    assert_eq!(s.signed_distance(&p), SCALE);
}

#[test]
fn test_sphere_sdf_z() {
    let s = unit_sphere();
    let p = Point::new(0, 0, 2 * SCALE);
    assert_eq!(s.signed_distance(&p), SCALE);
}

#[test]
fn test_sphere_sdf_inner() {
    let s = unit_sphere();
    let p = Point::new(0, 0, 0);
    assert_eq!(s.signed_distance(&p), -SCALE);
}

#[test]
fn test_surface_normal_x() {
    let s = unit_sphere();
    let p = Point::new(SCALE, 0, 0);
    assert!(Direction::new(SCALE, 0, 0).sub(s.get_surface_normal(&p, EPS)).length() < 1_000_000);
}

#[test]
fn test_surface_normal_y() {
    let s = unit_sphere();
    let p = Point::new(0, SCALE, 0);
    assert!(Direction::new(0, SCALE, 0).sub(s.get_surface_normal(&p, EPS)).length() < 1_000_000);
}

#[test]
fn test_surface_normal_z() {
    let s = unit_sphere();
    let p = Point::new(0, 0, SCALE);
    assert!(Direction::new(0, 0, SCALE).sub(s.get_surface_normal(&p, EPS)).length() < 1_000_000);
}

#[test]
fn test_surface_normal_xy() {
    let s = unit_sphere();
    let p = Point::new(SCALE, SCALE, 0);
    assert!(
        Direction::new(SCALE, SCALE, 0).get_norm().sub(s.get_surface_normal(&p, EPS)).length()
            < 1_000_000
    );
}

#[test]
fn test_sphere_material_kept() {
    let mat = SurfaceMaterial { color: Color::new(0, 0, SCALE), reflectivity: SCALE / 2 };
    let s = Sphere::new(Point::new(1, 2, 3), 7, Some(mat));
    assert_eq!(s.get_surface_material(), mat);
    assert_eq!(*s.get_position(), Point::new(1, 2, 3));
}

#[test]
fn test_sphere_default_material() {
    let s = Sphere::new(Point::new(0, 0, 0), SCALE, None);
    let m = s.get_surface_material();
    assert_eq!(m.color.get_components(), (0, 0, 0));
    assert_eq!(m.reflectivity, SCALE);
}

#[test]
fn test_scene_empty_min_distance() {
    let scene = Scene::new();
    assert!(scene.get_min_distance(&Point::new(0, 0, 0)).is_none());
    assert!(scene.get_closest_object(&Point::new(0, 0, 0)).is_none());
}

#[test]
fn test_scene_min_distance_two_spheres() {
    let mut scene = Scene::new();
    scene.add_scene_object(SceneObject::Sphere(Sphere::new(
        Point::new(10 * SCALE, 0, 0),
        SCALE,
        None,
    )));
    scene.add_scene_object(SceneObject::Sphere(Sphere::new(
        Point::new(3 * SCALE, 0, 0),
        SCALE,
        None,
    )));
    let d = scene.get_min_distance(&Point::new(0, 0, 0)).unwrap();
    assert_eq!(d, 2 * SCALE);
}

#[test]
fn test_scene_closest_object_ties_to_first() {
    let near = SceneObject::Sphere(Sphere::new(Point::new(4 * SCALE, 0, 0), SCALE, None));
    let same = SceneObject::Sphere(Sphere::new(Point::new(-4 * SCALE, 0, 0), SCALE, None));
    let mut scene = Scene::new();
    scene.add_scene_object(near);
    scene.add_scene_object(same);
    let co = scene.get_closest_object(&Point::new(0, 0, 0)).unwrap();
    assert_eq!(co.distance, 3 * SCALE);
    assert_eq!(co.obj, near);
}

#[test]
fn test_scene_iter_orders_kept() {
    let a = SceneObject::Sphere(Sphere::new(Point::new(1, 0, 0), 1, None));
    let b = SceneObject::Sphere(Sphere::new(Point::new(2, 0, 0), 2, None));
    let mut scene = Scene::new();
    scene.add_scene_object(a);
    scene.add_scene_object(b);
    let objs = scene.iter();
    assert_eq!(objs.len(), 2);
    assert_eq!(objs[0], a);
    assert_eq!(objs[1], b);
}
