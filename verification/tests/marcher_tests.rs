//! The marching engine end to end: index mapping, a mirror sphere dead
//! ahead, and the empty scene.

use ray_marcher::camera::Camera;
use ray_marcher::color_data_types::Color;
use ray_marcher::marcher::{step_ray, MarcherHandler, MAX_DISTANCE};
use ray_marcher::ray::Ray;
use ray_marcher::scene::Scene;
use ray_marcher::scene_objects::objects::Sphere;
use ray_marcher::scene_objects::{SceneObject, SurfaceMaterial};
use ray_marcher::threed_data_types::{Direction, Point};
use ray_marcher::SCALE;

const DEG_1: i64 = 17_453_293;

fn origin() -> Point {
    Point::new(0, 0, 0)
}

fn x_dir() -> Direction {
    Direction::new(SCALE, 0, 0)
}

fn red_mirror_sphere(center_x: i64) -> SceneObject {
    SceneObject::Sphere(Sphere::new(
        Point::new(center_x, 0, 0),
        SCALE,
        Some(SurfaceMaterial { color: Color::new(SCALE, 0, 0), reflectivity: SCALE }),
    ))
}

#[test]
fn test_index_to_coords_r() {
    let (r, _c) = MarcherHandler::index_to_res_coords(100, 100, 2);
    assert_eq!(r, 2);
}

#[test]
fn test_index_to_coords_c() {
    let (_r, c) = MarcherHandler::index_to_res_coords(100, 100, 2);
    assert_eq!(c, 0);
}

#[test]
fn test_march_one_pixel() {
    let camera = Camera::new(origin(), x_dir(), SCALE / 10, 0, (1, 1));
    let mut marcher = MarcherHandler::new(100, MAX_DISTANCE, 1, camera);
    marcher.add_scene_object(red_mirror_sphere(10 * SCALE));
    marcher.march();
    let (r, _g, _b) = marcher.get_color(0, 0).get_u8_components();
    assert_eq!(r, 255 as u8);
}

#[test]
fn test_march_two_pixels() {
    let camera = Camera::new(origin(), x_dir(), SCALE / 10, DEG_1, (2, 1));
    let mut marcher = MarcherHandler::new(100, MAX_DISTANCE, 1, camera);
    marcher.add_scene_object(red_mirror_sphere(10 * SCALE));
    marcher.march();
    let (r, _g, _b) = marcher.get_color(0, 0).get_u8_components();
    assert_eq!(r, 255 as u8);
}

#[test]
fn test_march_one_pixel_exact_color() {
    // One genuine hit blends the red surface into the white start at the
    // fixed half ratio: full red, and the square root of a half elsewhere.
    let camera = Camera::new(origin(), x_dir(), SCALE / 10, 0, (1, 1));
    let mut marcher = MarcherHandler::new(100, MAX_DISTANCE, 1, camera);
    marcher.add_scene_object(red_mirror_sphere(10 * SCALE));
    marcher.march();
    let c = marcher.get_color(0, 0);
    assert_eq!(c.get_components(), (SCALE, 707_106_781, 707_106_781));
}

#[test]
fn test_march_empty_scene_all_white() {
    let camera = Camera::new(origin(), x_dir(), SCALE, DEG_1, (2, 2));
    let mut marcher = MarcherHandler::new(10, MAX_DISTANCE, 3, camera);
    marcher.march();
    for x in 0..2 {
        for y in 0..2 {
            let c = marcher.get_color(x, y);
            assert_eq!(c.get_components(), (SCALE, SCALE, SCALE));
            assert_eq!(c.get_u8_components(), (255, 255, 255));
        }
    }
}

#[test]
fn test_step_ray_counts_hit_on_surface() {
    // A ray standing exactly on the sphere's surface registers a hit in a
    // single tick: the hit counter leaves zero.
    let mut scene = Scene::new();
    scene.add_scene_object(red_mirror_sphere(10 * SCALE));
    let mut ray = Ray::new(Point::new(9 * SCALE, 0, 0), x_dir());
    step_ray(&mut ray, &scene, false, MAX_DISTANCE);
    assert!(ray.get_num_hits() > 0);
    assert_eq!(ray.get_color().get_components(), (SCALE, 707_106_781, 707_106_781));
}

#[test]
fn test_step_ray_advances_toward_sphere() {
    let mut scene = Scene::new();
    scene.add_scene_object(red_mirror_sphere(10 * SCALE));
    let mut ray = Ray::new(origin(), x_dir());
    step_ray(&mut ray, &scene, false, MAX_DISTANCE);
    // The scene distance was nine units, so the ray advanced exactly that.
    assert_eq!(*ray.get_position(), Point::new(9 * SCALE, 0, 0));
    assert_eq!(ray.get_num_hits(), 0);
    assert!(!ray.has_stopped());
}

#[test]
fn test_march_debug_colors_normal_and_stops() {
    // Debug mode paints the pixel from the surface normal components,
    // clamped: the normal at the near face points back at the camera, so
    // every channel clamps to zero.
    let camera = Camera::new(origin(), x_dir(), SCALE / 10, 0, (1, 1));
    let mut marcher = MarcherHandler::new(100, MAX_DISTANCE, 1, camera);
    marcher.debug = true;
    marcher.add_scene_object(red_mirror_sphere(10 * SCALE));
    marcher.march();
    let c = marcher.get_color(0, 0);
    assert_eq!(c.get_components(), (0, 0, 0));
}

#[test]
fn test_get_camera_round_trip() {
    let camera = Camera::new(origin(), x_dir(), SCALE, 0, (4, 3));
    let marcher = MarcherHandler::new(1, MAX_DISTANCE, 1, camera);
    assert_eq!(marcher.get_camera().get_resolution(), (4, 3));
}
