//! The pinhole camera: pixel-to-ray projection and the zero field of view
//! guarantee.

use ray_marcher::camera::Camera;
use ray_marcher::threed_data_types::{Direction, Point};
use ray_marcher::SCALE;

const DEG_45: i64 = 785_398_163;

#[test]
fn test_near_plane_point_direction_single_pixel() {
    let camera = Camera::new(
        Point::new(0, 0, 0),
        Direction::new(SCALE, 0, 0),
        SCALE,
        0,
        (1, 1),
    );
    assert_eq!(camera.get_near_plane_point(0, 0).1, Direction::new(SCALE, 0, 0).get_norm());
}

#[test]
fn test_zero_fov_every_pixel_maps_to_view() {
    let view = Direction::new(0, 0, SCALE);
    let camera = Camera::new(Point::new(SCALE, -SCALE, 0), view, SCALE / 2, 0, (5, 3));
    for r in 0..5 {
        for c in 0..3 {
            assert_eq!(camera.get_near_plane_point(r, c).1, view);
        }
    }
}

#[test]
fn test_first_pixel_offsets_by_field_of_view() {
    // With a forty-five degree half field of view and two columns, the
    // leftmost pixel's near-plane point is offset by the full horizontal
    // angle and by the aspect-scaled vertical angle.
    let camera = Camera::new(
        Point::new(0, 0, 0),
        Direction::new(SCALE, 0, 0),
        SCALE,
        DEG_45,
        (2, 1),
    );
    let (p, d) = camera.get_near_plane_point(0, 0);
    assert_eq!(p, Point::new(SCALE, 392_699_081, 785_398_163));
    assert_eq!(d, Direction::new(751_420_457, 295_082_122, 590_164_246));
}

#[test]
fn test_near_plane_point_scales_with_distance() {
    let camera = Camera::new(
        Point::new(0, 0, 0),
        Direction::new(SCALE, 0, 0),
        3 * SCALE,
        0,
        (1, 1),
    );
    assert_eq!(camera.get_near_plane_point(0, 0).0, Point::new(3 * SCALE, 0, 0));
}

#[test]
fn test_off_origin_camera_translates_point() {
    // The near-plane point lives in the same absolute space as the
    // camera: it is the camera position pushed out along the view.
    let camera = Camera::new(
        Point::new(0, 2 * SCALE, 0),
        Direction::new(SCALE, 0, 0),
        SCALE,
        0,
        (1, 1),
    );
    let (p, d) = camera.get_near_plane_point(0, 0);
    assert_eq!(p, Point::new(SCALE, 2 * SCALE, 0));
    assert_eq!(d, Direction::new(SCALE, 0, 0));
}

#[test]
fn test_get_resolution() {
    let camera = Camera::new(Point::new(0, 0, 0), Direction::new(SCALE, 0, 0), SCALE, 0, (7, 9));
    assert_eq!(camera.get_resolution(), (7, 9));
}
