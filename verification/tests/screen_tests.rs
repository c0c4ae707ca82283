//! The color buffer: construction, channel reads and writes by pixel
//! coordinate.

use ray_marcher::color_data_types::Color;
use ray_marcher::screen::{Displayable, Pixelatable, Screen};
use ray_marcher::SCALE;

#[test]
fn test_screen_new_resolution() {
    let screen = Screen::<Color>::new((3, 2));
    assert_eq!(screen.get_resolution(), (3, 2));
}

#[test]
fn test_screen_fresh_pixels_are_white() {
    let screen = Screen::<Color>::new((2, 2));
    assert_eq!(screen.get_color_components((0, 0)), (SCALE, SCALE, SCALE));
    assert_eq!(screen.get_color_components((1, 1)), (SCALE, SCALE, SCALE));
}

#[test]
fn test_screen_set_then_get() {
    let mut screen = Screen::<Color>::new((3, 2));
    screen.set_red_channel((1, 2), 7);
    screen.set_green_channel((1, 2), 8);
    screen.set_blue_channel((1, 2), 9);
    assert_eq!(screen.get_color_components((1, 2)), (7, 8, 9));
    assert_eq!(screen.get_red_channel((1, 2)), 7);
    assert_eq!(screen.get_green_channel((1, 2)), 8);
    assert_eq!(screen.get_blue_channel((1, 2)), 9);
}

#[test]
fn test_screen_set_leaves_other_pixels() {
    let mut screen = Screen::<Color>::new((2, 2));
    screen.set_red_channel((0, 0), 5);
    assert_eq!(screen.get_red_channel((0, 1)), SCALE);
    assert_eq!(screen.get_red_channel((1, 0)), SCALE);
    assert_eq!(screen.get_green_channel((0, 0)), SCALE);
}

#[test]
fn test_color_pixel_channels() {
    let mut c = <Color as Pixelatable>::new();
    assert_eq!(c.get_red_channel(), SCALE);
    c.set_blue_channel(3);
    assert_eq!(c.get_blue_channel(), 3);
    assert_eq!(c.get_green_channel(), SCALE);
}
