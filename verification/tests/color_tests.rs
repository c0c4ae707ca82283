//! The color model: clamped channel arithmetic, the linear-light blend and
//! the 8-bit display rounding.

use ray_marcher::color_data_types::Color;
use ray_marcher::SCALE;

#[test]
fn test_op_color() {
    let lhs = Color::new(SCALE, 0, 0);
    let rhs = Color::new(0, SCALE, 0);
    assert_eq!(lhs.add(rhs), Color::new(SCALE, SCALE, 0));
}

#[test]
fn test_op_f64() {
    let lhs = Color::new(SCALE / 2, 0, 0);
    assert_eq!(lhs.mul_scalar(2 * SCALE), Color::new(SCALE, 0, 0));
}

#[test]
fn test_op_assign_color() {
    let mut lhs = Color::new(SCALE, 0, 0);
    lhs = lhs.add(Color::new(0, SCALE, 0));
    assert_eq!(lhs, Color::new(SCALE, SCALE, 0));
}

#[test]
fn test_op_assign_f64() {
    let mut lhs = Color::new(SCALE / 2, 0, 0);
    lhs = lhs.mul_scalar(2 * SCALE);
    assert_eq!(lhs, Color::new(SCALE, 0, 0));
}

#[test]
fn test_op_overflow_color() {
    let lhs = Color::new(SCALE, 0, 0);
    let rhs = Color::new(SCALE, 0, 0);
    assert_eq!(lhs.add(rhs), Color::new(SCALE, 0, 0))
}

#[test]
fn test_op_overflow_f64() {
    let lhs = Color::new(SCALE, 0, 0);
    assert_eq!(lhs.mul_scalar(2 * SCALE), Color::new(SCALE, 0, 0))
}

#[test]
fn test_op_assign_overflow_color() {
    let lhs = Color::new(SCALE, 0, 0);
    let rhs = Color::new(SCALE, 0, 0);
    assert_eq!(lhs.add(rhs), Color::new(SCALE, 0, 0))
}

#[test]
fn test_op_assign_overflow_f64() {
    let lhs = Color::new(SCALE, 0, 0);
    assert_eq!(lhs.mul_scalar(2 * SCALE), Color::new(SCALE, 0, 0))
}

#[test]
fn test_new_clamps_out_of_range() {
    let c = Color::new(99 * SCALE, -99 * SCALE, SCALE / 4);
    assert_eq!(c.get_components(), (SCALE, 0, SCALE / 4));
}

#[test]
fn test_sub_clamps_at_zero() {
    let c = Color::new(SCALE / 4, 0, SCALE).sub(Color::new(SCALE, 0, SCALE / 2));
    assert_eq!(c, Color::new(0, 0, SCALE / 2));
}

#[test]
fn test_blend_ratio_zero_returns_first() {
    let a = Color::new(123_456_789, 5, SCALE);
    let b = Color::new(SCALE, 0, 0);
    assert_eq!(Color::blend_colors(&a, &b, 0), a);
}

#[test]
fn test_blend_ratio_one_returns_second() {
    let a = Color::new(123_456_789, 5, SCALE);
    let b = Color::new(SCALE, 0, 7);
    assert_eq!(Color::blend_colors(&a, &b, SCALE), b);
}

#[test]
fn test_blend_half_red_with_white() {
    let red = Color::new(SCALE, 0, 0);
    let white = Color::new(SCALE, SCALE, SCALE);
    let mixed = Color::blend_colors(&red, &white, SCALE / 2);
    assert_eq!(mixed.get_components(), (SCALE, 707_106_781, 707_106_781));
}

#[test]
fn test_u8_components_round() {
    let c = Color::new(SCALE, 707_106_781, 0);
    assert_eq!(c.get_u8_components(), (255, 180, 0));
}

#[test]
fn test_channel_getters() {
    let c = Color::new(1, 2, 3);
    assert_eq!((c.r(), c.g(), c.b()), (1, 2, 3));
}

#[test]
fn test_div_scalar_halves() {
    let c = Color::new(SCALE, SCALE / 2, 0).div_scalar(2 * SCALE);
    assert_eq!(c, Color::new(SCALE / 2, SCALE / 4, 0));
}

#[test]
fn test_mul_color_componentwise() {
    let c = Color::new(SCALE, SCALE / 2, 0).mul(Color::new(SCALE / 2, SCALE / 2, SCALE));
    assert_eq!(c, Color::new(SCALE / 2, SCALE / 4, 0));
}
