use steering::angle::{wrap_angle, HALF_PI, PI, TAU};
use steering::arith::{isqrt, mul_div};
use steering::utils::{adjust_magnitude, constrain, heading, set_magnitude};
use steering::vector::Vec2;

const ONE: i64 = 1_000_000;

#[test]
fn set_magnitude_of_a_pythagorean_vector_is_exact() {
    let r = set_magnitude(Vec2::new(3 * ONE, 4 * ONE), 10 * ONE);
    assert_eq!(r, Vec2::new(6 * ONE, 8 * ONE));
}

#[test]
fn set_magnitude_rounds_toward_zero() {
    assert_eq!(set_magnitude(Vec2::new(1, 1), ONE), Vec2::new(707_106, 707_106));
    assert_eq!(set_magnitude(Vec2::new(-1, -1), ONE), Vec2::new(-707_106, -707_106));
}

#[test]
fn set_magnitude_with_a_negative_scale_reverses() {
    assert_eq!(set_magnitude(Vec2::new(-1, 2), -3 * ONE), Vec2::new(1_341_640, -2_683_281));
}

#[test]
fn set_magnitude_of_the_zero_vector_is_zero() {
    assert_eq!(set_magnitude(Vec2::new(0, 0), 14 * ONE), Vec2::new(0, 0));
}

#[test]
fn set_magnitude_to_zero_is_zero() {
    assert_eq!(set_magnitude(Vec2::new(5 * ONE, -7 * ONE), 0), Vec2::new(0, 0));
}

#[test]
fn set_magnitude_at_the_limits_of_its_inputs() {
    let limit: i64 = 1 << 41;
    let r = set_magnitude(Vec2::new(limit, -limit), 1 << 40);
    // each component is the scale over the square root of two
    assert_eq!(r, Vec2::new(777_472_127_993, -777_472_127_993));
}

#[test]
fn set_magnitude_gives_the_length_asked_for() {
    let cases = [
        (Vec2::new(17, -3), 25 * ONE),
        (Vec2::new(-4 * ONE, -30 * ONE), 14 * ONE),
        (Vec2::new(123_456_789, 987_654_321), -250 * ONE),
        (Vec2::new(1, 0), 300 * ONE),
    ];
    for (v, scale) in cases {
        let r = set_magnitude(v, scale);
        let length = ((r.x as f64).powi(2) + (r.y as f64).powi(2)).sqrt();
        let asked = (scale as f64).abs();
        assert!(length > asked - 2.0, "{:?} has length {}", r, length);
        assert!(length <= asked * (1.0 + 1.0 / 1_048_576.0), "{:?} has length {}", r, length);
        // parallel: the cross product vanishes up to rounding
        let cross = r.x as i128 * v.y as i128 - r.y as i128 * v.x as i128;
        assert!(cross.abs() < (v.x.abs() + v.y.abs()) as i128);
        // same way round for a positive scale, opposite for a negative one
        let dot = r.x as i128 * v.x as i128 + r.y as i128 * v.y as i128;
        assert!(dot * (scale as i128) >= 0);
    }
}

#[test]
fn constrain_clamps_to_the_upper_end() {
    assert_eq!(constrain(100, 0, 50), 50);
}

#[test]
fn constrain_clamps_to_the_lower_end() {
    assert_eq!(constrain(-3, 0, 50), 0);
}

#[test]
fn constrain_keeps_a_value_inside() {
    assert_eq!(constrain(17, 0, 50), 17);
    assert_eq!(constrain(0, 0, 50), 0);
    assert_eq!(constrain(50, 0, 50), 50);
}

#[test]
fn constrain_with_ends_out_of_order_gives_the_lower() {
    assert_eq!(constrain(5, 10, 0), 10);
    assert_eq!(constrain(-5, 10, 0), 10);
    assert_eq!(constrain(50, 10, 0), 10);
}

#[test]
fn adjust_magnitude_remaps_proportionally() {
    assert_eq!(adjust_magnitude(5 * ONE, 0, 10 * ONE, 0, 100 * ONE), 50 * ONE);
    assert_eq!(adjust_magnitude(1, 0, 3, 0, 10), 3);
}

#[test]
fn adjust_magnitude_clamps_to_the_output_range() {
    assert_eq!(adjust_magnitude(15 * ONE, 0, 10 * ONE, 0, 100 * ONE), 100 * ONE);
    assert_eq!(adjust_magnitude(-5 * ONE, 0, 10 * ONE, 0, 100 * ONE), 0);
    assert_eq!(adjust_magnitude(-1, 0, 3, -10, 10), -10);
}

#[test]
fn adjust_magnitude_with_a_falling_output_range() {
    assert_eq!(adjust_magnitude(5 * ONE, 0, 10 * ONE, 100 * ONE, 0), 50 * ONE);
    assert_eq!(adjust_magnitude(2 * ONE, 0, 10 * ONE, 100 * ONE, 0), 80 * ONE);
    assert_eq!(adjust_magnitude(20 * ONE, 0, 10 * ONE, 100 * ONE, 0), 0);
    assert_eq!(adjust_magnitude(-20 * ONE, 0, 10 * ONE, 100 * ONE, 0), 100 * ONE);
}

#[test]
fn adjust_magnitude_with_a_falling_input_range() {
    assert_eq!(adjust_magnitude(5 * ONE, 10 * ONE, 0, 0, 100 * ONE), 50 * ONE);
    assert_eq!(adjust_magnitude(8 * ONE, 10 * ONE, 0, 0, 100 * ONE), 20 * ONE);
}

#[test]
fn adjust_magnitude_with_an_input_range_of_no_extent() {
    assert_eq!(adjust_magnitude(3, 7, 7, 50, 90), 50);
    assert_eq!(adjust_magnitude(0, 0, 0, 0, 100 * ONE), 0);
}

#[test]
fn adjust_magnitude_stays_in_the_output_range() {
    let limit: i64 = 1 << 40;
    let values = [-limit, -3 * ONE, -1, 0, 1, 7 * ONE, limit];
    for &length in &values {
        for &in_start in &values {
            for &in_stop in &values {
                for &(out_start, out_stop) in &[(0, 100 * ONE), (100 * ONE, 0), (-limit, limit), (5, 5)] {
                    let r = adjust_magnitude(length, in_start, in_stop, out_start, out_stop);
                    assert!(out_start.min(out_stop) <= r && r <= out_start.max(out_stop));
                }
            }
        }
    }
}

#[test]
fn heading_is_a_quarter_turn_behind_the_polar_angle() {
    assert_eq!(heading(HALF_PI), 0);
    assert_eq!(heading(0), -HALF_PI);
    assert_eq!(heading(3 * ONE), 1_429_204);
    assert_eq!(heading(-HALF_PI), -3_141_592);
}

#[test]
fn heading_wraps_into_the_principal_interval() {
    // a quarter turn behind minus half a turn is three quarters of a turn back: a quarter turn forward
    assert_eq!(heading(-PI), 1_570_797);
    assert_eq!(heading(PI), 1_570_797);
    for polar in [-PI, -PI + 1, -HALF_PI - 1, -HALF_PI, -1, 0, 1, HALF_PI, PI - 1, PI, i64::MIN, i64::MAX] {
        let h = heading(polar);
        assert!(-PI < h && h <= PI);
        assert_eq!((h as i128 - (polar as i128 - HALF_PI as i128)).rem_euclid(TAU as i128), 0);
    }
}

#[test]
fn wrap_angle_keeps_the_direction() {
    assert_eq!(wrap_angle(0), 0);
    assert_eq!(wrap_angle(PI), PI);
    assert_eq!(wrap_angle(-PI), PI);
    assert_eq!(wrap_angle(PI + 1), -PI + 1);
    assert_eq!(wrap_angle(10 * ONE), -2_566_372);
    assert_eq!(wrap_angle(-10 * ONE), 2_566_372);
    for angle in [i64::MIN, i64::MIN + 1, -TAU, -1, 1, TAU, i64::MAX - 1, i64::MAX] {
        let w = wrap_angle(angle);
        assert!(-PI < w && w <= PI);
        assert_eq!((w as i128 - angle as i128).rem_euclid(TAU as i128), 0);
    }
}

#[test]
fn isqrt_rounds_down() {
    assert_eq!(isqrt(0), 0);
    assert_eq!(isqrt(1), 1);
    assert_eq!(isqrt(3), 1);
    assert_eq!(isqrt(4), 2);
    assert_eq!(isqrt(99), 9);
    assert_eq!(isqrt(916_000_000_000_000), 30_265_491);
    assert_eq!(isqrt(u128::MAX), u64::MAX as u128);
}

#[test]
fn mul_div_rounds_toward_zero() {
    assert_eq!(mul_div(7, 3, 2), 10);
    assert_eq!(mul_div(-7, 3, 2), -10);
    assert_eq!(mul_div(7, -3, 2), -10);
    assert_eq!(mul_div(-7, -3, 2), 10);
    assert_eq!(mul_div(i64::MAX, i64::MAX, i64::MAX), i64::MAX);
}
