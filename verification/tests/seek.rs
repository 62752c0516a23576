use steering::seek::seek;
use steering::vector::Vec2;

fn fixed(value: f64) -> i64 {
    (value * 1_000_000.0).round() as i64
}

fn point(x: f64, y: f64) -> Vec2 {
    Vec2::new(fixed(x), fixed(y))
}

fn assert_close(actual: Vec2, x: f64, y: f64) {
    let ax = actual.x as f64 / 1_000_000.0;
    let ay = actual.y as f64 / 1_000_000.0;
    assert!((ax - x).abs() < 1e-3, "x: {} is not {}", ax, x);
    assert!((ay - y).abs() < 1e-3, "y: {} is not {}", ay, y);
}

#[test]
fn steering_plugin_seek_should_return_vec2() {
    let target = point(10.0, -12.0);
    let velocity = point(180.0, -123.0);
    let max_speed = fixed(14.0);
    let position = point(14.0, 18.0);

    assert_close(seek(&target, &velocity, max_speed, &position), -181.8503, 109.12281);

    let target = point(-102.0, 130.0);

    assert_close(seek(&target, &velocity, max_speed, &position), -190.07162, 132.72432);

    let target = point(10.0, -12.0);
    let max_speed = fixed(2.0);

    assert_close(seek(&target, &velocity, max_speed, &position), -180.26433, 121.01755);
}

#[test]
fn mod_seek_should_return_vec2() {
    let target = point(10.0, -12.0);
    let velocity = point(180.0, -123.0);
    let max_speed = fixed(14.0);
    let position = point(14.0, 18.0);

    assert_close(seek(&target, &velocity, max_speed, &position), -181.8503, 109.12281);

    let target = point(-102.0, 130.0);

    assert_close(seek(&target, &velocity, max_speed, &position), -190.07162, 132.72432);

    let target = point(10.0, -12.0);
    let max_speed = fixed(2.0);

    assert_close(seek(&target, &velocity, max_speed, &position), -180.26433, 121.01755);
}

#[test]
fn seek_is_exact_in_fixed_point() {
    // (3, 4) has length 5: rescaled to 10 it is (6, 8)
    let target = Vec2::new(3_000_000, 4_000_000);
    let steer = seek(&target, &Vec2::new(1_000_000, 1_000_000), 10_000_000, &Vec2::new(0, 0));
    assert_eq!(steer, Vec2::new(5_000_000, 7_000_000));
}

#[test]
fn seek_at_the_target_cancels_the_velocity() {
    let here = Vec2::new(5_000_000, -7_000_000);
    let steer = seek(&here, &Vec2::new(2_000_000, 3_000_000), 14_000_000, &here);
    assert_eq!(steer, Vec2::new(-2_000_000, -3_000_000));
}
