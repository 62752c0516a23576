use rand::rngs::StdRng;
use rand::SeedableRng;
use steering::agent::Agent;
use steering::evade::{evade, evade_system, flee_system};
use steering::pursue::{pursue, pursue_system, reset_pursue_target, Collision, PursuitTarget};
use steering::seek::seek;
use steering::vector::Vec2;

const ONE: i64 = 1_000_000;

fn ship(position: Vec2, velocity: Vec2) -> Agent {
    Agent { position, velocity, max_linear_speed: 300 * ONE, max_angular_speed: 10 * ONE, orientation: 0 }
}

#[test]
fn interception_point_is_ahead_of_the_target() {
    let target = PursuitTarget { position: Vec2::new(100 * ONE, 50 * ONE), velocity: Vec2::new(30 * ONE, -40 * ONE) };
    // 25 along (3, -4) / 5
    assert_eq!(target.interception_point(), Vec2::new(115 * ONE, 30 * ONE));
}

#[test]
fn interception_point_of_a_target_at_rest_is_the_target() {
    let target = PursuitTarget { position: Vec2::new(100 * ONE, 50 * ONE), velocity: Vec2::new(0, 0) };
    assert_eq!(target.interception_point(), Vec2::new(100 * ONE, 50 * ONE));
}

#[test]
fn interception_point_lies_ahead_by_the_lookahead() {
    let velocities = [
        Vec2::new(7 * ONE, 11 * ONE),
        Vec2::new(-199 * ONE, 3),
        Vec2::new(1, -1),
        Vec2::new(0, 150 * ONE),
    ];
    for velocity in velocities {
        let target = PursuitTarget { position: Vec2::new(ONE, 2 * ONE), velocity };
        let point = target.interception_point();
        let (dx, dy) = ((point.x - ONE) as f64, (point.y - 2 * ONE) as f64);
        let ahead = (dx * dx + dy * dy).sqrt();
        // no shorter than the lookahead by more than a raw unit in each component, no longer
        // by more than one part in two to the power of twenty
        assert!(ahead > 25_000_000.0 - 2.0, "ahead by {}", ahead);
        assert!(ahead <= 25_000_000.0 * (1.0 + 1.0 / 1_048_576.0), "ahead by {}", ahead);
        let dot = dx * velocity.x as f64 + dy * velocity.y as f64;
        assert!(dot > 0.0);
        let cross = (point.x - ONE) as i128 * velocity.y as i128 - (point.y - 2 * ONE) as i128 * velocity.x as i128;
        assert!(cross.abs() < (velocity.x.abs() + velocity.y.abs()) as i128);
    }
    let target = PursuitTarget { position: Vec2::new(ONE, 2 * ONE), velocity: Vec2::new(7 * ONE, 11 * ONE) };
    assert_eq!(target.interception_point(), Vec2::new(14_421_887, 23_091_537));
}

#[test]
fn pursue_seeks_the_interception_point() {
    let target = PursuitTarget { position: Vec2::new(100 * ONE, 50 * ONE), velocity: Vec2::new(30 * ONE, -40 * ONE) };
    let r = pursue(&target, &Vec2::new(10 * ONE, 0), 300 * ONE, &Vec2::new(0, 0));
    assert_eq!(r.offset, Vec2::new(115 * ONE, 30 * ONE));
    assert_eq!(r.steer, Vec2::new(280_285_181, 75_726_569));
    assert_eq!(r.steer, seek(&r.offset, &Vec2::new(10 * ONE, 0), 300 * ONE, &Vec2::new(0, 0)));
}

#[test]
fn evade_is_pursue_reversed() {
    let target = PursuitTarget { position: Vec2::new(100 * ONE, 50 * ONE), velocity: Vec2::new(30 * ONE, -40 * ONE) };
    let r = evade(&target, &Vec2::new(10 * ONE, 0), 300 * ONE, &Vec2::new(0, 0));
    assert_eq!(r.offset, Vec2::new(115 * ONE, 30 * ONE));
    assert_eq!(r.steer, Vec2::new(-280_285_181, -75_726_569));
}

#[test]
fn pursue_system_scales_the_force_by_the_duration() {
    let target = PursuitTarget { position: Vec2::new(100 * ONE, 50 * ONE), velocity: Vec2::new(30 * ONE, -40 * ONE) };
    let mut agent = ship(Vec2::new(0, 0), Vec2::new(10 * ONE, 0));
    let offset = pursue_system(&mut agent, &target, 100_000);
    assert_eq!(offset, Vec2::new(115 * ONE, 30 * ONE));
    assert_eq!(agent.velocity, Vec2::new(10 * ONE + 28_028_518, 7_572_656));
}

#[test]
fn evade_system_scales_the_force_by_the_duration() {
    let target = PursuitTarget { position: Vec2::new(100 * ONE, 50 * ONE), velocity: Vec2::new(30 * ONE, -40 * ONE) };
    let mut agent = ship(Vec2::new(0, 0), Vec2::new(10 * ONE, 0));
    let offset = evade_system(&mut agent, &target, 100_000);
    assert_eq!(offset, Vec2::new(115 * ONE, 30 * ONE));
    assert_eq!(agent.velocity, Vec2::new(10 * ONE - 28_028_518, -7_572_656));
}

#[test]
fn flee_system_steers_away_from_the_cursor() {
    let mut agent = ship(Vec2::new(14 * ONE, 18 * ONE), Vec2::new(180 * ONE, -123 * ONE));
    agent.max_linear_speed = 14 * ONE;
    flee_system(&mut agent, &Vec2::new(10 * ONE, -12 * ONE), ONE);
    assert_eq!(agent.velocity, Vec2::new(180 * ONE + 181_850_292, -123 * ONE - 109_122_810));
}

#[test]
fn velocity_from_draws_is_ten_times_the_draws() {
    assert_eq!(PursuitTarget::velocity_from_draws(-20 * ONE, 19_999_999), Vec2::new(-200 * ONE, 199_999_990));
    assert_eq!(PursuitTarget::velocity_from_draws(0, 7), Vec2::new(0, 70));
}

#[test]
fn reset_without_a_collision_changes_nothing() {
    let mut rng = StdRng::seed_from_u64(3);
    let before = PursuitTarget { position: Vec2::new(5, 6), velocity: Vec2::new(7, 8) };
    let mut target = before;
    reset_pursue_target(&mut target, &Vec::new(), &mut rng);
    assert_eq!(target, before);
}

#[test]
fn reset_after_a_collision_draws_the_target_anew() {
    let mut rng = StdRng::seed_from_u64(3);
    let mut positions = Vec::new();
    for round in 0..200 {
        let mut target = PursuitTarget { position: Vec2::new(5, 6), velocity: Vec2::new(7, 8) };
        let mut collisions = vec![Collision { first: 1, second: 2 }];
        if round % 2 == 1 {
            collisions.push(Collision { first: 2, second: 1 });
        }
        reset_pursue_target(&mut target, &collisions, &mut rng);
        assert!(-300 * ONE <= target.position.x && target.position.x < 300 * ONE);
        assert!(-300 * ONE <= target.position.y && target.position.y < 300 * ONE);
        assert!(-200 * ONE <= target.velocity.x && target.velocity.x < 200 * ONE);
        assert!(-200 * ONE <= target.velocity.y && target.velocity.y < 200 * ONE);
        assert_eq!(target.velocity.x % 10, 0);
        assert_eq!(target.velocity.y % 10, 0);
        positions.push(target.position);
    }
    // the draws differ from one another, and reach into every quarter of the range
    assert!(positions.iter().any(|p| *p != positions[0]));
    assert!(positions.iter().any(|p| p.x > 150 * ONE));
    assert!(positions.iter().any(|p| p.x < -150 * ONE));
    assert!(positions.iter().any(|p| p.y > 150 * ONE));
    assert!(positions.iter().any(|p| p.y < -150 * ONE));
}

#[test]
fn respawn_is_the_same_under_the_same_seed() {
    let mut first = StdRng::seed_from_u64(11);
    let mut second = StdRng::seed_from_u64(11);
    assert_eq!(PursuitTarget::respawn(&mut first), PursuitTarget::respawn(&mut second));
    let velocity = PursuitTarget::random_velocity(&mut first);
    assert_eq!(velocity, PursuitTarget::random_velocity(&mut second));
}
