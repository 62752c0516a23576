use rand::rngs::StdRng;
use rand::SeedableRng;
use steering::agent::Agent;
use steering::behaviour::Behaviour;
use steering::command::{Command, Marker};
use steering::path_follow::{clean_up_path, on_start_path, Path};
use steering::pursue::{clean_up_pursue, on_start_pursue, on_start_pursue_with, PursuitTarget};
use steering::simulation::{Simulation, TickInput};
use steering::vector::Vec2;

const ONE: i64 = 1_000_000;

fn v(x: i64, y: i64) -> Vec2 {
    Vec2::new(x * ONE, y * ONE)
}

fn ship() -> Agent {
    Agent { position: v(0, -150), velocity: v(0, 0), max_linear_speed: 250 * ONE, max_angular_speed: 10 * ONE, orientation: 0 }
}

fn input(cursor: Vec2, elapsed: i64) -> TickInput {
    TickInput { cursor, elapsed, pursuit_target: None, wander_direction: Vec2::new(0, ONE) }
}

fn spawned(commands: &[Command], marker: Marker) -> usize {
    commands.iter().filter(|c| matches!(c, Command::Spawn { marker: m, .. } if *m == marker)).count()
}

const ALL: [Behaviour; 7] = [
    Behaviour::Seek,
    Behaviour::Arrive,
    Behaviour::Wander,
    Behaviour::Pursue,
    Behaviour::Flee,
    Behaviour::Evade,
    Behaviour::PathFollow,
];

#[test]
fn the_machine_starts_in_seek() {
    let simulation = Simulation::new();
    assert_eq!(simulation.behaviour, Behaviour::Seek);
    assert_eq!(Behaviour::default(), Behaviour::Seek);
    assert_eq!(simulation.wander.theta, 1_570_796);
    assert!(simulation.path.is_none());
    assert!(simulation.own_max_speed.is_none());
}

#[test]
fn has_pursuit_target_for_pursue_and_evade_only() {
    for behaviour in ALL {
        let expected = behaviour == Behaviour::Pursue || behaviour == Behaviour::Evade;
        assert_eq!(behaviour.has_pursuit_target(), expected);
    }
}

#[test]
fn on_start_pursue_raises_the_speed_and_spawns() {
    let mut agent = ship();
    let commands = on_start_pursue_with(&mut agent, v(30, -40));
    assert_eq!(agent.max_linear_speed, 300 * ONE);
    assert_eq!(
        commands,
        vec![
            Command::Spawn { marker: Marker::PursuitTarget, position: v(0, 0), velocity: v(30, -40) },
            Command::Spawn { marker: Marker::PursuitOffset, position: v(0, 0), velocity: v(0, 0) },
        ]
    );
    assert_eq!(Agent { max_linear_speed: 250 * ONE, ..agent }, ship());
}

#[test]
fn on_start_pursue_draws_the_velocity_of_the_target() {
    let mut rng = StdRng::seed_from_u64(5);
    let mut velocities = Vec::new();
    for _ in 0..100 {
        let mut agent = ship();
        let commands = on_start_pursue(&mut agent, &mut rng);
        assert_eq!(agent.max_linear_speed, 300 * ONE);
        assert_eq!(commands.len(), 2);
        match commands[0] {
            Command::Spawn { marker: Marker::PursuitTarget, position, velocity } => {
                assert_eq!(position, v(0, 0));
                assert!(-200 * ONE <= velocity.x && velocity.x < 200 * ONE);
                assert!(-200 * ONE <= velocity.y && velocity.y < 200 * ONE);
                assert_eq!(velocity.x % 10, 0);
                assert_eq!(velocity.y % 10, 0);
                velocities.push(velocity);
            }
            other => panic!("{:?}", other),
        }
        assert_eq!(
            commands[1],
            Command::Spawn { marker: Marker::PursuitOffset, position: v(0, 0), velocity: v(0, 0) }
        );
    }
    assert!(velocities.iter().any(|w| *w != velocities[0]));
    assert!(velocities.iter().any(|w| w.x > 100 * ONE));
    assert!(velocities.iter().any(|w| w.x < -100 * ONE));
}

#[test]
fn clean_up_pursue_restores_the_speed_and_despawns() {
    let mut agent = ship();
    agent.max_linear_speed = 300 * ONE;
    let commands = clean_up_pursue(&mut agent, Some(250 * ONE));
    assert_eq!(agent, ship());
    assert_eq!(
        commands,
        vec![Command::Despawn { marker: Marker::PursuitTarget }, Command::Despawn { marker: Marker::PursuitOffset }]
    );
}

#[test]
fn clean_up_pursue_without_a_kept_speed_leaves_the_agent_alone() {
    let mut agent = ship();
    let commands = clean_up_pursue(&mut agent, None);
    assert_eq!(agent, ship());
    assert_eq!(commands.len(), 2);
    // a second run asks for the same and fails no more than the first
    assert_eq!(clean_up_pursue(&mut agent, None), commands);
}

#[test]
fn on_start_path_lays_out_the_default_loop() {
    let mut path = None;
    let commands = on_start_path(&mut path);
    let path = path.expect("a path");
    assert_eq!(path.points, Path::default_loop().points);
    assert_eq!(path.radius, 20 * ONE);
    assert_eq!(
        commands,
        vec![
            Command::Spawn { marker: Marker::PathWaypoint, position: v(-161, -160), velocity: v(0, 0) },
            Command::Spawn { marker: Marker::PathWaypoint, position: v(162, -160), velocity: v(0, 0) },
            Command::Spawn { marker: Marker::PathWaypoint, position: v(163, 160), velocity: v(0, 0) },
            Command::Spawn { marker: Marker::PathWaypoint, position: v(-164, 160), velocity: v(0, 0) },
        ]
    );
}

#[test]
fn on_start_path_replaces_a_path() {
    let mut path = Some(Path { points: vec![v(0, 0), v(1, 1)], radius: 3 });
    on_start_path(&mut path);
    assert_eq!(path.expect("a path").points, Path::default_loop().points);
}

#[test]
fn clean_up_path_takes_the_path_away() {
    let mut path = Some(Path::default_loop());
    let commands = clean_up_path(&mut path);
    assert!(path.is_none());
    assert_eq!(commands, vec![Command::Despawn { marker: Marker::PathWaypoint }]);
    // without a path it asks for the same and fails no more
    assert_eq!(clean_up_path(&mut path), commands);
    assert!(path.is_none());
}

#[test]
fn selecting_the_active_behaviour_does_nothing() {
    let mut simulation = Simulation::new();
    let mut agent = ship();
    for behaviour in ALL {
        simulation.select_with(&mut agent, behaviour, v(1, 2));
        let speed = agent.max_linear_speed;
        let commands = simulation.select_with(&mut agent, behaviour, v(3, 4));
        assert!(commands.is_empty());
        assert_eq!(simulation.behaviour, behaviour);
        assert_eq!(agent.max_linear_speed, speed);
    }
}

#[test]
fn a_plain_switch_asks_for_nothing() {
    let mut simulation = Simulation::new();
    let mut agent = ship();
    for behaviour in [Behaviour::Arrive, Behaviour::Wander, Behaviour::Flee, Behaviour::Seek] {
        let commands = simulation.select_with(&mut agent, behaviour, v(1, 2));
        assert!(commands.is_empty());
        assert_eq!(simulation.behaviour, behaviour);
        assert_eq!(agent, ship());
        assert!(simulation.path.is_none());
        assert!(simulation.own_max_speed.is_none());
    }
}

#[test]
fn switching_to_pursue_and_back() {
    let mut simulation = Simulation::new();
    let mut agent = ship();
    let commands = simulation.select_with(&mut agent, Behaviour::Pursue, v(30, -40));
    assert_eq!(
        commands,
        vec![
            Command::Spawn { marker: Marker::PursuitTarget, position: v(0, 0), velocity: v(30, -40) },
            Command::Spawn { marker: Marker::PursuitOffset, position: v(0, 0), velocity: v(0, 0) },
        ]
    );
    assert_eq!(simulation.behaviour, Behaviour::Pursue);
    assert_eq!(simulation.own_max_speed, Some(250 * ONE));
    assert_eq!(agent.max_linear_speed, 300 * ONE);

    let commands = simulation.select_with(&mut agent, Behaviour::Seek, v(0, 0));
    assert_eq!(
        commands,
        vec![Command::Despawn { marker: Marker::PursuitTarget }, Command::Despawn { marker: Marker::PursuitOffset }]
    );
    assert_eq!(simulation.behaviour, Behaviour::Seek);
    assert_eq!(simulation.own_max_speed, None);
    assert_eq!(agent, ship());
}

#[test]
fn switching_from_pursue_to_evade_replaces_the_target() {
    let mut simulation = Simulation::new();
    let mut agent = ship();
    simulation.select_with(&mut agent, Behaviour::Pursue, v(30, -40));
    let commands = simulation.select_with(&mut agent, Behaviour::Evade, v(-5, 6));
    assert_eq!(
        commands,
        vec![
            Command::Despawn { marker: Marker::PursuitTarget },
            Command::Despawn { marker: Marker::PursuitOffset },
            Command::Spawn { marker: Marker::PursuitTarget, position: v(0, 0), velocity: v(-5, 6) },
            Command::Spawn { marker: Marker::PursuitOffset, position: v(0, 0), velocity: v(0, 0) },
        ]
    );
    // the speed that is kept is still the agent's own
    assert_eq!(simulation.own_max_speed, Some(250 * ONE));
    assert_eq!(agent.max_linear_speed, 300 * ONE);
    simulation.select_with(&mut agent, Behaviour::Arrive, v(0, 0));
    assert_eq!(agent, ship());
}

#[test]
fn switching_to_path_follow_and_back() {
    let mut simulation = Simulation::new();
    let mut agent = ship();
    let commands = simulation.select_with(&mut agent, Behaviour::PathFollow, v(1, 1));
    assert_eq!(commands.len(), 4);
    assert_eq!(spawned(&commands, Marker::PathWaypoint), 4);
    assert_eq!(simulation.path.as_ref().expect("a path").points, Path::default_loop().points);
    assert_eq!(agent, ship());

    let commands = simulation.select_with(&mut agent, Behaviour::Wander, v(1, 1));
    assert_eq!(commands, vec![Command::Despawn { marker: Marker::PathWaypoint }]);
    assert!(simulation.path.is_none());
}

#[test]
fn every_switch_leaves_what_the_active_behaviour_keeps() {
    // the entities alive, by their tags, as whoever carries out the commands would count them
    let mut alive: Vec<Marker> = Vec::new();
    let mut simulation = Simulation::new();
    let mut agent = ship();
    let mut rng = StdRng::seed_from_u64(1);
    for from in ALL {
        for to in ALL {
            for next in [from, to] {
                for command in simulation.select(&mut agent, next, &mut rng) {
                    match command {
                        Command::Spawn { marker, .. } => alive.push(marker),
                        Command::Despawn { marker } => alive.retain(|m| *m != marker),
                    }
                }
                let count = |marker: Marker| alive.iter().filter(|m| **m == marker).count();
                let pursuit = if next.has_pursuit_target() { 1 } else { 0 };
                assert_eq!(count(Marker::PursuitTarget), pursuit);
                assert_eq!(count(Marker::PursuitOffset), pursuit);
                assert_eq!(count(Marker::PathWaypoint), if next == Behaviour::PathFollow { 4 } else { 0 });
                assert_eq!(simulation.behaviour, next);
                assert_eq!(agent.max_linear_speed, if next.has_pursuit_target() { 300 * ONE } else { 250 * ONE });
                assert_eq!(simulation.own_max_speed.is_some(), next.has_pursuit_target());
                assert_eq!(simulation.path.is_some(), next == Behaviour::PathFollow);
            }
        }
    }
}

#[test]
fn a_switch_and_back_restores_everything() {
    for home in [Behaviour::Seek, Behaviour::Arrive, Behaviour::Wander, Behaviour::Flee] {
        for away in ALL {
            let mut simulation = Simulation::new();
            let mut agent = ship();
            simulation.select_with(&mut agent, home, v(0, 0));
            let mut commands = simulation.select_with(&mut agent, away, v(9, 9));
            commands.extend(simulation.select_with(&mut agent, home, v(0, 0)));
            assert_eq!(agent, ship());
            assert_eq!(simulation.behaviour, home);
            assert!(simulation.path.is_none());
            assert!(simulation.own_max_speed.is_none());
            assert_eq!(simulation.wander.theta, 1_570_796);
            for marker in [Marker::PursuitTarget, Marker::PursuitOffset, Marker::PathWaypoint] {
                if spawned(&commands, marker) > 0 {
                    let last_spawn = commands
                        .iter()
                        .rposition(|c| matches!(c, Command::Spawn { marker: m, .. } if *m == marker))
                        .expect("a spawn");
                    assert!(commands[last_spawn..].contains(&Command::Despawn { marker }));
                }
            }
        }
    }
}

#[test]
fn tick_of_seek() {
    let mut rng = StdRng::seed_from_u64(1);
    let mut simulation = Simulation::new();
    let mut agent = ship();
    agent.position = v(14, 18);
    agent.velocity = v(180, -123);
    agent.max_linear_speed = 14 * ONE;
    let report = simulation.tick(&mut agent, &input(v(10, -12), ONE), &mut rng);
    assert!(report.steered);
    assert_eq!(report.offset, None);
    assert_eq!(report.wander, None);
    assert_eq!(agent.velocity, Vec2::new(180 * ONE - 181_850_292, -123 * ONE + 109_122_810));
}

#[test]
fn tick_of_flee() {
    let mut rng = StdRng::seed_from_u64(1);
    let mut simulation = Simulation::new();
    let mut agent = ship();
    simulation.select_with(&mut agent, Behaviour::Flee, v(0, 0));
    agent.position = v(14, 18);
    agent.velocity = v(180, -123);
    agent.max_linear_speed = 14 * ONE;
    let report = simulation.tick(&mut agent, &input(v(10, -12), 500_000), &mut rng);
    assert!(report.steered);
    assert_eq!(agent.velocity, Vec2::new(180 * ONE + 90_925_146, -123 * ONE - 54_561_405));
}

#[test]
fn tick_of_arrive_ignores_the_duration() {
    let mut rng = StdRng::seed_from_u64(1);
    for elapsed in [0, 16_667, ONE, 5 * ONE] {
        let mut simulation = Simulation::new();
        let mut agent = ship();
        simulation.select_with(&mut agent, Behaviour::Arrive, v(0, 0));
        agent.position = v(0, 0);
        agent.velocity = v(1, 2);
        let report = simulation.tick(&mut agent, &input(v(30, 40), elapsed), &mut rng);
        assert!(report.steered);
        assert_eq!(agent.velocity, v(12, 16));
    }
}

#[test]
fn tick_of_wander() {
    let mut rng = StdRng::seed_from_u64(1);
    let mut simulation = Simulation::new();
    let mut agent = ship();
    simulation.select_with(&mut agent, Behaviour::Wander, v(0, 0));
    agent.position = v(10, 20);
    agent.velocity = v(30, 40);
    let report = simulation.tick(&mut agent, &input(v(0, 0), 500_000), &mut rng);
    assert!(report.steered);
    let wander = report.wander.expect("what wander computed");
    assert_eq!(wander.circle_centre, v(70, 100));
    assert_eq!(wander.target, v(70, 150));
    assert_eq!(agent.velocity, Vec2::new(30 * ONE + 37_382_272, 40 * ONE + 93_494_923));
    assert!((simulation.wander.theta - 1_570_796).abs() <= 300_000);
}

#[test]
fn tick_of_wander_only_lets_the_angle_drift() {
    let mut rng = StdRng::seed_from_u64(1);
    let mut simulation = Simulation::new();
    let mut agent = ship();
    for behaviour in [Behaviour::Seek, Behaviour::Arrive, Behaviour::Flee] {
        simulation.select_with(&mut agent, behaviour, v(0, 0));
        simulation.tick(&mut agent, &input(v(5, 5), 16_667), &mut rng);
        assert_eq!(simulation.wander.theta, 1_570_796);
    }
}

#[test]
fn tick_of_pursue() {
    let mut rng = StdRng::seed_from_u64(1);
    let mut simulation = Simulation::new();
    let mut agent = ship();
    simulation.select_with(&mut agent, Behaviour::Pursue, v(30, -40));
    agent.position = v(0, 0);
    agent.velocity = v(10, 0);
    let mut snapshot = input(v(0, 0), 100_000);
    snapshot.pursuit_target = Some(PursuitTarget { position: v(100, 50), velocity: v(30, -40) });
    let report = simulation.tick(&mut agent, &snapshot, &mut rng);
    assert!(report.steered);
    assert_eq!(report.offset, Some(v(115, 30)));
    assert_eq!(agent.velocity, Vec2::new(10 * ONE + 28_028_518, 7_572_656));
}

#[test]
fn tick_of_evade() {
    let mut rng = StdRng::seed_from_u64(1);
    let mut simulation = Simulation::new();
    let mut agent = ship();
    simulation.select_with(&mut agent, Behaviour::Evade, v(30, -40));
    agent.position = v(0, 0);
    agent.velocity = v(10, 0);
    let mut snapshot = input(v(0, 0), 100_000);
    snapshot.pursuit_target = Some(PursuitTarget { position: v(100, 50), velocity: v(30, -40) });
    let report = simulation.tick(&mut agent, &snapshot, &mut rng);
    assert!(report.steered);
    assert_eq!(report.offset, Some(v(115, 30)));
    assert_eq!(agent.velocity, Vec2::new(10 * ONE - 28_028_518, -7_572_656));
}

#[test]
fn tick_of_pursue_without_a_target_is_skipped() {
    let mut rng = StdRng::seed_from_u64(1);
    for behaviour in [Behaviour::Pursue, Behaviour::Evade] {
        let mut simulation = Simulation::new();
        let mut agent = ship();
        simulation.select_with(&mut agent, behaviour, v(30, -40));
        agent.velocity = v(10, 0);
        let before = agent;
        let report = simulation.tick(&mut agent, &input(v(0, 0), 100_000), &mut rng);
        assert!(!report.steered);
        assert_eq!(report.offset, None);
        assert_eq!(agent, before);
    }
}

#[test]
fn tick_of_path_follow() {
    let mut rng = StdRng::seed_from_u64(1);
    let mut simulation = Simulation::new();
    let mut agent = ship();
    simulation.select_with(&mut agent, Behaviour::PathFollow, v(0, 0));
    agent.position = v(0, -100);
    agent.velocity = v(-50, 0);
    let report = simulation.tick(&mut agent, &input(v(0, 0), 100_000), &mut rng);
    assert!(report.steered);
    assert_eq!(report.path_target, Some(v(0, -160)));
    assert_eq!(agent.velocity, v(-45, -25));

    agent.position = v(-161, -160);
    agent.velocity = v(0, 0);
    let report = simulation.tick(&mut agent, &input(v(0, 0), 100_000), &mut rng);
    assert!(!report.steered);
    assert_eq!(report.path_target, None);
    assert_eq!(agent.velocity, v(0, 0));
}

#[test]
fn labels_name_their_behaviours() {
    assert_eq!(Behaviour::from_label("Seek"), Behaviour::Seek);
    assert_eq!(Behaviour::from_label("Arrive"), Behaviour::Arrive);
    assert_eq!(Behaviour::from_label("Wander"), Behaviour::Wander);
    assert_eq!(Behaviour::from_label("Pursue"), Behaviour::Pursue);
    assert_eq!(Behaviour::from_label("Flee"), Behaviour::Flee);
    assert_eq!(Behaviour::from_label("Evade"), Behaviour::Evade);
    assert_eq!(Behaviour::from_label("PathFollow"), Behaviour::PathFollow);
    for behaviour in ALL {
        assert_eq!(Behaviour::from_label(behaviour.label()), behaviour);
    }
}

#[test]
fn an_unknown_label_names_seek() {
    assert_eq!(Behaviour::from_label(""), Behaviour::Seek);
    assert_eq!(Behaviour::from_label("arrive"), Behaviour::Seek);
    assert_eq!(Behaviour::from_label("Arrive "), Behaviour::Seek);
    assert_eq!(Behaviour::from_label("Pursuer"), Behaviour::Seek);
    assert_eq!(Behaviour::from_label("Wände"), Behaviour::Seek);
}
