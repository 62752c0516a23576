//! Pursuit: chasing a moving target by steering at the point where it is
//! about to be, and the target's own rules.

use vstd::prelude::*;
use rand::rngs::StdRng;
use crate::agent::{steered, Agent};
use crate::arith::{magnitude, COORD_MAX};
use crate::command::{pursuit_despawns, pursuit_spawns, Command, Marker};
use crate::entropy::random_range;
use crate::seek::{seek, seek_steer};
use crate::utils::{lemma_set_magnitude_direction, lemma_set_magnitude_length, set_magnitude, FINE};
use crate::vector::{Vec2, Vector};

verus! {

/// How far ahead of the target, along its velocity, its pursuer aims.
pub const PURSUIT_LOOKAHEAD: i64 = 25_000_000;

/// The highest speed of the agent while it pursues or evades.
pub const PURSUIT_MAX_SPEED: i64 = 300_000_000;

/// The bound of the numbers drawn for a new target's velocity, which is ten
/// times what is drawn.
pub const TARGET_SPEED_DRAW: i64 = 20_000_000;

/// The bound of the coordinates drawn for the position at which a caught
/// target appears again.
pub const TARGET_RESPAWN_RANGE: i64 = 300_000_000;

/// The moving point that pursue chases and evade avoids.
#[derive(Clone, Copy, Debug, PartialEq, Eq, Structural)]
pub struct PursuitTarget {
    pub position: Vec2,
    pub velocity: Vec2,
}

/// A contact that the physics step reports between two bodies, each named
/// by its identifier.
#[derive(Clone, Copy, Debug, PartialEq, Eq, Structural)]
pub struct Collision {
    pub first: u64,
    pub second: u64,
}

/// The velocity of a new target, from the two numbers drawn for it.
pub open spec fn drawn_velocity(x: int, y: int) -> Vector {
    Vector { x: 10 * x, y: 10 * y }
}

/// Whether `velocity` is one that a new target may get: ten times a pair of
/// numbers of the range that is drawn from.
pub open spec fn is_drawn_velocity(velocity: Vector) -> bool {
    exists|x: int, y: int|
        -TARGET_SPEED_DRAW <= x < TARGET_SPEED_DRAW && -TARGET_SPEED_DRAW <= y < TARGET_SPEED_DRAW
            && velocity == #[trigger] drawn_velocity(x, y)
}

/// Whether `position` is one at which a caught target may appear again.
pub open spec fn is_respawn_position(position: Vector) -> bool {
    &&& -TARGET_RESPAWN_RANGE <= position.x < TARGET_RESPAWN_RANGE
    &&& -TARGET_RESPAWN_RANGE <= position.y < TARGET_RESPAWN_RANGE
}

/// The point at which a pursuer aims: `PURSUIT_LOOKAHEAD` ahead of the
/// target along the target's velocity; the target's own position where it
/// does not move.
pub open spec fn interception_point(target_position: Vector, target_velocity: Vector) -> Vector {
    target_position.plus(target_velocity.with_magnitude(PURSUIT_LOOKAHEAD as int))
}

impl PursuitTarget {
    /// Whether the target's state is one that the behaviours accept.
    pub open spec fn wf(self) -> bool {
        &&& self.position.in_world()
        &&& self.velocity.in_range()
    }

    /// The velocity of a new target for which `x` and `y` were drawn: ten
    /// times each.
    pub fn velocity_from_draws(x: i64, y: i64) -> (r: Vec2)
        requires
            -TARGET_SPEED_DRAW <= x < TARGET_SPEED_DRAW,
            -TARGET_SPEED_DRAW <= y < TARGET_SPEED_DRAW,
        ensures
            r@ == drawn_velocity(x as int, y as int),
            is_drawn_velocity(r@),
            r.in_range(),
    {
        Vec2 { x: 10 * x, y: 10 * y }
    }

    /// The velocity of a new target, drawn from `rng`.
    pub fn random_velocity(rng: &mut StdRng) -> (r: Vec2)
        ensures
            is_drawn_velocity(r@),
            r.in_range(),
    {
        let x = random_range(rng, -TARGET_SPEED_DRAW, TARGET_SPEED_DRAW);
        let y = random_range(rng, -TARGET_SPEED_DRAW, TARGET_SPEED_DRAW);
        PursuitTarget::velocity_from_draws(x, y)
    }

    /// A target that appears again after it was caught: at a position and
    /// with a velocity drawn from `rng`.
    pub fn respawn(rng: &mut StdRng) -> (r: PursuitTarget)
        ensures
            is_drawn_velocity(r.velocity@),
            is_respawn_position(r.position@),
            r.wf(),
    {
        let velocity = PursuitTarget::random_velocity(rng);
        let x = random_range(rng, -TARGET_RESPAWN_RANGE, TARGET_RESPAWN_RANGE);
        let y = random_range(rng, -TARGET_RESPAWN_RANGE, TARGET_RESPAWN_RANGE);
        PursuitTarget { position: Vec2 { x, y }, velocity }
    }

    /// The point at which a pursuer of this target aims.
    pub fn interception_point(&self) -> (r: Vec2)
        requires
            self.wf(),
        ensures
            r@ == interception_point(self.position@, self.velocity@),
            r.in_range(),
    {
        self.position.plus(set_magnitude(self.velocity, PURSUIT_LOOKAHEAD))
    }
}

/// What pursue and evade compute: the steering force, and the point that
/// they went by, which a marker tracks.
#[derive(Clone, Copy, Debug, PartialEq, Eq, Structural)]
pub struct Pursuit {
    pub steer: Vec2,
    pub offset: Vec2,
}

/// Steers at the point where `target` is about to be.
pub fn pursue(target: &PursuitTarget, velocity: &Vec2, max_linear_speed: i64, position: &Vec2) -> (r: Pursuit)
    requires
        target.wf(),
        velocity.in_range(),
        position.in_range(),
        -COORD_MAX <= max_linear_speed <= COORD_MAX,
    ensures
        r.offset@ == interception_point(target.position@, target.velocity@),
        r.steer@ == seek_steer(r.offset@, velocity@, max_linear_speed as int, position@),
        r.steer@.within(2 * COORD_MAX),
{
    let offset = target.interception_point();
    Pursuit { steer: seek(&offset, velocity, max_linear_speed, position), offset }
}

/// One tick of pursue: the agent takes up the force that steers at the
/// point where `target` is about to be. Returns that point.
pub fn pursue_system(agent: &mut Agent, target: &PursuitTarget, elapsed: i64) -> (offset: Vec2)
    requires
        old(agent).wf(),
        target.wf(),
        -COORD_MAX <= elapsed <= COORD_MAX,
    ensures
        offset@ == interception_point(target.position@, target.velocity@),
        final(agent).velocity@ == steered(
            old(agent).velocity@,
            seek_steer(offset@, old(agent).velocity@, old(agent).max_linear_speed as int, old(agent).position@),
            elapsed as int,
        ),
        *final(agent) == (Agent { velocity: final(agent).velocity, ..*old(agent) }),
        final(agent).wf(),
{
    let r = pursue(target, &agent.velocity, agent.max_linear_speed, &agent.position);
    agent.apply_steering(r.steer, elapsed);
    r.offset
}

/// The catch-and-reset rule: for each contact reported, the target appears
/// again at a position and with a velocity drawn from `rng`. Without a
/// contact nothing changes.
pub fn reset_pursue_target(target: &mut PursuitTarget, collisions: &Vec<Collision>, rng: &mut StdRng)
    ensures
        collisions@.len() == 0 ==> *final(target) == *old(target),
        collisions@.len() > 0 ==> is_drawn_velocity(final(target).velocity@) && is_respawn_position(
            final(target).position@,
        ) && final(target).wf(),
{
    let mut i: usize = 0;
    while i < collisions.len()
        invariant
            i <= collisions@.len(),
            i == 0 ==> *target == *old(target),
            i > 0 ==> is_drawn_velocity(target.velocity@) && is_respawn_position(target.position@) && target.wf(),
        decreases collisions@.len() - i,
    {
        *target = PursuitTarget::respawn(rng);
        i += 1;
    }
}

/// The point at which a pursuer aims lies ahead of a moving target, along
/// the target's velocity, by `PURSUIT_LOOKAHEAD`, up to what rounding takes
/// away: the offset from the target is longer than the lookahead by at most
/// one part in `FINE`, one raw unit more in each component makes it at
/// least as long, it leaves the line of the velocity by less than the cross
/// product of one raw unit in each component, and it does not point
/// backward.
pub proof fn lemma_interception_point_is_ahead(target_position: Vector, target_velocity: Vector)
    requires
        target_velocity != Vector::zero(),
    ensures
        ({
            let offset = interception_point(target_position, target_velocity).minus(target_position);
            &&& offset.norm_sq() * FINE * FINE <= PURSUIT_LOOKAHEAD * PURSUIT_LOOKAHEAD * (FINE + 1) * (FINE + 1)
            &&& (magnitude(offset.x) + 1) * (magnitude(offset.x) + 1) + (magnitude(offset.y) + 1) * (magnitude(offset.y) + 1)
                > PURSUIT_LOOKAHEAD * PURSUIT_LOOKAHEAD
            &&& magnitude(offset.cross(target_velocity)) < magnitude(target_velocity.x) + magnitude(target_velocity.y)
            &&& offset.dot(target_velocity) >= 0
        }),
{
    lemma_set_magnitude_length(target_velocity, PURSUIT_LOOKAHEAD as int);
    lemma_set_magnitude_direction(target_velocity, PURSUIT_LOOKAHEAD as int);
    let offset = interception_point(target_position, target_velocity).minus(target_position);
    assert(offset == target_velocity.with_magnitude(PURSUIT_LOOKAHEAD as int));
}

/// The enter hook of pursue and evade, for a pursuit target that is to move
/// with `target_velocity`: raises the agent's highest speed to
/// `PURSUIT_MAX_SPEED` and asks for the pursuit target and the mark.
pub fn on_start_pursue_with(agent: &mut Agent, target_velocity: Vec2) -> (commands: Vec<Command>)
    ensures
        commands@ == pursuit_spawns(target_velocity),
        *final(agent) == (Agent { max_linear_speed: PURSUIT_MAX_SPEED, ..*old(agent) }),
{
    agent.max_linear_speed = PURSUIT_MAX_SPEED;
    let mut commands: Vec<Command> = Vec::new();
    commands.push(Command::Spawn { marker: Marker::PursuitTarget, position: Vec2 { x: 0, y: 0 }, velocity: target_velocity });
    commands.push(
        Command::Spawn { marker: Marker::PursuitOffset, position: Vec2 { x: 0, y: 0 }, velocity: Vec2 { x: 0, y: 0 } },
    );
    assert(commands@ =~= pursuit_spawns(target_velocity));
    commands
}

/// The enter hook of pursue and evade: `on_start_pursue_with` a velocity
/// drawn from `rng`.
pub fn on_start_pursue(agent: &mut Agent, rng: &mut StdRng) -> (commands: Vec<Command>)
    ensures
        exists|target_velocity: Vec2| is_drawn_velocity(target_velocity@) && commands@ == #[trigger] pursuit_spawns(target_velocity),
        *final(agent) == (Agent { max_linear_speed: PURSUIT_MAX_SPEED, ..*old(agent) }),
{
    let target_velocity = PursuitTarget::random_velocity(rng);
    on_start_pursue_with(agent, target_velocity)
}

/// The exit hook of pursue and evade: asks for the pursuit target and the
/// mark to go, and gives the agent back its own highest speed, `own_speed`,
/// where one was kept.
pub fn clean_up_pursue(agent: &mut Agent, own_speed: Option<i64>) -> (commands: Vec<Command>)
    ensures
        commands@ == pursuit_despawns(),
        *final(agent) == (Agent {
            max_linear_speed: match own_speed {
                Some(speed) => speed,
                None => old(agent).max_linear_speed,
            },
            ..*old(agent)
        }),
{
    if let Some(speed) = own_speed {
        agent.max_linear_speed = speed;
    }
    let mut commands: Vec<Command> = Vec::new();
    commands.push(Command::Despawn { marker: Marker::PursuitTarget });
    commands.push(Command::Despawn { marker: Marker::PursuitOffset });
    assert(commands@ =~= pursuit_despawns());
    commands
}

} // verus!
