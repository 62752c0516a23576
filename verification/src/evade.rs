//! The behaviours that steer away: flee from a point, evade a moving
//! target.

use vstd::prelude::*;
use crate::agent::{steered, Agent};
use crate::arith::COORD_MAX;
use crate::pursue::{interception_point, pursue, Pursuit, PursuitTarget};
use crate::seek::{seek, seek_steer};
use crate::vector::Vec2;

verus! {

/// Steers straight away from `target`: the force of seek, reversed.
pub fn flee(target: &Vec2, velocity: &Vec2, max_linear_speed: i64, position: &Vec2) -> (steer: Vec2)
    requires
        target.in_range(),
        velocity.in_range(),
        position.in_range(),
        -COORD_MAX <= max_linear_speed <= COORD_MAX,
    ensures
        steer@ == seek_steer(target@, velocity@, max_linear_speed as int, position@).negated(),
        steer@.within(2 * COORD_MAX),
{
    seek(target, velocity, max_linear_speed, position).negated()
}

/// Steers away from the point where `target` is about to be: the force of
/// pursue, reversed.
pub fn evade(target: &PursuitTarget, velocity: &Vec2, max_linear_speed: i64, position: &Vec2) -> (r: Pursuit)
    requires
        target.wf(),
        velocity.in_range(),
        position.in_range(),
        -COORD_MAX <= max_linear_speed <= COORD_MAX,
    ensures
        r.offset@ == interception_point(target.position@, target.velocity@),
        r.steer@ == seek_steer(r.offset@, velocity@, max_linear_speed as int, position@).negated(),
        r.steer@.within(2 * COORD_MAX),
{
    let chase = pursue(target, velocity, max_linear_speed, position);
    Pursuit { steer: chase.steer.negated(), offset: chase.offset }
}

/// One tick of evade: the agent takes up the force that steers away from
/// the point where `target` is about to be. Returns that point.
pub fn evade_system(agent: &mut Agent, target: &PursuitTarget, elapsed: i64) -> (offset: Vec2)
    requires
        old(agent).wf(),
        target.wf(),
        -COORD_MAX <= elapsed <= COORD_MAX,
    ensures
        offset@ == interception_point(target.position@, target.velocity@),
        final(agent).velocity@ == steered(
            old(agent).velocity@,
            seek_steer(offset@, old(agent).velocity@, old(agent).max_linear_speed as int, old(agent).position@).negated(),
            elapsed as int,
        ),
        *final(agent) == (Agent { velocity: final(agent).velocity, ..*old(agent) }),
        final(agent).wf(),
{
    let r = evade(target, &agent.velocity, agent.max_linear_speed, &agent.position);
    agent.apply_steering(r.steer, elapsed);
    r.offset
}

/// One tick of flee: the agent takes up the force that steers away from
/// `target`.
pub fn flee_system(agent: &mut Agent, target: &Vec2, elapsed: i64)
    requires
        old(agent).wf(),
        target.in_range(),
        -COORD_MAX <= elapsed <= COORD_MAX,
    ensures
        final(agent).velocity@ == steered(
            old(agent).velocity@,
            seek_steer(target@, old(agent).velocity@, old(agent).max_linear_speed as int, old(agent).position@).negated(),
            elapsed as int,
        ),
        *final(agent) == (Agent { velocity: final(agent).velocity, ..*old(agent) }),
        final(agent).wf(),
{
    let steer = flee(target, &agent.velocity, agent.max_linear_speed, &agent.position);
    agent.apply_steering(steer, elapsed);
}

} // verus!
