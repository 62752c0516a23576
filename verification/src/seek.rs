//! Seek: steering straight at a point at full speed. The other behaviours
//! build on it.

use vstd::prelude::*;
use crate::agent::{steered, Agent};
use crate::arith::COORD_MAX;
use crate::utils::set_magnitude;
use crate::vector::{Vec2, Vector};

verus! {

/// The steering force of seek: the velocity of highest speed straight at the
/// target, less the current velocity. At the target itself no direction is
/// desired, and the force cancels the current velocity.
pub open spec fn seek_steer(target: Vector, velocity: Vector, max_speed: int, position: Vector) -> Vector {
    target.minus(position).with_magnitude(max_speed).minus(velocity)
}

/// Steers straight at `target` at the speed `max_linear_speed`.
pub fn seek(target: &Vec2, velocity: &Vec2, max_linear_speed: i64, position: &Vec2) -> (steer: Vec2)
    requires
        target.in_range(),
        velocity.in_range(),
        position.in_range(),
        -COORD_MAX <= max_linear_speed <= COORD_MAX,
    ensures
        steer@ == seek_steer(target@, velocity@, max_linear_speed as int, position@),
        steer@.within(2 * COORD_MAX),
{
    let to_target = target.minus(*position);
    let desired = set_magnitude(to_target, max_linear_speed);
    desired.minus(*velocity)
}

/// One tick of seek: the agent takes up the force that steers at `target`.
pub fn seek_system(agent: &mut Agent, target: &Vec2, elapsed: i64)
    requires
        old(agent).wf(),
        target.in_range(),
        -COORD_MAX <= elapsed <= COORD_MAX,
    ensures
        final(agent).velocity@ == steered(
            old(agent).velocity@,
            seek_steer(target@, old(agent).velocity@, old(agent).max_linear_speed as int, old(agent).position@),
            elapsed as int,
        ),
        *final(agent) == (Agent { velocity: final(agent).velocity, ..*old(agent) }),
        final(agent).wf(),
{
    let steer = seek(target, &agent.velocity, agent.max_linear_speed, &agent.position);
    agent.apply_steering(steer, elapsed);
}

} // verus!
