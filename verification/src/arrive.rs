//! Arrive: steering at a point, and slowing down near it so as not to
//! overshoot.

use vstd::prelude::*;
use crate::agent::Agent;
use crate::arith::{lemma_div_bounds, COORD_MAX, ONE};
use crate::utils::{adjust_magnitude, adjusted, lemma_fine_length, lemma_with_magnitude_within, set_magnitude};
use crate::vector::{lemma_scaled_by_one, Vec2, Vector};

verus! {

/// The distance from the target below which `arrive` slows down.
pub const ARRIVAL_RADIUS: i64 = 60_000_000;

/// The speed that `arrive` commands where the distance to the target equals
/// the agent's highest speed; it commands no more than this within the
/// arrival radius.
pub const ARRIVAL_SPEED: i64 = 100_000_000;

/// The speed that arrive commands at `distance` from the target: the
/// highest speed outside the arrival radius; inside it, the distance
/// remapped from the range up to the highest speed to the range up to
/// `ARRIVAL_SPEED`.
pub open spec fn arrival_speed(distance: int, max_speed: int) -> int {
    if distance < ARRIVAL_RADIUS {
        adjusted(distance, 0, max_speed, 0, ARRIVAL_SPEED as int)
    } else {
        max_speed
    }
}

/// The steering force of arrive: that of seek, with the speed that
/// `arrival_speed` commands at the agent's distance from the target.
pub open spec fn arrive_steer(target: Vector, velocity: Vector, max_speed: int, position: Vector) -> Vector {
    let desired = target.minus(position);
    desired.with_magnitude(arrival_speed(desired.length(), max_speed)).minus(velocity)
}

/// The velocity that arrive commands: straight at the target, at the speed
/// that `arrival_speed` gives for the distance.
pub open spec fn arrival_velocity(target: Vector, max_speed: int, position: Vector) -> Vector {
    let desired = target.minus(position);
    desired.with_magnitude(arrival_speed(desired.length(), max_speed))
}

/// Steers at `target`, slowing down within the arrival radius.
pub fn arrive(target: &Vec2, velocity: &Vec2, max_linear_speed: i64, position: &Vec2) -> (steer: Vec2)
    requires
        target.in_range(),
        velocity.in_range(),
        position.in_range(),
        -COORD_MAX <= max_linear_speed <= COORD_MAX,
    ensures
        steer@ == arrive_steer(target@, velocity@, max_linear_speed as int, position@),
        steer@.within(2 * COORD_MAX),
{
    let desired = target.minus(*position);
    let distance = desired.length();
    let speed = if distance < ARRIVAL_RADIUS {
        adjust_magnitude(distance, 0, max_linear_speed, 0, ARRIVAL_SPEED)
    } else {
        max_linear_speed
    };
    set_magnitude(desired, speed).minus(*velocity)
}

/// Within the arrival radius the commanded speed falls with the distance
/// and vanishes with it: it is at most the distance times `ARRIVAL_SPEED`
/// over the highest speed, it is zero at the target, and it never grows as
/// the agent comes closer.
pub proof fn lemma_arrival_speed_vanishes(distance: int, closer: int, max_speed: int)
    requires
        0 <= closer <= distance < ARRIVAL_RADIUS,
        max_speed > 0,
    ensures
        0 <= arrival_speed(distance, max_speed) <= ARRIVAL_SPEED,
        arrival_speed(distance, max_speed) * max_speed <= distance * ARRIVAL_SPEED,
        arrival_speed(closer, max_speed) <= arrival_speed(distance, max_speed),
        arrival_speed(0, max_speed) == 0,
{
    let far = distance * ARRIVAL_SPEED;
    let near = closer * ARRIVAL_SPEED;
    lemma_div_bounds(far, max_speed);
    lemma_div_bounds(near, max_speed);
    lemma_div_bounds(0, max_speed);
    vstd::arithmetic::div_mod::lemma_div_is_ordered(near, far, max_speed);
    assert(0int / max_speed == 0) by (nonlinear_arith)
        requires
            max_speed > 0,
    ;
    let speed = arrival_speed(distance, max_speed);
    assert(speed * max_speed <= (far / max_speed) * max_speed) by (nonlinear_arith)
        requires
            speed <= far / max_speed,
            max_speed > 0,
    ;
}

/// Within the arrival radius no component of the velocity that arrive
/// commands exceeds the commanded speed, and so none exceeds the distance
/// times `ARRIVAL_SPEED` over the highest speed: the commanded velocity
/// vanishes with the distance.
pub proof fn lemma_arrival_velocity_vanishes(target: Vector, max_speed: int, position: Vector)
    requires
        target.minus(position).length() < ARRIVAL_RADIUS,
        max_speed > 0,
    ensures
        arrival_velocity(target, max_speed, position).within(
            arrival_speed(target.minus(position).length(), max_speed),
        ),
        arrival_speed(target.minus(position).length(), max_speed) * max_speed <= target.minus(position).length()
            * ARRIVAL_SPEED,
{
    let desired = target.minus(position);
    let distance = desired.length();
    assert(desired.norm_sq() >= 0) by (nonlinear_arith)
        requires
            desired.norm_sq() == desired.x * desired.x + desired.y * desired.y,
    ;
    crate::arith::lemma_floor_sqrt(desired.norm_sq());
    lemma_arrival_speed_vanishes(distance, distance, max_speed);
    lemma_with_magnitude_within(target.minus(position), arrival_speed(distance, max_speed));
}

/// At the target, arrive cancels the agent's velocity: the agent stops.
pub proof fn lemma_arrive_at_target_stops(position: Vector, velocity: Vector, max_speed: int)
    ensures
        arrive_steer(position, velocity, max_speed, position) == velocity.negated(),
{
}

/// One tick of arrive: the agent takes up, whole and whatever the tick's
/// duration, the force that steers at `target` and slows down near it.
pub fn arrive_system(agent: &mut Agent, target: &Vec2)
    requires
        old(agent).wf(),
        target.in_range(),
    ensures
        final(agent).velocity@ == old(agent).velocity@.plus(
            arrive_steer(target@, old(agent).velocity@, old(agent).max_linear_speed as int, old(agent).position@),
        ),
        final(agent).velocity@ == arrival_velocity(target@, old(agent).max_linear_speed as int, old(agent).position@),
        *final(agent) == (Agent { velocity: final(agent).velocity, ..*old(agent) }),
        final(agent).wf(),
{
    let steer = arrive(target, &agent.velocity, agent.max_linear_speed, &agent.position);
    proof {
        lemma_scaled_by_one(steer@);
        let desired = target@.minus(agent.position@);
        let speed = arrival_speed(desired.length(), agent.max_linear_speed as int);
        if desired != Vector::zero() {
            lemma_fine_length(desired);
            lemma_with_magnitude_within(desired, speed);
        }
    }
    agent.apply_steering(steer, ONE);
}

} // verus!
