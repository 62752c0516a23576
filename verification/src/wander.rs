//! Wander: smooth aimless motion, by steering at a point that drifts round
//! a circle ahead of the agent.

use vstd::prelude::*;
use rand::rngs::StdRng;
use crate::agent::{steered, Agent};
use crate::angle::{wrap_angle, wrapped, HALF_PI};
use crate::arith::{lemma_div_trunc_bound, lemma_product_bound, magnitude, COORD_MAX, ONE};
use crate::entropy::random_range;
use crate::seek::{seek, seek_steer};
use crate::utils::{heading, set_magnitude};
use crate::vector::{Vec2, Vector};

verus! {

/// How far ahead of the agent, along its velocity, the centre of the wander
/// circle lies.
pub const WANDER_DISTANCE: i64 = 100_000_000;

/// The radius of the wander circle.
pub const WANDER_RADIUS: i64 = 50_000_000;

/// The bound of the change of the wander angle in one tick.
pub const WANDER_JITTER: i64 = 300_000;

/// The wander angle: where on the wander circle, counted from the agent's
/// heading, the agent aims. It drifts by a little every tick and is kept
/// from one activation of wander to the next.
#[derive(Clone, Copy, Debug, PartialEq, Eq, Structural)]
pub struct WanderState {
    pub theta: i64,
}

/// The wander angle `theta` after a drift by `displace`, kept within the
/// angles that the library accepts.
pub open spec fn drifted(theta: int, displace: int) -> int {
    let moved = theta + displace;
    if moved < -COORD_MAX {
        -COORD_MAX as int
    } else if moved > COORD_MAX {
        COORD_MAX as int
    } else {
        moved
    }
}

impl WanderState {
    /// Whether the angle is one that the library accepts.
    pub open spec fn wf(self) -> bool {
        -COORD_MAX <= self.theta <= COORD_MAX
    }

    /// The state in which wander starts: a quarter turn.
    pub fn new() -> (r: WanderState)
        ensures
            r.theta == HALF_PI,
            r.wf(),
    {
        WanderState { theta: HALF_PI }
    }

    /// The polar angle of the point of the wander circle at which an agent
    /// aims whose velocity has the polar angle `polar_angle`: the wander
    /// angle, counted from the agent's heading.
    pub fn bearing(&self, polar_angle: i64) -> (r: i64)
        requires
            self.wf(),
        ensures
            r == wrapped(self.theta + wrapped(polar_angle - HALF_PI)),
    {
        wrap_angle(self.theta + heading(polar_angle))
    }

    /// Lets the angle drift by `displace`.
    pub fn drift(&mut self, displace: i64)
        requires
            old(self).wf(),
            -WANDER_JITTER <= displace <= WANDER_JITTER,
        ensures
            final(self).theta == drifted(old(self).theta as int, displace as int),
            final(self).wf(),
            magnitude(final(self).theta - old(self).theta) <= magnitude(displace as int),
            magnitude(final(self).theta - old(self).theta) <= WANDER_JITTER,
    {
        let moved = self.theta + displace;
        self.theta = if moved < -COORD_MAX {
            -COORD_MAX
        } else if moved > COORD_MAX {
            COORD_MAX
        } else {
            moved
        };
    }
}

/// What wander computes: the steering force, and the two points that it
/// went by, for whoever draws them.
#[derive(Clone, Copy, Debug, PartialEq, Eq, Structural)]
pub struct Wander {
    pub steer: Vec2,
    /// The point of the wander circle at which the agent aims.
    pub target: Vec2,
    /// The centre of the wander circle.
    pub circle_centre: Vec2,
}

/// The centre of the wander circle: `WANDER_DISTANCE` ahead of the agent
/// along its velocity.
pub open spec fn wander_centre(position: Vector, velocity: Vector) -> Vector {
    position.plus(velocity.with_magnitude(WANDER_DISTANCE as int))
}

/// The point of the wander circle in the direction `direction` from its
/// centre, `direction` being a vector of length one.
pub open spec fn wander_target(position: Vector, velocity: Vector, direction: Vector) -> Vector {
    wander_centre(position, velocity).plus(direction.scaled(WANDER_RADIUS as int))
}

/// Steers at the point of the wander circle that lies in the direction
/// `direction` from its centre. `direction` is the vector of length one
/// whose polar angle is the wander state's bearing: its cosine and sine.
pub fn wander(position: &Vec2, velocity: &Vec2, max_linear_speed: i64, direction: &Vec2) -> (r: Wander)
    requires
        position.in_world(),
        velocity.in_range(),
        -COORD_MAX <= max_linear_speed <= COORD_MAX,
        direction@.within(ONE as int),
    ensures
        r.circle_centre@ == wander_centre(position@, velocity@),
        r.target@ == wander_target(position@, velocity@, direction@),
        r.steer@ == seek_steer(r.target@, velocity@, max_linear_speed as int, position@),
        r.steer@.within(2 * COORD_MAX),
{
    let circle_centre = position.plus(set_magnitude(*velocity, WANDER_DISTANCE));
    proof {
        lemma_product_bound(direction.x as int, WANDER_RADIUS as int, ONE as int, WANDER_RADIUS as int);
        lemma_product_bound(direction.y as int, WANDER_RADIUS as int, ONE as int, WANDER_RADIUS as int);
        lemma_div_trunc_bound(direction.x * WANDER_RADIUS, ONE as int);
        lemma_div_trunc_bound(direction.y * WANDER_RADIUS, ONE as int);
    }
    let target = circle_centre.plus(direction.scaled(WANDER_RADIUS));
    Wander { steer: seek(&target, velocity, max_linear_speed, position), target, circle_centre }
}

/// One tick of wander with the drift `displace` already drawn: the agent
/// takes up the force that steers at the wander circle, and the wander
/// angle drifts.
pub fn wander_step(agent: &mut Agent, state: &mut WanderState, direction: &Vec2, elapsed: i64, displace: i64) -> (r: Wander)
    requires
        old(agent).wf(),
        old(state).wf(),
        direction@.within(ONE as int),
        -COORD_MAX <= elapsed <= COORD_MAX,
        -WANDER_JITTER <= displace <= WANDER_JITTER,
    ensures
        r.circle_centre@ == wander_centre(old(agent).position@, old(agent).velocity@),
        r.target@ == wander_target(old(agent).position@, old(agent).velocity@, direction@),
        r.steer@ == seek_steer(r.target@, old(agent).velocity@, old(agent).max_linear_speed as int, old(agent).position@),
        final(agent).velocity@ == steered(old(agent).velocity@, r.steer@, elapsed as int),
        *final(agent) == (Agent { velocity: final(agent).velocity, ..*old(agent) }),
        final(agent).wf(),
        final(state).theta == drifted(old(state).theta as int, displace as int),
        final(state).wf(),
{
    let r = wander(&agent.position, &agent.velocity, agent.max_linear_speed, direction);
    agent.apply_steering(r.steer, elapsed);
    state.drift(displace);
    r
}

/// One tick of wander: `wander_step` with a drift drawn from `rng`, of less
/// than `WANDER_JITTER` either way.
pub fn wander_system(agent: &mut Agent, state: &mut WanderState, direction: &Vec2, elapsed: i64, rng: &mut StdRng) -> (r: Wander)
    requires
        old(agent).wf(),
        old(state).wf(),
        direction@.within(ONE as int),
        -COORD_MAX <= elapsed <= COORD_MAX,
    ensures
        r.circle_centre@ == wander_centre(old(agent).position@, old(agent).velocity@),
        r.target@ == wander_target(old(agent).position@, old(agent).velocity@, direction@),
        r.steer@ == seek_steer(r.target@, old(agent).velocity@, old(agent).max_linear_speed as int, old(agent).position@),
        final(agent).velocity@ == steered(old(agent).velocity@, r.steer@, elapsed as int),
        *final(agent) == (Agent { velocity: final(agent).velocity, ..*old(agent) }),
        final(agent).wf(),
        exists|displace: int| -WANDER_JITTER <= displace < WANDER_JITTER
            && final(state).theta == #[trigger] drifted(old(state).theta as int, displace),
        magnitude(final(state).theta - old(state).theta) <= WANDER_JITTER,
        final(state).wf(),
{
    let displace = random_range(rng, -WANDER_JITTER, WANDER_JITTER);
    wander_step(agent, state, direction, elapsed, displace)
}

} // verus!
