//! The kinematic state of an agent, and the two steps that change it each
//! tick: taking up a steering force, and turning to face the way it moves.

use vstd::prelude::*;
use crate::angle::{wrap_angle, wrapped, HALF_PI, PI};
use crate::arith::{div_trunc, lemma_div_trunc_bound, lemma_product_bound, mul_div, COORD_MAX, ONE};
use crate::utils::heading;
use crate::vector::{Vec2, Vector};

verus! {

/// The highest speed of a ship when nothing has raised it.
pub const SHIP_MAX_LINEAR_SPEED: i64 = 250_000_000;

/// The highest angular speed of a ship.
pub const SHIP_MAX_ANGULAR_SPEED: i64 = 10_000_000;

/// A ship: where it is, how it moves, how fast it may move and turn, and
/// which way it faces.
#[derive(Clone, Copy, Debug, PartialEq, Eq, Structural)]
pub struct Agent {
    pub position: Vec2,
    pub velocity: Vec2,
    pub max_linear_speed: i64,
    pub max_angular_speed: i64,
    /// The angle by which the agent is turned, in the interval from `-PI`,
    /// excluded, to `PI`, included.
    pub orientation: i64,
}

/// The velocity after a tick of `elapsed` seconds under the steering force
/// `steer`, kept within the coordinates that the library accepts.
pub open spec fn steered(velocity: Vector, steer: Vector, elapsed: int) -> Vector {
    velocity.plus(steer.scaled(elapsed)).clamped(COORD_MAX as int)
}

/// The orientation after a turn from `orientation` toward `heading` by the
/// part `fraction` of the shorter way round.
pub open spec fn turned(orientation: int, heading: int, fraction: int) -> int {
    wrapped(orientation + div_trunc(wrapped(heading - orientation) * fraction, ONE as int))
}

/// The part of the way to the heading that an agent turns in `elapsed`
/// seconds: its highest angular speed times the duration.
pub open spec fn turn_fraction(max_angular_speed: int, elapsed: int) -> int {
    div_trunc(max_angular_speed * elapsed, ONE as int)
}

impl Agent {
    /// A ship at rest at `position`, facing along its forward axis, with
    /// the speed limits of a ship.
    pub fn new(position: Vec2) -> (r: Agent)
        requires
            position.in_world(),
        ensures
            r == (Agent {
                position,
                velocity: Vec2 { x: 0, y: 0 },
                max_linear_speed: SHIP_MAX_LINEAR_SPEED,
                max_angular_speed: SHIP_MAX_ANGULAR_SPEED,
                orientation: 0,
            }),
            r.wf(),
    {
        Agent {
            position,
            velocity: Vec2 { x: 0, y: 0 },
            max_linear_speed: SHIP_MAX_LINEAR_SPEED,
            max_angular_speed: SHIP_MAX_ANGULAR_SPEED,
            orientation: 0,
        }
    }

    /// Whether the agent's state is one that the behaviours accept: a
    /// position in the world, a velocity and speed limits within the
    /// library's coordinates, and an orientation in the principal interval.
    pub open spec fn wf(self) -> bool {
        &&& self.position.in_world()
        &&& self.velocity.in_range()
        &&& 0 <= self.max_linear_speed <= COORD_MAX
        &&& 0 <= self.max_angular_speed <= COORD_MAX
        &&& -PI < self.orientation <= PI
    }

    /// Adds to the velocity the steering force `steer`, scaled by the
    /// `elapsed` seconds of the tick. Nothing else changes.
    pub fn apply_steering(&mut self, steer: Vec2, elapsed: i64)
        requires
            old(self).velocity.in_range(),
            steer@.within(4 * COORD_MAX),
            -COORD_MAX <= elapsed <= COORD_MAX,
        ensures
            final(self).velocity@ == steered(old(self).velocity@, steer@, elapsed as int),
            final(self).velocity.in_range(),
            *final(self) == (Agent { velocity: final(self).velocity, ..*old(self) }),
    {
        proof {
            lemma_product_bound(steer.x as int, elapsed as int, 4 * COORD_MAX, COORD_MAX as int);
            lemma_product_bound(steer.y as int, elapsed as int, 4 * COORD_MAX, COORD_MAX as int);
            lemma_div_trunc_bound(steer.x * elapsed, ONE as int);
            lemma_div_trunc_bound(steer.y * elapsed, ONE as int);
            assert(4 * COORD_MAX * COORD_MAX == 0x4_0000_0000_0000_0000_0000) by (nonlinear_arith)
                requires
                    COORD_MAX == 0x100_0000_0000,
            ;
        }
        let delta = steer.scaled(elapsed);
        self.velocity = self.velocity.plus(delta).clamped();
    }
}

/// One tick of turning: the agent turns toward the heading of its velocity,
/// whose polar angle is `polar_angle`, by the shorter way round and by the
/// part of it that its highest angular speed covers in `elapsed` seconds.
/// An agent that does not move has no heading and keeps its orientation.
pub fn rotate_system(agent: &mut Agent, polar_angle: i64, elapsed: i64)
    requires
        old(agent).wf(),
        -COORD_MAX <= elapsed <= COORD_MAX,
    ensures
        final(agent).orientation == (if old(agent).velocity@ == Vector::zero() {
            old(agent).orientation as int
        } else {
            turned(
                old(agent).orientation as int,
                wrapped(polar_angle - HALF_PI),
                turn_fraction(old(agent).max_angular_speed as int, elapsed as int),
            )
        }),
        *final(agent) == (Agent { orientation: final(agent).orientation, ..*old(agent) }),
        final(agent).wf(),
{
    if agent.velocity.is_zero() {
        return ;
    }
    let toward = heading(polar_angle);
    proof {
        lemma_product_bound(agent.max_angular_speed as int, elapsed as int, COORD_MAX as int, COORD_MAX as int);
        assert(COORD_MAX * COORD_MAX == 0x1_0000_0000_0000_0000_0000) by (nonlinear_arith)
            requires
                COORD_MAX == 0x100_0000_0000,
        ;
        lemma_div_trunc_bound(agent.max_angular_speed * elapsed, ONE as int);
    }
    let fraction = mul_div(agent.max_angular_speed, elapsed, ONE);
    let way = wrap_angle(toward - agent.orientation);
    proof {
        lemma_product_bound(way as int, fraction as int, PI as int, 0x1_0000_0000_0000_0000_0000int / 1_000_000);
        lemma_div_trunc_bound(way * fraction, ONE as int);
    }
    let step = mul_div(way, fraction, ONE);
    agent.orientation = wrap_angle(agent.orientation + step);
}

} // verus!
