//! The edges of the world: what becomes of a position that has left the
//! box around the origin in which the agents are kept.

use vstd::prelude::*;
use crate::vector::{Vec2, Vector};

verus! {

/// Half the width of the box in which the agents are kept.
pub const HALF_WIDTH: i64 = 400_000_000;

/// Half the height of the box in which the agents are kept.
pub const HALF_HEIGHT: i64 = 300_000_000;

/// What becomes of a position that has left the box.
#[derive(Clone, Copy, Debug, PartialEq, Eq, Hash, Structural)]
pub enum EdgePolicy {
    /// It appears again on the opposite edge.
    Wrap,
    /// It stops at the edge that it crossed.
    Stop,
}

/// What becomes of one coordinate in a box that reaches `half` either way.
pub open spec fn kept_coordinate(coordinate: int, half: int, policy: EdgePolicy) -> int {
    if coordinate > half {
        match policy {
            EdgePolicy::Wrap => -half,
            EdgePolicy::Stop => half,
        }
    } else if coordinate < -half {
        match policy {
            EdgePolicy::Wrap => half,
            EdgePolicy::Stop => -half,
        }
    } else {
        coordinate
    }
}

/// What becomes of `position` in the box that reaches `half_width` and
/// `half_height` either way from the origin.
pub open spec fn kept_in_bounds(position: Vector, half_width: int, half_height: int, policy: EdgePolicy) -> Vector {
    Vector {
        x: kept_coordinate(position.x, half_width, policy),
        y: kept_coordinate(position.y, half_height, policy),
    }
}

/// Keeps one coordinate in a box that reaches `half` either way.
fn keep_coordinate(coordinate: i64, half: i64, policy: EdgePolicy) -> (r: i64)
    requires
        half >= 0,
    ensures
        r == kept_coordinate(coordinate as int, half as int, policy),
        -half <= r <= half,
{
    if coordinate > half {
        match policy {
            EdgePolicy::Wrap => -half,
            EdgePolicy::Stop => half,
        }
    } else if coordinate < -half {
        match policy {
            EdgePolicy::Wrap => half,
            EdgePolicy::Stop => -half,
        }
    } else {
        coordinate
    }
}

/// Keeps `position` in the box that reaches `half_width` and `half_height`
/// either way from the origin: a position inside stays, one outside goes
/// where `policy` says.
pub fn keep_in_bounds(position: Vec2, half_width: i64, half_height: i64, policy: EdgePolicy) -> (r: Vec2)
    requires
        half_width >= 0,
        half_height >= 0,
    ensures
        r@ == kept_in_bounds(position@, half_width as int, half_height as int, policy),
        -half_width <= r.x <= half_width,
        -half_height <= r.y <= half_height,
{
    Vec2 { x: keep_coordinate(position.x, half_width, policy), y: keep_coordinate(position.y, half_height, policy) }
}

/// One tick of edge keeping, in the box of `HALF_WIDTH` by `HALF_HEIGHT`.
pub fn clamp_edges_system(position: &mut Vec2, policy: EdgePolicy)
    ensures
        final(position)@ == kept_in_bounds(old(position)@, HALF_WIDTH as int, HALF_HEIGHT as int, policy),
        final(position).in_world(),
{
    *position = keep_in_bounds(*position, HALF_WIDTH, HALF_HEIGHT, policy);
}

} // verus!
