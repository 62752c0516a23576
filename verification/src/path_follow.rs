//! Path following: staying within a tolerance of a closed loop of
//! waypoints.

use vstd::prelude::*;
use crate::agent::{steered, Agent};
use crate::arith::{div_trunc, lemma_div_trunc_bound, lemma_product_bound, COORD_MAX, WORLD_MAX};
use crate::command::{waypoint_despawns, waypoint_spawns, Command, Marker};
use crate::seek::{seek, seek_steer};
use crate::utils::set_magnitude;
use crate::vector::{Vec2, Vector};

verus! {

/// How far ahead of the agent, along its velocity, path following looks, and
/// how far beyond the nearest point of the path it aims.
pub const PATH_LOOKAHEAD: i64 = 15_000_000;

/// A closed loop of waypoints, the last joined to the first, and the
/// distance from it within which an agent counts as on the path.
#[derive(Clone, Debug)]
pub struct Path {
    pub points: Vec<Vec2>,
    pub radius: i64,
}

/// What a `Path` stands for: its waypoints as vectors, and its tolerance.
pub struct PathView {
    pub points: Seq<Vector>,
    pub radius: int,
}

impl View for Path {
    type V = PathView;

    open spec fn view(&self) -> PathView {
        PathView {
            points: Seq::new(self.points@.len(), |i: int| self.points@[i]@),
            radius: self.radius as int,
        }
    }
}

impl Path {
    /// Whether the path is one that can be followed: at least two waypoints,
    /// each a position in the world, and a tolerance that is not negative.
    pub open spec fn wf(self) -> bool {
        &&& self.points@.len() >= 2
        &&& forall|i: int| 0 <= i < self.points@.len() ==> (#[trigger] self.points@[i]).in_world()
        &&& 0 <= self.radius <= COORD_MAX
    }
}

/// The waypoints of the loop that is laid out when path following starts.
pub open spec fn default_waypoints() -> Seq<Vec2> {
    seq![
        Vec2 { x: (-161_000_000) as i64, y: (-160_000_000) as i64 },
        Vec2 { x: 162_000_000, y: (-160_000_000) as i64 },
        Vec2 { x: 163_000_000, y: 160_000_000 },
        Vec2 { x: (-164_000_000) as i64, y: 160_000_000 },
    ]
}

/// The tolerance of the loop that is laid out when path following starts.
pub const DEFAULT_PATH_RADIUS: i64 = 20_000_000;

impl Path {
    /// The loop that is laid out when path following starts.
    pub fn default_loop() -> (r: Path)
        ensures
            r.points@ == default_waypoints(),
            r.radius == DEFAULT_PATH_RADIUS,
            r.wf(),
    {
        let mut points: Vec<Vec2> = Vec::new();
        points.push(Vec2 { x: -161_000_000, y: -160_000_000 });
        points.push(Vec2 { x: 162_000_000, y: -160_000_000 });
        points.push(Vec2 { x: 163_000_000, y: 160_000_000 });
        points.push(Vec2 { x: -164_000_000, y: 160_000_000 });
        assert(points@ =~= default_waypoints());
        Path { points, radius: DEFAULT_PATH_RADIUS }
    }
}

/// The index after `i` on a closed loop of `count` waypoints.
pub open spec fn following(i: int, count: int) -> int {
    if i + 1 >= count {
        0
    } else {
        i + 1
    }
}

/// The foot of the perpendicular from `point` on the line through `a` and
/// `b`, each coordinate rounded toward `a`. A segment without extent has no
/// direction, and the foot is `a`.
pub open spec fn normal_point(point: Vector, a: Vector, b: Vector) -> Vector {
    let along = b.minus(a);
    if along == Vector::zero() {
        a
    } else {
        let reach = point.minus(a).dot(along);
        Vector {
            x: a.x + div_trunc(along.x * reach, along.norm_sq()),
            y: a.y + div_trunc(along.y * reach, along.norm_sq()),
        }
    }
}

/// Whether `point` lies in the smallest upright box that holds `a` and `b`.
pub open spec fn in_box(point: Vector, a: Vector, b: Vector) -> bool {
    &&& a.x <= point.x <= b.x || b.x <= point.x <= a.x
    &&& a.y <= point.y <= b.y || b.y <= point.y <= a.y
}

/// What one segment of a path offers an agent whose predicted position is
/// known: the point of the path to go by, and the direction of travel
/// there.
pub struct Candidate {
    pub normal: Vector,
    pub direction: Vector,
}

/// What the segment that starts at waypoint `i` offers for the predicted
/// position `future`: the foot of the perpendicular and the segment's own
/// direction, where the foot lies in the segment's box; else the segment's
/// end and the direction of the segment after it.
pub open spec fn candidate(points: Seq<Vector>, future: Vector, i: int) -> Candidate {
    let next = following(i, points.len() as int);
    let a = points[i];
    let b = points[next];
    let foot = normal_point(future, a, b);
    if in_box(foot, a, b) {
        Candidate { normal: foot, direction: b.minus(a) }
    } else {
        Candidate { normal: b, direction: points[following(next, points.len() as int)].minus(b) }
    }
}

/// The squared distance from `future` to what segment `i` offers.
pub open spec fn gap_sq(points: Seq<Vector>, future: Vector, i: int) -> int {
    future.minus(candidate(points, future, i).normal).norm_sq()
}

/// Among the first `count` segments, the first of those nearest to
/// `future`.
pub open spec fn nearest_among(points: Seq<Vector>, future: Vector, count: nat) -> int
    decreases count,
{
    if count <= 1 {
        0
    } else {
        let best = nearest_among(points, future, (count - 1) as nat);
        if gap_sq(points, future, count - 1) < gap_sq(points, future, best) {
            count - 1
        } else {
            best
        }
    }
}

/// The segment of the path that is nearest to `future`; of several, the
/// first.
pub open spec fn nearest_segment(points: Seq<Vector>, future: Vector) -> int {
    nearest_among(points, future, points.len())
}

/// The point that path following steers at: on the nearest segment, the
/// point to go by, moved on by the lookahead in the direction of travel.
pub open spec fn path_target(points: Seq<Vector>, future: Vector) -> Vector {
    let best = candidate(points, future, nearest_segment(points, future));
    best.normal.plus(best.direction.with_magnitude(PATH_LOOKAHEAD as int))
}

/// The position that path following predicts for an agent: the lookahead
/// along its velocity.
pub open spec fn predicted_position(position: Vector, velocity: Vector) -> Vector {
    position.plus(velocity.with_magnitude(PATH_LOOKAHEAD as int))
}

/// The steering force of path following: none while the predicted position
/// is within the tolerance of the path; beyond it, that of seeking the path
/// target.
pub open spec fn path_follow_steer(path: PathView, position: Vector, velocity: Vector, max_speed: int) -> Option<Vector> {
    let future = predicted_position(position, velocity);
    if gap_sq(path.points, future, nearest_segment(path.points, future)) > path.radius * path.radius {
        Some(seek_steer(path_target(path.points, future), velocity, max_speed, position))
    } else {
        None
    }
}

/// `nearest_among` names a segment among the first `count`, nearer to
/// `future` than each before it and at least as near as each after it.
pub proof fn lemma_nearest_among(points: Seq<Vector>, future: Vector, count: nat)
    requires
        count >= 1,
    ensures
        0 <= nearest_among(points, future, count) < count,
        forall|j: int| 0 <= j < count ==> gap_sq(points, future, nearest_among(points, future, count))
            <= #[trigger] gap_sq(points, future, j),
        forall|j: int| 0 <= j < nearest_among(points, future, count) ==> gap_sq(points, future, nearest_among(points, future, count))
            < #[trigger] gap_sq(points, future, j),
    decreases count,
{
    if count > 1 {
        lemma_nearest_among(points, future, (count - 1) as nat);
    }
}

/// One coordinate of the foot of a perpendicular: `start` plus `along` times
/// `reach` over `extent`.
fn foot_coordinate(start: i64, along: i64, reach: i128, extent: i128) -> (r: i128)
    requires
        -2 * COORD_MAX <= along <= 2 * COORD_MAX,
        -0x8_0000_0000_0000_0000_0000 <= reach <= 0x8_0000_0000_0000_0000_0000,
        extent > 0,
    ensures
        r == start + div_trunc(along * reach, extent as int),
{
    proof {
        lemma_product_bound(along as int, reach as int, 2 * COORD_MAX, 0x8_0000_0000_0000_0000_0000);
        lemma_div_trunc_bound(along * reach, extent as int);
    }
    start as i128 + (along as i128 * reach) / extent
}

/// The foot of the perpendicular from `pos` on the line through `a` and `b`,
/// where it lies in the box of the segment from `a` to `b`; else nothing.
pub fn get_normal_point(pos: Vec2, a: Vec2, b: Vec2) -> (r: Option<Vec2>)
    requires
        pos.in_range(),
        a.in_range(),
        b.in_range(),
    ensures
        in_box(normal_point(pos@, a@, b@), a@, b@) ==> r is Some && r->0@ == normal_point(pos@, a@, b@),
        !in_box(normal_point(pos@, a@, b@), a@, b@) ==> r is None,
{
    let along = b.minus(a);
    if along.is_zero() {
        return Some(a);
    }
    let from_a = pos.minus(a);
    proof {
        lemma_product_bound(from_a.x as int, along.x as int, 2 * COORD_MAX, 2 * COORD_MAX);
        lemma_product_bound(from_a.y as int, along.y as int, 2 * COORD_MAX, 2 * COORD_MAX);
        assert(2 * COORD_MAX * (2 * COORD_MAX) == 0x4_0000_0000_0000_0000_0000) by (nonlinear_arith)
            requires
                COORD_MAX == 0x100_0000_0000,
        ;
        assert(along@.norm_sq() > 0) by (nonlinear_arith)
            requires
                along@.norm_sq() == along.x * along.x + along.y * along.y,
                along.x != 0 || along.y != 0,
        ;
    }
    let reach: i128 = from_a.x as i128 * along.x as i128 + from_a.y as i128 * along.y as i128;
    let extent: i128 = along.norm_sq() as i128;
    let x: i128 = foot_coordinate(a.x, along.x, reach, extent);
    let y: i128 = foot_coordinate(a.y, along.y, reach, extent);
    let inside_x = (a.x as i128 <= x && x <= b.x as i128) || (b.x as i128 <= x && x <= a.x as i128);
    let inside_y = (a.y as i128 <= y && y <= b.y as i128) || (b.y as i128 <= y && y <= a.y as i128);
    if inside_x && inside_y {
        Some(Vec2 { x: x as i64, y: y as i64 })
    } else {
        None
    }
}

/// What the segment that starts at waypoint `i` offers for the predicted
/// position `future`: the point to go by, and the direction of travel.
fn segment_offer(path: &Path, future: Vec2, i: usize) -> (r: (Vec2, Vec2))
    requires
        path.wf(),
        future.in_range(),
        i < path.points@.len(),
    ensures
        r.0@ == candidate(path@.points, future@, i as int).normal,
        r.1@ == candidate(path@.points, future@, i as int).direction,
        r.0.in_world(),
        r.1@.within(2 * WORLD_MAX),
{
    let count = path.points.len();
    let next = if i + 1 == count { 0 } else { i + 1 };
    let a = path.points[i];
    let b = path.points[next];
    match get_normal_point(future, a, b) {
        Some(foot) => (foot, b.minus(a)),
        None => {
            let after = if next + 1 == count { 0 } else { next + 1 };
            (b, path.points[after].minus(b))
        },
    }
}

/// What path following computes where it steers: the steering force, and
/// the point of the path that it steers at.
#[derive(Clone, Copy, Debug, PartialEq, Eq, Structural)]
pub struct PathSteer {
    pub steer: Vec2,
    pub target: Vec2,
}

/// The steering force that keeps an agent on `path`: none while the position
/// predicted for it is within the path's tolerance of the nearest segment;
/// beyond it, the force that seeks a point ahead on that segment.
pub fn path_follow(position: &Vec2, velocity: &Vec2, max_linear_speed: i64, path: &Path) -> (r: Option<PathSteer>)
    requires
        path.wf(),
        position.in_world(),
        velocity.in_range(),
        -COORD_MAX <= max_linear_speed <= COORD_MAX,
    ensures
        match path_follow_steer(path@, position@, velocity@, max_linear_speed as int) {
            Some(force) => r is Some && r->0.steer@ == force && r->0.target@ == path_target(
                path@.points,
                predicted_position(position@, velocity@),
            ),
            None => r is None,
        },
        r is Some ==> r->0.steer@.within(2 * COORD_MAX),
{
    let future = position.plus(set_magnitude(*velocity, PATH_LOOKAHEAD));
    let first = segment_offer(path, future, 0);
    let mut normal = first.0;
    let mut direction = first.1;
    let mut gap: u128 = future.minus(normal).norm_sq();
    let ghost mut best: int = 0;
    let mut i: usize = 1;
    while i < path.points.len()
        invariant
            1 <= i <= path.points@.len(),
            path.wf(),
            future.in_range(),
            best == nearest_among(path@.points, future@, i as nat),
            normal@ == candidate(path@.points, future@, best).normal,
            direction@ == candidate(path@.points, future@, best).direction,
            gap == gap_sq(path@.points, future@, best),
            normal.in_world(),
            direction@.within(2 * WORLD_MAX),
        decreases path.points@.len() - i,
    {
        let offer = segment_offer(path, future, i);
        let offered_gap: u128 = future.minus(offer.0).norm_sq();
        if offered_gap < gap {
            gap = offered_gap;
            normal = offer.0;
            direction = offer.1;
            proof {
                best = i as int;
            }
        }
        i += 1;
    }
    let radius: u128 = path.radius as u128;
    proof {
        lemma_product_bound(radius as int, radius as int, COORD_MAX as int, COORD_MAX as int);
        assert(COORD_MAX * COORD_MAX == 0x1_0000_0000_0000_0000_0000) by (nonlinear_arith)
            requires
                COORD_MAX == 0x100_0000_0000,
        ;
    }
    if gap > radius * radius {
        let target = normal.plus(set_magnitude(direction, PATH_LOOKAHEAD));
        Some(PathSteer { steer: seek(&target, velocity, max_linear_speed, position), target })
    } else {
        None
    }
}

/// A waypoint lies on the path: for a predicted position that is a
/// waypoint, the nearest segment is at distance zero.
pub proof fn lemma_waypoint_is_on_path(points: Seq<Vector>, k: int)
    requires
        0 <= k < points.len(),
    ensures
        gap_sq(points, points[k], k) == 0,
        gap_sq(points, points[k], nearest_segment(points, points[k])) == 0,
{
    let here = points[k];
    let b = points[following(k, points.len() as int)];
    let along = b.minus(here);
    if along != Vector::zero() {
        assert(here.minus(here).dot(along) == 0) by (nonlinear_arith)
            requires
                here.minus(here).dot(along) == (here.x - here.x) * along.x + (here.y - here.y) * along.y,
        ;
        assert(along.x * 0 == 0 && along.y * 0 == 0);
        assert(along.norm_sq() > 0) by (nonlinear_arith)
            requires
                along.norm_sq() == along.x * along.x + along.y * along.y,
                along.x != 0 || along.y != 0,
        ;
        assert(0int / along.norm_sq() == 0) by (nonlinear_arith)
            requires
                along.norm_sq() > 0,
        ;
    }
    assert(normal_point(here, here, b) == here);
    assert(candidate(points, here, k).normal == here);
    let none = here.minus(here);
    assert(none.norm_sq() == 0) by (nonlinear_arith)
        requires
            none.norm_sq() == none.x * none.x + none.y * none.y,
            none.x == 0,
            none.y == 0,
    ;
    assert(gap_sq(points, here, k) == 0);
    lemma_nearest_among(points, here, points.len());
    let best = nearest_segment(points, here);
    assert(gap_sq(points, here, best) <= gap_sq(points, here, k));
    let off = here.minus(candidate(points, here, best).normal);
    assert(off.norm_sq() >= 0) by (nonlinear_arith)
        requires
            off.norm_sq() == off.x * off.x + off.y * off.y,
    ;
}

/// An agent that stands on a waypoint and does not move is on the path:
/// path following applies no steering force, whatever the tolerance.
pub proof fn lemma_on_waypoint_no_steering(path: PathView, k: int, max_speed: int)
    requires
        0 <= k < path.points.len(),
    ensures
        predicted_position(path.points[k], Vector::zero()) == path.points[k],
        path_follow_steer(path, path.points[k], Vector::zero(), max_speed) is None,
{
    lemma_waypoint_is_on_path(path.points, k);
    assert(path.radius * path.radius >= 0) by (nonlinear_arith);
}

/// One tick of path following: where the position predicted for the agent
/// has left the path's tolerance, the agent takes up the force that steers
/// back; else nothing changes. Returns the point that it steered at, where
/// it steered.
pub fn path_follow_system(agent: &mut Agent, path: &Path, elapsed: i64) -> (target: Option<Vec2>)
    requires
        old(agent).wf(),
        path.wf(),
        -COORD_MAX <= elapsed <= COORD_MAX,
    ensures
        match path_follow_steer(path@, old(agent).position@, old(agent).velocity@, old(agent).max_linear_speed as int) {
            Some(force) => target is Some && target->0@ == path_target(
                path@.points,
                predicted_position(old(agent).position@, old(agent).velocity@),
            ) && final(agent).velocity@ == steered(old(agent).velocity@, force, elapsed as int),
            None => target is None && final(agent).velocity == old(agent).velocity,
        },
        *final(agent) == (Agent { velocity: final(agent).velocity, ..*old(agent) }),
        final(agent).wf(),
{
    match path_follow(&agent.position, &agent.velocity, agent.max_linear_speed, path) {
        Some(r) => {
            agent.apply_steering(r.steer, elapsed);
            Some(r.target)
        },
        None => None,
    }
}

/// The enter hook of path following: lays out the default loop in `path`
/// and asks for a mark at each of its waypoints.
pub fn on_start_path(path: &mut Option<Path>) -> (commands: Vec<Command>)
    ensures
        commands@ == waypoint_spawns(default_waypoints()),
        (*final(path)) is Some,
        (*final(path))->0.points@ == default_waypoints(),
        (*final(path))->0.radius == DEFAULT_PATH_RADIUS,
        (*final(path))->0.wf(),
{
    let new_path = Path::default_loop();
    let mut commands: Vec<Command> = Vec::new();
    let mut i: usize = 0;
    while i < new_path.points.len()
        invariant
            i <= new_path.points@.len(),
            new_path.points@ == default_waypoints(),
            commands@ == waypoint_spawns(default_waypoints().take(i as int)),
        decreases new_path.points@.len() - i,
    {
        commands.push(
            Command::Spawn { marker: Marker::PathWaypoint, position: new_path.points[i], velocity: Vec2 { x: 0, y: 0 } },
        );
        i += 1;
        assert(commands@ =~= waypoint_spawns(default_waypoints().take(i as int)));
    }
    assert(default_waypoints().take(i as int) =~= default_waypoints());
    *path = Some(new_path);
    commands
}

/// The exit hook of path following: takes the path away and asks for the
/// marks of its waypoints to go.
pub fn clean_up_path(path: &mut Option<Path>) -> (commands: Vec<Command>)
    ensures
        commands@ == waypoint_despawns(),
        (*final(path)) is None,
{
    *path = None;
    let mut commands: Vec<Command> = Vec::new();
    commands.push(Command::Despawn { marker: Marker::PathWaypoint });
    assert(commands@ =~= waypoint_despawns());
    commands
}

} // verus!
