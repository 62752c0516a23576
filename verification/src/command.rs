//! What the hooks of the behaviours ask of whoever keeps the entities, and
//! what becomes of the auxiliary entities when it is carried out.

use vstd::prelude::*;
use crate::behaviour::Behaviour;
use crate::path_follow::default_waypoints;
use crate::vector::Vec2;

verus! {

/// The stable tags by which the auxiliary entities of the behaviours are
/// found again.
#[derive(Clone, Copy, Debug, PartialEq, Eq, Hash, Structural)]
pub enum Marker {
    /// The moving point that pursue chases and evade avoids.
    PursuitTarget,
    /// The mark at the point at which a pursuer aims.
    PursuitOffset,
    /// The mark at a waypoint of the path.
    PathWaypoint,
}

/// What a hook asks of whoever keeps the entities.
#[derive(Clone, Copy, Debug, PartialEq, Eq, Structural)]
pub enum Command {
    /// Create one entity with the tag `marker`, at `position`, moving with
    /// `velocity`.
    Spawn { marker: Marker, position: Vec2, velocity: Vec2 },
    /// Destroy every entity with the tag `marker`; there may be none.
    Despawn { marker: Marker },
}

/// How many auxiliary entities of each kind exist.
pub struct Census {
    pub pursuit_targets: nat,
    pub pursuit_offsets: nat,
    pub waypoints: nat,
}

impl Census {
    /// No auxiliary entity at all.
    pub open spec fn none() -> Census {
        Census { pursuit_targets: 0, pursuit_offsets: 0, waypoints: 0 }
    }

    /// What exists while `behaviour` is active.
    pub open spec fn of(behaviour: Behaviour) -> Census {
        match behaviour {
            Behaviour::Pursue | Behaviour::Evade => Census { pursuit_targets: 1, pursuit_offsets: 1, waypoints: 0 },
            Behaviour::PathFollow => Census { pursuit_targets: 0, pursuit_offsets: 0, waypoints: default_waypoints().len() },
            _ => Census::none(),
        }
    }

    /// The census with the number of entities tagged `marker` set to
    /// `count`.
    pub open spec fn with_count(self, marker: Marker, count: nat) -> Census {
        match marker {
            Marker::PursuitTarget => Census { pursuit_targets: count, ..self },
            Marker::PursuitOffset => Census { pursuit_offsets: count, ..self },
            Marker::PathWaypoint => Census { waypoints: count, ..self },
        }
    }

    /// The number of entities tagged `marker`.
    pub open spec fn count(self, marker: Marker) -> nat {
        match marker {
            Marker::PursuitTarget => self.pursuit_targets,
            Marker::PursuitOffset => self.pursuit_offsets,
            Marker::PathWaypoint => self.waypoints,
        }
    }

    /// What exists once `command` is carried out.
    pub open spec fn after_command(self, command: Command) -> Census {
        match command {
            Command::Spawn { marker, .. } => self.with_count(marker, self.count(marker) + 1),
            Command::Despawn { marker } => self.with_count(marker, 0),
        }
    }

    /// What exists once `commands` are carried out, in their order.
    pub open spec fn after(self, commands: Seq<Command>) -> Census
        decreases commands.len(),
    {
        if commands.len() == 0 {
            self
        } else {
            self.after(commands.drop_last()).after_command(commands.last())
        }
    }
}

/// What the start of pursue or evade asks for: a pursuit target at the
/// origin that moves with `target_velocity`, and the mark of the point at
/// which the pursuer aims.
pub open spec fn pursuit_spawns(target_velocity: Vec2) -> Seq<Command> {
    seq![
        Command::Spawn { marker: Marker::PursuitTarget, position: Vec2 { x: 0, y: 0 }, velocity: target_velocity },
        Command::Spawn { marker: Marker::PursuitOffset, position: Vec2 { x: 0, y: 0 }, velocity: Vec2 { x: 0, y: 0 } },
    ]
}

/// What the end of pursue or evade asks for: the pursuit target and the
/// mark gone.
pub open spec fn pursuit_despawns() -> Seq<Command> {
    seq![Command::Despawn { marker: Marker::PursuitTarget }, Command::Despawn { marker: Marker::PursuitOffset }]
}

/// What the start of path following asks for: a mark at each of `points`.
pub open spec fn waypoint_spawns(points: Seq<Vec2>) -> Seq<Command> {
    Seq::new(
        points.len(),
        |i: int| Command::Spawn { marker: Marker::PathWaypoint, position: points[i], velocity: Vec2 { x: 0, y: 0 } },
    )
}

/// What the end of path following asks for: the marks of the waypoints
/// gone.
pub open spec fn waypoint_despawns() -> Seq<Command> {
    seq![Command::Despawn { marker: Marker::PathWaypoint }]
}

/// What the start of `behaviour` asks for.
pub open spec fn enter_commands(behaviour: Behaviour, target_velocity: Vec2) -> Seq<Command> {
    match behaviour {
        Behaviour::Pursue | Behaviour::Evade => pursuit_spawns(target_velocity),
        Behaviour::PathFollow => waypoint_spawns(default_waypoints()),
        _ => Seq::empty(),
    }
}

/// What the end of `behaviour` asks for.
pub open spec fn exit_commands(behaviour: Behaviour) -> Seq<Command> {
    match behaviour {
        Behaviour::Pursue | Behaviour::Evade => pursuit_despawns(),
        Behaviour::PathFollow => waypoint_despawns(),
        _ => Seq::empty(),
    }
}

/// What the switch from `from` to `to` asks for: nothing where the two are
/// the same; else what the end of `from` asks for, then what the start of
/// `to` asks for.
pub open spec fn transition_commands(from: Behaviour, to: Behaviour, target_velocity: Vec2) -> Seq<Command> {
    if from == to {
        Seq::empty()
    } else {
        exit_commands(from) + enter_commands(to, target_velocity)
    }
}

/// Carrying out two runs of commands one after the other is carrying out
/// their concatenation.
pub proof fn lemma_after_concatenation(census: Census, first: Seq<Command>, second: Seq<Command>)
    ensures
        census.after(first + second) == census.after(first).after(second),
    decreases second.len(),
{
    if second.len() == 0 {
        assert(first + second =~= first);
    } else {
        lemma_after_concatenation(census, first, second.drop_last());
        assert((first + second).drop_last() =~= first + second.drop_last());
    }
}

/// A run of one command is that command.
pub proof fn lemma_after_single(census: Census, command: Command)
    ensures
        census.after(seq![command]) == census.after_command(command),
{
    reveal_with_fuel(Census::after, 2);
    assert(seq![command].drop_last() =~= Seq::<Command>::empty());
}

/// A mark at each of `points` makes `points.len()` waypoints more.
pub proof fn lemma_after_waypoint_spawns(census: Census, points: Seq<Vec2>)
    ensures
        census.after(waypoint_spawns(points)) == census.with_count(
            Marker::PathWaypoint,
            census.waypoints + points.len(),
        ),
    decreases points.len(),
{
    if points.len() > 0 {
        lemma_after_waypoint_spawns(census, points.drop_last());
        assert(waypoint_spawns(points).drop_last() =~= waypoint_spawns(points.drop_last()));
    }
}

/// From any census, what the enter hook of a behaviour asks for adds what
/// the behaviour keeps, and what its exit hook asks for takes away every
/// entity of the kinds that the behaviour keeps.
pub proof fn lemma_after_hooks(census: Census, behaviour: Behaviour, target_velocity: Vec2)
    ensures
        census.after(enter_commands(behaviour, target_velocity)) == (Census {
            pursuit_targets: census.pursuit_targets + Census::of(behaviour).pursuit_targets,
            pursuit_offsets: census.pursuit_offsets + Census::of(behaviour).pursuit_offsets,
            waypoints: census.waypoints + Census::of(behaviour).waypoints,
        }),
        census.after(exit_commands(behaviour)) == (Census {
            pursuit_targets: if Census::of(behaviour).pursuit_targets > 0 { 0 } else { census.pursuit_targets },
            pursuit_offsets: if Census::of(behaviour).pursuit_offsets > 0 { 0 } else { census.pursuit_offsets },
            waypoints: if Census::of(behaviour).waypoints > 0 { 0 } else { census.waypoints },
        }),
{
    match behaviour {
        Behaviour::Pursue | Behaviour::Evade => {
            let spawns = pursuit_spawns(target_velocity);
            assert(spawns =~= seq![spawns[0]] + seq![spawns[1]]);
            lemma_after_concatenation(census, seq![spawns[0]], seq![spawns[1]]);
            lemma_after_single(census, spawns[0]);
            lemma_after_single(census.after_command(spawns[0]), spawns[1]);
            let despawns = pursuit_despawns();
            assert(despawns =~= seq![despawns[0]] + seq![despawns[1]]);
            lemma_after_concatenation(census, seq![despawns[0]], seq![despawns[1]]);
            lemma_after_single(census, despawns[0]);
            lemma_after_single(census.after_command(despawns[0]), despawns[1]);
        },
        Behaviour::PathFollow => {
            lemma_after_waypoint_spawns(census, default_waypoints());
            lemma_after_single(census, Command::Despawn { marker: Marker::PathWaypoint });
        },
        _ => {},
    }
}

/// What the enter hook of a behaviour brings into being, its exit hook
/// takes away: after both, no auxiliary entity is left.
pub proof fn lemma_exit_undoes_enter(behaviour: Behaviour, target_velocity: Vec2)
    ensures
        Census::none().after(enter_commands(behaviour, target_velocity)) == Census::of(behaviour),
        Census::none().after(enter_commands(behaviour, target_velocity)).after(exit_commands(behaviour))
            == Census::none(),
{
    lemma_after_hooks(Census::none(), behaviour, target_velocity);
    lemma_after_hooks(Census::of(behaviour), behaviour, target_velocity);
}

/// After any switch, the auxiliary entities are those that the active
/// behaviour keeps, and no others.
pub proof fn lemma_switch_keeps_census(from: Behaviour, to: Behaviour, target_velocity: Vec2)
    ensures
        Census::of(from).after(transition_commands(from, to, target_velocity)) == Census::of(to),
{
    if from != to {
        lemma_after_concatenation(Census::of(from), exit_commands(from), enter_commands(to, target_velocity));
        lemma_after_hooks(Census::of(from), from, target_velocity);
        lemma_after_hooks(Census::of(from).after(exit_commands(from)), to, target_velocity);
    }
}

} // verus!
