//! The behaviour state machine: which behaviour is active, the switch from
//! one to another, and the tick that applies the active one.

use vstd::prelude::*;
use rand::rngs::StdRng;
use crate::agent::{steered, Agent};
use crate::arith::{COORD_MAX, ONE};
use crate::arrive::{arrive_steer, arrive_system};
use crate::behaviour::Behaviour;
use crate::command::{enter_commands, exit_commands, lemma_switch_keeps_census, transition_commands, Census, Command};
use crate::evade::{evade_system, flee_system};
use crate::path_follow::{clean_up_path, default_waypoints, on_start_path, path_follow_steer, path_follow_system, path_target, predicted_position, Path, PathView, DEFAULT_PATH_RADIUS};
use crate::pursue::{clean_up_pursue, interception_point, is_drawn_velocity, on_start_pursue_with, pursue_system, PursuitTarget, PURSUIT_MAX_SPEED};
use crate::seek::{seek_steer, seek_system};
use crate::vector::{Vec2, Vector};
use crate::wander::{drifted, wander_system, wander_target, Wander, WanderState, WANDER_JITTER};

verus! {

/// The state of the behaviour state machine.
#[derive(Debug)]
pub struct Simulation {
    /// The active behaviour.
    pub behaviour: Behaviour,
    /// The wander angle, kept from one activation of wander to the next.
    pub wander: WanderState,
    /// The path, which exists while path following is active.
    pub path: Option<Path>,
    /// The agent's own highest speed, kept while pursue or evade raises it.
    pub own_max_speed: Option<i64>,
}

/// What a `Simulation` stands for.
pub struct SimulationView {
    pub behaviour: Behaviour,
    pub wander: WanderState,
    pub path: Option<PathView>,
    pub own_max_speed: Option<i64>,
}

impl View for Simulation {
    type V = SimulationView;

    open spec fn view(&self) -> SimulationView {
        SimulationView {
            behaviour: self.behaviour,
            wander: self.wander,
            path: match self.path {
                Some(path) => Some(path@),
                None => None,
            },
            own_max_speed: self.own_max_speed,
        }
    }
}

/// The loop that is laid out when path following starts, as vectors.
pub open spec fn default_path() -> PathView {
    PathView {
        points: Seq::new(default_waypoints().len(), |i: int| default_waypoints()[i]@),
        radius: DEFAULT_PATH_RADIUS as int,
    }
}

impl SimulationView {
    /// Whether what the state holds is what the active behaviour keeps: the
    /// agent's own speed exactly while pursue or evade is active, the path
    /// exactly while path following is.
    pub open spec fn settled(self) -> bool {
        &&& self.behaviour.keeps_pursuit_target() == (self.own_max_speed is Some)
        &&& (self.behaviour is PathFollow) == (self.path is Some)
    }

    /// The state once the exit hook of the active behaviour has run.
    pub open spec fn left(self) -> SimulationView {
        match self.behaviour {
            Behaviour::Pursue | Behaviour::Evade => SimulationView { own_max_speed: None, ..self },
            Behaviour::PathFollow => SimulationView { path: None, ..self },
            _ => self,
        }
    }

    /// The state once `next` is active and its enter hook has run, for an
    /// agent whose own highest speed is `own_speed`.
    pub open spec fn entered(self, next: Behaviour, own_speed: i64) -> SimulationView {
        match next {
            Behaviour::Pursue | Behaviour::Evade => SimulationView { behaviour: next, own_max_speed: Some(own_speed), ..self },
            Behaviour::PathFollow => SimulationView { behaviour: next, path: Some(default_path()), ..self },
            _ => SimulationView { behaviour: next, ..self },
        }
    }

    /// The agent once the exit hook of the active behaviour has run: with
    /// its own highest speed again.
    pub open spec fn agent_left(self, agent: Agent) -> Agent {
        match self.own_max_speed {
            Some(speed) if self.behaviour.keeps_pursuit_target() => Agent { max_linear_speed: speed, ..agent },
            _ => agent,
        }
    }

    /// The state after the switch to `next`: unchanged where `next` is
    /// active already; else left, then entered.
    pub open spec fn switched(self, next: Behaviour, agent: Agent) -> SimulationView {
        if next == self.behaviour {
            self
        } else {
            self.left().entered(next, self.agent_left(agent).max_linear_speed)
        }
    }

    /// The agent after the switch to `next`.
    pub open spec fn agent_switched(self, next: Behaviour, agent: Agent) -> Agent {
        if next == self.behaviour {
            agent
        } else {
            agent_entered(next, self.agent_left(agent))
        }
    }
}

/// The agent once the enter hook of `next` has run: with the highest speed
/// of a pursuer where `next` keeps a pursuit target.
pub open spec fn agent_entered(next: Behaviour, agent: Agent) -> Agent {
    if next.keeps_pursuit_target() {
        Agent { max_linear_speed: PURSUIT_MAX_SPEED, ..agent }
    } else {
        agent
    }
}

impl Simulation {
    /// Whether the state is one that the machine produces: settled, with a
    /// path that can be followed and speeds and angles that the library
    /// accepts.
    pub open spec fn wf(self) -> bool {
        &&& self@.settled()
        &&& self.wander.wf()
        &&& self.path matches Some(path) ==> path.wf()
        &&& self.own_max_speed matches Some(speed) ==> 0 <= speed <= COORD_MAX
    }

    /// The state at the start: seek is active, the wander angle is a quarter
    /// turn, and nothing is kept.
    pub fn new() -> (r: Simulation)
        ensures
            r.behaviour == Behaviour::Seek,
            r.wander.theta == crate::angle::HALF_PI,
            r.path is None,
            r.own_max_speed is None,
            r.wf(),
    {
        Simulation { behaviour: Behaviour::Seek, wander: WanderState::new(), path: None, own_max_speed: None }
    }

    /// Runs the exit hook of the active behaviour.
    fn leave(&mut self, agent: &mut Agent) -> (commands: Vec<Command>)
        requires
            old(self).wf(),
            old(agent).wf(),
        ensures
            commands@ == exit_commands(old(self).behaviour),
            final(self)@ == old(self)@.left(),
            *final(agent) == old(self)@.agent_left(*old(agent)),
            final(agent).wf(),
            final(self).wander.wf(),
            final(self).path matches Some(path) ==> path.wf(),
            final(self).own_max_speed matches Some(speed) ==> 0 <= speed <= COORD_MAX,
    {
        match self.behaviour {
            Behaviour::Pursue | Behaviour::Evade => {
                let own_speed = self.own_max_speed;
                self.own_max_speed = None;
                clean_up_pursue(agent, own_speed)
            },
            Behaviour::PathFollow => clean_up_path(&mut self.path),
            _ => Vec::new(),
        }
    }

    /// Makes `next` the active behaviour and runs its enter hook.
    fn enter(&mut self, agent: &mut Agent, next: Behaviour, target_velocity: Vec2) -> (commands: Vec<Command>)
        requires
            old(agent).wf(),
        ensures
            commands@ == enter_commands(next, target_velocity),
            final(self)@ == old(self)@.entered(next, old(agent).max_linear_speed),
            final(self).path == (if next is PathFollow { final(self).path } else { old(self).path }),
            next is PathFollow ==> final(self).path is Some && final(self).path->0.wf(),
            *final(agent) == agent_entered(next, *old(agent)),
            final(agent).wf(),
    {
        self.behaviour = next;
        match next {
            Behaviour::Pursue | Behaviour::Evade => {
                self.own_max_speed = Some(agent.max_linear_speed);
                on_start_pursue_with(agent, target_velocity)
            },
            Behaviour::PathFollow => {
                let commands = on_start_path(&mut self.path);
                assert(self.path->0@ =~= default_path());
                commands
            },
            _ => Vec::new(),
        }
    }

    /// Switches to `next`, for a pursuit target that is to move with
    /// `target_velocity` where `next` keeps one. Nothing happens where
    /// `next` is active already; else the exit hook of the active behaviour
    /// runs, `next` becomes active, and its enter hook runs. Returns what
    /// the hooks ask for, in that order: carried out, it leaves the
    /// auxiliary entities that `next` keeps, and no others.
    pub fn select_with(&mut self, agent: &mut Agent, next: Behaviour, target_velocity: Vec2) -> (commands: Vec<Command>)
        requires
            old(self).wf(),
            old(agent).wf(),
        ensures
            commands@ == transition_commands(old(self).behaviour, next, target_velocity),
            Census::of(old(self).behaviour).after(commands@) == Census::of(next),
            final(self)@ == old(self)@.switched(next, *old(agent)),
            *final(agent) == old(self)@.agent_switched(next, *old(agent)),
            final(self).behaviour == next,
            final(self).wf(),
            final(agent).wf(),
    {
        proof {
            lemma_switch_keeps_census(self.behaviour, next, target_velocity);
        }
        if self.behaviour == next {
            return Vec::new();
        }
        let mut commands = self.leave(agent);
        let mut entering = self.enter(agent, next, target_velocity);
        commands.append(&mut entering);
        commands
    }

    /// Switches to `next`; where `next` keeps a pursuit target and is not
    /// active already, the target's velocity is drawn from `rng`.
    pub fn select(&mut self, agent: &mut Agent, next: Behaviour, rng: &mut StdRng) -> (commands: Vec<Command>)
        requires
            old(self).wf(),
            old(agent).wf(),
        ensures
            exists|target_velocity: Vec2|
                (is_drawn_velocity(target_velocity@) || target_velocity@ == Vector::zero()) && commands@
                    == #[trigger] transition_commands(old(self).behaviour, next, target_velocity),
            Census::of(old(self).behaviour).after(commands@) == Census::of(next),
            final(self)@ == old(self)@.switched(next, *old(agent)),
            *final(agent) == old(self)@.agent_switched(next, *old(agent)),
            final(self).behaviour == next,
            final(self).wf(),
            final(agent).wf(),
    {
        let target_velocity = if next.has_pursuit_target() && self.behaviour != next {
            PursuitTarget::random_velocity(rng)
        } else {
            Vec2 { x: 0, y: 0 }
        };
        self.select_with(agent, next, target_velocity)
    }
}

/// A switch from a behaviour that keeps nothing to any other and back
/// leaves the state and the agent as they were: what the enter hook
/// changed, the exit hook restores.
pub proof fn lemma_switch_and_back_restores(simulation: SimulationView, agent: Agent, other: Behaviour)
    requires
        simulation.settled(),
        Census::of(simulation.behaviour) == Census::none(),
    ensures
        simulation.switched(other, agent).settled(),
        simulation.switched(other, agent).switched(
            simulation.behaviour,
            simulation.agent_switched(other, agent),
        ) == simulation,
        simulation.switched(other, agent).agent_switched(
            simulation.behaviour,
            simulation.agent_switched(other, agent),
        ) == agent,
{
    assert(default_waypoints().len() == 4);
}

/// Every switch leaves the state settled.
pub proof fn lemma_switch_settles(simulation: SimulationView, agent: Agent, next: Behaviour)
    requires
        simulation.settled(),
    ensures
        simulation.switched(next, agent).settled(),
        simulation.switched(next, agent).behaviour == next,
{
}

/// What a tick is given: the snapshot of what lies outside the machine.
#[derive(Clone, Copy, Debug, PartialEq, Eq, Structural)]
pub struct TickInput {
    /// The cursor's position in the world: the target of seek, arrive and
    /// flee.
    pub cursor: Vec2,
    /// The duration of the tick, in seconds.
    pub elapsed: i64,
    /// The pursuit target as the physics step left it, where it exists.
    pub pursuit_target: Option<PursuitTarget>,
    /// The vector of length one whose polar angle is the bearing of the
    /// wander state: the direction, from the centre of the wander circle,
    /// of the point at which wander aims.
    pub wander_direction: Vec2,
}

impl TickInput {
    /// Whether the snapshot is one that the behaviours accept.
    pub open spec fn wf(self) -> bool {
        &&& self.cursor.in_range()
        &&& -COORD_MAX <= self.elapsed <= COORD_MAX
        &&& self.pursuit_target matches Some(target) ==> target.wf()
        &&& self.wander_direction@.within(ONE as int)
    }
}

/// What a tick reports beside the agent's new velocity.
#[derive(Clone, Copy, Debug, PartialEq, Eq, Structural)]
pub struct TickReport {
    /// Whether a steering force was applied.
    pub steered: bool,
    /// The point at which pursue or evade aimed, which a mark tracks.
    pub offset: Option<Vec2>,
    /// What wander computed.
    pub wander: Option<Wander>,
    /// The point of the path at which path following steered.
    pub path_target: Option<Vec2>,
}

/// The steering force of the active behaviour, where it applies one: pursue
/// and evade apply none without a pursuit target, path following none
/// without a path or within the path's tolerance.
pub open spec fn tick_force(simulation: SimulationView, agent: Agent, input: TickInput) -> Option<Vector> {
    let speed = agent.max_linear_speed as int;
    match simulation.behaviour {
        Behaviour::Seek => Some(seek_steer(input.cursor@, agent.velocity@, speed, agent.position@)),
        Behaviour::Arrive => Some(arrive_steer(input.cursor@, agent.velocity@, speed, agent.position@)),
        Behaviour::Wander => Some(
            seek_steer(
                wander_target(agent.position@, agent.velocity@, input.wander_direction@),
                agent.velocity@,
                speed,
                agent.position@,
            ),
        ),
        Behaviour::Flee => Some(seek_steer(input.cursor@, agent.velocity@, speed, agent.position@).negated()),
        Behaviour::Pursue => match input.pursuit_target {
            Some(target) => Some(
                seek_steer(
                    interception_point(target.position@, target.velocity@),
                    agent.velocity@,
                    speed,
                    agent.position@,
                ),
            ),
            None => None,
        },
        Behaviour::Evade => match input.pursuit_target {
            Some(target) => Some(
                seek_steer(
                    interception_point(target.position@, target.velocity@),
                    agent.velocity@,
                    speed,
                    agent.position@,
                ).negated(),
            ),
            None => None,
        },
        Behaviour::PathFollow => match simulation.path {
            Some(path) => path_follow_steer(path, agent.position@, agent.velocity@, speed),
            None => None,
        },
    }
}

/// The duration by which a tick scales the steering force: arrive applies
/// its force whole, every other behaviour in proportion to the seconds
/// elapsed.
pub open spec fn tick_duration(behaviour: Behaviour, elapsed: int) -> int {
    if behaviour is Arrive {
        ONE as int
    } else {
        elapsed
    }
}

impl Simulation {
    /// One tick: evaluates the active behaviour and adds its steering force
    /// to the agent's velocity. Wander lets its angle drift by a number
    /// drawn from `rng`; nothing else of the machine changes.
    pub fn tick(&mut self, agent: &mut Agent, input: &TickInput, rng: &mut StdRng) -> (report: TickReport)
        requires
            old(self).wf(),
            old(agent).wf(),
            input.wf(),
        ensures
            final(agent).velocity@ == (match tick_force(old(self)@, *old(agent), *input) {
                Some(force) => steered(
                    old(agent).velocity@,
                    force,
                    tick_duration(old(self).behaviour, input.elapsed as int),
                ),
                None => old(agent).velocity@,
            }),
            *final(agent) == (Agent { velocity: final(agent).velocity, ..*old(agent) }),
            report.steered == (tick_force(old(self)@, *old(agent), *input) is Some),
            report.offset matches Some(offset) ==> input.pursuit_target is Some && offset@ == interception_point(
                input.pursuit_target->0.position@,
                input.pursuit_target->0.velocity@,
            ),
            report.offset is Some == (old(self).behaviour.keeps_pursuit_target() && input.pursuit_target is Some),
            report.wander matches Some(wander) ==> wander.target@ == wander_target(
                old(agent).position@,
                old(agent).velocity@,
                input.wander_direction@,
            ),
            report.wander is Some == (old(self).behaviour is Wander),
            report.path_target matches Some(target) ==> old(self).path is Some && target@ == path_target(
                old(self).path->0@.points,
                predicted_position(old(agent).position@, old(agent).velocity@),
            ),
            report.path_target is Some == (old(self).behaviour is PathFollow && report.steered),
            final(self).behaviour == old(self).behaviour,
            final(self).path == old(self).path,
            final(self).own_max_speed == old(self).own_max_speed,
            old(self).behaviour is Wander ==> exists|displace: int|
                -WANDER_JITTER <= displace < WANDER_JITTER && final(self).wander.theta == #[trigger] drifted(
                    old(self).wander.theta as int,
                    displace,
                ),
            !(old(self).behaviour is Wander) ==> final(self).wander == old(self).wander,
            final(self).wf(),
            final(agent).wf(),
    {
        let mut report = TickReport { steered: true, offset: None, wander: None, path_target: None };
        match self.behaviour {
            Behaviour::Seek => seek_system(agent, &input.cursor, input.elapsed),
            Behaviour::Arrive => {
                proof {
                    crate::vector::lemma_scaled_by_one(
                        arrive_steer(
                            input.cursor@,
                            agent.velocity@,
                            agent.max_linear_speed as int,
                            agent.position@,
                        ),
                    );
                }
                arrive_system(agent, &input.cursor)
            },
            Behaviour::Wander => {
                let wander = wander_system(agent, &mut self.wander, &input.wander_direction, input.elapsed, rng);
                report.wander = Some(wander);
            },
            Behaviour::Flee => flee_system(agent, &input.cursor, input.elapsed),
            Behaviour::Pursue => match &input.pursuit_target {
                Some(target) => {
                    report.offset = Some(pursue_system(agent, target, input.elapsed));
                },
                None => {
                    report.steered = false;
                },
            },
            Behaviour::Evade => match &input.pursuit_target {
                Some(target) => {
                    report.offset = Some(evade_system(agent, target, input.elapsed));
                },
                None => {
                    report.steered = false;
                },
            },
            Behaviour::PathFollow => match &self.path {
                Some(path) => {
                    report.path_target = path_follow_system(agent, path, input.elapsed);
                    report.steered = report.path_target.is_some();
                },
                None => {
                    report.steered = false;
                },
            },
        }
        report
    }
}

} // verus!
