//! Steering behaviours for agents that move on a plane: seek, arrive,
//! wander, pursue, evade, flee and path following, the state machine that
//! keeps exactly one of them active, and the tick that applies the active
//! one to an agent.
//!
//! # Quantities
//!
//! Every quantity is an `i64` that counts millionths: [`arith::ONE`] is one
//! world unit, one second or one radian. Results are rounded toward zero, so
//! that each is an exact function of the inputs, which the contracts state
//! over unbounded integers ([`vector::Vector`] for a [`vector::Vec2`]).
//! Coordinates, speeds and durations reach up to [`arith::COORD_MAX`] either
//! way, positions in the world up to [`arith::WORLD_MAX`]; a velocity that
//! would leave this range stops at its end.
//!
//! # What the caller supplies
//!
//! The library holds no trigonometry. Where a behaviour goes by an angle, the
//! caller hands in the polar angle of the agent's velocity
//! ([`utils::heading`], [`agent::rotate_system`]) or the vector of length one
//! at the bearing of the wander state ([`wander::wander`]). Integrating
//! positions, detecting contacts and keeping the auxiliary entities that the
//! hooks ask for ([`command::Command`]) are the caller's as well.
//!
//! # Modules
//!
//! - [`arith`], [`angle`], [`vector`], [`utils`]: numbers, angles, vectors
//!   and the vector utilities;
//! - [`agent`]: the kinematic state, and how a steering force and a turn
//!   change it;
//! - [`seek`], [`arrive`], [`wander`], [`pursue`], [`evade`],
//!   [`path_follow`]: the behaviours;
//! - [`behaviour`], [`command`], [`simulation`]: the state machine, its
//!   hooks' commands, and the tick;
//! - [`edges`]: the edges of the world;
//! - [`entropy`]: the source of random numbers.

pub mod agent;
pub mod angle;
pub mod arrive;
pub mod arith;
pub mod behaviour;
pub mod command;
pub mod edges;
pub mod entropy;
pub mod evade;
pub mod path_follow;
pub mod pursue;
pub mod seek;
pub mod simulation;
pub mod utils;
pub mod vector;
pub mod wander;
