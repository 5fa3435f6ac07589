//! The rope mechanic of a 2D platform game: chains built from two endpoints,
//! riders that attach to them and let go, and a grapple that grows toward a
//! target and turns into a chain on impact.
//!
//! The library holds the state of the mechanic in a [`world::World`] and
//! changes it step by step. Bodies, collisions and rays belong to a physics
//! backend on the side of the host: the host reports what happened, and
//! shows what the world holds. [`schedule`] gives the order of a frame.
//!
//! All numbers are whole. Lengths are in thousandths of a unit, times in
//! nanoseconds, factors in thousandths; [`math`] has the geometry and
//! [`timer`] the timers. What every step does is stated over
//! [`world::WorldState`], the world as a mathematical value; [`laws`] and
//! [`wellformed`] prove what follows for all worlds.
//!
//! The smaller modules hold the rules of the rest of the game: the player
//! and its movement, boxes and the goal, trees and vines, the death of the
//! player, and the fire at the end.

pub mod animated_sprite;
pub mod boxes;
pub mod chain;
pub mod chain_movement;
pub mod death_anim;
pub mod end_sequence;
pub mod goal;
pub mod laws;
pub mod math;
pub mod movement;
pub mod physics;
pub mod player;
pub mod player_chain;
mod random;
pub mod schedule;
pub mod timer;
pub mod tree;
pub mod vines;
pub mod wellformed;
pub mod world;
