//! Turn-based combat and progression core of a roguelike: entities and
//! their fighters, attack resolution, the one-shot death transition,
//! experience-driven levelling, movement, and the decisions of each tick.

pub mod fighter;
pub mod game_state;
pub mod gui;
pub mod laws;
pub mod object;
pub mod util;
pub mod world;
