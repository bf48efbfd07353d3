//! Catevy: the rules of a cat roguelike, verified.
use vstd::prelude::*;

pub mod ability;
pub mod combat;
pub mod components;
pub mod enemy_ai;
pub mod groups;
pub mod laws;
pub mod palette;
pub mod player;
pub mod progression;
pub mod rng;
pub mod room;
pub mod spawning;
pub mod state;
pub mod sword;
pub mod timer;

verus! {
} // verus!
