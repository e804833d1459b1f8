//! A robot on a square grid with fixed obstacles: bounded moves, collision-gated
//! moves, random obstacle placement, and a frame description for a renderer.

pub mod robot;
pub mod world;
mod random;
pub mod input;
pub mod frame;
pub mod laws;
