//! A toroidal grid-snake simulation: the per-tick state machine, its
//! fixed-timestep clock, the key-to-command mapping and the projection of the
//! state onto draw rectangles.

pub mod clock;
pub mod food;
pub mod game;
pub mod grid;
pub mod input;
pub mod render;
