//! A two-player Pong for a fixed character grid.
//!
//! The crate holds the whole game as verified logic: the entities and the
//! frame buffer, the mapping from keys to effects, the physics of the ball,
//! the life cycle of a round and the composition of a frame. Positions below
//! the size of a cell and velocities are kept in fixed point, so every
//! statement about the ball is exact.

pub mod grid;
pub mod thing;
pub mod field;
pub mod angle;
pub mod text;
pub mod chance;
pub mod physics;
pub mod overlay;
pub mod game;
pub mod laws;
