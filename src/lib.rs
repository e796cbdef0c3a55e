//! Simulation and glyph-placement core of a terminal Pong game.
//!
//! Positions and velocities are fixed-point numbers: `field::UNIT` units span
//! one whole axis of the play field, so the normalized range `[0, 1]` is
//! `[0, UNIT]`.
pub mod field;
pub mod game_input;
pub mod game;
pub mod mapper;
pub mod app;
