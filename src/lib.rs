//! A Go-style board: hit-testing of pointer positions against the grid,
//! stone placement, and the timed placement animation, all producing a
//! draw list of plain shapes for a renderer to paint.
//!
//! Lengths are counted in hundredths of a pixel and time in microseconds.

pub mod settings;
pub mod geometry;
pub mod mapper;
pub mod animation;
pub mod stone;
pub mod board;
pub mod game;
