//! A two-player table-tennis arcade game, kept as a frame-stepped state
//! machine over integers.
//!
//! Lengths are counted in millionths of a pixel and times in microseconds,
//! so that a speed in pixels per second is also a speed in length units per
//! microsecond and a frame's motion is an exact integer product.
pub mod components;
pub mod game;
pub mod random;
