//! Simulation engine for a side-scrolling survival game: a runner on a fixed
//! ground line dodges scrolling obstacles and may catch a falling bonus item
//! that strengthens its jump. All quantities are fixed-point integers:
//! positions and sprite extents in millipixels, velocities in millipixels per
//! second, times in milliseconds, score in millipoints.

pub mod arith;
pub mod config;
pub mod enemy;
pub mod game;
pub mod laws;
pub mod player;
pub mod powerup;
pub mod rng;
