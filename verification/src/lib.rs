//! Simulation core of a 2D side-scrolling flap-and-dodge arcade game.
//!
//! All world quantities are fixed-point integers in milli-units: a
//! position of `1_000` is one world unit, a velocity of `1_000` is one
//! world unit per second, and frame time is measured in milliseconds.
//! The core is a deterministic function of the previous state, the
//! elapsed time, the input snapshot and the random draws used for pipe
//! placement; rendering, windowing, audio and input polling are left to
//! the host loop.

pub mod consts;
pub mod entity;
pub mod geom;
pub mod parallax;
pub mod physics;
pub mod pipes;
pub mod state;
pub mod world;
