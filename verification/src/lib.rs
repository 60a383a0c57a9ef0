//! Core logic of a two-paddle ball-bouncing arcade game.
//!
//! The library holds the simulation rules: arena and wall geometry, per-tick
//! movement integration, axis-aligned collision detection between the ball and
//! the paddles and walls, score tracking with its display string, and the
//! menu / play / pause state machine. Rendering, input polling, windowing and
//! scheduling belong to a host engine and stay outside this crate.
//!
//! All coordinates are integers counted in subunits: one world unit is 60
//! subunits. Because the simulation advances on a fixed timestep of 1/60 s,
//! a speed of `v` world units per second is exactly `v` subunits per tick,
//! so velocities are stored as displacement per tick and every tick is exact
//! integer arithmetic.

pub mod collision;
pub mod geom;
pub mod menu;
pub mod motion;
pub mod scoreboard;
pub mod state;
pub mod world;
