//! Core logic of a small 2D arcade game: kinematic movement of a
//! player-controlled ship, screen wrapping and bounds clamping, enemy
//! steering toward the player, collision-to-health resolution, periodic
//! enemy spawning, and step sound-effect cueing.
//!
//! All state is held in fixed-point integers so that every per-frame law
//! is exact: positions are in micro-units, linear speeds in milli-units
//! per millisecond, angles in millidegrees, angular speeds in millidegrees
//! per millisecond, and frame times in milliseconds.

pub mod math;
pub mod movement;
pub mod steering;
pub mod collision;
pub mod game;
pub mod spawn;
