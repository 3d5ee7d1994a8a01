//! Core simulation of a top-down wave-survival arena game.
//!
//! The library models the real-time combat and progression loop: hit points
//! and damage, projectile motion and collision resolution (piercing and
//! splash included), enemy waves with difficulty curves, the upgrade and
//! power-up economy, and the phase state machine that sequences it all.
//! Rendering, window handling and raw input polling are left to the caller,
//! which feeds the simulation one input snapshot and one elapsed-time delta
//! per frame.
//!
//! All quantities are integers: lengths in thousandths of a world unit
//! ("milli-units"), durations in milliseconds, speeds in milli-units per
//! second. Every function carries a contract, and the documented game laws
//! (health stays within bounds, pierce limits the number of hits, only the
//! enumerated phase transitions are reachable, ...) are proved.

pub mod combat;
pub mod entity;
pub mod geom;
pub mod health;
pub mod input;
pub mod phase;
pub mod powerup;
pub mod rng;
pub mod sim;
pub mod stats;
pub mod timer;
pub mod wave;
