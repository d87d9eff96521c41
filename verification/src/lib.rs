//! A small keyboard-driven physics playground: a static ground, a bouncing
//! ball, and a player body whose horizontal velocity follows the held
//! direction keys. The physics host integrates positions; this crate owns
//! the world configuration, the telemetry read-out, and the per-frame
//! input-to-velocity mapping, each with a proved contract.

pub mod input;
pub mod telemetry;
pub mod world;
