//! The rules of a pogo-stick bouncer: which collisions make the player
//! bounce, how held keys steer it, where the camera goes, and what the
//! world looks like when it starts.
//!
//! Nothing here does arithmetic on real numbers. Run-time quantities
//! (velocities, orientations, positions) pass through as values of the
//! caller's own types, and the numeric kernels that act on them are handed
//! in as functions. Quantities that the rules themselves fix are integers
//! that count hundredths, see [`units`].

pub mod units;
pub mod layers;
pub mod event;
pub mod bounce;
pub mod input;
pub mod camera;
pub mod scene;
