//! Verified core of a first-person character controller.
//!
//! All physical quantities are fixed-point integers so that every rule can be
//! stated and proved exactly: lengths and velocities in thousandths of a world
//! unit ("milli-units"), angles in microradians, and time in milliseconds.
//! The surrounding engine (rendering, input devices, rigid-body integration)
//! is a collaborator: it hands this library plain values each tick and applies
//! the velocities, orientations and pointer commands the library returns.

pub mod ground;
pub mod look;
pub mod math;
pub mod mode;
pub mod movement;
pub mod tick;
pub mod timer;
