//! Velocity-adaptive scroll filtering for relative pointing devices.
//!
//! A batch of input events is routed event by event: high-resolution wheel
//! deltas are rescaled by a caller-supplied sensitivity curve that is fed the
//! delta and the time since the previous rescaled event, legacy wheel events
//! are discarded, and everything else passes through untouched.
//!
//! The library works on plain values only. Reading devices, reading the
//! clock and evaluating the floating-point curve are the caller's business.

pub mod batch;
pub mod device;
pub mod event;
pub mod scroll;
pub mod time;
