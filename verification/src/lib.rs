//! Discrete-frame sprite animation playback.
//!
//! The crate drives direction-aware playback over a non-empty frame sequence:
//! a per-entity cursor, a countdown timer bound to the current frame, and a
//! per-tick driver that renders frame indices, emits notifications, and queues
//! deferred despawn requests. Asset loading, rendering, audio and input stay
//! outside: the driver only consumes elapsed virtual time and plain flags, and
//! only produces frame indices, flip flags, events and removal requests.

pub mod actions;
pub mod animation;
pub mod driver;
pub mod events;
pub mod facing;
pub mod frame;
pub mod timer;
