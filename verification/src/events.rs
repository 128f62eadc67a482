//! Playback notifications.
//!
//! Notification emission is opt-in per entity: the driver checks the entity's
//! events-enabled capability once per qualifying tick before emitting.
//! Notifications are fire-and-forget and delivered within the tick that
//! produced them; when a frame change and an end of animation fall on the
//! same tick, the frame change comes first.

use vstd::prelude::*;

verus! {

/// A frame-change notification: `entity` now shows the frame at `index`.
#[derive(Clone, Copy, Debug, PartialEq, Eq, Structural)]
pub struct SpriteAnimationFrameChangeEvent {
    pub entity: u64,
    pub index: usize,
}

/// An end-of-animation notification: `entity` just produced the terminal
/// frame of its current direction.
#[derive(Clone, Copy, Debug, PartialEq, Eq, Structural)]
pub struct SpriteAnimationEndEvent {
    pub entity: u64,
}

/// Marker capability: entities holding it get notifications emitted.
#[derive(Clone, Copy, Debug, PartialEq, Eq, Structural)]
pub struct SpriteAnimationFrameChangeEventsEnabled;

/// One notification in the order the driver emitted it.
#[derive(Clone, Copy, Debug, PartialEq, Eq, Structural)]
pub enum SpriteAnimationEvent {
    FrameChange(SpriteAnimationFrameChangeEvent),
    End(SpriteAnimationEndEvent),
}

} // verus!
