//! Frames and playback direction.

use vstd::prelude::*;

verus! {

/// One animation frame: an opaque atlas index paired with a display duration,
/// measured in microseconds of virtual time. Immutable once constructed.
#[derive(Clone, Copy, Debug, PartialEq, Eq, Structural)]
pub struct SpriteAnimationFrame {
    pub index: usize,
    pub duration_micros: u64,
}

impl SpriteAnimationFrame {
    /// A frame is well formed when its display duration is positive.
    pub open spec fn wf(self) -> bool {
        self.duration_micros > 0
    }

    pub fn new(index: usize, duration_micros: u64) -> (frame: Self)
        requires
            duration_micros > 0,
        ensures
            frame == (SpriteAnimationFrame { index, duration_micros }),
    {
        Self { index, duration_micros }
    }

    pub fn index(&self) -> (index: usize)
        ensures
            index == self.index,
    {
        self.index
    }

    pub fn duration_micros(&self) -> (duration: u64)
        ensures
            duration == self.duration_micros,
    {
        self.duration_micros
    }
}

/// The playback direction of an animation.
#[derive(Clone, Copy, Debug, PartialEq, Eq, Structural)]
pub enum SpriteAnimationDirection {
    Forward,
    Backward,
}

impl SpriteAnimationDirection {
    pub open spec fn spec_reverse(self) -> Self {
        match self {
            SpriteAnimationDirection::Forward => SpriteAnimationDirection::Backward,
            SpriteAnimationDirection::Backward => SpriteAnimationDirection::Forward,
        }
    }

    pub fn reverse(&self) -> (reversed: Self)
        ensures
            reversed == self.spec_reverse(),
    {
        match self {
            SpriteAnimationDirection::Forward => SpriteAnimationDirection::Backward,
            SpriteAnimationDirection::Backward => SpriteAnimationDirection::Forward,
        }
    }
}

impl Default for SpriteAnimationDirection {
    /// Playback runs forward unless asked otherwise.
    fn default() -> (direction: Self)
        ensures
            direction == SpriteAnimationDirection::Forward,
    {
        SpriteAnimationDirection::Forward
    }
}

} // verus!
