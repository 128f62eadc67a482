//! The per-entity playback state: an owned, immutable frame sequence with a
//! direction-aware, restartable double-ended cursor and the playback options.
//!
//! The cursor is a half-open range `[front, back)` of positions not yet
//! visited: a forward step takes the range's first position, a backward step
//! its last, and the two ends share the range, so stepping never revisits a
//! position until the cursor is rewound. The cursor never wraps on its own;
//! looping is orchestrated by the driver through `reset`.

use vstd::prelude::*;

use crate::frame::{SpriteAnimationDirection, SpriteAnimationFrame};

verus! {

/// The mathematical state of an animation.
pub struct AnimationModel {
    pub frames: Seq<SpriteAnimationFrame>,
    pub front: int,
    pub back: int,
    pub current_frame: Option<(int, SpriteAnimationFrame)>,
    pub direction: SpriteAnimationDirection,
    pub flip_x: bool,
    pub ping_pong: bool,
    pub despawn_on_finish: bool,
}

impl AnimationModel {
    /// Well-formedness: the sequence is non-empty with positive durations,
    /// the cursor is a sub-range of the sequence, and the current frame, when
    /// set, is the sequence's frame at its recorded position.
    pub open spec fn wf(self) -> bool {
        &&& self.frames.len() >= 1
        &&& forall|i: int| 0 <= i < self.frames.len() ==> (#[trigger] self.frames[i]).wf()
        &&& 0 <= self.front <= self.back <= self.frames.len()
        &&& match self.current_frame {
            Some((position, frame)) => {
                &&& 0 <= position < self.frames.len()
                &&& frame == self.frames[position]
            },
            None => true,
        }
    }

    /// A fresh cursor over the same sequence and options: no position visited
    /// yet, no current frame.
    pub open spec fn rewound(self) -> AnimationModel {
        AnimationModel {
            front: 0,
            back: self.frames.len() as int,
            current_frame: None,
            ..self
        }
    }

    /// One step towards the end: the cursor's first unvisited position, or
    /// nothing once the range is exhausted.
    pub open spec fn advanced(self) -> AnimationModel {
        if self.front < self.back {
            AnimationModel {
                front: self.front + 1,
                current_frame: Some((self.front, self.frames[self.front])),
                ..self
            }
        } else {
            AnimationModel { current_frame: None, ..self }
        }
    }

    /// One step towards the start: the cursor's last unvisited position, or
    /// nothing once the range is exhausted.
    pub open spec fn advanced_back(self) -> AnimationModel {
        if self.front < self.back {
            AnimationModel {
                back: self.back - 1,
                current_frame: Some((self.back - 1, self.frames[self.back - 1])),
                ..self
            }
        } else {
            AnimationModel { current_frame: None, ..self }
        }
    }

    /// One step in the stored direction.
    pub open spec fn stepped(self) -> AnimationModel {
        match self.direction {
            SpriteAnimationDirection::Forward => self.advanced(),
            SpriteAnimationDirection::Backward => self.advanced_back(),
        }
    }

    /// Whether the current frame is the trailing boundary in the stored
    /// direction: the last position for forward playback, position zero for
    /// backward playback. False while no frame is current.
    pub open spec fn is_terminal(self) -> bool {
        match self.direction {
            SpriteAnimationDirection::Forward => match self.current_frame {
                Some((position, _)) => position == self.frames.len() - 1,
                None => false,
            },
            SpriteAnimationDirection::Backward => match self.current_frame {
                Some((position, _)) => position == 0,
                None => false,
            },
        }
    }

    /// The frame that attachment seeds: the sequence's first frame for
    /// forward playback, its last for backward playback.
    pub open spec fn seed_frame(self) -> SpriteAnimationFrame {
        match self.direction {
            SpriteAnimationDirection::Forward => self.frames[0],
            SpriteAnimationDirection::Backward => self.frames[self.frames.len() - 1],
        }
    }
}

/// The cursor after `n` forward steps.
pub open spec fn advanced_times(animation: AnimationModel, n: nat) -> AnimationModel
    decreases n,
{
    if n == 0 {
        animation
    } else {
        advanced_times(animation, (n - 1) as nat).advanced()
    }
}

/// The cursor after `n` backward steps.
pub open spec fn advanced_back_times(animation: AnimationModel, n: nat) -> AnimationModel
    decreases n,
{
    if n == 0 {
        animation
    } else {
        advanced_back_times(animation, (n - 1) as nat).advanced_back()
    }
}

/// Law: stepping forward `n` times from a fresh cursor visits the first `n`
/// frames exactly once, in order — the `n`-th step yields position `n - 1` —
/// and stepping exactly `len` times under forward playback ends on the
/// terminal boundary.
pub proof fn lemma_forward_steps_visit_in_order(animation: AnimationModel, n: nat)
    requires
        animation.wf(),
        animation == animation.rewound(),
        n <= animation.frames.len(),
    ensures
        n >= 1 ==> advanced_times(animation, n) == (AnimationModel {
            front: n as int,
            current_frame: Some(((n - 1) as int, animation.frames[n - 1])),
            ..animation
        }),
        (n == animation.frames.len() && animation.direction is Forward) ==> advanced_times(
            animation,
            n,
        ).is_terminal(),
    decreases n,
{
    if n >= 1 {
        lemma_forward_steps_visit_in_order(animation, (n - 1) as nat);
    }
}

/// Law: stepping backward `n` times from a fresh cursor visits the last `n`
/// frames exactly once, in reverse order — the `n`-th step yields position
/// `len - n` — and stepping exactly `len` times under backward playback ends
/// on the terminal boundary, position zero.
pub proof fn lemma_backward_steps_visit_in_order(animation: AnimationModel, n: nat)
    requires
        animation.wf(),
        animation == animation.rewound(),
        n <= animation.frames.len(),
    ensures
        n >= 1 ==> advanced_back_times(animation, n) == (AnimationModel {
            back: animation.frames.len() - n,
            current_frame: Some(
                (animation.frames.len() - n, animation.frames[animation.frames.len() - n]),
            ),
            ..animation
        }),
        (n == animation.frames.len() && animation.direction is Backward) ==> advanced_back_times(
            animation,
            n,
        ).is_terminal(),
    decreases n,
{
    if n >= 1 {
        lemma_backward_steps_visit_in_order(animation, (n - 1) as nat);
    }
}

/// Law: a rewind followed immediately by a forward step always yields the
/// sequence's first frame, whatever the cursor's prior position.
pub proof fn lemma_reset_then_advance_yields_first(animation: AnimationModel)
    requires
        animation.wf(),
    ensures
        animation.rewound().advanced().current_frame == Some((0int, animation.frames[0])),
{
}

/// Marker capability: while present on an entity, the driver suppresses all
/// per-tick processing for it and playback freezes at the current frame. The
/// driver sees its presence as the `stopped` flag of an entry.
#[derive(Clone, Copy, Debug, PartialEq, Eq, Structural)]
pub struct SpriteAnimationStopped;

/// The playback state owned by one animated entity.
pub struct SpriteAnimation {
    current_frame: Option<(usize, SpriteAnimationFrame)>,
    despawn_on_finish: bool,
    direction: SpriteAnimationDirection,
    flip_x: bool,
    front: usize,
    back: usize,
    frames: Vec<SpriteAnimationFrame>,
    ping_pong: bool,
}

impl View for SpriteAnimation {
    type V = AnimationModel;

    closed spec fn view(&self) -> AnimationModel {
        AnimationModel {
            frames: self.frames@,
            front: self.front as int,
            back: self.back as int,
            current_frame: match self.current_frame {
                Some((position, frame)) => Some((position as int, frame)),
                None => None,
            },
            direction: self.direction,
            flip_x: self.flip_x,
            ping_pong: self.ping_pong,
            despawn_on_finish: self.despawn_on_finish,
        }
    }
}

impl SpriteAnimation {
    /// A fresh animation over a non-empty sequence: forward, unflipped,
    /// neither ping-pong nor despawn-on-finish, cursor unstarted.
    pub fn new(frames: Vec<SpriteAnimationFrame>) -> (animation: Self)
        requires
            frames@.len() >= 1,
            forall|i: int| 0 <= i < frames@.len() ==> (#[trigger] frames@[i]).wf(),
        ensures
            animation@ == (AnimationModel {
                frames: frames@,
                front: 0,
                back: frames@.len() as int,
                current_frame: None,
                direction: SpriteAnimationDirection::Forward,
                flip_x: false,
                ping_pong: false,
                despawn_on_finish: false,
            }),
            animation@.wf(),
    {
        let back = frames.len();
        Self {
            current_frame: None,
            despawn_on_finish: false,
            direction: SpriteAnimationDirection::Forward,
            flip_x: false,
            front: 0,
            back,
            frames,
            ping_pong: false,
        }
    }

    pub fn despawn_on_finish(&self) -> (enabled: bool)
        ensures
            enabled == self@.despawn_on_finish,
    {
        self.despawn_on_finish
    }

    pub fn is_ping_pong(&self) -> (enabled: bool)
        ensures
            enabled == self@.ping_pong,
    {
        self.ping_pong
    }

    pub fn flip_x(&self) -> (flipped: bool)
        ensures
            flipped == self@.flip_x,
    {
        self.flip_x
    }

    pub fn direction(&self) -> (direction: SpriteAnimationDirection)
        ensures
            direction == self@.direction,
    {
        self.direction
    }

    /// Replaces the stored direction with its reverse.
    pub fn reverse_direction(&mut self)
        ensures
            final(self)@ == (AnimationModel {
                direction: old(self)@.direction.spec_reverse(),
                ..old(self)@
            }),
    {
        self.direction = self.direction.reverse();
    }

    /// Advances the cursor towards the end and returns the new position and
    /// frame, or nothing if already exhausted in that direction.
    pub fn next(&mut self) -> (produced: Option<(usize, SpriteAnimationFrame)>)
        requires
            old(self)@.wf(),
        ensures
            final(self)@ == old(self)@.advanced(),
            final(self)@.wf(),
            (produced is Some) == (old(self)@.front < old(self)@.back),
            match produced {
                Some((position, frame)) => final(self)@.current_frame == Some(
                    (position as int, frame),
                ),
                None => final(self)@.current_frame is None,
            },
    {
        if self.front < self.back {
            let position = self.front;
            let frame = self.frames[position];
            self.current_frame = Some((position, frame));
            self.front = position + 1;
            Some((position, frame))
        } else {
            self.current_frame = None;
            None
        }
    }

    /// Advances the cursor towards the start and returns the new position and
    /// frame, or nothing if already exhausted in that direction.
    pub fn next_back(&mut self) -> (produced: Option<(usize, SpriteAnimationFrame)>)
        requires
            old(self)@.wf(),
        ensures
            final(self)@ == old(self)@.advanced_back(),
            final(self)@.wf(),
            (produced is Some) == (old(self)@.front < old(self)@.back),
            match produced {
                Some((position, frame)) => final(self)@.current_frame == Some(
                    (position as int, frame),
                ),
                None => final(self)@.current_frame is None,
            },
    {
        if self.front < self.back {
            let position = self.back - 1;
            let frame = self.frames[position];
            self.current_frame = Some((position, frame));
            self.back = position;
            Some((position, frame))
        } else {
            self.current_frame = None;
            None
        }
    }

    /// Advances the cursor in the stored direction.
    pub fn step(&mut self) -> (produced: Option<(usize, SpriteAnimationFrame)>)
        requires
            old(self)@.wf(),
        ensures
            final(self)@ == old(self)@.stepped(),
            final(self)@.wf(),
            (produced is Some) == (old(self)@.front < old(self)@.back),
            match produced {
                Some((position, frame)) => final(self)@.current_frame == Some(
                    (position as int, frame),
                ),
                None => final(self)@.current_frame is None,
            },
    {
        match self.direction {
            SpriteAnimationDirection::Forward => self.next(),
            SpriteAnimationDirection::Backward => self.next_back(),
        }
    }

    /// Rewinds the cursor to an unstarted state over the same sequence; the
    /// current frame becomes nothing.
    pub fn reset(&mut self)
        ensures
            final(self)@ == old(self)@.rewound(),
            old(self)@.wf() ==> final(self)@.wf(),
    {
        self.front = 0;
        self.back = self.frames.len();
        self.current_frame = None;
    }

    /// Whether the current frame is the trailing boundary in the stored
    /// direction.
    pub fn is_last_frame(&self) -> (terminal: bool)
        requires
            self@.wf(),
        ensures
            terminal == self@.is_terminal(),
    {
        match self.direction {
            SpriteAnimationDirection::Forward => match self.current_frame {
                Some((position, _)) => position == self.frames.len() - 1,
                None => false,
            },
            SpriteAnimationDirection::Backward => match self.current_frame {
                Some((position, _)) => position == 0,
                None => false,
            },
        }
    }

    /// A timer for the frame that attachment seeds, started on that frame's
    /// duration.
    pub fn seed_timer(&self) -> (timer: crate::timer::SpriteAnimationTimer)
        requires
            self@.wf(),
        ensures
            timer@ == crate::timer::TimerModel::fresh(self@.seed_frame().duration_micros),
            timer@.wf(),
    {
        let duration = match self.direction {
            SpriteAnimationDirection::Forward => self.frames[0].duration_micros,
            SpriteAnimationDirection::Backward => self.frames[self.frames.len() - 1].duration_micros,
        };
        crate::timer::SpriteAnimationTimer::from_micros(duration)
    }

    pub fn with_despawn_on_finish(self) -> (animation: Self)
        ensures
            animation@ == (AnimationModel { despawn_on_finish: true, ..self@ }),
    {
        let mut animation = self;
        animation.despawn_on_finish = true;
        animation
    }

    pub fn with_direction(self, direction: SpriteAnimationDirection) -> (animation: Self)
        ensures
            animation@ == (AnimationModel { direction, ..self@ }),
    {
        let mut animation = self;
        animation.direction = direction;
        animation
    }

    pub fn with_flip_x(self) -> (animation: Self)
        ensures
            animation@ == (AnimationModel { flip_x: true, ..self@ }),
    {
        let mut animation = self;
        animation.flip_x = true;
        animation
    }

    pub fn with_ping_pong(self) -> (animation: Self)
        ensures
            animation@ == (AnimationModel { ping_pong: true, ..self@ }),
    {
        let mut animation = self;
        animation.ping_pong = true;
        animation
    }
}

} // verus!
