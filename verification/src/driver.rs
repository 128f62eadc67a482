//! The per-tick animation driver and the attachment lifecycle.
//!
//! Once per simulation tick the driver processes every active entity: it
//! checks terminal state first (despawn wins over ping-pong, and a terminal
//! tick neither ticks the timer nor renders), otherwise advances the entity's
//! frame timer by the tick's elapsed virtual time and, on interval
//! completion, steps the cursor, writes the render target, restarts the timer
//! on the new frame's duration and emits the opt-in notifications. Despawning
//! is a deferred intent: the driver only enqueues removal requests; a
//! separate apply phase executes them after the pass.

use vstd::prelude::*;

use crate::animation::{AnimationModel, SpriteAnimation};
use crate::events::{
    SpriteAnimationEndEvent, SpriteAnimationEvent, SpriteAnimationFrameChangeEvent,
};
use crate::timer::{SpriteAnimationTimer, TimerModel};

verus! {

/// The per-entity render state the driver writes: the frame index handed to
/// the compositor and the horizontal flip flag. The index is opaque to the
/// driver and never validated.
#[derive(Clone, Copy, Debug, PartialEq, Eq, Structural)]
pub struct RenderTarget {
    pub index: usize,
    pub flip_x: bool,
}

/// What one driver step did for one entity, beyond mutating its state: the
/// removal intent and the notifications, in emission order.
pub struct StepOutcome {
    pub despawn: bool,
    pub events: Vec<SpriteAnimationEvent>,
}

/// The mathematical outcome of one driver step for one entity.
pub struct StepModel {
    pub animation: AnimationModel,
    pub timer: TimerModel,
    pub target: RenderTarget,
    pub despawn: bool,
    pub events: Seq<SpriteAnimationEvent>,
}

/// The functional model of one driver step for one entity.
///
/// Terminal state is checked before the timer: a terminal tick requests a
/// despawn (if asked), else reverses the direction (if ping-pong) and rewinds
/// the cursor, and in either case renders nothing, emits nothing and leaves
/// the timer alone. On a non-terminal tick the timer advances; if its
/// interval just elapsed, the flip flag is written, the cursor steps in the
/// stored direction and, when a frame is produced, its index is written, the
/// timer restarts on its duration, and — when enabled — a frame-change
/// notification is emitted, followed by an end notification if the new frame
/// is terminal.
pub open spec fn entity_step(
    entity: u64,
    animation: AnimationModel,
    timer: TimerModel,
    target: RenderTarget,
    delta_micros: u64,
    events_enabled: bool,
) -> StepModel {
    if animation.is_terminal() {
        if animation.despawn_on_finish {
            StepModel { animation, timer, target, despawn: true, events: Seq::empty() }
        } else {
            let turned = if animation.ping_pong {
                AnimationModel { direction: animation.direction.spec_reverse(), ..animation }
            } else {
                animation
            };
            StepModel {
                animation: turned.rewound(),
                timer,
                target,
                despawn: false,
                events: Seq::empty(),
            }
        }
    } else {
        let ticked = timer.ticked(delta_micros);
        if !ticked.just_finished {
            StepModel { animation, timer: ticked, target, despawn: false, events: Seq::empty() }
        } else {
            let stepped = animation.stepped();
            match stepped.current_frame {
                Some((_, frame)) => {
                    let change = SpriteAnimationEvent::FrameChange(
                        SpriteAnimationFrameChangeEvent { entity, index: frame.index },
                    );
                    let events = if !events_enabled {
                        Seq::empty()
                    } else if stepped.is_terminal() {
                        seq![change, SpriteAnimationEvent::End(SpriteAnimationEndEvent { entity })]
                    } else {
                        seq![change]
                    };
                    StepModel {
                        animation: stepped,
                        timer: TimerModel::fresh(frame.duration_micros),
                        target: RenderTarget { index: frame.index, flip_x: animation.flip_x },
                        despawn: false,
                        events,
                    }
                },
                None => StepModel {
                    animation: stepped,
                    timer: ticked,
                    target: RenderTarget { index: target.index, flip_x: animation.flip_x },
                    despawn: false,
                    events: Seq::empty(),
                },
            }
        }
    }
}

/// One driver step for one entity, mutating its playback state, timer and
/// render target exactly as [`entity_step`] describes.
pub fn animate_entity(
    entity: u64,
    animation: &mut SpriteAnimation,
    timer: &mut SpriteAnimationTimer,
    target: &mut RenderTarget,
    delta_micros: u64,
    events_enabled: bool,
) -> (outcome: StepOutcome)
    requires
        old(animation)@.wf(),
        old(timer)@.wf(),
    ensures
        ({
            let m = entity_step(
                entity,
                old(animation)@,
                old(timer)@,
                *old(target),
                delta_micros,
                events_enabled,
            );
            &&& final(animation)@ == m.animation
            &&& final(timer)@ == m.timer
            &&& *final(target) == m.target
            &&& outcome.despawn == m.despawn
            &&& outcome.events@ == m.events
        }),
        final(animation)@.wf(),
        final(timer)@.wf(),
{
    let mut events: Vec<SpriteAnimationEvent> = Vec::new();
    if animation.is_last_frame() {
        if animation.despawn_on_finish() {
            return StepOutcome { despawn: true, events };
        }
        if animation.is_ping_pong() {
            animation.reverse_direction();
        }
        animation.reset();
        return StepOutcome { despawn: false, events };
    }
    timer.tick(delta_micros);
    if !timer.just_finished() {
        return StepOutcome { despawn: false, events };
    }
    target.flip_x = animation.flip_x();
    match animation.step() {
        Some((_, frame)) => {
            target.index = frame.index();
            timer.restart(frame.duration_micros());
            if events_enabled {
                events.push(
                    SpriteAnimationEvent::FrameChange(
                        SpriteAnimationFrameChangeEvent { entity, index: frame.index() },
                    ),
                );
                if animation.is_last_frame() {
                    events.push(SpriteAnimationEvent::End(SpriteAnimationEndEvent { entity }));
                }
            }
        },
        None => {},
    }
    StepOutcome { despawn: false, events }
}

/// One animated entity as the driver sees it: the playback state and its
/// paired timer (created and destroyed together), the render target, the
/// opt-in notification capability and the external stop marker.
pub struct AnimationEntry {
    pub entity: u64,
    pub animation: SpriteAnimation,
    pub timer: SpriteAnimationTimer,
    pub target: RenderTarget,
    pub events_enabled: bool,
    pub stopped: bool,
}

impl AnimationEntry {
    pub open spec fn wf(self) -> bool {
        &&& self.animation@.wf()
        &&& self.timer@.wf()
    }

    /// The model of this entry's next driver step.
    pub open spec fn step(self, delta_micros: u64) -> StepModel {
        entity_step(
            self.entity,
            self.animation@,
            self.timer@,
            self.target,
            delta_micros,
            self.events_enabled,
        )
    }

    /// The notifications this entry's next driver step emits: none while the
    /// entry is stopped.
    pub open spec fn step_events(self, delta_micros: u64) -> Seq<SpriteAnimationEvent> {
        if self.stopped {
            Seq::empty()
        } else {
            self.step(delta_micros).events
        }
    }

    /// Whether this entry's next driver step requests a despawn.
    pub open spec fn step_despawns(self, delta_micros: u64) -> bool {
        !self.stopped && self.step(delta_micros).despawn
    }

    /// One driver step for this entry. A stopped entry is left untouched and
    /// produces nothing: playback freezes at the current frame.
    pub fn animate(&mut self, delta_micros: u64) -> (outcome: StepOutcome)
        requires
            old(self).wf(),
        ensures
            stepped_entry(*old(self), *final(self), delta_micros),
            final(self).wf(),
            outcome.despawn == old(self).step_despawns(delta_micros),
            outcome.events@ == old(self).step_events(delta_micros),
    {
        if self.stopped {
            return StepOutcome { despawn: false, events: Vec::new() };
        }
        animate_entity(
            self.entity,
            &mut self.animation,
            &mut self.timer,
            &mut self.target,
            delta_micros,
            self.events_enabled,
        )
    }
}

/// How one driver pass relates an entry's post-state to its pre-state: the
/// identity, capabilities and stop marker are untouched; a stopped entry
/// keeps its whole state, any other entry steps per [`entity_step`].
pub open spec fn stepped_entry(pre: AnimationEntry, post: AnimationEntry, delta_micros: u64) -> bool {
    &&& post.entity == pre.entity
    &&& post.events_enabled == pre.events_enabled
    &&& post.stopped == pre.stopped
    &&& if pre.stopped {
        &&& post.animation@ == pre.animation@
        &&& post.timer@ == pre.timer@
        &&& post.target == pre.target
    } else {
        let m = pre.step(delta_micros);
        &&& post.animation@ == m.animation
        &&& post.timer@ == m.timer
        &&& post.target == m.target
    }
}

/// The notifications one driver pass over `entries` emits, in order: each
/// entry's notifications in turn, processing entries front to back.
pub open spec fn tick_events(entries: Seq<AnimationEntry>, delta_micros: u64) -> Seq<
    SpriteAnimationEvent,
>
    decreases entries.len(),
{
    if entries.len() == 0 {
        Seq::empty()
    } else {
        tick_events(entries.drop_last(), delta_micros) + entries.last().step_events(delta_micros)
    }
}

/// The removal requests one driver pass over `entries` enqueues, in order.
pub open spec fn despawn_requests(entries: Seq<AnimationEntry>, delta_micros: u64) -> Seq<u64>
    decreases entries.len(),
{
    if entries.len() == 0 {
        Seq::empty()
    } else {
        let prior = despawn_requests(entries.drop_last(), delta_micros);
        if entries.last().step_despawns(delta_micros) {
            prior.push(entries.last().entity)
        } else {
            prior
        }
    }
}

/// What one driver pass produced besides the mutated entries: the removal
/// requests for the deferred apply phase, and the notifications in emission
/// order.
pub struct TickOutput {
    pub despawn_queue: Vec<u64>,
    pub events: Vec<SpriteAnimationEvent>,
}

/// One driver pass: processes every entry in order within the tick, stepping
/// each per [`entity_step`] (stopped entries are skipped), and collects the
/// removal requests and notifications. No entry is removed here; removal is
/// deferred to [`apply_despawns`].
pub fn animate_sprite(entries: &mut Vec<AnimationEntry>, delta_micros: u64) -> (output: TickOutput)
    requires
        forall|i: int|
            0 <= i < old(entries)@.len() ==> (#[trigger] old(entries)@[i]).wf(),
    ensures
        final(entries)@.len() == old(entries)@.len(),
        forall|i: int|
            0 <= i < old(entries)@.len() ==> stepped_entry(
                old(entries)@[i],
                #[trigger] final(entries)@[i],
                delta_micros,
            ),
        forall|i: int| 0 <= i < final(entries)@.len() ==> (#[trigger] final(entries)@[i]).wf(),
        output.events@ == tick_events(old(entries)@, delta_micros),
        output.despawn_queue@ == despawn_requests(old(entries)@, delta_micros),
{
    let ghost initial = entries@;
    let mut events: Vec<SpriteAnimationEvent> = Vec::new();
    let mut despawn_queue: Vec<u64> = Vec::new();
    let count = entries.len();
    let mut i: usize = 0;
    while i < count
        invariant
            i <= count,
            count == entries@.len(),
            initial.len() == count,
            forall|j: int| i <= j < count ==> entries@[j] == initial[j],
            forall|j: int|
                0 <= j < i ==> stepped_entry(initial[j], #[trigger] entries@[j], delta_micros),
            forall|j: int| 0 <= j < count ==> (#[trigger] entries@[j]).wf(),
            events@ == tick_events(initial.take(i as int), delta_micros),
            despawn_queue@ == despawn_requests(initial.take(i as int), delta_micros),
        decreases count - i,
    {
        let entry = &mut entries[i];
        let mut outcome = entry.animate(delta_micros);
        let entity = entry.entity;
        events.append(&mut outcome.events);
        if outcome.despawn {
            despawn_queue.push(entity);
        }
        i = i + 1;
        proof {
            assert(initial.take(i as int).drop_last() =~= initial.take(i as int - 1));
            assert(initial.take(i as int).last() == initial[i as int - 1]);
        }
    }
    proof {
        assert(initial.take(count as int) =~= initial);
    }
    TickOutput { despawn_queue, events }
}

/// The entries that survive a batch of removal requests, in their original
/// order: exactly those whose entity is not named by the batch.
pub open spec fn surviving(entries: Seq<AnimationEntry>, removed: Seq<u64>) -> Seq<AnimationEntry>
    decreases entries.len(),
{
    if entries.len() == 0 {
        Seq::empty()
    } else {
        let prior = surviving(entries.drop_last(), removed);
        if removed.contains(entries.last().entity) {
            prior
        } else {
            prior.push(entries.last())
        }
    }
}

/// Whether `ids` holds `id`.
fn contains_id(ids: &Vec<u64>, id: u64) -> (found: bool)
    ensures
        found == ids@.contains(id),
{
    let count = ids.len();
    let mut i: usize = 0;
    let mut found = false;
    while i < count
        invariant
            i <= count,
            count == ids@.len(),
            found == (exists|j: int| 0 <= j < i && ids@[j] == id),
        decreases count - i,
    {
        if ids[i] == id {
            found = true;
        }
        i = i + 1;
    }
    found
}

/// The deferred removal phase: executes a driver pass's removal requests,
/// dropping each named entry — playback state and timer leave together. A
/// request naming an entity that no longer exists is silently ignored, so
/// applying a batch is idempotent.
pub fn apply_despawns(entries: Vec<AnimationEntry>, despawn_queue: &Vec<u64>) -> (kept: Vec<
    AnimationEntry,
>)
    ensures
        kept@ == surviving(entries@, despawn_queue@),
{
    let ghost initial = entries@;
    let mut remaining = entries;
    let total = remaining.len();
    proof {
        assert(initial.len() == total);
    }
    let mut kept: Vec<AnimationEntry> = Vec::new();
    let mut i: usize = 0;
    while remaining.len() > 0
        invariant
            initial.len() <= usize::MAX,
            i + remaining@.len() == initial.len(),
            remaining@ == initial.skip(i as int),
            kept@ == surviving(initial.take(i as int), despawn_queue@),
        decreases remaining@.len(),
    {
        let entry = remaining.remove(0);
        proof {
            assert(initial.skip(i as int).remove(0) =~= initial.skip(i as int + 1));
            assert(entry == initial[i as int]);
        }
        if !contains_id(despawn_queue, entry.entity) {
            kept.push(entry);
        }
        i = i + 1;
        proof {
            assert(initial.take(i as int).drop_last() =~= initial.take(i as int - 1));
            assert(initial.take(i as int).last() == initial[i as int - 1]);
        }
    }
    proof {
        assert(initial.take(initial.len() as int) =~= initial);
    }
    kept
}

/// The attachment hook: entering the animation capability creates the
/// playback state and its frame timer together, seeds the current frame per
/// the stored direction — the sequence's first frame forward, its last
/// backward — starts the timer on that frame's duration, and synchronously
/// writes the seed frame's index and the flip flag to the render target, all
/// in the same simulation step and with no notification emitted.
pub fn attach(entity: u64, animation: SpriteAnimation, events_enabled: bool) -> (entry:
    AnimationEntry)
    requires
        animation@.wf(),
        animation@ == animation@.rewound(),
    ensures
        entry.wf(),
        !entry.stopped,
        entry.entity == entity,
        entry.events_enabled == events_enabled,
        entry.animation@ == animation@.stepped(),
        entry.animation@.current_frame matches Some((_, frame)) && frame == animation@.seed_frame(),
        entry.timer@ == TimerModel::fresh(animation@.seed_frame().duration_micros),
        entry.target == (RenderTarget {
            index: animation@.seed_frame().index,
            flip_x: animation@.flip_x,
        }),
{
    let timer = animation.seed_timer();
    let flip_x = animation.flip_x();
    let mut animation = animation;
    let target = match animation.step() {
        Some((_, frame)) => RenderTarget { index: frame.index(), flip_x },
        None => {
            proof {
                assert(false);
            }
            RenderTarget { index: 0, flip_x }
        },
    };
    AnimationEntry { entity, animation, timer, target, events_enabled, stopped: false }
}

/// The detachment hook: removing the animation capability drops the entry,
/// destroying the playback state and its timer together; entities not named
/// are untouched.
pub fn detach(entries: Vec<AnimationEntry>, entity: u64) -> (kept: Vec<AnimationEntry>)
    ensures
        kept@ == surviving(entries@, seq![entity]),
{
    let mut removed: Vec<u64> = Vec::new();
    removed.push(entity);
    proof {
        assert(removed@ =~= seq![entity]);
    }
    apply_despawns(entries, &removed)
}

/// Law: attaching over a fresh cursor seeds the boundary frame of the stored
/// direction — position zero forward, the last position backward — and that
/// frame is the seed frame whose index and duration [`attach`] writes to the
/// render target and the timer.
pub proof fn lemma_attach_seeds_boundary(animation: AnimationModel)
    requires
        animation.wf(),
        animation == animation.rewound(),
    ensures
        animation.stepped().current_frame matches Some((position, frame)) && frame
            == animation.seed_frame() && (animation.direction is Forward ==> position == 0) && (
        animation.direction is Backward ==> position == animation.frames.len() - 1),
{
}

/// Law: on the tick that detects terminal state with ping-pong set (and
/// despawn-on-finish clear), the driver reverses the stored direction and
/// rewinds the cursor, renders nothing, emits nothing, requests no despawn
/// and leaves the timer alone.
pub proof fn lemma_ping_pong_turns_silently(
    entity: u64,
    animation: AnimationModel,
    timer: TimerModel,
    target: RenderTarget,
    delta_micros: u64,
    events_enabled: bool,
)
    requires
        animation.wf(),
        animation.is_terminal(),
        animation.ping_pong,
        !animation.despawn_on_finish,
    ensures
        ({
            let m = entity_step(entity, animation, timer, target, delta_micros, events_enabled);
            &&& m.animation == (AnimationModel {
                direction: animation.direction.spec_reverse(),
                ..animation
            }).rewound()
            &&& m.timer == timer
            &&& m.target == target
            &&& !m.despawn
            &&& m.events == Seq::<SpriteAnimationEvent>::empty()
        }),
{
}

/// Law: on the tick that first detects terminal state with despawn-on-finish
/// set, the driver requests exactly one despawn and does nothing else for the
/// entity — no timer tick, no render, no notification, no reversal and no
/// rewind, even when ping-pong is also set: despawn wins.
pub proof fn lemma_despawn_wins_on_terminal(
    entity: u64,
    animation: AnimationModel,
    timer: TimerModel,
    target: RenderTarget,
    delta_micros: u64,
    events_enabled: bool,
)
    requires
        animation.wf(),
        animation.is_terminal(),
        animation.despawn_on_finish,
    ensures
        ({
            let m = entity_step(entity, animation, timer, target, delta_micros, events_enabled);
            &&& m.despawn
            &&& m.animation == animation
            &&& m.timer == timer
            &&& m.target == target
            &&& m.events == Seq::<SpriteAnimationEvent>::empty()
        }),
{
}

/// How many times `ids` holds `id`.
pub open spec fn occurrence_count(ids: Seq<u64>, id: u64) -> nat
    decreases ids.len(),
{
    if ids.len() == 0 {
        0
    } else {
        occurrence_count(ids.drop_last(), id) + if ids.last() == id {
            1nat
        } else {
            0nat
        }
    }
}

/// No driver pass requests the removal of an entity that none of its entries
/// carries.
proof fn lemma_no_request_without_entry(entries: Seq<AnimationEntry>, delta_micros: u64, id: u64)
    requires
        forall|j: int| 0 <= j < entries.len() ==> (#[trigger] entries[j]).entity != id,
    ensures
        occurrence_count(despawn_requests(entries, delta_micros), id) == 0,
    decreases entries.len(),
{
    if entries.len() > 0 {
        lemma_no_request_without_entry(entries.drop_last(), delta_micros, id);
        let prior = despawn_requests(entries.drop_last(), delta_micros);
        if entries.last().step_despawns(delta_micros) {
            assert(prior.push(entries.last().entity).drop_last() =~= prior);
        }
    }
}

/// Law: over entries with pairwise distinct entities, an entry whose step
/// requests a despawn has its entity enqueued exactly once by the driver
/// pass.
pub proof fn lemma_despawn_requested_exactly_once(
    entries: Seq<AnimationEntry>,
    delta_micros: u64,
    i: int,
)
    requires
        0 <= i < entries.len(),
        entries[i].step_despawns(delta_micros),
        forall|j: int, k: int|
            0 <= j < k < entries.len() ==> (#[trigger] entries[j]).entity != (
            #[trigger] entries[k]).entity,
    ensures
        occurrence_count(despawn_requests(entries, delta_micros), entries[i].entity) == 1,
    decreases entries.len(),
{
    let id = entries[i].entity;
    let prior = despawn_requests(entries.drop_last(), delta_micros);
    if i == entries.len() - 1 {
        lemma_no_request_without_entry(entries.drop_last(), delta_micros, id);
        assert(prior.push(id).drop_last() =~= prior);
    } else {
        lemma_despawn_requested_exactly_once(entries.drop_last(), delta_micros, i);
        if entries.last().step_despawns(delta_micros) {
            assert(prior.push(entries.last().entity).drop_last() =~= prior);
        }
    }
}

/// Law: once a removal batch names an entity, no surviving entry carries it:
/// the deferred apply phase ends all processing for that entity.
pub proof fn lemma_removed_entity_gone(entries: Seq<AnimationEntry>, removed: Seq<u64>, id: u64)
    requires
        removed.contains(id),
    ensures
        forall|j: int|
            0 <= j < surviving(entries, removed).len() ==> (#[trigger] surviving(entries, removed)[j]).entity
                != id,
    decreases entries.len(),
{
    if entries.len() > 0 {
        lemma_removed_entity_gone(entries.drop_last(), removed, id);
        let prior = surviving(entries.drop_last(), removed);
        let all = surviving(entries, removed);
        assert forall|j: int| 0 <= j < all.len() implies (#[trigger] all[j]).entity != id by {
            if j < prior.len() {
                assert(all[j] == prior[j]);
            }
        }
    }
}

/// The structural binding between a playback state and its timer: whenever a
/// frame is current, the timer counts down exactly that frame's duration.
pub open spec fn timer_bound_to_current_frame(animation: AnimationModel, timer: TimerModel) -> bool {
    match animation.current_frame {
        Some((_, frame)) => timer.duration_micros == frame.duration_micros,
        None => true,
    }
}

/// Law: the driver never lets the cursor and the timer drift apart — if the
/// timer's interval equals the current frame's duration before a step, it
/// does so after the step too, since every successful advance restarts the
/// timer on the newly produced frame's duration and a rewind clears the
/// current frame.
pub proof fn lemma_timer_stays_bound_to_current_frame(
    entity: u64,
    animation: AnimationModel,
    timer: TimerModel,
    target: RenderTarget,
    delta_micros: u64,
    events_enabled: bool,
)
    requires
        animation.wf(),
        timer.wf(),
        timer_bound_to_current_frame(animation, timer),
    ensures
        ({
            let m = entity_step(entity, animation, timer, target, delta_micros, events_enabled);
            timer_bound_to_current_frame(m.animation, m.timer)
        }),
{
}

/// Law: executing the same removal batch twice leaves what one execution
/// leaves — a request naming an entity that no longer exists is silently
/// ignored.
pub proof fn lemma_apply_despawns_idempotent(entries: Seq<AnimationEntry>, removed: Seq<u64>)
    ensures
        surviving(surviving(entries, removed), removed) == surviving(entries, removed),
    decreases entries.len(),
{
    if entries.len() > 0 {
        lemma_apply_despawns_idempotent(entries.drop_last(), removed);
        let prior = surviving(entries.drop_last(), removed);
        let last = entries.last();
        if !removed.contains(last.entity) {
            assert(prior.push(last).drop_last() =~= prior);
        }
    }
}

/// Law: one driver step emits at most two notifications, and whenever an
/// end-of-animation notification is emitted it comes second, strictly after
/// the frame-change notification for the same tick.
pub proof fn lemma_frame_change_precedes_end(
    entity: u64,
    animation: AnimationModel,
    timer: TimerModel,
    target: RenderTarget,
    delta_micros: u64,
    events_enabled: bool,
)
    requires
        animation.wf(),
        timer.wf(),
    ensures
        ({
            let events = entity_step(
                entity,
                animation,
                timer,
                target,
                delta_micros,
                events_enabled,
            ).events;
            &&& events.len() <= 2
            &&& forall|k: int|
                0 <= k < events.len() && (#[trigger] events[k]) is End ==> k == 1 && events[0] is FrameChange
        }),
{
}

} // verus!
