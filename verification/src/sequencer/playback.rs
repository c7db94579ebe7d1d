//! The playback engine: the timing state machine that turns clock readings
//! and grid snapshots into an ordered queue of events.
//!
//! The engine holds no clock and starts no thread. Whoever drives it reads a
//! monotonic clock, hands the reading and the current snapshot to
//! [`PlaybackEngine::tick`] at a fine, regular pace, carries out what the
//! returned [`TickOutcome`] asks for, and reports a note's release with
//! [`PlaybackEngine::note_off`]. Times are microseconds on the driver's clock.

use super::grid::{lemma_cell_to_step, lemma_get_after_set};
use super::timing::{
    advance_by, lemma_advance_by, lemma_advance_cycle, lemma_step_duration_positive, next_step,
    note_duration_us, step_duration_us, step_micros, MAX_NOTE, NOTE_ON_VELOCITY,
};
use super::{lemma_flattened_is_grid_flatten, SequencerModel};
use vstd::arithmetic::div_mod::lemma_mod_pos_bound;
use vstd::prelude::*;

verus! {

/// What playback tells its consumers.
#[derive(Debug, Clone, Copy, PartialEq, Eq)]
pub enum PlaybackEvent {
    /// The cursor has reached the step of this index.
    StepAdvanced(usize),
    /// A step fired: note number, then velocity.
    NoteOn(u8, u8),
    /// The note of this number should stop sounding.
    NoteOff(u8),
}

/// What one tick of the timing loop decided.
#[derive(Debug, Clone, Copy, PartialEq, Eq)]
pub enum TickOutcome {
    /// The engine is stopped: the timing loop ends.
    Halted,
    /// The engine is running and the next step is not due yet.
    Waiting,
    /// The cursor moved past a step that stays silent.
    Advanced,
    /// The cursor moved past a step that fired: `note` is to be released,
    /// by [`PlaybackEngine::note_off`], once `release_after_us` have passed.
    Triggered { note: u8, release_after_us: u64 },
}

/// Whether `event` carries only note numbers and velocities up to 127.
pub open spec fn event_in_range(event: PlaybackEvent) -> bool {
    match event {
        PlaybackEvent::StepAdvanced(_) => true,
        PlaybackEvent::NoteOn(note, velocity) => note <= MAX_NOTE && velocity <= MAX_NOTE,
        PlaybackEvent::NoteOff(note) => note <= MAX_NOTE,
    }
}

/// The mathematical content of a [`PlaybackEngine`].
pub struct EngineModel {
    /// Whether the engine is running.
    pub running: bool,
    /// The events that no consumer has taken yet, oldest first.
    pub queue: Seq<PlaybackEvent>,
    /// The length of a step of the current run.
    pub step_us: nat,
    /// How long a note of the current run sounds.
    pub note_us: nat,
    /// The number of steps of one pass of the current run.
    pub steps: nat,
    /// The step that the next advance announces.
    pub cursor: nat,
    /// The clock reading at the last advance, or at the start of the run.
    pub last_step_us: nat,
    /// The note that the current run plays.
    pub note: u8,
}

impl EngineModel {
    /// The state of a new engine: stopped, with nothing queued.
    pub open spec fn idle() -> EngineModel {
        EngineModel {
            running: false,
            queue: Seq::empty(),
            step_us: 0,
            note_us: 0,
            steps: 0,
            cursor: 0,
            last_step_us: 0,
            note: 0,
        }
    }

    /// What holds of every engine: while it runs, the cursor is on a step.
    pub open spec fn wf(self) -> bool {
        self.running ==> self.cursor < self.steps
    }

    /// The note of the run and every queued event are in the range of note
    /// numbers and velocities.
    pub open spec fn in_range(self) -> bool {
        &&& self.note <= MAX_NOTE
        &&& forall|i: int| 0 <= i < self.queue.len() ==> event_in_range(#[trigger] self.queue[i])
    }

    /// The state after a request to start at clock reading `now`: a running
    /// engine stays as it is; a stopped one begins a run at step 0 with the
    /// step length of the tempo, notes of half that length, and whatever was
    /// queued still queued.
    pub open spec fn start(
        self,
        milli_bpm: int,
        width: int,
        height: int,
        note: u8,
        now: int,
    ) -> EngineModel {
        if self.running {
            self
        } else {
            EngineModel {
                running: true,
                queue: self.queue,
                step_us: step_duration_us(milli_bpm) as nat,
                note_us: note_duration_us(milli_bpm) as nat,
                steps: (width * height) as nat,
                cursor: 0,
                last_step_us: now as nat,
                note,
            }
        }
    }

    /// The state after a request to stop.
    pub open spec fn stop(self) -> EngineModel {
        EngineModel { running: false, ..self }
    }

    /// The time from the last advance to clock reading `now`; a reading
    /// that lies before the last advance counts as no time at all.
    pub open spec fn elapsed(self, now: int) -> int {
        if now >= self.last_step_us {
            now - self.last_step_us
        } else {
            0
        }
    }

    /// Whether a step is due at clock reading `now`: the engine runs and a
    /// full step length has passed since the last advance.
    pub open spec fn due(self, now: int) -> bool {
        self.running && self.elapsed(now) >= self.step_us
    }

    /// Whether the step under the cursor is enabled in `snapshot`; a step
    /// that the snapshot has no flag for is not.
    pub open spec fn fires(self, snapshot: Seq<bool>) -> bool {
        self.cursor < snapshot.len() && snapshot[self.cursor as int]
    }

    /// The events of one advance, in the order they are queued: the step
    /// first, then its note if the step fires.
    pub open spec fn step_events(self, snapshot: Seq<bool>) -> Seq<PlaybackEvent> {
        if self.fires(snapshot) {
            seq![
                PlaybackEvent::StepAdvanced(self.cursor as usize),
                PlaybackEvent::NoteOn(self.note, NOTE_ON_VELOCITY),
            ]
        } else {
            seq![PlaybackEvent::StepAdvanced(self.cursor as usize)]
        }
    }

    /// The state after a tick at clock reading `now` with `snapshot` as the
    /// published grid: nothing changes unless a step is due; if one is, its
    /// events join the queue, the cursor moves to the next step of the
    /// cycle, and `now` becomes the time of the last advance.
    pub open spec fn tick(self, now: int, snapshot: Seq<bool>) -> EngineModel {
        if self.due(now) {
            EngineModel {
                queue: self.queue + self.step_events(snapshot),
                cursor: next_step(self.cursor as int, self.steps as int) as nat,
                last_step_us: now as nat,
                ..self
            }
        } else {
            self
        }
    }

    /// What a tick at clock reading `now` asks of the driver.
    pub open spec fn outcome(self, now: int, snapshot: Seq<bool>) -> TickOutcome {
        if !self.running {
            TickOutcome::Halted
        } else if !self.due(now) {
            TickOutcome::Waiting
        } else if self.fires(snapshot) {
            TickOutcome::Triggered { note: self.note, release_after_us: self.note_us as u64 }
        } else {
            TickOutcome::Advanced
        }
    }

    /// The state after the release of `note` was reported.
    pub open spec fn note_off(self, note: u8) -> EngineModel {
        EngineModel { queue: self.queue.push(PlaybackEvent::NoteOff(note)), ..self }
    }

    /// The state after a consumer took the queued events.
    pub open spec fn drained(self) -> EngineModel {
        EngineModel { queue: Seq::empty(), ..self }
    }
}

/// Starting an engine that runs already changes nothing, whatever the
/// arguments; so of two starts in a row only the first one counts.
pub proof fn lemma_start_is_idempotent(
    s: EngineModel,
    milli_bpm: int,
    width: int,
    height: int,
    note: u8,
    now: int,
    again_milli_bpm: int,
    again_width: int,
    again_height: int,
    again_note: u8,
    again_now: int,
)
    ensures
        s.running ==> s.start(milli_bpm, width, height, note, now) == s,
        s.start(milli_bpm, width, height, note, now).start(
            again_milli_bpm,
            again_width,
            again_height,
            again_note,
            again_now,
        ) == s.start(milli_bpm, width, height, note, now),
{
}

/// A stopped engine is silent: a tick changes nothing, queues nothing and
/// reports that the loop has ended. Only a reported release still adds to
/// the queue, and what it adds is a `NoteOff`.
pub proof fn lemma_stopped_engine_is_silent(s: EngineModel, now: int, snapshot: Seq<bool>, note: u8)
    ensures
        !s.stop().running,
        s.stop().queue == s.queue,
        s.stop().tick(now, snapshot) == s.stop(),
        s.stop().outcome(now, snapshot) == TickOutcome::Halted,
        s.stop().note_off(note).queue == s.queue.push(PlaybackEvent::NoteOff(note)),
        !s.stop().note_off(note).running,
{
}

/// A tick only appends to the queue, and in a fixed order: nothing when no
/// step is due; else `StepAdvanced` for the step under the cursor, followed
/// at once by `NoteOn` for the run's note at velocity 100 exactly when the
/// snapshot enables that step.
pub proof fn lemma_tick_queues_in_order(s: EngineModel, now: int, snapshot: Seq<bool>)
    ensures
        s.queue.is_prefix_of(s.tick(now, snapshot).queue),
        !s.due(now) ==> s.tick(now, snapshot) == s,
        s.due(now) ==> s.tick(now, snapshot).queue[s.queue.len() as int]
            == PlaybackEvent::StepAdvanced(s.cursor as usize),
        s.due(now) && s.fires(snapshot) ==> {
            &&& s.tick(now, snapshot).queue.len() == s.queue.len() + 2
            &&& s.tick(now, snapshot).queue[s.queue.len() as int + 1] == PlaybackEvent::NoteOn(
                s.note,
                NOTE_ON_VELOCITY,
            )
        },
        s.due(now) && !s.fires(snapshot) ==> s.tick(now, snapshot).queue.len() == s.queue.len()
            + 1,
{
}

/// An engine that is started with a note number up to 127, and told of the
/// release of such notes only, never queues an event with a note number or
/// a velocity above 127.
pub proof fn lemma_events_stay_in_range(
    s: EngineModel,
    milli_bpm: int,
    width: int,
    height: int,
    note: u8,
    now: int,
    snapshot: Seq<bool>,
    released: u8,
)
    requires
        s.in_range(),
        note <= MAX_NOTE,
        released <= MAX_NOTE,
    ensures
        EngineModel::idle().in_range(),
        s.start(milli_bpm, width, height, note, now).in_range(),
        s.stop().in_range(),
        s.tick(now, snapshot).in_range(),
        s.note_off(released).in_range(),
        s.drained().in_range(),
{
}

/// After an advance at clock reading `now`, the next step is due exactly
/// from `now` plus one step length on: a tick before that changes nothing,
/// so no step is announced twice, and a tick from then on advances.
pub proof fn lemma_steps_are_spaced(s: EngineModel, now: int, snapshot: Seq<bool>, later: int)
    requires
        s.due(now),
        s.step_us >= 1,
        0 <= now,
    ensures
        s.tick(now, snapshot).due(later) <==> later >= now + s.step_us,
        later < now + s.step_us ==> s.tick(now, snapshot).tick(later, snapshot) == s.tick(
            now,
            snapshot,
        ),
{
}

/// An edit is heard once it is published, with no restart: when a cell of
/// the grid is enabled and the grid is published, the next advance over
/// that cell's step queues `StepAdvanced` for it and then `NoteOn`.
pub proof fn lemma_published_edit_is_heard(
    s: SequencerModel,
    x: int,
    y: int,
    e: EngineModel,
    now: int,
)
    requires
        s.wf(),
        s.grid.wf(),
        s.grid_fits(),
        s.grid.in_bounds(x, y),
        e.due(now),
        e.cursor == y * s.width + x,
    ensures
        ({
            let edited = SequencerModel { grid: s.grid.set(x, y, true), ..s };
            let snapshot = edited.publish().snapshot;
            &&& e.fires(snapshot)
            &&& e.tick(now, snapshot).queue == e.queue.push(
                PlaybackEvent::StepAdvanced(e.cursor as usize),
            ).push(PlaybackEvent::NoteOn(e.note, NOTE_ON_VELOCITY))
        }),
{
    let edited = SequencerModel { grid: s.grid.set(x, y, true), ..s };
    let snapshot = edited.publish().snapshot;
    lemma_get_after_set(s.grid, x, y, true, x, y);
    lemma_cell_to_step(edited.grid, x, y);
    lemma_flattened_is_grid_flatten(edited);
    assert(e.queue + e.step_events(snapshot) =~= e.queue.push(
        PlaybackEvent::StepAdvanced(e.cursor as usize),
    ).push(PlaybackEvent::NoteOn(e.note, NOTE_ON_VELOCITY)));
}

/// While the engine runs, its cursor walks the cycle of steps: an advance
/// moves it from a step of the cycle to the next one, and as many advances
/// as the cycle has steps bring it back to where it was.
pub proof fn lemma_cursor_cycles(s: EngineModel, now: int, snapshot: Seq<bool>)
    requires
        s.wf(),
        s.due(now),
    ensures
        s.tick(now, snapshot).wf(),
        s.tick(now, snapshot).cursor == advance_by(s.cursor as int, s.steps as int, 1),
        advance_by(s.cursor as int, s.steps as int, s.steps) == s.cursor,
{
    lemma_advance_by(s.cursor as int, s.steps as int, 1);
    lemma_advance_cycle(s.cursor as int, s.steps as int);
}

/// The timing state machine of playback, with its queue of events.
pub struct PlaybackEngine {
    running: bool,
    queue: Vec<PlaybackEvent>,
    step_us: u64,
    note_us: u64,
    steps: usize,
    cursor: usize,
    last_step_us: u64,
    note: u8,
}

impl View for PlaybackEngine {
    type V = EngineModel;

    closed spec fn view(&self) -> EngineModel {
        EngineModel {
            running: self.running,
            queue: self.queue@,
            step_us: self.step_us as nat,
            note_us: self.note_us as nat,
            steps: self.steps as nat,
            cursor: self.cursor as nat,
            last_step_us: self.last_step_us as nat,
            note: self.note,
        }
    }
}

impl PlaybackEngine {
    #[verifier::type_invariant]
    spec fn cursor_on_step(&self) -> bool {
        self.running ==> self.cursor < self.steps
    }

    /// A stopped engine with an empty queue.
    pub fn new() -> (engine: Self)
        ensures
            engine@ == EngineModel::idle(),
    {
        PlaybackEngine {
            running: false,
            queue: Vec::new(),
            step_us: 0,
            note_us: 0,
            steps: 0,
            cursor: 0,
            last_step_us: 0,
            note: 0,
        }
    }

    /// Starts a run at clock reading `now_us`, unless the engine is running
    /// already, in which case nothing changes. Returns whether a run began,
    /// that is, whether the caller has a timing loop to launch.
    ///
    /// The tempo is given in thousandths of a beat per minute. It is not
    /// zero, for then a step would have no length, and the grid has at least
    /// one step, for else the cursor would have no place to be.
    pub fn start(
        &mut self,
        milli_bpm: u32,
        grid_width: usize,
        grid_height: usize,
        note: u8,
        now_us: u64,
    ) -> (launched: bool)
        requires
            milli_bpm >= 1,
            grid_width >= 1,
            grid_height >= 1,
            grid_width * grid_height <= usize::MAX,
        ensures
            final(self)@ == old(self)@.start(
                milli_bpm as int,
                grid_width as int,
                grid_height as int,
                note,
                now_us as int,
            ),
            launched == !old(self)@.running,
            launched ==> final(self)@.step_us >= 1,
            final(self)@.running,
            final(self)@.wf(),
    {
        proof {
            use_type_invariant(&*self);
        }
        if self.running {
            return false;
        }
        let step_us = step_micros(milli_bpm);
        proof {
            lemma_step_duration_positive(milli_bpm as int);
        }
        let steps = grid_width * grid_height;
        assert(steps >= 1) by (nonlinear_arith)
            requires
                steps == grid_width * grid_height,
                grid_width >= 1,
                grid_height >= 1,
        ;
        let queue = self.take_queue();
        *self = PlaybackEngine {
            running: true,
            queue,
            step_us,
            note_us: step_us / 2,
            steps,
            cursor: 0,
            last_step_us: now_us,
            note,
        };
        true
    }

    /// Stops the engine: from now on a tick reports [`TickOutcome::Halted`]
    /// and queues nothing. What is queued stays queued, and a release that
    /// is reported later is still queued.
    pub fn stop(&mut self)
        ensures
            final(self)@ == old(self)@.stop(),
            !final(self)@.running,
    {
        proof {
            use_type_invariant(&*self);
        }
        self.running = false;
    }

    /// Whether the engine is running.
    pub fn is_running(&self) -> (running: bool)
        ensures
            running == self@.running,
            self@.wf(),
    {
        proof {
            use_type_invariant(self);
        }
        self.running
    }

    /// One pass of the timing loop at clock reading `now_us`, with
    /// `snapshot` as the grid published at that moment.
    ///
    /// A stopped engine does nothing. A running one advances if a full step
    /// has passed since its last advance: it queues `StepAdvanced` for the
    /// step under the cursor, then `NoteOn` at velocity 100 if `snapshot`
    /// enables that step, moves the cursor on, and takes `now_us` as the
    /// time of this advance.
    pub fn tick(&mut self, now_us: u64, snapshot: &Vec<bool>) -> (outcome: TickOutcome)
        ensures
            final(self)@ == old(self)@.tick(now_us as int, snapshot@),
            outcome == old(self)@.outcome(now_us as int, snapshot@),
            final(self)@.wf(),
    {
        proof {
            use_type_invariant(&*self);
        }
        if !self.running {
            return TickOutcome::Halted;
        }
        let elapsed: u64 = if now_us >= self.last_step_us {
            now_us - self.last_step_us
        } else {
            0
        };
        if elapsed < self.step_us {
            return TickOutcome::Waiting;
        }
        let step = self.cursor;
        let fires = step < snapshot.len() && snapshot[step];
        self.enqueue(PlaybackEvent::StepAdvanced(step));
        if fires {
            self.enqueue(PlaybackEvent::NoteOn(self.note, NOTE_ON_VELOCITY));
        }
        proof {
            lemma_mod_pos_bound(step + 1, self.steps as int);
        }
        self.cursor = (step + 1) % self.steps;
        self.last_step_us = now_us;
        assert(self.queue@ =~= old(self)@.queue + old(self)@.step_events(snapshot@));
        if fires {
            TickOutcome::Triggered { note: self.note, release_after_us: self.note_us }
        } else {
            TickOutcome::Advanced
        }
    }

    /// Queues `NoteOff` for `note`: the driver reports that the time of a
    /// triggered note is over. The engine queues it whether or not it still
    /// runs.
    pub fn note_off(&mut self, note: u8)
        ensures
            final(self)@ == old(self)@.note_off(note),
    {
        self.enqueue(PlaybackEvent::NoteOff(note));
    }

    /// Takes every queued event, oldest first, and leaves the queue empty.
    pub fn poll_events(&mut self) -> (events: Vec<PlaybackEvent>)
        ensures
            events@ == old(self)@.queue,
            final(self)@ == old(self)@.drained(),
    {
        self.take_queue()
    }

    /// Appends `event` to the queue.
    fn enqueue(&mut self, event: PlaybackEvent)
        ensures
            final(self)@ == (EngineModel { queue: old(self)@.queue.push(event), ..old(self)@ }),
    {
        let mut queue = self.take_queue();
        queue.push(event);
        proof {
            use_type_invariant(&*self);
        }
        self.queue = queue;
    }

    /// Moves the queued events out and leaves the queue empty.
    fn take_queue(&mut self) -> (queue: Vec<PlaybackEvent>)
        ensures
            queue@ == old(self)@.queue,
            final(self)@ == old(self)@.drained(),
    {
        proof {
            use_type_invariant(&*self);
        }
        let mut queue: Vec<PlaybackEvent> = Vec::new();
        std::mem::swap(&mut self.queue, &mut queue);
        queue
    }
}

impl Default for PlaybackEngine {
    /// A stopped engine with an empty queue.
    fn default() -> (engine: Self)
        ensures
            engine@ == EngineModel::idle(),
    {
        PlaybackEngine::new()
    }
}

} // verus!
