//! The step grid, the transport state around it, and the playback engine.
//!
//! A [`Sequencer`] owns a [`Grid`] and traverses it in row-major order: step
//! `p` is the cell in column `p mod width` of row `p div width`. Playback
//! does not read the grid itself but the snapshot that
//! [`Sequencer::update_grid_state`] publishes, so an edit is heard from the
//! moment it is published.
//!
//! [`timing`] holds the tempo arithmetic, [`playback`] the engine that
//! announces the steps, and [`pacing`] the bounds on how many steps a run
//! of the engine announces.

pub mod grid;
pub mod pacing;
pub mod playback;
pub mod timing;

pub use grid::{Grid, GridModel};

use timing::{
    advance_by, clamp_note, clamp_tempo, clamped_note, clamped_tempo, lemma_advance_by,
    lemma_advance_cycle, next_step, step_duration_ms, step_millis, DEFAULT_MILLI_BPM,
    DEFAULT_NOTE, MAX_MILLI_BPM, MAX_NOTE, MIN_MILLI_BPM,
};
use vstd::arithmetic::div_mod::{lemma_mod_bound, lemma_mod_pos_bound};
use vstd::prelude::*;

verus! {

/// The mathematical content of a [`Sequencer`].
pub struct SequencerModel {
    /// The grid being edited.
    pub grid: GridModel,
    /// The number of steps in a row of the traversal, fixed at construction.
    pub width: nat,
    /// The number of rows of the traversal, fixed at construction.
    pub height: nat,
    /// The flags last published for playback, in row-major order.
    pub snapshot: Seq<bool>,
    /// The step the cursor is on.
    pub position: nat,
    /// The tempo, in thousandths of a beat per minute.
    pub milli_bpm: nat,
    /// The selected note number.
    pub note: nat,
    /// The advisory play flag.
    pub playing: bool,
}

impl SequencerModel {
    /// The number of steps of one pass of the cursor.
    pub open spec fn step_count(self) -> nat {
        self.width * self.height
    }

    /// What holds of every sequencer: the traversal is not empty, the cursor
    /// is on one of its steps, the snapshot has a flag for each step, and
    /// tempo and note lie in their ranges.
    pub open spec fn wf(self) -> bool {
        &&& self.width >= 1
        &&& self.height >= 1
        &&& self.position < self.step_count()
        &&& self.snapshot.len() == self.step_count()
        &&& MIN_MILLI_BPM <= self.milli_bpm <= MAX_MILLI_BPM
        &&& self.note <= MAX_NOTE
    }

    /// The grid has the dimensions that the sequencer was made with; no
    /// operation of [`Grid`] changes them.
    pub open spec fn grid_fits(self) -> bool {
        self.grid.width == self.width && self.grid.height == self.height
    }

    /// The state of a new sequencer: every step enabled and published, the
    /// cursor on step 0, 120 beats per minute, middle C, not playing.
    pub open spec fn initial(width: nat, height: nat) -> SequencerModel {
        SequencerModel {
            grid: GridModel::uniform(width, height, true),
            width,
            height,
            snapshot: Seq::new(width * height, |p: int| true),
            position: 0,
            milli_bpm: DEFAULT_MILLI_BPM as nat,
            note: DEFAULT_NOTE as nat,
            playing: false,
        }
    }

    /// The column of step `p`: `p mod width`.
    pub open spec fn column_of(self, p: int) -> int {
        p % (self.width as int)
    }

    /// The row of step `p`: `p div width`.
    pub open spec fn row_of(self, p: int) -> int {
        p / (self.width as int)
    }

    /// The flag of step `p` in the grid as it is now: that of the cell in
    /// column `p mod width` of row `p div width`.
    pub open spec fn step_enabled(self, p: int) -> bool {
        self.grid.get(self.column_of(p), self.row_of(p))
    }

    /// The grid as it is now, flattened in row-major order.
    pub open spec fn flattened(self) -> Seq<bool> {
        Seq::new(self.step_count(), |p: int| self.step_enabled(p))
    }

    /// The state with the cursor on step `pos`, counted cyclically.
    pub open spec fn with_position(self, pos: int) -> SequencerModel {
        SequencerModel { position: (pos % (self.step_count() as int)) as nat, ..self }
    }

    /// The state with the cursor on the next step of the cycle.
    pub open spec fn advance(self) -> SequencerModel {
        SequencerModel {
            position: next_step(self.position as int, self.step_count() as int) as nat,
            ..self
        }
    }

    /// The state after `n` advances of the cursor.
    pub open spec fn advance_by(self, n: nat) -> SequencerModel
        decreases n,
    {
        if n == 0 {
            self
        } else {
            self.advance_by((n - 1) as nat).advance()
        }
    }

    /// The state with the tempo set to `milli_bpm`, clamped to its range.
    pub open spec fn with_tempo(self, milli_bpm: int) -> SequencerModel {
        SequencerModel { milli_bpm: clamp_tempo(milli_bpm) as nat, ..self }
    }

    /// The state with the note set to `note`, clamped to its range.
    pub open spec fn with_note(self, note: int) -> SequencerModel {
        SequencerModel { note: clamp_note(note) as nat, ..self }
    }

    /// The state with the play flag set to `playing`.
    pub open spec fn with_playing(self, playing: bool) -> SequencerModel {
        SequencerModel { playing, ..self }
    }

    /// The state with the grid as it is now published as the snapshot.
    pub open spec fn publish(self) -> SequencerModel {
        SequencerModel { snapshot: self.flattened(), ..self }
    }
}

/// Where the grid has the sequencer's dimensions, what the sequencer
/// publishes is the grid's own row-major flattening, and the step under the
/// cursor is a cell of the grid.
pub proof fn lemma_flattened_is_grid_flatten(s: SequencerModel)
    requires
        s.wf(),
        s.grid_fits(),
    ensures
        s.flattened() == s.grid.flatten(),
        s.grid.in_bounds(s.column_of(s.position as int), s.row_of(s.position as int)),
        s.step_enabled(s.position as int) == s.grid.flatten()[s.position as int],
{
    grid::lemma_step_to_cell(s.grid, s.position as int);
}

/// A new sequencer is well formed, its grid fits, and its snapshot is its
/// grid flattened.
pub proof fn lemma_initial(width: nat, height: nat)
    requires
        width >= 1,
        height >= 1,
    ensures
        SequencerModel::initial(width, height).wf(),
        SequencerModel::initial(width, height).grid_fits(),
        SequencerModel::initial(width, height).grid.wf(),
        SequencerModel::initial(width, height).snapshot == SequencerModel::initial(
            width,
            height,
        ).flattened(),
{
    let s = SequencerModel::initial(width, height);
    assert(s.step_count() >= 1) by (nonlinear_arith)
        requires
            s.step_count() == width * height,
            width >= 1,
            height >= 1,
    ;
    assert forall|p: int| 0 <= p < s.step_count() implies s.step_enabled(p) by {
        grid::lemma_step_to_cell(s.grid, p);
    }
}

/// Advancing the cursor once for every step brings the sequencer back to
/// the state it started from: the cursor is on its starting step again, and
/// nothing else has changed.
pub proof fn lemma_advance_returns_to_start(s: SequencerModel)
    requires
        s.wf(),
    ensures
        s.advance_by(s.step_count()) == s,
{
    lemma_advance_by_moves_cursor(s, s.step_count());
    lemma_advance_cycle(s.position as int, s.step_count() as int);
}

/// Advancing `n` times moves the cursor as [`advance_by`] says and changes
/// nothing else.
///
/// [`advance_by`]: timing::advance_by
pub proof fn lemma_advance_by_moves_cursor(s: SequencerModel, n: nat)
    requires
        s.wf(),
    ensures
        s.advance_by(n) == (SequencerModel {
            position: advance_by(s.position as int, s.step_count() as int, n) as nat,
            ..s
        }),
        s.advance_by(n).wf(),
    decreases n,
{
    lemma_advance_by(s.position as int, s.step_count() as int, n);
    if n > 0 {
        lemma_advance_by_moves_cursor(s, (n - 1) as nat);
    }
}

/// No operation on the transport breaks what holds of every sequencer:
/// whatever position, tempo or note is asked for, the cursor stays on a
/// step, the tempo between 40 and 240 beats per minute, the note between 0
/// and 127, and the snapshot as long as the cycle.
pub proof fn lemma_operations_keep_wf(s: SequencerModel, pos: int, milli_bpm: int, note: int)
    requires
        s.wf(),
        0 <= note,
    ensures
        s.with_position(pos).wf(),
        s.advance().wf(),
        s.with_tempo(milli_bpm).wf(),
        s.with_note(note).wf(),
        s.with_playing(!s.playing).wf(),
        s.publish().wf(),
{
    lemma_mod_bound(pos, s.step_count() as int);
    lemma_mod_pos_bound(s.position as int + 1, s.step_count() as int);
}

/// Publishing copies the grid as it is at that moment: the snapshot then
/// holds, at the index of every step, the flag of that step's cell; and
/// publishing again without an edit in between changes nothing.
pub proof fn lemma_publish_copies_grid(s: SequencerModel, p: int)
    requires
        0 <= p < s.step_count(),
    ensures
        s.publish().snapshot.len() == s.step_count(),
        s.publish().snapshot[p] == s.grid.get(s.column_of(p), s.row_of(p)),
        s.publish().publish() == s.publish(),
{
    assert(s.publish().flattened() =~= s.flattened());
}

/// The transport state of a sequencer, kept apart from the grid so that
/// the grid can be lent out for editing.
struct Transport {
    width: usize,
    height: usize,
    snapshot: Vec<bool>,
    position: usize,
    milli_bpm: u32,
    note: u8,
    playing: bool,
}

impl Transport {
    #[verifier::type_invariant]
    spec fn valid(&self) -> bool {
        &&& self.width >= 1
        &&& self.height >= 1
        &&& self.width * self.height <= usize::MAX
        &&& self.position < self.width * self.height
        &&& self.snapshot@.len() == self.width * self.height
        &&& MIN_MILLI_BPM <= self.milli_bpm <= MAX_MILLI_BPM
        &&& self.note <= MAX_NOTE
    }
}

/// A grid with its transport state: the cursor, the tempo, the selected
/// note, the play flag, and the snapshot of the grid that playback reads.
pub struct Sequencer {
    grid: Grid,
    transport: Transport,
}

impl View for Sequencer {
    type V = SequencerModel;

    closed spec fn view(&self) -> SequencerModel {
        SequencerModel {
            grid: self.grid@,
            width: self.transport.width as nat,
            height: self.transport.height as nat,
            snapshot: self.transport.snapshot@,
            position: self.transport.position as nat,
            milli_bpm: self.transport.milli_bpm as nat,
            note: self.transport.note as nat,
            playing: self.transport.playing,
        }
    }
}

impl Sequencer {
    /// A sequencer over a new `width` by `height` grid. The grid has at
    /// least one step, and the number of its steps fits in `usize`.
    pub fn new(width: usize, height: usize) -> (sequencer: Self)
        requires
            width >= 1,
            height >= 1,
            width * height <= usize::MAX,
        ensures
            sequencer@ == SequencerModel::initial(width as nat, height as nat),
            sequencer@.wf(),
    {
        let total = width * height;
        let mut snapshot: Vec<bool> = Vec::new();
        let mut p: usize = 0;
        while p < total
            invariant
                p <= total,
                snapshot@ == Seq::new(p as nat, |i: int| true),
            decreases total - p,
        {
            snapshot.push(true);
            p += 1;
        }
        proof {
            lemma_initial(width as nat, height as nat);
        }
        Sequencer {
            grid: Grid::new(width, height),
            transport: Transport {
                width,
                height,
                snapshot,
                position: 0,
                milli_bpm: DEFAULT_MILLI_BPM,
                note: DEFAULT_NOTE,
                playing: false,
            },
        }
    }

    /// The grid.
    pub fn grid(&self) -> (grid: &Grid)
        ensures
            grid@ == self@.grid,
    {
        &self.grid
    }

    /// The snapshot of the grid that was last published: the flags in
    /// row-major order, indexed like the cursor.
    pub fn grid_state(&self) -> (snapshot: &Vec<bool>)
        ensures
            snapshot@ == self@.snapshot,
            self@.wf(),
    {
        proof {
            use_type_invariant(&self.transport);
        }
        &self.transport.snapshot
    }

    /// The grid, for editing. The edits reach the snapshot only through
    /// [`Sequencer::update_grid_state`].
    pub fn grid_mut(&mut self) -> (grid: &mut Grid)
        ensures
            grid@ == old(self)@.grid,
            final(self)@ == (SequencerModel { grid: final(grid)@, ..old(self)@ }),
    {
        &mut self.grid
    }

    /// The step the cursor is on.
    pub fn current_position(&self) -> (position: usize)
        ensures
            position == self@.position,
            self@.wf(),
    {
        proof {
            use_type_invariant(&self.transport);
        }
        self.transport.position
    }

    /// Moves the cursor to step `pos`, counted cyclically: a `pos` past the
    /// last step wraps around.
    pub fn set_current_position(&mut self, pos: usize)
        ensures
            final(self)@ == old(self)@.with_position(pos as int),
            final(self)@.wf(),
    {
        proof {
            use_type_invariant(&self.transport);
        }
        let total = self.transport.width * self.transport.height;
        proof {
            lemma_mod_pos_bound(pos as int, total as int);
        }
        self.transport.position = pos % total;
    }

    /// Moves the cursor to the next step, wrapping from the last step to
    /// step 0, and returns the step it is then on.
    pub fn advance_position(&mut self) -> (position: usize)
        ensures
            final(self)@ == old(self)@.advance(),
            position == final(self)@.position,
            final(self)@.wf(),
    {
        proof {
            use_type_invariant(&self.transport);
        }
        let total = self.transport.width * self.transport.height;
        proof {
            lemma_mod_pos_bound(self.transport.position + 1, total as int);
        }
        self.transport.position = (self.transport.position + 1) % total;
        self.transport.position
    }

    /// The tempo, in thousandths of a beat per minute.
    pub fn bpm(&self) -> (milli_bpm: u32)
        ensures
            milli_bpm == self@.milli_bpm,
            self@.wf(),
    {
        proof {
            use_type_invariant(&self.transport);
        }
        self.transport.milli_bpm
    }

    /// Sets the tempo, given in thousandths of a beat per minute, after
    /// clamping it to the range from 40 to 240 beats per minute.
    pub fn set_bpm(&mut self, milli_bpm: u32)
        ensures
            final(self)@ == old(self)@.with_tempo(milli_bpm as int),
            MIN_MILLI_BPM <= final(self)@.milli_bpm <= MAX_MILLI_BPM,
            final(self)@.wf(),
    {
        proof {
            use_type_invariant(&self.transport);
        }
        self.transport.milli_bpm = clamped_tempo(milli_bpm);
    }

    /// The selected note number.
    pub fn note(&self) -> (note: u8)
        ensures
            note == self@.note,
            self@.wf(),
    {
        proof {
            use_type_invariant(&self.transport);
        }
        self.transport.note
    }

    /// Selects a note, after clamping its number to the range from 0 to 127.
    pub fn set_note(&mut self, note: u8)
        ensures
            final(self)@ == old(self)@.with_note(note as int),
            final(self)@.note <= MAX_NOTE,
            final(self)@.wf(),
    {
        proof {
            use_type_invariant(&self.transport);
        }
        self.transport.note = clamped_note(note);
    }

    /// The play flag.
    pub fn is_playing(&self) -> (playing: bool)
        ensures
            playing == self@.playing,
            self@.wf(),
    {
        proof {
            use_type_invariant(&self.transport);
        }
        self.transport.playing
    }

    /// Raises the play flag.
    pub fn start(&mut self)
        ensures
            final(self)@ == old(self)@.with_playing(true),
            final(self)@.wf(),
    {
        proof {
            use_type_invariant(&self.transport);
        }
        self.transport.playing = true;
    }

    /// Lowers the play flag.
    pub fn stop(&mut self)
        ensures
            final(self)@ == old(self)@.with_playing(false),
            final(self)@.wf(),
    {
        proof {
            use_type_invariant(&self.transport);
        }
        self.transport.playing = false;
    }

    /// Inverts the play flag.
    pub fn toggle_play(&mut self)
        ensures
            final(self)@ == old(self)@.with_playing(!old(self)@.playing),
            final(self)@.wf(),
    {
        proof {
            use_type_invariant(&self.transport);
        }
        self.transport.playing = !self.transport.playing;
    }

    /// Whether the step under the cursor is enabled in the grid as it is now.
    pub fn should_trigger(&self) -> (enabled: bool)
        ensures
            enabled == self@.step_enabled(self@.position as int),
            self@.wf(),
    {
        proof {
            use_type_invariant(&self.transport);
        }
        let x = self.transport.position % self.transport.width;
        let y = self.transport.position / self.transport.width;
        self.grid.get(x, y)
    }

    /// The length of one step at the current tempo, in milliseconds, rounded
    /// down to a whole millisecond.
    pub fn step_duration_ms(&self) -> (ms: u64)
        ensures
            ms == step_duration_ms(self@.milli_bpm as int),
            62 <= ms <= 375,
    {
        proof {
            use_type_invariant(&self.transport);
            timing::lemma_step_duration_bounds(self.transport.milli_bpm as int);
        }
        step_millis(self.transport.milli_bpm)
    }

    /// Publishes the grid: the snapshot becomes the grid as it is now,
    /// flattened in row-major order.
    pub fn update_grid_state(&mut self)
        ensures
            final(self)@ == old(self)@.publish(),
            final(self)@.wf(),
    {
        proof {
            use_type_invariant(&self.transport);
        }
        let width = self.transport.width;
        let total = width * self.transport.height;
        let mut snapshot: Vec<bool> = Vec::new();
        let mut p: usize = 0;
        while p < total
            invariant
                p <= total,
                width >= 1,
                width == self@.width,
                snapshot@.len() == p,
                forall|i: int| 0 <= i < p ==> #[trigger] snapshot@[i] == self@.step_enabled(i),
            decreases total - p,
        {
            let enabled = self.grid.get(p % width, p / width);
            snapshot.push(enabled);
            p += 1;
        }
        assert(snapshot@ =~= self@.flattened());
        self.transport.snapshot = snapshot;
    }
}

} // verus!
