//! Tempo, step durations and the cyclic step cursor.
//!
//! A tempo is held in thousandths of a beat per minute, so that fractional
//! tempos are exact to three decimal places. Durations are whole
//! milliseconds or microseconds, rounded down.

use vstd::arithmetic::div_mod::{
    lemma_add_mod_noop, lemma_div_is_ordered_by_denominator, lemma_mod_self_0, lemma_mod_twice,
    lemma_small_mod,
};
use vstd::prelude::*;

verus! {

/// The slowest tempo a sequencer keeps: 40 beats per minute.
pub const MIN_MILLI_BPM: u32 = 40_000;

/// The fastest tempo a sequencer keeps: 240 beats per minute.
pub const MAX_MILLI_BPM: u32 = 240_000;

/// The tempo of a new sequencer: 120 beats per minute.
pub const DEFAULT_MILLI_BPM: u32 = 120_000;

/// The highest note number.
pub const MAX_NOTE: u8 = 127;

/// The note of a new sequencer: middle C.
pub const DEFAULT_NOTE: u8 = 60;

/// The velocity of every note that playback triggers.
pub const NOTE_ON_VELOCITY: u8 = 100;

/// A beat is divided into four steps (sixteenth notes).
pub const STEPS_PER_BEAT: u64 = 4;

/// `milli_bpm` brought into the range of tempos a sequencer keeps.
pub open spec fn clamp_tempo(milli_bpm: int) -> int {
    if milli_bpm < MIN_MILLI_BPM {
        MIN_MILLI_BPM as int
    } else if milli_bpm > MAX_MILLI_BPM {
        MAX_MILLI_BPM as int
    } else {
        milli_bpm
    }
}

/// `note` brought into the range of note numbers.
pub open spec fn clamp_note(note: int) -> int {
    if note > MAX_NOTE {
        MAX_NOTE as int
    } else {
        note
    }
}

/// The length of one step in milliseconds, rounded down: a minute has
/// 60000 ms and `bpm * 4` steps, and `bpm` is `milli_bpm / 1000`.
pub open spec fn step_duration_ms(milli_bpm: int) -> int {
    (60_000int * 1000) / (milli_bpm * STEPS_PER_BEAT)
}

/// The length of one step in microseconds, rounded down.
pub open spec fn step_duration_us(milli_bpm: int) -> int {
    (60_000_000int * 1000) / (milli_bpm * STEPS_PER_BEAT)
}

/// How long a triggered note sounds, in microseconds: half a step.
pub open spec fn note_duration_us(milli_bpm: int) -> int {
    step_duration_us(milli_bpm) / 2
}

/// The step after step `p` in a cycle of `steps` steps.
pub open spec fn next_step(p: int, steps: int) -> int {
    (p + 1) % steps
}

/// The step reached from step `p` by advancing `n` times.
pub open spec fn advance_by(p: int, steps: int, n: nat) -> int
    decreases n,
{
    if n == 0 {
        p
    } else {
        next_step(advance_by(p, steps, (n - 1) as nat), steps)
    }
}

/// Whatever tempo is asked for, the clamped tempo lies between 40 and 240
/// beats per minute, and a tempo in that range is kept as it is; whatever
/// note is asked for, the clamped note lies between 0 and 127, and a note
/// in that range is kept as it is.
pub proof fn lemma_clamps_land_in_range(milli_bpm: int, note: int)
    requires
        0 <= note,
    ensures
        MIN_MILLI_BPM <= clamp_tempo(milli_bpm) <= MAX_MILLI_BPM,
        MIN_MILLI_BPM <= milli_bpm <= MAX_MILLI_BPM ==> clamp_tempo(milli_bpm) == milli_bpm,
        0 <= clamp_note(note) <= MAX_NOTE,
        note <= MAX_NOTE ==> clamp_note(note) == note,
{
}

/// A faster tempo never gives a longer step, in milliseconds as in
/// microseconds.
pub proof fn lemma_step_duration_decreasing(slower: int, faster: int)
    requires
        1 <= slower <= faster,
    ensures
        step_duration_ms(faster) <= step_duration_ms(slower),
        step_duration_us(faster) <= step_duration_us(slower),
        note_duration_us(faster) <= note_duration_us(slower),
{
    lemma_div_is_ordered_by_denominator(60_000int * 1000, slower * 4, faster * 4);
    lemma_div_is_ordered_by_denominator(60_000_000int * 1000, slower * 4, faster * 4);
}

/// Over the tempos a sequencer keeps, a step lasts between 62 and 375
/// milliseconds.
pub proof fn lemma_step_duration_bounds(milli_bpm: int)
    requires
        MIN_MILLI_BPM <= milli_bpm <= MAX_MILLI_BPM,
    ensures
        62 <= step_duration_ms(milli_bpm) <= 375,
        62_500 <= step_duration_us(milli_bpm) <= 375_000,
{
    lemma_step_duration_decreasing(MIN_MILLI_BPM as int, milli_bpm);
    lemma_step_duration_decreasing(milli_bpm, MAX_MILLI_BPM as int);
    assert(step_duration_us(40_000) == 60_000_000_000int / 160_000);
    assert(step_duration_us(240_000) == 60_000_000_000int / 960_000);
}

/// At every tempo that fits in 32 bits a step lasts at least three
/// microseconds and a note at least one, so no duration is zero.
pub proof fn lemma_step_duration_positive(milli_bpm: int)
    requires
        1 <= milli_bpm <= u32::MAX,
    ensures
        step_duration_us(milli_bpm) >= 3,
        note_duration_us(milli_bpm) >= 1,
{
    lemma_step_duration_decreasing(milli_bpm, u32::MAX as int);
    assert(step_duration_us(u32::MAX as int) == 60_000_000_000int / 17_179_869_180);
}

/// Advancing `n` times from a step of the cycle moves the cursor `n` steps
/// forward, wrapping at the end of the cycle.
pub proof fn lemma_advance_by(p: int, steps: int, n: nat)
    requires
        0 <= p < steps,
    ensures
        advance_by(p, steps, n) == (p + n) % steps,
        0 <= advance_by(p, steps, n) < steps,
    decreases n,
{
    if n == 0 {
        lemma_small_mod(p as nat, steps as nat);
    } else {
        lemma_advance_by(p, steps, (n - 1) as nat);
        lemma_add_mod_noop(p + n - 1, 1, steps);
        lemma_mod_twice(p + n - 1, steps);
        lemma_add_mod_noop((p + n - 1) % steps, 1, steps);
    }
}

/// Advancing once for every step of the cycle returns the cursor to the
/// step it started from.
pub proof fn lemma_advance_cycle(p: int, steps: int)
    requires
        0 <= p < steps,
    ensures
        advance_by(p, steps, steps as nat) == p,
{
    lemma_advance_by(p, steps, steps as nat);
    lemma_add_mod_noop(p, steps, steps);
    lemma_mod_self_0(steps);
    lemma_small_mod(p as nat, steps as nat);
}

/// `milli_bpm` clamped to the tempos a sequencer keeps.
pub(crate) fn clamped_tempo(milli_bpm: u32) -> (tempo: u32)
    ensures
        tempo == clamp_tempo(milli_bpm as int),
        MIN_MILLI_BPM <= tempo <= MAX_MILLI_BPM,
{
    if milli_bpm < MIN_MILLI_BPM {
        MIN_MILLI_BPM
    } else if milli_bpm > MAX_MILLI_BPM {
        MAX_MILLI_BPM
    } else {
        milli_bpm
    }
}

/// `note` clamped to the note numbers.
pub(crate) fn clamped_note(note: u8) -> (clamped: u8)
    ensures
        clamped == clamp_note(note as int),
        clamped <= MAX_NOTE,
{
    if note > MAX_NOTE {
        MAX_NOTE
    } else {
        note
    }
}

/// The length of one step at `milli_bpm`, in whole milliseconds.
pub(crate) fn step_millis(milli_bpm: u32) -> (ms: u64)
    requires
        milli_bpm >= 1,
    ensures
        ms == step_duration_ms(milli_bpm as int),
{
    let steps_per_kilominute: u64 = milli_bpm as u64 * STEPS_PER_BEAT;
    60_000_000 / steps_per_kilominute
}

/// The length of one step at `milli_bpm`, in whole microseconds.
pub(crate) fn step_micros(milli_bpm: u32) -> (us: u64)
    requires
        milli_bpm >= 1,
    ensures
        us == step_duration_us(milli_bpm as int),
{
    let steps_per_kilominute: u64 = milli_bpm as u64 * STEPS_PER_BEAT;
    60_000_000_000 / steps_per_kilominute
}

} // verus!
