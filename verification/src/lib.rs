//! A modular step sequencer core.
//!
//! The crate holds the parts of a step sequencer that can be reasoned about
//! without a clock, a thread or a device:
//!
//! - [`Grid`]: a fixed-size matrix of enabled and disabled steps;
//! - [`Sequencer`]: a grid together with the transport state (cursor, tempo,
//!   note, play flag) and the published snapshot of the grid;
//! - [`PlaybackEngine`]: the timing state machine that turns clock readings
//!   and a snapshot into an ordered queue of [`PlaybackEvent`]s;
//! - [`midi`]: note names and the channel messages that start and stop a note.
//!
//! Every executable function carries a contract over a mathematical model of
//! its type, and the laws that relate several functions are stated as proof
//! functions beside them.

pub mod midi;
pub mod sequencer;

pub use midi::midi_note_name;
pub use sequencer::playback::{PlaybackEngine, PlaybackEvent, TickOutcome};
pub use sequencer::{Grid, Sequencer};
