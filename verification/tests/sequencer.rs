use sqnc::sequencer::timing::{DEFAULT_MILLI_BPM, DEFAULT_NOTE, MAX_MILLI_BPM, MIN_MILLI_BPM};
use sqnc::sequencer::{Grid, Sequencer};

#[test]
fn test_sequencer_advance() {
    let mut seq = Sequencer::new(4, 4);
    assert_eq!(seq.current_position(), 0);
    seq.advance_position();
    assert_eq!(seq.current_position(), 1);
}

#[test]
fn new_sequencer_starts_from_the_defaults() {
    let seq = Sequencer::new(4, 2);
    assert_eq!(seq.grid().width(), 4);
    assert_eq!(seq.grid().height(), 2);
    assert_eq!(seq.current_position(), 0);
    assert_eq!(seq.bpm(), 120_000);
    assert_eq!(seq.bpm(), DEFAULT_MILLI_BPM);
    assert_eq!(seq.note(), 60);
    assert_eq!(seq.note(), DEFAULT_NOTE);
    assert!(!seq.is_playing());
    assert_eq!(seq.grid_state(), &vec![true; 8]);
    assert!(seq.should_trigger());
}

#[test]
fn advance_returns_the_new_position_and_wraps() {
    let mut seq = Sequencer::new(3, 2);
    assert_eq!(seq.advance_position(), 1);
    assert_eq!(seq.advance_position(), 2);
    assert_eq!(seq.advance_position(), 3);
    assert_eq!(seq.advance_position(), 4);
    assert_eq!(seq.advance_position(), 5);
    assert_eq!(seq.advance_position(), 0);
    assert_eq!(seq.current_position(), 0);
}

#[test]
fn advancing_once_per_step_returns_to_the_start() {
    for width in 1..6usize {
        for height in 1..5usize {
            for start in 0..width * height {
                let mut seq = Sequencer::new(width, height);
                seq.set_current_position(start);
                assert_eq!(seq.current_position(), start);
                for _ in 0..width * height {
                    let position = seq.advance_position();
                    assert!(position < width * height);
                }
                assert_eq!(seq.current_position(), start);
            }
        }
    }
}

#[test]
fn single_step_sequencer_stays_on_step_zero() {
    let mut seq = Sequencer::new(1, 1);
    assert_eq!(seq.advance_position(), 0);
    assert_eq!(seq.advance_position(), 0);
}

#[test]
fn set_current_position_wraps_past_the_last_step() {
    let mut seq = Sequencer::new(4, 4);
    seq.set_current_position(15);
    assert_eq!(seq.current_position(), 15);
    seq.set_current_position(16);
    assert_eq!(seq.current_position(), 0);
    seq.set_current_position(37);
    assert_eq!(seq.current_position(), 5);
    seq.set_current_position(usize::MAX);
    assert_eq!(seq.current_position(), usize::MAX % 16);
    assert_eq!(seq.advance_position(), 0);
}

#[test]
fn position_maps_to_column_and_row() {
    let width = 4;
    let height = 3;
    for p in 0..width * height {
        let mut seq = Sequencer::new(width, height);
        seq.grid_mut().clear();
        seq.grid_mut().set(p % width, p / width, true);
        for q in 0..width * height {
            seq.set_current_position(q);
            assert_eq!(seq.should_trigger(), q == p);
        }
    }
}

#[test]
fn should_trigger_reads_the_grid_not_the_snapshot() {
    let mut seq = Sequencer::new(4, 4);
    seq.set_current_position(6);
    assert!(seq.should_trigger());
    seq.grid_mut().toggle(2, 1);
    assert!(!seq.should_trigger());
    assert!(seq.grid_state()[6]);
}

#[test]
fn set_bpm_clamps_to_the_tempo_range() {
    let mut seq = Sequencer::new(4, 4);
    seq.set_bpm(0);
    assert_eq!(seq.bpm(), 40_000);
    seq.set_bpm(39_999);
    assert_eq!(seq.bpm(), 40_000);
    seq.set_bpm(40_000);
    assert_eq!(seq.bpm(), 40_000);
    seq.set_bpm(98_765);
    assert_eq!(seq.bpm(), 98_765);
    seq.set_bpm(240_000);
    assert_eq!(seq.bpm(), 240_000);
    seq.set_bpm(240_001);
    assert_eq!(seq.bpm(), 240_000);
    seq.set_bpm(u32::MAX);
    assert_eq!(seq.bpm(), 240_000);
    assert_eq!(MIN_MILLI_BPM, 40_000);
    assert_eq!(MAX_MILLI_BPM, 240_000);
}

#[test]
fn set_bpm_always_lands_in_range() {
    let mut seq = Sequencer::new(2, 2);
    let mut input: u32 = 0;
    loop {
        seq.set_bpm(input);
        assert!(seq.bpm() >= 40_000 && seq.bpm() <= 240_000);
        match input.checked_add(7_919_003) {
            Some(next) => input = next,
            None => break,
        }
    }
}

#[test]
fn set_note_clamps_to_the_note_range() {
    let mut seq = Sequencer::new(4, 4);
    for note in 0..=255u8 {
        seq.set_note(note);
        assert!(seq.note() <= 127);
        assert_eq!(seq.note(), note.min(127));
    }
}

#[test]
fn step_duration_is_a_sixteenth_note_rounded_down() {
    let mut seq = Sequencer::new(4, 4);
    assert_eq!(seq.step_duration_ms(), 125);
    seq.set_bpm(240_000);
    assert_eq!(seq.step_duration_ms(), 62);
    seq.set_bpm(40_000);
    assert_eq!(seq.step_duration_ms(), 375);
    seq.set_bpm(60_000);
    assert_eq!(seq.step_duration_ms(), 250);
    seq.set_bpm(120_500);
    assert_eq!(seq.step_duration_ms(), 124);
    seq.set_bpm(100_000);
    assert_eq!(seq.step_duration_ms(), 150);
    seq.set_bpm(99_999);
    assert_eq!(seq.step_duration_ms(), 150);
    seq.set_bpm(100_001);
    assert_eq!(seq.step_duration_ms(), 149);
}

#[test]
fn step_duration_never_grows_with_the_tempo() {
    let mut seq = Sequencer::new(4, 4);
    let mut last = u64::MAX;
    let mut tempo = 40_000;
    while tempo <= 240_000 {
        seq.set_bpm(tempo);
        let ms = seq.step_duration_ms();
        assert!(ms <= last);
        assert_eq!(ms, 60_000_000 / (u64::from(tempo) * 4));
        last = ms;
        tempo += 137;
    }
    assert_eq!(last, 62);
}

#[test]
fn play_flag_starts_stops_and_toggles() {
    let mut seq = Sequencer::new(4, 4);
    seq.start();
    assert!(seq.is_playing());
    seq.start();
    assert!(seq.is_playing());
    seq.toggle_play();
    assert!(!seq.is_playing());
    seq.toggle_play();
    assert!(seq.is_playing());
    seq.stop();
    assert!(!seq.is_playing());
    seq.stop();
    assert!(!seq.is_playing());
}

#[test]
fn setters_leave_the_rest_alone() {
    let mut seq = Sequencer::new(4, 4);
    seq.set_current_position(3);
    seq.set_bpm(90_000);
    seq.set_note(72);
    seq.start();
    seq.grid_mut().set(1, 1, false);
    assert_eq!(seq.current_position(), 3);
    assert_eq!(seq.bpm(), 90_000);
    assert_eq!(seq.note(), 72);
    assert!(seq.is_playing());
    assert!(!seq.grid().get(1, 1));
    seq.advance_position();
    assert_eq!(seq.bpm(), 90_000);
    assert_eq!(seq.note(), 72);
    assert!(seq.is_playing());
    assert!(!seq.grid().get(1, 1));
}

#[test]
fn snapshot_changes_only_when_published() {
    let mut seq = Sequencer::new(4, 2);
    seq.grid_mut().set(1, 0, false);
    seq.grid_mut().set(3, 1, false);
    assert_eq!(seq.grid_state(), &vec![true; 8]);
    seq.update_grid_state();
    assert_eq!(
        seq.grid_state(),
        &vec![true, false, true, true, true, true, true, false]
    );
    seq.grid_mut().fill();
    assert_eq!(
        seq.grid_state(),
        &vec![true, false, true, true, true, true, true, false]
    );
    seq.update_grid_state();
    assert_eq!(seq.grid_state(), &vec![true; 8]);
}

#[test]
fn snapshot_is_indexed_like_the_cursor() {
    let mut seq = Sequencer::new(3, 4);
    seq.grid_mut().clear();
    seq.grid_mut().set(2, 0, true);
    seq.grid_mut().set(0, 2, true);
    seq.grid_mut().set(1, 3, true);
    seq.update_grid_state();
    let snapshot = seq.grid_state().clone();
    assert_eq!(snapshot.len(), 12);
    for p in 0..12 {
        seq.set_current_position(p);
        assert_eq!(snapshot[p], seq.should_trigger());
        assert_eq!(snapshot[p], seq.grid().get(p % 3, p / 3));
    }
}

#[test]
fn a_replaced_grid_is_read_within_the_sequencer_dimensions() {
    let mut seq = Sequencer::new(2, 2);
    *seq.grid_mut() = Grid::new(1, 1);
    seq.update_grid_state();
    assert_eq!(seq.grid_state(), &vec![true, false, false, false]);
    seq.set_current_position(3);
    assert!(!seq.should_trigger());
    assert_eq!(seq.advance_position(), 0);
    assert!(seq.should_trigger());
}
