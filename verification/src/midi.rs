//! MIDI note names and the channel messages that start and stop a note.

use vstd::prelude::*;

verus! {

/// The status byte of a note-on message on channel 0.
pub const NOTE_ON_STATUS: u8 = 0x90;

/// The status byte of a note-off message on channel 0.
pub const NOTE_OFF_STATUS: u8 = 0x80;

/// The name of pitch class `class`, counted in semitones above C.
pub open spec fn pitch_class_name(class: int) -> Seq<char> {
    if class == 0 {
        seq!['C']
    } else if class == 1 {
        seq!['C', '#']
    } else if class == 2 {
        seq!['D']
    } else if class == 3 {
        seq!['D', '#']
    } else if class == 4 {
        seq!['E']
    } else if class == 5 {
        seq!['F']
    } else if class == 6 {
        seq!['F', '#']
    } else if class == 7 {
        seq!['G']
    } else if class == 8 {
        seq!['G', '#']
    } else if class == 9 {
        seq!['A']
    } else if class == 10 {
        seq!['A', '#']
    } else {
        seq!['B']
    }
}

/// The character of decimal digit `d`.
pub open spec fn digit_char(d: int) -> char {
    if d == 0 {
        '0'
    } else if d == 1 {
        '1'
    } else if d == 2 {
        '2'
    } else if d == 3 {
        '3'
    } else if d == 4 {
        '4'
    } else if d == 5 {
        '5'
    } else if d == 6 {
        '6'
    } else if d == 7 {
        '7'
    } else if d == 8 {
        '8'
    } else {
        '9'
    }
}

/// `n` in decimal, without leading zeros.
pub open spec fn decimal(n: nat) -> Seq<char>
    decreases n,
{
    if n < 10 {
        seq![digit_char(n as int)]
    } else {
        decimal(n / 10).push(digit_char((n % 10) as int))
    }
}

/// `i` in decimal, with a minus sign where it is negative.
pub open spec fn signed_decimal(i: int) -> Seq<char> {
    if i < 0 {
        seq!['-'] + decimal((-i) as nat)
    } else {
        decimal(i as nat)
    }
}

/// The octave of note number `note`: note 0 lies in octave -1, middle C
/// (note 60) opens octave 4.
pub open spec fn octave_of(note: int) -> int {
    note / 12 - 1
}

/// The name of note number `note`: its pitch class, then its octave.
pub open spec fn note_name(note: int) -> Seq<char> {
    pitch_class_name(note % 12) + signed_decimal(octave_of(note))
}

/// The name of pitch class `class` as a string.
fn pitch_class_str(class: u8) -> (name: &'static str)
    requires
        class < 12,
    ensures
        name@ == pitch_class_name(class as int),
{
    proof {
        reveal_strlit("C");
        reveal_strlit("C#");
        reveal_strlit("D");
        reveal_strlit("D#");
        reveal_strlit("E");
        reveal_strlit("F");
        reveal_strlit("F#");
        reveal_strlit("G");
        reveal_strlit("G#");
        reveal_strlit("A");
        reveal_strlit("A#");
        reveal_strlit("B");
    }
    match class {
        0 => "C",
        1 => "C#",
        2 => "D",
        3 => "D#",
        4 => "E",
        5 => "F",
        6 => "F#",
        7 => "G",
        8 => "G#",
        9 => "A",
        10 => "A#",
        _ => "B",
    }
}

/// Decimal digit `d` as a string.
fn digit_str(d: u8) -> (digit: &'static str)
    requires
        d < 10,
    ensures
        digit@ == seq![digit_char(d as int)],
{
    proof {
        reveal_strlit("0");
        reveal_strlit("1");
        reveal_strlit("2");
        reveal_strlit("3");
        reveal_strlit("4");
        reveal_strlit("5");
        reveal_strlit("6");
        reveal_strlit("7");
        reveal_strlit("8");
        reveal_strlit("9");
    }
    match d {
        0 => "0",
        1 => "1",
        2 => "2",
        3 => "3",
        4 => "4",
        5 => "5",
        6 => "6",
        7 => "7",
        8 => "8",
        _ => "9",
    }
}

/// The name of a note number, such as `C4` for 60 and `A#-1` for 10.
pub fn midi_note_name(note: u8) -> (name: String)
    ensures
        name@ == note_name(note as int),
{
    let mut name = String::from_str(pitch_class_str(note % 12));
    let octaves_up: u8 = note / 12;
    if octaves_up == 0 {
        proof {
            reveal_strlit("-1");
            reveal_with_fuel(decimal, 2);
        }
        name.append("-1");
    } else {
        let octave: u8 = octaves_up - 1;
        if octave >= 10 {
            name.append(digit_str(octave / 10));
        }
        name.append(digit_str(octave % 10));
        proof {
            reveal_with_fuel(decimal, 3);
        }
    }
    name
}

/// The bytes of the message that starts `note` at `velocity` on channel 0.
pub fn note_on_message(note: u8, velocity: u8) -> (message: [u8; 3])
    ensures
        message@ == seq![NOTE_ON_STATUS, note, velocity],
{
    [NOTE_ON_STATUS, note, velocity]
}

/// The bytes of the message that stops `note` on channel 0.
pub fn note_off_message(note: u8) -> (message: [u8; 3])
    ensures
        message@ == seq![NOTE_OFF_STATUS, note, 0u8],
{
    [NOTE_OFF_STATUS, note, 0]
}

} // verus!
