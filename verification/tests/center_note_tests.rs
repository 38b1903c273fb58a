use spc2midi_tsuu::center_note::encode;
use spc2midi_tsuu::center_note::fraction;
use spc2midi_tsuu::center_note::from_estimate_steps;
use spc2midi_tsuu::center_note::note_number;
use spc2midi_tsuu::center_note::octave_down;
use spc2midi_tsuu::center_note::octave_up;
use spc2midi_tsuu::center_note::with_fraction_steps;
use spc2midi_tsuu::center_note::with_note_number;
use spc2midi_tsuu::center_note::OCTAVE_NOTE;

#[test]
fn encode_places_note_above_nine_fraction_bits() {
    assert_eq!(encode(0, 0), 0);
    assert_eq!(encode(60, 0), 60 << 9);
    assert_eq!(encode(69, 256), (69 << 9) | 256);
    assert_eq!(encode(127, 511), 0xFFFF);
}

#[test]
fn note_number_and_fraction_split_every_value() {
    for value in [0u16, 1, 511, 512, 513, 0x7FFF, 0x8000, 0xFFFE, 0xFFFF] {
        let note = note_number(value);
        let frac = fraction(value);
        assert!(note <= 127);
        assert!(frac < 512);
        assert_eq!(encode(note, frac), value);
    }
}

#[test]
fn with_note_number_keeps_fraction() {
    assert_eq!(with_note_number(0x01FF, 0), 0x01FF);
    assert_eq!(with_note_number(0x01FF, 127), 0xFFFF);
    assert_eq!(with_note_number((60 << 9) | 17, 61), (61 << 9) | 17);
}

#[test]
fn with_note_number_uses_lower_seven_bits() {
    assert_eq!(with_note_number(5, 128), 5);
    assert_eq!(with_note_number(5, 255), (127 << 9) | 5);
}

#[test]
fn with_fraction_steps_clamps_to_range() {
    assert_eq!(with_fraction_steps(60 << 9, 0), 60 << 9);
    assert_eq!(with_fraction_steps(60 << 9, 256), (60 << 9) | 256);
    assert_eq!(with_fraction_steps(60 << 9, 511), (60 << 9) | 511);
    assert_eq!(with_fraction_steps(60 << 9, 512), (60 << 9) | 511);
    assert_eq!(with_fraction_steps(60 << 9, i64::MAX), (60 << 9) | 511);
    assert_eq!(with_fraction_steps((60 << 9) | 99, -1), 60 << 9);
    assert_eq!(with_fraction_steps((60 << 9) | 99, i64::MIN), 60 << 9);
}

#[test]
fn octave_is_twelve_semitones() {
    assert_eq!(OCTAVE_NOTE, 12 << 9);
    assert_eq!(octave_up(60 << 9), Some(72 << 9));
    assert_eq!(octave_down(60 << 9), Some(48 << 9));
    assert_eq!(octave_up((60 << 9) | 5), Some((72 << 9) | 5));
}

#[test]
fn octave_stops_at_the_ends() {
    assert_eq!(octave_down(OCTAVE_NOTE - 1), None);
    assert_eq!(octave_down(OCTAVE_NOTE), Some(0));
    assert_eq!(octave_up(u16::MAX - OCTAVE_NOTE), Some(u16::MAX));
    assert_eq!(octave_up(u16::MAX - OCTAVE_NOTE + 1), None);
    assert_eq!(octave_up(0xFFFF), None);
}

#[test]
fn estimate_is_limited_to_the_notes_that_exist() {
    assert_eq!(from_estimate_steps(0), 0);
    assert_eq!(from_estimate_steps(-1), 0);
    assert_eq!(from_estimate_steps(i64::MIN), 0);
    assert_eq!(from_estimate_steps(69 * 512 + 256), (69 << 9) | 256);
    assert_eq!(from_estimate_steps(127 * 512), 127 << 9);
    assert_eq!(from_estimate_steps(127 * 512 + 1), 127 << 9);
    assert_eq!(from_estimate_steps(0xFFFF), 127 << 9);
    assert_eq!(from_estimate_steps(i64::MAX), 127 << 9);
    for steps in [-5i64, 0, 1, 511, 512, 30000, 65024, 65025, 70000] {
        assert!(note_number(from_estimate_steps(steps)) <= 127);
    }
}
