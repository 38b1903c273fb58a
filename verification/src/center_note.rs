use vstd::prelude::*;

verus! {

/// Number of fixed-point steps in one semitone.
pub const STEPS_PER_SEMITONE: u16 = 512;

/// One octave as a fixed-point note.
pub const OCTAVE_NOTE: u16 = 6144;

/// Highest note number.
pub const MAX_NOTE: u8 = 127;

/// Highest fixed-point note that an estimate can give: note 127 exactly.
pub const MAX_ESTIMATED_NOTE: u16 = 65024;

/// The fixed-point note made of a note number and a fraction of a semitone
/// counted in 1/512 steps.
pub open spec fn spec_encode(note: int, fraction: int) -> int {
    note * 512 + fraction
}

/// The note number of a fixed-point note.
pub open spec fn spec_note_number(center_note: u16) -> int {
    center_note as int / 512
}

/// The fraction of a semitone of a fixed-point note, in 1/512 steps.
pub open spec fn spec_fraction(center_note: u16) -> int {
    center_note as int % 512
}

/// A number limited to the range from `low` to `high`.
pub open spec fn spec_clamp(value: int, low: int, high: int) -> int {
    if value < low {
        low
    } else if value > high {
        high
    } else {
        value
    }
}

/// Builds the fixed-point note `(note << 9) | fraction`.
pub fn encode(note: u8, fraction: u16) -> (center_note: u16)
    requires
        note <= MAX_NOTE,
        fraction < STEPS_PER_SEMITONE,
    ensures
        center_note == spec_encode(note as int, fraction as int),
        spec_note_number(center_note) == note,
        spec_fraction(center_note) == fraction,
{
    let wide: u16 = note as u16;
    assert(((wide << 9u16) | fraction) == wide * 512 + fraction) by (bit_vector)
        requires
            wide <= 127,
            fraction < 512,
    ;
    (wide << 9u16) | fraction
}

/// The note number held in the upper seven bits.
pub fn note_number(center_note: u16) -> (note: u8)
    ensures
        note == spec_note_number(center_note),
        note <= MAX_NOTE,
{
    assert(center_note >> 9u16 == center_note / 512 && (center_note >> 9u16) <= 127)
        by (bit_vector);
    (center_note >> 9u16) as u8
}

/// The fraction held in the lower nine bits.
pub fn fraction(center_note: u16) -> (fraction: u16)
    ensures
        fraction == spec_fraction(center_note),
        fraction < STEPS_PER_SEMITONE,
{
    assert(center_note & 0x01FFu16 == center_note % 512) by (bit_vector);
    center_note & 0x01FF
}

/// Replaces the note number and keeps the fraction. Only the lower seven bits
/// of `note` are used.
pub fn with_note_number(center_note: u16, note: u8) -> (updated: u16)
    ensures
        spec_note_number(updated) == note as int % 128,
        spec_fraction(updated) == spec_fraction(center_note),
{
    let wide: u16 = note as u16;
    let updated: u16 = (center_note & 0x01FF) | (wide << 9u16);
    assert(updated / 512 == wide % 128 && updated % 512 == center_note % 512) by (bit_vector)
        requires
            updated == (center_note & 0x01FFu16) | (wide << 9u16),
            wide <= 255,
    ;
    updated
}

/// Replaces the fraction and keeps the note number. `steps` is the wanted
/// fraction in 1/512 steps; it is limited to the range 0 to 511.
pub fn with_fraction_steps(center_note: u16, steps: i64) -> (updated: u16)
    ensures
        spec_note_number(updated) == spec_note_number(center_note),
        spec_fraction(updated) == spec_clamp(steps as int, 0, 511),
{
    let clamped: u16 = if steps < 0 {
        0
    } else if steps > 511 {
        511
    } else {
        steps as u16
    };
    let updated: u16 = (center_note & 0xFE00) | clamped;
    assert(updated / 512 == center_note / 512 && updated % 512 == clamped) by (bit_vector)
        requires
            updated == (center_note & 0xFE00u16) | clamped,
            clamped <= 511,
    ;
    updated
}

/// The fixed-point note of an estimate given in 1/512 steps of a semitone.
/// An estimate below note 0 counts as note 0, one above note 127 as note 127.
pub fn from_estimate_steps(steps: i64) -> (center_note: u16)
    ensures
        center_note == spec_clamp(steps as int, 0, MAX_ESTIMATED_NOTE as int),
        center_note <= MAX_ESTIMATED_NOTE,
        spec_note_number(center_note) <= MAX_NOTE,
{
    if steps < 0 {
        0
    } else if steps > MAX_ESTIMATED_NOTE as i64 {
        MAX_ESTIMATED_NOTE
    } else {
        steps as u16
    }
}

/// The note one octave higher, or `None` where that would leave the range of
/// fixed-point notes.
pub fn octave_up(center_note: u16) -> (raised: Option<u16>)
    ensures
        raised == if center_note + OCTAVE_NOTE <= u16::MAX {
            Some((center_note + OCTAVE_NOTE) as u16)
        } else {
            None
        },
{
    let note: u32 = center_note as u32 + OCTAVE_NOTE as u32;
    if note <= u16::MAX as u32 {
        Some(note as u16)
    } else {
        None
    }
}

/// The note one octave lower, or `None` where the note lies in the lowest octave.
pub fn octave_down(center_note: u16) -> (lowered: Option<u16>)
    ensures
        lowered == if center_note >= OCTAVE_NOTE {
            Some((center_note - OCTAVE_NOTE) as u16)
        } else {
            None
        },
{
    if center_note >= OCTAVE_NOTE {
        Some(center_note - OCTAVE_NOTE)
    } else {
        None
    }
}

/// Every fixed-point note splits into a note number of at most 127 and a
/// fraction below one semitone, and is rebuilt from the two.
pub proof fn lemma_center_note_in_range(center_note: u16)
    ensures
        0 <= spec_note_number(center_note) <= MAX_NOTE,
        0 <= spec_fraction(center_note) < STEPS_PER_SEMITONE,
        spec_encode(spec_note_number(center_note), spec_fraction(center_note)) == center_note,
{
}

/// An octave changes the note number by twelve and leaves the fraction alone.
pub proof fn lemma_octave_is_twelve_semitones(center_note: u16)
    ensures
        center_note + OCTAVE_NOTE <= u16::MAX ==> {
            &&& spec_note_number((center_note + OCTAVE_NOTE) as u16) == spec_note_number(
                center_note,
            ) + 12
            &&& spec_fraction((center_note + OCTAVE_NOTE) as u16) == spec_fraction(center_note)
        },
        center_note >= OCTAVE_NOTE ==> {
            &&& spec_note_number((center_note - OCTAVE_NOTE) as u16) == spec_note_number(
                center_note,
            ) - 12
            &&& spec_fraction((center_note - OCTAVE_NOTE) as u16) == spec_fraction(center_note)
        },
{
}

} // verus!
