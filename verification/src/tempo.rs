use vstd::prelude::*;

verus! {

/// Number of tempo units in one beat per minute.
pub const UNITS_PER_BPM: u32 = 64;

/// Slowest tempo offered, in beats per minute.
pub const MIN_BEATS_PER_MINUTE: u32 = 30;

/// Fastest tempo offered, in beats per minute.
pub const MAX_BEATS_PER_MINUTE: u32 = 240;

/// Tempo taken where none is known, in beats per minute.
pub const DEFAULT_BEATS_PER_MINUTE: u32 = 120;

/// Microseconds in one minute.
pub const USEC_PER_MINUTE: u64 = 60000000;

/// Largest number of microseconds per quarter note that a tempo event holds.
pub const MAX_QUARTER_NOTE_USEC: u64 = 0x1000000;

/// A tempo in beats per minute, held as a whole number of 1/64 beat per minute.
#[derive(Debug, Clone, Copy, PartialEq, Eq, Structural)]
pub struct Tempo {
    pub units: u32,
}

impl Tempo {
    /// The microseconds that one quarter note lasts, rounded down.
    pub open spec fn spec_quarter_note_usec(self) -> int {
        (USEC_PER_MINUTE * UNITS_PER_BPM) as int / self.units as int
    }

    /// The tempo moved to the nearest eighth of a beat per minute, halves upward.
    pub open spec fn spec_snapped_to_eighth(self) -> int {
        (self.units as int + 4) / 8 * 8
    }

    /// The tempo of a whole number of beats per minute.
    pub fn from_whole(beats_per_minute: u16) -> (tempo: Tempo)
        ensures
            tempo.units == beats_per_minute * UNITS_PER_BPM,
    {
        Tempo { units: beats_per_minute as u32 * UNITS_PER_BPM }
    }

    /// The tempo in whole beats per minute, the fraction dropped.
    pub fn whole_beats(self) -> (beats: u32)
        ensures
            beats == self.units / UNITS_PER_BPM,
    {
        self.units / UNITS_PER_BPM
    }

    /// The microseconds per quarter note of this tempo, as a tempo event
    /// stores them: `None` for a tempo of zero and for one so slow that the
    /// number exceeds 2^24.
    pub fn quarter_note_usec(self) -> (usec: Option<u32>)
        ensures
            usec == if self.units > 0 && self.spec_quarter_note_usec() <= MAX_QUARTER_NOTE_USEC {
                Some(self.spec_quarter_note_usec() as u32)
            } else {
                None
            },
    {
        if self.units == 0 {
            return None;
        }
        let quarter: u64 = (USEC_PER_MINUTE * UNITS_PER_BPM as u64) / self.units as u64;
        if quarter <= MAX_QUARTER_NOTE_USEC {
            Some(quarter as u32)
        } else {
            None
        }
    }

    /// Twice the tempo, unless that is faster than `MAX_BEATS_PER_MINUTE`.
    pub fn doubled(self) -> (faster: Option<Tempo>)
        ensures
            faster == if self.units * 2 <= MAX_BEATS_PER_MINUTE * UNITS_PER_BPM {
                Some(Tempo { units: (self.units * 2) as u32 })
            } else {
                None
            },
    {
        if self.units <= (MAX_BEATS_PER_MINUTE * UNITS_PER_BPM) / 2 {
            Some(Tempo { units: self.units * 2 })
        } else {
            None
        }
    }

    /// Half the tempo, unless that is slower than `MIN_BEATS_PER_MINUTE`.
    pub fn halved(self) -> (slower: Option<Tempo>)
        ensures
            slower == if self.units / 2 >= MIN_BEATS_PER_MINUTE * UNITS_PER_BPM {
                Some(Tempo { units: self.units / 2 })
            } else {
                None
            },
    {
        if self.units / 2 >= MIN_BEATS_PER_MINUTE * UNITS_PER_BPM {
            Some(Tempo { units: self.units / 2 })
        } else {
            None
        }
    }

    /// The tempo moved to the nearest eighth of a beat per minute.
    pub fn snapped_to_eighth(self) -> (snapped: Tempo)
        ensures
            snapped.units == if self.spec_snapped_to_eighth() <= u32::MAX {
                self.spec_snapped_to_eighth()
            } else {
                self.units as int / 8 * 8
            },
    {
        if self.units <= u32::MAX - 7 {
            Tempo { units: (self.units + 4) / 8 * 8 }
        } else {
            Tempo { units: self.units / 8 * 8 }
        }
    }
}

/// The number of quarter beats per minute, rounded to the nearest whole
/// number with halves upward, of a beat that comes back every `lag` frames of
/// `frame_size` samples at `sample_rate` samples per second.
pub open spec fn spec_quarter_beats_for_lag(lag: int, frame_size: int, sample_rate: int) -> int {
    (2 * (240 * sample_rate) + lag * frame_size) / (2 * (lag * frame_size))
}

/// The tempo, in quarters of a beat per minute, of a beat that comes back
/// every `lag` frames. `None` where the period is empty or the tempo is too
/// fast to be held.
pub fn tempo_for_lag(lag: u32, frame_size: u32, sample_rate: u32) -> (tempo: Option<Tempo>)
    ensures
        tempo is Some <==> lag > 0 && frame_size > 0 && spec_quarter_beats_for_lag(
            lag as int,
            frame_size as int,
            sample_rate as int,
        ) * 16 <= u32::MAX,
        tempo matches Some(t) ==> t.units == spec_quarter_beats_for_lag(
            lag as int,
            frame_size as int,
            sample_rate as int,
        ) * 16,
{
    if lag == 0 || frame_size == 0 {
        return None;
    }
    assert(0 < lag as int * frame_size as int <= 0xFFFF_FFFF * 0xFFFF_FFFF) by (nonlinear_arith)
        requires
            0 < lag <= 0xFFFF_FFFF,
            0 < frame_size <= 0xFFFF_FFFF,
    ;
    let period: u64 = lag as u64 * frame_size as u64;
    let beats: u128 = 2 * (240 * sample_rate as u128) + period as u128;
    let quarters: u128 = beats / (2 * period as u128);
    if quarters <= (u32::MAX / 16) as u128 {
        Some(Tempo { units: quarters as u32 * 16 })
    } else {
        None
    }
}

} // verus!
