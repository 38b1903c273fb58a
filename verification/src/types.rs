use crate::center_note;
use crate::program::Program;
use crate::tempo::Tempo;
use crate::tempo::DEFAULT_BEATS_PER_MINUTE;
use crate::tempo::UNITS_PER_BPM;
use vstd::prelude::*;

verus! {

/// Length of the exported music where the file names none, in milliseconds.
pub const DEFAULT_OUTPUT_DURATION_MSEC: u64 = 60000;

/// How often the parameters of a sounding voice are sampled, in milliseconds.
pub const DEFAULT_PLAYBACK_PARAMETER_UPDATE_PERIOD_MSEC: u8 = 5;

/// Ticks per quarter note of an exported file.
pub const DEFAULT_MIDI_RESOLUTION: u16 = 480;

/// Clock multiplier of the emulated processor during an export.
pub const DEFAULT_CLOCKUP_FACTOR: u32 = 1;

/// Time analysed where the file names no duration, in seconds.
pub const DEFAULT_ANALYZING_TIME_SEC: u32 = 120;

/// What the user can set for one sample source.
#[derive(Debug, Clone, Copy, PartialEq, Eq, Structural)]
pub struct SourceParameter {
    /// Whether the source is kept out of the output.
    pub mute: bool,
    /// Instrument that plays the source.
    pub program: Program,
    /// Note at which the sample sounds at its recorded pitch: the note number
    /// in the upper seven bits, the fraction of a semitone in the lower nine.
    pub center_note: u16,
    /// Velocity of every note-on.
    pub noteon_velocity: u8,
    /// Range of the pitch bend, in semitones.
    pub pitch_bend_width: u8,
    /// Whether the envelope is sent as expression.
    pub envelope_as_expression: bool,
    /// Whether the pan follows the voice while it sounds.
    pub auto_pan: bool,
    /// Pan used otherwise.
    pub fixed_pan: u8,
    /// Whether the volume follows the voice while it sounds.
    pub auto_volume: bool,
    /// Volume used otherwise.
    pub fixed_volume: u8,
    /// Whether pitch changes are sent as pitch bend.
    pub enable_pitch_bend: bool,
    /// Whether echo is sent as the depth of effect 1.
    pub echo_as_effect1: bool,
}

impl SourceParameter {
    /// The parameters that a newly found source starts with.
    pub open spec fn spec_initial(is_drum: bool, center_note: u16) -> SourceParameter {
        SourceParameter {
            mute: false,
            program: if is_drum {
                Program::AcousticBassDrum
            } else {
                Program::AcousticGrand
            },
            center_note,
            noteon_velocity: 100,
            pitch_bend_width: 12,
            envelope_as_expression: false,
            auto_pan: true,
            fixed_pan: 64,
            auto_volume: true,
            fixed_volume: 100,
            enable_pitch_bend: !is_drum,
            echo_as_effect1: true,
        }
    }

    /// The parameters that a newly found source starts with: a bass drum
    /// without pitch bend for a percussive source, a grand piano otherwise.
    pub fn initial(is_drum: bool, center_note: u16) -> (parameter: SourceParameter)
        ensures
            parameter == Self::spec_initial(is_drum, center_note),
    {
        SourceParameter {
            mute: false,
            program: if is_drum {
                Program::AcousticBassDrum
            } else {
                Program::AcousticGrand
            },
            center_note,
            noteon_velocity: 100,
            pitch_bend_width: 12,
            envelope_as_expression: false,
            auto_pan: true,
            fixed_pan: 64,
            auto_volume: true,
            fixed_volume: 100,
            enable_pitch_bend: !is_drum,
            echo_as_effect1: true,
        }
    }

    /// Sets the note number of the center note and keeps its fraction.
    pub fn set_center_note_int(&mut self, note: u8)
        ensures
            center_note::spec_note_number(final(self).center_note) == note as int % 128,
            center_note::spec_fraction(final(self).center_note) == center_note::spec_fraction(
                old(self).center_note,
            ),
            *final(self) == (SourceParameter { center_note: final(self).center_note, ..*old(self) }),
    {
        self.center_note = center_note::with_note_number(self.center_note, note);
    }

    /// Sets the fraction of the center note, given in 1/512 steps and limited
    /// to the range 0 to 511, and keeps its note number.
    pub fn set_center_note_fraction(&mut self, steps: i64)
        ensures
            center_note::spec_note_number(final(self).center_note)
                == center_note::spec_note_number(old(self).center_note),
            center_note::spec_fraction(final(self).center_note) == center_note::spec_clamp(
                steps as int,
                0,
                511,
            ),
            *final(self) == (SourceParameter { center_note: final(self).center_note, ..*old(self) }),
    {
        self.center_note = center_note::with_fraction_steps(self.center_note, steps);
    }

    /// Raises the center note by an octave where the result is a fixed-point
    /// note, and says whether it did.
    pub fn center_note_octave_up(&mut self) -> (changed: bool)
        ensures
            changed == (old(self).center_note + center_note::OCTAVE_NOTE <= u16::MAX),
            *final(self) == (SourceParameter {
                center_note: if changed {
                    (old(self).center_note + center_note::OCTAVE_NOTE) as u16
                } else {
                    old(self).center_note
                },
                ..*old(self)
            }),
    {
        match center_note::octave_up(self.center_note) {
            Some(raised) => {
                self.center_note = raised;
                true
            },
            None => false,
        }
    }

    /// Lowers the center note by an octave where it is not in the lowest
    /// octave, and says whether it did.
    pub fn center_note_octave_down(&mut self) -> (changed: bool)
        ensures
            changed == (old(self).center_note >= center_note::OCTAVE_NOTE),
            *final(self) == (SourceParameter {
                center_note: if changed {
                    (old(self).center_note - center_note::OCTAVE_NOTE) as u16
                } else {
                    old(self).center_note
                },
                ..*old(self)
            }),
    {
        match center_note::octave_down(self.center_note) {
            Some(lowered) => {
                self.center_note = lowered;
                true
            },
            None => false,
        }
    }
}

/// Settings of an export, shared by all sources.
#[derive(Debug, Clone, Copy, PartialEq, Eq, Structural)]
pub struct MIDIOutputConfigure {
    /// Length of the exported music, in milliseconds.
    pub output_duration_msec: u64,
    /// How often the parameters of a sounding voice are sampled, in milliseconds.
    pub playback_parameter_update_period: u8,
    /// Tempo of the exported file.
    pub beats_per_minute: Tempo,
    /// Ticks per quarter note of the exported file.
    pub ticks_per_quarter: u16,
    /// Clock multiplier of the emulated processor during an export.
    pub spc_clockup_factor: u32,
}

impl MIDIOutputConfigure {
    /// The settings before any file is loaded.
    pub open spec fn spec_new() -> MIDIOutputConfigure {
        MIDIOutputConfigure {
            output_duration_msec: DEFAULT_OUTPUT_DURATION_MSEC,
            playback_parameter_update_period: DEFAULT_PLAYBACK_PARAMETER_UPDATE_PERIOD_MSEC,
            beats_per_minute: Tempo { units: (DEFAULT_BEATS_PER_MINUTE * UNITS_PER_BPM) as u32 },
            ticks_per_quarter: DEFAULT_MIDI_RESOLUTION,
            spc_clockup_factor: DEFAULT_CLOCKUP_FACTOR,
        }
    }

    pub fn new() -> (configure: MIDIOutputConfigure)
        ensures
            configure == Self::spec_new(),
    {
        MIDIOutputConfigure {
            output_duration_msec: DEFAULT_OUTPUT_DURATION_MSEC,
            playback_parameter_update_period: DEFAULT_PLAYBACK_PARAMETER_UPDATE_PERIOD_MSEC,
            beats_per_minute: Tempo { units: DEFAULT_BEATS_PER_MINUTE * UNITS_PER_BPM },
            ticks_per_quarter: DEFAULT_MIDI_RESOLUTION,
            spc_clockup_factor: DEFAULT_CLOCKUP_FACTOR,
        }
    }

    /// Takes the length of the export from the duration that a file names, in
    /// seconds; a file that names none gets the default length.
    pub fn set_duration_from_file(&mut self, duration_sec: u32)
        ensures
            *final(self) == (MIDIOutputConfigure {
                output_duration_msec: spec_output_duration_msec(duration_sec),
                ..*old(self)
            }),
    {
        self.output_duration_msec = if duration_sec > 0 {
            duration_sec as u64 * 1000
        } else {
            DEFAULT_OUTPUT_DURATION_MSEC
        };
    }

    /// The seconds to analyse again for the length set: the length rounded to
    /// the nearest second, halves upward, and limited to what 32 bits hold.
    pub fn reanalysis_duration_sec(&self) -> (seconds: u32)
        ensures
            seconds == spec_reanalysis_duration_sec(self.output_duration_msec),
    {
        let rounded: u64 = self.output_duration_msec / 1000 + if self.output_duration_msec % 1000
            >= 500 {
            1u64
        } else {
            0u64
        };
        if rounded > u32::MAX as u64 {
            u32::MAX
        } else {
            rounded as u32
        }
    }
}

/// The length of the export for a file that names `duration_sec` seconds.
pub open spec fn spec_output_duration_msec(duration_sec: u32) -> u64 {
    if duration_sec > 0 {
        (duration_sec * 1000) as u64
    } else {
        DEFAULT_OUTPUT_DURATION_MSEC
    }
}

/// A length in milliseconds as the nearest whole second, limited to 32 bits.
pub open spec fn spec_reanalysis_duration_sec(msec: u64) -> u32 {
    let rounded = (msec + 500) / 1000;
    if rounded > u32::MAX {
        u32::MAX
    } else {
        rounded as u32
    }
}

/// The seconds analysed for a file that names `duration_sec` seconds.
pub fn analyzing_time_sec(duration_sec: u32) -> (seconds: u32)
    ensures
        seconds == if duration_sec > 0 {
            duration_sec
        } else {
            DEFAULT_ANALYZING_TIME_SEC
        },
{
    if duration_sec > 0 {
        duration_sec
    } else {
        DEFAULT_ANALYZING_TIME_SEC
    }
}

/// What the eight voices are doing at one moment.
#[derive(Debug, Clone)]
pub struct PlaybackStatus {
    /// Whether the voice sounds.
    pub noteon: [bool; 8],
    /// Source that the voice plays.
    pub srn_no: [u8; 8],
    /// Pitch of the voice.
    pub pitch: [u16; 8],
    /// Upper bits of the envelope.
    pub envelope: [u8; 8],
    /// Volume, left and right.
    pub volume: [[i8; 2]; 8],
}

impl PlaybackStatus {
    /// The status of eight silent voices.
    pub fn new() -> (status: PlaybackStatus)
        ensures
            forall|ch: int|
                0 <= ch < 8 ==> {
                    &&& !(#[trigger] status.noteon[ch])
                    &&& status.srn_no[ch] == 0
                    &&& status.pitch[ch] == 0
                    &&& status.envelope[ch] == 0
                    &&& status.volume[ch][0] == 0
                    &&& status.volume[ch][1] == 0
                },
    {
        PlaybackStatus {
            noteon: [false;8],
            srn_no: [0;8],
            pitch: [0;8],
            envelope: [0;8],
            volume: [[0, 0];8],
        }
    }
}

/// What a source window draws.
#[derive(Debug, Clone, Copy, PartialEq, Eq, Structural)]
pub enum DrawMode {
    /// The waveform over time.
    WaveForm,
    /// The spectrum over frequency.
    Spectrum,
}

impl Default for DrawMode {
    fn default() -> (mode: DrawMode)
        ensures
            mode == DrawMode::WaveForm,
    {
        DrawMode::WaveForm
    }
}

impl DrawMode {
    /// The other of the two modes.
    pub fn toggled(self) -> (other: DrawMode)
        ensures
            other == match self {
                DrawMode::WaveForm => DrawMode::Spectrum,
                DrawMode::Spectrum => DrawMode::WaveForm,
            },
    {
        match self {
            DrawMode::WaveForm => DrawMode::Spectrum,
            DrawMode::Spectrum => DrawMode::WaveForm,
        }
    }
}

} // verus!
