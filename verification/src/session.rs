use crate::center_note;
use crate::program::Program;
use crate::tempo::Tempo;
use crate::tempo::MAX_BEATS_PER_MINUTE;
use crate::tempo::MIN_BEATS_PER_MINUTE;
use crate::tempo::UNITS_PER_BPM;
use crate::types::spec_output_duration_msec;
use crate::types::spec_reanalysis_duration_sec;
use crate::types::MIDIOutputConfigure;
use crate::types::SourceParameter;
use crate::types::DEFAULT_ANALYZING_TIME_SEC;
use std::collections::BTreeMap;
use vstd::prelude::*;

verus! {

/// Value of the mute register that silences every voice.
pub const ALL_CHANNELS_MUTED: u8 = 0xFF;

/// What happened: a request of the user, or the outcome of something the
/// session asked for.
#[derive(Debug, Clone, Copy, PartialEq, Eq, Structural)]
pub enum Event {
    /// The user wants to open a file.
    OpenFile,
    /// A music file was read; it names a duration in seconds, or zero.
    SpcFileLoaded { duration_sec: u32 },
    /// The user wants to export the music.
    SaveSmf,
    /// The user wants to save the parameters.
    SaveJson,
    /// The user wants to hear the waveform of a source, or to stop it.
    SourcePlayStartRequest(u8),
    SourcePlayLoopFlagToggled(bool),
    SourceMidiPreviewFlagToggled(bool),
    /// The user wants to hear the music, or to stop it.
    PlayStartRequest,
    PlayStopRequest,
    /// The output stream has started.
    PlaybackStarted,
    /// The waveform of a source has played to its end.
    PreviewEnded,
    SpcMuteFlagToggled(bool),
    MidiMuteFlagToggled(bool),
    SourceMuteFlagToggled(u8, bool),
    ProgramSelected(u8, Program),
    /// The user wants to hear the instrument of a source.
    MidiPreviewRequest(u8),
    CenterNoteIntChanged(u8, u8),
    /// The fraction of the center note was set, in 1/512 steps.
    CenterNoteFractionChanged(u8, i64),
    NoteOnVelocityChanged(u8, u8),
    PitchBendWidthChanged(u8, u8),
    EnablePitchBendFlagToggled(u8, bool),
    AutoPanFlagToggled(u8, bool),
    FixedPanChanged(u8, u8),
    AutoVolumeFlagToggled(u8, bool),
    FixedVolumeChanged(u8, u8),
    EnvelopeAsExpressionFlagToggled(u8, bool),
    EchoAsEffect1FlagToggled(u8, bool),
    CenterNoteOctaveUpClicked(u8),
    CenterNoteOctaveDownClicked(u8),
    /// The center note of a source was estimated again, in 1/512 steps of
    /// a semitone.
    CenterNoteEstimated(u8, i64),
    /// The parameters changed and are to reach the protocol encoder.
    SourceParameterUpdate,
    BpmChanged(Tempo),
    TicksPerQuarterChanged(u16),
    UpdatePeriodChanged(u8),
    DurationChanged(u64),
    ClockUpFactorChanged(u32),
    MuteChannel(u8, bool),
    SoloChannel(u8),
    /// The user wants the tempo estimated again.
    BpmAnalyzeRequest,
    /// The tempo was estimated.
    TempoEstimated(Tempo),
    BpmDoubleButtonClicked,
    BpmHalfButtonClicked,
    /// The user wants the sources analysed again.
    SourceReanalyzeRequest,
}

/// What the session asks its surroundings to do.
#[derive(Debug, Clone, Copy, PartialEq, Eq, Structural)]
pub enum Action {
    /// Stop the output stream and silence every channel.
    StopPlayback,
    /// Write the mute registers, hand over the parameters and start the
    /// output stream of the music.
    StartPlayback { pcm_channel_mute: u8, midi_channel_mute: u8 },
    /// Start the output stream of the waveform of a source.
    StartSourcePreview(u8),
    /// Build both emulators anew from the file.
    ResetEmulators,
    /// Set the counters of played samples and sent bytes to zero.
    ResetCounters,
    /// Close every window but the main one.
    CloseSecondaryWindows,
    /// Ask the user for a file and read it.
    ShowOpenDialog,
    /// Export the music to a file.
    SaveSmf,
    /// Save the parameters to a file.
    SaveJson,
    /// Find the sources that the music uses in its first seconds.
    Analyze { duration_sec: u32 },
    /// Estimate the tempo from the first seconds of the music.
    EstimateTempo { duration_sec: u32 },
    /// Hand the parameters to the protocol encoder, where there is one.
    ApplySourceParameters,
    /// Play the instrument of a source for a moment.
    PreviewMidi(u8),
    /// Write the mute register of the emulator that makes sound.
    WritePcmChannelMute(u8),
    /// Write the mute register of the protocol encoder.
    WriteMidiChannelMute(u8),
    /// Silence all sixteen channels.
    SendAllSoundOff,
    /// Silence one channel.
    SendChannelSoundOff(u8),
}

/// What the session knows.
pub struct Session {
    pub source_parameter: BTreeMap<u8, SourceParameter>,
    pub midi_output_configure: MIDIOutputConfigure,
    /// Whether a music file is open, and with it both emulators.
    pub file_loaded: bool,
    /// Duration that the open file names, in seconds; zero for none.
    pub file_duration_sec: u32,
    /// Whether an output stream runs.
    pub playing: bool,
    pub pcm_spc_mute: bool,
    pub midi_spc_mute: bool,
    pub midi_preview: bool,
    pub preview_loop: bool,
    /// One bit for each muted voice.
    pub channel_mute_flags: u8,
}

/// What the session knows, its map as a mathematical map.
pub struct SessionView {
    pub source_parameter: Map<u8, SourceParameter>,
    pub midi_output_configure: MIDIOutputConfigure,
    pub file_loaded: bool,
    pub file_duration_sec: u32,
    pub playing: bool,
    pub pcm_spc_mute: bool,
    pub midi_spc_mute: bool,
    pub midi_preview: bool,
    pub preview_loop: bool,
    pub channel_mute_flags: u8,
}

impl View for Session {
    type V = SessionView;

    open spec fn view(&self) -> SessionView {
        SessionView {
            source_parameter: self.source_parameter@,
            midi_output_configure: self.midi_output_configure,
            file_loaded: self.file_loaded,
            file_duration_sec: self.file_duration_sec,
            playing: self.playing,
            pcm_spc_mute: self.pcm_spc_mute,
            midi_spc_mute: self.midi_spc_mute,
            midi_preview: self.midi_preview,
            preview_loop: self.preview_loop,
            channel_mute_flags: self.channel_mute_flags,
        }
    }
}

/// The value of a mute register: every voice where all are muted, the
/// flags of the single voices otherwise.
pub open spec fn spec_channel_mute_register(all_muted: bool, flags: u8) -> u8 {
    if all_muted {
        ALL_CHANNELS_MUTED
    } else {
        flags
    }
}

/// The mute flags with the bit of `voice` set or cleared.
pub open spec fn spec_with_channel_mute(flags: u8, voice: u8, mute: bool) -> u8 {
    if mute {
        flags | (1u8 << voice)
    } else {
        flags & !(1u8 << voice)
    }
}

/// The mute flags that leave only `voice` to be heard.
pub open spec fn spec_solo_flags(voice: u8) -> u8 {
    !(1u8 << voice)
}

/// The value of a mute register.
pub fn channel_mute_register(all_muted: bool, flags: u8) -> (value: u8)
    ensures
        value == spec_channel_mute_register(all_muted, flags),
{
    if all_muted {
        ALL_CHANNELS_MUTED
    } else {
        flags
    }
}

/// The mute flags with the bit of `voice` set or cleared.
pub fn with_channel_mute(flags: u8, voice: u8, mute: bool) -> (updated: u8)
    requires
        voice < 8,
    ensures
        updated == spec_with_channel_mute(flags, voice, mute),
{
    if mute {
        flags | (1u8 << voice)
    } else {
        flags & !(1u8 << voice)
    }
}

/// The mute flags that leave only `voice` to be heard.
pub fn solo_flags(voice: u8) -> (flags: u8)
    requires
        voice < 8,
    ensures
        flags == spec_solo_flags(voice),
{
    !(1u8 << voice)
}

/// The messages that silence the other seven voices, from voice 0 upward.
pub open spec fn spec_silence_others(voice: u8, limit: int) -> Seq<Action>
    decreases limit,
{
    if limit <= 0 {
        Seq::empty()
    } else {
        spec_silence_others(voice, limit - 1) + if limit - 1 != voice {
            seq![Action::SendChannelSoundOff((limit - 1) as u8)]
        } else {
            Seq::empty()
        }
    }
}

/// The actions that follow a change of what a source sounds like: the
/// instrument is played where previews are wished, and the parameters are
/// handed over.
pub open spec fn spec_audible_edit_actions(state: SessionView, source: u8) -> Seq<Action> {
    if state.midi_preview {
        seq![Action::PreviewMidi(source), Action::ApplySourceParameters]
    } else {
        seq![Action::ApplySourceParameters]
    }
}

/// The parameter of a source after an event that edits one, or `None`
/// where the event edits none or leaves the parameter as it is.
pub open spec fn spec_edited(parameter: SourceParameter, event: Event) -> Option<SourceParameter> {
    match event {
        Event::SourceMuteFlagToggled(_, flag) => Some(SourceParameter { mute: flag, ..parameter }),
        Event::ProgramSelected(_, program) => Some(SourceParameter { program, ..parameter }),
        Event::CenterNoteIntChanged(_, note) => Some(
            SourceParameter {
                center_note: center_note::spec_encode(
                    note as int % 128,
                    center_note::spec_fraction(parameter.center_note),
                ) as u16,
                ..parameter
            },
        ),
        Event::CenterNoteFractionChanged(_, steps) => Some(
            SourceParameter {
                center_note: center_note::spec_encode(
                    center_note::spec_note_number(parameter.center_note),
                    center_note::spec_clamp(steps as int, 0, 511),
                ) as u16,
                ..parameter
            },
        ),
        Event::NoteOnVelocityChanged(_, velocity) => Some(
            SourceParameter { noteon_velocity: velocity, ..parameter },
        ),
        Event::PitchBendWidthChanged(_, width) => Some(
            SourceParameter { pitch_bend_width: width, ..parameter },
        ),
        Event::EnablePitchBendFlagToggled(_, flag) => Some(
            SourceParameter { enable_pitch_bend: flag, ..parameter },
        ),
        Event::AutoPanFlagToggled(_, flag) => Some(SourceParameter { auto_pan: flag, ..parameter }),
        Event::FixedPanChanged(_, pan) => Some(SourceParameter { fixed_pan: pan, ..parameter }),
        Event::AutoVolumeFlagToggled(_, flag) => Some(
            SourceParameter { auto_volume: flag, ..parameter },
        ),
        Event::FixedVolumeChanged(_, volume) => Some(
            SourceParameter { fixed_volume: volume, ..parameter },
        ),
        Event::EnvelopeAsExpressionFlagToggled(_, flag) => Some(
            SourceParameter { envelope_as_expression: flag, ..parameter },
        ),
        Event::EchoAsEffect1FlagToggled(_, flag) => Some(
            SourceParameter { echo_as_effect1: flag, ..parameter },
        ),
        Event::CenterNoteOctaveUpClicked(_) => if parameter.center_note + center_note::OCTAVE_NOTE
            <= u16::MAX {
            Some(
                SourceParameter {
                    center_note: (parameter.center_note + center_note::OCTAVE_NOTE) as u16,
                    ..parameter
                },
            )
        } else {
            None
        },
        Event::CenterNoteOctaveDownClicked(_) => if parameter.center_note
            >= center_note::OCTAVE_NOTE {
            Some(
                SourceParameter {
                    center_note: (parameter.center_note - center_note::OCTAVE_NOTE) as u16,
                    ..parameter
                },
            )
        } else {
            None
        },
        Event::CenterNoteEstimated(_, steps) => Some(
            SourceParameter {
                center_note: center_note::spec_clamp(
                    steps as int,
                    0,
                    center_note::MAX_ESTIMATED_NOTE as int,
                ) as u16,
                ..parameter
            },
        ),
        _ => None,
    }
}

/// The source that an event edits, if it edits one.
pub open spec fn spec_edited_source(event: Event) -> Option<u8> {
    match event {
        Event::SourceMuteFlagToggled(source, _) => Some(source),
        Event::ProgramSelected(source, _) => Some(source),
        Event::CenterNoteIntChanged(source, _) => Some(source),
        Event::CenterNoteFractionChanged(source, _) => Some(source),
        Event::NoteOnVelocityChanged(source, _) => Some(source),
        Event::PitchBendWidthChanged(source, _) => Some(source),
        Event::EnablePitchBendFlagToggled(source, _) => Some(source),
        Event::AutoPanFlagToggled(source, _) => Some(source),
        Event::FixedPanChanged(source, _) => Some(source),
        Event::AutoVolumeFlagToggled(source, _) => Some(source),
        Event::FixedVolumeChanged(source, _) => Some(source),
        Event::EnvelopeAsExpressionFlagToggled(source, _) => Some(source),
        Event::EchoAsEffect1FlagToggled(source, _) => Some(source),
        Event::CenterNoteOctaveUpClicked(source) => Some(source),
        Event::CenterNoteOctaveDownClicked(source) => Some(source),
        Event::CenterNoteEstimated(source, _) => Some(source),
        _ => None,
    }
}

/// Whether an edit changes what the instrument of a source sounds like, so
/// that it is played where previews are wished.
pub open spec fn spec_is_audible_edit(event: Event) -> bool {
    match event {
        Event::ProgramSelected(_, _) => true,
        Event::CenterNoteIntChanged(_, _) => true,
        Event::NoteOnVelocityChanged(_, _) => true,
        Event::CenterNoteOctaveUpClicked(_) => true,
        Event::CenterNoteOctaveDownClicked(_) => true,
        _ => false,
    }
}

/// The session and the actions after an event that edits the parameter of
/// `source`. A source that the session does not know, and an edit that is
/// out of range, change nothing and ask for nothing.
pub open spec fn spec_edit(state: SessionView, source: u8, event: Event) -> (
    SessionView,
    Seq<Action>,
) {
    if state.source_parameter.contains_key(source) {
        match spec_edited(state.source_parameter[source], event) {
            Some(parameter) => (
                SessionView {
                    source_parameter: state.source_parameter.insert(source, parameter),
                    ..state
                },
                if spec_is_audible_edit(event) {
                    spec_audible_edit_actions(state, source)
                } else {
                    seq![Action::ApplySourceParameters]
                },
            ),
            None => (state, Seq::empty()),
        }
    } else {
        (state, Seq::empty())
    }
}

/// The session after an event, and what it asks for.
pub open spec fn spec_update(state: SessionView, event: Event) -> (SessionView, Seq<Action>) {
    match event {
        Event::OpenFile => (
            SessionView { playing: false, ..state },
            if state.playing {
                seq![Action::StopPlayback, Action::CloseSecondaryWindows, Action::ShowOpenDialog]
            } else {
                seq![Action::CloseSecondaryWindows, Action::ShowOpenDialog]
            },
        ),
        Event::SpcFileLoaded { duration_sec } => (
            SessionView {
                file_loaded: true,
                file_duration_sec: duration_sec,
                midi_output_configure: MIDIOutputConfigure {
                    output_duration_msec: spec_output_duration_msec(duration_sec),
                    ..state.midi_output_configure
                },
                ..state
            },
            seq![
                Action::Analyze {
                    duration_sec: if duration_sec > 0 {
                        duration_sec
                    } else {
                        DEFAULT_ANALYZING_TIME_SEC
                    },
                },
                Action::ResetEmulators,
                Action::ResetCounters,
            ],
        ),
        Event::SaveSmf => (
            state,
            if state.file_loaded {
                seq![Action::SaveSmf]
            } else {
                Seq::empty()
            },
        ),
        Event::SaveJson => (
            state,
            if state.file_loaded {
                seq![Action::SaveJson]
            } else {
                Seq::empty()
            },
        ),
        Event::SourcePlayStartRequest(source) => if state.playing {
            (SessionView { playing: false, ..state }, seq![Action::StopPlayback])
        } else {
            (state, seq![Action::StartSourcePreview(source)])
        },
        Event::SourcePlayLoopFlagToggled(flag) => (
            SessionView { preview_loop: flag, ..state },
            Seq::empty(),
        ),
        Event::SourceMidiPreviewFlagToggled(flag) => (
            SessionView { midi_preview: flag, ..state },
            Seq::empty(),
        ),
        Event::PlayStartRequest => if state.playing {
            (SessionView { playing: false, ..state }, seq![Action::StopPlayback])
        } else if state.file_loaded {
            (
                state,
                seq![
                    Action::StartPlayback {
                        pcm_channel_mute: spec_channel_mute_register(
                            state.pcm_spc_mute,
                            state.channel_mute_flags,
                        ),
                        midi_channel_mute: spec_channel_mute_register(
                            state.midi_spc_mute,
                            state.channel_mute_flags,
                        ),
                    },
                ],
            )
        } else {
            (state, Seq::empty())
        },
        Event::PlayStopRequest => (
            SessionView { playing: false, ..state },
            (if state.playing {
                seq![Action::StopPlayback]
            } else {
                Seq::empty()
            }) + (if state.file_loaded {
                seq![Action::ResetEmulators]
            } else {
                Seq::empty()
            }) + seq![Action::ResetCounters],
        ),
        Event::PlaybackStarted => (SessionView { playing: true, ..state }, Seq::empty()),
        Event::PreviewEnded => (SessionView { playing: false, ..state }, Seq::empty()),
        Event::SpcMuteFlagToggled(flag) => if state.file_loaded {
            (
                SessionView { pcm_spc_mute: flag, ..state },
                seq![
                    Action::WritePcmChannelMute(
                        spec_channel_mute_register(flag, state.channel_mute_flags),
                    ),
                ],
            )
        } else {
            (state, Seq::empty())
        },
        Event::MidiMuteFlagToggled(flag) => (
            if state.file_loaded {
                SessionView { midi_spc_mute: flag, ..state }
            } else {
                state
            },
            (if state.file_loaded {
                seq![
                    Action::WriteMidiChannelMute(
                        spec_channel_mute_register(flag, state.channel_mute_flags),
                    ),
                ]
            } else {
                Seq::empty()
            }) + (if flag {
                seq![Action::SendAllSoundOff]
            } else {
                Seq::empty()
            }),
        ),
        Event::MidiPreviewRequest(source) => (
            state,
            if state.source_parameter.contains_key(source) {
                seq![Action::PreviewMidi(source)]
            } else {
                Seq::empty()
            },
        ),
        Event::SourceParameterUpdate => (state, seq![Action::ApplySourceParameters]),
        Event::BpmChanged(tempo) => (
            SessionView {
                midi_output_configure: MIDIOutputConfigure {
                    beats_per_minute: Tempo {
                        units: if tempo.spec_snapped_to_eighth() <= u32::MAX {
                            tempo.spec_snapped_to_eighth() as u32
                        } else {
                            (tempo.units as int / 8 * 8) as u32
                        },
                    },
                    ..state.midi_output_configure
                },
                ..state
            },
            Seq::empty(),
        ),
        Event::TicksPerQuarterChanged(ticks) => (
            SessionView {
                midi_output_configure: MIDIOutputConfigure {
                    ticks_per_quarter: ticks,
                    ..state.midi_output_configure
                },
                ..state
            },
            Seq::empty(),
        ),
        Event::UpdatePeriodChanged(period) => (
            SessionView {
                midi_output_configure: MIDIOutputConfigure {
                    playback_parameter_update_period: period,
                    ..state.midi_output_configure
                },
                ..state
            },
            seq![Action::ApplySourceParameters],
        ),
        Event::DurationChanged(duration) => (
            SessionView {
                midi_output_configure: MIDIOutputConfigure {
                    output_duration_msec: duration,
                    ..state.midi_output_configure
                },
                ..state
            },
            Seq::empty(),
        ),
        Event::ClockUpFactorChanged(factor) => (
            SessionView {
                midi_output_configure: MIDIOutputConfigure {
                    spc_clockup_factor: factor,
                    ..state.midi_output_configure
                },
                ..state
            },
            Seq::empty(),
        ),
        Event::MuteChannel(voice, flag) => if state.file_loaded && voice < 8 {
            let flags = spec_with_channel_mute(state.channel_mute_flags, voice, flag);
            (
                SessionView { channel_mute_flags: flags, ..state },
                seq![
                    Action::WriteMidiChannelMute(
                        spec_channel_mute_register(state.midi_spc_mute, flags),
                    ),
                    Action::WritePcmChannelMute(
                        spec_channel_mute_register(state.pcm_spc_mute, flags),
                    ),
                ] + (if flag {
                    seq![Action::SendChannelSoundOff(voice)]
                } else {
                    Seq::empty()
                }),
            )
        } else {
            (state, Seq::empty())
        },
        Event::SoloChannel(voice) => if state.file_loaded && voice < 8 {
            let flags = spec_solo_flags(voice);
            (
                SessionView { channel_mute_flags: flags, ..state },
                seq![
                    Action::WriteMidiChannelMute(
                        spec_channel_mute_register(state.midi_spc_mute, flags),
                    ),
                    Action::WritePcmChannelMute(
                        spec_channel_mute_register(state.pcm_spc_mute, flags),
                    ),
                ] + spec_silence_others(voice, 8),
            )
        } else {
            (state, Seq::empty())
        },
        Event::BpmAnalyzeRequest => (
            state,
            if state.file_loaded {
                seq![Action::EstimateTempo { duration_sec: state.file_duration_sec }]
            } else {
                Seq::empty()
            },
        ),
        Event::TempoEstimated(tempo) => (
            SessionView {
                midi_output_configure: MIDIOutputConfigure {
                    beats_per_minute: tempo,
                    ..state.midi_output_configure
                },
                ..state
            },
            Seq::empty(),
        ),
        Event::BpmDoubleButtonClicked => (
            if state.midi_output_configure.beats_per_minute.units * 2 <= MAX_BEATS_PER_MINUTE
                * UNITS_PER_BPM {
                SessionView {
                    midi_output_configure: MIDIOutputConfigure {
                        beats_per_minute: Tempo {
                            units: (state.midi_output_configure.beats_per_minute.units * 2) as u32,
                        },
                        ..state.midi_output_configure
                    },
                    ..state
                }
            } else {
                state
            },
            Seq::empty(),
        ),
        Event::BpmHalfButtonClicked => (
            if state.midi_output_configure.beats_per_minute.units / 2 >= MIN_BEATS_PER_MINUTE
                * UNITS_PER_BPM {
                SessionView {
                    midi_output_configure: MIDIOutputConfigure {
                        beats_per_minute: Tempo {
                            units: state.midi_output_configure.beats_per_minute.units / 2,
                        },
                        ..state.midi_output_configure
                    },
                    ..state
                }
            } else {
                state
            },
            Seq::empty(),
        ),
        Event::SourceReanalyzeRequest => (
            state,
            if state.file_loaded {
                seq![
                    Action::Analyze {
                        duration_sec: spec_reanalysis_duration_sec(
                            state.midi_output_configure.output_duration_msec,
                        ),
                    },
                ]
            } else {
                Seq::empty()
            },
        ),
        _ => match spec_edited_source(event) {
            Some(source) => spec_edit(state, source, event),
            None => (state, Seq::empty()),
        },
    }
}

/// The parameter of a source after an event that edits one.
fn edited(parameter: SourceParameter, event: Event) -> (updated: Option<SourceParameter>)
    ensures
        updated == spec_edited(parameter, event),
{
    let mut parameter = parameter;
    match event {
        Event::SourceMuteFlagToggled(_, flag) => {
            parameter.mute = flag;
        },
        Event::ProgramSelected(_, program) => {
            parameter.program = program;
        },
        Event::CenterNoteIntChanged(_, note) => {
            parameter.set_center_note_int(note);
        },
        Event::CenterNoteFractionChanged(_, steps) => {
            parameter.set_center_note_fraction(steps);
        },
        Event::NoteOnVelocityChanged(_, velocity) => {
            parameter.noteon_velocity = velocity;
        },
        Event::PitchBendWidthChanged(_, width) => {
            parameter.pitch_bend_width = width;
        },
        Event::EnablePitchBendFlagToggled(_, flag) => {
            parameter.enable_pitch_bend = flag;
        },
        Event::AutoPanFlagToggled(_, flag) => {
            parameter.auto_pan = flag;
        },
        Event::FixedPanChanged(_, pan) => {
            parameter.fixed_pan = pan;
        },
        Event::AutoVolumeFlagToggled(_, flag) => {
            parameter.auto_volume = flag;
        },
        Event::FixedVolumeChanged(_, volume) => {
            parameter.fixed_volume = volume;
        },
        Event::EnvelopeAsExpressionFlagToggled(_, flag) => {
            parameter.envelope_as_expression = flag;
        },
        Event::EchoAsEffect1FlagToggled(_, flag) => {
            parameter.echo_as_effect1 = flag;
        },
        Event::CenterNoteOctaveUpClicked(_) => {
            if !parameter.center_note_octave_up() {
                return None;
            }
        },
        Event::CenterNoteOctaveDownClicked(_) => {
            if !parameter.center_note_octave_down() {
                return None;
            }
        },
        Event::CenterNoteEstimated(_, steps) => {
            parameter.center_note = center_note::from_estimate_steps(steps);
        },
        _ => {
            return None;
        },
    }
    Some(parameter)
}

/// Whether an edit changes what the instrument of a source sounds like.
fn is_audible_edit(event: Event) -> (audible: bool)
    ensures
        audible == spec_is_audible_edit(event),
{
    match event {
        Event::ProgramSelected(_, _) => true,
        Event::CenterNoteIntChanged(_, _) => true,
        Event::NoteOnVelocityChanged(_, _) => true,
        Event::CenterNoteOctaveUpClicked(_) => true,
        Event::CenterNoteOctaveDownClicked(_) => true,
        _ => false,
    }
}

impl Session {
    /// The session before any file is open: nothing is muted, previews are
    /// wished and loop.
    pub fn new() -> (session: Session)
        ensures
            session@ == (SessionView {
                source_parameter: Map::empty(),
                midi_output_configure: MIDIOutputConfigure::spec_new(),
                file_loaded: false,
                file_duration_sec: 0,
                playing: false,
                pcm_spc_mute: false,
                midi_spc_mute: false,
                midi_preview: true,
                preview_loop: true,
                channel_mute_flags: 0,
            }),
    {
        Session {
            source_parameter: BTreeMap::new(),
            midi_output_configure: MIDIOutputConfigure::new(),
            file_loaded: false,
            file_duration_sec: 0,
            playing: false,
            pcm_spc_mute: false,
            midi_spc_mute: false,
            midi_preview: true,
            preview_loop: true,
            channel_mute_flags: 0,
        }
    }

    /// Takes the outcome of an analysis: the sources found and what each
    /// starts with replace all that was known of sources.
    pub fn set_analysis(&mut self, parameters: BTreeMap<u8, SourceParameter>)
        ensures
            final(self)@ == (SessionView { source_parameter: parameters@, ..old(self)@ }),
    {
        self.source_parameter = parameters;
    }

    /// Takes in saved settings: the export settings replace those of the
    /// session; each saved source replaces what was known of that source,
    /// and the sources not saved stay as they are.
    pub fn merge_saved(
        &mut self,
        configure: MIDIOutputConfigure,
        parameters: &BTreeMap<u8, SourceParameter>,
    )
        ensures
            final(self)@ == (SessionView {
                midi_output_configure: configure,
                source_parameter: old(self)@.source_parameter.union_prefer_right(parameters@),
                ..old(self)@
            }),
    {
        self.midi_output_configure = configure;
        let ghost before = self.source_parameter@;
        let mut source: u8 = 0;
        loop
            invariant_except_break
                self.source_parameter@ == spec_merged_below(before, parameters@, source as int),
                self.midi_output_configure == configure,
                self.file_loaded == old(self).file_loaded,
                self.file_duration_sec == old(self).file_duration_sec,
                self.playing == old(self).playing,
                self.pcm_spc_mute == old(self).pcm_spc_mute,
                self.midi_spc_mute == old(self).midi_spc_mute,
                self.midi_preview == old(self).midi_preview,
                self.preview_loop == old(self).preview_loop,
                self.channel_mute_flags == old(self).channel_mute_flags,
            ensures
                self.source_parameter@ == spec_merged_below(before, parameters@, 256),
                self.midi_output_configure == configure,
                self.file_loaded == old(self).file_loaded,
                self.file_duration_sec == old(self).file_duration_sec,
                self.playing == old(self).playing,
                self.pcm_spc_mute == old(self).pcm_spc_mute,
                self.midi_spc_mute == old(self).midi_spc_mute,
                self.midi_preview == old(self).midi_preview,
                self.preview_loop == old(self).preview_loop,
                self.channel_mute_flags == old(self).channel_mute_flags,
            decreases 255 - source,
        {
            proof {
                assert(spec_merged_below(before, parameters@, source as int + 1)
                    =~= if parameters@.contains_key(source) {
                    spec_merged_below(before, parameters@, source as int).insert(
                        source,
                        parameters@[source],
                    )
                } else {
                    spec_merged_below(before, parameters@, source as int)
                });
            }
            match parameters.get(&source) {
                Some(parameter) => {
                    self.source_parameter.insert(source, *parameter);
                },
                None => {},
            }
            if source == 255 {
                break ;
            }
            source = source + 1;
        }
        assert(spec_merged_below(before, parameters@, 256) =~= before.union_prefer_right(
            parameters@,
        ));
    }

    /// Changes the parameter of a source as the event says.
    fn edit(&mut self, source: u8, event: Event) -> (actions: Vec<Action>)
        requires
            spec_edited_source(event) == Some(source),
        ensures
            (final(self)@, actions@) == spec_edit(old(self)@, source, event),
    {
        let mut actions: Vec<Action> = Vec::new();
        let parameter: SourceParameter = match self.source_parameter.get(&source) {
            Some(parameter) => *parameter,
            None => {
                return actions;
            },
        };
        match edited(parameter, event) {
            Some(updated) => {
                self.source_parameter.insert(source, updated);
                if is_audible_edit(event) && self.midi_preview {
                    actions.push(Action::PreviewMidi(source));
                }
                actions.push(Action::ApplySourceParameters);
                assert(actions@ =~= if spec_is_audible_edit(event) {
                    spec_audible_edit_actions(old(self)@, source)
                } else {
                    seq![Action::ApplySourceParameters]
                });
            },
            None => {},
        }
        actions
    }

    /// Takes in an event: brings the session to its next state and returns
    /// what is to be done, in the order in which it is to be done.
    pub fn update(&mut self, event: Event) -> (actions: Vec<Action>)
        ensures
            (final(self)@, actions@) == spec_update(old(self)@, event),
    {
        let mut actions: Vec<Action> = Vec::new();
        match event {
            Event::OpenFile => {
                if self.playing {
                    self.playing = false;
                    actions.push(Action::StopPlayback);
                }
                actions.push(Action::CloseSecondaryWindows);
                actions.push(Action::ShowOpenDialog);
            },
            Event::SpcFileLoaded { duration_sec } => {
                self.file_loaded = true;
                self.file_duration_sec = duration_sec;
                self.midi_output_configure.set_duration_from_file(duration_sec);
                actions.push(
                    Action::Analyze { duration_sec: crate::types::analyzing_time_sec(duration_sec) },
                );
                actions.push(Action::ResetEmulators);
                actions.push(Action::ResetCounters);
            },
            Event::SaveSmf => {
                if self.file_loaded {
                    actions.push(Action::SaveSmf);
                }
            },
            Event::SaveJson => {
                if self.file_loaded {
                    actions.push(Action::SaveJson);
                }
            },
            Event::SourcePlayStartRequest(source) => {
                if self.playing {
                    self.playing = false;
                    actions.push(Action::StopPlayback);
                } else {
                    actions.push(Action::StartSourcePreview(source));
                }
            },
            Event::SourcePlayLoopFlagToggled(flag) => {
                self.preview_loop = flag;
            },
            Event::SourceMidiPreviewFlagToggled(flag) => {
                self.midi_preview = flag;
            },
            Event::PlayStartRequest => {
                if self.playing {
                    self.playing = false;
                    actions.push(Action::StopPlayback);
                } else if self.file_loaded {
                    actions.push(
                        Action::StartPlayback {
                            pcm_channel_mute: channel_mute_register(
                                self.pcm_spc_mute,
                                self.channel_mute_flags,
                            ),
                            midi_channel_mute: channel_mute_register(
                                self.midi_spc_mute,
                                self.channel_mute_flags,
                            ),
                        },
                    );
                }
            },
            Event::PlayStopRequest => {
                if self.playing {
                    self.playing = false;
                    actions.push(Action::StopPlayback);
                }
                if self.file_loaded {
                    actions.push(Action::ResetEmulators);
                }
                actions.push(Action::ResetCounters);
            },
            Event::PlaybackStarted => {
                self.playing = true;
            },
            Event::PreviewEnded => {
                self.playing = false;
            },
            Event::SpcMuteFlagToggled(flag) => {
                if self.file_loaded {
                    actions.push(
                        Action::WritePcmChannelMute(
                            channel_mute_register(flag, self.channel_mute_flags),
                        ),
                    );
                    self.pcm_spc_mute = flag;
                }
            },
            Event::MidiMuteFlagToggled(flag) => {
                if self.file_loaded {
                    actions.push(
                        Action::WriteMidiChannelMute(
                            channel_mute_register(flag, self.channel_mute_flags),
                        ),
                    );
                    self.midi_spc_mute = flag;
                }
                if flag {
                    actions.push(Action::SendAllSoundOff);
                }
            },
            Event::MidiPreviewRequest(source) => {
                if self.source_parameter.contains_key(&source) {
                    actions.push(Action::PreviewMidi(source));
                }
            },
            Event::SourceParameterUpdate => {
                actions.push(Action::ApplySourceParameters);
            },
            Event::BpmChanged(tempo) => {
                self.midi_output_configure.beats_per_minute = tempo.snapped_to_eighth();
            },
            Event::TicksPerQuarterChanged(ticks) => {
                self.midi_output_configure.ticks_per_quarter = ticks;
            },
            Event::UpdatePeriodChanged(period) => {
                self.midi_output_configure.playback_parameter_update_period = period;
                actions.push(Action::ApplySourceParameters);
            },
            Event::DurationChanged(duration) => {
                self.midi_output_configure.output_duration_msec = duration;
            },
            Event::ClockUpFactorChanged(factor) => {
                self.midi_output_configure.spc_clockup_factor = factor;
            },
            Event::MuteChannel(voice, flag) => {
                if self.file_loaded && voice < 8 {
                    let flags: u8 = with_channel_mute(self.channel_mute_flags, voice, flag);
                    actions.push(
                        Action::WriteMidiChannelMute(
                            channel_mute_register(self.midi_spc_mute, flags),
                        ),
                    );
                    actions.push(
                        Action::WritePcmChannelMute(channel_mute_register(self.pcm_spc_mute, flags)),
                    );
                    self.channel_mute_flags = flags;
                    if flag {
                        actions.push(Action::SendChannelSoundOff(voice));
                    }
                }
            },
            Event::SoloChannel(voice) => {
                if self.file_loaded && voice < 8 {
                    let flags: u8 = solo_flags(voice);
                    actions.push(
                        Action::WriteMidiChannelMute(
                            channel_mute_register(self.midi_spc_mute, flags),
                        ),
                    );
                    actions.push(
                        Action::WritePcmChannelMute(channel_mute_register(self.pcm_spc_mute, flags)),
                    );
                    self.channel_mute_flags = flags;
                    let ghost head = actions@;
                    let mut other: u8 = 0;
                    while other < 8
                        invariant
                            other <= 8,
                            actions@ == head + spec_silence_others(voice, other as int),
                        decreases 8 - other,
                    {
                        if other != voice {
                            actions.push(Action::SendChannelSoundOff(other));
                        }
                        assert(actions@ =~= head + spec_silence_others(voice, other as int + 1));
                        other = other + 1;
                    }
                }
            },
            Event::BpmAnalyzeRequest => {
                if self.file_loaded {
                    actions.push(Action::EstimateTempo { duration_sec: self.file_duration_sec });
                }
            },
            Event::TempoEstimated(tempo) => {
                self.midi_output_configure.beats_per_minute = tempo;
            },
            Event::BpmDoubleButtonClicked => {
                match self.midi_output_configure.beats_per_minute.doubled() {
                    Some(tempo) => {
                        self.midi_output_configure.beats_per_minute = tempo;
                    },
                    None => {},
                }
            },
            Event::BpmHalfButtonClicked => {
                match self.midi_output_configure.beats_per_minute.halved() {
                    Some(tempo) => {
                        self.midi_output_configure.beats_per_minute = tempo;
                    },
                    None => {},
                }
            },
            Event::SourceReanalyzeRequest => {
                if self.file_loaded {
                    actions.push(
                        Action::Analyze {
                            duration_sec: self.midi_output_configure.reanalysis_duration_sec(),
                        },
                    );
                }
            },
            Event::SourceMuteFlagToggled(source, _) => {
                return self.edit(source, event);
            },
            Event::ProgramSelected(source, _) => {
                return self.edit(source, event);
            },
            Event::CenterNoteIntChanged(source, _) => {
                return self.edit(source, event);
            },
            Event::CenterNoteFractionChanged(source, _) => {
                return self.edit(source, event);
            },
            Event::NoteOnVelocityChanged(source, _) => {
                return self.edit(source, event);
            },
            Event::PitchBendWidthChanged(source, _) => {
                return self.edit(source, event);
            },
            Event::EnablePitchBendFlagToggled(source, _) => {
                return self.edit(source, event);
            },
            Event::AutoPanFlagToggled(source, _) => {
                return self.edit(source, event);
            },
            Event::FixedPanChanged(source, _) => {
                return self.edit(source, event);
            },
            Event::AutoVolumeFlagToggled(source, _) => {
                return self.edit(source, event);
            },
            Event::FixedVolumeChanged(source, _) => {
                return self.edit(source, event);
            },
            Event::EnvelopeAsExpressionFlagToggled(source, _) => {
                return self.edit(source, event);
            },
            Event::EchoAsEffect1FlagToggled(source, _) => {
                return self.edit(source, event);
            },
            Event::CenterNoteOctaveUpClicked(source) => {
                return self.edit(source, event);
            },
            Event::CenterNoteOctaveDownClicked(source) => {
                return self.edit(source, event);
            },
            Event::CenterNoteEstimated(source, _) => {
                return self.edit(source, event);
            },
        }
        assert(actions@ =~= spec_update(old(self)@, event).1);
        actions
    }
}

/// What is known of the sources after the saved sources with a number
/// below `limit` were taken in.
pub open spec fn spec_merged_below(
    known: Map<u8, SourceParameter>,
    saved: Map<u8, SourceParameter>,
    limit: int,
) -> Map<u8, SourceParameter> {
    Map::new(
        |source: u8| known.contains_key(source) || (source < limit && saved.contains_key(source)),
        |source: u8|
            if source < limit && saved.contains_key(source) {
                saved[source]
            } else {
                known[source]
            },
    )
}

/// A stop brings the session to the state before any playback: no stream
/// runs, and where a file is open both emulators are built anew, so that
/// nothing of what was played stays behind.
pub proof fn lemma_stop_rebuilds_the_emulators(state: SessionView)
    ensures
        !spec_update(state, Event::PlayStopRequest).0.playing,
        state.file_loaded ==> spec_update(state, Event::PlayStopRequest).1.contains(
            Action::ResetEmulators,
        ),
        spec_update(state, Event::PlayStopRequest).1.last() == Action::ResetCounters,
{
    let actions = spec_update(state, Event::PlayStopRequest).1;
    if state.file_loaded {
        if state.playing {
            assert(actions[1] == Action::ResetEmulators);
        } else {
            assert(actions[0] == Action::ResetEmulators);
        }
    }
}

/// Muting a voice silences it at once: the mute register of the protocol
/// encoder gets the bit of the voice, and the channel of the voice is told
/// to stop sounding.
pub proof fn lemma_muting_a_voice_silences_it(state: SessionView, voice: u8)
    requires
        state.file_loaded,
        voice < 8,
    ensures
        spec_update(state, Event::MuteChannel(voice, true)).1.len() == 3,
        spec_update(state, Event::MuteChannel(voice, true)).1[0] matches Action::WriteMidiChannelMute(
            value,
        ) && crate::analyzer::spec_voice_bit(value, voice as int),
        spec_update(state, Event::MuteChannel(voice, true)).1[2] == Action::SendChannelSoundOff(
            voice,
        ),
        crate::analyzer::spec_voice_bit(
            spec_update(state, Event::MuteChannel(voice, true)).0.channel_mute_flags,
            voice as int,
        ),
{
    lemma_muted_voice_is_muted_in_register(state.channel_mute_flags, voice, state.midi_spc_mute);
    lemma_mute_then_unmute(state.channel_mute_flags, voice);
}

/// An event changes the parameters of no source but the one it names.
pub proof fn lemma_update_leaves_other_sources_alone(state: SessionView, event: Event, other: u8)
    requires
        spec_edited_source(event) != Some(other),
    ensures
        spec_update(state, event).0.source_parameter.contains_key(other)
            == state.source_parameter.contains_key(other),
        state.source_parameter.contains_key(other) ==> spec_update(
            state,
            event,
        ).0.source_parameter[other] == state.source_parameter[other],
{
}

/// An event neither adds a source to the session nor takes one away: only
/// the outcome of an analysis and saved settings do.
pub proof fn lemma_update_keeps_the_sources(state: SessionView, event: Event)
    ensures
        spec_update(state, event).0.source_parameter.dom() == state.source_parameter.dom(),
{
    assert(spec_update(state, event).0.source_parameter.dom() =~= state.source_parameter.dom());
}

/// Muting a voice and then letting it be heard again brings back flags
/// in which the voice is heard and the others are as before.
pub proof fn lemma_mute_then_unmute(flags: u8, voice: u8)
    requires
        voice < 8,
    ensures
        spec_with_channel_mute(spec_with_channel_mute(flags, voice, true), voice, false)
            == spec_with_channel_mute(flags, voice, false),
        !crate::analyzer::spec_voice_bit(spec_with_channel_mute(flags, voice, false), voice as int),
        crate::analyzer::spec_voice_bit(spec_with_channel_mute(flags, voice, true), voice as int),
{
    assert(((flags | (1u8 << voice)) & !(1u8 << voice)) == (flags & !(1u8 << voice)))
        by (bit_vector);
    assert(voice < 8 ==> ((flags & !(1u8 << voice)) >> voice) & 1u8 == 0) by (bit_vector);
    assert(voice < 8 ==> ((flags | (1u8 << voice)) >> voice) & 1u8 == 1) by (bit_vector);
}

/// A solo mutes every voice but the one chosen.
pub proof fn lemma_solo_mutes_the_others(voice: u8, other: u8)
    requires
        voice < 8,
        other < 8,
    ensures
        crate::analyzer::spec_voice_bit(spec_solo_flags(voice), other as int) == (other != voice),
{
    assert(voice < 8 && other < 8 ==> ((((!(1u8 << voice)) >> other) & 1u8 != 0) == (other
        != voice))) by (bit_vector);
}

/// Once a voice is muted, the mute register of an emulator has its bit
/// set, whether all voices are muted or not.
pub proof fn lemma_muted_voice_is_muted_in_register(flags: u8, voice: u8, all_muted: bool)
    requires
        voice < 8,
    ensures
        crate::analyzer::spec_voice_bit(
            spec_channel_mute_register(all_muted, spec_with_channel_mute(flags, voice, true)),
            voice as int,
        ),
{
    assert(voice < 8 ==> ((flags | (1u8 << voice)) >> voice) & 1u8 == 1) by (bit_vector);
    assert(voice < 8 ==> (0xFFu8 >> voice) & 1u8 == 1) by (bit_vector);
}

} // verus!
