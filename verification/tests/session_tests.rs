use spc2midi_tsuu::program::Program;
use spc2midi_tsuu::session::channel_mute_register;
use spc2midi_tsuu::session::solo_flags;
use spc2midi_tsuu::session::with_channel_mute;
use spc2midi_tsuu::session::Action;
use spc2midi_tsuu::session::Event;
use spc2midi_tsuu::session::Session;
use spc2midi_tsuu::tempo::Tempo;
use spc2midi_tsuu::types::analyzing_time_sec;
use spc2midi_tsuu::types::MIDIOutputConfigure;
use spc2midi_tsuu::types::SourceParameter;
use std::collections::BTreeMap;

fn loaded_session() -> Session {
    let mut session = Session::new();
    let actions = session.update(Event::SpcFileLoaded { duration_sec: 90 });
    assert_eq!(
        actions,
        vec![Action::Analyze { duration_sec: 90 }, Action::ResetEmulators, Action::ResetCounters]
    );
    let mut parameters = BTreeMap::new();
    parameters.insert(0u8, SourceParameter::initial(false, 60 << 9));
    parameters.insert(5u8, SourceParameter::initial(true, 40 << 9));
    session.set_analysis(parameters);
    session
}

#[test]
fn parameter_set_test() {
    let mut app = loaded_session();

    let _ = app.update(Event::SourceMuteFlagToggled(0, true));
    assert_eq!(app.source_parameter[&0].mute, true);
    let _ = app.update(Event::SourceMuteFlagToggled(0, false));
    assert_eq!(app.source_parameter[&0].mute, false);
    let _ = app.update(Event::ProgramSelected(0, Program::BrightAcoustic));
    assert_eq!(app.source_parameter[&0].program, Program::BrightAcoustic);
    let _ = app.update(Event::CenterNoteIntChanged(0, 0));
    let _ = app.update(Event::CenterNoteFractionChanged(0, 0));
    assert_eq!(app.source_parameter[&0].center_note, 0);
    let _ = app.update(Event::CenterNoteIntChanged(0, 127));
    let _ = app.update(Event::CenterNoteFractionChanged(0, 512));
    assert_eq!(app.source_parameter[&0].center_note, 0xFFFF);
    let _ = app.update(Event::NoteOnVelocityChanged(0, 1));
    assert_eq!(app.source_parameter[&0].noteon_velocity, 1);
    let _ = app.update(Event::PitchBendWidthChanged(0, 0));
    assert_eq!(app.source_parameter[&0].pitch_bend_width, 0);
    let _ = app.update(Event::PitchBendWidthChanged(0, 48));
    assert_eq!(app.source_parameter[&0].pitch_bend_width, 48);
    let _ = app.update(Event::EnablePitchBendFlagToggled(0, true));
    assert_eq!(app.source_parameter[&0].enable_pitch_bend, true);
    let _ = app.update(Event::EnablePitchBendFlagToggled(0, false));
    assert_eq!(app.source_parameter[&0].enable_pitch_bend, false);
    let _ = app.update(Event::AutoPanFlagToggled(0, true));
    assert_eq!(app.source_parameter[&0].auto_pan, true);
    let _ = app.update(Event::AutoPanFlagToggled(0, false));
    assert_eq!(app.source_parameter[&0].auto_pan, false);
    let _ = app.update(Event::FixedPanChanged(0, 0));
    assert_eq!(app.source_parameter[&0].fixed_pan, 0);
    let _ = app.update(Event::FixedPanChanged(0, 127));
    assert_eq!(app.source_parameter[&0].fixed_pan, 127);
    let _ = app.update(Event::AutoVolumeFlagToggled(0, true));
    assert_eq!(app.source_parameter[&0].auto_volume, true);
    let _ = app.update(Event::AutoVolumeFlagToggled(0, false));
    assert_eq!(app.source_parameter[&0].auto_volume, false);
    let _ = app.update(Event::FixedVolumeChanged(0, 0));
    assert_eq!(app.source_parameter[&0].fixed_volume, 0);
    let _ = app.update(Event::FixedVolumeChanged(0, 127));
    assert_eq!(app.source_parameter[&0].fixed_volume, 127);
    let _ = app.update(Event::EnvelopeAsExpressionFlagToggled(0, true));
    assert_eq!(app.source_parameter[&0].envelope_as_expression, true);
    let _ = app.update(Event::EnvelopeAsExpressionFlagToggled(0, false));
    assert_eq!(app.source_parameter[&0].envelope_as_expression, false);
    let _ = app.update(Event::EchoAsEffect1FlagToggled(0, true));
    assert_eq!(app.source_parameter[&0].echo_as_effect1, true);
    let _ = app.update(Event::EchoAsEffect1FlagToggled(0, false));
    assert_eq!(app.source_parameter[&0].echo_as_effect1, false);
    // the other source was never touched
    assert_eq!(app.source_parameter[&5], SourceParameter::initial(true, 40 << 9));
}

#[test]
fn configure_set_test() {
    let mut app = loaded_session();

    let _ = app.update(Event::BpmChanged(Tempo::from_whole(32)));
    assert_eq!(app.midi_output_configure.beats_per_minute, Tempo::from_whole(32));
    let _ = app.update(Event::BpmChanged(Tempo::from_whole(240)));
    assert_eq!(app.midi_output_configure.beats_per_minute, Tempo::from_whole(240));
    let _ = app.update(Event::TicksPerQuarterChanged(24));
    assert_eq!(app.midi_output_configure.ticks_per_quarter, 24);
    let _ = app.update(Event::TicksPerQuarterChanged(960));
    assert_eq!(app.midi_output_configure.ticks_per_quarter, 960);
    let _ = app.update(Event::UpdatePeriodChanged(0));
    assert_eq!(app.midi_output_configure.playback_parameter_update_period, 0);
    let _ = app.update(Event::UpdatePeriodChanged(255));
    assert_eq!(app.midi_output_configure.playback_parameter_update_period, 255);
    let _ = app.update(Event::DurationChanged(0));
    assert_eq!(app.midi_output_configure.output_duration_msec, 0);
    let _ = app.update(Event::DurationChanged(u64::MAX));
    assert_eq!(app.midi_output_configure.output_duration_msec, u64::MAX);
    let _ = app.update(Event::ClockUpFactorChanged(32));
    assert_eq!(app.midi_output_configure.spc_clockup_factor, 32);
}

#[test]
fn spc_file_open_test() {
    let mut app = Session::new();
    assert!(!app.file_loaded);
    let actions = app.update(Event::SpcFileLoaded { duration_sec: 0 });
    assert!(app.file_loaded);
    assert_eq!(app.file_duration_sec, 0);
    assert_eq!(app.midi_output_configure.output_duration_msec, 60_000);
    assert_eq!(
        actions,
        vec![Action::Analyze { duration_sec: 120 }, Action::ResetEmulators, Action::ResetCounters]
    );
    let actions = app.update(Event::SpcFileLoaded { duration_sec: 185 });
    assert_eq!(app.file_duration_sec, 185);
    assert_eq!(app.midi_output_configure.output_duration_msec, 185_000);
    assert_eq!(actions[0], Action::Analyze { duration_sec: 185 });
}

#[test]
fn new_session_has_default_settings() {
    let session = Session::new();
    assert!(session.source_parameter.is_empty());
    assert_eq!(session.midi_output_configure, MIDIOutputConfigure::new());
    assert_eq!(session.midi_output_configure.output_duration_msec, 60_000);
    assert_eq!(session.midi_output_configure.playback_parameter_update_period, 5);
    assert_eq!(session.midi_output_configure.beats_per_minute, Tempo::from_whole(120));
    assert_eq!(session.midi_output_configure.ticks_per_quarter, 480);
    assert_eq!(session.midi_output_configure.spc_clockup_factor, 1);
    assert!(!session.playing);
    assert!(!session.pcm_spc_mute);
    assert!(!session.midi_spc_mute);
    assert!(session.midi_preview);
    assert!(session.preview_loop);
    assert_eq!(session.channel_mute_flags, 0);
    assert_eq!(analyzing_time_sec(0), 120);
    assert_eq!(analyzing_time_sec(7), 7);
}

#[test]
fn initial_parameters_depend_on_the_kind_of_source() {
    let piano = SourceParameter::initial(false, 0x1234);
    assert_eq!(
        piano,
        SourceParameter {
            mute: false,
            program: Program::AcousticGrand,
            center_note: 0x1234,
            noteon_velocity: 100,
            pitch_bend_width: 12,
            envelope_as_expression: false,
            auto_pan: true,
            fixed_pan: 64,
            auto_volume: true,
            fixed_volume: 100,
            enable_pitch_bend: true,
            echo_as_effect1: true,
        }
    );
    let drum = SourceParameter::initial(true, 0x1234);
    assert_eq!(drum.program, Program::AcousticBassDrum);
    assert!(!drum.enable_pitch_bend);
    assert_eq!(SourceParameter { program: piano.program, enable_pitch_bend: true, ..drum }, piano);
}

#[test]
fn audible_edits_ask_for_a_preview() {
    let mut session = loaded_session();
    assert_eq!(
        session.update(Event::ProgramSelected(0, Program::Violin)),
        vec![Action::PreviewMidi(0), Action::ApplySourceParameters]
    );
    assert_eq!(
        session.update(Event::CenterNoteIntChanged(0, 61)),
        vec![Action::PreviewMidi(0), Action::ApplySourceParameters]
    );
    assert_eq!(
        session.update(Event::NoteOnVelocityChanged(5, 3)),
        vec![Action::PreviewMidi(5), Action::ApplySourceParameters]
    );
    assert_eq!(session.update(Event::SourceMidiPreviewFlagToggled(false)), vec![]);
    assert_eq!(
        session.update(Event::ProgramSelected(0, Program::Flute)),
        vec![Action::ApplySourceParameters]
    );
    assert_eq!(session.source_parameter[&0].program, Program::Flute);
}

#[test]
fn silent_edits_only_hand_over_the_parameters() {
    let mut session = loaded_session();
    assert_eq!(
        session.update(Event::SourceMuteFlagToggled(0, true)),
        vec![Action::ApplySourceParameters]
    );
    assert_eq!(
        session.update(Event::CenterNoteFractionChanged(0, 100)),
        vec![Action::ApplySourceParameters]
    );
    assert_eq!(session.source_parameter[&0].center_note, (60 << 9) | 100);
    assert_eq!(
        session.update(Event::CenterNoteEstimated(0, 0xBEEF)),
        vec![Action::ApplySourceParameters]
    );
    assert_eq!(session.source_parameter[&0].center_note, 0xBEEF);
    let _ = session.update(Event::CenterNoteEstimated(0, -1));
    assert_eq!(session.source_parameter[&0].center_note, 0);
    let _ = session.update(Event::CenterNoteEstimated(0, 127 * 512 + 1));
    assert_eq!(session.source_parameter[&0].center_note, 127 << 9);
    let _ = session.update(Event::CenterNoteEstimated(0, i64::MAX));
    assert_eq!(session.source_parameter[&0].center_note, 127 << 9);
}

#[test]
fn edits_of_unknown_sources_do_nothing() {
    let mut session = loaded_session();
    let before = session.source_parameter.clone();
    assert_eq!(session.update(Event::SourceMuteFlagToggled(1, true)), vec![]);
    assert_eq!(session.update(Event::ProgramSelected(1, Program::Violin)), vec![]);
    assert_eq!(session.update(Event::CenterNoteOctaveUpClicked(1)), vec![]);
    assert_eq!(session.update(Event::MidiPreviewRequest(1)), vec![]);
    assert_eq!(session.source_parameter, before);
    assert_eq!(session.update(Event::MidiPreviewRequest(5)), vec![Action::PreviewMidi(5)]);
}

#[test]
fn octave_buttons_stop_at_the_ends_of_the_range() {
    let mut session = loaded_session();
    assert_eq!(
        session.update(Event::CenterNoteOctaveUpClicked(0)),
        vec![Action::PreviewMidi(0), Action::ApplySourceParameters]
    );
    assert_eq!(session.source_parameter[&0].center_note, 72 << 9);
    for _ in 0..4 {
        let _ = session.update(Event::CenterNoteOctaveUpClicked(0));
    }
    assert_eq!(session.source_parameter[&0].center_note, 120 << 9);
    assert_eq!(session.update(Event::CenterNoteOctaveUpClicked(0)), vec![]);
    assert_eq!(session.source_parameter[&0].center_note, 120 << 9);
    for _ in 0..10 {
        let _ = session.update(Event::CenterNoteOctaveDownClicked(0));
    }
    assert_eq!(session.source_parameter[&0].center_note, 0);
    assert_eq!(session.update(Event::CenterNoteOctaveDownClicked(0)), vec![]);
}

#[test]
fn play_requests_toggle_playback() {
    let mut session = Session::new();
    assert_eq!(session.update(Event::PlayStartRequest), vec![]);
    let mut session = loaded_session();
    assert_eq!(
        session.update(Event::PlayStartRequest),
        vec![Action::StartPlayback { pcm_channel_mute: 0, midi_channel_mute: 0 }]
    );
    assert!(!session.playing);
    assert_eq!(session.update(Event::PlaybackStarted), vec![]);
    assert!(session.playing);
    assert_eq!(session.update(Event::PlayStartRequest), vec![Action::StopPlayback]);
    assert!(!session.playing);
    assert_eq!(session.update(Event::SourcePlayStartRequest(5)), vec![Action::StartSourcePreview(5)]);
    let _ = session.update(Event::PlaybackStarted);
    assert_eq!(session.update(Event::SourcePlayStartRequest(5)), vec![Action::StopPlayback]);
    let _ = session.update(Event::PlaybackStarted);
    assert_eq!(session.update(Event::PreviewEnded), vec![]);
    assert!(!session.playing);
}

#[test]
fn stop_resets_the_emulators() {
    let mut session = loaded_session();
    let _ = session.update(Event::PlaybackStarted);
    assert_eq!(
        session.update(Event::PlayStopRequest),
        vec![Action::StopPlayback, Action::ResetEmulators, Action::ResetCounters]
    );
    assert_eq!(
        session.update(Event::PlayStopRequest),
        vec![Action::ResetEmulators, Action::ResetCounters]
    );
    let mut empty = Session::new();
    assert_eq!(empty.update(Event::PlayStopRequest), vec![Action::ResetCounters]);
}

#[test]
fn open_file_stops_playback_first() {
    let mut session = loaded_session();
    assert_eq!(
        session.update(Event::OpenFile),
        vec![Action::CloseSecondaryWindows, Action::ShowOpenDialog]
    );
    let _ = session.update(Event::PlaybackStarted);
    assert_eq!(
        session.update(Event::OpenFile),
        vec![Action::StopPlayback, Action::CloseSecondaryWindows, Action::ShowOpenDialog]
    );
    assert!(!session.playing);
}

#[test]
fn saving_needs_an_open_file() {
    let mut session = Session::new();
    assert_eq!(session.update(Event::SaveSmf), vec![]);
    assert_eq!(session.update(Event::SaveJson), vec![]);
    let mut session = loaded_session();
    assert_eq!(session.update(Event::SaveSmf), vec![Action::SaveSmf]);
    assert_eq!(session.update(Event::SaveJson), vec![Action::SaveJson]);
}

#[test]
fn muting_a_channel_silences_it() {
    let mut session = loaded_session();
    assert_eq!(
        session.update(Event::MuteChannel(3, true)),
        vec![
            Action::WriteMidiChannelMute(0x08),
            Action::WritePcmChannelMute(0x08),
            Action::SendChannelSoundOff(3),
        ]
    );
    assert_eq!(session.channel_mute_flags, 0x08);
    assert_eq!(
        session.update(Event::MuteChannel(0, true)),
        vec![
            Action::WriteMidiChannelMute(0x09),
            Action::WritePcmChannelMute(0x09),
            Action::SendChannelSoundOff(0),
        ]
    );
    assert_eq!(
        session.update(Event::MuteChannel(3, false)),
        vec![Action::WriteMidiChannelMute(0x01), Action::WritePcmChannelMute(0x01)]
    );
    assert_eq!(session.channel_mute_flags, 0x01);
    assert_eq!(session.update(Event::MuteChannel(8, true)), vec![]);
    assert_eq!(session.channel_mute_flags, 0x01);
    let mut empty = Session::new();
    assert_eq!(empty.update(Event::MuteChannel(3, true)), vec![]);
    assert_eq!(empty.channel_mute_flags, 0);
}

#[test]
fn muting_everything_overrides_the_channel_flags() {
    let mut session = loaded_session();
    let _ = session.update(Event::MuteChannel(1, true));
    assert_eq!(
        session.update(Event::MidiMuteFlagToggled(true)),
        vec![Action::WriteMidiChannelMute(0xFF), Action::SendAllSoundOff]
    );
    assert!(session.midi_spc_mute);
    assert_eq!(
        session.update(Event::MuteChannel(2, true)),
        vec![
            Action::WriteMidiChannelMute(0xFF),
            Action::WritePcmChannelMute(0x06),
            Action::SendChannelSoundOff(2),
        ]
    );
    assert_eq!(session.update(Event::SpcMuteFlagToggled(true)), vec![Action::WritePcmChannelMute(0xFF)]);
    assert_eq!(
        session.update(Event::PlayStartRequest),
        vec![Action::StartPlayback { pcm_channel_mute: 0xFF, midi_channel_mute: 0xFF }]
    );
    assert_eq!(
        session.update(Event::MidiMuteFlagToggled(false)),
        vec![Action::WriteMidiChannelMute(0x06)]
    );
    assert_eq!(session.update(Event::SpcMuteFlagToggled(false)), vec![Action::WritePcmChannelMute(0x06)]);
    let mut empty = Session::new();
    assert_eq!(empty.update(Event::MidiMuteFlagToggled(true)), vec![Action::SendAllSoundOff]);
    assert!(!empty.midi_spc_mute);
    assert_eq!(empty.update(Event::SpcMuteFlagToggled(true)), vec![]);
    assert!(!empty.pcm_spc_mute);
}

#[test]
fn solo_mutes_and_silences_the_other_voices() {
    let mut session = loaded_session();
    assert_eq!(
        session.update(Event::SoloChannel(2)),
        vec![
            Action::WriteMidiChannelMute(0xFB),
            Action::WritePcmChannelMute(0xFB),
            Action::SendChannelSoundOff(0),
            Action::SendChannelSoundOff(1),
            Action::SendChannelSoundOff(3),
            Action::SendChannelSoundOff(4),
            Action::SendChannelSoundOff(5),
            Action::SendChannelSoundOff(6),
            Action::SendChannelSoundOff(7),
        ]
    );
    assert_eq!(session.channel_mute_flags, 0xFB);
    assert_eq!(session.update(Event::SoloChannel(9)), vec![]);
    assert_eq!(session.channel_mute_flags, 0xFB);
}

#[test]
fn mute_flag_helpers_work_on_single_bits() {
    assert_eq!(with_channel_mute(0x00, 0, true), 0x01);
    assert_eq!(with_channel_mute(0x00, 7, true), 0x80);
    assert_eq!(with_channel_mute(0xFF, 7, false), 0x7F);
    assert_eq!(with_channel_mute(0x10, 4, true), 0x10);
    assert_eq!(with_channel_mute(0x10, 3, false), 0x10);
    assert_eq!(solo_flags(0), 0xFE);
    assert_eq!(solo_flags(7), 0x7F);
    assert_eq!(channel_mute_register(true, 0x12), 0xFF);
    assert_eq!(channel_mute_register(false, 0x12), 0x12);
}

#[test]
fn tempo_buttons_double_and_halve_within_range() {
    let mut session = Session::new();
    assert_eq!(session.update(Event::BpmDoubleButtonClicked), vec![]);
    assert_eq!(session.midi_output_configure.beats_per_minute, Tempo::from_whole(240));
    let _ = session.update(Event::BpmDoubleButtonClicked);
    assert_eq!(session.midi_output_configure.beats_per_minute, Tempo::from_whole(240));
    for _ in 0..3 {
        let _ = session.update(Event::BpmHalfButtonClicked);
    }
    assert_eq!(session.midi_output_configure.beats_per_minute, Tempo::from_whole(30));
    let _ = session.update(Event::BpmHalfButtonClicked);
    assert_eq!(session.midi_output_configure.beats_per_minute, Tempo::from_whole(30));
}

#[test]
fn tempo_from_the_user_is_snapped_and_an_estimate_is_not() {
    let mut session = Session::new();
    let _ = session.update(Event::BpmChanged(Tempo { units: 100 * 64 + 5 }));
    assert_eq!(session.midi_output_configure.beats_per_minute, Tempo { units: 100 * 64 + 8 });
    let _ = session.update(Event::TempoEstimated(Tempo { units: 100 * 64 + 5 }));
    assert_eq!(session.midi_output_configure.beats_per_minute, Tempo { units: 100 * 64 + 5 });
}

#[test]
fn analysis_requests_use_the_durations_known() {
    let mut session = Session::new();
    assert_eq!(session.update(Event::BpmAnalyzeRequest), vec![]);
    assert_eq!(session.update(Event::SourceReanalyzeRequest), vec![]);
    assert_eq!(session.update(Event::SourceParameterUpdate), vec![Action::ApplySourceParameters]);
    let mut session = loaded_session();
    assert_eq!(
        session.update(Event::BpmAnalyzeRequest),
        vec![Action::EstimateTempo { duration_sec: 90 }]
    );
    assert_eq!(
        session.update(Event::SourceReanalyzeRequest),
        vec![Action::Analyze { duration_sec: 90 }]
    );
    let _ = session.update(Event::DurationChanged(1499));
    assert_eq!(session.update(Event::SourceReanalyzeRequest), vec![Action::Analyze { duration_sec: 1 }]);
    let _ = session.update(Event::DurationChanged(1500));
    assert_eq!(session.update(Event::SourceReanalyzeRequest), vec![Action::Analyze { duration_sec: 2 }]);
    let _ = session.update(Event::DurationChanged(u64::MAX));
    assert_eq!(
        session.update(Event::SourceReanalyzeRequest),
        vec![Action::Analyze { duration_sec: u32::MAX }]
    );
    assert_eq!(session.update(Event::SourceParameterUpdate), vec![Action::ApplySourceParameters]);
    assert_eq!(session.update(Event::UpdatePeriodChanged(9)), vec![Action::ApplySourceParameters]);
}

#[test]
fn preview_flags_are_kept() {
    let mut session = Session::new();
    assert_eq!(session.update(Event::SourcePlayLoopFlagToggled(false)), vec![]);
    assert!(!session.preview_loop);
    assert_eq!(session.update(Event::SourceMidiPreviewFlagToggled(false)), vec![]);
    assert!(!session.midi_preview);
    let _ = session.update(Event::SourcePlayLoopFlagToggled(true));
    assert!(session.preview_loop);
}

#[test]
fn saved_settings_are_merged_into_the_session() {
    let mut session = loaded_session();
    let mut saved = BTreeMap::new();
    let mut changed = SourceParameter::initial(false, 1);
    changed.program = Program::Tuba;
    saved.insert(5u8, changed);
    saved.insert(200u8, SourceParameter::initial(true, 2));
    let mut configure = MIDIOutputConfigure::new();
    configure.ticks_per_quarter = 96;
    configure.beats_per_minute = Tempo { units: 99 * 64 + 1 };
    session.merge_saved(configure, &saved);
    assert_eq!(session.midi_output_configure, configure);
    assert_eq!(session.source_parameter.len(), 3);
    assert_eq!(session.source_parameter[&0], SourceParameter::initial(false, 60 << 9));
    assert_eq!(session.source_parameter[&5], changed);
    assert_eq!(session.source_parameter[&200], SourceParameter::initial(true, 2));
    assert!(session.file_loaded);
    assert_eq!(session.file_duration_sec, 90);
}

#[test]
fn analysis_replaces_all_sources() {
    let mut session = loaded_session();
    let mut parameters = BTreeMap::new();
    parameters.insert(9u8, SourceParameter::initial(true, 0));
    session.set_analysis(parameters.clone());
    assert_eq!(session.source_parameter, parameters);
}

#[test]
fn configure_helpers_convert_durations() {
    let mut configure = MIDIOutputConfigure::new();
    configure.set_duration_from_file(0);
    assert_eq!(configure.output_duration_msec, 60_000);
    configure.set_duration_from_file(1);
    assert_eq!(configure.output_duration_msec, 1_000);
    configure.set_duration_from_file(u32::MAX);
    assert_eq!(configure.output_duration_msec, u32::MAX as u64 * 1000);
    assert_eq!(configure.reanalysis_duration_sec(), u32::MAX);
    configure.output_duration_msec = 499;
    assert_eq!(configure.reanalysis_duration_sec(), 0);
    configure.output_duration_msec = 500;
    assert_eq!(configure.reanalysis_duration_sec(), 1);
    configure.output_duration_msec = 60_000;
    assert_eq!(configure.reanalysis_duration_sec(), 60);
}

#[test]
fn parameter_methods_edit_the_center_note() {
    let mut parameter = SourceParameter::initial(false, (60 << 9) | 7);
    parameter.set_center_note_int(127);
    assert_eq!(parameter.center_note, (127 << 9) | 7);
    parameter.set_center_note_fraction(-5);
    assert_eq!(parameter.center_note, 127 << 9);
    assert!(!parameter.center_note_octave_up());
    assert_eq!(parameter.center_note, 127 << 9);
    assert!(parameter.center_note_octave_down());
    assert_eq!(parameter.center_note, 115 << 9);
    parameter.center_note = 5;
    assert!(!parameter.center_note_octave_down());
    assert_eq!(parameter.center_note, 5);
    assert!(parameter.center_note_octave_up());
    assert_eq!(parameter.center_note, (12 << 9) | 5);
}
