use spc2midi_tsuu::midi::all_channels_sound_off;
use spc2midi_tsuu::midi::all_sound_off;
use spc2midi_tsuu::midi::preview_note_off;
use spc2midi_tsuu::midi::preview_note_on;
use spc2midi_tsuu::midi::read_playback_status;
use spc2midi_tsuu::midi::signed;
use spc2midi_tsuu::midi::VoiceRegisters;
use spc2midi_tsuu::program::Program;
use spc2midi_tsuu::types::DrawMode;
use spc2midi_tsuu::types::PlaybackStatus;
use spc2midi_tsuu::types::SourceParameter;

#[test]
fn all_sound_off_is_control_change_120() {
    assert_eq!(all_sound_off(0), vec![0xB0, 0x78, 0x00]);
    assert_eq!(all_sound_off(9), vec![0xB9, 0x78, 0x00]);
    assert_eq!(all_sound_off(15), vec![0xBF, 0x78, 0x00]);
    assert_eq!(all_sound_off(16), vec![0xB0, 0x78, 0x00]);
}

#[test]
fn every_channel_is_silenced_in_order() {
    let messages = all_channels_sound_off();
    assert_eq!(messages.len(), 16);
    for (channel, message) in messages.iter().enumerate() {
        assert_eq!(message, &vec![0xB0 | channel as u8, 0x78, 0x00]);
    }
}

#[test]
fn melodic_preview_selects_program_and_plays_center_note() {
    let mut parameter = SourceParameter::initial(false, (69 << 9) | 300);
    parameter.program = Program::Violin;
    parameter.noteon_velocity = 90;
    assert_eq!(preview_note_on(&parameter), vec![vec![0xC0, 40], vec![0x90, 69, 90]]);
    assert_eq!(preview_note_off(&parameter), vec![vec![0x80, 69, 0]]);
}

#[test]
fn percussion_preview_plays_its_key_on_channel_ten() {
    let parameter = SourceParameter::initial(true, 60 << 9);
    assert_eq!(preview_note_on(&parameter), vec![vec![0x99, 35, 100]]);
    assert_eq!(preview_note_off(&parameter), vec![vec![0x89, 35, 0]]);
    let mut parameter = parameter;
    parameter.program = Program::OpenTriangle;
    assert_eq!(preview_note_on(&parameter), vec![vec![0x99, 81, 100]]);
    assert_eq!(preview_note_off(&parameter), vec![vec![0x89, 81, 0]]);
}

#[test]
fn signed_reads_twos_complement() {
    assert_eq!(signed(0), 0);
    assert_eq!(signed(1), 1);
    assert_eq!(signed(127), 127);
    assert_eq!(signed(128), -128);
    assert_eq!(signed(129), -127);
    assert_eq!(signed(255), -1);
}

#[test]
fn new_status_is_silent() {
    let status = PlaybackStatus::new();
    assert_eq!(status.noteon, [false; 8]);
    assert_eq!(status.srn_no, [0; 8]);
    assert_eq!(status.pitch, [0; 8]);
    assert_eq!(status.envelope, [0; 8]);
    assert_eq!(status.volume, [[0, 0]; 8]);
}

#[test]
fn status_is_read_from_registers() {
    let mut voices = [VoiceRegisters {
        source: 0,
        pitch_low: 0,
        pitch_high: 0,
        envelope: 0,
        volume_left: 0,
        volume_right: 0,
    }; 8];
    voices[0] = VoiceRegisters {
        source: 7,
        pitch_low: 0x34,
        pitch_high: 0x12,
        envelope: 0x7F,
        volume_left: 0x40,
        volume_right: 0xC0,
    };
    voices[7] = VoiceRegisters {
        source: 255,
        pitch_low: 0xFF,
        pitch_high: 0x3F,
        envelope: 1,
        volume_left: 0x80,
        volume_right: 0x7F,
    };
    let status = read_playback_status(0b1000_0001, &voices);
    assert_eq!(status.noteon, [true, false, false, false, false, false, false, true]);
    assert_eq!(status.srn_no, [7, 0, 0, 0, 0, 0, 0, 255]);
    assert_eq!(status.pitch, [0x1234, 0, 0, 0, 0, 0, 0, 0x3FFF]);
    assert_eq!(status.envelope, [0x7F, 0, 0, 0, 0, 0, 0, 1]);
    assert_eq!(status.volume[0], [64, -64]);
    assert_eq!(status.volume[7], [-128, 127]);
    assert_eq!(status.volume[3], [0, 0]);
}

#[test]
fn draw_mode_starts_with_the_waveform_and_toggles() {
    assert_eq!(DrawMode::default(), DrawMode::WaveForm);
    assert_eq!(DrawMode::WaveForm.toggled(), DrawMode::Spectrum);
    assert_eq!(DrawMode::Spectrum.toggled(), DrawMode::WaveForm);
}
