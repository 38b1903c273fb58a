use crate::center_note;
use crate::program::Program;
use crate::program::PERCUSSION_BASE;
use crate::program::PERCUSSION_CHANNEL;
use crate::types::PlaybackStatus;
use crate::types::SourceParameter;
use vstd::prelude::*;

verus! {

/// Status of a note-on message.
pub const MIDIMSG_NOTE_ON: u8 = 0x90;

/// Status of a note-off message.
pub const MIDIMSG_NOTE_OFF: u8 = 0x80;

/// Status of a program change.
pub const MIDIMSG_PROGRAM_CHANGE: u8 = 0xC0;

/// Status of a channel mode message.
pub const MIDIMSG_MODE: u8 = 0xB0;

/// Channel mode message that silences a channel at once.
pub const MIDIMSG_MODE_ALL_SOUND_OFF: u8 = 0x78;

/// Channel on which an instrument is previewed.
pub const MIDI_PREVIEW_CHANNEL: u8 = 0;

/// How long a preview sounds, in milliseconds.
pub const MIDI_PREVIEW_DURATION_MSEC: u64 = 500;

/// Number of channels of the protocol.
pub const MIDI_CHANNELS: u8 = 16;

/// The message that silences `channel` at once. Channels are counted from
/// zero; only the lower four bits of `channel` are used.
pub open spec fn spec_all_sound_off(channel: u8) -> Seq<u8> {
    seq![(MIDIMSG_MODE + channel % 16) as u8, MIDIMSG_MODE_ALL_SOUND_OFF, 0u8]
}

/// The message that silences `channel` at once.
pub fn all_sound_off(channel: u8) -> (message: Vec<u8>)
    ensures
        message@ == spec_all_sound_off(channel),
{
    let low: u8 = channel % 16;
    let mut message: Vec<u8> = Vec::new();
    message.push(MIDIMSG_MODE + low);
    message.push(MIDIMSG_MODE_ALL_SOUND_OFF);
    message.push(0);
    assert(message@ =~= spec_all_sound_off(channel));
    message
}

/// The messages that silence all sixteen channels, from channel 0 upward.
pub fn all_channels_sound_off() -> (messages: Vec<Vec<u8>>)
    ensures
        messages@.len() == MIDI_CHANNELS,
        forall|channel: int|
            0 <= channel < MIDI_CHANNELS ==> (#[trigger] messages@[channel])@ == spec_all_sound_off(
                channel as u8,
            ),
{
    let mut messages: Vec<Vec<u8>> = Vec::new();
    let mut channel: u8 = 0;
    while channel < MIDI_CHANNELS
        invariant
            channel <= MIDI_CHANNELS,
            messages@.len() == channel,
            forall|c: int|
                0 <= c < channel ==> (#[trigger] messages@[c])@ == spec_all_sound_off(c as u8),
        decreases MIDI_CHANNELS - channel,
    {
        messages.push(all_sound_off(channel));
        channel = channel + 1;
    }
    messages
}

/// The messages that start the preview of a source: for a melodic program
/// the program change and the note-on of the center note on the preview
/// channel, for a percussion program the note-on of its key on the
/// percussion channel.
pub open spec fn spec_preview_note_on(parameter: SourceParameter) -> Seq<Seq<u8>> {
    if parameter.program.spec_code() < PERCUSSION_BASE {
        seq![
            seq![
                (MIDIMSG_PROGRAM_CHANGE + MIDI_PREVIEW_CHANNEL) as u8,
                parameter.program.spec_code(),
            ],
            seq![
                (MIDIMSG_NOTE_ON + MIDI_PREVIEW_CHANNEL) as u8,
                center_note::spec_note_number(parameter.center_note) as u8,
                parameter.noteon_velocity,
            ],
        ]
    } else {
        seq![
            seq![
                (MIDIMSG_NOTE_ON + PERCUSSION_CHANNEL) as u8,
                (parameter.program.spec_code() - PERCUSSION_BASE) as u8,
                parameter.noteon_velocity,
            ],
        ]
    }
}

/// The message that ends the preview of a source: the note-off that
/// matches its note-on.
pub open spec fn spec_preview_note_off(parameter: SourceParameter) -> Seq<Seq<u8>> {
    if parameter.program.spec_code() < PERCUSSION_BASE {
        seq![
            seq![
                (MIDIMSG_NOTE_OFF + MIDI_PREVIEW_CHANNEL) as u8,
                center_note::spec_note_number(parameter.center_note) as u8,
                0u8,
            ],
        ]
    } else {
        seq![
            seq![
                (MIDIMSG_NOTE_OFF + PERCUSSION_CHANNEL) as u8,
                (parameter.program.spec_code() - PERCUSSION_BASE) as u8,
                0u8,
            ],
        ]
    }
}

/// The messages of `messages`, each as a sequence of bytes.
pub open spec fn spec_bytes_of(messages: Seq<Vec<u8>>) -> Seq<Seq<u8>> {
    Seq::new(messages.len(), |i: int| messages[i]@)
}

fn message2(first: u8, second: u8) -> (message: Vec<u8>)
    ensures
        message@ == seq![first, second],
{
    let mut message: Vec<u8> = Vec::new();
    message.push(first);
    message.push(second);
    assert(message@ =~= seq![first, second]);
    message
}

fn message3(first: u8, second: u8, third: u8) -> (message: Vec<u8>)
    ensures
        message@ == seq![first, second, third],
{
    let mut message: Vec<u8> = Vec::new();
    message.push(first);
    message.push(second);
    message.push(third);
    assert(message@ =~= seq![first, second, third]);
    message
}

/// The messages that start the preview of a source.
pub fn preview_note_on(parameter: &SourceParameter) -> (messages: Vec<Vec<u8>>)
    ensures
        spec_bytes_of(messages@) == spec_preview_note_on(*parameter),
{
    let program: u8 = parameter.program.code();
    let mut messages: Vec<Vec<u8>> = Vec::new();
    if program < PERCUSSION_BASE {
        let note: u8 = center_note::note_number(parameter.center_note);
        messages.push(message2(MIDIMSG_PROGRAM_CHANGE + MIDI_PREVIEW_CHANNEL, program));
        messages.push(
            message3(MIDIMSG_NOTE_ON + MIDI_PREVIEW_CHANNEL, note, parameter.noteon_velocity),
        );
    } else {
        messages.push(
            message3(
                MIDIMSG_NOTE_ON + PERCUSSION_CHANNEL,
                program - PERCUSSION_BASE,
                parameter.noteon_velocity,
            ),
        );
    }
    assert(spec_bytes_of(messages@) =~= spec_preview_note_on(*parameter));
    messages
}

/// The message that ends the preview of a source.
pub fn preview_note_off(parameter: &SourceParameter) -> (messages: Vec<Vec<u8>>)
    ensures
        spec_bytes_of(messages@) == spec_preview_note_off(*parameter),
{
    let program: u8 = parameter.program.code();
    let mut messages: Vec<Vec<u8>> = Vec::new();
    if program < PERCUSSION_BASE {
        let note: u8 = center_note::note_number(parameter.center_note);
        messages.push(message3(MIDIMSG_NOTE_OFF + MIDI_PREVIEW_CHANNEL, note, 0));
    } else {
        messages.push(message3(MIDIMSG_NOTE_OFF + PERCUSSION_CHANNEL, program - PERCUSSION_BASE, 0));
    }
    assert(spec_bytes_of(messages@) =~= spec_preview_note_off(*parameter));
    messages
}

/// A preview ends the note it started: the note-off names the channel and
/// the key of the note-on.
pub proof fn lemma_preview_notes_pair(parameter: SourceParameter)
    ensures
        spec_preview_note_off(parameter).len() == 1,
        spec_preview_note_on(parameter).last().len() == 3,
        spec_preview_note_off(parameter)[0].len() == 3,
        spec_preview_note_off(parameter)[0][0] + 0x10 == spec_preview_note_on(
            parameter,
        ).last()[0],
        spec_preview_note_off(parameter)[0][1] == spec_preview_note_on(parameter).last()[1],
{
}

/// The registers of one voice that the status display shows.
#[derive(Debug, Clone, Copy, PartialEq, Eq, Structural)]
pub struct VoiceRegisters {
    pub source: u8,
    pub pitch_low: u8,
    pub pitch_high: u8,
    pub envelope: u8,
    pub volume_left: u8,
    pub volume_right: u8,
}

/// A register byte read as a signed number in two's complement.
pub open spec fn spec_signed(value: u8) -> int {
    if value < 128 {
        value as int
    } else {
        value as int - 256
    }
}

/// A register byte read as a signed number in two's complement.
pub fn signed(value: u8) -> (number: i8)
    ensures
        number == spec_signed(value),
{
    if value < 128 {
        value as i8
    } else {
        let below: u8 = value - 128;
        (below as i8) + i8::MIN
    }
}

/// Turns the registers read from the signal processor into the status of
/// the eight voices. Bit `voice` of `noteon_flags` says whether the voice
/// sounds; the pitch is made of its high and low byte; the volumes are
/// signed.
pub fn read_playback_status(noteon_flags: u8, voices: &[VoiceRegisters; 8]) -> (status:
    PlaybackStatus)
    ensures
        forall|voice: int|
            0 <= voice < 8 ==> {
                &&& #[trigger] status.noteon[voice] == crate::analyzer::spec_voice_bit(
                    noteon_flags,
                    voice,
                )
                &&& status.srn_no[voice] == voices[voice].source
                &&& status.pitch[voice] == voices[voice].pitch_high * 256 + voices[voice].pitch_low
                &&& status.envelope[voice] == voices[voice].envelope
                &&& status.volume[voice][0] == spec_signed(voices[voice].volume_left)
                &&& status.volume[voice][1] == spec_signed(voices[voice].volume_right)
            },
{
    let mut noteon: [bool; 8] = [false;8];
    let mut srn_no: [u8; 8] = [0;8];
    let mut pitch: [u16; 8] = [0;8];
    let mut envelope: [u8; 8] = [0;8];
    let mut volume: [[i8; 2]; 8] = [[0, 0];8];
    let mut voice: usize = 0;
    while voice < 8
        invariant
            voice <= 8,
            forall|v: int|
                0 <= v < voice ==> #[trigger] noteon[v] == crate::analyzer::spec_voice_bit(
                    noteon_flags,
                    v,
                ),
            forall|v: int| 0 <= v < voice ==> #[trigger] srn_no[v] == voices[v].source,
            forall|v: int|
                0 <= v < voice ==> #[trigger] pitch[v] == voices[v].pitch_high * 256
                    + voices[v].pitch_low,
            forall|v: int| 0 <= v < voice ==> #[trigger] envelope[v] == voices[v].envelope,
            forall|v: int|
                0 <= v < voice ==> (#[trigger] volume[v])[0] == spec_signed(voices[v].volume_left)
                    && volume[v][1] == spec_signed(voices[v].volume_right),
        decreases 8 - voice,
    {
        let registers: VoiceRegisters = voices[voice];
        noteon[voice] = crate::analyzer::voice_bit(noteon_flags, voice as u8);
        srn_no[voice] = registers.source;
        pitch[voice] = registers.pitch_high as u16 * 256 + registers.pitch_low as u16;
        envelope[voice] = registers.envelope;
        volume[voice] = [signed(registers.volume_left), signed(registers.volume_right)];
        voice = voice + 1;
    }
    PlaybackStatus { noteon, srn_no, pitch, envelope, volume }
}

} // verus!
