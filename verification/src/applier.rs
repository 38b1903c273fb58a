use crate::types::MIDIOutputConfigure;
use crate::types::SourceParameter;
use std::collections::BTreeMap;
use vstd::prelude::*;

verus! {

/// Flag of a source that is kept out of the output.
pub const SOURCE_FLAG_MUTE: u8 = 0x80;

/// Flag of a source whose envelope is sent as expression.
pub const SOURCE_FLAG_ENVELOPE_AS_EXPRESSION: u8 = 0x40;

/// Flag of a source whose echo is sent as the depth of effect 1.
pub const SOURCE_FLAG_ECHO_AS_EFFECT1: u8 = 0x20;

/// Bit that switches a value on: a volume or pan that follows the voice,
/// a pitch bend that is sent.
pub const SWITCH_BIT: u8 = 0x80;

/// Register writes that set up one source.
pub const WRITES_PER_SOURCE: usize = 9;

/// A register of the protocol encoder that holds export policy, not
/// hardware state.
#[derive(Debug, Clone, Copy, PartialEq, Eq, Structural)]
pub enum ControlRegister {
    /// Selects the source that the following writes apply to.
    SourceTarget,
    /// Flags of the selected source.
    SourceFlag,
    /// Program of the selected source.
    SourceProgram,
    /// Note-on velocity of the selected source.
    SourceNoteOnVelocity,
    /// Upper byte of the center note of the selected source.
    SourceCenterNoteHigh,
    /// Lower byte of the center note of the selected source.
    SourceCenterNoteLow,
    /// Volume policy of the selected source.
    SourceVolume,
    /// Pan policy of the selected source.
    SourcePan,
    /// Pitch bend policy of the selected source.
    SourcePitchBendSensitivity,
    /// Period at which sounding voices are sampled.
    PlaybackParameterUpdatePeriod,
    /// One bit for each muted voice.
    ChannelMute,
}

/// One write to a register of the protocol encoder.
#[derive(Debug, Clone, Copy, PartialEq, Eq, Structural)]
pub struct RegisterWrite {
    pub register: ControlRegister,
    pub value: u8,
}

/// The flags of a source.
pub open spec fn spec_source_flag(parameter: SourceParameter) -> u8 {
    (if parameter.mute {
        SOURCE_FLAG_MUTE
    } else {
        0u8
    }) | (if parameter.envelope_as_expression {
        SOURCE_FLAG_ENVELOPE_AS_EXPRESSION
    } else {
        0u8
    }) | (if parameter.echo_as_effect1 {
        SOURCE_FLAG_ECHO_AS_EFFECT1
    } else {
        0u8
    })
}

/// A value with the switch bit set where `on` holds.
pub open spec fn spec_switched(on: bool, value: u8) -> u8 {
    (if on {
        SWITCH_BIT
    } else {
        0u8
    }) | value
}

/// The nine writes that set up `source`, in the order in which they are made.
pub open spec fn spec_source_writes(source: u8, parameter: SourceParameter) -> Seq<RegisterWrite> {
    seq![
        RegisterWrite { register: ControlRegister::SourceTarget, value: source },
        RegisterWrite { register: ControlRegister::SourceFlag, value: spec_source_flag(parameter) },
        RegisterWrite {
            register: ControlRegister::SourceProgram,
            value: parameter.program.spec_code(),
        },
        RegisterWrite {
            register: ControlRegister::SourceNoteOnVelocity,
            value: parameter.noteon_velocity,
        },
        RegisterWrite {
            register: ControlRegister::SourceCenterNoteHigh,
            value: (parameter.center_note / 256) as u8,
        },
        RegisterWrite {
            register: ControlRegister::SourceCenterNoteLow,
            value: (parameter.center_note % 256) as u8,
        },
        RegisterWrite {
            register: ControlRegister::SourceVolume,
            value: spec_switched(parameter.auto_volume, parameter.fixed_volume),
        },
        RegisterWrite {
            register: ControlRegister::SourcePan,
            value: spec_switched(parameter.auto_pan, parameter.fixed_pan),
        },
        RegisterWrite {
            register: ControlRegister::SourcePitchBendSensitivity,
            value: spec_switched(parameter.enable_pitch_bend, parameter.pitch_bend_width),
        },
    ]
}

/// The writes that set up every source with a number below `limit`, in the
/// order of the source numbers.
pub open spec fn spec_writes_below(parameters: Map<u8, SourceParameter>, limit: int) -> Seq<
    RegisterWrite,
>
    decreases limit,
{
    if limit <= 0 {
        Seq::empty()
    } else {
        let source = (limit - 1) as u8;
        spec_writes_below(parameters, limit - 1) + if parameters.contains_key(source) {
            spec_source_writes(source, parameters[source])
        } else {
            Seq::empty()
        }
    }
}

/// All the writes that hand the parameters to the protocol encoder: those
/// of each source, in the order of the source numbers, and then the period
/// at which sounding voices are sampled.
pub open spec fn spec_parameter_writes(
    parameters: Map<u8, SourceParameter>,
    configure: MIDIOutputConfigure,
) -> Seq<RegisterWrite> {
    spec_writes_below(parameters, 256).push(
        RegisterWrite {
            register: ControlRegister::PlaybackParameterUpdatePeriod,
            value: configure.playback_parameter_update_period,
        },
    )
}

/// The flags of a source.
pub fn source_flag(parameter: &SourceParameter) -> (flag: u8)
    ensures
        flag == spec_source_flag(*parameter),
{
    let mute: u8 = if parameter.mute {
        SOURCE_FLAG_MUTE
    } else {
        0
    };
    let expression: u8 = if parameter.envelope_as_expression {
        SOURCE_FLAG_ENVELOPE_AS_EXPRESSION
    } else {
        0
    };
    let echo: u8 = if parameter.echo_as_effect1 {
        SOURCE_FLAG_ECHO_AS_EFFECT1
    } else {
        0
    };
    mute | expression | echo
}

/// A value with the switch bit set where `on` holds.
pub fn switched(on: bool, value: u8) -> (register: u8)
    ensures
        register == spec_switched(on, value),
{
    let switch: u8 = if on {
        SWITCH_BIT
    } else {
        0
    };
    switch | value
}

/// Appends the nine writes that set up `source`.
pub fn push_source_writes(writes: &mut Vec<RegisterWrite>, source: u8, parameter: &SourceParameter)
    ensures
        final(writes)@ == old(writes)@ + spec_source_writes(source, *parameter),
{
    let high: u8 = (parameter.center_note / 256) as u8;
    let low: u8 = (parameter.center_note % 256) as u8;
    writes.push(RegisterWrite { register: ControlRegister::SourceTarget, value: source });
    writes.push(
        RegisterWrite { register: ControlRegister::SourceFlag, value: source_flag(parameter) },
    );
    writes.push(
        RegisterWrite { register: ControlRegister::SourceProgram, value: parameter.program.code() },
    );
    writes.push(
        RegisterWrite {
            register: ControlRegister::SourceNoteOnVelocity,
            value: parameter.noteon_velocity,
        },
    );
    writes.push(RegisterWrite { register: ControlRegister::SourceCenterNoteHigh, value: high });
    writes.push(RegisterWrite { register: ControlRegister::SourceCenterNoteLow, value: low });
    writes.push(
        RegisterWrite {
            register: ControlRegister::SourceVolume,
            value: switched(parameter.auto_volume, parameter.fixed_volume),
        },
    );
    writes.push(
        RegisterWrite {
            register: ControlRegister::SourcePan,
            value: switched(parameter.auto_pan, parameter.fixed_pan),
        },
    );
    writes.push(
        RegisterWrite {
            register: ControlRegister::SourcePitchBendSensitivity,
            value: switched(parameter.enable_pitch_bend, parameter.pitch_bend_width),
        },
    );
    assert(writes@ =~= old(writes)@ + spec_source_writes(source, *parameter));
}

/// Translates the parameters of all sources and the export settings into
/// the register writes that hand them to the protocol encoder.
pub fn apply_source_parameter(
    configure: &MIDIOutputConfigure,
    source_params: &BTreeMap<u8, SourceParameter>,
) -> (writes: Vec<RegisterWrite>)
    ensures
        writes@ == spec_parameter_writes(source_params@, *configure),
{
    let mut writes: Vec<RegisterWrite> = Vec::new();
    let mut source: u8 = 0;
    loop
        invariant_except_break
            writes@ == spec_writes_below(source_params@, source as int),
        ensures
            writes@ == spec_writes_below(source_params@, 256),
        decreases 255 - source,
    {
        match source_params.get(&source) {
            Some(parameter) => {
                push_source_writes(&mut writes, source, parameter);
            },
            None => {
                assert(writes@ + Seq::<RegisterWrite>::empty() =~= writes@);
            },
        }
        if source == 255 {
            break ;
        }
        source = source + 1;
    }
    writes.push(
        RegisterWrite {
            register: ControlRegister::PlaybackParameterUpdatePeriod,
            value: configure.playback_parameter_update_period,
        },
    );
    writes
}

/// Every source takes nine writes, and the sampling period one more.
pub proof fn lemma_parameter_writes_len(
    parameters: Map<u8, SourceParameter>,
    configure: MIDIOutputConfigure,
)
    ensures
        spec_parameter_writes(parameters, configure).len() <= 256 * WRITES_PER_SOURCE + 1,
        spec_parameter_writes(parameters, configure).last() == (RegisterWrite {
            register: ControlRegister::PlaybackParameterUpdatePeriod,
            value: configure.playback_parameter_update_period,
        }),
{
    lemma_writes_below_len(parameters, 256);
}

proof fn lemma_writes_below_len(parameters: Map<u8, SourceParameter>, limit: int)
    requires
        0 <= limit,
    ensures
        spec_writes_below(parameters, limit).len() <= limit * WRITES_PER_SOURCE,
    decreases limit,
{
    if limit > 0 {
        lemma_writes_below_len(parameters, limit - 1);
    }
}

} // verus!
