use spc2midi_tsuu::program::Program;

#[test]
fn melodic_programs_have_general_midi_numbers() {
    assert_eq!(Program::AcousticGrand.code(), 0);
    assert_eq!(Program::BrightAcoustic.code(), 1);
    assert_eq!(Program::Violin.code(), 40);
    assert_eq!(Program::Gunshot.code(), 127);
    assert!(!Program::AcousticGrand.is_percussion());
    assert_eq!(Program::Gunshot.percussion_key(), None);
}

#[test]
fn percussion_programs_sit_above_the_base() {
    assert_eq!(Program::AcousticBassDrum.code(), 0x80 + 35);
    assert_eq!(Program::AcousticSnare.code(), 0x80 + 38);
    assert_eq!(Program::OpenTriangle.code(), 0x80 + 81);
    assert!(Program::AcousticBassDrum.is_percussion());
    assert_eq!(Program::AcousticBassDrum.percussion_key(), Some(35));
    assert_eq!(Program::OpenTriangle.percussion_key(), Some(81));
}

#[test]
fn from_code_inverts_code() {
    let mut known = 0;
    for code in 0..=255u8 {
        match Program::from_code(code) {
            Some(p) => {
                assert_eq!(p.code(), code);
                known += 1;
            }
            None => {
                assert!(code >= 0x80);
                assert!(code < 0x80 + 35 || code > 0x80 + 81);
            }
        }
    }
    assert_eq!(known, 175);
}

#[test]
fn all_lists_every_program_in_code_order() {
    let all = Program::all();
    assert_eq!(all.len(), 175);
    assert_eq!(all[0], Program::AcousticGrand);
    assert_eq!(all[127], Program::Gunshot);
    assert_eq!(all[128], Program::AcousticBassDrum);
    assert_eq!(all[174], Program::OpenTriangle);
    for pair in all.windows(2) {
        assert!(pair[0].code() < pair[1].code());
    }
}
