use vstd::prelude::*;

verus! {

/// Lowest program code that stands for a percussion sound. A code at or above
/// it plays the key `code - PERCUSSION_BASE` on the percussion channel.
pub const PERCUSSION_BASE: u8 = 0x80;

/// Channel (counted from zero) that carries percussion in General MIDI.
pub const PERCUSSION_CHANNEL: u8 = 9;

/// Key of the lowest mapped percussion sound.
pub const FIRST_PERCUSSION_KEY: u8 = 35;

/// Key of the highest mapped percussion sound.
pub const LAST_PERCUSSION_KEY: u8 = 81;

/// Instrument assigned to a sample source: one of the 128 melodic General MIDI
/// programs, or one of the percussion keys 35 to 81 of the percussion channel.
#[derive(Debug, Clone, Copy, PartialEq, Eq, Structural, Hash)]
pub enum Program {
    /// Acoustic Grand
    AcousticGrand,
    /// Bright Acoustic
    BrightAcoustic,
    /// Electric Grand
    ElectricGrand,
    /// Honky Tonk
    HonkyTonk,
    /// Electric Piano 1
    ElectricPiano1,
    /// Electric Piano 2
    ElectricPiano2,
    /// Harpsichord
    Harpsichord,
    /// Clav
    Clav,
    /// Celesta
    Celesta,
    /// Glockenspiel
    Glockenspiel,
    /// Music Box
    MusicBox,
    /// Vibraphone
    Vibraphone,
    /// Marimba
    Marimba,
    /// Xylophone
    Xylophone,
    /// Tubular Bells
    TubularBells,
    /// Dulcimer
    Dulcimer,
    /// Drawbar Organ
    DrawbarOrgan,
    /// Percussive Organ
    PercussiveOrgan,
    /// Rock Organ
    RockOrgan,
    /// Church Organ
    ChurchOrgan,
    /// Reed Organ
    ReedOrgan,
    /// Accordion
    Accordion,
    /// Harmonica
    Harmonica,
    /// Tango Accordion
    TangoAccordion,
    /// Nylon Guitar
    NylonGuitar,
    /// Steel Guitar
    SteelGuitar,
    /// Jazz Guitar
    JazzGuitar,
    /// Clean Guitar
    CleanGuitar,
    /// Muted Guitar
    MutedGuitar,
    /// Overdriven Guitar
    OverdrivenGuitar,
    /// Distortion Guitar
    DistortionGuitar,
    /// Guitar Harmonics
    GuitarHarmonics,
    /// Acoustic Bass
    AcousticBass,
    /// Finger Bass
    FingerBass,
    /// Pick Bass
    PickBass,
    /// Fretless Bass
    FretlessBass,
    /// Slap Bass 1
    SlapBass1,
    /// Slap Bass 2
    SlapBass2,
    /// Synth Bass 1
    SynthBass1,
    /// Synth Bass 2
    SynthBass2,
    /// Violin
    Violin,
    /// Viola
    Viola,
    /// Cello
    Cello,
    /// Contrabass
    Contrabass,
    /// Tremolo Strings
    TremoloStrings,
    /// Pizzicato Strings
    PizzicatoStrings,
    /// Orchestral Harp
    OrchestralHarp,
    /// Timpani
    Timpani,
    /// String Ensemble 1
    StringEnsemble1,
    /// String Ensemble 2
    StringEnsemble2,
    /// Synth Strings 1
    SynthStrings1,
    /// Synth Strings 2
    SynthStrings2,
    /// Choir Aahs
    ChoirAahs,
    /// Voice Oohs
    VoiceOohs,
    /// Synth Voice
    SynthVoice,
    /// Orchestra Hit
    OrchestraHit,
    /// Trumpet
    Trumpet,
    /// Trombone
    Trombone,
    /// Tuba
    Tuba,
    /// Muted Trumpet
    MutedTrumpet,
    /// French Horn
    FrenchHorn,
    /// Brass Section
    BrassSection,
    /// Synth Brass 1
    SynthBrass1,
    /// Synth Brass 2
    SynthBrass2,
    /// Soprano Sax
    SopranoSax,
    /// Alto Sax
    AltoSax,
    /// Tenor Sax
    TenorSax,
    /// Baritone Sax
    BaritoneSax,
    /// Oboe
    Oboe,
    /// English Horn
    EnglishHorn,
    /// Bassoon
    Bassoon,
    /// Clarinet
    Clarinet,
    /// Piccolo
    Piccolo,
    /// Flute
    Flute,
    /// Recorder
    Recorder,
    /// Pan Flute
    PanFlute,
    /// Blown Bottle
    BlownBottle,
    /// Shakuhachi
    Shakuhachi,
    /// Whistle
    Whistle,
    /// Ocarina
    Ocarina,
    /// Lead Square
    LeadSquare,
    /// Lead Sawtooth
    LeadSawtooth,
    /// Lead Calliope
    LeadCalliope,
    /// Lead Chiff
    LeadChiff,
    /// Lead Charang
    LeadCharang,
    /// Lead Voice
    LeadVoice,
    /// Lead Fifths
    LeadFifths,
    /// Lead Bass
    LeadBass,
    /// Pad New Age
    PadNewAge,
    /// Pad Warm
    PadWarm,
    /// Pad Polysynth
    PadPolysynth,
    /// Pad Choir
    PadChoir,
    /// Pad Bowed
    PadBowed,
    /// Pad Metallic
    PadMetallic,
    /// Pad Halo
    PadHalo,
    /// Pad Sweep
    PadSweep,
    /// Fx Rain
    FxRain,
    /// Fx Soundtrack
    FxSoundtrack,
    /// Fx Crystal
    FxCrystal,
    /// Fx Atmosphere
    FxAtmosphere,
    /// Fx Brightness
    FxBrightness,
    /// Fx Goblins
    FxGoblins,
    /// Fx Echoes
    FxEchoes,
    /// Fx Sci Fi
    FxSciFi,
    /// Sitar
    Sitar,
    /// Banjo
    Banjo,
    /// Shamisen
    Shamisen,
    /// Koto
    Koto,
    /// Kalimba
    Kalimba,
    /// Bagpipe
    Bagpipe,
    /// Fiddle
    Fiddle,
    /// Shanai
    Shanai,
    /// Tinkle Bell
    TinkleBell,
    /// Agogo
    Agogo,
    /// Steel Drums
    SteelDrums,
    /// Woodblock
    Woodblock,
    /// Taiko Drum
    TaikoDrum,
    /// Melodic Tom
    MelodicTom,
    /// Synth Drum
    SynthDrum,
    /// Reverse Cymbal
    ReverseCymbal,
    /// Guitar Fret Noise
    GuitarFretNoise,
    /// Breath Noise
    BreathNoise,
    /// Seashore
    Seashore,
    /// Bird Tweet
    BirdTweet,
    /// Telephone Ring
    TelephoneRing,
    /// Helicopter
    Helicopter,
    /// Applause
    Applause,
    /// Gunshot
    Gunshot,
    /// Acoustic Bass Drum
    AcousticBassDrum,
    /// Bass Drum 1
    BassDrum1,
    /// Side Stick
    SideStick,
    /// Acoustic Snare
    AcousticSnare,
    /// Hand Clap
    HandClap,
    /// Electric Snare
    ElectricSnare,
    /// Low Floor Tom
    LowFloorTom,
    /// Closed Hi Hat
    ClosedHiHat,
    /// High Floor Tom
    HighFloorTom,
    /// Pedal Hi Hat
    PedalHiHat,
    /// Low Tom
    LowTom,
    /// Open Hi Hat
    OpenHiHat,
    /// Low Mid Tom
    LowMidTom,
    /// Hi Mid Tom
    HiMidTom,
    /// Crash Cymbal 1
    CrashCymbal1,
    /// High Tom
    HighTom,
    /// Ride Cymbal 1
    RideCymbal1,
    /// Chinese Cymbal
    ChineseCymbal,
    /// Ride Bell
    RideBell,
    /// Tambourine
    Tambourine,
    /// Splash Cymbal
    SplashCymbal,
    /// Cowbell
    Cowbell,
    /// Crash Cymbal 2
    CrashCymbal2,
    /// Vibraslap
    Vibraslap,
    /// Ride Cymbal 2
    RideCymbal2,
    /// Hi Bongo
    HiBongo,
    /// Low Bongo
    LowBongo,
    /// Mute Hi Conga
    MuteHiConga,
    /// Open Hi Conga
    OpenHiConga,
    /// Low Conga
    LowConga,
    /// High Timbale
    HighTimbale,
    /// Low Timbale
    LowTimbale,
    /// High Agogo
    HighAgogo,
    /// Low Agogo
    LowAgogo,
    /// Cabasa
    Cabasa,
    /// Maracas
    Maracas,
    /// Short Whistle
    ShortWhistle,
    /// Long Whistle
    LongWhistle,
    /// Short Guiro
    ShortGuiro,
    /// Long Guiro
    LongGuiro,
    /// Claves
    Claves,
    /// Hi Wood Block
    HiWoodBlock,
    /// Low Wood Block
    LowWoodBlock,
    /// Mute Cuica
    MuteCuica,
    /// Open Cuica
    OpenCuica,
    /// Mute Triangle
    MuteTriangle,
    /// Open Triangle
    OpenTriangle,
}

impl Program {
    /// The one-byte code of a program: the General MIDI program number for a
    /// melodic instrument, `PERCUSSION_BASE` plus the key for a percussion sound.
    pub open spec fn spec_code(self) -> u8 {
        match self {
            Program::AcousticGrand => 0u8,
            Program::BrightAcoustic => 1u8,
            Program::ElectricGrand => 2u8,
            Program::HonkyTonk => 3u8,
            Program::ElectricPiano1 => 4u8,
            Program::ElectricPiano2 => 5u8,
            Program::Harpsichord => 6u8,
            Program::Clav => 7u8,
            Program::Celesta => 8u8,
            Program::Glockenspiel => 9u8,
            Program::MusicBox => 10u8,
            Program::Vibraphone => 11u8,
            Program::Marimba => 12u8,
            Program::Xylophone => 13u8,
            Program::TubularBells => 14u8,
            Program::Dulcimer => 15u8,
            Program::DrawbarOrgan => 16u8,
            Program::PercussiveOrgan => 17u8,
            Program::RockOrgan => 18u8,
            Program::ChurchOrgan => 19u8,
            Program::ReedOrgan => 20u8,
            Program::Accordion => 21u8,
            Program::Harmonica => 22u8,
            Program::TangoAccordion => 23u8,
            Program::NylonGuitar => 24u8,
            Program::SteelGuitar => 25u8,
            Program::JazzGuitar => 26u8,
            Program::CleanGuitar => 27u8,
            Program::MutedGuitar => 28u8,
            Program::OverdrivenGuitar => 29u8,
            Program::DistortionGuitar => 30u8,
            Program::GuitarHarmonics => 31u8,
            Program::AcousticBass => 32u8,
            Program::FingerBass => 33u8,
            Program::PickBass => 34u8,
            Program::FretlessBass => 35u8,
            Program::SlapBass1 => 36u8,
            Program::SlapBass2 => 37u8,
            Program::SynthBass1 => 38u8,
            Program::SynthBass2 => 39u8,
            Program::Violin => 40u8,
            Program::Viola => 41u8,
            Program::Cello => 42u8,
            Program::Contrabass => 43u8,
            Program::TremoloStrings => 44u8,
            Program::PizzicatoStrings => 45u8,
            Program::OrchestralHarp => 46u8,
            Program::Timpani => 47u8,
            Program::StringEnsemble1 => 48u8,
            Program::StringEnsemble2 => 49u8,
            Program::SynthStrings1 => 50u8,
            Program::SynthStrings2 => 51u8,
            Program::ChoirAahs => 52u8,
            Program::VoiceOohs => 53u8,
            Program::SynthVoice => 54u8,
            Program::OrchestraHit => 55u8,
            Program::Trumpet => 56u8,
            Program::Trombone => 57u8,
            Program::Tuba => 58u8,
            Program::MutedTrumpet => 59u8,
            Program::FrenchHorn => 60u8,
            Program::BrassSection => 61u8,
            Program::SynthBrass1 => 62u8,
            Program::SynthBrass2 => 63u8,
            Program::SopranoSax => 64u8,
            Program::AltoSax => 65u8,
            Program::TenorSax => 66u8,
            Program::BaritoneSax => 67u8,
            Program::Oboe => 68u8,
            Program::EnglishHorn => 69u8,
            Program::Bassoon => 70u8,
            Program::Clarinet => 71u8,
            Program::Piccolo => 72u8,
            Program::Flute => 73u8,
            Program::Recorder => 74u8,
            Program::PanFlute => 75u8,
            Program::BlownBottle => 76u8,
            Program::Shakuhachi => 77u8,
            Program::Whistle => 78u8,
            Program::Ocarina => 79u8,
            Program::LeadSquare => 80u8,
            Program::LeadSawtooth => 81u8,
            Program::LeadCalliope => 82u8,
            Program::LeadChiff => 83u8,
            Program::LeadCharang => 84u8,
            Program::LeadVoice => 85u8,
            Program::LeadFifths => 86u8,
            Program::LeadBass => 87u8,
            Program::PadNewAge => 88u8,
            Program::PadWarm => 89u8,
            Program::PadPolysynth => 90u8,
            Program::PadChoir => 91u8,
            Program::PadBowed => 92u8,
            Program::PadMetallic => 93u8,
            Program::PadHalo => 94u8,
            Program::PadSweep => 95u8,
            Program::FxRain => 96u8,
            Program::FxSoundtrack => 97u8,
            Program::FxCrystal => 98u8,
            Program::FxAtmosphere => 99u8,
            Program::FxBrightness => 100u8,
            Program::FxGoblins => 101u8,
            Program::FxEchoes => 102u8,
            Program::FxSciFi => 103u8,
            Program::Sitar => 104u8,
            Program::Banjo => 105u8,
            Program::Shamisen => 106u8,
            Program::Koto => 107u8,
            Program::Kalimba => 108u8,
            Program::Bagpipe => 109u8,
            Program::Fiddle => 110u8,
            Program::Shanai => 111u8,
            Program::TinkleBell => 112u8,
            Program::Agogo => 113u8,
            Program::SteelDrums => 114u8,
            Program::Woodblock => 115u8,
            Program::TaikoDrum => 116u8,
            Program::MelodicTom => 117u8,
            Program::SynthDrum => 118u8,
            Program::ReverseCymbal => 119u8,
            Program::GuitarFretNoise => 120u8,
            Program::BreathNoise => 121u8,
            Program::Seashore => 122u8,
            Program::BirdTweet => 123u8,
            Program::TelephoneRing => 124u8,
            Program::Helicopter => 125u8,
            Program::Applause => 126u8,
            Program::Gunshot => 127u8,
            Program::AcousticBassDrum => 163u8,
            Program::BassDrum1 => 164u8,
            Program::SideStick => 165u8,
            Program::AcousticSnare => 166u8,
            Program::HandClap => 167u8,
            Program::ElectricSnare => 168u8,
            Program::LowFloorTom => 169u8,
            Program::ClosedHiHat => 170u8,
            Program::HighFloorTom => 171u8,
            Program::PedalHiHat => 172u8,
            Program::LowTom => 173u8,
            Program::OpenHiHat => 174u8,
            Program::LowMidTom => 175u8,
            Program::HiMidTom => 176u8,
            Program::CrashCymbal1 => 177u8,
            Program::HighTom => 178u8,
            Program::RideCymbal1 => 179u8,
            Program::ChineseCymbal => 180u8,
            Program::RideBell => 181u8,
            Program::Tambourine => 182u8,
            Program::SplashCymbal => 183u8,
            Program::Cowbell => 184u8,
            Program::CrashCymbal2 => 185u8,
            Program::Vibraslap => 186u8,
            Program::RideCymbal2 => 187u8,
            Program::HiBongo => 188u8,
            Program::LowBongo => 189u8,
            Program::MuteHiConga => 190u8,
            Program::OpenHiConga => 191u8,
            Program::LowConga => 192u8,
            Program::HighTimbale => 193u8,
            Program::LowTimbale => 194u8,
            Program::HighAgogo => 195u8,
            Program::LowAgogo => 196u8,
            Program::Cabasa => 197u8,
            Program::Maracas => 198u8,
            Program::ShortWhistle => 199u8,
            Program::LongWhistle => 200u8,
            Program::ShortGuiro => 201u8,
            Program::LongGuiro => 202u8,
            Program::Claves => 203u8,
            Program::HiWoodBlock => 204u8,
            Program::LowWoodBlock => 205u8,
            Program::MuteCuica => 206u8,
            Program::OpenCuica => 207u8,
            Program::MuteTriangle => 208u8,
            Program::OpenTriangle => 209u8,
        }
    }

    /// Whether the program is a percussion sound rather than a melodic instrument.
    pub open spec fn spec_is_percussion(self) -> bool {
        self.spec_code() >= PERCUSSION_BASE
    }

    /// Whether some program has the given code.
    pub open spec fn is_program_code(code: u8) -> bool {
        code < PERCUSSION_BASE || (PERCUSSION_BASE + FIRST_PERCUSSION_KEY <= code <= PERCUSSION_BASE
            + LAST_PERCUSSION_KEY)
    }

    #[verifier::when_used_as_spec(spec_code)]
    pub fn code(self) -> (code: u8)
        ensures
            code == self.spec_code(),
    {
        match self {
            Program::AcousticGrand => 0,
            Program::BrightAcoustic => 1,
            Program::ElectricGrand => 2,
            Program::HonkyTonk => 3,
            Program::ElectricPiano1 => 4,
            Program::ElectricPiano2 => 5,
            Program::Harpsichord => 6,
            Program::Clav => 7,
            Program::Celesta => 8,
            Program::Glockenspiel => 9,
            Program::MusicBox => 10,
            Program::Vibraphone => 11,
            Program::Marimba => 12,
            Program::Xylophone => 13,
            Program::TubularBells => 14,
            Program::Dulcimer => 15,
            Program::DrawbarOrgan => 16,
            Program::PercussiveOrgan => 17,
            Program::RockOrgan => 18,
            Program::ChurchOrgan => 19,
            Program::ReedOrgan => 20,
            Program::Accordion => 21,
            Program::Harmonica => 22,
            Program::TangoAccordion => 23,
            Program::NylonGuitar => 24,
            Program::SteelGuitar => 25,
            Program::JazzGuitar => 26,
            Program::CleanGuitar => 27,
            Program::MutedGuitar => 28,
            Program::OverdrivenGuitar => 29,
            Program::DistortionGuitar => 30,
            Program::GuitarHarmonics => 31,
            Program::AcousticBass => 32,
            Program::FingerBass => 33,
            Program::PickBass => 34,
            Program::FretlessBass => 35,
            Program::SlapBass1 => 36,
            Program::SlapBass2 => 37,
            Program::SynthBass1 => 38,
            Program::SynthBass2 => 39,
            Program::Violin => 40,
            Program::Viola => 41,
            Program::Cello => 42,
            Program::Contrabass => 43,
            Program::TremoloStrings => 44,
            Program::PizzicatoStrings => 45,
            Program::OrchestralHarp => 46,
            Program::Timpani => 47,
            Program::StringEnsemble1 => 48,
            Program::StringEnsemble2 => 49,
            Program::SynthStrings1 => 50,
            Program::SynthStrings2 => 51,
            Program::ChoirAahs => 52,
            Program::VoiceOohs => 53,
            Program::SynthVoice => 54,
            Program::OrchestraHit => 55,
            Program::Trumpet => 56,
            Program::Trombone => 57,
            Program::Tuba => 58,
            Program::MutedTrumpet => 59,
            Program::FrenchHorn => 60,
            Program::BrassSection => 61,
            Program::SynthBrass1 => 62,
            Program::SynthBrass2 => 63,
            Program::SopranoSax => 64,
            Program::AltoSax => 65,
            Program::TenorSax => 66,
            Program::BaritoneSax => 67,
            Program::Oboe => 68,
            Program::EnglishHorn => 69,
            Program::Bassoon => 70,
            Program::Clarinet => 71,
            Program::Piccolo => 72,
            Program::Flute => 73,
            Program::Recorder => 74,
            Program::PanFlute => 75,
            Program::BlownBottle => 76,
            Program::Shakuhachi => 77,
            Program::Whistle => 78,
            Program::Ocarina => 79,
            Program::LeadSquare => 80,
            Program::LeadSawtooth => 81,
            Program::LeadCalliope => 82,
            Program::LeadChiff => 83,
            Program::LeadCharang => 84,
            Program::LeadVoice => 85,
            Program::LeadFifths => 86,
            Program::LeadBass => 87,
            Program::PadNewAge => 88,
            Program::PadWarm => 89,
            Program::PadPolysynth => 90,
            Program::PadChoir => 91,
            Program::PadBowed => 92,
            Program::PadMetallic => 93,
            Program::PadHalo => 94,
            Program::PadSweep => 95,
            Program::FxRain => 96,
            Program::FxSoundtrack => 97,
            Program::FxCrystal => 98,
            Program::FxAtmosphere => 99,
            Program::FxBrightness => 100,
            Program::FxGoblins => 101,
            Program::FxEchoes => 102,
            Program::FxSciFi => 103,
            Program::Sitar => 104,
            Program::Banjo => 105,
            Program::Shamisen => 106,
            Program::Koto => 107,
            Program::Kalimba => 108,
            Program::Bagpipe => 109,
            Program::Fiddle => 110,
            Program::Shanai => 111,
            Program::TinkleBell => 112,
            Program::Agogo => 113,
            Program::SteelDrums => 114,
            Program::Woodblock => 115,
            Program::TaikoDrum => 116,
            Program::MelodicTom => 117,
            Program::SynthDrum => 118,
            Program::ReverseCymbal => 119,
            Program::GuitarFretNoise => 120,
            Program::BreathNoise => 121,
            Program::Seashore => 122,
            Program::BirdTweet => 123,
            Program::TelephoneRing => 124,
            Program::Helicopter => 125,
            Program::Applause => 126,
            Program::Gunshot => 127,
            Program::AcousticBassDrum => 163,
            Program::BassDrum1 => 164,
            Program::SideStick => 165,
            Program::AcousticSnare => 166,
            Program::HandClap => 167,
            Program::ElectricSnare => 168,
            Program::LowFloorTom => 169,
            Program::ClosedHiHat => 170,
            Program::HighFloorTom => 171,
            Program::PedalHiHat => 172,
            Program::LowTom => 173,
            Program::OpenHiHat => 174,
            Program::LowMidTom => 175,
            Program::HiMidTom => 176,
            Program::CrashCymbal1 => 177,
            Program::HighTom => 178,
            Program::RideCymbal1 => 179,
            Program::ChineseCymbal => 180,
            Program::RideBell => 181,
            Program::Tambourine => 182,
            Program::SplashCymbal => 183,
            Program::Cowbell => 184,
            Program::CrashCymbal2 => 185,
            Program::Vibraslap => 186,
            Program::RideCymbal2 => 187,
            Program::HiBongo => 188,
            Program::LowBongo => 189,
            Program::MuteHiConga => 190,
            Program::OpenHiConga => 191,
            Program::LowConga => 192,
            Program::HighTimbale => 193,
            Program::LowTimbale => 194,
            Program::HighAgogo => 195,
            Program::LowAgogo => 196,
            Program::Cabasa => 197,
            Program::Maracas => 198,
            Program::ShortWhistle => 199,
            Program::LongWhistle => 200,
            Program::ShortGuiro => 201,
            Program::LongGuiro => 202,
            Program::Claves => 203,
            Program::HiWoodBlock => 204,
            Program::LowWoodBlock => 205,
            Program::MuteCuica => 206,
            Program::OpenCuica => 207,
            Program::MuteTriangle => 208,
            Program::OpenTriangle => 209,
        }
    }

    /// The program with the given code, if there is one.
    pub fn from_code(code: u8) -> (program: Option<Program>)
        ensures
            program is Some <==> Self::is_program_code(code),
            program matches Some(p) ==> p.spec_code() == code,
    {
        match code {
            0 => Some(Program::AcousticGrand),
            1 => Some(Program::BrightAcoustic),
            2 => Some(Program::ElectricGrand),
            3 => Some(Program::HonkyTonk),
            4 => Some(Program::ElectricPiano1),
            5 => Some(Program::ElectricPiano2),
            6 => Some(Program::Harpsichord),
            7 => Some(Program::Clav),
            8 => Some(Program::Celesta),
            9 => Some(Program::Glockenspiel),
            10 => Some(Program::MusicBox),
            11 => Some(Program::Vibraphone),
            12 => Some(Program::Marimba),
            13 => Some(Program::Xylophone),
            14 => Some(Program::TubularBells),
            15 => Some(Program::Dulcimer),
            16 => Some(Program::DrawbarOrgan),
            17 => Some(Program::PercussiveOrgan),
            18 => Some(Program::RockOrgan),
            19 => Some(Program::ChurchOrgan),
            20 => Some(Program::ReedOrgan),
            21 => Some(Program::Accordion),
            22 => Some(Program::Harmonica),
            23 => Some(Program::TangoAccordion),
            24 => Some(Program::NylonGuitar),
            25 => Some(Program::SteelGuitar),
            26 => Some(Program::JazzGuitar),
            27 => Some(Program::CleanGuitar),
            28 => Some(Program::MutedGuitar),
            29 => Some(Program::OverdrivenGuitar),
            30 => Some(Program::DistortionGuitar),
            31 => Some(Program::GuitarHarmonics),
            32 => Some(Program::AcousticBass),
            33 => Some(Program::FingerBass),
            34 => Some(Program::PickBass),
            35 => Some(Program::FretlessBass),
            36 => Some(Program::SlapBass1),
            37 => Some(Program::SlapBass2),
            38 => Some(Program::SynthBass1),
            39 => Some(Program::SynthBass2),
            40 => Some(Program::Violin),
            41 => Some(Program::Viola),
            42 => Some(Program::Cello),
            43 => Some(Program::Contrabass),
            44 => Some(Program::TremoloStrings),
            45 => Some(Program::PizzicatoStrings),
            46 => Some(Program::OrchestralHarp),
            47 => Some(Program::Timpani),
            48 => Some(Program::StringEnsemble1),
            49 => Some(Program::StringEnsemble2),
            50 => Some(Program::SynthStrings1),
            51 => Some(Program::SynthStrings2),
            52 => Some(Program::ChoirAahs),
            53 => Some(Program::VoiceOohs),
            54 => Some(Program::SynthVoice),
            55 => Some(Program::OrchestraHit),
            56 => Some(Program::Trumpet),
            57 => Some(Program::Trombone),
            58 => Some(Program::Tuba),
            59 => Some(Program::MutedTrumpet),
            60 => Some(Program::FrenchHorn),
            61 => Some(Program::BrassSection),
            62 => Some(Program::SynthBrass1),
            63 => Some(Program::SynthBrass2),
            64 => Some(Program::SopranoSax),
            65 => Some(Program::AltoSax),
            66 => Some(Program::TenorSax),
            67 => Some(Program::BaritoneSax),
            68 => Some(Program::Oboe),
            69 => Some(Program::EnglishHorn),
            70 => Some(Program::Bassoon),
            71 => Some(Program::Clarinet),
            72 => Some(Program::Piccolo),
            73 => Some(Program::Flute),
            74 => Some(Program::Recorder),
            75 => Some(Program::PanFlute),
            76 => Some(Program::BlownBottle),
            77 => Some(Program::Shakuhachi),
            78 => Some(Program::Whistle),
            79 => Some(Program::Ocarina),
            80 => Some(Program::LeadSquare),
            81 => Some(Program::LeadSawtooth),
            82 => Some(Program::LeadCalliope),
            83 => Some(Program::LeadChiff),
            84 => Some(Program::LeadCharang),
            85 => Some(Program::LeadVoice),
            86 => Some(Program::LeadFifths),
            87 => Some(Program::LeadBass),
            88 => Some(Program::PadNewAge),
            89 => Some(Program::PadWarm),
            90 => Some(Program::PadPolysynth),
            91 => Some(Program::PadChoir),
            92 => Some(Program::PadBowed),
            93 => Some(Program::PadMetallic),
            94 => Some(Program::PadHalo),
            95 => Some(Program::PadSweep),
            96 => Some(Program::FxRain),
            97 => Some(Program::FxSoundtrack),
            98 => Some(Program::FxCrystal),
            99 => Some(Program::FxAtmosphere),
            100 => Some(Program::FxBrightness),
            101 => Some(Program::FxGoblins),
            102 => Some(Program::FxEchoes),
            103 => Some(Program::FxSciFi),
            104 => Some(Program::Sitar),
            105 => Some(Program::Banjo),
            106 => Some(Program::Shamisen),
            107 => Some(Program::Koto),
            108 => Some(Program::Kalimba),
            109 => Some(Program::Bagpipe),
            110 => Some(Program::Fiddle),
            111 => Some(Program::Shanai),
            112 => Some(Program::TinkleBell),
            113 => Some(Program::Agogo),
            114 => Some(Program::SteelDrums),
            115 => Some(Program::Woodblock),
            116 => Some(Program::TaikoDrum),
            117 => Some(Program::MelodicTom),
            118 => Some(Program::SynthDrum),
            119 => Some(Program::ReverseCymbal),
            120 => Some(Program::GuitarFretNoise),
            121 => Some(Program::BreathNoise),
            122 => Some(Program::Seashore),
            123 => Some(Program::BirdTweet),
            124 => Some(Program::TelephoneRing),
            125 => Some(Program::Helicopter),
            126 => Some(Program::Applause),
            127 => Some(Program::Gunshot),
            163 => Some(Program::AcousticBassDrum),
            164 => Some(Program::BassDrum1),
            165 => Some(Program::SideStick),
            166 => Some(Program::AcousticSnare),
            167 => Some(Program::HandClap),
            168 => Some(Program::ElectricSnare),
            169 => Some(Program::LowFloorTom),
            170 => Some(Program::ClosedHiHat),
            171 => Some(Program::HighFloorTom),
            172 => Some(Program::PedalHiHat),
            173 => Some(Program::LowTom),
            174 => Some(Program::OpenHiHat),
            175 => Some(Program::LowMidTom),
            176 => Some(Program::HiMidTom),
            177 => Some(Program::CrashCymbal1),
            178 => Some(Program::HighTom),
            179 => Some(Program::RideCymbal1),
            180 => Some(Program::ChineseCymbal),
            181 => Some(Program::RideBell),
            182 => Some(Program::Tambourine),
            183 => Some(Program::SplashCymbal),
            184 => Some(Program::Cowbell),
            185 => Some(Program::CrashCymbal2),
            186 => Some(Program::Vibraslap),
            187 => Some(Program::RideCymbal2),
            188 => Some(Program::HiBongo),
            189 => Some(Program::LowBongo),
            190 => Some(Program::MuteHiConga),
            191 => Some(Program::OpenHiConga),
            192 => Some(Program::LowConga),
            193 => Some(Program::HighTimbale),
            194 => Some(Program::LowTimbale),
            195 => Some(Program::HighAgogo),
            196 => Some(Program::LowAgogo),
            197 => Some(Program::Cabasa),
            198 => Some(Program::Maracas),
            199 => Some(Program::ShortWhistle),
            200 => Some(Program::LongWhistle),
            201 => Some(Program::ShortGuiro),
            202 => Some(Program::LongGuiro),
            203 => Some(Program::Claves),
            204 => Some(Program::HiWoodBlock),
            205 => Some(Program::LowWoodBlock),
            206 => Some(Program::MuteCuica),
            207 => Some(Program::OpenCuica),
            208 => Some(Program::MuteTriangle),
            209 => Some(Program::OpenTriangle),
            _ => None,
        }
    }

    #[verifier::when_used_as_spec(spec_is_percussion)]
    pub fn is_percussion(self) -> (percussion: bool)
        ensures
            percussion == self.spec_is_percussion(),
    {
        self.code() >= PERCUSSION_BASE
    }

    /// The key that a percussion program plays on the percussion channel.
    pub fn percussion_key(self) -> (key: Option<u8>)
        ensures
            key == if self.spec_is_percussion() {
                Some((self.spec_code() - PERCUSSION_BASE) as u8)
            } else {
                None
            },
    {
        let code: u8 = self.code();
        if code >= PERCUSSION_BASE {
            Some(code - PERCUSSION_BASE)
        } else {
            None
        }
    }

    /// Every program, in the order of its code: the program with code `c` stands
    /// at index `count_below(c)`.
    pub fn all() -> (programs: Vec<Program>)
        ensures
            programs@.len() == 175,
            forall|p: Program|
                programs@[#[trigger] Self::count_below(p.spec_code() as int)] == p,
    {
        let mut programs: Vec<Program> = Vec::new();
        let mut code: u8 = 0;
        loop
            invariant
                programs@.len() == Self::count_below(code as int),
                forall|p: Program|
                    p.spec_code() < code ==> programs@[#[trigger] Self::count_below(
                        p.spec_code() as int,
                    )] == p,
            ensures
                programs@.len() == 175,
                forall|p: Program|
                    programs@[#[trigger] Self::count_below(p.spec_code() as int)] == p,
            decreases 255 - code,
        {
            match Program::from_code(code) {
                Some(p) => {
                    programs.push(p);
                },
                None => {},
            }
            if code == 255 {
                break;
            }
            code = code + 1;
        }
        programs
    }

    /// How many programs have a code below `bound`.
    pub open spec fn count_below(bound: int) -> int {
        if bound <= 128 {
            bound
        } else if bound <= 163 {
            128
        } else if bound <= 210 {
            bound - 35
        } else {
            175
        }
    }
}

/// Two programs with the same code are the same program.
pub proof fn lemma_program_code_injective(a: Program, b: Program)
    requires
        a.spec_code() == b.spec_code(),
    ensures
        a == b,
{
}

} // verus!
