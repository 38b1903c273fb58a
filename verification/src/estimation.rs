use crate::tempo::tempo_for_lag;
use crate::tempo::spec_quarter_beats_for_lag;
use crate::tempo::Tempo;
use crate::tempo::DEFAULT_BEATS_PER_MINUTE;
use crate::tempo::MAX_BEATS_PER_MINUTE;
use crate::tempo::MIN_BEATS_PER_MINUTE;
use crate::tempo::UNITS_PER_BPM;
use vstd::prelude::*;

verus! {

/// Samples in one frame of the tempo estimation.
pub const TEMPO_ESTIMATION_FRAME_SIZE: u32 = 64;

/// How the height of the spectral centroid and the width of the spectrum
/// count towards a percussive source.
#[derive(Debug, Clone, Copy, PartialEq, Eq, Structural)]
pub enum DrumPolicy {
    /// Only a high centroid together with a wide spectrum counts.
    CentroidAndBandwidth,
    /// A high centroid counts, and so does a wide spectrum.
    CentroidOrBandwidth,
}

impl Default for DrumPolicy {
    fn default() -> (policy: DrumPolicy)
        ensures
            policy == DrumPolicy::CentroidAndBandwidth,
    {
        DrumPolicy::CentroidAndBandwidth
    }
}

/// What the measurements of a waveform and its spectrum say.
#[derive(Debug, Clone, Copy, PartialEq, Eq, Structural)]
pub struct SpectralEvidence {
    /// The first eighth of the waveform holds over 24 dB more energy than
    /// the last eighth.
    pub strong_decay: bool,
    /// The spectral flatness is at least -10 dB.
    pub flat_spectrum: bool,
    /// The spectral centroid lies at 8000 Hz or above.
    pub high_centroid: bool,
    /// The spectral bandwidth is 8000 Hz or more.
    pub wide_bandwidth: bool,
}

/// Whether a source counts as percussion. One of these is enough: the loop
/// starts at the end of the waveform, so that it plays once; the waveform
/// decays strongly; the spectrum is flat; the centroid is high and the
/// spectrum wide, as the policy combines the two.
pub open spec fn spec_is_drum(
    signal_length: int,
    loop_start_sample: int,
    evidence: SpectralEvidence,
    policy: DrumPolicy,
) -> bool {
    loop_start_sample == signal_length || evidence.strong_decay || evidence.flat_spectrum
        || match policy {
        DrumPolicy::CentroidAndBandwidth => evidence.high_centroid && evidence.wide_bandwidth,
        DrumPolicy::CentroidOrBandwidth => evidence.high_centroid || evidence.wide_bandwidth,
    }
}

/// Decides whether a source is percussion rather than a pitched voice.
pub fn detect_drum(
    signal_length: usize,
    loop_start_sample: usize,
    evidence: &SpectralEvidence,
    policy: DrumPolicy,
) -> (drum: bool)
    ensures
        drum == spec_is_drum(signal_length as int, loop_start_sample as int, *evidence, policy),
{
    if loop_start_sample == signal_length {
        return true;
    }
    if evidence.strong_decay {
        return true;
    }
    if evidence.flat_spectrum {
        return true;
    }
    match policy {
        DrumPolicy::CentroidAndBandwidth => evidence.high_centroid && evidence.wide_bandwidth,
        DrumPolicy::CentroidOrBandwidth => evidence.high_centroid || evidence.wide_bandwidth,
    }
}

/// A source that does not loop is percussion whatever its spectrum looks
/// like, under either policy.
pub proof fn lemma_one_shot_is_drum(
    signal_length: int,
    evidence: SpectralEvidence,
    policy: DrumPolicy,
)
    ensures
        spec_is_drum(signal_length, signal_length, evidence, policy),
{
}

/// Whatever counts as percussion when centroid and bandwidth must both be
/// high also counts when one of them is enough.
pub proof fn lemma_policy_or_is_wider(
    signal_length: int,
    loop_start_sample: int,
    evidence: SpectralEvidence,
)
    requires
        spec_is_drum(
            signal_length,
            loop_start_sample,
            evidence,
            DrumPolicy::CentroidAndBandwidth,
        ),
    ensures
        spec_is_drum(signal_length, loop_start_sample, evidence, DrumPolicy::CentroidOrBandwidth),
{
}

/// Whether `area` tells where the silence at the head of a waveform ends and
/// where the silence at its tail begins. Its first part is the number of
/// zero samples at the head. Its second part is the index of the last sample
/// that is not zero, or 0 where the waveform holds none after its first
/// sample. Just one pair does so for each waveform.
pub open spec fn spec_is_nonzero_area(signal: Seq<i16>, area: (usize, usize)) -> bool {
    &&& area.0 <= signal.len()
    &&& forall|i: int| 0 <= i < area.0 ==> signal[i] == 0
    &&& area.0 < signal.len() ==> signal[area.0 as int] != 0
    &&& signal.len() == 0 ==> area.1 == 0
    &&& signal.len() > 0 ==> area.1 < signal.len()
    &&& forall|i: int| area.1 < i < signal.len() ==> signal[i] == 0
    &&& area.1 > 0 ==> signal[area.1 as int] != 0
}

/// Finds where the silence at the head of a waveform ends and where the
/// silence at its tail begins.
pub fn detect_nonzero_area(signal: &[i16]) -> (area: (usize, usize))
    ensures
        spec_is_nonzero_area(signal@, area),
{
    if signal.len() == 0 {
        return (0, 0);
    }
    let mut start: usize = 0;
    while start < signal.len() && signal[start] == 0
        invariant
            start <= signal@.len(),
            forall|i: int| 0 <= i < start ==> signal@[i] == 0,
        decreases signal@.len() - start,
    {
        start = start + 1;
    }
    let mut end: usize = signal.len() - 1;
    while end > 0 && signal[end] == 0
        invariant
            end < signal@.len(),
            forall|i: int| end < i < signal@.len() ==> signal@[i] == 0,
        decreases end,
    {
        end = end - 1;
    }
    (start, end)
}

/// The part of a waveform that the spectrum is taken of, as a half-open
/// range: from the first sample that is not zero up to and with the last
/// one; the whole waveform where every sample is zero.
pub open spec fn spec_analysis_range(area: (usize, usize), length: int) -> (int, int) {
    if area.0 < length {
        (area.0 as int, area.1 + 1)
    } else {
        (0, length)
    }
}

/// The part of a waveform that the spectrum is taken of, as a half-open
/// range of samples: the waveform without the silence at its head and at
/// its tail. It is empty only where the waveform is.
pub fn analysis_range(signal: &[i16]) -> (range: (usize, usize))
    ensures
        range.0 <= range.1 <= signal@.len(),
        signal@.len() > 0 ==> range.0 < range.1,
        exists|area: (usize, usize)| #[trigger]
            spec_is_nonzero_area(signal@, area) && spec_analysis_range(
                area,
                signal@.len() as int,
            ) == (range.0 as int, range.1 as int),
{
    let area = detect_nonzero_area(signal);
    if area.0 < signal.len() {
        assert(area.0 <= area.1) by {
            if area.1 < area.0 {
                assert(signal@[area.0 as int] == 0);
            }
        }
        (area.0, area.1 + 1)
    } else {
        (0, signal.len())
    }
}

/// The part that the spectrum is taken of starts and ends with a sample
/// that is not zero, and nothing but silence lies outside it.
pub proof fn lemma_analysis_range_trims_silence(signal: Seq<i16>, area: (usize, usize))
    requires
        spec_is_nonzero_area(signal, area),
        area.0 < signal.len(),
    ensures
        ({
            let range = spec_analysis_range(area, signal.len() as int);
            &&& 0 <= range.0 < range.1 <= signal.len()
            &&& signal[range.0] != 0
            &&& signal[range.1 - 1] != 0
            &&& forall|i: int| 0 <= i < range.0 ==> signal[i] == 0
            &&& forall|i: int| range.1 <= i < signal.len() ==> signal[i] == 0
        }),
{
    if area.1 < area.0 {
        assert(signal[area.0 as int] == 0);
    }
    if area.1 == 0 {
        assert(area.0 == 0);
    }
}

/// Two pairs that both tell where the silence of one waveform ends and
/// begins are the same pair.
pub proof fn lemma_nonzero_area_is_unique(
    signal: Seq<i16>,
    first: (usize, usize),
    second: (usize, usize),
)
    requires
        spec_is_nonzero_area(signal, first),
        spec_is_nonzero_area(signal, second),
    ensures
        first == second,
{
    if first.0 < second.0 {
        assert(signal[first.0 as int] == 0);
    }
    if second.0 < first.0 {
        assert(signal[second.0 as int] == 0);
    }
    if first.1 < second.1 {
        assert(signal[second.1 as int] == 0);
    }
    if second.1 < first.1 {
        assert(signal[first.1 as int] == 0);
    }
}

/// Frames that a signal of `length` samples is cut into, the last one
/// possibly short.
pub fn frame_count(length: usize) -> (frames: usize)
    ensures
        frames == (length + TEMPO_ESTIMATION_FRAME_SIZE - 1) / (TEMPO_ESTIMATION_FRAME_SIZE as int),
{
    length / 64 + if length % 64 == 0 {
        0
    } else {
        1
    }
}

/// The lag, in frames, at which a beat of `beats_per_minute` comes back,
/// rounded down.
pub open spec fn spec_lag_for_tempo(sample_rate: int, beats_per_minute: int) -> int {
    (60 * sample_rate) / (beats_per_minute * TEMPO_ESTIMATION_FRAME_SIZE)
}

/// The lags among which a beat is looked for in an autocorrelation of
/// `length` lags: those of the tempos from 240 down to 30 beats per minute
/// that the autocorrelation holds. `None` where it holds none of them.
pub fn lag_search_range(sample_rate: u32, length: usize) -> (range: Option<(usize, usize)>)
    ensures
        range == if spec_lag_for_tempo(sample_rate as int, MAX_BEATS_PER_MINUTE as int) < length {
            Some(
                (
                    spec_lag_for_tempo(sample_rate as int, MAX_BEATS_PER_MINUTE as int) as usize,
                    if spec_lag_for_tempo(sample_rate as int, MIN_BEATS_PER_MINUTE as int)
                        < length {
                        spec_lag_for_tempo(sample_rate as int, MIN_BEATS_PER_MINUTE as int) as usize
                    } else {
                        (length - 1) as usize
                    },
                ),
            )
        } else {
            None
        },
{
    let beat_samples: u64 = 60 * sample_rate as u64;
    let frame: u64 = TEMPO_ESTIMATION_FRAME_SIZE as u64;
    let fastest: u64 = MAX_BEATS_PER_MINUTE as u64;
    let slowest: u64 = MIN_BEATS_PER_MINUTE as u64;
    assert(fastest * frame == 15360 && slowest * frame == 1920) by (nonlinear_arith)
        requires
            frame == 64,
            fastest == 240,
            slowest == 30,
    ;
    let min_lag: u64 = beat_samples / (fastest * frame);
    let max_lag: u64 = beat_samples / (slowest * frame);
    if min_lag >= length as u64 {
        return None;
    }
    let last: usize = if max_lag < length as u64 {
        max_lag as usize
    } else {
        length - 1
    };
    Some((min_lag as usize, last))
}

/// The tempo that a tempo estimation ends with: the tempo of the lag found,
/// in quarters of a beat per minute, and 120 beats per minute where no lag
/// was found or the lag names no tempo.
pub open spec fn spec_estimated_tempo(lag: Option<u32>, sample_rate: u32) -> Tempo {
    let fallback = Tempo { units: (DEFAULT_BEATS_PER_MINUTE * UNITS_PER_BPM) as u32 };
    match lag {
        Some(l) => {
            let quarters = spec_quarter_beats_for_lag(
                l as int,
                TEMPO_ESTIMATION_FRAME_SIZE as int,
                sample_rate as int,
            );
            if l > 0 && quarters * 16 <= u32::MAX {
                Tempo { units: (quarters * 16) as u32 }
            } else {
                fallback
            }
        },
        None => fallback,
    }
}

/// The tempo that a tempo estimation ends with, given the lowest lag whose
/// autocorrelation comes close to the peak, if there is one.
pub fn estimated_tempo(lag: Option<u32>, sample_rate: u32) -> (tempo: Tempo)
    ensures
        tempo == spec_estimated_tempo(lag, sample_rate),
{
    let fallback = Tempo { units: DEFAULT_BEATS_PER_MINUTE * UNITS_PER_BPM };
    match lag {
        Some(l) => match tempo_for_lag(l, TEMPO_ESTIMATION_FRAME_SIZE, sample_rate) {
            Some(t) => t,
            None => fallback,
        },
        None => fallback,
    }
}

} // verus!
