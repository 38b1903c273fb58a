use crate::memory::directory_address;
use crate::memory::spec_directory_address;
use crate::memory::DirectoryEntry;
use crate::tick::TickClock;
use crate::tick::CLOCK_TICK_CYCLE_64KHZ;
use crate::tick::TICKS_PER_SECOND;
use std::collections::BTreeMap;
use vstd::prelude::*;

verus! {

/// Bytes of one compressed block.
pub const BLOCK_BYTES: usize = 9;

/// Samples that one compressed block decodes to.
pub const BLOCK_SAMPLES: usize = 16;

/// What the analysis reads from the signal processor after an instruction:
/// the key-on register, the page of the sample directory and the source
/// number of each voice.
#[derive(Debug, Clone, Copy)]
pub struct KeyOnObservation {
    pub keyon: u8,
    pub directory_page: u8,
    pub sources: [u8; 8],
}

/// Whether the bit of voice `voice` is set in a register with one bit a voice.
pub open spec fn spec_voice_bit(flags: u8, voice: int) -> bool {
    (flags >> (voice as u8)) & 1u8 != 0
}

/// Whether voice `voice`, one of the first `limit` voices, is keyed on and
/// plays `source`.
pub open spec fn spec_plays(
    observation: KeyOnObservation,
    source: u8,
    voice: int,
    limit: int,
) -> bool {
    0 <= voice < limit && spec_voice_bit(observation.keyon, voice)
        && observation.sources@[voice] == source
}

/// Whether one of the first `limit` voices is keyed on and plays `source`.
pub open spec fn spec_keyed_on(observation: KeyOnObservation, source: u8, limit: int) -> bool {
    exists|voice: int| spec_plays(observation, source, voice, limit)
}

/// The directory addresses known after one more observation: every source
/// that a keyed-on one of the first `limit` voices plays gets the address
/// of its directory entry, whatever was known of it before; the others keep
/// what was known.
pub open spec fn spec_recorded(
    addresses: Map<u8, usize>,
    observation: KeyOnObservation,
    limit: int,
) -> Map<u8, usize> {
    Map::new(
        |source: u8| addresses.contains_key(source) || spec_keyed_on(observation, source, limit),
        |source: u8|
            if spec_keyed_on(observation, source, limit) {
                spec_directory_address(observation.directory_page, source) as usize
            } else {
                addresses[source]
            },
    )
}

/// Whether voice `voice` is keyed on in `flags`.
pub fn voice_bit(flags: u8, voice: u8) -> (set: bool)
    requires
        voice < 8,
    ensures
        set == spec_voice_bit(flags, voice as int),
{
    (flags >> voice) & 1 != 0
}

/// Notes the directory address of every source that a keyed-on voice plays.
/// A source seen before gets the address seen now.
pub fn record_keyons(addresses: &mut BTreeMap<u8, usize>, observation: &KeyOnObservation)
    ensures
        final(addresses)@ == spec_recorded(old(addresses)@, *observation, 8),
{
    assert(spec_recorded(addresses@, *observation, 0) =~= addresses@);
    let mut voice: u8 = 0;
    while voice < 8
        invariant
            voice <= 8,
            addresses@ == spec_recorded(old(addresses)@, *observation, voice as int),
        decreases 8 - voice,
    {
        proof {
            lemma_recorded_step(old(addresses)@, *observation, voice as int);
        }
        if voice_bit(observation.keyon, voice) {
            let source: u8 = observation.sources[voice as usize];
            let address: usize = directory_address(observation.directory_page, source);
            addresses.insert(source, address);
        }
        voice = voice + 1;
    }
}

/// One more voice looked at adds the source of that voice, where it is
/// keyed on, and nothing else.
proof fn lemma_recorded_step(addresses: Map<u8, usize>, observation: KeyOnObservation, voice: int)
    requires
        0 <= voice < 8,
    ensures
        spec_recorded(addresses, observation, voice + 1) == if spec_voice_bit(
            observation.keyon,
            voice,
        ) {
            spec_recorded(addresses, observation, voice).insert(
                observation.sources@[voice],
                spec_directory_address(observation.directory_page, observation.sources@[voice])
                    as usize,
            )
        } else {
            spec_recorded(addresses, observation, voice)
        },
{
    let next = voice + 1;
    let source = observation.sources@[voice];
    let keyed = spec_voice_bit(observation.keyon, voice);
    assert forall|s: u8|
        #[trigger] spec_keyed_on(observation, s, next) <==> ((keyed && s == source)
            || spec_keyed_on(observation, s, voice)) by {
        if spec_keyed_on(observation, s, next) {
            let v = choose|v: int| spec_plays(observation, s, v, next);
            if v < voice {
                assert(spec_plays(observation, s, v, voice));
            }
        }
        if spec_keyed_on(observation, s, voice) {
            let v = choose|v: int| spec_plays(observation, s, v, voice);
            assert(spec_plays(observation, s, v, next));
        }
        if keyed && s == source {
            assert(spec_plays(observation, s, voice, next));
        }
    }
    if keyed {
        assert(spec_recorded(addresses, observation, next) =~= spec_recorded(
            addresses,
            observation,
            voice,
        ).insert(
            source,
            spec_directory_address(observation.directory_page, source) as usize,
        ));
    } else {
        assert(spec_recorded(addresses, observation, next) =~= spec_recorded(
            addresses,
            observation,
            voice,
        ));
    }
}

/// Counts the ticks of an analysis that runs an emulator for a set time.
pub struct AnalysisWindow {
    clock: TickClock,
    ticks_done: u64,
    ticks_wanted: u64,
}

impl AnalysisWindow {
    #[verifier::type_invariant]
    spec fn well_formed(self) -> bool {
        &&& self.ticks_done <= self.ticks_wanted
        &&& self.clock.spec_period() == CLOCK_TICK_CYCLE_64KHZ
        &&& self.clock.spec_pending() < CLOCK_TICK_CYCLE_64KHZ
    }

    /// Ticks that the emulator has been given so far.
    pub closed spec fn spec_ticks_done(self) -> nat {
        self.ticks_done as nat
    }

    /// Ticks that the analysis lasts.
    pub closed spec fn spec_ticks_wanted(self) -> nat {
        self.ticks_wanted as nat
    }

    /// Cycles taken since the last tick.
    pub closed spec fn spec_pending(self) -> nat {
        self.clock.spec_pending()
    }

    /// Whether the emulator has been given every tick of the analysis.
    pub open spec fn spec_finished(self) -> bool {
        self.spec_ticks_done() >= self.spec_ticks_wanted()
    }

    /// A window of `duration_sec` seconds at 64000 ticks a second.
    pub fn new(duration_sec: u32) -> (window: AnalysisWindow)
        ensures
            window.spec_ticks_wanted() == duration_sec * TICKS_PER_SECOND,
            window.spec_ticks_done() == 0,
            window.spec_pending() == 0,
    {
        let per_second: u64 = TICKS_PER_SECOND as u64;
        assert(duration_sec * per_second <= 0xFFFF_FFFF * 64000) by (nonlinear_arith)
            requires
                duration_sec <= 0xFFFF_FFFF,
                per_second == 64000,
        ;
        AnalysisWindow {
            clock: TickClock::standard(),
            ticks_done: 0,
            ticks_wanted: duration_sec as u64 * per_second,
        }
    }

    pub fn ticks_done(&self) -> (ticks: u64)
        ensures
            ticks == self.spec_ticks_done(),
    {
        self.ticks_done
    }

    pub fn ticks_wanted(&self) -> (ticks: u64)
        ensures
            ticks == self.spec_ticks_wanted(),
    {
        self.ticks_wanted
    }

    pub fn finished(&self) -> (finished: bool)
        ensures
            finished == self.spec_finished(),
    {
        self.ticks_done >= self.ticks_wanted
    }

    /// Takes in the cycles of one instruction and returns how many ticks the
    /// emulator is to be given now: one for every sixteen cycles reached,
    /// but no more than the analysis still lasts. A finished window takes
    /// nothing in.
    pub fn advance(&mut self, cycles: u8) -> (ticks: u32)
        ensures
            final(self).spec_ticks_wanted() == old(self).spec_ticks_wanted(),
            final(self).spec_ticks_done() == old(self).spec_ticks_done() + ticks,
            final(self).spec_ticks_done() <= final(self).spec_ticks_wanted(),
            ticks == spec_ticks_due(
                old(self).spec_pending(),
                cycles,
                old(self).spec_ticks_wanted() - old(self).spec_ticks_done(),
            ),
            final(self).spec_pending() == if old(self).spec_finished() {
                old(self).spec_pending()
            } else {
                (old(self).spec_pending() + cycles as nat) % (CLOCK_TICK_CYCLE_64KHZ as nat)
            },
    {
        proof {
            use_type_invariant(&*self);
        }
        if self.ticks_done >= self.ticks_wanted {
            return 0;
        }
        let due: u32 = self.clock.advance(cycles);
        let left: u64 = self.ticks_wanted - self.ticks_done;
        let ticks: u32 = if due as u64 > left {
            left as u32
        } else {
            due
        };
        self.ticks_done = self.ticks_done + ticks as u64;
        ticks
    }
}

/// The ticks due when an instruction of `cycles` cycles ends with `pending`
/// cycles already taken and `left` ticks of the analysis to go.
pub open spec fn spec_ticks_due(pending: nat, cycles: u8, left: int) -> int {
    let due = (pending + cycles as nat) / (CLOCK_TICK_CYCLE_64KHZ as nat);
    if left <= 0 {
        0
    } else if due > left {
        left
    } else {
        due as int
    }
}

/// One instruction of the emulator as the analysis sees it: the cycles it
/// took and what the signal processor showed after it.
#[derive(Debug, Clone, Copy)]
pub struct AnalysisStep {
    pub cycles: u8,
    pub observation: KeyOnObservation,
}

/// What an analysis knows after some instructions.
pub struct AnalysisView {
    /// Ticks that the analysis lasts.
    pub ticks_wanted: nat,
    /// Ticks that the emulator has been given so far.
    pub ticks_done: nat,
    /// Cycles taken since the last tick.
    pub pending: nat,
    /// Directory address of every source that was keyed on so far.
    pub addresses: Map<u8, usize>,
}

/// What an analysis knows before the first instruction.
pub open spec fn spec_analysis_start(duration_sec: u32) -> AnalysisView {
    AnalysisView {
        ticks_wanted: (duration_sec * TICKS_PER_SECOND) as nat,
        ticks_done: 0,
        pending: 0,
        addresses: Map::empty(),
    }
}

/// What an analysis knows after one more instruction. While the analysis
/// runs, the sources keyed on are noted and the cycles counted. After its
/// end nothing changes.
pub open spec fn spec_analysis_step(state: AnalysisView, step: AnalysisStep) -> AnalysisView {
    if state.ticks_done >= state.ticks_wanted {
        state
    } else {
        AnalysisView {
            ticks_wanted: state.ticks_wanted,
            ticks_done: (state.ticks_done + spec_ticks_due(
                state.pending,
                step.cycles,
                state.ticks_wanted - state.ticks_done,
            )) as nat,
            pending: (state.pending + step.cycles as nat) % (CLOCK_TICK_CYCLE_64KHZ as nat),
            addresses: spec_recorded(state.addresses, step.observation, 8),
        }
    }
}

/// What an analysis of `duration_sec` seconds knows after the instructions
/// `steps`.
pub open spec fn spec_analysis(duration_sec: u32, steps: Seq<AnalysisStep>) -> AnalysisView
    decreases steps.len(),
{
    if steps.len() == 0 {
        spec_analysis_start(duration_sec)
    } else {
        spec_analysis_step(spec_analysis(duration_sec, steps.drop_last()), steps.last())
    }
}

/// Finds the sources that an emulator keys on while it runs for a set time.
pub struct SourceAnalyzer {
    window: AnalysisWindow,
    addresses: BTreeMap<u8, usize>,
}

impl View for SourceAnalyzer {
    type V = AnalysisView;

    closed spec fn view(&self) -> AnalysisView {
        AnalysisView {
            ticks_wanted: self.window.spec_ticks_wanted(),
            ticks_done: self.window.spec_ticks_done(),
            pending: self.window.spec_pending(),
            addresses: self.addresses@,
        }
    }
}

impl SourceAnalyzer {
    /// An analysis of `duration_sec` seconds that has seen nothing yet.
    pub fn new(duration_sec: u32) -> (analyzer: SourceAnalyzer)
        ensures
            analyzer@ == spec_analysis_start(duration_sec),
    {
        SourceAnalyzer { window: AnalysisWindow::new(duration_sec), addresses: BTreeMap::new() }
    }

    /// Whether the emulator has run for the time of the analysis.
    pub fn finished(&self) -> (finished: bool)
        ensures
            finished == (self@.ticks_done >= self@.ticks_wanted),
    {
        self.window.finished()
    }

    /// Takes in one instruction of the emulator: notes the sources that are
    /// keyed on after it, and returns how many ticks the emulator is to be
    /// given before its next instruction.
    pub fn observe(&mut self, step: &AnalysisStep) -> (ticks: u32)
        ensures
            final(self)@ == spec_analysis_step(old(self)@, *step),
            ticks == final(self)@.ticks_done - old(self)@.ticks_done,
    {
        if self.window.finished() {
            return 0;
        }
        record_keyons(&mut self.addresses, &step.observation);
        self.window.advance(step.cycles)
    }

    /// The directory address of every source found.
    pub fn addresses(&self) -> (addresses: &BTreeMap<u8, usize>)
        ensures
            addresses@ == self@.addresses,
    {
        &self.addresses
    }

    /// Ends the analysis and hands out the directory address of every
    /// source found.
    pub fn into_addresses(self) -> (addresses: BTreeMap<u8, usize>)
        ensures
            addresses@ == self@.addresses,
    {
        self.addresses
    }
}

/// Two analyses of the same length that see the same instructions know the
/// same: the sources found and their addresses depend on nothing else.
pub proof fn lemma_analysis_is_deterministic(
    duration_sec: u32,
    first: Seq<AnalysisStep>,
    second: Seq<AnalysisStep>,
)
    requires
        first.len() == second.len(),
        forall|i: int| 0 <= i < first.len() ==> first[i] == second[i],
    ensures
        spec_analysis(duration_sec, first) == spec_analysis(duration_sec, second),
{
    assert(first =~= second);
}

/// An analysis gives the emulator no more ticks than it lasts, and once it
/// has given them all, further instructions change nothing.
pub proof fn lemma_analysis_stays_in_its_window(duration_sec: u32, steps: Seq<AnalysisStep>)
    ensures
        spec_analysis(duration_sec, steps).ticks_wanted == duration_sec * TICKS_PER_SECOND,
        spec_analysis(duration_sec, steps).ticks_done <= spec_analysis(
            duration_sec,
            steps,
        ).ticks_wanted,
        spec_analysis(duration_sec, steps).pending < CLOCK_TICK_CYCLE_64KHZ,
    decreases steps.len(),
{
    if steps.len() > 0 {
        lemma_analysis_stays_in_its_window(duration_sec, steps.drop_last());
    }
}


/// The loudness of the voices that sound: the volumes, left and right, of
/// every voice whose bit is set among the first `limit` voices, added up.
pub open spec fn spec_onset_strength(noteon: u8, volumes: Seq<[u8; 2]>, limit: int) -> int
    decreases limit,
{
    if limit <= 0 {
        0
    } else {
        spec_onset_strength(noteon, volumes, limit - 1) + if spec_voice_bit(noteon, limit - 1) {
            volumes[limit - 1]@[0] as int + volumes[limit - 1]@[1] as int
        } else {
            0
        }
    }
}

/// The loudness of the voices that sound at one tick: the volumes, left and
/// right, of every voice whose bit is set in `noteon`, added up.
pub fn onset_strength(noteon: u8, volumes: &[[u8; 2]; 8]) -> (strength: u16)
    ensures
        strength == spec_onset_strength(noteon, volumes@, 8),
{
    let mut strength: u16 = 0;
    let mut voice: u8 = 0;
    while voice < 8
        invariant
            voice <= 8,
            strength == spec_onset_strength(noteon, volumes@, voice as int),
            strength <= 510 * voice,
        decreases 8 - voice,
    {
        if voice_bit(noteon, voice) {
            let pair: &[u8; 2] = &volumes[voice as usize];
            strength = strength + pair[0] as u16 + pair[1] as u16;
        }
        voice = voice + 1;
    }
    strength
}

/// A decoded source: its waveform and where it lies in memory.
#[derive(Debug, Clone)]
pub struct SourceInformation {
    /// The decoded waveform.
    pub signal: Vec<i16>,
    /// Address of the first compressed block.
    pub start_address: usize,
    /// Address just past the compressed blocks that were decoded.
    pub end_address: usize,
    /// Sample at which the loop starts; the length of the waveform where
    /// the source does not loop.
    pub loop_start_sample: usize,
}

/// The sample that a loop address stands for: sixteen samples for every
/// nine bytes after the start, rounded down.
pub open spec fn spec_loop_sample(entry: DirectoryEntry) -> int {
    (entry.loop_address - entry.start_address) * 16 / 9
}

/// The sample at which a source of `length` samples loops: the sample of
/// the loop address where that lies inside the waveform, and `length`, which
/// stands for no loop, where the loop address lies before the start or past
/// the end.
pub open spec fn spec_loop_start_sample(entry: DirectoryEntry, length: int) -> int {
    if entry.loop_address >= entry.start_address && spec_loop_sample(entry) <= length {
        spec_loop_sample(entry)
    } else {
        length
    }
}

/// The address just past the compressed blocks of `length` samples: nine
/// bytes for every sixteen samples, rounded down.
pub open spec fn spec_end_address(entry: DirectoryEntry, length: int) -> int {
    entry.start_address + length * 9 / 16
}

impl SourceInformation {
    /// Whether the loop starts inside the waveform or at its end.
    pub open spec fn well_formed(self) -> bool {
        self.loop_start_sample <= self.signal@.len()
    }

    /// Describes the source whose directory entry is `entry` and which
    /// decodes to `signal`.
    pub fn from_decoded(signal: Vec<i16>, entry: DirectoryEntry) -> (information: SourceInformation)
        requires
            signal@.len() * 9 <= usize::MAX,
        ensures
            information.well_formed(),
            information.signal@ == signal@,
            information.start_address == entry.start_address,
            information.end_address == spec_end_address(entry, signal@.len() as int),
            information.loop_start_sample == spec_loop_start_sample(entry, signal@.len() as int),
    {
        let length: usize = signal.len();
        let start: usize = entry.start_address as usize;
        let end: usize = start + (length * BLOCK_BYTES) / BLOCK_SAMPLES;
        let loop_start: usize = if entry.loop_address >= entry.start_address {
            let sample: usize = ((entry.loop_address - entry.start_address) as usize
                * BLOCK_SAMPLES) / BLOCK_BYTES;
            if sample <= length {
                sample
            } else {
                length
            }
        } else {
            length
        };
        SourceInformation {
            signal,
            start_address: start,
            end_address: end,
            loop_start_sample: loop_start,
        }
    }

    /// Whether the source plays once, without a loop.
    pub fn is_one_shot(&self) -> (one_shot: bool)
        ensures
            one_shot == (self.loop_start_sample == self.signal@.len()),
    {
        self.loop_start_sample == self.signal.len()
    }
}

} // verus!
