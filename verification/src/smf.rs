use crate::tick::CLOCK_TICK_CYCLE_64KHZ;
use crate::tick::CLOCK_TICK_CYCLE_64KHZ_NANOSEC;
use crate::types::MIDIOutputConfigure;
use vstd::prelude::*;

verus! {

/// Nanoseconds in one minute.
pub const NANOSEC_PER_MINUTE: u128 = 60000000000;

/// Nanoseconds in one millisecond.
pub const NANOSEC_PER_MSEC: u64 = 1000000;

/// Longest export, in milliseconds: the longest whose nanoseconds 64 bits
/// hold.
pub const MAX_EXPORT_DURATION_MSEC: u64 = 18446744073709;

/// Largest clock multiplier: the largest for which sixteen times the
/// multiplier fits 32 bits.
pub const MAX_CLOCKUP_FACTOR: u32 = 0x0FFF_FFFF;

/// Largest number of ticks per quarter note that a file can name.
pub const MAX_TICKS_PER_QUARTER: u16 = 0x7FFF;

/// Largest number of microseconds per quarter note that a tempo event can
/// hold in its three bytes.
pub const MAX_TEMPO_USEC: u32 = 0xFF_FFFF;

/// Largest number of bytes that the events of a track can take: the
/// length of a track, which adds four bytes for its end, is written in
/// four bytes.
pub const MAX_TRACK_BODY_BYTES: u64 = 0xFFFF_FFFB;

/// What a track event carries.
#[derive(Debug, Clone, PartialEq, Eq)]
pub enum EventBody {
    /// A message of the protocol, status byte first.
    Midi { data: Vec<u8> },
    /// The meta event that sets the tempo, in microseconds per quarter note.
    Tempo { usec_per_quarter: u32 },
}

/// An event of a track, with the ticks that pass between the event before
/// it and itself.
#[derive(Debug, Clone, PartialEq, Eq)]
pub struct TrackEvent {
    pub vtime: u64,
    pub body: EventBody,
}

/// A file of one track, ready to be written.
#[derive(Debug, Clone)]
pub struct Smf {
    /// Ticks per quarter note.
    pub division: i16,
    /// Name of the track.
    pub name: String,
    /// Events of the track, in the order in which they happen.
    pub events: Vec<TrackEvent>,
}

/// Why a file cannot be exported with the settings given.
#[derive(Debug, Clone, Copy, PartialEq, Eq, Structural)]
pub enum ExportError {
    /// The tempo is zero, or so slow that the microseconds of a quarter note
    /// do not fit the three bytes of a tempo event.
    TempoOutOfRange,
    /// The clock multiplier is above `MAX_CLOCKUP_FACTOR`.
    ClockupOutOfRange,
    /// The export is longer than `MAX_EXPORT_DURATION_MSEC`.
    DurationOutOfRange,
    /// There are more than `MAX_TICKS_PER_QUARTER` ticks in a quarter note.
    ResolutionOutOfRange,
}

/// What a track event carries, its bytes as sequences.
pub enum EventBodyView {
    Midi { data: Seq<u8> },
    Tempo { usec_per_quarter: u32 },
}

/// An event of a track, its bytes as sequences.
pub struct TrackEventView {
    pub vtime: u64,
    pub body: EventBodyView,
}

impl View for EventBody {
    type V = EventBodyView;

    open spec fn view(&self) -> EventBodyView {
        match *self {
            EventBody::Midi { data } => EventBodyView::Midi { data: data@ },
            EventBody::Tempo { usec_per_quarter } => EventBodyView::Tempo { usec_per_quarter },
        }
    }
}

impl View for TrackEvent {
    type V = TrackEventView;

    open spec fn view(&self) -> TrackEventView {
        TrackEventView { vtime: self.vtime, body: self.body@ }
    }
}

/// The events of a track, their bytes as sequences.
pub open spec fn spec_views(events: Seq<TrackEvent>) -> Seq<TrackEventView> {
    Seq::new(events.len(), |i: int| events[i]@)
}

/// The three bytes that hold the microseconds of a quarter note, highest
/// byte first.
pub open spec fn spec_tempo_data(usec: u32) -> Seq<u8> {
    seq![
        ((usec >> 16u32) & 0xFFu32) as u8,
        ((usec >> 8u32) & 0xFFu32) as u8,
        (usec & 0xFFu32) as u8,
    ]
}

/// The ticks that have passed after `elapsed_nanosec` nanoseconds at
/// `ticks_per_minute` ticks a minute, rounded down.
pub open spec fn spec_ticks_at(elapsed_nanosec: int, ticks_per_minute: int) -> int {
    elapsed_nanosec * ticks_per_minute / (NANOSEC_PER_MINUTE as int)
}

/// The ticks between the events of a track, added up.
pub open spec fn spec_vtime_sum(events: Seq<TrackEventView>) -> int
    decreases events.len(),
{
    if events.len() == 0 {
        0
    } else {
        spec_vtime_sum(events.drop_last()) + events.last().vtime as int
    }
}

/// The events that a batch of messages adds to a track: one event for each
/// message, in their order; the first waits `delta` ticks, the others none.
pub open spec fn spec_batch_events(messages: Seq<Seq<u8>>, delta: u64) -> Seq<TrackEventView> {
    Seq::new(
        messages.len(),
        |i: int|
            TrackEventView {
                vtime: if i == 0 {
                    delta
                } else {
                    0
                },
                body: EventBodyView::Midi { data: messages[i] },
            },
    )
}

/// The bytes of a variable-length number that come before its last byte:
/// seven bits each, highest first, each with the top bit set.
pub open spec fn spec_vlq_head(value: nat) -> Seq<u8>
    decreases value,
{
    if value == 0 {
        Seq::empty()
    } else {
        spec_vlq_head(value / 128).push((value % 128 + 128) as u8)
    }
}

/// A number as the file writes it: seven bits to a byte, highest first,
/// the top bit set on every byte but the last.
pub open spec fn spec_vlq(value: nat) -> Seq<u8> {
    spec_vlq_head(value / 128).push((value % 128) as u8)
}

/// The bytes of what an event carries: a message as it is; a tempo as a
/// meta event of command 0x51 with three bytes of data.
pub open spec fn spec_event_bytes(body: EventBodyView) -> Seq<u8> {
    match body {
        EventBodyView::Midi { data } => data,
        EventBodyView::Tempo { usec_per_quarter } => seq![0xFFu8, 0x51u8, 0x03u8] + spec_tempo_data(
            usec_per_quarter,
        ),
    }
}

/// The bytes of the events of a track: for each event the ticks it waits,
/// as a variable-length number, and then what it carries.
pub open spec fn spec_track_body(events: Seq<TrackEventView>) -> Seq<u8>
    decreases events.len(),
{
    if events.len() == 0 {
        Seq::empty()
    } else {
        spec_track_body(events.drop_last()) + spec_vlq(events.last().vtime as nat)
            + spec_event_bytes(events.last().body)
    }
}

/// A number in four bytes, highest first.
pub open spec fn spec_be32(value: nat) -> Seq<u8> {
    seq![
        (value / 0x100_0000 % 256) as u8,
        (value / 0x1_0000 % 256) as u8,
        (value / 0x100 % 256) as u8,
        (value % 256) as u8,
    ]
}

/// A number in two bytes, highest first.
pub open spec fn spec_be16(value: nat) -> Seq<u8> {
    seq![(value / 0x100 % 256) as u8, (value % 256) as u8]
}

/// The chunk of a track: the mark `MTrk`, the length of what follows, the
/// events, and the meta event that ends the track.
pub open spec fn spec_track_chunk(events: Seq<TrackEventView>) -> Seq<u8> {
    let body = spec_track_body(events) + seq![0x00u8, 0xFFu8, 0x2Fu8, 0x00u8];
    seq![0x4Du8, 0x54u8, 0x72u8, 0x6Bu8] + spec_be32(body.len()) + body
}

/// The bytes of a file of one track: the header chunk, which names format
/// 0, one track and the ticks per quarter note, and the chunk of the track.
pub open spec fn spec_smf_bytes(division: i16, events: Seq<TrackEventView>) -> Seq<u8> {
    seq![0x4Du8, 0x54u8, 0x68u8, 0x64u8, 0u8, 0u8, 0u8, 6u8, 0u8, 0u8, 0u8, 1u8] + spec_be16(
        (if division >= 0 {
            division as int
        } else {
            division + 0x1_0000
        }) as nat,
    ) + spec_track_chunk(events)
}

/// Whether every tempo among the events is one that a tempo event can be
/// made of.
pub open spec fn spec_tempos_in_range(events: Seq<TrackEventView>) -> bool {
    forall|i: int|
        0 <= i < events.len() ==> (#[trigger] events[i].body matches EventBodyView::Tempo {
            usec_per_quarter,
        } ==> usec_per_quarter <= 0x100_0000)
}

/// Whether a track can be written: its tempos are in range and its events
/// take no more bytes than the length field of a track can count.
pub open spec fn spec_encodable(events: Seq<TrackEventView>) -> bool {
    spec_tempos_in_range(events) && spec_track_body(events).len() <= MAX_TRACK_BODY_BYTES
}

/// The bytes of a file of one track with the given events.
///
/// Trusted: this builds a `rimd::SMF` of format `Single` with one track and
/// writes it with `rimd::SMFWriter::from_smf` and `write_all` into a vector.
/// A tempo event is made by `rimd::MetaEvent::tempo_setting`, which stops
/// the program for a number above 2^24. The writer counts the length of the
/// track in 32 bits. It writes the header chunk, then the track: each event
/// as its delta time and its bytes, and an end-of-track event after the
/// last, since the events hold none. The name and the copyright of a track
/// are not written.
#[verifier::external_body]
fn write_smf(division: i16, name: &String, events: &Vec<TrackEvent>) -> (bytes: Vec<u8>)
    requires
        spec_encodable(spec_views(events@)),
    ensures
        bytes@ == spec_smf_bytes(division, spec_views(events@)),
{
    let events = events.iter().map(|e| rimd::TrackEvent {
        vtime: e.vtime,
        event: match &e.body {
            EventBody::Midi { data } => rimd::Event::Midi(rimd::MidiMessage { data: data.clone() }),
            EventBody::Tempo { usec_per_quarter } => rimd::Event::Meta(
                rimd::MetaEvent::tempo_setting(*usec_per_quarter),
            ),
        },
    }).collect();
    let track = rimd::Track { copyright: Some(String::new()), name: Some(name.clone()), events };
    let smf = rimd::SMF { format: rimd::SMFFormat::Single, tracks: vec![track], division };
    let mut bytes: Vec<u8> = Vec::new();
    let _ = rimd::SMFWriter::from_smf(smf).write_all(&mut bytes);
    bytes
}

/// The number of bytes that a variable-length number takes.
pub fn vlq_len(value: u64) -> (length: u64)
    ensures
        length == spec_vlq(value as nat).len(),
{
    let mut length: u64 = 1;
    let mut rest: u64 = value / 128;
    while rest > 0
        invariant
            length + spec_vlq_head(rest as nat).len() == 1 + spec_vlq_head((value / 128) as nat).len(),
            length + rest <= 1 + value / 128,
        decreases rest,
    {
        length = length + 1;
        rest = rest / 128;
    }
    length
}

/// The number of bytes that an event takes in a track.
pub fn event_len(event: &TrackEvent) -> (length: Option<u64>)
    ensures
        length == if spec_vlq(event.vtime as nat).len() + spec_event_bytes(event@.body).len()
            <= u64::MAX {
            Some((spec_vlq(event.vtime as nat).len() + spec_event_bytes(event@.body).len()) as u64)
        } else {
            None
        },
{
    let delta: u64 = vlq_len(event.vtime);
    let body: u64 = match &event.body {
        EventBody::Midi { data } => data.len() as u64,
        EventBody::Tempo { usec_per_quarter } => {
            assert(spec_event_bytes(event@.body).len() == 6);
            6
        },
    };
    if body > u64::MAX - delta {
        None
    } else {
        Some(delta + body)
    }
}

impl Smf {
    /// The bytes of the file, or `None` where the track cannot be written:
    /// where a tempo is above 2^24 microseconds per quarter note, or where
    /// the events take more than `MAX_TRACK_BODY_BYTES` bytes.
    pub fn to_bytes(&self) -> (bytes: Option<Vec<u8>>)
        ensures
            bytes is Some <==> spec_encodable(spec_views(self.events@)),
            bytes matches Some(b) ==> b@ == spec_smf_bytes(self.division, spec_views(self.events@)),
    {
        let ghost views = spec_views(self.events@);
        let mut total: u64 = 0;
        let mut i: usize = 0;
        assert(views.take(0) =~= Seq::<TrackEventView>::empty());
        while i < self.events.len()
            invariant
                i <= self.events@.len(),
                views == spec_views(self.events@),
                total == spec_track_body(views.take(i as int)).len(),
                total <= MAX_TRACK_BODY_BYTES,
                spec_tempos_in_range(views.take(i as int)),
            decreases self.events@.len() - i,
        {
            let event: &TrackEvent = &self.events[i];
            let ghost step = spec_vlq(event.vtime as nat).len() + spec_event_bytes(
                event@.body,
            ).len();
            proof {
                assert(views.take(i + 1).drop_last() =~= views.take(i as int));
                assert(views.take(i + 1).last() == event@);
                assert(spec_track_body(views.take(i + 1)).len() == total + step);
                lemma_track_body_grows(views, i + 1, views.len() as int);
                assert(views.take(views.len() as int) =~= views);
                assert(spec_track_body(views).len() >= total + step);
            }
            let in_range: bool = match &event.body {
                EventBody::Tempo { usec_per_quarter } => *usec_per_quarter <= 0x100_0000,
                EventBody::Midi { data } => true,
            };
            if !in_range {
                assert(!spec_tempos_in_range(views)) by {
                    assert(views[i as int] == event@);
                }
                return None;
            }
            let length: u64 = match event_len(event) {
                Some(length) => length,
                None => {
                    return None;
                },
            };
            if length > MAX_TRACK_BODY_BYTES - total {
                return None;
            }
            total = total + length;
            proof {
                assert forall|k: int| 0 <= k < i + 1 implies (#[trigger] views.take(
                    i + 1,
                )[k].body matches EventBodyView::Tempo { usec_per_quarter } ==> usec_per_quarter
                    <= 0x100_0000) by {
                    if k < i {
                        assert(views.take(i as int)[k] == views.take(i + 1)[k]);
                    }
                }
            }
            i = i + 1;
        }
        assert(views.take(self.events@.len() as int) =~= views);
        Some(write_smf(self.division, &self.name, &self.events))
    }
}

/// A longer part of a track takes at least as many bytes as a shorter one.
pub proof fn lemma_track_body_grows(events: Seq<TrackEventView>, shorter: int, longer: int)
    requires
        0 <= shorter <= longer <= events.len(),
    ensures
        spec_track_body(events.take(shorter)).len() <= spec_track_body(events.take(longer)).len(),
    decreases longer - shorter,
{
    if shorter < longer {
        lemma_track_body_grows(events, shorter, longer - 1);
        assert(events.take(longer).drop_last() =~= events.take(longer - 1));
    }
}


/// The state of an export that an emulator is run for.
pub struct SmfView {
    /// Cycles of the processor from one tick of the emulator to the next.
    /// With zero the emulator is given its ticks without an instruction
    /// between them.
    pub period: nat,
    /// Cycles taken since the last tick.
    pub pending: nat,
    /// Ticks of the file in one minute.
    pub ticks_per_minute: nat,
    /// Ticks per quarter note.
    pub division: i16,
    /// Length of the export, in nanoseconds.
    pub duration_nanosec: nat,
    /// Time that the emulator has run, in nanoseconds.
    pub elapsed_nanosec: nat,
    /// Ticks of the file up to the last event.
    pub total_ticks: nat,
    /// Events so far.
    pub events: Seq<TrackEventView>,
}

impl SmfView {
    /// Whether the emulator has run for the length of the export.
    pub open spec fn finished(self) -> bool {
        self.elapsed_nanosec >= self.duration_nanosec
    }

    /// Whether the emulator is to be given a tick before its next
    /// instruction: the cycles taken have reached the period.
    pub open spec fn tick_due(self) -> bool {
        self.pending >= self.period
    }
}

/// Collects the messages of an emulator into the events of a track, each
/// at the tick of the file at which it was sent.
pub struct SmfRecorder {
    period: u64,
    pending: u64,
    ticks_per_minute: u64,
    division: i16,
    duration_nanosec: u64,
    elapsed_nanosec: u128,
    total_ticks: u128,
    events: Vec<TrackEvent>,
}

impl View for SmfRecorder {
    type V = SmfView;

    closed spec fn view(&self) -> SmfView {
        SmfView {
            period: self.period as nat,
            pending: self.pending as nat,
            ticks_per_minute: self.ticks_per_minute as nat,
            division: self.division,
            duration_nanosec: self.duration_nanosec as nat,
            elapsed_nanosec: self.elapsed_nanosec as nat,
            total_ticks: self.total_ticks as nat,
            events: spec_views(self.events@),
        }
    }
}

/// The error that stops an export with the settings given, if any. The
/// settings are looked at in this order: tempo, clock multiplier, length,
/// resolution.
pub open spec fn spec_export_error(configure: MIDIOutputConfigure) -> Option<ExportError> {
    if configure.beats_per_minute.units == 0 || configure.beats_per_minute.spec_quarter_note_usec()
        > MAX_TEMPO_USEC {
        Some(ExportError::TempoOutOfRange)
    } else if configure.spc_clockup_factor > MAX_CLOCKUP_FACTOR {
        Some(ExportError::ClockupOutOfRange)
    } else if configure.output_duration_msec > MAX_EXPORT_DURATION_MSEC {
        Some(ExportError::DurationOutOfRange)
    } else if configure.ticks_per_quarter > MAX_TICKS_PER_QUARTER {
        Some(ExportError::ResolutionOutOfRange)
    } else {
        None
    }
}

/// The state of an export after an instruction of `cycles` cycles. The
/// cycles are counted unless a tick is due first or the export has run its
/// length.
pub open spec fn spec_taken_cycles(state: SmfView, cycles: u8) -> SmfView {
    if state.finished() || state.tick_due() {
        state
    } else {
        SmfView { pending: state.pending + cycles as nat, ..state }
    }
}

/// The ticks that the first event of a batch waits: the ticks from the last
/// event to the tick that the time has reached, and no more than 64 bits
/// hold.
pub open spec fn spec_batch_delta(now: int, total_ticks: int) -> u64 {
    if now - total_ticks > u64::MAX {
        u64::MAX
    } else {
        (now - total_ticks) as u64
    }
}

/// The state of an export after one tick of the emulator at which it sent
/// `messages`. The tick uses up one period of cycles and the time moves on
/// by one tick of the emulator. Messages are added to the track at the tick
/// of the file that the time has reached. Nothing changes where no tick is
/// due or the export has run its length.
pub open spec fn spec_recorded_tick(state: SmfView, messages: Seq<Seq<u8>>) -> SmfView {
    if state.finished() || !state.tick_due() {
        state
    } else {
        let pending = (state.pending - state.period) as nat;
        let elapsed = state.elapsed_nanosec + CLOCK_TICK_CYCLE_64KHZ_NANOSEC as nat;
        let now = spec_ticks_at(elapsed as int, state.ticks_per_minute as int);
        let delta = spec_batch_delta(now, state.total_ticks as int);
        if messages.len() == 0 {
            SmfView { pending, elapsed_nanosec: elapsed, ..state }
        } else {
            SmfView {
                pending,
                elapsed_nanosec: elapsed,
                total_ticks: state.total_ticks + delta as nat,
                events: state.events + spec_batch_events(messages, delta),
                ..state
            }
        }
    }
}

impl SmfRecorder {
    /// Whether the recorder is in a state that `new` and the methods bring
    /// it to: the time has not run past the length of the export by more
    /// than one tick, and the ticks between the events add up to the tick of
    /// the last batch.
    pub closed spec fn wf(self) -> bool {
        &&& self.period <= MAX_CLOCKUP_FACTOR * CLOCK_TICK_CYCLE_64KHZ
        &&& self.pending < self.period + 256
        &&& self.ticks_per_minute <= 0x0400_0000 * 0x8000
        &&& self.elapsed_nanosec <= self.duration_nanosec + CLOCK_TICK_CYCLE_64KHZ_NANOSEC
        &&& self.total_ticks as int <= spec_ticks_at(
            self.elapsed_nanosec as int,
            self.ticks_per_minute as int,
        )
        &&& spec_vtime_sum(spec_views(self.events@)) == self.total_ticks
    }

    /// Starts an export with the settings given. The track begins with the
    /// event that sets the tempo.
    pub fn new(configure: &MIDIOutputConfigure) -> (result: Result<SmfRecorder, ExportError>)
        ensures
            match result {
                Ok(recorder) => {
                    &&& recorder.wf()
                    &&& spec_export_error(*configure) is None
                    &&& recorder@ == (SmfView {
                        period: (configure.spc_clockup_factor * CLOCK_TICK_CYCLE_64KHZ) as nat,
                        pending: 0,
                        ticks_per_minute: ((configure.beats_per_minute.units / 64)
                            * configure.ticks_per_quarter) as nat,
                        division: configure.ticks_per_quarter as i16,
                        duration_nanosec: (configure.output_duration_msec * NANOSEC_PER_MSEC) as nat,
                        elapsed_nanosec: 0,
                        total_ticks: 0,
                        events: seq![
                            TrackEventView {
                                vtime: 0,
                                body: EventBodyView::Tempo {
                                    usec_per_quarter:
                                        configure.beats_per_minute.spec_quarter_note_usec() as u32,
                                },
                            },
                        ],
                    })
                },
                Err(error) => spec_export_error(*configure) == Some(error),
            },
    {
        let usec: u32 = match configure.beats_per_minute.quarter_note_usec() {
            Some(usec) => usec,
            None => {
                return Err(ExportError::TempoOutOfRange);
            },
        };
        if usec > MAX_TEMPO_USEC {
            return Err(ExportError::TempoOutOfRange);
        }
        if configure.spc_clockup_factor > MAX_CLOCKUP_FACTOR {
            return Err(ExportError::ClockupOutOfRange);
        }
        if configure.output_duration_msec > MAX_EXPORT_DURATION_MSEC {
            return Err(ExportError::DurationOutOfRange);
        }
        if configure.ticks_per_quarter > MAX_TICKS_PER_QUARTER {
            return Err(ExportError::ResolutionOutOfRange);
        }
        let whole: u64 = configure.beats_per_minute.whole_beats() as u64;
        let resolution: u64 = configure.ticks_per_quarter as u64;
        assert(whole * resolution <= 0x0400_0000 * 0x8000) by (nonlinear_arith)
            requires
                whole <= 0x0400_0000,
                resolution <= 0x8000,
        ;
        let mut events: Vec<TrackEvent> = Vec::new();
        events.push(TrackEvent { vtime: 0, body: EventBody::Tempo { usec_per_quarter: usec } });
        proof {
            let views = spec_views(events@);
            assert(views =~= seq![
                TrackEventView { vtime: 0, body: EventBodyView::Tempo { usec_per_quarter: usec } },
            ]);
            assert(views.drop_last() =~= Seq::<TrackEventView>::empty());
            assert(spec_vtime_sum(views.drop_last()) == 0);
            assert(spec_vtime_sum(views) == 0);
            assert(spec_ticks_at(0, (whole * resolution) as int) == 0) by (nonlinear_arith)
                requires
                    NANOSEC_PER_MINUTE == 60000000000,
            ;
        }
        Ok(
            SmfRecorder {
                period: configure.spc_clockup_factor as u64 * CLOCK_TICK_CYCLE_64KHZ as u64,
                pending: 0,
                ticks_per_minute: whole * resolution,
                division: configure.ticks_per_quarter as i16,
                duration_nanosec: configure.output_duration_msec * NANOSEC_PER_MSEC,
                elapsed_nanosec: 0,
                total_ticks: 0,
                events,
            },
        )
    }

    /// Whether the emulator has run for the length of the export.
    pub fn finished(&self) -> (finished: bool)
        ensures
            finished == self@.finished(),
    {
        self.elapsed_nanosec >= self.duration_nanosec as u128
    }

    /// Whether the emulator is to be given a tick before its next
    /// instruction.
    pub fn tick_due(&self) -> (due: bool)
        ensures
            due == self@.tick_due(),
    {
        self.pending >= self.period
    }

    /// Takes in the cycles of one instruction. They are not counted where a
    /// tick is due first, or where the export has run its length.
    pub fn take_cycles(&mut self, cycles: u8)
        requires
            old(self).wf(),
        ensures
            final(self).wf(),
            final(self)@ == spec_taken_cycles(old(self)@, cycles),
    {
        if self.elapsed_nanosec >= self.duration_nanosec as u128 || self.pending >= self.period {
            return ;
        }
        self.pending = self.pending + cycles as u64;
    }

    /// Notes that the emulator was given one tick, and what it sent then.
    /// A batch that holds messages adds them to the track at the tick of
    /// the file that the time has reached; no batch, or an empty one, adds
    /// nothing. Nothing is taken in where no tick is due, or once the
    /// export has run its length.
    pub fn record_tick(&mut self, batch: Option<&Vec<Vec<u8>>>)
        requires
            old(self).wf(),
        ensures
            final(self).wf(),
            final(self)@ == spec_recorded_tick(
                old(self)@,
                match batch {
                    Some(messages) => crate::midi::spec_bytes_of(messages@),
                    None => Seq::empty(),
                },
            ),
    {
        if self.elapsed_nanosec >= self.duration_nanosec as u128 || self.pending < self.period {
            return ;
        }
        let elapsed: u128 = self.elapsed_nanosec + CLOCK_TICK_CYCLE_64KHZ_NANOSEC as u128;
        let ghost before = spec_views(self.events@);
        proof {
            lemma_ticks_at_grows(
                self.elapsed_nanosec as int,
                elapsed as int,
                self.ticks_per_minute as int,
            );
        }
        self.pending = self.pending - self.period;
        self.elapsed_nanosec = elapsed;
        let messages: &Vec<Vec<u8>> = match batch {
            Some(messages) => messages,
            None => {
                return ;
            },
        };
        if messages.len() == 0 {
            return ;
        }
        let ghost bytes = crate::midi::spec_bytes_of(messages@);
        assert(elapsed * self.ticks_per_minute <= 0x2_0000_0000_0000_0000 * (0x0400_0000 * 0x8000))
            by (nonlinear_arith)
            requires
                0 <= elapsed <= 0x2_0000_0000_0000_0000,
                0 <= self.ticks_per_minute <= 0x0400_0000 * 0x8000,
        ;
        let now: u128 = elapsed * self.ticks_per_minute as u128 / NANOSEC_PER_MINUTE;
        let gap: u128 = now - self.total_ticks;
        let delta: u64 = if gap > u64::MAX as u128 {
            u64::MAX
        } else {
            gap as u64
        };
        proof {
            lemma_batch_vtime_sum(before, bytes, delta);
        }
        let mut i: usize = 0;
        while i < messages.len()
            invariant
                i <= messages@.len(),
                bytes == crate::midi::spec_bytes_of(messages@),
                spec_views(self.events@) == before + spec_batch_events(bytes, delta).take(i as int),
                self.period == old(self).period,
                self.pending == old(self).pending - old(self).period,
                self.ticks_per_minute == old(self).ticks_per_minute,
                self.duration_nanosec == old(self).duration_nanosec,
                self.division == old(self).division,
                self.elapsed_nanosec == elapsed,
                self.total_ticks == old(self).total_ticks,
            decreases messages@.len() - i,
        {
            let vtime: u64 = if i == 0 {
                delta
            } else {
                0
            };
            let data: Vec<u8> = messages[i].clone();
            assert(data@ =~= messages@[i as int]@);
            let ghost shorter = self.events@;
            self.events.push(TrackEvent { vtime, body: EventBody::Midi { data } });
            proof {
                assert(spec_views(self.events@) =~= spec_views(shorter).push(
                    TrackEventView { vtime, body: EventBodyView::Midi { data: bytes[i as int] } },
                ));
                assert(spec_views(self.events@) =~= before + spec_batch_events(bytes, delta).take(
                    i + 1,
                ));
            }
            i = i + 1;
        }
        proof {
            assert(spec_batch_events(bytes, delta).take(messages@.len() as int)
                =~= spec_batch_events(bytes, delta));
        }
        self.total_ticks = self.total_ticks + delta as u128;
    }

    /// The events so far.
    pub fn events(&self) -> (events: &Vec<TrackEvent>)
        ensures
            spec_views(events@) == self@.events,
    {
        &self.events
    }

    /// Ends the export and hands out the file, its track named `name`.
    pub fn finish(self, name: String) -> (smf: Smf)
        ensures
            smf.division == self@.division,
            smf.name@ == name@,
            spec_views(smf.events@) == self@.events,
    {
        Smf { division: self.division, name, events: self.events }
    }
}

/// In every state that a recorder reaches, the ticks between the events add
/// up to the tick of the last batch, which is no later than the tick that
/// the time has reached; the time has not run past the length of the
/// export by more than one tick of the emulator; and fewer than one period
/// and one instruction of cycles are pending.
pub proof fn lemma_recorder_keeps_time(recorder: SmfRecorder)
    requires
        recorder.wf(),
    ensures
        spec_vtime_sum(recorder@.events) == recorder@.total_ticks,
        recorder@.total_ticks <= spec_ticks_at(
            recorder@.elapsed_nanosec as int,
            recorder@.ticks_per_minute as int,
        ),
        recorder@.elapsed_nanosec <= recorder@.duration_nanosec + CLOCK_TICK_CYCLE_64KHZ_NANOSEC,
        recorder@.pending < recorder@.period + 256,
{
}

/// What the emulator of an export does next: an instruction of so many
/// cycles, or a tick.
pub enum ExportStep {
    Instruction { cycles: u8 },
    Tick,
}

/// The state of an export after one step of its emulator that sends no
/// message.
pub open spec fn spec_stepped(state: SmfView, step: ExportStep) -> SmfView {
    match step {
        ExportStep::Instruction { cycles } => spec_taken_cycles(state, cycles),
        ExportStep::Tick => spec_recorded_tick(state, Seq::empty()),
    }
}

/// The state of an export after the steps `steps` of its emulator.
pub open spec fn spec_ran(state: SmfView, steps: Seq<ExportStep>) -> SmfView
    decreases steps.len(),
{
    if steps.len() == 0 {
        state
    } else {
        spec_stepped(spec_ran(state, steps.drop_last()), steps.last())
    }
}

/// The cycles that an export counts over the steps `steps`: those of the
/// instructions that come while no tick is due and the export still runs.
pub open spec fn spec_cycles_counted(state: SmfView, steps: Seq<ExportStep>) -> nat
    decreases steps.len(),
{
    if steps.len() == 0 {
        0
    } else {
        let before = spec_ran(state, steps.drop_last());
        spec_cycles_counted(state, steps.drop_last()) + match steps.last() {
            ExportStep::Instruction { cycles } => if before.finished() || before.tick_due() {
                0nat
            } else {
                cycles as nat
            },
            ExportStep::Tick => 0nat,
        }
    }
}

/// The ticks that an export counts over the steps `steps`: those that come
/// while a tick is due and the export still runs.
pub open spec fn spec_ticks_counted(state: SmfView, steps: Seq<ExportStep>) -> nat
    decreases steps.len(),
{
    if steps.len() == 0 {
        0
    } else {
        let before = spec_ran(state, steps.drop_last());
        spec_ticks_counted(state, steps.drop_last()) + match steps.last() {
            ExportStep::Instruction { cycles } => 0nat,
            ExportStep::Tick => if before.finished() || !before.tick_due() {
                0nat
            } else {
                1nat
            },
        }
    }
}

/// Every tick of an export uses up one period of cycles and moves the time
/// on by one tick of the emulator: the cycles counted are the ticks counted
/// times the period, and what is pending. So where no cycles were pending
/// at the start and no tick is due at the end, the ticks are the cycles
/// divided by the period, rounded down, however the cycles are spread over
/// the instructions.
pub proof fn lemma_export_tick_accounting(state: SmfView, steps: Seq<ExportStep>)
    ensures
        spec_ran(state, steps).period == state.period,
        state.pending + spec_cycles_counted(state, steps) == spec_ticks_counted(state, steps)
            * state.period + spec_ran(state, steps).pending,
        spec_ran(state, steps).elapsed_nanosec == state.elapsed_nanosec + spec_ticks_counted(
            state,
            steps,
        ) * CLOCK_TICK_CYCLE_64KHZ_NANOSEC,
        state.pending == 0 && state.period > 0 && !spec_ran(state, steps).tick_due()
            ==> spec_ticks_counted(state, steps) == spec_cycles_counted(state, steps)
            / state.period,
    decreases steps.len(),
{
    let ticks = spec_ticks_counted(state, steps);
    let cycles = spec_cycles_counted(state, steps);
    let after = spec_ran(state, steps);
    if steps.len() == 0 {
        assert(0 * state.period == 0) by (nonlinear_arith);
        assert(0 * CLOCK_TICK_CYCLE_64KHZ_NANOSEC == 0);
    } else {
        lemma_export_tick_accounting(state, steps.drop_last());
        let ticks_before = spec_ticks_counted(state, steps.drop_last());
        assert((ticks_before + 1) * state.period == ticks_before * state.period + state.period)
            by (nonlinear_arith);
    }
    if state.pending == 0 && state.period > 0 && !after.tick_due() {
        assert(ticks * state.period == state.period * ticks) by (nonlinear_arith);
        vstd::arithmetic::div_mod::lemma_fundamental_div_mod_converse(
            cycles as int,
            state.period as int,
            ticks as int,
            after.pending as int,
        );
    }
}

/// The ticks of a file never run backwards as time passes.
pub proof fn lemma_ticks_at_grows(earlier: int, later: int, ticks_per_minute: int)
    requires
        0 <= earlier <= later,
        0 <= ticks_per_minute,
    ensures
        0 <= spec_ticks_at(earlier, ticks_per_minute) <= spec_ticks_at(later, ticks_per_minute),
{
    assert(0 <= earlier * ticks_per_minute <= later * ticks_per_minute) by (nonlinear_arith)
        requires
            0 <= earlier <= later,
            0 <= ticks_per_minute,
    ;
    vstd::arithmetic::div_mod::lemma_div_is_ordered(
        earlier * ticks_per_minute,
        later * ticks_per_minute,
        NANOSEC_PER_MINUTE as int,
    );
    vstd::arithmetic::div_mod::lemma_div_is_ordered(
        0,
        earlier * ticks_per_minute,
        NANOSEC_PER_MINUTE as int,
    );
}

/// A batch of messages moves the end of a track forward by the ticks that
/// its first event waits.
pub proof fn lemma_batch_vtime_sum(
    events: Seq<TrackEventView>,
    messages: Seq<Seq<u8>>,
    delta: u64,
)
    requires
        messages.len() > 0,
    ensures
        spec_vtime_sum(events + spec_batch_events(messages, delta)) == spec_vtime_sum(events)
            + delta,
    decreases messages.len(),
{
    let batch = spec_batch_events(messages, delta);
    let all = events + batch;
    assert(all.last() == batch.last());
    if messages.len() == 1 {
        assert(all.drop_last() =~= events);
    } else {
        let shorter = messages.drop_last();
        lemma_batch_vtime_sum(events, shorter, delta);
        assert(all.drop_last() =~= events + spec_batch_events(shorter, delta));
    }
}

} // verus!
