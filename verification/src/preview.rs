use vstd::prelude::*;

verus! {

/// Samples per second of a decoded source.
pub const SPC_SAMPLING_RATE: u32 = 32000;

/// A sample position at the rate of a source, as the nearest position at
/// `device_rate` samples per second, halves upward.
pub open spec fn spec_rescaled(position: int, device_rate: int) -> int {
    (2 * (position * device_rate) + SPC_SAMPLING_RATE) / (2 * SPC_SAMPLING_RATE)
}

/// Moves the sample at which a source loops to the rate of the output
/// device: the nearest sample at that rate, limited to what `usize` holds.
pub fn rescale_loop_start(loop_start_sample: usize, device_rate: u32) -> (rescaled: usize)
    ensures
        rescaled == if spec_rescaled(loop_start_sample as int, device_rate as int) <= usize::MAX {
            spec_rescaled(loop_start_sample as int, device_rate as int)
        } else {
            usize::MAX as int
        },
{
    assert(0 <= loop_start_sample as int * device_rate as int <= 0xFFFF_FFFF_FFFF_FFFF
        * 0xFFFF_FFFF) by (nonlinear_arith)
        requires
            0 <= loop_start_sample <= 0xFFFF_FFFF_FFFF_FFFF,
            0 <= device_rate <= 0xFFFF_FFFF,
    ;
    let product: u128 = loop_start_sample as u128 * device_rate as u128;
    let rounded: u128 = (2 * product + SPC_SAMPLING_RATE as u128) / (2 * SPC_SAMPLING_RATE as u128);
    if rounded <= usize::MAX as u128 {
        rounded as usize
    } else {
        usize::MAX
    }
}

/// The place in an interleaved waveform at which the loop starts: the loop
/// sample times the number of channels, but no later than the last place;
/// 0 in an empty waveform.
pub fn loop_start_progress(channels: usize, loop_start_sample: usize, length: usize) -> (progress:
    usize)
    ensures
        progress == if length == 0 {
            0
        } else if channels * loop_start_sample <= length - 1 {
            channels * loop_start_sample
        } else {
            length - 1
        },
{
    if length == 0 {
        return 0;
    }
    if channels == 0 {
        assert(channels * loop_start_sample == 0) by (nonlinear_arith)
            requires
                channels == 0,
        ;
        return 0;
    }
    if loop_start_sample > (length - 1) / channels {
        assert(channels * loop_start_sample > length - 1) by (nonlinear_arith)
            requires
                loop_start_sample > (length - 1) / (channels as int),
                channels > 0,
                length > 0,
        ;
        length - 1
    } else {
        assert(channels * loop_start_sample <= length - 1) by (nonlinear_arith)
            requires
                loop_start_sample <= (length - 1) / (channels as int),
                channels > 0,
                length > 0,
        ;
        channels * loop_start_sample
    }
}

/// The place of `sample` on `channel` in an interleaved waveform of
/// `channels` channels.
pub open spec fn spec_place(channels: int, sample: int, channel: int) -> int {
    channels * sample + channel
}

/// Copies a waveform of one channel to every channel of an interleaved
/// waveform.
pub fn spread_to_channels<T: Copy>(mono: &[T], channels: usize) -> (output: Vec<T>)
    requires
        mono@.len() * channels <= usize::MAX,
    ensures
        output@.len() == mono@.len() * channels,
        forall|sample: int, channel: int|
            0 <= sample < mono@.len() && 0 <= channel < channels ==> output@[#[trigger] spec_place(
                channels as int,
                sample,
                channel,
            )] == mono@[sample],
{
    let mut output: Vec<T> = Vec::new();
    let mut sample: usize = 0;
    assert(channels * 0 == 0) by (nonlinear_arith);
    while sample < mono.len()
        invariant
            sample <= mono@.len(),
            output@.len() == channels * sample,
            mono@.len() * channels <= usize::MAX,
            forall|s: int, c: int|
                0 <= s < sample && 0 <= c < channels ==> output@[#[trigger] spec_place(
                    channels as int,
                    s,
                    c,
                )] == mono@[s],
        decreases mono@.len() - sample,
    {
        let mut channel: usize = 0;
        while channel < channels
            invariant
                sample < mono@.len(),
                channel <= channels,
                output@.len() == channels * sample + channel,
                mono@.len() * channels <= usize::MAX,
                forall|s: int, c: int|
                    0 <= s < sample && 0 <= c < channels ==> output@[#[trigger] spec_place(
                        channels as int,
                        s,
                        c,
                    )] == mono@[s],
                forall|c: int|
                    0 <= c < channel ==> output@[#[trigger] spec_place(
                        channels as int,
                        sample as int,
                        c,
                    )] == mono@[sample as int],
            decreases channels - channel,
        {
            proof {
                assert forall|s: int, c: int| 0 <= s < sample && 0 <= c < channels implies 0
                    <= #[trigger] spec_place(channels as int, s, c) < channels * sample by {
                    lemma_interleaved_index(channels as int, s, c, sample as int);
                }
                assert(channels * sample + channels <= mono@.len() * channels) by (nonlinear_arith)
                    requires
                        sample + 1 <= mono@.len(),
                        channels >= 0,
                ;
            }
            output.push(mono[sample]);
            channel = channel + 1;
        }
        proof {
            assert(channels * (sample + 1) == channels * sample + channels) by (nonlinear_arith);
        }
        sample = sample + 1;
    }
    assert(channels * mono@.len() == mono@.len() * channels) by (nonlinear_arith);
    output
}

/// In an interleaved waveform the places of an earlier sample come before
/// the places of a later one.
proof fn lemma_interleaved_index(channels: int, earlier: int, channel: int, later: int)
    requires
        0 <= earlier < later,
        0 <= channel < channels,
    ensures
        0 <= channels * earlier + channel < channels * later,
{
    assert(channels * earlier + channels <= channels * later) by (nonlinear_arith)
        requires
            earlier + 1 <= later,
            channels > 0,
    ;
    assert(0 <= channels * earlier) by (nonlinear_arith)
        requires
            0 <= earlier,
            channels > 0,
    ;
}

/// The place played `steps` places after `progress` in a waveform of
/// `length` places that loops back to `loop_start` at its end.
pub open spec fn spec_looped_place(length: int, loop_start: int, progress: int, steps: int) -> int {
    if progress + steps < length {
        progress + steps
    } else {
        loop_start + (progress + steps - length) % (length - loop_start)
    }
}

/// The place reached `steps` places after `progress` in a waveform of
/// `length` places that is played once.
pub open spec fn spec_one_shot_place(length: int, progress: int, steps: int) -> int {
    if progress + steps < length {
        progress + steps
    } else {
        length
    }
}

/// Plays a waveform into the buffers of an output stream, once or looping.
pub struct PreviewPlayer<T> {
    output: Vec<T>,
    loop_start: usize,
    progress: usize,
}

impl<T> PreviewPlayer<T> {
    #[verifier::type_invariant]
    spec fn well_formed(self) -> bool {
        &&& self.output@.len() > 0
        &&& self.loop_start < self.output@.len()
        &&& self.progress <= self.output@.len()
    }

    /// The waveform played.
    pub closed spec fn spec_output(self) -> Seq<T> {
        self.output@
    }

    /// The place at which a loop starts again.
    pub closed spec fn spec_loop_start(self) -> int {
        self.loop_start as int
    }

    /// The place played next; the length of the waveform where it has ended.
    pub closed spec fn spec_progress(self) -> int {
        self.progress as int
    }

}

impl<T: Copy> PreviewPlayer<T> {
    /// A player at the start of `output` that loops back to `loop_start`,
    /// or to the last place where `loop_start` lies past it. `None` for an
    /// empty waveform.
    pub fn new(output: Vec<T>, loop_start: usize) -> (player: Option<PreviewPlayer<T>>)
        ensures
            player is Some <==> output@.len() > 0,
            player matches Some(p) ==> {
                &&& p.spec_output() == output@
                &&& p.spec_progress() == 0
                &&& p.spec_loop_start() == if loop_start < output@.len() {
                    loop_start as int
                } else {
                    output@.len() - 1
                }
            },
    {
        let length: usize = output.len();
        if length == 0 {
            return None;
        }
        let start: usize = if loop_start < length {
            loop_start
        } else {
            length - 1
        };
        Some(PreviewPlayer { output, loop_start: start, progress: 0 })
    }

    pub fn progress(&self) -> (progress: usize)
        ensures
            progress == self.spec_progress(),
            progress <= self.spec_output().len(),
    {
        proof {
            use_type_invariant(self);
        }
        self.progress
    }

    pub fn loop_start(&self) -> (loop_start: usize)
        ensures
            loop_start == self.spec_loop_start(),
            loop_start < self.spec_output().len(),
    {
        proof {
            use_type_invariant(self);
        }
        self.loop_start
    }

    /// Fills `buffer` with the next places of the waveform and says whether
    /// the waveform has ended. While `looping`, the place after the last is
    /// the start of the loop and the waveform never ends. Otherwise the
    /// places after the last are filled with `silence`.
    pub fn fill(&mut self, buffer: &mut [T], looping: bool, silence: T) -> (ended: bool)
        ensures
            final(self).spec_output() == old(self).spec_output(),
            final(self).spec_loop_start() == old(self).spec_loop_start(),
            final(buffer)@.len() == old(buffer)@.len(),
            looping ==> {
                &&& !ended
                &&& final(self).spec_progress() == spec_looped_place(
                    old(self).spec_output().len() as int,
                    old(self).spec_loop_start(),
                    old(self).spec_progress(),
                    old(buffer)@.len() as int,
                )
                &&& forall|i: int|
                    0 <= i < final(buffer)@.len() ==> final(buffer)@[i] == old(
                        self,
                    ).spec_output()[#[trigger] spec_looped_place(
                        old(self).spec_output().len() as int,
                        old(self).spec_loop_start(),
                        old(self).spec_progress(),
                        i,
                    )]
            },
            !looping ==> {
                &&& ended == (old(self).spec_progress() + old(buffer)@.len() >= old(
                    self,
                ).spec_output().len())
                &&& final(self).spec_progress() == spec_one_shot_place(
                    old(self).spec_output().len() as int,
                    old(self).spec_progress(),
                    old(buffer)@.len() as int,
                )
                &&& forall|i: int|
                    0 <= i < final(buffer)@.len() ==> #[trigger] final(buffer)@[i] == if old(
                        self,
                    ).spec_progress() + i < old(self).spec_output().len() {
                        old(self).spec_output()[old(self).spec_progress() + i]
                    } else {
                        silence
                    }
            },
    {
        proof {
            use_type_invariant(&*self);
        }
        let count: usize = buffer.len();
        let length: usize = self.output.len();
        let start: usize = self.loop_start;
        let first: usize = self.progress;
        let mut place: usize = first;
        let mut i: usize = 0;
        while i < count
            invariant
                i <= count,
                count == buffer@.len(),
                length == self.output@.len(),
                start < length,
                first <= length,
                place <= length,
                self.output@ == old(self).spec_output(),
                looping ==> {
                    &&& (place < length ==> place == spec_looped_place(
                        length as int,
                        start as int,
                        first as int,
                        i as int,
                    ))
                    &&& (place == length ==> start == spec_looped_place(
                        length as int,
                        start as int,
                        first as int,
                        i as int,
                    ))
                    &&& forall|j: int|
                        0 <= j < i ==> buffer@[j] == self.output@[#[trigger] spec_looped_place(
                            length as int,
                            start as int,
                            first as int,
                            j,
                        )]
                },
                !looping ==> {
                    &&& place == spec_one_shot_place(length as int, first as int, i as int)
                    &&& forall|j: int|
                        0 <= j < i ==> #[trigger] buffer@[j] == if first + j < length {
                            self.output@[first + j]
                        } else {
                            silence
                        }
                },
            decreases count - i,
        {
            proof {
                lemma_looped_place_step(length as int, start as int, first as int, i as int);
            }
            if place >= length && looping {
                place = start;
            }
            if place < length {
                buffer[i] = self.output[place];
                place = place + 1;
            } else {
                buffer[i] = silence;
            }
            i = i + 1;
        }
        if place >= length && looping {
            place = start;
        }
        proof {
            if first + count == length {
                assert(0int % (length - start) == 0) by (nonlinear_arith)
                    requires
                        length - start > 0,
                ;
            }
        }
        self.progress = place;
        !looping && place >= length
    }
}

/// In a looping waveform the place after a place is the next one, and the
/// start of the loop after the last.
pub proof fn lemma_looped_place_step(length: int, loop_start: int, progress: int, steps: int)
    requires
        0 <= loop_start < length,
        0 <= progress <= length,
        0 <= steps,
    ensures
        loop_start <= spec_looped_place(length, loop_start, progress, steps) || progress + steps
            < length,
        0 <= spec_looped_place(length, loop_start, progress, steps) < length,
        spec_looped_place(length, loop_start, progress, steps + 1) == if spec_looped_place(
            length,
            loop_start,
            progress,
            steps,
        ) + 1 < length {
            spec_looped_place(length, loop_start, progress, steps) + 1
        } else {
            loop_start
        },
{
    let span = length - loop_start;
    if progress + steps >= length {
        let k = progress + steps - length;
        vstd::arithmetic::div_mod::lemma_fundamental_div_mod(k, span);
        vstd::arithmetic::div_mod::lemma_mod_pos_bound(k, span);
        let q = k / span;
        let r = k % span;
        if r + 1 < span {
            assert(k + 1 == q * span + (r + 1)) by (nonlinear_arith)
                requires
                    k == span * q + r,
            ;
            vstd::arithmetic::div_mod::lemma_fundamental_div_mod_converse(k + 1, span, q, r + 1);
        } else {
            assert(k + 1 == (q + 1) * span + 0) by (nonlinear_arith)
                requires
                    k == span * q + r,
                    r + 1 == span,
            ;
            vstd::arithmetic::div_mod::lemma_fundamental_div_mod_converse(k + 1, span, q + 1, 0);
        }
    } else if progress + steps + 1 == length {
        assert(0int % span == 0) by (nonlinear_arith)
            requires
                span > 0,
        ;
    }
}

} // verus!
