use vstd::prelude::*;

verus! {

/// The number of samples in the whole frames that both a buffer of
/// `buffer_length` samples and a source of `source_length` samples hold,
/// at `channels` samples a frame.
pub open spec fn spec_whole_frames(buffer_length: int, source_length: int, channels: int) -> int {
    if channels <= 0 {
        0
    } else if buffer_length / channels <= source_length / channels {
        buffer_length / channels * channels
    } else {
        source_length / channels * channels
    }
}

/// Fills the buffer of an output stream from resampled frames: every whole
/// frame that both hold is copied, sample for sample, and the rest of the
/// buffer is filled with `silence`.
pub fn copy_frames<T: Copy>(buffer: &mut [T], source: &[T], channels: usize, silence: T)
    ensures
        final(buffer)@.len() == old(buffer)@.len(),
        forall|i: int|
            0 <= i < final(buffer)@.len() ==> #[trigger] final(buffer)@[i] == if i
                < spec_whole_frames(
                old(buffer)@.len() as int,
                source@.len() as int,
                channels as int,
            ) {
                source@[i]
            } else {
                silence
            },
{
    let length: usize = buffer.len();
    let limit: usize = if channels == 0 {
        0
    } else if length / channels <= source.len() / channels {
        proof {
            lemma_whole_frames_fit(length as int, channels as int);
            lemma_whole_frames_grow(length as int, source@.len() as int, channels as int);
            lemma_whole_frames_fit(source@.len() as int, channels as int);
        }
        length / channels * channels
    } else {
        proof {
            lemma_whole_frames_fit(source@.len() as int, channels as int);
            lemma_whole_frames_grow(source@.len() as int, length as int, channels as int);
            lemma_whole_frames_fit(length as int, channels as int);
        }
        source.len() / channels * channels
    };
    let mut i: usize = 0;
    while i < length
        invariant
            i <= length,
            length == buffer@.len(),
            limit <= length,
            limit <= source@.len(),
            forall|j: int|
                0 <= j < i ==> #[trigger] buffer@[j] == if j < limit {
                    source@[j]
                } else {
                    silence
                },
        decreases length - i,
    {
        if i < limit {
            buffer[i] = source[i];
        } else {
            buffer[i] = silence;
        }
        i = i + 1;
    }
}

/// The whole frames of a number of samples are no more than the samples.
proof fn lemma_whole_frames_fit(length: int, channels: int)
    requires
        0 <= length,
        0 < channels,
    ensures
        0 <= length / channels * channels <= length,
{
    vstd::arithmetic::div_mod::lemma_fundamental_div_mod(length, channels);
    vstd::arithmetic::div_mod::lemma_mod_pos_bound(length, channels);
    assert(length / channels * channels == channels * (length / channels)) by (nonlinear_arith);
    assert(0 <= length / channels) by (nonlinear_arith)
        requires
            0 <= length,
            0 < channels,
    ;
    assert(0 <= channels * (length / channels)) by (nonlinear_arith)
        requires
            0 <= length / channels,
            0 < channels,
    ;
}

/// Fewer frames make fewer samples.
proof fn lemma_whole_frames_grow(fewer: int, more: int, channels: int)
    requires
        0 <= fewer,
        0 <= more,
        0 < channels,
        fewer / channels <= more / channels,
    ensures
        fewer / channels * channels <= more / channels * channels,
{
    assert(fewer / channels * channels <= more / channels * channels) by (nonlinear_arith)
        requires
            fewer / channels <= more / channels,
            0 < channels,
    ;
}

} // verus!
