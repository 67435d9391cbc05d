//! Arithmetic of the live capture path: downmixing to mono, nearest-
//! neighbour resampling to 16 kHz, and the bounded sample buffer.
//!
//! Samples are 16-bit PCM integers; the stream's normalised amplitudes map
//! onto the full `i16` range, so every sample is finite and bounded by
//! construction, and the laws below show the arithmetic never leaves the
//! range of its inputs.

use vstd::prelude::*;
use vstd::arithmetic::div_mod::lemma_div_is_ordered;
use vstd::arithmetic::div_mod::lemma_div_by_multiple;

verus! {

/// Required audio format for the inference engine.
pub const TARGET_SAMPLE_RATE: u32 = 16_000;

/// Maximum buffer: 15 minutes at 16 kHz. Blocks that would grow the buffer
/// beyond this are dropped whole.
pub const MAX_BUFFER_SAMPLES: usize = 16_000 * 60 * 15;

/// Sum of `count` samples starting at `base`.
pub open spec fn frame_sum_spec(data: Seq<i16>, base: int, count: int) -> int
    decreases count,
{
    if count <= 0 {
        0
    } else {
        frame_sum_spec(data, base, count - 1) + data[base + count - 1]
    }
}

/// Truncating (round-toward-zero) integer division, as the machine performs
/// it on signed integers.
pub open spec fn div_trunc_spec(a: int, b: int) -> int {
    if a >= 0 {
        a / b
    } else {
        -((-a) / b)
    }
}

/// Number of frames a chunked interleaved buffer yields, final partial
/// frame included.
pub open spec fn frame_count_spec(len: int, channels: int) -> int {
    (len + channels - 1) / channels
}

/// Size of frame `f`: `channels`, except for a final partial frame.
pub open spec fn frame_len_spec(len: int, channels: int, f: int) -> int {
    if len - f * channels < channels {
        len - f * channels
    } else {
        channels
    }
}

/// The mono average of frame `f`, divided by the full channel count as the
/// capture callback does even for a final partial frame.
pub open spec fn frame_avg_spec(data: Seq<i16>, channels: int, f: int) -> int {
    div_trunc_spec(
        frame_sum_spec(data, f * channels, frame_len_spec(data.len() as int, channels, f)),
        channels,
    )
}

/// The frame average as the stored 16-bit value; `lemma_mix_preserves_bound`
/// shows the average always lies in range, so the fallback arm is never the
/// value of a real frame.
pub open spec fn frame_avg_i16_spec(data: Seq<i16>, channels: int, f: int) -> i16 {
    if -32768 <= frame_avg_spec(data, channels, f) <= 32767 {
        frame_avg_spec(data, channels, f) as i16
    } else {
        32767i16
    }
}

/// Every sample's magnitude is at most `bound`.
pub open spec fn samples_within_spec(s: Seq<i16>, bound: int) -> bool {
    forall|i: int| 0 <= i < s.len() ==> -bound <= #[trigger] s[i] <= bound
}

proof fn lemma_frame_sum_bound(data: Seq<i16>, base: int, count: int, bound: int)
    requires
        0 <= base,
        0 <= count,
        base + count <= data.len(),
        0 <= bound,
        samples_within_spec(data, bound),
    ensures
        -(count * bound) <= frame_sum_spec(data, base, count) <= count * bound,
    decreases count,
{
    if count > 0 {
        lemma_frame_sum_bound(data, base, count - 1, bound);
        assert((count - 1) * bound + bound == count * bound) by (nonlinear_arith);
    }
}

proof fn lemma_div_trunc_bound(a: int, b: int, bound: int)
    requires
        0 < b,
        0 <= bound,
        -(b * bound) <= a <= b * bound,
    ensures
        -bound <= div_trunc_spec(a, b) <= bound,
{
    assert(b * bound == bound * b) by (nonlinear_arith);
    lemma_div_by_multiple(bound, b);
    if a >= 0 {
        lemma_div_is_ordered(a, bound * b, b);
        assert(a / b >= 0) by (nonlinear_arith)
            requires
                a >= 0,
                b > 0,
        ;
    } else {
        lemma_div_is_ordered(-a, bound * b, b);
        assert((-a) / b >= 0) by (nonlinear_arith)
            requires
                -a >= 0,
                b > 0,
        ;
    }
}

/// Mix multi-channel interleaved audio to mono by averaging all channels of
/// each frame; one channel (or none) passes through unchanged. The channel
/// count is bounded by what audio devices report in a 16-bit field, and the
/// block must leave room for the frame-count arithmetic.
pub fn mix_to_mono(data: &Vec<i16>, channels: usize) -> (r: Vec<i16>)
    requires
        channels <= 65535,
        data@.len() + channels <= usize::MAX,
    ensures
        channels <= 1 ==> r@ == data@,
        channels > 1 ==> r@.len() == frame_count_spec(data@.len() as int, channels as int),
        channels > 1 ==> forall|f: int|
            0 <= f < r@.len() ==> #[trigger] r@[f] == frame_avg_i16_spec(
                data@,
                channels as int,
                f,
            ),
{
    if channels <= 1 {
        return data.clone();
    }
    let len = data.len();
    let nframes = (len + channels - 1) / channels;
    let mut out: Vec<i16> = Vec::new();
    let mut f: usize = 0;
    while f < nframes
        invariant
            1 < channels <= 65535,
            len == data@.len(),
            len + channels <= usize::MAX,
            nframes == frame_count_spec(len as int, channels as int),
            0 <= f <= nframes,
            out@.len() == f,
            forall|g: int|
                0 <= g < f ==> #[trigger] out@[g] == frame_avg_i16_spec(
                    data@,
                    channels as int,
                    g,
                ),
        decreases nframes - f,
    {
        proof {
            assert(f * channels < len && f * channels + channels <= len + channels - 1)
                by (nonlinear_arith)
                requires
                    0 <= f < nframes,
                    channels > 1,
                    nframes as int == (len as int + channels as int - 1) / (channels as int),
                    len >= 0,
            ;
        }
        let base = f * channels;
        let flen = if len - base < channels {
            len - base
        } else {
            channels
        };
        let mut acc: i64 = 0;
        let mut k: usize = 0;
        while k < flen
            invariant
                0 <= k <= flen,
                flen <= channels,
                channels <= 65535,
                base + flen <= len,
                len == data@.len(),
                acc == frame_sum_spec(data@, base as int, k as int),
                -((k as int) * 32768) <= acc <= (k as int) * 32768,
            decreases flen - k,
        {
            let s = data[base + k];
            proof {
                assert(((k as int) + 1) * 32768 == (k as int) * 32768 + 32768)
                    by (nonlinear_arith);
            }
            acc = acc + s as i64;
            k += 1;
        }
        proof {
            assert(samples_within_spec(data@, 32768));
            lemma_frame_sum_bound(data@, base as int, flen as int, 32768);
            assert((flen as int) * 32768 <= (channels as int) * 32768) by (nonlinear_arith)
                requires
                    0 <= flen <= channels,
            ;
            lemma_div_trunc_bound(acc as int, channels as int, 32768);
        }
        let avg64: i64 = acc / (channels as i64);
        proof {
            assert(avg64 == div_trunc_spec(acc as int, channels as int));
            assert(frame_len_spec(len as int, channels as int, f as int) == flen as int);
            assert(frame_avg_spec(data@, channels as int, f as int) == avg64 as int);
        }
        let avg: i16 = if avg64 > 32767 {
            32767
        } else {
            avg64 as i16
        };
        proof {
            assert(avg == frame_avg_i16_spec(data@, channels as int, f as int));
        }
        out.push(avg);
        f += 1;
    }
    out
}

proof fn lemma_constant_frame_sum(data: Seq<i16>, base: int, v: int, count: int)
    requires
        0 <= count,
        0 <= base,
        base + count <= data.len(),
        forall|i: int| base <= i < base + count ==> #[trigger] data[i] == v,
    ensures
        frame_sum_spec(data, base, count) == count * v,
    decreases count,
{
    if count > 0 {
        lemma_constant_frame_sum(data, base, v, count - 1);
        assert(data[base + count - 1] == v);
        assert(frame_sum_spec(data, base, count) == frame_sum_spec(data, base, count - 1) + data[
            base + count - 1
        ]);
        assert((count - 1) * v + v == count * v) by (nonlinear_arith);
    } else {
        assert(count * v == 0) by (nonlinear_arith)
            requires
                count == 0,
        ;
    }
}

/// Mixing a signal whose channels all carry the same samples returns that
/// channel unchanged.
pub proof fn lemma_mix_identical_channels(data: Seq<i16>, channels: int, mono: Seq<i16>)
    requires
        1 < channels,
        data.len() == mono.len() * channels,
        forall|i: int| 0 <= i < data.len() ==> #[trigger] data[i] == mono[i / channels],
    ensures
        frame_count_spec(data.len() as int, channels) == mono.len(),
        forall|f: int|
            0 <= f < mono.len() ==> frame_avg_i16_spec(data, channels, f) == mono[f],
{
    assert(frame_count_spec(data.len() as int, channels) == mono.len()) by {
        assert((mono.len() * channels + channels - 1) / channels == mono.len())
            by (nonlinear_arith)
            requires
                channels > 1,
                mono.len() >= 0,
        ;
    }
    assert forall|f: int|
        0 <= f < mono.len() implies frame_avg_i16_spec(data, channels, f) == mono[f] by {
        assert(0 <= f * channels && f * channels + channels <= data.len() && data.len() - f
            * channels >= channels) by (nonlinear_arith)
            requires
                0 <= f < mono.len(),
                data.len() == mono.len() * channels,
                channels > 1,
        ;
        assert(frame_len_spec(data.len() as int, channels, f) == channels);
        assert forall|i: int| f * channels <= i < f * channels + channels implies #[trigger] data[i]
            == mono[f] by {
            let b = i - f * channels;
            assert(channels * f + b == i) by (nonlinear_arith)
                requires
                    b == i - f * channels,
            ;
            vstd::arithmetic::div_mod::lemma_div_multiples_vanish_fancy(f, b, channels);
            assert(i / channels == f);
        }
        lemma_constant_frame_sum(data, f * channels, mono[f] as int, channels);
        let v = mono[f] as int;
        if v >= 0 {
            assert(channels * v == v * channels) by (nonlinear_arith);
            lemma_div_by_multiple(v, channels);
        } else {
            assert(-(channels * v) == (-v) * channels) by (nonlinear_arith);
            lemma_div_by_multiple(-v, channels);
        }
    }
}

/// The mono mix never exceeds the magnitude bound of its input: audio that
/// arrives within the normalised range stays within it.
pub proof fn lemma_mix_preserves_bound(data: Seq<i16>, channels: int, bound: int, f: int)
    requires
        1 < channels,
        0 <= bound,
        samples_within_spec(data, bound),
        0 <= f < frame_count_spec(data.len() as int, channels),
    ensures
        -bound <= frame_avg_spec(data, channels, f) <= bound,
{
    let flen = frame_len_spec(data.len() as int, channels, f);
    assert(0 <= flen <= channels && 0 <= f * channels && f * channels + flen <= data.len())
        by (nonlinear_arith)
        requires
            0 <= f < (data.len() + channels - 1) / channels,
            channels > 1,
            flen == frame_len_spec(data.len() as int, channels, f),
            data.len() >= 0,
    ;
    lemma_frame_sum_bound(data, f * channels, flen, bound);
    assert((flen as int) * bound <= channels * bound) by (nonlinear_arith)
        requires
            0 <= flen <= channels,
            bound >= 0,
    ;
    lemma_div_trunc_bound(frame_sum_spec(data, f * channels, flen), channels, bound);
}

/// The source index a nearest-neighbour resampler reads for output index
/// `i`, clamped to the input.
pub open spec fn resample_src_idx_spec(len: int, source_rate: int, i: int) -> int {
    let idx = i * source_rate / (TARGET_SAMPLE_RATE as int);
    if idx < len - 1 {
        idx
    } else {
        len - 1
    }
}

/// Length of the resampled output.
pub open spec fn resample_len_spec(len: int, source_rate: int) -> int {
    len * (TARGET_SAMPLE_RATE as int) / source_rate
}

/// Nearest-neighbour resample from `source_rate` to 16 kHz; the input passes
/// through unchanged when the rates already match. Resampling never invents
/// samples: every output sample is one of the input samples.
pub fn resample_to_16khz(mono: Vec<i16>, source_rate: u32) -> (r: Vec<i16>)
    requires
        source_rate >= 1,
        resample_len_spec(mono@.len() as int, source_rate as int) <= usize::MAX,
    ensures
        source_rate == TARGET_SAMPLE_RATE ==> r@ == mono@,
        source_rate != TARGET_SAMPLE_RATE ==> r@.len() == resample_len_spec(
            mono@.len() as int,
            source_rate as int,
        ),
        source_rate != TARGET_SAMPLE_RATE ==> forall|i: int|
            0 <= i < r@.len() ==> #[trigger] r@[i] == mono@[resample_src_idx_spec(
                mono@.len() as int,
                source_rate as int,
                i,
            )],
{
    if source_rate == TARGET_SAMPLE_RATE {
        return mono;
    }
    let len = mono.len();
    let out_len_wide: u128 = (len as u128) * (TARGET_SAMPLE_RATE as u128) / (source_rate as u128);
    let out_len: usize = out_len_wide as usize;
    proof {
        assert(out_len == resample_len_spec(len as int, source_rate as int));
    }
    let mut out: Vec<i16> = Vec::new();
    let mut i: usize = 0;
    while i < out_len
        invariant
            source_rate >= 1,
            len == mono@.len(),
            out_len == resample_len_spec(len as int, source_rate as int),
            0 <= i <= out_len,
            out@.len() == i,
            forall|j: int|
                0 <= j < i ==> #[trigger] out@[j] == mono@[resample_src_idx_spec(
                    len as int,
                    source_rate as int,
                    j,
                )],
        decreases out_len - i,
    {
        proof {
            if len == 0 {
                assert(resample_len_spec(0, source_rate as int) == 0) by (nonlinear_arith)
                    requires
                        source_rate >= 1,
                ;
            }
        }
        proof {
            assert((i as int) * (source_rate as int) <= (usize::MAX as int) * (u32::MAX as int))
                by (nonlinear_arith)
                requires
                    0 <= i <= usize::MAX as int,
                    0 <= source_rate <= u32::MAX as int,
            ;
        }
        let idx_wide: u128 = (i as u128) * (source_rate as u128) / (TARGET_SAMPLE_RATE as u128);
        let src_idx: usize = if idx_wide < (len - 1) as u128 {
            idx_wide as usize
        } else {
            len - 1
        };
        proof {
            assert(src_idx as int == resample_src_idx_spec(
                len as int,
                source_rate as int,
                i as int,
            ));
        }
        out.push(mono[src_idx]);
        i += 1;
    }
    out
}

/// Append a block to the shared buffer unless it would exceed the
/// 15-minute cap, in which case the whole block is dropped.
pub fn append_capped(buffer: &mut Vec<i16>, block: &Vec<i16>)
    ensures
        old(buffer)@.len() + block@.len() <= MAX_BUFFER_SAMPLES ==> final(buffer)@ == old(
            buffer,
        )@ + block@,
        old(buffer)@.len() + block@.len() > MAX_BUFFER_SAMPLES ==> final(buffer)@ == old(
            buffer,
        )@,
        final(buffer)@.len() <= MAX_BUFFER_SAMPLES || final(buffer)@.len() == old(
            buffer,
        )@.len(),
{
    if block.len() <= MAX_BUFFER_SAMPLES && buffer.len() <= MAX_BUFFER_SAMPLES - block.len() {
        let mut i: usize = 0;
        let ghost orig = buffer@;
        while i < block.len()
            invariant
                0 <= i <= block@.len(),
                orig.len() + block@.len() <= MAX_BUFFER_SAMPLES,
                buffer@ == orig + block@.take(i as int),
            decreases block@.len() - i,
        {
            buffer.push(block[i]);
            proof {
                assert(orig + block@.take(i + 1) =~= (orig + block@.take(i as int)).push(
                    block@[i as int],
                ));
            }
            i += 1;
        }
        proof {
            assert(orig + block@.take(block@.len() as int) =~= orig + block@);
        }
    }
}

/// Every sample a processed block contributes to the buffer stays within
/// the magnitude bound of the captured input: normalised audio stays
/// normalised through downmixing and resampling, and no value is invented.
pub proof fn lemma_processed_block_within(data: Seq<i16>, channels: int, device_rate: int, bound: int)
    requires
        1 <= channels,
        1 <= device_rate,
        0 <= bound,
        samples_within_spec(data, bound),
    ensures
        samples_within_spec(processed_block_spec(data, channels, device_rate), bound),
{
    let mono = if channels <= 1 {
        data
    } else {
        Seq::new(
            frame_count_spec(data.len() as int, channels) as nat,
            |f: int| frame_avg_i16_spec(data, channels, f),
        )
    };
    assert forall|i: int| 0 <= i < mono.len() implies -bound <= #[trigger] mono[i] <= bound by {
        if channels > 1 {
            assert(samples_within_spec(data, 32768));
            lemma_mix_preserves_bound(data, channels, bound, i);
            lemma_mix_preserves_bound(data, channels, 32768, i);
        }
    }
    let out = processed_block_spec(data, channels, device_rate);
    assert forall|i: int| 0 <= i < out.len() implies -bound <= #[trigger] out[i] <= bound by {
        if device_rate != TARGET_SAMPLE_RATE as int {
            assert(mono.len() >= 1) by {
                if mono.len() == 0 {
                    assert(resample_len_spec(0, device_rate) == 0) by (nonlinear_arith)
                        requires
                            device_rate >= 1,
                    ;
                }
            }
            let src = resample_src_idx_spec(mono.len() as int, device_rate, i);
            assert(i * device_rate >= 0) by (nonlinear_arith)
                requires
                    i >= 0,
                    device_rate >= 1,
            ;
            assert(i * device_rate / (TARGET_SAMPLE_RATE as int) >= 0);
            assert(0 <= src < mono.len());
            assert(-bound <= mono[src] <= bound);
        }
    }
}

/// The mono length after mixing: unchanged for one channel, one sample per
/// frame otherwise.
pub open spec fn frame_count_if_mixed_spec(len: int, channels: int) -> int {
    if channels <= 1 {
        len
    } else {
        frame_count_spec(len, channels)
    }
}

/// What one captured block contributes to the buffer, when it fits.
pub open spec fn processed_block_spec(data: Seq<i16>, channels: int, device_rate: int) -> Seq<
    i16,
> {
    let mono = if channels <= 1 {
        data
    } else {
        Seq::new(
            frame_count_spec(data.len() as int, channels) as nat,
            |f: int| frame_avg_i16_spec(data, channels, f),
        )
    };
    if device_rate == TARGET_SAMPLE_RATE as int {
        mono
    } else {
        Seq::new(
            resample_len_spec(mono.len() as int, device_rate) as nat,
            |i: int| mono[resample_src_idx_spec(mono.len() as int, device_rate, i)],
        )
    }
}

/// One block of freshly captured interleaved samples, as the audio callback
/// handles it: downmix to mono, resample to 16 kHz if the device rate
/// differs, then append under the cap.
pub fn process_block(data: &Vec<i16>, channels: usize, device_rate: u32, buffer: &mut Vec<i16>)
    requires
        1 <= channels <= 65535,
        device_rate >= 1,
        data@.len() + channels <= usize::MAX,
        resample_len_spec(
            frame_count_if_mixed_spec(data@.len() as int, channels as int),
            device_rate as int,
        ) <= usize::MAX,
    ensures
        final(buffer)@.len() <= MAX_BUFFER_SAMPLES || final(buffer)@.len() == old(
            buffer,
        )@.len(),
        old(buffer)@.len() + processed_block_spec(
            data@,
            channels as int,
            device_rate as int,
        ).len() <= MAX_BUFFER_SAMPLES ==> final(buffer)@ == old(buffer)@ + processed_block_spec(
            data@,
            channels as int,
            device_rate as int,
        ),
        old(buffer)@.len() + processed_block_spec(
            data@,
            channels as int,
            device_rate as int,
        ).len() > MAX_BUFFER_SAMPLES ==> final(buffer)@ == old(buffer)@,
{
    let ghost mono_spec: Seq<i16> = if channels <= 1 {
        data@
    } else {
        Seq::new(
            frame_count_spec(data@.len() as int, channels as int) as nat,
            |f: int| frame_avg_i16_spec(data@, channels as int, f),
        )
    };
    let mono = mix_to_mono(data, channels);
    proof {
        assert(mono@ =~= mono_spec);
    }
    let samples = resample_to_16khz(mono, device_rate);
    proof {
        if device_rate != TARGET_SAMPLE_RATE {
            assert(samples@ =~= processed_block_spec(
                data@,
                channels as int,
                device_rate as int,
            ));
        } else {
            assert(samples@ =~= processed_block_spec(
                data@,
                channels as int,
                device_rate as int,
            ));
        }
    }
    append_capped(buffer, &samples);
}

} // verus!
