//! The resampler: converts a finished recording's samples from their native
//! rate and channel count to the fixed mono 16 kHz layout the inference
//! engine requires.
//!
//! Float samples are carried by their bit pattern (`u32`); the numeric
//! conversions between 16-bit integer samples and floats, and the
//! sinc-based rate conversion itself, are outside calls whose results the
//! contracts name. Multi-channel audio is downmixed to mono by the
//! per-frame arithmetic mean, computed here on the 16-bit integer samples
//! and verified exactly.

use vstd::arithmetic::div_mod::lemma_div_is_ordered;
use vstd::arithmetic::div_mod::lemma_div_multiples_vanish;
use vstd::arithmetic::div_mod::lemma_fundamental_div_mod;
use vstd::arithmetic::div_mod::lemma_mod_bound;
use vstd::arithmetic::mul::lemma_mul_inequality;
use vstd::prelude::*;

use crate::sink::FinalizedRecording;
use crate::sink::SampleData;

verus! {

/// The fixed rate of a normalized sample sequence, in Hz.
pub const TARGET_SAMPLE_RATE: u32 = 16000;

/// The conversion could not be carried out: a zero rate or channel count,
/// or the underlying converter declined the job or could not set up its
/// working buffers.
#[derive(Clone, Copy, PartialEq, Eq, Structural, Debug)]
pub struct ResampleError;

/// The float sample (as bits) that the 16-bit integer sample converts to.
pub uninterp spec fn float_bits_of_i16(s: i16) -> u32;

/// The 16-bit integer sample that the float sample (as bits) converts to.
pub uninterp spec fn i16_of_float_bits(b: u32) -> i16;

/// What the best-quality sinc converter returns (as bits) for the given
/// interleaved float input (as bits), rate pair and channel count.
pub uninterp spec fn sinc_resampled_of(
    input: Seq<u32>,
    from_rate: u32,
    to_rate: u32,
    channels: int,
) -> Seq<u32>;

/// Relies on dasp_sample's `i16 -> f32` sample conversion (the conversion
/// the capture stack applies to device samples): pure, so the result
/// depends on the sample alone.
#[verifier::external_body]
fn f32_bits_from_i16(s: i16) -> (r: u32)
    ensures
        r == float_bits_of_i16(s),
{
    dasp_sample::conv::i16::to_f32(s).to_bits()
}

/// Relies on dasp_sample's `f32 -> i16` sample conversion: pure, so the
/// result depends on the sample bits alone.
#[verifier::external_body]
fn i16_from_f32_bits(b: u32) -> (r: i16)
    ensures
        r == i16_of_float_bits(b),
{
    let x = <<i16 as dasp_sample::Sample>::Float>::from_bits(b);
    dasp_sample::Sample::to_sample::<i16>(x)
}

/// Relies on samplerate_rs::convert with the best-quality sinc converter:
/// deterministic in its inputs, and on success the returned vector holds
/// exactly `ceil(frames * to_rate / from_rate)` frames — the crate
/// preallocates that many and returns them all. The preconditions keep out
/// the inputs on which the crate asserts (a zero or non-dividing channel
/// count, a zero source rate) or overflows its output-length arithmetic.
#[verifier::external_body]
fn convert_sinc(input: &Vec<u32>, from_rate: u32, to_rate: u32, channels: u16) -> (r: Result<
    Vec<u32>,
    ResampleError,
>)
    requires
        channels >= 1,
        from_rate >= 1,
        input@.len() as int % (channels as int) == 0,
        input@.len() as int * (to_rate as int) + (from_rate as int) <= usize::MAX,
    ensures
        r matches Ok(v) ==> v@ == sinc_resampled_of(input@, from_rate, to_rate, channels as int),
        r matches Ok(v) ==> v@.len() == ((input@.len() as int / (channels as int)) * (
        to_rate as int) + (from_rate as int) - 1) / (from_rate as int) * (channels as int),
{
    let floats: Vec<_> = input.iter().map(
        |b| <<i16 as dasp_sample::Sample>::Float>::from_bits(*b),
    ).collect();
    let converter = samplerate_rs::ConverterType::SincBestQuality;
    match samplerate_rs::convert(from_rate, to_rate, channels as usize, converter, &floats) {
        Ok(out) => Ok(out.iter().map(|x| x.to_bits()).collect()),
        Err(_) => Err(ResampleError),
    }
}

/// A whole 16-bit sample sequence as float bits.
pub open spec fn spec_to_float_bits(s: Seq<i16>) -> Seq<u32> {
    s.map_values(|x: i16| float_bits_of_i16(x))
}

/// A whole float-bit sequence as 16-bit samples.
pub open spec fn spec_to_i16(s: Seq<u32>) -> Seq<i16> {
    s.map_values(|x: u32| i16_of_float_bits(x))
}

fn to_float_bits(v: &Vec<i16>) -> (r: Vec<u32>)
    ensures
        r@ == spec_to_float_bits(v@),
{
    let mut out: Vec<u32> = Vec::new();
    let mut i: usize = 0;
    while i < v.len()
        invariant
            i <= v@.len(),
            out@ == spec_to_float_bits(v@.take(i as int)),
        decreases v@.len() - i,
    {
        out.push(f32_bits_from_i16(v[i]));
        proof {
            assert(spec_to_float_bits(v@.take(i as int + 1)) =~= spec_to_float_bits(
                v@.take(i as int),
            ).push(float_bits_of_i16(v@[i as int])));
        }
        i = i + 1;
    }
    proof {
        assert(v@.take(v@.len() as int) =~= v@);
    }
    out
}

fn to_i16_samples(v: &Vec<u32>) -> (r: Vec<i16>)
    ensures
        r@ == spec_to_i16(v@),
{
    let mut out: Vec<i16> = Vec::new();
    let mut i: usize = 0;
    while i < v.len()
        invariant
            i <= v@.len(),
            out@ == spec_to_i16(v@.take(i as int)),
        decreases v@.len() - i,
    {
        out.push(i16_from_f32_bits(v[i]));
        proof {
            assert(spec_to_i16(v@.take(i as int + 1)) =~= spec_to_i16(v@.take(i as int)).push(
                i16_of_float_bits(v@[i as int]),
            ));
        }
        i = i + 1;
    }
    proof {
        assert(v@.take(v@.len() as int) =~= v@);
    }
    out
}

/// Sum of one interleaved frame's first `k` samples, each shifted up by the
/// 16-bit bias so the sum is non-negative.
pub open spec fn spec_biased_frame_sum(s: Seq<i16>, channels: int, frame: int, k: int) -> int
    decreases k,
{
    if k <= 0 {
        0
    } else {
        spec_biased_frame_sum(s, channels, frame, k - 1) + s[frame * channels + (k - 1)] + 32768
    }
}

/// Arithmetic mean of one interleaved frame: the biased per-channel sum,
/// divided by the channel count, shifted back down.
pub open spec fn spec_frame_avg(s: Seq<i16>, channels: int, frame: int) -> i16 {
    (spec_biased_frame_sum(s, channels, frame, channels) / channels - 32768) as i16
}

/// Mono downmix of an interleaved sequence: one averaged sample per
/// complete frame.
pub open spec fn spec_downmix(s: Seq<i16>, channels: int) -> Seq<i16> {
    Seq::new((s.len() as int / channels) as nat, |f: int| spec_frame_avg(s, channels, f))
}

/// Downmixing an already-mono sequence changes nothing: the per-frame
/// mean over one channel is the sample itself.
pub proof fn lemma_downmix_mono_identity(s: Seq<i16>)
    ensures
        spec_downmix(s, 1) == s,
{
    assert forall|f: int| 0 <= f < s.len() implies spec_downmix(s, 1)[f] == s[f] by {
        assert(spec_biased_frame_sum(s, 1, f, 0) == 0);
        assert(spec_biased_frame_sum(s, 1, f, 1) == s[f] + 32768);
    }
    assert(spec_downmix(s, 1) =~= s);
}

/// The biased sum of `k` samples lies between `0` and `k * 65535`.
proof fn lemma_biased_frame_sum_bounds(s: Seq<i16>, channels: int, frame: int, k: int)
    requires
        k >= 0,
        forall|t: int| 0 <= t < s.len() ==> i16::MIN <= #[trigger] s[t] <= i16::MAX,
    ensures
        0 <= spec_biased_frame_sum(s, channels, frame, k) <= k * 65535,
    decreases k,
{
    if k > 0 {
        lemma_biased_frame_sum_bounds(s, channels, frame, k - 1);
    }
}

/// Downmixes interleaved samples to mono by the per-frame arithmetic mean
/// over the channels; a trailing partial frame is discarded. Fails exactly
/// on a zero channel count.
pub fn downmix_to_mono(samples: &Vec<i16>, channels: u16) -> (r: Result<Vec<i16>, ResampleError>)
    ensures
        channels == 0 <==> r is Err,
        channels > 0 ==> (r matches Ok(v) && v@ == spec_downmix(samples@, channels as int)),
{
    if channels == 0 {
        return Err(ResampleError);
    }
    let ch: usize = channels as usize;
    let frames: usize = samples.len() / ch;
    proof {
        lemma_fundamental_div_mod(samples@.len() as int, ch as int);
        lemma_mod_bound(samples@.len() as int, ch as int);
        assert((ch as int) * (frames as int) <= samples@.len() as int);
        assert((frames as int) * (ch as int) == (ch as int) * (frames as int)) by (nonlinear_arith);
    }
    let mut out: Vec<i16> = Vec::new();
    let mut f: usize = 0;
    while f < frames
        invariant
            1 <= ch <= 65535,
            samples@.len() <= usize::MAX,
            frames == samples@.len() as int / ch as int,
            (frames as int) * (ch as int) <= samples@.len(),
            f <= frames,
            out@.len() == f as int,
            forall|t: int| 0 <= t < f ==> out@[t] == spec_frame_avg(
                samples@,
                ch as int,
                t,
            ),
        decreases frames - f,
    {
        proof {
            assert(0 <= (f as int) * (ch as int) && (f as int) * (ch as int) + (ch as int) <= (
            ch as int) * (frames as int)) by (nonlinear_arith)
                requires
                    (f as int) < (frames as int),
                    1 <= ch as int,
            ;
        }
        let base: usize = f * ch;
        let mut sum: u64 = 0;
        let mut k: usize = 0;
        while k < ch
            invariant
                1 <= ch <= 65535,
                samples@.len() <= usize::MAX,
                f < frames,
                base == (f as int) * (ch as int),
                base + ch <= samples@.len(),
                k <= ch,
                sum as int == spec_biased_frame_sum(samples@, ch as int, f as int, k as int),
                sum <= (k as int) * 65535,
            decreases ch - k,
        {
            let s_i: i16 = samples[base + k];
            sum = sum + ((s_i as i64) + 32768) as u64;
            k = k + 1;
        }
        proof {
            lemma_biased_frame_sum_bounds(samples@, ch as int, f as int, ch as int);
            lemma_div_is_ordered(sum as int, (ch as int) * 65535, ch as int);
            lemma_div_multiples_vanish(65535, ch as int);
        }
        let avg: u64 = sum / (ch as u64);
        let m: i32 = (avg as i32) - 32768;
        out.push(m as i16);
        proof {
            assert(out@ =~= Seq::new((f + 1) as nat, |t: int| spec_frame_avg(
                samples@,
                ch as int,
                t,
            )));
        }
        f = f + 1;
    }
    proof {
        assert(out@ =~= spec_downmix(samples@, channels as int));
    }
    Ok(out)
}

/// Mono 16 kHz float samples (as bits), ready for inference. Built only by
/// the resampler, so the fixed rate and single channel hold by
/// construction.
pub struct NormalizedSamples {
    samples: Vec<u32>,
}

impl NormalizedSamples {
    pub closed spec fn view(&self) -> Seq<u32> {
        self.samples@
    }

    /// Number of samples; at the fixed rate, proportional to the source
    /// duration and to nothing else.
    pub fn len(&self) -> (r: usize)
        ensures
            r == self@.len(),
    {
        self.samples.len()
    }

    /// The samples, as float bits.
    pub fn bits(&self) -> (r: &Vec<u32>)
        ensures
            r@ == self@,
    {
        &self.samples
    }
}

/// Mono float bits of an interleaved float-bit sequence: unchanged when
/// already mono; otherwise downmixed over the 16-bit integer encoding.
pub open spec fn spec_mono_float_bits(s: Seq<u32>, channels: int) -> Seq<u32> {
    if channels == 1 {
        s
    } else {
        spec_to_float_bits(spec_downmix(spec_to_i16(s), channels))
    }
}

/// The normalized sequence of an interleaved float-bit sequence: its mono
/// downmix, sinc-resampled from the source rate to the fixed target rate.
pub open spec fn spec_resampled(s: Seq<u32>, source_rate: u32, channels: int) -> Seq<u32> {
    sinc_resampled_of(spec_mono_float_bits(s, channels), source_rate, TARGET_SAMPLE_RATE, 1)
}

/// Number of samples the sinc converter returns for a mono input of `n`
/// samples: the frame count scaled by the rate ratio, rounded up.
pub open spec fn spec_resampled_len(n: int, source_rate: u32) -> int {
    (n * (TARGET_SAMPLE_RATE as int) + (source_rate as int) - 1) / (source_rate as int)
}

/// At equal source and target rates the conversion keeps the length: a
/// mono sequence already at the fixed rate normalizes to exactly as many
/// samples as it has.
pub proof fn lemma_equal_rate_preserves_length(n: int)
    requires
        n >= 0,
    ensures
        spec_resampled_len(n, TARGET_SAMPLE_RATE) == n,
{
    let d = TARGET_SAMPLE_RATE as int;
    vstd::arithmetic::div_mod::lemma_div_multiples_vanish_fancy(n, d - 1, d);
    assert(n * d == d * n) by (nonlinear_arith);
}

fn resample_mono_bits(mono: &Vec<u32>, source_rate: u32) -> (r: Result<
    NormalizedSamples,
    ResampleError,
>)
    requires
        source_rate >= 1,
    ensures
        r matches Ok(v) ==> v@ == sinc_resampled_of(mono@, source_rate, TARGET_SAMPLE_RATE, 1)
            && v@.len() == spec_resampled_len(mono@.len() as int, source_rate),
{
    if mono.len() > (usize::MAX - source_rate as usize) / (TARGET_SAMPLE_RATE as usize) {
        return Err(ResampleError);
    }
    proof {
        lemma_mul_inequality(
            mono@.len() as int,
            ((usize::MAX - source_rate) as int) / (TARGET_SAMPLE_RATE as int),
            TARGET_SAMPLE_RATE as int,
        );
        lemma_fundamental_div_mod((usize::MAX - source_rate) as int, TARGET_SAMPLE_RATE as int);
        lemma_div_multiples_vanish(mono@.len() as int, 1);
    }
    match convert_sinc(mono, source_rate, TARGET_SAMPLE_RATE, 1) {
        Ok(v) => Ok(NormalizedSamples { samples: v }),
        Err(e) => Err(e),
    }
}

/// Converts an interleaved float-bit sequence from its native rate and
/// channel count to the normalized mono 16 kHz layout. Fails exactly on a
/// zero rate or channel count, or when the converter declines; on success
/// the result is the named sinc conversion of the mono downmix, with the
/// frame count scaled by the rate ratio, rounded up.
pub fn resample(samples: &Vec<u32>, source_rate: u32, source_channels: u16) -> (r: Result<
    NormalizedSamples,
    ResampleError,
>)
    ensures
        source_rate == 0 || source_channels == 0 ==> r is Err,
        r matches Ok(v) ==> source_rate >= 1 && source_channels >= 1 && v@ == spec_resampled(
            samples@,
            source_rate,
            source_channels as int,
        ) && v@.len() == spec_resampled_len(
            spec_mono_float_bits(samples@, source_channels as int).len() as int,
            source_rate,
        ),
{
    if source_rate == 0 || source_channels == 0 {
        return Err(ResampleError);
    }
    if source_channels == 1 {
        return resample_mono_bits(samples, source_rate);
    }
    let ints = to_i16_samples(samples);
    let mono_ints = match downmix_to_mono(&ints, source_channels) {
        Ok(v) => v,
        Err(e) => {
            return Err(e);
        },
    };
    let mono = to_float_bits(&mono_ints);
    resample_mono_bits(&mono, source_rate)
}

/// The normalized sample sequence of a finalized recording: integer
/// containers are downmixed over their own encoding and converted to float
/// bits; float containers go through the interleaved float path.
pub open spec fn spec_normalized_of(rec: FinalizedRecording) -> Seq<u32> {
    match rec.samples {
        SampleData::Int(v) => sinc_resampled_of(
            spec_to_float_bits(spec_downmix(v@, rec.format.channels as int)),
            rec.format.sample_rate,
            TARGET_SAMPLE_RATE,
            1,
        ),
        SampleData::Float(v) => spec_resampled(v@, rec.format.sample_rate, rec.format.channels as int),
    }
}

/// Derives the normalized sample sequence of a finalized recording. Fails
/// exactly on a zero rate or channel count, or when the converter
/// declines; on success the result is the recording's normalized sequence.
pub fn resample_recording(rec: &FinalizedRecording) -> (r: Result<NormalizedSamples, ResampleError>)
    ensures
        rec.format.sample_rate == 0 || rec.format.channels == 0 ==> r is Err,
        r matches Ok(v) ==> v@ == spec_normalized_of(*rec),
{
    if rec.format.sample_rate == 0 || rec.format.channels == 0 {
        return Err(ResampleError);
    }
    match &rec.samples {
        SampleData::Int(v) => {
            let mono_ints = match downmix_to_mono(v, rec.format.channels) {
                Ok(m) => m,
                Err(e) => {
                    return Err(e);
                },
            };
            let mono = to_float_bits(&mono_ints);
            resample_mono_bits(&mono, rec.format.sample_rate)
        },
        SampleData::Float(v) => resample(v, rec.format.sample_rate, rec.format.channels),
    }
}

} // verus!
