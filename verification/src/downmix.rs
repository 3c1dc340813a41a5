//! Downmixing to mono: the rule for each sample representation, and the
//! averaging of signed 16-bit frames.
//!
//! A decoded buffer holds one plane of samples per channel. Every frame of a
//! supported buffer gives one mono sample: the channels are brought to a
//! common scale, averaged, and scaled to the 16-bit range. The table of
//! scales lives here. Signed 16-bit input needs no scaling at all, so its
//! frames are averaged here in integers; the other representations are
//! averaged in floating point by the caller, by the rule that
//! [`SampleFormat::normalization`] returns.

use vstd::prelude::*;

verus! {

/// The factor that takes an average on the unit scale to the 16-bit range.
pub const FULL_SCALE: u32 = 32767;

/// The representation of the samples in a decoded buffer.
#[derive(Clone, Copy, Debug, PartialEq, Eq, Structural)]
pub enum SampleFormat {
    U8,
    U16,
    U24,
    U32,
    S8,
    S16,
    S24,
    S32,
    F32,
    F64,
}

/// How one sample is brought to the common scale, and whether the average
/// of a frame is then multiplied by `FULL_SCALE`.
///
/// A sample `v` becomes `v / divisor`, less one where `recentre` is set.
#[derive(Clone, Copy, Debug, PartialEq, Eq, Structural)]
pub struct Normalization {
    pub divisor: u32,
    pub recentre: bool,
    pub rescale: bool,
}

impl SampleFormat {
    /// The rule for this representation; none for the 24-bit ones, which are
    /// not converted.
    pub open spec fn rule(self) -> Option<Normalization> {
        match self {
            SampleFormat::U8 => Some(Normalization { divisor: 128, recentre: true, rescale: true }),
            SampleFormat::U16 => Some(
                Normalization { divisor: 32768, recentre: true, rescale: true },
            ),
            SampleFormat::U32 => Some(
                Normalization { divisor: 2147483648, recentre: true, rescale: true },
            ),
            SampleFormat::S8 => Some(
                Normalization { divisor: 128, recentre: false, rescale: true },
            ),
            SampleFormat::S16 => Some(
                Normalization { divisor: 1, recentre: false, rescale: false },
            ),
            SampleFormat::S32 => Some(
                Normalization { divisor: 32768, recentre: false, rescale: false },
            ),
            SampleFormat::F32 | SampleFormat::F64 => Some(
                Normalization { divisor: 1, recentre: false, rescale: true },
            ),
            SampleFormat::U24 | SampleFormat::S24 => None,
        }
    }

    /// Whether buffers of this representation are converted.
    pub open spec fn supported(self) -> bool {
        self != SampleFormat::U24 && self != SampleFormat::S24
    }

    /// The number of mono samples that a buffer of `frames` frames gives.
    pub open spec fn produced(self, frames: nat) -> nat {
        if self.supported() {
            frames
        } else {
            0
        }
    }

    /// Returns the rule for this representation.
    pub fn normalization(self) -> (rule: Option<Normalization>)
        ensures
            rule == self.rule(),
            rule is Some <==> self.supported(),
    {
        match self {
            SampleFormat::U8 => Some(Normalization { divisor: 128, recentre: true, rescale: true }),
            SampleFormat::U16 => Some(
                Normalization { divisor: 32768, recentre: true, rescale: true },
            ),
            SampleFormat::U32 => Some(
                Normalization { divisor: 2147483648, recentre: true, rescale: true },
            ),
            SampleFormat::S8 => Some(
                Normalization { divisor: 128, recentre: false, rescale: true },
            ),
            SampleFormat::S16 => Some(
                Normalization { divisor: 1, recentre: false, rescale: false },
            ),
            SampleFormat::S32 => Some(
                Normalization { divisor: 32768, recentre: false, rescale: false },
            ),
            SampleFormat::F32 | SampleFormat::F64 => Some(
                Normalization { divisor: 1, recentre: false, rescale: true },
            ),
            SampleFormat::U24 | SampleFormat::S24 => None,
        }
    }

    /// Tells whether buffers of this representation are converted.
    pub fn is_supported(self) -> (b: bool)
        ensures
            b == self.supported(),
    {
        match self {
            SampleFormat::U24 | SampleFormat::S24 => false,
            _ => true,
        }
    }

    /// Returns the number of mono samples that a buffer of `frames` frames
    /// gives: one per frame, or none for a 24-bit buffer, which is skipped
    /// without an error.
    pub fn samples_produced(self, frames: usize) -> (n: usize)
        ensures
            n == self.produced(frames as nat),
            !self.supported() ==> n == 0,
            self.supported() ==> n == frames,
    {
        if self.is_supported() {
            frames
        } else {
            0
        }
    }
}

/// The sum of the samples of frame `frame` over the first `channels` planes.
pub open spec fn frame_sum(planes: Seq<Seq<i16>>, frame: int, channels: int) -> int
    decreases channels,
{
    if channels <= 0 {
        0
    } else {
        frame_sum(planes, frame, channels - 1) + planes[channels - 1][frame]
    }
}

/// `sum / count` rounded toward zero; zero where `count` is not positive.
pub open spec fn mean_toward_zero(sum: int, count: int) -> int {
    if count <= 0 {
        0
    } else if sum >= 0 {
        sum / count
    } else {
        -((-sum) / count)
    }
}

/// The mono sample of frame `frame`: the mean of its channels, rounded toward
/// zero.
pub open spec fn mono_sample(planes: Seq<Seq<i16>>, frame: int) -> int {
    mean_toward_zero(frame_sum(planes, frame, planes.len() as int), planes.len() as int)
}

/// The sum of a frame lies between the extremes of as many 16-bit values.
pub proof fn lemma_frame_sum_bounds(planes: Seq<Seq<i16>>, frame: int, channels: int)
    requires
        0 <= channels,
    ensures
        -32768 * channels <= frame_sum(planes, frame, channels) <= 32767 * channels,
    decreases channels,
{
    if channels > 0 {
        lemma_frame_sum_bounds(planes, frame, channels - 1);
    }
}

/// The mean of values within bounds lies within the same bounds.
pub proof fn lemma_mean_bounds(sum: int, count: int, low: int, high: int)
    requires
        low <= 0 <= high,
        0 < count,
        low * count <= sum <= high * count,
    ensures
        low <= mean_toward_zero(sum, count) <= high,
{
    if sum >= 0 {
        assert(sum / count <= high) by (nonlinear_arith)
            requires
                0 < count,
                0 <= sum <= high * count,
        ;
        assert(0 <= sum / count) by (nonlinear_arith)
            requires
                0 < count,
                0 <= sum,
        ;
    } else {
        assert((-low) * count == -(low * count)) by (nonlinear_arith);
        assert((-sum) / count <= -low) by (nonlinear_arith)
            requires
                0 < count,
                0 <= -sum <= (-low) * count,
        ;
        assert(0 <= (-sum) / count) by (nonlinear_arith)
            requires
                0 < count,
                0 <= -sum,
        ;
    }
}

/// A mono sample fits in 16 bits.
pub proof fn lemma_mono_sample_fits(planes: Seq<Seq<i16>>, frame: int)
    ensures
        -32768 <= mono_sample(planes, frame) <= 32767,
{
    let n = planes.len() as int;
    if n > 0 {
        lemma_frame_sum_bounds(planes, frame, n);
        lemma_mean_bounds(frame_sum(planes, frame, n), n, -32768, 32767);
    }
}

/// A frame whose first `channels` planes all hold `value` sums to that many
/// times `value`.
pub proof fn lemma_frame_sum_constant(planes: Seq<Seq<i16>>, frame: int, channels: int, value: i16)
    requires
        0 <= channels <= planes.len(),
        forall|c: int| 0 <= c < channels ==> (#[trigger] planes[c])[frame] == value,
    ensures
        frame_sum(planes, frame, channels) == channels * value,
    decreases channels,
{
    let v = value as int;
    if channels > 0 {
        lemma_frame_sum_constant(planes, frame, channels - 1, value);
        assert(planes[channels - 1][frame] == value);
        assert((channels - 1) * v + v == channels * v) by (nonlinear_arith);
    } else {
        assert(channels * v == 0) by (nonlinear_arith)
            requires
                channels == 0,
        ;
    }
}

/// Downmixing channels that all hold the same value gives that value.
pub proof fn lemma_constant_channels(planes: Seq<Seq<i16>>, frame: int, value: i16)
    requires
        planes.len() > 0,
        forall|c: int| 0 <= c < planes.len() ==> (#[trigger] planes[c])[frame] == value,
    ensures
        mono_sample(planes, frame) == value,
{
    let n = planes.len() as int;
    let v = value as int;
    lemma_frame_sum_constant(planes, frame, n, value);
    if v >= 0 {
        assert((n * v) / n == v) by (nonlinear_arith)
            requires
                n > 0,
                v >= 0,
        ;
        assert(n * v >= 0) by (nonlinear_arith)
            requires
                n > 0,
                v >= 0,
        ;
    } else {
        assert(n * v < 0) by (nonlinear_arith)
            requires
                n > 0,
                v < 0,
        ;
        assert((-(n * v)) / n == -v) by (nonlinear_arith)
            requires
                n > 0,
                v < 0,
        ;
    }
}

/// The mono sample of a stereo frame is the mean of its two samples, rounded
/// toward zero.
pub proof fn lemma_stereo_frame(planes: Seq<Seq<i16>>, frame: int)
    requires
        planes.len() == 2,
    ensures
        mono_sample(planes, frame) == mean_toward_zero(planes[0][frame] + planes[1][frame], 2),
{
    assert(frame_sum(planes, frame, 2) == frame_sum(planes, frame, 1) + planes[1][frame]);
    assert(frame_sum(planes, frame, 1) == frame_sum(planes, frame, 0) + planes[0][frame]);
}

/// Whether every plane holds at least `frames` samples.
pub open spec fn planes_hold(planes: Seq<Seq<i16>>, frames: nat) -> bool {
    forall|c: int| 0 <= c < planes.len() ==> (#[trigger] planes[c]).len() >= frames
}

/// Averages frame `frame` of a signed 16-bit buffer over its channels.
///
/// The result is the exact mean rounded toward zero, with no further
/// scaling; a buffer without channels gives zero.
pub fn mix_frame_s16(planes: &Vec<Vec<i16>>, frame: usize) -> (sample: i16)
    requires
        planes_hold(planes.deep_view(), (frame + 1) as nat),
    ensures
        sample == mono_sample(planes.deep_view(), frame as int),
{
    let ghost model = planes.deep_view();
    let count: usize = planes.len();
    let mut sum: i128 = 0;
    let mut c: usize = 0;
    while c < count
        invariant
            c <= count,
            count == planes.len(),
            model == planes.deep_view(),
            planes_hold(model, (frame + 1) as nat),
            sum == frame_sum(model, frame as int, c as int),
        decreases count - c,
    {
        proof {
            lemma_frame_sum_bounds(model, frame as int, c as int);
            assert(model[c as int] == planes[c as int]@);
            assert(model[c as int].len() >= frame + 1);
        }
        sum = sum + planes[c][frame] as i128;
        c = c + 1;
    }
    proof {
        lemma_frame_sum_bounds(model, frame as int, count as int);
        lemma_mono_sample_fits(model, frame as int);
    }
    if count == 0 {
        0
    } else if sum >= 0 {
        (sum / count as i128) as i16
    } else {
        (-((-sum) / count as i128)) as i16
    }
}

/// Downmixes the first `frames` frames of a signed 16-bit buffer: one mono
/// sample per frame, in order.
pub fn downmix_s16(planes: &Vec<Vec<i16>>, frames: usize) -> (mono: Vec<i16>)
    requires
        planes_hold(planes.deep_view(), frames as nat),
    ensures
        mono@.len() == frames,
        forall|i: int| 0 <= i < frames ==> mono@[i] == mono_sample(planes.deep_view(), i),
{
    let mut mono: Vec<i16> = Vec::new();
    let mut i: usize = 0;
    while i < frames
        invariant
            i <= frames,
            mono@.len() == i,
            planes_hold(planes.deep_view(), frames as nat),
            forall|k: int| 0 <= k < i ==> mono@[k] == mono_sample(planes.deep_view(), k),
        decreases frames - i,
    {
        let sample = mix_frame_s16(planes, i);
        mono.push(sample);
        i = i + 1;
    }
    mono
}

} // verus!
