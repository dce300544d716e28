//! Channel downmixing: which samples of an interleaved stream enter each mono
//! sample, and by what the integer samples of a file are divided.
//!
//! The average itself, and the division, are floating-point work and are left
//! to the caller; this module fixes everything about them that is a whole
//! number.

use vstd::prelude::*;
use vstd::arithmetic::div_mod::lemma_fundamental_div_mod;
use vstd::arithmetic::div_mod::lemma_mod_bound;
use crate::error::SpectrogramError;

verus! {

/// Number of channels that enter the mono signal: the first two at most.
pub const MIXED_CHANNELS: usize = 2;

/// The magnitude of a sample.
pub open spec fn spec_magnitude(sample: int) -> nat {
    if sample < 0 {
        (-sample) as nat
    } else {
        sample as nat
    }
}

/// `peak` is the largest magnitude among `samples`, or 0 where there are
/// none.
pub open spec fn spec_is_peak(samples: Seq<i32>, peak: nat) -> bool {
    &&& forall|i: int| 0 <= i < samples.len() ==> spec_magnitude(#[trigger] samples[i] as int) <= peak
    &&& samples.len() == 0 ==> peak == 0
    &&& samples.len() > 0 ==> exists|i: int|
        0 <= i < samples.len() && spec_magnitude(#[trigger] samples[i] as int) == peak
}

/// What integer samples are divided by: the peak, or 1 where the signal is
/// silent, so that silence stays silence.
pub open spec fn spec_divisor(peak: nat) -> nat {
    if peak == 0 {
        1
    } else {
        peak
    }
}

/// A sequence has one peak only.
pub proof fn lemma_peak_unique(samples: Seq<i32>, p: nat, q: nat)
    requires
        spec_is_peak(samples, p),
        spec_is_peak(samples, q),
    ensures
        p == q,
{
}

/// Divided by the divisor of its peak, every sample lies between -1 and 1;
/// the loudest sample of a signal that is not silent lands on -1 or 1, and a
/// silent signal is all zeros.
pub proof fn lemma_normalized_range(samples: Seq<i32>, peak: nat)
    requires
        spec_is_peak(samples, peak),
    ensures
        spec_divisor(peak) >= 1,
        forall|i: int|
            0 <= i < samples.len() ==> -spec_divisor(peak) <= #[trigger] samples[i]
                <= spec_divisor(peak),
        peak > 0 ==> exists|i: int|
            0 <= i < samples.len() && spec_magnitude(#[trigger] samples[i] as int) == spec_divisor(
                peak,
            ),
        peak == 0 ==> forall|i: int| 0 <= i < samples.len() ==> #[trigger] samples[i] == 0,
{
    assert forall|i: int| 0 <= i < samples.len() implies -spec_divisor(peak) <= #[trigger] samples[i]
        <= spec_divisor(peak) by {
        assert(spec_magnitude(samples[i] as int) <= peak);
    }
    if peak == 0 {
        assert forall|i: int| 0 <= i < samples.len() implies #[trigger] samples[i] == 0 by {
            assert(spec_magnitude(samples[i] as int) <= peak);
        }
    }
}

/// The largest magnitude among `samples`; 0 where there are none.
pub fn peak_amplitude(samples: &[i32]) -> (peak: u32)
    ensures
        spec_is_peak(samples@, peak as nat),
{
    let mut peak: u32 = 0;
    let mut i: usize = 0;
    let ghost mut at: int = 0;
    while i < samples.len()
        invariant
            i <= samples.len(),
            forall|k: int| 0 <= k < i ==> spec_magnitude(#[trigger] samples@[k] as int) <= peak,
            i == 0 ==> peak == 0,
            i > 0 ==> 0 <= at < i && spec_magnitude(samples@[at] as int) == peak,
        decreases samples.len() - i,
    {
        let sample: i64 = samples[i] as i64;
        let magnitude: u32 = if sample < 0 {
            (-sample) as u32
        } else {
            sample as u32
        };
        if magnitude > peak || i == 0 {
            peak = magnitude;
            proof {
                at = i as int;
            }
        }
        i = i + 1;
    }
    peak
}

/// What the samples of a signal with this peak are divided by.
pub fn normalization_divisor(peak: u32) -> (divisor: u32)
    ensures
        divisor == spec_divisor(peak as nat),
{
    if peak == 0 {
        1
    } else {
        peak
    }
}

/// The samples of one sample frame that enter the mono signal.
#[derive(Clone, Copy, Debug, PartialEq)]
pub struct Picked<T> {
    /// The sample of the first channel.
    pub first: T,
    /// The sample of the second channel, where the frame has one.
    pub second: Option<T>,
}

/// Number of sample frames in `total` interleaved samples: a last frame that
/// is cut short still counts.
pub open spec fn spec_frame_total(total: nat, channels: nat) -> nat {
    if channels == 0 {
        0
    } else {
        ((total + channels - 1) / channels as int) as nat
    }
}

/// What enters mono sample `i`: the first sample of frame `i`, and the
/// second where there are at least two channels and the stream holds it.
pub open spec fn spec_picked<T>(samples: Seq<T>, channels: nat, i: int) -> Picked<T> {
    Picked {
        first: samples[i * channels],
        second: if channels >= MIXED_CHANNELS && i * channels + 1 < samples.len() {
            Some(samples[i * channels + 1])
        } else {
            None
        },
    }
}

/// Frame `i` exists exactly when its first sample lies in the stream.
pub proof fn lemma_frame_total(total: nat, channels: nat, i: nat)
    requires
        channels > 0,
    ensures
        i < spec_frame_total(total, channels) <==> i * channels < total,
{
    let c = channels as int;
    let padded = total + channels - 1;
    let q = padded / c;
    lemma_fundamental_div_mod(padded, c);
    lemma_mod_bound(padded, c);
    assert(c * q == q * c) by (nonlinear_arith);
    if (i as int) < q {
        assert(i * c <= (q - 1) * c) by (nonlinear_arith)
            requires
                0 <= i <= q - 1,
                c > 0,
        ;
        assert((q - 1) * c == q * c - c) by (nonlinear_arith);
    } else {
        assert(i * c >= q * c) by (nonlinear_arith)
            requires
                i >= q,
                c > 0,
        ;
    }
}

/// Picks from interleaved samples what enters each mono sample: of every
/// sample frame the first two channels at most. The caller averages what was
/// picked. A stream without channels is refused.
pub fn pick_channels<T: Copy>(samples: &[T], channels: usize) -> (r: Result<
    Vec<Picked<T>>,
    SpectrogramError,
>)
    ensures
        match r {
            Ok(picked) => {
                &&& channels > 0
                &&& picked@.len() == spec_frame_total(samples@.len(), channels as nat)
                &&& forall|i: int|
                    0 <= i < picked@.len() ==> #[trigger] picked@[i] == spec_picked(
                        samples@,
                        channels as nat,
                        i,
                    )
            },
            Err(e) => channels == 0 && e == SpectrogramError::NoChannels,
        },
{
    if channels == 0 {
        return Err(SpectrogramError::NoChannels);
    }
    let total: usize = samples.len();
    let whole: usize = total / channels;
    proof {
        lemma_fundamental_div_mod(total as int, channels as int);
        lemma_mod_bound(total as int, channels as int);
        if total % channels != 0 {
            assert(channels * whole >= 2 * whole) by (nonlinear_arith)
                requires
                    channels >= 2,
                    whole >= 0,
            ;
        }
    }
    let count: usize = if total % channels == 0 {
        whole
    } else {
        whole + 1
    };
    proof {
        lemma_fundamental_div_mod(total as int, channels as int);
        lemma_mod_bound(total as int, channels as int);
        assert(channels * whole == whole * channels) by (nonlinear_arith);
        lemma_frame_total(total as nat, channels as nat, count as nat);
        if count > 0 {
            lemma_frame_total(total as nat, channels as nat, (count - 1) as nat);
            if total % channels == 0 {
                assert((whole - 1) * channels == whole * channels - channels)
                    by (nonlinear_arith);
            }
        } else {
            lemma_frame_total(total as nat, channels as nat, 0);
        }
        if total % channels != 0 {
            assert((whole + 1) * channels == whole * channels + channels) by (nonlinear_arith);
        }
    }
    let mut picked: Vec<Picked<T>> = Vec::new();
    let mut start: usize = 0;
    let mut i: usize = 0;
    while i < count
        invariant
            channels > 0,
            total == samples@.len(),
            count == spec_frame_total(total as nat, channels as nat),
            i <= count,
            i < count ==> start == i * channels,
            picked@.len() == i,
            forall|k: int|
                0 <= k < i ==> #[trigger] picked@[k] == spec_picked(samples@, channels as nat, k),
        decreases count - i,
    {
        proof {
            lemma_frame_total(total as nat, channels as nat, i as nat);
        }
        let first = samples[start];
        let second = if channels >= MIXED_CHANNELS && total - start > 1 {
            Some(samples[start + 1])
        } else {
            None
        };
        picked.push(Picked { first, second });
        i = i + 1;
        if i < count {
            proof {
                lemma_frame_total(total as nat, channels as nat, i as nat);
                assert(i * channels == start + channels) by (nonlinear_arith)
                    requires
                        start == (i - 1) * channels,
                ;
            }
            start = start + channels;
        }
    }
    Ok(picked)
}

} // verus!
