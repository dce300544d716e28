//! The whole-number side of spectral analysis: how many bins a frame yields
//! and which frequency each bin stands for. The transform itself is
//! floating-point work and is left to the caller.

use vstd::prelude::*;
use vstd::arithmetic::div_mod::lemma_div_is_ordered;
use vstd::arithmetic::div_mod::lemma_multiply_divide_le;

verus! {

/// Number of bins in the spectrum of a frame: the lower half of the
/// transform.
pub open spec fn spec_bin_count(fft_size: nat) -> nat {
    fft_size / 2
}

/// The frequency of bin `bin`, in hertz, rounded down.
pub open spec fn spec_bin_frequency(bin: nat, sample_rate: nat, fft_size: nat) -> nat {
    ((bin * sample_rate) as int / fft_size as int) as nat
}

/// The bin nearest to `frequency` hertz; a frequency half way between two
/// bins goes to the upper one.
pub open spec fn spec_nearest_bin(frequency: nat, sample_rate: nat, fft_size: nat) -> nat {
    ((2 * frequency * fft_size + sample_rate) as int / (2 * sample_rate) as int) as nat
}

/// Every bin stands for a frequency below the Nyquist frequency.
pub proof fn lemma_bin_frequency_below_nyquist(bin: nat, sample_rate: nat, fft_size: nat)
    requires
        fft_size > 1,
        bin < spec_bin_count(fft_size),
    ensures
        2 * spec_bin_frequency(bin, sample_rate, fft_size) <= sample_rate,
{
    let scaled = (bin * sample_rate) as int;
    let size = fft_size as int;
    assert(0 <= 2 * scaled <= size * sample_rate) by (nonlinear_arith)
        requires
            scaled == bin * sample_rate,
            2 * bin <= size,
            bin >= 0,
            sample_rate >= 0,
    ;
    lemma_div_is_ordered(0, scaled, size);
    let f = scaled / size;
    vstd::arithmetic::div_mod::lemma_fundamental_div_mod(scaled, size);
    vstd::arithmetic::div_mod::lemma_mod_bound(scaled, size);
    assert(size * f <= scaled);
    assert(2 * f <= sample_rate) by (nonlinear_arith)
        requires
            size * f <= scaled,
            2 * scaled <= size * sample_rate,
            size > 0,
    ;
}

/// Number of bins in the spectrum of a frame of `fft_size` samples.
pub fn bin_count(fft_size: usize) -> (bins: usize)
    ensures
        bins == spec_bin_count(fft_size as nat),
{
    fft_size / 2
}

/// The frequency of bin `bin`, in hertz, rounded down; `None` where the
/// spectrum has no such bin.
pub fn bin_frequency(bin: usize, sample_rate: u32, fft_size: usize) -> (frequency: Option<u32>)
    requires
        fft_size > 1,
    ensures
        bin < spec_bin_count(fft_size as nat) ==> frequency == Some(
            spec_bin_frequency(bin as nat, sample_rate as nat, fft_size as nat) as u32,
        ) && spec_bin_frequency(bin as nat, sample_rate as nat, fft_size as nat) <= u32::MAX,
        bin >= spec_bin_count(fft_size as nat) ==> frequency.is_none(),
{
    if bin >= fft_size / 2 {
        return None;
    }
    proof {
        lemma_bin_frequency_below_nyquist(bin as nat, sample_rate as nat, fft_size as nat);
    }
    assert((bin as u128) * (sample_rate as u128) <= 0xFFFF_FFFF_FFFF_FFFF * 0xFFFF_FFFF)
        by (nonlinear_arith)
        requires
            bin <= 0xFFFF_FFFF_FFFF_FFFF,
            sample_rate <= 0xFFFF_FFFF,
    ;
    let scaled: u128 = (bin as u128) * (sample_rate as u128);
    Some((scaled / (fft_size as u128)) as u32)
}

/// The bin nearest to `frequency` hertz; `None` where the frequency lies
/// above the Nyquist frequency or the sample rate is 0.
pub fn nearest_bin(frequency: u32, sample_rate: u32, fft_size: usize) -> (bin: Option<usize>)
    requires
        fft_size > 1,
    ensures
        sample_rate > 0 && 2 * frequency <= sample_rate ==> bin == Some(
            spec_nearest_bin(frequency as nat, sample_rate as nat, fft_size as nat) as usize,
        ) && spec_nearest_bin(frequency as nat, sample_rate as nat, fft_size as nat) <= fft_size
            / 2 + 1,
        sample_rate == 0 || 2 * frequency > sample_rate ==> bin.is_none(),
{
    if sample_rate == 0 || 2 * (frequency as u64) > sample_rate as u64 {
        return None;
    }
    let doubled: u128 = 2 * (frequency as u128);
    let size: u128 = fft_size as u128;
    let rate: u128 = sample_rate as u128;
    assert(doubled * size <= rate * size) by (nonlinear_arith)
        requires
            doubled <= rate,
            size >= 0,
    ;
    assert(rate * size <= 0xFFFF_FFFF * 0xFFFF_FFFF_FFFF_FFFF) by (nonlinear_arith)
        requires
            rate <= 0xFFFF_FFFF,
            size <= 0xFFFF_FFFF_FFFF_FFFF,
    ;
    let scaled: u128 = doubled * size + rate;
    assert(scaled == 2 * frequency * fft_size + sample_rate) by (nonlinear_arith)
        requires
            scaled == doubled * size + rate,
            doubled == 2 * frequency,
            size == fft_size,
            rate == sample_rate,
    ;
    proof {
        assert(scaled <= (2 * rate) * (fft_size / 2 + 1)) by (nonlinear_arith)
            requires
                scaled == doubled * size + rate,
                doubled <= rate,
                size == fft_size,
                size <= 2 * (fft_size / 2) + 1,
                rate >= 1,
                size >= 0,
        ;
        lemma_multiply_divide_le(scaled as int, (2 * rate) as int, (fft_size / 2 + 1) as int);
        lemma_div_is_ordered(0, scaled as int, (2 * rate) as int);
    }
    Some((scaled / (2 * rate)) as usize)
}

} // verus!
