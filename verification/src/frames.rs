//! Frame extraction: slicing a sample sequence into fixed-length analysis
//! frames that start a fixed hop apart.

use vstd::prelude::*;

verus! {

/// Number of whole frames of `fft_size` samples, `hop_size` apart, that lie
/// inside a sequence of `len` samples.
pub open spec fn spec_frame_count(len: nat, fft_size: nat, hop_size: nat) -> nat {
    if len >= fft_size && hop_size > 0 {
        ((len - fft_size) / (hop_size as int) + 1) as nat
    } else {
        0
    }
}

/// Index of the first sample of frame `i`.
pub open spec fn spec_frame_start(i: nat, hop_size: nat) -> nat {
    i * hop_size
}

/// Frame `i` of `samples`.
pub open spec fn spec_frame<T>(samples: Seq<T>, fft_size: nat, hop_size: nat, i: nat) -> Seq<T> {
    samples.subrange(
        spec_frame_start(i, hop_size) as int,
        (spec_frame_start(i, hop_size) + fft_size) as int,
    )
}

/// A frame index is below the frame count exactly when the frame it names
/// ends inside the sequence: the count includes every frame that fits and
/// excludes the first one that would read past the end.
pub proof fn lemma_frame_fits_iff_counted(len: nat, fft_size: nat, hop_size: nat, i: nat)
    requires
        hop_size > 0,
    ensures
        i < spec_frame_count(len, fft_size, hop_size) <==> spec_frame_start(i, hop_size) + fft_size
            <= len,
{
    let h = hop_size as int;
    if len >= fft_size {
        let room = len - fft_size;
        let q = room / h;
        assert(room == h * q + room % h) by {
            vstd::arithmetic::div_mod::lemma_fundamental_div_mod(room, h);
        }
        assert(0 <= room % h < h) by {
            vstd::arithmetic::div_mod::lemma_mod_bound(room, h);
        }
        if (i as int) <= q {
            assert(i * h <= q * h) by (nonlinear_arith)
                requires
                    0 <= i <= q,
                    h > 0,
            ;
            assert(q * h == h * q) by (nonlinear_arith);
        } else {
            assert(i * h >= (q + 1) * h) by (nonlinear_arith)
                requires
                    i >= q + 1,
                    h > 0,
            ;
            assert((q + 1) * h == h * q + h) by (nonlinear_arith);
        }
    } else {
        assert(i * h >= 0) by (nonlinear_arith)
            requires
                i >= 0,
                h > 0,
        ;
    }
}

/// Counts the frames of `fft_size` samples, `hop_size` apart, in a sequence
/// of `len` samples. A sequence shorter than one frame holds none.
pub fn frame_count(len: usize, fft_size: usize, hop_size: usize) -> (n: usize)
    requires
        fft_size > 1,
        hop_size > 0,
    ensures
        n == spec_frame_count(len as nat, fft_size as nat, hop_size as nat),
        len >= fft_size ==> n == (len - fft_size) / (hop_size as int) + 1,
        len < fft_size ==> n == 0,
{
    if len >= fft_size {
        (len - fft_size) / hop_size + 1
    } else {
        0
    }
}

/// Index of the first sample of frame `i`, or `None` where the sequence holds
/// no frame `i`.
pub fn frame_start(len: usize, fft_size: usize, hop_size: usize, i: usize) -> (start: Option<usize>)
    requires
        fft_size > 1,
        hop_size > 0,
    ensures
        i < spec_frame_count(len as nat, fft_size as nat, hop_size as nat) ==> start == Some(
            spec_frame_start(i as nat, hop_size as nat) as usize,
        ) && spec_frame_start(i as nat, hop_size as nat) + fft_size <= len,
        i >= spec_frame_count(len as nat, fft_size as nat, hop_size as nat) ==> start.is_none(),
{
    let count: usize = frame_count(len, fft_size, hop_size);
    if i < count {
        proof {
            lemma_frame_fits_iff_counted(len as nat, fft_size as nat, hop_size as nat, i as nat);
        }
        Some(i * hop_size)
    } else {
        None
    }
}

/// Frame `i` of `samples`: the `fft_size` samples from index `i * hop_size`
/// on, or `None` where that range would read past the end.
pub fn frame<'a, T>(samples: &'a [T], fft_size: usize, hop_size: usize, i: usize) -> (r: Option<
    &'a [T],
>)
    requires
        fft_size > 1,
        hop_size > 0,
    ensures
        i < spec_frame_count(samples@.len(), fft_size as nat, hop_size as nat) ==> r.is_some()
            && r.unwrap()@ == spec_frame(samples@, fft_size as nat, hop_size as nat, i as nat),
        i >= spec_frame_count(samples@.len(), fft_size as nat, hop_size as nat) ==> r.is_none(),
{
    match frame_start(samples.len(), fft_size, hop_size, i) {
        Some(start) => Some(vstd::slice::slice_subrange(samples, start, start + fft_size)),
        None => None,
    }
}

} // verus!
