//! Decisions around decoding: which decoder reads a file first, what is
//! tried when it fails, and what sample rate a stream without one gets.

use vstd::prelude::*;
use vstd::string::*;

verus! {

/// The sample rate assumed for a stream that declares none, in hertz.
pub const DEFAULT_SAMPLE_RATE: u32 = 44100;

/// A way of decoding an audio file.
#[derive(Clone, Copy, Debug, PartialEq, Eq)]
pub enum Decoder {
    /// The fast reader for WAV files.
    Wav,
    /// The general decoder, which probes the format.
    Generic,
}

/// `path` ends in `.wav`, in any mix of upper and lower case.
pub open spec fn spec_is_wav_path(path: Seq<char>) -> bool {
    let n = path.len() as int;
    &&& n >= 4
    &&& path[n - 4] == '.'
    &&& (path[n - 3] == 'w' || path[n - 3] == 'W')
    &&& (path[n - 2] == 'a' || path[n - 2] == 'A')
    &&& (path[n - 1] == 'v' || path[n - 1] == 'V')
}

/// The decoder that is tried first: the WAV reader for a path that ends in
/// `.wav`, the general decoder for every other.
pub open spec fn spec_first_decoder(path: Seq<char>) -> Decoder {
    if spec_is_wav_path(path) {
        Decoder::Wav
    } else {
        Decoder::Generic
    }
}

/// The decoder that is tried after `failed` has failed: the general decoder
/// after the WAV reader, none after the general decoder.
pub open spec fn spec_next_decoder(failed: Decoder) -> Option<Decoder> {
    match failed {
        Decoder::Wav => Some(Decoder::Generic),
        Decoder::Generic => None,
    }
}

/// No file is tried more than twice, and the last attempt is always the
/// general decoder's.
pub proof fn lemma_at_most_one_retry(path: Seq<char>)
    ensures
        match spec_next_decoder(spec_first_decoder(path)) {
            Some(second) => second == Decoder::Generic && spec_next_decoder(second).is_none(),
            None => spec_first_decoder(path) == Decoder::Generic,
        },
{
}

/// Tells whether `path` ends in `.wav`, in any mix of upper and lower case.
pub fn is_wav_path(path: &str) -> (wav: bool)
    ensures
        wav == spec_is_wav_path(path@),
{
    let n: usize = path.unicode_len();
    if n < 4 {
        return false;
    }
    let dot = path.get_char(n - 4);
    let w = path.get_char(n - 3);
    let a = path.get_char(n - 2);
    let v = path.get_char(n - 1);
    dot == '.' && (w == 'w' || w == 'W') && (a == 'a' || a == 'A') && (v == 'v' || v == 'V')
}

/// The decoder to try first on `path`.
pub fn first_decoder(path: &str) -> (decoder: Decoder)
    ensures
        decoder == spec_first_decoder(path@),
{
    if is_wav_path(path) {
        Decoder::Wav
    } else {
        Decoder::Generic
    }
}

/// The decoder to try after `failed` has failed, or `None` where the failure
/// is final.
pub fn next_decoder(failed: Decoder) -> (next: Option<Decoder>)
    ensures
        next == spec_next_decoder(failed),
{
    match failed {
        Decoder::Wav => Some(Decoder::Generic),
        Decoder::Generic => None,
    }
}

/// The sample rate of a stream: the declared one, or the default where the
/// stream declares none.
pub fn effective_sample_rate(declared: Option<u32>) -> (rate: u32)
    ensures
        rate == match declared {
            Some(r) => r,
            None => DEFAULT_SAMPLE_RATE,
        },
{
    match declared {
        Some(r) => r,
        None => DEFAULT_SAMPLE_RATE,
    }
}

} // verus!
