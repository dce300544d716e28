//! The ways in which a request to the library can be refused.

use vstd::prelude::*;
use vstd::string::*;

verus! {

/// Why a spectrogram could not be laid out or painted.
#[derive(Clone, Copy, Debug, PartialEq, Eq)]
pub enum SpectrogramError {
    /// The frame length is 0 or 1; the window needs at least two samples.
    FftSizeTooSmall,
    /// The hop between frames is 0.
    ZeroHopSize,
    /// The sample rate is 0 Hz.
    ZeroSampleRate,
    /// The image would be too large to address or to hold in memory.
    TooLarge,
    /// The colours handed in do not match the layout's frames and bins.
    ShapeMismatch,
    /// The canvas handed in does not have the layout's size.
    CanvasMismatch,
    /// The interleaved samples claim to have no channel.
    NoChannels,
}

impl SpectrogramError {
    /// A one-line description for the user.
    pub fn message(&self) -> (text: String)
        ensures
            text@ == self.spec_message(),
    {
        match self {
            SpectrogramError::FftSizeTooSmall => String::from_str(
                "the FFT size must be at least 2",
            ),
            SpectrogramError::ZeroHopSize => String::from_str("the hop size must not be 0"),
            SpectrogramError::ZeroSampleRate => String::from_str("the sample rate must not be 0"),
            SpectrogramError::TooLarge => String::from_str("the image would be too large"),
            SpectrogramError::ShapeMismatch => String::from_str(
                "the colours do not match the layout",
            ),
            SpectrogramError::CanvasMismatch => String::from_str(
                "the canvas does not match the layout",
            ),
            SpectrogramError::NoChannels => String::from_str("the audio has no channel"),
        }
    }

    /// The text that `message` returns.
    pub open spec fn spec_message(&self) -> Seq<char> {
        match self {
            SpectrogramError::FftSizeTooSmall => "the FFT size must be at least 2"@,
            SpectrogramError::ZeroHopSize => "the hop size must not be 0"@,
            SpectrogramError::ZeroSampleRate => "the sample rate must not be 0"@,
            SpectrogramError::TooLarge => "the image would be too large"@,
            SpectrogramError::ShapeMismatch => "the colours do not match the layout"@,
            SpectrogramError::CanvasMismatch => "the canvas does not match the layout"@,
            SpectrogramError::NoChannels => "the audio has no channel"@,
        }
    }
}

} // verus!
