//! Where everything goes: the size of the image and the position of the
//! spectrogram body, the axes and the colour legend inside it.

use vstd::prelude::*;
use crate::canvas::spec_allocatable;
use crate::error::SpectrogramError;
use crate::frames::frame_count;
use crate::frames::spec_frame_count;

verus! {

/// Space left of the body, for the frequency labels.
pub const MARGIN_LEFT: u32 = 160;

/// Distance from the right edge of the image to the end of the time axis.
pub const MARGIN_RIGHT: u32 = 180;

/// Space above the body.
pub const MARGIN_TOP: u32 = 60;

/// Space below the body, for the time labels.
pub const MARGIN_BOTTOM: u32 = 60;

/// Gap between the body and the colour bar.
pub const COLORBAR_GAP: u32 = 40;

/// Width of the colour bar.
pub const COLORBAR_WIDTH: u32 = 30;

/// Space right of the colour bar, for the decibel labels.
pub const LEGEND_LABEL_SPACE: u32 = 100;

/// What a layout is computed from.
pub struct Plan {
    /// Number of mono samples.
    pub sample_count: nat,
    /// Samples per second.
    pub sample_rate: nat,
    /// Samples per analysis frame.
    pub fft_size: nat,
    /// Samples between the starts of consecutive frames.
    pub hop_size: nat,
}

impl Plan {
    /// Number of analysis frames: the width of the body.
    pub open spec fn frames(self) -> nat {
        spec_frame_count(self.sample_count, self.fft_size, self.hop_size)
    }

    /// Number of frequency bins per frame: the height of the body.
    pub open spec fn bins(self) -> nat {
        self.fft_size / 2
    }

    /// Width of the whole image: left margin, body, gap, colour bar and the
    /// space for its labels.
    pub open spec fn width(self) -> nat {
        MARGIN_LEFT as nat + self.frames() + COLORBAR_GAP as nat + COLORBAR_WIDTH as nat
            + LEGEND_LABEL_SPACE as nat
    }

    /// Height of the whole image: top margin, body and bottom margin.
    pub open spec fn height(self) -> nat {
        MARGIN_TOP as nat + self.bins() + MARGIN_BOTTOM as nat
    }

    /// The row just below the body, on which the time axis runs.
    pub open spec fn body_bottom(self) -> nat {
        MARGIN_TOP as nat + self.bins()
    }

    /// The column at which the time axis ends.
    pub open spec fn axis_right(self) -> int {
        self.width() - MARGIN_RIGHT as int
    }

    /// The leftmost column of the colour bar.
    pub open spec fn colorbar_x(self) -> nat {
        MARGIN_LEFT as nat + self.frames() + COLORBAR_GAP as nat
    }

    /// `(x, y)` is a pixel of the spectrogram body.
    pub open spec fn in_body(self, x: int, y: int) -> bool {
        &&& MARGIN_LEFT as int <= x < MARGIN_LEFT as int + self.frames()
        &&& MARGIN_TOP as int <= y < self.body_bottom()
    }

    /// `(x, y)` is a pixel of the colour bar.
    pub open spec fn in_colorbar(self, x: int, y: int) -> bool {
        &&& self.colorbar_x() <= x < self.colorbar_x() + COLORBAR_WIDTH as int
        &&& MARGIN_TOP as int <= y < self.body_bottom()
    }

    /// The image can be addressed with `i32` coordinates and a vector can
    /// hold its bytes.
    pub open spec fn fits(self) -> bool {
        &&& self.width() <= i32::MAX
        &&& self.height() <= i32::MAX
        &&& spec_allocatable(self.width(), self.height())
    }

    /// Why no layout exists for these parameters, if none does. Where several
    /// reasons apply, the first in this order is reported.
    pub open spec fn refusal(self) -> Option<SpectrogramError> {
        if self.fft_size <= 1 {
            Some(SpectrogramError::FftSizeTooSmall)
        } else if self.hop_size == 0 {
            Some(SpectrogramError::ZeroHopSize)
        } else if self.sample_rate == 0 {
            Some(SpectrogramError::ZeroSampleRate)
        } else if !self.fits() {
            Some(SpectrogramError::TooLarge)
        } else {
            None
        }
    }

    /// The parameters are acceptable.
    pub open spec fn valid(self) -> bool {
        self.refusal().is_none()
    }
}

/// The body and the colour bar lie inside the image and share no pixel.
pub proof fn lemma_regions_apart(plan: Plan, x: int, y: int)
    ensures
        plan.in_body(x, y) ==> 0 <= x < plan.width() && 0 <= y < plan.height(),
        plan.in_colorbar(x, y) ==> 0 <= x < plan.width() && 0 <= y < plan.height(),
        !(plan.in_body(x, y) && plan.in_colorbar(x, y)),
{
}

/// The image is as wide as the body and the fixed margins around it, and as
/// high as the body and the margins above and below it.
pub proof fn lemma_image_size(plan: Plan)
    ensures
        plan.width() == plan.frames() + 330,
        plan.height() == plan.fft_size / 2 + 120,
        plan.sample_count < plan.fft_size ==> plan.width() == 330,
        plan.sample_count >= plan.fft_size && plan.hop_size > 0 ==> plan.width() == (
        plan.sample_count - plan.fft_size) / plan.hop_size as int + 331,
{
}

/// The hop size to use: the one asked for, or half the frame length.
pub fn resolve_hop_size(fft_size: usize, hop_size: Option<usize>) -> (hop: usize)
    ensures
        hop == match hop_size {
            Some(h) => h,
            None => fft_size / 2,
        },
{
    match hop_size {
        Some(h) => h,
        None => fft_size / 2,
    }
}

/// A validated layout. Every value of this type describes an image that can
/// be built.
#[derive(Clone, Copy, Debug)]
pub struct Layout {
    sample_count: usize,
    sample_rate: u32,
    fft_size: usize,
    hop_size: usize,
    frames: u32,
    bins: u32,
}

impl View for Layout {
    type V = Plan;

    closed spec fn view(&self) -> Plan {
        Plan {
            sample_count: self.sample_count as nat,
            sample_rate: self.sample_rate as nat,
            fft_size: self.fft_size as nat,
            hop_size: self.hop_size as nat,
        }
    }
}

impl Layout {
    #[verifier::type_invariant]
    spec fn well_formed(self) -> bool {
        &&& self@.valid()
        &&& self.frames == self@.frames()
        &&& self.bins == self@.bins()
    }

    /// Lays out the image for `sample_count` samples at `sample_rate` Hz,
    /// analysed in frames of `fft_size` samples that start `hop_size` apart.
    pub fn new(sample_count: usize, sample_rate: u32, fft_size: usize, hop_size: usize) -> (r:
        Result<Layout, SpectrogramError>)
        ensures
            ({
                let plan = Plan {
                    sample_count: sample_count as nat,
                    sample_rate: sample_rate as nat,
                    fft_size: fft_size as nat,
                    hop_size: hop_size as nat,
                };
                match r {
                    Ok(layout) => plan.valid() && layout@ == plan,
                    Err(e) => plan.refusal() == Some(e),
                }
            }),
    {
        if fft_size <= 1 {
            return Err(SpectrogramError::FftSizeTooSmall);
        }
        if hop_size == 0 {
            return Err(SpectrogramError::ZeroHopSize);
        }
        if sample_rate == 0 {
            return Err(SpectrogramError::ZeroSampleRate);
        }
        let frames: usize = frame_count(sample_count, fft_size, hop_size);
        let bins: usize = fft_size / 2;
        let limit: usize = 0x7FFF_FFFF;
        if frames > limit - 330 || bins > limit - 120 {
            return Err(SpectrogramError::TooLarge);
        }
        let width: u64 = frames as u64 + 330;
        let height: u64 = bins as u64 + 120;
        assert(width * height <= 0x7FFF_FFFF * 0x7FFF_FFFF) by (nonlinear_arith)
            requires
                width <= 0x7FFF_FFFF,
                height <= 0x7FFF_FFFF,
        ;
        let area: u64 = width * height;
        assert(3 * width * height == 3 * area) by (nonlinear_arith)
            requires
                area == width * height,
        ;
        if 3 * width > usize::MAX as u64 || area > (isize::MAX as u64) / 3 {
            return Err(SpectrogramError::TooLarge);
        }
        Ok(
            Layout {
                sample_count,
                sample_rate,
                fft_size,
                hop_size,
                frames: frames as u32,
                bins: bins as u32,
            },
        )
    }

    /// Number of mono samples the layout was made for.
    pub fn sample_count(&self) -> (n: usize)
        ensures
            self@.valid(),
            n == self@.sample_count,
    {
        proof {
            use_type_invariant(self);
        }
        self.sample_count
    }

    /// Samples per second.
    pub fn sample_rate(&self) -> (n: u32)
        ensures
            self@.valid(),
            n == self@.sample_rate,
            n > 0,
    {
        proof {
            use_type_invariant(self);
        }
        self.sample_rate
    }

    /// Samples per analysis frame.
    pub fn fft_size(&self) -> (n: usize)
        ensures
            self@.valid(),
            n == self@.fft_size,
            n > 1,
    {
        proof {
            use_type_invariant(self);
        }
        self.fft_size
    }

    /// Samples between the starts of consecutive frames.
    pub fn hop_size(&self) -> (n: usize)
        ensures
            self@.valid(),
            n == self@.hop_size,
            n > 0,
    {
        proof {
            use_type_invariant(self);
        }
        self.hop_size
    }

    /// Number of analysis frames: the width of the body.
    pub fn frames(&self) -> (n: u32)
        ensures
            self@.valid(),
            n == self@.frames(),
    {
        proof {
            use_type_invariant(self);
        }
        self.frames
    }

    /// Number of frequency bins per frame: the height of the body.
    pub fn bins(&self) -> (n: u32)
        ensures
            self@.valid(),
            n == self@.bins(),
            n >= 1,
    {
        proof {
            use_type_invariant(self);
        }
        self.bins
    }

    /// Width of the whole image.
    pub fn width(&self) -> (n: u32)
        ensures
            self@.valid(),
            n == self@.width(),
            n <= i32::MAX,
    {
        proof {
            use_type_invariant(self);
        }
        MARGIN_LEFT + self.frames + COLORBAR_GAP + COLORBAR_WIDTH + LEGEND_LABEL_SPACE
    }

    /// Height of the whole image.
    pub fn height(&self) -> (n: u32)
        ensures
            self@.valid(),
            n == self@.height(),
            n <= i32::MAX,
    {
        proof {
            use_type_invariant(self);
        }
        MARGIN_TOP + self.bins + MARGIN_BOTTOM
    }

    /// The row just below the body, on which the time axis runs.
    pub fn body_bottom(&self) -> (n: u32)
        ensures
            self@.valid(),
            n == self@.body_bottom(),
    {
        proof {
            use_type_invariant(self);
        }
        MARGIN_TOP + self.bins
    }

    /// The column at which the time axis ends.
    pub fn axis_right(&self) -> (n: u32)
        ensures
            self@.valid(),
            n == self@.axis_right(),
    {
        proof {
            use_type_invariant(self);
        }
        self.width() - MARGIN_RIGHT
    }

    /// The leftmost column of the colour bar.
    pub fn colorbar_x(&self) -> (n: u32)
        ensures
            self@.valid(),
            n == self@.colorbar_x(),
    {
        proof {
            use_type_invariant(self);
        }
        MARGIN_LEFT + self.frames + COLORBAR_GAP
    }
}

} // verus!
