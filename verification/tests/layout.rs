use spectrogram::error::SpectrogramError;
use spectrogram::layout::resolve_hop_size;
use spectrogram::layout::Layout;
use spectrogram::layout::COLORBAR_GAP;
use spectrogram::layout::COLORBAR_WIDTH;
use spectrogram::layout::LEGEND_LABEL_SPACE;
use spectrogram::layout::MARGIN_BOTTOM;
use spectrogram::layout::MARGIN_LEFT;
use spectrogram::layout::MARGIN_RIGHT;
use spectrogram::layout::MARGIN_TOP;

#[test]
fn margins_have_their_fixed_values() {
    assert_eq!(MARGIN_LEFT, 160);
    assert_eq!(MARGIN_RIGHT, 180);
    assert_eq!(MARGIN_TOP, 60);
    assert_eq!(MARGIN_BOTTOM, 60);
    assert_eq!(COLORBAR_GAP, 40);
    assert_eq!(COLORBAR_WIDTH, 30);
    assert_eq!(LEGEND_LABEL_SPACE, 100);
}

#[test]
fn layout_of_one_second_at_44100() {
    let layout = Layout::new(44100, 44100, 4096, 2048).unwrap();
    assert_eq!(layout.sample_count(), 44100);
    assert_eq!(layout.sample_rate(), 44100);
    assert_eq!(layout.fft_size(), 4096);
    assert_eq!(layout.hop_size(), 2048);
    assert_eq!(layout.frames(), 20);
    assert_eq!(layout.bins(), 2048);
    assert_eq!(layout.width(), 160 + 20 + 40 + 30 + 100);
    assert_eq!(layout.height(), 60 + 2048 + 60);
    assert_eq!(layout.body_bottom(), 60 + 2048);
    assert_eq!(layout.axis_right(), 350 - 180);
    assert_eq!(layout.colorbar_x(), 160 + 20 + 40);
}

#[test]
fn layout_of_an_empty_buffer_has_an_empty_body() {
    let layout = Layout::new(0, 44100, 4096, 2048).unwrap();
    assert_eq!(layout.frames(), 0);
    assert_eq!(layout.width(), 330);
    assert_eq!(layout.height(), 2168);
    assert_eq!(layout.colorbar_x(), 200);
}

#[test]
fn layout_with_an_odd_frame_length_rounds_the_bins_down() {
    let layout = Layout::new(100, 8000, 7, 3).unwrap();
    assert_eq!(layout.bins(), 3);
    assert_eq!(layout.frames(), 32);
    assert_eq!(layout.height(), 123);
}

#[test]
fn layout_refuses_a_frame_length_below_two() {
    assert_eq!(Layout::new(100, 44100, 0, 1).err(), Some(SpectrogramError::FftSizeTooSmall));
    assert_eq!(Layout::new(100, 44100, 1, 1).err(), Some(SpectrogramError::FftSizeTooSmall));
    assert!(Layout::new(100, 44100, 2, 1).is_ok());
}

#[test]
fn layout_refuses_a_zero_hop() {
    assert_eq!(Layout::new(100, 44100, 4096, 0).err(), Some(SpectrogramError::ZeroHopSize));
}

#[test]
fn layout_refuses_a_zero_sample_rate() {
    assert_eq!(Layout::new(100, 0, 4096, 2048).err(), Some(SpectrogramError::ZeroSampleRate));
}

#[test]
fn layout_refuses_an_image_too_wide() {
    let samples: usize = 3_000_000_000;
    assert_eq!(Layout::new(samples, 44100, 2, 1).err(), Some(SpectrogramError::TooLarge));
}

#[test]
fn layout_refuses_an_image_too_high() {
    let fft_size: usize = 4_294_967_296 + 2;
    assert_eq!(Layout::new(10, 44100, fft_size, 1).err(), Some(SpectrogramError::TooLarge));
}

#[test]
fn layout_reports_the_first_reason() {
    assert_eq!(Layout::new(100, 0, 1, 0).err(), Some(SpectrogramError::FftSizeTooSmall));
    assert_eq!(Layout::new(100, 0, 2, 0).err(), Some(SpectrogramError::ZeroHopSize));
}

#[test]
fn hop_size_defaults_to_half_the_frame_length() {
    assert_eq!(resolve_hop_size(4096, None), 2048);
    assert_eq!(resolve_hop_size(4096, Some(512)), 512);
    assert_eq!(resolve_hop_size(3, None), 1);
    assert_eq!(resolve_hop_size(4096, Some(0)), 0);
}

#[test]
fn error_messages_are_distinct_sentences() {
    let all = [
        SpectrogramError::FftSizeTooSmall,
        SpectrogramError::ZeroHopSize,
        SpectrogramError::ZeroSampleRate,
        SpectrogramError::TooLarge,
        SpectrogramError::ShapeMismatch,
        SpectrogramError::CanvasMismatch,
        SpectrogramError::NoChannels,
    ];
    for (i, a) in all.iter().enumerate() {
        assert!(!a.message().is_empty());
        for b in all.iter().skip(i + 1) {
            assert_ne!(a.message(), b.message());
        }
    }
    assert_eq!(SpectrogramError::ZeroHopSize.message(), "the hop size must not be 0");
    assert_eq!(SpectrogramError::FftSizeTooSmall.message(), "the FFT size must be at least 2");
}
