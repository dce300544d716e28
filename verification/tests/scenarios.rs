use std::io::Cursor;

use image::GenericImageView;
use rustfft::num_complex::Complex;
use rustfft::FftPlanner;
use spectrogram::axes::draw_axes;
use spectrogram::axes::draw_frequency_scale;
use spectrogram::axes::draw_time_scale;
use spectrogram::canvas::Canvas;
use spectrogram::error::SpectrogramError;
use spectrogram::frames::frame;
use spectrogram::layout::Layout;
use spectrogram::legend::draw_colorbar_with_scale;
use spectrogram::render::generate_spectrogram;
use spectrogram::render::shape_matches;
use spectrogram::spectrum::nearest_bin;

fn magnitudes(samples: &[f32], fft_size: usize) -> Vec<f32> {
    let mut planner = FftPlanner::new();
    let fft = planner.plan_fft_forward(fft_size);
    let mut input: Vec<Complex<f32>> = samples
        .iter()
        .take(fft_size)
        .enumerate()
        .map(|(i, s)| {
            let phase = 2.0 * std::f32::consts::PI * i as f32 / (fft_size as f32 - 1.0);
            Complex::new(s * 0.5 * (1.0 - phase.cos()), 0.0)
        })
        .collect();
    fft.process(&mut input);
    input[..fft_size / 2].iter().map(|c| c.norm()).collect()
}

fn intensity(magnitude: f32) -> f32 {
    let log_mag = if magnitude > 1e-10 { magnitude.log10() } else { -10.0 };
    let mut normalized = (log_mag * 20.0 + 120.0) / 120.0;
    if !normalized.is_finite() {
        normalized = 0.0;
    }
    normalized.max(0.0).min(1.0)
}

fn turbo(intensity: f32) -> (u8, u8, u8) {
    let rgba = colorgrad::turbo().at(intensity as f64).to_rgba8();
    (rgba[0], rgba[1], rgba[2])
}

fn columns_of(samples: &[f32], layout: &Layout) -> Vec<Vec<(u8, u8, u8)>> {
    let mut columns = Vec::new();
    for i in 0..layout.frames() as usize {
        let chunk = frame(samples, layout.fft_size(), layout.hop_size(), i).unwrap();
        let spectrum = magnitudes(chunk, layout.fft_size());
        columns.push(spectrum.iter().map(|&m| turbo(intensity(m))).collect());
    }
    columns
}

#[test]
fn silent_second_paints_twenty_columns_of_the_lowest_colour() {
    let samples = vec![0.0f32; 44100];
    let layout = Layout::new(samples.len(), 44100, 4096, 2048).unwrap();
    assert_eq!(layout.frames(), 20);
    for i in 0..20 {
        let chunk = frame(&samples, 4096, 2048, i).unwrap();
        assert!(magnitudes(chunk, 4096).iter().all(|&m| m.abs() < 1e-6));
    }
    let columns = columns_of(&samples, &layout);
    assert!(shape_matches(&layout, &columns));
    let canvas = generate_spectrogram(&layout, &columns).unwrap();
    let lowest = turbo(0.0);
    for y in 0..2048u32 {
        for x in 0..20u32 {
            assert_eq!(canvas.pixel(160 + x, 60 + y), Some(lowest));
        }
    }
    assert_eq!(canvas.pixel(159, 60), Some((255, 255, 255)));
    assert_eq!(canvas.pixel(180, 60), Some((255, 255, 255)));
    assert_eq!(canvas.pixel(160, 59), Some((255, 255, 255)));
    assert_eq!(canvas.pixel(160, 2108), Some((255, 255, 255)));
}

#[test]
fn sine_at_1000_hz_lights_the_row_of_bin_93() {
    let rate = 44100u32;
    let samples: Vec<f32> = (0..rate)
        .map(|n| (2.0 * std::f64::consts::PI * 1000.0 * n as f64 / rate as f64).sin() as f32)
        .collect();
    let layout = Layout::new(samples.len(), rate, 4096, 2048).unwrap();
    let bin = nearest_bin(1000, rate, 4096).unwrap();
    assert_eq!(bin, 93);
    let first = magnitudes(frame(&samples, 4096, 2048, 0).unwrap(), 4096);
    let loudest = first
        .iter()
        .enumerate()
        .fold(0usize, |best, (k, &m)| if m > first[best] { k } else { best });
    assert_eq!(loudest, bin);
    let columns = columns_of(&samples, &layout);
    let canvas = generate_spectrogram(&layout, &columns).unwrap();
    let bottom = layout.body_bottom();
    for x in 0..layout.frames() {
        let lit = canvas.pixel(160 + x, bottom - 1 - 93).unwrap();
        assert_eq!(lit, columns[x as usize][93]);
        assert_eq!(lit, turbo(1.0));
        let far = canvas.pixel(160 + x, bottom - 1 - 1500).unwrap();
        assert_ne!(far, lit);
    }
}

#[test]
fn body_rows_run_from_the_bottom_up() {
    let layout = Layout::new(20, 8000, 8, 4).unwrap();
    assert_eq!(layout.frames(), 4);
    assert_eq!(layout.bins(), 4);
    let columns: Vec<Vec<(u8, u8, u8)>> =
        (0..4u8).map(|x| (0..4u8).map(|y| (x, y, 100)).collect()).collect();
    let canvas = generate_spectrogram(&layout, &columns).unwrap();
    assert_eq!(canvas.width(), 334);
    assert_eq!(canvas.height(), 124);
    for y in 0..124u32 {
        for x in 0..334u32 {
            let inside = (160..164).contains(&x) && (60..64).contains(&y);
            let expected = if inside {
                ((x - 160) as u8, (63 - y) as u8, 100)
            } else {
                (255, 255, 255)
            };
            assert_eq!(canvas.pixel(x, y), Some(expected));
        }
    }
}

#[test]
fn body_refuses_columns_of_the_wrong_shape() {
    let layout = Layout::new(20, 8000, 8, 4).unwrap();
    let column = vec![(0u8, 0u8, 0u8); 4];
    let too_few = vec![column.clone(); 3];
    let too_many = vec![column.clone(); 5];
    let mut ragged = vec![column.clone(); 4];
    ragged[2].pop();
    assert!(!shape_matches(&layout, &too_few));
    assert!(!shape_matches(&layout, &too_many));
    assert!(!shape_matches(&layout, &ragged));
    assert!(shape_matches(&layout, &vec![column.clone(); 4]));
    assert_eq!(generate_spectrogram(&layout, &too_few).err(), Some(SpectrogramError::ShapeMismatch));
    assert_eq!(generate_spectrogram(&layout, &too_many).err(), Some(SpectrogramError::ShapeMismatch));
    assert_eq!(generate_spectrogram(&layout, &ragged).err(), Some(SpectrogramError::ShapeMismatch));
}

#[test]
fn empty_buffer_still_gets_axes_and_legend() {
    let samples: Vec<f32> = Vec::new();
    let layout = Layout::new(samples.len(), 44100, 4096, 2048).unwrap();
    assert_eq!(layout.frames(), 0);
    assert!(frame(&samples, 4096, 2048, 0).is_none());
    let columns = columns_of(&samples, &layout);
    assert!(columns.is_empty());
    let mut canvas = generate_spectrogram(&layout, &columns).unwrap();
    assert_eq!(canvas.width(), 330);
    assert_eq!(canvas.height(), 2168);
    assert_eq!(draw_axes(&layout).len(), 2);
    assert_eq!(draw_frequency_scale(&layout).len(), 46);
    assert_eq!(draw_time_scale(&layout).len(), 0);
    let legend: Vec<(u8, u8, u8)> =
        (0..2048).map(|y| turbo(1.0 - (y as f32 / 2048.0))).collect();
    let strokes = draw_colorbar_with_scale(&mut canvas, &layout, &legend).unwrap();
    assert_eq!(strokes.len(), 30);
    assert_eq!(canvas.pixel(200, 60), Some(turbo(1.0)));
    assert_eq!(canvas.pixel(229, 2107), Some(legend[2047]));
    assert_eq!(canvas.pixel(199, 60), Some((255, 255, 255)));
    assert_eq!(canvas.pixel(230, 60), Some((255, 255, 255)));
}

#[test]
fn encoded_image_decodes_to_the_computed_size() {
    for &(samples, fft, hop) in &[(0usize, 64usize, 32usize), (1000, 64, 32), (5000, 128, 100), (4097, 256, 1)] {
        let layout = Layout::new(samples, 22050, fft, hop).unwrap();
        let frames = if samples >= fft { (samples - fft) / hop + 1 } else { 0 };
        let columns = vec![vec![(12u8, 34u8, 56u8); fft / 2]; frames];
        let canvas = generate_spectrogram(&layout, &columns).unwrap();
        let width = canvas.width();
        let height = canvas.height();
        assert_eq!(width as usize, 160 + frames + 40 + 30 + 100);
        assert_eq!(height as usize, 60 + fft / 2 + 60);
        let buffer: image::ImageBuffer<image::Rgb<u8>, Vec<u8>> =
            image::ImageBuffer::from_raw(width, height, canvas.into_raw()).unwrap();
        let mut encoded = Cursor::new(Vec::new());
        buffer.write_to(&mut encoded, image::ImageOutputFormat::Png).unwrap();
        let decoded = image::load_from_memory(encoded.get_ref()).unwrap();
        assert_eq!(decoded.width(), width);
        assert_eq!(decoded.height(), height);
        assert_eq!(decoded.to_rgb8(), buffer);
    }
}

#[test]
fn canvas_survives_drawing_between_the_two_painting_steps() {
    let layout = Layout::new(2000, 8000, 64, 32).unwrap();
    let columns = vec![vec![(1u8, 2u8, 3u8); 32]; layout.frames() as usize];
    let canvas = generate_spectrogram(&layout, &columns).unwrap();
    let mut buffer: image::ImageBuffer<image::Rgb<u8>, Vec<u8>> =
        image::ImageBuffer::from_raw(layout.width(), layout.height(), canvas.into_raw()).unwrap();
    buffer.put_pixel(5, 5, image::Rgb([0, 0, 0]));
    let mut canvas = Canvas::from_raw(layout.width(), layout.height(), buffer.into_raw()).unwrap();
    let legend = vec![(9u8, 9u8, 9u8); 32];
    assert!(draw_colorbar_with_scale(&mut canvas, &layout, &legend).is_ok());
    assert_eq!(canvas.pixel(5, 5), Some((0, 0, 0)));
    assert_eq!(canvas.pixel(160, 60), Some((1, 2, 3)));
    assert_eq!(canvas.pixel(layout.colorbar_x(), 60), Some((9, 9, 9)));
}
