use spectrogram::canvas::Canvas;
use spectrogram::draw::DrawOp;
use spectrogram::error::SpectrogramError;
use spectrogram::layout::Layout;
use spectrogram::legend::draw_colorbar_with_scale;
use spectrogram::legend::DB_MAX;
use spectrogram::legend::DB_MIN;
use spectrogram::legend::DB_STEP;

fn stroke(x0: i32, y0: i32, x1: i32, y1: i32) -> DrawOp {
    DrawOp::Line { x0, y0, x1, y1 }
}

fn label(x: i32, y: i32, size: u32, text: &str) -> DrawOp {
    DrawOp::Text { x, y, size, text: text.to_string() }
}

fn ramp(bins: u32) -> Vec<(u8, u8, u8)> {
    (0..bins).map(|y| ((y % 251) as u8, (y % 7) as u8, 17u8)).collect()
}

#[test]
fn decibel_window_is_fixed() {
    assert_eq!(DB_MIN, -120);
    assert_eq!(DB_MAX, 0);
    assert_eq!(DB_STEP, 10);
}

#[test]
fn colorbar_fills_its_rows_and_nothing_else() {
    let layout = Layout::new(44100, 44100, 64, 32).unwrap();
    let bins = layout.bins();
    let legend = ramp(bins);
    let mut canvas = Canvas::white(layout.width(), layout.height()).unwrap();
    assert!(canvas.set_pixel(3, 4, (1, 2, 3)));
    let ops = draw_colorbar_with_scale(&mut canvas, &layout, &legend);
    assert!(ops.is_ok());
    let left = layout.colorbar_x();
    for y in 0..layout.height() {
        for x in 0..layout.width() {
            let inside = x >= left && x < left + 30 && y >= 60 && y < 60 + bins;
            let expected = if inside {
                legend[(y - 60) as usize]
            } else if (x, y) == (3, 4) {
                (1, 2, 3)
            } else {
                (255, 255, 255)
            };
            assert_eq!(canvas.pixel(x, y), Some(expected));
        }
    }
}

#[test]
fn legend_strokes_for_one_second_at_44100() {
    let layout = Layout::new(44100, 44100, 4096, 2048).unwrap();
    let mut canvas = Canvas::white(layout.width(), layout.height()).unwrap();
    let ops = draw_colorbar_with_scale(&mut canvas, &layout, &ramp(2048)).unwrap();
    let expected = vec![
        stroke(220, 60, 220, 2108),
        stroke(250, 60, 250, 2108),
        stroke(220, 60, 250, 60),
        stroke(220, 2108, 250, 2108),
        label(255, 2100, 20, "-120dB"),
        stroke(250, 2108, 255, 2108),
        label(255, 1929, 20, "-110dB"),
        stroke(250, 1937, 255, 1937),
        label(255, 1758, 20, "-100dB"),
        stroke(250, 1766, 255, 1766),
        label(255, 1588, 20, "-90dB"),
        stroke(250, 1596, 255, 1596),
        label(255, 1417, 20, "-80dB"),
        stroke(250, 1425, 255, 1425),
        label(255, 1246, 20, "-70dB"),
        stroke(250, 1254, 255, 1254),
        label(255, 1076, 20, "-60dB"),
        stroke(250, 1084, 255, 1084),
        label(255, 905, 20, "-50dB"),
        stroke(250, 913, 255, 913),
        label(255, 734, 20, "-40dB"),
        stroke(250, 742, 255, 742),
        label(255, 564, 20, "-30dB"),
        stroke(250, 572, 255, 572),
        label(255, 393, 20, "-20dB"),
        stroke(250, 401, 255, 401),
        label(255, 222, 20, "-10dB"),
        stroke(250, 230, 255, 230),
        label(255, 52, 20, "0dB"),
        stroke(250, 60, 255, 60),
    ];
    assert_eq!(ops, expected);
}

#[test]
fn legend_rows_are_exact_where_the_height_divides() {
    let layout = Layout::new(0, 8000, 6000, 3000).unwrap();
    let mut canvas = Canvas::white(layout.width(), layout.height()).unwrap();
    let ops = draw_colorbar_with_scale(&mut canvas, &layout, &ramp(3000)).unwrap();
    assert_eq!(ops.len(), 30);
    assert_eq!(ops[4], label(235, 3052, 20, "-120dB"));
    assert_eq!(ops[5], stroke(230, 3060, 235, 3060));
    assert_eq!(ops[6], label(235, 2802, 20, "-110dB"));
    assert_eq!(ops[7], stroke(230, 2810, 235, 2810));
    assert_eq!(ops[16], label(235, 1552, 20, "-60dB"));
    assert_eq!(ops[29], stroke(230, 60, 235, 60));
}

#[test]
fn legend_rows_follow_the_floating_point_rule() {
    for &fft in &[64usize, 256, 1024, 4096, 8192] {
        let layout = Layout::new(44100, 44100, fft, fft / 2).unwrap();
        let bins = layout.bins();
        let mut canvas = Canvas::white(layout.width(), layout.height()).unwrap();
        let ops = draw_colorbar_with_scale(&mut canvas, &layout, &ramp(bins)).unwrap();
        let right = (layout.colorbar_x() + 30) as i32;
        let mut db = -120.0f32;
        let mut at = 4;
        while db <= 0.0 {
            let normalized = ((db + 120.0) / 120.0).max(0.0).min(1.0);
            let y = (60 + ((1.0 - normalized) * bins as f32) as u32) as i32;
            assert_eq!(ops[at], label(right + 5, y - 8, 20, &format!("{:.0}dB", db)));
            assert_eq!(ops[at + 1], stroke(right, y, right + 5, y));
            at += 2;
            db += 10.0;
        }
        assert_eq!(at, ops.len());
    }
}

#[test]
fn colorbar_refuses_a_canvas_of_another_size() {
    let layout = Layout::new(44100, 44100, 64, 32).unwrap();
    let mut canvas = Canvas::white(layout.width() + 1, layout.height()).unwrap();
    let r = draw_colorbar_with_scale(&mut canvas, &layout, &ramp(32));
    assert_eq!(r, Err(SpectrogramError::CanvasMismatch));
    let bytes = canvas.into_raw();
    assert!(bytes.iter().all(|&b| b == 255));
    let mut low = Canvas::white(layout.width(), layout.height() - 1).unwrap();
    assert_eq!(
        draw_colorbar_with_scale(&mut low, &layout, &ramp(32)),
        Err(SpectrogramError::CanvasMismatch)
    );
}

#[test]
fn colorbar_refuses_a_legend_of_another_length() {
    let layout = Layout::new(44100, 44100, 64, 32).unwrap();
    let mut canvas = Canvas::white(layout.width(), layout.height()).unwrap();
    let r = draw_colorbar_with_scale(&mut canvas, &layout, &ramp(31));
    assert_eq!(r, Err(SpectrogramError::ShapeMismatch));
    let bytes = canvas.into_raw();
    assert!(bytes.iter().all(|&b| b == 255));
}

#[test]
fn colorbar_mismatch_is_reported_before_legend_mismatch() {
    let layout = Layout::new(44100, 44100, 64, 32).unwrap();
    let mut canvas = Canvas::white(10, 10).unwrap();
    let r = draw_colorbar_with_scale(&mut canvas, &layout, &ramp(5));
    assert_eq!(r, Err(SpectrogramError::CanvasMismatch));
}
