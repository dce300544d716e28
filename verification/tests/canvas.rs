use spectrogram::canvas::Canvas;

#[test]
fn white_canvas_has_its_size_and_is_white() {
    let canvas = Canvas::white(7, 5).unwrap();
    assert_eq!(canvas.width(), 7);
    assert_eq!(canvas.height(), 5);
    for y in 0..5 {
        for x in 0..7 {
            assert_eq!(canvas.pixel(x, y), Some((255, 255, 255)));
        }
    }
}

#[test]
fn white_canvas_may_be_empty() {
    let canvas = Canvas::white(0, 0).unwrap();
    assert_eq!(canvas.width(), 0);
    assert_eq!(canvas.height(), 0);
    assert_eq!(canvas.pixel(0, 0), None);
    assert_eq!(canvas.into_raw().len(), 0);
}

#[test]
fn pixel_outside_the_canvas_is_none() {
    let canvas = Canvas::white(3, 2).unwrap();
    assert_eq!(canvas.pixel(3, 0), None);
    assert_eq!(canvas.pixel(0, 2), None);
    assert_eq!(canvas.pixel(u32::MAX, u32::MAX), None);
}

#[test]
fn set_pixel_changes_one_pixel_only() {
    let mut canvas = Canvas::white(4, 3).unwrap();
    assert!(canvas.set_pixel(2, 1, (10, 20, 30)));
    assert_eq!(canvas.width(), 4);
    assert_eq!(canvas.height(), 3);
    for y in 0..3 {
        for x in 0..4 {
            let expected = if (x, y) == (2, 1) { (10, 20, 30) } else { (255, 255, 255) };
            assert_eq!(canvas.pixel(x, y), Some(expected));
        }
    }
}

#[test]
fn set_pixel_outside_the_canvas_does_nothing() {
    let mut canvas = Canvas::white(4, 3).unwrap();
    assert!(!canvas.set_pixel(4, 0, (1, 2, 3)));
    assert!(!canvas.set_pixel(0, 3, (1, 2, 3)));
    assert_eq!(canvas.into_raw(), vec![255u8; 4 * 3 * 3]);
}

#[test]
fn into_raw_is_row_major_rgb() {
    let mut canvas = Canvas::white(3, 2).unwrap();
    assert!(canvas.set_pixel(1, 0, (1, 2, 3)));
    assert!(canvas.set_pixel(2, 1, (4, 5, 6)));
    let bytes = canvas.into_raw();
    let mut expected = vec![255u8; 18];
    expected[3] = 1;
    expected[4] = 2;
    expected[5] = 3;
    expected[15] = 4;
    expected[16] = 5;
    expected[17] = 6;
    assert_eq!(bytes, expected);
}

#[test]
fn from_raw_reads_row_major_rgb() {
    let bytes: Vec<u8> = (0u8..24).collect();
    let canvas = Canvas::from_raw(4, 2, bytes).unwrap();
    assert_eq!(canvas.width(), 4);
    assert_eq!(canvas.height(), 2);
    assert_eq!(canvas.pixel(0, 0), Some((0, 1, 2)));
    assert_eq!(canvas.pixel(3, 0), Some((9, 10, 11)));
    assert_eq!(canvas.pixel(0, 1), Some((12, 13, 14)));
    assert_eq!(canvas.pixel(3, 1), Some((21, 22, 23)));
}

#[test]
fn from_raw_refuses_short_bytes() {
    assert!(Canvas::from_raw(4, 2, vec![0u8; 23]).is_none());
    assert!(Canvas::from_raw(4, 2, vec![0u8; 24]).is_some());
    assert!(Canvas::from_raw(u32::MAX, u32::MAX, vec![0u8; 24]).is_none());
}

#[test]
fn raw_round_trip_keeps_every_pixel() {
    let mut canvas = Canvas::white(5, 4).unwrap();
    for y in 0..4u32 {
        for x in 0..5u32 {
            assert!(canvas.set_pixel(x, y, (x as u8, y as u8, (x * y) as u8)));
        }
    }
    let back = Canvas::from_raw(5, 4, canvas.into_raw()).unwrap();
    for y in 0..4u32 {
        for x in 0..5u32 {
            assert_eq!(back.pixel(x, y), Some((x as u8, y as u8, (x * y) as u8)));
        }
    }
}

#[test]
fn canvas_bytes_are_an_image_buffer() {
    let mut canvas = Canvas::white(6, 3).unwrap();
    assert!(canvas.set_pixel(5, 2, (9, 8, 7)));
    let image: image::ImageBuffer<image::Rgb<u8>, Vec<u8>> =
        image::ImageBuffer::from_raw(6, 3, canvas.into_raw()).unwrap();
    assert_eq!(image.get_pixel(5, 2).0, [9, 8, 7]);
    assert_eq!(image.get_pixel(0, 0).0, [255, 255, 255]);
}
