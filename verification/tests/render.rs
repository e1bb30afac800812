use ray_tracer::render::draw;

#[test]
fn draw_single_pixel_test() {
    let mut buffer: Vec<u8> = vec![7, 8, 9, 10];
    draw(&mut buffer, 1, 1);
    assert_eq!(buffer, vec![255, 8, 9, 255]);
}

#[test]
fn draw_small_image_test() {
    // 4x2 image: the disc has radius 1 around the pixel (2, 1), so the
    // pixels (2, 0), (1, 1), (2, 1) and (3, 1) are filled.
    let mut buffer: Vec<u8> = vec![0; 4 * 2 * 4];
    draw(&mut buffer, 4, 2);
    let mut expected: Vec<u8> = vec![0; 4 * 2 * 4];
    for (x, y) in [(2usize, 0usize), (1, 1), (2, 1), (3, 1)] {
        expected[(y * 4 + x) * 4] = 255;
        expected[(y * 4 + x) * 4 + 3] = 255;
    }
    assert_eq!(buffer, expected);
}

#[test]
fn draw_preserves_other_bytes_test() {
    // Bytes outside the disc, and the two middle channels inside it, keep
    // their old values.
    let width = 5usize;
    let height = 3usize;
    let mut buffer: Vec<u8> = (0..width * height * 4).map(|i| i as u8).collect();
    let before = buffer.clone();
    draw(&mut buffer, width, height);
    let radius = (width.min(height) / 2) as i64;
    for y in 0..height {
        for x in 0..width {
            let dx = x as i64 - (width / 2) as i64;
            let dy = y as i64 - (height / 2) as i64;
            let i = (y * width + x) * 4;
            if dx * dx + dy * dy <= radius * radius {
                assert_eq!(buffer[i], 255);
                assert_eq!(buffer[i + 1], before[i + 1]);
                assert_eq!(buffer[i + 2], before[i + 2]);
                assert_eq!(buffer[i + 3], 255);
            } else {
                assert_eq!(&buffer[i..i + 4], &before[i..i + 4]);
            }
        }
    }
}

#[test]
fn draw_empty_image_test() {
    let mut buffer: Vec<u8> = Vec::new();
    draw(&mut buffer, 0, 7);
    assert!(buffer.is_empty());
    draw(&mut buffer, 9, 0);
    assert!(buffer.is_empty());
}
