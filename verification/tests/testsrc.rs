use weylus::capture::Recorder;
use weylus::testsrc::{PixelFormat, TestCapturable, TestRecorder};
use weylus::video::PixelProvider;

#[test]
fn pixel_sizes() {
    let c = |f| TestCapturable {
        width: 8,
        height: 120,
        pixel_format: f,
    };
    assert_eq!(c(PixelFormat::BGR0).pixel_size(), 4);
    assert_eq!(c(PixelFormat::RGB0).pixel_size(), 4);
    assert_eq!(c(PixelFormat::RGB).pixel_size(), 3);
}

#[test]
fn default_pixels_are_colour_stripes() {
    let c = TestCapturable {
        width: 8,
        height: 1,
        pixel_format: PixelFormat::BGR0,
    };
    let mut buf = vec![9u8; 32];
    for x in 0..8 {
        c.set_default_pixel(&mut buf, x, 0);
    }
    // stripe i has blue if bit 0, green if bit 1, red if bit 2; BGR0 order.
    assert_eq!(&buf[0..4], &[0, 0, 0, 9]);
    assert_eq!(&buf[4..8], &[255, 0, 0, 9]);
    assert_eq!(&buf[8..12], &[0, 255, 0, 9]);
    assert_eq!(&buf[28..32], &[255, 255, 255, 9]);
}

#[test]
fn recorder_starts_with_the_still_image_and_moves_the_band() {
    let c = TestCapturable {
        width: 8,
        height: 240,
        pixel_format: PixelFormat::RGB,
    };
    let mut r = TestRecorder::new(c);
    let first: Vec<u8> = match r.pixels() {
        PixelProvider::RGB(8, 240, b) => b.to_vec(),
        _ => panic!("expected RGB"),
    };
    // row 0, pixel 4: stripe 4 is red only.
    assert_eq!(&first[12..15], &[255, 0, 0]);
    let second: Vec<u8> = match r.next_frame() {
        PixelProvider::RGB(8, 240, b) => b.to_vec(),
        _ => panic!("expected RGB"),
    };
    // band 1 covers rows 2 and 3 (240 / 120 = 2 rows per band).
    let row2 = 2 * 8 * 3;
    // RGB order: red, green, blue.
    assert_eq!(second[row2], (((1 + 80) % 120) * 256 / 120) as u8);
    assert_eq!(second[row2 + 1], (((1 + 40) % 120) * 256 / 120) as u8);
    assert_eq!(second[row2 + 2], ((1 % 120) * 256 / 120) as u8);
    // rows of band 0 keep the still image.
    assert_eq!(&second[0..24], &first[0..24]);
}

#[test]
fn recorder_trait_capture_hands_out_the_next_frame() {
    let c = TestCapturable {
        width: 8,
        height: 240,
        pixel_format: PixelFormat::RGB0,
    };
    let mut direct = TestRecorder::new(c);
    let expected: Vec<u8> = match direct.next_frame() {
        PixelProvider::RGB0(8, 240, b) => b.to_vec(),
        _ => panic!("expected RGB0"),
    };
    let mut r = TestRecorder::new(c);
    let got: Vec<u8> = match Recorder::capture(&mut r) {
        Ok(PixelProvider::RGB0(8, 240, b)) => b.to_vec(),
        _ => panic!("expected an RGB0 frame"),
    };
    assert_eq!(got, expected);
}

#[test]
fn test_source_frames_repeat_after_all_bands() {
    let c = TestCapturable {
        width: 2,
        height: 120,
        pixel_format: PixelFormat::RGB,
    };
    let mut r = TestRecorder::new(c);
    let first: Vec<u8> = match r.next_frame() {
        PixelProvider::RGB(2, 120, b) => b.to_vec(),
        _ => panic!("expected RGB"),
    };
    assert_eq!(first.len(), 720);
    assert_eq!(&first[6..12], &[172, 87, 2, 44, 215, 130]);
    for y in 0..120 {
        if y != 1 {
            assert_eq!(&first[6 * y..6 * y + 6], &[0, 0, 0, 255, 0, 0]);
        }
    }
    for _ in 0..119 {
        r.next_frame();
    }
    let again: Vec<u8> = match r.next_frame() {
        PixelProvider::RGB(2, 120, b) => b.to_vec(),
        _ => panic!("expected RGB"),
    };
    assert_eq!(again, first);
}

#[test]
fn still_image_of_eight_stripes() {
    let c = TestCapturable {
        width: 8,
        height: 1,
        pixel_format: PixelFormat::RGB,
    };
    let mut r = TestRecorder::new(c);
    let expected: Vec<u8> = vec![
        0, 0, 0, 0, 0, 255, 0, 255, 0, 0, 255, 255, 255, 0, 0, 255, 0, 255, 255, 255, 0, 255, 255, 255,
    ];
    match r.pixels() {
        PixelProvider::RGB(8, 1, b) => assert_eq!(b, &expected[..]),
        _ => panic!("expected RGB"),
    }
    match r.next_frame() {
        PixelProvider::RGB(8, 1, b) => assert_eq!(b, &expected[..]),
        _ => panic!("expected RGB"),
    }
}
