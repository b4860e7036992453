use weylus::video::PixelProvider;
use weylus::yuv::{RgbImage, ScreenCapture, ScreenCaptureGeneric};

fn image(width: usize, height: usize, rgb: [u8; 3]) -> RgbImage {
    let mut data = Vec::new();
    for _ in 0..width * height {
        data.extend_from_slice(&rgb);
    }
    RgbImage {
        width,
        height,
        data,
    }
}

#[test]
fn nothing_captured_has_no_size() {
    let s = ScreenCaptureGeneric::new();
    assert_eq!(s.size(), (0, 0));
}

#[test]
fn white_is_full_luma_and_neutral_chroma() {
    let mut s = ScreenCaptureGeneric::new();
    s.capture(image(2, 2, [255, 255, 255]));
    assert_eq!(s.size(), (2, 2));
    let (mut y, mut u, mut v) = (vec![0u8; 4], vec![0u8; 1], vec![0u8; 1]);
    s.fill_yuv(&mut y, &mut u, &mut v, 2, 1, 1);
    assert_eq!(y, vec![235; 4]);
    assert_eq!(u, vec![128]);
    assert_eq!(v, vec![128]);
}

#[test]
fn red_and_black() {
    let mut s = ScreenCaptureGeneric::new();
    s.capture(image(2, 2, [255, 0, 0]));
    let (mut y, mut u, mut v) = (vec![0u8; 4], vec![0u8; 1], vec![0u8; 1]);
    s.fill_yuv(&mut y, &mut u, &mut v, 2, 1, 1);
    assert_eq!(y, vec![82; 4]);
    assert_eq!(u, vec![90]);
    assert_eq!(v, vec![240]);
    s.capture(image(2, 2, [0, 0, 0]));
    s.fill_yuv(&mut y, &mut u, &mut v, 2, 1, 1);
    assert_eq!(y, vec![16; 4]);
    assert_eq!(u, vec![128]);
    assert_eq!(v, vec![128]);
}

#[test]
fn odd_sizes_leave_the_last_row_and_column_and_line_padding_alone() {
    let mut s = ScreenCaptureGeneric::new();
    s.capture(image(3, 3, [0, 0, 0]));
    let (mut y, mut u, mut v) = (vec![7u8; 12], vec![7u8; 4], vec![7u8; 4]);
    s.fill_yuv(&mut y, &mut u, &mut v, 4, 4, 4);
    assert_eq!(y, vec![16, 16, 7, 7, 16, 16, 7, 7, 7, 7, 7, 7]);
    assert_eq!(u, vec![128, 7, 7, 7]);
    assert_eq!(v, vec![128, 7, 7, 7]);
}

#[test]
fn chroma_averages_each_block() {
    // Left column white, right column black: the block average is 127 grey.
    let data = vec![255, 255, 255, 0, 0, 0, 255, 255, 255, 0, 0, 0];
    let mut s = ScreenCaptureGeneric::new();
    s.capture(RgbImage {
        width: 2,
        height: 2,
        data,
    });
    let (mut y, mut u, mut v) = (vec![0u8; 4], vec![0u8; 1], vec![0u8; 1]);
    s.fill_yuv(&mut y, &mut u, &mut v, 2, 1, 1);
    assert_eq!(y, vec![235, 16, 235, 16]);
    assert_eq!(u, vec![128]);
    assert_eq!(v, vec![128]);
}

#[test]
fn captured_image_is_handed_out_as_rgb() {
    let mut s = ScreenCaptureGeneric::new();
    s.capture(image(2, 1, [1, 2, 3]));
    match ScreenCapture::pixel_provider(&s) {
        PixelProvider::RGB(2, 1, b) => assert_eq!(b, &[1, 2, 3, 1, 2, 3]),
        _ => panic!("expected RGB"),
    }
    assert_eq!(ScreenCapture::size(&s), (2, 1));
}
