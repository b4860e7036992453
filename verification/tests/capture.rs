use weylus::capture::{
    captrs_capture_failed, captrs_name, check_pixelformat, get_displays, get_windows, test_capturables,
    WindowInfo,
    virtual_screen_geometry, AutoPilotCapturable, CGDisplayCapturable, Recorder,
    RecorderAutoPilot, ScreenRect, VirtualScreenGeometry,
};
use weylus::testsrc::{PixelFormat, TestCapturable};
use weylus::video::PixelProvider;

#[test]
fn pixel_format_checks() {
    assert!(check_pixelformat(32, 8).is_ok());
    assert_eq!(
        check_pixelformat(24, 8).err().unwrap().0,
        "Only BGR0 with 32 bits per pixel is supported, not 24 bits!"
    );
    assert_eq!(
        check_pixelformat(32, 16).err().unwrap().0,
        "Only BGR0 with 8 bits per component is supported, not 16 bits!"
    );
}

#[test]
fn displays_or_the_listing_error() {
    let v = get_displays(Ok(vec![3, 9])).ok().unwrap();
    assert_eq!(v, vec![CGDisplayCapturable::new(3), CGDisplayCapturable::new(9)]);
    assert_eq!(
        get_displays(Err(-5)).err().unwrap().0,
        "Failed to obtain displays, CGError code: -5"
    );
    assert_eq!(
        get_displays(Err(1001)).err().unwrap().0,
        "Failed to obtain displays, CGError code: 1001"
    );
    assert_eq!(CGDisplayCapturable::name(2560, 1440), "Monitor (CG, 2560x1440)");
}

#[test]
fn test_sources() {
    let v = test_capturables(PixelFormat::BGR0);
    let sizes: Vec<(usize, usize)> = v.iter().map(|c| (c.width, c.height)).collect();
    assert_eq!(
        sizes,
        vec![(200, 200), (800, 600), (1080, 720), (1920, 1080), (3840, 2160), (15360, 2160)]
    );
    assert_eq!(v[3].name(), "Test Source 1920x1080@BGR0");
    let c = TestCapturable {
        width: 8,
        height: 240,
        pixel_format: PixelFormat::RGB,
    };
    assert_eq!(c.name(), "Test Source 8x240@RGB");
}

#[test]
fn test_recorder_through_the_trait() {
    let c = TestCapturable {
        width: 8,
        height: 240,
        pixel_format: PixelFormat::RGB0,
    };
    let mut r = c.recorder();
    match Recorder::capture(&mut r) {
        Ok(PixelProvider::RGB0(8, 240, b)) => assert_eq!(b.len(), 8 * 240 * 4),
        _ => panic!("expected an RGB0 frame"),
    }
}

#[test]
fn autopilot_desktop() {
    let c = AutoPilotCapturable::new();
    assert_eq!(c.name(), "Desktop (autopilot)");
    let mut r: RecorderAutoPilot = c.recorder();
    match r.store(2, 1, vec![1, 2, 3, 4, 5, 6]) {
        PixelProvider::RGB(2, 1, b) => assert_eq!(b, &[1, 2, 3, 4, 5, 6]),
        _ => panic!("expected RGB"),
    }
}

#[test]
fn windows_virtual_screen() {
    let screen = ScreenRect {
        left: 1920,
        top: 0,
        right: 3840,
        bottom: 1080,
    };
    let virt = ScreenRect {
        left: -1280,
        top: -200,
        right: 3840,
        bottom: 1080,
    };
    assert_eq!(
        virtual_screen_geometry(screen, virt),
        VirtualScreenGeometry {
            offset_x: 3200,
            offset_y: 200,
            width: 1920,
            height: 1080,
            left: 1920,
            top: 0,
        }
    );
    assert_eq!(captrs_name("\\\\.\\DISPLAY1"), "Desktop \\\\.\\DISPLAY1 (captrs)");
    assert_eq!(captrs_capture_failed().0, "Captrs failed to capture frame");
}

#[test]
fn macos_windows_without_the_cursor() {
    let w = |id: u32, name: &str| WindowInfo {
        id,
        name: name.to_string(),
    };
    let infos = vec![w(1, "Terminal"), w(7, "Cursor"), w(9, "Editor"), w(12, "Cursor")];
    let v = get_windows(&infos).ok().unwrap();
    let got: Vec<(u32, String, u32)> = v.iter().map(|c| (c.id, c.name.clone(), c.cursor_id)).collect();
    assert_eq!(
        got,
        vec![
            (1, "Terminal".to_string(), 7),
            (9, "Editor".to_string(), 7),
            (12, "Cursor".to_string(), 7),
        ]
    );
    assert_eq!(get_windows(&vec![w(1, "Terminal")]).err().unwrap().0, "No Cursor found!");
}

#[test]
fn listing_error_codes_at_the_extremes() {
    assert_eq!(
        get_displays(Err(i32::MIN)).err().unwrap().0,
        "Failed to obtain displays, CGError code: -2147483648"
    );
    assert_eq!(
        get_displays(Err(0)).err().unwrap().0,
        "Failed to obtain displays, CGError code: 0"
    );
    assert_eq!(
        get_displays(Err(i32::MAX)).err().unwrap().0,
        "Failed to obtain displays, CGError code: 2147483647"
    );
}
