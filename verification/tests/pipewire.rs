use weylus::drm::parse_drm_modifier;
use weylus::frame::{
    buffer_size_matches, crop_into, effective_crop, frame_format, provider_for, FrameFormat,
    FrameStore, Sample,
};
use weylus::geometry::{relative_geometry, GlobalBox, RelativeGeometry};
use weylus::portal::{extract_ii, streams_from_response, DbusValue};
use weylus::video::PixelProvider;

#[test]
fn drm_modifier_bare_fourcc_is_linear() {
    assert_eq!(parse_drm_modifier("XR24"), 0);
}

#[test]
fn drm_modifier_parses_tiled_suffix() {
    assert_eq!(parse_drm_modifier("XR24:0x0100000000000002"), 0x0100000000000002);
    assert_eq!(parse_drm_modifier("XR24:0x0100000000000001"), 0x0100000000000001);
}

#[test]
fn drm_modifier_explicit_linear_suffix() {
    assert_eq!(parse_drm_modifier("XR24:0x0000000000000000"), 0);
}

#[test]
fn drm_modifier_garbage_falls_back_to_linear() {
    assert_eq!(parse_drm_modifier("XR24:nonsense"), 0);
}

#[test]
fn drm_modifier_edge_cases() {
    assert_eq!(parse_drm_modifier("XR24: 0xff "), 0xff);
    assert_eq!(parse_drm_modifier("XR24:0XAB"), 0xab);
    assert_eq!(parse_drm_modifier("XR24:ff"), 0xff);
    assert_eq!(parse_drm_modifier("XR24:+10"), 0x10);
    assert_eq!(parse_drm_modifier("XR24:0x"), 0);
    assert_eq!(parse_drm_modifier("XR24:0x1ffffffffffffffff"), 0);
    assert_eq!(parse_drm_modifier("XR24:0xffffffffffffffff"), u64::MAX);
    assert_eq!(parse_drm_modifier("XR24:1:2"), 0);
    assert_eq!(parse_drm_modifier(""), 0);
}

fn rel(g: &RelativeGeometry) -> (f64, f64, f64, f64) {
    match *g {
        RelativeGeometry::WholeScreen => (0.0, 0.0, 1.0, 1.0),
        RelativeGeometry::Fraction {
            x_num,
            y_num,
            w_num,
            h_num,
            den_w,
            den_h,
        } => (
            x_num as f64 / den_w as f64,
            y_num as f64 / den_h as f64,
            w_num as f64 / den_w as f64,
            h_num as f64 / den_h as f64,
        ),
    }
}

const BOX_2688: GlobalBox = GlobalBox {
    x: 0,
    y: 0,
    width: 4096,
    height: 2688,
};

#[test]
fn monitor_maps_into_global_box() {
    let g = relative_geometry(1, Some((1328, 1728)), Some((1440, 960)), Some(BOX_2688));
    let (x, y, w, h) = rel(&g);
    assert!((x - 1328.0 / 4096.0).abs() < 1e-9);
    assert!((y - 1728.0 / 2688.0).abs() < 1e-9);
    assert!((w - 1440.0 / 4096.0).abs() < 1e-9);
    assert!((h - 960.0 / 2688.0).abs() < 1e-9);
}

#[test]
fn primary_monitor_maps_to_origin() {
    let g = relative_geometry(1, Some((0, 0)), Some((4096, 1728)), Some(BOX_2688));
    let (x, y, w, h) = rel(&g);
    assert_eq!((x, y), (0.0, 0.0));
    assert!((w - 1.0).abs() < 1e-9);
    assert!((h - 1728.0 / 2688.0).abs() < 1e-9);
}

#[test]
fn window_falls_back_to_whole_screen() {
    let g = relative_geometry(2, Some((0, 0)), Some((1, 1)), Some(BOX_2688));
    assert_eq!(rel(&g), (0.0, 0.0, 1.0, 1.0));
}

#[test]
fn no_global_box_falls_back_to_whole_screen() {
    let g = relative_geometry(1, Some((1328, 1728)), Some((1440, 960)), None);
    assert_eq!(rel(&g), (0.0, 0.0, 1.0, 1.0));
}

#[test]
fn missing_position_falls_back_to_whole_screen() {
    let g = relative_geometry(1, None, Some((1440, 960)), Some(BOX_2688));
    assert_eq!(rel(&g), (0.0, 0.0, 1.0, 1.0));
}

#[test]
fn relative_geometry_keeps_exact_fractions() {
    let b = GlobalBox {
        x: -1280,
        y: -200,
        width: 3200,
        height: 1280,
    };
    assert_eq!(
        relative_geometry(1, Some((0, 0)), Some((1920, 1080)), Some(b)),
        RelativeGeometry::Fraction {
            x_num: 1280,
            y_num: 200,
            w_num: 1920,
            h_num: 1080,
            den_w: 3200,
            den_h: 1280,
        }
    );
    assert_eq!(
        relative_geometry(1, Some((0, 0)), Some((1920, 1080)), Some(GlobalBox { x: 0, y: 0, width: 0, height: 10 })),
        RelativeGeometry::WholeScreen
    );
}

#[test]
fn frame_formats() {
    assert_eq!(frame_format("BGRx"), Some(FrameFormat::Bgrx));
    assert_eq!(frame_format("RGBx"), Some(FrameFormat::Rgbx));
    assert_eq!(frame_format("NV12"), None);
}

#[test]
fn buffer_size_must_match_caps() {
    assert!(buffer_size_matches(4 * 3 * 2, 3, 2));
    assert!(!buffer_size_matches(4 * 3 * 2 + 1, 3, 2));
    assert!(buffer_size_matches(0, 0, 7));
}

#[test]
fn full_frame_crop_is_no_crop() {
    assert_eq!(effective_crop(640, 480, Some((0, 0, 640, 480))), None);
    assert_eq!(effective_crop(640, 480, Some((1, 0, 639, 480))), Some((1, 0, 639, 480)));
    assert_eq!(effective_crop(640, 480, None), None);
}

#[test]
fn crop_copies_the_rectangle_row_by_row() {
    // A 4x3 frame whose pixel (x, y) has the bytes [10y+x, 1, 2, 3].
    let mut data = Vec::new();
    for y in 0..3u8 {
        for x in 0..4u8 {
            data.extend_from_slice(&[10 * y + x, 1, 2, 3]);
        }
    }
    let mut out = vec![99u8; 7];
    crop_into(&data, 4, 1, 1, 2, 2, &mut out);
    assert_eq!(
        out,
        vec![11, 1, 2, 3, 12, 1, 2, 3, 21, 1, 2, 3, 22, 1, 2, 3]
    );
    crop_into(&data, 4, 0, 0, 0, 0, &mut out);
    assert!(out.is_empty());
}

#[test]
fn provider_names_the_format() {
    let buf = [0u8; 16];
    match provider_for(FrameFormat::Bgrx, 2, 2, &buf) {
        PixelProvider::BGR0(2, 2, b) => assert_eq!(b.len(), 16),
        _ => panic!("expected BGR0"),
    }
    match provider_for(FrameFormat::Rgbx, 2, 2, &buf) {
        PixelProvider::RGB0(2, 2, _) => {}
        _ => panic!("expected RGB0"),
    }
}

fn signed(i: i64) -> DbusValue {
    DbusValue {
        signed: Some(i),
        unsigned: if i >= 0 { Some(i as u64) } else { None },
        text: None,
        is_container: false,
        children: vec![],
    }
}

fn uint(u: u64) -> DbusValue {
    DbusValue {
        signed: None,
        unsigned: Some(u),
        text: None,
        is_container: false,
        children: vec![],
    }
}

fn text(s: &str) -> DbusValue {
    DbusValue {
        signed: None,
        unsigned: None,
        text: Some(s.to_string()),
        is_container: false,
        children: vec![],
    }
}

fn container(children: Vec<DbusValue>) -> DbusValue {
    DbusValue {
        signed: None,
        unsigned: None,
        text: None,
        is_container: true,
        children,
    }
}

/// A variant forwards the integer and string views of its value.
fn variant(v: DbusValue) -> DbusValue {
    DbusValue {
        signed: v.signed,
        unsigned: v.unsigned,
        text: v.text.clone(),
        is_container: true,
        children: vec![v],
    }
}

#[test]
fn extract_ii_reads_nested_pairs() {
    let v = variant(container(vec![signed(10), signed(-20)]));
    assert_eq!(extract_ii(&v), Some((10, -20)));
    assert_eq!(extract_ii(&container(vec![signed(1)])), None);
    assert_eq!(extract_ii(&container(vec![signed(1), signed(2), signed(3)])), None);
    assert_eq!(extract_ii(&container(vec![signed(1 << 32), signed(5)])), Some((0, 5)));
}

#[test]
fn streams_are_decoded_from_the_portal_response() {
    let monitor = container(vec![
        uint(42),
        container(vec![
            text("source_type"),
            variant(uint(1)),
            text("position"),
            variant(container(vec![signed(1328), signed(1728)])),
            text("size"),
            variant(container(vec![signed(1440), signed(960)])),
        ]),
    ]);
    let window = container(vec![
        uint(43),
        container(vec![text("source_type"), variant(uint(2))]),
    ]);
    let bad_id = container(vec![text("x"), container(vec![])]);
    let bad_type = container(vec![uint(44), container(vec![text("source_type"), text("monitor")])]);
    let no_type = container(vec![uint(45), container(vec![])]);
    let streams = variant(container(vec![monitor, window, bad_id, bad_type, no_type]));
    let infos = streams_from_response(Some(&streams));
    assert_eq!(infos.len(), 3);
    assert_eq!(infos[0].path, 42);
    assert_eq!(infos[0].source_type, 1);
    assert_eq!(infos[0].position, Some((1328, 1728)));
    assert_eq!(infos[0].size, Some((1440, 960)));
    assert_eq!(infos[1].path, 43);
    assert_eq!(infos[1].source_type, 2);
    assert_eq!(infos[1].position, None);
    assert_eq!(infos[2].path, 45);
    assert_eq!(infos[2].source_type, 0);
    assert!(streams_from_response(None).is_empty());
    assert!(streams_from_response(Some(&uint(3))).is_empty());
}

#[test]
fn later_attribute_wins() {
    let stream = container(vec![
        uint(7),
        container(vec![
            text("source_type"),
            variant(uint(1)),
            text("source_type"),
            variant(uint(2)),
        ]),
    ]);
    let infos = streams_from_response(Some(&variant(container(vec![stream]))));
    assert_eq!(infos.len(), 1);
    assert_eq!(infos[0].source_type, 2);
}

#[test]
fn formatted_modifiers_parse_back() {
    for m in [0u64, 1, 0x0100000000000002, 0xdead_beef, u64::MAX] {
        assert_eq!(parse_drm_modifier(&format!("XR24:0x{:016x}", m)), m);
        assert_eq!(parse_drm_modifier(&format!("XR24:0X{:X}", m)), m);
        assert_eq!(parse_drm_modifier(&format!("AB24:0x{:x}", m)), m);
    }
}

#[test]
fn frame_store_drops_mis_sized_samples_and_keeps_the_last_frame() {
    let mut store = FrameStore::new();
    assert!(store.take_sample(None).is_none());
    let bad = Sample { format: FrameFormat::Bgrx, width: 2, height: 1, data: vec![1, 2, 3], crop: None };
    assert!(store.take_sample(Some(bad)).is_none());
    let good = Sample {
        format: FrameFormat::Bgrx,
        width: 2,
        height: 1,
        data: vec![1, 2, 3, 4, 5, 6, 7, 8],
        crop: Some((0, 0, 2, 1)),
    };
    match store.take_sample(Some(good)) {
        Some(PixelProvider::BGR0(2, 1, b)) => assert_eq!(b, &[1, 2, 3, 4, 5, 6, 7, 8]),
        _ => panic!("expected the whole BGR0 frame"),
    }
    match store.take_sample(None) {
        Some(PixelProvider::BGR0(2, 1, b)) => assert_eq!(b, &[1, 2, 3, 4, 5, 6, 7, 8]),
        _ => panic!("expected the previous frame"),
    }
    let bad = Sample { format: FrameFormat::Rgbx, width: 4, height: 4, data: vec![0; 8], crop: None };
    match store.take_sample(Some(bad)) {
        Some(PixelProvider::RGB0(2, 1, b)) => assert_eq!(b, &[1, 2, 3, 4, 5, 6, 7, 8]),
        _ => panic!("expected the previous frame in the new format"),
    }
}

#[test]
fn frame_store_crops_samples() {
    let mut store = FrameStore::new();
    let data: Vec<u8> = (0..16).collect();
    let s = Sample { format: FrameFormat::Rgbx, width: 2, height: 2, data, crop: Some((1, 0, 1, 2)) };
    match store.take_sample(Some(s)) {
        Some(PixelProvider::RGB0(1, 2, b)) => assert_eq!(b, &[4, 5, 6, 7, 12, 13, 14, 15]),
        _ => panic!("expected the cropped RGB0 frame"),
    }
}
