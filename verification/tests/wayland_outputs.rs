use weylus::geometry::{bounding_box, GlobalBox};

#[test]
fn bounding_box_of_measured_dual_monitor_setup() {
    let rects = [(0, 0, 4096, 1728), (1328, 1728, 1440, 960)];
    assert_eq!(
        bounding_box(&rects),
        Some(GlobalBox {
            x: 0,
            y: 0,
            width: 4096,
            height: 2688,
        })
    );
}

#[test]
fn bounding_box_handles_negative_origin() {
    let rects = [(0, 0, 1920, 1080), (-1280, -200, 1280, 1024)];
    assert_eq!(
        bounding_box(&rects),
        Some(GlobalBox {
            x: -1280,
            y: -200,
            width: 1920 + 1280,
            height: 1080 + 200,
        })
    );
}

#[test]
fn bounding_box_empty_is_none() {
    assert_eq!(bounding_box(&[]), None);
}

#[test]
fn bounding_box_of_one_rect_is_that_rect() {
    assert_eq!(
        bounding_box(&[(10, -20, 300, 400)]),
        Some(GlobalBox {
            x: 10,
            y: -20,
            width: 300,
            height: 400,
        })
    );
}

#[test]
fn bounding_box_contains_nested_rects() {
    let rects = [(0, 0, 100, 100), (10, 10, 20, 20), (50, -5, 10, 10)];
    assert_eq!(
        bounding_box(&rects),
        Some(GlobalBox {
            x: 0,
            y: -5,
            width: 100,
            height: 105,
        })
    );
}

#[test]
fn bounding_box_does_not_depend_on_order() {
    let rects = [(0, 0, 1920, 1080), (1920, -200, 1280, 1024), (-800, 300, 800, 600)];
    let reordered = [(-800, 300, 800, 600), (0, 0, 1920, 1080), (1920, -200, 1280, 1024)];
    assert_eq!(bounding_box(&rects), bounding_box(&reordered));
    assert_eq!(
        bounding_box(&rects),
        Some(GlobalBox {
            x: -800,
            y: -200,
            width: 4000,
            height: 1280,
        })
    );
}

#[test]
fn bounding_box_of_joined_lists_spans_both() {
    let a = [(0, 0, 1920, 1080)];
    let b = [(1920, -200, 1280, 1024), (-800, 300, 800, 600)];
    let p = bounding_box(&a).unwrap();
    let q = bounding_box(&b).unwrap();
    let joined: Vec<(i32, i32, i32, i32)> = [&a[..], &b[..]].concat();
    let x = p.x.min(q.x);
    let y = p.y.min(q.y);
    assert_eq!(
        bounding_box(&joined),
        Some(GlobalBox {
            x,
            y,
            width: (p.x + p.width).max(q.x + q.width) - x,
            height: (p.y + p.height).max(q.y + q.height) - y,
        })
    );
}
