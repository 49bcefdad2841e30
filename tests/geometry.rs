use gpu_widgets::geometry::{
    map_rect, ndc_x, ndc_y, pixel_x, pixel_y, unmap_rect, Ndc, NdcRect, PointerPos, RectPos, Size,
};

fn rect(top: u32, left: u32, bottom: u32, right: u32) -> RectPos {
    RectPos { top, left, bottom, right }
}

fn value(n: Ndc) -> f64 {
    n.num as f64 / n.den as f64
}

#[test]
fn corners_map_to_device_corners() {
    let size = Size { width: 800, height: 600 };
    let top_left = map_rect(&rect(0, 0, 600, 800), size);
    assert_eq!(value(top_left.left), -1.0);
    assert_eq!(value(top_left.top), 1.0);
    assert_eq!(value(top_left.right), 1.0);
    assert_eq!(value(top_left.bottom), -1.0);
    assert_eq!(ndc_x(0, 800), Ndc { num: -800, den: 800 });
    assert_eq!(ndc_y(0, 600), Ndc { num: 600, den: 600 });
    assert_eq!(ndc_x(800, 800), Ndc { num: 800, den: 800 });
    assert_eq!(ndc_y(600, 600), Ndc { num: -600, den: 600 });
}

#[test]
fn mapping_formula_values() {
    // x: p / (w / 2) - 1 ; y: 1 - p / (h / 2)
    assert_eq!(value(ndc_x(200, 800)), -0.5);
    assert_eq!(value(ndc_x(600, 800)), 0.5);
    assert_eq!(value(ndc_y(150, 600)), 0.5);
    assert_eq!(value(ndc_y(450, 600)), -0.5);
    assert_eq!(ndc_x(1000, 800), Ndc { num: 1200, den: 800 });
}

#[test]
fn mapping_round_trip() {
    let sizes = [Size { width: 800, height: 600 }, Size { width: 1, height: 1 }, Size { width: 1921, height: 1079 }];
    let rects = [rect(100, 100, 400, 500), rect(0, 0, 1, 1), rect(600, 600, 700, 800), rect(3, 7, 4_000_000_000, u32::MAX)];
    for size in sizes {
        for r in rects {
            assert_eq!(unmap_rect(&map_rect(&r, size)), Some(r));
        }
    }
}

#[test]
fn unmap_rejects_between_pixels() {
    assert_eq!(pixel_x(Ndc { num: 1, den: 800 }), None);
    assert_eq!(pixel_y(Ndc { num: 1, den: 600 }), None);
    assert_eq!(pixel_x(Ndc { num: 0, den: 800 }), Some(400));
    assert_eq!(pixel_y(Ndc { num: 0, den: 600 }), Some(300));
    assert_eq!(pixel_x(Ndc { num: -900, den: 800 }), None);
    let n = NdcRect {
        top: Ndc { num: 600, den: 600 },
        left: Ndc { num: 1, den: 800 },
        bottom: Ndc { num: -600, den: 600 },
        right: Ndc { num: 800, den: 800 },
    };
    assert_eq!(unmap_rect(&n), None);
}

#[test]
fn hit_test_boundary() {
    let r = rect(10, 10, 50, 50);
    assert!(!r.contains(PointerPos { x: 10, y: 20 }));
    assert!(!r.contains(PointerPos { x: 20, y: 10 }));
    assert!(!r.contains(PointerPos { x: 50, y: 20 }));
    assert!(!r.contains(PointerPos { x: 20, y: 50 }));
    assert!(r.contains(PointerPos { x: 11, y: 11 }));
    assert!(r.contains(PointerPos { x: 49, y: 49 }));
    assert!(!r.contains(PointerPos { x: -5, y: 20 }));
}

#[test]
fn malformed_rect_is_rejected() {
    assert_eq!(RectPos::new(10, 20, 30, 20), None);
    assert_eq!(RectPos::new(30, 10, 30, 20), None);
    assert_eq!(RectPos::new(40, 10, 30, 20), None);
    assert_eq!(RectPos::new(10, 10, 30, 20), Some(rect(10, 10, 30, 20)));
}
