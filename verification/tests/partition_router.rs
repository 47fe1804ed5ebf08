use split_viewport::geometry::Point;
use split_viewport::geometry::PointerSample;
use split_viewport::geometry::Viewport;
use split_viewport::geometry::WindowDimensions;
use split_viewport::partition::recompute;
use split_viewport::router::route;

fn sample(x: i64, y: i64) -> Option<PointerSample> {
    Some(PointerSample { position: Point { x, y } })
}

fn viewports_of(width: u32, height: u32) -> Vec<Viewport> {
    let (left, right) = recompute(WindowDimensions { width, height });
    vec![left, right]
}

#[test]
fn partition_even_window() {
    let (left, right) = recompute(WindowDimensions { width: 800, height: 600 });
    assert_eq!((left.origin_x, left.origin_y), (0, 0));
    assert_eq!((left.width, left.height), (400, 600));
    assert_eq!(left.priority, 0);
    assert!(left.clears_background);
    assert_eq!((right.origin_x, right.origin_y), (400, 0));
    assert_eq!((right.width, right.height), (400, 600));
    assert_eq!(right.priority, 1);
    assert!(!right.clears_background);
}

#[test]
fn partition_odd_window() {
    let (left, right) = recompute(WindowDimensions { width: 801, height: 600 });
    assert_eq!(left.width, 400);
    assert_eq!(right.origin_x, 400);
    assert_eq!(right.width, 401);
    assert_eq!(left.width + right.width, 801);
}

#[test]
fn partition_widths_sum_across_sizes() {
    for width in [0u32, 1, 2, 3, 99, 100, 1919, 3840] {
        let (left, right) = recompute(WindowDimensions { width, height: 7 });
        assert_eq!(left.width + right.width, width);
        assert_eq!(left.height, 7);
        assert_eq!(right.height, 7);
        assert_eq!(left.origin_x, 0);
        assert_eq!(right.origin_x, width / 2);
    }
}

#[test]
fn recompute_twice_identical() {
    let w = WindowDimensions { width: 1237, height: 911 };
    let first = recompute(w);
    let second = recompute(w);
    assert_eq!(first, second);
}

#[test]
fn route_left_inside() {
    let vps = viewports_of(800, 600);
    assert_eq!(route(sample(10, 20), &vps), Some((0, Point { x: 10, y: 20 })));
}

#[test]
fn route_right_inside() {
    let vps = viewports_of(800, 600);
    assert_eq!(route(sample(450, 10), &vps), Some((1, Point { x: 50, y: 10 })));
}

#[test]
fn route_odd_boundary_column_belongs_right() {
    // The left viewport spans [0, 400), so x = 400 belongs to the right one.
    let vps = viewports_of(801, 600);
    assert_eq!(route(sample(400, 0), &vps), Some((1, Point { x: 0, y: 0 })));
}

#[test]
fn route_window_corners() {
    let vps = viewports_of(800, 600);
    assert_eq!(route(sample(0, 0), &vps), Some((0, Point { x: 0, y: 0 })));
    assert_eq!(route(sample(399, 599), &vps), Some((0, Point { x: 399, y: 599 })));
    assert_eq!(route(sample(799, 599), &vps), Some((1, Point { x: 399, y: 599 })));
    assert_eq!(route(sample(800, 0), &vps), None);
    assert_eq!(route(sample(0, 600), &vps), None);
}

#[test]
fn route_negative_coordinates_miss() {
    let vps = viewports_of(800, 600);
    assert_eq!(route(sample(-5, 10), &vps), None);
    assert_eq!(route(sample(10, -1), &vps), None);
    assert_eq!(route(sample(-100, -100), &vps), None);
}

#[test]
fn route_without_pointer_sample() {
    let vps = viewports_of(800, 600);
    assert_eq!(route(None, &vps), None);
}

#[test]
fn route_zero_area_viewports_contain_nothing() {
    let vps = viewports_of(0, 0);
    assert_eq!(route(sample(0, 0), &vps), None);
    let vps = viewports_of(1, 600);
    // Left viewport has width 0: even a pointer at its origin misses it.
    assert_eq!(route(sample(0, 10), &vps), Some((1, Point { x: 0, y: 10 })));
}

#[test]
fn route_overlapping_first_match_wins() {
    let a = Viewport {
        origin_x: 0,
        origin_y: 0,
        width: 100,
        height: 100,
        priority: 0,
        clears_background: true,
    };
    let b = Viewport {
        origin_x: 50,
        origin_y: 0,
        width: 100,
        height: 100,
        priority: 1,
        clears_background: false,
    };
    let vps = vec![a, b];
    // (60, 5) lies in both rectangles; the first in iteration order wins.
    assert_eq!(route(sample(60, 5), &vps), Some((0, Point { x: 60, y: 5 })));
}

#[test]
fn contains_is_half_open() {
    let vp = Viewport {
        origin_x: 10,
        origin_y: 20,
        width: 30,
        height: 40,
        priority: 0,
        clears_background: false,
    };
    assert!(vp.contains(Point { x: 10, y: 20 }));
    assert!(vp.contains(Point { x: 39, y: 59 }));
    assert!(!vp.contains(Point { x: 40, y: 20 }));
    assert!(!vp.contains(Point { x: 10, y: 60 }));
    assert!(!vp.contains(Point { x: 9, y: 20 }));
    assert_eq!(vp.local_offset(Point { x: 39, y: 59 }), Point { x: 29, y: 39 });
}
