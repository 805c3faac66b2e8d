use rusty_web_core::geometry::{compute_layout, Rect, MIN_VISIBLE};

#[test]
fn layout_splits_window_below_toolbar() {
    let (toolbar, content) = compute_layout(800, 600, 90);
    assert_eq!(toolbar, Rect { x: 0, y: 0, width: 800, height: 90 });
    assert_eq!(content, Rect { x: 0, y: 90, width: 800, height: 510 });
}

#[test]
fn layout_with_the_lower_toolbar() {
    let (toolbar, content) = compute_layout(1024, 768, 60);
    assert_eq!(toolbar, Rect { x: 0, y: 0, width: 1024, height: 60 });
    assert_eq!(content, Rect { x: 0, y: 60, width: 1024, height: 708 });
}

#[test]
fn content_keeps_minimum_height_when_window_is_lower_than_toolbar() {
    let (toolbar, content) = compute_layout(800, 50, 90);
    assert_eq!(toolbar, Rect { x: 0, y: 0, width: 800, height: 90 });
    assert_eq!(content, Rect { x: 0, y: 90, width: 800, height: 1 });
    assert_eq!(content.height, MIN_VISIBLE);
}

#[test]
fn content_keeps_minimum_height_when_window_is_as_high_as_toolbar() {
    let (_, content) = compute_layout(800, 90, 90);
    assert_eq!(content.height, 1);
}

#[test]
fn content_height_just_above_the_floor() {
    let (_, at_floor) = compute_layout(800, 91, 90);
    assert_eq!(at_floor.height, 1);
    let (_, above) = compute_layout(800, 92, 90);
    assert_eq!(above.height, 2);
}

#[test]
fn layout_of_an_empty_window() {
    let (toolbar, content) = compute_layout(0, 0, 0);
    assert_eq!(toolbar, Rect { x: 0, y: 0, width: 0, height: 0 });
    assert_eq!(content, Rect { x: 0, y: 0, width: 0, height: 1 });
}

#[test]
fn layout_without_a_toolbar_gives_the_whole_window_to_content() {
    let (toolbar, content) = compute_layout(640, 480, 0);
    assert_eq!(toolbar.height, 0);
    assert_eq!(content, Rect { x: 0, y: 0, width: 640, height: 480 });
}

#[test]
fn layout_at_the_largest_sizes() {
    let (toolbar, content) = compute_layout(u32::MAX, u32::MAX, u32::MAX);
    assert_eq!(toolbar, Rect { x: 0, y: 0, width: u32::MAX, height: u32::MAX });
    assert_eq!(content, Rect { x: 0, y: u32::MAX, width: u32::MAX, height: 1 });
    let (_, tall) = compute_layout(1, u32::MAX, 0);
    assert_eq!(tall.height, u32::MAX);
}

#[test]
fn panes_never_overlap_vertically() {
    let sizes: [(u32, u32, u32); 6] =
        [(800, 600, 90), (800, 50, 90), (0, 0, 0), (1, 1, 1), (300, 200, 60), (5, 1000, 999)];
    for (w, h, t) in sizes {
        let (toolbar, content) = compute_layout(w, h, t);
        assert_eq!(toolbar.width, w);
        assert_eq!(toolbar.height, t);
        assert_eq!(content.width, w);
        assert_eq!(content.height, if h > t { h - t } else { 1 });
        assert!(toolbar.y as u64 + toolbar.height as u64 <= content.y as u64);
    }
}

#[test]
fn layout_is_recomputed_not_adjusted() {
    let first = compute_layout(800, 600, 90);
    let other = compute_layout(400, 300, 90);
    let again = compute_layout(800, 600, 90);
    assert_eq!(first, again);
    assert_ne!(first, other);
}
