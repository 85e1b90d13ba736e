use hover_dict::mouse::MouseTracker;

fn dragged(from: (i32, i32), to: (i32, i32)) -> MouseTracker {
    let mut mouse = MouseTracker::new();
    mouse.moved(from.0, from.1);
    mouse.pressed();
    mouse.moved(to.0, to.1);
    mouse
}

#[test]
fn drag_beyond_ten_pixels_selects() {
    assert_eq!(dragged((5, 5), (16, 5)).released(true), Some((16, 5)));
    assert_eq!(dragged((5, 5), (15, 5)).released(true), None);
    assert_eq!(dragged((5, 5), (5, -6)).released(true), Some((5, -6)));
    assert_eq!(dragged((0, 0), (6, 8)).released(true), None);
    assert_eq!(dragged((0, 0), (7, 8)).released(true), Some((7, 8)));
    assert_eq!(dragged((3, 4), (3, 4)).released(true), None);
}

#[test]
fn drag_length_is_the_distance() {
    for dx in -12..13 {
        for dy in -12..13 {
            let far = (((dx * dx + dy * dy) as f64).sqrt()) > 10.0;
            assert_eq!(dragged((0, 0), (dx, dy)).released(true).is_some(), far);
        }
    }
}

#[test]
fn nothing_while_captures_are_off() {
    assert_eq!(dragged((0, 0), (500, 500)).released(false), None);
}

#[test]
fn pressing_starts_a_new_drag() {
    let mut mouse = dragged((0, 0), (500, 500));
    mouse.pressed();
    assert_eq!(mouse.released(true), None);
    mouse.moved(500, 520);
    assert_eq!(mouse.released(true), Some((500, 520)));
}

#[test]
fn before_any_event_all_is_at_the_origin() {
    let mut mouse = MouseTracker::new();
    mouse.moved(11, 0);
    assert_eq!(mouse.released(true), Some((11, 0)));
}

#[test]
fn measurable_drags() {
    assert!(dragged((0, 0), (1920, 1080)).is_measurable());
    assert!(dragged((0, 0), (46340, 0)).is_measurable());
    assert!(!dragged((0, 0), (46341, 0)).is_measurable());
    assert!(!dragged((0, 0), (-46341, 0)).is_measurable());
    assert!(!dragged((0, 0), (46340, 300)).is_measurable());
    assert!(!dragged((i32::MIN, 0), (i32::MAX, 0)).is_measurable());
}

#[test]
fn straight_drags() {
    for d in -30..31 {
        let long = d > 10 || d < -10;
        assert_eq!(dragged((100, 100), (100 + d, 100)).released(true).is_some(), long);
        assert_eq!(dragged((100, 100), (100, 100 + d)).released(true).is_some(), long);
    }
}
