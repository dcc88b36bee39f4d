use player_ui::geometry::Vector2;
use player_ui::progress_bar::ProgressBar;

fn v(x: i32, y: i32) -> Vector2 {
    Vector2 { x, y }
}

/// A bar of the given footprint with `maximum` already set.
fn bar(w: i32, h: i32, maximum: usize) -> ProgressBar {
    let mut b = ProgressBar::new_init(v(w, h), v(10, 10));
    b.set_maximum(maximum);
    b
}

#[test]
fn new_bar_is_empty_and_dirty() {
    let b = ProgressBar::new_init(v(50, 10), v(10, 10));
    assert_eq!(b.maximum, 0);
    assert_eq!(b.value, 0);
    assert_eq!(b.get_real_value(), 0);
    assert!(b.need_to_draw);
    assert_eq!(b.get_position(), v(10, 10));
    assert_eq!(b.get_size(), v(50, 10));
}

#[test]
fn set_progress_maps_value_to_pixels() {
    // inner width 48: 50 * 48 / 100 == 24 pixels
    let mut b = bar(50, 10, 100);
    b.set_progress(50);
    assert_eq!(b.get_real_value(), 50);
    assert_eq!(b.value, 24);
}

#[test]
fn set_progress_clamps_to_maximum() {
    let mut b = bar(50, 10, 100);
    b.set_progress(150);
    assert_eq!(b.get_real_value(), 100);
    assert_eq!(b.value, 48);
}

#[test]
fn set_progress_with_zero_maximum_is_inert() {
    let mut b = ProgressBar::new_init(v(50, 10), v(10, 10));
    b.need_to_draw = false;
    b.set_progress(75);
    assert_eq!(b.get_real_value(), 0);
    assert_eq!(b.value, 0);
    assert!(!b.need_to_draw);
}

#[test]
fn set_progress_keeps_cache_when_pixel_unchanged() {
    // inner width 48 against maximum 1000: one unit is under a pixel
    let mut b = bar(50, 10, 1000);
    b.set_progress(1);
    assert_eq!(b.value, 0);
    assert_eq!(b.get_real_value(), 0);
}

#[test]
fn pixel_width_is_monotonic_in_the_value() {
    let mut last: usize = 0;
    for val in [0usize, 10, 25, 26, 50, 99, 100] {
        let mut b = bar(50, 10, 100);
        b.set_progress(val);
        assert!(b.value >= last);
        last = b.value;
    }
}

#[test]
fn round_trip_when_inner_width_covers_maximum() {
    // inner width 104 >= maximum 100: every value keeps its exact identity
    for val in [0usize, 1, 37, 99, 100, 250] {
        let mut b = bar(106, 10, 100);
        b.set_progress(val);
        assert_eq!(b.get_real_value(), val.min(100));
    }
}

#[test]
fn set_maximum_does_not_recompute_the_fill() {
    let mut b = bar(50, 10, 100);
    b.set_progress(50);
    b.set_maximum(200);
    assert_eq!(b.value, 24);
    assert_eq!(b.get_real_value(), 50);
    b.set_progress(50);
    assert_eq!(b.value, 12);
}

#[test]
fn is_inside_tests_the_footprint() {
    let b = bar(100, 20, 100);
    assert!(b.is_inside(v(50, 20)));
    assert!(!b.is_inside(v(200, 20)));
    assert!(!b.is_inside(v(50, 31)));
    assert!(b.is_inside(v(10, 10)));
}

#[test]
fn clicked_sets_the_volume_fraction() {
    // width 50 gives inner width 48; a click 24 pixels in is half way
    let mut b = bar(50, 10, 100);
    b.clicked(v(10 + 24, 12));
    assert_eq!(b.get_real_value(), 50);
}

#[test]
fn clicked_seek_is_pixel_accurate() {
    // width 602 gives inner width 600; one pixel is 12 time units of a
    // 7200-unit track, and a click 301 pixels in lands on exactly 301 * 12
    let mut b = ProgressBar::new_init(v(602, 10), v(10, 10));
    b.set_maximum(7200);
    b.clicked(v(10 + 301, 12));
    assert_eq!(b.get_real_value(), 3612);
    // the fill returns to the clicked pixel column
    assert_eq!(b.value, 301);
}

#[test]
fn clicked_left_of_the_bar_means_zero() {
    let mut b = bar(50, 10, 100);
    b.set_progress(80);
    b.clicked(v(3, 12));
    assert_eq!(b.get_real_value(), 0);
}

#[test]
fn set_size_remaps_the_fill() {
    let mut b = bar(50, 10, 100);
    b.set_progress(50);
    b.set_size(v(100, 10));
    // inner width 98: 50 * 98 / 100 == 49
    assert_eq!(b.value, 49);
    assert_eq!(b.get_size(), v(100, 10));
}

#[test]
fn set_position_moves_and_marks_dirty() {
    let mut b = bar(50, 10, 100);
    b.need_to_draw = false;
    b.set_position(v(1, 2));
    assert_eq!(b.get_position(), v(1, 2));
    assert!(b.need_to_draw);
}

#[test]
fn draw_reports_the_fill_and_clears_the_flag() {
    let mut b = bar(50, 10, 100);
    b.set_progress(50);
    assert!(b.need_to_draw);
    let frame = b.draw();
    assert_eq!(frame.position, v(10, 10));
    assert_eq!(frame.size, v(50, 10));
    assert_eq!(frame.fill_width, 24);
    assert!(!b.need_to_draw);
}

#[test]
fn pointer_movement_changes_nothing() {
    let mut b = bar(50, 10, 100);
    b.set_progress(30);
    let before_value = b.value;
    b.cursor_moved(v(20, 12));
    b.mouse_leave();
    assert_eq!(b.value, before_value);
    assert_eq!(b.get_real_value(), 30);
}

#[test]
fn min_and_max_size() {
    let b = bar(50, 10, 100);
    assert_eq!(b.get_min_size(), v(3, 3));
    assert!(b.get_max_size().is_none());
}

#[test]
fn element_name_round_trip() {
    let mut b = bar(50, 10, 100);
    assert_eq!(b.get_element_name().as_str(), "");
    b.set_element_name(&"volume".to_string());
    assert_eq!(b.get_element_name().as_str(), "volume");
}
