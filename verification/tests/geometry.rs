use sprite_walk::geometry::{position_from, size_from, MAX_POSITION, MAX_SIZE, MIN_POSITION};
use sprite_walk::{Point, Rect};

#[test]
fn grid_bounds_are_half_the_i32_range() {
    assert_eq!(MAX_POSITION, i32::MAX / 2);
    assert_eq!(MIN_POSITION, i32::MIN / 2);
    assert_eq!(MAX_SIZE, i32::MAX as u32 / 2);
}

#[test]
fn position_from_keeps_what_is_on_the_grid() {
    assert_eq!(position_from(0), 0);
    assert_eq!(position_from(-17), -17);
    assert_eq!(position_from(1073741823), 1073741823);
    assert_eq!(position_from(-1073741824), -1073741824);
}

#[test]
fn position_from_stops_at_the_edges() {
    assert_eq!(position_from(1073741824), 1073741823);
    assert_eq!(position_from(-1073741825), -1073741824);
    assert_eq!(position_from(i64::MAX), 1073741823);
    assert_eq!(position_from(i64::MIN), -1073741824);
}

#[test]
fn size_from_never_gives_an_empty_size() {
    assert_eq!(size_from(0), 1);
    assert_eq!(size_from(1), 1);
    assert_eq!(size_from(26), 26);
    assert_eq!(size_from(1073741823), 1073741823);
    assert_eq!(size_from(1073741824), 1073741823);
    assert_eq!(size_from(u32::MAX), 1073741823);
}

#[test]
fn point_new_keeps_small_coordinates() {
    let p = Point::new(5, -7);
    assert_eq!(p, Point { x: 5, y: -7 });
    assert_eq!(p.x(), 5);
    assert_eq!(p.y(), -7);
    assert!(p.is_wf());
}

#[test]
fn point_new_clamps_large_coordinates() {
    let p = Point::new(i32::MAX, i32::MIN);
    assert_eq!(p, Point { x: 1073741823, y: -1073741824 });
    assert!(p.is_wf());
}

#[test]
fn point_offset_adds() {
    assert_eq!(Point::new(3, 4).offset(5, -10), Point { x: 8, y: -6 });
    assert_eq!(Point::new(3, 4).offset(0, 0), Point { x: 3, y: 4 });
}

#[test]
fn point_offset_stops_at_the_edges() {
    let far = Point::new(MAX_POSITION, MIN_POSITION);
    assert_eq!(far.offset(1, -1), far);
    assert_eq!(far.offset(i32::MAX, i32::MIN), far);
    assert_eq!(far.offset(-1, 1), Point { x: MAX_POSITION - 1, y: MIN_POSITION + 1 });
}

#[test]
fn point_offset_does_not_wrap_off_the_grid() {
    let raw = Point { x: i32::MAX, y: i32::MIN };
    assert!(!raw.is_wf());
    assert_eq!(raw.offset(1, -1), Point { x: MAX_POSITION, y: MIN_POSITION });
    assert_eq!(raw.offset(0, 0), Point { x: MAX_POSITION, y: MIN_POSITION });
}

#[test]
fn rect_new_keeps_ordinary_values() {
    let r = Rect::new(0, 0, 26, 36);
    assert_eq!(r, Rect { x: 0, y: 0, w: 26, h: 36 });
    assert_eq!((r.x(), r.y(), r.width(), r.height()), (0, 0, 26, 36));
    assert_eq!(r.size(), (26, 36));
    assert!(r.is_wf());
}

#[test]
fn rect_new_replaces_an_empty_size() {
    assert_eq!(Rect::new(1, 2, 0, 0), Rect { x: 1, y: 2, w: 1, h: 1 });
}

#[test]
fn rect_new_clamps_corner_and_size() {
    let r = Rect::new(i32::MAX, i32::MIN, u32::MAX, 1073741824);
    assert_eq!(r, Rect { x: 1073741823, y: -1073741824, w: 1073741823, h: 1073741823 });
    assert!(r.is_wf());
}

#[test]
fn rect_from_center_surrounds_the_center() {
    assert_eq!(Rect::from_center(Point::new(100, 50), 20, 10), Rect { x: 90, y: 45, w: 20, h: 10 });
}

#[test]
fn rect_from_center_rounds_halves_down() {
    assert_eq!(Rect::from_center(Point::new(0, 0), 5, 7), Rect { x: -2, y: -3, w: 5, h: 7 });
    assert_eq!(Rect::from_center(Point::new(0, 0), 1, 1), Rect { x: 0, y: 0, w: 1, h: 1 });
}

#[test]
fn rect_from_center_replaces_an_empty_size() {
    assert_eq!(Rect::from_center(Point::new(9, 9), 0, 0), Rect { x: 9, y: 9, w: 1, h: 1 });
}

#[test]
fn rect_from_center_stops_at_the_edges() {
    let r = Rect::from_center(Point::new(MIN_POSITION, MAX_POSITION), 10, 10);
    assert_eq!(r, Rect { x: MIN_POSITION, y: MAX_POSITION - 5, w: 10, h: 10 });
    let big = Rect::from_center(Point { x: i32::MAX, y: i32::MIN }, u32::MAX, u32::MAX);
    assert_eq!(
        big,
        Rect { x: MAX_POSITION - 536870911, y: MIN_POSITION, w: MAX_SIZE, h: MAX_SIZE }
    );
    assert!(big.is_wf());
}

#[test]
fn is_wf_tells_values_off_the_grid() {
    assert!(!Point { x: MAX_POSITION + 1, y: 0 }.is_wf());
    assert!(!Point { x: 0, y: MIN_POSITION - 1 }.is_wf());
    assert!(!Rect { x: 0, y: 0, w: 0, h: 1 }.is_wf());
    assert!(!Rect { x: 0, y: 0, w: 1, h: MAX_SIZE + 1 }.is_wf());
    assert!(!Rect { x: MIN_POSITION - 1, y: 0, w: 1, h: 1 }.is_wf());
    assert!(Rect { x: MIN_POSITION, y: MAX_POSITION, w: 1, h: MAX_SIZE }.is_wf());
}
