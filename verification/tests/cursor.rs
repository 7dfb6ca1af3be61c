use dxgi_capture::cursor::{
    CursorInfo, Placement, PointerReport, ShapeInfo, SHAPE_COLOR, SHAPE_MASKED_COLOR,
    SHAPE_MONOCHROME,
};

const A: u32 = 7;
const B: u32 = 9;

fn at_origin(output: u32) -> Placement {
    Placement { output, left: 0, top: 0, offset_x: 0, offset_y: 0 }
}

fn report(x: i32, y: i32, visible: bool, time_stamp: i64) -> PointerReport {
    PointerReport { x, y, visible, time_stamp }
}

fn shown_by_a_at_100() -> CursorInfo {
    let mut cursor = CursorInfo::new();
    // A hidden cursor owned by output 0 believes a report that shows it.
    assert!(cursor.update_position(&report(5, 6, true, 100), &at_origin(A)));
    assert!(cursor.visible());
    assert_eq!(cursor.owner(), A);
    assert_eq!(cursor.time_stamp(), 100);
    cursor
}

#[test]
fn shape_kinds_have_the_platform_values() {
    assert_eq!(SHAPE_MONOCHROME, 1);
    assert_eq!(SHAPE_COLOR, 2);
    assert_eq!(SHAPE_MASKED_COLOR, 4);
}

#[test]
fn new_cursor_is_hidden_at_the_origin() {
    let cursor = CursorInfo::new();
    assert_eq!(cursor.position(), (0, 0));
    assert!(!cursor.visible());
    assert_eq!(cursor.owner(), 0);
    assert_eq!(cursor.time_stamp(), 0);
    assert!(cursor.shape().is_empty());
    assert_eq!(cursor.shape_info().kind, 0);
}

#[test]
fn stale_report_from_another_output_is_rejected() {
    let mut cursor = shown_by_a_at_100();
    let stale = report(50, 60, true, 50);
    assert!(!cursor.accepts(&stale, B));
    assert!(!cursor.update_position(&stale, &at_origin(B)));
    assert_eq!(cursor.position(), (5, 6));
    assert!(cursor.visible());
    assert_eq!(cursor.owner(), A);
    assert_eq!(cursor.time_stamp(), 100);
}

#[test]
fn newer_report_from_another_output_is_accepted() {
    let mut cursor = shown_by_a_at_100();
    let newer = report(50, 60, true, 150);
    assert!(cursor.accepts(&newer, B));
    assert!(cursor.update_position(&newer, &at_origin(B)));
    assert_eq!(cursor.position(), (50, 60));
    assert!(cursor.visible());
    assert_eq!(cursor.owner(), B);
    assert_eq!(cursor.time_stamp(), 150);
}

#[test]
fn report_with_the_same_time_stamp_is_accepted() {
    let mut cursor = shown_by_a_at_100();
    assert!(cursor.update_position(&report(1, 2, true, 100), &at_origin(B)));
    assert_eq!(cursor.owner(), B);
}

#[test]
fn hide_from_another_output_is_rejected() {
    let mut cursor = shown_by_a_at_100();
    assert!(!cursor.update_position(&report(0, 0, false, 500), &at_origin(B)));
    assert!(cursor.visible());
    assert_eq!(cursor.owner(), A);
    assert_eq!(cursor.time_stamp(), 100);
}

#[test]
fn hide_from_the_owner_is_accepted() {
    let mut cursor = shown_by_a_at_100();
    assert!(cursor.update_position(&report(8, 9, false, 90), &at_origin(A)));
    assert!(!cursor.visible());
    assert_eq!(cursor.position(), (8, 9));
    assert_eq!(cursor.time_stamp(), 90);
}

#[test]
fn older_report_from_the_owner_is_accepted() {
    let mut cursor = shown_by_a_at_100();
    assert!(cursor.update_position(&report(1, 1, true, 10), &at_origin(A)));
    assert_eq!(cursor.time_stamp(), 10);
}

#[test]
fn older_show_is_accepted_while_hidden() {
    let mut cursor = shown_by_a_at_100();
    assert!(cursor.update_position(&report(0, 0, false, 120), &at_origin(A)));
    assert!(cursor.update_position(&report(3, 4, true, 50), &at_origin(B)));
    assert!(cursor.visible());
    assert_eq!(cursor.owner(), B);
    assert_eq!(cursor.time_stamp(), 50);
}

#[test]
fn position_is_shifted_by_origin_less_offset() {
    let mut cursor = CursorInfo::new();
    let place = Placement { output: 0, left: 1920, top: -200, offset_x: 100, offset_y: -50 };
    assert!(cursor.update_position(&report(10, 20, true, 1), &place));
    assert_eq!(cursor.position(), (10 + 1920 - 100, 20 - 200 + 50));
}

#[test]
fn position_does_not_overflow() {
    let mut cursor = CursorInfo::new();
    let place = Placement {
        output: 0,
        left: i32::MAX,
        top: i32::MIN,
        offset_x: i32::MIN,
        offset_y: i32::MAX,
    };
    assert!(cursor.update_position(&report(i32::MAX, i32::MIN, true, 1), &place));
    assert_eq!(
        cursor.position(),
        (
            i32::MAX as i64 + i32::MAX as i64 - i32::MIN as i64,
            i32::MIN as i64 + i32::MIN as i64 - i32::MAX as i64
        )
    );
}

#[test]
fn reserve_grows_with_zero_bytes_and_never_shrinks() {
    let mut cursor = CursorInfo::new();
    cursor.reserve_shape(4);
    assert_eq!(cursor.shape(), &[0u8, 0, 0, 0][..]);
    let info = ShapeInfo { kind: SHAPE_COLOR, width: 1, height: 1, pitch: 4, hot_x: 0, hot_y: 0 };
    cursor.store_shape(&[1, 2, 3, 4], info);
    cursor.reserve_shape(6);
    assert_eq!(cursor.shape(), &[1u8, 2, 3, 4, 0, 0][..]);
    cursor.reserve_shape(2);
    assert_eq!(cursor.shape(), &[1u8, 2, 3, 4, 0, 0][..]);
    cursor.reserve_shape(0);
    assert_eq!(cursor.shape().len(), 6);
}

#[test]
fn stored_shape_overwrites_the_front_only() {
    let mut cursor = CursorInfo::new();
    let first = ShapeInfo { kind: SHAPE_COLOR, width: 2, height: 1, pitch: 8, hot_x: 1, hot_y: 0 };
    cursor.reserve_shape(8);
    cursor.store_shape(&[1, 2, 3, 4, 5, 6, 7, 8], first);
    assert_eq!(cursor.shape_info(), first);
    let second =
        ShapeInfo { kind: SHAPE_MASKED_COLOR, width: 1, height: 1, pitch: 4, hot_x: 0, hot_y: 0 };
    cursor.store_shape(&[9, 9, 9, 9], second);
    assert_eq!(cursor.shape(), &[9u8, 9, 9, 9, 5, 6, 7, 8][..]);
    assert_eq!(cursor.shape_info(), second);
}

#[test]
fn stored_shape_longer_than_the_buffer_grows_it() {
    let mut cursor = CursorInfo::new();
    let info = ShapeInfo { kind: SHAPE_COLOR, width: 1, height: 1, pitch: 4, hot_x: 0, hot_y: 0 };
    cursor.reserve_shape(2);
    cursor.store_shape(&[1, 2, 3, 4, 5], info);
    assert_eq!(cursor.shape(), &[1u8, 2, 3, 4, 5][..]);
}

#[test]
fn storing_a_shape_leaves_the_position() {
    let mut cursor = shown_by_a_at_100();
    let info = ShapeInfo { kind: SHAPE_COLOR, width: 1, height: 1, pitch: 4, hot_x: 0, hot_y: 0 };
    cursor.store_shape(&[1, 2, 3, 4], info);
    assert_eq!(cursor.position(), (5, 6));
    assert!(cursor.visible());
    assert_eq!(cursor.owner(), A);
    assert_eq!(cursor.time_stamp(), 100);
}
