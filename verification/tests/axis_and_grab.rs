use corrosion_input::axis::{
    axis_frame, axis_part, AxisAmount, AxisFrame, AxisPart, AxisSource, AXIS_UNIT, STEP_SCALE,
};
use corrosion_input::event::{scaled, transformed, ABSOLUTE_RANGE};
use corrosion_input::geometry::{saturate, Point, Rect, Size};
use corrosion_input::grab::{
    grab_for, move_target, resize_target, resized_extent, Grab, GrabStartData, ResizeEdges,
    BUTTON_PRIMARY, BUTTON_SECONDARY,
};
use corrosion_input::serial::{Serial, SerialCounter};

#[test]
fn resting_finger_axis_carries_a_stop() {
    let rest = AxisAmount::Continuous { amount: 0, steps: None };
    let part = axis_part(AxisSource::Finger, rest);
    assert_eq!(part, AxisPart { value: None, steps: None, stop: true });
}

#[test]
fn resting_wheel_axis_carries_nothing() {
    let rest = AxisAmount::Continuous { amount: 0, steps: Some(0) };
    for source in [AxisSource::Wheel, AxisSource::Continuous, AxisSource::Other] {
        let part = axis_part(source, rest);
        assert_eq!(part, AxisPart { value: None, steps: None, stop: false });
    }
}

#[test]
fn moving_axis_carries_value_and_steps() {
    let part = axis_part(AxisSource::Wheel, AxisAmount::Continuous { amount: 3840, steps: Some(1) });
    assert_eq!(part, AxisPart { value: Some(3840), steps: Some(1), stop: false });
    let part = axis_part(AxisSource::Finger, AxisAmount::Continuous { amount: -17, steps: None });
    assert_eq!(part, AxisPart { value: Some(-17), steps: None, stop: false });
}

#[test]
fn steps_alone_count_three_units_each() {
    assert_eq!(AXIS_UNIT, 256);
    assert_eq!(STEP_SCALE, 3);
    assert_eq!(AxisAmount::Steps { count: 1 }.amount(), 768);
    assert_eq!(AxisAmount::Steps { count: -2 }.amount(), -1536);
    assert_eq!(AxisAmount::Steps { count: i32::MAX }.amount(), 2147483647i64 * 768);
    assert_eq!(AxisAmount::Steps { count: i32::MIN }.amount(), -2147483648i64 * 768);
    assert_eq!(AxisAmount::Continuous { amount: 5, steps: Some(9) }.amount(), 5);
    let part = axis_part(AxisSource::Wheel, AxisAmount::Steps { count: 2 });
    assert_eq!(part, AxisPart { value: Some(1536), steps: Some(2), stop: false });
    let part = axis_part(AxisSource::Finger, AxisAmount::Steps { count: 0 });
    assert_eq!(part, AxisPart { value: None, steps: None, stop: true });
}

#[test]
fn one_frame_holds_both_axes() {
    let frame = axis_frame(
        77,
        AxisSource::Finger,
        AxisAmount::Continuous { amount: 0, steps: None },
        AxisAmount::Continuous { amount: 512, steps: None },
    );
    assert_eq!(
        frame,
        AxisFrame {
            time: 77,
            source: AxisSource::Finger,
            horizontal: AxisPart { value: None, steps: None, stop: true },
            vertical: AxisPart { value: Some(512), steps: None, stop: false },
        }
    );
    let frame = axis_frame(
        78,
        AxisSource::Wheel,
        AxisAmount::Continuous { amount: 0, steps: None },
        AxisAmount::Steps { count: -1 },
    );
    assert_eq!(frame.horizontal, AxisPart { value: None, steps: None, stop: false });
    assert_eq!(frame.vertical, AxisPart { value: Some(-768), steps: Some(-1), stop: false });
}

#[test]
fn move_target_is_initial_plus_displacement() {
    let start = Point { x: 150, y: 150 };
    let initial = Point { x: 100, y: 100 };
    assert_eq!(move_target(start, initial, Point { x: 150, y: 150 }), Point { x: 100, y: 100 });
    assert_eq!(move_target(start, initial, Point { x: 175, y: 120 }), Point { x: 125, y: 70 });
    assert_eq!(move_target(start, initial, Point { x: -50, y: 900 }), Point { x: -100, y: 850 });
}

#[test]
fn move_target_stays_in_range() {
    let start = Point { x: i32::MIN, y: i32::MAX };
    let initial = Point { x: i32::MAX, y: i32::MIN };
    let far = Point { x: i32::MAX, y: i32::MIN };
    assert_eq!(move_target(start, initial, far), Point { x: i32::MAX, y: i32::MIN });
}

#[test]
fn saturate_clamps_to_the_coordinate_range() {
    assert_eq!(saturate(0), 0);
    assert_eq!(saturate(-5), -5);
    assert_eq!(saturate(2147483647), i32::MAX);
    assert_eq!(saturate(2147483648), i32::MAX);
    assert_eq!(saturate(-2147483649), i32::MIN);
    assert_eq!(saturate(i64::MAX), i32::MAX);
    assert_eq!(saturate(i64::MIN), i32::MIN);
}

#[test]
fn resize_never_goes_under_the_minimum() {
    let initial = Rect::new(10, 20, 300, 200);
    let start = Point { x: 310, y: 220 };
    let min = Size { w: 40, h: 30 };
    let edges = ResizeEdges { top: false, bottom: true, left: false, right: true };
    for delta in [0, -1, -100, -259, -260, -261, -1000, -1_000_000, i32::MIN + 400] {
        let pointer = Point { x: start.x.saturating_add(delta), y: start.y.saturating_add(delta) };
        let r = resize_target(edges, initial, start, pointer, min);
        assert!(r.size.w >= min.w);
        assert!(r.size.h >= min.h);
    }
    let r = resize_target(edges, initial, start, Point { x: -5000, y: -5000 }, min);
    assert_eq!(r, Rect::new(10, 20, 40, 30));
    let all = ResizeEdges::all();
    let r = resize_target(all, initial, start, Point { x: 5000, y: 5000 }, min);
    assert_eq!(r.size, Size { w: 40, h: 30 });
    assert_eq!(r.loc, Point { x: 270, y: 190 });
}

#[test]
fn resize_projects_onto_the_dragged_edges() {
    let initial = Rect::new(10, 20, 300, 200);
    let start = Point { x: 0, y: 0 };
    let min = Size { w: 1, h: 1 };
    let pointer = Point { x: 25, y: -40 };
    let right_bottom = ResizeEdges { top: false, bottom: true, left: false, right: true };
    assert_eq!(resize_target(right_bottom, initial, start, pointer, min), Rect::new(10, 20, 325, 160));
    let left_top = ResizeEdges { top: true, bottom: false, left: true, right: false };
    assert_eq!(resize_target(left_top, initial, start, pointer, min), Rect::new(35, -20, 275, 240));
    let right_only = ResizeEdges { top: false, bottom: false, left: false, right: true };
    assert_eq!(resize_target(right_only, initial, start, pointer, min), Rect::new(10, 20, 325, 200));
    assert_eq!(resize_target(ResizeEdges::none(), initial, start, pointer, min), initial);
    assert_eq!(resize_target(ResizeEdges::all(), initial, start, pointer, min), Rect::new(35, -20, 275, 240));
}

#[test]
fn resized_extent_values() {
    assert_eq!(resized_extent(100, 0, 30, false, true, 10), 130);
    assert_eq!(resized_extent(100, 0, 30, true, false, 10), 70);
    assert_eq!(resized_extent(100, 0, 30, true, true, 10), 70);
    assert_eq!(resized_extent(100, 0, 30, false, false, 10), 100);
    assert_eq!(resized_extent(100, 0, -95, false, true, 10), 10);
    assert_eq!(resized_extent(5, 0, 0, false, false, 10), 10);
    assert_eq!(resized_extent(i32::MAX, i32::MIN, i32::MAX, false, true, 10), i32::MAX);
    assert_eq!(resized_extent(0, i32::MAX, i32::MIN, false, true, -7), -7);
}

#[test]
fn buttons_choose_the_grab() {
    let at = Point { x: 5, y: 6 };
    let rect = Rect::new(1, 2, 30, 40);
    assert_eq!(BUTTON_PRIMARY, 0x110);
    assert_eq!(BUTTON_SECONDARY, 0x111);
    let start = GrabStartData { button: 0x110, location: at, focus: None };
    assert_eq!(
        grab_for(0x110, at, 9, rect),
        Grab::Move { start, window: 9, initial_location: Point { x: 1, y: 2 } }
    );
    let start = GrabStartData { button: 0x111, location: at, focus: None };
    assert_eq!(
        grab_for(0x111, at, 9, rect),
        Grab::Resize { start, window: 9, edges: ResizeEdges::all(), initial_rect: rect }
    );
    assert_eq!(grab_for(0x112, at, 9, rect), Grab::Idle);
    assert!(!Grab::Idle.is_active());
    assert_eq!(Grab::Idle.window(), None);
    assert_eq!(Grab::Idle.button(), None);
    let g = grab_for(0x110, at, 9, rect);
    assert!(g.is_active());
    assert_eq!(g.window(), Some(9));
    assert_eq!(g.button(), Some(0x110));
    assert!(g.ends_on(0x110));
    assert!(!g.ends_on(0x111));
    assert!(!Grab::Idle.ends_on(0x110));
}

#[test]
fn absolute_positions_scale_to_the_output() {
    assert_eq!(ABSOLUTE_RANGE, 65536);
    assert_eq!(scaled(0, 1920), 0);
    assert_eq!(scaled(32768, 1920), 960);
    assert_eq!(scaled(65535, 1920), 1919);
    assert_eq!(scaled(1, 1920), 0);
    assert_eq!(scaled(32768, 0), 0);
    assert_eq!(scaled(32768, -5), 0);
    assert_eq!(scaled(u32::MAX, i32::MAX), (4294967295u64 * 2147483647u64 / 65536) as i64);
    let output = Rect::new(100, -50, 1920, 1080);
    assert_eq!(transformed(output, 32768, 32768), Point { x: 1060, y: 490 });
    assert_eq!(transformed(output, 0, 0), Point { x: 100, y: -50 });
    let far = Rect::new(i32::MAX, i32::MAX, i32::MAX, i32::MAX);
    assert_eq!(transformed(far, u32::MAX, u32::MAX), Point { x: i32::MAX, y: i32::MAX });
}

#[test]
fn rectangles_contain_their_top_left_and_not_their_bottom_right() {
    let r = Rect::new(10, 20, 30, 40);
    assert!(r.contains(Point::new(10, 20)));
    assert!(r.contains(Point::new(39, 59)));
    assert!(!r.contains(Point::new(40, 59)));
    assert!(!r.contains(Point::new(39, 60)));
    assert!(!r.contains(Point::new(9, 20)));
    assert!(!Rect::new(0, 0, 0, 0).contains(Point::new(0, 0)));
    assert!(Rect::new(i32::MAX - 1, 0, i32::MAX, 1).contains(Point::new(i32::MAX, 0)));
    assert_eq!(Size::new(3, 4), Size { w: 3, h: 4 });
}

#[test]
fn serials_count_up() {
    let mut c = SerialCounter::new();
    assert_eq!(c.peek(), Serial { value: 1 });
    assert_eq!(c.next_serial(), Serial { value: 1 });
    assert_eq!(c.next_serial(), Serial { value: 2 });
    assert_eq!(c.peek(), Serial { value: 3 });
    assert!(!c.exhausted());
    let mut c = SerialCounter::starting_at(u64::MAX - 1);
    assert_eq!(c.next_serial(), Serial { value: u64::MAX - 1 });
    assert!(c.exhausted());
}
