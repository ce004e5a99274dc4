use slider::{
    draw, mouse_interaction, position_to_value, rounded_div, style_status, update,
    value_to_handle_offset, Event, Frame, HandleShape, Interaction, Length, Limits, MouseButton,
    Orientation, Point, Published, Quad, Rectangle, Shell, Size, Slider, State, Status,
    StyleStatus, ValueRange,
};

fn wide() -> Rectangle {
    Rectangle { x: 0, y: 0, width: 200, height: 22 }
}

fn tall() -> Rectangle {
    Rectangle { x: 0, y: 0, width: 22, height: 200 }
}

fn percent() -> ValueRange {
    ValueRange { start: 0, end: 100 }
}

fn at(x: i32, y: i32) -> Point {
    Point { x, y }
}

#[test]
fn interior_cursor_selects_value_in_range() {
    let range = ValueRange { start: 0, end: 10 };
    let bounds = Rectangle { x: 0, y: 0, width: 100, height: 22 };
    for x in 1..100 {
        let v = position_to_value(at(x, 5), bounds, range, 5, Orientation::Horizontal).unwrap();
        assert!(v >= 0 && v <= 10);
        assert_eq!(v % 5, 0);
    }
    assert_eq!(position_to_value(at(74, 5), bounds, range, 5, Orientation::Horizontal), Some(5));
    assert_eq!(position_to_value(at(75, 5), bounds, range, 5, Orientation::Horizontal), Some(10));
}

#[test]
fn step_not_dividing_range_stays_in_range() {
    let range = ValueRange { start: 0, end: 10 };
    let bounds = Rectangle { x: 0, y: 0, width: 100, height: 22 };
    let h = Orientation::Horizontal;
    assert_eq!(position_to_value(at(95, 5), bounds, range, 6, h), Some(10));
    assert_eq!(position_to_value(at(40, 5), bounds, range, 6, h), Some(6));
    for x in -5..110 {
        let v = position_to_value(at(x, 5), bounds, range, 6, h).unwrap();
        assert!(v >= 0 && v <= 10);
    }
    let mut s: Slider<u8, u8> = Slider::new(range, 0).step(6);
    let mut state = State::default();
    let mut shell = Shell::new();
    s.on_event(&mut state, Event::ButtonPressed(MouseButton::Left), bounds, at(95, 5), &mut shell);
    assert_eq!(s.value(), 10);
    assert_eq!(shell.messages, vec![Published::Changed(10)]);
}

#[test]
fn horizontal_midpoint_selects_half() {
    assert_eq!(position_to_value(at(100, 3), wide(), percent(), 1, Orientation::Horizontal), Some(50));
    assert_eq!(position_to_value(at(51, 3), wide(), percent(), 1, Orientation::Horizontal), Some(26));
}

#[test]
fn edges_select_range_ends_horizontal() {
    let h = Orientation::Horizontal;
    assert_eq!(position_to_value(at(0, 3), wide(), percent(), 1, h), Some(0));
    assert_eq!(position_to_value(at(-40, 3), wide(), percent(), 1, h), Some(0));
    assert_eq!(position_to_value(at(200, 3), wide(), percent(), 1, h), Some(100));
    assert_eq!(position_to_value(at(900, 3), wide(), percent(), 1, h), Some(100));
}

#[test]
fn edges_select_range_ends_vertical() {
    let v = Orientation::Vertical;
    assert_eq!(position_to_value(at(5, 200), tall(), percent(), 1, v), Some(0));
    assert_eq!(position_to_value(at(5, 260), tall(), percent(), 1, v), Some(0));
    assert_eq!(position_to_value(at(5, 0), tall(), percent(), 1, v), Some(100));
    assert_eq!(position_to_value(at(5, -3), tall(), percent(), 1, v), Some(100));
    assert_eq!(position_to_value(at(5, 50), tall(), percent(), 1, v), Some(75));
}

#[test]
fn same_inputs_give_same_value() {
    let a = position_to_value(at(37, 3), wide(), percent(), 3, Orientation::Horizontal);
    let b = position_to_value(at(37, 3), wide(), percent(), 3, Orientation::Horizontal);
    assert_eq!(a, b);
    assert_eq!(a, Some(18));
}

#[test]
fn halves_round_away_from_zero() {
    let range = ValueRange { start: -100, end: 0 };
    assert_eq!(position_to_value(at(1, 3), wide(), range, 1, Orientation::Horizontal), Some(-99));
    assert_eq!(rounded_div(5, 2), 3);
    assert_eq!(rounded_div(-5, 2), -3);
    assert_eq!(rounded_div(5, -2), -3);
    assert_eq!(rounded_div(7, 3), 2);
    assert_eq!(rounded_div(0, -9), 0);
}

#[test]
fn zero_step_selects_nothing_inside() {
    let h = Orientation::Horizontal;
    assert_eq!(position_to_value(at(100, 3), wide(), percent(), 0, h), None);
    assert_eq!(position_to_value(at(0, 3), wide(), percent(), 0, h), Some(0));
}

#[test]
fn value_beyond_i64_is_not_representable() {
    // A degenerate range (start above end) is not clamped, so a stepped value
    // can fall outside i64.
    let range = ValueRange { start: i64::MAX, end: i64::MIN };
    let bounds = Rectangle { x: 0, y: 0, width: 100, height: 22 };
    let h = Orientation::Horizontal;
    let step = -(1i64 << 62);
    assert_eq!(position_to_value(at(99, 3), bounds, range, step, h), None);
    assert_eq!(position_to_value(at(50, 3), bounds, range, step, h), Some(-1));

    let mut shell: Shell<u8> = Shell::new();
    let mut state = State::new();
    let mut value = 7;
    let status = update(
        Event::ButtonPressed(MouseButton::Left),
        bounds,
        at(99, 3),
        &mut shell,
        &mut state,
        &mut value,
        range,
        step,
        &None,
        h,
    );
    assert_eq!(status, Status::Captured);
    assert!(state.is_dragging);
    assert_eq!(value, 7);
    assert!(shell.messages.is_empty());
}

#[test]
fn overshoot_near_i64_max_is_clamped() {
    let range = ValueRange { start: i64::MAX - 13, end: i64::MAX };
    let bounds = Rectangle { x: 0, y: 0, width: 100, height: 22 };
    let h = Orientation::Horizontal;
    assert_eq!(position_to_value(at(99, 3), bounds, range, 5, h), Some(i64::MAX));
    assert_eq!(position_to_value(at(50, 3), bounds, range, 5, h), Some(i64::MAX - 8));
}

#[test]
fn new_clamps_value_into_range() {
    let s: Slider<u8, u8> = Slider::new(percent(), -5);
    assert_eq!(s.value(), 0);
    let s: Slider<u8, u8> = Slider::new(percent(), 150);
    assert_eq!(s.value(), 100);
    let s: Slider<u8, u8> = Slider::new(percent(), 42);
    assert_eq!(s.value(), 42);
    assert_eq!(s.range(), percent());
    assert_eq!(*s.style_token(), None);
}

#[test]
fn press_then_release_publishes_change_and_release() {
    let mut s: Slider<u8, u8> = Slider::new(percent(), 20).on_release(7);
    let mut state = s.state();
    let mut shell = Shell::new();
    let pressed = s.on_event(&mut state, Event::ButtonPressed(MouseButton::Left), wide(), at(100, 5), &mut shell);
    assert_eq!(pressed, Status::Captured);
    assert!(state.is_dragging);
    let released = s.on_event(&mut state, Event::ButtonReleased(MouseButton::Left), wide(), at(150, 5), &mut shell);
    assert_eq!(released, Status::Captured);
    assert!(!state.is_dragging);
    assert_eq!(shell.messages, vec![Published::Changed(50), Published::Released(7)]);
    assert_eq!(s.value(), 50);
}

#[test]
fn press_at_current_value_publishes_no_change() {
    let mut s: Slider<u8, u8> = Slider::new(percent(), 50).on_release(1);
    let mut state = State::new();
    let mut shell = Shell::new();
    s.on_event(&mut state, Event::FingerPressed, wide(), at(100, 5), &mut shell);
    s.on_event(&mut state, Event::FingerLifted, wide(), at(100, 5), &mut shell);
    assert_eq!(shell.messages, vec![Published::Released(1)]);
}

#[test]
fn release_without_release_message_publishes_nothing() {
    let mut s: Slider<u8, u8> = Slider::new(percent(), 50);
    let mut state = State::new();
    let mut shell = Shell::new();
    s.on_event(&mut state, Event::ButtonPressed(MouseButton::Left), wide(), at(100, 5), &mut shell);
    let status = s.on_event(&mut state, Event::FingerLost, wide(), at(100, 5), &mut shell);
    assert_eq!(status, Status::Captured);
    assert!(shell.messages.is_empty());
}

#[test]
fn press_outside_is_ignored() {
    let mut s: Slider<u8, u8> = Slider::new(percent(), 20).on_release(7);
    let mut state = State::new();
    let mut shell = Shell::new();
    let status = s.on_event(&mut state, Event::ButtonPressed(MouseButton::Left), wide(), at(100, 40), &mut shell);
    assert_eq!(status, Status::Ignored);
    assert!(!state.is_dragging);
    assert_eq!(s.value(), 20);
    assert!(shell.messages.is_empty());
}

#[test]
fn events_without_drag_are_ignored() {
    let mut s: Slider<u8, u8> = Slider::new(percent(), 20);
    let mut state = State::new();
    let mut shell = Shell::new();
    let events = [
        Event::CursorMoved,
        Event::FingerMoved,
        Event::ButtonReleased(MouseButton::Left),
        Event::FingerLifted,
        Event::ButtonPressed(MouseButton::Right),
        Event::Other,
    ];
    for e in events {
        assert_eq!(s.on_event(&mut state, e, wide(), at(100, 5), &mut shell), Status::Ignored);
    }
    assert_eq!(s.value(), 20);
    assert!(shell.messages.is_empty());
}

#[test]
fn drag_sequence_ends_at_half() {
    let mut s: Slider<u8, u8> = Slider::new(percent(), 20).step(1).on_release(9);
    let mut state = State::new();
    let mut shell = Shell::new();
    assert_eq!(s.on_event(&mut state, Event::ButtonPressed(MouseButton::Left), wide(), at(0, 5), &mut shell), Status::Captured);
    assert_eq!(s.on_event(&mut state, Event::CursorMoved, wide(), at(100, 5), &mut shell), Status::Captured);
    assert_eq!(s.on_event(&mut state, Event::ButtonReleased(MouseButton::Left), wide(), at(100, 5), &mut shell), Status::Captured);
    assert_eq!(
        shell.messages,
        vec![Published::Changed(0), Published::Changed(50), Published::Released(9)]
    );
    assert_eq!(s.value(), 50);
}

#[test]
fn drag_may_leave_bounds() {
    let mut s: Slider<u8, u8> = Slider::new(percent(), 20);
    let mut state = State::new();
    let mut shell = Shell::new();
    s.on_event(&mut state, Event::FingerPressed, wide(), at(20, 5), &mut shell);
    s.on_event(&mut state, Event::FingerMoved, wide(), at(500, 90), &mut shell);
    assert_eq!(s.value(), 100);
    assert_eq!(shell.messages, vec![Published::Changed(10), Published::Changed(100)]);
}

#[test]
fn single_point_range() {
    let range = ValueRange { start: 5, end: 5 };
    for x in [-10, 0, 1, 100, 199, 200, 300] {
        assert_eq!(position_to_value(at(x, 3), wide(), range, 1, Orientation::Horizontal), Some(5));
        assert_eq!(value_to_handle_offset(5, range, wide(), 20, Orientation::Horizontal), 0);
    }
    for y in [-10, 0, 1, 100, 199, 200, 300] {
        assert_eq!(position_to_value(at(3, y), tall(), range, 1, Orientation::Vertical), Some(5));
        assert_eq!(value_to_handle_offset(5, range, tall(), 20, Orientation::Vertical), 0);
    }
}

#[test]
fn inverted_range_puts_handle_at_zero() {
    let range = ValueRange { start: 10, end: 2 };
    assert_eq!(value_to_handle_offset(7, range, wide(), 20, Orientation::Horizontal), 0);
}

#[test]
fn handle_offset_horizontal() {
    assert_eq!(value_to_handle_offset(25, percent(), wide(), 20, Orientation::Horizontal), 40);
    assert_eq!(value_to_handle_offset(0, percent(), wide(), 20, Orientation::Horizontal), -10);
    assert_eq!(value_to_handle_offset(100, percent(), wide(), 20, Orientation::Horizontal), 190);
}

#[test]
fn handle_offset_vertical() {
    assert_eq!(value_to_handle_offset(25, percent(), tall(), 20, Orientation::Vertical), 140);
    assert_eq!(value_to_handle_offset(100, percent(), tall(), 20, Orientation::Vertical), -10);
}

#[test]
fn cursor_feedback() {
    let dragging = State { is_dragging: true };
    let idle = State::new();
    assert_eq!(mouse_interaction(wide(), at(500, 500), &dragging), Interaction::Grabbing);
    assert_eq!(mouse_interaction(wide(), at(200, 22), &idle), Interaction::Grab);
    assert_eq!(mouse_interaction(wide(), at(201, 22), &idle), Interaction::Idle);
    let s: Slider<u8, u8> = Slider::new(percent(), 0);
    assert_eq!(s.mouse_interaction(&idle, wide(), at(0, 0)), Interaction::Grab);
}

#[test]
fn style_precedence() {
    let dragging = State { is_dragging: true };
    let idle = State::new();
    assert_eq!(style_status(wide(), at(10, 10), &dragging), StyleStatus::Dragging);
    assert_eq!(style_status(wide(), at(10, 10), &idle), StyleStatus::Hovered);
    assert_eq!(style_status(wide(), at(10, 30), &idle), StyleStatus::Active);
}

#[test]
fn draw_horizontal_circle() {
    let bounds = Rectangle { x: 10, y: 20, width: 200, height: 22 };
    let frame = draw(bounds, 25, percent(), HandleShape::Circle { radius: 7 }, Orientation::Horizontal);
    assert_eq!(
        frame,
        Frame {
            rail_start: Quad { x: 10, y: 30, width: 200, height: 2, border_radius: 0 },
            rail_end: Quad { x: 10, y: 32, width: 200, height: 2, border_radius: 0 },
            handle: Quad { x: 53, y: 24, width: 14, height: 14, border_radius: 7 },
        }
    );
}

#[test]
fn draw_vertical_rectangle() {
    let bounds = Rectangle { x: 4, y: 0, width: 22, height: 200 };
    let shape = HandleShape::Rectangle { width: 10, border_radius: 2 };
    let s: Slider<u8, u8> = Slider::new(percent(), 50).orientation(Orientation::Vertical);
    let frame = s.draw(bounds, shape);
    assert_eq!(frame.rail_start, Quad { x: 14, y: 0, width: 2, height: 200, border_radius: 0 });
    assert_eq!(frame.rail_end, Quad { x: 16, y: 0, width: 2, height: 200, border_radius: 0 });
    assert_eq!(frame.handle, Quad { x: 4, y: 95, width: 22, height: 10, border_radius: 2 });
}

#[test]
fn layout_follows_orientation() {
    let limits = Limits { min: Size { width: 0, height: 0 }, max: Size { width: 300, height: 100 } };
    let h: Slider<u8, u8> = Slider::new(percent(), 0);
    assert_eq!(h.preferred_width(), Length::Fill);
    assert_eq!(h.preferred_height(), Length::Units(22));
    assert_eq!(h.layout(&limits), Size { width: 300, height: 22 });

    let v: Slider<u8, u8> = Slider::new(percent(), 0)
        .orientation(Orientation::Vertical)
        .height(Length::Units(50));
    assert_eq!(v.preferred_width(), Length::Units(22));
    assert_eq!(v.preferred_height(), Length::Units(50));
    assert_eq!(v.layout(&limits), Size { width: 22, height: 50 });

    let w: Slider<u8, u8> = Slider::new(percent(), 0).width(Length::Units(900)).height(Length::Shrink);
    assert_eq!(w.preferred_width(), Length::Units(900));
    assert_eq!(w.preferred_height(), Length::Shrink);
    assert_eq!(w.layout(&limits), Size { width: 300, height: 0 });

    let tight = Limits { min: Size { width: 40, height: 30 }, max: Size { width: 300, height: 100 } };
    assert_eq!(h.layout(&tight), Size { width: 300, height: 30 });
}

#[test]
fn cross_axis_hint_keeps_set_size() {
    let v: Slider<u8, u8> = Slider::new(percent(), 0)
        .orientation(Orientation::Vertical)
        .width(Length::Units(40));
    assert_eq!(v.preferred_width(), Length::Units(40));
    assert_eq!(v.preferred_height(), Length::Fill);
    let h: Slider<u8, u8> = Slider::new(percent(), 0).height(Length::Units(30));
    assert_eq!(h.preferred_height(), Length::Units(30));
    assert_eq!(h.preferred_width(), Length::Fill);
}

#[test]
fn orientation_defaults() {
    assert_eq!(Orientation::default(), Orientation::Horizontal);
    assert_eq!(Orientation::Horizontal.default_height(), Length::Units(22));
    assert_eq!(Orientation::Horizontal.default_width(), Length::Fill);
    assert_eq!(Orientation::Vertical.default_height(), Length::Fill);
    assert_eq!(Orientation::Vertical.default_width(), Length::Units(22));
}

#[test]
fn rectangle_contains_edges() {
    let r = Rectangle { x: 0, y: 0, width: 10, height: 10 };
    assert!(r.contains(at(0, 0)));
    assert!(r.contains(at(10, 10)));
    assert!(!r.contains(at(11, 10)));
    assert!(!r.contains(at(-1, 5)));
}

#[test]
fn new_state_is_idle() {
    assert!(!State::new().is_dragging);
    assert_eq!(State::default(), State::new());
}

#[test]
fn style_token_is_kept() {
    let s: Slider<u8, u32> = Slider::new(percent(), 0).style(3);
    assert_eq!(*s.style_token(), Some(3));
}
