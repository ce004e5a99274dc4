//! The slider widget: its configuration, its press / drag / release state
//! machine, its layout, the geometry it draws and the cursor it asks for.
use vstd::prelude::*;

use crate::geometry::{resolve_axis, Length, DEFAULT_THICKNESS, Limits, Orientation, Point, Rectangle, Size};
use crate::mapping::{
    handle_offset, lemma_selected_value_in_range, position_to_value, position_value, round_div, rounded_div, value_to_handle_offset,
    ValueRange,
};

verus! {

/// The state a slider keeps between events: whether a drag is under way.
#[derive(Clone, Copy, Debug, PartialEq, Eq, Structural, Default)]
pub struct State {
    pub is_dragging: bool,
}

impl State {
    /// The state of a slider that is not being dragged.
    pub fn new() -> (r: State)
        ensures
            !r.is_dragging,
    {
        State { is_dragging: false }
    }
}

/// A mouse button.
#[derive(Clone, Copy, Debug, PartialEq, Eq, Structural)]
pub enum MouseButton {
    Left,
    Right,
    Middle,
    Other(u16),
}

/// An input event, as far as a slider tells events apart. The cursor position
/// that goes with it is handed over separately.
#[derive(Clone, Copy, Debug, PartialEq, Eq, Structural)]
pub enum Event {
    ButtonPressed(MouseButton),
    ButtonReleased(MouseButton),
    CursorMoved,
    FingerPressed,
    FingerMoved,
    FingerLifted,
    FingerLost,
    /// Any other event: keyboard, window, wheel.
    Other,
}

/// Whether a widget consumed an event.
#[derive(Clone, Copy, Debug, PartialEq, Eq, Structural)]
pub enum Status {
    Ignored,
    Captured,
}

/// A message a slider hands to the application.
#[derive(Clone, Copy, Debug, PartialEq, Eq, Structural)]
pub enum Published<M> {
    /// The value moved to this one.
    Changed(i64),
    /// The drag ended; carries the configured release message.
    Released(M),
}

/// The channel through which a widget publishes messages, in order.
pub struct Shell<M> {
    pub messages: Vec<Published<M>>,
}

impl<M> Shell<M> {
    /// A shell with nothing published yet.
    pub fn new() -> (r: Shell<M>)
        ensures
            r.messages@ == Seq::<Published<M>>::empty(),
    {
        Shell { messages: Vec::new() }
    }

    /// Appends a message.
    pub fn publish(&mut self, message: Published<M>)
        ensures
            final(self).messages@ == old(self).messages@.push(message),
    {
        self.messages.push(message);
    }
}

/// A press of the primary button or of a finger.
pub open spec fn is_press(e: Event) -> bool {
    e == Event::ButtonPressed(MouseButton::Left) || e == Event::FingerPressed
}

/// A release of the primary button, or a finger lifted or lost.
pub open spec fn is_release(e: Event) -> bool {
    e == Event::ButtonReleased(MouseButton::Left) || e == Event::FingerLifted || e
        == Event::FingerLost
}

/// The cursor or a finger moved.
pub open spec fn is_move(e: Event) -> bool {
    e == Event::CursorMoved || e == Event::FingerMoved
}

/// What a slider does with an event.
pub enum Reaction {
    /// A press inside the bounds: set the value under the cursor, start dragging.
    Grab,
    /// A move while dragging: set the value under the cursor.
    Drag,
    /// A release while dragging: publish the release message, stop dragging.
    Drop,
    /// Anything else: nothing changes.
    Pass,
}

/// The reaction to `e`, given whether a drag is under way and whether the
/// cursor lies inside the slider's bounds.
pub open spec fn reaction(e: Event, dragging: bool, inside: bool) -> Reaction {
    if is_press(e) && inside {
        Reaction::Grab
    } else if is_release(e) && dragging {
        Reaction::Drop
    } else if is_move(e) && dragging {
        Reaction::Drag
    } else {
        Reaction::Pass
    }
}

/// The value after the cursor selected `selected`: an unrepresentable selection
/// leaves the value as it was.
pub open spec fn value_after(value: i64, selected: Option<i64>) -> i64 {
    match selected {
        Some(v) => v,
        None => value,
    }
}

/// What setting the value publishes: a change message when the selection is
/// a value other than the current one, nothing otherwise.
pub open spec fn change_messages<M>(value: i64, selected: Option<i64>) -> Seq<Published<M>> {
    match selected {
        Some(v) => if v != value {
            seq![Published::Changed(v)]
        } else {
            Seq::empty()
        },
        None => Seq::empty(),
    }
}

/// What a release publishes: the release message, if one is configured.
pub open spec fn release_messages<M>(on_release: Option<M>) -> Seq<Published<M>> {
    match on_release {
        Some(m) => seq![Published::Released(m)],
        None => Seq::empty(),
    }
}

fn change<M>(
    cursor: Point,
    bounds: Rectangle,
    shell: &mut Shell<M>,
    value: &mut i64,
    range: ValueRange,
    step: i64,
    orientation: Orientation,
)
    ensures
        *final(value) == value_after(
            *old(value),
            position_value(cursor, bounds, range, step, orientation),
        ),
        final(shell).messages@ == old(shell).messages@ + change_messages::<M>(
            *old(value),
            position_value(cursor, bounds, range, step, orientation),
        ),
{
    match position_to_value(cursor, bounds, range, step, orientation) {
        Some(v) => {
            if v != *value {
                shell.publish(Published::Changed(v));
                *value = v;
            } else {
                assert(old(shell).messages@ + Seq::<Published<M>>::empty() =~= old(
                    shell,
                ).messages@);
            }
        },
        None => {
            assert(old(shell).messages@ + Seq::<Published<M>>::empty() =~= old(
                shell,
            ).messages@);
        },
    }
}

/// The outcome of one event: the status returned, whether a drag is under way
/// afterwards, the value afterwards, and the messages published, in order.
pub open spec fn next<M>(
    event: Event,
    bounds: Rectangle,
    cursor: Point,
    dragging: bool,
    value: i64,
    range: ValueRange,
    step: i64,
    on_release: Option<M>,
    orientation: Orientation,
) -> (Status, bool, i64, Seq<Published<M>>) {
    let selected = position_value(cursor, bounds, range, step, orientation);
    match reaction(event, dragging, bounds.holds(cursor)) {
        Reaction::Grab => (
            Status::Captured,
            true,
            value_after(value, selected),
            change_messages(value, selected),
        ),
        Reaction::Drag => (
            Status::Captured,
            true,
            value_after(value, selected),
            change_messages(value, selected),
        ),
        Reaction::Drop => (Status::Captured, false, value, release_messages(on_release)),
        Reaction::Pass => (Status::Ignored, dragging, value, Seq::empty()),
    }
}

/// Processes an event and updates the slider's state and value accordingly,
/// publishing what the event calls for.
pub fn update<M: Copy>(
    event: Event,
    bounds: Rectangle,
    cursor: Point,
    shell: &mut Shell<M>,
    state: &mut State,
    value: &mut i64,
    range: ValueRange,
    step: i64,
    on_release: &Option<M>,
    orientation: Orientation,
) -> (r: Status)
    ensures
        ({
            let (status, dragging, v, published) = next(
                event,
                bounds,
                cursor,
                old(state).is_dragging,
                *old(value),
                range,
                step,
                *on_release,
                orientation,
            );
            r == status && final(state).is_dragging == dragging && *final(value) == v
                && final(shell).messages@ == old(shell).messages@ + published
        }),
        range.start <= range.end && range.start <= *old(value) <= range.end ==> range.start
            <= *final(value) <= range.end,
{
    proof {
        if range.start <= range.end {
            lemma_selected_value_in_range(cursor, bounds, range, step, orientation);
        }
    }
    let is_dragging = state.is_dragging;
    let pressed = match event {
        Event::ButtonPressed(MouseButton::Left) | Event::FingerPressed => true,
        _ => false,
    };
    let released = match event {
        Event::ButtonReleased(MouseButton::Left) | Event::FingerLifted | Event::FingerLost => true,
        _ => false,
    };
    let moved = match event {
        Event::CursorMoved | Event::FingerMoved => true,
        _ => false,
    };
    if pressed && bounds.contains(cursor) {
        change(cursor, bounds, shell, value, range, step, orientation);
        state.is_dragging = true;
        return Status::Captured;
    }
    if released && is_dragging {
        match on_release {
            Some(m) => shell.publish(Published::Released(*m)),
            None => {
                assert(old(shell).messages@ + Seq::<Published<M>>::empty() =~= old(
                    shell,
                ).messages@);
            },
        }
        state.is_dragging = false;
        return Status::Captured;
    }
    if moved && is_dragging {
        change(cursor, bounds, shell, value, range, step, orientation);
        return Status::Captured;
    }
    Status::Ignored
}

/// The cursor a widget asks the windowing layer for.
#[derive(Clone, Copy, Debug, PartialEq, Eq, Structural)]
pub enum Interaction {
    Idle,
    Grab,
    Grabbing,
}

/// The cursor over a slider: grabbing while dragging, a grab hint while
/// hovering its bounds, the idle cursor otherwise.
pub fn mouse_interaction(bounds: Rectangle, cursor: Point, state: &State) -> (r: Interaction)
    ensures
        r == (if state.is_dragging {
            Interaction::Grabbing
        } else if bounds.holds(cursor) {
            Interaction::Grab
        } else {
            Interaction::Idle
        }),
{
    let is_mouse_over = bounds.contains(cursor);
    if state.is_dragging {
        Interaction::Grabbing
    } else if is_mouse_over {
        Interaction::Grab
    } else {
        Interaction::Idle
    }
}

/// Which appearance of the style a slider is drawn with.
#[derive(Clone, Copy, Debug, PartialEq, Eq, Structural)]
pub enum StyleStatus {
    Active,
    Hovered,
    Dragging,
}

/// The appearance to draw with: dragging takes precedence over hovering.
pub fn style_status(bounds: Rectangle, cursor: Point, state: &State) -> (r: StyleStatus)
    ensures
        r == (if state.is_dragging {
            StyleStatus::Dragging
        } else if bounds.holds(cursor) {
            StyleStatus::Hovered
        } else {
            StyleStatus::Active
        }),
{
    if state.is_dragging {
        StyleStatus::Dragging
    } else if bounds.contains(cursor) {
        StyleStatus::Hovered
    } else {
        StyleStatus::Active
    }
}

/// The shape of a slider's handle, in pixels.
#[derive(Clone, Copy, Debug, PartialEq, Eq, Structural)]
pub enum HandleShape {
    Circle { radius: u16 },
    Rectangle { width: u16, border_radius: u16 },
}

/// A filled box to draw, with rounded corners.
#[derive(Clone, Copy, Debug, PartialEq, Eq, Structural)]
pub struct Quad {
    pub x: i128,
    pub y: i128,
    pub width: i128,
    pub height: i128,
    pub border_radius: i128,
}

/// What a slider draws, in order: the two bands of the rail, then the handle
/// on top.
#[derive(Clone, Copy, Debug, PartialEq, Eq, Structural)]
pub struct Frame {
    pub rail_start: Quad,
    pub rail_end: Quad,
    pub handle: Quad,
}

/// The rail's centre line: the middle of the cross axis, rounded to a pixel.
pub open spec fn rail_line(b: Rectangle, o: Orientation) -> int {
    match o {
        Orientation::Horizontal => b.y + round_div(b.height as int, 2),
        Orientation::Vertical => b.x + round_div(b.width as int, 2),
    }
}

/// The handle's extent along the value axis, across it, and its corner radius.
pub open spec fn handle_extent(shape: HandleShape, b: Rectangle, o: Orientation) -> (int, int, int) {
    match shape {
        HandleShape::Circle { radius } => (2 * radius, 2 * radius, radius as int),
        HandleShape::Rectangle { width, border_radius } => (
            width as int,
            match o {
                Orientation::Horizontal => b.height as int,
                Orientation::Vertical => b.width as int,
            },
            border_radius as int,
        ),
    }
}

/// A band of the rail, two pixels thick, along the whole value axis, its near
/// side at `at` on the cross axis.
pub open spec fn rail_band(b: Rectangle, o: Orientation, at: int) -> Quad {
    match o {
        Orientation::Horizontal => Quad {
            x: b.x as i128,
            y: at as i128,
            width: b.width as i128,
            height: 2,
            border_radius: 0,
        },
        Orientation::Vertical => Quad {
            x: at as i128,
            y: b.y as i128,
            width: 2,
            height: b.height as i128,
            border_radius: 0,
        },
    }
}

/// The frame of a slider showing `value` in `bounds`: the rail's two bands
/// one pixel before and after its centre line, and the handle at its offset
/// along the value axis, centred on the rail across it.
pub open spec fn frame_of(
    b: Rectangle,
    value: i64,
    range: ValueRange,
    shape: HandleShape,
    o: Orientation,
) -> Frame {
    let rail = rail_line(b, o);
    let (along, across, radius) = handle_extent(shape, b, o);
    let offset = handle_offset(value, range, b, along as i32, o);
    let near = rail - round_div(across, 2);
    Frame {
        rail_start: rail_band(b, o, rail - 1),
        rail_end: rail_band(b, o, rail + 1),
        handle: match o {
            Orientation::Horizontal => Quad {
                x: (b.x + offset) as i128,
                y: near as i128,
                width: along as i128,
                height: across as i128,
                border_radius: radius as i128,
            },
            Orientation::Vertical => Quad {
                x: near as i128,
                y: (b.y + offset) as i128,
                width: across as i128,
                height: along as i128,
                border_radius: radius as i128,
            },
        },
    }
}

fn band(bounds: Rectangle, orientation: Orientation, at: i128) -> (r: Quad)
    ensures
        r == rail_band(bounds, orientation, at as int),
{
    match orientation {
        Orientation::Horizontal => Quad {
            x: bounds.x as i128,
            y: at,
            width: bounds.width as i128,
            height: 2,
            border_radius: 0,
        },
        Orientation::Vertical => Quad {
            x: at,
            y: bounds.y as i128,
            width: 2,
            height: bounds.height as i128,
            border_radius: 0,
        },
    }
}

/// The geometry of a slider showing `value`, drawn with a handle of `shape`.
pub fn draw(
    bounds: Rectangle,
    value: i64,
    range: ValueRange,
    shape: HandleShape,
    orientation: Orientation,
) -> (r: Frame)
    ensures
        r == frame_of(bounds, value, range, shape, orientation),
{
    let rail: i128 = match orientation {
        Orientation::Horizontal => bounds.y as i128 + rounded_div(bounds.height as i128, 2),
        Orientation::Vertical => bounds.x as i128 + rounded_div(bounds.width as i128, 2),
    };
    let (along, across, radius): (i128, i128, i128) = match shape {
        HandleShape::Circle { radius } => (2 * radius as i128, 2 * radius as i128, radius as i128),
        HandleShape::Rectangle { width, border_radius } => (
            width as i128,
            match orientation {
                Orientation::Horizontal => bounds.height as i128,
                Orientation::Vertical => bounds.width as i128,
            },
            border_radius as i128,
        ),
    };
    let offset = value_to_handle_offset(value, range, bounds, along as i32, orientation);
    let near = rail - rounded_div(across, 2);
    let handle = match orientation {
        Orientation::Horizontal => Quad {
            x: bounds.x as i128 + offset,
            y: near,
            width: along,
            height: across,
            border_radius: radius,
        },
        Orientation::Vertical => Quad {
            x: near,
            y: bounds.y as i128 + offset,
            width: across,
            height: along,
            border_radius: radius,
        },
    };
    Frame {
        rail_start: band(bounds, orientation, rail - 1),
        rail_end: band(bounds, orientation, rail + 1),
        handle,
    }
}

/// A bar and a handle that select one value from an inclusive range.
///
/// The value moves in whole steps from the range's start (one unit unless set
/// otherwise). Change messages carry the new value; a release message, when
/// one is set, is published when a drag ends. `S` is the style token that the
/// theme resolves into colours and a handle shape; `None` stands for the
/// theme's default.
pub struct Slider<M, S> {
    range: ValueRange,
    step: i64,
    value: i64,
    on_release: Option<M>,
    width: Option<Length>,
    height: Option<Length>,
    orientation: Orientation,
    style: Option<S>,
}

/// `value` clamped into `start..=end`: raised to the start first, then
/// lowered to the end.
pub open spec fn clamp_into(value: i64, range: ValueRange) -> i64 {
    let raised = if value >= range.start { value } else { range.start };
    if raised <= range.end { raised } else { range.end }
}

impl<M, S> Slider<M, S> {
    /// The range of values.
    pub closed spec fn range_spec(&self) -> ValueRange {
        self.range
    }

    /// The step size.
    pub closed spec fn step_spec(&self) -> i64 {
        self.step
    }

    /// The current value.
    pub closed spec fn value_spec(&self) -> i64 {
        self.value
    }

    /// The message published when a drag ends, if any.
    pub closed spec fn on_release_spec(&self) -> Option<M> {
        self.on_release
    }

    /// The width set for the slider, if any.
    pub closed spec fn width_spec(&self) -> Option<Length> {
        self.width
    }

    /// The height set for the slider, if any.
    pub closed spec fn height_spec(&self) -> Option<Length> {
        self.height
    }

    /// The orientation.
    pub closed spec fn orientation_spec(&self) -> Orientation {
        self.orientation
    }

    /// The style token, `None` for the theme's default.
    pub closed spec fn style_spec(&self) -> Option<S> {
        self.style
    }

    /// A horizontal slider over `range` showing `value` clamped into the
    /// range, with a step of one, no release message, no size override and the
    /// default style.
    pub fn new(range: ValueRange, value: i64) -> (r: Self)
        ensures
            r.range_spec() == range,
            r.value_spec() == clamp_into(value, range),
            r.step_spec() == 1,
            r.on_release_spec() == None::<M>,
            r.width_spec() == None::<Length>,
            r.height_spec() == None::<Length>,
            r.orientation_spec() == Orientation::Horizontal,
            r.style_spec() == None::<S>,
    {
        let value = if value >= range.start { value } else { range.start };
        let value = if value <= range.end { value } else { range.end };
        Slider {
            range,
            step: 1,
            value,
            on_release: None,
            width: None,
            height: None,
            orientation: Orientation::Horizontal,
            style: None,
        }
    }
}

impl<M, S> Slider<M, S> {
    /// Sets the message published when a drag ends.
    pub fn on_release(self, on_release: M) -> (r: Self)
        ensures
            r.on_release_spec() == Some(on_release),
            r.range_spec() == self.range_spec(),
            r.value_spec() == self.value_spec(),
            r.step_spec() == self.step_spec(),
            r.width_spec() == self.width_spec(),
            r.height_spec() == self.height_spec(),
            r.orientation_spec() == self.orientation_spec(),
            r.style_spec() == self.style_spec(),
    {
        let mut slider = self;
        slider.on_release = Some(on_release);
        slider
    }

    /// Sets the width the slider asks for.
    pub fn width(self, width: Length) -> (r: Self)
        ensures
            r.width_spec() == Some(width),
            r.range_spec() == self.range_spec(),
            r.value_spec() == self.value_spec(),
            r.step_spec() == self.step_spec(),
            r.on_release_spec() == self.on_release_spec(),
            r.height_spec() == self.height_spec(),
            r.orientation_spec() == self.orientation_spec(),
            r.style_spec() == self.style_spec(),
    {
        let mut slider = self;
        slider.width = Some(width);
        slider
    }

    /// Sets the height the slider asks for.
    pub fn height(self, height: Length) -> (r: Self)
        ensures
            r.height_spec() == Some(height),
            r.range_spec() == self.range_spec(),
            r.value_spec() == self.value_spec(),
            r.step_spec() == self.step_spec(),
            r.on_release_spec() == self.on_release_spec(),
            r.width_spec() == self.width_spec(),
            r.orientation_spec() == self.orientation_spec(),
            r.style_spec() == self.style_spec(),
    {
        let mut slider = self;
        slider.height = Some(height);
        slider
    }

    /// Sets the style token.
    pub fn style(self, style: S) -> (r: Self)
        ensures
            r.style_spec() == Some(style),
            r.range_spec() == self.range_spec(),
            r.value_spec() == self.value_spec(),
            r.step_spec() == self.step_spec(),
            r.on_release_spec() == self.on_release_spec(),
            r.width_spec() == self.width_spec(),
            r.height_spec() == self.height_spec(),
            r.orientation_spec() == self.orientation_spec(),
    {
        let mut slider = self;
        slider.style = Some(style);
        slider
    }

    /// Sets the step size.
    pub fn step(self, step: i64) -> (r: Self)
        ensures
            r.step_spec() == step,
            r.range_spec() == self.range_spec(),
            r.value_spec() == self.value_spec(),
            r.on_release_spec() == self.on_release_spec(),
            r.width_spec() == self.width_spec(),
            r.height_spec() == self.height_spec(),
            r.orientation_spec() == self.orientation_spec(),
            r.style_spec() == self.style_spec(),
    {
        let mut slider = self;
        slider.step = step;
        slider
    }

    /// Sets the orientation.
    pub fn orientation(self, orientation: Orientation) -> (r: Self)
        ensures
            r.orientation_spec() == orientation,
            r.range_spec() == self.range_spec(),
            r.value_spec() == self.value_spec(),
            r.step_spec() == self.step_spec(),
            r.on_release_spec() == self.on_release_spec(),
            r.width_spec() == self.width_spec(),
            r.height_spec() == self.height_spec(),
            r.style_spec() == self.style_spec(),
    {
        let mut slider = self;
        slider.orientation = orientation;
        slider
    }

    /// The current value.
    pub fn value(&self) -> (r: i64)
        ensures
            r == self.value_spec(),
    {
        self.value
    }

    /// The range of values.
    pub fn range(&self) -> (r: ValueRange)
        ensures
            r == self.range_spec(),
    {
        self.range
    }

    /// The style token, `None` for the theme's default.
    pub fn style_token(&self) -> (r: &Option<S>)
        ensures
            *r == self.style_spec(),
    {
        &self.style
    }

    /// The state a new instance of the slider starts with.
    pub fn state(&self) -> (r: State)
        ensures
            !r.is_dragging,
    {
        State::new()
    }

    /// The width the slider asks of its parent: the set width, or else all the
    /// space when horizontal and the default thickness when vertical.
    pub fn preferred_width(&self) -> (r: Length)
        ensures
            r == (match self.orientation_spec() {
                Orientation::Horizontal => match self.width_spec() {
                    Some(w) => w,
                    None => Length::Fill,
                },
                Orientation::Vertical => match self.width_spec() {
                    Some(w) => w,
                    None => Length::Units(DEFAULT_THICKNESS),
                },
            }),
    {
        match self.orientation {
            Orientation::Horizontal => match self.width {
                Some(w) => w,
                None => Length::Fill,
            },
            Orientation::Vertical => match self.width {
                Some(w) => w,
                None => Length::Units(DEFAULT_THICKNESS),
            },
        }
    }

    /// The height the slider asks of its parent: the set height, or else the
    /// default thickness when horizontal and all the space when vertical.
    pub fn preferred_height(&self) -> (r: Length)
        ensures
            r == (match self.orientation_spec() {
                Orientation::Horizontal => match self.height_spec() {
                    Some(h) => h,
                    None => Length::Units(DEFAULT_THICKNESS),
                },
                Orientation::Vertical => match self.height_spec() {
                    Some(h) => h,
                    None => Length::Fill,
                },
            }),
    {
        match self.orientation {
            Orientation::Horizontal => match self.height {
                Some(h) => h,
                None => Length::Units(DEFAULT_THICKNESS),
            },
            Orientation::Vertical => match self.height {
                Some(h) => h,
                None => Length::Fill,
            },
        }
    }

    /// The size the slider takes within `limits`: the set width and height, or
    /// else the orientation's defaults, resolved against the limits.
    pub fn layout(&self, limits: &Limits) -> (r: Size)
        ensures
            r.width == resolve_axis(
                match self.width_spec() {
                    Some(w) => w,
                    None => self.orientation_spec().default_width_spec(),
                },
                limits.min.width,
                limits.max.width,
            ),
            r.height == resolve_axis(
                match self.height_spec() {
                    Some(h) => h,
                    None => self.orientation_spec().default_height_spec(),
                },
                limits.min.height,
                limits.max.height,
            ),
    {
        let width = match self.width {
            Some(w) => w,
            None => self.orientation.default_width(),
        };
        let height = match self.height {
            Some(h) => h,
            None => self.orientation.default_height(),
        };
        limits.resolve(width, height)
    }

    /// The geometry the slider draws in `bounds` with a handle of `shape`.
    pub fn draw(&self, bounds: Rectangle, shape: HandleShape) -> (r: Frame)
        ensures
            r == frame_of(
                bounds,
                self.value_spec(),
                self.range_spec(),
                shape,
                self.orientation_spec(),
            ),
    {
        draw(bounds, self.value, self.range, shape, self.orientation)
    }

    /// The cursor over the slider.
    pub fn mouse_interaction(&self, state: &State, bounds: Rectangle, cursor: Point) -> (r:
        Interaction)
        ensures
            r == (if state.is_dragging {
                Interaction::Grabbing
            } else if bounds.holds(cursor) {
                Interaction::Grab
            } else {
                Interaction::Idle
            }),
    {
        mouse_interaction(bounds, cursor, state)
    }
}

impl<M: Copy, S> Slider<M, S> {
    /// Handles an event for the slider laid out in `bounds`, with its state
    /// kept in `state`: the value moves as `update` says, the configuration
    /// stays.
    pub fn on_event(
        &mut self,
        state: &mut State,
        event: Event,
        bounds: Rectangle,
        cursor: Point,
        shell: &mut Shell<M>,
    ) -> (r: Status)
        ensures
            ({
                let (status, dragging, v, published) = next(
                    event,
                    bounds,
                    cursor,
                    old(state).is_dragging,
                    old(self).value_spec(),
                    old(self).range_spec(),
                    old(self).step_spec(),
                    old(self).on_release_spec(),
                    old(self).orientation_spec(),
                );
                r == status && final(state).is_dragging == dragging && final(self).value_spec()
                    == v && final(shell).messages@ == old(shell).messages@ + published
            }),
            ({
                let range = old(self).range_spec();
                range.start <= range.end && range.start <= old(self).value_spec() <= range.end
                    ==> range.start <= final(self).value_spec() <= range.end
            }),
            final(self).range_spec() == old(self).range_spec(),
            final(self).step_spec() == old(self).step_spec(),
            final(self).on_release_spec() == old(self).on_release_spec(),
            final(self).width_spec() == old(self).width_spec(),
            final(self).height_spec() == old(self).height_spec(),
            final(self).orientation_spec() == old(self).orientation_spec(),
            final(self).style_spec() == old(self).style_spec(),
    {
        update(
            event,
            bounds,
            cursor,
            shell,
            state,
            &mut self.value,
            self.range,
            self.step,
            &self.on_release,
            self.orientation,
        )
    }
}

/// A slider built with a value below its range holds the range's start, one
/// built above it holds the range's end, and one built inside holds the value.
pub proof fn lemma_new_clamps_value(range: ValueRange, value: i64)
    requires
        range.start <= range.end,
    ensures
        value < range.start ==> clamp_into(value, range) == range.start,
        value > range.end ==> clamp_into(value, range) == range.end,
        range.start <= value <= range.end ==> clamp_into(value, range) == value,
{
}

/// A press inside the bounds followed by a release, with no move between,
/// captures both events and ends with no drag under way; the press publishes
/// at most one message, a change to the value under the cursor and only when
/// that differs from the value before; the release publishes exactly the
/// release message, if one is configured, and leaves the value.
pub proof fn lemma_press_then_release<M>(
    bounds: Rectangle,
    press_at: Point,
    release_at: Point,
    press: Event,
    release: Event,
    value: i64,
    range: ValueRange,
    step: i64,
    on_release: Option<M>,
    orientation: Orientation,
)
    requires
        is_press(press),
        bounds.holds(press_at),
        is_release(release),
    ensures
        ({
            let (s1, d1, v1, out1) = next(
                press,
                bounds,
                press_at,
                false,
                value,
                range,
                step,
                on_release,
                orientation,
            );
            let (s2, d2, v2, out2) = next(
                release,
                bounds,
                release_at,
                d1,
                v1,
                range,
                step,
                on_release,
                orientation,
            );
            &&& s1 == Status::Captured
            &&& d1
            &&& out1.len() <= 1
            &&& out1.len() == 1 ==> v1 != value && out1[0] == Published::<M>::Changed(v1)
            &&& out1.len() == 0 ==> v1 == value
            &&& s2 == Status::Captured
            &&& !d2
            &&& v2 == v1
            &&& match on_release {
                Some(m) => out2 == seq![Published::Released(m)],
                None => out2.len() == 0,
            }
        }),
{
}

/// A press outside the bounds is ignored and changes nothing.
pub proof fn lemma_press_outside_ignored<M>(
    bounds: Rectangle,
    cursor: Point,
    press: Event,
    dragging: bool,
    value: i64,
    range: ValueRange,
    step: i64,
    on_release: Option<M>,
    orientation: Orientation,
)
    requires
        is_press(press),
        !bounds.holds(cursor),
    ensures
        next(press, bounds, cursor, dragging, value, range, step, on_release, orientation) == (
            Status::Ignored,
            dragging,
            value,
            Seq::<Published<M>>::empty(),
        ),
{
}

/// On a built slider, a press inside the bounds followed by a release, with
/// no move between, captures both events and ends with no drag under way.
/// Over the two events the slider publishes a change to the value under the
/// press exactly when that value differs from the stored one, then exactly
/// the release message if one is configured, and nothing else.
pub proof fn lemma_slider_press_then_release<M, S>(
    slider: Slider<M, S>,
    bounds: Rectangle,
    press_at: Point,
    release_at: Point,
    press: Event,
    release: Event,
)
    requires
        is_press(press),
        bounds.holds(press_at),
        is_release(release),
    ensures
        ({
            let v0 = slider.value_spec();
            let range = slider.range_spec();
            let step = slider.step_spec();
            let on_release = slider.on_release_spec();
            let o = slider.orientation_spec();
            let (s1, d1, v1, out1) = next(press, bounds, press_at, false, v0, range, step, on_release, o);
            let (s2, d2, v2, out2) = next(release, bounds, release_at, d1, v1, range, step, on_release, o);
            &&& s1 == Status::Captured
            &&& s2 == Status::Captured
            &&& !d2
            &&& v2 == value_after(v0, position_value(press_at, bounds, range, step, o))
            &&& out1 + out2 == change_messages::<M>(
                v0,
                position_value(press_at, bounds, range, step, o),
            ) + release_messages(on_release)
        }),
{
    lemma_press_then_release(
        bounds,
        press_at,
        release_at,
        press,
        release,
        slider.value_spec(),
        slider.range_spec(),
        slider.step_spec(),
        slider.on_release_spec(),
        slider.orientation_spec(),
    );
}

} // verus!
