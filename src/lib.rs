//! A range slider widget: the mapping between a cursor position and a stepped
//! value, the press / drag / release state machine, layout, handle placement and
//! cursor feedback, all stated and proved over integer pixel geometry.
pub mod geometry;
pub mod mapping;
pub mod slider;

pub use geometry::{Length, Limits, Orientation, Point, Rectangle, Size, DEFAULT_THICKNESS};
pub use mapping::{position_to_value, rounded_div, value_to_handle_offset, ValueRange};
pub use slider::{
    draw, mouse_interaction, style_status, update, Event, Frame, HandleShape, Interaction,
    MouseButton, Published, Quad, Shell, Slider, State, Status, StyleStatus,
};
