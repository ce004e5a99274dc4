//! Points, rectangles, sizes and layout limits in whole pixels.
use vstd::prelude::*;

verus! {

/// A position in screen space.
#[derive(Clone, Copy, Debug, PartialEq, Eq, Structural)]
pub struct Point {
    pub x: i32,
    pub y: i32,
}

/// An axis-aligned box: its top-left corner and its extent.
#[derive(Clone, Copy, Debug, PartialEq, Eq, Structural)]
pub struct Rectangle {
    pub x: i32,
    pub y: i32,
    pub width: i32,
    pub height: i32,
}

impl Rectangle {
    /// The box holds the point, its edges included.
    pub open spec fn holds(self, p: Point) -> bool {
        self.x <= p.x <= self.x + self.width && self.y <= p.y <= self.y + self.height
    }

    /// Whether the point lies inside the box or on its edges.
    pub fn contains(&self, p: Point) -> (r: bool)
        ensures
            r == self.holds(p),
    {
        let right = self.x as i64 + self.width as i64;
        let bottom = self.y as i64 + self.height as i64;
        self.x <= p.x && (p.x as i64) <= right && self.y <= p.y && (p.y as i64) <= bottom
    }
}

/// The axis along which a slider's value grows.
#[derive(Clone, Copy, Debug, PartialEq, Eq, Structural)]
pub enum Orientation {
    /// The value grows from left to right; the widget fills the horizontal space.
    Horizontal,
    /// The value grows from bottom to top; the widget fills the vertical space.
    Vertical,
}

/// A width and a height.
#[derive(Clone, Copy, Debug, PartialEq, Eq, Structural)]
pub struct Size {
    pub width: u32,
    pub height: u32,
}

/// How a widget asks to be sized along one axis.
#[derive(Clone, Copy, Debug, PartialEq, Eq, Structural)]
pub enum Length {
    /// Take all the space the limits allow.
    Fill,
    /// Take a share of the available space; a lone widget takes it all.
    FillPortion(u16),
    /// Take as little space as the limits allow.
    Shrink,
    /// A fixed number of pixels, kept within the limits.
    Units(u16),
}

/// The smallest and largest size a parent allows a child.
#[derive(Clone, Copy, Debug, PartialEq, Eq, Structural)]
pub struct Limits {
    pub min: Size,
    pub max: Size,
}

/// The extent that `length` resolves to between `min` and `max`.
pub open spec fn resolve_axis(length: Length, min: u32, max: u32) -> u32 {
    match length {
        Length::Fill | Length::FillPortion(_) => max,
        Length::Shrink => min,
        Length::Units(u) => {
            let capped = if (u as u32) < max { u as u32 } else { max };
            if capped > min { capped } else { min }
        },
    }
}

/// Resolves one axis of a size request against the limits on that axis.
pub fn resolve_length(length: Length, min: u32, max: u32) -> (r: u32)
    ensures
        r == resolve_axis(length, min, max),
{
    match length {
        Length::Fill | Length::FillPortion(_) => max,
        Length::Shrink => min,
        Length::Units(u) => {
            let capped = if (u as u32) < max { u as u32 } else { max };
            if capped > min { capped } else { min }
        },
    }
}

impl Limits {
    /// The size that a widget requesting `width` by `height` receives.
    pub fn resolve(&self, width: Length, height: Length) -> (r: Size)
        ensures
            r.width == resolve_axis(width, self.min.width, self.max.width),
            r.height == resolve_axis(height, self.min.height, self.max.height),
    {
        Size {
            width: resolve_length(width, self.min.width, self.max.width),
            height: resolve_length(height, self.min.height, self.max.height),
        }
    }
}

/// The thickness of a slider across its value axis, unless set otherwise.
pub const DEFAULT_THICKNESS: u16 = 22;

impl Orientation {
    /// The height a slider asks for when none is set.
    pub open spec fn default_height_spec(self) -> Length {
        match self {
            Orientation::Horizontal => Length::Units(DEFAULT_THICKNESS),
            Orientation::Vertical => Length::Fill,
        }
    }

    /// The width a slider asks for when none is set.
    pub open spec fn default_width_spec(self) -> Length {
        match self {
            Orientation::Horizontal => Length::Fill,
            Orientation::Vertical => Length::Units(DEFAULT_THICKNESS),
        }
    }

    /// The height a slider asks for when none is set: a fixed thickness when
    /// horizontal, all the space when vertical.
    pub fn default_height(&self) -> (r: Length)
        ensures
            r == self.default_height_spec(),
    {
        match self {
            Orientation::Horizontal => Length::Units(DEFAULT_THICKNESS),
            Orientation::Vertical => Length::Fill,
        }
    }

    /// The width a slider asks for when none is set: all the space when
    /// horizontal, a fixed thickness when vertical.
    pub fn default_width(&self) -> (r: Length)
        ensures
            r == self.default_width_spec(),
    {
        match self {
            Orientation::Horizontal => Length::Fill,
            Orientation::Vertical => Length::Units(DEFAULT_THICKNESS),
        }
    }
}

impl Default for Orientation {
    /// Horizontal.
    fn default() -> (r: Orientation)
        ensures
            r == Orientation::Horizontal,
    {
        Orientation::Horizontal
    }
}

} // verus!
