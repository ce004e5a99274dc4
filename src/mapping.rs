//! The mapping between a cursor position along a slider and a stepped value in
//! its range, and from a value back to the handle's offset along the rail.
use vstd::prelude::*;

use crate::geometry::{Orientation, Point, Rectangle};

verus! {

/// An inclusive range of values, `start..=end`. A range with `start >= end` is
/// degenerate: it is accepted, and the mapping gives fixed results for it.
#[derive(Clone, Copy, Debug, PartialEq, Eq, Structural)]
pub struct ValueRange {
    pub start: i64,
    pub end: i64,
}

/// `a / b` rounded to the nearest integer, halves away from zero, for `b > 0`.
pub open spec fn round_div_pos(a: int, b: int) -> int {
    if a >= 0 {
        (2 * a + b) / (2 * b)
    } else {
        -((-2 * a + b) / (2 * b))
    }
}

/// `a / b` rounded to the nearest integer, halves away from zero.
pub open spec fn round_div(a: int, b: int) -> int {
    if b < 0 {
        round_div_pos(-a, -b)
    } else {
        round_div_pos(a, b)
    }
}

/// The absolute value of `a`.
pub open spec fn magnitude(a: int) -> int {
    if a < 0 {
        -a
    } else {
        a
    }
}

/// Magnitude below which `rounded_div` works without overflow (2^120).
pub const ROUND_LIMIT: i128 = 1329227995784915872903807060280737792;

/// `a / b` rounded to the nearest integer, halves away from zero.
pub fn rounded_div(a: i128, b: i128) -> (r: i128)
    requires
        b != 0,
        -ROUND_LIMIT < a < ROUND_LIMIT,
        -ROUND_LIMIT < b < ROUND_LIMIT,
    ensures
        r == round_div(a as int, b as int),
        -(2 * magnitude(a as int) + magnitude(b as int)) <= r <= 2 * magnitude(a as int)
            + magnitude(b as int),
{
    let n: i128 = if b < 0 { -a } else { a };
    let d: i128 = if b < 0 { -b } else { b };
    if n >= 0 {
        proof {
            assert(0 <= (2 * n + d) / (2 * d) <= 2 * n + d) by (nonlinear_arith)
                requires n >= 0, d > 0;
        }
        (2 * n + d) / (2 * d)
    } else {
        proof {
            assert(0 <= (-2 * n + d) / (2 * d) <= -2 * n + d) by (nonlinear_arith)
                requires n < 0, d > 0;
        }
        -((-2 * n + d) / (2 * d))
    }
}

/// The cursor lies at or before the edge where the value axis begins: the left
/// edge when horizontal, the bottom edge when vertical.
pub open spec fn before_start(c: Point, b: Rectangle, o: Orientation) -> bool {
    match o {
        Orientation::Horizontal => c.x <= b.x,
        Orientation::Vertical => c.y >= b.y + b.height,
    }
}

/// The cursor lies at or beyond the edge where the value axis ends: the right
/// edge when horizontal, the top edge when vertical.
pub open spec fn past_end(c: Point, b: Rectangle, o: Orientation) -> bool {
    match o {
        Orientation::Horizontal => c.x >= b.x + b.width,
        Orientation::Vertical => c.y <= b.y,
    }
}

/// How far along the value axis the cursor lies, from the axis' start edge.
pub open spec fn axis_offset(c: Point, b: Rectangle, o: Orientation) -> int {
    match o {
        Orientation::Horizontal => c.x - b.x,
        Orientation::Vertical => b.y + b.height - c.y,
    }
}

/// The length of the box along the value axis.
pub open spec fn axis_length(b: Rectangle, o: Orientation) -> int {
    match o {
        Orientation::Horizontal => b.width as int,
        Orientation::Vertical => b.height as int,
    }
}

/// The value at fraction `offset / length` of the range, snapped to a whole
/// number of steps from `start` (nearest step, halves away from zero).
pub open spec fn stepped(range: ValueRange, step: int, offset: int, length: int) -> int {
    range.start + round_div(offset * (range.end - range.start), length * step) * step
}

/// `v` brought into `start..=end` of an ordered range.
pub open spec fn clamp_to(v: int, range: ValueRange) -> int {
    if v < range.start {
        range.start as int
    } else if v > range.end {
        range.end as int
    } else {
        v
    }
}

/// The value that a cursor position selects: the range's start before the
/// axis' start edge, its end beyond the far edge, and in between the stepped
/// value at the cursor's fraction of the axis, kept inside an ordered range
/// (a step that does not divide the range would otherwise overshoot its end).
/// `None` where the value cannot be represented: a zero step, or, on a
/// degenerate range, a value out of `i64`.
pub open spec fn position_value(
    c: Point,
    b: Rectangle,
    range: ValueRange,
    step: i64,
    o: Orientation,
) -> Option<i64> {
    if before_start(c, b, o) {
        Some(range.start)
    } else if past_end(c, b, o) {
        Some(range.end)
    } else if step == 0 {
        None
    } else {
        let v = stepped(range, step as int, axis_offset(c, b, o), axis_length(b, o));
        if range.start <= range.end {
            Some(clamp_to(v, range) as i64)
        } else if i64::MIN <= v <= i64::MAX {
            Some(v as i64)
        } else {
            None
        }
    }
}

/// Relies on `num_traits::FromPrimitive::from_i128` for `i64`: `Some` of the
/// same number exactly when it fits in `i64`, else `None`.
#[verifier::external_body]
fn i64_from_i128(n: i128) -> (r: Option<i64>)
    ensures
        r == (if i64::MIN <= n <= i64::MAX { Some(n as i64) } else { None::<i64> }),
{
    <i64 as num_traits::FromPrimitive>::from_i128(n)
}

/// The value that the cursor selects on a slider laid out in `bounds`.
pub fn position_to_value(
    cursor: Point,
    bounds: Rectangle,
    range: ValueRange,
    step: i64,
    orientation: Orientation,
) -> (r: Option<i64>)
    ensures
        r == position_value(cursor, bounds, range, step, orientation),
        range.start <= range.end ==> (r matches Some(v) ==> range.start <= v <= range.end),
{
    let below = match orientation {
        Orientation::Horizontal => cursor.x <= bounds.x,
        Orientation::Vertical => cursor.y as i64 >= bounds.y as i64 + bounds.height as i64,
    };
    let above = match orientation {
        Orientation::Horizontal => cursor.x as i64 >= bounds.x as i64 + bounds.width as i64,
        Orientation::Vertical => cursor.y <= bounds.y,
    };
    if below {
        return Some(range.start);
    }
    if above {
        return Some(range.end);
    }
    if step == 0 {
        return None;
    }
    let offset: i128 = match orientation {
        Orientation::Horizontal => cursor.x as i128 - bounds.x as i128,
        Orientation::Vertical => bounds.y as i128 + bounds.height as i128 - cursor.y as i128,
    };
    let length: i128 = match orientation {
        Orientation::Horizontal => bounds.width as i128,
        Orientation::Vertical => bounds.height as i128,
    };
    let span: i128 = range.end as i128 - range.start as i128;
    let st: i128 = step as i128;
    proof {
        assert(0 < offset < 0x1_0000_0000 && 0 < length < 0x1_0000_0000);
        assert(-0x1_0000_0000_0000_0000 < span < 0x1_0000_0000_0000_0000);
        assert(-0x8000_0000_0000_0000 <= st < 0x8000_0000_0000_0000);
        assert(-0x1_0000_0000_0000_0000_0000_0000 < offset * span < 0x1_0000_0000_0000_0000_0000_0000)
            by (nonlinear_arith)
            requires
                0 < offset < 0x1_0000_0000,
                -0x1_0000_0000_0000_0000 < span < 0x1_0000_0000_0000_0000,
        ;
        assert(-0x1_0000_0000_0000_0000_0000_0000 < length * st < 0x1_0000_0000_0000_0000_0000_0000
            && length * st != 0) by (nonlinear_arith)
            requires
                0 < length < 0x1_0000_0000,
                -0x8000_0000_0000_0000 <= st < 0x8000_0000_0000_0000,
                st != 0,
        ;
    }
    let steps = rounded_div(offset * span, length * st);
    let ordered = range.start <= range.end;
    let scaled = match steps.checked_mul(st) {
        Some(p) => p,
        None => {
            proof {
                assert((steps > 0) == (st > 0) ==> steps * st >= 0) by (nonlinear_arith);
                assert((steps > 0) != (st > 0) ==> steps * st <= 0) by (nonlinear_arith)
                    requires
                        st != 0,
                ;
            }
            if !ordered {
                return None;
            }
            if (steps > 0) == (st > 0) {
                return Some(range.end);
            } else {
                return Some(range.start);
            }
        },
    };
    let value = match scaled.checked_add(range.start as i128) {
        Some(v) => v,
        None => {
            if !ordered {
                return None;
            }
            if scaled > 0 {
                return Some(range.end);
            } else {
                return Some(range.start);
            }
        },
    };
    if ordered {
        if value < range.start as i128 {
            return Some(range.start);
        }
        if value > range.end as i128 {
            return Some(range.end);
        }
        return Some(value as i64);
    }
    i64_from_i128(value)
}

/// Where the handle of a slider showing `value` begins along the rail, measured
/// from the start of `bounds`: the value's fraction of the range times the
/// axis length, less half the handle's extent so that the handle is centred on
/// the value, rounded to the nearest pixel. A vertical slider measures from the
/// top, where the range ends. A degenerate range puts the handle at 0.
pub open spec fn handle_offset(
    value: i64,
    range: ValueRange,
    b: Rectangle,
    handle_width: i32,
    o: Orientation,
) -> int {
    if range.start >= range.end {
        0
    } else {
        let span = range.end - range.start;
        let along = match o {
            Orientation::Horizontal => b.width * (value - range.start),
            Orientation::Vertical => b.height * (range.end - value),
        };
        round_div(2 * along - handle_width * span, 2 * span)
    }
}

/// The offset of the handle along the rail for `value`.
pub fn value_to_handle_offset(
    value: i64,
    range: ValueRange,
    bounds: Rectangle,
    handle_width: i32,
    orientation: Orientation,
) -> (r: i128)
    ensures
        r == handle_offset(value, range, bounds, handle_width, orientation),
        -0x1_0000_0000_0000_0000_0000_0000_0000 < r < 0x1_0000_0000_0000_0000_0000_0000_0000,
{
    if range.start >= range.end {
        return 0;
    }
    let span: i128 = range.end as i128 - range.start as i128;
    let (length, distance): (i128, i128) = match orientation {
        Orientation::Horizontal => (bounds.width as i128, value as i128 - range.start as i128),
        Orientation::Vertical => (bounds.height as i128, range.end as i128 - value as i128),
    };
    let hw: i128 = handle_width as i128;
    proof {
        assert(-0x8000_0000 <= length < 0x8000_0000 && -0x8000_0000 <= hw < 0x8000_0000);
        assert(-0x1_0000_0000_0000_0000 < distance < 0x1_0000_0000_0000_0000);
        assert(0 < span < 0x1_0000_0000_0000_0000);
        assert(-0x1_0000_0000_0000_0000_0000_0000 < length * distance < 0x1_0000_0000_0000_0000_0000_0000)
            by (nonlinear_arith)
            requires
                -0x8000_0000 <= length < 0x8000_0000,
                -0x1_0000_0000_0000_0000 < distance < 0x1_0000_0000_0000_0000,
        ;
        assert(-0x1_0000_0000_0000_0000_0000_0000 < hw * span < 0x1_0000_0000_0000_0000_0000_0000)
            by (nonlinear_arith)
            requires
                -0x8000_0000 <= hw < 0x8000_0000,
                0 < span < 0x1_0000_0000_0000_0000,
        ;
    }
    rounded_div(2 * (length * distance) - hw * span, 2 * span)
}

/// On an ordered range (`start <= end`) whatever a cursor position selects
/// lies inside the range; with a non-zero step every position, inside the
/// axis or past either edge, selects a value.
pub proof fn lemma_selected_value_in_range(
    c: Point,
    b: Rectangle,
    range: ValueRange,
    step: i64,
    o: Orientation,
)
    requires
        range.start <= range.end,
    ensures
        position_value(c, b, range, step, o) matches Some(v) ==> range.start <= v
            <= range.end,
        step != 0 ==> position_value(c, b, range, step, o) is Some,
{
}

/// A cursor at or before the start edge of the axis selects the range's start;
/// one at or beyond the far edge (and not before the start) selects its end.
pub proof fn lemma_edges_select_range_ends(
    c: Point,
    b: Rectangle,
    range: ValueRange,
    step: i64,
    o: Orientation,
)
    ensures
        before_start(c, b, o) ==> position_value(c, b, range, step, o) == Some(range.start),
        past_end(c, b, o) && !before_start(c, b, o) ==> position_value(c, b, range, step, o)
            == Some(range.end),
{
}

/// The selected value depends on the inputs alone: two evaluations on the same
/// inputs agree.
pub proof fn lemma_position_value_deterministic(
    c1: Point,
    b1: Rectangle,
    range1: ValueRange,
    step1: i64,
    o1: Orientation,
    c2: Point,
    b2: Rectangle,
    range2: ValueRange,
    step2: i64,
    o2: Orientation,
)
    requires
        c1 == c2,
        b1 == b2,
        range1 == range2,
        step1 == step2,
        o1 == o2,
    ensures
        position_value(c1, b1, range1, step1, o1) == position_value(c2, b2, range2, step2, o2),
{
}

/// On a single-point range `[p, p]` the handle sits at offset 0 whatever the
/// value, and every cursor position selects `p`, given a non-zero step.
pub proof fn lemma_single_point_range(
    c: Point,
    b: Rectangle,
    p: i64,
    value: i64,
    step: i64,
    handle_width: i32,
    o: Orientation,
)
    requires
        step != 0,
    ensures
        handle_offset(value, ValueRange { start: p, end: p }, b, handle_width, o) == 0,
        position_value(c, b, ValueRange { start: p, end: p }, step, o) == Some(p),
{
    let range = ValueRange { start: p, end: p };
    if !before_start(c, b, o) && !past_end(c, b, o) {
        let a = axis_offset(c, b, o) * (range.end - range.start);
        assert(a == 0) by (nonlinear_arith)
            requires
                a == axis_offset(c, b, o) * (range.end - range.start),
                range.end - range.start == 0,
        ;
        let d = axis_length(b, o) * (step as int);
        assert(d != 0) by (nonlinear_arith)
            requires
                d == axis_length(b, o) * (step as int),
                axis_length(b, o) > 0,
                step != 0,
        ;
        let dd = if d < 0 { -d } else { d };
        assert(dd / (2 * dd) == 0) by (nonlinear_arith)
            requires
                dd > 0,
        ;
        assert(round_div(a, d) == 0);
    }
}

} // verus!
