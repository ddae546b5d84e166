//! Path events of a glyph outline and their conversion from the Y-up space of
//! the outline source to the Y-down space of a path recorder.
//!
//! A coordinate is held as the bit pattern of an IEEE 754 single-precision
//! number, so that negation is exact and total: it flips the sign bit.

use vstd::prelude::*;

verus! {

/// The sign bit of a single-precision bit pattern.
pub const SIGN_BIT: u32 = 0x8000_0000;

/// One path-construction event; every field is a coordinate's bit pattern.
#[derive(Clone, Copy, Debug, PartialEq, Eq, Structural)]
pub enum PathEvent {
    MoveTo { x: u32, y: u32 },
    LineTo { x: u32, y: u32 },
    QuadTo { cx0: u32, cy0: u32, x: u32, y: u32 },
    CurveTo { cx0: u32, cy0: u32, cx1: u32, cy1: u32, x: u32, y: u32 },
    Close,
}

/// The bit pattern of the negated number.
pub open spec fn negated(bits: u32) -> u32 {
    bits ^ SIGN_BIT
}

/// Negates the number with the given bit pattern.
pub fn negate(bits: u32) -> (r: u32)
    ensures
        r == negated(bits),
{
    bits ^ SIGN_BIT
}

/// The event that the recorder receives for an event of the outline source:
/// the Y of every end point, of a quadratic control point and of the first
/// cubic control point is negated; every X, and the Y of the second cubic
/// control point, pass through.
pub open spec fn recorder_event(event: PathEvent) -> PathEvent {
    match event {
        PathEvent::MoveTo { x, y } => PathEvent::MoveTo { x, y: negated(y) },
        PathEvent::LineTo { x, y } => PathEvent::LineTo { x, y: negated(y) },
        PathEvent::QuadTo { cx0, cy0, x, y } => PathEvent::QuadTo {
            cx0,
            cy0: negated(cy0),
            x,
            y: negated(y),
        },
        PathEvent::CurveTo { cx0, cy0, cx1, cy1, x, y } => PathEvent::CurveTo {
            cx0,
            cy0: negated(cy0),
            cx1,
            cy1,
            x,
            y: negated(y),
        },
        PathEvent::Close => PathEvent::Close,
    }
}

/// Converts one event of the outline source to the event forwarded to the
/// recorder.
pub fn to_recorder_space(event: PathEvent) -> (r: PathEvent)
    ensures
        r == recorder_event(event),
{
    match event {
        PathEvent::MoveTo { x, y } => PathEvent::MoveTo { x, y: negate(y) },
        PathEvent::LineTo { x, y } => PathEvent::LineTo { x, y: negate(y) },
        PathEvent::QuadTo { cx0, cy0, x, y } => PathEvent::QuadTo {
            cx0,
            cy0: negate(cy0),
            x,
            y: negate(y),
        },
        PathEvent::CurveTo { cx0, cy0, cx1, cy1, x, y } => PathEvent::CurveTo {
            cx0,
            cy0: negate(cy0),
            cx1,
            cy1,
            x,
            y: negate(y),
        },
        PathEvent::Close => PathEvent::Close,
    }
}

/// The events forwarded for a whole outline: one per source event, in the
/// same order.
pub open spec fn recorder_events(events: Seq<PathEvent>) -> Seq<PathEvent> {
    Seq::new(events.len(), |i: int| recorder_event(events[i]))
}

/// Negation changes the sign bit and nothing else, and undoes itself.
pub proof fn negation_flips_sign_only(bits: u32)
    ensures
        negated(bits) & SIGN_BIT != bits & SIGN_BIT,
        negated(bits) & !SIGN_BIT == bits & !SIGN_BIT,
        negated(negated(bits)) == bits,
{
    assert((bits ^ 0x8000_0000u32) & 0x8000_0000u32 != bits & 0x8000_0000u32) by (bit_vector);
    assert((bits ^ 0x8000_0000u32) & !0x8000_0000u32 == bits & !0x8000_0000u32) by (bit_vector);
    assert((bits ^ 0x8000_0000u32) ^ 0x8000_0000u32 == bits) by (bit_vector);
}

} // verus!
