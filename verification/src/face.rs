//! One frame of the clock face.

use vstd::prelude::*;
use crate::hands::{hour_angle, hour_turn, minute_angle, minute_turn};
use crate::shapes::{Bearing, DrawPrimitive, PolarPoint};
use crate::style::Style;
use crate::ticks::{tick_marks, tick_ring, ACCENT_EVERY, TICKS};
use crate::wall_clock::WallClock;

verus! {

/// The hour hand: a stroke from the centre towards the hour.
pub open spec fn hour_hand(style: Style, hour: int, minute: int) -> DrawPrimitive {
    DrawPrimitive::Line {
        from: PolarPoint::center(),
        to: PolarPoint { reach: style.hour_length, bearing: Bearing::Fixed(hour_turn(hour, minute)) },
        width: style.hour_width,
        color: style.neutral,
    }
}

/// The minute hand: a stroke from the centre towards the minute.
pub open spec fn minute_hand(style: Style, minute: int) -> DrawPrimitive {
    DrawPrimitive::Line {
        from: PolarPoint::center(),
        to: PolarPoint { reach: style.minute_length, bearing: Bearing::Fixed(minute_turn(minute)) },
        width: style.minute_width,
        color: style.neutral,
    }
}

/// The wild second hand: a stroke in the accent colour from the centre in
/// the direction that the renderer works out for it.
pub open spec fn second_hand(style: Style) -> DrawPrimitive {
    DrawPrimitive::Line {
        from: PolarPoint::center(),
        to: PolarPoint { reach: style.second_length, bearing: Bearing::WildSecond },
        width: style.second_width,
        color: style.accent,
    }
}

/// The hub: a disc in the accent colour over the centre.
pub open spec fn hub(style: Style) -> DrawPrimitive {
    DrawPrimitive::Circle { center: PolarPoint::center(), radius: style.hub_radius, color: style.accent }
}

/// The three hands and the hub, in the order in which they are painted.
pub open spec fn hands_and_hub(style: Style, hour: int, minute: int) -> Seq<DrawPrimitive> {
    seq![hour_hand(style, hour, minute), minute_hand(style, minute), second_hand(style), hub(style)]
}

/// Everything on the dial at `hour:minute`, in painting order: the ring of
/// sixty tick marks from twelve o'clock on, then the hour, minute and second
/// hands, and the hub on top.
pub open spec fn face(style: Style, hour: int, minute: int) -> Seq<DrawPrimitive> {
    tick_ring(TICKS as int, ACCENT_EVERY as int, style) + hands_and_hub(style, hour, minute)
}

/// The clock: it keeps the style and draws each frame from a fresh reading,
/// with no memory of the frame before.
#[derive(Clone, Copy, Debug, PartialEq, Eq, Structural)]
pub struct ZenClockApp {
    pub style: Style,
}

impl Default for ZenClockApp {
    fn default() -> (app: ZenClockApp)
        ensures
            app.style == Style::standard(),
    {
        ZenClockApp { style: Style::default() }
    }
}

impl ZenClockApp {
    /// A clock drawn in `style`.
    pub fn with_style(style: Style) -> (app: ZenClockApp)
        ensures
            app.style == style,
    {
        ZenClockApp { style }
    }

    /// The shapes of the frame for the reading `clock`.
    pub fn frame(&self, clock: &WallClock) -> (shapes: Vec<DrawPrimitive>)
        requires
            clock.wf(),
        ensures
            shapes@ == face(self.style, clock.hour as int, clock.minute as int),
            shapes@.len() == TICKS + 4,
            forall|i: int| 0 <= i < shapes@.len() ==> (#[trigger] shapes@[i]).wf(),
    {
        let mut shapes = tick_marks(TICKS, ACCENT_EVERY, &self.style);
        let center = PolarPoint::at_center();
        shapes.push(
            DrawPrimitive::Line {
                from: center,
                to: PolarPoint {
                    reach: self.style.hour_length,
                    bearing: Bearing::Fixed(hour_angle(clock.hour, clock.minute)),
                },
                width: self.style.hour_width,
                color: self.style.neutral,
            },
        );
        shapes.push(
            DrawPrimitive::Line {
                from: center,
                to: PolarPoint {
                    reach: self.style.minute_length,
                    bearing: Bearing::Fixed(minute_angle(clock.minute)),
                },
                width: self.style.minute_width,
                color: self.style.neutral,
            },
        );
        shapes.push(
            DrawPrimitive::Line {
                from: center,
                to: PolarPoint { reach: self.style.second_length, bearing: Bearing::WildSecond },
                width: self.style.second_width,
                color: self.style.accent,
            },
        );
        shapes.push(
            DrawPrimitive::Circle {
                center,
                radius: self.style.hub_radius,
                color: self.style.accent,
            },
        );
        shapes
    }
}

} // verus!
