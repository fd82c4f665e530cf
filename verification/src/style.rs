//! Presentation settings of the dial, gathered in one value.

use vstd::prelude::*;

verus! {

/// An opaque colour in red, green and blue.
#[derive(Clone, Copy, Debug, PartialEq, Eq, Structural)]
pub struct Color {
    pub red: u8,
    pub green: u8,
    pub blue: u8,
}

/// How the dial is drawn. Lengths are percentages of the dial radius, and
/// stroke widths and the hub radius are counted in stroke units; the two
/// window ratios say how large the dial and one stroke unit are on screen.
#[derive(Clone, Copy, Debug, PartialEq, Eq, Structural)]
pub struct Style {
    /// Colour behind the dial.
    pub background: Color,
    /// Colour of the tick marks and of the hour and minute hands.
    pub neutral: Color,
    /// Colour of the second hand and of the hub.
    pub accent: Color,
    /// Dial radius, in percent of half the smaller window dimension.
    pub radius_percent: u32,
    /// One stroke unit, in thousandths of the smaller window dimension.
    pub stroke_per_mille: u32,
    /// Where a plain tick mark starts, in percent of the dial radius.
    pub tick_start: u32,
    /// Where an accented tick mark starts, in percent of the dial radius.
    pub accent_tick_start: u32,
    /// Stroke width of a plain tick mark.
    pub tick_width: u32,
    /// Stroke width of an accented tick mark.
    pub accent_tick_width: u32,
    /// Length of the hour hand, in percent of the dial radius.
    pub hour_length: u32,
    /// Length of the minute hand, in percent of the dial radius.
    pub minute_length: u32,
    /// Length of the second hand, in percent of the dial radius.
    pub second_length: u32,
    /// Stroke width of the hour hand.
    pub hour_width: u32,
    /// Stroke width of the minute hand.
    pub minute_width: u32,
    /// Stroke width of the second hand.
    pub second_width: u32,
    /// Radius of the hub over the hands, in stroke units.
    pub hub_radius: u32,
}

impl Style {
    /// The standard look: a dark ground, pale ticks and hands, and an orange
    /// second hand and hub.
    pub open spec fn standard() -> Style {
        Style {
            background: Color { red: 44, green: 44, blue: 44 },
            neutral: Color { red: 222, green: 222, blue: 222 },
            accent: Color { red: 255, green: 102, blue: 0 },
            radius_percent: 95,
            stroke_per_mille: 2,
            tick_start: 95,
            accent_tick_start: 90,
            tick_width: 1,
            accent_tick_width: 2,
            hour_length: 50,
            minute_length: 85,
            second_length: 100,
            hour_width: 4,
            minute_width: 3,
            second_width: 2,
            hub_radius: 8,
        }
    }
}

impl Default for Style {
    fn default() -> (style: Style)
        ensures
            style == Style::standard(),
    {
        Style {
            background: Color { red: 44, green: 44, blue: 44 },
            neutral: Color { red: 222, green: 222, blue: 222 },
            accent: Color { red: 255, green: 102, blue: 0 },
            radius_percent: 95,
            stroke_per_mille: 2,
            tick_start: 95,
            accent_tick_start: 90,
            tick_width: 1,
            accent_tick_width: 2,
            hour_length: 50,
            minute_length: 85,
            second_length: 100,
            hour_width: 4,
            minute_width: 3,
            second_width: 2,
            hub_radius: 8,
        }
    }
}

} // verus!
