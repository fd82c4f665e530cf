//! The shapes that a frame of the dial is made of.

use vstd::prelude::*;
use crate::angle::Angle;
use crate::style::Color;

verus! {

/// Distance of the rim from the centre, in percent of the dial radius.
pub const RIM: u32 = 100;

/// The direction in which a point lies from the centre of the dial.
#[derive(Clone, Copy, Debug, PartialEq, Eq, Structural)]
pub enum Bearing {
    /// An exact fraction of a turn.
    Fixed(Angle),
    /// The direction of the wild second hand. It is a trigonometric blend of
    /// the clock reading and has no exact value; the renderer evaluates it.
    WildSecond,
}

impl Bearing {
    /// An exact bearing is a well-formed angle; the wild second always is.
    pub open spec fn wf(&self) -> bool {
        match self {
            Bearing::Fixed(angle) => angle.wf(),
            Bearing::WildSecond => true,
        }
    }
}

/// A point of the dial in polar form.
#[derive(Clone, Copy, Debug, PartialEq, Eq, Structural)]
pub struct PolarPoint {
    /// Distance from the centre, in percent of the dial radius.
    pub reach: u32,
    /// Direction from the centre.
    pub bearing: Bearing,
}

impl PolarPoint {
    /// The bearing of the point is well formed.
    pub open spec fn wf(&self) -> bool {
        self.bearing.wf()
    }

    /// The centre of the dial.
    pub open spec fn center() -> PolarPoint {
        PolarPoint { reach: 0, bearing: Bearing::Fixed(Angle::clockwise(0, 1)) }
    }

    /// The centre of the dial.
    pub fn at_center() -> (p: PolarPoint)
        ensures
            p == PolarPoint::center(),
            p.wf(),
    {
        PolarPoint { reach: 0, bearing: Bearing::Fixed(Angle::zero()) }
    }
}

/// One shape to draw. Widths and the circle's radius are in stroke units.
#[derive(Clone, Copy, Debug, PartialEq, Eq, Structural)]
pub enum DrawPrimitive {
    /// A straight stroke between two points.
    Line { from: PolarPoint, to: PolarPoint, width: u32, color: Color },
    /// A filled disc.
    Circle { center: PolarPoint, radius: u32, color: Color },
}

impl DrawPrimitive {
    /// Every point of the shape is well formed, so that each exact angle in
    /// it can be turned into radians.
    pub open spec fn wf(&self) -> bool {
        match self {
            DrawPrimitive::Line { from, to, .. } => from.wf() && to.wf(),
            DrawPrimitive::Circle { center, .. } => center.wf(),
        }
    }
}

} // verus!
