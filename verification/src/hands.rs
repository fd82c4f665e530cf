//! The hour and minute hands.

use vstd::prelude::*;
use crate::angle::Angle;

verus! {

/// Positions of the hour hand in one turn: one for each minute of twelve hours.
pub const HOUR_STEPS: u32 = 720;

/// Positions of the minute hand in one turn.
pub const MINUTE_STEPS: u32 = 60;

/// The hour folded to the twelve-hour dial; noon and midnight fold to zero.
pub open spec fn fold_hour(hour: int) -> int {
    hour % 12
}

/// How many of its 720 positions the hour hand has passed since twelve:
/// sixty for each full hour on the dial and one more for each minute.
pub open spec fn hour_steps(hour: int, minute: int) -> int {
    60 * fold_hour(hour) + minute
}

/// Direction of the hour hand: `π·h/6 + π·minute/360` radians clockwise from
/// twelve, where `h` is the folded hour. That is `hour_steps / 720` of a
/// turn, so the hand creeps on with every minute and comes round again after
/// twelve hours.
pub open spec fn hour_turn(hour: int, minute: int) -> Angle {
    Angle::clockwise(hour_steps(hour, minute), HOUR_STEPS as int)
}

/// Direction of the minute hand: `π·minute/30` radians clockwise, that is
/// `minute / 60` of a turn. Seconds do not move it.
pub open spec fn minute_turn(minute: int) -> Angle {
    Angle::clockwise(minute, MINUTE_STEPS as int)
}

/// The direction of the hour hand at `hour:minute`.
pub fn hour_angle(hour: u32, minute: u32) -> (a: Angle)
    requires
        hour < 24,
        minute < 60,
    ensures
        a == hour_turn(hour as int, minute as int),
        a.num == -(60 * (hour % 12) + minute),
        a.den == HOUR_STEPS,
        a.wf(),
{
    let folded: u32 = hour % 12;
    let steps: u32 = 60 * folded + minute;
    Angle { num: -(steps as i32), den: HOUR_STEPS }
}

/// The direction of the minute hand at `minute` past the hour.
pub fn minute_angle(minute: u32) -> (a: Angle)
    requires
        minute < 60,
    ensures
        a == minute_turn(minute as int),
        a.num == -minute,
        a.den == MINUTE_STEPS,
        a.wf(),
{
    Angle { num: -(minute as i32), den: MINUTE_STEPS }
}

/// The hour hand stands the same in both halves of the day: its direction
/// depends on the hour only through the hour folded to the dial.
pub proof fn hour_angle_twelve_hour_symmetry(hour: int, minute: int)
    ensures
        hour_turn(hour, minute) == hour_turn(hour % 12, minute),
        hour_turn(hour + 12, minute) == hour_turn(hour, minute),
{
}

} // verus!
