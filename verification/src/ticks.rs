//! The tick marks round the rim of the dial.

use vstd::prelude::*;
use vstd::arithmetic::div_mod::{lemma_fundamental_div_mod, lemma_fundamental_div_mod_converse};
use crate::angle::Angle;
use crate::shapes::{Bearing, DrawPrimitive, PolarPoint, RIM};
use crate::style::Style;

verus! {

/// Tick marks on the dial: one for each minute.
pub const TICKS: u32 = 60;

/// Every fifth tick mark, beside the hour numerals, is accented.
pub const ACCENT_EVERY: u32 = 5;

/// The tick at `index` is accented when `accent_every` divides its index.
pub open spec fn is_accent(index: int, accent_every: int) -> bool {
    index % accent_every == 0
}

/// Direction of tick `index` of `count` evenly spaced ticks: `index / count`
/// of a turn from twelve, ascending with the index.
pub open spec fn tick_turn(index: int, count: int) -> Angle {
    Angle::counter_clockwise(index, count)
}

/// Tick `index` of `count`: a radial stroke that ends at the rim. An accented
/// tick takes its start and width from the accent settings of the style.
pub open spec fn tick_mark(index: int, count: int, accent_every: int, style: Style)
    -> DrawPrimitive {
    let bearing = Bearing::Fixed(tick_turn(index, count));
    let accent = is_accent(index, accent_every);
    DrawPrimitive::Line {
        from: PolarPoint {
            reach: if accent { style.accent_tick_start } else { style.tick_start },
            bearing,
        },
        to: PolarPoint { reach: RIM, bearing },
        width: if accent { style.accent_tick_width } else { style.tick_width },
        color: style.neutral,
    }
}

/// All `count` tick marks, in ascending order from twelve o'clock.
pub open spec fn tick_ring(count: int, accent_every: int, style: Style) -> Seq<DrawPrimitive> {
    Seq::new(count as nat, |index: int| tick_mark(index, count, accent_every, style))
}

/// How many of the first `count` ticks are accented.
pub open spec fn accent_count(count: nat, accent_every: int) -> nat
    decreases count,
{
    if count == 0 {
        0
    } else {
        accent_count((count - 1) as nat, accent_every) + if is_accent(count - 1, accent_every) {
            1nat
        } else {
            0nat
        }
    }
}

/// Among the first `count` ticks one in every `accent_every` is accented,
/// beginning with the tick at twelve: their number is the quotient of
/// `count` by `accent_every`, rounded up.
pub proof fn accent_count_is_quotient_rounded_up(count: nat, accent_every: int)
    requires
        accent_every > 0,
    ensures
        accent_count(count, accent_every) == (count + accent_every - 1) / accent_every,
    decreases count,
{
    if count == 0 {
        lemma_fundamental_div_mod_converse(accent_every - 1, accent_every, 0, accent_every - 1);
    } else {
        let last = count - 1;
        let quotient = last / accent_every;
        let rest = last % accent_every;
        accent_count_is_quotient_rounded_up(last as nat, accent_every);
        lemma_fundamental_div_mod(last, accent_every);
        assert(last + accent_every == (quotient + 1) * accent_every + rest) by (nonlinear_arith)
            requires
                last == accent_every * quotient + rest,
        ;
        // The tick just counted is accented exactly when the rounded-up
        // quotient grows by one.
        if rest == 0 {
            lemma_fundamental_div_mod_converse(
                last + accent_every - 1,
                accent_every,
                quotient,
                accent_every - 1,
            );
        } else {
            lemma_fundamental_div_mod_converse(
                last + accent_every - 1,
                accent_every,
                quotient + 1,
                rest - 1,
            );
        }
        lemma_fundamental_div_mod_converse(last + accent_every, accent_every, quotient + 1, rest);
    }
}

/// Lays out `count` evenly spaced tick marks and accents every
/// `accent_every`-th of them, starting with the one at twelve.
pub fn tick_marks(count: u32, accent_every: u32, style: &Style) -> (marks: Vec<DrawPrimitive>)
    requires
        accent_every > 0,
        count <= i32::MAX,
    ensures
        marks@ == tick_ring(count as int, accent_every as int, *style),
        marks@.len() == count,
        forall|i: int| 0 <= i < marks@.len() ==> (#[trigger] marks@[i]).wf(),
{
    let mut marks: Vec<DrawPrimitive> = Vec::new();
    let mut index: u32 = 0;
    while index < count
        invariant
            accent_every > 0,
            count <= i32::MAX,
            index <= count,
            marks@.len() == index,
            forall|i: int|
                0 <= i < index ==> marks@[i] == #[trigger] tick_mark(
                    i,
                    count as int,
                    accent_every as int,
                    *style,
                ),
        decreases count - index,
    {
        let bearing = Bearing::Fixed(Angle { num: index as i32, den: count });
        let accent = index % accent_every == 0;
        let mark = DrawPrimitive::Line {
            from: PolarPoint {
                reach: if accent { style.accent_tick_start } else { style.tick_start },
                bearing,
            },
            to: PolarPoint { reach: RIM, bearing },
            width: if accent { style.accent_tick_width } else { style.tick_width },
            color: style.neutral,
        };
        marks.push(mark);
        index = index + 1;
    }
    marks
}

} // verus!
