//! The lanes: for each swimmer a line of figures and a lane with the swimmer
//! in it.

use crate::swimmer::{Swimmer, SwimmerView, LANE_END};
use crate::text::{
    append_decimal, append_one_decimal_place, append_signed_decimal, decimal, repeat_text,
    repeated, signed_decimal,
};
use crate::ui::utils::{center_padding, centered_margin};
use vstd::prelude::*;

verus! {

/// The columns of the terminal that a lane leaves free.
pub const LANE_MARGIN: usize = 10;

/// How fast a swimmer is, as the colour of its mark shows it.
#[derive(Clone, Copy, Debug, PartialEq, Eq)]
pub enum SpeedClass {
    /// Less than two units per tick.
    Slow,
    /// Two or three units per tick.
    Medium,
    /// Four units per tick or more.
    Fast,
}

/// The class of a speed given in tenths: what counts is its whole part.
pub open spec fn speed_class_of(speed_tenths: nat) -> SpeedClass {
    if speed_tenths / 10 <= 1 {
        SpeedClass::Slow
    } else if speed_tenths / 10 <= 3 {
        SpeedClass::Medium
    } else {
        SpeedClass::Fast
    }
}

/// The width of the water in a terminal of `terminal_width` columns.
pub open spec fn lane_width_of(terminal_width: nat) -> nat {
    if terminal_width >= LANE_MARGIN {
        (terminal_width - LANE_MARGIN) as nat
    } else {
        0
    }
}

/// A lane of the given width: water between two walls.
pub open spec fn lane_of(lane_width: nat) -> Seq<char> {
    seq!['│'] + repeated(seq!['~'], lane_width) + seq!['│']
}

/// The column of the water at which a swimmer at `position` is drawn: its
/// share of the way, scaled to the lane's width and rounded down.
pub open spec fn lane_offset(position: nat, lane_width: nat) -> nat {
    (position * lane_width) / (LANE_END as nat)
}

/// The line of figures for a swimmer: a mark if it is selected, its name, its
/// speed, what it holds and what its next upgrade costs.
pub open spec fn stats_of(swimmer: SwimmerView, is_selected: bool) -> Seq<char> {
    (if is_selected {
        "➤"@
    } else {
        " "@
    }) + " "@ + swimmer.name + " | Speed: "@ + swimmer.display_speed() + " | Lengths: "@
        + signed_decimal(swimmer.lengths) + " | Next Upgrade: "@ + decimal(swimmer.upgrade_cost)
        + " lengths"@
}

/// The class of the swimmer's speed.
pub fn speed_class(swimmer: &Swimmer) -> (class: SpeedClass)
    ensures
        class == speed_class_of(swimmer@.speed_tenths),
{
    let whole: usize = swimmer.speed_tenths / 10;
    if whole <= 1 {
        SpeedClass::Slow
    } else if whole <= 3 {
        SpeedClass::Medium
    } else {
        SpeedClass::Fast
    }
}

/// The width of the water in a terminal of `terminal_width` columns.
pub fn lane_width(terminal_width: usize) -> (width: usize)
    ensures
        width == lane_width_of(terminal_width as nat),
{
    if terminal_width >= LANE_MARGIN {
        terminal_width - LANE_MARGIN
    } else {
        0
    }
}

/// The left margin that centers a lane of the given width, walls included.
pub fn lane_padding(lane_width: usize, terminal_width: usize) -> (padding: usize)
    ensures
        padding == centered_margin((lane_width + 2) as nat, terminal_width as nat),
{
    if lane_width > usize::MAX - 2 {
        0
    } else {
        center_padding(lane_width + 2, terminal_width)
    }
}

/// The text of a lane of the given width.
pub fn lane_text(lane_width: usize) -> (lane: String)
    ensures
        lane@ == lane_of(lane_width as nat),
{
    proof {
        reveal_strlit("│");
        reveal_strlit("~");
    }
    let mut lane = String::new();
    lane.append("│");
    lane.append(repeat_text("~", lane_width).as_str());
    lane.append("│");
    assert("~"@ =~= seq!['~']);
    lane
}

/// The column of the water at which a swimmer at `position` is drawn.
pub fn position_in_lane(position: usize, lane_width: usize) -> (offset: usize)
    requires
        position <= LANE_END,
    ensures
        offset == lane_offset(position as nat, lane_width as nat),
        offset <= lane_width,
{
    assert(position * lane_width <= 100 * lane_width) by (nonlinear_arith)
        requires
            position <= 100,
    ;
    let scaled: u128 = position as u128 * lane_width as u128;
    (scaled / 100) as usize
}

/// The line of figures for a swimmer.
pub fn stats_text(swimmer: &Swimmer, is_selected: bool) -> (stats: String)
    ensures
        stats@ == stats_of(swimmer@, is_selected),
{
    let mut stats = String::new();
    if is_selected {
        stats.append("➤");
    } else {
        stats.append(" ");
    }
    stats.append(" ");
    stats.append(swimmer.name.as_str());
    stats.append(" | Speed: ");
    append_one_decimal_place(&mut stats, swimmer.speed_tenths as u128);
    stats.append(" | Lengths: ");
    append_signed_decimal(&mut stats, swimmer.lengths as i128);
    stats.append(" | Next Upgrade: ");
    append_decimal(&mut stats, swimmer.upgrade_cost as u128);
    stats.append(" lengths");
    stats
}

/// The swimmer's mark is drawn inside the water or on its far wall: at the
/// near wall when the swimmer is there, on the far wall when the swimmer is
/// there, and short of the far wall otherwise.
pub proof fn lemma_lane_offset_within_lane(position: nat, lane_width: nat)
    requires
        position <= LANE_END,
    ensures
        lane_offset(position, lane_width) <= lane_width,
        position == 0 ==> lane_offset(position, lane_width) == 0,
        position == LANE_END ==> lane_offset(position, lane_width) == lane_width,
        position < LANE_END && lane_width > 0 ==> lane_offset(position, lane_width) < lane_width,
{
    assert(position * lane_width <= 100 * lane_width) by (nonlinear_arith)
        requires
            position <= 100,
    ;
    if position < LANE_END {
        assert(position * lane_width <= 99 * lane_width) by (nonlinear_arith)
            requires
                position <= 99,
        ;
    }
}

} // verus!
