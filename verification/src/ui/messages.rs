//! The messages that report on an upgrade or on a recruit.

use crate::swimmer::{Swimmer, SwimmerView};
use crate::text::{append_one_decimal_place, append_signed_decimal, signed_decimal};
use crate::ui::utils::{center_padding, centered_margin};
use vstd::prelude::*;

verus! {

/// The columns that the frame of a message adds to its text.
pub const MESSAGE_FRAME: usize = 6;

/// The rows between a message and the bottom of the terminal.
pub const MESSAGE_RISE: u16 = 3;

/// The cost that a message about a recruit counts with when none is given.
pub open spec fn cost_or_zero(cost: Option<usize>) -> int {
    match cost {
        Some(cost) => cost as int,
        None => 0,
    }
}

/// The message after an attempt to upgrade `swimmer`. After a success it
/// names the swimmer and its new speed; after a failure it tells how many
/// lengths the swimmer lacks.
pub open spec fn upgrade_message_of(swimmer: SwimmerView, success: bool) -> Seq<char> {
    if success {
        "✅ "@ + swimmer.name + " upgraded to speed "@ + swimmer.display_speed() + "!"@
    } else {
        "❌ Not enough lengths! Need "@ + signed_decimal(swimmer.upgrade_shortfall())
            + " more for upgrade."@
    }
}

/// The message after an attempt to recruit. After a success `swimmer` is the
/// recruit, and the message names it and its speed; after a failure
/// `swimmer` is the one who pays, and the message tells how many lengths it
/// lacks of `cost`.
pub open spec fn new_swimmer_message_of(
    swimmer: SwimmerView,
    success: bool,
    cost: Option<usize>,
) -> Seq<char> {
    if success {
        "✅ New swimmer "@ + swimmer.name + " joined with speed "@ + swimmer.display_speed()
            + "!"@
    } else {
        "❌ Not enough lengths! Need "@ + signed_decimal(cost_or_zero(cost) - swimmer.lengths)
            + " more for a new swimmer."@
    }
}

/// The row of a message in a terminal of `terminal_height` rows.
pub open spec fn message_row_of(terminal_height: nat) -> nat {
    if terminal_height >= MESSAGE_RISE {
        (terminal_height - MESSAGE_RISE) as nat
    } else {
        0
    }
}

/// The message after an attempt to upgrade `swimmer`.
pub fn upgrade_message(swimmer: &Swimmer, success: bool) -> (message: String)
    ensures
        message@ == upgrade_message_of(swimmer@, success),
{
    let mut message = String::new();
    if success {
        message.append("✅ ");
        message.append(swimmer.name.as_str());
        message.append(" upgraded to speed ");
        append_one_decimal_place(&mut message, swimmer.speed_tenths as u128);
        message.append("!");
    } else {
        message.append("❌ Not enough lengths! Need ");
        append_signed_decimal(&mut message, swimmer.upgrade_shortfall());
        message.append(" more for upgrade.");
    }
    message
}

/// The message after an attempt to recruit.
pub fn new_swimmer_message(swimmer: &Swimmer, success: bool, cost: Option<usize>) -> (message:
    String)
    ensures
        message@ == new_swimmer_message_of(swimmer@, success, cost),
{
    let mut message = String::new();
    if success {
        message.append("✅ New swimmer ");
        message.append(swimmer.name.as_str());
        message.append(" joined with speed ");
        append_one_decimal_place(&mut message, swimmer.speed_tenths as u128);
        message.append("!");
    } else {
        let cost: i128 = match cost {
            Some(cost) => cost as i128,
            None => 0,
        };
        message.append("❌ Not enough lengths! Need ");
        append_signed_decimal(&mut message, cost - swimmer.lengths as i128);
        message.append(" more for a new swimmer.");
    }
    message
}

/// The left margin that centers a framed message whose text is
/// `message_width` columns wide.
pub fn message_padding(message_width: usize, terminal_width: usize) -> (padding: usize)
    ensures
        padding == centered_margin((message_width + MESSAGE_FRAME) as nat, terminal_width as nat),
{
    if message_width > usize::MAX - MESSAGE_FRAME {
        0
    } else {
        center_padding(message_width + MESSAGE_FRAME, terminal_width)
    }
}

/// The row of a message in a terminal of `terminal_height` rows.
pub fn message_row(terminal_height: u16) -> (row: u16)
    ensures
        row == message_row_of(terminal_height as nat),
{
    if terminal_height >= MESSAGE_RISE {
        terminal_height - MESSAGE_RISE
    } else {
        0
    }
}

} // verus!
