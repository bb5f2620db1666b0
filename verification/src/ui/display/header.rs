//! The header of the main screen: the totals of the game and what the next
//! recruit costs.

use crate::text::{append_decimal, append_signed_decimal, decimal, signed_decimal};
use vstd::prelude::*;

verus! {

/// The rows that the header takes.
pub const HEADER_HEIGHT: u16 = 7;

/// The line that tells what all swimmers hold between them.
pub open spec fn total_lengths_line(total: int) -> Seq<char> {
    "Total Lengths: "@ + signed_decimal(total)
}

/// The line that tells how many swimmers there are.
pub open spec fn swimmers_line(count: nat) -> Seq<char> {
    "Swimmers: "@ + decimal(count)
}

/// The line that tells what the next recruit costs.
pub open spec fn new_swimmer_line(cost: nat) -> Seq<char> {
    "[ New Swimmer Cost: "@ + decimal(cost) + " lengths ]"@
}

/// The column at which a text of `text_width` columns starts so that one
/// column stays free between its end and the right edge; zero when the text
/// is too long for that.
pub open spec fn right_aligned_column_of(text_width: nat, terminal_width: nat) -> nat {
    if terminal_width >= text_width + 1 {
        (terminal_width - text_width - 1) as nat
    } else {
        0
    }
}

/// The line that tells what all swimmers hold between them.
pub fn total_lengths_text(total: i128) -> (line: String)
    ensures
        line@ == total_lengths_line(total as int),
{
    let mut line = String::new();
    line.append("Total Lengths: ");
    append_signed_decimal(&mut line, total);
    line
}

/// The line that tells how many swimmers there are.
pub fn swimmers_text(count: usize) -> (line: String)
    ensures
        line@ == swimmers_line(count as nat),
{
    let mut line = String::new();
    line.append("Swimmers: ");
    append_decimal(&mut line, count as u128);
    line
}

/// The line that tells what the next recruit costs.
pub fn new_swimmer_text(cost: usize) -> (line: String)
    ensures
        line@ == new_swimmer_line(cost as nat),
{
    let mut line = String::new();
    line.append("[ New Swimmer Cost: ");
    append_decimal(&mut line, cost as u128);
    line.append(" lengths ]");
    line
}

/// The column at which a text of `text_width` columns starts so that it ends
/// one column before the right edge.
pub fn right_aligned_column(text_width: usize, terminal_width: usize) -> (column: usize)
    ensures
        column == right_aligned_column_of(text_width as nat, terminal_width as nat),
{
    if terminal_width > text_width {
        terminal_width - text_width - 1
    } else {
        0
    }
}

} // verus!
