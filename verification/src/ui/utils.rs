use vstd::prelude::*;

verus! {

/// The left margin that centers a text of `text_width` columns in a line of
/// `terminal_width` columns: half of the free space, rounded down, and zero
/// when the text does not fit.
pub open spec fn centered_margin(text_width: nat, terminal_width: nat) -> nat {
    if text_width >= terminal_width {
        0
    } else {
        ((terminal_width - text_width) / 2) as nat
    }
}

/// Calculates the left padding needed to center text in the terminal.
pub fn center_padding(text_width: usize, terminal_width: usize) -> (padding: usize)
    ensures
        padding == centered_margin(text_width as nat, terminal_width as nat),
{
    if text_width >= terminal_width {
        0
    } else {
        (terminal_width - text_width) / 2
    }
}

/// A centered text never starts past the middle of the line, and where it
/// fits, the margins on its two sides differ by at most one column.
pub proof fn lemma_centered_margin_balanced(text_width: nat, terminal_width: nat)
    ensures
        2 * centered_margin(text_width, terminal_width) <= terminal_width,
        text_width <= terminal_width ==> {
            let left = centered_margin(text_width, terminal_width);
            let right = terminal_width - text_width - left;
            left <= right <= left + 1
        },
{
}

} // verus!
