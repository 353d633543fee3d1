//! Draw commands: what the simulation asks the host to show for one frame.
use vstd::prelude::*;

verus! {

/// The colours the simulation draws with.
#[derive(Clone, Copy, Debug, PartialEq, Eq)]
pub enum Color {
    Yellow,
    Black,
    Red,
    Navy,
}

/// One request to the host's screen (or, for `Quit`, to the host's loop).
#[derive(Clone, Copy, Debug, PartialEq, Eq)]
pub enum DrawCommand {
    /// Clear the screen.
    Clear,
    /// Clear the screen to a background colour.
    Fill { bg: Color },
    /// Put one glyph at a screen cell.
    Cell { x: i32, y: i32, fg: Color, bg: Color, glyph: char },
    /// Print text starting at a screen cell.
    Print { x: i32, y: i32, text: &'static str },
    /// Print text centred on a row.
    PrintCentered { y: i32, text: &'static str },
    /// Print `before`, the decimal form of `value`, then `after`, from a cell.
    PrintNumber { x: i32, y: i32, before: &'static str, value: i32, after: &'static str },
    /// Print `before`, the decimal form of `value`, then `after`, centred on a row.
    PrintNumberCentered { y: i32, before: &'static str, value: i32, after: &'static str },
    /// Stop the host's frame loop.
    Quit,
}

} // verus!
