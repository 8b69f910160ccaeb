//! The input and output vocabulary of one tick: the keys the game reacts to,
//! and the requests it hands back to the display/input driver.

use vstd::prelude::*;

verus! {

/// Colors the driver can be asked to paint with.
#[derive(Clone, Copy, PartialEq, Eq, Debug)]
pub enum Shade {
    Yellow,
    Black,
    Red,
    Navy,
}

/// A line of text the driver can be asked to print; lines that carry a
/// number hold it as a field, so the driver does the formatting.
#[derive(Clone, Copy, PartialEq, Eq, Debug)]
pub enum Message {
    Title,
    PlayOption,
    QuitOption,
    FlapHint,
    Score(i32),
    DeadLine,
    Earned(i32),
    PlayAgainOption,
}

/// One request to the display/input driver. A tick returns the full list in
/// draw order.
#[derive(Clone, Copy, PartialEq, Eq, Debug)]
pub enum Command {
    /// Clear the screen.
    Clear,
    /// Clear the screen to a background color.
    ClearBg(Shade),
    /// Put a glyph at a screen cell.
    Cell { x: i32, y: i32, fg: Shade, bg: Shade, glyph: char },
    /// Print a message at a cell.
    Print { x: i32, y: i32, msg: Message },
    /// Print a message centered on a row.
    PrintCentered { y: i32, msg: Message },
    /// Ask the driver to end the main loop.
    Quit,
}

/// The keys the game reacts to; any other key is reported as `Other`.
#[derive(Clone, Copy, PartialEq, Eq, Debug)]
pub enum Key {
    Space,
    P,
    Q,
    Other,
}

} // verus!
