//! The vocabulary of terminal operations that the chooser asks its host to
//! perform.

use vstd::prelude::*;

verus! {

/// One terminal operation. `T` is the type of printed text: `&str` in
/// executable code and `Seq<char>` in specifications.
#[derive(Clone, Copy, Debug, PartialEq, Eq)]
pub enum Command<T> {
    /// Switch the terminal to raw input mode.
    EnableRawMode,
    /// Switch the terminal back to its normal input mode.
    DisableRawMode,
    /// Move the cursor up by the given number of rows.
    MoveUp(u16),
    /// Clear everything from the cursor to the end of the screen.
    ClearFromCursorDown,
    /// Set the foreground colour to an RGB value.
    SetForegroundColor { r: u8, g: u8, b: u8 },
    /// Return the colours to the terminal's defaults.
    ResetColor,
    /// Write text at the cursor.
    Print(T),
}

impl<'a> View for Command<&'a str> {
    type V = Command<Seq<char>>;

    open spec fn view(&self) -> Command<Seq<char>> {
        match *self {
            Command::EnableRawMode => Command::EnableRawMode,
            Command::DisableRawMode => Command::DisableRawMode,
            Command::MoveUp(rows) => Command::MoveUp(rows),
            Command::ClearFromCursorDown => Command::ClearFromCursorDown,
            Command::SetForegroundColor { r, g, b } => Command::SetForegroundColor { r, g, b },
            Command::ResetColor => Command::ResetColor,
            Command::Print(text) => Command::Print(text@),
        }
    }
}

/// The views of a sequence of commands, in the same order.
pub open spec fn views<'a>(commands: Seq<Command<&'a str>>) -> Seq<Command<Seq<char>>> {
    commands.map_values(|c: Command<&'a str>| c@)
}

/// Whether the terminal is in raw mode after `commands`, if `raw` says
/// whether it was before: the last command that switches the mode decides.
pub open spec fn raw_after(raw: bool, commands: Seq<Command<Seq<char>>>) -> bool
    decreases commands.len(),
{
    if commands.len() == 0 {
        raw
    } else {
        match commands.last() {
            Command::EnableRawMode => true,
            Command::DisableRawMode => false,
            _ => raw_after(raw, commands.drop_last()),
        }
    }
}

/// No command of the sequence switches the terminal's mode.
pub open spec fn keeps_mode(commands: Seq<Command<Seq<char>>>) -> bool {
    forall|i: int|
        0 <= i < commands.len() ==> commands[i] != Command::<Seq<char>>::EnableRawMode
            && commands[i] != Command::<Seq<char>>::DisableRawMode
}

/// Commands that do not switch the mode leave it as the commands before
/// them left it.
pub proof fn lemma_raw_after_kept(raw: bool, before: Seq<Command<Seq<char>>>, kept: Seq<Command<Seq<char>>>)
    requires
        keeps_mode(kept),
    ensures
        raw_after(raw, before + kept) == raw_after(raw, before),
    decreases kept.len(),
{
    if kept.len() == 0 {
        assert(before + kept =~= before);
    } else {
        assert((before + kept).drop_last() =~= before + kept.drop_last());
        assert((before + kept).last() == kept[kept.len() - 1]);
        lemma_raw_after_kept(raw, before, kept.drop_last());
    }
}

/// A command that switches the mode decides the mode, whatever came before.
pub proof fn lemma_raw_after_switch(raw: bool, before: Seq<Command<Seq<char>>>, on: bool)
    ensures
        raw_after(
            raw,
            before.push(
                if on {
                    Command::EnableRawMode
                } else {
                    Command::DisableRawMode
                },
            ),
        ) == on,
{
}

/// The glyph printed in front of the highlighted option.
pub const MARKER: &'static str = "> ";

/// The text that ends every row.
pub const LINE_END: &'static str = "\r\n";

/// The red, green and blue parts of the colour of the marker.
pub const HIGHLIGHT: (u8, u8, u8) = (28, 234, 213);

/// The most rows that a single cursor movement can express.
pub const MAX_MOVE: u16 = 65535;

} // verus!
