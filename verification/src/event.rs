//! What the terminal reports, as plain values, and what each report means to
//! the chooser.

use vstd::prelude::*;

verus! {

/// The key of a key press, as far as the chooser tells keys apart.
#[derive(Clone, Copy, Debug, PartialEq, Eq, Structural)]
pub enum Key {
    /// The up arrow.
    Up,
    /// The down arrow.
    Down,
    /// Enter or Return.
    Enter,
    /// A character key.
    Char(char),
    /// Any other key.
    Other,
}

/// The modifier keys held during a key press.
#[derive(Clone, Copy, Debug, PartialEq, Eq, Structural)]
pub struct Modifiers {
    pub shift: bool,
    pub control: bool,
    pub alt: bool,
}

/// One key press: the key and the modifiers held with it.
#[derive(Clone, Copy, Debug, PartialEq, Eq, Structural)]
pub struct KeyPress {
    pub key: Key,
    pub modifiers: Modifiers,
}

/// One event reported by the terminal.
#[derive(Clone, Copy, Debug, PartialEq, Eq, Structural)]
pub enum Event {
    /// A key was pressed.
    Key(KeyPress),
    /// The terminal was resized to the given number of columns and rows.
    Resize(u16, u16),
    /// Anything else, such as a mouse event.
    Other,
}

/// What an event asks the chooser to do.
#[derive(Clone, Copy, Debug, PartialEq, Eq, Structural)]
pub enum Action {
    /// Highlight the following option.
    MoveDown,
    /// Highlight the preceding option.
    MoveUp,
    /// Commit to the highlighted option.
    Confirm,
    /// Abandon the selection.
    Interrupt,
    /// Take note of a new terminal size, in columns and rows.
    Resize(u16, u16),
    /// Nothing.
    Ignore,
}

impl Modifiers {
    /// No modifier is held.
    pub open spec fn is_none(self) -> bool {
        !self.shift && !self.control && !self.alt
    }

    /// The modifiers of a press without any modifier.
    pub fn none() -> (modifiers: Modifiers)
        ensures
            modifiers.is_none(),
    {
        Modifiers { shift: false, control: false, alt: false }
    }

    /// The modifiers of a press with Control and nothing else.
    pub fn control() -> (modifiers: Modifiers)
        ensures
            modifiers.is_control_only(),
    {
        Modifiers { shift: false, control: true, alt: false }
    }

    /// Control is held and no other modifier.
    pub open spec fn is_control_only(self) -> bool {
        !self.shift && self.control && !self.alt
    }
}

impl Event {
    /// The press of `key` without any modifier.
    pub open spec fn plain(key: Key) -> Event {
        Event::Key(
            KeyPress { key, modifiers: Modifiers { shift: false, control: false, alt: false } },
        )
    }

    /// The press of `key` with Control and nothing else.
    pub open spec fn with_control(key: Key) -> Event {
        Event::Key(
            KeyPress { key, modifiers: Modifiers { shift: false, control: true, alt: false } },
        )
    }

    /// The press of `key` without any modifier.
    pub fn key(key: Key) -> (event: Event)
        ensures
            event == Event::plain(key),
    {
        Event::Key(KeyPress { key, modifiers: Modifiers::none() })
    }

    /// The press of `key` with Control and nothing else.
    pub fn control(key: Key) -> (event: Event)
        ensures
            event == Event::with_control(key),
    {
        Event::Key(KeyPress { key, modifiers: Modifiers::control() })
    }

    /// The meaning of an event. The arrow keys and Enter count only when
    /// pressed without a modifier; the interrupt is the lower-case `c` with
    /// Control and nothing else; a resize carries its size along; every other
    /// event means nothing.
    pub open spec fn action(self) -> Action {
        match self {
            Event::Key(press) => {
                if press.modifiers.is_none() && press.key == Key::Down {
                    Action::MoveDown
                } else if press.modifiers.is_none() && press.key == Key::Up {
                    Action::MoveUp
                } else if press.modifiers.is_none() && press.key == Key::Enter {
                    Action::Confirm
                } else if press.modifiers.is_control_only() && press.key == Key::Char('c') {
                    Action::Interrupt
                } else {
                    Action::Ignore
                }
            },
            Event::Resize(columns, rows) => Action::Resize(columns, rows),
            Event::Other => Action::Ignore,
        }
    }

    /// Interprets an event.
    pub fn classify(&self) -> (action: Action)
        ensures
            action == self.action(),
    {
        match *self {
            Event::Key(press) => {
                let Modifiers { shift, control, alt } = press.modifiers;
                if shift || alt {
                    Action::Ignore
                } else if control {
                    match press.key {
                        Key::Char(c) => if c == 'c' {
                            Action::Interrupt
                        } else {
                            Action::Ignore
                        },
                        _ => Action::Ignore,
                    }
                } else {
                    match press.key {
                        Key::Down => Action::MoveDown,
                        Key::Up => Action::MoveUp,
                        Key::Enter => Action::Confirm,
                        _ => Action::Ignore,
                    }
                }
            },
            Event::Resize(columns, rows) => Action::Resize(columns, rows),
            Event::Other => Action::Ignore,
        }
    }
}

} // verus!
