//! The terminal's events as the editor reads them, and the table that turns
//! a key press into a command.

use vstd::prelude::*;

verus! {

/// Where a movement goes.
#[derive(Clone, Copy, PartialEq, Eq, Structural, Debug)]
pub enum Direction {
    Up,
    Down,
    Left,
    Right,
    Start,
    End,
}

/// The keys that the editor tells apart.
#[derive(Clone, Copy, PartialEq, Eq, Structural, Debug)]
pub enum KeyCode {
    Up,
    Down,
    Left,
    Right,
    Enter,
    Backspace,
    Tab,
    Esc,
    Char(char),
    Other,
}

/// The modifier keys held with a key. `Other` stands for every combination
/// that is not exactly no modifier, exactly control or exactly shift.
#[derive(Clone, Copy, PartialEq, Eq, Structural, Debug)]
pub enum KeyModifiers {
    Plain,
    Control,
    Shift,
    Other,
}

/// A key press.
#[derive(Clone, Copy, PartialEq, Eq, Structural, Debug)]
pub struct KeyEvent {
    pub modifiers: KeyModifiers,
    pub code: KeyCode,
}

/// What the terminal reports while the editor waits.
#[derive(Clone, Copy, PartialEq, Eq, Structural, Debug)]
pub enum Event {
    /// A key was pressed.
    Key(KeyEvent),
    /// The terminal now has this many columns and rows.
    Resize(u16, u16),
    /// Anything else.
    Other,
}

/// What a key press asks the editor to do.
#[derive(Clone, Copy, PartialEq, Eq, Structural, Debug)]
pub enum Command {
    /// Leave the editor.
    Quit,
    /// Pan the window over the document.
    Scroll(Direction),
    /// Move the cursor.
    Move(Direction),
    /// Break the line at the cursor.
    SplitLine,
    /// Delete the character before the cursor.
    Backspace,
    /// Delete the character at the cursor.
    Delete,
    /// Insert four spaces.
    Tab,
    /// Insert the character.
    Type(char),
    /// Insert the upper case form of the character.
    TypeUpper(char),
    /// Cut from the cursor to the end of the line.
    Kill,
    /// Insert what was last cut.
    Paste,
    /// Write the document to its file.
    Save,
    /// Nothing.
    Ignore,
}

/// What is to be done on the terminal after a command.
#[derive(Clone, Copy, PartialEq, Eq, Structural, Debug)]
pub enum Action {
    /// Nothing but to place the cursor.
    Idle,
    /// Draw the line under the cursor again.
    RedrawLine,
    /// Draw the whole window again.
    RedrawAll,
    /// Write the document to its file.
    Save,
    /// End the session.
    Quit,
}

/// The upper case form of a character, as `char::to_uppercase` gives it.
pub uninterp spec fn upper_case_of(c: char) -> Seq<char>;

/// `char::to_uppercase`, collected into a `String`.
#[verifier::external_body]
pub(crate) fn upper_case(c: char) -> (s: String)
    ensures
        s@ == upper_case_of(c),
{
    c.to_uppercase().to_string()
}

/// The command that stands in the table for a key press.
pub open spec fn command_for(event: KeyEvent) -> Command {
    match event.modifiers {
        KeyModifiers::Plain => match event.code {
            KeyCode::Esc => Command::Quit,
            KeyCode::Up => Command::Scroll(Direction::Up),
            KeyCode::Down => Command::Scroll(Direction::Down),
            KeyCode::Left => Command::Scroll(Direction::Left),
            KeyCode::Right => Command::Scroll(Direction::Right),
            KeyCode::Enter => Command::SplitLine,
            KeyCode::Backspace => Command::Backspace,
            KeyCode::Tab => Command::Tab,
            KeyCode::Char(c) => Command::Type(c),
            KeyCode::Other => Command::Ignore,
        },
        KeyModifiers::Control => match event.code {
            KeyCode::Esc => Command::Quit,
            KeyCode::Char(c) => if c == 'x' {
                Command::Quit
            } else if c == 'b' {
                Command::Move(Direction::Left)
            } else if c == 'f' {
                Command::Move(Direction::Right)
            } else if c == 'p' {
                Command::Move(Direction::Up)
            } else if c == 'n' {
                Command::Move(Direction::Down)
            } else if c == 'a' {
                Command::Move(Direction::Start)
            } else if c == 'e' {
                Command::Move(Direction::End)
            } else if c == 'd' {
                Command::Delete
            } else if c == 'k' {
                Command::Kill
            } else if c == 's' {
                Command::Save
            } else if c == 'y' {
                Command::Paste
            } else {
                Command::Ignore
            },
            _ => Command::Ignore,
        },
        KeyModifiers::Shift => match event.code {
            KeyCode::Esc => Command::Quit,
            KeyCode::Char(c) => Command::TypeUpper(c),
            _ => Command::Ignore,
        },
        KeyModifiers::Other => match event.code {
            KeyCode::Esc => Command::Quit,
            _ => Command::Ignore,
        },
    }
}

/// Looks a key press up in the table.
pub fn resolve(event: KeyEvent) -> (cmd: Command)
    ensures
        cmd == command_for(event),
{
    match event.modifiers {
        KeyModifiers::Plain => match event.code {
            KeyCode::Esc => Command::Quit,
            KeyCode::Up => Command::Scroll(Direction::Up),
            KeyCode::Down => Command::Scroll(Direction::Down),
            KeyCode::Left => Command::Scroll(Direction::Left),
            KeyCode::Right => Command::Scroll(Direction::Right),
            KeyCode::Enter => Command::SplitLine,
            KeyCode::Backspace => Command::Backspace,
            KeyCode::Tab => Command::Tab,
            KeyCode::Char(c) => Command::Type(c),
            KeyCode::Other => Command::Ignore,
        },
        KeyModifiers::Control => match event.code {
            KeyCode::Esc => Command::Quit,
            KeyCode::Char(c) => if c == 'x' {
                Command::Quit
            } else if c == 'b' {
                Command::Move(Direction::Left)
            } else if c == 'f' {
                Command::Move(Direction::Right)
            } else if c == 'p' {
                Command::Move(Direction::Up)
            } else if c == 'n' {
                Command::Move(Direction::Down)
            } else if c == 'a' {
                Command::Move(Direction::Start)
            } else if c == 'e' {
                Command::Move(Direction::End)
            } else if c == 'd' {
                Command::Delete
            } else if c == 'k' {
                Command::Kill
            } else if c == 's' {
                Command::Save
            } else if c == 'y' {
                Command::Paste
            } else {
                Command::Ignore
            },
            _ => Command::Ignore,
        },
        KeyModifiers::Shift => match event.code {
            KeyCode::Esc => Command::Quit,
            KeyCode::Char(c) => Command::TypeUpper(c),
            _ => Command::Ignore,
        },
        KeyModifiers::Other => match event.code {
            KeyCode::Esc => Command::Quit,
            _ => Command::Ignore,
        },
    }
}

} // verus!
