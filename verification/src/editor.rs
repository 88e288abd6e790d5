//! The editing commands, and the dispatch of key presses to them.

use crate::buf::{push_owned, push_ref, to_string};
use crate::display::{terminal_usize, Display};
use crate::keys::{
    command_for, resolve, upper_case, Action, Command, Direction, Event, KeyEvent,
};
use crate::model::{typed, with_text, Session};
use crate::text::join_lines;
use vstd::prelude::*;
use vstd::string::StringExecFns;

verus! {

/// The screen, and the text that was last cut.
pub struct Editor {
    display: Display,
    copied: Option<String>,
}

impl Editor {
    /// The session as mathematics: the screen and what was last cut.
    pub closed spec fn view(&self) -> Session {
        Session {
            screen: self.display@,
            clipboard: match self.copied {
                Some(text) => Some(text@),
                None => None,
            },
        }
    }

    /// The screen is sound.
    pub open spec fn wf(&self) -> bool {
        self@.wf()
    }

    /// An editor on a screen, with nothing cut yet.
    pub fn new(display: Display) -> (editor: Editor)
        requires
            display.wf(),
        ensures
            editor.wf(),
            editor@ == (Session { screen: display@, clipboard: None }),
    {
        Editor { display, copied: None }
    }

    /// The screen.
    pub fn display(&self) -> (display: &Display)
        ensures
            display@ == self@.screen,
    {
        &self.display
    }

    /// The text that was last cut, if any was.
    pub fn copied(&self) -> (text: &Option<String>)
        ensures
            text is Some <==> self@.clipboard is Some,
            text matches Some(t) ==> self@.clipboard == Some(t@),
    {
        &self.copied
    }

    /// Takes the size that the terminal reports.
    pub fn resize(&mut self, width: usize, height: usize)
        requires
            old(self).wf(),
        ensures
            final(self).wf(),
            final(self)@ == (Session {
                screen: old(self)@.screen.resize(width as int, height as int),
                ..old(self)@
            }),
    {
        self.display.resize(width, height);
    }

    /// Starts the session on the terminal: the cursor goes to the top left
    /// of the window, and what the window shows is returned.
    pub fn show(&mut self) -> (frame: Vec<String>)
        requires
            old(self).wf(),
        ensures
            final(self).wf(),
            final(self)@ == (Session { screen: old(self)@.screen.home(), ..old(self)@ }),
            frame@.len() == final(self)@.screen.frame().len(),
            forall|i: int|
                0 <= i < frame@.len() ==> (#[trigger] frame@[i])@ == final(self)@.screen.frame()[i],
    {
        self.display.show()
    }

    /// Moves the cursor one step. Up and down go to the next row if the
    /// document has it and keep the column as far as that row reaches; left
    /// and right stay within the line; start and end go to the ends of the
    /// line.
    pub fn move_cursor(&mut self, dir: Direction) -> (action: Action)
        requires
            old(self).wf(),
        ensures
            final(self).wf(),
            final(self)@ == (Session { screen: old(self)@.screen.move_cursor(dir), ..old(self)@ }),
            action == Action::Idle,
    {
        let (row, col) = self.display.cursor_pos_diplaced();
        match dir {
            Direction::Up => {
                if row > 0 {
                    let len = self.display.lines.line(row - 1).len();
                    self.display.place(row - 1, if col < len { col } else { len });
                }
            },
            Direction::Down => {
                let count = self.display.lines.len();
                if row + 1 < count {
                    let len = self.display.lines.line(row + 1).len();
                    self.display.place(row + 1, if col < len { col } else { len });
                }
            },
            Direction::Left => {
                if col > 0 {
                    self.display.place(row, col - 1);
                }
            },
            Direction::Right => {
                if col < self.display.lines.line(row).len() {
                    self.display.place(row, col + 1);
                }
            },
            Direction::Start => {
                self.display.place(row, 0);
            },
            Direction::End => {
                let len = self.display.lines.line(row).len();
                self.display.place(row, len);
            },
        }
        Action::Idle
    }

    /// Pans the window one step up, down or left; the other directions do
    /// nothing. After a pan the window is to be drawn again.
    pub fn move_display(&mut self, dir: Direction) -> (action: Action)
        requires
            old(self).wf(),
        ensures
            final(self).wf(),
            final(self)@ == (Session { screen: old(self)@.screen.scroll(dir), ..old(self)@ }),
            action == old(self)@.action(Command::Scroll(dir)),
    {
        match dir {
            Direction::Up => self.display.move_up(),
            Direction::Down => self.display.move_down(),
            Direction::Left => self.display.move_left(),
            _ => {
                return Action::Idle;
            },
        }
        Action::RedrawAll
    }

    /// Puts `text` in at the cursor and the cursor behind it. Text typed on
    /// the last row gets an empty line behind it. Nothing happens if the line
    /// has no room for the text, or the document none for that line.
    pub fn insert(&mut self, text: &str) -> (action: Action)
        requires
            old(self).wf(),
        ensures
            final(self).wf(),
            final(self)@ == (Session {
                screen: if old(self)@.screen.can_insert(text@) {
                    old(self)@.screen.insert(text@)
                } else {
                    old(self)@.screen
                },
                ..old(self)@
            }),
            action == Action::RedrawLine,
    {
        let (row, col) = self.display.cursor_pos_diplaced();
        let n = text.unicode_len();
        let count = self.display.lines.len();
        let room = row + 1 < count || n == 0 || count < usize::MAX;
        if room && self.display.lines.line(row).len() <= usize::MAX - n {
            let line = self.display.lines.line_mut(row);
            if col < line.len() {
                line.insert_many(col, text);
            } else {
                push_owned(line, text);
            }
            assert(self.display.lines@[row as int] == with_text(
                old(self)@.screen.line(),
                col as int,
                text@,
            ));
            self.display.add_new_line();
            self.display.place(row, col + n);
        }
        Action::RedrawLine
    }

    /// Deletes the character `offset` columns before the cursor and moves
    /// the cursor left by `offset`. If the line starts less than `offset`
    /// columns before the cursor, the line is joined to the one above
    /// instead; if it ends before that column, nothing happens.
    pub fn delete(&mut self, offset: usize) -> (action: Action)
        requires
            old(self).wf(),
        ensures
            final(self).wf(),
            final(self)@ == (Session {
                screen: if old(self)@.screen.can_delete(offset as int) {
                    old(self)@.screen.delete(offset as int)
                } else {
                    old(self)@.screen
                },
                ..old(self)@
            }),
            action == old(self)@.screen.delete_action(offset as int),
    {
        let (row, col) = self.display.cursor_pos_diplaced();
        if col < offset {
            return self.splice_up();
        }
        let pos = col - offset;
        if pos < self.display.lines.line(row).len() {
            self.display.lines.line_mut(row).remove(pos);
            self.display.place(row, pos);
            Action::RedrawLine
        } else {
            Action::Idle
        }
    }

    /// Cuts the line from the cursor to its end and keeps what was cut. On
    /// an empty line, the line is joined to the one above instead; at the
    /// end of a line, the line below is joined to it.
    pub fn kill(&mut self) -> (action: Action)
        requires
            old(self).wf(),
        ensures
            final(self).wf(),
            final(self)@ == (if old(self)@.can_kill() {
                old(self)@.kill()
            } else {
                old(self)@
            }),
            action == old(self)@.kill_action(),
    {
        let (row, col) = self.display.cursor_pos_diplaced();
        if self.display.lines.line(row).is_empty() {
            return self.splice_up();
        }
        if col < self.display.lines.line(row).len() {
            let tail = self.display.lines.line_mut(row).drain(col);
            self.copied = Some(to_string(&tail));
            Action::RedrawLine
        } else {
            self.splice_down()
        }
    }

    /// Puts what was last cut in at the cursor. Nothing happens if nothing
    /// was cut yet, or if there is no room.
    pub fn paste(&mut self) -> (action: Action)
        requires
            old(self).wf(),
        ensures
            final(self).wf(),
            final(self)@ == (if old(self)@.can_paste() {
                old(self)@.paste()
            } else {
                old(self)@
            }),
            action == Action::RedrawLine,
    {
        let copied = match &self.copied {
            Some(text) => Some(text.clone()),
            None => None,
        };
        if let Some(text) = copied {
            self.insert(text.as_str());
        }
        Action::RedrawLine
    }

    /// Breaks the line at the cursor: what was from the cursor on makes a new
    /// line below, and the cursor goes to its start. Nothing happens if the
    /// document has no room for a line.
    pub fn split_line(&mut self) -> (action: Action)
        requires
            old(self).wf(),
        ensures
            final(self).wf(),
            final(self)@ == (Session {
                screen: if old(self)@.screen.can_split_line() {
                    old(self)@.screen.split_line()
                } else {
                    old(self)@.screen
                },
                ..old(self)@
            }),
            action == Action::RedrawAll,
    {
        let (row, col) = self.display.cursor_pos_diplaced();
        if self.display.lines.len() < usize::MAX {
            let tail = self.display.lines.line_mut(row).drain(col);
            self.display.lines.insert(row + 1, tail);
            self.display.place(row + 1, 0);
        }
        Action::RedrawAll
    }

    /// Joins the line under the cursor to the one above. An empty line is
    /// taken out and the cursor stays; if it was the last line, the cursor
    /// goes to the end of what is now the last one. A line with text goes
    /// behind the text of the line above, and the cursor between the two; on
    /// the first row, or without room in the line above, nothing happens.
    pub fn splice_up(&mut self) -> (action: Action)
        requires
            old(self).wf(),
        ensures
            final(self).wf(),
            final(self)@ == (Session {
                screen: if old(self)@.screen.can_splice_up() {
                    old(self)@.screen.splice_up()
                } else {
                    old(self)@.screen
                },
                ..old(self)@
            }),
            action == Action::RedrawAll,
    {
        let (row, _col) = self.display.cursor_pos_diplaced();
        let count = self.display.lines.len();
        if self.display.lines.line(row).is_empty() {
            self.display.lines.remove(row);
            let rest = count - 1;
            let (row, col) = if row < rest {
                (row, 0)
            } else if rest > 0 {
                (rest - 1, self.display.lines.line(rest - 1).len())
            } else {
                (0, 0)
            };
            self.display.add_new_line();
            self.display.place(row, col);
        } else if row > 0 {
            let above = self.display.lines.line(row - 1).len();
            if self.display.lines.line(row).len() <= usize::MAX - above {
                let line = self.display.lines.remove(row);
                push_ref(self.display.lines.line_mut(row - 1), &line);
                assert(self.display.lines@ == old(self)@.screen.lines.update(
                    row - 1,
                    old(self)@.screen.lines[row - 1] + old(self)@.screen.line(),
                ).remove(row as int));
                self.display.place(row - 1, above);
            }
        }
        Action::RedrawAll
    }

    /// Joins the line below to the line under the cursor, if there is a line
    /// below and room for it. The cursor stays.
    pub fn splice_down(&mut self) -> (action: Action)
        requires
            old(self).wf(),
        ensures
            final(self).wf(),
            final(self)@ == (Session {
                screen: if old(self)@.screen.can_splice_down() {
                    old(self)@.screen.splice_down()
                } else {
                    old(self)@.screen
                },
                ..old(self)@
            }),
            action == Action::RedrawAll,
    {
        let (row, col) = self.display.cursor_pos_diplaced();
        let count = self.display.lines.len();
        if row + 1 < count {
            let below = self.display.lines.line(row + 1).len();
            if self.display.lines.line(row).len() <= usize::MAX - below {
                let line = self.display.lines.remove(row + 1);
                push_ref(self.display.lines.line_mut(row), &line);
                assert(self.display.lines@ == old(self)@.screen.lines.update(
                    row as int,
                    old(self)@.screen.line() + old(self)@.screen.lines[row + 1],
                ).remove(row + 1));
                self.display.add_new_line();
                self.display.place(row, col);
            }
        }
        Action::RedrawAll
    }

    /// The text to write to the file: the lines one after another, a line
    /// feed behind each.
    pub fn save(&self) -> (content: String)
        ensures
            content@ == join_lines(self@.screen.lines),
    {
        let mut content = String::new();
        let count = self.display.lines.len();
        let mut row: usize = 0;
        while row < count
            invariant
                count == self.display.lines@.len(),
                row <= count,
                content@ == join_lines(self.display.lines@.subrange(0, row as int)),
            decreases count - row,
        {
            let text = to_string(self.display.lines.line(row));
            proof {
                let done = self.display.lines@.subrange(0, row + 1);
                assert(done.drop_last() == self.display.lines@.subrange(0, row as int));
            }
            content.append(text.as_str());
            content.push('\n');
            row = row + 1;
        }
        assert(self.display.lines@.subrange(0, count as int) == self.display.lines@);
        content
    }

    /// Carries a command out and says what is to be done on the terminal.
    pub fn execute(&mut self, cmd: Command) -> (action: Action)
        requires
            old(self).wf(),
        ensures
            final(self).wf(),
            final(self)@ == old(self)@.step(cmd),
            action == old(self)@.action(cmd),
    {
        match cmd {
            Command::Quit => Action::Quit,
            Command::Scroll(dir) => self.move_display(dir),
            Command::Move(dir) => self.move_cursor(dir),
            Command::SplitLine => self.split_line(),
            Command::Backspace => self.delete(1),
            Command::Delete => self.delete(0),
            Command::Tab => {
                proof {
                    reveal_strlit("    ");
                    assert("    "@ == typed(cmd));
                }
                self.insert("    ")
            },
            Command::Type(c) => {
                let mut text = String::new();
                text.push(c);
                self.insert(text.as_str())
            },
            Command::TypeUpper(c) => {
                let text = upper_case(c);
                self.insert(text.as_str())
            },
            Command::Kill => self.kill(),
            Command::Paste => self.paste(),
            Command::Save => Action::Save,
            Command::Ignore => Action::Idle,
        }
    }

    /// Looks a key press up in the table of commands, carries the command
    /// out and says what is to be done on the terminal.
    pub fn handle_key_event(&mut self, event: KeyEvent) -> (action: Action)
        requires
            old(self).wf(),
        ensures
            final(self).wf(),
            final(self)@ == old(self)@.step(command_for(event)),
            action == old(self)@.action(command_for(event)),
    {
        self.execute(resolve(event))
    }

    /// Takes an event from the terminal and says what is to be done there: a
    /// key press is handled as a key press, a new size is taken and the
    /// window drawn again, anything else is passed over.
    pub fn handle_event(&mut self, event: Event) -> (action: Action)
        requires
            old(self).wf(),
        ensures
            final(self).wf(),
            final(self)@ == old(self)@.handle(event),
            action == old(self)@.reaction(event),
    {
        match event {
            Event::Key(key) => self.handle_key_event(key),
            Event::Resize(cols, rows) => {
                let (width, height) = terminal_usize(cols, rows);
                self.resize(width, height);
                Action::RedrawAll
            },
            Event::Other => Action::Idle,
        }
    }
}

} // verus!
