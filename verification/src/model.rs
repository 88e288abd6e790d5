//! The editor as mathematics: what is on the screen, what a command makes of
//! it, and what is then to be drawn.
//!
//! Rows and columns count from zero. The cursor is kept by its place in the
//! document; where it shows in the window follows from the window's first
//! row and column.

use crate::keys::{command_for, upper_case_of, Action, Command, Direction, Event};
use vstd::prelude::*;

verus! {

/// The smaller of two numbers.
pub open spec fn least(a: int, b: int) -> int {
    if a <= b {
        a
    } else {
        b
    }
}

/// A document at rest has a line, and its last line is empty.
pub open spec fn settled(lines: Seq<Seq<char>>) -> bool {
    lines.len() > 0 && lines.last().len() == 0
}

/// The lines with an empty line behind them, unless they end in one.
pub open spec fn settle(lines: Seq<Seq<char>>) -> Seq<Seq<char>> {
    if settled(lines) {
        lines
    } else {
        lines.push(Seq::empty())
    }
}

/// The lowest row at which a window of `height` rows may start over `count`
/// lines.
pub open spec fn last_top(count: int, height: int) -> int {
    if count > height {
        count - height
    } else {
        0
    }
}

/// A line from column `first_col` on; empty if the line is shorter.
pub open spec fn clipped(line: Seq<char>, first_col: int) -> Seq<char> {
    if 0 <= first_col < line.len() {
        line.subrange(first_col, line.len() as int)
    } else {
        Seq::empty()
    }
}

/// `line` with `text` put in at `col`.
pub open spec fn with_text(line: Seq<char>, col: int, text: Seq<char>) -> Seq<char> {
    line.subrange(0, col) + text + line.subrange(col, line.len() as int)
}

/// The document, the cursor in it, and the window over it.
pub struct Screen {
    /// The lines of the document.
    pub lines: Seq<Seq<char>>,
    /// The row of the cursor in the document.
    pub row: int,
    /// The column of the cursor in its line.
    pub col: int,
    /// The row of the document that the window shows first.
    pub first_row: int,
    /// The column that the window shows first.
    pub first_col: int,
    /// The rows of the terminal.
    pub height: int,
    /// The columns of the terminal.
    pub width: int,
    /// The path of the file that the document belongs to.
    pub file_name: Seq<char>,
}

impl Screen {
    /// The screen at the start of a session: the cursor and the window at the
    /// top left of the document, and no terminal size known yet.
    pub open spec fn start(lines: Seq<Seq<char>>, file_name: Seq<char>) -> Screen {
        Screen {
            lines,
            row: 0,
            col: 0,
            first_row: 0,
            first_col: 0,
            height: 0,
            width: 0,
            file_name,
        }
    }

    /// The document is settled, the cursor is in it, the window starts at or
    /// before the cursor, and no lower than the document's length allows.
    pub open spec fn wf(self) -> bool {
        &&& settled(self.lines)
        &&& 0 <= self.first_row <= self.row < self.lines.len()
        &&& 0 <= self.first_col <= self.col <= self.line().len()
        &&& self.first_row <= last_top(self.lines.len() as int, self.height)
        &&& 0 <= self.height
        &&& 0 <= self.width
    }

    /// The line under the cursor.
    pub open spec fn line(self) -> Seq<char> {
        self.lines[self.row]
    }

    /// The row of the window that shows the cursor.
    pub open spec fn screen_row(self) -> int {
        self.row - self.first_row
    }

    /// The column of the window that shows the cursor.
    pub open spec fn screen_col(self) -> int {
        self.col - self.first_col
    }

    /// The screen with other lines and the cursor elsewhere. The window
    /// stays, unless the cursor went above or left of it or the document
    /// became too short for it: then it is moved up or left just as far as
    /// needed.
    pub open spec fn place(self, lines: Seq<Seq<char>>, row: int, col: int) -> Screen {
        Screen {
            lines,
            row,
            col,
            first_row: least(least(self.first_row, row), last_top(lines.len() as int, self.height)),
            first_col: least(self.first_col, col),
            ..self
        }
    }

    /// The cursor one step in a direction. Up and down go to the next row if
    /// the document has it, and keep the column as far as that row reaches;
    /// left and right stay within the line.
    pub open spec fn move_cursor(self, dir: Direction) -> Screen {
        match dir {
            Direction::Up => if self.row > 0 {
                let row = self.row - 1;
                self.place(self.lines, row, least(self.col, self.lines[row].len() as int))
            } else {
                self
            },
            Direction::Down => if self.row + 1 < self.lines.len() {
                let row = self.row + 1;
                self.place(self.lines, row, least(self.col, self.lines[row].len() as int))
            } else {
                self
            },
            Direction::Left => if self.col > 0 {
                self.place(self.lines, self.row, self.col - 1)
            } else {
                self
            },
            Direction::Right => if self.col < self.line().len() {
                self.place(self.lines, self.row, self.col + 1)
            } else {
                self
            },
            Direction::Start => self.place(self.lines, self.row, 0),
            Direction::End => self.place(self.lines, self.row, self.line().len() as int),
        }
    }

    /// The window one row up, if it is not at the top. The cursor keeps its
    /// place in the window, and its column as far as the new line reaches.
    pub open spec fn scroll_up(self) -> Screen {
        if self.first_row > 0 {
            let row = self.row - 1;
            let col = least(self.col, self.lines[row].len() as int);
            Screen {
                first_row: self.first_row - 1,
                row,
                col,
                first_col: least(self.first_col, col),
                ..self
            }
        } else {
            self
        }
    }

    /// The window one row down, as long as more than a terminal's height and
    /// one line lie below its first row. The cursor keeps its place in the
    /// window if the document reaches that far, and its column as far as the
    /// new line reaches.
    pub open spec fn scroll_down(self) -> Screen {
        if self.first_row + self.height + 1 < self.lines.len() {
            let row = least(self.row + 1, self.lines.len() - 1);
            let col = least(self.col, self.lines[row].len() as int);
            Screen {
                first_row: self.first_row + 1,
                row,
                col,
                first_col: least(self.first_col, col),
                ..self
            }
        } else {
            self
        }
    }

    /// The window one column left, if it is not at the left edge. The cursor
    /// keeps its place in the window.
    pub open spec fn scroll_left(self) -> Screen {
        if self.first_col > 0 {
            Screen {
                first_col: self.first_col - 1,
                col: self.col - 1,
                ..self
            }
        } else {
            self
        }
    }

    /// The window one column right, if the line under the cursor lets the
    /// cursor keep its place in the window.
    pub open spec fn scroll_right(self) -> Screen {
        if self.col < self.line().len() {
            Screen { first_col: self.first_col + 1, col: self.col + 1, ..self }
        } else {
            self
        }
    }

    /// The window panned by a key: up, down or left. The other directions
    /// leave it.
    pub open spec fn scroll(self, dir: Direction) -> Screen {
        match dir {
            Direction::Up => self.scroll_up(),
            Direction::Down => self.scroll_down(),
            Direction::Left => self.scroll_left(),
            _ => self,
        }
    }

    /// The screen on a terminal of another size.
    pub open spec fn resize(self, width: int, height: int) -> Screen {
        Screen {
            width,
            height,
            first_row: least(self.first_row, last_top(self.lines.len() as int, height)),
            ..self
        }
    }

    /// The cursor at the window's first row and column, as far as that line
    /// reaches.
    pub open spec fn home(self) -> Screen {
        let col = least(self.first_col, self.lines[self.first_row].len() as int);
        self.place(self.lines, self.first_row, col)
    }

    /// Whether the window shows the row of the cursor.
    pub open spec fn shows_cursor_row(self) -> bool {
        self.screen_row() < self.height
    }

    /// The line under the cursor as the window shows it, from the window's
    /// first column on, if the window shows that row.
    pub open spec fn shown_line(self) -> Option<Seq<char>> {
        if self.shows_cursor_row() {
            Some(clipped(self.line(), self.first_col))
        } else {
            None
        }
    }

    /// How many rows of the document the window shows.
    pub open spec fn visible_count(self) -> int {
        least(self.height, self.lines.len() - self.first_row)
    }

    /// What the window shows: the lines from its first row on, as many as the
    /// terminal has rows, each from the window's first column on.
    pub open spec fn frame(self) -> Seq<Seq<char>> {
        Seq::new(
            self.visible_count() as nat,
            |i: int| clipped(self.lines[self.first_row + i], self.first_col),
        )
    }

    /// `text` put in at the cursor, and the cursor behind it.
    pub open spec fn insert(self, text: Seq<char>) -> Screen {
        let line = with_text(self.line(), self.col, text);
        self.place(settle(self.lines.update(self.row, line)), self.row, self.col + text.len())
    }

    /// Whether the line has room for `text`, and the document for one more
    /// line where the text goes into its last row.
    pub open spec fn can_insert(self, text: Seq<char>) -> bool {
        &&& self.line().len() + text.len() <= usize::MAX
        &&& self.row + 1 == self.lines.len() && text.len() > 0 ==> self.lines.len() < usize::MAX
    }

    /// The line broken at the cursor: what was from the cursor on makes a new
    /// line below, and the cursor goes to its start.
    pub open spec fn split_line(self) -> Screen {
        let line = self.line();
        let head = line.subrange(0, self.col);
        let tail = line.subrange(self.col, line.len() as int);
        self.place(
            self.lines.update(self.row, head).insert(self.row + 1, tail),
            self.row + 1,
            0,
        )
    }

    /// Whether the document has room for one more line.
    pub open spec fn can_split_line(self) -> bool {
        self.lines.len() < usize::MAX
    }

    /// The line under the cursor joined to the one above. An empty line is
    /// taken out, and the cursor stays where it is; if that was the last
    /// line, the cursor goes to the end of what is now the last one, and the
    /// document gets its empty last line back. A line with text goes behind
    /// the text of the line above, and the cursor between the two; on the
    /// first row nothing happens.
    pub open spec fn splice_up(self) -> Screen {
        if self.line().len() == 0 {
            let rest = self.lines.remove(self.row);
            if self.row < rest.len() {
                self.place(settle(rest), self.row, 0)
            } else if rest.len() > 0 {
                self.place(settle(rest), rest.len() - 1, rest.last().len() as int)
            } else {
                self.place(settle(rest), 0, 0)
            }
        } else if self.row > 0 {
            let above = self.lines[self.row - 1];
            self.place(
                self.lines.update(self.row - 1, above + self.line()).remove(self.row),
                self.row - 1,
                above.len() as int,
            )
        } else {
            self
        }
    }

    /// Whether the line above has room for the line under the cursor, where
    /// the two are to be joined.
    pub open spec fn can_splice_up(self) -> bool {
        self.line().len() > 0 && self.row > 0 ==> self.lines[self.row - 1].len()
            + self.line().len() <= usize::MAX
    }

    /// The line below joined to the line under the cursor, if there is a
    /// line below. The cursor stays.
    pub open spec fn splice_down(self) -> Screen {
        if self.row + 1 < self.lines.len() {
            let joined = self.line() + self.lines[self.row + 1];
            self.place(
                settle(self.lines.update(self.row, joined).remove(self.row + 1)),
                self.row,
                self.col,
            )
        } else {
            self
        }
    }

    /// Whether the line under the cursor has room for the line below.
    pub open spec fn can_splice_down(self) -> bool {
        self.row + 1 < self.lines.len() ==> self.line().len() + self.lines[self.row + 1].len()
            <= usize::MAX
    }

    /// The character `offset` columns before the cursor taken out, and the
    /// cursor moved left by `offset`. If the line starts less than `offset`
    /// columns before the cursor, the line is joined to the one above
    /// instead. If the line ends before that column, nothing happens.
    pub open spec fn delete(self, offset: int) -> Screen {
        if self.col < offset {
            self.splice_up()
        } else {
            let pos = self.col - offset;
            if pos < self.line().len() {
                self.place(
                    self.lines.update(self.row, self.line().remove(pos)),
                    self.row,
                    pos,
                )
            } else {
                self
            }
        }
    }

    /// Whether `delete` has the room it needs.
    pub open spec fn can_delete(self, offset: int) -> bool {
        self.col < offset ==> self.can_splice_up()
    }

    /// What is to be drawn after `delete`.
    pub open spec fn delete_action(self, offset: int) -> Action {
        if self.col < offset {
            Action::RedrawAll
        } else if self.col - offset < self.line().len() {
            Action::RedrawLine
        } else {
            Action::Idle
        }
    }
}

/// The screen and what was last cut.
pub struct Session {
    /// The document, the cursor and the window.
    pub screen: Screen,
    /// The text that was last cut, if any was.
    pub clipboard: Option<Seq<char>>,
}

impl Session {
    /// The screen is sound.
    pub open spec fn wf(self) -> bool {
        self.screen.wf()
    }

    /// The line cut from the cursor to its end; what is cut is kept in place
    /// of what was cut before. On an empty line, the line is joined to the
    /// one above instead; at the end of a line, the line below is joined to
    /// it. Neither touches what was cut before.
    pub open spec fn kill(self) -> Session {
        let s = self.screen;
        let line = s.line();
        if line.len() == 0 {
            Session { screen: s.splice_up(), ..self }
        } else if s.col < line.len() {
            Session {
                screen: s.place(s.lines.update(s.row, line.subrange(0, s.col)), s.row, s.col),
                clipboard: Some(line.subrange(s.col, line.len() as int)),
            }
        } else {
            Session { screen: s.splice_down(), ..self }
        }
    }

    /// Whether `kill` has the room it needs.
    pub open spec fn can_kill(self) -> bool {
        let s = self.screen;
        if s.line().len() == 0 {
            s.can_splice_up()
        } else if s.col < s.line().len() {
            true
        } else {
            s.can_splice_down()
        }
    }

    /// What is to be drawn after `kill`.
    pub open spec fn kill_action(self) -> Action {
        let s = self.screen;
        if s.line().len() > 0 && s.col < s.line().len() {
            Action::RedrawLine
        } else {
            Action::RedrawAll
        }
    }

    /// What was last cut, put in at the cursor. Nothing happens if nothing
    /// was cut yet.
    pub open spec fn paste(self) -> Session {
        match self.clipboard {
            Some(text) => Session { screen: self.screen.insert(text), ..self },
            None => self,
        }
    }

    /// Whether `paste` has the room it needs.
    pub open spec fn can_paste(self) -> bool {
        match self.clipboard {
            Some(text) => self.screen.can_insert(text),
            None => true,
        }
    }

    /// What a command makes of the session.
    pub open spec fn apply(self, cmd: Command) -> Session {
        match cmd {
            Command::Quit => self,
            Command::Scroll(dir) => Session { screen: self.screen.scroll(dir), ..self },
            Command::Move(dir) => Session { screen: self.screen.move_cursor(dir), ..self },
            Command::SplitLine => Session { screen: self.screen.split_line(), ..self },
            Command::Backspace => Session { screen: self.screen.delete(1), ..self },
            Command::Delete => Session { screen: self.screen.delete(0), ..self },
            Command::Tab => Session { screen: self.screen.insert(typed(cmd)), ..self },
            Command::Type(_) => Session { screen: self.screen.insert(typed(cmd)), ..self },
            Command::TypeUpper(_) => Session { screen: self.screen.insert(typed(cmd)), ..self },
            Command::Kill => self.kill(),
            Command::Paste => self.paste(),
            Command::Save => self,
            Command::Ignore => self,
        }
    }

    /// Whether the command's result fits into the machine's memory. A command
    /// that does not fit is not carried out.
    pub open spec fn can_apply(self, cmd: Command) -> bool {
        match cmd {
            Command::SplitLine => self.screen.can_split_line(),
            Command::Backspace => self.screen.can_delete(1),
            Command::Delete => self.screen.can_delete(0),
            Command::Tab => self.screen.can_insert(typed(cmd)),
            Command::Type(_) => self.screen.can_insert(typed(cmd)),
            Command::TypeUpper(_) => self.screen.can_insert(typed(cmd)),
            Command::Kill => self.can_kill(),
            Command::Paste => self.can_paste(),
            _ => true,
        }
    }

    /// The session after a command: what the command makes of it if that
    /// fits, else the session as it was.
    pub open spec fn step(self, cmd: Command) -> Session {
        if self.can_apply(cmd) {
            self.apply(cmd)
        } else {
            self
        }
    }

    /// What is to be done on the terminal after a command.
    pub open spec fn action(self, cmd: Command) -> Action {
        match cmd {
            Command::Quit => Action::Quit,
            Command::Scroll(dir) => match dir {
                Direction::Up => Action::RedrawAll,
                Direction::Down => Action::RedrawAll,
                Direction::Left => Action::RedrawAll,
                _ => Action::Idle,
            },
            Command::Move(_) => Action::Idle,
            Command::SplitLine => Action::RedrawAll,
            Command::Backspace => self.screen.delete_action(1),
            Command::Delete => self.screen.delete_action(0),
            Command::Tab => Action::RedrawLine,
            Command::Type(_) => Action::RedrawLine,
            Command::TypeUpper(_) => Action::RedrawLine,
            Command::Kill => self.kill_action(),
            Command::Paste => Action::RedrawLine,
            Command::Save => Action::Save,
            Command::Ignore => Action::Idle,
        }
    }

    /// The session after an event: a key press is looked up in the table
    /// and the command carried out, a new size of the terminal is taken, and
    /// anything else is passed over.
    pub open spec fn handle(self, event: Event) -> Session {
        match event {
            Event::Key(key) => self.step(command_for(key)),
            Event::Resize(cols, rows) => Session {
                screen: self.screen.resize(cols as int, rows as int),
                ..self
            },
            Event::Other => self,
        }
    }

    /// What is to be done on the terminal after an event. After a new size
    /// the whole window is drawn again.
    pub open spec fn reaction(self, event: Event) -> Action {
        match event {
            Event::Key(key) => self.action(command_for(key)),
            Event::Resize(_, _) => Action::RedrawAll,
            Event::Other => Action::Idle,
        }
    }

    /// The session after a row of events, first to last.
    pub open spec fn run(self, events: Seq<Event>) -> Session
        decreases events.len(),
    {
        if events.len() == 0 {
            self
        } else {
            self.run(events.drop_last()).handle(events.last())
        }
    }
}

/// The text that a command types: four spaces for the tabulator, the
/// character for a character key, its upper case form with shift. Nothing
/// for the other commands.
pub open spec fn typed(cmd: Command) -> Seq<char> {
    match cmd {
        Command::Tab => seq![' ', ' ', ' ', ' '],
        Command::Type(c) => seq![c],
        Command::TypeUpper(c) => upper_case_of(c),
        _ => Seq::empty(),
    }
}

} // verus!
