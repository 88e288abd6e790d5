//! The document on the screen: its lines, the cursor, and the window that the
//! terminal shows of it.

use crate::buf::{from_string, to_string, Document, Line};
use crate::config::Config;
use crate::model::{clipped, last_top, least, settle, settled, Screen};
use crate::text::split_lines;
use vstd::prelude::*;

verus! {

/// The document, the cursor in it, and the window over it.
pub struct Display {
    pub(crate) lines: Document,
    pub(crate) first_row: usize,
    pub(crate) first_col: usize,
    pub(crate) file_name: String,
    pub(crate) row: usize,
    pub(crate) col: usize,
    pub(crate) height: usize,
    pub(crate) width: usize,
}

/// The terminal's report of the cursor, as the editor counts: column, then
/// row.
pub fn cursor_pos_usize(x: u16, y: u16) -> (pos: (usize, usize))
    ensures
        pos.0 == x,
        pos.1 == y,
{
    (x as usize, y as usize)
}

/// The terminal's report of its size, as the editor counts: columns, then
/// rows.
pub fn terminal_usize(col: u16, row: u16) -> (size: (usize, usize))
    ensures
        size.0 == col,
        size.1 == row,
{
    (col as usize, row as usize)
}

/// The text of `line` from column `first_col` on.
fn clip(line: &Line, first_col: usize) -> (s: String)
    ensures
        s@ == clipped(line@, first_col as int),
{
    let mut s = String::new();
    let n = line.len();
    if first_col < n {
        let mut i: usize = first_col;
        while i < n
            invariant
                n == line@.len(),
                first_col <= i <= n,
                s@ == line@.subrange(first_col as int, i as int),
            decreases n - i,
        {
            s.push(line.get(i));
            i = i + 1;
        }
    }
    s
}

impl Display {
    /// What is on the screen.
    pub open(crate) spec fn view(&self) -> Screen {
        Screen {
            lines: self.lines@,
            row: self.row as int,
            col: self.col as int,
            first_row: self.first_row as int,
            first_col: self.first_col as int,
            height: self.height as int,
            width: self.width as int,
            file_name: self.file_name@,
        }
    }

    /// The document ends in an empty line, the cursor is in the document, and
    /// the window starts at or before the cursor and no lower than the
    /// document's length allows.
    pub open spec fn wf(&self) -> bool {
        self@.wf()
    }

    /// The screen for a file's content: its lines and an empty line behind
    /// them, the cursor and the window at the top left.
    pub fn new(content: &str, config: &Config) -> (display: Display)
        requires
            content@.len() < usize::MAX,
        ensures
            display.wf(),
            display@ == Screen::start(split_lines(content@).push(Seq::empty()), config.file_name@),
    {
        Display {
            lines: from_string(content),
            first_row: 0,
            first_col: 0,
            file_name: config.file_name.clone(),
            row: 0,
            col: 0,
            height: 0,
            width: 0,
        }
    }

    /// The same, for any content: the screen, unless the content has more
    /// characters than a document can count.
    pub fn try_new(content: &str, config: &Config) -> (display: Option<Display>)
        ensures
            display is Some <==> content@.len() < usize::MAX,
            display matches Some(d) ==> d.wf() && d@ == Screen::start(
                split_lines(content@).push(Seq::empty()),
                config.file_name@,
            ),
    {
        if content.unicode_len() < usize::MAX {
            Some(Display::new(content, config))
        } else {
            None
        }
    }

    /// The lowest row at which the window may start.
    fn last_top(&self) -> (top: usize)
        ensures
            top == last_top(self@.lines.len() as int, self@.height),
    {
        let count = self.lines.len();
        if count > self.height {
            count - self.height
        } else {
            0
        }
    }

    /// Whether the screen is sound, found out at run time.
    pub fn well_formed(&self) -> (b: bool)
        ensures
            b == self.wf(),
    {
        let count = self.lines.len();
        if count == 0 || self.row >= count || self.first_row > self.row || self.first_col
            > self.col {
            return false;
        }
        self.lines.line(count - 1).is_empty() && self.col <= self.lines.line(self.row).len()
            && self.first_row <= self.last_top()
    }

    /// Takes the size that the terminal reports. The window moves up if the
    /// document is too short for it at its place.
    pub fn resize(&mut self, width: usize, height: usize)
        requires
            old(self).wf(),
        ensures
            final(self).wf(),
            final(self)@ == old(self)@.resize(width as int, height as int),
    {
        self.width = width;
        self.height = height;
        let top = self.last_top();
        if self.first_row > top {
            self.first_row = top;
        }
    }

    /// Puts an empty line behind the last line, unless the last line is
    /// empty: then the lines stay as they are. Room for a line is needed only
    /// where one is put.
    pub(crate) fn add_new_line(&mut self)
        requires
            settled(old(self)@.lines) || old(self)@.lines.len() < usize::MAX,
        ensures
            final(self)@ == (Screen { lines: settle(old(self)@.lines), ..old(self)@ }),
            final(self)@.lines.len() >= 1,
            final(self)@.lines.last().len() == 0,
    {
        let count = self.lines.len();
        if count == 0 || !self.lines.line(count - 1).is_empty() {
            self.lines.push_back(Line::new());
        }
    }

    /// Puts the cursor at a row and column of the document. The window moves
    /// up or left if the cursor would be above or left of it, or if the
    /// document is too short for it at its place.
    pub(crate) fn place(&mut self, row: usize, col: usize)
        ensures
            final(self)@ == old(self)@.place(old(self)@.lines, row as int, col as int),
    {
        self.row = row;
        self.col = col;
        let top = self.last_top();
        if self.first_row > row {
            self.first_row = row;
        }
        if self.first_row > top {
            self.first_row = top;
        }
        if self.first_col > col {
            self.first_col = col;
        }
    }

    /// Keeps the cursor's column within its line, and the window's first
    /// column at or before the cursor.
    fn clamp_col(&mut self)
        requires
            old(self).row < old(self).lines@.len(),
        ensures
            final(self)@ == (Screen {
                col: least(old(self)@.col, old(self)@.line().len() as int),
                first_col: least(
                    old(self)@.first_col,
                    least(old(self)@.col, old(self)@.line().len() as int),
                ),
                ..old(self)@
            }),
    {
        let len = self.lines.line(self.row).len();
        if self.col > len {
            self.col = len;
        }
        if self.first_col > self.col {
            self.first_col = self.col;
        }
    }

    /// Pans the window one row down, as long as more than a terminal's
    /// height and one line lie below its first row.
    pub fn move_down(&mut self)
        requires
            old(self).wf(),
        ensures
            final(self).wf(),
            final(self)@ == old(self)@.scroll_down(),
    {
        let count = self.lines.len();
        if self.height < count && self.first_row < count - self.height - 1 {
            self.first_row = self.first_row + 1;
            if self.row + 1 < count {
                self.row = self.row + 1;
            }
            self.clamp_col();
        }
    }

    /// Pans the window one row up, if it is not at the top.
    pub fn move_up(&mut self)
        requires
            old(self).wf(),
        ensures
            final(self).wf(),
            final(self)@ == old(self)@.scroll_up(),
    {
        if self.first_row > 0 {
            self.first_row = self.first_row - 1;
            self.row = self.row - 1;
            self.clamp_col();
        }
    }

    /// Pans the window one column left, if it is not at the left edge.
    pub fn move_left(&mut self)
        requires
            old(self).wf(),
        ensures
            final(self).wf(),
            final(self)@ == old(self)@.scroll_left(),
    {
        if self.first_col > 0 {
            self.first_col = self.first_col - 1;
            self.col = self.col - 1;
        }
    }

    /// Pans the window one column right, if the line under the cursor goes
    /// on behind the cursor.
    pub fn move_right(&mut self)
        requires
            old(self).wf(),
        ensures
            final(self).wf(),
            final(self)@ == old(self)@.scroll_right(),
    {
        if self.col < self.lines.line(self.row).len() {
            self.first_col = self.first_col + 1;
            self.col = self.col + 1;
        }
    }

    /// Where the cursor is in the document: its row, then its column. This
    /// is the cursor's place in the window, displaced by the window's first
    /// row and column.
    pub fn cursor_pos_diplaced(&self) -> (pos: (usize, usize))
        ensures
            pos.0 == self@.row,
            pos.1 == self@.col,
            pos.0 == self@.screen_row() + self@.first_row,
            pos.1 == self@.screen_col() + self@.first_col,
    {
        (self.row, self.col)
    }

    /// Where the cursor is in the window: its column, then its row, counted
    /// from the window's first column and row. The place may lie right of
    /// or below what the terminal has room for.
    pub fn cursor_pos(&self) -> (pos: (usize, usize))
        requires
            self.wf(),
        ensures
            pos.0 == self@.screen_col(),
            pos.1 == self@.screen_row(),
    {
        (self.col - self.first_col, self.row - self.first_row)
    }

    /// What the window shows: the lines from its first row on, as many as the
    /// terminal has rows, each from the window's first column on.
    pub fn refresh(&self) -> (frame: Vec<String>)
        requires
            self.wf(),
        ensures
            frame@.len() == self@.frame().len(),
            forall|i: int| 0 <= i < frame@.len() ==> (#[trigger] frame@[i])@ == self@.frame()[i],
    {
        let count = self.lines.len();
        let below = count - self.first_row;
        let n = if self.height < below {
            self.height
        } else {
            below
        };
        let mut frame: Vec<String> = Vec::new();
        let mut i: usize = 0;
        while i < n
            invariant
                self.wf(),
                count == self@.lines.len(),
                n == self@.visible_count(),
                i <= n,
                frame@.len() == i,
                forall|k: int| 0 <= k < i ==> (#[trigger] frame@[k])@ == self@.frame()[k],
            decreases n - i,
        {
            frame.push(clip(self.lines.line(self.first_row + i), self.first_col));
            i = i + 1;
        }
        frame
    }

    /// What the window shows of the line under the cursor: its text from
    /// the window's first column on. Nothing if the cursor is below the rows
    /// of the terminal: then there is no line to draw.
    pub fn refresh_line(&self) -> (text: Option<String>)
        requires
            self.wf(),
        ensures
            text is Some <==> self@.shows_cursor_row(),
            text matches Some(t) ==> self@.shown_line() == Some(t@),
    {
        if self.row - self.first_row < self.height {
            Some(clip(self.lines.line(self.row), self.first_col))
        } else {
            None
        }
    }

    /// Starts the session on the terminal: the cursor goes to the top left
    /// of the window, and the window is drawn.
    pub fn show(&mut self) -> (frame: Vec<String>)
        requires
            old(self).wf(),
        ensures
            final(self).wf(),
            final(self)@ == old(self)@.home(),
            frame@.len() == final(self)@.frame().len(),
            forall|i: int|
                0 <= i < frame@.len() ==> (#[trigger] frame@[i])@ == final(self)@.frame()[i],
    {
        let len = self.lines.line(self.first_row).len();
        let col = if self.first_col < len {
            self.first_col
        } else {
            len
        };
        self.place(self.first_row, col);
        self.refresh()
    }

    /// The number of lines in the document, the empty last line counted.
    pub fn line_count(&self) -> (n: usize)
        ensures
            n == self@.lines.len(),
    {
        self.lines.len()
    }

    /// The text of the line at `row`, if the document has such a row.
    pub fn line_text(&self, row: usize) -> (text: Option<String>)
        ensures
            text is Some <==> row < self@.lines.len(),
            text matches Some(t) ==> t@ == self@.lines[row as int],
    {
        if row < self.lines.len() {
            Some(to_string(self.lines.line(row)))
        } else {
            None
        }
    }

    /// The row of the document that the window shows first.
    pub fn first_row(&self) -> (row: usize)
        ensures
            row == self@.first_row,
    {
        self.first_row
    }

    /// The column that the window shows first.
    pub fn first_col(&self) -> (col: usize)
        ensures
            col == self@.first_col,
    {
        self.first_col
    }

    /// The path of the file that the document belongs to.
    pub fn file_name(&self) -> (name: &String)
        ensures
            name@ == self@.file_name,
    {
        &self.file_name
    }

    /// The size of the terminal as last reported: columns, then rows.
    pub fn terminal_size(&self) -> (size: (usize, usize))
        ensures
            size.0 == self@.width,
            size.1 == self@.height,
    {
        (self.width, self.height)
    }
}

} // verus!
