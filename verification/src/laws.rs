//! What holds of the editor whatever is typed.

use crate::keys::{command_for, Command, Direction, Event};
use crate::model::{settle, settled, typed, with_text, Screen, Session};
use vstd::prelude::*;

verus! {

/// Settling gives lines that end in an empty line. Lines that end in one
/// stay as they are; behind others one empty line is put, and nothing else
/// is changed.
pub proof fn lemma_settle(lines: Seq<Seq<char>>)
    ensures
        settled(settle(lines)),
        settle(lines).len() >= 1,
        settle(lines).last().len() == 0,
        settled(lines) ==> settle(lines) == lines,
        !settled(lines) ==> settle(lines) == lines.push(Seq::empty()),
{
}

/// Text typed on the last row of the document stands in that row, and one
/// empty line follows it: the document is one line longer and ends in an
/// empty line again.
pub proof fn lemma_insert_on_last_row(s: Screen, text: Seq<char>)
    requires
        s.wf(),
        s.row == s.lines.len() - 1,
        text.len() > 0,
    ensures
        s.insert(text).lines == s.lines.update(s.row, text).push(Seq::empty()),
        s.insert(text).lines.len() == s.lines.len() + 1,
        s.insert(text).lines[s.row] == text,
        s.insert(text).lines.last().len() == 0,
        s.insert(text).row == s.row,
        s.insert(text).col == text.len(),
        s.lines.len() < usize::MAX && text.len() <= usize::MAX ==> s.can_insert(text),
{
    assert(with_text(s.line(), s.col, text) == text);
}

/// A move of the cursor leaves the screen sound and the document as it
/// was.
pub proof fn lemma_move_cursor(s: Screen, dir: Direction)
    requires
        s.wf(),
    ensures
        s.move_cursor(dir).wf(),
        s.move_cursor(dir).lines == s.lines,
{
}

/// A pan of the window, to any side, leaves the screen sound and the
/// document as it was.
pub proof fn lemma_scroll(s: Screen, dir: Direction)
    requires
        s.wf(),
    ensures
        s.scroll(dir).wf(),
        s.scroll_right().wf(),
        s.scroll(dir).lines == s.lines,
        s.scroll_right().lines == s.lines,
{
}

/// A terminal of another size leaves the screen sound and the document and
/// the cursor as they were.
pub proof fn lemma_resize(s: Screen, width: int, height: int)
    requires
        s.wf(),
        0 <= width,
        0 <= height,
    ensures
        s.resize(width, height).wf(),
        s.resize(width, height).lines == s.lines,
        s.resize(width, height).row == s.row,
        s.resize(width, height).col == s.col,
{
}

/// Typing leaves the screen sound.
pub proof fn lemma_insert(s: Screen, text: Seq<char>)
    requires
        s.wf(),
    ensures
        s.insert(text).wf(),
{
}

/// Breaking a line leaves the screen sound.
pub proof fn lemma_split_line(s: Screen)
    requires
        s.wf(),
    ensures
        s.split_line().wf(),
{
}

/// Joining a line to the one above leaves the screen sound.
pub proof fn lemma_splice_up(s: Screen)
    requires
        s.wf(),
    ensures
        s.splice_up().wf(),
{
}

/// Joining the line below to a line leaves the screen sound.
pub proof fn lemma_splice_down(s: Screen)
    requires
        s.wf(),
    ensures
        s.splice_down().wf(),
{
}

/// Deleting a character leaves the screen sound.
pub proof fn lemma_delete(s: Screen, offset: int)
    requires
        s.wf(),
        0 <= offset,
    ensures
        s.delete(offset).wf(),
{
}

/// Cutting leaves the screen sound.
pub proof fn lemma_kill(s: Session)
    requires
        s.wf(),
    ensures
        s.kill().wf(),
{
}

/// After a command, whichever it is, the document has a line and ends in an
/// empty one, the cursor is on a row of the document and within that row's
/// text, and the window starts at or above the cursor and no lower than the
/// document allows. This holds of what the command makes of the session, and
/// so of the session after it, carried out or not.
pub proof fn lemma_step(s: Session, cmd: Command)
    requires
        s.wf(),
    ensures
        s.apply(cmd).wf(),
        s.step(cmd).wf(),
{
    match cmd {
        Command::Scroll(dir) => lemma_scroll(s.screen, dir),
        Command::Move(dir) => lemma_move_cursor(s.screen, dir),
        Command::SplitLine => lemma_split_line(s.screen),
        Command::Backspace => lemma_delete(s.screen, 1),
        Command::Delete => lemma_delete(s.screen, 0),
        Command::Tab => lemma_insert(s.screen, typed(cmd)),
        Command::Type(_) => lemma_insert(s.screen, typed(cmd)),
        Command::TypeUpper(_) => lemma_insert(s.screen, typed(cmd)),
        Command::Kill => lemma_kill(s),
        Command::Paste => match s.clipboard {
            Some(text) => lemma_insert(s.screen, text),
            None => {},
        },
        _ => {},
    }
}

/// After an event, whichever it is, the same holds.
pub proof fn lemma_handle(s: Session, event: Event)
    requires
        s.wf(),
    ensures
        s.handle(event).wf(),
{
    match event {
        Event::Key(key) => lemma_step(s, command_for(key)),
        Event::Resize(cols, rows) => lemma_resize(s.screen, cols as int, rows as int),
        Event::Other => {},
    }
}

/// After any row of events the document has a line and ends in an empty
/// one, the cursor's row is a row of the document, and its column is within
/// that row's text.
pub proof fn lemma_run(s: Session, events: Seq<Event>)
    requires
        s.wf(),
    ensures
        s.run(events).wf(),
        s.run(events).screen.lines.len() >= 1,
        s.run(events).screen.lines.last().len() == 0,
        0 <= s.run(events).screen.row < s.run(events).screen.lines.len(),
        0 <= s.run(events).screen.col <= s.run(events).screen.line().len(),
    decreases events.len(),
{
    if events.len() > 0 {
        lemma_run(s, events.drop_last());
        lemma_handle(s.run(events.drop_last()), events.last());
    }
}

/// Breaking a line at the cursor and then joining the new line to the one
/// above gives the document as it was, wherever in the line the cursor
/// stood. The breaking has room whenever the document has room for a line,
/// and the joining whenever the line that was broken had.
pub proof fn lemma_split_then_splice_up(s: Screen)
    requires
        s.wf(),
    ensures
        s.split_line().splice_up().lines == s.lines,
        s.split_line().splice_up().lines.len() == s.lines.len(),
        s.lines.len() < usize::MAX ==> s.can_split_line(),
        s.line().len() <= usize::MAX ==> s.split_line().can_splice_up(),
{
    let line = s.line();
    assert(line.subrange(0, s.col) + line.subrange(s.col, line.len() as int) == line);
}

/// Cutting the rest of a line and pasting it at once gives the line as it
/// was. This is said of a cursor that stands before the end of its line:
/// elsewhere nothing is cut. The cut always has room, and the paste has it
/// whenever the line as it was is no longer than a line can be.
pub proof fn lemma_kill_then_paste(s: Session)
    requires
        s.wf(),
        s.screen.col < s.screen.line().len(),
    ensures
        s.kill().paste().screen.lines == s.screen.lines,
        s.kill().paste().screen.line() == s.screen.line(),
        s.kill().clipboard == Some(
            s.screen.line().subrange(s.screen.col, s.screen.line().len() as int),
        ),
        s.can_kill(),
        s.screen.line().len() <= usize::MAX ==> s.kill().can_paste(),
{
    let line = s.screen.line();
    let head = line.subrange(0, s.screen.col);
    let tail = line.subrange(s.screen.col, line.len() as int);
    assert(with_text(head, s.screen.col, tail) == line);
}

/// The same of the keys: Enter and then Backspace give the document as it
/// was. Here the two commands are taken as the editor carries them out,
/// each only where its result fits; they fit where the document has room
/// for one more line and the line under the cursor is no longer than a line
/// can be.
pub proof fn lemma_enter_then_backspace(s: Session)
    requires
        s.wf(),
        s.screen.lines.len() < usize::MAX,
        s.screen.line().len() <= usize::MAX,
    ensures
        s.can_apply(Command::SplitLine),
        s.step(Command::SplitLine).can_apply(Command::Backspace),
        s.step(Command::SplitLine).step(Command::Backspace).screen.lines == s.screen.lines,
        s.step(Command::SplitLine).step(Command::Backspace).clipboard == s.clipboard,
{
    lemma_split_then_splice_up(s.screen);
}

/// Kill and then paste give the line as it was, for a cursor before the end
/// of its line. Here too the two commands are taken as the editor carries
/// them out; they fit where the line under the cursor is no longer than a
/// line can be.
pub proof fn lemma_kill_key_then_paste_key(s: Session)
    requires
        s.wf(),
        s.screen.col < s.screen.line().len(),
        s.screen.line().len() <= usize::MAX,
    ensures
        s.can_apply(Command::Kill),
        s.step(Command::Kill).can_apply(Command::Paste),
        s.step(Command::Kill).step(Command::Paste).screen.lines == s.screen.lines,
{
    lemma_kill_then_paste(s);
}

} // verus!
