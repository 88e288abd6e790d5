//! Line storage: gap buffers of characters, and a gap buffer of such lines.
//!
//! A gap buffer keeps its free space where the last change was made, so that
//! typing and deleting at one place do not move the rest of the text. The
//! buffers come from the `gapbuf` crate. Verus does not look inside them:
//! what a line and a document hold is given a name here (`line_chars`,
//! `document_lines`), and everything that is assumed about `gapbuf` is
//! stated over these names on the methods marked `external_body`. Each of
//! them holds one call into `gapbuf` and decides nothing itself.
//!
//! As with `Vec`, nothing is said here of a machine that runs out of memory:
//! a buffer that cannot get the memory it asks for ends the program.

use crate::text::{completed_lines, split_lines, unfinished_line};
use gapbuf::GapBuffer;
use vstd::prelude::*;

verus! {

/// One line of text, without its line ending: a `gapbuf::GapBuffer` of
/// characters. Verus is told nothing of what is inside; `line_chars` names
/// it.
#[verifier::external_body]
pub struct Line {
    chars: GapBuffer<char>,
}

/// The lines of a document, in order: a `gapbuf::GapBuffer` of lines. Verus
/// is told nothing of what is inside; `document_lines` names it.
#[verifier::external_body]
pub struct Document {
    rows: GapBuffer<Line>,
}

/// The characters that a line holds, first to last.
pub uninterp spec fn line_chars(line: Line) -> Seq<char>;

/// The lines that a document holds, top to bottom, each as its characters.
pub uninterp spec fn document_lines(doc: Document) -> Seq<Seq<char>>;

impl View for Line {
    type V = Seq<char>;

    open spec fn view(&self) -> Seq<char> {
        line_chars(*self)
    }
}

impl View for Document {
    type V = Seq<Seq<char>>;

    open spec fn view(&self) -> Seq<Seq<char>> {
        document_lines(*self)
    }
}

impl Line {
    /// `GapBuffer::new`: a buffer without elements.
    #[verifier::external_body]
    pub(crate) fn new() -> (line: Line)
        ensures
            line_chars(line) == Seq::<char>::empty(),
    {
        Line { chars: GapBuffer::new() }
    }

    /// `Slice::len`, reached through `GapBuffer`'s `Deref`: the number of
    /// elements.
    #[verifier::external_body]
    pub(crate) fn len(&self) -> (n: usize)
        ensures
            n == line_chars(*self).len(),
    {
        self.chars.len()
    }

    /// `Slice::is_empty`: whether the number of elements is zero.
    #[verifier::external_body]
    pub(crate) fn is_empty(&self) -> (b: bool)
        ensures
            b == (line_chars(*self).len() == 0),
    {
        self.chars.is_empty()
    }

    /// `Index::index` of `GapBuffer`: the element at `col`. The outside
    /// function panics when `col` is not below the length; that is required
    /// here.
    #[verifier::external_body]
    pub(crate) fn get(&self, col: usize) -> (c: char)
        requires
            col < line_chars(*self).len(),
        ensures
            c == line_chars(*self)[col as int],
    {
        self.chars[col]
    }

    /// `GapBuffer::push_back`: the element is added behind the last one. The
    /// outside function panics when the length would pass `usize::MAX`.
    #[verifier::external_body]
    pub(crate) fn push_back(&mut self, c: char)
        requires
            line_chars(*old(self)).len() < usize::MAX,
        ensures
            line_chars(*final(self)) == line_chars(*old(self)).push(c),
    {
        self.chars.push_back(c)
    }

    /// `GapBuffer::insert_many` with the characters of `text`: they stand at
    /// `col`, in their order, between what was before `col` and what was
    /// from `col` on. The outside function panics when `col` is above the
    /// length or the new length would pass `usize::MAX`.
    #[verifier::external_body]
    pub(crate) fn insert_many(&mut self, col: usize, text: &str)
        requires
            col <= line_chars(*old(self)).len(),
            line_chars(*old(self)).len() + text@.len() <= usize::MAX,
        ensures
            line_chars(*final(self)) == line_chars(*old(self)).subrange(0, col as int) + text@
                + line_chars(*old(self)).subrange(col as int, line_chars(*old(self)).len() as int),
    {
        self.chars.insert_many(col, text.chars())
    }

    /// `GapBuffer::remove`: takes the element at `col` out and returns it;
    /// the others keep their order. Required: `col` is below the length.
    #[verifier::external_body]
    pub(crate) fn remove(&mut self, col: usize) -> (c: char)
        requires
            col < line_chars(*old(self)).len(),
        ensures
            c == line_chars(*old(self))[col as int],
            line_chars(*final(self)) == line_chars(*old(self)).remove(col as int),
    {
        self.chars.remove(col)
    }

    /// `GapBuffer::drain` over `col..`, collected into a new buffer: the
    /// elements from `col` on leave this line and make up the returned one,
    /// in their order. The outside function panics when `col` is above the
    /// length.
    #[verifier::external_body]
    pub(crate) fn drain(&mut self, col: usize) -> (tail: Line)
        requires
            col <= line_chars(*old(self)).len(),
        ensures
            line_chars(*final(self)) == line_chars(*old(self)).subrange(0, col as int),
            line_chars(tail) == line_chars(*old(self)).subrange(
                col as int,
                line_chars(*old(self)).len() as int,
            ),
    {
        Line { chars: self.chars.drain(col..).collect() }
    }
}

impl Document {
    /// `GapBuffer::new`: a buffer without elements.
    #[verifier::external_body]
    pub(crate) fn new() -> (doc: Document)
        ensures
            document_lines(doc) == Seq::<Seq<char>>::empty(),
    {
        Document { rows: GapBuffer::new() }
    }

    /// `Slice::len`, reached through `GapBuffer`'s `Deref`: the number of
    /// elements.
    #[verifier::external_body]
    pub(crate) fn len(&self) -> (n: usize)
        ensures
            n == document_lines(*self).len(),
    {
        self.rows.len()
    }

    /// `Index::index` of `GapBuffer`: the element at `row`. Required: `row`
    /// is below the length.
    #[verifier::external_body]
    pub(crate) fn line(&self, row: usize) -> (line: &Line)
        requires
            row < document_lines(*self).len(),
        ensures
            line_chars(*line) == document_lines(*self)[row as int],
    {
        &self.rows[row]
    }

    /// `IndexMut::index_mut` of `GapBuffer`: the element at `row`, to be
    /// changed in place. Whatever the caller leaves in it is what the
    /// document then holds at `row`; the other lines stay. Required: `row` is
    /// below the length.
    #[verifier::external_body]
    pub(crate) fn line_mut(&mut self, row: usize) -> (line: &mut Line)
        requires
            row < document_lines(*old(self)).len(),
        ensures
            line_chars(*line) == document_lines(*old(self))[row as int],
            document_lines(*final(self)) == document_lines(*old(self)).update(
                row as int,
                line_chars(*final(line)),
            ),
    {
        &mut self.rows[row]
    }

    /// `GapBuffer::push_back`: the line is added behind the last one.
    /// Required: the length is below `usize::MAX`.
    #[verifier::external_body]
    pub(crate) fn push_back(&mut self, line: Line)
        requires
            document_lines(*old(self)).len() < usize::MAX,
        ensures
            document_lines(*final(self)) == document_lines(*old(self)).push(line_chars(line)),
    {
        self.rows.push_back(line)
    }

    /// `GapBuffer::insert`: the line stands at `row`, and what was at `row`
    /// or below moves down by one. The outside function panics when `row` is
    /// above the length or the new length would pass `usize::MAX`.
    #[verifier::external_body]
    pub(crate) fn insert(&mut self, row: usize, line: Line)
        requires
            row <= document_lines(*old(self)).len(),
            document_lines(*old(self)).len() < usize::MAX,
        ensures
            document_lines(*final(self)) == document_lines(*old(self)).insert(
                row as int,
                line_chars(line),
            ),
    {
        self.rows.insert(row, line)
    }

    /// `GapBuffer::remove`: takes the line at `row` out and returns it; the
    /// others keep their order. Required: `row` is below the length.
    #[verifier::external_body]
    pub(crate) fn remove(&mut self, row: usize) -> (line: Line)
        requires
            row < document_lines(*old(self)).len(),
        ensures
            line_chars(line) == document_lines(*old(self))[row as int],
            document_lines(*final(self)) == document_lines(*old(self)).remove(row as int),
    {
        self.rows.remove(row)
    }
}

impl Line {
    /// A line without characters.
    pub fn empty() -> (line: Line)
        ensures
            line@ == Seq::<char>::empty(),
    {
        Line::new()
    }

    /// The number of characters in the line.
    pub fn length(&self) -> (n: usize)
        ensures
            n == self@.len(),
    {
        self.len()
    }
}

impl Document {
    /// The number of lines in the document.
    pub fn line_count(&self) -> (n: usize)
        ensures
            n == self@.len(),
    {
        self.len()
    }

    /// The line at `row`, if the document has such a row.
    pub fn line_at(&self, row: usize) -> (line: Option<&Line>)
        ensures
            line is Some <==> row < self@.len(),
            line matches Some(l) ==> l@ == self@[row as int],
    {
        if row < self.len() {
            Some(self.line(row))
        } else {
            None
        }
    }
}

/// `String::push`: the character is added behind the last one.
pub assume_specification[ String::push ](s: &mut String, ch: char)
    ensures
        final(s)@ == old(s)@.push(ch),
;

/// The text of a line as a `String`.
pub fn to_string(buf: &Line) -> (s: String)
    ensures
        s@ == buf@,
{
    let mut s = String::new();
    let n = buf.len();
    let mut i: usize = 0;
    while i < n
        invariant
            n == buf@.len(),
            i <= n,
            s@ == buf@.subrange(0, i as int),
        decreases n - i,
    {
        s.push(buf.get(i));
        i = i + 1;
    }
    s
}

/// Appends the characters of `text` to `buf`, in their order.
pub fn push_owned(buf: &mut Line, text: &str)
    requires
        old(buf)@.len() + text@.len() <= usize::MAX,
    ensures
        final(buf)@ == old(buf)@ + text@,
{
    let ghost start = buf@;
    for c in it: text.chars()
        invariant
            it.seq() == text@,
            start.len() + text@.len() <= usize::MAX,
            buf@ == start + text@.subrange(0, it.index()),
    {
        buf.push_back(c);
    }
}

/// Appends a copy of each character of `other` to `buf`, in their order.
pub fn push_ref(buf: &mut Line, other: &Line)
    requires
        old(buf)@.len() + other@.len() <= usize::MAX,
    ensures
        final(buf)@ == old(buf)@ + other@,
{
    let ghost start = buf@;
    let n = other.len();
    let mut i: usize = 0;
    while i < n
        invariant
            n == other@.len(),
            i <= n,
            start.len() + n <= usize::MAX,
            buf@ == start + other@.subrange(0, i as int),
        decreases n - i,
    {
        buf.push_back(other.get(i));
        i = i + 1;
    }
}

/// The lines of `text`, each in a buffer of its own, and an empty line behind
/// the last of them. A line ends at a line feed; a carriage return directly
/// before the line feed belongs to the line ending. Text behind the last
/// line feed is a line too.
pub fn from_string(text: &str) -> (doc: Document)
    requires
        text@.len() < usize::MAX,
    ensures
        doc@ == split_lines(text@).push(Seq::empty()),
        doc@.len() >= 1,
        doc@.last().len() == 0,
{
    let mut doc = Document::new();
    let mut cur = Line::new();
    for c in it: text.chars()
        invariant
            it.seq() == text@,
            text@.len() < usize::MAX,
            doc@ == completed_lines(text@.subrange(0, it.index())),
            cur@ == unfinished_line(text@.subrange(0, it.index())),
            doc@.len() + cur@.len() <= it.index(),
    {
        proof {
            let next = text@.subrange(0, it.index() + 1);
            assert(next.drop_last() == text@.subrange(0, it.index()));
        }
        if c == '\n' {
            let n = cur.len();
            if n > 0 && cur.get(n - 1) == '\r' {
                cur.remove(n - 1);
            }
            doc.push_back(cur);
            cur = Line::new();
        } else {
            cur.push_back(c);
        }
    }
    assert(text@.subrange(0, text@.len() as int) == text@);
    if !cur.is_empty() {
        doc.push_back(cur);
    }
    doc.push_back(Line::new());
    doc
}

} // verus!
