//! The persisted form of a document: plain text, one line feed after each
//! line.

use vstd::prelude::*;

verus! {

/// `line` without one carriage return at its end, if it has one there.
pub open spec fn strip_cr(line: Seq<char>) -> Seq<char> {
    if line.len() > 0 && line.last() == '\r' {
        line.drop_last()
    } else {
        line
    }
}

/// What stands in `s` behind its last line feed (all of `s` if it has none).
pub open spec fn unfinished_line(s: Seq<char>) -> Seq<char>
    decreases s.len(),
{
    if s.len() == 0 || s.last() == '\n' {
        Seq::empty()
    } else {
        unfinished_line(s.drop_last()).push(s.last())
    }
}

/// The lines of `s` that a line feed ends, in order, each without the line
/// feed and without a carriage return directly before it.
pub open spec fn completed_lines(s: Seq<char>) -> Seq<Seq<char>>
    decreases s.len(),
{
    if s.len() == 0 {
        Seq::empty()
    } else if s.last() == '\n' {
        completed_lines(s.drop_last()).push(strip_cr(unfinished_line(s.drop_last())))
    } else {
        completed_lines(s.drop_last())
    }
}

/// The lines of `s`: those that a line feed ends, then what is left behind
/// the last line feed, unless nothing is left there.
pub open spec fn split_lines(s: Seq<char>) -> Seq<Seq<char>> {
    if unfinished_line(s).len() > 0 {
        completed_lines(s).push(unfinished_line(s))
    } else {
        completed_lines(s)
    }
}

/// The lines one after another, a line feed behind each.
pub open spec fn join_lines(lines: Seq<Seq<char>>) -> Seq<char>
    decreases lines.len(),
{
    if lines.len() == 0 {
        Seq::empty()
    } else {
        join_lines(lines.drop_last()) + lines.last() + seq!['\n']
    }
}

/// Whether a carriage return stands at `i` in `s` with a line feed directly
/// behind it.
pub open spec fn crlf_at(s: Seq<char>, i: int) -> bool {
    0 <= i && i + 1 < s.len() && s[i] == '\r' && s[i + 1] == '\n'
}

/// Whether `s` holds a carriage return with a line feed directly behind it.
pub open spec fn has_crlf(s: Seq<char>) -> bool {
    exists|i: int| #[trigger] crlf_at(s, i)
}

/// `s` with a line feed at its end: `s` itself if it is empty or ends in
/// one, else `s` and one line feed.
pub open spec fn terminated(s: Seq<char>) -> Seq<char> {
    if s.len() == 0 || s.last() == '\n' {
        s
    } else {
        s.push('\n')
    }
}

/// A line that comes back unchanged when it is written and read again: no
/// line feed in it, and no carriage return at its end.
pub open spec fn plain_line(line: Seq<char>) -> bool {
    (forall|i: int| 0 <= i < line.len() ==> line[i] != '\n') && (line.len() == 0 || line.last()
        != '\r')
}

/// What is behind the last line feed holds no line feed, and ends as `s`
/// ends.
proof fn lemma_unfinished_line(s: Seq<char>)
    ensures
        unfinished_line(s).len() <= s.len(),
        forall|i: int| 0 <= i < unfinished_line(s).len() ==> unfinished_line(s)[i] != '\n',
        unfinished_line(s).len() > 0 ==> unfinished_line(s).last() == s.last(),
        unfinished_line(s).len() == 0 <==> (s.len() == 0 || s.last() == '\n'),
    decreases s.len(),
{
    if s.len() > 0 && s.last() != '\n' {
        lemma_unfinished_line(s.drop_last());
    }
}

/// Without a carriage return before a line feed, the completed lines with
/// their line feeds, and then the unfinished rest, are the text itself.
proof fn lemma_join_completed(s: Seq<char>)
    requires
        !has_crlf(s),
    ensures
        join_lines(completed_lines(s)) + unfinished_line(s) == s,
    decreases s.len(),
{
    if s.len() > 0 {
        let p = s.drop_last();
        assert(!has_crlf(p)) by {
            if has_crlf(p) {
                let i = choose|i: int| crlf_at(p, i);
                assert(crlf_at(s, i));
            }
        }
        lemma_join_completed(p);
        lemma_unfinished_line(p);
        if s.last() == '\n' {
            let u = unfinished_line(p);
            assert(strip_cr(u) == u) by {
                if u.len() > 0 && u.last() == '\r' {
                    assert(crlf_at(s, s.len() - 2));
                }
            }
            assert(completed_lines(s).drop_last() == completed_lines(p));
        } else {
            assert(s == p.push(s.last()));
        }
    }
}

/// Reading a text and writing the lines back gives the text again, with a
/// line feed at its end, provided that no carriage return stands before a
/// line feed in it (such a carriage return is dropped when the text is
/// read).
pub proof fn lemma_join_split(s: Seq<char>)
    requires
        !has_crlf(s),
    ensures
        join_lines(split_lines(s)) == terminated(s),
{
    lemma_join_completed(s);
    lemma_unfinished_line(s);
    if unfinished_line(s).len() > 0 {
        assert(split_lines(s).drop_last() == completed_lines(s));
    }
}

/// Text behind which more text without a line feed is put has the same
/// completed lines, and the addition goes to the unfinished rest.
proof fn lemma_append_plain(s: Seq<char>, more: Seq<char>)
    requires
        forall|i: int| 0 <= i < more.len() ==> more[i] != '\n',
    ensures
        completed_lines(s + more) == completed_lines(s),
        unfinished_line(s + more) == unfinished_line(s) + more,
    decreases more.len(),
{
    if more.len() > 0 {
        let m = more.drop_last();
        lemma_append_plain(s, m);
        assert((s + more).drop_last() == s + m);
    }
}

/// Writing plain lines and reading the text back gives the lines again.
pub proof fn lemma_split_join(lines: Seq<Seq<char>>)
    requires
        forall|i: int| 0 <= i < lines.len() ==> plain_line(#[trigger] lines[i]),
    ensures
        split_lines(join_lines(lines)) == lines,
        unfinished_line(join_lines(lines)).len() == 0,
    decreases lines.len(),
{
    if lines.len() > 0 {
        let front = lines.drop_last();
        let last = lines.last();
        lemma_split_join(front);
        lemma_append_plain(join_lines(front), last);
        assert(join_lines(lines).drop_last() == join_lines(front) + last);
    }
}

/// The lines of a text with an empty line behind them, which is what a
/// document is when it is read, are at least one line and end in an empty
/// line, whatever the text: empty, with or without a line feed at its end.
pub proof fn lemma_loaded_is_settled(s: Seq<char>)
    ensures
        split_lines(s).push(Seq::empty()).len() >= 1,
        split_lines(s).push(Seq::empty()).last().len() == 0,
        s.len() == 0 ==> split_lines(s).push(Seq::empty()) == seq![Seq::<char>::empty()],
{
}

/// A document that is read from a text and written back unchanged is the
/// text with a line feed at its end, and one more line feed for the empty
/// line that every document ends with. This holds of a text in which no
/// carriage return stands before a line feed. Of a text that is empty or
/// ends in a line feed, it is the text itself and one line feed.
pub proof fn lemma_load_then_save(s: Seq<char>)
    requires
        !has_crlf(s),
    ensures
        join_lines(split_lines(s).push(Seq::empty())) == terminated(s).push('\n'),
        s.len() == 0 || s.last() == '\n' ==> join_lines(split_lines(s).push(Seq::empty()))
            == s.push('\n'),
{
    lemma_join_split(s);
    let loaded = split_lines(s).push(Seq::<char>::empty());
    assert(loaded.drop_last() == split_lines(s));
}

} // verus!
