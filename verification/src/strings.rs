//! What the library needs of `String` beyond what the verifier's own
//! library specifies.

use vstd::prelude::*;
use vstd::string::*;

verus! {

/// `String::push` appends one character to the string and leaves the rest of
/// it as it was.
#[verifier::external_body]
pub(crate) fn push_char(s: &mut String, c: char)
    ensures
        final(s)@ == old(s)@.push(c),
{
    s.push(c)
}

/// The lines in a row, with `separator` between each two of them.
pub open spec fn joined(lines: Seq<Seq<char>>, separator: Seq<char>) -> Seq<char>
    decreases lines.len(),
{
    if lines.len() == 0 {
        Seq::empty()
    } else if lines.len() == 1 {
        lines[0]
    } else {
        joined(lines.drop_last(), separator) + separator + lines.last()
    }
}

/// The lines of a vector of strings as sequences of characters.
pub open spec fn lines_view(lines: Seq<String>) -> Seq<Seq<char>> {
    Seq::new(lines.len(), |i: int| lines[i]@)
}

/// Joins the lines to one string, with `separator` between each two of them.
pub fn join_lines(lines: &Vec<String>, separator: &str) -> (r: String)
    ensures
        r@ == joined(lines_view(lines@), separator@),
{
    let mut text = String::new();
    let mut i: usize = 0;
    while i < lines.len()
        invariant
            i <= lines@.len(),
            text@ == joined(lines_view(lines@).subrange(0, i as int), separator@),
        decreases lines@.len() - i,
    {
        proof {
            let upto = lines_view(lines@).subrange(0, i + 1);
            assert(upto.drop_last() =~= lines_view(lines@).subrange(0, i as int));
            assert(upto.last() == lines@[i as int]@);
        }
        if i > 0 {
            text.append(separator);
        }
        text.append(lines[i].as_str());
        proof {
            if i == 0 {
                assert(text@ =~= lines@[0]@);
            }
        }
        i += 1;
    }
    assert(lines_view(lines@).subrange(0, i as int) =~= lines_view(lines@));
    text
}

/// The place of the first line feed at or after `from`, or the text's
/// length where none follows.
pub open spec fn line_end(text: Seq<char>, from: int) -> int
    decreases text.len() - from,
{
    if from < 0 || from >= text.len() {
        from
    } else if text[from] == '\n' {
        from
    } else {
        line_end(text, from + 1)
    }
}

/// The line without the carriage return at its end, if it has one there.
pub open spec fn without_return(line: Seq<char>) -> Seq<char> {
    if line.len() > 0 && line.last() == '\r' {
        line.drop_last()
    } else {
        line
    }
}

/// The lines of a text. A line ends at a line feed, or at a carriage return
/// with a line feed behind it, and neither belongs to the line. What follows
/// the last line feed is a line as it stands, unless nothing follows.
pub open spec fn text_lines(text: Seq<char>) -> Seq<Seq<char>>
    decreases text.len(),
{
    if text.len() == 0 {
        Seq::empty()
    } else {
        let end = line_end(text, 0);
        if end < 0 || end >= text.len() {
            seq![text]
        } else {
            seq![without_return(text.subrange(0, end))] + text_lines(text.subrange(end + 1, text.len() as int))
        }
    }
}

/// Where a stretch of text holds no line feed, the first line feed from its
/// start on is the first one behind it.
proof fn lemma_line_end_skips(text: Seq<char>, from: int, to: int)
    requires
        0 <= from <= to <= text.len(),
        forall|i: int| from <= i < to ==> text[i] != '\n',
    ensures
        line_end(text, from) == line_end(text, to),
    decreases to - from,
{
    if from < to {
        lemma_line_end_skips(text, from + 1, to);
    }
}

/// The lines of a text, as `str::lines` gives them.
pub fn split_lines(text: &str) -> (r: Vec<String>)
    ensures
        lines_view(r@) == text_lines(text@),
{
    let mut lines: Vec<String> = Vec::new();
    let mut current = String::new();
    let mut held_return = false;
    let ghost mut start: int = 0;
    proof {
        assert(text@.subrange(0, text@.len() as int) =~= text@);
        assert(lines_view(lines@) + text_lines(text@) =~= text_lines(text@));
        assert(text@.subrange(0, 0) =~= current@);
    }
    for c in it: text.chars()
        invariant
            it.seq() == text@,
            0 <= start <= it.index(),
            forall|i: int| start <= i < it.index() ==> text@[i] != '\n',
            text@.subrange(start, it.index() as int) == if held_return {
                current@.push('\r')
            } else {
                current@
            },
            !held_return ==> current@.len() == 0 || current@.last() != '\r',
            text_lines(text@) == lines_view(lines@) + text_lines(text@.subrange(start, text@.len() as int)),
    {
        let ghost at = it.index() as int;
        let ghost rest = text@.subrange(start, text@.len() as int);
        if c == '\n' {
            proof {
                lemma_line_end_skips(rest, 0, at - start);
                assert(rest.subrange(0, at - start) =~= text@.subrange(start, at));
                assert(rest.subrange(at - start + 1, rest.len() as int) =~= text@.subrange(
                    at + 1,
                    text@.len() as int,
                ));
                if held_return {
                    assert(current@.push('\r').drop_last() =~= current@);
                }
                assert(lines_view(lines@.push(current)) =~= lines_view(lines@) + seq![current@]);
                assert(text@.subrange(at + 1, at + 1) =~= Seq::<char>::empty());
            }
            lines.push(current);
            current = String::new();
            held_return = false;
            proof {
                start = at + 1;
            }
        } else {
            if held_return {
                push_char(&mut current, '\r');
            }
            if c == '\r' {
                held_return = true;
            } else {
                push_char(&mut current, c);
                held_return = false;
            }
            proof {
                assert(text@.subrange(start, at + 1) =~= text@.subrange(start, at).push(c));
            }
        }
    }
    proof {
        let rest = text@.subrange(start, text@.len() as int);
        if rest.len() > 0 {
            lemma_line_end_skips(rest, 0, rest.len() as int);
        }
    }
    if held_return {
        push_char(&mut current, '\r');
    }
    if current.as_str().unicode_len() > 0 {
        proof {
            assert(lines_view(lines@.push(current)) =~= lines_view(lines@) + seq![current@]);
        }
        lines.push(current);
    } else {
        assert(lines_view(lines@) + Seq::<Seq<char>>::empty() =~= lines_view(lines@));
    }
    lines
}

} // verus!
