//! The mathematical model of a text area: lines of characters, a cursor, and
//! what every motion and edit does to them.

use vstd::prelude::*;
use crate::key::KeyCode;

verus! {

/// What a text area is to its contracts.
///
/// A line is a sequence of characters, and a column counts characters. The
/// column that equals the line's length is the position behind its last
/// character, where text is appended.
pub struct TextModel {
    pub lines: Seq<Seq<char>>,
    pub column: int,
    pub row: int,
    pub allow_line_breaks: bool,
}

/// The smaller of two integers.
pub open spec fn min_int(a: int, b: int) -> int {
    if a <= b { a } else { b }
}

/// The first index at or after `from` that holds a space, or the line's
/// length where none does.
pub open spec fn skip_word(line: Seq<char>, from: int) -> int
    decreases line.len() - from,
{
    if from < 0 || from >= line.len() {
        from
    } else if line[from] == ' ' {
        from
    } else {
        skip_word(line, from + 1)
    }
}

/// The first index at or after `from` that holds no space, or the line's
/// length where every character from there on is one.
pub open spec fn skip_spaces(line: Seq<char>, from: int) -> int
    decreases line.len() - from,
{
    if from < 0 || from >= line.len() {
        from
    } else if line[from] != ' ' {
        from
    } else {
        skip_spaces(line, from + 1)
    }
}

/// The start of the run of spaces that ends just before `from`.
pub open spec fn skip_spaces_back(line: Seq<char>, from: int) -> int
    decreases from,
{
    if from <= 0 || from > line.len() {
        from
    } else if line[from - 1] != ' ' {
        from
    } else {
        skip_spaces_back(line, from - 1)
    }
}

/// The start of the run of characters other than spaces that ends just before `from`.
pub open spec fn skip_word_back(line: Seq<char>, from: int) -> int
    decreases from,
{
    if from <= 0 || from > line.len() {
        from
    } else if line[from - 1] == ' ' {
        from
    } else {
        skip_word_back(line, from - 1)
    }
}

/// The lines that a text area holds when it is given `lines`: a buffer is
/// never empty, so no lines become one empty line.
pub open spec fn normalized(lines: Seq<Seq<char>>) -> Seq<Seq<char>> {
    if lines.len() == 0 {
        seq![Seq::<char>::empty()]
    } else {
        lines
    }
}

impl TextModel {
    /// There is a line, the cursor is on a line, and its column is in that
    /// line or just behind it.
    pub open spec fn wf(self) -> bool {
        &&& self.lines.len() >= 1
        &&& 0 <= self.row < self.lines.len()
        &&& 0 <= self.column <= self.lines[self.row].len()
    }

    /// A fresh text area over `lines`.
    pub open spec fn fresh(lines: Seq<Seq<char>>) -> Self {
        TextModel { lines: normalized(lines), column: 0, row: 0, allow_line_breaks: true }
    }

    /// The line under the cursor.
    pub open spec fn line(self) -> Seq<char> {
        self.lines[self.row]
    }

    /// The same text with the cursor at `(column, row)`.
    pub open spec fn at(self, column: int, row: int) -> Self {
        TextModel { column, row, ..self }
    }

    /// The same text, in which lines are no longer split or joined.
    pub open spec fn disallow_line_breaks(self) -> Self {
        TextModel { allow_line_breaks: false, ..self }
    }

    /// Other lines in place of the text, one empty line in place of none,
    /// and the cursor at their start.
    pub open spec fn set_lines(self, lines: Seq<Seq<char>>) -> Self {
        TextModel { lines: normalized(lines), column: 0, row: 0, ..self }
    }

    /// The cursor goes to the nearest position that exists: to the last line
    /// if `row` is behind it, then to that line's end if `column` is behind it.
    pub open spec fn set_cursor(self, column: int, row: int) -> Self {
        let r = min_int(row, self.lines.len() - 1);
        self.at(min_int(column, self.lines[r].len() as int), r)
    }

    /// To the first column of the line.
    pub open spec fn move_to_line_start(self) -> Self {
        self.at(0, self.row)
    }

    /// Behind the last character of the line.
    pub open spec fn move_to_line_end(self) -> Self {
        self.at(self.line().len() as int, self.row)
    }

    /// To the end of the line above, if there is one.
    pub open spec fn wrap_to_previous_line(self) -> Self {
        if self.row > 0 {
            self.at(self.lines[self.row - 1].len() as int, self.row - 1)
        } else {
            self
        }
    }

    /// To the start of the line below, if there is one.
    pub open spec fn wrap_to_next_line(self) -> Self {
        if self.row + 1 < self.lines.len() {
            self.at(0, self.row + 1)
        } else {
            self
        }
    }

    /// One column to the left, or from a line's start to the end of the
    /// line above. At the start of the text the cursor stays.
    pub open spec fn move_left(self) -> Self {
        if self.column == 0 {
            self.wrap_to_previous_line()
        } else {
            self.at(self.column - 1, self.row)
        }
    }

    /// One column to the right, or from behind a line's last character to
    /// the start of the line below. At the end of the text the cursor stays.
    pub open spec fn move_right(self) -> Self {
        if self.column >= self.line().len() {
            self.wrap_to_next_line()
        } else {
            self.at(self.column + 1, self.row)
        }
    }

    /// One line up, in the same column or at that line's end if it is
    /// shorter. In the first line the cursor stays.
    pub open spec fn move_up(self) -> Self {
        if self.row == 0 {
            self
        } else {
            self.at(min_int(self.column, self.lines[self.row - 1].len() as int), self.row - 1)
        }
    }

    /// One line down, in the same column or at that line's end if it is
    /// shorter. In the last line the cursor stays.
    pub open spec fn move_down(self) -> Self {
        if self.row + 1 >= self.lines.len() {
            self
        } else {
            self.at(min_int(self.column, self.lines[self.row + 1].len() as int), self.row + 1)
        }
    }

    /// `times` moves to the left.
    pub open spec fn move_left_times(self, times: nat) -> Self
        decreases times,
    {
        if times == 0 {
            self
        } else {
            self.move_left_times((times - 1) as nat).move_left()
        }
    }

    /// `times` moves to the right.
    pub open spec fn move_right_times(self, times: nat) -> Self
        decreases times,
    {
        if times == 0 {
            self
        } else {
            self.move_right_times((times - 1) as nat).move_right()
        }
    }

    /// Over the rest of the word under the cursor and the spaces behind it.
    /// Where the word ends the line, to the start of the line below.
    pub open spec fn move_one_word_forward(self) -> Self {
        let word_end = skip_word(self.line(), self.column);
        if word_end >= self.line().len() {
            self.wrap_to_next_line()
        } else {
            self.at(skip_spaces(self.line(), word_end), self.row)
        }
    }

    /// Back over the spaces before the cursor and the word before them. From
    /// the start of a line, to the end of the line above.
    pub open spec fn move_one_word_backward(self) -> Self {
        if self.column == 0 {
            self.wrap_to_previous_line()
        } else {
            let word_end = skip_spaces_back(self.line(), self.column);
            self.at(skip_word_back(self.line(), word_end), self.row)
        }
    }

    /// `c` put before the cursor's character, and the cursor behind `c`.
    pub open spec fn insert_char(self, c: char) -> Self {
        TextModel {
            lines: self.lines.update(self.row, self.line().insert(self.column, c)),
            column: self.column + 1,
            ..self
        }
    }

    /// The line split at the cursor into two lines, and the cursor at the
    /// start of the second. Nothing where line breaks are disallowed.
    pub open spec fn insert_line_break(self) -> Self {
        if !self.allow_line_breaks {
            self
        } else {
            let left = self.line().subrange(0, self.column);
            let right = self.line().subrange(self.column, self.line().len() as int);
            TextModel {
                lines: self.lines.update(self.row, left).insert(self.row + 1, right),
                column: 0,
                row: self.row + 1,
                ..self
            }
        }
    }

    /// `text` as a new line at `index`. The cursor keeps its row, and its
    /// column as far as the line now in that row has it.
    pub open spec fn insert_line(self, index: int, text: Seq<char>) -> Self {
        let lines = self.lines.insert(index, text);
        TextModel { lines, column: min_int(self.column, lines[self.row].len() as int), ..self }
    }

    /// Backspace: without the character before the cursor. At a line's
    /// start the line is joined to the one above, with the cursor where they
    /// meet, if there is a line above and line breaks are allowed.
    pub open spec fn delete_char(self) -> Self {
        if self.column > 0 {
            TextModel {
                lines: self.lines.update(self.row, self.line().remove(self.column - 1)),
                column: self.column - 1,
                ..self
            }
        } else if self.row > 0 && self.allow_line_breaks {
            let above = self.lines[self.row - 1];
            TextModel {
                lines: self.lines.update(self.row - 1, above + self.line()).remove(self.row),
                column: above.len() as int,
                row: self.row - 1,
                ..self
            }
        } else {
            self
        }
    }

    /// Without the cursor's line; an only line is emptied. The cursor
    /// keeps its row, or goes up from what was the last line, and keeps its
    /// column as far as its new line has it.
    pub open spec fn delete_current_line(self) -> Self {
        if self.lines.len() <= 1 {
            TextModel { lines: seq![Seq::<char>::empty()], column: 0, row: 0, ..self }
        } else {
            let lines = self.lines.remove(self.row);
            let row = if self.row == self.lines.len() - 1 { self.row - 1 } else { self.row };
            TextModel { lines, column: min_int(self.column, lines[row].len() as int), row, ..self }
        }
    }

    /// What a key does when no handler has taken it.
    pub open spec fn apply_key(self, key: KeyCode) -> Self {
        match key {
            KeyCode::Left => self.move_left(),
            KeyCode::Up => self.move_up(),
            KeyCode::Right => self.move_right(),
            KeyCode::Down => self.move_down(),
            KeyCode::Char(c) => self.insert_char(c),
            KeyCode::Backspace => self.delete_char(),
            KeyCode::Enter => self.insert_line_break(),
            _ => self,
        }
    }
}

/// `skip_word` gives the first place at or after `from` that holds a space,
/// or the line's end where none does.
pub proof fn lemma_skip_word(line: Seq<char>, from: int)
    requires
        0 <= from <= line.len(),
    ensures
        from <= skip_word(line, from) <= line.len(),
        forall|i: int| from <= i < skip_word(line, from) ==> line[i] != ' ',
        skip_word(line, from) < line.len() ==> line[skip_word(line, from)] == ' ',
    decreases line.len() - from,
{
    if from < line.len() && line[from] != ' ' {
        lemma_skip_word(line, from + 1);
    }
}

/// `skip_spaces` gives the first place at or after `from` that holds no
/// space, or the line's end where all are spaces.
pub proof fn lemma_skip_spaces(line: Seq<char>, from: int)
    requires
        0 <= from <= line.len(),
    ensures
        from <= skip_spaces(line, from) <= line.len(),
        forall|i: int| from <= i < skip_spaces(line, from) ==> line[i] == ' ',
        skip_spaces(line, from) < line.len() ==> line[skip_spaces(line, from)] != ' ',
    decreases line.len() - from,
{
    if from < line.len() && line[from] == ' ' {
        lemma_skip_spaces(line, from + 1);
    }
}

/// `skip_spaces_back` gives the place where the spaces before `from` begin.
pub proof fn lemma_skip_spaces_back(line: Seq<char>, from: int)
    requires
        0 <= from <= line.len(),
    ensures
        0 <= skip_spaces_back(line, from) <= from,
        forall|i: int| skip_spaces_back(line, from) <= i < from ==> line[i] == ' ',
        skip_spaces_back(line, from) > 0 ==> line[skip_spaces_back(line, from) - 1] != ' ',
    decreases from,
{
    if from > 0 && line[from - 1] == ' ' {
        lemma_skip_spaces_back(line, from - 1);
    }
}

/// `skip_word_back` gives the place where the word before `from` begins.
pub proof fn lemma_skip_word_back(line: Seq<char>, from: int)
    requires
        0 <= from <= line.len(),
    ensures
        0 <= skip_word_back(line, from) <= from,
        forall|i: int| skip_word_back(line, from) <= i < from ==> line[i] != ' ',
        skip_word_back(line, from) > 0 ==> line[skip_word_back(line, from) - 1] == ' ',
    decreases from,
{
    if from > 0 && line[from - 1] != ' ' {
        lemma_skip_word_back(line, from - 1);
    }
}

/// No motion leaves the text: each keeps the lines and the line-break rule,
/// and puts the cursor on a position that exists.
pub proof fn lemma_motions_keep_text(m: TextModel, column: int, row: int, times: nat)
    requires
        m.wf(),
    ensures
        column >= 0 && row >= 0 ==> m.set_cursor(column, row).wf(),
        m.move_left().wf() && m.move_left().at(m.column, m.row) == m,
        m.move_right().wf() && m.move_right().at(m.column, m.row) == m,
        m.move_up().wf() && m.move_up().at(m.column, m.row) == m,
        m.move_down().wf() && m.move_down().at(m.column, m.row) == m,
        m.move_to_line_start().wf() && m.move_to_line_start().at(m.column, m.row) == m,
        m.move_to_line_end().wf() && m.move_to_line_end().at(m.column, m.row) == m,
        m.move_one_word_forward().wf() && m.move_one_word_forward().at(m.column, m.row) == m,
        m.move_one_word_backward().wf() && m.move_one_word_backward().at(m.column, m.row) == m,
        m.move_left_times(times).wf() && m.move_left_times(times).at(m.column, m.row) == m,
        m.move_right_times(times).wf() && m.move_right_times(times).at(m.column, m.row) == m,
    decreases times,
{
    lemma_skip_word(m.line(), m.column);
    lemma_skip_spaces(m.line(), skip_word(m.line(), m.column));
    lemma_skip_spaces_back(m.line(), m.column);
    lemma_skip_word_back(m.line(), skip_spaces_back(m.line(), m.column));
    if times > 0 {
        lemma_motions_keep_text(m, column, row, (times - 1) as nat);
        let left = m.move_left_times((times - 1) as nat);
        lemma_motions_keep_text(left, column, row, 0);
        let right = m.move_right_times((times - 1) as nat);
        lemma_motions_keep_text(right, column, row, 0);
    }
}

/// Every edit leaves a buffer that is not empty, with the cursor on a
/// position that exists.
pub proof fn lemma_edits_keep_wf(
    m: TextModel,
    c: char,
    index: int,
    text: Seq<char>,
    lines: Seq<Seq<char>>,
    key: KeyCode,
)
    requires
        m.wf(),
    ensures
        TextModel::fresh(lines).wf(),
        m.set_lines(lines).wf(),
        m.disallow_line_breaks().wf(),
        m.insert_char(c).wf(),
        m.insert_line_break().wf(),
        0 <= index <= m.lines.len() ==> m.insert_line(index, text).wf(),
        m.delete_char().wf(),
        m.delete_current_line().wf(),
        m.apply_key(key).wf(),
{
    lemma_motions_keep_text(m, 0, 0, 0);
}

/// Moving left and then right comes back to where the cursor was, from
/// every column but a line's first.
pub proof fn lemma_left_then_right(m: TextModel)
    requires
        m.wf(),
        m.column > 0,
    ensures
        m.move_left().move_right() == m,
{
}

/// Moving right and then left comes back to where the cursor was, from
/// every column but the one behind a line's last character.
pub proof fn lemma_right_then_left(m: TextModel)
    requires
        m.wf(),
        m.column < m.line().len(),
    ensures
        m.move_right().move_left() == m,
{
}

/// Deleting the character that was just inserted restores the text and the cursor.
pub proof fn lemma_insert_then_delete(m: TextModel, c: char)
    requires
        m.wf(),
    ensures
        m.insert_char(c).delete_char() == m,
{
    let typed = m.insert_char(c);
    assert(typed.line().remove(m.column) =~= m.line());
    assert(typed.delete_char().lines =~= m.lines);
}

/// Where line breaks are allowed, a backspace right after a line break
/// joins the two halves again: the text and the cursor are as before.
pub proof fn lemma_break_then_delete(m: TextModel)
    requires
        m.wf(),
        m.allow_line_breaks,
    ensures
        m.insert_line_break().delete_char() == m,
{
    let broken = m.insert_line_break();
    let left = m.line().subrange(0, m.column);
    let right = m.line().subrange(m.column, m.line().len() as int);
    assert(left + right =~= m.line());
    assert(broken.delete_char().lines =~= m.lines);
}

/// Where line breaks are disallowed, neither `Enter` nor `Backspace` changes
/// the number of lines.
pub proof fn lemma_no_breaks_keeps_line_count(m: TextModel)
    requires
        m.wf(),
        !m.allow_line_breaks,
    ensures
        m.insert_line_break() == m,
        m.delete_char().lines.len() == m.lines.len(),
{
}

} // verus!
