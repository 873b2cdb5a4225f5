//! The text area: lines of text under a cursor, vim-like motions and edits,
//! and handlers that may take a key before its default meaning applies.

use vstd::prelude::*;
use std::marker::PhantomData;
use vstd::string::*;
use crate::assoc::{
    as_map, distinct_keys, held_at, holds, lemma_add_pair, lemma_empty_table, lemma_pair_in_map,
    lemma_replace_value, lemma_same_keys,
};
use crate::key::KeyCode;
use crate::strings::{lines_view, push_char};
use crate::ui::text_model::{skip_spaces, skip_spaces_back, skip_word, skip_word_back, TextModel};

verus! {

/// The lines and the cursor of a text area: the part that a key handler may change.
pub struct TextBuffer {
    lines: Vec<String>,
    cursor: (usize, usize),
    allow_line_breaks: bool,
}

impl View for TextBuffer {
    type V = TextModel;

    closed spec fn view(&self) -> TextModel {
        TextModel {
            lines: lines_view(self.lines@),
            column: self.cursor.0 as int,
            row: self.cursor.1 as int,
            allow_line_breaks: self.allow_line_breaks,
        }
    }
}

impl TextBuffer {
    /// The buffer is never empty and the cursor is on a position that exists.
    pub open spec fn wf(&self) -> bool {
        self@.wf()
    }

    /// A buffer over `lines`, or over one empty line if there are none, with
    /// the cursor at its start and line breaks allowed.
    pub fn new(lines: Vec<String>) -> (r: Self)
        ensures
            r.wf(),
            r@ == TextModel::fresh(lines_view(lines@)),
    {
        let mut held = lines;
        if held.len() == 0 {
            held.push(String::new());
        }
        let r = TextBuffer { lines: held, cursor: (0, 0), allow_line_breaks: true };
        assert(r@.lines =~= TextModel::fresh(lines_view(lines@)).lines);
        r
    }

    /// The number of characters of the line at `row`.
    fn line_len(&self, row: usize) -> (n: usize)
        requires
            row < self@.lines.len(),
        ensures
            n == self@.lines[row as int].len(),
    {
        self.lines[row].as_str().unicode_len()
    }

    /// From now on `Enter` splits no line and `Backspace` joins none.
    pub fn disallow_line_breaks(&mut self)
        requires
            old(self).wf(),
        ensures
            final(self).wf(),
            final(self)@ == old(self)@.disallow_line_breaks(),
    {
        self.allow_line_breaks = false;
    }

    /// Replaces the text, by one empty line if `lines` holds none, and puts
    /// the cursor at its start.
    pub fn set_lines(&mut self, lines: Vec<String>)
        ensures
            final(self).wf(),
            final(self)@ == old(self)@.set_lines(lines_view(lines@)),
    {
        let mut held = lines;
        if held.len() == 0 {
            held.push(String::new());
        }
        self.cursor = (0, 0);
        self.lines = held;
        assert(self@.lines =~= old(self)@.set_lines(lines_view(lines@)).lines);
    }

    /// The text, line by line.
    pub fn lines(&self) -> (r: &Vec<String>)
        ensures
            lines_view(r@) == self@.lines,
    {
        &self.lines
    }

    /// The cursor as `(column, row)`.
    pub fn get_cursor(&self) -> (r: (usize, usize))
        ensures
            r.0 == self@.column,
            r.1 == self@.row,
    {
        self.cursor
    }

    /// Puts the cursor at `(column, row)`, or at the nearest position that
    /// exists: on the last line if the row is behind it, at the line's end if
    /// the column is.
    pub fn set_cursor(&mut self, cursor: (usize, usize))
        requires
            old(self).wf(),
        ensures
            final(self).wf(),
            final(self)@ == old(self)@.set_cursor(cursor.0 as int, cursor.1 as int),
    {
        let (x, y) = cursor;
        let rows = self.lines.len();
        let row = if y < rows { y } else { rows - 1 };
        let len = self.line_len(row);
        let column = if x <= len { x } else { len };
        self.cursor = (column, row);
    }

    /// Moves one column to the left, or from a line's start to the end of the line above.
    pub fn move_cursor_left(&mut self)
        requires
            old(self).wf(),
        ensures
            final(self).wf(),
            final(self)@ == old(self)@.move_left(),
    {
        let (x, y) = self.cursor;
        if x == 0 {
            if y > 0 {
                let above = self.line_len(y - 1);
                self.cursor = (above, y - 1);
            }
            return ;
        }
        self.cursor = (x - 1, y);
    }

    /// Moves `times` times to the left.
    pub fn move_cursor_left_times(&mut self, times: u16)
        requires
            old(self).wf(),
        ensures
            final(self).wf(),
            final(self)@ == old(self)@.move_left_times(times as nat),
    {
        let mut done: u16 = 0;
        while done < times
            invariant
                done <= times,
                self.wf(),
                self@ == old(self)@.move_left_times(done as nat),
            decreases times - done,
        {
            self.move_cursor_left();
            done += 1;
        }
    }

    /// Moves one column to the right, or from behind a line's last character to the start of
    /// the line below.
    pub fn move_cursor_right(&mut self)
        requires
            old(self).wf(),
        ensures
            final(self).wf(),
            final(self)@ == old(self)@.move_right(),
    {
        let (x, y) = self.cursor;
        let len = self.line_len(y);
        if x == len {
            let rows = self.lines.len();
            if y + 1 < rows {
                self.cursor = (0, y + 1);
            }
            return ;
        }
        self.cursor = (x + 1, y);
    }

    /// Moves `times` times to the right.
    pub fn move_cursor_right_times(&mut self, times: u16)
        requires
            old(self).wf(),
        ensures
            final(self).wf(),
            final(self)@ == old(self)@.move_right_times(times as nat),
    {
        let mut done: u16 = 0;
        while done < times
            invariant
                done <= times,
                self.wf(),
                self@ == old(self)@.move_right_times(done as nat),
            decreases times - done,
        {
            self.move_cursor_right();
            done += 1;
        }
    }

    /// Moves one line down, to the same column or to that line's end if it is shorter.
    pub fn move_cursor_down(&mut self)
        requires
            old(self).wf(),
        ensures
            final(self).wf(),
            final(self)@ == old(self)@.move_down(),
    {
        let (x, y) = self.cursor;
        let rows = self.lines.len();
        if y + 1 >= rows {
            return ;
        }
        let below = self.line_len(y + 1);
        self.cursor = (if x <= below { x } else { below }, y + 1);
    }

    /// Moves one line up, to the same column or to that line's end if it is shorter.
    pub fn move_cursor_up(&mut self)
        requires
            old(self).wf(),
        ensures
            final(self).wf(),
            final(self)@ == old(self)@.move_up(),
    {
        let (x, y) = self.cursor;
        if y == 0 {
            return ;
        }
        let above = self.line_len(y - 1);
        self.cursor = (if x <= above { x } else { above }, y - 1);
    }

    /// Moves to the first column of the line.
    pub fn move_cursor_to_line_start(&mut self)
        requires
            old(self).wf(),
        ensures
            final(self).wf(),
            final(self)@ == old(self)@.move_to_line_start(),
    {
        let (_, y) = self.cursor;
        self.cursor = (0, y);
    }

    /// Moves behind the last character of the line.
    pub fn move_cursor_to_line_end(&mut self)
        requires
            old(self).wf(),
        ensures
            final(self).wf(),
            final(self)@ == old(self)@.move_to_line_end(),
    {
        let (_, y) = self.cursor;
        let len = self.line_len(y);
        self.cursor = (len, y);
    }

    /// Moves over the rest of the word under the cursor and the spaces behind it; where the
    /// word ends the line, to the start of the line below.
    pub fn move_cursor_one_word_forward(&mut self)
        requires
            old(self).wf(),
        ensures
            final(self).wf(),
            final(self)@ == old(self)@.move_one_word_forward(),
    {
        let (x, y) = self.cursor;
        let line = self.lines[y].as_str();
        let len = line.unicode_len();
        let mut i: usize = x;
        while i < len && line.get_char(i) != ' '
            invariant
                x <= i <= len,
                len == line@.len(),
                skip_word(line@, x as int) == skip_word(line@, i as int),
            decreases len - i,
        {
            i += 1;
        }
        if i >= len {
            let rows = self.lines.len();
            if y + 1 < rows {
                self.cursor = (0, y + 1);
            }
        } else {
            let mut j: usize = i;
            while j < len && line.get_char(j) == ' '
                invariant
                    i <= j <= len,
                    len == line@.len(),
                    skip_spaces(line@, i as int) == skip_spaces(line@, j as int),
                decreases len - j,
            {
                j += 1;
            }
            self.cursor = (j, y);
        }
    }

    /// Moves back over the spaces before the cursor and the word before them; from a line's
    /// start, to the end of the line above.
    pub fn move_cursor_one_word_backward(&mut self)
        requires
            old(self).wf(),
        ensures
            final(self).wf(),
            final(self)@ == old(self)@.move_one_word_backward(),
    {
        let (x, y) = self.cursor;
        if x == 0 {
            if y > 0 {
                let above = self.line_len(y - 1);
                self.cursor = (above, y - 1);
            }
            return ;
        }
        let line = self.lines[y].as_str();
        let mut i: usize = x;
        while i > 0 && line.get_char(i - 1) == ' '
            invariant
                i <= x <= line@.len(),
                skip_spaces_back(line@, x as int) == skip_spaces_back(line@, i as int),
            decreases i,
        {
            i -= 1;
        }
        let mut j: usize = i;
        while j > 0 && line.get_char(j - 1) != ' '
            invariant
                j <= i <= line@.len(),
                skip_word_back(line@, i as int) == skip_word_back(line@, j as int),
            decreases j,
        {
            j -= 1;
        }
        self.cursor = (j, y);
    }

    /// Puts `c` before the cursor's character. The cursor follows it, so it
    /// stays on the character it was on.
    pub fn insert_char_at_cursor(&mut self, c: char)
        requires
            old(self).wf(),
        ensures
            final(self).wf(),
            final(self)@ == old(self)@.insert_char(c),
    {
        let (x, y) = self.cursor;
        let line = self.lines[y].as_str();
        let len = line.unicode_len();
        let mut text = String::from_str(line.substring_char(0, x));
        push_char(&mut text, c);
        text.append(line.substring_char(x, len));
        // Measuring the longer line shows that the column behind `c` fits.
        let _grown: usize = text.as_str().unicode_len();
        assert(text@ =~= old(self)@.line().insert(x as int, c));
        self.lines.set(y, text);
        self.cursor = (x + 1, y);
        assert(self@.lines =~= old(self)@.insert_char(c).lines);
    }

    /// Splits the line at the cursor, unless line breaks are disallowed. What
    /// stood from the cursor on becomes the next line, and the cursor goes to
    /// its start.
    pub fn insert_line_break_at_cursor(&mut self)
        requires
            old(self).wf(),
        ensures
            final(self).wf(),
            final(self)@ == old(self)@.insert_line_break(),
    {
        if !self.allow_line_breaks {
            return ;
        }
        let (x, y) = self.cursor;
        let line = self.lines[y].as_str();
        let len = line.unicode_len();
        let left = String::from_str(line.substring_char(0, x));
        let right = String::from_str(line.substring_char(x, len));
        // Counting the lines shows that the next row fits.
        let _rows: usize = self.lines.len();
        self.lines.set(y, left);
        self.lines.insert(y + 1, right);
        self.cursor = (0, y + 1);
        assert(self@.lines =~= old(self)@.insert_line_break().lines);
    }

    /// Puts `line` at `index`, before the line that was there. The cursor
    /// keeps its row and its column, but for a column that the line now in
    /// that row is too short for: then it stands at that line's end.
    pub fn insert_line(&mut self, index: usize, line: String)
        requires
            old(self).wf(),
            index <= old(self)@.lines.len(),
        ensures
            final(self).wf(),
            final(self)@ == old(self)@.insert_line(index as int, line@),
    {
        let (x, y) = self.cursor;
        self.lines.insert(index, line);
        assert(lines_view(self.lines@) =~= old(self)@.lines.insert(index as int, line@));
        let len = self.line_len(y);
        self.cursor = (if x <= len { x } else { len }, y);
    }

    /// Backspace. Deletes the character before the cursor. At the start of a
    /// line it joins the line to the one above, if there is one and line
    /// breaks are allowed.
    pub fn delete_char_at_cursor(&mut self)
        requires
            old(self).wf(),
        ensures
            final(self).wf(),
            final(self)@ == old(self)@.delete_char(),
    {
        let (x, y) = self.cursor;
        if x > 0 {
            let line = self.lines[y].as_str();
            let len = line.unicode_len();
            let mut text = String::from_str(line.substring_char(0, x - 1));
            text.append(line.substring_char(x, len));
            assert(text@ =~= old(self)@.line().remove(x - 1));
            self.lines.set(y, text);
            self.cursor = (x - 1, y);
            assert(self@.lines =~= old(self)@.delete_char().lines);
        } else if y > 0 && self.allow_line_breaks {
            let join = self.line_len(y - 1);
            let mut text = self.lines[y - 1].clone();
            text.append(self.lines[y].as_str());
            self.lines.set(y - 1, text);
            let _ = self.lines.remove(y);
            self.cursor = (join, y - 1);
            assert(self@.lines =~= old(self)@.delete_char().lines);
        }
    }

    /// Deletes the line under the cursor. The only line is emptied instead,
    /// and the cursor goes to its start. Else the cursor keeps its row, or
    /// goes up one if its line was the last, and keeps its column as far as
    /// the line it comes to has it.
    pub fn delete_current_line(&mut self)
        requires
            old(self).wf(),
        ensures
            final(self).wf(),
            final(self)@ == old(self)@.delete_current_line(),
    {
        let (x, y) = self.cursor;
        let rows = self.lines.len();
        if rows <= 1 {
            self.lines.set(0, String::new());
            self.cursor = (0, 0);
            assert(self@.lines =~= old(self)@.delete_current_line().lines);
            return ;
        }
        let _ = self.lines.remove(y);
        assert(lines_view(self.lines@) =~= old(self)@.lines.remove(y as int));
        let row = if y == rows - 1 { y - 1 } else { y };
        let len = self.line_len(row);
        self.cursor = (if x <= len { x } else { len }, row);
    }

    /// What `key` does by default: an arrow moves the cursor, a character is
    /// inserted, `Backspace` deletes, `Enter` breaks the line, and any other
    /// key does nothing.
    pub fn apply_key(&mut self, key: KeyCode)
        requires
            old(self).wf(),
        ensures
            final(self).wf(),
            final(self)@ == old(self)@.apply_key(key),
    {
        match key {
            KeyCode::Left => self.move_cursor_left(),
            KeyCode::Up => self.move_cursor_up(),
            KeyCode::Right => self.move_cursor_right(),
            KeyCode::Down => self.move_cursor_down(),
            KeyCode::Char(c) => self.insert_char_at_cursor(c),
            KeyCode::Backspace => self.delete_char_at_cursor(),
            KeyCode::Enter => self.insert_line_break_at_cursor(),
            _ => {},
        }
    }
}

/// What a host binds to a key of a text area.
///
/// The handler runs before the key's default meaning. It may change the text
/// and the host's state, and says whether it has consumed the key.
pub trait KeyHandler<S, R> {
    /// The result with which the handler consumes every key without
    /// changing anything, if it is such a handler. A handler that says
    /// nothing here promises nothing.
    open spec fn fixed_reply(&self) -> Option<R> {
        None
    }

    /// Returns whether the key is consumed, and a result for the host.
    fn handle(&mut self, text: &mut TextBuffer, state: &mut S) -> (r: (bool, R))
        requires
            old(text).wf(),
        ensures
            final(text).wf(),
            old(self).fixed_reply() matches Some(result) ==> {
                &&& r == (true, result)
                &&& final(self).fixed_reply() == old(self).fixed_reply()
                &&& *final(text) == *old(text)
                &&& *final(state) == *old(state)
            },
    ;
}

/// The handler that consumes its key and hands the host a fixed result,
/// whatever the text and the state are.
pub struct Reply<R> {
    pub result: R,
}

impl<S, R: Copy> KeyHandler<S, R> for Reply<R> {
    open spec fn fixed_reply(&self) -> Option<R> {
        Some(self.result)
    }

    fn handle(&mut self, text: &mut TextBuffer, state: &mut S) -> (r: (bool, R)) {
        (true, self.result)
    }
}

/// One entry of a text area's table of handlers.
pub struct KeyBinding<H> {
    pub key: KeyCode,
    pub handler: H,
}

/// The table of handlers as pairs of a key and its handler.
pub open spec fn binding_pairs<H>(table: Seq<KeyBinding<H>>) -> Seq<(KeyCode, H)> {
    Seq::new(table.len(), |i: int| (table[i].key, table[i].handler))
}

/// A text buffer with the handlers that a host has bound to keys.
///
/// `S` is the host's state and `R` what a handler hands back to the host;
/// `H` is the type of the handlers.
pub struct TextArea<S, R, H: KeyHandler<S, R>> {
    buffer: TextBuffer,
    callbacks: Vec<KeyBinding<H>>,
    host: PhantomData<(S, R)>,
}

impl<S, R, H: KeyHandler<S, R>> View for TextArea<S, R, H> {
    type V = TextModel;

    closed spec fn view(&self) -> TextModel {
        self.buffer@
    }
}

impl TextBuffer {
    /// Ends a key press whose handler, if it has one, has run and returned
    /// `outcome`. A consumed key gives the handler's result and does nothing
    /// more. Any other gets its default meaning, and the result is `None`.
    pub fn finish_key<R>(&mut self, key: KeyCode, outcome: Option<(bool, R)>) -> (r: Option<R>)
        requires
            old(self).wf(),
        ensures
            final(self).wf(),
            match outcome {
                Some((true, result)) => r == Some(result) && *final(self) == *old(self),
                _ => r is None && final(self)@ == old(self)@.apply_key(key),
            },
    {
        match outcome {
            Some((true, result)) => Some(result),
            _ => {
                self.apply_key(key);
                None
            },
        }
    }
}

impl<S, R, H: KeyHandler<S, R>> TextArea<S, R, H> {
    /// The buffer is well formed and no key has two handlers.
    pub closed spec fn wf(&self) -> bool {
        &&& self.buffer.wf()
        &&& distinct_keys(binding_pairs(self.callbacks@))
    }

    /// In a well-formed text area the text is not empty and the cursor is
    /// on a position that exists.
    pub proof fn lemma_view_wf(&self)
        requires
            self.wf(),
        ensures
            self@.wf(),
    {
    }

    /// The keys that have a handler, each with its handler.
    pub closed spec fn handlers(&self) -> Map<KeyCode, H> {
        as_map(binding_pairs(self.callbacks@))
    }

    /// A text area over `lines`, or over one empty line if there are none,
    /// with the cursor at its start, line breaks allowed and no handler.
    pub fn new(lines: Vec<String>) -> (r: Self)
        ensures
            r.wf(),
            r@ == TextModel::fresh(lines_view(lines@)),
            r.handlers() == Map::<KeyCode, H>::empty(),
    {
        let r = TextArea { buffer: TextBuffer::new(lines), callbacks: Vec::new(), host: PhantomData };
        proof {
            lemma_empty_table(binding_pairs(r.callbacks@));
        }
        r
    }

    /// The text and the cursor.
    pub fn buffer(&self) -> (r: &TextBuffer)
        ensures
            r@ == self@,
            self.wf() ==> r.wf(),
    {
        &self.buffer
    }

    /// The place of the handler of `key` in the table.
    fn find_handler(&self, key: KeyCode) -> (r: Option<usize>)
        ensures
            match r {
                Some(i) => held_at(binding_pairs(self.callbacks@), key, i as int),
                None => !holds(binding_pairs(self.callbacks@), key),
            },
    {
        let mut i: usize = 0;
        while i < self.callbacks.len()
            invariant
                i <= self.callbacks@.len(),
                forall|j: int| 0 <= j < i ==> !held_at(binding_pairs(self.callbacks@), key, j),
            decreases self.callbacks@.len() - i,
        {
            if self.callbacks[i].key == key {
                return Some(i);
            }
            i += 1;
        }
        None
    }

    /// Binds `callback` to `key_code`, in place of the handler that the key had.
    pub fn on_key(&mut self, key_code: KeyCode, callback: H)
        requires
            old(self).wf(),
        ensures
            final(self).wf(),
            final(self)@ == old(self)@,
            final(self).handlers() == old(self).handlers().insert(key_code, callback),
    {
        match self.find_handler(key_code) {
            Some(i) => {
                self.callbacks.set(i, KeyBinding { key: key_code, handler: callback });
                proof {
                    let before = binding_pairs(old(self).callbacks@);
                    lemma_replace_value(before, i as int, callback);
                    assert(binding_pairs(self.callbacks@) =~= before.update(i as int, (key_code, callback)));
                }
            },
            None => {
                self.callbacks.push(KeyBinding { key: key_code, handler: callback });
                proof {
                    let before = binding_pairs(old(self).callbacks@);
                    lemma_add_pair(before, key_code, callback);
                    assert(binding_pairs(self.callbacks@) =~= before.push((key_code, callback)));
                }
            },
        }
    }

    /// Handles one key press. The handler bound to `key` runs first. If it
    /// consumes the key, its result is returned and nothing more happens.
    /// Else, and where the key has no handler, the key gets its default
    /// meaning and the result is `None`. Every handler stays bound.
    pub fn process_key(&mut self, key: KeyCode, state: &mut S) -> (r: Option<R>)
        requires
            old(self).wf(),
        ensures
            final(self).wf(),
            final(self).handlers().dom() == old(self).handlers().dom(),
            forall|k: KeyCode| #[trigger]
                old(self).handlers().dom().contains(k) && old(self).handlers()[k].fixed_reply() is Some
                    ==> final(self).handlers()[k].fixed_reply() == old(self).handlers()[k].fixed_reply(),
            !old(self).handlers().dom().contains(key) ==> {
                &&& r is None
                &&& final(self)@ == old(self)@.apply_key(key)
                &&& final(self).handlers() == old(self).handlers()
                &&& *final(state) == *old(state)
            },
            old(self).handlers().dom().contains(key) ==> (old(self).handlers()[key].fixed_reply() matches Some(
                result,
            ) ==> {
                &&& r == Some(result)
                &&& final(self)@ == old(self)@
                &&& *final(state) == *old(state)
            }),
            r is None ==> exists|mid: TextModel| mid.wf() && final(self)@ == #[trigger] mid.apply_key(key),
    {
        let ghost before = self.callbacks@;
        match self.find_handler(key) {
            Some(i) => {
                proof {
                    lemma_pair_in_map(binding_pairs(before), i as int);
                }
                let outcome = self.callbacks[i].handler.handle(&mut self.buffer, state);
                let ghost mid = self.buffer@;
                proof {
                    lemma_same_keys(binding_pairs(before), binding_pairs(self.callbacks@));
                    assert forall|k: KeyCode| #[trigger]
                        old(self).handlers().dom().contains(k) && old(self).handlers()[k].fixed_reply() is Some
                        implies self.handlers()[k].fixed_reply() == old(self).handlers()[k].fixed_reply() by {
                        let j = choose|j: int| held_at(binding_pairs(before), k, j);
                        lemma_pair_in_map(binding_pairs(before), j);
                        lemma_pair_in_map(binding_pairs(self.callbacks@), j);
                    }
                }
                let r = self.buffer.finish_key(key, Some(outcome));
                proof {
                    if r is None {
                        assert(self@ == mid.apply_key(key));
                    }
                }
                r
            },
            None => {
                let ghost mid = self.buffer@;
                let r = self.buffer.finish_key(key, None);
                assert(self@ == mid.apply_key(key));
                r
            },
        }
    }

    /// Handles what the key queue gave: a key press as `process_key` does,
    /// and nothing where the queue gave no key.
    pub fn update(&mut self, received: Option<KeyCode>, state: &mut S) -> (r: Option<R>)
        requires
            old(self).wf(),
        ensures
            final(self).wf(),
            final(self).handlers().dom() == old(self).handlers().dom(),
            forall|k: KeyCode| #[trigger]
                old(self).handlers().dom().contains(k) && old(self).handlers()[k].fixed_reply() is Some
                    ==> final(self).handlers()[k].fixed_reply() == old(self).handlers()[k].fixed_reply(),
            received is None ==> r is None && *final(self) == *old(self) && *final(state) == *old(state),
            received matches Some(key) ==> (!old(self).handlers().dom().contains(key) ==> {
                &&& r is None
                &&& final(self)@ == old(self)@.apply_key(key)
                &&& final(self).handlers() == old(self).handlers()
                &&& *final(state) == *old(state)
            }),
            received matches Some(key) ==> (old(self).handlers().dom().contains(key) ==> (old(
                self,
            ).handlers()[key].fixed_reply() matches Some(result) ==> {
                &&& r == Some(result)
                &&& final(self)@ == old(self)@
                &&& *final(state) == *old(state)
            })),
            received matches Some(key) ==> (r is None ==> exists|mid: TextModel|
                mid.wf() && final(self)@ == #[trigger] mid.apply_key(key)),
    {
        match received {
            Some(key) => self.process_key(key, state),
            None => None,
        }
    }

    /// Replaces the text, by one empty line if `lines` holds none, and puts
    /// the cursor at its start.
    pub fn set_lines(&mut self, lines: Vec<String>)
        requires
            old(self).wf(),
        ensures
            final(self).wf(),
            final(self)@ == old(self)@.set_lines(lines_view(lines@)),
            final(self).handlers() == old(self).handlers(),
    {
        self.buffer.set_lines(lines);
    }

    /// The text, line by line.
    pub fn lines(&self) -> (r: &Vec<String>)
        ensures
            lines_view(r@) == self@.lines,
    {
        self.buffer.lines()
    }

    /// The cursor as `(column, row)`.
    pub fn get_cursor(&self) -> (r: (usize, usize))
        ensures
            r.0 == self@.column,
            r.1 == self@.row,
    {
        self.buffer.get_cursor()
    }

    /// Puts `line` at `index`, before the line that was there. The cursor
    /// keeps its row, and its column as far as the line now in that row has it.
    pub fn insert_line(&mut self, index: usize, line: String)
        requires
            old(self).wf(),
            index <= old(self)@.lines.len(),
        ensures
            final(self).wf(),
            final(self)@ == old(self)@.insert_line(index as int, line@),
            final(self).handlers() == old(self).handlers(),
    {
        self.buffer.insert_line(index, line);
    }

    /// From now on `Enter` splits no line and `Backspace` joins none.
    pub fn disallow_line_breaks(&mut self)
        requires
            old(self).wf(),
        ensures
            final(self).wf(),
            final(self)@ == old(self)@.disallow_line_breaks(),
            final(self).handlers() == old(self).handlers(),
    {
        self.buffer.disallow_line_breaks();
    }

    /// Puts the cursor at `(column, row)`, or at the nearest position that exists.
    pub fn set_cursor(&mut self, cursor: (usize, usize))
        requires
            old(self).wf(),
        ensures
            final(self).wf(),
            final(self)@ == old(self)@.set_cursor(cursor.0 as int, cursor.1 as int),
            final(self).handlers() == old(self).handlers(),
    {
        self.buffer.set_cursor(cursor);
    }

    /// Moves one column to the left, or from a line's start to the end of the line above.
    pub fn move_cursor_left(&mut self)
        requires
            old(self).wf(),
        ensures
            final(self).wf(),
            final(self)@ == old(self)@.move_left(),
            final(self).handlers() == old(self).handlers(),
    {
        self.buffer.move_cursor_left();
    }

    /// Moves `times` times to the left.
    pub fn move_cursor_left_times(&mut self, times: u16)
        requires
            old(self).wf(),
        ensures
            final(self).wf(),
            final(self)@ == old(self)@.move_left_times(times as nat),
            final(self).handlers() == old(self).handlers(),
    {
        self.buffer.move_cursor_left_times(times);
    }

    /// Moves one column to the right, or from behind a line's last character to the start of
    /// the line below.
    pub fn move_cursor_right(&mut self)
        requires
            old(self).wf(),
        ensures
            final(self).wf(),
            final(self)@ == old(self)@.move_right(),
            final(self).handlers() == old(self).handlers(),
    {
        self.buffer.move_cursor_right();
    }

    /// Moves `times` times to the right.
    pub fn move_cursor_right_times(&mut self, times: u16)
        requires
            old(self).wf(),
        ensures
            final(self).wf(),
            final(self)@ == old(self)@.move_right_times(times as nat),
            final(self).handlers() == old(self).handlers(),
    {
        self.buffer.move_cursor_right_times(times);
    }

    /// Moves one line down, to the same column or to that line's end if it is shorter.
    pub fn move_cursor_down(&mut self)
        requires
            old(self).wf(),
        ensures
            final(self).wf(),
            final(self)@ == old(self)@.move_down(),
            final(self).handlers() == old(self).handlers(),
    {
        self.buffer.move_cursor_down();
    }

    /// Moves one line up, to the same column or to that line's end if it is shorter.
    pub fn move_cursor_up(&mut self)
        requires
            old(self).wf(),
        ensures
            final(self).wf(),
            final(self)@ == old(self)@.move_up(),
            final(self).handlers() == old(self).handlers(),
    {
        self.buffer.move_cursor_up();
    }

    /// Moves to the first column of the line.
    pub fn move_cursor_to_line_start(&mut self)
        requires
            old(self).wf(),
        ensures
            final(self).wf(),
            final(self)@ == old(self)@.move_to_line_start(),
            final(self).handlers() == old(self).handlers(),
    {
        self.buffer.move_cursor_to_line_start();
    }

    /// Moves behind the last character of the line.
    pub fn move_cursor_to_line_end(&mut self)
        requires
            old(self).wf(),
        ensures
            final(self).wf(),
            final(self)@ == old(self)@.move_to_line_end(),
            final(self).handlers() == old(self).handlers(),
    {
        self.buffer.move_cursor_to_line_end();
    }

    /// Moves over the rest of the word under the cursor and the spaces behind it; where the
    /// word ends the line, to the start of the line below.
    pub fn move_cursor_one_word_forward(&mut self)
        requires
            old(self).wf(),
        ensures
            final(self).wf(),
            final(self)@ == old(self)@.move_one_word_forward(),
            final(self).handlers() == old(self).handlers(),
    {
        self.buffer.move_cursor_one_word_forward();
    }

    /// Moves back over the spaces before the cursor and the word before them; from a line's
    /// start, to the end of the line above.
    pub fn move_cursor_one_word_backward(&mut self)
        requires
            old(self).wf(),
        ensures
            final(self).wf(),
            final(self)@ == old(self)@.move_one_word_backward(),
            final(self).handlers() == old(self).handlers(),
    {
        self.buffer.move_cursor_one_word_backward();
    }

    /// Puts `c` before the cursor's character, and the cursor behind `c`.
    pub fn insert_char_at_cursor(&mut self, c: char)
        requires
            old(self).wf(),
        ensures
            final(self).wf(),
            final(self)@ == old(self)@.insert_char(c),
            final(self).handlers() == old(self).handlers(),
    {
        self.buffer.insert_char_at_cursor(c);
    }

    /// Splits the line at the cursor, unless line breaks are disallowed.
    pub fn insert_line_break_at_cursor(&mut self)
        requires
            old(self).wf(),
        ensures
            final(self).wf(),
            final(self)@ == old(self)@.insert_line_break(),
            final(self).handlers() == old(self).handlers(),
    {
        self.buffer.insert_line_break_at_cursor();
    }

    /// Backspace: deletes the character before the cursor, or joins the line to the one above.
    pub fn delete_char_at_cursor(&mut self)
        requires
            old(self).wf(),
        ensures
            final(self).wf(),
            final(self)@ == old(self)@.delete_char(),
            final(self).handlers() == old(self).handlers(),
    {
        self.buffer.delete_char_at_cursor();
    }

    /// Deletes the line under the cursor, or empties it if it is the only one.
    pub fn delete_current_line(&mut self)
        requires
            old(self).wf(),
        ensures
            final(self).wf(),
            final(self)@ == old(self)@.delete_current_line(),
            final(self).handlers() == old(self).handlers(),
    {
        self.buffer.delete_current_line();
    }
}

} // verus!
