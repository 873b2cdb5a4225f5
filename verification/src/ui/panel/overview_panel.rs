//! The overview of tasks: one line of text for each task, chords in normal
//! mode and typing in insert mode.

use vstd::prelude::*;
use vstd::string::*;
use crate::command::{ComposerModel, KeyCommandComposer};
use crate::editor::mode::{EditorMode, LetterCommand};
use crate::key::KeyCode;
use crate::strings::lines_view;
use crate::ui::text_model::TextModel;
use crate::ui::textarea::{KeyHandler, TextArea, TextBuffer};

verus! {

/// A motion of the cursor.
#[derive(Clone, Copy, Debug, PartialEq, Eq, Structural)]
pub enum CursorMovement {
    Up,
    Down,
    Left,
    Right,
    WordForward,
    WordBackward,
}

/// What a chord of normal mode asks for.
#[derive(Clone, Copy, Debug, PartialEq, Eq, Structural)]
pub enum NormalCommand {
    Quit,
    Sort,
    Insert,
    InsertAfter,
    InsertAtEndOfLine,
    InsertAtBeginningOfLine,
    InsertNewLineBelow,
    InsertNewLineAbove,
    DeleteLine,
    ToggleTaskState,
    OpenTaskNotes,
    DeleteChar,
    MoveCursor(CursorMovement),
    StartSearch,
    Debug,
}

/// What the overview asks its host to do with the tasks and the other panels.
#[derive(Clone, Copy, Debug, PartialEq, Eq, Structural)]
pub enum HostRequest {
    /// Store a new, empty task at this place.
    CreateTaskAt(usize),
    /// Delete the task at this place.
    DeleteTask(usize),
    /// Let the user choose a badge for the task at this place, in a panel
    /// at this column and row.
    SelectBadge { task: usize, column: usize, row: usize },
    /// Show the note of the task at this place.
    OpenNotes(usize),
}

/// What a command of normal mode leads to.
pub struct Reaction {
    /// What the host is asked to do, in this order.
    pub requests: Vec<HostRequest>,
    /// What the panel asks of the editor.
    pub command: Option<LetterCommand>,
    /// Whether the update ends here. If not, it goes on to take a key.
    pub finished: bool,
}

/// A reaction, the text and the mode after a command of normal mode.
pub struct ReactionModel {
    pub text: TextModel,
    pub mode: EditorMode,
    pub requests: Seq<HostRequest>,
    pub command: Option<LetterCommand>,
    pub finished: bool,
}

impl TextModel {
    /// The text after the cursor has made `movement`.
    pub open spec fn moved(self, movement: CursorMovement) -> Self {
        match movement {
            CursorMovement::Up => self.move_up(),
            CursorMovement::Down => self.move_down(),
            CursorMovement::Left => self.move_left(),
            CursorMovement::Right => self.move_right(),
            CursorMovement::WordForward => self.move_one_word_forward(),
            CursorMovement::WordBackward => self.move_one_word_backward(),
        }
    }
}

/// What `command` leads to in normal mode, over a text with the cursor in
/// the line of the task that it speaks of, where there are `tasks` tasks.
pub open spec fn reaction(text: TextModel, mode: EditorMode, command: NormalCommand, tasks: nat) -> ReactionModel {
    let row = text.row as usize;
    let quiet = ReactionModel { text, mode, requests: Seq::empty(), command: None, finished: true };
    match command {
        NormalCommand::Insert => ReactionModel { mode: EditorMode::Insert, ..quiet },
        NormalCommand::InsertAfter => ReactionModel { text: text.move_right(), mode: EditorMode::Insert, ..quiet },
        NormalCommand::InsertAtEndOfLine => ReactionModel {
            text: text.move_to_line_end(),
            mode: EditorMode::Insert,
            ..quiet
        },
        NormalCommand::InsertAtBeginningOfLine => ReactionModel {
            text: text.move_to_line_start(),
            mode: EditorMode::Insert,
            ..quiet
        },
        NormalCommand::Quit => ReactionModel { command: Some(LetterCommand::Quit), ..quiet },
        NormalCommand::Debug => ReactionModel { command: Some(LetterCommand::Debug), ..quiet },
        NormalCommand::Sort => quiet,
        NormalCommand::MoveCursor(movement) => ReactionModel { text: text.moved(movement), ..quiet },
        NormalCommand::DeleteChar => ReactionModel {
            text: text.delete_char(),
            command: Some(LetterCommand::Save),
            ..quiet
        },
        NormalCommand::DeleteLine => ReactionModel {
            text: text.delete_current_line(),
            requests: if tasks > text.row {
                seq![HostRequest::DeleteTask(row)]
            } else {
                Seq::empty()
            },
            command: Some(LetterCommand::Save),
            ..quiet
        },
        NormalCommand::ToggleTaskState => ReactionModel {
            requests: seq![HostRequest::SelectBadge { task: row, column: text.column as usize, row }],
            ..quiet
        },
        NormalCommand::InsertNewLineAbove => ReactionModel {
            text: text.insert_line(text.row, Seq::empty()).move_to_line_start(),
            mode: EditorMode::Insert,
            requests: seq![HostRequest::CreateTaskAt(row)],
            finished: false,
            ..quiet
        },
        NormalCommand::InsertNewLineBelow => ReactionModel {
            text: text.insert_line(text.row + 1, Seq::empty()).move_down(),
            mode: EditorMode::Insert,
            requests: if tasks == 0 {
                seq![HostRequest::CreateTaskAt(row), HostRequest::CreateTaskAt((row + 1) as usize)]
            } else {
                seq![HostRequest::CreateTaskAt((row + 1) as usize)]
            },
            finished: false,
            ..quiet
        },
        NormalCommand::OpenTaskNotes => ReactionModel {
            requests: seq![HostRequest::OpenNotes(row)],
            finished: false,
            ..quiet
        },
        NormalCommand::StartSearch => ReactionModel { finished: false, ..quiet },
    }
}

/// The chords of normal mode, added to a registry.
pub open spec fn with_normal_chords(registry: Map<Seq<KeyCode>, NormalCommand>) -> Map<Seq<KeyCode>, NormalCommand> {
    registry.insert(seq![KeyCode::Char('i')], NormalCommand::Insert).insert(
        seq![KeyCode::Char('I')],
        NormalCommand::InsertAtBeginningOfLine,
    ).insert(seq![KeyCode::Char('A')], NormalCommand::InsertAtEndOfLine).insert(
        seq![KeyCode::Char('a')],
        NormalCommand::InsertAfter,
    ).insert(seq![KeyCode::Char('d'), KeyCode::Char('d')], NormalCommand::DeleteLine).insert(
        seq![KeyCode::Char('t')],
        NormalCommand::ToggleTaskState,
    ).insert(seq![KeyCode::Char(' '), KeyCode::Char('q')], NormalCommand::Quit).insert(
        seq![KeyCode::Char(' '), KeyCode::Char('s')],
        NormalCommand::Sort,
    ).insert(seq![KeyCode::Char('h')], NormalCommand::MoveCursor(CursorMovement::Left)).insert(
        seq![KeyCode::Char('j')],
        NormalCommand::MoveCursor(CursorMovement::Down),
    ).insert(seq![KeyCode::Char('k')], NormalCommand::MoveCursor(CursorMovement::Up)).insert(
        seq![KeyCode::Char('l')],
        NormalCommand::MoveCursor(CursorMovement::Right),
    ).insert(seq![KeyCode::Char('w')], NormalCommand::MoveCursor(CursorMovement::WordForward)).insert(
        seq![KeyCode::Char('b')],
        NormalCommand::MoveCursor(CursorMovement::WordBackward),
    ).insert(seq![KeyCode::Char('O')], NormalCommand::InsertNewLineAbove).insert(
        seq![KeyCode::Char('o')],
        NormalCommand::InsertNewLineBelow,
    ).insert(seq![KeyCode::Char('x')], NormalCommand::DeleteChar).insert(
        seq![KeyCode::Enter],
        NormalCommand::OpenTaskNotes,
    ).insert(seq![KeyCode::Char(' '), KeyCode::Char('f'), KeyCode::Char('f')], NormalCommand::StartSearch).insert(
        seq![KeyCode::Char(' '), KeyCode::Char('~')],
        NormalCommand::Debug,
    )
}

/// The chord of one key.
fn chord_of(key: KeyCode) -> (r: Vec<KeyCode>)
    ensures
        r@ == seq![key],
{
    let r = vec![key];
    assert(r@ =~= seq![key]);
    r
}

/// The chord of a character behind the blank.
fn blank_chord(key: char) -> (r: Vec<KeyCode>)
    ensures
        r@ == seq![KeyCode::Char(' '), KeyCode::Char(key)],
{
    let r = vec![KeyCode::Char(' '), KeyCode::Char(key)];
    assert(r@ =~= seq![KeyCode::Char(' '), KeyCode::Char(key)]);
    r
}

impl TextBuffer {
    /// Moves the cursor as `movement` says.
    pub fn move_cursor(&mut self, movement: CursorMovement)
        requires
            old(self).wf(),
        ensures
            final(self).wf(),
            final(self)@ == old(self)@.moved(movement),
    {
        match movement {
            CursorMovement::Up => self.move_cursor_up(),
            CursorMovement::Down => self.move_cursor_down(),
            CursorMovement::Left => self.move_cursor_left(),
            CursorMovement::Right => self.move_cursor_right(),
            CursorMovement::WordForward => self.move_cursor_one_word_forward(),
            CursorMovement::WordBackward => self.move_cursor_one_word_backward(),
        }
    }
}

/// What the overview does when a panel over it has been updated: a panel
/// that asks to quit is closed and the editor hears nothing of it, and what
/// else a panel asks for goes on to the editor.
pub fn settle_sub_panel(asked: Option<LetterCommand>) -> (r: (bool, Option<LetterCommand>))
    ensures
        r.0 == (asked == Some(LetterCommand::Quit)),
        r.1 == if asked == Some(LetterCommand::Quit) {
            None
        } else {
            asked
        },
{
    match asked {
        Some(LetterCommand::Quit) => (true, None),
        other => (false, other),
    }
}

/// The tasks as lines of text, with the chords of normal mode.
pub struct OverviewPanel<S, H: KeyHandler<S, Option<LetterCommand>>> {
    text_area: TextArea<S, Option<LetterCommand>, H>,
    command_composer: KeyCommandComposer<NormalCommand>,
}

impl<S, H: KeyHandler<S, Option<LetterCommand>>> OverviewPanel<S, H> {
    /// The text and the composer are well formed.
    pub closed spec fn wf(&self) -> bool {
        self.text_area.wf() && self.command_composer.wf()
    }

    /// The lines of the tasks and the cursor.
    pub closed spec fn text(&self) -> TextModel {
        self.text_area@
    }

    /// The chords and what is typed of one.
    pub closed spec fn composer(&self) -> ComposerModel<NormalCommand> {
        self.command_composer@
    }

    /// The keys that have a handler in insert mode, each with its handler.
    pub closed spec fn handlers(&self) -> Map<KeyCode, H> {
        self.text_area.handlers()
    }

    /// An overview of one empty line, without chords or handlers.
    pub fn new() -> (r: Self)
        ensures
            r.wf(),
            r.text() == TextModel::fresh(Seq::empty()),
            r.composer() == ComposerModel::<NormalCommand>::fresh(),
            r.handlers() == Map::<KeyCode, H>::empty(),
    {
        assert(lines_view(Seq::<String>::empty()) =~= Seq::<Seq<char>>::empty());
        OverviewPanel { text_area: TextArea::new(Vec::new()), command_composer: KeyCommandComposer::new() }
    }

    /// Registers the chords of normal mode, disallows line breaks, binds
    /// `enter` to `Enter` and `escape` to `Esc`, and shows `lines`.
    pub fn init(&mut self, lines: Vec<String>, enter: H, escape: H)
        requires
            old(self).wf(),
        ensures
            final(self).wf(),
            final(self).text() == old(self).text().disallow_line_breaks().set_lines(lines_view(lines@)),
            final(self).handlers() == old(self).handlers().insert(KeyCode::Enter, enter).insert(KeyCode::Esc, escape),
            final(self).composer() == (ComposerModel {
                registry: with_normal_chords(old(self).composer().registry),
                ..old(self).composer()
            }),
    {
        let left = NormalCommand::MoveCursor(CursorMovement::Left);
        let down = NormalCommand::MoveCursor(CursorMovement::Down);
        let up = NormalCommand::MoveCursor(CursorMovement::Up);
        let right = NormalCommand::MoveCursor(CursorMovement::Right);
        let forward = NormalCommand::MoveCursor(CursorMovement::WordForward);
        let backward = NormalCommand::MoveCursor(CursorMovement::WordBackward);
        let composer = &mut self.command_composer;
        composer.register_keycommand(chord_of(KeyCode::Char('i')), NormalCommand::Insert);
        composer.register_keycommand(chord_of(KeyCode::Char('I')), NormalCommand::InsertAtBeginningOfLine);
        composer.register_keycommand(chord_of(KeyCode::Char('A')), NormalCommand::InsertAtEndOfLine);
        composer.register_keycommand(chord_of(KeyCode::Char('a')), NormalCommand::InsertAfter);
        let twice = vec![KeyCode::Char('d'), KeyCode::Char('d')];
        assert(twice@ =~= seq![KeyCode::Char('d'), KeyCode::Char('d')]);
        composer.register_keycommand(twice, NormalCommand::DeleteLine);
        composer.register_keycommand(chord_of(KeyCode::Char('t')), NormalCommand::ToggleTaskState);
        composer.register_keycommand(blank_chord('q'), NormalCommand::Quit);
        composer.register_keycommand(blank_chord('s'), NormalCommand::Sort);
        composer.register_keycommand(chord_of(KeyCode::Char('h')), left);
        composer.register_keycommand(chord_of(KeyCode::Char('j')), down);
        composer.register_keycommand(chord_of(KeyCode::Char('k')), up);
        composer.register_keycommand(chord_of(KeyCode::Char('l')), right);
        composer.register_keycommand(chord_of(KeyCode::Char('w')), forward);
        composer.register_keycommand(chord_of(KeyCode::Char('b')), backward);
        composer.register_keycommand(chord_of(KeyCode::Char('O')), NormalCommand::InsertNewLineAbove);
        composer.register_keycommand(chord_of(KeyCode::Char('o')), NormalCommand::InsertNewLineBelow);
        composer.register_keycommand(chord_of(KeyCode::Char('x')), NormalCommand::DeleteChar);
        composer.register_keycommand(chord_of(KeyCode::Enter), NormalCommand::OpenTaskNotes);
        let search = vec![KeyCode::Char(' '), KeyCode::Char('f'), KeyCode::Char('f')];
        assert(search@ =~= seq![KeyCode::Char(' '), KeyCode::Char('f'), KeyCode::Char('f')]);
        composer.register_keycommand(search, NormalCommand::StartSearch);
        composer.register_keycommand(blank_chord('~'), NormalCommand::Debug);
        self.text_area.disallow_line_breaks();
        self.text_area.on_key(KeyCode::Enter, enter);
        self.text_area.on_key(KeyCode::Esc, escape);
        self.text_area.set_lines(lines);
    }

    /// The panel's name.
    pub fn get_name(&self) -> (r: String)
        ensures
            r@ == "Overview"@,
    {
        String::from_str("Overview")
    }

    /// The lines of the tasks and the cursor.
    pub fn text_area(&self) -> (r: &TextArea<S, Option<LetterCommand>, H>)
        ensures
            r@ == self.text(),
    {
        &self.text_area
    }

    /// What is typed of a chord, for the status line.
    pub fn get_combo_string(&self) -> (r: String)
        ensures
            r@ == crate::command::keys_label(self.composer().composition),
    {
        self.command_composer.get_combo_string()
    }

    /// In insert mode: lets the text handle what the key queue gave, and
    /// hands on what a handler asks of the editor.
    pub fn update_insert(&mut self, received: Option<KeyCode>, state: &mut S) -> (r: Option<LetterCommand>)
        requires
            old(self).wf(),
        ensures
            final(self).wf(),
            final(self).composer() == old(self).composer(),
            final(self).handlers().dom() == old(self).handlers().dom(),
            received is None ==> r is None && final(self).text() == old(self).text() && *final(state) == *old(state),
            received matches Some(key) ==> (!old(self).handlers().dom().contains(key) ==> {
                &&& r is None
                &&& final(self).text() == old(self).text().apply_key(key)
                &&& *final(state) == *old(state)
            }),
            received matches Some(key) ==> (old(self).handlers().dom().contains(key) ==> (old(
                self,
            ).handlers()[key].fixed_reply() matches Some(result) ==> {
                &&& r == result
                &&& final(self).text() == old(self).text()
                &&& *final(state) == *old(state)
            })),
    {
        match self.text_area.update(received, state) {
            Some(asked) => asked,
            None => None,
        }
    }

    /// In normal mode: takes the oldest command that the chords have made,
    /// if there is one, and reacts to it as `reaction` says, where there are
    /// `tasks` tasks. Without a command nothing happens.
    pub fn react(&mut self, mode: &mut EditorMode, tasks: usize) -> (r: Option<Reaction>)
        requires
            old(self).wf(),
        ensures
            final(self).wf(),
            final(self).handlers() == old(self).handlers(),
            old(self).composer().pending.len() == 0 ==> {
                &&& r is None
                &&& final(self).text() == old(self).text()
                &&& final(self).composer() == old(self).composer()
                &&& *final(mode) == *old(mode)
            },
            old(self).composer().pending.len() > 0 ==> {
                let expected = reaction(old(self).text(), *old(mode), old(self).composer().pending[0], tasks as nat);
                &&& final(self).composer() == old(self).composer().taken()
                &&& final(self).text() == expected.text
                &&& *final(mode) == expected.mode
                &&& r matches Some(found) && found.requests@ == expected.requests && found.command
                    == expected.command && found.finished == expected.finished
            },
    {
        let command = match self.command_composer.try_recv() {
            Some(command) => command,
            None => {
                return None;
            },
        };
        let (x, y) = self.text_area.get_cursor();
        let rows = self.text_area.lines().len();
        proof {
            self.text_area.lemma_view_wf();
        }
        let mut requests: Vec<HostRequest> = Vec::new();
        let mut asked: Option<LetterCommand> = None;
        let mut finished = true;
        match command {
            NormalCommand::Insert => {
                *mode = EditorMode::Insert;
            },
            NormalCommand::InsertAfter => {
                self.text_area.move_cursor_right();
                *mode = EditorMode::Insert;
            },
            NormalCommand::InsertAtEndOfLine => {
                self.text_area.move_cursor_to_line_end();
                *mode = EditorMode::Insert;
            },
            NormalCommand::InsertAtBeginningOfLine => {
                self.text_area.move_cursor_to_line_start();
                *mode = EditorMode::Insert;
            },
            NormalCommand::Quit => {
                asked = Some(LetterCommand::Quit);
            },
            NormalCommand::Debug => {
                asked = Some(LetterCommand::Debug);
            },
            NormalCommand::Sort => {},
            NormalCommand::MoveCursor(movement) => {
                match movement {
                    CursorMovement::Up => self.text_area.move_cursor_up(),
                    CursorMovement::Down => self.text_area.move_cursor_down(),
                    CursorMovement::Left => self.text_area.move_cursor_left(),
                    CursorMovement::Right => self.text_area.move_cursor_right(),
                    CursorMovement::WordForward => self.text_area.move_cursor_one_word_forward(),
                    CursorMovement::WordBackward => self.text_area.move_cursor_one_word_backward(),
                }
            },
            NormalCommand::DeleteChar => {
                self.text_area.delete_char_at_cursor();
                asked = Some(LetterCommand::Save);
            },
            NormalCommand::DeleteLine => {
                self.text_area.delete_current_line();
                if tasks > y {
                    requests.push(HostRequest::DeleteTask(y));
                }
                asked = Some(LetterCommand::Save);
            },
            NormalCommand::ToggleTaskState => {
                requests.push(HostRequest::SelectBadge { task: y, column: x, row: y });
            },
            NormalCommand::InsertNewLineAbove => {
                requests.push(HostRequest::CreateTaskAt(y));
                self.text_area.insert_line(y, String::new());
                self.text_area.move_cursor_to_line_start();
                *mode = EditorMode::Insert;
                finished = false;
            },
            NormalCommand::InsertNewLineBelow => {
                if tasks == 0 {
                    requests.push(HostRequest::CreateTaskAt(y));
                }
                requests.push(HostRequest::CreateTaskAt(y + 1));
                self.text_area.insert_line(y + 1, String::new());
                self.text_area.move_cursor_down();
                *mode = EditorMode::Insert;
                finished = false;
            },
            NormalCommand::OpenTaskNotes => {
                requests.push(HostRequest::OpenNotes(y));
                finished = false;
            },
            NormalCommand::StartSearch => {
                finished = false;
            },
        }
        Some(Reaction { requests, command: asked, finished })
    }

    /// Hands a key to the chords, in normal mode. In insert mode the key is dropped.
    pub fn feed_key(&mut self, mode: EditorMode, received: Option<KeyCode>)
        requires
            old(self).wf(),
        ensures
            final(self).wf(),
            final(self).text() == old(self).text(),
            final(self).handlers() == old(self).handlers(),
            final(self).composer() == match received {
                Some(key) if mode == EditorMode::Normal => old(self).composer().push_key(key),
                _ => old(self).composer(),
            },
    {
        match received {
            Some(key) => {
                if mode == EditorMode::Normal {
                    self.command_composer.push_key(key);
                }
            },
            None => {},
        }
    }
}

} // verus!
