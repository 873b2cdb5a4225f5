//! The panel in which the note of a task is read and written.

use vstd::prelude::*;
use vstd::string::*;
use crate::editor::mode::{EditorMode, LetterCommand};
use crate::key::KeyCode;
use crate::strings::{join_lines, joined, split_lines, text_lines};
use crate::ui::text_model::TextModel;
use crate::ui::textarea::{KeyHandler, Reply, TextArea};

verus! {

/// What an update of the note panel asks for.
pub struct NoteUpdate {
    /// What the panel asks of the editor.
    pub command: Option<LetterCommand>,
    /// The text to store as the note, where the note is to be stored.
    pub save: Option<String>,
}

/// The note of one task in a text area.
pub struct TaskNotePanel<S> {
    pub note_id: i64,
    text_area: TextArea<S, LetterCommand, Reply<LetterCommand>>,
}

impl<S> TaskNotePanel<S> {
    /// The text is well formed, and `Esc` is the one key with a handler.
    pub closed spec fn wf(&self) -> bool {
        &&& self.text_area.wf()
        &&& self.text_area.handlers().dom() == set![KeyCode::Esc]
        &&& self.text_area.handlers()[KeyCode::Esc] == (Reply { result: LetterCommand::Quit })
    }

    /// The id of the note.
    pub closed spec fn id(&self) -> i64 {
        self.note_id
    }

    /// The note as it is edited.
    pub closed spec fn text(&self) -> TextModel {
        self.text_area@
    }

    /// The note as it is stored: its lines with a line feed between each two.
    pub open spec fn stored_text(&self) -> Seq<char> {
        joined(self.text().lines, "\n"@)
    }

    /// A panel for the note `note_id` with the text `text`, line by line. In
    /// insert mode `Esc` asks to quit.
    pub fn new(text: &str, note_id: i64) -> (r: Self)
        ensures
            r.wf(),
            r.id() == note_id,
            r.text() == TextModel::fresh(text_lines(text@)),
    {
        let mut text_area = TextArea::new(split_lines(text));
        text_area.on_key(KeyCode::Esc, Reply { result: LetterCommand::Quit });
        assert(text_area.handlers().dom() =~= set![KeyCode::Esc]);
        Self { note_id, text_area }
    }

    /// The panel's name.
    pub fn get_name(&self) -> (r: String)
        ensures
            r@ == "task-note"@,
    {
        String::from_str("task-note")
    }

    /// The note as it is edited.
    pub fn text_area(&self) -> (r: &TextArea<S, LetterCommand, Reply<LetterCommand>>)
        ensures
            r@ == self.text(),
    {
        &self.text_area
    }

    /// Handles what the key queue gave. In insert mode `Esc` asks to quit
    /// the panel, and any other key has its default meaning in the text. In
    /// normal mode `i` changes to insert mode, `Esc` asks to store the note
    /// and to quit the panel, and any other key does nothing.
    pub fn update(&mut self, mode: &mut EditorMode, received: Option<KeyCode>, state: &mut S) -> (r: NoteUpdate)
        requires
            old(self).wf(),
        ensures
            final(self).wf(),
            final(self).id() == old(self).id(),
            *old(mode) == EditorMode::Normal ==> {
                &&& final(self).text() == old(self).text()
                &&& *final(state) == *old(state)
                &&& *final(mode) == if received == Some(KeyCode::Char('i')) {
                    EditorMode::Insert
                } else {
                    EditorMode::Normal
                }
                &&& r.command == if received == Some(KeyCode::Esc) {
                    Some(LetterCommand::Quit)
                } else {
                    None
                }
                &&& r.save is Some == (received == Some(KeyCode::Esc))
                &&& r.save matches Some(text) ==> text@ == old(self).stored_text()
            },
            *old(mode) == EditorMode::Insert ==> {
                &&& *final(mode) == EditorMode::Insert
                &&& *final(state) == *old(state)
                &&& r.save is None
                &&& r.command == if received == Some(KeyCode::Esc) {
                    Some(LetterCommand::Quit)
                } else {
                    None
                }
                &&& final(self).text() == match received {
                    Some(key) if key != KeyCode::Esc => old(self).text().apply_key(key),
                    _ => old(self).text(),
                }
            },
    {
        match *mode {
            EditorMode::Insert => {
                let command = self.text_area.update(received, state);
                NoteUpdate { command, save: None }
            },
            EditorMode::Normal => {
                match received {
                    Some(KeyCode::Char(c)) => {
                        if c == 'i' {
                            *mode = EditorMode::Insert;
                        }
                        NoteUpdate { command: None, save: None }
                    },
                    Some(KeyCode::Esc) => {
                        let text = join_lines(self.text_area.lines(), "\n");
                        NoteUpdate { command: Some(LetterCommand::Quit), save: Some(text) }
                    },
                    _ => NoteUpdate { command: None, save: None },
                }
            },
        }
    }
}

} // verus!
