//! The tasks with their badges and notes, as they are held in memory.

use vstd::prelude::*;
use std::collections::HashMap;

verus! {

broadcast use vstd::std_specs::hash::group_hash_axioms;

/// A label that a task can wear. The colour is kept as it is written.
#[derive(Debug, PartialEq, Eq)]
pub struct Badge {
    pub id: i64,
    pub name: String,
    pub color: String,
}

/// A task: a line of text, with a badge and a note where it has them.
#[derive(Debug, PartialEq, Eq)]
pub struct Task {
    pub id: Option<i64>,
    pub text: String,
    pub badge_id: Option<i64>,
    pub note_id: Option<i64>,
}

impl Task {
    /// The same task with another badge, or with none.
    pub open spec fn with_badge(self, badge_id: Option<i64>) -> Task {
        Task { badge_id, ..self }
    }

    /// The same task with another note, or with none.
    pub open spec fn with_note(self, note_id: Option<i64>) -> Task {
        Task { note_id, ..self }
    }
}

impl Default for Task {
    /// A task that is not stored yet: no id, no text, no badge, no note.
    fn default() -> (r: Self)
        ensures
            r.id is None,
            r.text@ == Seq::<char>::empty(),
            r.badge_id is None,
            r.note_id is None,
    {
        Self { id: None, text: String::new(), badge_id: None, note_id: None }
    }
}

/// A note to a task.
#[derive(Debug)]
pub struct Note {
    pub id: Option<i64>,
    pub text: String,
}

impl Note {
    /// A note with this id and this text.
    pub fn new(id: Option<i64>, text: String) -> (r: Self)
        ensures
            r.id == id,
            r.text == text,
    {
        Self { id, text }
    }
}

impl Default for Note {
    /// A note that is not stored yet: no id and no text.
    fn default() -> (r: Self)
        ensures
            r.id is None,
            r.text@ == Seq::<char>::empty(),
    {
        Self { id: None, text: String::new() }
    }
}

/// The map that a list of badges makes: each badge under its id, a later
/// badge in place of an earlier one with the same id.
pub open spec fn badges_by_id(badges: Seq<Badge>) -> Map<i64, Badge>
    decreases badges.len(),
{
    if badges.len() == 0 {
        Map::empty()
    } else {
        badges_by_id(badges.drop_last()).insert(badges.last().id, badges.last())
    }
}

/// The map that a list of stored notes makes: each note under its id, a
/// later note in place of an earlier one with the same id.
pub open spec fn notes_by_id(notes: Seq<Note>) -> Map<i64, Note>
    decreases notes.len(),
{
    if notes.len() == 0 {
        Map::empty()
    } else {
        notes_by_id(notes.drop_last()).insert(notes.last().id->0, notes.last())
    }
}

/// The tasks in their order, and the badges and notes by their ids.
pub struct TaskStore {
    pub badges: HashMap<i64, Badge>,
    pub notes: HashMap<i64, Note>,
    pub tasks: Vec<Task>,
}

impl TaskStore {
    /// The place in the list of tasks that `index` names.
    fn place(&self, index: i64) -> (r: usize)
        requires
            0 <= index <= self.tasks@.len(),
        ensures
            r == index,
    {
        // Counting the tasks shows that the index fits.
        let _count: usize = self.tasks.len();
        index as usize
    }

    /// A store without tasks, badges or notes.
    pub fn new() -> (r: Self)
        ensures
            r.badges@ == Map::<i64, Badge>::empty(),
            r.notes@ == Map::<i64, Note>::empty(),
            r.tasks@ == Seq::<Task>::empty(),
    {
        TaskStore { badges: HashMap::new(), notes: HashMap::new(), tasks: Vec::new() }
    }

    /// Takes what was read: the tasks in their order, the badges and the
    /// notes each under its id. What the store held before is forgotten.
    pub fn fetch_data(&mut self, badges: Vec<Badge>, notes: Vec<Note>, tasks: Vec<Task>)
        requires
            forall|i: int| 0 <= i < notes@.len() ==> notes@[i].id is Some,
        ensures
            final(self).badges@ == badges_by_id(badges@),
            final(self).notes@ == notes_by_id(notes@),
            final(self).tasks@ == tasks@,
    {
        let mut badge_map: HashMap<i64, Badge> = HashMap::new();
        for badge in it: badges
            invariant
                it.seq() == badges@,
                badge_map@ == badges_by_id(badges@.subrange(0, it.index() as int)),
        {
            proof {
                let upto = badges@.subrange(0, it.index() + 1);
                assert(upto.drop_last() =~= badges@.subrange(0, it.index() as int));
            }
            let _ = badge_map.insert(badge.id, badge);
        }
        assert(badges@.subrange(0, badges@.len() as int) =~= badges@);
        let mut note_map: HashMap<i64, Note> = HashMap::new();
        for note in it: notes
            invariant
                it.seq() == notes@,
                forall|i: int| 0 <= i < notes@.len() ==> notes@[i].id is Some,
                note_map@ == notes_by_id(notes@.subrange(0, it.index() as int)),
        {
            proof {
                let upto = notes@.subrange(0, it.index() + 1);
                assert(upto.drop_last() =~= notes@.subrange(0, it.index() as int));
            }
            match note.id {
                Some(id) => {
                    let _ = note_map.insert(id, note);
                },
                None => {},
            }
        }
        assert(notes@.subrange(0, notes@.len() as int) =~= notes@);
        self.badges = badge_map;
        self.notes = note_map;
        self.tasks = tasks;
    }

    /// Puts `task` at `index`, before the task that was there.
    pub fn create_task_at(&mut self, index: i64, task: Task)
        requires
            0 <= index <= old(self).tasks@.len(),
        ensures
            final(self).tasks@ == old(self).tasks@.insert(index as int, task),
            final(self).badges == old(self).badges,
            final(self).notes == old(self).notes,
    {
        let at = self.place(index);
        self.tasks.insert(at, task);
    }

    /// Puts `task` behind the last task.
    pub fn create_task(&mut self, task: Task)
        ensures
            final(self).tasks@ == old(self).tasks@.push(task),
            final(self).badges == old(self).badges,
            final(self).notes == old(self).notes,
    {
        self.tasks.push(task);
    }

    /// The id of the note of the task at `idx_sort_order`, if the task has one.
    pub fn note_id_of(&self, idx_sort_order: i64) -> (r: Option<i64>)
        requires
            0 <= idx_sort_order < self.tasks@.len(),
        ensures
            r == self.tasks@[idx_sort_order as int].note_id,
    {
        let at = self.place(idx_sort_order);
        self.tasks[at].note_id
    }

    /// Gives the task at `idx_sort_order` a new, empty note with the id `note_id`.
    pub fn attach_note(&mut self, idx_sort_order: i64, note_id: i64)
        requires
            0 <= idx_sort_order < old(self).tasks@.len(),
        ensures
            final(self).tasks@ == old(self).tasks@.update(
                idx_sort_order as int,
                old(self).tasks@[idx_sort_order as int].with_note(Some(note_id)),
            ),
            final(self).notes@.dom() == old(self).notes@.dom().insert(note_id),
            final(self).notes@[note_id].id == Some(note_id),
            final(self).notes@[note_id].text@ == Seq::<char>::empty(),
            forall|id: i64|
                id != note_id && old(self).notes@.contains_key(id) ==> final(self).notes@[id] == old(
                    self,
                ).notes@[id],
            final(self).badges == old(self).badges,
    {
        let at = self.place(idx_sort_order);
        self.tasks[at].note_id = Some(note_id);
        let _ = self.notes.insert(note_id, Note::new(Some(note_id), String::new()));
        assert(self.tasks@ =~= old(self).tasks@.update(
            idx_sort_order as int,
            old(self).tasks@[idx_sort_order as int].with_note(Some(note_id)),
        ));
    }

    /// Takes the task at `idx_sort_order` out. The tasks behind it move up.
    pub fn delete_task(&mut self, idx_sort_order: i64)
        requires
            0 <= idx_sort_order < old(self).tasks@.len(),
        ensures
            final(self).tasks@ == old(self).tasks@.remove(idx_sort_order as int),
            final(self).badges == old(self).badges,
            final(self).notes == old(self).notes,
    {
        let at = self.place(idx_sort_order);
        let _ = self.tasks.remove(at);
    }

    /// Gives the task at `idx_sort_order` the badge `badge_id`.
    pub fn update_task_badge(&mut self, idx_sort_order: i64, badge_id: i64)
        requires
            0 <= idx_sort_order < old(self).tasks@.len(),
        ensures
            final(self).tasks@ == old(self).tasks@.update(
                idx_sort_order as int,
                old(self).tasks@[idx_sort_order as int].with_badge(Some(badge_id)),
            ),
            final(self).badges == old(self).badges,
            final(self).notes == old(self).notes,
    {
        let at = self.place(idx_sort_order);
        self.tasks[at].badge_id = Some(badge_id);
        assert(self.tasks@ =~= old(self).tasks@.update(
            idx_sort_order as int,
            old(self).tasks@[idx_sort_order as int].with_badge(Some(badge_id)),
        ));
    }

    /// Takes the badge of the task at `idx_sort_order` away.
    pub fn unset_task_badge(&mut self, idx_sort_order: i64)
        requires
            0 <= idx_sort_order < old(self).tasks@.len(),
        ensures
            final(self).tasks@ == old(self).tasks@.update(
                idx_sort_order as int,
                old(self).tasks@[idx_sort_order as int].with_badge(None),
            ),
            final(self).badges == old(self).badges,
            final(self).notes == old(self).notes,
    {
        let at = self.place(idx_sort_order);
        self.tasks[at].badge_id = None;
        assert(self.tasks@ =~= old(self).tasks@.update(
            idx_sort_order as int,
            old(self).tasks@[idx_sort_order as int].with_badge(None),
        ));
    }

    /// Gives the note `note_idx` the text `text`.
    pub fn update_note_text(&mut self, note_idx: i64, text: &str)
        requires
            old(self).notes@.contains_key(note_idx),
        ensures
            final(self).notes@.dom() == old(self).notes@.dom(),
            final(self).notes@[note_idx].id == old(self).notes@[note_idx].id,
            final(self).notes@[note_idx].text@ == text@,
            forall|id: i64|
                id != note_idx && old(self).notes@.contains_key(id) ==> final(self).notes@[id] == old(
                    self,
                ).notes@[id],
            final(self).tasks == old(self).tasks,
            final(self).badges == old(self).badges,
    {
        let id = match self.notes.get(&note_idx) {
            Some(note) => note.id,
            None => None,
        };
        let _ = self.notes.insert(note_idx, Note::new(id, text.to_owned()));
        assert(self.notes@.dom() =~= old(self).notes@.dom());
    }

    /// The badge that `task` wears, if it wears one that the store knows.
    pub fn get_badge(&self, task: &Task) -> (r: Option<&Badge>)
        ensures
            match task.badge_id {
                Some(id) if self.badges@.contains_key(id) => r == Some(&self.badges@[id]),
                _ => r is None,
            },
    {
        match task.badge_id {
            Some(id) => self.badges.get(&id),
            None => None,
        }
    }

    /// The note with the id `note_id`, if the store knows one.
    pub fn get_note_by_id(&self, note_id: i64) -> (r: Option<&Note>)
        ensures
            r == if self.notes@.contains_key(note_id) {
                Some(&self.notes@[note_id])
            } else {
                None
            },
    {
        self.notes.get(&note_id)
    }
}

} // verus!
