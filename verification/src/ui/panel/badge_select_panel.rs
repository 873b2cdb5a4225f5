//! The panel in which a task gets another badge, or none.

use vstd::prelude::*;
use vstd::string::*;
use crate::editor::mode::LetterCommand;
use crate::key::KeyCode;

verus! {

/// What the panel asks the store to do.
#[derive(Clone, Copy, Debug, PartialEq, Eq, Structural)]
pub enum BadgeRequest {
    /// Give the task at this place the badge with this id.
    Wear { task: usize, badge: i64 },
    /// Take the badge of the task at this place away.
    Strip { task: usize },
}

/// A badge that can be chosen: its id and its name.
pub struct BadgeChoice {
    pub id: Option<i64>,
    pub name: String,
}

/// The choices as pairs of an id and a name.
pub open spec fn choices_view(choices: Seq<BadgeChoice>) -> Seq<(Option<i64>, Seq<char>)> {
    Seq::new(choices.len(), |i: int| (choices[i].id, choices[i].name@))
}

/// The badges that a task can change to: all but the one it wears, in their order.
pub open spec fn other_badges(badges: Seq<(i64, Seq<char>)>, worn: Option<i64>) -> Seq<(Option<i64>, Seq<char>)>
    decreases badges.len(),
{
    if badges.len() == 0 {
        Seq::empty()
    } else if Some(badges.last().0) == worn {
        other_badges(badges.drop_last(), worn)
    } else {
        other_badges(badges.drop_last(), worn).push((Some(badges.last().0), badges.last().1))
    }
}

/// The choices that the panel offers: the other badges, then none.
pub open spec fn offered(badges: Seq<(i64, Seq<char>)>, worn: Option<i64>) -> Seq<(Option<i64>, Seq<char>)> {
    other_badges(badges, worn).push((None, "None"@))
}

/// The badges as pairs of an id and a name.
pub open spec fn badges_view(badges: Seq<(i64, String)>) -> Seq<(i64, Seq<char>)> {
    Seq::new(badges.len(), |i: int| (badges[i].0, badges[i].1@))
}

/// What the panel is to its contracts.
pub struct BadgeSelectModel {
    pub position: (usize, usize),
    pub cursor: int,
    pub task: usize,
    pub values: Seq<(Option<i64>, Seq<char>)>,
}

impl BadgeSelectModel {
    /// There is a choice under the cursor.
    pub open spec fn wf(self) -> bool {
        0 <= self.cursor < self.values.len()
    }

    /// The cursor after `key`: `j` moves it down and `k` up, around the ends.
    pub open spec fn cursor_after(self, key: KeyCode) -> int {
        if key == KeyCode::Char('j') {
            if self.cursor == self.values.len() - 1 {
                0
            } else {
                self.cursor + 1
            }
        } else if key == KeyCode::Char('k') {
            if self.cursor == 0 {
                self.values.len() - 1
            } else {
                self.cursor - 1
            }
        } else {
            self.cursor
        }
    }

    /// What `key` asks of the store: `Enter` the choice under the cursor.
    pub open spec fn request(self, key: KeyCode) -> Option<BadgeRequest> {
        if key == KeyCode::Enter {
            match self.values[self.cursor].0 {
                Some(badge) => Some(BadgeRequest::Wear { task: self.task, badge }),
                None => Some(BadgeRequest::Strip { task: self.task }),
            }
        } else {
            None
        }
    }

    /// Whether `key` closes the panel: `Enter`, `t` and `Esc` do.
    pub open spec fn closes(key: KeyCode) -> bool {
        key == KeyCode::Enter || key == KeyCode::Char('t') || key == KeyCode::Esc
    }
}

/// The choice of a badge for one task.
pub struct BadgeSelectPanel {
    pub position: (usize, usize),
    cursor: usize,
    task_idx_sort_order: usize,
    values: Vec<BadgeChoice>,
}

impl View for BadgeSelectPanel {
    type V = BadgeSelectModel;

    closed spec fn view(&self) -> BadgeSelectModel {
        BadgeSelectModel {
            position: self.position,
            cursor: self.cursor as int,
            task: self.task_idx_sort_order,
            values: choices_view(self.values@),
        }
    }
}

impl BadgeSelectPanel {
    /// There is a choice under the cursor.
    pub open spec fn wf(&self) -> bool {
        self@.wf()
    }

    /// A panel at `position` for the task at `task_idx_sort_order`, which
    /// wears `worn`. It offers the other badges of `badges` in their order,
    /// then none, and its cursor is on the first choice.
    pub fn new(
        badges: Vec<(i64, String)>,
        worn: Option<i64>,
        task_idx_sort_order: usize,
        position: (usize, usize),
    ) -> (r: Self)
        ensures
            r.wf(),
            r@ == (BadgeSelectModel {
                position,
                cursor: 0,
                task: task_idx_sort_order,
                values: offered(badges_view(badges@), worn),
            }),
    {
        let mut values: Vec<BadgeChoice> = Vec::new();
        assert(choices_view(values@) =~= other_badges(badges_view(badges@).subrange(0, 0), worn));
        for badge in it: badges
            invariant
                it.seq() == badges@,
                choices_view(values@) == other_badges(badges_view(badges@).subrange(0, it.index() as int), worn),
        {
            proof {
                let upto = badges_view(badges@).subrange(0, it.index() + 1);
                assert(upto.drop_last() =~= badges_view(badges@).subrange(0, it.index() as int));
                assert(upto.last() == (badge.0, badge.1@));
            }
            let ghost before = choices_view(values@);
            let keep = match worn {
                Some(id) => id != badge.0,
                None => true,
            };
            if keep {
                values.push(BadgeChoice { id: Some(badge.0), name: badge.1 });
                assert(choices_view(values@) =~= before.push((Some(badge.0), badge.1@)));
            }
        }
        assert(badges_view(badges@).subrange(0, badges@.len() as int) =~= badges_view(badges@));
        let ghost others = choices_view(values@);
        values.push(BadgeChoice { id: None, name: String::from_str("None") });
        assert(choices_view(values@) =~= others.push((None, "None"@)));
        Self { cursor: 0, values, task_idx_sort_order, position }
    }

    /// The panel's name.
    pub fn get_name(&self) -> (r: String)
        ensures
            r@ == "badge-select"@,
    {
        String::from_str("badge-select")
    }

    /// The place of the choice under the cursor.
    pub fn cursor(&self) -> (r: usize)
        ensures
            r == self@.cursor,
    {
        self.cursor
    }

    /// The choices, in the order in which they are shown.
    pub fn values(&self) -> (r: &Vec<BadgeChoice>)
        ensures
            choices_view(r@) == self@.values,
    {
        &self.values
    }

    /// Handles what the key queue gave. `j` and `k` move the cursor. `Enter`
    /// asks the store for the choice under the cursor and closes the panel,
    /// `t` and `Esc` close it without a choice. The panel closes by asking
    /// the editor to quit it.
    pub fn update(&mut self, received: Option<KeyCode>) -> (r: (Option<LetterCommand>, Option<BadgeRequest>))
        requires
            old(self).wf(),
        ensures
            final(self).wf(),
            match received {
                Some(key) => {
                    &&& final(self)@ == (BadgeSelectModel { cursor: old(self)@.cursor_after(key), ..old(self)@ })
                    &&& r.0 == if BadgeSelectModel::closes(key) {
                        Some(LetterCommand::Quit)
                    } else {
                        None
                    }
                    &&& r.1 == old(self)@.request(key)
                },
                None => *final(self) == *old(self) && r == (None::<LetterCommand>, None::<BadgeRequest>),
            },
    {
        match received {
            Some(KeyCode::Char(c)) => {
                if c == 'j' {
                    if self.cursor == self.values.len() - 1 {
                        self.cursor = 0;
                    } else {
                        self.cursor += 1;
                    }
                    (None, None)
                } else if c == 'k' {
                    if self.cursor == 0 {
                        self.cursor = self.values.len() - 1;
                    } else {
                        self.cursor -= 1;
                    }
                    (None, None)
                } else if c == 't' {
                    (Some(LetterCommand::Quit), None)
                } else {
                    (None, None)
                }
            },
            Some(KeyCode::Enter) => {
                let task = self.task_idx_sort_order;
                let request = match self.values[self.cursor].id {
                    Some(badge) => BadgeRequest::Wear { task, badge },
                    None => BadgeRequest::Strip { task },
                };
                (Some(LetterCommand::Quit), Some(request))
            },
            Some(KeyCode::Esc) => (Some(LetterCommand::Quit), None),
            _ => (None, None),
        }
    }
}

} // verus!
