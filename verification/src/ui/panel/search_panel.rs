//! The search panel: a line of input, and the items ordered by how near they
//! are to it.

use vstd::prelude::*;
use vstd::string::*;
use crate::editor::mode::LetterCommand;
use crate::key::KeyCode;
use crate::strings::{join_lines, joined, lines_view};
use crate::ui::text_model::TextModel;
use crate::ui::textarea::{KeyHandler, Reply, TextArea};

verus! {

/// The items in the order that a fuzzy sort by `input` puts them in.
pub uninterp spec fn fuzzy_order(items: Seq<Seq<char>>, input: Seq<char>) -> Seq<Seq<char>>;

/// The longest item or input, in characters, that the fuzzy sort takes.
pub const FUZZY_LIMIT: usize = 0xffff_fffe;

/// Whether the fuzzy sort takes these items and this input.
pub open spec fn fuzzy_sortable(items: Seq<Seq<char>>, input: Seq<char>) -> bool {
    &&& input.len() <= FUZZY_LIMIT
    &&& forall|i: int| 0 <= i < items.len() ==> (#[trigger] items[i]).len() <= FUZZY_LIMIT
}

/// `rustic_fuzz::fuzzy_sort_in_place` sorts the items by their edit distance
/// to `input`, nearest first, and keeps items of one distance in their
/// order. It holds the items that it was given, and their order depends on
/// nothing but them and `input`. It counts distances in 32 bits, so neither
/// an item nor the input may be longer than that.
#[verifier::external_body]
fn fuzzy_sort_in_place(items: &mut Vec<String>, input: &str)
    requires
        fuzzy_sortable(lines_view(old(items)@), input@),
    ensures
        lines_view(final(items)@) == fuzzy_order(lines_view(old(items)@), input@),
        lines_view(final(items)@).to_multiset() == lines_view(old(items)@).to_multiset(),
{
    rustic_fuzz::fuzzy_sort_in_place(items, input)
}

/// Whether no item is longer than `limit` characters.
fn all_within(items: &Vec<String>, limit: usize) -> (r: bool)
    ensures
        r == forall|i: int| 0 <= i < items@.len() ==> (#[trigger] lines_view(items@)[i]).len() <= limit,
{
    let mut i: usize = 0;
    while i < items.len()
        invariant
            i <= items@.len(),
            forall|j: int| 0 <= j < i ==> (#[trigger] lines_view(items@)[j]).len() <= limit,
        decreases items@.len() - i,
    {
        if items[i].as_str().unicode_len() > limit {
            assert(lines_view(items@)[i as int].len() > limit);
            return false;
        }
        i += 1;
    }
    true
}

/// The items in the order of their nearness to `input`, where the fuzzy sort
/// takes them. Items or an input that it does not take leave the order as it is.
pub fn fuzzy_sort(items: &mut Vec<String>, input: &str) -> (sorted: bool)
    ensures
        sorted == fuzzy_sortable(lines_view(old(items)@), input@),
        sorted ==> lines_view(final(items)@) == fuzzy_order(lines_view(old(items)@), input@),
        sorted ==> lines_view(final(items)@).to_multiset() == lines_view(old(items)@).to_multiset(),
        !sorted ==> *final(items) == *old(items),
{
    if input.unicode_len() <= FUZZY_LIMIT && all_within(items, FUZZY_LIMIT) {
        fuzzy_sort_in_place(items, input);
        true
    } else {
        false
    }
}

/// A line of input over the items that are searched.
pub struct SearchPanel<S> {
    text_area: TextArea<S, LetterCommand, Reply<LetterCommand>>,
    items: Vec<String>,
}

impl<S> SearchPanel<S> {
    /// The input is well formed, and `Esc` is the one key with a handler.
    pub closed spec fn wf(&self) -> bool {
        &&& self.text_area.wf()
        &&& self.text_area.handlers().dom() == set![KeyCode::Esc]
        &&& self.text_area.handlers()[KeyCode::Esc] == (Reply { result: LetterCommand::Quit })
    }

    /// The input.
    pub closed spec fn input(&self) -> TextModel {
        self.text_area@
    }

    /// The items, in the order in which they are shown.
    pub closed spec fn shown(&self) -> Seq<Seq<char>> {
        lines_view(self.items@)
    }

    /// What the items are ordered by: the lines of the input with a blank
    /// between each two.
    pub open spec fn query(&self) -> Seq<char> {
        joined(self.input().lines, " "@)
    }

    /// A panel over `items` with an empty input of one line, in which `Esc`
    /// asks to quit.
    pub fn new(items: Vec<String>) -> (r: Self)
        ensures
            r.wf(),
            r.shown() == lines_view(items@),
            r.input() == TextModel::fresh(Seq::empty()).disallow_line_breaks(),
    {
        let mut text_area = TextArea::new(Vec::new());
        text_area.on_key(KeyCode::Esc, Reply { result: LetterCommand::Quit });
        text_area.disallow_line_breaks();
        assert(lines_view(Seq::<String>::empty()) =~= Seq::<Seq<char>>::empty());
        assert(text_area.handlers().dom() =~= set![KeyCode::Esc]);
        Self { text_area, items }
    }

    /// The panel's name.
    pub fn get_name(&self) -> (r: String)
        ensures
            r@ == "search"@,
    {
        String::from_str("search")
    }

    /// The items, in the order in which they are shown.
    pub fn items(&self) -> (r: &Vec<String>)
        ensures
            lines_view(r@) == self.shown(),
    {
        &self.items
    }

    /// The input.
    pub fn text_area(&self) -> (r: &TextArea<S, LetterCommand, Reply<LetterCommand>>)
        ensures
            r@ == self.input(),
    {
        &self.text_area
    }

    /// Orders the items by the input as it stands, then lets the input
    /// handle what the key queue gave: `Esc` asks to quit, and any other key
    /// has its default meaning in a text of one line. Items that the fuzzy
    /// sort does not take keep their order.
    pub fn update(&mut self, received: Option<KeyCode>, state: &mut S) -> (r: Option<LetterCommand>)
        requires
            old(self).wf(),
        ensures
            final(self).wf(),
            final(self).shown() == if fuzzy_sortable(old(self).shown(), old(self).query()) {
                fuzzy_order(old(self).shown(), old(self).query())
            } else {
                old(self).shown()
            },
            final(self).shown().to_multiset() == old(self).shown().to_multiset(),
            r == if received == Some(KeyCode::Esc) {
                Some(LetterCommand::Quit)
            } else {
                None
            },
            final(self).input() == match received {
                Some(key) if key != KeyCode::Esc => old(self).input().apply_key(key),
                _ => old(self).input(),
            },
            *final(state) == *old(state),
    {
        let query = join_lines(self.text_area.lines(), " ");
        let _ = fuzzy_sort(&mut self.items, query.as_str());
        self.text_area.update(received, state)
    }
}

} // verus!
