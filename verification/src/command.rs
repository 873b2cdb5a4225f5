//! The chord composer: it takes keys one at a time and gives out the command
//! of each registered key sequence that they complete.

use vstd::prelude::*;
use vstd::string::*;
use std::collections::VecDeque;
use crate::assoc::{
    as_map, distinct_keys, held_at, holds, lemma_add_pair, lemma_empty_table, lemma_pair_in_map,
    lemma_replace_value,
};
use crate::key::KeyCode;
use crate::strings::push_char;

verus! {

/// What a composer is to its contracts.
pub struct ComposerModel<C> {
    /// The command of each registered key sequence.
    pub registry: Map<Seq<KeyCode>, C>,
    /// The keys typed so far that have not yet made a command.
    pub composition: Seq<KeyCode>,
    /// The commands given out and not yet taken, oldest first.
    pub pending: Seq<C>,
}

/// How one key of a composition is shown.
pub open spec fn key_label(key: KeyCode) -> Seq<char> {
    match key {
        KeyCode::Char(c) => if c == ' ' {
            "<space>"@
        } else {
            seq![c]
        },
        _ => "{unknown}"@,
    }
}

/// How a composition is shown: its keys' labels in a row.
pub open spec fn keys_label(keys: Seq<KeyCode>) -> Seq<char>
    decreases keys.len(),
{
    if keys.len() == 0 {
        Seq::<char>::empty()
    } else {
        keys_label(keys.drop_last()) + key_label(keys.last())
    }
}

/// `keys` is how some sequence of `chords` begins.
pub open spec fn begins_some(chords: Set<Seq<KeyCode>>, keys: Seq<KeyCode>) -> bool {
    exists|chord: Seq<KeyCode>| #[trigger] chords.contains(chord) && keys.is_prefix_of(chord)
}

impl<C> ComposerModel<C> {
    /// A composer with nothing registered, typed or given out.
    pub open spec fn fresh() -> Self {
        ComposerModel { registry: Map::empty(), composition: Seq::empty(), pending: Seq::empty() }
    }

    /// `keys` is how some registered sequence begins.
    pub open spec fn begins_registered(self, keys: Seq<KeyCode>) -> bool {
        begins_some(self.registry.dom(), keys)
    }

    /// Nothing is typed, or what is typed begins a registered sequence.
    pub open spec fn wf(self) -> bool {
        self.composition.len() == 0 || self.begins_registered(self.composition)
    }

    /// The composer with `command` registered for `chord`, in place of the command that
    /// the chord had.
    pub open spec fn register(self, chord: Seq<KeyCode>, command: C) -> Self {
        ComposerModel { registry: self.registry.insert(chord, command), ..self }
    }

    /// The composer with nothing typed.
    pub open spec fn clear(self) -> Self {
        ComposerModel { composition: Seq::empty(), ..self }
    }

    /// `Esc` clears what is typed. Any other key is appended to it. Then a
    /// sequence that begins no registered one is dropped with its last key,
    /// and a registered one gives out its command and starts anew.
    pub open spec fn push_key(self, key: KeyCode) -> Self {
        let typed = self.composition.push(key);
        if key == KeyCode::Esc {
            self.clear()
        } else if !self.begins_registered(typed) {
            self.clear()
        } else if self.registry.dom().contains(typed) {
            ComposerModel {
                composition: Seq::empty(),
                pending: self.pending.push(self.registry[typed]),
                ..self
            }
        } else {
            ComposerModel { composition: typed, ..self }
        }
    }

    /// The composer after its oldest pending command was taken.
    pub open spec fn taken(self) -> Self {
        ComposerModel { pending: self.pending.drop_first(), ..self }
    }
}

/// After every key the composer is in one of its two states: nothing is
/// typed, or what is typed begins a registered sequence and is none itself.
/// The registry is as before, and at most one command has been given out.
pub proof fn lemma_push_key_states<C>(m: ComposerModel<C>, key: KeyCode)
    ensures
        m.push_key(key).wf(),
        m.push_key(key).registry == m.registry,
        m.push_key(key).composition.len() == 0 || {
            &&& m.push_key(key).composition == m.composition.push(key)
            &&& !m.registry.dom().contains(m.composition.push(key))
        },
        m.push_key(key).pending == m.pending || m.push_key(key).pending == m.pending.push(
            m.registry[m.composition.push(key)],
        ),
{
}

/// A key that completes a registered sequence gives out the command of that
/// sequence, once, and leaves nothing typed.
pub proof fn lemma_push_key_completes<C>(m: ComposerModel<C>, key: KeyCode)
    requires
        key != KeyCode::Esc,
        m.registry.dom().contains(m.composition.push(key)),
    ensures
        m.push_key(key).composition.len() == 0,
        m.push_key(key).pending == m.pending.push(m.registry[m.composition.push(key)]),
{
    let typed = m.composition.push(key);
    assert(typed.is_prefix_of(typed)) by {
        assert(typed =~= typed.subrange(0, typed.len() as int));
    }
}

/// A key after which what is typed begins no registered sequence is dropped
/// with all that was typed: nothing is given out, and the key does not
/// start a new sequence either. `Esc` does the same whatever is registered.
pub proof fn lemma_push_key_dead_end<C>(m: ComposerModel<C>, key: KeyCode)
    requires
        key == KeyCode::Esc || !m.begins_registered(m.composition.push(key)),
    ensures
        m.push_key(key) == m.clear(),
        m.push_key(key).pending == m.pending,
{
}

/// Registering, clearing and taking a command keep the composer in one of
/// its two states.
pub proof fn lemma_composer_keeps_wf<C>(m: ComposerModel<C>, chord: Seq<KeyCode>, command: C)
    requires
        m.wf(),
    ensures
        ComposerModel::<C>::fresh().wf(),
        m.register(chord, command).wf(),
        m.clear().wf(),
        m.taken().wf(),
{
    if m.composition.len() > 0 {
        let held = choose|held: Seq<KeyCode>| #[trigger]
            m.registry.dom().contains(held) && m.composition.is_prefix_of(held);
        assert(m.register(chord, command).registry.dom().contains(held));
    }
}

/// One registered key sequence with its command.
pub struct Chord<C> {
    pub keys: Vec<KeyCode>,
    pub command: C,
}

/// The registered chords as pairs of a key sequence and its command.
pub open spec fn chord_pairs<C>(chords: Seq<Chord<C>>) -> Seq<(Seq<KeyCode>, C)> {
    Seq::new(chords.len(), |i: int| (chords[i].keys@, chords[i].command))
}

/// Turns key sequences into commands.
pub struct KeyCommandComposer<C: Copy> {
    command_registry: Vec<Chord<C>>,
    current_composition: Vec<KeyCode>,
    emitted: VecDeque<C>,
}

impl<C: Copy> View for KeyCommandComposer<C> {
    type V = ComposerModel<C>;

    closed spec fn view(&self) -> ComposerModel<C> {
        ComposerModel {
            registry: as_map(chord_pairs(self.command_registry@)),
            composition: self.current_composition@,
            pending: self.emitted@,
        }
    }
}

/// Whether `keys` is how `chord` begins.
fn begins(keys: &Vec<KeyCode>, chord: &Vec<KeyCode>) -> (r: bool)
    ensures
        r == keys@.is_prefix_of(chord@),
{
    if keys.len() > chord.len() {
        return false;
    }
    let mut i: usize = 0;
    while i < keys.len()
        invariant
            i <= keys@.len() <= chord@.len(),
            forall|j: int| 0 <= j < i ==> keys@[j] == chord@[j],
        decreases keys@.len() - i,
    {
        if keys[i] != chord[i] {
            assert(chord@.subrange(0, keys@.len() as int)[i as int] == chord@[i as int]);
            return false;
        }
        i += 1;
    }
    assert(keys@ =~= chord@.subrange(0, keys@.len() as int));
    true
}

/// How one key of a composition is shown.
pub fn key_code_to_string(key_code: &KeyCode) -> (r: String)
    ensures
        r@ == key_label(*key_code),
{
    match key_code {
        KeyCode::Char(c) => {
            if *c == ' ' {
                String::from_str("<space>")
            } else {
                let mut label = String::new();
                push_char(&mut label, *c);
                assert(label@ =~= seq![*c]);
                label
            }
        },
        _ => String::from_str("{unknown}"),
    }
}

impl<C: Copy> KeyCommandComposer<C> {
    /// No sequence is registered twice, and what is typed begins a registered sequence.
    pub closed spec fn wf(&self) -> bool {
        &&& distinct_keys(chord_pairs(self.command_registry@))
        &&& self@.wf()
    }

    /// In a well-formed composer nothing is typed, or what is typed begins a
    /// registered sequence.
    pub proof fn lemma_view_wf(&self)
        requires
            self.wf(),
        ensures
            self@.wf(),
    {
    }

    /// A composer with nothing registered, typed or given out.
    pub fn new() -> (r: Self)
        ensures
            r.wf(),
            r@ == ComposerModel::<C>::fresh(),
    {
        let r = KeyCommandComposer {
            command_registry: Vec::new(),
            current_composition: Vec::new(),
            emitted: VecDeque::new(),
        };
        proof {
            lemma_empty_table(chord_pairs(r.command_registry@));
            assert(r@.composition =~= Seq::<KeyCode>::empty());
            assert(r@.pending =~= Seq::<C>::empty());
        }
        r
    }

    /// The number of keys typed so far that have not yet made a command.
    pub fn _len(&self) -> (r: usize)
        ensures
            r == self@.composition.len(),
    {
        self.current_composition.len()
    }

    /// What is typed so far, for a status line.
    pub fn get_combo_string(&self) -> (r: String)
        ensures
            r@ == keys_label(self@.composition),
    {
        let mut shown = String::new();
        let mut i: usize = 0;
        while i < self.current_composition.len()
            invariant
                i <= self.current_composition@.len(),
                shown@ == keys_label(self.current_composition@.subrange(0, i as int)),
            decreases self.current_composition@.len() - i,
        {
            let label = key_code_to_string(&self.current_composition[i]);
            shown.append(label.as_str());
            proof {
                let upto = self.current_composition@.subrange(0, i + 1);
                assert(upto.drop_last() =~= self.current_composition@.subrange(0, i as int));
            }
            i += 1;
        }
        assert(self.current_composition@.subrange(0, i as int) =~= self.current_composition@);
        shown
    }

    /// The place of the chord with exactly these keys.
    fn find_chord(&self, keys: &Vec<KeyCode>) -> (r: Option<usize>)
        ensures
            match r {
                Some(i) => held_at(chord_pairs(self.command_registry@), keys@, i as int),
                None => !holds(chord_pairs(self.command_registry@), keys@),
            },
    {
        let mut i: usize = 0;
        while i < self.command_registry.len()
            invariant
                i <= self.command_registry@.len(),
                forall|j: int| 0 <= j < i ==> !held_at(chord_pairs(self.command_registry@), keys@, j),
            decreases self.command_registry@.len() - i,
        {
            let chord = &self.command_registry[i].keys;
            if chord.len() == keys.len() && begins(keys, chord) {
                assert(chord@ =~= keys@);
                return Some(i);
            }
            i += 1;
        }
        None
    }

    /// Whether what is typed begins a registered sequence.
    pub fn validate(&self) -> (r: bool)
        ensures
            r == self@.begins_registered(self@.composition),
    {
        let mut i: usize = 0;
        while i < self.command_registry.len()
            invariant
                i <= self.command_registry@.len(),
                forall|j: int|
                    0 <= j < i ==> !self.current_composition@.is_prefix_of(
                        #[trigger] self.command_registry@[j].keys@,
                    ),
            decreases self.command_registry@.len() - i,
        {
            if begins(&self.current_composition, &self.command_registry[i].keys) {
                assert(held_at(chord_pairs(self.command_registry@), self.command_registry@[i as int].keys@, i as int));
                assert(self@.registry.dom().contains(self.command_registry@[i as int].keys@));
                return true;
            }
            i += 1;
        }
        proof {
            let pairs = chord_pairs(self.command_registry@);
            assert forall|chord: Seq<KeyCode>| #[trigger]
                self@.registry.dom().contains(chord) implies !self@.composition.is_prefix_of(chord) by {
                let j = choose|j: int| held_at(pairs, chord, j);
                assert(self.command_registry@[j].keys@ == chord);
            }
        }
        false
    }

    /// Takes one key: see `ComposerModel::push_key`.
    pub fn push_key(&mut self, key_code: KeyCode)
        requires
            old(self).wf(),
        ensures
            final(self).wf(),
            final(self)@ == old(self)@.push_key(key_code),
    {
        if key_code == KeyCode::Esc {
            self.clear_composition();
            return ;
        }
        self.current_composition.push(key_code);
        if !self.validate() {
            self.current_composition.clear();
            assert(self@.composition =~= Seq::<KeyCode>::empty());
            return ;
        }
        match self.find_chord(&self.current_composition) {
            Some(i) => {
                proof {
                    lemma_pair_in_map(chord_pairs(self.command_registry@), i as int);
                }
                let command = self.command_registry[i].command;
                self.emitted.push_back(command);
                self.current_composition.clear();
                assert(self@.composition =~= Seq::<KeyCode>::empty());
            },
            None => {},
        }
    }

    /// Forgets what is typed so far. No command is given out.
    pub fn clear_composition(&mut self)
        requires
            old(self).wf(),
        ensures
            final(self).wf(),
            final(self)@ == old(self)@.clear(),
    {
        self.current_composition.clear();
        assert(self@.composition =~= Seq::<KeyCode>::empty());
    }

    /// Registers `cmd` for the keys of `key_chain`, in place of the command
    /// that the sequence had.
    pub fn register_keycommand(&mut self, key_chain: Vec<KeyCode>, cmd: C)
        requires
            old(self).wf(),
            key_chain@.len() > 0,
        ensures
            final(self).wf(),
            final(self)@ == old(self)@.register(key_chain@, cmd),
    {
        let ghost before = chord_pairs(self.command_registry@);
        match self.find_chord(&key_chain) {
            Some(i) => {
                self.command_registry.set(i, Chord { keys: key_chain, command: cmd });
                proof {
                    lemma_replace_value(before, i as int, cmd);
                    assert(chord_pairs(self.command_registry@) =~= before.update(i as int, (key_chain@, cmd)));
                }
            },
            None => {
                self.command_registry.push(Chord { keys: key_chain, command: cmd });
                proof {
                    lemma_add_pair(before, key_chain@, cmd);
                    assert(chord_pairs(self.command_registry@) =~= before.push((key_chain@, cmd)));
                }
            },
        }
        proof {
            if old(self)@.composition.len() > 0 {
                let chord = choose|chord: Seq<KeyCode>| #[trigger]
                    old(self)@.registry.dom().contains(chord) && old(self)@.composition.is_prefix_of(chord);
                assert(self@.registry.dom().contains(chord));
            }
        }
    }

    /// Takes the oldest command that was given out and not yet taken.
    pub fn try_recv(&mut self) -> (r: Option<C>)
        requires
            old(self).wf(),
        ensures
            final(self).wf(),
            match r {
                Some(command) => {
                    &&& old(self)@.pending.len() > 0
                    &&& command == old(self)@.pending[0]
                    &&& final(self)@ == old(self)@.taken()
                },
                None => old(self)@.pending.len() == 0 && final(self)@ == old(self)@,
            },
    {
        let r = self.emitted.pop_front();
        proof {
            if r is Some {
                assert(self@.pending =~= old(self)@.pending.drop_first());
            }
        }
        r
    }
}

} // verus!
