//! The panel that shows the log.

use vstd::prelude::*;
use vstd::string::*;
use crate::editor::logger::Writeable;
use crate::editor::mode::LetterCommand;
use crate::strings::lines_view;

verus! {

/// The lines of the log that are shown.
pub struct DebugPanel {
    lines: Vec<String>,
}

impl View for DebugPanel {
    type V = Seq<Seq<char>>;

    closed spec fn view(&self) -> Seq<Seq<char>> {
        lines_view(self.lines@)
    }
}

impl Default for DebugPanel {
    /// A panel without lines.
    fn default() -> (r: Self)
        ensures
            r@ == Seq::<Seq<char>>::empty(),
    {
        let r = DebugPanel { lines: Vec::new() };
        assert(r@ =~= Seq::<Seq<char>>::empty());
        r
    }
}

impl Writeable for DebugPanel {
    open spec fn written(&self) -> Option<Seq<Seq<char>>> {
        Some(self@)
    }

    /// Shows one more line below the others.
    fn write_line(&mut self, message: &str)
        ensures
            final(self)@ == old(self)@.push(message@),
    {
        self.lines.push(String::from_str(message));
        assert(self@ =~= old(self)@.push(message@));
    }

    /// Shows no line any more.
    fn flush(&mut self)
        ensures
            final(self)@ == Seq::<Seq<char>>::empty(),
    {
        self.lines.clear();
        assert(self@ =~= Seq::<Seq<char>>::empty());
    }
}

impl DebugPanel {
    /// The panel's name.
    pub fn get_name(&self) -> (r: String)
        ensures
            r@ == "debug"@,
    {
        String::from_str("debug")
    }

    /// The panel reads no key and asks nothing of the editor.
    pub fn update(&mut self) -> (r: Option<LetterCommand>)
        ensures
            r is None,
            *final(self) == *old(self),
    {
        None
    }

    /// The lines to draw, oldest first.
    pub fn lines(&self) -> (r: &Vec<String>)
        ensures
            lines_view(r@) == self@,
    {
        &self.lines
    }
}

} // verus!
