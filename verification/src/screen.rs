//! What the renderer is given to paint: a snapshot of the session.

use crate::event::Focus;
use crate::model::Session;
use vstd::prelude::*;

verus! {

/// A snapshot of the session for one frame: the status line on top, the
/// input box below it, and the message list in what is left.
#[derive(Clone, PartialEq, Eq, Debug)]
pub struct Screen {
    /// The text of the status line.
    pub status: String,
    /// The text in the input box.
    pub input: String,
    /// Whether the input box is the one to highlight.
    pub input_active: bool,
    /// The lines of the message list, oldest first.
    pub lines: Vec<String>,
    /// Whether the message list is the one to highlight.
    pub list_active: bool,
    /// The position of the line to highlight in the list, if any.
    pub selected: Option<usize>,
}

impl Screen {
    /// Whether the snapshot shows `session`: its status line, its input,
    /// every line of its history in order, its selection, and the highlight
    /// on the region that has the keyboard, and on that one alone.
    pub open spec fn shows(&self, session: Session) -> bool {
        &&& self.status@ == session.status_text()
        &&& self.input@ == session.input
        &&& self.input_active == (session.focus == Focus::Input)
        &&& self.list_active == (session.focus == Focus::History)
        &&& self.lines@.len() == session.history.len()
        &&& forall|i: int|
            0 <= i < self.lines@.len() ==> (#[trigger] self.lines@[i])@ == session.history[i]
        &&& match self.selected {
            Some(i) => session.selected == Some(i as int),
            None => session.selected is None,
        }
    }
}

} // verus!
