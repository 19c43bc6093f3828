//! The bounded message history: a first-in, first-out buffer of display lines.

use std::collections::VecDeque;
use vstd::prelude::*;

verus! {

/// The maximum number of lines that the history holds.
pub const MAX_MESSAGES: usize = 100;

/// The last `limit` entries of `lines`, in their order; all of them where
/// there are no more than `limit`.
pub open spec fn keep_last(lines: Seq<Seq<char>>, limit: nat) -> Seq<Seq<char>> {
    if lines.len() <= limit {
        lines
    } else {
        lines.subrange(lines.len() - limit, lines.len() as int)
    }
}

/// What a history that shows `lines` shows once `line` has arrived: the new
/// line stands at the tail, and a full history has given up its oldest line.
pub open spec fn pushed(lines: Seq<Seq<char>>, line: Seq<char>) -> Seq<Seq<char>> {
    if lines.len() >= MAX_MESSAGES {
        lines.drop_first().push(line)
    } else {
        lines.push(line)
    }
}

/// What a history that shows `lines` shows once all of `arrivals` have
/// arrived, one after the other.
pub open spec fn pushed_all(lines: Seq<Seq<char>>, arrivals: Seq<Seq<char>>) -> Seq<Seq<char>>
    decreases arrivals.len(),
{
    if arrivals.len() == 0 {
        lines
    } else {
        pushed(pushed_all(lines, arrivals.drop_last()), arrivals.last())
    }
}

/// Display lines in arrival order, oldest first. A history that is made
/// empty and filled by `push` never holds more than `MAX_MESSAGES` lines.
pub struct History {
    lines: VecDeque<String>,
}

impl View for History {
    type V = Seq<Seq<char>>;

    closed spec fn view(&self) -> Seq<Seq<char>> {
        Seq::new(self.lines@.len(), |i: int| self.lines@[i]@)
    }
}

impl History {
    /// The history is within its capacity.
    pub open spec fn wf(&self) -> bool {
        self@.len() <= MAX_MESSAGES
    }

    /// An empty history.
    pub fn new() -> (history: History)
        ensures
            history@ == Seq::<Seq<char>>::empty(),
            history.wf(),
    {
        let history = History { lines: VecDeque::new() };
        assert(history@ =~= Seq::<Seq<char>>::empty());
        history
    }

    /// The number of lines held.
    pub fn len(&self) -> (n: usize)
        ensures
            n == self@.len(),
    {
        self.lines.len()
    }

    /// Appends `line` at the tail. A full history first gives up its oldest
    /// line; the result says whether it did.
    pub fn push(&mut self, line: String) -> (evicted: bool)
        ensures
            final(self)@ == pushed(old(self)@, line@),
            evicted == (old(self)@.len() >= MAX_MESSAGES),
            old(self).wf() ==> final(self).wf(),
            old(self).wf() ==> final(self)@ == keep_last(
                old(self)@.push(line@),
                MAX_MESSAGES as nat,
            ),
    {
        let evicted = self.lines.len() >= MAX_MESSAGES;
        if evicted {
            let _ = self.lines.pop_front();
        }
        self.lines.push_back(line);
        assert(self@ =~= pushed(old(self)@, line@));
        assert(old(self).wf() ==> self@ =~= keep_last(old(self)@.push(line@), MAX_MESSAGES as nat));
        evicted
    }

    /// The line at position `index`, counted from the oldest; `None` where
    /// the history has no such position.
    pub fn line(&self, index: usize) -> (line: Option<&String>)
        ensures
            line is Some <==> index < self@.len(),
            line matches Some(text) ==> text@ == self@[index as int],
    {
        if index < self.lines.len() {
            Some(&self.lines[index])
        } else {
            None
        }
    }

    /// A copy of every line, oldest first.
    pub fn lines(&self) -> (lines: Vec<String>)
        ensures
            lines@.len() == self@.len(),
            forall|i: int| 0 <= i < lines@.len() ==> (#[trigger] lines@[i])@ == self@[i],
    {
        let mut lines: Vec<String> = Vec::new();
        let mut i: usize = 0;
        while i < self.lines.len()
            invariant
                i <= self.lines@.len(),
                lines@.len() == i,
                forall|k: int| 0 <= k < i ==> (#[trigger] lines@[k])@ == self.lines@[k]@,
            decreases self.lines@.len() - i,
        {
            lines.push(self.lines[i].clone());
            i += 1;
        }
        lines
    }
}

} // verus!
