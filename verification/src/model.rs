//! The session as a mathematical value, and its transitions.

use crate::event::{
    cleared_line, diagnostic_lines, inbound_lines, rejected_line, sent_line, EffectView, Event,
    Focus, InboundMessage, Key, KeyCode,
};
use crate::history::{pushed, MAX_MESSAGES};
use crate::text::decimal;
use vstd::prelude::*;

verus! {

/// The state of a session: where the keyboard goes, the text typed so far,
/// the lines shown, and the position of the selected line, if any.
pub struct Session {
    pub focus: Focus,
    pub input: Seq<char>,
    pub history: Seq<Seq<char>>,
    pub selected: Option<int>,
}

/// How the status line writes a selection.
pub open spec fn selection_text(selected: Option<int>) -> Seq<char> {
    match selected {
        Some(i) => "Some("@ + decimal(i as nat) + ")"@,
        None => "None"@,
    }
}

impl Session {
    /// The history is within its capacity, and a selection points at a line
    /// that is there.
    pub open spec fn wf(self) -> bool {
        &&& self.history.len() <= MAX_MESSAGES
        &&& self.selected matches Some(i) ==> 0 <= i < self.history.len()
    }

    /// The session at its start.
    pub open spec fn initial() -> Session {
        Session {
            focus: Focus::Input,
            input: Seq::empty(),
            history: Seq::empty(),
            selected: None,
        }
    }

    /// The session after `line` has arrived. Where the oldest line leaves to
    /// make room, every position moves down by one, so the selection follows
    /// its line, and is dropped where that line is the one that left.
    pub open spec fn append(self, line: Seq<char>) -> Session {
        Session {
            history: pushed(self.history, line),
            selected: if self.history.len() >= MAX_MESSAGES {
                match self.selected {
                    Some(i) => if i == 0 {
                        None
                    } else {
                        Some(i - 1)
                    },
                    None => None,
                }
            } else {
                self.selected
            },
            ..self
        }
    }

    /// The session after all of `lines` have arrived, one after the other.
    pub open spec fn append_all(self, lines: Seq<Seq<char>>) -> Session
        decreases lines.len(),
    {
        if lines.len() == 0 {
            self
        } else {
            self.append_all(lines.drop_last()).append(lines.last())
        }
    }

    /// The selection one step toward the newest line: it stops at the last
    /// line, and starts at the first where nothing was selected.
    pub open spec fn select_next(self) -> Session {
        Session {
            selected: match self.selected {
                Some(i) => if i + 1 < self.history.len() {
                    Some(i + 1)
                } else {
                    Some(i)
                },
                None => if self.history.len() > 0 {
                    Some(0)
                } else {
                    None
                },
            },
            ..self
        }
    }

    /// The selection one step toward the oldest line: it stops at the first
    /// line, and starts there where nothing was selected.
    pub open spec fn select_previous(self) -> Session {
        Session {
            selected: match self.selected {
                Some(i) => if i > 0 {
                    Some(i - 1)
                } else {
                    Some(i)
                },
                None => if self.history.len() > 0 {
                    Some(0)
                } else {
                    None
                },
            },
            ..self
        }
    }

    /// The session after a key press.
    pub open spec fn after_key(self, key: Key) -> Session {
        match self.focus {
            Focus::Input => match key.code {
                KeyCode::Tab => Session { focus: Focus::History, ..self },
                KeyCode::Enter => Session { input: Seq::empty(), ..self },
                KeyCode::Backspace => if self.input.len() > 0 {
                    Session { input: self.input.drop_last(), ..self }
                } else {
                    self
                },
                KeyCode::Char(c) => Session { input: self.input.push(c), ..self },
                _ => self,
            },
            Focus::History => match key.code {
                KeyCode::Tab => Session { focus: Focus::Input, ..self },
                KeyCode::Backspace => if key.shift {
                    Session { input: Seq::empty(), ..self }.append(cleared_line())
                } else {
                    self
                },
                KeyCode::Char(c) => if c == 'j' {
                    self.select_next()
                } else if c == 'k' {
                    self.select_previous()
                } else {
                    self
                },
                _ => self,
            },
        }
    }

    /// What a key press asks of the driver: `Esc` ends the session, `Enter`
    /// on typed text in the input box asks for that text to be decoded.
    pub open spec fn effect_of(self, key: Key) -> EffectView {
        match key.code {
            KeyCode::Esc => EffectView::Quit,
            KeyCode::Enter => if self.focus == Focus::Input && self.input.len() > 0 {
                EffectView::Decode(self.input)
            } else {
                EffectView::Idle
            },
            _ => EffectView::Idle,
        }
    }

    /// The session after an event of the user interface: only a key press
    /// moves it.
    pub open spec fn after_event(self, event: Event) -> Session {
        match event {
            Event::Key(key) => self.after_key(key),
            _ => self,
        }
    }

    /// What an event of the user interface asks of the driver: a key press
    /// what `effect_of` says, a tick that the channels be drained, anything
    /// else nothing.
    pub open spec fn effect_of_event(self, event: Event) -> EffectView {
        match event {
            Event::Key(key) => self.effect_of(key),
            Event::Tick => EffectView::Drain,
            Event::Other => EffectView::Idle,
        }
    }

    /// The session after the driver has tried to decode the submitted `text`.
    pub open spec fn after_submit(self, text: Seq<char>, accepted: bool) -> Session {
        if accepted {
            self.append(sent_line(text))
        } else {
            self.append(rejected_line(text))
        }
    }

    /// The status line: the mode, and in the message list the selection,
    /// written as `None` or as `Some(..)` around the position in decimal.
    pub open spec fn status_text(self) -> Seq<char> {
        match self.focus {
            Focus::Input => "In INPUT mode"@,
            Focus::History => "In VIEW mode | Selected "@ + selection_text(self.selected)
                + " message"@,
        }
    }

    /// The session after a tick has drained first the inbound messages and
    /// then the diagnostics.
    pub open spec fn after_drain(
        self,
        inbound: Seq<InboundMessage>,
        diagnostics: Seq<String>,
    ) -> Session {
        self.append_all(inbound_lines(inbound)).append_all(diagnostic_lines(diagnostics))
    }
}

} // verus!
