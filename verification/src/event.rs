//! What reaches the session from outside, and what the session asks of its
//! driver in return.

use vstd::prelude::*;

verus! {

/// Which region of the screen receives the keyboard.
#[derive(Clone, Copy, PartialEq, Eq, Structural, Debug)]
pub enum Focus {
    /// The input box.
    Input,
    /// The message list.
    History,
}

/// The key that was pressed.
#[derive(Clone, Copy, PartialEq, Eq, Structural, Debug)]
pub enum KeyCode {
    Esc,
    Tab,
    Enter,
    Backspace,
    /// A key that types a character.
    Char(char),
    /// Any other key.
    Other,
}

/// A key press: the key, and whether Shift was held with it.
#[derive(Clone, Copy, PartialEq, Eq, Structural, Debug)]
pub struct Key {
    pub code: KeyCode,
    pub shift: bool,
}

/// An event of the user interface.
#[derive(Clone, Copy, PartialEq, Eq, Structural, Debug)]
pub enum Event {
    /// A key was pressed.
    Key(Key),
    /// The state-refresh timer fired.
    Tick,
    /// Anything else: a resize, the mouse, a change of window focus.
    Other,
}

/// What the session asks of its driver after an event.
#[derive(Clone, PartialEq, Eq, Debug)]
pub enum Effect {
    /// Nothing.
    Idle,
    /// End the session.
    Quit,
    /// Decode this text as a request, and hand the outcome to
    /// `Client::submitted`.
    Decode(String),
    /// Drain the inbound and the diagnostics channel into the session, with
    /// `Client::drain`.
    Drain,
}

/// An `Effect` with its text as a sequence of characters.
pub enum EffectView {
    Idle,
    Quit,
    Decode(Seq<char>),
    Drain,
}

impl View for Effect {
    type V = EffectView;

    open spec fn view(&self) -> EffectView {
        match *self {
            Effect::Idle => EffectView::Idle,
            Effect::Quit => EffectView::Quit,
            Effect::Decode(text) => EffectView::Decode(text@),
            Effect::Drain => EffectView::Drain,
        }
    }
}

/// One decoded inbound frame, as text ready for display: the rendering of an
/// application event with its capture timestamp, or that of an application
/// error.
#[derive(Clone, PartialEq, Eq, Debug)]
pub enum InboundMessage {
    Event(String),
    Error(String),
}

/// The display line of an inbound message.
pub open spec fn inbound_line(message: InboundMessage) -> Seq<char> {
    match message {
        InboundMessage::Event(text) => "received: "@ + text@,
        InboundMessage::Error(text) => "error: "@ + text@,
    }
}

/// The display line of a diagnostic from one of the pumps.
pub open spec fn diagnostic_line(text: Seq<char>) -> Seq<char> {
    "internal message: "@ + text
}

/// The display line of a request that was decoded and queued.
pub open spec fn sent_line(text: Seq<char>) -> Seq<char> {
    "sent: "@ + text
}

/// The display line of a request that did not decode.
pub open spec fn rejected_line(text: Seq<char>) -> Seq<char> {
    "error: invalid request format: "@ + text
}

/// The display line that follows a cleared input box.
pub open spec fn cleared_line() -> Seq<char> {
    "cleared input box"@
}

/// The display lines of `messages`, in their order.
pub open spec fn inbound_lines(messages: Seq<InboundMessage>) -> Seq<Seq<char>> {
    Seq::new(messages.len(), |i: int| inbound_line(messages[i]))
}

/// The display lines of `diagnostics`, in their order.
pub open spec fn diagnostic_lines(diagnostics: Seq<String>) -> Seq<Seq<char>> {
    Seq::new(diagnostics.len(), |i: int| diagnostic_line(diagnostics[i]@))
}

} // verus!
