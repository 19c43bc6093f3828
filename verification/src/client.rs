//! The client's session: the state machine behind the screen.

use crate::channel::{take_waiting, CHANNEL_CAPACITY};
use crate::config::ClientCfg;
use crate::event::{Effect, Event, Focus, InboundMessage, Key, KeyCode};
use crate::event::{diagnostic_line, diagnostic_lines, inbound_line, inbound_lines};
use crate::history::History;
use crate::laws::{law_append_wf, law_drain_wf, law_key_wf};
use crate::model::Session;
use crate::screen::Screen;
use crate::text::{decimal_text, joined};
use tokio::sync::mpsc::Receiver;
use vstd::prelude::*;

verus! {

/// A client for talking to a server from the terminal: its configuration and
/// the state of its session.
pub struct Client {
    cfg: ClientCfg,
    input: String,
    msgs: History,
    state: Focus,
    selected: Option<usize>,
}

impl View for Client {
    type V = Session;

    closed spec fn view(&self) -> Session {
        Session {
            focus: self.state,
            input: self.input@,
            history: self.msgs@,
            selected: match self.selected {
                Some(i) => Some(i as int),
                None => None,
            },
        }
    }
}

impl Client {
    /// The configuration that the client was made with.
    pub closed spec fn config(&self) -> ClientCfg {
        self.cfg
    }

    /// Creates a new client: the keyboard goes to the empty input box, and
    /// the history is empty.
    pub fn new(cfg: ClientCfg) -> (client: Client)
        ensures
            client@ == Session::initial(),
            client@.wf(),
            client.config() == cfg,
    {
        Client {
            cfg,
            input: String::new(),
            msgs: History::new(),
            state: Focus::Input,
            selected: None,
        }
    }

    /// Appends `msg` to the history. A full history gives up its oldest line,
    /// and the selection moves with the line that it points at.
    pub fn add_msg(&mut self, msg: String)
        ensures
            final(self)@ == old(self)@.append(msg@),
            old(self)@.wf() ==> final(self)@.wf(),
            final(self).config() == old(self).config(),
    {
        proof {
            if old(self)@.wf() {
                law_append_wf(old(self)@, msg@);
            }
        }
        let evicted = self.msgs.push(msg);
        if evicted {
            self.selected = match self.selected {
                Some(i) => if i == 0 {
                    None
                } else {
                    Some(i - 1)
                },
                None => None,
            };
        }
    }

    /// Takes a key press: the session moves as `Session::after_key` says, and
    /// the result is what the driver has to do next.
    pub fn handle_key(&mut self, key: Key) -> (effect: Effect)
        ensures
            final(self)@ == old(self)@.after_key(key),
            effect@ == old(self)@.effect_of(key),
            old(self)@.wf() ==> final(self)@.wf(),
            final(self).config() == old(self).config(),
    {
        proof {
            if old(self)@.wf() {
                law_key_wf(old(self)@, key);
            }
        }
        match self.state {
            Focus::Input => match key.code {
                KeyCode::Esc => Effect::Quit,
                KeyCode::Tab => {
                    self.state = Focus::History;
                    Effect::Idle
                },
                KeyCode::Enter => {
                    if self.input.as_str().is_empty() {
                        assert(self@.input =~= Seq::<char>::empty());
                        Effect::Idle
                    } else {
                        let mut text = String::new();
                        std::mem::swap(&mut text, &mut self.input);
                        Effect::Decode(text)
                    }
                },
                KeyCode::Backspace => {
                    let _ = self.input.pop();
                    Effect::Idle
                },
                KeyCode::Char(c) => {
                    self.input.push(c);
                    Effect::Idle
                },
                KeyCode::Other => Effect::Idle,
            },
            Focus::History => match key.code {
                KeyCode::Esc => Effect::Quit,
                KeyCode::Tab => {
                    self.state = Focus::Input;
                    Effect::Idle
                },
                KeyCode::Backspace => {
                    if key.shift {
                        self.input = String::new();
                        self.add_msg(String::from_str("cleared input box"));
                    }
                    Effect::Idle
                },
                KeyCode::Char(c) => {
                    if c == 'j' {
                        self.select_next();
                    } else if c == 'k' {
                        self.select_previous();
                    }
                    Effect::Idle
                },
                KeyCode::Enter => Effect::Idle,
                KeyCode::Other => Effect::Idle,
            },
        }
    }

    /// Takes an event of the user interface. Only key presses move the
    /// session; a tick asks the driver to drain the channels, and every
    /// other event is passed over.
    pub fn handle_event(&mut self, event: Event) -> (effect: Effect)
        ensures
            final(self)@ == old(self)@.after_event(event),
            effect@ == old(self)@.effect_of_event(event),
            old(self)@.wf() ==> final(self)@.wf(),
            final(self).config() == old(self).config(),
    {
        match event {
            Event::Key(key) => self.handle_key(key),
            Event::Tick => Effect::Drain,
            Event::Other => Effect::Idle,
        }
    }

    /// Takes the outcome of decoding the submitted `text`. A decoded request
    /// is logged as sent and handed back for the outbound queue; where the
    /// text did not decode, the failure is logged and nothing is queued.
    pub fn submitted<Action>(&mut self, text: &str, decoded: Option<Action>) -> (queued: Option<
        Action,
    >)
        ensures
            final(self)@ == old(self)@.after_submit(text@, decoded is Some),
            queued == decoded,
            old(self)@.wf() ==> final(self)@.wf(),
            final(self).config() == old(self).config(),
    {
        let line = if decoded.is_some() {
            joined("sent: ", text)
        } else {
            joined("error: invalid request format: ", text)
        };
        self.add_msg(line);
        decoded
    }

    /// Logs one inbound message.
    pub fn receive(&mut self, message: &InboundMessage)
        ensures
            final(self)@ == old(self)@.append(inbound_line(*message)),
            old(self)@.wf() ==> final(self)@.wf(),
            final(self).config() == old(self).config(),
    {
        let line = match message {
            InboundMessage::Event(text) => joined("received: ", text.as_str()),
            InboundMessage::Error(text) => joined("error: ", text.as_str()),
        };
        self.add_msg(line);
    }

    /// Logs one diagnostic from a pump.
    pub fn report(&mut self, diagnostic: &str)
        ensures
            final(self)@ == old(self)@.append(diagnostic_line(diagnostic@)),
            old(self)@.wf() ==> final(self)@.wf(),
            final(self).config() == old(self).config(),
    {
        self.add_msg(joined("internal message: ", diagnostic));
    }

    /// Logs what a tick has drained from the channels: every inbound message
    /// in its order, then every diagnostic in its order.
    pub fn absorb(&mut self, inbound: Vec<InboundMessage>, diagnostics: Vec<String>)
        ensures
            final(self)@ == old(self)@.after_drain(inbound@, diagnostics@),
            old(self)@.wf() ==> final(self)@.wf(),
            final(self).config() == old(self).config(),
    {
        proof {
            if old(self)@.wf() {
                law_drain_wf(old(self)@, inbound@, diagnostics@);
            }
        }
        let mut i: usize = 0;
        while i < inbound.len()
            invariant
                i <= inbound@.len(),
                self@ == old(self)@.append_all(inbound_lines(inbound@.take(i as int))),
                self.config() == old(self).config(),
            decreases inbound@.len() - i,
        {
            self.receive(&inbound[i]);
            proof {
                let before = inbound_lines(inbound@.take(i as int));
                let after = inbound_lines(inbound@.take(i + 1));
                assert(after.drop_last() =~= before);
                assert(after.last() == inbound_line(inbound@[i as int]));
            }
            i += 1;
        }
        assert(inbound@.take(i as int) =~= inbound@);
        let ghost drained = self@;
        let mut j: usize = 0;
        while j < diagnostics.len()
            invariant
                j <= diagnostics@.len(),
                self@ == drained.append_all(diagnostic_lines(diagnostics@.take(j as int))),
                self.config() == old(self).config(),
            decreases diagnostics@.len() - j,
        {
            self.report(diagnostics[j].as_str());
            proof {
                let before = diagnostic_lines(diagnostics@.take(j as int));
                let after = diagnostic_lines(diagnostics@.take(j + 1));
                assert(after.drop_last() =~= before);
                assert(after.last() == diagnostic_line(diagnostics@[j as int]@));
            }
            j += 1;
        }
        assert(diagnostics@.take(j as int) =~= diagnostics@);
    }

    /// Drains the two channels as a tick does, without blocking, and logs
    /// what they held: the inbound messages first, then the diagnostics, of
    /// each no more than `CHANNEL_CAPACITY`. Which messages those are rests
    /// with the pumps; whatever they are, the session moves as
    /// `Session::after_drain` says of them.
    pub fn drain(
        &mut self,
        inbound: &mut Receiver<InboundMessage>,
        diagnostics: &mut Receiver<String>,
    )
        ensures
            (exists|messages: Seq<InboundMessage>, reports: Seq<String>|
                {
                    &&& messages.len() <= CHANNEL_CAPACITY
                    &&& reports.len() <= CHANNEL_CAPACITY
                    &&& final(self)@ == #[trigger] old(self)@.after_drain(messages, reports)
                }),
            old(self)@.wf() ==> final(self)@.wf(),
            final(self).config() == old(self).config(),
    {
        let messages = take_waiting(inbound, CHANNEL_CAPACITY);
        let reports = take_waiting(diagnostics, CHANNEL_CAPACITY);
        let ghost (taken, reported) = (messages@, reports@);
        self.absorb(messages, reports);
        assert(self@ == old(self)@.after_drain(taken, reported));
    }

    /// The configuration that the client was made with.
    pub fn cfg(&self) -> (cfg: &ClientCfg)
        ensures
            *cfg == self.config(),
    {
        &self.cfg
    }

    /// Where the keyboard goes.
    pub fn focus(&self) -> (focus: Focus)
        ensures
            focus == self@.focus,
    {
        self.state
    }

    /// The text typed so far.
    pub fn input(&self) -> (input: &str)
        ensures
            input@ == self@.input,
    {
        self.input.as_str()
    }

    /// The position of the selected line, counted from the oldest.
    pub fn selected(&self) -> (selected: Option<usize>)
        ensures
            selected is Some <==> self@.selected is Some,
            selected matches Some(i) ==> self@.selected == Some(i as int),
    {
        self.selected
    }

    /// The number of lines in the history.
    pub fn len(&self) -> (n: usize)
        ensures
            n == self@.history.len(),
    {
        self.msgs.len()
    }

    /// The line at position `index`, counted from the oldest; `None` where
    /// the history has no such position.
    pub fn line(&self, index: usize) -> (line: Option<&String>)
        ensures
            line is Some <==> index < self@.history.len(),
            line matches Some(text) ==> text@ == self@.history[index as int],
    {
        self.msgs.line(index)
    }

    /// A copy of every line of the history, oldest first.
    pub fn lines(&self) -> (lines: Vec<String>)
        ensures
            lines@.len() == self@.history.len(),
            forall|i: int| 0 <= i < lines@.len() ==> (#[trigger] lines@[i])@ == self@.history[i],
    {
        self.msgs.lines()
    }

    /// The text of the status line.
    pub fn status_line(&self) -> (text: String)
        ensures
            text@ == self@.status_text(),
    {
        match self.state {
            Focus::Input => String::from_str("In INPUT mode"),
            Focus::History => {
                let mut text = String::from_str("In VIEW mode | Selected ");
                match self.selected {
                    Some(i) => {
                        text.append("Some(");
                        text.append(decimal_text(i).as_str());
                        text.append(")");
                    },
                    None => {
                        text.append("None");
                    },
                }
                text.append(" message");
                text
            },
        }
    }

    /// The snapshot that the renderer paints.
    pub fn screen(&self) -> (screen: Screen)
        ensures
            screen.shows(self@),
    {
        Screen {
            status: self.status_line(),
            input: self.input.clone(),
            input_active: self.state == Focus::Input,
            lines: self.msgs.lines(),
            list_active: self.state == Focus::History,
            selected: self.selected,
        }
    }

    fn select_next(&mut self)
        ensures
            final(self)@ == old(self)@.select_next(),
            final(self).config() == old(self).config(),
    {
        let len: usize = self.msgs.len();
        match self.selected {
            Some(i) => {
                if len > 0 && i < len - 1 {
                    self.selected = Some(i + 1);
                }
            },
            None => {
                if len > 0 {
                    self.selected = Some(0);
                }
            },
        }
    }

    fn select_previous(&mut self)
        ensures
            final(self)@ == old(self)@.select_previous(),
            final(self).config() == old(self).config(),
    {
        match self.selected {
            Some(i) => {
                if i > 0 {
                    self.selected = Some(i - 1);
                }
            },
            None => {
                if self.msgs.len() > 0 {
                    self.selected = Some(0);
                }
            },
        }
    }
}

} // verus!
