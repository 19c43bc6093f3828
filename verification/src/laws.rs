//! What holds of the history and of the session, whatever the events.

use crate::event::{diagnostic_lines, inbound_lines, EffectView, Focus, InboundMessage, Key, KeyCode};
use crate::history::{keep_last, pushed, pushed_all, MAX_MESSAGES};
use crate::model::Session;
use vstd::prelude::*;

verus! {

/// The session after `count` presses of `key`.
pub open spec fn pressed(session: Session, key: Key, count: nat) -> Session
    decreases count,
{
    if count == 0 {
        session
    } else {
        pressed(session, key, (count - 1) as nat).after_key(key)
    }
}

/// One arrival keeps the last `MAX_MESSAGES` lines: pushing onto what was
/// kept of `lines` gives what is kept of `lines` with the new line behind.
pub proof fn law_push_keeps_last(lines: Seq<Seq<char>>, line: Seq<char>)
    ensures
        pushed(keep_last(lines, MAX_MESSAGES as nat), line) == keep_last(
            lines.push(line),
            MAX_MESSAGES as nat,
        ),
{
    assert(pushed(keep_last(lines, MAX_MESSAGES as nat), line) =~= keep_last(
        lines.push(line),
        MAX_MESSAGES as nat,
    ));
}

/// A history within its capacity that takes in `arrivals` one by one holds
/// the last `MAX_MESSAGES` of all lines, old and new, in arrival order.
pub proof fn law_history_keeps_last(lines: Seq<Seq<char>>, arrivals: Seq<Seq<char>>)
    requires
        lines.len() <= MAX_MESSAGES,
    ensures
        pushed_all(lines, arrivals) == keep_last(lines + arrivals, MAX_MESSAGES as nat),
    decreases arrivals.len(),
{
    if arrivals.len() == 0 {
        assert(lines + arrivals =~= lines);
    } else {
        law_history_keeps_last(lines, arrivals.drop_last());
        law_push_keeps_last(lines + arrivals.drop_last(), arrivals.last());
        assert((lines + arrivals.drop_last()).push(arrivals.last()) =~= lines + arrivals);
    }
}

/// The history bound: after `arrivals` have been appended to an empty
/// history, it holds as many lines as arrived, but no more than
/// `MAX_MESSAGES`, and they are the last of the arrivals in arrival order.
pub proof fn law_history_bound(arrivals: Seq<Seq<char>>)
    ensures
        pushed_all(Seq::empty(), arrivals) == keep_last(arrivals, MAX_MESSAGES as nat),
        pushed_all(Seq::empty(), arrivals).len() == if arrivals.len() <= MAX_MESSAGES {
            arrivals.len()
        } else {
            MAX_MESSAGES as nat
        },
        forall|i: int|
            0 <= i < pushed_all(Seq::empty(), arrivals).len() ==> #[trigger] pushed_all(
                Seq::empty(),
                arrivals,
            )[i] == arrivals[arrivals.len() - pushed_all(Seq::empty(), arrivals).len() + i],
{
    law_history_keeps_last(Seq::empty(), arrivals);
    assert(Seq::<Seq<char>>::empty() + arrivals =~= arrivals);
}

/// The history of a session that takes in `lines` is the history that takes
/// them in; focus and input stay as they are.
pub proof fn law_append_all_history(session: Session, lines: Seq<Seq<char>>)
    ensures
        session.append_all(lines).history == pushed_all(session.history, lines),
        session.append_all(lines).focus == session.focus,
        session.append_all(lines).input == session.input,
    decreases lines.len(),
{
    if lines.len() > 0 {
        law_append_all_history(session, lines.drop_last());
    }
}

/// What comes out of the channels never moves the focus or touches the
/// input box; it only reaches the history, where a well-formed session then
/// holds the last `MAX_MESSAGES` of its old lines, the inbound lines and
/// the diagnostic lines, in that order.
pub proof fn law_drain_only_appends(
    session: Session,
    inbound: Seq<InboundMessage>,
    diagnostics: Seq<String>,
)
    requires
        session.wf(),
    ensures
        session.after_drain(inbound, diagnostics).focus == session.focus,
        session.after_drain(inbound, diagnostics).input == session.input,
        session.after_drain(inbound, diagnostics).history == keep_last(
            session.history + inbound_lines(inbound) + diagnostic_lines(diagnostics),
            MAX_MESSAGES as nat,
        ),
{
    let drained = session.append_all(inbound_lines(inbound));
    law_append_all_history(session, inbound_lines(inbound));
    law_append_all_history(drained, diagnostic_lines(diagnostics));
    law_history_keeps_last(session.history, inbound_lines(inbound));
    law_history_keeps_last(drained.history, diagnostic_lines(diagnostics));
    law_keep_last_absorbs(session.history + inbound_lines(inbound), diagnostic_lines(diagnostics));
}

/// Lines that follow make the earlier cut invisible: keeping the last
/// `MAX_MESSAGES` of what was kept of `lines` and then `more` is keeping
/// the last `MAX_MESSAGES` of `lines` and then `more`.
pub proof fn law_keep_last_absorbs(lines: Seq<Seq<char>>, more: Seq<Seq<char>>)
    ensures
        keep_last(keep_last(lines, MAX_MESSAGES as nat) + more, MAX_MESSAGES as nat) == keep_last(
            lines + more,
            MAX_MESSAGES as nat,
        ),
{
    assert(keep_last(keep_last(lines, MAX_MESSAGES as nat) + more, MAX_MESSAGES as nat)
        =~= keep_last(lines + more, MAX_MESSAGES as nat));
}

/// The session starts well-formed.
pub proof fn law_initial_wf()
    ensures
        Session::initial().wf(),
{
}

/// An arriving line leaves a well-formed session well-formed.
pub proof fn law_append_wf(session: Session, line: Seq<char>)
    requires
        session.wf(),
    ensures
        session.append(line).wf(),
{
}

/// Arriving lines leave a well-formed session well-formed.
pub proof fn law_append_all_wf(session: Session, lines: Seq<Seq<char>>)
    requires
        session.wf(),
    ensures
        session.append_all(lines).wf(),
    decreases lines.len(),
{
    if lines.len() > 0 {
        law_append_all_wf(session, lines.drop_last());
    }
}

/// A key press leaves a well-formed session well-formed: whatever the key,
/// a selection still points at a line that is there.
pub proof fn law_key_wf(session: Session, key: Key)
    requires
        session.wf(),
    ensures
        session.after_key(key).wf(),
{
}

/// The outcome of a submit leaves a well-formed session well-formed.
pub proof fn law_submit_wf(session: Session, text: Seq<char>, accepted: bool)
    requires
        session.wf(),
    ensures
        session.after_submit(text, accepted).wf(),
{
}

/// A tick's drain leaves a well-formed session well-formed.
pub proof fn law_drain_wf(session: Session, inbound: Seq<InboundMessage>, diagnostics: Seq<String>)
    requires
        session.wf(),
    ensures
        session.after_drain(inbound, diagnostics).wf(),
{
    law_append_all_wf(session, inbound_lines(inbound));
    law_append_all_wf(session.append_all(inbound_lines(inbound)), diagnostic_lines(diagnostics));
}

/// One move of a session: a key press, the outcome of a submit, the drain of
/// a tick, or a single line that arrives.
pub enum Move {
    Key(Key),
    Submitted { text: Seq<char>, accepted: bool },
    Drained { inbound: Seq<InboundMessage>, diagnostics: Seq<String> },
    Line(Seq<char>),
}

/// The session after one move.
pub open spec fn moved(session: Session, step: Move) -> Session {
    match step {
        Move::Key(key) => session.after_key(key),
        Move::Submitted { text, accepted } => session.after_submit(text, accepted),
        Move::Drained { inbound, diagnostics } => session.after_drain(inbound, diagnostics),
        Move::Line(line) => session.append(line),
    }
}

/// The session after `steps`, in their order.
pub open spec fn moved_all(session: Session, steps: Seq<Move>) -> Session
    decreases steps.len(),
{
    if steps.len() == 0 {
        session
    } else {
        moved(moved_all(session, steps.drop_last()), steps.last())
    }
}

/// Every state that a session reaches from its start is well-formed: the
/// history is within its capacity, and a selection points at a line that is
/// there.
pub proof fn law_every_state_wf(steps: Seq<Move>)
    ensures
        moved_all(Session::initial(), steps).wf(),
    decreases steps.len(),
{
    if steps.len() > 0 {
        law_every_state_wf(steps.drop_last());
        let before = moved_all(Session::initial(), steps.drop_last());
        match steps.last() {
            Move::Key(key) => law_key_wf(before, key),
            Move::Submitted { text, accepted } => law_submit_wf(before, text, accepted),
            Move::Drained { inbound, diagnostics } => law_drain_wf(before, inbound, diagnostics),
            Move::Line(line) => law_append_wf(before, line),
        }
    }
}

/// The history bound, of the session: after `lines` have arrived in a fresh
/// session, its history holds the last `MAX_MESSAGES` of them in arrival
/// order, and all of them where they are no more than that.
pub proof fn law_session_history_bound(lines: Seq<Seq<char>>)
    ensures
        Session::initial().append_all(lines).history == keep_last(lines, MAX_MESSAGES as nat),
        Session::initial().append_all(lines).history.len() == if lines.len() <= MAX_MESSAGES {
            lines.len()
        } else {
            MAX_MESSAGES as nat
        },
{
    law_append_all_history(Session::initial(), lines);
    law_history_bound(lines);
}

/// The selection follows its line: when a line arrives, a selection that
/// remains points at the same text as before, and the only selection that is
/// dropped is the one on the line that a full history gives up.
pub proof fn law_selection_follows_line(session: Session, line: Seq<char>)
    requires
        session.wf(),
    ensures
        match (session.selected, session.append(line).selected) {
            (Some(i), Some(j)) => session.append(line).history[j] == session.history[i],
            (Some(i), None) => i == 0 && session.history.len() == MAX_MESSAGES,
            (None, Some(_)) => false,
            (None, None) => true,
        },
{
}

/// Focus toggling is its own inverse: `Tab` moves the keyboard from the
/// input box to the message list and from there back, asks nothing of the
/// driver, and leaves input, history and selection untouched, so two presses
/// give the session that was there before.
pub proof fn law_tab_toggles(session: Session, first_shift: bool, second_shift: bool)
    ensures
        ({
            let first = Key { code: KeyCode::Tab, shift: first_shift };
            let second = Key { code: KeyCode::Tab, shift: second_shift };
            let once = session.after_key(first);
            &&& session.focus == Focus::Input ==> once.focus == Focus::History
            &&& session.focus == Focus::History ==> once.focus == Focus::Input
            &&& once.input == session.input
            &&& once.history == session.history
            &&& once.selected == session.selected
            &&& session.effect_of(first) == EffectView::Idle
            &&& once.effect_of(second) == EffectView::Idle
            &&& once.after_key(second) == session
        }),
{
}

/// `Esc` ends the session from every state, whatever the focus, and leaves
/// the session as it is.
pub proof fn law_esc_quits(session: Session, shift: bool)
    ensures
        session.effect_of(Key { code: KeyCode::Esc, shift }) == EffectView::Quit,
        session.after_key(Key { code: KeyCode::Esc, shift }) == session,
{
}

/// An empty submit is a no-op: `Enter` on an empty input box changes nothing
/// and asks nothing of the driver, so nothing is decoded, queued or logged.
pub proof fn law_empty_submit(session: Session, shift: bool)
    requires
        session.input.len() == 0,
    ensures
        session.after_key(Key { code: KeyCode::Enter, shift }) == session,
        session.effect_of(Key { code: KeyCode::Enter, shift }) == EffectView::Idle,
{
    assert(session.input =~= Seq::<char>::empty());
}

/// Repeated `j` in the message list: the history stays as it is, and the
/// selection climbs one line per press until it rests on the last line. It
/// never reaches the length of the history.
pub proof fn law_repeated_next(session: Session, shift: bool, count: nat)
    requires
        session.wf(),
        session.focus == Focus::History,
    ensures
        ({
            let after = pressed(session, Key { code: KeyCode::Char('j'), shift }, count);
            let len = session.history.len() as int;
            &&& after.history == session.history
            &&& after.focus == session.focus
            &&& after.input == session.input
            &&& after.selected matches Some(i) ==> 0 <= i < len
            &&& after.selected == if count == 0 {
                session.selected
            } else if len == 0 {
                None
            } else {
                match session.selected {
                    Some(i) => Some(if i + count <= len - 1 {
                        i + count
                    } else {
                        len - 1
                    }),
                    None => Some(if count - 1 <= len - 1 {
                        count - 1
                    } else {
                        len - 1
                    }),
                }
            }
        }),
    decreases count,
{
    if count > 0 {
        law_repeated_next(session, shift, (count - 1) as nat);
    }
}

/// Repeated `k` in the message list: the history stays as it is, and the
/// selection descends one line per press until it rests on the first line.
/// It never goes below zero.
pub proof fn law_repeated_previous(session: Session, shift: bool, count: nat)
    requires
        session.wf(),
        session.focus == Focus::History,
    ensures
        ({
            let after = pressed(session, Key { code: KeyCode::Char('k'), shift }, count);
            let len = session.history.len() as int;
            &&& after.history == session.history
            &&& after.focus == session.focus
            &&& after.input == session.input
            &&& after.selected matches Some(i) ==> 0 <= i < len
            &&& after.selected == if count == 0 {
                session.selected
            } else if len == 0 {
                None
            } else {
                match session.selected {
                    Some(i) => Some(if i - count >= 0 {
                        i - count
                    } else {
                        0
                    }),
                    None => Some(0),
                }
            }
        }),
    decreases count,
{
    if count > 0 {
        law_repeated_previous(session, shift, (count - 1) as nat);
    }
}

} // verus!
