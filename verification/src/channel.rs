//! The consumer's end of the channels that the driver hands the session.

use tokio::sync::mpsc::Receiver;
use vstd::prelude::*;

verus! {

/// How many messages each of the three channels holds in flight before its
/// producer has to wait.
pub const CHANNEL_CAPACITY: usize = 100;

/// The receiving half of a bounded `tokio` channel. What it holds changes
/// with every send of another task, so it is carried as it is and nothing
/// is said of its contents.
#[verifier::external_type_specification]
#[verifier::external_body]
#[verifier::reject_recursive_types(T)]
pub struct ExReceiver<T>(Receiver<T>);

/// `Receiver::try_recv`: the next message, if one waits; it does not block.
/// An empty channel and a disconnected one both give `None`. Nothing is
/// claimed of the message.
#[verifier::external_body]
fn try_next<T>(receiver: &mut Receiver<T>) -> (message: Option<T>) {
    receiver.try_recv().ok()
}

/// Takes out of the channel what waits there, in channel order and without
/// blocking, until the channel is empty or `limit` messages are taken. A
/// channel of capacity `limit` is thereby emptied of all that waited in it
/// when the call was made.
pub(crate) fn take_waiting<T>(receiver: &mut Receiver<T>, limit: usize) -> (messages: Vec<T>)
    ensures
        messages@.len() <= limit,
{
    let mut messages: Vec<T> = Vec::new();
    while messages.len() < limit
        invariant
            messages@.len() <= limit,
        decreases limit - messages@.len(),
    {
        let outcome = try_next(receiver);
        if !keep(&mut messages, outcome) {
            break ;
        }
    }
    messages
}

/// Puts what one attempt to receive gave behind the messages taken so far:
/// a message goes to the end, and nothing changes where there was none. The
/// result says whether there was a message, and so whether to try again.
fn keep<T>(messages: &mut Vec<T>, outcome: Option<T>) -> (more: bool)
    ensures
        more == outcome is Some,
        final(messages)@ == match outcome {
            Some(message) => old(messages)@.push(message),
            None => old(messages)@,
        },
{
    match outcome {
        Some(message) => {
            messages.push(message);
            true
        },
        None => false,
    }
}

} // verus!
