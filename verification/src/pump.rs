//! The decisions of the two transport pumps. Each pump runs with the driver;
//! what it does with one frame or one queued request is decided here.

use crate::event::InboundMessage;
use vstd::prelude::*;

verus! {

/// What the transport handed the inbound pump, after the codec has seen it.
#[derive(Clone, PartialEq, Eq, Debug)]
pub enum Arrival {
    /// A text frame that decoded to a message.
    Message(InboundMessage),
    /// A text frame that did not decode, with the codec's words.
    Undecodable(String),
    /// A frame that carries no text.
    NotText,
    /// The transport failed, with its words.
    Failed(String),
    /// The stream has ended.
    Closed,
}

/// What became of a queued request in the outbound pump.
#[derive(Clone, PartialEq, Eq, Debug)]
pub enum Departure {
    /// The request did not encode, with the codec's words.
    Unencodable(String),
    /// The transport took the encoded frame.
    Sent,
    /// The transport refused the encoded frame, with its words.
    Refused(String),
}

/// Where a pump puts what it got.
#[derive(Clone, PartialEq, Eq, Debug)]
pub enum Delivery {
    /// Onto the inbound channel.
    Inbound(InboundMessage),
    /// Onto the diagnostics channel.
    Diagnostic(String),
    /// Nowhere.
    Nothing,
}

/// One turn of a pump: what it delivers, and whether it then goes on to
/// the next frame or request.
#[derive(Clone, PartialEq, Eq, Debug)]
pub struct Turn {
    pub delivery: Delivery,
    pub goes_on: bool,
}

impl Arrival {
    /// What a text frame amounts to, given what the codec made of it: a
    /// decoded event or a decoded application error, each as its rendering,
    /// or the codec's words on why the frame did not decode.
    pub fn of_text(parsed: Result<Result<String, String>, String>) -> (arrival: Arrival)
        ensures
            arrival == match parsed {
                Ok(Ok(event)) => Arrival::Message(InboundMessage::Event(event)),
                Ok(Err(error)) => Arrival::Message(InboundMessage::Error(error)),
                Err(why) => Arrival::Undecodable(why),
            },
    {
        match parsed {
            Ok(Ok(event)) => Arrival::Message(InboundMessage::Event(event)),
            Ok(Err(error)) => Arrival::Message(InboundMessage::Error(error)),
            Err(why) => Arrival::Undecodable(why),
        }
    }
}

impl Turn {
    /// Whether the pump goes on once the driver has tried to deliver what
    /// the turn owes: it stops where the turn says so, and where the channel
    /// no longer takes the delivery, since nobody is left to read it.
    pub fn continues(&self, delivered: bool) -> (go: bool)
        ensures
            go == (self.goes_on && delivered),
    {
        self.goes_on && delivered
    }
}

/// The diagnostic of a stream that has ended.
pub open spec fn closed_text() -> Seq<char> {
    "connection closed"@
}

/// Whether the inbound pump outlives `arrival`: a failed transport and the
/// end of the stream stop it, nothing else does.
pub open spec fn survives(arrival: Arrival) -> bool {
    !(arrival is Failed || arrival is Closed)
}

/// Whether `delivery` is what the inbound pump owes for `arrival`: a message
/// goes to the inbound channel as it is; the words of a codec or transport
/// failure go to the diagnostics channel as they are; the end of the stream
/// is reported there too; a frame without text goes nowhere.
pub open spec fn owed(arrival: Arrival, delivery: Delivery) -> bool {
    match arrival {
        Arrival::Message(message) => delivery == Delivery::Inbound(message),
        Arrival::Undecodable(why) => delivery == Delivery::Diagnostic(why),
        Arrival::NotText => delivery == Delivery::Nothing,
        Arrival::Failed(why) => delivery == Delivery::Diagnostic(why),
        Arrival::Closed => delivery matches Delivery::Diagnostic(text) && text@ == closed_text(),
    }
}

/// The turn that the outbound pump owes for `departure`: a request that did
/// not encode is reported and the pump goes on; a frame that the transport
/// took needs no word; a frame that it refused is reported, and the pump
/// stops.
pub open spec fn outbound_turn(departure: Departure) -> Turn {
    match departure {
        Departure::Unencodable(why) => Turn { delivery: Delivery::Diagnostic(why), goes_on: true },
        Departure::Sent => Turn { delivery: Delivery::Nothing, goes_on: true },
        Departure::Refused(why) => Turn { delivery: Delivery::Diagnostic(why), goes_on: false },
    }
}

/// One turn of the inbound pump. A frame that does not decode is reported
/// and the pump goes on; a failed transport or the end of the stream is
/// reported once, and the pump stops.
pub fn inbound_step(arrival: Arrival) -> (turn: Turn)
    ensures
        owed(arrival, turn.delivery),
        turn.goes_on == survives(arrival),
{
    match arrival {
        Arrival::Message(message) => Turn { delivery: Delivery::Inbound(message), goes_on: true },
        Arrival::Undecodable(why) => Turn { delivery: Delivery::Diagnostic(why), goes_on: true },
        Arrival::NotText => Turn { delivery: Delivery::Nothing, goes_on: true },
        Arrival::Failed(why) => Turn { delivery: Delivery::Diagnostic(why), goes_on: false },
        Arrival::Closed => Turn {
            delivery: Delivery::Diagnostic(String::from_str("connection closed")),
            goes_on: false,
        },
    }
}

/// One turn of the outbound pump, after the codec and the transport have
/// dealt with a queued request.
pub fn outbound_step(departure: Departure) -> (turn: Turn)
    ensures
        turn == outbound_turn(departure),
{
    match departure {
        Departure::Unencodable(why) => Turn { delivery: Delivery::Diagnostic(why), goes_on: true },
        Departure::Sent => Turn { delivery: Delivery::Nothing, goes_on: true },
        Departure::Refused(why) => Turn { delivery: Delivery::Diagnostic(why), goes_on: false },
    }
}

} // verus!
