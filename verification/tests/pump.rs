use wire_cli::event::InboundMessage;
use wire_cli::pump::{inbound_step, outbound_step, Arrival, Delivery, Departure, Turn};

#[test]
fn decoded_message_is_forwarded() {
    let message = InboundMessage::Event("Tick(1)".to_string());
    assert_eq!(
        inbound_step(Arrival::Message(message.clone())),
        Turn { delivery: Delivery::Inbound(message), goes_on: true }
    );
}

#[test]
fn decoded_error_payload_is_forwarded() {
    let message = InboundMessage::Error("Denied".to_string());
    assert_eq!(
        inbound_step(Arrival::Message(message.clone())),
        Turn { delivery: Delivery::Inbound(message), goes_on: true }
    );
}

#[test]
fn undecodable_frame_is_reported_and_the_pump_goes_on() {
    assert_eq!(
        inbound_step(Arrival::Undecodable("expected `,` at line 1 column 4".to_string())),
        Turn {
            delivery: Delivery::Diagnostic("expected `,` at line 1 column 4".to_string()),
            goes_on: true,
        }
    );
}

#[test]
fn frame_without_text_is_passed_over() {
    assert_eq!(inbound_step(Arrival::NotText), Turn { delivery: Delivery::Nothing, goes_on: true });
}

#[test]
fn transport_failure_is_reported_and_stops_the_pump() {
    assert_eq!(
        inbound_step(Arrival::Failed("Connection reset without closing handshake".to_string())),
        Turn {
            delivery: Delivery::Diagnostic("Connection reset without closing handshake".to_string()),
            goes_on: false,
        }
    );
}

#[test]
fn end_of_stream_is_reported_once_and_stops_the_pump() {
    assert_eq!(
        inbound_step(Arrival::Closed),
        Turn { delivery: Delivery::Diagnostic("connection closed".to_string()), goes_on: false }
    );
}

#[test]
fn unencodable_request_is_reported_and_the_pump_goes_on() {
    assert_eq!(
        outbound_step(Departure::Unencodable("key must be a string".to_string())),
        Turn { delivery: Delivery::Diagnostic("key must be a string".to_string()), goes_on: true }
    );
}

#[test]
fn accepted_frame_needs_no_report() {
    assert_eq!(outbound_step(Departure::Sent), Turn { delivery: Delivery::Nothing, goes_on: true });
}

#[test]
fn refused_frame_is_reported_and_stops_the_pump() {
    assert_eq!(
        outbound_step(Departure::Refused("Trying to work with closed connection".to_string())),
        Turn {
            delivery: Delivery::Diagnostic("Trying to work with closed connection".to_string()),
            goes_on: false,
        }
    );
}

#[test]
fn pump_stops_when_the_turn_says_so_or_nobody_reads() {
    let going = Turn { delivery: Delivery::Nothing, goes_on: true };
    let stopping = Turn { delivery: Delivery::Nothing, goes_on: false };
    assert!(going.continues(true));
    assert!(!going.continues(false));
    assert!(!stopping.continues(true));
    assert!(!stopping.continues(false));
}

#[test]
fn text_frame_with_an_event_is_a_message() {
    assert_eq!(
        Arrival::of_text(Ok(Ok("Started".to_string()))),
        Arrival::Message(InboundMessage::Event("Started".to_string()))
    );
}

#[test]
fn text_frame_with_an_application_error_is_a_message() {
    assert_eq!(
        Arrival::of_text(Ok(Err("Busy".to_string()))),
        Arrival::Message(InboundMessage::Error("Busy".to_string()))
    );
}

#[test]
fn text_frame_that_does_not_decode_is_undecodable() {
    assert_eq!(
        Arrival::of_text(Err("EOF while parsing a value".to_string())),
        Arrival::Undecodable("EOF while parsing a value".to_string())
    );
}
