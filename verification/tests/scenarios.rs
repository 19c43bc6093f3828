use wire_cli::client::Client;
use wire_cli::config::ClientCfg;
use wire_cli::event::{Effect, InboundMessage, Key, KeyCode};
use wire_cli::pump::{inbound_step, outbound_step, Arrival, Delivery, Departure, Turn};

fn scenario_client() -> Client {
    Client::new(ClientCfg { url: "ws://127.0.0.1:8080".to_string() })
}

fn submit_text(client: &mut Client, text: &str) -> Effect {
    for ch in text.chars() {
        client.handle_key(Key { code: KeyCode::Char(ch), shift: false });
    }
    client.handle_key(Key { code: KeyCode::Enter, shift: false })
}

fn arrival_of_json(frame: &str) -> Arrival {
    let parsed = serde_json::from_str::<Result<serde_json::Value, String>>(frame);
    Arrival::of_text(match parsed {
        Ok(Ok(event)) => Ok(Ok(format!("{:?}", event))),
        Ok(Err(error)) => Ok(Err(format!("{:?}", error))),
        Err(error) => Err(error.to_string()),
    })
}

#[test]
fn submitted_ping_is_sent_and_its_echo_received() {
    let mut client = scenario_client();
    let (inbound_tx, mut inbound_rx) = tokio::sync::mpsc::channel::<InboundMessage>(100);
    let (diagnostics_tx, mut diagnostics_rx) = tokio::sync::mpsc::channel::<String>(100);

    let effect = submit_text(&mut client, "{\"ping\":1}");
    assert_eq!(effect, Effect::Decode("{\"ping\":1}".to_string()));
    let decoded = serde_json::from_str::<serde_json::Value>("{\"ping\":1}").ok();
    let queued = client.submitted("{\"ping\":1}", decoded).expect("the request decodes");
    assert_eq!(client.lines(), vec!["sent: {\"ping\":1}".to_string()]);
    assert_eq!(client.input(), "");

    let frame = serde_json::to_string(&queued).unwrap();
    assert_eq!(frame, "{\"ping\":1}");
    assert_eq!(outbound_step(Departure::Sent), Turn { delivery: Delivery::Nothing, goes_on: true });

    let echoed = format!("{{\"Ok\":{}}}", frame);
    let turn = inbound_step(arrival_of_json(&echoed));
    assert!(turn.goes_on);
    match turn.delivery {
        Delivery::Inbound(message) => inbound_tx.try_send(message).unwrap(),
        other => panic!("the echo decodes: {:?}", other),
    }
    assert_eq!(client.len(), 1);

    client.drain(&mut inbound_rx, &mut diagnostics_rx);
    let lines = client.lines();
    assert_eq!(lines.len(), 2);
    assert_eq!(lines[0], "sent: {\"ping\":1}");
    assert!(lines[1].starts_with("received: "));
    assert!(lines[1].contains("ping"));
    assert_eq!(lines[1], format!("received: {:?}", queued));
    assert!(diagnostics_tx.try_send("unused".to_string()).is_ok());
}

#[test]
fn malformed_submit_is_reported_and_nothing_is_queued() {
    let mut client = scenario_client();
    let effect = submit_text(&mut client, "not-json");
    assert_eq!(effect, Effect::Decode("not-json".to_string()));
    let decoded = serde_json::from_str::<serde_json::Value>("not-json").ok();
    assert!(decoded.is_none());
    let queued = client.submitted("not-json", decoded);
    assert_eq!(queued, None);
    assert_eq!(client.lines(), vec!["error: invalid request format: not-json".to_string()]);
    assert_eq!(client.input(), "");
}

#[test]
fn malformed_ron_submit_is_reported_and_nothing_is_queued() {
    let mut client = scenario_client();
    let effect = submit_text(&mut client, "(1, ");
    assert_eq!(effect, Effect::Decode("(1, ".to_string()));
    let decoded = ron::from_str::<(u32, u32)>("(1, ").ok();
    let queued = client.submitted("(1, ", decoded);
    assert_eq!(queued, None);
    assert_eq!(client.lines(), vec!["error: invalid request format: (1, ".to_string()]);
}

#[test]
fn closed_transport_is_reported_once_and_the_session_stays_responsive() {
    let mut client = scenario_client();
    let (inbound_tx, mut inbound_rx) = tokio::sync::mpsc::channel::<InboundMessage>(100);
    let (diagnostics_tx, mut diagnostics_rx) = tokio::sync::mpsc::channel::<String>(100);

    let turn = inbound_step(Arrival::Closed);
    assert!(!turn.goes_on);
    match turn.delivery {
        Delivery::Diagnostic(text) => diagnostics_tx.try_send(text).unwrap(),
        other => panic!("the end of the stream is reported: {:?}", other),
    }
    drop(inbound_tx);
    drop(diagnostics_tx);

    client.drain(&mut inbound_rx, &mut diagnostics_rx);
    assert_eq!(client.lines(), vec!["internal message: connection closed".to_string()]);
    client.drain(&mut inbound_rx, &mut diagnostics_rx);
    assert_eq!(client.len(), 1);

    assert_eq!(client.handle_key(Key { code: KeyCode::Char('a'), shift: false }), Effect::Idle);
    assert_eq!(client.input(), "a");
    assert_eq!(client.handle_key(Key { code: KeyCode::Esc, shift: false }), Effect::Quit);
}

#[test]
fn undecodable_frame_does_not_stop_the_inbound_pump() {
    let mut client = scenario_client();
    let first = inbound_step(arrival_of_json("{\"Ok\": tru"));
    assert!(first.goes_on);
    let report = match first.delivery {
        Delivery::Diagnostic(text) => text,
        other => panic!("the frame does not decode: {:?}", other),
    };
    let second = inbound_step(arrival_of_json("{\"Err\":\"busy\"}"));
    assert!(second.goes_on);
    let message = match second.delivery {
        Delivery::Inbound(message) => message,
        other => panic!("the frame decodes: {:?}", other),
    };
    assert_eq!(message, InboundMessage::Error("\"busy\"".to_string()));
    client.absorb(vec![message], vec![report.clone()]);
    assert_eq!(
        client.lines(),
        vec!["error: \"busy\"".to_string(), format!("internal message: {}", report)]
    );
}

#[test]
fn drain_takes_what_waits_in_channel_order_inbound_first() {
    let mut client = scenario_client();
    let (inbound_tx, mut inbound_rx) = tokio::sync::mpsc::channel::<InboundMessage>(100);
    let (diagnostics_tx, mut diagnostics_rx) = tokio::sync::mpsc::channel::<String>(100);
    diagnostics_tx.try_send("first diagnostic".to_string()).unwrap();
    inbound_tx.try_send(InboundMessage::Event("one".to_string())).unwrap();
    diagnostics_tx.try_send("second diagnostic".to_string()).unwrap();
    inbound_tx.try_send(InboundMessage::Error("two".to_string())).unwrap();

    client.drain(&mut inbound_rx, &mut diagnostics_rx);
    assert_eq!(
        client.lines(),
        vec![
            "received: one".to_string(),
            "error: two".to_string(),
            "internal message: first diagnostic".to_string(),
            "internal message: second diagnostic".to_string(),
        ]
    );

    client.drain(&mut inbound_rx, &mut diagnostics_rx);
    assert_eq!(client.len(), 4);
    inbound_tx.try_send(InboundMessage::Event("three".to_string())).unwrap();
    client.drain(&mut inbound_rx, &mut diagnostics_rx);
    assert_eq!(client.len(), 5);
    assert_eq!(client.line(4).unwrap(), "received: three");
}

#[test]
fn drain_of_a_full_channel_keeps_the_last_hundred_lines() {
    let mut client = scenario_client();
    let (inbound_tx, mut inbound_rx) = tokio::sync::mpsc::channel::<InboundMessage>(100);
    let (_diagnostics_tx, mut diagnostics_rx) = tokio::sync::mpsc::channel::<String>(100);
    for round in 0..2 {
        for n in 0..100 {
            inbound_tx.try_send(InboundMessage::Event(format!("{}", round * 100 + n))).unwrap();
        }
        assert!(inbound_tx.try_send(InboundMessage::Event("overflow".to_string())).is_err());
        client.drain(&mut inbound_rx, &mut diagnostics_rx);
    }
    assert_eq!(client.len(), 100);
    assert_eq!(client.line(0).unwrap(), "received: 100");
    assert_eq!(client.line(99).unwrap(), "received: 199");
}

#[test]
fn json_codec_round_trip() {
    let action: Vec<(String, u32)> = vec![("ping".to_string(), 1), ("pong".to_string(), 2)];
    let frame = serde_json::to_string(&action).unwrap();
    let decoded = serde_json::from_str::<Vec<(String, u32)>>(&frame).ok();
    let mut client = scenario_client();
    assert_eq!(client.submitted(&frame, decoded), Some(action));
    assert_eq!(client.lines(), vec![format!("sent: {}", frame)]);
}

#[test]
fn ron_codec_round_trip() {
    let action: Vec<(String, u32)> = vec![("ping".to_string(), 1), ("pong".to_string(), 2)];
    let frame = ron::to_string(&action).unwrap();
    let decoded = ron::from_str::<Vec<(String, u32)>>(&frame).ok();
    let mut client = scenario_client();
    assert_eq!(client.submitted(&frame, decoded), Some(action));
    assert_eq!(client.lines(), vec![format!("sent: {}", frame)]);
}
