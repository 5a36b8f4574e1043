use sidecar_supervisor::relay::{
    emission, message_payload, relay_step, Emission, OutputEvent, RelayAction, ACKNOWLEDGEMENT,
    MESSAGE_EVENT,
};

fn line(text: &[u8]) -> Option<OutputEvent> {
    Some(OutputEvent::StandardOutputLine(text.to_vec()))
}

fn forwarded(payload: &str) -> RelayAction {
    RelayAction::Forward(Emission {
        event: "message".to_string(),
        payload: payload.to_string(),
        acknowledgement: b"message from Rust\n".to_vec(),
    })
}

fn payloads(stream: Vec<Option<OutputEvent>>) -> Vec<String> {
    let mut seen = Vec::new();
    for received in stream {
        if let RelayAction::Forward(emission) = relay_step(received) {
            assert_eq!(emission.event, "message");
            seen.push(emission.payload);
        }
    }
    seen
}

#[test]
fn relay_constants() {
    assert_eq!(MESSAGE_EVENT, "message");
    assert_eq!(ACKNOWLEDGEMENT, "message from Rust\n");
}

#[test]
fn payload_is_the_line_between_quotes() {
    assert_eq!(message_payload("hello"), "'hello'");
    assert_eq!(message_payload(""), "''");
    assert_eq!(message_payload("it's"), "'it's'");
    assert_eq!(message_payload("line\n"), "'line\n'");
}

#[test]
fn emission_carries_event_payload_and_acknowledgement() {
    assert_eq!(
        emission("ready"),
        Emission {
            event: "message".to_string(),
            payload: "'ready'".to_string(),
            acknowledgement: b"message from Rust\n".to_vec(),
        }
    );
}

#[test]
fn output_line_is_forwarded() {
    assert_eq!(relay_step(line(b"INFO started")), forwarded("'INFO started'"));
}

#[test]
fn empty_output_line_is_forwarded() {
    assert_eq!(relay_step(line(b"")), forwarded("''"));
}

#[test]
fn lines_are_relayed_in_order() {
    let seen = payloads(vec![line(b"A"), line(b"B"), line(b"C")]);
    assert_eq!(seen, vec!["'A'".to_string(), "'B'".to_string(), "'C'".to_string()]);
}

#[test]
fn order_is_kept_among_other_events() {
    let seen = payloads(vec![
        line(b"A"),
        Some(OutputEvent::StandardErrorLine(b"warning".to_vec())),
        line(b"B"),
        Some(OutputEvent::Other),
        line(b"C"),
    ]);
    assert_eq!(seen, vec!["'A'".to_string(), "'B'".to_string(), "'C'".to_string()]);
}

#[test]
fn multibyte_text_is_forwarded_verbatim() {
    assert_eq!(relay_step(line("héllo → wörld".as_bytes())), forwarded("'héllo → wörld'"));
}

#[test]
fn invalid_bytes_are_replaced() {
    assert_eq!(relay_step(line(&[0x66, 0x6f, 0x80, 0x6f])), forwarded("'fo\u{FFFD}o'"));
}

#[test]
fn truncated_sequence_is_replaced() {
    assert_eq!(relay_step(line(&[0x41, 0xe2, 0x82])), forwarded("'A\u{FFFD}'"));
}

#[test]
fn only_invalid_bytes_still_yield_one_emission() {
    let seen = payloads(vec![line(&[0xff, 0xfe]), line(&[0xc0])]);
    assert_eq!(seen, vec!["'\u{FFFD}\u{FFFD}'".to_string(), "'\u{FFFD}'".to_string()]);
}

#[test]
fn standard_error_is_skipped() {
    assert_eq!(relay_step(Some(OutputEvent::StandardErrorLine(b"trace".to_vec()))), RelayAction::Skip);
}

#[test]
fn process_error_is_skipped() {
    assert_eq!(relay_step(Some(OutputEvent::ProcessError("broken pipe".to_string()))), RelayAction::Skip);
}

#[test]
fn process_exit_is_skipped() {
    let exited = OutputEvent::ProcessExited { code: Some(0), signal: None };
    assert_eq!(relay_step(Some(exited)), RelayAction::Skip);
    let killed = OutputEvent::ProcessExited { code: None, signal: Some(9) };
    assert_eq!(relay_step(Some(killed)), RelayAction::Skip);
}

#[test]
fn unknown_event_is_skipped() {
    assert_eq!(relay_step(Some(OutputEvent::Other)), RelayAction::Skip);
}

#[test]
fn closed_stream_stops_the_relay() {
    assert_eq!(relay_step(None), RelayAction::Stop);
}

#[test]
fn one_line_then_exit() {
    let stream = vec![
        line(b"listening"),
        Some(OutputEvent::ProcessExited { code: Some(0), signal: None }),
        None,
    ];
    let mut emitted = Vec::new();
    let mut stopped = false;
    for received in stream {
        assert!(!stopped);
        match relay_step(received) {
            RelayAction::Forward(emission) => emitted.push(emission),
            RelayAction::Skip => {}
            RelayAction::Stop => stopped = true,
        }
    }
    assert!(stopped);
    assert_eq!(emitted.len(), 1);
    assert_eq!(emitted[0].event, "message");
    assert_eq!(emitted[0].payload, "'listening'");
    assert_eq!(emitted[0].acknowledgement, b"message from Rust\n".to_vec());
}
