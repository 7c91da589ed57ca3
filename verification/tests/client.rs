use tauri_python_sidecar::exchange::{
    send_request, send_request_long, send_request_with_progress, Action, Exchange, Phase, Reply,
};
use tauri_python_sidecar::sidecar_client::{
    auth_handshake_line, classify_stream_line, default_addr, read_sidecar_token, request_line,
    StreamLine, CONNECT_ERROR_PREFIX, SIDECAR_HOST, SIDECAR_PORT,
};

const PING: &str = r#"{"jsonrpc":"2.0","id":1,"method":"ping","params":{}}"#;

#[test]
fn test_address_parsing() {
    let address = default_addr();
    assert_eq!(address, format!("{}:{}", SIDECAR_HOST, SIDECAR_PORT));
    let (host, port) = address.rsplit_once(':').unwrap();
    assert_eq!(host.split('.').filter(|part| part.parse::<u8>().is_ok()).count(), 4);
    assert_eq!(port.parse::<u16>().unwrap(), 9124);
}

fn refused(begun: (Exchange, Action)) -> String {
    let (mut exchange, _) = begun;
    match exchange.step(Reply::Failed("Connection refused (os error 111)".to_string())) {
        Action::Finish(Err(err)) => err,
        other => panic!("unexpected action {:?}", other),
    }
}

#[test]
fn test_connect_error_has_prefix() {
    let err = refused(send_request(PING));
    assert!(
        err.starts_with(CONNECT_ERROR_PREFIX),
        "Connection error should start with prefix '{CONNECT_ERROR_PREFIX}', got: {err}"
    );
}

#[test]
fn test_connect_error_has_prefix_long() {
    let err = refused(send_request_long(PING));
    assert!(
        err.starts_with(CONNECT_ERROR_PREFIX),
        "Connection error should start with prefix '{CONNECT_ERROR_PREFIX}', got: {err}"
    );
}

#[test]
fn test_classify_progress_line() {
    let line = r#"{"type":"progress","stage":"embedding","pct":50}"#;
    assert!(matches!(
        classify_stream_line(line),
        StreamLine::Progress(_)
    ));
}

#[test]
fn test_classify_protocol_event_line() {
    let line = r#"{"type":"protocol_event","event":{"kind":"turn_started"}}"#;
    assert!(matches!(
        classify_stream_line(line),
        StreamLine::ProtocolEvent(_)
    ));
}

#[test]
fn test_classify_jsonrpc_response_is_final() {
    let line = r#"{"jsonrpc":"2.0","id":1,"result":{"ok":true}}"#;
    assert!(matches!(
        classify_stream_line(line),
        StreamLine::FinalResponse
    ));
}

#[test]
fn test_classify_jsonrpc_error_is_final() {
    let line = r#"{"id":1,"error":{"code":-32000,"message":"boom"}}"#;
    assert!(matches!(
        classify_stream_line(line),
        StreamLine::FinalResponse
    ));
}

#[test]
fn test_classify_stray_log_line_is_skipped() {
    // A stray log line must NOT terminate the stream as a final response
    assert!(matches!(
        classify_stream_line("INFO: sidecar warming up handlers"),
        StreamLine::Skip
    ));
}

#[test]
fn test_classify_unrecognized_json_is_skipped() {
    assert!(matches!(
        classify_stream_line(r#"{"foo":"bar"}"#),
        StreamLine::Skip
    ));
}

#[test]
fn event_type_wins_over_response_members() {
    assert!(matches!(
        classify_stream_line(r#"{"type":"progress","id":1}"#),
        StreamLine::Progress(_)
    ));
    assert!(matches!(classify_stream_line(r#"{"type":"x","id":1}"#), StreamLine::FinalResponse));
    assert!(matches!(classify_stream_line("[]"), StreamLine::Skip));
}

#[test]
fn token_is_trimmed_and_blank_is_none() {
    assert_eq!(read_sidecar_token(&None), None);
    assert_eq!(read_sidecar_token(&Some(" \n".to_string())), None);
    assert_eq!(read_sidecar_token(&Some(" abc\r\n".to_string())), Some("abc".to_string()));
}

#[test]
fn handshake_carries_the_token() {
    let line = auth_handshake_line("se\"cret");
    assert!(line.ends_with('\n'));
    let value: serde_json::Value = serde_json::from_str(line.trim()).unwrap();
    assert_eq!(value["type"], "auth");
    assert_eq!(value["token"], "se\"cret");
    assert_eq!(value.as_object().unwrap().len(), 2);
}

#[test]
fn request_line_ends_in_one_line_feed() {
    assert_eq!(request_line("{}"), "{}\n");
    assert_eq!(request_line("{}\n"), "{}\n");
    assert_eq!(request_line(""), "\n");
}

/// Drives an exchange up to its request, without or with a token.
fn up_to_request(begun: (Exchange, Action), token: Option<&str>) -> Exchange {
    let (mut exchange, _) = begun;
    assert!(matches!(exchange.step(Reply::Done), Action::SetReadTimeout { .. }));
    assert!(matches!(exchange.step(Reply::Done), Action::SetWriteTimeout { secs: 5 }));
    assert!(matches!(exchange.step(Reply::Done), Action::SetNodelay));
    assert!(matches!(exchange.step(Reply::Done), Action::ReadToken));
    let mut action = exchange.step(Reply::TokenFile(token.map(|t| t.to_string())));
    if token.is_some() {
        match action {
            Action::Write { line } => assert_eq!(line, auth_handshake_line(token.unwrap().trim())),
            other => panic!("unexpected action {:?}", other),
        }
        action = exchange.step(Reply::Done);
    }
    match action {
        Action::Write { line } => assert_eq!(line, format!("{}\n", PING)),
        other => panic!("unexpected action {:?}", other),
    }
    assert!(matches!(exchange.step(Reply::Done), Action::Flush));
    assert!(matches!(exchange.step(Reply::Done), Action::ReadLine));
    assert_eq!(exchange.phase, Phase::Reading);
    exchange
}

#[test]
fn single_exchange_returns_its_line() {
    let mut exchange = up_to_request(send_request(PING), Some("token\n"));
    match exchange.step(Reply::Line("{\"result\":1} \r\n".to_string())) {
        Action::Finish(Ok(text)) => assert_eq!(text, "{\"result\":1}"),
        other => panic!("unexpected action {:?}", other),
    }
    assert_eq!(exchange.phase, Phase::Closed);
}

#[test]
fn empty_response_is_an_error() {
    let mut exchange = up_to_request(send_request(PING), None);
    match exchange.step(Reply::Line(String::new())) {
        Action::Finish(Err(text)) => assert_eq!(text, "Empty response from sidecar"),
        other => panic!("unexpected action {:?}", other),
    }
}

#[test]
fn read_timeout_has_no_connect_prefix() {
    let mut exchange = up_to_request(send_request(PING), None);
    match exchange.step(Reply::Failed("timed out".to_string())) {
        Action::Finish(Err(text)) => assert_eq!(text, "Failed to read response: timed out"),
        other => panic!("unexpected action {:?}", other),
    }
}

#[test]
fn bad_address_has_no_connect_prefix() {
    let (mut exchange, _) = send_request(PING);
    match exchange.step(Reply::BadAddress("invalid socket address syntax".to_string())) {
        Action::Finish(Err(text)) => {
            assert_eq!(text, "Invalid address: invalid socket address syntax")
        }
        other => panic!("unexpected action {:?}", other),
    }
}

#[test]
fn stream_relays_events_until_the_response() {
    let mut exchange = up_to_request(send_request_with_progress(PING), None);
    assert_eq!(exchange.read_timeout_secs, 120);
    match exchange.step(Reply::Line("{\"type\":\"progress\",\"pct\":10}\n".to_string())) {
        Action::Emit { channel, payload } => {
            assert_eq!(channel, "query-progress");
            assert_eq!(payload["pct"], 10);
            assert_eq!(payload["type"], "progress");
        }
        other => panic!("unexpected action {:?}", other),
    }
    assert!(matches!(exchange.step(Reply::Failed("no window".to_string())), Action::ReadLine));
    let event = "{\"type\":\"protocol_event\",\"event\":{\"kind\":\"turn\"}}\n";
    match exchange.step(Reply::Line(event.to_string())) {
        Action::Emit { channel, payload } => {
            assert_eq!(channel, "protocol-event");
            assert_eq!(payload["kind"], "turn");
            assert_eq!(payload.as_object().unwrap().len(), 1);
        }
        other => panic!("unexpected action {:?}", other),
    }
    assert!(matches!(exchange.step(Reply::Done), Action::ReadLine));
    for stray in ["\n", "INFO: warming up\n", "{\"foo\":1}\n", "{\"type\":\"protocol_event\"}\n"] {
        assert!(matches!(exchange.step(Reply::Line(stray.to_string())), Action::ReadLine));
    }
    match exchange.step(Reply::Line(" {\"id\":1,\"result\":2}\n".to_string())) {
        Action::Finish(Ok(text)) => assert_eq!(text, "{\"id\":1,\"result\":2}"),
        other => panic!("unexpected action {:?}", other),
    }
}

#[test]
fn stream_that_ends_is_an_error() {
    let mut exchange = up_to_request(send_request_with_progress(PING), None);
    match exchange.step(Reply::Line(String::new())) {
        Action::Finish(Err(text)) => assert_eq!(text, "No response received from sidecar"),
        other => panic!("unexpected action {:?}", other),
    }
    let mut broken = up_to_request(send_request_with_progress(PING), None);
    match broken.step(Reply::Failed("reset".to_string())) {
        Action::Finish(Err(text)) => assert_eq!(text, "Failed to read line: reset"),
        other => panic!("unexpected action {:?}", other),
    }
}

#[test]
fn each_setup_failure_has_its_message() {
    let expected = [
        "[connect] Failed to connect to sidecar: x",
        "Failed to set read timeout: x",
        "Failed to set write timeout: x",
        "Failed to set nodelay: x",
    ];
    for (steps, message) in expected.iter().enumerate() {
        let (mut exchange, _) = send_request(PING);
        for _ in 0..steps {
            exchange.step(Reply::Done);
        }
        match exchange.step(Reply::Failed("x".to_string())) {
            Action::Finish(Err(text)) => assert_eq!(&text, message),
            other => panic!("unexpected action {:?}", other),
        }
    }
}

#[test]
fn each_write_failure_has_its_message() {
    let failing = [
        (Phase::Authenticating, "Failed to send auth handshake: x"),
        (Phase::Sending, "Failed to send request: x"),
        (Phase::Flushing, "Failed to flush: x"),
    ];
    for (phase, message) in failing {
        let (mut exchange, _) = send_request(PING);
        while exchange.phase != phase {
            let reply = if exchange.phase == Phase::ReadingToken {
                Reply::TokenFile(Some("t".to_string()))
            } else {
                Reply::Done
            };
            exchange.step(reply);
        }
        match exchange.step(Reply::Failed("x".to_string())) {
            Action::Finish(Err(text)) => assert_eq!(text, message),
            other => panic!("unexpected action {:?}", other),
        }
    }
}
