use tauri_python_sidecar::health::{
    connect_verdict, health_probe, http_failure, http_request, http_verdict, probe_address,
    HealthPlan, HttpAction,
};
use tauri_python_sidecar::supervisor::{HealthSpec, LaunchSpec, PortSpec};

fn spec(kind: &str, path: Option<&str>) -> LaunchSpec {
    LaunchSpec {
        command: "serve".to_string(),
        args: Vec::new(),
        cwd: None,
        env: Vec::new(),
        port: PortSpec { strategy: "dynamic".to_string(), value: None, env: None, arg: None },
        health: HealthSpec {
            kind: kind.to_string(),
            path: path.map(|p| p.to_string()),
            probe: None,
        },
    }
}

#[test]
fn test_http_health_ok_and_closed() {
    // A server that answers with 200.
    match health_probe(&spec("http", Some("/health")), 4000) {
        HealthPlan::Http { port, path } => {
            assert_eq!(port, 4000);
            assert_eq!(
                http_request(&path),
                "GET /health HTTP/1.1\r\nHost: 127.0.0.1\r\nConnection: close\r\n\r\n"
            );
        }
        other => panic!("unexpected plan {:?}", other),
    }
    assert!(http_verdict("HTTP/1.1 200 OK\r\n").is_ok());

    // Nothing listening now -> connect fails.
    assert_eq!(
        http_failure(HttpAction::Connect, "refused"),
        "http health connect failed: refused"
    );
}

#[test]
fn kind_decides_the_probe() {
    match health_probe(&spec("http", None), 1) {
        HealthPlan::Http { path, .. } => assert_eq!(path, "/health"),
        other => panic!("unexpected plan {:?}", other),
    }
    assert!(matches!(health_probe(&spec("ws", None), 5), HealthPlan::Connect { port: 5 }));
    assert!(matches!(health_probe(&spec("process", None), 5), HealthPlan::Alive));
    match health_probe(&spec("HTTP", None), 1) {
        HealthPlan::Unknown(message) => assert_eq!(message, "unknown health type: HTTP"),
        other => panic!("unexpected plan {:?}", other),
    }
}

#[test]
fn any_status_but_the_500s_serves() {
    for line in ["HTTP/1.1 404 Not Found", "HTTP/1.1 401", "HTTP/1.1 302 x", "HTTP/1.1 600 ?", "a 100"] {
        assert_eq!(http_verdict(line), Ok(()), "{line}");
    }
    assert_eq!(http_verdict("HTTP/1.1 500 x"), Err("http health returned 500".to_string()));
    assert_eq!(http_verdict("HTTP/1.1 599"), Err("http health returned 599".to_string()));
}

#[test]
fn unparseable_status_lines() {
    for line in ["", "HTTP/1.1", "HTTP/1.1 abc", "HTTP/1.1 65536 big", "HTTP/1.1 -1"] {
        assert_eq!(
            http_verdict(&format!(" {line}\r\n")),
            Err(format!("http health: unparseable response '{line}'"))
        );
    }
}

#[test]
fn messages_of_a_probe() {
    assert_eq!(http_failure(HttpAction::ReadAddress, "x"), "bad health addr: x");
    assert_eq!(http_failure(HttpAction::SetTimeout, "x"), "x");
    assert_eq!(http_failure(HttpAction::Write, "x"), "http health write failed: x");
    assert_eq!(http_failure(HttpAction::Read, "x"), "http health read failed: x");
    assert_eq!(probe_address(65535), "127.0.0.1:65535");
    assert_eq!(connect_verdict(80, true), Ok(()));
    assert_eq!(
        connect_verdict(80, false),
        Err("ws health: nothing listening on port 80".to_string())
    );
}
