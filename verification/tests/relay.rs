use d1v_cli::relay::{
    http_relay_failure, http_relay_response, plan_http_relay, plan_local_tunnel, relay_connect_url, tunnel_event_json, ForwardedHeader,
    HttpRelayRequest, LocalTunnel, RelayAction, RelayBody, RelayFrame, RelayInput, RelayState,
    TunnelEvent, TunnelInput, TunnelPhase, TunnelRequest, UpstreamMessage,
};

const OPCODE: &str = "http://127.0.0.1:9191";
const SESSION_PREFIX: &str = "/ws/session/";

fn terminal_request(target: &str, path: &str) -> TunnelRequest {
    TunnelRequest {
        tunnel_id: "tunnel-local".to_string(),
        session_id: "sh-local".to_string(),
        target_base_url: Some(target.to_string()),
        websocket_path: Some(path.to_string()),
        headers: vec![
            ("Origin".to_string(), "https://www.d1v.ai".to_string()),
            ("X-D1V-Shell-Ticket".to_string(), "secret-ticket".to_string()),
            ("Authorization".to_string(), "must-not-forward".to_string()),
        ],
        subprotocols: vec!["d1v-terminal.v1".to_string(), "must-not-forward".to_string()],
    }
}

#[test]
fn event_json_is_a_sorted_ws_event_object() {
    assert_eq!(
        tunnel_event_json("tunnel-1", &TunnelEvent::Open),
        r#"{"event":"open","tunnel_id":"tunnel-1","type":"ws_event"}"#
    );
    assert_eq!(
        tunnel_event_json("tunnel-1", &TunnelEvent::Close),
        r#"{"event":"close","tunnel_id":"tunnel-1","type":"ws_event"}"#
    );
    assert_eq!(
        tunnel_event_json("t", &TunnelEvent::Text("say \"hi\"\n".to_string())),
        r#"{"event":"text","text":"say \"hi\"\n","tunnel_id":"t","type":"ws_event"}"#
    );
    assert_eq!(
        tunnel_event_json("t", &TunnelEvent::Bytes(vec![1, 2, 3])),
        r#"{"bytes_base64":"AQID","event":"bytes","tunnel_id":"t","type":"ws_event"}"#
    );
    let error = tunnel_event_json("t", &TunnelEvent::Error("boom".to_string()));
    let value: serde_json::Value = serde_json::from_str(&error).unwrap();
    assert_eq!(value["event"], "error");
    assert_eq!(value["detail"], "boom");
    assert_eq!(value["tunnel_id"], "t");
    assert_eq!(value["type"], "ws_event");
}

#[test]
fn local_tunnel_forwards_restricted_terminal_handshake() {
    let plan = plan_local_tunnel(
        OPCODE,
        SESSION_PREFIX,
        &terminal_request("http://127.0.0.1:4567/", "/ws/terminal/sh-local"),
    )
    .unwrap();
    assert_eq!(plan.url, "ws://127.0.0.1:4567/ws/terminal/sh-local");
    assert!(plan.terminal);
    assert_eq!(
        plan.headers,
        vec![
            (ForwardedHeader::Origin, "https://www.d1v.ai".to_string()),
            (ForwardedHeader::ShellTicket, "secret-ticket".to_string()),
        ]
    );

    let mut tunnel = LocalTunnel::new("tunnel-local".to_string(), &plan);
    let opened = tunnel.step(TunnelInput::Connected(Some("d1v-terminal.v1".to_string())));
    assert_eq!(opened.events, vec![TunnelEvent::Open]);
    assert!(opened.register && !opened.deregister);
    let closed = tunnel.step(TunnelInput::Upstream(UpstreamMessage::Closed));
    assert_eq!(closed.events, vec![TunnelEvent::Close]);
    assert!(closed.deregister);
    assert_eq!(tunnel.phase, TunnelPhase::Done);
}

#[test]
fn local_tunnel_rejects_non_loopback_terminal_target() {
    let refused = plan_local_tunnel(
        OPCODE,
        SESSION_PREFIX,
        &terminal_request("https://example.com", "/ws/terminal/sh-external"),
    );
    assert_eq!(refused.unwrap_err(), "terminal_target_must_be_loopback");

    let mut relay = RelayState::new(OPCODE.to_string(), SESSION_PREFIX.to_string());
    let mut request = terminal_request("https://example.com", "/ws/terminal/sh-external");
    request.tunnel_id = "tunnel-external".to_string();
    match relay.step(RelayInput::Frame(RelayFrame::WsOpen(request))) {
        RelayAction::Report { text } => {
            let payload: serde_json::Value = serde_json::from_str(&text).unwrap();
            assert_eq!(payload["event"], "error");
            assert_eq!(payload["detail"], "terminal_target_must_be_loopback");
            assert_eq!(payload["tunnel_id"], "tunnel-external");
        }
        other => panic!("unexpected action {other:?}"),
    }
    assert!(!relay.is_open("tunnel-external"));
}

#[test]
fn tunnel_defaults_to_session_path_and_websocket_scheme() {
    let request = TunnelRequest {
        tunnel_id: "t1".to_string(),
        session_id: "abc".to_string(),
        target_base_url: None,
        websocket_path: Some("   ".to_string()),
        headers: vec![(" ORIGIN ".to_string(), "x".to_string())],
        subprotocols: vec![],
    };
    let plan = plan_local_tunnel("https://runtime.example.com///", SESSION_PREFIX, &request).unwrap();
    assert_eq!(plan.url, "wss://runtime.example.com/ws/session/abc");
    assert!(!plan.terminal);
    assert_eq!(plan.headers, vec![(ForwardedHeader::Origin, "x".to_string())]);
}

#[test]
fn terminal_handshake_without_subprotocol_is_refused() {
    let plan = plan_local_tunnel(OPCODE, SESSION_PREFIX, &terminal_request(OPCODE, "/ws/terminal/x"))
        .unwrap();
    let mut tunnel = LocalTunnel::new("t".to_string(), &plan);
    let out = tunnel.step(TunnelInput::Connected(None));
    assert_eq!(
        out.events,
        vec![TunnelEvent::Error("upstream_websocket_subprotocol_mismatch".to_string())]
    );
    assert!(!out.register && !out.deregister);
    assert_eq!(tunnel.phase, TunnelPhase::Done);
    assert!(tunnel.step(TunnelInput::Upstream(UpstreamMessage::Closed)).events.is_empty());
}

#[test]
fn failed_connection_reports_error_then_close() {
    let plan = plan_local_tunnel(OPCODE, SESSION_PREFIX, &terminal_request(OPCODE, "/x")).unwrap();
    let mut tunnel = LocalTunnel::new("t".to_string(), &plan);
    let out = tunnel.step(TunnelInput::ConnectFailed("refused".to_string()));
    assert_eq!(out.events, vec![TunnelEvent::Error("refused".to_string()), TunnelEvent::Close]);
    assert!(out.deregister);
}

#[test]
fn open_tunnel_forwards_text_and_bytes() {
    let plan = plan_local_tunnel(OPCODE, SESSION_PREFIX, &terminal_request(OPCODE, "/x")).unwrap();
    let mut tunnel = LocalTunnel::new("t".to_string(), &plan);
    tunnel.step(TunnelInput::Connected(Some("d1v-terminal.v1".to_string())));
    let text = tunnel.step(TunnelInput::Upstream(UpstreamMessage::Text("hi".to_string())));
    assert_eq!(text.events, vec![TunnelEvent::Text("hi".to_string())]);
    let bytes = tunnel.step(TunnelInput::Upstream(UpstreamMessage::Binary(vec![0, 255])));
    assert_eq!(bytes.events, vec![TunnelEvent::Bytes(vec![0, 255])]);
    assert!(tunnel.step(TunnelInput::Upstream(UpstreamMessage::Other)).events.is_empty());
    let failed = tunnel.step(TunnelInput::Upstream(UpstreamMessage::Failed("reset".to_string())));
    assert_eq!(failed.events, vec![TunnelEvent::Error("reset".to_string()), TunnelEvent::Close]);
    assert!(failed.deregister);
}

#[test]
fn relay_sends_only_to_open_tunnels_and_closes_them() {
    let mut relay = RelayState::new(OPCODE.to_string(), SESSION_PREFIX.to_string());
    let send = |id: &str| {
        RelayInput::Frame(RelayFrame::WsSend {
            tunnel_id: id.to_string(),
            text: None,
            bytes_base64: Some("AQID".to_string()),
        })
    };
    assert!(matches!(relay.step(send("t1")), RelayAction::Ignore));
    relay.step(RelayInput::Registered("t1".to_string()));
    assert!(relay.is_open("t1"));
    match relay.step(send("t1")) {
        RelayAction::SendBinary { tunnel_id, bytes } => {
            assert_eq!(tunnel_id, "t1");
            assert_eq!(bytes, vec![1, 2, 3]);
        }
        other => panic!("unexpected action {other:?}"),
    }
    match relay.step(RelayInput::Frame(RelayFrame::WsClose { tunnel_id: "t1".to_string() })) {
        RelayAction::CloseTunnel { tunnel_id } => assert_eq!(tunnel_id, "t1"),
        other => panic!("unexpected action {other:?}"),
    }
    assert!(!relay.is_open("t1"));
    assert!(matches!(
        relay.step(RelayInput::Frame(RelayFrame::WsClose { tunnel_id: "t1".to_string() })),
        RelayAction::Ignore
    ));
}

#[test]
fn relay_fails_on_bad_frames_and_reconnects_on_loss() {
    let mut relay = RelayState::new(OPCODE.to_string(), SESSION_PREFIX.to_string());
    relay.step(RelayInput::Registered("t".to_string()));
    let bad = RelayInput::Frame(RelayFrame::WsSend {
        tunnel_id: "t".to_string(),
        text: None,
        bytes_base64: Some("not base64!".to_string()),
    });
    assert!(matches!(relay.step(bad), RelayAction::Fail { .. }));
    match relay.step(RelayInput::Unparsable("expected value".to_string())) {
        RelayAction::Fail { message } => assert_eq!(message, "expected value"),
        other => panic!("unexpected action {other:?}"),
    }
    match relay.step(RelayInput::StreamFailed("reset".to_string())) {
        RelayAction::Reconnect { notice } => {
            assert_eq!(notice, "agent relay disconnected: reset; reconnecting")
        }
        other => panic!("unexpected action {other:?}"),
    }
    match relay.step(RelayInput::StreamEnded) {
        RelayAction::Reconnect { notice } => {
            assert_eq!(notice, "agent relay connection closed; reconnecting")
        }
        other => panic!("unexpected action {other:?}"),
    }
    assert!(relay.is_open("t"));
    let text = RelayInput::Frame(RelayFrame::WsSend {
        tunnel_id: "t".to_string(),
        text: Some("ls".to_string()),
        bytes_base64: Some("AQID".to_string()),
    });
    match relay.step(text) {
        RelayAction::SendText { tunnel_id, text } => {
            assert_eq!(tunnel_id, "t");
            assert_eq!(text, "ls");
        }
        other => panic!("unexpected action {other:?}"),
    }
}

#[test]
fn http_relay_plans_url_method_and_body() {
    let request = HttpRelayRequest {
        target_base_url: Some("  ".to_string()),
        method: None,
        path: Some("/api/health".to_string()),
        headers: vec![("accept".to_string(), "application/json".to_string())],
        has_json: false,
        body_base64: Some("aGVsbG8=".to_string()),
    };
    let plan = plan_http_relay("http://127.0.0.1:9191/", request).unwrap();
    assert_eq!(plan.url, "http://127.0.0.1:9191/api/health");
    assert_eq!(plan.method, "GET");
    assert_eq!(plan.headers, vec![("accept".to_string(), "application/json".to_string())]);
    assert!(matches!(plan.body, RelayBody::Bytes(ref b) if b == b"hello"));

    let json = HttpRelayRequest {
        target_base_url: Some("http://localhost:3000".to_string()),
        method: Some("POST".to_string()),
        path: None,
        headers: vec![],
        has_json: true,
        body_base64: Some("!!".to_string()),
    };
    let plan = plan_http_relay(OPCODE, json).unwrap();
    assert_eq!(plan.url, "http://localhost:3000/");
    assert_eq!(plan.method, "POST");
    assert!(matches!(plan.body, RelayBody::Json));

    let broken = HttpRelayRequest {
        target_base_url: None,
        method: None,
        path: None,
        headers: vec![],
        has_json: false,
        body_base64: Some("!!".to_string()),
    };
    let failure = plan_http_relay(OPCODE, broken).unwrap_err();
    assert_eq!(failure.status_code, 400);
    assert!(!failure.message.is_empty());
}

#[test]
fn relay_connect_url_carries_token_and_device() {
    assert_eq!(
        relay_connect_url("https://api.d1v.ai", "tok en", "dev-1").unwrap(),
        "wss://api.d1v.ai/api/agent/connect?token=tok+en&device_id=dev-1"
    );
    assert_eq!(
        relay_connect_url("http://localhost:8000/base", "t", "d").unwrap(),
        "ws://localhost:8000/api/agent/connect?token=t&device_id=d"
    );
    assert!(relay_connect_url("not a url", "t", "d").is_err());
}

#[test]
fn http_relay_response_keeps_text_headers_and_rewrites_json_body() {
    let headers = vec![
        ("content-type".to_string(), b"application/json".to_vec()),
        ("x-binary".to_string(), vec![0x66, 0xff]),
        ("set-cookie".to_string(), b"a=1".to_vec()),
        ("x-tab".to_string(), b"a\tb".to_vec()),
        ("set-cookie".to_string(), b"b=2".to_vec()),
    ];
    let body = br#"{"b":1, "a":[true,null]}"#;
    let text = http_relay_response("\"req-1\"", 200, Some("OK"), &headers, body);
    assert_eq!(
        text,
        concat_parts(&[
            r#"{"body":{"a":[true,null],"b":1},"#,
            r#""body_base64":"eyJiIjoxLCAiYSI6W3RydWUsbnVsbF19","#,
            r#""headers":{"content-type":"application/json","set-cookie":"b=2","x-tab":"a\tb"},"#,
            r#""message":"OK","request_id":"req-1","status_code":200,"type":"response"}"#,
        ])
    );
}

#[test]
fn http_relay_response_body_null_when_empty_or_not_json() {
    let empty = http_relay_response("null", 204, None, &vec![], b"");
    assert_eq!(
        empty,
        r#"{"body":null,"body_base64":"","headers":{},"message":"ok","request_id":null,"status_code":204,"type":"response"}"#
    );
    let plain = http_relay_response("7", 200, Some("OK"), &vec![], b"hello");
    assert_eq!(
        plain,
        r#"{"body":null,"body_base64":"aGVsbG8=","headers":{},"message":"OK","request_id":7,"status_code":200,"type":"response"}"#
    );
}

#[test]
fn http_relay_failure_has_no_body_or_headers() {
    let text = http_relay_failure("\"req-2\"", 502, "connection \"refused\"");
    assert_eq!(
        text,
        r#"{"body":null,"body_base64":null,"headers":{},"message":"connection \"refused\"","request_id":"req-2","status_code":502,"type":"response"}"#
    );
}

fn concat_parts(parts: &[&str]) -> String {
    let mut s = String::new();
    for p in parts {
        s.push_str(p);
    }
    s
}
