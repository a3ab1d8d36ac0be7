use d1v_cli::shell::{exec_outcome, exec_project_id, ExecOutcome, ExecResult};
use d1v_cli::output::Format;
use d1v_cli::shell::protocol::{
    decode_output, decode_server_binary, encode_control, encode_input, ClientControl,
    ProtocolError, ServerBinaryChannel, ServerControl, Signal, INPUT_CHANNEL,
    MAX_BINARY_PAYLOAD_BYTES,
};
use d1v_cli::shell::{
    normalize_terminal_size, validate_exec, validate_interactive, ExecArgs, OutFrame, ShellAction,
    ShellArgs, ShellError, ShellEvent, ShellSession,
};

#[test]
fn rejects_organization_with_project() {
    let args = ShellArgs {
        project_id: Some("project_1".into()),
        workspace: false,
        organization_id: Some(42),
    };
    assert!(validate_interactive(&args, Format::Text, true, true).is_err());
}

#[test]
fn rejects_json_before_tty_check() {
    let args = ShellArgs {
        project_id: None,
        workspace: false,
        organization_id: None,
    };
    assert_eq!(
        validate_interactive(&args, Format::Json, false, false).unwrap_err(),
        ShellError::JsonOutput
    );
    assert_eq!(
        validate_interactive(&args, Format::Text, false, true).unwrap_err(),
        ShellError::NotATerminal
    );
    assert!(validate_interactive(&args, Format::Text, true, true).is_ok());
}

#[test]
fn clamps_terminal_size_to_api_contract() {
    assert_eq!(normalize_terminal_size((0, 1)), (20, 5));
    assert_eq!(normalize_terminal_size((120, 40)), (120, 40));
    assert_eq!(normalize_terminal_size((u16::MAX, u16::MAX)), (500, 200));
}

#[test]
fn validates_exec_scope_and_argument_limits() {
    let conflicting_scope = ExecArgs {
        project_id: Some("project_1".into()),
        workspace: false,
        organization_id: Some(42),
        command: vec!["true".into()],
    };
    assert!(validate_exec(&conflicting_scope).is_err());

    let empty_argument = ExecArgs {
        project_id: None,
        workspace: false,
        organization_id: None,
        command: vec![String::new()],
    };
    assert!(validate_exec(&empty_argument).is_err());

    let too_many_arguments = ExecArgs {
        project_id: None,
        workspace: false,
        organization_id: None,
        command: vec!["x".into(); 129],
    };
    assert!(validate_exec(&too_many_arguments).is_err());
}

#[test]
fn exec_argument_errors_are_exact() {
    let base = |command: Vec<String>| ExecArgs {
        project_id: None,
        workspace: true,
        organization_id: Some(7),
        command,
    };
    assert!(validate_exec(&base(vec!["ls".into(), "-la".into()])).is_ok());
    assert_eq!(validate_exec(&base(vec![])).unwrap_err(), ShellError::MissingCommand);
    assert_eq!(
        validate_exec(&base(vec!["a\0b".into()])).unwrap_err(),
        ShellError::InvalidArgument
    );
    assert_eq!(
        validate_exec(&base(vec!["y".repeat(4097)])).unwrap_err(),
        ShellError::InvalidArgument
    );
    assert_eq!(
        validate_exec(&base(vec!["z".repeat(4096); 9])).unwrap_err(),
        ShellError::ArgumentLimit
    );
    assert_eq!(
        ShellError::MissingCommand.message(),
        "exec command is required after --"
    );
}

#[test]
fn encodes_open_and_binary_input() {
    assert_eq!(
        encode_control(&ClientControl::open(120, 40)).unwrap(),
        r#"{"type":"open","version":1,"cols":120,"rows":40,"term":"xterm-256color"}"#
    );
    assert_eq!(encode_input(b"ls\t").unwrap(), b"\x00ls\t");
}

#[test]
fn encodes_other_controls() {
    assert_eq!(
        encode_control(&ClientControl::Resize { cols: 80, rows: 24 }).unwrap(),
        r#"{"type":"resize","cols":80,"rows":24}"#
    );
    assert_eq!(
        encode_control(&ClientControl::Signal { signal: Signal::Interrupt }).unwrap(),
        r#"{"type":"signal","signal":"SIGINT"}"#
    );
    assert_eq!(
        encode_control(&ClientControl::Ping { timestamp: -3 }).unwrap(),
        r#"{"type":"ping","timestamp":-3}"#
    );
    assert_eq!(encode_control(&ClientControl::Detach).unwrap(), r#"{"type":"detach"}"#);
}

#[test]
fn decodes_output_and_server_controls() {
    assert_eq!(decode_output(b"\x01hello").unwrap(), b"hello");
    assert_eq!(
        decode_server_binary(b"\x02problem").unwrap(),
        (ServerBinaryChannel::Stderr, b"problem".as_slice())
    );
}

#[test]
fn rejects_invalid_binary_frames() {
    assert_eq!(
        decode_output(b"").unwrap_err(),
        ProtocolError::EmptyBinaryFrame
    );
    assert_eq!(
        decode_output(b"\x00input").unwrap_err(),
        ProtocolError::UnsupportedBinaryChannel(INPUT_CHANNEL)
    );
    assert_eq!(
        encode_input(&vec![0; MAX_BINARY_PAYLOAD_BYTES + 1]).unwrap_err(),
        ProtocolError::BinaryPayloadTooLarge
    );
}

#[test]
fn protocol_error_messages() {
    assert_eq!(
        ProtocolError::UnsupportedBinaryChannel(2).message(),
        "unsupported terminal binary channel 2"
    );
    assert_eq!(
        ProtocolError::BinaryPayloadTooLarge.message(),
        "terminal binary payload exceeds 65536 bytes"
    );
}

#[test]
fn terminal_session_relays_and_heartbeats() {
    let mut s = ShellSession::new_terminal(80, 24);
    assert_eq!(
        s.open_frame(),
        r#"{"type":"open","version":1,"cols":80,"rows":24,"term":"xterm-256color"}"#
    );
    match s.step(ShellEvent::Input(b"echo ready\n".to_vec())) {
        ShellAction::Send(frames) => {
            assert_eq!(frames, vec![OutFrame::Binary(b"\x00echo ready\n".to_vec())]);
        }
        other => panic!("unexpected {other:?}"),
    }
    assert_eq!(
        s.step(ShellEvent::Binary(b"\x01ready\r\n".to_vec())),
        ShellAction::WriteStdout(b"ready\r\n".to_vec())
    );
    assert_eq!(
        s.step(ShellEvent::HeartbeatTick),
        ShellAction::Send(vec![OutFrame::Text(r#"{"type":"ping","timestamp":1}"#.to_string())])
    );
    assert_eq!(
        s.step(ShellEvent::Control(ServerControl::Pong { timestamp: 1 })),
        ShellAction::Continue
    );
    assert!(matches!(s.step(ShellEvent::HeartbeatTick), ShellAction::Send(_)));
    assert_eq!(
        s.step(ShellEvent::HeartbeatTick),
        ShellAction::Fail(ShellError::HeartbeatTimeout { is_exec: false })
    );
    assert_eq!(
        s.step(ShellEvent::ResizeTick(100, 30)),
        ShellAction::Send(vec![OutFrame::Text(r#"{"type":"resize","cols":100,"rows":30}"#.to_string())])
    );
    assert_eq!(s.step(ShellEvent::ResizeTick(100, 30)), ShellAction::Continue);
    assert_eq!(
        s.step(ShellEvent::Control(ServerControl::Exit { code: Some(7), signal: None })),
        ShellAction::Exit(7)
    );
    assert_eq!(
        s.step(ShellEvent::Input(Vec::new())),
        ShellAction::Detach(r#"{"type":"detach"}"#.to_string())
    );
}

#[test]
fn large_input_is_split_into_frames() {
    let mut s = ShellSession::new_terminal(80, 24);
    let data = vec![7u8; MAX_BINARY_PAYLOAD_BYTES + 10];
    match s.step(ShellEvent::Input(data)) {
        ShellAction::Send(frames) => {
            assert_eq!(frames.len(), 2);
            match (&frames[0], &frames[1]) {
                (OutFrame::Binary(a), OutFrame::Binary(b)) => {
                    assert_eq!(a.len(), MAX_BINARY_PAYLOAD_BYTES + 1);
                    assert_eq!(b.len(), 11);
                    assert_eq!(b[0], 0);
                }
                _ => panic!("expected binary frames"),
            }
        }
        other => panic!("unexpected {other:?}"),
    }
}

#[test]
fn captures_exec_channels_and_nonzero_exit() {
    let mut s = ShellSession::new_exec(true);
    assert_eq!(s.step(ShellEvent::Binary(b"\x01command output\n".to_vec())), ShellAction::Continue);
    assert_eq!(s.step(ShellEvent::Binary(b"\x02command error\n".to_vec())), ShellAction::Continue);
    assert_eq!(
        s.step(ShellEvent::Control(ServerControl::Exit { code: Some(23), signal: None })),
        ShellAction::Exit(23)
    );
    assert_eq!(s.stdout, b"command output\n".to_vec());
    assert_eq!(s.stderr, b"command error\n".to_vec());
    assert_eq!(
        s.step(ShellEvent::Control(ServerControl::Error { code: "denied".into(), retryable: true })),
        ShellAction::Fail(ShellError::Server {
            is_exec: true,
            code: "denied".into(),
            retryable: true
        })
    );
    assert_eq!(
        ShellError::Server { is_exec: true, code: "denied".into(), retryable: true }.message(),
        "exec server error: denied (retryable)"
    );
    let mut plain = ShellSession::new_exec(false);
    assert_eq!(
        plain.step(ShellEvent::Binary(b"\x02oops".to_vec())),
        ShellAction::WriteStderr(b"oops".to_vec())
    );
    assert_eq!(
        plain.step(ShellEvent::Ping(b"p".to_vec())),
        ShellAction::Send(vec![OutFrame::Pong(b"p".to_vec())])
    );
    assert_eq!(
        plain.step(ShellEvent::Control(ServerControl::Exit { code: None, signal: None })),
        ShellAction::Exit(1)
    );
}

fn exec_args(project: Option<&str>, workspace: bool) -> ExecArgs {
    ExecArgs {
        project_id: project.map(|s| s.to_string()),
        workspace,
        organization_id: None,
        command: vec!["ls".to_string()],
    }
}

#[test]
fn exec_project_resolution() {
    let s = |x: &str| Some(x.to_string());
    assert_eq!(exec_project_id(&exec_args(Some("p"), false), s("e"), s("v")), s("p"));
    assert_eq!(exec_project_id(&exec_args(None, true), s("e"), s("v")), None);
    assert_eq!(exec_project_id(&exec_args(None, false), s("e"), s("v")), s("e"));
    assert_eq!(exec_project_id(&exec_args(None, false), None, s("v")), s("v"));
    assert_eq!(exec_project_id(&exec_args(None, false), None, s("  ")), None);
    assert_eq!(exec_project_id(&exec_args(None, false), None, None), None);
}

#[test]
fn exec_result_json_fields_in_order() {
    let r = ExecResult {
        session_id: "sh_exec".to_string(),
        project_id: Some("project_1".to_string()),
        cwd: "/workspace-root/project_1".to_string(),
        exit_code: 23,
        stdout: "command output\n".to_string(),
        stderr: "command error\n".to_string(),
    };
    let v: serde_json::Value = serde_json::from_str(&r.to_json()).unwrap();
    assert_eq!(v["session_id"], "sh_exec");
    assert_eq!(v["project_id"], "project_1");
    assert_eq!(v["cwd"], "/workspace-root/project_1");
    assert_eq!(v["exit_code"], 23);
    assert_eq!(v["stdout"], "command output\n");
    assert_eq!(v["stderr"], "command error\n");
    let w = ExecResult { project_id: None, exit_code: -1, ..r };
    assert!(w.to_json().contains("\"project_id\": null,\n  \"cwd\""));
    assert!(w.to_json().contains("\"exit_code\": -1,"));
}

#[test]
fn exec_outcomes() {
    assert_eq!(exec_outcome(0, true), ExecOutcome::Success);
    assert_eq!(exec_outcome(0, false), ExecOutcome::CloseFailed);
    assert_eq!(exec_outcome(7, false), ExecOutcome::RemoteExit(7));
    assert_eq!(exec_outcome(-2, true), ExecOutcome::RemoteExit(-2));
}
