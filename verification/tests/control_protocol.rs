use torq::control::{
    authentication_outcome, check_command_frame, command_reply_outcome,
    cookie_authenticate_command, encode_hex, eof_error, getinfo_bootstrap_phase_command,
    null_authenticate_command, parse_bootstrap_phase_reply, parse_reply_line,
    reply_line_is_sliceable, signal_newnym_command, split_control_kv_tokens, ReplyAssembler,
    ReplyProgress, TorBootstrapPhase, TorControlAuth, TorControlConfig, TorControlError,
    TorControlReply,
};

#[test]
fn parses_single_line_success_reply() {
    let parsed = parse_reply_line("250 OK\r\n").unwrap();

    assert_eq!(parsed.code, 250);
    assert_eq!(parsed.separator, ' ');
    assert_eq!(parsed.text, "OK");
}

#[test]
fn parses_error_reply_line() {
    let parsed = parse_reply_line("515 Authentication required\r\n").unwrap();

    assert_eq!(parsed.code, 515);
    assert_eq!(parsed.separator, ' ');
    assert_eq!(parsed.text, "Authentication required");
}

#[test]
fn parses_continuation_reply_line() {
    let parsed = parse_reply_line("250-version=0.4.8.12\r\n").unwrap();

    assert_eq!(parsed.code, 250);
    assert_eq!(parsed.separator, '-');
    assert_eq!(parsed.text, "version=0.4.8.12");
}

#[test]
fn reply_message_preserves_multiple_lines() {
    let reply = TorControlReply::new(
        250,
        vec!["version=0.4.8.12".to_string(), "OK".to_string()],
    );

    assert_eq!(reply.code(), 250);
    assert_eq!(reply.message(), "version=0.4.8.12\nOK");
}

#[test]
fn rejects_malformed_reply_line() {
    let error = parse_reply_line("oops\r\n").unwrap_err();

    assert!(matches!(error, TorControlError::MalformedResponse { .. }));
}

#[test]
fn parses_data_reply_marker() {
    let parsed = parse_reply_line("250+config-text\r\n").unwrap();

    assert_eq!(parsed.code, 250);
    assert_eq!(parsed.separator, '+');
    assert_eq!(parsed.text, "config-text");
}

#[test]
fn parses_bootstrap_phase_reply() {
    let phase = parse_bootstrap_phase_reply(&TorControlReply::new(
        250,
        vec![
            "status/bootstrap-phase=NOTICE BOOTSTRAP PROGRESS=73 TAG=loading_descriptors SUMMARY=\"Loading relay descriptors\"".to_string(),
            "OK".to_string(),
        ],
    ))
    .unwrap();

    assert_eq!(
        phase,
        TorBootstrapPhase::new(
            73,
            Some("loading_descriptors".to_string()),
            Some("Loading relay descriptors".to_string()),
        )
    );
}

#[test]
fn rejects_bootstrap_phase_reply_without_progress() {
    let error = parse_bootstrap_phase_reply(&TorControlReply::new(
        250,
        vec![
            "status/bootstrap-phase=NOTICE BOOTSTRAP TAG=loading_descriptors".to_string(),
            "OK".to_string(),
        ],
    ))
    .unwrap_err();

    assert!(matches!(error, TorControlError::MalformedResponse { .. }));
}

#[test]
fn rejects_bootstrap_phase_reply_with_out_of_range_progress() {
    let error = parse_bootstrap_phase_reply(&TorControlReply::new(
        250,
        vec![
            "status/bootstrap-phase=NOTICE BOOTSTRAP PROGRESS=101".to_string(),
            "OK".to_string(),
        ],
    ))
    .unwrap_err();

    assert!(matches!(error, TorControlError::MalformedResponse { .. }));
}

#[test]
fn splits_control_reply_tokens_with_quoted_summary() {
    let tokens = split_control_kv_tokens(
        "NOTICE BOOTSTRAP PROGRESS=20 TAG=conn_done SUMMARY=\"Connected to a relay \\\"alpha\\\"\"",
    )
    .unwrap();

    assert_eq!(
        tokens,
        vec![
            "NOTICE",
            "BOOTSTRAP",
            "PROGRESS=20",
            "TAG=conn_done",
            "SUMMARY=Connected to a relay \"alpha\"",
        ]
    );
}

fn malformed_message(error: TorControlError) -> String {
    match error {
        TorControlError::MalformedResponse { message } => message,
        other => panic!("expected a malformed response, got {other:?}"),
    }
}

#[test]
fn reply_line_errors_quote_the_line() {
    assert_eq!(
        malformed_message(parse_reply_line("oops\r\n").unwrap_err()),
        "reply line does not start with a numeric code: \"oops\""
    );
    assert_eq!(
        malformed_message(parse_reply_line("25\r\n").unwrap_err()),
        "reply line is too short: \"25\""
    );
    assert_eq!(
        malformed_message(parse_reply_line("250?x").unwrap_err()),
        "unsupported reply separator '?' in \"250?x\""
    );
    assert_eq!(
        malformed_message(parse_reply_line("2\"0 x").unwrap_err()),
        "reply line does not start with a numeric code: \"2\\\"0 x\""
    );
}

#[test]
fn reply_line_sliceability() {
    assert!(reply_line_is_sliceable("250 OK\r\n"));
    assert!(reply_line_is_sliceable("é\r\n"));
    assert!(reply_line_is_sliceable("2é0 OK"));
    assert!(!reply_line_is_sliceable("2€0 OK"));
}

#[test]
fn assembler_reads_single_and_multi_line_replies() {
    let mut single = ReplyAssembler::new();
    match single.feed("250 OK\r\n") {
        ReplyProgress::Complete(reply) => {
            assert_eq!(reply.code(), 250);
            assert_eq!(reply.lines(), &["OK".to_string()]);
        }
        other => panic!("unexpected {other:?}"),
    }

    let mut multi = ReplyAssembler::new();
    assert!(matches!(multi.feed("250-version=1\r\n"), ReplyProgress::NeedMore));
    assert!(matches!(multi.feed("250-extra\r\n"), ReplyProgress::NeedMore));
    match multi.feed("250 OK\r\n") {
        ReplyProgress::Complete(reply) => {
            assert_eq!(reply.message(), "version=1\nextra\nOK");
        }
        other => panic!("unexpected {other:?}"),
    }
}

#[test]
fn assembler_refuses_code_changes_and_data_replies() {
    let mut changed = ReplyAssembler::new();
    assert!(matches!(changed.feed("250-a\r\n"), ReplyProgress::NeedMore));
    match changed.feed("251 b\r\n") {
        ReplyProgress::Failed(error) => assert_eq!(
            malformed_message(error),
            "expected reply code 250 in continuation, got 251"
        ),
        other => panic!("unexpected {other:?}"),
    }

    let mut data = ReplyAssembler::new();
    match data.feed("250+config\r\n") {
        ReplyProgress::Failed(error) => assert_eq!(
            malformed_message(error),
            "ControlPort data replies are not supported by this foundation layer"
        ),
        other => panic!("unexpected {other:?}"),
    }
}

#[test]
fn command_frames_must_be_single_lines() {
    assert!(check_command_frame(signal_newnym_command()).is_ok());
    assert_eq!(
        malformed_message(check_command_frame("GETINFO a\r\nQUIT").unwrap_err()),
        "commands must be single-line ControlPort frames"
    );
    assert_eq!(signal_newnym_command(), "SIGNAL NEWNYM");
    assert_eq!(getinfo_bootstrap_phase_command(), "GETINFO status/bootstrap-phase");
}

#[test]
fn command_failures_carry_code_and_message() {
    let ok = command_reply_outcome(TorControlReply::new(250, vec!["OK".to_string()])).unwrap();
    assert_eq!(ok.code(), 250);
    let error = command_reply_outcome(TorControlReply::new(
        552,
        vec!["Unrecognized signal".to_string()],
    ))
    .unwrap_err();
    assert_eq!(
        error,
        TorControlError::CommandFailed {
            code: 552,
            message: "Unrecognized signal".to_string(),
        }
    );
    assert_eq!(
        error.message(),
        "Tor ControlPort command failed with code 552: Unrecognized signal"
    );
}

#[test]
fn failed_authentication_is_reported_as_such() {
    let refused = authentication_outcome(Err(TorControlError::CommandFailed {
        code: 515,
        message: "Bad authentication".to_string(),
    }));
    assert_eq!(
        refused,
        Err(TorControlError::AuthenticationFailed {
            code: 515,
            message: "Bad authentication".to_string(),
        })
    );
    assert_eq!(
        refused.unwrap_err().message(),
        "control port authentication failed with Tor code 515: Bad authentication"
    );
    assert_eq!(authentication_outcome(Err(eof_error())), Err(eof_error()));
    assert!(authentication_outcome(Ok(TorControlReply::new(250, vec!["OK".to_string()]))).is_ok());
}

#[test]
fn authenticate_commands() {
    assert_eq!(null_authenticate_command(), "AUTHENTICATE");
    let cookie: Vec<u8> = (0u8..32).collect();
    assert_eq!(
        cookie_authenticate_command("/var/lib/tor/control_auth_cookie", &cookie).unwrap(),
        "AUTHENTICATE 000102030405060708090A0B0C0D0E0F101112131415161718191A1B1C1D1E1F"
    );
    let error = cookie_authenticate_command("/tmp/cookie", &[1, 2, 3]).unwrap_err();
    assert_eq!(error.message(), "ControlPort cookie at /tmp/cookie must be exactly 32 bytes");
}

#[test]
fn hex_encoding_is_upper_case() {
    assert_eq!(encode_hex(&[0x00, 0xab, 0xff, 0x10]), "00ABFF10");
    assert_eq!(encode_hex(&[]), "");
}

#[test]
fn token_splitting_errors() {
    assert_eq!(
        malformed_message(split_control_kv_tokens("A=\"open").unwrap_err()),
        "unterminated quote in control reply"
    );
    assert_eq!(
        malformed_message(split_control_kv_tokens("A=x\\").unwrap_err()),
        "dangling escape in control reply"
    );
    assert_eq!(
        split_control_kv_tokens(" a\t\tb  ").unwrap(),
        vec!["a".to_string(), "b".to_string()]
    );
}

#[test]
fn bootstrap_phase_reply_errors() {
    let missing = parse_bootstrap_phase_reply(&TorControlReply::new(250, vec!["OK".to_string()]))
        .unwrap_err();
    assert_eq!(
        malformed_message(missing),
        "missing status/bootstrap-phase line in GETINFO reply"
    );
    let bad = parse_bootstrap_phase_reply(&TorControlReply::new(
        250,
        vec!["status/bootstrap-phase=NOTICE BOOTSTRAP progress=abc".to_string()],
    ))
    .unwrap_err();
    assert_eq!(
        malformed_message(bad),
        "invalid bootstrap progress value: \"abc\""
    );
    let high = parse_bootstrap_phase_reply(&TorControlReply::new(
        250,
        vec!["status/bootstrap-phase=NOTICE BOOTSTRAP PROGRESS=200".to_string()],
    ))
    .unwrap_err();
    assert_eq!(malformed_message(high), "bootstrap progress out of range: 200");
}

#[test]
fn control_error_messages() {
    assert_eq!(
        TorControlError::MissingConfig.message(),
        "Tor ControlPort is not configured in TorRuntimeConfig"
    );
    assert_eq!(
        TorControlError::Connect {
            host: "127.0.0.1".to_string(),
            port: 9051,
            source: "connection refused".to_string(),
        }
        .message(),
        "failed to connect to Tor ControlPort at 127.0.0.1:9051: connection refused"
    );
    assert_eq!(
        TorControlError::Io("broken pipe".to_string()).message(),
        "ControlPort I/O error: broken pipe"
    );
    assert_eq!(
        eof_error().message(),
        "malformed ControlPort response: unexpected EOF while reading ControlPort response"
    );
}

#[test]
fn localhost_config() {
    let config = TorControlConfig::localhost(9051, TorControlAuth::Null);
    assert_eq!(config.host, "127.0.0.1");
    assert_eq!(config.port, 9051);
    assert_eq!(config.auth, TorControlAuth::Null);
}
