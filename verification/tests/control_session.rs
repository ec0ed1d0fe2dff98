use torq::control::{TorControlError, TorControlReply};
use torq::control_session::{ControlSession, Goal, SessionEffect, SessionInput};

fn ok_reply() -> TorControlReply {
    TorControlReply::new(250, vec!["OK".to_string()])
}

fn expect_exchange(effect: Option<SessionEffect>) -> String {
    match effect {
        Some(SessionEffect::Exchange(frame)) => frame,
        other => panic!("expected an exchange, got {other:?}"),
    }
}

#[test]
fn first_command_connects_and_authenticates() {
    let mut session = ControlSession::new();
    assert!(matches!(
        session.begin(Goal::Command("SIGNAL NEWNYM".to_string())),
        SessionEffect::Open
    ));
    assert!(matches!(
        session.on_input(SessionInput::Opened(Ok(()))),
        Some(SessionEffect::PrepareAuth)
    ));
    let auth = expect_exchange(session.on_input(SessionInput::AuthPrepared(Ok(
        "AUTHENTICATE".to_string()
    ))));
    assert_eq!(auth, "AUTHENTICATE");
    let command = expect_exchange(session.on_input(SessionInput::Exchanged(Ok(ok_reply()))));
    assert_eq!(command, "SIGNAL NEWNYM");
    assert!(session.is_authenticated());
    match session.on_input(SessionInput::Exchanged(Ok(ok_reply()))) {
        Some(SessionEffect::Finish(Ok(Some(reply)))) => assert_eq!(reply.code(), 250),
        other => panic!("unexpected {other:?}"),
    }
    assert!(session.is_ready());

    // The next command goes straight out.
    let again = session.begin(Goal::Command("GETINFO version".to_string()));
    assert!(matches!(again, SessionEffect::Exchange(ref f) if f == "GETINFO version"));
}

#[test]
fn failed_authentication_drops_the_connection() {
    let mut session = ControlSession::new();
    session.begin(Goal::Connect);
    session.on_input(SessionInput::Opened(Ok(())));
    session.on_input(SessionInput::AuthPrepared(Ok("AUTHENTICATE".to_string())));
    match session.on_input(SessionInput::Exchanged(Ok(TorControlReply::new(
        515,
        vec!["Authentication failed".to_string()],
    )))) {
        Some(SessionEffect::Finish(Err(error))) => assert_eq!(
            error,
            TorControlError::AuthenticationFailed {
                code: 515,
                message: "Authentication failed".to_string(),
            }
        ),
        other => panic!("unexpected {other:?}"),
    }
    assert!(!session.is_connected());
    assert!(!session.is_authenticated());
    assert!(matches!(session.begin(Goal::Connect), SessionEffect::Open));
}

#[test]
fn authenticate_only_keeps_the_connection_on_failure() {
    let mut session = ControlSession::new();
    session.begin(Goal::Authenticate);
    session.on_input(SessionInput::Opened(Ok(())));
    let result = session.on_input(SessionInput::AuthPrepared(Err(
        TorControlError::InvalidCookieLength {
            path: "cookie".to_string(),
        },
    )));
    assert!(matches!(
        result,
        Some(SessionEffect::Finish(Err(TorControlError::InvalidCookieLength { .. })))
    ));
    assert!(session.is_connected());
    assert!(!session.is_authenticated());
}

#[test]
fn command_failures_and_frames() {
    let mut session = ControlSession::new();
    session.begin(Goal::Connect);
    session.on_input(SessionInput::Opened(Ok(())));
    session.on_input(SessionInput::AuthPrepared(Ok("AUTHENTICATE".to_string())));
    assert!(matches!(
        session.on_input(SessionInput::Exchanged(Ok(ok_reply()))),
        Some(SessionEffect::Finish(Ok(None)))
    ));

    match session.begin(Goal::Command("GETINFO a\r\nQUIT".to_string())) {
        SessionEffect::Finish(Err(TorControlError::MalformedResponse { message })) => {
            assert_eq!(message, "commands must be single-line ControlPort frames")
        }
        other => panic!("unexpected {other:?}"),
    }

    session.begin(Goal::Command("SIGNAL BOGUS".to_string()));
    match session.on_input(SessionInput::Exchanged(Ok(TorControlReply::new(
        552,
        vec!["Unrecognized signal code \"BOGUS\"".to_string()],
    )))) {
        Some(SessionEffect::Finish(Err(TorControlError::CommandFailed { code, .. }))) => {
            assert_eq!(code, 552)
        }
        other => panic!("unexpected {other:?}"),
    }
    // A failed command keeps the authenticated connection.
    assert!(session.is_authenticated());
}

#[test]
fn open_failure_and_unexpected_input() {
    let mut session = ControlSession::new();
    session.begin(Goal::Command("SIGNAL NEWNYM".to_string()));
    let refused = TorControlError::Connect {
        host: "127.0.0.1".to_string(),
        port: 9051,
        source: "refused".to_string(),
    };
    match session.on_input(SessionInput::Opened(Err(refused.clone()))) {
        Some(SessionEffect::Finish(Err(error))) => assert_eq!(error, refused),
        other => panic!("unexpected {other:?}"),
    }
    assert!(session.is_ready());
    assert!(session.on_input(SessionInput::Opened(Ok(()))).is_none());
    assert!(!session.is_connected());
}
