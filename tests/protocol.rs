use cliffcrown::bridge::{
    BridgeEvent, BridgePhase, BridgeReply, UiDisplayInputVisibility, UiDisplayState, UiInputState,
    UiInputStateType, UiManager,
};
use cliffcrown::client::{cancel_request, ActiveClient, AuthPrompt, Client, ClientError, PromptingClient};
use cliffcrown::driver::{ClientManager, DriverAction, DriverEvent, DriverState, StateNotice};
use either::Either;
use greetd_ipc::codec::{Error as CodecError, SyncCodec};
use greetd_ipc::{AuthMessageType, ErrorType, Request, Response};

fn encode_request(r: &Request) -> Vec<u8> {
    let mut bytes = Vec::new();
    r.write_to(&mut bytes).unwrap();
    bytes
}

fn encode_response(r: &Response) -> Vec<u8> {
    let mut bytes = Vec::new();
    r.write_to(&mut bytes).unwrap();
    bytes
}

fn decode_request(bytes: &[u8]) -> Request {
    let mut slice = bytes;
    Request::read_from(&mut slice).unwrap()
}

fn decode_response(bytes: &[u8]) -> Result<Response, CodecError> {
    let mut slice = bytes;
    Response::read_from(&mut slice)
}

fn write_error() -> CodecError {
    CodecError::Io("broken pipe".to_string())
}

fn connected(id: u32) -> Client<u32> {
    match Client::new(Ok(id)) {
        Ok(c) => c,
        Err(_) => panic!("a connected transport gives a client"),
    }
}

fn active(id: u32) -> ActiveClient<u32> {
    match connected(id).create_session(Ok(())) {
        Ok(a) => a,
        Err(_) => panic!("a written request gives an active client"),
    }
}

fn prompting(id: u32, text: &str) -> PromptingClient<u32> {
    let msg = Response::AuthMessage {
        auth_message_type: AuthMessageType::Secret,
        auth_message: text.to_string(),
    };
    match active(id).next(Ok(msg)) {
        Ok(Either::Left(p)) => p,
        _ => panic!("an auth message gives a prompting client"),
    }
}

#[test]
fn round_trip_create_session() {
    let bytes = encode_request(&Request::CreateSession { username: "alice".to_string() });
    match decode_request(&bytes) {
        Request::CreateSession { username } => assert_eq!(username, "alice"),
        other => panic!("unexpected {:?}", other),
    }
}

#[test]
fn round_trip_answer_absent_and_empty() {
    let none = encode_request(&Request::PostAuthMessageResponse { response: None });
    match decode_request(&none) {
        Request::PostAuthMessageResponse { response } => assert_eq!(response, None),
        other => panic!("unexpected {:?}", other),
    }
    let empty = encode_request(&Request::PostAuthMessageResponse { response: Some(String::new()) });
    match decode_request(&empty) {
        Request::PostAuthMessageResponse { response } => assert_eq!(response, Some(String::new())),
        other => panic!("unexpected {:?}", other),
    }
}

#[test]
fn round_trip_cancel_and_start() {
    assert!(matches!(decode_request(&encode_request(&Request::CancelSession)), Request::CancelSession));
    let start = Request::StartSession {
        cmd: vec!["sway".to_string(), "--debug".to_string()],
        env: vec!["A=1".to_string()],
    };
    match decode_request(&encode_request(&start)) {
        Request::StartSession { cmd, env } => {
            assert_eq!(cmd, vec!["sway".to_string(), "--debug".to_string()]);
            assert_eq!(env, vec!["A=1".to_string()]);
        },
        other => panic!("unexpected {:?}", other),
    }
}

#[test]
fn round_trip_responses() {
    assert!(matches!(decode_response(&encode_response(&Response::Success)), Ok(Response::Success)));
    let err = Response::Error { error_type: ErrorType::AuthError, description: "no".to_string() };
    match decode_response(&encode_response(&err)) {
        Ok(Response::Error { error_type: ErrorType::AuthError, description }) => assert_eq!(description, "no"),
        other => panic!("unexpected {:?}", other),
    }
    let msg = Response::AuthMessage { auth_message_type: AuthMessageType::Info, auth_message: "hi".to_string() };
    match decode_response(&encode_response(&msg)) {
        Ok(Response::AuthMessage { auth_message_type: AuthMessageType::Info, auth_message }) => {
            assert_eq!(auth_message, "hi")
        },
        other => panic!("unexpected {:?}", other),
    }
}

#[test]
fn missing_socket_setting_fails_first() {
    assert!(matches!(Client::<u32>::socket_path(None), Err(ClientError::MissingEnvVar)));
    assert_eq!(Client::<u32>::socket_path(Some("/run/greetd.sock".to_string())).ok(), Some("/run/greetd.sock".to_string()));
}

#[test]
fn failed_connection_is_reported() {
    match Client::<u32>::new(Err("refused".to_string())) {
        Err(ClientError::FailedSocketConnection(text)) => assert_eq!(text, "refused"),
        _ => panic!("expected a connection error"),
    }
    assert_eq!(*connected(7).stream(), 7);
}

#[test]
fn create_session_request_names_user() {
    match Client::<u32>::create_session_request("bob".to_string()) {
        Request::CreateSession { username } => assert_eq!(username, "bob"),
        other => panic!("unexpected {:?}", other),
    }
}

#[test]
fn write_failure_keeps_state() {
    match connected(3).create_session(Err(write_error())) {
        Err((ClientError::FailedSocketWrite(_), c)) => assert_eq!(*c.stream(), 3),
        _ => panic!("expected the client back"),
    }
    match prompting(4, "Password:").next(Err(write_error())) {
        Err((ClientError::FailedSocketWrite(_), p)) => {
            assert_eq!(*p.stream(), 4);
            assert!(matches!(p.prompt(), AuthPrompt::Input { prompt, secret: true } if prompt == "Password:"));
        },
        _ => panic!("expected the prompting client back"),
    }
    let successful = match active(5).next(Ok(Response::Success)) {
        Ok(Either::Right(s)) => s,
        _ => panic!("success gives a successful client"),
    };
    match successful.finish(Err(write_error())) {
        Err((ClientError::FailedSocketWrite(_), s)) => assert_eq!(*s.stream(), 5),
        _ => panic!("expected the successful client back"),
    }
}

#[test]
fn cancel_keeps_transport() {
    let (c, e) = active(9).cancel(Ok(()));
    assert_eq!(*c.stream(), 9);
    assert!(e.is_none());
    let (c, e) = prompting(10, "x").cancel(Err(write_error()));
    assert_eq!(*c.stream(), 10);
    assert!(matches!(e, Some(ClientError::FailedSocketWrite(_))));
    assert!(matches!(cancel_request(), Request::CancelSession));
}

#[test]
fn responses_are_classified() {
    let generic = Response::Error { error_type: ErrorType::Error, description: "boom".to_string() };
    match active(1).next(Ok(generic)) {
        Err((ClientError::GenericError(d), c)) => {
            assert_eq!(d, "boom");
            assert_eq!(*c.stream(), 1);
        },
        _ => panic!("expected a generic error"),
    }
    match active(2).next(Err(CodecError::Eof)) {
        Err((ClientError::FailedSocketRead(CodecError::Eof), c)) => assert_eq!(*c.stream(), 2),
        _ => panic!("expected a read error"),
    }
    let info = Response::AuthMessage { auth_message_type: AuthMessageType::Info, auth_message: "note".to_string() };
    match active(3).next(Ok(info)) {
        Ok(Either::Left(p)) => assert!(matches!(&p.prompt, AuthPrompt::Info { note } if note == "note")),
        _ => panic!("expected a prompt"),
    }
    let error = Response::AuthMessage { auth_message_type: AuthMessageType::Error, auth_message: "bad".to_string() };
    match active(3).next(Ok(error)) {
        Ok(Either::Left(p)) => assert!(matches!(&p.prompt, AuthPrompt::Error { note } if note == "bad")),
        _ => panic!("expected a prompt"),
    }
}

/// Plays one attempt: the bridge's user types `typed` in turn, the daemon
/// sends `responses` in turn (through the codec). Returns the display states
/// shown, the requests written, and the driver's result.
fn play(
    user: Option<&str>,
    typed: Vec<&str>,
    responses: Vec<Response>,
) -> (Vec<String>, Vec<Request>, Option<Result<(), ClientError>>, BridgePhase) {
    let mut shown = Vec::new();
    let mut written = Vec::new();
    let mut typed = typed.into_iter();
    let mut responses = responses.into_iter();
    let mut driver = ClientManager::new(connected(1));
    let mut bridge = UiManager::new(user.map(|u| u.to_string()), vec!["sway".to_string()]);
    let mut bridge_event = BridgeEvent::Start;
    let mut asks_in_a_row = 0;
    loop {
        let (b, update) = bridge.step(bridge_event);
        bridge = b;
        if let Some(d) = &update.display {
            shown.push(match d {
                UiDisplayState::Empty => "empty".to_string(),
                UiDisplayState::Loading => "loading".to_string(),
                UiDisplayState::Message { message, show_input } => match show_input {
                    UiDisplayInputVisibility::Shown => format!("{} [text]", message),
                    UiDisplayInputVisibility::Hidden => format!("{} [masked]", message),
                    UiDisplayInputVisibility::NoInput { show_confirm_message: true } => format!("{} [confirm]", message),
                    UiDisplayInputVisibility::NoInput { show_confirm_message: false } => message.clone(),
                },
            });
        }
        let mut driver_event = match update.reply {
            BridgeReply::Nothing => None,
            BridgeReply::Username(u) => Some(DriverEvent::Username(u)),
            BridgeReply::Answer(a) => Some(DriverEvent::Answer(a)),
            BridgeReply::Command(c) => Some(DriverEvent::Command(c)),
        };
        if driver_event.is_some() {
            asks_in_a_row = 0;
        }
        let mut notice = None;
        let mut result = None;
        while let Some(e) = driver_event.take() {
            let (d, action) = driver.step(e);
            driver = d;
            match action {
                DriverAction::Send(r) => {
                    written.push(decode_request(&encode_request(&r)));
                    driver_event = Some(DriverEvent::Sent(Ok(())));
                },
                DriverAction::Receive => {
                    let bytes = encode_response(&responses.next().unwrap());
                    driver_event = Some(DriverEvent::Received(decode_response(&bytes)));
                },
                DriverAction::Notify(n) => notice = Some(n),
                DriverAction::Done(r) => result = Some(r),
                DriverAction::Wait => panic!("the driver was out of step"),
            }
        }
        if let Some(r) = result {
            return (shown, written, Some(r), bridge.phase());
        }
        bridge_event = match (bridge.phase(), notice) {
            (_, Some(n)) => {
                asks_in_a_row += 1;
                assert!(asks_in_a_row <= 1, "two notices without a reply");
                BridgeEvent::State(n)
            },
            (BridgePhase::AwaitingStart, None) | (BridgePhase::AwaitingAcknowledgement, None) => BridgeEvent::Confirmed,
            (BridgePhase::AwaitingUsername, None) | (BridgePhase::AwaitingText, None) => {
                BridgeEvent::Text(typed.next().unwrap().to_string())
            },
            (BridgePhase::Finished, None) => return (shown, written, None, bridge.phase()),
            (p, None) => panic!("bridge stuck in {:?}", p),
        };
    }
}

#[test]
fn scenario_visible_prompt_then_success() {
    let responses = vec![
        Response::AuthMessage { auth_message_type: AuthMessageType::Visible, auth_message: "Username:".to_string() },
        Response::Success,
    ];
    let (shown, written, result, phase) = play(Some("alice"), vec!["alice"], responses);
    assert_eq!(shown, vec!["loading", "Username: [text]", "loading"]);
    assert!(matches!(result, Some(Ok(()))));
    assert_eq!(phase, BridgePhase::Finished);
    assert_eq!(written.len(), 3);
    assert!(matches!(&written[0], Request::CreateSession { username } if username == "alice"));
    assert!(matches!(&written[1], Request::PostAuthMessageResponse { response: Some(a) } if a == "alice"));
    match &written[2] {
        Request::StartSession { cmd, env } => {
            assert_eq!(cmd, &vec!["sway".to_string()]);
            assert!(env.is_empty());
        },
        other => panic!("unexpected {:?}", other),
    }
}

#[test]
fn scenario_secret_prompt_then_auth_error() {
    let responses = vec![
        Response::AuthMessage { auth_message_type: AuthMessageType::Secret, auth_message: "Password:".to_string() },
        Response::Error { error_type: ErrorType::AuthError, description: "bad credentials".to_string() },
    ];
    let (shown, written, result, _) = play(None, vec!["bob", "hunter2"], responses);
    assert_eq!(shown, vec!["Username: [text]", "loading", "Password: [masked]"]);
    assert_eq!(written.len(), 2);
    match result {
        Some(Err(ClientError::AuthError(d))) => assert_eq!(d, "bad credentials"),
        _ => panic!("expected an authentication error"),
    }
}

#[test]
fn scenario_error_prompt_needs_confirmation() {
    let responses = vec![
        Response::AuthMessage { auth_message_type: AuthMessageType::Error, auth_message: "expired".to_string() },
        Response::AuthMessage { auth_message_type: AuthMessageType::Info, auth_message: "welcome".to_string() },
        Response::Success,
    ];
    let (shown, written, result, _) = play(Some("carol"), vec![], responses);
    assert_eq!(shown, vec!["loading", "expired [confirm]", "welcome", "loading"]);
    assert!(matches!(&written[1], Request::PostAuthMessageResponse { response: None }));
    assert!(matches!(&written[2], Request::PostAuthMessageResponse { response: None }));
    assert!(matches!(result, Some(Ok(()))));
}

#[test]
fn driver_waits_for_reply() {
    let driver = ClientManager::new(connected(1));
    let (driver, a) = driver.step(DriverEvent::Username("dan".to_string()));
    assert!(matches!(a, DriverAction::Send(Request::CreateSession { .. })));
    let (driver, a) = driver.step(DriverEvent::Sent(Ok(())));
    assert!(matches!(a, DriverAction::Receive));
    let msg = Response::AuthMessage { auth_message_type: AuthMessageType::Visible, auth_message: "?".to_string() };
    let (driver, a) = driver.step(DriverEvent::Received(Ok(msg)));
    assert!(matches!(a, DriverAction::Notify(StateNotice::Prompt(AuthPrompt::Input { secret: false, .. }))));
    let (driver, a) = driver.step(DriverEvent::Received(Ok(Response::Success)));
    assert!(matches!(a, DriverAction::Wait));
    let (driver, a) = driver.step(DriverEvent::Command(vec![]));
    assert!(matches!(a, DriverAction::Wait));
    assert!(matches!(driver.state(), DriverState::AwaitingAnswer(_)));
    assert_eq!(driver.stream(), Some(&1));
    let (driver, a) = driver.step(DriverEvent::Answer(Some("x".to_string())));
    assert!(matches!(a, DriverAction::Send(Request::PostAuthMessageResponse { .. })));
    let (driver, a) = driver.step(DriverEvent::Sent(Err(write_error())));
    assert!(matches!(a, DriverAction::Done(Err(ClientError::FailedSocketWrite(_)))));
    assert_eq!(driver.stream(), None);
}

#[test]
fn bridge_ignores_notice_while_prompting() {
    let bridge = UiManager::new(Some("eve".to_string()), vec!["sh".to_string()]);
    let (bridge, u) = bridge.step(BridgeEvent::Start);
    assert_eq!(u.input, Some(UiInputStateType::Confirm));
    let (bridge, u) = bridge.step(BridgeEvent::Confirmed);
    assert!(matches!(u.reply, BridgeReply::Username(ref n) if n == "eve"));
    let prompt = AuthPrompt::Input { prompt: "Password:".to_string(), secret: true };
    let (bridge, u) = bridge.step(BridgeEvent::State(StateNotice::Prompt(prompt)));
    assert!(matches!(u.reply, BridgeReply::Nothing));
    assert_eq!(bridge.phase(), BridgePhase::AwaitingText);
    let (bridge, u) = bridge.step(BridgeEvent::State(StateNotice::Success));
    assert!(matches!(u.reply, BridgeReply::Nothing));
    assert!(u.display.is_none());
    assert_eq!(bridge.phase(), BridgePhase::AwaitingText);
    let (bridge, u) = bridge.step(BridgeEvent::Text("pw".to_string()));
    assert!(matches!(u.reply, BridgeReply::Answer(Some(ref a)) if a == "pw"));
    let (_, u) = bridge.step(BridgeEvent::State(StateNotice::Success));
    assert!(matches!(u.reply, BridgeReply::Command(ref c) if c == &vec!["sh".to_string()]));
}

#[test]
fn input_state_types() {
    assert_eq!(UiInputState::NoInput.get_type(), UiInputStateType::NoInput);
    let (tx, _rx) = tokio::sync::oneshot::channel::<()>();
    assert_eq!(UiInputState::Confirm { notifier: tx }.get_type(), UiInputStateType::Confirm);
    let (tx, _rx) = tokio::sync::oneshot::channel::<String>();
    assert_eq!(UiInputState::Text { responder: tx }.get_type(), UiInputStateType::Text);
}

#[test]
fn prompt_duplicate_is_equal() {
    let p = AuthPrompt::Input { prompt: "a".to_string(), secret: true };
    assert!(matches!(p.duplicate(), AuthPrompt::Input { prompt, secret: true } if prompt == "a"));
}
