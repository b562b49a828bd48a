//! The session driver: runs one login attempt over the connection states.
//!
//! The driver decides, the caller acts. Each `step` takes the event that the
//! last action brought about and returns the next action: a request to
//! write, a response to read, a notice for the interaction side (which
//! answers with an `Answer` or a `Command` event), or the attempt's result.
use vstd::prelude::*;
use either::Either;
use greetd_ipc::codec::Error as CodecError;
use greetd_ipc::{Request, Response};
use crate::client::{
    daemon_error_of, prompt_of, ActiveClient, AuthPrompt, Client, ClientError, PromptingClient,
    SuccessfulClient,
};

verus! {

/// Where the attempt stands.
pub enum DriverState<S> {
    /// Waiting for the username from the interaction side.
    AwaitingUsername(Client<S>),
    /// The session request is being written.
    Creating(Client<S>),
    /// Waiting for the daemon's next response.
    AwaitingResponse(ActiveClient<S>),
    /// The prompt was handed over; waiting for its answer.
    AwaitingAnswer(PromptingClient<S>),
    /// The answer is being written.
    Answering(PromptingClient<S>),
    /// Success was handed over; waiting for the command to start.
    AwaitingCommand(SuccessfulClient<S>),
    /// The start request is being written.
    Starting(SuccessfulClient<S>),
    /// The attempt is over.
    Finished,
}

/// What happened since the last action.
pub enum DriverEvent {
    Username(String),
    Sent(Result<(), CodecError>),
    Received(Result<Response, CodecError>),
    Answer(Option<String>),
    Command(Vec<String>),
}

/// What the interaction side is told.
pub enum StateNotice {
    Prompt(AuthPrompt),
    Success,
}

/// What the caller does next.
pub enum DriverAction {
    /// Write this request on the transport, then report `Sent`.
    Send(Request),
    /// Read one response from the transport, then report `Received`.
    Receive,
    /// Hand this to the interaction side, then report its reply.
    Notify(StateNotice),
    /// The attempt ended with this result.
    Done(Result<(), ClientError>),
    /// The event did not fit the state: nothing to do.
    Wait,
}

/// The transport that a state owns, if any.
pub open spec fn transport_of<S>(s: DriverState<S>) -> Option<S> {
    match s {
        DriverState::AwaitingUsername(c) => Some(c.transport()),
        DriverState::Creating(c) => Some(c.transport()),
        DriverState::AwaitingResponse(c) => Some(c.transport()),
        DriverState::AwaitingAnswer(c) => Some(c.transport()),
        DriverState::Answering(c) => Some(c.transport()),
        DriverState::AwaitingCommand(c) => Some(c.transport()),
        DriverState::Starting(c) => Some(c.transport()),
        DriverState::Finished => None,
    }
}

/// One step of the driver: in state `s`, event `e` leads to state `t` and
/// action `a`. An event that the state does not wait for changes nothing.
pub open spec fn steps<S>(s: DriverState<S>, e: DriverEvent, t: DriverState<S>, a: DriverAction) -> bool {
    match (s, e) {
        (DriverState::AwaitingUsername(c), DriverEvent::Username(u)) => t == DriverState::Creating(c)
            && a == DriverAction::Send(Request::CreateSession { username: u }),
        (DriverState::Creating(c), DriverEvent::Sent(Ok(()))) => a == DriverAction::Receive && match t {
            DriverState::AwaitingResponse(n) => n.transport() == c.transport(),
            _ => false,
        },
        (DriverState::Creating(c), DriverEvent::Sent(Err(x))) => t == DriverState::<S>::Finished
            && a == DriverAction::Done(Err(ClientError::FailedSocketWrite(x))),
        (DriverState::AwaitingResponse(c), DriverEvent::Received(Err(x))) => t == DriverState::<S>::Finished
            && a == DriverAction::Done(Err(ClientError::FailedSocketRead(x))),
        (DriverState::AwaitingResponse(c), DriverEvent::Received(Ok(Response::Success))) => a
            == DriverAction::Notify(StateNotice::Success) && match t {
            DriverState::AwaitingCommand(n) => n.transport() == c.transport(),
            _ => false,
        },
        (
            DriverState::AwaitingResponse(c),
            DriverEvent::Received(Ok(Response::Error { error_type, description })),
        ) => t == DriverState::<S>::Finished && a == DriverAction::Done(
            Err(daemon_error_of(error_type, description)),
        ),
        (
            DriverState::AwaitingResponse(c),
            DriverEvent::Received(Ok(Response::AuthMessage { auth_message_type, auth_message })),
        ) => a == DriverAction::Notify(StateNotice::Prompt(prompt_of(auth_message_type, auth_message)))
            && match t {
            DriverState::AwaitingAnswer(n) => n.transport() == c.transport() && n.asked() == prompt_of(
                auth_message_type,
                auth_message,
            ),
            _ => false,
        },
        (DriverState::AwaitingAnswer(p), DriverEvent::Answer(answer)) => t == DriverState::Answering(p)
            && a == DriverAction::Send(Request::PostAuthMessageResponse { response: answer }),
        (DriverState::Answering(p), DriverEvent::Sent(Ok(()))) => a == DriverAction::Receive && match t {
            DriverState::AwaitingResponse(n) => n.transport() == p.transport(),
            _ => false,
        },
        (DriverState::Answering(p), DriverEvent::Sent(Err(x))) => t == DriverState::<S>::Finished
            && a == DriverAction::Done(Err(ClientError::FailedSocketWrite(x))),
        (DriverState::AwaitingCommand(c), DriverEvent::Command(command)) => t == DriverState::Starting(c)
            && match a {
            DriverAction::Send(Request::StartSession { cmd, env }) => cmd == command && env@.len() == 0,
            _ => false,
        },
        (DriverState::Starting(c), DriverEvent::Sent(Ok(()))) => t == DriverState::<S>::Finished
            && a == DriverAction::Done(Ok(())),
        (DriverState::Starting(c), DriverEvent::Sent(Err(x))) => t == DriverState::<S>::Finished
            && a == DriverAction::Done(Err(ClientError::FailedSocketWrite(x))),
        _ => t == s && a == DriverAction::Wait,
    }
}

/// A notice reaches the interaction side only when one response has been read
/// while waiting for it; that waiting state is left on that one read, and is
/// entered only once a request (the session request or an answer) has been
/// written.
pub proof fn lemma_one_response_per_notice<S>(s: DriverState<S>, e: DriverEvent, t: DriverState<S>, a: DriverAction)
    requires
        steps(s, e, t, a),
    ensures
        a is Notify ==> s is AwaitingResponse && e is Received,
        s is AwaitingResponse && e is Received ==> !(t is AwaitingResponse),
        t is AwaitingResponse && !(s is AwaitingResponse) ==> (s is Creating || s is Answering)
            && (e matches DriverEvent::Sent(Ok(_))) && a is Receive,
{
}

/// After a notice the driver waits for the reply: until the answer (or the
/// command) arrives, no event moves it or brings another notice.
pub proof fn lemma_waits_for_reply<S>(s: DriverState<S>, e: DriverEvent, t: DriverState<S>, a: DriverAction)
    requires
        steps(s, e, t, a),
    ensures
        a is Notify ==> t is AwaitingAnswer || t is AwaitingCommand,
        s is AwaitingAnswer && !(e is Answer) ==> t == s && a is Wait,
        s is AwaitingCommand && !(e is Command) ==> t == s && a is Wait,
{
}

/// No step replaces the transport: while the attempt lasts, every state
/// holds the one it started with.
pub proof fn lemma_transport_kept<S>(s: DriverState<S>, e: DriverEvent, t: DriverState<S>, a: DriverAction)
    requires
        steps(s, e, t, a),
    ensures
        !(t is Finished) ==> transport_of(t) == transport_of(s),
{
}

/// Runs one login attempt.
pub struct ClientManager<S> {
    state: DriverState<S>,
}

impl<S> ClientManager<S> {
    /// Where the attempt stands.
    pub closed spec fn current(self) -> DriverState<S> {
        self.state
    }

    /// A driver over a connected client, waiting for the username.
    pub fn new(client: Client<S>) -> (r: ClientManager<S>)
        ensures
            r.current() == DriverState::AwaitingUsername(client),
    {
        ClientManager { state: DriverState::AwaitingUsername(client) }
    }

    /// Where the attempt stands.
    pub fn state(&self) -> (r: &DriverState<S>)
        ensures
            *r == self.current(),
    {
        &self.state
    }

    /// The transport, while the attempt holds one.
    pub fn stream(&self) -> (r: Option<&S>)
        ensures
            match r {
                Some(s) => transport_of(self.current()) == Some(*s),
                None => transport_of(self.current()) is None,
            },
    {
        match &self.state {
            DriverState::AwaitingUsername(c) => Some(c.stream()),
            DriverState::Creating(c) => Some(c.stream()),
            DriverState::AwaitingResponse(c) => Some(c.stream()),
            DriverState::AwaitingAnswer(c) => Some(c.stream()),
            DriverState::Answering(c) => Some(c.stream()),
            DriverState::AwaitingCommand(c) => Some(c.stream()),
            DriverState::Starting(c) => Some(c.stream()),
            DriverState::Finished => None,
        }
    }

    /// Takes one event and says what to do next.
    pub fn step(self, event: DriverEvent) -> (r: (ClientManager<S>, DriverAction))
        ensures
            steps(self.current(), event, r.0.current(), r.1),
    {
        let (state, action) = match self.state {
            DriverState::AwaitingUsername(c) => match event {
                DriverEvent::Username(u) => (
                    DriverState::Creating(c),
                    DriverAction::Send(Client::<S>::create_session_request(u)),
                ),
                _ => (DriverState::AwaitingUsername(c), DriverAction::Wait),
            },
            DriverState::Creating(c) => match event {
                DriverEvent::Sent(sent) => match c.create_session(sent) {
                    Ok(active) => (DriverState::AwaitingResponse(active), DriverAction::Receive),
                    Err((e, _)) => (DriverState::Finished, DriverAction::Done(Err(e))),
                },
                _ => (DriverState::Creating(c), DriverAction::Wait),
            },
            DriverState::AwaitingResponse(c) => match event {
                DriverEvent::Received(received) => match c.next(received) {
                    Ok(Either::Left(prompting)) => {
                        let notice = StateNotice::Prompt(prompting.prompt().duplicate());
                        (DriverState::AwaitingAnswer(prompting), DriverAction::Notify(notice))
                    },
                    Ok(Either::Right(successful)) => (
                        DriverState::AwaitingCommand(successful),
                        DriverAction::Notify(StateNotice::Success),
                    ),
                    Err((e, _)) => (DriverState::Finished, DriverAction::Done(Err(e))),
                },
                _ => (DriverState::AwaitingResponse(c), DriverAction::Wait),
            },
            DriverState::AwaitingAnswer(p) => match event {
                DriverEvent::Answer(answer) => (
                    DriverState::Answering(p),
                    DriverAction::Send(PromptingClient::<S>::answer_request(answer)),
                ),
                _ => (DriverState::AwaitingAnswer(p), DriverAction::Wait),
            },
            DriverState::Answering(p) => match event {
                DriverEvent::Sent(sent) => match p.next(sent) {
                    Ok(active) => (DriverState::AwaitingResponse(active), DriverAction::Receive),
                    Err((e, _)) => (DriverState::Finished, DriverAction::Done(Err(e))),
                },
                _ => (DriverState::Answering(p), DriverAction::Wait),
            },
            DriverState::AwaitingCommand(c) => match event {
                DriverEvent::Command(command) => (
                    DriverState::Starting(c),
                    DriverAction::Send(SuccessfulClient::<S>::start_request(command, Vec::new())),
                ),
                _ => (DriverState::AwaitingCommand(c), DriverAction::Wait),
            },
            DriverState::Starting(c) => match event {
                DriverEvent::Sent(sent) => match c.finish(sent) {
                    Ok(()) => (DriverState::Finished, DriverAction::Done(Ok(()))),
                    Err((e, _)) => (DriverState::Finished, DriverAction::Done(Err(e))),
                },
                _ => (DriverState::Starting(c), DriverAction::Wait),
            },
            DriverState::Finished => (DriverState::Finished, DriverAction::Wait),
        };
        (ClientManager { state }, action)
    }
}

} // verus!
