//! The connection state machine: one value per protocol state, each owning
//! the transport, each transition consuming the state it leaves.
//!
//! The bytes themselves are moved by the caller: a transition that sends
//! takes the outcome of writing its request, one that waits takes what was
//! read. Every failure hands back a state that still owns the transport.
use vstd::prelude::*;
use either::Either;
use greetd_ipc::codec::Error as CodecError;
use greetd_ipc::{AuthMessageType, ErrorType, Request, Response};

verus! {

/// Everything that can end an attempt.
#[derive(Debug)]
pub enum ClientError {
    MissingEnvVar,
    FailedSocketConnection(String),
    FailedSocketWrite(CodecError),
    FailedSocketRead(CodecError),
    GenericError(String),
    AuthError(String),
}

/// What the daemon asks of the user.
#[derive(Debug)]
pub enum AuthPrompt {
    Input { prompt: String, secret: bool },
    Info { note: String },
    Error { note: String },
}

impl AuthPrompt {
    /// An equal copy of the prompt.
    pub fn duplicate(&self) -> (r: AuthPrompt)
        ensures
            r == *self,
    {
        match self {
            AuthPrompt::Input { prompt, secret } => AuthPrompt::Input { prompt: prompt.clone(), secret: *secret },
            AuthPrompt::Info { note } => AuthPrompt::Info { note: note.clone() },
            AuthPrompt::Error { note } => AuthPrompt::Error { note: note.clone() },
        }
    }
}

/// The prompt that an authentication message of the given kind stands for.
pub open spec fn prompt_of(kind: AuthMessageType, text: String) -> AuthPrompt {
    match kind {
        AuthMessageType::Visible => AuthPrompt::Input { prompt: text, secret: false },
        AuthMessageType::Secret => AuthPrompt::Input { prompt: text, secret: true },
        AuthMessageType::Info => AuthPrompt::Info { note: text },
        AuthMessageType::Error => AuthPrompt::Error { note: text },
    }
}

/// The error that a daemon-reported failure of the given kind stands for.
pub open spec fn daemon_error_of(kind: ErrorType, description: String) -> ClientError {
    match kind {
        ErrorType::Error => ClientError::GenericError(description),
        ErrorType::AuthError => ClientError::AuthError(description),
    }
}

/// No session requested yet.
pub struct Client<S> {
    stream: S,
}

/// A session was requested: the daemon answers with a prompt or an outcome.
pub struct ActiveClient<S> {
    stream: S,
}

/// The daemon asked a question, to be answered or cancelled.
pub struct PromptingClient<S> {
    stream: S,
    pub prompt: AuthPrompt,
}

/// The daemon accepted the session: it waits for the command to start.
pub struct SuccessfulClient<S> {
    stream: S,
}

/// The request that drops the current session.
pub fn cancel_request() -> (r: Request)
    ensures
        r == Request::CancelSession,
{
    Request::CancelSession
}

impl<S> Client<S> {
    /// The transport this state owns.
    pub closed spec fn transport(self) -> S {
        self.stream
    }

    /// Where the daemon listens, from the value of its environment setting.
    pub fn socket_path(setting: Option<String>) -> (r: Result<String, ClientError>)
        ensures
            setting is None ==> r is Err && r->Err_0 is MissingEnvVar,
            setting is Some ==> r == Ok::<String, ClientError>(setting->Some_0),
    {
        match setting {
            Some(path) => Ok(path),
            None => Err(ClientError::MissingEnvVar),
        }
    }

    /// The initial state over a freshly connected transport, or the error of
    /// a failed connection (with the failure's text).
    pub fn new(connection: Result<S, String>) -> (r: Result<Client<S>, ClientError>)
        ensures
            connection is Ok <==> r is Ok,
            r is Ok ==> r->Ok_0.transport() == connection->Ok_0,
            connection is Err ==> r->Err_0 == ClientError::FailedSocketConnection(connection->Err_0),
    {
        match connection {
            Ok(stream) => Ok(Client { stream }),
            Err(text) => Err(ClientError::FailedSocketConnection(text)),
        }
    }

    /// The transport, for writing this state's request and reading replies.
    pub fn stream(&self) -> (r: &S)
        ensures
            *r == self.transport(),
    {
        &self.stream
    }

    /// The request that asks the daemon for a session for `username`.
    pub fn create_session_request(username: String) -> (r: Request)
        ensures
            r == (Request::CreateSession { username }),
    {
        Request::CreateSession { username }
    }

    /// Moves on once `create_session_request` has been written; a failed
    /// write returns this very state, ready for another try.
    pub fn create_session(self, sent: Result<(), CodecError>) -> (r: Result<ActiveClient<S>, (ClientError, Client<S>)>)
        ensures
            sent is Ok <==> r is Ok,
            r is Ok ==> r->Ok_0.transport() == self.transport(),
            sent is Err ==> r->Err_0 == (ClientError::FailedSocketWrite(sent->Err_0), self),
    {
        match sent {
            Ok(()) => Ok(ActiveClient { stream: self.stream }),
            Err(e) => Err((ClientError::FailedSocketWrite(e), self)),
        }
    }
}

impl<S> ActiveClient<S> {
    /// The transport this state owns.
    pub closed spec fn transport(self) -> S {
        self.stream
    }

    /// The transport, for reading the daemon's next response.
    pub fn stream(&self) -> (r: &S)
        ensures
            *r == self.transport(),
    {
        &self.stream
    }

    /// Classifies the daemon's response (or the failure to read one).
    pub fn next(self, received: Result<Response, CodecError>) -> (r: Result<
        Either<PromptingClient<S>, SuccessfulClient<S>>,
        (ClientError, Client<S>),
    >)
        ensures
            match received {
                Err(e) => r is Err && r->Err_0.0 == ClientError::FailedSocketRead(e)
                    && r->Err_0.1.transport() == self.transport(),
                Ok(Response::Success) => match r {
                    Ok(Either::Right(c)) => c.transport() == self.transport(),
                    _ => false,
                },
                Ok(Response::Error { error_type, description }) => r is Err
                    && r->Err_0.0 == daemon_error_of(error_type, description)
                    && r->Err_0.1.transport() == self.transport(),
                Ok(Response::AuthMessage { auth_message_type, auth_message }) => match r {
                    Ok(Either::Left(p)) => p.asked() == prompt_of(auth_message_type, auth_message)
                        && p.transport() == self.transport(),
                    _ => false,
                },
            },
    {
        let response = match received {
            Ok(response) => response,
            Err(e) => {
                return Err((ClientError::FailedSocketRead(e), Client { stream: self.stream }));
            },
        };
        match response {
            Response::Success => Ok(Either::Right(SuccessfulClient { stream: self.stream })),
            Response::Error { error_type, description } => {
                let error = match error_type {
                    ErrorType::Error => ClientError::GenericError(description),
                    ErrorType::AuthError => ClientError::AuthError(description),
                };
                Err((error, Client { stream: self.stream }))
            },
            Response::AuthMessage { auth_message_type, auth_message } => {
                let prompt = match auth_message_type {
                    AuthMessageType::Visible => AuthPrompt::Input { prompt: auth_message, secret: false },
                    AuthMessageType::Secret => AuthPrompt::Input { prompt: auth_message, secret: true },
                    AuthMessageType::Info => AuthPrompt::Info { note: auth_message },
                    AuthMessageType::Error => AuthPrompt::Error { note: auth_message },
                };
                Ok(Either::Left(PromptingClient { stream: self.stream, prompt }))
            },
        }
    }

    /// Drops the session once `cancel_request` has been written: the
    /// transport always comes back, with the write's error if it failed.
    pub fn cancel(self, sent: Result<(), CodecError>) -> (r: (Client<S>, Option<ClientError>))
        ensures
            r.0.transport() == self.transport(),
            sent is Ok <==> r.1 is None,
            sent is Err ==> r.1 == Some(ClientError::FailedSocketWrite(sent->Err_0)),
    {
        let error = match sent {
            Ok(()) => None,
            Err(e) => Some(ClientError::FailedSocketWrite(e)),
        };
        (Client { stream: self.stream }, error)
    }
}

impl<S> PromptingClient<S> {
    /// The transport this state owns.
    pub closed spec fn transport(self) -> S {
        self.stream
    }

    /// The question this state waits on.
    pub closed spec fn asked(self) -> AuthPrompt {
        self.prompt
    }

    /// The question this state waits on.
    pub fn prompt(&self) -> (r: &AuthPrompt)
        ensures
            *r == self.asked(),
    {
        &self.prompt
    }

    /// The transport, for writing the answer.
    pub fn stream(&self) -> (r: &S)
        ensures
            *r == self.transport(),
    {
        &self.stream
    }

    /// The request that carries the answer to the current prompt.
    pub fn answer_request(answer: Option<String>) -> (r: Request)
        ensures
            r == (Request::PostAuthMessageResponse { response: answer }),
    {
        Request::PostAuthMessageResponse { response: answer }
    }

    /// Moves on once `answer_request` has been written; a failed write
    /// returns this very state, with the same prompt, ready for another try.
    pub fn next(self, sent: Result<(), CodecError>) -> (r: Result<ActiveClient<S>, (ClientError, PromptingClient<S>)>)
        ensures
            sent is Ok <==> r is Ok,
            r is Ok ==> r->Ok_0.transport() == self.transport(),
            sent is Err ==> r->Err_0 == (ClientError::FailedSocketWrite(sent->Err_0), self),
    {
        match sent {
            Ok(()) => Ok(ActiveClient { stream: self.stream }),
            Err(e) => Err((ClientError::FailedSocketWrite(e), self)),
        }
    }

    /// Drops the session once `cancel_request` has been written: the
    /// transport always comes back, with the write's error if it failed.
    pub fn cancel(self, sent: Result<(), CodecError>) -> (r: (Client<S>, Option<ClientError>))
        ensures
            r.0.transport() == self.transport(),
            sent is Ok <==> r.1 is None,
            sent is Err ==> r.1 == Some(ClientError::FailedSocketWrite(sent->Err_0)),
    {
        let error = match sent {
            Ok(()) => None,
            Err(e) => Some(ClientError::FailedSocketWrite(e)),
        };
        (Client { stream: self.stream }, error)
    }
}

impl<S> SuccessfulClient<S> {
    /// The transport this state owns.
    pub closed spec fn transport(self) -> S {
        self.stream
    }

    /// The transport, for writing the start request.
    pub fn stream(&self) -> (r: &S)
        ensures
            *r == self.transport(),
    {
        &self.stream
    }

    /// The request that starts `command` with `environment`.
    pub fn start_request(command: Vec<String>, environment: Vec<String>) -> (r: Request)
        ensures
            r == (Request::StartSession { cmd: command, env: environment }),
    {
        Request::StartSession { cmd: command, env: environment }
    }

    /// Completes the handshake once `start_request` has been written: the
    /// daemon takes over and the transport is released. A failed write
    /// returns this very state, ready for another try.
    pub fn finish(self, sent: Result<(), CodecError>) -> (r: Result<(), (ClientError, SuccessfulClient<S>)>)
        ensures
            sent is Ok <==> r is Ok,
            sent is Err ==> r->Err_0 == (ClientError::FailedSocketWrite(sent->Err_0), self),
    {
        match sent {
            Ok(()) => Ok(()),
            Err(e) => Err((ClientError::FailedSocketWrite(e), self)),
        }
    }
}

} // verus!
